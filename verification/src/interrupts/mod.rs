//! Architecture-independent entry to the interrupt subsystem.

pub mod x86;

use crate::interrupts::x86::idt::{DescriptorTablePointer, Idt, TableState};
use crate::interrupts::x86::{holds_registry, init_idt, HandlerAddresses};
use vstd::prelude::*;

verus! {

/// Sets up interrupt handling: builds the table of the one architecture
/// there is, with a gate for each exception that the kernel handles, ready to
/// be installed at `base`.
pub fn init(handlers: &HandlerAddresses, base: u64) -> (loaded: (Idt, DescriptorTablePointer))
    ensures
        loaded.0@.wf(),
        loaded.0@.state is Loaded,
        holds_registry(loaded.0@, *handlers),
        loaded.1 == (DescriptorTablePointer { limit: 255, base }),
{
    init_idt(handlers, base)
}

} // verus!

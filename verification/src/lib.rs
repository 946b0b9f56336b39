//! Interrupt dispatch for a small x86-64 kernel: the descriptor table that the
//! CPU reads, the diagnostics that the exception handlers emit, and the
//! text-mode screen they are written to.

pub mod interrupts;
pub mod text;
pub mod vga_buffer;

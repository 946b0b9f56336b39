//! x86-64 exceptions: what the CPU hands to a handler, what each handler
//! reports, and the table that routes the vectors to the handlers.

pub mod idt;

use crate::interrupts::x86::idt::{
    interrupts_masked, lemma_handler_round_trip, lemma_new_options, present_flag,
    DescriptorTablePointer, EntryView, Idt, IdtView, TableState,
};
use crate::text::{decimal_text, hex_text, push_decimal, push_hex};
use vstd::prelude::*;
use vstd::string::*;

verus! {

/// The registers of the interrupted program, as the CPU pushes them on entry
/// to a handler.
#[derive(Debug, Clone, Copy, PartialEq, Eq, Structural)]
pub struct ExceptionStackFrame {
    /// The address of the instruction that was interrupted or that faulted.
    pub instruction_pointer: u64,
    /// The code segment of the interrupted program.
    pub code_segment: u64,
    /// The flags register.
    pub cpu_flags: u64,
    /// The stack pointer at the moment of the interrupt.
    pub stack_pointer: u64,
    /// The stack segment of the interrupted program.
    pub stack_segment: u64,
}

impl ExceptionStackFrame {
    /// The frame that the CPU has pushed, read from the five words that the
    /// stack pointer stands at on entry, lowest address first (after the
    /// error code, where the exception has one, has been taken off).
    pub fn from_words(words: [u64; 5]) -> (frame: Self)
        ensures
            frame == (ExceptionStackFrame {
                instruction_pointer: words@[0],
                code_segment: words@[1],
                cpu_flags: words@[2],
                stack_pointer: words@[3],
                stack_segment: words@[4],
            }),
    {
        ExceptionStackFrame {
            instruction_pointer: words[0],
            code_segment: words[1],
            cpu_flags: words[2],
            stack_pointer: words[3],
            stack_segment: words[4],
        }
    }
}

/// The frame as the diagnostics show it: the type's name and one line for
/// each register, in decimal.
pub open spec fn frame_text(frame: ExceptionStackFrame) -> Seq<char> {
    "ExceptionStackFrame {\n    instruction_pointer: "@ + decimal_text(frame.instruction_pointer)
        + ",\n    code_segment: "@ + decimal_text(frame.code_segment) + ",\n    cpu_flags: "@
        + decimal_text(frame.cpu_flags) + ",\n    stack_pointer: "@ + decimal_text(
        frame.stack_pointer,
    ) + ",\n    stack_segment: "@ + decimal_text(frame.stack_segment) + ",\n}"@
}

/// Appends the frame's text to `out`.
fn push_frame(out: &mut String, frame: &ExceptionStackFrame)
    ensures
        final(out)@ == old(out)@ + frame_text(*frame),
{
    out.append("ExceptionStackFrame {\n    instruction_pointer: ");
    push_decimal(out, frame.instruction_pointer);
    out.append(",\n    code_segment: ");
    push_decimal(out, frame.code_segment);
    out.append(",\n    cpu_flags: ");
    push_decimal(out, frame.cpu_flags);
    out.append(",\n    stack_pointer: ");
    push_decimal(out, frame.stack_pointer);
    out.append(",\n    stack_segment: ");
    push_decimal(out, frame.stack_segment);
    out.append(",\n}");
    assert(out@ =~= old(out)@ + frame_text(*frame));
}

/// The number of cause flags that a page fault's error code holds.
pub const CAUSE_FLAGS: usize = 5;

/// Whether bit `flag` of an error code is set.
pub open spec fn flag_set(bits: u64, flag: usize) -> bool {
    bits & (1u64 << flag) != 0
}

/// The name of cause flag `flag`, as the diagnostics show it.
pub open spec fn flag_name(flag: int) -> Seq<char> {
    if flag == 0 {
        "PROTECTION_VIOLATION"@
    } else if flag == 1 {
        "CAUSED_BY_WRITE"@
    } else if flag == 2 {
        "USER_MODE"@
    } else if flag == 3 {
        "MALFORMED_TABLE"@
    } else {
        "INSTRUCTION_FETCH"@
    }
}

/// The names of those among the first `count` cause flags that are set in
/// `bits`, in the order of their bits.
pub open spec fn flag_names(bits: u64, count: nat) -> Seq<Seq<char>>
    decreases count,
{
    if count == 0 {
        Seq::empty()
    } else if flag_set(bits, (count - 1) as usize) {
        flag_names(bits, (count - 1) as nat).push(flag_name(count - 1))
    } else {
        flag_names(bits, (count - 1) as nat)
    }
}

/// The names one after the other, with ` | ` between each two.
pub open spec fn joined(names: Seq<Seq<char>>) -> Seq<char>
    decreases names.len(),
{
    if names.len() == 0 {
        Seq::empty()
    } else if names.len() == 1 {
        names[0]
    } else {
        joined(names.drop_last()) + " | "@ + names.last()
    }
}

/// The causes that an error code names, as the diagnostics show them.
pub open spec fn cause_text(bits: u64) -> Seq<char> {
    if flag_names(bits, CAUSE_FLAGS as nat).len() == 0 {
        "(empty)"@
    } else {
        joined(flag_names(bits, CAUSE_FLAGS as nat))
    }
}

/// The error code that the CPU pushes for a page fault. Every 64-bit value
/// is one: the five low bits name the cause, the others are kept and mean
/// nothing.
#[derive(Debug, Clone, Copy, PartialEq, Eq, Structural)]
pub struct PageFaultErrorCode {
    bits: u64,
}

impl View for PageFaultErrorCode {
    type V = u64;

    closed spec fn view(&self) -> u64 {
        self.bits
    }
}

impl PageFaultErrorCode {
    /// Reads the raw value that the CPU pushed.
    pub fn from_bits(bits: u64) -> (code: Self)
        ensures
            code@ == bits,
    {
        PageFaultErrorCode { bits }
    }

    /// The raw value.
    pub fn bits(&self) -> (bits: u64)
        ensures
            bits == self@,
    {
        self.bits
    }

    /// Whether cause flag `flag` is set.
    fn flag(&self, flag: usize) -> (set: bool)
        requires
            flag < 64,
        ensures
            set == flag_set(self@, flag),
    {
        self.bits & (1u64 << flag) != 0
    }

    /// The page was present and the access broke its protection; otherwise
    /// the page was not present.
    pub fn protection_violation(&self) -> (set: bool)
        ensures
            set == flag_set(self@, 0),
    {
        self.flag(0)
    }

    /// The access was a write; otherwise a read.
    pub fn caused_by_write(&self) -> (set: bool)
        ensures
            set == flag_set(self@, 1),
    {
        self.flag(1)
    }

    /// The access came from user mode.
    pub fn user_mode(&self) -> (set: bool)
        ensures
            set == flag_set(self@, 2),
    {
        self.flag(2)
    }

    /// A reserved bit was set in an entry of the page table.
    pub fn malformed_table(&self) -> (set: bool)
        ensures
            set == flag_set(self@, 3),
    {
        self.flag(3)
    }

    /// The access was an instruction fetch.
    pub fn instruction_fetch(&self) -> (set: bool)
        ensures
            set == flag_set(self@, 4),
    {
        self.flag(4)
    }

    /// Appends the names of the causes to `out`.
    fn push_causes(&self, out: &mut String)
        ensures
            final(out)@ == old(out)@ + cause_text(self@),
    {
        let mut flag: usize = 0;
        let mut first = true;
        while flag < CAUSE_FLAGS
            invariant
                flag <= CAUSE_FLAGS,
                first == (flag_names(self@, flag as nat).len() == 0),
                out@ == old(out)@ + joined(flag_names(self@, flag as nat)),
            decreases CAUSE_FLAGS - flag,
        {
            if self.flag(flag) {
                let ghost before = flag_names(self@, flag as nat);
                let ghost after = before.push(flag_name(flag as int));
                assert(after.drop_last() =~= before);
                assert(after.last() == flag_name(flag as int));
                if !first {
                    out.append(" | ");
                }
                out.append(flag_label(flag));
                first = false;
                assert(out@ =~= old(out)@ + joined(after));
            }
            flag += 1;
        }
        if first {
            out.append("(empty)");
        }
    }

    /// The names of the causes, joined by ` | `; `(empty)` where no cause
    /// flag is set.
    pub fn describe(&self) -> (text: String)
        ensures
            text@ == cause_text(self@),
    {
        let mut text = String::new();
        self.push_causes(&mut text);
        text
    }
}

/// The name of cause flag `flag`.
fn flag_label(flag: usize) -> (name: &'static str)
    requires
        flag < CAUSE_FLAGS,
    ensures
        name@ == flag_name(flag as int),
{
    if flag == 0 {
        "PROTECTION_VIOLATION"
    } else if flag == 1 {
        "CAUSED_BY_WRITE"
    } else if flag == 2 {
        "USER_MODE"
    } else if flag == 3 {
        "MALFORMED_TABLE"
    } else {
        "INSTRUCTION_FETCH"
    }
}

/// The exceptions that the kernel handles.
#[derive(Debug, Clone, Copy, PartialEq, Eq, Structural)]
pub enum Exception {
    /// A division by zero, or a quotient that does not fit.
    DivideByZero,
    /// The breakpoint instruction.
    Breakpoint,
    /// An instruction that the CPU does not know.
    InvalidOpcode,
    /// An access to memory that the page table does not allow.
    PageFault,
}

/// What follows a handler's report.
#[derive(Debug, Clone, Copy, PartialEq, Eq, Structural)]
pub enum Disposition {
    /// The fault cannot be mended: the machine idles for ever.
    Halt,
    /// The interrupted program goes on after the trapping instruction.
    Resume,
}

impl Exception {
    /// The vector that the CPU raises the exception on.
    pub open spec fn spec_vector(self) -> u8 {
        match self {
            Exception::DivideByZero => 0,
            Exception::Breakpoint => 3,
            Exception::InvalidOpcode => 6,
            Exception::PageFault => 14,
        }
    }

    /// The vector that the CPU raises the exception on.
    #[verifier::when_used_as_spec(spec_vector)]
    pub fn vector(self) -> (vector: u8)
        ensures
            vector == self.spec_vector(),
    {
        match self {
            Exception::DivideByZero => 0,
            Exception::Breakpoint => 3,
            Exception::InvalidOpcode => 6,
            Exception::PageFault => 14,
        }
    }

    /// Whether the CPU pushes an error code above the stack frame, which the
    /// entry stub has to take off before it reads the frame.
    pub open spec fn spec_pushes_error_code(self) -> bool {
        self is PageFault
    }

    /// Whether the CPU pushes an error code above the stack frame, which the
    /// entry stub has to take off before it reads the frame.
    #[verifier::when_used_as_spec(spec_pushes_error_code)]
    pub fn pushes_error_code(self) -> (pushes: bool)
        ensures
            pushes == self.spec_pushes_error_code(),
    {
        match self {
            Exception::PageFault => true,
            _ => false,
        }
    }

    /// What follows the handler's report: a trap resumes, a fault halts.
    pub open spec fn spec_disposition(self) -> Disposition {
        match self {
            Exception::Breakpoint => Disposition::Resume,
            _ => Disposition::Halt,
        }
    }

    /// What follows the handler's report: a trap resumes, a fault halts.
    #[verifier::when_used_as_spec(spec_disposition)]
    pub fn disposition(self) -> (disposition: Disposition)
        ensures
            disposition == self.spec_disposition(),
    {
        match self {
            Exception::Breakpoint => Disposition::Resume,
            _ => Disposition::Halt,
        }
    }
}

/// What a handler hands back: the text for the output sink and what to do
/// once it is written.
#[derive(Debug, PartialEq, Eq)]
pub struct Diagnostic {
    /// The report, complete with its final line break.
    pub text: String,
    /// Whether to halt or to resume.
    pub disposition: Disposition,
}

/// The report of a division by zero.
pub open spec fn divide_by_zero_text(frame: ExceptionStackFrame) -> Seq<char> {
    "\nEXCEPTION! DIVIDE BY ZERO\n"@ + frame_text(frame) + "\n"@
}

/// The report of an invalid opcode at the frame's instruction pointer.
pub open spec fn invalid_opcode_text(frame: ExceptionStackFrame) -> Seq<char> {
    "\nEXCEPTION! Invalid Opcode at "@ + hex_text(frame.instruction_pointer, false) + "\n"@
        + frame_text(frame) + ")\n"@
}

/// The report of a page fault on an access to `accessed` whose causes
/// `error_code` names.
pub open spec fn page_fault_text(
    frame: ExceptionStackFrame,
    error_code: u64,
    accessed: u64,
) -> Seq<char> {
    "\nEXCEPTION! Page Fault while accessing "@ + hex_text(accessed, true) + "\nerror code: "@
        + cause_text(error_code) + "\n"@ + frame_text(frame) + "\n"@
}

/// The report of a breakpoint.
pub open spec fn breakpoint_text(frame: ExceptionStackFrame) -> Seq<char> {
    "EXCEPTION: BREAKPOINT\n"@ + frame_text(frame) + "\n"@
}

/// Handles a division by zero: reports it and halts.
pub fn divide_by_zero_handler(stack_frame: &ExceptionStackFrame) -> (report: Diagnostic)
    ensures
        report.text@ == divide_by_zero_text(*stack_frame),
        report.disposition == Disposition::Halt,
{
    let mut text = String::new();
    text.append("\nEXCEPTION! DIVIDE BY ZERO\n");
    push_frame(&mut text, stack_frame);
    text.append("\n");
    assert(text@ =~= divide_by_zero_text(*stack_frame));
    Diagnostic { text, disposition: Exception::DivideByZero.disposition() }
}

/// Handles an invalid opcode: reports it, with the address of the
/// instruction, and halts.
pub fn invalid_opcode_handler(stack_frame: &ExceptionStackFrame) -> (report: Diagnostic)
    ensures
        report.text@ == invalid_opcode_text(*stack_frame),
        report.disposition == Disposition::Halt,
{
    let mut text = String::new();
    text.append("\nEXCEPTION! Invalid Opcode at ");
    push_hex(&mut text, stack_frame.instruction_pointer, false);
    text.append("\n");
    push_frame(&mut text, stack_frame);
    text.append(")\n");
    assert(text@ =~= invalid_opcode_text(*stack_frame));
    Diagnostic { text, disposition: Exception::InvalidOpcode.disposition() }
}

/// Handles a page fault: reports the address `accessed` that the program
/// tried to reach and the causes that `error_code` names, and halts.
pub fn page_fault_handler(
    stack_frame: &ExceptionStackFrame,
    error_code: u64,
    accessed: u64,
) -> (report: Diagnostic)
    ensures
        report.text@ == page_fault_text(*stack_frame, error_code, accessed),
        report.disposition == Disposition::Halt,
{
    let mut text = String::new();
    text.append("\nEXCEPTION! Page Fault while accessing ");
    push_hex(&mut text, accessed, true);
    text.append("\nerror code: ");
    PageFaultErrorCode::from_bits(error_code).push_causes(&mut text);
    text.append("\n");
    push_frame(&mut text, stack_frame);
    text.append("\n");
    assert(text@ =~= page_fault_text(*stack_frame, error_code, accessed));
    Diagnostic { text, disposition: Exception::PageFault.disposition() }
}

/// Handles a breakpoint: reports it and resumes.
pub fn breakpoint_handler(stack_frame: &ExceptionStackFrame) -> (report: Diagnostic)
    ensures
        report.text@ == breakpoint_text(*stack_frame),
        report.disposition == Disposition::Resume,
{
    let mut text = String::new();
    text.append("EXCEPTION: BREAKPOINT\n");
    push_frame(&mut text, stack_frame);
    text.append("\n");
    assert(text@ =~= breakpoint_text(*stack_frame));
    Diagnostic { text, disposition: Exception::Breakpoint.disposition() }
}

/// The addresses of the entry stubs, one for each exception.
#[derive(Debug, Clone, Copy, PartialEq, Eq, Structural)]
pub struct HandlerAddresses {
    /// The stub of the divide-by-zero handler.
    pub divide_by_zero: u64,
    /// The stub of the breakpoint handler.
    pub breakpoint: u64,
    /// The stub of the invalid-opcode handler.
    pub invalid_opcode: u64,
    /// The stub of the page-fault handler, which takes the error code.
    pub page_fault: u64,
}

/// The stub that the kernel registers for `vector`, if it handles the vector.
pub open spec fn registered_handler(handlers: HandlerAddresses, vector: int) -> Option<u64> {
    if vector == Exception::DivideByZero.spec_vector() {
        Some(handlers.divide_by_zero)
    } else if vector == Exception::Breakpoint.spec_vector() {
        Some(handlers.breakpoint)
    } else if vector == Exception::InvalidOpcode.spec_vector() {
        Some(handlers.invalid_opcode)
    } else if vector == Exception::PageFault.spec_vector() {
        Some(handlers.page_fault)
    } else {
        None
    }
}

/// Whether `table` holds a gate to its stub for each exception that the
/// kernel handles, whatever code segment the gates go through, and no other
/// gate.
pub open spec fn holds_registry(table: IdtView, handlers: HandlerAddresses) -> bool {
    &&& forall|vector: int| #[trigger]
        table.registered.contains(vector) <==> registered_handler(handlers, vector) is Some
    &&& forall|vector: int|
        0 <= vector < 16 ==> #[trigger] table.entries[vector] == match registered_handler(
            handlers,
            vector,
        ) {
            Some(address) => EntryView::for_handler(table.entries[vector].gdt_selector, address),
            None => EntryView::missing(),
        }
}

/// In a table that holds the registry, the descriptor of each exception that
/// the kernel handles is present, leads to the exception's stub and masks
/// interrupts on entry, so that no handler is interrupted by another.
pub proof fn lemma_registry_gates(table: IdtView, handlers: HandlerAddresses, exception: Exception)
    requires
        holds_registry(table, handlers),
    ensures
        registered_handler(handlers, exception.spec_vector() as int) is Some,
        table.entries[exception.spec_vector() as int].handler_address() == registered_handler(
            handlers,
            exception.spec_vector() as int,
        )->0,
        present_flag(table.entries[exception.spec_vector() as int].options),
        interrupts_masked(table.entries[exception.spec_vector() as int].options),
{
    let vector = exception.spec_vector() as int;
    let stored = table.entries[vector];
    lemma_new_options();
    lemma_handler_round_trip(
        stored.gdt_selector,
        registered_handler(handlers, vector)->0,
        stored.options,
    );
}

/// Builds the kernel's table, with a gate for each exception it handles, and
/// ends its configuration for a table that stands at `base`. The caller
/// stores the table's bytes at `base`, where they stay for good, and installs
/// the table with the pointer.
pub fn init_idt(handlers: &HandlerAddresses, base: u64) -> (loaded: (Idt, DescriptorTablePointer))
    ensures
        loaded.0@.wf(),
        loaded.0@.state is Loaded,
        holds_registry(loaded.0@, *handlers),
        loaded.1 == (DescriptorTablePointer { limit: 255, base }),
{
    let mut table = Idt::new();
    let _ = table.set_handler(Exception::DivideByZero.vector(), handlers.divide_by_zero);
    let _ = table.set_handler(Exception::Breakpoint.vector(), handlers.breakpoint);
    let _ = table.set_handler(Exception::InvalidOpcode.vector(), handlers.invalid_opcode);
    let _ = table.set_handler(Exception::PageFault.vector(), handlers.page_fault);
    let pointer = table.load(base);
    (table, pointer)
}

} // verus!

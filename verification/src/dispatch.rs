//! What a handler decides when an exception arrives: the report it hands to
//! the diagnostics sink, and whether the machine goes on or halts.

use vstd::prelude::*;
use vstd::string::StringSliceAdditionalSpecFns;
use vstd::utf8::is_ascii_chars_encode_utf8;
use crate::exception::{classify, spec_classify, Action, ExceptionKind};
use crate::registry::HandlerRegistry;
use crate::text::{clipped, decimal_text, hex_text, lemma_clipped_append, Line, LINE_CAPACITY};

verus! {

/// What the trampoline hands to a handler about the interrupted code.
#[derive(Clone, Copy, Debug, PartialEq, Eq)]
pub struct TrapFrame {
    /// Address of the instruction that faulted.
    pub instruction_pointer: u64,
    /// The word the processor pushed; without meaning for an exception that
    /// pushes none.
    pub error_code: u64,
    /// The address whose access faulted; without meaning but for a page
    /// fault.
    pub fault_address: u64,
}

/// What a page fault's error code says about the access that faulted.
#[derive(Clone, Copy, Debug, PartialEq, Eq)]
pub struct PageFaultCause {
    /// The page was present: the access broke a protection.
    pub present: bool,
    /// The access was a write, else a read.
    pub write: bool,
    /// The access came from user mode, else from supervisor mode.
    pub user: bool,
}

impl PageFaultCause {
    /// Bit 0 of the error code is the present flag, bit 1 the write flag,
    /// bit 2 the user flag.
    pub open spec fn spec_from_error_code(error_code: u64) -> PageFaultCause {
        PageFaultCause {
            present: error_code & 0x1 != 0,
            write: error_code & 0x2 != 0,
            user: error_code & 0x4 != 0,
        }
    }

    /// Reads the three flags of a page fault's error code.
    pub fn from_error_code(error_code: u64) -> (cause: Self)
        ensures
            cause == Self::spec_from_error_code(error_code),
    {
        PageFaultCause {
            present: error_code & 0x1 != 0,
            write: error_code & 0x2 != 0,
            user: error_code & 0x4 != 0,
        }
    }

    /// The cause in words.
    pub open spec fn spec_text(self) -> Seq<u8> {
        " (".spec_bytes() + (if self.write {
            "write".spec_bytes()
        } else {
            "read".spec_bytes()
        }) + ", ".spec_bytes() + (if self.user {
            "user".spec_bytes()
        } else {
            "supervisor".spec_bytes()
        }) + ", ".spec_bytes() + (if self.present {
            "present".spec_bytes()
        } else {
            "absent".spec_bytes()
        }) + ")".spec_bytes()
    }
}

/// One diagnostic report.
#[derive(Clone, Copy, Debug, PartialEq, Eq)]
pub struct Report {
    /// The vector that trapped.
    pub vector: u8,
    /// The exception, where a handler of its own reports it.
    pub kind: Option<ExceptionKind>,
    /// Address of the instruction that faulted.
    pub instruction_pointer: Option<u64>,
    /// The address whose access faulted.
    pub fault_address: Option<u64>,
    /// The word the processor pushed.
    pub error_code: Option<u64>,
}

/// A report and what follows it.
#[derive(Clone, Copy, Debug, PartialEq, Eq)]
pub struct Outcome {
    /// The one report handed to the diagnostics sink.
    pub report: Report,
    /// What the handler does after the report.
    pub action: Action,
}

impl ExceptionKind {
    /// The name under which the exception is reported.
    pub open spec fn spec_name(self) -> &'static str {
        match self {
            ExceptionKind::DivideError => "divide error",
            ExceptionKind::Debug => "debug",
            ExceptionKind::NonMaskableInterrupt => "non-maskable interrupt",
            ExceptionKind::Breakpoint => "breakpoint",
            ExceptionKind::Overflow => "overflow",
            ExceptionKind::BoundsCheck => "bounds check",
            ExceptionKind::InvalidOpcode => "invalid opcode",
            ExceptionKind::DeviceNotAvailable => "device not available",
            ExceptionKind::DoubleFault => "double fault",
            ExceptionKind::CoprocessorSegmentOverrun => "coprocessor segment overrun",
            ExceptionKind::InvalidTss => "invalid task state segment",
            ExceptionKind::SegmentNotPresent => "segment not present",
            ExceptionKind::StackSegmentFault => "stack segment fault",
            ExceptionKind::GeneralProtection => "general protection",
            ExceptionKind::PageFault => "page fault",
            ExceptionKind::FloatingPointError => "floating-point error",
            ExceptionKind::AlignmentCheck => "alignment check",
            ExceptionKind::MachineCheck => "machine check",
            ExceptionKind::SimdFloatingPoint => "simd floating-point exception",
        }
    }

    /// The name under which the exception is reported.
    pub fn name(self) -> (name: &'static str)
        ensures
            name@ == self.spec_name()@,
    {
        match self {
            ExceptionKind::DivideError => "divide error",
            ExceptionKind::Debug => "debug",
            ExceptionKind::NonMaskableInterrupt => "non-maskable interrupt",
            ExceptionKind::Breakpoint => "breakpoint",
            ExceptionKind::Overflow => "overflow",
            ExceptionKind::BoundsCheck => "bounds check",
            ExceptionKind::InvalidOpcode => "invalid opcode",
            ExceptionKind::DeviceNotAvailable => "device not available",
            ExceptionKind::DoubleFault => "double fault",
            ExceptionKind::CoprocessorSegmentOverrun => "coprocessor segment overrun",
            ExceptionKind::InvalidTss => "invalid task state segment",
            ExceptionKind::SegmentNotPresent => "segment not present",
            ExceptionKind::StackSegmentFault => "stack segment fault",
            ExceptionKind::GeneralProtection => "general protection",
            ExceptionKind::PageFault => "page fault",
            ExceptionKind::FloatingPointError => "floating-point error",
            ExceptionKind::AlignmentCheck => "alignment check",
            ExceptionKind::MachineCheck => "machine check",
            ExceptionKind::SimdFloatingPoint => "simd floating-point exception",
        }
    }

    /// The exceptions that have a handler of their own; every other one is
    /// left to the default stub.
    pub open spec fn spec_has_own_handler(self) -> bool {
        self is DivideError || self is InvalidOpcode || self is BoundsCheck || self is Overflow
            || self is Breakpoint || self is Debug || self is DoubleFault || self is PageFault
            || self is GeneralProtection
    }

    /// Whether the exception has a handler of its own.
    pub fn has_own_handler(self) -> (own: bool)
        ensures
            own == self.spec_has_own_handler(),
    {
        match self {
            ExceptionKind::DivideError
            | ExceptionKind::InvalidOpcode
            | ExceptionKind::BoundsCheck
            | ExceptionKind::Overflow
            | ExceptionKind::Breakpoint
            | ExceptionKind::Debug
            | ExceptionKind::DoubleFault
            | ExceptionKind::PageFault
            | ExceptionKind::GeneralProtection => true,
            _ => false,
        }
    }
}

/// The text of a labelled hexadecimal field; nothing where the field is
/// absent.
pub open spec fn field_text(label: Seq<u8>, value: Option<u64>) -> Seq<u8> {
    match value {
        Some(word) => label + hex_text(word),
        None => Seq::empty(),
    }
}

impl Report {
    /// The cause of a reported page fault.
    pub open spec fn spec_page_fault_cause(self) -> Option<PageFaultCause> {
        match (self.kind, self.error_code) {
            (Some(ExceptionKind::PageFault), Some(error_code)) => Some(
                PageFaultCause::spec_from_error_code(error_code),
            ),
            _ => None,
        }
    }

    /// The cause of a reported page fault; `None` for any other report.
    pub fn page_fault_cause(&self) -> (cause: Option<PageFaultCause>)
        ensures
            cause == self.spec_page_fault_cause(),
    {
        match (self.kind, self.error_code) {
            (Some(ExceptionKind::PageFault), Some(error_code)) => Some(
                PageFaultCause::from_error_code(error_code),
            ),
            _ => None,
        }
    }

    /// How the line begins: the exception's name, or the default stub's
    /// words.
    pub open spec fn spec_headline(self) -> Seq<u8> {
        match self.kind {
            Some(kind) => kind.spec_name().spec_bytes(),
            None => "unhandled exception".spec_bytes(),
        }
    }

    /// What follows the vector: the fields that the report holds, and the
    /// cause of a page fault in words.
    pub open spec fn spec_details(self) -> Seq<u8> {
        field_text(" ip=0x".spec_bytes(), self.instruction_pointer) + field_text(
            " addr=0x".spec_bytes(),
            self.fault_address,
        ) + field_text(" error=0x".spec_bytes(), self.error_code) + (match self.spec_page_fault_cause() {
            Some(cause) => cause.spec_text(),
            None => Seq::empty(),
        })
    }

    /// The line of text that the diagnostics sink receives.
    pub open spec fn spec_line(self) -> Seq<u8> {
        self.spec_headline() + " vector=".spec_bytes() + decimal_text(self.vector as nat)
            + self.spec_details()
    }

    /// Renders the report as one line of text, without a line end. The line
    /// is built in a fixed buffer, which every report fits.
    pub fn line(&self) -> (line: Line)
        ensures
            line@ == self.spec_line(),
    {
        proof {
            lemma_line_fits(*self);
        }
        let mut line = Line::new();
        match self.kind {
            Some(kind) => line.push_text(kind.name()),
            None => line.push_text("unhandled exception"),
        }
        let ghost headline = self.spec_headline();
        assert(line@ == clipped(headline)) by {
            assert(Seq::<u8>::empty() + headline =~= headline);
        }
        line.push_text(" vector=");
        let ghost labelled = headline + " vector=".spec_bytes();
        assert(line@ == clipped(labelled)) by {
            lemma_clipped_append(headline, " vector=".spec_bytes());
        }
        line.push_decimal(self.vector);
        let ghost numbered = labelled + decimal_text(self.vector as nat);
        assert(line@ == clipped(numbered)) by {
            lemma_clipped_append(labelled, decimal_text(self.vector as nat));
        }
        let ghost with_ip = numbered + field_text(" ip=0x".spec_bytes(), self.instruction_pointer);
        push_field(&mut line, Ghost(numbered), " ip=0x", self.instruction_pointer);
        let ghost with_address = with_ip + field_text(" addr=0x".spec_bytes(), self.fault_address);
        push_field(&mut line, Ghost(with_ip), " addr=0x", self.fault_address);
        let ghost with_code = with_address + field_text(" error=0x".spec_bytes(), self.error_code);
        push_field(&mut line, Ghost(with_address), " error=0x", self.error_code);
        if let Some(cause) = self.page_fault_cause() {
            push_cause(&mut line, Ghost(with_code), cause);
        }
        assert(line@ == clipped(self.spec_line())) by {
            assert(with_code + (match self.spec_page_fault_cause() {
                Some(cause) => cause.spec_text(),
                None => Seq::empty(),
            }) =~= self.spec_line());
        }
        line
    }
}

/// Appends a labelled hexadecimal field, if the report holds it.
fn push_field(line: &mut Line, Ghost(text): Ghost<Seq<u8>>, label: &str, value: Option<u64>)
    requires
        old(line)@ == clipped(text),
    ensures
        final(line)@ == clipped(text + field_text(label.spec_bytes(), value)),
{
    match value {
        Some(word) => {
            line.push_text(label);
            line.push_hex(word);
            proof {
                lemma_clipped_append(text, label.spec_bytes());
                lemma_clipped_append(text + label.spec_bytes(), hex_text(word));
                assert((text + label.spec_bytes()) + hex_text(word) =~= text + field_text(
                    label.spec_bytes(),
                    value,
                ));
            }
        },
        None => {
            assert(text + field_text(label.spec_bytes(), value) =~= text);
        },
    }
}

/// Appends one more text to a line that holds `text`.
fn push_more(line: &mut Line, Ghost(text): Ghost<Seq<u8>>, more: &str)
    requires
        old(line)@ == clipped(text),
    ensures
        final(line)@ == clipped(text + more.spec_bytes()),
{
    line.push_text(more);
    proof {
        lemma_clipped_append(text, more.spec_bytes());
    }
}

/// Appends a page fault's cause in words.
fn push_cause(line: &mut Line, Ghost(text): Ghost<Seq<u8>>, cause: PageFaultCause)
    requires
        old(line)@ == clipped(text),
    ensures
        final(line)@ == clipped(text + cause.spec_text()),
{
    let access = if cause.write { "write" } else { "read" };
    let mode = if cause.user { "user" } else { "supervisor" };
    let page = if cause.present { "present" } else { "absent" };
    let ghost opened = text + " (".spec_bytes();
    push_more(line, Ghost(text), " (");
    let ghost with_access = opened + access.spec_bytes();
    push_more(line, Ghost(opened), access);
    let ghost first_comma = with_access + ", ".spec_bytes();
    push_more(line, Ghost(with_access), ", ");
    let ghost with_mode = first_comma + mode.spec_bytes();
    push_more(line, Ghost(first_comma), mode);
    let ghost second_comma = with_mode + ", ".spec_bytes();
    push_more(line, Ghost(with_mode), ", ");
    let ghost with_page = second_comma + page.spec_bytes();
    push_more(line, Ghost(second_comma), page);
    push_more(line, Ghost(with_page), ")");
    assert(with_page + ")".spec_bytes() =~= text + cause.spec_text());
}

/// The name of every exception has at most 29 bytes.
proof fn lemma_names_are_short(kind: ExceptionKind)
    ensures
        kind.spec_name().spec_bytes().len() <= 29,
        kind is PageFault ==> kind.spec_name().spec_bytes().len() == 10,
{
    reveal_strlit("divide error");
    reveal_strlit("debug");
    reveal_strlit("non-maskable interrupt");
    reveal_strlit("breakpoint");
    reveal_strlit("overflow");
    reveal_strlit("bounds check");
    reveal_strlit("invalid opcode");
    reveal_strlit("device not available");
    reveal_strlit("double fault");
    reveal_strlit("coprocessor segment overrun");
    reveal_strlit("invalid task state segment");
    reveal_strlit("segment not present");
    reveal_strlit("stack segment fault");
    reveal_strlit("general protection");
    reveal_strlit("page fault");
    reveal_strlit("floating-point error");
    reveal_strlit("alignment check");
    reveal_strlit("machine check");
    reveal_strlit("simd floating-point exception");
    is_ascii_chars_encode_utf8(kind.spec_name()@);
}

/// The lengths of the fixed texts of a line.
proof fn lemma_label_lengths()
    ensures
        "unhandled exception".spec_bytes().len() == 19,
        " vector=".spec_bytes().len() == 8,
        " ip=0x".spec_bytes().len() == 6,
        " addr=0x".spec_bytes().len() == 8,
        " error=0x".spec_bytes().len() == 9,
{
    reveal_strlit("unhandled exception");
    reveal_strlit(" vector=");
    reveal_strlit(" ip=0x");
    reveal_strlit(" addr=0x");
    reveal_strlit(" error=0x");
    is_ascii_chars_encode_utf8("unhandled exception"@);
    is_ascii_chars_encode_utf8(" vector="@);
    is_ascii_chars_encode_utf8(" ip=0x"@);
    is_ascii_chars_encode_utf8(" addr=0x"@);
    is_ascii_chars_encode_utf8(" error=0x"@);
}

/// A page fault's cause in words has at most 29 bytes.
proof fn lemma_cause_is_short(cause: PageFaultCause)
    ensures
        cause.spec_text().len() <= 29,
{
    reveal_strlit(" (");
    reveal_strlit("write");
    reveal_strlit("read");
    reveal_strlit(", ");
    reveal_strlit("user");
    reveal_strlit("supervisor");
    reveal_strlit("present");
    reveal_strlit("absent");
    reveal_strlit(")");
    is_ascii_chars_encode_utf8(" ("@);
    is_ascii_chars_encode_utf8("write"@);
    is_ascii_chars_encode_utf8("read"@);
    is_ascii_chars_encode_utf8(", "@);
    is_ascii_chars_encode_utf8("user"@);
    is_ascii_chars_encode_utf8("supervisor"@);
    is_ascii_chars_encode_utf8("present"@);
    is_ascii_chars_encode_utf8("absent"@);
    is_ascii_chars_encode_utf8(")"@);
}

/// Every report's line fits the line buffer.
pub proof fn lemma_line_fits(report: Report)
    ensures
        report.spec_line().len() <= LINE_CAPACITY,
        clipped(report.spec_line()) == report.spec_line(),
{
    lemma_label_lengths();
    if let Some(kind) = report.kind {
        lemma_names_are_short(kind);
    }
    if let Some(cause) = report.spec_page_fault_cause() {
        lemma_cause_is_short(cause);
    }
    reveal_with_fuel(decimal_text, 3);
    assert(decimal_text(report.vector as nat).len() <= 3);
}

/// What the default stub reports for a vector: the vector number alone.
pub open spec fn spec_default_report(vector: u8) -> Report {
    Report {
        vector,
        kind: None,
        instruction_pointer: None,
        fault_address: None,
        error_code: None,
    }
}

/// What the default stub does for a vector without a handler of its own: it
/// reports the vector number and halts.
pub open spec fn spec_unhandled(vector: u8) -> Outcome {
    Outcome { report: spec_default_report(vector), action: Action::Halt }
}

/// The default stub: reports the vector number and halts.
pub fn unhandled(vector: u8) -> (outcome: Outcome)
    ensures
        outcome == spec_unhandled(vector),
{
    Outcome {
        report: Report {
            vector,
            kind: None,
            instruction_pointer: None,
            fault_address: None,
            error_code: None,
        },
        action: Action::Halt,
    }
}

/// What the handler of an exception reports: the exception, its vector and
/// the faulting instruction; the error code where the processor pushes one;
/// the faulting address for a page fault.
pub open spec fn spec_own_report(exception: ExceptionKind, frame: TrapFrame) -> Report {
    Report {
        vector: exception.spec_vector(),
        kind: Some(exception),
        instruction_pointer: Some(frame.instruction_pointer),
        fault_address: if exception is PageFault {
            Some(frame.fault_address)
        } else {
            None
        },
        error_code: if exception.spec_pushes_error_code() {
            Some(frame.error_code)
        } else {
            None
        },
    }
}

/// What happens on an exception: one with a handler of its own is reported
/// by it and then resumed or halted as its kind says; any other is left to
/// the default stub.
pub open spec fn spec_exception_handler(exception: ExceptionKind, frame: TrapFrame) -> Outcome {
    if exception.spec_has_own_handler() {
        Outcome { report: spec_own_report(exception, frame), action: exception.spec_action() }
    } else {
        spec_unhandled(exception.spec_vector())
    }
}

/// Decides what to report for an exception and what to do next.
pub fn exception_handler(exception: ExceptionKind, frame: &TrapFrame) -> (outcome: Outcome)
    ensures
        outcome == spec_exception_handler(exception, *frame),
        outcome.report.vector == exception.spec_vector(),
        outcome.action == Action::Resume <==> exception is Breakpoint || exception is Debug,
{
    match exception {
        ExceptionKind::DivideError
        | ExceptionKind::Overflow
        | ExceptionKind::BoundsCheck
        | ExceptionKind::InvalidOpcode => Outcome {
            report: Report {
                vector: exception.vector(),
                kind: Some(exception),
                instruction_pointer: Some(frame.instruction_pointer),
                fault_address: None,
                error_code: None,
            },
            action: Action::Halt,
        },
        ExceptionKind::Debug | ExceptionKind::Breakpoint => Outcome {
            report: Report {
                vector: exception.vector(),
                kind: Some(exception),
                instruction_pointer: Some(frame.instruction_pointer),
                fault_address: None,
                error_code: None,
            },
            action: Action::Resume,
        },
        ExceptionKind::DoubleFault | ExceptionKind::GeneralProtection => Outcome {
            report: Report {
                vector: exception.vector(),
                kind: Some(exception),
                instruction_pointer: Some(frame.instruction_pointer),
                fault_address: None,
                error_code: Some(frame.error_code),
            },
            action: Action::Halt,
        },
        ExceptionKind::PageFault => Outcome {
            report: Report {
                vector: exception.vector(),
                kind: Some(exception),
                instruction_pointer: Some(frame.instruction_pointer),
                fault_address: Some(frame.fault_address),
                error_code: Some(frame.error_code),
            },
            action: Action::Halt,
        },
        ExceptionKind::NonMaskableInterrupt
        | ExceptionKind::DeviceNotAvailable
        | ExceptionKind::CoprocessorSegmentOverrun
        | ExceptionKind::InvalidTss
        | ExceptionKind::SegmentNotPresent
        | ExceptionKind::StackSegmentFault
        | ExceptionKind::FloatingPointError
        | ExceptionKind::AlignmentCheck
        | ExceptionKind::MachineCheck
        | ExceptionKind::SimdFloatingPoint => unhandled(exception.vector()),
    }
}

/// What happens when `vector` traps: a vector that stands for an exception
/// and has a registered handler is handled as that exception; any other
/// vector is left to the default stub.
pub open spec fn spec_dispatch(registry: HandlerRegistry, vector: u8, frame: TrapFrame) -> Outcome {
    match spec_classify(vector) {
        Some(exception) => if registry.spec_is_registered(vector) {
            spec_exception_handler(exception, frame)
        } else {
            spec_unhandled(vector)
        },
        None => spec_unhandled(vector),
    }
}

/// Routes a trap on `vector` to the decision of its handler.
pub fn dispatch(registry: &HandlerRegistry, vector: u8, frame: &TrapFrame) -> (outcome: Outcome)
    ensures
        outcome == spec_dispatch(*registry, vector, *frame),
        outcome.report.vector == vector,
{
    match classify(vector) {
        Some(exception) => if registry.is_registered(vector) {
            exception_handler(exception, frame)
        } else {
            unhandled(vector)
        },
        None => unhandled(vector),
    }
}

/// A trap on a vector without a registered handler goes to the vector's
/// default stub: the entry point that serves the vector is the stub's, and
/// the outcome is one report whose line names the vector, followed by a
/// halt.
pub proof fn lemma_unregistered_goes_to_default_stub(
    registry: HandlerRegistry,
    vector: u8,
    frame: TrapFrame,
)
    requires
        !registry.spec_is_registered(vector),
    ensures
        registry.spec_resolve(vector) == registry.spec_default_stub(vector),
        spec_dispatch(registry, vector, frame) == spec_unhandled(vector),
        spec_dispatch(registry, vector, frame).action == Action::Halt,
        contains_text(
            spec_dispatch(registry, vector, frame).report.spec_line(),
            decimal_text(vector as nat),
        ),
{
    lemma_line_names_vector(spec_unhandled(vector).report);
}

/// Whether `part` stands somewhere in `text`.
pub open spec fn contains_text(text: Seq<u8>, part: Seq<u8>) -> bool {
    exists|start: int|
        0 <= start && start + part.len() <= text.len() && #[trigger] text.subrange(
            start,
            start + part.len(),
        ) == part
}

/// Every report's line names the vector that trapped, in decimal.
pub proof fn lemma_line_names_vector(report: Report)
    ensures
        contains_text(report.spec_line(), decimal_text(report.vector as nat)),
{
    let number = decimal_text(report.vector as nat);
    let start = (report.spec_headline() + " vector=".spec_bytes()).len() as int;
    assert(report.spec_line().subrange(start, start + number.len()) =~= number);
}

} // verus!

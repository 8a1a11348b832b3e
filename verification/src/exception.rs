//! The CPU exceptions: which vector stands for which exception, what the
//! processor pushes for it, and how its gate is configured.

use vstd::prelude::*;
use crate::descriptor::GateType;

verus! {

/// Vector of the double-fault exception.
pub const DOUBLE_FAULT_VECTOR: u8 = 8;

/// Stack-table slot reserved for the double-fault handler.
pub const DOUBLE_FAULT_STACK_INDEX: u8 = 1;

/// Stack-table index of every other handler: no stack switch.
pub const DEFAULT_STACK_INDEX: u8 = 0;

/// The exceptions the processor raises on vectors 0-19; vector 15 is a gap.
#[derive(Clone, Copy, Debug, PartialEq, Eq, Structural)]
pub enum ExceptionKind {
    DivideError,
    Debug,
    NonMaskableInterrupt,
    Breakpoint,
    Overflow,
    BoundsCheck,
    InvalidOpcode,
    DeviceNotAvailable,
    DoubleFault,
    CoprocessorSegmentOverrun,
    InvalidTss,
    SegmentNotPresent,
    StackSegmentFault,
    GeneralProtection,
    PageFault,
    FloatingPointError,
    AlignmentCheck,
    MachineCheck,
    SimdFloatingPoint,
}

/// What the handler does once it has reported.
#[derive(Clone, Copy, Debug, PartialEq, Eq, Structural)]
pub enum Action {
    /// Return to the interrupted code.
    Resume,
    /// Stop the machine.
    Halt,
}

impl ExceptionKind {
    /// The vector on which the processor raises this exception.
    pub open spec fn spec_vector(self) -> u8 {
        match self {
            ExceptionKind::DivideError => 0,
            ExceptionKind::Debug => 1,
            ExceptionKind::NonMaskableInterrupt => 2,
            ExceptionKind::Breakpoint => 3,
            ExceptionKind::Overflow => 4,
            ExceptionKind::BoundsCheck => 5,
            ExceptionKind::InvalidOpcode => 6,
            ExceptionKind::DeviceNotAvailable => 7,
            ExceptionKind::DoubleFault => 8,
            ExceptionKind::CoprocessorSegmentOverrun => 9,
            ExceptionKind::InvalidTss => 10,
            ExceptionKind::SegmentNotPresent => 11,
            ExceptionKind::StackSegmentFault => 12,
            ExceptionKind::GeneralProtection => 13,
            ExceptionKind::PageFault => 14,
            ExceptionKind::FloatingPointError => 16,
            ExceptionKind::AlignmentCheck => 17,
            ExceptionKind::MachineCheck => 18,
            ExceptionKind::SimdFloatingPoint => 19,
        }
    }

    /// The vector on which the processor raises this exception.
    pub fn vector(self) -> (vector: u8)
        ensures
            vector == self.spec_vector(),
            vector < 20,
            vector != 15,
    {
        match self {
            ExceptionKind::DivideError => 0,
            ExceptionKind::Debug => 1,
            ExceptionKind::NonMaskableInterrupt => 2,
            ExceptionKind::Breakpoint => 3,
            ExceptionKind::Overflow => 4,
            ExceptionKind::BoundsCheck => 5,
            ExceptionKind::InvalidOpcode => 6,
            ExceptionKind::DeviceNotAvailable => 7,
            ExceptionKind::DoubleFault => 8,
            ExceptionKind::CoprocessorSegmentOverrun => 9,
            ExceptionKind::InvalidTss => 10,
            ExceptionKind::SegmentNotPresent => 11,
            ExceptionKind::StackSegmentFault => 12,
            ExceptionKind::GeneralProtection => 13,
            ExceptionKind::PageFault => 14,
            ExceptionKind::FloatingPointError => 16,
            ExceptionKind::AlignmentCheck => 17,
            ExceptionKind::MachineCheck => 18,
            ExceptionKind::SimdFloatingPoint => 19,
        }
    }

    /// Whether the processor pushes an error-code word before it enters the
    /// handler.
    pub open spec fn spec_pushes_error_code(self) -> bool {
        self is DoubleFault || self is InvalidTss || self is SegmentNotPresent
            || self is StackSegmentFault || self is GeneralProtection || self is PageFault
            || self is AlignmentCheck
    }

    /// Whether the processor pushes an error-code word before it enters the
    /// handler.
    pub fn pushes_error_code(self) -> (pushed: bool)
        ensures
            pushed == self.spec_pushes_error_code(),
    {
        match self {
            ExceptionKind::DoubleFault
            | ExceptionKind::InvalidTss
            | ExceptionKind::SegmentNotPresent
            | ExceptionKind::StackSegmentFault
            | ExceptionKind::GeneralProtection
            | ExceptionKind::PageFault
            | ExceptionKind::AlignmentCheck => true,
            _ => false,
        }
    }

    /// Breakpoint and debug exceptions are benign: execution goes on after
    /// the report. Every other exception is fatal.
    pub open spec fn spec_action(self) -> Action {
        if self is Breakpoint || self is Debug {
            Action::Resume
        } else {
            Action::Halt
        }
    }

    /// What the handler does once it has reported this exception.
    pub fn action(self) -> (action: Action)
        ensures
            action == self.spec_action(),
    {
        match self {
            ExceptionKind::Breakpoint | ExceptionKind::Debug => Action::Resume,
            _ => Action::Halt,
        }
    }
}

/// The exception raised on `vector`: the one whose vector it is, `None` for
/// the gap at 15 and for every vector from 20 on.
pub open spec fn spec_classify(vector: u8) -> Option<ExceptionKind> {
    if vector == 0 {
        Some(ExceptionKind::DivideError)
    } else if vector == 1 {
        Some(ExceptionKind::Debug)
    } else if vector == 2 {
        Some(ExceptionKind::NonMaskableInterrupt)
    } else if vector == 3 {
        Some(ExceptionKind::Breakpoint)
    } else if vector == 4 {
        Some(ExceptionKind::Overflow)
    } else if vector == 5 {
        Some(ExceptionKind::BoundsCheck)
    } else if vector == 6 {
        Some(ExceptionKind::InvalidOpcode)
    } else if vector == 7 {
        Some(ExceptionKind::DeviceNotAvailable)
    } else if vector == 8 {
        Some(ExceptionKind::DoubleFault)
    } else if vector == 9 {
        Some(ExceptionKind::CoprocessorSegmentOverrun)
    } else if vector == 10 {
        Some(ExceptionKind::InvalidTss)
    } else if vector == 11 {
        Some(ExceptionKind::SegmentNotPresent)
    } else if vector == 12 {
        Some(ExceptionKind::StackSegmentFault)
    } else if vector == 13 {
        Some(ExceptionKind::GeneralProtection)
    } else if vector == 14 {
        Some(ExceptionKind::PageFault)
    } else if vector == 16 {
        Some(ExceptionKind::FloatingPointError)
    } else if vector == 17 {
        Some(ExceptionKind::AlignmentCheck)
    } else if vector == 18 {
        Some(ExceptionKind::MachineCheck)
    } else if vector == 19 {
        Some(ExceptionKind::SimdFloatingPoint)
    } else {
        None
    }
}

/// The exception raised on `vector`, if the vector stands for one.
pub fn classify(vector: u8) -> (kind: Option<ExceptionKind>)
    ensures
        kind == spec_classify(vector),
        kind is None <==> vector == 15 || vector >= 20,
        kind matches Some(exception) ==> exception.spec_vector() == vector,
{
    match vector {
        0 => Some(ExceptionKind::DivideError),
        1 => Some(ExceptionKind::Debug),
        2 => Some(ExceptionKind::NonMaskableInterrupt),
        3 => Some(ExceptionKind::Breakpoint),
        4 => Some(ExceptionKind::Overflow),
        5 => Some(ExceptionKind::BoundsCheck),
        6 => Some(ExceptionKind::InvalidOpcode),
        7 => Some(ExceptionKind::DeviceNotAvailable),
        8 => Some(ExceptionKind::DoubleFault),
        9 => Some(ExceptionKind::CoprocessorSegmentOverrun),
        10 => Some(ExceptionKind::InvalidTss),
        11 => Some(ExceptionKind::SegmentNotPresent),
        12 => Some(ExceptionKind::StackSegmentFault),
        13 => Some(ExceptionKind::GeneralProtection),
        14 => Some(ExceptionKind::PageFault),
        16 => Some(ExceptionKind::FloatingPointError),
        17 => Some(ExceptionKind::AlignmentCheck),
        18 => Some(ExceptionKind::MachineCheck),
        19 => Some(ExceptionKind::SimdFloatingPoint),
        _ => None,
    }
}

/// Classification is total and inverts `vector`: a vector is classified as
/// an exception exactly when it is that exception's vector, and it is left
/// unclassified exactly when it is 15 or at least 20.
pub proof fn lemma_classify_inverts_vector(vector: u8, kind: ExceptionKind)
    ensures
        spec_classify(kind.spec_vector()) == Some(kind),
        spec_classify(vector) == Some(kind) <==> kind.spec_vector() == vector,
        spec_classify(vector) is None <==> vector == 15 || vector >= 20,
{
}

/// Gate type of a vector: a trap gate for the two benign exceptions,
/// an interrupt gate for everything else.
pub open spec fn spec_gate_type_for(vector: u8) -> GateType {
    match spec_classify(vector) {
        Some(kind) => if kind.spec_action() == Action::Resume {
            GateType::Trap
        } else {
            GateType::Interrupt
        },
        None => GateType::Interrupt,
    }
}

/// Gate type of a vector.
pub fn gate_type_for(vector: u8) -> (gate_type: GateType)
    ensures
        gate_type == spec_gate_type_for(vector),
{
    match classify(vector) {
        Some(kind) => match kind.action() {
            Action::Resume => GateType::Trap,
            Action::Halt => GateType::Interrupt,
        },
        None => GateType::Interrupt,
    }
}

/// The stack-table index of a vector: the reserved slot for the double
/// fault, no stack switch for everything else.
pub open spec fn spec_stack_index_for(vector: u8) -> u8 {
    if vector == DOUBLE_FAULT_VECTOR {
        DOUBLE_FAULT_STACK_INDEX
    } else {
        DEFAULT_STACK_INDEX
    }
}

/// The stack-table index of a vector.
pub fn stack_index_for(vector: u8) -> (index: u8)
    ensures
        index == spec_stack_index_for(vector),
        index <= crate::descriptor::MAX_STACK_TABLE_INDEX,
{
    if vector == DOUBLE_FAULT_VECTOR {
        DOUBLE_FAULT_STACK_INDEX
    } else {
        DEFAULT_STACK_INDEX
    }
}

/// No other vector shares the double fault's stack-table slot, and that
/// slot is a real one: not 0, which means no stack switch.
pub proof fn lemma_double_fault_stack_is_distinct(vector: u8)
    requires
        vector != DOUBLE_FAULT_VECTOR,
    ensures
        spec_stack_index_for(vector) != spec_stack_index_for(DOUBLE_FAULT_VECTOR),
        0 < spec_stack_index_for(DOUBLE_FAULT_VECTOR) <= crate::descriptor::MAX_STACK_TABLE_INDEX,
{
}

} // verus!

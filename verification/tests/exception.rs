use kinitos::descriptor::{GateType, MAX_STACK_TABLE_INDEX};
use kinitos::exception::{
    classify, gate_type_for, stack_index_for, Action, ExceptionKind, DEFAULT_STACK_INDEX,
    DOUBLE_FAULT_STACK_INDEX, DOUBLE_FAULT_VECTOR,
};

const ALL_KINDS: [ExceptionKind; 19] = [
    ExceptionKind::DivideError,
    ExceptionKind::Debug,
    ExceptionKind::NonMaskableInterrupt,
    ExceptionKind::Breakpoint,
    ExceptionKind::Overflow,
    ExceptionKind::BoundsCheck,
    ExceptionKind::InvalidOpcode,
    ExceptionKind::DeviceNotAvailable,
    ExceptionKind::DoubleFault,
    ExceptionKind::CoprocessorSegmentOverrun,
    ExceptionKind::InvalidTss,
    ExceptionKind::SegmentNotPresent,
    ExceptionKind::StackSegmentFault,
    ExceptionKind::GeneralProtection,
    ExceptionKind::PageFault,
    ExceptionKind::FloatingPointError,
    ExceptionKind::AlignmentCheck,
    ExceptionKind::MachineCheck,
    ExceptionKind::SimdFloatingPoint,
];

#[test]
fn classify_named_vectors() {
    assert_eq!(classify(0), Some(ExceptionKind::DivideError));
    assert_eq!(classify(8), Some(ExceptionKind::DoubleFault));
    assert_eq!(classify(13), Some(ExceptionKind::GeneralProtection));
    assert_eq!(classify(14), Some(ExceptionKind::PageFault));
    assert_eq!(classify(15), None);
    assert_eq!(classify(32), None);
}

#[test]
fn classify_every_vector() {
    let expected: [Option<ExceptionKind>; 20] = [
        Some(ExceptionKind::DivideError),
        Some(ExceptionKind::Debug),
        Some(ExceptionKind::NonMaskableInterrupt),
        Some(ExceptionKind::Breakpoint),
        Some(ExceptionKind::Overflow),
        Some(ExceptionKind::BoundsCheck),
        Some(ExceptionKind::InvalidOpcode),
        Some(ExceptionKind::DeviceNotAvailable),
        Some(ExceptionKind::DoubleFault),
        Some(ExceptionKind::CoprocessorSegmentOverrun),
        Some(ExceptionKind::InvalidTss),
        Some(ExceptionKind::SegmentNotPresent),
        Some(ExceptionKind::StackSegmentFault),
        Some(ExceptionKind::GeneralProtection),
        Some(ExceptionKind::PageFault),
        None,
        Some(ExceptionKind::FloatingPointError),
        Some(ExceptionKind::AlignmentCheck),
        Some(ExceptionKind::MachineCheck),
        Some(ExceptionKind::SimdFloatingPoint),
    ];
    for vector in 0..=255u8 {
        if vector < 20 {
            assert_eq!(classify(vector), expected[vector as usize]);
        } else {
            assert_eq!(classify(vector), None);
        }
    }
}

#[test]
fn classify_inverts_vector() {
    for kind in ALL_KINDS {
        assert_eq!(classify(kind.vector()), Some(kind));
    }
    for vector in 0..=255u8 {
        if let Some(kind) = classify(vector) {
            assert_eq!(kind.vector(), vector);
        }
    }
}

#[test]
fn error_code_is_pushed_for_seven_exceptions() {
    let pushing: Vec<u8> =
        ALL_KINDS.iter().filter(|kind| kind.pushes_error_code()).map(|kind| kind.vector()).collect();
    assert_eq!(pushing, vec![8, 10, 11, 12, 13, 14, 17]);
    assert!(!ExceptionKind::DivideError.pushes_error_code());
    assert!(!ExceptionKind::InvalidOpcode.pushes_error_code());
    assert!(!ExceptionKind::BoundsCheck.pushes_error_code());
    assert!(!ExceptionKind::Overflow.pushes_error_code());
    assert!(!ExceptionKind::Breakpoint.pushes_error_code());
    assert!(!ExceptionKind::Debug.pushes_error_code());
}

#[test]
fn only_breakpoint_and_debug_resume() {
    for kind in ALL_KINDS {
        let expected = if kind == ExceptionKind::Breakpoint || kind == ExceptionKind::Debug {
            Action::Resume
        } else {
            Action::Halt
        };
        assert_eq!(kind.action(), expected);
    }
}

#[test]
fn trap_gates_for_benign_exceptions_only() {
    for vector in 0..=255u8 {
        let expected = if vector == 1 || vector == 3 { GateType::Trap } else { GateType::Interrupt };
        assert_eq!(gate_type_for(vector), expected);
    }
}

#[test]
fn double_fault_stack_is_distinct_from_every_other() {
    assert_eq!(DOUBLE_FAULT_VECTOR, 8);
    let double_fault = stack_index_for(DOUBLE_FAULT_VECTOR);
    assert_eq!(double_fault, DOUBLE_FAULT_STACK_INDEX);
    assert_eq!(double_fault, 1);
    assert!(double_fault != 0 && double_fault <= MAX_STACK_TABLE_INDEX);
    for vector in 0..=255u8 {
        if vector != DOUBLE_FAULT_VECTOR {
            assert_eq!(stack_index_for(vector), DEFAULT_STACK_INDEX);
            assert_ne!(stack_index_for(vector), double_fault);
        }
    }
}

use kinitos::boot::{BootAction, BootError, BootState, TableState};

#[test]
fn boot_runs_mask_populate_install_unmask() {
    let mut state = BootState::initial(false);
    let mut performed = Vec::new();
    loop {
        let action = state.next_action();
        if action == BootAction::Done {
            break;
        }
        performed.push(action);
        state = state.advance(action).unwrap();
    }
    assert_eq!(
        performed,
        vec![
            BootAction::MaskInterrupts,
            BootAction::PopulateTable,
            BootAction::InstallTable,
            BootAction::UnmaskInterrupts,
        ]
    );
    assert_eq!(state, BootState { table: TableState::Live, interrupts_masked: false });
}

#[test]
fn boot_with_interrupts_already_masked_skips_the_mask() {
    let state = BootState::initial(true);
    assert_eq!(state, BootState { table: TableState::Uninitialized, interrupts_masked: true });
    assert_eq!(state.next_action(), BootAction::PopulateTable);
    let state = state.advance(BootAction::PopulateTable).unwrap();
    assert_eq!(state, BootState { table: TableState::Populated, interrupts_masked: true });
    assert_eq!(state.next_action(), BootAction::InstallTable);
    let state = state.advance(BootAction::InstallTable).unwrap();
    assert_eq!(state, BootState { table: TableState::Installed, interrupts_masked: true });
    assert_eq!(state.next_action(), BootAction::UnmaskInterrupts);
    let state = state.advance(BootAction::UnmaskInterrupts).unwrap();
    assert_eq!(state, BootState { table: TableState::Live, interrupts_masked: false });
    assert_eq!(state.next_action(), BootAction::Done);
    assert_eq!(state.advance(BootAction::Done), Ok(state));
}

#[test]
fn steps_out_of_order_are_refused() {
    let state = BootState::initial(false);
    assert_eq!(state.advance(BootAction::PopulateTable), Err(BootError::OutOfOrder));
    assert_eq!(state.advance(BootAction::InstallTable), Err(BootError::OutOfOrder));
    assert_eq!(state.advance(BootAction::UnmaskInterrupts), Err(BootError::OutOfOrder));
    assert_eq!(state.advance(BootAction::Done), Err(BootError::OutOfOrder));

    let masked = BootState::initial(true);
    assert_eq!(masked.advance(BootAction::MaskInterrupts), Err(BootError::OutOfOrder));
    assert_eq!(masked.advance(BootAction::InstallTable), Err(BootError::OutOfOrder));
    assert_eq!(masked.advance(BootAction::UnmaskInterrupts), Err(BootError::OutOfOrder));

    let live = BootState { table: TableState::Live, interrupts_masked: false };
    assert_eq!(live.advance(BootAction::PopulateTable), Err(BootError::OutOfOrder));
    assert_eq!(live.advance(BootAction::MaskInterrupts), Err(BootError::OutOfOrder));
}

#[test]
fn half_built_table_asks_for_the_mask_first() {
    let populated = BootState { table: TableState::Populated, interrupts_masked: false };
    assert_eq!(populated.next_action(), BootAction::MaskInterrupts);
    let installed = BootState { table: TableState::Installed, interrupts_masked: false };
    assert_eq!(installed.next_action(), BootAction::MaskInterrupts);
    assert_eq!(
        installed.advance(BootAction::MaskInterrupts),
        Ok(BootState { table: TableState::Installed, interrupts_masked: true })
    );
}

#[test]
fn table_is_writable_before_the_start_and_while_masked() {
    assert!(BootState::initial(false).table_writable());
    assert!(BootState::initial(true).table_writable());
    assert!(BootState { table: TableState::Populated, interrupts_masked: true }.table_writable());
    assert!(BootState { table: TableState::Installed, interrupts_masked: true }.table_writable());
    assert!(!BootState { table: TableState::Live, interrupts_masked: false }.table_writable());
    assert!(BootState { table: TableState::Live, interrupts_masked: true }.table_writable());
    assert!(!BootState { table: TableState::Populated, interrupts_masked: false }.table_writable());
}

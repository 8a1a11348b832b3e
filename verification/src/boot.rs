//! The order of the boot steps that bring the table into use.

use vstd::prelude::*;

verus! {

/// How far the table has come.
#[derive(Clone, Copy, Debug, PartialEq, Eq, Structural)]
pub enum TableState {
    /// Nothing was written yet.
    Uninitialized,
    /// The descriptors of the exception vectors are written.
    Populated,
    /// The processor was told where the table lies.
    Installed,
    /// Interrupts are unmasked: the processor owns the table.
    Live,
}

/// Where the boot sequence stands.
#[derive(Clone, Copy, Debug, PartialEq, Eq, Structural)]
pub struct BootState {
    /// How far the table has come.
    pub table: TableState,
    /// Whether interrupts are masked.
    pub interrupts_masked: bool,
}

/// One step of the boot sequence, performed by the caller.
#[derive(Clone, Copy, Debug, PartialEq, Eq, Structural)]
pub enum BootAction {
    /// Mask interrupts.
    MaskInterrupts,
    /// Write the descriptors of the exception vectors.
    PopulateTable,
    /// Load the descriptor-table register.
    InstallTable,
    /// Unmask interrupts.
    UnmaskInterrupts,
    /// Nothing is left to do.
    Done,
}

/// Why a step was refused.
#[derive(Clone, Copy, Debug, PartialEq, Eq, Structural)]
pub enum BootError {
    /// The step is not the one that the state asks for.
    OutOfOrder,
}

impl BootState {
    /// The state at power-on: nothing written.
    pub open spec fn spec_initial(interrupts_masked: bool) -> BootState {
        BootState { table: TableState::Uninitialized, interrupts_masked }
    }

    /// The state at power-on.
    pub fn initial(interrupts_masked: bool) -> (state: Self)
        ensures
            state == Self::spec_initial(interrupts_masked),
    {
        BootState { table: TableState::Uninitialized, interrupts_masked }
    }

    /// No trap can consult a half-built table: while the table is being
    /// populated and installed, interrupts are masked.
    pub open spec fn safe(self) -> bool {
        self.interrupts_masked || self.table is Uninitialized || self.table is Live
    }

    /// Whether the table may be written: before anything was written, or
    /// while interrupts are masked. A write at any other time would race
    /// the processor.
    pub open spec fn spec_table_writable(self) -> bool {
        self.interrupts_masked || self.table is Uninitialized
    }

    /// Whether the table may be written in this state.
    pub fn table_writable(&self) -> (writable: bool)
        ensures
            writable == self.spec_table_writable(),
    {
        self.interrupts_masked || matches!(self.table, TableState::Uninitialized)
    }

    /// The step that the state asks for: mask first, then populate, install
    /// and unmask, in this order.
    pub open spec fn spec_next_action(self) -> BootAction {
        match self.table {
            TableState::Live => BootAction::Done,
            TableState::Uninitialized => if self.interrupts_masked {
                BootAction::PopulateTable
            } else {
                BootAction::MaskInterrupts
            },
            TableState::Populated => if self.interrupts_masked {
                BootAction::InstallTable
            } else {
                BootAction::MaskInterrupts
            },
            TableState::Installed => if self.interrupts_masked {
                BootAction::UnmaskInterrupts
            } else {
                BootAction::MaskInterrupts
            },
        }
    }

    /// The state once a step has been performed.
    pub open spec fn spec_after(self, action: BootAction) -> BootState {
        match action {
            BootAction::MaskInterrupts => BootState { interrupts_masked: true, ..self },
            BootAction::PopulateTable => BootState { table: TableState::Populated, ..self },
            BootAction::InstallTable => BootState { table: TableState::Installed, ..self },
            BootAction::UnmaskInterrupts => BootState {
                table: TableState::Live,
                interrupts_masked: false,
            },
            BootAction::Done => self,
        }
    }

    /// How many steps are left until the table is live.
    pub open spec fn steps_left(self) -> nat {
        let unmasked: nat = if self.interrupts_masked {
            0
        } else {
            1
        };
        match self.table {
            TableState::Uninitialized => 3 + unmasked,
            TableState::Populated => 2 + unmasked,
            TableState::Installed => 1 + unmasked,
            TableState::Live => 0,
        }
    }

    /// The step to perform next.
    pub fn next_action(&self) -> (action: BootAction)
        ensures
            action == self.spec_next_action(),
            action is Done <==> self.table is Live,
    {
        match self.table {
            TableState::Live => BootAction::Done,
            TableState::Uninitialized => if self.interrupts_masked {
                BootAction::PopulateTable
            } else {
                BootAction::MaskInterrupts
            },
            TableState::Populated => if self.interrupts_masked {
                BootAction::InstallTable
            } else {
                BootAction::MaskInterrupts
            },
            TableState::Installed => if self.interrupts_masked {
                BootAction::UnmaskInterrupts
            } else {
                BootAction::MaskInterrupts
            },
        }
    }

    /// Records that `performed` was carried out. The step is accepted only
    /// if it is the one that the state asks for; a step out of order leaves
    /// no new state.
    pub fn advance(&self, performed: BootAction) -> (next: Result<BootState, BootError>)
        ensures
            performed == self.spec_next_action() ==> next == Ok::<BootState, BootError>(
                self.spec_after(performed),
            ),
            performed != self.spec_next_action() ==> next == Err::<BootState, BootError>(
                BootError::OutOfOrder,
            ),
    {
        let expected = self.next_action();
        match (expected, performed) {
            (BootAction::MaskInterrupts, BootAction::MaskInterrupts) => Ok(
                BootState { table: self.table, interrupts_masked: true },
            ),
            (BootAction::PopulateTable, BootAction::PopulateTable) => Ok(
                BootState { table: TableState::Populated, interrupts_masked: self.interrupts_masked },
            ),
            (BootAction::InstallTable, BootAction::InstallTable) => Ok(
                BootState { table: TableState::Installed, interrupts_masked: self.interrupts_masked },
            ),
            (BootAction::UnmaskInterrupts, BootAction::UnmaskInterrupts) => Ok(
                BootState { table: TableState::Live, interrupts_masked: false },
            ),
            (BootAction::Done, BootAction::Done) => Ok(*self),
            _ => Err(BootError::OutOfOrder),
        }
    }
}

/// Each step that the state asks for keeps the sequence safe, brings it one
/// step nearer to a live table, and never moves the table backwards.
pub proof fn lemma_step_is_safe_and_progresses(state: BootState)
    requires
        state.safe(),
        state.table !is Live,
    ensures
        state.spec_after(state.spec_next_action()).safe(),
        state.spec_after(state.spec_next_action()).steps_left() + 1 == state.steps_left(),
        state.spec_after(state.spec_next_action()).table is Uninitialized ==> state.table
            is Uninitialized,
        state.spec_after(state.spec_next_action()).table is Populated ==> state.table
            is Uninitialized || state.table is Populated,
{
}

/// Interrupts are unmasked only by the last step, after the table was
/// installed, and no step is left exactly when the table is live.
pub proof fn lemma_unmask_only_after_install(state: BootState)
    ensures
        state.spec_next_action() is UnmaskInterrupts <==> state.table is Installed
            && state.interrupts_masked,
        state.steps_left() == 0 <==> state.table is Live,
{
}

/// The sequence writes the table only while it may be written, and a live
/// table may not be written unless interrupts are masked again.
pub proof fn lemma_table_written_only_while_writable(state: BootState)
    ensures
        state.spec_next_action() is PopulateTable ==> state.spec_table_writable(),
        state.table is Live && !state.interrupts_masked ==> !state.spec_table_writable(),
{
}

} // verus!

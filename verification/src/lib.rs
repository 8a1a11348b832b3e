//! Trap-dispatch core of a small x86-64 kernel: gate descriptors, the
//! interrupt descriptor table, exception classification and the decisions
//! taken when a CPU exception arrives.

pub mod descriptor;
pub mod table;
pub mod exception;
pub mod text;
pub mod dispatch;
pub mod registry;
pub mod boot;
pub mod vga_buffer;

use vstd::prelude::*;

verus! {

/// Value written to the emulator's debug-exit port to end a run.
#[derive(Clone, Copy, Debug, PartialEq, Eq, Structural)]
pub enum QemuExitCode {
    Success,
    Failure,
}

impl QemuExitCode {
    /// The word that stands for this exit code on the debug-exit port.
    pub open spec fn spec_code(self) -> u32 {
        match self {
            QemuExitCode::Success => 0x10,
            QemuExitCode::Failure => 0x11,
        }
    }

    /// The word to write to the debug-exit port.
    pub fn code(self) -> (word: u32)
        ensures
            word == self.spec_code(),
    {
        match self {
            QemuExitCode::Success => 0x10,
            QemuExitCode::Failure => 0x11,
        }
    }
}

} // verus!

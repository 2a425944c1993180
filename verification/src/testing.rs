//! Support for tests that run inside QEMU: how a test run tells the
//! emulator to exit, and with which code.

use crate::interrupts::port::{Port, PortWrite};
use vstd::prelude::*;

verus! {

/// Port of QEMU's `isa-debug-exit` device.
pub const QEMU_EXIT_PORT: u16 = 0xf4;

/// The exit status of the QEMU process that stands for a passed run: the
/// device turns the value `v` written to it into the status `(v << 1) | 1`.
pub const QEMU_SUCCESS_STATUS: i32 = 33;

/// What a test run reports to QEMU.
#[derive(Debug, Clone, Copy, PartialEq, Eq, Structural)]
pub enum QemuExitCode {
    /// Every test passed.
    Success,
    /// A test failed.
    Failed,
}

impl QemuExitCode {
    /// The value written to the exit device.
    pub open spec fn value_of(self) -> u32 {
        match self {
            QemuExitCode::Success => 0x10,
            QemuExitCode::Failed => 0x11,
        }
    }

    /// The value written to the exit device.
    pub fn value(self) -> (r: u32)
        ensures
            r == self.value_of(),
    {
        match self {
            QemuExitCode::Success => 0x10,
            QemuExitCode::Failed => 0x11,
        }
    }

    /// The exit status of the QEMU process after the value was written.
    pub fn process_status(self) -> (r: i32)
        ensures
            r == self.value_of() * 2 + 1,
            self == QemuExitCode::Success <==> r == QEMU_SUCCESS_STATUS,
    {
        match self {
            QemuExitCode::Success => 33,
            QemuExitCode::Failed => 35,
        }
    }
}

/// The write that makes QEMU exit with `exit_code`. Should the emulator go
/// on all the same, the caller halts.
pub fn exit_qemu(exit_code: QemuExitCode) -> (r: PortWrite)
    ensures
        r == (PortWrite { port: QEMU_EXIT_PORT, width: 4, value: exit_code.value_of() }),
{
    let mut port: Port<u32> = Port::new(QEMU_EXIT_PORT);
    port.write(exit_code.value())
}

/// Whether the exit status `status` of a QEMU process stands for a passed
/// test run.
pub fn run_passed(status: i32) -> (r: bool)
    ensures
        r == (status == QEMU_SUCCESS_STATUS),
{
    status == QEMU_SUCCESS_STATUS
}

/// The report of a test run of `total` tests, of which `failed` failed: the
/// number that passed and the code for QEMU.
pub fn test_runner(total: usize, failed: usize) -> (r: (usize, QemuExitCode))
    requires
        failed <= total,
    ensures
        r.0 == total - failed,
        r.1 == if failed == 0 {
            QemuExitCode::Success
        } else {
            QemuExitCode::Failed
        },
{
    let code = if failed == 0 {
        QemuExitCode::Success
    } else {
        QemuExitCode::Failed
    };
    (total - failed, code)
}

} // verus!

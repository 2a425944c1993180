//! The modes in which QEMU runs the kernel.

use crate::testing::QEMU_SUCCESS_STATUS;
use vstd::prelude::*;
use vstd::string::StringSliceAdditionalSpecFns;

verus! {

/// How QEMU runs the kernel.
#[derive(Debug, Clone, Copy, PartialEq, Eq, Structural)]
pub enum QemuMode {
    /// Until the user ends it.
    Run,
    /// Without a display, with the device through which the tests exit.
    Test,
    /// Halted at start, waiting for a debugger.
    Debug,
}

/// Why a QEMU run counts as failed.
#[derive(Debug, Clone, Copy, PartialEq, Eq, Structural)]
pub enum QemuFailure {
    /// In test mode the process ended with a status other than 33.
    TestFailed(i32),
    /// The process ended unsuccessfully, with this status if it has one.
    Exited(Option<i32>),
}

/// The mode that the bytes `name` stand for: `run`, `test` or `debug`.
pub open spec fn mode_named(name: Seq<u8>) -> Option<QemuMode> {
    if name == seq![0x72u8, 0x75u8, 0x6Eu8] {
        Some(QemuMode::Run)
    } else if name == seq![0x74u8, 0x65u8, 0x73u8, 0x74u8] {
        Some(QemuMode::Test)
    } else if name == seq![0x64u8, 0x65u8, 0x62u8, 0x75u8, 0x67u8] {
        Some(QemuMode::Debug)
    } else {
        None
    }
}

/// The options that every mode passes to QEMU after `-cdrom` and the image.
pub open spec fn common_args() -> Seq<Seq<char>> {
    seq!["-serial"@, "stdio"@, "-no-reboot"@, "-m"@, "256M"@]
}

/// The options that `mode` adds.
pub open spec fn mode_args(mode: QemuMode) -> Seq<Seq<char>> {
    match mode {
        QemuMode::Run => Seq::empty(),
        QemuMode::Test => seq![
            "-device"@,
            "isa-debug-exit,iobase=0xf4,iosize=0x04"@,
            "-no-shutdown"@,
            "-display"@,
            "none"@,
        ],
        QemuMode::Debug => seq!["-s"@, "-S"@],
    }
}

impl QemuMode {
    /// The mode named `s`, if `s` is `run`, `test` or `debug`.
    pub fn from_str(s: &str) -> (r: Option<Self>)
        ensures
            r == mode_named(s.spec_bytes()),
    {
        let bytes = s.as_bytes();
        let n = bytes.len();
        if n == 3 && bytes[0] == 0x72 && bytes[1] == 0x75 && bytes[2] == 0x6E {
            assert(bytes@ =~= seq![0x72u8, 0x75u8, 0x6Eu8]);
            Some(QemuMode::Run)
        } else if n == 4 && bytes[0] == 0x74 && bytes[1] == 0x65 && bytes[2] == 0x73 && bytes[3]
            == 0x74 {
            assert(bytes@ =~= seq![0x74u8, 0x65u8, 0x73u8, 0x74u8]);
            Some(QemuMode::Test)
        } else if n == 5 && bytes[0] == 0x64 && bytes[1] == 0x65 && bytes[2] == 0x62 && bytes[3]
            == 0x75 && bytes[4] == 0x67 {
            assert(bytes@ =~= seq![0x64u8, 0x65u8, 0x62u8, 0x75u8, 0x67u8]);
            Some(QemuMode::Debug)
        } else {
            assert(mode_named(bytes@) is None) by {
                if bytes@ == seq![0x72u8, 0x75u8, 0x6Eu8] {
                    assert(bytes@.len() == 3 && bytes@[0] == 0x72 && bytes@[1] == 0x75 && bytes@[2]
                        == 0x6E);
                }
                if bytes@ == seq![0x74u8, 0x65u8, 0x73u8, 0x74u8] {
                    assert(bytes@.len() == 4 && bytes@[0] == 0x74 && bytes@[1] == 0x65 && bytes@[2]
                        == 0x73 && bytes@[3] == 0x74);
                }
                if bytes@ == seq![0x64u8, 0x65u8, 0x62u8, 0x75u8, 0x67u8] {
                    assert(bytes@.len() == 5 && bytes@[0] == 0x64 && bytes@[1] == 0x65 && bytes@[2]
                        == 0x62 && bytes@[3] == 0x75 && bytes@[4] == 0x67);
                }
            }
            None
        }
    }

    /// The options for QEMU that follow `-cdrom` and the image.
    pub fn args(self) -> (r: Vec<&'static str>)
        ensures
            r@.len() == common_args().len() + mode_args(self).len(),
            forall|i: int|
                0 <= i < r@.len() ==> (#[trigger] r@[i])@ == (common_args() + mode_args(self))[i],
    {
        let mut args: Vec<&'static str> = Vec::new();
        args.push("-serial");
        args.push("stdio");
        args.push("-no-reboot");
        args.push("-m");
        args.push("256M");
        match self {
            QemuMode::Test => {
                args.push("-device");
                args.push("isa-debug-exit,iobase=0xf4,iosize=0x04");
                args.push("-no-shutdown");
                args.push("-display");
                args.push("none");
            },
            QemuMode::Debug => {
                args.push("-s");
                args.push("-S");
            },
            QemuMode::Run => {},
        }
        args
    }

    /// Reads the end of a QEMU process: `status` is its exit status, if it
    /// has one, `success` whether the system counts it as successful. In test
    /// mode only the status 33 is a pass, and a missing status counts as 1.
    pub fn outcome(self, status: Option<i32>, success: bool) -> (r: Result<(), QemuFailure>)
        ensures
            r == if self == QemuMode::Test {
                let code = match status {
                    Some(c) => c,
                    None => 1i32,
                };
                if code == QEMU_SUCCESS_STATUS {
                    Ok::<(), QemuFailure>(())
                } else {
                    Err::<(), QemuFailure>(QemuFailure::TestFailed(code))
                }
            } else if success {
                Ok::<(), QemuFailure>(())
            } else {
                Err::<(), QemuFailure>(QemuFailure::Exited(status))
            },
    {
        match self {
            QemuMode::Test => {
                let code = match status {
                    Some(c) => c,
                    None => 1,
                };
                if code == QEMU_SUCCESS_STATUS {
                    Ok(())
                } else {
                    Err(QemuFailure::TestFailed(code))
                }
            },
            _ => if success {
                Ok(())
            } else {
                Err(QemuFailure::Exited(status))
            },
        }
    }
}

} // verus!

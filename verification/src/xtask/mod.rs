//! The rules of the build tool: how the kernel is built, how QEMU is started
//! in each mode, and how the outcome of a run is read.

pub mod iso;
pub mod kernel_build;
pub mod qemu;
pub mod setup;
pub mod test;
pub mod util;

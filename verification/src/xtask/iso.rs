//! The layout of the bootable image.

use vstd::prelude::*;

verus! {

/// Directory of the image tree below the project root.
pub const ISO_DIR: &'static str = "build/iso";

/// Where the kernel lies in the image tree.
pub const KERNEL_IN_ISO: &'static str = "build/iso/boot/kernel.bin";

/// Where the configuration of GRUB lies in the image tree.
pub const GRUB_CFG_IN_ISO: &'static str = "build/iso/boot/grub/grub.cfg";

/// Name of the image below the project root.
pub const ISO_NAME: &'static str = "yomios.iso";

/// The configuration of GRUB: one entry that boots the kernel by Multiboot2,
/// chosen after five seconds, with the console on the screen and on the
/// first serial line.
pub fn grub_config() -> (r: &'static str)
    ensures
        r@ == "set timeout=5\nset default=0\n\n# Enable serial console\nserial --unit=0 --speed=115200\nterminal_input console serial\nterminal_output console serial\n\nmenuentry \"YomiOS\" {\n    multiboot2 /boot/kernel.bin\n    boot\n}\n"@,
{
    "set timeout=5\nset default=0\n\n# Enable serial console\nserial --unit=0 --speed=115200\nterminal_input console serial\nterminal_output console serial\n\nmenuentry \"YomiOS\" {\n    multiboot2 /boot/kernel.bin\n    boot\n}\n"
}

/// The arguments with which `grub-mkrescue` makes the image `iso_path` from
/// the tree `iso_dir`.
pub fn grub_mkrescue_args<'a>(iso_path: &'a str, iso_dir: &'a str) -> (r: Vec<&'a str>)
    ensures
        r@.len() == 3,
        r@[0]@ == "-o"@,
        r@[1] == iso_path,
        r@[2] == iso_dir,
{
    let mut args: Vec<&'a str> = Vec::new();
    args.push("-o");
    args.push(iso_path);
    args.push(iso_dir);
    args
}

} // verus!

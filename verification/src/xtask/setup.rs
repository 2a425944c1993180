//! What the set-up of a development machine installs, and with what.

use vstd::prelude::*;

verus! {

/// The package managers that the set-up knows on Linux.
#[derive(Debug, Clone, Copy, PartialEq, Eq, Structural)]
pub enum PackageManager {
    /// Debian and its relatives.
    Apt,
    /// Fedora and its relatives.
    Dnf,
    /// Arch and its relatives.
    Pacman,
}

impl PackageManager {
    /// The package manager to use, given which of the three are installed:
    /// the first of apt, dnf and pacman that is.
    pub fn detect(apt: bool, dnf: bool, pacman: bool) -> (r: Option<Self>)
        ensures
            r == if apt {
                Some(PackageManager::Apt)
            } else if dnf {
                Some(PackageManager::Dnf)
            } else if pacman {
                Some(PackageManager::Pacman)
            } else {
                None
            },
    {
        if apt {
            Some(PackageManager::Apt)
        } else if dnf {
            Some(PackageManager::Dnf)
        } else if pacman {
            Some(PackageManager::Pacman)
        } else {
            None
        }
    }

    /// The name of the package manager's command.
    pub fn name(self) -> (r: &'static str)
        ensures
            r@ == match self {
                PackageManager::Apt => "apt"@,
                PackageManager::Dnf => "dnf"@,
                PackageManager::Pacman => "pacman"@,
            },
    {
        match self {
            PackageManager::Apt => "apt",
            PackageManager::Dnf => "dnf",
            PackageManager::Pacman => "pacman",
        }
    }

    /// The command line that installs a package, without the package: it
    /// runs under sudo and asks no questions.
    pub fn install_command(self) -> (r: Vec<&'static str>)
        ensures
            r@.len() == 4,
            r@[0]@ == "sudo"@,
            r@[1]@ == match self {
                PackageManager::Apt => "apt"@,
                PackageManager::Dnf => "dnf"@,
                PackageManager::Pacman => "pacman"@,
            },
            r@[2]@ == match self {
                PackageManager::Pacman => "-S"@,
                _ => "install"@,
            },
            r@[3]@ == match self {
                PackageManager::Pacman => "--noconfirm"@,
                _ => "-y"@,
            },
    {
        let mut cmd: Vec<&'static str> = Vec::new();
        cmd.push("sudo");
        match self {
            PackageManager::Apt => {
                cmd.push("apt");
                cmd.push("install");
                cmd.push("-y");
            },
            PackageManager::Dnf => {
                cmd.push("dnf");
                cmd.push("install");
                cmd.push("-y");
            },
            PackageManager::Pacman => {
                cmd.push("pacman");
                cmd.push("-S");
                cmd.push("--noconfirm");
            },
        }
        cmd
    }

    /// The package that holds QEMU for x86-64.
    pub fn qemu_package(self) -> (r: &'static str)
        ensures
            r@ == "qemu-system-x86"@,
    {
        "qemu-system-x86"
    }

    /// The packages that hold `grub-mkrescue` and what it needs.
    pub fn grub_packages(self) -> (r: Vec<&'static str>)
        ensures
            r@.len() == 2,
            r@[0]@ == match self {
                PackageManager::Apt => "grub-pc-bin"@,
                PackageManager::Dnf => "grub2-tools"@,
                PackageManager::Pacman => "grub"@,
            },
            r@[1]@ == "xorriso"@,
    {
        let mut pkgs: Vec<&'static str> = Vec::new();
        match self {
            PackageManager::Apt => pkgs.push("grub-pc-bin"),
            PackageManager::Dnf => pkgs.push("grub2-tools"),
            PackageManager::Pacman => pkgs.push("grub"),
        }
        pkgs.push("xorriso");
        pkgs
    }
}

} // verus!

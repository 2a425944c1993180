use yomi_kernel::xtask::kernel_build::build_kernel;
use yomi_kernel::xtask::qemu::{QemuFailure, QemuMode};
use yomi_kernel::xtask::test::{run_tests, TestOutcome, TestTally};
use yomi_kernel::xtask::iso::{
    grub_config, grub_mkrescue_args, GRUB_CFG_IN_ISO, ISO_DIR, ISO_NAME, KERNEL_IN_ISO,
};
use yomi_kernel::xtask::setup::PackageManager;
use yomi_kernel::xtask::util::{
    contains, ends_with, is_selected, is_test_binary, kernel_binary, kernel_target_dir,
    starts_with, windows_to_wsl_path,
};

#[test]
fn qemu_mode_names() {
    assert_eq!(QemuMode::from_str("run"), Some(QemuMode::Run));
    assert_eq!(QemuMode::from_str("test"), Some(QemuMode::Test));
    assert_eq!(QemuMode::from_str("debug"), Some(QemuMode::Debug));
    assert_eq!(QemuMode::from_str("Run"), None);
    assert_eq!(QemuMode::from_str("tests"), None);
    assert_eq!(QemuMode::from_str(""), None);
    assert_eq!(QemuMode::from_str("debu"), None);
}

#[test]
fn qemu_arguments_by_mode() {
    let common = vec!["-serial", "stdio", "-no-reboot", "-m", "256M"];
    assert_eq!(QemuMode::Run.args(), common);
    let mut test = common.clone();
    test.extend(["-device", "isa-debug-exit,iobase=0xf4,iosize=0x04", "-no-shutdown", "-display", "none"]);
    assert_eq!(QemuMode::Test.args(), test);
    let mut debug = common.clone();
    debug.extend(["-s", "-S"]);
    assert_eq!(QemuMode::Debug.args(), debug);
}

#[test]
fn qemu_outcomes() {
    assert_eq!(QemuMode::Test.outcome(Some(33), false), Ok(()));
    assert_eq!(QemuMode::Test.outcome(Some(35), false), Err(QemuFailure::TestFailed(35)));
    assert_eq!(QemuMode::Test.outcome(Some(0), true), Err(QemuFailure::TestFailed(0)));
    assert_eq!(QemuMode::Test.outcome(None, false), Err(QemuFailure::TestFailed(1)));
    assert_eq!(QemuMode::Run.outcome(Some(0), true), Ok(()));
    assert_eq!(QemuMode::Run.outcome(Some(33), false), Err(QemuFailure::Exited(Some(33))));
    assert_eq!(QemuMode::Debug.outcome(None, false), Err(QemuFailure::Exited(None)));
}

#[test]
fn build_arguments() {
    let debug = build_kernel(false);
    assert_eq!(
        debug,
        vec![
            "build", "--package", "yomi-kernel", "--target", "x86_64-unknown-none", "-Z",
            "build-std=core,compiler_builtins,alloc", "-Z",
            "build-std-features=compiler-builtins-mem",
        ]
    );
    let release = build_kernel(true);
    assert_eq!(release.len(), 10);
    assert_eq!(release[..9], debug[..]);
    assert_eq!(release[9], "--release");
    assert_eq!(kernel_target_dir(false), "target/x86_64-unknown-none/debug");
    assert_eq!(kernel_target_dir(true), "target/x86_64-unknown-none/release");
    assert_eq!(kernel_binary(false), "target/x86_64-unknown-none/debug/yomi-kernel");
    assert_eq!(kernel_binary(true), "target/x86_64-unknown-none/release/yomi-kernel");
}

#[test]
fn file_name_rules() {
    assert!(starts_with(b"basic_boot-1a2b", b"basic_boot-"));
    assert!(!starts_with(b"basic", b"basic_boot-"));
    assert!(starts_with(b"abc", b""));
    assert!(ends_with(b"basic_boot-1a2b.d", b".d"));
    assert!(!ends_with(b"d", b".d"));
    assert!(contains(b"heap_allocation", b"alloc"));
    assert!(contains(b"heap_allocation", b"heap_allocation"));
    assert!(contains(b"heap_allocation", b""));
    assert!(!contains(b"heap_allocation", b"boot"));
    assert!(!contains(b"ab", b"abc"));
    assert!(is_test_binary("basic_boot-1a2b3c", "basic_boot"));
    assert!(!is_test_binary("basic_boot-1a2b3c.d", "basic_boot"));
    assert!(!is_test_binary("basic_boot_extra-1a2b", "basic_boot"));
    assert!(!is_test_binary("basic_boot", "basic_boot"));
    assert!(is_selected("heap_allocation", None));
    assert!(is_selected("heap_allocation", Some("heap")));
    assert!(!is_selected("heap_allocation", Some("boot")));
}

#[test]
fn tally_of_a_test_run() {
    let outcomes = vec![
        TestOutcome::Exited(33),
        TestOutcome::BuildFailed,
        TestOutcome::Exited(35),
        TestOutcome::Exited(33),
        TestOutcome::BinaryMissing,
        TestOutcome::Exited(1),
    ];
    assert_eq!(
        run_tests(&outcomes),
        TestTally { passed: 2, failed: 4, failed_tests: vec![1, 2, 4, 5] }
    );
    assert_eq!(
        run_tests(&Vec::new()),
        TestTally { passed: 0, failed: 0, failed_tests: Vec::new() }
    );
    assert!(TestOutcome::Exited(33).passed());
    assert!(!TestOutcome::Exited(0).passed());
}

#[test]
fn wsl_paths() {
    assert_eq!(
        windows_to_wsl_path(br"C:\foo\bar"),
        Some(b"/mnt/c/foo/bar".to_vec())
    );
    assert_eq!(
        windows_to_wsl_path(br"\\?\D:\work\yomi os\build/iso"),
        Some(b"/mnt/d/work/yomi os/build/iso".to_vec())
    );
    assert_eq!(windows_to_wsl_path(b"z:"), Some(b"/mnt/z".to_vec()));
    assert_eq!(windows_to_wsl_path(b"/home/user"), None);
    assert_eq!(windows_to_wsl_path(br"1:\x"), None);
    assert_eq!(windows_to_wsl_path(br"C\x"), None);
    assert_eq!(windows_to_wsl_path(b"C"), None);
    assert_eq!(windows_to_wsl_path(br"\\?\"), None);
    assert_eq!(windows_to_wsl_path(b""), None);
}

#[test]
fn image_layout() {
    assert!(grub_config().starts_with("set timeout=5\nset default=0\n"));
    assert!(grub_config().contains("menuentry \"YomiOS\" {\n    multiboot2 /boot/kernel.bin\n    boot\n}\n"));
    assert!(grub_config().contains("serial --unit=0 --speed=115200\n"));
    assert_eq!(grub_mkrescue_args("yomios.iso", "build/iso"), vec!["-o", "yomios.iso", "build/iso"]);
    assert_eq!(ISO_DIR, "build/iso");
    assert_eq!(KERNEL_IN_ISO, "build/iso/boot/kernel.bin");
    assert_eq!(GRUB_CFG_IN_ISO, "build/iso/boot/grub/grub.cfg");
    assert_eq!(ISO_NAME, "yomios.iso");
}

#[test]
fn package_managers() {
    assert_eq!(PackageManager::detect(true, true, true), Some(PackageManager::Apt));
    assert_eq!(PackageManager::detect(false, true, true), Some(PackageManager::Dnf));
    assert_eq!(PackageManager::detect(false, false, true), Some(PackageManager::Pacman));
    assert_eq!(PackageManager::detect(false, false, false), None);
    assert_eq!(PackageManager::Apt.name(), "apt");
    assert_eq!(PackageManager::Apt.install_command(), vec!["sudo", "apt", "install", "-y"]);
    assert_eq!(PackageManager::Dnf.install_command(), vec!["sudo", "dnf", "install", "-y"]);
    assert_eq!(
        PackageManager::Pacman.install_command(),
        vec!["sudo", "pacman", "-S", "--noconfirm"]
    );
    assert_eq!(PackageManager::Pacman.qemu_package(), "qemu-system-x86");
    assert_eq!(PackageManager::Apt.grub_packages(), vec!["grub-pc-bin", "xorriso"]);
    assert_eq!(PackageManager::Dnf.grub_packages(), vec!["grub2-tools", "xorriso"]);
    assert_eq!(PackageManager::Pacman.grub_packages(), vec!["grub", "xorriso"]);
}

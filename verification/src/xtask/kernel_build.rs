//! How cargo is called to build the kernel.

use vstd::prelude::*;

verus! {

/// The arguments that build the kernel for the bare-metal target, with the
/// core libraries built from source.
pub open spec fn base_build_args() -> Seq<Seq<char>> {
    seq![
        "build"@,
        "--package"@,
        "yomi-kernel"@,
        "--target"@,
        "x86_64-unknown-none"@,
        "-Z"@,
        "build-std=core,compiler_builtins,alloc"@,
        "-Z"@,
        "build-std-features=compiler-builtins-mem"@,
    ]
}

/// The arguments for cargo that build the kernel, with `--release` at the
/// end for a release build.
pub fn build_kernel(release: bool) -> (r: Vec<&'static str>)
    ensures
        r@.len() == if release {
            10int
        } else {
            9int
        },
        forall|i: int| 0 <= i < 9 ==> (#[trigger] r@[i])@ == base_build_args()[i],
        release ==> r@[9]@ == "--release"@,
{
    let mut args: Vec<&'static str> = Vec::new();
    args.push("build");
    args.push("--package");
    args.push("yomi-kernel");
    args.push("--target");
    args.push("x86_64-unknown-none");
    args.push("-Z");
    args.push("build-std=core,compiler_builtins,alloc");
    args.push("-Z");
    args.push("build-std-features=compiler-builtins-mem");
    if release {
        args.push("--release");
    }
    args
}

} // verus!

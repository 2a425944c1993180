//! Where the build puts the kernel, and comparisons of file names.

use vstd::prelude::*;
use vstd::string::StringSliceAdditionalSpecFns;

verus! {

/// `prefix` is how `s` starts.
pub open spec fn is_prefix(s: Seq<u8>, prefix: Seq<u8>) -> bool {
    prefix.len() <= s.len() && s.take(prefix.len() as int) == prefix
}

/// `suffix` is how `s` ends.
pub open spec fn is_suffix(s: Seq<u8>, suffix: Seq<u8>) -> bool {
    suffix.len() <= s.len() && s.skip(s.len() - suffix.len()) == suffix
}

/// `part` stands somewhere in `s`.
pub open spec fn is_part(s: Seq<u8>, part: Seq<u8>) -> bool {
    exists|i: int| 0 <= i <= s.len() - part.len() && #[trigger] s.subrange(i, i + part.len()) == part
}

/// Whether `part` stands in `s` at `at`.
fn matches_at(s: &[u8], part: &[u8], at: usize) -> (r: bool)
    requires
        at + part@.len() <= s@.len(),
    ensures
        r == (s@.subrange(at as int, at + part@.len()) == part@),
{
    let n = s.len();
    let mut i: usize = 0;
    while i < part.len()
        invariant
            i <= part@.len(),
            at + part@.len() <= s@.len(),
            n == s@.len(),
            forall|j: int| 0 <= j < i ==> s@[at + j] == part@[j],
        decreases part@.len() - i,
    {
        if s[at + i] != part[i] {
            assert(s@.subrange(at as int, at + part@.len())[i as int] != part@[i as int]);
            return false;
        }
        i += 1;
    }
    assert(s@.subrange(at as int, at + part@.len()) =~= part@);
    true
}

/// Whether `s` starts with `prefix`.
pub fn starts_with(s: &[u8], prefix: &[u8]) -> (r: bool)
    ensures
        r == is_prefix(s@, prefix@),
{
    if prefix.len() > s.len() {
        return false;
    }
    assert(s@.take(prefix@.len() as int) =~= s@.subrange(0, 0 + prefix@.len() as int));
    matches_at(s, prefix, 0)
}

/// Whether `s` ends with `suffix`.
pub fn ends_with(s: &[u8], suffix: &[u8]) -> (r: bool)
    ensures
        r == is_suffix(s@, suffix@),
{
    if suffix.len() > s.len() {
        return false;
    }
    let at = s.len() - suffix.len();
    assert(s@.skip(s@.len() - suffix@.len()) =~= s@.subrange(at as int, at + suffix@.len()));
    matches_at(s, suffix, at)
}

/// Whether `part` stands somewhere in `s`.
pub fn contains(s: &[u8], part: &[u8]) -> (r: bool)
    ensures
        r == is_part(s@, part@),
{
    if part.len() > s.len() {
        return false;
    }
    if part.len() == 0 {
        assert(s@.subrange(0, 0 + part@.len() as int) =~= part@);
        return true;
    }
    let last = s.len() - part.len();
    let mut at: usize = 0;
    while at <= last
        invariant
            at <= last + 1,
            last == s@.len() - part@.len(),
            last < s@.len() == s.len(),
            forall|i: int| 0 <= i < at ==> #[trigger] s@.subrange(i, i + part@.len()) != part@,
        decreases last + 1 - at,
    {
        if matches_at(s, part, at) {
            return true;
        }
        at += 1;
    }
    false
}

/// The directory of the build products below the project root, for the
/// release or the debug profile.
pub fn kernel_target_dir(release: bool) -> (r: &'static str)
    ensures
        r@ == if release {
            "target/x86_64-unknown-none/release"@
        } else {
            "target/x86_64-unknown-none/debug"@
        },
{
    if release {
        "target/x86_64-unknown-none/release"
    } else {
        "target/x86_64-unknown-none/debug"
    }
}

/// The kernel binary below the project root, for the release or the debug
/// profile.
pub fn kernel_binary(release: bool) -> (r: &'static str)
    ensures
        r@ == if release {
            "target/x86_64-unknown-none/release/yomi-kernel"@
        } else {
            "target/x86_64-unknown-none/debug/yomi-kernel"@
        },
{
    if release {
        "target/x86_64-unknown-none/release/yomi-kernel"
    } else {
        "target/x86_64-unknown-none/debug/yomi-kernel"
    }
}

/// Whether the file `name` is the binary that the build made for the test
/// `test`: its name is that of the test, a hyphen and a hash, and it is not a
/// dependency file.
pub fn is_test_binary(name: &str, test: &str) -> (r: bool)
    ensures
        r == (is_prefix(name.spec_bytes(), test.spec_bytes().push(0x2D)) && !is_suffix(
            name.spec_bytes(),
            seq![0x2Eu8, 0x64u8],
        )),
{
    let mut prefix = vstd::slice::slice_to_vec(test.as_bytes());
    prefix.push(0x2D);
    let dep: [u8; 2] = [0x2E, 0x64];
    assert(dep@ =~= seq![0x2Eu8, 0x64u8]);
    starts_with(name.as_bytes(), prefix.as_slice()) && !ends_with(name.as_bytes(), dep.as_slice())
}

/// Whether the test `name` is selected by `filter`: there is no filter, or the
/// name holds it.
pub fn is_selected(name: &str, filter: Option<&str>) -> (r: bool)
    ensures
        r == match filter {
            Some(f) => is_part(name.spec_bytes(), f.spec_bytes()),
            None => true,
        },
{
    match filter {
        Some(f) => contains(name.as_bytes(), f.as_bytes()),
        None => true,
    }
}

/// `byte` is an ASCII letter.
pub open spec fn is_letter(byte: u8) -> bool {
    (0x41 <= byte <= 0x5A) || (0x61 <= byte <= 0x7A)
}

/// The lower-case form of an ASCII letter; any other byte as it is.
pub open spec fn lower(byte: u8) -> u8 {
    if 0x41 <= byte <= 0x5A {
        (byte + 0x20) as u8
    } else {
        byte
    }
}

/// `path` without a leading `\\?\`.
pub open spec fn without_verbatim_prefix(path: Seq<u8>) -> Seq<u8> {
    if is_prefix(path, seq![0x5Cu8, 0x5Cu8, 0x3Fu8, 0x5Cu8]) {
        path.skip(4)
    } else {
        path
    }
}

/// The path under which WSL sees the Windows path `path`: for `C:\foo\bar` it
/// is `/mnt/c/foo/bar`. There is none where `path`, after an optional
/// `\\?\`, does not start with a drive letter and a colon.
pub open spec fn wsl_path(path: Seq<u8>) -> Option<Seq<u8>> {
    let p = without_verbatim_prefix(path);
    if p.len() >= 2 && is_letter(p[0]) && p[1] == 0x3A {
        Some(
            seq![0x2Fu8, 0x6Du8, 0x6Eu8, 0x74u8, 0x2Fu8, lower(p[0])] + Seq::new(
                (p.len() - 2) as nat,
                |i: int|
                    if p[i + 2] == 0x5C {
                        0x2Fu8
                    } else {
                        p[i + 2]
                    },
            ),
        )
    } else {
        None
    }
}

/// Converts a Windows path to the path under which WSL sees it.
pub fn windows_to_wsl_path(path: &[u8]) -> (r: Option<Vec<u8>>)
    ensures
        r is Some <==> wsl_path(path@) is Some,
        r is Some ==> r.unwrap()@ == wsl_path(path@).unwrap(),
{
    let verbatim: [u8; 4] = [0x5C, 0x5C, 0x3F, 0x5C];
    assert(verbatim@ =~= seq![0x5Cu8, 0x5Cu8, 0x3Fu8, 0x5Cu8]);
    let start: usize = if starts_with(path, verbatim.as_slice()) {
        4
    } else {
        0
    };
    let ghost p = without_verbatim_prefix(path@);
    assert(p =~= path@.skip(start as int));
    let n = path.len();
    if n - start < 2 {
        return None;
    }
    let drive = path[start];
    assert(drive == p[0] && path@[start + 1] == p[1]);
    let letter = (drive >= 0x41 && drive <= 0x5A) || (drive >= 0x61 && drive <= 0x7A);
    if !letter || path[start + 1] != 0x3A {
        return None;
    }
    let mut out: Vec<u8> = Vec::new();
    out.push(0x2F);
    out.push(0x6D);
    out.push(0x6E);
    out.push(0x74);
    out.push(0x2F);
    out.push(
        if drive >= 0x41 && drive <= 0x5A {
            drive + 0x20
        } else {
            drive
        },
    );
    let mut i: usize = start + 2;
    while i < n
        invariant
            start + 2 <= i <= n,
            n == path@.len(),
            p == path@.skip(start as int),
            out@.len() == 6 + (i - start - 2),
            out@.take(6) == seq![0x2Fu8, 0x6Du8, 0x6Eu8, 0x74u8, 0x2Fu8, lower(p[0])],
            forall|k: int|
                6 <= k < out@.len() ==> #[trigger] out@[k] == if p[k - 4] == 0x5C {
                    0x2Fu8
                } else {
                    p[k - 4]
                },
        decreases n - i,
    {
        let ghost before = out@;
        let byte = path[i];
        assert(byte == p[i - start]);
        out.push(
            if byte == 0x5C {
                0x2F
            } else {
                byte
            },
        );
        assert(out@.take(6) =~= before.take(6));
        i += 1;
    }
    assert(out@ =~= wsl_path(path@).unwrap()) by {
        let want = wsl_path(path@).unwrap();
        assert(out@.len() == want.len());
        assert forall|k: int| 0 <= k < out@.len() implies out@[k] == want[k] by {
            if k < 6 {
                assert(out@[k] == out@.take(6)[k]);
            }
        }
    }
    Some(out)
}

} // verus!

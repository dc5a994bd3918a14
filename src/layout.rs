use vstd::prelude::*;
use crate::cli::{Arch, Platform};

verus! {

/// Name of an architecture in the output layout.
pub open spec fn arch_name(arch: Arch) -> Seq<char> {
    match arch {
        Arch::X86_64 => "x86_64"@,
        Arch::Aarch64 => "aarch64"@,
        Arch::Riscv64 => "riscv64"@,
    }
}

/// Name of a platform in the output layout.
pub open spec fn platform_name(platform: Platform) -> Seq<char> {
    match platform {
        Platform::Qemu => "qemu"@,
    }
}

/// Name of an optimisation profile.
pub open spec fn profile_name(release: bool) -> Seq<char> {
    if release {
        "release"@
    } else {
        "debug"@
    }
}

/// `<arch>-<platform>-<profile>`: the name of a configuration's output directory.
pub open spec fn config_name(arch: Arch, platform: Platform, release: bool) -> Seq<char> {
    arch_name(arch) + "-"@ + platform_name(platform) + "-"@ + profile_name(release)
}

/// `b` appended to the path `a` by the Unix rule of `PathBuf::push`: an absolute `b`
/// replaces `a`; else a `/` goes between them unless `a` is empty or ends in one.
pub open spec fn path_join(a: Seq<char>, b: Seq<char>) -> Seq<char> {
    if b.len() > 0 && b[0] == '/' {
        b
    } else if a.len() == 0 || a.last() == '/' {
        a + b
    } else {
        a + seq!['/'] + b
    }
}

/// `<root>/out/<arch>-<platform>-<profile>`: the base output directory of a configuration.
pub open spec fn out_base(root: Seq<char>, arch: Arch, platform: Platform, release: bool) -> Seq<
    char,
> {
    path_join(path_join(root, "out"@), config_name(arch, platform, release))
}

/// The layout's name of an architecture.
pub fn to_arch_name(arch: &Arch) -> (r: &'static str)
    ensures
        r@ == arch_name(*arch),
{
    match arch {
        Arch::X86_64 => "x86_64",
        Arch::Aarch64 => "aarch64",
        Arch::Riscv64 => "riscv64",
    }
}

/// The layout's name of a platform.
pub fn to_platform_name(platform: &Platform) -> (r: &'static str)
    ensures
        r@ == platform_name(*platform),
{
    match platform {
        Platform::Qemu => "qemu",
    }
}

/// `release` or `debug`.
pub fn to_profile_name(release: bool) -> (r: &'static str)
    ensures
        r@ == profile_name(release),
{
    if release {
        "release"
    } else {
        "debug"
    }
}

/// Appends `seg` to the path `base` as one more component.
pub fn join(base: &String, seg: &str) -> (r: String)
    ensures
        r@ == path_join(base@, seg@),
{
    let seg_len = seg.unicode_len();
    if seg_len > 0 && seg.get_char(0) == '/' {
        return String::from_str(seg);
    }
    let base_len = base.as_str().unicode_len();
    let mut r = base.clone();
    if base_len > 0 && base.as_str().get_char(base_len - 1) != '/' {
        r.append("/");
        proof {
            reveal_strlit("/");
        }
    }
    r.append(seg);
    r
}

/// The name `<arch>-<platform>-<profile>` of a configuration.
pub fn config_dir_name(arch: &Arch, platform: &Platform, release: bool) -> (r: String)
    ensures
        r@ == config_name(*arch, *platform, release),
{
    let mut r = String::from_str(to_arch_name(arch));
    r.append("-");
    r.append(to_platform_name(platform));
    r.append("-");
    r.append(to_profile_name(release));
    r
}

/// The base output directory `<root>/out/<arch>-<platform>-<profile>`.
pub fn out_base_dir(root: &String, arch: &Arch, platform: &Platform, release: bool) -> (r: String)
    ensures
        r@ == out_base(root@, *arch, *platform, release),
{
    let out = join(root, "out");
    let name = config_dir_name(arch, platform, release);
    join(&out, name.as_str())
}

/// Distinct configurations have distinct base output directories under one root:
/// the layout is injective in (architecture, platform, profile).
pub proof fn lemma_out_base_injective(
    root: Seq<char>,
    xa: Arch,
    xp: Platform,
    xr: bool,
    ya: Arch,
    yp: Platform,
    yr: bool,
)
    ensures
        out_base(root, xa, xp, xr) == out_base(root, ya, yp, yr) <==> (xa == ya && xp == yp && xr
            == yr),
{
    reveal_strlit("out");
    reveal_strlit("x86_64");
    reveal_strlit("aarch64");
    reveal_strlit("riscv64");
    reveal_strlit("qemu");
    reveal_strlit("release");
    reveal_strlit("debug");
    reveal_strlit("-");
    let pre = path_join(root, "out"@);
    let xn = config_name(xa, xp, xr);
    let yn = config_name(ya, yp, yr);
    assert(pre.len() > 0 && pre.last() == 't');
    assert(xn[0] != '/' && yn[0] != '/');
    if out_base(root, xa, xp, xr) == out_base(root, ya, yp, yr) {
        let k = pre.len() as int + 1;
        assert(out_base(root, xa, xp, xr) == pre + seq!['/'] + xn);
        assert(xn =~= (pre + seq!['/'] + xn).subrange(k, k + xn.len()));
        assert(yn =~= (pre + seq!['/'] + yn).subrange(k, k + yn.len()));
        assert(xn.len() == yn.len());
        assert(xn == yn);
        assert(xn[0] == arch_name(xa)[0]);
        assert(yn[0] == arch_name(ya)[0]);
        assert(xa == ya);
        assert(xp == yp);
        let j = arch_name(xa).len() as int + platform_name(xp).len() as int + 2;
        assert(xn[j] == profile_name(xr)[0]);
        assert(yn[j] == profile_name(yr)[0]);
    }
}

} // verus!

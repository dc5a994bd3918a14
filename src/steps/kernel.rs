use vstd::prelude::*;
use crate::cli::{Arch, Platform};
use crate::layout::{arch_name, config_dir_name, config_name, join, out_base, out_base_dir, path_join};
use crate::plan::{
    mode_for,
    mode_of,
    steps_view,
    Action,
    ActionModel,
    CommandModel,
    CommandSpec,
    Stage,
    StagePlan,
    StageError,
    Step,
};

verus! {

/// Options of the kernel stage.
#[derive(Clone, Copy, Debug, PartialEq, Eq, Structural)]
pub struct BuildKernelArgs {
    pub arch: Arch,
    pub platform: Platform,
    pub release: bool,
    pub verbose: bool,
    pub dry_run: bool,
}

/// `<root>/A9N`: the kernel's source tree.
pub open spec fn kernel_dir(root: Seq<char>) -> Seq<char> {
    path_join(root, "A9N"@)
}

/// `<root>/A9N/build/<arch>-<platform>-<profile>`: the build system's work directory.
pub open spec fn kernel_build_dir(root: Seq<char>, arch: Arch, platform: Platform, release: bool) -> Seq<
    char,
> {
    path_join(path_join(kernel_dir(root), "build"@), config_name(arch, platform, release))
}

/// `<base>/a9n`: the install prefix, the canonical destination of the kernel.
pub open spec fn kernel_install_prefix(
    root: Seq<char>,
    arch: Arch,
    platform: Platform,
    release: bool,
) -> Seq<char> {
    path_join(out_base(root, arch, platform, release), "a9n"@)
}

/// `<root>/A9N/src/hal/<arch>/toolchain.cmake`: the toolchain description.
pub open spec fn kernel_toolchain_file(root: Seq<char>, arch: Arch) -> Seq<char> {
    path_join(
        path_join(path_join(path_join(kernel_dir(root), "src"@), "hal"@), arch_name(arch)),
        "toolchain.cmake"@,
    )
}

pub open spec fn build_type(release: bool) -> Seq<char> {
    if release {
        "Release"@
    } else {
        "Debug"@
    }
}

/// A `cmake` command run in the kernel's tree.
pub open spec fn cmake(root: Seq<char>, args: Seq<Seq<char>>, label: Seq<char>) -> CommandModel {
    CommandModel {
        program: "cmake"@,
        args,
        cwd: kernel_dir(root),
        env: Seq::empty(),
        label,
    }
}

/// The kernel stage: create the work directory and the install prefix, then
/// configure, build and install.
pub open spec fn kernel_steps(root: Seq<char>, args: BuildKernelArgs) -> Seq<(Stage, ActionModel)> {
    let build = kernel_build_dir(root, args.arch, args.platform, args.release);
    let prefix = kernel_install_prefix(root, args.arch, args.platform, args.release);
    let configure = seq![
        "-S"@,
        "."@,
        "-B"@,
        build,
        "-DARCH="@ + arch_name(args.arch),
        "-DCMAKE_TOOLCHAIN_FILE="@ + kernel_toolchain_file(root, args.arch),
        "-DCMAKE_BUILD_TYPE="@ + build_type(args.release),
        "-DCMAKE_INSTALL_PREFIX="@ + prefix,
    ];
    seq![
        (Stage::Kernel, ActionModel::CreateDir(build)),
        (Stage::Kernel, ActionModel::CreateDir(prefix)),
        (Stage::Kernel, ActionModel::Run(cmake(root, configure, "cmake configure (A9N kernel)"@))),
        (Stage::Kernel, ActionModel::Run(cmake(root, seq!["--build"@, build], "cmake build (A9N kernel)"@))),
        (Stage::Kernel, ActionModel::Run(cmake(root, seq!["--install"@, build], "cmake install (A9N kernel)"@))),
    ]
}

/// The kernel's build system has a port for every architecture.
pub fn validate_supported(arch: &Arch, platform: &Platform) -> (r: Result<(), StageError>)
    ensures
        r.is_ok(),
{
    Ok(())
}

/// The name of the kernel's hardware layer for an architecture.
pub fn to_a9n_target_arch(arch: &Arch) -> (r: &'static str)
    ensures
        r@ == arch_name(*arch),
{
    match arch {
        Arch::X86_64 => "x86_64",
        Arch::Aarch64 => "aarch64",
        Arch::Riscv64 => "riscv64",
    }
}

fn prefixed(prefix: &str, value: &str) -> (r: String)
    ensures
        r@ == prefix@ + value@,
{
    let mut r = String::from_str(prefix);
    r.append(value);
    r
}

fn cmake_command(cwd: &String, args: Vec<String>, label: &str) -> (r: CommandSpec)
    ensures
        r.program@ == "cmake"@,
        r.args@ == args@,
        r.cwd@ == cwd@,
        r.env@.len() == 0,
        r.label@ == label@,
{
    CommandSpec {
        program: String::from_str("cmake"),
        args,
        cwd: cwd.clone(),
        env: Vec::new(),
        label: String::from_str(label),
    }
}

/// Plans the kernel stage; in a dry run the steps are reported and none is carried out.
pub fn build_kernel(repo_root: &String, args: &BuildKernelArgs) -> (r: Result<StagePlan, StageError>)
    ensures
        r.is_ok(),
        r.unwrap().mode == mode_of(args.dry_run),
        r.unwrap().steps_model() == kernel_steps(repo_root@, *args),
{
    if let Err(e) = validate_supported(&args.arch, &args.platform) {
        return Err(e);
    }
    let a9n_dir = join(repo_root, "A9N");
    let target_arch = to_a9n_target_arch(&args.arch);
    let build_dir = join(
        &join(&a9n_dir, "build"),
        config_dir_name(&args.arch, &args.platform, args.release).as_str(),
    );
    let base = out_base_dir(repo_root, &args.arch, &args.platform, args.release);
    let install_prefix = join(&base, "a9n");
    let toolchain_file = join(
        &join(&join(&join(&a9n_dir, "src"), "hal"), target_arch),
        "toolchain.cmake",
    );
    let build_type_name = if args.release {
        "Release"
    } else {
        "Debug"
    };

    let mut configure: Vec<String> = Vec::new();
    configure.push(String::from_str("-S"));
    configure.push(String::from_str("."));
    configure.push(String::from_str("-B"));
    configure.push(build_dir.clone());
    configure.push(prefixed("-DARCH=", target_arch));
    configure.push(prefixed("-DCMAKE_TOOLCHAIN_FILE=", toolchain_file.as_str()));
    configure.push(prefixed("-DCMAKE_BUILD_TYPE=", build_type_name));
    configure.push(prefixed("-DCMAKE_INSTALL_PREFIX=", install_prefix.as_str()));
    let mut build: Vec<String> = Vec::new();
    build.push(String::from_str("--build"));
    build.push(build_dir.clone());
    let mut install: Vec<String> = Vec::new();
    install.push(String::from_str("--install"));
    install.push(build_dir.clone());

    let configure_cmd = cmake_command(&a9n_dir, configure, "cmake configure (A9N kernel)");
    let build_cmd = cmake_command(&a9n_dir, build, "cmake build (A9N kernel)");
    let install_cmd = cmake_command(&a9n_dir, install, "cmake install (A9N kernel)");
    let ghost kb = kernel_steps(repo_root@, *args);
    assert(configure_cmd@ == kb[2].1->Run_0) by {
        assert(configure_cmd@.args =~= (kb[2].1->Run_0).args);
        assert(configure_cmd@.env =~= Seq::<(Seq<char>, Seq<char>)>::empty());
    }
    assert(build_cmd@ == kb[3].1->Run_0) by {
        assert(build_cmd@.args =~= (kb[3].1->Run_0).args);
        assert(build_cmd@.env =~= Seq::<(Seq<char>, Seq<char>)>::empty());
    }
    assert(install_cmd@ == kb[4].1->Run_0) by {
        assert(install_cmd@.args =~= (kb[4].1->Run_0).args);
        assert(install_cmd@.env =~= Seq::<(Seq<char>, Seq<char>)>::empty());
    }

    let mut steps: Vec<Step> = Vec::new();
    steps.push(Step { stage: Stage::Kernel, action: Action::CreateDir(build_dir) });
    steps.push(Step { stage: Stage::Kernel, action: Action::CreateDir(install_prefix) });
    steps.push(Step { stage: Stage::Kernel, action: Action::Run(configure_cmd) });
    steps.push(Step { stage: Stage::Kernel, action: Action::Run(build_cmd) });
    steps.push(Step { stage: Stage::Kernel, action: Action::Run(install_cmd) });
    assert(steps_view(steps@) =~= kb);
    Ok(StagePlan { mode: mode_for(args.dry_run), steps })
}

} // verus!

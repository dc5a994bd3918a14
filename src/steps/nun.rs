use vstd::prelude::*;
use crate::cli::{Arch, Platform};
use crate::layout::{arch_name, join, out_base, out_base_dir, path_join, to_arch_name};
use crate::plan::{
    mode_for,
    mode_of,
    steps_view,
    Action,
    ActionModel,
    CommandModel,
    CommandSpec,
    Stage,
    StagePlan,
    StageError,
    Step,
};

verus! {

/// Options of the OS stage.
#[derive(Clone, Copy, Debug, PartialEq, Eq, Structural)]
pub struct BuildNunOsArgs {
    pub arch: Arch,
    pub platform: Platform,
    pub release: bool,
    pub verbose: bool,
    pub dry_run: bool,
    /// Whether the nightly channel and the standard-library rebuild are requested.
    /// The OS cannot be built without them, so its command always carries them.
    pub use_nightly_build_std: bool,
}

/// The target description the OS is built for, and the toolchain's output directory.
#[derive(Debug)]
pub struct NunOsArtifacts {
    pub cargo_target_json: String,
    pub cargo_target_dir: String,
}

/// `<root>/core`: the OS's source tree.
pub open spec fn os_dir(root: Seq<char>) -> Seq<char> {
    path_join(root, "core"@)
}

/// `<root>/core/Cargo.toml`: the OS's build manifest.
pub open spec fn os_manifest(root: Seq<char>) -> Seq<char> {
    path_join(os_dir(root), "Cargo.toml"@)
}

/// `<arch>-unknown-a9n`: the name of the OS's target.
pub open spec fn os_target_name(arch: Arch) -> Seq<char> {
    arch_name(arch) + "-unknown-a9n"@
}

/// `<root>/Nun/arch/<arch>-unknown-a9n.json`: the OS's target description.
pub open spec fn os_target_json(root: Seq<char>, arch: Arch) -> Seq<char> {
    path_join(path_join(path_join(root, "Nun"@), "arch"@), os_target_name(arch) + ".json"@)
}

/// `<base>/nun_os_target_dir`: where the OS's toolchain writes.
pub open spec fn os_target_dir(root: Seq<char>, arch: Arch, platform: Platform, release: bool) -> Seq<
    char,
> {
    path_join(out_base(root, arch, platform, release), "nun_os_target_dir"@)
}

pub open spec fn os_cargo_args(root: Seq<char>, args: BuildNunOsArgs) -> Seq<Seq<char>> {
    seq!["+nightly"@, "build"@, "--manifest-path"@, os_manifest(root), "--target"@, os_target_json(root, args.arch)]
        + (if args.release {
        seq!["--release"@]
    } else {
        Seq::empty()
    }) + seq![
        "-Z"@,
        "build-std=core,alloc,compiler_builtins"@,
        "-Z"@,
        "build-std-features=compiler-builtins-mem"@,
    ]
}

/// `cargo +nightly build --manifest-path <manifest> --target <json> [--release]
/// -Z build-std...`, run in the OS's tree with its output directory in the
/// environment.
pub open spec fn os_command(root: Seq<char>, args: BuildNunOsArgs) -> CommandModel {
    CommandModel {
        program: "cargo"@,
        args: os_cargo_args(root, args),
        cwd: os_dir(root),
        env: seq![("CARGO_TARGET_DIR"@, os_target_dir(root, args.arch, args.platform, args.release))],
        label: "cargo build (Nun OS)"@,
    }
}

/// The OS stage: create the output directory, require the manifest and the target
/// description, then build.
pub open spec fn os_steps(root: Seq<char>, args: BuildNunOsArgs) -> Seq<(Stage, ActionModel)> {
    seq![
        (Stage::Os, ActionModel::CreateDir(os_target_dir(root, args.arch, args.platform, args.release))),
        (Stage::Os, ActionModel::RequireFile(os_manifest(root))),
        (Stage::Os, ActionModel::RequireFile(os_target_json(root, args.arch))),
        (Stage::Os, ActionModel::Run(os_command(root, args))),
    ]
}

/// The OS has a target description for every architecture.
pub fn validate_supported(arch: &Arch, platform: &Platform) -> (r: Result<(), StageError>)
    ensures
        r.is_ok(),
{
    Ok(())
}

/// The path of the OS's target description for `arch`.
pub fn nun_custom_target_json(repo_root: &String, arch: &Arch) -> (r: String)
    ensures
        r@ == os_target_json(repo_root@, *arch),
{
    let mut file = String::from_str(to_arch_name(arch));
    file.append("-unknown-a9n.json");
    proof {
        reveal_strlit("-unknown-a9n.json");
        reveal_strlit("-unknown-a9n");
        reveal_strlit(".json");
        assert("-unknown-a9n.json"@ =~= "-unknown-a9n"@ + ".json"@);
        assert(file@ =~= os_target_name(*arch) + ".json"@);
    }
    join(&join(&join(repo_root, "Nun"), "arch"), file.as_str())
}

/// Plans the OS stage; in a dry run the steps are reported and none is carried out.
pub fn build_nun_os(repo_root: &String, args: &BuildNunOsArgs) -> (r: Result<
    (StagePlan, NunOsArtifacts),
    StageError,
>)
    ensures
        r.is_ok(),
        r.unwrap().0.mode == mode_of(args.dry_run),
        r.unwrap().0.steps_model() == os_steps(repo_root@, *args),
        r.unwrap().1.cargo_target_json@ == os_target_json(repo_root@, args.arch),
        r.unwrap().1.cargo_target_dir@ == os_target_dir(
            repo_root@,
            args.arch,
            args.platform,
            args.release,
        ),
{
    if let Err(e) = validate_supported(&args.arch, &args.platform) {
        return Err(e);
    }
    let os = join(repo_root, "core");
    let manifest = join(&os, "Cargo.toml");
    let target_json = nun_custom_target_json(repo_root, &args.arch);
    let base = out_base_dir(repo_root, &args.arch, &args.platform, args.release);
    let target_dir = join(&base, "nun_os_target_dir");

    let mut cargo_args: Vec<String> = Vec::new();
    cargo_args.push(String::from_str("+nightly"));
    cargo_args.push(String::from_str("build"));
    cargo_args.push(String::from_str("--manifest-path"));
    cargo_args.push(manifest.clone());
    cargo_args.push(String::from_str("--target"));
    cargo_args.push(target_json.clone());
    if args.release {
        cargo_args.push(String::from_str("--release"));
    }
    cargo_args.push(String::from_str("-Z"));
    cargo_args.push(String::from_str("build-std=core,alloc,compiler_builtins"));
    cargo_args.push(String::from_str("-Z"));
    cargo_args.push(String::from_str("build-std-features=compiler-builtins-mem"));
    let mut env: Vec<(String, String)> = Vec::new();
    env.push((String::from_str("CARGO_TARGET_DIR"), target_dir.clone()));
    let command = CommandSpec {
        program: String::from_str("cargo"),
        args: cargo_args,
        cwd: os,
        env,
        label: String::from_str("cargo build (Nun OS)"),
    };
    assert(command@.args =~= os_cargo_args(repo_root@, *args));
    assert(command@.env =~= os_command(repo_root@, *args).env);

    let mut steps: Vec<Step> = Vec::new();
    steps.push(Step { stage: Stage::Os, action: Action::CreateDir(target_dir.clone()) });
    steps.push(Step { stage: Stage::Os, action: Action::RequireFile(manifest) });
    steps.push(Step { stage: Stage::Os, action: Action::RequireFile(target_json.clone()) });
    steps.push(Step { stage: Stage::Os, action: Action::Run(command) });
    assert(steps_view(steps@) =~= os_steps(repo_root@, *args));
    let plan = StagePlan { mode: mode_for(args.dry_run), steps };
    Ok((plan, NunOsArtifacts { cargo_target_json: target_json, cargo_target_dir: target_dir }))
}

} // verus!

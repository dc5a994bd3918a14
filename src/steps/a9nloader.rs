use vstd::prelude::*;
use crate::cli::{Arch, Platform};
use crate::layout::{join, out_base, out_base_dir, path_join, profile_name, to_profile_name};
use crate::plan::{
    mode_for,
    mode_of,
    steps_view,
    Action,
    ActionModel,
    CommandModel,
    CommandSpec,
    ErrorKind,
    ErrorModel,
    Failure,
    FailureModel,
    Stage,
    StagePlan,
    StageError,
    Step,
};

verus! {

/// Options of the bootloader stage.
#[derive(Clone, Copy, Debug, PartialEq, Eq, Structural)]
pub struct BuildA9nloaderArgs {
    pub arch: Arch,
    pub platform: Platform,
    pub release: bool,
    pub verbose: bool,
    pub dry_run: bool,
}

/// Where the bootloader's toolchain writes, and where its artifacts are mirrored to.
#[derive(Debug)]
pub struct A9nloaderArtifacts {
    pub out_dir: String,
    pub produced_dir: String,
}

/// The UEFI target triple of the bootloader's cross compiler, if it has one.
pub open spec fn cargo_target(arch: Arch) -> Option<Seq<char>> {
    match arch {
        Arch::X86_64 => Some("x86_64-unknown-uefi"@),
        Arch::Aarch64 => Some("aarch64-unknown-uefi"@),
        Arch::Riscv64 => None,
    }
}

/// `<root>/a9nloader-rs`: the bootloader's source tree.
pub open spec fn loader_dir(root: Seq<char>) -> Seq<char> {
    path_join(root, "a9nloader-rs"@)
}

/// `<base>/a9nloader`: the canonical destination of the bootloader's artifacts.
pub open spec fn loader_out_dir(root: Seq<char>, arch: Arch, platform: Platform, release: bool) -> Seq<
    char,
> {
    path_join(out_base(root, arch, platform, release), "a9nloader"@)
}

/// `<root>/a9nloader-rs/target/<triple>/<profile>`: where the toolchain writes.
pub open spec fn loader_produced_dir(root: Seq<char>, triple: Seq<char>, release: bool) -> Seq<char> {
    path_join(path_join(path_join(loader_dir(root), "target"@), triple), profile_name(release))
}

/// `cargo build --target <triple> [--release]`, run in the bootloader's tree.
pub open spec fn loader_command(root: Seq<char>, triple: Seq<char>, release: bool) -> CommandModel {
    CommandModel {
        program: "cargo"@,
        args: seq!["build"@, "--target"@, triple] + if release {
            seq!["--release"@]
        } else {
            Seq::empty()
        },
        cwd: loader_dir(root),
        env: Seq::empty(),
        label: "cargo build (A9NLoader)"@,
    }
}

/// The bootloader stage: create the destination, build, mirror the output.
pub open spec fn loader_steps(root: Seq<char>, args: BuildA9nloaderArgs, triple: Seq<char>) -> Seq<
    (Stage, ActionModel),
> {
    let out = loader_out_dir(root, args.arch, args.platform, args.release);
    seq![
        (Stage::Bootloader, ActionModel::CreateDir(out)),
        (Stage::Bootloader, ActionModel::Run(loader_command(root, triple, args.release))),
        (Stage::Bootloader, ActionModel::CopyTree(loader_produced_dir(root, triple, args.release), out)),
    ]
}

/// The bootloader's cross-compilation target for an architecture, if it has one.
pub fn to_cargo_target_triple(arch: &Arch) -> (r: Option<&'static str>)
    ensures
        match cargo_target(*arch) {
            Some(t) => r.is_some() && r.unwrap()@ == t,
            None => r.is_none(),
        },
{
    match arch {
        Arch::X86_64 => Some("x86_64-unknown-uefi"),
        Arch::Aarch64 => Some("aarch64-unknown-uefi"),
        Arch::Riscv64 => None,
    }
}

/// Accepts the configurations for which the bootloader's toolchain has a target.
pub fn validate_supported(arch: &Arch, platform: &Platform) -> (r: Result<(), StageError>)
    ensures
        r.is_ok() <==> cargo_target(*arch).is_some(),
        r.is_err() ==> r.unwrap_err()@ == (Stage::Bootloader, ErrorModel::UnsupportedTarget(*arch)),
{
    match to_cargo_target_triple(arch) {
        Some(_) => Ok(()),
        None => Err(StageError { stage: Stage::Bootloader, kind: ErrorKind::UnsupportedTarget(*arch) }),
    }
}

/// Plans the bootloader stage. An architecture without a target fails before any
/// step is planned; in a dry run the steps are reported and none is carried out.
pub fn build_a9nloader(repo_root: &String, args: &BuildA9nloaderArgs) -> (r: Result<
    (StagePlan, A9nloaderArtifacts),
    StageError,
>)
    ensures
        cargo_target(args.arch).is_none() <==> r.is_err(),
        r.is_err() ==> r.unwrap_err()@ == (
            Stage::Bootloader,
            ErrorModel::UnsupportedTarget(args.arch),
        ),
        r.is_ok() ==> {
            let (plan, art) = r.unwrap();
            let triple = cargo_target(args.arch).unwrap();
            &&& plan.mode == mode_of(args.dry_run)
            &&& plan.steps_model() == loader_steps(repo_root@, *args, triple)
            &&& art.out_dir@ == loader_out_dir(repo_root@, args.arch, args.platform, args.release)
            &&& art.produced_dir@ == loader_produced_dir(repo_root@, triple, args.release)
        },
{
    if let Err(e) = validate_supported(&args.arch, &args.platform) {
        return Err(e);
    }
    let triple = to_cargo_target_triple(&args.arch).unwrap();
    let loader = join(repo_root, "a9nloader-rs");
    let base = out_base_dir(repo_root, &args.arch, &args.platform, args.release);
    let out_dir = join(&base, "a9nloader");
    let produced_dir = join(&join(&join(&loader, "target"), triple), to_profile_name(args.release));

    let mut cargo_args: Vec<String> = Vec::new();
    cargo_args.push(String::from_str("build"));
    cargo_args.push(String::from_str("--target"));
    cargo_args.push(String::from_str(triple));
    if args.release {
        cargo_args.push(String::from_str("--release"));
    }
    let command = CommandSpec {
        program: String::from_str("cargo"),
        args: cargo_args,
        cwd: loader,
        env: Vec::new(),
        label: String::from_str("cargo build (A9NLoader)"),
    };
    let mut steps: Vec<Step> = Vec::new();
    steps.push(Step { stage: Stage::Bootloader, action: Action::CreateDir(out_dir.clone()) });
    steps.push(Step { stage: Stage::Bootloader, action: Action::Run(command) });
    steps.push(
        Step {
            stage: Stage::Bootloader,
            action: Action::CopyTree { from: produced_dir.clone(), to: out_dir.clone() },
        },
    );
    assert(command@.args =~= loader_command(repo_root@, triple@, args.release).args);
    assert(command@.env =~= Seq::<(Seq<char>, Seq<char>)>::empty());
    assert(steps_view(steps@) =~= loader_steps(repo_root@, *args, triple@));
    let plan = StagePlan { mode: mode_for(args.dry_run), steps };
    Ok((plan, A9nloaderArtifacts { out_dir, produced_dir }))
}

/// The kind of an entry of a directory tree.
#[derive(Clone, Copy, Debug, PartialEq, Eq, Structural)]
pub enum EntryKind {
    File,
    Dir,
    /// Neither a regular file nor a directory (a symbolic link, a device).
    Other,
}

/// An entry of a directory tree, by its path relative to the tree's root
/// (components joined by `/`). A listing holds every directory before its contents.
#[derive(Debug)]
pub struct TreeEntry {
    pub rel: String,
    pub kind: EntryKind,
}

/// One filesystem operation of a mirror.
#[derive(Debug)]
pub enum CopyOp {
    /// Create a directory and its missing parents.
    CreateDir(String),
    /// Copy a regular file byte for byte, overwriting the destination.
    Copy { from: String, to: String },
}

pub enum CopyOpModel {
    CreateDir(Seq<char>),
    Copy(Seq<char>, Seq<char>),
}

impl View for CopyOp {
    type V = CopyOpModel;

    open spec fn view(&self) -> CopyOpModel {
        match self {
            CopyOp::CreateDir(p) => CopyOpModel::CreateDir(p@),
            CopyOp::Copy { from, to } => CopyOpModel::Copy(from@, to@),
        }
    }
}

/// The operation that mirrors one entry of `src` into `dst` at the same relative path.
pub open spec fn mirror_op(src: Seq<char>, dst: Seq<char>, e: TreeEntry) -> CopyOpModel {
    if e.kind == EntryKind::Dir {
        CopyOpModel::CreateDir(path_join(dst, e.rel@))
    } else {
        CopyOpModel::Copy(path_join(src, e.rel@), path_join(dst, e.rel@))
    }
}

/// Plans the mirror of the tree `source_dir`, listed as `tree` (`None` where the
/// directory does not exist), into `destination_dir`: one operation per entry, in
/// the listing's order, at the same relative path. A missing source, or an entry that
/// is neither a file nor a directory, fails and plans nothing.
pub fn copy_dir_contents(
    source_dir: &String,
    destination_dir: &String,
    tree: &Option<Vec<TreeEntry>>,
) -> (r: Result<Vec<CopyOp>, Failure>)
    ensures
        tree.is_none() ==> r.is_err() && r.unwrap_err()@ == FailureModel::Missing(source_dir@),
        tree.is_some() ==> {
            let es = tree.unwrap()@;
            &&& r.is_ok() <==> forall|i: int| 0 <= i < es.len() ==> es[i].kind != EntryKind::Other
            &&& r.is_ok() ==> {
                let ops = r.unwrap()@;
                &&& ops.len() == es.len()
                &&& forall|i: int|
                    0 <= i < ops.len() ==> #[trigger] ops[i]@ == mirror_op(
                        source_dir@,
                        destination_dir@,
                        es[i],
                    )
            }
            &&& r.is_err() ==> exists|i: int|
                0 <= i < es.len() && es[i].kind == EntryKind::Other && r.unwrap_err()@
                    == FailureModel::Unsupported(path_join(source_dir@, #[trigger] es[i].rel@))
                    && forall|j: int| 0 <= j < i ==> es[j].kind != EntryKind::Other
        },
{
    let entries = match tree {
        None => {
            return Err(Failure::Missing(source_dir.clone()));
        },
        Some(es) => es,
    };
    let mut i: usize = 0;
    while i < entries.len()
        invariant
            0 <= i <= entries@.len(),
            tree.is_some() && entries@ == tree.unwrap()@,
            forall|j: int| 0 <= j < i ==> entries@[j].kind != EntryKind::Other,
        decreases entries@.len() - i,
    {
        if entries[i].kind == EntryKind::Other {
            let r = Failure::Unsupported(join(source_dir, entries[i].rel.as_str()));
            assert(entries@[i as int].kind == EntryKind::Other);
            return Err(r);
        }
        i = i + 1;
    }
    let mut ops: Vec<CopyOp> = Vec::new();
    let mut k: usize = 0;
    while k < entries.len()
        invariant
            0 <= k <= entries@.len(),
            tree.is_some() && entries@ == tree.unwrap()@,
            forall|j: int| 0 <= j < entries@.len() ==> entries@[j].kind != EntryKind::Other,
            ops@.len() == k,
            forall|j: int|
                0 <= j < k ==> #[trigger] ops@[j]@ == mirror_op(
                    source_dir@,
                    destination_dir@,
                    entries@[j],
                ),
        decreases entries@.len() - k,
    {
        let e = &entries[k];
        let to = join(destination_dir, e.rel.as_str());
        if e.kind == EntryKind::Dir {
            ops.push(CopyOp::CreateDir(to));
        } else {
            ops.push(CopyOp::Copy { from: join(source_dir, e.rel.as_str()), to });
        }
        k = k + 1;
    }
    Ok(ops)
}

} // verus!

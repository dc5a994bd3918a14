use vstd::prelude::*;
use crate::cli::{Arch, Platform};
use crate::layout::{join, path_join};
use crate::plan::{
    mode_for,
    mode_of,
    steps_view,
    Action,
    ActionModel,
    CommandModel,
    CommandSpec,
    ErrorKind,
    ErrorModel,
    Stage,
    StagePlan,
    StageError,
    Step,
};

verus! {

/// Options of the emulator launch.
#[derive(Debug)]
pub struct RunQemuArgs {
    pub arch: Arch,
    pub platform: Platform,
    /// The configuration's base output directory, which receives the writable
    /// firmware-variables copy.
    pub out_base: String,
    pub img_path: String,
    /// Read-only firmware code.
    pub ovmf_code_path: String,
    /// Template of the firmware variables, never written.
    pub ovmf_vars_path: String,
    pub enable_gdb: bool,
    pub stop_at_start: bool,
    pub verbose: bool,
    pub dry_run: bool,
}

/// `<base>/OVMF_VARS.fd`: the per-run copy of the firmware variables.
pub open spec fn runtime_vars(out_base: Seq<char>) -> Seq<char> {
    path_join(out_base, "OVMF_VARS.fd"@)
}

/// The emulator's arguments: memory, CPU model, console, the two firmware flashes,
/// the image as a raw drive, a user network with one forwarded port, and the
/// optional debugger and halt flags.
pub open spec fn qemu_args(
    out_base: Seq<char>,
    img: Seq<char>,
    code: Seq<char>,
    gdb: bool,
    stop: bool,
) -> Seq<Seq<char>> {
    seq![
        "-m"@,
        "4G"@,
        "-cpu"@,
        "max"@,
        "-net"@,
        "none"@,
        "-serial"@,
        "mon:stdio"@,
        "-drive"@,
        "if=pflash,format=raw,readonly=on,file="@ + code,
        "-drive"@,
        "if=pflash,format=raw,file="@ + runtime_vars(out_base),
        "-drive"@,
        "format=raw,file="@ + img,
        "-netdev"@,
        "user,id=net0,hostfwd=tcp:127.0.0.1:1234-:80"@,
        "-device"@,
        "e1000,netdev=net0"@,
    ] + (if gdb {
        seq!["-s"@]
    } else {
        Seq::empty()
    }) + (if stop {
        seq!["-S"@]
    } else {
        Seq::empty()
    })
}

/// The emulator run: copy the variables template to the per-run copy, then run the
/// virtual machine (in the caller's working directory, written as an empty path).
pub open spec fn qemu_steps(
    out_base: Seq<char>,
    img: Seq<char>,
    code: Seq<char>,
    vars: Seq<char>,
    gdb: bool,
    stop: bool,
) -> Seq<(Stage, ActionModel)> {
    seq![
        (Stage::Emulator, ActionModel::CopyFile(vars, runtime_vars(out_base))),
        (
            Stage::Emulator,
            ActionModel::Run(
                CommandModel {
                    program: "qemu-system-x86_64"@,
                    args: qemu_args(out_base, img, code, gdb, stop),
                    cwd: Seq::empty(),
                    env: Seq::empty(),
                    label: "qemu-system-x86_64"@,
                },
            ),
        ),
    ]
}

/// The emulator run that `args` describe.
pub open spec fn qemu_steps_for(args: RunQemuArgs) -> Seq<(Stage, ActionModel)> {
    qemu_steps(
        args.out_base@,
        args.img_path@,
        args.ovmf_code_path@,
        args.ovmf_vars_path@,
        args.enable_gdb,
        args.stop_at_start,
    )
}

fn prefixed(prefix: &str, value: &String) -> (r: String)
    ensures
        r@ == prefix@ + value@,
{
    let mut r = String::from_str(prefix);
    r.append(value.as_str());
    r
}

/// Plans a run of the x86_64 virtual machine on the assembled image. Another
/// architecture fails before any step is planned; in a dry run the steps are
/// reported and none is carried out.
pub fn run_qemu_x86_64(args: &RunQemuArgs) -> (r: Result<StagePlan, StageError>)
    ensures
        r.is_ok() <==> args.arch == Arch::X86_64,
        r.is_err() ==> r.unwrap_err()@ == (Stage::Emulator, ErrorModel::UnsupportedTarget(args.arch)),
        r.is_ok() ==> r.unwrap().mode == mode_of(args.dry_run) && r.unwrap().steps_model()
            == qemu_steps_for(*args),
{
    if args.arch != Arch::X86_64 {
        return Err(StageError { stage: Stage::Emulator, kind: ErrorKind::UnsupportedTarget(args.arch) });
    }
    let vars_runtime = join(&args.out_base, "OVMF_VARS.fd");
    let mut a: Vec<String> = Vec::new();
    a.push(String::from_str("-m"));
    a.push(String::from_str("4G"));
    a.push(String::from_str("-cpu"));
    a.push(String::from_str("max"));
    a.push(String::from_str("-net"));
    a.push(String::from_str("none"));
    a.push(String::from_str("-serial"));
    a.push(String::from_str("mon:stdio"));
    a.push(String::from_str("-drive"));
    a.push(prefixed("if=pflash,format=raw,readonly=on,file=", &args.ovmf_code_path));
    a.push(String::from_str("-drive"));
    a.push(prefixed("if=pflash,format=raw,file=", &vars_runtime));
    a.push(String::from_str("-drive"));
    a.push(prefixed("format=raw,file=", &args.img_path));
    a.push(String::from_str("-netdev"));
    a.push(String::from_str("user,id=net0,hostfwd=tcp:127.0.0.1:1234-:80"));
    a.push(String::from_str("-device"));
    a.push(String::from_str("e1000,netdev=net0"));
    if args.enable_gdb {
        a.push(String::from_str("-s"));
    }
    if args.stop_at_start {
        a.push(String::from_str("-S"));
    }
    let command = CommandSpec {
        program: String::from_str("qemu-system-x86_64"),
        args: a,
        cwd: String::new(),
        env: Vec::new(),
        label: String::from_str("qemu-system-x86_64"),
    };
    assert(command@.args =~= qemu_args(args.out_base@, args.img_path@, args.ovmf_code_path@, args.enable_gdb, args.stop_at_start));
    assert(command@.env =~= Seq::<(Seq<char>, Seq<char>)>::empty());
    let mut steps: Vec<Step> = Vec::new();
    steps.push(
        Step {
            stage: Stage::Emulator,
            action: Action::CopyFile { from: args.ovmf_vars_path.clone(), to: vars_runtime },
        },
    );
    steps.push(Step { stage: Stage::Emulator, action: Action::Run(command) });
    assert(steps_view(steps@) =~= qemu_steps_for(*args));
    Ok(StagePlan { mode: mode_for(args.dry_run), steps })
}

} // verus!

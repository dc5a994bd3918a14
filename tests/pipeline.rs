use xtask::cli::{Arch, BuildArgs, Cli, Command, CommonArgs, Platform, RunArgs};
use xtask::pipeline::{run_build_pipeline, run_qemu, Runner};
use xtask::plan::{classify, Action, ErrorKind, Failure, Mode, Stage, StagePlan, Step};
use xtask::steps::process::exit_outcome;

fn common(arch: Arch, release: bool, dry_run: bool) -> CommonArgs {
    CommonArgs { arch, platform: Platform::Qemu, release, verbose: false, dry_run }
}

fn image_of(plan: &StagePlan) -> &xtask::plan::ImageSpec {
    match &plan.steps.last().unwrap().action {
        Action::AssembleImage(img) => img,
        other => panic!("last step is not the image: {:?}", other),
    }
}

#[test]
fn end_to_end_x86_64_qemu_debug() {
    let root = String::new();
    let plan = run_build_pipeline(&root, &common(Arch::X86_64, false, false)).unwrap();
    assert_eq!(plan.mode, Mode::Execute);
    let stages: Vec<Stage> = plan.steps.iter().map(|s| s.stage).collect();
    let mut expected = vec![Stage::Bootloader; 3];
    expected.extend(vec![Stage::Kernel; 5]);
    expected.extend(vec![Stage::Os; 4]);
    expected.extend(vec![Stage::Image; 2]);
    assert_eq!(stages, expected);
    let img = image_of(&plan);
    assert_eq!(img.path, "out/x86_64-qemu-debug/spencer.img");
    assert_eq!(img.size_bytes, 67_108_864);
    let files: Vec<(&str, &str)> =
        img.files.iter().map(|f| (f.volume_path.as_str(), f.source.as_str())).collect();
    assert_eq!(
        files,
        vec![
            ("EFI/BOOT/BOOTX64.EFI", "out/x86_64-qemu-debug/a9nloader/a9nloader-rs.efi"),
            ("kernel/init.elf", "out/x86_64-qemu-debug/nun_os_target_dir/x86_64-unknown-a9n/debug/core"),
            ("kernel/kernel.elf", "out/x86_64-qemu-debug/a9n/kernel.elf"),
        ]
    );
}

#[test]
fn unsupported_arch_fails_before_any_step() {
    let e = run_build_pipeline(&String::from("/r"), &common(Arch::Riscv64, false, false)).unwrap_err();
    assert_eq!(e.stage, Stage::Bootloader);
    assert!(matches!(e.kind, ErrorKind::UnsupportedTarget(Arch::Riscv64)));
}

#[test]
fn dry_run_reports_but_performs_nothing() {
    let plan = run_build_pipeline(&String::from("/r"), &common(Arch::Aarch64, true, true)).unwrap();
    assert_eq!(plan.mode, Mode::Plan);
    assert_eq!(plan.steps.len(), 14);
    let img = image_of(&plan);
    assert_eq!(img.files.len(), 3);
    assert_eq!(img.files[1].source, "/r/out/aarch64-qemu-release/nun_os_target_dir/aarch64-unknown-a9n/release/core");
    let runner = Runner::new(plan);
    assert!(runner.current().is_none());
    assert!(runner.finish().is_ok());
}

#[test]
fn run_plans_emulator_on_the_image() {
    let args = RunArgs { common: common(Arch::X86_64, false, false), gdb: true, stop: false };
    let plan = run_qemu(&String::from("/r"), &args).unwrap();
    assert!(matches!(&plan.steps[0].action, Action::CopyFile { from, to }
        if from == "/r/a9nloader-rs/tools/OVMF_VARS.fd" && to == "/r/out/x86_64-qemu-debug/OVMF_VARS.fd"));
    match &plan.steps[1].action {
        Action::Run(c) => {
            assert!(c.args.iter().any(|a| a == "format=raw,file=/r/out/x86_64-qemu-debug/spencer.img"));
            assert!(c.args.iter().any(|a| a == "if=pflash,format=raw,readonly=on,file=/r/a9nloader-rs/tools/OVMF_CODE.fd"));
            assert_eq!(c.args.last().unwrap(), "-s");
        }
        other => panic!("not a command: {:?}", other),
    }
    let bad = RunArgs { common: common(Arch::Riscv64, false, false), gdb: false, stop: false };
    assert!(matches!(run_qemu(&String::from("/r"), &bad).unwrap_err().kind, ErrorKind::UnsupportedTarget(Arch::Riscv64)));
}

#[test]
fn runner_hands_out_every_step_in_order() {
    let plan = run_build_pipeline(&String::from("/r"), &common(Arch::X86_64, false, false)).unwrap();
    let mut runner = Runner::new(plan);
    let mut seen = 0;
    while let Some(step) = runner.current() {
        let _ = step.stage;
        seen += 1;
        runner.record(Ok(()));
    }
    assert_eq!(seen, 14);
    assert!(runner.finish().is_ok());
}

#[test]
fn runner_stops_at_first_failure() {
    let plan = run_build_pipeline(&String::from("/r"), &common(Arch::X86_64, false, false)).unwrap();
    let mut runner = Runner::new(plan);
    runner.record(Ok(()));
    runner.record(exit_outcome(Some(101)));
    assert!(runner.current().is_none());
    let e = runner.finish().unwrap_err();
    assert_eq!(e.stage, Stage::Bootloader);
    assert!(matches!(e.kind, ErrorKind::Execution { label, code: Some(101) } if label == "cargo build (A9NLoader)"));
}

#[test]
fn runner_reports_missing_os_manifest() {
    let plan = run_build_pipeline(&String::from("/r"), &common(Arch::X86_64, false, false)).unwrap();
    let mut runner = Runner::new(plan);
    for _ in 0..9 {
        runner.record(Ok(()));
    }
    assert!(matches!(&runner.current().unwrap().action, Action::RequireFile(_)));
    runner.record(Err(Failure::Missing(String::from("/r/core/Cargo.toml"))));
    let e = runner.finish().unwrap_err();
    assert_eq!(e.stage, Stage::Os);
    assert!(matches!(e.kind, ErrorKind::MissingInput(p) if p == "/r/core/Cargo.toml"));
}

fn run_step(label: &str) -> Action {
    Action::Run(xtask::plan::CommandSpec {
        program: String::from("tool"),
        args: Vec::new(),
        cwd: String::new(),
        env: Vec::new(),
        label: String::from(label),
    })
}

#[test]
fn classify_each_failure() {
    let run = run_step("tool build");
    assert!(matches!(classify(&run, Failure::Spawn(String::from("not found"))),
        ErrorKind::Launch { label, message } if label == "tool build" && message == "not found"));
    assert!(matches!(classify(&run, Failure::Exit(None)),
        ErrorKind::Execution { label, code: None } if label == "tool build"));
    let copy = Action::CopyTree { from: String::from("a"), to: String::from("b") };
    assert!(matches!(classify(&copy, Failure::Missing(String::from("elsewhere"))), ErrorKind::SourceMissing(p) if p == "a"));
    let file = Action::CopyFile { from: String::from("vars"), to: String::from("b") };
    assert!(matches!(classify(&file, Failure::Missing(String::from("x"))), ErrorKind::SourceMissing(p) if p == "vars"));
    assert!(matches!(classify(&copy, Failure::Unsupported(String::from("a/l"))), ErrorKind::UnsupportedEntry(p) if p == "a/l"));
    let req = Action::RequireFile(String::from("m"));
    assert!(matches!(classify(&req, Failure::Missing(String::from("other"))), ErrorKind::MissingInput(p) if p == "m"));
    let dir = Action::CreateDir(String::from("d"));
    assert!(matches!(classify(&dir, Failure::Io(String::from("denied"))), ErrorKind::Write(m) if m == "denied"));
    assert!(matches!(classify(&dir, Failure::Format(String::from("bad"))), ErrorKind::Format(m) if m == "bad"));
}

#[test]
fn exit_codes() {
    assert!(exit_outcome(Some(0)).is_ok());
    assert!(matches!(exit_outcome(Some(2)), Err(Failure::Exit(Some(2)))));
    assert!(matches!(exit_outcome(None), Err(Failure::Exit(None))));
}

#[test]
fn runner_over_a_single_step_plan() {
    let plan = StagePlan { mode: Mode::Execute, steps: vec![Step { stage: Stage::Image, action: run_step("x") }] };
    let mut runner = Runner::new(plan);
    runner.record(Err(Failure::Spawn(String::from("gone"))));
    let e = runner.finish().unwrap_err();
    assert_eq!(e.stage, Stage::Image);
    assert!(matches!(e.kind, ErrorKind::Launch { .. }));
}

#[test]
fn cli_common_of_each_command() {
    let c = common(Arch::Aarch64, true, false);
    assert_eq!(Cli { command: Command::Build(BuildArgs { common: c }) }.common(), c);
    let r = RunArgs { common: c, gdb: true, stop: true };
    assert_eq!(Cli { command: Command::Run(r) }.common(), c);
}

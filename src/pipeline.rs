use vstd::prelude::*;
use crate::cli::{Arch, CommonArgs, RunArgs};
use crate::layout::{join, out_base, out_base_dir, path_join, profile_name, to_profile_name};
use crate::plan::{
    classify,
    classify_model,
    mode_for,
    mode_of,
    performed_steps,
    steps_view,
    ActionModel,
    ErrorModel,
    Failure,
    Mode,
    Stage,
    StageError,
    StagePlan,
    Step,
};
use crate::steps::a9nloader::{
    build_a9nloader,
    cargo_target,
    loader_out_dir,
    loader_steps,
    BuildA9nloaderArgs,
};
use crate::steps::image::{build_fat_img, image_layout, image_steps_of, BuildImgArgs};
use crate::steps::kernel::{build_kernel, kernel_install_prefix, kernel_steps, BuildKernelArgs};
use crate::steps::nun::{build_nun_os, os_steps, os_target_dir, os_target_name, BuildNunOsArgs};
use crate::steps::qemu::{qemu_steps, run_qemu_x86_64, RunQemuArgs};

verus! {

/// Size of the disk image in MiB.
pub const IMAGE_SIZE_MIB: u64 = 64;

pub open spec fn loader_args(c: CommonArgs) -> BuildA9nloaderArgs {
    BuildA9nloaderArgs {
        arch: c.arch,
        platform: c.platform,
        release: c.release,
        verbose: c.verbose,
        dry_run: c.dry_run,
    }
}

pub open spec fn kernel_args(c: CommonArgs) -> BuildKernelArgs {
    BuildKernelArgs {
        arch: c.arch,
        platform: c.platform,
        release: c.release,
        verbose: c.verbose,
        dry_run: c.dry_run,
    }
}

pub open spec fn os_args(c: CommonArgs) -> BuildNunOsArgs {
    BuildNunOsArgs {
        arch: c.arch,
        platform: c.platform,
        release: c.release,
        verbose: c.verbose,
        dry_run: c.dry_run,
        use_nightly_build_std: true,
    }
}

/// `<base>/spencer.img`: the disk image of a configuration.
pub open spec fn image_path(root: Seq<char>, c: CommonArgs) -> Seq<char> {
    path_join(out_base(root, c.arch, c.platform, c.release), "spencer.img"@)
}

/// `<base>/a9nloader/a9nloader-rs.efi`: the bootloader binary.
pub open spec fn efi_artifact(root: Seq<char>, c: CommonArgs) -> Seq<char> {
    path_join(loader_out_dir(root, c.arch, c.platform, c.release), "a9nloader-rs.efi"@)
}

/// `<base>/nun_os_target_dir/<arch>-unknown-a9n/<profile>/core`: the OS's init program.
pub open spec fn init_artifact(root: Seq<char>, c: CommonArgs) -> Seq<char> {
    path_join(
        path_join(
            path_join(os_target_dir(root, c.arch, c.platform, c.release), os_target_name(c.arch)),
            profile_name(c.release),
        ),
        "core"@,
    )
}

/// `<base>/a9n/kernel.elf`: the kernel binary.
pub open spec fn kernel_artifact(root: Seq<char>, c: CommonArgs) -> Seq<char> {
    path_join(kernel_install_prefix(root, c.arch, c.platform, c.release), "kernel.elf"@)
}

/// Image assembly from the three stages' artifacts.
pub open spec fn pipeline_image_steps(root: Seq<char>, c: CommonArgs) -> Seq<(Stage, ActionModel)> {
    let base = out_base(root, c.arch, c.platform, c.release);
    image_steps_of(
        base,
        image_layout(
            base,
            "spencer.img"@,
            IMAGE_SIZE_MIB as nat,
            efi_artifact(root, c),
            init_artifact(root, c),
            kernel_artifact(root, c),
        ),
    )
}

/// The whole build, in order: bootloader, kernel, OS, then the image.
pub open spec fn pipeline_steps(root: Seq<char>, c: CommonArgs) -> Seq<(Stage, ActionModel)> {
    loader_steps(root, loader_args(c), cargo_target(c.arch).unwrap()) + kernel_steps(
        root,
        kernel_args(c),
    ) + os_steps(root, os_args(c)) + pipeline_image_steps(root, c)
}

/// Plans the build of a configuration: the bootloader, kernel and OS stages, then
/// image assembly. A configuration that a stage cannot build fails before any step is
/// planned.
pub fn run_build_pipeline(repo_root: &String, common: &CommonArgs) -> (r: Result<StagePlan, StageError>)
    ensures
        r.is_ok() <==> cargo_target(common.arch).is_some(),
        r.is_err() ==> r.unwrap_err()@ == (
            Stage::Bootloader,
            ErrorModel::UnsupportedTarget(common.arch),
        ),
        r.is_ok() ==> r.unwrap().mode == mode_of(common.dry_run) && r.unwrap().steps_model()
            == pipeline_steps(repo_root@, *common),
{
    let loader_args = BuildA9nloaderArgs {
        arch: common.arch,
        platform: common.platform,
        release: common.release,
        verbose: common.verbose,
        dry_run: common.dry_run,
    };
    let (loader_plan, loader_art) = match build_a9nloader(repo_root, &loader_args) {
        Ok(v) => v,
        Err(e) => {
            return Err(e);
        },
    };
    let kernel_args = BuildKernelArgs {
        arch: common.arch,
        platform: common.platform,
        release: common.release,
        verbose: common.verbose,
        dry_run: common.dry_run,
    };
    let kernel_plan = match build_kernel(repo_root, &kernel_args) {
        Ok(v) => v,
        Err(e) => {
            return Err(e);
        },
    };
    let os_args = BuildNunOsArgs {
        arch: common.arch,
        platform: common.platform,
        release: common.release,
        verbose: common.verbose,
        dry_run: common.dry_run,
        use_nightly_build_std: true,
    };
    let (os_plan, os_art) = match build_nun_os(repo_root, &os_args) {
        Ok(v) => v,
        Err(e) => {
            return Err(e);
        },
    };

    let base = out_base_dir(repo_root, &common.arch, &common.platform, common.release);
    let mut target_name = String::from_str(crate::layout::to_arch_name(&common.arch));
    target_name.append("-unknown-a9n");
    let init = join(
        &join(&join(&os_art.cargo_target_dir, target_name.as_str()), to_profile_name(common.release)),
        "core",
    );
    let img_args = BuildImgArgs {
        img_dir: base.clone(),
        img_name: String::from_str("spencer.img"),
        bootx64_efi_source_path: join(&loader_art.out_dir, "a9nloader-rs.efi"),
        init_elf_source_path: init,
        kernel_elf_source_path: join(&join(&base, "a9n"), "kernel.elf"),
        image_size_mib: IMAGE_SIZE_MIB,
        verbose: common.verbose,
        dry_run: common.dry_run,
    };
    let img_plan = build_fat_img(&img_args);

    let mut steps = loader_plan.steps;
    let mut kernel_steps = kernel_plan.steps;
    let mut os_steps = os_plan.steps;
    let mut img_steps = img_plan.steps;
    let ghost s1 = steps@;
    let ghost s2 = kernel_steps@;
    let ghost s3 = os_steps@;
    let ghost s4 = img_steps@;
    steps.append(&mut kernel_steps);
    steps.append(&mut os_steps);
    steps.append(&mut img_steps);
    assert(steps@ == s1 + s2 + s3 + s4);
    assert(steps_view(steps@) =~= steps_view(s1) + steps_view(s2) + steps_view(s3) + steps_view(s4));
    Ok(StagePlan { mode: mode_for(common.dry_run), steps })
}

/// Plans the run of the virtual machine on a configuration's image, with the firmware
/// from `<root>/a9nloader-rs/tools`. Only x86_64 can be run.
pub fn run_qemu(repo_root: &String, args: &RunArgs) -> (r: Result<StagePlan, StageError>)
    ensures
        r.is_ok() <==> args.common.arch == Arch::X86_64,
        r.is_err() ==> r.unwrap_err()@ == (
            Stage::Emulator,
            ErrorModel::UnsupportedTarget(args.common.arch),
        ),
        r.is_ok() ==> {
            let c = args.common;
            let tools = path_join(path_join(repo_root@, "a9nloader-rs"@), "tools"@);
            &&& r.unwrap().mode == mode_of(c.dry_run)
            &&& r.unwrap().steps_model() == qemu_steps(
                out_base(repo_root@, c.arch, c.platform, c.release),
                image_path(repo_root@, c),
                path_join(tools, "OVMF_CODE.fd"@),
                path_join(tools, "OVMF_VARS.fd"@),
                args.gdb,
                args.stop,
            )
        },
{
    let c = &args.common;
    let base = out_base_dir(repo_root, &c.arch, &c.platform, c.release);
    let img_path = join(&base, "spencer.img");
    let tools = join(&join(repo_root, "a9nloader-rs"), "tools");
    let qemu_args = RunQemuArgs {
        arch: c.arch,
        platform: c.platform,
        out_base: base,
        img_path,
        ovmf_code_path: join(&tools, "OVMF_CODE.fd"),
        ovmf_vars_path: join(&tools, "OVMF_VARS.fd"),
        enable_gdb: args.gdb,
        stop_at_start: args.stop,
        verbose: c.verbose,
        dry_run: c.dry_run,
    };
    run_qemu_x86_64(&qemu_args)
}

/// Carries out a plan's steps one at a time, in order, and stops at the first
/// failure: the decisions of a run, while the caller performs each step and reports
/// how it went.
pub struct Runner {
    steps: Vec<Step>,
    next: usize,
    error: Option<StageError>,
}

impl Runner {
    /// The steps to carry out.
    pub closed spec fn steps(&self) -> Seq<(Stage, ActionModel)> {
        steps_view(self.steps@)
    }

    /// How many steps have succeeded.
    pub closed spec fn done(&self) -> nat {
        self.next as nat
    }

    /// The error that stopped the run, if one did.
    pub closed spec fn failed(&self) -> Option<(Stage, ErrorModel)> {
        match self.error {
            Some(e) => Some(e@),
            None => None,
        }
    }

    pub closed spec fn wf(&self) -> bool {
        self.next <= self.steps@.len()
    }

    /// A run of `plan`: all its steps, or none in a dry run.
    pub fn new(plan: StagePlan) -> (r: Runner)
        ensures
            r.wf(),
            r.steps() == plan.performed(),
            r.done() == 0,
            r.failed().is_none(),
    {
        let steps = match plan.mode {
            Mode::Execute => plan.steps,
            Mode::Plan => Vec::new(),
        };
        assert(steps_view(steps@) =~= plan.performed());
        Runner { steps, next: 0, error: None }
    }

    /// The step to carry out now: none once every step succeeded or one failed.
    pub fn current(&self) -> (r: Option<&Step>)
        requires
            self.wf(),
        ensures
            r.is_some() <==> (self.failed().is_none() && self.done() < self.steps().len()),
            r.is_some() ==> r.unwrap()@ == self.steps()[self.done() as int],
    {
        if self.error.is_none() && self.next < self.steps.len() {
            Some(&self.steps[self.next])
        } else {
            None
        }
    }

    /// Records how the current step went. A failure becomes the run's error, in the
    /// step's stage, and no later step is handed out.
    pub fn record(&mut self, outcome: Result<(), Failure>)
        requires
            old(self).wf(),
            old(self).failed().is_none(),
            old(self).done() < old(self).steps().len(),
        ensures
            final(self).wf(),
            final(self).steps() == old(self).steps(),
            match outcome {
                Ok(()) => final(self).done() == old(self).done() + 1 && final(self).failed().is_none(),
                Err(f) => {
                    let (stage, action) = old(self).steps()[old(self).done() as int];
                    &&& final(self).done() == old(self).done()
                    &&& final(self).failed() == Some((stage, classify_model(action, f@)))
                },
            },
    {
        match outcome {
            Ok(()) => {
                // The length is a usize, so the next index fits in one.
                let n = self.steps.len();
                assert(self.next < n);
                self.next = self.next + 1;
            },
            Err(f) => {
                let step = &self.steps[self.next];
                let kind = classify(&step.action, f);
                self.error = Some(StageError { stage: step.stage, kind });
            },
        }
    }

    /// Ends the run: `Ok` where every step succeeded, else the error that stopped it.
    pub fn finish(self) -> (r: Result<(), StageError>)
        requires
            self.wf(),
            self.failed().is_some() || self.done() == self.steps().len(),
        ensures
            r.is_ok() <==> self.failed().is_none(),
            r.is_err() ==> Some(r.unwrap_err()@) == self.failed(),
    {
        match self.error {
            None => Ok(()),
            Some(e) => Err(e),
        }
    }
}

/// A dry run of a buildable configuration carries out nothing, while its plan still
/// holds every stage's steps and the image with its three artifacts' destinations.
pub proof fn lemma_dry_run_reports_without_effects(root: Seq<char>, c: CommonArgs)
    requires
        c.dry_run,
        cargo_target(c.arch).is_some(),
    ensures
        performed_steps(mode_of(c.dry_run), pipeline_steps(root, c)) == Seq::<
            (Stage, ActionModel),
        >::empty(),
        pipeline_steps(root, c).last() == (
            Stage::Image,
            ActionModel::AssembleImage(
                image_layout(
                    out_base(root, c.arch, c.platform, c.release),
                    "spencer.img"@,
                    64,
                    efi_artifact(root, c),
                    init_artifact(root, c),
                    kernel_artifact(root, c),
                ),
            ),
        ),
{
}

} // verus!

use vstd::prelude::*;

verus! {

/// Target architecture of a build.
#[derive(Clone, Copy, Debug, PartialEq, Eq, Structural)]
pub enum Arch {
    X86_64,
    Aarch64,
    Riscv64,
}

/// Target platform of a build.
#[derive(Clone, Copy, Debug, PartialEq, Eq, Structural)]
pub enum Platform {
    Qemu,
}

/// Options shared by every command: the build configuration.
#[derive(Clone, Copy, Debug, PartialEq, Eq, Structural)]
pub struct CommonArgs {
    pub arch: Arch,
    pub platform: Platform,
    pub release: bool,
    pub verbose: bool,
    pub dry_run: bool,
}

/// Options of the `build` command.
#[derive(Clone, Copy, Debug, PartialEq, Eq, Structural)]
pub struct BuildArgs {
    pub common: CommonArgs,
}

/// Options of the `run` command.
#[derive(Clone, Copy, Debug, PartialEq, Eq, Structural)]
pub struct RunArgs {
    pub common: CommonArgs,
    /// Let a remote debugger attach to the virtual machine.
    pub gdb: bool,
    /// Halt the virtual machine's CPU at start.
    pub stop: bool,
}

/// The two commands of the command line.
#[derive(Clone, Copy, Debug, PartialEq, Eq, Structural)]
pub enum Command {
    Build(BuildArgs),
    Run(RunArgs),
}

/// A parsed command line.
#[derive(Clone, Copy, Debug, PartialEq, Eq, Structural)]
pub struct Cli {
    pub command: Command,
}

impl Cli {
    /// The build configuration of the command, whichever it is.
    pub fn common(&self) -> (r: CommonArgs)
        ensures
            r == match self.command {
                Command::Build(b) => b.common,
                Command::Run(a) => a.common,
            },
    {
        match self.command {
            Command::Build(b) => b.common,
            Command::Run(a) => a.common,
        }
    }
}

} // verus!

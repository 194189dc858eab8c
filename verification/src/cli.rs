//! The command line arguments of the husky program.
use vstd::prelude::*;

verus! {

/// A program to install git pre-commit and pre-push hooks in a
/// cross platform supported way.
pub struct HuskyArgs {
    /// The command to run.
    pub command: Commands,
}

/// The commands of the husky program.
pub enum Commands {
    /// Installs the husky hooks into the git repository.
    Install(InstallArgs),
    /// Uninstalls the husky hooks from the git repository.
    Uninstall,
    /// Creates or appends a git hook (set pre-commit -c "echo cargo husky is awesome!")
    SetHook(SetArgs),
    /// Run tasks
    Run(RunArgs),
    /// List available tasks
    List,
}

/// The arguments for installing the git hooks.
pub struct InstallArgs {
    /// Define the hooks in the specified directory.
    pub directory: String,
}

/// The arguments to add a git hook and append commands to the scripts.
pub struct SetArgs {
    /// The git hook to add (pre-commit, pre-push, etc)
    pub hook: String,
    /// The command to write to the hook
    pub command: String,
}

/// The arguments to execute tasks defined by the task runner.
pub struct RunArgs {
    /// The name of the task to run
    pub name: Option<String>,
    /// The group name of the tasks to run
    pub group: Option<String>,
    /// Pass custom arguments to tasks
    pub args: Option<Vec<String>>,
}

impl Default for InstallArgs {
    /// The hooks go to `.husky` unless another directory is given.
    fn default() -> (res: Self)
        ensures
            res.directory@ == ".husky"@,
    {
        InstallArgs { directory: String::from_str(".husky") }
    }
}

impl SetArgs {
    /// The arguments to set `hook` with no command, which is the default of `--command`.
    pub fn for_hook(hook: String) -> (res: Self)
        ensures
            res.hook == hook,
            res.command@ == Seq::<char>::empty(),
    {
        SetArgs { hook, command: String::new() }
    }
}

} // verus!

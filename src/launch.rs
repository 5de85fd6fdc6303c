use vstd::prelude::*;

verus! {

/// Why the interactive git client could not be started.
#[derive(Debug, Clone, Copy, PartialEq, Eq, Structural)]
pub enum LaunchError {
    /// The process could not be spawned.
    ProcessLaunchError,
}

/// The program and arguments that start the interactive git client, to be run
/// detached with the repository directory as working directory.
#[derive(Debug, Clone)]
pub struct LaunchPlan {
    pub program: String,
    pub args: Vec<String>,
}

/// On Windows the client is started through `cmd /C start` so that it gets a
/// console window of its own; elsewhere `lazygit` is run directly.
pub fn launch_plan(windows: bool) -> (plan: LaunchPlan)
    ensures
        windows ==> plan.program@ == "cmd"@ && plan.args@.len() == 3 && plan.args@[0]@ == "/C"@
            && plan.args@[1]@ == "start"@ && plan.args@[2]@ == "lazygit"@,
        !windows ==> plan.program@ == "lazygit"@ && plan.args@.len() == 0,
{
    let mut args: Vec<String> = Vec::new();
    if windows {
        args.push("/C".to_owned());
        args.push("start".to_owned());
        args.push("lazygit".to_owned());
        LaunchPlan { program: "cmd".to_owned(), args }
    } else {
        LaunchPlan { program: "lazygit".to_owned(), args }
    }
}

} // verus!

//! Worktree management and worktree safety hooks: what each operation
//! reports.

use vstd::prelude::*;

verus! {

/// Worktree manager.
pub struct WorktreeManager;

impl WorktreeManager {
    /// A worktree manager.
    pub fn new() -> (r: Self) {
        WorktreeManager
    }

    /// Create a worktree from a branch (the current one where none is
    /// named): the line the operation reports.
    pub fn create(&self, name: &str, branch: Option<&str>) -> (r: Result<String, String>)
        ensures
            r matches Ok(line) && line@ == "Creating worktree: "@ + name@ + " from "@ + match branch {
                Some(b) => b@,
                None => "current branch"@,
            },
    {
        let mut line = "Creating worktree: ".to_owned();
        line.append(name);
        line.append(" from ");
        match branch {
            Some(b) => line.append(b),
            None => line.append("current branch"),
        }
        Ok(line)
    }

    /// List worktrees: the line the operation reports.
    pub fn list(&self) -> (r: Result<String, String>)
        ensures
            r matches Ok(line) && line@ == "Listing worktrees..."@,
    {
        Ok("Listing worktrees...".to_owned())
    }

    /// Check worktree safety: the line the operation reports.
    pub fn check_safety(&self) -> (r: Result<String, String>)
        ensures
            r matches Ok(line) && line@ == "Checking worktree safety..."@,
    {
        Ok("Checking worktree safety...".to_owned())
    }
}

/// Manager of worktree safety hooks.
pub struct HookManager;

impl HookManager {
    /// A hook manager.
    pub fn new() -> (r: Self) {
        HookManager
    }

    /// Run a hook: the line the operation reports.
    pub fn run(&self, hook_name: &str) -> (r: Result<String, String>)
        ensures
            r matches Ok(line) && line@ == "Running hook: "@ + hook_name@,
    {
        let mut line = "Running hook: ".to_owned();
        line.append(hook_name);
        Ok(line)
    }

    /// Generate the safety hooks: the line the operation reports.
    pub fn generate_safety_hooks(&self) -> (r: Result<String, String>)
        ensures
            r matches Ok(line) && line@ == "Generating worktree safety hooks..."@,
    {
        Ok("Generating worktree safety hooks...".to_owned())
    }

    /// Install the safety hooks: the line the operation reports.
    pub fn install_safety_hooks(&self) -> (r: Result<String, String>)
        ensures
            r matches Ok(line) && line@ == "Installing worktree safety hooks..."@,
    {
        Ok("Installing worktree safety hooks...".to_owned())
    }
}

} // verus!

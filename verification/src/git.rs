use vstd::prelude::*;

use crate::command::{command, CommandSpec, CommandView};

verus! {

/// Where a website's sources come from and where they are checked out.
pub struct GitRepository {
    pub clone_id: String,
    pub branch: String,
    pub working_dir: String,
}

/// `git clone -b <branch> <clone_id> <working_dir>`.
pub open spec fn clone_command_view(repo: GitRepository) -> CommandView {
    CommandView {
        program: "git"@,
        args: seq!["clone"@, "-b"@, repo.branch@, repo.clone_id@, repo.working_dir@],
    }
}

/// `git -C <working_dir> pull`.
pub open spec fn pull_command_view(repo: GitRepository) -> CommandView {
    CommandView { program: "git"@, args: seq!["-C"@, repo.working_dir@, "pull"@] }
}

/// `git -C <working_dir> push`.
pub open spec fn push_command_view(repo: GitRepository) -> CommandView {
    CommandView { program: "git"@, args: seq!["-C"@, repo.working_dir@, "push"@] }
}

impl GitRepository {
    /// The command that clones the repository's branch into its working folder.
    pub fn clone_command(&self) -> (cmd: CommandSpec)
        ensures
            cmd@ == clone_command_view(*self),
    {
        let mut cmd = command("git");
        cmd.arg("clone");
        cmd.arg("-b");
        cmd.arg(self.branch.as_str());
        cmd.arg(self.clone_id.as_str());
        cmd.arg(self.working_dir.as_str());
        assert(cmd@.args =~= clone_command_view(*self).args);
        cmd
    }

    /// The command that pulls the latest changes into the working folder.
    pub fn pull_command(&self) -> (cmd: CommandSpec)
        ensures
            cmd@ == pull_command_view(*self),
    {
        let mut cmd = command("git");
        cmd.arg("-C");
        cmd.arg(self.working_dir.as_str());
        cmd.arg("pull");
        assert(cmd@.args =~= pull_command_view(*self).args);
        cmd
    }

    /// The command that pushes the working folder's commits.
    pub fn push_command(&self) -> (cmd: CommandSpec)
        ensures
            cmd@ == push_command_view(*self),
    {
        let mut cmd = command("git");
        cmd.arg("-C");
        cmd.arg(self.working_dir.as_str());
        cmd.arg("push");
        assert(cmd@.args =~= push_command_view(*self).args);
        cmd
    }
}

} // verus!

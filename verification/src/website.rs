use vstd::prelude::*;

use crate::command::{CommandSpec, CommandView};
use crate::git::{clone_command_view, pull_command_view, push_command_view, GitRepository};
use crate::text::{join_path, path_join};
use crate::utilities::{lemma_joined_names_differ, paths_equal, same_path};

verus! {

/// How a website's published folder is made from its sources.
#[derive(Clone, Copy, PartialEq, Eq, Structural, Debug)]
pub enum ContentProcessor {
    /// A processor the configuration named but the tool does not know.
    Unknown,
    /// Built with the `hugo` site generator.
    Hugo,
    /// Published as the sources stand, copied file by file (`None` in the
    /// configuration).
    Verbatim,
}

/// One website: where its sources live, how it is built and where it is
/// published.
pub struct Website {
    pub id: String,
    pub content_processor: ContentProcessor,
    pub processor_root: String,
    pub github_webhook_secret_env_key: String,
    pub webroot: String,
    pub index: bool,
    pub git: GitRepository,
    pub ingest_token_env_key: Option<String>,
    pub content_root: String,
}

/// The `.git` folder inside the website's working folder.
pub open spec fn git_dir_view(w: Website) -> Seq<char> {
    path_join(w.git.working_dir@, ".git"@)
}

/// The `logs` folder of the website's web root.
pub open spec fn logs_dir_view(w: Website) -> Seq<char> {
    path_join(w.webroot@, "logs"@)
}

/// The `public` link of the web root, which names the folder being served.
pub open spec fn live_link_view(w: Website) -> Seq<char> {
    path_join(w.webroot@, "public"@)
}

/// One of the two build folders of the web root: `public_2` when `second`,
/// else `public_1`.
pub open spec fn slot_view(w: Website, second: bool) -> Seq<char> {
    path_join(w.webroot@, if second { "public_2"@ } else { "public_1"@ })
}

/// Whether the next build goes to the second folder: exactly when the live
/// link currently names the first one.
pub open spec fn second_slot_chosen(w: Website, live_target: Option<Seq<char>>) -> bool {
    match live_target {
        Some(t) => same_path(t, slot_view(w, false)),
        None => false,
    }
}

/// The command that brings the sources up to date: a pull where a checkout
/// is already there, a clone where not.
pub open spec fn update_command_view(w: Website, git_dir_exists: bool) -> CommandView {
    if git_dir_exists {
        pull_command_view(w.git)
    } else {
        clone_command_view(w.git)
    }
}

/// Law: the two build folders of a web root are different paths.
pub proof fn lemma_build_slots_differ(w: Website)
    ensures
        !same_path(slot_view(w, false), slot_view(w, true)),
{
    reveal_strlit("public_1");
    reveal_strlit("public_2");
    let first = "public_1"@;
    let second = "public_2"@;
    assert(first.len() == 8 && second.len() == 8);
    assert(first[7] != second[7]);
    assert(!first.contains('/')) by {
        if first.contains('/') {
            let k = choose|k: int| 0 <= k < first.len() && first[k] == '/';
            assert(first[k] != '/');
        }
    }
    assert(!second.contains('/')) by {
        if second.contains('/') {
            let k = choose|k: int| 0 <= k < second.len() && second[k] == '/';
            assert(second[k] != '/');
        }
    }
    assert(first != seq!['.']);
    assert(second != seq!['.']);
    lemma_joined_names_differ(w.webroot@, first, second);
}

impl Website {
    /// The `.git` folder whose presence tells whether the sources are checked out.
    pub fn git_dir(&self) -> (path: String)
        ensures
            path@ == git_dir_view(*self),
    {
        join_path(self.git.working_dir.as_str(), ".git")
    }

    /// The web root's `logs` folder.
    pub fn logs_dir(&self) -> (path: String)
        ensures
            path@ == logs_dir_view(*self),
    {
        join_path(self.webroot.as_str(), "logs")
    }

    /// The web root's `public` link.
    pub fn live_link(&self) -> (path: String)
        ensures
            path@ == live_link_view(*self),
    {
        join_path(self.webroot.as_str(), "public")
    }

    /// One of the two build folders.
    pub fn build_slot(&self, second: bool) -> (path: String)
        ensures
            path@ == slot_view(*self, second),
    {
        if second {
            join_path(self.webroot.as_str(), "public_2")
        } else {
            join_path(self.webroot.as_str(), "public_1")
        }
    }

    /// Whether the next build goes to the second build folder, given what the
    /// live link names now (`None` where there is no link to read).
    pub fn chooses_second_slot(&self, live_target: Option<&str>) -> (second: bool)
        ensures
            second == second_slot_chosen(
                *self,
                match live_target {
                    Some(t) => Some(t@),
                    None => None,
                },
            ),
            (live_target matches Some(t) && t@ == slot_view(*self, false)) ==> second,
            live_target matches Some(t) ==> !same_path(t@, slot_view(*self, second)),
    {
        proof {
            lemma_build_slots_differ(*self);
        }
        match live_target {
            Some(t) => {
                let first = self.build_slot(false);
                paths_equal(t, first.as_str())
            },
            None => false,
        }
    }

    /// Decides how to bring the sources up to date, given whether the `.git`
    /// folder exists: the command to run.
    pub fn update_sources(&self, git_dir_exists: bool) -> (cmd: CommandSpec)
        ensures
            cmd@ == update_command_view(*self, git_dir_exists),
    {
        if git_dir_exists {
            self.git.pull_command()
        } else {
            self.git.clone_command()
        }
    }

    /// The command that pushes the website's committed changes.
    pub fn push(&self) -> (cmd: CommandSpec)
        ensures
            cmd@ == push_command_view(self.git),
    {
        self.git.push_command()
    }
}

} // verus!

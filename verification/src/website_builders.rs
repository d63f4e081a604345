use vstd::prelude::*;

use crate::command::{command, CommandSpec, CommandView};
use crate::job::{Action, ActionView};
use crate::website::Website;

verus! {

/// `hugo --quiet --ignoreCache --source <processor_root> --destination <target>`.
pub open spec fn hugo_command_view(w: Website, target: Seq<char>) -> CommandView {
    CommandView {
        program: "hugo"@,
        args: seq!["--quiet"@, "--ignoreCache"@, "--source"@, w.processor_root@, "--destination"@, target],
    }
}

/// `pagefind --site <target>`.
pub open spec fn index_command_view(target: Seq<char>) -> CommandView {
    CommandView { program: "pagefind"@, args: seq!["--site"@, target] }
}

/// The command that builds the website with Hugo into the target folder.
pub fn build_with_hugo(website: &Website, target_folder_for_build: &str) -> (cmd: CommandSpec)
    ensures
        cmd@ == hugo_command_view(*website, target_folder_for_build@),
{
    let mut cmd = command("hugo");
    cmd.arg("--quiet");
    cmd.arg("--ignoreCache");
    cmd.arg("--source");
    cmd.arg(website.processor_root.as_str());
    cmd.arg("--destination");
    cmd.arg(target_folder_for_build);
    assert(cmd@.args =~= hugo_command_view(*website, target_folder_for_build@).args);
    cmd
}

/// The copy that publishes the website's sources as they stand: its whole
/// processor root into the target folder.
pub fn build_with_verbatim_copy(website: &Website, target_folder_for_build: &str) -> (step: Action)
    ensures
        step@ == (ActionView::CopyDirAll {
            from: website.processor_root@,
            to: target_folder_for_build@,
        }),
{
    Action::CopyDirAll {
        from: website.processor_root.clone(),
        to: target_folder_for_build.to_owned(),
    }
}

/// The command that builds the search index of the built folder.
pub fn build_index(target_folder_for_build: &str) -> (cmd: CommandSpec)
    ensures
        cmd@ == index_command_view(target_folder_for_build@),
{
    let mut cmd = command("pagefind");
    cmd.arg("--site");
    cmd.arg(target_folder_for_build);
    assert(cmd@.args =~= index_command_view(target_folder_for_build@).args);
    cmd
}

} // verus!

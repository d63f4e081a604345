use vstd::prelude::*;

use crate::command::{CommandSpec, CommandView};
use crate::text::path_join;
use crate::utilities::same_path;
use crate::git::{clone_command_view, pull_command_view, push_command_view};
use crate::website::{lemma_build_slots_differ, 
    git_dir_view, live_link_view, logs_dir_view, second_slot_chosen, slot_view,
    update_command_view, ContentProcessor, Website,
};
use crate::website_builders::{
    build_index, build_with_hugo, build_with_verbatim_copy, hugo_command_view, index_command_view,
};

verus! {

/// What the outside world answers to the last action.
pub enum Event {
    /// The first event of a job, and the answer to a `Report`.
    Begin,
    /// Whether the path of a `CheckExists` exists.
    Exists(bool),
    /// How a command, a folder or file operation, or a copy went.
    Outcome(Result<(), String>),
    /// What the link of a `ReadLink` names; `None` where it cannot be read.
    Link(Option<String>),
}

/// Outside work that a job asks for next.
pub enum Action {
    CheckExists(String),
    RunCommand(CommandSpec),
    CreateDirAll(String),
    ReadLink(String),
    RemoveDirAll(String),
    RemoveFile(String),
    CopyDirAll { from: String, to: String },
    CreateSymlink { target: String, link: String },
    /// One website of a batch is done, with this outcome.
    Report { site: usize, outcome: Result<(), String> },
    /// The job is over, with this outcome.
    Finish(Result<(), String>),
}

/// What an `Action` holds, as texts.
pub enum ActionView {
    CheckExists(Seq<char>),
    RunCommand(CommandView),
    CreateDirAll(Seq<char>),
    ReadLink(Seq<char>),
    RemoveDirAll(Seq<char>),
    RemoveFile(Seq<char>),
    CopyDirAll { from: Seq<char>, to: Seq<char> },
    CreateSymlink { target: Seq<char>, link: Seq<char> },
    Report { site: usize, outcome: Result<(), Seq<char>> },
    Finish(Result<(), Seq<char>>),
}

/// An outcome with its error message taken as text.
pub open spec fn outcome_view(r: Result<(), String>) -> Result<(), Seq<char>> {
    match r {
        Ok(()) => Ok(()),
        Err(m) => Err(m@),
    }
}

/// A link target taken as text.
pub open spec fn link_view(l: Option<String>) -> Option<Seq<char>> {
    match l {
        Some(t) => Some(t@),
        None => None,
    }
}

impl View for Action {
    type V = ActionView;

    open spec fn view(&self) -> ActionView {
        match self {
            Action::CheckExists(p) => ActionView::CheckExists(p@),
            Action::RunCommand(c) => ActionView::RunCommand(c@),
            Action::CreateDirAll(p) => ActionView::CreateDirAll(p@),
            Action::ReadLink(p) => ActionView::ReadLink(p@),
            Action::RemoveDirAll(p) => ActionView::RemoveDirAll(p@),
            Action::RemoveFile(p) => ActionView::RemoveFile(p@),
            Action::CopyDirAll { from, to } => ActionView::CopyDirAll { from: from@, to: to@ },
            Action::CreateSymlink { target, link } => ActionView::CreateSymlink {
                target: target@,
                link: link@,
            },
            Action::Report { site, outcome } => ActionView::Report {
                site: *site,
                outcome: outcome_view(*outcome),
            },
            Action::Finish(r) => ActionView::Finish(outcome_view(*r)),
        }
    }
}

/// Where a website job stands. `second` says which of the two build folders
/// the build goes to.
#[derive(Clone, Copy, PartialEq, Eq, Structural, Debug)]
pub enum Phase {
    Start,
    AwaitGitDir,
    AwaitSources,
    AwaitLogsDir,
    AwaitLiveLink,
    AwaitTargetExists { second: bool },
    AwaitTargetRemoved { second: bool },
    AwaitTargetCreated { second: bool },
    AwaitBuilt { second: bool },
    AwaitIndexed { second: bool },
    AwaitLinkExists { second: bool },
    AwaitLinkRemoved { second: bool },
    AwaitLinked,
    StartPush,
    AwaitPushed,
    Done,
}

/// The error a build ends with when the website names no known processor.
pub open spec fn unrecognised_message() -> Seq<char> {
    "Unrecognised content processor for website"@
}

/// Whether `event` answers what a job in `phase` waits for. A finished job
/// waits for nothing.
pub open spec fn expects(phase: Phase, event: Event) -> bool {
    match phase {
        Phase::Start | Phase::StartPush => event is Begin,
        Phase::AwaitGitDir | Phase::AwaitTargetExists { .. } | Phase::AwaitLinkExists { .. } => event is Exists,
        Phase::AwaitLiveLink => event is Link,
        Phase::Done => false,
        _ => event is Outcome,
    }
}

/// The step once the target folder is ready: the build itself, or the end of
/// the job where the processor is unknown.
pub open spec fn build_step(w: Website, second: bool) -> (Phase, ActionView) {
    match w.content_processor {
        ContentProcessor::Hugo => (
            Phase::AwaitBuilt { second },
            ActionView::RunCommand(hugo_command_view(w, slot_view(w, second))),
        ),
        ContentProcessor::Verbatim => (
            Phase::AwaitBuilt { second },
            ActionView::CopyDirAll { from: w.processor_root@, to: slot_view(w, second) },
        ),
        ContentProcessor::Unknown => (Phase::Done, ActionView::Finish(Err(unrecognised_message()))),
    }
}

/// The step that makes the live link name the built folder.
pub open spec fn link_step(w: Website, second: bool) -> (Phase, ActionView) {
    (
        Phase::AwaitLinked,
        ActionView::CreateSymlink { target: slot_view(w, second), link: live_link_view(w) },
    )
}

/// How a website job moves on: from its phase and the answer to its last
/// action, to its next phase and the next action.
///
/// Processing a website brings its sources up to date (clone or pull), makes
/// the `logs` folder, reads the live link, empties and makes the build folder
/// that the link does not name, builds into it (Hugo or a copy), indexes it
/// where the website asks for an index, and points the live link at it.
/// Pushing runs one push command. Any failure ends the job with its message.
pub open spec fn next(w: Website, phase: Phase, event: Event) -> (Phase, ActionView) {
    match (phase, event) {
        (Phase::Start, _) => (Phase::AwaitGitDir, ActionView::CheckExists(git_dir_view(w))),
        (Phase::AwaitGitDir, Event::Exists(exists)) => (
            Phase::AwaitSources,
            ActionView::RunCommand(update_command_view(w, exists)),
        ),
        (Phase::AwaitSources, Event::Outcome(Ok(()))) => (
            Phase::AwaitLogsDir,
            ActionView::CreateDirAll(logs_dir_view(w)),
        ),
        (Phase::AwaitLogsDir, Event::Outcome(Ok(()))) => (
            Phase::AwaitLiveLink,
            ActionView::ReadLink(live_link_view(w)),
        ),
        (Phase::AwaitLiveLink, Event::Link(l)) => {
            let second = second_slot_chosen(w, link_view(l));
            (Phase::AwaitTargetExists { second }, ActionView::CheckExists(slot_view(w, second)))
        },
        (Phase::AwaitTargetExists { second }, Event::Exists(exists)) => if exists {
            (Phase::AwaitTargetRemoved { second }, ActionView::RemoveDirAll(slot_view(w, second)))
        } else {
            (Phase::AwaitTargetCreated { second }, ActionView::CreateDirAll(slot_view(w, second)))
        },
        (Phase::AwaitTargetRemoved { second }, Event::Outcome(Ok(()))) => (
            Phase::AwaitTargetCreated { second },
            ActionView::CreateDirAll(slot_view(w, second)),
        ),
        (Phase::AwaitTargetCreated { second }, Event::Outcome(Ok(()))) => build_step(w, second),
        (Phase::AwaitBuilt { second }, Event::Outcome(Ok(()))) => if w.index {
            (
                Phase::AwaitIndexed { second },
                ActionView::RunCommand(index_command_view(slot_view(w, second))),
            )
        } else {
            (Phase::AwaitLinkExists { second }, ActionView::CheckExists(live_link_view(w)))
        },
        (Phase::AwaitIndexed { second }, Event::Outcome(Ok(()))) => (
            Phase::AwaitLinkExists { second },
            ActionView::CheckExists(live_link_view(w)),
        ),
        (Phase::AwaitLinkExists { second }, Event::Exists(exists)) => if exists {
            (Phase::AwaitLinkRemoved { second }, ActionView::RemoveFile(live_link_view(w)))
        } else {
            link_step(w, second)
        },
        (Phase::AwaitLinkRemoved { second }, Event::Outcome(Ok(()))) => link_step(w, second),
        (Phase::AwaitLinked, Event::Outcome(r)) => (Phase::Done, ActionView::Finish(outcome_view(r))),
        (Phase::StartPush, _) => (
            Phase::AwaitPushed,
            ActionView::RunCommand(push_command_view(w.git)),
        ),
        (Phase::AwaitPushed, Event::Outcome(r)) => (Phase::Done, ActionView::Finish(outcome_view(r))),
        (_, Event::Outcome(Err(m))) => (Phase::Done, ActionView::Finish(Err(m@))),
        _ => (Phase::Done, ActionView::Finish(Ok(()))),
    }
}

/// The work of processing or pushing one website, one outside action at a
/// time.
pub struct WebsiteJob {
    pub phase: Phase,
}

impl WebsiteJob {
    /// A job that processes a website: update its sources, then build it.
    pub fn processing() -> (job: WebsiteJob)
        ensures
            job.phase == Phase::Start,
    {
        WebsiteJob { phase: Phase::Start }
    }

    /// A job that pushes a website's changes.
    pub fn pushing() -> (job: WebsiteJob)
        ensures
            job.phase == Phase::StartPush,
    {
        WebsiteJob { phase: Phase::StartPush }
    }

    /// Whether the job is over.
    pub fn is_done(&self) -> (done: bool)
        ensures
            done == (self.phase == Phase::Done),
    {
        self.phase == Phase::Done
    }

    /// Takes the answer to the last action and gives the next action.
    pub fn advance(&mut self, website: &Website, event: Event) -> (action: Action)
        requires
            expects(old(self).phase, event),
        ensures
            (final(self).phase, action@) == next(*website, old(self).phase, event),
            old(self).phase == Phase::AwaitLiveLink && (event matches Event::Link(Some(t)) && t@
                == slot_view(*website, false)) ==> final(self).phase == (Phase::AwaitTargetExists {
                second: true,
            }),
    {
        match (self.phase, event) {
            (Phase::Start, _) => {
                self.phase = Phase::AwaitGitDir;
                Action::CheckExists(website.git_dir())
            },
            (Phase::AwaitGitDir, Event::Exists(exists)) => {
                self.phase = Phase::AwaitSources;
                Action::RunCommand(website.update_sources(exists))
            },
            (Phase::AwaitSources, Event::Outcome(Ok(()))) => {
                self.phase = Phase::AwaitLogsDir;
                Action::CreateDirAll(website.logs_dir())
            },
            (Phase::AwaitLogsDir, Event::Outcome(Ok(()))) => {
                self.phase = Phase::AwaitLiveLink;
                Action::ReadLink(website.live_link())
            },
            (Phase::AwaitLiveLink, Event::Link(l)) => {
                let second = match &l {
                    Some(t) => website.chooses_second_slot(Some(t.as_str())),
                    None => website.chooses_second_slot(None),
                };
                self.phase = Phase::AwaitTargetExists { second };
                Action::CheckExists(website.build_slot(second))
            },
            (Phase::AwaitTargetExists { second }, Event::Exists(exists)) => {
                if exists {
                    self.phase = Phase::AwaitTargetRemoved { second };
                    Action::RemoveDirAll(website.build_slot(second))
                } else {
                    self.phase = Phase::AwaitTargetCreated { second };
                    Action::CreateDirAll(website.build_slot(second))
                }
            },
            (Phase::AwaitTargetRemoved { second }, Event::Outcome(Ok(()))) => {
                self.phase = Phase::AwaitTargetCreated { second };
                Action::CreateDirAll(website.build_slot(second))
            },
            (Phase::AwaitTargetCreated { second }, Event::Outcome(Ok(()))) => {
                let target = website.build_slot(second);
                match website.content_processor {
                    ContentProcessor::Hugo => {
                        self.phase = Phase::AwaitBuilt { second };
                        Action::RunCommand(build_with_hugo(website, target.as_str()))
                    },
                    ContentProcessor::Verbatim => {
                        self.phase = Phase::AwaitBuilt { second };
                        build_with_verbatim_copy(website, target.as_str())
                    },
                    ContentProcessor::Unknown => {
                        self.phase = Phase::Done;
                        proof {
                            reveal_strlit("Unrecognised content processor for website");
                        }
                        Action::Finish(
                            Err(String::from_str("Unrecognised content processor for website")),
                        )
                    },
                }
            },
            (Phase::AwaitBuilt { second }, Event::Outcome(Ok(()))) => {
                if website.index {
                    self.phase = Phase::AwaitIndexed { second };
                    let target = website.build_slot(second);
                    Action::RunCommand(build_index(target.as_str()))
                } else {
                    self.phase = Phase::AwaitLinkExists { second };
                    Action::CheckExists(website.live_link())
                }
            },
            (Phase::AwaitIndexed { second }, Event::Outcome(Ok(()))) => {
                self.phase = Phase::AwaitLinkExists { second };
                Action::CheckExists(website.live_link())
            },
            (Phase::AwaitLinkExists { second }, Event::Exists(exists)) => {
                if exists {
                    self.phase = Phase::AwaitLinkRemoved { second };
                    Action::RemoveFile(website.live_link())
                } else {
                    self.phase = Phase::AwaitLinked;
                    Action::CreateSymlink { target: website.build_slot(second), link: website.live_link() }
                }
            },
            (Phase::AwaitLinkRemoved { second }, Event::Outcome(Ok(()))) => {
                self.phase = Phase::AwaitLinked;
                Action::CreateSymlink { target: website.build_slot(second), link: website.live_link() }
            },
            (Phase::AwaitLinked, Event::Outcome(r)) => {
                self.phase = Phase::Done;
                Action::Finish(r)
            },
            (Phase::StartPush, _) => {
                self.phase = Phase::AwaitPushed;
                Action::RunCommand(website.push())
            },
            (Phase::AwaitPushed, Event::Outcome(r)) => {
                self.phase = Phase::Done;
                Action::Finish(r)
            },
            (_, Event::Outcome(Err(m))) => {
                self.phase = Phase::Done;
                Action::Finish(Err(m))
            },
            (_, _) => {
                self.phase = Phase::Done;
                Action::Finish(Ok(()))
            },
        }
    }
}

/// Whether the event reports an outside step that went well.
pub open spec fn succeeded(event: Event) -> bool {
    event matches Event::Outcome(Ok(_))
}

/// How far a website job has come: every step moves it forward, so a job
/// ends after at most thirteen answers.
pub open spec fn rank(phase: Phase) -> nat {
    match phase {
        Phase::Start => 0,
        Phase::AwaitGitDir => 1,
        Phase::AwaitSources => 2,
        Phase::AwaitLogsDir => 3,
        Phase::AwaitLiveLink => 4,
        Phase::AwaitTargetExists { .. } => 5,
        Phase::AwaitTargetRemoved { .. } => 6,
        Phase::AwaitTargetCreated { .. } => 7,
        Phase::AwaitBuilt { .. } => 8,
        Phase::AwaitIndexed { .. } => 9,
        Phase::AwaitLinkExists { .. } => 10,
        Phase::AwaitLinkRemoved { .. } => 11,
        Phase::StartPush => 11,
        Phase::AwaitLinked => 12,
        Phase::AwaitPushed => 12,
        Phase::Done => 13,
    }
}

/// The build folder a phase works on, once it is chosen.
pub open spec fn slot_of(phase: Phase) -> Option<bool> {
    match phase {
        Phase::AwaitTargetExists { second } => Some(second),
        Phase::AwaitTargetRemoved { second } => Some(second),
        Phase::AwaitTargetCreated { second } => Some(second),
        Phase::AwaitBuilt { second } => Some(second),
        Phase::AwaitIndexed { second } => Some(second),
        Phase::AwaitLinkExists { second } => Some(second),
        Phase::AwaitLinkRemoved { second } => Some(second),
        _ => None,
    }
}

/// Law: every step moves a job forward, and the job is over exactly when its
/// action is `Finish`.
pub proof fn lemma_job_progress(w: Website, phase: Phase, event: Event)
    requires
        expects(phase, event),
    ensures
        rank(next(w, phase, event).0) > rank(phase),
        rank(next(w, phase, event).0) <= 13,
        next(w, phase, event).1 is Finish <==> next(w, phase, event).0 == Phase::Done,
{
}

/// Law: an outside step that fails ends the job at once, with the failure's
/// message, and nothing more is done.
pub proof fn lemma_failure_ends_job(w: Website, phase: Phase, message: String)
    requires
        expects(phase, Event::Outcome(Err(message))),
    ensures
        next(w, phase, Event::Outcome(Err(message))) == (
            Phase::Done,
            ActionView::Finish(Err(message@)),
        ),
{
}

/// Law: once a build folder is chosen, the job keeps to it: the folder it
/// empties, makes, builds into, indexes and links is that folder, and the
/// link it sets is the web root's `public` link.
pub proof fn lemma_job_keeps_its_folder(w: Website, phase: Phase, event: Event)
    requires
        expects(phase, event),
        slot_of(phase) is Some,
    ensures
        ({
            let second = slot_of(phase)->0;
            let (after, action) = next(w, phase, event);
            &&& slot_of(after) is Some ==> slot_of(after) == Some(second)
            &&& action matches ActionView::RemoveDirAll(p) ==> p == slot_view(w, second)
            &&& action matches ActionView::CreateDirAll(p) ==> p == slot_view(w, second)
            &&& action matches ActionView::CopyDirAll { to, .. } ==> to == slot_view(w, second)
            &&& action matches ActionView::RunCommand(c) ==> (c == hugo_command_view(
                w,
                slot_view(w, second),
            ) || c == index_command_view(slot_view(w, second)))
            &&& action matches ActionView::CreateSymlink { target, link } ==> target == slot_view(
                w,
                second,
            ) && link == live_link_view(w)
        }),
{
}

/// Law: the live link is only switched after the build succeeded (and the
/// index, where the website asks for one): linking follows only the link
/// check, the link check only a successful build or index, the index only a
/// successful build of a website that asks for it, and the build only a
/// successful making of the build folder, for a known processor.
pub proof fn lemma_link_switched_only_after_build(w: Website, phase: Phase, event: Event)
    requires
        expects(phase, event),
    ensures
        next(w, phase, event).1 is CreateSymlink ==> (phase is AwaitLinkExists
            || phase is AwaitLinkRemoved),
        next(w, phase, event).0 is AwaitLinkRemoved ==> phase is AwaitLinkExists,
        next(w, phase, event).0 is AwaitLinkExists ==> ((phase is AwaitBuilt || phase is AwaitIndexed)
            && succeeded(event)),
        next(w, phase, event).0 is AwaitIndexed ==> (phase is AwaitBuilt && w.index && succeeded(
            event,
        )),
        next(w, phase, event).0 is AwaitBuilt ==> (phase is AwaitTargetCreated && succeeded(event)
            && w.content_processor != ContentProcessor::Unknown),
{
}

/// Law: the new build goes to the folder the live link does not name: to
/// `public_2` when the link names `public_1`, and to `public_1` otherwise
/// (also where there is no link). Whatever the link names, the chosen folder
/// (the only one the job empties, builds into and links, see
/// `lemma_job_keeps_its_folder`) is never the path the link names.
pub proof fn lemma_build_avoids_live_folder(w: Website, live_target: Option<String>)
    ensures
        ({
            let (after, action) = next(w, Phase::AwaitLiveLink, Event::Link(live_target));
            let second = match live_target {
                Some(t) => same_path(t@, slot_view(w, false)),
                None => false,
            };
            &&& after == Phase::AwaitTargetExists { second }
            &&& action == ActionView::CheckExists(slot_view(w, second))
            &&& live_target matches Some(t) ==> !same_path(t@, slot_view(w, second))
        }),
{
    lemma_build_slots_differ(w);
}

/// Law: successive builds alternate between the two build folders: where the
/// live link names the folder of the last build, the next build goes to the
/// other one.
pub proof fn lemma_builds_alternate(w: Website, second: bool, live_target: String)
    requires
        live_target@ == slot_view(w, second),
    ensures
        next(w, Phase::AwaitLiveLink, Event::Link(Some(live_target))).0 == (Phase::AwaitTargetExists {
            second: !second,
        }),
{
    lemma_build_slots_differ(w);
}

/// Law: processing starts by checking for the `.git` folder, then clones
/// the repository where there is none and pulls where there is one; when
/// that went well it makes the `logs` folder and then reads the live link.
pub proof fn lemma_sources_updated_first(w: Website)
    ensures
        next(w, Phase::Start, Event::Begin) == (
            Phase::AwaitGitDir,
            ActionView::CheckExists(path_join(w.git.working_dir@, ".git"@)),
        ),
        next(w, Phase::AwaitGitDir, Event::Exists(false)) == (
            Phase::AwaitSources,
            ActionView::RunCommand(clone_command_view(w.git)),
        ),
        next(w, Phase::AwaitGitDir, Event::Exists(true)) == (
            Phase::AwaitSources,
            ActionView::RunCommand(pull_command_view(w.git)),
        ),
        next(w, Phase::AwaitSources, Event::Outcome(Ok(()))) == (
            Phase::AwaitLogsDir,
            ActionView::CreateDirAll(path_join(w.webroot@, "logs"@)),
        ),
        next(w, Phase::AwaitLogsDir, Event::Outcome(Ok(()))) == (
            Phase::AwaitLiveLink,
            ActionView::ReadLink(path_join(w.webroot@, "public"@)),
        ),
{
}

/// Law: whichever build folder was chosen, an existing one is removed before
/// it is made anew, a missing one is just made, and the build starts only in
/// a folder that was freshly made: the build step follows only a successful
/// making of the folder, which follows only a missing folder or a successful
/// removal.
pub proof fn lemma_build_folder_emptied_first(w: Website, second: bool, phase: Phase, event: Event)
    requires
        expects(phase, event),
    ensures
        next(w, Phase::AwaitTargetExists { second }, Event::Exists(true)) == (
            Phase::AwaitTargetRemoved { second },
            ActionView::RemoveDirAll(slot_view(w, second)),
        ),
        next(w, Phase::AwaitTargetExists { second }, Event::Exists(false)) == (
            Phase::AwaitTargetCreated { second },
            ActionView::CreateDirAll(slot_view(w, second)),
        ),
        next(w, Phase::AwaitTargetRemoved { second }, Event::Outcome(Ok(()))) == (
            Phase::AwaitTargetCreated { second },
            ActionView::CreateDirAll(slot_view(w, second)),
        ),
        next(w, phase, event).0 is AwaitTargetCreated ==> ((phase is AwaitTargetExists && event
            == Event::Exists(false)) || (phase is AwaitTargetRemoved && succeeded(event))),
{
}

/// Law: the build runs in the freshly made folder as the website's processor
/// says: Hugo builds into it, no processor copies the processor root into
/// it, and an unknown processor ends the job with its error.
pub proof fn lemma_build_as_processor_says(w: Website, second: bool)
    ensures
        w.content_processor == ContentProcessor::Hugo ==> next(
            w,
            Phase::AwaitTargetCreated { second },
            Event::Outcome(Ok(())),
        ) == (
            Phase::AwaitBuilt { second },
            ActionView::RunCommand(hugo_command_view(w, slot_view(w, second))),
        ),
        w.content_processor == ContentProcessor::Verbatim ==> next(
            w,
            Phase::AwaitTargetCreated { second },
            Event::Outcome(Ok(())),
        ) == (
            Phase::AwaitBuilt { second },
            ActionView::CopyDirAll { from: w.processor_root@, to: slot_view(w, second) },
        ),
        w.content_processor == ContentProcessor::Unknown ==> next(
            w,
            Phase::AwaitTargetCreated { second },
            Event::Outcome(Ok(())),
        ) == (Phase::Done, ActionView::Finish(Err(unrecognised_message()))),
{
}

/// Law: after a successful build, a website that asks for an index gets the
/// built folder indexed, whichever of the two folders it is, and only then is
/// the live link looked at; a website that does not ask for one goes straight
/// to the link.
pub proof fn lemma_index_follows_build(w: Website, second: bool)
    ensures
        w.index ==> next(w, Phase::AwaitBuilt { second }, Event::Outcome(Ok(()))) == (
            Phase::AwaitIndexed { second },
            ActionView::RunCommand(index_command_view(slot_view(w, second))),
        ),
        !w.index ==> next(w, Phase::AwaitBuilt { second }, Event::Outcome(Ok(()))) == (
            Phase::AwaitLinkExists { second },
            ActionView::CheckExists(live_link_view(w)),
        ),
        next(w, Phase::AwaitIndexed { second }, Event::Outcome(Ok(()))) == (
            Phase::AwaitLinkExists { second },
            ActionView::CheckExists(live_link_view(w)),
        ),
{
}

/// Law: whichever build folder was chosen, an existing live link is removed
/// before the new one is made, and a missing one is just made; the new link
/// names the built folder, and once it is made the job finishes with how
/// making it went.
pub proof fn lemma_old_link_replaced(w: Website, second: bool, made: Result<(), String>)
    ensures
        next(w, Phase::AwaitLinkExists { second }, Event::Exists(true)) == (
            Phase::AwaitLinkRemoved { second },
            ActionView::RemoveFile(live_link_view(w)),
        ),
        next(w, Phase::AwaitLinkExists { second }, Event::Exists(false)) == (
            Phase::AwaitLinked,
            ActionView::CreateSymlink { target: slot_view(w, second), link: live_link_view(w) },
        ),
        next(w, Phase::AwaitLinkRemoved { second }, Event::Outcome(Ok(()))) == (
            Phase::AwaitLinked,
            ActionView::CreateSymlink { target: slot_view(w, second), link: live_link_view(w) },
        ),
        next(w, Phase::AwaitLinked, Event::Outcome(made)) == (
            Phase::Done,
            ActionView::Finish(outcome_view(made)),
        ),
{
}

/// Law: pushing runs `git -C <working_dir> push` and finishes with how it
/// went.
pub proof fn lemma_push_runs_push(w: Website, pushed: Result<(), String>)
    ensures
        next(w, Phase::StartPush, Event::Begin) == (
            Phase::AwaitPushed,
            ActionView::RunCommand(push_command_view(w.git)),
        ),
        next(w, Phase::AwaitPushed, Event::Outcome(pushed)) == (
            Phase::Done,
            ActionView::Finish(outcome_view(pushed)),
        ),
{
}

} // verus!

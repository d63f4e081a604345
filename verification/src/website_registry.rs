use vstd::prelude::*;

use crate::job::{expects, lemma_job_progress, next, rank, Action, ActionView, Event, Phase, WebsiteJob};
use crate::git::{clone_command_view, pull_command_view};
use crate::text::{join_path, path_join};
use crate::website::{git_dir_view, Website};

verus! {

/// All websites the tool serves, with the folders their sources and their
/// published files go under.
pub struct WebsiteRegistry {
    pub source_root: String,
    pub docs_root: String,
    pub tmp_folder: String,
    pub websites: Vec<Website>,
}

/// Whether `new` is `old` with its folders placed under the registry's roots:
/// the working folder is `<source_root>/<id>`, the processor root is taken
/// inside it, and the web root is `<docs_root>/<id>`. Everything else stays.
pub open spec fn placed(old: Website, new: Website, source_root: Seq<char>, docs_root: Seq<char>) -> bool {
    &&& new.git.working_dir@ == path_join(source_root, old.id@)
    &&& new.processor_root@ == path_join(path_join(source_root, old.id@), old.processor_root@)
    &&& new.webroot@ == path_join(docs_root, old.id@)
    &&& new.id == old.id
    &&& new.content_processor == old.content_processor
    &&& new.github_webhook_secret_env_key == old.github_webhook_secret_env_key
    &&& new.index == old.index
    &&& new.git.clone_id == old.git.clone_id
    &&& new.git.branch == old.git.branch
    &&& new.ingest_token_env_key == old.ingest_token_env_key
    &&& new.content_root == old.content_root
}

/// Whether some website of `websites` has the id `id`.
pub open spec fn has_id(websites: Seq<Website>, id: Seq<char>) -> bool {
    exists|i: int| 0 <= i < websites.len() && (#[trigger] websites[i]).id@ == id
}

/// Where a batch over all websites stands.
#[derive(Clone, Copy, PartialEq, Eq, Structural, Debug)]
pub enum BatchPhase {
    /// About to start the website at `site`, or to finish if none is left.
    Next,
    /// Processing the website at `site`.
    Running,
    Finished,
}

/// Processing every website of the registry, one after the other.
pub struct BatchJob {
    pub site: usize,
    pub job: WebsiteJob,
    pub phase: BatchPhase,
}

/// Whether `event` answers what the batch waits for, `n` being the number of
/// websites.
pub open spec fn batch_expects(b: BatchJob, n: nat, event: Event) -> bool {
    match b.phase {
        BatchPhase::Next => event is Begin && b.site <= n,
        BatchPhase::Running => b.site < n && expects(b.job.phase, event),
        BatchPhase::Finished => false,
    }
}

/// How a batch moves on. A website's job runs as `next` says; when it ends,
/// its outcome is reported and the batch goes on with the next website,
/// whatever the outcome. After the last website the batch finishes, always
/// with success.
pub open spec fn batch_next(websites: Seq<Website>, b: BatchJob, event: Event) -> (BatchJob, ActionView) {
    match b.phase {
        BatchPhase::Next => if b.site < websites.len() {
            let (phase, action) = next(websites[b.site as int], Phase::Start, Event::Begin);
            (BatchJob { site: b.site, job: WebsiteJob { phase }, phase: BatchPhase::Running }, action)
        } else {
            (BatchJob { site: b.site, job: b.job, phase: BatchPhase::Finished }, ActionView::Finish(Ok(())))
        },
        BatchPhase::Running => {
            let (phase, action) = next(websites[b.site as int], b.job.phase, event);
            match action {
                ActionView::Finish(outcome) => (
                    BatchJob { site: (b.site + 1) as usize, job: WebsiteJob { phase }, phase: BatchPhase::Next },
                    ActionView::Report { site: b.site, outcome },
                ),
                _ => (BatchJob { site: b.site, job: WebsiteJob { phase }, phase: BatchPhase::Running }, action),
            }
        },
        BatchPhase::Finished => (b, ActionView::Finish(Ok(()))),
    }
}

impl BatchJob {
    /// Takes the answer to the last action and gives the next action.
    pub fn advance(&mut self, registry: &WebsiteRegistry, event: Event) -> (action: Action)
        requires
            batch_expects(*old(self), registry.websites@.len(), event),
        ensures
            (*final(self), action@) == batch_next(registry.websites@, *old(self), event),
    {
        match self.phase {
            BatchPhase::Next => {
                if self.site < registry.websites.len() {
                    let mut job = WebsiteJob::processing();
                    let action = job.advance(&registry.websites[self.site], Event::Begin);
                    self.job = job;
                    self.phase = BatchPhase::Running;
                    action
                } else {
                    self.phase = BatchPhase::Finished;
                    Action::Finish(Ok(()))
                }
            },
            BatchPhase::Running => {
                let n = registry.websites.len();
                assert(self.site < n);
                let mut job = WebsiteJob { phase: self.job.phase };
                let action = job.advance(&registry.websites[self.site], event);
                self.job = job;
                match action {
                    Action::Finish(outcome) => {
                        let site = self.site;
                        self.site = site + 1;
                        self.phase = BatchPhase::Next;
                        Action::Report { site, outcome }
                    },
                    other => other,
                }
            },
            BatchPhase::Finished => Action::Finish(Ok(())),
        }
    }

    /// Whether the batch is over.
    pub fn is_done(&self) -> (done: bool)
        ensures
            done == (self.phase == BatchPhase::Finished),
    {
        self.phase == BatchPhase::Finished
    }
}

/// How far a batch has come: every step moves it forward, and it never goes
/// past `15 * (n + 1)` for `n` websites.
pub open spec fn batch_rank(b: BatchJob) -> nat {
    match b.phase {
        BatchPhase::Next => 15 * (b.site as nat),
        BatchPhase::Running => 15 * (b.site as nat) + 1 + rank(b.job.phase),
        BatchPhase::Finished => 15 * (b.site as nat) + 15,
    }
}

/// Law: every step moves a batch forward, up to a bound set by the number of
/// websites, so a batch always ends.
pub proof fn lemma_batch_progress(websites: Seq<Website>, b: BatchJob, event: Event)
    requires
        websites.len() <= usize::MAX,
        batch_expects(b, websites.len(), event),
    ensures
        batch_rank(batch_next(websites, b, event).0) > batch_rank(b),
        batch_rank(batch_next(websites, b, event).0) <= 15 * (websites.len() + 1),
{
    if b.phase == BatchPhase::Running {
        lemma_job_progress(websites[b.site as int], b.job.phase, event);
    } else if b.phase == BatchPhase::Next && b.site < websites.len() {
        lemma_job_progress(websites[b.site as int], Phase::Start, Event::Begin);
    }
}

/// Law: the websites are processed one after the other, in the registry's
/// order; when one ends, its outcome is reported and the batch goes on with the
/// next one whether it succeeded or failed; the batch finishes only after the
/// last website, and always with success.
pub proof fn lemma_batch_goes_through_every_website(websites: Seq<Website>, b: BatchJob, event: Event)
    requires
        websites.len() <= usize::MAX,
        batch_expects(b, websites.len(), event),
    ensures
        ({
            let (after, action) = batch_next(websites, b, event);
            &&& (b.phase == BatchPhase::Next && b.site < websites.len()) ==> (after.site == b.site
                && after.phase == BatchPhase::Running && action == ActionView::CheckExists(
                git_dir_view(websites[b.site as int]),
            ))
            &&& action matches ActionView::Report { site, .. } ==> (site == b.site && after.site
                == b.site + 1 && after.phase == BatchPhase::Next)
            &&& action is Finish ==> (action == ActionView::Finish(Ok(())) && b.site
                == websites.len() && after.phase == BatchPhase::Finished)
        }),
{
    if b.phase == BatchPhase::Running {
        lemma_job_progress(websites[b.site as int], b.job.phase, event);
    }
}

/// Law: while a website is being processed, the batch runs that website's
/// job on the very answer it was given: it asks for what the job asks for, and
/// where the job finishes it reports the job's outcome for that website and
/// moves on to the next one.
pub proof fn lemma_batch_runs_the_website_job(websites: Seq<Website>, b: BatchJob, event: Event)
    requires
        websites.len() <= usize::MAX,
        batch_expects(b, websites.len(), event),
        b.phase == BatchPhase::Running,
    ensures
        ({
            let (phase, action) = next(websites[b.site as int], b.job.phase, event);
            let (after, batch_action) = batch_next(websites, b, event);
            &&& after.job.phase == phase
            &&& action matches ActionView::Finish(outcome) ==> (batch_action == (ActionView::Report {
                site: b.site,
                outcome,
            }) && after.site == b.site + 1 && after.phase == BatchPhase::Next)
            &&& !(action is Finish) ==> (batch_action == action && after.site == b.site
                && after.phase == BatchPhase::Running)
        }),
{
}

/// Law: in a batch, a website without a checkout is cloned and one with a
/// checkout is pulled, as when it is processed on its own.
pub proof fn lemma_batch_clones_or_pulls(websites: Seq<Website>, b: BatchJob)
    requires
        websites.len() <= usize::MAX,
        b.site < websites.len(),
        b.phase == BatchPhase::Running,
        b.job.phase == Phase::AwaitGitDir,
    ensures
        batch_next(websites, b, Event::Exists(false)).1 == ActionView::RunCommand(
            clone_command_view(websites[b.site as int].git),
        ),
        batch_next(websites, b, Event::Exists(true)).1 == ActionView::RunCommand(
            pull_command_view(websites[b.site as int].git),
        ),
{
}

impl WebsiteRegistry {
    /// The number of websites, held in one byte: the count wraps around at
    /// 256.
    pub fn count(&self) -> (n: u8)
        ensures
            n == self.websites@.len() % 256,
    {
        (self.websites.len() % 256) as u8
    }

    /// The first website with the id `id`, if there is one.
    pub fn get_website_by_id(&self, id: &str) -> (found: Option<&Website>)
        ensures
            match found {
                Some(w) => exists|i: int|
                    0 <= i < self.websites@.len() && *w == self.websites@[i] && self.websites@[i].id@
                        == id@ && forall|j: int| 0 <= j < i ==> self.websites@[j].id@ != id@,
                None => !has_id(self.websites@, id@),
            },
    {
        let wanted = id.to_owned();
        let mut i: usize = 0;
        while i < self.websites.len()
            invariant
                wanted@ == id@,
                i <= self.websites@.len(),
                forall|j: int| 0 <= j < i ==> self.websites@[j].id@ != id@,
            decreases self.websites@.len() - i,
        {
            if self.websites[i].id == wanted {
                return Some(&self.websites[i]);
            }
            i = i + 1;
        }
        None
    }

    /// Places every website's folders under the registry's roots (see
    /// `placed`). The roots themselves are made beforehand by the caller.
    pub fn initialise(&mut self)
        ensures
            final(self).source_root == old(self).source_root,
            final(self).docs_root == old(self).docs_root,
            final(self).tmp_folder == old(self).tmp_folder,
            final(self).websites@.len() == old(self).websites@.len(),
            forall|i: int|
                0 <= i < old(self).websites@.len() ==> placed(
                    #[trigger] old(self).websites@[i],
                    final(self).websites@[i],
                    old(self).source_root@,
                    old(self).docs_root@,
                ),
    {
        let mut pending: Vec<Website> = Vec::new();
        std::mem::swap(&mut pending, &mut self.websites);
        let ghost initial_sites = pending@;
        while pending.len() > 0
            invariant
                self.source_root == old(self).source_root,
                self.docs_root == old(self).docs_root,
                self.tmp_folder == old(self).tmp_folder,
                initial_sites == old(self).websites@,
                self.websites@.len() + pending@.len() == initial_sites.len(),
                pending@ == initial_sites.skip(self.websites@.len() as int),
                forall|i: int|
                    0 <= i < self.websites@.len() ==> placed(
                        #[trigger] initial_sites[i],
                        self.websites@[i],
                        old(self).source_root@,
                        old(self).docs_root@,
                    ),
            decreases pending@.len(),
        {
            let ghost done = self.websites@.len();
            let ghost before = pending@;
            let mut w = pending.remove(0);
            let site_dir = join_path(self.source_root.as_str(), w.id.as_str());
            w.processor_root = join_path(site_dir.as_str(), w.processor_root.as_str());
            w.webroot = join_path(self.docs_root.as_str(), w.id.as_str());
            w.git.working_dir = site_dir;
            self.websites.push(w);
            proof {
                assert(initial_sites[done as int] == before[0]);
                assert(pending@ =~= initial_sites.skip(self.websites@.len() as int));
            }
        }
    }

    /// The job that pushes `website`'s changes.
    pub fn push_website(&self, website: &Website) -> (job: WebsiteJob)
        ensures
            job.phase == Phase::StartPush,
    {
        WebsiteJob::pushing()
    }

    /// The job that processes `website`: update its sources, then build and
    /// publish it.
    pub fn process_website(&self, website: &Website) -> (job: WebsiteJob)
        ensures
            job.phase == Phase::Start,
    {
        WebsiteJob::processing()
    }

    /// The batch that processes every website in turn, starting at the first.
    pub fn process_all_websites(&self) -> (batch: BatchJob)
        ensures
            batch.site == 0,
            batch.phase == BatchPhase::Next,
            batch.job.phase == Phase::Start,
    {
        BatchJob { site: 0, job: WebsiteJob::processing(), phase: BatchPhase::Next }
    }
}

} // verus!

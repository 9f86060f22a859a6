//! The release-download task. Release mirrors are interchangeable
//! endpoints, not precedence-ordered rewrite rules, so the task tries them
//! all in document order until one GET succeeds; the successful body is
//! saved under the file name the URL's final path segment gives. Only
//! exhausting every mirror (or failing to save) is a failure, and the
//! caller sees a single aggregate error kind.

use vstd::prelude::*;

use crate::config::GithubMirror;
use crate::config::GithubMirrorView;
use crate::config::RushGetConfig;
use crate::error::DockermirError;
use crate::error::ErrorView;
use crate::strutil::last_segment;
use crate::strutil::last_url_segment;
use crate::strutil::replace_all;
use crate::strutil::substitute_release_url;

verus! {

/// What the driver is asked to do next during a download.
pub enum DownloadAction {
    /// GET this URL.
    Get { url: String },
    /// Save the successful response body to this local file.
    Save { file_name: String },
}

#[verifier::ext_equal]
pub enum DownloadActionView {
    Get { url: Seq<char> },
    Save { file_name: Seq<char> },
}

impl View for DownloadAction {
    type V = DownloadActionView;

    open spec fn view(&self) -> DownloadActionView {
        match self {
            DownloadAction::Get { url } => DownloadActionView::Get { url: url@ },
            DownloadAction::Save { file_name } => DownloadActionView::Save {
                file_name: file_name@,
            },
        }
    }
}

/// The driver's report on the action it performed.
pub enum DownloadEvent {
    /// The GET returned a success status.
    GetSucceeded,
    /// Transport error or non-success status; the next mirror is tried.
    GetFailed,
    /// The body was written to the file.
    SaveSucceeded,
    /// The file could not be created, read or written; carries the cause.
    SaveFailed { error: String },
}

#[verifier::ext_equal]
pub enum DownloadEventView {
    GetSucceeded,
    GetFailed,
    SaveSucceeded,
    SaveFailed { error: Seq<char> },
}

impl View for DownloadEvent {
    type V = DownloadEventView;

    open spec fn view(&self) -> DownloadEventView {
        match self {
            DownloadEvent::GetSucceeded => DownloadEventView::GetSucceeded,
            DownloadEvent::GetFailed => DownloadEventView::GetFailed,
            DownloadEvent::SaveSucceeded => DownloadEventView::SaveSucceeded,
            DownloadEvent::SaveFailed { error } => DownloadEventView::SaveFailed {
                error: error@,
            },
        }
    }
}

/// Where a download run stands: which mirror is up next, or saving, or done.
pub enum DownloadPhase {
    Requesting { next: usize },
    Saving,
    Succeeded,
    Failed(DockermirError),
}

#[verifier::ext_equal]
pub enum DownloadPhaseView {
    Requesting { next: int },
    Saving,
    Succeeded,
    Failed(ErrorView),
}

impl View for DownloadPhase {
    type V = DownloadPhaseView;

    open spec fn view(&self) -> DownloadPhaseView {
        match self {
            DownloadPhase::Requesting { next } => DownloadPhaseView::Requesting {
                next: *next as int,
            },
            DownloadPhase::Saving => DownloadPhaseView::Saving,
            DownloadPhase::Succeeded => DownloadPhaseView::Succeeded,
            DownloadPhase::Failed(e) => DownloadPhaseView::Failed(e@),
        }
    }
}

/// The aggregate failure after every mirror was tried without success.
pub open spec fn exhausted_error(url: Seq<char>) -> ErrorView {
    ErrorView::DownloadExhausted { url, error: "Failed to download release file."@ }
}

/// A release download in progress.
pub struct DownloadRun {
    release_url: String,
    mirrors: Vec<GithubMirror>,
    phase: DownloadPhase,
}

#[verifier::ext_equal]
pub struct DownloadRunView {
    pub release_url: Seq<char>,
    pub mirrors: Seq<GithubMirrorView>,
    pub phase: DownloadPhaseView,
}

impl View for DownloadRun {
    type V = DownloadRunView;

    closed spec fn view(&self) -> DownloadRunView {
        DownloadRunView {
            release_url: self.release_url@,
            mirrors: self.mirrors@.map_values(|m: GithubMirror| m@),
            phase: self.phase@,
        }
    }
}

/// The transition relation of a download: a failed GET moves to the next
/// mirror, or to the aggregate failure when none is left; a successful GET
/// moves to saving; saving either finishes the run or fails it with the
/// save error. Events reported against a finished run change nothing.
pub open spec fn download_step(run: DownloadRunView, ev: DownloadEventView) -> DownloadPhaseView {
    match (run.phase, ev) {
        (DownloadPhaseView::Requesting { next }, DownloadEventView::GetSucceeded) => DownloadPhaseView::Saving,
        (DownloadPhaseView::Requesting { next }, DownloadEventView::GetFailed) => if next + 1
            < run.mirrors.len() {
            DownloadPhaseView::Requesting { next: next + 1 }
        } else {
            DownloadPhaseView::Failed(exhausted_error(run.release_url))
        },
        (DownloadPhaseView::Saving, DownloadEventView::SaveSucceeded) => DownloadPhaseView::Succeeded,
        (DownloadPhaseView::Saving, DownloadEventView::SaveFailed { error }) => DownloadPhaseView::Failed(
            ErrorView::DownloadExhausted { url: run.release_url, error },
        ),
        (_, _) => run.phase,
    }
}

/// The action each phase asks of the driver: the GET of the next mirror's
/// template with the release URL filled in, or the save under the URL's
/// final path segment; a finished run asks nothing.
pub open spec fn spec_download_action(run: DownloadRunView) -> Option<DownloadActionView> {
    match run.phase {
        DownloadPhaseView::Requesting { next } => if 0 <= next < run.mirrors.len() {
            Option::Some(
                DownloadActionView::Get {
                    url: replace_all(
                        run.mirrors[next].replace_template,
                        "${release_url}"@,
                        run.release_url,
                    ),
                },
            )
        } else {
            Option::None
        },
        DownloadPhaseView::Saving => Option::Some(
            DownloadActionView::Save { file_name: last_segment(run.release_url) },
        ),
        DownloadPhaseView::Succeeded => Option::None,
        DownloadPhaseView::Failed(_) => Option::None,
    }
}

impl DownloadRun {
    /// A phase that waits on a mirror names one the run has.
    pub open spec fn wf(&self) -> bool {
        self@.phase matches DownloadPhaseView::Requesting { next } ==> 0 <= next
            < self@.mirrors.len()
    }

    /// True once the run has a result.
    pub fn finished(&self) -> (b: bool)
        ensures
            b == (self@.phase is Succeeded || self@.phase is Failed),
    {
        match self.phase {
            DownloadPhase::Succeeded => true,
            DownloadPhase::Failed(_) => true,
            _ => false,
        }
    }

    /// What the driver should do next, or nothing once finished.
    pub fn pending_action(&self) -> (a: Option<DownloadAction>)
        requires
            self.wf(),
        ensures
            match a {
                Option::Some(act) => spec_download_action(self@) == Option::Some(act@),
                Option::None => spec_download_action(self@) is None,
            },
    {
        match &self.phase {
            DownloadPhase::Requesting { next } => {
                let mirror = &self.mirrors[*next];
                proof {
                    assert(self@.mirrors[*next as int] == self.mirrors@[*next as int]@);
                }
                Option::Some(
                    DownloadAction::Get {
                        url: substitute_release_url(
                            mirror.replace_template.as_str(),
                            self.release_url.as_str(),
                        ),
                    },
                )
            },
            DownloadPhase::Saving => Option::Some(
                DownloadAction::Save { file_name: last_url_segment(self.release_url.as_str()) },
            ),
            DownloadPhase::Succeeded => Option::None,
            DownloadPhase::Failed(_) => Option::None,
        }
    }

    /// Feeds the outcome of the pending action back into the run.
    pub fn step(&mut self, event: DownloadEvent)
        requires
            old(self).wf(),
        ensures
            final(self).wf(),
            final(self)@.release_url == old(self)@.release_url,
            final(self)@.mirrors == old(self)@.mirrors,
            final(self)@.phase == download_step(old(self)@, event@),
    {
        match event {
            DownloadEvent::GetSucceeded => {
                if let DownloadPhase::Requesting { .. } = self.phase {
                    self.phase = DownloadPhase::Saving;
                }
            },
            DownloadEvent::GetFailed => {
                if let DownloadPhase::Requesting { next } = self.phase {
                    let count = self.mirrors.len();
                    self.phase = if next + 1 < count {
                        DownloadPhase::Requesting { next: next + 1 }
                    } else {
                        DownloadPhase::Failed(
                            DockermirError::DownloadExhausted {
                                url: self.release_url.clone(),
                                error: String::from_str("Failed to download release file."),
                            },
                        )
                    };
                }
            },
            DownloadEvent::SaveSucceeded => {
                if let DownloadPhase::Saving = self.phase {
                    self.phase = DownloadPhase::Succeeded;
                }
            },
            DownloadEvent::SaveFailed { error } => {
                if let DownloadPhase::Saving = self.phase {
                    self.phase = DownloadPhase::Failed(
                        DockermirError::DownloadExhausted {
                            url: self.release_url.clone(),
                            error,
                        },
                    );
                }
            },
        }
    }

    /// The result of a finished run.
    pub fn into_result(self) -> (r: Result<(), DockermirError>)
        requires
            self@.phase is Succeeded || self@.phase is Failed,
        ensures
            match r {
                Result::Ok(u) => self@.phase is Succeeded,
                Result::Err(e) => self@.phase == DownloadPhaseView::Failed(e@),
            },
    {
        match self.phase {
            DownloadPhase::Succeeded => Result::Ok(()),
            DownloadPhase::Failed(e) => Result::Err(e),
            _ => vstd::pervasive::unreached(),
        }
    }
}

/// The release-download task: a release URL against the document's ordered
/// release mirrors.
pub struct GithubReleaseTask {
    release_url: String,
    config: RushGetConfig,
}

#[verifier::ext_equal]
pub struct ReleaseTaskView {
    pub release_url: Seq<char>,
    pub config: crate::config::ConfigView,
}

impl View for GithubReleaseTask {
    type V = ReleaseTaskView;

    closed spec fn view(&self) -> ReleaseTaskView {
        ReleaseTaskView { release_url: self.release_url@, config: self.config@ }
    }
}

impl GithubReleaseTask {
    pub fn new(config: RushGetConfig, release_url: String) -> (r: GithubReleaseTask)
        ensures
            r@.release_url == release_url@,
            r@.config == config@,
    {
        GithubReleaseTask { release_url, config }
    }

    /// The local file name the download saves to: the URL's final path
    /// segment.
    pub fn file_name(&self) -> (r: String)
        ensures
            r@ == last_segment(self@.release_url),
    {
        last_url_segment(self.release_url.as_str())
    }

    /// Begins the run with the document's first mirror; a document with no
    /// release mirrors at all is exhausted from the start.
    pub fn start(self) -> (run: DownloadRun)
        ensures
            run.wf(),
            run@.release_url == self@.release_url,
            run@.mirrors == self@.config.github.mirrors,
            run@.phase == if self@.config.github.mirrors.len() > 0 {
                DownloadPhaseView::Requesting { next: 0 }
            } else {
                DownloadPhaseView::Failed(exhausted_error(self@.release_url))
            },
    {
        let GithubReleaseTask { release_url, config } = self;
        let phase = if config.github.mirrors.len() > 0 {
            DownloadPhase::Requesting { next: 0 }
        } else {
            DownloadPhase::Failed(
                DockermirError::DownloadExhausted {
                    url: release_url.clone(),
                    error: String::from_str("Failed to download release file."),
                },
            )
        };
        DownloadRun { release_url, mirrors: config.github.mirrors, phase }
    }
}

/// The run after a sequence of GET outcomes, `true` a success: each outcome
/// is fed in while the run still awaits a mirror.
pub open spec fn after_get_attempts(run: DownloadRunView, outcomes: Seq<bool>) -> DownloadRunView
    decreases outcomes.len(),
{
    if outcomes.len() == 0 {
        run
    } else {
        let ev = if outcomes[0] {
            DownloadEventView::GetSucceeded
        } else {
            DownloadEventView::GetFailed
        };
        let stepped = DownloadRunView { phase: download_step(run, ev), ..run };
        after_get_attempts(stepped, outcomes.skip(1))
    }
}

proof fn lemma_after_preserves(run: DownloadRunView, outcomes: Seq<bool>)
    ensures
        after_get_attempts(run, outcomes).release_url == run.release_url,
        after_get_attempts(run, outcomes).mirrors == run.mirrors,
    decreases outcomes.len(),
{
    if outcomes.len() > 0 {
        let ev = if outcomes[0] {
            DownloadEventView::GetSucceeded
        } else {
            DownloadEventView::GetFailed
        };
        lemma_after_preserves(DownloadRunView { phase: download_step(run, ev), ..run }, outcomes.skip(1));
    }
}

proof fn lemma_all_failed_progress(run: DownloadRunView, outcomes: Seq<bool>, n: int)
    requires
        run.phase == (DownloadPhaseView::Requesting { next: n }),
        0 <= n,
        n + outcomes.len() < run.mirrors.len(),
        forall|j: int| 0 <= j < outcomes.len() ==> !outcomes[j],
    ensures
        after_get_attempts(run, outcomes).phase == (DownloadPhaseView::Requesting {
            next: n + outcomes.len(),
        }),
    decreases outcomes.len(),
{
    if outcomes.len() > 0 {
        let stepped = DownloadRunView {
            phase: download_step(run, DownloadEventView::GetFailed),
            ..run
        };
        assert(stepped.phase == (DownloadPhaseView::Requesting { next: n + 1 }));
        lemma_all_failed_progress(stepped, outcomes.skip(1), n + 1);
    }
}

proof fn lemma_after_append(run: DownloadRunView, a: Seq<bool>, b: Seq<bool>)
    ensures
        after_get_attempts(run, a + b) == after_get_attempts(after_get_attempts(run, a), b),
    decreases a.len(),
{
    if a.len() == 0 {
        assert(a + b =~= b);
    } else {
        assert((a + b)[0] == a[0]);
        let ev = if a[0] {
            DownloadEventView::GetSucceeded
        } else {
            DownloadEventView::GetFailed
        };
        let stepped = DownloadRunView { phase: download_step(run, ev), ..run };
        assert((a + b).skip(1) =~= a.skip(1) + b);
        lemma_after_append(stepped, a.skip(1), b);
    }
}

/// Try-all-until-success: with `outcomes[j]` the success of the GET against
/// mirror `j`, and `k` the first success, a run started at the first mirror
/// is still requesting mirror `k` after the `k` failed attempts — so
/// exactly `k + 1` GETs occur — the GET it then performs is of mirror `k`'s
/// substituted URL, and that outcome moves the run to saving.
pub proof fn lemma_download_first_success(run: DownloadRunView, outcomes: Seq<bool>, k: int)
    requires
        run.phase == (DownloadPhaseView::Requesting { next: 0 }),
        run.mirrors.len() == outcomes.len(),
        0 <= k < outcomes.len(),
        outcomes[k],
        forall|j: int| 0 <= j < k ==> !outcomes[j],
    ensures
        after_get_attempts(run, outcomes.take(k)).phase == (DownloadPhaseView::Requesting {
            next: k,
        }),
        spec_download_action(after_get_attempts(run, outcomes.take(k))) == Option::Some(
            DownloadActionView::Get {
                url: replace_all(run.mirrors[k].replace_template, "${release_url}"@, run.release_url),
            },
        ),
        after_get_attempts(run, outcomes.take(k + 1)).phase is Saving,
{
    let taken = outcomes.take(k);
    assert(forall|j: int| 0 <= j < taken.len() ==> !taken[j]);
    lemma_all_failed_progress(run, taken, 0);
    lemma_after_preserves(run, taken);
    let at_k = after_get_attempts(run, taken);
    assert(outcomes.take(k + 1) =~= taken + seq![outcomes[k]]);
    lemma_after_append(run, taken, seq![outcomes[k]]);
    let last = seq![outcomes[k]];
    assert(after_get_attempts(at_k, last) == after_get_attempts(
        DownloadRunView { phase: download_step(at_k, DownloadEventView::GetSucceeded), ..at_k },
        last.skip(1),
    ));
    assert(last.skip(1) =~= Seq::<bool>::empty());
}

/// Exhaustion: when every mirror's GET fails, the run makes exactly one
/// attempt per mirror and ends in the single aggregate failure.
pub proof fn lemma_download_exhausted(run: DownloadRunView, outcomes: Seq<bool>)
    requires
        run.phase == (DownloadPhaseView::Requesting { next: 0 }),
        run.mirrors.len() == outcomes.len(),
        outcomes.len() > 0,
        forall|j: int| 0 <= j < outcomes.len() ==> !outcomes[j],
    ensures
        after_get_attempts(run, outcomes).phase == DownloadPhaseView::Failed(
            exhausted_error(run.release_url),
        ),
{
    let n = outcomes.len() as int;
    let head = outcomes.take(n - 1);
    assert(forall|j: int| 0 <= j < head.len() ==> !head[j]);
    lemma_all_failed_progress(run, head, 0);
    lemma_after_preserves(run, head);
    let at_last = after_get_attempts(run, head);
    assert(outcomes =~= head + seq![outcomes[n - 1]]);
    lemma_after_append(run, head, seq![outcomes[n - 1]]);
    let last = seq![outcomes[n - 1]];
    assert(download_step(at_last, DownloadEventView::GetFailed) == DownloadPhaseView::Failed(
        exhausted_error(run.release_url),
    ));
    assert(after_get_attempts(at_last, last) == after_get_attempts(
        DownloadRunView { phase: download_step(at_last, DownloadEventView::GetFailed), ..at_last },
        last.skip(1),
    ));
    assert(last.skip(1) =~= Seq::<bool>::empty());
}

} // verus!

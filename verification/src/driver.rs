//! The batch driver's decisions. The caller loads templates, lists and reads
//! sources, writes pages and serves them; after each such action it reports
//! what happened, and the driver says what comes next.

use vstd::prelude::*;

verus! {

/// The stage a run is in.
#[derive(Debug, Clone, Copy, PartialEq, Eq)]
pub enum Phase {
    /// The template set is being loaded.
    LoadingTemplates,
    /// The output directory is being created.
    CreatingOutDir,
    /// The markdown sources are being listed.
    Listing,
    /// No source was found; the usage help is being shown.
    ShowingHelp,
    /// The entry at `next` is being processed.
    Rendering,
    /// The output directory is being served.
    Serving,
    /// The run is over.
    Done,
}

/// Why a run ended early.
#[derive(Debug, Clone, Copy, PartialEq, Eq)]
pub enum Failure {
    /// A template failed to load.
    TemplateLoad,
    /// The output directory could not be created.
    OutDir,
    /// A listed source could not be read.
    Read,
    /// The template engine could not render a page.
    Render,
    /// A page could not be written.
    Write,
    /// The server could not start or broke down.
    Server,
    /// An event was reported that does not answer the pending action.
    Unexpected,
}

/// What the caller reports after carrying out a [`BuildAction`].
#[derive(Debug, Clone, Copy, PartialEq, Eq)]
pub enum BuildEvent {
    TemplatesLoaded,
    TemplatesFailed,
    OutDirReady,
    OutDirFailed,
    /// The listing gave this many entries, unreadable ones included.
    Listed(usize),
    HelpShown,
    /// The entry's page was rendered and written.
    EntryWritten,
    /// The entry itself was an error of the listing; it was logged.
    EntrySkipped,
    ReadFailed,
    RenderFailed,
    WriteFailed,
    /// The server stopped, after a failure or not.
    ServerStopped { failed: bool },
}

/// What the caller is to do next.
#[derive(Debug, Clone, Copy, PartialEq, Eq)]
pub enum BuildAction {
    LoadTemplates,
    CreateOutDir,
    ListSources,
    /// Say that no markdown file was found and show the usage help.
    ShowHelp,
    /// Process the listed entry with this index: log it if it is an error,
    /// else read it, render it and write its page.
    ProcessEntry(usize),
    Serve,
    /// End the process with this exit code.
    Exit(i32),
}

/// The state of a run.
#[derive(Debug, Clone, Copy, PartialEq, Eq)]
pub struct BuildState {
    pub phase: Phase,
    /// Whether the output is served once it is built.
    pub serve: bool,
    /// Number of listed entries.
    pub total: usize,
    /// Number of entries dealt with; while rendering, the index of the
    /// entry in progress.
    pub next: usize,
    /// Number of pages written.
    pub written: usize,
    /// Number of entries skipped.
    pub skipped: usize,
    /// Why the run ended early, if it did.
    pub failure: Option<Failure>,
}

impl BuildState {
    /// The counters agree with each other and with the phase.
    pub open spec fn wf(&self) -> bool {
        &&& self.next <= self.total
        &&& self.written + self.skipped == self.next
        &&& self.phase == Phase::Rendering ==> self.next < self.total
        &&& self.phase == Phase::Serving ==> self.next == self.total && self.total > 0
        &&& self.phase != Phase::Done ==> self.failure is None
        &&& (self.phase == Phase::LoadingTemplates || self.phase == Phase::CreatingOutDir
            || self.phase == Phase::Listing || self.phase == Phase::ShowingHelp) ==> self.total
            == 0
    }

    /// The exit code of a run that ended in this state: 0 after a run
    /// without failure, 1 otherwise.
    pub open spec fn exit_code(&self) -> i32 {
        if self.failure is Some {
            1
        } else {
            0
        }
    }

    /// This state, moved to `phase`.
    pub open spec fn at(self, phase: Phase) -> BuildState {
        BuildState { phase, ..self }
    }

    /// The end of the run, with the reason if it failed.
    pub open spec fn finished(self, failure: Option<Failure>) -> (BuildState, BuildAction) {
        let end = BuildState { phase: Phase::Done, failure, ..self };
        (end, BuildAction::Exit(end.exit_code()))
    }

    /// What follows an entry that has been dealt with: the next entry, or
    /// after the last one the server if it was asked for, else the end.
    pub open spec fn advance(self) -> (BuildState, BuildAction) {
        if self.next < self.total {
            (self.at(Phase::Rendering), BuildAction::ProcessEntry(self.next))
        } else if self.serve {
            (self.at(Phase::Serving), BuildAction::Serve)
        } else {
            self.finished(None)
        }
    }

    /// The driver's answer to `event` in this state: the next state and the
    /// next action.
    ///
    /// Templates are loaded, the output directory is created and the sources
    /// are listed, in this order; a failure of the first two ends the run.
    /// With no source the help is shown and the run ends well, without
    /// serving. Otherwise the entries are processed in order: a written one
    /// and a skipped one both lead on, while a failed read, render or write
    /// ends the run. After the last entry comes the server, if asked for.
    /// A finished run stays finished.
    pub open spec fn step_spec(self, event: BuildEvent) -> (BuildState, BuildAction) {
        match (self.phase, event) {
            (Phase::Done, _) => (self, BuildAction::Exit(self.exit_code())),
            (Phase::LoadingTemplates, BuildEvent::TemplatesLoaded) => (
                self.at(Phase::CreatingOutDir),
                BuildAction::CreateOutDir,
            ),
            (Phase::LoadingTemplates, BuildEvent::TemplatesFailed) => self.finished(
                Some(Failure::TemplateLoad),
            ),
            (Phase::CreatingOutDir, BuildEvent::OutDirReady) => (
                self.at(Phase::Listing),
                BuildAction::ListSources,
            ),
            (Phase::CreatingOutDir, BuildEvent::OutDirFailed) => self.finished(
                Some(Failure::OutDir),
            ),
            (Phase::Listing, BuildEvent::Listed(count)) => if count == 0 {
                (self.at(Phase::ShowingHelp), BuildAction::ShowHelp)
            } else {
                (BuildState { total: count, ..self }).advance()
            },
            (Phase::ShowingHelp, BuildEvent::HelpShown) => self.finished(None),
            (Phase::Rendering, BuildEvent::EntryWritten) => (BuildState {
                next: (self.next + 1) as usize,
                written: (self.written + 1) as usize,
                ..self
            }).advance(),
            (Phase::Rendering, BuildEvent::EntrySkipped) => (BuildState {
                next: (self.next + 1) as usize,
                skipped: (self.skipped + 1) as usize,
                ..self
            }).advance(),
            (Phase::Rendering, BuildEvent::ReadFailed) => self.finished(Some(Failure::Read)),
            (Phase::Rendering, BuildEvent::RenderFailed) => self.finished(Some(Failure::Render)),
            (Phase::Rendering, BuildEvent::WriteFailed) => self.finished(Some(Failure::Write)),
            (Phase::Serving, BuildEvent::ServerStopped { failed }) => self.finished(
                if failed {
                    Some(Failure::Server)
                } else {
                    None
                },
            ),
            _ => self.finished(Some(Failure::Unexpected)),
        }
    }

    /// The state a run starts in, and its first action.
    pub fn start(serve: bool) -> (start: (BuildState, BuildAction))
        ensures
            start.0.wf(),
            start.0 == (BuildState {
                phase: Phase::LoadingTemplates,
                serve,
                total: 0,
                next: 0,
                written: 0,
                skipped: 0,
                failure: None,
            }),
            start.1 == BuildAction::LoadTemplates,
    {
        (
            BuildState {
                phase: Phase::LoadingTemplates,
                serve,
                total: 0,
                next: 0,
                written: 0,
                skipped: 0,
                failure: None,
            },
            BuildAction::LoadTemplates,
        )
    }

    /// Whether the counters agree with each other and with the phase.
    pub fn is_well_formed(&self) -> (ok: bool)
        ensures
            ok == self.wf(),
    {
        let early = match self.phase {
            Phase::LoadingTemplates | Phase::CreatingOutDir | Phase::Listing | Phase::ShowingHelp => true,
            _ => false,
        };
        let rendering = match self.phase {
            Phase::Rendering => true,
            _ => false,
        };
        let serving = match self.phase {
            Phase::Serving => true,
            _ => false,
        };
        let done = match self.phase {
            Phase::Done => true,
            _ => false,
        };
        self.next <= self.total && self.written <= self.next && self.skipped == self.next
            - self.written && (!rendering || self.next < self.total) && (!serving || (self.next
            == self.total && self.total > 0)) && (done || self.failure.is_none()) && (!early
            || self.total == 0)
    }

    /// The exit code of a run that ended in this state.
    pub fn code(&self) -> (code: i32)
        ensures
            code == self.exit_code(),
    {
        match self.failure {
            Some(_) => 1,
            None => 0,
        }
    }

    fn finish(self, failure: Option<Failure>) -> (end: (BuildState, BuildAction))
        requires
            self.wf(),
        ensures
            end == self.finished(failure),
            end.0.wf(),
    {
        let end = BuildState { phase: Phase::Done, failure, ..self };
        let code = end.code();
        (end, BuildAction::Exit(code))
    }

    fn proceed(self) -> (then: (BuildState, BuildAction))
        requires
            self.next <= self.total,
            self.total > 0,
            self.written + self.skipped == self.next,
            self.failure is None,
        ensures
            then == self.advance(),
            then.0.wf(),
    {
        if self.next < self.total {
            (BuildState { phase: Phase::Rendering, ..self }, BuildAction::ProcessEntry(self.next))
        } else if self.serve {
            (BuildState { phase: Phase::Serving, ..self }, BuildAction::Serve)
        } else {
            let end = BuildState { phase: Phase::Done, failure: None, ..self };
            (end, BuildAction::Exit(0))
        }
    }

    /// Answers `event`, as [`BuildState::step_spec`] defines it.
    pub fn step(self, event: BuildEvent) -> (then: (BuildState, BuildAction))
        requires
            self.wf(),
        ensures
            then == self.step_spec(event),
            then.0.wf(),
            then.1 matches BuildAction::ProcessEntry(index) ==> index == then.0.next && index
                < then.0.total,
    {
        match (self.phase, event) {
            (Phase::Done, _) => {
                let code = self.code();
                (self, BuildAction::Exit(code))
            },
            (Phase::LoadingTemplates, BuildEvent::TemplatesLoaded) => (
                BuildState { phase: Phase::CreatingOutDir, ..self },
                BuildAction::CreateOutDir,
            ),
            (Phase::LoadingTemplates, BuildEvent::TemplatesFailed) => self.finish(
                Some(Failure::TemplateLoad),
            ),
            (Phase::CreatingOutDir, BuildEvent::OutDirReady) => (
                BuildState { phase: Phase::Listing, ..self },
                BuildAction::ListSources,
            ),
            (Phase::CreatingOutDir, BuildEvent::OutDirFailed) => self.finish(Some(Failure::OutDir)),
            (Phase::Listing, BuildEvent::Listed(count)) => {
                if count == 0 {
                    (BuildState { phase: Phase::ShowingHelp, ..self }, BuildAction::ShowHelp)
                } else {
                    (BuildState { total: count, ..self }).proceed()
                }
            },
            (Phase::ShowingHelp, BuildEvent::HelpShown) => self.finish(None),
            (Phase::Rendering, BuildEvent::EntryWritten) => (BuildState {
                next: self.next + 1,
                written: self.written + 1,
                ..self
            }).proceed(),
            (Phase::Rendering, BuildEvent::EntrySkipped) => (BuildState {
                next: self.next + 1,
                skipped: self.skipped + 1,
                ..self
            }).proceed(),
            (Phase::Rendering, BuildEvent::ReadFailed) => self.finish(Some(Failure::Read)),
            (Phase::Rendering, BuildEvent::RenderFailed) => self.finish(Some(Failure::Render)),
            (Phase::Rendering, BuildEvent::WriteFailed) => self.finish(Some(Failure::Write)),
            (Phase::Serving, BuildEvent::ServerStopped { failed }) => {
                if failed {
                    self.finish(Some(Failure::Server))
                } else {
                    self.finish(None)
                }
            },
            _ => self.finish(Some(Failure::Unexpected)),
        }
    }
}

/// The state a run is in after `events` have been answered in turn.
pub open spec fn run(state: BuildState, events: Seq<BuildEvent>) -> BuildState
    decreases events.len(),
{
    if events.len() == 0 {
        state
    } else {
        run(state.step_spec(events[0]).0, events.drop_first())
    }
}

/// How many of `events` report a written page.
pub open spec fn count_written(events: Seq<BuildEvent>) -> nat
    decreases events.len(),
{
    if events.len() == 0 {
        0
    } else if events[0] == BuildEvent::EntryWritten {
        1 + count_written(events.drop_first())
    } else {
        count_written(events.drop_first())
    }
}

/// Every one of `events` reports an entry as written or as skipped.
pub open spec fn entries_dealt_with(events: Seq<BuildEvent>) -> bool {
    forall|i: int|
        0 <= i < events.len() ==> #[trigger] events[i] == BuildEvent::EntryWritten || events[i]
            == BuildEvent::EntrySkipped
}

/// A step keeps a state well formed.
pub proof fn lemma_step_wf(state: BuildState, event: BuildEvent)
    requires
        state.wf(),
    ensures
        state.step_spec(event).0.wf(),
{
}

/// A finished run stays as it is, whatever is reported to it, and asks for
/// nothing but the exit.
pub proof fn lemma_done_is_final(state: BuildState, events: Seq<BuildEvent>)
    requires
        state.phase == Phase::Done,
    ensures
        run(state, events) == state,
        forall|event: BuildEvent| #[trigger]
            state.step_spec(event) == (state, BuildAction::Exit(state.exit_code())),
    decreases events.len(),
{
    if events.len() > 0 {
        lemma_done_is_final(state, events.drop_first());
    }
}

/// When every remaining entry is written or skipped, the batch runs to its
/// end without failure: the pages written are exactly the entries reported
/// as written, a skipped entry costs nothing but itself, and the run goes on
/// to serve, or ends with exit code 0.
pub proof fn lemma_batch_counts(state: BuildState, events: Seq<BuildEvent>)
    requires
        state.wf(),
        state.phase == Phase::Rendering,
        entries_dealt_with(events),
        events.len() == state.total - state.next,
    ensures
        ({
            let end = run(state, events);
            &&& end.wf()
            &&& end.written == state.written + count_written(events)
            &&& end.skipped == state.skipped + events.len() - count_written(events)
            &&& end.next == state.total
            &&& end.total == state.total
            &&& end.failure is None
            &&& end.exit_code() == 0
            &&& end.phase == if state.serve {
                Phase::Serving
            } else {
                Phase::Done
            }
        }),
    decreases events.len(),
{
    let first = events[0];
    let rest = events.drop_first();
    let then = state.step_spec(first).0;
    assert(first == BuildEvent::EntryWritten || first == BuildEvent::EntrySkipped);
    if rest.len() == 0 {
        assert(run(then, rest) == then);
        assert(count_written(rest) == 0);
    } else {
        assert(entries_dealt_with(rest)) by {
            assert forall|i: int| 0 <= i < rest.len() implies #[trigger] rest[i]
                == BuildEvent::EntryWritten || rest[i] == BuildEvent::EntrySkipped by {
                assert(rest[i] == events[i + 1]);
            }
        }
        lemma_batch_counts(then, rest);
    }
}

/// A batch of `count` entries that are all written produces exactly `count`
/// pages and ends without failure.
pub proof fn lemma_all_written(state: BuildState, count: usize)
    requires
        state.wf(),
        state.phase == Phase::Listing,
        count > 0,
    ensures
        ({
            let listed = state.step_spec(BuildEvent::Listed(count));
            let end = run(listed.0, Seq::new(count as nat, |i: int| BuildEvent::EntryWritten));
            &&& listed.1 == BuildAction::ProcessEntry(0)
            &&& end.written == count
            &&& end.skipped == 0
            &&& end.failure is None
            &&& end.exit_code() == 0
        }),
{
    let listed = state.step_spec(BuildEvent::Listed(count)).0;
    let events = Seq::new(count as nat, |i: int| BuildEvent::EntryWritten);
    lemma_batch_counts(listed, events);
    lemma_count_all_written(events);
}

/// Where every event reports a written page, all of them count.
pub proof fn lemma_count_all_written(events: Seq<BuildEvent>)
    requires
        forall|i: int| 0 <= i < events.len() ==> #[trigger] events[i] == BuildEvent::EntryWritten,
    ensures
        count_written(events) == events.len(),
    decreases events.len(),
{
    if events.len() > 0 {
        let rest = events.drop_first();
        assert forall|i: int| 0 <= i < rest.len() implies #[trigger] rest[i]
            == BuildEvent::EntryWritten by {
            assert(rest[i] == events[i + 1]);
        }
        lemma_count_all_written(rest);
    }
}

/// With no markdown file found the help is shown, the run ends with exit
/// code 0, and nothing is written or served.
pub proof fn lemma_no_sources(state: BuildState)
    requires
        state.wf(),
        state.phase == Phase::Listing,
    ensures
        ({
            let listed = state.step_spec(BuildEvent::Listed(0));
            let end = listed.0.step_spec(BuildEvent::HelpShown);
            &&& listed.1 == BuildAction::ShowHelp
            &&& end.1 == BuildAction::Exit(0)
            &&& end.0.phase == Phase::Done
            &&& end.0.written == 0
        }),
{
}

/// A page that fails to render ends the run at once with exit code 1:
/// whatever is reported afterwards, the state stays the same, so no
/// further page is written.
pub proof fn lemma_render_failure_ends_run(state: BuildState, later: Seq<BuildEvent>)
    requires
        state.wf(),
        state.phase == Phase::Rendering,
    ensures
        ({
            let (end, action) = state.step_spec(BuildEvent::RenderFailed);
            &&& action == BuildAction::Exit(1)
            &&& end.phase == Phase::Done
            &&& end.failure == Some(Failure::Render)
            &&& end.written == state.written
            &&& run(end, later) == end
            &&& forall|event: BuildEvent| #[trigger] end.step_spec(event).1 == BuildAction::Exit(1)
        }),
{
    let end = state.step_spec(BuildEvent::RenderFailed).0;
    lemma_done_is_final(end, later);
}

} // verus!

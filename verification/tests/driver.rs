use ssg::driver::{BuildAction, BuildEvent, BuildState, Failure, Phase};

fn listing(serve: bool) -> BuildState {
    let (state, _) = BuildState::start(serve);
    let (state, _) = state.step(BuildEvent::TemplatesLoaded);
    let (state, _) = state.step(BuildEvent::OutDirReady);
    state
}

fn rendering(serve: bool, count: usize) -> BuildState {
    let (state, _) = listing(serve).step(BuildEvent::Listed(count));
    state
}

#[test]
fn run_starts_by_loading_templates() {
    let (state, action) = BuildState::start(false);
    assert_eq!(action, BuildAction::LoadTemplates);
    assert_eq!(
        state,
        BuildState {
            phase: Phase::LoadingTemplates,
            serve: false,
            total: 0,
            next: 0,
            written: 0,
            skipped: 0,
            failure: None,
        }
    );
}

#[test]
fn setup_goes_templates_out_dir_listing() {
    let (state, _) = BuildState::start(true);
    let (state, action) = state.step(BuildEvent::TemplatesLoaded);
    assert_eq!((state.phase, action), (Phase::CreatingOutDir, BuildAction::CreateOutDir));
    let (state, action) = state.step(BuildEvent::OutDirReady);
    assert_eq!((state.phase, action), (Phase::Listing, BuildAction::ListSources));
    assert!(state.serve);
}

#[test]
fn template_load_failure_exits_with_1() {
    let (state, _) = BuildState::start(false);
    let (state, action) = state.step(BuildEvent::TemplatesFailed);
    assert_eq!(action, BuildAction::Exit(1));
    assert_eq!(state.phase, Phase::Done);
    assert_eq!(state.failure, Some(Failure::TemplateLoad));
    assert_eq!(state.code(), 1);
}

#[test]
fn out_dir_failure_exits_with_1() {
    let (state, _) = BuildState::start(false);
    let (state, _) = state.step(BuildEvent::TemplatesLoaded);
    let (state, action) = state.step(BuildEvent::OutDirFailed);
    assert_eq!(action, BuildAction::Exit(1));
    assert_eq!(state.failure, Some(Failure::OutDir));
}

#[test]
fn no_markdown_files_shows_help_and_exits_with_0() {
    let (state, action) = listing(false).step(BuildEvent::Listed(0));
    assert_eq!((state.phase, action), (Phase::ShowingHelp, BuildAction::ShowHelp));
    let (state, action) = state.step(BuildEvent::HelpShown);
    assert_eq!(action, BuildAction::Exit(0));
    assert_eq!(state.phase, Phase::Done);
    assert_eq!(state.written, 0);
    assert_eq!(state.failure, None);
}

#[test]
fn no_markdown_files_never_serves() {
    let (state, _) = listing(true).step(BuildEvent::Listed(0));
    let (state, action) = state.step(BuildEvent::HelpShown);
    assert_eq!(action, BuildAction::Exit(0));
    assert_eq!(state.phase, Phase::Done);
}

#[test]
fn three_valid_files_give_three_pages() {
    let (mut state, mut action) = listing(false).step(BuildEvent::Listed(3));
    let mut processed = Vec::new();
    while let BuildAction::ProcessEntry(index) = action {
        processed.push(index);
        (state, action) = state.step(BuildEvent::EntryWritten);
    }
    assert_eq!(processed, vec![0, 1, 2]);
    assert_eq!(action, BuildAction::Exit(0));
    assert_eq!(state.written, 3);
    assert_eq!(state.skipped, 0);
    assert_eq!(state.failure, None);
}

#[test]
fn skipped_entry_does_not_stop_the_batch() {
    let state = rendering(false, 3);
    let (state, action) = state.step(BuildEvent::EntryWritten);
    assert_eq!(action, BuildAction::ProcessEntry(1));
    let (state, action) = state.step(BuildEvent::EntrySkipped);
    assert_eq!(action, BuildAction::ProcessEntry(2));
    let (state, action) = state.step(BuildEvent::EntryWritten);
    assert_eq!(action, BuildAction::Exit(0));
    assert_eq!((state.written, state.skipped, state.next, state.total), (2, 1, 3, 3));
    assert_eq!(state.code(), 0);
}

#[test]
fn batch_of_skipped_entries_only() {
    let state = rendering(false, 1);
    let (state, action) = state.step(BuildEvent::EntrySkipped);
    assert_eq!(action, BuildAction::Exit(0));
    assert_eq!((state.written, state.skipped), (0, 1));
}

#[test]
fn render_failure_ends_the_run_with_1() {
    let state = rendering(true, 3);
    let (state, _) = state.step(BuildEvent::EntryWritten);
    let (state, action) = state.step(BuildEvent::RenderFailed);
    assert_eq!(action, BuildAction::Exit(1));
    assert_eq!(state.phase, Phase::Done);
    assert_eq!(state.failure, Some(Failure::Render));
    assert_eq!(state.written, 1);
}

#[test]
fn nothing_is_written_after_a_render_failure() {
    let state = rendering(false, 3);
    let (failed, _) = state.step(BuildEvent::RenderFailed);
    for event in [
        BuildEvent::EntryWritten,
        BuildEvent::EntrySkipped,
        BuildEvent::Listed(5),
        BuildEvent::TemplatesLoaded,
        BuildEvent::ServerStopped { failed: false },
    ] {
        assert_eq!(failed.step(event), (failed, BuildAction::Exit(1)));
    }
}

#[test]
fn read_failure_ends_the_run() {
    let (state, action) = rendering(false, 2).step(BuildEvent::ReadFailed);
    assert_eq!(action, BuildAction::Exit(1));
    assert_eq!(state.failure, Some(Failure::Read));
    assert_eq!(state.written, 0);
}

#[test]
fn write_failure_ends_the_run() {
    let (state, _) = rendering(false, 2).step(BuildEvent::EntryWritten);
    let (state, action) = state.step(BuildEvent::WriteFailed);
    assert_eq!(action, BuildAction::Exit(1));
    assert_eq!(state.failure, Some(Failure::Write));
    assert_eq!(state.written, 1);
}

#[test]
fn server_follows_the_last_entry_when_asked_for() {
    let (state, action) = rendering(true, 1).step(BuildEvent::EntryWritten);
    assert_eq!((state.phase, action), (Phase::Serving, BuildAction::Serve));
    let (state, action) = state.step(BuildEvent::ServerStopped { failed: false });
    assert_eq!(action, BuildAction::Exit(0));
    assert_eq!(state.phase, Phase::Done);
}

#[test]
fn server_failure_exits_with_1() {
    let (state, _) = rendering(true, 1).step(BuildEvent::EntrySkipped);
    let (state, action) = state.step(BuildEvent::ServerStopped { failed: true });
    assert_eq!(action, BuildAction::Exit(1));
    assert_eq!(state.failure, Some(Failure::Server));
}

#[test]
fn finished_run_stays_finished() {
    let (state, _) = rendering(false, 1).step(BuildEvent::EntryWritten);
    assert_eq!(state.phase, Phase::Done);
    assert_eq!(state.step(BuildEvent::EntryWritten), (state, BuildAction::Exit(0)));
    assert_eq!(state.step(BuildEvent::RenderFailed), (state, BuildAction::Exit(0)));
}

#[test]
fn event_out_of_turn_ends_the_run() {
    let (state, _) = BuildState::start(false);
    let (state, action) = state.step(BuildEvent::EntryWritten);
    assert_eq!(action, BuildAction::Exit(1));
    assert_eq!(state.failure, Some(Failure::Unexpected));
    let (state, action) = listing(false).step(BuildEvent::RenderFailed);
    assert_eq!(action, BuildAction::Exit(1));
    assert_eq!(state.failure, Some(Failure::Unexpected));
}

#[test]
fn exit_code_follows_the_failure() {
    let (ok, _) = rendering(false, 1).step(BuildEvent::EntryWritten);
    assert_eq!(ok.code(), 0);
    let (bad, _) = rendering(false, 1).step(BuildEvent::WriteFailed);
    assert_eq!(bad.code(), 1);
}

#[test]
fn states_of_a_run_are_well_formed() {
    let (mut state, mut action) = BuildState::start(true);
    let events = [
        BuildEvent::TemplatesLoaded,
        BuildEvent::OutDirReady,
        BuildEvent::Listed(2),
        BuildEvent::EntrySkipped,
        BuildEvent::EntryWritten,
        BuildEvent::ServerStopped { failed: false },
    ];
    assert!(state.is_well_formed());
    assert_eq!(action, BuildAction::LoadTemplates);
    for event in events {
        (state, action) = state.step(event);
        assert!(state.is_well_formed());
    }
    assert_eq!(action, BuildAction::Exit(0));
}

#[test]
fn inconsistent_counters_are_not_well_formed() {
    let (start, _) = BuildState::start(false);
    assert!(!BuildState { written: 1, ..start }.is_well_formed());
    assert!(!BuildState { total: 1, ..start }.is_well_formed());
    assert!(!BuildState { phase: Phase::Rendering, ..start }.is_well_formed());
    assert!(!BuildState { phase: Phase::Serving, ..start }.is_well_formed());
    assert!(!BuildState { failure: Some(Failure::Read), ..start }.is_well_formed());
    assert!(BuildState { phase: Phase::Done, failure: Some(Failure::Read), ..start }
        .is_well_formed());
    assert!(BuildState {
        phase: Phase::Rendering,
        total: 3,
        next: 2,
        written: 1,
        skipped: 1,
        ..start
    }
    .is_well_formed());
}

#[test]
fn entry_index_stays_below_the_number_of_entries() {
    let (mut state, mut action) = listing(false).step(BuildEvent::Listed(4));
    let mut steps = 0;
    while let BuildAction::ProcessEntry(index) = action {
        assert!(index < 4);
        assert_eq!(index, state.next);
        (state, action) = state.step(if index % 2 == 0 {
            BuildEvent::EntryWritten
        } else {
            BuildEvent::EntrySkipped
        });
        steps += 1;
    }
    assert_eq!(steps, 4);
    assert_eq!((state.written, state.skipped), (2, 2));
}

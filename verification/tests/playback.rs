use amfm::playback::BusMessage;
use amfm::playback::GraphAction;
use amfm::playback::GraphState;
use amfm::playback::PlaybackManager;
use amfm::playback::PlaybackUpdate;
use amfm::playback::StateChangeOutcome;
use amfm::playback::recording_offset;
use amfm::playback::should_link;

#[test]
fn new_track_titles_are_deduplicated() {
    let mut mgr = PlaybackManager::new();

    let (events, _) = mgr.handle_bus_message(BusMessage::TitleTag("Song A".to_string()));
    assert_eq!(events, vec![PlaybackUpdate::NewSong("Song A".to_string())]);

    let (events, _) = mgr.handle_bus_message(BusMessage::TitleTag("Song A".to_string()));
    assert!(events.is_empty());

    let (events, _) = mgr.handle_bus_message(BusMessage::TitleTag("Song B".to_string()));
    assert_eq!(events, vec![PlaybackUpdate::NewSong("Song B".to_string())]);
}

#[test]
fn switching_source_resets_title_dedup() {
    let mut mgr = PlaybackManager::new();

    let (events, _) = mgr.handle_bus_message(BusMessage::TitleTag("Same".to_string()));
    assert_eq!(events.len(), 1);

    let (events, actions) = mgr.set_source_uri("http://radio.example/two");
    assert!(events.is_empty());
    assert_eq!(
        actions,
        vec![
            GraphAction::SetGraphState(GraphState::Null),
            GraphAction::SetSourceUri("http://radio.example/two".to_string()),
        ]
    );

    let (events, _) = mgr.handle_bus_message(BusMessage::TitleTag("Same".to_string()));
    assert_eq!(events, vec![PlaybackUpdate::NewSong("Same".to_string())]);
}

#[test]
fn live_source_plays_through_buffering() {
    let mut mgr = PlaybackManager::new();
    let _ = mgr.set_source_uri("http://radio.example/live");

    let (_, actions) = mgr.play();
    assert_eq!(actions, vec![GraphAction::SetGraphState(GraphState::Playing)]);
    let _ = mgr.state_change_completed(StateChangeOutcome::NoPreroll);

    // A sub-100% signal on a live source announces loading, but never
    // installs a probe or pauses the graph.
    let (events, actions) = mgr.handle_bus_message(BusMessage::Buffering(40));
    assert_eq!(events, vec![PlaybackUpdate::Loading]);
    assert!(actions.is_empty());

    // Asking to play during that buffering acts immediately.
    let (events, actions) = mgr.play();
    assert!(events.is_empty());
    assert_eq!(actions, vec![GraphAction::SetGraphState(GraphState::Playing)]);
}

#[test]
fn non_live_source_pauses_and_resumes_around_buffering() {
    let mut mgr = PlaybackManager::new();
    let _ = mgr.set_source_uri("http://radio.example/ondemand");
    let _ = mgr.play();
    let _ = mgr.state_change_completed(StateChangeOutcome::Success);

    let (events, actions) = mgr.handle_bus_message(BusMessage::Buffering(30));
    assert_eq!(events, vec![PlaybackUpdate::Loading]);
    assert_eq!(
        actions,
        vec![
            GraphAction::InstallBlockProbe,
            GraphAction::SetGraphState(GraphState::Paused),
        ]
    );
    let _ = mgr.state_change_completed(StateChangeOutcome::Success);

    // Further sub-100% signals while already buffering say nothing new.
    let (events, actions) = mgr.handle_bus_message(BusMessage::Buffering(60));
    assert!(events.is_empty());
    assert!(actions.is_empty());

    // Completion resumes and removes the probe.
    let (events, actions) = mgr.handle_bus_message(BusMessage::Buffering(100));
    assert_eq!(events, vec![PlaybackUpdate::Playing]);
    assert_eq!(
        actions,
        vec![
            GraphAction::SetGraphState(GraphState::Playing),
            GraphAction::RemoveBlockProbe,
        ]
    );
}

#[test]
fn buffering_completion_without_intent_does_not_resume() {
    let mut mgr = PlaybackManager::new();
    let _ = mgr.set_source_uri("http://radio.example/ondemand");
    let _ = mgr.play();
    let _ = mgr.state_change_completed(StateChangeOutcome::Success);
    let _ = mgr.handle_bus_message(BusMessage::Buffering(30));
    let _ = mgr.state_change_completed(StateChangeOutcome::Success);
    let _ = mgr.stop();

    let (events, actions) = mgr.handle_bus_message(BusMessage::Buffering(30));
    assert_eq!(events, vec![PlaybackUpdate::Loading]);
    assert_eq!(
        actions,
        vec![
            GraphAction::InstallBlockProbe,
            GraphAction::SetGraphState(GraphState::Paused),
        ]
    );
    let _ = mgr.state_change_completed(StateChangeOutcome::Success);

    let (events, actions) = mgr.handle_bus_message(BusMessage::Buffering(100));
    assert!(events.is_empty());
    assert_eq!(actions, vec![GraphAction::RemoveBlockProbe]);
}

#[test]
fn stop_publishes_stopped_and_tears_down() {
    let mut mgr = PlaybackManager::new();
    let (events, actions) = mgr.stop();
    assert_eq!(events, vec![PlaybackUpdate::Stopped]);
    assert_eq!(actions, vec![GraphAction::SetGraphState(GraphState::Null)]);

    // Idempotent: stopping again does the same.
    let (events, actions) = mgr.stop();
    assert_eq!(events, vec![PlaybackUpdate::Stopped]);
    assert_eq!(actions, vec![GraphAction::SetGraphState(GraphState::Null)]);
}

#[test]
fn failed_transition_degrades_to_null_with_error() {
    let mut mgr = PlaybackManager::new();
    let _ = mgr.play();
    let (events, actions) = mgr.state_change_completed(StateChangeOutcome::Failure);
    assert_eq!(events, vec![PlaybackUpdate::Error("Error!".to_string())]);
    assert_eq!(actions, vec![GraphAction::SetGraphState(GraphState::Null)]);
}

#[test]
fn graph_errors_pass_through() {
    let mut mgr = PlaybackManager::new();
    let (events, actions) =
        mgr.handle_bus_message(BusMessage::Error("decode failed".to_string()));
    assert_eq!(events, vec![PlaybackUpdate::Error("decode failed".to_string())]);
    assert!(actions.is_empty());
}

#[test]
fn graceful_detach_flushes_then_releases_on_completion() {
    let mut mgr = PlaybackManager::new();
    assert!(!mgr.is_recording());

    let (_, actions) = mgr.start_recording("/tmp/a.ogg".to_string());
    assert_eq!(
        actions,
        vec![GraphAction::AttachBranch("/tmp/a.ogg".to_string())]
    );
    assert!(mgr.is_recording());

    let (_, actions) = mgr.stop_recording(false);
    assert_eq!(
        actions,
        vec![
            GraphAction::UnlinkBranchWhenIdle("/tmp/a.ogg".to_string()),
            GraphAction::FlushBranch("/tmp/a.ogg".to_string()),
        ]
    );
    assert!(!mgr.is_recording());

    let (events, actions) =
        mgr.handle_bus_message(BusMessage::BranchDone("/tmp/a.ogg".to_string()));
    assert!(events.is_empty());
    assert_eq!(
        actions,
        vec![GraphAction::ReleaseBranch("/tmp/a.ogg".to_string())]
    );

    // A completion nobody waits for is ignored.
    let (_, actions) = mgr.handle_bus_message(BusMessage::BranchDone("/tmp/a.ogg".to_string()));
    assert!(actions.is_empty());
}

#[test]
fn discarding_detach_never_flushes() {
    let mut mgr = PlaybackManager::new();
    let _ = mgr.start_recording("/tmp/cut.ogg".to_string());

    let (events, actions) = mgr.stop_recording(true);
    assert!(events.is_empty());
    assert_eq!(
        actions,
        vec![
            GraphAction::UnlinkBranchWhenIdle("/tmp/cut.ogg".to_string()),
            GraphAction::ReleaseBranch("/tmp/cut.ogg".to_string()),
        ]
    );
    assert!(!mgr.is_recording());

    // Detaching with nothing attached is ignored.
    let (events, actions) = mgr.stop_recording(true);
    assert!(events.is_empty());
    assert!(actions.is_empty());
}

#[test]
fn attach_over_attach_finalizes_previous_first() {
    let mut mgr = PlaybackManager::new();
    let _ = mgr.start_recording("/tmp/one.ogg".to_string());

    let (_, actions) = mgr.start_recording("/tmp/two.ogg".to_string());
    assert_eq!(
        actions,
        vec![
            GraphAction::UnlinkBranchWhenIdle("/tmp/one.ogg".to_string()),
            GraphAction::FlushBranch("/tmp/one.ogg".to_string()),
            GraphAction::AttachBranch("/tmp/two.ogg".to_string()),
        ]
    );
    assert!(mgr.is_recording());

    // The first branch still finalizes and is released on completion.
    let (_, actions) =
        mgr.handle_bus_message(BusMessage::BranchDone("/tmp/one.ogg".to_string()));
    assert_eq!(
        actions,
        vec![GraphAction::ReleaseBranch("/tmp/one.ogg".to_string())]
    );
    assert!(mgr.is_recording());
}

#[test]
fn recording_offset_negates_running_time() {
    assert_eq!(recording_offset(10_000, 4_000), -6_000);
    assert_eq!(recording_offset(5, 5), 0);
    assert_eq!(recording_offset(u64::MAX, 0), 0);
}

#[test]
fn should_link_only_unlinked_audio_pads() {
    assert!(should_link(false, "audio/x-raw-int"));
    assert!(should_link(false, "audio/x-raw"));
    assert!(!should_link(false, "video/x-raw"));
    assert!(!should_link(false, "audio/mpeg"));
    assert!(!should_link(true, "audio/x-raw"));
}

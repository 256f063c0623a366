//! The playback/recording orchestration engine.
//!
//! The engine owns every decision the player makes: when to pause and resume
//! around buffering, which sources may be paused at all, when a metadata
//! message amounts to a new track, and how the optional recording branch is
//! attached to and detached from the audio graph without corrupting the live
//! path.  It is a state machine: each operation consumes a command or a graph
//! message and returns the events to publish and the actions the surrounding
//! program must perform on the real media pipeline, in order.
//!
//! The mathematical model of the machine is [`EngineModel`]; every operation's
//! contract says that it implements the corresponding `step_*` function of
//! the model exactly.

use vstd::prelude::*;
use vstd::string::StringExecFns;

use crate::text::starts_with_seq;
use crate::text::str_starts_with;

verus! {

/// Coarse pipeline states the engine asks the graph to enter.
#[derive(Clone, Copy, Debug, PartialEq, Eq, Structural)]
pub enum GraphState {
    Null,
    Paused,
    Playing,
}

/// What the graph reported for a requested state transition.
///
/// `NoPreroll` is a successful transition that produced no preroll buffer:
/// the mark of a live source.
#[derive(Clone, Copy, Debug, PartialEq, Eq, Structural)]
pub enum StateChangeOutcome {
    Success,
    Async,
    NoPreroll,
    Failure,
}

/// An event published to the consumer channel, in arrival order.
#[derive(Debug, PartialEq, Eq)]
pub enum PlaybackUpdate {
    Playing,
    Stopped,
    NewSong(String),
    Error(String),
    Loading,
}

/// A graph message handed to the engine by the bus-draining loop.
#[derive(Debug, PartialEq, Eq)]
pub enum BusMessage {
    /// A metadata message carrying a track title.
    TitleTag(String),
    /// A buffering-progress message, in percent.
    Buffering(i32),
    /// A detached recording branch, identified by its output path, reported
    /// end-of-stream: it has flushed and may leave the graph.
    BranchDone(String),
    /// A transport or decode error reported by the graph.
    Error(String),
}

/// A structural operation the caller must perform on the real graph,
/// in the order returned.
#[derive(Debug, PartialEq, Eq)]
pub enum GraphAction {
    /// Ask the pipeline to enter the given state, then report what it
    /// returned through [`PlaybackManager::state_change_completed`].
    SetGraphState(GraphState),
    /// Point the source element at a new URI.
    SetSourceUri(String),
    /// Install a block probe upstream of the distribution point, so queued
    /// data accumulates without reaching the sink.
    InstallBlockProbe,
    /// Remove the block probe installed earlier.
    RemoveBlockProbe,
    /// Build a recording branch writing to the given path, align its offset
    /// with the graph clock, link it and start it.
    AttachBranch(String),
    /// Wait until no data is in flight towards the branch, then unlink it.
    UnlinkBranchWhenIdle(String),
    /// Send end-of-stream into the detached branch so it finalizes its file.
    FlushBranch(String),
    /// Remove the branch from the graph; it is gone for good.
    ReleaseBranch(String),
}

// ---------------------------------------------------------------------------
// The mathematical model.
// ---------------------------------------------------------------------------

/// Model of a published event.
pub enum Event {
    Playing,
    Stopped,
    NewSong(Seq<char>),
    Error(Seq<char>),
    Loading,
}

/// Model of a graph action.
pub enum Action {
    SetState(GraphState),
    SetUri(Seq<char>),
    InstallProbe,
    RemoveProbe,
    Attach(Seq<char>),
    UnlinkWhenIdle(Seq<char>),
    Flush(Seq<char>),
    Release(Seq<char>),
}

/// Model of a graph message.
pub enum Message {
    Title(Seq<char>),
    Buffering(int),
    BranchDone(Seq<char>),
    Error(Seq<char>),
}

/// The engine's state, abstractly.
pub struct EngineModel {
    /// Title of the currently audible track, if one was ever reported for
    /// the current source; the deduplication key for new-track events.
    pub current_title: Option<Seq<char>>,
    /// Whether the stream is currently buffering (last signal below 100%).
    pub buffering: bool,
    /// Whether the block probe is currently installed.
    pub probe_installed: bool,
    /// Whether the current source is live; undetermined until the graph
    /// reports its first transition to paused-or-above.
    pub is_live: Option<bool>,
    /// Whether the controller wants playback to run.
    pub intent_to_play: bool,
    /// The state transition whose outcome has not been reported back yet.
    pub pending: Option<GraphState>,
    /// Output path of the recording branch currently attached, if any.
    pub attached: Option<Seq<char>>,
    /// Output paths of branches unlinked and flushing, awaiting completion.
    pub finalizing: Seq<Seq<char>>,
}

/// What one engine operation produced: the new state, the events published
/// and the graph actions requested, both in order.
pub struct StepResult {
    pub state: EngineModel,
    pub events: Seq<Event>,
    pub actions: Seq<Action>,
}

impl View for PlaybackUpdate {
    type V = Event;

    open spec fn view(&self) -> Event {
        match self {
            PlaybackUpdate::Playing => Event::Playing,
            PlaybackUpdate::Stopped => Event::Stopped,
            PlaybackUpdate::NewSong(t) => Event::NewSong(t@),
            PlaybackUpdate::Error(e) => Event::Error(e@),
            PlaybackUpdate::Loading => Event::Loading,
        }
    }
}

impl View for GraphAction {
    type V = Action;

    open spec fn view(&self) -> Action {
        match self {
            GraphAction::SetGraphState(s) => Action::SetState(*s),
            GraphAction::SetSourceUri(u) => Action::SetUri(u@),
            GraphAction::InstallBlockProbe => Action::InstallProbe,
            GraphAction::RemoveBlockProbe => Action::RemoveProbe,
            GraphAction::AttachBranch(p) => Action::Attach(p@),
            GraphAction::UnlinkBranchWhenIdle(p) => Action::UnlinkWhenIdle(p@),
            GraphAction::FlushBranch(p) => Action::Flush(p@),
            GraphAction::ReleaseBranch(p) => Action::Release(p@),
        }
    }
}

impl View for BusMessage {
    type V = Message;

    open spec fn view(&self) -> Message {
        match self {
            BusMessage::TitleTag(t) => Message::Title(t@),
            BusMessage::Buffering(p) => Message::Buffering(*p as int),
            BusMessage::BranchDone(p) => Message::BranchDone(p@),
            BusMessage::Error(e) => Message::Error(e@),
        }
    }
}

/// The views of a vector of published events.
pub open spec fn events_of(v: Seq<PlaybackUpdate>) -> Seq<Event> {
    v.map_values(|e: PlaybackUpdate| e@)
}

/// The views of a vector of requested actions.
pub open spec fn actions_of(v: Seq<GraphAction>) -> Seq<Action> {
    v.map_values(|a: GraphAction| a@)
}

/// The state of a freshly created engine.
pub open spec fn init_model() -> EngineModel {
    EngineModel {
        current_title: None,
        buffering: false,
        probe_installed: false,
        is_live: None,
        intent_to_play: false,
        pending: None,
        attached: None,
        finalizing: Seq::empty(),
    }
}

/// A step that changes nothing and produces nothing.
pub open spec fn step_nothing(m: EngineModel) -> StepResult {
    StepResult { state: m, events: Seq::empty(), actions: Seq::empty() }
}

/// Switching the source: tear the graph down, clear the title cache so the
/// first title on the new source always counts as new, forget whether the
/// source was live, and point the source element at the new URI.
pub open spec fn step_set_source(m: EngineModel, uri: Seq<char>) -> StepResult {
    StepResult {
        state: EngineModel {
            current_title: None,
            buffering: false,
            probe_installed: false,
            is_live: None,
            intent_to_play: false,
            pending: Some(GraphState::Null),
            ..m
        },
        events: Seq::empty(),
        actions: (if m.probe_installed {
            seq![Action::RemoveProbe]
        } else {
            Seq::empty()
        }) + seq![Action::SetState(GraphState::Null), Action::SetUri(uri)],
    }
}

/// `play` is deferred while a non-live source is buffering: the transition
/// to playing happens when buffering completes.  A live source cannot be
/// paused meaningfully, so it is never deferred.
pub open spec fn play_deferred(m: EngineModel) -> bool {
    m.buffering && m.is_live == Some(false)
}

/// Playing: record the intent; unless deferred, ask the graph to play.
pub open spec fn step_play(m: EngineModel) -> StepResult {
    if play_deferred(m) {
        StepResult {
            state: EngineModel { intent_to_play: true, ..m },
            events: Seq::empty(),
            actions: Seq::empty(),
        }
    } else {
        StepResult {
            state: EngineModel {
                intent_to_play: true,
                pending: Some(GraphState::Playing),
                ..m
            },
            events: Seq::empty(),
            actions: seq![Action::SetState(GraphState::Playing)],
        }
    }
}

/// Stopping: clear the intent, the title cache and the buffering cycle
/// (whether the source is live stays known), publish `Stopped`, and tear
/// the graph down.
pub open spec fn step_stop(m: EngineModel) -> StepResult {
    StepResult {
        state: EngineModel {
            current_title: None,
            buffering: false,
            probe_installed: false,
            intent_to_play: false,
            pending: Some(GraphState::Null),
            ..m
        },
        events: seq![Event::Stopped],
        actions: (if m.probe_installed {
            seq![Action::RemoveProbe]
        } else {
            Seq::empty()
        }) + seq![Action::SetState(GraphState::Null)],
    }
}

/// The graph reported the outcome of the pending transition.  A failed
/// transition upwards degrades the graph to `Null` and publishes an error;
/// a successful transition to paused-or-above latches whether the source is
/// live, once: a `NoPreroll` outcome means live.
pub open spec fn step_state_done(m: EngineModel, outcome: StateChangeOutcome) -> StepResult {
    match m.pending {
        None => step_nothing(m),
        Some(target) => {
            let m1 = EngineModel { pending: None, ..m };
            if outcome == StateChangeOutcome::Failure {
                if target == GraphState::Null {
                    StepResult { state: m1, events: Seq::empty(), actions: Seq::empty() }
                } else {
                    StepResult {
                        state: m1,
                        events: seq![Event::Error(state_change_error_message())],
                        actions: seq![Action::SetState(GraphState::Null)],
                    }
                }
            } else if target != GraphState::Null && m.is_live is None {
                StepResult {
                    state: EngineModel {
                        is_live: Some(outcome == StateChangeOutcome::NoPreroll),
                        ..m1
                    },
                    events: Seq::empty(),
                    actions: Seq::empty(),
                }
            } else {
                StepResult { state: m1, events: Seq::empty(), actions: Seq::empty() }
            }
        }
    }
}

/// The message published when a state transition fails.
pub open spec fn state_change_error_message() -> Seq<char> {
    "Error!"@
}

/// A buffering-progress signal.
///
/// Entering the buffering phase (first signal below 100% while not
/// buffering) publishes `Loading`; on a known non-live source it also blocks
/// the flow ahead of the sink and pauses the graph.  Leaving it (a 100%
/// signal while buffering) resumes a known non-live source if the controller
/// intends to play, publishing `Playing`, and always removes the block probe
/// if one is installed.
pub open spec fn step_buffering(m: EngineModel, percent: int) -> StepResult {
    if percent < 100 {
        if !m.buffering {
            if m.is_live == Some(false) {
                StepResult {
                    state: EngineModel {
                        buffering: true,
                        probe_installed: true,
                        pending: Some(GraphState::Paused),
                        ..m
                    },
                    events: seq![Event::Loading],
                    actions: seq![Action::InstallProbe, Action::SetState(GraphState::Paused)],
                }
            } else {
                StepResult {
                    state: EngineModel { buffering: true, ..m },
                    events: seq![Event::Loading],
                    actions: Seq::empty(),
                }
            }
        } else {
            step_nothing(m)
        }
    } else {
        if m.buffering {
            let resume = m.is_live == Some(false) && m.intent_to_play;
            StepResult {
                state: EngineModel {
                    buffering: false,
                    probe_installed: false,
                    pending: if resume {
                        Some(GraphState::Playing)
                    } else {
                        m.pending
                    },
                    ..m
                },
                events: if resume {
                    seq![Event::Playing]
                } else {
                    Seq::empty()
                },
                actions: (if resume {
                    seq![Action::SetState(GraphState::Playing)]
                } else {
                    Seq::empty()
                }) + (if m.probe_installed {
                    seq![Action::RemoveProbe]
                } else {
                    Seq::empty()
                }),
            }
        } else {
            step_nothing(m)
        }
    }
}

/// A finalizing branch reported completion: it leaves the bookkeeping and
/// the graph.  A branch nobody is waiting for is ignored.
pub open spec fn step_branch_done(m: EngineModel, path: Seq<char>) -> StepResult {
    match first_index_of(m.finalizing, path) {
        Some(i) => StepResult {
            state: EngineModel { finalizing: m.finalizing.remove(i), ..m },
            events: Seq::empty(),
            actions: seq![Action::Release(path)],
        },
        None => step_nothing(m),
    }
}

/// Index of the first occurrence of `x` in `s`, if any.
pub open spec fn first_index_of(s: Seq<Seq<char>>, x: Seq<char>) -> Option<int>
    decreases s.len(),
{
    if s.len() == 0 {
        None
    } else if s[0] == x {
        Some(0int)
    } else {
        match first_index_of(s.drop_first(), x) {
            Some(i) => Some(i + 1),
            None => None,
        }
    }
}

/// One graph message.
pub open spec fn step_message(m: EngineModel, msg: Message) -> StepResult {
    match msg {
        Message::Title(t) => {
            if m.current_title == Some(t) {
                step_nothing(m)
            } else {
                StepResult {
                    state: EngineModel { current_title: Some(t), ..m },
                    events: seq![Event::NewSong(t)],
                    actions: Seq::empty(),
                }
            }
        }
        Message::Buffering(percent) => step_buffering(m, percent),
        Message::BranchDone(path) => step_branch_done(m, path),
        Message::Error(e) => StepResult {
            state: m,
            events: seq![Event::Error(e)],
            actions: Seq::empty(),
        },
    }
}

/// Starting a recording: if a branch is already attached, it is first
/// detached gracefully — unlinked when idle, then flushed — and only then is
/// the new branch attached, so at most one branch is ever attached.
pub open spec fn step_start_recording(m: EngineModel, path: Seq<char>) -> StepResult {
    match m.attached {
        Some(prev) => StepResult {
            state: EngineModel {
                attached: Some(path),
                finalizing: m.finalizing.push(prev),
                ..m
            },
            events: Seq::empty(),
            actions: seq![
                Action::UnlinkWhenIdle(prev),
                Action::Flush(prev),
                Action::Attach(path),
            ],
        },
        None => StepResult {
            state: EngineModel { attached: Some(path), ..m },
            events: Seq::empty(),
            actions: seq![Action::Attach(path)],
        },
    }
}

/// Stopping the recording: the branch is unlinked once idle.  Without
/// `discard` it is then flushed and leaves the graph only after it reports
/// completion; with `discard` it is torn down at once, never flushed, and
/// its file may be incomplete.  A detach with nothing attached is ignored.
pub open spec fn step_stop_recording(m: EngineModel, discard: bool) -> StepResult {
    match m.attached {
        None => step_nothing(m),
        Some(p) => {
            if discard {
                StepResult {
                    state: EngineModel { attached: None, ..m },
                    events: Seq::empty(),
                    actions: seq![Action::UnlinkWhenIdle(p), Action::Release(p)],
                }
            } else {
                StepResult {
                    state: EngineModel {
                        attached: None,
                        finalizing: m.finalizing.push(p),
                        ..m
                    },
                    events: Seq::empty(),
                    actions: seq![Action::UnlinkWhenIdle(p), Action::Flush(p)],
                }
            }
        }
    }
}

// ---------------------------------------------------------------------------
// The executable engine.
// ---------------------------------------------------------------------------

/// Shared buffering bookkeeping: the buffering flag, whether the block probe
/// is installed, and whether the source is live.
pub struct BufferingState {
    pub buffering: bool,
    pub probe_installed: bool,
    pub is_live: Option<bool>,
}

impl BufferingState {
    /// Forget everything about the current source's buffering.
    pub fn reset(&mut self)
        ensures
            final(self).buffering == false,
            final(self).probe_installed == false,
            final(self).is_live is None,
    {
        self.buffering = false;
        self.probe_installed = false;
        self.is_live = None;
    }
}

/// The playback manager: the verified state machine orchestrating playback
/// and recording.  Its abstract state is `self@`, an [`EngineModel`].
pub struct PlaybackManager {
    current_title: Option<String>,
    buffering_state: BufferingState,
    intent_to_play: bool,
    pending: Option<GraphState>,
    attached: Option<String>,
    finalizing: Vec<String>,
}

impl View for PlaybackManager {
    type V = EngineModel;

    closed spec fn view(&self) -> EngineModel {
        EngineModel {
            current_title: match self.current_title {
                Some(t) => Some(t@),
                None => None,
            },
            buffering: self.buffering_state.buffering,
            probe_installed: self.buffering_state.probe_installed,
            is_live: self.buffering_state.is_live,
            intent_to_play: self.intent_to_play,
            pending: self.pending,
            attached: match self.attached {
                Some(p) => Some(p@),
                None => None,
            },
            finalizing: self.finalizing@.map_values(|s: String| s@),
        }
    }
}

/// The pair every engine operation returns: events to publish on the
/// consumer channel and actions to perform on the graph, each in order.
pub type EngineOutput = (Vec<PlaybackUpdate>, Vec<GraphAction>);

impl PlaybackManager {
    /// A fresh engine: nothing playing, nothing known, nothing attached.
    pub fn new() -> (mgr: PlaybackManager)
        ensures
            mgr@ == init_model(),
    {
        let mgr = PlaybackManager {
            current_title: None,
            buffering_state: BufferingState {
                buffering: false,
                probe_installed: false,
                is_live: None,
            },
            intent_to_play: false,
            pending: None,
            attached: None,
            finalizing: Vec::new(),
        };
        proof {
            assert(mgr@.finalizing =~= init_model().finalizing);
            assert(mgr@ =~= init_model());
        }
        mgr
    }

    /// Pure query: is a recording branch currently attached?
    pub fn is_recording(&self) -> (b: bool)
        ensures
            b == (self@.attached is Some),
    {
        self.attached.is_some()
    }

    /// Point the graph at a new source URI (safe while playing: the graph is
    /// first torn down).
    pub fn set_source_uri(&mut self, source: &str) -> (out: EngineOutput)
        ensures
            final(self)@ == step_set_source(old(self)@, source@).state,
            events_of(out.0@) == step_set_source(old(self)@, source@).events,
            actions_of(out.1@) == step_set_source(old(self)@, source@).actions,
    {
        let ghost pre = self@;
        let mut actions: Vec<GraphAction> = Vec::new();
        if self.buffering_state.probe_installed {
            actions.push(GraphAction::RemoveBlockProbe);
        }
        actions.push(GraphAction::SetGraphState(GraphState::Null));
        actions.push(GraphAction::SetSourceUri(source.to_owned()));

        self.current_title = None;
        self.buffering_state.reset();
        self.intent_to_play = false;
        self.pending = Some(GraphState::Null);

        proof {
            assert(self@ =~= step_set_source(pre, source@).state);
            assert(actions_of(actions@) =~= step_set_source(pre, source@).actions);
            assert(events_of(Seq::<PlaybackUpdate>::empty()) =~= Seq::<Event>::empty());
        }
        (Vec::new(), actions)
    }

    /// Ask for playback.  While a non-live source is buffering the
    /// transition is deferred until buffering completes; otherwise the graph
    /// is asked to play at once.
    pub fn play(&mut self) -> (out: EngineOutput)
        ensures
            final(self)@ == step_play(old(self)@).state,
            events_of(out.0@) == step_play(old(self)@).events,
            actions_of(out.1@) == step_play(old(self)@).actions,
    {
        let ghost pre = self@;
        self.intent_to_play = true;
        let deferred = self.buffering_state.buffering && match self.buffering_state.is_live {
            Some(live) => !live,
            None => false,
        };
        let mut actions: Vec<GraphAction> = Vec::new();
        if !deferred {
            self.pending = Some(GraphState::Playing);
            actions.push(GraphAction::SetGraphState(GraphState::Playing));
        }
        proof {
            assert(deferred == play_deferred(pre));
            assert(self@ =~= step_play(pre).state);
            assert(actions_of(actions@) =~= step_play(pre).actions);
            assert(events_of(Seq::<PlaybackUpdate>::empty()) =~= Seq::<Event>::empty());
        }
        (Vec::new(), actions)
    }

    /// Stop playback: publish `Stopped`, clear the title cache and the
    /// buffering cycle, and tear the graph down.  Idempotent.
    pub fn stop(&mut self) -> (out: EngineOutput)
        ensures
            final(self)@ == step_stop(old(self)@).state,
            events_of(out.0@) == step_stop(old(self)@).events,
            actions_of(out.1@) == step_stop(old(self)@).actions,
    {
        let ghost pre = self@;
        let mut events: Vec<PlaybackUpdate> = Vec::new();
        events.push(PlaybackUpdate::Stopped);
        let mut actions: Vec<GraphAction> = Vec::new();
        if self.buffering_state.probe_installed {
            actions.push(GraphAction::RemoveBlockProbe);
        }
        actions.push(GraphAction::SetGraphState(GraphState::Null));

        self.current_title = None;
        self.buffering_state.buffering = false;
        self.buffering_state.probe_installed = false;
        self.intent_to_play = false;
        self.pending = Some(GraphState::Null);

        proof {
            assert(self@ =~= step_stop(pre).state);
            assert(events_of(events@) =~= step_stop(pre).events);
            assert(actions_of(actions@) =~= step_stop(pre).actions);
        }
        (events, actions)
    }

    /// Report what the graph returned for the transition requested last.
    /// Latches whether the source is live the first time a transition to
    /// paused-or-above succeeds; degrades to `Null` on failure.
    pub fn state_change_completed(&mut self, outcome: StateChangeOutcome) -> (out: EngineOutput)
        ensures
            final(self)@ == step_state_done(old(self)@, outcome).state,
            events_of(out.0@) == step_state_done(old(self)@, outcome).events,
            actions_of(out.1@) == step_state_done(old(self)@, outcome).actions,
    {
        let ghost pre = self@;
        let mut events: Vec<PlaybackUpdate> = Vec::new();
        let mut actions: Vec<GraphAction> = Vec::new();
        match self.pending {
            None => {}
            Some(target) => {
                self.pending = None;
                if outcome == StateChangeOutcome::Failure {
                    if target != GraphState::Null {
                        events.push(PlaybackUpdate::Error(String::from_str("Error!")));
                        actions.push(GraphAction::SetGraphState(GraphState::Null));
                    }
                } else if target != GraphState::Null {
                    if self.buffering_state.is_live.is_none() {
                        self.buffering_state.is_live =
                            Some(outcome == StateChangeOutcome::NoPreroll);
                    }
                }
            }
        }
        proof {
            assert(self@ =~= step_state_done(pre, outcome).state);
            assert(events_of(events@) =~= step_state_done(pre, outcome).events);
            assert(actions_of(actions@) =~= step_state_done(pre, outcome).actions);
        }
        (events, actions)
    }

    /// Handle one message from the graph's ordered message stream.  Events
    /// come out in message order; nothing is dropped silently except a
    /// repeated, unchanged title.
    pub fn handle_bus_message(&mut self, message: BusMessage) -> (out: EngineOutput)
        ensures
            final(self)@ == step_message(old(self)@, message@).state,
            events_of(out.0@) == step_message(old(self)@, message@).events,
            actions_of(out.1@) == step_message(old(self)@, message@).actions,
    {
        let ghost pre = self@;
        let ghost msg = message@;
        let mut events: Vec<PlaybackUpdate> = Vec::new();
        let mut actions: Vec<GraphAction> = Vec::new();
        match message {
            BusMessage::TitleTag(title) => {
                let same = match &self.current_title {
                    Some(current) => *current == title,
                    None => false,
                };
                if !same {
                    events.push(PlaybackUpdate::NewSong(title.clone()));
                    self.current_title = Some(title);
                }
            }
            BusMessage::Buffering(percent) => {
                if percent < 100 {
                    if !self.buffering_state.buffering {
                        self.buffering_state.buffering = true;
                        events.push(PlaybackUpdate::Loading);
                        let throttle = match self.buffering_state.is_live {
                            Some(live) => !live,
                            None => false,
                        };
                        if throttle {
                            self.buffering_state.probe_installed = true;
                            self.pending = Some(GraphState::Paused);
                            actions.push(GraphAction::InstallBlockProbe);
                            actions.push(GraphAction::SetGraphState(GraphState::Paused));
                        }
                    }
                } else if self.buffering_state.buffering {
                    self.buffering_state.buffering = false;
                    let resume = self.intent_to_play && match self.buffering_state.is_live {
                        Some(live) => !live,
                        None => false,
                    };
                    if resume {
                        self.pending = Some(GraphState::Playing);
                        events.push(PlaybackUpdate::Playing);
                        actions.push(GraphAction::SetGraphState(GraphState::Playing));
                    }
                    if self.buffering_state.probe_installed {
                        self.buffering_state.probe_installed = false;
                        actions.push(GraphAction::RemoveBlockProbe);
                    }
                }
            }
            BusMessage::BranchDone(path) => {
                let found = self.find_finalizing(&path);
                match found {
                    Some(i) => {
                        self.finalizing.remove(i);
                        proof {
                            assert(self.finalizing@.map_values(|s: String| s@)
                                =~= pre.finalizing.remove(i as int));
                        }
                        actions.push(GraphAction::ReleaseBranch(path));
                    }
                    None => {}
                }
            }
            BusMessage::Error(e) => {
                events.push(PlaybackUpdate::Error(e));
            }
        }
        proof {
            assert(self@ =~= step_message(pre, msg).state);
            assert(events_of(events@) =~= step_message(pre, msg).events);
            assert(actions_of(actions@) =~= step_message(pre, msg).actions);
        }
        (events, actions)
    }

    /// Index of the first finalizing branch with the given path.
    fn find_finalizing(&self, path: &String) -> (r: Option<usize>)
        ensures
            match r {
                Some(i) => {
                    &&& first_index_of(self@.finalizing, path@) == Some(i as int)
                    &&& i < self@.finalizing.len()
                },
                None => first_index_of(self@.finalizing, path@) is None,
            },
    {
        let n = self.finalizing.len();
        let mut i: usize = 0;
        while i < n
            invariant
                n == self.finalizing.len(),
                0 <= i <= n,
                first_index_of_skips(self@.finalizing, path@, i as int),
            decreases n - i,
        {
            let candidate: &String = &self.finalizing[i];
            if *candidate == *path {
                proof {
                    lemma_first_index_of_found(self@.finalizing, path@, i as int);
                }
                return Some(i);
            }
            i += 1;
        }
        proof {
            lemma_first_index_of_missing(self@.finalizing, path@);
        }
        None
    }

    /// Start recording to `path`; a branch already attached is first
    /// detached gracefully.
    pub fn start_recording(&mut self, path: String) -> (out: EngineOutput)
        ensures
            final(self)@ == step_start_recording(old(self)@, path@).state,
            events_of(out.0@) == step_start_recording(old(self)@, path@).events,
            actions_of(out.1@) == step_start_recording(old(self)@, path@).actions,
    {
        let ghost pre = self@;
        let ghost pv = path@;
        let mut actions: Vec<GraphAction> = Vec::new();
        let mut previous: Option<String> = None;
        core::mem::swap(&mut self.attached, &mut previous);
        match previous {
            Some(prev) => {
                actions.push(GraphAction::UnlinkBranchWhenIdle(prev.clone()));
                actions.push(GraphAction::FlushBranch(prev.clone()));
                self.finalizing.push(prev);
            }
            None => {}
        }
        actions.push(GraphAction::AttachBranch(path.clone()));
        self.attached = Some(path);
        proof {
            assert(self@.finalizing =~= step_start_recording(pre, pv).state.finalizing);
            assert(self@ =~= step_start_recording(pre, pv).state);
            assert(actions_of(actions@) =~= step_start_recording(pre, pv).actions);
            assert(events_of(Seq::<PlaybackUpdate>::empty()) =~= Seq::<Event>::empty());
        }
        (Vec::new(), actions)
    }

    /// Stop recording.  With `discard_buffered_data` the branch is torn
    /// down immediately and never flushed; otherwise it is flushed and
    /// leaves the graph once it reports completion.
    pub fn stop_recording(&mut self, discard_buffered_data: bool) -> (out: EngineOutput)
        ensures
            final(self)@ == step_stop_recording(old(self)@, discard_buffered_data).state,
            events_of(out.0@) == step_stop_recording(old(self)@, discard_buffered_data).events,
            actions_of(out.1@) == step_stop_recording(old(self)@, discard_buffered_data).actions,
    {
        let ghost pre = self@;
        let mut actions: Vec<GraphAction> = Vec::new();
        let mut previous: Option<String> = None;
        core::mem::swap(&mut self.attached, &mut previous);
        match previous {
            Some(prev) => {
                actions.push(GraphAction::UnlinkBranchWhenIdle(prev.clone()));
                if discard_buffered_data {
                    actions.push(GraphAction::ReleaseBranch(prev));
                } else {
                    actions.push(GraphAction::FlushBranch(prev.clone()));
                    self.finalizing.push(prev);
                }
            }
            None => {}
        }
        proof {
            if pre.attached is Some && !discard_buffered_data {
                assert(self@.finalizing =~= step_stop_recording(pre, discard_buffered_data).state.finalizing);
            }
            assert(self@ =~= step_stop_recording(pre, discard_buffered_data).state);
            assert(actions_of(actions@) =~= step_stop_recording(pre, discard_buffered_data).actions);
            assert(events_of(Seq::<PlaybackUpdate>::empty()) =~= Seq::<Event>::empty());
        }
        (Vec::new(), actions)
    }
}

/// `first_index_of` finds nothing among the first `i` elements.
pub open spec fn first_index_of_skips(s: Seq<Seq<char>>, x: Seq<char>, i: int) -> bool {
    forall|k: int| 0 <= k < i ==> s[k] != x
}

proof fn lemma_first_index_of_found(s: Seq<Seq<char>>, x: Seq<char>, i: int)
    requires
        0 <= i < s.len(),
        s[i] == x,
        forall|k: int| 0 <= k < i ==> s[k] != x,
    ensures
        first_index_of(s, x) == Some(i),
    decreases i,
{
    if i == 0 {
    } else {
        assert(s[0] != x);
        lemma_first_index_of_found(s.drop_first(), x, i - 1);
    }
}

proof fn lemma_first_index_of_missing(s: Seq<Seq<char>>, x: Seq<char>)
    requires
        forall|k: int| 0 <= k < s.len() ==> s[k] != x,
    ensures
        first_index_of(s, x) is None,
    decreases s.len(),
{
    if s.len() == 0 {
    } else {
        lemma_first_index_of_missing(s.drop_first(), x);
    }
}

/// Computes the offset a freshly attached recording branch must carry so
/// that the recorded track's duration comes out right: the negated running
/// time of the graph, or zero when the magnitude does not fit a signed
/// offset.
pub fn recording_offset(clock_time: u64, base_time: u64) -> (off: i64)
    requires
        base_time <= clock_time,
    ensures
        clock_time - base_time <= i64::MAX ==> off == -((clock_time - base_time) as int),
        clock_time - base_time > i64::MAX ==> off == 0,
{
    let diff: u64 = clock_time - base_time;
    if diff <= i64::MAX as u64 {
        -(diff as i64)
    } else {
        0
    }
}

/// The dynamic-linking rule for a freshly produced decoder output port: link
/// it to the distribution point only if that input is not already linked and
/// the port carries raw audio.
pub fn should_link(sink_already_linked: bool, pad_type: &str) -> (b: bool)
    ensures
        b == (!sink_already_linked && starts_with_seq(pad_type@, "audio/x-raw"@)),
{
    !sink_already_linked && str_starts_with(pad_type, "audio/x-raw")
}

// ---------------------------------------------------------------------------
// Laws of the engine.
// ---------------------------------------------------------------------------

/// Law: titles never repeat back to back.  Handling a title message leaves
/// the cache holding that title, so handling the same title again emits
/// nothing; a title differing from the cache always emits exactly one
/// `NewSong` carrying it.
pub proof fn lemma_title_dedup(m: EngineModel, t: Seq<char>)
    ensures
        step_message(m, Message::Title(t)).state.current_title == Some(t),
        step_message(step_message(m, Message::Title(t)).state, Message::Title(t)).events
            == Seq::<Event>::empty(),
        m.current_title != Some(t) ==> step_message(m, Message::Title(t)).events == seq![
            Event::NewSong(t),
        ],
{
}

/// Law: switching the source resets the deduplication cache, so a title
/// identical to the last one heard on the old source fires `NewSong` again
/// on the new source.
pub proof fn lemma_new_source_resets_dedup(m: EngineModel, uri: Seq<char>, t: Seq<char>)
    ensures
        step_message(step_set_source(m, uri).state, Message::Title(t)).events == seq![
            Event::NewSong(t),
        ],
{
}

/// Law: whether the source is live is latched at most once per source
/// lifetime.  Once known, no graph message, transition report, play, stop or
/// recording operation changes it; only switching the source clears it.
pub proof fn lemma_is_live_latched(
    m: EngineModel,
    msg: Message,
    outcome: StateChangeOutcome,
    discard: bool,
    path: Seq<char>,
)
    requires
        m.is_live is Some,
    ensures
        step_message(m, msg).state.is_live == m.is_live,
        step_state_done(m, outcome).state.is_live == m.is_live,
        step_play(m).state.is_live == m.is_live,
        step_stop(m).state.is_live == m.is_live,
        step_start_recording(m, path).state.is_live == m.is_live,
        step_stop_recording(m, discard).state.is_live == m.is_live,
{
}

/// Law: the branch-detach discipline.  A discarding detach never flushes the
/// removed branch; a graceful detach always unlinks and then flushes it,
/// and never releases it — a finalizing branch leaves the graph only through
/// the completion message it reports, which releases exactly that branch.
pub proof fn lemma_detach_flush_discipline(m: EngineModel, p: Seq<char>)
    ensures
        forall|i: int|
            0 <= i < step_stop_recording(m, true).actions.len() ==> !(#[trigger] step_stop_recording(
                m,
                true,
            ).actions[i] is Flush),
        m.attached matches Some(q) ==> step_stop_recording(m, false).actions == seq![
            Action::UnlinkWhenIdle(q),
            Action::Flush(q),
        ],
        forall|i: int|
            0 <= i < step_stop_recording(m, false).actions.len() ==> !(
            #[trigger] step_stop_recording(m, false).actions[i] is Release),
        m.finalizing.contains(p) ==> step_branch_done(m, p).actions == seq![Action::Release(p)],
{
    if m.finalizing.contains(p) {
        lemma_first_index_of_present(m.finalizing, p);
    }
}

/// Law: a live source is never throttled.  `play` acts immediately even
/// while buffering, and entering the buffering phase on a live source
/// neither blocks the flow nor pauses the graph.
pub proof fn lemma_live_source_immediate(m: EngineModel, percent: int)
    requires
        m.is_live == Some(true),
    ensures
        step_play(m).actions == seq![Action::SetState(GraphState::Playing)],
        percent < 100 && !m.buffering ==> step_buffering(m, percent).actions
            == Seq::<Action>::empty(),
{
}

/// Law: at most one recording branch is ever attached.  Starting a recording
/// over an attached session first finalizes the old branch — unlink, then
/// flush — before the new branch is attached, and afterwards exactly the new
/// branch is attached while the old one is finalizing.
pub proof fn lemma_attach_replaces_gracefully(m: EngineModel, path: Seq<char>)
    ensures
        m.attached matches Some(prev) ==> step_start_recording(m, path).actions == seq![
            Action::UnlinkWhenIdle(prev),
            Action::Flush(prev),
            Action::Attach(path),
        ],
        m.attached matches Some(prev) ==> step_start_recording(m, path).state.finalizing
            == m.finalizing.push(prev),
        step_start_recording(m, path).state.attached == Some(path),
        m.attached is None ==> step_start_recording(m, path).actions == seq![Action::Attach(path)],
{
}

/// A sequence containing a value has a first occurrence of it.
proof fn lemma_first_index_of_present(s: Seq<Seq<char>>, x: Seq<char>)
    requires
        s.contains(x),
    ensures
        first_index_of(s, x) is Some,
    decreases s.len(),
{
    if s.len() == 0 {
    } else if s[0] == x {
    } else {
        let i = choose|i: int| 0 <= i < s.len() && s[i] == x;
        assert(s.drop_first()[i - 1] == x);
        lemma_first_index_of_present(s.drop_first(), x);
    }
}

} // verus!

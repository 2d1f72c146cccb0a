//! The state machine that owns the application state and the recording
//! buffer. Every change of state goes through one of its transitions; a
//! transition that is not legal from the current state is refused and
//! changes nothing.

use crate::modules::codec::text_view;
use crate::modules::input::EventType;
use crate::modules::macro_engine::{play_macro, playback_steps, Macro, PlaybackStep, TimedEvent};
use vstd::prelude::*;
use vstd::string::*;

verus! {

/// What the application is doing at this instant.
#[derive(Clone, Copy, Debug, PartialEq, Eq, Structural)]
pub enum AppState {
    IDLE,
    LISTENING,
    RECORDING,
    EXECUTING,
}

/// How a task ended.
#[derive(Clone, Debug, PartialEq, Eq)]
pub struct TaskResult {
    pub success: bool,
    pub message: String,
}

impl TaskResult {
    /// The result of a task that ran to its end.
    pub fn completed() -> (result: Self)
        ensures
            result.success,
            result.message@ == "Task completed successfully!"@,
    {
        TaskResult { success: true, message: "Task completed successfully!".to_string() }
    }
}

/// Why the orchestrator refused or failed.
#[derive(Clone, Debug, PartialEq, Eq)]
pub enum OrchestratorError {
    /// The transition to `to` is not legal from the state `from`.
    InvalidStateTransition { from: AppState, to: AppState },
    /// The recorded macro could not be saved; the reason is as the store
    /// gave it.
    FileSystemError(String),
}

/// The name of a state, as it is shown and announced.
pub open spec fn state_name(state: AppState) -> Seq<char> {
    match state {
        AppState::IDLE => "IDLE"@,
        AppState::LISTENING => "LISTENING"@,
        AppState::RECORDING => "RECORDING"@,
        AppState::EXECUTING => "EXECUTING"@,
    }
}

/// What an error says to the user.
pub open spec fn error_message(error: OrchestratorError) -> Seq<char> {
    match error {
        OrchestratorError::InvalidStateTransition { from, to } => {
            "Invalid state transition: Cannot go from "@ + state_name(from) + " to "@ + state_name(
                to,
            )
        },
        OrchestratorError::FileSystemError(reason) => "File system error: "@ + reason@,
    }
}

impl AppState {
    /// The name of the state.
    pub fn name(&self) -> (name: &'static str)
        ensures
            name@ == state_name(*self),
    {
        match self {
            AppState::IDLE => "IDLE",
            AppState::LISTENING => "LISTENING",
            AppState::RECORDING => "RECORDING",
            AppState::EXECUTING => "EXECUTING",
        }
    }
}

impl OrchestratorError {
    /// What the error says to the user.
    pub fn message(&self) -> (message: String)
        ensures
            message@ == error_message(*self),
    {
        match self {
            OrchestratorError::InvalidStateTransition { from, to } => {
                String::from_str("Invalid state transition: Cannot go from ").concat(
                    from.name(),
                ).concat(" to ").concat(to.name())
            },
            OrchestratorError::FileSystemError(reason) => {
                String::from_str("File system error: ").concat(reason.as_str())
            },
        }
    }
}

/// The part of the agent that observes.
#[derive(Clone, Copy, Debug, PartialEq, Eq, Structural)]
pub struct Perception;

/// The part of the agent that plans.
#[derive(Clone, Copy, Debug, PartialEq, Eq, Structural)]
pub struct Cognition;

/// The part of the agent that acts.
#[derive(Clone, Copy, Debug, PartialEq, Eq, Structural)]
pub struct Tooling;

/// The part of the agent that remembers.
#[derive(Clone, Copy, Debug, PartialEq, Eq, Structural)]
pub struct Knowledge;

/// What asks for a change of state.
#[derive(Clone, Copy, Debug, PartialEq, Eq, Structural)]
pub enum Trigger {
    StartListening,
    StartRecording,
    StartExecuting,
    StopRecording,
    Stop,
}

/// The state that a trigger leads to.
pub open spec fn target(trigger: Trigger) -> AppState {
    match trigger {
        Trigger::StartListening => AppState::LISTENING,
        Trigger::StartRecording => AppState::RECORDING,
        Trigger::StartExecuting => AppState::EXECUTING,
        Trigger::StopRecording => AppState::IDLE,
        Trigger::Stop => AppState::IDLE,
    }
}

/// The table of legal transitions: whether `trigger` may fire in the state
/// `from`.
pub open spec fn permitted(from: AppState, trigger: Trigger) -> bool {
    match trigger {
        Trigger::StartListening => from == AppState::IDLE,
        Trigger::StartRecording => from == AppState::IDLE,
        Trigger::StartExecuting => from == AppState::IDLE || from == AppState::LISTENING,
        Trigger::StopRecording => from == AppState::RECORDING,
        Trigger::Stop => true,
    }
}

/// What a trigger gives in the state `from`: the new state, or the refusal.
pub open spec fn transition_spec(from: AppState, trigger: Trigger) -> Result<
    AppState,
    OrchestratorError,
> {
    if permitted(from, trigger) {
        Ok(target(trigger))
    } else {
        Err(OrchestratorError::InvalidStateTransition { from, to: target(trigger) })
    }
}

/// Looks a trigger up in the table of legal transitions.
pub fn transition(from: AppState, trigger: Trigger) -> (outcome: Result<
    AppState,
    OrchestratorError,
>)
    ensures
        outcome == transition_spec(from, trigger),
{
    let (legal, to) = match trigger {
        Trigger::StartListening => (from == AppState::IDLE, AppState::LISTENING),
        Trigger::StartRecording => (from == AppState::IDLE, AppState::RECORDING),
        Trigger::StartExecuting => (
            from == AppState::IDLE || from == AppState::LISTENING,
            AppState::EXECUTING,
        ),
        Trigger::StopRecording => (from == AppState::RECORDING, AppState::IDLE),
        Trigger::Stop => (true, AppState::IDLE),
    };
    if legal {
        Ok(to)
    } else {
        Err(OrchestratorError::InvalidStateTransition { from, to })
    }
}

/// The orchestrator as a mathematical value.
pub struct OrchestratorView {
    pub state: AppState,
    pub session_context: Option<Seq<char>>,
    pub recording_buffer: Seq<TimedEvent>,
    pub last_event_time: Option<u64>,
}

/// The orchestrator at the start: idle, with no session and nothing
/// recorded.
pub open spec fn initial() -> OrchestratorView {
    OrchestratorView {
        state: AppState::IDLE,
        session_context: None,
        recording_buffer: Seq::empty(),
        last_event_time: None,
    }
}

/// The orchestrator after `trigger`, where the trigger carries `task` if it
/// starts an execution. A trigger that is not permitted changes nothing.
/// Starting a recording empties the buffer and forgets the time of the last
/// event; starting an execution notes the task; stopping a recording
/// empties the buffer and forgets the task; stopping forgets the task.
pub open spec fn after(o: OrchestratorView, trigger: Trigger, task: Seq<char>) -> OrchestratorView {
    if !permitted(o.state, trigger) {
        o
    } else {
        match trigger {
            Trigger::StartListening => OrchestratorView { state: AppState::LISTENING, ..o },
            Trigger::StartRecording => OrchestratorView {
                state: AppState::RECORDING,
                recording_buffer: Seq::empty(),
                last_event_time: None,
                ..o
            },
            Trigger::StartExecuting => OrchestratorView {
                state: AppState::EXECUTING,
                session_context: Some(task),
                ..o
            },
            Trigger::StopRecording => OrchestratorView {
                state: AppState::IDLE,
                session_context: None,
                recording_buffer: Seq::empty(),
                ..o
            },
            Trigger::Stop => OrchestratorView { state: AppState::IDLE, session_context: None, ..o },
        }
    }
}

/// The time from the event before to `now`, in nanoseconds: zero where there
/// was no event before, or where the clock did not advance.
pub open spec fn elapsed_since(last: Option<u64>, now: u64) -> u64 {
    match last {
        Some(then) if then <= now => (now - then) as u64,
        _ => 0,
    }
}

/// The orchestrator after it has seen `event` at the time `now`. While it is
/// recording, the event joins the buffer with the time since the event
/// before it, and `now` becomes the time of the last event. In any other
/// state nothing changes.
pub open spec fn after_event(o: OrchestratorView, event: EventType, now: u64) -> OrchestratorView {
    if o.state == AppState::RECORDING {
        OrchestratorView {
            recording_buffer: o.recording_buffer.push(
                TimedEvent {
                    event_type: event,
                    time_since_previous: elapsed_since(o.last_event_time, now),
                },
            ),
            last_event_time: Some(now),
            ..o
        }
    } else {
        o
    }
}

/// The owner of the application state and of the recording buffer. The
/// fields are open to read; they are meant to change through the methods
/// only.
#[derive(Debug)]
pub struct Orchestrator {
    pub state: AppState,
    pub session_context: Option<String>,
    pub perception: Perception,
    pub cognition: Cognition,
    pub tooling: Tooling,
    pub knowledge: Knowledge,
    pub recording_buffer: Vec<TimedEvent>,
    pub last_event_time: Option<u64>,
}

impl View for Orchestrator {
    type V = OrchestratorView;

    open spec fn view(&self) -> OrchestratorView {
        OrchestratorView {
            state: self.state,
            session_context: text_view(self.session_context),
            recording_buffer: self.recording_buffer@,
            last_event_time: self.last_event_time,
        }
    }
}

impl Orchestrator {
    /// An idle orchestrator with no session and nothing recorded.
    pub fn new() -> (orchestrator: Self)
        ensures
            orchestrator@ == initial(),
    {
        Self {
            state: AppState::IDLE,
            session_context: None,
            perception: Perception,
            cognition: Cognition,
            tooling: Tooling,
            knowledge: Knowledge,
            recording_buffer: Vec::new(),
            last_event_time: None,
        }
    }

    /// From idle to listening. On success the new state is returned, for the
    /// caller to announce.
    pub fn start_listening(&mut self) -> (outcome: Result<AppState, OrchestratorError>)
        ensures
            outcome == transition_spec(old(self)@.state, Trigger::StartListening),
            final(self)@ == after(old(self)@, Trigger::StartListening, Seq::empty()),
    {
        let to = transition(self.state, Trigger::StartListening)?;
        self.state = to;
        Ok(to)
    }

    /// From idle to recording, with an empty buffer. On success the new state
    /// is returned, for the caller to announce.
    pub fn start_recording(&mut self) -> (outcome: Result<AppState, OrchestratorError>)
        ensures
            outcome == transition_spec(old(self)@.state, Trigger::StartRecording),
            final(self)@ == after(old(self)@, Trigger::StartRecording, Seq::empty()),
    {
        let to = transition(self.state, Trigger::StartRecording)?;
        self.recording_buffer.clear();
        self.last_event_time = None;
        self.state = to;
        Ok(to)
    }

    /// The macro that stopping the recording under `name` will save: the
    /// events of the buffer, in order. It is refused in any state but
    /// recording. Nothing changes; the caller saves the macro and then calls
    /// [`Orchestrator::stop_recording`] with the outcome.
    pub fn recorded_macro(&self, name: String) -> (outcome: Result<Macro, OrchestratorError>)
        ensures
            match outcome {
                Ok(macro_data) => {
                    &&& self@.state == AppState::RECORDING
                    &&& macro_data@.name == name@
                    &&& macro_data@.events == self@.recording_buffer
                },
                Err(error) => {
                    &&& self@.state != AppState::RECORDING
                    &&& error == OrchestratorError::InvalidStateTransition {
                        from: self@.state,
                        to: AppState::IDLE,
                    }
                },
            },
    {
        match transition(self.state, Trigger::StopRecording) {
            Ok(_) => Ok(Macro { name, events: self.recording_buffer.clone() }),
            Err(error) => Err(error),
        }
    }

    /// From recording to idle, once the macro has been saved. `saved` is the
    /// outcome of saving it. Where saving failed, the failure is handed on
    /// and nothing changes: the orchestrator still records and the buffer is
    /// whole. On success the buffer is emptied and the new state is returned,
    /// for the caller to announce.
    pub fn stop_recording(&mut self, saved: Result<(), String>) -> (outcome: Result<
        AppState,
        OrchestratorError,
    >)
        ensures
            outcome == (match transition_spec(old(self)@.state, Trigger::StopRecording) {
                Err(refusal) => Err(refusal),
                Ok(to) => match saved {
                    Ok(_) => Ok(to),
                    Err(reason) => Err(OrchestratorError::FileSystemError(reason)),
                },
            }),
            final(self)@ == (if saved is Ok {
                after(old(self)@, Trigger::StopRecording, Seq::empty())
            } else {
                old(self)@
            }),
    {
        let to = transition(self.state, Trigger::StopRecording)?;
        match saved {
            Ok(_) => {
                self.recording_buffer.clear();
                self.session_context = None;
                self.state = to;
                Ok(to)
            },
            Err(reason) => Err(OrchestratorError::FileSystemError(reason)),
        }
    }

    /// From idle or listening to executing `task`. On success the new state
    /// is returned, for the caller to announce.
    pub fn start_executing(&mut self, task: String) -> (outcome: Result<
        AppState,
        OrchestratorError,
    >)
        ensures
            outcome == transition_spec(old(self)@.state, Trigger::StartExecuting),
            final(self)@ == after(old(self)@, Trigger::StartExecuting, task@),
    {
        let to = transition(self.state, Trigger::StartExecuting)?;
        self.session_context = Some(task);
        self.state = to;
        Ok(to)
    }

    /// From any state to idle. It always succeeds; the new state is returned,
    /// for the caller to announce.
    pub fn stop(&mut self) -> (outcome: Result<AppState, OrchestratorError>)
        ensures
            outcome == Ok::<AppState, OrchestratorError>(AppState::IDLE),
            final(self)@ == after(old(self)@, Trigger::Stop, Seq::empty()),
    {
        self.session_context = None;
        self.state = AppState::IDLE;
        Ok(AppState::IDLE)
    }

    /// Starts the replay of a macro: from idle or listening to executing,
    /// with the macro's name as the task, and the steps of the replay are
    /// returned. While the orchestrator records or executes, the replay is
    /// refused and nothing changes. When the steps are done the caller calls
    /// [`Orchestrator::stop`].
    pub fn start_playback(&mut self, macro_data: &Macro) -> (outcome: Result<
        Vec<PlaybackStep>,
        OrchestratorError,
    >)
        ensures
            match outcome {
                Ok(steps) => {
                    &&& permitted(old(self)@.state, Trigger::StartExecuting)
                    &&& steps@ == playback_steps(macro_data@.events)
                },
                Err(error) => Err::<AppState, OrchestratorError>(error) == transition_spec(
                    old(self)@.state,
                    Trigger::StartExecuting,
                ),
            },
            final(self)@ == after(old(self)@, Trigger::StartExecuting, macro_data@.name),
    {
        match self.start_executing(macro_data.name.clone()) {
            Ok(_) => Ok(play_macro(macro_data)),
            Err(error) => Err(error),
        }
    }

    /// Takes note of an input event seen at the time `now`, in nanoseconds of
    /// a clock that does not run backwards. Only while recording does the
    /// event join the buffer.
    pub fn handle_event(&mut self, event: EventType, now: u64)
        ensures
            final(self)@ == after_event(old(self)@, event, now),
    {
        if self.state != AppState::RECORDING {
            return ;
        }
        let time_since_previous: u64 = match self.last_event_time {
            Some(then) if then <= now => now - then,
            _ => 0,
        };
        self.recording_buffer.push(TimedEvent { event_type: event, time_since_previous });
        self.last_event_time = Some(now);
    }
}

/// An input event and the time at which it was seen, in nanoseconds.
#[derive(Clone, Copy, Debug, PartialEq, Eq, Structural)]
pub struct Observation {
    pub event: EventType,
    pub at: u64,
}

/// The orchestrator after it has seen the events of `seen`, one after the
/// other.
pub open spec fn after_events(o: OrchestratorView, seen: Seq<Observation>) -> OrchestratorView
    decreases seen.len(),
{
    if seen.len() == 0 {
        o
    } else {
        after_event(after_events(o, seen.drop_last()), seen.last().event, seen.last().at)
    }
}

/// What a recording session holds once it has seen `seen`: the events in
/// order, the first with a time of zero, each later one with the time since
/// the one before it.
pub open spec fn session_events(seen: Seq<Observation>) -> Seq<TimedEvent> {
    Seq::new(
        seen.len(),
        |i: int|
            TimedEvent {
                event_type: seen[i].event,
                time_since_previous: if i == 0 {
                    0
                } else {
                    elapsed_since(Some(seen[i - 1].at), seen[i].at)
                },
            },
    )
}

/// A transition that is attempted from a state in which it is not legal is
/// refused, and leaves the state, the session, the buffer and the time of
/// the last event as they were.
pub proof fn lemma_refused_transition_changes_nothing(
    o: OrchestratorView,
    trigger: Trigger,
    task: Seq<char>,
)
    requires
        !permitted(o.state, trigger),
    ensures
        after(o, trigger, task) == o,
        transition_spec(o.state, trigger) == Err::<AppState, OrchestratorError>(
            OrchestratorError::InvalidStateTransition { from: o.state, to: target(trigger) },
        ),
{
}

/// Every transition that is permitted ends in the state that its trigger
/// names, and every state but idle can only be left for idle.
pub proof fn lemma_permitted_transition_reaches_target(
    o: OrchestratorView,
    trigger: Trigger,
    task: Seq<char>,
)
    requires
        permitted(o.state, trigger),
    ensures
        after(o, trigger, task).state == target(trigger),
        o.state == AppState::RECORDING || o.state == AppState::EXECUTING ==> target(trigger)
            == AppState::IDLE,
{
}

/// Events that are seen while the orchestrator does not record change
/// nothing: none of them is buffered.
pub proof fn lemma_events_outside_recording_are_dropped(
    o: OrchestratorView,
    seen: Seq<Observation>,
)
    requires
        o.state != AppState::RECORDING,
    ensures
        after_events(o, seen) == o,
    decreases seen.len(),
{
    if seen.len() > 0 {
        lemma_events_outside_recording_are_dropped(o, seen.drop_last());
    }
}

/// A recording session holds exactly what it saw. Whatever the buffer held
/// before, and whatever was seen before the recording started, after the
/// start and the events of `seen` the buffer holds those events and no
/// others, in order; the first has a time of zero, and each later one the
/// time that passed since the one before it.
pub proof fn lemma_recording_session(
    o: OrchestratorView,
    earlier: Seq<Observation>,
    seen: Seq<Observation>,
)
    requires
        o.state == AppState::IDLE,
    ensures
        ({
            let started = after(after_events(o, earlier), Trigger::StartRecording, Seq::empty());
            let recorded = after_events(started, seen);
            &&& recorded.state == AppState::RECORDING
            &&& recorded.session_context == o.session_context
            &&& recorded.recording_buffer == session_events(seen)
            &&& recorded.recording_buffer.len() == seen.len()
            &&& seen.len() > 0 ==> recorded.recording_buffer[0].time_since_previous == 0
                && recorded.last_event_time == Some(seen.last().at)
            &&& forall|i: int|
                0 <= i < seen.len() ==> (#[trigger] recorded.recording_buffer[i]).event_type
                    == seen[i].event
            &&& forall|i: int|
                0 < i < seen.len() && seen[i - 1].at <= seen[i].at ==> (
                #[trigger] recorded.recording_buffer[i]).time_since_previous == seen[i].at - seen[i
                    - 1].at
        }),
    decreases seen.len(),
{
    lemma_events_outside_recording_are_dropped(o, earlier);
    let started = after(o, Trigger::StartRecording, Seq::empty());
    let recorded = after_events(started, seen);
    if seen.len() == 0 {
        assert(recorded.recording_buffer =~= session_events(seen));
    } else {
        let shorter = seen.drop_last();
        lemma_recording_session(o, earlier, shorter);
        let before = after_events(started, shorter);
        assert(recorded == after_event(before, seen.last().event, seen.last().at));
        if shorter.len() > 0 {
            assert(shorter.last() == seen[seen.len() - 2]);
        }
        assert(recorded.recording_buffer =~= session_events(seen));
    }
}

} // verus!

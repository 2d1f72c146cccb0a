//! Macros: named, ordered, timed sequences of input events; their stored
//! form; the naming of their files; and the plan by which one is replayed.

use crate::modules::codec::{
    decode, decode_spec, encode, encode_spec, lemma_decode_encode, CanonicalForm,
    CanonicalFormView, CodecError,
};
use crate::modules::input::EventType;
use crate::modules::text::same_text;
use vstd::prelude::*;
use vstd::string::*;

verus! {

/// An event and the time that passed since the event before it, in
/// nanoseconds. For the first event of a macro that is the time since the
/// recording started, or zero.
#[derive(Clone, Copy, Debug, PartialEq, Eq, Structural)]
pub struct TimedEvent {
    pub event_type: EventType,
    pub time_since_previous: u64,
}

/// A named sequence of timed events. The order of the events is part of its
/// meaning.
#[derive(Clone, Debug, PartialEq, Eq)]
pub struct Macro {
    pub name: String,
    pub events: Vec<TimedEvent>,
}

/// A macro as a mathematical value.
pub struct MacroView {
    pub name: Seq<char>,
    pub events: Seq<TimedEvent>,
}

impl View for Macro {
    type V = MacroView;

    open spec fn view(&self) -> MacroView {
        MacroView { name: self.name@, events: self.events@ }
    }
}

/// One event of a macro as it is stored: the event in its stored form, and
/// the time since the event before it, in nanoseconds.
#[derive(Clone, Debug, PartialEq, Eq)]
pub struct StoredEvent {
    pub event_type: CanonicalForm,
    pub time_since_previous: u64,
}

/// A stored event as a mathematical value.
pub struct StoredEventView {
    pub event_type: CanonicalFormView,
    pub time_since_previous: u64,
}

impl View for StoredEvent {
    type V = StoredEventView;

    open spec fn view(&self) -> StoredEventView {
        StoredEventView {
            event_type: self.event_type@,
            time_since_previous: self.time_since_previous,
        }
    }
}

/// A macro as it is stored.
#[derive(Clone, Debug, PartialEq, Eq)]
pub struct StoredMacro {
    pub name: String,
    pub events: Vec<StoredEvent>,
}

/// A stored macro as a mathematical value.
pub struct StoredMacroView {
    pub name: Seq<char>,
    pub events: Seq<StoredEventView>,
}

impl View for StoredMacro {
    type V = StoredMacroView;

    open spec fn view(&self) -> StoredMacroView {
        StoredMacroView {
            name: self.name@,
            events: Seq::new(self.events@.len(), |i: int| self.events@[i]@),
        }
    }
}

/// What can go wrong with a stored macro.
#[derive(Clone, Debug, PartialEq, Eq)]
pub enum MacroError {
    /// The stored event at `index` is malformed.
    Decode { index: usize, cause: CodecError },
}

/// The stored form of a timed event.
pub open spec fn stored_event_spec(event: TimedEvent) -> StoredEventView {
    StoredEventView {
        event_type: encode_spec(event.event_type),
        time_since_previous: event.time_since_previous,
    }
}

/// The stored form of a macro: its name, and its events in order, each in its
/// stored form.
pub open spec fn stored_macro_spec(macro_data: MacroView) -> StoredMacroView {
    StoredMacroView {
        name: macro_data.name,
        events: Seq::new(macro_data.events.len(), |i: int| stored_event_spec(macro_data.events[i])),
    }
}

/// Writes a macro in its stored form.
pub fn store_macro(macro_data: &Macro) -> (stored: StoredMacro)
    ensures
        stored@ == stored_macro_spec(macro_data@),
{
    let mut events: Vec<StoredEvent> = Vec::new();
    let mut i: usize = 0;
    while i < macro_data.events.len()
        invariant
            i <= macro_data.events@.len(),
            events@.len() == i,
            forall|j: int|
                0 <= j < i ==> (#[trigger] events@[j])@ == stored_event_spec(
                    macro_data.events@[j],
                ),
        decreases macro_data.events@.len() - i,
    {
        let event = &macro_data.events[i];
        events.push(
            StoredEvent {
                event_type: encode(&event.event_type),
                time_since_previous: event.time_since_previous,
            },
        );
        i += 1;
    }
    let stored = StoredMacro { name: macro_data.name.clone(), events };
    proof {
        assert(stored@.events =~= stored_macro_spec(macro_data@).events);
    }
    stored
}

/// Whether the stored event can be read.
pub open spec fn readable(event: StoredEventView) -> bool {
    decode_spec(event.event_type) is Ok
}

/// Whether every stored event can be read.
pub open spec fn all_readable(events: Seq<StoredEventView>) -> bool {
    forall|i: int| 0 <= i < events.len() ==> readable(#[trigger] events[i])
}

/// The timed event that a readable stored event stands for.
pub open spec fn loaded_event_spec(event: StoredEventView) -> TimedEvent {
    TimedEvent {
        event_type: decode_spec(event.event_type)->Ok_0,
        time_since_previous: event.time_since_previous,
    }
}

/// The macro that a stored macro stands for, where every stored event is
/// readable: it has the stored name, and the events in the stored order with
/// their times.
pub open spec fn load_macro_spec(stored: StoredMacroView) -> Option<MacroView> {
    if all_readable(stored.events) {
        Some(
            MacroView {
                name: stored.name,
                events: Seq::new(stored.events.len(), |i: int| loaded_event_spec(stored.events[i])),
            },
        )
    } else {
        None
    }
}

/// Reads a macro from its stored form. It is read when every stored event is
/// readable. Else the first event that is not readable is reported, with
/// the reason.
pub fn load_macro(stored: &StoredMacro) -> (loaded: Result<Macro, MacroError>)
    ensures
        match loaded {
            Ok(macro_data) => load_macro_spec(stored@) == Some(macro_data@),
            Err(MacroError::Decode { index, cause }) => {
                &&& load_macro_spec(stored@) is None
                &&& index < stored@.events.len()
                &&& decode_spec(stored@.events[index as int].event_type) == Err::<
                    EventType,
                    CodecError,
                >(cause)
                &&& forall|i: int| 0 <= i < index ==> readable(#[trigger] stored@.events[i])
            },
        },
{
    let mut events: Vec<TimedEvent> = Vec::new();
    let mut i: usize = 0;
    while i < stored.events.len()
        invariant
            i <= stored.events@.len(),
            events@.len() == i,
            forall|j: int|
                0 <= j < i ==> readable(#[trigger] stored@.events[j]) && events@[j]
                    == loaded_event_spec(stored@.events[j]),
        decreases stored.events@.len() - i,
    {
        let event = &stored.events[i];
        proof {
            assert(stored@.events[i as int] == event@);
        }
        match decode(&event.event_type) {
            Ok(event_type) => {
                events.push(
                    TimedEvent { event_type, time_since_previous: event.time_since_previous },
                );
            },
            Err(cause) => {
                proof {
                    assert(!readable(stored@.events[i as int]));
                }
                return Err(MacroError::Decode { index: i, cause });
            },
        }
        i += 1;
    }
    let macro_data = Macro { name: stored.name.clone(), events };
    proof {
        assert(macro_data@.events =~= load_macro_spec(stored@)->0.events);
    }
    Ok(macro_data)
}

/// Storing a macro and reading it back gives the macro.
pub proof fn lemma_load_store(macro_data: MacroView)
    ensures
        load_macro_spec(stored_macro_spec(macro_data)) == Some(macro_data),
{
    let stored = stored_macro_spec(macro_data);
    assert forall|i: int| 0 <= i < stored.events.len() implies readable(
        #[trigger] stored.events[i],
    ) && loaded_event_spec(stored.events[i]) == macro_data.events[i] by {
        lemma_decode_encode(macro_data.events[i].event_type);
    }
    assert(load_macro_spec(stored)->0.events =~= macro_data.events);
}

/// One step of a replay.
#[derive(Clone, Copy, Debug, PartialEq, Eq, Structural)]
pub enum PlaybackStep {
    /// Let this many nanoseconds pass.
    Wait(u64),
    /// Inject this event.
    Send(EventType),
}

/// The steps that replay `events`: for each event in order, a wait for its
/// time since the event before it, left out where that time is zero, and
/// then the event itself.
pub open spec fn playback_steps(events: Seq<TimedEvent>) -> Seq<PlaybackStep>
    decreases events.len(),
{
    if events.len() == 0 {
        Seq::empty()
    } else {
        let before = playback_steps(events.drop_last());
        let event = events.last();
        if event.time_since_previous == 0 {
            before.push(PlaybackStep::Send(event.event_type))
        } else {
            before.push(PlaybackStep::Wait(event.time_since_previous)).push(
                PlaybackStep::Send(event.event_type),
            )
        }
    }
}

/// The events that a sequence of steps injects, in order.
pub open spec fn sent_events(steps: Seq<PlaybackStep>) -> Seq<EventType>
    decreases steps.len(),
{
    if steps.len() == 0 {
        Seq::empty()
    } else {
        match steps.last() {
            PlaybackStep::Send(event) => sent_events(steps.drop_last()).push(event),
            PlaybackStep::Wait(_) => sent_events(steps.drop_last()),
        }
    }
}

/// The time that a sequence of steps waits in all, in nanoseconds.
pub open spec fn waited_time(steps: Seq<PlaybackStep>) -> nat
    decreases steps.len(),
{
    if steps.len() == 0 {
        0
    } else {
        match steps.last() {
            PlaybackStep::Send(_) => waited_time(steps.drop_last()),
            PlaybackStep::Wait(nanos) => waited_time(steps.drop_last()) + nanos as nat,
        }
    }
}

/// The time that a sequence of timed events spans, in nanoseconds.
pub open spec fn total_time(events: Seq<TimedEvent>) -> nat
    decreases events.len(),
{
    if events.len() == 0 {
        0
    } else {
        total_time(events.drop_last()) + events.last().time_since_previous as nat
    }
}

/// The steps by which a macro is replayed. The caller performs them in
/// order; a step that fails is reported and the replay goes on with the next
/// one.
pub fn play_macro(macro_data: &Macro) -> (steps: Vec<PlaybackStep>)
    ensures
        steps@ == playback_steps(macro_data@.events),
{
    let mut steps: Vec<PlaybackStep> = Vec::new();
    let mut i: usize = 0;
    while i < macro_data.events.len()
        invariant
            i <= macro_data.events@.len(),
            steps@ == playback_steps(macro_data.events@.take(i as int)),
        decreases macro_data.events@.len() - i,
    {
        let event = &macro_data.events[i];
        proof {
            let next = macro_data.events@.take(i + 1);
            assert(next.drop_last() =~= macro_data.events@.take(i as int));
            assert(next.last() == *event);
        }
        if event.time_since_previous != 0 {
            steps.push(PlaybackStep::Wait(event.time_since_previous));
        }
        steps.push(PlaybackStep::Send(event.event_type));
        i += 1;
    }
    proof {
        assert(macro_data.events@.take(i as int) =~= macro_data.events@);
    }
    steps
}

/// The events of a sequence of timed events, without their times.
pub open spec fn event_types(events: Seq<TimedEvent>) -> Seq<EventType> {
    Seq::new(events.len(), |i: int| events[i].event_type)
}

/// A replay injects exactly the events of the macro, in their stored order,
/// and waits in all for the time that the macro spans.
pub proof fn lemma_playback_keeps_order_and_time(events: Seq<TimedEvent>)
    ensures
        sent_events(playback_steps(events)) == event_types(events),
        waited_time(playback_steps(events)) == total_time(events),
    decreases events.len(),
{
    let steps = playback_steps(events);
    if events.len() == 0 {
        assert(sent_events(steps) =~= event_types(events));
    } else {
        let shorter = events.drop_last();
        lemma_playback_keeps_order_and_time(shorter);
        let before = playback_steps(shorter);
        let event = events.last();
        if event.time_since_previous == 0 {
            assert(steps.drop_last() =~= before);
            assert(sent_events(steps) == sent_events(before).push(event.event_type));
            assert(waited_time(steps) == waited_time(before));
        } else {
            let waited = before.push(PlaybackStep::Wait(event.time_since_previous));
            assert(waited.drop_last() =~= before);
            assert(sent_events(waited) == sent_events(before));
            assert(waited_time(waited) == waited_time(before) + event.time_since_previous);
            assert(steps.drop_last() =~= waited);
            assert(sent_events(steps) == sent_events(waited).push(event.event_type));
            assert(waited_time(steps) == waited_time(waited));
        }
        assert(event_types(shorter).push(event.event_type) =~= event_types(events));
    }
}

/// The name of the file that holds the macro `name`.
pub open spec fn macro_file_name_spec(name: Seq<char>) -> Seq<char> {
    name + ".json"@
}

/// The name of the macro that the file `file_name` holds, if it holds one:
/// what stands before a final `.json`, where anything stands there.
pub open spec fn macro_name_of_file_spec(file_name: Seq<char>) -> Option<Seq<char>> {
    if file_name.len() > 5 && file_name.skip(file_name.len() - 5) == ".json"@ {
        Some(file_name.take(file_name.len() - 5))
    } else {
        None
    }
}

/// The name of the file that holds the macro `name`.
pub fn macro_file_name(name: &str) -> (file_name: String)
    ensures
        file_name@ == macro_file_name_spec(name@),
{
    String::from_str(name).concat(".json")
}

/// The name of the macro that the file `file_name` holds, if it holds one.
pub fn macro_name_of_file(file_name: &str) -> (name: Option<String>)
    ensures
        match name {
            Some(n) => macro_name_of_file_spec(file_name@) == Some(n@),
            None => macro_name_of_file_spec(file_name@) is None,
        },
{
    proof {
        reveal_strlit(".json");
    }
    let n: usize = file_name.unicode_len();
    if n <= 5 {
        return None;
    }
    let ending = file_name.substring_char(n - 5, n);
    proof {
        assert(file_name@.subrange(n - 5, n as int) =~= file_name@.skip(n - 5));
    }
    if same_text(ending, ".json") {
        let stem = file_name.substring_char(0, n - 5);
        proof {
            assert(file_name@.subrange(0, n - 5) =~= file_name@.take(n - 5));
        }
        Some(String::from_str(stem))
    } else {
        None
    }
}

/// The macro names among `file_names`, in their order.
pub open spec fn macro_names(file_names: Seq<Seq<char>>) -> Seq<Seq<char>>
    decreases file_names.len(),
{
    if file_names.len() == 0 {
        Seq::empty()
    } else {
        let before = macro_names(file_names.drop_last());
        match macro_name_of_file_spec(file_names.last()) {
            Some(name) => before.push(name),
            None => before,
        }
    }
}

/// The texts of a sequence of strings.
pub open spec fn texts(strings: Seq<String>) -> Seq<Seq<char>> {
    Seq::new(strings.len(), |i: int| strings[i]@)
}

/// The macros that a directory holds, given the names of the files in it:
/// one for each file name that ends in `.json`, in the order of the file
/// names.
pub fn list_macros(file_names: &Vec<String>) -> (names: Vec<String>)
    ensures
        texts(names@) == macro_names(texts(file_names@)),
{
    let mut names: Vec<String> = Vec::new();
    let mut i: usize = 0;
    while i < file_names.len()
        invariant
            i <= file_names@.len(),
            texts(names@) == macro_names(texts(file_names@).take(i as int)),
        decreases file_names@.len() - i,
    {
        let ghost before = texts(names@);
        proof {
            let next = texts(file_names@).take(i + 1);
            assert(next.drop_last() =~= texts(file_names@).take(i as int));
            assert(next.last() == file_names@[i as int]@);
        }
        match macro_name_of_file(file_names[i].as_str()) {
            Some(name) => {
                let ghost text = name@;
                names.push(name);
                proof {
                    assert(texts(names@) =~= before.push(text));
                }
            },
            None => {},
        }
        i += 1;
    }
    proof {
        assert(texts(file_names@).take(i as int) =~= texts(file_names@));
    }
    names
}

/// A macro is found again under its name: the file that holds the macro
/// `name` is listed as `name`, for every name that is not empty.
pub proof fn lemma_file_name_round_trip(name: Seq<char>)
    requires
        name.len() > 0,
    ensures
        macro_name_of_file_spec(macro_file_name_spec(name)) == Some(name),
{
    reveal_strlit(".json");
    let file_name = macro_file_name_spec(name);
    assert(file_name.skip(file_name.len() - 5) =~= ".json"@);
    assert(file_name.take(file_name.len() - 5) =~= name);
}

/// The files of the macros `names`, in their order.
pub open spec fn macro_file_names(names: Seq<Seq<char>>) -> Seq<Seq<char>> {
    Seq::new(names.len(), |i: int| macro_file_name_spec(names[i]))
}

/// A directory that holds the files of some macros, none with an empty name,
/// lists exactly those macros, in the order of the files.
pub proof fn lemma_saved_macros_are_listed(names: Seq<Seq<char>>)
    requires
        forall|i: int| 0 <= i < names.len() ==> (#[trigger] names[i]).len() > 0,
    ensures
        macro_names(macro_file_names(names)) == names,
    decreases names.len(),
{
    let files = macro_file_names(names);
    if names.len() == 0 {
        assert(macro_names(files) =~= names);
    } else {
        let shorter = names.drop_last();
        lemma_saved_macros_are_listed(shorter);
        lemma_file_name_round_trip(names.last());
        assert(files.drop_last() =~= macro_file_names(shorter));
        assert(files.last() == macro_file_name_spec(names.last()));
        assert(shorter.push(names.last()) =~= names);
    }
}

} // verus!

use nyx_agent::modules::codec::{encode, CanonicalForm, CodecError, Field};
use nyx_agent::modules::input::{Button, EventType, Key};
use nyx_agent::orchestrator::{AppState, Orchestrator};
use nyx_agent::modules::macro_engine::{
    list_macros, load_macro, macro_file_name, macro_name_of_file, play_macro, store_macro, Macro,
    MacroError, PlaybackStep, StoredEvent, StoredMacro, TimedEvent,
};

fn sample() -> Macro {
    Macro {
        name: "demo".to_string(),
        events: vec![
            TimedEvent { event_type: EventType::MouseMove { x: 10, y: 20 }, time_since_previous: 0 },
            TimedEvent {
                event_type: EventType::ButtonPress(Button::Left),
                time_since_previous: 50_000_000,
            },
            TimedEvent {
                event_type: EventType::KeyPress(Key::Unknown(77)),
                time_since_previous: 120_000_000,
            },
            TimedEvent { event_type: EventType::KeyRelease(Key::Unknown(77)), time_since_previous: 0 },
        ],
    }
}

fn key_form(kind: &str, key: &str) -> CanonicalForm {
    CanonicalForm {
        kind: Some(kind.to_string()),
        x: None,
        y: None,
        button: None,
        key: Some(key.to_string()),
        delta_x: None,
        delta_y: None,
    }
}

#[test]
fn store_macro_keeps_name_order_and_times() {
    let macro_data = sample();
    let stored = store_macro(&macro_data);
    assert_eq!(stored.name, "demo");
    assert_eq!(stored.events.len(), 4);
    for (stored_event, event) in stored.events.iter().zip(macro_data.events.iter()) {
        assert_eq!(stored_event.event_type, encode(&event.event_type));
        assert_eq!(stored_event.time_since_previous, event.time_since_previous);
    }
    assert_eq!(stored.events[2].event_type, key_form("key_press", "Unknown(77)"));
}

#[test]
fn load_of_store_is_the_macro() {
    let macro_data = sample();
    assert_eq!(load_macro(&store_macro(&macro_data)), Ok(macro_data));
    let empty = Macro { name: String::new(), events: vec![] };
    assert_eq!(load_macro(&store_macro(&empty)), Ok(empty));
}

#[test]
fn load_macro_with_unrecognized_key_name() {
    let stored = StoredMacro {
        name: "old".to_string(),
        events: vec![
            StoredEvent { event_type: key_form("key_press", "KeyXYZ"), time_since_previous: 5 },
            StoredEvent { event_type: key_form("key_release", "KeyXYZ"), time_since_previous: 6 },
        ],
    };
    assert_eq!(
        load_macro(&stored),
        Ok(Macro {
            name: "old".to_string(),
            events: vec![
                TimedEvent { event_type: EventType::KeyPress(Key::Unknown(0)), time_since_previous: 5 },
                TimedEvent {
                    event_type: EventType::KeyRelease(Key::Unknown(0)),
                    time_since_previous: 6
                },
            ],
        })
    );
}

#[test]
fn load_macro_reports_first_malformed_event() {
    let mut no_key = key_form("key_press", "KeyA");
    no_key.key = None;
    let stored = StoredMacro {
        name: "bad".to_string(),
        events: vec![
            StoredEvent { event_type: key_form("key_press", "KeyA"), time_since_previous: 0 },
            StoredEvent { event_type: key_form("jump", "KeyA"), time_since_previous: 1 },
            StoredEvent { event_type: no_key, time_since_previous: 2 },
        ],
    };
    assert_eq!(
        load_macro(&stored),
        Err(MacroError::Decode { index: 1, cause: CodecError::UnknownShape })
    );
    let mut later = stored.clone();
    later.events.remove(1);
    assert_eq!(
        load_macro(&later),
        Err(MacroError::Decode { index: 1, cause: CodecError::MissingField(Field::Key) })
    );
}

#[test]
fn play_macro_waits_then_sends() {
    let steps = play_macro(&sample());
    assert_eq!(
        steps,
        vec![
            PlaybackStep::Send(EventType::MouseMove { x: 10, y: 20 }),
            PlaybackStep::Wait(50_000_000),
            PlaybackStep::Send(EventType::ButtonPress(Button::Left)),
            PlaybackStep::Wait(120_000_000),
            PlaybackStep::Send(EventType::KeyPress(Key::Unknown(77))),
            PlaybackStep::Send(EventType::KeyRelease(Key::Unknown(77))),
        ]
    );
}

#[test]
fn play_macro_of_empty_macro_has_no_step() {
    let empty = Macro { name: "nothing".to_string(), events: vec![] };
    assert_eq!(play_macro(&empty), vec![]);
}

#[test]
fn play_macro_keeps_order_and_total_time() {
    let macro_data = sample();
    let steps = play_macro(&macro_data);
    let mut sent = Vec::new();
    let mut waited: u64 = 0;
    for step in steps {
        match step {
            PlaybackStep::Send(event) => sent.push(event),
            PlaybackStep::Wait(nanos) => {
                assert!(nanos > 0);
                waited += nanos;
            }
        }
    }
    let events: Vec<EventType> = macro_data.events.iter().map(|e| e.event_type).collect();
    assert_eq!(sent, events);
    assert_eq!(waited, 170_000_000);
}

#[test]
fn macro_file_names() {
    assert_eq!(macro_file_name("demo"), "demo.json");
    assert_eq!(macro_file_name(""), ".json");
    assert_eq!(macro_file_name("a.b"), "a.b.json");
    assert_eq!(macro_file_name("été"), "été.json");
}

#[test]
fn macro_names_of_files() {
    assert_eq!(macro_name_of_file("demo.json"), Some("demo".to_string()));
    assert_eq!(macro_name_of_file("a.b.json"), Some("a.b".to_string()));
    assert_eq!(macro_name_of_file("été.json"), Some("été".to_string()));
    assert_eq!(macro_name_of_file("..json"), Some(".".to_string()));
    assert_eq!(macro_name_of_file(".json"), None);
    assert_eq!(macro_name_of_file("json"), None);
    assert_eq!(macro_name_of_file(""), None);
    assert_eq!(macro_name_of_file("demo.JSON"), None);
    assert_eq!(macro_name_of_file("demo.json.bak"), None);
    assert_eq!(macro_name_of_file("demojson"), None);
    assert_eq!(macro_name_of_file("notes.txt"), None);
}

#[test]
fn list_after_saving_a_and_b() {
    let files = vec![macro_file_name("a"), macro_file_name("b")];
    let mut names = list_macros(&files);
    names.sort();
    assert_eq!(names, vec!["a".to_string(), "b".to_string()]);
}

#[test]
fn list_macros_keeps_only_macro_files_in_order() {
    let files: Vec<String> = ["z.json", "readme.md", ".json", "a.json", "b.json.tmp", "m.n.json"]
        .iter()
        .map(|s| s.to_string())
        .collect();
    assert_eq!(list_macros(&files), vec!["z".to_string(), "a".to_string(), "m.n".to_string()]);
    assert_eq!(list_macros(&Vec::new()), Vec::<String>::new());
}

#[test]
fn recorded_demo_macro_loads_back_with_its_gaps() {
    let ms: u64 = 1_000_000;
    let mut orchestrator = Orchestrator::new();
    orchestrator.start_recording().unwrap();
    orchestrator.handle_event(EventType::KeyPress(Key::KeyH), 3 * ms);
    orchestrator.handle_event(EventType::KeyRelease(Key::KeyH), 53 * ms);
    orchestrator.handle_event(EventType::KeyPress(Key::KeyI), 173 * ms);
    let recorded = orchestrator.recorded_macro("demo".to_string()).unwrap();
    let stored = store_macro(&recorded);
    assert_eq!(orchestrator.stop_recording(Ok(())), Ok(AppState::IDLE));

    let demo = load_macro(&stored).unwrap();
    assert_eq!(demo.name, "demo");
    assert_eq!(demo.events.len(), 3);
    let gaps: Vec<u64> = demo.events.iter().map(|e| e.time_since_previous).collect();
    assert_eq!(gaps, vec![0, 50 * ms, 120 * ms]);
    assert_eq!(demo, recorded);
}

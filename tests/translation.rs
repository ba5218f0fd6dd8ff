use midi_lights::lamps::{
    blink_lamp_green, blink_lamp_red, set_scene_color, set_scene_color_temperature, toggle_lamp,
};
use midi_lights::link::{
    heartbeat, is_heartbeat, session_step, watch_step, SessionAction, SessionEvent, SessionState,
    WatchAction, QUEUE_CAPACITY,
};
use midi_lights::midi_state::{mode, parse_event, Command, CommandKind, MidiEvent, MidiState, Mode};
use midi_lights::note_name::{NoteName, LAMP_ID_JEAN, LAMP_ID_STRIP_JEAN};

fn note_on(key: u8) -> MidiEvent {
    MidiEvent::NoteOn { key, vel: 90 }
}

fn state_with(bank: u16, program: u8) -> MidiState {
    let mut st = MidiState::new();
    st.bank = bank;
    st.program = program;
    st
}

#[test]
fn parse_then_index_round_trips() {
    for code in 0u8..128 {
        assert_eq!(NoteName::parse(code).into_index(), code);
    }
}

#[test]
fn scale_index_is_code_mod_twelve() {
    for code in 0u8..=255 {
        assert_eq!(NoteName::parse(code).into_scale_index(), code % 12);
    }
}

#[test]
fn parse_middle_c() {
    let n = NoteName::parse(60);
    assert_eq!(n, NoteName::C(5));
    assert_eq!(NoteName::parse(61), NoteName::CS(5));
    assert_eq!(NoteName::parse(127), NoteName::G(10));
}

#[test]
fn hues_follow_the_table() {
    assert_eq!(NoteName::parse(60).hue_degrees(), 30);
    assert_eq!(NoteName::parse(62).hue_degrees(), 90);
    assert_eq!(NoteName::parse(70).hue_degrees(), 330);
    assert_eq!(NoteName::parse(71).hue_degrees(), 359);
}

#[test]
fn only_c_and_d_have_lamps() {
    assert_eq!(NoteName::parse(0).into_lamp_id(), Some(LAMP_ID_JEAN));
    assert_eq!(NoteName::parse(62).into_lamp_id(), Some(LAMP_ID_STRIP_JEAN));
    assert_eq!(NoteName::parse(61).into_lamp_id(), None);
    assert_eq!(NoteName::parse(71).into_lamp_id(), None);
}

#[test]
fn labels() {
    assert_eq!(NoteName::parse(60).label(), "C5");
    assert_eq!(NoteName::parse(13).label(), "C#1");
    assert_eq!(NoteName::parse(127).label(), "G10");
}

#[test]
fn parse_event_reads_messages() {
    assert_eq!(parse_event(&[0x91, 60, 100]), Some(MidiEvent::NoteOn { key: 60, vel: 100 }));
    assert_eq!(parse_event(&[0x80, 1, 2]), Some(MidiEvent::NoteOff { key: 1, vel: 2 }));
    assert_eq!(parse_event(&[0xB0, 32, 5]), Some(MidiEvent::Controller { controller: 32, value: 5 }));
    assert_eq!(parse_event(&[0xC3, 66]), Some(MidiEvent::ProgramChange { program: 66 }));
    assert_eq!(parse_event(&[0xFE]), Some(MidiEvent::ActiveSensing));
    assert_eq!(parse_event(&[0xE0, 0, 64]), Some(MidiEvent::Other));
    assert_eq!(parse_event(&[]), None);
}

#[test]
fn json_bodies() {
    assert_eq!(
        set_scene_color("1, 2".to_string(), 16711680, 100),
        r#"{"type":"call-lamp-method","data":{"args":["color",16711680,100],"targets":[1, 2],"method":"set_scene"}}"#
    );
    assert_eq!(
        set_scene_color_temperature("7".to_string(), 3967, 100),
        r#"{"type":"call-lamp-method","data":{"args":["ct",3967,100],"targets":[7],"method":"set_scene"}}"#
    );
    assert_eq!(
        toggle_lamp("7".to_string()),
        r#"{"type":"call-lamp-method","data":{"args":[],"targets":[7],"method":"toggle"}}"#
    );
    assert_eq!(
        blink_lamp_green("7".to_string(), 65280),
        r#"{"type":"call-lamp-method","data":{"args":[1,0,"100, 1, 65280, 100, 100, 1, 0, 100"],"targets":[7],"method":"start_cf"}}"#
    );
    assert_eq!(
        blink_lamp_red("7".to_string(), 16711680),
        r#"{"type":"call-lamp-method","data":{"args":[1,0,"100, 1, 16711680, 100, 100, 1, 0, 100"],"targets":[7],"method":"start_cf"}}"#
    );
}

#[test]
fn targets_list_selected_lamps() {
    let mut st = MidiState::new();
    assert_eq!(st.get_targets(), "");
    st.selected_notes[0] = true;
    assert_eq!(st.get_targets(), LAMP_ID_JEAN.to_string());
    st.selected_notes[2] = true;
    st.selected_notes[5] = true;
    assert_eq!(
        st.get_targets(),
        format!("{}, {}", LAMP_ID_JEAN, LAMP_ID_STRIP_JEAN)
    );
}

#[test]
fn modes_from_bank_and_program() {
    assert_eq!(mode(0, 63), Mode::ColorMode);
    assert_eq!(mode(0, 64), Mode::TemperatureMode);
    assert_eq!(mode(0, 65), Mode::ToggleMode);
    assert_eq!(mode(0, 66), Mode::SelectMode);
    assert_eq!(mode(0, 67), Mode::Idle);
    assert_eq!(mode(1, 63), Mode::Idle);
}

#[test]
fn color_mode_middle_c_with_lamp_a_selected() {
    let mut st = state_with(0, 63);
    st.selected_notes[0] = true;
    let c = st.translate(note_on(60)).unwrap();
    assert_eq!(c.kind, CommandKind::SetSceneColor);
    assert!(c.targets.contains(&LAMP_ID_JEAN.to_string()));
    assert_eq!(c.value, 30);
    let json = c.to_json(16744192);
    assert!(json.contains(r#""args":["color",16744192,100]"#));
    assert!(json.contains(&format!(r#""targets":[{}]"#, LAMP_ID_JEAN)));
    assert!(json.contains(r#""method":"set_scene""#));
}

#[test]
fn temperature_mode_maps_note_range() {
    let mut st = state_with(0, 64);
    assert_eq!(st.translate(note_on(0)).unwrap().value, 1700);
    assert_eq!(st.translate(note_on(60)).unwrap().value, 3967);
    let c = st.translate(note_on(127)).unwrap();
    assert_eq!(c.kind, CommandKind::SetSceneColorTemperature);
    assert_eq!(c.value, 6500);
    assert!(c.to_json(0).contains(r#""args":["ct",6500,100]"#));
}

#[test]
fn toggle_mode_targets_selection() {
    let mut st = state_with(0, 65);
    st.selected_notes[2] = true;
    let c = st.translate(note_on(38)).unwrap();
    assert_eq!(c.kind, CommandKind::Toggle);
    assert_eq!(c.targets, LAMP_ID_STRIP_JEAN.to_string());
    assert_eq!(
        c.to_json(0),
        format!(
            r#"{{"type":"call-lamp-method","data":{{"args":[],"targets":[{}],"method":"toggle"}}}}"#,
            LAMP_ID_STRIP_JEAN
        )
    );
}

#[test]
fn select_mode_blinks_green_then_red() {
    let mut st = state_with(0, 66);
    let first = st.translate(note_on(60)).unwrap();
    assert_eq!(first.kind, CommandKind::BlinkGreen);
    assert_eq!(first.targets, LAMP_ID_JEAN.to_string());
    assert!(st.selected_notes[0]);
    let second = st.translate(note_on(48)).unwrap();
    assert_eq!(second.kind, CommandKind::BlinkRed);
    assert_eq!(second.targets, LAMP_ID_JEAN.to_string());
    assert!(!st.selected_notes[0]);
}

#[test]
fn select_mode_unmapped_note_flips_silently() {
    let mut st = state_with(0, 66);
    assert!(st.translate(note_on(61)).is_none());
    assert!(st.selected_notes[1]);
    assert!(st.translate(note_on(61)).is_none());
    assert_eq!(st.selected_notes, [false; 12]);
}

#[test]
fn bank_from_both_halves_in_either_order() {
    for (v0, v32) in [(0u8, 0u8), (1, 0), (0, 1), (127, 127), (5, 99)] {
        let expected = ((v0 as u16) << 7) | v32 as u16;
        let mut a = MidiState::new();
        a.translate(MidiEvent::Controller { controller: 0, value: v0 });
        a.translate(MidiEvent::Controller { controller: 32, value: v32 });
        assert_eq!(a.bank, expected);
        let mut b = MidiState::new();
        b.translate(MidiEvent::Controller { controller: 32, value: v32 });
        b.translate(MidiEvent::Controller { controller: 0, value: v0 });
        assert_eq!(b.bank, expected);
    }
}

#[test]
fn other_controllers_leave_bank() {
    let mut st = state_with(300, 0);
    assert!(st.translate(MidiEvent::Controller { controller: 7, value: 3 }).is_none());
    assert_eq!(st.bank, 300);
}

#[test]
fn note_off_changes_nothing() {
    for (bank, program) in [(0u16, 63u8), (0, 64), (0, 65), (0, 66), (5, 66), (0, 0)] {
        let mut st = state_with(bank, program);
        st.selected_notes[0] = true;
        let before = st.clone();
        assert!(st.translate(MidiEvent::NoteOff { key: 60, vel: 0 }).is_none());
        assert_eq!(st.bank, before.bank);
        assert_eq!(st.program, before.program);
        assert_eq!(st.selected_notes, before.selected_notes);
    }
}

#[test]
fn nonzero_bank_is_idle() {
    let mut st = state_with(128, 63);
    assert!(st.translate(note_on(60)).is_none());
    let mut sel = state_with(1, 66);
    assert!(sel.translate(note_on(60)).is_none());
    assert_eq!(sel.selected_notes, [false; 12]);
}

#[test]
fn program_change_into_select_reannounces() {
    let mut st = MidiState::new();
    st.selected_notes[0] = true;
    let c = st.translate(MidiEvent::ProgramChange { program: 66 }).unwrap();
    assert_eq!(st.program, 66);
    assert_eq!(c.kind, CommandKind::BlinkGreen);
    assert_eq!(c.targets, LAMP_ID_JEAN.to_string());
    assert!(st.translate(MidiEvent::ProgramChange { program: 63 }).is_none());
    assert_eq!(st.program, 63);
    let mut banked = state_with(1, 0);
    assert!(banked.translate(MidiEvent::ProgramChange { program: 66 }).is_none());
}

#[test]
fn raw_bytes_are_parsed() {
    let mut st = state_with(0, 66);
    let c = st.read_midi_message(&[0x90, 60, 100]).unwrap().unwrap();
    assert_eq!(c.kind, CommandKind::BlinkGreen);
    assert!(st.read_midi_message(&[0x80, 60, 0]).unwrap().is_none());
    assert!(st.selected_notes[0]);
    assert!(st.read_midi_message(&[0xFE]).unwrap().is_none());
    st.read_midi_message(&[0xB0, 0, 1]).unwrap();
    assert_eq!(st.bank, 128);
    st.read_midi_message(&[0xC0, 65]).unwrap();
    assert_eq!(st.program, 65);
}

#[test]
fn malformed_bytes_are_rejected() {
    let mut st = state_with(0, 66);
    assert!(st.read_midi_message(&[]).is_err());
    assert!(st.read_midi_message(&[0x90, 60]).is_err());
    assert_eq!(st.selected_notes, [false; 12]);
    assert_eq!(st.program, 66);
}

#[test]
fn command_with_no_value_renders_flash() {
    let c = Command { kind: CommandKind::BlinkRed, targets: "9".to_string(), value: 0 };
    assert!(c.to_json(16711680).contains(r#""args":[1,0,"100, 1, 16711680, 100, 100, 1, 0, 100"]"#));
}

#[test]
fn heartbeat_is_recognised() {
    assert_eq!(heartbeat(), "PING");
    assert!(is_heartbeat(&"PING".to_string()));
    assert!(!is_heartbeat(&"PONG".to_string()));
}

#[test]
fn session_steps() {
    let (s, a) = session_step(SessionState::Connecting, SessionEvent::ConnectFailed);
    assert_eq!(s, SessionState::Connecting);
    assert!(matches!(a, SessionAction::RetryLater));
    let (s, a) = session_step(SessionState::Connecting, SessionEvent::Connected);
    assert_eq!(s, SessionState::Open);
    assert!(matches!(a, SessionAction::Receive));
    let (_, a) = session_step(SessionState::Open, SessionEvent::Dequeued("PING".to_string()));
    assert!(matches!(a, SessionAction::SendPing));
    let (_, a) = session_step(SessionState::Open, SessionEvent::Dequeued("{}".to_string()));
    assert!(matches!(a, SessionAction::SendText(t) if t == "{}"));
    let (s, a) = session_step(SessionState::Open, SessionEvent::SendFailed);
    assert_eq!(s, SessionState::Connecting);
    assert!(matches!(a, SessionAction::Connect));
}

#[test]
fn queued_items_survive_reconnect_in_order() {
    let (tx, rx) = std::sync::mpsc::sync_channel::<String>(QUEUE_CAPACITY);
    for item in ["a", "PING", "b", "c"] {
        tx.try_send(item.to_string()).unwrap();
    }
    let mut state = SessionState::Connecting;
    let mut sent: Vec<String> = Vec::new();
    let (s, _) = session_step(state, SessionEvent::Connected);
    state = s;
    let (s, a) = session_step(state, SessionEvent::Dequeued(rx.recv().unwrap()));
    state = s;
    assert!(matches!(a, SessionAction::SendText(t) if t == "a"));
    // the send of "a" fails: the item is lost, the rest stay queued
    let (s, a) = session_step(state, SessionEvent::SendFailed);
    state = s;
    assert!(matches!(a, SessionAction::Connect));
    let (s, a) = session_step(state, SessionEvent::ConnectFailed);
    state = s;
    assert!(matches!(a, SessionAction::RetryLater));
    let (s, _) = session_step(state, SessionEvent::Connected);
    state = s;
    while let Ok(item) = rx.try_recv() {
        let (s, a) = session_step(state, SessionEvent::Dequeued(item));
        state = s;
        if let SessionAction::SendText(t) = a {
            sent.push(t);
        }
    }
    assert_eq!(sent, vec!["b".to_string(), "c".to_string()]);
}

#[test]
fn full_queue_rejects_without_blocking() {
    let (tx, _rx) = std::sync::mpsc::sync_channel::<String>(QUEUE_CAPACITY);
    for _ in 0..QUEUE_CAPACITY {
        tx.try_send(heartbeat()).unwrap();
    }
    let start = std::time::Instant::now();
    assert!(tx.try_send(heartbeat()).is_err());
    assert!(start.elapsed() < std::time::Duration::from_secs(1));
}

#[test]
fn watcher_decisions() {
    assert_eq!(watch_step(false, false, false), WatchAction::Keep);
    assert_eq!(watch_step(true, false, false), WatchAction::Lost);
    assert_eq!(watch_step(false, true, false), WatchAction::Attach);
    assert_eq!(watch_step(true, true, false), WatchAction::Attach);
    assert_eq!(watch_step(true, true, true), WatchAction::Keep);
}

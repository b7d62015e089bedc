use joymapper::engine::{
    held_inputs, input_name_of, key_down_events, key_up_events, process_frame, slot_down_events,
    slot_up_events, KeyEvent, PadReading, INPUT_COUNT,
};

fn down(code: u16) -> KeyEvent {
    KeyEvent { code, up: false }
}

fn up(code: u16) -> KeyEvent {
    KeyEvent { code, up: true }
}

fn idle_pad() -> PadReading {
    PadReading {
        buttons: 0,
        left_x: 0,
        left_y: 0,
        right_x: 0,
        right_y: 0,
        left_trigger: 0,
        right_trigger: 0,
    }
}

fn strings(v: &[&str]) -> Vec<String> {
    v.iter().map(|s| s.to_string()).collect()
}

#[test]
fn combination_goes_down_in_order_and_up_in_reverse() {
    assert_eq!(slot_down_events("ctrl+c"), vec![down(0x11), down(0x43)]);
    assert_eq!(slot_up_events("ctrl+c"), vec![up(0x43), up(0x11)]);
    assert_eq!(slot_down_events(""), vec![]);
    assert_eq!(slot_up_events(""), vec![]);
}

#[test]
fn unknown_parts_are_skipped() {
    assert_eq!(slot_down_events("ctrl+bogus"), vec![down(0x11)]);
    assert_eq!(slot_down_events("ctrl+"), vec![down(0x11)]);
    assert_eq!(slot_up_events("bogus"), vec![]);
}

#[test]
fn slots_press_first_to_last_and_release_last_to_first() {
    let slots = strings(&["ctrl+c", "", "a"]);
    assert_eq!(key_down_events(&slots), vec![down(0x11), down(0x43), down(0x41)]);
    assert_eq!(key_up_events(&slots), vec![up(0x41), up(0x43), up(0x11)]);
}

#[test]
fn release_mirrors_press_on_a_concrete_mapping() {
    let slots = strings(&["shift+f5", "win", "alt+tab+x", "nothing"]);
    let press = key_down_events(&slots);
    let release = key_up_events(&slots);
    let mirrored: Vec<KeyEvent> = press.iter().rev().map(|e| up(e.code)).collect();
    assert_eq!(release, mirrored);
    assert_eq!(press.len(), 6);
}

#[test]
fn input_names_follow_the_table() {
    assert_eq!(input_name_of(0), "A");
    assert_eq!(input_name_of(4), "DPAD_UP");
    assert_eq!(input_name_of(10), "LT");
    assert_eq!(input_name_of(16), "GUIDE");
    assert_eq!(input_name_of(24), "RS_RIGHT");
}

#[test]
fn buttons_triggers_and_sticks_count_as_held_past_their_thresholds() {
    let mut pad = idle_pad();
    pad.buttons = 0x1000 | 0x0001 | 0x0400;
    pad.left_trigger = 129;
    pad.right_trigger = 128;
    pad.left_y = 16001;
    pad.left_x = -16000;
    pad.right_x = -16001;
    pad.right_y = i16::MIN;
    let held = held_inputs(&pad);
    assert_eq!(held.len(), INPUT_COUNT);
    let names_held: Vec<&str> = (0..INPUT_COUNT)
        .filter(|&i| held[i])
        .map(input_name_of)
        .collect();
    assert_eq!(
        names_held,
        vec!["A", "DPAD_UP", "LT", "GUIDE", "LS_UP", "RS_DOWN", "RS_LEFT"]
    );
}

#[test]
fn a_press_a_hold_and_a_release() {
    let mappings = vec![
        ("A".to_string(), strings(&["ctrl+c", "", ""])),
        ("B".to_string(), strings(&["", "", ""])),
    ];
    let mut pad = idle_pad();
    pad.buttons = 0x1000;

    let first = process_frame(&[], &pad, &mappings, true);
    assert_eq!(first.events, vec![down(0x11), down(0x43)]);
    assert_eq!(first.key_presses, 2);
    assert_eq!(first.clicks, 1);
    assert!(first.changed);

    let second = process_frame(&first.held, &pad, &mappings, true);
    assert_eq!(second.events, vec![]);
    assert_eq!(second.key_presses, 0);
    assert_eq!(second.clicks, 0);
    assert!(!second.changed);
    assert_eq!(second.held, first.held);

    let third = process_frame(&second.held, &idle_pad(), &mappings, true);
    assert_eq!(third.events, vec![up(0x43), up(0x11)]);
    assert_eq!(third.key_presses, 0);
    assert_eq!(third.clicks, 0);
    assert!(third.changed);
}

#[test]
fn unmapped_and_empty_inputs_still_click_and_change() {
    let mappings = vec![("B".to_string(), strings(&["", "", ""]))];
    let mut pad = idle_pad();
    pad.buttons = 0x1000 | 0x2000;
    let out = process_frame(&[], &pad, &mappings, true);
    assert_eq!(out.events, vec![]);
    assert_eq!(out.key_presses, 0);
    assert_eq!(out.clicks, 2);
    assert!(out.changed);
    let quiet = process_frame(&[], &pad, &mappings, false);
    assert_eq!(quiet.clicks, 0);
}

#[test]
fn several_inputs_in_one_frame_go_in_table_order() {
    let mappings = vec![
        ("X".to_string(), strings(&["x"])),
        ("A".to_string(), strings(&["a"])),
        ("RT".to_string(), strings(&["space"])),
    ];
    let mut pad = idle_pad();
    pad.buttons = 0x1000 | 0x4000;
    pad.right_trigger = 255;
    let out = process_frame(&[], &pad, &mappings, false);
    assert_eq!(out.events, vec![down(0x41), down(0x58), down(0x20)]);
    assert_eq!(out.key_presses, 3);
}

#[test]
fn steady_idle_frames_report_nothing() {
    let mappings = vec![("A".to_string(), strings(&["a"]))];
    let held = vec![false; INPUT_COUNT];
    let out = process_frame(&held, &idle_pad(), &mappings, true);
    assert!(!out.changed);
    assert_eq!(out.events, vec![]);
    assert_eq!(out.clicks, 0);
}

use joymapper::keys::{
    display_label_of_lowercase, get_display_name, key_code_of_lowercase, key_event_flags,
    parse_key_string, recorded_key_token, recorded_token_of_lowercase, recording_macro,
};

#[test]
fn modifiers_and_navigation_keys() {
    assert_eq!(parse_key_string("ctrl"), Some(0x11));
    assert_eq!(parse_key_string("Shift"), Some(0x10));
    assert_eq!(parse_key_string("ALT"), Some(0x12));
    assert_eq!(parse_key_string("win"), Some(0x5B));
    assert_eq!(parse_key_string("command"), Some(0x5B));
    assert_eq!(parse_key_string("meta"), Some(0x5B));
    assert_eq!(parse_key_string("space"), Some(0x20));
    assert_eq!(parse_key_string("Enter"), Some(0x0D));
    assert_eq!(parse_key_string("escape"), Some(0x1B));
    assert_eq!(parse_key_string("pgdown"), Some(0x22));
    assert_eq!(parse_key_string("arrowright"), Some(0x27));
}

#[test]
fn symbol_keys_by_character_and_name() {
    assert_eq!(parse_key_string(";"), Some(0xBA));
    assert_eq!(parse_key_string(":"), Some(0xBA));
    assert_eq!(parse_key_string("semicolon"), Some(0xBA));
    assert_eq!(parse_key_string("\\"), Some(0xDC));
    assert_eq!(parse_key_string("|"), Some(0xDC));
    assert_eq!(parse_key_string("\""), Some(0xDE));
    assert_eq!(parse_key_string("="), Some(0xBB));
    assert_eq!(parse_key_string("plus"), Some(0xBB));
    assert_eq!(parse_key_string("+"), Some(0xBB));
    assert_eq!(parse_key_string("_"), Some(0xBD));
}

#[test]
fn shifted_digits_use_the_digit_key() {
    assert_eq!(parse_key_string("!"), Some(0x31));
    assert_eq!(parse_key_string("pound"), Some(0x33));
    assert_eq!(parse_key_string("("), Some(0x39));
    assert_eq!(parse_key_string(")"), Some(0x30));
}

#[test]
fn media_keys() {
    assert_eq!(parse_key_string("browser_favorites"), Some(0xAB));
    assert_eq!(parse_key_string("Volume_Up"), Some(0xAF));
    assert_eq!(parse_key_string("media_play_pause"), Some(0xB3));
    assert_eq!(parse_key_string("launch_app2"), Some(0xB7));
}

#[test]
fn letters_and_digits() {
    assert_eq!(parse_key_string("a"), Some(0x41));
    assert_eq!(parse_key_string("Z"), Some(0x5A));
    assert_eq!(parse_key_string("5"), Some(0x35));
    assert_eq!(parse_key_string("f"), Some(0x46));
}

#[test]
fn function_keys() {
    assert_eq!(parse_key_string("f1"), Some(0x70));
    assert_eq!(parse_key_string("F12"), Some(0x7B));
    assert_eq!(parse_key_string("f24"), Some(0x87));
    assert_eq!(parse_key_string("f05"), Some(0x74));
    assert_eq!(parse_key_string("f+5"), Some(0x74));
    assert_eq!(parse_key_string("f0"), None);
    assert_eq!(parse_key_string("f25"), None);
    assert_eq!(parse_key_string("f"), Some(0x46));
    assert_eq!(parse_key_string("f+"), None);
    assert_eq!(parse_key_string("f70000"), None);
}

#[test]
fn names_that_stand_for_no_key() {
    assert_eq!(parse_key_string(""), None);
    assert_eq!(parse_key_string("é"), None);
    assert_eq!(parse_key_string("ctrlx"), None);
    assert_eq!(parse_key_string("num"), None);
    assert_eq!(parse_key_string("num55"), None);
    assert_eq!(parse_key_string("numx"), None);
    assert_eq!(parse_key_string(" a"), None);
}

#[test]
fn lowercasing_is_unicode_aware() {
    // The Kelvin sign lower-cases to an ASCII 'k'.
    assert_eq!(parse_key_string("\u{212A}"), Some(0x4B));
    assert_eq!(key_code_of_lowercase("\u{212A}"), None);
    assert_eq!(key_code_of_lowercase("CTRL"), None);
    assert_eq!(key_code_of_lowercase("ctrl"), Some(0x11));
}

#[test]
fn display_names() {
    assert_eq!(get_display_name(""), "None");
    assert_eq!(get_display_name("lbracket"), "[");
    assert_eq!(get_display_name("LBracket"), "[");
    assert_eq!(get_display_name("backslash"), "\\");
    assert_eq!(get_display_name("browser_forward"), "Browser Fwd");
    assert_eq!(get_display_name("volume_mute"), "Vol Mute");
    assert_eq!(get_display_name("launch_app1"), "Launch PC");
    assert_eq!(get_display_name("a"), "A");
    assert_eq!(get_display_name("ctrl+shift+f5"), "CTRL+SHIFT+F5");
    // Upper-casing follows Unicode: the sharp s becomes two letters.
    assert_eq!(get_display_name("\u{00DF}"), "SS");
}

#[test]
fn recorded_tokens() {
    assert_eq!(recorded_key_token("Escape"), "__cancel__");
    assert_eq!(recorded_key_token("OpenBracket"), "[");
    assert_eq!(recorded_key_token("CloseBracket"), "]");
    assert_eq!(recorded_key_token("Equals"), "=");
    assert_eq!(recorded_key_token("Backtick"), "`");
    assert_eq!(recorded_key_token("NumpadAdd"), "num+");
    assert_eq!(recorded_key_token("NumpadEnter"), "num_enter");
    assert_eq!(recorded_key_token("Num5"), "5");
    assert_eq!(recorded_key_token("Numpad7"), "num7");
    assert_eq!(recorded_key_token("Numx"), "numx");
    assert_eq!(recorded_key_token("A"), "a");
    assert_eq!(recorded_key_token("F5"), "f5");
    assert_eq!(recorded_key_token("ArrowUp"), "arrowup");
}

#[test]
fn recorded_combinations() {
    assert_eq!(recording_macro(false, false, false, false, "a"), "a");
    assert_eq!(recording_macro(true, false, true, false, "a"), "ctrl+alt+a");
    assert_eq!(recording_macro(true, true, true, true, "f5"), "ctrl+shift+alt+win+f5");
    assert_eq!(recording_macro(false, true, false, false, "__cancel__"), "__cancel__");
}

#[test]
fn key_event_flags_mark_extended_and_released_keys() {
    assert_eq!(key_event_flags(0x41, false), 0);
    assert_eq!(key_event_flags(0x41, true), 2);
    assert_eq!(key_event_flags(0x25, false), 1);
    assert_eq!(key_event_flags(0xAD, true), 3);
    assert_eq!(key_event_flags(0x6F, false), 1);
    assert_eq!(key_event_flags(0xA3, false), 1);
    assert_eq!(key_event_flags(0xA4, false), 0);
    assert_eq!(key_event_flags(0xB8, false), 0);
    assert_eq!(key_event_flags(0x20, false), 0);
}

#[test]
fn labels_and_tokens_of_lower_cased_names() {
    assert_eq!(display_label_of_lowercase("lbracket"), Some("[".to_string()));
    assert_eq!(display_label_of_lowercase("LBracket"), None);
    assert_eq!(display_label_of_lowercase("a"), None);
    assert_eq!(recorded_token_of_lowercase("escape"), "__cancel__");
    assert_eq!(recorded_token_of_lowercase("Escape"), "Escape");
    assert_eq!(recorded_token_of_lowercase("numpad3"), "num3");
    assert_eq!(recorded_token_of_lowercase("num3"), "3");
    assert_eq!(recorded_token_of_lowercase("semicolon"), ";");
}

#[test]
fn recorded_number_row_keys_send_their_digit() {
    for d in 0..10u16 {
        let token = recorded_key_token(&format!("Num{}", d));
        assert_eq!(token, d.to_string());
        assert_eq!(parse_key_string(&token), Some(0x30 + d));
        // Keypad digits are recorded as `numN`, which sends keypad key 0x60+N.
        let keypad = recorded_key_token(&format!("Numpad{}", d));
        assert_eq!(keypad, format!("num{}", d));
        assert_eq!(parse_key_string(&keypad), Some(0x60 + d));
        assert_eq!(parse_key_string(&format!("NUM{}", d)), Some(0x60 + d));
    }
}

#[test]
fn escape_records_the_cancel_token_whatever_is_held() {
    let token = recorded_key_token("Escape");
    assert_eq!(recording_macro(false, false, false, false, &token), "__cancel__");
    assert_eq!(recording_macro(true, false, false, false, &token), "__cancel__");
    assert_eq!(recording_macro(true, true, true, true, &token), "__cancel__");
}

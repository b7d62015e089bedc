use joymapper::battery::{
    battery_label, merge_bluetooth_battery, merge_xinput_battery, parse_battery_percent,
    xinput_battery_reading, Tone, BATTERY_ALKALINE, BATTERY_DISCONNECTED, BATTERY_NIMH,
    BATTERY_PERCENT, BATTERY_UNKNOWN, BATTERY_WIRED,
};

#[test]
fn failed_xinput_query_reads_as_unknown() {
    assert_eq!(xinput_battery_reading(false, 2, 3), (BATTERY_UNKNOWN, 255));
    assert_eq!(xinput_battery_reading(true, 2, 3), (2, 3));
}

#[test]
fn bluetooth_percentage_survives_xinput_unless_wired() {
    let bt = (BATTERY_PERCENT, 57);
    assert_eq!(merge_xinput_battery(bt, (BATTERY_UNKNOWN, 255)), bt);
    assert_eq!(merge_xinput_battery(bt, (BATTERY_ALKALINE, 1)), bt);
    assert_eq!(merge_xinput_battery(bt, (BATTERY_WIRED, 0)), (BATTERY_WIRED, 0));
    assert_eq!(
        merge_xinput_battery((BATTERY_UNKNOWN, 255), (BATTERY_NIMH, 2)),
        (BATTERY_NIMH, 2)
    );
}

#[test]
fn bluetooth_percentage_is_stored_only_when_new_and_not_wired() {
    assert_eq!(merge_bluetooth_battery((BATTERY_WIRED, 0), 80), None);
    assert_eq!(merge_bluetooth_battery((BATTERY_PERCENT, 80), 80), None);
    assert_eq!(
        merge_bluetooth_battery((BATTERY_PERCENT, 81), 80),
        Some((BATTERY_PERCENT, 80))
    );
    assert_eq!(
        merge_bluetooth_battery((BATTERY_UNKNOWN, 255), 80),
        Some((BATTERY_PERCENT, 80))
    );
}

#[test]
fn percentage_is_the_first_byte_line() {
    assert_eq!(parse_battery_percent("57\r\n"), Some(57));
    assert_eq!(parse_battery_percent("  100  "), Some(100));
    assert_eq!(parse_battery_percent("warning\n\n42\n7"), Some(42));
    assert_eq!(parse_battery_percent("+9"), Some(9));
    assert_eq!(parse_battery_percent("0"), Some(0));
}

#[test]
fn out_of_range_or_missing_percentages_give_nothing() {
    assert_eq!(parse_battery_percent(""), None);
    assert_eq!(parse_battery_percent("abc\n"), None);
    // 101 is a byte but more than 100: the search stops there.
    assert_eq!(parse_battery_percent("101\n50"), None);
    // 300 is no byte: the next line decides.
    assert_eq!(parse_battery_percent("300\n50"), Some(50));
    assert_eq!(parse_battery_percent("-5\n"), None);
}

#[test]
fn battery_lines_and_tones() {
    assert_eq!(battery_label(BATTERY_WIRED, 0), ("Power: wired".to_string(), Tone::Plain));
    assert_eq!(
        battery_label(BATTERY_PERCENT, 15),
        ("Battery: 15% (Bluetooth)".to_string(), Tone::Danger)
    );
    assert_eq!(
        battery_label(BATTERY_PERCENT, 35),
        ("Battery: 35% (Bluetooth)".to_string(), Tone::Warning)
    );
    assert_eq!(
        battery_label(BATTERY_PERCENT, 100),
        ("Battery: 100% (Bluetooth)".to_string(), Tone::Success)
    );
    assert_eq!(
        battery_label(BATTERY_DISCONNECTED, 0),
        ("Battery: disconnected".to_string(), Tone::Plain)
    );
    assert_eq!(
        battery_label(BATTERY_ALKALINE, 0),
        ("Battery: Empty (Alkaline)".to_string(), Tone::Danger)
    );
    assert_eq!(
        battery_label(BATTERY_NIMH, 2),
        ("Battery: Medium (NiMH)".to_string(), Tone::Warning)
    );
    assert_eq!(
        battery_label(BATTERY_NIMH, 9),
        ("Battery: Full (NiMH)".to_string(), Tone::Success)
    );
    assert_eq!(
        battery_label(BATTERY_UNKNOWN, 1),
        ("Battery: Low (wireless)".to_string(), Tone::Warning)
    );
    assert_eq!(
        battery_label(BATTERY_UNKNOWN, 255),
        ("Battery: unknown".to_string(), Tone::Plain)
    );
    assert_eq!(battery_label(7, 1), ("Battery: unknown".to_string(), Tone::Plain));
}

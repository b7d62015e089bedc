//! Battery state: how readings from XInput and from the Bluetooth device
//! properties are merged, how the Bluetooth query's output is read, and the
//! text shown for a battery state.
use vstd::prelude::*;
use crate::text::{
    chars_of, decimal, lines_chars, lines_of, parse_unsigned, parse_unsigned_chars, push_char,
    push_decimal, trim, trimmed, views_of,
};

verus! {

/// Battery type: no battery reported.
pub const BATTERY_DISCONNECTED: u8 = 0x00;

/// Battery type: powered by the cable.
pub const BATTERY_WIRED: u8 = 0x01;

/// Battery type: alkaline cells.
pub const BATTERY_ALKALINE: u8 = 0x02;

/// Battery type: rechargeable nickel-metal hydride cells.
pub const BATTERY_NIMH: u8 = 0x03;

/// Battery type: a percentage read over Bluetooth.
pub const BATTERY_PERCENT: u8 = 0xFE;

/// Battery type: unknown.
pub const BATTERY_UNKNOWN: u8 = 0xFF;

/// The (type, level) pair stored when the XInput battery query fails or succeeds.
pub fn xinput_battery_reading(query_ok: bool, battery_type: u8, battery_level: u8) -> (r: (u8, u8))
    ensures
        r == (if query_ok { (battery_type, battery_level) } else { (BATTERY_UNKNOWN, 255u8) }),
{
    if query_ok {
        (battery_type, battery_level)
    } else {
        (BATTERY_UNKNOWN, 255)
    }
}

/// The battery state after an XInput reading: the reading replaces the state,
/// except that a Bluetooth percentage stays unless the reading says wired.
pub fn merge_xinput_battery(current: (u8, u8), reading: (u8, u8)) -> (r: (u8, u8))
    ensures
        r == (if current.0 != BATTERY_PERCENT || reading.0 == BATTERY_WIRED { reading } else { current }),
{
    if current.0 != BATTERY_PERCENT || reading.0 == BATTERY_WIRED {
        reading
    } else {
        current
    }
}

/// The battery state after a Bluetooth percentage: `None` (no change) while the
/// controller is wired or the same percentage is already stored.
pub fn merge_bluetooth_battery(current: (u8, u8), percent: u8) -> (r: Option<(u8, u8)>)
    ensures
        r == (if current.0 != BATTERY_WIRED && current != (BATTERY_PERCENT, percent) {
            Some((BATTERY_PERCENT, percent))
        } else {
            None::<(u8, u8)>
        }),
{
    if current.0 != BATTERY_WIRED && !(current.0 == BATTERY_PERCENT && current.1 == percent) {
        Some((BATTERY_PERCENT, percent))
    } else {
        None
    }
}

/// The percentage that the Bluetooth query printed: the first line that reads
/// as a byte-sized number decides, and it counts only up to 100.
pub open spec fn first_byte_line(lines: Seq<Seq<char>>) -> Option<nat>
    decreases lines.len(),
{
    if lines.len() == 0 {
        None
    } else {
        match parse_unsigned(trim(lines[0]), 255) {
            Some(v) => Some(v),
            None => first_byte_line(lines.drop_first()),
        }
    }
}

/// The battery percentage in the output of the Bluetooth query.
pub open spec fn battery_percent(output: Seq<char>) -> Option<nat> {
    match first_byte_line(lines_of(output)) {
        Some(v) => if v <= 100 {
            Some(v)
        } else {
            None
        },
        None => None,
    }
}

/// Reads the battery percentage out of the Bluetooth query's output.
pub fn parse_battery_percent(output: &str) -> (r: Option<u8>)
    ensures
        match r {
            Some(p) => battery_percent(output@) == Some(p as nat),
            None => battery_percent(output@) is None,
        },
{
    let v = chars_of(output);
    let lines = lines_chars(v.as_slice());
    let ghost ls = lines_of(output@);
    let mut i: usize = 0;
    assert(ls.skip(0) =~= ls);
    while i < lines.len()
        invariant
            i <= lines@.len(),
            views_of(lines@, ls),
            ls == lines_of(output@),
            first_byte_line(ls) == first_byte_line(ls.skip(i as int)),
        decreases lines.len() - i,
    {
        assert(ls.skip(i as int)[0] == ls[i as int]);
        assert(ls.skip(i as int).drop_first() =~= ls.skip(i + 1));
        let t = trimmed(lines[i].as_slice());
        let parsed = parse_unsigned_chars(t.as_slice(), 255);
        assert(t@ == trim(lines@[i as int]@));
        match parsed {
            Some(p) => {
                assert(first_byte_line(ls.skip(i as int)) == Some(p as nat));
                if p <= 100 {
                    return Some(p as u8);
                } else {
                    return None;
                }
            },
            None => {},
        }
        i = i + 1;
    }
    assert(ls.skip(i as int) =~= Seq::<Seq<char>>::empty());
    None
}

/// How a battery line is coloured.
#[derive(Clone, Copy, Debug, PartialEq, Eq, Structural)]
pub enum Tone {
    Plain,
    Success,
    Warning,
    Danger,
}

/// The word and tone for a coarse battery level (0 to 3).
pub open spec fn level_word(level: u8) -> (Seq<char>, Tone) {
    if level == 0 {
        ("Empty"@, Tone::Danger)
    } else if level == 1 {
        ("Low"@, Tone::Warning)
    } else if level == 2 {
        ("Medium"@, Tone::Warning)
    } else {
        ("Full"@, Tone::Success)
    }
}

/// The line shown for the battery state (type, level) and its tone.
pub open spec fn battery_line(battery_type: u8, level: u8) -> (Seq<char>, Tone) {
    if battery_type == BATTERY_WIRED {
        ("Power: wired"@, Tone::Plain)
    } else if battery_type == BATTERY_PERCENT {
        (
            "Battery: "@ + decimal(level as nat) + "% (Bluetooth)"@,
            if level <= 15 {
                Tone::Danger
            } else if level <= 35 {
                Tone::Warning
            } else {
                Tone::Success
            },
        )
    } else if battery_type == BATTERY_DISCONNECTED {
        ("Battery: disconnected"@, Tone::Plain)
    } else if battery_type == BATTERY_ALKALINE || battery_type == BATTERY_NIMH {
        (
            "Battery: "@ + level_word(level).0 + " ("@ + (if battery_type == BATTERY_NIMH {
                "NiMH"@
            } else {
                "Alkaline"@
            }) + ")"@,
            level_word(level).1,
        )
    } else if battery_type == BATTERY_UNKNOWN && level <= 3 {
        ("Battery: "@ + level_word(level).0 + " (wireless)"@, level_word(level).1)
    } else {
        ("Battery: unknown"@, Tone::Plain)
    }
}

fn level_word_of(level: u8) -> (r: (&'static str, Tone))
    ensures
        r.0@ == level_word(level).0,
        r.1 == level_word(level).1,
{
    if level == 0 {
        ("Empty", Tone::Danger)
    } else if level == 1 {
        ("Low", Tone::Warning)
    } else if level == 2 {
        ("Medium", Tone::Warning)
    } else {
        ("Full", Tone::Success)
    }
}

/// The line shown in the hardware card for the battery state (type, level), and its tone.
pub fn battery_label(battery_type: u8, level: u8) -> (r: (String, Tone))
    ensures
        r.0@ == battery_line(battery_type, level).0,
        r.1 == battery_line(battery_type, level).1,
{
    if battery_type == BATTERY_WIRED {
        (String::from_str("Power: wired"), Tone::Plain)
    } else if battery_type == BATTERY_PERCENT {
        let mut s = String::from_str("Battery: ");
        push_decimal(&mut s, level as u128);
        s.append("% (Bluetooth)");
        let tone = if level <= 15 {
            Tone::Danger
        } else if level <= 35 {
            Tone::Warning
        } else {
            Tone::Success
        };
        (s, tone)
    } else if battery_type == BATTERY_DISCONNECTED {
        (String::from_str("Battery: disconnected"), Tone::Plain)
    } else if battery_type == BATTERY_ALKALINE || battery_type == BATTERY_NIMH {
        let (word, tone) = level_word_of(level);
        let mut s = String::from_str("Battery: ");
        s.append(word);
        s.append(" (");
        if battery_type == BATTERY_NIMH {
            s.append("NiMH");
        } else {
            s.append("Alkaline");
        }
        s.append(")");
        (s, tone)
    } else if battery_type == BATTERY_UNKNOWN && level <= 3 {
        let (word, tone) = level_word_of(level);
        let mut s = String::from_str("Battery: ");
        s.append(word);
        s.append(" (wireless)");
        (s, tone)
    } else {
        (String::from_str("Battery: unknown"), Tone::Plain)
    }
}


/// The battery line for a coarse XInput level: 0 reads Empty (danger), 1 Low
/// and 2 Medium (warning), 3 and above Full (success), for alkaline and NiMH
/// cells; a wireless battery of unknown kind reads the same for levels 0 to 3
/// and "unknown" above. A Bluetooth percentage is a danger up to 15, a warning
/// up to 35 and a success above.
pub proof fn lemma_battery_lines(level: u8)
    ensures
        battery_line(BATTERY_ALKALINE, level) == (if level == 0 { ("Battery: Empty (Alkaline)"@, Tone::Danger) } else if level == 1 { ("Battery: Low (Alkaline)"@, Tone::Warning) } else if level == 2 { ("Battery: Medium (Alkaline)"@, Tone::Warning) } else { ("Battery: Full (Alkaline)"@, Tone::Success) }),
        battery_line(BATTERY_NIMH, level) == (if level == 0 { ("Battery: Empty (NiMH)"@, Tone::Danger) } else if level == 1 { ("Battery: Low (NiMH)"@, Tone::Warning) } else if level == 2 { ("Battery: Medium (NiMH)"@, Tone::Warning) } else { ("Battery: Full (NiMH)"@, Tone::Success) }),
        level <= 3 ==> battery_line(BATTERY_UNKNOWN, level) == (if level == 0 { ("Battery: Empty (wireless)"@, Tone::Danger) } else if level == 1 { ("Battery: Low (wireless)"@, Tone::Warning) } else if level == 2 { ("Battery: Medium (wireless)"@, Tone::Warning) } else { ("Battery: Full (wireless)"@, Tone::Success) }),
        level > 3 ==> battery_line(BATTERY_UNKNOWN, level) == ("Battery: unknown"@, Tone::Plain),
        battery_line(BATTERY_PERCENT, level).1 == (if level <= 15 { Tone::Danger } else if level <= 35 { Tone::Warning } else { Tone::Success }),
        battery_line(BATTERY_WIRED, level) == ("Power: wired"@, Tone::Plain),
        battery_line(BATTERY_DISCONNECTED, level) == ("Battery: disconnected"@, Tone::Plain),
{
    reveal_strlit(" (");
    reveal_strlit(" (wireless)");
    reveal_strlit(")");
    reveal_strlit("Alkaline");
    reveal_strlit("Battery: ");
    reveal_strlit("Battery: Empty (Alkaline)");
    reveal_strlit("Battery: Empty (NiMH)");
    reveal_strlit("Battery: Empty (wireless)");
    reveal_strlit("Battery: Full (Alkaline)");
    reveal_strlit("Battery: Full (NiMH)");
    reveal_strlit("Battery: Full (wireless)");
    reveal_strlit("Battery: Low (Alkaline)");
    reveal_strlit("Battery: Low (NiMH)");
    reveal_strlit("Battery: Low (wireless)");
    reveal_strlit("Battery: Medium (Alkaline)");
    reveal_strlit("Battery: Medium (NiMH)");
    reveal_strlit("Battery: Medium (wireless)");
    reveal_strlit("Empty");
    reveal_strlit("Full");
    reveal_strlit("Low");
    reveal_strlit("Medium");
    reveal_strlit("NiMH");
    if level == 0 {
        assert("Battery: "@ + "Empty"@ + " ("@ + "Alkaline"@ + ")"@ =~= "Battery: Empty (Alkaline)"@);
    }
    if level == 1 {
        assert("Battery: "@ + "Low"@ + " ("@ + "Alkaline"@ + ")"@ =~= "Battery: Low (Alkaline)"@);
    }
    if level == 2 {
        assert("Battery: "@ + "Medium"@ + " ("@ + "Alkaline"@ + ")"@ =~= "Battery: Medium (Alkaline)"@);
    }
    if level >= 3 {
        assert("Battery: "@ + "Full"@ + " ("@ + "Alkaline"@ + ")"@ =~= "Battery: Full (Alkaline)"@);
    }
    if level == 0 {
        assert("Battery: "@ + "Empty"@ + " ("@ + "NiMH"@ + ")"@ =~= "Battery: Empty (NiMH)"@);
    }
    if level == 1 {
        assert("Battery: "@ + "Low"@ + " ("@ + "NiMH"@ + ")"@ =~= "Battery: Low (NiMH)"@);
    }
    if level == 2 {
        assert("Battery: "@ + "Medium"@ + " ("@ + "NiMH"@ + ")"@ =~= "Battery: Medium (NiMH)"@);
    }
    if level >= 3 {
        assert("Battery: "@ + "Full"@ + " ("@ + "NiMH"@ + ")"@ =~= "Battery: Full (NiMH)"@);
    }
    if level == 0 {
        assert("Battery: "@ + "Empty"@ + " (wireless)"@ =~= "Battery: Empty (wireless)"@);
    }
    if level == 1 {
        assert("Battery: "@ + "Low"@ + " (wireless)"@ =~= "Battery: Low (wireless)"@);
    }
    if level == 2 {
        assert("Battery: "@ + "Medium"@ + " (wireless)"@ =~= "Battery: Medium (wireless)"@);
    }
    if level == 3 {
        assert("Battery: "@ + "Full"@ + " (wireless)"@ =~= "Battery: Full (wireless)"@);
    }
}
} // verus!

//! Key names: the virtual-key codes that a mapping's key names stand for, the
//! labels shown for them, the tokens stored when a key is recorded, and the
//! flags of a synthesized key event.
use vstd::prelude::*;
use crate::profile::CANCEL_TOKEN;
use crate::text::{
    all_ascii, ascii_lowercase, ascii_uppercase, decimal, digit_char, digit_value, lemma_decimal_digits,
    lemma_parse_decimal, str_eq, chars_eq_str, chars_of, is_digit, is_digit_char, lowercase_of, parse_unsigned, parse_unsigned_chars,
    push_char, to_lowercase, to_uppercase, uppercase_of,
};
use vstd::slice::slice_subrange;

verus! {

/// The virtual-key code of a modifier, navigation or editing key name.
pub open spec fn control_key_code(k: Seq<char>) -> Option<u16> {
    if k == "ctrl"@ {
        Some(0x11u16)
    } else if k == "shift"@ {
        Some(0x10u16)
    } else if k == "alt"@ {
        Some(0x12u16)
    } else if k == "win"@ || k == "command"@ || k == "meta"@ {
        Some(0x5Bu16)
    } else if k == "space"@ {
        Some(0x20u16)
    } else if k == "enter"@ {
        Some(0x0Du16)
    } else if k == "escape"@ {
        Some(0x1Bu16)
    } else if k == "tab"@ {
        Some(0x09u16)
    } else if k == "backspace"@ {
        Some(0x08u16)
    } else if k == "caps"@ {
        Some(0x14u16)
    } else if k == "insert"@ {
        Some(0x2Du16)
    } else if k == "delete"@ {
        Some(0x2Eu16)
    } else if k == "home"@ {
        Some(0x24u16)
    } else if k == "end"@ {
        Some(0x23u16)
    } else if k == "pgup"@ {
        Some(0x21u16)
    } else if k == "pgdown"@ {
        Some(0x22u16)
    } else if k == "arrowup"@ {
        Some(0x26u16)
    } else if k == "arrowdown"@ {
        Some(0x28u16)
    } else if k == "arrowleft"@ {
        Some(0x25u16)
    } else if k == "arrowright"@ {
        Some(0x27u16)
    } else {
        None
    }
}

fn control_key_code_of(k: &[char]) -> (r: Option<u16>)
    ensures
        r == control_key_code(k@),
{
    if chars_eq_str(k, "ctrl") {
        return Some(0x11);
    }
    if chars_eq_str(k, "shift") {
        return Some(0x10);
    }
    if chars_eq_str(k, "alt") {
        return Some(0x12);
    }
    if chars_eq_str(k, "win") || chars_eq_str(k, "command") || chars_eq_str(k, "meta") {
        return Some(0x5B);
    }
    if chars_eq_str(k, "space") {
        return Some(0x20);
    }
    if chars_eq_str(k, "enter") {
        return Some(0x0D);
    }
    if chars_eq_str(k, "escape") {
        return Some(0x1B);
    }
    if chars_eq_str(k, "tab") {
        return Some(0x09);
    }
    if chars_eq_str(k, "backspace") {
        return Some(0x08);
    }
    if chars_eq_str(k, "caps") {
        return Some(0x14);
    }
    if chars_eq_str(k, "insert") {
        return Some(0x2D);
    }
    if chars_eq_str(k, "delete") {
        return Some(0x2E);
    }
    if chars_eq_str(k, "home") {
        return Some(0x24);
    }
    if chars_eq_str(k, "end") {
        return Some(0x23);
    }
    if chars_eq_str(k, "pgup") {
        return Some(0x21);
    }
    if chars_eq_str(k, "pgdown") {
        return Some(0x22);
    }
    if chars_eq_str(k, "arrowup") {
        return Some(0x26);
    }
    if chars_eq_str(k, "arrowdown") {
        return Some(0x28);
    }
    if chars_eq_str(k, "arrowleft") {
        return Some(0x25);
    }
    if chars_eq_str(k, "arrowright") {
        return Some(0x27);
    }
    None
}

/// The virtual-key code of an OEM symbol key, by its character (shifted or not) or name.
pub open spec fn symbol_key_code(k: Seq<char>) -> Option<u16> {
    if k == ";"@ || k == "semicolon"@ || k == ":"@ {
        Some(0xBAu16)
    } else if k == "/"@ || k == "slash"@ || k == "?"@ {
        Some(0xBFu16)
    } else if k == "`"@ || k == "backtick"@ || k == "~"@ {
        Some(0xC0u16)
    } else if k == "["@ || k == "lbracket"@ || k == "{"@ {
        Some(0xDBu16)
    } else if k == "\\"@ || k == "backslash"@ || k == "|"@ {
        Some(0xDCu16)
    } else if k == "]"@ || k == "rbracket"@ || k == "}"@ {
        Some(0xDDu16)
    } else if k == "'"@ || k == "quote"@ || k == "\""@ {
        Some(0xDEu16)
    } else if k == ","@ || k == "comma"@ || k == "<"@ {
        Some(0xBCu16)
    } else if k == "."@ || k == "period"@ || k == ">"@ {
        Some(0xBEu16)
    } else if k == "-"@ || k == "minus"@ || k == "_"@ {
        Some(0xBDu16)
    } else if k == "="@ || k == "+"@ || k == "plus"@ {
        Some(0xBBu16)
    } else {
        None
    }
}

fn symbol_key_code_of(k: &[char]) -> (r: Option<u16>)
    ensures
        r == symbol_key_code(k@),
{
    if chars_eq_str(k, ";") || chars_eq_str(k, "semicolon") || chars_eq_str(k, ":") {
        return Some(0xBA);
    }
    if chars_eq_str(k, "/") || chars_eq_str(k, "slash") || chars_eq_str(k, "?") {
        return Some(0xBF);
    }
    if chars_eq_str(k, "`") || chars_eq_str(k, "backtick") || chars_eq_str(k, "~") {
        return Some(0xC0);
    }
    if chars_eq_str(k, "[") || chars_eq_str(k, "lbracket") || chars_eq_str(k, "{") {
        return Some(0xDB);
    }
    if chars_eq_str(k, "\\") || chars_eq_str(k, "backslash") || chars_eq_str(k, "|") {
        return Some(0xDC);
    }
    if chars_eq_str(k, "]") || chars_eq_str(k, "rbracket") || chars_eq_str(k, "}") {
        return Some(0xDD);
    }
    if chars_eq_str(k, "'") || chars_eq_str(k, "quote") || chars_eq_str(k, "\"") {
        return Some(0xDE);
    }
    if chars_eq_str(k, ",") || chars_eq_str(k, "comma") || chars_eq_str(k, "<") {
        return Some(0xBC);
    }
    if chars_eq_str(k, ".") || chars_eq_str(k, "period") || chars_eq_str(k, ">") {
        return Some(0xBE);
    }
    if chars_eq_str(k, "-") || chars_eq_str(k, "minus") || chars_eq_str(k, "_") {
        return Some(0xBD);
    }
    if chars_eq_str(k, "=") || chars_eq_str(k, "+") || chars_eq_str(k, "plus") {
        return Some(0xBB);
    }
    None
}

/// The virtual-key code of the digit key that types a shifted symbol.
pub open spec fn shifted_digit_key_code(k: Seq<char>) -> Option<u16> {
    if k == "!"@ || k == "exclaim"@ {
        Some(0x31u16)
    } else if k == "@"@ || k == "at"@ {
        Some(0x32u16)
    } else if k == "#"@ || k == "hash"@ || k == "pound"@ {
        Some(0x33u16)
    } else if k == "$"@ || k == "dollar"@ {
        Some(0x34u16)
    } else if k == "%"@ || k == "percent"@ {
        Some(0x35u16)
    } else if k == "^"@ || k == "caret"@ {
        Some(0x36u16)
    } else if k == "&"@ || k == "ampersand"@ {
        Some(0x37u16)
    } else if k == "*"@ || k == "asterisk"@ {
        Some(0x38u16)
    } else if k == "("@ {
        Some(0x39u16)
    } else if k == ")"@ {
        Some(0x30u16)
    } else {
        None
    }
}

fn shifted_digit_key_code_of(k: &[char]) -> (r: Option<u16>)
    ensures
        r == shifted_digit_key_code(k@),
{
    if chars_eq_str(k, "!") || chars_eq_str(k, "exclaim") {
        return Some(0x31);
    }
    if chars_eq_str(k, "@") || chars_eq_str(k, "at") {
        return Some(0x32);
    }
    if chars_eq_str(k, "#") || chars_eq_str(k, "hash") || chars_eq_str(k, "pound") {
        return Some(0x33);
    }
    if chars_eq_str(k, "$") || chars_eq_str(k, "dollar") {
        return Some(0x34);
    }
    if chars_eq_str(k, "%") || chars_eq_str(k, "percent") {
        return Some(0x35);
    }
    if chars_eq_str(k, "^") || chars_eq_str(k, "caret") {
        return Some(0x36);
    }
    if chars_eq_str(k, "&") || chars_eq_str(k, "ampersand") {
        return Some(0x37);
    }
    if chars_eq_str(k, "*") || chars_eq_str(k, "asterisk") {
        return Some(0x38);
    }
    if chars_eq_str(k, "(") {
        return Some(0x39);
    }
    if chars_eq_str(k, ")") {
        return Some(0x30);
    }
    None
}

/// The virtual-key code of a browser, media or launcher key name.
pub open spec fn media_key_code(k: Seq<char>) -> Option<u16> {
    if k == "browser_back"@ {
        Some(0xA6u16)
    } else if k == "browser_forward"@ {
        Some(0xA7u16)
    } else if k == "browser_refresh"@ {
        Some(0xA8u16)
    } else if k == "browser_stop"@ {
        Some(0xA9u16)
    } else if k == "browser_search"@ {
        Some(0xAAu16)
    } else if k == "browser_fav"@ || k == "browser_favorites"@ {
        Some(0xABu16)
    } else if k == "browser_home"@ {
        Some(0xACu16)
    } else if k == "vol_mute"@ || k == "volume_mute"@ {
        Some(0xADu16)
    } else if k == "vol_down"@ || k == "volume_down"@ {
        Some(0xAEu16)
    } else if k == "vol_up"@ || k == "volume_up"@ {
        Some(0xAFu16)
    } else if k == "media_next"@ || k == "media_next_track"@ {
        Some(0xB0u16)
    } else if k == "media_prev"@ || k == "media_prev_track"@ {
        Some(0xB1u16)
    } else if k == "media_stop"@ {
        Some(0xB2u16)
    } else if k == "media_play_pause"@ {
        Some(0xB3u16)
    } else if k == "launch_mail"@ {
        Some(0xB4u16)
    } else if k == "launch_media"@ || k == "launch_media_select"@ {
        Some(0xB5u16)
    } else if k == "launch_pc"@ || k == "launch_app1"@ {
        Some(0xB6u16)
    } else if k == "launch_calc"@ || k == "launch_app2"@ {
        Some(0xB7u16)
    } else {
        None
    }
}

fn media_key_code_of(k: &[char]) -> (r: Option<u16>)
    ensures
        r == media_key_code(k@),
{
    if chars_eq_str(k, "browser_back") {
        return Some(0xA6);
    }
    if chars_eq_str(k, "browser_forward") {
        return Some(0xA7);
    }
    if chars_eq_str(k, "browser_refresh") {
        return Some(0xA8);
    }
    if chars_eq_str(k, "browser_stop") {
        return Some(0xA9);
    }
    if chars_eq_str(k, "browser_search") {
        return Some(0xAA);
    }
    if chars_eq_str(k, "browser_fav") || chars_eq_str(k, "browser_favorites") {
        return Some(0xAB);
    }
    if chars_eq_str(k, "browser_home") {
        return Some(0xAC);
    }
    if chars_eq_str(k, "vol_mute") || chars_eq_str(k, "volume_mute") {
        return Some(0xAD);
    }
    if chars_eq_str(k, "vol_down") || chars_eq_str(k, "volume_down") {
        return Some(0xAE);
    }
    if chars_eq_str(k, "vol_up") || chars_eq_str(k, "volume_up") {
        return Some(0xAF);
    }
    if chars_eq_str(k, "media_next") || chars_eq_str(k, "media_next_track") {
        return Some(0xB0);
    }
    if chars_eq_str(k, "media_prev") || chars_eq_str(k, "media_prev_track") {
        return Some(0xB1);
    }
    if chars_eq_str(k, "media_stop") {
        return Some(0xB2);
    }
    if chars_eq_str(k, "media_play_pause") {
        return Some(0xB3);
    }
    if chars_eq_str(k, "launch_mail") {
        return Some(0xB4);
    }
    if chars_eq_str(k, "launch_media") || chars_eq_str(k, "launch_media_select") {
        return Some(0xB5);
    }
    if chars_eq_str(k, "launch_pc") || chars_eq_str(k, "launch_app1") {
        return Some(0xB6);
    }
    if chars_eq_str(k, "launch_calc") || chars_eq_str(k, "launch_app2") {
        return Some(0xB7);
    }
    None
}

/// The label shown for a key name that has one of its own.
pub open spec fn display_label(k: Seq<char>) -> Option<Seq<char>> {
    if k == "lbracket"@ {
        Some("["@)
    } else if k == "rbracket"@ {
        Some("]"@)
    } else if k == "backslash"@ {
        Some("\\"@)
    } else if k == "semicolon"@ {
        Some(";"@)
    } else if k == "backtick"@ {
        Some("`"@)
    } else if k == "browser_back"@ {
        Some("Browser Back"@)
    } else if k == "browser_forward"@ {
        Some("Browser Fwd"@)
    } else if k == "browser_refresh"@ {
        Some("Browser Refresh"@)
    } else if k == "browser_stop"@ {
        Some("Browser Stop"@)
    } else if k == "browser_search"@ {
        Some("Browser Search"@)
    } else if k == "browser_fav"@ || k == "browser_favorites"@ {
        Some("Browser Favorites"@)
    } else if k == "browser_home"@ {
        Some("Browser Home"@)
    } else if k == "vol_mute"@ || k == "volume_mute"@ {
        Some("Vol Mute"@)
    } else if k == "vol_down"@ || k == "volume_down"@ {
        Some("Vol Down"@)
    } else if k == "vol_up"@ || k == "volume_up"@ {
        Some("Vol Up"@)
    } else if k == "media_next"@ || k == "media_next_track"@ {
        Some("Next Track"@)
    } else if k == "media_prev"@ || k == "media_prev_track"@ {
        Some("Prev Track"@)
    } else if k == "media_stop"@ {
        Some("Media Stop"@)
    } else if k == "media_play_pause"@ {
        Some("Play/Pause"@)
    } else if k == "launch_mail"@ {
        Some("Launch Mail"@)
    } else if k == "launch_media"@ || k == "launch_media_select"@ {
        Some("Launch Media"@)
    } else if k == "launch_pc"@ || k == "launch_app1"@ {
        Some("Launch PC"@)
    } else if k == "launch_calc"@ || k == "launch_app2"@ {
        Some("Launch Calc"@)
    } else {
        None
    }
}

fn display_label_of(k: &[char]) -> (r: Option<String>)
    ensures
        match r {
            Some(s) => display_label(k@) == Some(s@),
            None => display_label(k@) is None,
        },
{
    if chars_eq_str(k, "lbracket") {
        return Some(String::from_str("["));
    }
    if chars_eq_str(k, "rbracket") {
        return Some(String::from_str("]"));
    }
    if chars_eq_str(k, "backslash") {
        return Some(String::from_str("\\"));
    }
    if chars_eq_str(k, "semicolon") {
        return Some(String::from_str(";"));
    }
    if chars_eq_str(k, "backtick") {
        return Some(String::from_str("`"));
    }
    if chars_eq_str(k, "browser_back") {
        return Some(String::from_str("Browser Back"));
    }
    if chars_eq_str(k, "browser_forward") {
        return Some(String::from_str("Browser Fwd"));
    }
    if chars_eq_str(k, "browser_refresh") {
        return Some(String::from_str("Browser Refresh"));
    }
    if chars_eq_str(k, "browser_stop") {
        return Some(String::from_str("Browser Stop"));
    }
    if chars_eq_str(k, "browser_search") {
        return Some(String::from_str("Browser Search"));
    }
    if chars_eq_str(k, "browser_fav") || chars_eq_str(k, "browser_favorites") {
        return Some(String::from_str("Browser Favorites"));
    }
    if chars_eq_str(k, "browser_home") {
        return Some(String::from_str("Browser Home"));
    }
    if chars_eq_str(k, "vol_mute") || chars_eq_str(k, "volume_mute") {
        return Some(String::from_str("Vol Mute"));
    }
    if chars_eq_str(k, "vol_down") || chars_eq_str(k, "volume_down") {
        return Some(String::from_str("Vol Down"));
    }
    if chars_eq_str(k, "vol_up") || chars_eq_str(k, "volume_up") {
        return Some(String::from_str("Vol Up"));
    }
    if chars_eq_str(k, "media_next") || chars_eq_str(k, "media_next_track") {
        return Some(String::from_str("Next Track"));
    }
    if chars_eq_str(k, "media_prev") || chars_eq_str(k, "media_prev_track") {
        return Some(String::from_str("Prev Track"));
    }
    if chars_eq_str(k, "media_stop") {
        return Some(String::from_str("Media Stop"));
    }
    if chars_eq_str(k, "media_play_pause") {
        return Some(String::from_str("Play/Pause"));
    }
    if chars_eq_str(k, "launch_mail") {
        return Some(String::from_str("Launch Mail"));
    }
    if chars_eq_str(k, "launch_media") || chars_eq_str(k, "launch_media_select") {
        return Some(String::from_str("Launch Media"));
    }
    if chars_eq_str(k, "launch_pc") || chars_eq_str(k, "launch_app1") {
        return Some(String::from_str("Launch PC"));
    }
    if chars_eq_str(k, "launch_calc") || chars_eq_str(k, "launch_app2") {
        return Some(String::from_str("Launch Calc"));
    }
    None
}

/// The token stored for a recorded key whose name differs from the token.
pub open spec fn recorded_symbol_token(k: Seq<char>) -> Option<Seq<char>> {
    if k == "openbracket"@ {
        Some("["@)
    } else if k == "closebracket"@ {
        Some("]"@)
    } else if k == "backslash"@ {
        Some("\\"@)
    } else if k == "semicolon"@ {
        Some(";"@)
    } else if k == "quote"@ {
        Some("'"@)
    } else if k == "comma"@ {
        Some(","@)
    } else if k == "period"@ {
        Some("."@)
    } else if k == "minus"@ {
        Some("-"@)
    } else if k == "equals"@ || k == "plus"@ || k == "equal"@ {
        Some("="@)
    } else if k == "backtick"@ || k == "grave"@ || k == "graveaccent"@ {
        Some("`"@)
    } else if k == "slash"@ {
        Some("/"@)
    } else if k == "numpadadd"@ {
        Some("num+"@)
    } else if k == "numpadsubtract"@ {
        Some("num-"@)
    } else if k == "numpadmultiply"@ {
        Some("num*"@)
    } else if k == "numpaddivide"@ {
        Some("num/"@)
    } else if k == "numpaddecimal"@ {
        Some("num."@)
    } else if k == "numpadenter"@ {
        Some("num_enter"@)
    } else {
        None
    }
}

fn recorded_symbol_token_of(k: &[char]) -> (r: Option<String>)
    ensures
        match r {
            Some(s) => recorded_symbol_token(k@) == Some(s@),
            None => recorded_symbol_token(k@) is None,
        },
{
    if chars_eq_str(k, "openbracket") {
        return Some(String::from_str("["));
    }
    if chars_eq_str(k, "closebracket") {
        return Some(String::from_str("]"));
    }
    if chars_eq_str(k, "backslash") {
        return Some(String::from_str("\\"));
    }
    if chars_eq_str(k, "semicolon") {
        return Some(String::from_str(";"));
    }
    if chars_eq_str(k, "quote") {
        return Some(String::from_str("'"));
    }
    if chars_eq_str(k, "comma") {
        return Some(String::from_str(","));
    }
    if chars_eq_str(k, "period") {
        return Some(String::from_str("."));
    }
    if chars_eq_str(k, "minus") {
        return Some(String::from_str("-"));
    }
    if chars_eq_str(k, "equals") || chars_eq_str(k, "plus") || chars_eq_str(k, "equal") {
        return Some(String::from_str("="));
    }
    if chars_eq_str(k, "backtick") || chars_eq_str(k, "grave") || chars_eq_str(k, "graveaccent") {
        return Some(String::from_str("`"));
    }
    if chars_eq_str(k, "slash") {
        return Some(String::from_str("/"));
    }
    if chars_eq_str(k, "numpadadd") {
        return Some(String::from_str("num+"));
    }
    if chars_eq_str(k, "numpadsubtract") {
        return Some(String::from_str("num-"));
    }
    if chars_eq_str(k, "numpadmultiply") {
        return Some(String::from_str("num*"));
    }
    if chars_eq_str(k, "numpaddivide") {
        return Some(String::from_str("num/"));
    }
    if chars_eq_str(k, "numpaddecimal") {
        return Some(String::from_str("num."));
    }
    if chars_eq_str(k, "numpadenter") {
        return Some(String::from_str("num_enter"));
    }
    None
}

/// The virtual-key code of a key name that the tables list.
pub open spec fn named_key_code(k: Seq<char>) -> Option<u16> {
    if control_key_code(k) is Some {
        control_key_code(k)
    } else if symbol_key_code(k) is Some {
        symbol_key_code(k)
    } else if shifted_digit_key_code(k) is Some {
        shifted_digit_key_code(k)
    } else {
        media_key_code(k)
    }
}

/// Whether `c` is an ASCII letter or digit.
pub open spec fn is_ascii_alphanumeric(c: char) -> bool {
    is_digit(c) || (97 <= (c as u32) && (c as u32) <= 122) || (65 <= (c as u32) && (c as u32) <= 90)
}

/// The ASCII upper-case form of `c`.
pub open spec fn ascii_upper(c: char) -> u32 {
    if 97 <= (c as u32) && (c as u32) <= 122 {
        ((c as u32) - 32) as u32
    } else {
        c as u32
    }
}

/// The code of a key name that no table lists: a single ASCII letter or digit
/// stands for its upper-case character, `num0`..`num9` for the keypad digits
/// (0x60 and up), and `f1`..`f24` for the function keys.
pub open spec fn other_key_code(k: Seq<char>) -> Option<u16> {
    if k.len() == 1 && (k[0] as u32) < 128 {
        if is_ascii_alphanumeric(k[0]) {
            Some(ascii_upper(k[0]) as u16)
        } else {
            None
        }
    } else if k.len() == 4 && k.take(3) == "num"@ && is_digit(k[3]) {
        Some((0x60 + digit_value(k[3])) as u16)
    } else if k.len() > 0 && k[0] == 'f' {
        match parse_unsigned(k.drop_first(), 65535) {
            Some(n) => if 1 <= n && n <= 24 {
                Some((0x6F + n) as u16)
            } else {
                None
            },
            None => None,
        }
    } else {
        None
    }
}

/// The virtual-key code that an already lower-cased key name stands for.
pub open spec fn key_code(k: Seq<char>) -> Option<u16> {
    if named_key_code(k) is Some {
        named_key_code(k)
    } else {
        other_key_code(k)
    }
}

fn is_keypad_digit_name(k: &[char]) -> (b: bool)
    ensures
        b == (k@.len() == 4 && k@.take(3) == "num"@ && is_digit(k@[3])),
{
    if k.len() != 4 {
        return false;
    }
    let head = slice_subrange(k, 0, 3);
    assert(head@ =~= k@.take(3));
    chars_eq_str(head, "num") && is_digit_char(k[3])
}

fn other_key_code_of(k: &[char]) -> (r: Option<u16>)
    ensures
        r == other_key_code(k@),
{
    if k.len() == 1 && (k[0] as u32) < 128 {
        let c = k[0] as u32;
        if (48 <= c && c <= 57) || (97 <= c && c <= 122) || (65 <= c && c <= 90) {
            let up: u32 = if 97 <= c && c <= 122 {
                c - 32
            } else {
                c
            };
            Some(up as u16)
        } else {
            None
        }
    } else if is_keypad_digit_name(k) {
        Some((0x60 + (k[3] as u32 - 48)) as u16)
    } else if k.len() > 0 && k[0] == 'f' {
        let rest = slice_subrange(k, 1, k.len());
        assert(rest@ =~= k@.drop_first());
        match parse_unsigned_chars(rest, 65535) {
            Some(n) => if 1 <= n && n <= 24 {
                Some((0x6F + n) as u16)
            } else {
                None
            },
            None => None,
        }
    } else {
        None
    }
}

/// The virtual-key code that the lower-cased key name `k` stands for.
pub fn key_code_of_lowercase(k: &str) -> (r: Option<u16>)
    ensures
        r == key_code(k@),
{
    let v = chars_of(k);
    let c = control_key_code_of(&v);
    if c.is_some() {
        return c;
    }
    let s = symbol_key_code_of(&v);
    if s.is_some() {
        return s;
    }
    let d = shifted_digit_key_code_of(&v);
    if d.is_some() {
        return d;
    }
    let m = media_key_code_of(&v);
    if m.is_some() {
        return m;
    }
    other_key_code_of(&v)
}

/// The virtual-key code that the key name `k` stands for, compared without
/// regard to case; `None` for a name that stands for no key.
pub fn parse_key_string(k: &str) -> (r: Option<u16>)
    ensures
        r == key_code(lowercase_of(k@)),
        all_ascii(k@) ==> r == key_code(ascii_lowercase(k@)),
{
    let lower = to_lowercase(k);
    key_code_of_lowercase(lower.as_str())
}


/// The label shown for the key name `raw`: `None` for an empty name, the
/// name's own label where it has one, else the name in upper case.
pub open spec fn display_name(raw: Seq<char>) -> Seq<char> {
    if raw.len() == 0 {
        "None"@
    } else {
        match display_label(lowercase_of(raw)) {
            Some(l) => l,
            None => uppercase_of(raw),
        }
    }
}

/// The label shown for the key name `raw` on a mapping chip.
pub fn get_display_name(raw: &str) -> (r: String)
    ensures
        r@ == display_name(raw@),
        all_ascii(raw@) ==> r@ == (if raw@.len() == 0 {
            "None"@
        } else {
            match display_label(ascii_lowercase(raw@)) {
                Some(l) => l,
                None => ascii_uppercase(raw@),
            }
        }),
{
    let v = chars_of(raw);
    if v.len() == 0 {
        return String::from_str("None");
    }
    let lower = to_lowercase(raw);
    match display_label_of_lowercase(lower.as_str()) {
        Some(l) => l,
        None => to_uppercase(raw),
    }
}

/// The label of the key name `lower`, already lower-cased, where it has one of its own.
pub fn display_label_of_lowercase(lower: &str) -> (r: Option<String>)
    ensures
        match r {
            Some(s) => display_label(lower@) == Some(s@),
            None => display_label(lower@) is None,
        },
{
    let lv = chars_of(lower);
    display_label_of(&lv)
}

/// The token that stands in a recording for a key of the debug name `k`,
/// already lower-cased; `__cancel__` for the escape key.
pub open spec fn recorded_token(k: Seq<char>) -> Seq<char> {
    if k == "escape"@ {
        "__cancel__"@
    } else if recorded_symbol_token(k) is Some {
        recorded_symbol_token(k)->0
    } else if k.len() == 4 && k.take(3) == "num"@ && is_digit(k[3]) {
        seq![k[3]]
    } else if k.len() == 7 && k.take(6) == "numpad"@ && is_digit(k[6]) {
        "num"@.push(k[6])
    } else {
        k
    }
}

/// The token recorded for a key whose debug name, already lower-cased, is `lower`.
pub fn recorded_token_of_lowercase(lower: &str) -> (r: String)
    ensures
        r@ == recorded_token(lower@),
{
    let k = chars_of(lower);
    if chars_eq_str(&k, "escape") {
        return String::from_str("__cancel__");
    }
    match recorded_symbol_token_of(&k) {
        Some(t) => {
            return t;
        },
        None => {},
    }
    if k.len() == 4 {
        let head = slice_subrange(k.as_slice(), 0, 3);
        assert(head@ =~= k@.take(3));
        if chars_eq_str(head, "num") && is_digit_char(k[3]) {
            let mut out = String::new();
            push_char(&mut out, k[3]);
            assert(out@ =~= seq![k@[3]]);
            return out;
        }
    }
    if k.len() == 7 {
        let head = slice_subrange(k.as_slice(), 0, 6);
        assert(head@ =~= k@.take(6));
        if chars_eq_str(head, "numpad") && is_digit_char(k[6]) {
            let mut out = String::from_str("num");
            push_char(&mut out, k[6]);
            return out;
        }
    }
    String::from_str(lower)
}

/// The token recorded for a key of the debug name `debug_name`, compared
/// without regard to case: number-row keys become their digit, keypad digits
/// `num0`..`num9`, and symbol keys their character.
pub fn recorded_key_token(debug_name: &str) -> (r: String)
    ensures
        r@ == recorded_token(lowercase_of(debug_name@)),
        all_ascii(debug_name@) ==> r@ == recorded_token(ascii_lowercase(debug_name@)),
{
    let lower = to_lowercase(debug_name);
    recorded_token_of_lowercase(lower.as_str())
}

/// `parts` joined with `sep` between neighbours.
pub open spec fn join_with(parts: Seq<Seq<char>>, sep: char) -> Seq<char>
    decreases parts.len(),
{
    if parts.len() == 0 {
        Seq::empty()
    } else if parts.len() == 1 {
        parts[0]
    } else {
        join_with(parts.drop_last(), sep).push(sep) + parts.last()
    }
}

/// The names of the modifiers held, in the order ctrl, shift, alt, win.
pub open spec fn held_modifiers(ctrl: bool, shift: bool, alt: bool, win: bool) -> Seq<Seq<char>> {
    (if ctrl { seq!["ctrl"@] } else { Seq::empty() }) + (if shift { seq!["shift"@] } else { Seq::empty() })
        + (if alt { seq!["alt"@] } else { Seq::empty() }) + (if win { seq!["win"@] } else { Seq::empty() })
}

fn push_part(out: &mut String, parts: Ghost<Seq<Seq<char>>>, count: usize, part: &str) -> (new_parts: Ghost<Seq<Seq<char>>>)
    requires
        old(out)@ == join_with(parts@, '+'),
        count == parts@.len(),
    ensures
        new_parts@ == parts@.push(part@),
        final(out)@ == join_with(new_parts@, '+'),
{
    let ghost np = parts@.push(part@);
    proof {
        assert(np.drop_last() =~= parts@);
    }
    if count > 0 {
        push_char(out, '+');
        out.append(part);
    } else {
        out.append(part);
        proof {
            assert(old(out)@ =~= Seq::<char>::empty());
        }
    }
    Ghost(np)
}

/// What a recording stores when `key_token` is pressed with the given
/// modifiers held: the cancel token when the key is Escape (whatever is held),
/// else the held modifiers, then the key, joined with `+`.
pub open spec fn recorded_combination(ctrl: bool, shift: bool, alt: bool, win: bool, key_token: Seq<char>) -> Seq<char> {
    if key_token == CANCEL_TOKEN@ {
        CANCEL_TOKEN@
    } else {
        join_with(held_modifiers(ctrl, shift, alt, win).push(key_token), '+')
    }
}

/// The key combination recorded when `key_token` is pressed with the given modifiers held.
pub fn recording_macro(ctrl: bool, shift: bool, alt: bool, win: bool, key_token: &str) -> (r: String)
    ensures
        r@ == recorded_combination(ctrl, shift, alt, win, key_token@),
{
    if str_eq(key_token, CANCEL_TOKEN) {
        return String::from_str(CANCEL_TOKEN);
    }
    let mut out = String::new();
    let mut parts: Ghost<Seq<Seq<char>>> = Ghost(Seq::empty());
    let mut count: usize = 0;
    assert(out@ =~= join_with(parts@, '+'));
    if ctrl {
        parts = push_part(&mut out, parts, count, "ctrl");
        count = count + 1;
    }
    if shift {
        parts = push_part(&mut out, parts, count, "shift");
        count = count + 1;
    }
    if alt {
        parts = push_part(&mut out, parts, count, "alt");
        count = count + 1;
    }
    if win {
        parts = push_part(&mut out, parts, count, "win");
        count = count + 1;
    }
    assert(parts@ =~= held_modifiers(ctrl, shift, alt, win));
    parts = push_part(&mut out, parts, count, key_token);
    out
}

/// Whether Windows treats the virtual-key code `vk` as an extended key.
pub open spec fn is_extended_key(vk: u16) -> bool {
    ||| vk == 0x6F
    ||| (0x21 <= vk && vk <= 0x28)
    ||| vk == 0x2D
    ||| vk == 0x2E
    ||| vk == 0xA3
    ||| (0xA5 <= vk && vk <= 0xB7)
}

/// The flags of the keyboard event synthesized for `vk`: the extended-key
/// flag (1) for an extended key, plus the key-up flag (2) for a release.
pub fn key_event_flags(vk: u16, key_up: bool) -> (flags: u32)
    ensures
        flags == (if is_extended_key(vk) { 1u32 } else { 0u32 }) + (if key_up { 2u32 } else { 0u32 }),
{
    let ext: u32 = if vk == 0x6F || (0x21 <= vk && vk <= 0x28) || vk == 0x2D || vk == 0x2E || vk
        == 0xA3 || (0xA5 <= vk && vk <= 0xB7) {
        1
    } else {
        0
    };
    let up: u32 = if key_up {
        2
    } else {
        0
    };
    ext + up
}


/// The modifier, navigation and editing keys by name: Ctrl 0x11, Shift 0x10,
/// Alt 0x12, Windows 0x5B, Space, Enter, Escape, Tab, Backspace, Caps Lock,
/// Insert, Delete, Home, End, Page Up/Down and the arrows.
pub proof fn lemma_control_key_codes()
    ensures
        key_code("ctrl"@) == Some(0x11u16),
        key_code("shift"@) == Some(0x10u16),
        key_code("alt"@) == Some(0x12u16),
        key_code("win"@) == Some(0x5Bu16),
        key_code("command"@) == Some(0x5Bu16),
        key_code("meta"@) == Some(0x5Bu16),
        key_code("space"@) == Some(0x20u16),
        key_code("enter"@) == Some(0x0Du16),
        key_code("escape"@) == Some(0x1Bu16),
        key_code("tab"@) == Some(0x09u16),
        key_code("backspace"@) == Some(0x08u16),
        key_code("caps"@) == Some(0x14u16),
        key_code("insert"@) == Some(0x2Du16),
        key_code("delete"@) == Some(0x2Eu16),
        key_code("home"@) == Some(0x24u16),
        key_code("end"@) == Some(0x23u16),
        key_code("pgup"@) == Some(0x21u16),
        key_code("pgdown"@) == Some(0x22u16),
        key_code("arrowup"@) == Some(0x26u16),
        key_code("arrowdown"@) == Some(0x28u16),
        key_code("arrowleft"@) == Some(0x25u16),
        key_code("arrowright"@) == Some(0x27u16),
{
    reveal_strlit("ctrl");
    reveal_strlit("shift");
    reveal_strlit("alt");
    reveal_strlit("win");
    reveal_strlit("command");
    reveal_strlit("meta");
    reveal_strlit("space");
    reveal_strlit("enter");
    reveal_strlit("escape");
    reveal_strlit("tab");
    reveal_strlit("backspace");
    reveal_strlit("caps");
    reveal_strlit("insert");
    reveal_strlit("delete");
    reveal_strlit("home");
    reveal_strlit("end");
    reveal_strlit("pgup");
    reveal_strlit("pgdown");
    reveal_strlit("arrowup");
    reveal_strlit("arrowdown");
    reveal_strlit("arrowleft");
    reveal_strlit("arrowright");
    assert("ctrl"@.len() == 4);
    assert("shift"@.len() == 5);
    assert("alt"@.len() == 3);
    assert("win"@.len() == 3);
    assert("command"@.len() == 7);
    assert("meta"@.len() == 4);
    assert("space"@.len() == 5);
    assert("enter"@.len() == 5);
    assert("escape"@.len() == 6);
    assert("tab"@.len() == 3);
    assert("backspace"@.len() == 9);
    assert("caps"@.len() == 4);
    assert("insert"@.len() == 6);
    assert("delete"@.len() == 6);
    assert("home"@.len() == 4);
    assert("end"@.len() == 3);
    assert("pgup"@.len() == 4);
    assert("pgdown"@.len() == 6);
    assert("arrowup"@.len() == 7);
    assert("arrowdown"@.len() == 9);
    assert("arrowleft"@.len() == 9);
    assert("arrowright"@.len() == 10);
    assert("win"@[0] != "alt"@[0]);
    assert("meta"@[0] != "ctrl"@[0]);
    assert("space"@[1] != "shift"@[1]);
    assert("enter"@[0] != "shift"@[0]);
    assert("enter"@[0] != "space"@[0]);
    assert("tab"@[0] != "alt"@[0]);
    assert("tab"@[0] != "win"@[0]);
    assert("caps"@[1] != "ctrl"@[1]);
    assert("caps"@[0] != "meta"@[0]);
    assert("insert"@[0] != "escape"@[0]);
    assert("delete"@[0] != "escape"@[0]);
    assert("delete"@[0] != "insert"@[0]);
    assert("home"@[0] != "ctrl"@[0]);
    assert("home"@[0] != "meta"@[0]);
    assert("home"@[0] != "caps"@[0]);
    assert("end"@[0] != "alt"@[0]);
    assert("end"@[0] != "win"@[0]);
    assert("end"@[0] != "tab"@[0]);
    assert("pgup"@[0] != "ctrl"@[0]);
    assert("pgup"@[0] != "meta"@[0]);
    assert("pgup"@[0] != "caps"@[0]);
    assert("pgup"@[0] != "home"@[0]);
    assert("pgdown"@[0] != "escape"@[0]);
    assert("pgdown"@[0] != "insert"@[0]);
    assert("pgdown"@[0] != "delete"@[0]);
    assert("arrowup"@[0] != "command"@[0]);
    assert("arrowdown"@[0] != "backspace"@[0]);
    assert("arrowleft"@[0] != "backspace"@[0]);
    assert("arrowleft"@[5] != "arrowdown"@[5]);
}

/// Every OEM symbol key, by its unshifted character, its shifted character or its name.
pub proof fn lemma_symbol_key_codes()
    ensures
        key_code(";"@) == Some(0xBAu16),
        key_code("semicolon"@) == Some(0xBAu16),
        key_code(":"@) == Some(0xBAu16),
        key_code("/"@) == Some(0xBFu16),
        key_code("slash"@) == Some(0xBFu16),
        key_code("?"@) == Some(0xBFu16),
        key_code("`"@) == Some(0xC0u16),
        key_code("backtick"@) == Some(0xC0u16),
        key_code("~"@) == Some(0xC0u16),
        key_code("["@) == Some(0xDBu16),
        key_code("lbracket"@) == Some(0xDBu16),
        key_code("{"@) == Some(0xDBu16),
        key_code("\\"@) == Some(0xDCu16),
        key_code("backslash"@) == Some(0xDCu16),
        key_code("|"@) == Some(0xDCu16),
        key_code("]"@) == Some(0xDDu16),
        key_code("rbracket"@) == Some(0xDDu16),
        key_code("}"@) == Some(0xDDu16),
        key_code("'"@) == Some(0xDEu16),
        key_code("quote"@) == Some(0xDEu16),
        key_code("\""@) == Some(0xDEu16),
        key_code(","@) == Some(0xBCu16),
        key_code("comma"@) == Some(0xBCu16),
        key_code("<"@) == Some(0xBCu16),
        key_code("."@) == Some(0xBEu16),
        key_code("period"@) == Some(0xBEu16),
        key_code(">"@) == Some(0xBEu16),
        key_code("-"@) == Some(0xBDu16),
        key_code("minus"@) == Some(0xBDu16),
        key_code("_"@) == Some(0xBDu16),
        key_code("="@) == Some(0xBBu16),
        key_code("+"@) == Some(0xBBu16),
        key_code("plus"@) == Some(0xBBu16),
{
    reveal_strlit("ctrl");
    reveal_strlit("shift");
    reveal_strlit("alt");
    reveal_strlit("win");
    reveal_strlit("command");
    reveal_strlit("meta");
    reveal_strlit("space");
    reveal_strlit("enter");
    reveal_strlit("escape");
    reveal_strlit("tab");
    reveal_strlit("backspace");
    reveal_strlit("caps");
    reveal_strlit("insert");
    reveal_strlit("delete");
    reveal_strlit("home");
    reveal_strlit("end");
    reveal_strlit("pgup");
    reveal_strlit("pgdown");
    reveal_strlit("arrowup");
    reveal_strlit("arrowdown");
    reveal_strlit("arrowleft");
    reveal_strlit("arrowright");
    reveal_strlit(";");
    reveal_strlit("semicolon");
    reveal_strlit(":");
    reveal_strlit("/");
    reveal_strlit("slash");
    reveal_strlit("?");
    reveal_strlit("`");
    reveal_strlit("backtick");
    reveal_strlit("~");
    reveal_strlit("[");
    reveal_strlit("lbracket");
    reveal_strlit("{");
    reveal_strlit("\\");
    reveal_strlit("backslash");
    reveal_strlit("|");
    reveal_strlit("]");
    reveal_strlit("rbracket");
    reveal_strlit("}");
    reveal_strlit("'");
    reveal_strlit("quote");
    reveal_strlit("\"");
    reveal_strlit(",");
    reveal_strlit("comma");
    reveal_strlit("<");
    reveal_strlit(".");
    reveal_strlit("period");
    reveal_strlit(">");
    reveal_strlit("-");
    reveal_strlit("minus");
    reveal_strlit("_");
    reveal_strlit("=");
    reveal_strlit("+");
    reveal_strlit("plus");
    assert("ctrl"@.len() == 4);
    assert("shift"@.len() == 5);
    assert("alt"@.len() == 3);
    assert("win"@.len() == 3);
    assert("command"@.len() == 7);
    assert("meta"@.len() == 4);
    assert("space"@.len() == 5);
    assert("enter"@.len() == 5);
    assert("escape"@.len() == 6);
    assert("tab"@.len() == 3);
    assert("backspace"@.len() == 9);
    assert("caps"@.len() == 4);
    assert("insert"@.len() == 6);
    assert("delete"@.len() == 6);
    assert("home"@.len() == 4);
    assert("end"@.len() == 3);
    assert("pgup"@.len() == 4);
    assert("pgdown"@.len() == 6);
    assert("arrowup"@.len() == 7);
    assert("arrowdown"@.len() == 9);
    assert("arrowleft"@.len() == 9);
    assert("arrowright"@.len() == 10);
    assert(";"@.len() == 1);
    assert("semicolon"@.len() == 9);
    assert(":"@.len() == 1);
    assert("/"@.len() == 1);
    assert("slash"@.len() == 5);
    assert("?"@.len() == 1);
    assert("`"@.len() == 1);
    assert("backtick"@.len() == 8);
    assert("~"@.len() == 1);
    assert("["@.len() == 1);
    assert("lbracket"@.len() == 8);
    assert("{"@.len() == 1);
    assert("\\"@.len() == 1);
    assert("backslash"@.len() == 9);
    assert("|"@.len() == 1);
    assert("]"@.len() == 1);
    assert("rbracket"@.len() == 8);
    assert("}"@.len() == 1);
    assert("'"@.len() == 1);
    assert("quote"@.len() == 5);
    assert("\""@.len() == 1);
    assert(","@.len() == 1);
    assert("comma"@.len() == 5);
    assert("<"@.len() == 1);
    assert("."@.len() == 1);
    assert("period"@.len() == 6);
    assert(">"@.len() == 1);
    assert("-"@.len() == 1);
    assert("minus"@.len() == 5);
    assert("_"@.len() == 1);
    assert("="@.len() == 1);
    assert("+"@.len() == 1);
    assert("plus"@.len() == 4);
    assert("semicolon"@[0] != "backspace"@[0]);
    assert("semicolon"@[0] != "arrowdown"@[0]);
    assert("semicolon"@[0] != "arrowleft"@[0]);
    assert(":"@[0] != ";"@[0]);
    assert("/"@[0] != ";"@[0]);
    assert("/"@[0] != ":"@[0]);
    assert("slash"@[1] != "shift"@[1]);
    assert("slash"@[1] != "space"@[1]);
    assert("slash"@[0] != "enter"@[0]);
    assert("?"@[0] != ";"@[0]);
    assert("?"@[0] != ":"@[0]);
    assert("?"@[0] != "/"@[0]);
    assert("`"@[0] != ";"@[0]);
    assert("`"@[0] != ":"@[0]);
    assert("`"@[0] != "/"@[0]);
    assert("`"@[0] != "?"@[0]);
    assert("~"@[0] != ";"@[0]);
    assert("~"@[0] != ":"@[0]);
    assert("~"@[0] != "/"@[0]);
    assert("~"@[0] != "?"@[0]);
    assert("~"@[0] != "`"@[0]);
    assert("["@[0] != ";"@[0]);
    assert("["@[0] != ":"@[0]);
    assert("["@[0] != "/"@[0]);
    assert("["@[0] != "?"@[0]);
    assert("["@[0] != "`"@[0]);
    assert("["@[0] != "~"@[0]);
    assert("lbracket"@[0] != "backtick"@[0]);
    assert("{"@[0] != ";"@[0]);
    assert("{"@[0] != ":"@[0]);
    assert("{"@[0] != "/"@[0]);
    assert("{"@[0] != "?"@[0]);
    assert("{"@[0] != "`"@[0]);
    assert("{"@[0] != "~"@[0]);
    assert("{"@[0] != "["@[0]);
    assert("\\"@[0] != ";"@[0]);
    assert("\\"@[0] != ":"@[0]);
    assert("\\"@[0] != "/"@[0]);
    assert("\\"@[0] != "?"@[0]);
    assert("\\"@[0] != "`"@[0]);
    assert("\\"@[0] != "~"@[0]);
    assert("\\"@[0] != "["@[0]);
    assert("\\"@[0] != "{"@[0]);
    assert("backslash"@[5] != "backspace"@[5]);
    assert("backslash"@[0] != "arrowdown"@[0]);
    assert("backslash"@[0] != "arrowleft"@[0]);
    assert("backslash"@[0] != "semicolon"@[0]);
    assert("|"@[0] != ";"@[0]);
    assert("|"@[0] != ":"@[0]);
    assert("|"@[0] != "/"@[0]);
    assert("|"@[0] != "?"@[0]);
    assert("|"@[0] != "`"@[0]);
    assert("|"@[0] != "~"@[0]);
    assert("|"@[0] != "["@[0]);
    assert("|"@[0] != "{"@[0]);
    assert("|"@[0] != "\\"@[0]);
    assert("]"@[0] != ";"@[0]);
    assert("]"@[0] != ":"@[0]);
    assert("]"@[0] != "/"@[0]);
    assert("]"@[0] != "?"@[0]);
    assert("]"@[0] != "`"@[0]);
    assert("]"@[0] != "~"@[0]);
    assert("]"@[0] != "["@[0]);
    assert("]"@[0] != "{"@[0]);
    assert("]"@[0] != "\\"@[0]);
    assert("]"@[0] != "|"@[0]);
    assert("rbracket"@[0] != "backtick"@[0]);
    assert("rbracket"@[0] != "lbracket"@[0]);
    assert("}"@[0] != ";"@[0]);
    assert("}"@[0] != ":"@[0]);
    assert("}"@[0] != "/"@[0]);
    assert("}"@[0] != "?"@[0]);
    assert("}"@[0] != "`"@[0]);
    assert("}"@[0] != "~"@[0]);
    assert("}"@[0] != "["@[0]);
    assert("}"@[0] != "{"@[0]);
    assert("}"@[0] != "\\"@[0]);
    assert("}"@[0] != "|"@[0]);
    assert("}"@[0] != "]"@[0]);
    assert("'"@[0] != ";"@[0]);
    assert("'"@[0] != ":"@[0]);
    assert("'"@[0] != "/"@[0]);
    assert("'"@[0] != "?"@[0]);
    assert("'"@[0] != "`"@[0]);
    assert("'"@[0] != "~"@[0]);
    assert("'"@[0] != "["@[0]);
    assert("'"@[0] != "{"@[0]);
    assert("'"@[0] != "\\"@[0]);
    assert("'"@[0] != "|"@[0]);
    assert("'"@[0] != "]"@[0]);
    assert("'"@[0] != "}"@[0]);
    assert("quote"@[0] != "shift"@[0]);
    assert("quote"@[0] != "space"@[0]);
    assert("quote"@[0] != "enter"@[0]);
    assert("quote"@[0] != "slash"@[0]);
    assert("\""@[0] != ";"@[0]);
    assert("\""@[0] != ":"@[0]);
    assert("\""@[0] != "/"@[0]);
    assert("\""@[0] != "?"@[0]);
    assert("\""@[0] != "`"@[0]);
    assert("\""@[0] != "~"@[0]);
    assert("\""@[0] != "["@[0]);
    assert("\""@[0] != "{"@[0]);
    assert("\""@[0] != "\\"@[0]);
    assert("\""@[0] != "|"@[0]);
    assert("\""@[0] != "]"@[0]);
    assert("\""@[0] != "}"@[0]);
    assert("\""@[0] != "'"@[0]);
    assert(","@[0] != ";"@[0]);
    assert(","@[0] != ":"@[0]);
    assert(","@[0] != "/"@[0]);
    assert(","@[0] != "?"@[0]);
    assert(","@[0] != "`"@[0]);
    assert(","@[0] != "~"@[0]);
    assert(","@[0] != "["@[0]);
    assert(","@[0] != "{"@[0]);
    assert(","@[0] != "\\"@[0]);
    assert(","@[0] != "|"@[0]);
    assert(","@[0] != "]"@[0]);
    assert(","@[0] != "}"@[0]);
    assert(","@[0] != "'"@[0]);
    assert(","@[0] != "\""@[0]);
    assert("comma"@[0] != "shift"@[0]);
    assert("comma"@[0] != "space"@[0]);
    assert("comma"@[0] != "enter"@[0]);
    assert("comma"@[0] != "slash"@[0]);
    assert("comma"@[0] != "quote"@[0]);
    assert("<"@[0] != ";"@[0]);
    assert("<"@[0] != ":"@[0]);
    assert("<"@[0] != "/"@[0]);
    assert("<"@[0] != "?"@[0]);
    assert("<"@[0] != "`"@[0]);
    assert("<"@[0] != "~"@[0]);
    assert("<"@[0] != "["@[0]);
    assert("<"@[0] != "{"@[0]);
    assert("<"@[0] != "\\"@[0]);
    assert("<"@[0] != "|"@[0]);
    assert("<"@[0] != "]"@[0]);
    assert("<"@[0] != "}"@[0]);
    assert("<"@[0] != "'"@[0]);
    assert("<"@[0] != "\""@[0]);
    assert("<"@[0] != ","@[0]);
    assert("."@[0] != ";"@[0]);
    assert("."@[0] != ":"@[0]);
    assert("."@[0] != "/"@[0]);
    assert("."@[0] != "?"@[0]);
    assert("."@[0] != "`"@[0]);
    assert("."@[0] != "~"@[0]);
    assert("."@[0] != "["@[0]);
    assert("."@[0] != "{"@[0]);
    assert("."@[0] != "\\"@[0]);
    assert("."@[0] != "|"@[0]);
    assert("."@[0] != "]"@[0]);
    assert("."@[0] != "}"@[0]);
    assert("."@[0] != "'"@[0]);
    assert("."@[0] != "\""@[0]);
    assert("."@[0] != ","@[0]);
    assert("."@[0] != "<"@[0]);
    assert("period"@[0] != "escape"@[0]);
    assert("period"@[0] != "insert"@[0]);
    assert("period"@[0] != "delete"@[0]);
    assert("period"@[1] != "pgdown"@[1]);
    assert(">"@[0] != ";"@[0]);
    assert(">"@[0] != ":"@[0]);
    assert(">"@[0] != "/"@[0]);
    assert(">"@[0] != "?"@[0]);
    assert(">"@[0] != "`"@[0]);
    assert(">"@[0] != "~"@[0]);
    assert(">"@[0] != "["@[0]);
    assert(">"@[0] != "{"@[0]);
    assert(">"@[0] != "\\"@[0]);
    assert(">"@[0] != "|"@[0]);
    assert(">"@[0] != "]"@[0]);
    assert(">"@[0] != "}"@[0]);
    assert(">"@[0] != "'"@[0]);
    assert(">"@[0] != "\""@[0]);
    assert(">"@[0] != ","@[0]);
    assert(">"@[0] != "<"@[0]);
    assert(">"@[0] != "."@[0]);
    assert("-"@[0] != ";"@[0]);
    assert("-"@[0] != ":"@[0]);
    assert("-"@[0] != "/"@[0]);
    assert("-"@[0] != "?"@[0]);
    assert("-"@[0] != "`"@[0]);
    assert("-"@[0] != "~"@[0]);
    assert("-"@[0] != "["@[0]);
    assert("-"@[0] != "{"@[0]);
    assert("-"@[0] != "\\"@[0]);
    assert("-"@[0] != "|"@[0]);
    assert("-"@[0] != "]"@[0]);
    assert("-"@[0] != "}"@[0]);
    assert("-"@[0] != "'"@[0]);
    assert("-"@[0] != "\""@[0]);
    assert("-"@[0] != ","@[0]);
    assert("-"@[0] != "<"@[0]);
    assert("-"@[0] != "."@[0]);
    assert("-"@[0] != ">"@[0]);
    assert("minus"@[0] != "shift"@[0]);
    assert("minus"@[0] != "space"@[0]);
    assert("minus"@[0] != "enter"@[0]);
    assert("minus"@[0] != "slash"@[0]);
    assert("minus"@[0] != "quote"@[0]);
    assert("minus"@[0] != "comma"@[0]);
    assert("_"@[0] != ";"@[0]);
    assert("_"@[0] != ":"@[0]);
    assert("_"@[0] != "/"@[0]);
    assert("_"@[0] != "?"@[0]);
    assert("_"@[0] != "`"@[0]);
    assert("_"@[0] != "~"@[0]);
    assert("_"@[0] != "["@[0]);
    assert("_"@[0] != "{"@[0]);
    assert("_"@[0] != "\\"@[0]);
    assert("_"@[0] != "|"@[0]);
    assert("_"@[0] != "]"@[0]);
    assert("_"@[0] != "}"@[0]);
    assert("_"@[0] != "'"@[0]);
    assert("_"@[0] != "\""@[0]);
    assert("_"@[0] != ","@[0]);
    assert("_"@[0] != "<"@[0]);
    assert("_"@[0] != "."@[0]);
    assert("_"@[0] != ">"@[0]);
    assert("_"@[0] != "-"@[0]);
    assert("="@[0] != ";"@[0]);
    assert("="@[0] != ":"@[0]);
    assert("="@[0] != "/"@[0]);
    assert("="@[0] != "?"@[0]);
    assert("="@[0] != "`"@[0]);
    assert("="@[0] != "~"@[0]);
    assert("="@[0] != "["@[0]);
    assert("="@[0] != "{"@[0]);
    assert("="@[0] != "\\"@[0]);
    assert("="@[0] != "|"@[0]);
    assert("="@[0] != "]"@[0]);
    assert("="@[0] != "}"@[0]);
    assert("="@[0] != "'"@[0]);
    assert("="@[0] != "\""@[0]);
    assert("="@[0] != ","@[0]);
    assert("="@[0] != "<"@[0]);
    assert("="@[0] != "."@[0]);
    assert("="@[0] != ">"@[0]);
    assert("="@[0] != "-"@[0]);
    assert("="@[0] != "_"@[0]);
    assert("+"@[0] != ";"@[0]);
    assert("+"@[0] != ":"@[0]);
    assert("+"@[0] != "/"@[0]);
    assert("+"@[0] != "?"@[0]);
    assert("+"@[0] != "`"@[0]);
    assert("+"@[0] != "~"@[0]);
    assert("+"@[0] != "["@[0]);
    assert("+"@[0] != "{"@[0]);
    assert("+"@[0] != "\\"@[0]);
    assert("+"@[0] != "|"@[0]);
    assert("+"@[0] != "]"@[0]);
    assert("+"@[0] != "}"@[0]);
    assert("+"@[0] != "'"@[0]);
    assert("+"@[0] != "\""@[0]);
    assert("+"@[0] != ","@[0]);
    assert("+"@[0] != "<"@[0]);
    assert("+"@[0] != "."@[0]);
    assert("+"@[0] != ">"@[0]);
    assert("+"@[0] != "-"@[0]);
    assert("+"@[0] != "_"@[0]);
    assert("+"@[0] != "="@[0]);
    assert("plus"@[0] != "ctrl"@[0]);
    assert("plus"@[0] != "meta"@[0]);
    assert("plus"@[0] != "caps"@[0]);
    assert("plus"@[0] != "home"@[0]);
    assert("plus"@[1] != "pgup"@[1]);
}

/// A shifted digit symbol stands for its digit key (`!` is the 1 key, `)` the 0 key).
pub proof fn lemma_shifted_digit_key_codes()
    ensures
        key_code("!"@) == Some(0x31u16),
        key_code("exclaim"@) == Some(0x31u16),
        key_code("@"@) == Some(0x32u16),
        key_code("at"@) == Some(0x32u16),
        key_code("#"@) == Some(0x33u16),
        key_code("hash"@) == Some(0x33u16),
        key_code("pound"@) == Some(0x33u16),
        key_code("$"@) == Some(0x34u16),
        key_code("dollar"@) == Some(0x34u16),
        key_code("%"@) == Some(0x35u16),
        key_code("percent"@) == Some(0x35u16),
        key_code("^"@) == Some(0x36u16),
        key_code("caret"@) == Some(0x36u16),
        key_code("&"@) == Some(0x37u16),
        key_code("ampersand"@) == Some(0x37u16),
        key_code("*"@) == Some(0x38u16),
        key_code("asterisk"@) == Some(0x38u16),
        key_code("("@) == Some(0x39u16),
        key_code(")"@) == Some(0x30u16),
{
    reveal_strlit("ctrl");
    reveal_strlit("shift");
    reveal_strlit("alt");
    reveal_strlit("win");
    reveal_strlit("command");
    reveal_strlit("meta");
    reveal_strlit("space");
    reveal_strlit("enter");
    reveal_strlit("escape");
    reveal_strlit("tab");
    reveal_strlit("backspace");
    reveal_strlit("caps");
    reveal_strlit("insert");
    reveal_strlit("delete");
    reveal_strlit("home");
    reveal_strlit("end");
    reveal_strlit("pgup");
    reveal_strlit("pgdown");
    reveal_strlit("arrowup");
    reveal_strlit("arrowdown");
    reveal_strlit("arrowleft");
    reveal_strlit("arrowright");
    reveal_strlit(";");
    reveal_strlit("semicolon");
    reveal_strlit(":");
    reveal_strlit("/");
    reveal_strlit("slash");
    reveal_strlit("?");
    reveal_strlit("`");
    reveal_strlit("backtick");
    reveal_strlit("~");
    reveal_strlit("[");
    reveal_strlit("lbracket");
    reveal_strlit("{");
    reveal_strlit("\\");
    reveal_strlit("backslash");
    reveal_strlit("|");
    reveal_strlit("]");
    reveal_strlit("rbracket");
    reveal_strlit("}");
    reveal_strlit("'");
    reveal_strlit("quote");
    reveal_strlit("\"");
    reveal_strlit(",");
    reveal_strlit("comma");
    reveal_strlit("<");
    reveal_strlit(".");
    reveal_strlit("period");
    reveal_strlit(">");
    reveal_strlit("-");
    reveal_strlit("minus");
    reveal_strlit("_");
    reveal_strlit("=");
    reveal_strlit("+");
    reveal_strlit("plus");
    reveal_strlit("!");
    reveal_strlit("exclaim");
    reveal_strlit("@");
    reveal_strlit("at");
    reveal_strlit("#");
    reveal_strlit("hash");
    reveal_strlit("pound");
    reveal_strlit("$");
    reveal_strlit("dollar");
    reveal_strlit("%");
    reveal_strlit("percent");
    reveal_strlit("^");
    reveal_strlit("caret");
    reveal_strlit("&");
    reveal_strlit("ampersand");
    reveal_strlit("*");
    reveal_strlit("asterisk");
    reveal_strlit("(");
    reveal_strlit(")");
    assert("ctrl"@.len() == 4);
    assert("shift"@.len() == 5);
    assert("alt"@.len() == 3);
    assert("win"@.len() == 3);
    assert("command"@.len() == 7);
    assert("meta"@.len() == 4);
    assert("space"@.len() == 5);
    assert("enter"@.len() == 5);
    assert("escape"@.len() == 6);
    assert("tab"@.len() == 3);
    assert("backspace"@.len() == 9);
    assert("caps"@.len() == 4);
    assert("insert"@.len() == 6);
    assert("delete"@.len() == 6);
    assert("home"@.len() == 4);
    assert("end"@.len() == 3);
    assert("pgup"@.len() == 4);
    assert("pgdown"@.len() == 6);
    assert("arrowup"@.len() == 7);
    assert("arrowdown"@.len() == 9);
    assert("arrowleft"@.len() == 9);
    assert("arrowright"@.len() == 10);
    assert(";"@.len() == 1);
    assert("semicolon"@.len() == 9);
    assert(":"@.len() == 1);
    assert("/"@.len() == 1);
    assert("slash"@.len() == 5);
    assert("?"@.len() == 1);
    assert("`"@.len() == 1);
    assert("backtick"@.len() == 8);
    assert("~"@.len() == 1);
    assert("["@.len() == 1);
    assert("lbracket"@.len() == 8);
    assert("{"@.len() == 1);
    assert("\\"@.len() == 1);
    assert("backslash"@.len() == 9);
    assert("|"@.len() == 1);
    assert("]"@.len() == 1);
    assert("rbracket"@.len() == 8);
    assert("}"@.len() == 1);
    assert("'"@.len() == 1);
    assert("quote"@.len() == 5);
    assert("\""@.len() == 1);
    assert(","@.len() == 1);
    assert("comma"@.len() == 5);
    assert("<"@.len() == 1);
    assert("."@.len() == 1);
    assert("period"@.len() == 6);
    assert(">"@.len() == 1);
    assert("-"@.len() == 1);
    assert("minus"@.len() == 5);
    assert("_"@.len() == 1);
    assert("="@.len() == 1);
    assert("+"@.len() == 1);
    assert("plus"@.len() == 4);
    assert("!"@.len() == 1);
    assert("exclaim"@.len() == 7);
    assert("@"@.len() == 1);
    assert("at"@.len() == 2);
    assert("#"@.len() == 1);
    assert("hash"@.len() == 4);
    assert("pound"@.len() == 5);
    assert("$"@.len() == 1);
    assert("dollar"@.len() == 6);
    assert("%"@.len() == 1);
    assert("percent"@.len() == 7);
    assert("^"@.len() == 1);
    assert("caret"@.len() == 5);
    assert("&"@.len() == 1);
    assert("ampersand"@.len() == 9);
    assert("*"@.len() == 1);
    assert("asterisk"@.len() == 8);
    assert("("@.len() == 1);
    assert(")"@.len() == 1);
    assert("!"@[0] != ";"@[0]);
    assert("!"@[0] != ":"@[0]);
    assert("!"@[0] != "/"@[0]);
    assert("!"@[0] != "?"@[0]);
    assert("!"@[0] != "`"@[0]);
    assert("!"@[0] != "~"@[0]);
    assert("!"@[0] != "["@[0]);
    assert("!"@[0] != "{"@[0]);
    assert("!"@[0] != "\\"@[0]);
    assert("!"@[0] != "|"@[0]);
    assert("!"@[0] != "]"@[0]);
    assert("!"@[0] != "}"@[0]);
    assert("!"@[0] != "'"@[0]);
    assert("!"@[0] != "\""@[0]);
    assert("!"@[0] != ","@[0]);
    assert("!"@[0] != "<"@[0]);
    assert("!"@[0] != "."@[0]);
    assert("!"@[0] != ">"@[0]);
    assert("!"@[0] != "-"@[0]);
    assert("!"@[0] != "_"@[0]);
    assert("!"@[0] != "="@[0]);
    assert("!"@[0] != "+"@[0]);
    assert("exclaim"@[0] != "command"@[0]);
    assert("exclaim"@[0] != "arrowup"@[0]);
    assert("@"@[0] != ";"@[0]);
    assert("@"@[0] != ":"@[0]);
    assert("@"@[0] != "/"@[0]);
    assert("@"@[0] != "?"@[0]);
    assert("@"@[0] != "`"@[0]);
    assert("@"@[0] != "~"@[0]);
    assert("@"@[0] != "["@[0]);
    assert("@"@[0] != "{"@[0]);
    assert("@"@[0] != "\\"@[0]);
    assert("@"@[0] != "|"@[0]);
    assert("@"@[0] != "]"@[0]);
    assert("@"@[0] != "}"@[0]);
    assert("@"@[0] != "'"@[0]);
    assert("@"@[0] != "\""@[0]);
    assert("@"@[0] != ","@[0]);
    assert("@"@[0] != "<"@[0]);
    assert("@"@[0] != "."@[0]);
    assert("@"@[0] != ">"@[0]);
    assert("@"@[0] != "-"@[0]);
    assert("@"@[0] != "_"@[0]);
    assert("@"@[0] != "="@[0]);
    assert("@"@[0] != "+"@[0]);
    assert("@"@[0] != "!"@[0]);
    assert("#"@[0] != ";"@[0]);
    assert("#"@[0] != ":"@[0]);
    assert("#"@[0] != "/"@[0]);
    assert("#"@[0] != "?"@[0]);
    assert("#"@[0] != "`"@[0]);
    assert("#"@[0] != "~"@[0]);
    assert("#"@[0] != "["@[0]);
    assert("#"@[0] != "{"@[0]);
    assert("#"@[0] != "\\"@[0]);
    assert("#"@[0] != "|"@[0]);
    assert("#"@[0] != "]"@[0]);
    assert("#"@[0] != "}"@[0]);
    assert("#"@[0] != "'"@[0]);
    assert("#"@[0] != "\""@[0]);
    assert("#"@[0] != ","@[0]);
    assert("#"@[0] != "<"@[0]);
    assert("#"@[0] != "."@[0]);
    assert("#"@[0] != ">"@[0]);
    assert("#"@[0] != "-"@[0]);
    assert("#"@[0] != "_"@[0]);
    assert("#"@[0] != "="@[0]);
    assert("#"@[0] != "+"@[0]);
    assert("#"@[0] != "!"@[0]);
    assert("#"@[0] != "@"@[0]);
    assert("hash"@[0] != "ctrl"@[0]);
    assert("hash"@[0] != "meta"@[0]);
    assert("hash"@[0] != "caps"@[0]);
    assert("hash"@[1] != "home"@[1]);
    assert("hash"@[0] != "pgup"@[0]);
    assert("hash"@[0] != "plus"@[0]);
    assert("pound"@[0] != "shift"@[0]);
    assert("pound"@[0] != "space"@[0]);
    assert("pound"@[0] != "enter"@[0]);
    assert("pound"@[0] != "slash"@[0]);
    assert("pound"@[0] != "quote"@[0]);
    assert("pound"@[0] != "comma"@[0]);
    assert("pound"@[0] != "minus"@[0]);
    assert("$"@[0] != ";"@[0]);
    assert("$"@[0] != ":"@[0]);
    assert("$"@[0] != "/"@[0]);
    assert("$"@[0] != "?"@[0]);
    assert("$"@[0] != "`"@[0]);
    assert("$"@[0] != "~"@[0]);
    assert("$"@[0] != "["@[0]);
    assert("$"@[0] != "{"@[0]);
    assert("$"@[0] != "\\"@[0]);
    assert("$"@[0] != "|"@[0]);
    assert("$"@[0] != "]"@[0]);
    assert("$"@[0] != "}"@[0]);
    assert("$"@[0] != "'"@[0]);
    assert("$"@[0] != "\""@[0]);
    assert("$"@[0] != ","@[0]);
    assert("$"@[0] != "<"@[0]);
    assert("$"@[0] != "."@[0]);
    assert("$"@[0] != ">"@[0]);
    assert("$"@[0] != "-"@[0]);
    assert("$"@[0] != "_"@[0]);
    assert("$"@[0] != "="@[0]);
    assert("$"@[0] != "+"@[0]);
    assert("$"@[0] != "!"@[0]);
    assert("$"@[0] != "@"@[0]);
    assert("$"@[0] != "#"@[0]);
    assert("dollar"@[0] != "escape"@[0]);
    assert("dollar"@[0] != "insert"@[0]);
    assert("dollar"@[1] != "delete"@[1]);
    assert("dollar"@[0] != "pgdown"@[0]);
    assert("dollar"@[0] != "period"@[0]);
    assert("%"@[0] != ";"@[0]);
    assert("%"@[0] != ":"@[0]);
    assert("%"@[0] != "/"@[0]);
    assert("%"@[0] != "?"@[0]);
    assert("%"@[0] != "`"@[0]);
    assert("%"@[0] != "~"@[0]);
    assert("%"@[0] != "["@[0]);
    assert("%"@[0] != "{"@[0]);
    assert("%"@[0] != "\\"@[0]);
    assert("%"@[0] != "|"@[0]);
    assert("%"@[0] != "]"@[0]);
    assert("%"@[0] != "}"@[0]);
    assert("%"@[0] != "'"@[0]);
    assert("%"@[0] != "\""@[0]);
    assert("%"@[0] != ","@[0]);
    assert("%"@[0] != "<"@[0]);
    assert("%"@[0] != "."@[0]);
    assert("%"@[0] != ">"@[0]);
    assert("%"@[0] != "-"@[0]);
    assert("%"@[0] != "_"@[0]);
    assert("%"@[0] != "="@[0]);
    assert("%"@[0] != "+"@[0]);
    assert("%"@[0] != "!"@[0]);
    assert("%"@[0] != "@"@[0]);
    assert("%"@[0] != "#"@[0]);
    assert("%"@[0] != "$"@[0]);
    assert("percent"@[0] != "command"@[0]);
    assert("percent"@[0] != "arrowup"@[0]);
    assert("percent"@[0] != "exclaim"@[0]);
    assert("^"@[0] != ";"@[0]);
    assert("^"@[0] != ":"@[0]);
    assert("^"@[0] != "/"@[0]);
    assert("^"@[0] != "?"@[0]);
    assert("^"@[0] != "`"@[0]);
    assert("^"@[0] != "~"@[0]);
    assert("^"@[0] != "["@[0]);
    assert("^"@[0] != "{"@[0]);
    assert("^"@[0] != "\\"@[0]);
    assert("^"@[0] != "|"@[0]);
    assert("^"@[0] != "]"@[0]);
    assert("^"@[0] != "}"@[0]);
    assert("^"@[0] != "'"@[0]);
    assert("^"@[0] != "\""@[0]);
    assert("^"@[0] != ","@[0]);
    assert("^"@[0] != "<"@[0]);
    assert("^"@[0] != "."@[0]);
    assert("^"@[0] != ">"@[0]);
    assert("^"@[0] != "-"@[0]);
    assert("^"@[0] != "_"@[0]);
    assert("^"@[0] != "="@[0]);
    assert("^"@[0] != "+"@[0]);
    assert("^"@[0] != "!"@[0]);
    assert("^"@[0] != "@"@[0]);
    assert("^"@[0] != "#"@[0]);
    assert("^"@[0] != "$"@[0]);
    assert("^"@[0] != "%"@[0]);
    assert("caret"@[0] != "shift"@[0]);
    assert("caret"@[0] != "space"@[0]);
    assert("caret"@[0] != "enter"@[0]);
    assert("caret"@[0] != "slash"@[0]);
    assert("caret"@[0] != "quote"@[0]);
    assert("caret"@[1] != "comma"@[1]);
    assert("caret"@[0] != "minus"@[0]);
    assert("caret"@[0] != "pound"@[0]);
    assert("&"@[0] != ";"@[0]);
    assert("&"@[0] != ":"@[0]);
    assert("&"@[0] != "/"@[0]);
    assert("&"@[0] != "?"@[0]);
    assert("&"@[0] != "`"@[0]);
    assert("&"@[0] != "~"@[0]);
    assert("&"@[0] != "["@[0]);
    assert("&"@[0] != "{"@[0]);
    assert("&"@[0] != "\\"@[0]);
    assert("&"@[0] != "|"@[0]);
    assert("&"@[0] != "]"@[0]);
    assert("&"@[0] != "}"@[0]);
    assert("&"@[0] != "'"@[0]);
    assert("&"@[0] != "\""@[0]);
    assert("&"@[0] != ","@[0]);
    assert("&"@[0] != "<"@[0]);
    assert("&"@[0] != "."@[0]);
    assert("&"@[0] != ">"@[0]);
    assert("&"@[0] != "-"@[0]);
    assert("&"@[0] != "_"@[0]);
    assert("&"@[0] != "="@[0]);
    assert("&"@[0] != "+"@[0]);
    assert("&"@[0] != "!"@[0]);
    assert("&"@[0] != "@"@[0]);
    assert("&"@[0] != "#"@[0]);
    assert("&"@[0] != "$"@[0]);
    assert("&"@[0] != "%"@[0]);
    assert("&"@[0] != "^"@[0]);
    assert("ampersand"@[0] != "backspace"@[0]);
    assert("ampersand"@[1] != "arrowdown"@[1]);
    assert("ampersand"@[1] != "arrowleft"@[1]);
    assert("ampersand"@[0] != "semicolon"@[0]);
    assert("ampersand"@[0] != "backslash"@[0]);
    assert("*"@[0] != ";"@[0]);
    assert("*"@[0] != ":"@[0]);
    assert("*"@[0] != "/"@[0]);
    assert("*"@[0] != "?"@[0]);
    assert("*"@[0] != "`"@[0]);
    assert("*"@[0] != "~"@[0]);
    assert("*"@[0] != "["@[0]);
    assert("*"@[0] != "{"@[0]);
    assert("*"@[0] != "\\"@[0]);
    assert("*"@[0] != "|"@[0]);
    assert("*"@[0] != "]"@[0]);
    assert("*"@[0] != "}"@[0]);
    assert("*"@[0] != "'"@[0]);
    assert("*"@[0] != "\""@[0]);
    assert("*"@[0] != ","@[0]);
    assert("*"@[0] != "<"@[0]);
    assert("*"@[0] != "."@[0]);
    assert("*"@[0] != ">"@[0]);
    assert("*"@[0] != "-"@[0]);
    assert("*"@[0] != "_"@[0]);
    assert("*"@[0] != "="@[0]);
    assert("*"@[0] != "+"@[0]);
    assert("*"@[0] != "!"@[0]);
    assert("*"@[0] != "@"@[0]);
    assert("*"@[0] != "#"@[0]);
    assert("*"@[0] != "$"@[0]);
    assert("*"@[0] != "%"@[0]);
    assert("*"@[0] != "^"@[0]);
    assert("*"@[0] != "&"@[0]);
    assert("asterisk"@[0] != "backtick"@[0]);
    assert("asterisk"@[0] != "lbracket"@[0]);
    assert("asterisk"@[0] != "rbracket"@[0]);
    assert("("@[0] != ";"@[0]);
    assert("("@[0] != ":"@[0]);
    assert("("@[0] != "/"@[0]);
    assert("("@[0] != "?"@[0]);
    assert("("@[0] != "`"@[0]);
    assert("("@[0] != "~"@[0]);
    assert("("@[0] != "["@[0]);
    assert("("@[0] != "{"@[0]);
    assert("("@[0] != "\\"@[0]);
    assert("("@[0] != "|"@[0]);
    assert("("@[0] != "]"@[0]);
    assert("("@[0] != "}"@[0]);
    assert("("@[0] != "'"@[0]);
    assert("("@[0] != "\""@[0]);
    assert("("@[0] != ","@[0]);
    assert("("@[0] != "<"@[0]);
    assert("("@[0] != "."@[0]);
    assert("("@[0] != ">"@[0]);
    assert("("@[0] != "-"@[0]);
    assert("("@[0] != "_"@[0]);
    assert("("@[0] != "="@[0]);
    assert("("@[0] != "+"@[0]);
    assert("("@[0] != "!"@[0]);
    assert("("@[0] != "@"@[0]);
    assert("("@[0] != "#"@[0]);
    assert("("@[0] != "$"@[0]);
    assert("("@[0] != "%"@[0]);
    assert("("@[0] != "^"@[0]);
    assert("("@[0] != "&"@[0]);
    assert("("@[0] != "*"@[0]);
    assert(")"@[0] != ";"@[0]);
    assert(")"@[0] != ":"@[0]);
    assert(")"@[0] != "/"@[0]);
    assert(")"@[0] != "?"@[0]);
    assert(")"@[0] != "`"@[0]);
    assert(")"@[0] != "~"@[0]);
    assert(")"@[0] != "["@[0]);
    assert(")"@[0] != "{"@[0]);
    assert(")"@[0] != "\\"@[0]);
    assert(")"@[0] != "|"@[0]);
    assert(")"@[0] != "]"@[0]);
    assert(")"@[0] != "}"@[0]);
    assert(")"@[0] != "'"@[0]);
    assert(")"@[0] != "\""@[0]);
    assert(")"@[0] != ","@[0]);
    assert(")"@[0] != "<"@[0]);
    assert(")"@[0] != "."@[0]);
    assert(")"@[0] != ">"@[0]);
    assert(")"@[0] != "-"@[0]);
    assert(")"@[0] != "_"@[0]);
    assert(")"@[0] != "="@[0]);
    assert(")"@[0] != "+"@[0]);
    assert(")"@[0] != "!"@[0]);
    assert(")"@[0] != "@"@[0]);
    assert(")"@[0] != "#"@[0]);
    assert(")"@[0] != "$"@[0]);
    assert(")"@[0] != "%"@[0]);
    assert(")"@[0] != "^"@[0]);
    assert(")"@[0] != "&"@[0]);
    assert(")"@[0] != "*"@[0]);
    assert(")"@[0] != "("@[0]);
}

/// The browser, volume, media and launcher keys (0xA6 to 0xB7).
pub proof fn lemma_media_key_codes()
    ensures
        key_code("browser_back"@) == Some(0xA6u16),
        key_code("browser_forward"@) == Some(0xA7u16),
        key_code("browser_refresh"@) == Some(0xA8u16),
        key_code("browser_stop"@) == Some(0xA9u16),
        key_code("browser_search"@) == Some(0xAAu16),
        key_code("browser_fav"@) == Some(0xABu16),
        key_code("browser_favorites"@) == Some(0xABu16),
        key_code("browser_home"@) == Some(0xACu16),
        key_code("vol_mute"@) == Some(0xADu16),
        key_code("volume_mute"@) == Some(0xADu16),
        key_code("vol_down"@) == Some(0xAEu16),
        key_code("volume_down"@) == Some(0xAEu16),
        key_code("vol_up"@) == Some(0xAFu16),
        key_code("volume_up"@) == Some(0xAFu16),
        key_code("media_next"@) == Some(0xB0u16),
        key_code("media_next_track"@) == Some(0xB0u16),
        key_code("media_prev"@) == Some(0xB1u16),
        key_code("media_prev_track"@) == Some(0xB1u16),
        key_code("media_stop"@) == Some(0xB2u16),
        key_code("media_play_pause"@) == Some(0xB3u16),
        key_code("launch_mail"@) == Some(0xB4u16),
        key_code("launch_media"@) == Some(0xB5u16),
        key_code("launch_media_select"@) == Some(0xB5u16),
        key_code("launch_pc"@) == Some(0xB6u16),
        key_code("launch_app1"@) == Some(0xB6u16),
        key_code("launch_calc"@) == Some(0xB7u16),
        key_code("launch_app2"@) == Some(0xB7u16),
{
    reveal_strlit("ctrl");
    reveal_strlit("shift");
    reveal_strlit("alt");
    reveal_strlit("win");
    reveal_strlit("command");
    reveal_strlit("meta");
    reveal_strlit("space");
    reveal_strlit("enter");
    reveal_strlit("escape");
    reveal_strlit("tab");
    reveal_strlit("backspace");
    reveal_strlit("caps");
    reveal_strlit("insert");
    reveal_strlit("delete");
    reveal_strlit("home");
    reveal_strlit("end");
    reveal_strlit("pgup");
    reveal_strlit("pgdown");
    reveal_strlit("arrowup");
    reveal_strlit("arrowdown");
    reveal_strlit("arrowleft");
    reveal_strlit("arrowright");
    reveal_strlit(";");
    reveal_strlit("semicolon");
    reveal_strlit(":");
    reveal_strlit("/");
    reveal_strlit("slash");
    reveal_strlit("?");
    reveal_strlit("`");
    reveal_strlit("backtick");
    reveal_strlit("~");
    reveal_strlit("[");
    reveal_strlit("lbracket");
    reveal_strlit("{");
    reveal_strlit("\\");
    reveal_strlit("backslash");
    reveal_strlit("|");
    reveal_strlit("]");
    reveal_strlit("rbracket");
    reveal_strlit("}");
    reveal_strlit("'");
    reveal_strlit("quote");
    reveal_strlit("\"");
    reveal_strlit(",");
    reveal_strlit("comma");
    reveal_strlit("<");
    reveal_strlit(".");
    reveal_strlit("period");
    reveal_strlit(">");
    reveal_strlit("-");
    reveal_strlit("minus");
    reveal_strlit("_");
    reveal_strlit("=");
    reveal_strlit("+");
    reveal_strlit("plus");
    reveal_strlit("!");
    reveal_strlit("exclaim");
    reveal_strlit("@");
    reveal_strlit("at");
    reveal_strlit("#");
    reveal_strlit("hash");
    reveal_strlit("pound");
    reveal_strlit("$");
    reveal_strlit("dollar");
    reveal_strlit("%");
    reveal_strlit("percent");
    reveal_strlit("^");
    reveal_strlit("caret");
    reveal_strlit("&");
    reveal_strlit("ampersand");
    reveal_strlit("*");
    reveal_strlit("asterisk");
    reveal_strlit("(");
    reveal_strlit(")");
    reveal_strlit("browser_back");
    reveal_strlit("browser_forward");
    reveal_strlit("browser_refresh");
    reveal_strlit("browser_stop");
    reveal_strlit("browser_search");
    reveal_strlit("browser_fav");
    reveal_strlit("browser_favorites");
    reveal_strlit("browser_home");
    reveal_strlit("vol_mute");
    reveal_strlit("volume_mute");
    reveal_strlit("vol_down");
    reveal_strlit("volume_down");
    reveal_strlit("vol_up");
    reveal_strlit("volume_up");
    reveal_strlit("media_next");
    reveal_strlit("media_next_track");
    reveal_strlit("media_prev");
    reveal_strlit("media_prev_track");
    reveal_strlit("media_stop");
    reveal_strlit("media_play_pause");
    reveal_strlit("launch_mail");
    reveal_strlit("launch_media");
    reveal_strlit("launch_media_select");
    reveal_strlit("launch_pc");
    reveal_strlit("launch_app1");
    reveal_strlit("launch_calc");
    reveal_strlit("launch_app2");
    assert("ctrl"@.len() == 4);
    assert("shift"@.len() == 5);
    assert("alt"@.len() == 3);
    assert("win"@.len() == 3);
    assert("command"@.len() == 7);
    assert("meta"@.len() == 4);
    assert("space"@.len() == 5);
    assert("enter"@.len() == 5);
    assert("escape"@.len() == 6);
    assert("tab"@.len() == 3);
    assert("backspace"@.len() == 9);
    assert("caps"@.len() == 4);
    assert("insert"@.len() == 6);
    assert("delete"@.len() == 6);
    assert("home"@.len() == 4);
    assert("end"@.len() == 3);
    assert("pgup"@.len() == 4);
    assert("pgdown"@.len() == 6);
    assert("arrowup"@.len() == 7);
    assert("arrowdown"@.len() == 9);
    assert("arrowleft"@.len() == 9);
    assert("arrowright"@.len() == 10);
    assert(";"@.len() == 1);
    assert("semicolon"@.len() == 9);
    assert(":"@.len() == 1);
    assert("/"@.len() == 1);
    assert("slash"@.len() == 5);
    assert("?"@.len() == 1);
    assert("`"@.len() == 1);
    assert("backtick"@.len() == 8);
    assert("~"@.len() == 1);
    assert("["@.len() == 1);
    assert("lbracket"@.len() == 8);
    assert("{"@.len() == 1);
    assert("\\"@.len() == 1);
    assert("backslash"@.len() == 9);
    assert("|"@.len() == 1);
    assert("]"@.len() == 1);
    assert("rbracket"@.len() == 8);
    assert("}"@.len() == 1);
    assert("'"@.len() == 1);
    assert("quote"@.len() == 5);
    assert("\""@.len() == 1);
    assert(","@.len() == 1);
    assert("comma"@.len() == 5);
    assert("<"@.len() == 1);
    assert("."@.len() == 1);
    assert("period"@.len() == 6);
    assert(">"@.len() == 1);
    assert("-"@.len() == 1);
    assert("minus"@.len() == 5);
    assert("_"@.len() == 1);
    assert("="@.len() == 1);
    assert("+"@.len() == 1);
    assert("plus"@.len() == 4);
    assert("!"@.len() == 1);
    assert("exclaim"@.len() == 7);
    assert("@"@.len() == 1);
    assert("at"@.len() == 2);
    assert("#"@.len() == 1);
    assert("hash"@.len() == 4);
    assert("pound"@.len() == 5);
    assert("$"@.len() == 1);
    assert("dollar"@.len() == 6);
    assert("%"@.len() == 1);
    assert("percent"@.len() == 7);
    assert("^"@.len() == 1);
    assert("caret"@.len() == 5);
    assert("&"@.len() == 1);
    assert("ampersand"@.len() == 9);
    assert("*"@.len() == 1);
    assert("asterisk"@.len() == 8);
    assert("("@.len() == 1);
    assert(")"@.len() == 1);
    assert("browser_back"@.len() == 12);
    assert("browser_forward"@.len() == 15);
    assert("browser_refresh"@.len() == 15);
    assert("browser_stop"@.len() == 12);
    assert("browser_search"@.len() == 14);
    assert("browser_fav"@.len() == 11);
    assert("browser_favorites"@.len() == 17);
    assert("browser_home"@.len() == 12);
    assert("vol_mute"@.len() == 8);
    assert("volume_mute"@.len() == 11);
    assert("vol_down"@.len() == 8);
    assert("volume_down"@.len() == 11);
    assert("vol_up"@.len() == 6);
    assert("volume_up"@.len() == 9);
    assert("media_next"@.len() == 10);
    assert("media_next_track"@.len() == 16);
    assert("media_prev"@.len() == 10);
    assert("media_prev_track"@.len() == 16);
    assert("media_stop"@.len() == 10);
    assert("media_play_pause"@.len() == 16);
    assert("launch_mail"@.len() == 11);
    assert("launch_media"@.len() == 12);
    assert("launch_media_select"@.len() == 19);
    assert("launch_pc"@.len() == 9);
    assert("launch_app1"@.len() == 11);
    assert("launch_calc"@.len() == 11);
    assert("launch_app2"@.len() == 11);
    assert("browser_refresh"@[8] != "browser_forward"@[8]);
    assert("browser_stop"@[8] != "browser_back"@[8]);
    assert("browser_home"@[8] != "browser_back"@[8]);
    assert("browser_home"@[8] != "browser_stop"@[8]);
    assert("vol_mute"@[0] != "backtick"@[0]);
    assert("vol_mute"@[0] != "lbracket"@[0]);
    assert("vol_mute"@[0] != "rbracket"@[0]);
    assert("vol_mute"@[0] != "asterisk"@[0]);
    assert("volume_mute"@[0] != "browser_fav"@[0]);
    assert("vol_down"@[0] != "backtick"@[0]);
    assert("vol_down"@[0] != "lbracket"@[0]);
    assert("vol_down"@[0] != "rbracket"@[0]);
    assert("vol_down"@[0] != "asterisk"@[0]);
    assert("vol_down"@[4] != "vol_mute"@[4]);
    assert("volume_down"@[0] != "browser_fav"@[0]);
    assert("volume_down"@[7] != "volume_mute"@[7]);
    assert("vol_up"@[0] != "escape"@[0]);
    assert("vol_up"@[0] != "insert"@[0]);
    assert("vol_up"@[0] != "delete"@[0]);
    assert("vol_up"@[0] != "pgdown"@[0]);
    assert("vol_up"@[0] != "period"@[0]);
    assert("vol_up"@[0] != "dollar"@[0]);
    assert("volume_up"@[0] != "backspace"@[0]);
    assert("volume_up"@[0] != "arrowdown"@[0]);
    assert("volume_up"@[0] != "arrowleft"@[0]);
    assert("volume_up"@[0] != "semicolon"@[0]);
    assert("volume_up"@[0] != "backslash"@[0]);
    assert("volume_up"@[0] != "ampersand"@[0]);
    assert("media_next"@[0] != "arrowright"@[0]);
    assert("media_prev"@[0] != "arrowright"@[0]);
    assert("media_prev"@[6] != "media_next"@[6]);
    assert("media_prev_track"@[6] != "media_next_track"@[6]);
    assert("media_stop"@[0] != "arrowright"@[0]);
    assert("media_stop"@[6] != "media_next"@[6]);
    assert("media_stop"@[6] != "media_prev"@[6]);
    assert("media_play_pause"@[6] != "media_next_track"@[6]);
    assert("media_play_pause"@[7] != "media_prev_track"@[7]);
    assert("launch_mail"@[0] != "browser_fav"@[0]);
    assert("launch_mail"@[0] != "volume_mute"@[0]);
    assert("launch_mail"@[0] != "volume_down"@[0]);
    assert("launch_media"@[0] != "browser_back"@[0]);
    assert("launch_media"@[0] != "browser_stop"@[0]);
    assert("launch_media"@[0] != "browser_home"@[0]);
    assert("launch_pc"@[0] != "backspace"@[0]);
    assert("launch_pc"@[0] != "arrowdown"@[0]);
    assert("launch_pc"@[0] != "arrowleft"@[0]);
    assert("launch_pc"@[0] != "semicolon"@[0]);
    assert("launch_pc"@[0] != "backslash"@[0]);
    assert("launch_pc"@[0] != "ampersand"@[0]);
    assert("launch_pc"@[0] != "volume_up"@[0]);
    assert("launch_app1"@[0] != "browser_fav"@[0]);
    assert("launch_app1"@[0] != "volume_mute"@[0]);
    assert("launch_app1"@[0] != "volume_down"@[0]);
    assert("launch_app1"@[7] != "launch_mail"@[7]);
    assert("launch_calc"@[0] != "browser_fav"@[0]);
    assert("launch_calc"@[0] != "volume_mute"@[0]);
    assert("launch_calc"@[0] != "volume_down"@[0]);
    assert("launch_calc"@[7] != "launch_mail"@[7]);
    assert("launch_calc"@[7] != "launch_app1"@[7]);
    assert("launch_app2"@[0] != "browser_fav"@[0]);
    assert("launch_app2"@[0] != "volume_mute"@[0]);
    assert("launch_app2"@[0] != "volume_down"@[0]);
    assert("launch_app2"@[7] != "launch_mail"@[7]);
    assert("launch_app2"@[10] != "launch_app1"@[10]);
    assert("launch_app2"@[7] != "launch_calc"@[7]);
}

/// The keys whose chip shows a label of its own rather than the name in capitals.
pub proof fn lemma_display_labels()
    ensures
        display_label("lbracket"@) == Some("["@),
        display_label("rbracket"@) == Some("]"@),
        display_label("backslash"@) == Some("\\"@),
        display_label("semicolon"@) == Some(";"@),
        display_label("backtick"@) == Some("`"@),
        display_label("browser_back"@) == Some("Browser Back"@),
        display_label("browser_forward"@) == Some("Browser Fwd"@),
        display_label("browser_refresh"@) == Some("Browser Refresh"@),
        display_label("browser_stop"@) == Some("Browser Stop"@),
        display_label("browser_search"@) == Some("Browser Search"@),
        display_label("browser_fav"@) == Some("Browser Favorites"@),
        display_label("browser_favorites"@) == Some("Browser Favorites"@),
        display_label("browser_home"@) == Some("Browser Home"@),
        display_label("vol_mute"@) == Some("Vol Mute"@),
        display_label("volume_mute"@) == Some("Vol Mute"@),
        display_label("vol_down"@) == Some("Vol Down"@),
        display_label("volume_down"@) == Some("Vol Down"@),
        display_label("vol_up"@) == Some("Vol Up"@),
        display_label("volume_up"@) == Some("Vol Up"@),
        display_label("media_next"@) == Some("Next Track"@),
        display_label("media_next_track"@) == Some("Next Track"@),
        display_label("media_prev"@) == Some("Prev Track"@),
        display_label("media_prev_track"@) == Some("Prev Track"@),
        display_label("media_stop"@) == Some("Media Stop"@),
        display_label("media_play_pause"@) == Some("Play/Pause"@),
        display_label("launch_mail"@) == Some("Launch Mail"@),
        display_label("launch_media"@) == Some("Launch Media"@),
        display_label("launch_media_select"@) == Some("Launch Media"@),
        display_label("launch_pc"@) == Some("Launch PC"@),
        display_label("launch_app1"@) == Some("Launch PC"@),
        display_label("launch_calc"@) == Some("Launch Calc"@),
        display_label("launch_app2"@) == Some("Launch Calc"@),
{
    reveal_strlit("lbracket");
    reveal_strlit("rbracket");
    reveal_strlit("backslash");
    reveal_strlit("semicolon");
    reveal_strlit("backtick");
    reveal_strlit("browser_back");
    reveal_strlit("browser_forward");
    reveal_strlit("browser_refresh");
    reveal_strlit("browser_stop");
    reveal_strlit("browser_search");
    reveal_strlit("browser_fav");
    reveal_strlit("browser_favorites");
    reveal_strlit("browser_home");
    reveal_strlit("vol_mute");
    reveal_strlit("volume_mute");
    reveal_strlit("vol_down");
    reveal_strlit("volume_down");
    reveal_strlit("vol_up");
    reveal_strlit("volume_up");
    reveal_strlit("media_next");
    reveal_strlit("media_next_track");
    reveal_strlit("media_prev");
    reveal_strlit("media_prev_track");
    reveal_strlit("media_stop");
    reveal_strlit("media_play_pause");
    reveal_strlit("launch_mail");
    reveal_strlit("launch_media");
    reveal_strlit("launch_media_select");
    reveal_strlit("launch_pc");
    reveal_strlit("launch_app1");
    reveal_strlit("launch_calc");
    reveal_strlit("launch_app2");
    assert("lbracket"@.len() == 8);
    assert("rbracket"@.len() == 8);
    assert("backslash"@.len() == 9);
    assert("semicolon"@.len() == 9);
    assert("backtick"@.len() == 8);
    assert("browser_back"@.len() == 12);
    assert("browser_forward"@.len() == 15);
    assert("browser_refresh"@.len() == 15);
    assert("browser_stop"@.len() == 12);
    assert("browser_search"@.len() == 14);
    assert("browser_fav"@.len() == 11);
    assert("browser_favorites"@.len() == 17);
    assert("browser_home"@.len() == 12);
    assert("vol_mute"@.len() == 8);
    assert("volume_mute"@.len() == 11);
    assert("vol_down"@.len() == 8);
    assert("volume_down"@.len() == 11);
    assert("vol_up"@.len() == 6);
    assert("volume_up"@.len() == 9);
    assert("media_next"@.len() == 10);
    assert("media_next_track"@.len() == 16);
    assert("media_prev"@.len() == 10);
    assert("media_prev_track"@.len() == 16);
    assert("media_stop"@.len() == 10);
    assert("media_play_pause"@.len() == 16);
    assert("launch_mail"@.len() == 11);
    assert("launch_media"@.len() == 12);
    assert("launch_media_select"@.len() == 19);
    assert("launch_pc"@.len() == 9);
    assert("launch_app1"@.len() == 11);
    assert("launch_calc"@.len() == 11);
    assert("launch_app2"@.len() == 11);
    assert("rbracket"@[0] != "lbracket"@[0]);
    assert("semicolon"@[0] != "backslash"@[0]);
    assert("backtick"@[0] != "lbracket"@[0]);
    assert("backtick"@[0] != "rbracket"@[0]);
    assert("browser_refresh"@[8] != "browser_forward"@[8]);
    assert("browser_stop"@[8] != "browser_back"@[8]);
    assert("browser_home"@[8] != "browser_back"@[8]);
    assert("browser_home"@[8] != "browser_stop"@[8]);
    assert("vol_mute"@[0] != "lbracket"@[0]);
    assert("vol_mute"@[0] != "rbracket"@[0]);
    assert("vol_mute"@[0] != "backtick"@[0]);
    assert("volume_mute"@[0] != "browser_fav"@[0]);
    assert("vol_down"@[0] != "lbracket"@[0]);
    assert("vol_down"@[0] != "rbracket"@[0]);
    assert("vol_down"@[0] != "backtick"@[0]);
    assert("vol_down"@[4] != "vol_mute"@[4]);
    assert("volume_down"@[0] != "browser_fav"@[0]);
    assert("volume_down"@[7] != "volume_mute"@[7]);
    assert("volume_up"@[0] != "backslash"@[0]);
    assert("volume_up"@[0] != "semicolon"@[0]);
    assert("media_prev"@[6] != "media_next"@[6]);
    assert("media_prev_track"@[6] != "media_next_track"@[6]);
    assert("media_stop"@[6] != "media_next"@[6]);
    assert("media_stop"@[6] != "media_prev"@[6]);
    assert("media_play_pause"@[6] != "media_next_track"@[6]);
    assert("media_play_pause"@[7] != "media_prev_track"@[7]);
    assert("launch_mail"@[0] != "browser_fav"@[0]);
    assert("launch_mail"@[0] != "volume_mute"@[0]);
    assert("launch_mail"@[0] != "volume_down"@[0]);
    assert("launch_media"@[0] != "browser_back"@[0]);
    assert("launch_media"@[0] != "browser_stop"@[0]);
    assert("launch_media"@[0] != "browser_home"@[0]);
    assert("launch_pc"@[0] != "backslash"@[0]);
    assert("launch_pc"@[0] != "semicolon"@[0]);
    assert("launch_pc"@[0] != "volume_up"@[0]);
    assert("launch_app1"@[0] != "browser_fav"@[0]);
    assert("launch_app1"@[0] != "volume_mute"@[0]);
    assert("launch_app1"@[0] != "volume_down"@[0]);
    assert("launch_app1"@[7] != "launch_mail"@[7]);
    assert("launch_calc"@[0] != "browser_fav"@[0]);
    assert("launch_calc"@[0] != "volume_mute"@[0]);
    assert("launch_calc"@[0] != "volume_down"@[0]);
    assert("launch_calc"@[7] != "launch_mail"@[7]);
    assert("launch_calc"@[7] != "launch_app1"@[7]);
    assert("launch_app2"@[0] != "browser_fav"@[0]);
    assert("launch_app2"@[0] != "volume_mute"@[0]);
    assert("launch_app2"@[0] != "volume_down"@[0]);
    assert("launch_app2"@[7] != "launch_mail"@[7]);
    assert("launch_app2"@[10] != "launch_app1"@[10]);
    assert("launch_app2"@[7] != "launch_calc"@[7]);
}

/// A recorded symbol key sends that same key: the token stored for the key's
/// (lower-cased) debug name stands for the key's own virtual-key code.
pub proof fn lemma_recorded_symbol_keys_send_their_key()
    ensures
        key_code(recorded_token("openbracket"@)) == Some(0xDBu16),
        key_code(recorded_token("closebracket"@)) == Some(0xDDu16),
        key_code(recorded_token("backslash"@)) == Some(0xDCu16),
        key_code(recorded_token("semicolon"@)) == Some(0xBAu16),
        key_code(recorded_token("quote"@)) == Some(0xDEu16),
        key_code(recorded_token("comma"@)) == Some(0xBCu16),
        key_code(recorded_token("period"@)) == Some(0xBEu16),
        key_code(recorded_token("minus"@)) == Some(0xBDu16),
        key_code(recorded_token("equals"@)) == Some(0xBBu16),
        key_code(recorded_token("plus"@)) == Some(0xBBu16),
        key_code(recorded_token("equal"@)) == Some(0xBBu16),
        key_code(recorded_token("backtick"@)) == Some(0xC0u16),
        key_code(recorded_token("grave"@)) == Some(0xC0u16),
        key_code(recorded_token("graveaccent"@)) == Some(0xC0u16),
        key_code(recorded_token("slash"@)) == Some(0xBFu16),
{
    reveal_strlit("escape");
    reveal_strlit("openbracket");
    reveal_strlit("ctrl");
    reveal_strlit("shift");
    reveal_strlit("alt");
    reveal_strlit("win");
    reveal_strlit("command");
    reveal_strlit("meta");
    reveal_strlit("space");
    reveal_strlit("enter");
    reveal_strlit("tab");
    reveal_strlit("backspace");
    reveal_strlit("caps");
    reveal_strlit("insert");
    reveal_strlit("delete");
    reveal_strlit("home");
    reveal_strlit("end");
    reveal_strlit("pgup");
    reveal_strlit("pgdown");
    reveal_strlit("arrowup");
    reveal_strlit("arrowdown");
    reveal_strlit("arrowleft");
    reveal_strlit("arrowright");
    reveal_strlit(";");
    reveal_strlit("semicolon");
    reveal_strlit(":");
    reveal_strlit("/");
    reveal_strlit("slash");
    reveal_strlit("?");
    reveal_strlit("`");
    reveal_strlit("backtick");
    reveal_strlit("~");
    reveal_strlit("[");
    reveal_strlit("closebracket");
    reveal_strlit("lbracket");
    reveal_strlit("{");
    reveal_strlit("\\");
    reveal_strlit("backslash");
    reveal_strlit("|");
    reveal_strlit("]");
    reveal_strlit("quote");
    reveal_strlit("rbracket");
    reveal_strlit("}");
    reveal_strlit("'");
    reveal_strlit("comma");
    reveal_strlit("\"");
    reveal_strlit(",");
    reveal_strlit("period");
    reveal_strlit("<");
    reveal_strlit(".");
    reveal_strlit("minus");
    reveal_strlit(">");
    reveal_strlit("-");
    reveal_strlit("equals");
    reveal_strlit("_");
    reveal_strlit("=");
    reveal_strlit("plus");
    reveal_strlit("equal");
    reveal_strlit("grave");
    reveal_strlit("graveaccent");
    assert("escape"@.len() == 6);
    assert("openbracket"@.len() == 11);
    assert("ctrl"@.len() == 4);
    assert("shift"@.len() == 5);
    assert("alt"@.len() == 3);
    assert("win"@.len() == 3);
    assert("command"@.len() == 7);
    assert("meta"@.len() == 4);
    assert("space"@.len() == 5);
    assert("enter"@.len() == 5);
    assert("tab"@.len() == 3);
    assert("backspace"@.len() == 9);
    assert("caps"@.len() == 4);
    assert("insert"@.len() == 6);
    assert("delete"@.len() == 6);
    assert("home"@.len() == 4);
    assert("end"@.len() == 3);
    assert("pgup"@.len() == 4);
    assert("pgdown"@.len() == 6);
    assert("arrowup"@.len() == 7);
    assert("arrowdown"@.len() == 9);
    assert("arrowleft"@.len() == 9);
    assert("arrowright"@.len() == 10);
    assert(";"@.len() == 1);
    assert("semicolon"@.len() == 9);
    assert(":"@.len() == 1);
    assert("/"@.len() == 1);
    assert("slash"@.len() == 5);
    assert("?"@.len() == 1);
    assert("`"@.len() == 1);
    assert("backtick"@.len() == 8);
    assert("~"@.len() == 1);
    assert("["@.len() == 1);
    assert("closebracket"@.len() == 12);
    assert("lbracket"@.len() == 8);
    assert("{"@.len() == 1);
    assert("\\"@.len() == 1);
    assert("backslash"@.len() == 9);
    assert("|"@.len() == 1);
    assert("]"@.len() == 1);
    assert("quote"@.len() == 5);
    assert("rbracket"@.len() == 8);
    assert("}"@.len() == 1);
    assert("'"@.len() == 1);
    assert("comma"@.len() == 5);
    assert("\""@.len() == 1);
    assert(","@.len() == 1);
    assert("period"@.len() == 6);
    assert("<"@.len() == 1);
    assert("."@.len() == 1);
    assert("minus"@.len() == 5);
    assert(">"@.len() == 1);
    assert("-"@.len() == 1);
    assert("equals"@.len() == 6);
    assert("_"@.len() == 1);
    assert("="@.len() == 1);
    assert("plus"@.len() == 4);
    assert("equal"@.len() == 5);
    assert("grave"@.len() == 5);
    assert("graveaccent"@.len() == 11);
    assert("["@[0] != ";"@[0]);
    assert("["@[0] != ":"@[0]);
    assert("["@[0] != "/"@[0]);
    assert("["@[0] != "?"@[0]);
    assert("["@[0] != "`"@[0]);
    assert("["@[0] != "~"@[0]);
    assert("]"@[0] != ";"@[0]);
    assert("]"@[0] != ":"@[0]);
    assert("]"@[0] != "/"@[0]);
    assert("]"@[0] != "?"@[0]);
    assert("]"@[0] != "`"@[0]);
    assert("]"@[0] != "~"@[0]);
    assert("]"@[0] != "["@[0]);
    assert("]"@[0] != "{"@[0]);
    assert("]"@[0] != "\\"@[0]);
    assert("]"@[0] != "|"@[0]);
    assert("\\"@[0] != ";"@[0]);
    assert("\\"@[0] != ":"@[0]);
    assert("\\"@[0] != "/"@[0]);
    assert("\\"@[0] != "?"@[0]);
    assert("\\"@[0] != "`"@[0]);
    assert("\\"@[0] != "~"@[0]);
    assert("\\"@[0] != "["@[0]);
    assert("\\"@[0] != "{"@[0]);
    assert("semicolon"@[0] != "backslash"@[0]);
    assert("'"@[0] != ";"@[0]);
    assert("'"@[0] != ":"@[0]);
    assert("'"@[0] != "/"@[0]);
    assert("'"@[0] != "?"@[0]);
    assert("'"@[0] != "`"@[0]);
    assert("'"@[0] != "~"@[0]);
    assert("'"@[0] != "["@[0]);
    assert("'"@[0] != "{"@[0]);
    assert("'"@[0] != "\\"@[0]);
    assert("'"@[0] != "|"@[0]);
    assert("'"@[0] != "]"@[0]);
    assert("'"@[0] != "}"@[0]);
    assert("comma"@[0] != "quote"@[0]);
    assert(","@[0] != ";"@[0]);
    assert(","@[0] != ":"@[0]);
    assert(","@[0] != "/"@[0]);
    assert(","@[0] != "?"@[0]);
    assert(","@[0] != "`"@[0]);
    assert(","@[0] != "~"@[0]);
    assert(","@[0] != "["@[0]);
    assert(","@[0] != "{"@[0]);
    assert(","@[0] != "\\"@[0]);
    assert(","@[0] != "|"@[0]);
    assert(","@[0] != "]"@[0]);
    assert(","@[0] != "}"@[0]);
    assert(","@[0] != "'"@[0]);
    assert(","@[0] != "\""@[0]);
    assert("period"@[0] != "escape"@[0]);
    assert("."@[0] != ";"@[0]);
    assert("."@[0] != ":"@[0]);
    assert("."@[0] != "/"@[0]);
    assert("."@[0] != "?"@[0]);
    assert("."@[0] != "`"@[0]);
    assert("."@[0] != "~"@[0]);
    assert("."@[0] != "["@[0]);
    assert("."@[0] != "{"@[0]);
    assert("."@[0] != "\\"@[0]);
    assert("."@[0] != "|"@[0]);
    assert("."@[0] != "]"@[0]);
    assert("."@[0] != "}"@[0]);
    assert("."@[0] != "'"@[0]);
    assert("."@[0] != "\""@[0]);
    assert("."@[0] != ","@[0]);
    assert("."@[0] != "<"@[0]);
    assert("minus"@[0] != "quote"@[0]);
    assert("minus"@[0] != "comma"@[0]);
    assert("-"@[0] != ";"@[0]);
    assert("-"@[0] != ":"@[0]);
    assert("-"@[0] != "/"@[0]);
    assert("-"@[0] != "?"@[0]);
    assert("-"@[0] != "`"@[0]);
    assert("-"@[0] != "~"@[0]);
    assert("-"@[0] != "["@[0]);
    assert("-"@[0] != "{"@[0]);
    assert("-"@[0] != "\\"@[0]);
    assert("-"@[0] != "|"@[0]);
    assert("-"@[0] != "]"@[0]);
    assert("-"@[0] != "}"@[0]);
    assert("-"@[0] != "'"@[0]);
    assert("-"@[0] != "\""@[0]);
    assert("-"@[0] != ","@[0]);
    assert("-"@[0] != "<"@[0]);
    assert("-"@[0] != "."@[0]);
    assert("-"@[0] != ">"@[0]);
    assert("equals"@[1] != "escape"@[1]);
    assert("equals"@[0] != "period"@[0]);
    assert("="@[0] != ";"@[0]);
    assert("="@[0] != ":"@[0]);
    assert("="@[0] != "/"@[0]);
    assert("="@[0] != "?"@[0]);
    assert("="@[0] != "`"@[0]);
    assert("="@[0] != "~"@[0]);
    assert("="@[0] != "["@[0]);
    assert("="@[0] != "{"@[0]);
    assert("="@[0] != "\\"@[0]);
    assert("="@[0] != "|"@[0]);
    assert("="@[0] != "]"@[0]);
    assert("="@[0] != "}"@[0]);
    assert("="@[0] != "'"@[0]);
    assert("="@[0] != "\""@[0]);
    assert("="@[0] != ","@[0]);
    assert("="@[0] != "<"@[0]);
    assert("="@[0] != "."@[0]);
    assert("="@[0] != ">"@[0]);
    assert("="@[0] != "-"@[0]);
    assert("="@[0] != "_"@[0]);
    assert("equal"@[0] != "quote"@[0]);
    assert("equal"@[0] != "comma"@[0]);
    assert("equal"@[0] != "minus"@[0]);
    assert("`"@[0] != ";"@[0]);
    assert("`"@[0] != ":"@[0]);
    assert("`"@[0] != "/"@[0]);
    assert("`"@[0] != "?"@[0]);
    assert("grave"@[0] != "quote"@[0]);
    assert("grave"@[0] != "comma"@[0]);
    assert("grave"@[0] != "minus"@[0]);
    assert("grave"@[0] != "equal"@[0]);
    assert("graveaccent"@[0] != "openbracket"@[0]);
    assert("slash"@[0] != "quote"@[0]);
    assert("slash"@[0] != "comma"@[0]);
    assert("slash"@[0] != "minus"@[0]);
    assert("slash"@[0] != "equal"@[0]);
    assert("slash"@[0] != "grave"@[0]);
    assert("/"@[0] != ";"@[0]);
    assert("/"@[0] != ":"@[0]);
}

/// A single ASCII letter or digit names its own key: the code of the capital
/// letter (a small letter counts as its capital), or of the digit.
pub proof fn lemma_letter_and_digit_keys(c: char)
    requires
        ('a' <= c && c <= 'z') || ('A' <= c && c <= 'Z') || ('0' <= c && c <= '9'),
    ensures
        key_code(seq![c]) == Some(if 'a' <= c && c <= 'z' { ((c as u32) - 32) as u16 } else { (c as u32) as u16 }),
{
    let k = seq![c];
    reveal_strlit("ctrl");
    reveal_strlit("shift");
    reveal_strlit("alt");
    reveal_strlit("win");
    reveal_strlit("command");
    reveal_strlit("meta");
    reveal_strlit("space");
    reveal_strlit("enter");
    reveal_strlit("escape");
    reveal_strlit("tab");
    reveal_strlit("backspace");
    reveal_strlit("caps");
    reveal_strlit("insert");
    reveal_strlit("delete");
    reveal_strlit("home");
    reveal_strlit("end");
    reveal_strlit("pgup");
    reveal_strlit("pgdown");
    reveal_strlit("arrowup");
    reveal_strlit("arrowdown");
    reveal_strlit("arrowleft");
    reveal_strlit("arrowright");
    reveal_strlit(";");
    reveal_strlit("semicolon");
    reveal_strlit(":");
    reveal_strlit("/");
    reveal_strlit("slash");
    reveal_strlit("?");
    reveal_strlit("`");
    reveal_strlit("backtick");
    reveal_strlit("~");
    reveal_strlit("[");
    reveal_strlit("lbracket");
    reveal_strlit("{");
    reveal_strlit("\\");
    reveal_strlit("backslash");
    reveal_strlit("|");
    reveal_strlit("]");
    reveal_strlit("rbracket");
    reveal_strlit("}");
    reveal_strlit("'");
    reveal_strlit("quote");
    reveal_strlit("\"");
    reveal_strlit(",");
    reveal_strlit("comma");
    reveal_strlit("<");
    reveal_strlit(".");
    reveal_strlit("period");
    reveal_strlit(">");
    reveal_strlit("-");
    reveal_strlit("minus");
    reveal_strlit("_");
    reveal_strlit("=");
    reveal_strlit("+");
    reveal_strlit("plus");
    reveal_strlit("!");
    reveal_strlit("exclaim");
    reveal_strlit("@");
    reveal_strlit("at");
    reveal_strlit("#");
    reveal_strlit("hash");
    reveal_strlit("pound");
    reveal_strlit("$");
    reveal_strlit("dollar");
    reveal_strlit("%");
    reveal_strlit("percent");
    reveal_strlit("^");
    reveal_strlit("caret");
    reveal_strlit("&");
    reveal_strlit("ampersand");
    reveal_strlit("*");
    reveal_strlit("asterisk");
    reveal_strlit("(");
    reveal_strlit(")");
    reveal_strlit("browser_back");
    reveal_strlit("browser_forward");
    reveal_strlit("browser_refresh");
    reveal_strlit("browser_stop");
    reveal_strlit("browser_search");
    reveal_strlit("browser_fav");
    reveal_strlit("browser_favorites");
    reveal_strlit("browser_home");
    reveal_strlit("vol_mute");
    reveal_strlit("volume_mute");
    reveal_strlit("vol_down");
    reveal_strlit("volume_down");
    reveal_strlit("vol_up");
    reveal_strlit("volume_up");
    reveal_strlit("media_next");
    reveal_strlit("media_next_track");
    reveal_strlit("media_prev");
    reveal_strlit("media_prev_track");
    reveal_strlit("media_stop");
    reveal_strlit("media_play_pause");
    reveal_strlit("launch_mail");
    reveal_strlit("launch_media");
    reveal_strlit("launch_media_select");
    reveal_strlit("launch_pc");
    reveal_strlit("launch_app1");
    reveal_strlit("launch_calc");
    reveal_strlit("launch_app2");
    assert("ctrl"@.len() == 4);
    assert("shift"@.len() == 5);
    assert("alt"@.len() == 3);
    assert("win"@.len() == 3);
    assert("command"@.len() == 7);
    assert("meta"@.len() == 4);
    assert("space"@.len() == 5);
    assert("enter"@.len() == 5);
    assert("escape"@.len() == 6);
    assert("tab"@.len() == 3);
    assert("backspace"@.len() == 9);
    assert("caps"@.len() == 4);
    assert("insert"@.len() == 6);
    assert("delete"@.len() == 6);
    assert("home"@.len() == 4);
    assert("end"@.len() == 3);
    assert("pgup"@.len() == 4);
    assert("pgdown"@.len() == 6);
    assert("arrowup"@.len() == 7);
    assert("arrowdown"@.len() == 9);
    assert("arrowleft"@.len() == 9);
    assert("arrowright"@.len() == 10);
    assert(";"@.len() == 1);
    assert("semicolon"@.len() == 9);
    assert(":"@.len() == 1);
    assert("/"@.len() == 1);
    assert("slash"@.len() == 5);
    assert("?"@.len() == 1);
    assert("`"@.len() == 1);
    assert("backtick"@.len() == 8);
    assert("~"@.len() == 1);
    assert("["@.len() == 1);
    assert("lbracket"@.len() == 8);
    assert("{"@.len() == 1);
    assert("\\"@.len() == 1);
    assert("backslash"@.len() == 9);
    assert("|"@.len() == 1);
    assert("]"@.len() == 1);
    assert("rbracket"@.len() == 8);
    assert("}"@.len() == 1);
    assert("'"@.len() == 1);
    assert("quote"@.len() == 5);
    assert("\""@.len() == 1);
    assert(","@.len() == 1);
    assert("comma"@.len() == 5);
    assert("<"@.len() == 1);
    assert("."@.len() == 1);
    assert("period"@.len() == 6);
    assert(">"@.len() == 1);
    assert("-"@.len() == 1);
    assert("minus"@.len() == 5);
    assert("_"@.len() == 1);
    assert("="@.len() == 1);
    assert("+"@.len() == 1);
    assert("plus"@.len() == 4);
    assert("!"@.len() == 1);
    assert("exclaim"@.len() == 7);
    assert("@"@.len() == 1);
    assert("at"@.len() == 2);
    assert("#"@.len() == 1);
    assert("hash"@.len() == 4);
    assert("pound"@.len() == 5);
    assert("$"@.len() == 1);
    assert("dollar"@.len() == 6);
    assert("%"@.len() == 1);
    assert("percent"@.len() == 7);
    assert("^"@.len() == 1);
    assert("caret"@.len() == 5);
    assert("&"@.len() == 1);
    assert("ampersand"@.len() == 9);
    assert("*"@.len() == 1);
    assert("asterisk"@.len() == 8);
    assert("("@.len() == 1);
    assert(")"@.len() == 1);
    assert("browser_back"@.len() == 12);
    assert("browser_forward"@.len() == 15);
    assert("browser_refresh"@.len() == 15);
    assert("browser_stop"@.len() == 12);
    assert("browser_search"@.len() == 14);
    assert("browser_fav"@.len() == 11);
    assert("browser_favorites"@.len() == 17);
    assert("browser_home"@.len() == 12);
    assert("vol_mute"@.len() == 8);
    assert("volume_mute"@.len() == 11);
    assert("vol_down"@.len() == 8);
    assert("volume_down"@.len() == 11);
    assert("vol_up"@.len() == 6);
    assert("volume_up"@.len() == 9);
    assert("media_next"@.len() == 10);
    assert("media_next_track"@.len() == 16);
    assert("media_prev"@.len() == 10);
    assert("media_prev_track"@.len() == 16);
    assert("media_stop"@.len() == 10);
    assert("media_play_pause"@.len() == 16);
    assert("launch_mail"@.len() == 11);
    assert("launch_media"@.len() == 12);
    assert("launch_media_select"@.len() == 19);
    assert("launch_pc"@.len() == 9);
    assert("launch_app1"@.len() == 11);
    assert("launch_calc"@.len() == 11);
    assert("launch_app2"@.len() == 11);
    assert(k[0] != ";"@[0]);
    assert(k[0] != ":"@[0]);
    assert(k[0] != "/"@[0]);
    assert(k[0] != "?"@[0]);
    assert(k[0] != "`"@[0]);
    assert(k[0] != "~"@[0]);
    assert(k[0] != "["@[0]);
    assert(k[0] != "{"@[0]);
    assert(k[0] != "\\"@[0]);
    assert(k[0] != "|"@[0]);
    assert(k[0] != "]"@[0]);
    assert(k[0] != "}"@[0]);
    assert(k[0] != "'"@[0]);
    assert(k[0] != "\""@[0]);
    assert(k[0] != ","@[0]);
    assert(k[0] != "<"@[0]);
    assert(k[0] != "."@[0]);
    assert(k[0] != ">"@[0]);
    assert(k[0] != "-"@[0]);
    assert(k[0] != "_"@[0]);
    assert(k[0] != "="@[0]);
    assert(k[0] != "+"@[0]);
    assert(k[0] != "!"@[0]);
    assert(k[0] != "@"@[0]);
    assert(k[0] != "#"@[0]);
    assert(k[0] != "$"@[0]);
    assert(k[0] != "%"@[0]);
    assert(k[0] != "^"@[0]);
    assert(k[0] != "&"@[0]);
    assert(k[0] != "*"@[0]);
    assert(k[0] != "("@[0]);
    assert(k[0] != ")"@[0]);
}

/// `num0`..`num9` name the keypad digit keys, 0x60 to 0x69.
pub proof fn lemma_keypad_digit_keys(d: char)
    requires
        '0' <= d && d <= '9',
    ensures
        key_code(seq!['n', 'u', 'm', d]) == Some((0x60 + ((d as u32) - 48)) as u16),
{
    let k = seq!['n', 'u', 'm', d];
    reveal_strlit("num");
    assert(k.take(3) =~= "num"@);
    reveal_strlit("ctrl");
    reveal_strlit("shift");
    reveal_strlit("alt");
    reveal_strlit("win");
    reveal_strlit("command");
    reveal_strlit("meta");
    reveal_strlit("space");
    reveal_strlit("enter");
    reveal_strlit("escape");
    reveal_strlit("tab");
    reveal_strlit("backspace");
    reveal_strlit("caps");
    reveal_strlit("insert");
    reveal_strlit("delete");
    reveal_strlit("home");
    reveal_strlit("end");
    reveal_strlit("pgup");
    reveal_strlit("pgdown");
    reveal_strlit("arrowup");
    reveal_strlit("arrowdown");
    reveal_strlit("arrowleft");
    reveal_strlit("arrowright");
    reveal_strlit(";");
    reveal_strlit("semicolon");
    reveal_strlit(":");
    reveal_strlit("/");
    reveal_strlit("slash");
    reveal_strlit("?");
    reveal_strlit("`");
    reveal_strlit("backtick");
    reveal_strlit("~");
    reveal_strlit("[");
    reveal_strlit("lbracket");
    reveal_strlit("{");
    reveal_strlit("\\");
    reveal_strlit("backslash");
    reveal_strlit("|");
    reveal_strlit("]");
    reveal_strlit("rbracket");
    reveal_strlit("}");
    reveal_strlit("'");
    reveal_strlit("quote");
    reveal_strlit("\"");
    reveal_strlit(",");
    reveal_strlit("comma");
    reveal_strlit("<");
    reveal_strlit(".");
    reveal_strlit("period");
    reveal_strlit(">");
    reveal_strlit("-");
    reveal_strlit("minus");
    reveal_strlit("_");
    reveal_strlit("=");
    reveal_strlit("+");
    reveal_strlit("plus");
    reveal_strlit("!");
    reveal_strlit("exclaim");
    reveal_strlit("@");
    reveal_strlit("at");
    reveal_strlit("#");
    reveal_strlit("hash");
    reveal_strlit("pound");
    reveal_strlit("$");
    reveal_strlit("dollar");
    reveal_strlit("%");
    reveal_strlit("percent");
    reveal_strlit("^");
    reveal_strlit("caret");
    reveal_strlit("&");
    reveal_strlit("ampersand");
    reveal_strlit("*");
    reveal_strlit("asterisk");
    reveal_strlit("(");
    reveal_strlit(")");
    reveal_strlit("browser_back");
    reveal_strlit("browser_forward");
    reveal_strlit("browser_refresh");
    reveal_strlit("browser_stop");
    reveal_strlit("browser_search");
    reveal_strlit("browser_fav");
    reveal_strlit("browser_favorites");
    reveal_strlit("browser_home");
    reveal_strlit("vol_mute");
    reveal_strlit("volume_mute");
    reveal_strlit("vol_down");
    reveal_strlit("volume_down");
    reveal_strlit("vol_up");
    reveal_strlit("volume_up");
    reveal_strlit("media_next");
    reveal_strlit("media_next_track");
    reveal_strlit("media_prev");
    reveal_strlit("media_prev_track");
    reveal_strlit("media_stop");
    reveal_strlit("media_play_pause");
    reveal_strlit("launch_mail");
    reveal_strlit("launch_media");
    reveal_strlit("launch_media_select");
    reveal_strlit("launch_pc");
    reveal_strlit("launch_app1");
    reveal_strlit("launch_calc");
    reveal_strlit("launch_app2");
    assert("ctrl"@.len() == 4);
    assert("shift"@.len() == 5);
    assert("alt"@.len() == 3);
    assert("win"@.len() == 3);
    assert("command"@.len() == 7);
    assert("meta"@.len() == 4);
    assert("space"@.len() == 5);
    assert("enter"@.len() == 5);
    assert("escape"@.len() == 6);
    assert("tab"@.len() == 3);
    assert("backspace"@.len() == 9);
    assert("caps"@.len() == 4);
    assert("insert"@.len() == 6);
    assert("delete"@.len() == 6);
    assert("home"@.len() == 4);
    assert("end"@.len() == 3);
    assert("pgup"@.len() == 4);
    assert("pgdown"@.len() == 6);
    assert("arrowup"@.len() == 7);
    assert("arrowdown"@.len() == 9);
    assert("arrowleft"@.len() == 9);
    assert("arrowright"@.len() == 10);
    assert(";"@.len() == 1);
    assert("semicolon"@.len() == 9);
    assert(":"@.len() == 1);
    assert("/"@.len() == 1);
    assert("slash"@.len() == 5);
    assert("?"@.len() == 1);
    assert("`"@.len() == 1);
    assert("backtick"@.len() == 8);
    assert("~"@.len() == 1);
    assert("["@.len() == 1);
    assert("lbracket"@.len() == 8);
    assert("{"@.len() == 1);
    assert("\\"@.len() == 1);
    assert("backslash"@.len() == 9);
    assert("|"@.len() == 1);
    assert("]"@.len() == 1);
    assert("rbracket"@.len() == 8);
    assert("}"@.len() == 1);
    assert("'"@.len() == 1);
    assert("quote"@.len() == 5);
    assert("\""@.len() == 1);
    assert(","@.len() == 1);
    assert("comma"@.len() == 5);
    assert("<"@.len() == 1);
    assert("."@.len() == 1);
    assert("period"@.len() == 6);
    assert(">"@.len() == 1);
    assert("-"@.len() == 1);
    assert("minus"@.len() == 5);
    assert("_"@.len() == 1);
    assert("="@.len() == 1);
    assert("+"@.len() == 1);
    assert("plus"@.len() == 4);
    assert("!"@.len() == 1);
    assert("exclaim"@.len() == 7);
    assert("@"@.len() == 1);
    assert("at"@.len() == 2);
    assert("#"@.len() == 1);
    assert("hash"@.len() == 4);
    assert("pound"@.len() == 5);
    assert("$"@.len() == 1);
    assert("dollar"@.len() == 6);
    assert("%"@.len() == 1);
    assert("percent"@.len() == 7);
    assert("^"@.len() == 1);
    assert("caret"@.len() == 5);
    assert("&"@.len() == 1);
    assert("ampersand"@.len() == 9);
    assert("*"@.len() == 1);
    assert("asterisk"@.len() == 8);
    assert("("@.len() == 1);
    assert(")"@.len() == 1);
    assert("browser_back"@.len() == 12);
    assert("browser_forward"@.len() == 15);
    assert("browser_refresh"@.len() == 15);
    assert("browser_stop"@.len() == 12);
    assert("browser_search"@.len() == 14);
    assert("browser_fav"@.len() == 11);
    assert("browser_favorites"@.len() == 17);
    assert("browser_home"@.len() == 12);
    assert("vol_mute"@.len() == 8);
    assert("volume_mute"@.len() == 11);
    assert("vol_down"@.len() == 8);
    assert("volume_down"@.len() == 11);
    assert("vol_up"@.len() == 6);
    assert("volume_up"@.len() == 9);
    assert("media_next"@.len() == 10);
    assert("media_next_track"@.len() == 16);
    assert("media_prev"@.len() == 10);
    assert("media_prev_track"@.len() == 16);
    assert("media_stop"@.len() == 10);
    assert("media_play_pause"@.len() == 16);
    assert("launch_mail"@.len() == 11);
    assert("launch_media"@.len() == 12);
    assert("launch_media_select"@.len() == 19);
    assert("launch_pc"@.len() == 9);
    assert("launch_app1"@.len() == 11);
    assert("launch_calc"@.len() == 11);
    assert("launch_app2"@.len() == 11);
    assert(k[0] != "ctrl"@[0]);
    assert(k[0] != "meta"@[0]);
    assert(k[0] != "caps"@[0]);
    assert(k[0] != "home"@[0]);
    assert(k[0] != "pgup"@[0]);
    assert(k[0] != "plus"@[0]);
    assert(k[0] != "hash"@[0]);
}

/// `f1`..`f24` name the function keys F1 to F24 (0x70 to 0x87).
pub proof fn lemma_function_keys(n: nat)
    requires
        1 <= n && n <= 24,
    ensures
        key_code(seq!['f'] + decimal(n)) == Some((0x6F + n) as u16),
{
    let k = seq!['f'] + decimal(n);
    lemma_decimal_digits(n);
    lemma_parse_decimal(n, 65535);
    assert(k.drop_first() =~= decimal(n));
    assert(k[0] == 'f');
    assert(decimal(n).len() <= 2) by {
        if n >= 10 {
            assert(decimal(n) == decimal(n / 10).push(digit_char(n % 10)));
        }
    }
    reveal_strlit("ctrl");
    reveal_strlit("shift");
    reveal_strlit("alt");
    reveal_strlit("win");
    reveal_strlit("command");
    reveal_strlit("meta");
    reveal_strlit("space");
    reveal_strlit("enter");
    reveal_strlit("escape");
    reveal_strlit("tab");
    reveal_strlit("backspace");
    reveal_strlit("caps");
    reveal_strlit("insert");
    reveal_strlit("delete");
    reveal_strlit("home");
    reveal_strlit("end");
    reveal_strlit("pgup");
    reveal_strlit("pgdown");
    reveal_strlit("arrowup");
    reveal_strlit("arrowdown");
    reveal_strlit("arrowleft");
    reveal_strlit("arrowright");
    reveal_strlit(";");
    reveal_strlit("semicolon");
    reveal_strlit(":");
    reveal_strlit("/");
    reveal_strlit("slash");
    reveal_strlit("?");
    reveal_strlit("`");
    reveal_strlit("backtick");
    reveal_strlit("~");
    reveal_strlit("[");
    reveal_strlit("lbracket");
    reveal_strlit("{");
    reveal_strlit("\\");
    reveal_strlit("backslash");
    reveal_strlit("|");
    reveal_strlit("]");
    reveal_strlit("rbracket");
    reveal_strlit("}");
    reveal_strlit("'");
    reveal_strlit("quote");
    reveal_strlit("\"");
    reveal_strlit(",");
    reveal_strlit("comma");
    reveal_strlit("<");
    reveal_strlit(".");
    reveal_strlit("period");
    reveal_strlit(">");
    reveal_strlit("-");
    reveal_strlit("minus");
    reveal_strlit("_");
    reveal_strlit("=");
    reveal_strlit("+");
    reveal_strlit("plus");
    reveal_strlit("!");
    reveal_strlit("exclaim");
    reveal_strlit("@");
    reveal_strlit("at");
    reveal_strlit("#");
    reveal_strlit("hash");
    reveal_strlit("pound");
    reveal_strlit("$");
    reveal_strlit("dollar");
    reveal_strlit("%");
    reveal_strlit("percent");
    reveal_strlit("^");
    reveal_strlit("caret");
    reveal_strlit("&");
    reveal_strlit("ampersand");
    reveal_strlit("*");
    reveal_strlit("asterisk");
    reveal_strlit("(");
    reveal_strlit(")");
    reveal_strlit("browser_back");
    reveal_strlit("browser_forward");
    reveal_strlit("browser_refresh");
    reveal_strlit("browser_stop");
    reveal_strlit("browser_search");
    reveal_strlit("browser_fav");
    reveal_strlit("browser_favorites");
    reveal_strlit("browser_home");
    reveal_strlit("vol_mute");
    reveal_strlit("volume_mute");
    reveal_strlit("vol_down");
    reveal_strlit("volume_down");
    reveal_strlit("vol_up");
    reveal_strlit("volume_up");
    reveal_strlit("media_next");
    reveal_strlit("media_next_track");
    reveal_strlit("media_prev");
    reveal_strlit("media_prev_track");
    reveal_strlit("media_stop");
    reveal_strlit("media_play_pause");
    reveal_strlit("launch_mail");
    reveal_strlit("launch_media");
    reveal_strlit("launch_media_select");
    reveal_strlit("launch_pc");
    reveal_strlit("launch_app1");
    reveal_strlit("launch_calc");
    reveal_strlit("launch_app2");
    assert("ctrl"@.len() == 4);
    assert("shift"@.len() == 5);
    assert("alt"@.len() == 3);
    assert("win"@.len() == 3);
    assert("command"@.len() == 7);
    assert("meta"@.len() == 4);
    assert("space"@.len() == 5);
    assert("enter"@.len() == 5);
    assert("escape"@.len() == 6);
    assert("tab"@.len() == 3);
    assert("backspace"@.len() == 9);
    assert("caps"@.len() == 4);
    assert("insert"@.len() == 6);
    assert("delete"@.len() == 6);
    assert("home"@.len() == 4);
    assert("end"@.len() == 3);
    assert("pgup"@.len() == 4);
    assert("pgdown"@.len() == 6);
    assert("arrowup"@.len() == 7);
    assert("arrowdown"@.len() == 9);
    assert("arrowleft"@.len() == 9);
    assert("arrowright"@.len() == 10);
    assert(";"@.len() == 1);
    assert("semicolon"@.len() == 9);
    assert(":"@.len() == 1);
    assert("/"@.len() == 1);
    assert("slash"@.len() == 5);
    assert("?"@.len() == 1);
    assert("`"@.len() == 1);
    assert("backtick"@.len() == 8);
    assert("~"@.len() == 1);
    assert("["@.len() == 1);
    assert("lbracket"@.len() == 8);
    assert("{"@.len() == 1);
    assert("\\"@.len() == 1);
    assert("backslash"@.len() == 9);
    assert("|"@.len() == 1);
    assert("]"@.len() == 1);
    assert("rbracket"@.len() == 8);
    assert("}"@.len() == 1);
    assert("'"@.len() == 1);
    assert("quote"@.len() == 5);
    assert("\""@.len() == 1);
    assert(","@.len() == 1);
    assert("comma"@.len() == 5);
    assert("<"@.len() == 1);
    assert("."@.len() == 1);
    assert("period"@.len() == 6);
    assert(">"@.len() == 1);
    assert("-"@.len() == 1);
    assert("minus"@.len() == 5);
    assert("_"@.len() == 1);
    assert("="@.len() == 1);
    assert("+"@.len() == 1);
    assert("plus"@.len() == 4);
    assert("!"@.len() == 1);
    assert("exclaim"@.len() == 7);
    assert("@"@.len() == 1);
    assert("at"@.len() == 2);
    assert("#"@.len() == 1);
    assert("hash"@.len() == 4);
    assert("pound"@.len() == 5);
    assert("$"@.len() == 1);
    assert("dollar"@.len() == 6);
    assert("%"@.len() == 1);
    assert("percent"@.len() == 7);
    assert("^"@.len() == 1);
    assert("caret"@.len() == 5);
    assert("&"@.len() == 1);
    assert("ampersand"@.len() == 9);
    assert("*"@.len() == 1);
    assert("asterisk"@.len() == 8);
    assert("("@.len() == 1);
    assert(")"@.len() == 1);
    assert("browser_back"@.len() == 12);
    assert("browser_forward"@.len() == 15);
    assert("browser_refresh"@.len() == 15);
    assert("browser_stop"@.len() == 12);
    assert("browser_search"@.len() == 14);
    assert("browser_fav"@.len() == 11);
    assert("browser_favorites"@.len() == 17);
    assert("browser_home"@.len() == 12);
    assert("vol_mute"@.len() == 8);
    assert("volume_mute"@.len() == 11);
    assert("vol_down"@.len() == 8);
    assert("volume_down"@.len() == 11);
    assert("vol_up"@.len() == 6);
    assert("volume_up"@.len() == 9);
    assert("media_next"@.len() == 10);
    assert("media_next_track"@.len() == 16);
    assert("media_prev"@.len() == 10);
    assert("media_prev_track"@.len() == 16);
    assert("media_stop"@.len() == 10);
    assert("media_play_pause"@.len() == 16);
    assert("launch_mail"@.len() == 11);
    assert("launch_media"@.len() == 12);
    assert("launch_media_select"@.len() == 19);
    assert("launch_pc"@.len() == 9);
    assert("launch_app1"@.len() == 11);
    assert("launch_calc"@.len() == 11);
    assert("launch_app2"@.len() == 11);
    assert(k[0] != "alt"@[0]);
    assert(k[0] != "win"@[0]);
    assert(k[0] != "tab"@[0]);
    assert(k[0] != "end"@[0]);
    assert(k[0] != "at"@[0]);
}

/// The keys sent with the extended-key flag are exactly the keypad divide key,
/// the arrows, Home, End, Page Up, Page Down, Insert, Delete, the right Ctrl
/// key and the browser, volume, media and launcher keys; a release adds the
/// key-up flag.
pub proof fn lemma_extended_keys(vk: u16, key_up: bool)
    ensures
        is_extended_key(vk) <==> (vk == 0x6F || vk == 0x25 || vk == 0x26 || vk == 0x27 || vk == 0x28
            || vk == 0x24 || vk == 0x23 || vk == 0x21 || vk == 0x22 || vk == 0x2D || vk == 0x2E
            || vk == 0xA3 || (0xA5 <= vk && vk <= 0xB7)),
{
}
} // verus!

use joymapper::admin::{elevation_exit_code, tooltip_buffer, utf16_of, wide_null};

#[test]
fn wide_strings_end_in_a_zero_unit() {
    assert_eq!(wide_null("runas"), vec![0x72, 0x75, 0x6E, 0x61, 0x73, 0]);
    assert_eq!(wide_null(""), vec![0]);
    assert_eq!(wide_null("é"), vec![0xE9, 0]);
}

#[test]
fn characters_past_the_basic_plane_become_surrogate_pairs() {
    assert_eq!(wide_null("\u{1F600}"), vec![0xD83D, 0xDE00, 0]);
    assert_eq!(utf16_of("a\u{10FFFF}b"), vec![0x61, 0xDBFF, 0xDFFF, 0x62]);
    assert_eq!(utf16_of("\u{10000}"), vec![0xD800, 0xDC00]);
    let s = "C:\\Programme\\Jöy\u{1F3AE}.exe";
    assert_eq!(utf16_of(s), s.encode_utf16().collect::<Vec<u16>>());
}

#[test]
fn shell_results_of_32_or_less_are_failures() {
    assert_eq!(elevation_exit_code(0), 1);
    assert_eq!(elevation_exit_code(32), 1);
    assert_eq!(elevation_exit_code(-5), 1);
    assert_eq!(elevation_exit_code(33), 0);
    assert_eq!(elevation_exit_code(isize::MAX), 0);
}

#[test]
fn tooltip_is_padded_with_zeros() {
    let t = tooltip_buffer("JoyMapper Pro");
    assert_eq!(t.len(), 128);
    let expected: Vec<u16> = "JoyMapper Pro".encode_utf16().collect();
    assert_eq!(&t[..13], &expected[..]);
    assert!(t[13..].iter().all(|&u| u == 0));
    let full = "x".repeat(128);
    let t = tooltip_buffer(&full);
    assert!(t.iter().all(|&u| u == 0x78));
}

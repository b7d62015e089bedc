use joymapper::icon::extract_icon_data;

/// One directory entry: width, height, bit depth, image size and offset.
fn entry(w: u8, h: u8, bpp: u16, size: u32, off: u32) -> Vec<u8> {
    let mut e = vec![w, h, 0, 0, 1, 0];
    e.extend_from_slice(&bpp.to_le_bytes());
    e.extend_from_slice(&size.to_le_bytes());
    e.extend_from_slice(&off.to_le_bytes());
    e
}

fn icon_file(entries: &[Vec<u8>], payload: &[u8]) -> Vec<u8> {
    let mut b = vec![0, 0, 1, 0];
    b.extend_from_slice(&(entries.len() as u16).to_le_bytes());
    for e in entries {
        b.extend_from_slice(e);
    }
    b.extend_from_slice(payload);
    b
}

#[test]
fn too_short_files_give_nothing() {
    assert_eq!(extract_icon_data(&[]), None);
    assert_eq!(extract_icon_data(&[0, 0, 1, 0, 1]), None);
    // A header that announces no image.
    assert_eq!(extract_icon_data(&[0, 0, 1, 0, 0, 0]), None);
    // A header that announces one image but has no directory.
    assert_eq!(extract_icon_data(&[0, 0, 1, 0, 1, 0, 32, 32]), None);
}

#[test]
fn picks_the_deepest_tray_sized_image() {
    // Images start right after the header and three entries: 6 + 48 = 54.
    let payload: Vec<u8> = (0u8..12).collect();
    let entries = vec![
        entry(16, 16, 32, 4, 54),
        entry(32, 32, 8, 4, 58),
        entry(32, 32, 32, 4, 62),
    ];
    let b = icon_file(&entries, &payload);
    assert_eq!(extract_icon_data(&b), Some(&[8u8, 9, 10, 11][..]));
}

#[test]
fn later_entry_of_equal_depth_wins() {
    let payload: Vec<u8> = vec![1, 2, 3, 4];
    let entries = vec![entry(32, 32, 32, 2, 38), entry(0, 0, 32, 2, 40)];
    let b = icon_file(&entries, &payload);
    assert_eq!(extract_icon_data(&b), Some(&[3u8, 4][..]));
}

#[test]
fn no_tray_sized_image_falls_back_to_the_first() {
    let payload: Vec<u8> = vec![7, 8, 9];
    let entries = vec![entry(48, 48, 32, 1, 40), entry(16, 16, 32, 2, 39)];
    let b = icon_file(&entries, &payload);
    assert_eq!(extract_icon_data(&b), Some(&[9u8][..]));
}

#[test]
fn image_past_the_end_gives_nothing() {
    let payload: Vec<u8> = vec![1, 2, 3];
    let entries = vec![entry(32, 32, 32, 4, 22)];
    let b = icon_file(&entries, &payload);
    assert_eq!(b.len(), 25);
    assert_eq!(extract_icon_data(&b), None);
    let entries = vec![entry(32, 32, 32, 3, 22)];
    let b = icon_file(&entries, &payload);
    assert_eq!(extract_icon_data(&b), Some(&[1u8, 2, 3][..]));
}

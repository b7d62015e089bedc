use joymapper::engine::input_name_of;
use joymapper::keys::{recorded_key_token, recording_macro};
use joymapper::profile::{
    add_default_if_empty, add_new_profile, add_slot, apply_recording, choose_current_profile,
    default_mapping_vec, default_mappings, delete_profile, find_mapping, find_profile,
    import_profile, insert_profile, new_profile, profile_file_name, rename_profile, rename_request_ok, repair_all,
    repair_mappings,
    reset_slots, save_plan, set_slot, unique_profile_name, OldProfile, Profile, CANCEL_TOKEN,
    DEFAULT_PROFILE, MAX_SLOTS,
};

fn strings(v: &[&str]) -> Vec<String> {
    v.iter().map(|s| s.to_string()).collect()
}

fn profile(last_used: bool, presses: u64, mappings: &[(&str, &[&str])]) -> Profile {
    Profile {
        last_used,
        total_key_presses: presses,
        mappings: mappings
            .iter()
            .map(|(k, v)| (k.to_string(), strings(v)))
            .collect(),
    }
}

fn store(entries: Vec<(&str, Profile)>) -> Vec<(String, Profile)> {
    entries.into_iter().map(|(n, p)| (n.to_string(), p)).collect()
}

fn names(ps: &[(String, Profile)]) -> Vec<&str> {
    ps.iter().map(|(n, _)| n.as_str()).collect()
}

fn flags(ps: &[(String, Profile)]) -> Vec<bool> {
    ps.iter().map(|(_, p)| p.last_used).collect()
}

#[test]
fn new_profiles_list_every_input_with_one_empty_slot() {
    assert_eq!(default_mapping_vec(), vec![String::new()]);
    let m = default_mappings();
    assert_eq!(m.len(), 25);
    assert_eq!(m[0].0, "A");
    assert_eq!(m[24].0, "RS_RIGHT");
    assert!(m.iter().all(|(_, slots)| slots == &vec![String::new()]));
    let p = new_profile();
    assert!(!p.last_used);
    assert_eq!(p.total_key_presses, 0);
    assert_eq!(p.mappings, m);
}

#[test]
fn old_profiles_get_one_slot_per_input() {
    let old = OldProfile {
        last_used: true,
        mappings: vec![("A".to_string(), "ctrl+c".to_string()), ("B".to_string(), String::new())],
    };
    let p = Profile::from_old(old);
    assert!(p.last_used);
    assert_eq!(p.total_key_presses, 0);
    assert_eq!(
        p.mappings,
        vec![
            ("A".to_string(), strings(&["ctrl+c"])),
            ("B".to_string(), strings(&[""]))
        ]
    );
    let c = p.copy();
    assert_eq!(c.mappings, p.mappings);
    assert_eq!(c.last_used, p.last_used);
}

#[test]
fn finding_entries_by_name() {
    let m = vec![
        ("A".to_string(), strings(&["a"])),
        ("B".to_string(), strings(&["b"])),
    ];
    assert_eq!(find_mapping(&m, "B"), Some(1));
    assert_eq!(find_mapping(&m, "b"), None);
    let ps = store(vec![("x", new_profile()), ("y", new_profile())]);
    assert_eq!(find_profile(&ps, "y"), Some(1));
    assert_eq!(find_profile(&ps, "z"), None);
}

#[test]
fn repair_adds_missing_inputs_in_table_order() {
    let mut m = vec![
        ("B".to_string(), strings(&["b"])),
        ("Custom".to_string(), strings(&["x"])),
    ];
    repair_mappings(&mut m);
    assert_eq!(m.len(), 26);
    assert_eq!(m[0], ("B".to_string(), strings(&["b"])));
    assert_eq!(m[1], ("Custom".to_string(), strings(&["x"])));
    assert_eq!(m[2], ("A".to_string(), strings(&[""])));
    assert_eq!(m[3].0, "X");
    assert_eq!(m[25].0, "RS_RIGHT");
    let again = m.clone();
    repair_mappings(&mut m);
    assert_eq!(m, again);
}

#[test]
fn repair_all_repairs_every_profile() {
    let mut ps = store(vec![
        ("p", profile(true, 7, &[("A", &["a"])])),
        ("q", profile(false, 0, &[])),
    ]);
    repair_all(&mut ps);
    assert_eq!(ps[0].1.mappings.len(), 25);
    assert_eq!(ps[0].1.mappings[0], ("A".to_string(), strings(&["a"])));
    assert_eq!(ps[0].1.total_key_presses, 7);
    assert!(ps[0].1.last_used);
    assert_eq!(ps[1].1.mappings, default_mappings());
}

#[test]
fn startup_prefers_the_flagged_profile_first_by_name() {
    let mut ps = store(vec![
        ("beta", profile(true, 1, &[])),
        ("Default", profile(false, 0, &[])),
        ("alpha", profile(true, 2, &[])),
        ("Zeta", profile(true, 3, &[])),
    ]);
    let (chosen, cleared) = choose_current_profile(&mut ps);
    // Names compare by code point: upper case sorts first.
    assert_eq!(chosen, "Zeta");
    assert_eq!(cleared, strings(&["beta", "alpha"]));
    assert_eq!(flags(&ps), vec![false, false, false, true]);
    assert_eq!(names(&ps), vec!["beta", "Default", "alpha", "Zeta"]);
}

#[test]
fn startup_falls_back_to_default_then_to_the_first() {
    let mut ps = store(vec![("a", profile(false, 0, &[])), ("Default", profile(false, 0, &[]))]);
    let (chosen, cleared) = choose_current_profile(&mut ps);
    assert_eq!(chosen, "Default");
    assert!(cleared.is_empty());
    assert_eq!(flags(&ps), vec![false, true]);

    let mut ps = store(vec![("b", profile(false, 0, &[])), ("a", profile(false, 0, &[]))]);
    let (chosen, _) = choose_current_profile(&mut ps);
    assert_eq!(chosen, "b");
    assert_eq!(flags(&ps), vec![true, false]);
}

#[test]
fn saving_writes_every_other_profile_unflagged() {
    let ps = store(vec![
        ("a", profile(true, 4, &[("A", &["a"])])),
        ("b", profile(false, 5, &[])),
        ("c", profile(true, 6, &[("B", &["b"])])),
    ]);
    let plan = save_plan(&ps, "c", 99);
    assert_eq!(names(&plan), vec!["a", "b", "c"]);
    assert_eq!(flags(&plan), vec![false, false, true]);
    assert_eq!(plan[0].1.total_key_presses, 4);
    assert_eq!(plan[1].1.total_key_presses, 5);
    assert_eq!(plan[2].1.total_key_presses, 99);
    assert_eq!(plan[2].1.mappings, vec![("B".to_string(), strings(&["b"]))]);

    let plan = save_plan(&ps, "missing", 1);
    assert_eq!(names(&plan), vec!["a", "b", "c"]);
    assert_eq!(flags(&plan), vec![false, false, false]);
    assert_eq!(profile_file_name("New Profile (2)"), "New Profile (2).json");
}

#[test]
fn new_profile_names_count_up_from_two() {
    let mut ps = store(vec![("Default", new_profile())]);
    assert_eq!(unique_profile_name(&ps), "New Profile");
    assert_eq!(add_new_profile(&mut ps), "New Profile");
    assert_eq!(add_new_profile(&mut ps), "New Profile (2)");
    assert_eq!(add_new_profile(&mut ps), "New Profile (3)");
    assert_eq!(names(&ps), vec!["Default", "New Profile", "New Profile (2)", "New Profile (3)"]);
    assert_eq!(ps[3].1.mappings, default_mappings());
    assert!(!ps[3].1.last_used);

    let ps = store(vec![("New Profile (2)", new_profile())]);
    assert_eq!(unique_profile_name(&ps), "New Profile");
    let ps = store(vec![("New Profile", new_profile()), ("New Profile (3)", new_profile())]);
    assert_eq!(unique_profile_name(&ps), "New Profile (2)");
}

#[test]
fn renaming_moves_the_mappings_under_the_trimmed_name() {
    let mut ps = store(vec![
        ("a", profile(true, 8, &[("A", &["x"])])),
        ("b", profile(false, 1, &[])),
    ]);
    assert_eq!(rename_profile(&mut ps, "a", "  fresh  "), Some("fresh".to_string()));
    assert_eq!(names(&ps), vec!["b", "fresh"]);
    assert!(!ps[1].1.last_used);
    assert_eq!(ps[1].1.total_key_presses, 0);
    assert_eq!(ps[1].1.mappings, vec![("A".to_string(), strings(&["x"]))]);
}

#[test]
fn renaming_to_an_empty_or_taken_name_does_nothing() {
    let mut ps = store(vec![("a", profile(true, 8, &[])), ("b", profile(false, 1, &[]))]);
    assert_eq!(rename_profile(&mut ps, "a", "   "), None);
    assert_eq!(rename_profile(&mut ps, "a", " b "), None);
    assert_eq!(rename_profile(&mut ps, "a", "a"), None);
    assert_eq!(names(&ps), vec!["a", "b"]);
    assert_eq!(ps[0].1.total_key_presses, 8);
    assert!(!rename_request_ok(&ps, " \t "));
    assert!(!rename_request_ok(&ps, "b"));
    assert!(rename_request_ok(&ps, " c"));
    // A refused name leaves the profiles alone even when the target is missing.
    assert_eq!(rename_profile(&mut ps, "missing", "b"), None);
    assert_eq!(names(&ps), vec!["a", "b"]);
}

#[test]
fn deleting_shows_the_first_profile_left() {
    let mut ps = store(vec![("a", new_profile()), ("b", new_profile()), ("c", new_profile())]);
    assert_eq!(delete_profile(&mut ps, "a"), "b");
    assert_eq!(names(&ps), vec!["b", "c"]);
    assert_eq!(delete_profile(&mut ps, "c"), "b");
    assert_eq!(names(&ps), vec!["b"]);
    // Deleting a name that no profile has leaves the last profile in place.
    assert_eq!(delete_profile(&mut ps, "zzz"), "b");
    assert_eq!(names(&ps), vec!["b"]);
}

#[test]
fn importing_replaces_a_profile_of_the_same_name() {
    let mut ps = store(vec![("a", profile(false, 1, &[])), ("b", profile(false, 2, &[]))]);
    insert_profile(&mut ps, "a", profile(true, 9, &[("A", &["q"])]));
    assert_eq!(names(&ps), vec!["a", "b"]);
    assert_eq!(ps[0].1.total_key_presses, 9);
    insert_profile(&mut ps, "c", profile(false, 3, &[]));
    assert_eq!(names(&ps), vec!["a", "b", "c"]);
}

#[test]
fn imported_profiles_get_every_input() {
    let mut ps = store(vec![("a", profile(false, 1, &[])), ("b", profile(false, 2, &[]))]);
    import_profile(&mut ps, "a", profile(true, 9, &[("B", &["q"])]));
    assert_eq!(names(&ps), vec!["a", "b"]);
    assert_eq!(ps[0].1.total_key_presses, 9);
    assert!(ps[0].1.last_used);
    let m = &ps[0].1.mappings;
    assert_eq!(m.len(), 25);
    assert_eq!(m[0], ("B".to_string(), strings(&["q"])));
    assert_eq!(m[1], ("A".to_string(), strings(&[""])));
    for i in 0..25 {
        assert!(find_mapping(m, input_name_of(i)).is_some());
    }
    import_profile(&mut ps, "c", profile(false, 3, &[]));
    assert_eq!(names(&ps), vec!["a", "b", "c"]);
    assert_eq!(ps[2].1.mappings, default_mappings());
}

#[test]
fn recordings_go_into_the_chosen_slot() {
    let mut m = vec![("A".to_string(), strings(&["", "b"]))];
    assert!(apply_recording(&mut m, "A", Some(1), "ctrl+x".to_string()));
    assert_eq!(m[0].1, strings(&["", "ctrl+x"]));
    assert!(apply_recording(&mut m, "A", None, "a".to_string()));
    assert_eq!(m[0].1, strings(&["a", "ctrl+x"]));
    assert!(apply_recording(&mut m, "A", Some(7), "f5".to_string()));
    assert_eq!(m[0].1, strings(&["a", "ctrl+x", "f5"]));
    // An input without an entry is left alone, but the profiles are still saved.
    assert!(apply_recording(&mut m, "B", Some(0), "z".to_string()));
    assert_eq!(m.len(), 1);
}

#[test]
fn cancelled_recordings_change_nothing() {
    assert_eq!(CANCEL_TOKEN, "__cancel__");
    let mut m = vec![("A".to_string(), strings(&["a"]))];
    assert!(!apply_recording(&mut m, "A", Some(0), "__cancel__".to_string()));
    assert_eq!(m[0].1, strings(&["a"]));
    let combo = recording_macro(false, true, false, false, &recorded_key_token("Escape"));
    assert!(!apply_recording(&mut m, "A", Some(0), combo));
    assert_eq!(m[0].1, strings(&["a"]));
}

#[test]
fn slot_editing() {
    let mut slots = strings(&["a"]);
    add_slot(&mut slots);
    assert_eq!(slots, strings(&["a", ""]));
    set_slot(&mut slots, 1, "ctrl".to_string());
    assert_eq!(slots, strings(&["a", "ctrl"]));
    set_slot(&mut slots, 0, String::new());
    assert_eq!(slots, strings(&["", "ctrl"]));
    let mut full = vec![String::new(); MAX_SLOTS];
    add_slot(&mut full);
    assert_eq!(full.len(), 10);
    reset_slots(&mut full);
    assert_eq!(full, vec![String::new()]);
}

#[test]
fn a_default_profile_is_made_only_when_there_is_none() {
    let mut ps: Vec<(String, Profile)> = Vec::new();
    assert!(add_default_if_empty(&mut ps));
    assert_eq!(names(&ps), vec![DEFAULT_PROFILE]);
    assert_eq!(ps[0].1.mappings, default_mappings());
    assert!(!add_default_if_empty(&mut ps));
    assert_eq!(ps.len(), 1);
}

#[test]
fn an_empty_profile_has_nothing() {
    let p = Profile::default();
    assert!(!p.last_used);
    assert_eq!(p.total_key_presses, 0);
    assert!(p.mappings.is_empty());
}

use midi_capture::cli::{choose_criterion, criterion_pattern, Criterion};
use midi_capture::device::{
    get_midithroughport_id, get_wine_alsa_input_id, get_xonek2_id, select, DeviceDescriptor,
    Direction,
};

fn dev(id: i32, name: &str, direction: Direction) -> DeviceDescriptor {
    DeviceDescriptor { id, name: name.to_string(), direction }
}

#[test]
fn last_match_wins_over_earlier_match() {
    // Matches at indices 2 and 5: the id at index 5 must win, never index 2.
    let devices = vec![
        dev(10, "Midi Keyboard", Direction::Input),
        dev(11, "Synth Out", Direction::Output),
        dev(12, "XONE K2", Direction::Input),
        dev(13, "Drum Pad", Direction::Input),
        dev(14, "Sampler", Direction::Output),
        dev(15, "XONE K2 MIDI 2", Direction::Input),
    ];
    assert_eq!(select(&devices, "XONE"), 15);
    assert_ne!(select(&devices, "XONE"), 12);
}

#[test]
fn zero_matches_returns_zero() {
    let devices = vec![
        dev(4, "Midi Through Port-0", Direction::Input),
        dev(9, "USB Keyboard", Direction::Input),
    ];
    assert_eq!(select(&devices, "XONE"), 0);
}

#[test]
fn empty_directory_returns_zero() {
    let devices: Vec<DeviceDescriptor> = Vec::new();
    assert_eq!(select(&devices, "anything"), 0);
}

#[test]
fn empty_criterion_matches_every_device() {
    let devices = vec![
        dev(1, "Alpha", Direction::Input),
        dev(2, "Beta", Direction::Output),
    ];
    // Every name contains the empty substring, so the last device wins.
    assert_eq!(select(&devices, ""), 2);
}

#[test]
fn criterion_longer_than_name_does_not_match() {
    let devices = vec![dev(5, "XO", Direction::Input)];
    assert_eq!(select(&devices, "XONE"), 0);
}

#[test]
fn match_at_end_of_name_is_found() {
    let devices = vec![dev(6, "Deck XONE", Direction::Input)];
    assert_eq!(select(&devices, "XONE"), 6);
}

fn sample_directory() -> Vec<DeviceDescriptor> {
    vec![
        dev(1, "XONE K2", Direction::Input),
        dev(2, "WINE ALSA Output #1", Direction::Output),
        dev(3, "Through Port A", Direction::Input),
    ]
}

#[test]
fn end_to_end_wine_criterion_selects_id_two() {
    let devices = sample_directory();
    let criterion = choose_criterion(&vec!["wine".to_string()]);
    assert_eq!(criterion, Criterion::Wine);
    assert_eq!(select(&devices, criterion_pattern(criterion)), 2);
}

#[test]
fn end_to_end_through_criterion_selects_id_three() {
    let devices = sample_directory();
    let criterion = choose_criterion(&vec!["Through".to_string()]);
    assert_eq!(criterion, Criterion::Through);
    assert_eq!(select(&devices, criterion_pattern(criterion)), 3);
}

#[test]
fn end_to_end_default_criterion_selects_id_one() {
    let devices = sample_directory();
    let criterion = choose_criterion(&Vec::new());
    assert_eq!(criterion, Criterion::Controller);
    assert_eq!(select(&devices, criterion_pattern(criterion)), 1);
}

#[test]
fn named_getters_match_their_substrings() {
    let devices = sample_directory();
    assert_eq!(get_xonek2_id(&devices), 1);
    assert_eq!(get_wine_alsa_input_id(&devices), 2);
    assert_eq!(get_midithroughport_id(&devices), 3);
}

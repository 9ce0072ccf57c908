use pulse_synth::catalog::rack_names;
use pulse_synth::rack::VstRackState;

fn names(list: &[&str]) -> Vec<String> {
    list.iter().map(|s| s.to_string()).collect()
}

fn rack_of(list: &[&str]) -> VstRackState {
    let mut rack = VstRackState::new();
    rack.replace_list(names(list));
    rack
}

#[test]
fn new_rack_is_empty() {
    let info = VstRackState::new().snapshot();
    assert!(info.plugins.is_empty());
    assert_eq!(info.active_index, None);
    assert_eq!(info.active_name, None);
}

#[test]
fn scenario_next_next_previous_previous() {
    // a non-empty list always has a cursor; from the last name, a step
    // forward lands where a step from an unset cursor lands
    let mut rack = rack_of(&["Arp", "Bass", "Lead"]);
    rack.previous();
    assert_eq!(rack.snapshot().active_index, Some(2));
    let walk: [(fn(&mut VstRackState), usize, &str); 4] = [
        (VstRackState::next, 0, "Arp"),
        (VstRackState::next, 1, "Bass"),
        (VstRackState::previous, 0, "Arp"),
        (VstRackState::previous, 2, "Lead"),
    ];
    for (step, index, name) in walk {
        step(&mut rack);
        let info = rack.snapshot();
        assert_eq!(info.active_index, Some(index));
        assert_eq!(info.active_name.as_deref(), Some(name));
        assert_eq!(info.plugins, names(&["Arp", "Bass", "Lead"]));
    }
}

#[test]
fn empty_rack_steps_are_no_ops() {
    let mut rack = VstRackState::new();
    rack.next();
    rack.previous();
    let info = rack.snapshot();
    assert_eq!(info.active_index, None);
    assert_eq!(info.active_name, None);
}

#[test]
fn step_round_trip_restores_cursor() {
    let mut rack = rack_of(&["A", "B", "C", "D"]);
    for start in 0..4 {
        rack.select_by_hint(["a", "b", "c", "d"][start]);
        rack.next();
        rack.previous();
        assert_eq!(rack.snapshot().active_index, Some(start));
        rack.previous();
        rack.next();
        assert_eq!(rack.snapshot().active_index, Some(start));
    }
}

#[test]
fn empty_list_clears_cursor() {
    let mut rack = rack_of(&["Arp", "Bass"]);
    rack.next();
    rack.replace_list(Vec::new());
    let info = rack.snapshot();
    assert_eq!(info.active_index, None);
    assert_eq!(info.active_name, None);
}

#[test]
fn shorter_list_resets_cursor() {
    let mut rack = rack_of(&["Arp", "Bass", "Lead"]);
    rack.previous();
    assert_eq!(rack.snapshot().active_index, Some(2));
    rack.replace_list(names(&["Pad", "Keys"]));
    assert_eq!(rack.snapshot().active_index, Some(0));
    assert_eq!(rack.snapshot().active_name.as_deref(), Some("Pad"));
}

#[test]
fn rescan_keeps_cursor_in_range() {
    let mut rack = rack_of(&["Arp", "Bass", "Lead"]);
    rack.next();
    assert_eq!(rack.snapshot().active_index, Some(1));
    rack.replace_list(names(&["Keys", "Organ", "Pad", "Strings"]));
    let info = rack.snapshot();
    assert_eq!(info.active_index, Some(1));
    assert_eq!(info.active_name.as_deref(), Some("Organ"));
}

#[test]
fn select_by_hint_ignores_case_and_takes_first() {
    let mut rack = rack_of(&["Diva", "Surge XT", "Surge XT Lite"]);
    rack.select_by_hint("SURGE");
    let info = rack.snapshot();
    assert_eq!(info.active_index, Some(1));
    assert_eq!(info.active_name.as_deref(), Some("Surge XT"));
    rack.select_by_hint("lite");
    assert_eq!(rack.snapshot().active_index, Some(2));
}

#[test]
fn select_by_hint_miss_keeps_cursor() {
    let mut rack = rack_of(&["Arp", "Bass", "Lead"]);
    rack.previous();
    rack.select_by_hint("piano");
    let info = rack.snapshot();
    assert_eq!(info.active_index, Some(2));
    assert_eq!(info.active_name.as_deref(), Some("Lead"));
    let mut empty = VstRackState::new();
    empty.select_by_hint("piano");
    assert_eq!(empty.snapshot().active_index, None);
}

#[test]
fn scan_dedupes_case_variants() {
    let kept = rack_names(&names(&["Lead", "lead", "Bass"]));
    assert_eq!(kept, names(&["Bass", "Lead"]));
    let mut rack = VstRackState::new();
    rack.replace_list(kept);
    let info = rack.snapshot();
    assert_eq!(info.plugins, names(&["Bass", "Lead"]));
    assert_eq!(info.active_index, Some(0));
    assert_eq!(info.active_name.as_deref(), Some("Bass"));
}

#[test]
fn scan_sorts_without_regard_to_case() {
    let kept = rack_names(&names(&["bass", "Arp", "Zebra", "arp", "Bass"]));
    assert_eq!(kept, names(&["Arp", "bass", "Zebra"]));
}

#[test]
fn scan_drops_effects() {
    let kept = rack_names(&names(&[
        "Surge XT",
        "Surge XT Effects",
        "Valhalla FX",
        "Spectrum Analyzer",
        "Gain Utility",
        "FXpansion Synth",
    ]));
    assert_eq!(kept, names(&["FXpansion Synth", "Surge XT"]));
    assert!(rack_names(&Vec::new()).is_empty());
}

#[test]
fn long_step_sequences_stay_in_range() {
    let mut rack = rack_of(&["A", "B", "C", "D", "E"]);
    let mut expected: usize = 0;
    for k in 0..200u32 {
        if (k * 7 + 3) % 5 < 2 {
            rack.previous();
            expected = (expected + 4) % 5;
        } else {
            rack.next();
            expected = (expected + 1) % 5;
        }
        let info = rack.snapshot();
        assert_eq!(info.active_index, Some(expected));
        assert!(expected < info.plugins.len());
    }
}

use pulse_synth::paths::{join_path, surge_app_paths, surge_plugin_paths, synth_status, vst_scan_dirs};

#[test]
fn join_adds_one_separator() {
    assert_eq!(join_path("/Users/ana", "Music"), "/Users/ana/Music");
    assert_eq!(join_path("/Users/ana/", "Music"), "/Users/ana/Music");
    assert_eq!(join_path("", "Music"), "Music");
}

#[test]
fn plugin_paths_under_home() {
    let (dir, vst3, fx) = surge_plugin_paths("/Users/ana");
    assert_eq!(dir, "/Users/ana/Library/Audio/Plug-Ins/VST3");
    assert_eq!(vst3, "/Users/ana/Library/Audio/Plug-Ins/VST3/Surge XT.vst3");
    assert_eq!(fx, "/Users/ana/Library/Audio/Plug-Ins/VST3/Surge XT Effects.vst3");
}

#[test]
fn app_paths_and_scan_dirs() {
    assert_eq!(
        surge_app_paths("/Users/ana"),
        vec!["/Applications/Surge XT.app".to_string(), "/Users/ana/Applications/Surge XT.app".to_string()]
    );
    assert_eq!(
        vst_scan_dirs("/Users/ana"),
        vec![
            "/Users/ana/Library/Audio/Plug-Ins/VST3".to_string(),
            "/Library/Audio/Plug-Ins/VST3".to_string()
        ]
    );
}

#[test]
fn status_with_everything_found() {
    let s = synth_status(
        "/d".to_string(),
        "/d/Surge XT.vst3".to_string(),
        true,
        "/d/Surge XT Effects.vst3".to_string(),
        true,
        Some("/Applications/Surge XT.app".to_string()),
    );
    assert!(s.surge_vst3 && s.surge_fx_vst3 && s.surge_app);
    assert_eq!(s.plugin_dir, "/d");
    assert_eq!(
        s.found_paths,
        vec![
            "/d/Surge XT.vst3".to_string(),
            "/d/Surge XT Effects.vst3".to_string(),
            "/Applications/Surge XT.app".to_string()
        ]
    );
    assert_eq!(s.message, "Surge XT plugins and standalone app are available");
}

#[test]
fn status_without_app() {
    let s = synth_status("/d".to_string(), "/d/a".to_string(), false, "/d/b".to_string(), true, None);
    assert!(!s.surge_vst3 && s.surge_fx_vst3 && !s.surge_app);
    assert_eq!(s.found_paths, vec!["/d/b".to_string()]);
    assert_eq!(s.message, "Surge XT VST3 detected, standalone app is missing (host required)");
}

#[test]
fn status_without_plugins() {
    let s = synth_status(
        "/d".to_string(),
        "/d/a".to_string(),
        false,
        "/d/b".to_string(),
        false,
        Some("/Applications/Surge XT.app".to_string()),
    );
    assert_eq!(s.found_paths, vec!["/Applications/Surge XT.app".to_string()]);
    assert_eq!(s.message, "Surge XT VST3 not found in ~/Library/Audio/Plug-Ins/VST3");
}

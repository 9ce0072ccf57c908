//! Where the synth's plugins and standalone app are looked for, and the
//! summary of what was found there.
use vstd::prelude::*;

verus! {

/// The per-user VST3 folder, relative to the home directory.
pub const USER_VST3_DIR: &'static str = "Library/Audio/Plug-Ins/VST3";

/// The system-wide VST3 folder.
pub const SYSTEM_VST3_DIR: &'static str = "/Library/Audio/Plug-Ins/VST3";

/// The synth's instrument bundle.
pub const SURGE_VST3: &'static str = "Surge XT.vst3";

/// The synth's effects bundle.
pub const SURGE_FX_VST3: &'static str = "Surge XT Effects.vst3";

/// The standalone app, system-wide.
pub const SYSTEM_SURGE_APP: &'static str = "/Applications/Surge XT.app";

/// The standalone app, relative to the home directory.
pub const USER_SURGE_APP: &'static str = "Applications/Surge XT.app";

/// `rel`, a relative path, appended to `base` with one separator.
pub open spec fn joined(base: Seq<char>, rel: Seq<char>) -> Seq<char> {
    if base.len() == 0 || base.last() == '/' {
        base + rel
    } else {
        base + seq!['/'] + rel
    }
}

/// Appends the relative path `rel` to `base`.
pub fn join_path(base: &str, rel: &str) -> (r: String)
    ensures
        r@ == joined(base@, rel@),
{
    let n = base.unicode_len();
    let mut r = String::from_str(base);
    if n == 0 || base.get_char(n - 1) == '/' {
        r.append(rel);
    } else {
        r.append("/");
        proof {
            reveal_strlit("/");
        }
        r.append(rel);
        assert(r@ =~= base@ + seq!['/'] + rel@);
    }
    r
}

/// The folders scanned for plugins: the user's, then the system's.
pub fn vst_scan_dirs(home: &str) -> (r: Vec<String>)
    ensures
        r@.len() == 2,
        r@[0]@ == joined(home@, USER_VST3_DIR@),
        r@[1]@ == SYSTEM_VST3_DIR@,
{
    vec![join_path(home, USER_VST3_DIR), String::from_str(SYSTEM_VST3_DIR)]
}

/// The user's plugin folder, and in it the synth's instrument and effects
/// bundles.
pub fn surge_plugin_paths(home: &str) -> (r: (String, String, String))
    ensures
        r.0@ == joined(home@, USER_VST3_DIR@),
        r.1@ == joined(r.0@, SURGE_VST3@),
        r.2@ == joined(r.0@, SURGE_FX_VST3@),
{
    let dir = join_path(home, USER_VST3_DIR);
    let vst3 = join_path(dir.as_str(), SURGE_VST3);
    let fx = join_path(dir.as_str(), SURGE_FX_VST3);
    (dir, vst3, fx)
}

/// Where the standalone app may be, in the order it is looked for.
pub fn surge_app_paths(home: &str) -> (r: Vec<String>)
    ensures
        r@.len() == 2,
        r@[0]@ == SYSTEM_SURGE_APP@,
        r@[1]@ == joined(home@, USER_SURGE_APP@),
{
    vec![String::from_str(SYSTEM_SURGE_APP), join_path(home, USER_SURGE_APP)]
}

/// Both the plugins and the standalone app were found.
pub const MSG_ALL_FOUND: &'static str = "Surge XT plugins and standalone app are available";

/// A plugin was found, the standalone app was not.
pub const MSG_NO_APP: &'static str = "Surge XT VST3 detected, standalone app is missing (host required)";

/// No plugin was found.
pub const MSG_NO_PLUGIN: &'static str = "Surge XT VST3 not found in ~/Library/Audio/Plug-Ins/VST3";

/// The status line for what was found.
pub open spec fn status_message(plugin_found: bool, app_found: bool) -> Seq<char> {
    if plugin_found {
        if app_found {
            MSG_ALL_FOUND@
        } else {
            MSG_NO_APP@
        }
    } else {
        MSG_NO_PLUGIN@
    }
}

/// An optional string as an optional character sequence.
pub open spec fn opt_view(o: Option<String>) -> Option<Seq<char>> {
    match o {
        Some(s) => Some(s@),
        None => None,
    }
}

/// What is installed of the synth.
pub struct SynthPluginStatus {
    pub surge_vst3: bool,
    pub surge_fx_vst3: bool,
    pub surge_app: bool,
    pub plugin_dir: String,
    pub found_paths: Vec<String>,
    pub message: String,
}

/// The paths of what was found, in the order instrument, effects, app.
pub open spec fn found_list(
    vst3: Seq<char>,
    vst3_exists: bool,
    fx: Seq<char>,
    fx_exists: bool,
    app: Option<Seq<char>>,
) -> Seq<Seq<char>> {
    let a = if vst3_exists { seq![vst3] } else { Seq::empty() };
    let b = if fx_exists { a.push(fx) } else { a };
    match app {
        Some(p) => b.push(p),
        None => b,
    }
}

/// Summarises what was found: the plugin bundles that exist, and the first
/// place the standalone app exists, if any.
pub fn synth_status(
    plugin_dir: String,
    vst3: String,
    vst3_exists: bool,
    fx: String,
    fx_exists: bool,
    app_path: Option<String>,
) -> (r: SynthPluginStatus)
    ensures
        r.surge_vst3 == vst3_exists,
        r.surge_fx_vst3 == fx_exists,
        r.surge_app == app_path.is_some(),
        r.plugin_dir@ == plugin_dir@,
        r.found_paths@.map_values(|s: String| s@) == found_list(
            vst3@,
            vst3_exists,
            fx@,
            fx_exists,
            opt_view(app_path),
        ),
        r.message@ == status_message(vst3_exists || fx_exists, app_path.is_some()),
{
    let ghost app_view = opt_view(app_path);
    let surge_app = app_path.is_some();
    let mut found_paths: Vec<String> = Vec::new();
    if vst3_exists {
        found_paths.push(vst3);
    }
    if fx_exists {
        found_paths.push(fx);
    }
    match app_path {
        Some(p) => found_paths.push(p),
        None => {},
    }
    assert(found_paths@.map_values(|s: String| s@) =~= found_list(
        vst3@,
        vst3_exists,
        fx@,
        fx_exists,
        app_view,
    ));
    let message = if vst3_exists || fx_exists {
        if surge_app {
            String::from_str(MSG_ALL_FOUND)
        } else {
            String::from_str(MSG_NO_APP)
        }
    } else {
        String::from_str(MSG_NO_PLUGIN)
    };
    SynthPluginStatus {
        surge_vst3: vst3_exists,
        surge_fx_vst3: fx_exists,
        surge_app,
        plugin_dir,
        found_paths,
        message,
    }
}

} // verus!

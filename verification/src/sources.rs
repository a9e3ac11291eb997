//! What each source, filter and output of the recording engine is called, and
//! the settings it is made with.

use crate::config::{config_mut, in_force, ConfigView, EmberioConfig, OverlayKind};
use crate::settings::{stored, Saved};
use crate::single::{Single, ONE, ZERO};
use crate::text::{joined, forward_slashes, same_text, slashed};
use vstd::prelude::*;

verus! {

/// The value of a setting.
#[derive(Debug)]
pub enum SettingValue {
    Text(String),
    Number(i64),
    Real(Single),
}

/// A setting of a source, filter or output.
#[derive(Debug)]
pub struct Setting {
    pub key: &'static str,
    pub value: SettingValue,
}

/// What a [`SettingValue`] holds.
#[verifier::ext_equal]
pub enum ValueView {
    Text(Seq<char>),
    Number(i64),
    Real(Single),
}

/// What a [`Setting`] holds: its key, and its value.
pub open spec fn setting_view(s: Setting) -> (Seq<char>, ValueView) {
    (
        s.key@,
        match s.value {
            SettingValue::Text(t) => ValueView::Text(t@),
            SettingValue::Number(n) => ValueView::Number(n),
            SettingValue::Real(r) => ValueView::Real(r),
        },
    )
}

/// What a list of settings holds.
pub open spec fn settings_view(list: Seq<Setting>) -> Seq<(Seq<char>, ValueView)> {
    list.map_values(|s: Setting| setting_view(s))
}

/// A source or filter that the engine is asked for.
#[derive(Debug)]
pub struct SourceRequest {
    pub plugin: &'static str,
    pub name: String,
    pub settings: Vec<Setting>,
}

fn text_setting(key: &'static str, value: &str) -> (r: Setting)
    ensures
        setting_view(r) == (key@, ValueView::Text(value@)),
{
    Setting { key, value: SettingValue::Text(value.to_owned()) }
}

fn number_setting(key: &'static str, value: i64) -> (r: Setting)
    ensures
        setting_view(r) == (key@, ValueView::Number(value)),
{
    Setting { key, value: SettingValue::Number(value) }
}

// ---------------------------------------------------------------------------
// Capture of the screen, a window or a game

/// The source that captures this type of picture: a window, a game, or else
/// the screen.
pub open spec fn capture_plugin_spec(source_type: Seq<char>) -> Seq<char> {
    if source_type == "window"@ {
        "window_capture"@
    } else if source_type == "game"@ {
        "game_capture"@
    } else {
        "monitor_capture"@
    }
}

/// The source that captures this type of picture.
pub fn capture_plugin(source_type: &str) -> (r: &'static str)
    ensures
        r@ == capture_plugin_spec(source_type@),
{
    if same_text(source_type, "window") {
        "window_capture"
    } else if same_text(source_type, "game") {
        "game_capture"
    } else {
        "monitor_capture"
    }
}

/// The setting that tells a capture source what to capture.
pub open spec fn capture_key_spec(plugin: Seq<char>) -> Seq<char> {
    if plugin == "monitor_capture"@ {
        "monitor_id"@
    } else {
        "window"@
    }
}

/// The setting that tells a capture source what to capture.
pub fn capture_key(plugin: &str) -> (r: &'static str)
    ensures
        r@ == capture_key_spec(plugin@),
{
    if same_text(plugin, "monitor_capture") {
        "monitor_id"
    } else {
        "window"
    }
}

/// The settings of a capture source: what it captures; a window is captured by
/// method 2, and a game by its window.
pub open spec fn capture_settings_spec(plugin: Seq<char>, source_id: Seq<char>) -> Seq<
    (Seq<char>, ValueView),
> {
    let target = seq![(capture_key_spec(plugin), ValueView::Text(source_id))];
    if plugin == "monitor_capture"@ {
        target
    } else if plugin == "window_capture"@ {
        target.push(("method"@, ValueView::Number(2)))
    } else if plugin == "game_capture"@ {
        target.push(("capture_mode"@, ValueView::Text("window"@)))
    } else {
        target
    }
}

/// The settings of a capture source.
pub fn build_capture_settings(plugin: &str, source_id: &str) -> (r: Vec<Setting>)
    ensures
        settings_view(r@) == capture_settings_spec(plugin@, source_id@),
{
    let mut list: Vec<Setting> = Vec::new();
    list.push(text_setting(capture_key(plugin), source_id));
    if !same_text(plugin, "monitor_capture") {
        if same_text(plugin, "window_capture") {
            list.push(number_setting("method", 2));
        } else if same_text(plugin, "game_capture") {
            list.push(text_setting("capture_mode", "window"));
        }
    }
    assert(settings_view(list@) =~= capture_settings_spec(plugin@, source_id@));
    list
}

/// The settings of the capture that a start makes: none where nothing has been
/// chosen and nothing can be.
pub fn initial_capture_settings(plugin: &str, source_id: &Option<String>) -> (r: Vec<Setting>)
    ensures
        settings_view(r@) == (match *source_id {
            Some(id) => capture_settings_spec(plugin@, id@),
            None => seq![],
        }),
{
    match source_id {
        Some(id) => build_capture_settings(plugin, id.as_str()),
        None => {
            let list: Vec<Setting> = Vec::new();
            assert(settings_view(list@) =~= seq![]);
            list
        },
    }
}

// ---------------------------------------------------------------------------
// Overlays

/// The source that shows an overlay of this kind.
pub open spec fn overlay_plugin_spec(kind: OverlayKind) -> Seq<char> {
    match kind {
        OverlayKind::Image => "image_source"@,
        OverlayKind::Text => "text_ft2_source"@,
        OverlayKind::Browser => "browser_source"@,
    }
}

/// The source that shows an overlay of this kind.
pub fn overlay_plugin(kind: OverlayKind) -> (r: &'static str)
    ensures
        r@ == overlay_plugin_spec(kind),
{
    match kind {
        OverlayKind::Image => "image_source",
        OverlayKind::Text => "text_ft2_source",
        OverlayKind::Browser => "browser_source",
    }
}

/// The name of an overlay's source.
pub fn overlay_name(kind: OverlayKind) -> (r: String)
    ensures
        r@ == "Overlay ("@ + overlay_plugin_spec(kind) + ")"@,
{
    let mut name = joined("Overlay (", overlay_plugin(kind));
    name.append(")");
    name
}

/// The settings of an overlay: what it shows; a web page also has a size.
pub open spec fn overlay_settings_spec(kind: OverlayKind, content: Seq<char>) -> Seq<
    (Seq<char>, ValueView),
> {
    match kind {
        OverlayKind::Image => seq![("file"@, ValueView::Text(content))],
        OverlayKind::Text => seq![("text"@, ValueView::Text(content))],
        OverlayKind::Browser => seq![
            ("url"@, ValueView::Text(content)),
            ("width"@, ValueView::Number(800)),
            ("height"@, ValueView::Number(600)),
        ],
    }
}

/// The settings of an overlay.
pub fn overlay_settings(kind: OverlayKind, content: &str) -> (r: Vec<Setting>)
    ensures
        settings_view(r@) == overlay_settings_spec(kind, content@),
{
    let mut list: Vec<Setting> = Vec::new();
    match kind {
        OverlayKind::Image => list.push(text_setting("file", content)),
        OverlayKind::Text => list.push(text_setting("text", content)),
        OverlayKind::Browser => {
            list.push(text_setting("url", content));
            list.push(number_setting("width", 800));
            list.push(number_setting("height", 600));
        },
    }
    assert(settings_view(list@) =~= overlay_settings_spec(kind, content@));
    list
}

/// An opacity kept between invisible and opaque.
pub open spec fn clamped_opacity(opacity: Single) -> Single {
    opacity.clamp_spec(Single { bits: ZERO }, Single { bits: ONE })
}

/// The settings of the filter that makes an overlay translucent.
pub fn opacity_settings(opacity: Single) -> (r: Vec<Setting>)
    ensures
        settings_view(r@) == seq![("opacity"@, ValueView::Real(clamped_opacity(opacity)))],
{
    let mut list: Vec<Setting> = Vec::new();
    let value = SettingValue::Real(opacity.clamp(Single { bits: ZERO }, Single { bits: ONE }));
    list.push(Setting { key: "opacity", value });
    assert(settings_view(list@) =~= seq![("opacity"@, ValueView::Real(clamped_opacity(opacity)))]);
    list
}

/// The filter that makes an overlay translucent. It is the second version of
/// the colour filter: the first reads the opacity as a percentage, and 1.0 would
/// be all but invisible.
pub fn opacity_filter_request(opacity: Single) -> (r: SourceRequest)
    ensures
        r.plugin@ == "color_filter_v2"@,
        r.name@ == "Ember Opacidad"@,
        settings_view(r.settings@) == seq![
            ("opacity"@, ValueView::Real(clamped_opacity(opacity))),
        ],
{
    SourceRequest {
        plugin: "color_filter_v2",
        name: "Ember Opacidad".to_owned(),
        settings: opacity_settings(opacity),
    }
}

// ---------------------------------------------------------------------------
// Audio and the replay buffer

/// The settings of an audio source: its device.
pub fn audio_settings(device_id: &str) -> (r: Vec<Setting>)
    ensures
        settings_view(r@) == seq![("device_id"@, ValueView::Text(device_id@))],
{
    let mut list: Vec<Setting> = Vec::new();
    list.push(text_setting("device_id", device_id));
    assert(settings_view(list@) =~= seq![("device_id"@, ValueView::Text(device_id@))]);
    list
}

/// The settings of the replay buffer: where clips go, how they are named, and
/// how much is kept.
pub open spec fn replay_settings_spec(clips_dir: Seq<char>, clip_seconds: i64) -> Seq<
    (Seq<char>, ValueView),
> {
    seq![
        ("directory"@, ValueView::Text(slashed(clips_dir))),
        ("format"@, ValueView::Text("ember-clip-%CCYY-%MM-%DD-%hh-%mm-%ss"@)),
        ("extension"@, ValueView::Text("mp4"@)),
        ("max_time_sec"@, ValueView::Number(clip_seconds)),
        ("max_size_mb"@, ValueView::Number(1000)),
    ]
}

/// The settings of the replay buffer.
pub fn replay_settings(clips_dir: &str, clip_seconds: i64) -> (r: Vec<Setting>)
    ensures
        settings_view(r@) == replay_settings_spec(clips_dir@, clip_seconds),
{
    let mut list: Vec<Setting> = Vec::new();
    list.push(text_setting("directory", forward_slashes(clips_dir).as_str()));
    list.push(text_setting("format", "ember-clip-%CCYY-%MM-%DD-%hh-%mm-%ss"));
    list.push(text_setting("extension", "mp4"));
    list.push(number_setting("max_time_sec", clip_seconds));
    list.push(number_setting("max_size_mb", 1000));
    assert(settings_view(list@) =~= replay_settings_spec(clips_dir@, clip_seconds));
    list
}

// ---------------------------------------------------------------------------
// Choices that a source offers

/// A choice of a list: what it is called, and the value that picks it.
#[derive(Debug)]
pub struct PropertyOption {
    pub name: String,
    pub value: String,
}

/// What a [`PropertyOption`] holds.
#[verifier::ext_equal]
pub struct OptionView {
    pub name: Seq<char>,
    pub value: Seq<char>,
}

impl View for PropertyOption {
    type V = OptionView;

    open spec fn view(&self) -> OptionView {
        OptionView { name: self.name@, value: self.value@ }
    }
}

/// What a list of choices holds.
pub open spec fn option_views(list: Seq<PropertyOption>) -> Seq<OptionView> {
    list.map_values(|o: PropertyOption| o@)
}

/// The text, or nothing where there is none.
pub open spec fn or_empty(s: Option<String>) -> Seq<char> {
    match s {
        Some(t) => t@,
        None => seq![],
    }
}

fn text_or_empty(s: &Option<String>) -> (r: String)
    ensures
        r@ == or_empty(*s),
{
    match s {
        Some(t) => t.clone(),
        None => String::new(),
    }
}

/// The choices of a source, from the names and values that it reports, either
/// of which can be missing.
pub fn list_property_options(reported: &Vec<(Option<String>, Option<String>)>) -> (r: Vec<
    PropertyOption,
>)
    ensures
        r@.len() == reported@.len(),
        forall|i: int|
            0 <= i < r@.len() ==> #[trigger] r@[i]@ == (OptionView {
                name: or_empty(reported@[i].0),
                value: or_empty(reported@[i].1),
            }),
{
    let mut list: Vec<PropertyOption> = Vec::new();
    let mut i: usize = 0;
    while i < reported.len()
        invariant
            i <= reported.len(),
            list@.len() == i,
            forall|k: int|
                0 <= k < i ==> #[trigger] list@[k]@ == (OptionView {
                    name: or_empty(reported@[k].0),
                    value: or_empty(reported@[k].1),
                }),
        decreases reported.len() - i,
    {
        let name = text_or_empty(&reported[i].0);
        let value = text_or_empty(&reported[i].1);
        list.push(PropertyOption { name, value });
        i = i + 1;
    }
    list
}

/// Where no picture has been chosen yet, the first that the source offers is
/// chosen. Returns it, with the configuration that goes to disk; `None` where
/// the source offers nothing.
pub fn choose_first_source(slot: &mut Option<EmberioConfig>, options: &Vec<PropertyOption>) -> (r:
    Option<Saved<String>>)
    ensures
        r is Some <==> options@.len() > 0,
        r is None ==> *final(slot) == *old(slot),
        r matches Some(s) ==> {
            &&& s.value@ == options@[0]@.value
            &&& stored(
                *final(slot),
                s.config,
                ConfigView { video_source_id: Some(options@[0]@.value), ..in_force(*old(slot)) },
            )
        },
{
    if options.len() == 0 {
        return None;
    }
    let value = options[0].value.clone();
    let c = config_mut(slot);
    c.video_source_id = Some(value.clone());
    Some(Saved { value, config: c.clone() })
}

/// A text that a procedure of the engine gave back: none where it set none, or
/// an empty one.
pub fn returned_text(has_value: bool, text: Option<String>) -> (r: Option<String>)
    ensures
        r == (if has_value && text is Some && text->0@.len() > 0 {
            text
        } else {
            None
        }),
{
    match text {
        Some(t) => if has_value && !t.as_str().is_empty() {
            Some(t)
        } else {
            None
        },
        None => None,
    }
}

/// The version of the engine, as the window shows it.
pub fn version_text(reported: Option<String>) -> (r: String)
    ensures
        r@ == (match reported {
            Some(v) => v@,
            None => "obs_get_version_string() devolvio null"@,
        }),
{
    match reported {
        Some(v) => v,
        None => "obs_get_version_string() devolvio null".to_owned(),
    }
}

// ---------------------------------------------------------------------------
// Laws

/// A window is captured by the window source, a game by the game source, and
/// anything else by the source for a screen.
pub proof fn each_type_has_its_source(source_type: Seq<char>)
    ensures
        source_type == "window"@ ==> capture_plugin_spec(source_type) == "window_capture"@,
        source_type == "game"@ ==> capture_plugin_spec(source_type) == "game_capture"@,
        source_type != "window"@ && source_type != "game"@ ==> capture_plugin_spec(source_type)
            == "monitor_capture"@,
{
    lemma_capture_names_differ();
}

proof fn lemma_capture_names_differ()
    ensures
        "window"@ != "game"@,
        "window_capture"@ != "game_capture"@,
        "window_capture"@ != "monitor_capture"@,
        "game_capture"@ != "monitor_capture"@,
{
    reveal_strlit("window");
    reveal_strlit("game");
    reveal_strlit("window_capture");
    reveal_strlit("game_capture");
    reveal_strlit("monitor_capture");
    assert("window"@[0] == 'w' && "game"@[0] == 'g');
    assert("window_capture"@[0] == 'w' && "game_capture"@[0] == 'g' && "monitor_capture"@[0] == 'm');
}

/// Whatever is captured, the source is told what was chosen, under the name it
/// knows: a screen by its monitor, a window or a game by its window. A window is
/// captured by the second method, and a game in the mode for one window.
pub proof fn the_source_is_told_what_was_chosen(source_type: Seq<char>, id: Seq<char>)
    ensures
        ({
            let plugin = capture_plugin_spec(source_type);
            let list = capture_settings_spec(plugin, id);
            &&& list.len() > 0
            &&& list[0] == (capture_key_spec(plugin), ValueView::Text(id))
            &&& source_type == "window"@ ==> list == seq![
                ("window"@, ValueView::Text(id)),
                ("method"@, ValueView::Number(2)),
            ]
            &&& source_type == "game"@ ==> list == seq![
                ("window"@, ValueView::Text(id)),
                ("capture_mode"@, ValueView::Text("window"@)),
            ]
            &&& source_type != "window"@ && source_type != "game"@ ==> list == seq![
                ("monitor_id"@, ValueView::Text(id)),
            ]
        }),
{
    lemma_capture_names_differ();
    let plugin = capture_plugin_spec(source_type);
    let list = capture_settings_spec(plugin, id);
    if source_type == "window"@ {
        assert(list =~= seq![("window"@, ValueView::Text(id)), ("method"@, ValueView::Number(2))]);
    } else if source_type == "game"@ {
        assert(list =~= seq![
            ("window"@, ValueView::Text(id)),
            ("capture_mode"@, ValueView::Text("window"@)),
        ]);
    }
}

/// An overlay shows its content: a picture its file, a text its words, a page its
/// address; a page is 800 by 600, and nothing else has a size.
pub proof fn an_overlay_shows_its_content(kind: OverlayKind, content: Seq<char>)
    ensures
        ({
            let list = overlay_settings_spec(kind, content);
            &&& list.len() > 0
            &&& list[0].1 == ValueView::Text(content)
            &&& kind is Image ==> list[0].0 == "file"@ && list.len() == 1
            &&& kind is Text ==> list[0].0 == "text"@ && list.len() == 1
            &&& kind is Browser ==> list[0].0 == "url"@ && list.len() == 3 && list[1] == (
                "width"@,
                ValueView::Number(800),
            ) && list[2] == ("height"@, ValueView::Number(600))
        }),
{
}

/// Each kind of overlay has a source of its own.
pub proof fn each_kind_has_its_source(a: OverlayKind, b: OverlayKind)
    ensures
        overlay_plugin_spec(a) == overlay_plugin_spec(b) ==> a == b,
{
    reveal_strlit("image_source");
    reveal_strlit("text_ft2_source");
    reveal_strlit("browser_source");
    assert("image_source"@.len() == 12 && "text_ft2_source"@.len() == 15 && "browser_source"@.len()
        == 14);
}

/// An opacity is between invisible and opaque, one that was there already is as
/// it came, one outside goes to the nearer end, and more opaque stays more opaque.
pub proof fn opacities_stay_in_range(a: Single, b: Single)
    requires
        !a.is_nan_spec(),
    ensures
        (Single { bits: ZERO }).le_spec(clamped_opacity(a)),
        clamped_opacity(a).le_spec(Single { bits: ONE }),
        (Single { bits: ZERO }).le_spec(a) && a.le_spec(Single { bits: ONE }) ==> clamped_opacity(a)
            == a,
        a.lt_spec(Single { bits: ZERO }) ==> clamped_opacity(a).bits == ZERO,
        (Single { bits: ONE }).lt_spec(a) ==> clamped_opacity(a).bits == ONE,
        a.le_spec(b) ==> clamped_opacity(a).le_spec(clamped_opacity(b)),
{
    crate::single::lemma_one_is_above_zero();
    crate::single::clamp_lands_between(a, Single { bits: ZERO }, Single { bits: ONE });
    crate::single::clamp_moves_to_the_nearer_end(a, b, Single { bits: ZERO }, Single { bits: ONE });
}

/// The replay buffer keeps as many seconds as asked for, and writes its clips as
/// MP4 into the folder given, whose path has slashes alone.
pub proof fn clips_go_where_they_should(dir: Seq<char>, seconds: i64, i: int)
    ensures
        ({
            let list = replay_settings_spec(dir, seconds);
            &&& list.contains(("max_time_sec"@, ValueView::Number(seconds)))
            &&& list.contains(("max_size_mb"@, ValueView::Number(1000)))
            &&& list.contains(("extension"@, ValueView::Text("mp4"@)))
            &&& list.contains(
                ("format"@, ValueView::Text("ember-clip-%CCYY-%MM-%DD-%hh-%mm-%ss"@)),
            )
            &&& list[0].0 == "directory"@
            &&& list[0].1 matches ValueView::Text(d)
            &&& d.len() == dir.len()
            &&& 0 <= i < d.len() ==> d[i] == (if dir[i] == '\\' {
                '/'
            } else {
                dir[i]
            })
            &&& list.len() == 5
        }),
{
    let list = replay_settings_spec(dir, seconds);
    assert(list[1].0 == "format"@ && list[2].0 == "extension"@);
    assert(list[3] == ("max_time_sec"@, ValueView::Number(seconds)));
    assert(list[4] == ("max_size_mb"@, ValueView::Number(1000)));
}

/// A setting shows its key and its value, of the kind that it is.
pub proof fn a_setting_shows_its_key_and_value(s: Setting)
    ensures
        setting_view(s).0 == s.key@,
        s.value matches SettingValue::Text(t) ==> setting_view(s).1 == ValueView::Text(t@),
        s.value matches SettingValue::Number(n) ==> setting_view(s).1 == ValueView::Number(n),
        s.value matches SettingValue::Real(r) ==> setting_view(s).1 == ValueView::Real(r),
{
}

/// Settings are shown in their order, and so are choices, each with its own name
/// and value.
pub proof fn lists_are_shown_in_order(
    settings: Seq<Setting>,
    options: Seq<PropertyOption>,
    i: int,
)
    ensures
        settings_view(settings).len() == settings.len(),
        0 <= i < settings.len() ==> settings_view(settings)[i] == setting_view(settings[i]),
        option_views(options).len() == options.len(),
        0 <= i < options.len() ==> option_views(options)[i].name == options[i].name@
            && option_views(options)[i].value == options[i].value@,
{
}

/// A text that is there is taken as it is, and a missing one is empty.
pub proof fn a_missing_text_is_empty(t: String)
    ensures
        or_empty(Some(t)) == t@,
        or_empty(None).len() == 0,
{
}

} // verus!

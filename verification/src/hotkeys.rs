//! Global shortcuts: which keys are bound, and when one has been pressed.
//!
//! The physical state of the keyboard is sampled at short intervals, so that a
//! shortcut works whatever window has the focus. A shortcut fires when its
//! combination goes down, and not again until it has been let go.

use crate::config::{config_mut, in_force, ConfigView, EmberioConfig, HotkeyConfig};
use crate::settings::{stored, Saved};
use crate::text::{joined, decimal, decimal_i64};
use vstd::prelude::*;

verus! {

/// The key that saves a clip unless another is chosen: F9.
pub const DEFAULT_HOTKEY_VK_F9: i32 = 0x78;

/// The key that starts and stops recording unless another is chosen: F10.
pub const DEFAULT_TOGGLE_HOTKEY_VK_F10: i32 = 0x79;

/// The virtual key of Shift.
pub const VK_SHIFT: i32 = 0x10;

/// The virtual key of Control.
pub const VK_CONTROL: i32 = 0x11;

/// The virtual key of Alt.
pub const VK_MENU: i32 = 0x12;

/// A bound combination.
#[derive(Clone, Copy, PartialEq, Eq, Structural, Debug)]
pub struct HotkeyBinding {
    pub vk_code: i32,
    pub ctrl: bool,
    pub shift: bool,
    pub alt: bool,
}

/// The two shortcuts.
#[derive(Clone, Copy, PartialEq, Eq, Structural, Debug)]
pub struct Hotkeys {
    /// Shortcut number 1: save a clip.
    pub save: Option<HotkeyBinding>,
    /// Shortcut number 2: start or stop recording.
    pub toggle: Option<HotkeyBinding>,
}

impl Hotkeys {
    /// No shortcut bound.
    pub fn none() -> (r: Self)
        ensures
            r == (Hotkeys { save: None, toggle: None }),
    {
        Hotkeys { save: None, toggle: None }
    }
}

/// The shortcuts with number `id` bound anew; any other number binds nothing.
pub open spec fn rebound(hotkeys: Hotkeys, id: i32, binding: HotkeyBinding) -> Hotkeys {
    if id == 1 {
        Hotkeys { save: Some(binding), ..hotkeys }
    } else if id == 2 {
        Hotkeys { toggle: Some(binding), ..hotkeys }
    } else {
        hotkeys
    }
}

/// Binds shortcut number `id`.
pub fn register_native_hotkey(
    hotkeys: &mut Hotkeys,
    id: i32,
    vk_code: i32,
    ctrl: bool,
    shift: bool,
    alt: bool,
)
    ensures
        *final(hotkeys) == rebound(
            *old(hotkeys),
            id,
            HotkeyBinding { vk_code, ctrl, shift, alt },
        ),
{
    let binding = HotkeyBinding { vk_code, ctrl, shift, alt };
    if id == 1 {
        hotkeys.save = Some(binding);
    } else if id == 2 {
        hotkeys.toggle = Some(binding);
    }
}

// ---------------------------------------------------------------------------
// Sampling

/// Reads a key state of Windows: the key is down where the top bit is set,
/// that is, where the number is negative.
pub fn key_is_down(state: i16) -> (r: bool)
    ensures
        r == (state < 0),
{
    assert(((state as u16) & 0x8000u16 != 0) == (state < 0)) by (bit_vector);
    (state as u16) & 0x8000 != 0
}

/// Which keys of a combination are down in one sample.
#[derive(Clone, Copy, PartialEq, Eq, Structural, Debug)]
pub struct KeySample {
    /// The key itself.
    pub key: bool,
    pub ctrl: bool,
    pub shift: bool,
    pub alt: bool,
}

/// The combination is down: its key is, and exactly its modifiers are.
pub open spec fn combo_down(b: HotkeyBinding, s: KeySample) -> bool {
    s.key && s.ctrl == b.ctrl && s.shift == b.shift && s.alt == b.alt
}

/// A shortcut is down: it is bound, and its combination is down.
pub open spec fn shortcut_down(binding: Option<HotkeyBinding>, s: KeySample) -> bool {
    match binding {
        Some(b) => combo_down(b, s),
        None => false,
    }
}

/// Tells whether a combination is down.
pub fn combo_is_down(b: &HotkeyBinding, s: KeySample) -> (r: bool)
    ensures
        r == combo_down(*b, s),
{
    s.key && s.ctrl == b.ctrl && s.shift == b.shift && s.alt == b.alt
}

fn shortcut_is_down(binding: &Option<HotkeyBinding>, s: KeySample) -> (r: bool)
    ensures
        r == shortcut_down(*binding, s),
{
    match binding {
        Some(b) => combo_is_down(b, s),
        None => false,
    }
}

/// A shortcut fires in a sample: it is down, and was not in the sample before.
pub open spec fn fires(down: bool, was_down: bool) -> bool {
    down && !was_down
}

/// What the last sample saw.
#[derive(Clone, Copy, PartialEq, Eq, Structural, Debug)]
pub struct HotkeyPoller {
    pub save_was_down: bool,
    pub toggle_was_down: bool,
}

/// The shortcuts that fire in a sample.
#[derive(Clone, Copy, PartialEq, Eq, Structural, Debug)]
pub struct Fired {
    pub save: bool,
    pub toggle: bool,
}

impl HotkeyPoller {
    /// Before the first sample no shortcut is down.
    pub fn new() -> (r: Self)
        ensures
            r == (HotkeyPoller { save_was_down: false, toggle_was_down: false }),
    {
        HotkeyPoller { save_was_down: false, toggle_was_down: false }
    }

    /// Takes one sample of the keys of both shortcuts.
    pub fn poll(&mut self, hotkeys: &Hotkeys, save: KeySample, toggle: KeySample) -> (r: Fired)
        ensures
            r.save == fires(shortcut_down(hotkeys.save, save), old(self).save_was_down),
            r.toggle == fires(shortcut_down(hotkeys.toggle, toggle), old(self).toggle_was_down),
            final(self).save_was_down == shortcut_down(hotkeys.save, save),
            final(self).toggle_was_down == shortcut_down(hotkeys.toggle, toggle),
    {
        let save_down = shortcut_is_down(&hotkeys.save, save);
        let toggle_down = shortcut_is_down(&hotkeys.toggle, toggle);
        let fired = Fired {
            save: save_down && !self.save_was_down,
            toggle: toggle_down && !self.toggle_was_down,
        };
        self.save_was_down = save_down;
        self.toggle_was_down = toggle_down;
        fired
    }
}

// ---------------------------------------------------------------------------
// Binding from the window and from the configuration

/// A binding as the configuration keeps it.
pub open spec fn binding_of(h: HotkeyConfig) -> HotkeyBinding {
    HotkeyBinding { vk_code: h.vk_code, ctrl: h.ctrl, shift: h.shift, alt: h.alt }
}

/// A key without modifiers.
pub open spec fn plain_key(vk_code: i32) -> HotkeyBinding {
    HotkeyBinding { vk_code, ctrl: false, shift: false, alt: false }
}

/// The shortcuts of a configuration: the chosen ones, F9 and F10 otherwise.
pub open spec fn hotkeys_of(c: ConfigView) -> Hotkeys {
    Hotkeys {
        save: Some(
            match c.hotkey {
                Some(h) => binding_of(h),
                None => plain_key(DEFAULT_HOTKEY_VK_F9),
            },
        ),
        toggle: Some(
            match c.hotkey_toggle {
                Some(h) => binding_of(h),
                None => plain_key(DEFAULT_TOGGLE_HOTKEY_VK_F10),
            },
        ),
    }
}

/// Binds the shortcuts at the start of the application.
pub fn initial_hotkeys(config: &EmberioConfig) -> (r: Hotkeys)
    ensures
        r == hotkeys_of(config@),
{
    let mut hotkeys = Hotkeys::none();
    match config.hotkey {
        Some(h) => register_native_hotkey(&mut hotkeys, 1, h.vk_code, h.ctrl, h.shift, h.alt),
        None => register_native_hotkey(&mut hotkeys, 1, DEFAULT_HOTKEY_VK_F9, false, false, false),
    }
    match config.hotkey_toggle {
        Some(h) => register_native_hotkey(&mut hotkeys, 2, h.vk_code, h.ctrl, h.shift, h.alt),
        None => register_native_hotkey(
            &mut hotkeys,
            2,
            DEFAULT_TOGGLE_HOTKEY_VK_F10,
            false,
            false,
            false,
        ),
    }
    hotkeys
}

/// `text` where `shown`, nothing otherwise.
pub open spec fn only_if(shown: bool, text: Seq<char>) -> Seq<char> {
    if shown {
        text
    } else {
        seq![]
    }
}

/// A combination in words.
pub open spec fn combo_text(h: HotkeyConfig) -> Seq<char> {
    only_if(h.ctrl, "Ctrl+"@) + only_if(h.shift, "Shift+"@) + only_if(h.alt, "Alt+"@) + "vk="@
        + decimal(h.vk_code as int)
}

fn describe_combo(h: HotkeyConfig) -> (r: String)
    ensures
        r@ == combo_text(h),
{
    let mut out = String::new();
    if h.ctrl {
        out.append("Ctrl+");
    }
    if h.shift {
        out.append("Shift+");
    }
    if h.alt {
        out.append("Alt+");
    }
    out.append("vk=");
    out.append(decimal_i64(h.vk_code as i64).as_str());
    assert(out@ =~= combo_text(h));
    out
}

/// Chooses the shortcut that saves a clip.
pub fn set_save_hotkey(
    hotkeys: &mut Hotkeys,
    slot: &mut Option<EmberioConfig>,
    vk_code: i32,
    ctrl: bool,
    shift: bool,
    alt: bool,
) -> (r: Saved<String>)
    ensures
        ({
            let h = HotkeyConfig { vk_code, ctrl, shift, alt };
            &&& *final(hotkeys) == (Hotkeys { save: Some(binding_of(h)), ..*old(hotkeys) })
            &&& stored(
                *final(slot),
                r.config,
                ConfigView { hotkey: Some(h), ..in_force(*old(slot)) },
            )
            &&& r.value@ == "Hotkey de guardado ahora es: "@ + combo_text(h)
        }),
{
    register_native_hotkey(hotkeys, 1, vk_code, ctrl, shift, alt);
    let h = HotkeyConfig { vk_code, ctrl, shift, alt };
    let c = config_mut(slot);
    c.hotkey = Some(h);
    let value = joined("Hotkey de guardado ahora es: ", describe_combo(h).as_str());
    Saved { value, config: c.clone() }
}

/// Chooses the shortcut that starts and stops recording.
pub fn set_toggle_hotkey(
    hotkeys: &mut Hotkeys,
    slot: &mut Option<EmberioConfig>,
    vk_code: i32,
    ctrl: bool,
    shift: bool,
    alt: bool,
) -> (r: Saved<String>)
    ensures
        ({
            let h = HotkeyConfig { vk_code, ctrl, shift, alt };
            &&& *final(hotkeys) == (Hotkeys { toggle: Some(binding_of(h)), ..*old(hotkeys) })
            &&& stored(
                *final(slot),
                r.config,
                ConfigView { hotkey_toggle: Some(h), ..in_force(*old(slot)) },
            )
            &&& r.value@ == "Hotkey de encendido/apagado ahora es: "@ + combo_text(h)
        }),
{
    register_native_hotkey(hotkeys, 2, vk_code, ctrl, shift, alt);
    let h = HotkeyConfig { vk_code, ctrl, shift, alt };
    let c = config_mut(slot);
    c.hotkey_toggle = Some(h);
    let value = joined("Hotkey de encendido/apagado ahora es: ", describe_combo(h).as_str());
    Saved { value, config: c.clone() }
}

// ---------------------------------------------------------------------------
// Laws

/// Whether a shortcut fires in sample `i` of a run, where `down` tells of each
/// sample whether the shortcut is down in it, and none was down before.
pub open spec fn fires_at(down: Seq<bool>, i: int) -> bool {
    fires(down[i], i > 0 && down[i - 1])
}

/// A held shortcut fires once: between two firings there is a sample in which
/// it was up.
pub proof fn a_held_shortcut_fires_once(down: Seq<bool>, i: int, j: int)
    requires
        0 <= i < j < down.len(),
        fires_at(down, i),
        fires_at(down, j),
    ensures
        exists|k: int| i < k < j && !down[k],
{
    assert(!down[j - 1]);
    assert(i < j - 1);
}

/// A press is not missed: wherever a shortcut is down, it fired in that sample
/// or in an earlier one, and was down in every sample since.
pub proof fn a_press_fires(down: Seq<bool>, i: int)
    requires
        0 <= i < down.len(),
        down[i],
    ensures
        exists|k: int|
            0 <= k <= i && fires_at(down, k) && (forall|m: int| k <= m <= i ==> #[trigger] down[m]),
    decreases i,
{
    if i == 0 || !down[i - 1] {
        assert(fires_at(down, i));
    } else {
        a_press_fires(down, i - 1);
        let k = choose|k: int|
            0 <= k <= i - 1 && fires_at(down, k) && (forall|m: int|
                k <= m <= i - 1 ==> #[trigger] down[m]);
        assert(forall|m: int| k <= m <= i ==> #[trigger] down[m]);
    }
}

/// A configuration without chosen shortcuts has F9 to save a clip and F10 to
/// start and stop recording.
pub proof fn the_default_shortcuts_are_f9_and_f10(c: ConfigView)
    requires
        c.hotkey is None,
        c.hotkey_toggle is None,
    ensures
        hotkeys_of(c).save == Some(plain_key(DEFAULT_HOTKEY_VK_F9)),
        hotkeys_of(c).toggle == Some(plain_key(DEFAULT_TOGGLE_HOTKEY_VK_F10)),
{
}

/// A chosen shortcut is there again after a restart, and choosing one leaves
/// the other as it was.
pub proof fn chosen_shortcuts_survive_a_restart(c: ConfigView, h: HotkeyConfig)
    ensures
        hotkeys_of(ConfigView { hotkey: Some(h), ..c }) == rebound(hotkeys_of(c), 1, binding_of(h)),
        hotkeys_of(ConfigView { hotkey_toggle: Some(h), ..c }) == rebound(
            hotkeys_of(c),
            2,
            binding_of(h),
        ),
{
}

/// A combination is down exactly with its own keys: with the key and the
/// modifiers of the binding it is; with the key up it is not; and with any
/// modifier other than the binding has it, it is not, whatever the others are.
pub proof fn a_combination_takes_its_own_modifiers(b: HotkeyBinding, s: KeySample)
    ensures
        combo_down(b, KeySample { key: true, ctrl: b.ctrl, shift: b.shift, alt: b.alt }),
        !combo_down(b, KeySample { key: false, ..s }),
        !combo_down(b, KeySample { ctrl: !b.ctrl, ..s }),
        !combo_down(b, KeySample { shift: !b.shift, ..s }),
        !combo_down(b, KeySample { alt: !b.alt, ..s }),
{
}

/// A sample tells two combinations of a key apart: where both are down in it,
/// they have the same modifiers.
pub proof fn combinations_do_not_overlap(a: HotkeyBinding, b: HotkeyBinding, s: KeySample)
    requires
        combo_down(a, s),
        combo_down(b, s),
    ensures
        a.ctrl == b.ctrl,
        a.shift == b.shift,
        a.alt == b.alt,
        s.key,
{
}

/// After a sample in which it was up, a bound shortcut fires in the sample made
/// of its own keys, and in no other; while it is held it does not fire again; and
/// a shortcut that is not bound never fires.
pub proof fn a_press_of_its_own_keys_fires(b: HotkeyBinding, s: KeySample, was_down: bool)
    ensures
        fires(shortcut_down(Some(b), s), false) <==> s == (KeySample {
            key: true,
            ctrl: b.ctrl,
            shift: b.shift,
            alt: b.alt,
        }),
        !fires(shortcut_down(Some(b), s), true),
        !fires(shortcut_down(None, s), was_down),
{
}

/// Shortcut number 1 saves a clip and number 2 starts and stops recording:
/// binding one binds it to these keys and leaves the other, and no other number
/// binds anything.
pub proof fn each_number_binds_its_own_shortcut(hotkeys: Hotkeys, id: i32, b: HotkeyBinding)
    ensures
        rebound(hotkeys, 1, b).save == Some(b),
        rebound(hotkeys, 1, b).toggle == hotkeys.toggle,
        rebound(hotkeys, 2, b).toggle == Some(b),
        rebound(hotkeys, 2, b).save == hotkeys.save,
        id != 1 && id != 2 ==> rebound(hotkeys, id, b) == hotkeys,
{
}

/// A shortcut of the configuration is on the key it names and is down with the
/// modifiers it names; each of the two comes from its own entry.
pub proof fn a_stored_shortcut_is_bound_as_it_is_stored(c: ConfigView, h: HotkeyConfig)
    ensures
        binding_of(h).vk_code == h.vk_code,
        binding_of(h).ctrl == h.ctrl,
        binding_of(h).shift == h.shift,
        binding_of(h).alt == h.alt,
        c.hotkey == Some(h) ==> hotkeys_of(c).save == Some(binding_of(h)),
        c.hotkey_toggle == Some(h) ==> hotkeys_of(c).toggle == Some(binding_of(h)),
        c.hotkey is None ==> hotkeys_of(c).save == Some(
            HotkeyBinding { vk_code: 0x78, ctrl: false, shift: false, alt: false },
        ),
        c.hotkey_toggle is None ==> hotkeys_of(c).toggle == Some(
            HotkeyBinding { vk_code: 0x79, ctrl: false, shift: false, alt: false },
        ),
{
}

/// A combination in words names each modifier that it has, in the order Ctrl,
/// Shift, Alt, and then the key.
pub proof fn a_combination_in_words_names_its_modifiers(h: HotkeyConfig)
    ensures
        combo_text(HotkeyConfig { ctrl: true, ..h }) == "Ctrl+"@ + combo_text(
            HotkeyConfig { ctrl: false, ..h },
        ),
        combo_text(HotkeyConfig { ctrl: false, shift: true, ..h }) == "Shift+"@ + combo_text(
            HotkeyConfig { ctrl: false, shift: false, ..h },
        ),
        combo_text(HotkeyConfig { ctrl: false, shift: false, alt: true, ..h }) == "Alt+"@
            + combo_text(HotkeyConfig { ctrl: false, shift: false, alt: false, ..h }),
        combo_text(HotkeyConfig { ctrl: false, shift: false, alt: false, ..h }) == "vk="@ + decimal(
            h.vk_code as int,
        ),
{
    assert(combo_text(HotkeyConfig { ctrl: true, ..h }) =~= "Ctrl+"@ + combo_text(
        HotkeyConfig { ctrl: false, ..h },
    ));
    assert(combo_text(HotkeyConfig { ctrl: false, shift: true, ..h }) =~= "Shift+"@ + combo_text(
        HotkeyConfig { ctrl: false, shift: false, ..h },
    ));
    assert(combo_text(HotkeyConfig { ctrl: false, shift: false, alt: true, ..h }) =~= "Alt+"@
        + combo_text(HotkeyConfig { ctrl: false, shift: false, alt: false, ..h }));
    assert(combo_text(HotkeyConfig { ctrl: false, shift: false, alt: false, ..h }) =~= "vk="@
        + decimal(h.vk_code as int));
}

/// The modifier keys are those of Windows: Shift, Control and Alt have the codes
/// from 16 on, in this order.
pub proof fn modifiers_have_the_codes_of_windows()
    ensures
        VK_SHIFT == 16,
        VK_CONTROL == VK_SHIFT + 1,
        VK_MENU == VK_CONTROL + 1,
{
}

} // verus!

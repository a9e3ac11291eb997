use ember::config::{EmberioConfig, HotkeyConfig};
use ember::hotkeys::{
    combo_is_down, initial_hotkeys, key_is_down, register_native_hotkey, set_save_hotkey,
    set_toggle_hotkey, Fired, HotkeyBinding, HotkeyPoller, Hotkeys, KeySample,
};

fn keys(key: bool, ctrl: bool, shift: bool, alt: bool) -> KeySample {
    KeySample { key, ctrl, shift, alt }
}

#[test]
fn a_key_is_down_where_the_top_bit_is_set() {
    assert!(key_is_down(i16::MIN));
    assert!(key_is_down(-1));
    assert!(!key_is_down(0));
    assert!(!key_is_down(1));
    assert!(!key_is_down(i16::MAX));
}

#[test]
fn modifiers_must_match_exactly() {
    let b = HotkeyBinding { vk_code: 0x78, ctrl: true, shift: false, alt: false };
    assert!(combo_is_down(&b, keys(true, true, false, false)));
    assert!(!combo_is_down(&b, keys(true, false, false, false)));
    assert!(!combo_is_down(&b, keys(true, true, true, false)));
    assert!(!combo_is_down(&b, keys(true, true, false, true)));
    assert!(!combo_is_down(&b, keys(false, true, false, false)));
}

#[test]
fn only_two_shortcuts_can_be_bound() {
    let mut h = Hotkeys::none();
    for id in [0, 3, -1, i32::MIN, i32::MAX] {
        register_native_hotkey(&mut h, id, 65, false, false, false);
        assert_eq!(h, Hotkeys { save: None, toggle: None });
    }
    register_native_hotkey(&mut h, 1, 65, true, false, false);
    register_native_hotkey(&mut h, 2, 66, false, false, true);
    assert_eq!(h.save, Some(HotkeyBinding { vk_code: 65, ctrl: true, shift: false, alt: false }));
    assert_eq!(h.toggle, Some(HotkeyBinding { vk_code: 66, ctrl: false, shift: false, alt: true }));
}

#[test]
fn a_held_key_fires_once() {
    let h = initial_hotkeys(&EmberioConfig::default());
    let mut p = HotkeyPoller::new();
    let up = keys(false, false, false, false);
    let down = keys(true, false, false, false);
    let run = [up, down, down, down, up, down];
    let fired: Vec<bool> = run.iter().map(|k| p.poll(&h, *k, up).save).collect();
    assert_eq!(fired, vec![false, true, false, false, false, true]);
}

#[test]
fn the_two_shortcuts_are_independent() {
    let h = initial_hotkeys(&EmberioConfig::default());
    let mut p = HotkeyPoller::new();
    let up = keys(false, false, false, false);
    let down = keys(true, false, false, false);
    assert_eq!(p.poll(&h, down, up), Fired { save: true, toggle: false });
    assert_eq!(p.poll(&h, down, down), Fired { save: false, toggle: true });
    assert_eq!(p.poll(&Hotkeys::none(), down, down), Fired { save: false, toggle: false });
    assert_eq!(p.poll(&h, down, down), Fired { save: true, toggle: true });
}

#[test]
fn f9_and_f10_unless_chosen() {
    let mut c = EmberioConfig::default();
    let plain = |vk_code: i32| Some(HotkeyBinding { vk_code, ctrl: false, shift: false, alt: false });
    let h = initial_hotkeys(&c);
    assert_eq!((h.save, h.toggle), (plain(0x78), plain(0x79)));
    c.hotkey = Some(HotkeyConfig { vk_code: 65, ctrl: true, shift: true, alt: true });
    let h = initial_hotkeys(&c);
    assert_eq!(h.save, Some(HotkeyBinding { vk_code: 65, ctrl: true, shift: true, alt: true }));
    assert_eq!(h.toggle, plain(0x79));
}

#[test]
fn choosing_a_shortcut_binds_it_and_survives() {
    let mut slot = None;
    let mut h = initial_hotkeys(&EmberioConfig::default());
    let r = set_save_hotkey(&mut h, &mut slot, 0x41, true, false, true);
    assert_eq!(r.value, "Hotkey de guardado ahora es: Ctrl+Alt+vk=65");
    let r = set_toggle_hotkey(&mut h, &mut slot, 0x70, false, true, false);
    assert_eq!(r.value, "Hotkey de encendido/apagado ahora es: Shift+vk=112");
    assert_eq!(initial_hotkeys(&r.config), h);
    let r = set_toggle_hotkey(&mut h, &mut slot, -3, false, false, false);
    assert_eq!(r.value, "Hotkey de encendido/apagado ahora es: vk=-3");
}

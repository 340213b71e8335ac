use idesk::input::events::{InputEvent, Modifiers, MouseButton};
use idesk::input::injection::{
    injection_plan, key_for_name, map_key, InjectAction, KeyDirection, ModifierKey, SpecialKey,
};

fn mods(ctrl: bool, alt: bool, shift: bool, meta: bool) -> Modifiers {
    Modifiers { ctrl, alt, shift, meta }
}

fn modifier(key: ModifierKey, direction: KeyDirection) -> InjectAction {
    InjectAction::Modifier { key, direction }
}

fn same(a: &[InjectAction], b: &[InjectAction]) -> bool {
    format!("{:?}", a) == format!("{:?}", b)
}

#[test]
fn map_key_names_any_case() {
    assert_eq!(map_key("Enter"), Some(SpecialKey::Return));
    assert_eq!(map_key("ESC"), Some(SpecialKey::Escape));
    assert_eq!(map_key("escape"), Some(SpecialKey::Escape));
    assert_eq!(map_key("ArrowLeft"), Some(SpecialKey::LeftArrow));
    assert_eq!(map_key("F12"), Some(SpecialKey::F12));
    assert_eq!(map_key("a"), None);
    assert_eq!(map_key("Shift"), None);
}

#[test]
fn key_for_name_is_exact() {
    assert_eq!(key_for_name("backspace"), Some(SpecialKey::Backspace));
    assert_eq!(key_for_name("Backspace"), None);
    assert_eq!(key_for_name("f10"), Some(SpecialKey::F10));
    assert_eq!(key_for_name(""), None);
}

#[test]
fn default_modifiers_are_released() {
    let m = Modifiers::default();
    assert!(!m.ctrl && !m.alt && !m.shift && !m.meta);
}

#[test]
fn plan_mouse_events() {
    let p = injection_plan(&InputEvent::MouseDown { button: MouseButton::Right, x: 10, y: -3 });
    assert!(same(&p, &[
        InjectAction::MoveMouse { x: 10, y: -3 },
        InjectAction::Button { button: MouseButton::Right, direction: KeyDirection::Press },
    ]));
    let p = injection_plan(&InputEvent::MouseUp { button: MouseButton::Left, x: 1, y: 2 });
    assert!(same(&p, &[
        InjectAction::MoveMouse { x: 1, y: 2 },
        InjectAction::Button { button: MouseButton::Left, direction: KeyDirection::Release },
    ]));
    let p = injection_plan(&InputEvent::MouseMove { x: 5, y: 6 });
    assert!(same(&p, &[InjectAction::MoveMouse { x: 5, y: 6 }]));
    let p = injection_plan(&InputEvent::MouseWheel { delta: 3 });
    assert!(same(&p, &[InjectAction::Scroll { amount: -3 }]));
}

#[test]
fn plan_key_down_wraps_modifiers() {
    let p = injection_plan(&InputEvent::KeyDown { key: "Tab".to_string(), modifiers: mods(true, false, true, true) });
    assert!(same(&p, &[
        modifier(ModifierKey::Control, KeyDirection::Press),
        modifier(ModifierKey::Shift, KeyDirection::Press),
        modifier(ModifierKey::Meta, KeyDirection::Press),
        InjectAction::Key { key: SpecialKey::Tab, direction: KeyDirection::Press },
        modifier(ModifierKey::Meta, KeyDirection::Release),
        modifier(ModifierKey::Shift, KeyDirection::Release),
        modifier(ModifierKey::Control, KeyDirection::Release),
    ]));
}

#[test]
fn plan_key_down_text_and_unknown() {
    let p = injection_plan(&InputEvent::KeyDown { key: "x".to_string(), modifiers: mods(false, true, false, false) });
    assert!(same(&p, &[
        modifier(ModifierKey::Alt, KeyDirection::Press),
        InjectAction::Text { text: "x".to_string() },
        modifier(ModifierKey::Alt, KeyDirection::Release),
    ]));
    // more than one byte and no known name: only the modifiers
    let p = injection_plan(&InputEvent::KeyDown { key: "é".to_string(), modifiers: Modifiers::default() });
    assert!(p.is_empty());
    let p = injection_plan(&InputEvent::KeyDown { key: "PageUp".to_string(), modifiers: mods(true, false, false, false) });
    assert!(same(&p, &[
        modifier(ModifierKey::Control, KeyDirection::Press),
        modifier(ModifierKey::Control, KeyDirection::Release),
    ]));
}

#[test]
fn plan_key_up_and_clipboard() {
    let p = injection_plan(&InputEvent::KeyUp { key: "space".to_string(), modifiers: mods(true, true, true, true) });
    assert!(same(&p, &[InjectAction::Key { key: SpecialKey::Space, direction: KeyDirection::Release }]));
    let p = injection_plan(&InputEvent::KeyUp { key: "q".to_string(), modifiers: Modifiers::default() });
    assert!(p.is_empty());
    let p = injection_plan(&InputEvent::ClipboardSet { text: "hello".to_string() });
    assert!(same(&p, &[InjectAction::ClipboardSet { text: "hello".to_string() }]));
}

use vstd::prelude::*;
use vstd::string::*;
use vstd::utf8::encode_utf8;
use crate::input::events::{InputEvent, Modifiers, MouseButton};
use crate::text::same_text;

verus! {

/// The named (non-character) keys that can be injected.
#[derive(Debug, Clone, Copy, PartialEq, Eq, Structural)]
pub enum SpecialKey {
    Return,
    Escape,
    Backspace,
    Delete,
    Tab,
    Space,
    UpArrow,
    DownArrow,
    LeftArrow,
    RightArrow,
    F1,
    F2,
    F3,
    F4,
    F5,
    F6,
    F7,
    F8,
    F9,
    F10,
    F11,
    F12,
}

/// The modifier keys.
#[derive(Debug, Clone, Copy, PartialEq, Eq, Structural)]
pub enum ModifierKey {
    Control,
    Alt,
    Shift,
    Meta,
}

/// Pressing or releasing.
#[derive(Debug, Clone, Copy, PartialEq, Eq, Structural)]
pub enum KeyDirection {
    Press,
    Release,
}

/// One step of replaying an input event.
#[derive(Debug, Clone)]
#[allow(inconsistent_fields)]
pub enum InjectAction {
    /// Move the pointer to absolute coordinates.
    MoveMouse { x: i32, y: i32 },
    /// Press or release a mouse button.
    Button { button: MouseButton, direction: KeyDirection },
    /// Scroll vertically by this many steps.
    Scroll { amount: i32 },
    /// Press or release a modifier key.
    Modifier { key: ModifierKey, direction: KeyDirection },
    /// Press or release a named key.
    Key { key: SpecialKey, direction: KeyDirection },
    /// Type this text.
    Text { text: String },
    /// Put this text on the clipboard.
    ClipboardSet { text: String },
}

/// The key a lowercase key name stands for, if it is one of the named keys.
pub open spec fn special_key_named(name: Seq<char>) -> Option<SpecialKey> {
    if name == "enter"@ {
        Some(SpecialKey::Return)
    } else if name == "escape"@ || name == "esc"@ {
        Some(SpecialKey::Escape)
    } else if name == "backspace"@ {
        Some(SpecialKey::Backspace)
    } else if name == "delete"@ {
        Some(SpecialKey::Delete)
    } else if name == "tab"@ {
        Some(SpecialKey::Tab)
    } else if name == "space"@ {
        Some(SpecialKey::Space)
    } else if name == "arrowup"@ {
        Some(SpecialKey::UpArrow)
    } else if name == "arrowdown"@ {
        Some(SpecialKey::DownArrow)
    } else if name == "arrowleft"@ {
        Some(SpecialKey::LeftArrow)
    } else if name == "arrowright"@ {
        Some(SpecialKey::RightArrow)
    } else if name == "f1"@ {
        Some(SpecialKey::F1)
    } else if name == "f2"@ {
        Some(SpecialKey::F2)
    } else if name == "f3"@ {
        Some(SpecialKey::F3)
    } else if name == "f4"@ {
        Some(SpecialKey::F4)
    } else if name == "f5"@ {
        Some(SpecialKey::F5)
    } else if name == "f6"@ {
        Some(SpecialKey::F6)
    } else if name == "f7"@ {
        Some(SpecialKey::F7)
    } else if name == "f8"@ {
        Some(SpecialKey::F8)
    } else if name == "f9"@ {
        Some(SpecialKey::F9)
    } else if name == "f10"@ {
        Some(SpecialKey::F10)
    } else if name == "f11"@ {
        Some(SpecialKey::F11)
    } else if name == "f12"@ {
        Some(SpecialKey::F12)
    } else {
        None
    }
}

/// The key names of the key events, each with the key it stands for: Enter,
/// Escape (also "esc"), Backspace, Delete, Tab, Space, the four arrows and F1 to
/// F12; no other name stands for a key.
pub proof fn lemma_key_names(name: Seq<char>)
    ensures
        special_key_named("enter"@) == Some(SpecialKey::Return),
        special_key_named("escape"@) == Some(SpecialKey::Escape),
        special_key_named("esc"@) == Some(SpecialKey::Escape),
        special_key_named("backspace"@) == Some(SpecialKey::Backspace),
        special_key_named("delete"@) == Some(SpecialKey::Delete),
        special_key_named("tab"@) == Some(SpecialKey::Tab),
        special_key_named("space"@) == Some(SpecialKey::Space),
        special_key_named("arrowup"@) == Some(SpecialKey::UpArrow),
        special_key_named("arrowdown"@) == Some(SpecialKey::DownArrow),
        special_key_named("arrowleft"@) == Some(SpecialKey::LeftArrow),
        special_key_named("arrowright"@) == Some(SpecialKey::RightArrow),
        special_key_named("f1"@) == Some(SpecialKey::F1),
        special_key_named("f2"@) == Some(SpecialKey::F2),
        special_key_named("f3"@) == Some(SpecialKey::F3),
        special_key_named("f4"@) == Some(SpecialKey::F4),
        special_key_named("f5"@) == Some(SpecialKey::F5),
        special_key_named("f6"@) == Some(SpecialKey::F6),
        special_key_named("f7"@) == Some(SpecialKey::F7),
        special_key_named("f8"@) == Some(SpecialKey::F8),
        special_key_named("f9"@) == Some(SpecialKey::F9),
        special_key_named("f10"@) == Some(SpecialKey::F10),
        special_key_named("f11"@) == Some(SpecialKey::F11),
        special_key_named("f12"@) == Some(SpecialKey::F12),
        special_key_named(name) is Some ==> (name == "enter"@ || name == "escape"@ || name == "esc"@ || name == "backspace"@ || name == "delete"@ || name == "tab"@ || name == "space"@ || name == "arrowup"@ || name == "arrowdown"@ || name == "arrowleft"@ || name == "arrowright"@ || name == "f1"@ || name == "f2"@ || name == "f3"@ || name == "f4"@ || name == "f5"@ || name == "f6"@ || name == "f7"@ || name == "f8"@ || name == "f9"@ || name == "f10"@ || name == "f11"@ || name == "f12"@),
{
    reveal_strlit("enter");
    reveal_strlit("escape");
    reveal_strlit("esc");
    reveal_strlit("backspace");
    reveal_strlit("delete");
    reveal_strlit("tab");
    reveal_strlit("space");
    reveal_strlit("arrowup");
    reveal_strlit("arrowdown");
    reveal_strlit("arrowleft");
    reveal_strlit("arrowright");
    reveal_strlit("f1");
    reveal_strlit("f2");
    reveal_strlit("f3");
    reveal_strlit("f4");
    reveal_strlit("f5");
    reveal_strlit("f6");
    reveal_strlit("f7");
    reveal_strlit("f8");
    reveal_strlit("f9");
    reveal_strlit("f10");
    reveal_strlit("f11");
    reveal_strlit("f12");
    assert("enter"@ =~= seq!['e', 'n', 't', 'e', 'r']);
    assert("escape"@ =~= seq!['e', 's', 'c', 'a', 'p', 'e']);
    assert("esc"@ =~= seq!['e', 's', 'c']);
    assert("backspace"@ =~= seq!['b', 'a', 'c', 'k', 's', 'p', 'a', 'c', 'e']);
    assert("delete"@ =~= seq!['d', 'e', 'l', 'e', 't', 'e']);
    assert("tab"@ =~= seq!['t', 'a', 'b']);
    assert("space"@ =~= seq!['s', 'p', 'a', 'c', 'e']);
    assert("arrowup"@ =~= seq!['a', 'r', 'r', 'o', 'w', 'u', 'p']);
    assert("arrowdown"@ =~= seq!['a', 'r', 'r', 'o', 'w', 'd', 'o', 'w', 'n']);
    assert("arrowleft"@ =~= seq!['a', 'r', 'r', 'o', 'w', 'l', 'e', 'f', 't']);
    assert("arrowright"@ =~= seq!['a', 'r', 'r', 'o', 'w', 'r', 'i', 'g', 'h', 't']);
    assert("f1"@ =~= seq!['f', '1']);
    assert("f2"@ =~= seq!['f', '2']);
    assert("f3"@ =~= seq!['f', '3']);
    assert("f4"@ =~= seq!['f', '4']);
    assert("f5"@ =~= seq!['f', '5']);
    assert("f6"@ =~= seq!['f', '6']);
    assert("f7"@ =~= seq!['f', '7']);
    assert("f8"@ =~= seq!['f', '8']);
    assert("f9"@ =~= seq!['f', '9']);
    assert("f10"@ =~= seq!['f', '1', '0']);
    assert("f11"@ =~= seq!['f', '1', '1']);
    assert("f12"@ =~= seq!['f', '1', '2']);
}

/// The Unicode lowercase form of a text (`str::to_lowercase` of std).
pub uninterp spec fn unicode_lowercase(s: Seq<char>) -> Seq<char>;

/// `str::to_lowercase` from std: the lowercase equivalent of the text, by the
/// Unicode `Lowercase` property. Its result is only named here, not spelled out.
#[verifier::external_body]
fn to_lowercase(s: &str) -> (r: String)
    ensures
        r@ == unicode_lowercase(s@),
{
    s.to_lowercase()
}

/// The named key for a lowercase key name.
pub fn key_for_name(name: &str) -> (r: Option<SpecialKey>)
    ensures
        r == special_key_named(name@),
{
    if same_text(name, "enter") {
        Some(SpecialKey::Return)
    } else if same_text(name, "escape") || same_text(name, "esc") {
        Some(SpecialKey::Escape)
    } else if same_text(name, "backspace") {
        Some(SpecialKey::Backspace)
    } else if same_text(name, "delete") {
        Some(SpecialKey::Delete)
    } else if same_text(name, "tab") {
        Some(SpecialKey::Tab)
    } else if same_text(name, "space") {
        Some(SpecialKey::Space)
    } else if same_text(name, "arrowup") {
        Some(SpecialKey::UpArrow)
    } else if same_text(name, "arrowdown") {
        Some(SpecialKey::DownArrow)
    } else if same_text(name, "arrowleft") {
        Some(SpecialKey::LeftArrow)
    } else if same_text(name, "arrowright") {
        Some(SpecialKey::RightArrow)
    } else if same_text(name, "f1") {
        Some(SpecialKey::F1)
    } else if same_text(name, "f2") {
        Some(SpecialKey::F2)
    } else if same_text(name, "f3") {
        Some(SpecialKey::F3)
    } else if same_text(name, "f4") {
        Some(SpecialKey::F4)
    } else if same_text(name, "f5") {
        Some(SpecialKey::F5)
    } else if same_text(name, "f6") {
        Some(SpecialKey::F6)
    } else if same_text(name, "f7") {
        Some(SpecialKey::F7)
    } else if same_text(name, "f8") {
        Some(SpecialKey::F8)
    } else if same_text(name, "f9") {
        Some(SpecialKey::F9)
    } else if same_text(name, "f10") {
        Some(SpecialKey::F10)
    } else if same_text(name, "f11") {
        Some(SpecialKey::F11)
    } else if same_text(name, "f12") {
        Some(SpecialKey::F12)
    } else {
        None
    }
}

/// The named key a key string stands for, whatever its case (`"Enter"`,
/// `"ESC"`, `"F5"`, ...); `None` for a plain character or an unknown name.
pub fn map_key(key: &str) -> (r: Option<SpecialKey>)
    ensures
        r == special_key_named(unicode_lowercase(key@)),
{
    let lower = to_lowercase(key);
    key_for_name(lower.as_str())
}

/// The modifier keys held in `m`, in the order they are pressed: Ctrl, Alt,
/// Shift, Meta.
pub open spec fn held_modifiers(m: Modifiers) -> Seq<ModifierKey> {
    (if m.ctrl { seq![ModifierKey::Control] } else { Seq::empty() }) + (if m.alt {
        seq![ModifierKey::Alt]
    } else {
        Seq::empty()
    }) + (if m.shift { seq![ModifierKey::Shift] } else { Seq::empty() }) + (if m.meta {
        seq![ModifierKey::Meta]
    } else {
        Seq::empty()
    })
}

/// The steps that press the modifiers of `m`, Ctrl first.
pub open spec fn modifier_presses(m: Modifiers) -> Seq<InjectAction> {
    held_modifiers(m).map_values(
        |k: ModifierKey| InjectAction::Modifier { key: k, direction: KeyDirection::Press },
    )
}

/// The steps that release the modifiers of `m`, in the opposite order: Meta first.
pub open spec fn modifier_releases(m: Modifiers) -> Seq<InjectAction> {
    held_modifiers(m).reverse().map_values(
        |k: ModifierKey| InjectAction::Modifier { key: k, direction: KeyDirection::Release },
    )
}

/// Whether replaying `a` does exactly what replaying `b` does.
pub open spec fn same_action(a: InjectAction, b: InjectAction) -> bool {
    match (a, b) {
        (InjectAction::Text { text: t1 }, InjectAction::Text { text: t2 }) => t1@ == t2@,
        (InjectAction::ClipboardSet { text: t1 }, InjectAction::ClipboardSet { text: t2 }) => t1@
            == t2@,
        (InjectAction::Text { .. }, _) => false,
        (InjectAction::ClipboardSet { .. }, _) => false,
        _ => a == b,
    }
}

/// Whether two step lists replay the same.
pub open spec fn same_actions(a: Seq<InjectAction>, b: Seq<InjectAction>) -> bool {
    a.len() == b.len() && forall|i: int| 0 <= i < a.len() ==> same_action(#[trigger] a[i], b[i])
}

/// The step for the key of a key-down event, if any: a named key is pressed;
/// a key string of one byte (its length as `str::len` gives it) is typed as text; anything else does nothing.
pub open spec fn key_down_steps(key: Seq<char>, key_text: String) -> Seq<InjectAction> {
    match special_key_named(unicode_lowercase(key)) {
        Some(k) => seq![InjectAction::Key { key: k, direction: KeyDirection::Press }],
        None => if encode_utf8(key).len() as usize == 1 {
            seq![InjectAction::Text { text: key_text }]
        } else {
            Seq::empty()
        },
    }
}

/// Whether replaying an event needs no arithmetic that overflows: the scroll
/// amount is the negated wheel delta.
pub open spec fn replayable(event: InputEvent) -> bool {
    event matches InputEvent::MouseWheel { delta } ==> delta != i32::MIN
}

/// Whether `event` can be replayed (its scroll amount does not overflow).
pub fn replay_allowed(event: &InputEvent) -> (r: bool)
    ensures
        r == replayable(*event),
{
    match event {
        InputEvent::MouseWheel { delta } => *delta != i32::MIN,
        _ => true,
    }
}

/// The steps that replay an event on this machine, in order.
pub open spec fn injection_steps(event: InputEvent) -> Seq<InjectAction> {
    match event {
        InputEvent::MouseMove { x, y } => seq![InjectAction::MoveMouse { x, y }],
        InputEvent::MouseDown { button, x, y } => seq![
            InjectAction::MoveMouse { x, y },
            InjectAction::Button { button, direction: KeyDirection::Press },
        ],
        InputEvent::MouseUp { button, x, y } => seq![
            InjectAction::MoveMouse { x, y },
            InjectAction::Button { button, direction: KeyDirection::Release },
        ],
        InputEvent::MouseWheel { delta } => seq![InjectAction::Scroll { amount: (-delta) as i32 }],
        InputEvent::KeyDown { key, modifiers } => modifier_presses(modifiers) + key_down_steps(
            key@,
            key,
        ) + modifier_releases(modifiers),
        InputEvent::KeyUp { key, modifiers } => match special_key_named(unicode_lowercase(key@)) {
            Some(k) => seq![InjectAction::Key { key: k, direction: KeyDirection::Release }],
            None => Seq::empty(),
        },
        InputEvent::ClipboardSet { text } => seq![InjectAction::ClipboardSet { text }],
    }
}

fn push_modifier_presses(out: &mut Vec<InjectAction>, m: Modifiers)
    ensures
        same_actions(final(out)@, old(out)@ + modifier_presses(m)),
{
    let ghost start = out@;
    if m.ctrl {
        out.push(InjectAction::Modifier { key: ModifierKey::Control, direction: KeyDirection::Press });
    }
    if m.alt {
        out.push(InjectAction::Modifier { key: ModifierKey::Alt, direction: KeyDirection::Press });
    }
    if m.shift {
        out.push(InjectAction::Modifier { key: ModifierKey::Shift, direction: KeyDirection::Press });
    }
    if m.meta {
        out.push(InjectAction::Modifier { key: ModifierKey::Meta, direction: KeyDirection::Press });
    }
    assert(out@ =~= start + modifier_presses(m));
}

fn push_modifier_releases(out: &mut Vec<InjectAction>, m: Modifiers)
    ensures
        same_actions(final(out)@, old(out)@ + modifier_releases(m)),
{
    let ghost start = out@;
    if m.meta {
        out.push(InjectAction::Modifier { key: ModifierKey::Meta, direction: KeyDirection::Release });
    }
    if m.shift {
        out.push(InjectAction::Modifier { key: ModifierKey::Shift, direction: KeyDirection::Release });
    }
    if m.alt {
        out.push(InjectAction::Modifier { key: ModifierKey::Alt, direction: KeyDirection::Release });
    }
    if m.ctrl {
        out.push(InjectAction::Modifier { key: ModifierKey::Control, direction: KeyDirection::Release });
    }
    assert(out@ =~= start + modifier_releases(m));
}

/// The steps that replay `event`, in the order they must run; replaying stops
/// at the first step that fails.
pub fn injection_plan(event: &InputEvent) -> (r: Vec<InjectAction>)
    requires
        replayable(*event),
    ensures
        same_actions(r@, injection_steps(*event)),
{
    let mut out: Vec<InjectAction> = Vec::new();
    match event {
        InputEvent::MouseMove { x, y } => {
            out.push(InjectAction::MoveMouse { x: *x, y: *y });
        },
        InputEvent::MouseDown { button, x, y } => {
            out.push(InjectAction::MoveMouse { x: *x, y: *y });
            out.push(InjectAction::Button { button: *button, direction: KeyDirection::Press });
        },
        InputEvent::MouseUp { button, x, y } => {
            out.push(InjectAction::MoveMouse { x: *x, y: *y });
            out.push(InjectAction::Button { button: *button, direction: KeyDirection::Release });
        },
        InputEvent::MouseWheel { delta } => {
            out.push(InjectAction::Scroll { amount: -*delta });
        },
        InputEvent::KeyDown { key, modifiers } => {
            push_modifier_presses(&mut out, *modifiers);
            let ghost mid = out@;
            match map_key(key.as_str()) {
                Some(k) => {
                    out.push(InjectAction::Key { key: k, direction: KeyDirection::Press });
                },
                None => {
                    if key.as_str().len() == 1 {
                        out.push(InjectAction::Text { text: key.clone() });
                    }
                },
            }
            proof {
                let kd = key_down_steps(key@, *key);
                assert(out@ =~= mid + kd);
                assert forall|i: int| 0 <= i < out@.len() implies same_action(
                    #[trigger] out@[i],
                    (mid + kd)[i],
                ) by {}
            }
            let ghost mid2 = out@;
            push_modifier_releases(&mut out, *modifiers);
            assert(same_actions(out@, mid2 + modifier_releases(*modifiers)));
        },
        InputEvent::KeyUp { key, modifiers: _ } => {
            match map_key(key.as_str()) {
                Some(k) => {
                    out.push(InjectAction::Key { key: k, direction: KeyDirection::Release });
                },
                None => {},
            }
        },
        InputEvent::ClipboardSet { text } => {
            out.push(InjectAction::ClipboardSet { text: text.clone() });
        },
    }
    assert(same_actions(out@, injection_steps(*event)));
    out
}

/// Replaying a key-down leaves no modifier held: the steps open with one
/// press for each modifier of the event and close with one release for each,
/// the modifier pressed `i`-th being released `i`-th from the end.
pub proof fn lemma_key_down_releases_its_modifiers(key: String, modifiers: Modifiers)
    ensures
        ({
            let steps = injection_steps(InputEvent::KeyDown { key, modifiers });
            let held = held_modifiers(modifiers);
            &&& steps.len() >= 2 * held.len()
            &&& forall|i: int|
                0 <= i < held.len() ==> steps[i] == (InjectAction::Modifier {
                    key: held[i],
                    direction: KeyDirection::Press,
                }) && #[trigger] steps[steps.len() - 1 - i] == (InjectAction::Modifier {
                    key: held[i],
                    direction: KeyDirection::Release,
                })
        }),
{
    let steps = injection_steps(InputEvent::KeyDown { key, modifiers });
    let held = held_modifiers(modifiers);
    let presses = modifier_presses(modifiers);
    let middle = key_down_steps(key@, key);
    let releases = modifier_releases(modifiers);
    assert(steps == presses + middle + releases);
    assert forall|i: int| 0 <= i < held.len() implies steps[i] == (InjectAction::Modifier {
        key: held[i],
        direction: KeyDirection::Press,
    }) && #[trigger] steps[steps.len() - 1 - i] == (InjectAction::Modifier {
        key: held[i],
        direction: KeyDirection::Release,
    }) by {
        assert(steps[i] == presses[i]);
        let j = steps.len() - 1 - i;
        assert(j == presses.len() + middle.len() + (releases.len() - 1 - i));
        assert(steps[j] == releases[releases.len() - 1 - i]);
        assert(held.reverse()[held.len() - 1 - i] == held[i]);
    }
}

/// Replaying a pointer event moves the pointer to the event's position first;
/// a press or release then acts on the event's own button, in the event's own
/// direction; a move does nothing else; a wheel turn scrolls by the negated
/// delta, with nothing before it.
pub proof fn lemma_pointer_steps(button: MouseButton, x: i32, y: i32, delta: i32)
    requires
        delta != i32::MIN,
    ensures
        injection_steps(InputEvent::MouseDown { button, x, y }) == seq![
            InjectAction::MoveMouse { x, y },
            InjectAction::Button { button, direction: KeyDirection::Press },
        ],
        injection_steps(InputEvent::MouseUp { button, x, y }) == seq![
            InjectAction::MoveMouse { x, y },
            InjectAction::Button { button, direction: KeyDirection::Release },
        ],
        injection_steps(InputEvent::MouseMove { x, y }) == seq![InjectAction::MoveMouse { x, y }],
        injection_steps(InputEvent::MouseWheel { delta }).len() == 1,
        injection_steps(InputEvent::MouseWheel { delta })[0] matches InjectAction::Scroll { amount }
            && amount + delta == 0,
{
}

/// Replaying a clipboard event sets the clipboard to the event's text, and
/// does nothing else.
pub proof fn lemma_clipboard_steps(text: String)
    ensures
        injection_steps(InputEvent::ClipboardSet { text }).len() == 1,
        injection_steps(InputEvent::ClipboardSet { text })[0] matches InjectAction::ClipboardSet { text: t }
            && t@ == text@,
{
}

} // verus!

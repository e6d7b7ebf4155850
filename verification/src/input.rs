//! The state of the input controllers: which keys and modifiers are held,
//! which mouse buttons are pressed, whether a touch has started, and the
//! key events each key press sends.
use vstd::prelude::*;

use crate::error::Error;
use crate::keyboard_layout::{
    describe, has_key_definition, key_definition_spec, key_description_for_string,
    modifier_bit, modifier_bit_spec, KeyDescriptionView,
};
use crate::keyed::{contains_key, insert_entry, key_set, keys_distinct, lemma_empty, remove_key};

verus! {

/// `format!("{:?}", s)` of a string: the string quoted and escaped as Rust writes it.
pub uninterp spec fn debug_repr(s: Seq<char>) -> Seq<char>;

/// The quoted, escaped form of a string (`{:?}`).
#[verifier::external_body]
fn debug_quoted(s: &str) -> (r: String)
    ensures
        r@ == debug_repr(s@),
{
    format!("{:?}", s)
}

/// Kind of a key event.
#[derive(Debug, Clone, Copy, PartialEq, Eq, Structural)]
pub enum KeyEventType {
    RawKeyDown,
    KeyDown,
    KeyUp,
}

/// The parameters of one key event to dispatch.
#[derive(Debug)]
pub struct KeyEventParams {
    pub event_type: KeyEventType,
    pub modifiers: i64,
    pub windows_virtual_key_code: i64,
    pub code: String,
    pub key: String,
    pub auto_repeat: Option<bool>,
    pub location: i64,
    pub is_keypad: Option<bool>,
    pub text: Option<String>,
    pub unmodified_text: Option<String>,
}

/// Keyboard state: the codes of the keys held and the modifier bitmask
/// (Alt=1, Control=2, Meta=4, Shift=8).
#[derive(Debug)]
pub struct KeyboardState {
    pub pressed_keys: Vec<String>,
    pub modifiers: i64,
}

/// What a [`KeyboardState`] stands for.
pub struct KeyboardView {
    pub pressed_keys: Set<Seq<char>>,
    pub modifiers: i64,
}

impl View for KeyboardState {
    type V = KeyboardView;

    open spec fn view(&self) -> KeyboardView {
        KeyboardView { pressed_keys: key_set(self.pressed_keys@), modifiers: self.modifiers }
    }
}

/// One step of typing a text.
#[derive(Debug)]
pub enum TypeStep {
    /// Press and release the key with this name.
    Press(String),
    /// Insert this character without key events.
    Insert(String),
}

/// The message of the error for a key the layout lacks.
pub open spec fn unknown_key_message(key: Seq<char>) -> Seq<char> {
    "Unknown key: "@ + debug_repr(key)
}

/// The key-down event a description produces with `modifiers` after the
/// press and `auto_repeat` telling whether its code was already held.
pub open spec fn key_down_event(
    p: KeyEventParams,
    d: KeyDescriptionView,
    modifiers: i64,
    auto_repeat: bool,
) -> bool {
    &&& p.event_type == (if d.text.len() == 0 {
        KeyEventType::RawKeyDown
    } else {
        KeyEventType::KeyDown
    })
    &&& p.modifiers == modifiers
    &&& p.windows_virtual_key_code == d.key_code
    &&& p.code@ == d.code
    &&& p.key@ == d.key
    &&& p.auto_repeat == Some(auto_repeat)
    &&& p.location == d.location
    &&& p.is_keypad == Some(d.location == 3)
    &&& (if d.text.len() == 0 {
        p.text is None && p.unmodified_text is None
    } else {
        p.text is Some && p.text->0@ == d.text && p.unmodified_text is Some && p.unmodified_text->0@
            == d.text
    })
}

/// The key-up event a description produces with `modifiers` after the release.
pub open spec fn key_up_event(p: KeyEventParams, d: KeyDescriptionView, modifiers: i64) -> bool {
    &&& p.event_type == KeyEventType::KeyUp
    &&& p.modifiers == modifiers
    &&& p.windows_virtual_key_code == d.key_code
    &&& p.code@ == d.code
    &&& p.key@ == d.key
    &&& p.auto_repeat is None
    &&& p.location == d.location
    &&& p.is_keypad is None
    &&& p.text is None
    &&& p.unmodified_text is None
}

impl KeyboardState {
    pub open spec fn wf(&self) -> bool {
        keys_distinct(self.pressed_keys@)
    }

    /// No key held, no modifier.
    pub fn new() -> (r: KeyboardState)
        ensures
            r.wf(),
            r@.pressed_keys == Set::<Seq<char>>::empty(),
            r@.modifiers == 0,
    {
        let r = KeyboardState { pressed_keys: Vec::new(), modifiers: 0 };
        proof {
            lemma_empty(r.pressed_keys@);
        }
        r
    }

    /// Current modifier bitmask.
    pub fn modifiers(&self) -> (r: i64)
        ensures
            r == self.modifiers,
    {
        self.modifiers
    }

    /// The error for a key the layout lacks.
    fn unknown_key(key: &str) -> (r: Error)
        ensures
            r is InputError && r->InputError_0@ == unknown_key_message(key@),
    {
        Error::InputError("Unknown key: ".to_owned().concat(debug_quoted(key).as_str()))
    }

    /// Press a key down: hold its code, add its modifier bit, and return the
    /// key-down event to send.
    pub fn down(&mut self, key: &str) -> (r: Result<KeyEventParams, Error>)
        requires
            old(self).wf(),
        ensures
            final(self).wf(),
            match key_definition_spec(key@) {
                None => r is Err && r->Err_0 is InputError && r->Err_0->InputError_0@ == unknown_key_message(
                    key@,
                ) && final(self)@ == old(self)@,
                Some(def) => {
                    let d = describe(def, old(self)@.modifiers);
                    let m = old(self)@.modifiers | modifier_bit_spec(d.key);
                    &&& r is Ok
                    &&& final(self)@ == (KeyboardView {
                        pressed_keys: old(self)@.pressed_keys.insert(d.code),
                        modifiers: m,
                    })
                    &&& key_down_event(r->Ok_0, d, m, old(self)@.pressed_keys.contains(d.code))
                },
            },
    {
        let desc = match key_description_for_string(key, self.modifiers) {
            Some(d) => d,
            None => {
                return Err(Self::unknown_key(key));
            },
        };
        let auto_repeat = contains_key(&self.pressed_keys, desc.code.as_str());
        insert_entry(&mut self.pressed_keys, desc.code.clone());
        self.modifiers = self.modifiers | modifier_bit(desc.key.as_str());
        let has_text = !desc.text.as_str().is_empty();
        let event_type = if has_text {
            KeyEventType::KeyDown
        } else {
            KeyEventType::RawKeyDown
        };
        let (text, unmodified_text) = if has_text {
            (Some(desc.text.clone()), Some(desc.text.clone()))
        } else {
            (None, None)
        };
        Ok(
            KeyEventParams {
                event_type,
                modifiers: self.modifiers,
                windows_virtual_key_code: desc.key_code,
                code: desc.code,
                key: desc.key,
                auto_repeat: Some(auto_repeat),
                location: desc.location,
                is_keypad: Some(desc.location == 3),
                text,
                unmodified_text,
            },
        )
    }

    /// Release a key: clear its modifier bit, stop holding its code, and
    /// return the key-up event to send.
    pub fn up(&mut self, key: &str) -> (r: Result<KeyEventParams, Error>)
        requires
            old(self).wf(),
        ensures
            final(self).wf(),
            match key_definition_spec(key@) {
                None => r is Err && r->Err_0 is InputError && r->Err_0->InputError_0@ == unknown_key_message(
                    key@,
                ) && final(self)@ == old(self)@,
                Some(def) => {
                    let d = describe(def, old(self)@.modifiers);
                    let m = old(self)@.modifiers & !modifier_bit_spec(d.key);
                    &&& r is Ok
                    &&& final(self)@ == (KeyboardView {
                        pressed_keys: old(self)@.pressed_keys.remove(d.code),
                        modifiers: m,
                    })
                    &&& key_up_event(r->Ok_0, d, m)
                },
            },
    {
        let desc = match key_description_for_string(key, self.modifiers) {
            Some(d) => d,
            None => {
                return Err(Self::unknown_key(key));
            },
        };
        self.modifiers = self.modifiers & !modifier_bit(desc.key.as_str());
        let _ = remove_key(&mut self.pressed_keys, desc.code.as_str());
        Ok(
            KeyEventParams {
                event_type: KeyEventType::KeyUp,
                modifiers: self.modifiers,
                windows_virtual_key_code: desc.key_code,
                code: desc.code,
                key: desc.key,
                auto_repeat: None,
                location: desc.location,
                is_keypad: None,
                text: None,
                unmodified_text: None,
            },
        )
    }
}

/// How a text is typed: each character the layout knows is pressed, any
/// other character is inserted.
pub open spec fn type_step_ok(step: TypeStep, c: char) -> bool {
    match step {
        TypeStep::Press(s) => s@ == seq![c] && key_definition_spec(seq![c]) is Some,
        TypeStep::Insert(s) => s@ == seq![c] && key_definition_spec(seq![c]) is None,
    }
}

/// The steps that type `text`, one per character.
pub fn type_text_steps(text: &str) -> (r: Vec<TypeStep>)
    ensures
        r@.len() == text@.len(),
        forall|i: int| 0 <= i < text@.len() ==> #[trigger] type_step_ok(r@[i], text@[i]),
{
    let n = text.unicode_len();
    let mut steps: Vec<TypeStep> = Vec::new();
    let mut i: usize = 0;
    while i < n
        invariant
            n == text@.len(),
            i <= n,
            steps@.len() == i,
            forall|j: int| 0 <= j < i ==> #[trigger] type_step_ok(steps@[j], text@[j]),
        decreases n - i,
    {
        let s = text.substring_char(i, i + 1);
        assert(s@ =~= seq![text@[i as int]]);
        if has_key_definition(s) {
            steps.push(TypeStep::Press(s.to_owned()));
        } else {
            steps.push(TypeStep::Insert(s.to_owned()));
        }
        i = i + 1;
    }
    steps
}

// ── Mouse ──────────────────────────────────────────────────────────

/// Mouse buttons as the protocol names them; `NoButton` is the protocol's
/// "none".
#[derive(Debug, Clone, Copy, PartialEq, Eq, Structural)]
pub enum MouseButton {
    NoButton,
    Left,
    Middle,
    Right,
    Back,
    Forward,
}

/// Button flag bitmask (the protocol's `buttons` field).
#[derive(Debug, Clone, Copy, PartialEq, Eq, Structural)]
pub enum MouseButtonFlag {
    NoButtons,
    Left,
    Right,
    Middle,
    Back,
    Forward,
}

impl MouseButtonFlag {
    /// The bit of the flag (0 for none).
    pub fn bits(&self) -> (r: i64)
        ensures
            r == flag_bits(*self),
    {
        match self {
            MouseButtonFlag::NoButtons => 0,
            MouseButtonFlag::Left => 1,
            MouseButtonFlag::Right => 2,
            MouseButtonFlag::Middle => 4,
            MouseButtonFlag::Back => 8,
            MouseButtonFlag::Forward => 16,
        }
    }
}

pub open spec fn flag_bits(f: MouseButtonFlag) -> i64 {
    match f {
        MouseButtonFlag::NoButtons => 0,
        MouseButtonFlag::Left => 1,
        MouseButtonFlag::Right => 2,
        MouseButtonFlag::Middle => 4,
        MouseButtonFlag::Back => 8,
        MouseButtonFlag::Forward => 16,
    }
}

/// The flag bit of a button.
pub open spec fn button_flag(b: MouseButton) -> i64 {
    match b {
        MouseButton::Left => 1,
        MouseButton::Right => 2,
        MouseButton::Middle => 4,
        MouseButton::Back => 8,
        MouseButton::Forward => 16,
        MouseButton::NoButton => 0,
    }
}

pub fn button_to_flag(button: MouseButton) -> (r: i64)
    ensures
        r == button_flag(button),
{
    match button {
        MouseButton::Left => MouseButtonFlag::Left.bits(),
        MouseButton::Right => MouseButtonFlag::Right.bits(),
        MouseButton::Middle => MouseButtonFlag::Middle.bits(),
        MouseButton::Back => MouseButtonFlag::Back.bits(),
        MouseButton::Forward => MouseButtonFlag::Forward.bits(),
        MouseButton::NoButton => 0,
    }
}

/// The button the protocol's `button` field reports for a `buttons`
/// bitmask: the first held of Left, Right, Middle, Back, Forward.
pub open spec fn pressed_button(buttons: i64) -> MouseButton {
    if buttons & 1 != 0 {
        MouseButton::Left
    } else if buttons & 2 != 0 {
        MouseButton::Right
    } else if buttons & 4 != 0 {
        MouseButton::Middle
    } else if buttons & 8 != 0 {
        MouseButton::Back
    } else if buttons & 16 != 0 {
        MouseButton::Forward
    } else {
        MouseButton::NoButton
    }
}

/// Derive the protocol's `button` field from a `buttons` bitmask.
pub fn button_from_pressed(buttons: i64) -> (r: MouseButton)
    ensures
        r == pressed_button(buttons),
{
    if buttons & MouseButtonFlag::Left.bits() != 0 {
        return MouseButton::Left;
    }
    if buttons & MouseButtonFlag::Right.bits() != 0 {
        return MouseButton::Right;
    }
    if buttons & MouseButtonFlag::Middle.bits() != 0 {
        return MouseButton::Middle;
    }
    if buttons & MouseButtonFlag::Back.bits() != 0 {
        return MouseButton::Back;
    }
    if buttons & MouseButtonFlag::Forward.bits() != 0 {
        return MouseButton::Forward;
    }
    MouseButton::NoButton
}

/// The name `{:?}` gives a protocol mouse button.
pub open spec fn button_debug_name(b: MouseButton) -> Seq<char> {
    match b {
        MouseButton::NoButton => "None"@,
        MouseButton::Left => "Left"@,
        MouseButton::Middle => "Middle"@,
        MouseButton::Right => "Right"@,
        MouseButton::Back => "Back"@,
        MouseButton::Forward => "Forward"@,
    }
}

pub fn button_name(b: MouseButton) -> (r: &'static str)
    ensures
        r@ == button_debug_name(b),
{
    match b {
        MouseButton::NoButton => "None",
        MouseButton::Left => "Left",
        MouseButton::Middle => "Middle",
        MouseButton::Right => "Right",
        MouseButton::Back => "Back",
        MouseButton::Forward => "Forward",
    }
}

/// Mouse button state.
#[derive(Debug, Clone, Copy)]
pub struct MouseState {
    pub buttons: i64,
}

impl MouseState {
    pub fn new() -> (r: MouseState)
        ensures
            r.buttons == 0,
    {
        MouseState { buttons: 0 }
    }

    /// Press `button` (Left when none is given): fails if it is already
    /// pressed, else adds its flag; returns the new bitmask.
    pub fn press(&mut self, button: Option<MouseButton>) -> (r: Result<i64, Error>)
        ensures
            ({
                let b = match button {
                    Some(b) => b,
                    None => MouseButton::Left,
                };
                if old(self).buttons & button_flag(b) != 0 {
                    &&& r is Err
                    &&& r->Err_0 is Other
                    &&& r->Err_0->Other_0@ == "Mouse button "@ + button_debug_name(b) + " is already pressed"@
                    &&& final(self).buttons == old(self).buttons
                } else {
                    &&& final(self).buttons == old(self).buttons | button_flag(b)
                    &&& r == Ok::<i64, Error>(final(self).buttons)
                }
            }),
    {
        let button = match button {
            Some(b) => b,
            None => MouseButton::Left,
        };
        let flag = button_to_flag(button);
        if self.buttons & flag != 0 {
            return Err(
                Error::Other(
                    "Mouse button ".to_owned().concat(button_name(button)).concat(" is already pressed"),
                ),
            );
        }
        self.buttons = self.buttons | flag;
        Ok(self.buttons)
    }

    /// Release `button` (Left when none is given): fails if it is not
    /// pressed, else clears its flag; returns the new bitmask.
    pub fn release(&mut self, button: Option<MouseButton>) -> (r: Result<i64, Error>)
        ensures
            ({
                let b = match button {
                    Some(b) => b,
                    None => MouseButton::Left,
                };
                if old(self).buttons & button_flag(b) == 0 {
                    &&& r is Err
                    &&& r->Err_0 is Other
                    &&& r->Err_0->Other_0@ == "Mouse button "@ + button_debug_name(b) + " is not pressed"@
                    &&& final(self).buttons == old(self).buttons
                } else {
                    &&& final(self).buttons == old(self).buttons & !button_flag(b)
                    &&& r == Ok::<i64, Error>(final(self).buttons)
                }
            }),
    {
        let button = match button {
            Some(b) => b,
            None => MouseButton::Left,
        };
        let flag = button_to_flag(button);
        if self.buttons & flag == 0 {
            return Err(
                Error::Other(
                    "Mouse button ".to_owned().concat(button_name(button)).concat(" is not pressed"),
                ),
            );
        }
        self.buttons = self.buttons & !flag;
        Ok(self.buttons)
    }

    /// The buttons a reset releases, in order: each of Left, Middle, Right,
    /// Back, Forward that is pressed.
    pub fn buttons_to_release(&self) -> (r: Vec<MouseButton>)
        ensures
            r@ == release_order().filter(|b: MouseButton| self.buttons & button_flag(b) != 0),
    {
        let order = [
            MouseButton::Left,
            MouseButton::Middle,
            MouseButton::Right,
            MouseButton::Back,
            MouseButton::Forward,
        ];
        let mut r: Vec<MouseButton> = Vec::new();
        let mut i: usize = 0;
        let ghost pred = |b: MouseButton| self.buttons & button_flag(b) != 0;
        assert(order@ == release_order());
        while i < 5
            invariant
                i <= 5,
                order@ == release_order(),
                pred == (|b: MouseButton| self.buttons & button_flag(b) != 0),
                r@ == release_order().subrange(0, i as int).filter(pred),
            decreases 5 - i,
        {
            let b = order[i];
            proof {
                reveal(Seq::filter);
                assert(release_order().subrange(0, i as int + 1).drop_last() =~= release_order().subrange(0, i as int));
            }
            if self.buttons & button_to_flag(b) != 0 {
                r.push(b);
            }
            i = i + 1;
        }
        assert(release_order().subrange(0, 5) =~= release_order());
        r
    }
}

/// The order in which a reset releases buttons.
pub open spec fn release_order() -> Seq<MouseButton> {
    seq![MouseButton::Left, MouseButton::Middle, MouseButton::Right, MouseButton::Back, MouseButton::Forward]
}

/// Options for a mouse click.
#[derive(Debug, Clone, Copy)]
pub struct MouseClickOptions {
    pub button: MouseButton,
    pub count: u32,
    pub delay: Option<std::time::Duration>,
}

impl MouseClickOptions {
    /// One left click without delay.
    pub fn default_options() -> (r: MouseClickOptions)
        ensures
            r.button == MouseButton::Left,
            r.count == 1,
            r.delay is None,
    {
        MouseClickOptions { button: MouseButton::Left, count: 1, delay: None }
    }
}

/// How many times a click presses: the requested count, at least once.
pub fn click_count(options: &MouseClickOptions) -> (r: u32)
    ensures
        r == if options.count < 1 {
            1
        } else {
            options.count
        },
{
    if options.count < 1 {
        1
    } else {
        options.count
    }
}

/// Whether a touch has started.
#[derive(Debug, Clone, Copy)]
pub struct TouchState {
    pub started: bool,
}

impl TouchState {
    pub fn new() -> (r: TouchState)
        ensures
            !r.started,
    {
        TouchState { started: false }
    }

    /// Whether the touch may start: fails if it has already started.
    pub fn check_start(&self) -> (r: Result<(), Error>)
        ensures
            self.started ==> r is Err && r->Err_0 is Other && r->Err_0->Other_0@
                == "Touch already started"@,
            !self.started ==> r is Ok,
    {
        if self.started {
            return Err(Error::Other("Touch already started".to_owned()));
        }
        Ok(())
    }

    /// Record that the touch-start event was sent.
    pub fn mark_started(&mut self)
        ensures
            final(self).started,
    {
        self.started = true;
    }

    /// End the touch.
    pub fn end(&mut self)
        ensures
            !final(self).started,
    {
        self.started = false;
    }
}

} // verus!

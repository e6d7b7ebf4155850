//! US keyboard layout: key names and the key descriptions that the
//! protocol's key events carry.
use vstd::prelude::*;

use crate::keyed::str_eq;

verus! {

/// Raw definition of a key.
#[derive(Debug, Clone, Copy)]
pub struct KeyDefinition {
    pub key_code: i64,
    pub shift_key_code: Option<i64>,
    pub key: &'static str,
    pub shift_key: Option<&'static str>,
    pub code: Option<&'static str>,
    pub text: Option<&'static str>,
    pub shift_text: Option<&'static str>,
    pub location: i64,
}

/// Resolved description after applying modifier state.
#[derive(Debug)]
pub struct KeyDescription {
    pub key_code: i64,
    pub key: String,
    pub text: String,
    pub code: String,
    pub location: i64,
}

/// What a [`KeyDescription`] stands for.
pub struct KeyDescriptionView {
    pub key_code: i64,
    pub key: Seq<char>,
    pub text: Seq<char>,
    pub code: Seq<char>,
    pub location: i64,
}

impl View for KeyDescription {
    type V = KeyDescriptionView;

    open spec fn view(&self) -> KeyDescriptionView {
        KeyDescriptionView {
            key_code: self.key_code,
            key: self.key@,
            text: self.text@,
            code: self.code@,
            location: self.location,
        }
    }
}

/// Modifier bitmask constants.
pub const MODIFIER_ALT: i64 = 1;

pub const MODIFIER_CONTROL: i64 = 2;

pub const MODIFIER_META: i64 = 4;

pub const MODIFIER_SHIFT: i64 = 8;

/// The layout: each key name with its definition, no name twice.
pub open spec fn key_definitions() -> Seq<(&'static str, KeyDefinition)> {
    seq![
        ("0", KeyDefinition { key_code: 48, shift_key_code: None, key: "0", shift_key: None, code: Some("Digit0"), text: None, shift_text: None, location: 0 }),
        ("1", KeyDefinition { key_code: 49, shift_key_code: None, key: "1", shift_key: None, code: Some("Digit1"), text: None, shift_text: None, location: 0 }),
        ("2", KeyDefinition { key_code: 50, shift_key_code: None, key: "2", shift_key: None, code: Some("Digit2"), text: None, shift_text: None, location: 0 }),
        ("3", KeyDefinition { key_code: 51, shift_key_code: None, key: "3", shift_key: None, code: Some("Digit3"), text: None, shift_text: None, location: 0 }),
        ("4", KeyDefinition { key_code: 52, shift_key_code: None, key: "4", shift_key: None, code: Some("Digit4"), text: None, shift_text: None, location: 0 }),
        ("5", KeyDefinition { key_code: 53, shift_key_code: None, key: "5", shift_key: None, code: Some("Digit5"), text: None, shift_text: None, location: 0 }),
        ("6", KeyDefinition { key_code: 54, shift_key_code: None, key: "6", shift_key: None, code: Some("Digit6"), text: None, shift_text: None, location: 0 }),
        ("7", KeyDefinition { key_code: 55, shift_key_code: None, key: "7", shift_key: None, code: Some("Digit7"), text: None, shift_text: None, location: 0 }),
        ("8", KeyDefinition { key_code: 56, shift_key_code: None, key: "8", shift_key: None, code: Some("Digit8"), text: None, shift_text: None, location: 0 }),
        ("9", KeyDefinition { key_code: 57, shift_key_code: None, key: "9", shift_key: None, code: Some("Digit9"), text: None, shift_text: None, location: 0 }),
        ("Power", KeyDefinition { key_code: 0, shift_key_code: None, key: "Power", shift_key: None, code: Some("Power"), text: None, shift_text: None, location: 0 }),
        ("Eject", KeyDefinition { key_code: 0, shift_key_code: None, key: "Eject", shift_key: None, code: Some("Eject"), text: None, shift_text: None, location: 0 }),
        ("Abort", KeyDefinition { key_code: 3, shift_key_code: None, key: "Cancel", shift_key: None, code: Some("Abort"), text: None, shift_text: None, location: 0 }),
        ("Help", KeyDefinition { key_code: 6, shift_key_code: None, key: "Help", shift_key: None, code: Some("Help"), text: None, shift_text: None, location: 0 }),
        ("Backspace", KeyDefinition { key_code: 8, shift_key_code: None, key: "Backspace", shift_key: None, code: Some("Backspace"), text: None, shift_text: None, location: 0 }),
        ("Tab", KeyDefinition { key_code: 9, shift_key_code: None, key: "Tab", shift_key: None, code: Some("Tab"), text: None, shift_text: None, location: 0 }),
        ("Numpad5", KeyDefinition { key_code: 12, shift_key_code: Some(101), key: "Clear", shift_key: Some("5"), code: Some("Numpad5"), text: None, shift_text: None, location: 3 }),
        ("NumpadEnter", KeyDefinition { key_code: 13, shift_key_code: None, key: "Enter", shift_key: None, code: Some("NumpadEnter"), text: Some("\r"), shift_text: None, location: 3 }),
        ("Enter", KeyDefinition { key_code: 13, shift_key_code: None, key: "Enter", shift_key: None, code: Some("Enter"), text: Some("\r"), shift_text: None, location: 0 }),
        ("\r", KeyDefinition { key_code: 13, shift_key_code: None, key: "Enter", shift_key: None, code: Some("Enter"), text: Some("\r"), shift_text: None, location: 0 }),
        ("\n", KeyDefinition { key_code: 13, shift_key_code: None, key: "Enter", shift_key: None, code: Some("Enter"), text: Some("\r"), shift_text: None, location: 0 }),
        ("ShiftLeft", KeyDefinition { key_code: 16, shift_key_code: None, key: "Shift", shift_key: None, code: Some("ShiftLeft"), text: None, shift_text: None, location: 1 }),
        ("ShiftRight", KeyDefinition { key_code: 16, shift_key_code: None, key: "Shift", shift_key: None, code: Some("ShiftRight"), text: None, shift_text: None, location: 2 }),
        ("ControlLeft", KeyDefinition { key_code: 17, shift_key_code: None, key: "Control", shift_key: None, code: Some("ControlLeft"), text: None, shift_text: None, location: 1 }),
        ("ControlRight", KeyDefinition { key_code: 17, shift_key_code: None, key: "Control", shift_key: None, code: Some("ControlRight"), text: None, shift_text: None, location: 2 }),
        ("AltLeft", KeyDefinition { key_code: 18, shift_key_code: None, key: "Alt", shift_key: None, code: Some("AltLeft"), text: None, shift_text: None, location: 1 }),
        ("AltRight", KeyDefinition { key_code: 18, shift_key_code: None, key: "Alt", shift_key: None, code: Some("AltRight"), text: None, shift_text: None, location: 2 }),
        ("Pause", KeyDefinition { key_code: 19, shift_key_code: None, key: "Pause", shift_key: None, code: Some("Pause"), text: None, shift_text: None, location: 0 }),
        ("CapsLock", KeyDefinition { key_code: 20, shift_key_code: None, key: "CapsLock", shift_key: None, code: Some("CapsLock"), text: None, shift_text: None, location: 0 }),
        ("Escape", KeyDefinition { key_code: 27, shift_key_code: None, key: "Escape", shift_key: None, code: Some("Escape"), text: None, shift_text: None, location: 0 }),
        ("Convert", KeyDefinition { key_code: 28, shift_key_code: None, key: "Convert", shift_key: None, code: Some("Convert"), text: None, shift_text: None, location: 0 }),
        ("NonConvert", KeyDefinition { key_code: 29, shift_key_code: None, key: "NonConvert", shift_key: None, code: Some("NonConvert"), text: None, shift_text: None, location: 0 }),
        ("Space", KeyDefinition { key_code: 32, shift_key_code: None, key: " ", shift_key: None, code: Some("Space"), text: None, shift_text: None, location: 0 }),
        ("Numpad9", KeyDefinition { key_code: 33, shift_key_code: Some(105), key: "PageUp", shift_key: Some("9"), code: Some("Numpad9"), text: None, shift_text: None, location: 3 }),
        ("PageUp", KeyDefinition { key_code: 33, shift_key_code: None, key: "PageUp", shift_key: None, code: Some("PageUp"), text: None, shift_text: None, location: 0 }),
        ("Numpad3", KeyDefinition { key_code: 34, shift_key_code: Some(99), key: "PageDown", shift_key: Some("3"), code: Some("Numpad3"), text: None, shift_text: None, location: 3 }),
        ("PageDown", KeyDefinition { key_code: 34, shift_key_code: None, key: "PageDown", shift_key: None, code: Some("PageDown"), text: None, shift_text: None, location: 0 }),
        ("End", KeyDefinition { key_code: 35, shift_key_code: None, key: "End", shift_key: None, code: Some("End"), text: None, shift_text: None, location: 0 }),
        ("Numpad1", KeyDefinition { key_code: 35, shift_key_code: Some(97), key: "End", shift_key: Some("1"), code: Some("Numpad1"), text: None, shift_text: None, location: 3 }),
        ("Home", KeyDefinition { key_code: 36, shift_key_code: None, key: "Home", shift_key: None, code: Some("Home"), text: None, shift_text: None, location: 0 }),
        ("Numpad7", KeyDefinition { key_code: 36, shift_key_code: Some(103), key: "Home", shift_key: Some("7"), code: Some("Numpad7"), text: None, shift_text: None, location: 3 }),
        ("ArrowLeft", KeyDefinition { key_code: 37, shift_key_code: None, key: "ArrowLeft", shift_key: None, code: Some("ArrowLeft"), text: None, shift_text: None, location: 0 }),
        ("Numpad4", KeyDefinition { key_code: 37, shift_key_code: Some(100), key: "ArrowLeft", shift_key: Some("4"), code: Some("Numpad4"), text: None, shift_text: None, location: 3 }),
        ("Numpad8", KeyDefinition { key_code: 38, shift_key_code: Some(104), key: "ArrowUp", shift_key: Some("8"), code: Some("Numpad8"), text: None, shift_text: None, location: 3 }),
        ("ArrowUp", KeyDefinition { key_code: 38, shift_key_code: None, key: "ArrowUp", shift_key: None, code: Some("ArrowUp"), text: None, shift_text: None, location: 0 }),
        ("ArrowRight", KeyDefinition { key_code: 39, shift_key_code: None, key: "ArrowRight", shift_key: None, code: Some("ArrowRight"), text: None, shift_text: None, location: 0 }),
        ("Numpad6", KeyDefinition { key_code: 39, shift_key_code: Some(102), key: "ArrowRight", shift_key: Some("6"), code: Some("Numpad6"), text: None, shift_text: None, location: 3 }),
        ("Numpad2", KeyDefinition { key_code: 40, shift_key_code: Some(98), key: "ArrowDown", shift_key: Some("2"), code: Some("Numpad2"), text: None, shift_text: None, location: 3 }),
        ("ArrowDown", KeyDefinition { key_code: 40, shift_key_code: None, key: "ArrowDown", shift_key: None, code: Some("ArrowDown"), text: None, shift_text: None, location: 0 }),
        ("Select", KeyDefinition { key_code: 41, shift_key_code: None, key: "Select", shift_key: None, code: Some("Select"), text: None, shift_text: None, location: 0 }),
        ("Open", KeyDefinition { key_code: 43, shift_key_code: None, key: "Execute", shift_key: None, code: Some("Open"), text: None, shift_text: None, location: 0 }),
        ("PrintScreen", KeyDefinition { key_code: 44, shift_key_code: None, key: "PrintScreen", shift_key: None, code: Some("PrintScreen"), text: None, shift_text: None, location: 0 }),
        ("Insert", KeyDefinition { key_code: 45, shift_key_code: None, key: "Insert", shift_key: None, code: Some("Insert"), text: None, shift_text: None, location: 0 }),
        ("Numpad0", KeyDefinition { key_code: 45, shift_key_code: Some(96), key: "Insert", shift_key: Some("0"), code: Some("Numpad0"), text: None, shift_text: None, location: 3 }),
        ("Delete", KeyDefinition { key_code: 46, shift_key_code: None, key: "Delete", shift_key: None, code: Some("Delete"), text: None, shift_text: None, location: 0 }),
        ("NumpadDecimal", KeyDefinition { key_code: 46, shift_key_code: Some(110), key: "\u{0000}", shift_key: Some("."), code: Some("NumpadDecimal"), text: None, shift_text: None, location: 3 }),
        ("Digit0", KeyDefinition { key_code: 48, shift_key_code: None, key: "0", shift_key: Some(")"), code: Some("Digit0"), text: None, shift_text: None, location: 0 }),
        ("Digit1", KeyDefinition { key_code: 49, shift_key_code: None, key: "1", shift_key: Some("!"), code: Some("Digit1"), text: None, shift_text: None, location: 0 }),
        ("Digit2", KeyDefinition { key_code: 50, shift_key_code: None, key: "2", shift_key: Some("@"), code: Some("Digit2"), text: None, shift_text: None, location: 0 }),
        ("Digit3", KeyDefinition { key_code: 51, shift_key_code: None, key: "3", shift_key: Some("#"), code: Some("Digit3"), text: None, shift_text: None, location: 0 }),
        ("Digit4", KeyDefinition { key_code: 52, shift_key_code: None, key: "4", shift_key: Some("$"), code: Some("Digit4"), text: None, shift_text: None, location: 0 }),
        ("Digit5", KeyDefinition { key_code: 53, shift_key_code: None, key: "5", shift_key: Some("%"), code: Some("Digit5"), text: None, shift_text: None, location: 0 }),
        ("Digit6", KeyDefinition { key_code: 54, shift_key_code: None, key: "6", shift_key: Some("^"), code: Some("Digit6"), text: None, shift_text: None, location: 0 }),
        ("Digit7", KeyDefinition { key_code: 55, shift_key_code: None, key: "7", shift_key: Some("&"), code: Some("Digit7"), text: None, shift_text: None, location: 0 }),
        ("Digit8", KeyDefinition { key_code: 56, shift_key_code: None, key: "8", shift_key: Some("*"), code: Some("Digit8"), text: None, shift_text: None, location: 0 }),
        ("Digit9", KeyDefinition { key_code: 57, shift_key_code: None, key: "9", shift_key: Some("("), code: Some("Digit9"), text: None, shift_text: None, location: 0 }),
        ("KeyA", KeyDefinition { key_code: 65, shift_key_code: None, key: "a", shift_key: Some("A"), code: Some("KeyA"), text: None, shift_text: None, location: 0 }),
        ("KeyB", KeyDefinition { key_code: 66, shift_key_code: None, key: "b", shift_key: Some("B"), code: Some("KeyB"), text: None, shift_text: None, location: 0 }),
        ("KeyC", KeyDefinition { key_code: 67, shift_key_code: None, key: "c", shift_key: Some("C"), code: Some("KeyC"), text: None, shift_text: None, location: 0 }),
        ("KeyD", KeyDefinition { key_code: 68, shift_key_code: None, key: "d", shift_key: Some("D"), code: Some("KeyD"), text: None, shift_text: None, location: 0 }),
        ("KeyE", KeyDefinition { key_code: 69, shift_key_code: None, key: "e", shift_key: Some("E"), code: Some("KeyE"), text: None, shift_text: None, location: 0 }),
        ("KeyF", KeyDefinition { key_code: 70, shift_key_code: None, key: "f", shift_key: Some("F"), code: Some("KeyF"), text: None, shift_text: None, location: 0 }),
        ("KeyG", KeyDefinition { key_code: 71, shift_key_code: None, key: "g", shift_key: Some("G"), code: Some("KeyG"), text: None, shift_text: None, location: 0 }),
        ("KeyH", KeyDefinition { key_code: 72, shift_key_code: None, key: "h", shift_key: Some("H"), code: Some("KeyH"), text: None, shift_text: None, location: 0 }),
        ("KeyI", KeyDefinition { key_code: 73, shift_key_code: None, key: "i", shift_key: Some("I"), code: Some("KeyI"), text: None, shift_text: None, location: 0 }),
        ("KeyJ", KeyDefinition { key_code: 74, shift_key_code: None, key: "j", shift_key: Some("J"), code: Some("KeyJ"), text: None, shift_text: None, location: 0 }),
        ("KeyK", KeyDefinition { key_code: 75, shift_key_code: None, key: "k", shift_key: Some("K"), code: Some("KeyK"), text: None, shift_text: None, location: 0 }),
        ("KeyL", KeyDefinition { key_code: 76, shift_key_code: None, key: "l", shift_key: Some("L"), code: Some("KeyL"), text: None, shift_text: None, location: 0 }),
        ("KeyM", KeyDefinition { key_code: 77, shift_key_code: None, key: "m", shift_key: Some("M"), code: Some("KeyM"), text: None, shift_text: None, location: 0 }),
        ("KeyN", KeyDefinition { key_code: 78, shift_key_code: None, key: "n", shift_key: Some("N"), code: Some("KeyN"), text: None, shift_text: None, location: 0 }),
        ("KeyO", KeyDefinition { key_code: 79, shift_key_code: None, key: "o", shift_key: Some("O"), code: Some("KeyO"), text: None, shift_text: None, location: 0 }),
        ("KeyP", KeyDefinition { key_code: 80, shift_key_code: None, key: "p", shift_key: Some("P"), code: Some("KeyP"), text: None, shift_text: None, location: 0 }),
        ("KeyQ", KeyDefinition { key_code: 81, shift_key_code: None, key: "q", shift_key: Some("Q"), code: Some("KeyQ"), text: None, shift_text: None, location: 0 }),
        ("KeyR", KeyDefinition { key_code: 82, shift_key_code: None, key: "r", shift_key: Some("R"), code: Some("KeyR"), text: None, shift_text: None, location: 0 }),
        ("KeyS", KeyDefinition { key_code: 83, shift_key_code: None, key: "s", shift_key: Some("S"), code: Some("KeyS"), text: None, shift_text: None, location: 0 }),
        ("KeyT", KeyDefinition { key_code: 84, shift_key_code: None, key: "t", shift_key: Some("T"), code: Some("KeyT"), text: None, shift_text: None, location: 0 }),
        ("KeyU", KeyDefinition { key_code: 85, shift_key_code: None, key: "u", shift_key: Some("U"), code: Some("KeyU"), text: None, shift_text: None, location: 0 }),
        ("KeyV", KeyDefinition { key_code: 86, shift_key_code: None, key: "v", shift_key: Some("V"), code: Some("KeyV"), text: None, shift_text: None, location: 0 }),
        ("KeyW", KeyDefinition { key_code: 87, shift_key_code: None, key: "w", shift_key: Some("W"), code: Some("KeyW"), text: None, shift_text: None, location: 0 }),
        ("KeyX", KeyDefinition { key_code: 88, shift_key_code: None, key: "x", shift_key: Some("X"), code: Some("KeyX"), text: None, shift_text: None, location: 0 }),
        ("KeyY", KeyDefinition { key_code: 89, shift_key_code: None, key: "y", shift_key: Some("Y"), code: Some("KeyY"), text: None, shift_text: None, location: 0 }),
        ("KeyZ", KeyDefinition { key_code: 90, shift_key_code: None, key: "z", shift_key: Some("Z"), code: Some("KeyZ"), text: None, shift_text: None, location: 0 }),
        ("MetaLeft", KeyDefinition { key_code: 91, shift_key_code: None, key: "Meta", shift_key: None, code: Some("MetaLeft"), text: None, shift_text: None, location: 1 }),
        ("MetaRight", KeyDefinition { key_code: 92, shift_key_code: None, key: "Meta", shift_key: None, code: Some("MetaRight"), text: None, shift_text: None, location: 2 }),
        ("ContextMenu", KeyDefinition { key_code: 93, shift_key_code: None, key: "ContextMenu", shift_key: None, code: Some("ContextMenu"), text: None, shift_text: None, location: 0 }),
        ("NumpadMultiply", KeyDefinition { key_code: 106, shift_key_code: None, key: "*", shift_key: None, code: Some("NumpadMultiply"), text: None, shift_text: None, location: 3 }),
        ("NumpadAdd", KeyDefinition { key_code: 107, shift_key_code: None, key: "+", shift_key: None, code: Some("NumpadAdd"), text: None, shift_text: None, location: 3 }),
        ("NumpadSubtract", KeyDefinition { key_code: 109, shift_key_code: None, key: "-", shift_key: None, code: Some("NumpadSubtract"), text: None, shift_text: None, location: 3 }),
        ("NumpadDivide", KeyDefinition { key_code: 111, shift_key_code: None, key: "/", shift_key: None, code: Some("NumpadDivide"), text: None, shift_text: None, location: 3 }),
        ("F1", KeyDefinition { key_code: 112, shift_key_code: None, key: "F1", shift_key: None, code: Some("F1"), text: None, shift_text: None, location: 0 }),
        ("F2", KeyDefinition { key_code: 113, shift_key_code: None, key: "F2", shift_key: None, code: Some("F2"), text: None, shift_text: None, location: 0 }),
        ("F3", KeyDefinition { key_code: 114, shift_key_code: None, key: "F3", shift_key: None, code: Some("F3"), text: None, shift_text: None, location: 0 }),
        ("F4", KeyDefinition { key_code: 115, shift_key_code: None, key: "F4", shift_key: None, code: Some("F4"), text: None, shift_text: None, location: 0 }),
        ("F5", KeyDefinition { key_code: 116, shift_key_code: None, key: "F5", shift_key: None, code: Some("F5"), text: None, shift_text: None, location: 0 }),
        ("F6", KeyDefinition { key_code: 117, shift_key_code: None, key: "F6", shift_key: None, code: Some("F6"), text: None, shift_text: None, location: 0 }),
        ("F7", KeyDefinition { key_code: 118, shift_key_code: None, key: "F7", shift_key: None, code: Some("F7"), text: None, shift_text: None, location: 0 }),
        ("F8", KeyDefinition { key_code: 119, shift_key_code: None, key: "F8", shift_key: None, code: Some("F8"), text: None, shift_text: None, location: 0 }),
        ("F9", KeyDefinition { key_code: 120, shift_key_code: None, key: "F9", shift_key: None, code: Some("F9"), text: None, shift_text: None, location: 0 }),
        ("F10", KeyDefinition { key_code: 121, shift_key_code: None, key: "F10", shift_key: None, code: Some("F10"), text: None, shift_text: None, location: 0 }),
        ("F11", KeyDefinition { key_code: 122, shift_key_code: None, key: "F11", shift_key: None, code: Some("F11"), text: None, shift_text: None, location: 0 }),
        ("F12", KeyDefinition { key_code: 123, shift_key_code: None, key: "F12", shift_key: None, code: Some("F12"), text: None, shift_text: None, location: 0 }),
        ("F13", KeyDefinition { key_code: 124, shift_key_code: None, key: "F13", shift_key: None, code: Some("F13"), text: None, shift_text: None, location: 0 }),
        ("F14", KeyDefinition { key_code: 125, shift_key_code: None, key: "F14", shift_key: None, code: Some("F14"), text: None, shift_text: None, location: 0 }),
        ("F15", KeyDefinition { key_code: 126, shift_key_code: None, key: "F15", shift_key: None, code: Some("F15"), text: None, shift_text: None, location: 0 }),
        ("F16", KeyDefinition { key_code: 127, shift_key_code: None, key: "F16", shift_key: None, code: Some("F16"), text: None, shift_text: None, location: 0 }),
        ("F17", KeyDefinition { key_code: 128, shift_key_code: None, key: "F17", shift_key: None, code: Some("F17"), text: None, shift_text: None, location: 0 }),
        ("F18", KeyDefinition { key_code: 129, shift_key_code: None, key: "F18", shift_key: None, code: Some("F18"), text: None, shift_text: None, location: 0 }),
        ("F19", KeyDefinition { key_code: 130, shift_key_code: None, key: "F19", shift_key: None, code: Some("F19"), text: None, shift_text: None, location: 0 }),
        ("F20", KeyDefinition { key_code: 131, shift_key_code: None, key: "F20", shift_key: None, code: Some("F20"), text: None, shift_text: None, location: 0 }),
        ("F21", KeyDefinition { key_code: 132, shift_key_code: None, key: "F21", shift_key: None, code: Some("F21"), text: None, shift_text: None, location: 0 }),
        ("F22", KeyDefinition { key_code: 133, shift_key_code: None, key: "F22", shift_key: None, code: Some("F22"), text: None, shift_text: None, location: 0 }),
        ("F23", KeyDefinition { key_code: 134, shift_key_code: None, key: "F23", shift_key: None, code: Some("F23"), text: None, shift_text: None, location: 0 }),
        ("F24", KeyDefinition { key_code: 135, shift_key_code: None, key: "F24", shift_key: None, code: Some("F24"), text: None, shift_text: None, location: 0 }),
        ("NumLock", KeyDefinition { key_code: 144, shift_key_code: None, key: "NumLock", shift_key: None, code: Some("NumLock"), text: None, shift_text: None, location: 0 }),
        ("ScrollLock", KeyDefinition { key_code: 145, shift_key_code: None, key: "ScrollLock", shift_key: None, code: Some("ScrollLock"), text: None, shift_text: None, location: 0 }),
        ("AudioVolumeMute", KeyDefinition { key_code: 173, shift_key_code: None, key: "AudioVolumeMute", shift_key: None, code: Some("AudioVolumeMute"), text: None, shift_text: None, location: 0 }),
        ("AudioVolumeDown", KeyDefinition { key_code: 174, shift_key_code: None, key: "AudioVolumeDown", shift_key: None, code: Some("AudioVolumeDown"), text: None, shift_text: None, location: 0 }),
        ("AudioVolumeUp", KeyDefinition { key_code: 175, shift_key_code: None, key: "AudioVolumeUp", shift_key: None, code: Some("AudioVolumeUp"), text: None, shift_text: None, location: 0 }),
        ("MediaTrackNext", KeyDefinition { key_code: 176, shift_key_code: None, key: "MediaTrackNext", shift_key: None, code: Some("MediaTrackNext"), text: None, shift_text: None, location: 0 }),
        ("MediaTrackPrevious", KeyDefinition { key_code: 177, shift_key_code: None, key: "MediaTrackPrevious", shift_key: None, code: Some("MediaTrackPrevious"), text: None, shift_text: None, location: 0 }),
        ("MediaStop", KeyDefinition { key_code: 178, shift_key_code: None, key: "MediaStop", shift_key: None, code: Some("MediaStop"), text: None, shift_text: None, location: 0 }),
        ("MediaPlayPause", KeyDefinition { key_code: 179, shift_key_code: None, key: "MediaPlayPause", shift_key: None, code: Some("MediaPlayPause"), text: None, shift_text: None, location: 0 }),
        ("Semicolon", KeyDefinition { key_code: 186, shift_key_code: None, key: ";", shift_key: Some(":"), code: Some("Semicolon"), text: None, shift_text: None, location: 0 }),
        ("Equal", KeyDefinition { key_code: 187, shift_key_code: None, key: "=", shift_key: Some("+"), code: Some("Equal"), text: None, shift_text: None, location: 0 }),
        ("NumpadEqual", KeyDefinition { key_code: 187, shift_key_code: None, key: "=", shift_key: None, code: Some("NumpadEqual"), text: None, shift_text: None, location: 3 }),
        ("Comma", KeyDefinition { key_code: 188, shift_key_code: None, key: ",", shift_key: Some("<"), code: Some("Comma"), text: None, shift_text: None, location: 0 }),
        ("Minus", KeyDefinition { key_code: 189, shift_key_code: None, key: "-", shift_key: Some("_"), code: Some("Minus"), text: None, shift_text: None, location: 0 }),
        ("Period", KeyDefinition { key_code: 190, shift_key_code: None, key: ".", shift_key: Some(">"), code: Some("Period"), text: None, shift_text: None, location: 0 }),
        ("Slash", KeyDefinition { key_code: 191, shift_key_code: None, key: "/", shift_key: Some("?"), code: Some("Slash"), text: None, shift_text: None, location: 0 }),
        ("Backquote", KeyDefinition { key_code: 192, shift_key_code: None, key: "`", shift_key: Some("~"), code: Some("Backquote"), text: None, shift_text: None, location: 0 }),
        ("BracketLeft", KeyDefinition { key_code: 219, shift_key_code: None, key: "[", shift_key: Some("{"), code: Some("BracketLeft"), text: None, shift_text: None, location: 0 }),
        ("Backslash", KeyDefinition { key_code: 220, shift_key_code: None, key: "\\", shift_key: Some("|"), code: Some("Backslash"), text: None, shift_text: None, location: 0 }),
        ("BracketRight", KeyDefinition { key_code: 221, shift_key_code: None, key: "]", shift_key: Some("}"), code: Some("BracketRight"), text: None, shift_text: None, location: 0 }),
        ("Quote", KeyDefinition { key_code: 222, shift_key_code: None, key: "'", shift_key: Some("\""), code: Some("Quote"), text: None, shift_text: None, location: 0 }),
        ("AltGraph", KeyDefinition { key_code: 225, shift_key_code: None, key: "AltGraph", shift_key: None, code: Some("AltGraph"), text: None, shift_text: None, location: 0 }),
        ("Props", KeyDefinition { key_code: 247, shift_key_code: None, key: "CrSel", shift_key: None, code: Some("Props"), text: None, shift_text: None, location: 0 }),
        ("Cancel", KeyDefinition { key_code: 3, shift_key_code: None, key: "Cancel", shift_key: None, code: Some("Abort"), text: None, shift_text: None, location: 0 }),
        ("Clear", KeyDefinition { key_code: 12, shift_key_code: None, key: "Clear", shift_key: None, code: Some("Numpad5"), text: None, shift_text: None, location: 3 }),
        ("Shift", KeyDefinition { key_code: 16, shift_key_code: None, key: "Shift", shift_key: None, code: Some("ShiftLeft"), text: None, shift_text: None, location: 1 }),
        ("Control", KeyDefinition { key_code: 17, shift_key_code: None, key: "Control", shift_key: None, code: Some("ControlLeft"), text: None, shift_text: None, location: 1 }),
        ("Alt", KeyDefinition { key_code: 18, shift_key_code: None, key: "Alt", shift_key: None, code: Some("AltLeft"), text: None, shift_text: None, location: 1 }),
        ("Accept", KeyDefinition { key_code: 30, shift_key_code: None, key: "Accept", shift_key: None, code: None, text: None, shift_text: None, location: 0 }),
        ("ModeChange", KeyDefinition { key_code: 31, shift_key_code: None, key: "ModeChange", shift_key: None, code: None, text: None, shift_text: None, location: 0 }),
        (" ", KeyDefinition { key_code: 32, shift_key_code: None, key: " ", shift_key: None, code: Some("Space"), text: None, shift_text: None, location: 0 }),
        ("Print", KeyDefinition { key_code: 42, shift_key_code: None, key: "Print", shift_key: None, code: None, text: None, shift_text: None, location: 0 }),
        ("Execute", KeyDefinition { key_code: 43, shift_key_code: None, key: "Execute", shift_key: None, code: Some("Open"), text: None, shift_text: None, location: 0 }),
        ("\u{0000}", KeyDefinition { key_code: 46, shift_key_code: None, key: "\u{0000}", shift_key: None, code: Some("NumpadDecimal"), text: None, shift_text: None, location: 3 }),
        ("a", KeyDefinition { key_code: 65, shift_key_code: None, key: "a", shift_key: None, code: Some("KeyA"), text: None, shift_text: None, location: 0 }),
        ("b", KeyDefinition { key_code: 66, shift_key_code: None, key: "b", shift_key: None, code: Some("KeyB"), text: None, shift_text: None, location: 0 }),
        ("c", KeyDefinition { key_code: 67, shift_key_code: None, key: "c", shift_key: None, code: Some("KeyC"), text: None, shift_text: None, location: 0 }),
        ("d", KeyDefinition { key_code: 68, shift_key_code: None, key: "d", shift_key: None, code: Some("KeyD"), text: None, shift_text: None, location: 0 }),
        ("e", KeyDefinition { key_code: 69, shift_key_code: None, key: "e", shift_key: None, code: Some("KeyE"), text: None, shift_text: None, location: 0 }),
        ("f", KeyDefinition { key_code: 70, shift_key_code: None, key: "f", shift_key: None, code: Some("KeyF"), text: None, shift_text: None, location: 0 }),
        ("g", KeyDefinition { key_code: 71, shift_key_code: None, key: "g", shift_key: None, code: Some("KeyG"), text: None, shift_text: None, location: 0 }),
        ("h", KeyDefinition { key_code: 72, shift_key_code: None, key: "h", shift_key: None, code: Some("KeyH"), text: None, shift_text: None, location: 0 }),
        ("i", KeyDefinition { key_code: 73, shift_key_code: None, key: "i", shift_key: None, code: Some("KeyI"), text: None, shift_text: None, location: 0 }),
        ("j", KeyDefinition { key_code: 74, shift_key_code: None, key: "j", shift_key: None, code: Some("KeyJ"), text: None, shift_text: None, location: 0 }),
        ("k", KeyDefinition { key_code: 75, shift_key_code: None, key: "k", shift_key: None, code: Some("KeyK"), text: None, shift_text: None, location: 0 }),
        ("l", KeyDefinition { key_code: 76, shift_key_code: None, key: "l", shift_key: None, code: Some("KeyL"), text: None, shift_text: None, location: 0 }),
        ("m", KeyDefinition { key_code: 77, shift_key_code: None, key: "m", shift_key: None, code: Some("KeyM"), text: None, shift_text: None, location: 0 }),
        ("n", KeyDefinition { key_code: 78, shift_key_code: None, key: "n", shift_key: None, code: Some("KeyN"), text: None, shift_text: None, location: 0 }),
        ("o", KeyDefinition { key_code: 79, shift_key_code: None, key: "o", shift_key: None, code: Some("KeyO"), text: None, shift_text: None, location: 0 }),
        ("p", KeyDefinition { key_code: 80, shift_key_code: None, key: "p", shift_key: None, code: Some("KeyP"), text: None, shift_text: None, location: 0 }),
        ("q", KeyDefinition { key_code: 81, shift_key_code: None, key: "q", shift_key: None, code: Some("KeyQ"), text: None, shift_text: None, location: 0 }),
        ("r", KeyDefinition { key_code: 82, shift_key_code: None, key: "r", shift_key: None, code: Some("KeyR"), text: None, shift_text: None, location: 0 }),
        ("s", KeyDefinition { key_code: 83, shift_key_code: None, key: "s", shift_key: None, code: Some("KeyS"), text: None, shift_text: None, location: 0 }),
        ("t", KeyDefinition { key_code: 84, shift_key_code: None, key: "t", shift_key: None, code: Some("KeyT"), text: None, shift_text: None, location: 0 }),
        ("u", KeyDefinition { key_code: 85, shift_key_code: None, key: "u", shift_key: None, code: Some("KeyU"), text: None, shift_text: None, location: 0 }),
        ("v", KeyDefinition { key_code: 86, shift_key_code: None, key: "v", shift_key: None, code: Some("KeyV"), text: None, shift_text: None, location: 0 }),
        ("w", KeyDefinition { key_code: 87, shift_key_code: None, key: "w", shift_key: None, code: Some("KeyW"), text: None, shift_text: None, location: 0 }),
        ("x", KeyDefinition { key_code: 88, shift_key_code: None, key: "x", shift_key: None, code: Some("KeyX"), text: None, shift_text: None, location: 0 }),
        ("y", KeyDefinition { key_code: 89, shift_key_code: None, key: "y", shift_key: None, code: Some("KeyY"), text: None, shift_text: None, location: 0 }),
        ("z", KeyDefinition { key_code: 90, shift_key_code: None, key: "z", shift_key: None, code: Some("KeyZ"), text: None, shift_text: None, location: 0 }),
        ("Meta", KeyDefinition { key_code: 91, shift_key_code: None, key: "Meta", shift_key: None, code: Some("MetaLeft"), text: None, shift_text: None, location: 1 }),
        ("*", KeyDefinition { key_code: 106, shift_key_code: None, key: "*", shift_key: None, code: Some("NumpadMultiply"), text: None, shift_text: None, location: 3 }),
        ("+", KeyDefinition { key_code: 107, shift_key_code: None, key: "+", shift_key: None, code: Some("NumpadAdd"), text: None, shift_text: None, location: 3 }),
        ("-", KeyDefinition { key_code: 109, shift_key_code: None, key: "-", shift_key: None, code: Some("NumpadSubtract"), text: None, shift_text: None, location: 3 }),
        ("/", KeyDefinition { key_code: 111, shift_key_code: None, key: "/", shift_key: None, code: Some("NumpadDivide"), text: None, shift_text: None, location: 3 }),
        (";", KeyDefinition { key_code: 186, shift_key_code: None, key: ";", shift_key: None, code: Some("Semicolon"), text: None, shift_text: None, location: 0 }),
        ("=", KeyDefinition { key_code: 187, shift_key_code: None, key: "=", shift_key: None, code: Some("Equal"), text: None, shift_text: None, location: 0 }),
        (",", KeyDefinition { key_code: 188, shift_key_code: None, key: ",", shift_key: None, code: Some("Comma"), text: None, shift_text: None, location: 0 }),
        (".", KeyDefinition { key_code: 190, shift_key_code: None, key: ".", shift_key: None, code: Some("Period"), text: None, shift_text: None, location: 0 }),
        ("`", KeyDefinition { key_code: 192, shift_key_code: None, key: "`", shift_key: None, code: Some("Backquote"), text: None, shift_text: None, location: 0 }),
        ("[", KeyDefinition { key_code: 219, shift_key_code: None, key: "[", shift_key: None, code: Some("BracketLeft"), text: None, shift_text: None, location: 0 }),
        ("\\", KeyDefinition { key_code: 220, shift_key_code: None, key: "\\", shift_key: None, code: Some("Backslash"), text: None, shift_text: None, location: 0 }),
        ("]", KeyDefinition { key_code: 221, shift_key_code: None, key: "]", shift_key: None, code: Some("BracketRight"), text: None, shift_text: None, location: 0 }),
        ("'", KeyDefinition { key_code: 222, shift_key_code: None, key: "'", shift_key: None, code: Some("Quote"), text: None, shift_text: None, location: 0 }),
        ("Attn", KeyDefinition { key_code: 246, shift_key_code: None, key: "Attn", shift_key: None, code: None, text: None, shift_text: None, location: 0 }),
        ("CrSel", KeyDefinition { key_code: 247, shift_key_code: None, key: "CrSel", shift_key: None, code: Some("Props"), text: None, shift_text: None, location: 0 }),
        ("ExSel", KeyDefinition { key_code: 248, shift_key_code: None, key: "ExSel", shift_key: None, code: None, text: None, shift_text: None, location: 0 }),
        ("EraseEof", KeyDefinition { key_code: 249, shift_key_code: None, key: "EraseEof", shift_key: None, code: None, text: None, shift_text: None, location: 0 }),
        ("Play", KeyDefinition { key_code: 250, shift_key_code: None, key: "Play", shift_key: None, code: None, text: None, shift_text: None, location: 0 }),
        ("ZoomOut", KeyDefinition { key_code: 251, shift_key_code: None, key: "ZoomOut", shift_key: None, code: None, text: None, shift_text: None, location: 0 }),
        (")", KeyDefinition { key_code: 48, shift_key_code: None, key: ")", shift_key: None, code: Some("Digit0"), text: None, shift_text: None, location: 0 }),
        ("!", KeyDefinition { key_code: 49, shift_key_code: None, key: "!", shift_key: None, code: Some("Digit1"), text: None, shift_text: None, location: 0 }),
        ("@", KeyDefinition { key_code: 50, shift_key_code: None, key: "@", shift_key: None, code: Some("Digit2"), text: None, shift_text: None, location: 0 }),
        ("#", KeyDefinition { key_code: 51, shift_key_code: None, key: "#", shift_key: None, code: Some("Digit3"), text: None, shift_text: None, location: 0 }),
        ("$", KeyDefinition { key_code: 52, shift_key_code: None, key: "$", shift_key: None, code: Some("Digit4"), text: None, shift_text: None, location: 0 }),
        ("%", KeyDefinition { key_code: 53, shift_key_code: None, key: "%", shift_key: None, code: Some("Digit5"), text: None, shift_text: None, location: 0 }),
        ("^", KeyDefinition { key_code: 54, shift_key_code: None, key: "^", shift_key: None, code: Some("Digit6"), text: None, shift_text: None, location: 0 }),
        ("&", KeyDefinition { key_code: 55, shift_key_code: None, key: "&", shift_key: None, code: Some("Digit7"), text: None, shift_text: None, location: 0 }),
        ("(", KeyDefinition { key_code: 57, shift_key_code: None, key: "(", shift_key: None, code: Some("Digit9"), text: None, shift_text: None, location: 0 }),
        ("A", KeyDefinition { key_code: 65, shift_key_code: None, key: "A", shift_key: None, code: Some("KeyA"), text: None, shift_text: None, location: 0 }),
        ("B", KeyDefinition { key_code: 66, shift_key_code: None, key: "B", shift_key: None, code: Some("KeyB"), text: None, shift_text: None, location: 0 }),
        ("C", KeyDefinition { key_code: 67, shift_key_code: None, key: "C", shift_key: None, code: Some("KeyC"), text: None, shift_text: None, location: 0 }),
        ("D", KeyDefinition { key_code: 68, shift_key_code: None, key: "D", shift_key: None, code: Some("KeyD"), text: None, shift_text: None, location: 0 }),
        ("E", KeyDefinition { key_code: 69, shift_key_code: None, key: "E", shift_key: None, code: Some("KeyE"), text: None, shift_text: None, location: 0 }),
        ("F", KeyDefinition { key_code: 70, shift_key_code: None, key: "F", shift_key: None, code: Some("KeyF"), text: None, shift_text: None, location: 0 }),
        ("G", KeyDefinition { key_code: 71, shift_key_code: None, key: "G", shift_key: None, code: Some("KeyG"), text: None, shift_text: None, location: 0 }),
        ("H", KeyDefinition { key_code: 72, shift_key_code: None, key: "H", shift_key: None, code: Some("KeyH"), text: None, shift_text: None, location: 0 }),
        ("I", KeyDefinition { key_code: 73, shift_key_code: None, key: "I", shift_key: None, code: Some("KeyI"), text: None, shift_text: None, location: 0 }),
        ("J", KeyDefinition { key_code: 74, shift_key_code: None, key: "J", shift_key: None, code: Some("KeyJ"), text: None, shift_text: None, location: 0 }),
        ("K", KeyDefinition { key_code: 75, shift_key_code: None, key: "K", shift_key: None, code: Some("KeyK"), text: None, shift_text: None, location: 0 }),
        ("L", KeyDefinition { key_code: 76, shift_key_code: None, key: "L", shift_key: None, code: Some("KeyL"), text: None, shift_text: None, location: 0 }),
        ("M", KeyDefinition { key_code: 77, shift_key_code: None, key: "M", shift_key: None, code: Some("KeyM"), text: None, shift_text: None, location: 0 }),
        ("N", KeyDefinition { key_code: 78, shift_key_code: None, key: "N", shift_key: None, code: Some("KeyN"), text: None, shift_text: None, location: 0 }),
        ("O", KeyDefinition { key_code: 79, shift_key_code: None, key: "O", shift_key: None, code: Some("KeyO"), text: None, shift_text: None, location: 0 }),
        ("P", KeyDefinition { key_code: 80, shift_key_code: None, key: "P", shift_key: None, code: Some("KeyP"), text: None, shift_text: None, location: 0 }),
        ("Q", KeyDefinition { key_code: 81, shift_key_code: None, key: "Q", shift_key: None, code: Some("KeyQ"), text: None, shift_text: None, location: 0 }),
        ("R", KeyDefinition { key_code: 82, shift_key_code: None, key: "R", shift_key: None, code: Some("KeyR"), text: None, shift_text: None, location: 0 }),
        ("S", KeyDefinition { key_code: 83, shift_key_code: None, key: "S", shift_key: None, code: Some("KeyS"), text: None, shift_text: None, location: 0 }),
        ("T", KeyDefinition { key_code: 84, shift_key_code: None, key: "T", shift_key: None, code: Some("KeyT"), text: None, shift_text: None, location: 0 }),
        ("U", KeyDefinition { key_code: 85, shift_key_code: None, key: "U", shift_key: None, code: Some("KeyU"), text: None, shift_text: None, location: 0 }),
        ("V", KeyDefinition { key_code: 86, shift_key_code: None, key: "V", shift_key: None, code: Some("KeyV"), text: None, shift_text: None, location: 0 }),
        ("W", KeyDefinition { key_code: 87, shift_key_code: None, key: "W", shift_key: None, code: Some("KeyW"), text: None, shift_text: None, location: 0 }),
        ("X", KeyDefinition { key_code: 88, shift_key_code: None, key: "X", shift_key: None, code: Some("KeyX"), text: None, shift_text: None, location: 0 }),
        ("Y", KeyDefinition { key_code: 89, shift_key_code: None, key: "Y", shift_key: None, code: Some("KeyY"), text: None, shift_text: None, location: 0 }),
        ("Z", KeyDefinition { key_code: 90, shift_key_code: None, key: "Z", shift_key: None, code: Some("KeyZ"), text: None, shift_text: None, location: 0 }),
        (":", KeyDefinition { key_code: 186, shift_key_code: None, key: ":", shift_key: None, code: Some("Semicolon"), text: None, shift_text: None, location: 0 }),
        ("<", KeyDefinition { key_code: 188, shift_key_code: None, key: "<", shift_key: None, code: Some("Comma"), text: None, shift_text: None, location: 0 }),
        ("_", KeyDefinition { key_code: 189, shift_key_code: None, key: "_", shift_key: None, code: Some("Minus"), text: None, shift_text: None, location: 0 }),
        (">", KeyDefinition { key_code: 190, shift_key_code: None, key: ">", shift_key: None, code: Some("Period"), text: None, shift_text: None, location: 0 }),
        ("?", KeyDefinition { key_code: 191, shift_key_code: None, key: "?", shift_key: None, code: Some("Slash"), text: None, shift_text: None, location: 0 }),
        ("~", KeyDefinition { key_code: 192, shift_key_code: None, key: "~", shift_key: None, code: Some("Backquote"), text: None, shift_text: None, location: 0 }),
        ("{", KeyDefinition { key_code: 219, shift_key_code: None, key: "{", shift_key: None, code: Some("BracketLeft"), text: None, shift_text: None, location: 0 }),
        ("|", KeyDefinition { key_code: 220, shift_key_code: None, key: "|", shift_key: None, code: Some("Backslash"), text: None, shift_text: None, location: 0 }),
        ("}", KeyDefinition { key_code: 221, shift_key_code: None, key: "}", shift_key: None, code: Some("BracketRight"), text: None, shift_text: None, location: 0 }),
        ("\"", KeyDefinition { key_code: 222, shift_key_code: None, key: "\"", shift_key: None, code: Some("Quote"), text: None, shift_text: None, location: 0 }),
        ("SoftLeft", KeyDefinition { key_code: 0, shift_key_code: None, key: "SoftLeft", shift_key: None, code: Some("SoftLeft"), text: None, shift_text: None, location: 4 }),
        ("SoftRight", KeyDefinition { key_code: 0, shift_key_code: None, key: "SoftRight", shift_key: None, code: Some("SoftRight"), text: None, shift_text: None, location: 4 }),
        ("Camera", KeyDefinition { key_code: 44, shift_key_code: None, key: "Camera", shift_key: None, code: Some("Camera"), text: None, shift_text: None, location: 4 }),
        ("Call", KeyDefinition { key_code: 0, shift_key_code: None, key: "Call", shift_key: None, code: Some("Call"), text: None, shift_text: None, location: 4 }),
        ("EndCall", KeyDefinition { key_code: 95, shift_key_code: None, key: "EndCall", shift_key: None, code: Some("EndCall"), text: None, shift_text: None, location: 4 }),
        ("VolumeDown", KeyDefinition { key_code: 182, shift_key_code: None, key: "VolumeDown", shift_key: None, code: Some("VolumeDown"), text: None, shift_text: None, location: 4 }),
        ("VolumeUp", KeyDefinition { key_code: 183, shift_key_code: None, key: "VolumeUp", shift_key: None, code: Some("VolumeUp"), text: None, shift_text: None, location: 4 }),
    ]
}

/// The definition of the first entry of `t` at or after `i` named `k`.
pub open spec fn lookup_from(t: Seq<(&'static str, KeyDefinition)>, k: Seq<char>, i: int) -> Option<KeyDefinition>
    decreases t.len() - i,
{
    if i < 0 || i >= t.len() {
        None
    } else if t[i].0@ == k {
        Some(t[i].1)
    } else {
        lookup_from(t, k, i + 1)
    }
}

/// The definition of the key named `k` in the layout.
pub open spec fn key_definition_spec(k: Seq<char>) -> Option<KeyDefinition> {
    lookup_from(key_definitions(), k, 0)
}

/// The layout as a vector.
pub fn key_definition_table() -> (v: Vec<(&'static str, KeyDefinition)>)
    ensures
        v@ == key_definitions(),
{
    let v = vec![
        ("0", KeyDefinition { key_code: 48, shift_key_code: None, key: "0", shift_key: None, code: Some("Digit0"), text: None, shift_text: None, location: 0 }),
        ("1", KeyDefinition { key_code: 49, shift_key_code: None, key: "1", shift_key: None, code: Some("Digit1"), text: None, shift_text: None, location: 0 }),
        ("2", KeyDefinition { key_code: 50, shift_key_code: None, key: "2", shift_key: None, code: Some("Digit2"), text: None, shift_text: None, location: 0 }),
        ("3", KeyDefinition { key_code: 51, shift_key_code: None, key: "3", shift_key: None, code: Some("Digit3"), text: None, shift_text: None, location: 0 }),
        ("4", KeyDefinition { key_code: 52, shift_key_code: None, key: "4", shift_key: None, code: Some("Digit4"), text: None, shift_text: None, location: 0 }),
        ("5", KeyDefinition { key_code: 53, shift_key_code: None, key: "5", shift_key: None, code: Some("Digit5"), text: None, shift_text: None, location: 0 }),
        ("6", KeyDefinition { key_code: 54, shift_key_code: None, key: "6", shift_key: None, code: Some("Digit6"), text: None, shift_text: None, location: 0 }),
        ("7", KeyDefinition { key_code: 55, shift_key_code: None, key: "7", shift_key: None, code: Some("Digit7"), text: None, shift_text: None, location: 0 }),
        ("8", KeyDefinition { key_code: 56, shift_key_code: None, key: "8", shift_key: None, code: Some("Digit8"), text: None, shift_text: None, location: 0 }),
        ("9", KeyDefinition { key_code: 57, shift_key_code: None, key: "9", shift_key: None, code: Some("Digit9"), text: None, shift_text: None, location: 0 }),
        ("Power", KeyDefinition { key_code: 0, shift_key_code: None, key: "Power", shift_key: None, code: Some("Power"), text: None, shift_text: None, location: 0 }),
        ("Eject", KeyDefinition { key_code: 0, shift_key_code: None, key: "Eject", shift_key: None, code: Some("Eject"), text: None, shift_text: None, location: 0 }),
        ("Abort", KeyDefinition { key_code: 3, shift_key_code: None, key: "Cancel", shift_key: None, code: Some("Abort"), text: None, shift_text: None, location: 0 }),
        ("Help", KeyDefinition { key_code: 6, shift_key_code: None, key: "Help", shift_key: None, code: Some("Help"), text: None, shift_text: None, location: 0 }),
        ("Backspace", KeyDefinition { key_code: 8, shift_key_code: None, key: "Backspace", shift_key: None, code: Some("Backspace"), text: None, shift_text: None, location: 0 }),
        ("Tab", KeyDefinition { key_code: 9, shift_key_code: None, key: "Tab", shift_key: None, code: Some("Tab"), text: None, shift_text: None, location: 0 }),
        ("Numpad5", KeyDefinition { key_code: 12, shift_key_code: Some(101), key: "Clear", shift_key: Some("5"), code: Some("Numpad5"), text: None, shift_text: None, location: 3 }),
        ("NumpadEnter", KeyDefinition { key_code: 13, shift_key_code: None, key: "Enter", shift_key: None, code: Some("NumpadEnter"), text: Some("\r"), shift_text: None, location: 3 }),
        ("Enter", KeyDefinition { key_code: 13, shift_key_code: None, key: "Enter", shift_key: None, code: Some("Enter"), text: Some("\r"), shift_text: None, location: 0 }),
        ("\r", KeyDefinition { key_code: 13, shift_key_code: None, key: "Enter", shift_key: None, code: Some("Enter"), text: Some("\r"), shift_text: None, location: 0 }),
        ("\n", KeyDefinition { key_code: 13, shift_key_code: None, key: "Enter", shift_key: None, code: Some("Enter"), text: Some("\r"), shift_text: None, location: 0 }),
        ("ShiftLeft", KeyDefinition { key_code: 16, shift_key_code: None, key: "Shift", shift_key: None, code: Some("ShiftLeft"), text: None, shift_text: None, location: 1 }),
        ("ShiftRight", KeyDefinition { key_code: 16, shift_key_code: None, key: "Shift", shift_key: None, code: Some("ShiftRight"), text: None, shift_text: None, location: 2 }),
        ("ControlLeft", KeyDefinition { key_code: 17, shift_key_code: None, key: "Control", shift_key: None, code: Some("ControlLeft"), text: None, shift_text: None, location: 1 }),
        ("ControlRight", KeyDefinition { key_code: 17, shift_key_code: None, key: "Control", shift_key: None, code: Some("ControlRight"), text: None, shift_text: None, location: 2 }),
        ("AltLeft", KeyDefinition { key_code: 18, shift_key_code: None, key: "Alt", shift_key: None, code: Some("AltLeft"), text: None, shift_text: None, location: 1 }),
        ("AltRight", KeyDefinition { key_code: 18, shift_key_code: None, key: "Alt", shift_key: None, code: Some("AltRight"), text: None, shift_text: None, location: 2 }),
        ("Pause", KeyDefinition { key_code: 19, shift_key_code: None, key: "Pause", shift_key: None, code: Some("Pause"), text: None, shift_text: None, location: 0 }),
        ("CapsLock", KeyDefinition { key_code: 20, shift_key_code: None, key: "CapsLock", shift_key: None, code: Some("CapsLock"), text: None, shift_text: None, location: 0 }),
        ("Escape", KeyDefinition { key_code: 27, shift_key_code: None, key: "Escape", shift_key: None, code: Some("Escape"), text: None, shift_text: None, location: 0 }),
        ("Convert", KeyDefinition { key_code: 28, shift_key_code: None, key: "Convert", shift_key: None, code: Some("Convert"), text: None, shift_text: None, location: 0 }),
        ("NonConvert", KeyDefinition { key_code: 29, shift_key_code: None, key: "NonConvert", shift_key: None, code: Some("NonConvert"), text: None, shift_text: None, location: 0 }),
        ("Space", KeyDefinition { key_code: 32, shift_key_code: None, key: " ", shift_key: None, code: Some("Space"), text: None, shift_text: None, location: 0 }),
        ("Numpad9", KeyDefinition { key_code: 33, shift_key_code: Some(105), key: "PageUp", shift_key: Some("9"), code: Some("Numpad9"), text: None, shift_text: None, location: 3 }),
        ("PageUp", KeyDefinition { key_code: 33, shift_key_code: None, key: "PageUp", shift_key: None, code: Some("PageUp"), text: None, shift_text: None, location: 0 }),
        ("Numpad3", KeyDefinition { key_code: 34, shift_key_code: Some(99), key: "PageDown", shift_key: Some("3"), code: Some("Numpad3"), text: None, shift_text: None, location: 3 }),
        ("PageDown", KeyDefinition { key_code: 34, shift_key_code: None, key: "PageDown", shift_key: None, code: Some("PageDown"), text: None, shift_text: None, location: 0 }),
        ("End", KeyDefinition { key_code: 35, shift_key_code: None, key: "End", shift_key: None, code: Some("End"), text: None, shift_text: None, location: 0 }),
        ("Numpad1", KeyDefinition { key_code: 35, shift_key_code: Some(97), key: "End", shift_key: Some("1"), code: Some("Numpad1"), text: None, shift_text: None, location: 3 }),
        ("Home", KeyDefinition { key_code: 36, shift_key_code: None, key: "Home", shift_key: None, code: Some("Home"), text: None, shift_text: None, location: 0 }),
        ("Numpad7", KeyDefinition { key_code: 36, shift_key_code: Some(103), key: "Home", shift_key: Some("7"), code: Some("Numpad7"), text: None, shift_text: None, location: 3 }),
        ("ArrowLeft", KeyDefinition { key_code: 37, shift_key_code: None, key: "ArrowLeft", shift_key: None, code: Some("ArrowLeft"), text: None, shift_text: None, location: 0 }),
        ("Numpad4", KeyDefinition { key_code: 37, shift_key_code: Some(100), key: "ArrowLeft", shift_key: Some("4"), code: Some("Numpad4"), text: None, shift_text: None, location: 3 }),
        ("Numpad8", KeyDefinition { key_code: 38, shift_key_code: Some(104), key: "ArrowUp", shift_key: Some("8"), code: Some("Numpad8"), text: None, shift_text: None, location: 3 }),
        ("ArrowUp", KeyDefinition { key_code: 38, shift_key_code: None, key: "ArrowUp", shift_key: None, code: Some("ArrowUp"), text: None, shift_text: None, location: 0 }),
        ("ArrowRight", KeyDefinition { key_code: 39, shift_key_code: None, key: "ArrowRight", shift_key: None, code: Some("ArrowRight"), text: None, shift_text: None, location: 0 }),
        ("Numpad6", KeyDefinition { key_code: 39, shift_key_code: Some(102), key: "ArrowRight", shift_key: Some("6"), code: Some("Numpad6"), text: None, shift_text: None, location: 3 }),
        ("Numpad2", KeyDefinition { key_code: 40, shift_key_code: Some(98), key: "ArrowDown", shift_key: Some("2"), code: Some("Numpad2"), text: None, shift_text: None, location: 3 }),
        ("ArrowDown", KeyDefinition { key_code: 40, shift_key_code: None, key: "ArrowDown", shift_key: None, code: Some("ArrowDown"), text: None, shift_text: None, location: 0 }),
        ("Select", KeyDefinition { key_code: 41, shift_key_code: None, key: "Select", shift_key: None, code: Some("Select"), text: None, shift_text: None, location: 0 }),
        ("Open", KeyDefinition { key_code: 43, shift_key_code: None, key: "Execute", shift_key: None, code: Some("Open"), text: None, shift_text: None, location: 0 }),
        ("PrintScreen", KeyDefinition { key_code: 44, shift_key_code: None, key: "PrintScreen", shift_key: None, code: Some("PrintScreen"), text: None, shift_text: None, location: 0 }),
        ("Insert", KeyDefinition { key_code: 45, shift_key_code: None, key: "Insert", shift_key: None, code: Some("Insert"), text: None, shift_text: None, location: 0 }),
        ("Numpad0", KeyDefinition { key_code: 45, shift_key_code: Some(96), key: "Insert", shift_key: Some("0"), code: Some("Numpad0"), text: None, shift_text: None, location: 3 }),
        ("Delete", KeyDefinition { key_code: 46, shift_key_code: None, key: "Delete", shift_key: None, code: Some("Delete"), text: None, shift_text: None, location: 0 }),
        ("NumpadDecimal", KeyDefinition { key_code: 46, shift_key_code: Some(110), key: "\u{0000}", shift_key: Some("."), code: Some("NumpadDecimal"), text: None, shift_text: None, location: 3 }),
        ("Digit0", KeyDefinition { key_code: 48, shift_key_code: None, key: "0", shift_key: Some(")"), code: Some("Digit0"), text: None, shift_text: None, location: 0 }),
        ("Digit1", KeyDefinition { key_code: 49, shift_key_code: None, key: "1", shift_key: Some("!"), code: Some("Digit1"), text: None, shift_text: None, location: 0 }),
        ("Digit2", KeyDefinition { key_code: 50, shift_key_code: None, key: "2", shift_key: Some("@"), code: Some("Digit2"), text: None, shift_text: None, location: 0 }),
        ("Digit3", KeyDefinition { key_code: 51, shift_key_code: None, key: "3", shift_key: Some("#"), code: Some("Digit3"), text: None, shift_text: None, location: 0 }),
        ("Digit4", KeyDefinition { key_code: 52, shift_key_code: None, key: "4", shift_key: Some("$"), code: Some("Digit4"), text: None, shift_text: None, location: 0 }),
        ("Digit5", KeyDefinition { key_code: 53, shift_key_code: None, key: "5", shift_key: Some("%"), code: Some("Digit5"), text: None, shift_text: None, location: 0 }),
        ("Digit6", KeyDefinition { key_code: 54, shift_key_code: None, key: "6", shift_key: Some("^"), code: Some("Digit6"), text: None, shift_text: None, location: 0 }),
        ("Digit7", KeyDefinition { key_code: 55, shift_key_code: None, key: "7", shift_key: Some("&"), code: Some("Digit7"), text: None, shift_text: None, location: 0 }),
        ("Digit8", KeyDefinition { key_code: 56, shift_key_code: None, key: "8", shift_key: Some("*"), code: Some("Digit8"), text: None, shift_text: None, location: 0 }),
        ("Digit9", KeyDefinition { key_code: 57, shift_key_code: None, key: "9", shift_key: Some("("), code: Some("Digit9"), text: None, shift_text: None, location: 0 }),
        ("KeyA", KeyDefinition { key_code: 65, shift_key_code: None, key: "a", shift_key: Some("A"), code: Some("KeyA"), text: None, shift_text: None, location: 0 }),
        ("KeyB", KeyDefinition { key_code: 66, shift_key_code: None, key: "b", shift_key: Some("B"), code: Some("KeyB"), text: None, shift_text: None, location: 0 }),
        ("KeyC", KeyDefinition { key_code: 67, shift_key_code: None, key: "c", shift_key: Some("C"), code: Some("KeyC"), text: None, shift_text: None, location: 0 }),
        ("KeyD", KeyDefinition { key_code: 68, shift_key_code: None, key: "d", shift_key: Some("D"), code: Some("KeyD"), text: None, shift_text: None, location: 0 }),
        ("KeyE", KeyDefinition { key_code: 69, shift_key_code: None, key: "e", shift_key: Some("E"), code: Some("KeyE"), text: None, shift_text: None, location: 0 }),
        ("KeyF", KeyDefinition { key_code: 70, shift_key_code: None, key: "f", shift_key: Some("F"), code: Some("KeyF"), text: None, shift_text: None, location: 0 }),
        ("KeyG", KeyDefinition { key_code: 71, shift_key_code: None, key: "g", shift_key: Some("G"), code: Some("KeyG"), text: None, shift_text: None, location: 0 }),
        ("KeyH", KeyDefinition { key_code: 72, shift_key_code: None, key: "h", shift_key: Some("H"), code: Some("KeyH"), text: None, shift_text: None, location: 0 }),
        ("KeyI", KeyDefinition { key_code: 73, shift_key_code: None, key: "i", shift_key: Some("I"), code: Some("KeyI"), text: None, shift_text: None, location: 0 }),
        ("KeyJ", KeyDefinition { key_code: 74, shift_key_code: None, key: "j", shift_key: Some("J"), code: Some("KeyJ"), text: None, shift_text: None, location: 0 }),
        ("KeyK", KeyDefinition { key_code: 75, shift_key_code: None, key: "k", shift_key: Some("K"), code: Some("KeyK"), text: None, shift_text: None, location: 0 }),
        ("KeyL", KeyDefinition { key_code: 76, shift_key_code: None, key: "l", shift_key: Some("L"), code: Some("KeyL"), text: None, shift_text: None, location: 0 }),
        ("KeyM", KeyDefinition { key_code: 77, shift_key_code: None, key: "m", shift_key: Some("M"), code: Some("KeyM"), text: None, shift_text: None, location: 0 }),
        ("KeyN", KeyDefinition { key_code: 78, shift_key_code: None, key: "n", shift_key: Some("N"), code: Some("KeyN"), text: None, shift_text: None, location: 0 }),
        ("KeyO", KeyDefinition { key_code: 79, shift_key_code: None, key: "o", shift_key: Some("O"), code: Some("KeyO"), text: None, shift_text: None, location: 0 }),
        ("KeyP", KeyDefinition { key_code: 80, shift_key_code: None, key: "p", shift_key: Some("P"), code: Some("KeyP"), text: None, shift_text: None, location: 0 }),
        ("KeyQ", KeyDefinition { key_code: 81, shift_key_code: None, key: "q", shift_key: Some("Q"), code: Some("KeyQ"), text: None, shift_text: None, location: 0 }),
        ("KeyR", KeyDefinition { key_code: 82, shift_key_code: None, key: "r", shift_key: Some("R"), code: Some("KeyR"), text: None, shift_text: None, location: 0 }),
        ("KeyS", KeyDefinition { key_code: 83, shift_key_code: None, key: "s", shift_key: Some("S"), code: Some("KeyS"), text: None, shift_text: None, location: 0 }),
        ("KeyT", KeyDefinition { key_code: 84, shift_key_code: None, key: "t", shift_key: Some("T"), code: Some("KeyT"), text: None, shift_text: None, location: 0 }),
        ("KeyU", KeyDefinition { key_code: 85, shift_key_code: None, key: "u", shift_key: Some("U"), code: Some("KeyU"), text: None, shift_text: None, location: 0 }),
        ("KeyV", KeyDefinition { key_code: 86, shift_key_code: None, key: "v", shift_key: Some("V"), code: Some("KeyV"), text: None, shift_text: None, location: 0 }),
        ("KeyW", KeyDefinition { key_code: 87, shift_key_code: None, key: "w", shift_key: Some("W"), code: Some("KeyW"), text: None, shift_text: None, location: 0 }),
        ("KeyX", KeyDefinition { key_code: 88, shift_key_code: None, key: "x", shift_key: Some("X"), code: Some("KeyX"), text: None, shift_text: None, location: 0 }),
        ("KeyY", KeyDefinition { key_code: 89, shift_key_code: None, key: "y", shift_key: Some("Y"), code: Some("KeyY"), text: None, shift_text: None, location: 0 }),
        ("KeyZ", KeyDefinition { key_code: 90, shift_key_code: None, key: "z", shift_key: Some("Z"), code: Some("KeyZ"), text: None, shift_text: None, location: 0 }),
        ("MetaLeft", KeyDefinition { key_code: 91, shift_key_code: None, key: "Meta", shift_key: None, code: Some("MetaLeft"), text: None, shift_text: None, location: 1 }),
        ("MetaRight", KeyDefinition { key_code: 92, shift_key_code: None, key: "Meta", shift_key: None, code: Some("MetaRight"), text: None, shift_text: None, location: 2 }),
        ("ContextMenu", KeyDefinition { key_code: 93, shift_key_code: None, key: "ContextMenu", shift_key: None, code: Some("ContextMenu"), text: None, shift_text: None, location: 0 }),
        ("NumpadMultiply", KeyDefinition { key_code: 106, shift_key_code: None, key: "*", shift_key: None, code: Some("NumpadMultiply"), text: None, shift_text: None, location: 3 }),
        ("NumpadAdd", KeyDefinition { key_code: 107, shift_key_code: None, key: "+", shift_key: None, code: Some("NumpadAdd"), text: None, shift_text: None, location: 3 }),
        ("NumpadSubtract", KeyDefinition { key_code: 109, shift_key_code: None, key: "-", shift_key: None, code: Some("NumpadSubtract"), text: None, shift_text: None, location: 3 }),
        ("NumpadDivide", KeyDefinition { key_code: 111, shift_key_code: None, key: "/", shift_key: None, code: Some("NumpadDivide"), text: None, shift_text: None, location: 3 }),
        ("F1", KeyDefinition { key_code: 112, shift_key_code: None, key: "F1", shift_key: None, code: Some("F1"), text: None, shift_text: None, location: 0 }),
        ("F2", KeyDefinition { key_code: 113, shift_key_code: None, key: "F2", shift_key: None, code: Some("F2"), text: None, shift_text: None, location: 0 }),
        ("F3", KeyDefinition { key_code: 114, shift_key_code: None, key: "F3", shift_key: None, code: Some("F3"), text: None, shift_text: None, location: 0 }),
        ("F4", KeyDefinition { key_code: 115, shift_key_code: None, key: "F4", shift_key: None, code: Some("F4"), text: None, shift_text: None, location: 0 }),
        ("F5", KeyDefinition { key_code: 116, shift_key_code: None, key: "F5", shift_key: None, code: Some("F5"), text: None, shift_text: None, location: 0 }),
        ("F6", KeyDefinition { key_code: 117, shift_key_code: None, key: "F6", shift_key: None, code: Some("F6"), text: None, shift_text: None, location: 0 }),
        ("F7", KeyDefinition { key_code: 118, shift_key_code: None, key: "F7", shift_key: None, code: Some("F7"), text: None, shift_text: None, location: 0 }),
        ("F8", KeyDefinition { key_code: 119, shift_key_code: None, key: "F8", shift_key: None, code: Some("F8"), text: None, shift_text: None, location: 0 }),
        ("F9", KeyDefinition { key_code: 120, shift_key_code: None, key: "F9", shift_key: None, code: Some("F9"), text: None, shift_text: None, location: 0 }),
        ("F10", KeyDefinition { key_code: 121, shift_key_code: None, key: "F10", shift_key: None, code: Some("F10"), text: None, shift_text: None, location: 0 }),
        ("F11", KeyDefinition { key_code: 122, shift_key_code: None, key: "F11", shift_key: None, code: Some("F11"), text: None, shift_text: None, location: 0 }),
        ("F12", KeyDefinition { key_code: 123, shift_key_code: None, key: "F12", shift_key: None, code: Some("F12"), text: None, shift_text: None, location: 0 }),
        ("F13", KeyDefinition { key_code: 124, shift_key_code: None, key: "F13", shift_key: None, code: Some("F13"), text: None, shift_text: None, location: 0 }),
        ("F14", KeyDefinition { key_code: 125, shift_key_code: None, key: "F14", shift_key: None, code: Some("F14"), text: None, shift_text: None, location: 0 }),
        ("F15", KeyDefinition { key_code: 126, shift_key_code: None, key: "F15", shift_key: None, code: Some("F15"), text: None, shift_text: None, location: 0 }),
        ("F16", KeyDefinition { key_code: 127, shift_key_code: None, key: "F16", shift_key: None, code: Some("F16"), text: None, shift_text: None, location: 0 }),
        ("F17", KeyDefinition { key_code: 128, shift_key_code: None, key: "F17", shift_key: None, code: Some("F17"), text: None, shift_text: None, location: 0 }),
        ("F18", KeyDefinition { key_code: 129, shift_key_code: None, key: "F18", shift_key: None, code: Some("F18"), text: None, shift_text: None, location: 0 }),
        ("F19", KeyDefinition { key_code: 130, shift_key_code: None, key: "F19", shift_key: None, code: Some("F19"), text: None, shift_text: None, location: 0 }),
        ("F20", KeyDefinition { key_code: 131, shift_key_code: None, key: "F20", shift_key: None, code: Some("F20"), text: None, shift_text: None, location: 0 }),
        ("F21", KeyDefinition { key_code: 132, shift_key_code: None, key: "F21", shift_key: None, code: Some("F21"), text: None, shift_text: None, location: 0 }),
        ("F22", KeyDefinition { key_code: 133, shift_key_code: None, key: "F22", shift_key: None, code: Some("F22"), text: None, shift_text: None, location: 0 }),
        ("F23", KeyDefinition { key_code: 134, shift_key_code: None, key: "F23", shift_key: None, code: Some("F23"), text: None, shift_text: None, location: 0 }),
        ("F24", KeyDefinition { key_code: 135, shift_key_code: None, key: "F24", shift_key: None, code: Some("F24"), text: None, shift_text: None, location: 0 }),
        ("NumLock", KeyDefinition { key_code: 144, shift_key_code: None, key: "NumLock", shift_key: None, code: Some("NumLock"), text: None, shift_text: None, location: 0 }),
        ("ScrollLock", KeyDefinition { key_code: 145, shift_key_code: None, key: "ScrollLock", shift_key: None, code: Some("ScrollLock"), text: None, shift_text: None, location: 0 }),
        ("AudioVolumeMute", KeyDefinition { key_code: 173, shift_key_code: None, key: "AudioVolumeMute", shift_key: None, code: Some("AudioVolumeMute"), text: None, shift_text: None, location: 0 }),
        ("AudioVolumeDown", KeyDefinition { key_code: 174, shift_key_code: None, key: "AudioVolumeDown", shift_key: None, code: Some("AudioVolumeDown"), text: None, shift_text: None, location: 0 }),
        ("AudioVolumeUp", KeyDefinition { key_code: 175, shift_key_code: None, key: "AudioVolumeUp", shift_key: None, code: Some("AudioVolumeUp"), text: None, shift_text: None, location: 0 }),
        ("MediaTrackNext", KeyDefinition { key_code: 176, shift_key_code: None, key: "MediaTrackNext", shift_key: None, code: Some("MediaTrackNext"), text: None, shift_text: None, location: 0 }),
        ("MediaTrackPrevious", KeyDefinition { key_code: 177, shift_key_code: None, key: "MediaTrackPrevious", shift_key: None, code: Some("MediaTrackPrevious"), text: None, shift_text: None, location: 0 }),
        ("MediaStop", KeyDefinition { key_code: 178, shift_key_code: None, key: "MediaStop", shift_key: None, code: Some("MediaStop"), text: None, shift_text: None, location: 0 }),
        ("MediaPlayPause", KeyDefinition { key_code: 179, shift_key_code: None, key: "MediaPlayPause", shift_key: None, code: Some("MediaPlayPause"), text: None, shift_text: None, location: 0 }),
        ("Semicolon", KeyDefinition { key_code: 186, shift_key_code: None, key: ";", shift_key: Some(":"), code: Some("Semicolon"), text: None, shift_text: None, location: 0 }),
        ("Equal", KeyDefinition { key_code: 187, shift_key_code: None, key: "=", shift_key: Some("+"), code: Some("Equal"), text: None, shift_text: None, location: 0 }),
        ("NumpadEqual", KeyDefinition { key_code: 187, shift_key_code: None, key: "=", shift_key: None, code: Some("NumpadEqual"), text: None, shift_text: None, location: 3 }),
        ("Comma", KeyDefinition { key_code: 188, shift_key_code: None, key: ",", shift_key: Some("<"), code: Some("Comma"), text: None, shift_text: None, location: 0 }),
        ("Minus", KeyDefinition { key_code: 189, shift_key_code: None, key: "-", shift_key: Some("_"), code: Some("Minus"), text: None, shift_text: None, location: 0 }),
        ("Period", KeyDefinition { key_code: 190, shift_key_code: None, key: ".", shift_key: Some(">"), code: Some("Period"), text: None, shift_text: None, location: 0 }),
        ("Slash", KeyDefinition { key_code: 191, shift_key_code: None, key: "/", shift_key: Some("?"), code: Some("Slash"), text: None, shift_text: None, location: 0 }),
        ("Backquote", KeyDefinition { key_code: 192, shift_key_code: None, key: "`", shift_key: Some("~"), code: Some("Backquote"), text: None, shift_text: None, location: 0 }),
        ("BracketLeft", KeyDefinition { key_code: 219, shift_key_code: None, key: "[", shift_key: Some("{"), code: Some("BracketLeft"), text: None, shift_text: None, location: 0 }),
        ("Backslash", KeyDefinition { key_code: 220, shift_key_code: None, key: "\\", shift_key: Some("|"), code: Some("Backslash"), text: None, shift_text: None, location: 0 }),
        ("BracketRight", KeyDefinition { key_code: 221, shift_key_code: None, key: "]", shift_key: Some("}"), code: Some("BracketRight"), text: None, shift_text: None, location: 0 }),
        ("Quote", KeyDefinition { key_code: 222, shift_key_code: None, key: "'", shift_key: Some("\""), code: Some("Quote"), text: None, shift_text: None, location: 0 }),
        ("AltGraph", KeyDefinition { key_code: 225, shift_key_code: None, key: "AltGraph", shift_key: None, code: Some("AltGraph"), text: None, shift_text: None, location: 0 }),
        ("Props", KeyDefinition { key_code: 247, shift_key_code: None, key: "CrSel", shift_key: None, code: Some("Props"), text: None, shift_text: None, location: 0 }),
        ("Cancel", KeyDefinition { key_code: 3, shift_key_code: None, key: "Cancel", shift_key: None, code: Some("Abort"), text: None, shift_text: None, location: 0 }),
        ("Clear", KeyDefinition { key_code: 12, shift_key_code: None, key: "Clear", shift_key: None, code: Some("Numpad5"), text: None, shift_text: None, location: 3 }),
        ("Shift", KeyDefinition { key_code: 16, shift_key_code: None, key: "Shift", shift_key: None, code: Some("ShiftLeft"), text: None, shift_text: None, location: 1 }),
        ("Control", KeyDefinition { key_code: 17, shift_key_code: None, key: "Control", shift_key: None, code: Some("ControlLeft"), text: None, shift_text: None, location: 1 }),
        ("Alt", KeyDefinition { key_code: 18, shift_key_code: None, key: "Alt", shift_key: None, code: Some("AltLeft"), text: None, shift_text: None, location: 1 }),
        ("Accept", KeyDefinition { key_code: 30, shift_key_code: None, key: "Accept", shift_key: None, code: None, text: None, shift_text: None, location: 0 }),
        ("ModeChange", KeyDefinition { key_code: 31, shift_key_code: None, key: "ModeChange", shift_key: None, code: None, text: None, shift_text: None, location: 0 }),
        (" ", KeyDefinition { key_code: 32, shift_key_code: None, key: " ", shift_key: None, code: Some("Space"), text: None, shift_text: None, location: 0 }),
        ("Print", KeyDefinition { key_code: 42, shift_key_code: None, key: "Print", shift_key: None, code: None, text: None, shift_text: None, location: 0 }),
        ("Execute", KeyDefinition { key_code: 43, shift_key_code: None, key: "Execute", shift_key: None, code: Some("Open"), text: None, shift_text: None, location: 0 }),
        ("\u{0000}", KeyDefinition { key_code: 46, shift_key_code: None, key: "\u{0000}", shift_key: None, code: Some("NumpadDecimal"), text: None, shift_text: None, location: 3 }),
        ("a", KeyDefinition { key_code: 65, shift_key_code: None, key: "a", shift_key: None, code: Some("KeyA"), text: None, shift_text: None, location: 0 }),
        ("b", KeyDefinition { key_code: 66, shift_key_code: None, key: "b", shift_key: None, code: Some("KeyB"), text: None, shift_text: None, location: 0 }),
        ("c", KeyDefinition { key_code: 67, shift_key_code: None, key: "c", shift_key: None, code: Some("KeyC"), text: None, shift_text: None, location: 0 }),
        ("d", KeyDefinition { key_code: 68, shift_key_code: None, key: "d", shift_key: None, code: Some("KeyD"), text: None, shift_text: None, location: 0 }),
        ("e", KeyDefinition { key_code: 69, shift_key_code: None, key: "e", shift_key: None, code: Some("KeyE"), text: None, shift_text: None, location: 0 }),
        ("f", KeyDefinition { key_code: 70, shift_key_code: None, key: "f", shift_key: None, code: Some("KeyF"), text: None, shift_text: None, location: 0 }),
        ("g", KeyDefinition { key_code: 71, shift_key_code: None, key: "g", shift_key: None, code: Some("KeyG"), text: None, shift_text: None, location: 0 }),
        ("h", KeyDefinition { key_code: 72, shift_key_code: None, key: "h", shift_key: None, code: Some("KeyH"), text: None, shift_text: None, location: 0 }),
        ("i", KeyDefinition { key_code: 73, shift_key_code: None, key: "i", shift_key: None, code: Some("KeyI"), text: None, shift_text: None, location: 0 }),
        ("j", KeyDefinition { key_code: 74, shift_key_code: None, key: "j", shift_key: None, code: Some("KeyJ"), text: None, shift_text: None, location: 0 }),
        ("k", KeyDefinition { key_code: 75, shift_key_code: None, key: "k", shift_key: None, code: Some("KeyK"), text: None, shift_text: None, location: 0 }),
        ("l", KeyDefinition { key_code: 76, shift_key_code: None, key: "l", shift_key: None, code: Some("KeyL"), text: None, shift_text: None, location: 0 }),
        ("m", KeyDefinition { key_code: 77, shift_key_code: None, key: "m", shift_key: None, code: Some("KeyM"), text: None, shift_text: None, location: 0 }),
        ("n", KeyDefinition { key_code: 78, shift_key_code: None, key: "n", shift_key: None, code: Some("KeyN"), text: None, shift_text: None, location: 0 }),
        ("o", KeyDefinition { key_code: 79, shift_key_code: None, key: "o", shift_key: None, code: Some("KeyO"), text: None, shift_text: None, location: 0 }),
        ("p", KeyDefinition { key_code: 80, shift_key_code: None, key: "p", shift_key: None, code: Some("KeyP"), text: None, shift_text: None, location: 0 }),
        ("q", KeyDefinition { key_code: 81, shift_key_code: None, key: "q", shift_key: None, code: Some("KeyQ"), text: None, shift_text: None, location: 0 }),
        ("r", KeyDefinition { key_code: 82, shift_key_code: None, key: "r", shift_key: None, code: Some("KeyR"), text: None, shift_text: None, location: 0 }),
        ("s", KeyDefinition { key_code: 83, shift_key_code: None, key: "s", shift_key: None, code: Some("KeyS"), text: None, shift_text: None, location: 0 }),
        ("t", KeyDefinition { key_code: 84, shift_key_code: None, key: "t", shift_key: None, code: Some("KeyT"), text: None, shift_text: None, location: 0 }),
        ("u", KeyDefinition { key_code: 85, shift_key_code: None, key: "u", shift_key: None, code: Some("KeyU"), text: None, shift_text: None, location: 0 }),
        ("v", KeyDefinition { key_code: 86, shift_key_code: None, key: "v", shift_key: None, code: Some("KeyV"), text: None, shift_text: None, location: 0 }),
        ("w", KeyDefinition { key_code: 87, shift_key_code: None, key: "w", shift_key: None, code: Some("KeyW"), text: None, shift_text: None, location: 0 }),
        ("x", KeyDefinition { key_code: 88, shift_key_code: None, key: "x", shift_key: None, code: Some("KeyX"), text: None, shift_text: None, location: 0 }),
        ("y", KeyDefinition { key_code: 89, shift_key_code: None, key: "y", shift_key: None, code: Some("KeyY"), text: None, shift_text: None, location: 0 }),
        ("z", KeyDefinition { key_code: 90, shift_key_code: None, key: "z", shift_key: None, code: Some("KeyZ"), text: None, shift_text: None, location: 0 }),
        ("Meta", KeyDefinition { key_code: 91, shift_key_code: None, key: "Meta", shift_key: None, code: Some("MetaLeft"), text: None, shift_text: None, location: 1 }),
        ("*", KeyDefinition { key_code: 106, shift_key_code: None, key: "*", shift_key: None, code: Some("NumpadMultiply"), text: None, shift_text: None, location: 3 }),
        ("+", KeyDefinition { key_code: 107, shift_key_code: None, key: "+", shift_key: None, code: Some("NumpadAdd"), text: None, shift_text: None, location: 3 }),
        ("-", KeyDefinition { key_code: 109, shift_key_code: None, key: "-", shift_key: None, code: Some("NumpadSubtract"), text: None, shift_text: None, location: 3 }),
        ("/", KeyDefinition { key_code: 111, shift_key_code: None, key: "/", shift_key: None, code: Some("NumpadDivide"), text: None, shift_text: None, location: 3 }),
        (";", KeyDefinition { key_code: 186, shift_key_code: None, key: ";", shift_key: None, code: Some("Semicolon"), text: None, shift_text: None, location: 0 }),
        ("=", KeyDefinition { key_code: 187, shift_key_code: None, key: "=", shift_key: None, code: Some("Equal"), text: None, shift_text: None, location: 0 }),
        (",", KeyDefinition { key_code: 188, shift_key_code: None, key: ",", shift_key: None, code: Some("Comma"), text: None, shift_text: None, location: 0 }),
        (".", KeyDefinition { key_code: 190, shift_key_code: None, key: ".", shift_key: None, code: Some("Period"), text: None, shift_text: None, location: 0 }),
        ("`", KeyDefinition { key_code: 192, shift_key_code: None, key: "`", shift_key: None, code: Some("Backquote"), text: None, shift_text: None, location: 0 }),
        ("[", KeyDefinition { key_code: 219, shift_key_code: None, key: "[", shift_key: None, code: Some("BracketLeft"), text: None, shift_text: None, location: 0 }),
        ("\\", KeyDefinition { key_code: 220, shift_key_code: None, key: "\\", shift_key: None, code: Some("Backslash"), text: None, shift_text: None, location: 0 }),
        ("]", KeyDefinition { key_code: 221, shift_key_code: None, key: "]", shift_key: None, code: Some("BracketRight"), text: None, shift_text: None, location: 0 }),
        ("'", KeyDefinition { key_code: 222, shift_key_code: None, key: "'", shift_key: None, code: Some("Quote"), text: None, shift_text: None, location: 0 }),
        ("Attn", KeyDefinition { key_code: 246, shift_key_code: None, key: "Attn", shift_key: None, code: None, text: None, shift_text: None, location: 0 }),
        ("CrSel", KeyDefinition { key_code: 247, shift_key_code: None, key: "CrSel", shift_key: None, code: Some("Props"), text: None, shift_text: None, location: 0 }),
        ("ExSel", KeyDefinition { key_code: 248, shift_key_code: None, key: "ExSel", shift_key: None, code: None, text: None, shift_text: None, location: 0 }),
        ("EraseEof", KeyDefinition { key_code: 249, shift_key_code: None, key: "EraseEof", shift_key: None, code: None, text: None, shift_text: None, location: 0 }),
        ("Play", KeyDefinition { key_code: 250, shift_key_code: None, key: "Play", shift_key: None, code: None, text: None, shift_text: None, location: 0 }),
        ("ZoomOut", KeyDefinition { key_code: 251, shift_key_code: None, key: "ZoomOut", shift_key: None, code: None, text: None, shift_text: None, location: 0 }),
        (")", KeyDefinition { key_code: 48, shift_key_code: None, key: ")", shift_key: None, code: Some("Digit0"), text: None, shift_text: None, location: 0 }),
        ("!", KeyDefinition { key_code: 49, shift_key_code: None, key: "!", shift_key: None, code: Some("Digit1"), text: None, shift_text: None, location: 0 }),
        ("@", KeyDefinition { key_code: 50, shift_key_code: None, key: "@", shift_key: None, code: Some("Digit2"), text: None, shift_text: None, location: 0 }),
        ("#", KeyDefinition { key_code: 51, shift_key_code: None, key: "#", shift_key: None, code: Some("Digit3"), text: None, shift_text: None, location: 0 }),
        ("$", KeyDefinition { key_code: 52, shift_key_code: None, key: "$", shift_key: None, code: Some("Digit4"), text: None, shift_text: None, location: 0 }),
        ("%", KeyDefinition { key_code: 53, shift_key_code: None, key: "%", shift_key: None, code: Some("Digit5"), text: None, shift_text: None, location: 0 }),
        ("^", KeyDefinition { key_code: 54, shift_key_code: None, key: "^", shift_key: None, code: Some("Digit6"), text: None, shift_text: None, location: 0 }),
        ("&", KeyDefinition { key_code: 55, shift_key_code: None, key: "&", shift_key: None, code: Some("Digit7"), text: None, shift_text: None, location: 0 }),
        ("(", KeyDefinition { key_code: 57, shift_key_code: None, key: "(", shift_key: None, code: Some("Digit9"), text: None, shift_text: None, location: 0 }),
        ("A", KeyDefinition { key_code: 65, shift_key_code: None, key: "A", shift_key: None, code: Some("KeyA"), text: None, shift_text: None, location: 0 }),
        ("B", KeyDefinition { key_code: 66, shift_key_code: None, key: "B", shift_key: None, code: Some("KeyB"), text: None, shift_text: None, location: 0 }),
        ("C", KeyDefinition { key_code: 67, shift_key_code: None, key: "C", shift_key: None, code: Some("KeyC"), text: None, shift_text: None, location: 0 }),
        ("D", KeyDefinition { key_code: 68, shift_key_code: None, key: "D", shift_key: None, code: Some("KeyD"), text: None, shift_text: None, location: 0 }),
        ("E", KeyDefinition { key_code: 69, shift_key_code: None, key: "E", shift_key: None, code: Some("KeyE"), text: None, shift_text: None, location: 0 }),
        ("F", KeyDefinition { key_code: 70, shift_key_code: None, key: "F", shift_key: None, code: Some("KeyF"), text: None, shift_text: None, location: 0 }),
        ("G", KeyDefinition { key_code: 71, shift_key_code: None, key: "G", shift_key: None, code: Some("KeyG"), text: None, shift_text: None, location: 0 }),
        ("H", KeyDefinition { key_code: 72, shift_key_code: None, key: "H", shift_key: None, code: Some("KeyH"), text: None, shift_text: None, location: 0 }),
        ("I", KeyDefinition { key_code: 73, shift_key_code: None, key: "I", shift_key: None, code: Some("KeyI"), text: None, shift_text: None, location: 0 }),
        ("J", KeyDefinition { key_code: 74, shift_key_code: None, key: "J", shift_key: None, code: Some("KeyJ"), text: None, shift_text: None, location: 0 }),
        ("K", KeyDefinition { key_code: 75, shift_key_code: None, key: "K", shift_key: None, code: Some("KeyK"), text: None, shift_text: None, location: 0 }),
        ("L", KeyDefinition { key_code: 76, shift_key_code: None, key: "L", shift_key: None, code: Some("KeyL"), text: None, shift_text: None, location: 0 }),
        ("M", KeyDefinition { key_code: 77, shift_key_code: None, key: "M", shift_key: None, code: Some("KeyM"), text: None, shift_text: None, location: 0 }),
        ("N", KeyDefinition { key_code: 78, shift_key_code: None, key: "N", shift_key: None, code: Some("KeyN"), text: None, shift_text: None, location: 0 }),
        ("O", KeyDefinition { key_code: 79, shift_key_code: None, key: "O", shift_key: None, code: Some("KeyO"), text: None, shift_text: None, location: 0 }),
        ("P", KeyDefinition { key_code: 80, shift_key_code: None, key: "P", shift_key: None, code: Some("KeyP"), text: None, shift_text: None, location: 0 }),
        ("Q", KeyDefinition { key_code: 81, shift_key_code: None, key: "Q", shift_key: None, code: Some("KeyQ"), text: None, shift_text: None, location: 0 }),
        ("R", KeyDefinition { key_code: 82, shift_key_code: None, key: "R", shift_key: None, code: Some("KeyR"), text: None, shift_text: None, location: 0 }),
        ("S", KeyDefinition { key_code: 83, shift_key_code: None, key: "S", shift_key: None, code: Some("KeyS"), text: None, shift_text: None, location: 0 }),
        ("T", KeyDefinition { key_code: 84, shift_key_code: None, key: "T", shift_key: None, code: Some("KeyT"), text: None, shift_text: None, location: 0 }),
        ("U", KeyDefinition { key_code: 85, shift_key_code: None, key: "U", shift_key: None, code: Some("KeyU"), text: None, shift_text: None, location: 0 }),
        ("V", KeyDefinition { key_code: 86, shift_key_code: None, key: "V", shift_key: None, code: Some("KeyV"), text: None, shift_text: None, location: 0 }),
        ("W", KeyDefinition { key_code: 87, shift_key_code: None, key: "W", shift_key: None, code: Some("KeyW"), text: None, shift_text: None, location: 0 }),
        ("X", KeyDefinition { key_code: 88, shift_key_code: None, key: "X", shift_key: None, code: Some("KeyX"), text: None, shift_text: None, location: 0 }),
        ("Y", KeyDefinition { key_code: 89, shift_key_code: None, key: "Y", shift_key: None, code: Some("KeyY"), text: None, shift_text: None, location: 0 }),
        ("Z", KeyDefinition { key_code: 90, shift_key_code: None, key: "Z", shift_key: None, code: Some("KeyZ"), text: None, shift_text: None, location: 0 }),
        (":", KeyDefinition { key_code: 186, shift_key_code: None, key: ":", shift_key: None, code: Some("Semicolon"), text: None, shift_text: None, location: 0 }),
        ("<", KeyDefinition { key_code: 188, shift_key_code: None, key: "<", shift_key: None, code: Some("Comma"), text: None, shift_text: None, location: 0 }),
        ("_", KeyDefinition { key_code: 189, shift_key_code: None, key: "_", shift_key: None, code: Some("Minus"), text: None, shift_text: None, location: 0 }),
        (">", KeyDefinition { key_code: 190, shift_key_code: None, key: ">", shift_key: None, code: Some("Period"), text: None, shift_text: None, location: 0 }),
        ("?", KeyDefinition { key_code: 191, shift_key_code: None, key: "?", shift_key: None, code: Some("Slash"), text: None, shift_text: None, location: 0 }),
        ("~", KeyDefinition { key_code: 192, shift_key_code: None, key: "~", shift_key: None, code: Some("Backquote"), text: None, shift_text: None, location: 0 }),
        ("{", KeyDefinition { key_code: 219, shift_key_code: None, key: "{", shift_key: None, code: Some("BracketLeft"), text: None, shift_text: None, location: 0 }),
        ("|", KeyDefinition { key_code: 220, shift_key_code: None, key: "|", shift_key: None, code: Some("Backslash"), text: None, shift_text: None, location: 0 }),
        ("}", KeyDefinition { key_code: 221, shift_key_code: None, key: "}", shift_key: None, code: Some("BracketRight"), text: None, shift_text: None, location: 0 }),
        ("\"", KeyDefinition { key_code: 222, shift_key_code: None, key: "\"", shift_key: None, code: Some("Quote"), text: None, shift_text: None, location: 0 }),
        ("SoftLeft", KeyDefinition { key_code: 0, shift_key_code: None, key: "SoftLeft", shift_key: None, code: Some("SoftLeft"), text: None, shift_text: None, location: 4 }),
        ("SoftRight", KeyDefinition { key_code: 0, shift_key_code: None, key: "SoftRight", shift_key: None, code: Some("SoftRight"), text: None, shift_text: None, location: 4 }),
        ("Camera", KeyDefinition { key_code: 44, shift_key_code: None, key: "Camera", shift_key: None, code: Some("Camera"), text: None, shift_text: None, location: 4 }),
        ("Call", KeyDefinition { key_code: 0, shift_key_code: None, key: "Call", shift_key: None, code: Some("Call"), text: None, shift_text: None, location: 4 }),
        ("EndCall", KeyDefinition { key_code: 95, shift_key_code: None, key: "EndCall", shift_key: None, code: Some("EndCall"), text: None, shift_text: None, location: 4 }),
        ("VolumeDown", KeyDefinition { key_code: 182, shift_key_code: None, key: "VolumeDown", shift_key: None, code: Some("VolumeDown"), text: None, shift_text: None, location: 4 }),
        ("VolumeUp", KeyDefinition { key_code: 183, shift_key_code: None, key: "VolumeUp", shift_key: None, code: Some("VolumeUp"), text: None, shift_text: None, location: 4 }),
    ];
    assert(v@ =~= key_definitions());
    v
}

/// The definition of the key named `key`, if the layout has one.
pub fn key_definition(key: &str) -> (r: Option<KeyDefinition>)
    ensures
        r == key_definition_spec(key@),
{
    let t = key_definition_table();
    let mut i: usize = 0;
    while i < t.len()
        invariant
            t@ == key_definitions(),
            i <= t@.len(),
            lookup_from(t@, key@, 0) == lookup_from(t@, key@, i as int),
        decreases t@.len() - i,
    {
        if str_eq(t[i].0, key) {
            return Some(t[i].1);
        }
        i = i + 1;
    }
    None
}

/// Whether the layout has a key named `key`.
pub fn has_key_definition(key: &str) -> (r: bool)
    ensures
        r == (key_definition_spec(key@) is Some),
{
    key_definition(key).is_some()
}

/// The modifier bit of a key value, or 0 when it is no modifier.
pub open spec fn modifier_bit_spec(key: Seq<char>) -> i64 {
    if key == "Alt"@ {
        MODIFIER_ALT
    } else if key == "Control"@ {
        MODIFIER_CONTROL
    } else if key == "Meta"@ {
        MODIFIER_META
    } else if key == "Shift"@ {
        MODIFIER_SHIFT
    } else {
        0
    }
}

/// Return the modifier bit for a key name, or 0 if not a modifier.
pub fn modifier_bit(key: &str) -> (r: i64)
    ensures
        r == modifier_bit_spec(key@),
{
    if str_eq(key, "Alt") {
        MODIFIER_ALT
    } else if str_eq(key, "Control") {
        MODIFIER_CONTROL
    } else if str_eq(key, "Meta") {
        MODIFIER_META
    } else if str_eq(key, "Shift") {
        MODIFIER_SHIFT
    } else {
        0
    }
}

/// The characters of an optional static string, or the empty string.
pub open spec fn opt_static(o: Option<&'static str>) -> Seq<char> {
    match o {
        Some(s) => s@,
        None => Seq::empty(),
    }
}

/// Whether the modifier state holds Shift.
pub open spec fn shift_held(modifiers: i64) -> bool {
    modifiers & MODIFIER_SHIFT != 0
}

/// Whether the modifier state holds any modifier other than Shift.
pub open spec fn other_modifier_held(modifiers: i64) -> bool {
    modifiers & !MODIFIER_SHIFT != 0
}

/// The key value a definition produces under `modifiers`.
pub open spec fn described_key(d: KeyDefinition, modifiers: i64) -> Seq<char> {
    if shift_held(modifiers) && d.shift_key is Some {
        d.shift_key->0@
    } else {
        d.key@
    }
}

/// The text a definition produces under `modifiers`: a one-character key
/// value types itself, a definition's text overrides that (its shifted text
/// under Shift), and any modifier other than Shift types nothing.
pub open spec fn described_text(d: KeyDefinition, modifiers: i64) -> Seq<char> {
    let key = described_key(d, modifiers);
    let t0 = if key.len() == 1 {
        key
    } else {
        Seq::empty()
    };
    let t1 = if d.text is Some {
        d.text->0@
    } else {
        t0
    };
    let t2 = if shift_held(modifiers) && d.shift_text is Some {
        d.shift_text->0@
    } else {
        t1
    };
    if other_modifier_held(modifiers) {
        Seq::empty()
    } else {
        t2
    }
}

/// The description a definition produces under `modifiers`.
pub open spec fn describe(d: KeyDefinition, modifiers: i64) -> KeyDescriptionView {
    KeyDescriptionView {
        key_code: if shift_held(modifiers) && d.shift_key_code is Some {
            d.shift_key_code->0
        } else {
            d.key_code
        },
        key: described_key(d, modifiers),
        text: described_text(d, modifiers),
        code: opt_static(d.code),
        location: d.location,
    }
}

/// Resolve a key string into a full [`KeyDescription`], applying the
/// current modifier state (particularly Shift).
pub fn key_description_for_string(key_string: &str, modifiers: i64) -> (r: Option<KeyDescription>)
    ensures
        match key_definition_spec(key_string@) {
            Some(d) => r is Some && r->0@ == describe(d, modifiers),
            None => r is None,
        },
{
    let def = match key_definition(key_string) {
        Some(d) => d,
        None => {
            return None;
        },
    };
    let shift = modifiers & MODIFIER_SHIFT != 0;
    let mut key_code = def.key_code;
    let mut key = def.key.to_owned();
    let code = match def.code {
        Some(c) => c.to_owned(),
        None => String::new(),
    };
    let location = def.location;
    if shift {
        match def.shift_key {
            Some(sk) => {
                key = sk.to_owned();
            },
            None => {},
        }
        match def.shift_key_code {
            Some(skc) => {
                key_code = skc;
            },
            None => {},
        }
    }
    let mut text = if key.as_str().unicode_len() == 1 {
        key.clone()
    } else {
        String::new()
    };
    match def.text {
        Some(t) => {
            text = t.to_owned();
        },
        None => {},
    }
    if shift {
        match def.shift_text {
            Some(st) => {
                text = st.to_owned();
            },
            None => {},
        }
    }
    if modifiers & !MODIFIER_SHIFT != 0 {
        text = String::new();
    }
    Some(KeyDescription { key_code, key, text, code, location })
}

} // verus!

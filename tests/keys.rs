use split_hub::keys::{
    key_code_name, same_text, str_to_mods, str_to_virtual_key_code, trim_str, Key, KeyCode,
    Modifiers, ParseKeyError,
};
use std::collections::hash_map::DefaultHasher;
use std::hash::{Hash, Hasher};

fn mods(ctrl: bool, alt: bool, shift: bool, logo: bool) -> Modifiers {
    Modifiers { ctrl, alt, shift, logo }
}

fn err<T>(token: &str) -> Result<T, ParseKeyError> {
    Err(ParseKeyError { token: token.to_string() })
}

fn hash_of(k: &Key) -> u64 {
    let mut h = DefaultHasher::new();
    k.hash(&mut h);
    h.finish()
}

#[test]
fn parse_ctrl_s() {
    let k: Key = "Ctrl+S".parse().unwrap();
    assert_eq!(k, Key { key: KeyCode::S, mods: mods(true, false, false, false) });
    assert_eq!(k, Key::ctrl(KeyCode::S));
}

#[test]
fn parse_single_keys() {
    assert_eq!(Key::from_str("S"), Ok(Key::new(KeyCode::S)));
    assert_eq!(Key::from_str("KeyS"), Ok(Key::new(KeyCode::S)));
    assert_eq!(Key::from_str("Digit0"), Ok(Key::new(KeyCode::Key0)));
    assert_eq!(Key::from_str("7"), Ok(Key::new(KeyCode::Key7)));
    assert_eq!(Key::from_str("Numpad3"), Ok(Key::new(KeyCode::Numpad3)));
    assert_eq!(Key::from_str("ArrowUp"), Ok(Key::new(KeyCode::Up)));
    assert_eq!(Key::from_str("Quote"), Ok(Key::new(KeyCode::Apostrophe)));
    assert_eq!(Key::from_str("NumpadSubtract"), Ok(Key::new(KeyCode::NumpadSubtract)));
    assert_eq!(Key::from_str("NumpadSubstract"), err("NumpadSubstract"));
    assert_eq!(key_code_name(KeyCode::NumpadSubtract), "NumpadSubtract");
    assert_eq!(
        Key::from_hotkey("NumpadSubtract", Modifiers::empty()),
        Ok(Key::from(KeyCode::NumpadSubtract, Modifiers::empty()))
    );
    assert_eq!(Key::from_str("Escape"), Ok(Key::new(KeyCode::Escape)));
}

#[test]
fn parse_modifier_order_is_irrelevant() {
    let a = Key::from_str("Shift+Ctrl+A").unwrap();
    let b = Key::from_str("Ctrl+Shift+A").unwrap();
    assert_eq!(a, b);
    assert_eq!(a, Key::from(KeyCode::A, mods(true, false, true, false)));
    let all = Key::from_str("Meta+Alt+Shift+Ctrl+F").unwrap();
    assert_eq!(all.mods, mods(true, true, true, true));
    assert_eq!(Key::from_str("Meta+Q"), Ok(Key::cmd(KeyCode::Q)));
    assert_eq!(Key::from_str("Alt+Q"), Ok(Key::alt(KeyCode::Q)));
    assert_eq!(Key::from_str("Shift+Q"), Ok(Key::shift(KeyCode::Q)));
}

#[test]
fn parse_trims_around_plus() {
    assert_eq!(Key::from_str(" Ctrl + Alt + F "), Ok(Key::from(KeyCode::F, mods(true, true, false, false))));
    assert_eq!(Key::from_str("Ctrl+\tNumpad1"), Ok(Key::ctrl(KeyCode::Numpad1)));
}

#[test]
fn parse_errors() {
    assert_eq!(Key::from_str(""), err(""));
    assert_eq!(Key::from_str("+"), err(""));
    assert_eq!(Key::from_str("Ctrl+"), err(""));
    assert_eq!(Key::from_str("Hyper+A"), err("Hyper"));
    assert_eq!(Key::from_str("ctrl+A"), err("ctrl"));
    assert_eq!(Key::from_str("Ctrl+Foo"), err("Foo"));
    assert_eq!(Key::from_str("Backquote"), err("Backquote"));
    assert_eq!(Key::from_str(" S"), err(" S"));
    assert_eq!(Key::from_str("Ctrl++S"), err(""));
}

#[test]
fn errors_name_the_leftmost_bad_token() {
    assert_eq!(Key::from_str("Hyper+Super+A"), err("Hyper"));
    assert_eq!(Key::from_str("Ctrl + Hyper + Foo"), err("Hyper"));
    assert_eq!(Key::from_str("Ctrl+Alt+ Foo "), err("Foo"));
    assert_eq!(str_to_mods(" Alt + Bogus "), err("Bogus"));
    let e = "Ctrl+Nope".parse::<Key>().unwrap_err();
    assert_eq!(e.token, "Nope");
}

#[test]
fn modifier_lists() {
    assert_eq!(str_to_mods("Ctrl"), Ok(mods(true, false, false, false)));
    assert_eq!(str_to_mods("Alt + Meta"), Ok(mods(false, true, false, true)));
    assert_eq!(str_to_mods("Ctrl+Ctrl"), Ok(mods(true, false, false, false)));
    assert_eq!(str_to_mods(""), err(""));
    assert_eq!(str_to_mods("Ctrl+"), err(""));
}

#[test]
fn key_token_lookup() {
    assert_eq!(str_to_virtual_key_code("PageDown"), Ok(KeyCode::PageDown));
    assert_eq!(str_to_virtual_key_code("Enter"), Ok(KeyCode::Return));
    assert_eq!(str_to_virtual_key_code("enter"), err("enter"));
    assert_eq!(key_code_name(KeyCode::Return), "Enter");
    assert_eq!(key_code_name(KeyCode::A), "KeyA");
    assert_eq!(key_code_name(KeyCode::Key5), "Digit5");
}

#[test]
fn format_keys() {
    assert_eq!(Key::new(KeyCode::Key0).to_string(), "Digit0");
    assert_eq!(Key::ctrl(KeyCode::S).to_string(), "Ctrl+KeyS");
    assert_eq!(Key::from(KeyCode::A, mods(true, true, true, true)).to_string(), "Ctrl+Alt+Meta+Shift+KeyA");
    assert_eq!(Key::from(KeyCode::Up, mods(false, false, true, false)).to_string(), "Shift+ArrowUp");
}

#[test]
fn format_then_parse_round_trips() {
    let texts = ["Ctrl+S", "Shift+Alt+7", "Numpad9", "Meta+Ctrl+ArrowLeft", " Alt + Escape ", "Q"];
    for t in texts {
        let k = Key::from_str(t).unwrap();
        assert_eq!(Key::from_str(&k.to_string()), Ok(k));
    }
    let codes = [KeyCode::A, KeyCode::Key3, KeyCode::Numpad0, KeyCode::NumpadSubtract, KeyCode::Space, KeyCode::RWin];
    for code in codes {
        for bits in 0u8..16 {
            let m = mods(bits & 1 != 0, bits & 2 != 0, bits & 4 != 0, bits & 8 != 0);
            let k = Key::from(code, m);
            assert_eq!(Key::from_str(&k.to_string()), Ok(k));
        }
    }
}

#[test]
fn constructors_agree_and_hash_alike() {
    let m = mods(true, false, false, false);
    let parsed = Key::from_str("Ctrl+S").unwrap();
    let platform = Key::from_hotkey("KeyS", m).unwrap();
    let window = Key::from(KeyCode::S, m);
    assert_eq!(parsed, platform);
    assert_eq!(platform, window);
    assert_eq!(hash_of(&parsed), hash_of(&platform));
    assert_eq!(hash_of(&platform), hash_of(&window));
    assert_eq!(Key::from_hotkey("Backquote", m), err("Backquote"));
    assert_eq!(Key::from_hotkey("Numpad4", Modifiers::empty()), Ok(Key::new(KeyCode::Numpad4)));
}

#[test]
fn text_helpers() {
    assert!(same_text("abc", "abc"));
    assert!(!same_text("abc", "abd"));
    assert!(!same_text("abc", "ab"));
    assert_eq!(trim_str("  a b \n"), "a b");
    assert_eq!(trim_str("\u{3000}x"), "x");
    assert_eq!(trim_str("   "), "");
}

#[test]
fn modifier_union() {
    let a = mods(true, false, false, false);
    let b = mods(false, false, true, true);
    assert_eq!(a.union(b), mods(true, false, true, true));
    assert_eq!(Modifiers::empty(), mods(false, false, false, false));
}

#[test]
fn any_order_and_alias_agree() {
    let m = mods(true, true, false, false);
    let window = Key::from(KeyCode::Key0, m);
    let platform = Key::from_hotkey("Digit0", m).unwrap();
    for t in ["Ctrl+Alt+0", "Alt+Ctrl+Digit0", "Alt+Ctrl+Alt+0", "Ctrl + Alt + Digit0"] {
        let parsed = Key::from_str(t).unwrap();
        assert_eq!(parsed, window);
        assert_eq!(parsed, platform);
        assert_eq!(hash_of(&parsed), hash_of(&window));
    }
    let k = Key::from_str("Shift+NumpadSubtract").unwrap();
    assert_eq!(Key::from_str(&k.to_string()), Ok(k));
    assert_eq!(k.to_string(), "Shift+NumpadSubtract");
}

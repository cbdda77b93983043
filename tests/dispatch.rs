use split_hub::config::{default_state_file, Config};
use split_hub::dispatch::{dispatch_mode, hotkey_setup, Action, ActionTable, DispatchMode};
use split_hub::keys::{Key, KeyCode, Modifiers};

fn local(c: &Config) -> ActionTable {
    hotkey_setup(c, DispatchMode::Local)
}

#[test]
fn ctrl_s_scenario() {
    let mut c = Config::new();
    c.keys.push(("save".to_string(), Key::from_str("Ctrl+S").unwrap()));
    let t = local(&c);
    let ctrl = Modifiers { ctrl: true, alt: false, shift: false, logo: false };
    assert_eq!(t.handle_keypress(Key::from(KeyCode::S, ctrl)), Some(Action::SaveSplits));
    assert_eq!(t.handle_keypress(Key::from(KeyCode::S, Modifiers::empty())), None);
}

#[test]
fn default_local_table() {
    let t = local(&Config::new());
    assert_eq!(t.handle_keypress(Key::new(KeyCode::Numpad1)), Some(Action::Split));
    assert_eq!(t.handle_keypress(Key::new(KeyCode::Numpad3)), Some(Action::Reset));
    assert_eq!(t.handle_keypress(Key::new(KeyCode::Numpad8)), Some(Action::Undo));
    assert_eq!(t.handle_keypress(Key::new(KeyCode::Numpad2)), Some(Action::Skip));
    assert_eq!(t.handle_keypress(Key::new(KeyCode::Numpad5)), Some(Action::Pause));
    assert_eq!(t.handle_keypress(Key::new(KeyCode::Numpad7)), Some(Action::UndoAllPauses));
    assert_eq!(t.handle_keypress(Key::new(KeyCode::Numpad4)), Some(Action::PreviousComparison));
    assert_eq!(t.handle_keypress(Key::new(KeyCode::Numpad6)), Some(Action::NextComparison));
    assert_eq!(t.handle_keypress(Key::new(KeyCode::Numpad9)), Some(Action::ToggleTimingMethod));
    assert_eq!(t.handle_keypress(Key::ctrl(KeyCode::O)), Some(Action::OpenSplits));
    assert_eq!(t.handle_keypress(Key::ctrl(KeyCode::S)), Some(Action::SaveSplits));
    assert_eq!(t.handle_keypress(Key::ctrl(KeyCode::Q)), Some(Action::Quit));
    assert_eq!(t.handle_keypress(Key::ctrl(KeyCode::T)), Some(Action::HideComparison));
    assert_eq!(t.handle_keypress(Key::ctrl(KeyCode::L)), Some(Action::OpenLayout));
    assert_eq!(t.handle_keypress(Key::new(KeyCode::Up)), Some(Action::LayoutUp));
    assert_eq!(t.handle_keypress(Key::new(KeyCode::Down)), Some(Action::LayoutDown));
    assert_eq!(t.handle_keypress(Key::new(KeyCode::Numpad0)), None);
}

#[test]
fn global_mode_leaves_primary_actions_out() {
    let mut c = Config::new();
    c.set_use_global_hotkeys(true);
    assert_eq!(dispatch_mode(&c), DispatchMode::Global);
    let t = hotkey_setup(&c, dispatch_mode(&c));
    for code in [KeyCode::Numpad1, KeyCode::Numpad2, KeyCode::Numpad3, KeyCode::Numpad4, KeyCode::Numpad5, KeyCode::Numpad6, KeyCode::Numpad7, KeyCode::Numpad8, KeyCode::Numpad9] {
        assert_eq!(t.handle_keypress(Key::new(code)), None);
    }
    assert_eq!(t.handle_keypress(Key::ctrl(KeyCode::S)), Some(Action::SaveSplits));
    assert_eq!(dispatch_mode(&Config::new()), DispatchMode::Local);
}

#[test]
fn later_binding_wins() {
    let mut c = Config::new();
    c.keys.push(("save".to_string(), Key::new(KeyCode::Numpad1)));
    let t = local(&c);
    assert_eq!(t.handle_keypress(Key::new(KeyCode::Numpad1)), Some(Action::Split));
    let g = hotkey_setup(&c, DispatchMode::Global);
    assert_eq!(g.handle_keypress(Key::new(KeyCode::Numpad1)), Some(Action::SaveSplits));

    let mut c = Config::new();
    c.keys.push(("open".to_string(), Key::new(KeyCode::A)));
    c.keys.push(("open".to_string(), Key::new(KeyCode::B)));
    let t = local(&c);
    assert_eq!(t.handle_keypress(Key::new(KeyCode::B)), Some(Action::OpenSplits));
    assert_eq!(t.handle_keypress(Key::new(KeyCode::A)), None);
    assert_eq!(t.handle_keypress(Key::ctrl(KeyCode::O)), None);

    let mut c = Config::new();
    c.hotkeys.split = Some(Key::new(KeyCode::Space));
    c.hotkeys.reset = Some(Key::new(KeyCode::Space));
    let t = local(&c);
    assert_eq!(t.handle_keypress(Key::new(KeyCode::Space)), Some(Action::Reset));
    assert_eq!(t.handle_keypress(Key::new(KeyCode::Numpad1)), None);
}

#[test]
fn table_is_deterministic() {
    let mut c = Config::new();
    c.hotkeys.pause = Some(Key::shift(KeyCode::P));
    let a = local(&c);
    let b = local(&c);
    for k in [Key::shift(KeyCode::P), Key::new(KeyCode::Numpad5), Key::ctrl(KeyCode::S), Key::new(KeyCode::Z)] {
        assert_eq!(a.handle_keypress(k), b.handle_keypress(k));
    }
    assert_eq!(a.handle_keypress(Key::shift(KeyCode::P)), Some(Action::Pause));
}

#[test]
fn unbound_key_resolves_to_nothing() {
    let t = ActionTable::new();
    assert_eq!(t.handle_keypress(Key::new(KeyCode::A)), None);
    let mut t = ActionTable::new();
    t.insert(Key::new(KeyCode::A), Action::Quit);
    t.insert(Key::new(KeyCode::A), Action::Skip);
    assert_eq!(t.get(&Key::new(KeyCode::A)), Some(Action::Skip));
    assert_eq!(t.get(&Key::alt(KeyCode::A)), None);
}

#[test]
fn action_classes() {
    assert!(Action::Split.is_primary());
    assert!(Action::ToggleTimingMethod.is_primary());
    assert!(!Action::SaveSplits.is_primary());
    assert!(Action::HideComparison.changes_timer());
    assert!(!Action::LayoutUp.changes_timer());
}

#[test]
fn config_defaults_and_setters() {
    let mut c = Config::new();
    assert_eq!(default_state_file(), "livesplit_state.lsz");
    assert_eq!(c.state_file(), "livesplit_state.lsz");
    assert_eq!(c.window_size(), [300, 500]);
    assert!(!c.use_global_hotkeys());
    assert!(!c.is_game_time());
    assert_eq!(c.splits_path(), None);
    assert_eq!(c.split_key(), Key::new(KeyCode::Numpad1));
    assert_eq!(c.reset_key(), Key::new(KeyCode::Numpad3));
    assert_eq!(c.undo_key(), Key::new(KeyCode::Numpad8));
    assert_eq!(c.skip_key(), Key::new(KeyCode::Numpad2));
    assert_eq!(c.pause_key(), Key::new(KeyCode::Numpad5));
    assert_eq!(c.undo_all_key(), Key::new(KeyCode::Numpad7));
    assert_eq!(c.prev_key(), Key::new(KeyCode::Numpad4));
    assert_eq!(c.next_key(), Key::new(KeyCode::Numpad6));
    assert_eq!(c.toggle_timing_method_key(), Key::new(KeyCode::Numpad9));
    c.hotkeys.undo = Some(Key::ctrl(KeyCode::Z));
    assert_eq!(c.undo_key(), Key::ctrl(KeyCode::Z));
    c.set_state_file("run.lsz");
    assert_eq!(c.state_file(), "run.lsz");
    c.set_splits_path("run.lss");
    assert_eq!(c.splits_path(), Some("run.lss".to_string()));
    c.set_comparison("None");
    assert_eq!(c.comparison, Some("None".to_string()));
    c.set_layout_path("l.json");
    assert_eq!(c.layout, Some("l.json".to_string()));
    c.set_use_global_hotkeys(true);
    assert!(c.use_global_hotkeys());
    assert_eq!(c.named_key("open"), None);
    c.keys.push(("open".to_string(), Key::new(KeyCode::F)));
    assert_eq!(c.named_key("open"), Some(Key::new(KeyCode::F)));
}

use vstd::prelude::*;

use crate::keys::{Key, KeyCode, Modifiers};

verus! {

/// The hotkeys of the primary actions, each unset or bound.
#[derive(Debug, PartialEq, Eq, Structural, Clone, Copy)]
pub struct HotkeyConfig {
    pub split: Option<Key>,
    pub reset: Option<Key>,
    pub undo: Option<Key>,
    pub skip: Option<Key>,
    pub pause: Option<Key>,
    pub undo_all_pauses: Option<Key>,
    pub previous_comparison: Option<Key>,
    pub next_comparison: Option<Key>,
    pub toggle_timing_method: Option<Key>,
}

/// The settings of a session that the hotkeys, the timer and the files
/// depend on.
#[derive(Debug)]
pub struct Config {
    pub hotkeys: HotkeyConfig,
    /// Hotkeys of the window actions, by name; a later entry for a name
    /// replaces an earlier one.
    pub keys: Vec<(String, Key)>,
    pub use_global_hotkeys: Option<bool>,
    pub splits: Option<String>,
    pub layout: Option<String>,
    pub comparison: Option<String>,
    pub game_time: bool,
    pub state_file: String,
    pub width: usize,
    pub height: usize,
}

/// The state file used when none is configured.
pub fn default_state_file() -> (r: String)
    ensures
        r@ == "livesplit_state.lsz"@,
{
    String::from_str("livesplit_state.lsz")
}

/// The key bound to `name` by the last entry that names it.
pub open spec fn find_named(v: Seq<(String, Key)>, name: Seq<char>) -> Option<Key>
    decreases v.len(),
{
    if v.len() == 0 {
        None
    } else if v.last().0@ == name {
        Some(v.last().1)
    } else {
        find_named(v.drop_last(), name)
    }
}

/// The bound key, or the key `d` with no modifier.
pub open spec fn bound_or(o: Option<Key>, d: KeyCode) -> Key {
    match o {
        Some(k) => k,
        None => Key { key: d, mods: Modifiers::none() },
    }
}

fn key_or(o: Option<Key>, d: KeyCode) -> (r: Key)
    ensures
        r == bound_or(o, d),
{
    match o {
        Some(k) => k,
        None => Key::new(d),
    }
}

impl Config {
    /// The settings of a session with nothing configured.
    pub fn new() -> (r: Config)
        ensures
            r.hotkeys == (HotkeyConfig {
                split: None,
                reset: None,
                undo: None,
                skip: None,
                pause: None,
                undo_all_pauses: None,
                previous_comparison: None,
                next_comparison: None,
                toggle_timing_method: None,
            }),
            r.keys@.len() == 0,
            r.use_global_hotkeys == None::<bool>,
            r.splits == None::<String>,
            r.layout == None::<String>,
            r.comparison == None::<String>,
            !r.game_time,
            r.state_file@ == "livesplit_state.lsz"@,
            r.width == 300,
            r.height == 500,
    {
        Config {
            hotkeys: HotkeyConfig {
                split: None,
                reset: None,
                undo: None,
                skip: None,
                pause: None,
                undo_all_pauses: None,
                previous_comparison: None,
                next_comparison: None,
                toggle_timing_method: None,
            },
            keys: Vec::new(),
            use_global_hotkeys: None,
            splits: None,
            layout: None,
            comparison: None,
            game_time: false,
            state_file: default_state_file(),
            width: 300,
            height: 500,
        }
    }

    pub fn state_file(&self) -> (r: String)
        ensures
            r@ == self.state_file@,
    {
        self.state_file.clone()
    }

    pub fn set_state_file(&mut self, path: &str)
        ensures
            final(self).state_file@ == path@,
            *final(self) == (Config { state_file: final(self).state_file, ..*old(self) }),
    {
        self.state_file = String::from_str(path);
    }

    pub fn window_size(&self) -> (r: [usize; 2])
        ensures
            r@ == seq![self.width, self.height],
    {
        let r = [self.width, self.height];
        assert(r@ =~= seq![self.width, self.height]);
        r
    }

    pub fn set_use_global_hotkeys(&mut self, on: bool)
        ensures
            *final(self) == (Config { use_global_hotkeys: Some(on), ..*old(self) }),
    {
        self.use_global_hotkeys = Some(on);
    }

    /// Whether the primary actions are left to the platform's global hotkeys.
    pub open spec fn spec_use_global_hotkeys(&self) -> bool {
        match self.use_global_hotkeys {
            Some(b) => b,
            None => false,
        }
    }

    pub fn use_global_hotkeys(&self) -> (r: bool)
        ensures
            r == self.spec_use_global_hotkeys(),
    {
        match self.use_global_hotkeys {
            Some(b) => b,
            None => false,
        }
    }

    pub fn is_game_time(&self) -> (r: bool)
        ensures
            r == self.game_time,
    {
        self.game_time
    }

    pub fn splits_path(&self) -> (r: Option<String>)
        ensures
            match (r, self.splits) {
                (Some(a), Some(b)) => a@ == b@,
                (None, None) => true,
                _ => false,
            },
    {
        match &self.splits {
            Some(p) => Some(p.clone()),
            None => None,
        }
    }

    pub fn set_splits_path(&mut self, path: &str)
        ensures
            final(self).splits matches Some(p) && p@ == path@,
            *final(self) == (Config { splits: final(self).splits, ..*old(self) }),
    {
        self.splits = Some(String::from_str(path));
    }

    pub fn set_layout_path(&mut self, path: &str)
        ensures
            final(self).layout matches Some(p) && p@ == path@,
            *final(self) == (Config { layout: final(self).layout, ..*old(self) }),
    {
        self.layout = Some(String::from_str(path));
    }

    /// Records the comparison in use.
    pub fn set_comparison(&mut self, comparison: &str)
        ensures
            final(self).comparison matches Some(c) && c@ == comparison@,
            *final(self) == (Config { comparison: final(self).comparison, ..*old(self) }),
    {
        self.comparison = Some(String::from_str(comparison));
    }

    pub fn reset_key(&self) -> (r: Key)
        ensures
            r == bound_or(self.hotkeys.reset, KeyCode::Numpad3),
    {
        key_or(self.hotkeys.reset, KeyCode::Numpad3)
    }

    pub fn split_key(&self) -> (r: Key)
        ensures
            r == bound_or(self.hotkeys.split, KeyCode::Numpad1),
    {
        key_or(self.hotkeys.split, KeyCode::Numpad1)
    }

    pub fn undo_key(&self) -> (r: Key)
        ensures
            r == bound_or(self.hotkeys.undo, KeyCode::Numpad8),
    {
        key_or(self.hotkeys.undo, KeyCode::Numpad8)
    }

    pub fn skip_key(&self) -> (r: Key)
        ensures
            r == bound_or(self.hotkeys.skip, KeyCode::Numpad2),
    {
        key_or(self.hotkeys.skip, KeyCode::Numpad2)
    }

    pub fn pause_key(&self) -> (r: Key)
        ensures
            r == bound_or(self.hotkeys.pause, KeyCode::Numpad5),
    {
        key_or(self.hotkeys.pause, KeyCode::Numpad5)
    }

    pub fn undo_all_key(&self) -> (r: Key)
        ensures
            r == bound_or(self.hotkeys.undo_all_pauses, KeyCode::Numpad7),
    {
        key_or(self.hotkeys.undo_all_pauses, KeyCode::Numpad7)
    }

    pub fn prev_key(&self) -> (r: Key)
        ensures
            r == bound_or(self.hotkeys.previous_comparison, KeyCode::Numpad4),
    {
        key_or(self.hotkeys.previous_comparison, KeyCode::Numpad4)
    }

    pub fn next_key(&self) -> (r: Key)
        ensures
            r == bound_or(self.hotkeys.next_comparison, KeyCode::Numpad6),
    {
        key_or(self.hotkeys.next_comparison, KeyCode::Numpad6)
    }

    pub fn toggle_timing_method_key(&self) -> (r: Key)
        ensures
            r == bound_or(self.hotkeys.toggle_timing_method, KeyCode::Numpad9),
    {
        key_or(self.hotkeys.toggle_timing_method, KeyCode::Numpad9)
    }

    /// The key that the last entry for `name` binds, if any.
    pub fn named_key(&self, name: &str) -> (r: Option<Key>)
        ensures
            r == find_named(self.keys@, name@),
    {
        let n = self.keys.len();
        let mut i: usize = n;
        assert(self.keys@.subrange(0, n as int) =~= self.keys@);
        while i > 0
            invariant
                n == self.keys@.len(),
                i <= n,
                find_named(self.keys@, name@) == find_named(self.keys@.subrange(0, i as int), name@),
            decreases i,
        {
            let ghost p = self.keys@.subrange(0, i as int);
            let entry = &self.keys[i - 1];
            assert(p.last() == *entry);
            if crate::keys::same_text(entry.0.as_str(), name) {
                return Some(entry.1);
            }
            assert(p.drop_last() =~= self.keys@.subrange(0, i - 1));
            i = i - 1;
        }
        None
    }
}

} // verus!

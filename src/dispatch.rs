use vstd::prelude::*;

use crate::config::{bound_or, find_named, Config};
use crate::keys::{Key, KeyCode, Modifiers};

verus! {

/// What a hotkey can make the timer or the window do.
#[derive(Debug, PartialEq, Eq, Structural, Clone, Copy)]
pub enum Action {
    Split,
    Reset,
    Undo,
    Skip,
    Pause,
    UndoAllPauses,
    PreviousComparison,
    NextComparison,
    ToggleTimingMethod,
    HideComparison,
    OpenSplits,
    SaveSplits,
    OpenLayout,
    Quit,
    LayoutUp,
    LayoutDown,
}

impl Action {
    /// The actions that global hotkeys take over from the window.
    pub open spec fn spec_is_primary(self) -> bool {
        match self {
            Action::Split | Action::Reset | Action::Undo | Action::Skip | Action::Pause
            | Action::UndoAllPauses | Action::PreviousComparison | Action::NextComparison
            | Action::ToggleTimingMethod => true,
            _ => false,
        }
    }

    pub fn is_primary(&self) -> (r: bool)
        ensures
            r == self.spec_is_primary(),
    {
        match self {
            Action::Split | Action::Reset | Action::Undo | Action::Skip | Action::Pause
            | Action::UndoAllPauses | Action::PreviousComparison | Action::NextComparison
            | Action::ToggleTimingMethod => true,
            _ => false,
        }
    }

    /// The actions after which the timer's state is to be sent to clients.
    pub open spec fn spec_changes_timer(self) -> bool {
        self.spec_is_primary() || self == Action::HideComparison
    }

    pub fn changes_timer(&self) -> (r: bool)
        ensures
            r == self.spec_changes_timer(),
    {
        self.is_primary() || matches!(self, Action::HideComparison)
    }
}

/// Where the primary actions are resolved from.
#[derive(Debug, PartialEq, Eq, Structural, Clone, Copy)]
pub enum DispatchMode {
    /// The platform's global hotkeys take the primary actions; the window
    /// resolves only the others.
    Global,
    /// The window resolves every action.
    Local,
}

/// The mode that a configuration asks for.
pub open spec fn mode_of(c: &Config) -> DispatchMode {
    if c.spec_use_global_hotkeys() {
        DispatchMode::Global
    } else {
        DispatchMode::Local
    }
}

pub fn dispatch_mode(c: &Config) -> (r: DispatchMode)
    ensures
        r == mode_of(c),
{
    if c.use_global_hotkeys() {
        DispatchMode::Global
    } else {
        DispatchMode::Local
    }
}

/// The bindings held in insertion order, as a map in which a later binding
/// of a hotkey replaces an earlier one.
pub open spec fn map_of(s: Seq<(Key, Action)>) -> Map<Key, Action>
    decreases s.len(),
{
    if s.len() == 0 {
        Map::empty()
    } else {
        map_of(s.drop_last()).insert(s.last().0, s.last().1)
    }
}

/// Hotkeys bound to actions.
pub struct ActionTable {
    entries: Vec<(Key, Action)>,
}

impl View for ActionTable {
    type V = Map<Key, Action>;

    closed spec fn view(&self) -> Map<Key, Action> {
        map_of(self.entries@)
    }
}

impl ActionTable {
    pub fn new() -> (r: ActionTable)
        ensures
            r@ == Map::<Key, Action>::empty(),
    {
        ActionTable { entries: Vec::new() }
    }

    /// Binds `key` to `action`, replacing any earlier binding of `key`.
    pub fn insert(&mut self, key: Key, action: Action)
        ensures
            final(self)@ == old(self)@.insert(key, action),
    {
        self.entries.push((key, action));
        assert(self.entries@.drop_last() =~= old(self).entries@);
    }

    /// The action bound to `key`, if any.
    pub fn get(&self, key: &Key) -> (r: Option<Action>)
        ensures
            r == (if self@.contains_key(*key) {
                Some(self@[*key])
            } else {
                None
            }),
    {
        let n = self.entries.len();
        let mut i: usize = n;
        assert(self.entries@.subrange(0, n as int) =~= self.entries@);
        while i > 0
            invariant
                n == self.entries@.len(),
                i <= n,
                self@.contains_key(*key) == map_of(self.entries@.subrange(0, i as int)).contains_key(*key),
                self@.contains_key(*key) ==> self@[*key] == map_of(self.entries@.subrange(0, i as int))[*key],
            decreases i,
        {
            let ghost p = self.entries@.subrange(0, i as int);
            assert(p.drop_last() =~= self.entries@.subrange(0, i - 1));
            let entry = self.entries[i - 1];
            assert(p.last() == entry);
            if entry.0 == *key {
                return Some(entry.1);
            }
            i = i - 1;
        }
        None
    }

    /// The action that a key press resolves to; `None` leaves everything as
    /// it is.
    pub fn handle_keypress(&self, key: Key) -> (r: Option<Action>)
        ensures
            r == (if self@.contains_key(key) {
                Some(self@[key])
            } else {
                None
            }),
    {
        self.get(&key)
    }
}

/// The configured key of a window action, or its default.
pub open spec fn named_or(c: &Config, name: Seq<char>, d: Key) -> Key {
    match find_named(c.keys@, name) {
        Some(k) => k,
        None => d,
    }
}

pub open spec fn ctrl_key(k: KeyCode) -> Key {
    Key { key: k, mods: Modifiers { ctrl: true, ..Modifiers::none() } }
}

/// The bindings of the window actions, in the order they are made.
pub open spec fn secondary_table(c: &Config) -> Map<Key, Action> {
    Map::empty().insert(named_or(c, "open"@, ctrl_key(KeyCode::O)), Action::OpenSplits).insert(
        named_or(c, "save"@, ctrl_key(KeyCode::S)),
        Action::SaveSplits,
    ).insert(named_or(c, "quit"@, ctrl_key(KeyCode::Q)), Action::Quit).insert(
        named_or(c, "hide"@, ctrl_key(KeyCode::T)),
        Action::HideComparison,
    ).insert(named_or(c, "layout"@, ctrl_key(KeyCode::L)), Action::OpenLayout).insert(
        named_or(c, "layout_up"@, Key { key: KeyCode::Up, mods: Modifiers::none() }),
        Action::LayoutUp,
    ).insert(
        named_or(c, "layout_down"@, Key { key: KeyCode::Down, mods: Modifiers::none() }),
        Action::LayoutDown,
    )
}

pub open spec fn split_key(c: &Config) -> Key {
    bound_or(c.hotkeys.split, KeyCode::Numpad1)
}

pub open spec fn reset_key(c: &Config) -> Key {
    bound_or(c.hotkeys.reset, KeyCode::Numpad3)
}

pub open spec fn undo_key(c: &Config) -> Key {
    bound_or(c.hotkeys.undo, KeyCode::Numpad8)
}

pub open spec fn skip_key(c: &Config) -> Key {
    bound_or(c.hotkeys.skip, KeyCode::Numpad2)
}

pub open spec fn pause_key(c: &Config) -> Key {
    bound_or(c.hotkeys.pause, KeyCode::Numpad5)
}

pub open spec fn undo_all_key(c: &Config) -> Key {
    bound_or(c.hotkeys.undo_all_pauses, KeyCode::Numpad7)
}

pub open spec fn prev_key(c: &Config) -> Key {
    bound_or(c.hotkeys.previous_comparison, KeyCode::Numpad4)
}

pub open spec fn next_key(c: &Config) -> Key {
    bound_or(c.hotkeys.next_comparison, KeyCode::Numpad6)
}

pub open spec fn toggle_key(c: &Config) -> Key {
    bound_or(c.hotkeys.toggle_timing_method, KeyCode::Numpad9)
}

/// The window actions, then in `Local` mode the primary actions.
pub open spec fn table_of(c: &Config, mode: DispatchMode) -> Map<Key, Action> {
    match mode {
        DispatchMode::Global => secondary_table(c),
        DispatchMode::Local => secondary_table(c).insert(split_key(c), Action::Split).insert(
            reset_key(c),
            Action::Reset,
        ).insert(undo_key(c), Action::Undo).insert(skip_key(c), Action::Skip).insert(
            pause_key(c),
            Action::Pause,
        ).insert(undo_all_key(c), Action::UndoAllPauses).insert(
            prev_key(c),
            Action::PreviousComparison,
        ).insert(next_key(c), Action::NextComparison).insert(
            toggle_key(c),
            Action::ToggleTimingMethod,
        ),
    }
}

fn named_or_default(c: &Config, name: &str, d: Key) -> (r: Key)
    ensures
        r == named_or(c, name@, d),
{
    match c.named_key(name) {
        Some(k) => k,
        None => d,
    }
}

/// Builds the table that the window resolves key presses with.
pub fn hotkey_setup(c: &Config, mode: DispatchMode) -> (r: ActionTable)
    ensures
        r@ == table_of(c, mode),
{
    let mut t = ActionTable::new();
    t.insert(named_or_default(c, "open", Key::ctrl(KeyCode::O)), Action::OpenSplits);
    t.insert(named_or_default(c, "save", Key::ctrl(KeyCode::S)), Action::SaveSplits);
    t.insert(named_or_default(c, "quit", Key::ctrl(KeyCode::Q)), Action::Quit);
    t.insert(named_or_default(c, "hide", Key::ctrl(KeyCode::T)), Action::HideComparison);
    t.insert(named_or_default(c, "layout", Key::ctrl(KeyCode::L)), Action::OpenLayout);
    t.insert(named_or_default(c, "layout_up", Key::new(KeyCode::Up)), Action::LayoutUp);
    t.insert(named_or_default(c, "layout_down", Key::new(KeyCode::Down)), Action::LayoutDown);
    match mode {
        DispatchMode::Global => {},
        DispatchMode::Local => {
            t.insert(c.split_key(), Action::Split);
            t.insert(c.reset_key(), Action::Reset);
            t.insert(c.undo_key(), Action::Undo);
            t.insert(c.skip_key(), Action::Skip);
            t.insert(c.pause_key(), Action::Pause);
            t.insert(c.undo_all_key(), Action::UndoAllPauses);
            t.insert(c.prev_key(), Action::PreviousComparison);
            t.insert(c.next_key(), Action::NextComparison);
            t.insert(c.toggle_timing_method_key(), Action::ToggleTimingMethod);
        },
    }
    t
}

/// Whether `k` is the hotkey of one of the primary actions.
pub open spec fn is_primary_key(c: &Config, k: Key) -> bool {
    k == split_key(c) || k == reset_key(c) || k == undo_key(c) || k == skip_key(c) || k
        == pause_key(c) || k == undo_all_key(c) || k == prev_key(c) || k == next_key(c) || k
        == toggle_key(c)
}

/// The table depends on the configuration and the mode alone.
pub proof fn lemma_table_deterministic(c1: &Config, c2: &Config, mode: DispatchMode)
    requires
        c1.hotkeys == c2.hotkeys,
        c1.keys@ == c2.keys@,
    ensures
        table_of(c1, mode) == table_of(c2, mode),
{
}

/// The bindings that `hotkey_setup` makes, in the order it makes them: the
/// window actions, then in `Local` mode the primary actions.
pub open spec fn secondary_bindings(c: &Config) -> Seq<(Key, Action)> {
    Seq::empty()
        .push((named_or(c, "open"@, ctrl_key(KeyCode::O)), Action::OpenSplits))
        .push((named_or(c, "save"@, ctrl_key(KeyCode::S)), Action::SaveSplits))
        .push((named_or(c, "quit"@, ctrl_key(KeyCode::Q)), Action::Quit))
        .push((named_or(c, "hide"@, ctrl_key(KeyCode::T)), Action::HideComparison))
        .push((named_or(c, "layout"@, ctrl_key(KeyCode::L)), Action::OpenLayout))
        .push((named_or(c, "layout_up"@, Key { key: KeyCode::Up, mods: Modifiers::none() }), Action::LayoutUp))
        .push((named_or(c, "layout_down"@, Key { key: KeyCode::Down, mods: Modifiers::none() }), Action::LayoutDown))
}

pub open spec fn bindings_of(c: &Config, mode: DispatchMode) -> Seq<(Key, Action)> {
    match mode {
        DispatchMode::Global => secondary_bindings(c),
        DispatchMode::Local => secondary_bindings(c)
            .push((split_key(c), Action::Split))
            .push((reset_key(c), Action::Reset))
            .push((undo_key(c), Action::Undo))
            .push((skip_key(c), Action::Skip))
            .push((pause_key(c), Action::Pause))
            .push((undo_all_key(c), Action::UndoAllPauses))
            .push((prev_key(c), Action::PreviousComparison))
            .push((next_key(c), Action::NextComparison))
            .push((toggle_key(c), Action::ToggleTimingMethod)),
    }
}

proof fn lemma_map_of_push(s: Seq<(Key, Action)>, e: (Key, Action))
    ensures
        map_of(s.push(e)) == map_of(s).insert(e.0, e.1),
{
    assert(s.push(e).drop_last() =~= s);
}

/// A binding stands in the map unless a later binding takes its hotkey.
proof fn lemma_map_of_latest(s: Seq<(Key, Action)>, i: int)
    requires
        0 <= i < s.len(),
        forall|j: int| i < j < s.len() ==> (#[trigger] s[j]).0 != s[i].0,
    ensures
        map_of(s).contains_key(s[i].0),
        map_of(s)[s[i].0] == s[i].1,
    decreases s.len(),
{
    if i < s.len() - 1 {
        let t = s.drop_last();
        assert(s.last() == s[s.len() - 1]);
        assert forall|j: int| i < j < t.len() implies (#[trigger] t[j]).0 != t[i].0 by {
            assert(t[j] == s[j]);
        }
        lemma_map_of_latest(t, i);
    }
}

/// The table is the map of the bindings made in order.
proof fn lemma_table_bindings(c: &Config, mode: DispatchMode)
    ensures
        table_of(c, mode) == map_of(bindings_of(c, mode)),
{
    let s0 = Seq::<(Key, Action)>::empty();
    let s1 = s0.push((named_or(c, "open"@, ctrl_key(KeyCode::O)), Action::OpenSplits));
    let s2 = s1.push((named_or(c, "save"@, ctrl_key(KeyCode::S)), Action::SaveSplits));
    let s3 = s2.push((named_or(c, "quit"@, ctrl_key(KeyCode::Q)), Action::Quit));
    let s4 = s3.push((named_or(c, "hide"@, ctrl_key(KeyCode::T)), Action::HideComparison));
    let s5 = s4.push((named_or(c, "layout"@, ctrl_key(KeyCode::L)), Action::OpenLayout));
    let s6 = s5.push((named_or(c, "layout_up"@, Key { key: KeyCode::Up, mods: Modifiers::none() }), Action::LayoutUp));
    let s7 = s6.push((named_or(c, "layout_down"@, Key { key: KeyCode::Down, mods: Modifiers::none() }), Action::LayoutDown));
    lemma_map_of_push(s0, (named_or(c, "open"@, ctrl_key(KeyCode::O)), Action::OpenSplits));
    lemma_map_of_push(s1, (named_or(c, "save"@, ctrl_key(KeyCode::S)), Action::SaveSplits));
    lemma_map_of_push(s2, (named_or(c, "quit"@, ctrl_key(KeyCode::Q)), Action::Quit));
    lemma_map_of_push(s3, (named_or(c, "hide"@, ctrl_key(KeyCode::T)), Action::HideComparison));
    lemma_map_of_push(s4, (named_or(c, "layout"@, ctrl_key(KeyCode::L)), Action::OpenLayout));
    lemma_map_of_push(s5, (named_or(c, "layout_up"@, Key { key: KeyCode::Up, mods: Modifiers::none() }), Action::LayoutUp));
    lemma_map_of_push(s6, (named_or(c, "layout_down"@, Key { key: KeyCode::Down, mods: Modifiers::none() }), Action::LayoutDown));
    assert(s7 == secondary_bindings(c));
    if mode == DispatchMode::Local {
        let s8 = s7.push((split_key(c), Action::Split));
        let s9 = s8.push((reset_key(c), Action::Reset));
        let s10 = s9.push((undo_key(c), Action::Undo));
        let s11 = s10.push((skip_key(c), Action::Skip));
        let s12 = s11.push((pause_key(c), Action::Pause));
        let s13 = s12.push((undo_all_key(c), Action::UndoAllPauses));
        let s14 = s13.push((prev_key(c), Action::PreviousComparison));
        let s15 = s14.push((next_key(c), Action::NextComparison));
        let s16 = s15.push((toggle_key(c), Action::ToggleTimingMethod));
        lemma_map_of_push(s7, (split_key(c), Action::Split));
        lemma_map_of_push(s8, (reset_key(c), Action::Reset));
        lemma_map_of_push(s9, (undo_key(c), Action::Undo));
        lemma_map_of_push(s10, (skip_key(c), Action::Skip));
        lemma_map_of_push(s11, (pause_key(c), Action::Pause));
        lemma_map_of_push(s12, (undo_all_key(c), Action::UndoAllPauses));
        lemma_map_of_push(s13, (prev_key(c), Action::PreviousComparison));
        lemma_map_of_push(s14, (next_key(c), Action::NextComparison));
        lemma_map_of_push(s15, (toggle_key(c), Action::ToggleTimingMethod));
    }
}

/// Of the bindings that the configuration and the mode call for, each one
/// decides what its hotkey does unless a later binding takes the same
/// hotkey: of two bindings that name one hotkey, the later one wins.
pub proof fn lemma_later_binding_wins(c: &Config, mode: DispatchMode, i: int)
    requires
        0 <= i < bindings_of(c, mode).len(),
        forall|j: int|
            i < j < bindings_of(c, mode).len() ==> (#[trigger] bindings_of(c, mode)[j]).0
                != bindings_of(c, mode)[i].0,
    ensures
        table_of(c, mode).contains_key(bindings_of(c, mode)[i].0),
        table_of(c, mode)[bindings_of(c, mode)[i].0] == bindings_of(c, mode)[i].1,
{
    lemma_table_bindings(c, mode);
    lemma_map_of_latest(bindings_of(c, mode), i);
}

/// In `Global` mode no key press in the window resolves to a primary action.
pub proof fn lemma_global_window_keys(c: &Config, k: Key)
    requires
        table_of(c, DispatchMode::Global).contains_key(k),
    ensures
        !table_of(c, DispatchMode::Global)[k].spec_is_primary(),
{
    let m0 = Map::<Key, Action>::empty();
    let m1 = m0.insert(named_or(c, "open"@, ctrl_key(KeyCode::O)), Action::OpenSplits);
    let m2 = m1.insert(named_or(c, "save"@, ctrl_key(KeyCode::S)), Action::SaveSplits);
    let m3 = m2.insert(named_or(c, "quit"@, ctrl_key(KeyCode::Q)), Action::Quit);
    let m4 = m3.insert(named_or(c, "hide"@, ctrl_key(KeyCode::T)), Action::HideComparison);
    let m5 = m4.insert(named_or(c, "layout"@, ctrl_key(KeyCode::L)), Action::OpenLayout);
    let m6 = m5.insert(
        named_or(c, "layout_up"@, Key { key: KeyCode::Up, mods: Modifiers::none() }),
        Action::LayoutUp,
    );
    let m7 = m6.insert(
        named_or(c, "layout_down"@, Key { key: KeyCode::Down, mods: Modifiers::none() }),
        Action::LayoutDown,
    );
    assert(m7 == secondary_table(c));
    assert(forall|j: Key| m1.contains_key(j) ==> !(#[trigger] m1[j]).spec_is_primary());
    assert(forall|j: Key| m2.contains_key(j) ==> !(#[trigger] m2[j]).spec_is_primary());
    assert(forall|j: Key| m3.contains_key(j) ==> !(#[trigger] m3[j]).spec_is_primary());
    assert(forall|j: Key| m4.contains_key(j) ==> !(#[trigger] m4[j]).spec_is_primary());
    assert(forall|j: Key| m5.contains_key(j) ==> !(#[trigger] m5[j]).spec_is_primary());
    assert(forall|j: Key| m6.contains_key(j) ==> !(#[trigger] m6[j]).spec_is_primary());
    assert(forall|j: Key| m7.contains_key(j) ==> !(#[trigger] m7[j]).spec_is_primary());
}

/// In `Local` mode the hotkey of each primary action resolves in the window
/// to a primary action, and to that very action when no later primary
/// binding takes its hotkey.
pub proof fn lemma_local_window_keys(c: &Config, k: Key)
    requires
        is_primary_key(c, k),
    ensures
        table_of(c, DispatchMode::Local).contains_key(k),
        table_of(c, DispatchMode::Local)[k].spec_is_primary(),
        k == toggle_key(c) ==> table_of(c, DispatchMode::Local)[k] == Action::ToggleTimingMethod,
        k == split_key(c) && !(k == reset_key(c) || k == undo_key(c) || k == skip_key(c) || k
            == pause_key(c) || k == undo_all_key(c) || k == prev_key(c) || k == next_key(c) || k
            == toggle_key(c)) ==> table_of(c, DispatchMode::Local)[k] == Action::Split,
{
}

} // verus!

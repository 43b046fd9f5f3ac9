//! Modes, actions, and the table that binds keys to actions in each mode.

use vstd::prelude::*;
use vstd::string::StringExecFns;
use crate::keys::{KeyCode, KeyEvent, KeyModifiers, CONTROL};

verus! {

/// The mode that the editor is in.
#[derive(Clone, Copy, Debug, PartialEq, Eq, Structural)]
pub enum Mode {
    Normal,
    Insert,
    Operator,
    Ex,
}

impl Mode {
    /// The text that shows the mode on the status line.
    pub open spec fn spec_label(self) -> Seq<char> {
        match self {
            Mode::Normal => "--- NORMAL ---"@,
            Mode::Insert => "--- INSERT ---"@,
            Mode::Operator => "--- OPERATOR ---"@,
            Mode::Ex => "--- EX ---"@,
        }
    }

    /// The text that shows the mode on the status line.
    pub fn label(&self) -> (s: String)
        ensures
            s@ == self.spec_label(),
    {
        match self {
            Mode::Normal => String::from_str("--- NORMAL ---"),
            Mode::Insert => String::from_str("--- INSERT ---"),
            Mode::Operator => String::from_str("--- OPERATOR ---"),
            Mode::Ex => String::from_str("--- EX ---"),
        }
    }
}

/// What a key can be bound to.
#[derive(Clone, Copy, Debug, PartialEq, Eq, Structural)]
pub enum Action {
    MoveLeft,
    MoveDown,
    MoveUp,
    MoveRight,
    /// Half a screen down.
    MoveHalfDown,
    /// Half a screen up.
    MoveHalfUp,
    /// Enter insert mode.
    StartInsert,
    /// Enter ex mode.
    StartEx,
    /// Go back to normal mode.
    BackNormal,
}

/// One binding of a key to an action.
#[derive(Clone, Copy, Debug)]
pub struct Binding {
    pub key: KeyEvent,
    pub action: Action,
}

/// The action that a list of bindings gives a key: that of the last
/// binding of the key, if there is one.
pub open spec fn bound(bindings: Seq<Binding>, key: KeyEvent) -> Option<Action>
    decreases bindings.len(),
{
    if bindings.len() == 0 {
        None
    } else if bindings.last().key == key {
        Some(bindings.last().action)
    } else {
        bound(bindings.drop_last(), key)
    }
}

/// The action that the default table binds to `key` in `mode`.
pub open spec fn default_binding(mode: Mode, key: KeyEvent) -> Option<Action> {
    if mode == Mode::Normal && key.modifiers.bits == 0 {
        match key.code {
            KeyCode::Char('h') | KeyCode::Left => Some(Action::MoveLeft),
            KeyCode::Char('j') | KeyCode::Down => Some(Action::MoveDown),
            KeyCode::Char('k') | KeyCode::Up => Some(Action::MoveUp),
            KeyCode::Char('l') | KeyCode::Right => Some(Action::MoveRight),
            KeyCode::Char('i') => Some(Action::StartInsert),
            KeyCode::Char(':') => Some(Action::StartEx),
            _ => None,
        }
    } else if mode == Mode::Normal && key.modifiers.bits == CONTROL {
        match key.code {
            KeyCode::Char('d') => Some(Action::MoveHalfDown),
            KeyCode::Char('u') => Some(Action::MoveHalfUp),
            _ => None,
        }
    } else if mode == Mode::Insert && key.modifiers.bits == 0 && key.code == KeyCode::Esc {
        Some(Action::BackNormal)
    } else {
        None
    }
}

/// The bindings of every mode.
pub struct Mapping {
    nmaps: Vec<Binding>,
    imaps: Vec<Binding>,
    omaps: Vec<Binding>,
    xmaps: Vec<Binding>,
}

impl Mapping {
    /// The bindings of `mode`, in the order in which they were made.
    pub closed spec fn bindings(&self, mode: Mode) -> Seq<Binding> {
        match mode {
            Mode::Normal => self.nmaps@,
            Mode::Insert => self.imaps@,
            Mode::Operator => self.omaps@,
            Mode::Ex => self.xmaps@,
        }
    }

    /// The action bound to `key` in `mode`, if any. Only the same key with
    /// the same modifiers matches.
    pub open spec fn binding(&self, mode: Mode, key: KeyEvent) -> Option<Action> {
        bound(self.bindings(mode), key)
    }

    /// A table without bindings.
    pub fn new() -> (map: Mapping)
        ensures
            forall|mode: Mode, key: KeyEvent| map.binding(mode, key) == None::<Action>,
    {
        Mapping { nmaps: Vec::new(), imaps: Vec::new(), omaps: Vec::new(), xmaps: Vec::new() }
    }

    fn get_map(&self, mode: &Mode) -> (map: &Vec<Binding>)
        ensures
            map@ == self.bindings(*mode),
    {
        match mode {
            Mode::Normal => &self.nmaps,
            Mode::Insert => &self.imaps,
            Mode::Operator => &self.omaps,
            Mode::Ex => &self.xmaps,
        }
    }

    fn get_map_mut(&mut self, mode: &Mode) -> (map: &mut Vec<Binding>)
        ensures
            map@ == old(self).bindings(*mode),
            final(self).bindings(*mode) == final(map)@,
            forall|m: Mode| m != *mode ==> final(self).bindings(m) == old(self).bindings(m),
    {
        match mode {
            Mode::Normal => &mut self.nmaps,
            Mode::Insert => &mut self.imaps,
            Mode::Operator => &mut self.omaps,
            Mode::Ex => &mut self.xmaps,
        }
    }

    /// Looks up the action bound to `event` in `mode`.
    pub fn get_mapping(&self, mode: &Mode, event: &KeyEvent) -> (action: Option<Action>)
        ensures
            action == self.binding(*mode, *event),
    {
        let map = self.get_map(mode);
        let mut i: usize = map.len();
        assert(map@.subrange(0, i as int) =~= map@);
        while i > 0
            invariant
                i <= map@.len(),
                map@ == self.bindings(*mode),
                bound(map@, *event) == bound(map@.subrange(0, i as int), *event),
            decreases i,
        {
            i -= 1;
            let ghost upto = map@.subrange(0, i + 1);
            assert(upto.drop_last() =~= map@.subrange(0, i as int));
            assert(upto.last() == map@[i as int]);
            assert(bound(upto, *event) == if map@[i as int].key == *event {
                Some(map@[i as int].action)
            } else {
                bound(map@.subrange(0, i as int), *event)
            });
            if map[i].key.same(event) {
                return Some(map[i].action);
            }
        }
        None
    }

    /// Binds `event` to `func` in `mode`, in place of what it was bound to
    /// there. Every other binding stays.
    pub fn insert_mapping(&mut self, mode: &Mode, event: KeyEvent, func: Action)
        ensures
            forall|m: Mode, k: KeyEvent| #[trigger]
                final(self).binding(m, k) == if m == *mode && k == event {
                    Some(func)
                } else {
                    old(self).binding(m, k)
                },
    {
        self.get_map_mut(mode).push(Binding { key: event, action: func });
        assert(self.bindings(*mode).drop_last() =~= old(self).bindings(*mode));
    }

    /// Binds `code`, pressed with no modifier, to `func` in `mode`.
    pub fn insert_nomod_mapping(&mut self, mode: &Mode, code: KeyCode, func: Action)
        ensures
            forall|m: Mode, k: KeyEvent| #[trigger]
                final(self).binding(m, k) == if m == *mode && k == KeyEvent::plain(code) {
                    Some(func)
                } else {
                    old(self).binding(m, k)
                },
    {
        self.insert_mapping(mode, KeyEvent { code, modifiers: KeyModifiers::empty() }, func);
    }
}

/// The default table: `h` `j` `k` `l` and the arrow keys move the cursor,
/// control with `d` or `u` moves half a screen, `i` and `:` enter insert
/// and ex mode, and escape leaves insert mode.
pub fn default_mappings() -> (map: Mapping)
    ensures
        forall|mode: Mode, key: KeyEvent| #[trigger]
            map.binding(mode, key) == default_binding(mode, key),
{
    let mut map = Mapping::new();
    map.insert_nomod_mapping(&Mode::Normal, KeyCode::Char('h'), Action::MoveLeft);
    map.insert_nomod_mapping(&Mode::Normal, KeyCode::Char('j'), Action::MoveDown);
    map.insert_nomod_mapping(&Mode::Normal, KeyCode::Char('k'), Action::MoveUp);
    map.insert_nomod_mapping(&Mode::Normal, KeyCode::Char('l'), Action::MoveRight);
    map.insert_nomod_mapping(&Mode::Normal, KeyCode::Left, Action::MoveLeft);
    map.insert_nomod_mapping(&Mode::Normal, KeyCode::Down, Action::MoveDown);
    map.insert_nomod_mapping(&Mode::Normal, KeyCode::Up, Action::MoveUp);
    map.insert_nomod_mapping(&Mode::Normal, KeyCode::Right, Action::MoveRight);
    map.insert_mapping(
        &Mode::Normal,
        KeyEvent { code: KeyCode::Char('d'), modifiers: KeyModifiers::control() },
        Action::MoveHalfDown,
    );
    map.insert_mapping(
        &Mode::Normal,
        KeyEvent { code: KeyCode::Char('u'), modifiers: KeyModifiers::control() },
        Action::MoveHalfUp,
    );
    map.insert_nomod_mapping(&Mode::Normal, KeyCode::Char('i'), Action::StartInsert);
    map.insert_nomod_mapping(&Mode::Normal, KeyCode::Char(':'), Action::StartEx);
    map.insert_nomod_mapping(&Mode::Insert, KeyCode::Esc, Action::BackNormal);
    map
}

} // verus!

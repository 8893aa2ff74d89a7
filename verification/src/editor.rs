//! The modal editor: a closed set of modes, each with its own chord table,
//! and the transition state machine that consumes one key event at a time.
//! A multi-key prefix is held as the pending chord; a key that breaks a
//! prefix is reprocessed alone, so input is never silently dropped.

use vstd::prelude::*;
use crate::app::App;
use crate::buffer::{
    buf_wf, buf_insert_char, buf_backspace, buf_newline, buf_move_left, buf_move_right,
    buf_move_up, buf_move_down, buf_move_top, buf_delete_line, buf_delete_word, buf_insert_text,
    joined, BufModel, TextBuffer,
};
use crate::markup::{strip_spec, wrap_spec};

verus! {

/// The closed mode set: a command mode and an insertion-capable mode.
#[derive(Clone, Copy, PartialEq, Eq, Structural, Debug)]
pub enum Mode {
    Normal,
    Insert,
}

/// One key event, as the editor reads it.
#[derive(Clone, Copy, PartialEq, Eq, Structural, Debug)]
pub enum Key {
    Char(char),
    Esc,
    Enter,
    Backspace,
    Tab,
    Up,
    Down,
    Left,
    Right,
}

/// What a bound chord does.
#[derive(Clone, Copy, PartialEq, Eq, Structural, Debug)]
pub enum Action {
    SwitchMode(Mode),
    Submit,
    Quit,
    InsertChar(char),
    DeleteBack,
    NewLine,
    MoveLeft,
    MoveRight,
    MoveUp,
    MoveDown,
    MoveTop,
    DeleteLine,
    DeleteWordBack,
    CycleSuggestion,
    ChooseSuggestion,
}

/// The answer of a chord table for an accumulated key sequence.
#[derive(Clone, Copy, PartialEq, Eq, Structural, Debug)]
pub enum ChordLookup {
    Bound(Action),
    Prefix,
    Unbound,
}

/// The outcome of processing one event.
#[derive(Clone, Debug)]
pub enum Transition {
    Mode(Mode),
    Nop,
    Pending(Vec<Key>),
    Quit,
}

/// A transition together with the text of a submit action, if one fired;
/// the caller dispatches that text and clears the buffer once the dispatch
/// call has resolved.
pub struct Outcome {
    pub transition: Transition,
    pub submit: Option<String>,
}

/// The command mode's table for a single key.
pub open spec fn normal_single(k: Key) -> ChordLookup {
    match k {
        Key::Char(c) => if c == 'i' {
            ChordLookup::Bound(Action::SwitchMode(Mode::Insert))
        } else if c == 'q' {
            ChordLookup::Bound(Action::Quit)
        } else if c == 'h' {
            ChordLookup::Bound(Action::MoveLeft)
        } else if c == 'l' {
            ChordLookup::Bound(Action::MoveRight)
        } else if c == 'k' {
            ChordLookup::Bound(Action::MoveUp)
        } else if c == 'j' {
            ChordLookup::Bound(Action::MoveDown)
        } else if c == 'g' || c == 'd' {
            ChordLookup::Prefix
        } else {
            ChordLookup::Unbound
        },
        Key::Enter => ChordLookup::Bound(Action::Submit),
        Key::Tab => ChordLookup::Bound(Action::ChooseSuggestion),
        _ => ChordLookup::Unbound,
    }
}

/// The insertion mode's table for a single key. A plain character is not
/// bound here: it reaches the buffer through the literal-insertion
/// fallback.
pub open spec fn insert_single(k: Key) -> ChordLookup {
    match k {
        Key::Esc => ChordLookup::Bound(Action::SwitchMode(Mode::Normal)),
        Key::Enter => ChordLookup::Bound(Action::NewLine),
        Key::Backspace => ChordLookup::Bound(Action::DeleteBack),
        Key::Tab => ChordLookup::Bound(Action::CycleSuggestion),
        Key::Left => ChordLookup::Bound(Action::MoveLeft),
        Key::Right => ChordLookup::Bound(Action::MoveRight),
        Key::Up => ChordLookup::Bound(Action::MoveUp),
        Key::Down => ChordLookup::Bound(Action::MoveDown),
        _ => ChordLookup::Unbound,
    }
}

/// The per-mode chord tables: the explicitly configured binding set. The
/// command mode holds the two-key chords; the insertion mode binds single
/// keys only.
pub open spec fn binding(mode: Mode, chord: Seq<Key>) -> ChordLookup {
    match mode {
        Mode::Normal => if chord.len() == 1 {
            normal_single(chord[0])
        } else if chord.len() == 2 && chord[0] == Key::Char('g') && chord[1] == Key::Char('g') {
            ChordLookup::Bound(Action::MoveTop)
        } else if chord.len() == 2 && chord[0] == Key::Char('d') && chord[1] == Key::Char('d') {
            ChordLookup::Bound(Action::DeleteLine)
        } else if chord.len() == 2 && chord[0] == Key::Char('d') && chord[1] == Key::Char('w') {
            ChordLookup::Bound(Action::DeleteWordBack)
        } else {
            ChordLookup::Unbound
        },
        Mode::Insert => if chord.len() == 1 {
            insert_single(chord[0])
        } else {
            ChordLookup::Unbound
        },
    }
}

/// The chord tables, executably.
pub fn lookup(mode: Mode, chord: &Vec<Key>) -> (r: ChordLookup)
    ensures
        r == binding(mode, chord@),
{
    match mode {
        Mode::Normal => {
            if chord.len() == 1 {
                match chord[0] {
                    Key::Char(c) => {
                        if c == 'i' {
                            ChordLookup::Bound(Action::SwitchMode(Mode::Insert))
                        } else if c == 'q' {
                            ChordLookup::Bound(Action::Quit)
                        } else if c == 'h' {
                            ChordLookup::Bound(Action::MoveLeft)
                        } else if c == 'l' {
                            ChordLookup::Bound(Action::MoveRight)
                        } else if c == 'k' {
                            ChordLookup::Bound(Action::MoveUp)
                        } else if c == 'j' {
                            ChordLookup::Bound(Action::MoveDown)
                        } else if c == 'g' || c == 'd' {
                            ChordLookup::Prefix
                        } else {
                            ChordLookup::Unbound
                        }
                    },
                    Key::Enter => ChordLookup::Bound(Action::Submit),
                    Key::Tab => ChordLookup::Bound(Action::ChooseSuggestion),
                    _ => ChordLookup::Unbound,
                }
            } else if chord.len() == 2 && chord[0] == Key::Char('g') && chord[1] == Key::Char('g') {
                ChordLookup::Bound(Action::MoveTop)
            } else if chord.len() == 2 && chord[0] == Key::Char('d') && chord[1] == Key::Char('d') {
                ChordLookup::Bound(Action::DeleteLine)
            } else if chord.len() == 2 && chord[0] == Key::Char('d') && chord[1] == Key::Char('w') {
                ChordLookup::Bound(Action::DeleteWordBack)
            } else {
                ChordLookup::Unbound
            }
        },
        Mode::Insert => {
            if chord.len() == 1 {
                match chord[0] {
                    Key::Esc => ChordLookup::Bound(Action::SwitchMode(Mode::Normal)),
                    Key::Enter => ChordLookup::Bound(Action::NewLine),
                    Key::Backspace => ChordLookup::Bound(Action::DeleteBack),
                    Key::Tab => ChordLookup::Bound(Action::CycleSuggestion),
                    Key::Left => ChordLookup::Bound(Action::MoveLeft),
                    Key::Right => ChordLookup::Bound(Action::MoveRight),
                    Key::Up => ChordLookup::Bound(Action::MoveUp),
                    Key::Down => ChordLookup::Bound(Action::MoveDown),
                    _ => ChordLookup::Unbound,
                }
            } else {
                ChordLookup::Unbound
            }
        },
    }
}

/// How a suggestion-cycling action changes the application state: with a
/// usable cycling index it advances modulo the list length and re-applies
/// the highlight; otherwise nothing changes.
pub open spec fn cycled(a0: App, a1: App) -> bool {
    let n = a0.suggestions@.len() as int;
    if n > 0 && a0.current_suggestion < n {
        &&& a1.current_suggestion == (a0.current_suggestion + 1) % n
        &&& a1.suggestions@.len() == n
        &&& forall|j: int|
            0 <= j < n && j != a1.current_suggestion ==> (#[trigger] a1.suggestions@[j])@
                == strip_spec(a0.suggestions@[j]@)
        &&& ((a1.suggestions@[a1.current_suggestion as int])@ == wrap_spec(
            strip_spec(a0.suggestions@[a1.current_suggestion as int]@),
        ) || (a1.suggestions@[a1.current_suggestion as int])@ == strip_spec(
            a0.suggestions@[a1.current_suggestion as int]@,
        ))
        &&& a1.input == a0.input
        &&& a1.messages == a0.messages
        &&& a1.fg_color == a0.fg_color
        &&& a1.vertical_scroll == a0.vertical_scroll
        &&& a1.vertical_scroll_state == a0.vertical_scroll_state
    } else {
        a1 == a0
    }
}

/// How a suggestion-choosing action changes the application state and the
/// buffer: entries are sanitized, and the entry at the cycling index, if
/// any, replaces the trailing partial word in the buffer.
pub open spec fn chosen(a0: App, a1: App, b0: BufModel, b1: BufModel) -> bool {
    &&& a1.suggestions@.len() == a0.suggestions@.len()
    &&& forall|j: int|
        0 <= j < a0.suggestions@.len() ==> (#[trigger] a1.suggestions@[j])@ == strip_spec(
            a0.suggestions@[j]@,
        )
    &&& a1.current_suggestion == a0.current_suggestion
    &&& a1.input == a0.input
    &&& a1.messages == a0.messages
    &&& a1.fg_color == a0.fg_color
    &&& a1.vertical_scroll == a0.vertical_scroll
    &&& a1.vertical_scroll_state == a0.vertical_scroll_state
    &&& if a0.current_suggestion < a0.suggestions@.len() {
        b1 == buf_insert_text(
            buf_delete_word(b0),
            strip_spec(strip_spec(a0.suggestions@[a0.current_suggestion as int]@)),
        )
    } else {
        b1 == b0
    }
}

/// What executing a bound action does to the buffer, the application state,
/// and the outcome handed back to the loop.
pub open spec fn action_applied(
    a: Action,
    b0: BufModel,
    b1: BufModel,
    a0: App,
    a1: App,
    o: Outcome,
) -> bool {
    match a {
        Action::SwitchMode(m) => b1 == b0 && a1 == a0 && o.submit is None && o.transition
            == Transition::Mode(m),
        Action::Submit => b1 == b0 && a1 == a0 && o.transition is Nop && o.submit is Some && (
        o.submit->0)@ == joined(b0.lines),
        Action::Quit => b1 == b0 && a1 == a0 && o.transition is Quit && o.submit is None,
        Action::InsertChar(c) => b1 == buf_insert_char(b0, c) && a1 == a0 && o.transition is Nop
            && o.submit is None,
        Action::DeleteBack => b1 == buf_backspace(b0) && a1 == a0 && o.transition is Nop
            && o.submit is None,
        Action::NewLine => b1 == buf_newline(b0) && a1 == a0 && o.transition is Nop
            && o.submit is None,
        Action::MoveLeft => b1 == buf_move_left(b0) && a1 == a0 && o.transition is Nop
            && o.submit is None,
        Action::MoveRight => b1 == buf_move_right(b0) && a1 == a0 && o.transition is Nop
            && o.submit is None,
        Action::MoveUp => b1 == buf_move_up(b0) && a1 == a0 && o.transition is Nop
            && o.submit is None,
        Action::MoveDown => b1 == buf_move_down(b0) && a1 == a0 && o.transition is Nop
            && o.submit is None,
        Action::MoveTop => b1 == buf_move_top(b0) && a1 == a0 && o.transition is Nop
            && o.submit is None,
        Action::DeleteLine => b1 == buf_delete_line(b0) && a1 == a0 && o.transition is Nop
            && o.submit is None,
        Action::DeleteWordBack => b1 == buf_delete_word(b0) && a1 == a0 && o.transition is Nop
            && o.submit is None,
        Action::CycleSuggestion => b1 == b0 && cycled(a0, a1) && o.transition is Nop
            && o.submit is None,
        Action::ChooseSuggestion => chosen(a0, a1, b0, b1) && o.transition is Nop
            && o.submit is None,
    }
}

/// The literal-insertion fallback: in the insertion-capable mode a plain
/// character that no chord binds is inserted into the buffer; any other
/// unbound key does nothing.
pub open spec fn fallback_applied(
    mode: Mode,
    key: Key,
    b0: BufModel,
    b1: BufModel,
    a0: App,
    a1: App,
    o: Outcome,
) -> bool {
    &&& a1 == a0
    &&& o.transition is Nop
    &&& o.submit is None
    &&& match key {
        Key::Char(c) => if mode == Mode::Insert {
            b1 == buf_insert_char(b0, c)
        } else {
            b1 == b0
        },
        _ => b1 == b0,
    }
}

/// Execute a bound action.
fn apply_action(a: Action, mode: Mode, buf: &mut TextBuffer, app: &mut App) -> (o: Outcome)
    requires
        buf_wf(old(buf)@),
    ensures
        buf_wf(final(buf)@),
        action_applied(a, old(buf)@, final(buf)@, *old(app), *final(app), o),
{
    match a {
        Action::SwitchMode(m) => Outcome { transition: Transition::Mode(m), submit: None },
        Action::Submit => {
            let text = buf.submission();
            Outcome { transition: Transition::Nop, submit: Some(text) }
        },
        Action::Quit => Outcome { transition: Transition::Quit, submit: None },
        Action::InsertChar(c) => {
            buf.insert_char(c);
            Outcome { transition: Transition::Nop, submit: None }
        },
        Action::DeleteBack => {
            buf.backspace();
            Outcome { transition: Transition::Nop, submit: None }
        },
        Action::NewLine => {
            buf.newline();
            Outcome { transition: Transition::Nop, submit: None }
        },
        Action::MoveLeft => {
            buf.move_left();
            Outcome { transition: Transition::Nop, submit: None }
        },
        Action::MoveRight => {
            buf.move_right();
            Outcome { transition: Transition::Nop, submit: None }
        },
        Action::MoveUp => {
            buf.move_up();
            Outcome { transition: Transition::Nop, submit: None }
        },
        Action::MoveDown => {
            buf.move_down();
            Outcome { transition: Transition::Nop, submit: None }
        },
        Action::MoveTop => {
            buf.move_top();
            Outcome { transition: Transition::Nop, submit: None }
        },
        Action::DeleteLine => {
            buf.delete_line();
            Outcome { transition: Transition::Nop, submit: None }
        },
        Action::DeleteWordBack => {
            buf.delete_word();
            Outcome { transition: Transition::Nop, submit: None }
        },
        Action::CycleSuggestion => {
            let n = app.suggestions.len();
            if n > 0 && app.current_suggestion < n {
                app.iter_suggestion();
            }
            Outcome { transition: Transition::Nop, submit: None }
        },
        Action::ChooseSuggestion => {
            app.choose_suggestion(buf);
            Outcome { transition: Transition::Nop, submit: None }
        },
    }
}

/// A copy of a key sequence.
fn copy_keys(v: &Vec<Key>) -> (r: Vec<Key>)
    ensures
        r@ == v@,
{
    let mut r: Vec<Key> = Vec::new();
    let mut i: usize = 0;
    while i < v.len()
        invariant
            i <= v@.len(),
            r@ == v@.take(i as int),
        decreases v@.len() - i,
    {
        r.push(v[i]);
        assert(r@ =~= v@.take(i + 1));
        i = i + 1;
    }
    assert(r@ =~= v@);
    r
}

/// The modal editor: the current mode and the pending chord.
pub struct Editor {
    /// The current mode; the loop updates it on every mode transition.
    pub mode: Mode,
    /// The accumulated prefix of a multi-key chord.
    pub pending: Vec<Key>,
}

impl Editor {
    pub fn new(mode: Mode) -> (e: Editor)
        ensures
            e.mode == mode,
            e.pending@ == Seq::<Key>::empty(),
    {
        let e = Editor { mode, pending: Vec::new() };
        assert(e.pending@ =~= Seq::<Key>::empty());
        e
    }

    /// Set the mode. The caller applies this on every mode transition,
    /// whether or not the target differs; it is idempotent when unchanged.
    pub fn change_mode(&mut self, mode: Mode)
        ensures
            final(self).mode == mode,
            final(self).pending == old(self).pending,
    {
        self.mode = mode;
    }

    /// Process one key event.
    ///
    /// The pending chord is monotonic: the accumulated sequence either
    /// completes into a bound action, stays pending as a strict prefix of a
    /// bound chord, or is cleared with the breaking key reprocessed alone
    /// from the base table — input is never silently dropped. A key
    /// sequence that matches no chord prefix resolves to a no-op (or a
    /// literal insertion in the insertion-capable mode) and no pending
    /// state survives it.
    pub fn transition(&mut self, key: Key, buf: &mut TextBuffer, app: &mut App) -> (o: Outcome)
        requires
            buf_wf(old(buf)@),
        ensures
            buf_wf(final(buf)@),
            final(self).mode == old(self).mode,
            match binding(old(self).mode, old(self).pending@.push(key)) {
                ChordLookup::Bound(a) => final(self).pending@ == Seq::<Key>::empty()
                    && action_applied(a, old(buf)@, final(buf)@, *old(app), *final(app), o),
                ChordLookup::Prefix => {
                    &&& final(self).pending@ == old(self).pending@.push(key)
                    &&& o.transition is Pending
                    &&& (o.transition->Pending_0)@ == old(self).pending@.push(key)
                    &&& o.submit is None
                    &&& final(buf)@ == old(buf)@
                    &&& *final(app) == *old(app)
                },
                ChordLookup::Unbound => match binding(old(self).mode, seq![key]) {
                    ChordLookup::Bound(a) => final(self).pending@ == Seq::<Key>::empty()
                        && action_applied(a, old(buf)@, final(buf)@, *old(app), *final(app), o),
                    ChordLookup::Prefix => {
                        &&& final(self).pending@ == seq![key]
                        &&& o.transition is Pending
                        &&& (o.transition->Pending_0)@ == seq![key]
                        &&& o.submit is None
                        &&& final(buf)@ == old(buf)@
                        &&& *final(app) == *old(app)
                    },
                    ChordLookup::Unbound => final(self).pending@ == Seq::<Key>::empty()
                        && fallback_applied(
                        old(self).mode,
                        key,
                        old(buf)@,
                        final(buf)@,
                        *old(app),
                        *final(app),
                        o,
                    ),
                },
            },
    {
        let mut chord = copy_keys(&self.pending);
        chord.push(key);
        let was_multi = chord.len() > 1;
        match lookup(self.mode, &chord) {
            ChordLookup::Bound(a) => {
                self.pending = Vec::new();
                assert(self.pending@ =~= Seq::<Key>::empty());
                apply_action(a, self.mode, buf, app)
            },
            ChordLookup::Prefix => {
                let retained = copy_keys(&chord);
                self.pending = retained;
                Outcome { transition: Transition::Pending(chord), submit: None }
            },
            ChordLookup::Unbound => {
                self.pending = Vec::new();
                assert(self.pending@ =~= Seq::<Key>::empty());
                let mut single: Vec<Key> = Vec::new();
                single.push(key);
                assert(single@ =~= seq![key]);
                if was_multi {
                    match lookup(self.mode, &single) {
                        ChordLookup::Bound(a) => apply_action(a, self.mode, buf, app),
                        ChordLookup::Prefix => {
                            let retained = copy_keys(&single);
                            self.pending = retained;
                            Outcome { transition: Transition::Pending(single), submit: None }
                        },
                        ChordLookup::Unbound => self.fallback(key, buf),
                    }
                } else {
                    assert(chord@ =~= seq![key]);
                    self.fallback(key, buf)
                }
            },
        }
    }

    /// The literal-insertion fallback for a key that no chord binds.
    fn fallback(&mut self, key: Key, buf: &mut TextBuffer) -> (o: Outcome)
        requires
            buf_wf(old(buf)@),
        ensures
            buf_wf(final(buf)@),
            *final(self) == *old(self),
            o.transition is Nop,
            o.submit is None,
            match key {
                Key::Char(c) => if old(self).mode == Mode::Insert {
                    final(buf)@ == buf_insert_char(old(buf)@, c)
                } else {
                    final(buf)@ == old(buf)@
                },
                _ => final(buf)@ == old(buf)@,
            },
    {
        match key {
            Key::Char(c) => {
                if self.mode == Mode::Insert {
                    buf.insert_char(c);
                }
            },
            _ => {},
        }
        Outcome { transition: Transition::Nop, submit: None }
    }
}

} // verus!

//! Application state: the suggestion list and its cycling index, the
//! message log, the display color, and the output pane's scroll state.
//! A submitted line is evaluated behind the dispatch boundary; this module
//! maps the returned outcome exhaustively into the message log.

use vstd::prelude::*;
use vstd::pervasive::VecAdditionalExecFns;
use vstd::string::StringExecFns;
use crate::auto_complete::{autocomplete, autocomplete_from_source, autocomplete_spec, vocab_keys};
use crate::buffer::{buf_wf, buf_delete_word, buf_insert_text, TextBuffer};
use crate::markup::{strip_spec, wrap_spec, strip_markup, paint_on_red};

verus! {

/// Semantic display color of the output pane.
#[derive(Clone, Copy, PartialEq, Eq, Structural, Debug)]
pub enum Color {
    Success,
    Error,
    Neutral,
}

/// What the logic reads of the output pane's scrollbar: the length of the
/// content it ranges over.
#[derive(Clone, Copy, PartialEq, Eq, Structural, Debug)]
pub struct ScrollState {
    pub content_length: usize,
}

/// One diagnostic of a failed parse: what the logic reads of it.
#[derive(Clone)]
pub struct Diagnostic {
    pub message: String,
}

/// The outcome of evaluating one submitted line or built-in command:
/// consumed from the dispatch boundary, never produced here.
#[derive(Clone)]
pub enum DispatchResult {
    Success(Option<String>),
    CommandSuccess(Option<String>),
    UnrecognizedCommand(String),
    ParserFailed(Vec<Diagnostic>),
    FileIoError(String),
    CommandFailed(String),
    Failure(Option<String>),
}

/// The fixed fallback text shown for a failure that carries no message.
pub open spec fn fallback_spec() -> Seq<char> {
    "unknown internal error"@
}

/// The fixed fallback message, as a value.
pub fn fallback_message() -> (r: String)
    ensures
        r@ == fallback_spec(),
{
    String::from_str("unknown internal error")
}

/// What the message log becomes for each dispatch outcome.
pub open spec fn outcome_messages(r: DispatchResult) -> Seq<Seq<char>> {
    match r {
        DispatchResult::Success(m) => match m {
            Some(t) => seq![t@],
            None => Seq::empty(),
        },
        DispatchResult::CommandSuccess(m) => match m {
            Some(t) => seq![t@],
            None => Seq::empty(),
        },
        DispatchResult::UnrecognizedCommand(t) => seq![t@],
        DispatchResult::ParserFailed(ds) => Seq::new(ds@.len(), |i: int| ds@[i].message@),
        DispatchResult::FileIoError(t) => seq![t@],
        DispatchResult::CommandFailed(t) => seq![t@],
        DispatchResult::Failure(m) => match m {
            Some(t) => seq![t@],
            None => seq![fallback_spec()],
        },
    }
}

/// What the display color becomes for each dispatch outcome.
pub open spec fn outcome_color(r: DispatchResult, previous: Color) -> Color {
    match r {
        DispatchResult::Success(m) => match m {
            Some(t) => Color::Success,
            None => previous,
        },
        DispatchResult::CommandSuccess(m) => match m {
            Some(t) => Color::Success,
            None => previous,
        },
        DispatchResult::UnrecognizedCommand(t) => previous,
        DispatchResult::ParserFailed(ds) => Color::Error,
        DispatchResult::FileIoError(t) => Color::Error,
        DispatchResult::CommandFailed(t) => Color::Error,
        DispatchResult::Failure(m) => match m {
            Some(t) => Color::Error,
            None => previous,
        },
    }
}

/// The outcomes that report an evaluation failure.
pub open spec fn outcome_is_error_spec(r: DispatchResult) -> bool {
    match r {
        DispatchResult::Success(m) => false,
        DispatchResult::CommandSuccess(m) => false,
        DispatchResult::UnrecognizedCommand(t) => true,
        DispatchResult::ParserFailed(ds) => true,
        DispatchResult::FileIoError(t) => true,
        DispatchResult::CommandFailed(t) => true,
        DispatchResult::Failure(m) => true,
    }
}

/// Whether an outcome reports an evaluation failure.
pub fn outcome_is_error(r: &DispatchResult) -> (e: bool)
    ensures
        e == outcome_is_error_spec(*r),
{
    match r {
        DispatchResult::Success(_) => false,
        DispatchResult::CommandSuccess(_) => false,
        DispatchResult::UnrecognizedCommand(_) => true,
        DispatchResult::ParserFailed(_) => true,
        DispatchResult::FileIoError(_) => true,
        DispatchResult::CommandFailed(_) => true,
        DispatchResult::Failure(_) => true,
    }
}

/// Cycling the suggestion index over a list of length `n` visits
/// `0, 1, …, n - 1` and wraps back to `0`, and never leaves the range.
pub proof fn lemma_iterate_suggestion_cycles(i: int, n: int)
    requires
        0 <= i < n,
    ensures
        0 <= (i + 1) % n < n,
        i + 1 < n ==> (i + 1) % n == i + 1,
        i + 1 == n ==> (i + 1) % n == 0,
{
    if i + 1 < n {
        vstd::arithmetic::div_mod::lemma_small_mod((i + 1) as nat, n as nat);
    } else {
        vstd::arithmetic::div_mod::lemma_mod_self_0(n);
    }
}

/// App holds the state of the application.
#[derive(Clone)]
pub struct App {
    /// Current value of the input box.
    pub input: String,
    /// The suggestion the cycling index rests on.
    pub current_suggestion: usize,
    /// The messages of the most recent submission.
    pub messages: Vec<String>,
    /// The current completion suggestions, possibly carrying the highlight
    /// marker on one entry.
    pub suggestions: Vec<String>,
    /// Semantic color of the message log.
    pub fg_color: Color,
    /// State of the output pane's scrollbar.
    pub vertical_scroll_state: ScrollState,
    /// Position of the output pane's scroll.
    pub vertical_scroll: usize,
}

impl App {
    pub fn new() -> (a: App)
        ensures
            a.input@ == Seq::<char>::empty(),
            a.messages@ == Seq::<String>::empty(),
            a.suggestions@ == Seq::<String>::empty(),
            a.current_suggestion == 0,
            a.fg_color == Color::Neutral,
            a.vertical_scroll == 0,
            a.vertical_scroll_state.content_length == 0,
    {
        let a = App {
            input: String::new(),
            messages: Vec::new(),
            suggestions: Vec::new(),
            current_suggestion: 0,
            fg_color: Color::Neutral,
            vertical_scroll: 0,
            vertical_scroll_state: ScrollState { content_length: 0 },
        };
        assert(a.messages@ =~= Seq::<String>::empty());
        assert(a.suggestions@ =~= Seq::<String>::empty());
        a
    }

    /// Replace the suggestion list with the engine's answer for the input
    /// and the given vocabulary, and rest the cycling index at the start.
    pub fn suggest(&mut self, input: &str, vocab: &Vec<String>)
        ensures
            final(self).suggestions.deep_view() == autocomplete_spec(input@, vocab.deep_view()),
            final(self).current_suggestion == 0,
            final(self).input == old(self).input,
            final(self).messages == old(self).messages,
            final(self).fg_color == old(self).fg_color,
            final(self).vertical_scroll == old(self).vertical_scroll,
            final(self).vertical_scroll_state == old(self).vertical_scroll_state,
    {
        let suggestion = autocomplete(input, vocab);
        self.suggestions = suggestion;
        self.current_suggestion = 0;
    }

    /// Replace the suggestion list from the raw text of the vocabulary
    /// source. Yields `false`, changing nothing, when the source cannot be
    /// read as a mapping; the caller treats that as fatal.
    pub fn suggest_from_source(&mut self, input: &str, source: &str) -> (ok: bool)
        ensures
            match vocab_keys(source@) {
                Some(terms) => {
                    &&& ok
                    &&& final(self).suggestions.deep_view() == autocomplete_spec(input@, terms)
                    &&& final(self).current_suggestion == 0
                    &&& final(self).input == old(self).input
                    &&& final(self).messages == old(self).messages
                    &&& final(self).fg_color == old(self).fg_color
                    &&& final(self).vertical_scroll == old(self).vertical_scroll
                    &&& final(self).vertical_scroll_state == old(self).vertical_scroll_state
                },
                None => !ok && *final(self) == *old(self),
            },
    {
        match autocomplete_from_source(input, source) {
            Some(suggestion) => {
                self.suggestions = suggestion;
                self.current_suggestion = 0;
                true
            },
            None => false,
        }
    }

    /// Strip the transient style markup from every suggestion entry.
    fn clear_suggestions(&mut self)
        ensures
            final(self).suggestions@.len() == old(self).suggestions@.len(),
            forall|j: int|
                0 <= j < old(self).suggestions@.len() ==> (#[trigger] final(self).suggestions@[j])@ == strip_spec(old(self).suggestions@[j]@),
            final(self).current_suggestion == old(self).current_suggestion,
            final(self).input == old(self).input,
            final(self).messages == old(self).messages,
            final(self).fg_color == old(self).fg_color,
            final(self).vertical_scroll == old(self).vertical_scroll,
            final(self).vertical_scroll_state == old(self).vertical_scroll_state,
    {
        let n = self.suggestions.len();
        let mut j: usize = 0;
        while j < n
            invariant
                j <= n,
                n == self.suggestions@.len(),
                self.suggestions@.len() == old(self).suggestions@.len(),
                forall|k: int|
                    0 <= k < j ==> (#[trigger] self.suggestions@[k])@ == strip_spec(
                        old(self).suggestions@[k]@,
                    ),
                forall|k: int|
                    j <= k < n ==> #[trigger] self.suggestions@[k] == old(self).suggestions@[k],
                self.current_suggestion == old(self).current_suggestion,
                self.input == old(self).input,
                self.messages == old(self).messages,
                self.fg_color == old(self).fg_color,
                self.vertical_scroll == old(self).vertical_scroll,
                self.vertical_scroll_state == old(self).vertical_scroll_state,
            decreases n - j,
        {
            let cleaned = strip_markup(&self.suggestions[j]);
            self.suggestions.set(j, cleaned);
            j = j + 1;
        }
    }

    /// Strip the markup from every entry and, when an entry rests at the
    /// cycling index, replace the trailing partial word in the buffer by
    /// that entry's sanitized text. With no suggestions the buffer is left
    /// unmodified.
    pub fn choose_suggestion(&mut self, buf: &mut TextBuffer)
        requires
            buf_wf(old(buf)@),
        ensures
            buf_wf(final(buf)@),
            final(self).suggestions@.len() == old(self).suggestions@.len(),
            forall|j: int|
                0 <= j < old(self).suggestions@.len() ==> (#[trigger] final(self).suggestions@[j])@ == strip_spec(old(self).suggestions@[j]@),
            final(self).current_suggestion == old(self).current_suggestion,
            final(self).input == old(self).input,
            final(self).messages == old(self).messages,
            final(self).fg_color == old(self).fg_color,
            final(self).vertical_scroll == old(self).vertical_scroll,
            final(self).vertical_scroll_state == old(self).vertical_scroll_state,
            old(self).suggestions@.len() == 0 ==> final(buf)@ == old(buf)@,
            old(self).current_suggestion < old(self).suggestions@.len() ==> final(buf)@
                == buf_insert_text(
                buf_delete_word(old(buf)@),
                strip_spec(strip_spec(old(self).suggestions@[old(self).current_suggestion as int]@)),
            ),
            old(self).current_suggestion >= old(self).suggestions@.len() ==> final(buf)@ == old(buf)@,
    {
        self.clear_suggestions();
        let idx = self.current_suggestion;
        if idx < self.suggestions.len() {
            let cleared = strip_markup(&self.suggestions[idx]);
            buf.delete_word();
            buf.insert_text(&cleared);
        }
    }

    /// Sanitize every entry, then mark exactly the entry at the cycling
    /// index with the highlight marker. The marker is recomputed, never
    /// layered: it is applied to the sanitized text.
    pub fn highlight_current_suggestion(&mut self)
        requires
            old(self).current_suggestion < old(self).suggestions@.len(),
        ensures
            final(self).suggestions@.len() == old(self).suggestions@.len(),
            forall|j: int|
                0 <= j < old(self).suggestions@.len() && j != old(self).current_suggestion ==> (
                #[trigger] final(self).suggestions@[j])@ == strip_spec(old(self).suggestions@[j]@),
            (final(self).suggestions@[old(self).current_suggestion as int])@ == wrap_spec(
                strip_spec(old(self).suggestions@[old(self).current_suggestion as int]@),
            ) || (final(self).suggestions@[old(self).current_suggestion as int])@ == strip_spec(
                old(self).suggestions@[old(self).current_suggestion as int]@,
            ),
            final(self).current_suggestion == old(self).current_suggestion,
            final(self).input == old(self).input,
            final(self).messages == old(self).messages,
            final(self).fg_color == old(self).fg_color,
            final(self).vertical_scroll == old(self).vertical_scroll,
            final(self).vertical_scroll_state == old(self).vertical_scroll_state,
    {
        self.clear_suggestions();
        let idx = self.current_suggestion;
        let painted = paint_on_red(&self.suggestions[idx]);
        self.suggestions.set(idx, painted);
    }

    /// Advance the cycling index by one, wrapping past the end, and re-apply
    /// the highlight to the entry it now rests on. The caller guards against
    /// an empty suggestion list.
    pub fn iter_suggestion(&mut self)
        requires
            old(self).suggestions@.len() > 0,
            old(self).current_suggestion < old(self).suggestions@.len(),
        ensures
            final(self).current_suggestion == (old(self).current_suggestion + 1) % (old(self).suggestions@.len() as int),
            final(self).current_suggestion < final(self).suggestions@.len(),
            final(self).suggestions@.len() == old(self).suggestions@.len(),
            forall|j: int|
                0 <= j < old(self).suggestions@.len() && j != final(self).current_suggestion ==> (
                #[trigger] final(self).suggestions@[j])@ == strip_spec(old(self).suggestions@[j]@),
            (final(self).suggestions@[final(self).current_suggestion as int])@ == wrap_spec(
                strip_spec(old(self).suggestions@[final(self).current_suggestion as int]@),
            ) || (final(self).suggestions@[final(self).current_suggestion as int])@ == strip_spec(
                old(self).suggestions@[final(self).current_suggestion as int]@,
            ),
            final(self).input == old(self).input,
            final(self).messages == old(self).messages,
            final(self).fg_color == old(self).fg_color,
            final(self).vertical_scroll == old(self).vertical_scroll,
            final(self).vertical_scroll_state == old(self).vertical_scroll_state,
    {
        let n = self.suggestions.len();
        let cur = self.current_suggestion;
        proof {
            lemma_iterate_suggestion_cycles(cur as int, n as int);
        }
        let next = cur + 1;
        if next == n {
            self.current_suggestion = 0;
        } else {
            self.current_suggestion = next;
        }
        self.highlight_current_suggestion();
    }

    /// Map the outcome of a dispatched submission: the message log is
    /// unconditionally replaced by the outcome's messages, and the display
    /// color follows the outcome. The dispatch call itself happens at the
    /// boundary; this holds for whatever it returned.
    pub fn submit_message(&mut self, outcome: &DispatchResult)
        ensures
            final(self).messages.deep_view() == outcome_messages(*outcome),
            final(self).fg_color == outcome_color(*outcome, old(self).fg_color),
            final(self).suggestions == old(self).suggestions,
            final(self).current_suggestion == old(self).current_suggestion,
            final(self).input == old(self).input,
            final(self).vertical_scroll == old(self).vertical_scroll,
            final(self).vertical_scroll_state == old(self).vertical_scroll_state,
    {
        let mut msgs: Vec<String> = Vec::new();
        match outcome {
            DispatchResult::Success(m) | DispatchResult::CommandSuccess(m) => {
                match m {
                    Some(t) => {
                        msgs.push(t.clone());
                        self.fg_color = Color::Success;
                    },
                    None => {},
                }
            },
            DispatchResult::UnrecognizedCommand(t) => {
                msgs.push(t.clone());
            },
            DispatchResult::ParserFailed(ds) => {
                let n = ds.len();
                let mut i: usize = 0;
                while i < n
                    invariant
                        i <= n,
                        n == ds@.len(),
                        msgs@.len() == i,
                        forall|k: int| 0 <= k < i ==> (#[trigger] msgs@[k])@ == ds@[k].message@,
                    decreases n - i,
                {
                    msgs.push(ds[i].message.clone());
                    i = i + 1;
                }
                self.fg_color = Color::Error;
            },
            DispatchResult::FileIoError(t) => {
                msgs.push(t.clone());
                self.fg_color = Color::Error;
            },
            DispatchResult::CommandFailed(t) => {
                msgs.push(t.clone());
                self.fg_color = Color::Error;
            },
            DispatchResult::Failure(m) => {
                match m {
                    Some(t) => {
                        msgs.push(t.clone());
                        self.fg_color = Color::Error;
                    },
                    None => {
                        msgs.push(fallback_message());
                    },
                }
            },
        }
        assert(msgs.deep_view() =~= outcome_messages(*outcome));
        self.messages = msgs;
    }

    /// Size the output pane's scrollbar to the message log, as every render
    /// does.
    pub fn sync_scroll(&mut self)
        ensures
            final(self).vertical_scroll_state.content_length as int == old(self).messages@.len(),
            final(self).messages == old(self).messages,
            final(self).suggestions == old(self).suggestions,
            final(self).current_suggestion == old(self).current_suggestion,
            final(self).input == old(self).input,
            final(self).fg_color == old(self).fg_color,
            final(self).vertical_scroll == old(self).vertical_scroll,
    {
        let n = self.messages.len();
        self.vertical_scroll_state = ScrollState { content_length: n };
    }
}

impl Default for App {
    fn default() -> (a: Self)
        ensures
            a.input@ == Seq::<char>::empty(),
            a.messages@ == Seq::<String>::empty(),
            a.suggestions@ == Seq::<String>::empty(),
            a.current_suggestion == 0,
            a.fg_color == Color::Neutral,
            a.vertical_scroll == 0,
            a.vertical_scroll_state.content_length == 0,
    {
        App::new()
    }
}

} // verus!

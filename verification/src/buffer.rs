//! The editor's text buffer: lines of characters and a cursor. All edits
//! the mode handlers dispatch go through these operations; the buffer is
//! never mutated otherwise.

use vstd::prelude::*;
use crate::text::{is_word_char, word_char, string_of_chars, push_char};

verus! {

/// Mathematical model of a buffer: the lines, and the cursor position.
#[verifier::ext_equal]
pub struct BufModel {
    pub lines: Seq<Seq<char>>,
    pub row: int,
    pub col: int,
}

/// A well-formed buffer has at least one line and a cursor inside it.
pub open spec fn buf_wf(m: BufModel) -> bool {
    &&& m.lines.len() >= 1
    &&& 0 <= m.row < m.lines.len()
    &&& 0 <= m.col <= m.lines[m.row].len()
}

/// The model of a buffer holding one empty line.
pub open spec fn buf_empty() -> BufModel {
    BufModel { lines: seq![Seq::empty()], row: 0, col: 0 }
}

/// All lines concatenated, with no separator between them: the text a
/// submit action hands to the dispatch boundary.
pub open spec fn joined(lines: Seq<Seq<char>>) -> Seq<char>
    decreases lines.len(),
{
    if lines.len() == 0 {
        Seq::empty()
    } else {
        joined(lines.drop_last()) + lines.last()
    }
}

/// One character inserted at the cursor.
pub open spec fn buf_insert_char(m: BufModel, c: char) -> BufModel {
    BufModel {
        lines: m.lines.update(m.row, m.lines[m.row].insert(m.col, c)),
        row: m.row,
        col: m.col + 1,
    }
}

/// A text inserted at the cursor, the cursor moved past it.
pub open spec fn buf_insert_text(m: BufModel, t: Seq<char>) -> BufModel {
    BufModel {
        lines: m.lines.update(
            m.row,
            m.lines[m.row].take(m.col) + t + m.lines[m.row].skip(m.col),
        ),
        row: m.row,
        col: m.col + t.len(),
    }
}

/// One character removed before the cursor; at the start of a line, the
/// line is joined onto the one above; at the start of the buffer, nothing.
pub open spec fn buf_backspace(m: BufModel) -> BufModel {
    if m.col > 0 {
        BufModel {
            lines: m.lines.update(m.row, m.lines[m.row].remove(m.col - 1)),
            row: m.row,
            col: m.col - 1,
        }
    } else if m.row > 0 {
        BufModel {
            lines: m.lines.update(m.row - 1, m.lines[m.row - 1] + m.lines[m.row]).remove(m.row),
            row: m.row - 1,
            col: m.lines[m.row - 1].len() as int,
        }
    } else {
        m
    }
}

/// The current line split at the cursor, the cursor at the start of the
/// lower half.
pub open spec fn buf_newline(m: BufModel) -> BufModel {
    BufModel {
        lines: m.lines.update(m.row, m.lines[m.row].take(m.col)).insert(
            m.row + 1,
            m.lines[m.row].skip(m.col),
        ),
        row: m.row + 1,
        col: 0,
    }
}

pub open spec fn buf_move_left(m: BufModel) -> BufModel {
    if m.col > 0 {
        BufModel { lines: m.lines, row: m.row, col: m.col - 1 }
    } else {
        m
    }
}

pub open spec fn buf_move_right(m: BufModel) -> BufModel {
    if m.col < m.lines[m.row].len() {
        BufModel { lines: m.lines, row: m.row, col: m.col + 1 }
    } else {
        m
    }
}

/// The cursor one line up, clamped to the new line's length.
pub open spec fn buf_move_up(m: BufModel) -> BufModel {
    if m.row > 0 {
        BufModel {
            lines: m.lines,
            row: m.row - 1,
            col: if m.col <= m.lines[m.row - 1].len() {
                m.col
            } else {
                m.lines[m.row - 1].len() as int
            },
        }
    } else {
        m
    }
}

/// The cursor one line down, clamped to the new line's length.
pub open spec fn buf_move_down(m: BufModel) -> BufModel {
    if m.row + 1 < m.lines.len() {
        BufModel {
            lines: m.lines,
            row: m.row + 1,
            col: if m.col <= m.lines[m.row + 1].len() {
                m.col
            } else {
                m.lines[m.row + 1].len() as int
            },
        }
    } else {
        m
    }
}

/// The cursor at the start of the buffer.
pub open spec fn buf_move_top(m: BufModel) -> BufModel {
    BufModel { lines: m.lines, row: 0, col: 0 }
}

/// The current line removed; the last remaining line is emptied instead of
/// removed, so the buffer never loses its last line.
pub open spec fn buf_delete_line(m: BufModel) -> BufModel {
    if m.lines.len() == 1 {
        BufModel { lines: m.lines.update(0, Seq::empty()), row: 0, col: 0 }
    } else {
        BufModel {
            lines: m.lines.remove(m.row),
            row: if m.row + 1 < m.lines.len() {
                m.row
            } else {
                m.row - 1
            },
            col: 0,
        }
    }
}

/// Start of the maximal run of word characters that ends at `col`.
pub open spec fn back_start(line: Seq<char>, col: int) -> int
    decreases col
        when 0 <= col <= line.len()
{
    if col <= 0 || !is_word_char(line[col - 1]) {
        col
    } else {
        back_start(line, col - 1)
    }
}

/// The trailing partial word before the cursor removed.
pub open spec fn buf_delete_word(m: BufModel) -> BufModel {
    BufModel {
        lines: m.lines.update(
            m.row,
            m.lines[m.row].take(back_start(m.lines[m.row], m.col)) + m.lines[m.row].skip(m.col),
        ),
        row: m.row,
        col: back_start(m.lines[m.row], m.col),
    }
}

/// The lines of `v`, each as a sequence of characters.
pub proof fn lemma_lines_view(v: Vec<Vec<char>>)
    ensures
        v.deep_view().len() == v@.len(),
        forall|i: int| 0 <= i < v@.len() ==> #[trigger] v.deep_view()[i] == v@[i]@,
{
    assert forall|i: int| 0 <= i < v@.len() implies #[trigger] v.deep_view()[i] == v@[i]@ by {
        assert(v.deep_view()[i] =~= v@[i]@);
    }
}

/// The text buffer: lines of characters and a cursor, exclusively owned by
/// the editor and mutated only through these operations.
pub struct TextBuffer {
    lines: Vec<Vec<char>>,
    row: usize,
    col: usize,
}

impl View for TextBuffer {
    type V = BufModel;

    closed spec fn view(&self) -> BufModel {
        BufModel { lines: self.lines.deep_view(), row: self.row as int, col: self.col as int }
    }
}

impl TextBuffer {
    /// A buffer holding one empty line.
    pub fn new() -> (b: TextBuffer)
        ensures
            b@ == buf_empty(),
            buf_wf(b@),
    {
        let mut lines: Vec<Vec<char>> = Vec::new();
        lines.push(Vec::new());
        let b = TextBuffer { lines, row: 0, col: 0 };
        proof {
            lemma_lines_view(b.lines);
            assert(b@.lines =~= buf_empty().lines);
        }
        b
    }

    /// Reset to one empty line, the cursor at the start: what the loop does
    /// once a submitted dispatch call has resolved.
    pub fn clear(&mut self)
        ensures
            final(self)@ == buf_empty(),
            buf_wf(final(self)@),
    {
        let mut lines: Vec<Vec<char>> = Vec::new();
        lines.push(Vec::new());
        self.lines = lines;
        self.row = 0;
        self.col = 0;
        proof {
            lemma_lines_view(self.lines);
            assert(self@.lines =~= buf_empty().lines);
        }
    }

    pub fn cursor_row(&self) -> (r: usize)
        ensures
            r as int == self@.row,
    {
        self.row
    }

    pub fn cursor_col(&self) -> (r: usize)
        ensures
            r as int == self@.col,
    {
        self.col
    }

    pub fn line_count(&self) -> (r: usize)
        ensures
            r as int == self@.lines.len(),
    {
        proof {
            lemma_lines_view(self.lines);
        }
        self.lines.len()
    }

    /// The text of one line, for rendering.
    pub fn line_text(&self, i: usize) -> (r: String)
        requires
            i < self@.lines.len(),
        ensures
            r@ == self@.lines[i as int],
    {
        proof {
            lemma_lines_view(self.lines);
        }
        string_of_chars(&self.lines[i])
    }

    /// All lines concatenated with no separator: the text handed to the
    /// dispatch boundary on a submit action.
    pub fn submission(&self) -> (r: String)
        ensures
            r@ == joined(self@.lines),
    {
        proof {
            lemma_lines_view(self.lines);
        }
        let ghost vl = self.lines.deep_view();
        let mut out = String::new();
        let mut j: usize = 0;
        while j < self.lines.len()
            invariant
                j <= self.lines@.len(),
                vl == self.lines.deep_view(),
                vl.len() == self.lines@.len(),
                forall|i: int| 0 <= i < self.lines@.len() ==> #[trigger] vl[i] == self.lines@[i]@,
                out@ == joined(vl.take(j as int)),
            decreases self.lines@.len() - j,
        {
            let mut i: usize = 0;
            let n = self.lines[j].len();
            while i < n
                invariant
                    i <= n,
                    j < self.lines@.len(),
                    n == self.lines@[j as int]@.len(),
                    vl == self.lines.deep_view(),
                    vl.len() == self.lines@.len(),
                    forall|i2: int|
                        0 <= i2 < self.lines@.len() ==> #[trigger] vl[i2] == self.lines@[i2]@,
                    out@ == joined(vl.take(j as int)) + vl[j as int].take(i as int),
                decreases n - i,
            {
                push_char(&mut out, self.lines[j][i]);
                assert(out@ =~= joined(vl.take(j as int)) + vl[j as int].take(i + 1));
                i = i + 1;
            }
            proof {
                assert(vl.take(j + 1).drop_last() =~= vl.take(j as int));
                assert(vl.take(j + 1).last() == vl[j as int]);
                assert(vl[j as int].take(n as int) =~= vl[j as int]);
                assert(out@ =~= joined(vl.take(j + 1)));
            }
            j = j + 1;
        }
        assert(vl.take(vl.len() as int) =~= vl);
        out
    }

    pub fn insert_char(&mut self, c: char)
        requires
            buf_wf(old(self)@),
        ensures
            buf_wf(final(self)@),
            final(self)@ == buf_insert_char(old(self)@, c),
    {
        proof {
            lemma_lines_view(self.lines);
        }
        let r = self.row;
        let cpos = self.col;
        let line = &mut self.lines[r];
        line.insert(cpos, c);
        let n = line.len();
        self.col = cpos + 1;
        proof {
            lemma_lines_view(self.lines);
            assert(self@.lines =~= buf_insert_char(old(self)@, c).lines);
        }
    }

    pub fn backspace(&mut self)
        requires
            buf_wf(old(self)@),
        ensures
            buf_wf(final(self)@),
            final(self)@ == buf_backspace(old(self)@),
    {
        proof {
            lemma_lines_view(self.lines);
        }
        let r = self.row;
        let cpos = self.col;
        if cpos > 0 {
            let line = &mut self.lines[r];
            line.remove(cpos - 1);
            self.col = cpos - 1;
            proof {
                lemma_lines_view(self.lines);
                assert(self@.lines =~= buf_backspace(old(self)@).lines);
            }
        } else if r > 0 {
            let newcol = self.lines[r - 1].len();
            let mut cur = self.lines.remove(r);
            let prev = &mut self.lines[r - 1];
            prev.append(&mut cur);
            self.row = r - 1;
            self.col = newcol;
            proof {
                lemma_lines_view(self.lines);
                assert(self@.lines =~= buf_backspace(old(self)@).lines);
            }
        }
    }

    pub fn newline(&mut self)
        requires
            buf_wf(old(self)@),
        ensures
            buf_wf(final(self)@),
            final(self)@ == buf_newline(old(self)@),
    {
        proof {
            lemma_lines_view(self.lines);
        }
        let r = self.row;
        let cpos = self.col;
        let cnt = self.lines.len();
        let old_line = self.lines.remove(r);
        let mut head: Vec<char> = Vec::new();
        let mut tail: Vec<char> = Vec::new();
        let mut i: usize = 0;
        while i < cpos
            invariant
                i <= cpos,
                cpos <= old_line@.len(),
                head@ == old_line@.take(i as int),
            decreases cpos - i,
        {
            head.push(old_line[i]);
            assert(head@ =~= old_line@.take(i + 1));
            i = i + 1;
        }
        let n = old_line.len();
        let mut k: usize = cpos;
        while k < n
            invariant
                cpos <= k <= n,
                n == old_line@.len(),
                tail@ == old_line@.subrange(cpos as int, k as int),
            decreases n - k,
        {
            tail.push(old_line[k]);
            assert(tail@ =~= old_line@.subrange(cpos as int, k + 1));
            k = k + 1;
        }
        assert(tail@ =~= old_line@.skip(cpos as int));
        self.lines.insert(r, head);
        self.lines.insert(r + 1, tail);
        self.row = r + 1;
        self.col = 0;
        proof {
            lemma_lines_view(self.lines);
            assert(self@.lines =~= buf_newline(old(self)@).lines);
        }
    }

    pub fn move_left(&mut self)
        requires
            buf_wf(old(self)@),
        ensures
            buf_wf(final(self)@),
            final(self)@ == buf_move_left(old(self)@),
    {
        if self.col > 0 {
            self.col = self.col - 1;
        }
    }

    pub fn move_right(&mut self)
        requires
            buf_wf(old(self)@),
        ensures
            buf_wf(final(self)@),
            final(self)@ == buf_move_right(old(self)@),
    {
        proof {
            lemma_lines_view(self.lines);
        }
        let r = self.row;
        let n = self.lines[r].len();
        if self.col < n {
            self.col = self.col + 1;
        }
    }

    pub fn move_up(&mut self)
        requires
            buf_wf(old(self)@),
        ensures
            buf_wf(final(self)@),
            final(self)@ == buf_move_up(old(self)@),
    {
        proof {
            lemma_lines_view(self.lines);
        }
        if self.row > 0 {
            let r = self.row - 1;
            let n = self.lines[r].len();
            self.row = r;
            if self.col > n {
                self.col = n;
            }
        }
    }

    pub fn move_down(&mut self)
        requires
            buf_wf(old(self)@),
        ensures
            buf_wf(final(self)@),
            final(self)@ == buf_move_down(old(self)@),
    {
        proof {
            lemma_lines_view(self.lines);
        }
        let cnt = self.lines.len();
        if self.row < cnt - 1 {
            let r = self.row + 1;
            let n = self.lines[r].len();
            self.row = r;
            if self.col > n {
                self.col = n;
            }
        }
    }

    pub fn move_top(&mut self)
        requires
            buf_wf(old(self)@),
        ensures
            buf_wf(final(self)@),
            final(self)@ == buf_move_top(old(self)@),
    {
        self.row = 0;
        self.col = 0;
    }

    pub fn delete_line(&mut self)
        requires
            buf_wf(old(self)@),
        ensures
            buf_wf(final(self)@),
            final(self)@ == buf_delete_line(old(self)@),
    {
        proof {
            lemma_lines_view(self.lines);
        }
        if self.lines.len() == 1 {
            let line = &mut self.lines[0];
            line.clear();
            self.col = 0;
            proof {
                lemma_lines_view(self.lines);
                assert(self@.lines =~= buf_delete_line(old(self)@).lines);
            }
        } else {
            let r = self.row;
            self.lines.remove(r);
            if r >= self.lines.len() {
                self.row = r - 1;
            }
            self.col = 0;
            proof {
                lemma_lines_view(self.lines);
                assert(self@.lines =~= buf_delete_line(old(self)@).lines);
            }
        }
    }

    /// Remove the trailing partial word before the cursor.
    pub fn delete_word(&mut self)
        requires
            buf_wf(old(self)@),
        ensures
            buf_wf(final(self)@),
            final(self)@ == buf_delete_word(old(self)@),
    {
        proof {
            lemma_lines_view(self.lines);
        }
        let r = self.row;
        let cpos = self.col;
        let cnt = self.lines.len();
        let old_line = self.lines.remove(r);
        let ghost lv = old_line@;
        let mut k: usize = cpos;
        while k > 0 && word_char(old_line[k - 1])
            invariant
                k <= cpos,
                cpos <= lv.len(),
                lv == old_line@,
                back_start(lv, cpos as int) == back_start(lv, k as int),
            decreases k,
        {
            k = k - 1;
        }
        assert(back_start(lv, cpos as int) == k);
        let mut nl: Vec<char> = Vec::new();
        let mut i: usize = 0;
        while i < k
            invariant
                i <= k,
                k <= lv.len(),
                lv == old_line@,
                nl@ == lv.take(i as int),
            decreases k - i,
        {
            nl.push(old_line[i]);
            assert(nl@ =~= lv.take(i + 1));
            i = i + 1;
        }
        let n = old_line.len();
        let mut t: usize = cpos;
        while t < n
            invariant
                cpos <= t <= n,
                n == lv.len(),
                lv == old_line@,
                nl@ == lv.take(k as int) + lv.subrange(cpos as int, t as int),
            decreases n - t,
        {
            nl.push(old_line[t]);
            assert(nl@ =~= lv.take(k as int) + lv.subrange(cpos as int, t + 1));
            t = t + 1;
        }
        assert(nl@ =~= lv.take(k as int) + lv.skip(cpos as int));
        self.lines.insert(r, nl);
        self.col = k;
        proof {
            lemma_lines_view(self.lines);
            assert(self@.lines =~= buf_delete_word(old(self)@).lines);
        }
    }

    /// Insert a text at the cursor, the cursor moved past it.
    pub fn insert_text(&mut self, s: &String)
        requires
            buf_wf(old(self)@),
        ensures
            buf_wf(final(self)@),
            final(self)@ == buf_insert_text(old(self)@, s@),
    {
        let cs = crate::text::chars_of(s.as_str());
        let n = cs.len();
        let ghost m0 = self@;
        proof {
            assert(m0.lines[m0.row].take(m0.col) + s@.take(0) + m0.lines[m0.row].skip(m0.col)
                =~= m0.lines[m0.row]);
            assert(m0.lines =~= buf_insert_text(m0, s@.take(0)).lines);
            assert(self@ =~= buf_insert_text(m0, s@.take(0)));
        }
        let mut i: usize = 0;
        while i < n
            invariant
                i <= n,
                n == s@.len(),
                cs@ == s@,
                buf_wf(self@),
                buf_wf(m0),
                self@ == buf_insert_text(m0, s@.take(i as int)),
            decreases n - i,
        {
            let ghost before = self@;
            self.insert_char(cs[i]);
            proof {
                assert(before.lines[before.row] =~= m0.lines[m0.row].take(m0.col) + s@.take(
                    i as int,
                ) + m0.lines[m0.row].skip(m0.col));
                assert(before.lines[before.row].insert(before.col, s@[i as int]) =~= m0.lines[
                    m0.row
                ].take(m0.col) + s@.take(i + 1) + m0.lines[m0.row].skip(m0.col));
                assert(self@.lines =~= buf_insert_text(m0, s@.take(i + 1)).lines);
            }
            i = i + 1;
        }
        assert(s@.take(n as int) =~= s@);
    }
}

} // verus!

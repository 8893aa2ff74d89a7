//! What one frame draws, as plain values: the three-pane vertical layout,
//! the joined texts of the panes, and the tick arithmetic of the redraw
//! cadence. The rendering itself happens outside this crate.

use vstd::prelude::*;
use vstd::string::StringExecFns;
use crate::buffer::joined;

verus! {

/// Height of the fixed editor pane.
pub const EDITOR_PANE_HEIGHT: u16 = 10;

/// Height of the fixed suggestion pane.
pub const SUGGESTION_PANE_HEIGHT: u16 = 2;

/// The three-pane vertical layout: a fixed-height editor pane, a
/// fixed-height suggestion pane, and an output pane filling the remaining
/// vertical space. Panes shrink from the bottom up when the terminal is
/// shorter than the fixed heights.
pub fn layout_heights(total: u16) -> (r: (u16, u16, u16))
    ensures
        r.0 == if total < 10 {
            total as int
        } else {
            10
        },
        r.1 == if total - r.0 < 2 {
            total - r.0
        } else {
            2
        },
        r.0 + r.1 + r.2 == total,
{
    let editor_pane: u16 = if total < EDITOR_PANE_HEIGHT {
        total
    } else {
        EDITOR_PANE_HEIGHT
    };
    let rest: u16 = total - editor_pane;
    let suggestion_pane: u16 = if rest < SUGGESTION_PANE_HEIGHT {
        rest
    } else {
        SUGGESTION_PANE_HEIGHT
    };
    let output_pane: u16 = rest - suggestion_pane;
    (editor_pane, suggestion_pane, output_pane)
}

/// The items concatenated with nothing between them: the text of the
/// output pane.
pub fn concat_all(items: &Vec<String>) -> (r: String)
    ensures
        r@ == joined(items.deep_view()),
{
    let ghost v = items.deep_view();
    proof {
        assert forall|i: int| 0 <= i < items@.len() implies #[trigger] v[i] == items@[i]@ by {
            assert(v[i] =~= items@[i]@);
        }
    }
    let mut out = String::new();
    let mut j: usize = 0;
    while j < items.len()
        invariant
            j <= items@.len(),
            v == items.deep_view(),
            v.len() == items@.len(),
            forall|i: int| 0 <= i < items@.len() ==> #[trigger] v[i] == items@[i]@,
            out@ == joined(v.take(j as int)),
        decreases items@.len() - j,
    {
        out.append(items[j].as_str());
        proof {
            assert(v.take(j + 1).drop_last() =~= v.take(j as int));
            assert(v.take(j + 1).last() == v[j as int]);
        }
        j = j + 1;
    }
    assert(v.take(v.len() as int) =~= v);
    out
}

/// The items joined with one space between neighbours: the text of the
/// suggestion pane.
pub open spec fn spaced(items: Seq<Seq<char>>) -> Seq<char>
    decreases items.len(),
{
    if items.len() == 0 {
        Seq::empty()
    } else if items.len() == 1 {
        items[0]
    } else {
        spaced(items.drop_last()) + seq![' '] + items.last()
    }
}

/// The items joined with one space between neighbours, as a value.
pub fn join_with_spaces(items: &Vec<String>) -> (r: String)
    ensures
        r@ == spaced(items.deep_view()),
{
    let ghost v = items.deep_view();
    proof {
        assert forall|i: int| 0 <= i < items@.len() implies #[trigger] v[i] == items@[i]@ by {
            assert(v[i] =~= items@[i]@);
        }
    }
    let mut out = String::new();
    let mut j: usize = 0;
    while j < items.len()
        invariant
            j <= items@.len(),
            v == items.deep_view(),
            v.len() == items@.len(),
            forall|i: int| 0 <= i < items@.len() ==> #[trigger] v[i] == items@[i]@,
            out@ == spaced(v.take(j as int)),
        decreases items@.len() - j,
    {
        if j > 0 {
            out.append(" ");
        }
        out.append(items[j].as_str());
        proof {
            assert(v.take(j + 1).drop_last() =~= v.take(j as int));
            assert(v.take(j + 1).last() == v[j as int]);
            if j == 0 {
                assert(out@ =~= spaced(v.take(1)));
            } else {
                assert(" "@ =~= seq![' ']) by {
                    reveal_strlit(" ");
                }
                assert(out@ =~= spaced(v.take(j + 1)));
            }
        }
        j = j + 1;
    }
    assert(v.take(v.len() as int) =~= v);
    out
}

/// How long the loop may block-poll for input before the next redraw is
/// due: what remains of the tick interval.
pub fn poll_budget(tick_ms: u64, elapsed_ms: u64) -> (r: u64)
    ensures
        r == if elapsed_ms <= tick_ms {
            tick_ms - elapsed_ms
        } else {
            0
        },
{
    if elapsed_ms <= tick_ms {
        tick_ms - elapsed_ms
    } else {
        0
    }
}

/// Whether the tick clock must be reset: the elapsed time has reached the
/// tick interval, whether or not an event fired.
pub fn tick_due(tick_ms: u64, elapsed_ms: u64) -> (r: bool)
    ensures
        r == (elapsed_ms >= tick_ms),
{
    elapsed_ms >= tick_ms
}

} // verus!

//! General laws of console navigation, stated over the model of
//! [`crate::model`] and proved once and for all.
//!
//! The executable navigation methods promise, in their contracts, to follow
//! the step functions `up_pos`, `down_pos`, `up_stop` and `down_stop`; the
//! lemmas here describe what repeating those steps does.

use crate::model::{down_pos, down_stop, text_at, up_pos, up_stop, ConsoleView};
use vstd::prelude::*;

verus! {

/// The cursor position after `k` plain `up` steps from position `p`, over a
/// history of length `len`.
pub open spec fn pos_after_ups(len: int, p: int, k: nat) -> int
    decreases k,
{
    if k == 0 {
        p
    } else {
        pos_after_ups(len, up_pos(len, p), (k - 1) as nat)
    }
}

/// The cursor position after `k` plain `down` steps from position `p`.
pub open spec fn pos_after_downs(p: int, k: nat) -> int
    decreases k,
{
    if k == 0 {
        p
    } else {
        pos_after_downs(down_pos(p), (k - 1) as nat)
    }
}

/// Repeating `down` at least as often as the distance back to live editing
/// mode settles the cursor there, and it does not move further: `down` clamps
/// rather than wrapping around.
pub proof fn lemma_down_settles_at_live(p: int, k: nat)
    requires
        -1 <= p,
        k >= p + 1,
    ensures
        pos_after_downs(p, k) == -1,
    decreases k,
{
    if k > 0 {
        lemma_down_settles_at_live(down_pos(p), (k - 1) as nat);
    }
}

/// Repeating `up` at least as often as the distance to the oldest history
/// entry settles the cursor on that entry, and it does not move further:
/// `up` clamps rather than wrapping around.
pub proof fn lemma_up_settles_at_oldest(len: int, p: int, k: nat)
    requires
        len > 0,
        -1 <= p < len,
        k >= len - 1 - p,
    ensures
        pos_after_ups(len, p, k) == len - 1,
    decreases k,
{
    if k > 0 {
        lemma_up_settles_at_oldest(len, up_pos(len, p), (k - 1) as nat);
    }
}

/// One `up_deduped` step from position `p`: where `up_stop` lands when the
/// starting text is the text displayed at `p`.
pub open spec fn up_leap(history: Seq<Seq<char>>, buffer: Seq<char>, p: int) -> int {
    up_stop(history, text_at(history, buffer, p), p)
}

/// One `down_deduped` step from position `p`: where `down_stop` lands when
/// the starting text is the text displayed at `p`.
pub open spec fn down_leap(history: Seq<Seq<char>>, buffer: Seq<char>, p: int) -> int {
    down_stop(history, text_at(history, buffer, p), p)
}

/// The cursor position after `k` `up_deduped` steps from position `p`.
pub open spec fn pos_after_up_dedups(
    history: Seq<Seq<char>>,
    buffer: Seq<char>,
    p: int,
    k: nat,
) -> int
    decreases k,
{
    if k == 0 {
        p
    } else {
        pos_after_up_dedups(history, buffer, up_leap(history, buffer, p), (k - 1) as nat)
    }
}

/// The cursor position after `k` `down_deduped` steps from position `p`.
pub open spec fn pos_after_down_dedups(
    history: Seq<Seq<char>>,
    buffer: Seq<char>,
    p: int,
    k: nat,
) -> int
    decreases k,
{
    if k == 0 {
        p
    } else {
        pos_after_down_dedups(history, buffer, down_leap(history, buffer, p), (k - 1) as nat)
    }
}

/// How many changes of displayed text the walk from live editing mode up to
/// position `p` passes: position -1 is in run number zero, and the count
/// grows by one wherever the displayed text differs from the text one
/// position below.
pub open spec fn run_index(history: Seq<Seq<char>>, buffer: Seq<char>, p: int) -> int
    decreases p + 1,
{
    if p <= -1 {
        0
    } else {
        run_index(history, buffer, p - 1) + if text_at(history, buffer, p) != text_at(
            history,
            buffer,
            p - 1,
        ) {
            1int
        } else {
            0int
        }
    }
}

proof fn lemma_run_index_nonneg(history: Seq<Seq<char>>, buffer: Seq<char>, p: int)
    ensures
        run_index(history, buffer, p) >= 0,
    decreases p + 1,
{
    if p > -1 {
        lemma_run_index_nonneg(history, buffer, p - 1);
    }
}

proof fn lemma_run_index_zero(history: Seq<Seq<char>>, buffer: Seq<char>, p: int)
    requires
        -1 <= p < history.len(),
        run_index(history, buffer, p) == 0,
    ensures
        text_at(history, buffer, p) == buffer,
    decreases p + 1,
{
    if p >= 0 {
        lemma_run_index_nonneg(history, buffer, p - 1);
        lemma_run_index_zero(history, buffer, p - 1);
    }
}

proof fn lemma_up_leap_run(history: Seq<Seq<char>>, buffer: Seq<char>, p: int)
    requires
        -1 <= p < history.len() || p == -1,
    ensures
        p <= up_leap(history, buffer, p),
        up_leap(history, buffer, p) < history.len() || up_leap(history, buffer, p) == p,
        run_index(history, buffer, up_leap(history, buffer, p)) <= run_index(history, buffer, p)
            + 1,
    decreases history.len() - p,
{
    let start = text_at(history, buffer, p);
    if p + 1 >= history.len() {
        // up_stop stays put
    } else if history[p + 1] != start {
        assert(text_at(history, buffer, p + 1) == history[p + 1]);
    } else {
        assert(text_at(history, buffer, p + 1) == start);
        assert(up_stop(history, start, p) == up_stop(history, start, p + 1));
        lemma_up_leap_run(history, buffer, p + 1);
    }
}

proof fn lemma_down_leap_run(history: Seq<Seq<char>>, buffer: Seq<char>, p: int)
    requires
        -1 <= p < history.len() || p == -1,
    ensures
        -1 <= down_leap(history, buffer, p) <= p,
        run_index(history, buffer, down_leap(history, buffer, p)) <= (if run_index(
            history,
            buffer,
            p,
        ) >= 1 {
            run_index(history, buffer, p) - 1
        } else {
            0
        }),
    decreases p + 1,
{
    let start = text_at(history, buffer, p);
    if p <= 0 {
        // down_stop lands in live editing mode, run number zero
    } else if history[p - 1] != start {
        assert(text_at(history, buffer, p - 1) == history[p - 1]);
        lemma_run_index_nonneg(history, buffer, p - 1);
    } else {
        assert(text_at(history, buffer, p - 1) == start);
        assert(down_stop(history, start, p) == down_stop(history, start, p - 1));
        lemma_down_leap_run(history, buffer, p - 1);
    }
}

proof fn lemma_up_dedups_run_bound(history: Seq<Seq<char>>, buffer: Seq<char>, p: int, k: nat)
    requires
        -1 <= p < history.len() || p == -1,
    ensures
        -1 <= pos_after_up_dedups(history, buffer, p, k),
        pos_after_up_dedups(history, buffer, p, k) < history.len() || pos_after_up_dedups(
            history,
            buffer,
            p,
            k,
        ) == -1,
        run_index(history, buffer, pos_after_up_dedups(history, buffer, p, k)) <= run_index(
            history,
            buffer,
            p,
        ) + k,
    decreases k,
{
    if k > 0 {
        lemma_up_leap_run(history, buffer, p);
        lemma_up_dedups_run_bound(history, buffer, up_leap(history, buffer, p), (k - 1) as nat);
    }
}

proof fn lemma_down_dedups_run_bound(history: Seq<Seq<char>>, buffer: Seq<char>, p: int, k: nat)
    requires
        -1 <= p < history.len() || p == -1,
    ensures
        -1 <= pos_after_down_dedups(history, buffer, p, k) <= p,
        run_index(history, buffer, pos_after_down_dedups(history, buffer, p, k)) <= (if run_index(
            history,
            buffer,
            p,
        ) - k >= 0 {
            run_index(history, buffer, p) - k
        } else {
            0
        }),
    decreases k,
{
    if k > 0 {
        lemma_down_leap_run(history, buffer, p);
        lemma_down_dedups_run_bound(
            history,
            buffer,
            down_leap(history, buffer, p),
            (k - 1) as nat,
        );
    }
}

/// Starting in live editing mode, `up_deduped` some number of times followed
/// by `down_deduped` the same number of times always brings the displayed
/// text back to the live buffer it started from: both ends of the walk clamp
/// alike. (Starting from a browsing position instead, the clamp at the
/// oldest entry can land the return walk on a different entry.)
pub proof fn lemma_deduped_round_trip(m: ConsoleView, k: nat)
    requires
        m.wf(),
        m.cursor is None,
    ensures
        text_at(
            m.history,
            m.buffer,
            pos_after_down_dedups(
                m.history,
                m.buffer,
                pos_after_up_dedups(m.history, m.buffer, m.pos(), k),
                k,
            ),
        ) == m.text(),
{
    lemma_up_dedups_run_bound(m.history, m.buffer, -1, k);
    let climbed = pos_after_up_dedups(m.history, m.buffer, -1, k);
    lemma_down_dedups_run_bound(m.history, m.buffer, climbed, k);
    let returned = pos_after_down_dedups(m.history, m.buffer, climbed, k);
    lemma_run_index_nonneg(m.history, m.buffer, returned);
    lemma_run_index_zero(m.history, m.buffer, returned);
}

} // verus!

//! Collapsing runs of consecutive equal history entries.
//!
//! `dedup_seq` is the specification; the executable work is done by
//! itertools' `dedup` adaptor behind a trusted shim. The lemmas here are the
//! general facts a caller may want: the collapsed sequence has no adjacent
//! repeats, and it keeps exactly the transitions of the full sequence.

use crate::model::text_views;
use itertools::Itertools;
use std::collections::VecDeque;
use vstd::prelude::*;

verus! {

/// `entries` with every run of consecutive equal elements collapsed to one.
pub open spec fn dedup_seq(entries: Seq<Seq<char>>) -> Seq<Seq<char>>
    decreases entries.len(),
{
    if entries.len() <= 1 {
        entries
    } else if entries[0] == entries[1] {
        dedup_seq(entries.drop_first())
    } else {
        seq![entries[0]] + dedup_seq(entries.drop_first())
    }
}

/// The sequence of adjacent changes of `entries`: the pairs of consecutive
/// distinct elements, in order, with runs of equal elements contributing
/// nothing.
pub open spec fn transition_list(entries: Seq<Seq<char>>) -> Seq<(Seq<char>, Seq<char>)>
    decreases entries.len(),
{
    if entries.len() <= 1 {
        Seq::empty()
    } else if entries[0] == entries[1] {
        transition_list(entries.drop_first())
    } else {
        seq![(entries[0], entries[1])] + transition_list(entries.drop_first())
    }
}

/// Collapsing runs keeps the first element: a non-empty sequence collapses to
/// a non-empty sequence that starts with the same element, and collapsing
/// never lengthens a sequence.
pub proof fn lemma_dedup_head(entries: Seq<Seq<char>>)
    ensures
        dedup_seq(entries).len() <= entries.len(),
        entries.len() > 0 ==> dedup_seq(entries).len() > 0 && dedup_seq(entries)[0] == entries[0],
    decreases entries.len(),
{
    if entries.len() > 1 {
        lemma_dedup_head(entries.drop_first());
        if entries[0] == entries[1] {
            assert(dedup_seq(entries)[0] == entries.drop_first()[0]);
        }
    }
}

/// The collapsed history never shows the same entry twice in a row.
pub proof fn lemma_dedup_no_adjacent_repeats(entries: Seq<Seq<char>>)
    ensures
        forall|i: int|
            0 <= i && i + 1 < dedup_seq(entries).len() ==> #[trigger] dedup_seq(entries)[i]
                != dedup_seq(entries)[i + 1],
    decreases entries.len(),
{
    if entries.len() > 1 {
        let tail = entries.drop_first();
        lemma_dedup_no_adjacent_repeats(tail);
        if entries[0] != entries[1] {
            lemma_dedup_head(tail);
            assert forall|i: int| 0 <= i && i + 1 < dedup_seq(entries).len() implies #[trigger] dedup_seq(
                entries,
            )[i] != dedup_seq(entries)[i + 1] by {
                if i > 0 {
                    assert(dedup_seq(entries)[i] == dedup_seq(tail)[i - 1]);
                    assert(dedup_seq(entries)[i + 1] == dedup_seq(tail)[i]);
                }
            }
        }
    }
}

/// Collapsing runs keeps exactly the transitions of the uncollapsed sequence:
/// the consecutive distinct pairs of the collapsed history are those of the
/// full history, in the same order, so the two agree on every change of
/// displayed entry.
pub proof fn lemma_dedup_keeps_transitions(entries: Seq<Seq<char>>)
    ensures
        transition_list(dedup_seq(entries)) == transition_list(entries),
    decreases entries.len(),
{
    if entries.len() > 1 {
        let tail = entries.drop_first();
        lemma_dedup_keeps_transitions(tail);
        if entries[0] == entries[1] {
            assert(dedup_seq(entries) == dedup_seq(tail));
        } else {
            lemma_dedup_head(tail);
            let collapsed = dedup_seq(entries);
            assert(collapsed == seq![entries[0]] + dedup_seq(tail));
            assert(collapsed.len() >= 2);
            assert(collapsed[0] == entries[0]);
            assert(collapsed[1] == dedup_seq(tail)[0]);
            assert(collapsed[1] == tail[0]);
            assert(collapsed[0] != collapsed[1]);
            assert(collapsed.drop_first() =~= dedup_seq(tail));
            assert(transition_list(collapsed) == seq![(entries[0], tail[0])] + transition_list(
                dedup_seq(tail),
            ));
            assert(transition_list(entries) == seq![(entries[0], tail[0])] + transition_list(
                tail,
            ));
        }
    }
}

/// Relies on itertools' `Itertools::dedup`: removes duplicates from sections
/// of consecutive identical elements, keeping one element per section.
#[verifier::external_body]
pub(crate) fn dedup_adjacent(entries: &VecDeque<String>) -> (collapsed: Vec<String>)
    ensures
        text_views(collapsed@) == dedup_seq(text_views(entries@)),
{
    entries.iter().dedup().cloned().collect()
}

} // verus!

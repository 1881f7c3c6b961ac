//! The order of texts and of dates.
//!
//! Texts are ordered as in a dictionary, character by character; dates are
//! ordered by their two texts in turn.

use crate::structs::{DateInfo, DateInfoView};
use crate::text::characters;
use core::cmp::Ordering;
use vstd::prelude::*;

verus! {

/// How one value stands to another in an order.
#[derive(Debug, Clone, Copy, PartialEq, Eq, Structural)]
pub enum Rank {
    Before,
    Same,
    After,
}

/// How `a` stands to `b` in the dictionary: the first character in which they
/// differ decides, and a text comes before each of its extensions.
pub open spec fn lexicographic(a: Seq<char>, b: Seq<char>) -> Rank
    decreases a.len(),
{
    if a.len() == 0 {
        if b.len() == 0 {
            Rank::Same
        } else {
            Rank::Before
        }
    } else if b.len() == 0 {
        Rank::After
    } else if a[0] < b[0] {
        Rank::Before
    } else if a[0] > b[0] {
        Rank::After
    } else {
        lexicographic(a.drop_first(), b.drop_first())
    }
}

/// How the date `a` stands to the date `b`: by the service's notation first,
/// then by the calendar's.
pub open spec fn date_order(a: DateInfoView, b: DateInfoView) -> Rank {
    match lexicographic(a.modis_date, b.modis_date) {
        Rank::Same => lexicographic(a.calendar_date, b.calendar_date),
        decided => decided,
    }
}

/// Two texts stand equal exactly where they are the same text.
pub proof fn lemma_lexicographic_equal(a: Seq<char>, b: Seq<char>)
    ensures
        lexicographic(a, b) == Rank::Same <==> a == b,
    decreases a.len(),
{
    if a.len() > 0 && b.len() > 0 {
        lemma_lexicographic_equal(a.drop_first(), b.drop_first());
        if a[0] == b[0] && a.drop_first() == b.drop_first() {
            assert(a =~= seq![a[0]] + a.drop_first());
            assert(b =~= seq![b[0]] + b.drop_first());
        }
    } else if a.len() == 0 && b.len() == 0 {
        assert(a =~= b);
    }
}

/// Where `a` comes before `b`, `b` comes after `a`, and the other way round.
pub proof fn lemma_lexicographic_mirror(a: Seq<char>, b: Seq<char>)
    ensures
        lexicographic(a, b) == Rank::Before <==> lexicographic(b, a) == Rank::After,
        lexicographic(a, b) == Rank::Same <==> lexicographic(b, a) == Rank::Same,
    decreases a.len(),
{
    if a.len() > 0 && b.len() > 0 {
        lemma_lexicographic_mirror(a.drop_first(), b.drop_first());
    }
}

/// Coming before is transitive.
pub proof fn lemma_lexicographic_transitive(a: Seq<char>, b: Seq<char>, c: Seq<char>)
    requires
        lexicographic(a, b) == Rank::Before,
        lexicographic(b, c) == Rank::Before,
    ensures
        lexicographic(a, c) == Rank::Before,
    decreases a.len(),
{
    if a.len() > 0 && b.len() > 0 && c.len() > 0 {
        if a[0] == b[0] && b[0] == c[0] {
            lemma_lexicographic_transitive(a.drop_first(), b.drop_first(), c.drop_first());
        }
    }
}

/// Two dates stand equal exactly where they hold the same texts.
pub proof fn lemma_date_order_equal(a: DateInfoView, b: DateInfoView)
    ensures
        date_order(a, b) == Rank::Same <==> a == b,
{
    lemma_lexicographic_equal(a.modis_date, b.modis_date);
    lemma_lexicographic_equal(a.calendar_date, b.calendar_date);
}

/// How `a` stands to `b` in the dictionary.
pub fn compare_text(a: &str, b: &str) -> (rank: Rank)
    ensures
        rank == lexicographic(a@, b@),
{
    let x = characters(a);
    let y = characters(b);
    let mut i: usize = 0;
    assert(x@.skip(0) =~= x@ && y@.skip(0) =~= y@);
    while i < x.len() && i < y.len()
        invariant
            i <= x@.len(),
            i <= y@.len(),
            x@ == a@,
            y@ == b@,
            lexicographic(a@, b@) == lexicographic(x@.skip(i as int), y@.skip(i as int)),
        decreases x@.len() - i,
    {
        proof {
            assert(x@.skip(i as int)[0] == x@[i as int]);
            assert(y@.skip(i as int)[0] == y@[i as int]);
            assert(x@.skip(i as int).drop_first() =~= x@.skip(i + 1));
            assert(y@.skip(i as int).drop_first() =~= y@.skip(i + 1));
        }
        if x[i] < y[i] {
            return Rank::Before;
        }
        if x[i] > y[i] {
            return Rank::After;
        }
        i += 1;
    }
    if i < y.len() {
        Rank::Before
    } else if i < x.len() {
        Rank::After
    } else {
        Rank::Same
    }
}

/// The date's order is the order of its two texts in turn.
pub fn compare_dates(a: &DateInfo, b: &DateInfo) -> (rank: Rank)
    ensures
        rank == date_order(a@, b@),
{
    match compare_text(a.modis_date.as_str(), b.modis_date.as_str()) {
        Rank::Same => compare_text(a.calendar_date.as_str(), b.calendar_date.as_str()),
        decided => decided,
    }
}

impl PartialOrd for DateInfo {
    fn partial_cmp(&self, other: &DateInfo) -> (order: Option<Ordering>) {
        match compare_dates(self, other) {
            Rank::Before => Some(Ordering::Less),
            Rank::Same => Some(Ordering::Equal),
            Rank::After => Some(Ordering::Greater),
        }
    }
}

impl vstd::std_specs::cmp::PartialOrdSpecImpl for DateInfo {
    open spec fn obeys_partial_cmp_spec() -> bool {
        true
    }

    open spec fn partial_cmp_spec(&self, other: &DateInfo) -> Option<Ordering> {
        match date_order(self@, other@) {
            Rank::Before => Some(Ordering::Less),
            Rank::Same => Some(Ordering::Equal),
            Rank::After => Some(Ordering::Greater),
        }
    }
}

} // verus!

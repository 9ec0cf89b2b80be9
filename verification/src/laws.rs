//! Laws of the positional difference.
//!
//! Each proof function here states one property of [`diff_seq`] that holds
//! for all inputs, so that callers can rely on it without unfolding the
//! definition themselves.

use vstd::prelude::*;
use vstd::std_specs::cmp::PartialEqSpec;

use crate::Diff;
use crate::diff_at;
use crate::diff_len;
use crate::diff_seq;

verus! {

/// Law: exactly one edit is produced per position, so the edit sequence is
/// as long as the longer input.
pub proof fn lemma_edit_count<T: PartialEq<U>, U>(a: Seq<T>, b: Seq<U>)
    ensures
        diff_seq(a, b).len() == diff_len(a, b),
        a.len() >= b.len() ==> diff_seq(a, b).len() == a.len(),
        b.len() >= a.len() ==> diff_seq(a, b).len() == b.len(),
{
}

/// Law: if the two inputs have the same length and their elements are
/// pairwise equal under the heterogeneous relation, every edit is `Keep`.
pub proof fn lemma_identical_all_keep<T: PartialEq<U>, U>(a: Seq<T>, b: Seq<U>)
    requires
        a.len() == b.len(),
        forall|i: int| 0 <= i < a.len() ==> a[i].eq_spec(&b[i]),
    ensures
        forall|i: int| 0 <= i < diff_seq(a, b).len() ==> diff_seq(a, b)[i] == Diff::<U>::Keep,
{
}

/// Law: against an empty left-hand side, every edit is an `Add` carrying the
/// corresponding right-hand element, in order.
pub proof fn lemma_empty_lhs_all_add<T: PartialEq<U>, U>(a: Seq<T>, b: Seq<U>)
    requires
        a.len() == 0,
    ensures
        diff_seq(a, b).len() == b.len(),
        forall|i: int| 0 <= i < b.len() ==> diff_seq(a, b)[i] == Diff::Add(b[i]),
{
}

/// Law: against an empty right-hand side, every edit is a `Remove`, and
/// there are as many of them as the left-hand side has elements.
pub proof fn lemma_empty_rhs_all_remove<T: PartialEq<U>, U>(a: Seq<T>, b: Seq<U>)
    requires
        b.len() == 0,
    ensures
        diff_seq(a, b).len() == a.len(),
        forall|i: int| 0 <= i < a.len() ==> diff_seq(a, b)[i] == Diff::<U>::Remove,
{
}

/// Law: at a position where both sides have an element, the decision between
/// `Keep` and `Change` is made by the heterogeneous relation between the two
/// element types, and a `Change` carries the right-hand element, never the
/// left-hand one.
pub proof fn lemma_overlap_classification<T: PartialEq<U>, U>(a: Seq<T>, b: Seq<U>, i: int)
    requires
        0 <= i < a.len(),
        i < b.len(),
    ensures
        a[i].eq_spec(&b[i]) ==> diff_seq(a, b)[i] == Diff::<U>::Keep,
        !a[i].eq_spec(&b[i]) ==> diff_seq(a, b)[i] == Diff::Change(b[i]),
{
}

/// Law: past the overlap of the two inputs, the trailing excess is pure
/// `Remove` when the left-hand side is longer and pure `Add` when the
/// right-hand side is longer.
pub proof fn lemma_excess_classification<T: PartialEq<U>, U>(a: Seq<T>, b: Seq<U>, i: int)
    requires
        0 <= i < diff_len(a, b),
    ensures
        i >= b.len() ==> diff_seq(a, b)[i] == Diff::<U>::Remove,
        i >= a.len() ==> diff_seq(a, b)[i] == Diff::Add(b[i]),
{
}

/// Law: the edit sequence is a function of the two input sequences alone, so
/// two runs of fresh engines over the same inputs yield identical results:
/// no hidden state leaks from one run into another.
pub proof fn lemma_rerun_identical<T: PartialEq<U>, U>(
    a: Seq<T>,
    b: Seq<U>,
    r1: Seq<Diff<U>>,
    r2: Seq<Diff<U>>,
)
    requires
        r1 == diff_seq(a, b),
        r2 == diff_seq(a, b),
    ensures
        r1 == r2,
{
}

} // verus!

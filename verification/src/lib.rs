//! Positional differences between sequences.
//!
//! The [`IterDiff`] trait pairs a "before" sequence with an "after" sequence
//! and yields, for every position, the [`Diff`] that tells what happened
//! there: the element was kept, changed, removed, or added. The comparison is
//! strictly positional: element `i` of the left-hand side is compared only
//! with element `i` of the right-hand side, with no realignment and no
//! edit-distance minimization.
//!
//! The engine [`DiffIter`] is a single-pass cursor. Each call to
//! [`DiffIter::next`] pulls one element from each side, classifies the
//! position, and advances past it; once both sides are exhausted it keeps
//! reporting exhaustion. The elements may have two different types, as long
//! as the left-hand type knows how to compare itself against the right-hand
//! type (`T: PartialEq<U>`, a heterogeneous equality).

use vstd::prelude::*;
use vstd::std_specs::cmp::PartialEqSpec;

pub mod laws;

verus! {

/// The difference between two sequence elements at one position.
#[derive(Debug, Hash, Clone, Copy, PartialOrd, Ord, PartialEq, Eq)]
pub enum Diff<T> {
    /// Changed item. Both sides have an element at this position and they
    /// compare unequal. The right-hand (new) element is carried in this
    /// variant.
    Change(T),
    /// Removed item. The left-hand side has an element at this position, the
    /// right-hand side has none.
    Remove,
    /// Kept item. Both sides have an element at this position and they
    /// compare equal.
    Keep,
    /// Added item. The right-hand side has an element at this position, the
    /// left-hand side has none. The new element is carried in this variant.
    Add(T),
}

/// The number of positions two sequences give rise to: the longer length.
pub open spec fn diff_len<T, U>(a: Seq<T>, b: Seq<U>) -> nat {
    if a.len() >= b.len() {
        a.len()
    } else {
        b.len()
    }
}

/// The edit at position `i` of the positional difference of `a` and `b`:
/// where both sides have an element the heterogeneous relation `T::eq_spec`
/// decides between `Keep` and `Change`, and a lone element on one side is a
/// `Remove` (left) or an `Add` (right).
pub open spec fn diff_at<T: PartialEq<U>, U>(a: Seq<T>, b: Seq<U>, i: int) -> Diff<U>
    recommends
        0 <= i < diff_len(a, b),
{
    if i < a.len() && i < b.len() {
        if a[i].eq_spec(&b[i]) {
            Diff::Keep
        } else {
            Diff::Change(b[i])
        }
    } else if i < a.len() {
        Diff::Remove
    } else {
        Diff::Add(b[i])
    }
}

/// The whole edit sequence for `a` against `b`: exactly one edit per
/// position up to the longer length.
pub open spec fn diff_seq<T: PartialEq<U>, U>(a: Seq<T>, b: Seq<U>) -> Seq<Diff<U>> {
    Seq::new(diff_len(a, b), |i: int| diff_at(a, b, i))
}

/// The elements of `s` from position `k` on; empty once `k` passes the end.
pub open spec fn suffix_from<A>(s: Seq<A>, k: int) -> Seq<A>
    recommends
        0 <= k,
{
    if k >= s.len() {
        Seq::<A>::empty()
    } else {
        s.skip(k)
    }
}

/// What holds of the edit at position `i` whatever the equality
/// implementation answered: the split between `Keep`/`Change`, `Remove` and
/// `Add` depends only on which sides still have an element, and a change or
/// an addition always carries the right-hand element.
pub open spec fn edit_shape_ok<T, U>(a: Seq<T>, b: Seq<U>, i: int, d: Diff<U>) -> bool {
    if i < a.len() && i < b.len() {
        d == Diff::<U>::Keep || d == Diff::Change(b[i])
    } else if i < a.len() {
        d == Diff::<U>::Remove
    } else {
        d == Diff::Add(b[i])
    }
}

/// Reverse a vector, so that repeated `pop` calls yield the elements in
/// their original order.
fn reverse_vec<A>(v: Vec<A>) -> (r: Vec<A>)
    ensures
        r@ == v@.reverse(),
{
    let mut rest = v;
    let mut out: Vec<A> = Vec::new();
    while rest.len() != 0
        invariant
            rest@ + out@.reverse() =~= v@,
        decreases rest.len(),
    {
        let x = rest.pop().unwrap();
        proof {
            assert((out@.push(x)).reverse() =~= seq![x] + out@.reverse());
        }
        out.push(x);
    }
    proof {
        assert(out@ =~= v@.reverse());
    }
    out
}

/// The positional difference engine: a single-pass cursor over two sequence
/// producers, yielding one [`Diff`] per position. It is created by pairing
/// the two inputs (see [`DiffIter::new`] or [`IterDiff::iter_diff`]) and is
/// consumed by pulling edits out of it one at a time with [`DiffIter::next`].
#[derive(Debug, Hash, Clone, PartialOrd, Ord, PartialEq, Eq)]
pub struct DiffIter<T, U> {
    lhs: Vec<T>,
    rhs: Vec<U>,
}

impl<T, U> DiffIter<T, U> {
    /// The left-hand elements not yet examined, next one first.
    pub closed spec fn lhs_remaining(self) -> Seq<T> {
        self.lhs@.reverse()
    }

    /// The right-hand elements not yet examined, next one first.
    pub closed spec fn rhs_remaining(self) -> Seq<U> {
        self.rhs@.reverse()
    }

    /// Pair two sequence producers into an engine. Each input is consumed by
    /// value; the engine owns both cursors for its whole lifetime.
    pub fn new(lhs: Vec<T>, rhs: Vec<U>) -> (engine: DiffIter<T, U>)
        ensures
            engine.lhs_remaining() == lhs@,
            engine.rhs_remaining() == rhs@,
    {
        let lhs_rev = reverse_vec(lhs);
        let rhs_rev = reverse_vec(rhs);
        proof {
            assert(lhs_rev@.reverse() =~= lhs@);
            assert(rhs_rev@.reverse() =~= rhs@);
        }
        DiffIter { lhs: lhs_rev, rhs: rhs_rev }
    }

    /// How many edits the engine will still produce: one per remaining
    /// position, up to the longer of the two remaining sides.
    pub fn remaining_len(&self) -> (n: usize)
        ensures
            n == diff_len(self.lhs_remaining(), self.rhs_remaining()),
    {
        if self.lhs.len() >= self.rhs.len() {
            self.lhs.len()
        } else {
            self.rhs.len()
        }
    }
}

impl<T: PartialEq<U>, U> DiffIter<T, U> {
    /// All edits the engine will still produce, in the order it will
    /// produce them.
    pub open spec fn edits(self) -> Seq<Diff<U>> {
        diff_seq(self.lhs_remaining(), self.rhs_remaining())
    }

    /// One pull step. Both sides are pulled unconditionally; pulling an
    /// exhausted side is a no-op that keeps reporting exhaustion. The step
    /// classifies the position and advances past it, so the engine never
    /// yields an edit twice, and once both sides are exhausted every further
    /// call returns `None` and leaves the engine unchanged.
    ///
    /// Where the element types' `==` agrees with its specification
    /// (`T::obeys_eq_spec()`), the edit returned is exactly the head of
    /// [`DiffIter::edits`]; whatever `==` answered, the edit has the shape
    /// [`edit_shape_ok`] demands of the head position.
    pub fn next(&mut self) -> (r: Option<Diff<U>>)
        ensures
            r is Some <==> old(self).edits().len() > 0,
            old(self).edits().len() == 0 ==> final(self).lhs_remaining() == old(self).lhs_remaining(),
            old(self).edits().len() == 0 ==> final(self).rhs_remaining() == old(self).rhs_remaining(),
            final(self).lhs_remaining() == suffix_from(old(self).lhs_remaining(), 1),
            final(self).rhs_remaining() == suffix_from(old(self).rhs_remaining(), 1),
            final(self).edits() == suffix_from(old(self).edits(), 1),
            T::obeys_eq_spec() && old(self).edits().len() > 0 ==> r == Some(
                old(self).edits()[0],
            ),
            old(self).edits().len() > 0 ==> edit_shape_ok(
                old(self).lhs_remaining(),
                old(self).rhs_remaining(),
                0,
                r.unwrap(),
            ),
    {
        let l = self.lhs.pop();
        let r = self.rhs.pop();
        proof {
            assert(self.lhs@.reverse() =~= suffix_from(old(self).lhs_remaining(), 1));
            assert(self.rhs@.reverse() =~= suffix_from(old(self).rhs_remaining(), 1));
            assert(self.edits() =~= suffix_from(old(self).edits(), 1));
        }
        match (l, r) {
            (None, None) => None,
            (None, Some(rv)) => Some(Diff::Add(rv)),
            (Some(_), None) => Some(Diff::Remove),
            (Some(lv), Some(rv)) => {
                if lv == rv {
                    Some(Diff::Keep)
                } else {
                    Some(Diff::Change(rv))
                }
            },
        }
    }

    /// Run the engine to exhaustion and return every edit it produces, in
    /// order: one edit per position, up to the longer of the two inputs.
    ///
    /// Where the element types' `==` agrees with its specification
    /// (`T::obeys_eq_spec()`), the result is exactly [`DiffIter::edits`];
    /// whatever `==` answered at each overlapping position, every edit has
    /// the shape [`edit_shape_ok`] demands of its position.
    pub fn collect(self) -> (r: Vec<Diff<U>>)
        ensures
            r@.len() == diff_len(self.lhs_remaining(), self.rhs_remaining()),
            T::obeys_eq_spec() ==> r@ == self.edits(),
            forall|i: int|
                0 <= i < r@.len() ==> edit_shape_ok(
                    self.lhs_remaining(),
                    self.rhs_remaining(),
                    i,
                    r@[i],
                ),
    {
        let ghost lhs0 = self.lhs_remaining();
        let ghost rhs0 = self.rhs_remaining();
        let ghost all = self.edits();
        let mut engine = self;
        let mut out: Vec<Diff<U>> = Vec::new();
        while engine.remaining_len() != 0
            invariant
                out@.len() <= all.len(),
                engine.lhs_remaining() == suffix_from(lhs0, out@.len() as int),
                engine.rhs_remaining() == suffix_from(rhs0, out@.len() as int),
                engine.edits() == suffix_from(all, out@.len() as int),
                T::obeys_eq_spec() ==> out@ =~= all.take(out@.len() as int),
                forall|i: int| 0 <= i < out@.len() ==> edit_shape_ok(lhs0, rhs0, i, out@[i]),
            decreases engine.edits().len(),
        {
            let ghost k = out@.len() as int;
            let d = engine.next().unwrap();
            proof {
                lemma_suffix_step(lhs0, k);
                lemma_suffix_step(rhs0, k);
                lemma_suffix_step(all, k);
                if T::obeys_eq_spec() {
                    assert(all.take(k + 1) =~= all.take(k).push(all[k]));
                }
                assert(edit_shape_ok(lhs0, rhs0, k, d));
            }
            out.push(d);
        }
        proof {
            assert(out@.len() == all.len());
            if T::obeys_eq_spec() {
                assert(all.take(all.len() as int) =~= all);
            }
        }
        out
    }
}

/// Restricts which types may adopt [`IterDiff`]: exactly the crate's
/// sequence producers implement it, so the capability cannot be adopted in
/// an inconsistent way by outside code.
pub trait Sealed<T> {

}

impl<T> Sealed<T> for Vec<T> {

}

/// Iterate through the differences between each element of two sequence
/// producers.
pub trait IterDiff<T>: Sealed<T> {
    /// The sequence of elements this producer will yield, in order.
    spec fn elements(self) -> Seq<T>;

    /// Pair `self` with `rhs` and return the positional difference engine
    /// over the two, consuming both by value. The engine will yield one
    /// [`Diff`] per position, as [`diff_seq`] of the two element sequences
    /// states.
    fn iter_diff<U>(self, rhs: Vec<U>) -> (engine: DiffIter<T, U>) where
        T: PartialEq<U>,
        Self: Sized,

        ensures
            engine.lhs_remaining() == self.elements(),
            engine.rhs_remaining() == rhs@,
            engine.edits() == diff_seq(self.elements(), rhs@),
    ;
}

impl<T> IterDiff<T> for Vec<T> {
    open spec fn elements(self) -> Seq<T> {
        self@
    }

    fn iter_diff<U>(self, rhs: Vec<U>) -> (engine: DiffIter<T, U>) where T: PartialEq<U> {
        DiffIter::new(self, rhs)
    }
}

/// Dropping one element from the front of a suffix yields the suffix that
/// starts one position later.
proof fn lemma_suffix_step<A>(s: Seq<A>, k: int)
    requires
        0 <= k,
    ensures
        suffix_from(suffix_from(s, k), 1) == suffix_from(s, k + 1),
{
    assert(suffix_from(suffix_from(s, k), 1) =~= suffix_from(s, k + 1));
}

} // verus!

use vstd::prelude::*;

use crate::scalar::Scalar;

verus! {

/// An ordered, zero-indexed column of scalar values with exclusive storage.
///
/// Viewed as the mathematical sequence of its elements.
#[derive(Debug, Clone)]
pub struct Series<T>(Vec<T>);

impl<T> View for Series<T> {
    type V = Seq<T>;

    closed spec fn view(&self) -> Seq<T> {
        self.0@
    }
}

/// `self` crosses over `other`: `self` was at or below `other` one step
/// ago and is strictly above it now.
pub open spec fn cross_over_spec<T: Scalar>(a: Seq<T>, b: Seq<T>) -> bool
    recommends
        a.len() >= 2,
        b.len() >= 2,
{
    &&& !a[a.len() - 1].le_spec(b[b.len() - 1])
    &&& a[a.len() - 2].le_spec(b[b.len() - 2])
}

/// `self` crosses under `other`: `self` was strictly above `other` one
/// step ago and is at or below it now.
pub open spec fn cross_under_spec<T: Scalar>(a: Seq<T>, b: Seq<T>) -> bool
    recommends
        a.len() >= 2,
        b.len() >= 2,
{
    &&& a[a.len() - 1].le_spec(b[b.len() - 1])
    &&& !a[a.len() - 2].le_spec(b[b.len() - 2])
}

impl<T: Scalar> Series<T> {
    /// Constructs a series holding exactly the given values, in order.
    pub fn new(data: Vec<T>) -> (s: Self)
        ensures
            s@ == data@,
    {
        Series(data)
    }

    /// Returns the element at position `index`.
    ///
    /// An index at or past the end is a caller fault, excluded here
    /// rather than recovered from.
    pub fn value(&self, index: usize) -> (v: T)
        requires
            index < self@.len(),
        ensures
            v == self@[index as int],
    {
        self.0[index]
    }

    /// Returns a copy of all elements, original order preserved.
    pub fn values(&self) -> (r: Vec<T>)
        ensures
            r@ == self@,
    {
        let mut out: Vec<T> = Vec::new();
        let mut i: usize = 0;
        while i < self.0.len()
            invariant
                i <= self.0.len(),
                out@ == self.0@.subrange(0, i as int),
            decreases self.0.len() - i,
        {
            out.push(self.0[i]);
            assert(self.0@.subrange(0, i + 1 as int) =~= self.0@.subrange(0, i as int).push(
                self.0@[i as int],
            ));
            i += 1;
        }
        assert(self.0@.subrange(0, self.0.len() as int) =~= self.0@);
        out
    }

    /// Current element count.
    pub fn length(&self) -> (n: usize)
        ensures
            n == self@.len(),
    {
        self.0.len()
    }

    /// Overwrites position `index`; every other position is unchanged.
    pub fn replace(&mut self, index: usize, value: T)
        requires
            index < old(self)@.len(),
        ensures
            final(self)@ == old(self)@.update(index as int, value),
            final(self)@.len() == old(self)@.len(),
            final(self)@[index as int] == value,
            forall|j: int|
                0 <= j < old(self)@.len() && j != index ==> final(self)@[j] == old(self)@[j],
    {
        self.0.set(index, value);
    }

    /// Destructively narrows the storage to the half-open window
    /// `[offset, end)`.
    pub fn slice(&mut self, offset: usize, end: usize)
        requires
            offset <= end,
            end <= old(self)@.len(),
        ensures
            final(self)@ == old(self)@.subrange(offset as int, end as int),
            final(self)@.len() == end - offset,
    {
        let mut out: Vec<T> = Vec::new();
        let mut i: usize = offset;
        while i < end
            invariant
                offset <= i <= end,
                end <= self.0.len(),
                self@ == old(self)@,
                out@ == self.0@.subrange(offset as int, i as int),
            decreases end - i,
        {
            out.push(self.0[i]);
            assert(self.0@.subrange(offset as int, i + 1 as int) =~= self.0@.subrange(
                offset as int,
                i as int,
            ).push(self.0@[i as int]));
            i += 1;
        }
        self.0 = out;
    }

    /// Appends `v` at the end; the length grows by exactly one.
    pub fn extend(&mut self, v: T)
        ensures
            final(self)@ == old(self)@.push(v),
            final(self)@.len() == old(self)@.len() + 1,
            final(self)@.last() == v,
    {
        self.0.push(v);
    }

    /// Returns the element `position` steps from the end; `position == 0`
    /// is the most recent element.
    pub fn last(&self, position: usize) -> (v: T)
        requires
            position < self@.len(),
        ensures
            v == self@[self@.len() - 1 - position],
    {
        self.0[self.0.len() - 1 - position]
    }

    /// Returns the last `size` elements, or all elements when the series
    /// is shorter than `size`.
    pub fn last_values(&self, size: usize) -> (r: Vec<T>)
        ensures
            self@.len() > size ==> r@ == self@.subrange(
                self@.len() - size,
                self@.len() as int,
            ),
            self@.len() <= size ==> r@ == self@,
    {
        let len: usize = self.0.len();
        if len > size {
            let mut out: Vec<T> = Vec::new();
            let mut i: usize = len - size;
            while i < len
                invariant
                    len == self.0.len(),
                    size < len,
                    len - size <= i <= len,
                    out@ == self.0@.subrange(len - size, i as int),
                decreases len - i,
            {
                out.push(self.0[i]);
                assert(self.0@.subrange(len - size, i + 1 as int) =~= self.0@.subrange(
                    len - size,
                    i as int,
                ).push(self.0@[i as int]));
                i += 1;
            }
            out
        } else {
            self.values()
        }
    }

    /// True iff this series was at or below `other` one step ago and is
    /// strictly above it now. Fewer than two points in either series is a
    /// caller fault, excluded here.
    pub fn cross_over(&self, other: &Series<T>) -> (r: bool)
        requires
            self@.len() >= 2,
            other@.len() >= 2,
        ensures
            r == cross_over_spec(self@, other@),
    {
        !self.last(0).le(other.last(0)) && self.last(1).le(other.last(1))
    }

    /// True iff this series was strictly above `other` one step ago and
    /// is at or below it now.
    pub fn cross_under(&self, other: &Series<T>) -> (r: bool)
        requires
            self@.len() >= 2,
            other@.len() >= 2,
        ensures
            r == cross_under_spec(self@, other@),
    {
        self.last(0).le(other.last(0)) && !self.last(1).le(other.last(1))
    }

    /// True iff the two series cross in either direction.
    pub fn cross(&self, other: &Series<T>) -> (r: bool)
        requires
            self@.len() >= 2,
            other@.len() >= 2,
        ensures
            r == (cross_over_spec(self@, other@) || cross_under_spec(self@, other@)),
    {
        self.cross_over(other) || self.cross_under(other)
    }
}

impl<T> Default for Series<T> {
    /// An empty series.
    fn default() -> (s: Self)
        ensures
            s@ == Seq::<T>::empty(),
    {
        Series(Vec::new())
    }
}

} // verus!

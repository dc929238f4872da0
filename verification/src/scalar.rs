use vstd::prelude::*;

verus! {

/// A column element: an ordered, copyable 64-bit scalar.
///
/// The closed set of supported kinds is the signed and the unsigned
/// 64-bit integer; fractional observations are carried as fixed-point
/// signed integers. Ordering is what the crossing predicates of
/// [`crate::Series`] are stated over: `le_spec` is the mathematical
/// order, and `le` is its executable counterpart.
pub trait Scalar: Copy + Sized {
    /// The total order on this scalar kind, as a specification.
    spec fn le_spec(self, other: Self) -> bool;

    /// Executable comparison, exactly the order of `le_spec`.
    fn le(self, other: Self) -> (r: bool)
        ensures
            r == self.le_spec(other),
    ;
}

impl Scalar for i64 {
    open spec fn le_spec(self, other: i64) -> bool {
        self <= other
    }

    fn le(self, other: i64) -> (r: bool) {
        self <= other
    }
}

impl Scalar for u64 {
    open spec fn le_spec(self, other: u64) -> bool {
        self <= other
    }

    fn le(self, other: u64) -> (r: bool) {
        self <= other
    }
}

} // verus!

//! Linear mapping of a value from one half-open interval to another.
//!
//! A value `x` expressed relative to a source interval `[from.start, from.end)`
//! is carried to the destination interval `[to.start, to.end)` by the affine
//! transform `to.start + (x - from.start) * (to.end - to.start) / (from.end - from.start)`.
//! Intervals are directed: `start > end` is allowed and reverses the direction
//! of the mapping, and the result is not clamped, so extrapolation outside
//! either interval is valid.
//!
//! Two operation families are offered for every primitive integer type:
//! [`MapRange::map_range`], whose precondition demands that the source interval
//! is non-degenerate and that every intermediate arithmetic step is
//! representable, and [`CheckedMapRange::checked_map_range`], which is total
//! and returns `None` exactly when some step is not representable or the
//! source interval has zero width.
//!
//! The module [`affine`] holds the mathematical model of the transform over
//! unbounded integers, together with its laws: identity, reversal, agreement
//! of the checked and unchecked forms, and the conditions under which the
//! checked form is absent.

use vstd::prelude::*;

pub mod affine;
mod signed;
mod unsigned;

verus! {

use core::ops::Range;

/// Mapping a value from range `from` to another range `to`.
///
/// The precondition `map_range_ok` rules out the inputs on which the
/// computation is undefined or not representable: a zero-width source
/// interval, an unsigned subtraction below zero, and any intermediate
/// step outside the type's bounds.
pub trait MapRange: Sized {
    /// Holds when every arithmetic step of the mapping stays inside the
    /// type's bounds and the source interval has nonzero width.
    spec fn map_range_ok(self, from: Range<Self>, to: Range<Self>) -> bool;

    /// The mapped value: the affine transform of `self`, with every
    /// division truncating toward zero as the type's `/` does.
    spec fn map_range_val(self, from: Range<Self>, to: Range<Self>) -> Self;

    #[must_use]
    fn map_range(self, from: Range<Self>, to: Range<Self>) -> (r: Self)
        requires
            self.map_range_ok(from, to),
        ensures
            r == self.map_range_val(from, to),
    ;
}

/// Mapping a value from range `from` to another range `to`.
///
/// This is a checked version of [`MapRange`]: it is defined on every
/// input, and returns `None` exactly when some arithmetic step of the
/// transform is not representable or the source interval has zero width.
pub trait CheckedMapRange: Sized {
    /// The result of the checked mapping: `Some` of the affine transform
    /// when every step is representable, `None` otherwise.
    spec fn checked_map_range_val(self, from: Range<Self>, to: Range<Self>) -> Option<Self>;

    #[must_use]
    fn checked_map_range(self, from: Range<Self>, to: Range<Self>) -> (r: Option<Self>)
        ensures
            r == self.checked_map_range_val(from, to),
    ;
}

} // verus!

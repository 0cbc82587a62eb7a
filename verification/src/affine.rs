//! The mathematical model of the range mapping, over unbounded integers.
//!
//! Every executable implementation states its contract through the spec
//! functions here: [`map_val`] is the affine transform itself, [`map_ok`]
//! says when each of its arithmetic steps stays inside a type's bounds,
//! and [`checked_map`] is the step-by-step checked form that yields `None`
//! at the first unrepresentable step. The proof functions state the laws
//! of the transform.

use vstd::prelude::*;

verus! {

use vstd::arithmetic::div_mod::{
    lemma_div_is_ordered,
    lemma_div_multiples_vanish,
    lemma_div_of0,
    lemma_div_pos_is_pos,
};

/// Integer division truncating toward zero, as Rust's `/` computes it on
/// the primitive integer types. Verus's own `/` on `int` is Euclidean;
/// the two agree on nonnegative operands and differ in rounding when
/// exactly one operand is negative.
pub open spec fn trunc_div(x: int, d: int) -> int
    recommends
        d != 0,
{
    if x == 0 {
        0
    } else if x > 0 && d > 0 {
        x / d
    } else if x < 0 && d < 0 {
        (x * -1) / (d * -1)
    } else if x < 0 {
        ((x * -1) / d) * -1
    } else {
        (x / (d * -1)) * -1
    }
}

/// `lo <= v <= hi`: the value is representable in a type with those bounds.
pub open spec fn in_bounds(v: int, lo: int, hi: int) -> bool {
    lo <= v && v <= hi
}

/// The affine transform: the position of `x` relative to `[a0, a1)`,
/// re-expressed in `[b0, b1)`, with the division truncating toward zero.
pub open spec fn map_val(x: int, a0: int, a1: int, b0: int, b1: int) -> int
    recommends
        a1 != a0,
{
    b0 + trunc_div((x - a0) * (b1 - b0), a1 - a0)
}

/// Every arithmetic step of `map_val` stays inside `[lo, hi]` and the
/// source interval has nonzero width. The steps are those the executable
/// code performs: the two differences, their product, the source width,
/// the truncated quotient, and the final sum.
pub open spec fn map_ok(x: int, a0: int, a1: int, b0: int, b1: int, lo: int, hi: int) -> bool {
    &&& in_bounds(x - a0, lo, hi)
    &&& in_bounds(b1 - b0, lo, hi)
    &&& in_bounds((x - a0) * (b1 - b0), lo, hi)
    &&& in_bounds(a1 - a0, lo, hi)
    &&& a1 != a0
    &&& in_bounds(trunc_div((x - a0) * (b1 - b0), a1 - a0), lo, hi)
    &&& in_bounds(map_val(x, a0, a1, b0, b1), lo, hi)
}

/// The checked transform: performs the same steps as `map_val`, in the
/// order the executable code performs them, and yields `None` at the
/// first step that leaves `[lo, hi]`, at a zero-width source interval,
/// or at a quotient or sum outside `[lo, hi]`.
pub open spec fn checked_map(
    x: int,
    a0: int,
    a1: int,
    b0: int,
    b1: int,
    lo: int,
    hi: int,
) -> Option<int> {
    if !in_bounds(x - a0, lo, hi) {
        None
    } else if !in_bounds(b1 - b0, lo, hi) {
        None
    } else if !in_bounds((x - a0) * (b1 - b0), lo, hi) {
        None
    } else if !in_bounds(a1 - a0, lo, hi) {
        None
    } else if a1 == a0 {
        None
    } else if !in_bounds(trunc_div((x - a0) * (b1 - b0), a1 - a0), lo, hi) {
        None
    } else if !in_bounds(map_val(x, a0, a1, b0, b1), lo, hi) {
        None
    } else {
        Some(map_val(x, a0, a1, b0, b1))
    }
}

/// On a nonnegative dividend and a positive divisor, truncating division
/// agrees with Euclidean division.
pub proof fn lemma_trunc_div_nonneg(x: int, d: int)
    requires
        0 <= x,
        0 < d,
    ensures
        trunc_div(x, d) == x / d,
{
    if x == 0 {
        lemma_div_of0(d);
    }
}

/// Dividing an exact multiple gives back the factor: `(n * d) / d == n`
/// under truncating division, for any nonzero `d` and any sign of `n`.
pub proof fn lemma_trunc_div_exact(n: int, d: int)
    requires
        d != 0,
    ensures
        trunc_div(n * d, d) == n,
{
    if n == 0 {
        assert(n * d == 0) by (nonlinear_arith)
            requires n == 0;
    } else if n > 0 && d > 0 {
        assert(n * d > 0) by (nonlinear_arith)
            requires n > 0 && d > 0;
        lemma_div_multiples_vanish(n, d);
        assert(n * d == d * n) by (nonlinear_arith);
    } else if n < 0 && d > 0 {
        assert(n * d < 0) by (nonlinear_arith)
            requires n < 0 && d > 0;
        assert((n * d) * -1 == d * (n * -1)) by (nonlinear_arith);
        lemma_div_multiples_vanish(n * -1, d);
    } else if n > 0 && d < 0 {
        assert(n * d < 0) by (nonlinear_arith)
            requires n > 0 && d < 0;
        assert((n * d) * -1 == (d * -1) * n) by (nonlinear_arith);
        lemma_div_multiples_vanish(n, d * -1);
    } else {
        assert(n * d > 0) by (nonlinear_arith)
            requires n < 0 && d < 0;
        assert(n * d == (d * -1) * (n * -1)) by (nonlinear_arith);
        lemma_div_multiples_vanish(n * -1, d * -1);
    }
}

/// Negating the dividend negates the truncated quotient:
/// `trunc_div(-x, d) == -trunc_div(x, d)`.
pub proof fn lemma_trunc_div_neg(x: int, d: int)
    requires
        d != 0,
    ensures
        trunc_div(x * -1, d) == trunc_div(x, d) * -1,
{
}

/// Truncating division by a positive divisor is monotone in the dividend.
pub proof fn lemma_trunc_div_monotone(x1: int, x2: int, d: int)
    requires
        x1 <= x2,
        0 < d,
    ensures
        trunc_div(x1, d) <= trunc_div(x2, d),
{
    if 0 <= x1 {
        lemma_trunc_div_nonneg(x1, d);
        lemma_trunc_div_nonneg(x2, d);
        lemma_div_is_ordered(x1, x2, d);
    } else if x2 < 0 {
        lemma_div_is_ordered(x2 * -1, x1 * -1, d);
    } else {
        // x1 < 0 <= x2: the left quotient is at most zero, the right at least zero.
        lemma_div_pos_is_pos(x1 * -1, d);
        lemma_trunc_div_nonneg(x2, d);
        lemma_div_pos_is_pos(x2, d);
    }
}

/// Mapping an interval onto itself is the identity: for any non-degenerate
/// interval `[a0, a1)` and any `x`, the transform returns `x` unchanged.
pub proof fn lemma_map_identity(x: int, a0: int, a1: int)
    requires
        a1 != a0,
    ensures
        map_val(x, a0, a1, a0, a1) == x,
{
    lemma_trunc_div_exact(x - a0, a1 - a0);
}

/// Reversing the destination interval reflects the result: mapping into
/// `[b1, b0)` instead of `[b0, b1)` gives `b0 + b1 - r` where `r` is the
/// result of mapping into `[b0, b1)`. In particular the direction of
/// change is negated.
pub proof fn lemma_map_reversal(x: int, a0: int, a1: int, b0: int, b1: int)
    requires
        a1 != a0,
    ensures
        map_val(x, a0, a1, b1, b0) == b0 + b1 - map_val(x, a0, a1, b0, b1),
{
    assert((x - a0) * (b0 - b1) == ((x - a0) * (b1 - b0)) * -1) by (nonlinear_arith);
    lemma_trunc_div_neg((x - a0) * (b1 - b0), a1 - a0);
}

/// With a forward source interval and a reversed destination interval,
/// the mapping is antitone: increasing the input does not increase the
/// result.
pub proof fn lemma_map_reversal_antitone(
    x1: int,
    x2: int,
    a0: int,
    a1: int,
    b0: int,
    b1: int,
)
    requires
        a0 < a1,
        b1 <= b0,
        x1 <= x2,
    ensures
        map_val(x2, a0, a1, b0, b1) <= map_val(x1, a0, a1, b0, b1),
{
    assert((x2 - a0) * (b1 - b0) <= (x1 - a0) * (b1 - b0)) by (nonlinear_arith)
        requires x1 <= x2 && b1 <= b0;
    lemma_trunc_div_monotone((x2 - a0) * (b1 - b0), (x1 - a0) * (b1 - b0), a1 - a0);
}

/// Whenever every step of the transform is representable, the checked
/// form agrees with the unchecked form: it returns `Some` of the same
/// value.
pub proof fn lemma_checked_agrees(x: int, a0: int, a1: int, b0: int, b1: int, lo: int, hi: int)
    requires
        map_ok(x, a0, a1, b0, b1, lo, hi),
    ensures
        checked_map(x, a0, a1, b0, b1, lo, hi) == Some(map_val(x, a0, a1, b0, b1)),
{
}

/// A zero-width source interval makes the checked transform absent, for
/// every input value, destination interval, and bounds.
pub proof fn lemma_checked_zero_width(x: int, a0: int, b0: int, b1: int, lo: int, hi: int)
    ensures
        checked_map(x, a0, a0, b0, b1, lo, hi) == None::<int>,
{
}

/// With unsigned bounds, an input below the source interval's start makes
/// the checked transform absent: the first subtraction would fall below
/// zero.
pub proof fn lemma_checked_underflow(x: int, a0: int, a1: int, b0: int, b1: int, hi: int)
    requires
        x < a0,
    ensures
        checked_map(x, a0, a1, b0, b1, 0, hi) == None::<int>,
{
}

} // verus!

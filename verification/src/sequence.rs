//! Mathematical vocabulary for sequences of 32-bit integers.
//!
//! Everything here is ghost code: the definitions that the contracts of the
//! executable operations are written in, and the facts that relate them.

use vstd::prelude::*;

verus! {

/// Whether `x` can be stored in an `i32`.
pub open spec fn fits_i32(x: int) -> bool {
    i32::MIN <= x <= i32::MAX
}

/// Sum of the first `n` elements of `s`, without any wrap-around.
pub open spec fn prefix_sum(s: Seq<i32>, n: nat) -> int
    decreases n,
{
    if n == 0 {
        0
    } else {
        prefix_sum(s, (n - 1) as nat) + s[n - 1]
    }
}

/// Sum of all elements of `s`.
pub open spec fn sum_of(s: Seq<i32>) -> int {
    prefix_sum(s, s.len())
}

/// Number of strictly positive elements among the first `n` elements of `s`.
pub open spec fn positive_prefix(s: Seq<i32>, n: nat) -> nat
    decreases n,
{
    if n == 0 {
        0
    } else if s[n - 1] > 0 {
        positive_prefix(s, (n - 1) as nat) + 1
    } else {
        positive_prefix(s, (n - 1) as nat)
    }
}

/// Number of strictly positive elements of `s`.
pub open spec fn positive_count(s: Seq<i32>) -> nat {
    positive_prefix(s, s.len())
}

/// The sequence of `len` zeros.
pub open spec fn zeros(len: nat) -> Seq<i32> {
    Seq::new(len, |i: int| 0i32)
}

/// `s` counts upward from `start` in steps of one: `start, start + 1, ...`.
pub open spec fn is_ramp(s: Seq<i32>, start: int) -> bool {
    forall|i: int| 0 <= i < s.len() ==> (#[trigger] s[i]) == start + i
}

/// A ramp of `len` elements beginning at `start` stays within `i32`.
pub open spec fn ramp_fits(len: nat, start: int) -> bool {
    fits_i32(start) && (len > 0 ==> fits_i32(start + len - 1))
}

/// `after` is `before` with every element multiplied by `factor`.
pub open spec fn is_scaled(before: Seq<i32>, after: Seq<i32>, factor: int) -> bool {
    &&& after.len() == before.len()
    &&& forall|i: int| 0 <= i < before.len() ==> (#[trigger] after[i]) == before[i] * factor
}

/// Every element of `s` multiplied by `factor` stays within `i32`.
pub open spec fn scaling_fits(s: Seq<i32>, factor: int) -> bool {
    forall|i: int| 0 <= i < s.len() ==> fits_i32((#[trigger] s[i]) * factor)
}

/// Twice the sum of the first `n` elements of a ramp from `start` is
/// `2 * (n * start) + n * (n - 1)`.
pub proof fn lemma_ramp_prefix_sum(s: Seq<i32>, start: int, n: nat)
    requires
        is_ramp(s, start),
        n <= s.len(),
    ensures
        2 * prefix_sum(s, n) == 2 * (n * start) + n * (n - 1),
    decreases n,
{
    if n == 0 {
        assert(n * start == 0 && n * (n - 1) == 0) by (nonlinear_arith)
            requires
                n == 0,
        ;
    } else {
        let m = (n - 1) as nat;
        lemma_ramp_prefix_sum(s, start, m);
        assert(s[n - 1] == start + m);
        assert(n * start == m * start + start && n * (n - 1) == m * (m - 1) + 2 * m)
            by (nonlinear_arith)
            requires
                n == m + 1,
        ;
    }
}

/// A ramp of `n` elements from `start` sums to `n * start + n * (n - 1) / 2`.
pub proof fn lemma_sum_of_ramp(s: Seq<i32>, start: int)
    requires
        is_ramp(s, start),
    ensures
        sum_of(s) == s.len() * start + s.len() * (s.len() - 1) / 2,
{
    lemma_ramp_prefix_sum(s, start, s.len());
}

/// A ramp of `n` elements from 1, that is `1, 2, ..., n`, sums to
/// `n * (n + 1) / 2`.
pub proof fn lemma_sum_of_ramp_from_one(s: Seq<i32>)
    requires
        is_ramp(s, 1),
    ensures
        sum_of(s) == s.len() * (s.len() + 1) / 2,
{
    let n = s.len();
    lemma_sum_of_ramp(s, 1);
    assert(n * 1 == n && n * (n + 1) == 2 * n + n * (n - 1)) by (nonlinear_arith);
}

/// Scaling a ramp from `start` by `factor` leaves `(start + i) * factor` at
/// every index `i`.
pub proof fn lemma_scaled_ramp(before: Seq<i32>, after: Seq<i32>, start: int, factor: int)
    requires
        is_ramp(before, start),
        is_scaled(before, after, factor),
    ensures
        forall|i: int| 0 <= i < after.len() ==> (#[trigger] after[i]) == (start + i) * factor,
{
    assert forall|i: int| 0 <= i < after.len() implies (#[trigger] after[i]) == (start + i)
        * factor by {
        assert(before[i] == start + i);
    }
}

/// No more elements are positive than there are elements.
pub proof fn lemma_positive_prefix_bound(s: Seq<i32>, n: nat)
    ensures
        positive_prefix(s, n) <= n,
    decreases n,
{
    if n > 0 {
        lemma_positive_prefix_bound(s, (n - 1) as nat);
    }
}

/// A sequence of zeros has no positive element.
pub proof fn lemma_zeros_have_no_positive(len: nat, n: nat)
    requires
        n <= len,
    ensures
        positive_prefix(zeros(len), n) == 0,
    decreases n,
{
    if n > 0 {
        lemma_zeros_have_no_positive(len, (n - 1) as nat);
    }
}

} // verus!

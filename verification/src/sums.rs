//! Sums over the positions of a ring, and what changes when one or two
//! positions change.

use vstd::prelude::*;

verus! {

/// `f(0) + f(1) + ... + f(n - 1)`.
pub open spec fn total(f: spec_fn(int) -> int, n: nat) -> int
    decreases n,
{
    if n == 0 {
        0
    } else {
        total(f, (n - 1) as nat) + f(n - 1)
    }
}

/// Two functions that agree below `n` have the same sum.
pub proof fn lemma_total_same(f: spec_fn(int) -> int, g: spec_fn(int) -> int, n: nat)
    requires
        forall|i: int| 0 <= i < n ==> #[trigger] f(i) == g(i),
    ensures
        total(f, n) == total(g, n),
    decreases n,
{
    if n > 0 {
        lemma_total_same(f, g, (n - 1) as nat);
    }
}

/// Where `g` differs from `f` at `a` only, the sums differ by as much.
pub proof fn lemma_total_one(f: spec_fn(int) -> int, g: spec_fn(int) -> int, n: nat, a: int)
    requires
        0 <= a < n,
        forall|i: int| 0 <= i < n && i != a ==> #[trigger] f(i) == g(i),
    ensures
        total(g, n) - total(f, n) == g(a) - f(a),
    decreases n,
{
    if a == n - 1 {
        lemma_total_same(f, g, (n - 1) as nat);
    } else {
        lemma_total_one(f, g, (n - 1) as nat, a);
    }
}

/// Where `g` differs from `f` at `a` and `b` only, the sums differ by the
/// two differences together.
pub proof fn lemma_total_two(
    f: spec_fn(int) -> int,
    g: spec_fn(int) -> int,
    n: nat,
    a: int,
    b: int,
)
    requires
        0 <= a < n,
        0 <= b < n,
        a != b,
        forall|i: int| 0 <= i < n && i != a && i != b ==> #[trigger] f(i) == g(i),
    ensures
        total(g, n) - total(f, n) == (g(a) - f(a)) + (g(b) - f(b)),
    decreases n,
{
    if a == n - 1 {
        lemma_total_one(f, g, (n - 1) as nat, b);
    } else if b == n - 1 {
        lemma_total_one(f, g, (n - 1) as nat, a);
    } else {
        lemma_total_two(f, g, (n - 1) as nat, a, b);
    }
}

/// A sum of values between `low` and `high` lies between `n * low` and
/// `n * high`; it is `n * low` only where every value is `low`, and
/// `n * high` only where every value is `high`.
pub proof fn lemma_total_bounds(f: spec_fn(int) -> int, n: nat, low: int, high: int)
    requires
        forall|i: int| 0 <= i < n ==> low <= #[trigger] f(i) <= high,
    ensures
        n * low <= total(f, n) <= n * high,
        total(f, n) == n * low ==> forall|i: int| 0 <= i < n ==> #[trigger] f(i) == low,
        total(f, n) == n * high ==> forall|i: int| 0 <= i < n ==> #[trigger] f(i) == high,
    decreases n,
{
    if n > 0 {
        lemma_total_bounds(f, (n - 1) as nat, low, high);
        assert(n * low == (n - 1) * low + low) by (nonlinear_arith);
        assert(n * high == (n - 1) * high + high) by (nonlinear_arith);
    } else {
        assert(n * low == 0) by (nonlinear_arith)
            requires
                n == 0,
        ;
        assert(n * high == 0) by (nonlinear_arith)
            requires
                n == 0,
        ;
    }
}

/// A sum of values that are zero or more is zero only where every value
/// is zero.
pub proof fn lemma_total_zero(f: spec_fn(int) -> int, n: nat)
    requires
        forall|i: int| 0 <= i < n ==> 0 <= #[trigger] f(i),
    ensures
        0 <= total(f, n),
        total(f, n) == 0 <==> forall|i: int| 0 <= i < n ==> #[trigger] f(i) == 0,
    decreases n,
{
    if n > 0 {
        lemma_total_zero(f, (n - 1) as nat);
    }
}

/// Where `g` runs through the values of `f` but leaves out `f(k)`, its sum
/// is that of `f` without `f(k)`.
pub proof fn lemma_total_skip(f: spec_fn(int) -> int, g: spec_fn(int) -> int, n: nat, k: int)
    requires
        0 <= k <= n,
        forall|i: int| 0 <= i < k ==> #[trigger] g(i) == f(i),
        forall|i: int| k <= i < n ==> #[trigger] g(i) == f(i + 1),
    ensures
        total(g, n) == total(f, n + 1) - f(k),
    decreases n,
{
    assert(total(f, n + 1) == total(f, n) + f(n as int));
    if k == n {
        lemma_total_same(f, g, n);
    } else {
        lemma_total_skip(f, g, (n - 1) as nat, k);
    }
}

} // verus!

//! Cyclic search for the nearest filled sector around a ring of angular sectors.

use vstd::prelude::*;

use vstd::arithmetic::div_mod::{lemma_fundamental_div_mod, lemma_mod_bound, lemma_mod_multiples_vanish, lemma_small_mod};

verus! {

/// The sector `d` steps before sector `i` on a ring of `n`.
pub open spec fn back(i: int, d: int, n: int) -> int {
    (i - d) % n
}

/// The sector `d` steps after sector `i` on a ring of `n`.
pub open spec fn fwd(i: int, d: int, n: int) -> int {
    (i + d) % n
}

proof fn lemma_step_back(a: int, n: int)
    requires
        n > 0,
    ensures
        ((a % n) + n - 1) % n == (a - 1) % n,
{
    lemma_fundamental_div_mod(a, n);
    let q = a / n;
    let r = a % n;
    assert(a - 1 == n * (q - 1) + (r + n - 1)) by (nonlinear_arith)
        requires
            a == n * q + r,
    ;
    lemma_mod_multiples_vanish(q - 1, r + n - 1, n);
}

proof fn lemma_step_fwd(a: int, n: int)
    requires
        n > 0,
    ensures
        ((a % n) + 1) % n == (a + 1) % n,
{
    lemma_fundamental_div_mod(a, n);
    let q = a / n;
    let r = a % n;
    assert(a + 1 == n * q + (r + 1));
    lemma_mod_multiples_vanish(q, r + 1, n);
}

/// Walking back from `i`, sector `j` is reached after `back_dist(i, j, n)` steps,
/// between 1 and `n`.
pub open spec fn back_dist(i: int, j: int, n: int) -> int {
    if i == j {
        n
    } else {
        (i - j) % n
    }
}

/// Walking forward from `i`, sector `j` is reached after `fwd_dist(i, j, n)` steps,
/// between 1 and `n`.
pub open spec fn fwd_dist(i: int, j: int, n: int) -> int {
    if i == j {
        n
    } else {
        (j - i) % n
    }
}

proof fn lemma_dist(i: int, j: int, n: int)
    requires
        0 <= i < n,
        0 <= j < n,
    ensures
        1 <= back_dist(i, j, n) <= n,
        back(i, back_dist(i, j, n), n) == j,
        1 <= fwd_dist(i, j, n) <= n,
        fwd(i, fwd_dist(i, j, n), n) == j,
{
    lemma_small_mod(i as nat, n as nat);
    lemma_small_mod(j as nat, n as nat);
    if i == j {
        lemma_mod_multiples_vanish(-1, i, n);
        assert(n * -1 + i == i - n) by (nonlinear_arith);
        lemma_mod_multiples_vanish(1, i, n);
        assert(n * 1 + i == i + n) by (nonlinear_arith);
    } else {
        lemma_fundamental_div_mod(i - j, n);
        lemma_mod_bound(i - j, n);
        let q = (i - j) / n;
        let d = (i - j) % n;
        assert(i - j == n * q + d);
        assert(d != 0) by {
            if d == 0 {
                assert(i - j == 0) by (nonlinear_arith)
                    requires
                        i - j == n * q + d,
                        d == 0,
                        -n < i - j < n,
                        n > 0,
                ;
            }
        }
        assert(i - d == n * q + j);
        lemma_mod_multiples_vanish(q, j, n);
        lemma_fundamental_div_mod(j - i, n);
        lemma_mod_bound(j - i, n);
        let q2 = (j - i) / n;
        let d2 = (j - i) % n;
        assert(j - i == n * q2 + d2);
        assert(d2 != 0) by {
            if d2 == 0 {
                assert(j - i == 0) by (nonlinear_arith)
                    requires
                        j - i == n * q2 + d2,
                        d2 == 0,
                        -n < j - i < n,
                        n > 0,
                ;
            }
        }
        assert(i + d2 == n * (-q2) + j) by (nonlinear_arith)
            requires
                j - i == n * q2 + d2,
        ;
        lemma_mod_multiples_vanish(-q2, j, n);
    }
}

/// The nearest filled sector before sector `i` and the nearest after it, going round
/// the ring; the search starts next to `i` and may come back to `i` itself.
pub fn nearest_filled(filled: &Vec<bool>, i: usize) -> (r: (usize, usize))
    requires
        i < filled.len(),
        filled.len() <= usize::MAX / 2,
        exists|j: int| 0 <= j < filled.len() && filled@[j],
    ensures
        r.0 < filled.len(),
        r.1 < filled.len(),
        filled@[r.0 as int],
        filled@[r.1 as int],
        exists|dp: int|
            1 <= dp <= filled.len() && r.0 == back(i as int, dp, filled.len() as int) && forall|d: int|
                1 <= d < dp ==> !filled@[#[trigger] back(i as int, d, filled.len() as int)],
        exists|dn: int|
            1 <= dn <= filled.len() && r.1 == fwd(i as int, dn, filled.len() as int) && forall|d: int|
                1 <= d < dn ==> !filled@[#[trigger] fwd(i as int, d, filled.len() as int)],
{
    let n = filled.len();
    let ghost ni = n as int;
    let ghost j = choose|j: int| 0 <= j < filled.len() && filled@[j];
    proof {
        lemma_dist(i as int, j, ni);
        lemma_small_mod(i as nat, n as nat);
        lemma_step_back(i as int, ni);
        lemma_step_fwd(i as int, ni);
    }
    let mut prev = (i + n - 1) % n;
    let ghost mut dp: int = 1;
    while !filled[prev]
        invariant
            n == filled.len(),
            ni == n,
            n <= usize::MAX / 2,
            0 <= j < ni,
            filled@[j],
            1 <= dp <= back_dist(i as int, j, ni),
            back_dist(i as int, j, ni) <= ni,
            back(i as int, back_dist(i as int, j, ni), ni) == j,
            prev < n,
            prev == back(i as int, dp, ni),
            forall|d: int| 1 <= d < dp ==> !filled@[#[trigger] back(i as int, d, ni)],
        decreases back_dist(i as int, j, ni) - dp,
    {
        proof {
            lemma_step_back(i - dp, ni);
            lemma_mod_bound(i - dp - 1, ni);
        }
        prev = (prev + n - 1) % n;
        proof {
            dp = dp + 1;
        }
    }
    let mut next = (i + 1) % n;
    let ghost mut dn: int = 1;
    while !filled[next]
        invariant
            n == filled.len(),
            ni == n,
            n <= usize::MAX / 2,
            0 <= j < ni,
            filled@[j],
            1 <= dn <= fwd_dist(i as int, j, ni),
            fwd_dist(i as int, j, ni) <= ni,
            fwd(i as int, fwd_dist(i as int, j, ni), ni) == j,
            next < n,
            next == fwd(i as int, dn, ni),
            forall|d: int| 1 <= d < dn ==> !filled@[#[trigger] fwd(i as int, d, ni)],
        decreases fwd_dist(i as int, j, ni) - dn,
    {
        proof {
            lemma_step_fwd(i + dn, ni);
            lemma_mod_bound(i + dn + 1, ni);
        }
        next = (next + 1) % n;
        proof {
            dn = dn + 1;
        }
    }
    (prev, next)
}

} // verus!

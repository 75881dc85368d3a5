//! Matrix products: when the product of two matrices is the identity modulo
//! the prime, multiplying by one undoes multiplying by the other.

use vstd::prelude::*;
use crate::field::canonical_seq;
use crate::layers::{mat_vec, row_dot, undoes};

verus! {

/// `sum_{t < k} f(t)`.
pub open spec fn sum(f: spec_fn(int) -> int, k: nat) -> int
    decreases k,
{
    if k == 0 {
        0
    } else {
        sum(f, (k - 1) as nat) + f(k - 1)
    }
}

/// Entry `(i, k)` of the product of the row-major `n × n` matrices `a` and `b`, over the
/// integers.
pub open spec fn product_entry(a: Seq<u128>, b: Seq<u128>, n: nat, i: int, k: int) -> int {
    sum(|j: int| (a[i * n + j] as int) * (b[j * n + k] as int), n)
}

/// The product of `a` and `b` is the identity matrix modulo `m`.
pub open spec fn product_is_identity(m: int, a: Seq<u128>, b: Seq<u128>, n: nat) -> bool {
    forall|i: int, k: int|
        0 <= i < n && 0 <= k < n ==> #[trigger] (product_entry(a, b, n, i, k) % m) == (if i == k {
            1int
        } else {
            0int
        })
}

/// Entries `(i, k)` with `k < kc` of row `i` of `a × b` are those of the identity modulo `m`.
pub open spec fn identity_row(m: int, a: Seq<u128>, b: Seq<u128>, n: nat, i: int, kc: nat) -> bool
    decreases kc,
{
    kc == 0 || (identity_row(m, a, b, n, i, (kc - 1) as nat) && product_entry(a, b, n, i, kc - 1) % m
        == (if i == kc - 1 {
        1int
    } else {
        0int
    }))
}

/// Rows `i < ic` of `a × b` are those of the identity modulo `m`.
pub open spec fn identity_rows(m: int, a: Seq<u128>, b: Seq<u128>, n: nat, ic: nat) -> bool
    decreases ic,
{
    ic == 0 || (identity_rows(m, a, b, n, (ic - 1) as nat) && identity_row(m, a, b, n, ic - 1, n))
}

pub proof fn lemma_identity_rows(m: int, a: Seq<u128>, b: Seq<u128>, n: nat)
    requires
        identity_rows(m, a, b, n, n),
    ensures
        product_is_identity(m, a, b, n),
{
    assert forall|i: int, k: int| 0 <= i < n && 0 <= k < n implies #[trigger] (product_entry(a, b, n, i, k) % m)
        == (if i == k { 1int } else { 0int }) by {
        lemma_identity_rows_at(m, a, b, n, n, i);
        lemma_identity_row_at(m, a, b, n, i, n, k);
    }
}

proof fn lemma_identity_rows_at(m: int, a: Seq<u128>, b: Seq<u128>, n: nat, ic: nat, i: int)
    requires
        identity_rows(m, a, b, n, ic),
        0 <= i < ic,
    ensures
        identity_row(m, a, b, n, i, n),
    decreases ic,
{
    if i < ic - 1 {
        lemma_identity_rows_at(m, a, b, n, (ic - 1) as nat, i);
    }
}

proof fn lemma_identity_row_at(m: int, a: Seq<u128>, b: Seq<u128>, n: nat, i: int, kc: nat, k: int)
    requires
        identity_row(m, a, b, n, i, kc),
        0 <= k < kc,
    ensures
        product_entry(a, b, n, i, k) % m == (if i == k { 1int } else { 0int }),
    decreases kc,
{
    if k < kc - 1 {
        lemma_identity_row_at(m, a, b, n, i, (kc - 1) as nat, k);
    }
}

proof fn lemma_sum_ext(f: spec_fn(int) -> int, g: spec_fn(int) -> int, k: nat)
    requires
        forall|t: int| 0 <= t < k ==> #[trigger] f(t) == g(t),
    ensures
        sum(f, k) == sum(g, k),
    decreases k,
{
    if k > 0 {
        lemma_sum_ext(f, g, (k - 1) as nat);
    }
}

proof fn lemma_sum_add(f: spec_fn(int) -> int, g: spec_fn(int) -> int, k: nat)
    ensures
        sum(|t: int| f(t) + g(t), k) == sum(f, k) + sum(g, k),
    decreases k,
{
    if k > 0 {
        lemma_sum_add(f, g, (k - 1) as nat);
    }
}

proof fn lemma_sum_scale(c: int, f: spec_fn(int) -> int, k: nat)
    ensures
        sum(|t: int| c * f(t), k) == c * sum(f, k),
    decreases k,
{
    if k > 0 {
        lemma_sum_scale(c, f, (k - 1) as nat);
        assert(c * sum(f, (k - 1) as nat) + c * f(k - 1) == c * (sum(f, (k - 1) as nat) + f(k - 1)))
            by (nonlinear_arith);
    }
}

/// `sum_j a(j) * sum_k e(j, k) * v(k) == sum_k (sum_j a(j) * e(j, k)) * v(k)`.
proof fn lemma_sum_swap(
    a: spec_fn(int) -> int,
    e: spec_fn(int, int) -> int,
    v: spec_fn(int) -> int,
    jn: nat,
    kn: nat,
)
    ensures
        sum(|j: int| a(j) * sum(|k: int| e(j, k) * v(k), kn), jn) == sum(
            |k: int| sum(|j: int| a(j) * e(j, k), jn) * v(k),
            kn,
        ),
    decreases jn,
{
    if jn == 0 {
        lemma_sum_scale(0, v, kn);
        lemma_sum_ext(|k: int| sum(|j: int| a(j) * e(j, k), 0) * v(k), |t: int| 0 * v(t), kn);
    } else {
        let jp = (jn - 1) as nat;
        lemma_sum_swap(a, e, v, jp, kn);
        let f = |k: int| sum(|j: int| a(j) * e(j, k), jp) * v(k);
        let g = |k: int| a(jp as int) * (e(jp as int, k) * v(k));
        let lhs = |k: int| sum(|j: int| a(j) * e(j, k), jn) * v(k);
        let fg = |t: int| f(t) + g(t);
        assert forall|k: int| 0 <= k < kn implies #[trigger] lhs(k) == fg(k) by {
            let s = sum(|j: int| a(j) * e(j, k), jp);
            assert(sum(|j: int| a(j) * e(j, k), jn) == s + a(jp as int) * e(jp as int, k));
            assert((s + a(jp as int) * e(jp as int, k)) * v(k) == s * v(k) + a(jp as int) * (e(jp as int, k) * v(k)))
                by (nonlinear_arith);
        }
        lemma_sum_ext(lhs, fg, kn);
        lemma_sum_add(f, g, kn);
        lemma_sum_scale(a(jp as int), |k: int| e(jp as int, k) * v(k), kn);
        let ev = |k: int| e(jp as int, k) * v(k);
        lemma_sum_ext(g, |t: int| a(jp as int) * ev(t), kn);
    }
}

proof fn lemma_row_dot_is_sum(mat: Seq<u128>, n: nat, row: nat, v: Seq<int>, k: nat)
    ensures
        row_dot(mat, n, row, v, k) == sum(|j: int| (mat[row * n + j] as int) * v[j], k),
    decreases k,
{
    if k > 0 {
        lemma_row_dot_is_sum(mat, n, row, v, (k - 1) as nat);
    }
}

/// Reducing the terms of a sum modulo `m` does not change the sum modulo `m`.
proof fn lemma_sum_mod(f: spec_fn(int) -> int, g: spec_fn(int) -> int, m: int, k: nat)
    requires
        m > 0,
        forall|t: int| 0 <= t < k ==> #[trigger] (f(t) % m) == g(t) % m,
    ensures
        sum(f, k) % m == sum(g, k) % m,
    decreases k,
{
    if k > 0 {
        lemma_sum_mod(f, g, m, (k - 1) as nat);
        vstd::arithmetic::div_mod::lemma_add_mod_noop(sum(f, (k - 1) as nat), f(k - 1), m);
        vstd::arithmetic::div_mod::lemma_add_mod_noop(sum(g, (k - 1) as nat), g(k - 1), m);
    }
}

/// A sum whose coefficients are those of row `i` of the identity, modulo `m`, picks out
/// `v(i)`.
proof fn lemma_sum_identity_row(c: spec_fn(int) -> int, v: spec_fn(int) -> int, i: int, m: int, k: nat)
    requires
        m > 0,
        forall|t: int| 0 <= t < k ==> #[trigger] (c(t) % m) == (if t == i { 1int } else { 0int }),
    ensures
        sum(|t: int| c(t) * v(t), k) % m == (if 0 <= i < k { v(i) } else { 0 }) % m,
    decreases k,
{
    if k > 0 {
        let kp = (k - 1) as nat;
        lemma_sum_identity_row(c, v, i, m, kp);
        let last = kp as int;
        vstd::arithmetic::div_mod::lemma_add_mod_noop(sum(|t: int| c(t) * v(t), kp), c(last) * v(last), m);
        vstd::arithmetic::div_mod::lemma_mul_mod_noop_left(c(last), v(last), m);
        let prev: int = if 0 <= i < kp { v(i) } else { 0 };
        let here: int = if last == i { v(last) } else { 0 };
        assert((c(last) * v(last)) % m == here % m) by {
            if last == i {
                assert((c(last) % m) * v(last) == v(last));
            } else {
                assert((c(last) % m) * v(last) == 0);
            }
        }
        vstd::arithmetic::div_mod::lemma_add_mod_noop(prev, here, m);
        assert(prev + here == (if 0 <= i < k { v(i) } else { 0 }));
    }
}

/// When `a × b` is the identity modulo `m`, multiplying by `a` undoes multiplying by `b` on
/// every vector of residues.
pub proof fn lemma_product_identity_undoes(m: int, a: Seq<u128>, b: Seq<u128>, n: nat)
    requires
        m > 0,
        a.len() == n * n,
        b.len() == n * n,
        product_is_identity(m, a, b, n),
    ensures
        undoes(m, a, b, n),
{
    assert forall|v: Seq<int>| v.len() == n && canonical_seq(v, m) implies #[trigger] mat_vec(
        m,
        a,
        n,
        mat_vec(m, b, n, v),
    ) == v by {
        let w = mat_vec(m, b, n, v);
        assert forall|i: int| 0 <= i < n implies #[trigger] mat_vec(m, a, n, w)[i] == v[i] by {
            let ar = |j: int| (a[i * n + j] as int);
            let e = |j: int, k: int| (b[j * n + k] as int);
            let vf = |k: int| v[k];
            lemma_row_dot_is_sum(a, n, i as nat, w, n);
            // the inner products, before reduction
            let inner = |j: int| sum(|k: int| e(j, k) * vf(k), n);
            let aw = |j: int| (a[i * n + j] as int) * w[j];
            let ai = |j: int| ar(j) * inner(j);
            assert forall|j: int| 0 <= j < n implies #[trigger] (aw(j) % m) == ai(j) % m by {
                lemma_row_dot_is_sum(b, n, j as nat, v, n);
                lemma_sum_ext(|q: int| (b[j * n + q] as int) * v[q], |k: int| e(j, k) * vf(k), n);
                vstd::arithmetic::div_mod::lemma_mul_mod_noop_right(ar(j), inner(j), m);
            }
            lemma_sum_mod(aw, ai, m, n);
            lemma_sum_ext(|j: int| (a[i * n + j] as int) * w[j], aw, n);
            assert(row_dot(a, n, i as nat, w, n) == sum(aw, n));
            lemma_sum_swap(ar, e, vf, n, n);
            let swapped = |j: int| ar(j) * sum(|k: int| e(j, k) * vf(k), n);
            lemma_sum_ext(ai, swapped, n);
            let c = |k: int| sum(|j: int| ar(j) * e(j, k), n);
            let cv = |t: int| c(t) * vf(t);
            lemma_sum_ext(|k: int| sum(|j: int| ar(j) * e(j, k), n) * vf(k), cv, n);
            assert(sum(ai, n) == sum(cv, n));
            assert forall|k: int| 0 <= k < n implies #[trigger] (c(k) % m) == (if k == i { 1int } else { 0int }) by {
                lemma_sum_ext(
                    |j: int| ar(j) * e(j, k),
                    |j: int| (a[i * n + j] as int) * (b[j * n + k] as int),
                    n,
                );
                assert(product_entry(a, b, n, i, k) % m == (if i == k { 1int } else { 0int }));
            }
            lemma_sum_identity_row(c, vf, i, m, n);
            vstd::arithmetic::div_mod::lemma_small_mod(v[i] as nat, m as nat);
            assert(sum(aw, n) % m == sum(ai, n) % m);
            assert(sum(cv, n) % m == v[i] % m);
        }
        assert(mat_vec(m, a, n, w) =~= v);
    }
}

} // verus!

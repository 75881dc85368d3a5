//! Griffin: the permutation, the sponge built on it, and the round constraints
//! that check one round algebraically.

use vstd::prelude::*;
use vstd::arithmetic::power::pow;
use crate::field::{PrimeField, canonical_seq, vals};
use crate::layers::{
    absorb_lanes, absorb_lanes_spec, add_lanes, add_table_constants, mat_vec, matrix_mul,
    periodic_column, periodic_columns, sub_constants, sub_lanes, table_vals, undoes, exp_undoes,
    zeros, lemma_mat_vec_canonical, lemma_sub_add_cancel, lemma_mat_vec_injective,
    lemma_sub_lanes_canonical, lemma_sub_lanes_injective, lemma_add_lanes_canonical,
};

pub mod p128_t12_c4_s100;
pub mod p128_t4_c2_s128;
pub mod p62_t4_c2_s128;

verus! {

/// The constants of one Griffin instance.
pub struct GriffinParams {
    /// Lanes in the state.
    pub width: usize,
    /// Lanes that input never reaches.
    pub capacity: usize,
    pub rounds: usize,
    /// The exponent applied to lane 0.
    pub d: u128,
    /// The inverse exponent applied to lane 1.
    pub inv_d: u128,
    /// The mixing matrix, row-major, `width × width`.
    pub mat: &'static [u128],
    /// The inverse of the mixing matrix, row-major.
    pub inv_mat: &'static [u128],
    /// `width` constants per round.
    pub round_constants: &'static [u128],
    /// The linear coefficients of the quadratic applied to lanes from 2 on.
    pub alphas: &'static [u128],
    /// The constant coefficients of the quadratic applied to lanes from 2 on.
    pub betas: &'static [u128],
    /// The two coefficients of the linear form of lanes 0 and 1.
    pub lambdas: &'static [u128],
}

impl GriffinParams {
    /// The lanes that absorb input and form the digest.
    pub open spec fn rate_spec(&self) -> nat {
        (self.width - self.capacity) as nat
    }

    pub open spec fn wf(&self) -> bool {
        &&& 2 <= self.width
        &&& 1 <= self.capacity < self.width
        &&& self.rounds >= 1
        &&& self.d < 0x1_0000_0000_0000_0000
        &&& self.mat@.len() == self.width * self.width
        &&& self.inv_mat@.len() == self.width * self.width
        &&& self.round_constants@.len() == self.rounds * self.width
        &&& self.alphas@.len() == self.width
        &&& self.betas@.len() == self.width
        &&& self.lambdas@.len() == 2
    }

    /// The constants of round `r`, as residues modulo `m`.
    pub open spec fn round_consts(&self, m: int, r: nat) -> Seq<int> {
        let n = self.width as int;
        table_vals(m, self.round_constants@).subrange(r * n, (r + 1) * n)
    }

    /// The linear form `lambda[0] * a + lambda[1] * b`, modulo `m`.
    pub open spec fn linear_form(&self, m: int, a: int, b: int) -> int {
        ((self.lambdas@[0] as int) * a + (self.lambdas@[1] as int) * b) % m
    }

    /// `x * (l² + alpha[i] * l + beta[i])`: the value of lane `i` from 2 on.
    pub open spec fn quadratic_lane(&self, i: int, x: int, l: int) -> int {
        x * (l * l + (self.alphas@[i] as int) * l + (self.betas@[i] as int))
    }
}

/// The non-linear layer: lane 0 to the power `d`, lane 1 to the power `inv_d`, and every
/// further lane multiplied by a quadratic in the linear form of the two new lanes.
pub open spec fn nonlinear_spec(p: GriffinParams, m: int, s: Seq<int>) -> Seq<int> {
    let y0 = pow(s[0], p.d as nat) % m;
    let y1 = pow(s[1], p.inv_d as nat) % m;
    let l = p.linear_form(m, y0, y1);
    Seq::new(
        s.len(),
        |i: int|
            if i == 0 {
                y0
            } else if i == 1 {
                y1
            } else {
                p.quadratic_lane(i, s[i], l) % m
            },
    )
}

/// Round `r` (taken modulo the number of rounds) applied to `s`; the first round mixes the
/// state once more before its non-linear layer.
pub open spec fn round_spec(p: GriffinParams, m: int, s: Seq<int>, r: nat) -> Seq<int> {
    let t = r % (p.rounds as nat);
    let s0 = if t == 0 {
        mat_vec(m, p.mat@, p.width as nat, s)
    } else {
        s
    };
    add_lanes(m, mat_vec(m, p.mat@, p.width as nat, nonlinear_spec(p, m, s0)), p.round_consts(m, t))
}

/// The first `k` rounds applied to `s`.
pub open spec fn rounds_spec(p: GriffinParams, m: int, s: Seq<int>, k: nat) -> Seq<int>
    decreases k,
{
    if k == 0 {
        s
    } else {
        round_spec(p, m, rounds_spec(p, m, s, (k - 1) as nat), (k - 1) as nat)
    }
}

/// The full permutation.
pub open spec fn permutation_spec(p: GriffinParams, m: int, s: Seq<int>) -> Seq<int> {
    rounds_spec(p, m, s, p.rounds as nat)
}

/// The sponge state after absorbing the first `c` chunks of `input`, permuting after each.
pub open spec fn sponge_spec(p: GriffinParams, m: int, input: Seq<int>, c: nat) -> Seq<int>
    decreases c,
{
    if c == 0 {
        Seq::new(p.width as nat, |i: int| 0)
    } else {
        let r = p.rate_spec() as int;
        permutation_spec(
            p,
            m,
            absorb_lanes_spec(
                m,
                sponge_spec(p, m, input, (c - 1) as nat),
                input.subrange((c - 1) * r, c * r),
            ),
        )
    }
}

/// The digest of `input`: the rate lanes of the state once every chunk is absorbed.
pub open spec fn hash_spec(p: GriffinParams, m: int, input: Seq<int>) -> Seq<int> {
    sponge_spec(p, m, input, input.len() / p.rate_spec()).take(p.rate_spec() as int)
}

/// What `enforce_non_linear` leaves in `res`, for the non-linear layer taking `x` to `y`.
pub open spec fn nonlinear_residuals(
    p: GriffinParams,
    m: int,
    res: Seq<int>,
    x: Seq<int>,
    y: Seq<int>,
    flag: int,
) -> Seq<int> {
    let l = p.linear_form(m, y[0], y[1]);
    Seq::new(
        res.len(),
        |i: int|
            if i == 0 {
                (res[0] + flag * (y[0] - pow(x[0], p.d as nat) % m)) % m
            } else if i == 1 {
                (res[1] + flag * (x[1] - pow(y[1], p.d as nat) % m)) % m
            } else if i < p.width {
                (res[i] + flag * (p.quadratic_lane(i, x[i], l) - y[i])) % m
            } else {
                res[i]
            },
    )
}

/// The output of a round's non-linear layer worked back from `next`: the round constants
/// taken off and the inverse matrix applied.
pub open spec fn recovered(p: GriffinParams, m: int, next: Seq<int>, rc: Seq<int>) -> Seq<int> {
    mat_vec(m, p.inv_mat@, p.width as nat, sub_lanes(m, next, rc.subrange(0, p.width as int)))
}

proof fn lemma_congruent_residual(r: int, f: int, a: int, a2: int, b: int, m: int)
    requires
        m > 0,
        a % m == a2 % m,
    ensures
        (r + (f * ((a - b) % m)) % m) % m == (r + f * (a2 - b)) % m,
{
    vstd::arithmetic::div_mod::lemma_sub_mod_noop(a, b, m);
    vstd::arithmetic::div_mod::lemma_sub_mod_noop(a2, b, m);
    vstd::arithmetic::div_mod::lemma_mul_mod_noop_right(f, a - b, m);
    vstd::arithmetic::div_mod::lemma_mul_mod_noop_right(f, a2 - b, m);
    vstd::arithmetic::div_mod::lemma_add_mod_noop_right(r, f * (a2 - b), m);
    vstd::arithmetic::div_mod::lemma_add_mod_noop_right(r, f * (a - b), m);
}

proof fn lemma_linear_form(l0: int, l1: int, y0: int, y1: int, m: int)
    requires
        m > 0,
    ensures
        (((l0 % m) * y0) % m + ((l1 % m) * y1) % m) % m == (l0 * y0 + l1 * y1) % m,
{
    vstd::arithmetic::div_mod::lemma_mul_mod_noop_left(l0, y0, m);
    vstd::arithmetic::div_mod::lemma_mul_mod_noop_left(l1, y1, m);
    vstd::arithmetic::div_mod::lemma_add_mod_noop(l0 * y0, l1 * y1, m);
}

proof fn lemma_quadratic(x: int, l: int, a: int, b: int, m: int)
    requires
        m > 0,
    ensures
        (x * (((((l * l) % m + ((a % m) * l) % m) % m) + b % m) % m)) % m == (x * (l * l + a * l + b)) % m,
{
    vstd::arithmetic::div_mod::lemma_mul_mod_noop_left(a, l, m);
    vstd::arithmetic::div_mod::lemma_add_mod_noop(l * l, a * l, m);
    vstd::arithmetic::div_mod::lemma_add_mod_noop(l * l + a * l, b, m);
    vstd::arithmetic::div_mod::lemma_mod_twice(l * l + a * l, m);
    vstd::arithmetic::div_mod::lemma_add_mod_noop((l * l + a * l) % m, b, m);
    vstd::arithmetic::div_mod::lemma_mul_mod_noop_right(x, l * l + a * l + b, m);
}

// Properties
// ------------------------------------------------------------------------------------------------

pub proof fn lemma_nonlinear_canonical(p: GriffinParams, m: int, s: Seq<int>)
    requires
        p.wf(),
        m > 0,
        s.len() == p.width,
    ensures
        canonical_seq(nonlinear_spec(p, m, s), m),
{
    let y = nonlinear_spec(p, m, s);
    assert forall|i: int| 0 <= i < y.len() implies 0 <= #[trigger] y[i] < m by {
        if i == 0 {
            vstd::arithmetic::div_mod::lemma_mod_bound(pow(s[0], p.d as nat), m);
        } else if i == 1 {
            vstd::arithmetic::div_mod::lemma_mod_bound(pow(s[1], p.inv_d as nat), m);
        } else {
            let l = p.linear_form(m, pow(s[0], p.d as nat) % m, pow(s[1], p.inv_d as nat) % m);
            vstd::arithmetic::div_mod::lemma_mod_bound(p.quadratic_lane(i, s[i], l), m);
        }
    }
}

/// With flag one, the residuals of the non-linear layer vanish on every state of residues and
/// what the layer makes of it, when raising to `d` undoes raising to `inv_d`.
pub proof fn lemma_nonlinear_constraints_vanish(p: GriffinParams, m: int, x: Seq<int>)
    requires
        p.wf(),
        m > 2,
        x.len() == p.width,
        canonical_seq(x, m),
        exp_undoes(m, p.inv_d as nat, p.d as nat),
    ensures
        nonlinear_residuals(p, m, zeros(p.width as nat), x, nonlinear_spec(p, m, x), 1) == zeros(
            p.width as nat,
        ),
{
    let y = nonlinear_spec(p, m, x);
    let res = nonlinear_residuals(p, m, zeros(p.width as nat), x, y, 1);
    vstd::arithmetic::div_mod::lemma_small_mod(0, m as nat);
    assert forall|i: int| 0 <= i < p.width implies #[trigger] res[i] == 0 by {
        if i == 0 {
        } else if i == 1 {
            assert(pow(pow(x[1], p.inv_d as nat) % m, p.d as nat) % m == x[1]);
        } else {
            let l = p.linear_form(m, y[0], y[1]);
            let q = p.quadratic_lane(i, x[i], l);
            vstd::arithmetic::div_mod::lemma_fundamental_div_mod(q, m);
            assert(q - q % m == m * (q / m));
            vstd::arithmetic::div_mod::lemma_mod_multiples_basic(q / m, m);
            assert(m * (q / m) == (q / m) * m) by (nonlinear_arith);
        }
    }
    assert(res =~= zeros(p.width as nat));
}

/// Working back from the state that a round makes of `cur` recovers the output of the
/// round's non-linear layer, when the inverse matrix undoes the mixing matrix.
pub proof fn lemma_recover_round(p: GriffinParams, m: int, cur: Seq<int>, r: nat)
    requires
        p.wf(),
        m > 2,
        cur.len() == p.width,
        undoes(m, p.inv_mat@, p.mat@, p.width as nat),
    ensures
        recovered(p, m, round_spec(p, m, cur, r), p.round_consts(m, r % (p.rounds as nat)))
            == nonlinear_spec(
            p,
            m,
            if r % (p.rounds as nat) == 0 {
                mat_vec(m, p.mat@, p.width as nat, cur)
            } else {
                cur
            },
        ),
{
    let n = p.width as int;
    let t = r % (p.rounds as nat);
    let c = p.round_consts(m, t);
    assert((t + 1) * n <= p.rounds * n) by (nonlinear_arith)
        requires
            t < p.rounds,
            n >= 0,
    ;
    assert(t * n + n == (t + 1) * n) by (nonlinear_arith);
    assert(c.len() == n);
    assert(c.subrange(0, n) =~= c);
    let s0 = if t == 0 {
        mat_vec(m, p.mat@, p.width as nat, cur)
    } else {
        cur
    };
    let y = nonlinear_spec(p, m, s0);
    lemma_nonlinear_canonical(p, m, s0);
    let w = mat_vec(m, p.mat@, p.width as nat, y);
    lemma_mat_vec_canonical(m, p.mat@, p.width as nat, y);
    lemma_sub_add_cancel(m, w, c);
    assert(mat_vec(m, p.inv_mat@, p.width as nat, w) == y);
}

/// With flag one, the constraints of a round other than the first vanish on every state of
/// residues and the state that the round makes of it, when the inverse matrix undoes the
/// mixing matrix and raising to `d` undoes raising to `inv_d`.
pub proof fn lemma_round_constraints_vanish(p: GriffinParams, m: int, cur: Seq<int>, r: nat)
    requires
        p.wf(),
        m > 2,
        cur.len() == p.width,
        canonical_seq(cur, m),
        r % (p.rounds as nat) != 0,
        undoes(m, p.inv_mat@, p.mat@, p.width as nat),
        exp_undoes(m, p.inv_d as nat, p.d as nat),
    ensures
        nonlinear_residuals(
            p,
            m,
            zeros(p.width as nat),
            cur,
            recovered(p, m, round_spec(p, m, cur, r), p.round_consts(m, r % (p.rounds as nat))),
            1,
        ) == zeros(p.width as nat),
{
    lemma_recover_round(p, m, cur, r);
    lemma_nonlinear_constraints_vanish(p, m, cur);
}

/// With flag one, the constraints of the first round, which mixes the state before its
/// non-linear layer, vanish on every state and the state that the round makes of it, under
/// the same conditions.
pub proof fn lemma_first_round_constraints_vanish(p: GriffinParams, m: int, cur: Seq<int>, r: nat)
    requires
        p.wf(),
        m > 2,
        cur.len() == p.width,
        r % (p.rounds as nat) == 0,
        undoes(m, p.inv_mat@, p.mat@, p.width as nat),
        exp_undoes(m, p.inv_d as nat, p.d as nat),
    ensures
        nonlinear_residuals(
            p,
            m,
            zeros(p.width as nat),
            mat_vec(m, p.mat@, p.width as nat, cur),
            recovered(p, m, round_spec(p, m, cur, r), p.round_consts(m, r % (p.rounds as nat))),
            1,
        ) == zeros(p.width as nat),
{
    lemma_recover_round(p, m, cur, r);
    lemma_mat_vec_canonical(m, p.mat@, p.width as nat, cur);
    lemma_nonlinear_constraints_vanish(p, m, mat_vec(m, p.mat@, p.width as nat, cur));
}

proof fn lemma_zero_residual(r: int, y: int, m: int)
    requires
        m > 0,
        0 <= y < m,
        (0 + 1 * (r - y)) % m == 0 || (0 + 1 * (y - r)) % m == 0,
    ensures
        y == r % m,
{
    vstd::arithmetic::div_mod::lemma_fundamental_div_mod(r, m);
    vstd::arithmetic::div_mod::lemma_mod_bound(r, m);
    let q2 = r / m;
    let d = if (0 + 1 * (r - y)) % m == 0 {
        r - y
    } else {
        y - r
    };
    assert(0 + 1 * d == d);
    vstd::arithmetic::div_mod::lemma_fundamental_div_mod(d, m);
    let q1 = d / m;
    let rm = r % m;
    assert(d % m == 0);
    assert(d == m * q1);
    assert(r == m * q2 + rm);
    let k: int = if d == r - y {
        q2 - q1
    } else {
        q2 + q1
    };
    if d == r - y {
        assert(m * k == m * q2 - m * q1) by (nonlinear_arith)
            requires
                k == q2 - q1,
        ;
    } else {
        assert(m * k == m * q2 + m * q1) by (nonlinear_arith)
            requires
                k == q2 + q1,
        ;
    }
    assert(y - rm == m * k);
    assert(k == 0) by (nonlinear_arith)
        requires
            -m < m * k < m,
            m > 0,
    ;
}

/// With flag one, residuals of the non-linear layer that all vanish determine its output:
/// a vector of residues `y` that passes is what the layer makes of `x`, when raising to
/// `inv_d` undoes raising to `d`.
pub proof fn lemma_nonlinear_residuals_determine(p: GriffinParams, m: int, x: Seq<int>, y: Seq<int>)
    requires
        p.wf(),
        m > 2,
        x.len() == p.width,
        y.len() == p.width,
        canonical_seq(y, m),
        exp_undoes(m, p.d as nat, p.inv_d as nat),
        nonlinear_residuals(p, m, zeros(p.width as nat), x, y, 1) == zeros(p.width as nat),
    ensures
        y == nonlinear_spec(p, m, x),
{
    let res = nonlinear_residuals(p, m, zeros(p.width as nat), x, y, 1);
    let s = nonlinear_spec(p, m, x);
    assert(res[0] == 0);
    lemma_zero_residual(pow(x[0], p.d as nat) % m, y[0], m);
    vstd::arithmetic::div_mod::lemma_mod_twice(pow(x[0], p.d as nat), m);
    assert(y[0] == s[0]);
    assert(res[1] == 0);
    vstd::arithmetic::div_mod::lemma_mod_bound(pow(y[1], p.d as nat), m);
    lemma_zero_residual(x[1], pow(y[1], p.d as nat) % m, m);
    assert(pow(pow(y[1], p.d as nat) % m, p.inv_d as nat) % m == y[1]);
    vstd::arithmetic::power::lemma_pow_mod_noop(x[1], p.inv_d as nat, m);
    assert(y[1] == s[1]);
    assert forall|i: int| 0 <= i < p.width implies y[i] == #[trigger] s[i] by {
        if i >= 2 {
            assert(res[i] == 0);
            let l = p.linear_form(m, y[0], y[1]);
            lemma_zero_residual(p.quadratic_lane(i, x[i], l), y[i], m);
        }
    }
    assert(y =~= s);
}

/// With flag one, the constraints of round `r` do not all vanish on a state of residues and
/// any state of residues other than the one that the round makes of it (the state being
/// mixed first when `r` is a first round), when the matrices undo each other both ways and
/// so do the exponents.
pub proof fn lemma_wrong_next_detected(p: GriffinParams, m: int, cur: Seq<int>, other: Seq<int>, r: nat)
    requires
        p.wf(),
        m > 2,
        cur.len() == p.width,
        other.len() == p.width,
        canonical_seq(other, m),
        other != round_spec(p, m, cur, r),
        undoes(m, p.inv_mat@, p.mat@, p.width as nat),
        undoes(m, p.mat@, p.inv_mat@, p.width as nat),
        exp_undoes(m, p.d as nat, p.inv_d as nat),
    ensures
        nonlinear_residuals(
            p,
            m,
            zeros(p.width as nat),
            if r % (p.rounds as nat) == 0 {
                mat_vec(m, p.mat@, p.width as nat, cur)
            } else {
                cur
            },
            recovered(p, m, other, p.round_consts(m, r % (p.rounds as nat))),
            1,
        ) != zeros(p.width as nat),
{
    let n = p.width as int;
    let t = r % (p.rounds as nat);
    let c = p.round_consts(m, t);
    assert((t + 1) * n <= p.rounds * n) by (nonlinear_arith)
        requires
            t < p.rounds,
            n >= 0,
    ;
    assert(t * n + n == (t + 1) * n) by (nonlinear_arith);
    assert(c.len() == n);
    assert(c.subrange(0, n) =~= c);
    let s0 = if t == 0 {
        mat_vec(m, p.mat@, p.width as nat, cur)
    } else {
        cur
    };
    let next = round_spec(p, m, cur, r);
    let y = nonlinear_spec(p, m, s0);
    lemma_nonlinear_canonical(p, m, s0);
    lemma_mat_vec_canonical(m, p.mat@, p.width as nat, y);
    lemma_add_lanes_canonical(m, mat_vec(m, p.mat@, p.width as nat, y), c);
    assert(canonical_seq(next, m));
    let so = sub_lanes(m, other, c);
    let sx = sub_lanes(m, next, c);
    lemma_sub_lanes_canonical(m, other, c);
    lemma_sub_lanes_canonical(m, next, c);
    let yo = recovered(p, m, other, c);
    lemma_mat_vec_canonical(m, p.inv_mat@, p.width as nat, so);
    if nonlinear_residuals(p, m, zeros(p.width as nat), s0, yo, 1) == zeros(p.width as nat) {
        lemma_nonlinear_residuals_determine(p, m, s0, yo);
        lemma_recover_round(p, m, cur, r);
        assert(recovered(p, m, next, c) == y);
        lemma_mat_vec_injective(m, p.mat@, p.inv_mat@, p.width as nat, so, sx);
        lemma_sub_lanes_injective(m, other, next, c);
    }
}

/// With flag zero, the constraints leave the residuals as they were, whatever the states.
pub proof fn lemma_zero_flag_constraints(
    p: GriffinParams,
    m: int,
    res: Seq<int>,
    x: Seq<int>,
    y: Seq<int>,
)
    requires
        m > 2,
        canonical_seq(res, m),
    ensures
        nonlinear_residuals(p, m, res, x, y, 0) == res,
{
    let out = nonlinear_residuals(p, m, res, x, y, 0);
    assert forall|i: int| 0 <= i < res.len() implies #[trigger] out[i] == res[i] by {
        vstd::arithmetic::div_mod::lemma_small_mod(res[i] as nat, m as nat);
    }
    assert(out =~= res);
}

/// The permutation is the rounds applied one after the other, and the digest is what the
/// sponge reads from the state after absorbing every chunk and permuting: stepping round by
/// round agrees with hashing at every round boundary.
pub proof fn lemma_hash_by_rounds(p: GriffinParams, m: int, input: Seq<int>, c: nat)
    requires
        p.wf(),
        c >= 1,
    ensures
        permutation_spec(p, m, input) == rounds_spec(p, m, input, p.rounds as nat),
        forall|k: nat|
            0 < k <= p.rounds ==> #[trigger] rounds_spec(p, m, input, k) == round_spec(
                p,
                m,
                rounds_spec(p, m, input, (k - 1) as nat),
                (k - 1) as nat,
            ),
        sponge_spec(p, m, input, c) == rounds_spec(
            p,
            m,
            absorb_lanes_spec(
                m,
                sponge_spec(p, m, input, (c - 1) as nat),
                input.subrange((c - 1) * p.rate_spec(), (c * p.rate_spec()) as int),
            ),
            p.rounds as nat,
        ),
{
}

/// Equal inputs have equal digests.
pub proof fn lemma_hash_deterministic(p: GriffinParams, m: int, a: Seq<int>, b: Seq<int>)
    requires
        a == b,
    ensures
        hash_spec(p, m, a) == hash_spec(p, m, b),
{
}

impl GriffinParams {
    /// The lanes that absorb input and form the digest.
    pub fn rate(&self) -> (r: usize)
        requires
            self.wf(),
        ensures
            r == self.rate_spec(),
    {
        self.width - self.capacity
    }

    /// `lambda[0] * a + lambda[1] * b`.
    fn linear<F: PrimeField>(&self, a: F, b: F) -> (r: F)
        requires
            self.wf(),
        ensures
            r.val() == self.linear_form(F::modulus(), a.val(), b.val()),
    {
        proof {
            F::lemma_modulus();
            lemma_linear_form(
                self.lambdas@[0] as int,
                self.lambdas@[1] as int,
                a.val(),
                b.val(),
                F::modulus(),
            );
        }
        F::from_u128(self.lambdas[0]).mul(a).add(F::from_u128(self.lambdas[1]).mul(b))
    }

    /// `x * (l² + alpha[i] * l + beta[i])`.
    fn quadratic<F: PrimeField>(&self, i: usize, x: F, l: F) -> (r: F)
        requires
            self.wf(),
            i < self.width,
        ensures
            r.val() == self.quadratic_lane(i as int, x.val(), l.val()) % F::modulus(),
    {
        proof {
            F::lemma_modulus();
            lemma_quadratic(
                x.val(),
                l.val(),
                self.alphas@[i as int] as int,
                self.betas@[i as int] as int,
                F::modulus(),
            );
        }
        x.mul(l.mul(l).add(F::from_u128(self.alphas[i]).mul(l)).add(F::from_u128(self.betas[i])))
    }

    /// The non-linear layer, in place.
    fn apply_nonlinear<F: PrimeField>(&self, state: &mut [F])
        requires
            self.wf(),
            self.inv_d < F::exp_limit(),
            old(state)@.len() == self.width,
        ensures
            final(state)@.len() == self.width,
            vals(final(state)@) == nonlinear_spec(*self, F::modulus(), vals(old(state)@)),
    {
        proof {
            F::lemma_modulus();
        }
        let ghost v = vals(state@);
        let n = self.width;
        let y0 = state[0].exp(self.d);
        let y1 = state[1].exp(self.inv_d);
        state[0] = y0;
        state[1] = y1;
        let l = self.linear(y0, y1);
        let mut i: usize = 2;
        while i < n
            invariant
                self.wf(),
                n == self.width,
                state@.len() == n,
                v.len() == n,
                2 <= i <= n,
                state@[0] == y0,
                state@[1] == y1,
                y0.val() == pow(v[0], self.d as nat) % F::modulus(),
                y1.val() == pow(v[1], self.inv_d as nat) % F::modulus(),
                l.val() == self.linear_form(F::modulus(), y0.val(), y1.val()),
                forall|k: int| 2 <= k < i ==> #[trigger] state@[k].val() == self.quadratic_lane(k, v[k], l.val()) % F::modulus(),
                forall|k: int| i <= k < n ==> #[trigger] state@[k].val() == v[k],
            decreases n - i,
        {
            let x = state[i];
            state[i] = self.quadratic(i, x, l);
            i = i + 1;
        }
        assert(vals(state@) =~= nonlinear_spec(*self, F::modulus(), v));
    }

    /// Applies round `round` (taken modulo the number of rounds) to `state`.
    pub fn apply_round<F: PrimeField>(&self, state: &mut [F], round: usize)
        requires
            self.wf(),
            self.inv_d < F::exp_limit(),
            old(state)@.len() == self.width,
        ensures
            final(state)@.len() == self.width,
            vals(final(state)@) == round_spec(*self, F::modulus(), vals(old(state)@), round as nat),
    {
        let ghost m = F::modulus();
        let n = self.width;
        let t = round % self.rounds;
        let rlen = self.round_constants.len();
        proof {
            assert(rlen == self.rounds * n);
            assert((t + 1) * n <= self.rounds * n) by (nonlinear_arith)
                requires
                    t < self.rounds,
            ;
            assert(t * n + n == (t + 1) * n) by (nonlinear_arith);
        }
        if t == 0 {
            matrix_mul(self.mat, n, state);
        }
        self.apply_nonlinear(state);
        matrix_mul(self.mat, n, state);
        add_table_constants(state, self.round_constants, t * n);
        proof {
            let tv = table_vals(m, self.round_constants@);
            assert(tv.subrange((t * n) as int, t * n + n) =~= self.round_consts(m, t as nat));
        }
    }

    /// Applies every round, in order, to `state`.
    pub fn permutation<F: PrimeField>(&self, state: &mut [F])
        requires
            self.wf(),
            self.inv_d < F::exp_limit(),
            old(state)@.len() == self.width,
        ensures
            final(state)@.len() == self.width,
            vals(final(state)@) == permutation_spec(*self, F::modulus(), vals(old(state)@)),
    {
        let ghost v = vals(state@);
        let mut i: usize = 0;
        while i < self.rounds
            invariant
                self.wf(),
                self.inv_d < F::exp_limit(),
                i <= self.rounds,
                state@.len() == self.width,
                vals(state@) == rounds_spec(*self, F::modulus(), v, i as nat),
            decreases self.rounds - i,
        {
            self.apply_round(state, i);
            i = i + 1;
        }
    }

    /// The sponge digest of `input`, whose length must be a multiple of the rate.
    pub fn hash<F: PrimeField>(&self, input: &Vec<F>) -> (r: Vec<F>)
        requires
            self.wf(),
            self.inv_d < F::exp_limit(),
            input@.len() % self.rate_spec() == 0,
        ensures
            r@.len() == self.rate_spec(),
            vals(r@) == hash_spec(*self, F::modulus(), vals(input@)),
    {
        proof {
            F::lemma_modulus();
        }
        let ghost m = F::modulus();
        let ghost inp = vals(input@);
        let n = self.width;
        let rate = self.rate();
        let mut state: Vec<F> = Vec::new();
        let mut k: usize = 0;
        while k < n
            invariant
                k <= n,
                state@.len() == k,
                forall|j: int| 0 <= j < k ==> #[trigger] state@[j].val() == 0,
            decreases n - k,
        {
            state.push(F::zero());
            k = k + 1;
        }
        assert(vals(state@) =~= sponge_spec(*self, m, inp, 0));
        let len = input.len();
        let mut absorb_index: usize = 0;
        let ghost mut c: nat = 0;
        while absorb_index < len
            invariant
                self.wf(),
                self.inv_d < F::exp_limit(),
                m == F::modulus(),
                m > 2,
                rate == self.rate_spec(),
                len == input@.len(),
                inp == vals(input@),
                len % rate == 0,
                absorb_index == c * rate,
                absorb_index <= len,
                state@.len() == n,
                n == self.width,
                vals(state@) == sponge_spec(*self, m, inp, c),
            decreases len - absorb_index,
        {
            proof {
                assert(absorb_index + rate <= len) by (nonlinear_arith)
                    requires
                        absorb_index == c * rate,
                        absorb_index < len,
                        len % rate == 0,
                        rate > 0,
                {
                    vstd::arithmetic::div_mod::lemma_fundamental_div_mod(len as int, rate as int);
                }
            }
            let ghost before = vals(state@);
            let ghost start = absorb_index;
            let ghost chunk = inp.subrange(absorb_index as int, absorb_index + rate);
            let mut i: usize = 0;
            while i < rate
                invariant
                    rate == self.rate_spec(),
                    rate < n,
                    state@.len() == n,
                    before.len() == n,
                    len == input@.len(),
                    inp == vals(input@),
                    chunk == inp.subrange((absorb_index - i) as int, absorb_index - i + rate),
                    i <= rate,
                    absorb_index - i + rate <= len,
                    i <= absorb_index,
                    absorb_index == start + i,
                    forall|j: int| 0 <= j < i ==> #[trigger] state@[j].val() == (before[j] + chunk[j]) % m,
                    forall|j: int| i <= j < n ==> #[trigger] state@[j].val() == before[j],
                    m == F::modulus(),
                decreases rate - i,
            {
                let x = state[i];
                state[i] = x.add(input[absorb_index]);
                absorb_index = absorb_index + 1;
                i = i + 1;
            }
            assert(vals(state@) =~= absorb_lanes_spec(m, before, chunk));
            self.permutation(state.as_mut_slice());
            proof {
                assert(absorb_index == start + rate);
                assert(absorb_index == (c + 1) * rate) by (nonlinear_arith)
                    requires
                        absorb_index == start + rate,
                        start == c * rate,
                ;
                c = c + 1;
                assert(chunk =~= inp.subrange((c - 1) * rate, c * rate));
            }
        }
        proof {
            assert(c == len / rate) by (nonlinear_arith)
                requires
                    len == c * rate,
                    rate > 0,
            ;
        }
        let mut out: Vec<F> = Vec::new();
        let mut j: usize = 0;
        while j < rate
            invariant
                j <= rate,
                rate < n,
                state@.len() == n,
                out@.len() == j,
                forall|t: int| 0 <= t < j ==> #[trigger] out@[t] == state@[t],
            decreases rate - j,
        {
            out.push(state[j]);
            j = j + 1;
        }
        assert(vals(out@) =~= vals(state@).take(rate as int));
        out
    }

    /// Column `j` of the round constants laid out for a period of `cycle_length` steps, the
    /// constants of round `i` at position `(i + shift) % cycle_length`; `width` columns.
    pub fn round_constants_periodic<F: PrimeField>(&self, cycle_length: usize, shift: usize) -> (r: Vec<Vec<F>>)
        requires
            self.wf(),
            cycle_length > 0,
            shift + self.rounds <= usize::MAX,
        ensures
            r@.len() == self.width,
            forall|j: int|
                0 <= j < self.width ==> vals(#[trigger] r@[j]@) == periodic_column(
                    F::modulus(),
                    self.round_constants@,
                    self.width as nat,
                    j as nat,
                    cycle_length as nat,
                    shift as nat,
                    self.rounds as nat,
                ),
    {
        periodic_columns(self.round_constants, self.width, self.rounds, cycle_length, shift)
    }

    /// Adds to `result` the residuals of the non-linear layer taking `x` to `y`: each vanishes
    /// when its lane of `y` is what the layer makes of `x`, lane 1 being checked by raising
    /// `y[1]` to the forward exponent.
    pub fn enforce_non_linear<F: PrimeField>(&self, result: &mut [F], x: &[F], y: &[F], flag: F)
        requires
            self.wf(),
            x@.len() == self.width,
            y@.len() == self.width,
            old(result)@.len() >= self.width,
        ensures
            final(result)@.len() == old(result)@.len(),
            vals(final(result)@) == nonlinear_residuals(
                *self,
                F::modulus(),
                vals(old(result)@),
                vals(x@),
                vals(y@),
                flag.val(),
            ),
    {
        proof {
            F::lemma_modulus();
        }
        let ghost m = F::modulus();
        let ghost v = vals(result@);
        let n = self.width;
        proof {
            crate::layers::lemma_accumulate_step(v[0], flag.val(), y@[0].val(), pow(x@[0].val(), self.d as nat) % m, m);
            crate::layers::lemma_accumulate_step(v[1], flag.val(), x@[1].val(), pow(y@[1].val(), self.d as nat) % m, m);
        }
        let r0 = result[0];
        result[0] = r0.add(flag.mul(y[0].sub(x[0].exp(self.d))));
        let r1 = result[1];
        result[1] = r1.add(flag.mul(x[1].sub(y[1].exp(self.d))));
        let l = self.linear(y[0], y[1]);
        let mut i: usize = 2;
        while i < n
            invariant
                self.wf(),
                m == F::modulus(),
                m > 2,
                n == self.width,
                x@.len() == n,
                y@.len() == n,
                result@.len() == v.len(),
                n <= v.len(),
                2 <= i <= n,
                l.val() == self.linear_form(m, y@[0].val(), y@[1].val()),
                result@[0].val() == (v[0] + flag.val() * (y@[0].val() - pow(x@[0].val(), self.d as nat) % m)) % m,
                result@[1].val() == (v[1] + flag.val() * (x@[1].val() - pow(y@[1].val(), self.d as nat) % m)) % m,
                forall|k: int| 2 <= k < i ==> #[trigger] result@[k].val() == (v[k] + flag.val() * (self.quadratic_lane(k, x@[k].val(), l.val()) - y@[k].val())) % m,
                forall|k: int| i <= k < result@.len() ==> #[trigger] result@[k].val() == v[k],
            decreases n - i,
        {
            let q = self.quadratic(i, x[i], l);
            let rk = result[i];
            proof {
                vstd::arithmetic::div_mod::lemma_mod_twice(self.quadratic_lane(i as int, x@[i as int].val(), l.val()), m);
                lemma_congruent_residual(
                    rk.val(),
                    flag.val(),
                    q.val(),
                    self.quadratic_lane(i as int, x@[i as int].val(), l.val()),
                    y@[i as int].val(),
                    m,
                );
            }
            result[i] = rk.add(flag.mul(q.sub(y[i])));
            i = i + 1;
        }
        assert(vals(result@) =~= nonlinear_residuals(*self, m, v, vals(x@), vals(y@), flag.val()));
    }

    /// Adds to `result` the residuals of one round other than the first: `next` is worked back
    /// through the round constants and the inverse matrix, and the non-linear layer is checked
    /// between `current` and what that recovers.
    pub fn enforce_round<F: PrimeField>(
        &self,
        result: &mut [F],
        current: &[F],
        next: &[F],
        round_constants: &[F],
        flag: F,
    )
        requires
            self.wf(),
            current@.len() == self.width,
            next@.len() == self.width,
            round_constants@.len() >= self.width,
            old(result)@.len() >= self.width,
        ensures
            final(result)@.len() == old(result)@.len(),
            vals(final(result)@) == nonlinear_residuals(
                *self,
                F::modulus(),
                vals(old(result)@),
                vals(current@),
                recovered(*self, F::modulus(), vals(next@), vals(round_constants@)),
                flag.val(),
            ),
    {
        let mut right = vstd::slice::slice_to_vec(next);
        sub_constants(right.as_mut_slice(), round_constants, 0);
        matrix_mul(self.inv_mat, self.width, right.as_mut_slice());
        self.enforce_non_linear(result, current, right.as_slice(), flag);
    }

    /// `enforce_round` for the first round, whose state is mixed once before the non-linear
    /// layer.
    pub fn enforce_first_round<F: PrimeField>(
        &self,
        result: &mut [F],
        current: &[F],
        next: &[F],
        round_constants: &[F],
        flag: F,
    )
        requires
            self.wf(),
            current@.len() == self.width,
            next@.len() == self.width,
            round_constants@.len() >= self.width,
            old(result)@.len() >= self.width,
        ensures
            final(result)@.len() == old(result)@.len(),
            vals(final(result)@) == nonlinear_residuals(
                *self,
                F::modulus(),
                vals(old(result)@),
                mat_vec(F::modulus(), self.mat@, self.width as nat, vals(current@)),
                recovered(*self, F::modulus(), vals(next@), vals(round_constants@)),
                flag.val(),
            ),
    {
        let mut left = vstd::slice::slice_to_vec(current);
        matrix_mul(self.mat, self.width, left.as_mut_slice());
        self.enforce_round(result, left.as_slice(), next, round_constants, flag);
    }

    /// `enforce_first_round` on `current` with `pixels` first added onto its rate lanes: the
    /// first round that also absorbs a chunk of input.
    pub fn enforce_first_round_plus_absorb<F: PrimeField>(
        &self,
        result: &mut [F],
        pixels: &[F],
        current: &[F],
        next: &[F],
        round_constants: &[F],
        flag: F,
    )
        requires
            self.wf(),
            pixels@.len() >= self.rate_spec(),
            current@.len() == self.width,
            next@.len() == self.width,
            round_constants@.len() >= self.width,
            old(result)@.len() >= self.width,
        ensures
            final(result)@.len() == old(result)@.len(),
            vals(final(result)@) == nonlinear_residuals(
                *self,
                F::modulus(),
                vals(old(result)@),
                mat_vec(
                    F::modulus(),
                    self.mat@,
                    self.width as nat,
                    absorb_lanes_spec(
                        F::modulus(),
                        vals(current@),
                        vals(pixels@).take(self.rate_spec() as int),
                    ),
                ),
                recovered(*self, F::modulus(), vals(next@), vals(round_constants@)),
                flag.val(),
            ),
    {
        let mut left = vstd::slice::slice_to_vec(current);
        absorb_lanes(left.as_mut_slice(), pixels, self.rate());
        matrix_mul(self.mat, self.width, left.as_mut_slice());
        self.enforce_round(result, left.as_slice(), next, round_constants, flag);
    }
}

} // verus!

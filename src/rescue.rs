//! Rescue-Prime: the permutation, the sponge built on it, and the round
//! constraints that check one round algebraically.

use vstd::prelude::*;
use vstd::arithmetic::power::pow;
use crate::field::{PrimeField, canonical_seq, vals};
use crate::layers::{
    absorb_lanes, absorb_lanes_spec, accumulate, accumulate_residuals, add_constants, add_lanes,
    add_table_constants, apply_power, mat_vec, matrix_mul, periodic_column, periodic_columns,
    power_map, sub_constants, sub_lanes, table_vals, undoes, exp_undoes, zeros,
    lemma_accumulate_equal, lemma_accumulate_zero_flag, lemma_add_lanes_canonical,
    lemma_mat_vec_canonical, lemma_power_map_canonical, lemma_power_map_undo, lemma_sub_add_cancel,
    lemma_accumulate_zero_equal, lemma_mat_vec_injective, lemma_power_map_injective,
    lemma_sub_lanes_canonical, lemma_sub_lanes_injective,
};

pub mod p128_m4_c2_s128;
pub mod p128_m4_c3_s128;
pub mod p128_m9_c1_s128;
pub mod p62_m4_c2_s128;
pub mod p62_m4_c3_s128;
pub mod p62_m9_c1_s128;
pub mod p64_m9_c1_s128;

verus! {

/// The constants of one Rescue-Prime instance.
pub struct RescueParams {
    /// Lanes in the state.
    pub width: usize,
    /// Lanes that input never reaches.
    pub capacity: usize,
    pub rounds: usize,
    /// The exponent of the forward S-box.
    pub alpha: u128,
    /// The exponent of the inverse S-box.
    pub inv_alpha: u128,
    /// The mixing matrix, row-major, `width × width`.
    pub mds: &'static [u128],
    /// The inverse of the mixing matrix, row-major.
    pub inv_mds: &'static [u128],
    /// `2 × width` constants per round, the first half added after the forward S-box.
    pub round_constants: &'static [u128],
}

impl RescueParams {
    /// The lanes that absorb input and form the digest.
    pub open spec fn rate_spec(&self) -> nat {
        (self.width - self.capacity) as nat
    }

    pub open spec fn wf(&self) -> bool {
        &&& 1 <= self.capacity < self.width
        &&& self.rounds >= 1
        &&& self.alpha < 0x1_0000_0000_0000_0000
        &&& self.mds@.len() == self.width * self.width
        &&& self.inv_mds@.len() == self.width * self.width
        &&& self.round_constants@.len() == self.rounds * 2 * self.width
    }

    /// The constants of round `r`, as residues modulo `m`.
    pub open spec fn round_consts(&self, m: int, r: nat) -> Seq<int> {
        let n = self.width as int;
        table_vals(m, self.round_constants@).subrange(r * 2 * n, (r + 1) * 2 * n)
    }
}

/// The first half of a round: forward S-box, mixing, the first constants `c`.
pub open spec fn first_half(p: RescueParams, m: int, s: Seq<int>, c: Seq<int>) -> Seq<int> {
    add_lanes(m, mat_vec(m, p.mds@, p.width as nat, power_map(m, s, p.alpha as nat)), c)
}

/// The second half of a round: inverse S-box, mixing, the second constants `c`.
pub open spec fn second_half(p: RescueParams, m: int, s: Seq<int>, c: Seq<int>) -> Seq<int> {
    add_lanes(m, mat_vec(m, p.mds@, p.width as nat, power_map(m, s, p.inv_alpha as nat)), c)
}

/// Round `r` (taken modulo the number of rounds) applied to `s`.
pub open spec fn round_spec(p: RescueParams, m: int, s: Seq<int>, r: nat) -> Seq<int> {
    let n = p.width as int;
    let c = p.round_consts(m, r % (p.rounds as nat));
    second_half(p, m, first_half(p, m, s, c.subrange(0, n)), c.subrange(n, 2 * n))
}

/// The first `k` rounds applied to `s`.
pub open spec fn rounds_spec(p: RescueParams, m: int, s: Seq<int>, k: nat) -> Seq<int>
    decreases k,
{
    if k == 0 {
        s
    } else {
        round_spec(p, m, rounds_spec(p, m, s, (k - 1) as nat), (k - 1) as nat)
    }
}

/// The full permutation.
pub open spec fn permutation_spec(p: RescueParams, m: int, s: Seq<int>) -> Seq<int> {
    rounds_spec(p, m, s, p.rounds as nat)
}

/// The state that the first half of a round makes of `cur`, given the round's `2 × width`
/// constants `rc`.
pub open spec fn step_forward(p: RescueParams, m: int, cur: Seq<int>, rc: Seq<int>) -> Seq<int> {
    first_half(p, m, cur, rc.subrange(0, p.width as int))
}

/// The same state worked back from `next`: the second constants taken off, the inverse
/// matrix applied, and the forward S-box in place of the inverse one.
pub open spec fn step_backward(p: RescueParams, m: int, next: Seq<int>, rc: Seq<int>) -> Seq<int> {
    let n = p.width as int;
    power_map(
        m,
        mat_vec(m, p.inv_mds@, p.width as nat, sub_lanes(m, next, rc.subrange(n, 2 * n))),
        p.alpha as nat,
    )
}

/// What `enforce_round` leaves in `res`.
pub open spec fn round_residuals(
    p: RescueParams,
    m: int,
    res: Seq<int>,
    cur: Seq<int>,
    next: Seq<int>,
    rc: Seq<int>,
    flag: int,
) -> Seq<int> {
    accumulate(m, res, flag, step_backward(p, m, next, rc), step_forward(p, m, cur, rc))
}

/// `input`, then a one, then the fewest zeros that make the length a multiple of `rate`.
pub open spec fn pad_spec(input: Seq<int>, rate: nat) -> Seq<int> {
    let with_one = input.push(1);
    with_one + Seq::new(((rate - with_one.len() % rate) % rate as int) as nat, |i: int| 0)
}

/// The sponge state after absorbing the first `c` chunks of `input`, permuting after each.
pub open spec fn sponge_spec(p: RescueParams, m: int, input: Seq<int>, c: nat) -> Seq<int>
    decreases c,
{
    if c == 0 {
        Seq::new(p.width as nat, |i: int| 0)
    } else {
        let r = p.rate_spec() as int;
        permutation_spec(
            p,
            m,
            absorb_lanes_spec(m, sponge_spec(p, m, input, (c - 1) as nat), input.subrange((c - 1) * r, c * r)),
        )
    }
}

/// The digest of `input`: the rate lanes of the state once every chunk is absorbed.
pub open spec fn hash_spec(p: RescueParams, m: int, input: Seq<int>) -> Seq<int> {
    sponge_spec(p, m, input, input.len() / p.rate_spec()).take(p.rate_spec() as int)
}

// Properties
// ------------------------------------------------------------------------------------------------

/// With flag one, the constraints of a round vanish on every state of residues and the state
/// that the round makes of it, when the inverse matrix undoes the mixing matrix and the
/// forward exponent undoes the inverse one.
pub proof fn lemma_round_constraints_vanish(p: RescueParams, m: int, cur: Seq<int>, r: nat)
    requires
        p.wf(),
        m > 2,
        cur.len() == p.width,
        canonical_seq(cur, m),
        undoes(m, p.inv_mds@, p.mds@, p.width as nat),
        exp_undoes(m, p.inv_alpha as nat, p.alpha as nat),
    ensures
        round_residuals(
            p,
            m,
            zeros(p.width as nat),
            cur,
            round_spec(p, m, cur, r),
            p.round_consts(m, r % (p.rounds as nat)),
            1,
        ) == zeros(p.width as nat),
{
    let n = p.width as int;
    let t = r % (p.rounds as nat);
    let c = p.round_consts(m, t);
    assert(t < p.rounds);
    assert((t + 1) * 2 * n <= p.rounds * 2 * n) by (nonlinear_arith)
        requires
            t < p.rounds,
            n >= 0,
    ;
    assert(t * 2 * n + 2 * n == (t + 1) * 2 * n) by (nonlinear_arith);
    assert(c.len() == 2 * n);
    let h = first_half(p, m, cur, c.subrange(0, n));
    lemma_add_lanes_canonical(m, mat_vec(m, p.mds@, p.width as nat, power_map(m, cur, p.alpha as nat)), c.subrange(0, n));
    lemma_mat_vec_canonical(m, p.mds@, p.width as nat, power_map(m, cur, p.alpha as nat));
    let u = power_map(m, h, p.inv_alpha as nat);
    lemma_power_map_canonical(m, h, p.inv_alpha as nat);
    let w = mat_vec(m, p.mds@, p.width as nat, u);
    lemma_mat_vec_canonical(m, p.mds@, p.width as nat, u);
    let next = round_spec(p, m, cur, r);
    assert(next == add_lanes(m, w, c.subrange(n, 2 * n)));
    lemma_sub_add_cancel(m, w, c.subrange(n, 2 * n));
    assert(mat_vec(m, p.inv_mds@, p.width as nat, w) == u);
    lemma_power_map_undo(m, h, p.inv_alpha as nat, p.alpha as nat);
    assert(step_backward(p, m, next, c) == h);
    assert(step_forward(p, m, cur, c) == h);
    lemma_accumulate_equal(m, 1, h);
}

/// With flag one, the constraints of the absorbing round vanish on every state of residues,
/// every chunk of input, and the state that the round makes of the state with the chunk
/// added, under the same conditions on the matrices and exponents.
pub proof fn lemma_first_round_constraints_vanish(
    p: RescueParams,
    m: int,
    cur: Seq<int>,
    chunk: Seq<int>,
    r: nat,
)
    requires
        p.wf(),
        m > 2,
        cur.len() == p.width,
        chunk.len() == p.rate_spec(),
        canonical_seq(cur, m),
        undoes(m, p.inv_mds@, p.mds@, p.width as nat),
        exp_undoes(m, p.inv_alpha as nat, p.alpha as nat),
    ensures
        round_residuals(
            p,
            m,
            zeros(p.width as nat),
            absorb_lanes_spec(m, cur, chunk),
            round_spec(p, m, absorb_lanes_spec(m, cur, chunk), r),
            p.round_consts(m, r % (p.rounds as nat)),
            1,
        ) == zeros(p.width as nat),
{
    let a = absorb_lanes_spec(m, cur, chunk);
    assert forall|i: int| 0 <= i < a.len() implies 0 <= #[trigger] a[i] < m by {
        if i < chunk.len() {
            vstd::arithmetic::div_mod::lemma_mod_bound(cur[i] + chunk[i], m);
        }
    }
    lemma_round_constraints_vanish(p, m, a, r);
}

/// With flag one, the constraints of a round do not all vanish on a state of residues and any
/// state of residues other than the one that the round makes of it, when the matrices undo
/// each other both ways and so do the exponents.
pub proof fn lemma_wrong_next_detected(
    p: RescueParams,
    m: int,
    cur: Seq<int>,
    other: Seq<int>,
    r: nat,
)
    requires
        p.wf(),
        m > 2,
        cur.len() == p.width,
        canonical_seq(cur, m),
        other.len() == p.width,
        canonical_seq(other, m),
        other != round_spec(p, m, cur, r),
        undoes(m, p.inv_mds@, p.mds@, p.width as nat),
        undoes(m, p.mds@, p.inv_mds@, p.width as nat),
        exp_undoes(m, p.inv_alpha as nat, p.alpha as nat),
        exp_undoes(m, p.alpha as nat, p.inv_alpha as nat),
    ensures
        round_residuals(
            p,
            m,
            zeros(p.width as nat),
            cur,
            other,
            p.round_consts(m, r % (p.rounds as nat)),
            1,
        ) != zeros(p.width as nat),
{
    let n = p.width as int;
    let t = r % (p.rounds as nat);
    let c = p.round_consts(m, t);
    assert((t + 1) * 2 * n <= p.rounds * 2 * n) by (nonlinear_arith)
        requires
            t < p.rounds,
            n >= 0,
    ;
    assert(t * 2 * n + 2 * n == (t + 1) * 2 * n) by (nonlinear_arith);
    let c2 = c.subrange(n, 2 * n);
    let next = round_spec(p, m, cur, r);
    let h = step_forward(p, m, cur, c);
    lemma_mat_vec_canonical(m, p.mds@, p.width as nat, power_map(m, cur, p.alpha as nat));
    lemma_add_lanes_canonical(m, mat_vec(m, p.mds@, p.width as nat, power_map(m, cur, p.alpha as nat)), c.subrange(0, n));
    let u = power_map(m, h, p.inv_alpha as nat);
    lemma_mat_vec_canonical(m, p.mds@, p.width as nat, u);
    lemma_add_lanes_canonical(m, mat_vec(m, p.mds@, p.width as nat, u), c2);
    assert(canonical_seq(next, m));
    let sx = sub_lanes(m, next, c2);
    let so = sub_lanes(m, other, c2);
    lemma_sub_lanes_canonical(m, next, c2);
    lemma_sub_lanes_canonical(m, other, c2);
    let x = mat_vec(m, p.inv_mds@, p.width as nat, sx);
    let xo = mat_vec(m, p.inv_mds@, p.width as nat, so);
    lemma_mat_vec_canonical(m, p.inv_mds@, p.width as nat, sx);
    lemma_mat_vec_canonical(m, p.inv_mds@, p.width as nat, so);
    lemma_power_map_canonical(m, xo, p.alpha as nat);
    if round_residuals(p, m, zeros(p.width as nat), cur, other, c, 1) == zeros(p.width as nat) {
        lemma_accumulate_zero_equal(m, step_backward(p, m, other, c), h);
        lemma_round_constraints_vanish(p, m, cur, r);
        lemma_power_map_canonical(m, x, p.alpha as nat);
        lemma_accumulate_zero_equal(m, step_backward(p, m, next, c), h);
        lemma_power_map_injective(m, xo, x, p.alpha as nat, p.inv_alpha as nat);
        lemma_mat_vec_injective(m, p.mds@, p.inv_mds@, p.width as nat, so, sx);
        lemma_sub_lanes_injective(m, other, next, c2);
    }
}

/// With flag zero, the constraints leave the residuals as they were, whatever the states.
pub proof fn lemma_zero_flag_constraints(
    p: RescueParams,
    m: int,
    res: Seq<int>,
    cur: Seq<int>,
    next: Seq<int>,
    rc: Seq<int>,
)
    requires
        m > 2,
        canonical_seq(res, m),
    ensures
        round_residuals(p, m, res, cur, next, rc, 0) == res,
{
    lemma_accumulate_zero_flag(m, res, step_backward(p, m, next, rc), step_forward(p, m, cur, rc));
}

/// The permutation is the rounds applied one after the other, and the digest is what the
/// sponge reads from the state after absorbing every chunk and permuting: stepping round by
/// round agrees with hashing at every round boundary.
pub proof fn lemma_hash_by_rounds(p: RescueParams, m: int, input: Seq<int>, c: nat)
    requires
        p.wf(),
        c >= 1,
    ensures
        permutation_spec(p, m, input) == rounds_spec(p, m, input, p.rounds as nat),
        forall|k: nat|
            0 < k <= p.rounds ==> #[trigger] rounds_spec(p, m, input, k) == round_spec(
                p,
                m,
                rounds_spec(p, m, input, (k - 1) as nat),
                (k - 1) as nat,
            ),
        sponge_spec(p, m, input, c) == rounds_spec(
            p,
            m,
            absorb_lanes_spec(
                m,
                sponge_spec(p, m, input, (c - 1) as nat),
                input.subrange((c - 1) * p.rate_spec(), (c * p.rate_spec()) as int),
            ),
            p.rounds as nat,
        ),
{
}

/// Equal inputs have equal digests.
pub proof fn lemma_hash_deterministic(p: RescueParams, m: int, a: Seq<int>, b: Seq<int>)
    requires
        a == b,
    ensures
        hash_spec(p, m, a) == hash_spec(p, m, b),
{
}

impl RescueParams {
    /// The lanes that absorb input and form the digest.
    pub fn rate(&self) -> (r: usize)
        requires
            self.wf(),
        ensures
            r == self.rate_spec(),
    {
        self.width - self.capacity
    }

    /// Applies round `round` (taken modulo the number of rounds) to `state`.
    pub fn apply_round<F: PrimeField>(&self, state: &mut [F], round: usize)
        requires
            self.wf(),
            self.inv_alpha < F::exp_limit(),
            old(state)@.len() == self.width,
        ensures
            final(state)@.len() == self.width,
            vals(final(state)@) == round_spec(*self, F::modulus(), vals(old(state)@), round as nat),
    {
        proof {
            F::lemma_modulus();
        }
        let ghost m = F::modulus();
        let ghost v = vals(state@);
        let n = self.width;
        let t = round % self.rounds;
        let rlen = self.round_constants.len();
        proof {
            assert((t + 1) * 2 * n <= self.rounds * 2 * n) by (nonlinear_arith)
                requires
                    t < self.rounds,
            ;
            assert(t * 2 * n + 2 * n == (t + 1) * 2 * n) by (nonlinear_arith);
            assert(rlen == self.rounds * 2 * n);
            assert(2 * n <= self.rounds * 2 * n) by (nonlinear_arith)
                requires
                    self.rounds >= 1,
            ;
            assert(t * (2 * n) == t * 2 * n) by (nonlinear_arith);
        }
        let w2 = 2 * n;
        let base = t * w2;
        apply_power(state, self.alpha);
        matrix_mul(self.mds, n, state);
        add_table_constants(state, self.round_constants, base);
        let ghost h = vals(state@);
        apply_power(state, self.inv_alpha);
        matrix_mul(self.mds, n, state);
        add_table_constants(state, self.round_constants, base + n);
        proof {
            let c = self.round_consts(m, t as nat);
            let tv = table_vals(m, self.round_constants@);
            assert(tv.subrange(base as int, base + n) =~= c.subrange(0, n as int));
            assert(tv.subrange(base + n, base + n + n) =~= c.subrange(n as int, 2 * n));
            assert(h == first_half(*self, m, v, c.subrange(0, n as int)));
        }
    }

    /// Applies every round, in order, to `state`.
    pub fn permutation<F: PrimeField>(&self, state: &mut [F])
        requires
            self.wf(),
            self.inv_alpha < F::exp_limit(),
            old(state)@.len() == self.width,
        ensures
            final(state)@.len() == self.width,
            vals(final(state)@) == permutation_spec(*self, F::modulus(), vals(old(state)@)),
    {
        let ghost v = vals(state@);
        let mut i: usize = 0;
        while i < self.rounds
            invariant
                self.wf(),
                self.inv_alpha < F::exp_limit(),
                i <= self.rounds,
                state@.len() == self.width,
                vals(state@) == rounds_spec(*self, F::modulus(), v, i as nat),
            decreases self.rounds - i,
        {
            self.apply_round(state, i);
            i = i + 1;
        }
    }

    /// The sponge digest of `input`, whose length must be a multiple of the rate.
    pub fn hash<F: PrimeField>(&self, input: &Vec<F>) -> (r: Vec<F>)
        requires
            self.wf(),
            self.inv_alpha < F::exp_limit(),
            input@.len() % self.rate_spec() == 0,
        ensures
            r@.len() == self.rate_spec(),
            vals(r@) == hash_spec(*self, F::modulus(), vals(input@)),
    {
        proof {
            F::lemma_modulus();
        }
        let ghost m = F::modulus();
        let ghost inp = vals(input@);
        let n = self.width;
        let rate = self.rate();
        let mut state: Vec<F> = Vec::new();
        let mut k: usize = 0;
        while k < n
            invariant
                k <= n,
                state@.len() == k,
                forall|j: int| 0 <= j < k ==> #[trigger] state@[j].val() == 0,
            decreases n - k,
        {
            state.push(F::zero());
            k = k + 1;
        }
        assert(vals(state@) =~= sponge_spec(*self, m, inp, 0));
        let len = input.len();
        let mut absorb_index: usize = 0;
        let ghost mut c: nat = 0;
        while absorb_index < len
            invariant
                self.wf(),
                self.inv_alpha < F::exp_limit(),
                m == F::modulus(),
                m > 2,
                rate == self.rate_spec(),
                len == input@.len(),
                inp == vals(input@),
                len % rate == 0,
                absorb_index == c * rate,
                absorb_index <= len,
                state@.len() == n,
                n == self.width,
                vals(state@) == sponge_spec(*self, m, inp, c),
            decreases len - absorb_index,
        {
            proof {
                assert(absorb_index + rate <= len) by (nonlinear_arith)
                    requires
                        absorb_index == c * rate,
                        absorb_index < len,
                        len % rate == 0,
                        rate > 0,
                {
                    vstd::arithmetic::div_mod::lemma_fundamental_div_mod(len as int, rate as int);
                }
            }
            let ghost before = vals(state@);
            let ghost start = absorb_index;
            let ghost chunk = inp.subrange(absorb_index as int, absorb_index + rate);
            let mut i: usize = 0;
            while i < rate
                invariant
                    rate == self.rate_spec(),
                    rate < n,
                    state@.len() == n,
                    before.len() == n,
                    len == input@.len(),
                    inp == vals(input@),
                    chunk == inp.subrange((absorb_index - i) as int, absorb_index - i + rate),
                    i <= rate,
                    absorb_index - i + rate <= len,
                    i <= absorb_index,
                    absorb_index == start + i,
                    forall|j: int| 0 <= j < i ==> #[trigger] state@[j].val() == (before[j] + chunk[j]) % m,
                    forall|j: int| i <= j < n ==> #[trigger] state@[j].val() == before[j],
                    m == F::modulus(),
                decreases rate - i,
            {
                let x = state[i];
                state[i] = x.add(input[absorb_index]);
                absorb_index = absorb_index + 1;
                i = i + 1;
            }
            assert(vals(state@) =~= absorb_lanes_spec(m, before, chunk));
            self.permutation(state.as_mut_slice());
            proof {
                assert(absorb_index == start + rate);
                assert(absorb_index == (c + 1) * rate) by (nonlinear_arith)
                    requires
                        absorb_index == start + rate,
                        start == c * rate,
                ;
                c = c + 1;
                assert(chunk =~= inp.subrange((c - 1) * rate, c * rate));
            }
        }
        proof {
            assert(c == len / rate) by (nonlinear_arith)
                requires
                    len == c * rate,
                    rate > 0,
            ;
        }
        let mut out: Vec<F> = Vec::new();
        let mut j: usize = 0;
        while j < rate
            invariant
                j <= rate,
                rate < n,
                state@.len() == n,
                out@.len() == j,
                forall|t: int| 0 <= t < j ==> #[trigger] out@[t] == state@[t],
            decreases rate - j,
        {
            out.push(state[j]);
            j = j + 1;
        }
        assert(vals(out@) =~= vals(state@).take(rate as int));
        out
    }

    /// The digest of `input` padded with a one and then zeros up to a multiple of the rate.
    pub fn hash_padded<F: PrimeField>(&self, input: &Vec<F>) -> (r: Vec<F>)
        requires
            self.wf(),
            self.inv_alpha < F::exp_limit(),
            input@.len() + self.width <= usize::MAX,
        ensures
            r@.len() == self.rate_spec(),
            vals(r@) == hash_spec(*self, F::modulus(), pad_spec(vals(input@), self.rate_spec())),
    {
        let rate = self.rate();
        let mut padded: Vec<F> = Vec::new();
        let len = input.len();
        let mut i: usize = 0;
        while i < len
            invariant
                len == input@.len(),
                i <= len,
                padded@ == input@.take(i as int),
            decreases len - i,
        {
            padded.push(input[i]);
            i = i + 1;
            assert(padded@ =~= input@.take(i as int));
        }
        assert(input@.take(len as int) =~= input@);
        let one = F::one();
        padded.push(one);
        let ghost base = padded@;
        assert(base == input@.push(one));
        let zeros = (rate - (len + 1) % rate) % rate;
        let mut k: usize = 0;
        while k < zeros
            invariant
                k <= zeros,
                zeros < rate,
                padded@.len() == base.len() + k,
                forall|q: int| 0 <= q < base.len() ==> #[trigger] padded@[q] == base[q],
                forall|q: int| base.len() <= q < padded@.len() ==> #[trigger] padded@[q].val() == 0,
            decreases zeros - k,
        {
            padded.push(F::zero());
            k = k + 1;
        }
        proof {
            let pv = pad_spec(vals(input@), rate as nat);
            assert(pv.len() == padded@.len());
            assert forall|q: int| 0 <= q < pv.len() implies vals(padded@)[q] == pv[q] by {
                if q < len {
                    assert(padded@[q] == input@[q]);
                } else if q == len {
                    assert(padded@[q] == one);
                }
            }
            assert(vals(padded@) =~= pv);
            let ri = rate as int;
            let q = (len + 1) / ri;
            let rm = (len + 1) % ri;
            vstd::arithmetic::div_mod::lemma_fundamental_div_mod((len + 1) as int, ri);
            vstd::arithmetic::div_mod::lemma_mod_bound((len + 1) as int, ri);
            if rm == 0 {
                vstd::arithmetic::div_mod::lemma_mod_self_0(ri);
                assert(zeros == 0);
            } else {
                vstd::arithmetic::div_mod::lemma_small_mod((ri - rm) as nat, rate as nat);
                assert(zeros == ri - rm);
                assert(len + 1 + zeros == (q + 1) * ri) by (nonlinear_arith)
                    requires
                        len + 1 == ri * q + rm,
                        zeros == ri - rm,
                ;
                vstd::arithmetic::div_mod::lemma_mod_multiples_basic(q + 1, ri);
            }
        }
        self.hash(&padded)
    }

    /// Column `j` of the round constants laid out for a period of `cycle_length` steps, the
    /// constants of round `i` at position `(i + shift) % cycle_length`; `2 × width` columns.
    pub fn round_constants_periodic<F: PrimeField>(&self, cycle_length: usize, shift: usize) -> (r: Vec<Vec<F>>)
        requires
            self.wf(),
            cycle_length > 0,
            shift + self.rounds <= usize::MAX,
        ensures
            r@.len() == 2 * self.width,
            forall|j: int|
                0 <= j < 2 * self.width ==> vals(#[trigger] r@[j]@) == periodic_column(
                    F::modulus(),
                    self.round_constants@,
                    (2 * self.width) as nat,
                    j as nat,
                    cycle_length as nat,
                    shift as nat,
                    self.rounds as nat,
                ),
    {
        proof {
            assert(self.rounds * 2 * self.width == self.rounds * (2 * self.width)) by (nonlinear_arith);
        }
        let rlen = self.round_constants.len();
        proof {
            assert(rlen == self.rounds * (2 * self.width));
            assert(2 * self.width <= self.rounds * (2 * self.width)) by (nonlinear_arith)
                requires
                    self.rounds >= 1,
            ;
        }
        periodic_columns(self.round_constants, 2 * self.width, self.rounds, cycle_length, shift)
    }

    /// `enforce_round` on `current` with `pixels` first added onto its rate lanes: the round
    /// that also absorbs a chunk of input.
    pub fn enforce_first_round<F: PrimeField>(
        &self,
        result: &mut [F],
        pixels: &[F],
        current: &[F],
        next: &[F],
        round_constants: &[F],
        flag: F,
    )
        requires
            self.wf(),
            pixels@.len() >= self.rate_spec(),
            current@.len() == self.width,
            next@.len() == self.width,
            round_constants@.len() >= 2 * self.width,
            old(result)@.len() >= self.width,
        ensures
            final(result)@.len() == old(result)@.len(),
            vals(final(result)@) == round_residuals(
                *self,
                F::modulus(),
                vals(old(result)@),
                absorb_lanes_spec(
                    F::modulus(),
                    vals(current@),
                    vals(pixels@).take(self.rate_spec() as int),
                ),
                vals(next@),
                vals(round_constants@),
                flag.val(),
            ),
    {
        let mut start = vstd::slice::slice_to_vec(current);
        absorb_lanes(start.as_mut_slice(), pixels, self.rate());
        self.enforce_round(result, start.as_slice(), next, round_constants, flag);
    }

    /// Adds `flag * (backward[i] - forward[i])` to `result[i]` for every lane, where `forward`
    /// is the first half of a round applied to `current` and `backward` is the same state
    /// worked back from `next`; both vanish together when `next` follows from `current`.
    pub fn enforce_round<F: PrimeField>(
        &self,
        result: &mut [F],
        current: &[F],
        next: &[F],
        round_constants: &[F],
        flag: F,
    )
        requires
            self.wf(),
            current@.len() == self.width,
            next@.len() == self.width,
            round_constants@.len() >= 2 * self.width,
            old(result)@.len() >= self.width,
        ensures
            final(result)@.len() == old(result)@.len(),
            vals(final(result)@) == round_residuals(
                *self,
                F::modulus(),
                vals(old(result)@),
                vals(current@),
                vals(next@),
                vals(round_constants@),
                flag.val(),
            ),
    {
        proof {
            F::lemma_modulus();
        }
        let n = self.width;
        let mut step1 = vstd::slice::slice_to_vec(current);
        apply_power(step1.as_mut_slice(), self.alpha);
        matrix_mul(self.mds, n, step1.as_mut_slice());
        add_constants(step1.as_mut_slice(), round_constants, 0);

        let mut step2 = vstd::slice::slice_to_vec(next);
        sub_constants(step2.as_mut_slice(), round_constants, n);
        matrix_mul(self.inv_mds, n, step2.as_mut_slice());
        apply_power(step2.as_mut_slice(), self.alpha);

        accumulate_residuals(result, flag, step2.as_slice(), step1.as_slice());
        proof {
            let rc = vals(round_constants@);
            assert(rc.subrange(0, n as int) =~= vals(round_constants@).subrange(0, n as int));
        }
    }
}

} // verus!

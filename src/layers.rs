//! The building blocks shared by both permutations: a matrix-vector product
//! over the field, a power map on every lane, and lane-wise constant addition.

use vstd::prelude::*;
use vstd::arithmetic::power::pow;
use crate::field::{PrimeField, canonical_seq, vals};

verus! {

/// `sum_{j < k} mat[row * n + j] * v[j]`, over the integers.
pub open spec fn row_dot(mat: Seq<u128>, n: nat, row: nat, v: Seq<int>, k: nat) -> int
    decreases k,
{
    if k == 0 {
        0
    } else {
        row_dot(mat, n, row, v, (k - 1) as nat) + (mat[row * n + k - 1] as int) * v[k - 1]
    }
}

/// The product of the row-major `n × n` matrix `mat` with `v`, modulo `m`.
pub open spec fn mat_vec(m: int, mat: Seq<u128>, n: nat, v: Seq<int>) -> Seq<int> {
    Seq::new(n, |i: int| row_dot(mat, n, i as nat, v, n) % m)
}

/// Every lane raised to the power `e`, modulo `m`.
pub open spec fn power_map(m: int, v: Seq<int>, e: nat) -> Seq<int> {
    Seq::new(v.len(), |i: int| pow(v[i], e) % m)
}

/// `v[i] + c[i]` on every lane, modulo `m`.
pub open spec fn add_lanes(m: int, v: Seq<int>, c: Seq<int>) -> Seq<int> {
    Seq::new(v.len(), |i: int| (v[i] + c[i]) % m)
}

/// `v[i] - c[i]` on every lane, modulo `m`.
pub open spec fn sub_lanes(m: int, v: Seq<int>, c: Seq<int>) -> Seq<int> {
    Seq::new(v.len(), |i: int| (v[i] - c[i]) % m)
}

/// The integers of a table, as residues modulo `m`.
pub open spec fn table_vals(m: int, t: Seq<u128>) -> Seq<int> {
    Seq::new(t.len(), |i: int| (t[i] as int) % m)
}

pub proof fn lemma_mul_add_step(acc: int, c: int, s: int, m: int)
    requires
        m > 0,
    ensures
        (acc % m + ((c % m) * s) % m) % m == (acc + c * s) % m,
{
    vstd::arithmetic::div_mod::lemma_mul_mod_noop_left(c, s, m);
    vstd::arithmetic::div_mod::lemma_add_mod_noop(acc, c * s, m);
    vstd::arithmetic::div_mod::lemma_mod_twice(c * s, m);
}

/// Replaces `state` by the product of the row-major `n × n` matrix `matrix` with it.
pub fn matrix_mul<F: PrimeField>(matrix: &[u128], n: usize, state: &mut [F])
    requires
        matrix@.len() == n * n,
        old(state)@.len() == n,
    ensures
        final(state)@.len() == n,
        vals(final(state)@) == mat_vec(F::modulus(), matrix@, n as nat, vals(old(state)@)),
{
    proof {
        F::lemma_modulus();
    }
    let ghost m = F::modulus();
    let ghost v = vals(state@);
    let mlen = matrix.len();
    let mut result: Vec<F> = Vec::new();
    let mut row: usize = 0;
    while row < n
        invariant
            m == F::modulus(),
            m > 2,
            matrix@.len() == n * n,
            mlen == matrix@.len(),
            state@.len() == n,
            v == vals(state@),
            row <= n,
            result@.len() == row,
            forall|i: int| 0 <= i < row ==> #[trigger] result@[i].val() == row_dot(matrix@, n as nat, i as nat, v, n as nat) % m,
        decreases n - row,
    {
        let mut acc = F::zero();
        let mut col: usize = 0;
        proof {
            vstd::arithmetic::div_mod::lemma_small_mod(0, m as nat);
        }
        while col < n
            invariant
                m == F::modulus(),
                m > 2,
                matrix@.len() == n * n,
                mlen == matrix@.len(),
                state@.len() == n,
                v == vals(state@),
                row < n,
                col <= n,
                acc.val() == row_dot(matrix@, n as nat, row as nat, v, col as nat) % m,
            decreases n - col,
        {
            proof {
                assert(row * n + col < n * n) by (nonlinear_arith)
                    requires
                        row < n,
                        col < n,
                ;
            }
            let c = matrix[row * n + col];
            let s = state[col];
            proof {
                lemma_mul_add_step(
                    row_dot(matrix@, n as nat, row as nat, v, col as nat),
                    c as int,
                    s.val(),
                    m,
                );
            }
            acc = acc.add(F::from_u128(c).mul(s));
            col = col + 1;
        }
        result.push(acc);
        row = row + 1;
    }
    let mut i: usize = 0;
    while i < n
        invariant
            m == F::modulus(),
            result@.len() == n,
            state@.len() == n,
            i <= n,
            forall|k: int| 0 <= k < n ==> #[trigger] result@[k].val() == row_dot(matrix@, n as nat, k as nat, v, n as nat) % m,
            forall|k: int| 0 <= k < i ==> #[trigger] state@[k] == result@[k],
        decreases n - i,
    {
        state[i] = result[i];
        i = i + 1;
    }
    assert(vals(state@) =~= mat_vec(m, matrix@, n as nat, v));
}

/// Raises every lane of `state` to the power `e`.
pub fn apply_power<F: PrimeField>(state: &mut [F], e: u128)
    requires
        e < F::exp_limit(),
    ensures
        final(state)@.len() == old(state)@.len(),
        vals(final(state)@) == power_map(F::modulus(), vals(old(state)@), e as nat),
{
    let ghost v = vals(state@);
    let n = state.len();
    let mut i: usize = 0;
    while i < n
        invariant
            n == state@.len(),
            v.len() == n,
            e < F::exp_limit(),
            i <= n,
            forall|k: int| 0 <= k < i ==> #[trigger] state@[k].val() == pow(v[k], e as nat) % F::modulus(),
            forall|k: int| i <= k < n ==> #[trigger] state@[k].val() == v[k],
        decreases n - i,
    {
        let x = state[i];
        state[i] = x.exp(e);
        i = i + 1;
    }
    assert(vals(state@) =~= power_map(F::modulus(), v, e as nat));
}

/// Adds `c[offset + i]` to lane `i` of `state`, for every lane.
pub fn add_constants<F: PrimeField>(state: &mut [F], c: &[F], offset: usize)
    requires
        offset + old(state)@.len() <= c@.len(),
    ensures
        final(state)@.len() == old(state)@.len(),
        vals(final(state)@) == add_lanes(
            F::modulus(),
            vals(old(state)@),
            vals(c@).subrange(offset as int, offset + old(state)@.len()),
        ),
{
    let ghost v = vals(state@);
    let n = state.len();
    let clen = c.len();
    let mut i: usize = 0;
    while i < n
        invariant
            n == state@.len(),
            v.len() == n,
            offset + n <= c@.len(),
            clen == c@.len(),
            i <= n,
            forall|k: int| 0 <= k < i ==> #[trigger] state@[k].val() == (v[k] + c@[offset + k].val()) % F::modulus(),
            forall|k: int| i <= k < n ==> #[trigger] state@[k].val() == v[k],
        decreases n - i,
    {
        let x = state[i];
        state[i] = x.add(c[offset + i]);
        i = i + 1;
    }
    assert(vals(state@) =~= add_lanes(
        F::modulus(),
        v,
        vals(c@).subrange(offset as int, offset + n),
    ));
}

/// Subtracts `c[offset + i]` from lane `i` of `state`, for every lane.
pub fn sub_constants<F: PrimeField>(state: &mut [F], c: &[F], offset: usize)
    requires
        offset + old(state)@.len() <= c@.len(),
    ensures
        final(state)@.len() == old(state)@.len(),
        vals(final(state)@) == sub_lanes(
            F::modulus(),
            vals(old(state)@),
            vals(c@).subrange(offset as int, offset + old(state)@.len()),
        ),
{
    let ghost v = vals(state@);
    let n = state.len();
    let clen = c.len();
    let mut i: usize = 0;
    while i < n
        invariant
            n == state@.len(),
            v.len() == n,
            offset + n <= c@.len(),
            clen == c@.len(),
            i <= n,
            forall|k: int| 0 <= k < i ==> #[trigger] state@[k].val() == (v[k] - c@[offset + k].val()) % F::modulus(),
            forall|k: int| i <= k < n ==> #[trigger] state@[k].val() == v[k],
        decreases n - i,
    {
        let x = state[i];
        state[i] = x.sub(c[offset + i]);
        i = i + 1;
    }
    assert(vals(state@) =~= sub_lanes(
        F::modulus(),
        v,
        vals(c@).subrange(offset as int, offset + n),
    ));
}

/// `res[i] + flag * (a[i] - b[i])` modulo `m` on the lanes of `a`; the other lanes of `res`
/// are kept.
pub open spec fn accumulate(m: int, res: Seq<int>, flag: int, a: Seq<int>, b: Seq<int>) -> Seq<
    int,
> {
    Seq::new(
        res.len(),
        |i: int| if i < a.len() { (res[i] + flag * (a[i] - b[i])) % m } else { res[i] },
    )
}

pub proof fn lemma_accumulate_step(r: int, f: int, a: int, b: int, m: int)
    requires
        m > 0,
    ensures
        (r + (f * ((a - b) % m)) % m) % m == (r + f * (a - b)) % m,
{
    vstd::arithmetic::div_mod::lemma_mul_mod_noop_right(f, a - b, m);
    vstd::arithmetic::div_mod::lemma_add_mod_noop_right(r, f * (a - b), m);
}

/// Adds `flag * (a[i] - b[i])` to `result[i]` for every lane of `a`.
pub fn accumulate_residuals<F: PrimeField>(result: &mut [F], flag: F, a: &[F], b: &[F])
    requires
        a@.len() == b@.len(),
        a@.len() <= old(result)@.len(),
    ensures
        final(result)@.len() == old(result)@.len(),
        vals(final(result)@) == accumulate(
            F::modulus(),
            vals(old(result)@),
            flag.val(),
            vals(a@),
            vals(b@),
        ),
{
    proof {
        F::lemma_modulus();
    }
    let ghost v = vals(result@);
    let n = a.len();
    let mut i: usize = 0;
    while i < n
        invariant
            F::modulus() > 2,
            n == a@.len(),
            a@.len() == b@.len(),
            n <= result@.len(),
            v.len() == result@.len(),
            i <= n,
            forall|k: int| 0 <= k < i ==> #[trigger] result@[k].val() == (v[k] + flag.val() * (a@[k].val() - b@[k].val())) % F::modulus(),
            forall|k: int| i <= k < result@.len() ==> #[trigger] result@[k].val() == v[k],
        decreases n - i,
    {
        let x = result[i];
        proof {
            lemma_accumulate_step(x.val(), flag.val(), a@[i as int].val(), b@[i as int].val(), F::modulus());
        }
        result[i] = x.add(flag.mul(a[i].sub(b[i])));
        i = i + 1;
    }
    assert(vals(result@) =~= accumulate(F::modulus(), v, flag.val(), vals(a@), vals(b@)));
}

/// Adds `c[i]` to lane `i` of `state` for the first `k` lanes.
pub fn absorb_lanes<F: PrimeField>(state: &mut [F], c: &[F], k: usize)
    requires
        k <= old(state)@.len(),
        k <= c@.len(),
    ensures
        final(state)@.len() == old(state)@.len(),
        vals(final(state)@) == absorb_lanes_spec(F::modulus(), vals(old(state)@), vals(c@).take(k as int)),
{
    let ghost v = vals(state@);
    let n = state.len();
    let mut i: usize = 0;
    while i < k
        invariant
            n == state@.len(),
            v.len() == n,
            k <= n,
            k <= c@.len(),
            i <= k,
            forall|j: int| 0 <= j < i ==> #[trigger] state@[j].val() == (v[j] + c@[j].val()) % F::modulus(),
            forall|j: int| i <= j < n ==> #[trigger] state@[j].val() == v[j],
        decreases k - i,
    {
        let x = state[i];
        state[i] = x.add(c[i]);
        i = i + 1;
    }
    assert(vals(state@) =~= absorb_lanes_spec(F::modulus(), v, vals(c@).take(k as int)));
}

/// `chunk` added onto the first lanes of `s`, modulo `m`; the other lanes are kept.
pub open spec fn absorb_lanes_spec(m: int, s: Seq<int>, chunk: Seq<int>) -> Seq<int> {
    Seq::new(s.len(), |i: int| if i < chunk.len() { (s[i] + chunk[i]) % m } else { s[i] })
}

/// Adds `table[offset + i]`, read as a field element, to lane `i` of `state`, for every lane.
pub fn add_table_constants<F: PrimeField>(state: &mut [F], table: &[u128], offset: usize)
    requires
        offset + old(state)@.len() <= table@.len(),
    ensures
        final(state)@.len() == old(state)@.len(),
        vals(final(state)@) == add_lanes(
            F::modulus(),
            vals(old(state)@),
            table_vals(F::modulus(), table@).subrange(offset as int, offset + old(state)@.len()),
        ),
{
    let ghost v = vals(state@);
    let n = state.len();
    let tlen = table.len();
    let mut i: usize = 0;
    while i < n
        invariant
            n == state@.len(),
            v.len() == n,
            offset + n <= table@.len(),
            tlen == table@.len(),
            i <= n,
            forall|k: int| 0 <= k < i ==> #[trigger] state@[k].val() == (v[k] + (table@[offset + k] as int) % F::modulus()) % F::modulus(),
            forall|k: int| i <= k < n ==> #[trigger] state@[k].val() == v[k],
        decreases n - i,
    {
        let x = state[i];
        state[i] = x.add(F::from_u128(table[offset + i]));
        i = i + 1;
    }
    assert(vals(state@) =~= add_lanes(
        F::modulus(),
        v,
        table_vals(F::modulus(), table@).subrange(offset as int, offset + n),
    ));
}

/// Column `j` of the periodic layout of `table` (`cols` constants per round): the constant of
/// round `i < k` stands at position `(i + shift) % cl`, later rounds overwriting earlier ones,
/// and every other position is zero.
pub open spec fn periodic_column(
    m: int,
    table: Seq<u128>,
    cols: nat,
    j: nat,
    cl: nat,
    shift: nat,
    k: nat,
) -> Seq<int>
    decreases k,
{
    if k == 0 {
        Seq::new(cl, |t: int| 0)
    } else {
        let i = (k - 1) as nat;
        periodic_column(m, table, cols, j, cl, shift, i).update(
            ((i + shift) % cl) as int,
            (table[(i * cols + j) as int] as int) % m,
        )
    }
}

/// The constants of `table` (`cols` per round, `rounds` rounds) laid out in `cols` columns of
/// length `cycle_length`, the constant of round `i` at position `(i + shift) % cycle_length`.
pub fn periodic_columns<F: PrimeField>(
    table: &[u128],
    cols: usize,
    rounds: usize,
    cycle_length: usize,
    shift: usize,
) -> (r: Vec<Vec<F>>)
    requires
        table@.len() == rounds * cols,
        cycle_length > 0,
        shift + rounds <= usize::MAX,
    ensures
        r@.len() == cols,
        forall|j: int|
            0 <= j < cols ==> vals(#[trigger] r@[j]@) == periodic_column(
                F::modulus(),
                table@,
                cols as nat,
                j as nat,
                cycle_length as nat,
                shift as nat,
                rounds as nat,
            ),
{
    proof {
        F::lemma_modulus();
    }
    let ghost m = F::modulus();
    let tlen = table.len();
    let mut out: Vec<Vec<F>> = Vec::new();
    let mut j: usize = 0;
    while j < cols
        invariant
            m == F::modulus(),
            table@.len() == rounds * cols,
            tlen == table@.len(),
            cycle_length > 0,
            shift + rounds <= usize::MAX,
            j <= cols,
            out@.len() == j,
            forall|q: int|
                0 <= q < j ==> vals(#[trigger] out@[q]@) == periodic_column(
                    m,
                    table@,
                    cols as nat,
                    q as nat,
                    cycle_length as nat,
                    shift as nat,
                    rounds as nat,
                ),
        decreases cols - j,
    {
        let mut col: Vec<F> = Vec::new();
        let mut t: usize = 0;
        while t < cycle_length
            invariant
                t <= cycle_length,
                col@.len() == t,
                forall|q: int| 0 <= q < t ==> #[trigger] col@[q].val() == 0,
            decreases cycle_length - t,
        {
            col.push(F::zero());
            t = t + 1;
        }
        assert(vals(col@) =~= periodic_column(
            m,
            table@,
            cols as nat,
            j as nat,
            cycle_length as nat,
            shift as nat,
            0,
        ));
        let mut i: usize = 0;
        while i < rounds
            invariant
                m == F::modulus(),
                table@.len() == rounds * cols,
                tlen == table@.len(),
                cycle_length > 0,
                shift + rounds <= usize::MAX,
                j < cols,
                i <= rounds,
                col@.len() == cycle_length,
                vals(col@) == periodic_column(
                    m,
                    table@,
                    cols as nat,
                    j as nat,
                    cycle_length as nat,
                    shift as nat,
                    i as nat,
                ),
            decreases rounds - i,
        {
            proof {
                assert(i * cols + j < rounds * cols) by (nonlinear_arith)
                    requires
                        i < rounds,
                        j < cols,
                ;
            }
            let pos = (i + shift) % cycle_length;
            let x = F::from_u128(table[i * cols + j]);
            let ghost before = vals(col@);
            col[pos] = x;
            proof {
                assert(vals(col@) =~= before.update(pos as int, (table@[i * cols + j] as int) % m));
            }
            i = i + 1;
        }
        out.push(col);
        j = j + 1;
    }
    out
}

/// The vector of `n` zeros.
pub open spec fn zeros(n: nat) -> Seq<int> {
    Seq::new(n, |i: int| 0)
}

/// Multiplying by `a` undoes multiplying by `b`, on every vector of `n` residues modulo `m`.
pub open spec fn undoes(m: int, a: Seq<u128>, b: Seq<u128>, n: nat) -> bool {
    forall|v: Seq<int>|
        v.len() == n && canonical_seq(v, m) ==> #[trigger] mat_vec(m, a, n, mat_vec(m, b, n, v))
            == v
}

/// Raising to `e1` and then to `e2` gives back every residue modulo `m`.
pub open spec fn exp_undoes(m: int, e1: nat, e2: nat) -> bool {
    forall|x: int| 0 <= x < m ==> #[trigger] (pow(pow(x, e1) % m, e2) % m) == x
}

/// Fermat's little theorem for `m`: every nonzero residue raised to `m - 1` is one. It holds
/// exactly when `m` is prime.
pub open spec fn fermat(m: int) -> bool {
    forall|x: int| 0 < x < m ==> #[trigger] (pow(x, (m - 1) as nat) % m) == 1
}

proof fn lemma_exp_undoes_one_way(m: int, a: nat, b: nat, x: int)
    requires
        m > 2,
        fermat(m),
        ((a * b) as int) % (m - 1) == 1,
        0 <= x < m,
    ensures
        pow(pow(x, a) % m, b) % m == x,
{
    let e = a * b;
    vstd::arithmetic::power::lemma_pow_mod_noop(pow(x, a), b, m);
    vstd::arithmetic::power::lemma_pow_multiplies(x, a, b);
    let k = (e as int) / (m - 1);
    vstd::arithmetic::div_mod::lemma_fundamental_div_mod(e as int, m - 1);
    assert(e == (m - 1) * k + 1);
    assert(k >= 0) by (nonlinear_arith)
        requires
            e == (m - 1) * k + 1,
            e >= 0,
            m > 2,
    ;
    let kn = k as nat;
    assert(((m - 1) as nat) * kn == (m - 1) * k);
    vstd::arithmetic::power::lemma_pow_adds(x, ((m - 1) as nat) * kn, 1);
    vstd::arithmetic::power::lemma_pow_multiplies(x, (m - 1) as nat, kn);
    vstd::arithmetic::power::lemma_pow1(x);
    assert(pow(x, e) == pow(pow(x, (m - 1) as nat), kn) * x);
    if x == 0 {
        vstd::arithmetic::power::lemma0_pow(e);
        assert(e >= 1);
        vstd::arithmetic::div_mod::lemma_small_mod(0, m as nat);
    } else {
        let y = pow(x, (m - 1) as nat);
        assert(y % m == 1);
        vstd::arithmetic::power::lemma_pow_mod_noop(y, kn, m);
        vstd::arithmetic::power::lemma1_pow(kn);
        vstd::arithmetic::div_mod::lemma_small_mod(1, m as nat);
        assert(pow(y, kn) % m == 1);
        vstd::arithmetic::div_mod::lemma_mul_mod_noop_left(pow(y, kn), x, m);
        vstd::arithmetic::div_mod::lemma_small_mod(x as nat, m as nat);
    }
}

/// Exponents whose product is one modulo `m - 1` undo each other, both ways, modulo `m`
/// wherever Fermat's little theorem holds for `m`.
pub proof fn lemma_exponents_invert(m: int, a: nat, b: nat)
    requires
        m > 2,
        fermat(m),
        ((a * b) as int) % (m - 1) == 1,
    ensures
        exp_undoes(m, a, b),
        exp_undoes(m, b, a),
{
    assert forall|x: int| 0 <= x < m implies #[trigger] (pow(pow(x, a) % m, b) % m) == x by {
        lemma_exp_undoes_one_way(m, a, b, x);
    }
    assert forall|x: int| 0 <= x < m implies #[trigger] (pow(pow(x, b) % m, a) % m) == x by {
        assert(b * a == a * b) by (nonlinear_arith);
        lemma_exp_undoes_one_way(m, b, a, x);
    }
}

pub proof fn lemma_mat_vec_canonical(m: int, mat: Seq<u128>, n: nat, v: Seq<int>)
    requires
        m > 0,
    ensures
        mat_vec(m, mat, n, v).len() == n,
        canonical_seq(mat_vec(m, mat, n, v), m),
{
    assert forall|i: int| 0 <= i < n implies 0 <= #[trigger] mat_vec(m, mat, n, v)[i] < m by {
        vstd::arithmetic::div_mod::lemma_mod_bound(row_dot(mat, n, i as nat, v, n), m);
    }
}

pub proof fn lemma_add_lanes_canonical(m: int, v: Seq<int>, c: Seq<int>)
    requires
        m > 0,
    ensures
        canonical_seq(add_lanes(m, v, c), m),
{
    assert forall|i: int| 0 <= i < v.len() implies 0 <= #[trigger] add_lanes(m, v, c)[i] < m by {
        vstd::arithmetic::div_mod::lemma_mod_bound(v[i] + c[i], m);
    }
}

pub proof fn lemma_power_map_canonical(m: int, v: Seq<int>, e: nat)
    requires
        m > 0,
    ensures
        canonical_seq(power_map(m, v, e), m),
{
    assert forall|i: int| 0 <= i < v.len() implies 0 <= #[trigger] power_map(m, v, e)[i] < m by {
        vstd::arithmetic::div_mod::lemma_mod_bound(pow(v[i], e), m);
    }
}

/// Taking off constants that were just added gives back a vector of residues.
pub proof fn lemma_sub_add_cancel(m: int, w: Seq<int>, c: Seq<int>)
    requires
        m > 0,
        c.len() == w.len(),
        canonical_seq(w, m),
    ensures
        sub_lanes(m, add_lanes(m, w, c), c) == w,
{
    assert forall|i: int| 0 <= i < w.len() implies #[trigger] sub_lanes(m, add_lanes(m, w, c), c)[i] == w[i] by {
        let a = (w[i] + c[i]) % m;
        vstd::arithmetic::div_mod::lemma_sub_mod_noop(a, c[i], m);
        vstd::arithmetic::div_mod::lemma_mod_twice(w[i] + c[i], m);
        vstd::arithmetic::div_mod::lemma_sub_mod_noop(w[i] + c[i], c[i], m);
        vstd::arithmetic::div_mod::lemma_small_mod(w[i] as nat, m as nat);
    }
    assert(sub_lanes(m, add_lanes(m, w, c), c) =~= w);
}

/// The power map by `e2` undoes the power map by `e1` where the exponents undo each other.
pub proof fn lemma_power_map_undo(m: int, v: Seq<int>, e1: nat, e2: nat)
    requires
        m > 0,
        canonical_seq(v, m),
        exp_undoes(m, e1, e2),
    ensures
        power_map(m, power_map(m, v, e1), e2) == v,
{
    assert forall|i: int| 0 <= i < v.len() implies #[trigger] power_map(m, power_map(m, v, e1), e2)[i] == v[i] by {
        assert(pow(pow(v[i], e1) % m, e2) % m == v[i]);
    }
    assert(power_map(m, power_map(m, v, e1), e2) =~= v);
}

/// With a zero flag, accumulating leaves the residual vector as it was, whatever the states.
pub proof fn lemma_accumulate_zero_flag(m: int, res: Seq<int>, a: Seq<int>, b: Seq<int>)
    requires
        m > 0,
        canonical_seq(res, m),
    ensures
        accumulate(m, res, 0, a, b) == res,
{
    assert forall|i: int| 0 <= i < res.len() implies #[trigger] accumulate(m, res, 0, a, b)[i] == res[i] by {
        vstd::arithmetic::div_mod::lemma_small_mod(res[i] as nat, m as nat);
    }
    assert(accumulate(m, res, 0, a, b) =~= res);
}

/// Accumulating the difference of a vector with itself leaves zeros at zero.
pub proof fn lemma_accumulate_equal(m: int, flag: int, a: Seq<int>)
    requires
        m > 0,
    ensures
        accumulate(m, zeros(a.len()), flag, a, a) == zeros(a.len()),
{
    assert forall|i: int| 0 <= i < a.len() implies #[trigger] accumulate(m, zeros(a.len()), flag, a, a)[i] == 0 by {
        assert(0 + flag * (a[i] - a[i]) == 0) by (nonlinear_arith);
        vstd::arithmetic::div_mod::lemma_small_mod(0, m as nat);
    }
    assert(accumulate(m, zeros(a.len()), flag, a, a) =~= zeros(a.len()));
}

pub proof fn lemma_sub_lanes_canonical(m: int, v: Seq<int>, c: Seq<int>)
    requires
        m > 0,
    ensures
        canonical_seq(sub_lanes(m, v, c), m),
{
    assert forall|i: int| 0 <= i < v.len() implies 0 <= #[trigger] sub_lanes(m, v, c)[i] < m by {
        vstd::arithmetic::div_mod::lemma_mod_bound(v[i] - c[i], m);
    }
}

/// The power map by `e1` is one-to-one on residues where raising to `e2` undoes it.
pub proof fn lemma_power_map_injective(m: int, u: Seq<int>, v: Seq<int>, e1: nat, e2: nat)
    requires
        m > 0,
        u.len() == v.len(),
        canonical_seq(u, m),
        canonical_seq(v, m),
        exp_undoes(m, e1, e2),
        power_map(m, u, e1) == power_map(m, v, e1),
    ensures
        u == v,
{
    assert forall|i: int| 0 <= i < u.len() implies u[i] == v[i] by {
        let a = pow(u[i], e1) % m;
        let b = pow(v[i], e1) % m;
        assert(power_map(m, u, e1)[i] == a);
        assert(power_map(m, v, e1)[i] == b);
        assert(a == b);
        assert(0 <= u[i] < m);
        assert(0 <= v[i] < m);
        assert(pow(pow(u[i], e1) % m, e2) % m == u[i]);
        assert(pow(pow(v[i], e1) % m, e2) % m == v[i]);
    }
    assert(u =~= v);
}

/// Multiplying by `b` is one-to-one on residues where multiplying by `a` undoes it.
pub proof fn lemma_mat_vec_injective(m: int, a: Seq<u128>, b: Seq<u128>, n: nat, u: Seq<int>, v: Seq<int>)
    requires
        u.len() == n,
        v.len() == n,
        canonical_seq(u, m),
        canonical_seq(v, m),
        undoes(m, a, b, n),
        mat_vec(m, b, n, u) == mat_vec(m, b, n, v),
    ensures
        u == v,
{
    assert(mat_vec(m, a, n, mat_vec(m, b, n, u)) == u);
    assert(mat_vec(m, a, n, mat_vec(m, b, n, v)) == v);
}

/// Taking off the same constants is one-to-one on residues.
pub proof fn lemma_sub_lanes_injective(m: int, u: Seq<int>, v: Seq<int>, c: Seq<int>)
    requires
        m > 0,
        u.len() == v.len(),
        c.len() == u.len(),
        canonical_seq(u, m),
        canonical_seq(v, m),
        sub_lanes(m, u, c) == sub_lanes(m, v, c),
    ensures
        u == v,
{
    assert forall|i: int| 0 <= i < u.len() implies u[i] == v[i] by {
        assert(sub_lanes(m, u, c)[i] == sub_lanes(m, v, c)[i]);
        assert(sub_lanes(m, u, c)[i] == (u[i] - c[i]) % m);
        assert(sub_lanes(m, v, c)[i] == (v[i] - c[i]) % m);
        assert(0 <= u[i] < m);
        assert(0 <= v[i] < m);
        vstd::arithmetic::div_mod::lemma_add_mod_noop(u[i] - c[i], c[i], m);
        vstd::arithmetic::div_mod::lemma_add_mod_noop(v[i] - c[i], c[i], m);
        vstd::arithmetic::div_mod::lemma_mod_twice(u[i] - c[i], m);
        vstd::arithmetic::div_mod::lemma_mod_twice(v[i] - c[i], m);
        vstd::arithmetic::div_mod::lemma_small_mod(u[i] as nat, m as nat);
        vstd::arithmetic::div_mod::lemma_small_mod(v[i] as nat, m as nat);
        assert((u[i] - c[i]) + c[i] == u[i]);
        assert((v[i] - c[i]) + c[i] == v[i]);
    }
    assert(u =~= v);
}

/// If accumulating the difference of two vectors of residues with flag one leaves zeros at
/// zero, the vectors are equal.
pub proof fn lemma_accumulate_zero_equal(m: int, a: Seq<int>, b: Seq<int>)
    requires
        m > 0,
        a.len() == b.len(),
        canonical_seq(a, m),
        canonical_seq(b, m),
        accumulate(m, zeros(a.len()), 1, a, b) == zeros(a.len()),
    ensures
        a == b,
{
    assert forall|i: int| 0 <= i < a.len() implies a[i] == b[i] by {
        assert(accumulate(m, zeros(a.len()), 1, a, b)[i] == 0);
        let x = a[i] - b[i];
        assert((0 + 1 * x) % m == 0);
        assert(0 + 1 * x == x);
        vstd::arithmetic::div_mod::lemma_fundamental_div_mod(x, m);
        let q = x / m;
        assert(x == 0) by (nonlinear_arith)
            requires
                x == m * q,
                -m < x < m,
                m > 0,
        ;
    }
    assert(a =~= b);
}

/// The elements of `v` as an array of its length.
pub fn to_array<F: PrimeField, const N: usize>(v: &Vec<F>) -> (r: [F; N])
    requires
        v@.len() == N,
    ensures
        r@ == v@,
{
    let mut out = [F::zero(); N];
    let mut i: usize = 0;
    while i < N
        invariant
            v@.len() == N,
            i <= N,
            forall|k: int| 0 <= k < i ==> #[trigger] out@[k] == v@[k],
        decreases N - i,
    {
        out[i] = v[i];
        i = i + 1;
    }
    assert(out@ =~= v@);
    out
}

} // verus!

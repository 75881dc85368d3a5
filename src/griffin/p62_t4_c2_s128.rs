//! Griffin over the 62-bit prime field (modulus `MODULUS_62`): width 4, capacity 2, 12 rounds, exponent 3,
//! security of at least 128 bits.

use vstd::prelude::*;
use crate::field::{Felt62, PrimeField, canonical_seq, vals};
use crate::griffin::{
    GriffinParams, hash_spec, lemma_first_round_constraints_vanish, lemma_round_constraints_vanish,
    nonlinear_residuals, permutation_spec, recovered, round_spec,
};
use crate::layers::{
    absorb_lanes_spec, exp_undoes, fermat, lemma_exponents_invert, mat_vec, periodic_column,
    to_array, zeros, undoes,
};
use crate::matrix::{
    identity_row, identity_rows, lemma_identity_rows, lemma_product_identity_undoes, product_entry,
    product_is_identity, sum,
};

verus! {

pub type Elem = Felt62;

pub const NUM_ROUNDS: usize = 12;
pub const STATE_WIDTH: usize = 4;
pub const CAPACITY: usize = 2;
pub const RATE: usize = STATE_WIDTH - CAPACITY;

/// The exponent applied to lane 0.
pub const D: u128 = 3;

/// The exponent applied to lane 1: the inverse of `D` modulo the prime minus one.
pub const INV_D: u128 = 3074416663688030891;

/// The mixing matrix, row-major.
pub const MAT: [u128; 16] = [
    3, 2, 1,
    1, 1, 3,
    2, 1, 1,
    1, 3, 2,
    2, 1, 1,
    3,
];

/// The inverse of `MAT`, row-major.
pub const INV_MAT: [u128; 16] = [
    3162257139793403203, 395282142474175400, 4084582138899812470,
    2239932140686993935, 2239932140686993935, 3162257139793403203,
    395282142474175400, 4084582138899812470, 4084582138899812470,
    2239932140686993935, 3162257139793403203, 395282142474175400,
    395282142474175400, 4084582138899812470, 2239932140686993935,
    3162257139793403203,
];

/// `STATE_WIDTH` constants per round.
pub const ROUND_CONSTANTS: [u128; 48] = [
    3158844352288017369, 1195317911825411486, 4608205121057886279,
    4008181692568088186, 1017954942371112343, 1040939723347347663,
    3439273042787950109, 2938341972827614785, 1054982074439128355,
    3378941598864555180, 2655968627444521873, 3496395394053647545,
    3224656810721129303, 1409457225689559228, 399784346908802669,
    2246468338867711618, 2416421687084831339, 3428136709650469831,
    4074697826219704129, 1883685086274227575, 4534624711249925081,
    2432723871866042896, 2124532709347037506, 2661205267268058692,
    4131330586801945043, 4317709368381444920, 1311980128349755585,
    3894459409720878477, 1273089151069727973, 2754117850078380637,
    4155398919935078309, 1602817949587807433, 3483922029577050900,
    4086381296415431721, 3694431514100124504, 284397335042238801,
    1914738171044430233, 4367396245930867973, 1228756722162514976,
    3985334418783874519, 1881353522970783983, 1439406162131278831,
    4032157944401576016, 2333963439210464894, 0,
    0, 0, 0,
];

/// The linear coefficients of the quadratic on lanes from 2 on.
pub const ALPHAS: [u128; 4] = [
    0, 0, 3778590617795793098,
    2945556240059539859,
];

/// The constant coefficients of the quadratic on lanes from 2 on.
pub const BETAS: [u128; 4] = [
    0, 0, 1936179684747344016,
    3133093743457329727,
];

/// The coefficients of the linear form of lanes 0 and 1.
pub const LAMBDAS: [u128; 2] = [
    1342015051341116620, 2353927619244796484,
];

/// This instance's constants.
pub open spec fn spec_params() -> GriffinParams {
    GriffinParams {
        width: STATE_WIDTH,
        capacity: CAPACITY,
        rounds: NUM_ROUNDS,
        d: D,
        inv_d: INV_D,
        mat: &MAT,
        inv_mat: &INV_MAT,
        round_constants: &ROUND_CONSTANTS,
        alphas: &ALPHAS,
        betas: &BETAS,
        lambdas: &LAMBDAS,
    }
}

/// This instance's constants.
pub fn params() -> (r: GriffinParams)
    ensures
        r == spec_params(),
        r.wf(),
{
    GriffinParams {
        width: STATE_WIDTH,
        capacity: CAPACITY,
        rounds: NUM_ROUNDS,
        d: D,
        inv_d: INV_D,
        mat: &MAT,
        inv_mat: &INV_MAT,
        round_constants: &ROUND_CONSTANTS,
        alphas: &ALPHAS,
        betas: &BETAS,
        lambdas: &LAMBDAS,
    }
}

/// The exponents `D` and `INV_D` undo each other, both ways, on every residue, wherever
/// Fermat's little theorem holds for the modulus.
pub proof fn lemma_exponents_undo()
    requires
        fermat(Elem::modulus()),
    ensures
        exp_undoes(Elem::modulus(), D as nat, INV_D as nat),
        exp_undoes(Elem::modulus(), INV_D as nat, D as nat),
{
    lemma_exponents_invert(Elem::modulus(), D as nat, INV_D as nat);
}

/// With flag one, the constraints of round `r` vanish on every state of residues and the
/// state that the round makes of it (mixed once more first when `r` is a first round),
/// wherever Fermat's little theorem holds for the modulus.
pub proof fn lemma_constraints_vanish(cur: Seq<int>, r: nat)
    requires
        cur.len() == STATE_WIDTH,
        canonical_seq(cur, Elem::modulus()),
        fermat(Elem::modulus()),
    ensures
        r % (NUM_ROUNDS as nat) != 0 ==> nonlinear_residuals(
            spec_params(),
            Elem::modulus(),
            zeros(STATE_WIDTH as nat),
            cur,
            recovered(
                spec_params(),
                Elem::modulus(),
                round_spec(spec_params(), Elem::modulus(), cur, r),
                spec_params().round_consts(Elem::modulus(), r % (NUM_ROUNDS as nat)),
            ),
            1,
        ) == zeros(STATE_WIDTH as nat),
        r % (NUM_ROUNDS as nat) == 0 ==> nonlinear_residuals(
            spec_params(),
            Elem::modulus(),
            zeros(STATE_WIDTH as nat),
            mat_vec(Elem::modulus(), MAT@, STATE_WIDTH as nat, cur),
            recovered(
                spec_params(),
                Elem::modulus(),
                round_spec(spec_params(), Elem::modulus(), cur, r),
                spec_params().round_consts(Elem::modulus(), r % (NUM_ROUNDS as nat)),
            ),
            1,
        ) == zeros(STATE_WIDTH as nat),
{
    lemma_matrices_invert();
    lemma_exponents_invert(Elem::modulus(), D as nat, INV_D as nat);
    if r % (NUM_ROUNDS as nat) != 0 {
        lemma_round_constraints_vanish(spec_params(), Elem::modulus(), cur, r);
    } else {
        lemma_first_round_constraints_vanish(spec_params(), Elem::modulus(), cur, r);
    }
}

/// With flag one, the constraints of round `r` do not all vanish on a state and any state of
/// residues other than the one that the round makes of it, wherever Fermat's little theorem
/// holds for the modulus.
pub proof fn lemma_wrong_next_detected(cur: Seq<int>, other: Seq<int>, r: nat)
    requires
        cur.len() == STATE_WIDTH,
        other.len() == STATE_WIDTH,
        canonical_seq(other, Elem::modulus()),
        other != round_spec(spec_params(), Elem::modulus(), cur, r),
        fermat(Elem::modulus()),
    ensures
        nonlinear_residuals(
            spec_params(),
            Elem::modulus(),
            zeros(STATE_WIDTH as nat),
            if r % (NUM_ROUNDS as nat) == 0 {
                mat_vec(Elem::modulus(), MAT@, STATE_WIDTH as nat, cur)
            } else {
                cur
            },
            recovered(
                spec_params(),
                Elem::modulus(),
                other,
                spec_params().round_consts(Elem::modulus(), r % (NUM_ROUNDS as nat)),
            ),
            1,
        ) != zeros(STATE_WIDTH as nat),
{
    lemma_matrices_invert();
    lemma_exponents_invert(Elem::modulus(), D as nat, INV_D as nat);
    crate::griffin::lemma_wrong_next_detected(spec_params(), Elem::modulus(), cur, other, r);
}

/// The mixing matrix and its inverse undo each other on every vector of residues.
pub proof fn lemma_matrices_invert()
    ensures
        undoes(Elem::modulus(), MAT@, INV_MAT@, STATE_WIDTH as nat),
        undoes(Elem::modulus(), INV_MAT@, MAT@, STATE_WIDTH as nat),
{
    lemma_product_forward();
    lemma_product_backward();
    lemma_product_identity_undoes(Elem::modulus(), MAT@, INV_MAT@, STATE_WIDTH as nat);
    lemma_product_identity_undoes(Elem::modulus(), INV_MAT@, MAT@, STATE_WIDTH as nat);
}

proof fn lemma_product_forward_row_0()
    ensures
        identity_row(Elem::modulus(), MAT@, INV_MAT@, 4, 0, 4),
{
    reveal_with_fuel(sum, 5);
    reveal_with_fuel(identity_row, 5);
    assert(product_entry(MAT@, INV_MAT@, 4, 0, 0) == (MAT@[0] as int) * (INV_MAT@[0] as int) + (MAT@[1] as int) * (INV_MAT@[4] as int) + (MAT@[2] as int) * (INV_MAT@[8] as int) + (MAT@[3] as int) * (INV_MAT@[12] as int));
    assert(((MAT@[0] as int) * (INV_MAT@[0] as int) + (MAT@[1] as int) * (INV_MAT@[4] as int) + (MAT@[2] as int) * (INV_MAT@[8] as int) + (MAT@[3] as int) * (INV_MAT@[12] as int)) % 4611624995532046337 == 1) by (nonlinear_arith)
        requires
            MAT@[0] == 3, MAT@[1] == 2, MAT@[2] == 1, MAT@[3] == 1, INV_MAT@[0] == 3162257139793403203, INV_MAT@[4] == 2239932140686993935, INV_MAT@[8] == 4084582138899812470, INV_MAT@[12] == 395282142474175400,
    ;
    assert(product_entry(MAT@, INV_MAT@, 4, 0, 1) == (MAT@[0] as int) * (INV_MAT@[1] as int) + (MAT@[1] as int) * (INV_MAT@[5] as int) + (MAT@[2] as int) * (INV_MAT@[9] as int) + (MAT@[3] as int) * (INV_MAT@[13] as int));
    assert(((MAT@[0] as int) * (INV_MAT@[1] as int) + (MAT@[1] as int) * (INV_MAT@[5] as int) + (MAT@[2] as int) * (INV_MAT@[9] as int) + (MAT@[3] as int) * (INV_MAT@[13] as int)) % 4611624995532046337 == 0) by (nonlinear_arith)
        requires
            MAT@[0] == 3, MAT@[1] == 2, MAT@[2] == 1, MAT@[3] == 1, INV_MAT@[1] == 395282142474175400, INV_MAT@[5] == 3162257139793403203, INV_MAT@[9] == 2239932140686993935, INV_MAT@[13] == 4084582138899812470,
    ;
    assert(product_entry(MAT@, INV_MAT@, 4, 0, 2) == (MAT@[0] as int) * (INV_MAT@[2] as int) + (MAT@[1] as int) * (INV_MAT@[6] as int) + (MAT@[2] as int) * (INV_MAT@[10] as int) + (MAT@[3] as int) * (INV_MAT@[14] as int));
    assert(((MAT@[0] as int) * (INV_MAT@[2] as int) + (MAT@[1] as int) * (INV_MAT@[6] as int) + (MAT@[2] as int) * (INV_MAT@[10] as int) + (MAT@[3] as int) * (INV_MAT@[14] as int)) % 4611624995532046337 == 0) by (nonlinear_arith)
        requires
            MAT@[0] == 3, MAT@[1] == 2, MAT@[2] == 1, MAT@[3] == 1, INV_MAT@[2] == 4084582138899812470, INV_MAT@[6] == 395282142474175400, INV_MAT@[10] == 3162257139793403203, INV_MAT@[14] == 2239932140686993935,
    ;
    assert(product_entry(MAT@, INV_MAT@, 4, 0, 3) == (MAT@[0] as int) * (INV_MAT@[3] as int) + (MAT@[1] as int) * (INV_MAT@[7] as int) + (MAT@[2] as int) * (INV_MAT@[11] as int) + (MAT@[3] as int) * (INV_MAT@[15] as int));
    assert(((MAT@[0] as int) * (INV_MAT@[3] as int) + (MAT@[1] as int) * (INV_MAT@[7] as int) + (MAT@[2] as int) * (INV_MAT@[11] as int) + (MAT@[3] as int) * (INV_MAT@[15] as int)) % 4611624995532046337 == 0) by (nonlinear_arith)
        requires
            MAT@[0] == 3, MAT@[1] == 2, MAT@[2] == 1, MAT@[3] == 1, INV_MAT@[3] == 2239932140686993935, INV_MAT@[7] == 4084582138899812470, INV_MAT@[11] == 395282142474175400, INV_MAT@[15] == 3162257139793403203,
    ;
}

proof fn lemma_product_forward_row_1()
    ensures
        identity_row(Elem::modulus(), MAT@, INV_MAT@, 4, 1, 4),
{
    reveal_with_fuel(sum, 5);
    reveal_with_fuel(identity_row, 5);
    assert(product_entry(MAT@, INV_MAT@, 4, 1, 0) == (MAT@[4] as int) * (INV_MAT@[0] as int) + (MAT@[5] as int) * (INV_MAT@[4] as int) + (MAT@[6] as int) * (INV_MAT@[8] as int) + (MAT@[7] as int) * (INV_MAT@[12] as int));
    assert(((MAT@[4] as int) * (INV_MAT@[0] as int) + (MAT@[5] as int) * (INV_MAT@[4] as int) + (MAT@[6] as int) * (INV_MAT@[8] as int) + (MAT@[7] as int) * (INV_MAT@[12] as int)) % 4611624995532046337 == 0) by (nonlinear_arith)
        requires
            MAT@[4] == 1, MAT@[5] == 3, MAT@[6] == 2, MAT@[7] == 1, INV_MAT@[0] == 3162257139793403203, INV_MAT@[4] == 2239932140686993935, INV_MAT@[8] == 4084582138899812470, INV_MAT@[12] == 395282142474175400,
    ;
    assert(product_entry(MAT@, INV_MAT@, 4, 1, 1) == (MAT@[4] as int) * (INV_MAT@[1] as int) + (MAT@[5] as int) * (INV_MAT@[5] as int) + (MAT@[6] as int) * (INV_MAT@[9] as int) + (MAT@[7] as int) * (INV_MAT@[13] as int));
    assert(((MAT@[4] as int) * (INV_MAT@[1] as int) + (MAT@[5] as int) * (INV_MAT@[5] as int) + (MAT@[6] as int) * (INV_MAT@[9] as int) + (MAT@[7] as int) * (INV_MAT@[13] as int)) % 4611624995532046337 == 1) by (nonlinear_arith)
        requires
            MAT@[4] == 1, MAT@[5] == 3, MAT@[6] == 2, MAT@[7] == 1, INV_MAT@[1] == 395282142474175400, INV_MAT@[5] == 3162257139793403203, INV_MAT@[9] == 2239932140686993935, INV_MAT@[13] == 4084582138899812470,
    ;
    assert(product_entry(MAT@, INV_MAT@, 4, 1, 2) == (MAT@[4] as int) * (INV_MAT@[2] as int) + (MAT@[5] as int) * (INV_MAT@[6] as int) + (MAT@[6] as int) * (INV_MAT@[10] as int) + (MAT@[7] as int) * (INV_MAT@[14] as int));
    assert(((MAT@[4] as int) * (INV_MAT@[2] as int) + (MAT@[5] as int) * (INV_MAT@[6] as int) + (MAT@[6] as int) * (INV_MAT@[10] as int) + (MAT@[7] as int) * (INV_MAT@[14] as int)) % 4611624995532046337 == 0) by (nonlinear_arith)
        requires
            MAT@[4] == 1, MAT@[5] == 3, MAT@[6] == 2, MAT@[7] == 1, INV_MAT@[2] == 4084582138899812470, INV_MAT@[6] == 395282142474175400, INV_MAT@[10] == 3162257139793403203, INV_MAT@[14] == 2239932140686993935,
    ;
    assert(product_entry(MAT@, INV_MAT@, 4, 1, 3) == (MAT@[4] as int) * (INV_MAT@[3] as int) + (MAT@[5] as int) * (INV_MAT@[7] as int) + (MAT@[6] as int) * (INV_MAT@[11] as int) + (MAT@[7] as int) * (INV_MAT@[15] as int));
    assert(((MAT@[4] as int) * (INV_MAT@[3] as int) + (MAT@[5] as int) * (INV_MAT@[7] as int) + (MAT@[6] as int) * (INV_MAT@[11] as int) + (MAT@[7] as int) * (INV_MAT@[15] as int)) % 4611624995532046337 == 0) by (nonlinear_arith)
        requires
            MAT@[4] == 1, MAT@[5] == 3, MAT@[6] == 2, MAT@[7] == 1, INV_MAT@[3] == 2239932140686993935, INV_MAT@[7] == 4084582138899812470, INV_MAT@[11] == 395282142474175400, INV_MAT@[15] == 3162257139793403203,
    ;
}

proof fn lemma_product_forward_row_2()
    ensures
        identity_row(Elem::modulus(), MAT@, INV_MAT@, 4, 2, 4),
{
    reveal_with_fuel(sum, 5);
    reveal_with_fuel(identity_row, 5);
    assert(product_entry(MAT@, INV_MAT@, 4, 2, 0) == (MAT@[8] as int) * (INV_MAT@[0] as int) + (MAT@[9] as int) * (INV_MAT@[4] as int) + (MAT@[10] as int) * (INV_MAT@[8] as int) + (MAT@[11] as int) * (INV_MAT@[12] as int));
    assert(((MAT@[8] as int) * (INV_MAT@[0] as int) + (MAT@[9] as int) * (INV_MAT@[4] as int) + (MAT@[10] as int) * (INV_MAT@[8] as int) + (MAT@[11] as int) * (INV_MAT@[12] as int)) % 4611624995532046337 == 0) by (nonlinear_arith)
        requires
            MAT@[8] == 1, MAT@[9] == 1, MAT@[10] == 3, MAT@[11] == 2, INV_MAT@[0] == 3162257139793403203, INV_MAT@[4] == 2239932140686993935, INV_MAT@[8] == 4084582138899812470, INV_MAT@[12] == 395282142474175400,
    ;
    assert(product_entry(MAT@, INV_MAT@, 4, 2, 1) == (MAT@[8] as int) * (INV_MAT@[1] as int) + (MAT@[9] as int) * (INV_MAT@[5] as int) + (MAT@[10] as int) * (INV_MAT@[9] as int) + (MAT@[11] as int) * (INV_MAT@[13] as int));
    assert(((MAT@[8] as int) * (INV_MAT@[1] as int) + (MAT@[9] as int) * (INV_MAT@[5] as int) + (MAT@[10] as int) * (INV_MAT@[9] as int) + (MAT@[11] as int) * (INV_MAT@[13] as int)) % 4611624995532046337 == 0) by (nonlinear_arith)
        requires
            MAT@[8] == 1, MAT@[9] == 1, MAT@[10] == 3, MAT@[11] == 2, INV_MAT@[1] == 395282142474175400, INV_MAT@[5] == 3162257139793403203, INV_MAT@[9] == 2239932140686993935, INV_MAT@[13] == 4084582138899812470,
    ;
    assert(product_entry(MAT@, INV_MAT@, 4, 2, 2) == (MAT@[8] as int) * (INV_MAT@[2] as int) + (MAT@[9] as int) * (INV_MAT@[6] as int) + (MAT@[10] as int) * (INV_MAT@[10] as int) + (MAT@[11] as int) * (INV_MAT@[14] as int));
    assert(((MAT@[8] as int) * (INV_MAT@[2] as int) + (MAT@[9] as int) * (INV_MAT@[6] as int) + (MAT@[10] as int) * (INV_MAT@[10] as int) + (MAT@[11] as int) * (INV_MAT@[14] as int)) % 4611624995532046337 == 1) by (nonlinear_arith)
        requires
            MAT@[8] == 1, MAT@[9] == 1, MAT@[10] == 3, MAT@[11] == 2, INV_MAT@[2] == 4084582138899812470, INV_MAT@[6] == 395282142474175400, INV_MAT@[10] == 3162257139793403203, INV_MAT@[14] == 2239932140686993935,
    ;
    assert(product_entry(MAT@, INV_MAT@, 4, 2, 3) == (MAT@[8] as int) * (INV_MAT@[3] as int) + (MAT@[9] as int) * (INV_MAT@[7] as int) + (MAT@[10] as int) * (INV_MAT@[11] as int) + (MAT@[11] as int) * (INV_MAT@[15] as int));
    assert(((MAT@[8] as int) * (INV_MAT@[3] as int) + (MAT@[9] as int) * (INV_MAT@[7] as int) + (MAT@[10] as int) * (INV_MAT@[11] as int) + (MAT@[11] as int) * (INV_MAT@[15] as int)) % 4611624995532046337 == 0) by (nonlinear_arith)
        requires
            MAT@[8] == 1, MAT@[9] == 1, MAT@[10] == 3, MAT@[11] == 2, INV_MAT@[3] == 2239932140686993935, INV_MAT@[7] == 4084582138899812470, INV_MAT@[11] == 395282142474175400, INV_MAT@[15] == 3162257139793403203,
    ;
}

proof fn lemma_product_forward_row_3()
    ensures
        identity_row(Elem::modulus(), MAT@, INV_MAT@, 4, 3, 4),
{
    reveal_with_fuel(sum, 5);
    reveal_with_fuel(identity_row, 5);
    assert(product_entry(MAT@, INV_MAT@, 4, 3, 0) == (MAT@[12] as int) * (INV_MAT@[0] as int) + (MAT@[13] as int) * (INV_MAT@[4] as int) + (MAT@[14] as int) * (INV_MAT@[8] as int) + (MAT@[15] as int) * (INV_MAT@[12] as int));
    assert(((MAT@[12] as int) * (INV_MAT@[0] as int) + (MAT@[13] as int) * (INV_MAT@[4] as int) + (MAT@[14] as int) * (INV_MAT@[8] as int) + (MAT@[15] as int) * (INV_MAT@[12] as int)) % 4611624995532046337 == 0) by (nonlinear_arith)
        requires
            MAT@[12] == 2, MAT@[13] == 1, MAT@[14] == 1, MAT@[15] == 3, INV_MAT@[0] == 3162257139793403203, INV_MAT@[4] == 2239932140686993935, INV_MAT@[8] == 4084582138899812470, INV_MAT@[12] == 395282142474175400,
    ;
    assert(product_entry(MAT@, INV_MAT@, 4, 3, 1) == (MAT@[12] as int) * (INV_MAT@[1] as int) + (MAT@[13] as int) * (INV_MAT@[5] as int) + (MAT@[14] as int) * (INV_MAT@[9] as int) + (MAT@[15] as int) * (INV_MAT@[13] as int));
    assert(((MAT@[12] as int) * (INV_MAT@[1] as int) + (MAT@[13] as int) * (INV_MAT@[5] as int) + (MAT@[14] as int) * (INV_MAT@[9] as int) + (MAT@[15] as int) * (INV_MAT@[13] as int)) % 4611624995532046337 == 0) by (nonlinear_arith)
        requires
            MAT@[12] == 2, MAT@[13] == 1, MAT@[14] == 1, MAT@[15] == 3, INV_MAT@[1] == 395282142474175400, INV_MAT@[5] == 3162257139793403203, INV_MAT@[9] == 2239932140686993935, INV_MAT@[13] == 4084582138899812470,
    ;
    assert(product_entry(MAT@, INV_MAT@, 4, 3, 2) == (MAT@[12] as int) * (INV_MAT@[2] as int) + (MAT@[13] as int) * (INV_MAT@[6] as int) + (MAT@[14] as int) * (INV_MAT@[10] as int) + (MAT@[15] as int) * (INV_MAT@[14] as int));
    assert(((MAT@[12] as int) * (INV_MAT@[2] as int) + (MAT@[13] as int) * (INV_MAT@[6] as int) + (MAT@[14] as int) * (INV_MAT@[10] as int) + (MAT@[15] as int) * (INV_MAT@[14] as int)) % 4611624995532046337 == 0) by (nonlinear_arith)
        requires
            MAT@[12] == 2, MAT@[13] == 1, MAT@[14] == 1, MAT@[15] == 3, INV_MAT@[2] == 4084582138899812470, INV_MAT@[6] == 395282142474175400, INV_MAT@[10] == 3162257139793403203, INV_MAT@[14] == 2239932140686993935,
    ;
    assert(product_entry(MAT@, INV_MAT@, 4, 3, 3) == (MAT@[12] as int) * (INV_MAT@[3] as int) + (MAT@[13] as int) * (INV_MAT@[7] as int) + (MAT@[14] as int) * (INV_MAT@[11] as int) + (MAT@[15] as int) * (INV_MAT@[15] as int));
    assert(((MAT@[12] as int) * (INV_MAT@[3] as int) + (MAT@[13] as int) * (INV_MAT@[7] as int) + (MAT@[14] as int) * (INV_MAT@[11] as int) + (MAT@[15] as int) * (INV_MAT@[15] as int)) % 4611624995532046337 == 1) by (nonlinear_arith)
        requires
            MAT@[12] == 2, MAT@[13] == 1, MAT@[14] == 1, MAT@[15] == 3, INV_MAT@[3] == 2239932140686993935, INV_MAT@[7] == 4084582138899812470, INV_MAT@[11] == 395282142474175400, INV_MAT@[15] == 3162257139793403203,
    ;
}

proof fn lemma_product_forward()
    ensures
        product_is_identity(Elem::modulus(), MAT@, INV_MAT@, 4),
{
    lemma_product_forward_row_0();
    lemma_product_forward_row_1();
    lemma_product_forward_row_2();
    lemma_product_forward_row_3();
    reveal_with_fuel(identity_rows, 5);
    assert(identity_rows(Elem::modulus(), MAT@, INV_MAT@, 4, 4));
    lemma_identity_rows(Elem::modulus(), MAT@, INV_MAT@, 4);
}

proof fn lemma_product_backward_row_0()
    ensures
        identity_row(Elem::modulus(), INV_MAT@, MAT@, 4, 0, 4),
{
    reveal_with_fuel(sum, 5);
    reveal_with_fuel(identity_row, 5);
    assert(product_entry(INV_MAT@, MAT@, 4, 0, 0) == (INV_MAT@[0] as int) * (MAT@[0] as int) + (INV_MAT@[1] as int) * (MAT@[4] as int) + (INV_MAT@[2] as int) * (MAT@[8] as int) + (INV_MAT@[3] as int) * (MAT@[12] as int));
    assert(((INV_MAT@[0] as int) * (MAT@[0] as int) + (INV_MAT@[1] as int) * (MAT@[4] as int) + (INV_MAT@[2] as int) * (MAT@[8] as int) + (INV_MAT@[3] as int) * (MAT@[12] as int)) % 4611624995532046337 == 1) by (nonlinear_arith)
        requires
            INV_MAT@[0] == 3162257139793403203, INV_MAT@[1] == 395282142474175400, INV_MAT@[2] == 4084582138899812470, INV_MAT@[3] == 2239932140686993935, MAT@[0] == 3, MAT@[4] == 1, MAT@[8] == 1, MAT@[12] == 2,
    ;
    assert(product_entry(INV_MAT@, MAT@, 4, 0, 1) == (INV_MAT@[0] as int) * (MAT@[1] as int) + (INV_MAT@[1] as int) * (MAT@[5] as int) + (INV_MAT@[2] as int) * (MAT@[9] as int) + (INV_MAT@[3] as int) * (MAT@[13] as int));
    assert(((INV_MAT@[0] as int) * (MAT@[1] as int) + (INV_MAT@[1] as int) * (MAT@[5] as int) + (INV_MAT@[2] as int) * (MAT@[9] as int) + (INV_MAT@[3] as int) * (MAT@[13] as int)) % 4611624995532046337 == 0) by (nonlinear_arith)
        requires
            INV_MAT@[0] == 3162257139793403203, INV_MAT@[1] == 395282142474175400, INV_MAT@[2] == 4084582138899812470, INV_MAT@[3] == 2239932140686993935, MAT@[1] == 2, MAT@[5] == 3, MAT@[9] == 1, MAT@[13] == 1,
    ;
    assert(product_entry(INV_MAT@, MAT@, 4, 0, 2) == (INV_MAT@[0] as int) * (MAT@[2] as int) + (INV_MAT@[1] as int) * (MAT@[6] as int) + (INV_MAT@[2] as int) * (MAT@[10] as int) + (INV_MAT@[3] as int) * (MAT@[14] as int));
    assert(((INV_MAT@[0] as int) * (MAT@[2] as int) + (INV_MAT@[1] as int) * (MAT@[6] as int) + (INV_MAT@[2] as int) * (MAT@[10] as int) + (INV_MAT@[3] as int) * (MAT@[14] as int)) % 4611624995532046337 == 0) by (nonlinear_arith)
        requires
            INV_MAT@[0] == 3162257139793403203, INV_MAT@[1] == 395282142474175400, INV_MAT@[2] == 4084582138899812470, INV_MAT@[3] == 2239932140686993935, MAT@[2] == 1, MAT@[6] == 2, MAT@[10] == 3, MAT@[14] == 1,
    ;
    assert(product_entry(INV_MAT@, MAT@, 4, 0, 3) == (INV_MAT@[0] as int) * (MAT@[3] as int) + (INV_MAT@[1] as int) * (MAT@[7] as int) + (INV_MAT@[2] as int) * (MAT@[11] as int) + (INV_MAT@[3] as int) * (MAT@[15] as int));
    assert(((INV_MAT@[0] as int) * (MAT@[3] as int) + (INV_MAT@[1] as int) * (MAT@[7] as int) + (INV_MAT@[2] as int) * (MAT@[11] as int) + (INV_MAT@[3] as int) * (MAT@[15] as int)) % 4611624995532046337 == 0) by (nonlinear_arith)
        requires
            INV_MAT@[0] == 3162257139793403203, INV_MAT@[1] == 395282142474175400, INV_MAT@[2] == 4084582138899812470, INV_MAT@[3] == 2239932140686993935, MAT@[3] == 1, MAT@[7] == 1, MAT@[11] == 2, MAT@[15] == 3,
    ;
}

proof fn lemma_product_backward_row_1()
    ensures
        identity_row(Elem::modulus(), INV_MAT@, MAT@, 4, 1, 4),
{
    reveal_with_fuel(sum, 5);
    reveal_with_fuel(identity_row, 5);
    assert(product_entry(INV_MAT@, MAT@, 4, 1, 0) == (INV_MAT@[4] as int) * (MAT@[0] as int) + (INV_MAT@[5] as int) * (MAT@[4] as int) + (INV_MAT@[6] as int) * (MAT@[8] as int) + (INV_MAT@[7] as int) * (MAT@[12] as int));
    assert(((INV_MAT@[4] as int) * (MAT@[0] as int) + (INV_MAT@[5] as int) * (MAT@[4] as int) + (INV_MAT@[6] as int) * (MAT@[8] as int) + (INV_MAT@[7] as int) * (MAT@[12] as int)) % 4611624995532046337 == 0) by (nonlinear_arith)
        requires
            INV_MAT@[4] == 2239932140686993935, INV_MAT@[5] == 3162257139793403203, INV_MAT@[6] == 395282142474175400, INV_MAT@[7] == 4084582138899812470, MAT@[0] == 3, MAT@[4] == 1, MAT@[8] == 1, MAT@[12] == 2,
    ;
    assert(product_entry(INV_MAT@, MAT@, 4, 1, 1) == (INV_MAT@[4] as int) * (MAT@[1] as int) + (INV_MAT@[5] as int) * (MAT@[5] as int) + (INV_MAT@[6] as int) * (MAT@[9] as int) + (INV_MAT@[7] as int) * (MAT@[13] as int));
    assert(((INV_MAT@[4] as int) * (MAT@[1] as int) + (INV_MAT@[5] as int) * (MAT@[5] as int) + (INV_MAT@[6] as int) * (MAT@[9] as int) + (INV_MAT@[7] as int) * (MAT@[13] as int)) % 4611624995532046337 == 1) by (nonlinear_arith)
        requires
            INV_MAT@[4] == 2239932140686993935, INV_MAT@[5] == 3162257139793403203, INV_MAT@[6] == 395282142474175400, INV_MAT@[7] == 4084582138899812470, MAT@[1] == 2, MAT@[5] == 3, MAT@[9] == 1, MAT@[13] == 1,
    ;
    assert(product_entry(INV_MAT@, MAT@, 4, 1, 2) == (INV_MAT@[4] as int) * (MAT@[2] as int) + (INV_MAT@[5] as int) * (MAT@[6] as int) + (INV_MAT@[6] as int) * (MAT@[10] as int) + (INV_MAT@[7] as int) * (MAT@[14] as int));
    assert(((INV_MAT@[4] as int) * (MAT@[2] as int) + (INV_MAT@[5] as int) * (MAT@[6] as int) + (INV_MAT@[6] as int) * (MAT@[10] as int) + (INV_MAT@[7] as int) * (MAT@[14] as int)) % 4611624995532046337 == 0) by (nonlinear_arith)
        requires
            INV_MAT@[4] == 2239932140686993935, INV_MAT@[5] == 3162257139793403203, INV_MAT@[6] == 395282142474175400, INV_MAT@[7] == 4084582138899812470, MAT@[2] == 1, MAT@[6] == 2, MAT@[10] == 3, MAT@[14] == 1,
    ;
    assert(product_entry(INV_MAT@, MAT@, 4, 1, 3) == (INV_MAT@[4] as int) * (MAT@[3] as int) + (INV_MAT@[5] as int) * (MAT@[7] as int) + (INV_MAT@[6] as int) * (MAT@[11] as int) + (INV_MAT@[7] as int) * (MAT@[15] as int));
    assert(((INV_MAT@[4] as int) * (MAT@[3] as int) + (INV_MAT@[5] as int) * (MAT@[7] as int) + (INV_MAT@[6] as int) * (MAT@[11] as int) + (INV_MAT@[7] as int) * (MAT@[15] as int)) % 4611624995532046337 == 0) by (nonlinear_arith)
        requires
            INV_MAT@[4] == 2239932140686993935, INV_MAT@[5] == 3162257139793403203, INV_MAT@[6] == 395282142474175400, INV_MAT@[7] == 4084582138899812470, MAT@[3] == 1, MAT@[7] == 1, MAT@[11] == 2, MAT@[15] == 3,
    ;
}

proof fn lemma_product_backward_row_2()
    ensures
        identity_row(Elem::modulus(), INV_MAT@, MAT@, 4, 2, 4),
{
    reveal_with_fuel(sum, 5);
    reveal_with_fuel(identity_row, 5);
    assert(product_entry(INV_MAT@, MAT@, 4, 2, 0) == (INV_MAT@[8] as int) * (MAT@[0] as int) + (INV_MAT@[9] as int) * (MAT@[4] as int) + (INV_MAT@[10] as int) * (MAT@[8] as int) + (INV_MAT@[11] as int) * (MAT@[12] as int));
    assert(((INV_MAT@[8] as int) * (MAT@[0] as int) + (INV_MAT@[9] as int) * (MAT@[4] as int) + (INV_MAT@[10] as int) * (MAT@[8] as int) + (INV_MAT@[11] as int) * (MAT@[12] as int)) % 4611624995532046337 == 0) by (nonlinear_arith)
        requires
            INV_MAT@[8] == 4084582138899812470, INV_MAT@[9] == 2239932140686993935, INV_MAT@[10] == 3162257139793403203, INV_MAT@[11] == 395282142474175400, MAT@[0] == 3, MAT@[4] == 1, MAT@[8] == 1, MAT@[12] == 2,
    ;
    assert(product_entry(INV_MAT@, MAT@, 4, 2, 1) == (INV_MAT@[8] as int) * (MAT@[1] as int) + (INV_MAT@[9] as int) * (MAT@[5] as int) + (INV_MAT@[10] as int) * (MAT@[9] as int) + (INV_MAT@[11] as int) * (MAT@[13] as int));
    assert(((INV_MAT@[8] as int) * (MAT@[1] as int) + (INV_MAT@[9] as int) * (MAT@[5] as int) + (INV_MAT@[10] as int) * (MAT@[9] as int) + (INV_MAT@[11] as int) * (MAT@[13] as int)) % 4611624995532046337 == 0) by (nonlinear_arith)
        requires
            INV_MAT@[8] == 4084582138899812470, INV_MAT@[9] == 2239932140686993935, INV_MAT@[10] == 3162257139793403203, INV_MAT@[11] == 395282142474175400, MAT@[1] == 2, MAT@[5] == 3, MAT@[9] == 1, MAT@[13] == 1,
    ;
    assert(product_entry(INV_MAT@, MAT@, 4, 2, 2) == (INV_MAT@[8] as int) * (MAT@[2] as int) + (INV_MAT@[9] as int) * (MAT@[6] as int) + (INV_MAT@[10] as int) * (MAT@[10] as int) + (INV_MAT@[11] as int) * (MAT@[14] as int));
    assert(((INV_MAT@[8] as int) * (MAT@[2] as int) + (INV_MAT@[9] as int) * (MAT@[6] as int) + (INV_MAT@[10] as int) * (MAT@[10] as int) + (INV_MAT@[11] as int) * (MAT@[14] as int)) % 4611624995532046337 == 1) by (nonlinear_arith)
        requires
            INV_MAT@[8] == 4084582138899812470, INV_MAT@[9] == 2239932140686993935, INV_MAT@[10] == 3162257139793403203, INV_MAT@[11] == 395282142474175400, MAT@[2] == 1, MAT@[6] == 2, MAT@[10] == 3, MAT@[14] == 1,
    ;
    assert(product_entry(INV_MAT@, MAT@, 4, 2, 3) == (INV_MAT@[8] as int) * (MAT@[3] as int) + (INV_MAT@[9] as int) * (MAT@[7] as int) + (INV_MAT@[10] as int) * (MAT@[11] as int) + (INV_MAT@[11] as int) * (MAT@[15] as int));
    assert(((INV_MAT@[8] as int) * (MAT@[3] as int) + (INV_MAT@[9] as int) * (MAT@[7] as int) + (INV_MAT@[10] as int) * (MAT@[11] as int) + (INV_MAT@[11] as int) * (MAT@[15] as int)) % 4611624995532046337 == 0) by (nonlinear_arith)
        requires
            INV_MAT@[8] == 4084582138899812470, INV_MAT@[9] == 2239932140686993935, INV_MAT@[10] == 3162257139793403203, INV_MAT@[11] == 395282142474175400, MAT@[3] == 1, MAT@[7] == 1, MAT@[11] == 2, MAT@[15] == 3,
    ;
}

proof fn lemma_product_backward_row_3()
    ensures
        identity_row(Elem::modulus(), INV_MAT@, MAT@, 4, 3, 4),
{
    reveal_with_fuel(sum, 5);
    reveal_with_fuel(identity_row, 5);
    assert(product_entry(INV_MAT@, MAT@, 4, 3, 0) == (INV_MAT@[12] as int) * (MAT@[0] as int) + (INV_MAT@[13] as int) * (MAT@[4] as int) + (INV_MAT@[14] as int) * (MAT@[8] as int) + (INV_MAT@[15] as int) * (MAT@[12] as int));
    assert(((INV_MAT@[12] as int) * (MAT@[0] as int) + (INV_MAT@[13] as int) * (MAT@[4] as int) + (INV_MAT@[14] as int) * (MAT@[8] as int) + (INV_MAT@[15] as int) * (MAT@[12] as int)) % 4611624995532046337 == 0) by (nonlinear_arith)
        requires
            INV_MAT@[12] == 395282142474175400, INV_MAT@[13] == 4084582138899812470, INV_MAT@[14] == 2239932140686993935, INV_MAT@[15] == 3162257139793403203, MAT@[0] == 3, MAT@[4] == 1, MAT@[8] == 1, MAT@[12] == 2,
    ;
    assert(product_entry(INV_MAT@, MAT@, 4, 3, 1) == (INV_MAT@[12] as int) * (MAT@[1] as int) + (INV_MAT@[13] as int) * (MAT@[5] as int) + (INV_MAT@[14] as int) * (MAT@[9] as int) + (INV_MAT@[15] as int) * (MAT@[13] as int));
    assert(((INV_MAT@[12] as int) * (MAT@[1] as int) + (INV_MAT@[13] as int) * (MAT@[5] as int) + (INV_MAT@[14] as int) * (MAT@[9] as int) + (INV_MAT@[15] as int) * (MAT@[13] as int)) % 4611624995532046337 == 0) by (nonlinear_arith)
        requires
            INV_MAT@[12] == 395282142474175400, INV_MAT@[13] == 4084582138899812470, INV_MAT@[14] == 2239932140686993935, INV_MAT@[15] == 3162257139793403203, MAT@[1] == 2, MAT@[5] == 3, MAT@[9] == 1, MAT@[13] == 1,
    ;
    assert(product_entry(INV_MAT@, MAT@, 4, 3, 2) == (INV_MAT@[12] as int) * (MAT@[2] as int) + (INV_MAT@[13] as int) * (MAT@[6] as int) + (INV_MAT@[14] as int) * (MAT@[10] as int) + (INV_MAT@[15] as int) * (MAT@[14] as int));
    assert(((INV_MAT@[12] as int) * (MAT@[2] as int) + (INV_MAT@[13] as int) * (MAT@[6] as int) + (INV_MAT@[14] as int) * (MAT@[10] as int) + (INV_MAT@[15] as int) * (MAT@[14] as int)) % 4611624995532046337 == 0) by (nonlinear_arith)
        requires
            INV_MAT@[12] == 395282142474175400, INV_MAT@[13] == 4084582138899812470, INV_MAT@[14] == 2239932140686993935, INV_MAT@[15] == 3162257139793403203, MAT@[2] == 1, MAT@[6] == 2, MAT@[10] == 3, MAT@[14] == 1,
    ;
    assert(product_entry(INV_MAT@, MAT@, 4, 3, 3) == (INV_MAT@[12] as int) * (MAT@[3] as int) + (INV_MAT@[13] as int) * (MAT@[7] as int) + (INV_MAT@[14] as int) * (MAT@[11] as int) + (INV_MAT@[15] as int) * (MAT@[15] as int));
    assert(((INV_MAT@[12] as int) * (MAT@[3] as int) + (INV_MAT@[13] as int) * (MAT@[7] as int) + (INV_MAT@[14] as int) * (MAT@[11] as int) + (INV_MAT@[15] as int) * (MAT@[15] as int)) % 4611624995532046337 == 1) by (nonlinear_arith)
        requires
            INV_MAT@[12] == 395282142474175400, INV_MAT@[13] == 4084582138899812470, INV_MAT@[14] == 2239932140686993935, INV_MAT@[15] == 3162257139793403203, MAT@[3] == 1, MAT@[7] == 1, MAT@[11] == 2, MAT@[15] == 3,
    ;
}

proof fn lemma_product_backward()
    ensures
        product_is_identity(Elem::modulus(), INV_MAT@, MAT@, 4),
{
    lemma_product_backward_row_0();
    lemma_product_backward_row_1();
    lemma_product_backward_row_2();
    lemma_product_backward_row_3();
    reveal_with_fuel(identity_rows, 5);
    assert(identity_rows(Elem::modulus(), INV_MAT@, MAT@, 4, 4));
    lemma_identity_rows(Elem::modulus(), INV_MAT@, MAT@, 4);
}

/// The digest of `input_sequence`, whose length must be a multiple of `RATE`.
pub fn hash(input_sequence: &Vec<Elem>) -> (r: [Elem; RATE])
    requires
        input_sequence@.len() % (RATE as nat) == 0,
    ensures
        vals(r@) == hash_spec(spec_params(), Elem::modulus(), vals(input_sequence@)),
{
    griffin_hash(input_sequence)
}

/// The sponge: starting from the zero state, each chunk of `RATE` elements is added onto the
/// first lanes and the state permuted; the digest is the first `RATE` lanes.
pub fn griffin_hash(input_sequence: &Vec<Elem>) -> (r: [Elem; RATE])
    requires
        input_sequence@.len() % (RATE as nat) == 0,
    ensures
        vals(r@) == hash_spec(spec_params(), Elem::modulus(), vals(input_sequence@)),
{
    let digest = params().hash(input_sequence);
    to_array(&digest)
}

/// Applies the `NUM_ROUNDS` rounds to `state`.
pub fn griffin_permutation(state: &mut [Elem; STATE_WIDTH])
    ensures
        vals(final(state)@) == permutation_spec(spec_params(), Elem::modulus(), vals(old(state)@)),
{
    params().permutation(state);
}

/// Applies round `round % NUM_ROUNDS` to `state`.
pub fn apply_round(state: &mut [Elem], round: usize)
    requires
        old(state)@.len() == STATE_WIDTH,
    ensures
        final(state)@.len() == STATE_WIDTH,
        vals(final(state)@) == round_spec(
            spec_params(),
            Elem::modulus(),
            vals(old(state)@),
            round as nat,
        ),
{
    params().apply_round(state, round);
}

/// `enforce_first_round` with `pixels` first added onto the first `RATE` lanes of
/// `current_slice`.
pub fn enforce_first_round_plus_absorb<E: PrimeField>(
    result_slice: &mut [E],
    pixels: &[E],
    current_slice: &[E],
    next_slice: &[E],
    round_constants: &[E],
    flag: E,
)
    requires
        pixels@.len() >= RATE,
        current_slice@.len() == STATE_WIDTH,
        next_slice@.len() == STATE_WIDTH,
        round_constants@.len() >= STATE_WIDTH,
        old(result_slice)@.len() >= STATE_WIDTH,
    ensures
        final(result_slice)@.len() == old(result_slice)@.len(),
        vals(final(result_slice)@) == nonlinear_residuals(
            spec_params(),
            E::modulus(),
            vals(old(result_slice)@),
            mat_vec(
                E::modulus(),
                MAT@,
                STATE_WIDTH as nat,
                absorb_lanes_spec(E::modulus(), vals(current_slice@), vals(pixels@).take(RATE as int)),
            ),
            recovered(spec_params(), E::modulus(), vals(next_slice@), vals(round_constants@)),
            flag.val(),
        ),
{
    params().enforce_first_round_plus_absorb(
        result_slice,
        pixels,
        current_slice,
        next_slice,
        round_constants,
        flag,
    );
}

/// Adds to `result_slice` the residuals of the first round between `current_slice` and
/// `next_slice`, scaled by `flag`: the state is mixed once before the non-linear layer.
pub fn enforce_first_round<E: PrimeField>(
    result_slice: &mut [E],
    current_slice: &[E],
    next_slice: &[E],
    round_constants: &[E],
    flag: E,
)
    requires
        current_slice@.len() == STATE_WIDTH,
        next_slice@.len() == STATE_WIDTH,
        round_constants@.len() >= STATE_WIDTH,
        old(result_slice)@.len() >= STATE_WIDTH,
    ensures
        final(result_slice)@.len() == old(result_slice)@.len(),
        vals(final(result_slice)@) == nonlinear_residuals(
            spec_params(),
            E::modulus(),
            vals(old(result_slice)@),
            mat_vec(E::modulus(), MAT@, STATE_WIDTH as nat, vals(current_slice@)),
            recovered(spec_params(), E::modulus(), vals(next_slice@), vals(round_constants@)),
            flag.val(),
        ),
{
    params().enforce_first_round(result_slice, current_slice, next_slice, round_constants, flag);
}

/// Adds to `result_slice` the residuals of a round other than the first between
/// `current_slice` and `next_slice`, scaled by `flag`.
pub fn enforce_round<E: PrimeField>(
    result_slice: &mut [E],
    current_slice: &[E],
    next_slice: &[E],
    round_constants: &[E],
    flag: E,
)
    requires
        current_slice@.len() == STATE_WIDTH,
        next_slice@.len() == STATE_WIDTH,
        round_constants@.len() >= STATE_WIDTH,
        old(result_slice)@.len() >= STATE_WIDTH,
    ensures
        final(result_slice)@.len() == old(result_slice)@.len(),
        vals(final(result_slice)@) == nonlinear_residuals(
            spec_params(),
            E::modulus(),
            vals(old(result_slice)@),
            vals(current_slice@),
            recovered(spec_params(), E::modulus(), vals(next_slice@), vals(round_constants@)),
            flag.val(),
        ),
{
    params().enforce_round(result_slice, current_slice, next_slice, round_constants, flag);
}

/// The round constants in `STATE_WIDTH` columns of length `cycle_length`, the constants of
/// round `i` at position `(i + shift) % cycle_length` and zeros elsewhere.
pub fn get_round_constants_periodic(cycle_length: usize, shift: usize) -> (r: Vec<Vec<Elem>>)
    requires
        cycle_length > 0,
        shift + NUM_ROUNDS <= usize::MAX,
    ensures
        r@.len() == STATE_WIDTH,
        forall|j: int|
            0 <= j < STATE_WIDTH ==> vals(#[trigger] r@[j]@) == periodic_column(
                Elem::modulus(),
                ROUND_CONSTANTS@,
                STATE_WIDTH as nat,
                j as nat,
                cycle_length as nat,
                shift as nat,
                NUM_ROUNDS as nat,
            ),
{
    params().round_constants_periodic(cycle_length, shift)
}

} // verus!

//! Griffin over the 128-bit prime field (modulus `MODULUS_128`): width 4, capacity 2, 12 rounds, exponent 3,
//! security of at least 128 bits.

use vstd::prelude::*;
use crate::field::{Felt128, PrimeField, canonical_seq, vals};
use crate::griffin::{
    GriffinParams, hash_spec, lemma_first_round_constraints_vanish, lemma_round_constraints_vanish,
    nonlinear_residuals, permutation_spec, recovered, round_spec,
};
use crate::layers::{
    exp_undoes, fermat, lemma_exponents_invert, mat_vec, periodic_column,
    to_array, zeros, undoes,
};
use crate::matrix::{
    identity_row, identity_rows, lemma_identity_rows, lemma_product_identity_undoes, product_entry,
    product_is_identity, sum,
};

verus! {

pub type Elem = Felt128;

pub const NUM_ROUNDS: usize = 12;
pub const STATE_WIDTH: usize = 4;
pub const CAPACITY: usize = 2;
pub const RATE: usize = STATE_WIDTH - CAPACITY;

/// The exponent applied to lane 0.
pub const D: u128 = 3;

/// The exponent applied to lane 1: the inverse of `D` modulo the prime minus one.
pub const INV_D: u128 = 226854911280625642308916371969163307691;

/// The mixing matrix, row-major.
pub const MAT: [u128; 16] = [
    3, 2, 1,
    1, 1, 3,
    2, 1, 1,
    1, 3, 2,
    2, 1, 1,
    3,
];

/// The inverse of `MAT`, row-major.
pub const INV_MAT: [u128; 16] = [
    233336480174357803517742554025425116483, 29167060021794725439717819253178139560, 301392953558545496210417465616174108790,
    165280006790170110825067642434676124175, 165280006790170110825067642434676124175, 233336480174357803517742554025425116483,
    29167060021794725439717819253178139560, 301392953558545496210417465616174108790, 301392953558545496210417465616174108790,
    165280006790170110825067642434676124175, 233336480174357803517742554025425116483, 29167060021794725439717819253178139560,
    29167060021794725439717819253178139560, 301392953558545496210417465616174108790, 165280006790170110825067642434676124175,
    233336480174357803517742554025425116483,
];

/// `STATE_WIDTH` constants per round.
pub const ROUND_CONSTANTS: [u128; 48] = [
    294970790111306351373636413874686151821, 160189431472011418998427183027739354479, 55550889145373399671553726121092858466,
    275164185752383030818525310739461573884, 38201251074942853819690530188837782157, 62576778657652102143243695940893274138,
    329588424345411619796209026549647545760, 277833782588935353313288187278579011179, 44021280959178045642836381478997810870,
    326406391134286162613079794749493302223, 330511757441020095780992868358439323843, 82652686758316037556524046407399965496,
    228675171350738287686838730130561276916, 224112638573379126418625935393785693428, 64778613048988911329800247205141078159,
    217603433766828919995349954570396030405, 80200422234881574089220840511278754356, 75105765571716273279949541773384489182,
    259359742366690112701507630935577873933, 83404028401302237313089142501002104123, 13161178151423257454210838033394546966,
    70905281362196007540683767767251187423, 302444071825868031003598979999714239976, 196838326858397795372394750033112491530,
    111507700541055941613666035111517070703, 193569732598610094044858811120409129368, 191504056519622663260520654355159891695,
    284561537657629588804458055018962719733, 117866270732042728177782916119453810877, 1542213147082308645284977730431520992,
    88222772647598367445363102670909661349, 197970947411142477399843311169063498117, 243651713504449003950365473150839077311,
    125703797731008009672060499092197912223, 135304452039729263621279398651147114084, 150400300947788252961050964854718156122,
    78967423199903199132380881249370128518, 202714971907111937486825382877502551762, 194669266240218440979603488210730556215,
    19590513170902684529383267231746178395, 256879369894401793037417086346116265484, 223444523763436029506954371502782034526,
    268822433894440182928616124776557842222, 93659545806798837818243112419862471821, 0,
    0, 0, 0,
];

/// The linear coefficients of the quadratic on lanes from 2 on.
pub const ALPHAS: [u128; 4] = [
    0, 0, 140179816034872192279383539457689534325,
    280359632069744384558767078915379068650,
];

/// The constant coefficients of the quadratic on lanes from 2 on.
pub const BETAS: [u128; 4] = [
    0, 0, 13144622592979658941386704330615843177,
    52578490371918635765546817322463372708,
];

/// The coefficients of the linear form of lanes 0 and 1.
pub const LAMBDAS: [u128; 2] = [
    11074109588650505088167938287378412180, 139341286121071490113612867272958857580,
];

/// This instance's constants.
pub open spec fn spec_params() -> GriffinParams {
    GriffinParams {
        width: STATE_WIDTH,
        capacity: CAPACITY,
        rounds: NUM_ROUNDS,
        d: D,
        inv_d: INV_D,
        mat: &MAT,
        inv_mat: &INV_MAT,
        round_constants: &ROUND_CONSTANTS,
        alphas: &ALPHAS,
        betas: &BETAS,
        lambdas: &LAMBDAS,
    }
}

/// This instance's constants.
pub fn params() -> (r: GriffinParams)
    ensures
        r == spec_params(),
        r.wf(),
{
    GriffinParams {
        width: STATE_WIDTH,
        capacity: CAPACITY,
        rounds: NUM_ROUNDS,
        d: D,
        inv_d: INV_D,
        mat: &MAT,
        inv_mat: &INV_MAT,
        round_constants: &ROUND_CONSTANTS,
        alphas: &ALPHAS,
        betas: &BETAS,
        lambdas: &LAMBDAS,
    }
}

/// The exponents `D` and `INV_D` undo each other, both ways, on every residue, wherever
/// Fermat's little theorem holds for the modulus.
pub proof fn lemma_exponents_undo()
    requires
        fermat(Elem::modulus()),
    ensures
        exp_undoes(Elem::modulus(), D as nat, INV_D as nat),
        exp_undoes(Elem::modulus(), INV_D as nat, D as nat),
{
    lemma_exponents_invert(Elem::modulus(), D as nat, INV_D as nat);
}

/// With flag one, the constraints of round `r` vanish on every state of residues and the
/// state that the round makes of it (mixed once more first when `r` is a first round),
/// wherever Fermat's little theorem holds for the modulus.
pub proof fn lemma_constraints_vanish(cur: Seq<int>, r: nat)
    requires
        cur.len() == STATE_WIDTH,
        canonical_seq(cur, Elem::modulus()),
        fermat(Elem::modulus()),
    ensures
        r % (NUM_ROUNDS as nat) != 0 ==> nonlinear_residuals(
            spec_params(),
            Elem::modulus(),
            zeros(STATE_WIDTH as nat),
            cur,
            recovered(
                spec_params(),
                Elem::modulus(),
                round_spec(spec_params(), Elem::modulus(), cur, r),
                spec_params().round_consts(Elem::modulus(), r % (NUM_ROUNDS as nat)),
            ),
            1,
        ) == zeros(STATE_WIDTH as nat),
        r % (NUM_ROUNDS as nat) == 0 ==> nonlinear_residuals(
            spec_params(),
            Elem::modulus(),
            zeros(STATE_WIDTH as nat),
            mat_vec(Elem::modulus(), MAT@, STATE_WIDTH as nat, cur),
            recovered(
                spec_params(),
                Elem::modulus(),
                round_spec(spec_params(), Elem::modulus(), cur, r),
                spec_params().round_consts(Elem::modulus(), r % (NUM_ROUNDS as nat)),
            ),
            1,
        ) == zeros(STATE_WIDTH as nat),
{
    lemma_matrices_invert();
    lemma_exponents_invert(Elem::modulus(), D as nat, INV_D as nat);
    if r % (NUM_ROUNDS as nat) != 0 {
        lemma_round_constraints_vanish(spec_params(), Elem::modulus(), cur, r);
    } else {
        lemma_first_round_constraints_vanish(spec_params(), Elem::modulus(), cur, r);
    }
}

/// With flag one, the constraints of round `r` do not all vanish on a state and any state of
/// residues other than the one that the round makes of it, wherever Fermat's little theorem
/// holds for the modulus.
pub proof fn lemma_wrong_next_detected(cur: Seq<int>, other: Seq<int>, r: nat)
    requires
        cur.len() == STATE_WIDTH,
        other.len() == STATE_WIDTH,
        canonical_seq(other, Elem::modulus()),
        other != round_spec(spec_params(), Elem::modulus(), cur, r),
        fermat(Elem::modulus()),
    ensures
        nonlinear_residuals(
            spec_params(),
            Elem::modulus(),
            zeros(STATE_WIDTH as nat),
            if r % (NUM_ROUNDS as nat) == 0 {
                mat_vec(Elem::modulus(), MAT@, STATE_WIDTH as nat, cur)
            } else {
                cur
            },
            recovered(
                spec_params(),
                Elem::modulus(),
                other,
                spec_params().round_consts(Elem::modulus(), r % (NUM_ROUNDS as nat)),
            ),
            1,
        ) != zeros(STATE_WIDTH as nat),
{
    lemma_matrices_invert();
    lemma_exponents_invert(Elem::modulus(), D as nat, INV_D as nat);
    crate::griffin::lemma_wrong_next_detected(spec_params(), Elem::modulus(), cur, other, r);
}

/// The mixing matrix and its inverse undo each other on every vector of residues.
pub proof fn lemma_matrices_invert()
    ensures
        undoes(Elem::modulus(), MAT@, INV_MAT@, STATE_WIDTH as nat),
        undoes(Elem::modulus(), INV_MAT@, MAT@, STATE_WIDTH as nat),
{
    lemma_product_forward();
    lemma_product_backward();
    lemma_product_identity_undoes(Elem::modulus(), MAT@, INV_MAT@, STATE_WIDTH as nat);
    lemma_product_identity_undoes(Elem::modulus(), INV_MAT@, MAT@, STATE_WIDTH as nat);
}

proof fn lemma_product_forward_row_0()
    ensures
        identity_row(Elem::modulus(), MAT@, INV_MAT@, 4, 0, 4),
{
    reveal_with_fuel(sum, 5);
    reveal_with_fuel(identity_row, 5);
    assert(product_entry(MAT@, INV_MAT@, 4, 0, 0) == (MAT@[0] as int) * (INV_MAT@[0] as int) + (MAT@[1] as int) * (INV_MAT@[4] as int) + (MAT@[2] as int) * (INV_MAT@[8] as int) + (MAT@[3] as int) * (INV_MAT@[12] as int));
    assert(((MAT@[0] as int) * (INV_MAT@[0] as int) + (MAT@[1] as int) * (INV_MAT@[4] as int) + (MAT@[2] as int) * (INV_MAT@[8] as int) + (MAT@[3] as int) * (INV_MAT@[12] as int)) % 340282366920938463463374557953744961537 == 1) by (nonlinear_arith)
        requires
            MAT@[0] == 3, MAT@[1] == 2, MAT@[2] == 1, MAT@[3] == 1, INV_MAT@[0] == 233336480174357803517742554025425116483, INV_MAT@[4] == 165280006790170110825067642434676124175, INV_MAT@[8] == 301392953558545496210417465616174108790, INV_MAT@[12] == 29167060021794725439717819253178139560,
    ;
    assert(product_entry(MAT@, INV_MAT@, 4, 0, 1) == (MAT@[0] as int) * (INV_MAT@[1] as int) + (MAT@[1] as int) * (INV_MAT@[5] as int) + (MAT@[2] as int) * (INV_MAT@[9] as int) + (MAT@[3] as int) * (INV_MAT@[13] as int));
    assert(((MAT@[0] as int) * (INV_MAT@[1] as int) + (MAT@[1] as int) * (INV_MAT@[5] as int) + (MAT@[2] as int) * (INV_MAT@[9] as int) + (MAT@[3] as int) * (INV_MAT@[13] as int)) % 340282366920938463463374557953744961537 == 0) by (nonlinear_arith)
        requires
            MAT@[0] == 3, MAT@[1] == 2, MAT@[2] == 1, MAT@[3] == 1, INV_MAT@[1] == 29167060021794725439717819253178139560, INV_MAT@[5] == 233336480174357803517742554025425116483, INV_MAT@[9] == 165280006790170110825067642434676124175, INV_MAT@[13] == 301392953558545496210417465616174108790,
    ;
    assert(product_entry(MAT@, INV_MAT@, 4, 0, 2) == (MAT@[0] as int) * (INV_MAT@[2] as int) + (MAT@[1] as int) * (INV_MAT@[6] as int) + (MAT@[2] as int) * (INV_MAT@[10] as int) + (MAT@[3] as int) * (INV_MAT@[14] as int));
    assert(((MAT@[0] as int) * (INV_MAT@[2] as int) + (MAT@[1] as int) * (INV_MAT@[6] as int) + (MAT@[2] as int) * (INV_MAT@[10] as int) + (MAT@[3] as int) * (INV_MAT@[14] as int)) % 340282366920938463463374557953744961537 == 0) by (nonlinear_arith)
        requires
            MAT@[0] == 3, MAT@[1] == 2, MAT@[2] == 1, MAT@[3] == 1, INV_MAT@[2] == 301392953558545496210417465616174108790, INV_MAT@[6] == 29167060021794725439717819253178139560, INV_MAT@[10] == 233336480174357803517742554025425116483, INV_MAT@[14] == 165280006790170110825067642434676124175,
    ;
    assert(product_entry(MAT@, INV_MAT@, 4, 0, 3) == (MAT@[0] as int) * (INV_MAT@[3] as int) + (MAT@[1] as int) * (INV_MAT@[7] as int) + (MAT@[2] as int) * (INV_MAT@[11] as int) + (MAT@[3] as int) * (INV_MAT@[15] as int));
    assert(((MAT@[0] as int) * (INV_MAT@[3] as int) + (MAT@[1] as int) * (INV_MAT@[7] as int) + (MAT@[2] as int) * (INV_MAT@[11] as int) + (MAT@[3] as int) * (INV_MAT@[15] as int)) % 340282366920938463463374557953744961537 == 0) by (nonlinear_arith)
        requires
            MAT@[0] == 3, MAT@[1] == 2, MAT@[2] == 1, MAT@[3] == 1, INV_MAT@[3] == 165280006790170110825067642434676124175, INV_MAT@[7] == 301392953558545496210417465616174108790, INV_MAT@[11] == 29167060021794725439717819253178139560, INV_MAT@[15] == 233336480174357803517742554025425116483,
    ;
}

proof fn lemma_product_forward_row_1()
    ensures
        identity_row(Elem::modulus(), MAT@, INV_MAT@, 4, 1, 4),
{
    reveal_with_fuel(sum, 5);
    reveal_with_fuel(identity_row, 5);
    assert(product_entry(MAT@, INV_MAT@, 4, 1, 0) == (MAT@[4] as int) * (INV_MAT@[0] as int) + (MAT@[5] as int) * (INV_MAT@[4] as int) + (MAT@[6] as int) * (INV_MAT@[8] as int) + (MAT@[7] as int) * (INV_MAT@[12] as int));
    assert(((MAT@[4] as int) * (INV_MAT@[0] as int) + (MAT@[5] as int) * (INV_MAT@[4] as int) + (MAT@[6] as int) * (INV_MAT@[8] as int) + (MAT@[7] as int) * (INV_MAT@[12] as int)) % 340282366920938463463374557953744961537 == 0) by (nonlinear_arith)
        requires
            MAT@[4] == 1, MAT@[5] == 3, MAT@[6] == 2, MAT@[7] == 1, INV_MAT@[0] == 233336480174357803517742554025425116483, INV_MAT@[4] == 165280006790170110825067642434676124175, INV_MAT@[8] == 301392953558545496210417465616174108790, INV_MAT@[12] == 29167060021794725439717819253178139560,
    ;
    assert(product_entry(MAT@, INV_MAT@, 4, 1, 1) == (MAT@[4] as int) * (INV_MAT@[1] as int) + (MAT@[5] as int) * (INV_MAT@[5] as int) + (MAT@[6] as int) * (INV_MAT@[9] as int) + (MAT@[7] as int) * (INV_MAT@[13] as int));
    assert(((MAT@[4] as int) * (INV_MAT@[1] as int) + (MAT@[5] as int) * (INV_MAT@[5] as int) + (MAT@[6] as int) * (INV_MAT@[9] as int) + (MAT@[7] as int) * (INV_MAT@[13] as int)) % 340282366920938463463374557953744961537 == 1) by (nonlinear_arith)
        requires
            MAT@[4] == 1, MAT@[5] == 3, MAT@[6] == 2, MAT@[7] == 1, INV_MAT@[1] == 29167060021794725439717819253178139560, INV_MAT@[5] == 233336480174357803517742554025425116483, INV_MAT@[9] == 165280006790170110825067642434676124175, INV_MAT@[13] == 301392953558545496210417465616174108790,
    ;
    assert(product_entry(MAT@, INV_MAT@, 4, 1, 2) == (MAT@[4] as int) * (INV_MAT@[2] as int) + (MAT@[5] as int) * (INV_MAT@[6] as int) + (MAT@[6] as int) * (INV_MAT@[10] as int) + (MAT@[7] as int) * (INV_MAT@[14] as int));
    assert(((MAT@[4] as int) * (INV_MAT@[2] as int) + (MAT@[5] as int) * (INV_MAT@[6] as int) + (MAT@[6] as int) * (INV_MAT@[10] as int) + (MAT@[7] as int) * (INV_MAT@[14] as int)) % 340282366920938463463374557953744961537 == 0) by (nonlinear_arith)
        requires
            MAT@[4] == 1, MAT@[5] == 3, MAT@[6] == 2, MAT@[7] == 1, INV_MAT@[2] == 301392953558545496210417465616174108790, INV_MAT@[6] == 29167060021794725439717819253178139560, INV_MAT@[10] == 233336480174357803517742554025425116483, INV_MAT@[14] == 165280006790170110825067642434676124175,
    ;
    assert(product_entry(MAT@, INV_MAT@, 4, 1, 3) == (MAT@[4] as int) * (INV_MAT@[3] as int) + (MAT@[5] as int) * (INV_MAT@[7] as int) + (MAT@[6] as int) * (INV_MAT@[11] as int) + (MAT@[7] as int) * (INV_MAT@[15] as int));
    assert(((MAT@[4] as int) * (INV_MAT@[3] as int) + (MAT@[5] as int) * (INV_MAT@[7] as int) + (MAT@[6] as int) * (INV_MAT@[11] as int) + (MAT@[7] as int) * (INV_MAT@[15] as int)) % 340282366920938463463374557953744961537 == 0) by (nonlinear_arith)
        requires
            MAT@[4] == 1, MAT@[5] == 3, MAT@[6] == 2, MAT@[7] == 1, INV_MAT@[3] == 165280006790170110825067642434676124175, INV_MAT@[7] == 301392953558545496210417465616174108790, INV_MAT@[11] == 29167060021794725439717819253178139560, INV_MAT@[15] == 233336480174357803517742554025425116483,
    ;
}

proof fn lemma_product_forward_row_2()
    ensures
        identity_row(Elem::modulus(), MAT@, INV_MAT@, 4, 2, 4),
{
    reveal_with_fuel(sum, 5);
    reveal_with_fuel(identity_row, 5);
    assert(product_entry(MAT@, INV_MAT@, 4, 2, 0) == (MAT@[8] as int) * (INV_MAT@[0] as int) + (MAT@[9] as int) * (INV_MAT@[4] as int) + (MAT@[10] as int) * (INV_MAT@[8] as int) + (MAT@[11] as int) * (INV_MAT@[12] as int));
    assert(((MAT@[8] as int) * (INV_MAT@[0] as int) + (MAT@[9] as int) * (INV_MAT@[4] as int) + (MAT@[10] as int) * (INV_MAT@[8] as int) + (MAT@[11] as int) * (INV_MAT@[12] as int)) % 340282366920938463463374557953744961537 == 0) by (nonlinear_arith)
        requires
            MAT@[8] == 1, MAT@[9] == 1, MAT@[10] == 3, MAT@[11] == 2, INV_MAT@[0] == 233336480174357803517742554025425116483, INV_MAT@[4] == 165280006790170110825067642434676124175, INV_MAT@[8] == 301392953558545496210417465616174108790, INV_MAT@[12] == 29167060021794725439717819253178139560,
    ;
    assert(product_entry(MAT@, INV_MAT@, 4, 2, 1) == (MAT@[8] as int) * (INV_MAT@[1] as int) + (MAT@[9] as int) * (INV_MAT@[5] as int) + (MAT@[10] as int) * (INV_MAT@[9] as int) + (MAT@[11] as int) * (INV_MAT@[13] as int));
    assert(((MAT@[8] as int) * (INV_MAT@[1] as int) + (MAT@[9] as int) * (INV_MAT@[5] as int) + (MAT@[10] as int) * (INV_MAT@[9] as int) + (MAT@[11] as int) * (INV_MAT@[13] as int)) % 340282366920938463463374557953744961537 == 0) by (nonlinear_arith)
        requires
            MAT@[8] == 1, MAT@[9] == 1, MAT@[10] == 3, MAT@[11] == 2, INV_MAT@[1] == 29167060021794725439717819253178139560, INV_MAT@[5] == 233336480174357803517742554025425116483, INV_MAT@[9] == 165280006790170110825067642434676124175, INV_MAT@[13] == 301392953558545496210417465616174108790,
    ;
    assert(product_entry(MAT@, INV_MAT@, 4, 2, 2) == (MAT@[8] as int) * (INV_MAT@[2] as int) + (MAT@[9] as int) * (INV_MAT@[6] as int) + (MAT@[10] as int) * (INV_MAT@[10] as int) + (MAT@[11] as int) * (INV_MAT@[14] as int));
    assert(((MAT@[8] as int) * (INV_MAT@[2] as int) + (MAT@[9] as int) * (INV_MAT@[6] as int) + (MAT@[10] as int) * (INV_MAT@[10] as int) + (MAT@[11] as int) * (INV_MAT@[14] as int)) % 340282366920938463463374557953744961537 == 1) by (nonlinear_arith)
        requires
            MAT@[8] == 1, MAT@[9] == 1, MAT@[10] == 3, MAT@[11] == 2, INV_MAT@[2] == 301392953558545496210417465616174108790, INV_MAT@[6] == 29167060021794725439717819253178139560, INV_MAT@[10] == 233336480174357803517742554025425116483, INV_MAT@[14] == 165280006790170110825067642434676124175,
    ;
    assert(product_entry(MAT@, INV_MAT@, 4, 2, 3) == (MAT@[8] as int) * (INV_MAT@[3] as int) + (MAT@[9] as int) * (INV_MAT@[7] as int) + (MAT@[10] as int) * (INV_MAT@[11] as int) + (MAT@[11] as int) * (INV_MAT@[15] as int));
    assert(((MAT@[8] as int) * (INV_MAT@[3] as int) + (MAT@[9] as int) * (INV_MAT@[7] as int) + (MAT@[10] as int) * (INV_MAT@[11] as int) + (MAT@[11] as int) * (INV_MAT@[15] as int)) % 340282366920938463463374557953744961537 == 0) by (nonlinear_arith)
        requires
            MAT@[8] == 1, MAT@[9] == 1, MAT@[10] == 3, MAT@[11] == 2, INV_MAT@[3] == 165280006790170110825067642434676124175, INV_MAT@[7] == 301392953558545496210417465616174108790, INV_MAT@[11] == 29167060021794725439717819253178139560, INV_MAT@[15] == 233336480174357803517742554025425116483,
    ;
}

proof fn lemma_product_forward_row_3()
    ensures
        identity_row(Elem::modulus(), MAT@, INV_MAT@, 4, 3, 4),
{
    reveal_with_fuel(sum, 5);
    reveal_with_fuel(identity_row, 5);
    assert(product_entry(MAT@, INV_MAT@, 4, 3, 0) == (MAT@[12] as int) * (INV_MAT@[0] as int) + (MAT@[13] as int) * (INV_MAT@[4] as int) + (MAT@[14] as int) * (INV_MAT@[8] as int) + (MAT@[15] as int) * (INV_MAT@[12] as int));
    assert(((MAT@[12] as int) * (INV_MAT@[0] as int) + (MAT@[13] as int) * (INV_MAT@[4] as int) + (MAT@[14] as int) * (INV_MAT@[8] as int) + (MAT@[15] as int) * (INV_MAT@[12] as int)) % 340282366920938463463374557953744961537 == 0) by (nonlinear_arith)
        requires
            MAT@[12] == 2, MAT@[13] == 1, MAT@[14] == 1, MAT@[15] == 3, INV_MAT@[0] == 233336480174357803517742554025425116483, INV_MAT@[4] == 165280006790170110825067642434676124175, INV_MAT@[8] == 301392953558545496210417465616174108790, INV_MAT@[12] == 29167060021794725439717819253178139560,
    ;
    assert(product_entry(MAT@, INV_MAT@, 4, 3, 1) == (MAT@[12] as int) * (INV_MAT@[1] as int) + (MAT@[13] as int) * (INV_MAT@[5] as int) + (MAT@[14] as int) * (INV_MAT@[9] as int) + (MAT@[15] as int) * (INV_MAT@[13] as int));
    assert(((MAT@[12] as int) * (INV_MAT@[1] as int) + (MAT@[13] as int) * (INV_MAT@[5] as int) + (MAT@[14] as int) * (INV_MAT@[9] as int) + (MAT@[15] as int) * (INV_MAT@[13] as int)) % 340282366920938463463374557953744961537 == 0) by (nonlinear_arith)
        requires
            MAT@[12] == 2, MAT@[13] == 1, MAT@[14] == 1, MAT@[15] == 3, INV_MAT@[1] == 29167060021794725439717819253178139560, INV_MAT@[5] == 233336480174357803517742554025425116483, INV_MAT@[9] == 165280006790170110825067642434676124175, INV_MAT@[13] == 301392953558545496210417465616174108790,
    ;
    assert(product_entry(MAT@, INV_MAT@, 4, 3, 2) == (MAT@[12] as int) * (INV_MAT@[2] as int) + (MAT@[13] as int) * (INV_MAT@[6] as int) + (MAT@[14] as int) * (INV_MAT@[10] as int) + (MAT@[15] as int) * (INV_MAT@[14] as int));
    assert(((MAT@[12] as int) * (INV_MAT@[2] as int) + (MAT@[13] as int) * (INV_MAT@[6] as int) + (MAT@[14] as int) * (INV_MAT@[10] as int) + (MAT@[15] as int) * (INV_MAT@[14] as int)) % 340282366920938463463374557953744961537 == 0) by (nonlinear_arith)
        requires
            MAT@[12] == 2, MAT@[13] == 1, MAT@[14] == 1, MAT@[15] == 3, INV_MAT@[2] == 301392953558545496210417465616174108790, INV_MAT@[6] == 29167060021794725439717819253178139560, INV_MAT@[10] == 233336480174357803517742554025425116483, INV_MAT@[14] == 165280006790170110825067642434676124175,
    ;
    assert(product_entry(MAT@, INV_MAT@, 4, 3, 3) == (MAT@[12] as int) * (INV_MAT@[3] as int) + (MAT@[13] as int) * (INV_MAT@[7] as int) + (MAT@[14] as int) * (INV_MAT@[11] as int) + (MAT@[15] as int) * (INV_MAT@[15] as int));
    assert(((MAT@[12] as int) * (INV_MAT@[3] as int) + (MAT@[13] as int) * (INV_MAT@[7] as int) + (MAT@[14] as int) * (INV_MAT@[11] as int) + (MAT@[15] as int) * (INV_MAT@[15] as int)) % 340282366920938463463374557953744961537 == 1) by (nonlinear_arith)
        requires
            MAT@[12] == 2, MAT@[13] == 1, MAT@[14] == 1, MAT@[15] == 3, INV_MAT@[3] == 165280006790170110825067642434676124175, INV_MAT@[7] == 301392953558545496210417465616174108790, INV_MAT@[11] == 29167060021794725439717819253178139560, INV_MAT@[15] == 233336480174357803517742554025425116483,
    ;
}

proof fn lemma_product_forward()
    ensures
        product_is_identity(Elem::modulus(), MAT@, INV_MAT@, 4),
{
    lemma_product_forward_row_0();
    lemma_product_forward_row_1();
    lemma_product_forward_row_2();
    lemma_product_forward_row_3();
    reveal_with_fuel(identity_rows, 5);
    assert(identity_rows(Elem::modulus(), MAT@, INV_MAT@, 4, 4));
    lemma_identity_rows(Elem::modulus(), MAT@, INV_MAT@, 4);
}

proof fn lemma_product_backward_row_0()
    ensures
        identity_row(Elem::modulus(), INV_MAT@, MAT@, 4, 0, 4),
{
    reveal_with_fuel(sum, 5);
    reveal_with_fuel(identity_row, 5);
    assert(product_entry(INV_MAT@, MAT@, 4, 0, 0) == (INV_MAT@[0] as int) * (MAT@[0] as int) + (INV_MAT@[1] as int) * (MAT@[4] as int) + (INV_MAT@[2] as int) * (MAT@[8] as int) + (INV_MAT@[3] as int) * (MAT@[12] as int));
    assert(((INV_MAT@[0] as int) * (MAT@[0] as int) + (INV_MAT@[1] as int) * (MAT@[4] as int) + (INV_MAT@[2] as int) * (MAT@[8] as int) + (INV_MAT@[3] as int) * (MAT@[12] as int)) % 340282366920938463463374557953744961537 == 1) by (nonlinear_arith)
        requires
            INV_MAT@[0] == 233336480174357803517742554025425116483, INV_MAT@[1] == 29167060021794725439717819253178139560, INV_MAT@[2] == 301392953558545496210417465616174108790, INV_MAT@[3] == 165280006790170110825067642434676124175, MAT@[0] == 3, MAT@[4] == 1, MAT@[8] == 1, MAT@[12] == 2,
    ;
    assert(product_entry(INV_MAT@, MAT@, 4, 0, 1) == (INV_MAT@[0] as int) * (MAT@[1] as int) + (INV_MAT@[1] as int) * (MAT@[5] as int) + (INV_MAT@[2] as int) * (MAT@[9] as int) + (INV_MAT@[3] as int) * (MAT@[13] as int));
    assert(((INV_MAT@[0] as int) * (MAT@[1] as int) + (INV_MAT@[1] as int) * (MAT@[5] as int) + (INV_MAT@[2] as int) * (MAT@[9] as int) + (INV_MAT@[3] as int) * (MAT@[13] as int)) % 340282366920938463463374557953744961537 == 0) by (nonlinear_arith)
        requires
            INV_MAT@[0] == 233336480174357803517742554025425116483, INV_MAT@[1] == 29167060021794725439717819253178139560, INV_MAT@[2] == 301392953558545496210417465616174108790, INV_MAT@[3] == 165280006790170110825067642434676124175, MAT@[1] == 2, MAT@[5] == 3, MAT@[9] == 1, MAT@[13] == 1,
    ;
    assert(product_entry(INV_MAT@, MAT@, 4, 0, 2) == (INV_MAT@[0] as int) * (MAT@[2] as int) + (INV_MAT@[1] as int) * (MAT@[6] as int) + (INV_MAT@[2] as int) * (MAT@[10] as int) + (INV_MAT@[3] as int) * (MAT@[14] as int));
    assert(((INV_MAT@[0] as int) * (MAT@[2] as int) + (INV_MAT@[1] as int) * (MAT@[6] as int) + (INV_MAT@[2] as int) * (MAT@[10] as int) + (INV_MAT@[3] as int) * (MAT@[14] as int)) % 340282366920938463463374557953744961537 == 0) by (nonlinear_arith)
        requires
            INV_MAT@[0] == 233336480174357803517742554025425116483, INV_MAT@[1] == 29167060021794725439717819253178139560, INV_MAT@[2] == 301392953558545496210417465616174108790, INV_MAT@[3] == 165280006790170110825067642434676124175, MAT@[2] == 1, MAT@[6] == 2, MAT@[10] == 3, MAT@[14] == 1,
    ;
    assert(product_entry(INV_MAT@, MAT@, 4, 0, 3) == (INV_MAT@[0] as int) * (MAT@[3] as int) + (INV_MAT@[1] as int) * (MAT@[7] as int) + (INV_MAT@[2] as int) * (MAT@[11] as int) + (INV_MAT@[3] as int) * (MAT@[15] as int));
    assert(((INV_MAT@[0] as int) * (MAT@[3] as int) + (INV_MAT@[1] as int) * (MAT@[7] as int) + (INV_MAT@[2] as int) * (MAT@[11] as int) + (INV_MAT@[3] as int) * (MAT@[15] as int)) % 340282366920938463463374557953744961537 == 0) by (nonlinear_arith)
        requires
            INV_MAT@[0] == 233336480174357803517742554025425116483, INV_MAT@[1] == 29167060021794725439717819253178139560, INV_MAT@[2] == 301392953558545496210417465616174108790, INV_MAT@[3] == 165280006790170110825067642434676124175, MAT@[3] == 1, MAT@[7] == 1, MAT@[11] == 2, MAT@[15] == 3,
    ;
}

proof fn lemma_product_backward_row_1()
    ensures
        identity_row(Elem::modulus(), INV_MAT@, MAT@, 4, 1, 4),
{
    reveal_with_fuel(sum, 5);
    reveal_with_fuel(identity_row, 5);
    assert(product_entry(INV_MAT@, MAT@, 4, 1, 0) == (INV_MAT@[4] as int) * (MAT@[0] as int) + (INV_MAT@[5] as int) * (MAT@[4] as int) + (INV_MAT@[6] as int) * (MAT@[8] as int) + (INV_MAT@[7] as int) * (MAT@[12] as int));
    assert(((INV_MAT@[4] as int) * (MAT@[0] as int) + (INV_MAT@[5] as int) * (MAT@[4] as int) + (INV_MAT@[6] as int) * (MAT@[8] as int) + (INV_MAT@[7] as int) * (MAT@[12] as int)) % 340282366920938463463374557953744961537 == 0) by (nonlinear_arith)
        requires
            INV_MAT@[4] == 165280006790170110825067642434676124175, INV_MAT@[5] == 233336480174357803517742554025425116483, INV_MAT@[6] == 29167060021794725439717819253178139560, INV_MAT@[7] == 301392953558545496210417465616174108790, MAT@[0] == 3, MAT@[4] == 1, MAT@[8] == 1, MAT@[12] == 2,
    ;
    assert(product_entry(INV_MAT@, MAT@, 4, 1, 1) == (INV_MAT@[4] as int) * (MAT@[1] as int) + (INV_MAT@[5] as int) * (MAT@[5] as int) + (INV_MAT@[6] as int) * (MAT@[9] as int) + (INV_MAT@[7] as int) * (MAT@[13] as int));
    assert(((INV_MAT@[4] as int) * (MAT@[1] as int) + (INV_MAT@[5] as int) * (MAT@[5] as int) + (INV_MAT@[6] as int) * (MAT@[9] as int) + (INV_MAT@[7] as int) * (MAT@[13] as int)) % 340282366920938463463374557953744961537 == 1) by (nonlinear_arith)
        requires
            INV_MAT@[4] == 165280006790170110825067642434676124175, INV_MAT@[5] == 233336480174357803517742554025425116483, INV_MAT@[6] == 29167060021794725439717819253178139560, INV_MAT@[7] == 301392953558545496210417465616174108790, MAT@[1] == 2, MAT@[5] == 3, MAT@[9] == 1, MAT@[13] == 1,
    ;
    assert(product_entry(INV_MAT@, MAT@, 4, 1, 2) == (INV_MAT@[4] as int) * (MAT@[2] as int) + (INV_MAT@[5] as int) * (MAT@[6] as int) + (INV_MAT@[6] as int) * (MAT@[10] as int) + (INV_MAT@[7] as int) * (MAT@[14] as int));
    assert(((INV_MAT@[4] as int) * (MAT@[2] as int) + (INV_MAT@[5] as int) * (MAT@[6] as int) + (INV_MAT@[6] as int) * (MAT@[10] as int) + (INV_MAT@[7] as int) * (MAT@[14] as int)) % 340282366920938463463374557953744961537 == 0) by (nonlinear_arith)
        requires
            INV_MAT@[4] == 165280006790170110825067642434676124175, INV_MAT@[5] == 233336480174357803517742554025425116483, INV_MAT@[6] == 29167060021794725439717819253178139560, INV_MAT@[7] == 301392953558545496210417465616174108790, MAT@[2] == 1, MAT@[6] == 2, MAT@[10] == 3, MAT@[14] == 1,
    ;
    assert(product_entry(INV_MAT@, MAT@, 4, 1, 3) == (INV_MAT@[4] as int) * (MAT@[3] as int) + (INV_MAT@[5] as int) * (MAT@[7] as int) + (INV_MAT@[6] as int) * (MAT@[11] as int) + (INV_MAT@[7] as int) * (MAT@[15] as int));
    assert(((INV_MAT@[4] as int) * (MAT@[3] as int) + (INV_MAT@[5] as int) * (MAT@[7] as int) + (INV_MAT@[6] as int) * (MAT@[11] as int) + (INV_MAT@[7] as int) * (MAT@[15] as int)) % 340282366920938463463374557953744961537 == 0) by (nonlinear_arith)
        requires
            INV_MAT@[4] == 165280006790170110825067642434676124175, INV_MAT@[5] == 233336480174357803517742554025425116483, INV_MAT@[6] == 29167060021794725439717819253178139560, INV_MAT@[7] == 301392953558545496210417465616174108790, MAT@[3] == 1, MAT@[7] == 1, MAT@[11] == 2, MAT@[15] == 3,
    ;
}

proof fn lemma_product_backward_row_2()
    ensures
        identity_row(Elem::modulus(), INV_MAT@, MAT@, 4, 2, 4),
{
    reveal_with_fuel(sum, 5);
    reveal_with_fuel(identity_row, 5);
    assert(product_entry(INV_MAT@, MAT@, 4, 2, 0) == (INV_MAT@[8] as int) * (MAT@[0] as int) + (INV_MAT@[9] as int) * (MAT@[4] as int) + (INV_MAT@[10] as int) * (MAT@[8] as int) + (INV_MAT@[11] as int) * (MAT@[12] as int));
    assert(((INV_MAT@[8] as int) * (MAT@[0] as int) + (INV_MAT@[9] as int) * (MAT@[4] as int) + (INV_MAT@[10] as int) * (MAT@[8] as int) + (INV_MAT@[11] as int) * (MAT@[12] as int)) % 340282366920938463463374557953744961537 == 0) by (nonlinear_arith)
        requires
            INV_MAT@[8] == 301392953558545496210417465616174108790, INV_MAT@[9] == 165280006790170110825067642434676124175, INV_MAT@[10] == 233336480174357803517742554025425116483, INV_MAT@[11] == 29167060021794725439717819253178139560, MAT@[0] == 3, MAT@[4] == 1, MAT@[8] == 1, MAT@[12] == 2,
    ;
    assert(product_entry(INV_MAT@, MAT@, 4, 2, 1) == (INV_MAT@[8] as int) * (MAT@[1] as int) + (INV_MAT@[9] as int) * (MAT@[5] as int) + (INV_MAT@[10] as int) * (MAT@[9] as int) + (INV_MAT@[11] as int) * (MAT@[13] as int));
    assert(((INV_MAT@[8] as int) * (MAT@[1] as int) + (INV_MAT@[9] as int) * (MAT@[5] as int) + (INV_MAT@[10] as int) * (MAT@[9] as int) + (INV_MAT@[11] as int) * (MAT@[13] as int)) % 340282366920938463463374557953744961537 == 0) by (nonlinear_arith)
        requires
            INV_MAT@[8] == 301392953558545496210417465616174108790, INV_MAT@[9] == 165280006790170110825067642434676124175, INV_MAT@[10] == 233336480174357803517742554025425116483, INV_MAT@[11] == 29167060021794725439717819253178139560, MAT@[1] == 2, MAT@[5] == 3, MAT@[9] == 1, MAT@[13] == 1,
    ;
    assert(product_entry(INV_MAT@, MAT@, 4, 2, 2) == (INV_MAT@[8] as int) * (MAT@[2] as int) + (INV_MAT@[9] as int) * (MAT@[6] as int) + (INV_MAT@[10] as int) * (MAT@[10] as int) + (INV_MAT@[11] as int) * (MAT@[14] as int));
    assert(((INV_MAT@[8] as int) * (MAT@[2] as int) + (INV_MAT@[9] as int) * (MAT@[6] as int) + (INV_MAT@[10] as int) * (MAT@[10] as int) + (INV_MAT@[11] as int) * (MAT@[14] as int)) % 340282366920938463463374557953744961537 == 1) by (nonlinear_arith)
        requires
            INV_MAT@[8] == 301392953558545496210417465616174108790, INV_MAT@[9] == 165280006790170110825067642434676124175, INV_MAT@[10] == 233336480174357803517742554025425116483, INV_MAT@[11] == 29167060021794725439717819253178139560, MAT@[2] == 1, MAT@[6] == 2, MAT@[10] == 3, MAT@[14] == 1,
    ;
    assert(product_entry(INV_MAT@, MAT@, 4, 2, 3) == (INV_MAT@[8] as int) * (MAT@[3] as int) + (INV_MAT@[9] as int) * (MAT@[7] as int) + (INV_MAT@[10] as int) * (MAT@[11] as int) + (INV_MAT@[11] as int) * (MAT@[15] as int));
    assert(((INV_MAT@[8] as int) * (MAT@[3] as int) + (INV_MAT@[9] as int) * (MAT@[7] as int) + (INV_MAT@[10] as int) * (MAT@[11] as int) + (INV_MAT@[11] as int) * (MAT@[15] as int)) % 340282366920938463463374557953744961537 == 0) by (nonlinear_arith)
        requires
            INV_MAT@[8] == 301392953558545496210417465616174108790, INV_MAT@[9] == 165280006790170110825067642434676124175, INV_MAT@[10] == 233336480174357803517742554025425116483, INV_MAT@[11] == 29167060021794725439717819253178139560, MAT@[3] == 1, MAT@[7] == 1, MAT@[11] == 2, MAT@[15] == 3,
    ;
}

proof fn lemma_product_backward_row_3()
    ensures
        identity_row(Elem::modulus(), INV_MAT@, MAT@, 4, 3, 4),
{
    reveal_with_fuel(sum, 5);
    reveal_with_fuel(identity_row, 5);
    assert(product_entry(INV_MAT@, MAT@, 4, 3, 0) == (INV_MAT@[12] as int) * (MAT@[0] as int) + (INV_MAT@[13] as int) * (MAT@[4] as int) + (INV_MAT@[14] as int) * (MAT@[8] as int) + (INV_MAT@[15] as int) * (MAT@[12] as int));
    assert(((INV_MAT@[12] as int) * (MAT@[0] as int) + (INV_MAT@[13] as int) * (MAT@[4] as int) + (INV_MAT@[14] as int) * (MAT@[8] as int) + (INV_MAT@[15] as int) * (MAT@[12] as int)) % 340282366920938463463374557953744961537 == 0) by (nonlinear_arith)
        requires
            INV_MAT@[12] == 29167060021794725439717819253178139560, INV_MAT@[13] == 301392953558545496210417465616174108790, INV_MAT@[14] == 165280006790170110825067642434676124175, INV_MAT@[15] == 233336480174357803517742554025425116483, MAT@[0] == 3, MAT@[4] == 1, MAT@[8] == 1, MAT@[12] == 2,
    ;
    assert(product_entry(INV_MAT@, MAT@, 4, 3, 1) == (INV_MAT@[12] as int) * (MAT@[1] as int) + (INV_MAT@[13] as int) * (MAT@[5] as int) + (INV_MAT@[14] as int) * (MAT@[9] as int) + (INV_MAT@[15] as int) * (MAT@[13] as int));
    assert(((INV_MAT@[12] as int) * (MAT@[1] as int) + (INV_MAT@[13] as int) * (MAT@[5] as int) + (INV_MAT@[14] as int) * (MAT@[9] as int) + (INV_MAT@[15] as int) * (MAT@[13] as int)) % 340282366920938463463374557953744961537 == 0) by (nonlinear_arith)
        requires
            INV_MAT@[12] == 29167060021794725439717819253178139560, INV_MAT@[13] == 301392953558545496210417465616174108790, INV_MAT@[14] == 165280006790170110825067642434676124175, INV_MAT@[15] == 233336480174357803517742554025425116483, MAT@[1] == 2, MAT@[5] == 3, MAT@[9] == 1, MAT@[13] == 1,
    ;
    assert(product_entry(INV_MAT@, MAT@, 4, 3, 2) == (INV_MAT@[12] as int) * (MAT@[2] as int) + (INV_MAT@[13] as int) * (MAT@[6] as int) + (INV_MAT@[14] as int) * (MAT@[10] as int) + (INV_MAT@[15] as int) * (MAT@[14] as int));
    assert(((INV_MAT@[12] as int) * (MAT@[2] as int) + (INV_MAT@[13] as int) * (MAT@[6] as int) + (INV_MAT@[14] as int) * (MAT@[10] as int) + (INV_MAT@[15] as int) * (MAT@[14] as int)) % 340282366920938463463374557953744961537 == 0) by (nonlinear_arith)
        requires
            INV_MAT@[12] == 29167060021794725439717819253178139560, INV_MAT@[13] == 301392953558545496210417465616174108790, INV_MAT@[14] == 165280006790170110825067642434676124175, INV_MAT@[15] == 233336480174357803517742554025425116483, MAT@[2] == 1, MAT@[6] == 2, MAT@[10] == 3, MAT@[14] == 1,
    ;
    assert(product_entry(INV_MAT@, MAT@, 4, 3, 3) == (INV_MAT@[12] as int) * (MAT@[3] as int) + (INV_MAT@[13] as int) * (MAT@[7] as int) + (INV_MAT@[14] as int) * (MAT@[11] as int) + (INV_MAT@[15] as int) * (MAT@[15] as int));
    assert(((INV_MAT@[12] as int) * (MAT@[3] as int) + (INV_MAT@[13] as int) * (MAT@[7] as int) + (INV_MAT@[14] as int) * (MAT@[11] as int) + (INV_MAT@[15] as int) * (MAT@[15] as int)) % 340282366920938463463374557953744961537 == 1) by (nonlinear_arith)
        requires
            INV_MAT@[12] == 29167060021794725439717819253178139560, INV_MAT@[13] == 301392953558545496210417465616174108790, INV_MAT@[14] == 165280006790170110825067642434676124175, INV_MAT@[15] == 233336480174357803517742554025425116483, MAT@[3] == 1, MAT@[7] == 1, MAT@[11] == 2, MAT@[15] == 3,
    ;
}

proof fn lemma_product_backward()
    ensures
        product_is_identity(Elem::modulus(), INV_MAT@, MAT@, 4),
{
    lemma_product_backward_row_0();
    lemma_product_backward_row_1();
    lemma_product_backward_row_2();
    lemma_product_backward_row_3();
    reveal_with_fuel(identity_rows, 5);
    assert(identity_rows(Elem::modulus(), INV_MAT@, MAT@, 4, 4));
    lemma_identity_rows(Elem::modulus(), INV_MAT@, MAT@, 4);
}

/// The digest of `input_sequence`, whose length must be a multiple of `RATE`.
pub fn hash(input_sequence: &Vec<Elem>) -> (r: [Elem; RATE])
    requires
        input_sequence@.len() % (RATE as nat) == 0,
    ensures
        vals(r@) == hash_spec(spec_params(), Elem::modulus(), vals(input_sequence@)),
{
    griffin_hash(input_sequence)
}

/// The sponge: starting from the zero state, each chunk of `RATE` elements is added onto the
/// first lanes and the state permuted; the digest is the first `RATE` lanes.
pub fn griffin_hash(input_sequence: &Vec<Elem>) -> (r: [Elem; RATE])
    requires
        input_sequence@.len() % (RATE as nat) == 0,
    ensures
        vals(r@) == hash_spec(spec_params(), Elem::modulus(), vals(input_sequence@)),
{
    let digest = params().hash(input_sequence);
    to_array(&digest)
}

/// Applies the `NUM_ROUNDS` rounds to `state`.
pub fn griffin_permutation(state: &mut [Elem; STATE_WIDTH])
    ensures
        vals(final(state)@) == permutation_spec(spec_params(), Elem::modulus(), vals(old(state)@)),
{
    params().permutation(state);
}

/// Applies round `round % NUM_ROUNDS` to `state`.
pub fn apply_round(state: &mut [Elem], round: usize)
    requires
        old(state)@.len() == STATE_WIDTH,
    ensures
        final(state)@.len() == STATE_WIDTH,
        vals(final(state)@) == round_spec(
            spec_params(),
            Elem::modulus(),
            vals(old(state)@),
            round as nat,
        ),
{
    params().apply_round(state, round);
}

/// Adds to `result_slice` the residuals of the first round between `current_slice` and
/// `next_slice`, scaled by `flag`: the state is mixed once before the non-linear layer.
pub fn enforce_first_round<E: PrimeField>(
    result_slice: &mut [E],
    current_slice: &[E],
    next_slice: &[E],
    round_constants: &[E],
    flag: E,
)
    requires
        current_slice@.len() == STATE_WIDTH,
        next_slice@.len() == STATE_WIDTH,
        round_constants@.len() >= STATE_WIDTH,
        old(result_slice)@.len() >= STATE_WIDTH,
    ensures
        final(result_slice)@.len() == old(result_slice)@.len(),
        vals(final(result_slice)@) == nonlinear_residuals(
            spec_params(),
            E::modulus(),
            vals(old(result_slice)@),
            mat_vec(E::modulus(), MAT@, STATE_WIDTH as nat, vals(current_slice@)),
            recovered(spec_params(), E::modulus(), vals(next_slice@), vals(round_constants@)),
            flag.val(),
        ),
{
    params().enforce_first_round(result_slice, current_slice, next_slice, round_constants, flag);
}

/// Adds to `result_slice` the residuals of a round other than the first between
/// `current_slice` and `next_slice`, scaled by `flag`.
pub fn enforce_round<E: PrimeField>(
    result_slice: &mut [E],
    current_slice: &[E],
    next_slice: &[E],
    round_constants: &[E],
    flag: E,
)
    requires
        current_slice@.len() == STATE_WIDTH,
        next_slice@.len() == STATE_WIDTH,
        round_constants@.len() >= STATE_WIDTH,
        old(result_slice)@.len() >= STATE_WIDTH,
    ensures
        final(result_slice)@.len() == old(result_slice)@.len(),
        vals(final(result_slice)@) == nonlinear_residuals(
            spec_params(),
            E::modulus(),
            vals(old(result_slice)@),
            vals(current_slice@),
            recovered(spec_params(), E::modulus(), vals(next_slice@), vals(round_constants@)),
            flag.val(),
        ),
{
    params().enforce_round(result_slice, current_slice, next_slice, round_constants, flag);
}

/// The round constants in `STATE_WIDTH` columns of length `cycle_length`, the constants of
/// round `i` at position `(i + shift) % cycle_length` and zeros elsewhere.
pub fn get_round_constants_periodic(cycle_length: usize, shift: usize) -> (r: Vec<Vec<Elem>>)
    requires
        cycle_length > 0,
        shift + NUM_ROUNDS <= usize::MAX,
    ensures
        r@.len() == STATE_WIDTH,
        forall|j: int|
            0 <= j < STATE_WIDTH ==> vals(#[trigger] r@[j]@) == periodic_column(
                Elem::modulus(),
                ROUND_CONSTANTS@,
                STATE_WIDTH as nat,
                j as nat,
                cycle_length as nat,
                shift as nat,
                NUM_ROUNDS as nat,
            ),
{
    params().round_constants_periodic(cycle_length, shift)
}

} // verus!

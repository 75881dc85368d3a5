//! Rescue-Prime over the 62-bit prime field (modulus `MODULUS_62`): width 4, capacity 3, 15 rounds, S-box
//! exponent 3, security of at least 128 bits.

use vstd::prelude::*;
use crate::field::{Felt62, PrimeField, canonical_seq, vals};
use crate::layers::{
    absorb_lanes_spec, exp_undoes, fermat, lemma_exponents_invert, periodic_column, to_array,
    zeros, undoes,
};
use crate::matrix::{
    identity_row, identity_rows, lemma_identity_rows, lemma_product_identity_undoes, product_entry,
    product_is_identity, sum,
};
use crate::rescue::{
    RescueParams, hash_spec, lemma_first_round_constraints_vanish, lemma_round_constraints_vanish,
    pad_spec, permutation_spec, round_residuals, round_spec,
};

verus! {

pub type Elem = Felt62;

pub const NUM_ROUNDS: usize = 15;
pub const STATE_WIDTH: usize = 4;
pub const CAPACITY: usize = 3;
pub const RATE: usize = STATE_WIDTH - CAPACITY;

/// The exponent of the forward S-box.
pub const ALPHA: u128 = 3;

/// The exponent of the inverse S-box: the inverse of `ALPHA` modulo the prime minus one.
pub const INV_ALPHA: u128 = 3074416663688030891;

/// The mixing matrix, row-major.
pub const MDS: [u128; 16] = [
    4611624995532045608, 1080, 4611624995532045947,
    40, 4611624995532017177, 42471,
    4611624995532031817, 1210, 4611624995531164247,
    1277640, 4611624995531616908, 33880,
    4611624995507347817, 35708310, 4611624995520110777,
    925771,
];

/// The inverse of `MDS`, row-major.
pub const INV_MDS: [u128; 16] = [
    3835753351312808841, 505991969560173536, 3204166179701427449,
    1677338490489682849, 3912489244545528721, 2992699836076075320,
    1194730044134442280, 1123330866308046354, 1961047666138455920,
    4252451032307404410, 2998036551482399275, 11714741135833070,
    683203703041784644, 778093106242032509, 4295326984864553447,
    3466626196915722075,
];

/// `2 × STATE_WIDTH` constants per round.
pub const ROUND_CONSTANTS: [u128; 120] = [
    701104025118976884, 3829713303167962021, 3493944243763378989,
    2252961374134939104, 966764098212384772, 4287820704531755629,
    2166403522297030610, 618002652599374859, 3536254835601188773,
    2861149515806932376, 1516959689842592780, 456557379546570520,
    2607995063063254379, 1097665560591934335, 3874014569716568621,
    4328552626972127492, 3117515282420604315, 519891142352399260,
    3483850909183648329, 900205189715881671, 1481905392709594888,
    3052845865309885592, 1375806108908699034, 459747437070800832,
    2660675196195863879, 2473961292001812919, 1688424447542423205,
    1072879623692832709, 2043624929897786422, 2924069510687746780,
    3918159506389054584, 3774335076707280751, 1752492718010628726,
    1073415166620835594, 726159715901766514, 2832104204500498498,
    1478223063348339174, 1289244337861918911, 3823587875630140191,
    3588039810137281697, 3463987949232753759, 1797932357542146820,
    1315812089826815911, 2852221434136956255, 127452407719209377,
    2808984078052786515, 841583956540965906, 4422855586625390271,
    3611388390062903382, 2031922030059909696, 2697829724397558788,
    2267583763654229653, 1280756594131679795, 1370848993366626326,
    2467993517698147583, 3957167007821752654, 3968552685888324323,
    1077597098581876493, 3532806674550843103, 1380430401468485690,
    775669586176670288, 2530435515917871822, 3868902280832932300,
    705390454674938413, 4422929781402517350, 2892417706985188713,
    4348168646885837690, 2538981446171348305, 2034740708531478292,
    305737397904337515, 3192833973243637715, 4421690400022691196,
    3760337393237790454, 4371382887156124577, 516988938743947622,
    4351062387731842131, 665905576053960907, 1747121705445084414,
    1808644441886091899, 483058335268190401, 1558263247006248009,
    1275376746065912363, 4457599726575435044, 871915951082478040,
    2685409183107778460, 4550507981018864744, 1260288007192469457,
    4025665905376751681, 160018679881676489, 1525322003903609074,
    4451140015131640929, 3999641557131347821, 2269466241244753090,
    3075446558169756042, 3659040822406101045, 3504624307026803629,
    4553458974677283679, 3614487929967415309, 2820728715312404135,
    2508645214701419950, 4511767726020150650, 4148028150874685199,
    3874565705990269238, 3787893980853325736, 821847811480125713,
    3621230732181582318, 1801780046903573595, 3174993236396752667,
    302309678139414184, 2474070870877720658, 2139081438680603181,
    817021037372976679, 73452920264340984, 2248383741259597603,
    1524155271118572611, 2157883594944041856, 388555251834568743,
    3359700906391244644, 1085426295298952844, 3890091597351953114,
];

/// This instance's constants.
pub open spec fn spec_params() -> RescueParams {
    RescueParams {
        width: STATE_WIDTH,
        capacity: CAPACITY,
        rounds: NUM_ROUNDS,
        alpha: ALPHA,
        inv_alpha: INV_ALPHA,
        mds: &MDS,
        inv_mds: &INV_MDS,
        round_constants: &ROUND_CONSTANTS,
    }
}

/// This instance's constants.
pub fn params() -> (r: RescueParams)
    ensures
        r == spec_params(),
        r.wf(),
{
    RescueParams {
        width: STATE_WIDTH,
        capacity: CAPACITY,
        rounds: NUM_ROUNDS,
        alpha: ALPHA,
        inv_alpha: INV_ALPHA,
        mds: &MDS,
        inv_mds: &INV_MDS,
        round_constants: &ROUND_CONSTANTS,
    }
}

/// The two S-box exponents undo each other, both ways, on every residue, wherever Fermat's
/// little theorem holds for the modulus.
pub proof fn lemma_sbox_exponents_invert()
    requires
        fermat(Elem::modulus()),
    ensures
        exp_undoes(Elem::modulus(), ALPHA as nat, INV_ALPHA as nat),
        exp_undoes(Elem::modulus(), INV_ALPHA as nat, ALPHA as nat),
{
    lemma_exponents_invert(Elem::modulus(), ALPHA as nat, INV_ALPHA as nat);
}

/// With flag one, the round constraints vanish on every state of residues and the state that
/// round `r` makes of it, and on the same with a chunk of input absorbed first, wherever
/// Fermat's little theorem holds for the modulus (it does, the modulus being prime).
pub proof fn lemma_constraints_vanish(cur: Seq<int>, chunk: Seq<int>, r: nat)
    requires
        cur.len() == STATE_WIDTH,
        chunk.len() == RATE,
        canonical_seq(cur, Elem::modulus()),
        fermat(Elem::modulus()),
    ensures
        round_residuals(
            spec_params(),
            Elem::modulus(),
            zeros(STATE_WIDTH as nat),
            cur,
            round_spec(spec_params(), Elem::modulus(), cur, r),
            spec_params().round_consts(Elem::modulus(), r % (NUM_ROUNDS as nat)),
            1,
        ) == zeros(STATE_WIDTH as nat),
        round_residuals(
            spec_params(),
            Elem::modulus(),
            zeros(STATE_WIDTH as nat),
            absorb_lanes_spec(Elem::modulus(), cur, chunk),
            round_spec(spec_params(), Elem::modulus(), absorb_lanes_spec(Elem::modulus(), cur, chunk), r),
            spec_params().round_consts(Elem::modulus(), r % (NUM_ROUNDS as nat)),
            1,
        ) == zeros(STATE_WIDTH as nat),
{
    lemma_matrices_invert();
    lemma_exponents_invert(Elem::modulus(), ALPHA as nat, INV_ALPHA as nat);
    lemma_round_constraints_vanish(spec_params(), Elem::modulus(), cur, r);
    lemma_first_round_constraints_vanish(spec_params(), Elem::modulus(), cur, chunk, r);
}

/// With flag one, the round constraints do not all vanish on a state of residues and any state
/// of residues other than the one that round `r` makes of it, wherever Fermat's little
/// theorem holds for the modulus.
pub proof fn lemma_wrong_next_detected(cur: Seq<int>, other: Seq<int>, r: nat)
    requires
        cur.len() == STATE_WIDTH,
        canonical_seq(cur, Elem::modulus()),
        other.len() == STATE_WIDTH,
        canonical_seq(other, Elem::modulus()),
        other != round_spec(spec_params(), Elem::modulus(), cur, r),
        fermat(Elem::modulus()),
    ensures
        round_residuals(
            spec_params(),
            Elem::modulus(),
            zeros(STATE_WIDTH as nat),
            cur,
            other,
            spec_params().round_consts(Elem::modulus(), r % (NUM_ROUNDS as nat)),
            1,
        ) != zeros(STATE_WIDTH as nat),
{
    lemma_matrices_invert();
    lemma_exponents_invert(Elem::modulus(), ALPHA as nat, INV_ALPHA as nat);
    crate::rescue::lemma_wrong_next_detected(spec_params(), Elem::modulus(), cur, other, r);
}

/// The mixing matrix and its inverse undo each other on every vector of residues.
pub proof fn lemma_matrices_invert()
    ensures
        undoes(Elem::modulus(), MDS@, INV_MDS@, STATE_WIDTH as nat),
        undoes(Elem::modulus(), INV_MDS@, MDS@, STATE_WIDTH as nat),
{
    lemma_product_forward();
    lemma_product_backward();
    lemma_product_identity_undoes(Elem::modulus(), MDS@, INV_MDS@, STATE_WIDTH as nat);
    lemma_product_identity_undoes(Elem::modulus(), INV_MDS@, MDS@, STATE_WIDTH as nat);
}

proof fn lemma_product_forward_row_0()
    ensures
        identity_row(Elem::modulus(), MDS@, INV_MDS@, 4, 0, 4),
{
    reveal_with_fuel(sum, 5);
    reveal_with_fuel(identity_row, 5);
    assert(product_entry(MDS@, INV_MDS@, 4, 0, 0) == (MDS@[0] as int) * (INV_MDS@[0] as int) + (MDS@[1] as int) * (INV_MDS@[4] as int) + (MDS@[2] as int) * (INV_MDS@[8] as int) + (MDS@[3] as int) * (INV_MDS@[12] as int));
    assert(((MDS@[0] as int) * (INV_MDS@[0] as int) + (MDS@[1] as int) * (INV_MDS@[4] as int) + (MDS@[2] as int) * (INV_MDS@[8] as int) + (MDS@[3] as int) * (INV_MDS@[12] as int)) % 4611624995532046337 == 1) by (nonlinear_arith)
        requires
            MDS@[0] == 4611624995532045608, MDS@[1] == 1080, MDS@[2] == 4611624995532045947, MDS@[3] == 40, INV_MDS@[0] == 3835753351312808841, INV_MDS@[4] == 3912489244545528721, INV_MDS@[8] == 1961047666138455920, INV_MDS@[12] == 683203703041784644,
    ;
    assert(product_entry(MDS@, INV_MDS@, 4, 0, 1) == (MDS@[0] as int) * (INV_MDS@[1] as int) + (MDS@[1] as int) * (INV_MDS@[5] as int) + (MDS@[2] as int) * (INV_MDS@[9] as int) + (MDS@[3] as int) * (INV_MDS@[13] as int));
    assert(((MDS@[0] as int) * (INV_MDS@[1] as int) + (MDS@[1] as int) * (INV_MDS@[5] as int) + (MDS@[2] as int) * (INV_MDS@[9] as int) + (MDS@[3] as int) * (INV_MDS@[13] as int)) % 4611624995532046337 == 0) by (nonlinear_arith)
        requires
            MDS@[0] == 4611624995532045608, MDS@[1] == 1080, MDS@[2] == 4611624995532045947, MDS@[3] == 40, INV_MDS@[1] == 505991969560173536, INV_MDS@[5] == 2992699836076075320, INV_MDS@[9] == 4252451032307404410, INV_MDS@[13] == 778093106242032509,
    ;
    assert(product_entry(MDS@, INV_MDS@, 4, 0, 2) == (MDS@[0] as int) * (INV_MDS@[2] as int) + (MDS@[1] as int) * (INV_MDS@[6] as int) + (MDS@[2] as int) * (INV_MDS@[10] as int) + (MDS@[3] as int) * (INV_MDS@[14] as int));
    assert(((MDS@[0] as int) * (INV_MDS@[2] as int) + (MDS@[1] as int) * (INV_MDS@[6] as int) + (MDS@[2] as int) * (INV_MDS@[10] as int) + (MDS@[3] as int) * (INV_MDS@[14] as int)) % 4611624995532046337 == 0) by (nonlinear_arith)
        requires
            MDS@[0] == 4611624995532045608, MDS@[1] == 1080, MDS@[2] == 4611624995532045947, MDS@[3] == 40, INV_MDS@[2] == 3204166179701427449, INV_MDS@[6] == 1194730044134442280, INV_MDS@[10] == 2998036551482399275, INV_MDS@[14] == 4295326984864553447,
    ;
    assert(product_entry(MDS@, INV_MDS@, 4, 0, 3) == (MDS@[0] as int) * (INV_MDS@[3] as int) + (MDS@[1] as int) * (INV_MDS@[7] as int) + (MDS@[2] as int) * (INV_MDS@[11] as int) + (MDS@[3] as int) * (INV_MDS@[15] as int));
    assert(((MDS@[0] as int) * (INV_MDS@[3] as int) + (MDS@[1] as int) * (INV_MDS@[7] as int) + (MDS@[2] as int) * (INV_MDS@[11] as int) + (MDS@[3] as int) * (INV_MDS@[15] as int)) % 4611624995532046337 == 0) by (nonlinear_arith)
        requires
            MDS@[0] == 4611624995532045608, MDS@[1] == 1080, MDS@[2] == 4611624995532045947, MDS@[3] == 40, INV_MDS@[3] == 1677338490489682849, INV_MDS@[7] == 1123330866308046354, INV_MDS@[11] == 11714741135833070, INV_MDS@[15] == 3466626196915722075,
    ;
}

proof fn lemma_product_forward_row_1()
    ensures
        identity_row(Elem::modulus(), MDS@, INV_MDS@, 4, 1, 4),
{
    reveal_with_fuel(sum, 5);
    reveal_with_fuel(identity_row, 5);
    assert(product_entry(MDS@, INV_MDS@, 4, 1, 0) == (MDS@[4] as int) * (INV_MDS@[0] as int) + (MDS@[5] as int) * (INV_MDS@[4] as int) + (MDS@[6] as int) * (INV_MDS@[8] as int) + (MDS@[7] as int) * (INV_MDS@[12] as int));
    assert(((MDS@[4] as int) * (INV_MDS@[0] as int) + (MDS@[5] as int) * (INV_MDS@[4] as int) + (MDS@[6] as int) * (INV_MDS@[8] as int) + (MDS@[7] as int) * (INV_MDS@[12] as int)) % 4611624995532046337 == 0) by (nonlinear_arith)
        requires
            MDS@[4] == 4611624995532017177, MDS@[5] == 42471, MDS@[6] == 4611624995532031817, MDS@[7] == 1210, INV_MDS@[0] == 3835753351312808841, INV_MDS@[4] == 3912489244545528721, INV_MDS@[8] == 1961047666138455920, INV_MDS@[12] == 683203703041784644,
    ;
    assert(product_entry(MDS@, INV_MDS@, 4, 1, 1) == (MDS@[4] as int) * (INV_MDS@[1] as int) + (MDS@[5] as int) * (INV_MDS@[5] as int) + (MDS@[6] as int) * (INV_MDS@[9] as int) + (MDS@[7] as int) * (INV_MDS@[13] as int));
    assert(((MDS@[4] as int) * (INV_MDS@[1] as int) + (MDS@[5] as int) * (INV_MDS@[5] as int) + (MDS@[6] as int) * (INV_MDS@[9] as int) + (MDS@[7] as int) * (INV_MDS@[13] as int)) % 4611624995532046337 == 1) by (nonlinear_arith)
        requires
            MDS@[4] == 4611624995532017177, MDS@[5] == 42471, MDS@[6] == 4611624995532031817, MDS@[7] == 1210, INV_MDS@[1] == 505991969560173536, INV_MDS@[5] == 2992699836076075320, INV_MDS@[9] == 4252451032307404410, INV_MDS@[13] == 778093106242032509,
    ;
    assert(product_entry(MDS@, INV_MDS@, 4, 1, 2) == (MDS@[4] as int) * (INV_MDS@[2] as int) + (MDS@[5] as int) * (INV_MDS@[6] as int) + (MDS@[6] as int) * (INV_MDS@[10] as int) + (MDS@[7] as int) * (INV_MDS@[14] as int));
    assert(((MDS@[4] as int) * (INV_MDS@[2] as int) + (MDS@[5] as int) * (INV_MDS@[6] as int) + (MDS@[6] as int) * (INV_MDS@[10] as int) + (MDS@[7] as int) * (INV_MDS@[14] as int)) % 4611624995532046337 == 0) by (nonlinear_arith)
        requires
            MDS@[4] == 4611624995532017177, MDS@[5] == 42471, MDS@[6] == 4611624995532031817, MDS@[7] == 1210, INV_MDS@[2] == 3204166179701427449, INV_MDS@[6] == 1194730044134442280, INV_MDS@[10] == 2998036551482399275, INV_MDS@[14] == 4295326984864553447,
    ;
    assert(product_entry(MDS@, INV_MDS@, 4, 1, 3) == (MDS@[4] as int) * (INV_MDS@[3] as int) + (MDS@[5] as int) * (INV_MDS@[7] as int) + (MDS@[6] as int) * (INV_MDS@[11] as int) + (MDS@[7] as int) * (INV_MDS@[15] as int));
    assert(((MDS@[4] as int) * (INV_MDS@[3] as int) + (MDS@[5] as int) * (INV_MDS@[7] as int) + (MDS@[6] as int) * (INV_MDS@[11] as int) + (MDS@[7] as int) * (INV_MDS@[15] as int)) % 4611624995532046337 == 0) by (nonlinear_arith)
        requires
            MDS@[4] == 4611624995532017177, MDS@[5] == 42471, MDS@[6] == 4611624995532031817, MDS@[7] == 1210, INV_MDS@[3] == 1677338490489682849, INV_MDS@[7] == 1123330866308046354, INV_MDS@[11] == 11714741135833070, INV_MDS@[15] == 3466626196915722075,
    ;
}

proof fn lemma_product_forward_row_2()
    ensures
        identity_row(Elem::modulus(), MDS@, INV_MDS@, 4, 2, 4),
{
    reveal_with_fuel(sum, 5);
    reveal_with_fuel(identity_row, 5);
    assert(product_entry(MDS@, INV_MDS@, 4, 2, 0) == (MDS@[8] as int) * (INV_MDS@[0] as int) + (MDS@[9] as int) * (INV_MDS@[4] as int) + (MDS@[10] as int) * (INV_MDS@[8] as int) + (MDS@[11] as int) * (INV_MDS@[12] as int));
    assert(((MDS@[8] as int) * (INV_MDS@[0] as int) + (MDS@[9] as int) * (INV_MDS@[4] as int) + (MDS@[10] as int) * (INV_MDS@[8] as int) + (MDS@[11] as int) * (INV_MDS@[12] as int)) % 4611624995532046337 == 0) by (nonlinear_arith)
        requires
            MDS@[8] == 4611624995531164247, MDS@[9] == 1277640, MDS@[10] == 4611624995531616908, MDS@[11] == 33880, INV_MDS@[0] == 3835753351312808841, INV_MDS@[4] == 3912489244545528721, INV_MDS@[8] == 1961047666138455920, INV_MDS@[12] == 683203703041784644,
    ;
    assert(product_entry(MDS@, INV_MDS@, 4, 2, 1) == (MDS@[8] as int) * (INV_MDS@[1] as int) + (MDS@[9] as int) * (INV_MDS@[5] as int) + (MDS@[10] as int) * (INV_MDS@[9] as int) + (MDS@[11] as int) * (INV_MDS@[13] as int));
    assert(((MDS@[8] as int) * (INV_MDS@[1] as int) + (MDS@[9] as int) * (INV_MDS@[5] as int) + (MDS@[10] as int) * (INV_MDS@[9] as int) + (MDS@[11] as int) * (INV_MDS@[13] as int)) % 4611624995532046337 == 0) by (nonlinear_arith)
        requires
            MDS@[8] == 4611624995531164247, MDS@[9] == 1277640, MDS@[10] == 4611624995531616908, MDS@[11] == 33880, INV_MDS@[1] == 505991969560173536, INV_MDS@[5] == 2992699836076075320, INV_MDS@[9] == 4252451032307404410, INV_MDS@[13] == 778093106242032509,
    ;
    assert(product_entry(MDS@, INV_MDS@, 4, 2, 2) == (MDS@[8] as int) * (INV_MDS@[2] as int) + (MDS@[9] as int) * (INV_MDS@[6] as int) + (MDS@[10] as int) * (INV_MDS@[10] as int) + (MDS@[11] as int) * (INV_MDS@[14] as int));
    assert(((MDS@[8] as int) * (INV_MDS@[2] as int) + (MDS@[9] as int) * (INV_MDS@[6] as int) + (MDS@[10] as int) * (INV_MDS@[10] as int) + (MDS@[11] as int) * (INV_MDS@[14] as int)) % 4611624995532046337 == 1) by (nonlinear_arith)
        requires
            MDS@[8] == 4611624995531164247, MDS@[9] == 1277640, MDS@[10] == 4611624995531616908, MDS@[11] == 33880, INV_MDS@[2] == 3204166179701427449, INV_MDS@[6] == 1194730044134442280, INV_MDS@[10] == 2998036551482399275, INV_MDS@[14] == 4295326984864553447,
    ;
    assert(product_entry(MDS@, INV_MDS@, 4, 2, 3) == (MDS@[8] as int) * (INV_MDS@[3] as int) + (MDS@[9] as int) * (INV_MDS@[7] as int) + (MDS@[10] as int) * (INV_MDS@[11] as int) + (MDS@[11] as int) * (INV_MDS@[15] as int));
    assert(((MDS@[8] as int) * (INV_MDS@[3] as int) + (MDS@[9] as int) * (INV_MDS@[7] as int) + (MDS@[10] as int) * (INV_MDS@[11] as int) + (MDS@[11] as int) * (INV_MDS@[15] as int)) % 4611624995532046337 == 0) by (nonlinear_arith)
        requires
            MDS@[8] == 4611624995531164247, MDS@[9] == 1277640, MDS@[10] == 4611624995531616908, MDS@[11] == 33880, INV_MDS@[3] == 1677338490489682849, INV_MDS@[7] == 1123330866308046354, INV_MDS@[11] == 11714741135833070, INV_MDS@[15] == 3466626196915722075,
    ;
}

proof fn lemma_product_forward_row_3()
    ensures
        identity_row(Elem::modulus(), MDS@, INV_MDS@, 4, 3, 4),
{
    reveal_with_fuel(sum, 5);
    reveal_with_fuel(identity_row, 5);
    assert(product_entry(MDS@, INV_MDS@, 4, 3, 0) == (MDS@[12] as int) * (INV_MDS@[0] as int) + (MDS@[13] as int) * (INV_MDS@[4] as int) + (MDS@[14] as int) * (INV_MDS@[8] as int) + (MDS@[15] as int) * (INV_MDS@[12] as int));
    assert(((MDS@[12] as int) * (INV_MDS@[0] as int) + (MDS@[13] as int) * (INV_MDS@[4] as int) + (MDS@[14] as int) * (INV_MDS@[8] as int) + (MDS@[15] as int) * (INV_MDS@[12] as int)) % 4611624995532046337 == 0) by (nonlinear_arith)
        requires
            MDS@[12] == 4611624995507347817, MDS@[13] == 35708310, MDS@[14] == 4611624995520110777, MDS@[15] == 925771, INV_MDS@[0] == 3835753351312808841, INV_MDS@[4] == 3912489244545528721, INV_MDS@[8] == 1961047666138455920, INV_MDS@[12] == 683203703041784644,
    ;
    assert(product_entry(MDS@, INV_MDS@, 4, 3, 1) == (MDS@[12] as int) * (INV_MDS@[1] as int) + (MDS@[13] as int) * (INV_MDS@[5] as int) + (MDS@[14] as int) * (INV_MDS@[9] as int) + (MDS@[15] as int) * (INV_MDS@[13] as int));
    assert(((MDS@[12] as int) * (INV_MDS@[1] as int) + (MDS@[13] as int) * (INV_MDS@[5] as int) + (MDS@[14] as int) * (INV_MDS@[9] as int) + (MDS@[15] as int) * (INV_MDS@[13] as int)) % 4611624995532046337 == 0) by (nonlinear_arith)
        requires
            MDS@[12] == 4611624995507347817, MDS@[13] == 35708310, MDS@[14] == 4611624995520110777, MDS@[15] == 925771, INV_MDS@[1] == 505991969560173536, INV_MDS@[5] == 2992699836076075320, INV_MDS@[9] == 4252451032307404410, INV_MDS@[13] == 778093106242032509,
    ;
    assert(product_entry(MDS@, INV_MDS@, 4, 3, 2) == (MDS@[12] as int) * (INV_MDS@[2] as int) + (MDS@[13] as int) * (INV_MDS@[6] as int) + (MDS@[14] as int) * (INV_MDS@[10] as int) + (MDS@[15] as int) * (INV_MDS@[14] as int));
    assert(((MDS@[12] as int) * (INV_MDS@[2] as int) + (MDS@[13] as int) * (INV_MDS@[6] as int) + (MDS@[14] as int) * (INV_MDS@[10] as int) + (MDS@[15] as int) * (INV_MDS@[14] as int)) % 4611624995532046337 == 0) by (nonlinear_arith)
        requires
            MDS@[12] == 4611624995507347817, MDS@[13] == 35708310, MDS@[14] == 4611624995520110777, MDS@[15] == 925771, INV_MDS@[2] == 3204166179701427449, INV_MDS@[6] == 1194730044134442280, INV_MDS@[10] == 2998036551482399275, INV_MDS@[14] == 4295326984864553447,
    ;
    assert(product_entry(MDS@, INV_MDS@, 4, 3, 3) == (MDS@[12] as int) * (INV_MDS@[3] as int) + (MDS@[13] as int) * (INV_MDS@[7] as int) + (MDS@[14] as int) * (INV_MDS@[11] as int) + (MDS@[15] as int) * (INV_MDS@[15] as int));
    assert(((MDS@[12] as int) * (INV_MDS@[3] as int) + (MDS@[13] as int) * (INV_MDS@[7] as int) + (MDS@[14] as int) * (INV_MDS@[11] as int) + (MDS@[15] as int) * (INV_MDS@[15] as int)) % 4611624995532046337 == 1) by (nonlinear_arith)
        requires
            MDS@[12] == 4611624995507347817, MDS@[13] == 35708310, MDS@[14] == 4611624995520110777, MDS@[15] == 925771, INV_MDS@[3] == 1677338490489682849, INV_MDS@[7] == 1123330866308046354, INV_MDS@[11] == 11714741135833070, INV_MDS@[15] == 3466626196915722075,
    ;
}

proof fn lemma_product_forward()
    ensures
        product_is_identity(Elem::modulus(), MDS@, INV_MDS@, 4),
{
    lemma_product_forward_row_0();
    lemma_product_forward_row_1();
    lemma_product_forward_row_2();
    lemma_product_forward_row_3();
    reveal_with_fuel(identity_rows, 5);
    assert(identity_rows(Elem::modulus(), MDS@, INV_MDS@, 4, 4));
    lemma_identity_rows(Elem::modulus(), MDS@, INV_MDS@, 4);
}

proof fn lemma_product_backward_row_0()
    ensures
        identity_row(Elem::modulus(), INV_MDS@, MDS@, 4, 0, 4),
{
    reveal_with_fuel(sum, 5);
    reveal_with_fuel(identity_row, 5);
    assert(product_entry(INV_MDS@, MDS@, 4, 0, 0) == (INV_MDS@[0] as int) * (MDS@[0] as int) + (INV_MDS@[1] as int) * (MDS@[4] as int) + (INV_MDS@[2] as int) * (MDS@[8] as int) + (INV_MDS@[3] as int) * (MDS@[12] as int));
    assert(((INV_MDS@[0] as int) * (MDS@[0] as int) + (INV_MDS@[1] as int) * (MDS@[4] as int) + (INV_MDS@[2] as int) * (MDS@[8] as int) + (INV_MDS@[3] as int) * (MDS@[12] as int)) % 4611624995532046337 == 1) by (nonlinear_arith)
        requires
            INV_MDS@[0] == 3835753351312808841, INV_MDS@[1] == 505991969560173536, INV_MDS@[2] == 3204166179701427449, INV_MDS@[3] == 1677338490489682849, MDS@[0] == 4611624995532045608, MDS@[4] == 4611624995532017177, MDS@[8] == 4611624995531164247, MDS@[12] == 4611624995507347817,
    ;
    assert(product_entry(INV_MDS@, MDS@, 4, 0, 1) == (INV_MDS@[0] as int) * (MDS@[1] as int) + (INV_MDS@[1] as int) * (MDS@[5] as int) + (INV_MDS@[2] as int) * (MDS@[9] as int) + (INV_MDS@[3] as int) * (MDS@[13] as int));
    assert(((INV_MDS@[0] as int) * (MDS@[1] as int) + (INV_MDS@[1] as int) * (MDS@[5] as int) + (INV_MDS@[2] as int) * (MDS@[9] as int) + (INV_MDS@[3] as int) * (MDS@[13] as int)) % 4611624995532046337 == 0) by (nonlinear_arith)
        requires
            INV_MDS@[0] == 3835753351312808841, INV_MDS@[1] == 505991969560173536, INV_MDS@[2] == 3204166179701427449, INV_MDS@[3] == 1677338490489682849, MDS@[1] == 1080, MDS@[5] == 42471, MDS@[9] == 1277640, MDS@[13] == 35708310,
    ;
    assert(product_entry(INV_MDS@, MDS@, 4, 0, 2) == (INV_MDS@[0] as int) * (MDS@[2] as int) + (INV_MDS@[1] as int) * (MDS@[6] as int) + (INV_MDS@[2] as int) * (MDS@[10] as int) + (INV_MDS@[3] as int) * (MDS@[14] as int));
    assert(((INV_MDS@[0] as int) * (MDS@[2] as int) + (INV_MDS@[1] as int) * (MDS@[6] as int) + (INV_MDS@[2] as int) * (MDS@[10] as int) + (INV_MDS@[3] as int) * (MDS@[14] as int)) % 4611624995532046337 == 0) by (nonlinear_arith)
        requires
            INV_MDS@[0] == 3835753351312808841, INV_MDS@[1] == 505991969560173536, INV_MDS@[2] == 3204166179701427449, INV_MDS@[3] == 1677338490489682849, MDS@[2] == 4611624995532045947, MDS@[6] == 4611624995532031817, MDS@[10] == 4611624995531616908, MDS@[14] == 4611624995520110777,
    ;
    assert(product_entry(INV_MDS@, MDS@, 4, 0, 3) == (INV_MDS@[0] as int) * (MDS@[3] as int) + (INV_MDS@[1] as int) * (MDS@[7] as int) + (INV_MDS@[2] as int) * (MDS@[11] as int) + (INV_MDS@[3] as int) * (MDS@[15] as int));
    assert(((INV_MDS@[0] as int) * (MDS@[3] as int) + (INV_MDS@[1] as int) * (MDS@[7] as int) + (INV_MDS@[2] as int) * (MDS@[11] as int) + (INV_MDS@[3] as int) * (MDS@[15] as int)) % 4611624995532046337 == 0) by (nonlinear_arith)
        requires
            INV_MDS@[0] == 3835753351312808841, INV_MDS@[1] == 505991969560173536, INV_MDS@[2] == 3204166179701427449, INV_MDS@[3] == 1677338490489682849, MDS@[3] == 40, MDS@[7] == 1210, MDS@[11] == 33880, MDS@[15] == 925771,
    ;
}

proof fn lemma_product_backward_row_1()
    ensures
        identity_row(Elem::modulus(), INV_MDS@, MDS@, 4, 1, 4),
{
    reveal_with_fuel(sum, 5);
    reveal_with_fuel(identity_row, 5);
    assert(product_entry(INV_MDS@, MDS@, 4, 1, 0) == (INV_MDS@[4] as int) * (MDS@[0] as int) + (INV_MDS@[5] as int) * (MDS@[4] as int) + (INV_MDS@[6] as int) * (MDS@[8] as int) + (INV_MDS@[7] as int) * (MDS@[12] as int));
    assert(((INV_MDS@[4] as int) * (MDS@[0] as int) + (INV_MDS@[5] as int) * (MDS@[4] as int) + (INV_MDS@[6] as int) * (MDS@[8] as int) + (INV_MDS@[7] as int) * (MDS@[12] as int)) % 4611624995532046337 == 0) by (nonlinear_arith)
        requires
            INV_MDS@[4] == 3912489244545528721, INV_MDS@[5] == 2992699836076075320, INV_MDS@[6] == 1194730044134442280, INV_MDS@[7] == 1123330866308046354, MDS@[0] == 4611624995532045608, MDS@[4] == 4611624995532017177, MDS@[8] == 4611624995531164247, MDS@[12] == 4611624995507347817,
    ;
    assert(product_entry(INV_MDS@, MDS@, 4, 1, 1) == (INV_MDS@[4] as int) * (MDS@[1] as int) + (INV_MDS@[5] as int) * (MDS@[5] as int) + (INV_MDS@[6] as int) * (MDS@[9] as int) + (INV_MDS@[7] as int) * (MDS@[13] as int));
    assert(((INV_MDS@[4] as int) * (MDS@[1] as int) + (INV_MDS@[5] as int) * (MDS@[5] as int) + (INV_MDS@[6] as int) * (MDS@[9] as int) + (INV_MDS@[7] as int) * (MDS@[13] as int)) % 4611624995532046337 == 1) by (nonlinear_arith)
        requires
            INV_MDS@[4] == 3912489244545528721, INV_MDS@[5] == 2992699836076075320, INV_MDS@[6] == 1194730044134442280, INV_MDS@[7] == 1123330866308046354, MDS@[1] == 1080, MDS@[5] == 42471, MDS@[9] == 1277640, MDS@[13] == 35708310,
    ;
    assert(product_entry(INV_MDS@, MDS@, 4, 1, 2) == (INV_MDS@[4] as int) * (MDS@[2] as int) + (INV_MDS@[5] as int) * (MDS@[6] as int) + (INV_MDS@[6] as int) * (MDS@[10] as int) + (INV_MDS@[7] as int) * (MDS@[14] as int));
    assert(((INV_MDS@[4] as int) * (MDS@[2] as int) + (INV_MDS@[5] as int) * (MDS@[6] as int) + (INV_MDS@[6] as int) * (MDS@[10] as int) + (INV_MDS@[7] as int) * (MDS@[14] as int)) % 4611624995532046337 == 0) by (nonlinear_arith)
        requires
            INV_MDS@[4] == 3912489244545528721, INV_MDS@[5] == 2992699836076075320, INV_MDS@[6] == 1194730044134442280, INV_MDS@[7] == 1123330866308046354, MDS@[2] == 4611624995532045947, MDS@[6] == 4611624995532031817, MDS@[10] == 4611624995531616908, MDS@[14] == 4611624995520110777,
    ;
    assert(product_entry(INV_MDS@, MDS@, 4, 1, 3) == (INV_MDS@[4] as int) * (MDS@[3] as int) + (INV_MDS@[5] as int) * (MDS@[7] as int) + (INV_MDS@[6] as int) * (MDS@[11] as int) + (INV_MDS@[7] as int) * (MDS@[15] as int));
    assert(((INV_MDS@[4] as int) * (MDS@[3] as int) + (INV_MDS@[5] as int) * (MDS@[7] as int) + (INV_MDS@[6] as int) * (MDS@[11] as int) + (INV_MDS@[7] as int) * (MDS@[15] as int)) % 4611624995532046337 == 0) by (nonlinear_arith)
        requires
            INV_MDS@[4] == 3912489244545528721, INV_MDS@[5] == 2992699836076075320, INV_MDS@[6] == 1194730044134442280, INV_MDS@[7] == 1123330866308046354, MDS@[3] == 40, MDS@[7] == 1210, MDS@[11] == 33880, MDS@[15] == 925771,
    ;
}

proof fn lemma_product_backward_row_2()
    ensures
        identity_row(Elem::modulus(), INV_MDS@, MDS@, 4, 2, 4),
{
    reveal_with_fuel(sum, 5);
    reveal_with_fuel(identity_row, 5);
    assert(product_entry(INV_MDS@, MDS@, 4, 2, 0) == (INV_MDS@[8] as int) * (MDS@[0] as int) + (INV_MDS@[9] as int) * (MDS@[4] as int) + (INV_MDS@[10] as int) * (MDS@[8] as int) + (INV_MDS@[11] as int) * (MDS@[12] as int));
    assert(((INV_MDS@[8] as int) * (MDS@[0] as int) + (INV_MDS@[9] as int) * (MDS@[4] as int) + (INV_MDS@[10] as int) * (MDS@[8] as int) + (INV_MDS@[11] as int) * (MDS@[12] as int)) % 4611624995532046337 == 0) by (nonlinear_arith)
        requires
            INV_MDS@[8] == 1961047666138455920, INV_MDS@[9] == 4252451032307404410, INV_MDS@[10] == 2998036551482399275, INV_MDS@[11] == 11714741135833070, MDS@[0] == 4611624995532045608, MDS@[4] == 4611624995532017177, MDS@[8] == 4611624995531164247, MDS@[12] == 4611624995507347817,
    ;
    assert(product_entry(INV_MDS@, MDS@, 4, 2, 1) == (INV_MDS@[8] as int) * (MDS@[1] as int) + (INV_MDS@[9] as int) * (MDS@[5] as int) + (INV_MDS@[10] as int) * (MDS@[9] as int) + (INV_MDS@[11] as int) * (MDS@[13] as int));
    assert(((INV_MDS@[8] as int) * (MDS@[1] as int) + (INV_MDS@[9] as int) * (MDS@[5] as int) + (INV_MDS@[10] as int) * (MDS@[9] as int) + (INV_MDS@[11] as int) * (MDS@[13] as int)) % 4611624995532046337 == 0) by (nonlinear_arith)
        requires
            INV_MDS@[8] == 1961047666138455920, INV_MDS@[9] == 4252451032307404410, INV_MDS@[10] == 2998036551482399275, INV_MDS@[11] == 11714741135833070, MDS@[1] == 1080, MDS@[5] == 42471, MDS@[9] == 1277640, MDS@[13] == 35708310,
    ;
    assert(product_entry(INV_MDS@, MDS@, 4, 2, 2) == (INV_MDS@[8] as int) * (MDS@[2] as int) + (INV_MDS@[9] as int) * (MDS@[6] as int) + (INV_MDS@[10] as int) * (MDS@[10] as int) + (INV_MDS@[11] as int) * (MDS@[14] as int));
    assert(((INV_MDS@[8] as int) * (MDS@[2] as int) + (INV_MDS@[9] as int) * (MDS@[6] as int) + (INV_MDS@[10] as int) * (MDS@[10] as int) + (INV_MDS@[11] as int) * (MDS@[14] as int)) % 4611624995532046337 == 1) by (nonlinear_arith)
        requires
            INV_MDS@[8] == 1961047666138455920, INV_MDS@[9] == 4252451032307404410, INV_MDS@[10] == 2998036551482399275, INV_MDS@[11] == 11714741135833070, MDS@[2] == 4611624995532045947, MDS@[6] == 4611624995532031817, MDS@[10] == 4611624995531616908, MDS@[14] == 4611624995520110777,
    ;
    assert(product_entry(INV_MDS@, MDS@, 4, 2, 3) == (INV_MDS@[8] as int) * (MDS@[3] as int) + (INV_MDS@[9] as int) * (MDS@[7] as int) + (INV_MDS@[10] as int) * (MDS@[11] as int) + (INV_MDS@[11] as int) * (MDS@[15] as int));
    assert(((INV_MDS@[8] as int) * (MDS@[3] as int) + (INV_MDS@[9] as int) * (MDS@[7] as int) + (INV_MDS@[10] as int) * (MDS@[11] as int) + (INV_MDS@[11] as int) * (MDS@[15] as int)) % 4611624995532046337 == 0) by (nonlinear_arith)
        requires
            INV_MDS@[8] == 1961047666138455920, INV_MDS@[9] == 4252451032307404410, INV_MDS@[10] == 2998036551482399275, INV_MDS@[11] == 11714741135833070, MDS@[3] == 40, MDS@[7] == 1210, MDS@[11] == 33880, MDS@[15] == 925771,
    ;
}

proof fn lemma_product_backward_row_3()
    ensures
        identity_row(Elem::modulus(), INV_MDS@, MDS@, 4, 3, 4),
{
    reveal_with_fuel(sum, 5);
    reveal_with_fuel(identity_row, 5);
    assert(product_entry(INV_MDS@, MDS@, 4, 3, 0) == (INV_MDS@[12] as int) * (MDS@[0] as int) + (INV_MDS@[13] as int) * (MDS@[4] as int) + (INV_MDS@[14] as int) * (MDS@[8] as int) + (INV_MDS@[15] as int) * (MDS@[12] as int));
    assert(((INV_MDS@[12] as int) * (MDS@[0] as int) + (INV_MDS@[13] as int) * (MDS@[4] as int) + (INV_MDS@[14] as int) * (MDS@[8] as int) + (INV_MDS@[15] as int) * (MDS@[12] as int)) % 4611624995532046337 == 0) by (nonlinear_arith)
        requires
            INV_MDS@[12] == 683203703041784644, INV_MDS@[13] == 778093106242032509, INV_MDS@[14] == 4295326984864553447, INV_MDS@[15] == 3466626196915722075, MDS@[0] == 4611624995532045608, MDS@[4] == 4611624995532017177, MDS@[8] == 4611624995531164247, MDS@[12] == 4611624995507347817,
    ;
    assert(product_entry(INV_MDS@, MDS@, 4, 3, 1) == (INV_MDS@[12] as int) * (MDS@[1] as int) + (INV_MDS@[13] as int) * (MDS@[5] as int) + (INV_MDS@[14] as int) * (MDS@[9] as int) + (INV_MDS@[15] as int) * (MDS@[13] as int));
    assert(((INV_MDS@[12] as int) * (MDS@[1] as int) + (INV_MDS@[13] as int) * (MDS@[5] as int) + (INV_MDS@[14] as int) * (MDS@[9] as int) + (INV_MDS@[15] as int) * (MDS@[13] as int)) % 4611624995532046337 == 0) by (nonlinear_arith)
        requires
            INV_MDS@[12] == 683203703041784644, INV_MDS@[13] == 778093106242032509, INV_MDS@[14] == 4295326984864553447, INV_MDS@[15] == 3466626196915722075, MDS@[1] == 1080, MDS@[5] == 42471, MDS@[9] == 1277640, MDS@[13] == 35708310,
    ;
    assert(product_entry(INV_MDS@, MDS@, 4, 3, 2) == (INV_MDS@[12] as int) * (MDS@[2] as int) + (INV_MDS@[13] as int) * (MDS@[6] as int) + (INV_MDS@[14] as int) * (MDS@[10] as int) + (INV_MDS@[15] as int) * (MDS@[14] as int));
    assert(((INV_MDS@[12] as int) * (MDS@[2] as int) + (INV_MDS@[13] as int) * (MDS@[6] as int) + (INV_MDS@[14] as int) * (MDS@[10] as int) + (INV_MDS@[15] as int) * (MDS@[14] as int)) % 4611624995532046337 == 0) by (nonlinear_arith)
        requires
            INV_MDS@[12] == 683203703041784644, INV_MDS@[13] == 778093106242032509, INV_MDS@[14] == 4295326984864553447, INV_MDS@[15] == 3466626196915722075, MDS@[2] == 4611624995532045947, MDS@[6] == 4611624995532031817, MDS@[10] == 4611624995531616908, MDS@[14] == 4611624995520110777,
    ;
    assert(product_entry(INV_MDS@, MDS@, 4, 3, 3) == (INV_MDS@[12] as int) * (MDS@[3] as int) + (INV_MDS@[13] as int) * (MDS@[7] as int) + (INV_MDS@[14] as int) * (MDS@[11] as int) + (INV_MDS@[15] as int) * (MDS@[15] as int));
    assert(((INV_MDS@[12] as int) * (MDS@[3] as int) + (INV_MDS@[13] as int) * (MDS@[7] as int) + (INV_MDS@[14] as int) * (MDS@[11] as int) + (INV_MDS@[15] as int) * (MDS@[15] as int)) % 4611624995532046337 == 1) by (nonlinear_arith)
        requires
            INV_MDS@[12] == 683203703041784644, INV_MDS@[13] == 778093106242032509, INV_MDS@[14] == 4295326984864553447, INV_MDS@[15] == 3466626196915722075, MDS@[3] == 40, MDS@[7] == 1210, MDS@[11] == 33880, MDS@[15] == 925771,
    ;
}

proof fn lemma_product_backward()
    ensures
        product_is_identity(Elem::modulus(), INV_MDS@, MDS@, 4),
{
    lemma_product_backward_row_0();
    lemma_product_backward_row_1();
    lemma_product_backward_row_2();
    lemma_product_backward_row_3();
    reveal_with_fuel(identity_rows, 5);
    assert(identity_rows(Elem::modulus(), INV_MDS@, MDS@, 4, 4));
    lemma_identity_rows(Elem::modulus(), INV_MDS@, MDS@, 4);
}

/// The digest of `input_sequence`, whose length must be a multiple of `RATE`.
pub fn hash(input_sequence: &Vec<Elem>) -> (r: [Elem; RATE])
    requires
        input_sequence@.len() % (RATE as nat) == 0,
    ensures
        vals(r@) == hash_spec(spec_params(), Elem::modulus(), vals(input_sequence@)),
{
    rescue_prime_hash(input_sequence)
}

/// The sponge: starting from the zero state, each chunk of `RATE` elements is added onto the
/// first lanes and the state permuted; the digest is the first `RATE` lanes.
pub fn rescue_prime_hash(input_sequence: &Vec<Elem>) -> (r: [Elem; RATE])
    requires
        input_sequence@.len() % (RATE as nat) == 0,
    ensures
        vals(r@) == hash_spec(spec_params(), Elem::modulus(), vals(input_sequence@)),
{
    let digest = params().hash(input_sequence);
    to_array(&digest)
}

/// The digest of `input_sequence` followed by a one and the fewest zeros that reach a
/// multiple of `RATE`.
pub fn rescue_prime_wrapper(input_sequence: &Vec<Elem>) -> (r: [Elem; RATE])
    requires
        input_sequence@.len() + STATE_WIDTH <= usize::MAX,
    ensures
        vals(r@) == hash_spec(
            spec_params(),
            Elem::modulus(),
            pad_spec(vals(input_sequence@), RATE as nat),
        ),
{
    let digest = params().hash_padded(input_sequence);
    to_array(&digest)
}

/// Applies the `NUM_ROUNDS` rounds to `state`.
pub fn rescue_xlix_permutation(state: &mut [Elem; STATE_WIDTH])
    ensures
        vals(final(state)@) == permutation_spec(spec_params(), Elem::modulus(), vals(old(state)@)),
{
    params().permutation(state);
}

/// Applies round `round % NUM_ROUNDS` to `state`.
pub fn apply_round(state: &mut [Elem], round: usize)
    requires
        old(state)@.len() == STATE_WIDTH,
    ensures
        final(state)@.len() == STATE_WIDTH,
        vals(final(state)@) == round_spec(
            spec_params(),
            Elem::modulus(),
            vals(old(state)@),
            round as nat,
        ),
{
    params().apply_round(state, round);
}

/// Adds to `result_slice` the residuals of one round between `current_slice` and
/// `next_slice`, scaled by `flag`; with `flag` one they all vanish exactly when the two
/// halves of the round agree.
pub fn enforce_round<E: PrimeField>(
    result_slice: &mut [E],
    current_slice: &[E],
    next_slice: &[E],
    round_constants: &[E],
    flag: E,
)
    requires
        current_slice@.len() == STATE_WIDTH,
        next_slice@.len() == STATE_WIDTH,
        round_constants@.len() >= 2 * STATE_WIDTH,
        old(result_slice)@.len() >= STATE_WIDTH,
    ensures
        final(result_slice)@.len() == old(result_slice)@.len(),
        vals(final(result_slice)@) == round_residuals(
            spec_params(),
            E::modulus(),
            vals(old(result_slice)@),
            vals(current_slice@),
            vals(next_slice@),
            vals(round_constants@),
            flag.val(),
        ),
{
    params().enforce_round(result_slice, current_slice, next_slice, round_constants, flag);
}

/// `enforce_round` with `pixels` first added onto the first `RATE` lanes of `current_slice`.
pub fn enforce_first_round<E: PrimeField>(
    result_slice: &mut [E],
    pixels: &[E],
    current_slice: &[E],
    next_slice: &[E],
    round_constants: &[E],
    flag: E,
)
    requires
        pixels@.len() >= RATE,
        current_slice@.len() == STATE_WIDTH,
        next_slice@.len() == STATE_WIDTH,
        round_constants@.len() >= 2 * STATE_WIDTH,
        old(result_slice)@.len() >= STATE_WIDTH,
    ensures
        final(result_slice)@.len() == old(result_slice)@.len(),
        vals(final(result_slice)@) == round_residuals(
            spec_params(),
            E::modulus(),
            vals(old(result_slice)@),
            absorb_lanes_spec(E::modulus(), vals(current_slice@), vals(pixels@).take(RATE as int)),
            vals(next_slice@),
            vals(round_constants@),
            flag.val(),
        ),
{
    params().enforce_first_round(result_slice, pixels, current_slice, next_slice, round_constants, flag);
}

/// The round constants in `2 × STATE_WIDTH` columns of length `cycle_length`, the constants of
/// round `i` at position `(i + shift) % cycle_length` and zeros elsewhere.
pub fn get_round_constants_periodic(cycle_length: usize, shift: usize) -> (r: Vec<Vec<Elem>>)
    requires
        cycle_length > 0,
        shift + NUM_ROUNDS <= usize::MAX,
    ensures
        r@.len() == 2 * STATE_WIDTH,
        forall|j: int|
            0 <= j < 2 * STATE_WIDTH ==> vals(#[trigger] r@[j]@) == periodic_column(
                Elem::modulus(),
                ROUND_CONSTANTS@,
                (2 * STATE_WIDTH) as nat,
                j as nat,
                cycle_length as nat,
                shift as nat,
                NUM_ROUNDS as nat,
            ),
{
    params().round_constants_periodic(cycle_length, shift)
}

} // verus!

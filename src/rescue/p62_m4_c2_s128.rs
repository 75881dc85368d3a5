//! Rescue-Prime over the 62-bit prime field (modulus `MODULUS_62`): width 4, capacity 2, 14 rounds, S-box
//! exponent 3, security of at least 128 bits.

use vstd::prelude::*;
use crate::field::{Felt62, PrimeField, canonical_seq, vals};
use crate::layers::{
    absorb_lanes_spec, exp_undoes, fermat, lemma_exponents_invert, periodic_column, to_array,
    zeros, undoes,
};
use crate::matrix::{
    identity_row, identity_rows, lemma_identity_rows, lemma_product_identity_undoes, product_entry,
    product_is_identity, sum,
};
use crate::rescue::{
    RescueParams, hash_spec, lemma_first_round_constraints_vanish, lemma_round_constraints_vanish,
    pad_spec, permutation_spec, round_residuals, round_spec,
};

verus! {

pub type Elem = Felt62;

pub const NUM_ROUNDS: usize = 14;
pub const STATE_WIDTH: usize = 4;
pub const CAPACITY: usize = 2;
pub const RATE: usize = STATE_WIDTH - CAPACITY;

/// The exponent of the forward S-box.
pub const ALPHA: u128 = 3;

/// The exponent of the inverse S-box: the inverse of `ALPHA` modulo the prime minus one.
pub const INV_ALPHA: u128 = 3074416663688030891;

/// The mixing matrix, row-major.
pub const MDS: [u128; 16] = [
    4611624995532045608, 1080, 4611624995532045947,
    40, 4611624995532017177, 42471,
    4611624995532031817, 1210, 4611624995531164247,
    1277640, 4611624995531616908, 33880,
    4611624995507347817, 35708310, 4611624995520110777,
    925771,
];

/// The inverse of `MDS`, row-major.
pub const INV_MDS: [u128; 16] = [
    3835753351312808841, 505991969560173536, 3204166179701427449,
    1677338490489682849, 3912489244545528721, 2992699836076075320,
    1194730044134442280, 1123330866308046354, 1961047666138455920,
    4252451032307404410, 2998036551482399275, 11714741135833070,
    683203703041784644, 778093106242032509, 4295326984864553447,
    3466626196915722075,
];

/// `2 × STATE_WIDTH` constants per round.
pub const ROUND_CONSTANTS: [u128; 112] = [
    84059200413209450, 373178937564870477, 3634665217539531222,
    1818526052796649294, 43002828310905347, 1339785607435899452,
    3327414099846103536, 3720267036147955407, 1212405412276462983,
    2466189979681890486, 3281929273804089803, 2765007764398338029,
    3860595181968282485, 1700923066901328573, 1822808759769232537,
    2626543261588181859, 1180785654043706125, 3278507323242511379,
    2247861773607994080, 888978770346910833, 4065117358798607593,
    2535691992117626933, 1892086820688304873, 3667546902495623291,
    3667562026480151801, 1900600439264387015, 3743472215158074923,
    374156173151790171, 400784247678292935, 485831602057389304,
    688571586707975441, 2014042310608406449, 1901799904671064373,
    3778005880135162580, 2391930266556619031, 832601436562668997,
    4214057760921055958, 658692901801137352, 1954112702930448136,
    2998795451098641832, 4456530904183667625, 342629764430205425,
    3492755002973900683, 3814835056106218482, 607170086553088030,
    795069255518443540, 1919302892442085635, 3556741158917451700,
    3561926676429326404, 2767297584682563727, 4173772503566563981,
    3636870786946711035, 3150131705229414069, 4376594263245035840,
    453430431573410085, 57461235190982874, 1010715261332251889,
    3814226295063661614, 612783221392610123, 274680007677058177,
    4590496723747560349, 3589444804033441211, 2810438166424592924,
    4344573364555470373, 892997045795553014, 1808709039791092904,
    4542836651138703729, 3019149084362551708, 2904712339388229319,
    885603324699348123, 2655024237486468326, 589339913251683230,
    1641967306908921355, 2209618786454888003, 3506691578385905661,
    21251929053485279, 3442460353589681627, 3720862489098581928,
    1150646531154045107, 4575835837757565626, 2946269058019272865,
    4556767058423040792, 3423759454234576830, 4352253608578664076,
    731551570890522135, 4109944482420570488, 1785316767441539800,
    4202149893859497949, 4515940521830299618, 509427395813016816,
    2703455222057663874, 2358933959583288586, 4587265030045200994,
    437929932013931358, 157878995536006837, 9188722667849804,
    3528060750917340760, 2120338204854229159, 1850197494439346282,
    3455441796492337339, 3914056536964108377, 2271623193895877944,
    3680193581756190987, 3123247226226873029, 2609694948293632651,
    426698706492066394, 698555533963097770, 242609722274523402,
    1706096316215143515, 394685350925065643, 2770607924709542204,
    1787028432509679680,
];

/// This instance's constants.
pub open spec fn spec_params() -> RescueParams {
    RescueParams {
        width: STATE_WIDTH,
        capacity: CAPACITY,
        rounds: NUM_ROUNDS,
        alpha: ALPHA,
        inv_alpha: INV_ALPHA,
        mds: &MDS,
        inv_mds: &INV_MDS,
        round_constants: &ROUND_CONSTANTS,
    }
}

/// This instance's constants.
pub fn params() -> (r: RescueParams)
    ensures
        r == spec_params(),
        r.wf(),
{
    RescueParams {
        width: STATE_WIDTH,
        capacity: CAPACITY,
        rounds: NUM_ROUNDS,
        alpha: ALPHA,
        inv_alpha: INV_ALPHA,
        mds: &MDS,
        inv_mds: &INV_MDS,
        round_constants: &ROUND_CONSTANTS,
    }
}

/// The two S-box exponents undo each other, both ways, on every residue, wherever Fermat's
/// little theorem holds for the modulus.
pub proof fn lemma_sbox_exponents_invert()
    requires
        fermat(Elem::modulus()),
    ensures
        exp_undoes(Elem::modulus(), ALPHA as nat, INV_ALPHA as nat),
        exp_undoes(Elem::modulus(), INV_ALPHA as nat, ALPHA as nat),
{
    lemma_exponents_invert(Elem::modulus(), ALPHA as nat, INV_ALPHA as nat);
}

/// With flag one, the round constraints vanish on every state of residues and the state that
/// round `r` makes of it, and on the same with a chunk of input absorbed first, wherever
/// Fermat's little theorem holds for the modulus (it does, the modulus being prime).
pub proof fn lemma_constraints_vanish(cur: Seq<int>, chunk: Seq<int>, r: nat)
    requires
        cur.len() == STATE_WIDTH,
        chunk.len() == RATE,
        canonical_seq(cur, Elem::modulus()),
        fermat(Elem::modulus()),
    ensures
        round_residuals(
            spec_params(),
            Elem::modulus(),
            zeros(STATE_WIDTH as nat),
            cur,
            round_spec(spec_params(), Elem::modulus(), cur, r),
            spec_params().round_consts(Elem::modulus(), r % (NUM_ROUNDS as nat)),
            1,
        ) == zeros(STATE_WIDTH as nat),
        round_residuals(
            spec_params(),
            Elem::modulus(),
            zeros(STATE_WIDTH as nat),
            absorb_lanes_spec(Elem::modulus(), cur, chunk),
            round_spec(spec_params(), Elem::modulus(), absorb_lanes_spec(Elem::modulus(), cur, chunk), r),
            spec_params().round_consts(Elem::modulus(), r % (NUM_ROUNDS as nat)),
            1,
        ) == zeros(STATE_WIDTH as nat),
{
    lemma_matrices_invert();
    lemma_exponents_invert(Elem::modulus(), ALPHA as nat, INV_ALPHA as nat);
    lemma_round_constraints_vanish(spec_params(), Elem::modulus(), cur, r);
    lemma_first_round_constraints_vanish(spec_params(), Elem::modulus(), cur, chunk, r);
}

/// With flag one, the round constraints do not all vanish on a state of residues and any state
/// of residues other than the one that round `r` makes of it, wherever Fermat's little
/// theorem holds for the modulus.
pub proof fn lemma_wrong_next_detected(cur: Seq<int>, other: Seq<int>, r: nat)
    requires
        cur.len() == STATE_WIDTH,
        canonical_seq(cur, Elem::modulus()),
        other.len() == STATE_WIDTH,
        canonical_seq(other, Elem::modulus()),
        other != round_spec(spec_params(), Elem::modulus(), cur, r),
        fermat(Elem::modulus()),
    ensures
        round_residuals(
            spec_params(),
            Elem::modulus(),
            zeros(STATE_WIDTH as nat),
            cur,
            other,
            spec_params().round_consts(Elem::modulus(), r % (NUM_ROUNDS as nat)),
            1,
        ) != zeros(STATE_WIDTH as nat),
{
    lemma_matrices_invert();
    lemma_exponents_invert(Elem::modulus(), ALPHA as nat, INV_ALPHA as nat);
    crate::rescue::lemma_wrong_next_detected(spec_params(), Elem::modulus(), cur, other, r);
}

/// The mixing matrix and its inverse undo each other on every vector of residues.
pub proof fn lemma_matrices_invert()
    ensures
        undoes(Elem::modulus(), MDS@, INV_MDS@, STATE_WIDTH as nat),
        undoes(Elem::modulus(), INV_MDS@, MDS@, STATE_WIDTH as nat),
{
    lemma_product_forward();
    lemma_product_backward();
    lemma_product_identity_undoes(Elem::modulus(), MDS@, INV_MDS@, STATE_WIDTH as nat);
    lemma_product_identity_undoes(Elem::modulus(), INV_MDS@, MDS@, STATE_WIDTH as nat);
}

proof fn lemma_product_forward_row_0()
    ensures
        identity_row(Elem::modulus(), MDS@, INV_MDS@, 4, 0, 4),
{
    reveal_with_fuel(sum, 5);
    reveal_with_fuel(identity_row, 5);
    assert(product_entry(MDS@, INV_MDS@, 4, 0, 0) == (MDS@[0] as int) * (INV_MDS@[0] as int) + (MDS@[1] as int) * (INV_MDS@[4] as int) + (MDS@[2] as int) * (INV_MDS@[8] as int) + (MDS@[3] as int) * (INV_MDS@[12] as int));
    assert(((MDS@[0] as int) * (INV_MDS@[0] as int) + (MDS@[1] as int) * (INV_MDS@[4] as int) + (MDS@[2] as int) * (INV_MDS@[8] as int) + (MDS@[3] as int) * (INV_MDS@[12] as int)) % 4611624995532046337 == 1) by (nonlinear_arith)
        requires
            MDS@[0] == 4611624995532045608, MDS@[1] == 1080, MDS@[2] == 4611624995532045947, MDS@[3] == 40, INV_MDS@[0] == 3835753351312808841, INV_MDS@[4] == 3912489244545528721, INV_MDS@[8] == 1961047666138455920, INV_MDS@[12] == 683203703041784644,
    ;
    assert(product_entry(MDS@, INV_MDS@, 4, 0, 1) == (MDS@[0] as int) * (INV_MDS@[1] as int) + (MDS@[1] as int) * (INV_MDS@[5] as int) + (MDS@[2] as int) * (INV_MDS@[9] as int) + (MDS@[3] as int) * (INV_MDS@[13] as int));
    assert(((MDS@[0] as int) * (INV_MDS@[1] as int) + (MDS@[1] as int) * (INV_MDS@[5] as int) + (MDS@[2] as int) * (INV_MDS@[9] as int) + (MDS@[3] as int) * (INV_MDS@[13] as int)) % 4611624995532046337 == 0) by (nonlinear_arith)
        requires
            MDS@[0] == 4611624995532045608, MDS@[1] == 1080, MDS@[2] == 4611624995532045947, MDS@[3] == 40, INV_MDS@[1] == 505991969560173536, INV_MDS@[5] == 2992699836076075320, INV_MDS@[9] == 4252451032307404410, INV_MDS@[13] == 778093106242032509,
    ;
    assert(product_entry(MDS@, INV_MDS@, 4, 0, 2) == (MDS@[0] as int) * (INV_MDS@[2] as int) + (MDS@[1] as int) * (INV_MDS@[6] as int) + (MDS@[2] as int) * (INV_MDS@[10] as int) + (MDS@[3] as int) * (INV_MDS@[14] as int));
    assert(((MDS@[0] as int) * (INV_MDS@[2] as int) + (MDS@[1] as int) * (INV_MDS@[6] as int) + (MDS@[2] as int) * (INV_MDS@[10] as int) + (MDS@[3] as int) * (INV_MDS@[14] as int)) % 4611624995532046337 == 0) by (nonlinear_arith)
        requires
            MDS@[0] == 4611624995532045608, MDS@[1] == 1080, MDS@[2] == 4611624995532045947, MDS@[3] == 40, INV_MDS@[2] == 3204166179701427449, INV_MDS@[6] == 1194730044134442280, INV_MDS@[10] == 2998036551482399275, INV_MDS@[14] == 4295326984864553447,
    ;
    assert(product_entry(MDS@, INV_MDS@, 4, 0, 3) == (MDS@[0] as int) * (INV_MDS@[3] as int) + (MDS@[1] as int) * (INV_MDS@[7] as int) + (MDS@[2] as int) * (INV_MDS@[11] as int) + (MDS@[3] as int) * (INV_MDS@[15] as int));
    assert(((MDS@[0] as int) * (INV_MDS@[3] as int) + (MDS@[1] as int) * (INV_MDS@[7] as int) + (MDS@[2] as int) * (INV_MDS@[11] as int) + (MDS@[3] as int) * (INV_MDS@[15] as int)) % 4611624995532046337 == 0) by (nonlinear_arith)
        requires
            MDS@[0] == 4611624995532045608, MDS@[1] == 1080, MDS@[2] == 4611624995532045947, MDS@[3] == 40, INV_MDS@[3] == 1677338490489682849, INV_MDS@[7] == 1123330866308046354, INV_MDS@[11] == 11714741135833070, INV_MDS@[15] == 3466626196915722075,
    ;
}

proof fn lemma_product_forward_row_1()
    ensures
        identity_row(Elem::modulus(), MDS@, INV_MDS@, 4, 1, 4),
{
    reveal_with_fuel(sum, 5);
    reveal_with_fuel(identity_row, 5);
    assert(product_entry(MDS@, INV_MDS@, 4, 1, 0) == (MDS@[4] as int) * (INV_MDS@[0] as int) + (MDS@[5] as int) * (INV_MDS@[4] as int) + (MDS@[6] as int) * (INV_MDS@[8] as int) + (MDS@[7] as int) * (INV_MDS@[12] as int));
    assert(((MDS@[4] as int) * (INV_MDS@[0] as int) + (MDS@[5] as int) * (INV_MDS@[4] as int) + (MDS@[6] as int) * (INV_MDS@[8] as int) + (MDS@[7] as int) * (INV_MDS@[12] as int)) % 4611624995532046337 == 0) by (nonlinear_arith)
        requires
            MDS@[4] == 4611624995532017177, MDS@[5] == 42471, MDS@[6] == 4611624995532031817, MDS@[7] == 1210, INV_MDS@[0] == 3835753351312808841, INV_MDS@[4] == 3912489244545528721, INV_MDS@[8] == 1961047666138455920, INV_MDS@[12] == 683203703041784644,
    ;
    assert(product_entry(MDS@, INV_MDS@, 4, 1, 1) == (MDS@[4] as int) * (INV_MDS@[1] as int) + (MDS@[5] as int) * (INV_MDS@[5] as int) + (MDS@[6] as int) * (INV_MDS@[9] as int) + (MDS@[7] as int) * (INV_MDS@[13] as int));
    assert(((MDS@[4] as int) * (INV_MDS@[1] as int) + (MDS@[5] as int) * (INV_MDS@[5] as int) + (MDS@[6] as int) * (INV_MDS@[9] as int) + (MDS@[7] as int) * (INV_MDS@[13] as int)) % 4611624995532046337 == 1) by (nonlinear_arith)
        requires
            MDS@[4] == 4611624995532017177, MDS@[5] == 42471, MDS@[6] == 4611624995532031817, MDS@[7] == 1210, INV_MDS@[1] == 505991969560173536, INV_MDS@[5] == 2992699836076075320, INV_MDS@[9] == 4252451032307404410, INV_MDS@[13] == 778093106242032509,
    ;
    assert(product_entry(MDS@, INV_MDS@, 4, 1, 2) == (MDS@[4] as int) * (INV_MDS@[2] as int) + (MDS@[5] as int) * (INV_MDS@[6] as int) + (MDS@[6] as int) * (INV_MDS@[10] as int) + (MDS@[7] as int) * (INV_MDS@[14] as int));
    assert(((MDS@[4] as int) * (INV_MDS@[2] as int) + (MDS@[5] as int) * (INV_MDS@[6] as int) + (MDS@[6] as int) * (INV_MDS@[10] as int) + (MDS@[7] as int) * (INV_MDS@[14] as int)) % 4611624995532046337 == 0) by (nonlinear_arith)
        requires
            MDS@[4] == 4611624995532017177, MDS@[5] == 42471, MDS@[6] == 4611624995532031817, MDS@[7] == 1210, INV_MDS@[2] == 3204166179701427449, INV_MDS@[6] == 1194730044134442280, INV_MDS@[10] == 2998036551482399275, INV_MDS@[14] == 4295326984864553447,
    ;
    assert(product_entry(MDS@, INV_MDS@, 4, 1, 3) == (MDS@[4] as int) * (INV_MDS@[3] as int) + (MDS@[5] as int) * (INV_MDS@[7] as int) + (MDS@[6] as int) * (INV_MDS@[11] as int) + (MDS@[7] as int) * (INV_MDS@[15] as int));
    assert(((MDS@[4] as int) * (INV_MDS@[3] as int) + (MDS@[5] as int) * (INV_MDS@[7] as int) + (MDS@[6] as int) * (INV_MDS@[11] as int) + (MDS@[7] as int) * (INV_MDS@[15] as int)) % 4611624995532046337 == 0) by (nonlinear_arith)
        requires
            MDS@[4] == 4611624995532017177, MDS@[5] == 42471, MDS@[6] == 4611624995532031817, MDS@[7] == 1210, INV_MDS@[3] == 1677338490489682849, INV_MDS@[7] == 1123330866308046354, INV_MDS@[11] == 11714741135833070, INV_MDS@[15] == 3466626196915722075,
    ;
}

proof fn lemma_product_forward_row_2()
    ensures
        identity_row(Elem::modulus(), MDS@, INV_MDS@, 4, 2, 4),
{
    reveal_with_fuel(sum, 5);
    reveal_with_fuel(identity_row, 5);
    assert(product_entry(MDS@, INV_MDS@, 4, 2, 0) == (MDS@[8] as int) * (INV_MDS@[0] as int) + (MDS@[9] as int) * (INV_MDS@[4] as int) + (MDS@[10] as int) * (INV_MDS@[8] as int) + (MDS@[11] as int) * (INV_MDS@[12] as int));
    assert(((MDS@[8] as int) * (INV_MDS@[0] as int) + (MDS@[9] as int) * (INV_MDS@[4] as int) + (MDS@[10] as int) * (INV_MDS@[8] as int) + (MDS@[11] as int) * (INV_MDS@[12] as int)) % 4611624995532046337 == 0) by (nonlinear_arith)
        requires
            MDS@[8] == 4611624995531164247, MDS@[9] == 1277640, MDS@[10] == 4611624995531616908, MDS@[11] == 33880, INV_MDS@[0] == 3835753351312808841, INV_MDS@[4] == 3912489244545528721, INV_MDS@[8] == 1961047666138455920, INV_MDS@[12] == 683203703041784644,
    ;
    assert(product_entry(MDS@, INV_MDS@, 4, 2, 1) == (MDS@[8] as int) * (INV_MDS@[1] as int) + (MDS@[9] as int) * (INV_MDS@[5] as int) + (MDS@[10] as int) * (INV_MDS@[9] as int) + (MDS@[11] as int) * (INV_MDS@[13] as int));
    assert(((MDS@[8] as int) * (INV_MDS@[1] as int) + (MDS@[9] as int) * (INV_MDS@[5] as int) + (MDS@[10] as int) * (INV_MDS@[9] as int) + (MDS@[11] as int) * (INV_MDS@[13] as int)) % 4611624995532046337 == 0) by (nonlinear_arith)
        requires
            MDS@[8] == 4611624995531164247, MDS@[9] == 1277640, MDS@[10] == 4611624995531616908, MDS@[11] == 33880, INV_MDS@[1] == 505991969560173536, INV_MDS@[5] == 2992699836076075320, INV_MDS@[9] == 4252451032307404410, INV_MDS@[13] == 778093106242032509,
    ;
    assert(product_entry(MDS@, INV_MDS@, 4, 2, 2) == (MDS@[8] as int) * (INV_MDS@[2] as int) + (MDS@[9] as int) * (INV_MDS@[6] as int) + (MDS@[10] as int) * (INV_MDS@[10] as int) + (MDS@[11] as int) * (INV_MDS@[14] as int));
    assert(((MDS@[8] as int) * (INV_MDS@[2] as int) + (MDS@[9] as int) * (INV_MDS@[6] as int) + (MDS@[10] as int) * (INV_MDS@[10] as int) + (MDS@[11] as int) * (INV_MDS@[14] as int)) % 4611624995532046337 == 1) by (nonlinear_arith)
        requires
            MDS@[8] == 4611624995531164247, MDS@[9] == 1277640, MDS@[10] == 4611624995531616908, MDS@[11] == 33880, INV_MDS@[2] == 3204166179701427449, INV_MDS@[6] == 1194730044134442280, INV_MDS@[10] == 2998036551482399275, INV_MDS@[14] == 4295326984864553447,
    ;
    assert(product_entry(MDS@, INV_MDS@, 4, 2, 3) == (MDS@[8] as int) * (INV_MDS@[3] as int) + (MDS@[9] as int) * (INV_MDS@[7] as int) + (MDS@[10] as int) * (INV_MDS@[11] as int) + (MDS@[11] as int) * (INV_MDS@[15] as int));
    assert(((MDS@[8] as int) * (INV_MDS@[3] as int) + (MDS@[9] as int) * (INV_MDS@[7] as int) + (MDS@[10] as int) * (INV_MDS@[11] as int) + (MDS@[11] as int) * (INV_MDS@[15] as int)) % 4611624995532046337 == 0) by (nonlinear_arith)
        requires
            MDS@[8] == 4611624995531164247, MDS@[9] == 1277640, MDS@[10] == 4611624995531616908, MDS@[11] == 33880, INV_MDS@[3] == 1677338490489682849, INV_MDS@[7] == 1123330866308046354, INV_MDS@[11] == 11714741135833070, INV_MDS@[15] == 3466626196915722075,
    ;
}

proof fn lemma_product_forward_row_3()
    ensures
        identity_row(Elem::modulus(), MDS@, INV_MDS@, 4, 3, 4),
{
    reveal_with_fuel(sum, 5);
    reveal_with_fuel(identity_row, 5);
    assert(product_entry(MDS@, INV_MDS@, 4, 3, 0) == (MDS@[12] as int) * (INV_MDS@[0] as int) + (MDS@[13] as int) * (INV_MDS@[4] as int) + (MDS@[14] as int) * (INV_MDS@[8] as int) + (MDS@[15] as int) * (INV_MDS@[12] as int));
    assert(((MDS@[12] as int) * (INV_MDS@[0] as int) + (MDS@[13] as int) * (INV_MDS@[4] as int) + (MDS@[14] as int) * (INV_MDS@[8] as int) + (MDS@[15] as int) * (INV_MDS@[12] as int)) % 4611624995532046337 == 0) by (nonlinear_arith)
        requires
            MDS@[12] == 4611624995507347817, MDS@[13] == 35708310, MDS@[14] == 4611624995520110777, MDS@[15] == 925771, INV_MDS@[0] == 3835753351312808841, INV_MDS@[4] == 3912489244545528721, INV_MDS@[8] == 1961047666138455920, INV_MDS@[12] == 683203703041784644,
    ;
    assert(product_entry(MDS@, INV_MDS@, 4, 3, 1) == (MDS@[12] as int) * (INV_MDS@[1] as int) + (MDS@[13] as int) * (INV_MDS@[5] as int) + (MDS@[14] as int) * (INV_MDS@[9] as int) + (MDS@[15] as int) * (INV_MDS@[13] as int));
    assert(((MDS@[12] as int) * (INV_MDS@[1] as int) + (MDS@[13] as int) * (INV_MDS@[5] as int) + (MDS@[14] as int) * (INV_MDS@[9] as int) + (MDS@[15] as int) * (INV_MDS@[13] as int)) % 4611624995532046337 == 0) by (nonlinear_arith)
        requires
            MDS@[12] == 4611624995507347817, MDS@[13] == 35708310, MDS@[14] == 4611624995520110777, MDS@[15] == 925771, INV_MDS@[1] == 505991969560173536, INV_MDS@[5] == 2992699836076075320, INV_MDS@[9] == 4252451032307404410, INV_MDS@[13] == 778093106242032509,
    ;
    assert(product_entry(MDS@, INV_MDS@, 4, 3, 2) == (MDS@[12] as int) * (INV_MDS@[2] as int) + (MDS@[13] as int) * (INV_MDS@[6] as int) + (MDS@[14] as int) * (INV_MDS@[10] as int) + (MDS@[15] as int) * (INV_MDS@[14] as int));
    assert(((MDS@[12] as int) * (INV_MDS@[2] as int) + (MDS@[13] as int) * (INV_MDS@[6] as int) + (MDS@[14] as int) * (INV_MDS@[10] as int) + (MDS@[15] as int) * (INV_MDS@[14] as int)) % 4611624995532046337 == 0) by (nonlinear_arith)
        requires
            MDS@[12] == 4611624995507347817, MDS@[13] == 35708310, MDS@[14] == 4611624995520110777, MDS@[15] == 925771, INV_MDS@[2] == 3204166179701427449, INV_MDS@[6] == 1194730044134442280, INV_MDS@[10] == 2998036551482399275, INV_MDS@[14] == 4295326984864553447,
    ;
    assert(product_entry(MDS@, INV_MDS@, 4, 3, 3) == (MDS@[12] as int) * (INV_MDS@[3] as int) + (MDS@[13] as int) * (INV_MDS@[7] as int) + (MDS@[14] as int) * (INV_MDS@[11] as int) + (MDS@[15] as int) * (INV_MDS@[15] as int));
    assert(((MDS@[12] as int) * (INV_MDS@[3] as int) + (MDS@[13] as int) * (INV_MDS@[7] as int) + (MDS@[14] as int) * (INV_MDS@[11] as int) + (MDS@[15] as int) * (INV_MDS@[15] as int)) % 4611624995532046337 == 1) by (nonlinear_arith)
        requires
            MDS@[12] == 4611624995507347817, MDS@[13] == 35708310, MDS@[14] == 4611624995520110777, MDS@[15] == 925771, INV_MDS@[3] == 1677338490489682849, INV_MDS@[7] == 1123330866308046354, INV_MDS@[11] == 11714741135833070, INV_MDS@[15] == 3466626196915722075,
    ;
}

proof fn lemma_product_forward()
    ensures
        product_is_identity(Elem::modulus(), MDS@, INV_MDS@, 4),
{
    lemma_product_forward_row_0();
    lemma_product_forward_row_1();
    lemma_product_forward_row_2();
    lemma_product_forward_row_3();
    reveal_with_fuel(identity_rows, 5);
    assert(identity_rows(Elem::modulus(), MDS@, INV_MDS@, 4, 4));
    lemma_identity_rows(Elem::modulus(), MDS@, INV_MDS@, 4);
}

proof fn lemma_product_backward_row_0()
    ensures
        identity_row(Elem::modulus(), INV_MDS@, MDS@, 4, 0, 4),
{
    reveal_with_fuel(sum, 5);
    reveal_with_fuel(identity_row, 5);
    assert(product_entry(INV_MDS@, MDS@, 4, 0, 0) == (INV_MDS@[0] as int) * (MDS@[0] as int) + (INV_MDS@[1] as int) * (MDS@[4] as int) + (INV_MDS@[2] as int) * (MDS@[8] as int) + (INV_MDS@[3] as int) * (MDS@[12] as int));
    assert(((INV_MDS@[0] as int) * (MDS@[0] as int) + (INV_MDS@[1] as int) * (MDS@[4] as int) + (INV_MDS@[2] as int) * (MDS@[8] as int) + (INV_MDS@[3] as int) * (MDS@[12] as int)) % 4611624995532046337 == 1) by (nonlinear_arith)
        requires
            INV_MDS@[0] == 3835753351312808841, INV_MDS@[1] == 505991969560173536, INV_MDS@[2] == 3204166179701427449, INV_MDS@[3] == 1677338490489682849, MDS@[0] == 4611624995532045608, MDS@[4] == 4611624995532017177, MDS@[8] == 4611624995531164247, MDS@[12] == 4611624995507347817,
    ;
    assert(product_entry(INV_MDS@, MDS@, 4, 0, 1) == (INV_MDS@[0] as int) * (MDS@[1] as int) + (INV_MDS@[1] as int) * (MDS@[5] as int) + (INV_MDS@[2] as int) * (MDS@[9] as int) + (INV_MDS@[3] as int) * (MDS@[13] as int));
    assert(((INV_MDS@[0] as int) * (MDS@[1] as int) + (INV_MDS@[1] as int) * (MDS@[5] as int) + (INV_MDS@[2] as int) * (MDS@[9] as int) + (INV_MDS@[3] as int) * (MDS@[13] as int)) % 4611624995532046337 == 0) by (nonlinear_arith)
        requires
            INV_MDS@[0] == 3835753351312808841, INV_MDS@[1] == 505991969560173536, INV_MDS@[2] == 3204166179701427449, INV_MDS@[3] == 1677338490489682849, MDS@[1] == 1080, MDS@[5] == 42471, MDS@[9] == 1277640, MDS@[13] == 35708310,
    ;
    assert(product_entry(INV_MDS@, MDS@, 4, 0, 2) == (INV_MDS@[0] as int) * (MDS@[2] as int) + (INV_MDS@[1] as int) * (MDS@[6] as int) + (INV_MDS@[2] as int) * (MDS@[10] as int) + (INV_MDS@[3] as int) * (MDS@[14] as int));
    assert(((INV_MDS@[0] as int) * (MDS@[2] as int) + (INV_MDS@[1] as int) * (MDS@[6] as int) + (INV_MDS@[2] as int) * (MDS@[10] as int) + (INV_MDS@[3] as int) * (MDS@[14] as int)) % 4611624995532046337 == 0) by (nonlinear_arith)
        requires
            INV_MDS@[0] == 3835753351312808841, INV_MDS@[1] == 505991969560173536, INV_MDS@[2] == 3204166179701427449, INV_MDS@[3] == 1677338490489682849, MDS@[2] == 4611624995532045947, MDS@[6] == 4611624995532031817, MDS@[10] == 4611624995531616908, MDS@[14] == 4611624995520110777,
    ;
    assert(product_entry(INV_MDS@, MDS@, 4, 0, 3) == (INV_MDS@[0] as int) * (MDS@[3] as int) + (INV_MDS@[1] as int) * (MDS@[7] as int) + (INV_MDS@[2] as int) * (MDS@[11] as int) + (INV_MDS@[3] as int) * (MDS@[15] as int));
    assert(((INV_MDS@[0] as int) * (MDS@[3] as int) + (INV_MDS@[1] as int) * (MDS@[7] as int) + (INV_MDS@[2] as int) * (MDS@[11] as int) + (INV_MDS@[3] as int) * (MDS@[15] as int)) % 4611624995532046337 == 0) by (nonlinear_arith)
        requires
            INV_MDS@[0] == 3835753351312808841, INV_MDS@[1] == 505991969560173536, INV_MDS@[2] == 3204166179701427449, INV_MDS@[3] == 1677338490489682849, MDS@[3] == 40, MDS@[7] == 1210, MDS@[11] == 33880, MDS@[15] == 925771,
    ;
}

proof fn lemma_product_backward_row_1()
    ensures
        identity_row(Elem::modulus(), INV_MDS@, MDS@, 4, 1, 4),
{
    reveal_with_fuel(sum, 5);
    reveal_with_fuel(identity_row, 5);
    assert(product_entry(INV_MDS@, MDS@, 4, 1, 0) == (INV_MDS@[4] as int) * (MDS@[0] as int) + (INV_MDS@[5] as int) * (MDS@[4] as int) + (INV_MDS@[6] as int) * (MDS@[8] as int) + (INV_MDS@[7] as int) * (MDS@[12] as int));
    assert(((INV_MDS@[4] as int) * (MDS@[0] as int) + (INV_MDS@[5] as int) * (MDS@[4] as int) + (INV_MDS@[6] as int) * (MDS@[8] as int) + (INV_MDS@[7] as int) * (MDS@[12] as int)) % 4611624995532046337 == 0) by (nonlinear_arith)
        requires
            INV_MDS@[4] == 3912489244545528721, INV_MDS@[5] == 2992699836076075320, INV_MDS@[6] == 1194730044134442280, INV_MDS@[7] == 1123330866308046354, MDS@[0] == 4611624995532045608, MDS@[4] == 4611624995532017177, MDS@[8] == 4611624995531164247, MDS@[12] == 4611624995507347817,
    ;
    assert(product_entry(INV_MDS@, MDS@, 4, 1, 1) == (INV_MDS@[4] as int) * (MDS@[1] as int) + (INV_MDS@[5] as int) * (MDS@[5] as int) + (INV_MDS@[6] as int) * (MDS@[9] as int) + (INV_MDS@[7] as int) * (MDS@[13] as int));
    assert(((INV_MDS@[4] as int) * (MDS@[1] as int) + (INV_MDS@[5] as int) * (MDS@[5] as int) + (INV_MDS@[6] as int) * (MDS@[9] as int) + (INV_MDS@[7] as int) * (MDS@[13] as int)) % 4611624995532046337 == 1) by (nonlinear_arith)
        requires
            INV_MDS@[4] == 3912489244545528721, INV_MDS@[5] == 2992699836076075320, INV_MDS@[6] == 1194730044134442280, INV_MDS@[7] == 1123330866308046354, MDS@[1] == 1080, MDS@[5] == 42471, MDS@[9] == 1277640, MDS@[13] == 35708310,
    ;
    assert(product_entry(INV_MDS@, MDS@, 4, 1, 2) == (INV_MDS@[4] as int) * (MDS@[2] as int) + (INV_MDS@[5] as int) * (MDS@[6] as int) + (INV_MDS@[6] as int) * (MDS@[10] as int) + (INV_MDS@[7] as int) * (MDS@[14] as int));
    assert(((INV_MDS@[4] as int) * (MDS@[2] as int) + (INV_MDS@[5] as int) * (MDS@[6] as int) + (INV_MDS@[6] as int) * (MDS@[10] as int) + (INV_MDS@[7] as int) * (MDS@[14] as int)) % 4611624995532046337 == 0) by (nonlinear_arith)
        requires
            INV_MDS@[4] == 3912489244545528721, INV_MDS@[5] == 2992699836076075320, INV_MDS@[6] == 1194730044134442280, INV_MDS@[7] == 1123330866308046354, MDS@[2] == 4611624995532045947, MDS@[6] == 4611624995532031817, MDS@[10] == 4611624995531616908, MDS@[14] == 4611624995520110777,
    ;
    assert(product_entry(INV_MDS@, MDS@, 4, 1, 3) == (INV_MDS@[4] as int) * (MDS@[3] as int) + (INV_MDS@[5] as int) * (MDS@[7] as int) + (INV_MDS@[6] as int) * (MDS@[11] as int) + (INV_MDS@[7] as int) * (MDS@[15] as int));
    assert(((INV_MDS@[4] as int) * (MDS@[3] as int) + (INV_MDS@[5] as int) * (MDS@[7] as int) + (INV_MDS@[6] as int) * (MDS@[11] as int) + (INV_MDS@[7] as int) * (MDS@[15] as int)) % 4611624995532046337 == 0) by (nonlinear_arith)
        requires
            INV_MDS@[4] == 3912489244545528721, INV_MDS@[5] == 2992699836076075320, INV_MDS@[6] == 1194730044134442280, INV_MDS@[7] == 1123330866308046354, MDS@[3] == 40, MDS@[7] == 1210, MDS@[11] == 33880, MDS@[15] == 925771,
    ;
}

proof fn lemma_product_backward_row_2()
    ensures
        identity_row(Elem::modulus(), INV_MDS@, MDS@, 4, 2, 4),
{
    reveal_with_fuel(sum, 5);
    reveal_with_fuel(identity_row, 5);
    assert(product_entry(INV_MDS@, MDS@, 4, 2, 0) == (INV_MDS@[8] as int) * (MDS@[0] as int) + (INV_MDS@[9] as int) * (MDS@[4] as int) + (INV_MDS@[10] as int) * (MDS@[8] as int) + (INV_MDS@[11] as int) * (MDS@[12] as int));
    assert(((INV_MDS@[8] as int) * (MDS@[0] as int) + (INV_MDS@[9] as int) * (MDS@[4] as int) + (INV_MDS@[10] as int) * (MDS@[8] as int) + (INV_MDS@[11] as int) * (MDS@[12] as int)) % 4611624995532046337 == 0) by (nonlinear_arith)
        requires
            INV_MDS@[8] == 1961047666138455920, INV_MDS@[9] == 4252451032307404410, INV_MDS@[10] == 2998036551482399275, INV_MDS@[11] == 11714741135833070, MDS@[0] == 4611624995532045608, MDS@[4] == 4611624995532017177, MDS@[8] == 4611624995531164247, MDS@[12] == 4611624995507347817,
    ;
    assert(product_entry(INV_MDS@, MDS@, 4, 2, 1) == (INV_MDS@[8] as int) * (MDS@[1] as int) + (INV_MDS@[9] as int) * (MDS@[5] as int) + (INV_MDS@[10] as int) * (MDS@[9] as int) + (INV_MDS@[11] as int) * (MDS@[13] as int));
    assert(((INV_MDS@[8] as int) * (MDS@[1] as int) + (INV_MDS@[9] as int) * (MDS@[5] as int) + (INV_MDS@[10] as int) * (MDS@[9] as int) + (INV_MDS@[11] as int) * (MDS@[13] as int)) % 4611624995532046337 == 0) by (nonlinear_arith)
        requires
            INV_MDS@[8] == 1961047666138455920, INV_MDS@[9] == 4252451032307404410, INV_MDS@[10] == 2998036551482399275, INV_MDS@[11] == 11714741135833070, MDS@[1] == 1080, MDS@[5] == 42471, MDS@[9] == 1277640, MDS@[13] == 35708310,
    ;
    assert(product_entry(INV_MDS@, MDS@, 4, 2, 2) == (INV_MDS@[8] as int) * (MDS@[2] as int) + (INV_MDS@[9] as int) * (MDS@[6] as int) + (INV_MDS@[10] as int) * (MDS@[10] as int) + (INV_MDS@[11] as int) * (MDS@[14] as int));
    assert(((INV_MDS@[8] as int) * (MDS@[2] as int) + (INV_MDS@[9] as int) * (MDS@[6] as int) + (INV_MDS@[10] as int) * (MDS@[10] as int) + (INV_MDS@[11] as int) * (MDS@[14] as int)) % 4611624995532046337 == 1) by (nonlinear_arith)
        requires
            INV_MDS@[8] == 1961047666138455920, INV_MDS@[9] == 4252451032307404410, INV_MDS@[10] == 2998036551482399275, INV_MDS@[11] == 11714741135833070, MDS@[2] == 4611624995532045947, MDS@[6] == 4611624995532031817, MDS@[10] == 4611624995531616908, MDS@[14] == 4611624995520110777,
    ;
    assert(product_entry(INV_MDS@, MDS@, 4, 2, 3) == (INV_MDS@[8] as int) * (MDS@[3] as int) + (INV_MDS@[9] as int) * (MDS@[7] as int) + (INV_MDS@[10] as int) * (MDS@[11] as int) + (INV_MDS@[11] as int) * (MDS@[15] as int));
    assert(((INV_MDS@[8] as int) * (MDS@[3] as int) + (INV_MDS@[9] as int) * (MDS@[7] as int) + (INV_MDS@[10] as int) * (MDS@[11] as int) + (INV_MDS@[11] as int) * (MDS@[15] as int)) % 4611624995532046337 == 0) by (nonlinear_arith)
        requires
            INV_MDS@[8] == 1961047666138455920, INV_MDS@[9] == 4252451032307404410, INV_MDS@[10] == 2998036551482399275, INV_MDS@[11] == 11714741135833070, MDS@[3] == 40, MDS@[7] == 1210, MDS@[11] == 33880, MDS@[15] == 925771,
    ;
}

proof fn lemma_product_backward_row_3()
    ensures
        identity_row(Elem::modulus(), INV_MDS@, MDS@, 4, 3, 4),
{
    reveal_with_fuel(sum, 5);
    reveal_with_fuel(identity_row, 5);
    assert(product_entry(INV_MDS@, MDS@, 4, 3, 0) == (INV_MDS@[12] as int) * (MDS@[0] as int) + (INV_MDS@[13] as int) * (MDS@[4] as int) + (INV_MDS@[14] as int) * (MDS@[8] as int) + (INV_MDS@[15] as int) * (MDS@[12] as int));
    assert(((INV_MDS@[12] as int) * (MDS@[0] as int) + (INV_MDS@[13] as int) * (MDS@[4] as int) + (INV_MDS@[14] as int) * (MDS@[8] as int) + (INV_MDS@[15] as int) * (MDS@[12] as int)) % 4611624995532046337 == 0) by (nonlinear_arith)
        requires
            INV_MDS@[12] == 683203703041784644, INV_MDS@[13] == 778093106242032509, INV_MDS@[14] == 4295326984864553447, INV_MDS@[15] == 3466626196915722075, MDS@[0] == 4611624995532045608, MDS@[4] == 4611624995532017177, MDS@[8] == 4611624995531164247, MDS@[12] == 4611624995507347817,
    ;
    assert(product_entry(INV_MDS@, MDS@, 4, 3, 1) == (INV_MDS@[12] as int) * (MDS@[1] as int) + (INV_MDS@[13] as int) * (MDS@[5] as int) + (INV_MDS@[14] as int) * (MDS@[9] as int) + (INV_MDS@[15] as int) * (MDS@[13] as int));
    assert(((INV_MDS@[12] as int) * (MDS@[1] as int) + (INV_MDS@[13] as int) * (MDS@[5] as int) + (INV_MDS@[14] as int) * (MDS@[9] as int) + (INV_MDS@[15] as int) * (MDS@[13] as int)) % 4611624995532046337 == 0) by (nonlinear_arith)
        requires
            INV_MDS@[12] == 683203703041784644, INV_MDS@[13] == 778093106242032509, INV_MDS@[14] == 4295326984864553447, INV_MDS@[15] == 3466626196915722075, MDS@[1] == 1080, MDS@[5] == 42471, MDS@[9] == 1277640, MDS@[13] == 35708310,
    ;
    assert(product_entry(INV_MDS@, MDS@, 4, 3, 2) == (INV_MDS@[12] as int) * (MDS@[2] as int) + (INV_MDS@[13] as int) * (MDS@[6] as int) + (INV_MDS@[14] as int) * (MDS@[10] as int) + (INV_MDS@[15] as int) * (MDS@[14] as int));
    assert(((INV_MDS@[12] as int) * (MDS@[2] as int) + (INV_MDS@[13] as int) * (MDS@[6] as int) + (INV_MDS@[14] as int) * (MDS@[10] as int) + (INV_MDS@[15] as int) * (MDS@[14] as int)) % 4611624995532046337 == 0) by (nonlinear_arith)
        requires
            INV_MDS@[12] == 683203703041784644, INV_MDS@[13] == 778093106242032509, INV_MDS@[14] == 4295326984864553447, INV_MDS@[15] == 3466626196915722075, MDS@[2] == 4611624995532045947, MDS@[6] == 4611624995532031817, MDS@[10] == 4611624995531616908, MDS@[14] == 4611624995520110777,
    ;
    assert(product_entry(INV_MDS@, MDS@, 4, 3, 3) == (INV_MDS@[12] as int) * (MDS@[3] as int) + (INV_MDS@[13] as int) * (MDS@[7] as int) + (INV_MDS@[14] as int) * (MDS@[11] as int) + (INV_MDS@[15] as int) * (MDS@[15] as int));
    assert(((INV_MDS@[12] as int) * (MDS@[3] as int) + (INV_MDS@[13] as int) * (MDS@[7] as int) + (INV_MDS@[14] as int) * (MDS@[11] as int) + (INV_MDS@[15] as int) * (MDS@[15] as int)) % 4611624995532046337 == 1) by (nonlinear_arith)
        requires
            INV_MDS@[12] == 683203703041784644, INV_MDS@[13] == 778093106242032509, INV_MDS@[14] == 4295326984864553447, INV_MDS@[15] == 3466626196915722075, MDS@[3] == 40, MDS@[7] == 1210, MDS@[11] == 33880, MDS@[15] == 925771,
    ;
}

proof fn lemma_product_backward()
    ensures
        product_is_identity(Elem::modulus(), INV_MDS@, MDS@, 4),
{
    lemma_product_backward_row_0();
    lemma_product_backward_row_1();
    lemma_product_backward_row_2();
    lemma_product_backward_row_3();
    reveal_with_fuel(identity_rows, 5);
    assert(identity_rows(Elem::modulus(), INV_MDS@, MDS@, 4, 4));
    lemma_identity_rows(Elem::modulus(), INV_MDS@, MDS@, 4);
}

/// The digest of `input_sequence`, whose length must be a multiple of `RATE`.
pub fn hash(input_sequence: &Vec<Elem>) -> (r: [Elem; RATE])
    requires
        input_sequence@.len() % (RATE as nat) == 0,
    ensures
        vals(r@) == hash_spec(spec_params(), Elem::modulus(), vals(input_sequence@)),
{
    rescue_prime_hash(input_sequence)
}

/// The sponge: starting from the zero state, each chunk of `RATE` elements is added onto the
/// first lanes and the state permuted; the digest is the first `RATE` lanes.
pub fn rescue_prime_hash(input_sequence: &Vec<Elem>) -> (r: [Elem; RATE])
    requires
        input_sequence@.len() % (RATE as nat) == 0,
    ensures
        vals(r@) == hash_spec(spec_params(), Elem::modulus(), vals(input_sequence@)),
{
    let digest = params().hash(input_sequence);
    to_array(&digest)
}

/// The digest of `input_sequence` followed by a one and the fewest zeros that reach a
/// multiple of `RATE`.
pub fn rescue_prime_wrapper(input_sequence: &Vec<Elem>) -> (r: [Elem; RATE])
    requires
        input_sequence@.len() + STATE_WIDTH <= usize::MAX,
    ensures
        vals(r@) == hash_spec(
            spec_params(),
            Elem::modulus(),
            pad_spec(vals(input_sequence@), RATE as nat),
        ),
{
    let digest = params().hash_padded(input_sequence);
    to_array(&digest)
}

/// Applies the `NUM_ROUNDS` rounds to `state`.
pub fn rescue_xlix_permutation(state: &mut [Elem; STATE_WIDTH])
    ensures
        vals(final(state)@) == permutation_spec(spec_params(), Elem::modulus(), vals(old(state)@)),
{
    params().permutation(state);
}

/// Applies round `round % NUM_ROUNDS` to `state`.
pub fn apply_round(state: &mut [Elem], round: usize)
    requires
        old(state)@.len() == STATE_WIDTH,
    ensures
        final(state)@.len() == STATE_WIDTH,
        vals(final(state)@) == round_spec(
            spec_params(),
            Elem::modulus(),
            vals(old(state)@),
            round as nat,
        ),
{
    params().apply_round(state, round);
}

/// Adds to `result_slice` the residuals of one round between `current_slice` and
/// `next_slice`, scaled by `flag`; with `flag` one they all vanish exactly when the two
/// halves of the round agree.
pub fn enforce_round<E: PrimeField>(
    result_slice: &mut [E],
    current_slice: &[E],
    next_slice: &[E],
    round_constants: &[E],
    flag: E,
)
    requires
        current_slice@.len() == STATE_WIDTH,
        next_slice@.len() == STATE_WIDTH,
        round_constants@.len() >= 2 * STATE_WIDTH,
        old(result_slice)@.len() >= STATE_WIDTH,
    ensures
        final(result_slice)@.len() == old(result_slice)@.len(),
        vals(final(result_slice)@) == round_residuals(
            spec_params(),
            E::modulus(),
            vals(old(result_slice)@),
            vals(current_slice@),
            vals(next_slice@),
            vals(round_constants@),
            flag.val(),
        ),
{
    params().enforce_round(result_slice, current_slice, next_slice, round_constants, flag);
}

/// `enforce_round` with `pixels` first added onto the first `RATE` lanes of `current_slice`.
pub fn enforce_first_round<E: PrimeField>(
    result_slice: &mut [E],
    pixels: &[E],
    current_slice: &[E],
    next_slice: &[E],
    round_constants: &[E],
    flag: E,
)
    requires
        pixels@.len() >= RATE,
        current_slice@.len() == STATE_WIDTH,
        next_slice@.len() == STATE_WIDTH,
        round_constants@.len() >= 2 * STATE_WIDTH,
        old(result_slice)@.len() >= STATE_WIDTH,
    ensures
        final(result_slice)@.len() == old(result_slice)@.len(),
        vals(final(result_slice)@) == round_residuals(
            spec_params(),
            E::modulus(),
            vals(old(result_slice)@),
            absorb_lanes_spec(E::modulus(), vals(current_slice@), vals(pixels@).take(RATE as int)),
            vals(next_slice@),
            vals(round_constants@),
            flag.val(),
        ),
{
    params().enforce_first_round(result_slice, pixels, current_slice, next_slice, round_constants, flag);
}

/// The round constants in `2 × STATE_WIDTH` columns of length `cycle_length`, the constants of
/// round `i` at position `(i + shift) % cycle_length` and zeros elsewhere.
pub fn get_round_constants_periodic(cycle_length: usize, shift: usize) -> (r: Vec<Vec<Elem>>)
    requires
        cycle_length > 0,
        shift + NUM_ROUNDS <= usize::MAX,
    ensures
        r@.len() == 2 * STATE_WIDTH,
        forall|j: int|
            0 <= j < 2 * STATE_WIDTH ==> vals(#[trigger] r@[j]@) == periodic_column(
                Elem::modulus(),
                ROUND_CONSTANTS@,
                (2 * STATE_WIDTH) as nat,
                j as nat,
                cycle_length as nat,
                shift as nat,
                NUM_ROUNDS as nat,
            ),
{
    params().round_constants_periodic(cycle_length, shift)
}

} // verus!

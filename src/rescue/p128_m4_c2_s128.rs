//! Rescue-Prime over the 128-bit prime field (modulus `MODULUS_128`): width 4, capacity 2, 14 rounds, S-box
//! exponent 3, security of at least 128 bits.

use vstd::prelude::*;
use crate::field::{Felt128, PrimeField, canonical_seq, vals};
use crate::layers::{
    absorb_lanes_spec, exp_undoes, fermat, lemma_exponents_invert, periodic_column, to_array,
    zeros, undoes,
};
use crate::matrix::{
    identity_row, identity_rows, lemma_identity_rows, lemma_product_identity_undoes, product_entry,
    product_is_identity, sum,
};
use crate::rescue::{
    RescueParams, hash_spec, lemma_first_round_constraints_vanish, lemma_round_constraints_vanish,
    pad_spec, permutation_spec, round_residuals, round_spec,
};

verus! {

pub type Elem = Felt128;

pub const NUM_ROUNDS: usize = 14;
pub const STATE_WIDTH: usize = 4;
pub const CAPACITY: usize = 2;
pub const RATE: usize = STATE_WIDTH - CAPACITY;

/// The exponent of the forward S-box.
pub const ALPHA: u128 = 3;

/// The exponent of the inverse S-box: the inverse of `ALPHA` modulo the prime minus one.
pub const INV_ALPHA: u128 = 226854911280625642308916371969163307691;

/// The mixing matrix, row-major.
pub const MDS: [u128; 16] = [
    340282366920938463463374557953744960808, 1080, 340282366920938463463374557953744961147,
    40, 340282366920938463463374557953744932377, 42471,
    340282366920938463463374557953744947017, 1210, 340282366920938463463374557953744079447,
    1277640, 340282366920938463463374557953744532108, 33880,
    340282366920938463463374557953720263017, 35708310, 340282366920938463463374557953733025977,
    925771,
];

/// The inverse of `MDS`, row-major.
pub const INV_MDS: [u128; 16] = [
    18020639985667067681479625318803400939, 119196285838491236328880430704594968577, 231409255903369280423951003551679307334,
    311938552114349342492438056332412246225, 245698978747161380010236204726851770228, 32113671753878130773768090116517402309,
    284248318938217584166130208504515171073, 118503764402619831976614612559605579465, 42476948408512208745085164298752800413,
    283594571303717652525183978492772054516, 94047455979774690913009073579656179991, 260445758149872374743470899536308888155,
    12603050626701424572717576220509072651, 250660673575506110946271793719013778251, 113894235293153614657151429548304212092,
    303406774346515776750608316419662860081,
];

/// `2 × STATE_WIDTH` constants per round.
pub const ROUND_CONSTANTS: [u128; 112] = [
    252554749905287426032410435339236177993, 326313117077202227382608658363071725971, 283436127564251164996053541356642980485,
    148409698559084596343094545913152351005, 129784633637387118109348657545411451832, 334721381970987361377153087104020782186,
    256906306164171297257581429422597033315, 126103441273649638990848377073385978477, 242992562558979132725356692446337670218,
    323111873747203350364563034066016472972, 167854256969530291341842495670018536864, 66261431183329449572401016560613956112,
    332707503643181957831913123159820045201, 309431953717330355442665105913755372275, 200997638640820198206847315341410077181,
    214851145820078726772477610841901771962, 254262885370163821084623485726191783139, 244630091243487942074377043025872238416,
    304150242027274232418240825909989817206, 28472731445103490784808196409880389309, 119755787943390712002295837101264640690,
    281506597661283550002516931496480836292, 300519887407532809019699703173411177603, 221876949225176456507505419920912685558,
    134925289027258548508365472694670781908, 143129342219798203971727336900106145546, 256223654898024207432846499826346471683,
    31147186782100244372647587606474806379, 102147260311686449008947017489626036358, 226358108901936519406611136752297497421,
    277784951628500852597040010728915204379, 74812516211160484832953917084826478651, 289125478451405676337998900307230992347,
    150380234798373118503578886303215289586, 112645792522461629112483247211125876711, 14349422390996266495769401955912647925,
    265433461947929523091688102515797359010, 34639103763714380233747269792456160784, 274099847563679426470048467000057277742,
    15131952275289278100892381186648210923, 88806147481272114692619820444421514468, 304700557699119246585301177411749419066,
    305393228640902983712889121879772644357, 161236819399049949062608078730468876565, 11623924323161638284425097755890320483,
    126290704653152881987149890880912009420, 164321971104799189713207082253065756234, 114260190697194069069649025399711832059,
    295078652738328625131732993422177908851, 310225988826227175492206819890429911472, 229694140216567581506612698579342432888,
    6024461837415388340984639392074522557, 174971522559056730282246944493707705439, 184429873644341360575372569143525803379,
    172106130068281439730805308027868268865, 271011430738159773088563793909157184864, 212355960719655401151112133350608141156,
    334861330271011001104101243069327615496, 114987273218437742948286485011847147433, 299346572414977350269412670517092081201,
    72152171826418673130231459130517351768, 148069753571804990671521650057633476899, 318314073996603838332906284599689793644,
    43025894537963204475589357644712683670, 246535545714498010355502669126117210625, 112342531944971796645058733124393941508,
    206935906552041964063932016246986229762, 335303402285754816036591264246220221463, 334925895094789316422990446773073311393,
    108333887072772182646372099844591643355, 236134832215051014416895379687397270708, 297449264994507974018631187250118491511,
    30379737549359223786488243446446766973, 256535737313118438633342733298096741462, 13655871679538759115242897169354997798,
    253363973060526401423666741515121567068, 249714211032619846408037334481310851880, 237063379341638115915427978928338765308,
    198856864913077475563358268410837759958, 38448680615233864931328658611445367057, 186055732619837617570046914087752001702,
    291510259293633339466148466467294184832, 156593891116260296604857920915516384535, 116129548136504618117164850160356084413,
    219011051537172400451585089136543096830, 293495723116265534657859444852644396488, 27506443760631949181321956878146663691,
    162807279332329907266627497483493840619, 100414852229420541724145466241233536391, 283135891066578111315210050113160136149,
    326504060055957940147837581714532493571, 166646293299020376357720186197358333021, 336167580062685375761670820946705832786,
    135900773996623087107557195621759472758, 247941487216893449028146949238966575419, 136192418998892393624948720647409976303,
    81197823229356799292644365664225101911, 173517215498293659248208316844286432666, 306085143195055178019159023892318087140,
    40715214845438591101823501649671766417, 40382657613840957120644301680346007829, 59655470284994118058435081913180362996,
    278383168781587211622114600298757695213, 127915200899541531717885467334976942941, 30915989239601216080136785371529662463,
    189106292065473123859980813727027305214, 21088543385967000723713613177008000704, 136117707900977832229762391977904797990,
    338838747860515573126904718627739111490, 233220207137347084357953242388702244929, 283973885625150422291177874970526876720,
    325874450051047835515849454872276760139,
];

/// This instance's constants.
pub open spec fn spec_params() -> RescueParams {
    RescueParams {
        width: STATE_WIDTH,
        capacity: CAPACITY,
        rounds: NUM_ROUNDS,
        alpha: ALPHA,
        inv_alpha: INV_ALPHA,
        mds: &MDS,
        inv_mds: &INV_MDS,
        round_constants: &ROUND_CONSTANTS,
    }
}

/// This instance's constants.
pub fn params() -> (r: RescueParams)
    ensures
        r == spec_params(),
        r.wf(),
{
    RescueParams {
        width: STATE_WIDTH,
        capacity: CAPACITY,
        rounds: NUM_ROUNDS,
        alpha: ALPHA,
        inv_alpha: INV_ALPHA,
        mds: &MDS,
        inv_mds: &INV_MDS,
        round_constants: &ROUND_CONSTANTS,
    }
}

/// The two S-box exponents undo each other, both ways, on every residue, wherever Fermat's
/// little theorem holds for the modulus.
pub proof fn lemma_sbox_exponents_invert()
    requires
        fermat(Elem::modulus()),
    ensures
        exp_undoes(Elem::modulus(), ALPHA as nat, INV_ALPHA as nat),
        exp_undoes(Elem::modulus(), INV_ALPHA as nat, ALPHA as nat),
{
    lemma_exponents_invert(Elem::modulus(), ALPHA as nat, INV_ALPHA as nat);
}

/// With flag one, the round constraints vanish on every state of residues and the state that
/// round `r` makes of it, and on the same with a chunk of input absorbed first, wherever
/// Fermat's little theorem holds for the modulus (it does, the modulus being prime).
pub proof fn lemma_constraints_vanish(cur: Seq<int>, chunk: Seq<int>, r: nat)
    requires
        cur.len() == STATE_WIDTH,
        chunk.len() == RATE,
        canonical_seq(cur, Elem::modulus()),
        fermat(Elem::modulus()),
    ensures
        round_residuals(
            spec_params(),
            Elem::modulus(),
            zeros(STATE_WIDTH as nat),
            cur,
            round_spec(spec_params(), Elem::modulus(), cur, r),
            spec_params().round_consts(Elem::modulus(), r % (NUM_ROUNDS as nat)),
            1,
        ) == zeros(STATE_WIDTH as nat),
        round_residuals(
            spec_params(),
            Elem::modulus(),
            zeros(STATE_WIDTH as nat),
            absorb_lanes_spec(Elem::modulus(), cur, chunk),
            round_spec(spec_params(), Elem::modulus(), absorb_lanes_spec(Elem::modulus(), cur, chunk), r),
            spec_params().round_consts(Elem::modulus(), r % (NUM_ROUNDS as nat)),
            1,
        ) == zeros(STATE_WIDTH as nat),
{
    lemma_matrices_invert();
    lemma_exponents_invert(Elem::modulus(), ALPHA as nat, INV_ALPHA as nat);
    lemma_round_constraints_vanish(spec_params(), Elem::modulus(), cur, r);
    lemma_first_round_constraints_vanish(spec_params(), Elem::modulus(), cur, chunk, r);
}

/// With flag one, the round constraints do not all vanish on a state of residues and any state
/// of residues other than the one that round `r` makes of it, wherever Fermat's little
/// theorem holds for the modulus.
pub proof fn lemma_wrong_next_detected(cur: Seq<int>, other: Seq<int>, r: nat)
    requires
        cur.len() == STATE_WIDTH,
        canonical_seq(cur, Elem::modulus()),
        other.len() == STATE_WIDTH,
        canonical_seq(other, Elem::modulus()),
        other != round_spec(spec_params(), Elem::modulus(), cur, r),
        fermat(Elem::modulus()),
    ensures
        round_residuals(
            spec_params(),
            Elem::modulus(),
            zeros(STATE_WIDTH as nat),
            cur,
            other,
            spec_params().round_consts(Elem::modulus(), r % (NUM_ROUNDS as nat)),
            1,
        ) != zeros(STATE_WIDTH as nat),
{
    lemma_matrices_invert();
    lemma_exponents_invert(Elem::modulus(), ALPHA as nat, INV_ALPHA as nat);
    crate::rescue::lemma_wrong_next_detected(spec_params(), Elem::modulus(), cur, other, r);
}

/// The mixing matrix and its inverse undo each other on every vector of residues.
pub proof fn lemma_matrices_invert()
    ensures
        undoes(Elem::modulus(), MDS@, INV_MDS@, STATE_WIDTH as nat),
        undoes(Elem::modulus(), INV_MDS@, MDS@, STATE_WIDTH as nat),
{
    lemma_product_forward();
    lemma_product_backward();
    lemma_product_identity_undoes(Elem::modulus(), MDS@, INV_MDS@, STATE_WIDTH as nat);
    lemma_product_identity_undoes(Elem::modulus(), INV_MDS@, MDS@, STATE_WIDTH as nat);
}

proof fn lemma_product_forward_row_0()
    ensures
        identity_row(Elem::modulus(), MDS@, INV_MDS@, 4, 0, 4),
{
    reveal_with_fuel(sum, 5);
    reveal_with_fuel(identity_row, 5);
    assert(product_entry(MDS@, INV_MDS@, 4, 0, 0) == (MDS@[0] as int) * (INV_MDS@[0] as int) + (MDS@[1] as int) * (INV_MDS@[4] as int) + (MDS@[2] as int) * (INV_MDS@[8] as int) + (MDS@[3] as int) * (INV_MDS@[12] as int));
    assert(((MDS@[0] as int) * (INV_MDS@[0] as int) + (MDS@[1] as int) * (INV_MDS@[4] as int) + (MDS@[2] as int) * (INV_MDS@[8] as int) + (MDS@[3] as int) * (INV_MDS@[12] as int)) % 340282366920938463463374557953744961537 == 1) by (nonlinear_arith)
        requires
            MDS@[0] == 340282366920938463463374557953744960808, MDS@[1] == 1080, MDS@[2] == 340282366920938463463374557953744961147, MDS@[3] == 40, INV_MDS@[0] == 18020639985667067681479625318803400939, INV_MDS@[4] == 245698978747161380010236204726851770228, INV_MDS@[8] == 42476948408512208745085164298752800413, INV_MDS@[12] == 12603050626701424572717576220509072651,
    ;
    assert(product_entry(MDS@, INV_MDS@, 4, 0, 1) == (MDS@[0] as int) * (INV_MDS@[1] as int) + (MDS@[1] as int) * (INV_MDS@[5] as int) + (MDS@[2] as int) * (INV_MDS@[9] as int) + (MDS@[3] as int) * (INV_MDS@[13] as int));
    assert(((MDS@[0] as int) * (INV_MDS@[1] as int) + (MDS@[1] as int) * (INV_MDS@[5] as int) + (MDS@[2] as int) * (INV_MDS@[9] as int) + (MDS@[3] as int) * (INV_MDS@[13] as int)) % 340282366920938463463374557953744961537 == 0) by (nonlinear_arith)
        requires
            MDS@[0] == 340282366920938463463374557953744960808, MDS@[1] == 1080, MDS@[2] == 340282366920938463463374557953744961147, MDS@[3] == 40, INV_MDS@[1] == 119196285838491236328880430704594968577, INV_MDS@[5] == 32113671753878130773768090116517402309, INV_MDS@[9] == 283594571303717652525183978492772054516, INV_MDS@[13] == 250660673575506110946271793719013778251,
    ;
    assert(product_entry(MDS@, INV_MDS@, 4, 0, 2) == (MDS@[0] as int) * (INV_MDS@[2] as int) + (MDS@[1] as int) * (INV_MDS@[6] as int) + (MDS@[2] as int) * (INV_MDS@[10] as int) + (MDS@[3] as int) * (INV_MDS@[14] as int));
    assert(((MDS@[0] as int) * (INV_MDS@[2] as int) + (MDS@[1] as int) * (INV_MDS@[6] as int) + (MDS@[2] as int) * (INV_MDS@[10] as int) + (MDS@[3] as int) * (INV_MDS@[14] as int)) % 340282366920938463463374557953744961537 == 0) by (nonlinear_arith)
        requires
            MDS@[0] == 340282366920938463463374557953744960808, MDS@[1] == 1080, MDS@[2] == 340282366920938463463374557953744961147, MDS@[3] == 40, INV_MDS@[2] == 231409255903369280423951003551679307334, INV_MDS@[6] == 284248318938217584166130208504515171073, INV_MDS@[10] == 94047455979774690913009073579656179991, INV_MDS@[14] == 113894235293153614657151429548304212092,
    ;
    assert(product_entry(MDS@, INV_MDS@, 4, 0, 3) == (MDS@[0] as int) * (INV_MDS@[3] as int) + (MDS@[1] as int) * (INV_MDS@[7] as int) + (MDS@[2] as int) * (INV_MDS@[11] as int) + (MDS@[3] as int) * (INV_MDS@[15] as int));
    assert(((MDS@[0] as int) * (INV_MDS@[3] as int) + (MDS@[1] as int) * (INV_MDS@[7] as int) + (MDS@[2] as int) * (INV_MDS@[11] as int) + (MDS@[3] as int) * (INV_MDS@[15] as int)) % 340282366920938463463374557953744961537 == 0) by (nonlinear_arith)
        requires
            MDS@[0] == 340282366920938463463374557953744960808, MDS@[1] == 1080, MDS@[2] == 340282366920938463463374557953744961147, MDS@[3] == 40, INV_MDS@[3] == 311938552114349342492438056332412246225, INV_MDS@[7] == 118503764402619831976614612559605579465, INV_MDS@[11] == 260445758149872374743470899536308888155, INV_MDS@[15] == 303406774346515776750608316419662860081,
    ;
}

proof fn lemma_product_forward_row_1()
    ensures
        identity_row(Elem::modulus(), MDS@, INV_MDS@, 4, 1, 4),
{
    reveal_with_fuel(sum, 5);
    reveal_with_fuel(identity_row, 5);
    assert(product_entry(MDS@, INV_MDS@, 4, 1, 0) == (MDS@[4] as int) * (INV_MDS@[0] as int) + (MDS@[5] as int) * (INV_MDS@[4] as int) + (MDS@[6] as int) * (INV_MDS@[8] as int) + (MDS@[7] as int) * (INV_MDS@[12] as int));
    assert(((MDS@[4] as int) * (INV_MDS@[0] as int) + (MDS@[5] as int) * (INV_MDS@[4] as int) + (MDS@[6] as int) * (INV_MDS@[8] as int) + (MDS@[7] as int) * (INV_MDS@[12] as int)) % 340282366920938463463374557953744961537 == 0) by (nonlinear_arith)
        requires
            MDS@[4] == 340282366920938463463374557953744932377, MDS@[5] == 42471, MDS@[6] == 340282366920938463463374557953744947017, MDS@[7] == 1210, INV_MDS@[0] == 18020639985667067681479625318803400939, INV_MDS@[4] == 245698978747161380010236204726851770228, INV_MDS@[8] == 42476948408512208745085164298752800413, INV_MDS@[12] == 12603050626701424572717576220509072651,
    ;
    assert(product_entry(MDS@, INV_MDS@, 4, 1, 1) == (MDS@[4] as int) * (INV_MDS@[1] as int) + (MDS@[5] as int) * (INV_MDS@[5] as int) + (MDS@[6] as int) * (INV_MDS@[9] as int) + (MDS@[7] as int) * (INV_MDS@[13] as int));
    assert(((MDS@[4] as int) * (INV_MDS@[1] as int) + (MDS@[5] as int) * (INV_MDS@[5] as int) + (MDS@[6] as int) * (INV_MDS@[9] as int) + (MDS@[7] as int) * (INV_MDS@[13] as int)) % 340282366920938463463374557953744961537 == 1) by (nonlinear_arith)
        requires
            MDS@[4] == 340282366920938463463374557953744932377, MDS@[5] == 42471, MDS@[6] == 340282366920938463463374557953744947017, MDS@[7] == 1210, INV_MDS@[1] == 119196285838491236328880430704594968577, INV_MDS@[5] == 32113671753878130773768090116517402309, INV_MDS@[9] == 283594571303717652525183978492772054516, INV_MDS@[13] == 250660673575506110946271793719013778251,
    ;
    assert(product_entry(MDS@, INV_MDS@, 4, 1, 2) == (MDS@[4] as int) * (INV_MDS@[2] as int) + (MDS@[5] as int) * (INV_MDS@[6] as int) + (MDS@[6] as int) * (INV_MDS@[10] as int) + (MDS@[7] as int) * (INV_MDS@[14] as int));
    assert(((MDS@[4] as int) * (INV_MDS@[2] as int) + (MDS@[5] as int) * (INV_MDS@[6] as int) + (MDS@[6] as int) * (INV_MDS@[10] as int) + (MDS@[7] as int) * (INV_MDS@[14] as int)) % 340282366920938463463374557953744961537 == 0) by (nonlinear_arith)
        requires
            MDS@[4] == 340282366920938463463374557953744932377, MDS@[5] == 42471, MDS@[6] == 340282366920938463463374557953744947017, MDS@[7] == 1210, INV_MDS@[2] == 231409255903369280423951003551679307334, INV_MDS@[6] == 284248318938217584166130208504515171073, INV_MDS@[10] == 94047455979774690913009073579656179991, INV_MDS@[14] == 113894235293153614657151429548304212092,
    ;
    assert(product_entry(MDS@, INV_MDS@, 4, 1, 3) == (MDS@[4] as int) * (INV_MDS@[3] as int) + (MDS@[5] as int) * (INV_MDS@[7] as int) + (MDS@[6] as int) * (INV_MDS@[11] as int) + (MDS@[7] as int) * (INV_MDS@[15] as int));
    assert(((MDS@[4] as int) * (INV_MDS@[3] as int) + (MDS@[5] as int) * (INV_MDS@[7] as int) + (MDS@[6] as int) * (INV_MDS@[11] as int) + (MDS@[7] as int) * (INV_MDS@[15] as int)) % 340282366920938463463374557953744961537 == 0) by (nonlinear_arith)
        requires
            MDS@[4] == 340282366920938463463374557953744932377, MDS@[5] == 42471, MDS@[6] == 340282366920938463463374557953744947017, MDS@[7] == 1210, INV_MDS@[3] == 311938552114349342492438056332412246225, INV_MDS@[7] == 118503764402619831976614612559605579465, INV_MDS@[11] == 260445758149872374743470899536308888155, INV_MDS@[15] == 303406774346515776750608316419662860081,
    ;
}

proof fn lemma_product_forward_row_2()
    ensures
        identity_row(Elem::modulus(), MDS@, INV_MDS@, 4, 2, 4),
{
    reveal_with_fuel(sum, 5);
    reveal_with_fuel(identity_row, 5);
    assert(product_entry(MDS@, INV_MDS@, 4, 2, 0) == (MDS@[8] as int) * (INV_MDS@[0] as int) + (MDS@[9] as int) * (INV_MDS@[4] as int) + (MDS@[10] as int) * (INV_MDS@[8] as int) + (MDS@[11] as int) * (INV_MDS@[12] as int));
    assert(((MDS@[8] as int) * (INV_MDS@[0] as int) + (MDS@[9] as int) * (INV_MDS@[4] as int) + (MDS@[10] as int) * (INV_MDS@[8] as int) + (MDS@[11] as int) * (INV_MDS@[12] as int)) % 340282366920938463463374557953744961537 == 0) by (nonlinear_arith)
        requires
            MDS@[8] == 340282366920938463463374557953744079447, MDS@[9] == 1277640, MDS@[10] == 340282366920938463463374557953744532108, MDS@[11] == 33880, INV_MDS@[0] == 18020639985667067681479625318803400939, INV_MDS@[4] == 245698978747161380010236204726851770228, INV_MDS@[8] == 42476948408512208745085164298752800413, INV_MDS@[12] == 12603050626701424572717576220509072651,
    ;
    assert(product_entry(MDS@, INV_MDS@, 4, 2, 1) == (MDS@[8] as int) * (INV_MDS@[1] as int) + (MDS@[9] as int) * (INV_MDS@[5] as int) + (MDS@[10] as int) * (INV_MDS@[9] as int) + (MDS@[11] as int) * (INV_MDS@[13] as int));
    assert(((MDS@[8] as int) * (INV_MDS@[1] as int) + (MDS@[9] as int) * (INV_MDS@[5] as int) + (MDS@[10] as int) * (INV_MDS@[9] as int) + (MDS@[11] as int) * (INV_MDS@[13] as int)) % 340282366920938463463374557953744961537 == 0) by (nonlinear_arith)
        requires
            MDS@[8] == 340282366920938463463374557953744079447, MDS@[9] == 1277640, MDS@[10] == 340282366920938463463374557953744532108, MDS@[11] == 33880, INV_MDS@[1] == 119196285838491236328880430704594968577, INV_MDS@[5] == 32113671753878130773768090116517402309, INV_MDS@[9] == 283594571303717652525183978492772054516, INV_MDS@[13] == 250660673575506110946271793719013778251,
    ;
    assert(product_entry(MDS@, INV_MDS@, 4, 2, 2) == (MDS@[8] as int) * (INV_MDS@[2] as int) + (MDS@[9] as int) * (INV_MDS@[6] as int) + (MDS@[10] as int) * (INV_MDS@[10] as int) + (MDS@[11] as int) * (INV_MDS@[14] as int));
    assert(((MDS@[8] as int) * (INV_MDS@[2] as int) + (MDS@[9] as int) * (INV_MDS@[6] as int) + (MDS@[10] as int) * (INV_MDS@[10] as int) + (MDS@[11] as int) * (INV_MDS@[14] as int)) % 340282366920938463463374557953744961537 == 1) by (nonlinear_arith)
        requires
            MDS@[8] == 340282366920938463463374557953744079447, MDS@[9] == 1277640, MDS@[10] == 340282366920938463463374557953744532108, MDS@[11] == 33880, INV_MDS@[2] == 231409255903369280423951003551679307334, INV_MDS@[6] == 284248318938217584166130208504515171073, INV_MDS@[10] == 94047455979774690913009073579656179991, INV_MDS@[14] == 113894235293153614657151429548304212092,
    ;
    assert(product_entry(MDS@, INV_MDS@, 4, 2, 3) == (MDS@[8] as int) * (INV_MDS@[3] as int) + (MDS@[9] as int) * (INV_MDS@[7] as int) + (MDS@[10] as int) * (INV_MDS@[11] as int) + (MDS@[11] as int) * (INV_MDS@[15] as int));
    assert(((MDS@[8] as int) * (INV_MDS@[3] as int) + (MDS@[9] as int) * (INV_MDS@[7] as int) + (MDS@[10] as int) * (INV_MDS@[11] as int) + (MDS@[11] as int) * (INV_MDS@[15] as int)) % 340282366920938463463374557953744961537 == 0) by (nonlinear_arith)
        requires
            MDS@[8] == 340282366920938463463374557953744079447, MDS@[9] == 1277640, MDS@[10] == 340282366920938463463374557953744532108, MDS@[11] == 33880, INV_MDS@[3] == 311938552114349342492438056332412246225, INV_MDS@[7] == 118503764402619831976614612559605579465, INV_MDS@[11] == 260445758149872374743470899536308888155, INV_MDS@[15] == 303406774346515776750608316419662860081,
    ;
}

proof fn lemma_product_forward_row_3()
    ensures
        identity_row(Elem::modulus(), MDS@, INV_MDS@, 4, 3, 4),
{
    reveal_with_fuel(sum, 5);
    reveal_with_fuel(identity_row, 5);
    assert(product_entry(MDS@, INV_MDS@, 4, 3, 0) == (MDS@[12] as int) * (INV_MDS@[0] as int) + (MDS@[13] as int) * (INV_MDS@[4] as int) + (MDS@[14] as int) * (INV_MDS@[8] as int) + (MDS@[15] as int) * (INV_MDS@[12] as int));
    assert(((MDS@[12] as int) * (INV_MDS@[0] as int) + (MDS@[13] as int) * (INV_MDS@[4] as int) + (MDS@[14] as int) * (INV_MDS@[8] as int) + (MDS@[15] as int) * (INV_MDS@[12] as int)) % 340282366920938463463374557953744961537 == 0) by (nonlinear_arith)
        requires
            MDS@[12] == 340282366920938463463374557953720263017, MDS@[13] == 35708310, MDS@[14] == 340282366920938463463374557953733025977, MDS@[15] == 925771, INV_MDS@[0] == 18020639985667067681479625318803400939, INV_MDS@[4] == 245698978747161380010236204726851770228, INV_MDS@[8] == 42476948408512208745085164298752800413, INV_MDS@[12] == 12603050626701424572717576220509072651,
    ;
    assert(product_entry(MDS@, INV_MDS@, 4, 3, 1) == (MDS@[12] as int) * (INV_MDS@[1] as int) + (MDS@[13] as int) * (INV_MDS@[5] as int) + (MDS@[14] as int) * (INV_MDS@[9] as int) + (MDS@[15] as int) * (INV_MDS@[13] as int));
    assert(((MDS@[12] as int) * (INV_MDS@[1] as int) + (MDS@[13] as int) * (INV_MDS@[5] as int) + (MDS@[14] as int) * (INV_MDS@[9] as int) + (MDS@[15] as int) * (INV_MDS@[13] as int)) % 340282366920938463463374557953744961537 == 0) by (nonlinear_arith)
        requires
            MDS@[12] == 340282366920938463463374557953720263017, MDS@[13] == 35708310, MDS@[14] == 340282366920938463463374557953733025977, MDS@[15] == 925771, INV_MDS@[1] == 119196285838491236328880430704594968577, INV_MDS@[5] == 32113671753878130773768090116517402309, INV_MDS@[9] == 283594571303717652525183978492772054516, INV_MDS@[13] == 250660673575506110946271793719013778251,
    ;
    assert(product_entry(MDS@, INV_MDS@, 4, 3, 2) == (MDS@[12] as int) * (INV_MDS@[2] as int) + (MDS@[13] as int) * (INV_MDS@[6] as int) + (MDS@[14] as int) * (INV_MDS@[10] as int) + (MDS@[15] as int) * (INV_MDS@[14] as int));
    assert(((MDS@[12] as int) * (INV_MDS@[2] as int) + (MDS@[13] as int) * (INV_MDS@[6] as int) + (MDS@[14] as int) * (INV_MDS@[10] as int) + (MDS@[15] as int) * (INV_MDS@[14] as int)) % 340282366920938463463374557953744961537 == 0) by (nonlinear_arith)
        requires
            MDS@[12] == 340282366920938463463374557953720263017, MDS@[13] == 35708310, MDS@[14] == 340282366920938463463374557953733025977, MDS@[15] == 925771, INV_MDS@[2] == 231409255903369280423951003551679307334, INV_MDS@[6] == 284248318938217584166130208504515171073, INV_MDS@[10] == 94047455979774690913009073579656179991, INV_MDS@[14] == 113894235293153614657151429548304212092,
    ;
    assert(product_entry(MDS@, INV_MDS@, 4, 3, 3) == (MDS@[12] as int) * (INV_MDS@[3] as int) + (MDS@[13] as int) * (INV_MDS@[7] as int) + (MDS@[14] as int) * (INV_MDS@[11] as int) + (MDS@[15] as int) * (INV_MDS@[15] as int));
    assert(((MDS@[12] as int) * (INV_MDS@[3] as int) + (MDS@[13] as int) * (INV_MDS@[7] as int) + (MDS@[14] as int) * (INV_MDS@[11] as int) + (MDS@[15] as int) * (INV_MDS@[15] as int)) % 340282366920938463463374557953744961537 == 1) by (nonlinear_arith)
        requires
            MDS@[12] == 340282366920938463463374557953720263017, MDS@[13] == 35708310, MDS@[14] == 340282366920938463463374557953733025977, MDS@[15] == 925771, INV_MDS@[3] == 311938552114349342492438056332412246225, INV_MDS@[7] == 118503764402619831976614612559605579465, INV_MDS@[11] == 260445758149872374743470899536308888155, INV_MDS@[15] == 303406774346515776750608316419662860081,
    ;
}

proof fn lemma_product_forward()
    ensures
        product_is_identity(Elem::modulus(), MDS@, INV_MDS@, 4),
{
    lemma_product_forward_row_0();
    lemma_product_forward_row_1();
    lemma_product_forward_row_2();
    lemma_product_forward_row_3();
    reveal_with_fuel(identity_rows, 5);
    assert(identity_rows(Elem::modulus(), MDS@, INV_MDS@, 4, 4));
    lemma_identity_rows(Elem::modulus(), MDS@, INV_MDS@, 4);
}

proof fn lemma_product_backward_row_0()
    ensures
        identity_row(Elem::modulus(), INV_MDS@, MDS@, 4, 0, 4),
{
    reveal_with_fuel(sum, 5);
    reveal_with_fuel(identity_row, 5);
    assert(product_entry(INV_MDS@, MDS@, 4, 0, 0) == (INV_MDS@[0] as int) * (MDS@[0] as int) + (INV_MDS@[1] as int) * (MDS@[4] as int) + (INV_MDS@[2] as int) * (MDS@[8] as int) + (INV_MDS@[3] as int) * (MDS@[12] as int));
    assert(((INV_MDS@[0] as int) * (MDS@[0] as int) + (INV_MDS@[1] as int) * (MDS@[4] as int) + (INV_MDS@[2] as int) * (MDS@[8] as int) + (INV_MDS@[3] as int) * (MDS@[12] as int)) % 340282366920938463463374557953744961537 == 1) by (nonlinear_arith)
        requires
            INV_MDS@[0] == 18020639985667067681479625318803400939, INV_MDS@[1] == 119196285838491236328880430704594968577, INV_MDS@[2] == 231409255903369280423951003551679307334, INV_MDS@[3] == 311938552114349342492438056332412246225, MDS@[0] == 340282366920938463463374557953744960808, MDS@[4] == 340282366920938463463374557953744932377, MDS@[8] == 340282366920938463463374557953744079447, MDS@[12] == 340282366920938463463374557953720263017,
    ;
    assert(product_entry(INV_MDS@, MDS@, 4, 0, 1) == (INV_MDS@[0] as int) * (MDS@[1] as int) + (INV_MDS@[1] as int) * (MDS@[5] as int) + (INV_MDS@[2] as int) * (MDS@[9] as int) + (INV_MDS@[3] as int) * (MDS@[13] as int));
    assert(((INV_MDS@[0] as int) * (MDS@[1] as int) + (INV_MDS@[1] as int) * (MDS@[5] as int) + (INV_MDS@[2] as int) * (MDS@[9] as int) + (INV_MDS@[3] as int) * (MDS@[13] as int)) % 340282366920938463463374557953744961537 == 0) by (nonlinear_arith)
        requires
            INV_MDS@[0] == 18020639985667067681479625318803400939, INV_MDS@[1] == 119196285838491236328880430704594968577, INV_MDS@[2] == 231409255903369280423951003551679307334, INV_MDS@[3] == 311938552114349342492438056332412246225, MDS@[1] == 1080, MDS@[5] == 42471, MDS@[9] == 1277640, MDS@[13] == 35708310,
    ;
    assert(product_entry(INV_MDS@, MDS@, 4, 0, 2) == (INV_MDS@[0] as int) * (MDS@[2] as int) + (INV_MDS@[1] as int) * (MDS@[6] as int) + (INV_MDS@[2] as int) * (MDS@[10] as int) + (INV_MDS@[3] as int) * (MDS@[14] as int));
    assert(((INV_MDS@[0] as int) * (MDS@[2] as int) + (INV_MDS@[1] as int) * (MDS@[6] as int) + (INV_MDS@[2] as int) * (MDS@[10] as int) + (INV_MDS@[3] as int) * (MDS@[14] as int)) % 340282366920938463463374557953744961537 == 0) by (nonlinear_arith)
        requires
            INV_MDS@[0] == 18020639985667067681479625318803400939, INV_MDS@[1] == 119196285838491236328880430704594968577, INV_MDS@[2] == 231409255903369280423951003551679307334, INV_MDS@[3] == 311938552114349342492438056332412246225, MDS@[2] == 340282366920938463463374557953744961147, MDS@[6] == 340282366920938463463374557953744947017, MDS@[10] == 340282366920938463463374557953744532108, MDS@[14] == 340282366920938463463374557953733025977,
    ;
    assert(product_entry(INV_MDS@, MDS@, 4, 0, 3) == (INV_MDS@[0] as int) * (MDS@[3] as int) + (INV_MDS@[1] as int) * (MDS@[7] as int) + (INV_MDS@[2] as int) * (MDS@[11] as int) + (INV_MDS@[3] as int) * (MDS@[15] as int));
    assert(((INV_MDS@[0] as int) * (MDS@[3] as int) + (INV_MDS@[1] as int) * (MDS@[7] as int) + (INV_MDS@[2] as int) * (MDS@[11] as int) + (INV_MDS@[3] as int) * (MDS@[15] as int)) % 340282366920938463463374557953744961537 == 0) by (nonlinear_arith)
        requires
            INV_MDS@[0] == 18020639985667067681479625318803400939, INV_MDS@[1] == 119196285838491236328880430704594968577, INV_MDS@[2] == 231409255903369280423951003551679307334, INV_MDS@[3] == 311938552114349342492438056332412246225, MDS@[3] == 40, MDS@[7] == 1210, MDS@[11] == 33880, MDS@[15] == 925771,
    ;
}

proof fn lemma_product_backward_row_1()
    ensures
        identity_row(Elem::modulus(), INV_MDS@, MDS@, 4, 1, 4),
{
    reveal_with_fuel(sum, 5);
    reveal_with_fuel(identity_row, 5);
    assert(product_entry(INV_MDS@, MDS@, 4, 1, 0) == (INV_MDS@[4] as int) * (MDS@[0] as int) + (INV_MDS@[5] as int) * (MDS@[4] as int) + (INV_MDS@[6] as int) * (MDS@[8] as int) + (INV_MDS@[7] as int) * (MDS@[12] as int));
    assert(((INV_MDS@[4] as int) * (MDS@[0] as int) + (INV_MDS@[5] as int) * (MDS@[4] as int) + (INV_MDS@[6] as int) * (MDS@[8] as int) + (INV_MDS@[7] as int) * (MDS@[12] as int)) % 340282366920938463463374557953744961537 == 0) by (nonlinear_arith)
        requires
            INV_MDS@[4] == 245698978747161380010236204726851770228, INV_MDS@[5] == 32113671753878130773768090116517402309, INV_MDS@[6] == 284248318938217584166130208504515171073, INV_MDS@[7] == 118503764402619831976614612559605579465, MDS@[0] == 340282366920938463463374557953744960808, MDS@[4] == 340282366920938463463374557953744932377, MDS@[8] == 340282366920938463463374557953744079447, MDS@[12] == 340282366920938463463374557953720263017,
    ;
    assert(product_entry(INV_MDS@, MDS@, 4, 1, 1) == (INV_MDS@[4] as int) * (MDS@[1] as int) + (INV_MDS@[5] as int) * (MDS@[5] as int) + (INV_MDS@[6] as int) * (MDS@[9] as int) + (INV_MDS@[7] as int) * (MDS@[13] as int));
    assert(((INV_MDS@[4] as int) * (MDS@[1] as int) + (INV_MDS@[5] as int) * (MDS@[5] as int) + (INV_MDS@[6] as int) * (MDS@[9] as int) + (INV_MDS@[7] as int) * (MDS@[13] as int)) % 340282366920938463463374557953744961537 == 1) by (nonlinear_arith)
        requires
            INV_MDS@[4] == 245698978747161380010236204726851770228, INV_MDS@[5] == 32113671753878130773768090116517402309, INV_MDS@[6] == 284248318938217584166130208504515171073, INV_MDS@[7] == 118503764402619831976614612559605579465, MDS@[1] == 1080, MDS@[5] == 42471, MDS@[9] == 1277640, MDS@[13] == 35708310,
    ;
    assert(product_entry(INV_MDS@, MDS@, 4, 1, 2) == (INV_MDS@[4] as int) * (MDS@[2] as int) + (INV_MDS@[5] as int) * (MDS@[6] as int) + (INV_MDS@[6] as int) * (MDS@[10] as int) + (INV_MDS@[7] as int) * (MDS@[14] as int));
    assert(((INV_MDS@[4] as int) * (MDS@[2] as int) + (INV_MDS@[5] as int) * (MDS@[6] as int) + (INV_MDS@[6] as int) * (MDS@[10] as int) + (INV_MDS@[7] as int) * (MDS@[14] as int)) % 340282366920938463463374557953744961537 == 0) by (nonlinear_arith)
        requires
            INV_MDS@[4] == 245698978747161380010236204726851770228, INV_MDS@[5] == 32113671753878130773768090116517402309, INV_MDS@[6] == 284248318938217584166130208504515171073, INV_MDS@[7] == 118503764402619831976614612559605579465, MDS@[2] == 340282366920938463463374557953744961147, MDS@[6] == 340282366920938463463374557953744947017, MDS@[10] == 340282366920938463463374557953744532108, MDS@[14] == 340282366920938463463374557953733025977,
    ;
    assert(product_entry(INV_MDS@, MDS@, 4, 1, 3) == (INV_MDS@[4] as int) * (MDS@[3] as int) + (INV_MDS@[5] as int) * (MDS@[7] as int) + (INV_MDS@[6] as int) * (MDS@[11] as int) + (INV_MDS@[7] as int) * (MDS@[15] as int));
    assert(((INV_MDS@[4] as int) * (MDS@[3] as int) + (INV_MDS@[5] as int) * (MDS@[7] as int) + (INV_MDS@[6] as int) * (MDS@[11] as int) + (INV_MDS@[7] as int) * (MDS@[15] as int)) % 340282366920938463463374557953744961537 == 0) by (nonlinear_arith)
        requires
            INV_MDS@[4] == 245698978747161380010236204726851770228, INV_MDS@[5] == 32113671753878130773768090116517402309, INV_MDS@[6] == 284248318938217584166130208504515171073, INV_MDS@[7] == 118503764402619831976614612559605579465, MDS@[3] == 40, MDS@[7] == 1210, MDS@[11] == 33880, MDS@[15] == 925771,
    ;
}

proof fn lemma_product_backward_row_2()
    ensures
        identity_row(Elem::modulus(), INV_MDS@, MDS@, 4, 2, 4),
{
    reveal_with_fuel(sum, 5);
    reveal_with_fuel(identity_row, 5);
    assert(product_entry(INV_MDS@, MDS@, 4, 2, 0) == (INV_MDS@[8] as int) * (MDS@[0] as int) + (INV_MDS@[9] as int) * (MDS@[4] as int) + (INV_MDS@[10] as int) * (MDS@[8] as int) + (INV_MDS@[11] as int) * (MDS@[12] as int));
    assert(((INV_MDS@[8] as int) * (MDS@[0] as int) + (INV_MDS@[9] as int) * (MDS@[4] as int) + (INV_MDS@[10] as int) * (MDS@[8] as int) + (INV_MDS@[11] as int) * (MDS@[12] as int)) % 340282366920938463463374557953744961537 == 0) by (nonlinear_arith)
        requires
            INV_MDS@[8] == 42476948408512208745085164298752800413, INV_MDS@[9] == 283594571303717652525183978492772054516, INV_MDS@[10] == 94047455979774690913009073579656179991, INV_MDS@[11] == 260445758149872374743470899536308888155, MDS@[0] == 340282366920938463463374557953744960808, MDS@[4] == 340282366920938463463374557953744932377, MDS@[8] == 340282366920938463463374557953744079447, MDS@[12] == 340282366920938463463374557953720263017,
    ;
    assert(product_entry(INV_MDS@, MDS@, 4, 2, 1) == (INV_MDS@[8] as int) * (MDS@[1] as int) + (INV_MDS@[9] as int) * (MDS@[5] as int) + (INV_MDS@[10] as int) * (MDS@[9] as int) + (INV_MDS@[11] as int) * (MDS@[13] as int));
    assert(((INV_MDS@[8] as int) * (MDS@[1] as int) + (INV_MDS@[9] as int) * (MDS@[5] as int) + (INV_MDS@[10] as int) * (MDS@[9] as int) + (INV_MDS@[11] as int) * (MDS@[13] as int)) % 340282366920938463463374557953744961537 == 0) by (nonlinear_arith)
        requires
            INV_MDS@[8] == 42476948408512208745085164298752800413, INV_MDS@[9] == 283594571303717652525183978492772054516, INV_MDS@[10] == 94047455979774690913009073579656179991, INV_MDS@[11] == 260445758149872374743470899536308888155, MDS@[1] == 1080, MDS@[5] == 42471, MDS@[9] == 1277640, MDS@[13] == 35708310,
    ;
    assert(product_entry(INV_MDS@, MDS@, 4, 2, 2) == (INV_MDS@[8] as int) * (MDS@[2] as int) + (INV_MDS@[9] as int) * (MDS@[6] as int) + (INV_MDS@[10] as int) * (MDS@[10] as int) + (INV_MDS@[11] as int) * (MDS@[14] as int));
    assert(((INV_MDS@[8] as int) * (MDS@[2] as int) + (INV_MDS@[9] as int) * (MDS@[6] as int) + (INV_MDS@[10] as int) * (MDS@[10] as int) + (INV_MDS@[11] as int) * (MDS@[14] as int)) % 340282366920938463463374557953744961537 == 1) by (nonlinear_arith)
        requires
            INV_MDS@[8] == 42476948408512208745085164298752800413, INV_MDS@[9] == 283594571303717652525183978492772054516, INV_MDS@[10] == 94047455979774690913009073579656179991, INV_MDS@[11] == 260445758149872374743470899536308888155, MDS@[2] == 340282366920938463463374557953744961147, MDS@[6] == 340282366920938463463374557953744947017, MDS@[10] == 340282366920938463463374557953744532108, MDS@[14] == 340282366920938463463374557953733025977,
    ;
    assert(product_entry(INV_MDS@, MDS@, 4, 2, 3) == (INV_MDS@[8] as int) * (MDS@[3] as int) + (INV_MDS@[9] as int) * (MDS@[7] as int) + (INV_MDS@[10] as int) * (MDS@[11] as int) + (INV_MDS@[11] as int) * (MDS@[15] as int));
    assert(((INV_MDS@[8] as int) * (MDS@[3] as int) + (INV_MDS@[9] as int) * (MDS@[7] as int) + (INV_MDS@[10] as int) * (MDS@[11] as int) + (INV_MDS@[11] as int) * (MDS@[15] as int)) % 340282366920938463463374557953744961537 == 0) by (nonlinear_arith)
        requires
            INV_MDS@[8] == 42476948408512208745085164298752800413, INV_MDS@[9] == 283594571303717652525183978492772054516, INV_MDS@[10] == 94047455979774690913009073579656179991, INV_MDS@[11] == 260445758149872374743470899536308888155, MDS@[3] == 40, MDS@[7] == 1210, MDS@[11] == 33880, MDS@[15] == 925771,
    ;
}

proof fn lemma_product_backward_row_3()
    ensures
        identity_row(Elem::modulus(), INV_MDS@, MDS@, 4, 3, 4),
{
    reveal_with_fuel(sum, 5);
    reveal_with_fuel(identity_row, 5);
    assert(product_entry(INV_MDS@, MDS@, 4, 3, 0) == (INV_MDS@[12] as int) * (MDS@[0] as int) + (INV_MDS@[13] as int) * (MDS@[4] as int) + (INV_MDS@[14] as int) * (MDS@[8] as int) + (INV_MDS@[15] as int) * (MDS@[12] as int));
    assert(((INV_MDS@[12] as int) * (MDS@[0] as int) + (INV_MDS@[13] as int) * (MDS@[4] as int) + (INV_MDS@[14] as int) * (MDS@[8] as int) + (INV_MDS@[15] as int) * (MDS@[12] as int)) % 340282366920938463463374557953744961537 == 0) by (nonlinear_arith)
        requires
            INV_MDS@[12] == 12603050626701424572717576220509072651, INV_MDS@[13] == 250660673575506110946271793719013778251, INV_MDS@[14] == 113894235293153614657151429548304212092, INV_MDS@[15] == 303406774346515776750608316419662860081, MDS@[0] == 340282366920938463463374557953744960808, MDS@[4] == 340282366920938463463374557953744932377, MDS@[8] == 340282366920938463463374557953744079447, MDS@[12] == 340282366920938463463374557953720263017,
    ;
    assert(product_entry(INV_MDS@, MDS@, 4, 3, 1) == (INV_MDS@[12] as int) * (MDS@[1] as int) + (INV_MDS@[13] as int) * (MDS@[5] as int) + (INV_MDS@[14] as int) * (MDS@[9] as int) + (INV_MDS@[15] as int) * (MDS@[13] as int));
    assert(((INV_MDS@[12] as int) * (MDS@[1] as int) + (INV_MDS@[13] as int) * (MDS@[5] as int) + (INV_MDS@[14] as int) * (MDS@[9] as int) + (INV_MDS@[15] as int) * (MDS@[13] as int)) % 340282366920938463463374557953744961537 == 0) by (nonlinear_arith)
        requires
            INV_MDS@[12] == 12603050626701424572717576220509072651, INV_MDS@[13] == 250660673575506110946271793719013778251, INV_MDS@[14] == 113894235293153614657151429548304212092, INV_MDS@[15] == 303406774346515776750608316419662860081, MDS@[1] == 1080, MDS@[5] == 42471, MDS@[9] == 1277640, MDS@[13] == 35708310,
    ;
    assert(product_entry(INV_MDS@, MDS@, 4, 3, 2) == (INV_MDS@[12] as int) * (MDS@[2] as int) + (INV_MDS@[13] as int) * (MDS@[6] as int) + (INV_MDS@[14] as int) * (MDS@[10] as int) + (INV_MDS@[15] as int) * (MDS@[14] as int));
    assert(((INV_MDS@[12] as int) * (MDS@[2] as int) + (INV_MDS@[13] as int) * (MDS@[6] as int) + (INV_MDS@[14] as int) * (MDS@[10] as int) + (INV_MDS@[15] as int) * (MDS@[14] as int)) % 340282366920938463463374557953744961537 == 0) by (nonlinear_arith)
        requires
            INV_MDS@[12] == 12603050626701424572717576220509072651, INV_MDS@[13] == 250660673575506110946271793719013778251, INV_MDS@[14] == 113894235293153614657151429548304212092, INV_MDS@[15] == 303406774346515776750608316419662860081, MDS@[2] == 340282366920938463463374557953744961147, MDS@[6] == 340282366920938463463374557953744947017, MDS@[10] == 340282366920938463463374557953744532108, MDS@[14] == 340282366920938463463374557953733025977,
    ;
    assert(product_entry(INV_MDS@, MDS@, 4, 3, 3) == (INV_MDS@[12] as int) * (MDS@[3] as int) + (INV_MDS@[13] as int) * (MDS@[7] as int) + (INV_MDS@[14] as int) * (MDS@[11] as int) + (INV_MDS@[15] as int) * (MDS@[15] as int));
    assert(((INV_MDS@[12] as int) * (MDS@[3] as int) + (INV_MDS@[13] as int) * (MDS@[7] as int) + (INV_MDS@[14] as int) * (MDS@[11] as int) + (INV_MDS@[15] as int) * (MDS@[15] as int)) % 340282366920938463463374557953744961537 == 1) by (nonlinear_arith)
        requires
            INV_MDS@[12] == 12603050626701424572717576220509072651, INV_MDS@[13] == 250660673575506110946271793719013778251, INV_MDS@[14] == 113894235293153614657151429548304212092, INV_MDS@[15] == 303406774346515776750608316419662860081, MDS@[3] == 40, MDS@[7] == 1210, MDS@[11] == 33880, MDS@[15] == 925771,
    ;
}

proof fn lemma_product_backward()
    ensures
        product_is_identity(Elem::modulus(), INV_MDS@, MDS@, 4),
{
    lemma_product_backward_row_0();
    lemma_product_backward_row_1();
    lemma_product_backward_row_2();
    lemma_product_backward_row_3();
    reveal_with_fuel(identity_rows, 5);
    assert(identity_rows(Elem::modulus(), INV_MDS@, MDS@, 4, 4));
    lemma_identity_rows(Elem::modulus(), INV_MDS@, MDS@, 4);
}

/// The digest of `input_sequence`, whose length must be a multiple of `RATE`.
pub fn hash(input_sequence: &Vec<Elem>) -> (r: [Elem; RATE])
    requires
        input_sequence@.len() % (RATE as nat) == 0,
    ensures
        vals(r@) == hash_spec(spec_params(), Elem::modulus(), vals(input_sequence@)),
{
    rescue_prime_hash(input_sequence)
}

/// The sponge: starting from the zero state, each chunk of `RATE` elements is added onto the
/// first lanes and the state permuted; the digest is the first `RATE` lanes.
pub fn rescue_prime_hash(input_sequence: &Vec<Elem>) -> (r: [Elem; RATE])
    requires
        input_sequence@.len() % (RATE as nat) == 0,
    ensures
        vals(r@) == hash_spec(spec_params(), Elem::modulus(), vals(input_sequence@)),
{
    let digest = params().hash(input_sequence);
    to_array(&digest)
}

/// The digest of `input_sequence` followed by a one and the fewest zeros that reach a
/// multiple of `RATE`.
pub fn rescue_prime_wrapper(input_sequence: &Vec<Elem>) -> (r: [Elem; RATE])
    requires
        input_sequence@.len() + STATE_WIDTH <= usize::MAX,
    ensures
        vals(r@) == hash_spec(
            spec_params(),
            Elem::modulus(),
            pad_spec(vals(input_sequence@), RATE as nat),
        ),
{
    let digest = params().hash_padded(input_sequence);
    to_array(&digest)
}

/// Applies the `NUM_ROUNDS` rounds to `state`.
pub fn rescue_xlix_permutation(state: &mut [Elem; STATE_WIDTH])
    ensures
        vals(final(state)@) == permutation_spec(spec_params(), Elem::modulus(), vals(old(state)@)),
{
    params().permutation(state);
}

/// Applies round `round % NUM_ROUNDS` to `state`.
pub fn apply_round(state: &mut [Elem], round: usize)
    requires
        old(state)@.len() == STATE_WIDTH,
    ensures
        final(state)@.len() == STATE_WIDTH,
        vals(final(state)@) == round_spec(
            spec_params(),
            Elem::modulus(),
            vals(old(state)@),
            round as nat,
        ),
{
    params().apply_round(state, round);
}

/// Adds to `result_slice` the residuals of one round between `current_slice` and
/// `next_slice`, scaled by `flag`; with `flag` one they all vanish exactly when the two
/// halves of the round agree.
pub fn enforce_round<E: PrimeField>(
    result_slice: &mut [E],
    current_slice: &[E],
    next_slice: &[E],
    round_constants: &[E],
    flag: E,
)
    requires
        current_slice@.len() == STATE_WIDTH,
        next_slice@.len() == STATE_WIDTH,
        round_constants@.len() >= 2 * STATE_WIDTH,
        old(result_slice)@.len() >= STATE_WIDTH,
    ensures
        final(result_slice)@.len() == old(result_slice)@.len(),
        vals(final(result_slice)@) == round_residuals(
            spec_params(),
            E::modulus(),
            vals(old(result_slice)@),
            vals(current_slice@),
            vals(next_slice@),
            vals(round_constants@),
            flag.val(),
        ),
{
    params().enforce_round(result_slice, current_slice, next_slice, round_constants, flag);
}

/// `enforce_round` with `pixels` first added onto the first `RATE` lanes of `current_slice`.
pub fn enforce_first_round<E: PrimeField>(
    result_slice: &mut [E],
    pixels: &[E],
    current_slice: &[E],
    next_slice: &[E],
    round_constants: &[E],
    flag: E,
)
    requires
        pixels@.len() >= RATE,
        current_slice@.len() == STATE_WIDTH,
        next_slice@.len() == STATE_WIDTH,
        round_constants@.len() >= 2 * STATE_WIDTH,
        old(result_slice)@.len() >= STATE_WIDTH,
    ensures
        final(result_slice)@.len() == old(result_slice)@.len(),
        vals(final(result_slice)@) == round_residuals(
            spec_params(),
            E::modulus(),
            vals(old(result_slice)@),
            absorb_lanes_spec(E::modulus(), vals(current_slice@), vals(pixels@).take(RATE as int)),
            vals(next_slice@),
            vals(round_constants@),
            flag.val(),
        ),
{
    params().enforce_first_round(result_slice, pixels, current_slice, next_slice, round_constants, flag);
}

/// The round constants in `2 × STATE_WIDTH` columns of length `cycle_length`, the constants of
/// round `i` at position `(i + shift) % cycle_length` and zeros elsewhere.
pub fn get_round_constants_periodic(cycle_length: usize, shift: usize) -> (r: Vec<Vec<Elem>>)
    requires
        cycle_length > 0,
        shift + NUM_ROUNDS <= usize::MAX,
    ensures
        r@.len() == 2 * STATE_WIDTH,
        forall|j: int|
            0 <= j < 2 * STATE_WIDTH ==> vals(#[trigger] r@[j]@) == periodic_column(
                Elem::modulus(),
                ROUND_CONSTANTS@,
                (2 * STATE_WIDTH) as nat,
                j as nat,
                cycle_length as nat,
                shift as nat,
                NUM_ROUNDS as nat,
            ),
{
    params().round_constants_periodic(cycle_length, shift)
}

} // verus!

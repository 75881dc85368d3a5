//! Rescue-Prime over the 128-bit prime field (modulus `MODULUS_128`): width 4, capacity 3, 15 rounds, S-box
//! exponent 3, security of at least 128 bits.

use vstd::prelude::*;
use crate::field::{Felt128, PrimeField, canonical_seq, vals};
use crate::layers::{
    absorb_lanes_spec, exp_undoes, fermat, lemma_exponents_invert, periodic_column, to_array,
    zeros, undoes,
};
use crate::matrix::{
    identity_row, identity_rows, lemma_identity_rows, lemma_product_identity_undoes, product_entry,
    product_is_identity, sum,
};
use crate::rescue::{
    RescueParams, hash_spec, lemma_first_round_constraints_vanish, lemma_round_constraints_vanish,
    pad_spec, permutation_spec, round_residuals, round_spec,
};

verus! {

pub type Elem = Felt128;

pub const NUM_ROUNDS: usize = 15;
pub const STATE_WIDTH: usize = 4;
pub const CAPACITY: usize = 3;
pub const RATE: usize = STATE_WIDTH - CAPACITY;

/// The exponent of the forward S-box.
pub const ALPHA: u128 = 3;

/// The exponent of the inverse S-box: the inverse of `ALPHA` modulo the prime minus one.
pub const INV_ALPHA: u128 = 226854911280625642308916371969163307691;

/// The mixing matrix, row-major.
pub const MDS: [u128; 16] = [
    340282366920938463463374557953744960808, 1080, 340282366920938463463374557953744961147,
    40, 340282366920938463463374557953744932377, 42471,
    340282366920938463463374557953744947017, 1210, 340282366920938463463374557953744079447,
    1277640, 340282366920938463463374557953744532108, 33880,
    340282366920938463463374557953720263017, 35708310, 340282366920938463463374557953733025977,
    925771,
];

/// The inverse of `MDS`, row-major.
pub const INV_MDS: [u128; 16] = [
    18020639985667067681479625318803400939, 119196285838491236328880430704594968577, 231409255903369280423951003551679307334,
    311938552114349342492438056332412246225, 245698978747161380010236204726851770228, 32113671753878130773768090116517402309,
    284248318938217584166130208504515171073, 118503764402619831976614612559605579465, 42476948408512208745085164298752800413,
    283594571303717652525183978492772054516, 94047455979774690913009073579656179991, 260445758149872374743470899536308888155,
    12603050626701424572717576220509072651, 250660673575506110946271793719013778251, 113894235293153614657151429548304212092,
    303406774346515776750608316419662860081,
];

/// `2 × STATE_WIDTH` constants per round.
pub const ROUND_CONSTANTS: [u128; 120] = [
    304951987256627212945226722807003071239, 84911614596503551494291714127141828970, 11561348560794067007719869811382615669,
    65919352163409885087785995489812321454, 32660298840119058254262587324518399221, 237711376965396221552693414809189728601,
    72778421407291181665038091501953341727, 248309033140501538884584081724858513657, 223846896486161413801104013569055640867,
    308040861752156729284022588712000739649, 314463876347231824998581295575506520218, 221538389327339527032813766516758441868,
    70182308720548255768662095322618106918, 102335399546756935818752090635377713525, 292718382975171368356856825473002978403,
    318101491130971117519077339651209044302, 218206413975961082221958532776019274625, 11585332615296475936609054499458186339,
    239395796458790481892003321790309067124, 299903708294933413028887537132545991509, 246506347505328559463215818456241282725,
    235431562085806566110278801185614767175, 233205602081227265454555636727449703555, 211809254020284552105438082247253376665,
    264287843380834921106081385446141257552, 33083178659224623579681702087023189949, 93769638098124504386885411203296620725,
    10102248436484647111892346234540618333, 108750227988946912093181951665845726595, 113425463334799679360369538882421190008,
    282993639445851589314479321747725451698, 106540587996860496220786790708387221939, 280494931135093623457664706203854877668,
    220469971472938830446512736414483571558, 29008815697004726304338365147952346441, 146146686227806472697734430080270200754,
    136533279466359980855667487305236555941, 43445533626804694034591627695425495140, 21777595346275634699513140328366187209,
    149243077154527223082961226209030646045, 40115084110863292885435542445301497191, 25327249030127169289715198073885677810,
    183877208946997729685289397222890711148, 307277958655402823001670211783172877188, 259922040525193377321830065568912050136,
    229856174561892012502785270556019066792, 193254457239599541372318673923811481361, 135344074663049243279458096450496994091,
    28945209381724471491792174215709638277, 325185139312249201718352642288523535328, 259793749627395919119875415344098664561,
    320081200062023237218336188414238655207, 6817322811354073268882142986619627668, 52634094269354318760073507731583596831,
    303809314622484064544060067702091594925, 160761631975164562269735843400590445667, 1268954196847509381909398834855944380,
    278657487617164477839246121514101566311, 304856618624174984580190722145299692197, 34777907247995431108046617780813012161,
    142590557303334219473970614722763359994, 39322463746626042912808822085519458295, 217380525917361619308202117393161661104,
    49511932371883905572032490975677308612, 42043556749112331268112039619577931511, 116525055142101732952762331675616279079,
    63271291675690282979424192628843499877, 56527918472106331710531435416737959661, 170876974620942906772990523152399798432,
    159818662552768960442647437917141511859, 108367623603656523127942547640625422790, 51954897262069550333953652742010354927,
    289924163746592231680265871272860731632, 67754380420996190527112111175964520353, 334637205826370282357006076432326648060,
    238864540742801072403246665338017925137, 209398403794237752215147496778770145338, 280900959687155406242251592928187699962,
    170284624253991044795714062882973451180, 263643851508952009054777223910562391993, 309363000330034365304110227758551597194,
    214260365868735247436030332393098538583, 207091926594245032333676990450767146919, 154435902261971118778071443673366228467,
    58109843336629176358589072565913101133, 67764592864961438741631571309959071145, 8975940334910366895987394162210444861,
    156237146375548191937443163157930222515, 6411239282569124219015898048575274644, 303328848175807617187203799857566039631,
    156609342102480383298518213031752215526, 267989182688715697291427602055008615181, 175434644975868287006026496950302014301,
    171072594275000554314901349912337057985, 208003398619889496473712859905048752985, 300529686518807160276844237893693659938,
    105888310676981525813420106755522757410, 58236010421601669421523505733485142793, 283672243278015269390712567024291611053,
    182122577399963064468849486081725847520, 16848357750869920478570088122575084710, 201076298158746622838531461731629928347,
    49126909857788840900094259944655468350, 197333202057684732428377225420324177582, 290584072783120203004886943513748916397,
    91336726835559582860290097256942507305, 293540413610524854173346181930946267973, 229108314490361528464866780861589436793,
    122899203467161829433613746558034317239, 323451165908731978217674238506630389913, 189126458935624262496071313307212119843,
    243066713300100395681479008306088032768, 165321805201577550151889507524905117783, 259943289065294679240426317610232394495,
    212944382979854236076911427647438013584, 208068613587060033613366562961602860986, 236161452711595455046215999026446547850,
    221635179983576774019304182090066971283, 161438027834981232604795121322109025031, 309394962702090072893203216019145110838,
];

/// This instance's constants.
pub open spec fn spec_params() -> RescueParams {
    RescueParams {
        width: STATE_WIDTH,
        capacity: CAPACITY,
        rounds: NUM_ROUNDS,
        alpha: ALPHA,
        inv_alpha: INV_ALPHA,
        mds: &MDS,
        inv_mds: &INV_MDS,
        round_constants: &ROUND_CONSTANTS,
    }
}

/// This instance's constants.
pub fn params() -> (r: RescueParams)
    ensures
        r == spec_params(),
        r.wf(),
{
    RescueParams {
        width: STATE_WIDTH,
        capacity: CAPACITY,
        rounds: NUM_ROUNDS,
        alpha: ALPHA,
        inv_alpha: INV_ALPHA,
        mds: &MDS,
        inv_mds: &INV_MDS,
        round_constants: &ROUND_CONSTANTS,
    }
}

/// The two S-box exponents undo each other, both ways, on every residue, wherever Fermat's
/// little theorem holds for the modulus.
pub proof fn lemma_sbox_exponents_invert()
    requires
        fermat(Elem::modulus()),
    ensures
        exp_undoes(Elem::modulus(), ALPHA as nat, INV_ALPHA as nat),
        exp_undoes(Elem::modulus(), INV_ALPHA as nat, ALPHA as nat),
{
    lemma_exponents_invert(Elem::modulus(), ALPHA as nat, INV_ALPHA as nat);
}

/// With flag one, the round constraints vanish on every state of residues and the state that
/// round `r` makes of it, and on the same with a chunk of input absorbed first, wherever
/// Fermat's little theorem holds for the modulus (it does, the modulus being prime).
pub proof fn lemma_constraints_vanish(cur: Seq<int>, chunk: Seq<int>, r: nat)
    requires
        cur.len() == STATE_WIDTH,
        chunk.len() == RATE,
        canonical_seq(cur, Elem::modulus()),
        fermat(Elem::modulus()),
    ensures
        round_residuals(
            spec_params(),
            Elem::modulus(),
            zeros(STATE_WIDTH as nat),
            cur,
            round_spec(spec_params(), Elem::modulus(), cur, r),
            spec_params().round_consts(Elem::modulus(), r % (NUM_ROUNDS as nat)),
            1,
        ) == zeros(STATE_WIDTH as nat),
        round_residuals(
            spec_params(),
            Elem::modulus(),
            zeros(STATE_WIDTH as nat),
            absorb_lanes_spec(Elem::modulus(), cur, chunk),
            round_spec(spec_params(), Elem::modulus(), absorb_lanes_spec(Elem::modulus(), cur, chunk), r),
            spec_params().round_consts(Elem::modulus(), r % (NUM_ROUNDS as nat)),
            1,
        ) == zeros(STATE_WIDTH as nat),
{
    lemma_matrices_invert();
    lemma_exponents_invert(Elem::modulus(), ALPHA as nat, INV_ALPHA as nat);
    lemma_round_constraints_vanish(spec_params(), Elem::modulus(), cur, r);
    lemma_first_round_constraints_vanish(spec_params(), Elem::modulus(), cur, chunk, r);
}

/// With flag one, the round constraints do not all vanish on a state of residues and any state
/// of residues other than the one that round `r` makes of it, wherever Fermat's little
/// theorem holds for the modulus.
pub proof fn lemma_wrong_next_detected(cur: Seq<int>, other: Seq<int>, r: nat)
    requires
        cur.len() == STATE_WIDTH,
        canonical_seq(cur, Elem::modulus()),
        other.len() == STATE_WIDTH,
        canonical_seq(other, Elem::modulus()),
        other != round_spec(spec_params(), Elem::modulus(), cur, r),
        fermat(Elem::modulus()),
    ensures
        round_residuals(
            spec_params(),
            Elem::modulus(),
            zeros(STATE_WIDTH as nat),
            cur,
            other,
            spec_params().round_consts(Elem::modulus(), r % (NUM_ROUNDS as nat)),
            1,
        ) != zeros(STATE_WIDTH as nat),
{
    lemma_matrices_invert();
    lemma_exponents_invert(Elem::modulus(), ALPHA as nat, INV_ALPHA as nat);
    crate::rescue::lemma_wrong_next_detected(spec_params(), Elem::modulus(), cur, other, r);
}

/// The mixing matrix and its inverse undo each other on every vector of residues.
pub proof fn lemma_matrices_invert()
    ensures
        undoes(Elem::modulus(), MDS@, INV_MDS@, STATE_WIDTH as nat),
        undoes(Elem::modulus(), INV_MDS@, MDS@, STATE_WIDTH as nat),
{
    lemma_product_forward();
    lemma_product_backward();
    lemma_product_identity_undoes(Elem::modulus(), MDS@, INV_MDS@, STATE_WIDTH as nat);
    lemma_product_identity_undoes(Elem::modulus(), INV_MDS@, MDS@, STATE_WIDTH as nat);
}

proof fn lemma_product_forward_row_0()
    ensures
        identity_row(Elem::modulus(), MDS@, INV_MDS@, 4, 0, 4),
{
    reveal_with_fuel(sum, 5);
    reveal_with_fuel(identity_row, 5);
    assert(product_entry(MDS@, INV_MDS@, 4, 0, 0) == (MDS@[0] as int) * (INV_MDS@[0] as int) + (MDS@[1] as int) * (INV_MDS@[4] as int) + (MDS@[2] as int) * (INV_MDS@[8] as int) + (MDS@[3] as int) * (INV_MDS@[12] as int));
    assert(((MDS@[0] as int) * (INV_MDS@[0] as int) + (MDS@[1] as int) * (INV_MDS@[4] as int) + (MDS@[2] as int) * (INV_MDS@[8] as int) + (MDS@[3] as int) * (INV_MDS@[12] as int)) % 340282366920938463463374557953744961537 == 1) by (nonlinear_arith)
        requires
            MDS@[0] == 340282366920938463463374557953744960808, MDS@[1] == 1080, MDS@[2] == 340282366920938463463374557953744961147, MDS@[3] == 40, INV_MDS@[0] == 18020639985667067681479625318803400939, INV_MDS@[4] == 245698978747161380010236204726851770228, INV_MDS@[8] == 42476948408512208745085164298752800413, INV_MDS@[12] == 12603050626701424572717576220509072651,
    ;
    assert(product_entry(MDS@, INV_MDS@, 4, 0, 1) == (MDS@[0] as int) * (INV_MDS@[1] as int) + (MDS@[1] as int) * (INV_MDS@[5] as int) + (MDS@[2] as int) * (INV_MDS@[9] as int) + (MDS@[3] as int) * (INV_MDS@[13] as int));
    assert(((MDS@[0] as int) * (INV_MDS@[1] as int) + (MDS@[1] as int) * (INV_MDS@[5] as int) + (MDS@[2] as int) * (INV_MDS@[9] as int) + (MDS@[3] as int) * (INV_MDS@[13] as int)) % 340282366920938463463374557953744961537 == 0) by (nonlinear_arith)
        requires
            MDS@[0] == 340282366920938463463374557953744960808, MDS@[1] == 1080, MDS@[2] == 340282366920938463463374557953744961147, MDS@[3] == 40, INV_MDS@[1] == 119196285838491236328880430704594968577, INV_MDS@[5] == 32113671753878130773768090116517402309, INV_MDS@[9] == 283594571303717652525183978492772054516, INV_MDS@[13] == 250660673575506110946271793719013778251,
    ;
    assert(product_entry(MDS@, INV_MDS@, 4, 0, 2) == (MDS@[0] as int) * (INV_MDS@[2] as int) + (MDS@[1] as int) * (INV_MDS@[6] as int) + (MDS@[2] as int) * (INV_MDS@[10] as int) + (MDS@[3] as int) * (INV_MDS@[14] as int));
    assert(((MDS@[0] as int) * (INV_MDS@[2] as int) + (MDS@[1] as int) * (INV_MDS@[6] as int) + (MDS@[2] as int) * (INV_MDS@[10] as int) + (MDS@[3] as int) * (INV_MDS@[14] as int)) % 340282366920938463463374557953744961537 == 0) by (nonlinear_arith)
        requires
            MDS@[0] == 340282366920938463463374557953744960808, MDS@[1] == 1080, MDS@[2] == 340282366920938463463374557953744961147, MDS@[3] == 40, INV_MDS@[2] == 231409255903369280423951003551679307334, INV_MDS@[6] == 284248318938217584166130208504515171073, INV_MDS@[10] == 94047455979774690913009073579656179991, INV_MDS@[14] == 113894235293153614657151429548304212092,
    ;
    assert(product_entry(MDS@, INV_MDS@, 4, 0, 3) == (MDS@[0] as int) * (INV_MDS@[3] as int) + (MDS@[1] as int) * (INV_MDS@[7] as int) + (MDS@[2] as int) * (INV_MDS@[11] as int) + (MDS@[3] as int) * (INV_MDS@[15] as int));
    assert(((MDS@[0] as int) * (INV_MDS@[3] as int) + (MDS@[1] as int) * (INV_MDS@[7] as int) + (MDS@[2] as int) * (INV_MDS@[11] as int) + (MDS@[3] as int) * (INV_MDS@[15] as int)) % 340282366920938463463374557953744961537 == 0) by (nonlinear_arith)
        requires
            MDS@[0] == 340282366920938463463374557953744960808, MDS@[1] == 1080, MDS@[2] == 340282366920938463463374557953744961147, MDS@[3] == 40, INV_MDS@[3] == 311938552114349342492438056332412246225, INV_MDS@[7] == 118503764402619831976614612559605579465, INV_MDS@[11] == 260445758149872374743470899536308888155, INV_MDS@[15] == 303406774346515776750608316419662860081,
    ;
}

proof fn lemma_product_forward_row_1()
    ensures
        identity_row(Elem::modulus(), MDS@, INV_MDS@, 4, 1, 4),
{
    reveal_with_fuel(sum, 5);
    reveal_with_fuel(identity_row, 5);
    assert(product_entry(MDS@, INV_MDS@, 4, 1, 0) == (MDS@[4] as int) * (INV_MDS@[0] as int) + (MDS@[5] as int) * (INV_MDS@[4] as int) + (MDS@[6] as int) * (INV_MDS@[8] as int) + (MDS@[7] as int) * (INV_MDS@[12] as int));
    assert(((MDS@[4] as int) * (INV_MDS@[0] as int) + (MDS@[5] as int) * (INV_MDS@[4] as int) + (MDS@[6] as int) * (INV_MDS@[8] as int) + (MDS@[7] as int) * (INV_MDS@[12] as int)) % 340282366920938463463374557953744961537 == 0) by (nonlinear_arith)
        requires
            MDS@[4] == 340282366920938463463374557953744932377, MDS@[5] == 42471, MDS@[6] == 340282366920938463463374557953744947017, MDS@[7] == 1210, INV_MDS@[0] == 18020639985667067681479625318803400939, INV_MDS@[4] == 245698978747161380010236204726851770228, INV_MDS@[8] == 42476948408512208745085164298752800413, INV_MDS@[12] == 12603050626701424572717576220509072651,
    ;
    assert(product_entry(MDS@, INV_MDS@, 4, 1, 1) == (MDS@[4] as int) * (INV_MDS@[1] as int) + (MDS@[5] as int) * (INV_MDS@[5] as int) + (MDS@[6] as int) * (INV_MDS@[9] as int) + (MDS@[7] as int) * (INV_MDS@[13] as int));
    assert(((MDS@[4] as int) * (INV_MDS@[1] as int) + (MDS@[5] as int) * (INV_MDS@[5] as int) + (MDS@[6] as int) * (INV_MDS@[9] as int) + (MDS@[7] as int) * (INV_MDS@[13] as int)) % 340282366920938463463374557953744961537 == 1) by (nonlinear_arith)
        requires
            MDS@[4] == 340282366920938463463374557953744932377, MDS@[5] == 42471, MDS@[6] == 340282366920938463463374557953744947017, MDS@[7] == 1210, INV_MDS@[1] == 119196285838491236328880430704594968577, INV_MDS@[5] == 32113671753878130773768090116517402309, INV_MDS@[9] == 283594571303717652525183978492772054516, INV_MDS@[13] == 250660673575506110946271793719013778251,
    ;
    assert(product_entry(MDS@, INV_MDS@, 4, 1, 2) == (MDS@[4] as int) * (INV_MDS@[2] as int) + (MDS@[5] as int) * (INV_MDS@[6] as int) + (MDS@[6] as int) * (INV_MDS@[10] as int) + (MDS@[7] as int) * (INV_MDS@[14] as int));
    assert(((MDS@[4] as int) * (INV_MDS@[2] as int) + (MDS@[5] as int) * (INV_MDS@[6] as int) + (MDS@[6] as int) * (INV_MDS@[10] as int) + (MDS@[7] as int) * (INV_MDS@[14] as int)) % 340282366920938463463374557953744961537 == 0) by (nonlinear_arith)
        requires
            MDS@[4] == 340282366920938463463374557953744932377, MDS@[5] == 42471, MDS@[6] == 340282366920938463463374557953744947017, MDS@[7] == 1210, INV_MDS@[2] == 231409255903369280423951003551679307334, INV_MDS@[6] == 284248318938217584166130208504515171073, INV_MDS@[10] == 94047455979774690913009073579656179991, INV_MDS@[14] == 113894235293153614657151429548304212092,
    ;
    assert(product_entry(MDS@, INV_MDS@, 4, 1, 3) == (MDS@[4] as int) * (INV_MDS@[3] as int) + (MDS@[5] as int) * (INV_MDS@[7] as int) + (MDS@[6] as int) * (INV_MDS@[11] as int) + (MDS@[7] as int) * (INV_MDS@[15] as int));
    assert(((MDS@[4] as int) * (INV_MDS@[3] as int) + (MDS@[5] as int) * (INV_MDS@[7] as int) + (MDS@[6] as int) * (INV_MDS@[11] as int) + (MDS@[7] as int) * (INV_MDS@[15] as int)) % 340282366920938463463374557953744961537 == 0) by (nonlinear_arith)
        requires
            MDS@[4] == 340282366920938463463374557953744932377, MDS@[5] == 42471, MDS@[6] == 340282366920938463463374557953744947017, MDS@[7] == 1210, INV_MDS@[3] == 311938552114349342492438056332412246225, INV_MDS@[7] == 118503764402619831976614612559605579465, INV_MDS@[11] == 260445758149872374743470899536308888155, INV_MDS@[15] == 303406774346515776750608316419662860081,
    ;
}

proof fn lemma_product_forward_row_2()
    ensures
        identity_row(Elem::modulus(), MDS@, INV_MDS@, 4, 2, 4),
{
    reveal_with_fuel(sum, 5);
    reveal_with_fuel(identity_row, 5);
    assert(product_entry(MDS@, INV_MDS@, 4, 2, 0) == (MDS@[8] as int) * (INV_MDS@[0] as int) + (MDS@[9] as int) * (INV_MDS@[4] as int) + (MDS@[10] as int) * (INV_MDS@[8] as int) + (MDS@[11] as int) * (INV_MDS@[12] as int));
    assert(((MDS@[8] as int) * (INV_MDS@[0] as int) + (MDS@[9] as int) * (INV_MDS@[4] as int) + (MDS@[10] as int) * (INV_MDS@[8] as int) + (MDS@[11] as int) * (INV_MDS@[12] as int)) % 340282366920938463463374557953744961537 == 0) by (nonlinear_arith)
        requires
            MDS@[8] == 340282366920938463463374557953744079447, MDS@[9] == 1277640, MDS@[10] == 340282366920938463463374557953744532108, MDS@[11] == 33880, INV_MDS@[0] == 18020639985667067681479625318803400939, INV_MDS@[4] == 245698978747161380010236204726851770228, INV_MDS@[8] == 42476948408512208745085164298752800413, INV_MDS@[12] == 12603050626701424572717576220509072651,
    ;
    assert(product_entry(MDS@, INV_MDS@, 4, 2, 1) == (MDS@[8] as int) * (INV_MDS@[1] as int) + (MDS@[9] as int) * (INV_MDS@[5] as int) + (MDS@[10] as int) * (INV_MDS@[9] as int) + (MDS@[11] as int) * (INV_MDS@[13] as int));
    assert(((MDS@[8] as int) * (INV_MDS@[1] as int) + (MDS@[9] as int) * (INV_MDS@[5] as int) + (MDS@[10] as int) * (INV_MDS@[9] as int) + (MDS@[11] as int) * (INV_MDS@[13] as int)) % 340282366920938463463374557953744961537 == 0) by (nonlinear_arith)
        requires
            MDS@[8] == 340282366920938463463374557953744079447, MDS@[9] == 1277640, MDS@[10] == 340282366920938463463374557953744532108, MDS@[11] == 33880, INV_MDS@[1] == 119196285838491236328880430704594968577, INV_MDS@[5] == 32113671753878130773768090116517402309, INV_MDS@[9] == 283594571303717652525183978492772054516, INV_MDS@[13] == 250660673575506110946271793719013778251,
    ;
    assert(product_entry(MDS@, INV_MDS@, 4, 2, 2) == (MDS@[8] as int) * (INV_MDS@[2] as int) + (MDS@[9] as int) * (INV_MDS@[6] as int) + (MDS@[10] as int) * (INV_MDS@[10] as int) + (MDS@[11] as int) * (INV_MDS@[14] as int));
    assert(((MDS@[8] as int) * (INV_MDS@[2] as int) + (MDS@[9] as int) * (INV_MDS@[6] as int) + (MDS@[10] as int) * (INV_MDS@[10] as int) + (MDS@[11] as int) * (INV_MDS@[14] as int)) % 340282366920938463463374557953744961537 == 1) by (nonlinear_arith)
        requires
            MDS@[8] == 340282366920938463463374557953744079447, MDS@[9] == 1277640, MDS@[10] == 340282366920938463463374557953744532108, MDS@[11] == 33880, INV_MDS@[2] == 231409255903369280423951003551679307334, INV_MDS@[6] == 284248318938217584166130208504515171073, INV_MDS@[10] == 94047455979774690913009073579656179991, INV_MDS@[14] == 113894235293153614657151429548304212092,
    ;
    assert(product_entry(MDS@, INV_MDS@, 4, 2, 3) == (MDS@[8] as int) * (INV_MDS@[3] as int) + (MDS@[9] as int) * (INV_MDS@[7] as int) + (MDS@[10] as int) * (INV_MDS@[11] as int) + (MDS@[11] as int) * (INV_MDS@[15] as int));
    assert(((MDS@[8] as int) * (INV_MDS@[3] as int) + (MDS@[9] as int) * (INV_MDS@[7] as int) + (MDS@[10] as int) * (INV_MDS@[11] as int) + (MDS@[11] as int) * (INV_MDS@[15] as int)) % 340282366920938463463374557953744961537 == 0) by (nonlinear_arith)
        requires
            MDS@[8] == 340282366920938463463374557953744079447, MDS@[9] == 1277640, MDS@[10] == 340282366920938463463374557953744532108, MDS@[11] == 33880, INV_MDS@[3] == 311938552114349342492438056332412246225, INV_MDS@[7] == 118503764402619831976614612559605579465, INV_MDS@[11] == 260445758149872374743470899536308888155, INV_MDS@[15] == 303406774346515776750608316419662860081,
    ;
}

proof fn lemma_product_forward_row_3()
    ensures
        identity_row(Elem::modulus(), MDS@, INV_MDS@, 4, 3, 4),
{
    reveal_with_fuel(sum, 5);
    reveal_with_fuel(identity_row, 5);
    assert(product_entry(MDS@, INV_MDS@, 4, 3, 0) == (MDS@[12] as int) * (INV_MDS@[0] as int) + (MDS@[13] as int) * (INV_MDS@[4] as int) + (MDS@[14] as int) * (INV_MDS@[8] as int) + (MDS@[15] as int) * (INV_MDS@[12] as int));
    assert(((MDS@[12] as int) * (INV_MDS@[0] as int) + (MDS@[13] as int) * (INV_MDS@[4] as int) + (MDS@[14] as int) * (INV_MDS@[8] as int) + (MDS@[15] as int) * (INV_MDS@[12] as int)) % 340282366920938463463374557953744961537 == 0) by (nonlinear_arith)
        requires
            MDS@[12] == 340282366920938463463374557953720263017, MDS@[13] == 35708310, MDS@[14] == 340282366920938463463374557953733025977, MDS@[15] == 925771, INV_MDS@[0] == 18020639985667067681479625318803400939, INV_MDS@[4] == 245698978747161380010236204726851770228, INV_MDS@[8] == 42476948408512208745085164298752800413, INV_MDS@[12] == 12603050626701424572717576220509072651,
    ;
    assert(product_entry(MDS@, INV_MDS@, 4, 3, 1) == (MDS@[12] as int) * (INV_MDS@[1] as int) + (MDS@[13] as int) * (INV_MDS@[5] as int) + (MDS@[14] as int) * (INV_MDS@[9] as int) + (MDS@[15] as int) * (INV_MDS@[13] as int));
    assert(((MDS@[12] as int) * (INV_MDS@[1] as int) + (MDS@[13] as int) * (INV_MDS@[5] as int) + (MDS@[14] as int) * (INV_MDS@[9] as int) + (MDS@[15] as int) * (INV_MDS@[13] as int)) % 340282366920938463463374557953744961537 == 0) by (nonlinear_arith)
        requires
            MDS@[12] == 340282366920938463463374557953720263017, MDS@[13] == 35708310, MDS@[14] == 340282366920938463463374557953733025977, MDS@[15] == 925771, INV_MDS@[1] == 119196285838491236328880430704594968577, INV_MDS@[5] == 32113671753878130773768090116517402309, INV_MDS@[9] == 283594571303717652525183978492772054516, INV_MDS@[13] == 250660673575506110946271793719013778251,
    ;
    assert(product_entry(MDS@, INV_MDS@, 4, 3, 2) == (MDS@[12] as int) * (INV_MDS@[2] as int) + (MDS@[13] as int) * (INV_MDS@[6] as int) + (MDS@[14] as int) * (INV_MDS@[10] as int) + (MDS@[15] as int) * (INV_MDS@[14] as int));
    assert(((MDS@[12] as int) * (INV_MDS@[2] as int) + (MDS@[13] as int) * (INV_MDS@[6] as int) + (MDS@[14] as int) * (INV_MDS@[10] as int) + (MDS@[15] as int) * (INV_MDS@[14] as int)) % 340282366920938463463374557953744961537 == 0) by (nonlinear_arith)
        requires
            MDS@[12] == 340282366920938463463374557953720263017, MDS@[13] == 35708310, MDS@[14] == 340282366920938463463374557953733025977, MDS@[15] == 925771, INV_MDS@[2] == 231409255903369280423951003551679307334, INV_MDS@[6] == 284248318938217584166130208504515171073, INV_MDS@[10] == 94047455979774690913009073579656179991, INV_MDS@[14] == 113894235293153614657151429548304212092,
    ;
    assert(product_entry(MDS@, INV_MDS@, 4, 3, 3) == (MDS@[12] as int) * (INV_MDS@[3] as int) + (MDS@[13] as int) * (INV_MDS@[7] as int) + (MDS@[14] as int) * (INV_MDS@[11] as int) + (MDS@[15] as int) * (INV_MDS@[15] as int));
    assert(((MDS@[12] as int) * (INV_MDS@[3] as int) + (MDS@[13] as int) * (INV_MDS@[7] as int) + (MDS@[14] as int) * (INV_MDS@[11] as int) + (MDS@[15] as int) * (INV_MDS@[15] as int)) % 340282366920938463463374557953744961537 == 1) by (nonlinear_arith)
        requires
            MDS@[12] == 340282366920938463463374557953720263017, MDS@[13] == 35708310, MDS@[14] == 340282366920938463463374557953733025977, MDS@[15] == 925771, INV_MDS@[3] == 311938552114349342492438056332412246225, INV_MDS@[7] == 118503764402619831976614612559605579465, INV_MDS@[11] == 260445758149872374743470899536308888155, INV_MDS@[15] == 303406774346515776750608316419662860081,
    ;
}

proof fn lemma_product_forward()
    ensures
        product_is_identity(Elem::modulus(), MDS@, INV_MDS@, 4),
{
    lemma_product_forward_row_0();
    lemma_product_forward_row_1();
    lemma_product_forward_row_2();
    lemma_product_forward_row_3();
    reveal_with_fuel(identity_rows, 5);
    assert(identity_rows(Elem::modulus(), MDS@, INV_MDS@, 4, 4));
    lemma_identity_rows(Elem::modulus(), MDS@, INV_MDS@, 4);
}

proof fn lemma_product_backward_row_0()
    ensures
        identity_row(Elem::modulus(), INV_MDS@, MDS@, 4, 0, 4),
{
    reveal_with_fuel(sum, 5);
    reveal_with_fuel(identity_row, 5);
    assert(product_entry(INV_MDS@, MDS@, 4, 0, 0) == (INV_MDS@[0] as int) * (MDS@[0] as int) + (INV_MDS@[1] as int) * (MDS@[4] as int) + (INV_MDS@[2] as int) * (MDS@[8] as int) + (INV_MDS@[3] as int) * (MDS@[12] as int));
    assert(((INV_MDS@[0] as int) * (MDS@[0] as int) + (INV_MDS@[1] as int) * (MDS@[4] as int) + (INV_MDS@[2] as int) * (MDS@[8] as int) + (INV_MDS@[3] as int) * (MDS@[12] as int)) % 340282366920938463463374557953744961537 == 1) by (nonlinear_arith)
        requires
            INV_MDS@[0] == 18020639985667067681479625318803400939, INV_MDS@[1] == 119196285838491236328880430704594968577, INV_MDS@[2] == 231409255903369280423951003551679307334, INV_MDS@[3] == 311938552114349342492438056332412246225, MDS@[0] == 340282366920938463463374557953744960808, MDS@[4] == 340282366920938463463374557953744932377, MDS@[8] == 340282366920938463463374557953744079447, MDS@[12] == 340282366920938463463374557953720263017,
    ;
    assert(product_entry(INV_MDS@, MDS@, 4, 0, 1) == (INV_MDS@[0] as int) * (MDS@[1] as int) + (INV_MDS@[1] as int) * (MDS@[5] as int) + (INV_MDS@[2] as int) * (MDS@[9] as int) + (INV_MDS@[3] as int) * (MDS@[13] as int));
    assert(((INV_MDS@[0] as int) * (MDS@[1] as int) + (INV_MDS@[1] as int) * (MDS@[5] as int) + (INV_MDS@[2] as int) * (MDS@[9] as int) + (INV_MDS@[3] as int) * (MDS@[13] as int)) % 340282366920938463463374557953744961537 == 0) by (nonlinear_arith)
        requires
            INV_MDS@[0] == 18020639985667067681479625318803400939, INV_MDS@[1] == 119196285838491236328880430704594968577, INV_MDS@[2] == 231409255903369280423951003551679307334, INV_MDS@[3] == 311938552114349342492438056332412246225, MDS@[1] == 1080, MDS@[5] == 42471, MDS@[9] == 1277640, MDS@[13] == 35708310,
    ;
    assert(product_entry(INV_MDS@, MDS@, 4, 0, 2) == (INV_MDS@[0] as int) * (MDS@[2] as int) + (INV_MDS@[1] as int) * (MDS@[6] as int) + (INV_MDS@[2] as int) * (MDS@[10] as int) + (INV_MDS@[3] as int) * (MDS@[14] as int));
    assert(((INV_MDS@[0] as int) * (MDS@[2] as int) + (INV_MDS@[1] as int) * (MDS@[6] as int) + (INV_MDS@[2] as int) * (MDS@[10] as int) + (INV_MDS@[3] as int) * (MDS@[14] as int)) % 340282366920938463463374557953744961537 == 0) by (nonlinear_arith)
        requires
            INV_MDS@[0] == 18020639985667067681479625318803400939, INV_MDS@[1] == 119196285838491236328880430704594968577, INV_MDS@[2] == 231409255903369280423951003551679307334, INV_MDS@[3] == 311938552114349342492438056332412246225, MDS@[2] == 340282366920938463463374557953744961147, MDS@[6] == 340282366920938463463374557953744947017, MDS@[10] == 340282366920938463463374557953744532108, MDS@[14] == 340282366920938463463374557953733025977,
    ;
    assert(product_entry(INV_MDS@, MDS@, 4, 0, 3) == (INV_MDS@[0] as int) * (MDS@[3] as int) + (INV_MDS@[1] as int) * (MDS@[7] as int) + (INV_MDS@[2] as int) * (MDS@[11] as int) + (INV_MDS@[3] as int) * (MDS@[15] as int));
    assert(((INV_MDS@[0] as int) * (MDS@[3] as int) + (INV_MDS@[1] as int) * (MDS@[7] as int) + (INV_MDS@[2] as int) * (MDS@[11] as int) + (INV_MDS@[3] as int) * (MDS@[15] as int)) % 340282366920938463463374557953744961537 == 0) by (nonlinear_arith)
        requires
            INV_MDS@[0] == 18020639985667067681479625318803400939, INV_MDS@[1] == 119196285838491236328880430704594968577, INV_MDS@[2] == 231409255903369280423951003551679307334, INV_MDS@[3] == 311938552114349342492438056332412246225, MDS@[3] == 40, MDS@[7] == 1210, MDS@[11] == 33880, MDS@[15] == 925771,
    ;
}

proof fn lemma_product_backward_row_1()
    ensures
        identity_row(Elem::modulus(), INV_MDS@, MDS@, 4, 1, 4),
{
    reveal_with_fuel(sum, 5);
    reveal_with_fuel(identity_row, 5);
    assert(product_entry(INV_MDS@, MDS@, 4, 1, 0) == (INV_MDS@[4] as int) * (MDS@[0] as int) + (INV_MDS@[5] as int) * (MDS@[4] as int) + (INV_MDS@[6] as int) * (MDS@[8] as int) + (INV_MDS@[7] as int) * (MDS@[12] as int));
    assert(((INV_MDS@[4] as int) * (MDS@[0] as int) + (INV_MDS@[5] as int) * (MDS@[4] as int) + (INV_MDS@[6] as int) * (MDS@[8] as int) + (INV_MDS@[7] as int) * (MDS@[12] as int)) % 340282366920938463463374557953744961537 == 0) by (nonlinear_arith)
        requires
            INV_MDS@[4] == 245698978747161380010236204726851770228, INV_MDS@[5] == 32113671753878130773768090116517402309, INV_MDS@[6] == 284248318938217584166130208504515171073, INV_MDS@[7] == 118503764402619831976614612559605579465, MDS@[0] == 340282366920938463463374557953744960808, MDS@[4] == 340282366920938463463374557953744932377, MDS@[8] == 340282366920938463463374557953744079447, MDS@[12] == 340282366920938463463374557953720263017,
    ;
    assert(product_entry(INV_MDS@, MDS@, 4, 1, 1) == (INV_MDS@[4] as int) * (MDS@[1] as int) + (INV_MDS@[5] as int) * (MDS@[5] as int) + (INV_MDS@[6] as int) * (MDS@[9] as int) + (INV_MDS@[7] as int) * (MDS@[13] as int));
    assert(((INV_MDS@[4] as int) * (MDS@[1] as int) + (INV_MDS@[5] as int) * (MDS@[5] as int) + (INV_MDS@[6] as int) * (MDS@[9] as int) + (INV_MDS@[7] as int) * (MDS@[13] as int)) % 340282366920938463463374557953744961537 == 1) by (nonlinear_arith)
        requires
            INV_MDS@[4] == 245698978747161380010236204726851770228, INV_MDS@[5] == 32113671753878130773768090116517402309, INV_MDS@[6] == 284248318938217584166130208504515171073, INV_MDS@[7] == 118503764402619831976614612559605579465, MDS@[1] == 1080, MDS@[5] == 42471, MDS@[9] == 1277640, MDS@[13] == 35708310,
    ;
    assert(product_entry(INV_MDS@, MDS@, 4, 1, 2) == (INV_MDS@[4] as int) * (MDS@[2] as int) + (INV_MDS@[5] as int) * (MDS@[6] as int) + (INV_MDS@[6] as int) * (MDS@[10] as int) + (INV_MDS@[7] as int) * (MDS@[14] as int));
    assert(((INV_MDS@[4] as int) * (MDS@[2] as int) + (INV_MDS@[5] as int) * (MDS@[6] as int) + (INV_MDS@[6] as int) * (MDS@[10] as int) + (INV_MDS@[7] as int) * (MDS@[14] as int)) % 340282366920938463463374557953744961537 == 0) by (nonlinear_arith)
        requires
            INV_MDS@[4] == 245698978747161380010236204726851770228, INV_MDS@[5] == 32113671753878130773768090116517402309, INV_MDS@[6] == 284248318938217584166130208504515171073, INV_MDS@[7] == 118503764402619831976614612559605579465, MDS@[2] == 340282366920938463463374557953744961147, MDS@[6] == 340282366920938463463374557953744947017, MDS@[10] == 340282366920938463463374557953744532108, MDS@[14] == 340282366920938463463374557953733025977,
    ;
    assert(product_entry(INV_MDS@, MDS@, 4, 1, 3) == (INV_MDS@[4] as int) * (MDS@[3] as int) + (INV_MDS@[5] as int) * (MDS@[7] as int) + (INV_MDS@[6] as int) * (MDS@[11] as int) + (INV_MDS@[7] as int) * (MDS@[15] as int));
    assert(((INV_MDS@[4] as int) * (MDS@[3] as int) + (INV_MDS@[5] as int) * (MDS@[7] as int) + (INV_MDS@[6] as int) * (MDS@[11] as int) + (INV_MDS@[7] as int) * (MDS@[15] as int)) % 340282366920938463463374557953744961537 == 0) by (nonlinear_arith)
        requires
            INV_MDS@[4] == 245698978747161380010236204726851770228, INV_MDS@[5] == 32113671753878130773768090116517402309, INV_MDS@[6] == 284248318938217584166130208504515171073, INV_MDS@[7] == 118503764402619831976614612559605579465, MDS@[3] == 40, MDS@[7] == 1210, MDS@[11] == 33880, MDS@[15] == 925771,
    ;
}

proof fn lemma_product_backward_row_2()
    ensures
        identity_row(Elem::modulus(), INV_MDS@, MDS@, 4, 2, 4),
{
    reveal_with_fuel(sum, 5);
    reveal_with_fuel(identity_row, 5);
    assert(product_entry(INV_MDS@, MDS@, 4, 2, 0) == (INV_MDS@[8] as int) * (MDS@[0] as int) + (INV_MDS@[9] as int) * (MDS@[4] as int) + (INV_MDS@[10] as int) * (MDS@[8] as int) + (INV_MDS@[11] as int) * (MDS@[12] as int));
    assert(((INV_MDS@[8] as int) * (MDS@[0] as int) + (INV_MDS@[9] as int) * (MDS@[4] as int) + (INV_MDS@[10] as int) * (MDS@[8] as int) + (INV_MDS@[11] as int) * (MDS@[12] as int)) % 340282366920938463463374557953744961537 == 0) by (nonlinear_arith)
        requires
            INV_MDS@[8] == 42476948408512208745085164298752800413, INV_MDS@[9] == 283594571303717652525183978492772054516, INV_MDS@[10] == 94047455979774690913009073579656179991, INV_MDS@[11] == 260445758149872374743470899536308888155, MDS@[0] == 340282366920938463463374557953744960808, MDS@[4] == 340282366920938463463374557953744932377, MDS@[8] == 340282366920938463463374557953744079447, MDS@[12] == 340282366920938463463374557953720263017,
    ;
    assert(product_entry(INV_MDS@, MDS@, 4, 2, 1) == (INV_MDS@[8] as int) * (MDS@[1] as int) + (INV_MDS@[9] as int) * (MDS@[5] as int) + (INV_MDS@[10] as int) * (MDS@[9] as int) + (INV_MDS@[11] as int) * (MDS@[13] as int));
    assert(((INV_MDS@[8] as int) * (MDS@[1] as int) + (INV_MDS@[9] as int) * (MDS@[5] as int) + (INV_MDS@[10] as int) * (MDS@[9] as int) + (INV_MDS@[11] as int) * (MDS@[13] as int)) % 340282366920938463463374557953744961537 == 0) by (nonlinear_arith)
        requires
            INV_MDS@[8] == 42476948408512208745085164298752800413, INV_MDS@[9] == 283594571303717652525183978492772054516, INV_MDS@[10] == 94047455979774690913009073579656179991, INV_MDS@[11] == 260445758149872374743470899536308888155, MDS@[1] == 1080, MDS@[5] == 42471, MDS@[9] == 1277640, MDS@[13] == 35708310,
    ;
    assert(product_entry(INV_MDS@, MDS@, 4, 2, 2) == (INV_MDS@[8] as int) * (MDS@[2] as int) + (INV_MDS@[9] as int) * (MDS@[6] as int) + (INV_MDS@[10] as int) * (MDS@[10] as int) + (INV_MDS@[11] as int) * (MDS@[14] as int));
    assert(((INV_MDS@[8] as int) * (MDS@[2] as int) + (INV_MDS@[9] as int) * (MDS@[6] as int) + (INV_MDS@[10] as int) * (MDS@[10] as int) + (INV_MDS@[11] as int) * (MDS@[14] as int)) % 340282366920938463463374557953744961537 == 1) by (nonlinear_arith)
        requires
            INV_MDS@[8] == 42476948408512208745085164298752800413, INV_MDS@[9] == 283594571303717652525183978492772054516, INV_MDS@[10] == 94047455979774690913009073579656179991, INV_MDS@[11] == 260445758149872374743470899536308888155, MDS@[2] == 340282366920938463463374557953744961147, MDS@[6] == 340282366920938463463374557953744947017, MDS@[10] == 340282366920938463463374557953744532108, MDS@[14] == 340282366920938463463374557953733025977,
    ;
    assert(product_entry(INV_MDS@, MDS@, 4, 2, 3) == (INV_MDS@[8] as int) * (MDS@[3] as int) + (INV_MDS@[9] as int) * (MDS@[7] as int) + (INV_MDS@[10] as int) * (MDS@[11] as int) + (INV_MDS@[11] as int) * (MDS@[15] as int));
    assert(((INV_MDS@[8] as int) * (MDS@[3] as int) + (INV_MDS@[9] as int) * (MDS@[7] as int) + (INV_MDS@[10] as int) * (MDS@[11] as int) + (INV_MDS@[11] as int) * (MDS@[15] as int)) % 340282366920938463463374557953744961537 == 0) by (nonlinear_arith)
        requires
            INV_MDS@[8] == 42476948408512208745085164298752800413, INV_MDS@[9] == 283594571303717652525183978492772054516, INV_MDS@[10] == 94047455979774690913009073579656179991, INV_MDS@[11] == 260445758149872374743470899536308888155, MDS@[3] == 40, MDS@[7] == 1210, MDS@[11] == 33880, MDS@[15] == 925771,
    ;
}

proof fn lemma_product_backward_row_3()
    ensures
        identity_row(Elem::modulus(), INV_MDS@, MDS@, 4, 3, 4),
{
    reveal_with_fuel(sum, 5);
    reveal_with_fuel(identity_row, 5);
    assert(product_entry(INV_MDS@, MDS@, 4, 3, 0) == (INV_MDS@[12] as int) * (MDS@[0] as int) + (INV_MDS@[13] as int) * (MDS@[4] as int) + (INV_MDS@[14] as int) * (MDS@[8] as int) + (INV_MDS@[15] as int) * (MDS@[12] as int));
    assert(((INV_MDS@[12] as int) * (MDS@[0] as int) + (INV_MDS@[13] as int) * (MDS@[4] as int) + (INV_MDS@[14] as int) * (MDS@[8] as int) + (INV_MDS@[15] as int) * (MDS@[12] as int)) % 340282366920938463463374557953744961537 == 0) by (nonlinear_arith)
        requires
            INV_MDS@[12] == 12603050626701424572717576220509072651, INV_MDS@[13] == 250660673575506110946271793719013778251, INV_MDS@[14] == 113894235293153614657151429548304212092, INV_MDS@[15] == 303406774346515776750608316419662860081, MDS@[0] == 340282366920938463463374557953744960808, MDS@[4] == 340282366920938463463374557953744932377, MDS@[8] == 340282366920938463463374557953744079447, MDS@[12] == 340282366920938463463374557953720263017,
    ;
    assert(product_entry(INV_MDS@, MDS@, 4, 3, 1) == (INV_MDS@[12] as int) * (MDS@[1] as int) + (INV_MDS@[13] as int) * (MDS@[5] as int) + (INV_MDS@[14] as int) * (MDS@[9] as int) + (INV_MDS@[15] as int) * (MDS@[13] as int));
    assert(((INV_MDS@[12] as int) * (MDS@[1] as int) + (INV_MDS@[13] as int) * (MDS@[5] as int) + (INV_MDS@[14] as int) * (MDS@[9] as int) + (INV_MDS@[15] as int) * (MDS@[13] as int)) % 340282366920938463463374557953744961537 == 0) by (nonlinear_arith)
        requires
            INV_MDS@[12] == 12603050626701424572717576220509072651, INV_MDS@[13] == 250660673575506110946271793719013778251, INV_MDS@[14] == 113894235293153614657151429548304212092, INV_MDS@[15] == 303406774346515776750608316419662860081, MDS@[1] == 1080, MDS@[5] == 42471, MDS@[9] == 1277640, MDS@[13] == 35708310,
    ;
    assert(product_entry(INV_MDS@, MDS@, 4, 3, 2) == (INV_MDS@[12] as int) * (MDS@[2] as int) + (INV_MDS@[13] as int) * (MDS@[6] as int) + (INV_MDS@[14] as int) * (MDS@[10] as int) + (INV_MDS@[15] as int) * (MDS@[14] as int));
    assert(((INV_MDS@[12] as int) * (MDS@[2] as int) + (INV_MDS@[13] as int) * (MDS@[6] as int) + (INV_MDS@[14] as int) * (MDS@[10] as int) + (INV_MDS@[15] as int) * (MDS@[14] as int)) % 340282366920938463463374557953744961537 == 0) by (nonlinear_arith)
        requires
            INV_MDS@[12] == 12603050626701424572717576220509072651, INV_MDS@[13] == 250660673575506110946271793719013778251, INV_MDS@[14] == 113894235293153614657151429548304212092, INV_MDS@[15] == 303406774346515776750608316419662860081, MDS@[2] == 340282366920938463463374557953744961147, MDS@[6] == 340282366920938463463374557953744947017, MDS@[10] == 340282366920938463463374557953744532108, MDS@[14] == 340282366920938463463374557953733025977,
    ;
    assert(product_entry(INV_MDS@, MDS@, 4, 3, 3) == (INV_MDS@[12] as int) * (MDS@[3] as int) + (INV_MDS@[13] as int) * (MDS@[7] as int) + (INV_MDS@[14] as int) * (MDS@[11] as int) + (INV_MDS@[15] as int) * (MDS@[15] as int));
    assert(((INV_MDS@[12] as int) * (MDS@[3] as int) + (INV_MDS@[13] as int) * (MDS@[7] as int) + (INV_MDS@[14] as int) * (MDS@[11] as int) + (INV_MDS@[15] as int) * (MDS@[15] as int)) % 340282366920938463463374557953744961537 == 1) by (nonlinear_arith)
        requires
            INV_MDS@[12] == 12603050626701424572717576220509072651, INV_MDS@[13] == 250660673575506110946271793719013778251, INV_MDS@[14] == 113894235293153614657151429548304212092, INV_MDS@[15] == 303406774346515776750608316419662860081, MDS@[3] == 40, MDS@[7] == 1210, MDS@[11] == 33880, MDS@[15] == 925771,
    ;
}

proof fn lemma_product_backward()
    ensures
        product_is_identity(Elem::modulus(), INV_MDS@, MDS@, 4),
{
    lemma_product_backward_row_0();
    lemma_product_backward_row_1();
    lemma_product_backward_row_2();
    lemma_product_backward_row_3();
    reveal_with_fuel(identity_rows, 5);
    assert(identity_rows(Elem::modulus(), INV_MDS@, MDS@, 4, 4));
    lemma_identity_rows(Elem::modulus(), INV_MDS@, MDS@, 4);
}

/// The digest of `input_sequence`, whose length must be a multiple of `RATE`.
pub fn hash(input_sequence: &Vec<Elem>) -> (r: [Elem; RATE])
    requires
        input_sequence@.len() % (RATE as nat) == 0,
    ensures
        vals(r@) == hash_spec(spec_params(), Elem::modulus(), vals(input_sequence@)),
{
    rescue_prime_hash(input_sequence)
}

/// The sponge: starting from the zero state, each chunk of `RATE` elements is added onto the
/// first lanes and the state permuted; the digest is the first `RATE` lanes.
pub fn rescue_prime_hash(input_sequence: &Vec<Elem>) -> (r: [Elem; RATE])
    requires
        input_sequence@.len() % (RATE as nat) == 0,
    ensures
        vals(r@) == hash_spec(spec_params(), Elem::modulus(), vals(input_sequence@)),
{
    let digest = params().hash(input_sequence);
    to_array(&digest)
}

/// The digest of `input_sequence` followed by a one and the fewest zeros that reach a
/// multiple of `RATE`.
pub fn rescue_prime_wrapper(input_sequence: &Vec<Elem>) -> (r: [Elem; RATE])
    requires
        input_sequence@.len() + STATE_WIDTH <= usize::MAX,
    ensures
        vals(r@) == hash_spec(
            spec_params(),
            Elem::modulus(),
            pad_spec(vals(input_sequence@), RATE as nat),
        ),
{
    let digest = params().hash_padded(input_sequence);
    to_array(&digest)
}

/// Applies the `NUM_ROUNDS` rounds to `state`.
pub fn rescue_xlix_permutation(state: &mut [Elem; STATE_WIDTH])
    ensures
        vals(final(state)@) == permutation_spec(spec_params(), Elem::modulus(), vals(old(state)@)),
{
    params().permutation(state);
}

/// Applies round `round % NUM_ROUNDS` to `state`.
pub fn apply_round(state: &mut [Elem], round: usize)
    requires
        old(state)@.len() == STATE_WIDTH,
    ensures
        final(state)@.len() == STATE_WIDTH,
        vals(final(state)@) == round_spec(
            spec_params(),
            Elem::modulus(),
            vals(old(state)@),
            round as nat,
        ),
{
    params().apply_round(state, round);
}

/// Adds to `result_slice` the residuals of one round between `current_slice` and
/// `next_slice`, scaled by `flag`; with `flag` one they all vanish exactly when the two
/// halves of the round agree.
pub fn enforce_round<E: PrimeField>(
    result_slice: &mut [E],
    current_slice: &[E],
    next_slice: &[E],
    round_constants: &[E],
    flag: E,
)
    requires
        current_slice@.len() == STATE_WIDTH,
        next_slice@.len() == STATE_WIDTH,
        round_constants@.len() >= 2 * STATE_WIDTH,
        old(result_slice)@.len() >= STATE_WIDTH,
    ensures
        final(result_slice)@.len() == old(result_slice)@.len(),
        vals(final(result_slice)@) == round_residuals(
            spec_params(),
            E::modulus(),
            vals(old(result_slice)@),
            vals(current_slice@),
            vals(next_slice@),
            vals(round_constants@),
            flag.val(),
        ),
{
    params().enforce_round(result_slice, current_slice, next_slice, round_constants, flag);
}

/// `enforce_round` with `pixels` first added onto the first `RATE` lanes of `current_slice`.
pub fn enforce_first_round<E: PrimeField>(
    result_slice: &mut [E],
    pixels: &[E],
    current_slice: &[E],
    next_slice: &[E],
    round_constants: &[E],
    flag: E,
)
    requires
        pixels@.len() >= RATE,
        current_slice@.len() == STATE_WIDTH,
        next_slice@.len() == STATE_WIDTH,
        round_constants@.len() >= 2 * STATE_WIDTH,
        old(result_slice)@.len() >= STATE_WIDTH,
    ensures
        final(result_slice)@.len() == old(result_slice)@.len(),
        vals(final(result_slice)@) == round_residuals(
            spec_params(),
            E::modulus(),
            vals(old(result_slice)@),
            absorb_lanes_spec(E::modulus(), vals(current_slice@), vals(pixels@).take(RATE as int)),
            vals(next_slice@),
            vals(round_constants@),
            flag.val(),
        ),
{
    params().enforce_first_round(result_slice, pixels, current_slice, next_slice, round_constants, flag);
}

/// The round constants in `2 × STATE_WIDTH` columns of length `cycle_length`, the constants of
/// round `i` at position `(i + shift) % cycle_length` and zeros elsewhere.
pub fn get_round_constants_periodic(cycle_length: usize, shift: usize) -> (r: Vec<Vec<Elem>>)
    requires
        cycle_length > 0,
        shift + NUM_ROUNDS <= usize::MAX,
    ensures
        r@.len() == 2 * STATE_WIDTH,
        forall|j: int|
            0 <= j < 2 * STATE_WIDTH ==> vals(#[trigger] r@[j]@) == periodic_column(
                Elem::modulus(),
                ROUND_CONSTANTS@,
                (2 * STATE_WIDTH) as nat,
                j as nat,
                cycle_length as nat,
                shift as nat,
                NUM_ROUNDS as nat,
            ),
{
    params().round_constants_periodic(cycle_length, shift)
}

} // verus!

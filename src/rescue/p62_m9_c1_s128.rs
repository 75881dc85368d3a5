//! Rescue-Prime over the 62-bit prime field (modulus `MODULUS_62`): width 9, capacity 1, 8 rounds, S-box
//! exponent 3, security of at least 128 bits.

use vstd::prelude::*;
use crate::field::{Felt62, PrimeField, canonical_seq, vals};
use crate::layers::{
    absorb_lanes_spec, exp_undoes, fermat, lemma_exponents_invert, periodic_column, to_array,
    zeros, undoes,
};
use crate::matrix::{
    identity_row, identity_rows, lemma_identity_rows, lemma_product_identity_undoes, product_entry,
    product_is_identity, sum,
};
use crate::rescue::{
    RescueParams, hash_spec, lemma_first_round_constraints_vanish, lemma_round_constraints_vanish,
    pad_spec, permutation_spec, round_residuals, round_spec,
};

verus! {

pub type Elem = Felt62;

pub const NUM_ROUNDS: usize = 8;
pub const STATE_WIDTH: usize = 9;
pub const CAPACITY: usize = 1;
pub const RATE: usize = STATE_WIDTH - CAPACITY;

/// The exponent of the forward S-box.
pub const ALPHA: u128 = 3;

/// The exponent of the inverse S-box: the inverse of `ALPHA` modulo the prime minus one.
pub const INV_ALPHA: u128 = 3074416663688030891;

/// The mixing matrix, row-major.
pub const MDS: [u128; 81] = [
    150094635296999121, 4386494480982775136, 84411075413992860,
    4601889709531466597, 364572438704838, 4611620494637741339,
    18318658140, 4611624995507837477, 9841,
    1361307387513521921, 2832323806833398177, 371763438786123399,
    1123586449881744597, 3578022083293731018, 4567696267115265857,
    175773020450742, 4611624775611313217, 72636421,
    3690586968508376915, 1188716678600029516, 4404722642276688942,
    1392834815468635765, 2410004866179382341, 4074543151731888787,
    1286673036395336460, 4610042323605607019, 494894285941,
    1460884875119705544, 3386615783772897896, 201971421999830434,
    2690809914857215644, 3005613438739961642, 1137553896735229930,
    3419041528315999985, 3140721539845838211, 3287582741506063,
    1799234820778435744, 2072052720368877933, 1556994839688241047,
    781837143061117873, 3574339685331375704, 3222440231476431090,
    14265327237660372, 2212886883903365751, 3212448330282679835,
    418351083517431213, 1604014025070032746, 4416269077327681940,
    681286285019270020, 2805410846266053252, 2410684455530809505,
    4077427075299802133, 3417121306051169026, 3227560823577981851,
    3691476875300647805, 1874414663873269341, 1418653137253019787,
    2559323521522078511, 1382789646784900202, 2739816669015464653,
    3129816858893153678, 679991697250255911, 970216912235395461,
    2928319956530473610, 2247820445494298710, 4005627978492551095,
    1162150878861062419, 4269347266999601819, 1020076390998853272,
    1754026023882377187, 3149871781959943552, 2520884254441070022,
    3605823366462788878, 1932568390090888418, 210979528524628337,
    4080931779665215284, 2254354572900271594, 3743460493495557051,
    2371731759139912191, 4228931313260232939, 629343774120736994,
];

/// The inverse of `MDS`, row-major.
pub const INV_MDS: [u128; 81] = [
    3535209814333908612, 2192294647579404765, 2247283712851777654,
    1016653726681019018, 4084320113214072343, 677515556938913667,
    2421791421881488327, 3644426067838966381, 3238629916340680919,
    1855209548528077732, 1472993453010258945, 1795205275729888080,
    3589415998546501003, 3294978760228179936, 1778846966858158585,
    3997809095230362131, 1212577225021150021, 4061088654507655253,
    754377492363537555, 1274059338065041488, 1711978099802673295,
    3853263153951502696, 1022446755313492063, 2814266961258360083,
    2869424750903044655, 2102868476327595162, 2043814954142938352,
    743870189666828265, 2360900441789594331, 697008895183019540,
    275384929271023918, 4322677085037880573, 1358253373117268608,
    2976193419717151400, 1722984966615577177, 3989226681729841537,
    3574605258651933052, 3776081033478750867, 4197195984439072521,
    2323160270091604467, 2968178383345228859, 3207693524924509149,
    3189047413106611221, 3494615199478891974, 939172905675675913,
    105602560538833690, 3377550819844293227, 2405537603155391432,
    4494434426780066202, 3399461679221988058, 3410359846988759564,
    1139390336191412558, 527098797354794496, 4198688907584692459,
    2470160527543053102, 4596885798055676665, 1067306248085340780,
    681737992013306965, 1520629548906454474, 4404047232332091755,
    2694913477905427615, 1346140786108729998, 4276303366710150332,
    1404066629609082371, 1041748211388490239, 4525166593910048957,
    977282067546530790, 4499663276559992087, 3124570284534635445,
    2912864986169238494, 1203274577166891218, 3369488350775322085,
    1729798676117111118, 977196139524086241, 4046373689597190438,
    2740698142978392711, 478566997738395362, 1317536305202134563,
    3484754205530568350, 917159143741939893, 2754416681698366673,
];

/// `2 × STATE_WIDTH` constants per round.
pub const ROUND_CONSTANTS: [u128; 144] = [
    3479116555304757703, 1155047556099996899, 427089052771468700,
    431082298481139051, 2726498217431892440, 915414314571502871,
    385454225924539962, 1710614897861079827, 4347799284751404615,
    34937339639775767, 2874834615961943844, 2872617912924433034,
    1916052099798880866, 4506017753736519466, 3679345309200506099,
    3787869391481781358, 3151990861101109689, 2641757974136818946,
    585302176139640508, 4530630730124285737, 790382751707103995,
    447829000152397049, 4493234438415407782, 3366379033989222412,
    4323203038464976976, 2251855181029153658, 3641618157117543589,
    2445404810245899183, 3647581731494330069, 2699899663630189088,
    61061156597312719, 4322596539765352055, 1704050299014426007,
    1534019659729860169, 271049182915723608, 892409126058879910,
    3760196303927541285, 1627107491318596387, 2198487769678679154,
    1252420745438363900, 3594398923378085704, 4400047412641461419,
    3672377192467211158, 1707242180970982129, 953371898520095440,
    4372800870710691850, 510235433697610969, 830761040016512618,
    3398847627590885621, 3616434751203478813, 2791550780096776652,
    2021550064953257921, 4216432564045218516, 1824234198542854533,
    2727190399348246265, 4566134796419452876, 1019957349222139381,
    495185720818776281, 2736845784884018801, 3849624882169502674,
    514956422266925707, 795128726631560559, 771930910409126772,
    2466065049589759591, 3195115050860391041, 454814501665496408,
    2182840498016086271, 3731003969258903129, 1861478041664471778,
    1265011680690258047, 3377760548330501396, 137124217307397454,
    4238051543850859398, 4228164356574848340, 3111464094934540653,
    2310185438666398574, 4018834869962017275, 1506212896309752191,
    3792026699561553893, 489031579437078393, 2912210071683438594,
    873787270059905174, 3929361943043323257, 1554269851059712578,
    47466377919336006, 3671251071867893516, 3866590107907068071,
    1835697137246678725, 1083725543437090272, 4328061113903858854,
    2721927690464478750, 3371805806350466094, 1058542491559648837,
    4398538541017561354, 753975563407725049, 1938764573704295159,
    216368030155626380, 4396695461512595540, 2464541797907241195,
    4262128344402760777, 1300493554523041996, 2962920660188935891,
    13336570907352833, 41847148224576177, 1596975541576424170,
    1328864207092924714, 1155575769136949372, 4387704409368927478,
    2740122345842038061, 3611890152369092683, 98668625291075489,
    4199344593106719112, 3064875571082143007, 1781155977771418002,
    1823965356338223150, 3791033480382087253, 4480973711277962650,
    3959408393141961496, 3875195580749786218, 1369071271077738431,
    2018844369623837531, 590323244619354786, 2762768879534493426,
    3743873834386968842, 433353121638315937, 4463469203132372635,
    4220524760201799584, 1226700721619629859, 2113671285658160646,
    2689242256911910282, 1430053932056773788, 4016942347453846629,
    3276633055713004461, 4467812854216799073, 3251806235982809425,
    1244686195760883321, 108350848265307164, 3947878545256552800,
    1695490117910788076, 3676104303027886927, 1061293990612388670,
    1871880748515671840, 1860982292795661158, 3586852323547489415,
];

/// This instance's constants.
pub open spec fn spec_params() -> RescueParams {
    RescueParams {
        width: STATE_WIDTH,
        capacity: CAPACITY,
        rounds: NUM_ROUNDS,
        alpha: ALPHA,
        inv_alpha: INV_ALPHA,
        mds: &MDS,
        inv_mds: &INV_MDS,
        round_constants: &ROUND_CONSTANTS,
    }
}

/// This instance's constants.
pub fn params() -> (r: RescueParams)
    ensures
        r == spec_params(),
        r.wf(),
{
    RescueParams {
        width: STATE_WIDTH,
        capacity: CAPACITY,
        rounds: NUM_ROUNDS,
        alpha: ALPHA,
        inv_alpha: INV_ALPHA,
        mds: &MDS,
        inv_mds: &INV_MDS,
        round_constants: &ROUND_CONSTANTS,
    }
}

/// The two S-box exponents undo each other, both ways, on every residue, wherever Fermat's
/// little theorem holds for the modulus.
pub proof fn lemma_sbox_exponents_invert()
    requires
        fermat(Elem::modulus()),
    ensures
        exp_undoes(Elem::modulus(), ALPHA as nat, INV_ALPHA as nat),
        exp_undoes(Elem::modulus(), INV_ALPHA as nat, ALPHA as nat),
{
    lemma_exponents_invert(Elem::modulus(), ALPHA as nat, INV_ALPHA as nat);
}

/// With flag one, the round constraints vanish on every state of residues and the state that
/// round `r` makes of it, and on the same with a chunk of input absorbed first, wherever
/// Fermat's little theorem holds for the modulus (it does, the modulus being prime).
pub proof fn lemma_constraints_vanish(cur: Seq<int>, chunk: Seq<int>, r: nat)
    requires
        cur.len() == STATE_WIDTH,
        chunk.len() == RATE,
        canonical_seq(cur, Elem::modulus()),
        fermat(Elem::modulus()),
    ensures
        round_residuals(
            spec_params(),
            Elem::modulus(),
            zeros(STATE_WIDTH as nat),
            cur,
            round_spec(spec_params(), Elem::modulus(), cur, r),
            spec_params().round_consts(Elem::modulus(), r % (NUM_ROUNDS as nat)),
            1,
        ) == zeros(STATE_WIDTH as nat),
        round_residuals(
            spec_params(),
            Elem::modulus(),
            zeros(STATE_WIDTH as nat),
            absorb_lanes_spec(Elem::modulus(), cur, chunk),
            round_spec(spec_params(), Elem::modulus(), absorb_lanes_spec(Elem::modulus(), cur, chunk), r),
            spec_params().round_consts(Elem::modulus(), r % (NUM_ROUNDS as nat)),
            1,
        ) == zeros(STATE_WIDTH as nat),
{
    lemma_matrices_invert();
    lemma_exponents_invert(Elem::modulus(), ALPHA as nat, INV_ALPHA as nat);
    lemma_round_constraints_vanish(spec_params(), Elem::modulus(), cur, r);
    lemma_first_round_constraints_vanish(spec_params(), Elem::modulus(), cur, chunk, r);
}

/// With flag one, the round constraints do not all vanish on a state of residues and any state
/// of residues other than the one that round `r` makes of it, wherever Fermat's little
/// theorem holds for the modulus.
pub proof fn lemma_wrong_next_detected(cur: Seq<int>, other: Seq<int>, r: nat)
    requires
        cur.len() == STATE_WIDTH,
        canonical_seq(cur, Elem::modulus()),
        other.len() == STATE_WIDTH,
        canonical_seq(other, Elem::modulus()),
        other != round_spec(spec_params(), Elem::modulus(), cur, r),
        fermat(Elem::modulus()),
    ensures
        round_residuals(
            spec_params(),
            Elem::modulus(),
            zeros(STATE_WIDTH as nat),
            cur,
            other,
            spec_params().round_consts(Elem::modulus(), r % (NUM_ROUNDS as nat)),
            1,
        ) != zeros(STATE_WIDTH as nat),
{
    lemma_matrices_invert();
    lemma_exponents_invert(Elem::modulus(), ALPHA as nat, INV_ALPHA as nat);
    crate::rescue::lemma_wrong_next_detected(spec_params(), Elem::modulus(), cur, other, r);
}

/// The mixing matrix and its inverse undo each other on every vector of residues.
pub proof fn lemma_matrices_invert()
    ensures
        undoes(Elem::modulus(), MDS@, INV_MDS@, STATE_WIDTH as nat),
        undoes(Elem::modulus(), INV_MDS@, MDS@, STATE_WIDTH as nat),
{
    lemma_product_forward();
    lemma_product_backward();
    lemma_product_identity_undoes(Elem::modulus(), MDS@, INV_MDS@, STATE_WIDTH as nat);
    lemma_product_identity_undoes(Elem::modulus(), INV_MDS@, MDS@, STATE_WIDTH as nat);
}

proof fn lemma_product_forward_row_0()
    ensures
        identity_row(Elem::modulus(), MDS@, INV_MDS@, 9, 0, 9),
{
    reveal_with_fuel(sum, 10);
    reveal_with_fuel(identity_row, 10);
    assert(product_entry(MDS@, INV_MDS@, 9, 0, 0) == (MDS@[0] as int) * (INV_MDS@[0] as int) + (MDS@[1] as int) * (INV_MDS@[9] as int) + (MDS@[2] as int) * (INV_MDS@[18] as int) + (MDS@[3] as int) * (INV_MDS@[27] as int) + (MDS@[4] as int) * (INV_MDS@[36] as int) + (MDS@[5] as int) * (INV_MDS@[45] as int) + (MDS@[6] as int) * (INV_MDS@[54] as int) + (MDS@[7] as int) * (INV_MDS@[63] as int) + (MDS@[8] as int) * (INV_MDS@[72] as int));
    assert(((MDS@[0] as int) * (INV_MDS@[0] as int) + (MDS@[1] as int) * (INV_MDS@[9] as int) + (MDS@[2] as int) * (INV_MDS@[18] as int) + (MDS@[3] as int) * (INV_MDS@[27] as int) + (MDS@[4] as int) * (INV_MDS@[36] as int) + (MDS@[5] as int) * (INV_MDS@[45] as int) + (MDS@[6] as int) * (INV_MDS@[54] as int) + (MDS@[7] as int) * (INV_MDS@[63] as int) + (MDS@[8] as int) * (INV_MDS@[72] as int)) % 4611624995532046337 == 1) by (nonlinear_arith)
        requires
            MDS@[0] == 150094635296999121, MDS@[1] == 4386494480982775136, MDS@[2] == 84411075413992860, MDS@[3] == 4601889709531466597, MDS@[4] == 364572438704838, MDS@[5] == 4611620494637741339, MDS@[6] == 18318658140, MDS@[7] == 4611624995507837477, MDS@[8] == 9841, INV_MDS@[0] == 3535209814333908612, INV_MDS@[9] == 1855209548528077732, INV_MDS@[18] == 754377492363537555, INV_MDS@[27] == 743870189666828265, INV_MDS@[36] == 3574605258651933052, INV_MDS@[45] == 105602560538833690, INV_MDS@[54] == 2470160527543053102, INV_MDS@[63] == 1404066629609082371, INV_MDS@[72] == 1729798676117111118,
    ;
    assert(product_entry(MDS@, INV_MDS@, 9, 0, 1) == (MDS@[0] as int) * (INV_MDS@[1] as int) + (MDS@[1] as int) * (INV_MDS@[10] as int) + (MDS@[2] as int) * (INV_MDS@[19] as int) + (MDS@[3] as int) * (INV_MDS@[28] as int) + (MDS@[4] as int) * (INV_MDS@[37] as int) + (MDS@[5] as int) * (INV_MDS@[46] as int) + (MDS@[6] as int) * (INV_MDS@[55] as int) + (MDS@[7] as int) * (INV_MDS@[64] as int) + (MDS@[8] as int) * (INV_MDS@[73] as int));
    assert(((MDS@[0] as int) * (INV_MDS@[1] as int) + (MDS@[1] as int) * (INV_MDS@[10] as int) + (MDS@[2] as int) * (INV_MDS@[19] as int) + (MDS@[3] as int) * (INV_MDS@[28] as int) + (MDS@[4] as int) * (INV_MDS@[37] as int) + (MDS@[5] as int) * (INV_MDS@[46] as int) + (MDS@[6] as int) * (INV_MDS@[55] as int) + (MDS@[7] as int) * (INV_MDS@[64] as int) + (MDS@[8] as int) * (INV_MDS@[73] as int)) % 4611624995532046337 == 0) by (nonlinear_arith)
        requires
            MDS@[0] == 150094635296999121, MDS@[1] == 4386494480982775136, MDS@[2] == 84411075413992860, MDS@[3] == 4601889709531466597, MDS@[4] == 364572438704838, MDS@[5] == 4611620494637741339, MDS@[6] == 18318658140, MDS@[7] == 4611624995507837477, MDS@[8] == 9841, INV_MDS@[1] == 2192294647579404765, INV_MDS@[10] == 1472993453010258945, INV_MDS@[19] == 1274059338065041488, INV_MDS@[28] == 2360900441789594331, INV_MDS@[37] == 3776081033478750867, INV_MDS@[46] == 3377550819844293227, INV_MDS@[55] == 4596885798055676665, INV_MDS@[64] == 1041748211388490239, INV_MDS@[73] == 977196139524086241,
    ;
    assert(product_entry(MDS@, INV_MDS@, 9, 0, 2) == (MDS@[0] as int) * (INV_MDS@[2] as int) + (MDS@[1] as int) * (INV_MDS@[11] as int) + (MDS@[2] as int) * (INV_MDS@[20] as int) + (MDS@[3] as int) * (INV_MDS@[29] as int) + (MDS@[4] as int) * (INV_MDS@[38] as int) + (MDS@[5] as int) * (INV_MDS@[47] as int) + (MDS@[6] as int) * (INV_MDS@[56] as int) + (MDS@[7] as int) * (INV_MDS@[65] as int) + (MDS@[8] as int) * (INV_MDS@[74] as int));
    assert(((MDS@[0] as int) * (INV_MDS@[2] as int) + (MDS@[1] as int) * (INV_MDS@[11] as int) + (MDS@[2] as int) * (INV_MDS@[20] as int) + (MDS@[3] as int) * (INV_MDS@[29] as int) + (MDS@[4] as int) * (INV_MDS@[38] as int) + (MDS@[5] as int) * (INV_MDS@[47] as int) + (MDS@[6] as int) * (INV_MDS@[56] as int) + (MDS@[7] as int) * (INV_MDS@[65] as int) + (MDS@[8] as int) * (INV_MDS@[74] as int)) % 4611624995532046337 == 0) by (nonlinear_arith)
        requires
            MDS@[0] == 150094635296999121, MDS@[1] == 4386494480982775136, MDS@[2] == 84411075413992860, MDS@[3] == 4601889709531466597, MDS@[4] == 364572438704838, MDS@[5] == 4611620494637741339, MDS@[6] == 18318658140, MDS@[7] == 4611624995507837477, MDS@[8] == 9841, INV_MDS@[2] == 2247283712851777654, INV_MDS@[11] == 1795205275729888080, INV_MDS@[20] == 1711978099802673295, INV_MDS@[29] == 697008895183019540, INV_MDS@[38] == 4197195984439072521, INV_MDS@[47] == 2405537603155391432, INV_MDS@[56] == 1067306248085340780, INV_MDS@[65] == 4525166593910048957, INV_MDS@[74] == 4046373689597190438,
    ;
    assert(product_entry(MDS@, INV_MDS@, 9, 0, 3) == (MDS@[0] as int) * (INV_MDS@[3] as int) + (MDS@[1] as int) * (INV_MDS@[12] as int) + (MDS@[2] as int) * (INV_MDS@[21] as int) + (MDS@[3] as int) * (INV_MDS@[30] as int) + (MDS@[4] as int) * (INV_MDS@[39] as int) + (MDS@[5] as int) * (INV_MDS@[48] as int) + (MDS@[6] as int) * (INV_MDS@[57] as int) + (MDS@[7] as int) * (INV_MDS@[66] as int) + (MDS@[8] as int) * (INV_MDS@[75] as int));
    assert(((MDS@[0] as int) * (INV_MDS@[3] as int) + (MDS@[1] as int) * (INV_MDS@[12] as int) + (MDS@[2] as int) * (INV_MDS@[21] as int) + (MDS@[3] as int) * (INV_MDS@[30] as int) + (MDS@[4] as int) * (INV_MDS@[39] as int) + (MDS@[5] as int) * (INV_MDS@[48] as int) + (MDS@[6] as int) * (INV_MDS@[57] as int) + (MDS@[7] as int) * (INV_MDS@[66] as int) + (MDS@[8] as int) * (INV_MDS@[75] as int)) % 4611624995532046337 == 0) by (nonlinear_arith)
        requires
            MDS@[0] == 150094635296999121, MDS@[1] == 4386494480982775136, MDS@[2] == 84411075413992860, MDS@[3] == 4601889709531466597, MDS@[4] == 364572438704838, MDS@[5] == 4611620494637741339, MDS@[6] == 18318658140, MDS@[7] == 4611624995507837477, MDS@[8] == 9841, INV_MDS@[3] == 1016653726681019018, INV_MDS@[12] == 3589415998546501003, INV_MDS@[21] == 3853263153951502696, INV_MDS@[30] == 275384929271023918, INV_MDS@[39] == 2323160270091604467, INV_MDS@[48] == 4494434426780066202, INV_MDS@[57] == 681737992013306965, INV_MDS@[66] == 977282067546530790, INV_MDS@[75] == 2740698142978392711,
    ;
    assert(product_entry(MDS@, INV_MDS@, 9, 0, 4) == (MDS@[0] as int) * (INV_MDS@[4] as int) + (MDS@[1] as int) * (INV_MDS@[13] as int) + (MDS@[2] as int) * (INV_MDS@[22] as int) + (MDS@[3] as int) * (INV_MDS@[31] as int) + (MDS@[4] as int) * (INV_MDS@[40] as int) + (MDS@[5] as int) * (INV_MDS@[49] as int) + (MDS@[6] as int) * (INV_MDS@[58] as int) + (MDS@[7] as int) * (INV_MDS@[67] as int) + (MDS@[8] as int) * (INV_MDS@[76] as int));
    assert(((MDS@[0] as int) * (INV_MDS@[4] as int) + (MDS@[1] as int) * (INV_MDS@[13] as int) + (MDS@[2] as int) * (INV_MDS@[22] as int) + (MDS@[3] as int) * (INV_MDS@[31] as int) + (MDS@[4] as int) * (INV_MDS@[40] as int) + (MDS@[5] as int) * (INV_MDS@[49] as int) + (MDS@[6] as int) * (INV_MDS@[58] as int) + (MDS@[7] as int) * (INV_MDS@[67] as int) + (MDS@[8] as int) * (INV_MDS@[76] as int)) % 4611624995532046337 == 0) by (nonlinear_arith)
        requires
            MDS@[0] == 150094635296999121, MDS@[1] == 4386494480982775136, MDS@[2] == 84411075413992860, MDS@[3] == 4601889709531466597, MDS@[4] == 364572438704838, MDS@[5] == 4611620494637741339, MDS@[6] == 18318658140, MDS@[7] == 4611624995507837477, MDS@[8] == 9841, INV_MDS@[4] == 4084320113214072343, INV_MDS@[13] == 3294978760228179936, INV_MDS@[22] == 1022446755313492063, INV_MDS@[31] == 4322677085037880573, INV_MDS@[40] == 2968178383345228859, INV_MDS@[49] == 3399461679221988058, INV_MDS@[58] == 1520629548906454474, INV_MDS@[67] == 4499663276559992087, INV_MDS@[76] == 478566997738395362,
    ;
    assert(product_entry(MDS@, INV_MDS@, 9, 0, 5) == (MDS@[0] as int) * (INV_MDS@[5] as int) + (MDS@[1] as int) * (INV_MDS@[14] as int) + (MDS@[2] as int) * (INV_MDS@[23] as int) + (MDS@[3] as int) * (INV_MDS@[32] as int) + (MDS@[4] as int) * (INV_MDS@[41] as int) + (MDS@[5] as int) * (INV_MDS@[50] as int) + (MDS@[6] as int) * (INV_MDS@[59] as int) + (MDS@[7] as int) * (INV_MDS@[68] as int) + (MDS@[8] as int) * (INV_MDS@[77] as int));
    assert(((MDS@[0] as int) * (INV_MDS@[5] as int) + (MDS@[1] as int) * (INV_MDS@[14] as int) + (MDS@[2] as int) * (INV_MDS@[23] as int) + (MDS@[3] as int) * (INV_MDS@[32] as int) + (MDS@[4] as int) * (INV_MDS@[41] as int) + (MDS@[5] as int) * (INV_MDS@[50] as int) + (MDS@[6] as int) * (INV_MDS@[59] as int) + (MDS@[7] as int) * (INV_MDS@[68] as int) + (MDS@[8] as int) * (INV_MDS@[77] as int)) % 4611624995532046337 == 0) by (nonlinear_arith)
        requires
            MDS@[0] == 150094635296999121, MDS@[1] == 4386494480982775136, MDS@[2] == 84411075413992860, MDS@[3] == 4601889709531466597, MDS@[4] == 364572438704838, MDS@[5] == 4611620494637741339, MDS@[6] == 18318658140, MDS@[7] == 4611624995507837477, MDS@[8] == 9841, INV_MDS@[5] == 677515556938913667, INV_MDS@[14] == 1778846966858158585, INV_MDS@[23] == 2814266961258360083, INV_MDS@[32] == 1358253373117268608, INV_MDS@[41] == 3207693524924509149, INV_MDS@[50] == 3410359846988759564, INV_MDS@[59] == 4404047232332091755, INV_MDS@[68] == 3124570284534635445, INV_MDS@[77] == 1317536305202134563,
    ;
    assert(product_entry(MDS@, INV_MDS@, 9, 0, 6) == (MDS@[0] as int) * (INV_MDS@[6] as int) + (MDS@[1] as int) * (INV_MDS@[15] as int) + (MDS@[2] as int) * (INV_MDS@[24] as int) + (MDS@[3] as int) * (INV_MDS@[33] as int) + (MDS@[4] as int) * (INV_MDS@[42] as int) + (MDS@[5] as int) * (INV_MDS@[51] as int) + (MDS@[6] as int) * (INV_MDS@[60] as int) + (MDS@[7] as int) * (INV_MDS@[69] as int) + (MDS@[8] as int) * (INV_MDS@[78] as int));
    assert(((MDS@[0] as int) * (INV_MDS@[6] as int) + (MDS@[1] as int) * (INV_MDS@[15] as int) + (MDS@[2] as int) * (INV_MDS@[24] as int) + (MDS@[3] as int) * (INV_MDS@[33] as int) + (MDS@[4] as int) * (INV_MDS@[42] as int) + (MDS@[5] as int) * (INV_MDS@[51] as int) + (MDS@[6] as int) * (INV_MDS@[60] as int) + (MDS@[7] as int) * (INV_MDS@[69] as int) + (MDS@[8] as int) * (INV_MDS@[78] as int)) % 4611624995532046337 == 0) by (nonlinear_arith)
        requires
            MDS@[0] == 150094635296999121, MDS@[1] == 4386494480982775136, MDS@[2] == 84411075413992860, MDS@[3] == 4601889709531466597, MDS@[4] == 364572438704838, MDS@[5] == 4611620494637741339, MDS@[6] == 18318658140, MDS@[7] == 4611624995507837477, MDS@[8] == 9841, INV_MDS@[6] == 2421791421881488327, INV_MDS@[15] == 3997809095230362131, INV_MDS@[24] == 2869424750903044655, INV_MDS@[33] == 2976193419717151400, INV_MDS@[42] == 3189047413106611221, INV_MDS@[51] == 1139390336191412558, INV_MDS@[60] == 2694913477905427615, INV_MDS@[69] == 2912864986169238494, INV_MDS@[78] == 3484754205530568350,
    ;
    assert(product_entry(MDS@, INV_MDS@, 9, 0, 7) == (MDS@[0] as int) * (INV_MDS@[7] as int) + (MDS@[1] as int) * (INV_MDS@[16] as int) + (MDS@[2] as int) * (INV_MDS@[25] as int) + (MDS@[3] as int) * (INV_MDS@[34] as int) + (MDS@[4] as int) * (INV_MDS@[43] as int) + (MDS@[5] as int) * (INV_MDS@[52] as int) + (MDS@[6] as int) * (INV_MDS@[61] as int) + (MDS@[7] as int) * (INV_MDS@[70] as int) + (MDS@[8] as int) * (INV_MDS@[79] as int));
    assert(((MDS@[0] as int) * (INV_MDS@[7] as int) + (MDS@[1] as int) * (INV_MDS@[16] as int) + (MDS@[2] as int) * (INV_MDS@[25] as int) + (MDS@[3] as int) * (INV_MDS@[34] as int) + (MDS@[4] as int) * (INV_MDS@[43] as int) + (MDS@[5] as int) * (INV_MDS@[52] as int) + (MDS@[6] as int) * (INV_MDS@[61] as int) + (MDS@[7] as int) * (INV_MDS@[70] as int) + (MDS@[8] as int) * (INV_MDS@[79] as int)) % 4611624995532046337 == 0) by (nonlinear_arith)
        requires
            MDS@[0] == 150094635296999121, MDS@[1] == 4386494480982775136, MDS@[2] == 84411075413992860, MDS@[3] == 4601889709531466597, MDS@[4] == 364572438704838, MDS@[5] == 4611620494637741339, MDS@[6] == 18318658140, MDS@[7] == 4611624995507837477, MDS@[8] == 9841, INV_MDS@[7] == 3644426067838966381, INV_MDS@[16] == 1212577225021150021, INV_MDS@[25] == 2102868476327595162, INV_MDS@[34] == 1722984966615577177, INV_MDS@[43] == 3494615199478891974, INV_MDS@[52] == 527098797354794496, INV_MDS@[61] == 1346140786108729998, INV_MDS@[70] == 1203274577166891218, INV_MDS@[79] == 917159143741939893,
    ;
    assert(product_entry(MDS@, INV_MDS@, 9, 0, 8) == (MDS@[0] as int) * (INV_MDS@[8] as int) + (MDS@[1] as int) * (INV_MDS@[17] as int) + (MDS@[2] as int) * (INV_MDS@[26] as int) + (MDS@[3] as int) * (INV_MDS@[35] as int) + (MDS@[4] as int) * (INV_MDS@[44] as int) + (MDS@[5] as int) * (INV_MDS@[53] as int) + (MDS@[6] as int) * (INV_MDS@[62] as int) + (MDS@[7] as int) * (INV_MDS@[71] as int) + (MDS@[8] as int) * (INV_MDS@[80] as int));
    assert(((MDS@[0] as int) * (INV_MDS@[8] as int) + (MDS@[1] as int) * (INV_MDS@[17] as int) + (MDS@[2] as int) * (INV_MDS@[26] as int) + (MDS@[3] as int) * (INV_MDS@[35] as int) + (MDS@[4] as int) * (INV_MDS@[44] as int) + (MDS@[5] as int) * (INV_MDS@[53] as int) + (MDS@[6] as int) * (INV_MDS@[62] as int) + (MDS@[7] as int) * (INV_MDS@[71] as int) + (MDS@[8] as int) * (INV_MDS@[80] as int)) % 4611624995532046337 == 0) by (nonlinear_arith)
        requires
            MDS@[0] == 150094635296999121, MDS@[1] == 4386494480982775136, MDS@[2] == 84411075413992860, MDS@[3] == 4601889709531466597, MDS@[4] == 364572438704838, MDS@[5] == 4611620494637741339, MDS@[6] == 18318658140, MDS@[7] == 4611624995507837477, MDS@[8] == 9841, INV_MDS@[8] == 3238629916340680919, INV_MDS@[17] == 4061088654507655253, INV_MDS@[26] == 2043814954142938352, INV_MDS@[35] == 3989226681729841537, INV_MDS@[44] == 939172905675675913, INV_MDS@[53] == 4198688907584692459, INV_MDS@[62] == 4276303366710150332, INV_MDS@[71] == 3369488350775322085, INV_MDS@[80] == 2754416681698366673,
    ;
}

proof fn lemma_product_forward_row_1()
    ensures
        identity_row(Elem::modulus(), MDS@, INV_MDS@, 9, 1, 9),
{
    reveal_with_fuel(sum, 10);
    reveal_with_fuel(identity_row, 10);
    assert(product_entry(MDS@, INV_MDS@, 9, 1, 0) == (MDS@[9] as int) * (INV_MDS@[0] as int) + (MDS@[10] as int) * (INV_MDS@[9] as int) + (MDS@[11] as int) * (INV_MDS@[18] as int) + (MDS@[12] as int) * (INV_MDS@[27] as int) + (MDS@[13] as int) * (INV_MDS@[36] as int) + (MDS@[14] as int) * (INV_MDS@[45] as int) + (MDS@[15] as int) * (INV_MDS@[54] as int) + (MDS@[16] as int) * (INV_MDS@[63] as int) + (MDS@[17] as int) * (INV_MDS@[72] as int));
    assert(((MDS@[9] as int) * (INV_MDS@[0] as int) + (MDS@[10] as int) * (INV_MDS@[9] as int) + (MDS@[11] as int) * (INV_MDS@[18] as int) + (MDS@[12] as int) * (INV_MDS@[27] as int) + (MDS@[13] as int) * (INV_MDS@[36] as int) + (MDS@[14] as int) * (INV_MDS@[45] as int) + (MDS@[15] as int) * (INV_MDS@[54] as int) + (MDS@[16] as int) * (INV_MDS@[63] as int) + (MDS@[17] as int) * (INV_MDS@[72] as int)) % 4611624995532046337 == 0) by (nonlinear_arith)
        requires
            MDS@[9] == 1361307387513521921, MDS@[10] == 2832323806833398177, MDS@[11] == 371763438786123399, MDS@[12] == 1123586449881744597, MDS@[13] == 3578022083293731018, MDS@[14] == 4567696267115265857, MDS@[15] == 175773020450742, MDS@[16] == 4611624775611313217, MDS@[17] == 72636421, INV_MDS@[0] == 3535209814333908612, INV_MDS@[9] == 1855209548528077732, INV_MDS@[18] == 754377492363537555, INV_MDS@[27] == 743870189666828265, INV_MDS@[36] == 3574605258651933052, INV_MDS@[45] == 105602560538833690, INV_MDS@[54] == 2470160527543053102, INV_MDS@[63] == 1404066629609082371, INV_MDS@[72] == 1729798676117111118,
    ;
    assert(product_entry(MDS@, INV_MDS@, 9, 1, 1) == (MDS@[9] as int) * (INV_MDS@[1] as int) + (MDS@[10] as int) * (INV_MDS@[10] as int) + (MDS@[11] as int) * (INV_MDS@[19] as int) + (MDS@[12] as int) * (INV_MDS@[28] as int) + (MDS@[13] as int) * (INV_MDS@[37] as int) + (MDS@[14] as int) * (INV_MDS@[46] as int) + (MDS@[15] as int) * (INV_MDS@[55] as int) + (MDS@[16] as int) * (INV_MDS@[64] as int) + (MDS@[17] as int) * (INV_MDS@[73] as int));
    assert(((MDS@[9] as int) * (INV_MDS@[1] as int) + (MDS@[10] as int) * (INV_MDS@[10] as int) + (MDS@[11] as int) * (INV_MDS@[19] as int) + (MDS@[12] as int) * (INV_MDS@[28] as int) + (MDS@[13] as int) * (INV_MDS@[37] as int) + (MDS@[14] as int) * (INV_MDS@[46] as int) + (MDS@[15] as int) * (INV_MDS@[55] as int) + (MDS@[16] as int) * (INV_MDS@[64] as int) + (MDS@[17] as int) * (INV_MDS@[73] as int)) % 4611624995532046337 == 1) by (nonlinear_arith)
        requires
            MDS@[9] == 1361307387513521921, MDS@[10] == 2832323806833398177, MDS@[11] == 371763438786123399, MDS@[12] == 1123586449881744597, MDS@[13] == 3578022083293731018, MDS@[14] == 4567696267115265857, MDS@[15] == 175773020450742, MDS@[16] == 4611624775611313217, MDS@[17] == 72636421, INV_MDS@[1] == 2192294647579404765, INV_MDS@[10] == 1472993453010258945, INV_MDS@[19] == 1274059338065041488, INV_MDS@[28] == 2360900441789594331, INV_MDS@[37] == 3776081033478750867, INV_MDS@[46] == 3377550819844293227, INV_MDS@[55] == 4596885798055676665, INV_MDS@[64] == 1041748211388490239, INV_MDS@[73] == 977196139524086241,
    ;
    assert(product_entry(MDS@, INV_MDS@, 9, 1, 2) == (MDS@[9] as int) * (INV_MDS@[2] as int) + (MDS@[10] as int) * (INV_MDS@[11] as int) + (MDS@[11] as int) * (INV_MDS@[20] as int) + (MDS@[12] as int) * (INV_MDS@[29] as int) + (MDS@[13] as int) * (INV_MDS@[38] as int) + (MDS@[14] as int) * (INV_MDS@[47] as int) + (MDS@[15] as int) * (INV_MDS@[56] as int) + (MDS@[16] as int) * (INV_MDS@[65] as int) + (MDS@[17] as int) * (INV_MDS@[74] as int));
    assert(((MDS@[9] as int) * (INV_MDS@[2] as int) + (MDS@[10] as int) * (INV_MDS@[11] as int) + (MDS@[11] as int) * (INV_MDS@[20] as int) + (MDS@[12] as int) * (INV_MDS@[29] as int) + (MDS@[13] as int) * (INV_MDS@[38] as int) + (MDS@[14] as int) * (INV_MDS@[47] as int) + (MDS@[15] as int) * (INV_MDS@[56] as int) + (MDS@[16] as int) * (INV_MDS@[65] as int) + (MDS@[17] as int) * (INV_MDS@[74] as int)) % 4611624995532046337 == 0) by (nonlinear_arith)
        requires
            MDS@[9] == 1361307387513521921, MDS@[10] == 2832323806833398177, MDS@[11] == 371763438786123399, MDS@[12] == 1123586449881744597, MDS@[13] == 3578022083293731018, MDS@[14] == 4567696267115265857, MDS@[15] == 175773020450742, MDS@[16] == 4611624775611313217, MDS@[17] == 72636421, INV_MDS@[2] == 2247283712851777654, INV_MDS@[11] == 1795205275729888080, INV_MDS@[20] == 1711978099802673295, INV_MDS@[29] == 697008895183019540, INV_MDS@[38] == 4197195984439072521, INV_MDS@[47] == 2405537603155391432, INV_MDS@[56] == 1067306248085340780, INV_MDS@[65] == 4525166593910048957, INV_MDS@[74] == 4046373689597190438,
    ;
    assert(product_entry(MDS@, INV_MDS@, 9, 1, 3) == (MDS@[9] as int) * (INV_MDS@[3] as int) + (MDS@[10] as int) * (INV_MDS@[12] as int) + (MDS@[11] as int) * (INV_MDS@[21] as int) + (MDS@[12] as int) * (INV_MDS@[30] as int) + (MDS@[13] as int) * (INV_MDS@[39] as int) + (MDS@[14] as int) * (INV_MDS@[48] as int) + (MDS@[15] as int) * (INV_MDS@[57] as int) + (MDS@[16] as int) * (INV_MDS@[66] as int) + (MDS@[17] as int) * (INV_MDS@[75] as int));
    assert(((MDS@[9] as int) * (INV_MDS@[3] as int) + (MDS@[10] as int) * (INV_MDS@[12] as int) + (MDS@[11] as int) * (INV_MDS@[21] as int) + (MDS@[12] as int) * (INV_MDS@[30] as int) + (MDS@[13] as int) * (INV_MDS@[39] as int) + (MDS@[14] as int) * (INV_MDS@[48] as int) + (MDS@[15] as int) * (INV_MDS@[57] as int) + (MDS@[16] as int) * (INV_MDS@[66] as int) + (MDS@[17] as int) * (INV_MDS@[75] as int)) % 4611624995532046337 == 0) by (nonlinear_arith)
        requires
            MDS@[9] == 1361307387513521921, MDS@[10] == 2832323806833398177, MDS@[11] == 371763438786123399, MDS@[12] == 1123586449881744597, MDS@[13] == 3578022083293731018, MDS@[14] == 4567696267115265857, MDS@[15] == 175773020450742, MDS@[16] == 4611624775611313217, MDS@[17] == 72636421, INV_MDS@[3] == 1016653726681019018, INV_MDS@[12] == 3589415998546501003, INV_MDS@[21] == 3853263153951502696, INV_MDS@[30] == 275384929271023918, INV_MDS@[39] == 2323160270091604467, INV_MDS@[48] == 4494434426780066202, INV_MDS@[57] == 681737992013306965, INV_MDS@[66] == 977282067546530790, INV_MDS@[75] == 2740698142978392711,
    ;
    assert(product_entry(MDS@, INV_MDS@, 9, 1, 4) == (MDS@[9] as int) * (INV_MDS@[4] as int) + (MDS@[10] as int) * (INV_MDS@[13] as int) + (MDS@[11] as int) * (INV_MDS@[22] as int) + (MDS@[12] as int) * (INV_MDS@[31] as int) + (MDS@[13] as int) * (INV_MDS@[40] as int) + (MDS@[14] as int) * (INV_MDS@[49] as int) + (MDS@[15] as int) * (INV_MDS@[58] as int) + (MDS@[16] as int) * (INV_MDS@[67] as int) + (MDS@[17] as int) * (INV_MDS@[76] as int));
    assert(((MDS@[9] as int) * (INV_MDS@[4] as int) + (MDS@[10] as int) * (INV_MDS@[13] as int) + (MDS@[11] as int) * (INV_MDS@[22] as int) + (MDS@[12] as int) * (INV_MDS@[31] as int) + (MDS@[13] as int) * (INV_MDS@[40] as int) + (MDS@[14] as int) * (INV_MDS@[49] as int) + (MDS@[15] as int) * (INV_MDS@[58] as int) + (MDS@[16] as int) * (INV_MDS@[67] as int) + (MDS@[17] as int) * (INV_MDS@[76] as int)) % 4611624995532046337 == 0) by (nonlinear_arith)
        requires
            MDS@[9] == 1361307387513521921, MDS@[10] == 2832323806833398177, MDS@[11] == 371763438786123399, MDS@[12] == 1123586449881744597, MDS@[13] == 3578022083293731018, MDS@[14] == 4567696267115265857, MDS@[15] == 175773020450742, MDS@[16] == 4611624775611313217, MDS@[17] == 72636421, INV_MDS@[4] == 4084320113214072343, INV_MDS@[13] == 3294978760228179936, INV_MDS@[22] == 1022446755313492063, INV_MDS@[31] == 4322677085037880573, INV_MDS@[40] == 2968178383345228859, INV_MDS@[49] == 3399461679221988058, INV_MDS@[58] == 1520629548906454474, INV_MDS@[67] == 4499663276559992087, INV_MDS@[76] == 478566997738395362,
    ;
    assert(product_entry(MDS@, INV_MDS@, 9, 1, 5) == (MDS@[9] as int) * (INV_MDS@[5] as int) + (MDS@[10] as int) * (INV_MDS@[14] as int) + (MDS@[11] as int) * (INV_MDS@[23] as int) + (MDS@[12] as int) * (INV_MDS@[32] as int) + (MDS@[13] as int) * (INV_MDS@[41] as int) + (MDS@[14] as int) * (INV_MDS@[50] as int) + (MDS@[15] as int) * (INV_MDS@[59] as int) + (MDS@[16] as int) * (INV_MDS@[68] as int) + (MDS@[17] as int) * (INV_MDS@[77] as int));
    assert(((MDS@[9] as int) * (INV_MDS@[5] as int) + (MDS@[10] as int) * (INV_MDS@[14] as int) + (MDS@[11] as int) * (INV_MDS@[23] as int) + (MDS@[12] as int) * (INV_MDS@[32] as int) + (MDS@[13] as int) * (INV_MDS@[41] as int) + (MDS@[14] as int) * (INV_MDS@[50] as int) + (MDS@[15] as int) * (INV_MDS@[59] as int) + (MDS@[16] as int) * (INV_MDS@[68] as int) + (MDS@[17] as int) * (INV_MDS@[77] as int)) % 4611624995532046337 == 0) by (nonlinear_arith)
        requires
            MDS@[9] == 1361307387513521921, MDS@[10] == 2832323806833398177, MDS@[11] == 371763438786123399, MDS@[12] == 1123586449881744597, MDS@[13] == 3578022083293731018, MDS@[14] == 4567696267115265857, MDS@[15] == 175773020450742, MDS@[16] == 4611624775611313217, MDS@[17] == 72636421, INV_MDS@[5] == 677515556938913667, INV_MDS@[14] == 1778846966858158585, INV_MDS@[23] == 2814266961258360083, INV_MDS@[32] == 1358253373117268608, INV_MDS@[41] == 3207693524924509149, INV_MDS@[50] == 3410359846988759564, INV_MDS@[59] == 4404047232332091755, INV_MDS@[68] == 3124570284534635445, INV_MDS@[77] == 1317536305202134563,
    ;
    assert(product_entry(MDS@, INV_MDS@, 9, 1, 6) == (MDS@[9] as int) * (INV_MDS@[6] as int) + (MDS@[10] as int) * (INV_MDS@[15] as int) + (MDS@[11] as int) * (INV_MDS@[24] as int) + (MDS@[12] as int) * (INV_MDS@[33] as int) + (MDS@[13] as int) * (INV_MDS@[42] as int) + (MDS@[14] as int) * (INV_MDS@[51] as int) + (MDS@[15] as int) * (INV_MDS@[60] as int) + (MDS@[16] as int) * (INV_MDS@[69] as int) + (MDS@[17] as int) * (INV_MDS@[78] as int));
    assert(((MDS@[9] as int) * (INV_MDS@[6] as int) + (MDS@[10] as int) * (INV_MDS@[15] as int) + (MDS@[11] as int) * (INV_MDS@[24] as int) + (MDS@[12] as int) * (INV_MDS@[33] as int) + (MDS@[13] as int) * (INV_MDS@[42] as int) + (MDS@[14] as int) * (INV_MDS@[51] as int) + (MDS@[15] as int) * (INV_MDS@[60] as int) + (MDS@[16] as int) * (INV_MDS@[69] as int) + (MDS@[17] as int) * (INV_MDS@[78] as int)) % 4611624995532046337 == 0) by (nonlinear_arith)
        requires
            MDS@[9] == 1361307387513521921, MDS@[10] == 2832323806833398177, MDS@[11] == 371763438786123399, MDS@[12] == 1123586449881744597, MDS@[13] == 3578022083293731018, MDS@[14] == 4567696267115265857, MDS@[15] == 175773020450742, MDS@[16] == 4611624775611313217, MDS@[17] == 72636421, INV_MDS@[6] == 2421791421881488327, INV_MDS@[15] == 3997809095230362131, INV_MDS@[24] == 2869424750903044655, INV_MDS@[33] == 2976193419717151400, INV_MDS@[42] == 3189047413106611221, INV_MDS@[51] == 1139390336191412558, INV_MDS@[60] == 2694913477905427615, INV_MDS@[69] == 2912864986169238494, INV_MDS@[78] == 3484754205530568350,
    ;
    assert(product_entry(MDS@, INV_MDS@, 9, 1, 7) == (MDS@[9] as int) * (INV_MDS@[7] as int) + (MDS@[10] as int) * (INV_MDS@[16] as int) + (MDS@[11] as int) * (INV_MDS@[25] as int) + (MDS@[12] as int) * (INV_MDS@[34] as int) + (MDS@[13] as int) * (INV_MDS@[43] as int) + (MDS@[14] as int) * (INV_MDS@[52] as int) + (MDS@[15] as int) * (INV_MDS@[61] as int) + (MDS@[16] as int) * (INV_MDS@[70] as int) + (MDS@[17] as int) * (INV_MDS@[79] as int));
    assert(((MDS@[9] as int) * (INV_MDS@[7] as int) + (MDS@[10] as int) * (INV_MDS@[16] as int) + (MDS@[11] as int) * (INV_MDS@[25] as int) + (MDS@[12] as int) * (INV_MDS@[34] as int) + (MDS@[13] as int) * (INV_MDS@[43] as int) + (MDS@[14] as int) * (INV_MDS@[52] as int) + (MDS@[15] as int) * (INV_MDS@[61] as int) + (MDS@[16] as int) * (INV_MDS@[70] as int) + (MDS@[17] as int) * (INV_MDS@[79] as int)) % 4611624995532046337 == 0) by (nonlinear_arith)
        requires
            MDS@[9] == 1361307387513521921, MDS@[10] == 2832323806833398177, MDS@[11] == 371763438786123399, MDS@[12] == 1123586449881744597, MDS@[13] == 3578022083293731018, MDS@[14] == 4567696267115265857, MDS@[15] == 175773020450742, MDS@[16] == 4611624775611313217, MDS@[17] == 72636421, INV_MDS@[7] == 3644426067838966381, INV_MDS@[16] == 1212577225021150021, INV_MDS@[25] == 2102868476327595162, INV_MDS@[34] == 1722984966615577177, INV_MDS@[43] == 3494615199478891974, INV_MDS@[52] == 527098797354794496, INV_MDS@[61] == 1346140786108729998, INV_MDS@[70] == 1203274577166891218, INV_MDS@[79] == 917159143741939893,
    ;
    assert(product_entry(MDS@, INV_MDS@, 9, 1, 8) == (MDS@[9] as int) * (INV_MDS@[8] as int) + (MDS@[10] as int) * (INV_MDS@[17] as int) + (MDS@[11] as int) * (INV_MDS@[26] as int) + (MDS@[12] as int) * (INV_MDS@[35] as int) + (MDS@[13] as int) * (INV_MDS@[44] as int) + (MDS@[14] as int) * (INV_MDS@[53] as int) + (MDS@[15] as int) * (INV_MDS@[62] as int) + (MDS@[16] as int) * (INV_MDS@[71] as int) + (MDS@[17] as int) * (INV_MDS@[80] as int));
    assert(((MDS@[9] as int) * (INV_MDS@[8] as int) + (MDS@[10] as int) * (INV_MDS@[17] as int) + (MDS@[11] as int) * (INV_MDS@[26] as int) + (MDS@[12] as int) * (INV_MDS@[35] as int) + (MDS@[13] as int) * (INV_MDS@[44] as int) + (MDS@[14] as int) * (INV_MDS@[53] as int) + (MDS@[15] as int) * (INV_MDS@[62] as int) + (MDS@[16] as int) * (INV_MDS@[71] as int) + (MDS@[17] as int) * (INV_MDS@[80] as int)) % 4611624995532046337 == 0) by (nonlinear_arith)
        requires
            MDS@[9] == 1361307387513521921, MDS@[10] == 2832323806833398177, MDS@[11] == 371763438786123399, MDS@[12] == 1123586449881744597, MDS@[13] == 3578022083293731018, MDS@[14] == 4567696267115265857, MDS@[15] == 175773020450742, MDS@[16] == 4611624775611313217, MDS@[17] == 72636421, INV_MDS@[8] == 3238629916340680919, INV_MDS@[17] == 4061088654507655253, INV_MDS@[26] == 2043814954142938352, INV_MDS@[35] == 3989226681729841537, INV_MDS@[44] == 939172905675675913, INV_MDS@[53] == 4198688907584692459, INV_MDS@[62] == 4276303366710150332, INV_MDS@[71] == 3369488350775322085, INV_MDS@[80] == 2754416681698366673,
    ;
}

proof fn lemma_product_forward_row_2()
    ensures
        identity_row(Elem::modulus(), MDS@, INV_MDS@, 9, 2, 9),
{
    reveal_with_fuel(sum, 10);
    reveal_with_fuel(identity_row, 10);
    assert(product_entry(MDS@, INV_MDS@, 9, 2, 0) == (MDS@[18] as int) * (INV_MDS@[0] as int) + (MDS@[19] as int) * (INV_MDS@[9] as int) + (MDS@[20] as int) * (INV_MDS@[18] as int) + (MDS@[21] as int) * (INV_MDS@[27] as int) + (MDS@[22] as int) * (INV_MDS@[36] as int) + (MDS@[23] as int) * (INV_MDS@[45] as int) + (MDS@[24] as int) * (INV_MDS@[54] as int) + (MDS@[25] as int) * (INV_MDS@[63] as int) + (MDS@[26] as int) * (INV_MDS@[72] as int));
    assert(((MDS@[18] as int) * (INV_MDS@[0] as int) + (MDS@[19] as int) * (INV_MDS@[9] as int) + (MDS@[20] as int) * (INV_MDS@[18] as int) + (MDS@[21] as int) * (INV_MDS@[27] as int) + (MDS@[22] as int) * (INV_MDS@[36] as int) + (MDS@[23] as int) * (INV_MDS@[45] as int) + (MDS@[24] as int) * (INV_MDS@[54] as int) + (MDS@[25] as int) * (INV_MDS@[63] as int) + (MDS@[26] as int) * (INV_MDS@[72] as int)) % 4611624995532046337 == 0) by (nonlinear_arith)
        requires
            MDS@[18] == 3690586968508376915, MDS@[19] == 1188716678600029516, MDS@[20] == 4404722642276688942, MDS@[21] == 1392834815468635765, MDS@[22] == 2410004866179382341, MDS@[23] == 4074543151731888787, MDS@[24] == 1286673036395336460, MDS@[25] == 4610042323605607019, MDS@[26] == 494894285941, INV_MDS@[0] == 3535209814333908612, INV_MDS@[9] == 1855209548528077732, INV_MDS@[18] == 754377492363537555, INV_MDS@[27] == 743870189666828265, INV_MDS@[36] == 3574605258651933052, INV_MDS@[45] == 105602560538833690, INV_MDS@[54] == 2470160527543053102, INV_MDS@[63] == 1404066629609082371, INV_MDS@[72] == 1729798676117111118,
    ;
    assert(product_entry(MDS@, INV_MDS@, 9, 2, 1) == (MDS@[18] as int) * (INV_MDS@[1] as int) + (MDS@[19] as int) * (INV_MDS@[10] as int) + (MDS@[20] as int) * (INV_MDS@[19] as int) + (MDS@[21] as int) * (INV_MDS@[28] as int) + (MDS@[22] as int) * (INV_MDS@[37] as int) + (MDS@[23] as int) * (INV_MDS@[46] as int) + (MDS@[24] as int) * (INV_MDS@[55] as int) + (MDS@[25] as int) * (INV_MDS@[64] as int) + (MDS@[26] as int) * (INV_MDS@[73] as int));
    assert(((MDS@[18] as int) * (INV_MDS@[1] as int) + (MDS@[19] as int) * (INV_MDS@[10] as int) + (MDS@[20] as int) * (INV_MDS@[19] as int) + (MDS@[21] as int) * (INV_MDS@[28] as int) + (MDS@[22] as int) * (INV_MDS@[37] as int) + (MDS@[23] as int) * (INV_MDS@[46] as int) + (MDS@[24] as int) * (INV_MDS@[55] as int) + (MDS@[25] as int) * (INV_MDS@[64] as int) + (MDS@[26] as int) * (INV_MDS@[73] as int)) % 4611624995532046337 == 0) by (nonlinear_arith)
        requires
            MDS@[18] == 3690586968508376915, MDS@[19] == 1188716678600029516, MDS@[20] == 4404722642276688942, MDS@[21] == 1392834815468635765, MDS@[22] == 2410004866179382341, MDS@[23] == 4074543151731888787, MDS@[24] == 1286673036395336460, MDS@[25] == 4610042323605607019, MDS@[26] == 494894285941, INV_MDS@[1] == 2192294647579404765, INV_MDS@[10] == 1472993453010258945, INV_MDS@[19] == 1274059338065041488, INV_MDS@[28] == 2360900441789594331, INV_MDS@[37] == 3776081033478750867, INV_MDS@[46] == 3377550819844293227, INV_MDS@[55] == 4596885798055676665, INV_MDS@[64] == 1041748211388490239, INV_MDS@[73] == 977196139524086241,
    ;
    assert(product_entry(MDS@, INV_MDS@, 9, 2, 2) == (MDS@[18] as int) * (INV_MDS@[2] as int) + (MDS@[19] as int) * (INV_MDS@[11] as int) + (MDS@[20] as int) * (INV_MDS@[20] as int) + (MDS@[21] as int) * (INV_MDS@[29] as int) + (MDS@[22] as int) * (INV_MDS@[38] as int) + (MDS@[23] as int) * (INV_MDS@[47] as int) + (MDS@[24] as int) * (INV_MDS@[56] as int) + (MDS@[25] as int) * (INV_MDS@[65] as int) + (MDS@[26] as int) * (INV_MDS@[74] as int));
    assert(((MDS@[18] as int) * (INV_MDS@[2] as int) + (MDS@[19] as int) * (INV_MDS@[11] as int) + (MDS@[20] as int) * (INV_MDS@[20] as int) + (MDS@[21] as int) * (INV_MDS@[29] as int) + (MDS@[22] as int) * (INV_MDS@[38] as int) + (MDS@[23] as int) * (INV_MDS@[47] as int) + (MDS@[24] as int) * (INV_MDS@[56] as int) + (MDS@[25] as int) * (INV_MDS@[65] as int) + (MDS@[26] as int) * (INV_MDS@[74] as int)) % 4611624995532046337 == 1) by (nonlinear_arith)
        requires
            MDS@[18] == 3690586968508376915, MDS@[19] == 1188716678600029516, MDS@[20] == 4404722642276688942, MDS@[21] == 1392834815468635765, MDS@[22] == 2410004866179382341, MDS@[23] == 4074543151731888787, MDS@[24] == 1286673036395336460, MDS@[25] == 4610042323605607019, MDS@[26] == 494894285941, INV_MDS@[2] == 2247283712851777654, INV_MDS@[11] == 1795205275729888080, INV_MDS@[20] == 1711978099802673295, INV_MDS@[29] == 697008895183019540, INV_MDS@[38] == 4197195984439072521, INV_MDS@[47] == 2405537603155391432, INV_MDS@[56] == 1067306248085340780, INV_MDS@[65] == 4525166593910048957, INV_MDS@[74] == 4046373689597190438,
    ;
    assert(product_entry(MDS@, INV_MDS@, 9, 2, 3) == (MDS@[18] as int) * (INV_MDS@[3] as int) + (MDS@[19] as int) * (INV_MDS@[12] as int) + (MDS@[20] as int) * (INV_MDS@[21] as int) + (MDS@[21] as int) * (INV_MDS@[30] as int) + (MDS@[22] as int) * (INV_MDS@[39] as int) + (MDS@[23] as int) * (INV_MDS@[48] as int) + (MDS@[24] as int) * (INV_MDS@[57] as int) + (MDS@[25] as int) * (INV_MDS@[66] as int) + (MDS@[26] as int) * (INV_MDS@[75] as int));
    assert(((MDS@[18] as int) * (INV_MDS@[3] as int) + (MDS@[19] as int) * (INV_MDS@[12] as int) + (MDS@[20] as int) * (INV_MDS@[21] as int) + (MDS@[21] as int) * (INV_MDS@[30] as int) + (MDS@[22] as int) * (INV_MDS@[39] as int) + (MDS@[23] as int) * (INV_MDS@[48] as int) + (MDS@[24] as int) * (INV_MDS@[57] as int) + (MDS@[25] as int) * (INV_MDS@[66] as int) + (MDS@[26] as int) * (INV_MDS@[75] as int)) % 4611624995532046337 == 0) by (nonlinear_arith)
        requires
            MDS@[18] == 3690586968508376915, MDS@[19] == 1188716678600029516, MDS@[20] == 4404722642276688942, MDS@[21] == 1392834815468635765, MDS@[22] == 2410004866179382341, MDS@[23] == 4074543151731888787, MDS@[24] == 1286673036395336460, MDS@[25] == 4610042323605607019, MDS@[26] == 494894285941, INV_MDS@[3] == 1016653726681019018, INV_MDS@[12] == 3589415998546501003, INV_MDS@[21] == 3853263153951502696, INV_MDS@[30] == 275384929271023918, INV_MDS@[39] == 2323160270091604467, INV_MDS@[48] == 4494434426780066202, INV_MDS@[57] == 681737992013306965, INV_MDS@[66] == 977282067546530790, INV_MDS@[75] == 2740698142978392711,
    ;
    assert(product_entry(MDS@, INV_MDS@, 9, 2, 4) == (MDS@[18] as int) * (INV_MDS@[4] as int) + (MDS@[19] as int) * (INV_MDS@[13] as int) + (MDS@[20] as int) * (INV_MDS@[22] as int) + (MDS@[21] as int) * (INV_MDS@[31] as int) + (MDS@[22] as int) * (INV_MDS@[40] as int) + (MDS@[23] as int) * (INV_MDS@[49] as int) + (MDS@[24] as int) * (INV_MDS@[58] as int) + (MDS@[25] as int) * (INV_MDS@[67] as int) + (MDS@[26] as int) * (INV_MDS@[76] as int));
    assert(((MDS@[18] as int) * (INV_MDS@[4] as int) + (MDS@[19] as int) * (INV_MDS@[13] as int) + (MDS@[20] as int) * (INV_MDS@[22] as int) + (MDS@[21] as int) * (INV_MDS@[31] as int) + (MDS@[22] as int) * (INV_MDS@[40] as int) + (MDS@[23] as int) * (INV_MDS@[49] as int) + (MDS@[24] as int) * (INV_MDS@[58] as int) + (MDS@[25] as int) * (INV_MDS@[67] as int) + (MDS@[26] as int) * (INV_MDS@[76] as int)) % 4611624995532046337 == 0) by (nonlinear_arith)
        requires
            MDS@[18] == 3690586968508376915, MDS@[19] == 1188716678600029516, MDS@[20] == 4404722642276688942, MDS@[21] == 1392834815468635765, MDS@[22] == 2410004866179382341, MDS@[23] == 4074543151731888787, MDS@[24] == 1286673036395336460, MDS@[25] == 4610042323605607019, MDS@[26] == 494894285941, INV_MDS@[4] == 4084320113214072343, INV_MDS@[13] == 3294978760228179936, INV_MDS@[22] == 1022446755313492063, INV_MDS@[31] == 4322677085037880573, INV_MDS@[40] == 2968178383345228859, INV_MDS@[49] == 3399461679221988058, INV_MDS@[58] == 1520629548906454474, INV_MDS@[67] == 4499663276559992087, INV_MDS@[76] == 478566997738395362,
    ;
    assert(product_entry(MDS@, INV_MDS@, 9, 2, 5) == (MDS@[18] as int) * (INV_MDS@[5] as int) + (MDS@[19] as int) * (INV_MDS@[14] as int) + (MDS@[20] as int) * (INV_MDS@[23] as int) + (MDS@[21] as int) * (INV_MDS@[32] as int) + (MDS@[22] as int) * (INV_MDS@[41] as int) + (MDS@[23] as int) * (INV_MDS@[50] as int) + (MDS@[24] as int) * (INV_MDS@[59] as int) + (MDS@[25] as int) * (INV_MDS@[68] as int) + (MDS@[26] as int) * (INV_MDS@[77] as int));
    assert(((MDS@[18] as int) * (INV_MDS@[5] as int) + (MDS@[19] as int) * (INV_MDS@[14] as int) + (MDS@[20] as int) * (INV_MDS@[23] as int) + (MDS@[21] as int) * (INV_MDS@[32] as int) + (MDS@[22] as int) * (INV_MDS@[41] as int) + (MDS@[23] as int) * (INV_MDS@[50] as int) + (MDS@[24] as int) * (INV_MDS@[59] as int) + (MDS@[25] as int) * (INV_MDS@[68] as int) + (MDS@[26] as int) * (INV_MDS@[77] as int)) % 4611624995532046337 == 0) by (nonlinear_arith)
        requires
            MDS@[18] == 3690586968508376915, MDS@[19] == 1188716678600029516, MDS@[20] == 4404722642276688942, MDS@[21] == 1392834815468635765, MDS@[22] == 2410004866179382341, MDS@[23] == 4074543151731888787, MDS@[24] == 1286673036395336460, MDS@[25] == 4610042323605607019, MDS@[26] == 494894285941, INV_MDS@[5] == 677515556938913667, INV_MDS@[14] == 1778846966858158585, INV_MDS@[23] == 2814266961258360083, INV_MDS@[32] == 1358253373117268608, INV_MDS@[41] == 3207693524924509149, INV_MDS@[50] == 3410359846988759564, INV_MDS@[59] == 4404047232332091755, INV_MDS@[68] == 3124570284534635445, INV_MDS@[77] == 1317536305202134563,
    ;
    assert(product_entry(MDS@, INV_MDS@, 9, 2, 6) == (MDS@[18] as int) * (INV_MDS@[6] as int) + (MDS@[19] as int) * (INV_MDS@[15] as int) + (MDS@[20] as int) * (INV_MDS@[24] as int) + (MDS@[21] as int) * (INV_MDS@[33] as int) + (MDS@[22] as int) * (INV_MDS@[42] as int) + (MDS@[23] as int) * (INV_MDS@[51] as int) + (MDS@[24] as int) * (INV_MDS@[60] as int) + (MDS@[25] as int) * (INV_MDS@[69] as int) + (MDS@[26] as int) * (INV_MDS@[78] as int));
    assert(((MDS@[18] as int) * (INV_MDS@[6] as int) + (MDS@[19] as int) * (INV_MDS@[15] as int) + (MDS@[20] as int) * (INV_MDS@[24] as int) + (MDS@[21] as int) * (INV_MDS@[33] as int) + (MDS@[22] as int) * (INV_MDS@[42] as int) + (MDS@[23] as int) * (INV_MDS@[51] as int) + (MDS@[24] as int) * (INV_MDS@[60] as int) + (MDS@[25] as int) * (INV_MDS@[69] as int) + (MDS@[26] as int) * (INV_MDS@[78] as int)) % 4611624995532046337 == 0) by (nonlinear_arith)
        requires
            MDS@[18] == 3690586968508376915, MDS@[19] == 1188716678600029516, MDS@[20] == 4404722642276688942, MDS@[21] == 1392834815468635765, MDS@[22] == 2410004866179382341, MDS@[23] == 4074543151731888787, MDS@[24] == 1286673036395336460, MDS@[25] == 4610042323605607019, MDS@[26] == 494894285941, INV_MDS@[6] == 2421791421881488327, INV_MDS@[15] == 3997809095230362131, INV_MDS@[24] == 2869424750903044655, INV_MDS@[33] == 2976193419717151400, INV_MDS@[42] == 3189047413106611221, INV_MDS@[51] == 1139390336191412558, INV_MDS@[60] == 2694913477905427615, INV_MDS@[69] == 2912864986169238494, INV_MDS@[78] == 3484754205530568350,
    ;
    assert(product_entry(MDS@, INV_MDS@, 9, 2, 7) == (MDS@[18] as int) * (INV_MDS@[7] as int) + (MDS@[19] as int) * (INV_MDS@[16] as int) + (MDS@[20] as int) * (INV_MDS@[25] as int) + (MDS@[21] as int) * (INV_MDS@[34] as int) + (MDS@[22] as int) * (INV_MDS@[43] as int) + (MDS@[23] as int) * (INV_MDS@[52] as int) + (MDS@[24] as int) * (INV_MDS@[61] as int) + (MDS@[25] as int) * (INV_MDS@[70] as int) + (MDS@[26] as int) * (INV_MDS@[79] as int));
    assert(((MDS@[18] as int) * (INV_MDS@[7] as int) + (MDS@[19] as int) * (INV_MDS@[16] as int) + (MDS@[20] as int) * (INV_MDS@[25] as int) + (MDS@[21] as int) * (INV_MDS@[34] as int) + (MDS@[22] as int) * (INV_MDS@[43] as int) + (MDS@[23] as int) * (INV_MDS@[52] as int) + (MDS@[24] as int) * (INV_MDS@[61] as int) + (MDS@[25] as int) * (INV_MDS@[70] as int) + (MDS@[26] as int) * (INV_MDS@[79] as int)) % 4611624995532046337 == 0) by (nonlinear_arith)
        requires
            MDS@[18] == 3690586968508376915, MDS@[19] == 1188716678600029516, MDS@[20] == 4404722642276688942, MDS@[21] == 1392834815468635765, MDS@[22] == 2410004866179382341, MDS@[23] == 4074543151731888787, MDS@[24] == 1286673036395336460, MDS@[25] == 4610042323605607019, MDS@[26] == 494894285941, INV_MDS@[7] == 3644426067838966381, INV_MDS@[16] == 1212577225021150021, INV_MDS@[25] == 2102868476327595162, INV_MDS@[34] == 1722984966615577177, INV_MDS@[43] == 3494615199478891974, INV_MDS@[52] == 527098797354794496, INV_MDS@[61] == 1346140786108729998, INV_MDS@[70] == 1203274577166891218, INV_MDS@[79] == 917159143741939893,
    ;
    assert(product_entry(MDS@, INV_MDS@, 9, 2, 8) == (MDS@[18] as int) * (INV_MDS@[8] as int) + (MDS@[19] as int) * (INV_MDS@[17] as int) + (MDS@[20] as int) * (INV_MDS@[26] as int) + (MDS@[21] as int) * (INV_MDS@[35] as int) + (MDS@[22] as int) * (INV_MDS@[44] as int) + (MDS@[23] as int) * (INV_MDS@[53] as int) + (MDS@[24] as int) * (INV_MDS@[62] as int) + (MDS@[25] as int) * (INV_MDS@[71] as int) + (MDS@[26] as int) * (INV_MDS@[80] as int));
    assert(((MDS@[18] as int) * (INV_MDS@[8] as int) + (MDS@[19] as int) * (INV_MDS@[17] as int) + (MDS@[20] as int) * (INV_MDS@[26] as int) + (MDS@[21] as int) * (INV_MDS@[35] as int) + (MDS@[22] as int) * (INV_MDS@[44] as int) + (MDS@[23] as int) * (INV_MDS@[53] as int) + (MDS@[24] as int) * (INV_MDS@[62] as int) + (MDS@[25] as int) * (INV_MDS@[71] as int) + (MDS@[26] as int) * (INV_MDS@[80] as int)) % 4611624995532046337 == 0) by (nonlinear_arith)
        requires
            MDS@[18] == 3690586968508376915, MDS@[19] == 1188716678600029516, MDS@[20] == 4404722642276688942, MDS@[21] == 1392834815468635765, MDS@[22] == 2410004866179382341, MDS@[23] == 4074543151731888787, MDS@[24] == 1286673036395336460, MDS@[25] == 4610042323605607019, MDS@[26] == 494894285941, INV_MDS@[8] == 3238629916340680919, INV_MDS@[17] == 4061088654507655253, INV_MDS@[26] == 2043814954142938352, INV_MDS@[35] == 3989226681729841537, INV_MDS@[44] == 939172905675675913, INV_MDS@[53] == 4198688907584692459, INV_MDS@[62] == 4276303366710150332, INV_MDS@[71] == 3369488350775322085, INV_MDS@[80] == 2754416681698366673,
    ;
}

proof fn lemma_product_forward_row_3()
    ensures
        identity_row(Elem::modulus(), MDS@, INV_MDS@, 9, 3, 9),
{
    reveal_with_fuel(sum, 10);
    reveal_with_fuel(identity_row, 10);
    assert(product_entry(MDS@, INV_MDS@, 9, 3, 0) == (MDS@[27] as int) * (INV_MDS@[0] as int) + (MDS@[28] as int) * (INV_MDS@[9] as int) + (MDS@[29] as int) * (INV_MDS@[18] as int) + (MDS@[30] as int) * (INV_MDS@[27] as int) + (MDS@[31] as int) * (INV_MDS@[36] as int) + (MDS@[32] as int) * (INV_MDS@[45] as int) + (MDS@[33] as int) * (INV_MDS@[54] as int) + (MDS@[34] as int) * (INV_MDS@[63] as int) + (MDS@[35] as int) * (INV_MDS@[72] as int));
    assert(((MDS@[27] as int) * (INV_MDS@[0] as int) + (MDS@[28] as int) * (INV_MDS@[9] as int) + (MDS@[29] as int) * (INV_MDS@[18] as int) + (MDS@[30] as int) * (INV_MDS@[27] as int) + (MDS@[31] as int) * (INV_MDS@[36] as int) + (MDS@[32] as int) * (INV_MDS@[45] as int) + (MDS@[33] as int) * (INV_MDS@[54] as int) + (MDS@[34] as int) * (INV_MDS@[63] as int) + (MDS@[35] as int) * (INV_MDS@[72] as int)) % 4611624995532046337 == 0) by (nonlinear_arith)
        requires
            MDS@[27] == 1460884875119705544, MDS@[28] == 3386615783772897896, MDS@[29] == 201971421999830434, MDS@[30] == 2690809914857215644, MDS@[31] == 3005613438739961642, MDS@[32] == 1137553896735229930, MDS@[33] == 3419041528315999985, MDS@[34] == 3140721539845838211, MDS@[35] == 3287582741506063, INV_MDS@[0] == 3535209814333908612, INV_MDS@[9] == 1855209548528077732, INV_MDS@[18] == 754377492363537555, INV_MDS@[27] == 743870189666828265, INV_MDS@[36] == 3574605258651933052, INV_MDS@[45] == 105602560538833690, INV_MDS@[54] == 2470160527543053102, INV_MDS@[63] == 1404066629609082371, INV_MDS@[72] == 1729798676117111118,
    ;
    assert(product_entry(MDS@, INV_MDS@, 9, 3, 1) == (MDS@[27] as int) * (INV_MDS@[1] as int) + (MDS@[28] as int) * (INV_MDS@[10] as int) + (MDS@[29] as int) * (INV_MDS@[19] as int) + (MDS@[30] as int) * (INV_MDS@[28] as int) + (MDS@[31] as int) * (INV_MDS@[37] as int) + (MDS@[32] as int) * (INV_MDS@[46] as int) + (MDS@[33] as int) * (INV_MDS@[55] as int) + (MDS@[34] as int) * (INV_MDS@[64] as int) + (MDS@[35] as int) * (INV_MDS@[73] as int));
    assert(((MDS@[27] as int) * (INV_MDS@[1] as int) + (MDS@[28] as int) * (INV_MDS@[10] as int) + (MDS@[29] as int) * (INV_MDS@[19] as int) + (MDS@[30] as int) * (INV_MDS@[28] as int) + (MDS@[31] as int) * (INV_MDS@[37] as int) + (MDS@[32] as int) * (INV_MDS@[46] as int) + (MDS@[33] as int) * (INV_MDS@[55] as int) + (MDS@[34] as int) * (INV_MDS@[64] as int) + (MDS@[35] as int) * (INV_MDS@[73] as int)) % 4611624995532046337 == 0) by (nonlinear_arith)
        requires
            MDS@[27] == 1460884875119705544, MDS@[28] == 3386615783772897896, MDS@[29] == 201971421999830434, MDS@[30] == 2690809914857215644, MDS@[31] == 3005613438739961642, MDS@[32] == 1137553896735229930, MDS@[33] == 3419041528315999985, MDS@[34] == 3140721539845838211, MDS@[35] == 3287582741506063, INV_MDS@[1] == 2192294647579404765, INV_MDS@[10] == 1472993453010258945, INV_MDS@[19] == 1274059338065041488, INV_MDS@[28] == 2360900441789594331, INV_MDS@[37] == 3776081033478750867, INV_MDS@[46] == 3377550819844293227, INV_MDS@[55] == 4596885798055676665, INV_MDS@[64] == 1041748211388490239, INV_MDS@[73] == 977196139524086241,
    ;
    assert(product_entry(MDS@, INV_MDS@, 9, 3, 2) == (MDS@[27] as int) * (INV_MDS@[2] as int) + (MDS@[28] as int) * (INV_MDS@[11] as int) + (MDS@[29] as int) * (INV_MDS@[20] as int) + (MDS@[30] as int) * (INV_MDS@[29] as int) + (MDS@[31] as int) * (INV_MDS@[38] as int) + (MDS@[32] as int) * (INV_MDS@[47] as int) + (MDS@[33] as int) * (INV_MDS@[56] as int) + (MDS@[34] as int) * (INV_MDS@[65] as int) + (MDS@[35] as int) * (INV_MDS@[74] as int));
    assert(((MDS@[27] as int) * (INV_MDS@[2] as int) + (MDS@[28] as int) * (INV_MDS@[11] as int) + (MDS@[29] as int) * (INV_MDS@[20] as int) + (MDS@[30] as int) * (INV_MDS@[29] as int) + (MDS@[31] as int) * (INV_MDS@[38] as int) + (MDS@[32] as int) * (INV_MDS@[47] as int) + (MDS@[33] as int) * (INV_MDS@[56] as int) + (MDS@[34] as int) * (INV_MDS@[65] as int) + (MDS@[35] as int) * (INV_MDS@[74] as int)) % 4611624995532046337 == 0) by (nonlinear_arith)
        requires
            MDS@[27] == 1460884875119705544, MDS@[28] == 3386615783772897896, MDS@[29] == 201971421999830434, MDS@[30] == 2690809914857215644, MDS@[31] == 3005613438739961642, MDS@[32] == 1137553896735229930, MDS@[33] == 3419041528315999985, MDS@[34] == 3140721539845838211, MDS@[35] == 3287582741506063, INV_MDS@[2] == 2247283712851777654, INV_MDS@[11] == 1795205275729888080, INV_MDS@[20] == 1711978099802673295, INV_MDS@[29] == 697008895183019540, INV_MDS@[38] == 4197195984439072521, INV_MDS@[47] == 2405537603155391432, INV_MDS@[56] == 1067306248085340780, INV_MDS@[65] == 4525166593910048957, INV_MDS@[74] == 4046373689597190438,
    ;
    assert(product_entry(MDS@, INV_MDS@, 9, 3, 3) == (MDS@[27] as int) * (INV_MDS@[3] as int) + (MDS@[28] as int) * (INV_MDS@[12] as int) + (MDS@[29] as int) * (INV_MDS@[21] as int) + (MDS@[30] as int) * (INV_MDS@[30] as int) + (MDS@[31] as int) * (INV_MDS@[39] as int) + (MDS@[32] as int) * (INV_MDS@[48] as int) + (MDS@[33] as int) * (INV_MDS@[57] as int) + (MDS@[34] as int) * (INV_MDS@[66] as int) + (MDS@[35] as int) * (INV_MDS@[75] as int));
    assert(((MDS@[27] as int) * (INV_MDS@[3] as int) + (MDS@[28] as int) * (INV_MDS@[12] as int) + (MDS@[29] as int) * (INV_MDS@[21] as int) + (MDS@[30] as int) * (INV_MDS@[30] as int) + (MDS@[31] as int) * (INV_MDS@[39] as int) + (MDS@[32] as int) * (INV_MDS@[48] as int) + (MDS@[33] as int) * (INV_MDS@[57] as int) + (MDS@[34] as int) * (INV_MDS@[66] as int) + (MDS@[35] as int) * (INV_MDS@[75] as int)) % 4611624995532046337 == 1) by (nonlinear_arith)
        requires
            MDS@[27] == 1460884875119705544, MDS@[28] == 3386615783772897896, MDS@[29] == 201971421999830434, MDS@[30] == 2690809914857215644, MDS@[31] == 3005613438739961642, MDS@[32] == 1137553896735229930, MDS@[33] == 3419041528315999985, MDS@[34] == 3140721539845838211, MDS@[35] == 3287582741506063, INV_MDS@[3] == 1016653726681019018, INV_MDS@[12] == 3589415998546501003, INV_MDS@[21] == 3853263153951502696, INV_MDS@[30] == 275384929271023918, INV_MDS@[39] == 2323160270091604467, INV_MDS@[48] == 4494434426780066202, INV_MDS@[57] == 681737992013306965, INV_MDS@[66] == 977282067546530790, INV_MDS@[75] == 2740698142978392711,
    ;
    assert(product_entry(MDS@, INV_MDS@, 9, 3, 4) == (MDS@[27] as int) * (INV_MDS@[4] as int) + (MDS@[28] as int) * (INV_MDS@[13] as int) + (MDS@[29] as int) * (INV_MDS@[22] as int) + (MDS@[30] as int) * (INV_MDS@[31] as int) + (MDS@[31] as int) * (INV_MDS@[40] as int) + (MDS@[32] as int) * (INV_MDS@[49] as int) + (MDS@[33] as int) * (INV_MDS@[58] as int) + (MDS@[34] as int) * (INV_MDS@[67] as int) + (MDS@[35] as int) * (INV_MDS@[76] as int));
    assert(((MDS@[27] as int) * (INV_MDS@[4] as int) + (MDS@[28] as int) * (INV_MDS@[13] as int) + (MDS@[29] as int) * (INV_MDS@[22] as int) + (MDS@[30] as int) * (INV_MDS@[31] as int) + (MDS@[31] as int) * (INV_MDS@[40] as int) + (MDS@[32] as int) * (INV_MDS@[49] as int) + (MDS@[33] as int) * (INV_MDS@[58] as int) + (MDS@[34] as int) * (INV_MDS@[67] as int) + (MDS@[35] as int) * (INV_MDS@[76] as int)) % 4611624995532046337 == 0) by (nonlinear_arith)
        requires
            MDS@[27] == 1460884875119705544, MDS@[28] == 3386615783772897896, MDS@[29] == 201971421999830434, MDS@[30] == 2690809914857215644, MDS@[31] == 3005613438739961642, MDS@[32] == 1137553896735229930, MDS@[33] == 3419041528315999985, MDS@[34] == 3140721539845838211, MDS@[35] == 3287582741506063, INV_MDS@[4] == 4084320113214072343, INV_MDS@[13] == 3294978760228179936, INV_MDS@[22] == 1022446755313492063, INV_MDS@[31] == 4322677085037880573, INV_MDS@[40] == 2968178383345228859, INV_MDS@[49] == 3399461679221988058, INV_MDS@[58] == 1520629548906454474, INV_MDS@[67] == 4499663276559992087, INV_MDS@[76] == 478566997738395362,
    ;
    assert(product_entry(MDS@, INV_MDS@, 9, 3, 5) == (MDS@[27] as int) * (INV_MDS@[5] as int) + (MDS@[28] as int) * (INV_MDS@[14] as int) + (MDS@[29] as int) * (INV_MDS@[23] as int) + (MDS@[30] as int) * (INV_MDS@[32] as int) + (MDS@[31] as int) * (INV_MDS@[41] as int) + (MDS@[32] as int) * (INV_MDS@[50] as int) + (MDS@[33] as int) * (INV_MDS@[59] as int) + (MDS@[34] as int) * (INV_MDS@[68] as int) + (MDS@[35] as int) * (INV_MDS@[77] as int));
    assert(((MDS@[27] as int) * (INV_MDS@[5] as int) + (MDS@[28] as int) * (INV_MDS@[14] as int) + (MDS@[29] as int) * (INV_MDS@[23] as int) + (MDS@[30] as int) * (INV_MDS@[32] as int) + (MDS@[31] as int) * (INV_MDS@[41] as int) + (MDS@[32] as int) * (INV_MDS@[50] as int) + (MDS@[33] as int) * (INV_MDS@[59] as int) + (MDS@[34] as int) * (INV_MDS@[68] as int) + (MDS@[35] as int) * (INV_MDS@[77] as int)) % 4611624995532046337 == 0) by (nonlinear_arith)
        requires
            MDS@[27] == 1460884875119705544, MDS@[28] == 3386615783772897896, MDS@[29] == 201971421999830434, MDS@[30] == 2690809914857215644, MDS@[31] == 3005613438739961642, MDS@[32] == 1137553896735229930, MDS@[33] == 3419041528315999985, MDS@[34] == 3140721539845838211, MDS@[35] == 3287582741506063, INV_MDS@[5] == 677515556938913667, INV_MDS@[14] == 1778846966858158585, INV_MDS@[23] == 2814266961258360083, INV_MDS@[32] == 1358253373117268608, INV_MDS@[41] == 3207693524924509149, INV_MDS@[50] == 3410359846988759564, INV_MDS@[59] == 4404047232332091755, INV_MDS@[68] == 3124570284534635445, INV_MDS@[77] == 1317536305202134563,
    ;
    assert(product_entry(MDS@, INV_MDS@, 9, 3, 6) == (MDS@[27] as int) * (INV_MDS@[6] as int) + (MDS@[28] as int) * (INV_MDS@[15] as int) + (MDS@[29] as int) * (INV_MDS@[24] as int) + (MDS@[30] as int) * (INV_MDS@[33] as int) + (MDS@[31] as int) * (INV_MDS@[42] as int) + (MDS@[32] as int) * (INV_MDS@[51] as int) + (MDS@[33] as int) * (INV_MDS@[60] as int) + (MDS@[34] as int) * (INV_MDS@[69] as int) + (MDS@[35] as int) * (INV_MDS@[78] as int));
    assert(((MDS@[27] as int) * (INV_MDS@[6] as int) + (MDS@[28] as int) * (INV_MDS@[15] as int) + (MDS@[29] as int) * (INV_MDS@[24] as int) + (MDS@[30] as int) * (INV_MDS@[33] as int) + (MDS@[31] as int) * (INV_MDS@[42] as int) + (MDS@[32] as int) * (INV_MDS@[51] as int) + (MDS@[33] as int) * (INV_MDS@[60] as int) + (MDS@[34] as int) * (INV_MDS@[69] as int) + (MDS@[35] as int) * (INV_MDS@[78] as int)) % 4611624995532046337 == 0) by (nonlinear_arith)
        requires
            MDS@[27] == 1460884875119705544, MDS@[28] == 3386615783772897896, MDS@[29] == 201971421999830434, MDS@[30] == 2690809914857215644, MDS@[31] == 3005613438739961642, MDS@[32] == 1137553896735229930, MDS@[33] == 3419041528315999985, MDS@[34] == 3140721539845838211, MDS@[35] == 3287582741506063, INV_MDS@[6] == 2421791421881488327, INV_MDS@[15] == 3997809095230362131, INV_MDS@[24] == 2869424750903044655, INV_MDS@[33] == 2976193419717151400, INV_MDS@[42] == 3189047413106611221, INV_MDS@[51] == 1139390336191412558, INV_MDS@[60] == 2694913477905427615, INV_MDS@[69] == 2912864986169238494, INV_MDS@[78] == 3484754205530568350,
    ;
    assert(product_entry(MDS@, INV_MDS@, 9, 3, 7) == (MDS@[27] as int) * (INV_MDS@[7] as int) + (MDS@[28] as int) * (INV_MDS@[16] as int) + (MDS@[29] as int) * (INV_MDS@[25] as int) + (MDS@[30] as int) * (INV_MDS@[34] as int) + (MDS@[31] as int) * (INV_MDS@[43] as int) + (MDS@[32] as int) * (INV_MDS@[52] as int) + (MDS@[33] as int) * (INV_MDS@[61] as int) + (MDS@[34] as int) * (INV_MDS@[70] as int) + (MDS@[35] as int) * (INV_MDS@[79] as int));
    assert(((MDS@[27] as int) * (INV_MDS@[7] as int) + (MDS@[28] as int) * (INV_MDS@[16] as int) + (MDS@[29] as int) * (INV_MDS@[25] as int) + (MDS@[30] as int) * (INV_MDS@[34] as int) + (MDS@[31] as int) * (INV_MDS@[43] as int) + (MDS@[32] as int) * (INV_MDS@[52] as int) + (MDS@[33] as int) * (INV_MDS@[61] as int) + (MDS@[34] as int) * (INV_MDS@[70] as int) + (MDS@[35] as int) * (INV_MDS@[79] as int)) % 4611624995532046337 == 0) by (nonlinear_arith)
        requires
            MDS@[27] == 1460884875119705544, MDS@[28] == 3386615783772897896, MDS@[29] == 201971421999830434, MDS@[30] == 2690809914857215644, MDS@[31] == 3005613438739961642, MDS@[32] == 1137553896735229930, MDS@[33] == 3419041528315999985, MDS@[34] == 3140721539845838211, MDS@[35] == 3287582741506063, INV_MDS@[7] == 3644426067838966381, INV_MDS@[16] == 1212577225021150021, INV_MDS@[25] == 2102868476327595162, INV_MDS@[34] == 1722984966615577177, INV_MDS@[43] == 3494615199478891974, INV_MDS@[52] == 527098797354794496, INV_MDS@[61] == 1346140786108729998, INV_MDS@[70] == 1203274577166891218, INV_MDS@[79] == 917159143741939893,
    ;
    assert(product_entry(MDS@, INV_MDS@, 9, 3, 8) == (MDS@[27] as int) * (INV_MDS@[8] as int) + (MDS@[28] as int) * (INV_MDS@[17] as int) + (MDS@[29] as int) * (INV_MDS@[26] as int) + (MDS@[30] as int) * (INV_MDS@[35] as int) + (MDS@[31] as int) * (INV_MDS@[44] as int) + (MDS@[32] as int) * (INV_MDS@[53] as int) + (MDS@[33] as int) * (INV_MDS@[62] as int) + (MDS@[34] as int) * (INV_MDS@[71] as int) + (MDS@[35] as int) * (INV_MDS@[80] as int));
    assert(((MDS@[27] as int) * (INV_MDS@[8] as int) + (MDS@[28] as int) * (INV_MDS@[17] as int) + (MDS@[29] as int) * (INV_MDS@[26] as int) + (MDS@[30] as int) * (INV_MDS@[35] as int) + (MDS@[31] as int) * (INV_MDS@[44] as int) + (MDS@[32] as int) * (INV_MDS@[53] as int) + (MDS@[33] as int) * (INV_MDS@[62] as int) + (MDS@[34] as int) * (INV_MDS@[71] as int) + (MDS@[35] as int) * (INV_MDS@[80] as int)) % 4611624995532046337 == 0) by (nonlinear_arith)
        requires
            MDS@[27] == 1460884875119705544, MDS@[28] == 3386615783772897896, MDS@[29] == 201971421999830434, MDS@[30] == 2690809914857215644, MDS@[31] == 3005613438739961642, MDS@[32] == 1137553896735229930, MDS@[33] == 3419041528315999985, MDS@[34] == 3140721539845838211, MDS@[35] == 3287582741506063, INV_MDS@[8] == 3238629916340680919, INV_MDS@[17] == 4061088654507655253, INV_MDS@[26] == 2043814954142938352, INV_MDS@[35] == 3989226681729841537, INV_MDS@[44] == 939172905675675913, INV_MDS@[53] == 4198688907584692459, INV_MDS@[62] == 4276303366710150332, INV_MDS@[71] == 3369488350775322085, INV_MDS@[80] == 2754416681698366673,
    ;
}

proof fn lemma_product_forward_row_4()
    ensures
        identity_row(Elem::modulus(), MDS@, INV_MDS@, 9, 4, 9),
{
    reveal_with_fuel(sum, 10);
    reveal_with_fuel(identity_row, 10);
    assert(product_entry(MDS@, INV_MDS@, 9, 4, 0) == (MDS@[36] as int) * (INV_MDS@[0] as int) + (MDS@[37] as int) * (INV_MDS@[9] as int) + (MDS@[38] as int) * (INV_MDS@[18] as int) + (MDS@[39] as int) * (INV_MDS@[27] as int) + (MDS@[40] as int) * (INV_MDS@[36] as int) + (MDS@[41] as int) * (INV_MDS@[45] as int) + (MDS@[42] as int) * (INV_MDS@[54] as int) + (MDS@[43] as int) * (INV_MDS@[63] as int) + (MDS@[44] as int) * (INV_MDS@[72] as int));
    assert(((MDS@[36] as int) * (INV_MDS@[0] as int) + (MDS@[37] as int) * (INV_MDS@[9] as int) + (MDS@[38] as int) * (INV_MDS@[18] as int) + (MDS@[39] as int) * (INV_MDS@[27] as int) + (MDS@[40] as int) * (INV_MDS@[36] as int) + (MDS@[41] as int) * (INV_MDS@[45] as int) + (MDS@[42] as int) * (INV_MDS@[54] as int) + (MDS@[43] as int) * (INV_MDS@[63] as int) + (MDS@[44] as int) * (INV_MDS@[72] as int)) % 4611624995532046337 == 0) by (nonlinear_arith)
        requires
            MDS@[36] == 1799234820778435744, MDS@[37] == 2072052720368877933, MDS@[38] == 1556994839688241047, MDS@[39] == 781837143061117873, MDS@[40] == 3574339685331375704, MDS@[41] == 3222440231476431090, MDS@[42] == 14265327237660372, MDS@[43] == 2212886883903365751, MDS@[44] == 3212448330282679835, INV_MDS@[0] == 3535209814333908612, INV_MDS@[9] == 1855209548528077732, INV_MDS@[18] == 754377492363537555, INV_MDS@[27] == 743870189666828265, INV_MDS@[36] == 3574605258651933052, INV_MDS@[45] == 105602560538833690, INV_MDS@[54] == 2470160527543053102, INV_MDS@[63] == 1404066629609082371, INV_MDS@[72] == 1729798676117111118,
    ;
    assert(product_entry(MDS@, INV_MDS@, 9, 4, 1) == (MDS@[36] as int) * (INV_MDS@[1] as int) + (MDS@[37] as int) * (INV_MDS@[10] as int) + (MDS@[38] as int) * (INV_MDS@[19] as int) + (MDS@[39] as int) * (INV_MDS@[28] as int) + (MDS@[40] as int) * (INV_MDS@[37] as int) + (MDS@[41] as int) * (INV_MDS@[46] as int) + (MDS@[42] as int) * (INV_MDS@[55] as int) + (MDS@[43] as int) * (INV_MDS@[64] as int) + (MDS@[44] as int) * (INV_MDS@[73] as int));
    assert(((MDS@[36] as int) * (INV_MDS@[1] as int) + (MDS@[37] as int) * (INV_MDS@[10] as int) + (MDS@[38] as int) * (INV_MDS@[19] as int) + (MDS@[39] as int) * (INV_MDS@[28] as int) + (MDS@[40] as int) * (INV_MDS@[37] as int) + (MDS@[41] as int) * (INV_MDS@[46] as int) + (MDS@[42] as int) * (INV_MDS@[55] as int) + (MDS@[43] as int) * (INV_MDS@[64] as int) + (MDS@[44] as int) * (INV_MDS@[73] as int)) % 4611624995532046337 == 0) by (nonlinear_arith)
        requires
            MDS@[36] == 1799234820778435744, MDS@[37] == 2072052720368877933, MDS@[38] == 1556994839688241047, MDS@[39] == 781837143061117873, MDS@[40] == 3574339685331375704, MDS@[41] == 3222440231476431090, MDS@[42] == 14265327237660372, MDS@[43] == 2212886883903365751, MDS@[44] == 3212448330282679835, INV_MDS@[1] == 2192294647579404765, INV_MDS@[10] == 1472993453010258945, INV_MDS@[19] == 1274059338065041488, INV_MDS@[28] == 2360900441789594331, INV_MDS@[37] == 3776081033478750867, INV_MDS@[46] == 3377550819844293227, INV_MDS@[55] == 4596885798055676665, INV_MDS@[64] == 1041748211388490239, INV_MDS@[73] == 977196139524086241,
    ;
    assert(product_entry(MDS@, INV_MDS@, 9, 4, 2) == (MDS@[36] as int) * (INV_MDS@[2] as int) + (MDS@[37] as int) * (INV_MDS@[11] as int) + (MDS@[38] as int) * (INV_MDS@[20] as int) + (MDS@[39] as int) * (INV_MDS@[29] as int) + (MDS@[40] as int) * (INV_MDS@[38] as int) + (MDS@[41] as int) * (INV_MDS@[47] as int) + (MDS@[42] as int) * (INV_MDS@[56] as int) + (MDS@[43] as int) * (INV_MDS@[65] as int) + (MDS@[44] as int) * (INV_MDS@[74] as int));
    assert(((MDS@[36] as int) * (INV_MDS@[2] as int) + (MDS@[37] as int) * (INV_MDS@[11] as int) + (MDS@[38] as int) * (INV_MDS@[20] as int) + (MDS@[39] as int) * (INV_MDS@[29] as int) + (MDS@[40] as int) * (INV_MDS@[38] as int) + (MDS@[41] as int) * (INV_MDS@[47] as int) + (MDS@[42] as int) * (INV_MDS@[56] as int) + (MDS@[43] as int) * (INV_MDS@[65] as int) + (MDS@[44] as int) * (INV_MDS@[74] as int)) % 4611624995532046337 == 0) by (nonlinear_arith)
        requires
            MDS@[36] == 1799234820778435744, MDS@[37] == 2072052720368877933, MDS@[38] == 1556994839688241047, MDS@[39] == 781837143061117873, MDS@[40] == 3574339685331375704, MDS@[41] == 3222440231476431090, MDS@[42] == 14265327237660372, MDS@[43] == 2212886883903365751, MDS@[44] == 3212448330282679835, INV_MDS@[2] == 2247283712851777654, INV_MDS@[11] == 1795205275729888080, INV_MDS@[20] == 1711978099802673295, INV_MDS@[29] == 697008895183019540, INV_MDS@[38] == 4197195984439072521, INV_MDS@[47] == 2405537603155391432, INV_MDS@[56] == 1067306248085340780, INV_MDS@[65] == 4525166593910048957, INV_MDS@[74] == 4046373689597190438,
    ;
    assert(product_entry(MDS@, INV_MDS@, 9, 4, 3) == (MDS@[36] as int) * (INV_MDS@[3] as int) + (MDS@[37] as int) * (INV_MDS@[12] as int) + (MDS@[38] as int) * (INV_MDS@[21] as int) + (MDS@[39] as int) * (INV_MDS@[30] as int) + (MDS@[40] as int) * (INV_MDS@[39] as int) + (MDS@[41] as int) * (INV_MDS@[48] as int) + (MDS@[42] as int) * (INV_MDS@[57] as int) + (MDS@[43] as int) * (INV_MDS@[66] as int) + (MDS@[44] as int) * (INV_MDS@[75] as int));
    assert(((MDS@[36] as int) * (INV_MDS@[3] as int) + (MDS@[37] as int) * (INV_MDS@[12] as int) + (MDS@[38] as int) * (INV_MDS@[21] as int) + (MDS@[39] as int) * (INV_MDS@[30] as int) + (MDS@[40] as int) * (INV_MDS@[39] as int) + (MDS@[41] as int) * (INV_MDS@[48] as int) + (MDS@[42] as int) * (INV_MDS@[57] as int) + (MDS@[43] as int) * (INV_MDS@[66] as int) + (MDS@[44] as int) * (INV_MDS@[75] as int)) % 4611624995532046337 == 0) by (nonlinear_arith)
        requires
            MDS@[36] == 1799234820778435744, MDS@[37] == 2072052720368877933, MDS@[38] == 1556994839688241047, MDS@[39] == 781837143061117873, MDS@[40] == 3574339685331375704, MDS@[41] == 3222440231476431090, MDS@[42] == 14265327237660372, MDS@[43] == 2212886883903365751, MDS@[44] == 3212448330282679835, INV_MDS@[3] == 1016653726681019018, INV_MDS@[12] == 3589415998546501003, INV_MDS@[21] == 3853263153951502696, INV_MDS@[30] == 275384929271023918, INV_MDS@[39] == 2323160270091604467, INV_MDS@[48] == 4494434426780066202, INV_MDS@[57] == 681737992013306965, INV_MDS@[66] == 977282067546530790, INV_MDS@[75] == 2740698142978392711,
    ;
    assert(product_entry(MDS@, INV_MDS@, 9, 4, 4) == (MDS@[36] as int) * (INV_MDS@[4] as int) + (MDS@[37] as int) * (INV_MDS@[13] as int) + (MDS@[38] as int) * (INV_MDS@[22] as int) + (MDS@[39] as int) * (INV_MDS@[31] as int) + (MDS@[40] as int) * (INV_MDS@[40] as int) + (MDS@[41] as int) * (INV_MDS@[49] as int) + (MDS@[42] as int) * (INV_MDS@[58] as int) + (MDS@[43] as int) * (INV_MDS@[67] as int) + (MDS@[44] as int) * (INV_MDS@[76] as int));
    assert(((MDS@[36] as int) * (INV_MDS@[4] as int) + (MDS@[37] as int) * (INV_MDS@[13] as int) + (MDS@[38] as int) * (INV_MDS@[22] as int) + (MDS@[39] as int) * (INV_MDS@[31] as int) + (MDS@[40] as int) * (INV_MDS@[40] as int) + (MDS@[41] as int) * (INV_MDS@[49] as int) + (MDS@[42] as int) * (INV_MDS@[58] as int) + (MDS@[43] as int) * (INV_MDS@[67] as int) + (MDS@[44] as int) * (INV_MDS@[76] as int)) % 4611624995532046337 == 1) by (nonlinear_arith)
        requires
            MDS@[36] == 1799234820778435744, MDS@[37] == 2072052720368877933, MDS@[38] == 1556994839688241047, MDS@[39] == 781837143061117873, MDS@[40] == 3574339685331375704, MDS@[41] == 3222440231476431090, MDS@[42] == 14265327237660372, MDS@[43] == 2212886883903365751, MDS@[44] == 3212448330282679835, INV_MDS@[4] == 4084320113214072343, INV_MDS@[13] == 3294978760228179936, INV_MDS@[22] == 1022446755313492063, INV_MDS@[31] == 4322677085037880573, INV_MDS@[40] == 2968178383345228859, INV_MDS@[49] == 3399461679221988058, INV_MDS@[58] == 1520629548906454474, INV_MDS@[67] == 4499663276559992087, INV_MDS@[76] == 478566997738395362,
    ;
    assert(product_entry(MDS@, INV_MDS@, 9, 4, 5) == (MDS@[36] as int) * (INV_MDS@[5] as int) + (MDS@[37] as int) * (INV_MDS@[14] as int) + (MDS@[38] as int) * (INV_MDS@[23] as int) + (MDS@[39] as int) * (INV_MDS@[32] as int) + (MDS@[40] as int) * (INV_MDS@[41] as int) + (MDS@[41] as int) * (INV_MDS@[50] as int) + (MDS@[42] as int) * (INV_MDS@[59] as int) + (MDS@[43] as int) * (INV_MDS@[68] as int) + (MDS@[44] as int) * (INV_MDS@[77] as int));
    assert(((MDS@[36] as int) * (INV_MDS@[5] as int) + (MDS@[37] as int) * (INV_MDS@[14] as int) + (MDS@[38] as int) * (INV_MDS@[23] as int) + (MDS@[39] as int) * (INV_MDS@[32] as int) + (MDS@[40] as int) * (INV_MDS@[41] as int) + (MDS@[41] as int) * (INV_MDS@[50] as int) + (MDS@[42] as int) * (INV_MDS@[59] as int) + (MDS@[43] as int) * (INV_MDS@[68] as int) + (MDS@[44] as int) * (INV_MDS@[77] as int)) % 4611624995532046337 == 0) by (nonlinear_arith)
        requires
            MDS@[36] == 1799234820778435744, MDS@[37] == 2072052720368877933, MDS@[38] == 1556994839688241047, MDS@[39] == 781837143061117873, MDS@[40] == 3574339685331375704, MDS@[41] == 3222440231476431090, MDS@[42] == 14265327237660372, MDS@[43] == 2212886883903365751, MDS@[44] == 3212448330282679835, INV_MDS@[5] == 677515556938913667, INV_MDS@[14] == 1778846966858158585, INV_MDS@[23] == 2814266961258360083, INV_MDS@[32] == 1358253373117268608, INV_MDS@[41] == 3207693524924509149, INV_MDS@[50] == 3410359846988759564, INV_MDS@[59] == 4404047232332091755, INV_MDS@[68] == 3124570284534635445, INV_MDS@[77] == 1317536305202134563,
    ;
    assert(product_entry(MDS@, INV_MDS@, 9, 4, 6) == (MDS@[36] as int) * (INV_MDS@[6] as int) + (MDS@[37] as int) * (INV_MDS@[15] as int) + (MDS@[38] as int) * (INV_MDS@[24] as int) + (MDS@[39] as int) * (INV_MDS@[33] as int) + (MDS@[40] as int) * (INV_MDS@[42] as int) + (MDS@[41] as int) * (INV_MDS@[51] as int) + (MDS@[42] as int) * (INV_MDS@[60] as int) + (MDS@[43] as int) * (INV_MDS@[69] as int) + (MDS@[44] as int) * (INV_MDS@[78] as int));
    assert(((MDS@[36] as int) * (INV_MDS@[6] as int) + (MDS@[37] as int) * (INV_MDS@[15] as int) + (MDS@[38] as int) * (INV_MDS@[24] as int) + (MDS@[39] as int) * (INV_MDS@[33] as int) + (MDS@[40] as int) * (INV_MDS@[42] as int) + (MDS@[41] as int) * (INV_MDS@[51] as int) + (MDS@[42] as int) * (INV_MDS@[60] as int) + (MDS@[43] as int) * (INV_MDS@[69] as int) + (MDS@[44] as int) * (INV_MDS@[78] as int)) % 4611624995532046337 == 0) by (nonlinear_arith)
        requires
            MDS@[36] == 1799234820778435744, MDS@[37] == 2072052720368877933, MDS@[38] == 1556994839688241047, MDS@[39] == 781837143061117873, MDS@[40] == 3574339685331375704, MDS@[41] == 3222440231476431090, MDS@[42] == 14265327237660372, MDS@[43] == 2212886883903365751, MDS@[44] == 3212448330282679835, INV_MDS@[6] == 2421791421881488327, INV_MDS@[15] == 3997809095230362131, INV_MDS@[24] == 2869424750903044655, INV_MDS@[33] == 2976193419717151400, INV_MDS@[42] == 3189047413106611221, INV_MDS@[51] == 1139390336191412558, INV_MDS@[60] == 2694913477905427615, INV_MDS@[69] == 2912864986169238494, INV_MDS@[78] == 3484754205530568350,
    ;
    assert(product_entry(MDS@, INV_MDS@, 9, 4, 7) == (MDS@[36] as int) * (INV_MDS@[7] as int) + (MDS@[37] as int) * (INV_MDS@[16] as int) + (MDS@[38] as int) * (INV_MDS@[25] as int) + (MDS@[39] as int) * (INV_MDS@[34] as int) + (MDS@[40] as int) * (INV_MDS@[43] as int) + (MDS@[41] as int) * (INV_MDS@[52] as int) + (MDS@[42] as int) * (INV_MDS@[61] as int) + (MDS@[43] as int) * (INV_MDS@[70] as int) + (MDS@[44] as int) * (INV_MDS@[79] as int));
    assert(((MDS@[36] as int) * (INV_MDS@[7] as int) + (MDS@[37] as int) * (INV_MDS@[16] as int) + (MDS@[38] as int) * (INV_MDS@[25] as int) + (MDS@[39] as int) * (INV_MDS@[34] as int) + (MDS@[40] as int) * (INV_MDS@[43] as int) + (MDS@[41] as int) * (INV_MDS@[52] as int) + (MDS@[42] as int) * (INV_MDS@[61] as int) + (MDS@[43] as int) * (INV_MDS@[70] as int) + (MDS@[44] as int) * (INV_MDS@[79] as int)) % 4611624995532046337 == 0) by (nonlinear_arith)
        requires
            MDS@[36] == 1799234820778435744, MDS@[37] == 2072052720368877933, MDS@[38] == 1556994839688241047, MDS@[39] == 781837143061117873, MDS@[40] == 3574339685331375704, MDS@[41] == 3222440231476431090, MDS@[42] == 14265327237660372, MDS@[43] == 2212886883903365751, MDS@[44] == 3212448330282679835, INV_MDS@[7] == 3644426067838966381, INV_MDS@[16] == 1212577225021150021, INV_MDS@[25] == 2102868476327595162, INV_MDS@[34] == 1722984966615577177, INV_MDS@[43] == 3494615199478891974, INV_MDS@[52] == 527098797354794496, INV_MDS@[61] == 1346140786108729998, INV_MDS@[70] == 1203274577166891218, INV_MDS@[79] == 917159143741939893,
    ;
    assert(product_entry(MDS@, INV_MDS@, 9, 4, 8) == (MDS@[36] as int) * (INV_MDS@[8] as int) + (MDS@[37] as int) * (INV_MDS@[17] as int) + (MDS@[38] as int) * (INV_MDS@[26] as int) + (MDS@[39] as int) * (INV_MDS@[35] as int) + (MDS@[40] as int) * (INV_MDS@[44] as int) + (MDS@[41] as int) * (INV_MDS@[53] as int) + (MDS@[42] as int) * (INV_MDS@[62] as int) + (MDS@[43] as int) * (INV_MDS@[71] as int) + (MDS@[44] as int) * (INV_MDS@[80] as int));
    assert(((MDS@[36] as int) * (INV_MDS@[8] as int) + (MDS@[37] as int) * (INV_MDS@[17] as int) + (MDS@[38] as int) * (INV_MDS@[26] as int) + (MDS@[39] as int) * (INV_MDS@[35] as int) + (MDS@[40] as int) * (INV_MDS@[44] as int) + (MDS@[41] as int) * (INV_MDS@[53] as int) + (MDS@[42] as int) * (INV_MDS@[62] as int) + (MDS@[43] as int) * (INV_MDS@[71] as int) + (MDS@[44] as int) * (INV_MDS@[80] as int)) % 4611624995532046337 == 0) by (nonlinear_arith)
        requires
            MDS@[36] == 1799234820778435744, MDS@[37] == 2072052720368877933, MDS@[38] == 1556994839688241047, MDS@[39] == 781837143061117873, MDS@[40] == 3574339685331375704, MDS@[41] == 3222440231476431090, MDS@[42] == 14265327237660372, MDS@[43] == 2212886883903365751, MDS@[44] == 3212448330282679835, INV_MDS@[8] == 3238629916340680919, INV_MDS@[17] == 4061088654507655253, INV_MDS@[26] == 2043814954142938352, INV_MDS@[35] == 3989226681729841537, INV_MDS@[44] == 939172905675675913, INV_MDS@[53] == 4198688907584692459, INV_MDS@[62] == 4276303366710150332, INV_MDS@[71] == 3369488350775322085, INV_MDS@[80] == 2754416681698366673,
    ;
}

proof fn lemma_product_forward_row_5()
    ensures
        identity_row(Elem::modulus(), MDS@, INV_MDS@, 9, 5, 9),
{
    reveal_with_fuel(sum, 10);
    reveal_with_fuel(identity_row, 10);
    assert(product_entry(MDS@, INV_MDS@, 9, 5, 0) == (MDS@[45] as int) * (INV_MDS@[0] as int) + (MDS@[46] as int) * (INV_MDS@[9] as int) + (MDS@[47] as int) * (INV_MDS@[18] as int) + (MDS@[48] as int) * (INV_MDS@[27] as int) + (MDS@[49] as int) * (INV_MDS@[36] as int) + (MDS@[50] as int) * (INV_MDS@[45] as int) + (MDS@[51] as int) * (INV_MDS@[54] as int) + (MDS@[52] as int) * (INV_MDS@[63] as int) + (MDS@[53] as int) * (INV_MDS@[72] as int));
    assert(((MDS@[45] as int) * (INV_MDS@[0] as int) + (MDS@[46] as int) * (INV_MDS@[9] as int) + (MDS@[47] as int) * (INV_MDS@[18] as int) + (MDS@[48] as int) * (INV_MDS@[27] as int) + (MDS@[49] as int) * (INV_MDS@[36] as int) + (MDS@[50] as int) * (INV_MDS@[45] as int) + (MDS@[51] as int) * (INV_MDS@[54] as int) + (MDS@[52] as int) * (INV_MDS@[63] as int) + (MDS@[53] as int) * (INV_MDS@[72] as int)) % 4611624995532046337 == 0) by (nonlinear_arith)
        requires
            MDS@[45] == 418351083517431213, MDS@[46] == 1604014025070032746, MDS@[47] == 4416269077327681940, MDS@[48] == 681286285019270020, MDS@[49] == 2805410846266053252, MDS@[50] == 2410684455530809505, MDS@[51] == 4077427075299802133, MDS@[52] == 3417121306051169026, MDS@[53] == 3227560823577981851, INV_MDS@[0] == 3535209814333908612, INV_MDS@[9] == 1855209548528077732, INV_MDS@[18] == 754377492363537555, INV_MDS@[27] == 743870189666828265, INV_MDS@[36] == 3574605258651933052, INV_MDS@[45] == 105602560538833690, INV_MDS@[54] == 2470160527543053102, INV_MDS@[63] == 1404066629609082371, INV_MDS@[72] == 1729798676117111118,
    ;
    assert(product_entry(MDS@, INV_MDS@, 9, 5, 1) == (MDS@[45] as int) * (INV_MDS@[1] as int) + (MDS@[46] as int) * (INV_MDS@[10] as int) + (MDS@[47] as int) * (INV_MDS@[19] as int) + (MDS@[48] as int) * (INV_MDS@[28] as int) + (MDS@[49] as int) * (INV_MDS@[37] as int) + (MDS@[50] as int) * (INV_MDS@[46] as int) + (MDS@[51] as int) * (INV_MDS@[55] as int) + (MDS@[52] as int) * (INV_MDS@[64] as int) + (MDS@[53] as int) * (INV_MDS@[73] as int));
    assert(((MDS@[45] as int) * (INV_MDS@[1] as int) + (MDS@[46] as int) * (INV_MDS@[10] as int) + (MDS@[47] as int) * (INV_MDS@[19] as int) + (MDS@[48] as int) * (INV_MDS@[28] as int) + (MDS@[49] as int) * (INV_MDS@[37] as int) + (MDS@[50] as int) * (INV_MDS@[46] as int) + (MDS@[51] as int) * (INV_MDS@[55] as int) + (MDS@[52] as int) * (INV_MDS@[64] as int) + (MDS@[53] as int) * (INV_MDS@[73] as int)) % 4611624995532046337 == 0) by (nonlinear_arith)
        requires
            MDS@[45] == 418351083517431213, MDS@[46] == 1604014025070032746, MDS@[47] == 4416269077327681940, MDS@[48] == 681286285019270020, MDS@[49] == 2805410846266053252, MDS@[50] == 2410684455530809505, MDS@[51] == 4077427075299802133, MDS@[52] == 3417121306051169026, MDS@[53] == 3227560823577981851, INV_MDS@[1] == 2192294647579404765, INV_MDS@[10] == 1472993453010258945, INV_MDS@[19] == 1274059338065041488, INV_MDS@[28] == 2360900441789594331, INV_MDS@[37] == 3776081033478750867, INV_MDS@[46] == 3377550819844293227, INV_MDS@[55] == 4596885798055676665, INV_MDS@[64] == 1041748211388490239, INV_MDS@[73] == 977196139524086241,
    ;
    assert(product_entry(MDS@, INV_MDS@, 9, 5, 2) == (MDS@[45] as int) * (INV_MDS@[2] as int) + (MDS@[46] as int) * (INV_MDS@[11] as int) + (MDS@[47] as int) * (INV_MDS@[20] as int) + (MDS@[48] as int) * (INV_MDS@[29] as int) + (MDS@[49] as int) * (INV_MDS@[38] as int) + (MDS@[50] as int) * (INV_MDS@[47] as int) + (MDS@[51] as int) * (INV_MDS@[56] as int) + (MDS@[52] as int) * (INV_MDS@[65] as int) + (MDS@[53] as int) * (INV_MDS@[74] as int));
    assert(((MDS@[45] as int) * (INV_MDS@[2] as int) + (MDS@[46] as int) * (INV_MDS@[11] as int) + (MDS@[47] as int) * (INV_MDS@[20] as int) + (MDS@[48] as int) * (INV_MDS@[29] as int) + (MDS@[49] as int) * (INV_MDS@[38] as int) + (MDS@[50] as int) * (INV_MDS@[47] as int) + (MDS@[51] as int) * (INV_MDS@[56] as int) + (MDS@[52] as int) * (INV_MDS@[65] as int) + (MDS@[53] as int) * (INV_MDS@[74] as int)) % 4611624995532046337 == 0) by (nonlinear_arith)
        requires
            MDS@[45] == 418351083517431213, MDS@[46] == 1604014025070032746, MDS@[47] == 4416269077327681940, MDS@[48] == 681286285019270020, MDS@[49] == 2805410846266053252, MDS@[50] == 2410684455530809505, MDS@[51] == 4077427075299802133, MDS@[52] == 3417121306051169026, MDS@[53] == 3227560823577981851, INV_MDS@[2] == 2247283712851777654, INV_MDS@[11] == 1795205275729888080, INV_MDS@[20] == 1711978099802673295, INV_MDS@[29] == 697008895183019540, INV_MDS@[38] == 4197195984439072521, INV_MDS@[47] == 2405537603155391432, INV_MDS@[56] == 1067306248085340780, INV_MDS@[65] == 4525166593910048957, INV_MDS@[74] == 4046373689597190438,
    ;
    assert(product_entry(MDS@, INV_MDS@, 9, 5, 3) == (MDS@[45] as int) * (INV_MDS@[3] as int) + (MDS@[46] as int) * (INV_MDS@[12] as int) + (MDS@[47] as int) * (INV_MDS@[21] as int) + (MDS@[48] as int) * (INV_MDS@[30] as int) + (MDS@[49] as int) * (INV_MDS@[39] as int) + (MDS@[50] as int) * (INV_MDS@[48] as int) + (MDS@[51] as int) * (INV_MDS@[57] as int) + (MDS@[52] as int) * (INV_MDS@[66] as int) + (MDS@[53] as int) * (INV_MDS@[75] as int));
    assert(((MDS@[45] as int) * (INV_MDS@[3] as int) + (MDS@[46] as int) * (INV_MDS@[12] as int) + (MDS@[47] as int) * (INV_MDS@[21] as int) + (MDS@[48] as int) * (INV_MDS@[30] as int) + (MDS@[49] as int) * (INV_MDS@[39] as int) + (MDS@[50] as int) * (INV_MDS@[48] as int) + (MDS@[51] as int) * (INV_MDS@[57] as int) + (MDS@[52] as int) * (INV_MDS@[66] as int) + (MDS@[53] as int) * (INV_MDS@[75] as int)) % 4611624995532046337 == 0) by (nonlinear_arith)
        requires
            MDS@[45] == 418351083517431213, MDS@[46] == 1604014025070032746, MDS@[47] == 4416269077327681940, MDS@[48] == 681286285019270020, MDS@[49] == 2805410846266053252, MDS@[50] == 2410684455530809505, MDS@[51] == 4077427075299802133, MDS@[52] == 3417121306051169026, MDS@[53] == 3227560823577981851, INV_MDS@[3] == 1016653726681019018, INV_MDS@[12] == 3589415998546501003, INV_MDS@[21] == 3853263153951502696, INV_MDS@[30] == 275384929271023918, INV_MDS@[39] == 2323160270091604467, INV_MDS@[48] == 4494434426780066202, INV_MDS@[57] == 681737992013306965, INV_MDS@[66] == 977282067546530790, INV_MDS@[75] == 2740698142978392711,
    ;
    assert(product_entry(MDS@, INV_MDS@, 9, 5, 4) == (MDS@[45] as int) * (INV_MDS@[4] as int) + (MDS@[46] as int) * (INV_MDS@[13] as int) + (MDS@[47] as int) * (INV_MDS@[22] as int) + (MDS@[48] as int) * (INV_MDS@[31] as int) + (MDS@[49] as int) * (INV_MDS@[40] as int) + (MDS@[50] as int) * (INV_MDS@[49] as int) + (MDS@[51] as int) * (INV_MDS@[58] as int) + (MDS@[52] as int) * (INV_MDS@[67] as int) + (MDS@[53] as int) * (INV_MDS@[76] as int));
    assert(((MDS@[45] as int) * (INV_MDS@[4] as int) + (MDS@[46] as int) * (INV_MDS@[13] as int) + (MDS@[47] as int) * (INV_MDS@[22] as int) + (MDS@[48] as int) * (INV_MDS@[31] as int) + (MDS@[49] as int) * (INV_MDS@[40] as int) + (MDS@[50] as int) * (INV_MDS@[49] as int) + (MDS@[51] as int) * (INV_MDS@[58] as int) + (MDS@[52] as int) * (INV_MDS@[67] as int) + (MDS@[53] as int) * (INV_MDS@[76] as int)) % 4611624995532046337 == 0) by (nonlinear_arith)
        requires
            MDS@[45] == 418351083517431213, MDS@[46] == 1604014025070032746, MDS@[47] == 4416269077327681940, MDS@[48] == 681286285019270020, MDS@[49] == 2805410846266053252, MDS@[50] == 2410684455530809505, MDS@[51] == 4077427075299802133, MDS@[52] == 3417121306051169026, MDS@[53] == 3227560823577981851, INV_MDS@[4] == 4084320113214072343, INV_MDS@[13] == 3294978760228179936, INV_MDS@[22] == 1022446755313492063, INV_MDS@[31] == 4322677085037880573, INV_MDS@[40] == 2968178383345228859, INV_MDS@[49] == 3399461679221988058, INV_MDS@[58] == 1520629548906454474, INV_MDS@[67] == 4499663276559992087, INV_MDS@[76] == 478566997738395362,
    ;
    assert(product_entry(MDS@, INV_MDS@, 9, 5, 5) == (MDS@[45] as int) * (INV_MDS@[5] as int) + (MDS@[46] as int) * (INV_MDS@[14] as int) + (MDS@[47] as int) * (INV_MDS@[23] as int) + (MDS@[48] as int) * (INV_MDS@[32] as int) + (MDS@[49] as int) * (INV_MDS@[41] as int) + (MDS@[50] as int) * (INV_MDS@[50] as int) + (MDS@[51] as int) * (INV_MDS@[59] as int) + (MDS@[52] as int) * (INV_MDS@[68] as int) + (MDS@[53] as int) * (INV_MDS@[77] as int));
    assert(((MDS@[45] as int) * (INV_MDS@[5] as int) + (MDS@[46] as int) * (INV_MDS@[14] as int) + (MDS@[47] as int) * (INV_MDS@[23] as int) + (MDS@[48] as int) * (INV_MDS@[32] as int) + (MDS@[49] as int) * (INV_MDS@[41] as int) + (MDS@[50] as int) * (INV_MDS@[50] as int) + (MDS@[51] as int) * (INV_MDS@[59] as int) + (MDS@[52] as int) * (INV_MDS@[68] as int) + (MDS@[53] as int) * (INV_MDS@[77] as int)) % 4611624995532046337 == 1) by (nonlinear_arith)
        requires
            MDS@[45] == 418351083517431213, MDS@[46] == 1604014025070032746, MDS@[47] == 4416269077327681940, MDS@[48] == 681286285019270020, MDS@[49] == 2805410846266053252, MDS@[50] == 2410684455530809505, MDS@[51] == 4077427075299802133, MDS@[52] == 3417121306051169026, MDS@[53] == 3227560823577981851, INV_MDS@[5] == 677515556938913667, INV_MDS@[14] == 1778846966858158585, INV_MDS@[23] == 2814266961258360083, INV_MDS@[32] == 1358253373117268608, INV_MDS@[41] == 3207693524924509149, INV_MDS@[50] == 3410359846988759564, INV_MDS@[59] == 4404047232332091755, INV_MDS@[68] == 3124570284534635445, INV_MDS@[77] == 1317536305202134563,
    ;
    assert(product_entry(MDS@, INV_MDS@, 9, 5, 6) == (MDS@[45] as int) * (INV_MDS@[6] as int) + (MDS@[46] as int) * (INV_MDS@[15] as int) + (MDS@[47] as int) * (INV_MDS@[24] as int) + (MDS@[48] as int) * (INV_MDS@[33] as int) + (MDS@[49] as int) * (INV_MDS@[42] as int) + (MDS@[50] as int) * (INV_MDS@[51] as int) + (MDS@[51] as int) * (INV_MDS@[60] as int) + (MDS@[52] as int) * (INV_MDS@[69] as int) + (MDS@[53] as int) * (INV_MDS@[78] as int));
    assert(((MDS@[45] as int) * (INV_MDS@[6] as int) + (MDS@[46] as int) * (INV_MDS@[15] as int) + (MDS@[47] as int) * (INV_MDS@[24] as int) + (MDS@[48] as int) * (INV_MDS@[33] as int) + (MDS@[49] as int) * (INV_MDS@[42] as int) + (MDS@[50] as int) * (INV_MDS@[51] as int) + (MDS@[51] as int) * (INV_MDS@[60] as int) + (MDS@[52] as int) * (INV_MDS@[69] as int) + (MDS@[53] as int) * (INV_MDS@[78] as int)) % 4611624995532046337 == 0) by (nonlinear_arith)
        requires
            MDS@[45] == 418351083517431213, MDS@[46] == 1604014025070032746, MDS@[47] == 4416269077327681940, MDS@[48] == 681286285019270020, MDS@[49] == 2805410846266053252, MDS@[50] == 2410684455530809505, MDS@[51] == 4077427075299802133, MDS@[52] == 3417121306051169026, MDS@[53] == 3227560823577981851, INV_MDS@[6] == 2421791421881488327, INV_MDS@[15] == 3997809095230362131, INV_MDS@[24] == 2869424750903044655, INV_MDS@[33] == 2976193419717151400, INV_MDS@[42] == 3189047413106611221, INV_MDS@[51] == 1139390336191412558, INV_MDS@[60] == 2694913477905427615, INV_MDS@[69] == 2912864986169238494, INV_MDS@[78] == 3484754205530568350,
    ;
    assert(product_entry(MDS@, INV_MDS@, 9, 5, 7) == (MDS@[45] as int) * (INV_MDS@[7] as int) + (MDS@[46] as int) * (INV_MDS@[16] as int) + (MDS@[47] as int) * (INV_MDS@[25] as int) + (MDS@[48] as int) * (INV_MDS@[34] as int) + (MDS@[49] as int) * (INV_MDS@[43] as int) + (MDS@[50] as int) * (INV_MDS@[52] as int) + (MDS@[51] as int) * (INV_MDS@[61] as int) + (MDS@[52] as int) * (INV_MDS@[70] as int) + (MDS@[53] as int) * (INV_MDS@[79] as int));
    assert(((MDS@[45] as int) * (INV_MDS@[7] as int) + (MDS@[46] as int) * (INV_MDS@[16] as int) + (MDS@[47] as int) * (INV_MDS@[25] as int) + (MDS@[48] as int) * (INV_MDS@[34] as int) + (MDS@[49] as int) * (INV_MDS@[43] as int) + (MDS@[50] as int) * (INV_MDS@[52] as int) + (MDS@[51] as int) * (INV_MDS@[61] as int) + (MDS@[52] as int) * (INV_MDS@[70] as int) + (MDS@[53] as int) * (INV_MDS@[79] as int)) % 4611624995532046337 == 0) by (nonlinear_arith)
        requires
            MDS@[45] == 418351083517431213, MDS@[46] == 1604014025070032746, MDS@[47] == 4416269077327681940, MDS@[48] == 681286285019270020, MDS@[49] == 2805410846266053252, MDS@[50] == 2410684455530809505, MDS@[51] == 4077427075299802133, MDS@[52] == 3417121306051169026, MDS@[53] == 3227560823577981851, INV_MDS@[7] == 3644426067838966381, INV_MDS@[16] == 1212577225021150021, INV_MDS@[25] == 2102868476327595162, INV_MDS@[34] == 1722984966615577177, INV_MDS@[43] == 3494615199478891974, INV_MDS@[52] == 527098797354794496, INV_MDS@[61] == 1346140786108729998, INV_MDS@[70] == 1203274577166891218, INV_MDS@[79] == 917159143741939893,
    ;
    assert(product_entry(MDS@, INV_MDS@, 9, 5, 8) == (MDS@[45] as int) * (INV_MDS@[8] as int) + (MDS@[46] as int) * (INV_MDS@[17] as int) + (MDS@[47] as int) * (INV_MDS@[26] as int) + (MDS@[48] as int) * (INV_MDS@[35] as int) + (MDS@[49] as int) * (INV_MDS@[44] as int) + (MDS@[50] as int) * (INV_MDS@[53] as int) + (MDS@[51] as int) * (INV_MDS@[62] as int) + (MDS@[52] as int) * (INV_MDS@[71] as int) + (MDS@[53] as int) * (INV_MDS@[80] as int));
    assert(((MDS@[45] as int) * (INV_MDS@[8] as int) + (MDS@[46] as int) * (INV_MDS@[17] as int) + (MDS@[47] as int) * (INV_MDS@[26] as int) + (MDS@[48] as int) * (INV_MDS@[35] as int) + (MDS@[49] as int) * (INV_MDS@[44] as int) + (MDS@[50] as int) * (INV_MDS@[53] as int) + (MDS@[51] as int) * (INV_MDS@[62] as int) + (MDS@[52] as int) * (INV_MDS@[71] as int) + (MDS@[53] as int) * (INV_MDS@[80] as int)) % 4611624995532046337 == 0) by (nonlinear_arith)
        requires
            MDS@[45] == 418351083517431213, MDS@[46] == 1604014025070032746, MDS@[47] == 4416269077327681940, MDS@[48] == 681286285019270020, MDS@[49] == 2805410846266053252, MDS@[50] == 2410684455530809505, MDS@[51] == 4077427075299802133, MDS@[52] == 3417121306051169026, MDS@[53] == 3227560823577981851, INV_MDS@[8] == 3238629916340680919, INV_MDS@[17] == 4061088654507655253, INV_MDS@[26] == 2043814954142938352, INV_MDS@[35] == 3989226681729841537, INV_MDS@[44] == 939172905675675913, INV_MDS@[53] == 4198688907584692459, INV_MDS@[62] == 4276303366710150332, INV_MDS@[71] == 3369488350775322085, INV_MDS@[80] == 2754416681698366673,
    ;
}

proof fn lemma_product_forward_row_6()
    ensures
        identity_row(Elem::modulus(), MDS@, INV_MDS@, 9, 6, 9),
{
    reveal_with_fuel(sum, 10);
    reveal_with_fuel(identity_row, 10);
    assert(product_entry(MDS@, INV_MDS@, 9, 6, 0) == (MDS@[54] as int) * (INV_MDS@[0] as int) + (MDS@[55] as int) * (INV_MDS@[9] as int) + (MDS@[56] as int) * (INV_MDS@[18] as int) + (MDS@[57] as int) * (INV_MDS@[27] as int) + (MDS@[58] as int) * (INV_MDS@[36] as int) + (MDS@[59] as int) * (INV_MDS@[45] as int) + (MDS@[60] as int) * (INV_MDS@[54] as int) + (MDS@[61] as int) * (INV_MDS@[63] as int) + (MDS@[62] as int) * (INV_MDS@[72] as int));
    assert(((MDS@[54] as int) * (INV_MDS@[0] as int) + (MDS@[55] as int) * (INV_MDS@[9] as int) + (MDS@[56] as int) * (INV_MDS@[18] as int) + (MDS@[57] as int) * (INV_MDS@[27] as int) + (MDS@[58] as int) * (INV_MDS@[36] as int) + (MDS@[59] as int) * (INV_MDS@[45] as int) + (MDS@[60] as int) * (INV_MDS@[54] as int) + (MDS@[61] as int) * (INV_MDS@[63] as int) + (MDS@[62] as int) * (INV_MDS@[72] as int)) % 4611624995532046337 == 0) by (nonlinear_arith)
        requires
            MDS@[54] == 3691476875300647805, MDS@[55] == 1874414663873269341, MDS@[56] == 1418653137253019787, MDS@[57] == 2559323521522078511, MDS@[58] == 1382789646784900202, MDS@[59] == 2739816669015464653, MDS@[60] == 3129816858893153678, MDS@[61] == 679991697250255911, MDS@[62] == 970216912235395461, INV_MDS@[0] == 3535209814333908612, INV_MDS@[9] == 1855209548528077732, INV_MDS@[18] == 754377492363537555, INV_MDS@[27] == 743870189666828265, INV_MDS@[36] == 3574605258651933052, INV_MDS@[45] == 105602560538833690, INV_MDS@[54] == 2470160527543053102, INV_MDS@[63] == 1404066629609082371, INV_MDS@[72] == 1729798676117111118,
    ;
    assert(product_entry(MDS@, INV_MDS@, 9, 6, 1) == (MDS@[54] as int) * (INV_MDS@[1] as int) + (MDS@[55] as int) * (INV_MDS@[10] as int) + (MDS@[56] as int) * (INV_MDS@[19] as int) + (MDS@[57] as int) * (INV_MDS@[28] as int) + (MDS@[58] as int) * (INV_MDS@[37] as int) + (MDS@[59] as int) * (INV_MDS@[46] as int) + (MDS@[60] as int) * (INV_MDS@[55] as int) + (MDS@[61] as int) * (INV_MDS@[64] as int) + (MDS@[62] as int) * (INV_MDS@[73] as int));
    assert(((MDS@[54] as int) * (INV_MDS@[1] as int) + (MDS@[55] as int) * (INV_MDS@[10] as int) + (MDS@[56] as int) * (INV_MDS@[19] as int) + (MDS@[57] as int) * (INV_MDS@[28] as int) + (MDS@[58] as int) * (INV_MDS@[37] as int) + (MDS@[59] as int) * (INV_MDS@[46] as int) + (MDS@[60] as int) * (INV_MDS@[55] as int) + (MDS@[61] as int) * (INV_MDS@[64] as int) + (MDS@[62] as int) * (INV_MDS@[73] as int)) % 4611624995532046337 == 0) by (nonlinear_arith)
        requires
            MDS@[54] == 3691476875300647805, MDS@[55] == 1874414663873269341, MDS@[56] == 1418653137253019787, MDS@[57] == 2559323521522078511, MDS@[58] == 1382789646784900202, MDS@[59] == 2739816669015464653, MDS@[60] == 3129816858893153678, MDS@[61] == 679991697250255911, MDS@[62] == 970216912235395461, INV_MDS@[1] == 2192294647579404765, INV_MDS@[10] == 1472993453010258945, INV_MDS@[19] == 1274059338065041488, INV_MDS@[28] == 2360900441789594331, INV_MDS@[37] == 3776081033478750867, INV_MDS@[46] == 3377550819844293227, INV_MDS@[55] == 4596885798055676665, INV_MDS@[64] == 1041748211388490239, INV_MDS@[73] == 977196139524086241,
    ;
    assert(product_entry(MDS@, INV_MDS@, 9, 6, 2) == (MDS@[54] as int) * (INV_MDS@[2] as int) + (MDS@[55] as int) * (INV_MDS@[11] as int) + (MDS@[56] as int) * (INV_MDS@[20] as int) + (MDS@[57] as int) * (INV_MDS@[29] as int) + (MDS@[58] as int) * (INV_MDS@[38] as int) + (MDS@[59] as int) * (INV_MDS@[47] as int) + (MDS@[60] as int) * (INV_MDS@[56] as int) + (MDS@[61] as int) * (INV_MDS@[65] as int) + (MDS@[62] as int) * (INV_MDS@[74] as int));
    assert(((MDS@[54] as int) * (INV_MDS@[2] as int) + (MDS@[55] as int) * (INV_MDS@[11] as int) + (MDS@[56] as int) * (INV_MDS@[20] as int) + (MDS@[57] as int) * (INV_MDS@[29] as int) + (MDS@[58] as int) * (INV_MDS@[38] as int) + (MDS@[59] as int) * (INV_MDS@[47] as int) + (MDS@[60] as int) * (INV_MDS@[56] as int) + (MDS@[61] as int) * (INV_MDS@[65] as int) + (MDS@[62] as int) * (INV_MDS@[74] as int)) % 4611624995532046337 == 0) by (nonlinear_arith)
        requires
            MDS@[54] == 3691476875300647805, MDS@[55] == 1874414663873269341, MDS@[56] == 1418653137253019787, MDS@[57] == 2559323521522078511, MDS@[58] == 1382789646784900202, MDS@[59] == 2739816669015464653, MDS@[60] == 3129816858893153678, MDS@[61] == 679991697250255911, MDS@[62] == 970216912235395461, INV_MDS@[2] == 2247283712851777654, INV_MDS@[11] == 1795205275729888080, INV_MDS@[20] == 1711978099802673295, INV_MDS@[29] == 697008895183019540, INV_MDS@[38] == 4197195984439072521, INV_MDS@[47] == 2405537603155391432, INV_MDS@[56] == 1067306248085340780, INV_MDS@[65] == 4525166593910048957, INV_MDS@[74] == 4046373689597190438,
    ;
    assert(product_entry(MDS@, INV_MDS@, 9, 6, 3) == (MDS@[54] as int) * (INV_MDS@[3] as int) + (MDS@[55] as int) * (INV_MDS@[12] as int) + (MDS@[56] as int) * (INV_MDS@[21] as int) + (MDS@[57] as int) * (INV_MDS@[30] as int) + (MDS@[58] as int) * (INV_MDS@[39] as int) + (MDS@[59] as int) * (INV_MDS@[48] as int) + (MDS@[60] as int) * (INV_MDS@[57] as int) + (MDS@[61] as int) * (INV_MDS@[66] as int) + (MDS@[62] as int) * (INV_MDS@[75] as int));
    assert(((MDS@[54] as int) * (INV_MDS@[3] as int) + (MDS@[55] as int) * (INV_MDS@[12] as int) + (MDS@[56] as int) * (INV_MDS@[21] as int) + (MDS@[57] as int) * (INV_MDS@[30] as int) + (MDS@[58] as int) * (INV_MDS@[39] as int) + (MDS@[59] as int) * (INV_MDS@[48] as int) + (MDS@[60] as int) * (INV_MDS@[57] as int) + (MDS@[61] as int) * (INV_MDS@[66] as int) + (MDS@[62] as int) * (INV_MDS@[75] as int)) % 4611624995532046337 == 0) by (nonlinear_arith)
        requires
            MDS@[54] == 3691476875300647805, MDS@[55] == 1874414663873269341, MDS@[56] == 1418653137253019787, MDS@[57] == 2559323521522078511, MDS@[58] == 1382789646784900202, MDS@[59] == 2739816669015464653, MDS@[60] == 3129816858893153678, MDS@[61] == 679991697250255911, MDS@[62] == 970216912235395461, INV_MDS@[3] == 1016653726681019018, INV_MDS@[12] == 3589415998546501003, INV_MDS@[21] == 3853263153951502696, INV_MDS@[30] == 275384929271023918, INV_MDS@[39] == 2323160270091604467, INV_MDS@[48] == 4494434426780066202, INV_MDS@[57] == 681737992013306965, INV_MDS@[66] == 977282067546530790, INV_MDS@[75] == 2740698142978392711,
    ;
    assert(product_entry(MDS@, INV_MDS@, 9, 6, 4) == (MDS@[54] as int) * (INV_MDS@[4] as int) + (MDS@[55] as int) * (INV_MDS@[13] as int) + (MDS@[56] as int) * (INV_MDS@[22] as int) + (MDS@[57] as int) * (INV_MDS@[31] as int) + (MDS@[58] as int) * (INV_MDS@[40] as int) + (MDS@[59] as int) * (INV_MDS@[49] as int) + (MDS@[60] as int) * (INV_MDS@[58] as int) + (MDS@[61] as int) * (INV_MDS@[67] as int) + (MDS@[62] as int) * (INV_MDS@[76] as int));
    assert(((MDS@[54] as int) * (INV_MDS@[4] as int) + (MDS@[55] as int) * (INV_MDS@[13] as int) + (MDS@[56] as int) * (INV_MDS@[22] as int) + (MDS@[57] as int) * (INV_MDS@[31] as int) + (MDS@[58] as int) * (INV_MDS@[40] as int) + (MDS@[59] as int) * (INV_MDS@[49] as int) + (MDS@[60] as int) * (INV_MDS@[58] as int) + (MDS@[61] as int) * (INV_MDS@[67] as int) + (MDS@[62] as int) * (INV_MDS@[76] as int)) % 4611624995532046337 == 0) by (nonlinear_arith)
        requires
            MDS@[54] == 3691476875300647805, MDS@[55] == 1874414663873269341, MDS@[56] == 1418653137253019787, MDS@[57] == 2559323521522078511, MDS@[58] == 1382789646784900202, MDS@[59] == 2739816669015464653, MDS@[60] == 3129816858893153678, MDS@[61] == 679991697250255911, MDS@[62] == 970216912235395461, INV_MDS@[4] == 4084320113214072343, INV_MDS@[13] == 3294978760228179936, INV_MDS@[22] == 1022446755313492063, INV_MDS@[31] == 4322677085037880573, INV_MDS@[40] == 2968178383345228859, INV_MDS@[49] == 3399461679221988058, INV_MDS@[58] == 1520629548906454474, INV_MDS@[67] == 4499663276559992087, INV_MDS@[76] == 478566997738395362,
    ;
    assert(product_entry(MDS@, INV_MDS@, 9, 6, 5) == (MDS@[54] as int) * (INV_MDS@[5] as int) + (MDS@[55] as int) * (INV_MDS@[14] as int) + (MDS@[56] as int) * (INV_MDS@[23] as int) + (MDS@[57] as int) * (INV_MDS@[32] as int) + (MDS@[58] as int) * (INV_MDS@[41] as int) + (MDS@[59] as int) * (INV_MDS@[50] as int) + (MDS@[60] as int) * (INV_MDS@[59] as int) + (MDS@[61] as int) * (INV_MDS@[68] as int) + (MDS@[62] as int) * (INV_MDS@[77] as int));
    assert(((MDS@[54] as int) * (INV_MDS@[5] as int) + (MDS@[55] as int) * (INV_MDS@[14] as int) + (MDS@[56] as int) * (INV_MDS@[23] as int) + (MDS@[57] as int) * (INV_MDS@[32] as int) + (MDS@[58] as int) * (INV_MDS@[41] as int) + (MDS@[59] as int) * (INV_MDS@[50] as int) + (MDS@[60] as int) * (INV_MDS@[59] as int) + (MDS@[61] as int) * (INV_MDS@[68] as int) + (MDS@[62] as int) * (INV_MDS@[77] as int)) % 4611624995532046337 == 0) by (nonlinear_arith)
        requires
            MDS@[54] == 3691476875300647805, MDS@[55] == 1874414663873269341, MDS@[56] == 1418653137253019787, MDS@[57] == 2559323521522078511, MDS@[58] == 1382789646784900202, MDS@[59] == 2739816669015464653, MDS@[60] == 3129816858893153678, MDS@[61] == 679991697250255911, MDS@[62] == 970216912235395461, INV_MDS@[5] == 677515556938913667, INV_MDS@[14] == 1778846966858158585, INV_MDS@[23] == 2814266961258360083, INV_MDS@[32] == 1358253373117268608, INV_MDS@[41] == 3207693524924509149, INV_MDS@[50] == 3410359846988759564, INV_MDS@[59] == 4404047232332091755, INV_MDS@[68] == 3124570284534635445, INV_MDS@[77] == 1317536305202134563,
    ;
    assert(product_entry(MDS@, INV_MDS@, 9, 6, 6) == (MDS@[54] as int) * (INV_MDS@[6] as int) + (MDS@[55] as int) * (INV_MDS@[15] as int) + (MDS@[56] as int) * (INV_MDS@[24] as int) + (MDS@[57] as int) * (INV_MDS@[33] as int) + (MDS@[58] as int) * (INV_MDS@[42] as int) + (MDS@[59] as int) * (INV_MDS@[51] as int) + (MDS@[60] as int) * (INV_MDS@[60] as int) + (MDS@[61] as int) * (INV_MDS@[69] as int) + (MDS@[62] as int) * (INV_MDS@[78] as int));
    assert(((MDS@[54] as int) * (INV_MDS@[6] as int) + (MDS@[55] as int) * (INV_MDS@[15] as int) + (MDS@[56] as int) * (INV_MDS@[24] as int) + (MDS@[57] as int) * (INV_MDS@[33] as int) + (MDS@[58] as int) * (INV_MDS@[42] as int) + (MDS@[59] as int) * (INV_MDS@[51] as int) + (MDS@[60] as int) * (INV_MDS@[60] as int) + (MDS@[61] as int) * (INV_MDS@[69] as int) + (MDS@[62] as int) * (INV_MDS@[78] as int)) % 4611624995532046337 == 1) by (nonlinear_arith)
        requires
            MDS@[54] == 3691476875300647805, MDS@[55] == 1874414663873269341, MDS@[56] == 1418653137253019787, MDS@[57] == 2559323521522078511, MDS@[58] == 1382789646784900202, MDS@[59] == 2739816669015464653, MDS@[60] == 3129816858893153678, MDS@[61] == 679991697250255911, MDS@[62] == 970216912235395461, INV_MDS@[6] == 2421791421881488327, INV_MDS@[15] == 3997809095230362131, INV_MDS@[24] == 2869424750903044655, INV_MDS@[33] == 2976193419717151400, INV_MDS@[42] == 3189047413106611221, INV_MDS@[51] == 1139390336191412558, INV_MDS@[60] == 2694913477905427615, INV_MDS@[69] == 2912864986169238494, INV_MDS@[78] == 3484754205530568350,
    ;
    assert(product_entry(MDS@, INV_MDS@, 9, 6, 7) == (MDS@[54] as int) * (INV_MDS@[7] as int) + (MDS@[55] as int) * (INV_MDS@[16] as int) + (MDS@[56] as int) * (INV_MDS@[25] as int) + (MDS@[57] as int) * (INV_MDS@[34] as int) + (MDS@[58] as int) * (INV_MDS@[43] as int) + (MDS@[59] as int) * (INV_MDS@[52] as int) + (MDS@[60] as int) * (INV_MDS@[61] as int) + (MDS@[61] as int) * (INV_MDS@[70] as int) + (MDS@[62] as int) * (INV_MDS@[79] as int));
    assert(((MDS@[54] as int) * (INV_MDS@[7] as int) + (MDS@[55] as int) * (INV_MDS@[16] as int) + (MDS@[56] as int) * (INV_MDS@[25] as int) + (MDS@[57] as int) * (INV_MDS@[34] as int) + (MDS@[58] as int) * (INV_MDS@[43] as int) + (MDS@[59] as int) * (INV_MDS@[52] as int) + (MDS@[60] as int) * (INV_MDS@[61] as int) + (MDS@[61] as int) * (INV_MDS@[70] as int) + (MDS@[62] as int) * (INV_MDS@[79] as int)) % 4611624995532046337 == 0) by (nonlinear_arith)
        requires
            MDS@[54] == 3691476875300647805, MDS@[55] == 1874414663873269341, MDS@[56] == 1418653137253019787, MDS@[57] == 2559323521522078511, MDS@[58] == 1382789646784900202, MDS@[59] == 2739816669015464653, MDS@[60] == 3129816858893153678, MDS@[61] == 679991697250255911, MDS@[62] == 970216912235395461, INV_MDS@[7] == 3644426067838966381, INV_MDS@[16] == 1212577225021150021, INV_MDS@[25] == 2102868476327595162, INV_MDS@[34] == 1722984966615577177, INV_MDS@[43] == 3494615199478891974, INV_MDS@[52] == 527098797354794496, INV_MDS@[61] == 1346140786108729998, INV_MDS@[70] == 1203274577166891218, INV_MDS@[79] == 917159143741939893,
    ;
    assert(product_entry(MDS@, INV_MDS@, 9, 6, 8) == (MDS@[54] as int) * (INV_MDS@[8] as int) + (MDS@[55] as int) * (INV_MDS@[17] as int) + (MDS@[56] as int) * (INV_MDS@[26] as int) + (MDS@[57] as int) * (INV_MDS@[35] as int) + (MDS@[58] as int) * (INV_MDS@[44] as int) + (MDS@[59] as int) * (INV_MDS@[53] as int) + (MDS@[60] as int) * (INV_MDS@[62] as int) + (MDS@[61] as int) * (INV_MDS@[71] as int) + (MDS@[62] as int) * (INV_MDS@[80] as int));
    assert(((MDS@[54] as int) * (INV_MDS@[8] as int) + (MDS@[55] as int) * (INV_MDS@[17] as int) + (MDS@[56] as int) * (INV_MDS@[26] as int) + (MDS@[57] as int) * (INV_MDS@[35] as int) + (MDS@[58] as int) * (INV_MDS@[44] as int) + (MDS@[59] as int) * (INV_MDS@[53] as int) + (MDS@[60] as int) * (INV_MDS@[62] as int) + (MDS@[61] as int) * (INV_MDS@[71] as int) + (MDS@[62] as int) * (INV_MDS@[80] as int)) % 4611624995532046337 == 0) by (nonlinear_arith)
        requires
            MDS@[54] == 3691476875300647805, MDS@[55] == 1874414663873269341, MDS@[56] == 1418653137253019787, MDS@[57] == 2559323521522078511, MDS@[58] == 1382789646784900202, MDS@[59] == 2739816669015464653, MDS@[60] == 3129816858893153678, MDS@[61] == 679991697250255911, MDS@[62] == 970216912235395461, INV_MDS@[8] == 3238629916340680919, INV_MDS@[17] == 4061088654507655253, INV_MDS@[26] == 2043814954142938352, INV_MDS@[35] == 3989226681729841537, INV_MDS@[44] == 939172905675675913, INV_MDS@[53] == 4198688907584692459, INV_MDS@[62] == 4276303366710150332, INV_MDS@[71] == 3369488350775322085, INV_MDS@[80] == 2754416681698366673,
    ;
}

proof fn lemma_product_forward_row_7()
    ensures
        identity_row(Elem::modulus(), MDS@, INV_MDS@, 9, 7, 9),
{
    reveal_with_fuel(sum, 10);
    reveal_with_fuel(identity_row, 10);
    assert(product_entry(MDS@, INV_MDS@, 9, 7, 0) == (MDS@[63] as int) * (INV_MDS@[0] as int) + (MDS@[64] as int) * (INV_MDS@[9] as int) + (MDS@[65] as int) * (INV_MDS@[18] as int) + (MDS@[66] as int) * (INV_MDS@[27] as int) + (MDS@[67] as int) * (INV_MDS@[36] as int) + (MDS@[68] as int) * (INV_MDS@[45] as int) + (MDS@[69] as int) * (INV_MDS@[54] as int) + (MDS@[70] as int) * (INV_MDS@[63] as int) + (MDS@[71] as int) * (INV_MDS@[72] as int));
    assert(((MDS@[63] as int) * (INV_MDS@[0] as int) + (MDS@[64] as int) * (INV_MDS@[9] as int) + (MDS@[65] as int) * (INV_MDS@[18] as int) + (MDS@[66] as int) * (INV_MDS@[27] as int) + (MDS@[67] as int) * (INV_MDS@[36] as int) + (MDS@[68] as int) * (INV_MDS@[45] as int) + (MDS@[69] as int) * (INV_MDS@[54] as int) + (MDS@[70] as int) * (INV_MDS@[63] as int) + (MDS@[71] as int) * (INV_MDS@[72] as int)) % 4611624995532046337 == 0) by (nonlinear_arith)
        requires
            MDS@[63] == 2928319956530473610, MDS@[64] == 2247820445494298710, MDS@[65] == 4005627978492551095, MDS@[66] == 1162150878861062419, MDS@[67] == 4269347266999601819, MDS@[68] == 1020076390998853272, MDS@[69] == 1754026023882377187, MDS@[70] == 3149871781959943552, MDS@[71] == 2520884254441070022, INV_MDS@[0] == 3535209814333908612, INV_MDS@[9] == 1855209548528077732, INV_MDS@[18] == 754377492363537555, INV_MDS@[27] == 743870189666828265, INV_MDS@[36] == 3574605258651933052, INV_MDS@[45] == 105602560538833690, INV_MDS@[54] == 2470160527543053102, INV_MDS@[63] == 1404066629609082371, INV_MDS@[72] == 1729798676117111118,
    ;
    assert(product_entry(MDS@, INV_MDS@, 9, 7, 1) == (MDS@[63] as int) * (INV_MDS@[1] as int) + (MDS@[64] as int) * (INV_MDS@[10] as int) + (MDS@[65] as int) * (INV_MDS@[19] as int) + (MDS@[66] as int) * (INV_MDS@[28] as int) + (MDS@[67] as int) * (INV_MDS@[37] as int) + (MDS@[68] as int) * (INV_MDS@[46] as int) + (MDS@[69] as int) * (INV_MDS@[55] as int) + (MDS@[70] as int) * (INV_MDS@[64] as int) + (MDS@[71] as int) * (INV_MDS@[73] as int));
    assert(((MDS@[63] as int) * (INV_MDS@[1] as int) + (MDS@[64] as int) * (INV_MDS@[10] as int) + (MDS@[65] as int) * (INV_MDS@[19] as int) + (MDS@[66] as int) * (INV_MDS@[28] as int) + (MDS@[67] as int) * (INV_MDS@[37] as int) + (MDS@[68] as int) * (INV_MDS@[46] as int) + (MDS@[69] as int) * (INV_MDS@[55] as int) + (MDS@[70] as int) * (INV_MDS@[64] as int) + (MDS@[71] as int) * (INV_MDS@[73] as int)) % 4611624995532046337 == 0) by (nonlinear_arith)
        requires
            MDS@[63] == 2928319956530473610, MDS@[64] == 2247820445494298710, MDS@[65] == 4005627978492551095, MDS@[66] == 1162150878861062419, MDS@[67] == 4269347266999601819, MDS@[68] == 1020076390998853272, MDS@[69] == 1754026023882377187, MDS@[70] == 3149871781959943552, MDS@[71] == 2520884254441070022, INV_MDS@[1] == 2192294647579404765, INV_MDS@[10] == 1472993453010258945, INV_MDS@[19] == 1274059338065041488, INV_MDS@[28] == 2360900441789594331, INV_MDS@[37] == 3776081033478750867, INV_MDS@[46] == 3377550819844293227, INV_MDS@[55] == 4596885798055676665, INV_MDS@[64] == 1041748211388490239, INV_MDS@[73] == 977196139524086241,
    ;
    assert(product_entry(MDS@, INV_MDS@, 9, 7, 2) == (MDS@[63] as int) * (INV_MDS@[2] as int) + (MDS@[64] as int) * (INV_MDS@[11] as int) + (MDS@[65] as int) * (INV_MDS@[20] as int) + (MDS@[66] as int) * (INV_MDS@[29] as int) + (MDS@[67] as int) * (INV_MDS@[38] as int) + (MDS@[68] as int) * (INV_MDS@[47] as int) + (MDS@[69] as int) * (INV_MDS@[56] as int) + (MDS@[70] as int) * (INV_MDS@[65] as int) + (MDS@[71] as int) * (INV_MDS@[74] as int));
    assert(((MDS@[63] as int) * (INV_MDS@[2] as int) + (MDS@[64] as int) * (INV_MDS@[11] as int) + (MDS@[65] as int) * (INV_MDS@[20] as int) + (MDS@[66] as int) * (INV_MDS@[29] as int) + (MDS@[67] as int) * (INV_MDS@[38] as int) + (MDS@[68] as int) * (INV_MDS@[47] as int) + (MDS@[69] as int) * (INV_MDS@[56] as int) + (MDS@[70] as int) * (INV_MDS@[65] as int) + (MDS@[71] as int) * (INV_MDS@[74] as int)) % 4611624995532046337 == 0) by (nonlinear_arith)
        requires
            MDS@[63] == 2928319956530473610, MDS@[64] == 2247820445494298710, MDS@[65] == 4005627978492551095, MDS@[66] == 1162150878861062419, MDS@[67] == 4269347266999601819, MDS@[68] == 1020076390998853272, MDS@[69] == 1754026023882377187, MDS@[70] == 3149871781959943552, MDS@[71] == 2520884254441070022, INV_MDS@[2] == 2247283712851777654, INV_MDS@[11] == 1795205275729888080, INV_MDS@[20] == 1711978099802673295, INV_MDS@[29] == 697008895183019540, INV_MDS@[38] == 4197195984439072521, INV_MDS@[47] == 2405537603155391432, INV_MDS@[56] == 1067306248085340780, INV_MDS@[65] == 4525166593910048957, INV_MDS@[74] == 4046373689597190438,
    ;
    assert(product_entry(MDS@, INV_MDS@, 9, 7, 3) == (MDS@[63] as int) * (INV_MDS@[3] as int) + (MDS@[64] as int) * (INV_MDS@[12] as int) + (MDS@[65] as int) * (INV_MDS@[21] as int) + (MDS@[66] as int) * (INV_MDS@[30] as int) + (MDS@[67] as int) * (INV_MDS@[39] as int) + (MDS@[68] as int) * (INV_MDS@[48] as int) + (MDS@[69] as int) * (INV_MDS@[57] as int) + (MDS@[70] as int) * (INV_MDS@[66] as int) + (MDS@[71] as int) * (INV_MDS@[75] as int));
    assert(((MDS@[63] as int) * (INV_MDS@[3] as int) + (MDS@[64] as int) * (INV_MDS@[12] as int) + (MDS@[65] as int) * (INV_MDS@[21] as int) + (MDS@[66] as int) * (INV_MDS@[30] as int) + (MDS@[67] as int) * (INV_MDS@[39] as int) + (MDS@[68] as int) * (INV_MDS@[48] as int) + (MDS@[69] as int) * (INV_MDS@[57] as int) + (MDS@[70] as int) * (INV_MDS@[66] as int) + (MDS@[71] as int) * (INV_MDS@[75] as int)) % 4611624995532046337 == 0) by (nonlinear_arith)
        requires
            MDS@[63] == 2928319956530473610, MDS@[64] == 2247820445494298710, MDS@[65] == 4005627978492551095, MDS@[66] == 1162150878861062419, MDS@[67] == 4269347266999601819, MDS@[68] == 1020076390998853272, MDS@[69] == 1754026023882377187, MDS@[70] == 3149871781959943552, MDS@[71] == 2520884254441070022, INV_MDS@[3] == 1016653726681019018, INV_MDS@[12] == 3589415998546501003, INV_MDS@[21] == 3853263153951502696, INV_MDS@[30] == 275384929271023918, INV_MDS@[39] == 2323160270091604467, INV_MDS@[48] == 4494434426780066202, INV_MDS@[57] == 681737992013306965, INV_MDS@[66] == 977282067546530790, INV_MDS@[75] == 2740698142978392711,
    ;
    assert(product_entry(MDS@, INV_MDS@, 9, 7, 4) == (MDS@[63] as int) * (INV_MDS@[4] as int) + (MDS@[64] as int) * (INV_MDS@[13] as int) + (MDS@[65] as int) * (INV_MDS@[22] as int) + (MDS@[66] as int) * (INV_MDS@[31] as int) + (MDS@[67] as int) * (INV_MDS@[40] as int) + (MDS@[68] as int) * (INV_MDS@[49] as int) + (MDS@[69] as int) * (INV_MDS@[58] as int) + (MDS@[70] as int) * (INV_MDS@[67] as int) + (MDS@[71] as int) * (INV_MDS@[76] as int));
    assert(((MDS@[63] as int) * (INV_MDS@[4] as int) + (MDS@[64] as int) * (INV_MDS@[13] as int) + (MDS@[65] as int) * (INV_MDS@[22] as int) + (MDS@[66] as int) * (INV_MDS@[31] as int) + (MDS@[67] as int) * (INV_MDS@[40] as int) + (MDS@[68] as int) * (INV_MDS@[49] as int) + (MDS@[69] as int) * (INV_MDS@[58] as int) + (MDS@[70] as int) * (INV_MDS@[67] as int) + (MDS@[71] as int) * (INV_MDS@[76] as int)) % 4611624995532046337 == 0) by (nonlinear_arith)
        requires
            MDS@[63] == 2928319956530473610, MDS@[64] == 2247820445494298710, MDS@[65] == 4005627978492551095, MDS@[66] == 1162150878861062419, MDS@[67] == 4269347266999601819, MDS@[68] == 1020076390998853272, MDS@[69] == 1754026023882377187, MDS@[70] == 3149871781959943552, MDS@[71] == 2520884254441070022, INV_MDS@[4] == 4084320113214072343, INV_MDS@[13] == 3294978760228179936, INV_MDS@[22] == 1022446755313492063, INV_MDS@[31] == 4322677085037880573, INV_MDS@[40] == 2968178383345228859, INV_MDS@[49] == 3399461679221988058, INV_MDS@[58] == 1520629548906454474, INV_MDS@[67] == 4499663276559992087, INV_MDS@[76] == 478566997738395362,
    ;
    assert(product_entry(MDS@, INV_MDS@, 9, 7, 5) == (MDS@[63] as int) * (INV_MDS@[5] as int) + (MDS@[64] as int) * (INV_MDS@[14] as int) + (MDS@[65] as int) * (INV_MDS@[23] as int) + (MDS@[66] as int) * (INV_MDS@[32] as int) + (MDS@[67] as int) * (INV_MDS@[41] as int) + (MDS@[68] as int) * (INV_MDS@[50] as int) + (MDS@[69] as int) * (INV_MDS@[59] as int) + (MDS@[70] as int) * (INV_MDS@[68] as int) + (MDS@[71] as int) * (INV_MDS@[77] as int));
    assert(((MDS@[63] as int) * (INV_MDS@[5] as int) + (MDS@[64] as int) * (INV_MDS@[14] as int) + (MDS@[65] as int) * (INV_MDS@[23] as int) + (MDS@[66] as int) * (INV_MDS@[32] as int) + (MDS@[67] as int) * (INV_MDS@[41] as int) + (MDS@[68] as int) * (INV_MDS@[50] as int) + (MDS@[69] as int) * (INV_MDS@[59] as int) + (MDS@[70] as int) * (INV_MDS@[68] as int) + (MDS@[71] as int) * (INV_MDS@[77] as int)) % 4611624995532046337 == 0) by (nonlinear_arith)
        requires
            MDS@[63] == 2928319956530473610, MDS@[64] == 2247820445494298710, MDS@[65] == 4005627978492551095, MDS@[66] == 1162150878861062419, MDS@[67] == 4269347266999601819, MDS@[68] == 1020076390998853272, MDS@[69] == 1754026023882377187, MDS@[70] == 3149871781959943552, MDS@[71] == 2520884254441070022, INV_MDS@[5] == 677515556938913667, INV_MDS@[14] == 1778846966858158585, INV_MDS@[23] == 2814266961258360083, INV_MDS@[32] == 1358253373117268608, INV_MDS@[41] == 3207693524924509149, INV_MDS@[50] == 3410359846988759564, INV_MDS@[59] == 4404047232332091755, INV_MDS@[68] == 3124570284534635445, INV_MDS@[77] == 1317536305202134563,
    ;
    assert(product_entry(MDS@, INV_MDS@, 9, 7, 6) == (MDS@[63] as int) * (INV_MDS@[6] as int) + (MDS@[64] as int) * (INV_MDS@[15] as int) + (MDS@[65] as int) * (INV_MDS@[24] as int) + (MDS@[66] as int) * (INV_MDS@[33] as int) + (MDS@[67] as int) * (INV_MDS@[42] as int) + (MDS@[68] as int) * (INV_MDS@[51] as int) + (MDS@[69] as int) * (INV_MDS@[60] as int) + (MDS@[70] as int) * (INV_MDS@[69] as int) + (MDS@[71] as int) * (INV_MDS@[78] as int));
    assert(((MDS@[63] as int) * (INV_MDS@[6] as int) + (MDS@[64] as int) * (INV_MDS@[15] as int) + (MDS@[65] as int) * (INV_MDS@[24] as int) + (MDS@[66] as int) * (INV_MDS@[33] as int) + (MDS@[67] as int) * (INV_MDS@[42] as int) + (MDS@[68] as int) * (INV_MDS@[51] as int) + (MDS@[69] as int) * (INV_MDS@[60] as int) + (MDS@[70] as int) * (INV_MDS@[69] as int) + (MDS@[71] as int) * (INV_MDS@[78] as int)) % 4611624995532046337 == 0) by (nonlinear_arith)
        requires
            MDS@[63] == 2928319956530473610, MDS@[64] == 2247820445494298710, MDS@[65] == 4005627978492551095, MDS@[66] == 1162150878861062419, MDS@[67] == 4269347266999601819, MDS@[68] == 1020076390998853272, MDS@[69] == 1754026023882377187, MDS@[70] == 3149871781959943552, MDS@[71] == 2520884254441070022, INV_MDS@[6] == 2421791421881488327, INV_MDS@[15] == 3997809095230362131, INV_MDS@[24] == 2869424750903044655, INV_MDS@[33] == 2976193419717151400, INV_MDS@[42] == 3189047413106611221, INV_MDS@[51] == 1139390336191412558, INV_MDS@[60] == 2694913477905427615, INV_MDS@[69] == 2912864986169238494, INV_MDS@[78] == 3484754205530568350,
    ;
    assert(product_entry(MDS@, INV_MDS@, 9, 7, 7) == (MDS@[63] as int) * (INV_MDS@[7] as int) + (MDS@[64] as int) * (INV_MDS@[16] as int) + (MDS@[65] as int) * (INV_MDS@[25] as int) + (MDS@[66] as int) * (INV_MDS@[34] as int) + (MDS@[67] as int) * (INV_MDS@[43] as int) + (MDS@[68] as int) * (INV_MDS@[52] as int) + (MDS@[69] as int) * (INV_MDS@[61] as int) + (MDS@[70] as int) * (INV_MDS@[70] as int) + (MDS@[71] as int) * (INV_MDS@[79] as int));
    assert(((MDS@[63] as int) * (INV_MDS@[7] as int) + (MDS@[64] as int) * (INV_MDS@[16] as int) + (MDS@[65] as int) * (INV_MDS@[25] as int) + (MDS@[66] as int) * (INV_MDS@[34] as int) + (MDS@[67] as int) * (INV_MDS@[43] as int) + (MDS@[68] as int) * (INV_MDS@[52] as int) + (MDS@[69] as int) * (INV_MDS@[61] as int) + (MDS@[70] as int) * (INV_MDS@[70] as int) + (MDS@[71] as int) * (INV_MDS@[79] as int)) % 4611624995532046337 == 1) by (nonlinear_arith)
        requires
            MDS@[63] == 2928319956530473610, MDS@[64] == 2247820445494298710, MDS@[65] == 4005627978492551095, MDS@[66] == 1162150878861062419, MDS@[67] == 4269347266999601819, MDS@[68] == 1020076390998853272, MDS@[69] == 1754026023882377187, MDS@[70] == 3149871781959943552, MDS@[71] == 2520884254441070022, INV_MDS@[7] == 3644426067838966381, INV_MDS@[16] == 1212577225021150021, INV_MDS@[25] == 2102868476327595162, INV_MDS@[34] == 1722984966615577177, INV_MDS@[43] == 3494615199478891974, INV_MDS@[52] == 527098797354794496, INV_MDS@[61] == 1346140786108729998, INV_MDS@[70] == 1203274577166891218, INV_MDS@[79] == 917159143741939893,
    ;
    assert(product_entry(MDS@, INV_MDS@, 9, 7, 8) == (MDS@[63] as int) * (INV_MDS@[8] as int) + (MDS@[64] as int) * (INV_MDS@[17] as int) + (MDS@[65] as int) * (INV_MDS@[26] as int) + (MDS@[66] as int) * (INV_MDS@[35] as int) + (MDS@[67] as int) * (INV_MDS@[44] as int) + (MDS@[68] as int) * (INV_MDS@[53] as int) + (MDS@[69] as int) * (INV_MDS@[62] as int) + (MDS@[70] as int) * (INV_MDS@[71] as int) + (MDS@[71] as int) * (INV_MDS@[80] as int));
    assert(((MDS@[63] as int) * (INV_MDS@[8] as int) + (MDS@[64] as int) * (INV_MDS@[17] as int) + (MDS@[65] as int) * (INV_MDS@[26] as int) + (MDS@[66] as int) * (INV_MDS@[35] as int) + (MDS@[67] as int) * (INV_MDS@[44] as int) + (MDS@[68] as int) * (INV_MDS@[53] as int) + (MDS@[69] as int) * (INV_MDS@[62] as int) + (MDS@[70] as int) * (INV_MDS@[71] as int) + (MDS@[71] as int) * (INV_MDS@[80] as int)) % 4611624995532046337 == 0) by (nonlinear_arith)
        requires
            MDS@[63] == 2928319956530473610, MDS@[64] == 2247820445494298710, MDS@[65] == 4005627978492551095, MDS@[66] == 1162150878861062419, MDS@[67] == 4269347266999601819, MDS@[68] == 1020076390998853272, MDS@[69] == 1754026023882377187, MDS@[70] == 3149871781959943552, MDS@[71] == 2520884254441070022, INV_MDS@[8] == 3238629916340680919, INV_MDS@[17] == 4061088654507655253, INV_MDS@[26] == 2043814954142938352, INV_MDS@[35] == 3989226681729841537, INV_MDS@[44] == 939172905675675913, INV_MDS@[53] == 4198688907584692459, INV_MDS@[62] == 4276303366710150332, INV_MDS@[71] == 3369488350775322085, INV_MDS@[80] == 2754416681698366673,
    ;
}

proof fn lemma_product_forward_row_8()
    ensures
        identity_row(Elem::modulus(), MDS@, INV_MDS@, 9, 8, 9),
{
    reveal_with_fuel(sum, 10);
    reveal_with_fuel(identity_row, 10);
    assert(product_entry(MDS@, INV_MDS@, 9, 8, 0) == (MDS@[72] as int) * (INV_MDS@[0] as int) + (MDS@[73] as int) * (INV_MDS@[9] as int) + (MDS@[74] as int) * (INV_MDS@[18] as int) + (MDS@[75] as int) * (INV_MDS@[27] as int) + (MDS@[76] as int) * (INV_MDS@[36] as int) + (MDS@[77] as int) * (INV_MDS@[45] as int) + (MDS@[78] as int) * (INV_MDS@[54] as int) + (MDS@[79] as int) * (INV_MDS@[63] as int) + (MDS@[80] as int) * (INV_MDS@[72] as int));
    assert(((MDS@[72] as int) * (INV_MDS@[0] as int) + (MDS@[73] as int) * (INV_MDS@[9] as int) + (MDS@[74] as int) * (INV_MDS@[18] as int) + (MDS@[75] as int) * (INV_MDS@[27] as int) + (MDS@[76] as int) * (INV_MDS@[36] as int) + (MDS@[77] as int) * (INV_MDS@[45] as int) + (MDS@[78] as int) * (INV_MDS@[54] as int) + (MDS@[79] as int) * (INV_MDS@[63] as int) + (MDS@[80] as int) * (INV_MDS@[72] as int)) % 4611624995532046337 == 0) by (nonlinear_arith)
        requires
            MDS@[72] == 3605823366462788878, MDS@[73] == 1932568390090888418, MDS@[74] == 210979528524628337, MDS@[75] == 4080931779665215284, MDS@[76] == 2254354572900271594, MDS@[77] == 3743460493495557051, MDS@[78] == 2371731759139912191, MDS@[79] == 4228931313260232939, MDS@[80] == 629343774120736994, INV_MDS@[0] == 3535209814333908612, INV_MDS@[9] == 1855209548528077732, INV_MDS@[18] == 754377492363537555, INV_MDS@[27] == 743870189666828265, INV_MDS@[36] == 3574605258651933052, INV_MDS@[45] == 105602560538833690, INV_MDS@[54] == 2470160527543053102, INV_MDS@[63] == 1404066629609082371, INV_MDS@[72] == 1729798676117111118,
    ;
    assert(product_entry(MDS@, INV_MDS@, 9, 8, 1) == (MDS@[72] as int) * (INV_MDS@[1] as int) + (MDS@[73] as int) * (INV_MDS@[10] as int) + (MDS@[74] as int) * (INV_MDS@[19] as int) + (MDS@[75] as int) * (INV_MDS@[28] as int) + (MDS@[76] as int) * (INV_MDS@[37] as int) + (MDS@[77] as int) * (INV_MDS@[46] as int) + (MDS@[78] as int) * (INV_MDS@[55] as int) + (MDS@[79] as int) * (INV_MDS@[64] as int) + (MDS@[80] as int) * (INV_MDS@[73] as int));
    assert(((MDS@[72] as int) * (INV_MDS@[1] as int) + (MDS@[73] as int) * (INV_MDS@[10] as int) + (MDS@[74] as int) * (INV_MDS@[19] as int) + (MDS@[75] as int) * (INV_MDS@[28] as int) + (MDS@[76] as int) * (INV_MDS@[37] as int) + (MDS@[77] as int) * (INV_MDS@[46] as int) + (MDS@[78] as int) * (INV_MDS@[55] as int) + (MDS@[79] as int) * (INV_MDS@[64] as int) + (MDS@[80] as int) * (INV_MDS@[73] as int)) % 4611624995532046337 == 0) by (nonlinear_arith)
        requires
            MDS@[72] == 3605823366462788878, MDS@[73] == 1932568390090888418, MDS@[74] == 210979528524628337, MDS@[75] == 4080931779665215284, MDS@[76] == 2254354572900271594, MDS@[77] == 3743460493495557051, MDS@[78] == 2371731759139912191, MDS@[79] == 4228931313260232939, MDS@[80] == 629343774120736994, INV_MDS@[1] == 2192294647579404765, INV_MDS@[10] == 1472993453010258945, INV_MDS@[19] == 1274059338065041488, INV_MDS@[28] == 2360900441789594331, INV_MDS@[37] == 3776081033478750867, INV_MDS@[46] == 3377550819844293227, INV_MDS@[55] == 4596885798055676665, INV_MDS@[64] == 1041748211388490239, INV_MDS@[73] == 977196139524086241,
    ;
    assert(product_entry(MDS@, INV_MDS@, 9, 8, 2) == (MDS@[72] as int) * (INV_MDS@[2] as int) + (MDS@[73] as int) * (INV_MDS@[11] as int) + (MDS@[74] as int) * (INV_MDS@[20] as int) + (MDS@[75] as int) * (INV_MDS@[29] as int) + (MDS@[76] as int) * (INV_MDS@[38] as int) + (MDS@[77] as int) * (INV_MDS@[47] as int) + (MDS@[78] as int) * (INV_MDS@[56] as int) + (MDS@[79] as int) * (INV_MDS@[65] as int) + (MDS@[80] as int) * (INV_MDS@[74] as int));
    assert(((MDS@[72] as int) * (INV_MDS@[2] as int) + (MDS@[73] as int) * (INV_MDS@[11] as int) + (MDS@[74] as int) * (INV_MDS@[20] as int) + (MDS@[75] as int) * (INV_MDS@[29] as int) + (MDS@[76] as int) * (INV_MDS@[38] as int) + (MDS@[77] as int) * (INV_MDS@[47] as int) + (MDS@[78] as int) * (INV_MDS@[56] as int) + (MDS@[79] as int) * (INV_MDS@[65] as int) + (MDS@[80] as int) * (INV_MDS@[74] as int)) % 4611624995532046337 == 0) by (nonlinear_arith)
        requires
            MDS@[72] == 3605823366462788878, MDS@[73] == 1932568390090888418, MDS@[74] == 210979528524628337, MDS@[75] == 4080931779665215284, MDS@[76] == 2254354572900271594, MDS@[77] == 3743460493495557051, MDS@[78] == 2371731759139912191, MDS@[79] == 4228931313260232939, MDS@[80] == 629343774120736994, INV_MDS@[2] == 2247283712851777654, INV_MDS@[11] == 1795205275729888080, INV_MDS@[20] == 1711978099802673295, INV_MDS@[29] == 697008895183019540, INV_MDS@[38] == 4197195984439072521, INV_MDS@[47] == 2405537603155391432, INV_MDS@[56] == 1067306248085340780, INV_MDS@[65] == 4525166593910048957, INV_MDS@[74] == 4046373689597190438,
    ;
    assert(product_entry(MDS@, INV_MDS@, 9, 8, 3) == (MDS@[72] as int) * (INV_MDS@[3] as int) + (MDS@[73] as int) * (INV_MDS@[12] as int) + (MDS@[74] as int) * (INV_MDS@[21] as int) + (MDS@[75] as int) * (INV_MDS@[30] as int) + (MDS@[76] as int) * (INV_MDS@[39] as int) + (MDS@[77] as int) * (INV_MDS@[48] as int) + (MDS@[78] as int) * (INV_MDS@[57] as int) + (MDS@[79] as int) * (INV_MDS@[66] as int) + (MDS@[80] as int) * (INV_MDS@[75] as int));
    assert(((MDS@[72] as int) * (INV_MDS@[3] as int) + (MDS@[73] as int) * (INV_MDS@[12] as int) + (MDS@[74] as int) * (INV_MDS@[21] as int) + (MDS@[75] as int) * (INV_MDS@[30] as int) + (MDS@[76] as int) * (INV_MDS@[39] as int) + (MDS@[77] as int) * (INV_MDS@[48] as int) + (MDS@[78] as int) * (INV_MDS@[57] as int) + (MDS@[79] as int) * (INV_MDS@[66] as int) + (MDS@[80] as int) * (INV_MDS@[75] as int)) % 4611624995532046337 == 0) by (nonlinear_arith)
        requires
            MDS@[72] == 3605823366462788878, MDS@[73] == 1932568390090888418, MDS@[74] == 210979528524628337, MDS@[75] == 4080931779665215284, MDS@[76] == 2254354572900271594, MDS@[77] == 3743460493495557051, MDS@[78] == 2371731759139912191, MDS@[79] == 4228931313260232939, MDS@[80] == 629343774120736994, INV_MDS@[3] == 1016653726681019018, INV_MDS@[12] == 3589415998546501003, INV_MDS@[21] == 3853263153951502696, INV_MDS@[30] == 275384929271023918, INV_MDS@[39] == 2323160270091604467, INV_MDS@[48] == 4494434426780066202, INV_MDS@[57] == 681737992013306965, INV_MDS@[66] == 977282067546530790, INV_MDS@[75] == 2740698142978392711,
    ;
    assert(product_entry(MDS@, INV_MDS@, 9, 8, 4) == (MDS@[72] as int) * (INV_MDS@[4] as int) + (MDS@[73] as int) * (INV_MDS@[13] as int) + (MDS@[74] as int) * (INV_MDS@[22] as int) + (MDS@[75] as int) * (INV_MDS@[31] as int) + (MDS@[76] as int) * (INV_MDS@[40] as int) + (MDS@[77] as int) * (INV_MDS@[49] as int) + (MDS@[78] as int) * (INV_MDS@[58] as int) + (MDS@[79] as int) * (INV_MDS@[67] as int) + (MDS@[80] as int) * (INV_MDS@[76] as int));
    assert(((MDS@[72] as int) * (INV_MDS@[4] as int) + (MDS@[73] as int) * (INV_MDS@[13] as int) + (MDS@[74] as int) * (INV_MDS@[22] as int) + (MDS@[75] as int) * (INV_MDS@[31] as int) + (MDS@[76] as int) * (INV_MDS@[40] as int) + (MDS@[77] as int) * (INV_MDS@[49] as int) + (MDS@[78] as int) * (INV_MDS@[58] as int) + (MDS@[79] as int) * (INV_MDS@[67] as int) + (MDS@[80] as int) * (INV_MDS@[76] as int)) % 4611624995532046337 == 0) by (nonlinear_arith)
        requires
            MDS@[72] == 3605823366462788878, MDS@[73] == 1932568390090888418, MDS@[74] == 210979528524628337, MDS@[75] == 4080931779665215284, MDS@[76] == 2254354572900271594, MDS@[77] == 3743460493495557051, MDS@[78] == 2371731759139912191, MDS@[79] == 4228931313260232939, MDS@[80] == 629343774120736994, INV_MDS@[4] == 4084320113214072343, INV_MDS@[13] == 3294978760228179936, INV_MDS@[22] == 1022446755313492063, INV_MDS@[31] == 4322677085037880573, INV_MDS@[40] == 2968178383345228859, INV_MDS@[49] == 3399461679221988058, INV_MDS@[58] == 1520629548906454474, INV_MDS@[67] == 4499663276559992087, INV_MDS@[76] == 478566997738395362,
    ;
    assert(product_entry(MDS@, INV_MDS@, 9, 8, 5) == (MDS@[72] as int) * (INV_MDS@[5] as int) + (MDS@[73] as int) * (INV_MDS@[14] as int) + (MDS@[74] as int) * (INV_MDS@[23] as int) + (MDS@[75] as int) * (INV_MDS@[32] as int) + (MDS@[76] as int) * (INV_MDS@[41] as int) + (MDS@[77] as int) * (INV_MDS@[50] as int) + (MDS@[78] as int) * (INV_MDS@[59] as int) + (MDS@[79] as int) * (INV_MDS@[68] as int) + (MDS@[80] as int) * (INV_MDS@[77] as int));
    assert(((MDS@[72] as int) * (INV_MDS@[5] as int) + (MDS@[73] as int) * (INV_MDS@[14] as int) + (MDS@[74] as int) * (INV_MDS@[23] as int) + (MDS@[75] as int) * (INV_MDS@[32] as int) + (MDS@[76] as int) * (INV_MDS@[41] as int) + (MDS@[77] as int) * (INV_MDS@[50] as int) + (MDS@[78] as int) * (INV_MDS@[59] as int) + (MDS@[79] as int) * (INV_MDS@[68] as int) + (MDS@[80] as int) * (INV_MDS@[77] as int)) % 4611624995532046337 == 0) by (nonlinear_arith)
        requires
            MDS@[72] == 3605823366462788878, MDS@[73] == 1932568390090888418, MDS@[74] == 210979528524628337, MDS@[75] == 4080931779665215284, MDS@[76] == 2254354572900271594, MDS@[77] == 3743460493495557051, MDS@[78] == 2371731759139912191, MDS@[79] == 4228931313260232939, MDS@[80] == 629343774120736994, INV_MDS@[5] == 677515556938913667, INV_MDS@[14] == 1778846966858158585, INV_MDS@[23] == 2814266961258360083, INV_MDS@[32] == 1358253373117268608, INV_MDS@[41] == 3207693524924509149, INV_MDS@[50] == 3410359846988759564, INV_MDS@[59] == 4404047232332091755, INV_MDS@[68] == 3124570284534635445, INV_MDS@[77] == 1317536305202134563,
    ;
    assert(product_entry(MDS@, INV_MDS@, 9, 8, 6) == (MDS@[72] as int) * (INV_MDS@[6] as int) + (MDS@[73] as int) * (INV_MDS@[15] as int) + (MDS@[74] as int) * (INV_MDS@[24] as int) + (MDS@[75] as int) * (INV_MDS@[33] as int) + (MDS@[76] as int) * (INV_MDS@[42] as int) + (MDS@[77] as int) * (INV_MDS@[51] as int) + (MDS@[78] as int) * (INV_MDS@[60] as int) + (MDS@[79] as int) * (INV_MDS@[69] as int) + (MDS@[80] as int) * (INV_MDS@[78] as int));
    assert(((MDS@[72] as int) * (INV_MDS@[6] as int) + (MDS@[73] as int) * (INV_MDS@[15] as int) + (MDS@[74] as int) * (INV_MDS@[24] as int) + (MDS@[75] as int) * (INV_MDS@[33] as int) + (MDS@[76] as int) * (INV_MDS@[42] as int) + (MDS@[77] as int) * (INV_MDS@[51] as int) + (MDS@[78] as int) * (INV_MDS@[60] as int) + (MDS@[79] as int) * (INV_MDS@[69] as int) + (MDS@[80] as int) * (INV_MDS@[78] as int)) % 4611624995532046337 == 0) by (nonlinear_arith)
        requires
            MDS@[72] == 3605823366462788878, MDS@[73] == 1932568390090888418, MDS@[74] == 210979528524628337, MDS@[75] == 4080931779665215284, MDS@[76] == 2254354572900271594, MDS@[77] == 3743460493495557051, MDS@[78] == 2371731759139912191, MDS@[79] == 4228931313260232939, MDS@[80] == 629343774120736994, INV_MDS@[6] == 2421791421881488327, INV_MDS@[15] == 3997809095230362131, INV_MDS@[24] == 2869424750903044655, INV_MDS@[33] == 2976193419717151400, INV_MDS@[42] == 3189047413106611221, INV_MDS@[51] == 1139390336191412558, INV_MDS@[60] == 2694913477905427615, INV_MDS@[69] == 2912864986169238494, INV_MDS@[78] == 3484754205530568350,
    ;
    assert(product_entry(MDS@, INV_MDS@, 9, 8, 7) == (MDS@[72] as int) * (INV_MDS@[7] as int) + (MDS@[73] as int) * (INV_MDS@[16] as int) + (MDS@[74] as int) * (INV_MDS@[25] as int) + (MDS@[75] as int) * (INV_MDS@[34] as int) + (MDS@[76] as int) * (INV_MDS@[43] as int) + (MDS@[77] as int) * (INV_MDS@[52] as int) + (MDS@[78] as int) * (INV_MDS@[61] as int) + (MDS@[79] as int) * (INV_MDS@[70] as int) + (MDS@[80] as int) * (INV_MDS@[79] as int));
    assert(((MDS@[72] as int) * (INV_MDS@[7] as int) + (MDS@[73] as int) * (INV_MDS@[16] as int) + (MDS@[74] as int) * (INV_MDS@[25] as int) + (MDS@[75] as int) * (INV_MDS@[34] as int) + (MDS@[76] as int) * (INV_MDS@[43] as int) + (MDS@[77] as int) * (INV_MDS@[52] as int) + (MDS@[78] as int) * (INV_MDS@[61] as int) + (MDS@[79] as int) * (INV_MDS@[70] as int) + (MDS@[80] as int) * (INV_MDS@[79] as int)) % 4611624995532046337 == 0) by (nonlinear_arith)
        requires
            MDS@[72] == 3605823366462788878, MDS@[73] == 1932568390090888418, MDS@[74] == 210979528524628337, MDS@[75] == 4080931779665215284, MDS@[76] == 2254354572900271594, MDS@[77] == 3743460493495557051, MDS@[78] == 2371731759139912191, MDS@[79] == 4228931313260232939, MDS@[80] == 629343774120736994, INV_MDS@[7] == 3644426067838966381, INV_MDS@[16] == 1212577225021150021, INV_MDS@[25] == 2102868476327595162, INV_MDS@[34] == 1722984966615577177, INV_MDS@[43] == 3494615199478891974, INV_MDS@[52] == 527098797354794496, INV_MDS@[61] == 1346140786108729998, INV_MDS@[70] == 1203274577166891218, INV_MDS@[79] == 917159143741939893,
    ;
    assert(product_entry(MDS@, INV_MDS@, 9, 8, 8) == (MDS@[72] as int) * (INV_MDS@[8] as int) + (MDS@[73] as int) * (INV_MDS@[17] as int) + (MDS@[74] as int) * (INV_MDS@[26] as int) + (MDS@[75] as int) * (INV_MDS@[35] as int) + (MDS@[76] as int) * (INV_MDS@[44] as int) + (MDS@[77] as int) * (INV_MDS@[53] as int) + (MDS@[78] as int) * (INV_MDS@[62] as int) + (MDS@[79] as int) * (INV_MDS@[71] as int) + (MDS@[80] as int) * (INV_MDS@[80] as int));
    assert(((MDS@[72] as int) * (INV_MDS@[8] as int) + (MDS@[73] as int) * (INV_MDS@[17] as int) + (MDS@[74] as int) * (INV_MDS@[26] as int) + (MDS@[75] as int) * (INV_MDS@[35] as int) + (MDS@[76] as int) * (INV_MDS@[44] as int) + (MDS@[77] as int) * (INV_MDS@[53] as int) + (MDS@[78] as int) * (INV_MDS@[62] as int) + (MDS@[79] as int) * (INV_MDS@[71] as int) + (MDS@[80] as int) * (INV_MDS@[80] as int)) % 4611624995532046337 == 1) by (nonlinear_arith)
        requires
            MDS@[72] == 3605823366462788878, MDS@[73] == 1932568390090888418, MDS@[74] == 210979528524628337, MDS@[75] == 4080931779665215284, MDS@[76] == 2254354572900271594, MDS@[77] == 3743460493495557051, MDS@[78] == 2371731759139912191, MDS@[79] == 4228931313260232939, MDS@[80] == 629343774120736994, INV_MDS@[8] == 3238629916340680919, INV_MDS@[17] == 4061088654507655253, INV_MDS@[26] == 2043814954142938352, INV_MDS@[35] == 3989226681729841537, INV_MDS@[44] == 939172905675675913, INV_MDS@[53] == 4198688907584692459, INV_MDS@[62] == 4276303366710150332, INV_MDS@[71] == 3369488350775322085, INV_MDS@[80] == 2754416681698366673,
    ;
}

proof fn lemma_product_forward()
    ensures
        product_is_identity(Elem::modulus(), MDS@, INV_MDS@, 9),
{
    lemma_product_forward_row_0();
    lemma_product_forward_row_1();
    lemma_product_forward_row_2();
    lemma_product_forward_row_3();
    lemma_product_forward_row_4();
    lemma_product_forward_row_5();
    lemma_product_forward_row_6();
    lemma_product_forward_row_7();
    lemma_product_forward_row_8();
    reveal_with_fuel(identity_rows, 10);
    assert(identity_rows(Elem::modulus(), MDS@, INV_MDS@, 9, 9));
    lemma_identity_rows(Elem::modulus(), MDS@, INV_MDS@, 9);
}

proof fn lemma_product_backward_row_0()
    ensures
        identity_row(Elem::modulus(), INV_MDS@, MDS@, 9, 0, 9),
{
    reveal_with_fuel(sum, 10);
    reveal_with_fuel(identity_row, 10);
    assert(product_entry(INV_MDS@, MDS@, 9, 0, 0) == (INV_MDS@[0] as int) * (MDS@[0] as int) + (INV_MDS@[1] as int) * (MDS@[9] as int) + (INV_MDS@[2] as int) * (MDS@[18] as int) + (INV_MDS@[3] as int) * (MDS@[27] as int) + (INV_MDS@[4] as int) * (MDS@[36] as int) + (INV_MDS@[5] as int) * (MDS@[45] as int) + (INV_MDS@[6] as int) * (MDS@[54] as int) + (INV_MDS@[7] as int) * (MDS@[63] as int) + (INV_MDS@[8] as int) * (MDS@[72] as int));
    assert(((INV_MDS@[0] as int) * (MDS@[0] as int) + (INV_MDS@[1] as int) * (MDS@[9] as int) + (INV_MDS@[2] as int) * (MDS@[18] as int) + (INV_MDS@[3] as int) * (MDS@[27] as int) + (INV_MDS@[4] as int) * (MDS@[36] as int) + (INV_MDS@[5] as int) * (MDS@[45] as int) + (INV_MDS@[6] as int) * (MDS@[54] as int) + (INV_MDS@[7] as int) * (MDS@[63] as int) + (INV_MDS@[8] as int) * (MDS@[72] as int)) % 4611624995532046337 == 1) by (nonlinear_arith)
        requires
            INV_MDS@[0] == 3535209814333908612, INV_MDS@[1] == 2192294647579404765, INV_MDS@[2] == 2247283712851777654, INV_MDS@[3] == 1016653726681019018, INV_MDS@[4] == 4084320113214072343, INV_MDS@[5] == 677515556938913667, INV_MDS@[6] == 2421791421881488327, INV_MDS@[7] == 3644426067838966381, INV_MDS@[8] == 3238629916340680919, MDS@[0] == 150094635296999121, MDS@[9] == 1361307387513521921, MDS@[18] == 3690586968508376915, MDS@[27] == 1460884875119705544, MDS@[36] == 1799234820778435744, MDS@[45] == 418351083517431213, MDS@[54] == 3691476875300647805, MDS@[63] == 2928319956530473610, MDS@[72] == 3605823366462788878,
    ;
    assert(product_entry(INV_MDS@, MDS@, 9, 0, 1) == (INV_MDS@[0] as int) * (MDS@[1] as int) + (INV_MDS@[1] as int) * (MDS@[10] as int) + (INV_MDS@[2] as int) * (MDS@[19] as int) + (INV_MDS@[3] as int) * (MDS@[28] as int) + (INV_MDS@[4] as int) * (MDS@[37] as int) + (INV_MDS@[5] as int) * (MDS@[46] as int) + (INV_MDS@[6] as int) * (MDS@[55] as int) + (INV_MDS@[7] as int) * (MDS@[64] as int) + (INV_MDS@[8] as int) * (MDS@[73] as int));
    assert(((INV_MDS@[0] as int) * (MDS@[1] as int) + (INV_MDS@[1] as int) * (MDS@[10] as int) + (INV_MDS@[2] as int) * (MDS@[19] as int) + (INV_MDS@[3] as int) * (MDS@[28] as int) + (INV_MDS@[4] as int) * (MDS@[37] as int) + (INV_MDS@[5] as int) * (MDS@[46] as int) + (INV_MDS@[6] as int) * (MDS@[55] as int) + (INV_MDS@[7] as int) * (MDS@[64] as int) + (INV_MDS@[8] as int) * (MDS@[73] as int)) % 4611624995532046337 == 0) by (nonlinear_arith)
        requires
            INV_MDS@[0] == 3535209814333908612, INV_MDS@[1] == 2192294647579404765, INV_MDS@[2] == 2247283712851777654, INV_MDS@[3] == 1016653726681019018, INV_MDS@[4] == 4084320113214072343, INV_MDS@[5] == 677515556938913667, INV_MDS@[6] == 2421791421881488327, INV_MDS@[7] == 3644426067838966381, INV_MDS@[8] == 3238629916340680919, MDS@[1] == 4386494480982775136, MDS@[10] == 2832323806833398177, MDS@[19] == 1188716678600029516, MDS@[28] == 3386615783772897896, MDS@[37] == 2072052720368877933, MDS@[46] == 1604014025070032746, MDS@[55] == 1874414663873269341, MDS@[64] == 2247820445494298710, MDS@[73] == 1932568390090888418,
    ;
    assert(product_entry(INV_MDS@, MDS@, 9, 0, 2) == (INV_MDS@[0] as int) * (MDS@[2] as int) + (INV_MDS@[1] as int) * (MDS@[11] as int) + (INV_MDS@[2] as int) * (MDS@[20] as int) + (INV_MDS@[3] as int) * (MDS@[29] as int) + (INV_MDS@[4] as int) * (MDS@[38] as int) + (INV_MDS@[5] as int) * (MDS@[47] as int) + (INV_MDS@[6] as int) * (MDS@[56] as int) + (INV_MDS@[7] as int) * (MDS@[65] as int) + (INV_MDS@[8] as int) * (MDS@[74] as int));
    assert(((INV_MDS@[0] as int) * (MDS@[2] as int) + (INV_MDS@[1] as int) * (MDS@[11] as int) + (INV_MDS@[2] as int) * (MDS@[20] as int) + (INV_MDS@[3] as int) * (MDS@[29] as int) + (INV_MDS@[4] as int) * (MDS@[38] as int) + (INV_MDS@[5] as int) * (MDS@[47] as int) + (INV_MDS@[6] as int) * (MDS@[56] as int) + (INV_MDS@[7] as int) * (MDS@[65] as int) + (INV_MDS@[8] as int) * (MDS@[74] as int)) % 4611624995532046337 == 0) by (nonlinear_arith)
        requires
            INV_MDS@[0] == 3535209814333908612, INV_MDS@[1] == 2192294647579404765, INV_MDS@[2] == 2247283712851777654, INV_MDS@[3] == 1016653726681019018, INV_MDS@[4] == 4084320113214072343, INV_MDS@[5] == 677515556938913667, INV_MDS@[6] == 2421791421881488327, INV_MDS@[7] == 3644426067838966381, INV_MDS@[8] == 3238629916340680919, MDS@[2] == 84411075413992860, MDS@[11] == 371763438786123399, MDS@[20] == 4404722642276688942, MDS@[29] == 201971421999830434, MDS@[38] == 1556994839688241047, MDS@[47] == 4416269077327681940, MDS@[56] == 1418653137253019787, MDS@[65] == 4005627978492551095, MDS@[74] == 210979528524628337,
    ;
    assert(product_entry(INV_MDS@, MDS@, 9, 0, 3) == (INV_MDS@[0] as int) * (MDS@[3] as int) + (INV_MDS@[1] as int) * (MDS@[12] as int) + (INV_MDS@[2] as int) * (MDS@[21] as int) + (INV_MDS@[3] as int) * (MDS@[30] as int) + (INV_MDS@[4] as int) * (MDS@[39] as int) + (INV_MDS@[5] as int) * (MDS@[48] as int) + (INV_MDS@[6] as int) * (MDS@[57] as int) + (INV_MDS@[7] as int) * (MDS@[66] as int) + (INV_MDS@[8] as int) * (MDS@[75] as int));
    assert(((INV_MDS@[0] as int) * (MDS@[3] as int) + (INV_MDS@[1] as int) * (MDS@[12] as int) + (INV_MDS@[2] as int) * (MDS@[21] as int) + (INV_MDS@[3] as int) * (MDS@[30] as int) + (INV_MDS@[4] as int) * (MDS@[39] as int) + (INV_MDS@[5] as int) * (MDS@[48] as int) + (INV_MDS@[6] as int) * (MDS@[57] as int) + (INV_MDS@[7] as int) * (MDS@[66] as int) + (INV_MDS@[8] as int) * (MDS@[75] as int)) % 4611624995532046337 == 0) by (nonlinear_arith)
        requires
            INV_MDS@[0] == 3535209814333908612, INV_MDS@[1] == 2192294647579404765, INV_MDS@[2] == 2247283712851777654, INV_MDS@[3] == 1016653726681019018, INV_MDS@[4] == 4084320113214072343, INV_MDS@[5] == 677515556938913667, INV_MDS@[6] == 2421791421881488327, INV_MDS@[7] == 3644426067838966381, INV_MDS@[8] == 3238629916340680919, MDS@[3] == 4601889709531466597, MDS@[12] == 1123586449881744597, MDS@[21] == 1392834815468635765, MDS@[30] == 2690809914857215644, MDS@[39] == 781837143061117873, MDS@[48] == 681286285019270020, MDS@[57] == 2559323521522078511, MDS@[66] == 1162150878861062419, MDS@[75] == 4080931779665215284,
    ;
    assert(product_entry(INV_MDS@, MDS@, 9, 0, 4) == (INV_MDS@[0] as int) * (MDS@[4] as int) + (INV_MDS@[1] as int) * (MDS@[13] as int) + (INV_MDS@[2] as int) * (MDS@[22] as int) + (INV_MDS@[3] as int) * (MDS@[31] as int) + (INV_MDS@[4] as int) * (MDS@[40] as int) + (INV_MDS@[5] as int) * (MDS@[49] as int) + (INV_MDS@[6] as int) * (MDS@[58] as int) + (INV_MDS@[7] as int) * (MDS@[67] as int) + (INV_MDS@[8] as int) * (MDS@[76] as int));
    assert(((INV_MDS@[0] as int) * (MDS@[4] as int) + (INV_MDS@[1] as int) * (MDS@[13] as int) + (INV_MDS@[2] as int) * (MDS@[22] as int) + (INV_MDS@[3] as int) * (MDS@[31] as int) + (INV_MDS@[4] as int) * (MDS@[40] as int) + (INV_MDS@[5] as int) * (MDS@[49] as int) + (INV_MDS@[6] as int) * (MDS@[58] as int) + (INV_MDS@[7] as int) * (MDS@[67] as int) + (INV_MDS@[8] as int) * (MDS@[76] as int)) % 4611624995532046337 == 0) by (nonlinear_arith)
        requires
            INV_MDS@[0] == 3535209814333908612, INV_MDS@[1] == 2192294647579404765, INV_MDS@[2] == 2247283712851777654, INV_MDS@[3] == 1016653726681019018, INV_MDS@[4] == 4084320113214072343, INV_MDS@[5] == 677515556938913667, INV_MDS@[6] == 2421791421881488327, INV_MDS@[7] == 3644426067838966381, INV_MDS@[8] == 3238629916340680919, MDS@[4] == 364572438704838, MDS@[13] == 3578022083293731018, MDS@[22] == 2410004866179382341, MDS@[31] == 3005613438739961642, MDS@[40] == 3574339685331375704, MDS@[49] == 2805410846266053252, MDS@[58] == 1382789646784900202, MDS@[67] == 4269347266999601819, MDS@[76] == 2254354572900271594,
    ;
    assert(product_entry(INV_MDS@, MDS@, 9, 0, 5) == (INV_MDS@[0] as int) * (MDS@[5] as int) + (INV_MDS@[1] as int) * (MDS@[14] as int) + (INV_MDS@[2] as int) * (MDS@[23] as int) + (INV_MDS@[3] as int) * (MDS@[32] as int) + (INV_MDS@[4] as int) * (MDS@[41] as int) + (INV_MDS@[5] as int) * (MDS@[50] as int) + (INV_MDS@[6] as int) * (MDS@[59] as int) + (INV_MDS@[7] as int) * (MDS@[68] as int) + (INV_MDS@[8] as int) * (MDS@[77] as int));
    assert(((INV_MDS@[0] as int) * (MDS@[5] as int) + (INV_MDS@[1] as int) * (MDS@[14] as int) + (INV_MDS@[2] as int) * (MDS@[23] as int) + (INV_MDS@[3] as int) * (MDS@[32] as int) + (INV_MDS@[4] as int) * (MDS@[41] as int) + (INV_MDS@[5] as int) * (MDS@[50] as int) + (INV_MDS@[6] as int) * (MDS@[59] as int) + (INV_MDS@[7] as int) * (MDS@[68] as int) + (INV_MDS@[8] as int) * (MDS@[77] as int)) % 4611624995532046337 == 0) by (nonlinear_arith)
        requires
            INV_MDS@[0] == 3535209814333908612, INV_MDS@[1] == 2192294647579404765, INV_MDS@[2] == 2247283712851777654, INV_MDS@[3] == 1016653726681019018, INV_MDS@[4] == 4084320113214072343, INV_MDS@[5] == 677515556938913667, INV_MDS@[6] == 2421791421881488327, INV_MDS@[7] == 3644426067838966381, INV_MDS@[8] == 3238629916340680919, MDS@[5] == 4611620494637741339, MDS@[14] == 4567696267115265857, MDS@[23] == 4074543151731888787, MDS@[32] == 1137553896735229930, MDS@[41] == 3222440231476431090, MDS@[50] == 2410684455530809505, MDS@[59] == 2739816669015464653, MDS@[68] == 1020076390998853272, MDS@[77] == 3743460493495557051,
    ;
    assert(product_entry(INV_MDS@, MDS@, 9, 0, 6) == (INV_MDS@[0] as int) * (MDS@[6] as int) + (INV_MDS@[1] as int) * (MDS@[15] as int) + (INV_MDS@[2] as int) * (MDS@[24] as int) + (INV_MDS@[3] as int) * (MDS@[33] as int) + (INV_MDS@[4] as int) * (MDS@[42] as int) + (INV_MDS@[5] as int) * (MDS@[51] as int) + (INV_MDS@[6] as int) * (MDS@[60] as int) + (INV_MDS@[7] as int) * (MDS@[69] as int) + (INV_MDS@[8] as int) * (MDS@[78] as int));
    assert(((INV_MDS@[0] as int) * (MDS@[6] as int) + (INV_MDS@[1] as int) * (MDS@[15] as int) + (INV_MDS@[2] as int) * (MDS@[24] as int) + (INV_MDS@[3] as int) * (MDS@[33] as int) + (INV_MDS@[4] as int) * (MDS@[42] as int) + (INV_MDS@[5] as int) * (MDS@[51] as int) + (INV_MDS@[6] as int) * (MDS@[60] as int) + (INV_MDS@[7] as int) * (MDS@[69] as int) + (INV_MDS@[8] as int) * (MDS@[78] as int)) % 4611624995532046337 == 0) by (nonlinear_arith)
        requires
            INV_MDS@[0] == 3535209814333908612, INV_MDS@[1] == 2192294647579404765, INV_MDS@[2] == 2247283712851777654, INV_MDS@[3] == 1016653726681019018, INV_MDS@[4] == 4084320113214072343, INV_MDS@[5] == 677515556938913667, INV_MDS@[6] == 2421791421881488327, INV_MDS@[7] == 3644426067838966381, INV_MDS@[8] == 3238629916340680919, MDS@[6] == 18318658140, MDS@[15] == 175773020450742, MDS@[24] == 1286673036395336460, MDS@[33] == 3419041528315999985, MDS@[42] == 14265327237660372, MDS@[51] == 4077427075299802133, MDS@[60] == 3129816858893153678, MDS@[69] == 1754026023882377187, MDS@[78] == 2371731759139912191,
    ;
    assert(product_entry(INV_MDS@, MDS@, 9, 0, 7) == (INV_MDS@[0] as int) * (MDS@[7] as int) + (INV_MDS@[1] as int) * (MDS@[16] as int) + (INV_MDS@[2] as int) * (MDS@[25] as int) + (INV_MDS@[3] as int) * (MDS@[34] as int) + (INV_MDS@[4] as int) * (MDS@[43] as int) + (INV_MDS@[5] as int) * (MDS@[52] as int) + (INV_MDS@[6] as int) * (MDS@[61] as int) + (INV_MDS@[7] as int) * (MDS@[70] as int) + (INV_MDS@[8] as int) * (MDS@[79] as int));
    assert(((INV_MDS@[0] as int) * (MDS@[7] as int) + (INV_MDS@[1] as int) * (MDS@[16] as int) + (INV_MDS@[2] as int) * (MDS@[25] as int) + (INV_MDS@[3] as int) * (MDS@[34] as int) + (INV_MDS@[4] as int) * (MDS@[43] as int) + (INV_MDS@[5] as int) * (MDS@[52] as int) + (INV_MDS@[6] as int) * (MDS@[61] as int) + (INV_MDS@[7] as int) * (MDS@[70] as int) + (INV_MDS@[8] as int) * (MDS@[79] as int)) % 4611624995532046337 == 0) by (nonlinear_arith)
        requires
            INV_MDS@[0] == 3535209814333908612, INV_MDS@[1] == 2192294647579404765, INV_MDS@[2] == 2247283712851777654, INV_MDS@[3] == 1016653726681019018, INV_MDS@[4] == 4084320113214072343, INV_MDS@[5] == 677515556938913667, INV_MDS@[6] == 2421791421881488327, INV_MDS@[7] == 3644426067838966381, INV_MDS@[8] == 3238629916340680919, MDS@[7] == 4611624995507837477, MDS@[16] == 4611624775611313217, MDS@[25] == 4610042323605607019, MDS@[34] == 3140721539845838211, MDS@[43] == 2212886883903365751, MDS@[52] == 3417121306051169026, MDS@[61] == 679991697250255911, MDS@[70] == 3149871781959943552, MDS@[79] == 4228931313260232939,
    ;
    assert(product_entry(INV_MDS@, MDS@, 9, 0, 8) == (INV_MDS@[0] as int) * (MDS@[8] as int) + (INV_MDS@[1] as int) * (MDS@[17] as int) + (INV_MDS@[2] as int) * (MDS@[26] as int) + (INV_MDS@[3] as int) * (MDS@[35] as int) + (INV_MDS@[4] as int) * (MDS@[44] as int) + (INV_MDS@[5] as int) * (MDS@[53] as int) + (INV_MDS@[6] as int) * (MDS@[62] as int) + (INV_MDS@[7] as int) * (MDS@[71] as int) + (INV_MDS@[8] as int) * (MDS@[80] as int));
    assert(((INV_MDS@[0] as int) * (MDS@[8] as int) + (INV_MDS@[1] as int) * (MDS@[17] as int) + (INV_MDS@[2] as int) * (MDS@[26] as int) + (INV_MDS@[3] as int) * (MDS@[35] as int) + (INV_MDS@[4] as int) * (MDS@[44] as int) + (INV_MDS@[5] as int) * (MDS@[53] as int) + (INV_MDS@[6] as int) * (MDS@[62] as int) + (INV_MDS@[7] as int) * (MDS@[71] as int) + (INV_MDS@[8] as int) * (MDS@[80] as int)) % 4611624995532046337 == 0) by (nonlinear_arith)
        requires
            INV_MDS@[0] == 3535209814333908612, INV_MDS@[1] == 2192294647579404765, INV_MDS@[2] == 2247283712851777654, INV_MDS@[3] == 1016653726681019018, INV_MDS@[4] == 4084320113214072343, INV_MDS@[5] == 677515556938913667, INV_MDS@[6] == 2421791421881488327, INV_MDS@[7] == 3644426067838966381, INV_MDS@[8] == 3238629916340680919, MDS@[8] == 9841, MDS@[17] == 72636421, MDS@[26] == 494894285941, MDS@[35] == 3287582741506063, MDS@[44] == 3212448330282679835, MDS@[53] == 3227560823577981851, MDS@[62] == 970216912235395461, MDS@[71] == 2520884254441070022, MDS@[80] == 629343774120736994,
    ;
}

proof fn lemma_product_backward_row_1()
    ensures
        identity_row(Elem::modulus(), INV_MDS@, MDS@, 9, 1, 9),
{
    reveal_with_fuel(sum, 10);
    reveal_with_fuel(identity_row, 10);
    assert(product_entry(INV_MDS@, MDS@, 9, 1, 0) == (INV_MDS@[9] as int) * (MDS@[0] as int) + (INV_MDS@[10] as int) * (MDS@[9] as int) + (INV_MDS@[11] as int) * (MDS@[18] as int) + (INV_MDS@[12] as int) * (MDS@[27] as int) + (INV_MDS@[13] as int) * (MDS@[36] as int) + (INV_MDS@[14] as int) * (MDS@[45] as int) + (INV_MDS@[15] as int) * (MDS@[54] as int) + (INV_MDS@[16] as int) * (MDS@[63] as int) + (INV_MDS@[17] as int) * (MDS@[72] as int));
    assert(((INV_MDS@[9] as int) * (MDS@[0] as int) + (INV_MDS@[10] as int) * (MDS@[9] as int) + (INV_MDS@[11] as int) * (MDS@[18] as int) + (INV_MDS@[12] as int) * (MDS@[27] as int) + (INV_MDS@[13] as int) * (MDS@[36] as int) + (INV_MDS@[14] as int) * (MDS@[45] as int) + (INV_MDS@[15] as int) * (MDS@[54] as int) + (INV_MDS@[16] as int) * (MDS@[63] as int) + (INV_MDS@[17] as int) * (MDS@[72] as int)) % 4611624995532046337 == 0) by (nonlinear_arith)
        requires
            INV_MDS@[9] == 1855209548528077732, INV_MDS@[10] == 1472993453010258945, INV_MDS@[11] == 1795205275729888080, INV_MDS@[12] == 3589415998546501003, INV_MDS@[13] == 3294978760228179936, INV_MDS@[14] == 1778846966858158585, INV_MDS@[15] == 3997809095230362131, INV_MDS@[16] == 1212577225021150021, INV_MDS@[17] == 4061088654507655253, MDS@[0] == 150094635296999121, MDS@[9] == 1361307387513521921, MDS@[18] == 3690586968508376915, MDS@[27] == 1460884875119705544, MDS@[36] == 1799234820778435744, MDS@[45] == 418351083517431213, MDS@[54] == 3691476875300647805, MDS@[63] == 2928319956530473610, MDS@[72] == 3605823366462788878,
    ;
    assert(product_entry(INV_MDS@, MDS@, 9, 1, 1) == (INV_MDS@[9] as int) * (MDS@[1] as int) + (INV_MDS@[10] as int) * (MDS@[10] as int) + (INV_MDS@[11] as int) * (MDS@[19] as int) + (INV_MDS@[12] as int) * (MDS@[28] as int) + (INV_MDS@[13] as int) * (MDS@[37] as int) + (INV_MDS@[14] as int) * (MDS@[46] as int) + (INV_MDS@[15] as int) * (MDS@[55] as int) + (INV_MDS@[16] as int) * (MDS@[64] as int) + (INV_MDS@[17] as int) * (MDS@[73] as int));
    assert(((INV_MDS@[9] as int) * (MDS@[1] as int) + (INV_MDS@[10] as int) * (MDS@[10] as int) + (INV_MDS@[11] as int) * (MDS@[19] as int) + (INV_MDS@[12] as int) * (MDS@[28] as int) + (INV_MDS@[13] as int) * (MDS@[37] as int) + (INV_MDS@[14] as int) * (MDS@[46] as int) + (INV_MDS@[15] as int) * (MDS@[55] as int) + (INV_MDS@[16] as int) * (MDS@[64] as int) + (INV_MDS@[17] as int) * (MDS@[73] as int)) % 4611624995532046337 == 1) by (nonlinear_arith)
        requires
            INV_MDS@[9] == 1855209548528077732, INV_MDS@[10] == 1472993453010258945, INV_MDS@[11] == 1795205275729888080, INV_MDS@[12] == 3589415998546501003, INV_MDS@[13] == 3294978760228179936, INV_MDS@[14] == 1778846966858158585, INV_MDS@[15] == 3997809095230362131, INV_MDS@[16] == 1212577225021150021, INV_MDS@[17] == 4061088654507655253, MDS@[1] == 4386494480982775136, MDS@[10] == 2832323806833398177, MDS@[19] == 1188716678600029516, MDS@[28] == 3386615783772897896, MDS@[37] == 2072052720368877933, MDS@[46] == 1604014025070032746, MDS@[55] == 1874414663873269341, MDS@[64] == 2247820445494298710, MDS@[73] == 1932568390090888418,
    ;
    assert(product_entry(INV_MDS@, MDS@, 9, 1, 2) == (INV_MDS@[9] as int) * (MDS@[2] as int) + (INV_MDS@[10] as int) * (MDS@[11] as int) + (INV_MDS@[11] as int) * (MDS@[20] as int) + (INV_MDS@[12] as int) * (MDS@[29] as int) + (INV_MDS@[13] as int) * (MDS@[38] as int) + (INV_MDS@[14] as int) * (MDS@[47] as int) + (INV_MDS@[15] as int) * (MDS@[56] as int) + (INV_MDS@[16] as int) * (MDS@[65] as int) + (INV_MDS@[17] as int) * (MDS@[74] as int));
    assert(((INV_MDS@[9] as int) * (MDS@[2] as int) + (INV_MDS@[10] as int) * (MDS@[11] as int) + (INV_MDS@[11] as int) * (MDS@[20] as int) + (INV_MDS@[12] as int) * (MDS@[29] as int) + (INV_MDS@[13] as int) * (MDS@[38] as int) + (INV_MDS@[14] as int) * (MDS@[47] as int) + (INV_MDS@[15] as int) * (MDS@[56] as int) + (INV_MDS@[16] as int) * (MDS@[65] as int) + (INV_MDS@[17] as int) * (MDS@[74] as int)) % 4611624995532046337 == 0) by (nonlinear_arith)
        requires
            INV_MDS@[9] == 1855209548528077732, INV_MDS@[10] == 1472993453010258945, INV_MDS@[11] == 1795205275729888080, INV_MDS@[12] == 3589415998546501003, INV_MDS@[13] == 3294978760228179936, INV_MDS@[14] == 1778846966858158585, INV_MDS@[15] == 3997809095230362131, INV_MDS@[16] == 1212577225021150021, INV_MDS@[17] == 4061088654507655253, MDS@[2] == 84411075413992860, MDS@[11] == 371763438786123399, MDS@[20] == 4404722642276688942, MDS@[29] == 201971421999830434, MDS@[38] == 1556994839688241047, MDS@[47] == 4416269077327681940, MDS@[56] == 1418653137253019787, MDS@[65] == 4005627978492551095, MDS@[74] == 210979528524628337,
    ;
    assert(product_entry(INV_MDS@, MDS@, 9, 1, 3) == (INV_MDS@[9] as int) * (MDS@[3] as int) + (INV_MDS@[10] as int) * (MDS@[12] as int) + (INV_MDS@[11] as int) * (MDS@[21] as int) + (INV_MDS@[12] as int) * (MDS@[30] as int) + (INV_MDS@[13] as int) * (MDS@[39] as int) + (INV_MDS@[14] as int) * (MDS@[48] as int) + (INV_MDS@[15] as int) * (MDS@[57] as int) + (INV_MDS@[16] as int) * (MDS@[66] as int) + (INV_MDS@[17] as int) * (MDS@[75] as int));
    assert(((INV_MDS@[9] as int) * (MDS@[3] as int) + (INV_MDS@[10] as int) * (MDS@[12] as int) + (INV_MDS@[11] as int) * (MDS@[21] as int) + (INV_MDS@[12] as int) * (MDS@[30] as int) + (INV_MDS@[13] as int) * (MDS@[39] as int) + (INV_MDS@[14] as int) * (MDS@[48] as int) + (INV_MDS@[15] as int) * (MDS@[57] as int) + (INV_MDS@[16] as int) * (MDS@[66] as int) + (INV_MDS@[17] as int) * (MDS@[75] as int)) % 4611624995532046337 == 0) by (nonlinear_arith)
        requires
            INV_MDS@[9] == 1855209548528077732, INV_MDS@[10] == 1472993453010258945, INV_MDS@[11] == 1795205275729888080, INV_MDS@[12] == 3589415998546501003, INV_MDS@[13] == 3294978760228179936, INV_MDS@[14] == 1778846966858158585, INV_MDS@[15] == 3997809095230362131, INV_MDS@[16] == 1212577225021150021, INV_MDS@[17] == 4061088654507655253, MDS@[3] == 4601889709531466597, MDS@[12] == 1123586449881744597, MDS@[21] == 1392834815468635765, MDS@[30] == 2690809914857215644, MDS@[39] == 781837143061117873, MDS@[48] == 681286285019270020, MDS@[57] == 2559323521522078511, MDS@[66] == 1162150878861062419, MDS@[75] == 4080931779665215284,
    ;
    assert(product_entry(INV_MDS@, MDS@, 9, 1, 4) == (INV_MDS@[9] as int) * (MDS@[4] as int) + (INV_MDS@[10] as int) * (MDS@[13] as int) + (INV_MDS@[11] as int) * (MDS@[22] as int) + (INV_MDS@[12] as int) * (MDS@[31] as int) + (INV_MDS@[13] as int) * (MDS@[40] as int) + (INV_MDS@[14] as int) * (MDS@[49] as int) + (INV_MDS@[15] as int) * (MDS@[58] as int) + (INV_MDS@[16] as int) * (MDS@[67] as int) + (INV_MDS@[17] as int) * (MDS@[76] as int));
    assert(((INV_MDS@[9] as int) * (MDS@[4] as int) + (INV_MDS@[10] as int) * (MDS@[13] as int) + (INV_MDS@[11] as int) * (MDS@[22] as int) + (INV_MDS@[12] as int) * (MDS@[31] as int) + (INV_MDS@[13] as int) * (MDS@[40] as int) + (INV_MDS@[14] as int) * (MDS@[49] as int) + (INV_MDS@[15] as int) * (MDS@[58] as int) + (INV_MDS@[16] as int) * (MDS@[67] as int) + (INV_MDS@[17] as int) * (MDS@[76] as int)) % 4611624995532046337 == 0) by (nonlinear_arith)
        requires
            INV_MDS@[9] == 1855209548528077732, INV_MDS@[10] == 1472993453010258945, INV_MDS@[11] == 1795205275729888080, INV_MDS@[12] == 3589415998546501003, INV_MDS@[13] == 3294978760228179936, INV_MDS@[14] == 1778846966858158585, INV_MDS@[15] == 3997809095230362131, INV_MDS@[16] == 1212577225021150021, INV_MDS@[17] == 4061088654507655253, MDS@[4] == 364572438704838, MDS@[13] == 3578022083293731018, MDS@[22] == 2410004866179382341, MDS@[31] == 3005613438739961642, MDS@[40] == 3574339685331375704, MDS@[49] == 2805410846266053252, MDS@[58] == 1382789646784900202, MDS@[67] == 4269347266999601819, MDS@[76] == 2254354572900271594,
    ;
    assert(product_entry(INV_MDS@, MDS@, 9, 1, 5) == (INV_MDS@[9] as int) * (MDS@[5] as int) + (INV_MDS@[10] as int) * (MDS@[14] as int) + (INV_MDS@[11] as int) * (MDS@[23] as int) + (INV_MDS@[12] as int) * (MDS@[32] as int) + (INV_MDS@[13] as int) * (MDS@[41] as int) + (INV_MDS@[14] as int) * (MDS@[50] as int) + (INV_MDS@[15] as int) * (MDS@[59] as int) + (INV_MDS@[16] as int) * (MDS@[68] as int) + (INV_MDS@[17] as int) * (MDS@[77] as int));
    assert(((INV_MDS@[9] as int) * (MDS@[5] as int) + (INV_MDS@[10] as int) * (MDS@[14] as int) + (INV_MDS@[11] as int) * (MDS@[23] as int) + (INV_MDS@[12] as int) * (MDS@[32] as int) + (INV_MDS@[13] as int) * (MDS@[41] as int) + (INV_MDS@[14] as int) * (MDS@[50] as int) + (INV_MDS@[15] as int) * (MDS@[59] as int) + (INV_MDS@[16] as int) * (MDS@[68] as int) + (INV_MDS@[17] as int) * (MDS@[77] as int)) % 4611624995532046337 == 0) by (nonlinear_arith)
        requires
            INV_MDS@[9] == 1855209548528077732, INV_MDS@[10] == 1472993453010258945, INV_MDS@[11] == 1795205275729888080, INV_MDS@[12] == 3589415998546501003, INV_MDS@[13] == 3294978760228179936, INV_MDS@[14] == 1778846966858158585, INV_MDS@[15] == 3997809095230362131, INV_MDS@[16] == 1212577225021150021, INV_MDS@[17] == 4061088654507655253, MDS@[5] == 4611620494637741339, MDS@[14] == 4567696267115265857, MDS@[23] == 4074543151731888787, MDS@[32] == 1137553896735229930, MDS@[41] == 3222440231476431090, MDS@[50] == 2410684455530809505, MDS@[59] == 2739816669015464653, MDS@[68] == 1020076390998853272, MDS@[77] == 3743460493495557051,
    ;
    assert(product_entry(INV_MDS@, MDS@, 9, 1, 6) == (INV_MDS@[9] as int) * (MDS@[6] as int) + (INV_MDS@[10] as int) * (MDS@[15] as int) + (INV_MDS@[11] as int) * (MDS@[24] as int) + (INV_MDS@[12] as int) * (MDS@[33] as int) + (INV_MDS@[13] as int) * (MDS@[42] as int) + (INV_MDS@[14] as int) * (MDS@[51] as int) + (INV_MDS@[15] as int) * (MDS@[60] as int) + (INV_MDS@[16] as int) * (MDS@[69] as int) + (INV_MDS@[17] as int) * (MDS@[78] as int));
    assert(((INV_MDS@[9] as int) * (MDS@[6] as int) + (INV_MDS@[10] as int) * (MDS@[15] as int) + (INV_MDS@[11] as int) * (MDS@[24] as int) + (INV_MDS@[12] as int) * (MDS@[33] as int) + (INV_MDS@[13] as int) * (MDS@[42] as int) + (INV_MDS@[14] as int) * (MDS@[51] as int) + (INV_MDS@[15] as int) * (MDS@[60] as int) + (INV_MDS@[16] as int) * (MDS@[69] as int) + (INV_MDS@[17] as int) * (MDS@[78] as int)) % 4611624995532046337 == 0) by (nonlinear_arith)
        requires
            INV_MDS@[9] == 1855209548528077732, INV_MDS@[10] == 1472993453010258945, INV_MDS@[11] == 1795205275729888080, INV_MDS@[12] == 3589415998546501003, INV_MDS@[13] == 3294978760228179936, INV_MDS@[14] == 1778846966858158585, INV_MDS@[15] == 3997809095230362131, INV_MDS@[16] == 1212577225021150021, INV_MDS@[17] == 4061088654507655253, MDS@[6] == 18318658140, MDS@[15] == 175773020450742, MDS@[24] == 1286673036395336460, MDS@[33] == 3419041528315999985, MDS@[42] == 14265327237660372, MDS@[51] == 4077427075299802133, MDS@[60] == 3129816858893153678, MDS@[69] == 1754026023882377187, MDS@[78] == 2371731759139912191,
    ;
    assert(product_entry(INV_MDS@, MDS@, 9, 1, 7) == (INV_MDS@[9] as int) * (MDS@[7] as int) + (INV_MDS@[10] as int) * (MDS@[16] as int) + (INV_MDS@[11] as int) * (MDS@[25] as int) + (INV_MDS@[12] as int) * (MDS@[34] as int) + (INV_MDS@[13] as int) * (MDS@[43] as int) + (INV_MDS@[14] as int) * (MDS@[52] as int) + (INV_MDS@[15] as int) * (MDS@[61] as int) + (INV_MDS@[16] as int) * (MDS@[70] as int) + (INV_MDS@[17] as int) * (MDS@[79] as int));
    assert(((INV_MDS@[9] as int) * (MDS@[7] as int) + (INV_MDS@[10] as int) * (MDS@[16] as int) + (INV_MDS@[11] as int) * (MDS@[25] as int) + (INV_MDS@[12] as int) * (MDS@[34] as int) + (INV_MDS@[13] as int) * (MDS@[43] as int) + (INV_MDS@[14] as int) * (MDS@[52] as int) + (INV_MDS@[15] as int) * (MDS@[61] as int) + (INV_MDS@[16] as int) * (MDS@[70] as int) + (INV_MDS@[17] as int) * (MDS@[79] as int)) % 4611624995532046337 == 0) by (nonlinear_arith)
        requires
            INV_MDS@[9] == 1855209548528077732, INV_MDS@[10] == 1472993453010258945, INV_MDS@[11] == 1795205275729888080, INV_MDS@[12] == 3589415998546501003, INV_MDS@[13] == 3294978760228179936, INV_MDS@[14] == 1778846966858158585, INV_MDS@[15] == 3997809095230362131, INV_MDS@[16] == 1212577225021150021, INV_MDS@[17] == 4061088654507655253, MDS@[7] == 4611624995507837477, MDS@[16] == 4611624775611313217, MDS@[25] == 4610042323605607019, MDS@[34] == 3140721539845838211, MDS@[43] == 2212886883903365751, MDS@[52] == 3417121306051169026, MDS@[61] == 679991697250255911, MDS@[70] == 3149871781959943552, MDS@[79] == 4228931313260232939,
    ;
    assert(product_entry(INV_MDS@, MDS@, 9, 1, 8) == (INV_MDS@[9] as int) * (MDS@[8] as int) + (INV_MDS@[10] as int) * (MDS@[17] as int) + (INV_MDS@[11] as int) * (MDS@[26] as int) + (INV_MDS@[12] as int) * (MDS@[35] as int) + (INV_MDS@[13] as int) * (MDS@[44] as int) + (INV_MDS@[14] as int) * (MDS@[53] as int) + (INV_MDS@[15] as int) * (MDS@[62] as int) + (INV_MDS@[16] as int) * (MDS@[71] as int) + (INV_MDS@[17] as int) * (MDS@[80] as int));
    assert(((INV_MDS@[9] as int) * (MDS@[8] as int) + (INV_MDS@[10] as int) * (MDS@[17] as int) + (INV_MDS@[11] as int) * (MDS@[26] as int) + (INV_MDS@[12] as int) * (MDS@[35] as int) + (INV_MDS@[13] as int) * (MDS@[44] as int) + (INV_MDS@[14] as int) * (MDS@[53] as int) + (INV_MDS@[15] as int) * (MDS@[62] as int) + (INV_MDS@[16] as int) * (MDS@[71] as int) + (INV_MDS@[17] as int) * (MDS@[80] as int)) % 4611624995532046337 == 0) by (nonlinear_arith)
        requires
            INV_MDS@[9] == 1855209548528077732, INV_MDS@[10] == 1472993453010258945, INV_MDS@[11] == 1795205275729888080, INV_MDS@[12] == 3589415998546501003, INV_MDS@[13] == 3294978760228179936, INV_MDS@[14] == 1778846966858158585, INV_MDS@[15] == 3997809095230362131, INV_MDS@[16] == 1212577225021150021, INV_MDS@[17] == 4061088654507655253, MDS@[8] == 9841, MDS@[17] == 72636421, MDS@[26] == 494894285941, MDS@[35] == 3287582741506063, MDS@[44] == 3212448330282679835, MDS@[53] == 3227560823577981851, MDS@[62] == 970216912235395461, MDS@[71] == 2520884254441070022, MDS@[80] == 629343774120736994,
    ;
}

proof fn lemma_product_backward_row_2()
    ensures
        identity_row(Elem::modulus(), INV_MDS@, MDS@, 9, 2, 9),
{
    reveal_with_fuel(sum, 10);
    reveal_with_fuel(identity_row, 10);
    assert(product_entry(INV_MDS@, MDS@, 9, 2, 0) == (INV_MDS@[18] as int) * (MDS@[0] as int) + (INV_MDS@[19] as int) * (MDS@[9] as int) + (INV_MDS@[20] as int) * (MDS@[18] as int) + (INV_MDS@[21] as int) * (MDS@[27] as int) + (INV_MDS@[22] as int) * (MDS@[36] as int) + (INV_MDS@[23] as int) * (MDS@[45] as int) + (INV_MDS@[24] as int) * (MDS@[54] as int) + (INV_MDS@[25] as int) * (MDS@[63] as int) + (INV_MDS@[26] as int) * (MDS@[72] as int));
    assert(((INV_MDS@[18] as int) * (MDS@[0] as int) + (INV_MDS@[19] as int) * (MDS@[9] as int) + (INV_MDS@[20] as int) * (MDS@[18] as int) + (INV_MDS@[21] as int) * (MDS@[27] as int) + (INV_MDS@[22] as int) * (MDS@[36] as int) + (INV_MDS@[23] as int) * (MDS@[45] as int) + (INV_MDS@[24] as int) * (MDS@[54] as int) + (INV_MDS@[25] as int) * (MDS@[63] as int) + (INV_MDS@[26] as int) * (MDS@[72] as int)) % 4611624995532046337 == 0) by (nonlinear_arith)
        requires
            INV_MDS@[18] == 754377492363537555, INV_MDS@[19] == 1274059338065041488, INV_MDS@[20] == 1711978099802673295, INV_MDS@[21] == 3853263153951502696, INV_MDS@[22] == 1022446755313492063, INV_MDS@[23] == 2814266961258360083, INV_MDS@[24] == 2869424750903044655, INV_MDS@[25] == 2102868476327595162, INV_MDS@[26] == 2043814954142938352, MDS@[0] == 150094635296999121, MDS@[9] == 1361307387513521921, MDS@[18] == 3690586968508376915, MDS@[27] == 1460884875119705544, MDS@[36] == 1799234820778435744, MDS@[45] == 418351083517431213, MDS@[54] == 3691476875300647805, MDS@[63] == 2928319956530473610, MDS@[72] == 3605823366462788878,
    ;
    assert(product_entry(INV_MDS@, MDS@, 9, 2, 1) == (INV_MDS@[18] as int) * (MDS@[1] as int) + (INV_MDS@[19] as int) * (MDS@[10] as int) + (INV_MDS@[20] as int) * (MDS@[19] as int) + (INV_MDS@[21] as int) * (MDS@[28] as int) + (INV_MDS@[22] as int) * (MDS@[37] as int) + (INV_MDS@[23] as int) * (MDS@[46] as int) + (INV_MDS@[24] as int) * (MDS@[55] as int) + (INV_MDS@[25] as int) * (MDS@[64] as int) + (INV_MDS@[26] as int) * (MDS@[73] as int));
    assert(((INV_MDS@[18] as int) * (MDS@[1] as int) + (INV_MDS@[19] as int) * (MDS@[10] as int) + (INV_MDS@[20] as int) * (MDS@[19] as int) + (INV_MDS@[21] as int) * (MDS@[28] as int) + (INV_MDS@[22] as int) * (MDS@[37] as int) + (INV_MDS@[23] as int) * (MDS@[46] as int) + (INV_MDS@[24] as int) * (MDS@[55] as int) + (INV_MDS@[25] as int) * (MDS@[64] as int) + (INV_MDS@[26] as int) * (MDS@[73] as int)) % 4611624995532046337 == 0) by (nonlinear_arith)
        requires
            INV_MDS@[18] == 754377492363537555, INV_MDS@[19] == 1274059338065041488, INV_MDS@[20] == 1711978099802673295, INV_MDS@[21] == 3853263153951502696, INV_MDS@[22] == 1022446755313492063, INV_MDS@[23] == 2814266961258360083, INV_MDS@[24] == 2869424750903044655, INV_MDS@[25] == 2102868476327595162, INV_MDS@[26] == 2043814954142938352, MDS@[1] == 4386494480982775136, MDS@[10] == 2832323806833398177, MDS@[19] == 1188716678600029516, MDS@[28] == 3386615783772897896, MDS@[37] == 2072052720368877933, MDS@[46] == 1604014025070032746, MDS@[55] == 1874414663873269341, MDS@[64] == 2247820445494298710, MDS@[73] == 1932568390090888418,
    ;
    assert(product_entry(INV_MDS@, MDS@, 9, 2, 2) == (INV_MDS@[18] as int) * (MDS@[2] as int) + (INV_MDS@[19] as int) * (MDS@[11] as int) + (INV_MDS@[20] as int) * (MDS@[20] as int) + (INV_MDS@[21] as int) * (MDS@[29] as int) + (INV_MDS@[22] as int) * (MDS@[38] as int) + (INV_MDS@[23] as int) * (MDS@[47] as int) + (INV_MDS@[24] as int) * (MDS@[56] as int) + (INV_MDS@[25] as int) * (MDS@[65] as int) + (INV_MDS@[26] as int) * (MDS@[74] as int));
    assert(((INV_MDS@[18] as int) * (MDS@[2] as int) + (INV_MDS@[19] as int) * (MDS@[11] as int) + (INV_MDS@[20] as int) * (MDS@[20] as int) + (INV_MDS@[21] as int) * (MDS@[29] as int) + (INV_MDS@[22] as int) * (MDS@[38] as int) + (INV_MDS@[23] as int) * (MDS@[47] as int) + (INV_MDS@[24] as int) * (MDS@[56] as int) + (INV_MDS@[25] as int) * (MDS@[65] as int) + (INV_MDS@[26] as int) * (MDS@[74] as int)) % 4611624995532046337 == 1) by (nonlinear_arith)
        requires
            INV_MDS@[18] == 754377492363537555, INV_MDS@[19] == 1274059338065041488, INV_MDS@[20] == 1711978099802673295, INV_MDS@[21] == 3853263153951502696, INV_MDS@[22] == 1022446755313492063, INV_MDS@[23] == 2814266961258360083, INV_MDS@[24] == 2869424750903044655, INV_MDS@[25] == 2102868476327595162, INV_MDS@[26] == 2043814954142938352, MDS@[2] == 84411075413992860, MDS@[11] == 371763438786123399, MDS@[20] == 4404722642276688942, MDS@[29] == 201971421999830434, MDS@[38] == 1556994839688241047, MDS@[47] == 4416269077327681940, MDS@[56] == 1418653137253019787, MDS@[65] == 4005627978492551095, MDS@[74] == 210979528524628337,
    ;
    assert(product_entry(INV_MDS@, MDS@, 9, 2, 3) == (INV_MDS@[18] as int) * (MDS@[3] as int) + (INV_MDS@[19] as int) * (MDS@[12] as int) + (INV_MDS@[20] as int) * (MDS@[21] as int) + (INV_MDS@[21] as int) * (MDS@[30] as int) + (INV_MDS@[22] as int) * (MDS@[39] as int) + (INV_MDS@[23] as int) * (MDS@[48] as int) + (INV_MDS@[24] as int) * (MDS@[57] as int) + (INV_MDS@[25] as int) * (MDS@[66] as int) + (INV_MDS@[26] as int) * (MDS@[75] as int));
    assert(((INV_MDS@[18] as int) * (MDS@[3] as int) + (INV_MDS@[19] as int) * (MDS@[12] as int) + (INV_MDS@[20] as int) * (MDS@[21] as int) + (INV_MDS@[21] as int) * (MDS@[30] as int) + (INV_MDS@[22] as int) * (MDS@[39] as int) + (INV_MDS@[23] as int) * (MDS@[48] as int) + (INV_MDS@[24] as int) * (MDS@[57] as int) + (INV_MDS@[25] as int) * (MDS@[66] as int) + (INV_MDS@[26] as int) * (MDS@[75] as int)) % 4611624995532046337 == 0) by (nonlinear_arith)
        requires
            INV_MDS@[18] == 754377492363537555, INV_MDS@[19] == 1274059338065041488, INV_MDS@[20] == 1711978099802673295, INV_MDS@[21] == 3853263153951502696, INV_MDS@[22] == 1022446755313492063, INV_MDS@[23] == 2814266961258360083, INV_MDS@[24] == 2869424750903044655, INV_MDS@[25] == 2102868476327595162, INV_MDS@[26] == 2043814954142938352, MDS@[3] == 4601889709531466597, MDS@[12] == 1123586449881744597, MDS@[21] == 1392834815468635765, MDS@[30] == 2690809914857215644, MDS@[39] == 781837143061117873, MDS@[48] == 681286285019270020, MDS@[57] == 2559323521522078511, MDS@[66] == 1162150878861062419, MDS@[75] == 4080931779665215284,
    ;
    assert(product_entry(INV_MDS@, MDS@, 9, 2, 4) == (INV_MDS@[18] as int) * (MDS@[4] as int) + (INV_MDS@[19] as int) * (MDS@[13] as int) + (INV_MDS@[20] as int) * (MDS@[22] as int) + (INV_MDS@[21] as int) * (MDS@[31] as int) + (INV_MDS@[22] as int) * (MDS@[40] as int) + (INV_MDS@[23] as int) * (MDS@[49] as int) + (INV_MDS@[24] as int) * (MDS@[58] as int) + (INV_MDS@[25] as int) * (MDS@[67] as int) + (INV_MDS@[26] as int) * (MDS@[76] as int));
    assert(((INV_MDS@[18] as int) * (MDS@[4] as int) + (INV_MDS@[19] as int) * (MDS@[13] as int) + (INV_MDS@[20] as int) * (MDS@[22] as int) + (INV_MDS@[21] as int) * (MDS@[31] as int) + (INV_MDS@[22] as int) * (MDS@[40] as int) + (INV_MDS@[23] as int) * (MDS@[49] as int) + (INV_MDS@[24] as int) * (MDS@[58] as int) + (INV_MDS@[25] as int) * (MDS@[67] as int) + (INV_MDS@[26] as int) * (MDS@[76] as int)) % 4611624995532046337 == 0) by (nonlinear_arith)
        requires
            INV_MDS@[18] == 754377492363537555, INV_MDS@[19] == 1274059338065041488, INV_MDS@[20] == 1711978099802673295, INV_MDS@[21] == 3853263153951502696, INV_MDS@[22] == 1022446755313492063, INV_MDS@[23] == 2814266961258360083, INV_MDS@[24] == 2869424750903044655, INV_MDS@[25] == 2102868476327595162, INV_MDS@[26] == 2043814954142938352, MDS@[4] == 364572438704838, MDS@[13] == 3578022083293731018, MDS@[22] == 2410004866179382341, MDS@[31] == 3005613438739961642, MDS@[40] == 3574339685331375704, MDS@[49] == 2805410846266053252, MDS@[58] == 1382789646784900202, MDS@[67] == 4269347266999601819, MDS@[76] == 2254354572900271594,
    ;
    assert(product_entry(INV_MDS@, MDS@, 9, 2, 5) == (INV_MDS@[18] as int) * (MDS@[5] as int) + (INV_MDS@[19] as int) * (MDS@[14] as int) + (INV_MDS@[20] as int) * (MDS@[23] as int) + (INV_MDS@[21] as int) * (MDS@[32] as int) + (INV_MDS@[22] as int) * (MDS@[41] as int) + (INV_MDS@[23] as int) * (MDS@[50] as int) + (INV_MDS@[24] as int) * (MDS@[59] as int) + (INV_MDS@[25] as int) * (MDS@[68] as int) + (INV_MDS@[26] as int) * (MDS@[77] as int));
    assert(((INV_MDS@[18] as int) * (MDS@[5] as int) + (INV_MDS@[19] as int) * (MDS@[14] as int) + (INV_MDS@[20] as int) * (MDS@[23] as int) + (INV_MDS@[21] as int) * (MDS@[32] as int) + (INV_MDS@[22] as int) * (MDS@[41] as int) + (INV_MDS@[23] as int) * (MDS@[50] as int) + (INV_MDS@[24] as int) * (MDS@[59] as int) + (INV_MDS@[25] as int) * (MDS@[68] as int) + (INV_MDS@[26] as int) * (MDS@[77] as int)) % 4611624995532046337 == 0) by (nonlinear_arith)
        requires
            INV_MDS@[18] == 754377492363537555, INV_MDS@[19] == 1274059338065041488, INV_MDS@[20] == 1711978099802673295, INV_MDS@[21] == 3853263153951502696, INV_MDS@[22] == 1022446755313492063, INV_MDS@[23] == 2814266961258360083, INV_MDS@[24] == 2869424750903044655, INV_MDS@[25] == 2102868476327595162, INV_MDS@[26] == 2043814954142938352, MDS@[5] == 4611620494637741339, MDS@[14] == 4567696267115265857, MDS@[23] == 4074543151731888787, MDS@[32] == 1137553896735229930, MDS@[41] == 3222440231476431090, MDS@[50] == 2410684455530809505, MDS@[59] == 2739816669015464653, MDS@[68] == 1020076390998853272, MDS@[77] == 3743460493495557051,
    ;
    assert(product_entry(INV_MDS@, MDS@, 9, 2, 6) == (INV_MDS@[18] as int) * (MDS@[6] as int) + (INV_MDS@[19] as int) * (MDS@[15] as int) + (INV_MDS@[20] as int) * (MDS@[24] as int) + (INV_MDS@[21] as int) * (MDS@[33] as int) + (INV_MDS@[22] as int) * (MDS@[42] as int) + (INV_MDS@[23] as int) * (MDS@[51] as int) + (INV_MDS@[24] as int) * (MDS@[60] as int) + (INV_MDS@[25] as int) * (MDS@[69] as int) + (INV_MDS@[26] as int) * (MDS@[78] as int));
    assert(((INV_MDS@[18] as int) * (MDS@[6] as int) + (INV_MDS@[19] as int) * (MDS@[15] as int) + (INV_MDS@[20] as int) * (MDS@[24] as int) + (INV_MDS@[21] as int) * (MDS@[33] as int) + (INV_MDS@[22] as int) * (MDS@[42] as int) + (INV_MDS@[23] as int) * (MDS@[51] as int) + (INV_MDS@[24] as int) * (MDS@[60] as int) + (INV_MDS@[25] as int) * (MDS@[69] as int) + (INV_MDS@[26] as int) * (MDS@[78] as int)) % 4611624995532046337 == 0) by (nonlinear_arith)
        requires
            INV_MDS@[18] == 754377492363537555, INV_MDS@[19] == 1274059338065041488, INV_MDS@[20] == 1711978099802673295, INV_MDS@[21] == 3853263153951502696, INV_MDS@[22] == 1022446755313492063, INV_MDS@[23] == 2814266961258360083, INV_MDS@[24] == 2869424750903044655, INV_MDS@[25] == 2102868476327595162, INV_MDS@[26] == 2043814954142938352, MDS@[6] == 18318658140, MDS@[15] == 175773020450742, MDS@[24] == 1286673036395336460, MDS@[33] == 3419041528315999985, MDS@[42] == 14265327237660372, MDS@[51] == 4077427075299802133, MDS@[60] == 3129816858893153678, MDS@[69] == 1754026023882377187, MDS@[78] == 2371731759139912191,
    ;
    assert(product_entry(INV_MDS@, MDS@, 9, 2, 7) == (INV_MDS@[18] as int) * (MDS@[7] as int) + (INV_MDS@[19] as int) * (MDS@[16] as int) + (INV_MDS@[20] as int) * (MDS@[25] as int) + (INV_MDS@[21] as int) * (MDS@[34] as int) + (INV_MDS@[22] as int) * (MDS@[43] as int) + (INV_MDS@[23] as int) * (MDS@[52] as int) + (INV_MDS@[24] as int) * (MDS@[61] as int) + (INV_MDS@[25] as int) * (MDS@[70] as int) + (INV_MDS@[26] as int) * (MDS@[79] as int));
    assert(((INV_MDS@[18] as int) * (MDS@[7] as int) + (INV_MDS@[19] as int) * (MDS@[16] as int) + (INV_MDS@[20] as int) * (MDS@[25] as int) + (INV_MDS@[21] as int) * (MDS@[34] as int) + (INV_MDS@[22] as int) * (MDS@[43] as int) + (INV_MDS@[23] as int) * (MDS@[52] as int) + (INV_MDS@[24] as int) * (MDS@[61] as int) + (INV_MDS@[25] as int) * (MDS@[70] as int) + (INV_MDS@[26] as int) * (MDS@[79] as int)) % 4611624995532046337 == 0) by (nonlinear_arith)
        requires
            INV_MDS@[18] == 754377492363537555, INV_MDS@[19] == 1274059338065041488, INV_MDS@[20] == 1711978099802673295, INV_MDS@[21] == 3853263153951502696, INV_MDS@[22] == 1022446755313492063, INV_MDS@[23] == 2814266961258360083, INV_MDS@[24] == 2869424750903044655, INV_MDS@[25] == 2102868476327595162, INV_MDS@[26] == 2043814954142938352, MDS@[7] == 4611624995507837477, MDS@[16] == 4611624775611313217, MDS@[25] == 4610042323605607019, MDS@[34] == 3140721539845838211, MDS@[43] == 2212886883903365751, MDS@[52] == 3417121306051169026, MDS@[61] == 679991697250255911, MDS@[70] == 3149871781959943552, MDS@[79] == 4228931313260232939,
    ;
    assert(product_entry(INV_MDS@, MDS@, 9, 2, 8) == (INV_MDS@[18] as int) * (MDS@[8] as int) + (INV_MDS@[19] as int) * (MDS@[17] as int) + (INV_MDS@[20] as int) * (MDS@[26] as int) + (INV_MDS@[21] as int) * (MDS@[35] as int) + (INV_MDS@[22] as int) * (MDS@[44] as int) + (INV_MDS@[23] as int) * (MDS@[53] as int) + (INV_MDS@[24] as int) * (MDS@[62] as int) + (INV_MDS@[25] as int) * (MDS@[71] as int) + (INV_MDS@[26] as int) * (MDS@[80] as int));
    assert(((INV_MDS@[18] as int) * (MDS@[8] as int) + (INV_MDS@[19] as int) * (MDS@[17] as int) + (INV_MDS@[20] as int) * (MDS@[26] as int) + (INV_MDS@[21] as int) * (MDS@[35] as int) + (INV_MDS@[22] as int) * (MDS@[44] as int) + (INV_MDS@[23] as int) * (MDS@[53] as int) + (INV_MDS@[24] as int) * (MDS@[62] as int) + (INV_MDS@[25] as int) * (MDS@[71] as int) + (INV_MDS@[26] as int) * (MDS@[80] as int)) % 4611624995532046337 == 0) by (nonlinear_arith)
        requires
            INV_MDS@[18] == 754377492363537555, INV_MDS@[19] == 1274059338065041488, INV_MDS@[20] == 1711978099802673295, INV_MDS@[21] == 3853263153951502696, INV_MDS@[22] == 1022446755313492063, INV_MDS@[23] == 2814266961258360083, INV_MDS@[24] == 2869424750903044655, INV_MDS@[25] == 2102868476327595162, INV_MDS@[26] == 2043814954142938352, MDS@[8] == 9841, MDS@[17] == 72636421, MDS@[26] == 494894285941, MDS@[35] == 3287582741506063, MDS@[44] == 3212448330282679835, MDS@[53] == 3227560823577981851, MDS@[62] == 970216912235395461, MDS@[71] == 2520884254441070022, MDS@[80] == 629343774120736994,
    ;
}

proof fn lemma_product_backward_row_3()
    ensures
        identity_row(Elem::modulus(), INV_MDS@, MDS@, 9, 3, 9),
{
    reveal_with_fuel(sum, 10);
    reveal_with_fuel(identity_row, 10);
    assert(product_entry(INV_MDS@, MDS@, 9, 3, 0) == (INV_MDS@[27] as int) * (MDS@[0] as int) + (INV_MDS@[28] as int) * (MDS@[9] as int) + (INV_MDS@[29] as int) * (MDS@[18] as int) + (INV_MDS@[30] as int) * (MDS@[27] as int) + (INV_MDS@[31] as int) * (MDS@[36] as int) + (INV_MDS@[32] as int) * (MDS@[45] as int) + (INV_MDS@[33] as int) * (MDS@[54] as int) + (INV_MDS@[34] as int) * (MDS@[63] as int) + (INV_MDS@[35] as int) * (MDS@[72] as int));
    assert(((INV_MDS@[27] as int) * (MDS@[0] as int) + (INV_MDS@[28] as int) * (MDS@[9] as int) + (INV_MDS@[29] as int) * (MDS@[18] as int) + (INV_MDS@[30] as int) * (MDS@[27] as int) + (INV_MDS@[31] as int) * (MDS@[36] as int) + (INV_MDS@[32] as int) * (MDS@[45] as int) + (INV_MDS@[33] as int) * (MDS@[54] as int) + (INV_MDS@[34] as int) * (MDS@[63] as int) + (INV_MDS@[35] as int) * (MDS@[72] as int)) % 4611624995532046337 == 0) by (nonlinear_arith)
        requires
            INV_MDS@[27] == 743870189666828265, INV_MDS@[28] == 2360900441789594331, INV_MDS@[29] == 697008895183019540, INV_MDS@[30] == 275384929271023918, INV_MDS@[31] == 4322677085037880573, INV_MDS@[32] == 1358253373117268608, INV_MDS@[33] == 2976193419717151400, INV_MDS@[34] == 1722984966615577177, INV_MDS@[35] == 3989226681729841537, MDS@[0] == 150094635296999121, MDS@[9] == 1361307387513521921, MDS@[18] == 3690586968508376915, MDS@[27] == 1460884875119705544, MDS@[36] == 1799234820778435744, MDS@[45] == 418351083517431213, MDS@[54] == 3691476875300647805, MDS@[63] == 2928319956530473610, MDS@[72] == 3605823366462788878,
    ;
    assert(product_entry(INV_MDS@, MDS@, 9, 3, 1) == (INV_MDS@[27] as int) * (MDS@[1] as int) + (INV_MDS@[28] as int) * (MDS@[10] as int) + (INV_MDS@[29] as int) * (MDS@[19] as int) + (INV_MDS@[30] as int) * (MDS@[28] as int) + (INV_MDS@[31] as int) * (MDS@[37] as int) + (INV_MDS@[32] as int) * (MDS@[46] as int) + (INV_MDS@[33] as int) * (MDS@[55] as int) + (INV_MDS@[34] as int) * (MDS@[64] as int) + (INV_MDS@[35] as int) * (MDS@[73] as int));
    assert(((INV_MDS@[27] as int) * (MDS@[1] as int) + (INV_MDS@[28] as int) * (MDS@[10] as int) + (INV_MDS@[29] as int) * (MDS@[19] as int) + (INV_MDS@[30] as int) * (MDS@[28] as int) + (INV_MDS@[31] as int) * (MDS@[37] as int) + (INV_MDS@[32] as int) * (MDS@[46] as int) + (INV_MDS@[33] as int) * (MDS@[55] as int) + (INV_MDS@[34] as int) * (MDS@[64] as int) + (INV_MDS@[35] as int) * (MDS@[73] as int)) % 4611624995532046337 == 0) by (nonlinear_arith)
        requires
            INV_MDS@[27] == 743870189666828265, INV_MDS@[28] == 2360900441789594331, INV_MDS@[29] == 697008895183019540, INV_MDS@[30] == 275384929271023918, INV_MDS@[31] == 4322677085037880573, INV_MDS@[32] == 1358253373117268608, INV_MDS@[33] == 2976193419717151400, INV_MDS@[34] == 1722984966615577177, INV_MDS@[35] == 3989226681729841537, MDS@[1] == 4386494480982775136, MDS@[10] == 2832323806833398177, MDS@[19] == 1188716678600029516, MDS@[28] == 3386615783772897896, MDS@[37] == 2072052720368877933, MDS@[46] == 1604014025070032746, MDS@[55] == 1874414663873269341, MDS@[64] == 2247820445494298710, MDS@[73] == 1932568390090888418,
    ;
    assert(product_entry(INV_MDS@, MDS@, 9, 3, 2) == (INV_MDS@[27] as int) * (MDS@[2] as int) + (INV_MDS@[28] as int) * (MDS@[11] as int) + (INV_MDS@[29] as int) * (MDS@[20] as int) + (INV_MDS@[30] as int) * (MDS@[29] as int) + (INV_MDS@[31] as int) * (MDS@[38] as int) + (INV_MDS@[32] as int) * (MDS@[47] as int) + (INV_MDS@[33] as int) * (MDS@[56] as int) + (INV_MDS@[34] as int) * (MDS@[65] as int) + (INV_MDS@[35] as int) * (MDS@[74] as int));
    assert(((INV_MDS@[27] as int) * (MDS@[2] as int) + (INV_MDS@[28] as int) * (MDS@[11] as int) + (INV_MDS@[29] as int) * (MDS@[20] as int) + (INV_MDS@[30] as int) * (MDS@[29] as int) + (INV_MDS@[31] as int) * (MDS@[38] as int) + (INV_MDS@[32] as int) * (MDS@[47] as int) + (INV_MDS@[33] as int) * (MDS@[56] as int) + (INV_MDS@[34] as int) * (MDS@[65] as int) + (INV_MDS@[35] as int) * (MDS@[74] as int)) % 4611624995532046337 == 0) by (nonlinear_arith)
        requires
            INV_MDS@[27] == 743870189666828265, INV_MDS@[28] == 2360900441789594331, INV_MDS@[29] == 697008895183019540, INV_MDS@[30] == 275384929271023918, INV_MDS@[31] == 4322677085037880573, INV_MDS@[32] == 1358253373117268608, INV_MDS@[33] == 2976193419717151400, INV_MDS@[34] == 1722984966615577177, INV_MDS@[35] == 3989226681729841537, MDS@[2] == 84411075413992860, MDS@[11] == 371763438786123399, MDS@[20] == 4404722642276688942, MDS@[29] == 201971421999830434, MDS@[38] == 1556994839688241047, MDS@[47] == 4416269077327681940, MDS@[56] == 1418653137253019787, MDS@[65] == 4005627978492551095, MDS@[74] == 210979528524628337,
    ;
    assert(product_entry(INV_MDS@, MDS@, 9, 3, 3) == (INV_MDS@[27] as int) * (MDS@[3] as int) + (INV_MDS@[28] as int) * (MDS@[12] as int) + (INV_MDS@[29] as int) * (MDS@[21] as int) + (INV_MDS@[30] as int) * (MDS@[30] as int) + (INV_MDS@[31] as int) * (MDS@[39] as int) + (INV_MDS@[32] as int) * (MDS@[48] as int) + (INV_MDS@[33] as int) * (MDS@[57] as int) + (INV_MDS@[34] as int) * (MDS@[66] as int) + (INV_MDS@[35] as int) * (MDS@[75] as int));
    assert(((INV_MDS@[27] as int) * (MDS@[3] as int) + (INV_MDS@[28] as int) * (MDS@[12] as int) + (INV_MDS@[29] as int) * (MDS@[21] as int) + (INV_MDS@[30] as int) * (MDS@[30] as int) + (INV_MDS@[31] as int) * (MDS@[39] as int) + (INV_MDS@[32] as int) * (MDS@[48] as int) + (INV_MDS@[33] as int) * (MDS@[57] as int) + (INV_MDS@[34] as int) * (MDS@[66] as int) + (INV_MDS@[35] as int) * (MDS@[75] as int)) % 4611624995532046337 == 1) by (nonlinear_arith)
        requires
            INV_MDS@[27] == 743870189666828265, INV_MDS@[28] == 2360900441789594331, INV_MDS@[29] == 697008895183019540, INV_MDS@[30] == 275384929271023918, INV_MDS@[31] == 4322677085037880573, INV_MDS@[32] == 1358253373117268608, INV_MDS@[33] == 2976193419717151400, INV_MDS@[34] == 1722984966615577177, INV_MDS@[35] == 3989226681729841537, MDS@[3] == 4601889709531466597, MDS@[12] == 1123586449881744597, MDS@[21] == 1392834815468635765, MDS@[30] == 2690809914857215644, MDS@[39] == 781837143061117873, MDS@[48] == 681286285019270020, MDS@[57] == 2559323521522078511, MDS@[66] == 1162150878861062419, MDS@[75] == 4080931779665215284,
    ;
    assert(product_entry(INV_MDS@, MDS@, 9, 3, 4) == (INV_MDS@[27] as int) * (MDS@[4] as int) + (INV_MDS@[28] as int) * (MDS@[13] as int) + (INV_MDS@[29] as int) * (MDS@[22] as int) + (INV_MDS@[30] as int) * (MDS@[31] as int) + (INV_MDS@[31] as int) * (MDS@[40] as int) + (INV_MDS@[32] as int) * (MDS@[49] as int) + (INV_MDS@[33] as int) * (MDS@[58] as int) + (INV_MDS@[34] as int) * (MDS@[67] as int) + (INV_MDS@[35] as int) * (MDS@[76] as int));
    assert(((INV_MDS@[27] as int) * (MDS@[4] as int) + (INV_MDS@[28] as int) * (MDS@[13] as int) + (INV_MDS@[29] as int) * (MDS@[22] as int) + (INV_MDS@[30] as int) * (MDS@[31] as int) + (INV_MDS@[31] as int) * (MDS@[40] as int) + (INV_MDS@[32] as int) * (MDS@[49] as int) + (INV_MDS@[33] as int) * (MDS@[58] as int) + (INV_MDS@[34] as int) * (MDS@[67] as int) + (INV_MDS@[35] as int) * (MDS@[76] as int)) % 4611624995532046337 == 0) by (nonlinear_arith)
        requires
            INV_MDS@[27] == 743870189666828265, INV_MDS@[28] == 2360900441789594331, INV_MDS@[29] == 697008895183019540, INV_MDS@[30] == 275384929271023918, INV_MDS@[31] == 4322677085037880573, INV_MDS@[32] == 1358253373117268608, INV_MDS@[33] == 2976193419717151400, INV_MDS@[34] == 1722984966615577177, INV_MDS@[35] == 3989226681729841537, MDS@[4] == 364572438704838, MDS@[13] == 3578022083293731018, MDS@[22] == 2410004866179382341, MDS@[31] == 3005613438739961642, MDS@[40] == 3574339685331375704, MDS@[49] == 2805410846266053252, MDS@[58] == 1382789646784900202, MDS@[67] == 4269347266999601819, MDS@[76] == 2254354572900271594,
    ;
    assert(product_entry(INV_MDS@, MDS@, 9, 3, 5) == (INV_MDS@[27] as int) * (MDS@[5] as int) + (INV_MDS@[28] as int) * (MDS@[14] as int) + (INV_MDS@[29] as int) * (MDS@[23] as int) + (INV_MDS@[30] as int) * (MDS@[32] as int) + (INV_MDS@[31] as int) * (MDS@[41] as int) + (INV_MDS@[32] as int) * (MDS@[50] as int) + (INV_MDS@[33] as int) * (MDS@[59] as int) + (INV_MDS@[34] as int) * (MDS@[68] as int) + (INV_MDS@[35] as int) * (MDS@[77] as int));
    assert(((INV_MDS@[27] as int) * (MDS@[5] as int) + (INV_MDS@[28] as int) * (MDS@[14] as int) + (INV_MDS@[29] as int) * (MDS@[23] as int) + (INV_MDS@[30] as int) * (MDS@[32] as int) + (INV_MDS@[31] as int) * (MDS@[41] as int) + (INV_MDS@[32] as int) * (MDS@[50] as int) + (INV_MDS@[33] as int) * (MDS@[59] as int) + (INV_MDS@[34] as int) * (MDS@[68] as int) + (INV_MDS@[35] as int) * (MDS@[77] as int)) % 4611624995532046337 == 0) by (nonlinear_arith)
        requires
            INV_MDS@[27] == 743870189666828265, INV_MDS@[28] == 2360900441789594331, INV_MDS@[29] == 697008895183019540, INV_MDS@[30] == 275384929271023918, INV_MDS@[31] == 4322677085037880573, INV_MDS@[32] == 1358253373117268608, INV_MDS@[33] == 2976193419717151400, INV_MDS@[34] == 1722984966615577177, INV_MDS@[35] == 3989226681729841537, MDS@[5] == 4611620494637741339, MDS@[14] == 4567696267115265857, MDS@[23] == 4074543151731888787, MDS@[32] == 1137553896735229930, MDS@[41] == 3222440231476431090, MDS@[50] == 2410684455530809505, MDS@[59] == 2739816669015464653, MDS@[68] == 1020076390998853272, MDS@[77] == 3743460493495557051,
    ;
    assert(product_entry(INV_MDS@, MDS@, 9, 3, 6) == (INV_MDS@[27] as int) * (MDS@[6] as int) + (INV_MDS@[28] as int) * (MDS@[15] as int) + (INV_MDS@[29] as int) * (MDS@[24] as int) + (INV_MDS@[30] as int) * (MDS@[33] as int) + (INV_MDS@[31] as int) * (MDS@[42] as int) + (INV_MDS@[32] as int) * (MDS@[51] as int) + (INV_MDS@[33] as int) * (MDS@[60] as int) + (INV_MDS@[34] as int) * (MDS@[69] as int) + (INV_MDS@[35] as int) * (MDS@[78] as int));
    assert(((INV_MDS@[27] as int) * (MDS@[6] as int) + (INV_MDS@[28] as int) * (MDS@[15] as int) + (INV_MDS@[29] as int) * (MDS@[24] as int) + (INV_MDS@[30] as int) * (MDS@[33] as int) + (INV_MDS@[31] as int) * (MDS@[42] as int) + (INV_MDS@[32] as int) * (MDS@[51] as int) + (INV_MDS@[33] as int) * (MDS@[60] as int) + (INV_MDS@[34] as int) * (MDS@[69] as int) + (INV_MDS@[35] as int) * (MDS@[78] as int)) % 4611624995532046337 == 0) by (nonlinear_arith)
        requires
            INV_MDS@[27] == 743870189666828265, INV_MDS@[28] == 2360900441789594331, INV_MDS@[29] == 697008895183019540, INV_MDS@[30] == 275384929271023918, INV_MDS@[31] == 4322677085037880573, INV_MDS@[32] == 1358253373117268608, INV_MDS@[33] == 2976193419717151400, INV_MDS@[34] == 1722984966615577177, INV_MDS@[35] == 3989226681729841537, MDS@[6] == 18318658140, MDS@[15] == 175773020450742, MDS@[24] == 1286673036395336460, MDS@[33] == 3419041528315999985, MDS@[42] == 14265327237660372, MDS@[51] == 4077427075299802133, MDS@[60] == 3129816858893153678, MDS@[69] == 1754026023882377187, MDS@[78] == 2371731759139912191,
    ;
    assert(product_entry(INV_MDS@, MDS@, 9, 3, 7) == (INV_MDS@[27] as int) * (MDS@[7] as int) + (INV_MDS@[28] as int) * (MDS@[16] as int) + (INV_MDS@[29] as int) * (MDS@[25] as int) + (INV_MDS@[30] as int) * (MDS@[34] as int) + (INV_MDS@[31] as int) * (MDS@[43] as int) + (INV_MDS@[32] as int) * (MDS@[52] as int) + (INV_MDS@[33] as int) * (MDS@[61] as int) + (INV_MDS@[34] as int) * (MDS@[70] as int) + (INV_MDS@[35] as int) * (MDS@[79] as int));
    assert(((INV_MDS@[27] as int) * (MDS@[7] as int) + (INV_MDS@[28] as int) * (MDS@[16] as int) + (INV_MDS@[29] as int) * (MDS@[25] as int) + (INV_MDS@[30] as int) * (MDS@[34] as int) + (INV_MDS@[31] as int) * (MDS@[43] as int) + (INV_MDS@[32] as int) * (MDS@[52] as int) + (INV_MDS@[33] as int) * (MDS@[61] as int) + (INV_MDS@[34] as int) * (MDS@[70] as int) + (INV_MDS@[35] as int) * (MDS@[79] as int)) % 4611624995532046337 == 0) by (nonlinear_arith)
        requires
            INV_MDS@[27] == 743870189666828265, INV_MDS@[28] == 2360900441789594331, INV_MDS@[29] == 697008895183019540, INV_MDS@[30] == 275384929271023918, INV_MDS@[31] == 4322677085037880573, INV_MDS@[32] == 1358253373117268608, INV_MDS@[33] == 2976193419717151400, INV_MDS@[34] == 1722984966615577177, INV_MDS@[35] == 3989226681729841537, MDS@[7] == 4611624995507837477, MDS@[16] == 4611624775611313217, MDS@[25] == 4610042323605607019, MDS@[34] == 3140721539845838211, MDS@[43] == 2212886883903365751, MDS@[52] == 3417121306051169026, MDS@[61] == 679991697250255911, MDS@[70] == 3149871781959943552, MDS@[79] == 4228931313260232939,
    ;
    assert(product_entry(INV_MDS@, MDS@, 9, 3, 8) == (INV_MDS@[27] as int) * (MDS@[8] as int) + (INV_MDS@[28] as int) * (MDS@[17] as int) + (INV_MDS@[29] as int) * (MDS@[26] as int) + (INV_MDS@[30] as int) * (MDS@[35] as int) + (INV_MDS@[31] as int) * (MDS@[44] as int) + (INV_MDS@[32] as int) * (MDS@[53] as int) + (INV_MDS@[33] as int) * (MDS@[62] as int) + (INV_MDS@[34] as int) * (MDS@[71] as int) + (INV_MDS@[35] as int) * (MDS@[80] as int));
    assert(((INV_MDS@[27] as int) * (MDS@[8] as int) + (INV_MDS@[28] as int) * (MDS@[17] as int) + (INV_MDS@[29] as int) * (MDS@[26] as int) + (INV_MDS@[30] as int) * (MDS@[35] as int) + (INV_MDS@[31] as int) * (MDS@[44] as int) + (INV_MDS@[32] as int) * (MDS@[53] as int) + (INV_MDS@[33] as int) * (MDS@[62] as int) + (INV_MDS@[34] as int) * (MDS@[71] as int) + (INV_MDS@[35] as int) * (MDS@[80] as int)) % 4611624995532046337 == 0) by (nonlinear_arith)
        requires
            INV_MDS@[27] == 743870189666828265, INV_MDS@[28] == 2360900441789594331, INV_MDS@[29] == 697008895183019540, INV_MDS@[30] == 275384929271023918, INV_MDS@[31] == 4322677085037880573, INV_MDS@[32] == 1358253373117268608, INV_MDS@[33] == 2976193419717151400, INV_MDS@[34] == 1722984966615577177, INV_MDS@[35] == 3989226681729841537, MDS@[8] == 9841, MDS@[17] == 72636421, MDS@[26] == 494894285941, MDS@[35] == 3287582741506063, MDS@[44] == 3212448330282679835, MDS@[53] == 3227560823577981851, MDS@[62] == 970216912235395461, MDS@[71] == 2520884254441070022, MDS@[80] == 629343774120736994,
    ;
}

proof fn lemma_product_backward_row_4()
    ensures
        identity_row(Elem::modulus(), INV_MDS@, MDS@, 9, 4, 9),
{
    reveal_with_fuel(sum, 10);
    reveal_with_fuel(identity_row, 10);
    assert(product_entry(INV_MDS@, MDS@, 9, 4, 0) == (INV_MDS@[36] as int) * (MDS@[0] as int) + (INV_MDS@[37] as int) * (MDS@[9] as int) + (INV_MDS@[38] as int) * (MDS@[18] as int) + (INV_MDS@[39] as int) * (MDS@[27] as int) + (INV_MDS@[40] as int) * (MDS@[36] as int) + (INV_MDS@[41] as int) * (MDS@[45] as int) + (INV_MDS@[42] as int) * (MDS@[54] as int) + (INV_MDS@[43] as int) * (MDS@[63] as int) + (INV_MDS@[44] as int) * (MDS@[72] as int));
    assert(((INV_MDS@[36] as int) * (MDS@[0] as int) + (INV_MDS@[37] as int) * (MDS@[9] as int) + (INV_MDS@[38] as int) * (MDS@[18] as int) + (INV_MDS@[39] as int) * (MDS@[27] as int) + (INV_MDS@[40] as int) * (MDS@[36] as int) + (INV_MDS@[41] as int) * (MDS@[45] as int) + (INV_MDS@[42] as int) * (MDS@[54] as int) + (INV_MDS@[43] as int) * (MDS@[63] as int) + (INV_MDS@[44] as int) * (MDS@[72] as int)) % 4611624995532046337 == 0) by (nonlinear_arith)
        requires
            INV_MDS@[36] == 3574605258651933052, INV_MDS@[37] == 3776081033478750867, INV_MDS@[38] == 4197195984439072521, INV_MDS@[39] == 2323160270091604467, INV_MDS@[40] == 2968178383345228859, INV_MDS@[41] == 3207693524924509149, INV_MDS@[42] == 3189047413106611221, INV_MDS@[43] == 3494615199478891974, INV_MDS@[44] == 939172905675675913, MDS@[0] == 150094635296999121, MDS@[9] == 1361307387513521921, MDS@[18] == 3690586968508376915, MDS@[27] == 1460884875119705544, MDS@[36] == 1799234820778435744, MDS@[45] == 418351083517431213, MDS@[54] == 3691476875300647805, MDS@[63] == 2928319956530473610, MDS@[72] == 3605823366462788878,
    ;
    assert(product_entry(INV_MDS@, MDS@, 9, 4, 1) == (INV_MDS@[36] as int) * (MDS@[1] as int) + (INV_MDS@[37] as int) * (MDS@[10] as int) + (INV_MDS@[38] as int) * (MDS@[19] as int) + (INV_MDS@[39] as int) * (MDS@[28] as int) + (INV_MDS@[40] as int) * (MDS@[37] as int) + (INV_MDS@[41] as int) * (MDS@[46] as int) + (INV_MDS@[42] as int) * (MDS@[55] as int) + (INV_MDS@[43] as int) * (MDS@[64] as int) + (INV_MDS@[44] as int) * (MDS@[73] as int));
    assert(((INV_MDS@[36] as int) * (MDS@[1] as int) + (INV_MDS@[37] as int) * (MDS@[10] as int) + (INV_MDS@[38] as int) * (MDS@[19] as int) + (INV_MDS@[39] as int) * (MDS@[28] as int) + (INV_MDS@[40] as int) * (MDS@[37] as int) + (INV_MDS@[41] as int) * (MDS@[46] as int) + (INV_MDS@[42] as int) * (MDS@[55] as int) + (INV_MDS@[43] as int) * (MDS@[64] as int) + (INV_MDS@[44] as int) * (MDS@[73] as int)) % 4611624995532046337 == 0) by (nonlinear_arith)
        requires
            INV_MDS@[36] == 3574605258651933052, INV_MDS@[37] == 3776081033478750867, INV_MDS@[38] == 4197195984439072521, INV_MDS@[39] == 2323160270091604467, INV_MDS@[40] == 2968178383345228859, INV_MDS@[41] == 3207693524924509149, INV_MDS@[42] == 3189047413106611221, INV_MDS@[43] == 3494615199478891974, INV_MDS@[44] == 939172905675675913, MDS@[1] == 4386494480982775136, MDS@[10] == 2832323806833398177, MDS@[19] == 1188716678600029516, MDS@[28] == 3386615783772897896, MDS@[37] == 2072052720368877933, MDS@[46] == 1604014025070032746, MDS@[55] == 1874414663873269341, MDS@[64] == 2247820445494298710, MDS@[73] == 1932568390090888418,
    ;
    assert(product_entry(INV_MDS@, MDS@, 9, 4, 2) == (INV_MDS@[36] as int) * (MDS@[2] as int) + (INV_MDS@[37] as int) * (MDS@[11] as int) + (INV_MDS@[38] as int) * (MDS@[20] as int) + (INV_MDS@[39] as int) * (MDS@[29] as int) + (INV_MDS@[40] as int) * (MDS@[38] as int) + (INV_MDS@[41] as int) * (MDS@[47] as int) + (INV_MDS@[42] as int) * (MDS@[56] as int) + (INV_MDS@[43] as int) * (MDS@[65] as int) + (INV_MDS@[44] as int) * (MDS@[74] as int));
    assert(((INV_MDS@[36] as int) * (MDS@[2] as int) + (INV_MDS@[37] as int) * (MDS@[11] as int) + (INV_MDS@[38] as int) * (MDS@[20] as int) + (INV_MDS@[39] as int) * (MDS@[29] as int) + (INV_MDS@[40] as int) * (MDS@[38] as int) + (INV_MDS@[41] as int) * (MDS@[47] as int) + (INV_MDS@[42] as int) * (MDS@[56] as int) + (INV_MDS@[43] as int) * (MDS@[65] as int) + (INV_MDS@[44] as int) * (MDS@[74] as int)) % 4611624995532046337 == 0) by (nonlinear_arith)
        requires
            INV_MDS@[36] == 3574605258651933052, INV_MDS@[37] == 3776081033478750867, INV_MDS@[38] == 4197195984439072521, INV_MDS@[39] == 2323160270091604467, INV_MDS@[40] == 2968178383345228859, INV_MDS@[41] == 3207693524924509149, INV_MDS@[42] == 3189047413106611221, INV_MDS@[43] == 3494615199478891974, INV_MDS@[44] == 939172905675675913, MDS@[2] == 84411075413992860, MDS@[11] == 371763438786123399, MDS@[20] == 4404722642276688942, MDS@[29] == 201971421999830434, MDS@[38] == 1556994839688241047, MDS@[47] == 4416269077327681940, MDS@[56] == 1418653137253019787, MDS@[65] == 4005627978492551095, MDS@[74] == 210979528524628337,
    ;
    assert(product_entry(INV_MDS@, MDS@, 9, 4, 3) == (INV_MDS@[36] as int) * (MDS@[3] as int) + (INV_MDS@[37] as int) * (MDS@[12] as int) + (INV_MDS@[38] as int) * (MDS@[21] as int) + (INV_MDS@[39] as int) * (MDS@[30] as int) + (INV_MDS@[40] as int) * (MDS@[39] as int) + (INV_MDS@[41] as int) * (MDS@[48] as int) + (INV_MDS@[42] as int) * (MDS@[57] as int) + (INV_MDS@[43] as int) * (MDS@[66] as int) + (INV_MDS@[44] as int) * (MDS@[75] as int));
    assert(((INV_MDS@[36] as int) * (MDS@[3] as int) + (INV_MDS@[37] as int) * (MDS@[12] as int) + (INV_MDS@[38] as int) * (MDS@[21] as int) + (INV_MDS@[39] as int) * (MDS@[30] as int) + (INV_MDS@[40] as int) * (MDS@[39] as int) + (INV_MDS@[41] as int) * (MDS@[48] as int) + (INV_MDS@[42] as int) * (MDS@[57] as int) + (INV_MDS@[43] as int) * (MDS@[66] as int) + (INV_MDS@[44] as int) * (MDS@[75] as int)) % 4611624995532046337 == 0) by (nonlinear_arith)
        requires
            INV_MDS@[36] == 3574605258651933052, INV_MDS@[37] == 3776081033478750867, INV_MDS@[38] == 4197195984439072521, INV_MDS@[39] == 2323160270091604467, INV_MDS@[40] == 2968178383345228859, INV_MDS@[41] == 3207693524924509149, INV_MDS@[42] == 3189047413106611221, INV_MDS@[43] == 3494615199478891974, INV_MDS@[44] == 939172905675675913, MDS@[3] == 4601889709531466597, MDS@[12] == 1123586449881744597, MDS@[21] == 1392834815468635765, MDS@[30] == 2690809914857215644, MDS@[39] == 781837143061117873, MDS@[48] == 681286285019270020, MDS@[57] == 2559323521522078511, MDS@[66] == 1162150878861062419, MDS@[75] == 4080931779665215284,
    ;
    assert(product_entry(INV_MDS@, MDS@, 9, 4, 4) == (INV_MDS@[36] as int) * (MDS@[4] as int) + (INV_MDS@[37] as int) * (MDS@[13] as int) + (INV_MDS@[38] as int) * (MDS@[22] as int) + (INV_MDS@[39] as int) * (MDS@[31] as int) + (INV_MDS@[40] as int) * (MDS@[40] as int) + (INV_MDS@[41] as int) * (MDS@[49] as int) + (INV_MDS@[42] as int) * (MDS@[58] as int) + (INV_MDS@[43] as int) * (MDS@[67] as int) + (INV_MDS@[44] as int) * (MDS@[76] as int));
    assert(((INV_MDS@[36] as int) * (MDS@[4] as int) + (INV_MDS@[37] as int) * (MDS@[13] as int) + (INV_MDS@[38] as int) * (MDS@[22] as int) + (INV_MDS@[39] as int) * (MDS@[31] as int) + (INV_MDS@[40] as int) * (MDS@[40] as int) + (INV_MDS@[41] as int) * (MDS@[49] as int) + (INV_MDS@[42] as int) * (MDS@[58] as int) + (INV_MDS@[43] as int) * (MDS@[67] as int) + (INV_MDS@[44] as int) * (MDS@[76] as int)) % 4611624995532046337 == 1) by (nonlinear_arith)
        requires
            INV_MDS@[36] == 3574605258651933052, INV_MDS@[37] == 3776081033478750867, INV_MDS@[38] == 4197195984439072521, INV_MDS@[39] == 2323160270091604467, INV_MDS@[40] == 2968178383345228859, INV_MDS@[41] == 3207693524924509149, INV_MDS@[42] == 3189047413106611221, INV_MDS@[43] == 3494615199478891974, INV_MDS@[44] == 939172905675675913, MDS@[4] == 364572438704838, MDS@[13] == 3578022083293731018, MDS@[22] == 2410004866179382341, MDS@[31] == 3005613438739961642, MDS@[40] == 3574339685331375704, MDS@[49] == 2805410846266053252, MDS@[58] == 1382789646784900202, MDS@[67] == 4269347266999601819, MDS@[76] == 2254354572900271594,
    ;
    assert(product_entry(INV_MDS@, MDS@, 9, 4, 5) == (INV_MDS@[36] as int) * (MDS@[5] as int) + (INV_MDS@[37] as int) * (MDS@[14] as int) + (INV_MDS@[38] as int) * (MDS@[23] as int) + (INV_MDS@[39] as int) * (MDS@[32] as int) + (INV_MDS@[40] as int) * (MDS@[41] as int) + (INV_MDS@[41] as int) * (MDS@[50] as int) + (INV_MDS@[42] as int) * (MDS@[59] as int) + (INV_MDS@[43] as int) * (MDS@[68] as int) + (INV_MDS@[44] as int) * (MDS@[77] as int));
    assert(((INV_MDS@[36] as int) * (MDS@[5] as int) + (INV_MDS@[37] as int) * (MDS@[14] as int) + (INV_MDS@[38] as int) * (MDS@[23] as int) + (INV_MDS@[39] as int) * (MDS@[32] as int) + (INV_MDS@[40] as int) * (MDS@[41] as int) + (INV_MDS@[41] as int) * (MDS@[50] as int) + (INV_MDS@[42] as int) * (MDS@[59] as int) + (INV_MDS@[43] as int) * (MDS@[68] as int) + (INV_MDS@[44] as int) * (MDS@[77] as int)) % 4611624995532046337 == 0) by (nonlinear_arith)
        requires
            INV_MDS@[36] == 3574605258651933052, INV_MDS@[37] == 3776081033478750867, INV_MDS@[38] == 4197195984439072521, INV_MDS@[39] == 2323160270091604467, INV_MDS@[40] == 2968178383345228859, INV_MDS@[41] == 3207693524924509149, INV_MDS@[42] == 3189047413106611221, INV_MDS@[43] == 3494615199478891974, INV_MDS@[44] == 939172905675675913, MDS@[5] == 4611620494637741339, MDS@[14] == 4567696267115265857, MDS@[23] == 4074543151731888787, MDS@[32] == 1137553896735229930, MDS@[41] == 3222440231476431090, MDS@[50] == 2410684455530809505, MDS@[59] == 2739816669015464653, MDS@[68] == 1020076390998853272, MDS@[77] == 3743460493495557051,
    ;
    assert(product_entry(INV_MDS@, MDS@, 9, 4, 6) == (INV_MDS@[36] as int) * (MDS@[6] as int) + (INV_MDS@[37] as int) * (MDS@[15] as int) + (INV_MDS@[38] as int) * (MDS@[24] as int) + (INV_MDS@[39] as int) * (MDS@[33] as int) + (INV_MDS@[40] as int) * (MDS@[42] as int) + (INV_MDS@[41] as int) * (MDS@[51] as int) + (INV_MDS@[42] as int) * (MDS@[60] as int) + (INV_MDS@[43] as int) * (MDS@[69] as int) + (INV_MDS@[44] as int) * (MDS@[78] as int));
    assert(((INV_MDS@[36] as int) * (MDS@[6] as int) + (INV_MDS@[37] as int) * (MDS@[15] as int) + (INV_MDS@[38] as int) * (MDS@[24] as int) + (INV_MDS@[39] as int) * (MDS@[33] as int) + (INV_MDS@[40] as int) * (MDS@[42] as int) + (INV_MDS@[41] as int) * (MDS@[51] as int) + (INV_MDS@[42] as int) * (MDS@[60] as int) + (INV_MDS@[43] as int) * (MDS@[69] as int) + (INV_MDS@[44] as int) * (MDS@[78] as int)) % 4611624995532046337 == 0) by (nonlinear_arith)
        requires
            INV_MDS@[36] == 3574605258651933052, INV_MDS@[37] == 3776081033478750867, INV_MDS@[38] == 4197195984439072521, INV_MDS@[39] == 2323160270091604467, INV_MDS@[40] == 2968178383345228859, INV_MDS@[41] == 3207693524924509149, INV_MDS@[42] == 3189047413106611221, INV_MDS@[43] == 3494615199478891974, INV_MDS@[44] == 939172905675675913, MDS@[6] == 18318658140, MDS@[15] == 175773020450742, MDS@[24] == 1286673036395336460, MDS@[33] == 3419041528315999985, MDS@[42] == 14265327237660372, MDS@[51] == 4077427075299802133, MDS@[60] == 3129816858893153678, MDS@[69] == 1754026023882377187, MDS@[78] == 2371731759139912191,
    ;
    assert(product_entry(INV_MDS@, MDS@, 9, 4, 7) == (INV_MDS@[36] as int) * (MDS@[7] as int) + (INV_MDS@[37] as int) * (MDS@[16] as int) + (INV_MDS@[38] as int) * (MDS@[25] as int) + (INV_MDS@[39] as int) * (MDS@[34] as int) + (INV_MDS@[40] as int) * (MDS@[43] as int) + (INV_MDS@[41] as int) * (MDS@[52] as int) + (INV_MDS@[42] as int) * (MDS@[61] as int) + (INV_MDS@[43] as int) * (MDS@[70] as int) + (INV_MDS@[44] as int) * (MDS@[79] as int));
    assert(((INV_MDS@[36] as int) * (MDS@[7] as int) + (INV_MDS@[37] as int) * (MDS@[16] as int) + (INV_MDS@[38] as int) * (MDS@[25] as int) + (INV_MDS@[39] as int) * (MDS@[34] as int) + (INV_MDS@[40] as int) * (MDS@[43] as int) + (INV_MDS@[41] as int) * (MDS@[52] as int) + (INV_MDS@[42] as int) * (MDS@[61] as int) + (INV_MDS@[43] as int) * (MDS@[70] as int) + (INV_MDS@[44] as int) * (MDS@[79] as int)) % 4611624995532046337 == 0) by (nonlinear_arith)
        requires
            INV_MDS@[36] == 3574605258651933052, INV_MDS@[37] == 3776081033478750867, INV_MDS@[38] == 4197195984439072521, INV_MDS@[39] == 2323160270091604467, INV_MDS@[40] == 2968178383345228859, INV_MDS@[41] == 3207693524924509149, INV_MDS@[42] == 3189047413106611221, INV_MDS@[43] == 3494615199478891974, INV_MDS@[44] == 939172905675675913, MDS@[7] == 4611624995507837477, MDS@[16] == 4611624775611313217, MDS@[25] == 4610042323605607019, MDS@[34] == 3140721539845838211, MDS@[43] == 2212886883903365751, MDS@[52] == 3417121306051169026, MDS@[61] == 679991697250255911, MDS@[70] == 3149871781959943552, MDS@[79] == 4228931313260232939,
    ;
    assert(product_entry(INV_MDS@, MDS@, 9, 4, 8) == (INV_MDS@[36] as int) * (MDS@[8] as int) + (INV_MDS@[37] as int) * (MDS@[17] as int) + (INV_MDS@[38] as int) * (MDS@[26] as int) + (INV_MDS@[39] as int) * (MDS@[35] as int) + (INV_MDS@[40] as int) * (MDS@[44] as int) + (INV_MDS@[41] as int) * (MDS@[53] as int) + (INV_MDS@[42] as int) * (MDS@[62] as int) + (INV_MDS@[43] as int) * (MDS@[71] as int) + (INV_MDS@[44] as int) * (MDS@[80] as int));
    assert(((INV_MDS@[36] as int) * (MDS@[8] as int) + (INV_MDS@[37] as int) * (MDS@[17] as int) + (INV_MDS@[38] as int) * (MDS@[26] as int) + (INV_MDS@[39] as int) * (MDS@[35] as int) + (INV_MDS@[40] as int) * (MDS@[44] as int) + (INV_MDS@[41] as int) * (MDS@[53] as int) + (INV_MDS@[42] as int) * (MDS@[62] as int) + (INV_MDS@[43] as int) * (MDS@[71] as int) + (INV_MDS@[44] as int) * (MDS@[80] as int)) % 4611624995532046337 == 0) by (nonlinear_arith)
        requires
            INV_MDS@[36] == 3574605258651933052, INV_MDS@[37] == 3776081033478750867, INV_MDS@[38] == 4197195984439072521, INV_MDS@[39] == 2323160270091604467, INV_MDS@[40] == 2968178383345228859, INV_MDS@[41] == 3207693524924509149, INV_MDS@[42] == 3189047413106611221, INV_MDS@[43] == 3494615199478891974, INV_MDS@[44] == 939172905675675913, MDS@[8] == 9841, MDS@[17] == 72636421, MDS@[26] == 494894285941, MDS@[35] == 3287582741506063, MDS@[44] == 3212448330282679835, MDS@[53] == 3227560823577981851, MDS@[62] == 970216912235395461, MDS@[71] == 2520884254441070022, MDS@[80] == 629343774120736994,
    ;
}

proof fn lemma_product_backward_row_5()
    ensures
        identity_row(Elem::modulus(), INV_MDS@, MDS@, 9, 5, 9),
{
    reveal_with_fuel(sum, 10);
    reveal_with_fuel(identity_row, 10);
    assert(product_entry(INV_MDS@, MDS@, 9, 5, 0) == (INV_MDS@[45] as int) * (MDS@[0] as int) + (INV_MDS@[46] as int) * (MDS@[9] as int) + (INV_MDS@[47] as int) * (MDS@[18] as int) + (INV_MDS@[48] as int) * (MDS@[27] as int) + (INV_MDS@[49] as int) * (MDS@[36] as int) + (INV_MDS@[50] as int) * (MDS@[45] as int) + (INV_MDS@[51] as int) * (MDS@[54] as int) + (INV_MDS@[52] as int) * (MDS@[63] as int) + (INV_MDS@[53] as int) * (MDS@[72] as int));
    assert(((INV_MDS@[45] as int) * (MDS@[0] as int) + (INV_MDS@[46] as int) * (MDS@[9] as int) + (INV_MDS@[47] as int) * (MDS@[18] as int) + (INV_MDS@[48] as int) * (MDS@[27] as int) + (INV_MDS@[49] as int) * (MDS@[36] as int) + (INV_MDS@[50] as int) * (MDS@[45] as int) + (INV_MDS@[51] as int) * (MDS@[54] as int) + (INV_MDS@[52] as int) * (MDS@[63] as int) + (INV_MDS@[53] as int) * (MDS@[72] as int)) % 4611624995532046337 == 0) by (nonlinear_arith)
        requires
            INV_MDS@[45] == 105602560538833690, INV_MDS@[46] == 3377550819844293227, INV_MDS@[47] == 2405537603155391432, INV_MDS@[48] == 4494434426780066202, INV_MDS@[49] == 3399461679221988058, INV_MDS@[50] == 3410359846988759564, INV_MDS@[51] == 1139390336191412558, INV_MDS@[52] == 527098797354794496, INV_MDS@[53] == 4198688907584692459, MDS@[0] == 150094635296999121, MDS@[9] == 1361307387513521921, MDS@[18] == 3690586968508376915, MDS@[27] == 1460884875119705544, MDS@[36] == 1799234820778435744, MDS@[45] == 418351083517431213, MDS@[54] == 3691476875300647805, MDS@[63] == 2928319956530473610, MDS@[72] == 3605823366462788878,
    ;
    assert(product_entry(INV_MDS@, MDS@, 9, 5, 1) == (INV_MDS@[45] as int) * (MDS@[1] as int) + (INV_MDS@[46] as int) * (MDS@[10] as int) + (INV_MDS@[47] as int) * (MDS@[19] as int) + (INV_MDS@[48] as int) * (MDS@[28] as int) + (INV_MDS@[49] as int) * (MDS@[37] as int) + (INV_MDS@[50] as int) * (MDS@[46] as int) + (INV_MDS@[51] as int) * (MDS@[55] as int) + (INV_MDS@[52] as int) * (MDS@[64] as int) + (INV_MDS@[53] as int) * (MDS@[73] as int));
    assert(((INV_MDS@[45] as int) * (MDS@[1] as int) + (INV_MDS@[46] as int) * (MDS@[10] as int) + (INV_MDS@[47] as int) * (MDS@[19] as int) + (INV_MDS@[48] as int) * (MDS@[28] as int) + (INV_MDS@[49] as int) * (MDS@[37] as int) + (INV_MDS@[50] as int) * (MDS@[46] as int) + (INV_MDS@[51] as int) * (MDS@[55] as int) + (INV_MDS@[52] as int) * (MDS@[64] as int) + (INV_MDS@[53] as int) * (MDS@[73] as int)) % 4611624995532046337 == 0) by (nonlinear_arith)
        requires
            INV_MDS@[45] == 105602560538833690, INV_MDS@[46] == 3377550819844293227, INV_MDS@[47] == 2405537603155391432, INV_MDS@[48] == 4494434426780066202, INV_MDS@[49] == 3399461679221988058, INV_MDS@[50] == 3410359846988759564, INV_MDS@[51] == 1139390336191412558, INV_MDS@[52] == 527098797354794496, INV_MDS@[53] == 4198688907584692459, MDS@[1] == 4386494480982775136, MDS@[10] == 2832323806833398177, MDS@[19] == 1188716678600029516, MDS@[28] == 3386615783772897896, MDS@[37] == 2072052720368877933, MDS@[46] == 1604014025070032746, MDS@[55] == 1874414663873269341, MDS@[64] == 2247820445494298710, MDS@[73] == 1932568390090888418,
    ;
    assert(product_entry(INV_MDS@, MDS@, 9, 5, 2) == (INV_MDS@[45] as int) * (MDS@[2] as int) + (INV_MDS@[46] as int) * (MDS@[11] as int) + (INV_MDS@[47] as int) * (MDS@[20] as int) + (INV_MDS@[48] as int) * (MDS@[29] as int) + (INV_MDS@[49] as int) * (MDS@[38] as int) + (INV_MDS@[50] as int) * (MDS@[47] as int) + (INV_MDS@[51] as int) * (MDS@[56] as int) + (INV_MDS@[52] as int) * (MDS@[65] as int) + (INV_MDS@[53] as int) * (MDS@[74] as int));
    assert(((INV_MDS@[45] as int) * (MDS@[2] as int) + (INV_MDS@[46] as int) * (MDS@[11] as int) + (INV_MDS@[47] as int) * (MDS@[20] as int) + (INV_MDS@[48] as int) * (MDS@[29] as int) + (INV_MDS@[49] as int) * (MDS@[38] as int) + (INV_MDS@[50] as int) * (MDS@[47] as int) + (INV_MDS@[51] as int) * (MDS@[56] as int) + (INV_MDS@[52] as int) * (MDS@[65] as int) + (INV_MDS@[53] as int) * (MDS@[74] as int)) % 4611624995532046337 == 0) by (nonlinear_arith)
        requires
            INV_MDS@[45] == 105602560538833690, INV_MDS@[46] == 3377550819844293227, INV_MDS@[47] == 2405537603155391432, INV_MDS@[48] == 4494434426780066202, INV_MDS@[49] == 3399461679221988058, INV_MDS@[50] == 3410359846988759564, INV_MDS@[51] == 1139390336191412558, INV_MDS@[52] == 527098797354794496, INV_MDS@[53] == 4198688907584692459, MDS@[2] == 84411075413992860, MDS@[11] == 371763438786123399, MDS@[20] == 4404722642276688942, MDS@[29] == 201971421999830434, MDS@[38] == 1556994839688241047, MDS@[47] == 4416269077327681940, MDS@[56] == 1418653137253019787, MDS@[65] == 4005627978492551095, MDS@[74] == 210979528524628337,
    ;
    assert(product_entry(INV_MDS@, MDS@, 9, 5, 3) == (INV_MDS@[45] as int) * (MDS@[3] as int) + (INV_MDS@[46] as int) * (MDS@[12] as int) + (INV_MDS@[47] as int) * (MDS@[21] as int) + (INV_MDS@[48] as int) * (MDS@[30] as int) + (INV_MDS@[49] as int) * (MDS@[39] as int) + (INV_MDS@[50] as int) * (MDS@[48] as int) + (INV_MDS@[51] as int) * (MDS@[57] as int) + (INV_MDS@[52] as int) * (MDS@[66] as int) + (INV_MDS@[53] as int) * (MDS@[75] as int));
    assert(((INV_MDS@[45] as int) * (MDS@[3] as int) + (INV_MDS@[46] as int) * (MDS@[12] as int) + (INV_MDS@[47] as int) * (MDS@[21] as int) + (INV_MDS@[48] as int) * (MDS@[30] as int) + (INV_MDS@[49] as int) * (MDS@[39] as int) + (INV_MDS@[50] as int) * (MDS@[48] as int) + (INV_MDS@[51] as int) * (MDS@[57] as int) + (INV_MDS@[52] as int) * (MDS@[66] as int) + (INV_MDS@[53] as int) * (MDS@[75] as int)) % 4611624995532046337 == 0) by (nonlinear_arith)
        requires
            INV_MDS@[45] == 105602560538833690, INV_MDS@[46] == 3377550819844293227, INV_MDS@[47] == 2405537603155391432, INV_MDS@[48] == 4494434426780066202, INV_MDS@[49] == 3399461679221988058, INV_MDS@[50] == 3410359846988759564, INV_MDS@[51] == 1139390336191412558, INV_MDS@[52] == 527098797354794496, INV_MDS@[53] == 4198688907584692459, MDS@[3] == 4601889709531466597, MDS@[12] == 1123586449881744597, MDS@[21] == 1392834815468635765, MDS@[30] == 2690809914857215644, MDS@[39] == 781837143061117873, MDS@[48] == 681286285019270020, MDS@[57] == 2559323521522078511, MDS@[66] == 1162150878861062419, MDS@[75] == 4080931779665215284,
    ;
    assert(product_entry(INV_MDS@, MDS@, 9, 5, 4) == (INV_MDS@[45] as int) * (MDS@[4] as int) + (INV_MDS@[46] as int) * (MDS@[13] as int) + (INV_MDS@[47] as int) * (MDS@[22] as int) + (INV_MDS@[48] as int) * (MDS@[31] as int) + (INV_MDS@[49] as int) * (MDS@[40] as int) + (INV_MDS@[50] as int) * (MDS@[49] as int) + (INV_MDS@[51] as int) * (MDS@[58] as int) + (INV_MDS@[52] as int) * (MDS@[67] as int) + (INV_MDS@[53] as int) * (MDS@[76] as int));
    assert(((INV_MDS@[45] as int) * (MDS@[4] as int) + (INV_MDS@[46] as int) * (MDS@[13] as int) + (INV_MDS@[47] as int) * (MDS@[22] as int) + (INV_MDS@[48] as int) * (MDS@[31] as int) + (INV_MDS@[49] as int) * (MDS@[40] as int) + (INV_MDS@[50] as int) * (MDS@[49] as int) + (INV_MDS@[51] as int) * (MDS@[58] as int) + (INV_MDS@[52] as int) * (MDS@[67] as int) + (INV_MDS@[53] as int) * (MDS@[76] as int)) % 4611624995532046337 == 0) by (nonlinear_arith)
        requires
            INV_MDS@[45] == 105602560538833690, INV_MDS@[46] == 3377550819844293227, INV_MDS@[47] == 2405537603155391432, INV_MDS@[48] == 4494434426780066202, INV_MDS@[49] == 3399461679221988058, INV_MDS@[50] == 3410359846988759564, INV_MDS@[51] == 1139390336191412558, INV_MDS@[52] == 527098797354794496, INV_MDS@[53] == 4198688907584692459, MDS@[4] == 364572438704838, MDS@[13] == 3578022083293731018, MDS@[22] == 2410004866179382341, MDS@[31] == 3005613438739961642, MDS@[40] == 3574339685331375704, MDS@[49] == 2805410846266053252, MDS@[58] == 1382789646784900202, MDS@[67] == 4269347266999601819, MDS@[76] == 2254354572900271594,
    ;
    assert(product_entry(INV_MDS@, MDS@, 9, 5, 5) == (INV_MDS@[45] as int) * (MDS@[5] as int) + (INV_MDS@[46] as int) * (MDS@[14] as int) + (INV_MDS@[47] as int) * (MDS@[23] as int) + (INV_MDS@[48] as int) * (MDS@[32] as int) + (INV_MDS@[49] as int) * (MDS@[41] as int) + (INV_MDS@[50] as int) * (MDS@[50] as int) + (INV_MDS@[51] as int) * (MDS@[59] as int) + (INV_MDS@[52] as int) * (MDS@[68] as int) + (INV_MDS@[53] as int) * (MDS@[77] as int));
    assert(((INV_MDS@[45] as int) * (MDS@[5] as int) + (INV_MDS@[46] as int) * (MDS@[14] as int) + (INV_MDS@[47] as int) * (MDS@[23] as int) + (INV_MDS@[48] as int) * (MDS@[32] as int) + (INV_MDS@[49] as int) * (MDS@[41] as int) + (INV_MDS@[50] as int) * (MDS@[50] as int) + (INV_MDS@[51] as int) * (MDS@[59] as int) + (INV_MDS@[52] as int) * (MDS@[68] as int) + (INV_MDS@[53] as int) * (MDS@[77] as int)) % 4611624995532046337 == 1) by (nonlinear_arith)
        requires
            INV_MDS@[45] == 105602560538833690, INV_MDS@[46] == 3377550819844293227, INV_MDS@[47] == 2405537603155391432, INV_MDS@[48] == 4494434426780066202, INV_MDS@[49] == 3399461679221988058, INV_MDS@[50] == 3410359846988759564, INV_MDS@[51] == 1139390336191412558, INV_MDS@[52] == 527098797354794496, INV_MDS@[53] == 4198688907584692459, MDS@[5] == 4611620494637741339, MDS@[14] == 4567696267115265857, MDS@[23] == 4074543151731888787, MDS@[32] == 1137553896735229930, MDS@[41] == 3222440231476431090, MDS@[50] == 2410684455530809505, MDS@[59] == 2739816669015464653, MDS@[68] == 1020076390998853272, MDS@[77] == 3743460493495557051,
    ;
    assert(product_entry(INV_MDS@, MDS@, 9, 5, 6) == (INV_MDS@[45] as int) * (MDS@[6] as int) + (INV_MDS@[46] as int) * (MDS@[15] as int) + (INV_MDS@[47] as int) * (MDS@[24] as int) + (INV_MDS@[48] as int) * (MDS@[33] as int) + (INV_MDS@[49] as int) * (MDS@[42] as int) + (INV_MDS@[50] as int) * (MDS@[51] as int) + (INV_MDS@[51] as int) * (MDS@[60] as int) + (INV_MDS@[52] as int) * (MDS@[69] as int) + (INV_MDS@[53] as int) * (MDS@[78] as int));
    assert(((INV_MDS@[45] as int) * (MDS@[6] as int) + (INV_MDS@[46] as int) * (MDS@[15] as int) + (INV_MDS@[47] as int) * (MDS@[24] as int) + (INV_MDS@[48] as int) * (MDS@[33] as int) + (INV_MDS@[49] as int) * (MDS@[42] as int) + (INV_MDS@[50] as int) * (MDS@[51] as int) + (INV_MDS@[51] as int) * (MDS@[60] as int) + (INV_MDS@[52] as int) * (MDS@[69] as int) + (INV_MDS@[53] as int) * (MDS@[78] as int)) % 4611624995532046337 == 0) by (nonlinear_arith)
        requires
            INV_MDS@[45] == 105602560538833690, INV_MDS@[46] == 3377550819844293227, INV_MDS@[47] == 2405537603155391432, INV_MDS@[48] == 4494434426780066202, INV_MDS@[49] == 3399461679221988058, INV_MDS@[50] == 3410359846988759564, INV_MDS@[51] == 1139390336191412558, INV_MDS@[52] == 527098797354794496, INV_MDS@[53] == 4198688907584692459, MDS@[6] == 18318658140, MDS@[15] == 175773020450742, MDS@[24] == 1286673036395336460, MDS@[33] == 3419041528315999985, MDS@[42] == 14265327237660372, MDS@[51] == 4077427075299802133, MDS@[60] == 3129816858893153678, MDS@[69] == 1754026023882377187, MDS@[78] == 2371731759139912191,
    ;
    assert(product_entry(INV_MDS@, MDS@, 9, 5, 7) == (INV_MDS@[45] as int) * (MDS@[7] as int) + (INV_MDS@[46] as int) * (MDS@[16] as int) + (INV_MDS@[47] as int) * (MDS@[25] as int) + (INV_MDS@[48] as int) * (MDS@[34] as int) + (INV_MDS@[49] as int) * (MDS@[43] as int) + (INV_MDS@[50] as int) * (MDS@[52] as int) + (INV_MDS@[51] as int) * (MDS@[61] as int) + (INV_MDS@[52] as int) * (MDS@[70] as int) + (INV_MDS@[53] as int) * (MDS@[79] as int));
    assert(((INV_MDS@[45] as int) * (MDS@[7] as int) + (INV_MDS@[46] as int) * (MDS@[16] as int) + (INV_MDS@[47] as int) * (MDS@[25] as int) + (INV_MDS@[48] as int) * (MDS@[34] as int) + (INV_MDS@[49] as int) * (MDS@[43] as int) + (INV_MDS@[50] as int) * (MDS@[52] as int) + (INV_MDS@[51] as int) * (MDS@[61] as int) + (INV_MDS@[52] as int) * (MDS@[70] as int) + (INV_MDS@[53] as int) * (MDS@[79] as int)) % 4611624995532046337 == 0) by (nonlinear_arith)
        requires
            INV_MDS@[45] == 105602560538833690, INV_MDS@[46] == 3377550819844293227, INV_MDS@[47] == 2405537603155391432, INV_MDS@[48] == 4494434426780066202, INV_MDS@[49] == 3399461679221988058, INV_MDS@[50] == 3410359846988759564, INV_MDS@[51] == 1139390336191412558, INV_MDS@[52] == 527098797354794496, INV_MDS@[53] == 4198688907584692459, MDS@[7] == 4611624995507837477, MDS@[16] == 4611624775611313217, MDS@[25] == 4610042323605607019, MDS@[34] == 3140721539845838211, MDS@[43] == 2212886883903365751, MDS@[52] == 3417121306051169026, MDS@[61] == 679991697250255911, MDS@[70] == 3149871781959943552, MDS@[79] == 4228931313260232939,
    ;
    assert(product_entry(INV_MDS@, MDS@, 9, 5, 8) == (INV_MDS@[45] as int) * (MDS@[8] as int) + (INV_MDS@[46] as int) * (MDS@[17] as int) + (INV_MDS@[47] as int) * (MDS@[26] as int) + (INV_MDS@[48] as int) * (MDS@[35] as int) + (INV_MDS@[49] as int) * (MDS@[44] as int) + (INV_MDS@[50] as int) * (MDS@[53] as int) + (INV_MDS@[51] as int) * (MDS@[62] as int) + (INV_MDS@[52] as int) * (MDS@[71] as int) + (INV_MDS@[53] as int) * (MDS@[80] as int));
    assert(((INV_MDS@[45] as int) * (MDS@[8] as int) + (INV_MDS@[46] as int) * (MDS@[17] as int) + (INV_MDS@[47] as int) * (MDS@[26] as int) + (INV_MDS@[48] as int) * (MDS@[35] as int) + (INV_MDS@[49] as int) * (MDS@[44] as int) + (INV_MDS@[50] as int) * (MDS@[53] as int) + (INV_MDS@[51] as int) * (MDS@[62] as int) + (INV_MDS@[52] as int) * (MDS@[71] as int) + (INV_MDS@[53] as int) * (MDS@[80] as int)) % 4611624995532046337 == 0) by (nonlinear_arith)
        requires
            INV_MDS@[45] == 105602560538833690, INV_MDS@[46] == 3377550819844293227, INV_MDS@[47] == 2405537603155391432, INV_MDS@[48] == 4494434426780066202, INV_MDS@[49] == 3399461679221988058, INV_MDS@[50] == 3410359846988759564, INV_MDS@[51] == 1139390336191412558, INV_MDS@[52] == 527098797354794496, INV_MDS@[53] == 4198688907584692459, MDS@[8] == 9841, MDS@[17] == 72636421, MDS@[26] == 494894285941, MDS@[35] == 3287582741506063, MDS@[44] == 3212448330282679835, MDS@[53] == 3227560823577981851, MDS@[62] == 970216912235395461, MDS@[71] == 2520884254441070022, MDS@[80] == 629343774120736994,
    ;
}

proof fn lemma_product_backward_row_6()
    ensures
        identity_row(Elem::modulus(), INV_MDS@, MDS@, 9, 6, 9),
{
    reveal_with_fuel(sum, 10);
    reveal_with_fuel(identity_row, 10);
    assert(product_entry(INV_MDS@, MDS@, 9, 6, 0) == (INV_MDS@[54] as int) * (MDS@[0] as int) + (INV_MDS@[55] as int) * (MDS@[9] as int) + (INV_MDS@[56] as int) * (MDS@[18] as int) + (INV_MDS@[57] as int) * (MDS@[27] as int) + (INV_MDS@[58] as int) * (MDS@[36] as int) + (INV_MDS@[59] as int) * (MDS@[45] as int) + (INV_MDS@[60] as int) * (MDS@[54] as int) + (INV_MDS@[61] as int) * (MDS@[63] as int) + (INV_MDS@[62] as int) * (MDS@[72] as int));
    assert(((INV_MDS@[54] as int) * (MDS@[0] as int) + (INV_MDS@[55] as int) * (MDS@[9] as int) + (INV_MDS@[56] as int) * (MDS@[18] as int) + (INV_MDS@[57] as int) * (MDS@[27] as int) + (INV_MDS@[58] as int) * (MDS@[36] as int) + (INV_MDS@[59] as int) * (MDS@[45] as int) + (INV_MDS@[60] as int) * (MDS@[54] as int) + (INV_MDS@[61] as int) * (MDS@[63] as int) + (INV_MDS@[62] as int) * (MDS@[72] as int)) % 4611624995532046337 == 0) by (nonlinear_arith)
        requires
            INV_MDS@[54] == 2470160527543053102, INV_MDS@[55] == 4596885798055676665, INV_MDS@[56] == 1067306248085340780, INV_MDS@[57] == 681737992013306965, INV_MDS@[58] == 1520629548906454474, INV_MDS@[59] == 4404047232332091755, INV_MDS@[60] == 2694913477905427615, INV_MDS@[61] == 1346140786108729998, INV_MDS@[62] == 4276303366710150332, MDS@[0] == 150094635296999121, MDS@[9] == 1361307387513521921, MDS@[18] == 3690586968508376915, MDS@[27] == 1460884875119705544, MDS@[36] == 1799234820778435744, MDS@[45] == 418351083517431213, MDS@[54] == 3691476875300647805, MDS@[63] == 2928319956530473610, MDS@[72] == 3605823366462788878,
    ;
    assert(product_entry(INV_MDS@, MDS@, 9, 6, 1) == (INV_MDS@[54] as int) * (MDS@[1] as int) + (INV_MDS@[55] as int) * (MDS@[10] as int) + (INV_MDS@[56] as int) * (MDS@[19] as int) + (INV_MDS@[57] as int) * (MDS@[28] as int) + (INV_MDS@[58] as int) * (MDS@[37] as int) + (INV_MDS@[59] as int) * (MDS@[46] as int) + (INV_MDS@[60] as int) * (MDS@[55] as int) + (INV_MDS@[61] as int) * (MDS@[64] as int) + (INV_MDS@[62] as int) * (MDS@[73] as int));
    assert(((INV_MDS@[54] as int) * (MDS@[1] as int) + (INV_MDS@[55] as int) * (MDS@[10] as int) + (INV_MDS@[56] as int) * (MDS@[19] as int) + (INV_MDS@[57] as int) * (MDS@[28] as int) + (INV_MDS@[58] as int) * (MDS@[37] as int) + (INV_MDS@[59] as int) * (MDS@[46] as int) + (INV_MDS@[60] as int) * (MDS@[55] as int) + (INV_MDS@[61] as int) * (MDS@[64] as int) + (INV_MDS@[62] as int) * (MDS@[73] as int)) % 4611624995532046337 == 0) by (nonlinear_arith)
        requires
            INV_MDS@[54] == 2470160527543053102, INV_MDS@[55] == 4596885798055676665, INV_MDS@[56] == 1067306248085340780, INV_MDS@[57] == 681737992013306965, INV_MDS@[58] == 1520629548906454474, INV_MDS@[59] == 4404047232332091755, INV_MDS@[60] == 2694913477905427615, INV_MDS@[61] == 1346140786108729998, INV_MDS@[62] == 4276303366710150332, MDS@[1] == 4386494480982775136, MDS@[10] == 2832323806833398177, MDS@[19] == 1188716678600029516, MDS@[28] == 3386615783772897896, MDS@[37] == 2072052720368877933, MDS@[46] == 1604014025070032746, MDS@[55] == 1874414663873269341, MDS@[64] == 2247820445494298710, MDS@[73] == 1932568390090888418,
    ;
    assert(product_entry(INV_MDS@, MDS@, 9, 6, 2) == (INV_MDS@[54] as int) * (MDS@[2] as int) + (INV_MDS@[55] as int) * (MDS@[11] as int) + (INV_MDS@[56] as int) * (MDS@[20] as int) + (INV_MDS@[57] as int) * (MDS@[29] as int) + (INV_MDS@[58] as int) * (MDS@[38] as int) + (INV_MDS@[59] as int) * (MDS@[47] as int) + (INV_MDS@[60] as int) * (MDS@[56] as int) + (INV_MDS@[61] as int) * (MDS@[65] as int) + (INV_MDS@[62] as int) * (MDS@[74] as int));
    assert(((INV_MDS@[54] as int) * (MDS@[2] as int) + (INV_MDS@[55] as int) * (MDS@[11] as int) + (INV_MDS@[56] as int) * (MDS@[20] as int) + (INV_MDS@[57] as int) * (MDS@[29] as int) + (INV_MDS@[58] as int) * (MDS@[38] as int) + (INV_MDS@[59] as int) * (MDS@[47] as int) + (INV_MDS@[60] as int) * (MDS@[56] as int) + (INV_MDS@[61] as int) * (MDS@[65] as int) + (INV_MDS@[62] as int) * (MDS@[74] as int)) % 4611624995532046337 == 0) by (nonlinear_arith)
        requires
            INV_MDS@[54] == 2470160527543053102, INV_MDS@[55] == 4596885798055676665, INV_MDS@[56] == 1067306248085340780, INV_MDS@[57] == 681737992013306965, INV_MDS@[58] == 1520629548906454474, INV_MDS@[59] == 4404047232332091755, INV_MDS@[60] == 2694913477905427615, INV_MDS@[61] == 1346140786108729998, INV_MDS@[62] == 4276303366710150332, MDS@[2] == 84411075413992860, MDS@[11] == 371763438786123399, MDS@[20] == 4404722642276688942, MDS@[29] == 201971421999830434, MDS@[38] == 1556994839688241047, MDS@[47] == 4416269077327681940, MDS@[56] == 1418653137253019787, MDS@[65] == 4005627978492551095, MDS@[74] == 210979528524628337,
    ;
    assert(product_entry(INV_MDS@, MDS@, 9, 6, 3) == (INV_MDS@[54] as int) * (MDS@[3] as int) + (INV_MDS@[55] as int) * (MDS@[12] as int) + (INV_MDS@[56] as int) * (MDS@[21] as int) + (INV_MDS@[57] as int) * (MDS@[30] as int) + (INV_MDS@[58] as int) * (MDS@[39] as int) + (INV_MDS@[59] as int) * (MDS@[48] as int) + (INV_MDS@[60] as int) * (MDS@[57] as int) + (INV_MDS@[61] as int) * (MDS@[66] as int) + (INV_MDS@[62] as int) * (MDS@[75] as int));
    assert(((INV_MDS@[54] as int) * (MDS@[3] as int) + (INV_MDS@[55] as int) * (MDS@[12] as int) + (INV_MDS@[56] as int) * (MDS@[21] as int) + (INV_MDS@[57] as int) * (MDS@[30] as int) + (INV_MDS@[58] as int) * (MDS@[39] as int) + (INV_MDS@[59] as int) * (MDS@[48] as int) + (INV_MDS@[60] as int) * (MDS@[57] as int) + (INV_MDS@[61] as int) * (MDS@[66] as int) + (INV_MDS@[62] as int) * (MDS@[75] as int)) % 4611624995532046337 == 0) by (nonlinear_arith)
        requires
            INV_MDS@[54] == 2470160527543053102, INV_MDS@[55] == 4596885798055676665, INV_MDS@[56] == 1067306248085340780, INV_MDS@[57] == 681737992013306965, INV_MDS@[58] == 1520629548906454474, INV_MDS@[59] == 4404047232332091755, INV_MDS@[60] == 2694913477905427615, INV_MDS@[61] == 1346140786108729998, INV_MDS@[62] == 4276303366710150332, MDS@[3] == 4601889709531466597, MDS@[12] == 1123586449881744597, MDS@[21] == 1392834815468635765, MDS@[30] == 2690809914857215644, MDS@[39] == 781837143061117873, MDS@[48] == 681286285019270020, MDS@[57] == 2559323521522078511, MDS@[66] == 1162150878861062419, MDS@[75] == 4080931779665215284,
    ;
    assert(product_entry(INV_MDS@, MDS@, 9, 6, 4) == (INV_MDS@[54] as int) * (MDS@[4] as int) + (INV_MDS@[55] as int) * (MDS@[13] as int) + (INV_MDS@[56] as int) * (MDS@[22] as int) + (INV_MDS@[57] as int) * (MDS@[31] as int) + (INV_MDS@[58] as int) * (MDS@[40] as int) + (INV_MDS@[59] as int) * (MDS@[49] as int) + (INV_MDS@[60] as int) * (MDS@[58] as int) + (INV_MDS@[61] as int) * (MDS@[67] as int) + (INV_MDS@[62] as int) * (MDS@[76] as int));
    assert(((INV_MDS@[54] as int) * (MDS@[4] as int) + (INV_MDS@[55] as int) * (MDS@[13] as int) + (INV_MDS@[56] as int) * (MDS@[22] as int) + (INV_MDS@[57] as int) * (MDS@[31] as int) + (INV_MDS@[58] as int) * (MDS@[40] as int) + (INV_MDS@[59] as int) * (MDS@[49] as int) + (INV_MDS@[60] as int) * (MDS@[58] as int) + (INV_MDS@[61] as int) * (MDS@[67] as int) + (INV_MDS@[62] as int) * (MDS@[76] as int)) % 4611624995532046337 == 0) by (nonlinear_arith)
        requires
            INV_MDS@[54] == 2470160527543053102, INV_MDS@[55] == 4596885798055676665, INV_MDS@[56] == 1067306248085340780, INV_MDS@[57] == 681737992013306965, INV_MDS@[58] == 1520629548906454474, INV_MDS@[59] == 4404047232332091755, INV_MDS@[60] == 2694913477905427615, INV_MDS@[61] == 1346140786108729998, INV_MDS@[62] == 4276303366710150332, MDS@[4] == 364572438704838, MDS@[13] == 3578022083293731018, MDS@[22] == 2410004866179382341, MDS@[31] == 3005613438739961642, MDS@[40] == 3574339685331375704, MDS@[49] == 2805410846266053252, MDS@[58] == 1382789646784900202, MDS@[67] == 4269347266999601819, MDS@[76] == 2254354572900271594,
    ;
    assert(product_entry(INV_MDS@, MDS@, 9, 6, 5) == (INV_MDS@[54] as int) * (MDS@[5] as int) + (INV_MDS@[55] as int) * (MDS@[14] as int) + (INV_MDS@[56] as int) * (MDS@[23] as int) + (INV_MDS@[57] as int) * (MDS@[32] as int) + (INV_MDS@[58] as int) * (MDS@[41] as int) + (INV_MDS@[59] as int) * (MDS@[50] as int) + (INV_MDS@[60] as int) * (MDS@[59] as int) + (INV_MDS@[61] as int) * (MDS@[68] as int) + (INV_MDS@[62] as int) * (MDS@[77] as int));
    assert(((INV_MDS@[54] as int) * (MDS@[5] as int) + (INV_MDS@[55] as int) * (MDS@[14] as int) + (INV_MDS@[56] as int) * (MDS@[23] as int) + (INV_MDS@[57] as int) * (MDS@[32] as int) + (INV_MDS@[58] as int) * (MDS@[41] as int) + (INV_MDS@[59] as int) * (MDS@[50] as int) + (INV_MDS@[60] as int) * (MDS@[59] as int) + (INV_MDS@[61] as int) * (MDS@[68] as int) + (INV_MDS@[62] as int) * (MDS@[77] as int)) % 4611624995532046337 == 0) by (nonlinear_arith)
        requires
            INV_MDS@[54] == 2470160527543053102, INV_MDS@[55] == 4596885798055676665, INV_MDS@[56] == 1067306248085340780, INV_MDS@[57] == 681737992013306965, INV_MDS@[58] == 1520629548906454474, INV_MDS@[59] == 4404047232332091755, INV_MDS@[60] == 2694913477905427615, INV_MDS@[61] == 1346140786108729998, INV_MDS@[62] == 4276303366710150332, MDS@[5] == 4611620494637741339, MDS@[14] == 4567696267115265857, MDS@[23] == 4074543151731888787, MDS@[32] == 1137553896735229930, MDS@[41] == 3222440231476431090, MDS@[50] == 2410684455530809505, MDS@[59] == 2739816669015464653, MDS@[68] == 1020076390998853272, MDS@[77] == 3743460493495557051,
    ;
    assert(product_entry(INV_MDS@, MDS@, 9, 6, 6) == (INV_MDS@[54] as int) * (MDS@[6] as int) + (INV_MDS@[55] as int) * (MDS@[15] as int) + (INV_MDS@[56] as int) * (MDS@[24] as int) + (INV_MDS@[57] as int) * (MDS@[33] as int) + (INV_MDS@[58] as int) * (MDS@[42] as int) + (INV_MDS@[59] as int) * (MDS@[51] as int) + (INV_MDS@[60] as int) * (MDS@[60] as int) + (INV_MDS@[61] as int) * (MDS@[69] as int) + (INV_MDS@[62] as int) * (MDS@[78] as int));
    assert(((INV_MDS@[54] as int) * (MDS@[6] as int) + (INV_MDS@[55] as int) * (MDS@[15] as int) + (INV_MDS@[56] as int) * (MDS@[24] as int) + (INV_MDS@[57] as int) * (MDS@[33] as int) + (INV_MDS@[58] as int) * (MDS@[42] as int) + (INV_MDS@[59] as int) * (MDS@[51] as int) + (INV_MDS@[60] as int) * (MDS@[60] as int) + (INV_MDS@[61] as int) * (MDS@[69] as int) + (INV_MDS@[62] as int) * (MDS@[78] as int)) % 4611624995532046337 == 1) by (nonlinear_arith)
        requires
            INV_MDS@[54] == 2470160527543053102, INV_MDS@[55] == 4596885798055676665, INV_MDS@[56] == 1067306248085340780, INV_MDS@[57] == 681737992013306965, INV_MDS@[58] == 1520629548906454474, INV_MDS@[59] == 4404047232332091755, INV_MDS@[60] == 2694913477905427615, INV_MDS@[61] == 1346140786108729998, INV_MDS@[62] == 4276303366710150332, MDS@[6] == 18318658140, MDS@[15] == 175773020450742, MDS@[24] == 1286673036395336460, MDS@[33] == 3419041528315999985, MDS@[42] == 14265327237660372, MDS@[51] == 4077427075299802133, MDS@[60] == 3129816858893153678, MDS@[69] == 1754026023882377187, MDS@[78] == 2371731759139912191,
    ;
    assert(product_entry(INV_MDS@, MDS@, 9, 6, 7) == (INV_MDS@[54] as int) * (MDS@[7] as int) + (INV_MDS@[55] as int) * (MDS@[16] as int) + (INV_MDS@[56] as int) * (MDS@[25] as int) + (INV_MDS@[57] as int) * (MDS@[34] as int) + (INV_MDS@[58] as int) * (MDS@[43] as int) + (INV_MDS@[59] as int) * (MDS@[52] as int) + (INV_MDS@[60] as int) * (MDS@[61] as int) + (INV_MDS@[61] as int) * (MDS@[70] as int) + (INV_MDS@[62] as int) * (MDS@[79] as int));
    assert(((INV_MDS@[54] as int) * (MDS@[7] as int) + (INV_MDS@[55] as int) * (MDS@[16] as int) + (INV_MDS@[56] as int) * (MDS@[25] as int) + (INV_MDS@[57] as int) * (MDS@[34] as int) + (INV_MDS@[58] as int) * (MDS@[43] as int) + (INV_MDS@[59] as int) * (MDS@[52] as int) + (INV_MDS@[60] as int) * (MDS@[61] as int) + (INV_MDS@[61] as int) * (MDS@[70] as int) + (INV_MDS@[62] as int) * (MDS@[79] as int)) % 4611624995532046337 == 0) by (nonlinear_arith)
        requires
            INV_MDS@[54] == 2470160527543053102, INV_MDS@[55] == 4596885798055676665, INV_MDS@[56] == 1067306248085340780, INV_MDS@[57] == 681737992013306965, INV_MDS@[58] == 1520629548906454474, INV_MDS@[59] == 4404047232332091755, INV_MDS@[60] == 2694913477905427615, INV_MDS@[61] == 1346140786108729998, INV_MDS@[62] == 4276303366710150332, MDS@[7] == 4611624995507837477, MDS@[16] == 4611624775611313217, MDS@[25] == 4610042323605607019, MDS@[34] == 3140721539845838211, MDS@[43] == 2212886883903365751, MDS@[52] == 3417121306051169026, MDS@[61] == 679991697250255911, MDS@[70] == 3149871781959943552, MDS@[79] == 4228931313260232939,
    ;
    assert(product_entry(INV_MDS@, MDS@, 9, 6, 8) == (INV_MDS@[54] as int) * (MDS@[8] as int) + (INV_MDS@[55] as int) * (MDS@[17] as int) + (INV_MDS@[56] as int) * (MDS@[26] as int) + (INV_MDS@[57] as int) * (MDS@[35] as int) + (INV_MDS@[58] as int) * (MDS@[44] as int) + (INV_MDS@[59] as int) * (MDS@[53] as int) + (INV_MDS@[60] as int) * (MDS@[62] as int) + (INV_MDS@[61] as int) * (MDS@[71] as int) + (INV_MDS@[62] as int) * (MDS@[80] as int));
    assert(((INV_MDS@[54] as int) * (MDS@[8] as int) + (INV_MDS@[55] as int) * (MDS@[17] as int) + (INV_MDS@[56] as int) * (MDS@[26] as int) + (INV_MDS@[57] as int) * (MDS@[35] as int) + (INV_MDS@[58] as int) * (MDS@[44] as int) + (INV_MDS@[59] as int) * (MDS@[53] as int) + (INV_MDS@[60] as int) * (MDS@[62] as int) + (INV_MDS@[61] as int) * (MDS@[71] as int) + (INV_MDS@[62] as int) * (MDS@[80] as int)) % 4611624995532046337 == 0) by (nonlinear_arith)
        requires
            INV_MDS@[54] == 2470160527543053102, INV_MDS@[55] == 4596885798055676665, INV_MDS@[56] == 1067306248085340780, INV_MDS@[57] == 681737992013306965, INV_MDS@[58] == 1520629548906454474, INV_MDS@[59] == 4404047232332091755, INV_MDS@[60] == 2694913477905427615, INV_MDS@[61] == 1346140786108729998, INV_MDS@[62] == 4276303366710150332, MDS@[8] == 9841, MDS@[17] == 72636421, MDS@[26] == 494894285941, MDS@[35] == 3287582741506063, MDS@[44] == 3212448330282679835, MDS@[53] == 3227560823577981851, MDS@[62] == 970216912235395461, MDS@[71] == 2520884254441070022, MDS@[80] == 629343774120736994,
    ;
}

proof fn lemma_product_backward_row_7()
    ensures
        identity_row(Elem::modulus(), INV_MDS@, MDS@, 9, 7, 9),
{
    reveal_with_fuel(sum, 10);
    reveal_with_fuel(identity_row, 10);
    assert(product_entry(INV_MDS@, MDS@, 9, 7, 0) == (INV_MDS@[63] as int) * (MDS@[0] as int) + (INV_MDS@[64] as int) * (MDS@[9] as int) + (INV_MDS@[65] as int) * (MDS@[18] as int) + (INV_MDS@[66] as int) * (MDS@[27] as int) + (INV_MDS@[67] as int) * (MDS@[36] as int) + (INV_MDS@[68] as int) * (MDS@[45] as int) + (INV_MDS@[69] as int) * (MDS@[54] as int) + (INV_MDS@[70] as int) * (MDS@[63] as int) + (INV_MDS@[71] as int) * (MDS@[72] as int));
    assert(((INV_MDS@[63] as int) * (MDS@[0] as int) + (INV_MDS@[64] as int) * (MDS@[9] as int) + (INV_MDS@[65] as int) * (MDS@[18] as int) + (INV_MDS@[66] as int) * (MDS@[27] as int) + (INV_MDS@[67] as int) * (MDS@[36] as int) + (INV_MDS@[68] as int) * (MDS@[45] as int) + (INV_MDS@[69] as int) * (MDS@[54] as int) + (INV_MDS@[70] as int) * (MDS@[63] as int) + (INV_MDS@[71] as int) * (MDS@[72] as int)) % 4611624995532046337 == 0) by (nonlinear_arith)
        requires
            INV_MDS@[63] == 1404066629609082371, INV_MDS@[64] == 1041748211388490239, INV_MDS@[65] == 4525166593910048957, INV_MDS@[66] == 977282067546530790, INV_MDS@[67] == 4499663276559992087, INV_MDS@[68] == 3124570284534635445, INV_MDS@[69] == 2912864986169238494, INV_MDS@[70] == 1203274577166891218, INV_MDS@[71] == 3369488350775322085, MDS@[0] == 150094635296999121, MDS@[9] == 1361307387513521921, MDS@[18] == 3690586968508376915, MDS@[27] == 1460884875119705544, MDS@[36] == 1799234820778435744, MDS@[45] == 418351083517431213, MDS@[54] == 3691476875300647805, MDS@[63] == 2928319956530473610, MDS@[72] == 3605823366462788878,
    ;
    assert(product_entry(INV_MDS@, MDS@, 9, 7, 1) == (INV_MDS@[63] as int) * (MDS@[1] as int) + (INV_MDS@[64] as int) * (MDS@[10] as int) + (INV_MDS@[65] as int) * (MDS@[19] as int) + (INV_MDS@[66] as int) * (MDS@[28] as int) + (INV_MDS@[67] as int) * (MDS@[37] as int) + (INV_MDS@[68] as int) * (MDS@[46] as int) + (INV_MDS@[69] as int) * (MDS@[55] as int) + (INV_MDS@[70] as int) * (MDS@[64] as int) + (INV_MDS@[71] as int) * (MDS@[73] as int));
    assert(((INV_MDS@[63] as int) * (MDS@[1] as int) + (INV_MDS@[64] as int) * (MDS@[10] as int) + (INV_MDS@[65] as int) * (MDS@[19] as int) + (INV_MDS@[66] as int) * (MDS@[28] as int) + (INV_MDS@[67] as int) * (MDS@[37] as int) + (INV_MDS@[68] as int) * (MDS@[46] as int) + (INV_MDS@[69] as int) * (MDS@[55] as int) + (INV_MDS@[70] as int) * (MDS@[64] as int) + (INV_MDS@[71] as int) * (MDS@[73] as int)) % 4611624995532046337 == 0) by (nonlinear_arith)
        requires
            INV_MDS@[63] == 1404066629609082371, INV_MDS@[64] == 1041748211388490239, INV_MDS@[65] == 4525166593910048957, INV_MDS@[66] == 977282067546530790, INV_MDS@[67] == 4499663276559992087, INV_MDS@[68] == 3124570284534635445, INV_MDS@[69] == 2912864986169238494, INV_MDS@[70] == 1203274577166891218, INV_MDS@[71] == 3369488350775322085, MDS@[1] == 4386494480982775136, MDS@[10] == 2832323806833398177, MDS@[19] == 1188716678600029516, MDS@[28] == 3386615783772897896, MDS@[37] == 2072052720368877933, MDS@[46] == 1604014025070032746, MDS@[55] == 1874414663873269341, MDS@[64] == 2247820445494298710, MDS@[73] == 1932568390090888418,
    ;
    assert(product_entry(INV_MDS@, MDS@, 9, 7, 2) == (INV_MDS@[63] as int) * (MDS@[2] as int) + (INV_MDS@[64] as int) * (MDS@[11] as int) + (INV_MDS@[65] as int) * (MDS@[20] as int) + (INV_MDS@[66] as int) * (MDS@[29] as int) + (INV_MDS@[67] as int) * (MDS@[38] as int) + (INV_MDS@[68] as int) * (MDS@[47] as int) + (INV_MDS@[69] as int) * (MDS@[56] as int) + (INV_MDS@[70] as int) * (MDS@[65] as int) + (INV_MDS@[71] as int) * (MDS@[74] as int));
    assert(((INV_MDS@[63] as int) * (MDS@[2] as int) + (INV_MDS@[64] as int) * (MDS@[11] as int) + (INV_MDS@[65] as int) * (MDS@[20] as int) + (INV_MDS@[66] as int) * (MDS@[29] as int) + (INV_MDS@[67] as int) * (MDS@[38] as int) + (INV_MDS@[68] as int) * (MDS@[47] as int) + (INV_MDS@[69] as int) * (MDS@[56] as int) + (INV_MDS@[70] as int) * (MDS@[65] as int) + (INV_MDS@[71] as int) * (MDS@[74] as int)) % 4611624995532046337 == 0) by (nonlinear_arith)
        requires
            INV_MDS@[63] == 1404066629609082371, INV_MDS@[64] == 1041748211388490239, INV_MDS@[65] == 4525166593910048957, INV_MDS@[66] == 977282067546530790, INV_MDS@[67] == 4499663276559992087, INV_MDS@[68] == 3124570284534635445, INV_MDS@[69] == 2912864986169238494, INV_MDS@[70] == 1203274577166891218, INV_MDS@[71] == 3369488350775322085, MDS@[2] == 84411075413992860, MDS@[11] == 371763438786123399, MDS@[20] == 4404722642276688942, MDS@[29] == 201971421999830434, MDS@[38] == 1556994839688241047, MDS@[47] == 4416269077327681940, MDS@[56] == 1418653137253019787, MDS@[65] == 4005627978492551095, MDS@[74] == 210979528524628337,
    ;
    assert(product_entry(INV_MDS@, MDS@, 9, 7, 3) == (INV_MDS@[63] as int) * (MDS@[3] as int) + (INV_MDS@[64] as int) * (MDS@[12] as int) + (INV_MDS@[65] as int) * (MDS@[21] as int) + (INV_MDS@[66] as int) * (MDS@[30] as int) + (INV_MDS@[67] as int) * (MDS@[39] as int) + (INV_MDS@[68] as int) * (MDS@[48] as int) + (INV_MDS@[69] as int) * (MDS@[57] as int) + (INV_MDS@[70] as int) * (MDS@[66] as int) + (INV_MDS@[71] as int) * (MDS@[75] as int));
    assert(((INV_MDS@[63] as int) * (MDS@[3] as int) + (INV_MDS@[64] as int) * (MDS@[12] as int) + (INV_MDS@[65] as int) * (MDS@[21] as int) + (INV_MDS@[66] as int) * (MDS@[30] as int) + (INV_MDS@[67] as int) * (MDS@[39] as int) + (INV_MDS@[68] as int) * (MDS@[48] as int) + (INV_MDS@[69] as int) * (MDS@[57] as int) + (INV_MDS@[70] as int) * (MDS@[66] as int) + (INV_MDS@[71] as int) * (MDS@[75] as int)) % 4611624995532046337 == 0) by (nonlinear_arith)
        requires
            INV_MDS@[63] == 1404066629609082371, INV_MDS@[64] == 1041748211388490239, INV_MDS@[65] == 4525166593910048957, INV_MDS@[66] == 977282067546530790, INV_MDS@[67] == 4499663276559992087, INV_MDS@[68] == 3124570284534635445, INV_MDS@[69] == 2912864986169238494, INV_MDS@[70] == 1203274577166891218, INV_MDS@[71] == 3369488350775322085, MDS@[3] == 4601889709531466597, MDS@[12] == 1123586449881744597, MDS@[21] == 1392834815468635765, MDS@[30] == 2690809914857215644, MDS@[39] == 781837143061117873, MDS@[48] == 681286285019270020, MDS@[57] == 2559323521522078511, MDS@[66] == 1162150878861062419, MDS@[75] == 4080931779665215284,
    ;
    assert(product_entry(INV_MDS@, MDS@, 9, 7, 4) == (INV_MDS@[63] as int) * (MDS@[4] as int) + (INV_MDS@[64] as int) * (MDS@[13] as int) + (INV_MDS@[65] as int) * (MDS@[22] as int) + (INV_MDS@[66] as int) * (MDS@[31] as int) + (INV_MDS@[67] as int) * (MDS@[40] as int) + (INV_MDS@[68] as int) * (MDS@[49] as int) + (INV_MDS@[69] as int) * (MDS@[58] as int) + (INV_MDS@[70] as int) * (MDS@[67] as int) + (INV_MDS@[71] as int) * (MDS@[76] as int));
    assert(((INV_MDS@[63] as int) * (MDS@[4] as int) + (INV_MDS@[64] as int) * (MDS@[13] as int) + (INV_MDS@[65] as int) * (MDS@[22] as int) + (INV_MDS@[66] as int) * (MDS@[31] as int) + (INV_MDS@[67] as int) * (MDS@[40] as int) + (INV_MDS@[68] as int) * (MDS@[49] as int) + (INV_MDS@[69] as int) * (MDS@[58] as int) + (INV_MDS@[70] as int) * (MDS@[67] as int) + (INV_MDS@[71] as int) * (MDS@[76] as int)) % 4611624995532046337 == 0) by (nonlinear_arith)
        requires
            INV_MDS@[63] == 1404066629609082371, INV_MDS@[64] == 1041748211388490239, INV_MDS@[65] == 4525166593910048957, INV_MDS@[66] == 977282067546530790, INV_MDS@[67] == 4499663276559992087, INV_MDS@[68] == 3124570284534635445, INV_MDS@[69] == 2912864986169238494, INV_MDS@[70] == 1203274577166891218, INV_MDS@[71] == 3369488350775322085, MDS@[4] == 364572438704838, MDS@[13] == 3578022083293731018, MDS@[22] == 2410004866179382341, MDS@[31] == 3005613438739961642, MDS@[40] == 3574339685331375704, MDS@[49] == 2805410846266053252, MDS@[58] == 1382789646784900202, MDS@[67] == 4269347266999601819, MDS@[76] == 2254354572900271594,
    ;
    assert(product_entry(INV_MDS@, MDS@, 9, 7, 5) == (INV_MDS@[63] as int) * (MDS@[5] as int) + (INV_MDS@[64] as int) * (MDS@[14] as int) + (INV_MDS@[65] as int) * (MDS@[23] as int) + (INV_MDS@[66] as int) * (MDS@[32] as int) + (INV_MDS@[67] as int) * (MDS@[41] as int) + (INV_MDS@[68] as int) * (MDS@[50] as int) + (INV_MDS@[69] as int) * (MDS@[59] as int) + (INV_MDS@[70] as int) * (MDS@[68] as int) + (INV_MDS@[71] as int) * (MDS@[77] as int));
    assert(((INV_MDS@[63] as int) * (MDS@[5] as int) + (INV_MDS@[64] as int) * (MDS@[14] as int) + (INV_MDS@[65] as int) * (MDS@[23] as int) + (INV_MDS@[66] as int) * (MDS@[32] as int) + (INV_MDS@[67] as int) * (MDS@[41] as int) + (INV_MDS@[68] as int) * (MDS@[50] as int) + (INV_MDS@[69] as int) * (MDS@[59] as int) + (INV_MDS@[70] as int) * (MDS@[68] as int) + (INV_MDS@[71] as int) * (MDS@[77] as int)) % 4611624995532046337 == 0) by (nonlinear_arith)
        requires
            INV_MDS@[63] == 1404066629609082371, INV_MDS@[64] == 1041748211388490239, INV_MDS@[65] == 4525166593910048957, INV_MDS@[66] == 977282067546530790, INV_MDS@[67] == 4499663276559992087, INV_MDS@[68] == 3124570284534635445, INV_MDS@[69] == 2912864986169238494, INV_MDS@[70] == 1203274577166891218, INV_MDS@[71] == 3369488350775322085, MDS@[5] == 4611620494637741339, MDS@[14] == 4567696267115265857, MDS@[23] == 4074543151731888787, MDS@[32] == 1137553896735229930, MDS@[41] == 3222440231476431090, MDS@[50] == 2410684455530809505, MDS@[59] == 2739816669015464653, MDS@[68] == 1020076390998853272, MDS@[77] == 3743460493495557051,
    ;
    assert(product_entry(INV_MDS@, MDS@, 9, 7, 6) == (INV_MDS@[63] as int) * (MDS@[6] as int) + (INV_MDS@[64] as int) * (MDS@[15] as int) + (INV_MDS@[65] as int) * (MDS@[24] as int) + (INV_MDS@[66] as int) * (MDS@[33] as int) + (INV_MDS@[67] as int) * (MDS@[42] as int) + (INV_MDS@[68] as int) * (MDS@[51] as int) + (INV_MDS@[69] as int) * (MDS@[60] as int) + (INV_MDS@[70] as int) * (MDS@[69] as int) + (INV_MDS@[71] as int) * (MDS@[78] as int));
    assert(((INV_MDS@[63] as int) * (MDS@[6] as int) + (INV_MDS@[64] as int) * (MDS@[15] as int) + (INV_MDS@[65] as int) * (MDS@[24] as int) + (INV_MDS@[66] as int) * (MDS@[33] as int) + (INV_MDS@[67] as int) * (MDS@[42] as int) + (INV_MDS@[68] as int) * (MDS@[51] as int) + (INV_MDS@[69] as int) * (MDS@[60] as int) + (INV_MDS@[70] as int) * (MDS@[69] as int) + (INV_MDS@[71] as int) * (MDS@[78] as int)) % 4611624995532046337 == 0) by (nonlinear_arith)
        requires
            INV_MDS@[63] == 1404066629609082371, INV_MDS@[64] == 1041748211388490239, INV_MDS@[65] == 4525166593910048957, INV_MDS@[66] == 977282067546530790, INV_MDS@[67] == 4499663276559992087, INV_MDS@[68] == 3124570284534635445, INV_MDS@[69] == 2912864986169238494, INV_MDS@[70] == 1203274577166891218, INV_MDS@[71] == 3369488350775322085, MDS@[6] == 18318658140, MDS@[15] == 175773020450742, MDS@[24] == 1286673036395336460, MDS@[33] == 3419041528315999985, MDS@[42] == 14265327237660372, MDS@[51] == 4077427075299802133, MDS@[60] == 3129816858893153678, MDS@[69] == 1754026023882377187, MDS@[78] == 2371731759139912191,
    ;
    assert(product_entry(INV_MDS@, MDS@, 9, 7, 7) == (INV_MDS@[63] as int) * (MDS@[7] as int) + (INV_MDS@[64] as int) * (MDS@[16] as int) + (INV_MDS@[65] as int) * (MDS@[25] as int) + (INV_MDS@[66] as int) * (MDS@[34] as int) + (INV_MDS@[67] as int) * (MDS@[43] as int) + (INV_MDS@[68] as int) * (MDS@[52] as int) + (INV_MDS@[69] as int) * (MDS@[61] as int) + (INV_MDS@[70] as int) * (MDS@[70] as int) + (INV_MDS@[71] as int) * (MDS@[79] as int));
    assert(((INV_MDS@[63] as int) * (MDS@[7] as int) + (INV_MDS@[64] as int) * (MDS@[16] as int) + (INV_MDS@[65] as int) * (MDS@[25] as int) + (INV_MDS@[66] as int) * (MDS@[34] as int) + (INV_MDS@[67] as int) * (MDS@[43] as int) + (INV_MDS@[68] as int) * (MDS@[52] as int) + (INV_MDS@[69] as int) * (MDS@[61] as int) + (INV_MDS@[70] as int) * (MDS@[70] as int) + (INV_MDS@[71] as int) * (MDS@[79] as int)) % 4611624995532046337 == 1) by (nonlinear_arith)
        requires
            INV_MDS@[63] == 1404066629609082371, INV_MDS@[64] == 1041748211388490239, INV_MDS@[65] == 4525166593910048957, INV_MDS@[66] == 977282067546530790, INV_MDS@[67] == 4499663276559992087, INV_MDS@[68] == 3124570284534635445, INV_MDS@[69] == 2912864986169238494, INV_MDS@[70] == 1203274577166891218, INV_MDS@[71] == 3369488350775322085, MDS@[7] == 4611624995507837477, MDS@[16] == 4611624775611313217, MDS@[25] == 4610042323605607019, MDS@[34] == 3140721539845838211, MDS@[43] == 2212886883903365751, MDS@[52] == 3417121306051169026, MDS@[61] == 679991697250255911, MDS@[70] == 3149871781959943552, MDS@[79] == 4228931313260232939,
    ;
    assert(product_entry(INV_MDS@, MDS@, 9, 7, 8) == (INV_MDS@[63] as int) * (MDS@[8] as int) + (INV_MDS@[64] as int) * (MDS@[17] as int) + (INV_MDS@[65] as int) * (MDS@[26] as int) + (INV_MDS@[66] as int) * (MDS@[35] as int) + (INV_MDS@[67] as int) * (MDS@[44] as int) + (INV_MDS@[68] as int) * (MDS@[53] as int) + (INV_MDS@[69] as int) * (MDS@[62] as int) + (INV_MDS@[70] as int) * (MDS@[71] as int) + (INV_MDS@[71] as int) * (MDS@[80] as int));
    assert(((INV_MDS@[63] as int) * (MDS@[8] as int) + (INV_MDS@[64] as int) * (MDS@[17] as int) + (INV_MDS@[65] as int) * (MDS@[26] as int) + (INV_MDS@[66] as int) * (MDS@[35] as int) + (INV_MDS@[67] as int) * (MDS@[44] as int) + (INV_MDS@[68] as int) * (MDS@[53] as int) + (INV_MDS@[69] as int) * (MDS@[62] as int) + (INV_MDS@[70] as int) * (MDS@[71] as int) + (INV_MDS@[71] as int) * (MDS@[80] as int)) % 4611624995532046337 == 0) by (nonlinear_arith)
        requires
            INV_MDS@[63] == 1404066629609082371, INV_MDS@[64] == 1041748211388490239, INV_MDS@[65] == 4525166593910048957, INV_MDS@[66] == 977282067546530790, INV_MDS@[67] == 4499663276559992087, INV_MDS@[68] == 3124570284534635445, INV_MDS@[69] == 2912864986169238494, INV_MDS@[70] == 1203274577166891218, INV_MDS@[71] == 3369488350775322085, MDS@[8] == 9841, MDS@[17] == 72636421, MDS@[26] == 494894285941, MDS@[35] == 3287582741506063, MDS@[44] == 3212448330282679835, MDS@[53] == 3227560823577981851, MDS@[62] == 970216912235395461, MDS@[71] == 2520884254441070022, MDS@[80] == 629343774120736994,
    ;
}

proof fn lemma_product_backward_row_8()
    ensures
        identity_row(Elem::modulus(), INV_MDS@, MDS@, 9, 8, 9),
{
    reveal_with_fuel(sum, 10);
    reveal_with_fuel(identity_row, 10);
    assert(product_entry(INV_MDS@, MDS@, 9, 8, 0) == (INV_MDS@[72] as int) * (MDS@[0] as int) + (INV_MDS@[73] as int) * (MDS@[9] as int) + (INV_MDS@[74] as int) * (MDS@[18] as int) + (INV_MDS@[75] as int) * (MDS@[27] as int) + (INV_MDS@[76] as int) * (MDS@[36] as int) + (INV_MDS@[77] as int) * (MDS@[45] as int) + (INV_MDS@[78] as int) * (MDS@[54] as int) + (INV_MDS@[79] as int) * (MDS@[63] as int) + (INV_MDS@[80] as int) * (MDS@[72] as int));
    assert(((INV_MDS@[72] as int) * (MDS@[0] as int) + (INV_MDS@[73] as int) * (MDS@[9] as int) + (INV_MDS@[74] as int) * (MDS@[18] as int) + (INV_MDS@[75] as int) * (MDS@[27] as int) + (INV_MDS@[76] as int) * (MDS@[36] as int) + (INV_MDS@[77] as int) * (MDS@[45] as int) + (INV_MDS@[78] as int) * (MDS@[54] as int) + (INV_MDS@[79] as int) * (MDS@[63] as int) + (INV_MDS@[80] as int) * (MDS@[72] as int)) % 4611624995532046337 == 0) by (nonlinear_arith)
        requires
            INV_MDS@[72] == 1729798676117111118, INV_MDS@[73] == 977196139524086241, INV_MDS@[74] == 4046373689597190438, INV_MDS@[75] == 2740698142978392711, INV_MDS@[76] == 478566997738395362, INV_MDS@[77] == 1317536305202134563, INV_MDS@[78] == 3484754205530568350, INV_MDS@[79] == 917159143741939893, INV_MDS@[80] == 2754416681698366673, MDS@[0] == 150094635296999121, MDS@[9] == 1361307387513521921, MDS@[18] == 3690586968508376915, MDS@[27] == 1460884875119705544, MDS@[36] == 1799234820778435744, MDS@[45] == 418351083517431213, MDS@[54] == 3691476875300647805, MDS@[63] == 2928319956530473610, MDS@[72] == 3605823366462788878,
    ;
    assert(product_entry(INV_MDS@, MDS@, 9, 8, 1) == (INV_MDS@[72] as int) * (MDS@[1] as int) + (INV_MDS@[73] as int) * (MDS@[10] as int) + (INV_MDS@[74] as int) * (MDS@[19] as int) + (INV_MDS@[75] as int) * (MDS@[28] as int) + (INV_MDS@[76] as int) * (MDS@[37] as int) + (INV_MDS@[77] as int) * (MDS@[46] as int) + (INV_MDS@[78] as int) * (MDS@[55] as int) + (INV_MDS@[79] as int) * (MDS@[64] as int) + (INV_MDS@[80] as int) * (MDS@[73] as int));
    assert(((INV_MDS@[72] as int) * (MDS@[1] as int) + (INV_MDS@[73] as int) * (MDS@[10] as int) + (INV_MDS@[74] as int) * (MDS@[19] as int) + (INV_MDS@[75] as int) * (MDS@[28] as int) + (INV_MDS@[76] as int) * (MDS@[37] as int) + (INV_MDS@[77] as int) * (MDS@[46] as int) + (INV_MDS@[78] as int) * (MDS@[55] as int) + (INV_MDS@[79] as int) * (MDS@[64] as int) + (INV_MDS@[80] as int) * (MDS@[73] as int)) % 4611624995532046337 == 0) by (nonlinear_arith)
        requires
            INV_MDS@[72] == 1729798676117111118, INV_MDS@[73] == 977196139524086241, INV_MDS@[74] == 4046373689597190438, INV_MDS@[75] == 2740698142978392711, INV_MDS@[76] == 478566997738395362, INV_MDS@[77] == 1317536305202134563, INV_MDS@[78] == 3484754205530568350, INV_MDS@[79] == 917159143741939893, INV_MDS@[80] == 2754416681698366673, MDS@[1] == 4386494480982775136, MDS@[10] == 2832323806833398177, MDS@[19] == 1188716678600029516, MDS@[28] == 3386615783772897896, MDS@[37] == 2072052720368877933, MDS@[46] == 1604014025070032746, MDS@[55] == 1874414663873269341, MDS@[64] == 2247820445494298710, MDS@[73] == 1932568390090888418,
    ;
    assert(product_entry(INV_MDS@, MDS@, 9, 8, 2) == (INV_MDS@[72] as int) * (MDS@[2] as int) + (INV_MDS@[73] as int) * (MDS@[11] as int) + (INV_MDS@[74] as int) * (MDS@[20] as int) + (INV_MDS@[75] as int) * (MDS@[29] as int) + (INV_MDS@[76] as int) * (MDS@[38] as int) + (INV_MDS@[77] as int) * (MDS@[47] as int) + (INV_MDS@[78] as int) * (MDS@[56] as int) + (INV_MDS@[79] as int) * (MDS@[65] as int) + (INV_MDS@[80] as int) * (MDS@[74] as int));
    assert(((INV_MDS@[72] as int) * (MDS@[2] as int) + (INV_MDS@[73] as int) * (MDS@[11] as int) + (INV_MDS@[74] as int) * (MDS@[20] as int) + (INV_MDS@[75] as int) * (MDS@[29] as int) + (INV_MDS@[76] as int) * (MDS@[38] as int) + (INV_MDS@[77] as int) * (MDS@[47] as int) + (INV_MDS@[78] as int) * (MDS@[56] as int) + (INV_MDS@[79] as int) * (MDS@[65] as int) + (INV_MDS@[80] as int) * (MDS@[74] as int)) % 4611624995532046337 == 0) by (nonlinear_arith)
        requires
            INV_MDS@[72] == 1729798676117111118, INV_MDS@[73] == 977196139524086241, INV_MDS@[74] == 4046373689597190438, INV_MDS@[75] == 2740698142978392711, INV_MDS@[76] == 478566997738395362, INV_MDS@[77] == 1317536305202134563, INV_MDS@[78] == 3484754205530568350, INV_MDS@[79] == 917159143741939893, INV_MDS@[80] == 2754416681698366673, MDS@[2] == 84411075413992860, MDS@[11] == 371763438786123399, MDS@[20] == 4404722642276688942, MDS@[29] == 201971421999830434, MDS@[38] == 1556994839688241047, MDS@[47] == 4416269077327681940, MDS@[56] == 1418653137253019787, MDS@[65] == 4005627978492551095, MDS@[74] == 210979528524628337,
    ;
    assert(product_entry(INV_MDS@, MDS@, 9, 8, 3) == (INV_MDS@[72] as int) * (MDS@[3] as int) + (INV_MDS@[73] as int) * (MDS@[12] as int) + (INV_MDS@[74] as int) * (MDS@[21] as int) + (INV_MDS@[75] as int) * (MDS@[30] as int) + (INV_MDS@[76] as int) * (MDS@[39] as int) + (INV_MDS@[77] as int) * (MDS@[48] as int) + (INV_MDS@[78] as int) * (MDS@[57] as int) + (INV_MDS@[79] as int) * (MDS@[66] as int) + (INV_MDS@[80] as int) * (MDS@[75] as int));
    assert(((INV_MDS@[72] as int) * (MDS@[3] as int) + (INV_MDS@[73] as int) * (MDS@[12] as int) + (INV_MDS@[74] as int) * (MDS@[21] as int) + (INV_MDS@[75] as int) * (MDS@[30] as int) + (INV_MDS@[76] as int) * (MDS@[39] as int) + (INV_MDS@[77] as int) * (MDS@[48] as int) + (INV_MDS@[78] as int) * (MDS@[57] as int) + (INV_MDS@[79] as int) * (MDS@[66] as int) + (INV_MDS@[80] as int) * (MDS@[75] as int)) % 4611624995532046337 == 0) by (nonlinear_arith)
        requires
            INV_MDS@[72] == 1729798676117111118, INV_MDS@[73] == 977196139524086241, INV_MDS@[74] == 4046373689597190438, INV_MDS@[75] == 2740698142978392711, INV_MDS@[76] == 478566997738395362, INV_MDS@[77] == 1317536305202134563, INV_MDS@[78] == 3484754205530568350, INV_MDS@[79] == 917159143741939893, INV_MDS@[80] == 2754416681698366673, MDS@[3] == 4601889709531466597, MDS@[12] == 1123586449881744597, MDS@[21] == 1392834815468635765, MDS@[30] == 2690809914857215644, MDS@[39] == 781837143061117873, MDS@[48] == 681286285019270020, MDS@[57] == 2559323521522078511, MDS@[66] == 1162150878861062419, MDS@[75] == 4080931779665215284,
    ;
    assert(product_entry(INV_MDS@, MDS@, 9, 8, 4) == (INV_MDS@[72] as int) * (MDS@[4] as int) + (INV_MDS@[73] as int) * (MDS@[13] as int) + (INV_MDS@[74] as int) * (MDS@[22] as int) + (INV_MDS@[75] as int) * (MDS@[31] as int) + (INV_MDS@[76] as int) * (MDS@[40] as int) + (INV_MDS@[77] as int) * (MDS@[49] as int) + (INV_MDS@[78] as int) * (MDS@[58] as int) + (INV_MDS@[79] as int) * (MDS@[67] as int) + (INV_MDS@[80] as int) * (MDS@[76] as int));
    assert(((INV_MDS@[72] as int) * (MDS@[4] as int) + (INV_MDS@[73] as int) * (MDS@[13] as int) + (INV_MDS@[74] as int) * (MDS@[22] as int) + (INV_MDS@[75] as int) * (MDS@[31] as int) + (INV_MDS@[76] as int) * (MDS@[40] as int) + (INV_MDS@[77] as int) * (MDS@[49] as int) + (INV_MDS@[78] as int) * (MDS@[58] as int) + (INV_MDS@[79] as int) * (MDS@[67] as int) + (INV_MDS@[80] as int) * (MDS@[76] as int)) % 4611624995532046337 == 0) by (nonlinear_arith)
        requires
            INV_MDS@[72] == 1729798676117111118, INV_MDS@[73] == 977196139524086241, INV_MDS@[74] == 4046373689597190438, INV_MDS@[75] == 2740698142978392711, INV_MDS@[76] == 478566997738395362, INV_MDS@[77] == 1317536305202134563, INV_MDS@[78] == 3484754205530568350, INV_MDS@[79] == 917159143741939893, INV_MDS@[80] == 2754416681698366673, MDS@[4] == 364572438704838, MDS@[13] == 3578022083293731018, MDS@[22] == 2410004866179382341, MDS@[31] == 3005613438739961642, MDS@[40] == 3574339685331375704, MDS@[49] == 2805410846266053252, MDS@[58] == 1382789646784900202, MDS@[67] == 4269347266999601819, MDS@[76] == 2254354572900271594,
    ;
    assert(product_entry(INV_MDS@, MDS@, 9, 8, 5) == (INV_MDS@[72] as int) * (MDS@[5] as int) + (INV_MDS@[73] as int) * (MDS@[14] as int) + (INV_MDS@[74] as int) * (MDS@[23] as int) + (INV_MDS@[75] as int) * (MDS@[32] as int) + (INV_MDS@[76] as int) * (MDS@[41] as int) + (INV_MDS@[77] as int) * (MDS@[50] as int) + (INV_MDS@[78] as int) * (MDS@[59] as int) + (INV_MDS@[79] as int) * (MDS@[68] as int) + (INV_MDS@[80] as int) * (MDS@[77] as int));
    assert(((INV_MDS@[72] as int) * (MDS@[5] as int) + (INV_MDS@[73] as int) * (MDS@[14] as int) + (INV_MDS@[74] as int) * (MDS@[23] as int) + (INV_MDS@[75] as int) * (MDS@[32] as int) + (INV_MDS@[76] as int) * (MDS@[41] as int) + (INV_MDS@[77] as int) * (MDS@[50] as int) + (INV_MDS@[78] as int) * (MDS@[59] as int) + (INV_MDS@[79] as int) * (MDS@[68] as int) + (INV_MDS@[80] as int) * (MDS@[77] as int)) % 4611624995532046337 == 0) by (nonlinear_arith)
        requires
            INV_MDS@[72] == 1729798676117111118, INV_MDS@[73] == 977196139524086241, INV_MDS@[74] == 4046373689597190438, INV_MDS@[75] == 2740698142978392711, INV_MDS@[76] == 478566997738395362, INV_MDS@[77] == 1317536305202134563, INV_MDS@[78] == 3484754205530568350, INV_MDS@[79] == 917159143741939893, INV_MDS@[80] == 2754416681698366673, MDS@[5] == 4611620494637741339, MDS@[14] == 4567696267115265857, MDS@[23] == 4074543151731888787, MDS@[32] == 1137553896735229930, MDS@[41] == 3222440231476431090, MDS@[50] == 2410684455530809505, MDS@[59] == 2739816669015464653, MDS@[68] == 1020076390998853272, MDS@[77] == 3743460493495557051,
    ;
    assert(product_entry(INV_MDS@, MDS@, 9, 8, 6) == (INV_MDS@[72] as int) * (MDS@[6] as int) + (INV_MDS@[73] as int) * (MDS@[15] as int) + (INV_MDS@[74] as int) * (MDS@[24] as int) + (INV_MDS@[75] as int) * (MDS@[33] as int) + (INV_MDS@[76] as int) * (MDS@[42] as int) + (INV_MDS@[77] as int) * (MDS@[51] as int) + (INV_MDS@[78] as int) * (MDS@[60] as int) + (INV_MDS@[79] as int) * (MDS@[69] as int) + (INV_MDS@[80] as int) * (MDS@[78] as int));
    assert(((INV_MDS@[72] as int) * (MDS@[6] as int) + (INV_MDS@[73] as int) * (MDS@[15] as int) + (INV_MDS@[74] as int) * (MDS@[24] as int) + (INV_MDS@[75] as int) * (MDS@[33] as int) + (INV_MDS@[76] as int) * (MDS@[42] as int) + (INV_MDS@[77] as int) * (MDS@[51] as int) + (INV_MDS@[78] as int) * (MDS@[60] as int) + (INV_MDS@[79] as int) * (MDS@[69] as int) + (INV_MDS@[80] as int) * (MDS@[78] as int)) % 4611624995532046337 == 0) by (nonlinear_arith)
        requires
            INV_MDS@[72] == 1729798676117111118, INV_MDS@[73] == 977196139524086241, INV_MDS@[74] == 4046373689597190438, INV_MDS@[75] == 2740698142978392711, INV_MDS@[76] == 478566997738395362, INV_MDS@[77] == 1317536305202134563, INV_MDS@[78] == 3484754205530568350, INV_MDS@[79] == 917159143741939893, INV_MDS@[80] == 2754416681698366673, MDS@[6] == 18318658140, MDS@[15] == 175773020450742, MDS@[24] == 1286673036395336460, MDS@[33] == 3419041528315999985, MDS@[42] == 14265327237660372, MDS@[51] == 4077427075299802133, MDS@[60] == 3129816858893153678, MDS@[69] == 1754026023882377187, MDS@[78] == 2371731759139912191,
    ;
    assert(product_entry(INV_MDS@, MDS@, 9, 8, 7) == (INV_MDS@[72] as int) * (MDS@[7] as int) + (INV_MDS@[73] as int) * (MDS@[16] as int) + (INV_MDS@[74] as int) * (MDS@[25] as int) + (INV_MDS@[75] as int) * (MDS@[34] as int) + (INV_MDS@[76] as int) * (MDS@[43] as int) + (INV_MDS@[77] as int) * (MDS@[52] as int) + (INV_MDS@[78] as int) * (MDS@[61] as int) + (INV_MDS@[79] as int) * (MDS@[70] as int) + (INV_MDS@[80] as int) * (MDS@[79] as int));
    assert(((INV_MDS@[72] as int) * (MDS@[7] as int) + (INV_MDS@[73] as int) * (MDS@[16] as int) + (INV_MDS@[74] as int) * (MDS@[25] as int) + (INV_MDS@[75] as int) * (MDS@[34] as int) + (INV_MDS@[76] as int) * (MDS@[43] as int) + (INV_MDS@[77] as int) * (MDS@[52] as int) + (INV_MDS@[78] as int) * (MDS@[61] as int) + (INV_MDS@[79] as int) * (MDS@[70] as int) + (INV_MDS@[80] as int) * (MDS@[79] as int)) % 4611624995532046337 == 0) by (nonlinear_arith)
        requires
            INV_MDS@[72] == 1729798676117111118, INV_MDS@[73] == 977196139524086241, INV_MDS@[74] == 4046373689597190438, INV_MDS@[75] == 2740698142978392711, INV_MDS@[76] == 478566997738395362, INV_MDS@[77] == 1317536305202134563, INV_MDS@[78] == 3484754205530568350, INV_MDS@[79] == 917159143741939893, INV_MDS@[80] == 2754416681698366673, MDS@[7] == 4611624995507837477, MDS@[16] == 4611624775611313217, MDS@[25] == 4610042323605607019, MDS@[34] == 3140721539845838211, MDS@[43] == 2212886883903365751, MDS@[52] == 3417121306051169026, MDS@[61] == 679991697250255911, MDS@[70] == 3149871781959943552, MDS@[79] == 4228931313260232939,
    ;
    assert(product_entry(INV_MDS@, MDS@, 9, 8, 8) == (INV_MDS@[72] as int) * (MDS@[8] as int) + (INV_MDS@[73] as int) * (MDS@[17] as int) + (INV_MDS@[74] as int) * (MDS@[26] as int) + (INV_MDS@[75] as int) * (MDS@[35] as int) + (INV_MDS@[76] as int) * (MDS@[44] as int) + (INV_MDS@[77] as int) * (MDS@[53] as int) + (INV_MDS@[78] as int) * (MDS@[62] as int) + (INV_MDS@[79] as int) * (MDS@[71] as int) + (INV_MDS@[80] as int) * (MDS@[80] as int));
    assert(((INV_MDS@[72] as int) * (MDS@[8] as int) + (INV_MDS@[73] as int) * (MDS@[17] as int) + (INV_MDS@[74] as int) * (MDS@[26] as int) + (INV_MDS@[75] as int) * (MDS@[35] as int) + (INV_MDS@[76] as int) * (MDS@[44] as int) + (INV_MDS@[77] as int) * (MDS@[53] as int) + (INV_MDS@[78] as int) * (MDS@[62] as int) + (INV_MDS@[79] as int) * (MDS@[71] as int) + (INV_MDS@[80] as int) * (MDS@[80] as int)) % 4611624995532046337 == 1) by (nonlinear_arith)
        requires
            INV_MDS@[72] == 1729798676117111118, INV_MDS@[73] == 977196139524086241, INV_MDS@[74] == 4046373689597190438, INV_MDS@[75] == 2740698142978392711, INV_MDS@[76] == 478566997738395362, INV_MDS@[77] == 1317536305202134563, INV_MDS@[78] == 3484754205530568350, INV_MDS@[79] == 917159143741939893, INV_MDS@[80] == 2754416681698366673, MDS@[8] == 9841, MDS@[17] == 72636421, MDS@[26] == 494894285941, MDS@[35] == 3287582741506063, MDS@[44] == 3212448330282679835, MDS@[53] == 3227560823577981851, MDS@[62] == 970216912235395461, MDS@[71] == 2520884254441070022, MDS@[80] == 629343774120736994,
    ;
}

proof fn lemma_product_backward()
    ensures
        product_is_identity(Elem::modulus(), INV_MDS@, MDS@, 9),
{
    lemma_product_backward_row_0();
    lemma_product_backward_row_1();
    lemma_product_backward_row_2();
    lemma_product_backward_row_3();
    lemma_product_backward_row_4();
    lemma_product_backward_row_5();
    lemma_product_backward_row_6();
    lemma_product_backward_row_7();
    lemma_product_backward_row_8();
    reveal_with_fuel(identity_rows, 10);
    assert(identity_rows(Elem::modulus(), INV_MDS@, MDS@, 9, 9));
    lemma_identity_rows(Elem::modulus(), INV_MDS@, MDS@, 9);
}

/// The digest of `input_sequence`, whose length must be a multiple of `RATE`.
pub fn hash(input_sequence: &Vec<Elem>) -> (r: [Elem; RATE])
    requires
        input_sequence@.len() % (RATE as nat) == 0,
    ensures
        vals(r@) == hash_spec(spec_params(), Elem::modulus(), vals(input_sequence@)),
{
    rescue_prime_hash(input_sequence)
}

/// The sponge: starting from the zero state, each chunk of `RATE` elements is added onto the
/// first lanes and the state permuted; the digest is the first `RATE` lanes.
pub fn rescue_prime_hash(input_sequence: &Vec<Elem>) -> (r: [Elem; RATE])
    requires
        input_sequence@.len() % (RATE as nat) == 0,
    ensures
        vals(r@) == hash_spec(spec_params(), Elem::modulus(), vals(input_sequence@)),
{
    let digest = params().hash(input_sequence);
    to_array(&digest)
}

/// The digest of `input_sequence` followed by a one and the fewest zeros that reach a
/// multiple of `RATE`.
pub fn rescue_prime_wrapper(input_sequence: &Vec<Elem>) -> (r: [Elem; RATE])
    requires
        input_sequence@.len() + STATE_WIDTH <= usize::MAX,
    ensures
        vals(r@) == hash_spec(
            spec_params(),
            Elem::modulus(),
            pad_spec(vals(input_sequence@), RATE as nat),
        ),
{
    let digest = params().hash_padded(input_sequence);
    to_array(&digest)
}

/// Applies the `NUM_ROUNDS` rounds to `state`.
pub fn rescue_xlix_permutation(state: &mut [Elem; STATE_WIDTH])
    ensures
        vals(final(state)@) == permutation_spec(spec_params(), Elem::modulus(), vals(old(state)@)),
{
    params().permutation(state);
}

/// Applies round `round % NUM_ROUNDS` to `state`.
pub fn apply_round(state: &mut [Elem], round: usize)
    requires
        old(state)@.len() == STATE_WIDTH,
    ensures
        final(state)@.len() == STATE_WIDTH,
        vals(final(state)@) == round_spec(
            spec_params(),
            Elem::modulus(),
            vals(old(state)@),
            round as nat,
        ),
{
    params().apply_round(state, round);
}

/// Adds to `result_slice` the residuals of one round between `current_slice` and
/// `next_slice`, scaled by `flag`; with `flag` one they all vanish exactly when the two
/// halves of the round agree.
pub fn enforce_round<E: PrimeField>(
    result_slice: &mut [E],
    current_slice: &[E],
    next_slice: &[E],
    round_constants: &[E],
    flag: E,
)
    requires
        current_slice@.len() == STATE_WIDTH,
        next_slice@.len() == STATE_WIDTH,
        round_constants@.len() >= 2 * STATE_WIDTH,
        old(result_slice)@.len() >= STATE_WIDTH,
    ensures
        final(result_slice)@.len() == old(result_slice)@.len(),
        vals(final(result_slice)@) == round_residuals(
            spec_params(),
            E::modulus(),
            vals(old(result_slice)@),
            vals(current_slice@),
            vals(next_slice@),
            vals(round_constants@),
            flag.val(),
        ),
{
    params().enforce_round(result_slice, current_slice, next_slice, round_constants, flag);
}

/// `enforce_round` with `pixels` first added onto the first `RATE` lanes of `current_slice`.
pub fn enforce_first_round<E: PrimeField>(
    result_slice: &mut [E],
    pixels: &[E],
    current_slice: &[E],
    next_slice: &[E],
    round_constants: &[E],
    flag: E,
)
    requires
        pixels@.len() >= RATE,
        current_slice@.len() == STATE_WIDTH,
        next_slice@.len() == STATE_WIDTH,
        round_constants@.len() >= 2 * STATE_WIDTH,
        old(result_slice)@.len() >= STATE_WIDTH,
    ensures
        final(result_slice)@.len() == old(result_slice)@.len(),
        vals(final(result_slice)@) == round_residuals(
            spec_params(),
            E::modulus(),
            vals(old(result_slice)@),
            absorb_lanes_spec(E::modulus(), vals(current_slice@), vals(pixels@).take(RATE as int)),
            vals(next_slice@),
            vals(round_constants@),
            flag.val(),
        ),
{
    params().enforce_first_round(result_slice, pixels, current_slice, next_slice, round_constants, flag);
}

/// The round constants in `2 × STATE_WIDTH` columns of length `cycle_length`, the constants of
/// round `i` at position `(i + shift) % cycle_length` and zeros elsewhere.
pub fn get_round_constants_periodic(cycle_length: usize, shift: usize) -> (r: Vec<Vec<Elem>>)
    requires
        cycle_length > 0,
        shift + NUM_ROUNDS <= usize::MAX,
    ensures
        r@.len() == 2 * STATE_WIDTH,
        forall|j: int|
            0 <= j < 2 * STATE_WIDTH ==> vals(#[trigger] r@[j]@) == periodic_column(
                Elem::modulus(),
                ROUND_CONSTANTS@,
                (2 * STATE_WIDTH) as nat,
                j as nat,
                cycle_length as nat,
                shift as nat,
                NUM_ROUNDS as nat,
            ),
{
    params().round_constants_periodic(cycle_length, shift)
}

} // verus!

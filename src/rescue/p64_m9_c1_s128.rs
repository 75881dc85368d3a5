//! Rescue-Prime over the 64-bit prime field (modulus `MODULUS_64`): width 9, capacity 1, 8 rounds, S-box
//! exponent 7, security of at least 128 bits.

use vstd::prelude::*;
use crate::field::{Felt64, PrimeField, canonical_seq, vals};
use crate::layers::{
    absorb_lanes_spec, exp_undoes, fermat, lemma_exponents_invert, periodic_column, to_array,
    zeros, undoes,
};
use crate::matrix::{
    identity_row, identity_rows, lemma_identity_rows, lemma_product_identity_undoes, product_entry,
    product_is_identity, sum,
};
use crate::rescue::{
    RescueParams, hash_spec, lemma_first_round_constraints_vanish, lemma_round_constraints_vanish,
    pad_spec, permutation_spec, round_residuals, round_spec,
};

verus! {

pub type Elem = Felt64;

pub const NUM_ROUNDS: usize = 8;
pub const STATE_WIDTH: usize = 9;
pub const CAPACITY: usize = 1;
pub const RATE: usize = STATE_WIDTH - CAPACITY;

/// The exponent of the forward S-box.
pub const ALPHA: u128 = 7;

/// The exponent of the inverse S-box: the inverse of `ALPHA` modulo the prime minus one.
pub const INV_ALPHA: u128 = 10540996611094048183;

/// The mixing matrix, row-major.
pub const MDS: [u128; 81] = [
    15911754940807515092, 2711892286355972158, 17150989262161941497,
    1745852583430594377, 565355451240421748, 16587236605753788891,
    667156732699554300, 18446738415201823621, 6725601,
    4000831318486715337, 13866593699749449226, 12844960428353252001,
    582714116362056623, 3366018464571614479, 15938247878153142367,
    5208160849119430188, 17979409943366626563, 39579496050501,
    12880740554289902608, 10736257011154062521, 9684835675499922946,
    17726787349382971757, 3129880678747094218, 10717533211705047281,
    6323700978479141929, 13559837768921340497, 7474147118893437849,
    8444280502348543928, 18063596406833757604, 1023367824000313667,
    17098225262737701178, 13698883994234477975, 11759502291953144483,
    16538072702756198364, 13063382426484038143, 10991153005139330585,
    14334129791615145359, 2684393531687652704, 9102699125972580966,
    6899282244058680396, 7336899618183924238, 12811728231465824079,
    3414522606789347434, 11622131483008073027, 5581189644877109082,
    12274638267902752934, 10320521705305529889, 534382282294584005,
    9894417991995566363, 18390808178506636504, 8691994234740331347,
    6296450013617354001, 14783339201082448771, 11047168471627717792,
    8221443041727100385, 393559796193809889, 17551880528192194831,
    11029403667917004080, 9527404663882352754, 15125710629080112088,
    3464609272919550073, 1348518148838494851, 7124446528907718334,
    16372941063200117221, 14810743068666274131, 9540729115791359379,
    236400869707253861, 3328476643285920097, 1394376324654775198,
    3244018084586040045, 12848315908364988429, 12010975199401608924,
    12859139447927245406, 11343755749076409967, 12009542032810910684,
    10555036868816319109, 2382032143833076836, 1483676889877496082,
    16425558919997587467, 7912680464088162810, 17262297830645713245,
];

/// The inverse of `MDS`, row-major.
pub const INV_MDS: [u128; 81] = [
    12539207436065832329, 12077697399935358608, 11489157039865439957,
    4022295415787053861, 3826851271344202700, 2762205602142483652,
    4011688063434574022, 11145195700700186855, 11912678348383205301,
    4727195465870018641, 9920359389887667425, 5882185432840443093,
    17741064004776248473, 7911297895002287941, 10171341733175619366,
    2083657376480454673, 10776243903197042427, 4573631076428555246,
    736023694432405199, 13757068485645773643, 8441959758169971861,
    7555928964926312149, 12026351406134197362, 7821482727890945600,
    12585455291860344, 1822423469098651379, 3166408246653635427,
    8986700519619826502, 9279896563366898378, 13003781105377603755,
    13654842869503478429, 6040531618942127052, 10790028874759868378,
    13470778785726456026, 7979522825782598098, 9027637183994064988,
    4903771519896946287, 4880363692783577635, 14022866956744736042,
    1482704328144708807, 15556761641939977419, 4165101601570367338,
    5642321549502873499, 6994112155574369328, 16138972831500780930,
    9097855105810106273, 11304812409172332644, 5495002765127845140,
    17349450637489595112, 5711132269931307421, 12428043081259626558,
    1120990037650345611, 7030824490151679826, 4248865481065498700,
    3935402967907460435, 6216932751277754590, 9244633293430859140,
    2315497648650709885, 11837871652379070246, 4914401822520226103,
    4327473378007705992, 14868197986830246925, 16126564776654303969,
    14340817518001988765, 10854148653441472529, 17665873453485278662,
    9485609402492606939, 15595726145931404890, 16357593446793026710,
    15060277806204701300, 16200124235946144513, 13567037823605465940,
    7153203116068863772, 5026931394711878012, 7906190408160118526,
    11498192696621955873, 7824129118715884826, 361143884638050460,
    15105352412984880743, 7056196256360339342, 11855636989396365731,
];

/// `2 × STATE_WIDTH` constants per round.
pub const ROUND_CONSTANTS: [u128; 144] = [
    11634186502472574198, 6160739341619519953, 7323081760153609453,
    8963628711597965530, 4149892941148131853, 13392526775580837002,
    2902166722686047941, 13991326508314867409, 2488560454014152603,
    6589508082742749233, 18247813120147042662, 442740224846270413,
    3415151924891236790, 12310116918197892841, 741097377643492758,
    3158731613958111555, 306461993853536522, 7531121335350040140,
    13362828541400729095, 9746547419839901949, 17056922490939767838,
    6275088288299434625, 7253464592685389224, 3552311482074555071,
    8083799438757397172, 142272000890307341, 7791470101890884594,
    6242683846232322859, 13748086603176625504, 12484293929015308531,
    11682377363663629729, 190940869500880458, 7961520526967218160,
    3683055571769776652, 5885113286812764018, 8245362076693448234,
    13079775779943421440, 1620961428577843121, 778444694079784823,
    8367294517619394630, 16913583215255148593, 12027672443150261680,
    8772625586926615905, 2718347592145780756, 8335873057761546064,
    6227944134271018258, 9322670578358126770, 2168048942895109980,
    15979654620270583959, 9141602852296911340, 8817805750132634127,
    1968964494180478117, 17622397526528660742, 16503556592707099435,
    18273895031829889270, 1321087486765436820, 78415818672121230,
    14882430102630261210, 6717740389368810766, 7479247088245631537,
    3721110060940407688, 9821066463506441256, 10662804994061016896,
    317926704037002797, 13528559436893401630, 5270291099396640797,
    12525510962600419874, 12046075271534831525, 15939813417791268403,
    2770151940319237050, 14670520714632457748, 7277811732510184389,
    11272445397465126994, 13273744148558875758, 15473733302614861003,
    1282074552648985116, 3193633016975683389, 808011392535991319,
    7141445196898187372, 3099529342507611584, 14494529111209225649,
    3695655934617541015, 7161875658083699289, 14033176761059849714,
    2476015945196789679, 1886591589154523073, 18009875213995788887,
    9941219996580288856, 1707234801820779879, 10588896186592712331,
    15136457836148607367, 578858167205168541, 14003127434110554212,
    11384857834810805347, 8281278113059682180, 4289437737596482772,
    1887616044283307726, 7638372657279702042, 823583252690255073,
    5802242146970684498, 12685402610805034584, 5984639629755047919,
    3143150313580957224, 3808295989256224180, 9031456236375675106,
    16648113137820323784, 8478631596329143300, 3337421942438363467,
    18332541066180775839, 12887003281194749607, 8848749007283380124,
    5043933798289008119, 13183428172828960524, 501154734860702338,
    2587123205704457440, 11927154311983495633, 14399814432187306933,
    15455258618667509979, 39908091910793913, 3110538457242353741,
    14325316117082168709, 13134098071182217256, 9263004538761520364,
    9517009767905172353, 12676592586192779073, 8320405991577206743,
    1852118676601291827, 3424540211247367133, 16185557941545874892,
    6290116232463382221, 17157033980965369412, 7244137642311645728,
    17567374927212900180, 756080945628154301, 14703759431979323173,
    12063154632571008285, 4230140130386427821, 6674034109838897821,
    378453408288985050, 8579368219637036690, 12240816202420880976,
    7285297108732611743, 2563102255109144961, 76962020379598151,
];

/// This instance's constants.
pub open spec fn spec_params() -> RescueParams {
    RescueParams {
        width: STATE_WIDTH,
        capacity: CAPACITY,
        rounds: NUM_ROUNDS,
        alpha: ALPHA,
        inv_alpha: INV_ALPHA,
        mds: &MDS,
        inv_mds: &INV_MDS,
        round_constants: &ROUND_CONSTANTS,
    }
}

/// This instance's constants.
pub fn params() -> (r: RescueParams)
    ensures
        r == spec_params(),
        r.wf(),
{
    RescueParams {
        width: STATE_WIDTH,
        capacity: CAPACITY,
        rounds: NUM_ROUNDS,
        alpha: ALPHA,
        inv_alpha: INV_ALPHA,
        mds: &MDS,
        inv_mds: &INV_MDS,
        round_constants: &ROUND_CONSTANTS,
    }
}

/// The two S-box exponents undo each other, both ways, on every residue, wherever Fermat's
/// little theorem holds for the modulus.
pub proof fn lemma_sbox_exponents_invert()
    requires
        fermat(Elem::modulus()),
    ensures
        exp_undoes(Elem::modulus(), ALPHA as nat, INV_ALPHA as nat),
        exp_undoes(Elem::modulus(), INV_ALPHA as nat, ALPHA as nat),
{
    lemma_exponents_invert(Elem::modulus(), ALPHA as nat, INV_ALPHA as nat);
}

/// With flag one, the round constraints vanish on every state of residues and the state that
/// round `r` makes of it, and on the same with a chunk of input absorbed first, wherever
/// Fermat's little theorem holds for the modulus (it does, the modulus being prime).
pub proof fn lemma_constraints_vanish(cur: Seq<int>, chunk: Seq<int>, r: nat)
    requires
        cur.len() == STATE_WIDTH,
        chunk.len() == RATE,
        canonical_seq(cur, Elem::modulus()),
        fermat(Elem::modulus()),
    ensures
        round_residuals(
            spec_params(),
            Elem::modulus(),
            zeros(STATE_WIDTH as nat),
            cur,
            round_spec(spec_params(), Elem::modulus(), cur, r),
            spec_params().round_consts(Elem::modulus(), r % (NUM_ROUNDS as nat)),
            1,
        ) == zeros(STATE_WIDTH as nat),
        round_residuals(
            spec_params(),
            Elem::modulus(),
            zeros(STATE_WIDTH as nat),
            absorb_lanes_spec(Elem::modulus(), cur, chunk),
            round_spec(spec_params(), Elem::modulus(), absorb_lanes_spec(Elem::modulus(), cur, chunk), r),
            spec_params().round_consts(Elem::modulus(), r % (NUM_ROUNDS as nat)),
            1,
        ) == zeros(STATE_WIDTH as nat),
{
    lemma_matrices_invert();
    lemma_exponents_invert(Elem::modulus(), ALPHA as nat, INV_ALPHA as nat);
    lemma_round_constraints_vanish(spec_params(), Elem::modulus(), cur, r);
    lemma_first_round_constraints_vanish(spec_params(), Elem::modulus(), cur, chunk, r);
}

/// With flag one, the round constraints do not all vanish on a state of residues and any state
/// of residues other than the one that round `r` makes of it, wherever Fermat's little
/// theorem holds for the modulus.
pub proof fn lemma_wrong_next_detected(cur: Seq<int>, other: Seq<int>, r: nat)
    requires
        cur.len() == STATE_WIDTH,
        canonical_seq(cur, Elem::modulus()),
        other.len() == STATE_WIDTH,
        canonical_seq(other, Elem::modulus()),
        other != round_spec(spec_params(), Elem::modulus(), cur, r),
        fermat(Elem::modulus()),
    ensures
        round_residuals(
            spec_params(),
            Elem::modulus(),
            zeros(STATE_WIDTH as nat),
            cur,
            other,
            spec_params().round_consts(Elem::modulus(), r % (NUM_ROUNDS as nat)),
            1,
        ) != zeros(STATE_WIDTH as nat),
{
    lemma_matrices_invert();
    lemma_exponents_invert(Elem::modulus(), ALPHA as nat, INV_ALPHA as nat);
    crate::rescue::lemma_wrong_next_detected(spec_params(), Elem::modulus(), cur, other, r);
}

/// The mixing matrix and its inverse undo each other on every vector of residues.
pub proof fn lemma_matrices_invert()
    ensures
        undoes(Elem::modulus(), MDS@, INV_MDS@, STATE_WIDTH as nat),
        undoes(Elem::modulus(), INV_MDS@, MDS@, STATE_WIDTH as nat),
{
    lemma_product_forward();
    lemma_product_backward();
    lemma_product_identity_undoes(Elem::modulus(), MDS@, INV_MDS@, STATE_WIDTH as nat);
    lemma_product_identity_undoes(Elem::modulus(), INV_MDS@, MDS@, STATE_WIDTH as nat);
}

proof fn lemma_product_forward_row_0()
    ensures
        identity_row(Elem::modulus(), MDS@, INV_MDS@, 9, 0, 9),
{
    reveal_with_fuel(sum, 10);
    reveal_with_fuel(identity_row, 10);
    assert(product_entry(MDS@, INV_MDS@, 9, 0, 0) == (MDS@[0] as int) * (INV_MDS@[0] as int) + (MDS@[1] as int) * (INV_MDS@[9] as int) + (MDS@[2] as int) * (INV_MDS@[18] as int) + (MDS@[3] as int) * (INV_MDS@[27] as int) + (MDS@[4] as int) * (INV_MDS@[36] as int) + (MDS@[5] as int) * (INV_MDS@[45] as int) + (MDS@[6] as int) * (INV_MDS@[54] as int) + (MDS@[7] as int) * (INV_MDS@[63] as int) + (MDS@[8] as int) * (INV_MDS@[72] as int));
    assert(((MDS@[0] as int) * (INV_MDS@[0] as int) + (MDS@[1] as int) * (INV_MDS@[9] as int) + (MDS@[2] as int) * (INV_MDS@[18] as int) + (MDS@[3] as int) * (INV_MDS@[27] as int) + (MDS@[4] as int) * (INV_MDS@[36] as int) + (MDS@[5] as int) * (INV_MDS@[45] as int) + (MDS@[6] as int) * (INV_MDS@[54] as int) + (MDS@[7] as int) * (INV_MDS@[63] as int) + (MDS@[8] as int) * (INV_MDS@[72] as int)) % 18446744069414584321 == 1) by (nonlinear_arith)
        requires
            MDS@[0] == 15911754940807515092, MDS@[1] == 2711892286355972158, MDS@[2] == 17150989262161941497, MDS@[3] == 1745852583430594377, MDS@[4] == 565355451240421748, MDS@[5] == 16587236605753788891, MDS@[6] == 667156732699554300, MDS@[7] == 18446738415201823621, MDS@[8] == 6725601, INV_MDS@[0] == 12539207436065832329, INV_MDS@[9] == 4727195465870018641, INV_MDS@[18] == 736023694432405199, INV_MDS@[27] == 8986700519619826502, INV_MDS@[36] == 4903771519896946287, INV_MDS@[45] == 9097855105810106273, INV_MDS@[54] == 3935402967907460435, INV_MDS@[63] == 14340817518001988765, INV_MDS@[72] == 7153203116068863772,
    ;
    assert(product_entry(MDS@, INV_MDS@, 9, 0, 1) == (MDS@[0] as int) * (INV_MDS@[1] as int) + (MDS@[1] as int) * (INV_MDS@[10] as int) + (MDS@[2] as int) * (INV_MDS@[19] as int) + (MDS@[3] as int) * (INV_MDS@[28] as int) + (MDS@[4] as int) * (INV_MDS@[37] as int) + (MDS@[5] as int) * (INV_MDS@[46] as int) + (MDS@[6] as int) * (INV_MDS@[55] as int) + (MDS@[7] as int) * (INV_MDS@[64] as int) + (MDS@[8] as int) * (INV_MDS@[73] as int));
    assert(((MDS@[0] as int) * (INV_MDS@[1] as int) + (MDS@[1] as int) * (INV_MDS@[10] as int) + (MDS@[2] as int) * (INV_MDS@[19] as int) + (MDS@[3] as int) * (INV_MDS@[28] as int) + (MDS@[4] as int) * (INV_MDS@[37] as int) + (MDS@[5] as int) * (INV_MDS@[46] as int) + (MDS@[6] as int) * (INV_MDS@[55] as int) + (MDS@[7] as int) * (INV_MDS@[64] as int) + (MDS@[8] as int) * (INV_MDS@[73] as int)) % 18446744069414584321 == 0) by (nonlinear_arith)
        requires
            MDS@[0] == 15911754940807515092, MDS@[1] == 2711892286355972158, MDS@[2] == 17150989262161941497, MDS@[3] == 1745852583430594377, MDS@[4] == 565355451240421748, MDS@[5] == 16587236605753788891, MDS@[6] == 667156732699554300, MDS@[7] == 18446738415201823621, MDS@[8] == 6725601, INV_MDS@[1] == 12077697399935358608, INV_MDS@[10] == 9920359389887667425, INV_MDS@[19] == 13757068485645773643, INV_MDS@[28] == 9279896563366898378, INV_MDS@[37] == 4880363692783577635, INV_MDS@[46] == 11304812409172332644, INV_MDS@[55] == 6216932751277754590, INV_MDS@[64] == 10854148653441472529, INV_MDS@[73] == 5026931394711878012,
    ;
    assert(product_entry(MDS@, INV_MDS@, 9, 0, 2) == (MDS@[0] as int) * (INV_MDS@[2] as int) + (MDS@[1] as int) * (INV_MDS@[11] as int) + (MDS@[2] as int) * (INV_MDS@[20] as int) + (MDS@[3] as int) * (INV_MDS@[29] as int) + (MDS@[4] as int) * (INV_MDS@[38] as int) + (MDS@[5] as int) * (INV_MDS@[47] as int) + (MDS@[6] as int) * (INV_MDS@[56] as int) + (MDS@[7] as int) * (INV_MDS@[65] as int) + (MDS@[8] as int) * (INV_MDS@[74] as int));
    assert(((MDS@[0] as int) * (INV_MDS@[2] as int) + (MDS@[1] as int) * (INV_MDS@[11] as int) + (MDS@[2] as int) * (INV_MDS@[20] as int) + (MDS@[3] as int) * (INV_MDS@[29] as int) + (MDS@[4] as int) * (INV_MDS@[38] as int) + (MDS@[5] as int) * (INV_MDS@[47] as int) + (MDS@[6] as int) * (INV_MDS@[56] as int) + (MDS@[7] as int) * (INV_MDS@[65] as int) + (MDS@[8] as int) * (INV_MDS@[74] as int)) % 18446744069414584321 == 0) by (nonlinear_arith)
        requires
            MDS@[0] == 15911754940807515092, MDS@[1] == 2711892286355972158, MDS@[2] == 17150989262161941497, MDS@[3] == 1745852583430594377, MDS@[4] == 565355451240421748, MDS@[5] == 16587236605753788891, MDS@[6] == 667156732699554300, MDS@[7] == 18446738415201823621, MDS@[8] == 6725601, INV_MDS@[2] == 11489157039865439957, INV_MDS@[11] == 5882185432840443093, INV_MDS@[20] == 8441959758169971861, INV_MDS@[29] == 13003781105377603755, INV_MDS@[38] == 14022866956744736042, INV_MDS@[47] == 5495002765127845140, INV_MDS@[56] == 9244633293430859140, INV_MDS@[65] == 17665873453485278662, INV_MDS@[74] == 7906190408160118526,
    ;
    assert(product_entry(MDS@, INV_MDS@, 9, 0, 3) == (MDS@[0] as int) * (INV_MDS@[3] as int) + (MDS@[1] as int) * (INV_MDS@[12] as int) + (MDS@[2] as int) * (INV_MDS@[21] as int) + (MDS@[3] as int) * (INV_MDS@[30] as int) + (MDS@[4] as int) * (INV_MDS@[39] as int) + (MDS@[5] as int) * (INV_MDS@[48] as int) + (MDS@[6] as int) * (INV_MDS@[57] as int) + (MDS@[7] as int) * (INV_MDS@[66] as int) + (MDS@[8] as int) * (INV_MDS@[75] as int));
    assert(((MDS@[0] as int) * (INV_MDS@[3] as int) + (MDS@[1] as int) * (INV_MDS@[12] as int) + (MDS@[2] as int) * (INV_MDS@[21] as int) + (MDS@[3] as int) * (INV_MDS@[30] as int) + (MDS@[4] as int) * (INV_MDS@[39] as int) + (MDS@[5] as int) * (INV_MDS@[48] as int) + (MDS@[6] as int) * (INV_MDS@[57] as int) + (MDS@[7] as int) * (INV_MDS@[66] as int) + (MDS@[8] as int) * (INV_MDS@[75] as int)) % 18446744069414584321 == 0) by (nonlinear_arith)
        requires
            MDS@[0] == 15911754940807515092, MDS@[1] == 2711892286355972158, MDS@[2] == 17150989262161941497, MDS@[3] == 1745852583430594377, MDS@[4] == 565355451240421748, MDS@[5] == 16587236605753788891, MDS@[6] == 667156732699554300, MDS@[7] == 18446738415201823621, MDS@[8] == 6725601, INV_MDS@[3] == 4022295415787053861, INV_MDS@[12] == 17741064004776248473, INV_MDS@[21] == 7555928964926312149, INV_MDS@[30] == 13654842869503478429, INV_MDS@[39] == 1482704328144708807, INV_MDS@[48] == 17349450637489595112, INV_MDS@[57] == 2315497648650709885, INV_MDS@[66] == 9485609402492606939, INV_MDS@[75] == 11498192696621955873,
    ;
    assert(product_entry(MDS@, INV_MDS@, 9, 0, 4) == (MDS@[0] as int) * (INV_MDS@[4] as int) + (MDS@[1] as int) * (INV_MDS@[13] as int) + (MDS@[2] as int) * (INV_MDS@[22] as int) + (MDS@[3] as int) * (INV_MDS@[31] as int) + (MDS@[4] as int) * (INV_MDS@[40] as int) + (MDS@[5] as int) * (INV_MDS@[49] as int) + (MDS@[6] as int) * (INV_MDS@[58] as int) + (MDS@[7] as int) * (INV_MDS@[67] as int) + (MDS@[8] as int) * (INV_MDS@[76] as int));
    assert(((MDS@[0] as int) * (INV_MDS@[4] as int) + (MDS@[1] as int) * (INV_MDS@[13] as int) + (MDS@[2] as int) * (INV_MDS@[22] as int) + (MDS@[3] as int) * (INV_MDS@[31] as int) + (MDS@[4] as int) * (INV_MDS@[40] as int) + (MDS@[5] as int) * (INV_MDS@[49] as int) + (MDS@[6] as int) * (INV_MDS@[58] as int) + (MDS@[7] as int) * (INV_MDS@[67] as int) + (MDS@[8] as int) * (INV_MDS@[76] as int)) % 18446744069414584321 == 0) by (nonlinear_arith)
        requires
            MDS@[0] == 15911754940807515092, MDS@[1] == 2711892286355972158, MDS@[2] == 17150989262161941497, MDS@[3] == 1745852583430594377, MDS@[4] == 565355451240421748, MDS@[5] == 16587236605753788891, MDS@[6] == 667156732699554300, MDS@[7] == 18446738415201823621, MDS@[8] == 6725601, INV_MDS@[4] == 3826851271344202700, INV_MDS@[13] == 7911297895002287941, INV_MDS@[22] == 12026351406134197362, INV_MDS@[31] == 6040531618942127052, INV_MDS@[40] == 15556761641939977419, INV_MDS@[49] == 5711132269931307421, INV_MDS@[58] == 11837871652379070246, INV_MDS@[67] == 15595726145931404890, INV_MDS@[76] == 7824129118715884826,
    ;
    assert(product_entry(MDS@, INV_MDS@, 9, 0, 5) == (MDS@[0] as int) * (INV_MDS@[5] as int) + (MDS@[1] as int) * (INV_MDS@[14] as int) + (MDS@[2] as int) * (INV_MDS@[23] as int) + (MDS@[3] as int) * (INV_MDS@[32] as int) + (MDS@[4] as int) * (INV_MDS@[41] as int) + (MDS@[5] as int) * (INV_MDS@[50] as int) + (MDS@[6] as int) * (INV_MDS@[59] as int) + (MDS@[7] as int) * (INV_MDS@[68] as int) + (MDS@[8] as int) * (INV_MDS@[77] as int));
    assert(((MDS@[0] as int) * (INV_MDS@[5] as int) + (MDS@[1] as int) * (INV_MDS@[14] as int) + (MDS@[2] as int) * (INV_MDS@[23] as int) + (MDS@[3] as int) * (INV_MDS@[32] as int) + (MDS@[4] as int) * (INV_MDS@[41] as int) + (MDS@[5] as int) * (INV_MDS@[50] as int) + (MDS@[6] as int) * (INV_MDS@[59] as int) + (MDS@[7] as int) * (INV_MDS@[68] as int) + (MDS@[8] as int) * (INV_MDS@[77] as int)) % 18446744069414584321 == 0) by (nonlinear_arith)
        requires
            MDS@[0] == 15911754940807515092, MDS@[1] == 2711892286355972158, MDS@[2] == 17150989262161941497, MDS@[3] == 1745852583430594377, MDS@[4] == 565355451240421748, MDS@[5] == 16587236605753788891, MDS@[6] == 667156732699554300, MDS@[7] == 18446738415201823621, MDS@[8] == 6725601, INV_MDS@[5] == 2762205602142483652, INV_MDS@[14] == 10171341733175619366, INV_MDS@[23] == 7821482727890945600, INV_MDS@[32] == 10790028874759868378, INV_MDS@[41] == 4165101601570367338, INV_MDS@[50] == 12428043081259626558, INV_MDS@[59] == 4914401822520226103, INV_MDS@[68] == 16357593446793026710, INV_MDS@[77] == 361143884638050460,
    ;
    assert(product_entry(MDS@, INV_MDS@, 9, 0, 6) == (MDS@[0] as int) * (INV_MDS@[6] as int) + (MDS@[1] as int) * (INV_MDS@[15] as int) + (MDS@[2] as int) * (INV_MDS@[24] as int) + (MDS@[3] as int) * (INV_MDS@[33] as int) + (MDS@[4] as int) * (INV_MDS@[42] as int) + (MDS@[5] as int) * (INV_MDS@[51] as int) + (MDS@[6] as int) * (INV_MDS@[60] as int) + (MDS@[7] as int) * (INV_MDS@[69] as int) + (MDS@[8] as int) * (INV_MDS@[78] as int));
    assert(((MDS@[0] as int) * (INV_MDS@[6] as int) + (MDS@[1] as int) * (INV_MDS@[15] as int) + (MDS@[2] as int) * (INV_MDS@[24] as int) + (MDS@[3] as int) * (INV_MDS@[33] as int) + (MDS@[4] as int) * (INV_MDS@[42] as int) + (MDS@[5] as int) * (INV_MDS@[51] as int) + (MDS@[6] as int) * (INV_MDS@[60] as int) + (MDS@[7] as int) * (INV_MDS@[69] as int) + (MDS@[8] as int) * (INV_MDS@[78] as int)) % 18446744069414584321 == 0) by (nonlinear_arith)
        requires
            MDS@[0] == 15911754940807515092, MDS@[1] == 2711892286355972158, MDS@[2] == 17150989262161941497, MDS@[3] == 1745852583430594377, MDS@[4] == 565355451240421748, MDS@[5] == 16587236605753788891, MDS@[6] == 667156732699554300, MDS@[7] == 18446738415201823621, MDS@[8] == 6725601, INV_MDS@[6] == 4011688063434574022, INV_MDS@[15] == 2083657376480454673, INV_MDS@[24] == 12585455291860344, INV_MDS@[33] == 13470778785726456026, INV_MDS@[42] == 5642321549502873499, INV_MDS@[51] == 1120990037650345611, INV_MDS@[60] == 4327473378007705992, INV_MDS@[69] == 15060277806204701300, INV_MDS@[78] == 15105352412984880743,
    ;
    assert(product_entry(MDS@, INV_MDS@, 9, 0, 7) == (MDS@[0] as int) * (INV_MDS@[7] as int) + (MDS@[1] as int) * (INV_MDS@[16] as int) + (MDS@[2] as int) * (INV_MDS@[25] as int) + (MDS@[3] as int) * (INV_MDS@[34] as int) + (MDS@[4] as int) * (INV_MDS@[43] as int) + (MDS@[5] as int) * (INV_MDS@[52] as int) + (MDS@[6] as int) * (INV_MDS@[61] as int) + (MDS@[7] as int) * (INV_MDS@[70] as int) + (MDS@[8] as int) * (INV_MDS@[79] as int));
    assert(((MDS@[0] as int) * (INV_MDS@[7] as int) + (MDS@[1] as int) * (INV_MDS@[16] as int) + (MDS@[2] as int) * (INV_MDS@[25] as int) + (MDS@[3] as int) * (INV_MDS@[34] as int) + (MDS@[4] as int) * (INV_MDS@[43] as int) + (MDS@[5] as int) * (INV_MDS@[52] as int) + (MDS@[6] as int) * (INV_MDS@[61] as int) + (MDS@[7] as int) * (INV_MDS@[70] as int) + (MDS@[8] as int) * (INV_MDS@[79] as int)) % 18446744069414584321 == 0) by (nonlinear_arith)
        requires
            MDS@[0] == 15911754940807515092, MDS@[1] == 2711892286355972158, MDS@[2] == 17150989262161941497, MDS@[3] == 1745852583430594377, MDS@[4] == 565355451240421748, MDS@[5] == 16587236605753788891, MDS@[6] == 667156732699554300, MDS@[7] == 18446738415201823621, MDS@[8] == 6725601, INV_MDS@[7] == 11145195700700186855, INV_MDS@[16] == 10776243903197042427, INV_MDS@[25] == 1822423469098651379, INV_MDS@[34] == 7979522825782598098, INV_MDS@[43] == 6994112155574369328, INV_MDS@[52] == 7030824490151679826, INV_MDS@[61] == 14868197986830246925, INV_MDS@[70] == 16200124235946144513, INV_MDS@[79] == 7056196256360339342,
    ;
    assert(product_entry(MDS@, INV_MDS@, 9, 0, 8) == (MDS@[0] as int) * (INV_MDS@[8] as int) + (MDS@[1] as int) * (INV_MDS@[17] as int) + (MDS@[2] as int) * (INV_MDS@[26] as int) + (MDS@[3] as int) * (INV_MDS@[35] as int) + (MDS@[4] as int) * (INV_MDS@[44] as int) + (MDS@[5] as int) * (INV_MDS@[53] as int) + (MDS@[6] as int) * (INV_MDS@[62] as int) + (MDS@[7] as int) * (INV_MDS@[71] as int) + (MDS@[8] as int) * (INV_MDS@[80] as int));
    assert(((MDS@[0] as int) * (INV_MDS@[8] as int) + (MDS@[1] as int) * (INV_MDS@[17] as int) + (MDS@[2] as int) * (INV_MDS@[26] as int) + (MDS@[3] as int) * (INV_MDS@[35] as int) + (MDS@[4] as int) * (INV_MDS@[44] as int) + (MDS@[5] as int) * (INV_MDS@[53] as int) + (MDS@[6] as int) * (INV_MDS@[62] as int) + (MDS@[7] as int) * (INV_MDS@[71] as int) + (MDS@[8] as int) * (INV_MDS@[80] as int)) % 18446744069414584321 == 0) by (nonlinear_arith)
        requires
            MDS@[0] == 15911754940807515092, MDS@[1] == 2711892286355972158, MDS@[2] == 17150989262161941497, MDS@[3] == 1745852583430594377, MDS@[4] == 565355451240421748, MDS@[5] == 16587236605753788891, MDS@[6] == 667156732699554300, MDS@[7] == 18446738415201823621, MDS@[8] == 6725601, INV_MDS@[8] == 11912678348383205301, INV_MDS@[17] == 4573631076428555246, INV_MDS@[26] == 3166408246653635427, INV_MDS@[35] == 9027637183994064988, INV_MDS@[44] == 16138972831500780930, INV_MDS@[53] == 4248865481065498700, INV_MDS@[62] == 16126564776654303969, INV_MDS@[71] == 13567037823605465940, INV_MDS@[80] == 11855636989396365731,
    ;
}

proof fn lemma_product_forward_row_1()
    ensures
        identity_row(Elem::modulus(), MDS@, INV_MDS@, 9, 1, 9),
{
    reveal_with_fuel(sum, 10);
    reveal_with_fuel(identity_row, 10);
    assert(product_entry(MDS@, INV_MDS@, 9, 1, 0) == (MDS@[9] as int) * (INV_MDS@[0] as int) + (MDS@[10] as int) * (INV_MDS@[9] as int) + (MDS@[11] as int) * (INV_MDS@[18] as int) + (MDS@[12] as int) * (INV_MDS@[27] as int) + (MDS@[13] as int) * (INV_MDS@[36] as int) + (MDS@[14] as int) * (INV_MDS@[45] as int) + (MDS@[15] as int) * (INV_MDS@[54] as int) + (MDS@[16] as int) * (INV_MDS@[63] as int) + (MDS@[17] as int) * (INV_MDS@[72] as int));
    assert(((MDS@[9] as int) * (INV_MDS@[0] as int) + (MDS@[10] as int) * (INV_MDS@[9] as int) + (MDS@[11] as int) * (INV_MDS@[18] as int) + (MDS@[12] as int) * (INV_MDS@[27] as int) + (MDS@[13] as int) * (INV_MDS@[36] as int) + (MDS@[14] as int) * (INV_MDS@[45] as int) + (MDS@[15] as int) * (INV_MDS@[54] as int) + (MDS@[16] as int) * (INV_MDS@[63] as int) + (MDS@[17] as int) * (INV_MDS@[72] as int)) % 18446744069414584321 == 0) by (nonlinear_arith)
        requires
            MDS@[9] == 4000831318486715337, MDS@[10] == 13866593699749449226, MDS@[11] == 12844960428353252001, MDS@[12] == 582714116362056623, MDS@[13] == 3366018464571614479, MDS@[14] == 15938247878153142367, MDS@[15] == 5208160849119430188, MDS@[16] == 17979409943366626563, MDS@[17] == 39579496050501, INV_MDS@[0] == 12539207436065832329, INV_MDS@[9] == 4727195465870018641, INV_MDS@[18] == 736023694432405199, INV_MDS@[27] == 8986700519619826502, INV_MDS@[36] == 4903771519896946287, INV_MDS@[45] == 9097855105810106273, INV_MDS@[54] == 3935402967907460435, INV_MDS@[63] == 14340817518001988765, INV_MDS@[72] == 7153203116068863772,
    ;
    assert(product_entry(MDS@, INV_MDS@, 9, 1, 1) == (MDS@[9] as int) * (INV_MDS@[1] as int) + (MDS@[10] as int) * (INV_MDS@[10] as int) + (MDS@[11] as int) * (INV_MDS@[19] as int) + (MDS@[12] as int) * (INV_MDS@[28] as int) + (MDS@[13] as int) * (INV_MDS@[37] as int) + (MDS@[14] as int) * (INV_MDS@[46] as int) + (MDS@[15] as int) * (INV_MDS@[55] as int) + (MDS@[16] as int) * (INV_MDS@[64] as int) + (MDS@[17] as int) * (INV_MDS@[73] as int));
    assert(((MDS@[9] as int) * (INV_MDS@[1] as int) + (MDS@[10] as int) * (INV_MDS@[10] as int) + (MDS@[11] as int) * (INV_MDS@[19] as int) + (MDS@[12] as int) * (INV_MDS@[28] as int) + (MDS@[13] as int) * (INV_MDS@[37] as int) + (MDS@[14] as int) * (INV_MDS@[46] as int) + (MDS@[15] as int) * (INV_MDS@[55] as int) + (MDS@[16] as int) * (INV_MDS@[64] as int) + (MDS@[17] as int) * (INV_MDS@[73] as int)) % 18446744069414584321 == 1) by (nonlinear_arith)
        requires
            MDS@[9] == 4000831318486715337, MDS@[10] == 13866593699749449226, MDS@[11] == 12844960428353252001, MDS@[12] == 582714116362056623, MDS@[13] == 3366018464571614479, MDS@[14] == 15938247878153142367, MDS@[15] == 5208160849119430188, MDS@[16] == 17979409943366626563, MDS@[17] == 39579496050501, INV_MDS@[1] == 12077697399935358608, INV_MDS@[10] == 9920359389887667425, INV_MDS@[19] == 13757068485645773643, INV_MDS@[28] == 9279896563366898378, INV_MDS@[37] == 4880363692783577635, INV_MDS@[46] == 11304812409172332644, INV_MDS@[55] == 6216932751277754590, INV_MDS@[64] == 10854148653441472529, INV_MDS@[73] == 5026931394711878012,
    ;
    assert(product_entry(MDS@, INV_MDS@, 9, 1, 2) == (MDS@[9] as int) * (INV_MDS@[2] as int) + (MDS@[10] as int) * (INV_MDS@[11] as int) + (MDS@[11] as int) * (INV_MDS@[20] as int) + (MDS@[12] as int) * (INV_MDS@[29] as int) + (MDS@[13] as int) * (INV_MDS@[38] as int) + (MDS@[14] as int) * (INV_MDS@[47] as int) + (MDS@[15] as int) * (INV_MDS@[56] as int) + (MDS@[16] as int) * (INV_MDS@[65] as int) + (MDS@[17] as int) * (INV_MDS@[74] as int));
    assert(((MDS@[9] as int) * (INV_MDS@[2] as int) + (MDS@[10] as int) * (INV_MDS@[11] as int) + (MDS@[11] as int) * (INV_MDS@[20] as int) + (MDS@[12] as int) * (INV_MDS@[29] as int) + (MDS@[13] as int) * (INV_MDS@[38] as int) + (MDS@[14] as int) * (INV_MDS@[47] as int) + (MDS@[15] as int) * (INV_MDS@[56] as int) + (MDS@[16] as int) * (INV_MDS@[65] as int) + (MDS@[17] as int) * (INV_MDS@[74] as int)) % 18446744069414584321 == 0) by (nonlinear_arith)
        requires
            MDS@[9] == 4000831318486715337, MDS@[10] == 13866593699749449226, MDS@[11] == 12844960428353252001, MDS@[12] == 582714116362056623, MDS@[13] == 3366018464571614479, MDS@[14] == 15938247878153142367, MDS@[15] == 5208160849119430188, MDS@[16] == 17979409943366626563, MDS@[17] == 39579496050501, INV_MDS@[2] == 11489157039865439957, INV_MDS@[11] == 5882185432840443093, INV_MDS@[20] == 8441959758169971861, INV_MDS@[29] == 13003781105377603755, INV_MDS@[38] == 14022866956744736042, INV_MDS@[47] == 5495002765127845140, INV_MDS@[56] == 9244633293430859140, INV_MDS@[65] == 17665873453485278662, INV_MDS@[74] == 7906190408160118526,
    ;
    assert(product_entry(MDS@, INV_MDS@, 9, 1, 3) == (MDS@[9] as int) * (INV_MDS@[3] as int) + (MDS@[10] as int) * (INV_MDS@[12] as int) + (MDS@[11] as int) * (INV_MDS@[21] as int) + (MDS@[12] as int) * (INV_MDS@[30] as int) + (MDS@[13] as int) * (INV_MDS@[39] as int) + (MDS@[14] as int) * (INV_MDS@[48] as int) + (MDS@[15] as int) * (INV_MDS@[57] as int) + (MDS@[16] as int) * (INV_MDS@[66] as int) + (MDS@[17] as int) * (INV_MDS@[75] as int));
    assert(((MDS@[9] as int) * (INV_MDS@[3] as int) + (MDS@[10] as int) * (INV_MDS@[12] as int) + (MDS@[11] as int) * (INV_MDS@[21] as int) + (MDS@[12] as int) * (INV_MDS@[30] as int) + (MDS@[13] as int) * (INV_MDS@[39] as int) + (MDS@[14] as int) * (INV_MDS@[48] as int) + (MDS@[15] as int) * (INV_MDS@[57] as int) + (MDS@[16] as int) * (INV_MDS@[66] as int) + (MDS@[17] as int) * (INV_MDS@[75] as int)) % 18446744069414584321 == 0) by (nonlinear_arith)
        requires
            MDS@[9] == 4000831318486715337, MDS@[10] == 13866593699749449226, MDS@[11] == 12844960428353252001, MDS@[12] == 582714116362056623, MDS@[13] == 3366018464571614479, MDS@[14] == 15938247878153142367, MDS@[15] == 5208160849119430188, MDS@[16] == 17979409943366626563, MDS@[17] == 39579496050501, INV_MDS@[3] == 4022295415787053861, INV_MDS@[12] == 17741064004776248473, INV_MDS@[21] == 7555928964926312149, INV_MDS@[30] == 13654842869503478429, INV_MDS@[39] == 1482704328144708807, INV_MDS@[48] == 17349450637489595112, INV_MDS@[57] == 2315497648650709885, INV_MDS@[66] == 9485609402492606939, INV_MDS@[75] == 11498192696621955873,
    ;
    assert(product_entry(MDS@, INV_MDS@, 9, 1, 4) == (MDS@[9] as int) * (INV_MDS@[4] as int) + (MDS@[10] as int) * (INV_MDS@[13] as int) + (MDS@[11] as int) * (INV_MDS@[22] as int) + (MDS@[12] as int) * (INV_MDS@[31] as int) + (MDS@[13] as int) * (INV_MDS@[40] as int) + (MDS@[14] as int) * (INV_MDS@[49] as int) + (MDS@[15] as int) * (INV_MDS@[58] as int) + (MDS@[16] as int) * (INV_MDS@[67] as int) + (MDS@[17] as int) * (INV_MDS@[76] as int));
    assert(((MDS@[9] as int) * (INV_MDS@[4] as int) + (MDS@[10] as int) * (INV_MDS@[13] as int) + (MDS@[11] as int) * (INV_MDS@[22] as int) + (MDS@[12] as int) * (INV_MDS@[31] as int) + (MDS@[13] as int) * (INV_MDS@[40] as int) + (MDS@[14] as int) * (INV_MDS@[49] as int) + (MDS@[15] as int) * (INV_MDS@[58] as int) + (MDS@[16] as int) * (INV_MDS@[67] as int) + (MDS@[17] as int) * (INV_MDS@[76] as int)) % 18446744069414584321 == 0) by (nonlinear_arith)
        requires
            MDS@[9] == 4000831318486715337, MDS@[10] == 13866593699749449226, MDS@[11] == 12844960428353252001, MDS@[12] == 582714116362056623, MDS@[13] == 3366018464571614479, MDS@[14] == 15938247878153142367, MDS@[15] == 5208160849119430188, MDS@[16] == 17979409943366626563, MDS@[17] == 39579496050501, INV_MDS@[4] == 3826851271344202700, INV_MDS@[13] == 7911297895002287941, INV_MDS@[22] == 12026351406134197362, INV_MDS@[31] == 6040531618942127052, INV_MDS@[40] == 15556761641939977419, INV_MDS@[49] == 5711132269931307421, INV_MDS@[58] == 11837871652379070246, INV_MDS@[67] == 15595726145931404890, INV_MDS@[76] == 7824129118715884826,
    ;
    assert(product_entry(MDS@, INV_MDS@, 9, 1, 5) == (MDS@[9] as int) * (INV_MDS@[5] as int) + (MDS@[10] as int) * (INV_MDS@[14] as int) + (MDS@[11] as int) * (INV_MDS@[23] as int) + (MDS@[12] as int) * (INV_MDS@[32] as int) + (MDS@[13] as int) * (INV_MDS@[41] as int) + (MDS@[14] as int) * (INV_MDS@[50] as int) + (MDS@[15] as int) * (INV_MDS@[59] as int) + (MDS@[16] as int) * (INV_MDS@[68] as int) + (MDS@[17] as int) * (INV_MDS@[77] as int));
    assert(((MDS@[9] as int) * (INV_MDS@[5] as int) + (MDS@[10] as int) * (INV_MDS@[14] as int) + (MDS@[11] as int) * (INV_MDS@[23] as int) + (MDS@[12] as int) * (INV_MDS@[32] as int) + (MDS@[13] as int) * (INV_MDS@[41] as int) + (MDS@[14] as int) * (INV_MDS@[50] as int) + (MDS@[15] as int) * (INV_MDS@[59] as int) + (MDS@[16] as int) * (INV_MDS@[68] as int) + (MDS@[17] as int) * (INV_MDS@[77] as int)) % 18446744069414584321 == 0) by (nonlinear_arith)
        requires
            MDS@[9] == 4000831318486715337, MDS@[10] == 13866593699749449226, MDS@[11] == 12844960428353252001, MDS@[12] == 582714116362056623, MDS@[13] == 3366018464571614479, MDS@[14] == 15938247878153142367, MDS@[15] == 5208160849119430188, MDS@[16] == 17979409943366626563, MDS@[17] == 39579496050501, INV_MDS@[5] == 2762205602142483652, INV_MDS@[14] == 10171341733175619366, INV_MDS@[23] == 7821482727890945600, INV_MDS@[32] == 10790028874759868378, INV_MDS@[41] == 4165101601570367338, INV_MDS@[50] == 12428043081259626558, INV_MDS@[59] == 4914401822520226103, INV_MDS@[68] == 16357593446793026710, INV_MDS@[77] == 361143884638050460,
    ;
    assert(product_entry(MDS@, INV_MDS@, 9, 1, 6) == (MDS@[9] as int) * (INV_MDS@[6] as int) + (MDS@[10] as int) * (INV_MDS@[15] as int) + (MDS@[11] as int) * (INV_MDS@[24] as int) + (MDS@[12] as int) * (INV_MDS@[33] as int) + (MDS@[13] as int) * (INV_MDS@[42] as int) + (MDS@[14] as int) * (INV_MDS@[51] as int) + (MDS@[15] as int) * (INV_MDS@[60] as int) + (MDS@[16] as int) * (INV_MDS@[69] as int) + (MDS@[17] as int) * (INV_MDS@[78] as int));
    assert(((MDS@[9] as int) * (INV_MDS@[6] as int) + (MDS@[10] as int) * (INV_MDS@[15] as int) + (MDS@[11] as int) * (INV_MDS@[24] as int) + (MDS@[12] as int) * (INV_MDS@[33] as int) + (MDS@[13] as int) * (INV_MDS@[42] as int) + (MDS@[14] as int) * (INV_MDS@[51] as int) + (MDS@[15] as int) * (INV_MDS@[60] as int) + (MDS@[16] as int) * (INV_MDS@[69] as int) + (MDS@[17] as int) * (INV_MDS@[78] as int)) % 18446744069414584321 == 0) by (nonlinear_arith)
        requires
            MDS@[9] == 4000831318486715337, MDS@[10] == 13866593699749449226, MDS@[11] == 12844960428353252001, MDS@[12] == 582714116362056623, MDS@[13] == 3366018464571614479, MDS@[14] == 15938247878153142367, MDS@[15] == 5208160849119430188, MDS@[16] == 17979409943366626563, MDS@[17] == 39579496050501, INV_MDS@[6] == 4011688063434574022, INV_MDS@[15] == 2083657376480454673, INV_MDS@[24] == 12585455291860344, INV_MDS@[33] == 13470778785726456026, INV_MDS@[42] == 5642321549502873499, INV_MDS@[51] == 1120990037650345611, INV_MDS@[60] == 4327473378007705992, INV_MDS@[69] == 15060277806204701300, INV_MDS@[78] == 15105352412984880743,
    ;
    assert(product_entry(MDS@, INV_MDS@, 9, 1, 7) == (MDS@[9] as int) * (INV_MDS@[7] as int) + (MDS@[10] as int) * (INV_MDS@[16] as int) + (MDS@[11] as int) * (INV_MDS@[25] as int) + (MDS@[12] as int) * (INV_MDS@[34] as int) + (MDS@[13] as int) * (INV_MDS@[43] as int) + (MDS@[14] as int) * (INV_MDS@[52] as int) + (MDS@[15] as int) * (INV_MDS@[61] as int) + (MDS@[16] as int) * (INV_MDS@[70] as int) + (MDS@[17] as int) * (INV_MDS@[79] as int));
    assert(((MDS@[9] as int) * (INV_MDS@[7] as int) + (MDS@[10] as int) * (INV_MDS@[16] as int) + (MDS@[11] as int) * (INV_MDS@[25] as int) + (MDS@[12] as int) * (INV_MDS@[34] as int) + (MDS@[13] as int) * (INV_MDS@[43] as int) + (MDS@[14] as int) * (INV_MDS@[52] as int) + (MDS@[15] as int) * (INV_MDS@[61] as int) + (MDS@[16] as int) * (INV_MDS@[70] as int) + (MDS@[17] as int) * (INV_MDS@[79] as int)) % 18446744069414584321 == 0) by (nonlinear_arith)
        requires
            MDS@[9] == 4000831318486715337, MDS@[10] == 13866593699749449226, MDS@[11] == 12844960428353252001, MDS@[12] == 582714116362056623, MDS@[13] == 3366018464571614479, MDS@[14] == 15938247878153142367, MDS@[15] == 5208160849119430188, MDS@[16] == 17979409943366626563, MDS@[17] == 39579496050501, INV_MDS@[7] == 11145195700700186855, INV_MDS@[16] == 10776243903197042427, INV_MDS@[25] == 1822423469098651379, INV_MDS@[34] == 7979522825782598098, INV_MDS@[43] == 6994112155574369328, INV_MDS@[52] == 7030824490151679826, INV_MDS@[61] == 14868197986830246925, INV_MDS@[70] == 16200124235946144513, INV_MDS@[79] == 7056196256360339342,
    ;
    assert(product_entry(MDS@, INV_MDS@, 9, 1, 8) == (MDS@[9] as int) * (INV_MDS@[8] as int) + (MDS@[10] as int) * (INV_MDS@[17] as int) + (MDS@[11] as int) * (INV_MDS@[26] as int) + (MDS@[12] as int) * (INV_MDS@[35] as int) + (MDS@[13] as int) * (INV_MDS@[44] as int) + (MDS@[14] as int) * (INV_MDS@[53] as int) + (MDS@[15] as int) * (INV_MDS@[62] as int) + (MDS@[16] as int) * (INV_MDS@[71] as int) + (MDS@[17] as int) * (INV_MDS@[80] as int));
    assert(((MDS@[9] as int) * (INV_MDS@[8] as int) + (MDS@[10] as int) * (INV_MDS@[17] as int) + (MDS@[11] as int) * (INV_MDS@[26] as int) + (MDS@[12] as int) * (INV_MDS@[35] as int) + (MDS@[13] as int) * (INV_MDS@[44] as int) + (MDS@[14] as int) * (INV_MDS@[53] as int) + (MDS@[15] as int) * (INV_MDS@[62] as int) + (MDS@[16] as int) * (INV_MDS@[71] as int) + (MDS@[17] as int) * (INV_MDS@[80] as int)) % 18446744069414584321 == 0) by (nonlinear_arith)
        requires
            MDS@[9] == 4000831318486715337, MDS@[10] == 13866593699749449226, MDS@[11] == 12844960428353252001, MDS@[12] == 582714116362056623, MDS@[13] == 3366018464571614479, MDS@[14] == 15938247878153142367, MDS@[15] == 5208160849119430188, MDS@[16] == 17979409943366626563, MDS@[17] == 39579496050501, INV_MDS@[8] == 11912678348383205301, INV_MDS@[17] == 4573631076428555246, INV_MDS@[26] == 3166408246653635427, INV_MDS@[35] == 9027637183994064988, INV_MDS@[44] == 16138972831500780930, INV_MDS@[53] == 4248865481065498700, INV_MDS@[62] == 16126564776654303969, INV_MDS@[71] == 13567037823605465940, INV_MDS@[80] == 11855636989396365731,
    ;
}

proof fn lemma_product_forward_row_2()
    ensures
        identity_row(Elem::modulus(), MDS@, INV_MDS@, 9, 2, 9),
{
    reveal_with_fuel(sum, 10);
    reveal_with_fuel(identity_row, 10);
    assert(product_entry(MDS@, INV_MDS@, 9, 2, 0) == (MDS@[18] as int) * (INV_MDS@[0] as int) + (MDS@[19] as int) * (INV_MDS@[9] as int) + (MDS@[20] as int) * (INV_MDS@[18] as int) + (MDS@[21] as int) * (INV_MDS@[27] as int) + (MDS@[22] as int) * (INV_MDS@[36] as int) + (MDS@[23] as int) * (INV_MDS@[45] as int) + (MDS@[24] as int) * (INV_MDS@[54] as int) + (MDS@[25] as int) * (INV_MDS@[63] as int) + (MDS@[26] as int) * (INV_MDS@[72] as int));
    assert(((MDS@[18] as int) * (INV_MDS@[0] as int) + (MDS@[19] as int) * (INV_MDS@[9] as int) + (MDS@[20] as int) * (INV_MDS@[18] as int) + (MDS@[21] as int) * (INV_MDS@[27] as int) + (MDS@[22] as int) * (INV_MDS@[36] as int) + (MDS@[23] as int) * (INV_MDS@[45] as int) + (MDS@[24] as int) * (INV_MDS@[54] as int) + (MDS@[25] as int) * (INV_MDS@[63] as int) + (MDS@[26] as int) * (INV_MDS@[72] as int)) % 18446744069414584321 == 0) by (nonlinear_arith)
        requires
            MDS@[18] == 12880740554289902608, MDS@[19] == 10736257011154062521, MDS@[20] == 9684835675499922946, MDS@[21] == 17726787349382971757, MDS@[22] == 3129880678747094218, MDS@[23] == 10717533211705047281, MDS@[24] == 6323700978479141929, MDS@[25] == 13559837768921340497, MDS@[26] == 7474147118893437849, INV_MDS@[0] == 12539207436065832329, INV_MDS@[9] == 4727195465870018641, INV_MDS@[18] == 736023694432405199, INV_MDS@[27] == 8986700519619826502, INV_MDS@[36] == 4903771519896946287, INV_MDS@[45] == 9097855105810106273, INV_MDS@[54] == 3935402967907460435, INV_MDS@[63] == 14340817518001988765, INV_MDS@[72] == 7153203116068863772,
    ;
    assert(product_entry(MDS@, INV_MDS@, 9, 2, 1) == (MDS@[18] as int) * (INV_MDS@[1] as int) + (MDS@[19] as int) * (INV_MDS@[10] as int) + (MDS@[20] as int) * (INV_MDS@[19] as int) + (MDS@[21] as int) * (INV_MDS@[28] as int) + (MDS@[22] as int) * (INV_MDS@[37] as int) + (MDS@[23] as int) * (INV_MDS@[46] as int) + (MDS@[24] as int) * (INV_MDS@[55] as int) + (MDS@[25] as int) * (INV_MDS@[64] as int) + (MDS@[26] as int) * (INV_MDS@[73] as int));
    assert(((MDS@[18] as int) * (INV_MDS@[1] as int) + (MDS@[19] as int) * (INV_MDS@[10] as int) + (MDS@[20] as int) * (INV_MDS@[19] as int) + (MDS@[21] as int) * (INV_MDS@[28] as int) + (MDS@[22] as int) * (INV_MDS@[37] as int) + (MDS@[23] as int) * (INV_MDS@[46] as int) + (MDS@[24] as int) * (INV_MDS@[55] as int) + (MDS@[25] as int) * (INV_MDS@[64] as int) + (MDS@[26] as int) * (INV_MDS@[73] as int)) % 18446744069414584321 == 0) by (nonlinear_arith)
        requires
            MDS@[18] == 12880740554289902608, MDS@[19] == 10736257011154062521, MDS@[20] == 9684835675499922946, MDS@[21] == 17726787349382971757, MDS@[22] == 3129880678747094218, MDS@[23] == 10717533211705047281, MDS@[24] == 6323700978479141929, MDS@[25] == 13559837768921340497, MDS@[26] == 7474147118893437849, INV_MDS@[1] == 12077697399935358608, INV_MDS@[10] == 9920359389887667425, INV_MDS@[19] == 13757068485645773643, INV_MDS@[28] == 9279896563366898378, INV_MDS@[37] == 4880363692783577635, INV_MDS@[46] == 11304812409172332644, INV_MDS@[55] == 6216932751277754590, INV_MDS@[64] == 10854148653441472529, INV_MDS@[73] == 5026931394711878012,
    ;
    assert(product_entry(MDS@, INV_MDS@, 9, 2, 2) == (MDS@[18] as int) * (INV_MDS@[2] as int) + (MDS@[19] as int) * (INV_MDS@[11] as int) + (MDS@[20] as int) * (INV_MDS@[20] as int) + (MDS@[21] as int) * (INV_MDS@[29] as int) + (MDS@[22] as int) * (INV_MDS@[38] as int) + (MDS@[23] as int) * (INV_MDS@[47] as int) + (MDS@[24] as int) * (INV_MDS@[56] as int) + (MDS@[25] as int) * (INV_MDS@[65] as int) + (MDS@[26] as int) * (INV_MDS@[74] as int));
    assert(((MDS@[18] as int) * (INV_MDS@[2] as int) + (MDS@[19] as int) * (INV_MDS@[11] as int) + (MDS@[20] as int) * (INV_MDS@[20] as int) + (MDS@[21] as int) * (INV_MDS@[29] as int) + (MDS@[22] as int) * (INV_MDS@[38] as int) + (MDS@[23] as int) * (INV_MDS@[47] as int) + (MDS@[24] as int) * (INV_MDS@[56] as int) + (MDS@[25] as int) * (INV_MDS@[65] as int) + (MDS@[26] as int) * (INV_MDS@[74] as int)) % 18446744069414584321 == 1) by (nonlinear_arith)
        requires
            MDS@[18] == 12880740554289902608, MDS@[19] == 10736257011154062521, MDS@[20] == 9684835675499922946, MDS@[21] == 17726787349382971757, MDS@[22] == 3129880678747094218, MDS@[23] == 10717533211705047281, MDS@[24] == 6323700978479141929, MDS@[25] == 13559837768921340497, MDS@[26] == 7474147118893437849, INV_MDS@[2] == 11489157039865439957, INV_MDS@[11] == 5882185432840443093, INV_MDS@[20] == 8441959758169971861, INV_MDS@[29] == 13003781105377603755, INV_MDS@[38] == 14022866956744736042, INV_MDS@[47] == 5495002765127845140, INV_MDS@[56] == 9244633293430859140, INV_MDS@[65] == 17665873453485278662, INV_MDS@[74] == 7906190408160118526,
    ;
    assert(product_entry(MDS@, INV_MDS@, 9, 2, 3) == (MDS@[18] as int) * (INV_MDS@[3] as int) + (MDS@[19] as int) * (INV_MDS@[12] as int) + (MDS@[20] as int) * (INV_MDS@[21] as int) + (MDS@[21] as int) * (INV_MDS@[30] as int) + (MDS@[22] as int) * (INV_MDS@[39] as int) + (MDS@[23] as int) * (INV_MDS@[48] as int) + (MDS@[24] as int) * (INV_MDS@[57] as int) + (MDS@[25] as int) * (INV_MDS@[66] as int) + (MDS@[26] as int) * (INV_MDS@[75] as int));
    assert(((MDS@[18] as int) * (INV_MDS@[3] as int) + (MDS@[19] as int) * (INV_MDS@[12] as int) + (MDS@[20] as int) * (INV_MDS@[21] as int) + (MDS@[21] as int) * (INV_MDS@[30] as int) + (MDS@[22] as int) * (INV_MDS@[39] as int) + (MDS@[23] as int) * (INV_MDS@[48] as int) + (MDS@[24] as int) * (INV_MDS@[57] as int) + (MDS@[25] as int) * (INV_MDS@[66] as int) + (MDS@[26] as int) * (INV_MDS@[75] as int)) % 18446744069414584321 == 0) by (nonlinear_arith)
        requires
            MDS@[18] == 12880740554289902608, MDS@[19] == 10736257011154062521, MDS@[20] == 9684835675499922946, MDS@[21] == 17726787349382971757, MDS@[22] == 3129880678747094218, MDS@[23] == 10717533211705047281, MDS@[24] == 6323700978479141929, MDS@[25] == 13559837768921340497, MDS@[26] == 7474147118893437849, INV_MDS@[3] == 4022295415787053861, INV_MDS@[12] == 17741064004776248473, INV_MDS@[21] == 7555928964926312149, INV_MDS@[30] == 13654842869503478429, INV_MDS@[39] == 1482704328144708807, INV_MDS@[48] == 17349450637489595112, INV_MDS@[57] == 2315497648650709885, INV_MDS@[66] == 9485609402492606939, INV_MDS@[75] == 11498192696621955873,
    ;
    assert(product_entry(MDS@, INV_MDS@, 9, 2, 4) == (MDS@[18] as int) * (INV_MDS@[4] as int) + (MDS@[19] as int) * (INV_MDS@[13] as int) + (MDS@[20] as int) * (INV_MDS@[22] as int) + (MDS@[21] as int) * (INV_MDS@[31] as int) + (MDS@[22] as int) * (INV_MDS@[40] as int) + (MDS@[23] as int) * (INV_MDS@[49] as int) + (MDS@[24] as int) * (INV_MDS@[58] as int) + (MDS@[25] as int) * (INV_MDS@[67] as int) + (MDS@[26] as int) * (INV_MDS@[76] as int));
    assert(((MDS@[18] as int) * (INV_MDS@[4] as int) + (MDS@[19] as int) * (INV_MDS@[13] as int) + (MDS@[20] as int) * (INV_MDS@[22] as int) + (MDS@[21] as int) * (INV_MDS@[31] as int) + (MDS@[22] as int) * (INV_MDS@[40] as int) + (MDS@[23] as int) * (INV_MDS@[49] as int) + (MDS@[24] as int) * (INV_MDS@[58] as int) + (MDS@[25] as int) * (INV_MDS@[67] as int) + (MDS@[26] as int) * (INV_MDS@[76] as int)) % 18446744069414584321 == 0) by (nonlinear_arith)
        requires
            MDS@[18] == 12880740554289902608, MDS@[19] == 10736257011154062521, MDS@[20] == 9684835675499922946, MDS@[21] == 17726787349382971757, MDS@[22] == 3129880678747094218, MDS@[23] == 10717533211705047281, MDS@[24] == 6323700978479141929, MDS@[25] == 13559837768921340497, MDS@[26] == 7474147118893437849, INV_MDS@[4] == 3826851271344202700, INV_MDS@[13] == 7911297895002287941, INV_MDS@[22] == 12026351406134197362, INV_MDS@[31] == 6040531618942127052, INV_MDS@[40] == 15556761641939977419, INV_MDS@[49] == 5711132269931307421, INV_MDS@[58] == 11837871652379070246, INV_MDS@[67] == 15595726145931404890, INV_MDS@[76] == 7824129118715884826,
    ;
    assert(product_entry(MDS@, INV_MDS@, 9, 2, 5) == (MDS@[18] as int) * (INV_MDS@[5] as int) + (MDS@[19] as int) * (INV_MDS@[14] as int) + (MDS@[20] as int) * (INV_MDS@[23] as int) + (MDS@[21] as int) * (INV_MDS@[32] as int) + (MDS@[22] as int) * (INV_MDS@[41] as int) + (MDS@[23] as int) * (INV_MDS@[50] as int) + (MDS@[24] as int) * (INV_MDS@[59] as int) + (MDS@[25] as int) * (INV_MDS@[68] as int) + (MDS@[26] as int) * (INV_MDS@[77] as int));
    assert(((MDS@[18] as int) * (INV_MDS@[5] as int) + (MDS@[19] as int) * (INV_MDS@[14] as int) + (MDS@[20] as int) * (INV_MDS@[23] as int) + (MDS@[21] as int) * (INV_MDS@[32] as int) + (MDS@[22] as int) * (INV_MDS@[41] as int) + (MDS@[23] as int) * (INV_MDS@[50] as int) + (MDS@[24] as int) * (INV_MDS@[59] as int) + (MDS@[25] as int) * (INV_MDS@[68] as int) + (MDS@[26] as int) * (INV_MDS@[77] as int)) % 18446744069414584321 == 0) by (nonlinear_arith)
        requires
            MDS@[18] == 12880740554289902608, MDS@[19] == 10736257011154062521, MDS@[20] == 9684835675499922946, MDS@[21] == 17726787349382971757, MDS@[22] == 3129880678747094218, MDS@[23] == 10717533211705047281, MDS@[24] == 6323700978479141929, MDS@[25] == 13559837768921340497, MDS@[26] == 7474147118893437849, INV_MDS@[5] == 2762205602142483652, INV_MDS@[14] == 10171341733175619366, INV_MDS@[23] == 7821482727890945600, INV_MDS@[32] == 10790028874759868378, INV_MDS@[41] == 4165101601570367338, INV_MDS@[50] == 12428043081259626558, INV_MDS@[59] == 4914401822520226103, INV_MDS@[68] == 16357593446793026710, INV_MDS@[77] == 361143884638050460,
    ;
    assert(product_entry(MDS@, INV_MDS@, 9, 2, 6) == (MDS@[18] as int) * (INV_MDS@[6] as int) + (MDS@[19] as int) * (INV_MDS@[15] as int) + (MDS@[20] as int) * (INV_MDS@[24] as int) + (MDS@[21] as int) * (INV_MDS@[33] as int) + (MDS@[22] as int) * (INV_MDS@[42] as int) + (MDS@[23] as int) * (INV_MDS@[51] as int) + (MDS@[24] as int) * (INV_MDS@[60] as int) + (MDS@[25] as int) * (INV_MDS@[69] as int) + (MDS@[26] as int) * (INV_MDS@[78] as int));
    assert(((MDS@[18] as int) * (INV_MDS@[6] as int) + (MDS@[19] as int) * (INV_MDS@[15] as int) + (MDS@[20] as int) * (INV_MDS@[24] as int) + (MDS@[21] as int) * (INV_MDS@[33] as int) + (MDS@[22] as int) * (INV_MDS@[42] as int) + (MDS@[23] as int) * (INV_MDS@[51] as int) + (MDS@[24] as int) * (INV_MDS@[60] as int) + (MDS@[25] as int) * (INV_MDS@[69] as int) + (MDS@[26] as int) * (INV_MDS@[78] as int)) % 18446744069414584321 == 0) by (nonlinear_arith)
        requires
            MDS@[18] == 12880740554289902608, MDS@[19] == 10736257011154062521, MDS@[20] == 9684835675499922946, MDS@[21] == 17726787349382971757, MDS@[22] == 3129880678747094218, MDS@[23] == 10717533211705047281, MDS@[24] == 6323700978479141929, MDS@[25] == 13559837768921340497, MDS@[26] == 7474147118893437849, INV_MDS@[6] == 4011688063434574022, INV_MDS@[15] == 2083657376480454673, INV_MDS@[24] == 12585455291860344, INV_MDS@[33] == 13470778785726456026, INV_MDS@[42] == 5642321549502873499, INV_MDS@[51] == 1120990037650345611, INV_MDS@[60] == 4327473378007705992, INV_MDS@[69] == 15060277806204701300, INV_MDS@[78] == 15105352412984880743,
    ;
    assert(product_entry(MDS@, INV_MDS@, 9, 2, 7) == (MDS@[18] as int) * (INV_MDS@[7] as int) + (MDS@[19] as int) * (INV_MDS@[16] as int) + (MDS@[20] as int) * (INV_MDS@[25] as int) + (MDS@[21] as int) * (INV_MDS@[34] as int) + (MDS@[22] as int) * (INV_MDS@[43] as int) + (MDS@[23] as int) * (INV_MDS@[52] as int) + (MDS@[24] as int) * (INV_MDS@[61] as int) + (MDS@[25] as int) * (INV_MDS@[70] as int) + (MDS@[26] as int) * (INV_MDS@[79] as int));
    assert(((MDS@[18] as int) * (INV_MDS@[7] as int) + (MDS@[19] as int) * (INV_MDS@[16] as int) + (MDS@[20] as int) * (INV_MDS@[25] as int) + (MDS@[21] as int) * (INV_MDS@[34] as int) + (MDS@[22] as int) * (INV_MDS@[43] as int) + (MDS@[23] as int) * (INV_MDS@[52] as int) + (MDS@[24] as int) * (INV_MDS@[61] as int) + (MDS@[25] as int) * (INV_MDS@[70] as int) + (MDS@[26] as int) * (INV_MDS@[79] as int)) % 18446744069414584321 == 0) by (nonlinear_arith)
        requires
            MDS@[18] == 12880740554289902608, MDS@[19] == 10736257011154062521, MDS@[20] == 9684835675499922946, MDS@[21] == 17726787349382971757, MDS@[22] == 3129880678747094218, MDS@[23] == 10717533211705047281, MDS@[24] == 6323700978479141929, MDS@[25] == 13559837768921340497, MDS@[26] == 7474147118893437849, INV_MDS@[7] == 11145195700700186855, INV_MDS@[16] == 10776243903197042427, INV_MDS@[25] == 1822423469098651379, INV_MDS@[34] == 7979522825782598098, INV_MDS@[43] == 6994112155574369328, INV_MDS@[52] == 7030824490151679826, INV_MDS@[61] == 14868197986830246925, INV_MDS@[70] == 16200124235946144513, INV_MDS@[79] == 7056196256360339342,
    ;
    assert(product_entry(MDS@, INV_MDS@, 9, 2, 8) == (MDS@[18] as int) * (INV_MDS@[8] as int) + (MDS@[19] as int) * (INV_MDS@[17] as int) + (MDS@[20] as int) * (INV_MDS@[26] as int) + (MDS@[21] as int) * (INV_MDS@[35] as int) + (MDS@[22] as int) * (INV_MDS@[44] as int) + (MDS@[23] as int) * (INV_MDS@[53] as int) + (MDS@[24] as int) * (INV_MDS@[62] as int) + (MDS@[25] as int) * (INV_MDS@[71] as int) + (MDS@[26] as int) * (INV_MDS@[80] as int));
    assert(((MDS@[18] as int) * (INV_MDS@[8] as int) + (MDS@[19] as int) * (INV_MDS@[17] as int) + (MDS@[20] as int) * (INV_MDS@[26] as int) + (MDS@[21] as int) * (INV_MDS@[35] as int) + (MDS@[22] as int) * (INV_MDS@[44] as int) + (MDS@[23] as int) * (INV_MDS@[53] as int) + (MDS@[24] as int) * (INV_MDS@[62] as int) + (MDS@[25] as int) * (INV_MDS@[71] as int) + (MDS@[26] as int) * (INV_MDS@[80] as int)) % 18446744069414584321 == 0) by (nonlinear_arith)
        requires
            MDS@[18] == 12880740554289902608, MDS@[19] == 10736257011154062521, MDS@[20] == 9684835675499922946, MDS@[21] == 17726787349382971757, MDS@[22] == 3129880678747094218, MDS@[23] == 10717533211705047281, MDS@[24] == 6323700978479141929, MDS@[25] == 13559837768921340497, MDS@[26] == 7474147118893437849, INV_MDS@[8] == 11912678348383205301, INV_MDS@[17] == 4573631076428555246, INV_MDS@[26] == 3166408246653635427, INV_MDS@[35] == 9027637183994064988, INV_MDS@[44] == 16138972831500780930, INV_MDS@[53] == 4248865481065498700, INV_MDS@[62] == 16126564776654303969, INV_MDS@[71] == 13567037823605465940, INV_MDS@[80] == 11855636989396365731,
    ;
}

proof fn lemma_product_forward_row_3()
    ensures
        identity_row(Elem::modulus(), MDS@, INV_MDS@, 9, 3, 9),
{
    reveal_with_fuel(sum, 10);
    reveal_with_fuel(identity_row, 10);
    assert(product_entry(MDS@, INV_MDS@, 9, 3, 0) == (MDS@[27] as int) * (INV_MDS@[0] as int) + (MDS@[28] as int) * (INV_MDS@[9] as int) + (MDS@[29] as int) * (INV_MDS@[18] as int) + (MDS@[30] as int) * (INV_MDS@[27] as int) + (MDS@[31] as int) * (INV_MDS@[36] as int) + (MDS@[32] as int) * (INV_MDS@[45] as int) + (MDS@[33] as int) * (INV_MDS@[54] as int) + (MDS@[34] as int) * (INV_MDS@[63] as int) + (MDS@[35] as int) * (INV_MDS@[72] as int));
    assert(((MDS@[27] as int) * (INV_MDS@[0] as int) + (MDS@[28] as int) * (INV_MDS@[9] as int) + (MDS@[29] as int) * (INV_MDS@[18] as int) + (MDS@[30] as int) * (INV_MDS@[27] as int) + (MDS@[31] as int) * (INV_MDS@[36] as int) + (MDS@[32] as int) * (INV_MDS@[45] as int) + (MDS@[33] as int) * (INV_MDS@[54] as int) + (MDS@[34] as int) * (INV_MDS@[63] as int) + (MDS@[35] as int) * (INV_MDS@[72] as int)) % 18446744069414584321 == 0) by (nonlinear_arith)
        requires
            MDS@[27] == 8444280502348543928, MDS@[28] == 18063596406833757604, MDS@[29] == 1023367824000313667, MDS@[30] == 17098225262737701178, MDS@[31] == 13698883994234477975, MDS@[32] == 11759502291953144483, MDS@[33] == 16538072702756198364, MDS@[34] == 13063382426484038143, MDS@[35] == 10991153005139330585, INV_MDS@[0] == 12539207436065832329, INV_MDS@[9] == 4727195465870018641, INV_MDS@[18] == 736023694432405199, INV_MDS@[27] == 8986700519619826502, INV_MDS@[36] == 4903771519896946287, INV_MDS@[45] == 9097855105810106273, INV_MDS@[54] == 3935402967907460435, INV_MDS@[63] == 14340817518001988765, INV_MDS@[72] == 7153203116068863772,
    ;
    assert(product_entry(MDS@, INV_MDS@, 9, 3, 1) == (MDS@[27] as int) * (INV_MDS@[1] as int) + (MDS@[28] as int) * (INV_MDS@[10] as int) + (MDS@[29] as int) * (INV_MDS@[19] as int) + (MDS@[30] as int) * (INV_MDS@[28] as int) + (MDS@[31] as int) * (INV_MDS@[37] as int) + (MDS@[32] as int) * (INV_MDS@[46] as int) + (MDS@[33] as int) * (INV_MDS@[55] as int) + (MDS@[34] as int) * (INV_MDS@[64] as int) + (MDS@[35] as int) * (INV_MDS@[73] as int));
    assert(((MDS@[27] as int) * (INV_MDS@[1] as int) + (MDS@[28] as int) * (INV_MDS@[10] as int) + (MDS@[29] as int) * (INV_MDS@[19] as int) + (MDS@[30] as int) * (INV_MDS@[28] as int) + (MDS@[31] as int) * (INV_MDS@[37] as int) + (MDS@[32] as int) * (INV_MDS@[46] as int) + (MDS@[33] as int) * (INV_MDS@[55] as int) + (MDS@[34] as int) * (INV_MDS@[64] as int) + (MDS@[35] as int) * (INV_MDS@[73] as int)) % 18446744069414584321 == 0) by (nonlinear_arith)
        requires
            MDS@[27] == 8444280502348543928, MDS@[28] == 18063596406833757604, MDS@[29] == 1023367824000313667, MDS@[30] == 17098225262737701178, MDS@[31] == 13698883994234477975, MDS@[32] == 11759502291953144483, MDS@[33] == 16538072702756198364, MDS@[34] == 13063382426484038143, MDS@[35] == 10991153005139330585, INV_MDS@[1] == 12077697399935358608, INV_MDS@[10] == 9920359389887667425, INV_MDS@[19] == 13757068485645773643, INV_MDS@[28] == 9279896563366898378, INV_MDS@[37] == 4880363692783577635, INV_MDS@[46] == 11304812409172332644, INV_MDS@[55] == 6216932751277754590, INV_MDS@[64] == 10854148653441472529, INV_MDS@[73] == 5026931394711878012,
    ;
    assert(product_entry(MDS@, INV_MDS@, 9, 3, 2) == (MDS@[27] as int) * (INV_MDS@[2] as int) + (MDS@[28] as int) * (INV_MDS@[11] as int) + (MDS@[29] as int) * (INV_MDS@[20] as int) + (MDS@[30] as int) * (INV_MDS@[29] as int) + (MDS@[31] as int) * (INV_MDS@[38] as int) + (MDS@[32] as int) * (INV_MDS@[47] as int) + (MDS@[33] as int) * (INV_MDS@[56] as int) + (MDS@[34] as int) * (INV_MDS@[65] as int) + (MDS@[35] as int) * (INV_MDS@[74] as int));
    assert(((MDS@[27] as int) * (INV_MDS@[2] as int) + (MDS@[28] as int) * (INV_MDS@[11] as int) + (MDS@[29] as int) * (INV_MDS@[20] as int) + (MDS@[30] as int) * (INV_MDS@[29] as int) + (MDS@[31] as int) * (INV_MDS@[38] as int) + (MDS@[32] as int) * (INV_MDS@[47] as int) + (MDS@[33] as int) * (INV_MDS@[56] as int) + (MDS@[34] as int) * (INV_MDS@[65] as int) + (MDS@[35] as int) * (INV_MDS@[74] as int)) % 18446744069414584321 == 0) by (nonlinear_arith)
        requires
            MDS@[27] == 8444280502348543928, MDS@[28] == 18063596406833757604, MDS@[29] == 1023367824000313667, MDS@[30] == 17098225262737701178, MDS@[31] == 13698883994234477975, MDS@[32] == 11759502291953144483, MDS@[33] == 16538072702756198364, MDS@[34] == 13063382426484038143, MDS@[35] == 10991153005139330585, INV_MDS@[2] == 11489157039865439957, INV_MDS@[11] == 5882185432840443093, INV_MDS@[20] == 8441959758169971861, INV_MDS@[29] == 13003781105377603755, INV_MDS@[38] == 14022866956744736042, INV_MDS@[47] == 5495002765127845140, INV_MDS@[56] == 9244633293430859140, INV_MDS@[65] == 17665873453485278662, INV_MDS@[74] == 7906190408160118526,
    ;
    assert(product_entry(MDS@, INV_MDS@, 9, 3, 3) == (MDS@[27] as int) * (INV_MDS@[3] as int) + (MDS@[28] as int) * (INV_MDS@[12] as int) + (MDS@[29] as int) * (INV_MDS@[21] as int) + (MDS@[30] as int) * (INV_MDS@[30] as int) + (MDS@[31] as int) * (INV_MDS@[39] as int) + (MDS@[32] as int) * (INV_MDS@[48] as int) + (MDS@[33] as int) * (INV_MDS@[57] as int) + (MDS@[34] as int) * (INV_MDS@[66] as int) + (MDS@[35] as int) * (INV_MDS@[75] as int));
    assert(((MDS@[27] as int) * (INV_MDS@[3] as int) + (MDS@[28] as int) * (INV_MDS@[12] as int) + (MDS@[29] as int) * (INV_MDS@[21] as int) + (MDS@[30] as int) * (INV_MDS@[30] as int) + (MDS@[31] as int) * (INV_MDS@[39] as int) + (MDS@[32] as int) * (INV_MDS@[48] as int) + (MDS@[33] as int) * (INV_MDS@[57] as int) + (MDS@[34] as int) * (INV_MDS@[66] as int) + (MDS@[35] as int) * (INV_MDS@[75] as int)) % 18446744069414584321 == 1) by (nonlinear_arith)
        requires
            MDS@[27] == 8444280502348543928, MDS@[28] == 18063596406833757604, MDS@[29] == 1023367824000313667, MDS@[30] == 17098225262737701178, MDS@[31] == 13698883994234477975, MDS@[32] == 11759502291953144483, MDS@[33] == 16538072702756198364, MDS@[34] == 13063382426484038143, MDS@[35] == 10991153005139330585, INV_MDS@[3] == 4022295415787053861, INV_MDS@[12] == 17741064004776248473, INV_MDS@[21] == 7555928964926312149, INV_MDS@[30] == 13654842869503478429, INV_MDS@[39] == 1482704328144708807, INV_MDS@[48] == 17349450637489595112, INV_MDS@[57] == 2315497648650709885, INV_MDS@[66] == 9485609402492606939, INV_MDS@[75] == 11498192696621955873,
    ;
    assert(product_entry(MDS@, INV_MDS@, 9, 3, 4) == (MDS@[27] as int) * (INV_MDS@[4] as int) + (MDS@[28] as int) * (INV_MDS@[13] as int) + (MDS@[29] as int) * (INV_MDS@[22] as int) + (MDS@[30] as int) * (INV_MDS@[31] as int) + (MDS@[31] as int) * (INV_MDS@[40] as int) + (MDS@[32] as int) * (INV_MDS@[49] as int) + (MDS@[33] as int) * (INV_MDS@[58] as int) + (MDS@[34] as int) * (INV_MDS@[67] as int) + (MDS@[35] as int) * (INV_MDS@[76] as int));
    assert(((MDS@[27] as int) * (INV_MDS@[4] as int) + (MDS@[28] as int) * (INV_MDS@[13] as int) + (MDS@[29] as int) * (INV_MDS@[22] as int) + (MDS@[30] as int) * (INV_MDS@[31] as int) + (MDS@[31] as int) * (INV_MDS@[40] as int) + (MDS@[32] as int) * (INV_MDS@[49] as int) + (MDS@[33] as int) * (INV_MDS@[58] as int) + (MDS@[34] as int) * (INV_MDS@[67] as int) + (MDS@[35] as int) * (INV_MDS@[76] as int)) % 18446744069414584321 == 0) by (nonlinear_arith)
        requires
            MDS@[27] == 8444280502348543928, MDS@[28] == 18063596406833757604, MDS@[29] == 1023367824000313667, MDS@[30] == 17098225262737701178, MDS@[31] == 13698883994234477975, MDS@[32] == 11759502291953144483, MDS@[33] == 16538072702756198364, MDS@[34] == 13063382426484038143, MDS@[35] == 10991153005139330585, INV_MDS@[4] == 3826851271344202700, INV_MDS@[13] == 7911297895002287941, INV_MDS@[22] == 12026351406134197362, INV_MDS@[31] == 6040531618942127052, INV_MDS@[40] == 15556761641939977419, INV_MDS@[49] == 5711132269931307421, INV_MDS@[58] == 11837871652379070246, INV_MDS@[67] == 15595726145931404890, INV_MDS@[76] == 7824129118715884826,
    ;
    assert(product_entry(MDS@, INV_MDS@, 9, 3, 5) == (MDS@[27] as int) * (INV_MDS@[5] as int) + (MDS@[28] as int) * (INV_MDS@[14] as int) + (MDS@[29] as int) * (INV_MDS@[23] as int) + (MDS@[30] as int) * (INV_MDS@[32] as int) + (MDS@[31] as int) * (INV_MDS@[41] as int) + (MDS@[32] as int) * (INV_MDS@[50] as int) + (MDS@[33] as int) * (INV_MDS@[59] as int) + (MDS@[34] as int) * (INV_MDS@[68] as int) + (MDS@[35] as int) * (INV_MDS@[77] as int));
    assert(((MDS@[27] as int) * (INV_MDS@[5] as int) + (MDS@[28] as int) * (INV_MDS@[14] as int) + (MDS@[29] as int) * (INV_MDS@[23] as int) + (MDS@[30] as int) * (INV_MDS@[32] as int) + (MDS@[31] as int) * (INV_MDS@[41] as int) + (MDS@[32] as int) * (INV_MDS@[50] as int) + (MDS@[33] as int) * (INV_MDS@[59] as int) + (MDS@[34] as int) * (INV_MDS@[68] as int) + (MDS@[35] as int) * (INV_MDS@[77] as int)) % 18446744069414584321 == 0) by (nonlinear_arith)
        requires
            MDS@[27] == 8444280502348543928, MDS@[28] == 18063596406833757604, MDS@[29] == 1023367824000313667, MDS@[30] == 17098225262737701178, MDS@[31] == 13698883994234477975, MDS@[32] == 11759502291953144483, MDS@[33] == 16538072702756198364, MDS@[34] == 13063382426484038143, MDS@[35] == 10991153005139330585, INV_MDS@[5] == 2762205602142483652, INV_MDS@[14] == 10171341733175619366, INV_MDS@[23] == 7821482727890945600, INV_MDS@[32] == 10790028874759868378, INV_MDS@[41] == 4165101601570367338, INV_MDS@[50] == 12428043081259626558, INV_MDS@[59] == 4914401822520226103, INV_MDS@[68] == 16357593446793026710, INV_MDS@[77] == 361143884638050460,
    ;
    assert(product_entry(MDS@, INV_MDS@, 9, 3, 6) == (MDS@[27] as int) * (INV_MDS@[6] as int) + (MDS@[28] as int) * (INV_MDS@[15] as int) + (MDS@[29] as int) * (INV_MDS@[24] as int) + (MDS@[30] as int) * (INV_MDS@[33] as int) + (MDS@[31] as int) * (INV_MDS@[42] as int) + (MDS@[32] as int) * (INV_MDS@[51] as int) + (MDS@[33] as int) * (INV_MDS@[60] as int) + (MDS@[34] as int) * (INV_MDS@[69] as int) + (MDS@[35] as int) * (INV_MDS@[78] as int));
    assert(((MDS@[27] as int) * (INV_MDS@[6] as int) + (MDS@[28] as int) * (INV_MDS@[15] as int) + (MDS@[29] as int) * (INV_MDS@[24] as int) + (MDS@[30] as int) * (INV_MDS@[33] as int) + (MDS@[31] as int) * (INV_MDS@[42] as int) + (MDS@[32] as int) * (INV_MDS@[51] as int) + (MDS@[33] as int) * (INV_MDS@[60] as int) + (MDS@[34] as int) * (INV_MDS@[69] as int) + (MDS@[35] as int) * (INV_MDS@[78] as int)) % 18446744069414584321 == 0) by (nonlinear_arith)
        requires
            MDS@[27] == 8444280502348543928, MDS@[28] == 18063596406833757604, MDS@[29] == 1023367824000313667, MDS@[30] == 17098225262737701178, MDS@[31] == 13698883994234477975, MDS@[32] == 11759502291953144483, MDS@[33] == 16538072702756198364, MDS@[34] == 13063382426484038143, MDS@[35] == 10991153005139330585, INV_MDS@[6] == 4011688063434574022, INV_MDS@[15] == 2083657376480454673, INV_MDS@[24] == 12585455291860344, INV_MDS@[33] == 13470778785726456026, INV_MDS@[42] == 5642321549502873499, INV_MDS@[51] == 1120990037650345611, INV_MDS@[60] == 4327473378007705992, INV_MDS@[69] == 15060277806204701300, INV_MDS@[78] == 15105352412984880743,
    ;
    assert(product_entry(MDS@, INV_MDS@, 9, 3, 7) == (MDS@[27] as int) * (INV_MDS@[7] as int) + (MDS@[28] as int) * (INV_MDS@[16] as int) + (MDS@[29] as int) * (INV_MDS@[25] as int) + (MDS@[30] as int) * (INV_MDS@[34] as int) + (MDS@[31] as int) * (INV_MDS@[43] as int) + (MDS@[32] as int) * (INV_MDS@[52] as int) + (MDS@[33] as int) * (INV_MDS@[61] as int) + (MDS@[34] as int) * (INV_MDS@[70] as int) + (MDS@[35] as int) * (INV_MDS@[79] as int));
    assert(((MDS@[27] as int) * (INV_MDS@[7] as int) + (MDS@[28] as int) * (INV_MDS@[16] as int) + (MDS@[29] as int) * (INV_MDS@[25] as int) + (MDS@[30] as int) * (INV_MDS@[34] as int) + (MDS@[31] as int) * (INV_MDS@[43] as int) + (MDS@[32] as int) * (INV_MDS@[52] as int) + (MDS@[33] as int) * (INV_MDS@[61] as int) + (MDS@[34] as int) * (INV_MDS@[70] as int) + (MDS@[35] as int) * (INV_MDS@[79] as int)) % 18446744069414584321 == 0) by (nonlinear_arith)
        requires
            MDS@[27] == 8444280502348543928, MDS@[28] == 18063596406833757604, MDS@[29] == 1023367824000313667, MDS@[30] == 17098225262737701178, MDS@[31] == 13698883994234477975, MDS@[32] == 11759502291953144483, MDS@[33] == 16538072702756198364, MDS@[34] == 13063382426484038143, MDS@[35] == 10991153005139330585, INV_MDS@[7] == 11145195700700186855, INV_MDS@[16] == 10776243903197042427, INV_MDS@[25] == 1822423469098651379, INV_MDS@[34] == 7979522825782598098, INV_MDS@[43] == 6994112155574369328, INV_MDS@[52] == 7030824490151679826, INV_MDS@[61] == 14868197986830246925, INV_MDS@[70] == 16200124235946144513, INV_MDS@[79] == 7056196256360339342,
    ;
    assert(product_entry(MDS@, INV_MDS@, 9, 3, 8) == (MDS@[27] as int) * (INV_MDS@[8] as int) + (MDS@[28] as int) * (INV_MDS@[17] as int) + (MDS@[29] as int) * (INV_MDS@[26] as int) + (MDS@[30] as int) * (INV_MDS@[35] as int) + (MDS@[31] as int) * (INV_MDS@[44] as int) + (MDS@[32] as int) * (INV_MDS@[53] as int) + (MDS@[33] as int) * (INV_MDS@[62] as int) + (MDS@[34] as int) * (INV_MDS@[71] as int) + (MDS@[35] as int) * (INV_MDS@[80] as int));
    assert(((MDS@[27] as int) * (INV_MDS@[8] as int) + (MDS@[28] as int) * (INV_MDS@[17] as int) + (MDS@[29] as int) * (INV_MDS@[26] as int) + (MDS@[30] as int) * (INV_MDS@[35] as int) + (MDS@[31] as int) * (INV_MDS@[44] as int) + (MDS@[32] as int) * (INV_MDS@[53] as int) + (MDS@[33] as int) * (INV_MDS@[62] as int) + (MDS@[34] as int) * (INV_MDS@[71] as int) + (MDS@[35] as int) * (INV_MDS@[80] as int)) % 18446744069414584321 == 0) by (nonlinear_arith)
        requires
            MDS@[27] == 8444280502348543928, MDS@[28] == 18063596406833757604, MDS@[29] == 1023367824000313667, MDS@[30] == 17098225262737701178, MDS@[31] == 13698883994234477975, MDS@[32] == 11759502291953144483, MDS@[33] == 16538072702756198364, MDS@[34] == 13063382426484038143, MDS@[35] == 10991153005139330585, INV_MDS@[8] == 11912678348383205301, INV_MDS@[17] == 4573631076428555246, INV_MDS@[26] == 3166408246653635427, INV_MDS@[35] == 9027637183994064988, INV_MDS@[44] == 16138972831500780930, INV_MDS@[53] == 4248865481065498700, INV_MDS@[62] == 16126564776654303969, INV_MDS@[71] == 13567037823605465940, INV_MDS@[80] == 11855636989396365731,
    ;
}

proof fn lemma_product_forward_row_4()
    ensures
        identity_row(Elem::modulus(), MDS@, INV_MDS@, 9, 4, 9),
{
    reveal_with_fuel(sum, 10);
    reveal_with_fuel(identity_row, 10);
    assert(product_entry(MDS@, INV_MDS@, 9, 4, 0) == (MDS@[36] as int) * (INV_MDS@[0] as int) + (MDS@[37] as int) * (INV_MDS@[9] as int) + (MDS@[38] as int) * (INV_MDS@[18] as int) + (MDS@[39] as int) * (INV_MDS@[27] as int) + (MDS@[40] as int) * (INV_MDS@[36] as int) + (MDS@[41] as int) * (INV_MDS@[45] as int) + (MDS@[42] as int) * (INV_MDS@[54] as int) + (MDS@[43] as int) * (INV_MDS@[63] as int) + (MDS@[44] as int) * (INV_MDS@[72] as int));
    assert(((MDS@[36] as int) * (INV_MDS@[0] as int) + (MDS@[37] as int) * (INV_MDS@[9] as int) + (MDS@[38] as int) * (INV_MDS@[18] as int) + (MDS@[39] as int) * (INV_MDS@[27] as int) + (MDS@[40] as int) * (INV_MDS@[36] as int) + (MDS@[41] as int) * (INV_MDS@[45] as int) + (MDS@[42] as int) * (INV_MDS@[54] as int) + (MDS@[43] as int) * (INV_MDS@[63] as int) + (MDS@[44] as int) * (INV_MDS@[72] as int)) % 18446744069414584321 == 0) by (nonlinear_arith)
        requires
            MDS@[36] == 14334129791615145359, MDS@[37] == 2684393531687652704, MDS@[38] == 9102699125972580966, MDS@[39] == 6899282244058680396, MDS@[40] == 7336899618183924238, MDS@[41] == 12811728231465824079, MDS@[42] == 3414522606789347434, MDS@[43] == 11622131483008073027, MDS@[44] == 5581189644877109082, INV_MDS@[0] == 12539207436065832329, INV_MDS@[9] == 4727195465870018641, INV_MDS@[18] == 736023694432405199, INV_MDS@[27] == 8986700519619826502, INV_MDS@[36] == 4903771519896946287, INV_MDS@[45] == 9097855105810106273, INV_MDS@[54] == 3935402967907460435, INV_MDS@[63] == 14340817518001988765, INV_MDS@[72] == 7153203116068863772,
    ;
    assert(product_entry(MDS@, INV_MDS@, 9, 4, 1) == (MDS@[36] as int) * (INV_MDS@[1] as int) + (MDS@[37] as int) * (INV_MDS@[10] as int) + (MDS@[38] as int) * (INV_MDS@[19] as int) + (MDS@[39] as int) * (INV_MDS@[28] as int) + (MDS@[40] as int) * (INV_MDS@[37] as int) + (MDS@[41] as int) * (INV_MDS@[46] as int) + (MDS@[42] as int) * (INV_MDS@[55] as int) + (MDS@[43] as int) * (INV_MDS@[64] as int) + (MDS@[44] as int) * (INV_MDS@[73] as int));
    assert(((MDS@[36] as int) * (INV_MDS@[1] as int) + (MDS@[37] as int) * (INV_MDS@[10] as int) + (MDS@[38] as int) * (INV_MDS@[19] as int) + (MDS@[39] as int) * (INV_MDS@[28] as int) + (MDS@[40] as int) * (INV_MDS@[37] as int) + (MDS@[41] as int) * (INV_MDS@[46] as int) + (MDS@[42] as int) * (INV_MDS@[55] as int) + (MDS@[43] as int) * (INV_MDS@[64] as int) + (MDS@[44] as int) * (INV_MDS@[73] as int)) % 18446744069414584321 == 0) by (nonlinear_arith)
        requires
            MDS@[36] == 14334129791615145359, MDS@[37] == 2684393531687652704, MDS@[38] == 9102699125972580966, MDS@[39] == 6899282244058680396, MDS@[40] == 7336899618183924238, MDS@[41] == 12811728231465824079, MDS@[42] == 3414522606789347434, MDS@[43] == 11622131483008073027, MDS@[44] == 5581189644877109082, INV_MDS@[1] == 12077697399935358608, INV_MDS@[10] == 9920359389887667425, INV_MDS@[19] == 13757068485645773643, INV_MDS@[28] == 9279896563366898378, INV_MDS@[37] == 4880363692783577635, INV_MDS@[46] == 11304812409172332644, INV_MDS@[55] == 6216932751277754590, INV_MDS@[64] == 10854148653441472529, INV_MDS@[73] == 5026931394711878012,
    ;
    assert(product_entry(MDS@, INV_MDS@, 9, 4, 2) == (MDS@[36] as int) * (INV_MDS@[2] as int) + (MDS@[37] as int) * (INV_MDS@[11] as int) + (MDS@[38] as int) * (INV_MDS@[20] as int) + (MDS@[39] as int) * (INV_MDS@[29] as int) + (MDS@[40] as int) * (INV_MDS@[38] as int) + (MDS@[41] as int) * (INV_MDS@[47] as int) + (MDS@[42] as int) * (INV_MDS@[56] as int) + (MDS@[43] as int) * (INV_MDS@[65] as int) + (MDS@[44] as int) * (INV_MDS@[74] as int));
    assert(((MDS@[36] as int) * (INV_MDS@[2] as int) + (MDS@[37] as int) * (INV_MDS@[11] as int) + (MDS@[38] as int) * (INV_MDS@[20] as int) + (MDS@[39] as int) * (INV_MDS@[29] as int) + (MDS@[40] as int) * (INV_MDS@[38] as int) + (MDS@[41] as int) * (INV_MDS@[47] as int) + (MDS@[42] as int) * (INV_MDS@[56] as int) + (MDS@[43] as int) * (INV_MDS@[65] as int) + (MDS@[44] as int) * (INV_MDS@[74] as int)) % 18446744069414584321 == 0) by (nonlinear_arith)
        requires
            MDS@[36] == 14334129791615145359, MDS@[37] == 2684393531687652704, MDS@[38] == 9102699125972580966, MDS@[39] == 6899282244058680396, MDS@[40] == 7336899618183924238, MDS@[41] == 12811728231465824079, MDS@[42] == 3414522606789347434, MDS@[43] == 11622131483008073027, MDS@[44] == 5581189644877109082, INV_MDS@[2] == 11489157039865439957, INV_MDS@[11] == 5882185432840443093, INV_MDS@[20] == 8441959758169971861, INV_MDS@[29] == 13003781105377603755, INV_MDS@[38] == 14022866956744736042, INV_MDS@[47] == 5495002765127845140, INV_MDS@[56] == 9244633293430859140, INV_MDS@[65] == 17665873453485278662, INV_MDS@[74] == 7906190408160118526,
    ;
    assert(product_entry(MDS@, INV_MDS@, 9, 4, 3) == (MDS@[36] as int) * (INV_MDS@[3] as int) + (MDS@[37] as int) * (INV_MDS@[12] as int) + (MDS@[38] as int) * (INV_MDS@[21] as int) + (MDS@[39] as int) * (INV_MDS@[30] as int) + (MDS@[40] as int) * (INV_MDS@[39] as int) + (MDS@[41] as int) * (INV_MDS@[48] as int) + (MDS@[42] as int) * (INV_MDS@[57] as int) + (MDS@[43] as int) * (INV_MDS@[66] as int) + (MDS@[44] as int) * (INV_MDS@[75] as int));
    assert(((MDS@[36] as int) * (INV_MDS@[3] as int) + (MDS@[37] as int) * (INV_MDS@[12] as int) + (MDS@[38] as int) * (INV_MDS@[21] as int) + (MDS@[39] as int) * (INV_MDS@[30] as int) + (MDS@[40] as int) * (INV_MDS@[39] as int) + (MDS@[41] as int) * (INV_MDS@[48] as int) + (MDS@[42] as int) * (INV_MDS@[57] as int) + (MDS@[43] as int) * (INV_MDS@[66] as int) + (MDS@[44] as int) * (INV_MDS@[75] as int)) % 18446744069414584321 == 0) by (nonlinear_arith)
        requires
            MDS@[36] == 14334129791615145359, MDS@[37] == 2684393531687652704, MDS@[38] == 9102699125972580966, MDS@[39] == 6899282244058680396, MDS@[40] == 7336899618183924238, MDS@[41] == 12811728231465824079, MDS@[42] == 3414522606789347434, MDS@[43] == 11622131483008073027, MDS@[44] == 5581189644877109082, INV_MDS@[3] == 4022295415787053861, INV_MDS@[12] == 17741064004776248473, INV_MDS@[21] == 7555928964926312149, INV_MDS@[30] == 13654842869503478429, INV_MDS@[39] == 1482704328144708807, INV_MDS@[48] == 17349450637489595112, INV_MDS@[57] == 2315497648650709885, INV_MDS@[66] == 9485609402492606939, INV_MDS@[75] == 11498192696621955873,
    ;
    assert(product_entry(MDS@, INV_MDS@, 9, 4, 4) == (MDS@[36] as int) * (INV_MDS@[4] as int) + (MDS@[37] as int) * (INV_MDS@[13] as int) + (MDS@[38] as int) * (INV_MDS@[22] as int) + (MDS@[39] as int) * (INV_MDS@[31] as int) + (MDS@[40] as int) * (INV_MDS@[40] as int) + (MDS@[41] as int) * (INV_MDS@[49] as int) + (MDS@[42] as int) * (INV_MDS@[58] as int) + (MDS@[43] as int) * (INV_MDS@[67] as int) + (MDS@[44] as int) * (INV_MDS@[76] as int));
    assert(((MDS@[36] as int) * (INV_MDS@[4] as int) + (MDS@[37] as int) * (INV_MDS@[13] as int) + (MDS@[38] as int) * (INV_MDS@[22] as int) + (MDS@[39] as int) * (INV_MDS@[31] as int) + (MDS@[40] as int) * (INV_MDS@[40] as int) + (MDS@[41] as int) * (INV_MDS@[49] as int) + (MDS@[42] as int) * (INV_MDS@[58] as int) + (MDS@[43] as int) * (INV_MDS@[67] as int) + (MDS@[44] as int) * (INV_MDS@[76] as int)) % 18446744069414584321 == 1) by (nonlinear_arith)
        requires
            MDS@[36] == 14334129791615145359, MDS@[37] == 2684393531687652704, MDS@[38] == 9102699125972580966, MDS@[39] == 6899282244058680396, MDS@[40] == 7336899618183924238, MDS@[41] == 12811728231465824079, MDS@[42] == 3414522606789347434, MDS@[43] == 11622131483008073027, MDS@[44] == 5581189644877109082, INV_MDS@[4] == 3826851271344202700, INV_MDS@[13] == 7911297895002287941, INV_MDS@[22] == 12026351406134197362, INV_MDS@[31] == 6040531618942127052, INV_MDS@[40] == 15556761641939977419, INV_MDS@[49] == 5711132269931307421, INV_MDS@[58] == 11837871652379070246, INV_MDS@[67] == 15595726145931404890, INV_MDS@[76] == 7824129118715884826,
    ;
    assert(product_entry(MDS@, INV_MDS@, 9, 4, 5) == (MDS@[36] as int) * (INV_MDS@[5] as int) + (MDS@[37] as int) * (INV_MDS@[14] as int) + (MDS@[38] as int) * (INV_MDS@[23] as int) + (MDS@[39] as int) * (INV_MDS@[32] as int) + (MDS@[40] as int) * (INV_MDS@[41] as int) + (MDS@[41] as int) * (INV_MDS@[50] as int) + (MDS@[42] as int) * (INV_MDS@[59] as int) + (MDS@[43] as int) * (INV_MDS@[68] as int) + (MDS@[44] as int) * (INV_MDS@[77] as int));
    assert(((MDS@[36] as int) * (INV_MDS@[5] as int) + (MDS@[37] as int) * (INV_MDS@[14] as int) + (MDS@[38] as int) * (INV_MDS@[23] as int) + (MDS@[39] as int) * (INV_MDS@[32] as int) + (MDS@[40] as int) * (INV_MDS@[41] as int) + (MDS@[41] as int) * (INV_MDS@[50] as int) + (MDS@[42] as int) * (INV_MDS@[59] as int) + (MDS@[43] as int) * (INV_MDS@[68] as int) + (MDS@[44] as int) * (INV_MDS@[77] as int)) % 18446744069414584321 == 0) by (nonlinear_arith)
        requires
            MDS@[36] == 14334129791615145359, MDS@[37] == 2684393531687652704, MDS@[38] == 9102699125972580966, MDS@[39] == 6899282244058680396, MDS@[40] == 7336899618183924238, MDS@[41] == 12811728231465824079, MDS@[42] == 3414522606789347434, MDS@[43] == 11622131483008073027, MDS@[44] == 5581189644877109082, INV_MDS@[5] == 2762205602142483652, INV_MDS@[14] == 10171341733175619366, INV_MDS@[23] == 7821482727890945600, INV_MDS@[32] == 10790028874759868378, INV_MDS@[41] == 4165101601570367338, INV_MDS@[50] == 12428043081259626558, INV_MDS@[59] == 4914401822520226103, INV_MDS@[68] == 16357593446793026710, INV_MDS@[77] == 361143884638050460,
    ;
    assert(product_entry(MDS@, INV_MDS@, 9, 4, 6) == (MDS@[36] as int) * (INV_MDS@[6] as int) + (MDS@[37] as int) * (INV_MDS@[15] as int) + (MDS@[38] as int) * (INV_MDS@[24] as int) + (MDS@[39] as int) * (INV_MDS@[33] as int) + (MDS@[40] as int) * (INV_MDS@[42] as int) + (MDS@[41] as int) * (INV_MDS@[51] as int) + (MDS@[42] as int) * (INV_MDS@[60] as int) + (MDS@[43] as int) * (INV_MDS@[69] as int) + (MDS@[44] as int) * (INV_MDS@[78] as int));
    assert(((MDS@[36] as int) * (INV_MDS@[6] as int) + (MDS@[37] as int) * (INV_MDS@[15] as int) + (MDS@[38] as int) * (INV_MDS@[24] as int) + (MDS@[39] as int) * (INV_MDS@[33] as int) + (MDS@[40] as int) * (INV_MDS@[42] as int) + (MDS@[41] as int) * (INV_MDS@[51] as int) + (MDS@[42] as int) * (INV_MDS@[60] as int) + (MDS@[43] as int) * (INV_MDS@[69] as int) + (MDS@[44] as int) * (INV_MDS@[78] as int)) % 18446744069414584321 == 0) by (nonlinear_arith)
        requires
            MDS@[36] == 14334129791615145359, MDS@[37] == 2684393531687652704, MDS@[38] == 9102699125972580966, MDS@[39] == 6899282244058680396, MDS@[40] == 7336899618183924238, MDS@[41] == 12811728231465824079, MDS@[42] == 3414522606789347434, MDS@[43] == 11622131483008073027, MDS@[44] == 5581189644877109082, INV_MDS@[6] == 4011688063434574022, INV_MDS@[15] == 2083657376480454673, INV_MDS@[24] == 12585455291860344, INV_MDS@[33] == 13470778785726456026, INV_MDS@[42] == 5642321549502873499, INV_MDS@[51] == 1120990037650345611, INV_MDS@[60] == 4327473378007705992, INV_MDS@[69] == 15060277806204701300, INV_MDS@[78] == 15105352412984880743,
    ;
    assert(product_entry(MDS@, INV_MDS@, 9, 4, 7) == (MDS@[36] as int) * (INV_MDS@[7] as int) + (MDS@[37] as int) * (INV_MDS@[16] as int) + (MDS@[38] as int) * (INV_MDS@[25] as int) + (MDS@[39] as int) * (INV_MDS@[34] as int) + (MDS@[40] as int) * (INV_MDS@[43] as int) + (MDS@[41] as int) * (INV_MDS@[52] as int) + (MDS@[42] as int) * (INV_MDS@[61] as int) + (MDS@[43] as int) * (INV_MDS@[70] as int) + (MDS@[44] as int) * (INV_MDS@[79] as int));
    assert(((MDS@[36] as int) * (INV_MDS@[7] as int) + (MDS@[37] as int) * (INV_MDS@[16] as int) + (MDS@[38] as int) * (INV_MDS@[25] as int) + (MDS@[39] as int) * (INV_MDS@[34] as int) + (MDS@[40] as int) * (INV_MDS@[43] as int) + (MDS@[41] as int) * (INV_MDS@[52] as int) + (MDS@[42] as int) * (INV_MDS@[61] as int) + (MDS@[43] as int) * (INV_MDS@[70] as int) + (MDS@[44] as int) * (INV_MDS@[79] as int)) % 18446744069414584321 == 0) by (nonlinear_arith)
        requires
            MDS@[36] == 14334129791615145359, MDS@[37] == 2684393531687652704, MDS@[38] == 9102699125972580966, MDS@[39] == 6899282244058680396, MDS@[40] == 7336899618183924238, MDS@[41] == 12811728231465824079, MDS@[42] == 3414522606789347434, MDS@[43] == 11622131483008073027, MDS@[44] == 5581189644877109082, INV_MDS@[7] == 11145195700700186855, INV_MDS@[16] == 10776243903197042427, INV_MDS@[25] == 1822423469098651379, INV_MDS@[34] == 7979522825782598098, INV_MDS@[43] == 6994112155574369328, INV_MDS@[52] == 7030824490151679826, INV_MDS@[61] == 14868197986830246925, INV_MDS@[70] == 16200124235946144513, INV_MDS@[79] == 7056196256360339342,
    ;
    assert(product_entry(MDS@, INV_MDS@, 9, 4, 8) == (MDS@[36] as int) * (INV_MDS@[8] as int) + (MDS@[37] as int) * (INV_MDS@[17] as int) + (MDS@[38] as int) * (INV_MDS@[26] as int) + (MDS@[39] as int) * (INV_MDS@[35] as int) + (MDS@[40] as int) * (INV_MDS@[44] as int) + (MDS@[41] as int) * (INV_MDS@[53] as int) + (MDS@[42] as int) * (INV_MDS@[62] as int) + (MDS@[43] as int) * (INV_MDS@[71] as int) + (MDS@[44] as int) * (INV_MDS@[80] as int));
    assert(((MDS@[36] as int) * (INV_MDS@[8] as int) + (MDS@[37] as int) * (INV_MDS@[17] as int) + (MDS@[38] as int) * (INV_MDS@[26] as int) + (MDS@[39] as int) * (INV_MDS@[35] as int) + (MDS@[40] as int) * (INV_MDS@[44] as int) + (MDS@[41] as int) * (INV_MDS@[53] as int) + (MDS@[42] as int) * (INV_MDS@[62] as int) + (MDS@[43] as int) * (INV_MDS@[71] as int) + (MDS@[44] as int) * (INV_MDS@[80] as int)) % 18446744069414584321 == 0) by (nonlinear_arith)
        requires
            MDS@[36] == 14334129791615145359, MDS@[37] == 2684393531687652704, MDS@[38] == 9102699125972580966, MDS@[39] == 6899282244058680396, MDS@[40] == 7336899618183924238, MDS@[41] == 12811728231465824079, MDS@[42] == 3414522606789347434, MDS@[43] == 11622131483008073027, MDS@[44] == 5581189644877109082, INV_MDS@[8] == 11912678348383205301, INV_MDS@[17] == 4573631076428555246, INV_MDS@[26] == 3166408246653635427, INV_MDS@[35] == 9027637183994064988, INV_MDS@[44] == 16138972831500780930, INV_MDS@[53] == 4248865481065498700, INV_MDS@[62] == 16126564776654303969, INV_MDS@[71] == 13567037823605465940, INV_MDS@[80] == 11855636989396365731,
    ;
}

proof fn lemma_product_forward_row_5()
    ensures
        identity_row(Elem::modulus(), MDS@, INV_MDS@, 9, 5, 9),
{
    reveal_with_fuel(sum, 10);
    reveal_with_fuel(identity_row, 10);
    assert(product_entry(MDS@, INV_MDS@, 9, 5, 0) == (MDS@[45] as int) * (INV_MDS@[0] as int) + (MDS@[46] as int) * (INV_MDS@[9] as int) + (MDS@[47] as int) * (INV_MDS@[18] as int) + (MDS@[48] as int) * (INV_MDS@[27] as int) + (MDS@[49] as int) * (INV_MDS@[36] as int) + (MDS@[50] as int) * (INV_MDS@[45] as int) + (MDS@[51] as int) * (INV_MDS@[54] as int) + (MDS@[52] as int) * (INV_MDS@[63] as int) + (MDS@[53] as int) * (INV_MDS@[72] as int));
    assert(((MDS@[45] as int) * (INV_MDS@[0] as int) + (MDS@[46] as int) * (INV_MDS@[9] as int) + (MDS@[47] as int) * (INV_MDS@[18] as int) + (MDS@[48] as int) * (INV_MDS@[27] as int) + (MDS@[49] as int) * (INV_MDS@[36] as int) + (MDS@[50] as int) * (INV_MDS@[45] as int) + (MDS@[51] as int) * (INV_MDS@[54] as int) + (MDS@[52] as int) * (INV_MDS@[63] as int) + (MDS@[53] as int) * (INV_MDS@[72] as int)) % 18446744069414584321 == 0) by (nonlinear_arith)
        requires
            MDS@[45] == 12274638267902752934, MDS@[46] == 10320521705305529889, MDS@[47] == 534382282294584005, MDS@[48] == 9894417991995566363, MDS@[49] == 18390808178506636504, MDS@[50] == 8691994234740331347, MDS@[51] == 6296450013617354001, MDS@[52] == 14783339201082448771, MDS@[53] == 11047168471627717792, INV_MDS@[0] == 12539207436065832329, INV_MDS@[9] == 4727195465870018641, INV_MDS@[18] == 736023694432405199, INV_MDS@[27] == 8986700519619826502, INV_MDS@[36] == 4903771519896946287, INV_MDS@[45] == 9097855105810106273, INV_MDS@[54] == 3935402967907460435, INV_MDS@[63] == 14340817518001988765, INV_MDS@[72] == 7153203116068863772,
    ;
    assert(product_entry(MDS@, INV_MDS@, 9, 5, 1) == (MDS@[45] as int) * (INV_MDS@[1] as int) + (MDS@[46] as int) * (INV_MDS@[10] as int) + (MDS@[47] as int) * (INV_MDS@[19] as int) + (MDS@[48] as int) * (INV_MDS@[28] as int) + (MDS@[49] as int) * (INV_MDS@[37] as int) + (MDS@[50] as int) * (INV_MDS@[46] as int) + (MDS@[51] as int) * (INV_MDS@[55] as int) + (MDS@[52] as int) * (INV_MDS@[64] as int) + (MDS@[53] as int) * (INV_MDS@[73] as int));
    assert(((MDS@[45] as int) * (INV_MDS@[1] as int) + (MDS@[46] as int) * (INV_MDS@[10] as int) + (MDS@[47] as int) * (INV_MDS@[19] as int) + (MDS@[48] as int) * (INV_MDS@[28] as int) + (MDS@[49] as int) * (INV_MDS@[37] as int) + (MDS@[50] as int) * (INV_MDS@[46] as int) + (MDS@[51] as int) * (INV_MDS@[55] as int) + (MDS@[52] as int) * (INV_MDS@[64] as int) + (MDS@[53] as int) * (INV_MDS@[73] as int)) % 18446744069414584321 == 0) by (nonlinear_arith)
        requires
            MDS@[45] == 12274638267902752934, MDS@[46] == 10320521705305529889, MDS@[47] == 534382282294584005, MDS@[48] == 9894417991995566363, MDS@[49] == 18390808178506636504, MDS@[50] == 8691994234740331347, MDS@[51] == 6296450013617354001, MDS@[52] == 14783339201082448771, MDS@[53] == 11047168471627717792, INV_MDS@[1] == 12077697399935358608, INV_MDS@[10] == 9920359389887667425, INV_MDS@[19] == 13757068485645773643, INV_MDS@[28] == 9279896563366898378, INV_MDS@[37] == 4880363692783577635, INV_MDS@[46] == 11304812409172332644, INV_MDS@[55] == 6216932751277754590, INV_MDS@[64] == 10854148653441472529, INV_MDS@[73] == 5026931394711878012,
    ;
    assert(product_entry(MDS@, INV_MDS@, 9, 5, 2) == (MDS@[45] as int) * (INV_MDS@[2] as int) + (MDS@[46] as int) * (INV_MDS@[11] as int) + (MDS@[47] as int) * (INV_MDS@[20] as int) + (MDS@[48] as int) * (INV_MDS@[29] as int) + (MDS@[49] as int) * (INV_MDS@[38] as int) + (MDS@[50] as int) * (INV_MDS@[47] as int) + (MDS@[51] as int) * (INV_MDS@[56] as int) + (MDS@[52] as int) * (INV_MDS@[65] as int) + (MDS@[53] as int) * (INV_MDS@[74] as int));
    assert(((MDS@[45] as int) * (INV_MDS@[2] as int) + (MDS@[46] as int) * (INV_MDS@[11] as int) + (MDS@[47] as int) * (INV_MDS@[20] as int) + (MDS@[48] as int) * (INV_MDS@[29] as int) + (MDS@[49] as int) * (INV_MDS@[38] as int) + (MDS@[50] as int) * (INV_MDS@[47] as int) + (MDS@[51] as int) * (INV_MDS@[56] as int) + (MDS@[52] as int) * (INV_MDS@[65] as int) + (MDS@[53] as int) * (INV_MDS@[74] as int)) % 18446744069414584321 == 0) by (nonlinear_arith)
        requires
            MDS@[45] == 12274638267902752934, MDS@[46] == 10320521705305529889, MDS@[47] == 534382282294584005, MDS@[48] == 9894417991995566363, MDS@[49] == 18390808178506636504, MDS@[50] == 8691994234740331347, MDS@[51] == 6296450013617354001, MDS@[52] == 14783339201082448771, MDS@[53] == 11047168471627717792, INV_MDS@[2] == 11489157039865439957, INV_MDS@[11] == 5882185432840443093, INV_MDS@[20] == 8441959758169971861, INV_MDS@[29] == 13003781105377603755, INV_MDS@[38] == 14022866956744736042, INV_MDS@[47] == 5495002765127845140, INV_MDS@[56] == 9244633293430859140, INV_MDS@[65] == 17665873453485278662, INV_MDS@[74] == 7906190408160118526,
    ;
    assert(product_entry(MDS@, INV_MDS@, 9, 5, 3) == (MDS@[45] as int) * (INV_MDS@[3] as int) + (MDS@[46] as int) * (INV_MDS@[12] as int) + (MDS@[47] as int) * (INV_MDS@[21] as int) + (MDS@[48] as int) * (INV_MDS@[30] as int) + (MDS@[49] as int) * (INV_MDS@[39] as int) + (MDS@[50] as int) * (INV_MDS@[48] as int) + (MDS@[51] as int) * (INV_MDS@[57] as int) + (MDS@[52] as int) * (INV_MDS@[66] as int) + (MDS@[53] as int) * (INV_MDS@[75] as int));
    assert(((MDS@[45] as int) * (INV_MDS@[3] as int) + (MDS@[46] as int) * (INV_MDS@[12] as int) + (MDS@[47] as int) * (INV_MDS@[21] as int) + (MDS@[48] as int) * (INV_MDS@[30] as int) + (MDS@[49] as int) * (INV_MDS@[39] as int) + (MDS@[50] as int) * (INV_MDS@[48] as int) + (MDS@[51] as int) * (INV_MDS@[57] as int) + (MDS@[52] as int) * (INV_MDS@[66] as int) + (MDS@[53] as int) * (INV_MDS@[75] as int)) % 18446744069414584321 == 0) by (nonlinear_arith)
        requires
            MDS@[45] == 12274638267902752934, MDS@[46] == 10320521705305529889, MDS@[47] == 534382282294584005, MDS@[48] == 9894417991995566363, MDS@[49] == 18390808178506636504, MDS@[50] == 8691994234740331347, MDS@[51] == 6296450013617354001, MDS@[52] == 14783339201082448771, MDS@[53] == 11047168471627717792, INV_MDS@[3] == 4022295415787053861, INV_MDS@[12] == 17741064004776248473, INV_MDS@[21] == 7555928964926312149, INV_MDS@[30] == 13654842869503478429, INV_MDS@[39] == 1482704328144708807, INV_MDS@[48] == 17349450637489595112, INV_MDS@[57] == 2315497648650709885, INV_MDS@[66] == 9485609402492606939, INV_MDS@[75] == 11498192696621955873,
    ;
    assert(product_entry(MDS@, INV_MDS@, 9, 5, 4) == (MDS@[45] as int) * (INV_MDS@[4] as int) + (MDS@[46] as int) * (INV_MDS@[13] as int) + (MDS@[47] as int) * (INV_MDS@[22] as int) + (MDS@[48] as int) * (INV_MDS@[31] as int) + (MDS@[49] as int) * (INV_MDS@[40] as int) + (MDS@[50] as int) * (INV_MDS@[49] as int) + (MDS@[51] as int) * (INV_MDS@[58] as int) + (MDS@[52] as int) * (INV_MDS@[67] as int) + (MDS@[53] as int) * (INV_MDS@[76] as int));
    assert(((MDS@[45] as int) * (INV_MDS@[4] as int) + (MDS@[46] as int) * (INV_MDS@[13] as int) + (MDS@[47] as int) * (INV_MDS@[22] as int) + (MDS@[48] as int) * (INV_MDS@[31] as int) + (MDS@[49] as int) * (INV_MDS@[40] as int) + (MDS@[50] as int) * (INV_MDS@[49] as int) + (MDS@[51] as int) * (INV_MDS@[58] as int) + (MDS@[52] as int) * (INV_MDS@[67] as int) + (MDS@[53] as int) * (INV_MDS@[76] as int)) % 18446744069414584321 == 0) by (nonlinear_arith)
        requires
            MDS@[45] == 12274638267902752934, MDS@[46] == 10320521705305529889, MDS@[47] == 534382282294584005, MDS@[48] == 9894417991995566363, MDS@[49] == 18390808178506636504, MDS@[50] == 8691994234740331347, MDS@[51] == 6296450013617354001, MDS@[52] == 14783339201082448771, MDS@[53] == 11047168471627717792, INV_MDS@[4] == 3826851271344202700, INV_MDS@[13] == 7911297895002287941, INV_MDS@[22] == 12026351406134197362, INV_MDS@[31] == 6040531618942127052, INV_MDS@[40] == 15556761641939977419, INV_MDS@[49] == 5711132269931307421, INV_MDS@[58] == 11837871652379070246, INV_MDS@[67] == 15595726145931404890, INV_MDS@[76] == 7824129118715884826,
    ;
    assert(product_entry(MDS@, INV_MDS@, 9, 5, 5) == (MDS@[45] as int) * (INV_MDS@[5] as int) + (MDS@[46] as int) * (INV_MDS@[14] as int) + (MDS@[47] as int) * (INV_MDS@[23] as int) + (MDS@[48] as int) * (INV_MDS@[32] as int) + (MDS@[49] as int) * (INV_MDS@[41] as int) + (MDS@[50] as int) * (INV_MDS@[50] as int) + (MDS@[51] as int) * (INV_MDS@[59] as int) + (MDS@[52] as int) * (INV_MDS@[68] as int) + (MDS@[53] as int) * (INV_MDS@[77] as int));
    assert(((MDS@[45] as int) * (INV_MDS@[5] as int) + (MDS@[46] as int) * (INV_MDS@[14] as int) + (MDS@[47] as int) * (INV_MDS@[23] as int) + (MDS@[48] as int) * (INV_MDS@[32] as int) + (MDS@[49] as int) * (INV_MDS@[41] as int) + (MDS@[50] as int) * (INV_MDS@[50] as int) + (MDS@[51] as int) * (INV_MDS@[59] as int) + (MDS@[52] as int) * (INV_MDS@[68] as int) + (MDS@[53] as int) * (INV_MDS@[77] as int)) % 18446744069414584321 == 1) by (nonlinear_arith)
        requires
            MDS@[45] == 12274638267902752934, MDS@[46] == 10320521705305529889, MDS@[47] == 534382282294584005, MDS@[48] == 9894417991995566363, MDS@[49] == 18390808178506636504, MDS@[50] == 8691994234740331347, MDS@[51] == 6296450013617354001, MDS@[52] == 14783339201082448771, MDS@[53] == 11047168471627717792, INV_MDS@[5] == 2762205602142483652, INV_MDS@[14] == 10171341733175619366, INV_MDS@[23] == 7821482727890945600, INV_MDS@[32] == 10790028874759868378, INV_MDS@[41] == 4165101601570367338, INV_MDS@[50] == 12428043081259626558, INV_MDS@[59] == 4914401822520226103, INV_MDS@[68] == 16357593446793026710, INV_MDS@[77] == 361143884638050460,
    ;
    assert(product_entry(MDS@, INV_MDS@, 9, 5, 6) == (MDS@[45] as int) * (INV_MDS@[6] as int) + (MDS@[46] as int) * (INV_MDS@[15] as int) + (MDS@[47] as int) * (INV_MDS@[24] as int) + (MDS@[48] as int) * (INV_MDS@[33] as int) + (MDS@[49] as int) * (INV_MDS@[42] as int) + (MDS@[50] as int) * (INV_MDS@[51] as int) + (MDS@[51] as int) * (INV_MDS@[60] as int) + (MDS@[52] as int) * (INV_MDS@[69] as int) + (MDS@[53] as int) * (INV_MDS@[78] as int));
    assert(((MDS@[45] as int) * (INV_MDS@[6] as int) + (MDS@[46] as int) * (INV_MDS@[15] as int) + (MDS@[47] as int) * (INV_MDS@[24] as int) + (MDS@[48] as int) * (INV_MDS@[33] as int) + (MDS@[49] as int) * (INV_MDS@[42] as int) + (MDS@[50] as int) * (INV_MDS@[51] as int) + (MDS@[51] as int) * (INV_MDS@[60] as int) + (MDS@[52] as int) * (INV_MDS@[69] as int) + (MDS@[53] as int) * (INV_MDS@[78] as int)) % 18446744069414584321 == 0) by (nonlinear_arith)
        requires
            MDS@[45] == 12274638267902752934, MDS@[46] == 10320521705305529889, MDS@[47] == 534382282294584005, MDS@[48] == 9894417991995566363, MDS@[49] == 18390808178506636504, MDS@[50] == 8691994234740331347, MDS@[51] == 6296450013617354001, MDS@[52] == 14783339201082448771, MDS@[53] == 11047168471627717792, INV_MDS@[6] == 4011688063434574022, INV_MDS@[15] == 2083657376480454673, INV_MDS@[24] == 12585455291860344, INV_MDS@[33] == 13470778785726456026, INV_MDS@[42] == 5642321549502873499, INV_MDS@[51] == 1120990037650345611, INV_MDS@[60] == 4327473378007705992, INV_MDS@[69] == 15060277806204701300, INV_MDS@[78] == 15105352412984880743,
    ;
    assert(product_entry(MDS@, INV_MDS@, 9, 5, 7) == (MDS@[45] as int) * (INV_MDS@[7] as int) + (MDS@[46] as int) * (INV_MDS@[16] as int) + (MDS@[47] as int) * (INV_MDS@[25] as int) + (MDS@[48] as int) * (INV_MDS@[34] as int) + (MDS@[49] as int) * (INV_MDS@[43] as int) + (MDS@[50] as int) * (INV_MDS@[52] as int) + (MDS@[51] as int) * (INV_MDS@[61] as int) + (MDS@[52] as int) * (INV_MDS@[70] as int) + (MDS@[53] as int) * (INV_MDS@[79] as int));
    assert(((MDS@[45] as int) * (INV_MDS@[7] as int) + (MDS@[46] as int) * (INV_MDS@[16] as int) + (MDS@[47] as int) * (INV_MDS@[25] as int) + (MDS@[48] as int) * (INV_MDS@[34] as int) + (MDS@[49] as int) * (INV_MDS@[43] as int) + (MDS@[50] as int) * (INV_MDS@[52] as int) + (MDS@[51] as int) * (INV_MDS@[61] as int) + (MDS@[52] as int) * (INV_MDS@[70] as int) + (MDS@[53] as int) * (INV_MDS@[79] as int)) % 18446744069414584321 == 0) by (nonlinear_arith)
        requires
            MDS@[45] == 12274638267902752934, MDS@[46] == 10320521705305529889, MDS@[47] == 534382282294584005, MDS@[48] == 9894417991995566363, MDS@[49] == 18390808178506636504, MDS@[50] == 8691994234740331347, MDS@[51] == 6296450013617354001, MDS@[52] == 14783339201082448771, MDS@[53] == 11047168471627717792, INV_MDS@[7] == 11145195700700186855, INV_MDS@[16] == 10776243903197042427, INV_MDS@[25] == 1822423469098651379, INV_MDS@[34] == 7979522825782598098, INV_MDS@[43] == 6994112155574369328, INV_MDS@[52] == 7030824490151679826, INV_MDS@[61] == 14868197986830246925, INV_MDS@[70] == 16200124235946144513, INV_MDS@[79] == 7056196256360339342,
    ;
    assert(product_entry(MDS@, INV_MDS@, 9, 5, 8) == (MDS@[45] as int) * (INV_MDS@[8] as int) + (MDS@[46] as int) * (INV_MDS@[17] as int) + (MDS@[47] as int) * (INV_MDS@[26] as int) + (MDS@[48] as int) * (INV_MDS@[35] as int) + (MDS@[49] as int) * (INV_MDS@[44] as int) + (MDS@[50] as int) * (INV_MDS@[53] as int) + (MDS@[51] as int) * (INV_MDS@[62] as int) + (MDS@[52] as int) * (INV_MDS@[71] as int) + (MDS@[53] as int) * (INV_MDS@[80] as int));
    assert(((MDS@[45] as int) * (INV_MDS@[8] as int) + (MDS@[46] as int) * (INV_MDS@[17] as int) + (MDS@[47] as int) * (INV_MDS@[26] as int) + (MDS@[48] as int) * (INV_MDS@[35] as int) + (MDS@[49] as int) * (INV_MDS@[44] as int) + (MDS@[50] as int) * (INV_MDS@[53] as int) + (MDS@[51] as int) * (INV_MDS@[62] as int) + (MDS@[52] as int) * (INV_MDS@[71] as int) + (MDS@[53] as int) * (INV_MDS@[80] as int)) % 18446744069414584321 == 0) by (nonlinear_arith)
        requires
            MDS@[45] == 12274638267902752934, MDS@[46] == 10320521705305529889, MDS@[47] == 534382282294584005, MDS@[48] == 9894417991995566363, MDS@[49] == 18390808178506636504, MDS@[50] == 8691994234740331347, MDS@[51] == 6296450013617354001, MDS@[52] == 14783339201082448771, MDS@[53] == 11047168471627717792, INV_MDS@[8] == 11912678348383205301, INV_MDS@[17] == 4573631076428555246, INV_MDS@[26] == 3166408246653635427, INV_MDS@[35] == 9027637183994064988, INV_MDS@[44] == 16138972831500780930, INV_MDS@[53] == 4248865481065498700, INV_MDS@[62] == 16126564776654303969, INV_MDS@[71] == 13567037823605465940, INV_MDS@[80] == 11855636989396365731,
    ;
}

proof fn lemma_product_forward_row_6()
    ensures
        identity_row(Elem::modulus(), MDS@, INV_MDS@, 9, 6, 9),
{
    reveal_with_fuel(sum, 10);
    reveal_with_fuel(identity_row, 10);
    assert(product_entry(MDS@, INV_MDS@, 9, 6, 0) == (MDS@[54] as int) * (INV_MDS@[0] as int) + (MDS@[55] as int) * (INV_MDS@[9] as int) + (MDS@[56] as int) * (INV_MDS@[18] as int) + (MDS@[57] as int) * (INV_MDS@[27] as int) + (MDS@[58] as int) * (INV_MDS@[36] as int) + (MDS@[59] as int) * (INV_MDS@[45] as int) + (MDS@[60] as int) * (INV_MDS@[54] as int) + (MDS@[61] as int) * (INV_MDS@[63] as int) + (MDS@[62] as int) * (INV_MDS@[72] as int));
    assert(((MDS@[54] as int) * (INV_MDS@[0] as int) + (MDS@[55] as int) * (INV_MDS@[9] as int) + (MDS@[56] as int) * (INV_MDS@[18] as int) + (MDS@[57] as int) * (INV_MDS@[27] as int) + (MDS@[58] as int) * (INV_MDS@[36] as int) + (MDS@[59] as int) * (INV_MDS@[45] as int) + (MDS@[60] as int) * (INV_MDS@[54] as int) + (MDS@[61] as int) * (INV_MDS@[63] as int) + (MDS@[62] as int) * (INV_MDS@[72] as int)) % 18446744069414584321 == 0) by (nonlinear_arith)
        requires
            MDS@[54] == 8221443041727100385, MDS@[55] == 393559796193809889, MDS@[56] == 17551880528192194831, MDS@[57] == 11029403667917004080, MDS@[58] == 9527404663882352754, MDS@[59] == 15125710629080112088, MDS@[60] == 3464609272919550073, MDS@[61] == 1348518148838494851, MDS@[62] == 7124446528907718334, INV_MDS@[0] == 12539207436065832329, INV_MDS@[9] == 4727195465870018641, INV_MDS@[18] == 736023694432405199, INV_MDS@[27] == 8986700519619826502, INV_MDS@[36] == 4903771519896946287, INV_MDS@[45] == 9097855105810106273, INV_MDS@[54] == 3935402967907460435, INV_MDS@[63] == 14340817518001988765, INV_MDS@[72] == 7153203116068863772,
    ;
    assert(product_entry(MDS@, INV_MDS@, 9, 6, 1) == (MDS@[54] as int) * (INV_MDS@[1] as int) + (MDS@[55] as int) * (INV_MDS@[10] as int) + (MDS@[56] as int) * (INV_MDS@[19] as int) + (MDS@[57] as int) * (INV_MDS@[28] as int) + (MDS@[58] as int) * (INV_MDS@[37] as int) + (MDS@[59] as int) * (INV_MDS@[46] as int) + (MDS@[60] as int) * (INV_MDS@[55] as int) + (MDS@[61] as int) * (INV_MDS@[64] as int) + (MDS@[62] as int) * (INV_MDS@[73] as int));
    assert(((MDS@[54] as int) * (INV_MDS@[1] as int) + (MDS@[55] as int) * (INV_MDS@[10] as int) + (MDS@[56] as int) * (INV_MDS@[19] as int) + (MDS@[57] as int) * (INV_MDS@[28] as int) + (MDS@[58] as int) * (INV_MDS@[37] as int) + (MDS@[59] as int) * (INV_MDS@[46] as int) + (MDS@[60] as int) * (INV_MDS@[55] as int) + (MDS@[61] as int) * (INV_MDS@[64] as int) + (MDS@[62] as int) * (INV_MDS@[73] as int)) % 18446744069414584321 == 0) by (nonlinear_arith)
        requires
            MDS@[54] == 8221443041727100385, MDS@[55] == 393559796193809889, MDS@[56] == 17551880528192194831, MDS@[57] == 11029403667917004080, MDS@[58] == 9527404663882352754, MDS@[59] == 15125710629080112088, MDS@[60] == 3464609272919550073, MDS@[61] == 1348518148838494851, MDS@[62] == 7124446528907718334, INV_MDS@[1] == 12077697399935358608, INV_MDS@[10] == 9920359389887667425, INV_MDS@[19] == 13757068485645773643, INV_MDS@[28] == 9279896563366898378, INV_MDS@[37] == 4880363692783577635, INV_MDS@[46] == 11304812409172332644, INV_MDS@[55] == 6216932751277754590, INV_MDS@[64] == 10854148653441472529, INV_MDS@[73] == 5026931394711878012,
    ;
    assert(product_entry(MDS@, INV_MDS@, 9, 6, 2) == (MDS@[54] as int) * (INV_MDS@[2] as int) + (MDS@[55] as int) * (INV_MDS@[11] as int) + (MDS@[56] as int) * (INV_MDS@[20] as int) + (MDS@[57] as int) * (INV_MDS@[29] as int) + (MDS@[58] as int) * (INV_MDS@[38] as int) + (MDS@[59] as int) * (INV_MDS@[47] as int) + (MDS@[60] as int) * (INV_MDS@[56] as int) + (MDS@[61] as int) * (INV_MDS@[65] as int) + (MDS@[62] as int) * (INV_MDS@[74] as int));
    assert(((MDS@[54] as int) * (INV_MDS@[2] as int) + (MDS@[55] as int) * (INV_MDS@[11] as int) + (MDS@[56] as int) * (INV_MDS@[20] as int) + (MDS@[57] as int) * (INV_MDS@[29] as int) + (MDS@[58] as int) * (INV_MDS@[38] as int) + (MDS@[59] as int) * (INV_MDS@[47] as int) + (MDS@[60] as int) * (INV_MDS@[56] as int) + (MDS@[61] as int) * (INV_MDS@[65] as int) + (MDS@[62] as int) * (INV_MDS@[74] as int)) % 18446744069414584321 == 0) by (nonlinear_arith)
        requires
            MDS@[54] == 8221443041727100385, MDS@[55] == 393559796193809889, MDS@[56] == 17551880528192194831, MDS@[57] == 11029403667917004080, MDS@[58] == 9527404663882352754, MDS@[59] == 15125710629080112088, MDS@[60] == 3464609272919550073, MDS@[61] == 1348518148838494851, MDS@[62] == 7124446528907718334, INV_MDS@[2] == 11489157039865439957, INV_MDS@[11] == 5882185432840443093, INV_MDS@[20] == 8441959758169971861, INV_MDS@[29] == 13003781105377603755, INV_MDS@[38] == 14022866956744736042, INV_MDS@[47] == 5495002765127845140, INV_MDS@[56] == 9244633293430859140, INV_MDS@[65] == 17665873453485278662, INV_MDS@[74] == 7906190408160118526,
    ;
    assert(product_entry(MDS@, INV_MDS@, 9, 6, 3) == (MDS@[54] as int) * (INV_MDS@[3] as int) + (MDS@[55] as int) * (INV_MDS@[12] as int) + (MDS@[56] as int) * (INV_MDS@[21] as int) + (MDS@[57] as int) * (INV_MDS@[30] as int) + (MDS@[58] as int) * (INV_MDS@[39] as int) + (MDS@[59] as int) * (INV_MDS@[48] as int) + (MDS@[60] as int) * (INV_MDS@[57] as int) + (MDS@[61] as int) * (INV_MDS@[66] as int) + (MDS@[62] as int) * (INV_MDS@[75] as int));
    assert(((MDS@[54] as int) * (INV_MDS@[3] as int) + (MDS@[55] as int) * (INV_MDS@[12] as int) + (MDS@[56] as int) * (INV_MDS@[21] as int) + (MDS@[57] as int) * (INV_MDS@[30] as int) + (MDS@[58] as int) * (INV_MDS@[39] as int) + (MDS@[59] as int) * (INV_MDS@[48] as int) + (MDS@[60] as int) * (INV_MDS@[57] as int) + (MDS@[61] as int) * (INV_MDS@[66] as int) + (MDS@[62] as int) * (INV_MDS@[75] as int)) % 18446744069414584321 == 0) by (nonlinear_arith)
        requires
            MDS@[54] == 8221443041727100385, MDS@[55] == 393559796193809889, MDS@[56] == 17551880528192194831, MDS@[57] == 11029403667917004080, MDS@[58] == 9527404663882352754, MDS@[59] == 15125710629080112088, MDS@[60] == 3464609272919550073, MDS@[61] == 1348518148838494851, MDS@[62] == 7124446528907718334, INV_MDS@[3] == 4022295415787053861, INV_MDS@[12] == 17741064004776248473, INV_MDS@[21] == 7555928964926312149, INV_MDS@[30] == 13654842869503478429, INV_MDS@[39] == 1482704328144708807, INV_MDS@[48] == 17349450637489595112, INV_MDS@[57] == 2315497648650709885, INV_MDS@[66] == 9485609402492606939, INV_MDS@[75] == 11498192696621955873,
    ;
    assert(product_entry(MDS@, INV_MDS@, 9, 6, 4) == (MDS@[54] as int) * (INV_MDS@[4] as int) + (MDS@[55] as int) * (INV_MDS@[13] as int) + (MDS@[56] as int) * (INV_MDS@[22] as int) + (MDS@[57] as int) * (INV_MDS@[31] as int) + (MDS@[58] as int) * (INV_MDS@[40] as int) + (MDS@[59] as int) * (INV_MDS@[49] as int) + (MDS@[60] as int) * (INV_MDS@[58] as int) + (MDS@[61] as int) * (INV_MDS@[67] as int) + (MDS@[62] as int) * (INV_MDS@[76] as int));
    assert(((MDS@[54] as int) * (INV_MDS@[4] as int) + (MDS@[55] as int) * (INV_MDS@[13] as int) + (MDS@[56] as int) * (INV_MDS@[22] as int) + (MDS@[57] as int) * (INV_MDS@[31] as int) + (MDS@[58] as int) * (INV_MDS@[40] as int) + (MDS@[59] as int) * (INV_MDS@[49] as int) + (MDS@[60] as int) * (INV_MDS@[58] as int) + (MDS@[61] as int) * (INV_MDS@[67] as int) + (MDS@[62] as int) * (INV_MDS@[76] as int)) % 18446744069414584321 == 0) by (nonlinear_arith)
        requires
            MDS@[54] == 8221443041727100385, MDS@[55] == 393559796193809889, MDS@[56] == 17551880528192194831, MDS@[57] == 11029403667917004080, MDS@[58] == 9527404663882352754, MDS@[59] == 15125710629080112088, MDS@[60] == 3464609272919550073, MDS@[61] == 1348518148838494851, MDS@[62] == 7124446528907718334, INV_MDS@[4] == 3826851271344202700, INV_MDS@[13] == 7911297895002287941, INV_MDS@[22] == 12026351406134197362, INV_MDS@[31] == 6040531618942127052, INV_MDS@[40] == 15556761641939977419, INV_MDS@[49] == 5711132269931307421, INV_MDS@[58] == 11837871652379070246, INV_MDS@[67] == 15595726145931404890, INV_MDS@[76] == 7824129118715884826,
    ;
    assert(product_entry(MDS@, INV_MDS@, 9, 6, 5) == (MDS@[54] as int) * (INV_MDS@[5] as int) + (MDS@[55] as int) * (INV_MDS@[14] as int) + (MDS@[56] as int) * (INV_MDS@[23] as int) + (MDS@[57] as int) * (INV_MDS@[32] as int) + (MDS@[58] as int) * (INV_MDS@[41] as int) + (MDS@[59] as int) * (INV_MDS@[50] as int) + (MDS@[60] as int) * (INV_MDS@[59] as int) + (MDS@[61] as int) * (INV_MDS@[68] as int) + (MDS@[62] as int) * (INV_MDS@[77] as int));
    assert(((MDS@[54] as int) * (INV_MDS@[5] as int) + (MDS@[55] as int) * (INV_MDS@[14] as int) + (MDS@[56] as int) * (INV_MDS@[23] as int) + (MDS@[57] as int) * (INV_MDS@[32] as int) + (MDS@[58] as int) * (INV_MDS@[41] as int) + (MDS@[59] as int) * (INV_MDS@[50] as int) + (MDS@[60] as int) * (INV_MDS@[59] as int) + (MDS@[61] as int) * (INV_MDS@[68] as int) + (MDS@[62] as int) * (INV_MDS@[77] as int)) % 18446744069414584321 == 0) by (nonlinear_arith)
        requires
            MDS@[54] == 8221443041727100385, MDS@[55] == 393559796193809889, MDS@[56] == 17551880528192194831, MDS@[57] == 11029403667917004080, MDS@[58] == 9527404663882352754, MDS@[59] == 15125710629080112088, MDS@[60] == 3464609272919550073, MDS@[61] == 1348518148838494851, MDS@[62] == 7124446528907718334, INV_MDS@[5] == 2762205602142483652, INV_MDS@[14] == 10171341733175619366, INV_MDS@[23] == 7821482727890945600, INV_MDS@[32] == 10790028874759868378, INV_MDS@[41] == 4165101601570367338, INV_MDS@[50] == 12428043081259626558, INV_MDS@[59] == 4914401822520226103, INV_MDS@[68] == 16357593446793026710, INV_MDS@[77] == 361143884638050460,
    ;
    assert(product_entry(MDS@, INV_MDS@, 9, 6, 6) == (MDS@[54] as int) * (INV_MDS@[6] as int) + (MDS@[55] as int) * (INV_MDS@[15] as int) + (MDS@[56] as int) * (INV_MDS@[24] as int) + (MDS@[57] as int) * (INV_MDS@[33] as int) + (MDS@[58] as int) * (INV_MDS@[42] as int) + (MDS@[59] as int) * (INV_MDS@[51] as int) + (MDS@[60] as int) * (INV_MDS@[60] as int) + (MDS@[61] as int) * (INV_MDS@[69] as int) + (MDS@[62] as int) * (INV_MDS@[78] as int));
    assert(((MDS@[54] as int) * (INV_MDS@[6] as int) + (MDS@[55] as int) * (INV_MDS@[15] as int) + (MDS@[56] as int) * (INV_MDS@[24] as int) + (MDS@[57] as int) * (INV_MDS@[33] as int) + (MDS@[58] as int) * (INV_MDS@[42] as int) + (MDS@[59] as int) * (INV_MDS@[51] as int) + (MDS@[60] as int) * (INV_MDS@[60] as int) + (MDS@[61] as int) * (INV_MDS@[69] as int) + (MDS@[62] as int) * (INV_MDS@[78] as int)) % 18446744069414584321 == 1) by (nonlinear_arith)
        requires
            MDS@[54] == 8221443041727100385, MDS@[55] == 393559796193809889, MDS@[56] == 17551880528192194831, MDS@[57] == 11029403667917004080, MDS@[58] == 9527404663882352754, MDS@[59] == 15125710629080112088, MDS@[60] == 3464609272919550073, MDS@[61] == 1348518148838494851, MDS@[62] == 7124446528907718334, INV_MDS@[6] == 4011688063434574022, INV_MDS@[15] == 2083657376480454673, INV_MDS@[24] == 12585455291860344, INV_MDS@[33] == 13470778785726456026, INV_MDS@[42] == 5642321549502873499, INV_MDS@[51] == 1120990037650345611, INV_MDS@[60] == 4327473378007705992, INV_MDS@[69] == 15060277806204701300, INV_MDS@[78] == 15105352412984880743,
    ;
    assert(product_entry(MDS@, INV_MDS@, 9, 6, 7) == (MDS@[54] as int) * (INV_MDS@[7] as int) + (MDS@[55] as int) * (INV_MDS@[16] as int) + (MDS@[56] as int) * (INV_MDS@[25] as int) + (MDS@[57] as int) * (INV_MDS@[34] as int) + (MDS@[58] as int) * (INV_MDS@[43] as int) + (MDS@[59] as int) * (INV_MDS@[52] as int) + (MDS@[60] as int) * (INV_MDS@[61] as int) + (MDS@[61] as int) * (INV_MDS@[70] as int) + (MDS@[62] as int) * (INV_MDS@[79] as int));
    assert(((MDS@[54] as int) * (INV_MDS@[7] as int) + (MDS@[55] as int) * (INV_MDS@[16] as int) + (MDS@[56] as int) * (INV_MDS@[25] as int) + (MDS@[57] as int) * (INV_MDS@[34] as int) + (MDS@[58] as int) * (INV_MDS@[43] as int) + (MDS@[59] as int) * (INV_MDS@[52] as int) + (MDS@[60] as int) * (INV_MDS@[61] as int) + (MDS@[61] as int) * (INV_MDS@[70] as int) + (MDS@[62] as int) * (INV_MDS@[79] as int)) % 18446744069414584321 == 0) by (nonlinear_arith)
        requires
            MDS@[54] == 8221443041727100385, MDS@[55] == 393559796193809889, MDS@[56] == 17551880528192194831, MDS@[57] == 11029403667917004080, MDS@[58] == 9527404663882352754, MDS@[59] == 15125710629080112088, MDS@[60] == 3464609272919550073, MDS@[61] == 1348518148838494851, MDS@[62] == 7124446528907718334, INV_MDS@[7] == 11145195700700186855, INV_MDS@[16] == 10776243903197042427, INV_MDS@[25] == 1822423469098651379, INV_MDS@[34] == 7979522825782598098, INV_MDS@[43] == 6994112155574369328, INV_MDS@[52] == 7030824490151679826, INV_MDS@[61] == 14868197986830246925, INV_MDS@[70] == 16200124235946144513, INV_MDS@[79] == 7056196256360339342,
    ;
    assert(product_entry(MDS@, INV_MDS@, 9, 6, 8) == (MDS@[54] as int) * (INV_MDS@[8] as int) + (MDS@[55] as int) * (INV_MDS@[17] as int) + (MDS@[56] as int) * (INV_MDS@[26] as int) + (MDS@[57] as int) * (INV_MDS@[35] as int) + (MDS@[58] as int) * (INV_MDS@[44] as int) + (MDS@[59] as int) * (INV_MDS@[53] as int) + (MDS@[60] as int) * (INV_MDS@[62] as int) + (MDS@[61] as int) * (INV_MDS@[71] as int) + (MDS@[62] as int) * (INV_MDS@[80] as int));
    assert(((MDS@[54] as int) * (INV_MDS@[8] as int) + (MDS@[55] as int) * (INV_MDS@[17] as int) + (MDS@[56] as int) * (INV_MDS@[26] as int) + (MDS@[57] as int) * (INV_MDS@[35] as int) + (MDS@[58] as int) * (INV_MDS@[44] as int) + (MDS@[59] as int) * (INV_MDS@[53] as int) + (MDS@[60] as int) * (INV_MDS@[62] as int) + (MDS@[61] as int) * (INV_MDS@[71] as int) + (MDS@[62] as int) * (INV_MDS@[80] as int)) % 18446744069414584321 == 0) by (nonlinear_arith)
        requires
            MDS@[54] == 8221443041727100385, MDS@[55] == 393559796193809889, MDS@[56] == 17551880528192194831, MDS@[57] == 11029403667917004080, MDS@[58] == 9527404663882352754, MDS@[59] == 15125710629080112088, MDS@[60] == 3464609272919550073, MDS@[61] == 1348518148838494851, MDS@[62] == 7124446528907718334, INV_MDS@[8] == 11912678348383205301, INV_MDS@[17] == 4573631076428555246, INV_MDS@[26] == 3166408246653635427, INV_MDS@[35] == 9027637183994064988, INV_MDS@[44] == 16138972831500780930, INV_MDS@[53] == 4248865481065498700, INV_MDS@[62] == 16126564776654303969, INV_MDS@[71] == 13567037823605465940, INV_MDS@[80] == 11855636989396365731,
    ;
}

proof fn lemma_product_forward_row_7()
    ensures
        identity_row(Elem::modulus(), MDS@, INV_MDS@, 9, 7, 9),
{
    reveal_with_fuel(sum, 10);
    reveal_with_fuel(identity_row, 10);
    assert(product_entry(MDS@, INV_MDS@, 9, 7, 0) == (MDS@[63] as int) * (INV_MDS@[0] as int) + (MDS@[64] as int) * (INV_MDS@[9] as int) + (MDS@[65] as int) * (INV_MDS@[18] as int) + (MDS@[66] as int) * (INV_MDS@[27] as int) + (MDS@[67] as int) * (INV_MDS@[36] as int) + (MDS@[68] as int) * (INV_MDS@[45] as int) + (MDS@[69] as int) * (INV_MDS@[54] as int) + (MDS@[70] as int) * (INV_MDS@[63] as int) + (MDS@[71] as int) * (INV_MDS@[72] as int));
    assert(((MDS@[63] as int) * (INV_MDS@[0] as int) + (MDS@[64] as int) * (INV_MDS@[9] as int) + (MDS@[65] as int) * (INV_MDS@[18] as int) + (MDS@[66] as int) * (INV_MDS@[27] as int) + (MDS@[67] as int) * (INV_MDS@[36] as int) + (MDS@[68] as int) * (INV_MDS@[45] as int) + (MDS@[69] as int) * (INV_MDS@[54] as int) + (MDS@[70] as int) * (INV_MDS@[63] as int) + (MDS@[71] as int) * (INV_MDS@[72] as int)) % 18446744069414584321 == 0) by (nonlinear_arith)
        requires
            MDS@[63] == 16372941063200117221, MDS@[64] == 14810743068666274131, MDS@[65] == 9540729115791359379, MDS@[66] == 236400869707253861, MDS@[67] == 3328476643285920097, MDS@[68] == 1394376324654775198, MDS@[69] == 3244018084586040045, MDS@[70] == 12848315908364988429, MDS@[71] == 12010975199401608924, INV_MDS@[0] == 12539207436065832329, INV_MDS@[9] == 4727195465870018641, INV_MDS@[18] == 736023694432405199, INV_MDS@[27] == 8986700519619826502, INV_MDS@[36] == 4903771519896946287, INV_MDS@[45] == 9097855105810106273, INV_MDS@[54] == 3935402967907460435, INV_MDS@[63] == 14340817518001988765, INV_MDS@[72] == 7153203116068863772,
    ;
    assert(product_entry(MDS@, INV_MDS@, 9, 7, 1) == (MDS@[63] as int) * (INV_MDS@[1] as int) + (MDS@[64] as int) * (INV_MDS@[10] as int) + (MDS@[65] as int) * (INV_MDS@[19] as int) + (MDS@[66] as int) * (INV_MDS@[28] as int) + (MDS@[67] as int) * (INV_MDS@[37] as int) + (MDS@[68] as int) * (INV_MDS@[46] as int) + (MDS@[69] as int) * (INV_MDS@[55] as int) + (MDS@[70] as int) * (INV_MDS@[64] as int) + (MDS@[71] as int) * (INV_MDS@[73] as int));
    assert(((MDS@[63] as int) * (INV_MDS@[1] as int) + (MDS@[64] as int) * (INV_MDS@[10] as int) + (MDS@[65] as int) * (INV_MDS@[19] as int) + (MDS@[66] as int) * (INV_MDS@[28] as int) + (MDS@[67] as int) * (INV_MDS@[37] as int) + (MDS@[68] as int) * (INV_MDS@[46] as int) + (MDS@[69] as int) * (INV_MDS@[55] as int) + (MDS@[70] as int) * (INV_MDS@[64] as int) + (MDS@[71] as int) * (INV_MDS@[73] as int)) % 18446744069414584321 == 0) by (nonlinear_arith)
        requires
            MDS@[63] == 16372941063200117221, MDS@[64] == 14810743068666274131, MDS@[65] == 9540729115791359379, MDS@[66] == 236400869707253861, MDS@[67] == 3328476643285920097, MDS@[68] == 1394376324654775198, MDS@[69] == 3244018084586040045, MDS@[70] == 12848315908364988429, MDS@[71] == 12010975199401608924, INV_MDS@[1] == 12077697399935358608, INV_MDS@[10] == 9920359389887667425, INV_MDS@[19] == 13757068485645773643, INV_MDS@[28] == 9279896563366898378, INV_MDS@[37] == 4880363692783577635, INV_MDS@[46] == 11304812409172332644, INV_MDS@[55] == 6216932751277754590, INV_MDS@[64] == 10854148653441472529, INV_MDS@[73] == 5026931394711878012,
    ;
    assert(product_entry(MDS@, INV_MDS@, 9, 7, 2) == (MDS@[63] as int) * (INV_MDS@[2] as int) + (MDS@[64] as int) * (INV_MDS@[11] as int) + (MDS@[65] as int) * (INV_MDS@[20] as int) + (MDS@[66] as int) * (INV_MDS@[29] as int) + (MDS@[67] as int) * (INV_MDS@[38] as int) + (MDS@[68] as int) * (INV_MDS@[47] as int) + (MDS@[69] as int) * (INV_MDS@[56] as int) + (MDS@[70] as int) * (INV_MDS@[65] as int) + (MDS@[71] as int) * (INV_MDS@[74] as int));
    assert(((MDS@[63] as int) * (INV_MDS@[2] as int) + (MDS@[64] as int) * (INV_MDS@[11] as int) + (MDS@[65] as int) * (INV_MDS@[20] as int) + (MDS@[66] as int) * (INV_MDS@[29] as int) + (MDS@[67] as int) * (INV_MDS@[38] as int) + (MDS@[68] as int) * (INV_MDS@[47] as int) + (MDS@[69] as int) * (INV_MDS@[56] as int) + (MDS@[70] as int) * (INV_MDS@[65] as int) + (MDS@[71] as int) * (INV_MDS@[74] as int)) % 18446744069414584321 == 0) by (nonlinear_arith)
        requires
            MDS@[63] == 16372941063200117221, MDS@[64] == 14810743068666274131, MDS@[65] == 9540729115791359379, MDS@[66] == 236400869707253861, MDS@[67] == 3328476643285920097, MDS@[68] == 1394376324654775198, MDS@[69] == 3244018084586040045, MDS@[70] == 12848315908364988429, MDS@[71] == 12010975199401608924, INV_MDS@[2] == 11489157039865439957, INV_MDS@[11] == 5882185432840443093, INV_MDS@[20] == 8441959758169971861, INV_MDS@[29] == 13003781105377603755, INV_MDS@[38] == 14022866956744736042, INV_MDS@[47] == 5495002765127845140, INV_MDS@[56] == 9244633293430859140, INV_MDS@[65] == 17665873453485278662, INV_MDS@[74] == 7906190408160118526,
    ;
    assert(product_entry(MDS@, INV_MDS@, 9, 7, 3) == (MDS@[63] as int) * (INV_MDS@[3] as int) + (MDS@[64] as int) * (INV_MDS@[12] as int) + (MDS@[65] as int) * (INV_MDS@[21] as int) + (MDS@[66] as int) * (INV_MDS@[30] as int) + (MDS@[67] as int) * (INV_MDS@[39] as int) + (MDS@[68] as int) * (INV_MDS@[48] as int) + (MDS@[69] as int) * (INV_MDS@[57] as int) + (MDS@[70] as int) * (INV_MDS@[66] as int) + (MDS@[71] as int) * (INV_MDS@[75] as int));
    assert(((MDS@[63] as int) * (INV_MDS@[3] as int) + (MDS@[64] as int) * (INV_MDS@[12] as int) + (MDS@[65] as int) * (INV_MDS@[21] as int) + (MDS@[66] as int) * (INV_MDS@[30] as int) + (MDS@[67] as int) * (INV_MDS@[39] as int) + (MDS@[68] as int) * (INV_MDS@[48] as int) + (MDS@[69] as int) * (INV_MDS@[57] as int) + (MDS@[70] as int) * (INV_MDS@[66] as int) + (MDS@[71] as int) * (INV_MDS@[75] as int)) % 18446744069414584321 == 0) by (nonlinear_arith)
        requires
            MDS@[63] == 16372941063200117221, MDS@[64] == 14810743068666274131, MDS@[65] == 9540729115791359379, MDS@[66] == 236400869707253861, MDS@[67] == 3328476643285920097, MDS@[68] == 1394376324654775198, MDS@[69] == 3244018084586040045, MDS@[70] == 12848315908364988429, MDS@[71] == 12010975199401608924, INV_MDS@[3] == 4022295415787053861, INV_MDS@[12] == 17741064004776248473, INV_MDS@[21] == 7555928964926312149, INV_MDS@[30] == 13654842869503478429, INV_MDS@[39] == 1482704328144708807, INV_MDS@[48] == 17349450637489595112, INV_MDS@[57] == 2315497648650709885, INV_MDS@[66] == 9485609402492606939, INV_MDS@[75] == 11498192696621955873,
    ;
    assert(product_entry(MDS@, INV_MDS@, 9, 7, 4) == (MDS@[63] as int) * (INV_MDS@[4] as int) + (MDS@[64] as int) * (INV_MDS@[13] as int) + (MDS@[65] as int) * (INV_MDS@[22] as int) + (MDS@[66] as int) * (INV_MDS@[31] as int) + (MDS@[67] as int) * (INV_MDS@[40] as int) + (MDS@[68] as int) * (INV_MDS@[49] as int) + (MDS@[69] as int) * (INV_MDS@[58] as int) + (MDS@[70] as int) * (INV_MDS@[67] as int) + (MDS@[71] as int) * (INV_MDS@[76] as int));
    assert(((MDS@[63] as int) * (INV_MDS@[4] as int) + (MDS@[64] as int) * (INV_MDS@[13] as int) + (MDS@[65] as int) * (INV_MDS@[22] as int) + (MDS@[66] as int) * (INV_MDS@[31] as int) + (MDS@[67] as int) * (INV_MDS@[40] as int) + (MDS@[68] as int) * (INV_MDS@[49] as int) + (MDS@[69] as int) * (INV_MDS@[58] as int) + (MDS@[70] as int) * (INV_MDS@[67] as int) + (MDS@[71] as int) * (INV_MDS@[76] as int)) % 18446744069414584321 == 0) by (nonlinear_arith)
        requires
            MDS@[63] == 16372941063200117221, MDS@[64] == 14810743068666274131, MDS@[65] == 9540729115791359379, MDS@[66] == 236400869707253861, MDS@[67] == 3328476643285920097, MDS@[68] == 1394376324654775198, MDS@[69] == 3244018084586040045, MDS@[70] == 12848315908364988429, MDS@[71] == 12010975199401608924, INV_MDS@[4] == 3826851271344202700, INV_MDS@[13] == 7911297895002287941, INV_MDS@[22] == 12026351406134197362, INV_MDS@[31] == 6040531618942127052, INV_MDS@[40] == 15556761641939977419, INV_MDS@[49] == 5711132269931307421, INV_MDS@[58] == 11837871652379070246, INV_MDS@[67] == 15595726145931404890, INV_MDS@[76] == 7824129118715884826,
    ;
    assert(product_entry(MDS@, INV_MDS@, 9, 7, 5) == (MDS@[63] as int) * (INV_MDS@[5] as int) + (MDS@[64] as int) * (INV_MDS@[14] as int) + (MDS@[65] as int) * (INV_MDS@[23] as int) + (MDS@[66] as int) * (INV_MDS@[32] as int) + (MDS@[67] as int) * (INV_MDS@[41] as int) + (MDS@[68] as int) * (INV_MDS@[50] as int) + (MDS@[69] as int) * (INV_MDS@[59] as int) + (MDS@[70] as int) * (INV_MDS@[68] as int) + (MDS@[71] as int) * (INV_MDS@[77] as int));
    assert(((MDS@[63] as int) * (INV_MDS@[5] as int) + (MDS@[64] as int) * (INV_MDS@[14] as int) + (MDS@[65] as int) * (INV_MDS@[23] as int) + (MDS@[66] as int) * (INV_MDS@[32] as int) + (MDS@[67] as int) * (INV_MDS@[41] as int) + (MDS@[68] as int) * (INV_MDS@[50] as int) + (MDS@[69] as int) * (INV_MDS@[59] as int) + (MDS@[70] as int) * (INV_MDS@[68] as int) + (MDS@[71] as int) * (INV_MDS@[77] as int)) % 18446744069414584321 == 0) by (nonlinear_arith)
        requires
            MDS@[63] == 16372941063200117221, MDS@[64] == 14810743068666274131, MDS@[65] == 9540729115791359379, MDS@[66] == 236400869707253861, MDS@[67] == 3328476643285920097, MDS@[68] == 1394376324654775198, MDS@[69] == 3244018084586040045, MDS@[70] == 12848315908364988429, MDS@[71] == 12010975199401608924, INV_MDS@[5] == 2762205602142483652, INV_MDS@[14] == 10171341733175619366, INV_MDS@[23] == 7821482727890945600, INV_MDS@[32] == 10790028874759868378, INV_MDS@[41] == 4165101601570367338, INV_MDS@[50] == 12428043081259626558, INV_MDS@[59] == 4914401822520226103, INV_MDS@[68] == 16357593446793026710, INV_MDS@[77] == 361143884638050460,
    ;
    assert(product_entry(MDS@, INV_MDS@, 9, 7, 6) == (MDS@[63] as int) * (INV_MDS@[6] as int) + (MDS@[64] as int) * (INV_MDS@[15] as int) + (MDS@[65] as int) * (INV_MDS@[24] as int) + (MDS@[66] as int) * (INV_MDS@[33] as int) + (MDS@[67] as int) * (INV_MDS@[42] as int) + (MDS@[68] as int) * (INV_MDS@[51] as int) + (MDS@[69] as int) * (INV_MDS@[60] as int) + (MDS@[70] as int) * (INV_MDS@[69] as int) + (MDS@[71] as int) * (INV_MDS@[78] as int));
    assert(((MDS@[63] as int) * (INV_MDS@[6] as int) + (MDS@[64] as int) * (INV_MDS@[15] as int) + (MDS@[65] as int) * (INV_MDS@[24] as int) + (MDS@[66] as int) * (INV_MDS@[33] as int) + (MDS@[67] as int) * (INV_MDS@[42] as int) + (MDS@[68] as int) * (INV_MDS@[51] as int) + (MDS@[69] as int) * (INV_MDS@[60] as int) + (MDS@[70] as int) * (INV_MDS@[69] as int) + (MDS@[71] as int) * (INV_MDS@[78] as int)) % 18446744069414584321 == 0) by (nonlinear_arith)
        requires
            MDS@[63] == 16372941063200117221, MDS@[64] == 14810743068666274131, MDS@[65] == 9540729115791359379, MDS@[66] == 236400869707253861, MDS@[67] == 3328476643285920097, MDS@[68] == 1394376324654775198, MDS@[69] == 3244018084586040045, MDS@[70] == 12848315908364988429, MDS@[71] == 12010975199401608924, INV_MDS@[6] == 4011688063434574022, INV_MDS@[15] == 2083657376480454673, INV_MDS@[24] == 12585455291860344, INV_MDS@[33] == 13470778785726456026, INV_MDS@[42] == 5642321549502873499, INV_MDS@[51] == 1120990037650345611, INV_MDS@[60] == 4327473378007705992, INV_MDS@[69] == 15060277806204701300, INV_MDS@[78] == 15105352412984880743,
    ;
    assert(product_entry(MDS@, INV_MDS@, 9, 7, 7) == (MDS@[63] as int) * (INV_MDS@[7] as int) + (MDS@[64] as int) * (INV_MDS@[16] as int) + (MDS@[65] as int) * (INV_MDS@[25] as int) + (MDS@[66] as int) * (INV_MDS@[34] as int) + (MDS@[67] as int) * (INV_MDS@[43] as int) + (MDS@[68] as int) * (INV_MDS@[52] as int) + (MDS@[69] as int) * (INV_MDS@[61] as int) + (MDS@[70] as int) * (INV_MDS@[70] as int) + (MDS@[71] as int) * (INV_MDS@[79] as int));
    assert(((MDS@[63] as int) * (INV_MDS@[7] as int) + (MDS@[64] as int) * (INV_MDS@[16] as int) + (MDS@[65] as int) * (INV_MDS@[25] as int) + (MDS@[66] as int) * (INV_MDS@[34] as int) + (MDS@[67] as int) * (INV_MDS@[43] as int) + (MDS@[68] as int) * (INV_MDS@[52] as int) + (MDS@[69] as int) * (INV_MDS@[61] as int) + (MDS@[70] as int) * (INV_MDS@[70] as int) + (MDS@[71] as int) * (INV_MDS@[79] as int)) % 18446744069414584321 == 1) by (nonlinear_arith)
        requires
            MDS@[63] == 16372941063200117221, MDS@[64] == 14810743068666274131, MDS@[65] == 9540729115791359379, MDS@[66] == 236400869707253861, MDS@[67] == 3328476643285920097, MDS@[68] == 1394376324654775198, MDS@[69] == 3244018084586040045, MDS@[70] == 12848315908364988429, MDS@[71] == 12010975199401608924, INV_MDS@[7] == 11145195700700186855, INV_MDS@[16] == 10776243903197042427, INV_MDS@[25] == 1822423469098651379, INV_MDS@[34] == 7979522825782598098, INV_MDS@[43] == 6994112155574369328, INV_MDS@[52] == 7030824490151679826, INV_MDS@[61] == 14868197986830246925, INV_MDS@[70] == 16200124235946144513, INV_MDS@[79] == 7056196256360339342,
    ;
    assert(product_entry(MDS@, INV_MDS@, 9, 7, 8) == (MDS@[63] as int) * (INV_MDS@[8] as int) + (MDS@[64] as int) * (INV_MDS@[17] as int) + (MDS@[65] as int) * (INV_MDS@[26] as int) + (MDS@[66] as int) * (INV_MDS@[35] as int) + (MDS@[67] as int) * (INV_MDS@[44] as int) + (MDS@[68] as int) * (INV_MDS@[53] as int) + (MDS@[69] as int) * (INV_MDS@[62] as int) + (MDS@[70] as int) * (INV_MDS@[71] as int) + (MDS@[71] as int) * (INV_MDS@[80] as int));
    assert(((MDS@[63] as int) * (INV_MDS@[8] as int) + (MDS@[64] as int) * (INV_MDS@[17] as int) + (MDS@[65] as int) * (INV_MDS@[26] as int) + (MDS@[66] as int) * (INV_MDS@[35] as int) + (MDS@[67] as int) * (INV_MDS@[44] as int) + (MDS@[68] as int) * (INV_MDS@[53] as int) + (MDS@[69] as int) * (INV_MDS@[62] as int) + (MDS@[70] as int) * (INV_MDS@[71] as int) + (MDS@[71] as int) * (INV_MDS@[80] as int)) % 18446744069414584321 == 0) by (nonlinear_arith)
        requires
            MDS@[63] == 16372941063200117221, MDS@[64] == 14810743068666274131, MDS@[65] == 9540729115791359379, MDS@[66] == 236400869707253861, MDS@[67] == 3328476643285920097, MDS@[68] == 1394376324654775198, MDS@[69] == 3244018084586040045, MDS@[70] == 12848315908364988429, MDS@[71] == 12010975199401608924, INV_MDS@[8] == 11912678348383205301, INV_MDS@[17] == 4573631076428555246, INV_MDS@[26] == 3166408246653635427, INV_MDS@[35] == 9027637183994064988, INV_MDS@[44] == 16138972831500780930, INV_MDS@[53] == 4248865481065498700, INV_MDS@[62] == 16126564776654303969, INV_MDS@[71] == 13567037823605465940, INV_MDS@[80] == 11855636989396365731,
    ;
}

proof fn lemma_product_forward_row_8()
    ensures
        identity_row(Elem::modulus(), MDS@, INV_MDS@, 9, 8, 9),
{
    reveal_with_fuel(sum, 10);
    reveal_with_fuel(identity_row, 10);
    assert(product_entry(MDS@, INV_MDS@, 9, 8, 0) == (MDS@[72] as int) * (INV_MDS@[0] as int) + (MDS@[73] as int) * (INV_MDS@[9] as int) + (MDS@[74] as int) * (INV_MDS@[18] as int) + (MDS@[75] as int) * (INV_MDS@[27] as int) + (MDS@[76] as int) * (INV_MDS@[36] as int) + (MDS@[77] as int) * (INV_MDS@[45] as int) + (MDS@[78] as int) * (INV_MDS@[54] as int) + (MDS@[79] as int) * (INV_MDS@[63] as int) + (MDS@[80] as int) * (INV_MDS@[72] as int));
    assert(((MDS@[72] as int) * (INV_MDS@[0] as int) + (MDS@[73] as int) * (INV_MDS@[9] as int) + (MDS@[74] as int) * (INV_MDS@[18] as int) + (MDS@[75] as int) * (INV_MDS@[27] as int) + (MDS@[76] as int) * (INV_MDS@[36] as int) + (MDS@[77] as int) * (INV_MDS@[45] as int) + (MDS@[78] as int) * (INV_MDS@[54] as int) + (MDS@[79] as int) * (INV_MDS@[63] as int) + (MDS@[80] as int) * (INV_MDS@[72] as int)) % 18446744069414584321 == 0) by (nonlinear_arith)
        requires
            MDS@[72] == 12859139447927245406, MDS@[73] == 11343755749076409967, MDS@[74] == 12009542032810910684, MDS@[75] == 10555036868816319109, MDS@[76] == 2382032143833076836, MDS@[77] == 1483676889877496082, MDS@[78] == 16425558919997587467, MDS@[79] == 7912680464088162810, MDS@[80] == 17262297830645713245, INV_MDS@[0] == 12539207436065832329, INV_MDS@[9] == 4727195465870018641, INV_MDS@[18] == 736023694432405199, INV_MDS@[27] == 8986700519619826502, INV_MDS@[36] == 4903771519896946287, INV_MDS@[45] == 9097855105810106273, INV_MDS@[54] == 3935402967907460435, INV_MDS@[63] == 14340817518001988765, INV_MDS@[72] == 7153203116068863772,
    ;
    assert(product_entry(MDS@, INV_MDS@, 9, 8, 1) == (MDS@[72] as int) * (INV_MDS@[1] as int) + (MDS@[73] as int) * (INV_MDS@[10] as int) + (MDS@[74] as int) * (INV_MDS@[19] as int) + (MDS@[75] as int) * (INV_MDS@[28] as int) + (MDS@[76] as int) * (INV_MDS@[37] as int) + (MDS@[77] as int) * (INV_MDS@[46] as int) + (MDS@[78] as int) * (INV_MDS@[55] as int) + (MDS@[79] as int) * (INV_MDS@[64] as int) + (MDS@[80] as int) * (INV_MDS@[73] as int));
    assert(((MDS@[72] as int) * (INV_MDS@[1] as int) + (MDS@[73] as int) * (INV_MDS@[10] as int) + (MDS@[74] as int) * (INV_MDS@[19] as int) + (MDS@[75] as int) * (INV_MDS@[28] as int) + (MDS@[76] as int) * (INV_MDS@[37] as int) + (MDS@[77] as int) * (INV_MDS@[46] as int) + (MDS@[78] as int) * (INV_MDS@[55] as int) + (MDS@[79] as int) * (INV_MDS@[64] as int) + (MDS@[80] as int) * (INV_MDS@[73] as int)) % 18446744069414584321 == 0) by (nonlinear_arith)
        requires
            MDS@[72] == 12859139447927245406, MDS@[73] == 11343755749076409967, MDS@[74] == 12009542032810910684, MDS@[75] == 10555036868816319109, MDS@[76] == 2382032143833076836, MDS@[77] == 1483676889877496082, MDS@[78] == 16425558919997587467, MDS@[79] == 7912680464088162810, MDS@[80] == 17262297830645713245, INV_MDS@[1] == 12077697399935358608, INV_MDS@[10] == 9920359389887667425, INV_MDS@[19] == 13757068485645773643, INV_MDS@[28] == 9279896563366898378, INV_MDS@[37] == 4880363692783577635, INV_MDS@[46] == 11304812409172332644, INV_MDS@[55] == 6216932751277754590, INV_MDS@[64] == 10854148653441472529, INV_MDS@[73] == 5026931394711878012,
    ;
    assert(product_entry(MDS@, INV_MDS@, 9, 8, 2) == (MDS@[72] as int) * (INV_MDS@[2] as int) + (MDS@[73] as int) * (INV_MDS@[11] as int) + (MDS@[74] as int) * (INV_MDS@[20] as int) + (MDS@[75] as int) * (INV_MDS@[29] as int) + (MDS@[76] as int) * (INV_MDS@[38] as int) + (MDS@[77] as int) * (INV_MDS@[47] as int) + (MDS@[78] as int) * (INV_MDS@[56] as int) + (MDS@[79] as int) * (INV_MDS@[65] as int) + (MDS@[80] as int) * (INV_MDS@[74] as int));
    assert(((MDS@[72] as int) * (INV_MDS@[2] as int) + (MDS@[73] as int) * (INV_MDS@[11] as int) + (MDS@[74] as int) * (INV_MDS@[20] as int) + (MDS@[75] as int) * (INV_MDS@[29] as int) + (MDS@[76] as int) * (INV_MDS@[38] as int) + (MDS@[77] as int) * (INV_MDS@[47] as int) + (MDS@[78] as int) * (INV_MDS@[56] as int) + (MDS@[79] as int) * (INV_MDS@[65] as int) + (MDS@[80] as int) * (INV_MDS@[74] as int)) % 18446744069414584321 == 0) by (nonlinear_arith)
        requires
            MDS@[72] == 12859139447927245406, MDS@[73] == 11343755749076409967, MDS@[74] == 12009542032810910684, MDS@[75] == 10555036868816319109, MDS@[76] == 2382032143833076836, MDS@[77] == 1483676889877496082, MDS@[78] == 16425558919997587467, MDS@[79] == 7912680464088162810, MDS@[80] == 17262297830645713245, INV_MDS@[2] == 11489157039865439957, INV_MDS@[11] == 5882185432840443093, INV_MDS@[20] == 8441959758169971861, INV_MDS@[29] == 13003781105377603755, INV_MDS@[38] == 14022866956744736042, INV_MDS@[47] == 5495002765127845140, INV_MDS@[56] == 9244633293430859140, INV_MDS@[65] == 17665873453485278662, INV_MDS@[74] == 7906190408160118526,
    ;
    assert(product_entry(MDS@, INV_MDS@, 9, 8, 3) == (MDS@[72] as int) * (INV_MDS@[3] as int) + (MDS@[73] as int) * (INV_MDS@[12] as int) + (MDS@[74] as int) * (INV_MDS@[21] as int) + (MDS@[75] as int) * (INV_MDS@[30] as int) + (MDS@[76] as int) * (INV_MDS@[39] as int) + (MDS@[77] as int) * (INV_MDS@[48] as int) + (MDS@[78] as int) * (INV_MDS@[57] as int) + (MDS@[79] as int) * (INV_MDS@[66] as int) + (MDS@[80] as int) * (INV_MDS@[75] as int));
    assert(((MDS@[72] as int) * (INV_MDS@[3] as int) + (MDS@[73] as int) * (INV_MDS@[12] as int) + (MDS@[74] as int) * (INV_MDS@[21] as int) + (MDS@[75] as int) * (INV_MDS@[30] as int) + (MDS@[76] as int) * (INV_MDS@[39] as int) + (MDS@[77] as int) * (INV_MDS@[48] as int) + (MDS@[78] as int) * (INV_MDS@[57] as int) + (MDS@[79] as int) * (INV_MDS@[66] as int) + (MDS@[80] as int) * (INV_MDS@[75] as int)) % 18446744069414584321 == 0) by (nonlinear_arith)
        requires
            MDS@[72] == 12859139447927245406, MDS@[73] == 11343755749076409967, MDS@[74] == 12009542032810910684, MDS@[75] == 10555036868816319109, MDS@[76] == 2382032143833076836, MDS@[77] == 1483676889877496082, MDS@[78] == 16425558919997587467, MDS@[79] == 7912680464088162810, MDS@[80] == 17262297830645713245, INV_MDS@[3] == 4022295415787053861, INV_MDS@[12] == 17741064004776248473, INV_MDS@[21] == 7555928964926312149, INV_MDS@[30] == 13654842869503478429, INV_MDS@[39] == 1482704328144708807, INV_MDS@[48] == 17349450637489595112, INV_MDS@[57] == 2315497648650709885, INV_MDS@[66] == 9485609402492606939, INV_MDS@[75] == 11498192696621955873,
    ;
    assert(product_entry(MDS@, INV_MDS@, 9, 8, 4) == (MDS@[72] as int) * (INV_MDS@[4] as int) + (MDS@[73] as int) * (INV_MDS@[13] as int) + (MDS@[74] as int) * (INV_MDS@[22] as int) + (MDS@[75] as int) * (INV_MDS@[31] as int) + (MDS@[76] as int) * (INV_MDS@[40] as int) + (MDS@[77] as int) * (INV_MDS@[49] as int) + (MDS@[78] as int) * (INV_MDS@[58] as int) + (MDS@[79] as int) * (INV_MDS@[67] as int) + (MDS@[80] as int) * (INV_MDS@[76] as int));
    assert(((MDS@[72] as int) * (INV_MDS@[4] as int) + (MDS@[73] as int) * (INV_MDS@[13] as int) + (MDS@[74] as int) * (INV_MDS@[22] as int) + (MDS@[75] as int) * (INV_MDS@[31] as int) + (MDS@[76] as int) * (INV_MDS@[40] as int) + (MDS@[77] as int) * (INV_MDS@[49] as int) + (MDS@[78] as int) * (INV_MDS@[58] as int) + (MDS@[79] as int) * (INV_MDS@[67] as int) + (MDS@[80] as int) * (INV_MDS@[76] as int)) % 18446744069414584321 == 0) by (nonlinear_arith)
        requires
            MDS@[72] == 12859139447927245406, MDS@[73] == 11343755749076409967, MDS@[74] == 12009542032810910684, MDS@[75] == 10555036868816319109, MDS@[76] == 2382032143833076836, MDS@[77] == 1483676889877496082, MDS@[78] == 16425558919997587467, MDS@[79] == 7912680464088162810, MDS@[80] == 17262297830645713245, INV_MDS@[4] == 3826851271344202700, INV_MDS@[13] == 7911297895002287941, INV_MDS@[22] == 12026351406134197362, INV_MDS@[31] == 6040531618942127052, INV_MDS@[40] == 15556761641939977419, INV_MDS@[49] == 5711132269931307421, INV_MDS@[58] == 11837871652379070246, INV_MDS@[67] == 15595726145931404890, INV_MDS@[76] == 7824129118715884826,
    ;
    assert(product_entry(MDS@, INV_MDS@, 9, 8, 5) == (MDS@[72] as int) * (INV_MDS@[5] as int) + (MDS@[73] as int) * (INV_MDS@[14] as int) + (MDS@[74] as int) * (INV_MDS@[23] as int) + (MDS@[75] as int) * (INV_MDS@[32] as int) + (MDS@[76] as int) * (INV_MDS@[41] as int) + (MDS@[77] as int) * (INV_MDS@[50] as int) + (MDS@[78] as int) * (INV_MDS@[59] as int) + (MDS@[79] as int) * (INV_MDS@[68] as int) + (MDS@[80] as int) * (INV_MDS@[77] as int));
    assert(((MDS@[72] as int) * (INV_MDS@[5] as int) + (MDS@[73] as int) * (INV_MDS@[14] as int) + (MDS@[74] as int) * (INV_MDS@[23] as int) + (MDS@[75] as int) * (INV_MDS@[32] as int) + (MDS@[76] as int) * (INV_MDS@[41] as int) + (MDS@[77] as int) * (INV_MDS@[50] as int) + (MDS@[78] as int) * (INV_MDS@[59] as int) + (MDS@[79] as int) * (INV_MDS@[68] as int) + (MDS@[80] as int) * (INV_MDS@[77] as int)) % 18446744069414584321 == 0) by (nonlinear_arith)
        requires
            MDS@[72] == 12859139447927245406, MDS@[73] == 11343755749076409967, MDS@[74] == 12009542032810910684, MDS@[75] == 10555036868816319109, MDS@[76] == 2382032143833076836, MDS@[77] == 1483676889877496082, MDS@[78] == 16425558919997587467, MDS@[79] == 7912680464088162810, MDS@[80] == 17262297830645713245, INV_MDS@[5] == 2762205602142483652, INV_MDS@[14] == 10171341733175619366, INV_MDS@[23] == 7821482727890945600, INV_MDS@[32] == 10790028874759868378, INV_MDS@[41] == 4165101601570367338, INV_MDS@[50] == 12428043081259626558, INV_MDS@[59] == 4914401822520226103, INV_MDS@[68] == 16357593446793026710, INV_MDS@[77] == 361143884638050460,
    ;
    assert(product_entry(MDS@, INV_MDS@, 9, 8, 6) == (MDS@[72] as int) * (INV_MDS@[6] as int) + (MDS@[73] as int) * (INV_MDS@[15] as int) + (MDS@[74] as int) * (INV_MDS@[24] as int) + (MDS@[75] as int) * (INV_MDS@[33] as int) + (MDS@[76] as int) * (INV_MDS@[42] as int) + (MDS@[77] as int) * (INV_MDS@[51] as int) + (MDS@[78] as int) * (INV_MDS@[60] as int) + (MDS@[79] as int) * (INV_MDS@[69] as int) + (MDS@[80] as int) * (INV_MDS@[78] as int));
    assert(((MDS@[72] as int) * (INV_MDS@[6] as int) + (MDS@[73] as int) * (INV_MDS@[15] as int) + (MDS@[74] as int) * (INV_MDS@[24] as int) + (MDS@[75] as int) * (INV_MDS@[33] as int) + (MDS@[76] as int) * (INV_MDS@[42] as int) + (MDS@[77] as int) * (INV_MDS@[51] as int) + (MDS@[78] as int) * (INV_MDS@[60] as int) + (MDS@[79] as int) * (INV_MDS@[69] as int) + (MDS@[80] as int) * (INV_MDS@[78] as int)) % 18446744069414584321 == 0) by (nonlinear_arith)
        requires
            MDS@[72] == 12859139447927245406, MDS@[73] == 11343755749076409967, MDS@[74] == 12009542032810910684, MDS@[75] == 10555036868816319109, MDS@[76] == 2382032143833076836, MDS@[77] == 1483676889877496082, MDS@[78] == 16425558919997587467, MDS@[79] == 7912680464088162810, MDS@[80] == 17262297830645713245, INV_MDS@[6] == 4011688063434574022, INV_MDS@[15] == 2083657376480454673, INV_MDS@[24] == 12585455291860344, INV_MDS@[33] == 13470778785726456026, INV_MDS@[42] == 5642321549502873499, INV_MDS@[51] == 1120990037650345611, INV_MDS@[60] == 4327473378007705992, INV_MDS@[69] == 15060277806204701300, INV_MDS@[78] == 15105352412984880743,
    ;
    assert(product_entry(MDS@, INV_MDS@, 9, 8, 7) == (MDS@[72] as int) * (INV_MDS@[7] as int) + (MDS@[73] as int) * (INV_MDS@[16] as int) + (MDS@[74] as int) * (INV_MDS@[25] as int) + (MDS@[75] as int) * (INV_MDS@[34] as int) + (MDS@[76] as int) * (INV_MDS@[43] as int) + (MDS@[77] as int) * (INV_MDS@[52] as int) + (MDS@[78] as int) * (INV_MDS@[61] as int) + (MDS@[79] as int) * (INV_MDS@[70] as int) + (MDS@[80] as int) * (INV_MDS@[79] as int));
    assert(((MDS@[72] as int) * (INV_MDS@[7] as int) + (MDS@[73] as int) * (INV_MDS@[16] as int) + (MDS@[74] as int) * (INV_MDS@[25] as int) + (MDS@[75] as int) * (INV_MDS@[34] as int) + (MDS@[76] as int) * (INV_MDS@[43] as int) + (MDS@[77] as int) * (INV_MDS@[52] as int) + (MDS@[78] as int) * (INV_MDS@[61] as int) + (MDS@[79] as int) * (INV_MDS@[70] as int) + (MDS@[80] as int) * (INV_MDS@[79] as int)) % 18446744069414584321 == 0) by (nonlinear_arith)
        requires
            MDS@[72] == 12859139447927245406, MDS@[73] == 11343755749076409967, MDS@[74] == 12009542032810910684, MDS@[75] == 10555036868816319109, MDS@[76] == 2382032143833076836, MDS@[77] == 1483676889877496082, MDS@[78] == 16425558919997587467, MDS@[79] == 7912680464088162810, MDS@[80] == 17262297830645713245, INV_MDS@[7] == 11145195700700186855, INV_MDS@[16] == 10776243903197042427, INV_MDS@[25] == 1822423469098651379, INV_MDS@[34] == 7979522825782598098, INV_MDS@[43] == 6994112155574369328, INV_MDS@[52] == 7030824490151679826, INV_MDS@[61] == 14868197986830246925, INV_MDS@[70] == 16200124235946144513, INV_MDS@[79] == 7056196256360339342,
    ;
    assert(product_entry(MDS@, INV_MDS@, 9, 8, 8) == (MDS@[72] as int) * (INV_MDS@[8] as int) + (MDS@[73] as int) * (INV_MDS@[17] as int) + (MDS@[74] as int) * (INV_MDS@[26] as int) + (MDS@[75] as int) * (INV_MDS@[35] as int) + (MDS@[76] as int) * (INV_MDS@[44] as int) + (MDS@[77] as int) * (INV_MDS@[53] as int) + (MDS@[78] as int) * (INV_MDS@[62] as int) + (MDS@[79] as int) * (INV_MDS@[71] as int) + (MDS@[80] as int) * (INV_MDS@[80] as int));
    assert(((MDS@[72] as int) * (INV_MDS@[8] as int) + (MDS@[73] as int) * (INV_MDS@[17] as int) + (MDS@[74] as int) * (INV_MDS@[26] as int) + (MDS@[75] as int) * (INV_MDS@[35] as int) + (MDS@[76] as int) * (INV_MDS@[44] as int) + (MDS@[77] as int) * (INV_MDS@[53] as int) + (MDS@[78] as int) * (INV_MDS@[62] as int) + (MDS@[79] as int) * (INV_MDS@[71] as int) + (MDS@[80] as int) * (INV_MDS@[80] as int)) % 18446744069414584321 == 1) by (nonlinear_arith)
        requires
            MDS@[72] == 12859139447927245406, MDS@[73] == 11343755749076409967, MDS@[74] == 12009542032810910684, MDS@[75] == 10555036868816319109, MDS@[76] == 2382032143833076836, MDS@[77] == 1483676889877496082, MDS@[78] == 16425558919997587467, MDS@[79] == 7912680464088162810, MDS@[80] == 17262297830645713245, INV_MDS@[8] == 11912678348383205301, INV_MDS@[17] == 4573631076428555246, INV_MDS@[26] == 3166408246653635427, INV_MDS@[35] == 9027637183994064988, INV_MDS@[44] == 16138972831500780930, INV_MDS@[53] == 4248865481065498700, INV_MDS@[62] == 16126564776654303969, INV_MDS@[71] == 13567037823605465940, INV_MDS@[80] == 11855636989396365731,
    ;
}

proof fn lemma_product_forward()
    ensures
        product_is_identity(Elem::modulus(), MDS@, INV_MDS@, 9),
{
    lemma_product_forward_row_0();
    lemma_product_forward_row_1();
    lemma_product_forward_row_2();
    lemma_product_forward_row_3();
    lemma_product_forward_row_4();
    lemma_product_forward_row_5();
    lemma_product_forward_row_6();
    lemma_product_forward_row_7();
    lemma_product_forward_row_8();
    reveal_with_fuel(identity_rows, 10);
    assert(identity_rows(Elem::modulus(), MDS@, INV_MDS@, 9, 9));
    lemma_identity_rows(Elem::modulus(), MDS@, INV_MDS@, 9);
}

proof fn lemma_product_backward_row_0()
    ensures
        identity_row(Elem::modulus(), INV_MDS@, MDS@, 9, 0, 9),
{
    reveal_with_fuel(sum, 10);
    reveal_with_fuel(identity_row, 10);
    assert(product_entry(INV_MDS@, MDS@, 9, 0, 0) == (INV_MDS@[0] as int) * (MDS@[0] as int) + (INV_MDS@[1] as int) * (MDS@[9] as int) + (INV_MDS@[2] as int) * (MDS@[18] as int) + (INV_MDS@[3] as int) * (MDS@[27] as int) + (INV_MDS@[4] as int) * (MDS@[36] as int) + (INV_MDS@[5] as int) * (MDS@[45] as int) + (INV_MDS@[6] as int) * (MDS@[54] as int) + (INV_MDS@[7] as int) * (MDS@[63] as int) + (INV_MDS@[8] as int) * (MDS@[72] as int));
    assert(((INV_MDS@[0] as int) * (MDS@[0] as int) + (INV_MDS@[1] as int) * (MDS@[9] as int) + (INV_MDS@[2] as int) * (MDS@[18] as int) + (INV_MDS@[3] as int) * (MDS@[27] as int) + (INV_MDS@[4] as int) * (MDS@[36] as int) + (INV_MDS@[5] as int) * (MDS@[45] as int) + (INV_MDS@[6] as int) * (MDS@[54] as int) + (INV_MDS@[7] as int) * (MDS@[63] as int) + (INV_MDS@[8] as int) * (MDS@[72] as int)) % 18446744069414584321 == 1) by (nonlinear_arith)
        requires
            INV_MDS@[0] == 12539207436065832329, INV_MDS@[1] == 12077697399935358608, INV_MDS@[2] == 11489157039865439957, INV_MDS@[3] == 4022295415787053861, INV_MDS@[4] == 3826851271344202700, INV_MDS@[5] == 2762205602142483652, INV_MDS@[6] == 4011688063434574022, INV_MDS@[7] == 11145195700700186855, INV_MDS@[8] == 11912678348383205301, MDS@[0] == 15911754940807515092, MDS@[9] == 4000831318486715337, MDS@[18] == 12880740554289902608, MDS@[27] == 8444280502348543928, MDS@[36] == 14334129791615145359, MDS@[45] == 12274638267902752934, MDS@[54] == 8221443041727100385, MDS@[63] == 16372941063200117221, MDS@[72] == 12859139447927245406,
    ;
    assert(product_entry(INV_MDS@, MDS@, 9, 0, 1) == (INV_MDS@[0] as int) * (MDS@[1] as int) + (INV_MDS@[1] as int) * (MDS@[10] as int) + (INV_MDS@[2] as int) * (MDS@[19] as int) + (INV_MDS@[3] as int) * (MDS@[28] as int) + (INV_MDS@[4] as int) * (MDS@[37] as int) + (INV_MDS@[5] as int) * (MDS@[46] as int) + (INV_MDS@[6] as int) * (MDS@[55] as int) + (INV_MDS@[7] as int) * (MDS@[64] as int) + (INV_MDS@[8] as int) * (MDS@[73] as int));
    assert(((INV_MDS@[0] as int) * (MDS@[1] as int) + (INV_MDS@[1] as int) * (MDS@[10] as int) + (INV_MDS@[2] as int) * (MDS@[19] as int) + (INV_MDS@[3] as int) * (MDS@[28] as int) + (INV_MDS@[4] as int) * (MDS@[37] as int) + (INV_MDS@[5] as int) * (MDS@[46] as int) + (INV_MDS@[6] as int) * (MDS@[55] as int) + (INV_MDS@[7] as int) * (MDS@[64] as int) + (INV_MDS@[8] as int) * (MDS@[73] as int)) % 18446744069414584321 == 0) by (nonlinear_arith)
        requires
            INV_MDS@[0] == 12539207436065832329, INV_MDS@[1] == 12077697399935358608, INV_MDS@[2] == 11489157039865439957, INV_MDS@[3] == 4022295415787053861, INV_MDS@[4] == 3826851271344202700, INV_MDS@[5] == 2762205602142483652, INV_MDS@[6] == 4011688063434574022, INV_MDS@[7] == 11145195700700186855, INV_MDS@[8] == 11912678348383205301, MDS@[1] == 2711892286355972158, MDS@[10] == 13866593699749449226, MDS@[19] == 10736257011154062521, MDS@[28] == 18063596406833757604, MDS@[37] == 2684393531687652704, MDS@[46] == 10320521705305529889, MDS@[55] == 393559796193809889, MDS@[64] == 14810743068666274131, MDS@[73] == 11343755749076409967,
    ;
    assert(product_entry(INV_MDS@, MDS@, 9, 0, 2) == (INV_MDS@[0] as int) * (MDS@[2] as int) + (INV_MDS@[1] as int) * (MDS@[11] as int) + (INV_MDS@[2] as int) * (MDS@[20] as int) + (INV_MDS@[3] as int) * (MDS@[29] as int) + (INV_MDS@[4] as int) * (MDS@[38] as int) + (INV_MDS@[5] as int) * (MDS@[47] as int) + (INV_MDS@[6] as int) * (MDS@[56] as int) + (INV_MDS@[7] as int) * (MDS@[65] as int) + (INV_MDS@[8] as int) * (MDS@[74] as int));
    assert(((INV_MDS@[0] as int) * (MDS@[2] as int) + (INV_MDS@[1] as int) * (MDS@[11] as int) + (INV_MDS@[2] as int) * (MDS@[20] as int) + (INV_MDS@[3] as int) * (MDS@[29] as int) + (INV_MDS@[4] as int) * (MDS@[38] as int) + (INV_MDS@[5] as int) * (MDS@[47] as int) + (INV_MDS@[6] as int) * (MDS@[56] as int) + (INV_MDS@[7] as int) * (MDS@[65] as int) + (INV_MDS@[8] as int) * (MDS@[74] as int)) % 18446744069414584321 == 0) by (nonlinear_arith)
        requires
            INV_MDS@[0] == 12539207436065832329, INV_MDS@[1] == 12077697399935358608, INV_MDS@[2] == 11489157039865439957, INV_MDS@[3] == 4022295415787053861, INV_MDS@[4] == 3826851271344202700, INV_MDS@[5] == 2762205602142483652, INV_MDS@[6] == 4011688063434574022, INV_MDS@[7] == 11145195700700186855, INV_MDS@[8] == 11912678348383205301, MDS@[2] == 17150989262161941497, MDS@[11] == 12844960428353252001, MDS@[20] == 9684835675499922946, MDS@[29] == 1023367824000313667, MDS@[38] == 9102699125972580966, MDS@[47] == 534382282294584005, MDS@[56] == 17551880528192194831, MDS@[65] == 9540729115791359379, MDS@[74] == 12009542032810910684,
    ;
    assert(product_entry(INV_MDS@, MDS@, 9, 0, 3) == (INV_MDS@[0] as int) * (MDS@[3] as int) + (INV_MDS@[1] as int) * (MDS@[12] as int) + (INV_MDS@[2] as int) * (MDS@[21] as int) + (INV_MDS@[3] as int) * (MDS@[30] as int) + (INV_MDS@[4] as int) * (MDS@[39] as int) + (INV_MDS@[5] as int) * (MDS@[48] as int) + (INV_MDS@[6] as int) * (MDS@[57] as int) + (INV_MDS@[7] as int) * (MDS@[66] as int) + (INV_MDS@[8] as int) * (MDS@[75] as int));
    assert(((INV_MDS@[0] as int) * (MDS@[3] as int) + (INV_MDS@[1] as int) * (MDS@[12] as int) + (INV_MDS@[2] as int) * (MDS@[21] as int) + (INV_MDS@[3] as int) * (MDS@[30] as int) + (INV_MDS@[4] as int) * (MDS@[39] as int) + (INV_MDS@[5] as int) * (MDS@[48] as int) + (INV_MDS@[6] as int) * (MDS@[57] as int) + (INV_MDS@[7] as int) * (MDS@[66] as int) + (INV_MDS@[8] as int) * (MDS@[75] as int)) % 18446744069414584321 == 0) by (nonlinear_arith)
        requires
            INV_MDS@[0] == 12539207436065832329, INV_MDS@[1] == 12077697399935358608, INV_MDS@[2] == 11489157039865439957, INV_MDS@[3] == 4022295415787053861, INV_MDS@[4] == 3826851271344202700, INV_MDS@[5] == 2762205602142483652, INV_MDS@[6] == 4011688063434574022, INV_MDS@[7] == 11145195700700186855, INV_MDS@[8] == 11912678348383205301, MDS@[3] == 1745852583430594377, MDS@[12] == 582714116362056623, MDS@[21] == 17726787349382971757, MDS@[30] == 17098225262737701178, MDS@[39] == 6899282244058680396, MDS@[48] == 9894417991995566363, MDS@[57] == 11029403667917004080, MDS@[66] == 236400869707253861, MDS@[75] == 10555036868816319109,
    ;
    assert(product_entry(INV_MDS@, MDS@, 9, 0, 4) == (INV_MDS@[0] as int) * (MDS@[4] as int) + (INV_MDS@[1] as int) * (MDS@[13] as int) + (INV_MDS@[2] as int) * (MDS@[22] as int) + (INV_MDS@[3] as int) * (MDS@[31] as int) + (INV_MDS@[4] as int) * (MDS@[40] as int) + (INV_MDS@[5] as int) * (MDS@[49] as int) + (INV_MDS@[6] as int) * (MDS@[58] as int) + (INV_MDS@[7] as int) * (MDS@[67] as int) + (INV_MDS@[8] as int) * (MDS@[76] as int));
    assert(((INV_MDS@[0] as int) * (MDS@[4] as int) + (INV_MDS@[1] as int) * (MDS@[13] as int) + (INV_MDS@[2] as int) * (MDS@[22] as int) + (INV_MDS@[3] as int) * (MDS@[31] as int) + (INV_MDS@[4] as int) * (MDS@[40] as int) + (INV_MDS@[5] as int) * (MDS@[49] as int) + (INV_MDS@[6] as int) * (MDS@[58] as int) + (INV_MDS@[7] as int) * (MDS@[67] as int) + (INV_MDS@[8] as int) * (MDS@[76] as int)) % 18446744069414584321 == 0) by (nonlinear_arith)
        requires
            INV_MDS@[0] == 12539207436065832329, INV_MDS@[1] == 12077697399935358608, INV_MDS@[2] == 11489157039865439957, INV_MDS@[3] == 4022295415787053861, INV_MDS@[4] == 3826851271344202700, INV_MDS@[5] == 2762205602142483652, INV_MDS@[6] == 4011688063434574022, INV_MDS@[7] == 11145195700700186855, INV_MDS@[8] == 11912678348383205301, MDS@[4] == 565355451240421748, MDS@[13] == 3366018464571614479, MDS@[22] == 3129880678747094218, MDS@[31] == 13698883994234477975, MDS@[40] == 7336899618183924238, MDS@[49] == 18390808178506636504, MDS@[58] == 9527404663882352754, MDS@[67] == 3328476643285920097, MDS@[76] == 2382032143833076836,
    ;
    assert(product_entry(INV_MDS@, MDS@, 9, 0, 5) == (INV_MDS@[0] as int) * (MDS@[5] as int) + (INV_MDS@[1] as int) * (MDS@[14] as int) + (INV_MDS@[2] as int) * (MDS@[23] as int) + (INV_MDS@[3] as int) * (MDS@[32] as int) + (INV_MDS@[4] as int) * (MDS@[41] as int) + (INV_MDS@[5] as int) * (MDS@[50] as int) + (INV_MDS@[6] as int) * (MDS@[59] as int) + (INV_MDS@[7] as int) * (MDS@[68] as int) + (INV_MDS@[8] as int) * (MDS@[77] as int));
    assert(((INV_MDS@[0] as int) * (MDS@[5] as int) + (INV_MDS@[1] as int) * (MDS@[14] as int) + (INV_MDS@[2] as int) * (MDS@[23] as int) + (INV_MDS@[3] as int) * (MDS@[32] as int) + (INV_MDS@[4] as int) * (MDS@[41] as int) + (INV_MDS@[5] as int) * (MDS@[50] as int) + (INV_MDS@[6] as int) * (MDS@[59] as int) + (INV_MDS@[7] as int) * (MDS@[68] as int) + (INV_MDS@[8] as int) * (MDS@[77] as int)) % 18446744069414584321 == 0) by (nonlinear_arith)
        requires
            INV_MDS@[0] == 12539207436065832329, INV_MDS@[1] == 12077697399935358608, INV_MDS@[2] == 11489157039865439957, INV_MDS@[3] == 4022295415787053861, INV_MDS@[4] == 3826851271344202700, INV_MDS@[5] == 2762205602142483652, INV_MDS@[6] == 4011688063434574022, INV_MDS@[7] == 11145195700700186855, INV_MDS@[8] == 11912678348383205301, MDS@[5] == 16587236605753788891, MDS@[14] == 15938247878153142367, MDS@[23] == 10717533211705047281, MDS@[32] == 11759502291953144483, MDS@[41] == 12811728231465824079, MDS@[50] == 8691994234740331347, MDS@[59] == 15125710629080112088, MDS@[68] == 1394376324654775198, MDS@[77] == 1483676889877496082,
    ;
    assert(product_entry(INV_MDS@, MDS@, 9, 0, 6) == (INV_MDS@[0] as int) * (MDS@[6] as int) + (INV_MDS@[1] as int) * (MDS@[15] as int) + (INV_MDS@[2] as int) * (MDS@[24] as int) + (INV_MDS@[3] as int) * (MDS@[33] as int) + (INV_MDS@[4] as int) * (MDS@[42] as int) + (INV_MDS@[5] as int) * (MDS@[51] as int) + (INV_MDS@[6] as int) * (MDS@[60] as int) + (INV_MDS@[7] as int) * (MDS@[69] as int) + (INV_MDS@[8] as int) * (MDS@[78] as int));
    assert(((INV_MDS@[0] as int) * (MDS@[6] as int) + (INV_MDS@[1] as int) * (MDS@[15] as int) + (INV_MDS@[2] as int) * (MDS@[24] as int) + (INV_MDS@[3] as int) * (MDS@[33] as int) + (INV_MDS@[4] as int) * (MDS@[42] as int) + (INV_MDS@[5] as int) * (MDS@[51] as int) + (INV_MDS@[6] as int) * (MDS@[60] as int) + (INV_MDS@[7] as int) * (MDS@[69] as int) + (INV_MDS@[8] as int) * (MDS@[78] as int)) % 18446744069414584321 == 0) by (nonlinear_arith)
        requires
            INV_MDS@[0] == 12539207436065832329, INV_MDS@[1] == 12077697399935358608, INV_MDS@[2] == 11489157039865439957, INV_MDS@[3] == 4022295415787053861, INV_MDS@[4] == 3826851271344202700, INV_MDS@[5] == 2762205602142483652, INV_MDS@[6] == 4011688063434574022, INV_MDS@[7] == 11145195700700186855, INV_MDS@[8] == 11912678348383205301, MDS@[6] == 667156732699554300, MDS@[15] == 5208160849119430188, MDS@[24] == 6323700978479141929, MDS@[33] == 16538072702756198364, MDS@[42] == 3414522606789347434, MDS@[51] == 6296450013617354001, MDS@[60] == 3464609272919550073, MDS@[69] == 3244018084586040045, MDS@[78] == 16425558919997587467,
    ;
    assert(product_entry(INV_MDS@, MDS@, 9, 0, 7) == (INV_MDS@[0] as int) * (MDS@[7] as int) + (INV_MDS@[1] as int) * (MDS@[16] as int) + (INV_MDS@[2] as int) * (MDS@[25] as int) + (INV_MDS@[3] as int) * (MDS@[34] as int) + (INV_MDS@[4] as int) * (MDS@[43] as int) + (INV_MDS@[5] as int) * (MDS@[52] as int) + (INV_MDS@[6] as int) * (MDS@[61] as int) + (INV_MDS@[7] as int) * (MDS@[70] as int) + (INV_MDS@[8] as int) * (MDS@[79] as int));
    assert(((INV_MDS@[0] as int) * (MDS@[7] as int) + (INV_MDS@[1] as int) * (MDS@[16] as int) + (INV_MDS@[2] as int) * (MDS@[25] as int) + (INV_MDS@[3] as int) * (MDS@[34] as int) + (INV_MDS@[4] as int) * (MDS@[43] as int) + (INV_MDS@[5] as int) * (MDS@[52] as int) + (INV_MDS@[6] as int) * (MDS@[61] as int) + (INV_MDS@[7] as int) * (MDS@[70] as int) + (INV_MDS@[8] as int) * (MDS@[79] as int)) % 18446744069414584321 == 0) by (nonlinear_arith)
        requires
            INV_MDS@[0] == 12539207436065832329, INV_MDS@[1] == 12077697399935358608, INV_MDS@[2] == 11489157039865439957, INV_MDS@[3] == 4022295415787053861, INV_MDS@[4] == 3826851271344202700, INV_MDS@[5] == 2762205602142483652, INV_MDS@[6] == 4011688063434574022, INV_MDS@[7] == 11145195700700186855, INV_MDS@[8] == 11912678348383205301, MDS@[7] == 18446738415201823621, MDS@[16] == 17979409943366626563, MDS@[25] == 13559837768921340497, MDS@[34] == 13063382426484038143, MDS@[43] == 11622131483008073027, MDS@[52] == 14783339201082448771, MDS@[61] == 1348518148838494851, MDS@[70] == 12848315908364988429, MDS@[79] == 7912680464088162810,
    ;
    assert(product_entry(INV_MDS@, MDS@, 9, 0, 8) == (INV_MDS@[0] as int) * (MDS@[8] as int) + (INV_MDS@[1] as int) * (MDS@[17] as int) + (INV_MDS@[2] as int) * (MDS@[26] as int) + (INV_MDS@[3] as int) * (MDS@[35] as int) + (INV_MDS@[4] as int) * (MDS@[44] as int) + (INV_MDS@[5] as int) * (MDS@[53] as int) + (INV_MDS@[6] as int) * (MDS@[62] as int) + (INV_MDS@[7] as int) * (MDS@[71] as int) + (INV_MDS@[8] as int) * (MDS@[80] as int));
    assert(((INV_MDS@[0] as int) * (MDS@[8] as int) + (INV_MDS@[1] as int) * (MDS@[17] as int) + (INV_MDS@[2] as int) * (MDS@[26] as int) + (INV_MDS@[3] as int) * (MDS@[35] as int) + (INV_MDS@[4] as int) * (MDS@[44] as int) + (INV_MDS@[5] as int) * (MDS@[53] as int) + (INV_MDS@[6] as int) * (MDS@[62] as int) + (INV_MDS@[7] as int) * (MDS@[71] as int) + (INV_MDS@[8] as int) * (MDS@[80] as int)) % 18446744069414584321 == 0) by (nonlinear_arith)
        requires
            INV_MDS@[0] == 12539207436065832329, INV_MDS@[1] == 12077697399935358608, INV_MDS@[2] == 11489157039865439957, INV_MDS@[3] == 4022295415787053861, INV_MDS@[4] == 3826851271344202700, INV_MDS@[5] == 2762205602142483652, INV_MDS@[6] == 4011688063434574022, INV_MDS@[7] == 11145195700700186855, INV_MDS@[8] == 11912678348383205301, MDS@[8] == 6725601, MDS@[17] == 39579496050501, MDS@[26] == 7474147118893437849, MDS@[35] == 10991153005139330585, MDS@[44] == 5581189644877109082, MDS@[53] == 11047168471627717792, MDS@[62] == 7124446528907718334, MDS@[71] == 12010975199401608924, MDS@[80] == 17262297830645713245,
    ;
}

proof fn lemma_product_backward_row_1()
    ensures
        identity_row(Elem::modulus(), INV_MDS@, MDS@, 9, 1, 9),
{
    reveal_with_fuel(sum, 10);
    reveal_with_fuel(identity_row, 10);
    assert(product_entry(INV_MDS@, MDS@, 9, 1, 0) == (INV_MDS@[9] as int) * (MDS@[0] as int) + (INV_MDS@[10] as int) * (MDS@[9] as int) + (INV_MDS@[11] as int) * (MDS@[18] as int) + (INV_MDS@[12] as int) * (MDS@[27] as int) + (INV_MDS@[13] as int) * (MDS@[36] as int) + (INV_MDS@[14] as int) * (MDS@[45] as int) + (INV_MDS@[15] as int) * (MDS@[54] as int) + (INV_MDS@[16] as int) * (MDS@[63] as int) + (INV_MDS@[17] as int) * (MDS@[72] as int));
    assert(((INV_MDS@[9] as int) * (MDS@[0] as int) + (INV_MDS@[10] as int) * (MDS@[9] as int) + (INV_MDS@[11] as int) * (MDS@[18] as int) + (INV_MDS@[12] as int) * (MDS@[27] as int) + (INV_MDS@[13] as int) * (MDS@[36] as int) + (INV_MDS@[14] as int) * (MDS@[45] as int) + (INV_MDS@[15] as int) * (MDS@[54] as int) + (INV_MDS@[16] as int) * (MDS@[63] as int) + (INV_MDS@[17] as int) * (MDS@[72] as int)) % 18446744069414584321 == 0) by (nonlinear_arith)
        requires
            INV_MDS@[9] == 4727195465870018641, INV_MDS@[10] == 9920359389887667425, INV_MDS@[11] == 5882185432840443093, INV_MDS@[12] == 17741064004776248473, INV_MDS@[13] == 7911297895002287941, INV_MDS@[14] == 10171341733175619366, INV_MDS@[15] == 2083657376480454673, INV_MDS@[16] == 10776243903197042427, INV_MDS@[17] == 4573631076428555246, MDS@[0] == 15911754940807515092, MDS@[9] == 4000831318486715337, MDS@[18] == 12880740554289902608, MDS@[27] == 8444280502348543928, MDS@[36] == 14334129791615145359, MDS@[45] == 12274638267902752934, MDS@[54] == 8221443041727100385, MDS@[63] == 16372941063200117221, MDS@[72] == 12859139447927245406,
    ;
    assert(product_entry(INV_MDS@, MDS@, 9, 1, 1) == (INV_MDS@[9] as int) * (MDS@[1] as int) + (INV_MDS@[10] as int) * (MDS@[10] as int) + (INV_MDS@[11] as int) * (MDS@[19] as int) + (INV_MDS@[12] as int) * (MDS@[28] as int) + (INV_MDS@[13] as int) * (MDS@[37] as int) + (INV_MDS@[14] as int) * (MDS@[46] as int) + (INV_MDS@[15] as int) * (MDS@[55] as int) + (INV_MDS@[16] as int) * (MDS@[64] as int) + (INV_MDS@[17] as int) * (MDS@[73] as int));
    assert(((INV_MDS@[9] as int) * (MDS@[1] as int) + (INV_MDS@[10] as int) * (MDS@[10] as int) + (INV_MDS@[11] as int) * (MDS@[19] as int) + (INV_MDS@[12] as int) * (MDS@[28] as int) + (INV_MDS@[13] as int) * (MDS@[37] as int) + (INV_MDS@[14] as int) * (MDS@[46] as int) + (INV_MDS@[15] as int) * (MDS@[55] as int) + (INV_MDS@[16] as int) * (MDS@[64] as int) + (INV_MDS@[17] as int) * (MDS@[73] as int)) % 18446744069414584321 == 1) by (nonlinear_arith)
        requires
            INV_MDS@[9] == 4727195465870018641, INV_MDS@[10] == 9920359389887667425, INV_MDS@[11] == 5882185432840443093, INV_MDS@[12] == 17741064004776248473, INV_MDS@[13] == 7911297895002287941, INV_MDS@[14] == 10171341733175619366, INV_MDS@[15] == 2083657376480454673, INV_MDS@[16] == 10776243903197042427, INV_MDS@[17] == 4573631076428555246, MDS@[1] == 2711892286355972158, MDS@[10] == 13866593699749449226, MDS@[19] == 10736257011154062521, MDS@[28] == 18063596406833757604, MDS@[37] == 2684393531687652704, MDS@[46] == 10320521705305529889, MDS@[55] == 393559796193809889, MDS@[64] == 14810743068666274131, MDS@[73] == 11343755749076409967,
    ;
    assert(product_entry(INV_MDS@, MDS@, 9, 1, 2) == (INV_MDS@[9] as int) * (MDS@[2] as int) + (INV_MDS@[10] as int) * (MDS@[11] as int) + (INV_MDS@[11] as int) * (MDS@[20] as int) + (INV_MDS@[12] as int) * (MDS@[29] as int) + (INV_MDS@[13] as int) * (MDS@[38] as int) + (INV_MDS@[14] as int) * (MDS@[47] as int) + (INV_MDS@[15] as int) * (MDS@[56] as int) + (INV_MDS@[16] as int) * (MDS@[65] as int) + (INV_MDS@[17] as int) * (MDS@[74] as int));
    assert(((INV_MDS@[9] as int) * (MDS@[2] as int) + (INV_MDS@[10] as int) * (MDS@[11] as int) + (INV_MDS@[11] as int) * (MDS@[20] as int) + (INV_MDS@[12] as int) * (MDS@[29] as int) + (INV_MDS@[13] as int) * (MDS@[38] as int) + (INV_MDS@[14] as int) * (MDS@[47] as int) + (INV_MDS@[15] as int) * (MDS@[56] as int) + (INV_MDS@[16] as int) * (MDS@[65] as int) + (INV_MDS@[17] as int) * (MDS@[74] as int)) % 18446744069414584321 == 0) by (nonlinear_arith)
        requires
            INV_MDS@[9] == 4727195465870018641, INV_MDS@[10] == 9920359389887667425, INV_MDS@[11] == 5882185432840443093, INV_MDS@[12] == 17741064004776248473, INV_MDS@[13] == 7911297895002287941, INV_MDS@[14] == 10171341733175619366, INV_MDS@[15] == 2083657376480454673, INV_MDS@[16] == 10776243903197042427, INV_MDS@[17] == 4573631076428555246, MDS@[2] == 17150989262161941497, MDS@[11] == 12844960428353252001, MDS@[20] == 9684835675499922946, MDS@[29] == 1023367824000313667, MDS@[38] == 9102699125972580966, MDS@[47] == 534382282294584005, MDS@[56] == 17551880528192194831, MDS@[65] == 9540729115791359379, MDS@[74] == 12009542032810910684,
    ;
    assert(product_entry(INV_MDS@, MDS@, 9, 1, 3) == (INV_MDS@[9] as int) * (MDS@[3] as int) + (INV_MDS@[10] as int) * (MDS@[12] as int) + (INV_MDS@[11] as int) * (MDS@[21] as int) + (INV_MDS@[12] as int) * (MDS@[30] as int) + (INV_MDS@[13] as int) * (MDS@[39] as int) + (INV_MDS@[14] as int) * (MDS@[48] as int) + (INV_MDS@[15] as int) * (MDS@[57] as int) + (INV_MDS@[16] as int) * (MDS@[66] as int) + (INV_MDS@[17] as int) * (MDS@[75] as int));
    assert(((INV_MDS@[9] as int) * (MDS@[3] as int) + (INV_MDS@[10] as int) * (MDS@[12] as int) + (INV_MDS@[11] as int) * (MDS@[21] as int) + (INV_MDS@[12] as int) * (MDS@[30] as int) + (INV_MDS@[13] as int) * (MDS@[39] as int) + (INV_MDS@[14] as int) * (MDS@[48] as int) + (INV_MDS@[15] as int) * (MDS@[57] as int) + (INV_MDS@[16] as int) * (MDS@[66] as int) + (INV_MDS@[17] as int) * (MDS@[75] as int)) % 18446744069414584321 == 0) by (nonlinear_arith)
        requires
            INV_MDS@[9] == 4727195465870018641, INV_MDS@[10] == 9920359389887667425, INV_MDS@[11] == 5882185432840443093, INV_MDS@[12] == 17741064004776248473, INV_MDS@[13] == 7911297895002287941, INV_MDS@[14] == 10171341733175619366, INV_MDS@[15] == 2083657376480454673, INV_MDS@[16] == 10776243903197042427, INV_MDS@[17] == 4573631076428555246, MDS@[3] == 1745852583430594377, MDS@[12] == 582714116362056623, MDS@[21] == 17726787349382971757, MDS@[30] == 17098225262737701178, MDS@[39] == 6899282244058680396, MDS@[48] == 9894417991995566363, MDS@[57] == 11029403667917004080, MDS@[66] == 236400869707253861, MDS@[75] == 10555036868816319109,
    ;
    assert(product_entry(INV_MDS@, MDS@, 9, 1, 4) == (INV_MDS@[9] as int) * (MDS@[4] as int) + (INV_MDS@[10] as int) * (MDS@[13] as int) + (INV_MDS@[11] as int) * (MDS@[22] as int) + (INV_MDS@[12] as int) * (MDS@[31] as int) + (INV_MDS@[13] as int) * (MDS@[40] as int) + (INV_MDS@[14] as int) * (MDS@[49] as int) + (INV_MDS@[15] as int) * (MDS@[58] as int) + (INV_MDS@[16] as int) * (MDS@[67] as int) + (INV_MDS@[17] as int) * (MDS@[76] as int));
    assert(((INV_MDS@[9] as int) * (MDS@[4] as int) + (INV_MDS@[10] as int) * (MDS@[13] as int) + (INV_MDS@[11] as int) * (MDS@[22] as int) + (INV_MDS@[12] as int) * (MDS@[31] as int) + (INV_MDS@[13] as int) * (MDS@[40] as int) + (INV_MDS@[14] as int) * (MDS@[49] as int) + (INV_MDS@[15] as int) * (MDS@[58] as int) + (INV_MDS@[16] as int) * (MDS@[67] as int) + (INV_MDS@[17] as int) * (MDS@[76] as int)) % 18446744069414584321 == 0) by (nonlinear_arith)
        requires
            INV_MDS@[9] == 4727195465870018641, INV_MDS@[10] == 9920359389887667425, INV_MDS@[11] == 5882185432840443093, INV_MDS@[12] == 17741064004776248473, INV_MDS@[13] == 7911297895002287941, INV_MDS@[14] == 10171341733175619366, INV_MDS@[15] == 2083657376480454673, INV_MDS@[16] == 10776243903197042427, INV_MDS@[17] == 4573631076428555246, MDS@[4] == 565355451240421748, MDS@[13] == 3366018464571614479, MDS@[22] == 3129880678747094218, MDS@[31] == 13698883994234477975, MDS@[40] == 7336899618183924238, MDS@[49] == 18390808178506636504, MDS@[58] == 9527404663882352754, MDS@[67] == 3328476643285920097, MDS@[76] == 2382032143833076836,
    ;
    assert(product_entry(INV_MDS@, MDS@, 9, 1, 5) == (INV_MDS@[9] as int) * (MDS@[5] as int) + (INV_MDS@[10] as int) * (MDS@[14] as int) + (INV_MDS@[11] as int) * (MDS@[23] as int) + (INV_MDS@[12] as int) * (MDS@[32] as int) + (INV_MDS@[13] as int) * (MDS@[41] as int) + (INV_MDS@[14] as int) * (MDS@[50] as int) + (INV_MDS@[15] as int) * (MDS@[59] as int) + (INV_MDS@[16] as int) * (MDS@[68] as int) + (INV_MDS@[17] as int) * (MDS@[77] as int));
    assert(((INV_MDS@[9] as int) * (MDS@[5] as int) + (INV_MDS@[10] as int) * (MDS@[14] as int) + (INV_MDS@[11] as int) * (MDS@[23] as int) + (INV_MDS@[12] as int) * (MDS@[32] as int) + (INV_MDS@[13] as int) * (MDS@[41] as int) + (INV_MDS@[14] as int) * (MDS@[50] as int) + (INV_MDS@[15] as int) * (MDS@[59] as int) + (INV_MDS@[16] as int) * (MDS@[68] as int) + (INV_MDS@[17] as int) * (MDS@[77] as int)) % 18446744069414584321 == 0) by (nonlinear_arith)
        requires
            INV_MDS@[9] == 4727195465870018641, INV_MDS@[10] == 9920359389887667425, INV_MDS@[11] == 5882185432840443093, INV_MDS@[12] == 17741064004776248473, INV_MDS@[13] == 7911297895002287941, INV_MDS@[14] == 10171341733175619366, INV_MDS@[15] == 2083657376480454673, INV_MDS@[16] == 10776243903197042427, INV_MDS@[17] == 4573631076428555246, MDS@[5] == 16587236605753788891, MDS@[14] == 15938247878153142367, MDS@[23] == 10717533211705047281, MDS@[32] == 11759502291953144483, MDS@[41] == 12811728231465824079, MDS@[50] == 8691994234740331347, MDS@[59] == 15125710629080112088, MDS@[68] == 1394376324654775198, MDS@[77] == 1483676889877496082,
    ;
    assert(product_entry(INV_MDS@, MDS@, 9, 1, 6) == (INV_MDS@[9] as int) * (MDS@[6] as int) + (INV_MDS@[10] as int) * (MDS@[15] as int) + (INV_MDS@[11] as int) * (MDS@[24] as int) + (INV_MDS@[12] as int) * (MDS@[33] as int) + (INV_MDS@[13] as int) * (MDS@[42] as int) + (INV_MDS@[14] as int) * (MDS@[51] as int) + (INV_MDS@[15] as int) * (MDS@[60] as int) + (INV_MDS@[16] as int) * (MDS@[69] as int) + (INV_MDS@[17] as int) * (MDS@[78] as int));
    assert(((INV_MDS@[9] as int) * (MDS@[6] as int) + (INV_MDS@[10] as int) * (MDS@[15] as int) + (INV_MDS@[11] as int) * (MDS@[24] as int) + (INV_MDS@[12] as int) * (MDS@[33] as int) + (INV_MDS@[13] as int) * (MDS@[42] as int) + (INV_MDS@[14] as int) * (MDS@[51] as int) + (INV_MDS@[15] as int) * (MDS@[60] as int) + (INV_MDS@[16] as int) * (MDS@[69] as int) + (INV_MDS@[17] as int) * (MDS@[78] as int)) % 18446744069414584321 == 0) by (nonlinear_arith)
        requires
            INV_MDS@[9] == 4727195465870018641, INV_MDS@[10] == 9920359389887667425, INV_MDS@[11] == 5882185432840443093, INV_MDS@[12] == 17741064004776248473, INV_MDS@[13] == 7911297895002287941, INV_MDS@[14] == 10171341733175619366, INV_MDS@[15] == 2083657376480454673, INV_MDS@[16] == 10776243903197042427, INV_MDS@[17] == 4573631076428555246, MDS@[6] == 667156732699554300, MDS@[15] == 5208160849119430188, MDS@[24] == 6323700978479141929, MDS@[33] == 16538072702756198364, MDS@[42] == 3414522606789347434, MDS@[51] == 6296450013617354001, MDS@[60] == 3464609272919550073, MDS@[69] == 3244018084586040045, MDS@[78] == 16425558919997587467,
    ;
    assert(product_entry(INV_MDS@, MDS@, 9, 1, 7) == (INV_MDS@[9] as int) * (MDS@[7] as int) + (INV_MDS@[10] as int) * (MDS@[16] as int) + (INV_MDS@[11] as int) * (MDS@[25] as int) + (INV_MDS@[12] as int) * (MDS@[34] as int) + (INV_MDS@[13] as int) * (MDS@[43] as int) + (INV_MDS@[14] as int) * (MDS@[52] as int) + (INV_MDS@[15] as int) * (MDS@[61] as int) + (INV_MDS@[16] as int) * (MDS@[70] as int) + (INV_MDS@[17] as int) * (MDS@[79] as int));
    assert(((INV_MDS@[9] as int) * (MDS@[7] as int) + (INV_MDS@[10] as int) * (MDS@[16] as int) + (INV_MDS@[11] as int) * (MDS@[25] as int) + (INV_MDS@[12] as int) * (MDS@[34] as int) + (INV_MDS@[13] as int) * (MDS@[43] as int) + (INV_MDS@[14] as int) * (MDS@[52] as int) + (INV_MDS@[15] as int) * (MDS@[61] as int) + (INV_MDS@[16] as int) * (MDS@[70] as int) + (INV_MDS@[17] as int) * (MDS@[79] as int)) % 18446744069414584321 == 0) by (nonlinear_arith)
        requires
            INV_MDS@[9] == 4727195465870018641, INV_MDS@[10] == 9920359389887667425, INV_MDS@[11] == 5882185432840443093, INV_MDS@[12] == 17741064004776248473, INV_MDS@[13] == 7911297895002287941, INV_MDS@[14] == 10171341733175619366, INV_MDS@[15] == 2083657376480454673, INV_MDS@[16] == 10776243903197042427, INV_MDS@[17] == 4573631076428555246, MDS@[7] == 18446738415201823621, MDS@[16] == 17979409943366626563, MDS@[25] == 13559837768921340497, MDS@[34] == 13063382426484038143, MDS@[43] == 11622131483008073027, MDS@[52] == 14783339201082448771, MDS@[61] == 1348518148838494851, MDS@[70] == 12848315908364988429, MDS@[79] == 7912680464088162810,
    ;
    assert(product_entry(INV_MDS@, MDS@, 9, 1, 8) == (INV_MDS@[9] as int) * (MDS@[8] as int) + (INV_MDS@[10] as int) * (MDS@[17] as int) + (INV_MDS@[11] as int) * (MDS@[26] as int) + (INV_MDS@[12] as int) * (MDS@[35] as int) + (INV_MDS@[13] as int) * (MDS@[44] as int) + (INV_MDS@[14] as int) * (MDS@[53] as int) + (INV_MDS@[15] as int) * (MDS@[62] as int) + (INV_MDS@[16] as int) * (MDS@[71] as int) + (INV_MDS@[17] as int) * (MDS@[80] as int));
    assert(((INV_MDS@[9] as int) * (MDS@[8] as int) + (INV_MDS@[10] as int) * (MDS@[17] as int) + (INV_MDS@[11] as int) * (MDS@[26] as int) + (INV_MDS@[12] as int) * (MDS@[35] as int) + (INV_MDS@[13] as int) * (MDS@[44] as int) + (INV_MDS@[14] as int) * (MDS@[53] as int) + (INV_MDS@[15] as int) * (MDS@[62] as int) + (INV_MDS@[16] as int) * (MDS@[71] as int) + (INV_MDS@[17] as int) * (MDS@[80] as int)) % 18446744069414584321 == 0) by (nonlinear_arith)
        requires
            INV_MDS@[9] == 4727195465870018641, INV_MDS@[10] == 9920359389887667425, INV_MDS@[11] == 5882185432840443093, INV_MDS@[12] == 17741064004776248473, INV_MDS@[13] == 7911297895002287941, INV_MDS@[14] == 10171341733175619366, INV_MDS@[15] == 2083657376480454673, INV_MDS@[16] == 10776243903197042427, INV_MDS@[17] == 4573631076428555246, MDS@[8] == 6725601, MDS@[17] == 39579496050501, MDS@[26] == 7474147118893437849, MDS@[35] == 10991153005139330585, MDS@[44] == 5581189644877109082, MDS@[53] == 11047168471627717792, MDS@[62] == 7124446528907718334, MDS@[71] == 12010975199401608924, MDS@[80] == 17262297830645713245,
    ;
}

proof fn lemma_product_backward_row_2()
    ensures
        identity_row(Elem::modulus(), INV_MDS@, MDS@, 9, 2, 9),
{
    reveal_with_fuel(sum, 10);
    reveal_with_fuel(identity_row, 10);
    assert(product_entry(INV_MDS@, MDS@, 9, 2, 0) == (INV_MDS@[18] as int) * (MDS@[0] as int) + (INV_MDS@[19] as int) * (MDS@[9] as int) + (INV_MDS@[20] as int) * (MDS@[18] as int) + (INV_MDS@[21] as int) * (MDS@[27] as int) + (INV_MDS@[22] as int) * (MDS@[36] as int) + (INV_MDS@[23] as int) * (MDS@[45] as int) + (INV_MDS@[24] as int) * (MDS@[54] as int) + (INV_MDS@[25] as int) * (MDS@[63] as int) + (INV_MDS@[26] as int) * (MDS@[72] as int));
    assert(((INV_MDS@[18] as int) * (MDS@[0] as int) + (INV_MDS@[19] as int) * (MDS@[9] as int) + (INV_MDS@[20] as int) * (MDS@[18] as int) + (INV_MDS@[21] as int) * (MDS@[27] as int) + (INV_MDS@[22] as int) * (MDS@[36] as int) + (INV_MDS@[23] as int) * (MDS@[45] as int) + (INV_MDS@[24] as int) * (MDS@[54] as int) + (INV_MDS@[25] as int) * (MDS@[63] as int) + (INV_MDS@[26] as int) * (MDS@[72] as int)) % 18446744069414584321 == 0) by (nonlinear_arith)
        requires
            INV_MDS@[18] == 736023694432405199, INV_MDS@[19] == 13757068485645773643, INV_MDS@[20] == 8441959758169971861, INV_MDS@[21] == 7555928964926312149, INV_MDS@[22] == 12026351406134197362, INV_MDS@[23] == 7821482727890945600, INV_MDS@[24] == 12585455291860344, INV_MDS@[25] == 1822423469098651379, INV_MDS@[26] == 3166408246653635427, MDS@[0] == 15911754940807515092, MDS@[9] == 4000831318486715337, MDS@[18] == 12880740554289902608, MDS@[27] == 8444280502348543928, MDS@[36] == 14334129791615145359, MDS@[45] == 12274638267902752934, MDS@[54] == 8221443041727100385, MDS@[63] == 16372941063200117221, MDS@[72] == 12859139447927245406,
    ;
    assert(product_entry(INV_MDS@, MDS@, 9, 2, 1) == (INV_MDS@[18] as int) * (MDS@[1] as int) + (INV_MDS@[19] as int) * (MDS@[10] as int) + (INV_MDS@[20] as int) * (MDS@[19] as int) + (INV_MDS@[21] as int) * (MDS@[28] as int) + (INV_MDS@[22] as int) * (MDS@[37] as int) + (INV_MDS@[23] as int) * (MDS@[46] as int) + (INV_MDS@[24] as int) * (MDS@[55] as int) + (INV_MDS@[25] as int) * (MDS@[64] as int) + (INV_MDS@[26] as int) * (MDS@[73] as int));
    assert(((INV_MDS@[18] as int) * (MDS@[1] as int) + (INV_MDS@[19] as int) * (MDS@[10] as int) + (INV_MDS@[20] as int) * (MDS@[19] as int) + (INV_MDS@[21] as int) * (MDS@[28] as int) + (INV_MDS@[22] as int) * (MDS@[37] as int) + (INV_MDS@[23] as int) * (MDS@[46] as int) + (INV_MDS@[24] as int) * (MDS@[55] as int) + (INV_MDS@[25] as int) * (MDS@[64] as int) + (INV_MDS@[26] as int) * (MDS@[73] as int)) % 18446744069414584321 == 0) by (nonlinear_arith)
        requires
            INV_MDS@[18] == 736023694432405199, INV_MDS@[19] == 13757068485645773643, INV_MDS@[20] == 8441959758169971861, INV_MDS@[21] == 7555928964926312149, INV_MDS@[22] == 12026351406134197362, INV_MDS@[23] == 7821482727890945600, INV_MDS@[24] == 12585455291860344, INV_MDS@[25] == 1822423469098651379, INV_MDS@[26] == 3166408246653635427, MDS@[1] == 2711892286355972158, MDS@[10] == 13866593699749449226, MDS@[19] == 10736257011154062521, MDS@[28] == 18063596406833757604, MDS@[37] == 2684393531687652704, MDS@[46] == 10320521705305529889, MDS@[55] == 393559796193809889, MDS@[64] == 14810743068666274131, MDS@[73] == 11343755749076409967,
    ;
    assert(product_entry(INV_MDS@, MDS@, 9, 2, 2) == (INV_MDS@[18] as int) * (MDS@[2] as int) + (INV_MDS@[19] as int) * (MDS@[11] as int) + (INV_MDS@[20] as int) * (MDS@[20] as int) + (INV_MDS@[21] as int) * (MDS@[29] as int) + (INV_MDS@[22] as int) * (MDS@[38] as int) + (INV_MDS@[23] as int) * (MDS@[47] as int) + (INV_MDS@[24] as int) * (MDS@[56] as int) + (INV_MDS@[25] as int) * (MDS@[65] as int) + (INV_MDS@[26] as int) * (MDS@[74] as int));
    assert(((INV_MDS@[18] as int) * (MDS@[2] as int) + (INV_MDS@[19] as int) * (MDS@[11] as int) + (INV_MDS@[20] as int) * (MDS@[20] as int) + (INV_MDS@[21] as int) * (MDS@[29] as int) + (INV_MDS@[22] as int) * (MDS@[38] as int) + (INV_MDS@[23] as int) * (MDS@[47] as int) + (INV_MDS@[24] as int) * (MDS@[56] as int) + (INV_MDS@[25] as int) * (MDS@[65] as int) + (INV_MDS@[26] as int) * (MDS@[74] as int)) % 18446744069414584321 == 1) by (nonlinear_arith)
        requires
            INV_MDS@[18] == 736023694432405199, INV_MDS@[19] == 13757068485645773643, INV_MDS@[20] == 8441959758169971861, INV_MDS@[21] == 7555928964926312149, INV_MDS@[22] == 12026351406134197362, INV_MDS@[23] == 7821482727890945600, INV_MDS@[24] == 12585455291860344, INV_MDS@[25] == 1822423469098651379, INV_MDS@[26] == 3166408246653635427, MDS@[2] == 17150989262161941497, MDS@[11] == 12844960428353252001, MDS@[20] == 9684835675499922946, MDS@[29] == 1023367824000313667, MDS@[38] == 9102699125972580966, MDS@[47] == 534382282294584005, MDS@[56] == 17551880528192194831, MDS@[65] == 9540729115791359379, MDS@[74] == 12009542032810910684,
    ;
    assert(product_entry(INV_MDS@, MDS@, 9, 2, 3) == (INV_MDS@[18] as int) * (MDS@[3] as int) + (INV_MDS@[19] as int) * (MDS@[12] as int) + (INV_MDS@[20] as int) * (MDS@[21] as int) + (INV_MDS@[21] as int) * (MDS@[30] as int) + (INV_MDS@[22] as int) * (MDS@[39] as int) + (INV_MDS@[23] as int) * (MDS@[48] as int) + (INV_MDS@[24] as int) * (MDS@[57] as int) + (INV_MDS@[25] as int) * (MDS@[66] as int) + (INV_MDS@[26] as int) * (MDS@[75] as int));
    assert(((INV_MDS@[18] as int) * (MDS@[3] as int) + (INV_MDS@[19] as int) * (MDS@[12] as int) + (INV_MDS@[20] as int) * (MDS@[21] as int) + (INV_MDS@[21] as int) * (MDS@[30] as int) + (INV_MDS@[22] as int) * (MDS@[39] as int) + (INV_MDS@[23] as int) * (MDS@[48] as int) + (INV_MDS@[24] as int) * (MDS@[57] as int) + (INV_MDS@[25] as int) * (MDS@[66] as int) + (INV_MDS@[26] as int) * (MDS@[75] as int)) % 18446744069414584321 == 0) by (nonlinear_arith)
        requires
            INV_MDS@[18] == 736023694432405199, INV_MDS@[19] == 13757068485645773643, INV_MDS@[20] == 8441959758169971861, INV_MDS@[21] == 7555928964926312149, INV_MDS@[22] == 12026351406134197362, INV_MDS@[23] == 7821482727890945600, INV_MDS@[24] == 12585455291860344, INV_MDS@[25] == 1822423469098651379, INV_MDS@[26] == 3166408246653635427, MDS@[3] == 1745852583430594377, MDS@[12] == 582714116362056623, MDS@[21] == 17726787349382971757, MDS@[30] == 17098225262737701178, MDS@[39] == 6899282244058680396, MDS@[48] == 9894417991995566363, MDS@[57] == 11029403667917004080, MDS@[66] == 236400869707253861, MDS@[75] == 10555036868816319109,
    ;
    assert(product_entry(INV_MDS@, MDS@, 9, 2, 4) == (INV_MDS@[18] as int) * (MDS@[4] as int) + (INV_MDS@[19] as int) * (MDS@[13] as int) + (INV_MDS@[20] as int) * (MDS@[22] as int) + (INV_MDS@[21] as int) * (MDS@[31] as int) + (INV_MDS@[22] as int) * (MDS@[40] as int) + (INV_MDS@[23] as int) * (MDS@[49] as int) + (INV_MDS@[24] as int) * (MDS@[58] as int) + (INV_MDS@[25] as int) * (MDS@[67] as int) + (INV_MDS@[26] as int) * (MDS@[76] as int));
    assert(((INV_MDS@[18] as int) * (MDS@[4] as int) + (INV_MDS@[19] as int) * (MDS@[13] as int) + (INV_MDS@[20] as int) * (MDS@[22] as int) + (INV_MDS@[21] as int) * (MDS@[31] as int) + (INV_MDS@[22] as int) * (MDS@[40] as int) + (INV_MDS@[23] as int) * (MDS@[49] as int) + (INV_MDS@[24] as int) * (MDS@[58] as int) + (INV_MDS@[25] as int) * (MDS@[67] as int) + (INV_MDS@[26] as int) * (MDS@[76] as int)) % 18446744069414584321 == 0) by (nonlinear_arith)
        requires
            INV_MDS@[18] == 736023694432405199, INV_MDS@[19] == 13757068485645773643, INV_MDS@[20] == 8441959758169971861, INV_MDS@[21] == 7555928964926312149, INV_MDS@[22] == 12026351406134197362, INV_MDS@[23] == 7821482727890945600, INV_MDS@[24] == 12585455291860344, INV_MDS@[25] == 1822423469098651379, INV_MDS@[26] == 3166408246653635427, MDS@[4] == 565355451240421748, MDS@[13] == 3366018464571614479, MDS@[22] == 3129880678747094218, MDS@[31] == 13698883994234477975, MDS@[40] == 7336899618183924238, MDS@[49] == 18390808178506636504, MDS@[58] == 9527404663882352754, MDS@[67] == 3328476643285920097, MDS@[76] == 2382032143833076836,
    ;
    assert(product_entry(INV_MDS@, MDS@, 9, 2, 5) == (INV_MDS@[18] as int) * (MDS@[5] as int) + (INV_MDS@[19] as int) * (MDS@[14] as int) + (INV_MDS@[20] as int) * (MDS@[23] as int) + (INV_MDS@[21] as int) * (MDS@[32] as int) + (INV_MDS@[22] as int) * (MDS@[41] as int) + (INV_MDS@[23] as int) * (MDS@[50] as int) + (INV_MDS@[24] as int) * (MDS@[59] as int) + (INV_MDS@[25] as int) * (MDS@[68] as int) + (INV_MDS@[26] as int) * (MDS@[77] as int));
    assert(((INV_MDS@[18] as int) * (MDS@[5] as int) + (INV_MDS@[19] as int) * (MDS@[14] as int) + (INV_MDS@[20] as int) * (MDS@[23] as int) + (INV_MDS@[21] as int) * (MDS@[32] as int) + (INV_MDS@[22] as int) * (MDS@[41] as int) + (INV_MDS@[23] as int) * (MDS@[50] as int) + (INV_MDS@[24] as int) * (MDS@[59] as int) + (INV_MDS@[25] as int) * (MDS@[68] as int) + (INV_MDS@[26] as int) * (MDS@[77] as int)) % 18446744069414584321 == 0) by (nonlinear_arith)
        requires
            INV_MDS@[18] == 736023694432405199, INV_MDS@[19] == 13757068485645773643, INV_MDS@[20] == 8441959758169971861, INV_MDS@[21] == 7555928964926312149, INV_MDS@[22] == 12026351406134197362, INV_MDS@[23] == 7821482727890945600, INV_MDS@[24] == 12585455291860344, INV_MDS@[25] == 1822423469098651379, INV_MDS@[26] == 3166408246653635427, MDS@[5] == 16587236605753788891, MDS@[14] == 15938247878153142367, MDS@[23] == 10717533211705047281, MDS@[32] == 11759502291953144483, MDS@[41] == 12811728231465824079, MDS@[50] == 8691994234740331347, MDS@[59] == 15125710629080112088, MDS@[68] == 1394376324654775198, MDS@[77] == 1483676889877496082,
    ;
    assert(product_entry(INV_MDS@, MDS@, 9, 2, 6) == (INV_MDS@[18] as int) * (MDS@[6] as int) + (INV_MDS@[19] as int) * (MDS@[15] as int) + (INV_MDS@[20] as int) * (MDS@[24] as int) + (INV_MDS@[21] as int) * (MDS@[33] as int) + (INV_MDS@[22] as int) * (MDS@[42] as int) + (INV_MDS@[23] as int) * (MDS@[51] as int) + (INV_MDS@[24] as int) * (MDS@[60] as int) + (INV_MDS@[25] as int) * (MDS@[69] as int) + (INV_MDS@[26] as int) * (MDS@[78] as int));
    assert(((INV_MDS@[18] as int) * (MDS@[6] as int) + (INV_MDS@[19] as int) * (MDS@[15] as int) + (INV_MDS@[20] as int) * (MDS@[24] as int) + (INV_MDS@[21] as int) * (MDS@[33] as int) + (INV_MDS@[22] as int) * (MDS@[42] as int) + (INV_MDS@[23] as int) * (MDS@[51] as int) + (INV_MDS@[24] as int) * (MDS@[60] as int) + (INV_MDS@[25] as int) * (MDS@[69] as int) + (INV_MDS@[26] as int) * (MDS@[78] as int)) % 18446744069414584321 == 0) by (nonlinear_arith)
        requires
            INV_MDS@[18] == 736023694432405199, INV_MDS@[19] == 13757068485645773643, INV_MDS@[20] == 8441959758169971861, INV_MDS@[21] == 7555928964926312149, INV_MDS@[22] == 12026351406134197362, INV_MDS@[23] == 7821482727890945600, INV_MDS@[24] == 12585455291860344, INV_MDS@[25] == 1822423469098651379, INV_MDS@[26] == 3166408246653635427, MDS@[6] == 667156732699554300, MDS@[15] == 5208160849119430188, MDS@[24] == 6323700978479141929, MDS@[33] == 16538072702756198364, MDS@[42] == 3414522606789347434, MDS@[51] == 6296450013617354001, MDS@[60] == 3464609272919550073, MDS@[69] == 3244018084586040045, MDS@[78] == 16425558919997587467,
    ;
    assert(product_entry(INV_MDS@, MDS@, 9, 2, 7) == (INV_MDS@[18] as int) * (MDS@[7] as int) + (INV_MDS@[19] as int) * (MDS@[16] as int) + (INV_MDS@[20] as int) * (MDS@[25] as int) + (INV_MDS@[21] as int) * (MDS@[34] as int) + (INV_MDS@[22] as int) * (MDS@[43] as int) + (INV_MDS@[23] as int) * (MDS@[52] as int) + (INV_MDS@[24] as int) * (MDS@[61] as int) + (INV_MDS@[25] as int) * (MDS@[70] as int) + (INV_MDS@[26] as int) * (MDS@[79] as int));
    assert(((INV_MDS@[18] as int) * (MDS@[7] as int) + (INV_MDS@[19] as int) * (MDS@[16] as int) + (INV_MDS@[20] as int) * (MDS@[25] as int) + (INV_MDS@[21] as int) * (MDS@[34] as int) + (INV_MDS@[22] as int) * (MDS@[43] as int) + (INV_MDS@[23] as int) * (MDS@[52] as int) + (INV_MDS@[24] as int) * (MDS@[61] as int) + (INV_MDS@[25] as int) * (MDS@[70] as int) + (INV_MDS@[26] as int) * (MDS@[79] as int)) % 18446744069414584321 == 0) by (nonlinear_arith)
        requires
            INV_MDS@[18] == 736023694432405199, INV_MDS@[19] == 13757068485645773643, INV_MDS@[20] == 8441959758169971861, INV_MDS@[21] == 7555928964926312149, INV_MDS@[22] == 12026351406134197362, INV_MDS@[23] == 7821482727890945600, INV_MDS@[24] == 12585455291860344, INV_MDS@[25] == 1822423469098651379, INV_MDS@[26] == 3166408246653635427, MDS@[7] == 18446738415201823621, MDS@[16] == 17979409943366626563, MDS@[25] == 13559837768921340497, MDS@[34] == 13063382426484038143, MDS@[43] == 11622131483008073027, MDS@[52] == 14783339201082448771, MDS@[61] == 1348518148838494851, MDS@[70] == 12848315908364988429, MDS@[79] == 7912680464088162810,
    ;
    assert(product_entry(INV_MDS@, MDS@, 9, 2, 8) == (INV_MDS@[18] as int) * (MDS@[8] as int) + (INV_MDS@[19] as int) * (MDS@[17] as int) + (INV_MDS@[20] as int) * (MDS@[26] as int) + (INV_MDS@[21] as int) * (MDS@[35] as int) + (INV_MDS@[22] as int) * (MDS@[44] as int) + (INV_MDS@[23] as int) * (MDS@[53] as int) + (INV_MDS@[24] as int) * (MDS@[62] as int) + (INV_MDS@[25] as int) * (MDS@[71] as int) + (INV_MDS@[26] as int) * (MDS@[80] as int));
    assert(((INV_MDS@[18] as int) * (MDS@[8] as int) + (INV_MDS@[19] as int) * (MDS@[17] as int) + (INV_MDS@[20] as int) * (MDS@[26] as int) + (INV_MDS@[21] as int) * (MDS@[35] as int) + (INV_MDS@[22] as int) * (MDS@[44] as int) + (INV_MDS@[23] as int) * (MDS@[53] as int) + (INV_MDS@[24] as int) * (MDS@[62] as int) + (INV_MDS@[25] as int) * (MDS@[71] as int) + (INV_MDS@[26] as int) * (MDS@[80] as int)) % 18446744069414584321 == 0) by (nonlinear_arith)
        requires
            INV_MDS@[18] == 736023694432405199, INV_MDS@[19] == 13757068485645773643, INV_MDS@[20] == 8441959758169971861, INV_MDS@[21] == 7555928964926312149, INV_MDS@[22] == 12026351406134197362, INV_MDS@[23] == 7821482727890945600, INV_MDS@[24] == 12585455291860344, INV_MDS@[25] == 1822423469098651379, INV_MDS@[26] == 3166408246653635427, MDS@[8] == 6725601, MDS@[17] == 39579496050501, MDS@[26] == 7474147118893437849, MDS@[35] == 10991153005139330585, MDS@[44] == 5581189644877109082, MDS@[53] == 11047168471627717792, MDS@[62] == 7124446528907718334, MDS@[71] == 12010975199401608924, MDS@[80] == 17262297830645713245,
    ;
}

proof fn lemma_product_backward_row_3()
    ensures
        identity_row(Elem::modulus(), INV_MDS@, MDS@, 9, 3, 9),
{
    reveal_with_fuel(sum, 10);
    reveal_with_fuel(identity_row, 10);
    assert(product_entry(INV_MDS@, MDS@, 9, 3, 0) == (INV_MDS@[27] as int) * (MDS@[0] as int) + (INV_MDS@[28] as int) * (MDS@[9] as int) + (INV_MDS@[29] as int) * (MDS@[18] as int) + (INV_MDS@[30] as int) * (MDS@[27] as int) + (INV_MDS@[31] as int) * (MDS@[36] as int) + (INV_MDS@[32] as int) * (MDS@[45] as int) + (INV_MDS@[33] as int) * (MDS@[54] as int) + (INV_MDS@[34] as int) * (MDS@[63] as int) + (INV_MDS@[35] as int) * (MDS@[72] as int));
    assert(((INV_MDS@[27] as int) * (MDS@[0] as int) + (INV_MDS@[28] as int) * (MDS@[9] as int) + (INV_MDS@[29] as int) * (MDS@[18] as int) + (INV_MDS@[30] as int) * (MDS@[27] as int) + (INV_MDS@[31] as int) * (MDS@[36] as int) + (INV_MDS@[32] as int) * (MDS@[45] as int) + (INV_MDS@[33] as int) * (MDS@[54] as int) + (INV_MDS@[34] as int) * (MDS@[63] as int) + (INV_MDS@[35] as int) * (MDS@[72] as int)) % 18446744069414584321 == 0) by (nonlinear_arith)
        requires
            INV_MDS@[27] == 8986700519619826502, INV_MDS@[28] == 9279896563366898378, INV_MDS@[29] == 13003781105377603755, INV_MDS@[30] == 13654842869503478429, INV_MDS@[31] == 6040531618942127052, INV_MDS@[32] == 10790028874759868378, INV_MDS@[33] == 13470778785726456026, INV_MDS@[34] == 7979522825782598098, INV_MDS@[35] == 9027637183994064988, MDS@[0] == 15911754940807515092, MDS@[9] == 4000831318486715337, MDS@[18] == 12880740554289902608, MDS@[27] == 8444280502348543928, MDS@[36] == 14334129791615145359, MDS@[45] == 12274638267902752934, MDS@[54] == 8221443041727100385, MDS@[63] == 16372941063200117221, MDS@[72] == 12859139447927245406,
    ;
    assert(product_entry(INV_MDS@, MDS@, 9, 3, 1) == (INV_MDS@[27] as int) * (MDS@[1] as int) + (INV_MDS@[28] as int) * (MDS@[10] as int) + (INV_MDS@[29] as int) * (MDS@[19] as int) + (INV_MDS@[30] as int) * (MDS@[28] as int) + (INV_MDS@[31] as int) * (MDS@[37] as int) + (INV_MDS@[32] as int) * (MDS@[46] as int) + (INV_MDS@[33] as int) * (MDS@[55] as int) + (INV_MDS@[34] as int) * (MDS@[64] as int) + (INV_MDS@[35] as int) * (MDS@[73] as int));
    assert(((INV_MDS@[27] as int) * (MDS@[1] as int) + (INV_MDS@[28] as int) * (MDS@[10] as int) + (INV_MDS@[29] as int) * (MDS@[19] as int) + (INV_MDS@[30] as int) * (MDS@[28] as int) + (INV_MDS@[31] as int) * (MDS@[37] as int) + (INV_MDS@[32] as int) * (MDS@[46] as int) + (INV_MDS@[33] as int) * (MDS@[55] as int) + (INV_MDS@[34] as int) * (MDS@[64] as int) + (INV_MDS@[35] as int) * (MDS@[73] as int)) % 18446744069414584321 == 0) by (nonlinear_arith)
        requires
            INV_MDS@[27] == 8986700519619826502, INV_MDS@[28] == 9279896563366898378, INV_MDS@[29] == 13003781105377603755, INV_MDS@[30] == 13654842869503478429, INV_MDS@[31] == 6040531618942127052, INV_MDS@[32] == 10790028874759868378, INV_MDS@[33] == 13470778785726456026, INV_MDS@[34] == 7979522825782598098, INV_MDS@[35] == 9027637183994064988, MDS@[1] == 2711892286355972158, MDS@[10] == 13866593699749449226, MDS@[19] == 10736257011154062521, MDS@[28] == 18063596406833757604, MDS@[37] == 2684393531687652704, MDS@[46] == 10320521705305529889, MDS@[55] == 393559796193809889, MDS@[64] == 14810743068666274131, MDS@[73] == 11343755749076409967,
    ;
    assert(product_entry(INV_MDS@, MDS@, 9, 3, 2) == (INV_MDS@[27] as int) * (MDS@[2] as int) + (INV_MDS@[28] as int) * (MDS@[11] as int) + (INV_MDS@[29] as int) * (MDS@[20] as int) + (INV_MDS@[30] as int) * (MDS@[29] as int) + (INV_MDS@[31] as int) * (MDS@[38] as int) + (INV_MDS@[32] as int) * (MDS@[47] as int) + (INV_MDS@[33] as int) * (MDS@[56] as int) + (INV_MDS@[34] as int) * (MDS@[65] as int) + (INV_MDS@[35] as int) * (MDS@[74] as int));
    assert(((INV_MDS@[27] as int) * (MDS@[2] as int) + (INV_MDS@[28] as int) * (MDS@[11] as int) + (INV_MDS@[29] as int) * (MDS@[20] as int) + (INV_MDS@[30] as int) * (MDS@[29] as int) + (INV_MDS@[31] as int) * (MDS@[38] as int) + (INV_MDS@[32] as int) * (MDS@[47] as int) + (INV_MDS@[33] as int) * (MDS@[56] as int) + (INV_MDS@[34] as int) * (MDS@[65] as int) + (INV_MDS@[35] as int) * (MDS@[74] as int)) % 18446744069414584321 == 0) by (nonlinear_arith)
        requires
            INV_MDS@[27] == 8986700519619826502, INV_MDS@[28] == 9279896563366898378, INV_MDS@[29] == 13003781105377603755, INV_MDS@[30] == 13654842869503478429, INV_MDS@[31] == 6040531618942127052, INV_MDS@[32] == 10790028874759868378, INV_MDS@[33] == 13470778785726456026, INV_MDS@[34] == 7979522825782598098, INV_MDS@[35] == 9027637183994064988, MDS@[2] == 17150989262161941497, MDS@[11] == 12844960428353252001, MDS@[20] == 9684835675499922946, MDS@[29] == 1023367824000313667, MDS@[38] == 9102699125972580966, MDS@[47] == 534382282294584005, MDS@[56] == 17551880528192194831, MDS@[65] == 9540729115791359379, MDS@[74] == 12009542032810910684,
    ;
    assert(product_entry(INV_MDS@, MDS@, 9, 3, 3) == (INV_MDS@[27] as int) * (MDS@[3] as int) + (INV_MDS@[28] as int) * (MDS@[12] as int) + (INV_MDS@[29] as int) * (MDS@[21] as int) + (INV_MDS@[30] as int) * (MDS@[30] as int) + (INV_MDS@[31] as int) * (MDS@[39] as int) + (INV_MDS@[32] as int) * (MDS@[48] as int) + (INV_MDS@[33] as int) * (MDS@[57] as int) + (INV_MDS@[34] as int) * (MDS@[66] as int) + (INV_MDS@[35] as int) * (MDS@[75] as int));
    assert(((INV_MDS@[27] as int) * (MDS@[3] as int) + (INV_MDS@[28] as int) * (MDS@[12] as int) + (INV_MDS@[29] as int) * (MDS@[21] as int) + (INV_MDS@[30] as int) * (MDS@[30] as int) + (INV_MDS@[31] as int) * (MDS@[39] as int) + (INV_MDS@[32] as int) * (MDS@[48] as int) + (INV_MDS@[33] as int) * (MDS@[57] as int) + (INV_MDS@[34] as int) * (MDS@[66] as int) + (INV_MDS@[35] as int) * (MDS@[75] as int)) % 18446744069414584321 == 1) by (nonlinear_arith)
        requires
            INV_MDS@[27] == 8986700519619826502, INV_MDS@[28] == 9279896563366898378, INV_MDS@[29] == 13003781105377603755, INV_MDS@[30] == 13654842869503478429, INV_MDS@[31] == 6040531618942127052, INV_MDS@[32] == 10790028874759868378, INV_MDS@[33] == 13470778785726456026, INV_MDS@[34] == 7979522825782598098, INV_MDS@[35] == 9027637183994064988, MDS@[3] == 1745852583430594377, MDS@[12] == 582714116362056623, MDS@[21] == 17726787349382971757, MDS@[30] == 17098225262737701178, MDS@[39] == 6899282244058680396, MDS@[48] == 9894417991995566363, MDS@[57] == 11029403667917004080, MDS@[66] == 236400869707253861, MDS@[75] == 10555036868816319109,
    ;
    assert(product_entry(INV_MDS@, MDS@, 9, 3, 4) == (INV_MDS@[27] as int) * (MDS@[4] as int) + (INV_MDS@[28] as int) * (MDS@[13] as int) + (INV_MDS@[29] as int) * (MDS@[22] as int) + (INV_MDS@[30] as int) * (MDS@[31] as int) + (INV_MDS@[31] as int) * (MDS@[40] as int) + (INV_MDS@[32] as int) * (MDS@[49] as int) + (INV_MDS@[33] as int) * (MDS@[58] as int) + (INV_MDS@[34] as int) * (MDS@[67] as int) + (INV_MDS@[35] as int) * (MDS@[76] as int));
    assert(((INV_MDS@[27] as int) * (MDS@[4] as int) + (INV_MDS@[28] as int) * (MDS@[13] as int) + (INV_MDS@[29] as int) * (MDS@[22] as int) + (INV_MDS@[30] as int) * (MDS@[31] as int) + (INV_MDS@[31] as int) * (MDS@[40] as int) + (INV_MDS@[32] as int) * (MDS@[49] as int) + (INV_MDS@[33] as int) * (MDS@[58] as int) + (INV_MDS@[34] as int) * (MDS@[67] as int) + (INV_MDS@[35] as int) * (MDS@[76] as int)) % 18446744069414584321 == 0) by (nonlinear_arith)
        requires
            INV_MDS@[27] == 8986700519619826502, INV_MDS@[28] == 9279896563366898378, INV_MDS@[29] == 13003781105377603755, INV_MDS@[30] == 13654842869503478429, INV_MDS@[31] == 6040531618942127052, INV_MDS@[32] == 10790028874759868378, INV_MDS@[33] == 13470778785726456026, INV_MDS@[34] == 7979522825782598098, INV_MDS@[35] == 9027637183994064988, MDS@[4] == 565355451240421748, MDS@[13] == 3366018464571614479, MDS@[22] == 3129880678747094218, MDS@[31] == 13698883994234477975, MDS@[40] == 7336899618183924238, MDS@[49] == 18390808178506636504, MDS@[58] == 9527404663882352754, MDS@[67] == 3328476643285920097, MDS@[76] == 2382032143833076836,
    ;
    assert(product_entry(INV_MDS@, MDS@, 9, 3, 5) == (INV_MDS@[27] as int) * (MDS@[5] as int) + (INV_MDS@[28] as int) * (MDS@[14] as int) + (INV_MDS@[29] as int) * (MDS@[23] as int) + (INV_MDS@[30] as int) * (MDS@[32] as int) + (INV_MDS@[31] as int) * (MDS@[41] as int) + (INV_MDS@[32] as int) * (MDS@[50] as int) + (INV_MDS@[33] as int) * (MDS@[59] as int) + (INV_MDS@[34] as int) * (MDS@[68] as int) + (INV_MDS@[35] as int) * (MDS@[77] as int));
    assert(((INV_MDS@[27] as int) * (MDS@[5] as int) + (INV_MDS@[28] as int) * (MDS@[14] as int) + (INV_MDS@[29] as int) * (MDS@[23] as int) + (INV_MDS@[30] as int) * (MDS@[32] as int) + (INV_MDS@[31] as int) * (MDS@[41] as int) + (INV_MDS@[32] as int) * (MDS@[50] as int) + (INV_MDS@[33] as int) * (MDS@[59] as int) + (INV_MDS@[34] as int) * (MDS@[68] as int) + (INV_MDS@[35] as int) * (MDS@[77] as int)) % 18446744069414584321 == 0) by (nonlinear_arith)
        requires
            INV_MDS@[27] == 8986700519619826502, INV_MDS@[28] == 9279896563366898378, INV_MDS@[29] == 13003781105377603755, INV_MDS@[30] == 13654842869503478429, INV_MDS@[31] == 6040531618942127052, INV_MDS@[32] == 10790028874759868378, INV_MDS@[33] == 13470778785726456026, INV_MDS@[34] == 7979522825782598098, INV_MDS@[35] == 9027637183994064988, MDS@[5] == 16587236605753788891, MDS@[14] == 15938247878153142367, MDS@[23] == 10717533211705047281, MDS@[32] == 11759502291953144483, MDS@[41] == 12811728231465824079, MDS@[50] == 8691994234740331347, MDS@[59] == 15125710629080112088, MDS@[68] == 1394376324654775198, MDS@[77] == 1483676889877496082,
    ;
    assert(product_entry(INV_MDS@, MDS@, 9, 3, 6) == (INV_MDS@[27] as int) * (MDS@[6] as int) + (INV_MDS@[28] as int) * (MDS@[15] as int) + (INV_MDS@[29] as int) * (MDS@[24] as int) + (INV_MDS@[30] as int) * (MDS@[33] as int) + (INV_MDS@[31] as int) * (MDS@[42] as int) + (INV_MDS@[32] as int) * (MDS@[51] as int) + (INV_MDS@[33] as int) * (MDS@[60] as int) + (INV_MDS@[34] as int) * (MDS@[69] as int) + (INV_MDS@[35] as int) * (MDS@[78] as int));
    assert(((INV_MDS@[27] as int) * (MDS@[6] as int) + (INV_MDS@[28] as int) * (MDS@[15] as int) + (INV_MDS@[29] as int) * (MDS@[24] as int) + (INV_MDS@[30] as int) * (MDS@[33] as int) + (INV_MDS@[31] as int) * (MDS@[42] as int) + (INV_MDS@[32] as int) * (MDS@[51] as int) + (INV_MDS@[33] as int) * (MDS@[60] as int) + (INV_MDS@[34] as int) * (MDS@[69] as int) + (INV_MDS@[35] as int) * (MDS@[78] as int)) % 18446744069414584321 == 0) by (nonlinear_arith)
        requires
            INV_MDS@[27] == 8986700519619826502, INV_MDS@[28] == 9279896563366898378, INV_MDS@[29] == 13003781105377603755, INV_MDS@[30] == 13654842869503478429, INV_MDS@[31] == 6040531618942127052, INV_MDS@[32] == 10790028874759868378, INV_MDS@[33] == 13470778785726456026, INV_MDS@[34] == 7979522825782598098, INV_MDS@[35] == 9027637183994064988, MDS@[6] == 667156732699554300, MDS@[15] == 5208160849119430188, MDS@[24] == 6323700978479141929, MDS@[33] == 16538072702756198364, MDS@[42] == 3414522606789347434, MDS@[51] == 6296450013617354001, MDS@[60] == 3464609272919550073, MDS@[69] == 3244018084586040045, MDS@[78] == 16425558919997587467,
    ;
    assert(product_entry(INV_MDS@, MDS@, 9, 3, 7) == (INV_MDS@[27] as int) * (MDS@[7] as int) + (INV_MDS@[28] as int) * (MDS@[16] as int) + (INV_MDS@[29] as int) * (MDS@[25] as int) + (INV_MDS@[30] as int) * (MDS@[34] as int) + (INV_MDS@[31] as int) * (MDS@[43] as int) + (INV_MDS@[32] as int) * (MDS@[52] as int) + (INV_MDS@[33] as int) * (MDS@[61] as int) + (INV_MDS@[34] as int) * (MDS@[70] as int) + (INV_MDS@[35] as int) * (MDS@[79] as int));
    assert(((INV_MDS@[27] as int) * (MDS@[7] as int) + (INV_MDS@[28] as int) * (MDS@[16] as int) + (INV_MDS@[29] as int) * (MDS@[25] as int) + (INV_MDS@[30] as int) * (MDS@[34] as int) + (INV_MDS@[31] as int) * (MDS@[43] as int) + (INV_MDS@[32] as int) * (MDS@[52] as int) + (INV_MDS@[33] as int) * (MDS@[61] as int) + (INV_MDS@[34] as int) * (MDS@[70] as int) + (INV_MDS@[35] as int) * (MDS@[79] as int)) % 18446744069414584321 == 0) by (nonlinear_arith)
        requires
            INV_MDS@[27] == 8986700519619826502, INV_MDS@[28] == 9279896563366898378, INV_MDS@[29] == 13003781105377603755, INV_MDS@[30] == 13654842869503478429, INV_MDS@[31] == 6040531618942127052, INV_MDS@[32] == 10790028874759868378, INV_MDS@[33] == 13470778785726456026, INV_MDS@[34] == 7979522825782598098, INV_MDS@[35] == 9027637183994064988, MDS@[7] == 18446738415201823621, MDS@[16] == 17979409943366626563, MDS@[25] == 13559837768921340497, MDS@[34] == 13063382426484038143, MDS@[43] == 11622131483008073027, MDS@[52] == 14783339201082448771, MDS@[61] == 1348518148838494851, MDS@[70] == 12848315908364988429, MDS@[79] == 7912680464088162810,
    ;
    assert(product_entry(INV_MDS@, MDS@, 9, 3, 8) == (INV_MDS@[27] as int) * (MDS@[8] as int) + (INV_MDS@[28] as int) * (MDS@[17] as int) + (INV_MDS@[29] as int) * (MDS@[26] as int) + (INV_MDS@[30] as int) * (MDS@[35] as int) + (INV_MDS@[31] as int) * (MDS@[44] as int) + (INV_MDS@[32] as int) * (MDS@[53] as int) + (INV_MDS@[33] as int) * (MDS@[62] as int) + (INV_MDS@[34] as int) * (MDS@[71] as int) + (INV_MDS@[35] as int) * (MDS@[80] as int));
    assert(((INV_MDS@[27] as int) * (MDS@[8] as int) + (INV_MDS@[28] as int) * (MDS@[17] as int) + (INV_MDS@[29] as int) * (MDS@[26] as int) + (INV_MDS@[30] as int) * (MDS@[35] as int) + (INV_MDS@[31] as int) * (MDS@[44] as int) + (INV_MDS@[32] as int) * (MDS@[53] as int) + (INV_MDS@[33] as int) * (MDS@[62] as int) + (INV_MDS@[34] as int) * (MDS@[71] as int) + (INV_MDS@[35] as int) * (MDS@[80] as int)) % 18446744069414584321 == 0) by (nonlinear_arith)
        requires
            INV_MDS@[27] == 8986700519619826502, INV_MDS@[28] == 9279896563366898378, INV_MDS@[29] == 13003781105377603755, INV_MDS@[30] == 13654842869503478429, INV_MDS@[31] == 6040531618942127052, INV_MDS@[32] == 10790028874759868378, INV_MDS@[33] == 13470778785726456026, INV_MDS@[34] == 7979522825782598098, INV_MDS@[35] == 9027637183994064988, MDS@[8] == 6725601, MDS@[17] == 39579496050501, MDS@[26] == 7474147118893437849, MDS@[35] == 10991153005139330585, MDS@[44] == 5581189644877109082, MDS@[53] == 11047168471627717792, MDS@[62] == 7124446528907718334, MDS@[71] == 12010975199401608924, MDS@[80] == 17262297830645713245,
    ;
}

proof fn lemma_product_backward_row_4()
    ensures
        identity_row(Elem::modulus(), INV_MDS@, MDS@, 9, 4, 9),
{
    reveal_with_fuel(sum, 10);
    reveal_with_fuel(identity_row, 10);
    assert(product_entry(INV_MDS@, MDS@, 9, 4, 0) == (INV_MDS@[36] as int) * (MDS@[0] as int) + (INV_MDS@[37] as int) * (MDS@[9] as int) + (INV_MDS@[38] as int) * (MDS@[18] as int) + (INV_MDS@[39] as int) * (MDS@[27] as int) + (INV_MDS@[40] as int) * (MDS@[36] as int) + (INV_MDS@[41] as int) * (MDS@[45] as int) + (INV_MDS@[42] as int) * (MDS@[54] as int) + (INV_MDS@[43] as int) * (MDS@[63] as int) + (INV_MDS@[44] as int) * (MDS@[72] as int));
    assert(((INV_MDS@[36] as int) * (MDS@[0] as int) + (INV_MDS@[37] as int) * (MDS@[9] as int) + (INV_MDS@[38] as int) * (MDS@[18] as int) + (INV_MDS@[39] as int) * (MDS@[27] as int) + (INV_MDS@[40] as int) * (MDS@[36] as int) + (INV_MDS@[41] as int) * (MDS@[45] as int) + (INV_MDS@[42] as int) * (MDS@[54] as int) + (INV_MDS@[43] as int) * (MDS@[63] as int) + (INV_MDS@[44] as int) * (MDS@[72] as int)) % 18446744069414584321 == 0) by (nonlinear_arith)
        requires
            INV_MDS@[36] == 4903771519896946287, INV_MDS@[37] == 4880363692783577635, INV_MDS@[38] == 14022866956744736042, INV_MDS@[39] == 1482704328144708807, INV_MDS@[40] == 15556761641939977419, INV_MDS@[41] == 4165101601570367338, INV_MDS@[42] == 5642321549502873499, INV_MDS@[43] == 6994112155574369328, INV_MDS@[44] == 16138972831500780930, MDS@[0] == 15911754940807515092, MDS@[9] == 4000831318486715337, MDS@[18] == 12880740554289902608, MDS@[27] == 8444280502348543928, MDS@[36] == 14334129791615145359, MDS@[45] == 12274638267902752934, MDS@[54] == 8221443041727100385, MDS@[63] == 16372941063200117221, MDS@[72] == 12859139447927245406,
    ;
    assert(product_entry(INV_MDS@, MDS@, 9, 4, 1) == (INV_MDS@[36] as int) * (MDS@[1] as int) + (INV_MDS@[37] as int) * (MDS@[10] as int) + (INV_MDS@[38] as int) * (MDS@[19] as int) + (INV_MDS@[39] as int) * (MDS@[28] as int) + (INV_MDS@[40] as int) * (MDS@[37] as int) + (INV_MDS@[41] as int) * (MDS@[46] as int) + (INV_MDS@[42] as int) * (MDS@[55] as int) + (INV_MDS@[43] as int) * (MDS@[64] as int) + (INV_MDS@[44] as int) * (MDS@[73] as int));
    assert(((INV_MDS@[36] as int) * (MDS@[1] as int) + (INV_MDS@[37] as int) * (MDS@[10] as int) + (INV_MDS@[38] as int) * (MDS@[19] as int) + (INV_MDS@[39] as int) * (MDS@[28] as int) + (INV_MDS@[40] as int) * (MDS@[37] as int) + (INV_MDS@[41] as int) * (MDS@[46] as int) + (INV_MDS@[42] as int) * (MDS@[55] as int) + (INV_MDS@[43] as int) * (MDS@[64] as int) + (INV_MDS@[44] as int) * (MDS@[73] as int)) % 18446744069414584321 == 0) by (nonlinear_arith)
        requires
            INV_MDS@[36] == 4903771519896946287, INV_MDS@[37] == 4880363692783577635, INV_MDS@[38] == 14022866956744736042, INV_MDS@[39] == 1482704328144708807, INV_MDS@[40] == 15556761641939977419, INV_MDS@[41] == 4165101601570367338, INV_MDS@[42] == 5642321549502873499, INV_MDS@[43] == 6994112155574369328, INV_MDS@[44] == 16138972831500780930, MDS@[1] == 2711892286355972158, MDS@[10] == 13866593699749449226, MDS@[19] == 10736257011154062521, MDS@[28] == 18063596406833757604, MDS@[37] == 2684393531687652704, MDS@[46] == 10320521705305529889, MDS@[55] == 393559796193809889, MDS@[64] == 14810743068666274131, MDS@[73] == 11343755749076409967,
    ;
    assert(product_entry(INV_MDS@, MDS@, 9, 4, 2) == (INV_MDS@[36] as int) * (MDS@[2] as int) + (INV_MDS@[37] as int) * (MDS@[11] as int) + (INV_MDS@[38] as int) * (MDS@[20] as int) + (INV_MDS@[39] as int) * (MDS@[29] as int) + (INV_MDS@[40] as int) * (MDS@[38] as int) + (INV_MDS@[41] as int) * (MDS@[47] as int) + (INV_MDS@[42] as int) * (MDS@[56] as int) + (INV_MDS@[43] as int) * (MDS@[65] as int) + (INV_MDS@[44] as int) * (MDS@[74] as int));
    assert(((INV_MDS@[36] as int) * (MDS@[2] as int) + (INV_MDS@[37] as int) * (MDS@[11] as int) + (INV_MDS@[38] as int) * (MDS@[20] as int) + (INV_MDS@[39] as int) * (MDS@[29] as int) + (INV_MDS@[40] as int) * (MDS@[38] as int) + (INV_MDS@[41] as int) * (MDS@[47] as int) + (INV_MDS@[42] as int) * (MDS@[56] as int) + (INV_MDS@[43] as int) * (MDS@[65] as int) + (INV_MDS@[44] as int) * (MDS@[74] as int)) % 18446744069414584321 == 0) by (nonlinear_arith)
        requires
            INV_MDS@[36] == 4903771519896946287, INV_MDS@[37] == 4880363692783577635, INV_MDS@[38] == 14022866956744736042, INV_MDS@[39] == 1482704328144708807, INV_MDS@[40] == 15556761641939977419, INV_MDS@[41] == 4165101601570367338, INV_MDS@[42] == 5642321549502873499, INV_MDS@[43] == 6994112155574369328, INV_MDS@[44] == 16138972831500780930, MDS@[2] == 17150989262161941497, MDS@[11] == 12844960428353252001, MDS@[20] == 9684835675499922946, MDS@[29] == 1023367824000313667, MDS@[38] == 9102699125972580966, MDS@[47] == 534382282294584005, MDS@[56] == 17551880528192194831, MDS@[65] == 9540729115791359379, MDS@[74] == 12009542032810910684,
    ;
    assert(product_entry(INV_MDS@, MDS@, 9, 4, 3) == (INV_MDS@[36] as int) * (MDS@[3] as int) + (INV_MDS@[37] as int) * (MDS@[12] as int) + (INV_MDS@[38] as int) * (MDS@[21] as int) + (INV_MDS@[39] as int) * (MDS@[30] as int) + (INV_MDS@[40] as int) * (MDS@[39] as int) + (INV_MDS@[41] as int) * (MDS@[48] as int) + (INV_MDS@[42] as int) * (MDS@[57] as int) + (INV_MDS@[43] as int) * (MDS@[66] as int) + (INV_MDS@[44] as int) * (MDS@[75] as int));
    assert(((INV_MDS@[36] as int) * (MDS@[3] as int) + (INV_MDS@[37] as int) * (MDS@[12] as int) + (INV_MDS@[38] as int) * (MDS@[21] as int) + (INV_MDS@[39] as int) * (MDS@[30] as int) + (INV_MDS@[40] as int) * (MDS@[39] as int) + (INV_MDS@[41] as int) * (MDS@[48] as int) + (INV_MDS@[42] as int) * (MDS@[57] as int) + (INV_MDS@[43] as int) * (MDS@[66] as int) + (INV_MDS@[44] as int) * (MDS@[75] as int)) % 18446744069414584321 == 0) by (nonlinear_arith)
        requires
            INV_MDS@[36] == 4903771519896946287, INV_MDS@[37] == 4880363692783577635, INV_MDS@[38] == 14022866956744736042, INV_MDS@[39] == 1482704328144708807, INV_MDS@[40] == 15556761641939977419, INV_MDS@[41] == 4165101601570367338, INV_MDS@[42] == 5642321549502873499, INV_MDS@[43] == 6994112155574369328, INV_MDS@[44] == 16138972831500780930, MDS@[3] == 1745852583430594377, MDS@[12] == 582714116362056623, MDS@[21] == 17726787349382971757, MDS@[30] == 17098225262737701178, MDS@[39] == 6899282244058680396, MDS@[48] == 9894417991995566363, MDS@[57] == 11029403667917004080, MDS@[66] == 236400869707253861, MDS@[75] == 10555036868816319109,
    ;
    assert(product_entry(INV_MDS@, MDS@, 9, 4, 4) == (INV_MDS@[36] as int) * (MDS@[4] as int) + (INV_MDS@[37] as int) * (MDS@[13] as int) + (INV_MDS@[38] as int) * (MDS@[22] as int) + (INV_MDS@[39] as int) * (MDS@[31] as int) + (INV_MDS@[40] as int) * (MDS@[40] as int) + (INV_MDS@[41] as int) * (MDS@[49] as int) + (INV_MDS@[42] as int) * (MDS@[58] as int) + (INV_MDS@[43] as int) * (MDS@[67] as int) + (INV_MDS@[44] as int) * (MDS@[76] as int));
    assert(((INV_MDS@[36] as int) * (MDS@[4] as int) + (INV_MDS@[37] as int) * (MDS@[13] as int) + (INV_MDS@[38] as int) * (MDS@[22] as int) + (INV_MDS@[39] as int) * (MDS@[31] as int) + (INV_MDS@[40] as int) * (MDS@[40] as int) + (INV_MDS@[41] as int) * (MDS@[49] as int) + (INV_MDS@[42] as int) * (MDS@[58] as int) + (INV_MDS@[43] as int) * (MDS@[67] as int) + (INV_MDS@[44] as int) * (MDS@[76] as int)) % 18446744069414584321 == 1) by (nonlinear_arith)
        requires
            INV_MDS@[36] == 4903771519896946287, INV_MDS@[37] == 4880363692783577635, INV_MDS@[38] == 14022866956744736042, INV_MDS@[39] == 1482704328144708807, INV_MDS@[40] == 15556761641939977419, INV_MDS@[41] == 4165101601570367338, INV_MDS@[42] == 5642321549502873499, INV_MDS@[43] == 6994112155574369328, INV_MDS@[44] == 16138972831500780930, MDS@[4] == 565355451240421748, MDS@[13] == 3366018464571614479, MDS@[22] == 3129880678747094218, MDS@[31] == 13698883994234477975, MDS@[40] == 7336899618183924238, MDS@[49] == 18390808178506636504, MDS@[58] == 9527404663882352754, MDS@[67] == 3328476643285920097, MDS@[76] == 2382032143833076836,
    ;
    assert(product_entry(INV_MDS@, MDS@, 9, 4, 5) == (INV_MDS@[36] as int) * (MDS@[5] as int) + (INV_MDS@[37] as int) * (MDS@[14] as int) + (INV_MDS@[38] as int) * (MDS@[23] as int) + (INV_MDS@[39] as int) * (MDS@[32] as int) + (INV_MDS@[40] as int) * (MDS@[41] as int) + (INV_MDS@[41] as int) * (MDS@[50] as int) + (INV_MDS@[42] as int) * (MDS@[59] as int) + (INV_MDS@[43] as int) * (MDS@[68] as int) + (INV_MDS@[44] as int) * (MDS@[77] as int));
    assert(((INV_MDS@[36] as int) * (MDS@[5] as int) + (INV_MDS@[37] as int) * (MDS@[14] as int) + (INV_MDS@[38] as int) * (MDS@[23] as int) + (INV_MDS@[39] as int) * (MDS@[32] as int) + (INV_MDS@[40] as int) * (MDS@[41] as int) + (INV_MDS@[41] as int) * (MDS@[50] as int) + (INV_MDS@[42] as int) * (MDS@[59] as int) + (INV_MDS@[43] as int) * (MDS@[68] as int) + (INV_MDS@[44] as int) * (MDS@[77] as int)) % 18446744069414584321 == 0) by (nonlinear_arith)
        requires
            INV_MDS@[36] == 4903771519896946287, INV_MDS@[37] == 4880363692783577635, INV_MDS@[38] == 14022866956744736042, INV_MDS@[39] == 1482704328144708807, INV_MDS@[40] == 15556761641939977419, INV_MDS@[41] == 4165101601570367338, INV_MDS@[42] == 5642321549502873499, INV_MDS@[43] == 6994112155574369328, INV_MDS@[44] == 16138972831500780930, MDS@[5] == 16587236605753788891, MDS@[14] == 15938247878153142367, MDS@[23] == 10717533211705047281, MDS@[32] == 11759502291953144483, MDS@[41] == 12811728231465824079, MDS@[50] == 8691994234740331347, MDS@[59] == 15125710629080112088, MDS@[68] == 1394376324654775198, MDS@[77] == 1483676889877496082,
    ;
    assert(product_entry(INV_MDS@, MDS@, 9, 4, 6) == (INV_MDS@[36] as int) * (MDS@[6] as int) + (INV_MDS@[37] as int) * (MDS@[15] as int) + (INV_MDS@[38] as int) * (MDS@[24] as int) + (INV_MDS@[39] as int) * (MDS@[33] as int) + (INV_MDS@[40] as int) * (MDS@[42] as int) + (INV_MDS@[41] as int) * (MDS@[51] as int) + (INV_MDS@[42] as int) * (MDS@[60] as int) + (INV_MDS@[43] as int) * (MDS@[69] as int) + (INV_MDS@[44] as int) * (MDS@[78] as int));
    assert(((INV_MDS@[36] as int) * (MDS@[6] as int) + (INV_MDS@[37] as int) * (MDS@[15] as int) + (INV_MDS@[38] as int) * (MDS@[24] as int) + (INV_MDS@[39] as int) * (MDS@[33] as int) + (INV_MDS@[40] as int) * (MDS@[42] as int) + (INV_MDS@[41] as int) * (MDS@[51] as int) + (INV_MDS@[42] as int) * (MDS@[60] as int) + (INV_MDS@[43] as int) * (MDS@[69] as int) + (INV_MDS@[44] as int) * (MDS@[78] as int)) % 18446744069414584321 == 0) by (nonlinear_arith)
        requires
            INV_MDS@[36] == 4903771519896946287, INV_MDS@[37] == 4880363692783577635, INV_MDS@[38] == 14022866956744736042, INV_MDS@[39] == 1482704328144708807, INV_MDS@[40] == 15556761641939977419, INV_MDS@[41] == 4165101601570367338, INV_MDS@[42] == 5642321549502873499, INV_MDS@[43] == 6994112155574369328, INV_MDS@[44] == 16138972831500780930, MDS@[6] == 667156732699554300, MDS@[15] == 5208160849119430188, MDS@[24] == 6323700978479141929, MDS@[33] == 16538072702756198364, MDS@[42] == 3414522606789347434, MDS@[51] == 6296450013617354001, MDS@[60] == 3464609272919550073, MDS@[69] == 3244018084586040045, MDS@[78] == 16425558919997587467,
    ;
    assert(product_entry(INV_MDS@, MDS@, 9, 4, 7) == (INV_MDS@[36] as int) * (MDS@[7] as int) + (INV_MDS@[37] as int) * (MDS@[16] as int) + (INV_MDS@[38] as int) * (MDS@[25] as int) + (INV_MDS@[39] as int) * (MDS@[34] as int) + (INV_MDS@[40] as int) * (MDS@[43] as int) + (INV_MDS@[41] as int) * (MDS@[52] as int) + (INV_MDS@[42] as int) * (MDS@[61] as int) + (INV_MDS@[43] as int) * (MDS@[70] as int) + (INV_MDS@[44] as int) * (MDS@[79] as int));
    assert(((INV_MDS@[36] as int) * (MDS@[7] as int) + (INV_MDS@[37] as int) * (MDS@[16] as int) + (INV_MDS@[38] as int) * (MDS@[25] as int) + (INV_MDS@[39] as int) * (MDS@[34] as int) + (INV_MDS@[40] as int) * (MDS@[43] as int) + (INV_MDS@[41] as int) * (MDS@[52] as int) + (INV_MDS@[42] as int) * (MDS@[61] as int) + (INV_MDS@[43] as int) * (MDS@[70] as int) + (INV_MDS@[44] as int) * (MDS@[79] as int)) % 18446744069414584321 == 0) by (nonlinear_arith)
        requires
            INV_MDS@[36] == 4903771519896946287, INV_MDS@[37] == 4880363692783577635, INV_MDS@[38] == 14022866956744736042, INV_MDS@[39] == 1482704328144708807, INV_MDS@[40] == 15556761641939977419, INV_MDS@[41] == 4165101601570367338, INV_MDS@[42] == 5642321549502873499, INV_MDS@[43] == 6994112155574369328, INV_MDS@[44] == 16138972831500780930, MDS@[7] == 18446738415201823621, MDS@[16] == 17979409943366626563, MDS@[25] == 13559837768921340497, MDS@[34] == 13063382426484038143, MDS@[43] == 11622131483008073027, MDS@[52] == 14783339201082448771, MDS@[61] == 1348518148838494851, MDS@[70] == 12848315908364988429, MDS@[79] == 7912680464088162810,
    ;
    assert(product_entry(INV_MDS@, MDS@, 9, 4, 8) == (INV_MDS@[36] as int) * (MDS@[8] as int) + (INV_MDS@[37] as int) * (MDS@[17] as int) + (INV_MDS@[38] as int) * (MDS@[26] as int) + (INV_MDS@[39] as int) * (MDS@[35] as int) + (INV_MDS@[40] as int) * (MDS@[44] as int) + (INV_MDS@[41] as int) * (MDS@[53] as int) + (INV_MDS@[42] as int) * (MDS@[62] as int) + (INV_MDS@[43] as int) * (MDS@[71] as int) + (INV_MDS@[44] as int) * (MDS@[80] as int));
    assert(((INV_MDS@[36] as int) * (MDS@[8] as int) + (INV_MDS@[37] as int) * (MDS@[17] as int) + (INV_MDS@[38] as int) * (MDS@[26] as int) + (INV_MDS@[39] as int) * (MDS@[35] as int) + (INV_MDS@[40] as int) * (MDS@[44] as int) + (INV_MDS@[41] as int) * (MDS@[53] as int) + (INV_MDS@[42] as int) * (MDS@[62] as int) + (INV_MDS@[43] as int) * (MDS@[71] as int) + (INV_MDS@[44] as int) * (MDS@[80] as int)) % 18446744069414584321 == 0) by (nonlinear_arith)
        requires
            INV_MDS@[36] == 4903771519896946287, INV_MDS@[37] == 4880363692783577635, INV_MDS@[38] == 14022866956744736042, INV_MDS@[39] == 1482704328144708807, INV_MDS@[40] == 15556761641939977419, INV_MDS@[41] == 4165101601570367338, INV_MDS@[42] == 5642321549502873499, INV_MDS@[43] == 6994112155574369328, INV_MDS@[44] == 16138972831500780930, MDS@[8] == 6725601, MDS@[17] == 39579496050501, MDS@[26] == 7474147118893437849, MDS@[35] == 10991153005139330585, MDS@[44] == 5581189644877109082, MDS@[53] == 11047168471627717792, MDS@[62] == 7124446528907718334, MDS@[71] == 12010975199401608924, MDS@[80] == 17262297830645713245,
    ;
}

proof fn lemma_product_backward_row_5()
    ensures
        identity_row(Elem::modulus(), INV_MDS@, MDS@, 9, 5, 9),
{
    reveal_with_fuel(sum, 10);
    reveal_with_fuel(identity_row, 10);
    assert(product_entry(INV_MDS@, MDS@, 9, 5, 0) == (INV_MDS@[45] as int) * (MDS@[0] as int) + (INV_MDS@[46] as int) * (MDS@[9] as int) + (INV_MDS@[47] as int) * (MDS@[18] as int) + (INV_MDS@[48] as int) * (MDS@[27] as int) + (INV_MDS@[49] as int) * (MDS@[36] as int) + (INV_MDS@[50] as int) * (MDS@[45] as int) + (INV_MDS@[51] as int) * (MDS@[54] as int) + (INV_MDS@[52] as int) * (MDS@[63] as int) + (INV_MDS@[53] as int) * (MDS@[72] as int));
    assert(((INV_MDS@[45] as int) * (MDS@[0] as int) + (INV_MDS@[46] as int) * (MDS@[9] as int) + (INV_MDS@[47] as int) * (MDS@[18] as int) + (INV_MDS@[48] as int) * (MDS@[27] as int) + (INV_MDS@[49] as int) * (MDS@[36] as int) + (INV_MDS@[50] as int) * (MDS@[45] as int) + (INV_MDS@[51] as int) * (MDS@[54] as int) + (INV_MDS@[52] as int) * (MDS@[63] as int) + (INV_MDS@[53] as int) * (MDS@[72] as int)) % 18446744069414584321 == 0) by (nonlinear_arith)
        requires
            INV_MDS@[45] == 9097855105810106273, INV_MDS@[46] == 11304812409172332644, INV_MDS@[47] == 5495002765127845140, INV_MDS@[48] == 17349450637489595112, INV_MDS@[49] == 5711132269931307421, INV_MDS@[50] == 12428043081259626558, INV_MDS@[51] == 1120990037650345611, INV_MDS@[52] == 7030824490151679826, INV_MDS@[53] == 4248865481065498700, MDS@[0] == 15911754940807515092, MDS@[9] == 4000831318486715337, MDS@[18] == 12880740554289902608, MDS@[27] == 8444280502348543928, MDS@[36] == 14334129791615145359, MDS@[45] == 12274638267902752934, MDS@[54] == 8221443041727100385, MDS@[63] == 16372941063200117221, MDS@[72] == 12859139447927245406,
    ;
    assert(product_entry(INV_MDS@, MDS@, 9, 5, 1) == (INV_MDS@[45] as int) * (MDS@[1] as int) + (INV_MDS@[46] as int) * (MDS@[10] as int) + (INV_MDS@[47] as int) * (MDS@[19] as int) + (INV_MDS@[48] as int) * (MDS@[28] as int) + (INV_MDS@[49] as int) * (MDS@[37] as int) + (INV_MDS@[50] as int) * (MDS@[46] as int) + (INV_MDS@[51] as int) * (MDS@[55] as int) + (INV_MDS@[52] as int) * (MDS@[64] as int) + (INV_MDS@[53] as int) * (MDS@[73] as int));
    assert(((INV_MDS@[45] as int) * (MDS@[1] as int) + (INV_MDS@[46] as int) * (MDS@[10] as int) + (INV_MDS@[47] as int) * (MDS@[19] as int) + (INV_MDS@[48] as int) * (MDS@[28] as int) + (INV_MDS@[49] as int) * (MDS@[37] as int) + (INV_MDS@[50] as int) * (MDS@[46] as int) + (INV_MDS@[51] as int) * (MDS@[55] as int) + (INV_MDS@[52] as int) * (MDS@[64] as int) + (INV_MDS@[53] as int) * (MDS@[73] as int)) % 18446744069414584321 == 0) by (nonlinear_arith)
        requires
            INV_MDS@[45] == 9097855105810106273, INV_MDS@[46] == 11304812409172332644, INV_MDS@[47] == 5495002765127845140, INV_MDS@[48] == 17349450637489595112, INV_MDS@[49] == 5711132269931307421, INV_MDS@[50] == 12428043081259626558, INV_MDS@[51] == 1120990037650345611, INV_MDS@[52] == 7030824490151679826, INV_MDS@[53] == 4248865481065498700, MDS@[1] == 2711892286355972158, MDS@[10] == 13866593699749449226, MDS@[19] == 10736257011154062521, MDS@[28] == 18063596406833757604, MDS@[37] == 2684393531687652704, MDS@[46] == 10320521705305529889, MDS@[55] == 393559796193809889, MDS@[64] == 14810743068666274131, MDS@[73] == 11343755749076409967,
    ;
    assert(product_entry(INV_MDS@, MDS@, 9, 5, 2) == (INV_MDS@[45] as int) * (MDS@[2] as int) + (INV_MDS@[46] as int) * (MDS@[11] as int) + (INV_MDS@[47] as int) * (MDS@[20] as int) + (INV_MDS@[48] as int) * (MDS@[29] as int) + (INV_MDS@[49] as int) * (MDS@[38] as int) + (INV_MDS@[50] as int) * (MDS@[47] as int) + (INV_MDS@[51] as int) * (MDS@[56] as int) + (INV_MDS@[52] as int) * (MDS@[65] as int) + (INV_MDS@[53] as int) * (MDS@[74] as int));
    assert(((INV_MDS@[45] as int) * (MDS@[2] as int) + (INV_MDS@[46] as int) * (MDS@[11] as int) + (INV_MDS@[47] as int) * (MDS@[20] as int) + (INV_MDS@[48] as int) * (MDS@[29] as int) + (INV_MDS@[49] as int) * (MDS@[38] as int) + (INV_MDS@[50] as int) * (MDS@[47] as int) + (INV_MDS@[51] as int) * (MDS@[56] as int) + (INV_MDS@[52] as int) * (MDS@[65] as int) + (INV_MDS@[53] as int) * (MDS@[74] as int)) % 18446744069414584321 == 0) by (nonlinear_arith)
        requires
            INV_MDS@[45] == 9097855105810106273, INV_MDS@[46] == 11304812409172332644, INV_MDS@[47] == 5495002765127845140, INV_MDS@[48] == 17349450637489595112, INV_MDS@[49] == 5711132269931307421, INV_MDS@[50] == 12428043081259626558, INV_MDS@[51] == 1120990037650345611, INV_MDS@[52] == 7030824490151679826, INV_MDS@[53] == 4248865481065498700, MDS@[2] == 17150989262161941497, MDS@[11] == 12844960428353252001, MDS@[20] == 9684835675499922946, MDS@[29] == 1023367824000313667, MDS@[38] == 9102699125972580966, MDS@[47] == 534382282294584005, MDS@[56] == 17551880528192194831, MDS@[65] == 9540729115791359379, MDS@[74] == 12009542032810910684,
    ;
    assert(product_entry(INV_MDS@, MDS@, 9, 5, 3) == (INV_MDS@[45] as int) * (MDS@[3] as int) + (INV_MDS@[46] as int) * (MDS@[12] as int) + (INV_MDS@[47] as int) * (MDS@[21] as int) + (INV_MDS@[48] as int) * (MDS@[30] as int) + (INV_MDS@[49] as int) * (MDS@[39] as int) + (INV_MDS@[50] as int) * (MDS@[48] as int) + (INV_MDS@[51] as int) * (MDS@[57] as int) + (INV_MDS@[52] as int) * (MDS@[66] as int) + (INV_MDS@[53] as int) * (MDS@[75] as int));
    assert(((INV_MDS@[45] as int) * (MDS@[3] as int) + (INV_MDS@[46] as int) * (MDS@[12] as int) + (INV_MDS@[47] as int) * (MDS@[21] as int) + (INV_MDS@[48] as int) * (MDS@[30] as int) + (INV_MDS@[49] as int) * (MDS@[39] as int) + (INV_MDS@[50] as int) * (MDS@[48] as int) + (INV_MDS@[51] as int) * (MDS@[57] as int) + (INV_MDS@[52] as int) * (MDS@[66] as int) + (INV_MDS@[53] as int) * (MDS@[75] as int)) % 18446744069414584321 == 0) by (nonlinear_arith)
        requires
            INV_MDS@[45] == 9097855105810106273, INV_MDS@[46] == 11304812409172332644, INV_MDS@[47] == 5495002765127845140, INV_MDS@[48] == 17349450637489595112, INV_MDS@[49] == 5711132269931307421, INV_MDS@[50] == 12428043081259626558, INV_MDS@[51] == 1120990037650345611, INV_MDS@[52] == 7030824490151679826, INV_MDS@[53] == 4248865481065498700, MDS@[3] == 1745852583430594377, MDS@[12] == 582714116362056623, MDS@[21] == 17726787349382971757, MDS@[30] == 17098225262737701178, MDS@[39] == 6899282244058680396, MDS@[48] == 9894417991995566363, MDS@[57] == 11029403667917004080, MDS@[66] == 236400869707253861, MDS@[75] == 10555036868816319109,
    ;
    assert(product_entry(INV_MDS@, MDS@, 9, 5, 4) == (INV_MDS@[45] as int) * (MDS@[4] as int) + (INV_MDS@[46] as int) * (MDS@[13] as int) + (INV_MDS@[47] as int) * (MDS@[22] as int) + (INV_MDS@[48] as int) * (MDS@[31] as int) + (INV_MDS@[49] as int) * (MDS@[40] as int) + (INV_MDS@[50] as int) * (MDS@[49] as int) + (INV_MDS@[51] as int) * (MDS@[58] as int) + (INV_MDS@[52] as int) * (MDS@[67] as int) + (INV_MDS@[53] as int) * (MDS@[76] as int));
    assert(((INV_MDS@[45] as int) * (MDS@[4] as int) + (INV_MDS@[46] as int) * (MDS@[13] as int) + (INV_MDS@[47] as int) * (MDS@[22] as int) + (INV_MDS@[48] as int) * (MDS@[31] as int) + (INV_MDS@[49] as int) * (MDS@[40] as int) + (INV_MDS@[50] as int) * (MDS@[49] as int) + (INV_MDS@[51] as int) * (MDS@[58] as int) + (INV_MDS@[52] as int) * (MDS@[67] as int) + (INV_MDS@[53] as int) * (MDS@[76] as int)) % 18446744069414584321 == 0) by (nonlinear_arith)
        requires
            INV_MDS@[45] == 9097855105810106273, INV_MDS@[46] == 11304812409172332644, INV_MDS@[47] == 5495002765127845140, INV_MDS@[48] == 17349450637489595112, INV_MDS@[49] == 5711132269931307421, INV_MDS@[50] == 12428043081259626558, INV_MDS@[51] == 1120990037650345611, INV_MDS@[52] == 7030824490151679826, INV_MDS@[53] == 4248865481065498700, MDS@[4] == 565355451240421748, MDS@[13] == 3366018464571614479, MDS@[22] == 3129880678747094218, MDS@[31] == 13698883994234477975, MDS@[40] == 7336899618183924238, MDS@[49] == 18390808178506636504, MDS@[58] == 9527404663882352754, MDS@[67] == 3328476643285920097, MDS@[76] == 2382032143833076836,
    ;
    assert(product_entry(INV_MDS@, MDS@, 9, 5, 5) == (INV_MDS@[45] as int) * (MDS@[5] as int) + (INV_MDS@[46] as int) * (MDS@[14] as int) + (INV_MDS@[47] as int) * (MDS@[23] as int) + (INV_MDS@[48] as int) * (MDS@[32] as int) + (INV_MDS@[49] as int) * (MDS@[41] as int) + (INV_MDS@[50] as int) * (MDS@[50] as int) + (INV_MDS@[51] as int) * (MDS@[59] as int) + (INV_MDS@[52] as int) * (MDS@[68] as int) + (INV_MDS@[53] as int) * (MDS@[77] as int));
    assert(((INV_MDS@[45] as int) * (MDS@[5] as int) + (INV_MDS@[46] as int) * (MDS@[14] as int) + (INV_MDS@[47] as int) * (MDS@[23] as int) + (INV_MDS@[48] as int) * (MDS@[32] as int) + (INV_MDS@[49] as int) * (MDS@[41] as int) + (INV_MDS@[50] as int) * (MDS@[50] as int) + (INV_MDS@[51] as int) * (MDS@[59] as int) + (INV_MDS@[52] as int) * (MDS@[68] as int) + (INV_MDS@[53] as int) * (MDS@[77] as int)) % 18446744069414584321 == 1) by (nonlinear_arith)
        requires
            INV_MDS@[45] == 9097855105810106273, INV_MDS@[46] == 11304812409172332644, INV_MDS@[47] == 5495002765127845140, INV_MDS@[48] == 17349450637489595112, INV_MDS@[49] == 5711132269931307421, INV_MDS@[50] == 12428043081259626558, INV_MDS@[51] == 1120990037650345611, INV_MDS@[52] == 7030824490151679826, INV_MDS@[53] == 4248865481065498700, MDS@[5] == 16587236605753788891, MDS@[14] == 15938247878153142367, MDS@[23] == 10717533211705047281, MDS@[32] == 11759502291953144483, MDS@[41] == 12811728231465824079, MDS@[50] == 8691994234740331347, MDS@[59] == 15125710629080112088, MDS@[68] == 1394376324654775198, MDS@[77] == 1483676889877496082,
    ;
    assert(product_entry(INV_MDS@, MDS@, 9, 5, 6) == (INV_MDS@[45] as int) * (MDS@[6] as int) + (INV_MDS@[46] as int) * (MDS@[15] as int) + (INV_MDS@[47] as int) * (MDS@[24] as int) + (INV_MDS@[48] as int) * (MDS@[33] as int) + (INV_MDS@[49] as int) * (MDS@[42] as int) + (INV_MDS@[50] as int) * (MDS@[51] as int) + (INV_MDS@[51] as int) * (MDS@[60] as int) + (INV_MDS@[52] as int) * (MDS@[69] as int) + (INV_MDS@[53] as int) * (MDS@[78] as int));
    assert(((INV_MDS@[45] as int) * (MDS@[6] as int) + (INV_MDS@[46] as int) * (MDS@[15] as int) + (INV_MDS@[47] as int) * (MDS@[24] as int) + (INV_MDS@[48] as int) * (MDS@[33] as int) + (INV_MDS@[49] as int) * (MDS@[42] as int) + (INV_MDS@[50] as int) * (MDS@[51] as int) + (INV_MDS@[51] as int) * (MDS@[60] as int) + (INV_MDS@[52] as int) * (MDS@[69] as int) + (INV_MDS@[53] as int) * (MDS@[78] as int)) % 18446744069414584321 == 0) by (nonlinear_arith)
        requires
            INV_MDS@[45] == 9097855105810106273, INV_MDS@[46] == 11304812409172332644, INV_MDS@[47] == 5495002765127845140, INV_MDS@[48] == 17349450637489595112, INV_MDS@[49] == 5711132269931307421, INV_MDS@[50] == 12428043081259626558, INV_MDS@[51] == 1120990037650345611, INV_MDS@[52] == 7030824490151679826, INV_MDS@[53] == 4248865481065498700, MDS@[6] == 667156732699554300, MDS@[15] == 5208160849119430188, MDS@[24] == 6323700978479141929, MDS@[33] == 16538072702756198364, MDS@[42] == 3414522606789347434, MDS@[51] == 6296450013617354001, MDS@[60] == 3464609272919550073, MDS@[69] == 3244018084586040045, MDS@[78] == 16425558919997587467,
    ;
    assert(product_entry(INV_MDS@, MDS@, 9, 5, 7) == (INV_MDS@[45] as int) * (MDS@[7] as int) + (INV_MDS@[46] as int) * (MDS@[16] as int) + (INV_MDS@[47] as int) * (MDS@[25] as int) + (INV_MDS@[48] as int) * (MDS@[34] as int) + (INV_MDS@[49] as int) * (MDS@[43] as int) + (INV_MDS@[50] as int) * (MDS@[52] as int) + (INV_MDS@[51] as int) * (MDS@[61] as int) + (INV_MDS@[52] as int) * (MDS@[70] as int) + (INV_MDS@[53] as int) * (MDS@[79] as int));
    assert(((INV_MDS@[45] as int) * (MDS@[7] as int) + (INV_MDS@[46] as int) * (MDS@[16] as int) + (INV_MDS@[47] as int) * (MDS@[25] as int) + (INV_MDS@[48] as int) * (MDS@[34] as int) + (INV_MDS@[49] as int) * (MDS@[43] as int) + (INV_MDS@[50] as int) * (MDS@[52] as int) + (INV_MDS@[51] as int) * (MDS@[61] as int) + (INV_MDS@[52] as int) * (MDS@[70] as int) + (INV_MDS@[53] as int) * (MDS@[79] as int)) % 18446744069414584321 == 0) by (nonlinear_arith)
        requires
            INV_MDS@[45] == 9097855105810106273, INV_MDS@[46] == 11304812409172332644, INV_MDS@[47] == 5495002765127845140, INV_MDS@[48] == 17349450637489595112, INV_MDS@[49] == 5711132269931307421, INV_MDS@[50] == 12428043081259626558, INV_MDS@[51] == 1120990037650345611, INV_MDS@[52] == 7030824490151679826, INV_MDS@[53] == 4248865481065498700, MDS@[7] == 18446738415201823621, MDS@[16] == 17979409943366626563, MDS@[25] == 13559837768921340497, MDS@[34] == 13063382426484038143, MDS@[43] == 11622131483008073027, MDS@[52] == 14783339201082448771, MDS@[61] == 1348518148838494851, MDS@[70] == 12848315908364988429, MDS@[79] == 7912680464088162810,
    ;
    assert(product_entry(INV_MDS@, MDS@, 9, 5, 8) == (INV_MDS@[45] as int) * (MDS@[8] as int) + (INV_MDS@[46] as int) * (MDS@[17] as int) + (INV_MDS@[47] as int) * (MDS@[26] as int) + (INV_MDS@[48] as int) * (MDS@[35] as int) + (INV_MDS@[49] as int) * (MDS@[44] as int) + (INV_MDS@[50] as int) * (MDS@[53] as int) + (INV_MDS@[51] as int) * (MDS@[62] as int) + (INV_MDS@[52] as int) * (MDS@[71] as int) + (INV_MDS@[53] as int) * (MDS@[80] as int));
    assert(((INV_MDS@[45] as int) * (MDS@[8] as int) + (INV_MDS@[46] as int) * (MDS@[17] as int) + (INV_MDS@[47] as int) * (MDS@[26] as int) + (INV_MDS@[48] as int) * (MDS@[35] as int) + (INV_MDS@[49] as int) * (MDS@[44] as int) + (INV_MDS@[50] as int) * (MDS@[53] as int) + (INV_MDS@[51] as int) * (MDS@[62] as int) + (INV_MDS@[52] as int) * (MDS@[71] as int) + (INV_MDS@[53] as int) * (MDS@[80] as int)) % 18446744069414584321 == 0) by (nonlinear_arith)
        requires
            INV_MDS@[45] == 9097855105810106273, INV_MDS@[46] == 11304812409172332644, INV_MDS@[47] == 5495002765127845140, INV_MDS@[48] == 17349450637489595112, INV_MDS@[49] == 5711132269931307421, INV_MDS@[50] == 12428043081259626558, INV_MDS@[51] == 1120990037650345611, INV_MDS@[52] == 7030824490151679826, INV_MDS@[53] == 4248865481065498700, MDS@[8] == 6725601, MDS@[17] == 39579496050501, MDS@[26] == 7474147118893437849, MDS@[35] == 10991153005139330585, MDS@[44] == 5581189644877109082, MDS@[53] == 11047168471627717792, MDS@[62] == 7124446528907718334, MDS@[71] == 12010975199401608924, MDS@[80] == 17262297830645713245,
    ;
}

proof fn lemma_product_backward_row_6()
    ensures
        identity_row(Elem::modulus(), INV_MDS@, MDS@, 9, 6, 9),
{
    reveal_with_fuel(sum, 10);
    reveal_with_fuel(identity_row, 10);
    assert(product_entry(INV_MDS@, MDS@, 9, 6, 0) == (INV_MDS@[54] as int) * (MDS@[0] as int) + (INV_MDS@[55] as int) * (MDS@[9] as int) + (INV_MDS@[56] as int) * (MDS@[18] as int) + (INV_MDS@[57] as int) * (MDS@[27] as int) + (INV_MDS@[58] as int) * (MDS@[36] as int) + (INV_MDS@[59] as int) * (MDS@[45] as int) + (INV_MDS@[60] as int) * (MDS@[54] as int) + (INV_MDS@[61] as int) * (MDS@[63] as int) + (INV_MDS@[62] as int) * (MDS@[72] as int));
    assert(((INV_MDS@[54] as int) * (MDS@[0] as int) + (INV_MDS@[55] as int) * (MDS@[9] as int) + (INV_MDS@[56] as int) * (MDS@[18] as int) + (INV_MDS@[57] as int) * (MDS@[27] as int) + (INV_MDS@[58] as int) * (MDS@[36] as int) + (INV_MDS@[59] as int) * (MDS@[45] as int) + (INV_MDS@[60] as int) * (MDS@[54] as int) + (INV_MDS@[61] as int) * (MDS@[63] as int) + (INV_MDS@[62] as int) * (MDS@[72] as int)) % 18446744069414584321 == 0) by (nonlinear_arith)
        requires
            INV_MDS@[54] == 3935402967907460435, INV_MDS@[55] == 6216932751277754590, INV_MDS@[56] == 9244633293430859140, INV_MDS@[57] == 2315497648650709885, INV_MDS@[58] == 11837871652379070246, INV_MDS@[59] == 4914401822520226103, INV_MDS@[60] == 4327473378007705992, INV_MDS@[61] == 14868197986830246925, INV_MDS@[62] == 16126564776654303969, MDS@[0] == 15911754940807515092, MDS@[9] == 4000831318486715337, MDS@[18] == 12880740554289902608, MDS@[27] == 8444280502348543928, MDS@[36] == 14334129791615145359, MDS@[45] == 12274638267902752934, MDS@[54] == 8221443041727100385, MDS@[63] == 16372941063200117221, MDS@[72] == 12859139447927245406,
    ;
    assert(product_entry(INV_MDS@, MDS@, 9, 6, 1) == (INV_MDS@[54] as int) * (MDS@[1] as int) + (INV_MDS@[55] as int) * (MDS@[10] as int) + (INV_MDS@[56] as int) * (MDS@[19] as int) + (INV_MDS@[57] as int) * (MDS@[28] as int) + (INV_MDS@[58] as int) * (MDS@[37] as int) + (INV_MDS@[59] as int) * (MDS@[46] as int) + (INV_MDS@[60] as int) * (MDS@[55] as int) + (INV_MDS@[61] as int) * (MDS@[64] as int) + (INV_MDS@[62] as int) * (MDS@[73] as int));
    assert(((INV_MDS@[54] as int) * (MDS@[1] as int) + (INV_MDS@[55] as int) * (MDS@[10] as int) + (INV_MDS@[56] as int) * (MDS@[19] as int) + (INV_MDS@[57] as int) * (MDS@[28] as int) + (INV_MDS@[58] as int) * (MDS@[37] as int) + (INV_MDS@[59] as int) * (MDS@[46] as int) + (INV_MDS@[60] as int) * (MDS@[55] as int) + (INV_MDS@[61] as int) * (MDS@[64] as int) + (INV_MDS@[62] as int) * (MDS@[73] as int)) % 18446744069414584321 == 0) by (nonlinear_arith)
        requires
            INV_MDS@[54] == 3935402967907460435, INV_MDS@[55] == 6216932751277754590, INV_MDS@[56] == 9244633293430859140, INV_MDS@[57] == 2315497648650709885, INV_MDS@[58] == 11837871652379070246, INV_MDS@[59] == 4914401822520226103, INV_MDS@[60] == 4327473378007705992, INV_MDS@[61] == 14868197986830246925, INV_MDS@[62] == 16126564776654303969, MDS@[1] == 2711892286355972158, MDS@[10] == 13866593699749449226, MDS@[19] == 10736257011154062521, MDS@[28] == 18063596406833757604, MDS@[37] == 2684393531687652704, MDS@[46] == 10320521705305529889, MDS@[55] == 393559796193809889, MDS@[64] == 14810743068666274131, MDS@[73] == 11343755749076409967,
    ;
    assert(product_entry(INV_MDS@, MDS@, 9, 6, 2) == (INV_MDS@[54] as int) * (MDS@[2] as int) + (INV_MDS@[55] as int) * (MDS@[11] as int) + (INV_MDS@[56] as int) * (MDS@[20] as int) + (INV_MDS@[57] as int) * (MDS@[29] as int) + (INV_MDS@[58] as int) * (MDS@[38] as int) + (INV_MDS@[59] as int) * (MDS@[47] as int) + (INV_MDS@[60] as int) * (MDS@[56] as int) + (INV_MDS@[61] as int) * (MDS@[65] as int) + (INV_MDS@[62] as int) * (MDS@[74] as int));
    assert(((INV_MDS@[54] as int) * (MDS@[2] as int) + (INV_MDS@[55] as int) * (MDS@[11] as int) + (INV_MDS@[56] as int) * (MDS@[20] as int) + (INV_MDS@[57] as int) * (MDS@[29] as int) + (INV_MDS@[58] as int) * (MDS@[38] as int) + (INV_MDS@[59] as int) * (MDS@[47] as int) + (INV_MDS@[60] as int) * (MDS@[56] as int) + (INV_MDS@[61] as int) * (MDS@[65] as int) + (INV_MDS@[62] as int) * (MDS@[74] as int)) % 18446744069414584321 == 0) by (nonlinear_arith)
        requires
            INV_MDS@[54] == 3935402967907460435, INV_MDS@[55] == 6216932751277754590, INV_MDS@[56] == 9244633293430859140, INV_MDS@[57] == 2315497648650709885, INV_MDS@[58] == 11837871652379070246, INV_MDS@[59] == 4914401822520226103, INV_MDS@[60] == 4327473378007705992, INV_MDS@[61] == 14868197986830246925, INV_MDS@[62] == 16126564776654303969, MDS@[2] == 17150989262161941497, MDS@[11] == 12844960428353252001, MDS@[20] == 9684835675499922946, MDS@[29] == 1023367824000313667, MDS@[38] == 9102699125972580966, MDS@[47] == 534382282294584005, MDS@[56] == 17551880528192194831, MDS@[65] == 9540729115791359379, MDS@[74] == 12009542032810910684,
    ;
    assert(product_entry(INV_MDS@, MDS@, 9, 6, 3) == (INV_MDS@[54] as int) * (MDS@[3] as int) + (INV_MDS@[55] as int) * (MDS@[12] as int) + (INV_MDS@[56] as int) * (MDS@[21] as int) + (INV_MDS@[57] as int) * (MDS@[30] as int) + (INV_MDS@[58] as int) * (MDS@[39] as int) + (INV_MDS@[59] as int) * (MDS@[48] as int) + (INV_MDS@[60] as int) * (MDS@[57] as int) + (INV_MDS@[61] as int) * (MDS@[66] as int) + (INV_MDS@[62] as int) * (MDS@[75] as int));
    assert(((INV_MDS@[54] as int) * (MDS@[3] as int) + (INV_MDS@[55] as int) * (MDS@[12] as int) + (INV_MDS@[56] as int) * (MDS@[21] as int) + (INV_MDS@[57] as int) * (MDS@[30] as int) + (INV_MDS@[58] as int) * (MDS@[39] as int) + (INV_MDS@[59] as int) * (MDS@[48] as int) + (INV_MDS@[60] as int) * (MDS@[57] as int) + (INV_MDS@[61] as int) * (MDS@[66] as int) + (INV_MDS@[62] as int) * (MDS@[75] as int)) % 18446744069414584321 == 0) by (nonlinear_arith)
        requires
            INV_MDS@[54] == 3935402967907460435, INV_MDS@[55] == 6216932751277754590, INV_MDS@[56] == 9244633293430859140, INV_MDS@[57] == 2315497648650709885, INV_MDS@[58] == 11837871652379070246, INV_MDS@[59] == 4914401822520226103, INV_MDS@[60] == 4327473378007705992, INV_MDS@[61] == 14868197986830246925, INV_MDS@[62] == 16126564776654303969, MDS@[3] == 1745852583430594377, MDS@[12] == 582714116362056623, MDS@[21] == 17726787349382971757, MDS@[30] == 17098225262737701178, MDS@[39] == 6899282244058680396, MDS@[48] == 9894417991995566363, MDS@[57] == 11029403667917004080, MDS@[66] == 236400869707253861, MDS@[75] == 10555036868816319109,
    ;
    assert(product_entry(INV_MDS@, MDS@, 9, 6, 4) == (INV_MDS@[54] as int) * (MDS@[4] as int) + (INV_MDS@[55] as int) * (MDS@[13] as int) + (INV_MDS@[56] as int) * (MDS@[22] as int) + (INV_MDS@[57] as int) * (MDS@[31] as int) + (INV_MDS@[58] as int) * (MDS@[40] as int) + (INV_MDS@[59] as int) * (MDS@[49] as int) + (INV_MDS@[60] as int) * (MDS@[58] as int) + (INV_MDS@[61] as int) * (MDS@[67] as int) + (INV_MDS@[62] as int) * (MDS@[76] as int));
    assert(((INV_MDS@[54] as int) * (MDS@[4] as int) + (INV_MDS@[55] as int) * (MDS@[13] as int) + (INV_MDS@[56] as int) * (MDS@[22] as int) + (INV_MDS@[57] as int) * (MDS@[31] as int) + (INV_MDS@[58] as int) * (MDS@[40] as int) + (INV_MDS@[59] as int) * (MDS@[49] as int) + (INV_MDS@[60] as int) * (MDS@[58] as int) + (INV_MDS@[61] as int) * (MDS@[67] as int) + (INV_MDS@[62] as int) * (MDS@[76] as int)) % 18446744069414584321 == 0) by (nonlinear_arith)
        requires
            INV_MDS@[54] == 3935402967907460435, INV_MDS@[55] == 6216932751277754590, INV_MDS@[56] == 9244633293430859140, INV_MDS@[57] == 2315497648650709885, INV_MDS@[58] == 11837871652379070246, INV_MDS@[59] == 4914401822520226103, INV_MDS@[60] == 4327473378007705992, INV_MDS@[61] == 14868197986830246925, INV_MDS@[62] == 16126564776654303969, MDS@[4] == 565355451240421748, MDS@[13] == 3366018464571614479, MDS@[22] == 3129880678747094218, MDS@[31] == 13698883994234477975, MDS@[40] == 7336899618183924238, MDS@[49] == 18390808178506636504, MDS@[58] == 9527404663882352754, MDS@[67] == 3328476643285920097, MDS@[76] == 2382032143833076836,
    ;
    assert(product_entry(INV_MDS@, MDS@, 9, 6, 5) == (INV_MDS@[54] as int) * (MDS@[5] as int) + (INV_MDS@[55] as int) * (MDS@[14] as int) + (INV_MDS@[56] as int) * (MDS@[23] as int) + (INV_MDS@[57] as int) * (MDS@[32] as int) + (INV_MDS@[58] as int) * (MDS@[41] as int) + (INV_MDS@[59] as int) * (MDS@[50] as int) + (INV_MDS@[60] as int) * (MDS@[59] as int) + (INV_MDS@[61] as int) * (MDS@[68] as int) + (INV_MDS@[62] as int) * (MDS@[77] as int));
    assert(((INV_MDS@[54] as int) * (MDS@[5] as int) + (INV_MDS@[55] as int) * (MDS@[14] as int) + (INV_MDS@[56] as int) * (MDS@[23] as int) + (INV_MDS@[57] as int) * (MDS@[32] as int) + (INV_MDS@[58] as int) * (MDS@[41] as int) + (INV_MDS@[59] as int) * (MDS@[50] as int) + (INV_MDS@[60] as int) * (MDS@[59] as int) + (INV_MDS@[61] as int) * (MDS@[68] as int) + (INV_MDS@[62] as int) * (MDS@[77] as int)) % 18446744069414584321 == 0) by (nonlinear_arith)
        requires
            INV_MDS@[54] == 3935402967907460435, INV_MDS@[55] == 6216932751277754590, INV_MDS@[56] == 9244633293430859140, INV_MDS@[57] == 2315497648650709885, INV_MDS@[58] == 11837871652379070246, INV_MDS@[59] == 4914401822520226103, INV_MDS@[60] == 4327473378007705992, INV_MDS@[61] == 14868197986830246925, INV_MDS@[62] == 16126564776654303969, MDS@[5] == 16587236605753788891, MDS@[14] == 15938247878153142367, MDS@[23] == 10717533211705047281, MDS@[32] == 11759502291953144483, MDS@[41] == 12811728231465824079, MDS@[50] == 8691994234740331347, MDS@[59] == 15125710629080112088, MDS@[68] == 1394376324654775198, MDS@[77] == 1483676889877496082,
    ;
    assert(product_entry(INV_MDS@, MDS@, 9, 6, 6) == (INV_MDS@[54] as int) * (MDS@[6] as int) + (INV_MDS@[55] as int) * (MDS@[15] as int) + (INV_MDS@[56] as int) * (MDS@[24] as int) + (INV_MDS@[57] as int) * (MDS@[33] as int) + (INV_MDS@[58] as int) * (MDS@[42] as int) + (INV_MDS@[59] as int) * (MDS@[51] as int) + (INV_MDS@[60] as int) * (MDS@[60] as int) + (INV_MDS@[61] as int) * (MDS@[69] as int) + (INV_MDS@[62] as int) * (MDS@[78] as int));
    assert(((INV_MDS@[54] as int) * (MDS@[6] as int) + (INV_MDS@[55] as int) * (MDS@[15] as int) + (INV_MDS@[56] as int) * (MDS@[24] as int) + (INV_MDS@[57] as int) * (MDS@[33] as int) + (INV_MDS@[58] as int) * (MDS@[42] as int) + (INV_MDS@[59] as int) * (MDS@[51] as int) + (INV_MDS@[60] as int) * (MDS@[60] as int) + (INV_MDS@[61] as int) * (MDS@[69] as int) + (INV_MDS@[62] as int) * (MDS@[78] as int)) % 18446744069414584321 == 1) by (nonlinear_arith)
        requires
            INV_MDS@[54] == 3935402967907460435, INV_MDS@[55] == 6216932751277754590, INV_MDS@[56] == 9244633293430859140, INV_MDS@[57] == 2315497648650709885, INV_MDS@[58] == 11837871652379070246, INV_MDS@[59] == 4914401822520226103, INV_MDS@[60] == 4327473378007705992, INV_MDS@[61] == 14868197986830246925, INV_MDS@[62] == 16126564776654303969, MDS@[6] == 667156732699554300, MDS@[15] == 5208160849119430188, MDS@[24] == 6323700978479141929, MDS@[33] == 16538072702756198364, MDS@[42] == 3414522606789347434, MDS@[51] == 6296450013617354001, MDS@[60] == 3464609272919550073, MDS@[69] == 3244018084586040045, MDS@[78] == 16425558919997587467,
    ;
    assert(product_entry(INV_MDS@, MDS@, 9, 6, 7) == (INV_MDS@[54] as int) * (MDS@[7] as int) + (INV_MDS@[55] as int) * (MDS@[16] as int) + (INV_MDS@[56] as int) * (MDS@[25] as int) + (INV_MDS@[57] as int) * (MDS@[34] as int) + (INV_MDS@[58] as int) * (MDS@[43] as int) + (INV_MDS@[59] as int) * (MDS@[52] as int) + (INV_MDS@[60] as int) * (MDS@[61] as int) + (INV_MDS@[61] as int) * (MDS@[70] as int) + (INV_MDS@[62] as int) * (MDS@[79] as int));
    assert(((INV_MDS@[54] as int) * (MDS@[7] as int) + (INV_MDS@[55] as int) * (MDS@[16] as int) + (INV_MDS@[56] as int) * (MDS@[25] as int) + (INV_MDS@[57] as int) * (MDS@[34] as int) + (INV_MDS@[58] as int) * (MDS@[43] as int) + (INV_MDS@[59] as int) * (MDS@[52] as int) + (INV_MDS@[60] as int) * (MDS@[61] as int) + (INV_MDS@[61] as int) * (MDS@[70] as int) + (INV_MDS@[62] as int) * (MDS@[79] as int)) % 18446744069414584321 == 0) by (nonlinear_arith)
        requires
            INV_MDS@[54] == 3935402967907460435, INV_MDS@[55] == 6216932751277754590, INV_MDS@[56] == 9244633293430859140, INV_MDS@[57] == 2315497648650709885, INV_MDS@[58] == 11837871652379070246, INV_MDS@[59] == 4914401822520226103, INV_MDS@[60] == 4327473378007705992, INV_MDS@[61] == 14868197986830246925, INV_MDS@[62] == 16126564776654303969, MDS@[7] == 18446738415201823621, MDS@[16] == 17979409943366626563, MDS@[25] == 13559837768921340497, MDS@[34] == 13063382426484038143, MDS@[43] == 11622131483008073027, MDS@[52] == 14783339201082448771, MDS@[61] == 1348518148838494851, MDS@[70] == 12848315908364988429, MDS@[79] == 7912680464088162810,
    ;
    assert(product_entry(INV_MDS@, MDS@, 9, 6, 8) == (INV_MDS@[54] as int) * (MDS@[8] as int) + (INV_MDS@[55] as int) * (MDS@[17] as int) + (INV_MDS@[56] as int) * (MDS@[26] as int) + (INV_MDS@[57] as int) * (MDS@[35] as int) + (INV_MDS@[58] as int) * (MDS@[44] as int) + (INV_MDS@[59] as int) * (MDS@[53] as int) + (INV_MDS@[60] as int) * (MDS@[62] as int) + (INV_MDS@[61] as int) * (MDS@[71] as int) + (INV_MDS@[62] as int) * (MDS@[80] as int));
    assert(((INV_MDS@[54] as int) * (MDS@[8] as int) + (INV_MDS@[55] as int) * (MDS@[17] as int) + (INV_MDS@[56] as int) * (MDS@[26] as int) + (INV_MDS@[57] as int) * (MDS@[35] as int) + (INV_MDS@[58] as int) * (MDS@[44] as int) + (INV_MDS@[59] as int) * (MDS@[53] as int) + (INV_MDS@[60] as int) * (MDS@[62] as int) + (INV_MDS@[61] as int) * (MDS@[71] as int) + (INV_MDS@[62] as int) * (MDS@[80] as int)) % 18446744069414584321 == 0) by (nonlinear_arith)
        requires
            INV_MDS@[54] == 3935402967907460435, INV_MDS@[55] == 6216932751277754590, INV_MDS@[56] == 9244633293430859140, INV_MDS@[57] == 2315497648650709885, INV_MDS@[58] == 11837871652379070246, INV_MDS@[59] == 4914401822520226103, INV_MDS@[60] == 4327473378007705992, INV_MDS@[61] == 14868197986830246925, INV_MDS@[62] == 16126564776654303969, MDS@[8] == 6725601, MDS@[17] == 39579496050501, MDS@[26] == 7474147118893437849, MDS@[35] == 10991153005139330585, MDS@[44] == 5581189644877109082, MDS@[53] == 11047168471627717792, MDS@[62] == 7124446528907718334, MDS@[71] == 12010975199401608924, MDS@[80] == 17262297830645713245,
    ;
}

proof fn lemma_product_backward_row_7()
    ensures
        identity_row(Elem::modulus(), INV_MDS@, MDS@, 9, 7, 9),
{
    reveal_with_fuel(sum, 10);
    reveal_with_fuel(identity_row, 10);
    assert(product_entry(INV_MDS@, MDS@, 9, 7, 0) == (INV_MDS@[63] as int) * (MDS@[0] as int) + (INV_MDS@[64] as int) * (MDS@[9] as int) + (INV_MDS@[65] as int) * (MDS@[18] as int) + (INV_MDS@[66] as int) * (MDS@[27] as int) + (INV_MDS@[67] as int) * (MDS@[36] as int) + (INV_MDS@[68] as int) * (MDS@[45] as int) + (INV_MDS@[69] as int) * (MDS@[54] as int) + (INV_MDS@[70] as int) * (MDS@[63] as int) + (INV_MDS@[71] as int) * (MDS@[72] as int));
    assert(((INV_MDS@[63] as int) * (MDS@[0] as int) + (INV_MDS@[64] as int) * (MDS@[9] as int) + (INV_MDS@[65] as int) * (MDS@[18] as int) + (INV_MDS@[66] as int) * (MDS@[27] as int) + (INV_MDS@[67] as int) * (MDS@[36] as int) + (INV_MDS@[68] as int) * (MDS@[45] as int) + (INV_MDS@[69] as int) * (MDS@[54] as int) + (INV_MDS@[70] as int) * (MDS@[63] as int) + (INV_MDS@[71] as int) * (MDS@[72] as int)) % 18446744069414584321 == 0) by (nonlinear_arith)
        requires
            INV_MDS@[63] == 14340817518001988765, INV_MDS@[64] == 10854148653441472529, INV_MDS@[65] == 17665873453485278662, INV_MDS@[66] == 9485609402492606939, INV_MDS@[67] == 15595726145931404890, INV_MDS@[68] == 16357593446793026710, INV_MDS@[69] == 15060277806204701300, INV_MDS@[70] == 16200124235946144513, INV_MDS@[71] == 13567037823605465940, MDS@[0] == 15911754940807515092, MDS@[9] == 4000831318486715337, MDS@[18] == 12880740554289902608, MDS@[27] == 8444280502348543928, MDS@[36] == 14334129791615145359, MDS@[45] == 12274638267902752934, MDS@[54] == 8221443041727100385, MDS@[63] == 16372941063200117221, MDS@[72] == 12859139447927245406,
    ;
    assert(product_entry(INV_MDS@, MDS@, 9, 7, 1) == (INV_MDS@[63] as int) * (MDS@[1] as int) + (INV_MDS@[64] as int) * (MDS@[10] as int) + (INV_MDS@[65] as int) * (MDS@[19] as int) + (INV_MDS@[66] as int) * (MDS@[28] as int) + (INV_MDS@[67] as int) * (MDS@[37] as int) + (INV_MDS@[68] as int) * (MDS@[46] as int) + (INV_MDS@[69] as int) * (MDS@[55] as int) + (INV_MDS@[70] as int) * (MDS@[64] as int) + (INV_MDS@[71] as int) * (MDS@[73] as int));
    assert(((INV_MDS@[63] as int) * (MDS@[1] as int) + (INV_MDS@[64] as int) * (MDS@[10] as int) + (INV_MDS@[65] as int) * (MDS@[19] as int) + (INV_MDS@[66] as int) * (MDS@[28] as int) + (INV_MDS@[67] as int) * (MDS@[37] as int) + (INV_MDS@[68] as int) * (MDS@[46] as int) + (INV_MDS@[69] as int) * (MDS@[55] as int) + (INV_MDS@[70] as int) * (MDS@[64] as int) + (INV_MDS@[71] as int) * (MDS@[73] as int)) % 18446744069414584321 == 0) by (nonlinear_arith)
        requires
            INV_MDS@[63] == 14340817518001988765, INV_MDS@[64] == 10854148653441472529, INV_MDS@[65] == 17665873453485278662, INV_MDS@[66] == 9485609402492606939, INV_MDS@[67] == 15595726145931404890, INV_MDS@[68] == 16357593446793026710, INV_MDS@[69] == 15060277806204701300, INV_MDS@[70] == 16200124235946144513, INV_MDS@[71] == 13567037823605465940, MDS@[1] == 2711892286355972158, MDS@[10] == 13866593699749449226, MDS@[19] == 10736257011154062521, MDS@[28] == 18063596406833757604, MDS@[37] == 2684393531687652704, MDS@[46] == 10320521705305529889, MDS@[55] == 393559796193809889, MDS@[64] == 14810743068666274131, MDS@[73] == 11343755749076409967,
    ;
    assert(product_entry(INV_MDS@, MDS@, 9, 7, 2) == (INV_MDS@[63] as int) * (MDS@[2] as int) + (INV_MDS@[64] as int) * (MDS@[11] as int) + (INV_MDS@[65] as int) * (MDS@[20] as int) + (INV_MDS@[66] as int) * (MDS@[29] as int) + (INV_MDS@[67] as int) * (MDS@[38] as int) + (INV_MDS@[68] as int) * (MDS@[47] as int) + (INV_MDS@[69] as int) * (MDS@[56] as int) + (INV_MDS@[70] as int) * (MDS@[65] as int) + (INV_MDS@[71] as int) * (MDS@[74] as int));
    assert(((INV_MDS@[63] as int) * (MDS@[2] as int) + (INV_MDS@[64] as int) * (MDS@[11] as int) + (INV_MDS@[65] as int) * (MDS@[20] as int) + (INV_MDS@[66] as int) * (MDS@[29] as int) + (INV_MDS@[67] as int) * (MDS@[38] as int) + (INV_MDS@[68] as int) * (MDS@[47] as int) + (INV_MDS@[69] as int) * (MDS@[56] as int) + (INV_MDS@[70] as int) * (MDS@[65] as int) + (INV_MDS@[71] as int) * (MDS@[74] as int)) % 18446744069414584321 == 0) by (nonlinear_arith)
        requires
            INV_MDS@[63] == 14340817518001988765, INV_MDS@[64] == 10854148653441472529, INV_MDS@[65] == 17665873453485278662, INV_MDS@[66] == 9485609402492606939, INV_MDS@[67] == 15595726145931404890, INV_MDS@[68] == 16357593446793026710, INV_MDS@[69] == 15060277806204701300, INV_MDS@[70] == 16200124235946144513, INV_MDS@[71] == 13567037823605465940, MDS@[2] == 17150989262161941497, MDS@[11] == 12844960428353252001, MDS@[20] == 9684835675499922946, MDS@[29] == 1023367824000313667, MDS@[38] == 9102699125972580966, MDS@[47] == 534382282294584005, MDS@[56] == 17551880528192194831, MDS@[65] == 9540729115791359379, MDS@[74] == 12009542032810910684,
    ;
    assert(product_entry(INV_MDS@, MDS@, 9, 7, 3) == (INV_MDS@[63] as int) * (MDS@[3] as int) + (INV_MDS@[64] as int) * (MDS@[12] as int) + (INV_MDS@[65] as int) * (MDS@[21] as int) + (INV_MDS@[66] as int) * (MDS@[30] as int) + (INV_MDS@[67] as int) * (MDS@[39] as int) + (INV_MDS@[68] as int) * (MDS@[48] as int) + (INV_MDS@[69] as int) * (MDS@[57] as int) + (INV_MDS@[70] as int) * (MDS@[66] as int) + (INV_MDS@[71] as int) * (MDS@[75] as int));
    assert(((INV_MDS@[63] as int) * (MDS@[3] as int) + (INV_MDS@[64] as int) * (MDS@[12] as int) + (INV_MDS@[65] as int) * (MDS@[21] as int) + (INV_MDS@[66] as int) * (MDS@[30] as int) + (INV_MDS@[67] as int) * (MDS@[39] as int) + (INV_MDS@[68] as int) * (MDS@[48] as int) + (INV_MDS@[69] as int) * (MDS@[57] as int) + (INV_MDS@[70] as int) * (MDS@[66] as int) + (INV_MDS@[71] as int) * (MDS@[75] as int)) % 18446744069414584321 == 0) by (nonlinear_arith)
        requires
            INV_MDS@[63] == 14340817518001988765, INV_MDS@[64] == 10854148653441472529, INV_MDS@[65] == 17665873453485278662, INV_MDS@[66] == 9485609402492606939, INV_MDS@[67] == 15595726145931404890, INV_MDS@[68] == 16357593446793026710, INV_MDS@[69] == 15060277806204701300, INV_MDS@[70] == 16200124235946144513, INV_MDS@[71] == 13567037823605465940, MDS@[3] == 1745852583430594377, MDS@[12] == 582714116362056623, MDS@[21] == 17726787349382971757, MDS@[30] == 17098225262737701178, MDS@[39] == 6899282244058680396, MDS@[48] == 9894417991995566363, MDS@[57] == 11029403667917004080, MDS@[66] == 236400869707253861, MDS@[75] == 10555036868816319109,
    ;
    assert(product_entry(INV_MDS@, MDS@, 9, 7, 4) == (INV_MDS@[63] as int) * (MDS@[4] as int) + (INV_MDS@[64] as int) * (MDS@[13] as int) + (INV_MDS@[65] as int) * (MDS@[22] as int) + (INV_MDS@[66] as int) * (MDS@[31] as int) + (INV_MDS@[67] as int) * (MDS@[40] as int) + (INV_MDS@[68] as int) * (MDS@[49] as int) + (INV_MDS@[69] as int) * (MDS@[58] as int) + (INV_MDS@[70] as int) * (MDS@[67] as int) + (INV_MDS@[71] as int) * (MDS@[76] as int));
    assert(((INV_MDS@[63] as int) * (MDS@[4] as int) + (INV_MDS@[64] as int) * (MDS@[13] as int) + (INV_MDS@[65] as int) * (MDS@[22] as int) + (INV_MDS@[66] as int) * (MDS@[31] as int) + (INV_MDS@[67] as int) * (MDS@[40] as int) + (INV_MDS@[68] as int) * (MDS@[49] as int) + (INV_MDS@[69] as int) * (MDS@[58] as int) + (INV_MDS@[70] as int) * (MDS@[67] as int) + (INV_MDS@[71] as int) * (MDS@[76] as int)) % 18446744069414584321 == 0) by (nonlinear_arith)
        requires
            INV_MDS@[63] == 14340817518001988765, INV_MDS@[64] == 10854148653441472529, INV_MDS@[65] == 17665873453485278662, INV_MDS@[66] == 9485609402492606939, INV_MDS@[67] == 15595726145931404890, INV_MDS@[68] == 16357593446793026710, INV_MDS@[69] == 15060277806204701300, INV_MDS@[70] == 16200124235946144513, INV_MDS@[71] == 13567037823605465940, MDS@[4] == 565355451240421748, MDS@[13] == 3366018464571614479, MDS@[22] == 3129880678747094218, MDS@[31] == 13698883994234477975, MDS@[40] == 7336899618183924238, MDS@[49] == 18390808178506636504, MDS@[58] == 9527404663882352754, MDS@[67] == 3328476643285920097, MDS@[76] == 2382032143833076836,
    ;
    assert(product_entry(INV_MDS@, MDS@, 9, 7, 5) == (INV_MDS@[63] as int) * (MDS@[5] as int) + (INV_MDS@[64] as int) * (MDS@[14] as int) + (INV_MDS@[65] as int) * (MDS@[23] as int) + (INV_MDS@[66] as int) * (MDS@[32] as int) + (INV_MDS@[67] as int) * (MDS@[41] as int) + (INV_MDS@[68] as int) * (MDS@[50] as int) + (INV_MDS@[69] as int) * (MDS@[59] as int) + (INV_MDS@[70] as int) * (MDS@[68] as int) + (INV_MDS@[71] as int) * (MDS@[77] as int));
    assert(((INV_MDS@[63] as int) * (MDS@[5] as int) + (INV_MDS@[64] as int) * (MDS@[14] as int) + (INV_MDS@[65] as int) * (MDS@[23] as int) + (INV_MDS@[66] as int) * (MDS@[32] as int) + (INV_MDS@[67] as int) * (MDS@[41] as int) + (INV_MDS@[68] as int) * (MDS@[50] as int) + (INV_MDS@[69] as int) * (MDS@[59] as int) + (INV_MDS@[70] as int) * (MDS@[68] as int) + (INV_MDS@[71] as int) * (MDS@[77] as int)) % 18446744069414584321 == 0) by (nonlinear_arith)
        requires
            INV_MDS@[63] == 14340817518001988765, INV_MDS@[64] == 10854148653441472529, INV_MDS@[65] == 17665873453485278662, INV_MDS@[66] == 9485609402492606939, INV_MDS@[67] == 15595726145931404890, INV_MDS@[68] == 16357593446793026710, INV_MDS@[69] == 15060277806204701300, INV_MDS@[70] == 16200124235946144513, INV_MDS@[71] == 13567037823605465940, MDS@[5] == 16587236605753788891, MDS@[14] == 15938247878153142367, MDS@[23] == 10717533211705047281, MDS@[32] == 11759502291953144483, MDS@[41] == 12811728231465824079, MDS@[50] == 8691994234740331347, MDS@[59] == 15125710629080112088, MDS@[68] == 1394376324654775198, MDS@[77] == 1483676889877496082,
    ;
    assert(product_entry(INV_MDS@, MDS@, 9, 7, 6) == (INV_MDS@[63] as int) * (MDS@[6] as int) + (INV_MDS@[64] as int) * (MDS@[15] as int) + (INV_MDS@[65] as int) * (MDS@[24] as int) + (INV_MDS@[66] as int) * (MDS@[33] as int) + (INV_MDS@[67] as int) * (MDS@[42] as int) + (INV_MDS@[68] as int) * (MDS@[51] as int) + (INV_MDS@[69] as int) * (MDS@[60] as int) + (INV_MDS@[70] as int) * (MDS@[69] as int) + (INV_MDS@[71] as int) * (MDS@[78] as int));
    assert(((INV_MDS@[63] as int) * (MDS@[6] as int) + (INV_MDS@[64] as int) * (MDS@[15] as int) + (INV_MDS@[65] as int) * (MDS@[24] as int) + (INV_MDS@[66] as int) * (MDS@[33] as int) + (INV_MDS@[67] as int) * (MDS@[42] as int) + (INV_MDS@[68] as int) * (MDS@[51] as int) + (INV_MDS@[69] as int) * (MDS@[60] as int) + (INV_MDS@[70] as int) * (MDS@[69] as int) + (INV_MDS@[71] as int) * (MDS@[78] as int)) % 18446744069414584321 == 0) by (nonlinear_arith)
        requires
            INV_MDS@[63] == 14340817518001988765, INV_MDS@[64] == 10854148653441472529, INV_MDS@[65] == 17665873453485278662, INV_MDS@[66] == 9485609402492606939, INV_MDS@[67] == 15595726145931404890, INV_MDS@[68] == 16357593446793026710, INV_MDS@[69] == 15060277806204701300, INV_MDS@[70] == 16200124235946144513, INV_MDS@[71] == 13567037823605465940, MDS@[6] == 667156732699554300, MDS@[15] == 5208160849119430188, MDS@[24] == 6323700978479141929, MDS@[33] == 16538072702756198364, MDS@[42] == 3414522606789347434, MDS@[51] == 6296450013617354001, MDS@[60] == 3464609272919550073, MDS@[69] == 3244018084586040045, MDS@[78] == 16425558919997587467,
    ;
    assert(product_entry(INV_MDS@, MDS@, 9, 7, 7) == (INV_MDS@[63] as int) * (MDS@[7] as int) + (INV_MDS@[64] as int) * (MDS@[16] as int) + (INV_MDS@[65] as int) * (MDS@[25] as int) + (INV_MDS@[66] as int) * (MDS@[34] as int) + (INV_MDS@[67] as int) * (MDS@[43] as int) + (INV_MDS@[68] as int) * (MDS@[52] as int) + (INV_MDS@[69] as int) * (MDS@[61] as int) + (INV_MDS@[70] as int) * (MDS@[70] as int) + (INV_MDS@[71] as int) * (MDS@[79] as int));
    assert(((INV_MDS@[63] as int) * (MDS@[7] as int) + (INV_MDS@[64] as int) * (MDS@[16] as int) + (INV_MDS@[65] as int) * (MDS@[25] as int) + (INV_MDS@[66] as int) * (MDS@[34] as int) + (INV_MDS@[67] as int) * (MDS@[43] as int) + (INV_MDS@[68] as int) * (MDS@[52] as int) + (INV_MDS@[69] as int) * (MDS@[61] as int) + (INV_MDS@[70] as int) * (MDS@[70] as int) + (INV_MDS@[71] as int) * (MDS@[79] as int)) % 18446744069414584321 == 1) by (nonlinear_arith)
        requires
            INV_MDS@[63] == 14340817518001988765, INV_MDS@[64] == 10854148653441472529, INV_MDS@[65] == 17665873453485278662, INV_MDS@[66] == 9485609402492606939, INV_MDS@[67] == 15595726145931404890, INV_MDS@[68] == 16357593446793026710, INV_MDS@[69] == 15060277806204701300, INV_MDS@[70] == 16200124235946144513, INV_MDS@[71] == 13567037823605465940, MDS@[7] == 18446738415201823621, MDS@[16] == 17979409943366626563, MDS@[25] == 13559837768921340497, MDS@[34] == 13063382426484038143, MDS@[43] == 11622131483008073027, MDS@[52] == 14783339201082448771, MDS@[61] == 1348518148838494851, MDS@[70] == 12848315908364988429, MDS@[79] == 7912680464088162810,
    ;
    assert(product_entry(INV_MDS@, MDS@, 9, 7, 8) == (INV_MDS@[63] as int) * (MDS@[8] as int) + (INV_MDS@[64] as int) * (MDS@[17] as int) + (INV_MDS@[65] as int) * (MDS@[26] as int) + (INV_MDS@[66] as int) * (MDS@[35] as int) + (INV_MDS@[67] as int) * (MDS@[44] as int) + (INV_MDS@[68] as int) * (MDS@[53] as int) + (INV_MDS@[69] as int) * (MDS@[62] as int) + (INV_MDS@[70] as int) * (MDS@[71] as int) + (INV_MDS@[71] as int) * (MDS@[80] as int));
    assert(((INV_MDS@[63] as int) * (MDS@[8] as int) + (INV_MDS@[64] as int) * (MDS@[17] as int) + (INV_MDS@[65] as int) * (MDS@[26] as int) + (INV_MDS@[66] as int) * (MDS@[35] as int) + (INV_MDS@[67] as int) * (MDS@[44] as int) + (INV_MDS@[68] as int) * (MDS@[53] as int) + (INV_MDS@[69] as int) * (MDS@[62] as int) + (INV_MDS@[70] as int) * (MDS@[71] as int) + (INV_MDS@[71] as int) * (MDS@[80] as int)) % 18446744069414584321 == 0) by (nonlinear_arith)
        requires
            INV_MDS@[63] == 14340817518001988765, INV_MDS@[64] == 10854148653441472529, INV_MDS@[65] == 17665873453485278662, INV_MDS@[66] == 9485609402492606939, INV_MDS@[67] == 15595726145931404890, INV_MDS@[68] == 16357593446793026710, INV_MDS@[69] == 15060277806204701300, INV_MDS@[70] == 16200124235946144513, INV_MDS@[71] == 13567037823605465940, MDS@[8] == 6725601, MDS@[17] == 39579496050501, MDS@[26] == 7474147118893437849, MDS@[35] == 10991153005139330585, MDS@[44] == 5581189644877109082, MDS@[53] == 11047168471627717792, MDS@[62] == 7124446528907718334, MDS@[71] == 12010975199401608924, MDS@[80] == 17262297830645713245,
    ;
}

proof fn lemma_product_backward_row_8()
    ensures
        identity_row(Elem::modulus(), INV_MDS@, MDS@, 9, 8, 9),
{
    reveal_with_fuel(sum, 10);
    reveal_with_fuel(identity_row, 10);
    assert(product_entry(INV_MDS@, MDS@, 9, 8, 0) == (INV_MDS@[72] as int) * (MDS@[0] as int) + (INV_MDS@[73] as int) * (MDS@[9] as int) + (INV_MDS@[74] as int) * (MDS@[18] as int) + (INV_MDS@[75] as int) * (MDS@[27] as int) + (INV_MDS@[76] as int) * (MDS@[36] as int) + (INV_MDS@[77] as int) * (MDS@[45] as int) + (INV_MDS@[78] as int) * (MDS@[54] as int) + (INV_MDS@[79] as int) * (MDS@[63] as int) + (INV_MDS@[80] as int) * (MDS@[72] as int));
    assert(((INV_MDS@[72] as int) * (MDS@[0] as int) + (INV_MDS@[73] as int) * (MDS@[9] as int) + (INV_MDS@[74] as int) * (MDS@[18] as int) + (INV_MDS@[75] as int) * (MDS@[27] as int) + (INV_MDS@[76] as int) * (MDS@[36] as int) + (INV_MDS@[77] as int) * (MDS@[45] as int) + (INV_MDS@[78] as int) * (MDS@[54] as int) + (INV_MDS@[79] as int) * (MDS@[63] as int) + (INV_MDS@[80] as int) * (MDS@[72] as int)) % 18446744069414584321 == 0) by (nonlinear_arith)
        requires
            INV_MDS@[72] == 7153203116068863772, INV_MDS@[73] == 5026931394711878012, INV_MDS@[74] == 7906190408160118526, INV_MDS@[75] == 11498192696621955873, INV_MDS@[76] == 7824129118715884826, INV_MDS@[77] == 361143884638050460, INV_MDS@[78] == 15105352412984880743, INV_MDS@[79] == 7056196256360339342, INV_MDS@[80] == 11855636989396365731, MDS@[0] == 15911754940807515092, MDS@[9] == 4000831318486715337, MDS@[18] == 12880740554289902608, MDS@[27] == 8444280502348543928, MDS@[36] == 14334129791615145359, MDS@[45] == 12274638267902752934, MDS@[54] == 8221443041727100385, MDS@[63] == 16372941063200117221, MDS@[72] == 12859139447927245406,
    ;
    assert(product_entry(INV_MDS@, MDS@, 9, 8, 1) == (INV_MDS@[72] as int) * (MDS@[1] as int) + (INV_MDS@[73] as int) * (MDS@[10] as int) + (INV_MDS@[74] as int) * (MDS@[19] as int) + (INV_MDS@[75] as int) * (MDS@[28] as int) + (INV_MDS@[76] as int) * (MDS@[37] as int) + (INV_MDS@[77] as int) * (MDS@[46] as int) + (INV_MDS@[78] as int) * (MDS@[55] as int) + (INV_MDS@[79] as int) * (MDS@[64] as int) + (INV_MDS@[80] as int) * (MDS@[73] as int));
    assert(((INV_MDS@[72] as int) * (MDS@[1] as int) + (INV_MDS@[73] as int) * (MDS@[10] as int) + (INV_MDS@[74] as int) * (MDS@[19] as int) + (INV_MDS@[75] as int) * (MDS@[28] as int) + (INV_MDS@[76] as int) * (MDS@[37] as int) + (INV_MDS@[77] as int) * (MDS@[46] as int) + (INV_MDS@[78] as int) * (MDS@[55] as int) + (INV_MDS@[79] as int) * (MDS@[64] as int) + (INV_MDS@[80] as int) * (MDS@[73] as int)) % 18446744069414584321 == 0) by (nonlinear_arith)
        requires
            INV_MDS@[72] == 7153203116068863772, INV_MDS@[73] == 5026931394711878012, INV_MDS@[74] == 7906190408160118526, INV_MDS@[75] == 11498192696621955873, INV_MDS@[76] == 7824129118715884826, INV_MDS@[77] == 361143884638050460, INV_MDS@[78] == 15105352412984880743, INV_MDS@[79] == 7056196256360339342, INV_MDS@[80] == 11855636989396365731, MDS@[1] == 2711892286355972158, MDS@[10] == 13866593699749449226, MDS@[19] == 10736257011154062521, MDS@[28] == 18063596406833757604, MDS@[37] == 2684393531687652704, MDS@[46] == 10320521705305529889, MDS@[55] == 393559796193809889, MDS@[64] == 14810743068666274131, MDS@[73] == 11343755749076409967,
    ;
    assert(product_entry(INV_MDS@, MDS@, 9, 8, 2) == (INV_MDS@[72] as int) * (MDS@[2] as int) + (INV_MDS@[73] as int) * (MDS@[11] as int) + (INV_MDS@[74] as int) * (MDS@[20] as int) + (INV_MDS@[75] as int) * (MDS@[29] as int) + (INV_MDS@[76] as int) * (MDS@[38] as int) + (INV_MDS@[77] as int) * (MDS@[47] as int) + (INV_MDS@[78] as int) * (MDS@[56] as int) + (INV_MDS@[79] as int) * (MDS@[65] as int) + (INV_MDS@[80] as int) * (MDS@[74] as int));
    assert(((INV_MDS@[72] as int) * (MDS@[2] as int) + (INV_MDS@[73] as int) * (MDS@[11] as int) + (INV_MDS@[74] as int) * (MDS@[20] as int) + (INV_MDS@[75] as int) * (MDS@[29] as int) + (INV_MDS@[76] as int) * (MDS@[38] as int) + (INV_MDS@[77] as int) * (MDS@[47] as int) + (INV_MDS@[78] as int) * (MDS@[56] as int) + (INV_MDS@[79] as int) * (MDS@[65] as int) + (INV_MDS@[80] as int) * (MDS@[74] as int)) % 18446744069414584321 == 0) by (nonlinear_arith)
        requires
            INV_MDS@[72] == 7153203116068863772, INV_MDS@[73] == 5026931394711878012, INV_MDS@[74] == 7906190408160118526, INV_MDS@[75] == 11498192696621955873, INV_MDS@[76] == 7824129118715884826, INV_MDS@[77] == 361143884638050460, INV_MDS@[78] == 15105352412984880743, INV_MDS@[79] == 7056196256360339342, INV_MDS@[80] == 11855636989396365731, MDS@[2] == 17150989262161941497, MDS@[11] == 12844960428353252001, MDS@[20] == 9684835675499922946, MDS@[29] == 1023367824000313667, MDS@[38] == 9102699125972580966, MDS@[47] == 534382282294584005, MDS@[56] == 17551880528192194831, MDS@[65] == 9540729115791359379, MDS@[74] == 12009542032810910684,
    ;
    assert(product_entry(INV_MDS@, MDS@, 9, 8, 3) == (INV_MDS@[72] as int) * (MDS@[3] as int) + (INV_MDS@[73] as int) * (MDS@[12] as int) + (INV_MDS@[74] as int) * (MDS@[21] as int) + (INV_MDS@[75] as int) * (MDS@[30] as int) + (INV_MDS@[76] as int) * (MDS@[39] as int) + (INV_MDS@[77] as int) * (MDS@[48] as int) + (INV_MDS@[78] as int) * (MDS@[57] as int) + (INV_MDS@[79] as int) * (MDS@[66] as int) + (INV_MDS@[80] as int) * (MDS@[75] as int));
    assert(((INV_MDS@[72] as int) * (MDS@[3] as int) + (INV_MDS@[73] as int) * (MDS@[12] as int) + (INV_MDS@[74] as int) * (MDS@[21] as int) + (INV_MDS@[75] as int) * (MDS@[30] as int) + (INV_MDS@[76] as int) * (MDS@[39] as int) + (INV_MDS@[77] as int) * (MDS@[48] as int) + (INV_MDS@[78] as int) * (MDS@[57] as int) + (INV_MDS@[79] as int) * (MDS@[66] as int) + (INV_MDS@[80] as int) * (MDS@[75] as int)) % 18446744069414584321 == 0) by (nonlinear_arith)
        requires
            INV_MDS@[72] == 7153203116068863772, INV_MDS@[73] == 5026931394711878012, INV_MDS@[74] == 7906190408160118526, INV_MDS@[75] == 11498192696621955873, INV_MDS@[76] == 7824129118715884826, INV_MDS@[77] == 361143884638050460, INV_MDS@[78] == 15105352412984880743, INV_MDS@[79] == 7056196256360339342, INV_MDS@[80] == 11855636989396365731, MDS@[3] == 1745852583430594377, MDS@[12] == 582714116362056623, MDS@[21] == 17726787349382971757, MDS@[30] == 17098225262737701178, MDS@[39] == 6899282244058680396, MDS@[48] == 9894417991995566363, MDS@[57] == 11029403667917004080, MDS@[66] == 236400869707253861, MDS@[75] == 10555036868816319109,
    ;
    assert(product_entry(INV_MDS@, MDS@, 9, 8, 4) == (INV_MDS@[72] as int) * (MDS@[4] as int) + (INV_MDS@[73] as int) * (MDS@[13] as int) + (INV_MDS@[74] as int) * (MDS@[22] as int) + (INV_MDS@[75] as int) * (MDS@[31] as int) + (INV_MDS@[76] as int) * (MDS@[40] as int) + (INV_MDS@[77] as int) * (MDS@[49] as int) + (INV_MDS@[78] as int) * (MDS@[58] as int) + (INV_MDS@[79] as int) * (MDS@[67] as int) + (INV_MDS@[80] as int) * (MDS@[76] as int));
    assert(((INV_MDS@[72] as int) * (MDS@[4] as int) + (INV_MDS@[73] as int) * (MDS@[13] as int) + (INV_MDS@[74] as int) * (MDS@[22] as int) + (INV_MDS@[75] as int) * (MDS@[31] as int) + (INV_MDS@[76] as int) * (MDS@[40] as int) + (INV_MDS@[77] as int) * (MDS@[49] as int) + (INV_MDS@[78] as int) * (MDS@[58] as int) + (INV_MDS@[79] as int) * (MDS@[67] as int) + (INV_MDS@[80] as int) * (MDS@[76] as int)) % 18446744069414584321 == 0) by (nonlinear_arith)
        requires
            INV_MDS@[72] == 7153203116068863772, INV_MDS@[73] == 5026931394711878012, INV_MDS@[74] == 7906190408160118526, INV_MDS@[75] == 11498192696621955873, INV_MDS@[76] == 7824129118715884826, INV_MDS@[77] == 361143884638050460, INV_MDS@[78] == 15105352412984880743, INV_MDS@[79] == 7056196256360339342, INV_MDS@[80] == 11855636989396365731, MDS@[4] == 565355451240421748, MDS@[13] == 3366018464571614479, MDS@[22] == 3129880678747094218, MDS@[31] == 13698883994234477975, MDS@[40] == 7336899618183924238, MDS@[49] == 18390808178506636504, MDS@[58] == 9527404663882352754, MDS@[67] == 3328476643285920097, MDS@[76] == 2382032143833076836,
    ;
    assert(product_entry(INV_MDS@, MDS@, 9, 8, 5) == (INV_MDS@[72] as int) * (MDS@[5] as int) + (INV_MDS@[73] as int) * (MDS@[14] as int) + (INV_MDS@[74] as int) * (MDS@[23] as int) + (INV_MDS@[75] as int) * (MDS@[32] as int) + (INV_MDS@[76] as int) * (MDS@[41] as int) + (INV_MDS@[77] as int) * (MDS@[50] as int) + (INV_MDS@[78] as int) * (MDS@[59] as int) + (INV_MDS@[79] as int) * (MDS@[68] as int) + (INV_MDS@[80] as int) * (MDS@[77] as int));
    assert(((INV_MDS@[72] as int) * (MDS@[5] as int) + (INV_MDS@[73] as int) * (MDS@[14] as int) + (INV_MDS@[74] as int) * (MDS@[23] as int) + (INV_MDS@[75] as int) * (MDS@[32] as int) + (INV_MDS@[76] as int) * (MDS@[41] as int) + (INV_MDS@[77] as int) * (MDS@[50] as int) + (INV_MDS@[78] as int) * (MDS@[59] as int) + (INV_MDS@[79] as int) * (MDS@[68] as int) + (INV_MDS@[80] as int) * (MDS@[77] as int)) % 18446744069414584321 == 0) by (nonlinear_arith)
        requires
            INV_MDS@[72] == 7153203116068863772, INV_MDS@[73] == 5026931394711878012, INV_MDS@[74] == 7906190408160118526, INV_MDS@[75] == 11498192696621955873, INV_MDS@[76] == 7824129118715884826, INV_MDS@[77] == 361143884638050460, INV_MDS@[78] == 15105352412984880743, INV_MDS@[79] == 7056196256360339342, INV_MDS@[80] == 11855636989396365731, MDS@[5] == 16587236605753788891, MDS@[14] == 15938247878153142367, MDS@[23] == 10717533211705047281, MDS@[32] == 11759502291953144483, MDS@[41] == 12811728231465824079, MDS@[50] == 8691994234740331347, MDS@[59] == 15125710629080112088, MDS@[68] == 1394376324654775198, MDS@[77] == 1483676889877496082,
    ;
    assert(product_entry(INV_MDS@, MDS@, 9, 8, 6) == (INV_MDS@[72] as int) * (MDS@[6] as int) + (INV_MDS@[73] as int) * (MDS@[15] as int) + (INV_MDS@[74] as int) * (MDS@[24] as int) + (INV_MDS@[75] as int) * (MDS@[33] as int) + (INV_MDS@[76] as int) * (MDS@[42] as int) + (INV_MDS@[77] as int) * (MDS@[51] as int) + (INV_MDS@[78] as int) * (MDS@[60] as int) + (INV_MDS@[79] as int) * (MDS@[69] as int) + (INV_MDS@[80] as int) * (MDS@[78] as int));
    assert(((INV_MDS@[72] as int) * (MDS@[6] as int) + (INV_MDS@[73] as int) * (MDS@[15] as int) + (INV_MDS@[74] as int) * (MDS@[24] as int) + (INV_MDS@[75] as int) * (MDS@[33] as int) + (INV_MDS@[76] as int) * (MDS@[42] as int) + (INV_MDS@[77] as int) * (MDS@[51] as int) + (INV_MDS@[78] as int) * (MDS@[60] as int) + (INV_MDS@[79] as int) * (MDS@[69] as int) + (INV_MDS@[80] as int) * (MDS@[78] as int)) % 18446744069414584321 == 0) by (nonlinear_arith)
        requires
            INV_MDS@[72] == 7153203116068863772, INV_MDS@[73] == 5026931394711878012, INV_MDS@[74] == 7906190408160118526, INV_MDS@[75] == 11498192696621955873, INV_MDS@[76] == 7824129118715884826, INV_MDS@[77] == 361143884638050460, INV_MDS@[78] == 15105352412984880743, INV_MDS@[79] == 7056196256360339342, INV_MDS@[80] == 11855636989396365731, MDS@[6] == 667156732699554300, MDS@[15] == 5208160849119430188, MDS@[24] == 6323700978479141929, MDS@[33] == 16538072702756198364, MDS@[42] == 3414522606789347434, MDS@[51] == 6296450013617354001, MDS@[60] == 3464609272919550073, MDS@[69] == 3244018084586040045, MDS@[78] == 16425558919997587467,
    ;
    assert(product_entry(INV_MDS@, MDS@, 9, 8, 7) == (INV_MDS@[72] as int) * (MDS@[7] as int) + (INV_MDS@[73] as int) * (MDS@[16] as int) + (INV_MDS@[74] as int) * (MDS@[25] as int) + (INV_MDS@[75] as int) * (MDS@[34] as int) + (INV_MDS@[76] as int) * (MDS@[43] as int) + (INV_MDS@[77] as int) * (MDS@[52] as int) + (INV_MDS@[78] as int) * (MDS@[61] as int) + (INV_MDS@[79] as int) * (MDS@[70] as int) + (INV_MDS@[80] as int) * (MDS@[79] as int));
    assert(((INV_MDS@[72] as int) * (MDS@[7] as int) + (INV_MDS@[73] as int) * (MDS@[16] as int) + (INV_MDS@[74] as int) * (MDS@[25] as int) + (INV_MDS@[75] as int) * (MDS@[34] as int) + (INV_MDS@[76] as int) * (MDS@[43] as int) + (INV_MDS@[77] as int) * (MDS@[52] as int) + (INV_MDS@[78] as int) * (MDS@[61] as int) + (INV_MDS@[79] as int) * (MDS@[70] as int) + (INV_MDS@[80] as int) * (MDS@[79] as int)) % 18446744069414584321 == 0) by (nonlinear_arith)
        requires
            INV_MDS@[72] == 7153203116068863772, INV_MDS@[73] == 5026931394711878012, INV_MDS@[74] == 7906190408160118526, INV_MDS@[75] == 11498192696621955873, INV_MDS@[76] == 7824129118715884826, INV_MDS@[77] == 361143884638050460, INV_MDS@[78] == 15105352412984880743, INV_MDS@[79] == 7056196256360339342, INV_MDS@[80] == 11855636989396365731, MDS@[7] == 18446738415201823621, MDS@[16] == 17979409943366626563, MDS@[25] == 13559837768921340497, MDS@[34] == 13063382426484038143, MDS@[43] == 11622131483008073027, MDS@[52] == 14783339201082448771, MDS@[61] == 1348518148838494851, MDS@[70] == 12848315908364988429, MDS@[79] == 7912680464088162810,
    ;
    assert(product_entry(INV_MDS@, MDS@, 9, 8, 8) == (INV_MDS@[72] as int) * (MDS@[8] as int) + (INV_MDS@[73] as int) * (MDS@[17] as int) + (INV_MDS@[74] as int) * (MDS@[26] as int) + (INV_MDS@[75] as int) * (MDS@[35] as int) + (INV_MDS@[76] as int) * (MDS@[44] as int) + (INV_MDS@[77] as int) * (MDS@[53] as int) + (INV_MDS@[78] as int) * (MDS@[62] as int) + (INV_MDS@[79] as int) * (MDS@[71] as int) + (INV_MDS@[80] as int) * (MDS@[80] as int));
    assert(((INV_MDS@[72] as int) * (MDS@[8] as int) + (INV_MDS@[73] as int) * (MDS@[17] as int) + (INV_MDS@[74] as int) * (MDS@[26] as int) + (INV_MDS@[75] as int) * (MDS@[35] as int) + (INV_MDS@[76] as int) * (MDS@[44] as int) + (INV_MDS@[77] as int) * (MDS@[53] as int) + (INV_MDS@[78] as int) * (MDS@[62] as int) + (INV_MDS@[79] as int) * (MDS@[71] as int) + (INV_MDS@[80] as int) * (MDS@[80] as int)) % 18446744069414584321 == 1) by (nonlinear_arith)
        requires
            INV_MDS@[72] == 7153203116068863772, INV_MDS@[73] == 5026931394711878012, INV_MDS@[74] == 7906190408160118526, INV_MDS@[75] == 11498192696621955873, INV_MDS@[76] == 7824129118715884826, INV_MDS@[77] == 361143884638050460, INV_MDS@[78] == 15105352412984880743, INV_MDS@[79] == 7056196256360339342, INV_MDS@[80] == 11855636989396365731, MDS@[8] == 6725601, MDS@[17] == 39579496050501, MDS@[26] == 7474147118893437849, MDS@[35] == 10991153005139330585, MDS@[44] == 5581189644877109082, MDS@[53] == 11047168471627717792, MDS@[62] == 7124446528907718334, MDS@[71] == 12010975199401608924, MDS@[80] == 17262297830645713245,
    ;
}

proof fn lemma_product_backward()
    ensures
        product_is_identity(Elem::modulus(), INV_MDS@, MDS@, 9),
{
    lemma_product_backward_row_0();
    lemma_product_backward_row_1();
    lemma_product_backward_row_2();
    lemma_product_backward_row_3();
    lemma_product_backward_row_4();
    lemma_product_backward_row_5();
    lemma_product_backward_row_6();
    lemma_product_backward_row_7();
    lemma_product_backward_row_8();
    reveal_with_fuel(identity_rows, 10);
    assert(identity_rows(Elem::modulus(), INV_MDS@, MDS@, 9, 9));
    lemma_identity_rows(Elem::modulus(), INV_MDS@, MDS@, 9);
}

/// The digest of `input_sequence`, whose length must be a multiple of `RATE`.
pub fn hash(input_sequence: &Vec<Elem>) -> (r: [Elem; RATE])
    requires
        input_sequence@.len() % (RATE as nat) == 0,
    ensures
        vals(r@) == hash_spec(spec_params(), Elem::modulus(), vals(input_sequence@)),
{
    rescue_prime_hash(input_sequence)
}

/// The sponge: starting from the zero state, each chunk of `RATE` elements is added onto the
/// first lanes and the state permuted; the digest is the first `RATE` lanes.
pub fn rescue_prime_hash(input_sequence: &Vec<Elem>) -> (r: [Elem; RATE])
    requires
        input_sequence@.len() % (RATE as nat) == 0,
    ensures
        vals(r@) == hash_spec(spec_params(), Elem::modulus(), vals(input_sequence@)),
{
    let digest = params().hash(input_sequence);
    to_array(&digest)
}

/// The digest of `input_sequence` followed by a one and the fewest zeros that reach a
/// multiple of `RATE`.
pub fn rescue_prime_wrapper(input_sequence: &Vec<Elem>) -> (r: [Elem; RATE])
    requires
        input_sequence@.len() + STATE_WIDTH <= usize::MAX,
    ensures
        vals(r@) == hash_spec(
            spec_params(),
            Elem::modulus(),
            pad_spec(vals(input_sequence@), RATE as nat),
        ),
{
    let digest = params().hash_padded(input_sequence);
    to_array(&digest)
}

/// Applies the `NUM_ROUNDS` rounds to `state`.
pub fn rescue_xlix_permutation(state: &mut [Elem; STATE_WIDTH])
    ensures
        vals(final(state)@) == permutation_spec(spec_params(), Elem::modulus(), vals(old(state)@)),
{
    params().permutation(state);
}

/// Applies round `round % NUM_ROUNDS` to `state`.
pub fn apply_round(state: &mut [Elem], round: usize)
    requires
        old(state)@.len() == STATE_WIDTH,
    ensures
        final(state)@.len() == STATE_WIDTH,
        vals(final(state)@) == round_spec(
            spec_params(),
            Elem::modulus(),
            vals(old(state)@),
            round as nat,
        ),
{
    params().apply_round(state, round);
}

/// Adds to `result_slice` the residuals of one round between `current_slice` and
/// `next_slice`, scaled by `flag`; with `flag` one they all vanish exactly when the two
/// halves of the round agree.
pub fn enforce_round<E: PrimeField>(
    result_slice: &mut [E],
    current_slice: &[E],
    next_slice: &[E],
    round_constants: &[E],
    flag: E,
)
    requires
        current_slice@.len() == STATE_WIDTH,
        next_slice@.len() == STATE_WIDTH,
        round_constants@.len() >= 2 * STATE_WIDTH,
        old(result_slice)@.len() >= STATE_WIDTH,
    ensures
        final(result_slice)@.len() == old(result_slice)@.len(),
        vals(final(result_slice)@) == round_residuals(
            spec_params(),
            E::modulus(),
            vals(old(result_slice)@),
            vals(current_slice@),
            vals(next_slice@),
            vals(round_constants@),
            flag.val(),
        ),
{
    params().enforce_round(result_slice, current_slice, next_slice, round_constants, flag);
}

/// `enforce_round` with `pixels` first added onto the first `RATE` lanes of `current_slice`.
pub fn enforce_first_round<E: PrimeField>(
    result_slice: &mut [E],
    pixels: &[E],
    current_slice: &[E],
    next_slice: &[E],
    round_constants: &[E],
    flag: E,
)
    requires
        pixels@.len() >= RATE,
        current_slice@.len() == STATE_WIDTH,
        next_slice@.len() == STATE_WIDTH,
        round_constants@.len() >= 2 * STATE_WIDTH,
        old(result_slice)@.len() >= STATE_WIDTH,
    ensures
        final(result_slice)@.len() == old(result_slice)@.len(),
        vals(final(result_slice)@) == round_residuals(
            spec_params(),
            E::modulus(),
            vals(old(result_slice)@),
            absorb_lanes_spec(E::modulus(), vals(current_slice@), vals(pixels@).take(RATE as int)),
            vals(next_slice@),
            vals(round_constants@),
            flag.val(),
        ),
{
    params().enforce_first_round(result_slice, pixels, current_slice, next_slice, round_constants, flag);
}

/// The round constants in `2 × STATE_WIDTH` columns of length `cycle_length`, the constants of
/// round `i` at position `(i + shift) % cycle_length` and zeros elsewhere.
pub fn get_round_constants_periodic(cycle_length: usize, shift: usize) -> (r: Vec<Vec<Elem>>)
    requires
        cycle_length > 0,
        shift + NUM_ROUNDS <= usize::MAX,
    ensures
        r@.len() == 2 * STATE_WIDTH,
        forall|j: int|
            0 <= j < 2 * STATE_WIDTH ==> vals(#[trigger] r@[j]@) == periodic_column(
                Elem::modulus(),
                ROUND_CONSTANTS@,
                (2 * STATE_WIDTH) as nat,
                j as nat,
                cycle_length as nat,
                shift as nat,
                NUM_ROUNDS as nat,
            ),
{
    params().round_constants_periodic(cycle_length, shift)
}

} // verus!

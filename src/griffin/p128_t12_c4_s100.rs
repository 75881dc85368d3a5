//! Griffin over the 128-bit prime field (modulus `MODULUS_128`): width 12, capacity 4, 8 rounds, exponent 3,
//! security of at least 100 bits.

use vstd::prelude::*;
use crate::field::{Felt128, PrimeField, canonical_seq, vals};
use crate::griffin::{
    GriffinParams, hash_spec, lemma_first_round_constraints_vanish, lemma_round_constraints_vanish,
    nonlinear_residuals, permutation_spec, recovered, round_spec,
};
use crate::layers::{
    absorb_lanes_spec, exp_undoes, fermat, lemma_exponents_invert, mat_vec, periodic_column,
    to_array, zeros, undoes,
};
use crate::matrix::{
    identity_row, identity_rows, lemma_identity_rows, lemma_product_identity_undoes, product_entry,
    product_is_identity, sum,
};

verus! {

pub type Elem = Felt128;

pub const NUM_ROUNDS: usize = 8;
pub const STATE_WIDTH: usize = 12;
pub const CAPACITY: usize = 4;
pub const RATE: usize = STATE_WIDTH - CAPACITY;

/// The exponent applied to lane 0.
pub const D: u128 = 3;

/// The exponent applied to lane 1: the inverse of `D` modulo the prime minus one.
pub const INV_D: u128 = 226854911280625642308916371969163307691;

/// The mixing matrix, row-major.
pub const MAT: [u128; 144] = [
    6, 4, 2,
    2, 3, 2,
    1, 1, 3,
    2, 1, 1,
    2, 6, 4,
    2, 1, 3,
    2, 1, 1,
    3, 2, 1,
    2, 2, 6,
    4, 1, 1,
    3, 2, 1,
    1, 3, 2,
    4, 2, 2,
    6, 2, 1,
    1, 3, 2,
    1, 1, 3,
    3, 2, 1,
    1, 6, 4,
    2, 2, 3,
    2, 1, 1,
    1, 3, 2,
    1, 2, 6,
    4, 2, 1,
    3, 2, 1,
    1, 1, 3,
    2, 2, 2,
    6, 4, 1,
    1, 3, 2,
    2, 1, 1,
    3, 4, 2,
    2, 6, 2,
    1, 1, 3,
    3, 2, 1,
    1, 3, 2,
    1, 1, 6,
    4, 2, 2,
    1, 3, 2,
    1, 1, 3,
    2, 1, 2,
    6, 4, 2,
    1, 1, 3,
    2, 1, 1,
    3, 2, 2,
    2, 6, 4,
    2, 1, 1,
    3, 2, 1,
    1, 3, 4,
    2, 2, 6,
];

/// The inverse of `MAT`, row-major.
pub const INV_MAT: [u128; 144] = [
    89931768400533736772463276030632596978, 21875295016346044079788364439883604670, 55903531708439890426125820235258100824,
    38889413362392967252957092337570852747, 196877655147114396718095279958952442032, 332990601915489782103445103140450426647,
    94792945070832857679082912572828953571, 213891773493161319891264007856639690109, 196877655147114396718095279958952442032,
    332990601915489782103445103140450426647, 94792945070832857679082912572828953571, 213891773493161319891264007856639690109,
    38889413362392967252957092337570852747, 89931768400533736772463276030632596978, 21875295016346044079788364439883604670,
    55903531708439890426125820235258100824, 213891773493161319891264007856639690109, 196877655147114396718095279958952442032,
    332990601915489782103445103140450426647, 94792945070832857679082912572828953571, 213891773493161319891264007856639690109,
    196877655147114396718095279958952442032, 332990601915489782103445103140450426647, 94792945070832857679082912572828953571,
    55903531708439890426125820235258100824, 38889413362392967252957092337570852747, 89931768400533736772463276030632596978,
    21875295016346044079788364439883604670, 94792945070832857679082912572828953571, 213891773493161319891264007856639690109,
    196877655147114396718095279958952442032, 332990601915489782103445103140450426647, 94792945070832857679082912572828953571,
    213891773493161319891264007856639690109, 196877655147114396718095279958952442032, 332990601915489782103445103140450426647,
    21875295016346044079788364439883604670, 55903531708439890426125820235258100824, 38889413362392967252957092337570852747,
    89931768400533736772463276030632596978, 332990601915489782103445103140450426647, 94792945070832857679082912572828953571,
    213891773493161319891264007856639690109, 196877655147114396718095279958952442032, 332990601915489782103445103140450426647,
    94792945070832857679082912572828953571, 213891773493161319891264007856639690109, 196877655147114396718095279958952442032,
    196877655147114396718095279958952442032, 332990601915489782103445103140450426647, 94792945070832857679082912572828953571,
    213891773493161319891264007856639690109, 89931768400533736772463276030632596978, 21875295016346044079788364439883604670,
    55903531708439890426125820235258100824, 38889413362392967252957092337570852747, 196877655147114396718095279958952442032,
    332990601915489782103445103140450426647, 94792945070832857679082912572828953571, 213891773493161319891264007856639690109,
    213891773493161319891264007856639690109, 196877655147114396718095279958952442032, 332990601915489782103445103140450426647,
    94792945070832857679082912572828953571, 38889413362392967252957092337570852747, 89931768400533736772463276030632596978,
    21875295016346044079788364439883604670, 55903531708439890426125820235258100824, 213891773493161319891264007856639690109,
    196877655147114396718095279958952442032, 332990601915489782103445103140450426647, 94792945070832857679082912572828953571,
    94792945070832857679082912572828953571, 213891773493161319891264007856639690109, 196877655147114396718095279958952442032,
    332990601915489782103445103140450426647, 55903531708439890426125820235258100824, 38889413362392967252957092337570852747,
    89931768400533736772463276030632596978, 21875295016346044079788364439883604670, 94792945070832857679082912572828953571,
    213891773493161319891264007856639690109, 196877655147114396718095279958952442032, 332990601915489782103445103140450426647,
    332990601915489782103445103140450426647, 94792945070832857679082912572828953571, 213891773493161319891264007856639690109,
    196877655147114396718095279958952442032, 21875295016346044079788364439883604670, 55903531708439890426125820235258100824,
    38889413362392967252957092337570852747, 89931768400533736772463276030632596978, 332990601915489782103445103140450426647,
    94792945070832857679082912572828953571, 213891773493161319891264007856639690109, 196877655147114396718095279958952442032,
    196877655147114396718095279958952442032, 332990601915489782103445103140450426647, 94792945070832857679082912572828953571,
    213891773493161319891264007856639690109, 196877655147114396718095279958952442032, 332990601915489782103445103140450426647,
    94792945070832857679082912572828953571, 213891773493161319891264007856639690109, 89931768400533736772463276030632596978,
    21875295016346044079788364439883604670, 55903531708439890426125820235258100824, 38889413362392967252957092337570852747,
    213891773493161319891264007856639690109, 196877655147114396718095279958952442032, 332990601915489782103445103140450426647,
    94792945070832857679082912572828953571, 213891773493161319891264007856639690109, 196877655147114396718095279958952442032,
    332990601915489782103445103140450426647, 94792945070832857679082912572828953571, 38889413362392967252957092337570852747,
    89931768400533736772463276030632596978, 21875295016346044079788364439883604670, 55903531708439890426125820235258100824,
    94792945070832857679082912572828953571, 213891773493161319891264007856639690109, 196877655147114396718095279958952442032,
    332990601915489782103445103140450426647, 94792945070832857679082912572828953571, 213891773493161319891264007856639690109,
    196877655147114396718095279958952442032, 332990601915489782103445103140450426647, 55903531708439890426125820235258100824,
    38889413362392967252957092337570852747, 89931768400533736772463276030632596978, 21875295016346044079788364439883604670,
    332990601915489782103445103140450426647, 94792945070832857679082912572828953571, 213891773493161319891264007856639690109,
    196877655147114396718095279958952442032, 332990601915489782103445103140450426647, 94792945070832857679082912572828953571,
    213891773493161319891264007856639690109, 196877655147114396718095279958952442032, 21875295016346044079788364439883604670,
    55903531708439890426125820235258100824, 38889413362392967252957092337570852747, 89931768400533736772463276030632596978,
];

/// `STATE_WIDTH` constants per round.
pub const ROUND_CONSTANTS: [u128; 96] = [
    294970790111306351373636413874686151821, 160189431472011418998427183027739354479, 55550889145373399671553726121092858466,
    275164185752383030818525310739461573884, 38201251074942853819690530188837782157, 62576778657652102143243695940893274138,
    329588424345411619796209026549647545760, 277833782588935353313288187278579011179, 44021280959178045642836381478997810870,
    326406391134286162613079794749493302223, 330511757441020095780992868358439323843, 82652686758316037556524046407399965496,
    228675171350738287686838730130561276916, 224112638573379126418625935393785693428, 64778613048988911329800247205141078159,
    217603433766828919995349954570396030405, 80200422234881574089220840511278754356, 75105765571716273279949541773384489182,
    259359742366690112701507630935577873933, 83404028401302237313089142501002104123, 13161178151423257454210838033394546966,
    70905281362196007540683767767251187423, 302444071825868031003598979999714239976, 196838326858397795372394750033112491530,
    111507700541055941613666035111517070703, 193569732598610094044858811120409129368, 191504056519622663260520654355159891695,
    284561537657629588804458055018962719733, 117866270732042728177782916119453810877, 1542213147082308645284977730431520992,
    88222772647598367445363102670909661349, 197970947411142477399843311169063498117, 243651713504449003950365473150839077311,
    125703797731008009672060499092197912223, 135304452039729263621279398651147114084, 150400300947788252961050964854718156122,
    78967423199903199132380881249370128518, 202714971907111937486825382877502551762, 194669266240218440979603488210730556215,
    19590513170902684529383267231746178395, 256879369894401793037417086346116265484, 223444523763436029506954371502782034526,
    268822433894440182928616124776557842222, 93659545806798837818243112419862471821, 219992706639538776780574143249166236681,
    111868858717085401553214800625171294575, 166091519019485208309832438187507502719, 92605075528987592980973916705586477301,
    162976312484747503748482767371543480314, 140179816034872192279383539457689534325, 13144622592979658941386704330615843177,
    11074109588650505088167938287378412180, 139341286121071490113612867272958857580, 195002700985738333464910523344343957374,
    280983741404709444276092498132561963812, 225048000834685228495757343025182068979, 257408489283183051791230771924657635638,
    107236053947440707423527082907737044702, 316657034674253128635021959205228552337, 176859630605189644528805717300052383048,
    48331190367757835427450033392495333309, 207217732320205864631342798465164968777, 319389813447757101056014023659946806025,
    231864646469071852554332000210448761813, 157548870756329323166980311901551012527, 87722431110855579846828452796792907973,
    134007644785157191154419975031833397313, 27414468045295873469343738945928600457, 130705933749559877557147976998525934827,
    53376489101686661851640555890414118773, 184898988800842731320447197653326153636, 277140707779146391085188715485690994782,
    122816216618203200592723691201301521403, 239240784910490472755633920499696630377, 220822091823919075263526243864228147809,
    297717934532291881777781447334036107202, 2530195196949751370553446745542216125, 120635107065269767580066365765460879324,
    80841447230111294415845548863262916094, 192224850642576066657649241279040198945, 320940461271767132288233287619754516010,
    303476200563940515872415710292096348756, 38029322414115807923199058019760698083, 115575251597041011128741656732196935877,
    0, 0, 0,
    0, 0, 0,
    0, 0, 0,
    0, 0, 0,
];

/// The linear coefficients of the quadratic on lanes from 2 on.
pub const ALPHAS: [u128; 12] = [
    0, 0, 249179594608364989167094770975337358530,
    158076822295791514870814983996929755523, 66974049983218040574535197018522152516, 316153644591583029741629967993859511046,
    225050872279009555445350181015451908039, 133948099966436081149070394037044305032, 42845327653862606852790607058636702025,
    292024922262227596019885378033974060555, 200922149949654121723605591055566457548, 109819377637080647427325804077158854541,
];

/// The constant coefficients of the quadratic on lanes from 2 on.
pub const BETAS: [u128; 12] = [
    0, 0, 128557895541040233617729607877348657930,
    173949215243222471007543873555649670183, 136173959106546712169442797034903036759, 15232127131012957103426378315108757658,
    151406086237559669272869175350011794417, 204413469505248385214396630185867185499, 174254276934079104928008742822674930904,
    60928508524051828413705513260435030632, 204718531196105019134861499452892446220, 265341978029300213628102143446302216131,
];

/// The coefficients of the linear form of lanes 0 and 1.
pub const LAMBDAS: [u128; 2] = [
    76071573668718817050189117827732608134, 32310758015644895296242377566125942448,
];

/// This instance's constants.
pub open spec fn spec_params() -> GriffinParams {
    GriffinParams {
        width: STATE_WIDTH,
        capacity: CAPACITY,
        rounds: NUM_ROUNDS,
        d: D,
        inv_d: INV_D,
        mat: &MAT,
        inv_mat: &INV_MAT,
        round_constants: &ROUND_CONSTANTS,
        alphas: &ALPHAS,
        betas: &BETAS,
        lambdas: &LAMBDAS,
    }
}

/// This instance's constants.
pub fn params() -> (r: GriffinParams)
    ensures
        r == spec_params(),
        r.wf(),
{
    GriffinParams {
        width: STATE_WIDTH,
        capacity: CAPACITY,
        rounds: NUM_ROUNDS,
        d: D,
        inv_d: INV_D,
        mat: &MAT,
        inv_mat: &INV_MAT,
        round_constants: &ROUND_CONSTANTS,
        alphas: &ALPHAS,
        betas: &BETAS,
        lambdas: &LAMBDAS,
    }
}

/// The exponents `D` and `INV_D` undo each other, both ways, on every residue, wherever
/// Fermat's little theorem holds for the modulus.
pub proof fn lemma_exponents_undo()
    requires
        fermat(Elem::modulus()),
    ensures
        exp_undoes(Elem::modulus(), D as nat, INV_D as nat),
        exp_undoes(Elem::modulus(), INV_D as nat, D as nat),
{
    lemma_exponents_invert(Elem::modulus(), D as nat, INV_D as nat);
}

/// With flag one, the constraints of round `r` vanish on every state of residues and the
/// state that the round makes of it (mixed once more first when `r` is a first round),
/// wherever Fermat's little theorem holds for the modulus.
pub proof fn lemma_constraints_vanish(cur: Seq<int>, r: nat)
    requires
        cur.len() == STATE_WIDTH,
        canonical_seq(cur, Elem::modulus()),
        fermat(Elem::modulus()),
    ensures
        r % (NUM_ROUNDS as nat) != 0 ==> nonlinear_residuals(
            spec_params(),
            Elem::modulus(),
            zeros(STATE_WIDTH as nat),
            cur,
            recovered(
                spec_params(),
                Elem::modulus(),
                round_spec(spec_params(), Elem::modulus(), cur, r),
                spec_params().round_consts(Elem::modulus(), r % (NUM_ROUNDS as nat)),
            ),
            1,
        ) == zeros(STATE_WIDTH as nat),
        r % (NUM_ROUNDS as nat) == 0 ==> nonlinear_residuals(
            spec_params(),
            Elem::modulus(),
            zeros(STATE_WIDTH as nat),
            mat_vec(Elem::modulus(), MAT@, STATE_WIDTH as nat, cur),
            recovered(
                spec_params(),
                Elem::modulus(),
                round_spec(spec_params(), Elem::modulus(), cur, r),
                spec_params().round_consts(Elem::modulus(), r % (NUM_ROUNDS as nat)),
            ),
            1,
        ) == zeros(STATE_WIDTH as nat),
{
    lemma_matrices_invert();
    lemma_exponents_invert(Elem::modulus(), D as nat, INV_D as nat);
    if r % (NUM_ROUNDS as nat) != 0 {
        lemma_round_constraints_vanish(spec_params(), Elem::modulus(), cur, r);
    } else {
        lemma_first_round_constraints_vanish(spec_params(), Elem::modulus(), cur, r);
    }
}

/// With flag one, the constraints of round `r` do not all vanish on a state and any state of
/// residues other than the one that the round makes of it, wherever Fermat's little theorem
/// holds for the modulus.
pub proof fn lemma_wrong_next_detected(cur: Seq<int>, other: Seq<int>, r: nat)
    requires
        cur.len() == STATE_WIDTH,
        other.len() == STATE_WIDTH,
        canonical_seq(other, Elem::modulus()),
        other != round_spec(spec_params(), Elem::modulus(), cur, r),
        fermat(Elem::modulus()),
    ensures
        nonlinear_residuals(
            spec_params(),
            Elem::modulus(),
            zeros(STATE_WIDTH as nat),
            if r % (NUM_ROUNDS as nat) == 0 {
                mat_vec(Elem::modulus(), MAT@, STATE_WIDTH as nat, cur)
            } else {
                cur
            },
            recovered(
                spec_params(),
                Elem::modulus(),
                other,
                spec_params().round_consts(Elem::modulus(), r % (NUM_ROUNDS as nat)),
            ),
            1,
        ) != zeros(STATE_WIDTH as nat),
{
    lemma_matrices_invert();
    lemma_exponents_invert(Elem::modulus(), D as nat, INV_D as nat);
    crate::griffin::lemma_wrong_next_detected(spec_params(), Elem::modulus(), cur, other, r);
}

/// The mixing matrix and its inverse undo each other on every vector of residues.
pub proof fn lemma_matrices_invert()
    ensures
        undoes(Elem::modulus(), MAT@, INV_MAT@, STATE_WIDTH as nat),
        undoes(Elem::modulus(), INV_MAT@, MAT@, STATE_WIDTH as nat),
{
    lemma_product_forward();
    lemma_product_backward();
    lemma_product_identity_undoes(Elem::modulus(), MAT@, INV_MAT@, STATE_WIDTH as nat);
    lemma_product_identity_undoes(Elem::modulus(), INV_MAT@, MAT@, STATE_WIDTH as nat);
}

proof fn lemma_product_forward_row_0()
    ensures
        identity_row(Elem::modulus(), MAT@, INV_MAT@, 12, 0, 12),
{
    reveal_with_fuel(sum, 13);
    reveal_with_fuel(identity_row, 13);
    assert(product_entry(MAT@, INV_MAT@, 12, 0, 0) == (MAT@[0] as int) * (INV_MAT@[0] as int) + (MAT@[1] as int) * (INV_MAT@[12] as int) + (MAT@[2] as int) * (INV_MAT@[24] as int) + (MAT@[3] as int) * (INV_MAT@[36] as int) + (MAT@[4] as int) * (INV_MAT@[48] as int) + (MAT@[5] as int) * (INV_MAT@[60] as int) + (MAT@[6] as int) * (INV_MAT@[72] as int) + (MAT@[7] as int) * (INV_MAT@[84] as int) + (MAT@[8] as int) * (INV_MAT@[96] as int) + (MAT@[9] as int) * (INV_MAT@[108] as int) + (MAT@[10] as int) * (INV_MAT@[120] as int) + (MAT@[11] as int) * (INV_MAT@[132] as int));
    assert(((MAT@[0] as int) * (INV_MAT@[0] as int) + (MAT@[1] as int) * (INV_MAT@[12] as int) + (MAT@[2] as int) * (INV_MAT@[24] as int) + (MAT@[3] as int) * (INV_MAT@[36] as int) + (MAT@[4] as int) * (INV_MAT@[48] as int) + (MAT@[5] as int) * (INV_MAT@[60] as int) + (MAT@[6] as int) * (INV_MAT@[72] as int) + (MAT@[7] as int) * (INV_MAT@[84] as int) + (MAT@[8] as int) * (INV_MAT@[96] as int) + (MAT@[9] as int) * (INV_MAT@[108] as int) + (MAT@[10] as int) * (INV_MAT@[120] as int) + (MAT@[11] as int) * (INV_MAT@[132] as int)) % 340282366920938463463374557953744961537 == 1) by (nonlinear_arith)
        requires
            MAT@[0] == 6, MAT@[1] == 4, MAT@[2] == 2, MAT@[3] == 2, MAT@[4] == 3, MAT@[5] == 2, MAT@[6] == 1, MAT@[7] == 1, MAT@[8] == 3, MAT@[9] == 2, MAT@[10] == 1, MAT@[11] == 1, INV_MAT@[0] == 89931768400533736772463276030632596978, INV_MAT@[12] == 38889413362392967252957092337570852747, INV_MAT@[24] == 55903531708439890426125820235258100824, INV_MAT@[36] == 21875295016346044079788364439883604670, INV_MAT@[48] == 196877655147114396718095279958952442032, INV_MAT@[60] == 213891773493161319891264007856639690109, INV_MAT@[72] == 94792945070832857679082912572828953571, INV_MAT@[84] == 332990601915489782103445103140450426647, INV_MAT@[96] == 196877655147114396718095279958952442032, INV_MAT@[108] == 213891773493161319891264007856639690109, INV_MAT@[120] == 94792945070832857679082912572828953571, INV_MAT@[132] == 332990601915489782103445103140450426647,
    ;
    assert(product_entry(MAT@, INV_MAT@, 12, 0, 1) == (MAT@[0] as int) * (INV_MAT@[1] as int) + (MAT@[1] as int) * (INV_MAT@[13] as int) + (MAT@[2] as int) * (INV_MAT@[25] as int) + (MAT@[3] as int) * (INV_MAT@[37] as int) + (MAT@[4] as int) * (INV_MAT@[49] as int) + (MAT@[5] as int) * (INV_MAT@[61] as int) + (MAT@[6] as int) * (INV_MAT@[73] as int) + (MAT@[7] as int) * (INV_MAT@[85] as int) + (MAT@[8] as int) * (INV_MAT@[97] as int) + (MAT@[9] as int) * (INV_MAT@[109] as int) + (MAT@[10] as int) * (INV_MAT@[121] as int) + (MAT@[11] as int) * (INV_MAT@[133] as int));
    assert(((MAT@[0] as int) * (INV_MAT@[1] as int) + (MAT@[1] as int) * (INV_MAT@[13] as int) + (MAT@[2] as int) * (INV_MAT@[25] as int) + (MAT@[3] as int) * (INV_MAT@[37] as int) + (MAT@[4] as int) * (INV_MAT@[49] as int) + (MAT@[5] as int) * (INV_MAT@[61] as int) + (MAT@[6] as int) * (INV_MAT@[73] as int) + (MAT@[7] as int) * (INV_MAT@[85] as int) + (MAT@[8] as int) * (INV_MAT@[97] as int) + (MAT@[9] as int) * (INV_MAT@[109] as int) + (MAT@[10] as int) * (INV_MAT@[121] as int) + (MAT@[11] as int) * (INV_MAT@[133] as int)) % 340282366920938463463374557953744961537 == 0) by (nonlinear_arith)
        requires
            MAT@[0] == 6, MAT@[1] == 4, MAT@[2] == 2, MAT@[3] == 2, MAT@[4] == 3, MAT@[5] == 2, MAT@[6] == 1, MAT@[7] == 1, MAT@[8] == 3, MAT@[9] == 2, MAT@[10] == 1, MAT@[11] == 1, INV_MAT@[1] == 21875295016346044079788364439883604670, INV_MAT@[13] == 89931768400533736772463276030632596978, INV_MAT@[25] == 38889413362392967252957092337570852747, INV_MAT@[37] == 55903531708439890426125820235258100824, INV_MAT@[49] == 332990601915489782103445103140450426647, INV_MAT@[61] == 196877655147114396718095279958952442032, INV_MAT@[73] == 213891773493161319891264007856639690109, INV_MAT@[85] == 94792945070832857679082912572828953571, INV_MAT@[97] == 332990601915489782103445103140450426647, INV_MAT@[109] == 196877655147114396718095279958952442032, INV_MAT@[121] == 213891773493161319891264007856639690109, INV_MAT@[133] == 94792945070832857679082912572828953571,
    ;
    assert(product_entry(MAT@, INV_MAT@, 12, 0, 2) == (MAT@[0] as int) * (INV_MAT@[2] as int) + (MAT@[1] as int) * (INV_MAT@[14] as int) + (MAT@[2] as int) * (INV_MAT@[26] as int) + (MAT@[3] as int) * (INV_MAT@[38] as int) + (MAT@[4] as int) * (INV_MAT@[50] as int) + (MAT@[5] as int) * (INV_MAT@[62] as int) + (MAT@[6] as int) * (INV_MAT@[74] as int) + (MAT@[7] as int) * (INV_MAT@[86] as int) + (MAT@[8] as int) * (INV_MAT@[98] as int) + (MAT@[9] as int) * (INV_MAT@[110] as int) + (MAT@[10] as int) * (INV_MAT@[122] as int) + (MAT@[11] as int) * (INV_MAT@[134] as int));
    assert(((MAT@[0] as int) * (INV_MAT@[2] as int) + (MAT@[1] as int) * (INV_MAT@[14] as int) + (MAT@[2] as int) * (INV_MAT@[26] as int) + (MAT@[3] as int) * (INV_MAT@[38] as int) + (MAT@[4] as int) * (INV_MAT@[50] as int) + (MAT@[5] as int) * (INV_MAT@[62] as int) + (MAT@[6] as int) * (INV_MAT@[74] as int) + (MAT@[7] as int) * (INV_MAT@[86] as int) + (MAT@[8] as int) * (INV_MAT@[98] as int) + (MAT@[9] as int) * (INV_MAT@[110] as int) + (MAT@[10] as int) * (INV_MAT@[122] as int) + (MAT@[11] as int) * (INV_MAT@[134] as int)) % 340282366920938463463374557953744961537 == 0) by (nonlinear_arith)
        requires
            MAT@[0] == 6, MAT@[1] == 4, MAT@[2] == 2, MAT@[3] == 2, MAT@[4] == 3, MAT@[5] == 2, MAT@[6] == 1, MAT@[7] == 1, MAT@[8] == 3, MAT@[9] == 2, MAT@[10] == 1, MAT@[11] == 1, INV_MAT@[2] == 55903531708439890426125820235258100824, INV_MAT@[14] == 21875295016346044079788364439883604670, INV_MAT@[26] == 89931768400533736772463276030632596978, INV_MAT@[38] == 38889413362392967252957092337570852747, INV_MAT@[50] == 94792945070832857679082912572828953571, INV_MAT@[62] == 332990601915489782103445103140450426647, INV_MAT@[74] == 196877655147114396718095279958952442032, INV_MAT@[86] == 213891773493161319891264007856639690109, INV_MAT@[98] == 94792945070832857679082912572828953571, INV_MAT@[110] == 332990601915489782103445103140450426647, INV_MAT@[122] == 196877655147114396718095279958952442032, INV_MAT@[134] == 213891773493161319891264007856639690109,
    ;
    assert(product_entry(MAT@, INV_MAT@, 12, 0, 3) == (MAT@[0] as int) * (INV_MAT@[3] as int) + (MAT@[1] as int) * (INV_MAT@[15] as int) + (MAT@[2] as int) * (INV_MAT@[27] as int) + (MAT@[3] as int) * (INV_MAT@[39] as int) + (MAT@[4] as int) * (INV_MAT@[51] as int) + (MAT@[5] as int) * (INV_MAT@[63] as int) + (MAT@[6] as int) * (INV_MAT@[75] as int) + (MAT@[7] as int) * (INV_MAT@[87] as int) + (MAT@[8] as int) * (INV_MAT@[99] as int) + (MAT@[9] as int) * (INV_MAT@[111] as int) + (MAT@[10] as int) * (INV_MAT@[123] as int) + (MAT@[11] as int) * (INV_MAT@[135] as int));
    assert(((MAT@[0] as int) * (INV_MAT@[3] as int) + (MAT@[1] as int) * (INV_MAT@[15] as int) + (MAT@[2] as int) * (INV_MAT@[27] as int) + (MAT@[3] as int) * (INV_MAT@[39] as int) + (MAT@[4] as int) * (INV_MAT@[51] as int) + (MAT@[5] as int) * (INV_MAT@[63] as int) + (MAT@[6] as int) * (INV_MAT@[75] as int) + (MAT@[7] as int) * (INV_MAT@[87] as int) + (MAT@[8] as int) * (INV_MAT@[99] as int) + (MAT@[9] as int) * (INV_MAT@[111] as int) + (MAT@[10] as int) * (INV_MAT@[123] as int) + (MAT@[11] as int) * (INV_MAT@[135] as int)) % 340282366920938463463374557953744961537 == 0) by (nonlinear_arith)
        requires
            MAT@[0] == 6, MAT@[1] == 4, MAT@[2] == 2, MAT@[3] == 2, MAT@[4] == 3, MAT@[5] == 2, MAT@[6] == 1, MAT@[7] == 1, MAT@[8] == 3, MAT@[9] == 2, MAT@[10] == 1, MAT@[11] == 1, INV_MAT@[3] == 38889413362392967252957092337570852747, INV_MAT@[15] == 55903531708439890426125820235258100824, INV_MAT@[27] == 21875295016346044079788364439883604670, INV_MAT@[39] == 89931768400533736772463276030632596978, INV_MAT@[51] == 213891773493161319891264007856639690109, INV_MAT@[63] == 94792945070832857679082912572828953571, INV_MAT@[75] == 332990601915489782103445103140450426647, INV_MAT@[87] == 196877655147114396718095279958952442032, INV_MAT@[99] == 213891773493161319891264007856639690109, INV_MAT@[111] == 94792945070832857679082912572828953571, INV_MAT@[123] == 332990601915489782103445103140450426647, INV_MAT@[135] == 196877655147114396718095279958952442032,
    ;
    assert(product_entry(MAT@, INV_MAT@, 12, 0, 4) == (MAT@[0] as int) * (INV_MAT@[4] as int) + (MAT@[1] as int) * (INV_MAT@[16] as int) + (MAT@[2] as int) * (INV_MAT@[28] as int) + (MAT@[3] as int) * (INV_MAT@[40] as int) + (MAT@[4] as int) * (INV_MAT@[52] as int) + (MAT@[5] as int) * (INV_MAT@[64] as int) + (MAT@[6] as int) * (INV_MAT@[76] as int) + (MAT@[7] as int) * (INV_MAT@[88] as int) + (MAT@[8] as int) * (INV_MAT@[100] as int) + (MAT@[9] as int) * (INV_MAT@[112] as int) + (MAT@[10] as int) * (INV_MAT@[124] as int) + (MAT@[11] as int) * (INV_MAT@[136] as int));
    assert(((MAT@[0] as int) * (INV_MAT@[4] as int) + (MAT@[1] as int) * (INV_MAT@[16] as int) + (MAT@[2] as int) * (INV_MAT@[28] as int) + (MAT@[3] as int) * (INV_MAT@[40] as int) + (MAT@[4] as int) * (INV_MAT@[52] as int) + (MAT@[5] as int) * (INV_MAT@[64] as int) + (MAT@[6] as int) * (INV_MAT@[76] as int) + (MAT@[7] as int) * (INV_MAT@[88] as int) + (MAT@[8] as int) * (INV_MAT@[100] as int) + (MAT@[9] as int) * (INV_MAT@[112] as int) + (MAT@[10] as int) * (INV_MAT@[124] as int) + (MAT@[11] as int) * (INV_MAT@[136] as int)) % 340282366920938463463374557953744961537 == 0) by (nonlinear_arith)
        requires
            MAT@[0] == 6, MAT@[1] == 4, MAT@[2] == 2, MAT@[3] == 2, MAT@[4] == 3, MAT@[5] == 2, MAT@[6] == 1, MAT@[7] == 1, MAT@[8] == 3, MAT@[9] == 2, MAT@[10] == 1, MAT@[11] == 1, INV_MAT@[4] == 196877655147114396718095279958952442032, INV_MAT@[16] == 213891773493161319891264007856639690109, INV_MAT@[28] == 94792945070832857679082912572828953571, INV_MAT@[40] == 332990601915489782103445103140450426647, INV_MAT@[52] == 89931768400533736772463276030632596978, INV_MAT@[64] == 38889413362392967252957092337570852747, INV_MAT@[76] == 55903531708439890426125820235258100824, INV_MAT@[88] == 21875295016346044079788364439883604670, INV_MAT@[100] == 196877655147114396718095279958952442032, INV_MAT@[112] == 213891773493161319891264007856639690109, INV_MAT@[124] == 94792945070832857679082912572828953571, INV_MAT@[136] == 332990601915489782103445103140450426647,
    ;
    assert(product_entry(MAT@, INV_MAT@, 12, 0, 5) == (MAT@[0] as int) * (INV_MAT@[5] as int) + (MAT@[1] as int) * (INV_MAT@[17] as int) + (MAT@[2] as int) * (INV_MAT@[29] as int) + (MAT@[3] as int) * (INV_MAT@[41] as int) + (MAT@[4] as int) * (INV_MAT@[53] as int) + (MAT@[5] as int) * (INV_MAT@[65] as int) + (MAT@[6] as int) * (INV_MAT@[77] as int) + (MAT@[7] as int) * (INV_MAT@[89] as int) + (MAT@[8] as int) * (INV_MAT@[101] as int) + (MAT@[9] as int) * (INV_MAT@[113] as int) + (MAT@[10] as int) * (INV_MAT@[125] as int) + (MAT@[11] as int) * (INV_MAT@[137] as int));
    assert(((MAT@[0] as int) * (INV_MAT@[5] as int) + (MAT@[1] as int) * (INV_MAT@[17] as int) + (MAT@[2] as int) * (INV_MAT@[29] as int) + (MAT@[3] as int) * (INV_MAT@[41] as int) + (MAT@[4] as int) * (INV_MAT@[53] as int) + (MAT@[5] as int) * (INV_MAT@[65] as int) + (MAT@[6] as int) * (INV_MAT@[77] as int) + (MAT@[7] as int) * (INV_MAT@[89] as int) + (MAT@[8] as int) * (INV_MAT@[101] as int) + (MAT@[9] as int) * (INV_MAT@[113] as int) + (MAT@[10] as int) * (INV_MAT@[125] as int) + (MAT@[11] as int) * (INV_MAT@[137] as int)) % 340282366920938463463374557953744961537 == 0) by (nonlinear_arith)
        requires
            MAT@[0] == 6, MAT@[1] == 4, MAT@[2] == 2, MAT@[3] == 2, MAT@[4] == 3, MAT@[5] == 2, MAT@[6] == 1, MAT@[7] == 1, MAT@[8] == 3, MAT@[9] == 2, MAT@[10] == 1, MAT@[11] == 1, INV_MAT@[5] == 332990601915489782103445103140450426647, INV_MAT@[17] == 196877655147114396718095279958952442032, INV_MAT@[29] == 213891773493161319891264007856639690109, INV_MAT@[41] == 94792945070832857679082912572828953571, INV_MAT@[53] == 21875295016346044079788364439883604670, INV_MAT@[65] == 89931768400533736772463276030632596978, INV_MAT@[77] == 38889413362392967252957092337570852747, INV_MAT@[89] == 55903531708439890426125820235258100824, INV_MAT@[101] == 332990601915489782103445103140450426647, INV_MAT@[113] == 196877655147114396718095279958952442032, INV_MAT@[125] == 213891773493161319891264007856639690109, INV_MAT@[137] == 94792945070832857679082912572828953571,
    ;
    assert(product_entry(MAT@, INV_MAT@, 12, 0, 6) == (MAT@[0] as int) * (INV_MAT@[6] as int) + (MAT@[1] as int) * (INV_MAT@[18] as int) + (MAT@[2] as int) * (INV_MAT@[30] as int) + (MAT@[3] as int) * (INV_MAT@[42] as int) + (MAT@[4] as int) * (INV_MAT@[54] as int) + (MAT@[5] as int) * (INV_MAT@[66] as int) + (MAT@[6] as int) * (INV_MAT@[78] as int) + (MAT@[7] as int) * (INV_MAT@[90] as int) + (MAT@[8] as int) * (INV_MAT@[102] as int) + (MAT@[9] as int) * (INV_MAT@[114] as int) + (MAT@[10] as int) * (INV_MAT@[126] as int) + (MAT@[11] as int) * (INV_MAT@[138] as int));
    assert(((MAT@[0] as int) * (INV_MAT@[6] as int) + (MAT@[1] as int) * (INV_MAT@[18] as int) + (MAT@[2] as int) * (INV_MAT@[30] as int) + (MAT@[3] as int) * (INV_MAT@[42] as int) + (MAT@[4] as int) * (INV_MAT@[54] as int) + (MAT@[5] as int) * (INV_MAT@[66] as int) + (MAT@[6] as int) * (INV_MAT@[78] as int) + (MAT@[7] as int) * (INV_MAT@[90] as int) + (MAT@[8] as int) * (INV_MAT@[102] as int) + (MAT@[9] as int) * (INV_MAT@[114] as int) + (MAT@[10] as int) * (INV_MAT@[126] as int) + (MAT@[11] as int) * (INV_MAT@[138] as int)) % 340282366920938463463374557953744961537 == 0) by (nonlinear_arith)
        requires
            MAT@[0] == 6, MAT@[1] == 4, MAT@[2] == 2, MAT@[3] == 2, MAT@[4] == 3, MAT@[5] == 2, MAT@[6] == 1, MAT@[7] == 1, MAT@[8] == 3, MAT@[9] == 2, MAT@[10] == 1, MAT@[11] == 1, INV_MAT@[6] == 94792945070832857679082912572828953571, INV_MAT@[18] == 332990601915489782103445103140450426647, INV_MAT@[30] == 196877655147114396718095279958952442032, INV_MAT@[42] == 213891773493161319891264007856639690109, INV_MAT@[54] == 55903531708439890426125820235258100824, INV_MAT@[66] == 21875295016346044079788364439883604670, INV_MAT@[78] == 89931768400533736772463276030632596978, INV_MAT@[90] == 38889413362392967252957092337570852747, INV_MAT@[102] == 94792945070832857679082912572828953571, INV_MAT@[114] == 332990601915489782103445103140450426647, INV_MAT@[126] == 196877655147114396718095279958952442032, INV_MAT@[138] == 213891773493161319891264007856639690109,
    ;
    assert(product_entry(MAT@, INV_MAT@, 12, 0, 7) == (MAT@[0] as int) * (INV_MAT@[7] as int) + (MAT@[1] as int) * (INV_MAT@[19] as int) + (MAT@[2] as int) * (INV_MAT@[31] as int) + (MAT@[3] as int) * (INV_MAT@[43] as int) + (MAT@[4] as int) * (INV_MAT@[55] as int) + (MAT@[5] as int) * (INV_MAT@[67] as int) + (MAT@[6] as int) * (INV_MAT@[79] as int) + (MAT@[7] as int) * (INV_MAT@[91] as int) + (MAT@[8] as int) * (INV_MAT@[103] as int) + (MAT@[9] as int) * (INV_MAT@[115] as int) + (MAT@[10] as int) * (INV_MAT@[127] as int) + (MAT@[11] as int) * (INV_MAT@[139] as int));
    assert(((MAT@[0] as int) * (INV_MAT@[7] as int) + (MAT@[1] as int) * (INV_MAT@[19] as int) + (MAT@[2] as int) * (INV_MAT@[31] as int) + (MAT@[3] as int) * (INV_MAT@[43] as int) + (MAT@[4] as int) * (INV_MAT@[55] as int) + (MAT@[5] as int) * (INV_MAT@[67] as int) + (MAT@[6] as int) * (INV_MAT@[79] as int) + (MAT@[7] as int) * (INV_MAT@[91] as int) + (MAT@[8] as int) * (INV_MAT@[103] as int) + (MAT@[9] as int) * (INV_MAT@[115] as int) + (MAT@[10] as int) * (INV_MAT@[127] as int) + (MAT@[11] as int) * (INV_MAT@[139] as int)) % 340282366920938463463374557953744961537 == 0) by (nonlinear_arith)
        requires
            MAT@[0] == 6, MAT@[1] == 4, MAT@[2] == 2, MAT@[3] == 2, MAT@[4] == 3, MAT@[5] == 2, MAT@[6] == 1, MAT@[7] == 1, MAT@[8] == 3, MAT@[9] == 2, MAT@[10] == 1, MAT@[11] == 1, INV_MAT@[7] == 213891773493161319891264007856639690109, INV_MAT@[19] == 94792945070832857679082912572828953571, INV_MAT@[31] == 332990601915489782103445103140450426647, INV_MAT@[43] == 196877655147114396718095279958952442032, INV_MAT@[55] == 38889413362392967252957092337570852747, INV_MAT@[67] == 55903531708439890426125820235258100824, INV_MAT@[79] == 21875295016346044079788364439883604670, INV_MAT@[91] == 89931768400533736772463276030632596978, INV_MAT@[103] == 213891773493161319891264007856639690109, INV_MAT@[115] == 94792945070832857679082912572828953571, INV_MAT@[127] == 332990601915489782103445103140450426647, INV_MAT@[139] == 196877655147114396718095279958952442032,
    ;
    assert(product_entry(MAT@, INV_MAT@, 12, 0, 8) == (MAT@[0] as int) * (INV_MAT@[8] as int) + (MAT@[1] as int) * (INV_MAT@[20] as int) + (MAT@[2] as int) * (INV_MAT@[32] as int) + (MAT@[3] as int) * (INV_MAT@[44] as int) + (MAT@[4] as int) * (INV_MAT@[56] as int) + (MAT@[5] as int) * (INV_MAT@[68] as int) + (MAT@[6] as int) * (INV_MAT@[80] as int) + (MAT@[7] as int) * (INV_MAT@[92] as int) + (MAT@[8] as int) * (INV_MAT@[104] as int) + (MAT@[9] as int) * (INV_MAT@[116] as int) + (MAT@[10] as int) * (INV_MAT@[128] as int) + (MAT@[11] as int) * (INV_MAT@[140] as int));
    assert(((MAT@[0] as int) * (INV_MAT@[8] as int) + (MAT@[1] as int) * (INV_MAT@[20] as int) + (MAT@[2] as int) * (INV_MAT@[32] as int) + (MAT@[3] as int) * (INV_MAT@[44] as int) + (MAT@[4] as int) * (INV_MAT@[56] as int) + (MAT@[5] as int) * (INV_MAT@[68] as int) + (MAT@[6] as int) * (INV_MAT@[80] as int) + (MAT@[7] as int) * (INV_MAT@[92] as int) + (MAT@[8] as int) * (INV_MAT@[104] as int) + (MAT@[9] as int) * (INV_MAT@[116] as int) + (MAT@[10] as int) * (INV_MAT@[128] as int) + (MAT@[11] as int) * (INV_MAT@[140] as int)) % 340282366920938463463374557953744961537 == 0) by (nonlinear_arith)
        requires
            MAT@[0] == 6, MAT@[1] == 4, MAT@[2] == 2, MAT@[3] == 2, MAT@[4] == 3, MAT@[5] == 2, MAT@[6] == 1, MAT@[7] == 1, MAT@[8] == 3, MAT@[9] == 2, MAT@[10] == 1, MAT@[11] == 1, INV_MAT@[8] == 196877655147114396718095279958952442032, INV_MAT@[20] == 213891773493161319891264007856639690109, INV_MAT@[32] == 94792945070832857679082912572828953571, INV_MAT@[44] == 332990601915489782103445103140450426647, INV_MAT@[56] == 196877655147114396718095279958952442032, INV_MAT@[68] == 213891773493161319891264007856639690109, INV_MAT@[80] == 94792945070832857679082912572828953571, INV_MAT@[92] == 332990601915489782103445103140450426647, INV_MAT@[104] == 89931768400533736772463276030632596978, INV_MAT@[116] == 38889413362392967252957092337570852747, INV_MAT@[128] == 55903531708439890426125820235258100824, INV_MAT@[140] == 21875295016346044079788364439883604670,
    ;
    assert(product_entry(MAT@, INV_MAT@, 12, 0, 9) == (MAT@[0] as int) * (INV_MAT@[9] as int) + (MAT@[1] as int) * (INV_MAT@[21] as int) + (MAT@[2] as int) * (INV_MAT@[33] as int) + (MAT@[3] as int) * (INV_MAT@[45] as int) + (MAT@[4] as int) * (INV_MAT@[57] as int) + (MAT@[5] as int) * (INV_MAT@[69] as int) + (MAT@[6] as int) * (INV_MAT@[81] as int) + (MAT@[7] as int) * (INV_MAT@[93] as int) + (MAT@[8] as int) * (INV_MAT@[105] as int) + (MAT@[9] as int) * (INV_MAT@[117] as int) + (MAT@[10] as int) * (INV_MAT@[129] as int) + (MAT@[11] as int) * (INV_MAT@[141] as int));
    assert(((MAT@[0] as int) * (INV_MAT@[9] as int) + (MAT@[1] as int) * (INV_MAT@[21] as int) + (MAT@[2] as int) * (INV_MAT@[33] as int) + (MAT@[3] as int) * (INV_MAT@[45] as int) + (MAT@[4] as int) * (INV_MAT@[57] as int) + (MAT@[5] as int) * (INV_MAT@[69] as int) + (MAT@[6] as int) * (INV_MAT@[81] as int) + (MAT@[7] as int) * (INV_MAT@[93] as int) + (MAT@[8] as int) * (INV_MAT@[105] as int) + (MAT@[9] as int) * (INV_MAT@[117] as int) + (MAT@[10] as int) * (INV_MAT@[129] as int) + (MAT@[11] as int) * (INV_MAT@[141] as int)) % 340282366920938463463374557953744961537 == 0) by (nonlinear_arith)
        requires
            MAT@[0] == 6, MAT@[1] == 4, MAT@[2] == 2, MAT@[3] == 2, MAT@[4] == 3, MAT@[5] == 2, MAT@[6] == 1, MAT@[7] == 1, MAT@[8] == 3, MAT@[9] == 2, MAT@[10] == 1, MAT@[11] == 1, INV_MAT@[9] == 332990601915489782103445103140450426647, INV_MAT@[21] == 196877655147114396718095279958952442032, INV_MAT@[33] == 213891773493161319891264007856639690109, INV_MAT@[45] == 94792945070832857679082912572828953571, INV_MAT@[57] == 332990601915489782103445103140450426647, INV_MAT@[69] == 196877655147114396718095279958952442032, INV_MAT@[81] == 213891773493161319891264007856639690109, INV_MAT@[93] == 94792945070832857679082912572828953571, INV_MAT@[105] == 21875295016346044079788364439883604670, INV_MAT@[117] == 89931768400533736772463276030632596978, INV_MAT@[129] == 38889413362392967252957092337570852747, INV_MAT@[141] == 55903531708439890426125820235258100824,
    ;
    assert(product_entry(MAT@, INV_MAT@, 12, 0, 10) == (MAT@[0] as int) * (INV_MAT@[10] as int) + (MAT@[1] as int) * (INV_MAT@[22] as int) + (MAT@[2] as int) * (INV_MAT@[34] as int) + (MAT@[3] as int) * (INV_MAT@[46] as int) + (MAT@[4] as int) * (INV_MAT@[58] as int) + (MAT@[5] as int) * (INV_MAT@[70] as int) + (MAT@[6] as int) * (INV_MAT@[82] as int) + (MAT@[7] as int) * (INV_MAT@[94] as int) + (MAT@[8] as int) * (INV_MAT@[106] as int) + (MAT@[9] as int) * (INV_MAT@[118] as int) + (MAT@[10] as int) * (INV_MAT@[130] as int) + (MAT@[11] as int) * (INV_MAT@[142] as int));
    assert(((MAT@[0] as int) * (INV_MAT@[10] as int) + (MAT@[1] as int) * (INV_MAT@[22] as int) + (MAT@[2] as int) * (INV_MAT@[34] as int) + (MAT@[3] as int) * (INV_MAT@[46] as int) + (MAT@[4] as int) * (INV_MAT@[58] as int) + (MAT@[5] as int) * (INV_MAT@[70] as int) + (MAT@[6] as int) * (INV_MAT@[82] as int) + (MAT@[7] as int) * (INV_MAT@[94] as int) + (MAT@[8] as int) * (INV_MAT@[106] as int) + (MAT@[9] as int) * (INV_MAT@[118] as int) + (MAT@[10] as int) * (INV_MAT@[130] as int) + (MAT@[11] as int) * (INV_MAT@[142] as int)) % 340282366920938463463374557953744961537 == 0) by (nonlinear_arith)
        requires
            MAT@[0] == 6, MAT@[1] == 4, MAT@[2] == 2, MAT@[3] == 2, MAT@[4] == 3, MAT@[5] == 2, MAT@[6] == 1, MAT@[7] == 1, MAT@[8] == 3, MAT@[9] == 2, MAT@[10] == 1, MAT@[11] == 1, INV_MAT@[10] == 94792945070832857679082912572828953571, INV_MAT@[22] == 332990601915489782103445103140450426647, INV_MAT@[34] == 196877655147114396718095279958952442032, INV_MAT@[46] == 213891773493161319891264007856639690109, INV_MAT@[58] == 94792945070832857679082912572828953571, INV_MAT@[70] == 332990601915489782103445103140450426647, INV_MAT@[82] == 196877655147114396718095279958952442032, INV_MAT@[94] == 213891773493161319891264007856639690109, INV_MAT@[106] == 55903531708439890426125820235258100824, INV_MAT@[118] == 21875295016346044079788364439883604670, INV_MAT@[130] == 89931768400533736772463276030632596978, INV_MAT@[142] == 38889413362392967252957092337570852747,
    ;
    assert(product_entry(MAT@, INV_MAT@, 12, 0, 11) == (MAT@[0] as int) * (INV_MAT@[11] as int) + (MAT@[1] as int) * (INV_MAT@[23] as int) + (MAT@[2] as int) * (INV_MAT@[35] as int) + (MAT@[3] as int) * (INV_MAT@[47] as int) + (MAT@[4] as int) * (INV_MAT@[59] as int) + (MAT@[5] as int) * (INV_MAT@[71] as int) + (MAT@[6] as int) * (INV_MAT@[83] as int) + (MAT@[7] as int) * (INV_MAT@[95] as int) + (MAT@[8] as int) * (INV_MAT@[107] as int) + (MAT@[9] as int) * (INV_MAT@[119] as int) + (MAT@[10] as int) * (INV_MAT@[131] as int) + (MAT@[11] as int) * (INV_MAT@[143] as int));
    assert(((MAT@[0] as int) * (INV_MAT@[11] as int) + (MAT@[1] as int) * (INV_MAT@[23] as int) + (MAT@[2] as int) * (INV_MAT@[35] as int) + (MAT@[3] as int) * (INV_MAT@[47] as int) + (MAT@[4] as int) * (INV_MAT@[59] as int) + (MAT@[5] as int) * (INV_MAT@[71] as int) + (MAT@[6] as int) * (INV_MAT@[83] as int) + (MAT@[7] as int) * (INV_MAT@[95] as int) + (MAT@[8] as int) * (INV_MAT@[107] as int) + (MAT@[9] as int) * (INV_MAT@[119] as int) + (MAT@[10] as int) * (INV_MAT@[131] as int) + (MAT@[11] as int) * (INV_MAT@[143] as int)) % 340282366920938463463374557953744961537 == 0) by (nonlinear_arith)
        requires
            MAT@[0] == 6, MAT@[1] == 4, MAT@[2] == 2, MAT@[3] == 2, MAT@[4] == 3, MAT@[5] == 2, MAT@[6] == 1, MAT@[7] == 1, MAT@[8] == 3, MAT@[9] == 2, MAT@[10] == 1, MAT@[11] == 1, INV_MAT@[11] == 213891773493161319891264007856639690109, INV_MAT@[23] == 94792945070832857679082912572828953571, INV_MAT@[35] == 332990601915489782103445103140450426647, INV_MAT@[47] == 196877655147114396718095279958952442032, INV_MAT@[59] == 213891773493161319891264007856639690109, INV_MAT@[71] == 94792945070832857679082912572828953571, INV_MAT@[83] == 332990601915489782103445103140450426647, INV_MAT@[95] == 196877655147114396718095279958952442032, INV_MAT@[107] == 38889413362392967252957092337570852747, INV_MAT@[119] == 55903531708439890426125820235258100824, INV_MAT@[131] == 21875295016346044079788364439883604670, INV_MAT@[143] == 89931768400533736772463276030632596978,
    ;
}

proof fn lemma_product_forward_row_1()
    ensures
        identity_row(Elem::modulus(), MAT@, INV_MAT@, 12, 1, 12),
{
    reveal_with_fuel(sum, 13);
    reveal_with_fuel(identity_row, 13);
    assert(product_entry(MAT@, INV_MAT@, 12, 1, 0) == (MAT@[12] as int) * (INV_MAT@[0] as int) + (MAT@[13] as int) * (INV_MAT@[12] as int) + (MAT@[14] as int) * (INV_MAT@[24] as int) + (MAT@[15] as int) * (INV_MAT@[36] as int) + (MAT@[16] as int) * (INV_MAT@[48] as int) + (MAT@[17] as int) * (INV_MAT@[60] as int) + (MAT@[18] as int) * (INV_MAT@[72] as int) + (MAT@[19] as int) * (INV_MAT@[84] as int) + (MAT@[20] as int) * (INV_MAT@[96] as int) + (MAT@[21] as int) * (INV_MAT@[108] as int) + (MAT@[22] as int) * (INV_MAT@[120] as int) + (MAT@[23] as int) * (INV_MAT@[132] as int));
    assert(((MAT@[12] as int) * (INV_MAT@[0] as int) + (MAT@[13] as int) * (INV_MAT@[12] as int) + (MAT@[14] as int) * (INV_MAT@[24] as int) + (MAT@[15] as int) * (INV_MAT@[36] as int) + (MAT@[16] as int) * (INV_MAT@[48] as int) + (MAT@[17] as int) * (INV_MAT@[60] as int) + (MAT@[18] as int) * (INV_MAT@[72] as int) + (MAT@[19] as int) * (INV_MAT@[84] as int) + (MAT@[20] as int) * (INV_MAT@[96] as int) + (MAT@[21] as int) * (INV_MAT@[108] as int) + (MAT@[22] as int) * (INV_MAT@[120] as int) + (MAT@[23] as int) * (INV_MAT@[132] as int)) % 340282366920938463463374557953744961537 == 0) by (nonlinear_arith)
        requires
            MAT@[12] == 2, MAT@[13] == 6, MAT@[14] == 4, MAT@[15] == 2, MAT@[16] == 1, MAT@[17] == 3, MAT@[18] == 2, MAT@[19] == 1, MAT@[20] == 1, MAT@[21] == 3, MAT@[22] == 2, MAT@[23] == 1, INV_MAT@[0] == 89931768400533736772463276030632596978, INV_MAT@[12] == 38889413362392967252957092337570852747, INV_MAT@[24] == 55903531708439890426125820235258100824, INV_MAT@[36] == 21875295016346044079788364439883604670, INV_MAT@[48] == 196877655147114396718095279958952442032, INV_MAT@[60] == 213891773493161319891264007856639690109, INV_MAT@[72] == 94792945070832857679082912572828953571, INV_MAT@[84] == 332990601915489782103445103140450426647, INV_MAT@[96] == 196877655147114396718095279958952442032, INV_MAT@[108] == 213891773493161319891264007856639690109, INV_MAT@[120] == 94792945070832857679082912572828953571, INV_MAT@[132] == 332990601915489782103445103140450426647,
    ;
    assert(product_entry(MAT@, INV_MAT@, 12, 1, 1) == (MAT@[12] as int) * (INV_MAT@[1] as int) + (MAT@[13] as int) * (INV_MAT@[13] as int) + (MAT@[14] as int) * (INV_MAT@[25] as int) + (MAT@[15] as int) * (INV_MAT@[37] as int) + (MAT@[16] as int) * (INV_MAT@[49] as int) + (MAT@[17] as int) * (INV_MAT@[61] as int) + (MAT@[18] as int) * (INV_MAT@[73] as int) + (MAT@[19] as int) * (INV_MAT@[85] as int) + (MAT@[20] as int) * (INV_MAT@[97] as int) + (MAT@[21] as int) * (INV_MAT@[109] as int) + (MAT@[22] as int) * (INV_MAT@[121] as int) + (MAT@[23] as int) * (INV_MAT@[133] as int));
    assert(((MAT@[12] as int) * (INV_MAT@[1] as int) + (MAT@[13] as int) * (INV_MAT@[13] as int) + (MAT@[14] as int) * (INV_MAT@[25] as int) + (MAT@[15] as int) * (INV_MAT@[37] as int) + (MAT@[16] as int) * (INV_MAT@[49] as int) + (MAT@[17] as int) * (INV_MAT@[61] as int) + (MAT@[18] as int) * (INV_MAT@[73] as int) + (MAT@[19] as int) * (INV_MAT@[85] as int) + (MAT@[20] as int) * (INV_MAT@[97] as int) + (MAT@[21] as int) * (INV_MAT@[109] as int) + (MAT@[22] as int) * (INV_MAT@[121] as int) + (MAT@[23] as int) * (INV_MAT@[133] as int)) % 340282366920938463463374557953744961537 == 1) by (nonlinear_arith)
        requires
            MAT@[12] == 2, MAT@[13] == 6, MAT@[14] == 4, MAT@[15] == 2, MAT@[16] == 1, MAT@[17] == 3, MAT@[18] == 2, MAT@[19] == 1, MAT@[20] == 1, MAT@[21] == 3, MAT@[22] == 2, MAT@[23] == 1, INV_MAT@[1] == 21875295016346044079788364439883604670, INV_MAT@[13] == 89931768400533736772463276030632596978, INV_MAT@[25] == 38889413362392967252957092337570852747, INV_MAT@[37] == 55903531708439890426125820235258100824, INV_MAT@[49] == 332990601915489782103445103140450426647, INV_MAT@[61] == 196877655147114396718095279958952442032, INV_MAT@[73] == 213891773493161319891264007856639690109, INV_MAT@[85] == 94792945070832857679082912572828953571, INV_MAT@[97] == 332990601915489782103445103140450426647, INV_MAT@[109] == 196877655147114396718095279958952442032, INV_MAT@[121] == 213891773493161319891264007856639690109, INV_MAT@[133] == 94792945070832857679082912572828953571,
    ;
    assert(product_entry(MAT@, INV_MAT@, 12, 1, 2) == (MAT@[12] as int) * (INV_MAT@[2] as int) + (MAT@[13] as int) * (INV_MAT@[14] as int) + (MAT@[14] as int) * (INV_MAT@[26] as int) + (MAT@[15] as int) * (INV_MAT@[38] as int) + (MAT@[16] as int) * (INV_MAT@[50] as int) + (MAT@[17] as int) * (INV_MAT@[62] as int) + (MAT@[18] as int) * (INV_MAT@[74] as int) + (MAT@[19] as int) * (INV_MAT@[86] as int) + (MAT@[20] as int) * (INV_MAT@[98] as int) + (MAT@[21] as int) * (INV_MAT@[110] as int) + (MAT@[22] as int) * (INV_MAT@[122] as int) + (MAT@[23] as int) * (INV_MAT@[134] as int));
    assert(((MAT@[12] as int) * (INV_MAT@[2] as int) + (MAT@[13] as int) * (INV_MAT@[14] as int) + (MAT@[14] as int) * (INV_MAT@[26] as int) + (MAT@[15] as int) * (INV_MAT@[38] as int) + (MAT@[16] as int) * (INV_MAT@[50] as int) + (MAT@[17] as int) * (INV_MAT@[62] as int) + (MAT@[18] as int) * (INV_MAT@[74] as int) + (MAT@[19] as int) * (INV_MAT@[86] as int) + (MAT@[20] as int) * (INV_MAT@[98] as int) + (MAT@[21] as int) * (INV_MAT@[110] as int) + (MAT@[22] as int) * (INV_MAT@[122] as int) + (MAT@[23] as int) * (INV_MAT@[134] as int)) % 340282366920938463463374557953744961537 == 0) by (nonlinear_arith)
        requires
            MAT@[12] == 2, MAT@[13] == 6, MAT@[14] == 4, MAT@[15] == 2, MAT@[16] == 1, MAT@[17] == 3, MAT@[18] == 2, MAT@[19] == 1, MAT@[20] == 1, MAT@[21] == 3, MAT@[22] == 2, MAT@[23] == 1, INV_MAT@[2] == 55903531708439890426125820235258100824, INV_MAT@[14] == 21875295016346044079788364439883604670, INV_MAT@[26] == 89931768400533736772463276030632596978, INV_MAT@[38] == 38889413362392967252957092337570852747, INV_MAT@[50] == 94792945070832857679082912572828953571, INV_MAT@[62] == 332990601915489782103445103140450426647, INV_MAT@[74] == 196877655147114396718095279958952442032, INV_MAT@[86] == 213891773493161319891264007856639690109, INV_MAT@[98] == 94792945070832857679082912572828953571, INV_MAT@[110] == 332990601915489782103445103140450426647, INV_MAT@[122] == 196877655147114396718095279958952442032, INV_MAT@[134] == 213891773493161319891264007856639690109,
    ;
    assert(product_entry(MAT@, INV_MAT@, 12, 1, 3) == (MAT@[12] as int) * (INV_MAT@[3] as int) + (MAT@[13] as int) * (INV_MAT@[15] as int) + (MAT@[14] as int) * (INV_MAT@[27] as int) + (MAT@[15] as int) * (INV_MAT@[39] as int) + (MAT@[16] as int) * (INV_MAT@[51] as int) + (MAT@[17] as int) * (INV_MAT@[63] as int) + (MAT@[18] as int) * (INV_MAT@[75] as int) + (MAT@[19] as int) * (INV_MAT@[87] as int) + (MAT@[20] as int) * (INV_MAT@[99] as int) + (MAT@[21] as int) * (INV_MAT@[111] as int) + (MAT@[22] as int) * (INV_MAT@[123] as int) + (MAT@[23] as int) * (INV_MAT@[135] as int));
    assert(((MAT@[12] as int) * (INV_MAT@[3] as int) + (MAT@[13] as int) * (INV_MAT@[15] as int) + (MAT@[14] as int) * (INV_MAT@[27] as int) + (MAT@[15] as int) * (INV_MAT@[39] as int) + (MAT@[16] as int) * (INV_MAT@[51] as int) + (MAT@[17] as int) * (INV_MAT@[63] as int) + (MAT@[18] as int) * (INV_MAT@[75] as int) + (MAT@[19] as int) * (INV_MAT@[87] as int) + (MAT@[20] as int) * (INV_MAT@[99] as int) + (MAT@[21] as int) * (INV_MAT@[111] as int) + (MAT@[22] as int) * (INV_MAT@[123] as int) + (MAT@[23] as int) * (INV_MAT@[135] as int)) % 340282366920938463463374557953744961537 == 0) by (nonlinear_arith)
        requires
            MAT@[12] == 2, MAT@[13] == 6, MAT@[14] == 4, MAT@[15] == 2, MAT@[16] == 1, MAT@[17] == 3, MAT@[18] == 2, MAT@[19] == 1, MAT@[20] == 1, MAT@[21] == 3, MAT@[22] == 2, MAT@[23] == 1, INV_MAT@[3] == 38889413362392967252957092337570852747, INV_MAT@[15] == 55903531708439890426125820235258100824, INV_MAT@[27] == 21875295016346044079788364439883604670, INV_MAT@[39] == 89931768400533736772463276030632596978, INV_MAT@[51] == 213891773493161319891264007856639690109, INV_MAT@[63] == 94792945070832857679082912572828953571, INV_MAT@[75] == 332990601915489782103445103140450426647, INV_MAT@[87] == 196877655147114396718095279958952442032, INV_MAT@[99] == 213891773493161319891264007856639690109, INV_MAT@[111] == 94792945070832857679082912572828953571, INV_MAT@[123] == 332990601915489782103445103140450426647, INV_MAT@[135] == 196877655147114396718095279958952442032,
    ;
    assert(product_entry(MAT@, INV_MAT@, 12, 1, 4) == (MAT@[12] as int) * (INV_MAT@[4] as int) + (MAT@[13] as int) * (INV_MAT@[16] as int) + (MAT@[14] as int) * (INV_MAT@[28] as int) + (MAT@[15] as int) * (INV_MAT@[40] as int) + (MAT@[16] as int) * (INV_MAT@[52] as int) + (MAT@[17] as int) * (INV_MAT@[64] as int) + (MAT@[18] as int) * (INV_MAT@[76] as int) + (MAT@[19] as int) * (INV_MAT@[88] as int) + (MAT@[20] as int) * (INV_MAT@[100] as int) + (MAT@[21] as int) * (INV_MAT@[112] as int) + (MAT@[22] as int) * (INV_MAT@[124] as int) + (MAT@[23] as int) * (INV_MAT@[136] as int));
    assert(((MAT@[12] as int) * (INV_MAT@[4] as int) + (MAT@[13] as int) * (INV_MAT@[16] as int) + (MAT@[14] as int) * (INV_MAT@[28] as int) + (MAT@[15] as int) * (INV_MAT@[40] as int) + (MAT@[16] as int) * (INV_MAT@[52] as int) + (MAT@[17] as int) * (INV_MAT@[64] as int) + (MAT@[18] as int) * (INV_MAT@[76] as int) + (MAT@[19] as int) * (INV_MAT@[88] as int) + (MAT@[20] as int) * (INV_MAT@[100] as int) + (MAT@[21] as int) * (INV_MAT@[112] as int) + (MAT@[22] as int) * (INV_MAT@[124] as int) + (MAT@[23] as int) * (INV_MAT@[136] as int)) % 340282366920938463463374557953744961537 == 0) by (nonlinear_arith)
        requires
            MAT@[12] == 2, MAT@[13] == 6, MAT@[14] == 4, MAT@[15] == 2, MAT@[16] == 1, MAT@[17] == 3, MAT@[18] == 2, MAT@[19] == 1, MAT@[20] == 1, MAT@[21] == 3, MAT@[22] == 2, MAT@[23] == 1, INV_MAT@[4] == 196877655147114396718095279958952442032, INV_MAT@[16] == 213891773493161319891264007856639690109, INV_MAT@[28] == 94792945070832857679082912572828953571, INV_MAT@[40] == 332990601915489782103445103140450426647, INV_MAT@[52] == 89931768400533736772463276030632596978, INV_MAT@[64] == 38889413362392967252957092337570852747, INV_MAT@[76] == 55903531708439890426125820235258100824, INV_MAT@[88] == 21875295016346044079788364439883604670, INV_MAT@[100] == 196877655147114396718095279958952442032, INV_MAT@[112] == 213891773493161319891264007856639690109, INV_MAT@[124] == 94792945070832857679082912572828953571, INV_MAT@[136] == 332990601915489782103445103140450426647,
    ;
    assert(product_entry(MAT@, INV_MAT@, 12, 1, 5) == (MAT@[12] as int) * (INV_MAT@[5] as int) + (MAT@[13] as int) * (INV_MAT@[17] as int) + (MAT@[14] as int) * (INV_MAT@[29] as int) + (MAT@[15] as int) * (INV_MAT@[41] as int) + (MAT@[16] as int) * (INV_MAT@[53] as int) + (MAT@[17] as int) * (INV_MAT@[65] as int) + (MAT@[18] as int) * (INV_MAT@[77] as int) + (MAT@[19] as int) * (INV_MAT@[89] as int) + (MAT@[20] as int) * (INV_MAT@[101] as int) + (MAT@[21] as int) * (INV_MAT@[113] as int) + (MAT@[22] as int) * (INV_MAT@[125] as int) + (MAT@[23] as int) * (INV_MAT@[137] as int));
    assert(((MAT@[12] as int) * (INV_MAT@[5] as int) + (MAT@[13] as int) * (INV_MAT@[17] as int) + (MAT@[14] as int) * (INV_MAT@[29] as int) + (MAT@[15] as int) * (INV_MAT@[41] as int) + (MAT@[16] as int) * (INV_MAT@[53] as int) + (MAT@[17] as int) * (INV_MAT@[65] as int) + (MAT@[18] as int) * (INV_MAT@[77] as int) + (MAT@[19] as int) * (INV_MAT@[89] as int) + (MAT@[20] as int) * (INV_MAT@[101] as int) + (MAT@[21] as int) * (INV_MAT@[113] as int) + (MAT@[22] as int) * (INV_MAT@[125] as int) + (MAT@[23] as int) * (INV_MAT@[137] as int)) % 340282366920938463463374557953744961537 == 0) by (nonlinear_arith)
        requires
            MAT@[12] == 2, MAT@[13] == 6, MAT@[14] == 4, MAT@[15] == 2, MAT@[16] == 1, MAT@[17] == 3, MAT@[18] == 2, MAT@[19] == 1, MAT@[20] == 1, MAT@[21] == 3, MAT@[22] == 2, MAT@[23] == 1, INV_MAT@[5] == 332990601915489782103445103140450426647, INV_MAT@[17] == 196877655147114396718095279958952442032, INV_MAT@[29] == 213891773493161319891264007856639690109, INV_MAT@[41] == 94792945070832857679082912572828953571, INV_MAT@[53] == 21875295016346044079788364439883604670, INV_MAT@[65] == 89931768400533736772463276030632596978, INV_MAT@[77] == 38889413362392967252957092337570852747, INV_MAT@[89] == 55903531708439890426125820235258100824, INV_MAT@[101] == 332990601915489782103445103140450426647, INV_MAT@[113] == 196877655147114396718095279958952442032, INV_MAT@[125] == 213891773493161319891264007856639690109, INV_MAT@[137] == 94792945070832857679082912572828953571,
    ;
    assert(product_entry(MAT@, INV_MAT@, 12, 1, 6) == (MAT@[12] as int) * (INV_MAT@[6] as int) + (MAT@[13] as int) * (INV_MAT@[18] as int) + (MAT@[14] as int) * (INV_MAT@[30] as int) + (MAT@[15] as int) * (INV_MAT@[42] as int) + (MAT@[16] as int) * (INV_MAT@[54] as int) + (MAT@[17] as int) * (INV_MAT@[66] as int) + (MAT@[18] as int) * (INV_MAT@[78] as int) + (MAT@[19] as int) * (INV_MAT@[90] as int) + (MAT@[20] as int) * (INV_MAT@[102] as int) + (MAT@[21] as int) * (INV_MAT@[114] as int) + (MAT@[22] as int) * (INV_MAT@[126] as int) + (MAT@[23] as int) * (INV_MAT@[138] as int));
    assert(((MAT@[12] as int) * (INV_MAT@[6] as int) + (MAT@[13] as int) * (INV_MAT@[18] as int) + (MAT@[14] as int) * (INV_MAT@[30] as int) + (MAT@[15] as int) * (INV_MAT@[42] as int) + (MAT@[16] as int) * (INV_MAT@[54] as int) + (MAT@[17] as int) * (INV_MAT@[66] as int) + (MAT@[18] as int) * (INV_MAT@[78] as int) + (MAT@[19] as int) * (INV_MAT@[90] as int) + (MAT@[20] as int) * (INV_MAT@[102] as int) + (MAT@[21] as int) * (INV_MAT@[114] as int) + (MAT@[22] as int) * (INV_MAT@[126] as int) + (MAT@[23] as int) * (INV_MAT@[138] as int)) % 340282366920938463463374557953744961537 == 0) by (nonlinear_arith)
        requires
            MAT@[12] == 2, MAT@[13] == 6, MAT@[14] == 4, MAT@[15] == 2, MAT@[16] == 1, MAT@[17] == 3, MAT@[18] == 2, MAT@[19] == 1, MAT@[20] == 1, MAT@[21] == 3, MAT@[22] == 2, MAT@[23] == 1, INV_MAT@[6] == 94792945070832857679082912572828953571, INV_MAT@[18] == 332990601915489782103445103140450426647, INV_MAT@[30] == 196877655147114396718095279958952442032, INV_MAT@[42] == 213891773493161319891264007856639690109, INV_MAT@[54] == 55903531708439890426125820235258100824, INV_MAT@[66] == 21875295016346044079788364439883604670, INV_MAT@[78] == 89931768400533736772463276030632596978, INV_MAT@[90] == 38889413362392967252957092337570852747, INV_MAT@[102] == 94792945070832857679082912572828953571, INV_MAT@[114] == 332990601915489782103445103140450426647, INV_MAT@[126] == 196877655147114396718095279958952442032, INV_MAT@[138] == 213891773493161319891264007856639690109,
    ;
    assert(product_entry(MAT@, INV_MAT@, 12, 1, 7) == (MAT@[12] as int) * (INV_MAT@[7] as int) + (MAT@[13] as int) * (INV_MAT@[19] as int) + (MAT@[14] as int) * (INV_MAT@[31] as int) + (MAT@[15] as int) * (INV_MAT@[43] as int) + (MAT@[16] as int) * (INV_MAT@[55] as int) + (MAT@[17] as int) * (INV_MAT@[67] as int) + (MAT@[18] as int) * (INV_MAT@[79] as int) + (MAT@[19] as int) * (INV_MAT@[91] as int) + (MAT@[20] as int) * (INV_MAT@[103] as int) + (MAT@[21] as int) * (INV_MAT@[115] as int) + (MAT@[22] as int) * (INV_MAT@[127] as int) + (MAT@[23] as int) * (INV_MAT@[139] as int));
    assert(((MAT@[12] as int) * (INV_MAT@[7] as int) + (MAT@[13] as int) * (INV_MAT@[19] as int) + (MAT@[14] as int) * (INV_MAT@[31] as int) + (MAT@[15] as int) * (INV_MAT@[43] as int) + (MAT@[16] as int) * (INV_MAT@[55] as int) + (MAT@[17] as int) * (INV_MAT@[67] as int) + (MAT@[18] as int) * (INV_MAT@[79] as int) + (MAT@[19] as int) * (INV_MAT@[91] as int) + (MAT@[20] as int) * (INV_MAT@[103] as int) + (MAT@[21] as int) * (INV_MAT@[115] as int) + (MAT@[22] as int) * (INV_MAT@[127] as int) + (MAT@[23] as int) * (INV_MAT@[139] as int)) % 340282366920938463463374557953744961537 == 0) by (nonlinear_arith)
        requires
            MAT@[12] == 2, MAT@[13] == 6, MAT@[14] == 4, MAT@[15] == 2, MAT@[16] == 1, MAT@[17] == 3, MAT@[18] == 2, MAT@[19] == 1, MAT@[20] == 1, MAT@[21] == 3, MAT@[22] == 2, MAT@[23] == 1, INV_MAT@[7] == 213891773493161319891264007856639690109, INV_MAT@[19] == 94792945070832857679082912572828953571, INV_MAT@[31] == 332990601915489782103445103140450426647, INV_MAT@[43] == 196877655147114396718095279958952442032, INV_MAT@[55] == 38889413362392967252957092337570852747, INV_MAT@[67] == 55903531708439890426125820235258100824, INV_MAT@[79] == 21875295016346044079788364439883604670, INV_MAT@[91] == 89931768400533736772463276030632596978, INV_MAT@[103] == 213891773493161319891264007856639690109, INV_MAT@[115] == 94792945070832857679082912572828953571, INV_MAT@[127] == 332990601915489782103445103140450426647, INV_MAT@[139] == 196877655147114396718095279958952442032,
    ;
    assert(product_entry(MAT@, INV_MAT@, 12, 1, 8) == (MAT@[12] as int) * (INV_MAT@[8] as int) + (MAT@[13] as int) * (INV_MAT@[20] as int) + (MAT@[14] as int) * (INV_MAT@[32] as int) + (MAT@[15] as int) * (INV_MAT@[44] as int) + (MAT@[16] as int) * (INV_MAT@[56] as int) + (MAT@[17] as int) * (INV_MAT@[68] as int) + (MAT@[18] as int) * (INV_MAT@[80] as int) + (MAT@[19] as int) * (INV_MAT@[92] as int) + (MAT@[20] as int) * (INV_MAT@[104] as int) + (MAT@[21] as int) * (INV_MAT@[116] as int) + (MAT@[22] as int) * (INV_MAT@[128] as int) + (MAT@[23] as int) * (INV_MAT@[140] as int));
    assert(((MAT@[12] as int) * (INV_MAT@[8] as int) + (MAT@[13] as int) * (INV_MAT@[20] as int) + (MAT@[14] as int) * (INV_MAT@[32] as int) + (MAT@[15] as int) * (INV_MAT@[44] as int) + (MAT@[16] as int) * (INV_MAT@[56] as int) + (MAT@[17] as int) * (INV_MAT@[68] as int) + (MAT@[18] as int) * (INV_MAT@[80] as int) + (MAT@[19] as int) * (INV_MAT@[92] as int) + (MAT@[20] as int) * (INV_MAT@[104] as int) + (MAT@[21] as int) * (INV_MAT@[116] as int) + (MAT@[22] as int) * (INV_MAT@[128] as int) + (MAT@[23] as int) * (INV_MAT@[140] as int)) % 340282366920938463463374557953744961537 == 0) by (nonlinear_arith)
        requires
            MAT@[12] == 2, MAT@[13] == 6, MAT@[14] == 4, MAT@[15] == 2, MAT@[16] == 1, MAT@[17] == 3, MAT@[18] == 2, MAT@[19] == 1, MAT@[20] == 1, MAT@[21] == 3, MAT@[22] == 2, MAT@[23] == 1, INV_MAT@[8] == 196877655147114396718095279958952442032, INV_MAT@[20] == 213891773493161319891264007856639690109, INV_MAT@[32] == 94792945070832857679082912572828953571, INV_MAT@[44] == 332990601915489782103445103140450426647, INV_MAT@[56] == 196877655147114396718095279958952442032, INV_MAT@[68] == 213891773493161319891264007856639690109, INV_MAT@[80] == 94792945070832857679082912572828953571, INV_MAT@[92] == 332990601915489782103445103140450426647, INV_MAT@[104] == 89931768400533736772463276030632596978, INV_MAT@[116] == 38889413362392967252957092337570852747, INV_MAT@[128] == 55903531708439890426125820235258100824, INV_MAT@[140] == 21875295016346044079788364439883604670,
    ;
    assert(product_entry(MAT@, INV_MAT@, 12, 1, 9) == (MAT@[12] as int) * (INV_MAT@[9] as int) + (MAT@[13] as int) * (INV_MAT@[21] as int) + (MAT@[14] as int) * (INV_MAT@[33] as int) + (MAT@[15] as int) * (INV_MAT@[45] as int) + (MAT@[16] as int) * (INV_MAT@[57] as int) + (MAT@[17] as int) * (INV_MAT@[69] as int) + (MAT@[18] as int) * (INV_MAT@[81] as int) + (MAT@[19] as int) * (INV_MAT@[93] as int) + (MAT@[20] as int) * (INV_MAT@[105] as int) + (MAT@[21] as int) * (INV_MAT@[117] as int) + (MAT@[22] as int) * (INV_MAT@[129] as int) + (MAT@[23] as int) * (INV_MAT@[141] as int));
    assert(((MAT@[12] as int) * (INV_MAT@[9] as int) + (MAT@[13] as int) * (INV_MAT@[21] as int) + (MAT@[14] as int) * (INV_MAT@[33] as int) + (MAT@[15] as int) * (INV_MAT@[45] as int) + (MAT@[16] as int) * (INV_MAT@[57] as int) + (MAT@[17] as int) * (INV_MAT@[69] as int) + (MAT@[18] as int) * (INV_MAT@[81] as int) + (MAT@[19] as int) * (INV_MAT@[93] as int) + (MAT@[20] as int) * (INV_MAT@[105] as int) + (MAT@[21] as int) * (INV_MAT@[117] as int) + (MAT@[22] as int) * (INV_MAT@[129] as int) + (MAT@[23] as int) * (INV_MAT@[141] as int)) % 340282366920938463463374557953744961537 == 0) by (nonlinear_arith)
        requires
            MAT@[12] == 2, MAT@[13] == 6, MAT@[14] == 4, MAT@[15] == 2, MAT@[16] == 1, MAT@[17] == 3, MAT@[18] == 2, MAT@[19] == 1, MAT@[20] == 1, MAT@[21] == 3, MAT@[22] == 2, MAT@[23] == 1, INV_MAT@[9] == 332990601915489782103445103140450426647, INV_MAT@[21] == 196877655147114396718095279958952442032, INV_MAT@[33] == 213891773493161319891264007856639690109, INV_MAT@[45] == 94792945070832857679082912572828953571, INV_MAT@[57] == 332990601915489782103445103140450426647, INV_MAT@[69] == 196877655147114396718095279958952442032, INV_MAT@[81] == 213891773493161319891264007856639690109, INV_MAT@[93] == 94792945070832857679082912572828953571, INV_MAT@[105] == 21875295016346044079788364439883604670, INV_MAT@[117] == 89931768400533736772463276030632596978, INV_MAT@[129] == 38889413362392967252957092337570852747, INV_MAT@[141] == 55903531708439890426125820235258100824,
    ;
    assert(product_entry(MAT@, INV_MAT@, 12, 1, 10) == (MAT@[12] as int) * (INV_MAT@[10] as int) + (MAT@[13] as int) * (INV_MAT@[22] as int) + (MAT@[14] as int) * (INV_MAT@[34] as int) + (MAT@[15] as int) * (INV_MAT@[46] as int) + (MAT@[16] as int) * (INV_MAT@[58] as int) + (MAT@[17] as int) * (INV_MAT@[70] as int) + (MAT@[18] as int) * (INV_MAT@[82] as int) + (MAT@[19] as int) * (INV_MAT@[94] as int) + (MAT@[20] as int) * (INV_MAT@[106] as int) + (MAT@[21] as int) * (INV_MAT@[118] as int) + (MAT@[22] as int) * (INV_MAT@[130] as int) + (MAT@[23] as int) * (INV_MAT@[142] as int));
    assert(((MAT@[12] as int) * (INV_MAT@[10] as int) + (MAT@[13] as int) * (INV_MAT@[22] as int) + (MAT@[14] as int) * (INV_MAT@[34] as int) + (MAT@[15] as int) * (INV_MAT@[46] as int) + (MAT@[16] as int) * (INV_MAT@[58] as int) + (MAT@[17] as int) * (INV_MAT@[70] as int) + (MAT@[18] as int) * (INV_MAT@[82] as int) + (MAT@[19] as int) * (INV_MAT@[94] as int) + (MAT@[20] as int) * (INV_MAT@[106] as int) + (MAT@[21] as int) * (INV_MAT@[118] as int) + (MAT@[22] as int) * (INV_MAT@[130] as int) + (MAT@[23] as int) * (INV_MAT@[142] as int)) % 340282366920938463463374557953744961537 == 0) by (nonlinear_arith)
        requires
            MAT@[12] == 2, MAT@[13] == 6, MAT@[14] == 4, MAT@[15] == 2, MAT@[16] == 1, MAT@[17] == 3, MAT@[18] == 2, MAT@[19] == 1, MAT@[20] == 1, MAT@[21] == 3, MAT@[22] == 2, MAT@[23] == 1, INV_MAT@[10] == 94792945070832857679082912572828953571, INV_MAT@[22] == 332990601915489782103445103140450426647, INV_MAT@[34] == 196877655147114396718095279958952442032, INV_MAT@[46] == 213891773493161319891264007856639690109, INV_MAT@[58] == 94792945070832857679082912572828953571, INV_MAT@[70] == 332990601915489782103445103140450426647, INV_MAT@[82] == 196877655147114396718095279958952442032, INV_MAT@[94] == 213891773493161319891264007856639690109, INV_MAT@[106] == 55903531708439890426125820235258100824, INV_MAT@[118] == 21875295016346044079788364439883604670, INV_MAT@[130] == 89931768400533736772463276030632596978, INV_MAT@[142] == 38889413362392967252957092337570852747,
    ;
    assert(product_entry(MAT@, INV_MAT@, 12, 1, 11) == (MAT@[12] as int) * (INV_MAT@[11] as int) + (MAT@[13] as int) * (INV_MAT@[23] as int) + (MAT@[14] as int) * (INV_MAT@[35] as int) + (MAT@[15] as int) * (INV_MAT@[47] as int) + (MAT@[16] as int) * (INV_MAT@[59] as int) + (MAT@[17] as int) * (INV_MAT@[71] as int) + (MAT@[18] as int) * (INV_MAT@[83] as int) + (MAT@[19] as int) * (INV_MAT@[95] as int) + (MAT@[20] as int) * (INV_MAT@[107] as int) + (MAT@[21] as int) * (INV_MAT@[119] as int) + (MAT@[22] as int) * (INV_MAT@[131] as int) + (MAT@[23] as int) * (INV_MAT@[143] as int));
    assert(((MAT@[12] as int) * (INV_MAT@[11] as int) + (MAT@[13] as int) * (INV_MAT@[23] as int) + (MAT@[14] as int) * (INV_MAT@[35] as int) + (MAT@[15] as int) * (INV_MAT@[47] as int) + (MAT@[16] as int) * (INV_MAT@[59] as int) + (MAT@[17] as int) * (INV_MAT@[71] as int) + (MAT@[18] as int) * (INV_MAT@[83] as int) + (MAT@[19] as int) * (INV_MAT@[95] as int) + (MAT@[20] as int) * (INV_MAT@[107] as int) + (MAT@[21] as int) * (INV_MAT@[119] as int) + (MAT@[22] as int) * (INV_MAT@[131] as int) + (MAT@[23] as int) * (INV_MAT@[143] as int)) % 340282366920938463463374557953744961537 == 0) by (nonlinear_arith)
        requires
            MAT@[12] == 2, MAT@[13] == 6, MAT@[14] == 4, MAT@[15] == 2, MAT@[16] == 1, MAT@[17] == 3, MAT@[18] == 2, MAT@[19] == 1, MAT@[20] == 1, MAT@[21] == 3, MAT@[22] == 2, MAT@[23] == 1, INV_MAT@[11] == 213891773493161319891264007856639690109, INV_MAT@[23] == 94792945070832857679082912572828953571, INV_MAT@[35] == 332990601915489782103445103140450426647, INV_MAT@[47] == 196877655147114396718095279958952442032, INV_MAT@[59] == 213891773493161319891264007856639690109, INV_MAT@[71] == 94792945070832857679082912572828953571, INV_MAT@[83] == 332990601915489782103445103140450426647, INV_MAT@[95] == 196877655147114396718095279958952442032, INV_MAT@[107] == 38889413362392967252957092337570852747, INV_MAT@[119] == 55903531708439890426125820235258100824, INV_MAT@[131] == 21875295016346044079788364439883604670, INV_MAT@[143] == 89931768400533736772463276030632596978,
    ;
}

proof fn lemma_product_forward_row_2()
    ensures
        identity_row(Elem::modulus(), MAT@, INV_MAT@, 12, 2, 12),
{
    reveal_with_fuel(sum, 13);
    reveal_with_fuel(identity_row, 13);
    assert(product_entry(MAT@, INV_MAT@, 12, 2, 0) == (MAT@[24] as int) * (INV_MAT@[0] as int) + (MAT@[25] as int) * (INV_MAT@[12] as int) + (MAT@[26] as int) * (INV_MAT@[24] as int) + (MAT@[27] as int) * (INV_MAT@[36] as int) + (MAT@[28] as int) * (INV_MAT@[48] as int) + (MAT@[29] as int) * (INV_MAT@[60] as int) + (MAT@[30] as int) * (INV_MAT@[72] as int) + (MAT@[31] as int) * (INV_MAT@[84] as int) + (MAT@[32] as int) * (INV_MAT@[96] as int) + (MAT@[33] as int) * (INV_MAT@[108] as int) + (MAT@[34] as int) * (INV_MAT@[120] as int) + (MAT@[35] as int) * (INV_MAT@[132] as int));
    assert(((MAT@[24] as int) * (INV_MAT@[0] as int) + (MAT@[25] as int) * (INV_MAT@[12] as int) + (MAT@[26] as int) * (INV_MAT@[24] as int) + (MAT@[27] as int) * (INV_MAT@[36] as int) + (MAT@[28] as int) * (INV_MAT@[48] as int) + (MAT@[29] as int) * (INV_MAT@[60] as int) + (MAT@[30] as int) * (INV_MAT@[72] as int) + (MAT@[31] as int) * (INV_MAT@[84] as int) + (MAT@[32] as int) * (INV_MAT@[96] as int) + (MAT@[33] as int) * (INV_MAT@[108] as int) + (MAT@[34] as int) * (INV_MAT@[120] as int) + (MAT@[35] as int) * (INV_MAT@[132] as int)) % 340282366920938463463374557953744961537 == 0) by (nonlinear_arith)
        requires
            MAT@[24] == 2, MAT@[25] == 2, MAT@[26] == 6, MAT@[27] == 4, MAT@[28] == 1, MAT@[29] == 1, MAT@[30] == 3, MAT@[31] == 2, MAT@[32] == 1, MAT@[33] == 1, MAT@[34] == 3, MAT@[35] == 2, INV_MAT@[0] == 89931768400533736772463276030632596978, INV_MAT@[12] == 38889413362392967252957092337570852747, INV_MAT@[24] == 55903531708439890426125820235258100824, INV_MAT@[36] == 21875295016346044079788364439883604670, INV_MAT@[48] == 196877655147114396718095279958952442032, INV_MAT@[60] == 213891773493161319891264007856639690109, INV_MAT@[72] == 94792945070832857679082912572828953571, INV_MAT@[84] == 332990601915489782103445103140450426647, INV_MAT@[96] == 196877655147114396718095279958952442032, INV_MAT@[108] == 213891773493161319891264007856639690109, INV_MAT@[120] == 94792945070832857679082912572828953571, INV_MAT@[132] == 332990601915489782103445103140450426647,
    ;
    assert(product_entry(MAT@, INV_MAT@, 12, 2, 1) == (MAT@[24] as int) * (INV_MAT@[1] as int) + (MAT@[25] as int) * (INV_MAT@[13] as int) + (MAT@[26] as int) * (INV_MAT@[25] as int) + (MAT@[27] as int) * (INV_MAT@[37] as int) + (MAT@[28] as int) * (INV_MAT@[49] as int) + (MAT@[29] as int) * (INV_MAT@[61] as int) + (MAT@[30] as int) * (INV_MAT@[73] as int) + (MAT@[31] as int) * (INV_MAT@[85] as int) + (MAT@[32] as int) * (INV_MAT@[97] as int) + (MAT@[33] as int) * (INV_MAT@[109] as int) + (MAT@[34] as int) * (INV_MAT@[121] as int) + (MAT@[35] as int) * (INV_MAT@[133] as int));
    assert(((MAT@[24] as int) * (INV_MAT@[1] as int) + (MAT@[25] as int) * (INV_MAT@[13] as int) + (MAT@[26] as int) * (INV_MAT@[25] as int) + (MAT@[27] as int) * (INV_MAT@[37] as int) + (MAT@[28] as int) * (INV_MAT@[49] as int) + (MAT@[29] as int) * (INV_MAT@[61] as int) + (MAT@[30] as int) * (INV_MAT@[73] as int) + (MAT@[31] as int) * (INV_MAT@[85] as int) + (MAT@[32] as int) * (INV_MAT@[97] as int) + (MAT@[33] as int) * (INV_MAT@[109] as int) + (MAT@[34] as int) * (INV_MAT@[121] as int) + (MAT@[35] as int) * (INV_MAT@[133] as int)) % 340282366920938463463374557953744961537 == 0) by (nonlinear_arith)
        requires
            MAT@[24] == 2, MAT@[25] == 2, MAT@[26] == 6, MAT@[27] == 4, MAT@[28] == 1, MAT@[29] == 1, MAT@[30] == 3, MAT@[31] == 2, MAT@[32] == 1, MAT@[33] == 1, MAT@[34] == 3, MAT@[35] == 2, INV_MAT@[1] == 21875295016346044079788364439883604670, INV_MAT@[13] == 89931768400533736772463276030632596978, INV_MAT@[25] == 38889413362392967252957092337570852747, INV_MAT@[37] == 55903531708439890426125820235258100824, INV_MAT@[49] == 332990601915489782103445103140450426647, INV_MAT@[61] == 196877655147114396718095279958952442032, INV_MAT@[73] == 213891773493161319891264007856639690109, INV_MAT@[85] == 94792945070832857679082912572828953571, INV_MAT@[97] == 332990601915489782103445103140450426647, INV_MAT@[109] == 196877655147114396718095279958952442032, INV_MAT@[121] == 213891773493161319891264007856639690109, INV_MAT@[133] == 94792945070832857679082912572828953571,
    ;
    assert(product_entry(MAT@, INV_MAT@, 12, 2, 2) == (MAT@[24] as int) * (INV_MAT@[2] as int) + (MAT@[25] as int) * (INV_MAT@[14] as int) + (MAT@[26] as int) * (INV_MAT@[26] as int) + (MAT@[27] as int) * (INV_MAT@[38] as int) + (MAT@[28] as int) * (INV_MAT@[50] as int) + (MAT@[29] as int) * (INV_MAT@[62] as int) + (MAT@[30] as int) * (INV_MAT@[74] as int) + (MAT@[31] as int) * (INV_MAT@[86] as int) + (MAT@[32] as int) * (INV_MAT@[98] as int) + (MAT@[33] as int) * (INV_MAT@[110] as int) + (MAT@[34] as int) * (INV_MAT@[122] as int) + (MAT@[35] as int) * (INV_MAT@[134] as int));
    assert(((MAT@[24] as int) * (INV_MAT@[2] as int) + (MAT@[25] as int) * (INV_MAT@[14] as int) + (MAT@[26] as int) * (INV_MAT@[26] as int) + (MAT@[27] as int) * (INV_MAT@[38] as int) + (MAT@[28] as int) * (INV_MAT@[50] as int) + (MAT@[29] as int) * (INV_MAT@[62] as int) + (MAT@[30] as int) * (INV_MAT@[74] as int) + (MAT@[31] as int) * (INV_MAT@[86] as int) + (MAT@[32] as int) * (INV_MAT@[98] as int) + (MAT@[33] as int) * (INV_MAT@[110] as int) + (MAT@[34] as int) * (INV_MAT@[122] as int) + (MAT@[35] as int) * (INV_MAT@[134] as int)) % 340282366920938463463374557953744961537 == 1) by (nonlinear_arith)
        requires
            MAT@[24] == 2, MAT@[25] == 2, MAT@[26] == 6, MAT@[27] == 4, MAT@[28] == 1, MAT@[29] == 1, MAT@[30] == 3, MAT@[31] == 2, MAT@[32] == 1, MAT@[33] == 1, MAT@[34] == 3, MAT@[35] == 2, INV_MAT@[2] == 55903531708439890426125820235258100824, INV_MAT@[14] == 21875295016346044079788364439883604670, INV_MAT@[26] == 89931768400533736772463276030632596978, INV_MAT@[38] == 38889413362392967252957092337570852747, INV_MAT@[50] == 94792945070832857679082912572828953571, INV_MAT@[62] == 332990601915489782103445103140450426647, INV_MAT@[74] == 196877655147114396718095279958952442032, INV_MAT@[86] == 213891773493161319891264007856639690109, INV_MAT@[98] == 94792945070832857679082912572828953571, INV_MAT@[110] == 332990601915489782103445103140450426647, INV_MAT@[122] == 196877655147114396718095279958952442032, INV_MAT@[134] == 213891773493161319891264007856639690109,
    ;
    assert(product_entry(MAT@, INV_MAT@, 12, 2, 3) == (MAT@[24] as int) * (INV_MAT@[3] as int) + (MAT@[25] as int) * (INV_MAT@[15] as int) + (MAT@[26] as int) * (INV_MAT@[27] as int) + (MAT@[27] as int) * (INV_MAT@[39] as int) + (MAT@[28] as int) * (INV_MAT@[51] as int) + (MAT@[29] as int) * (INV_MAT@[63] as int) + (MAT@[30] as int) * (INV_MAT@[75] as int) + (MAT@[31] as int) * (INV_MAT@[87] as int) + (MAT@[32] as int) * (INV_MAT@[99] as int) + (MAT@[33] as int) * (INV_MAT@[111] as int) + (MAT@[34] as int) * (INV_MAT@[123] as int) + (MAT@[35] as int) * (INV_MAT@[135] as int));
    assert(((MAT@[24] as int) * (INV_MAT@[3] as int) + (MAT@[25] as int) * (INV_MAT@[15] as int) + (MAT@[26] as int) * (INV_MAT@[27] as int) + (MAT@[27] as int) * (INV_MAT@[39] as int) + (MAT@[28] as int) * (INV_MAT@[51] as int) + (MAT@[29] as int) * (INV_MAT@[63] as int) + (MAT@[30] as int) * (INV_MAT@[75] as int) + (MAT@[31] as int) * (INV_MAT@[87] as int) + (MAT@[32] as int) * (INV_MAT@[99] as int) + (MAT@[33] as int) * (INV_MAT@[111] as int) + (MAT@[34] as int) * (INV_MAT@[123] as int) + (MAT@[35] as int) * (INV_MAT@[135] as int)) % 340282366920938463463374557953744961537 == 0) by (nonlinear_arith)
        requires
            MAT@[24] == 2, MAT@[25] == 2, MAT@[26] == 6, MAT@[27] == 4, MAT@[28] == 1, MAT@[29] == 1, MAT@[30] == 3, MAT@[31] == 2, MAT@[32] == 1, MAT@[33] == 1, MAT@[34] == 3, MAT@[35] == 2, INV_MAT@[3] == 38889413362392967252957092337570852747, INV_MAT@[15] == 55903531708439890426125820235258100824, INV_MAT@[27] == 21875295016346044079788364439883604670, INV_MAT@[39] == 89931768400533736772463276030632596978, INV_MAT@[51] == 213891773493161319891264007856639690109, INV_MAT@[63] == 94792945070832857679082912572828953571, INV_MAT@[75] == 332990601915489782103445103140450426647, INV_MAT@[87] == 196877655147114396718095279958952442032, INV_MAT@[99] == 213891773493161319891264007856639690109, INV_MAT@[111] == 94792945070832857679082912572828953571, INV_MAT@[123] == 332990601915489782103445103140450426647, INV_MAT@[135] == 196877655147114396718095279958952442032,
    ;
    assert(product_entry(MAT@, INV_MAT@, 12, 2, 4) == (MAT@[24] as int) * (INV_MAT@[4] as int) + (MAT@[25] as int) * (INV_MAT@[16] as int) + (MAT@[26] as int) * (INV_MAT@[28] as int) + (MAT@[27] as int) * (INV_MAT@[40] as int) + (MAT@[28] as int) * (INV_MAT@[52] as int) + (MAT@[29] as int) * (INV_MAT@[64] as int) + (MAT@[30] as int) * (INV_MAT@[76] as int) + (MAT@[31] as int) * (INV_MAT@[88] as int) + (MAT@[32] as int) * (INV_MAT@[100] as int) + (MAT@[33] as int) * (INV_MAT@[112] as int) + (MAT@[34] as int) * (INV_MAT@[124] as int) + (MAT@[35] as int) * (INV_MAT@[136] as int));
    assert(((MAT@[24] as int) * (INV_MAT@[4] as int) + (MAT@[25] as int) * (INV_MAT@[16] as int) + (MAT@[26] as int) * (INV_MAT@[28] as int) + (MAT@[27] as int) * (INV_MAT@[40] as int) + (MAT@[28] as int) * (INV_MAT@[52] as int) + (MAT@[29] as int) * (INV_MAT@[64] as int) + (MAT@[30] as int) * (INV_MAT@[76] as int) + (MAT@[31] as int) * (INV_MAT@[88] as int) + (MAT@[32] as int) * (INV_MAT@[100] as int) + (MAT@[33] as int) * (INV_MAT@[112] as int) + (MAT@[34] as int) * (INV_MAT@[124] as int) + (MAT@[35] as int) * (INV_MAT@[136] as int)) % 340282366920938463463374557953744961537 == 0) by (nonlinear_arith)
        requires
            MAT@[24] == 2, MAT@[25] == 2, MAT@[26] == 6, MAT@[27] == 4, MAT@[28] == 1, MAT@[29] == 1, MAT@[30] == 3, MAT@[31] == 2, MAT@[32] == 1, MAT@[33] == 1, MAT@[34] == 3, MAT@[35] == 2, INV_MAT@[4] == 196877655147114396718095279958952442032, INV_MAT@[16] == 213891773493161319891264007856639690109, INV_MAT@[28] == 94792945070832857679082912572828953571, INV_MAT@[40] == 332990601915489782103445103140450426647, INV_MAT@[52] == 89931768400533736772463276030632596978, INV_MAT@[64] == 38889413362392967252957092337570852747, INV_MAT@[76] == 55903531708439890426125820235258100824, INV_MAT@[88] == 21875295016346044079788364439883604670, INV_MAT@[100] == 196877655147114396718095279958952442032, INV_MAT@[112] == 213891773493161319891264007856639690109, INV_MAT@[124] == 94792945070832857679082912572828953571, INV_MAT@[136] == 332990601915489782103445103140450426647,
    ;
    assert(product_entry(MAT@, INV_MAT@, 12, 2, 5) == (MAT@[24] as int) * (INV_MAT@[5] as int) + (MAT@[25] as int) * (INV_MAT@[17] as int) + (MAT@[26] as int) * (INV_MAT@[29] as int) + (MAT@[27] as int) * (INV_MAT@[41] as int) + (MAT@[28] as int) * (INV_MAT@[53] as int) + (MAT@[29] as int) * (INV_MAT@[65] as int) + (MAT@[30] as int) * (INV_MAT@[77] as int) + (MAT@[31] as int) * (INV_MAT@[89] as int) + (MAT@[32] as int) * (INV_MAT@[101] as int) + (MAT@[33] as int) * (INV_MAT@[113] as int) + (MAT@[34] as int) * (INV_MAT@[125] as int) + (MAT@[35] as int) * (INV_MAT@[137] as int));
    assert(((MAT@[24] as int) * (INV_MAT@[5] as int) + (MAT@[25] as int) * (INV_MAT@[17] as int) + (MAT@[26] as int) * (INV_MAT@[29] as int) + (MAT@[27] as int) * (INV_MAT@[41] as int) + (MAT@[28] as int) * (INV_MAT@[53] as int) + (MAT@[29] as int) * (INV_MAT@[65] as int) + (MAT@[30] as int) * (INV_MAT@[77] as int) + (MAT@[31] as int) * (INV_MAT@[89] as int) + (MAT@[32] as int) * (INV_MAT@[101] as int) + (MAT@[33] as int) * (INV_MAT@[113] as int) + (MAT@[34] as int) * (INV_MAT@[125] as int) + (MAT@[35] as int) * (INV_MAT@[137] as int)) % 340282366920938463463374557953744961537 == 0) by (nonlinear_arith)
        requires
            MAT@[24] == 2, MAT@[25] == 2, MAT@[26] == 6, MAT@[27] == 4, MAT@[28] == 1, MAT@[29] == 1, MAT@[30] == 3, MAT@[31] == 2, MAT@[32] == 1, MAT@[33] == 1, MAT@[34] == 3, MAT@[35] == 2, INV_MAT@[5] == 332990601915489782103445103140450426647, INV_MAT@[17] == 196877655147114396718095279958952442032, INV_MAT@[29] == 213891773493161319891264007856639690109, INV_MAT@[41] == 94792945070832857679082912572828953571, INV_MAT@[53] == 21875295016346044079788364439883604670, INV_MAT@[65] == 89931768400533736772463276030632596978, INV_MAT@[77] == 38889413362392967252957092337570852747, INV_MAT@[89] == 55903531708439890426125820235258100824, INV_MAT@[101] == 332990601915489782103445103140450426647, INV_MAT@[113] == 196877655147114396718095279958952442032, INV_MAT@[125] == 213891773493161319891264007856639690109, INV_MAT@[137] == 94792945070832857679082912572828953571,
    ;
    assert(product_entry(MAT@, INV_MAT@, 12, 2, 6) == (MAT@[24] as int) * (INV_MAT@[6] as int) + (MAT@[25] as int) * (INV_MAT@[18] as int) + (MAT@[26] as int) * (INV_MAT@[30] as int) + (MAT@[27] as int) * (INV_MAT@[42] as int) + (MAT@[28] as int) * (INV_MAT@[54] as int) + (MAT@[29] as int) * (INV_MAT@[66] as int) + (MAT@[30] as int) * (INV_MAT@[78] as int) + (MAT@[31] as int) * (INV_MAT@[90] as int) + (MAT@[32] as int) * (INV_MAT@[102] as int) + (MAT@[33] as int) * (INV_MAT@[114] as int) + (MAT@[34] as int) * (INV_MAT@[126] as int) + (MAT@[35] as int) * (INV_MAT@[138] as int));
    assert(((MAT@[24] as int) * (INV_MAT@[6] as int) + (MAT@[25] as int) * (INV_MAT@[18] as int) + (MAT@[26] as int) * (INV_MAT@[30] as int) + (MAT@[27] as int) * (INV_MAT@[42] as int) + (MAT@[28] as int) * (INV_MAT@[54] as int) + (MAT@[29] as int) * (INV_MAT@[66] as int) + (MAT@[30] as int) * (INV_MAT@[78] as int) + (MAT@[31] as int) * (INV_MAT@[90] as int) + (MAT@[32] as int) * (INV_MAT@[102] as int) + (MAT@[33] as int) * (INV_MAT@[114] as int) + (MAT@[34] as int) * (INV_MAT@[126] as int) + (MAT@[35] as int) * (INV_MAT@[138] as int)) % 340282366920938463463374557953744961537 == 0) by (nonlinear_arith)
        requires
            MAT@[24] == 2, MAT@[25] == 2, MAT@[26] == 6, MAT@[27] == 4, MAT@[28] == 1, MAT@[29] == 1, MAT@[30] == 3, MAT@[31] == 2, MAT@[32] == 1, MAT@[33] == 1, MAT@[34] == 3, MAT@[35] == 2, INV_MAT@[6] == 94792945070832857679082912572828953571, INV_MAT@[18] == 332990601915489782103445103140450426647, INV_MAT@[30] == 196877655147114396718095279958952442032, INV_MAT@[42] == 213891773493161319891264007856639690109, INV_MAT@[54] == 55903531708439890426125820235258100824, INV_MAT@[66] == 21875295016346044079788364439883604670, INV_MAT@[78] == 89931768400533736772463276030632596978, INV_MAT@[90] == 38889413362392967252957092337570852747, INV_MAT@[102] == 94792945070832857679082912572828953571, INV_MAT@[114] == 332990601915489782103445103140450426647, INV_MAT@[126] == 196877655147114396718095279958952442032, INV_MAT@[138] == 213891773493161319891264007856639690109,
    ;
    assert(product_entry(MAT@, INV_MAT@, 12, 2, 7) == (MAT@[24] as int) * (INV_MAT@[7] as int) + (MAT@[25] as int) * (INV_MAT@[19] as int) + (MAT@[26] as int) * (INV_MAT@[31] as int) + (MAT@[27] as int) * (INV_MAT@[43] as int) + (MAT@[28] as int) * (INV_MAT@[55] as int) + (MAT@[29] as int) * (INV_MAT@[67] as int) + (MAT@[30] as int) * (INV_MAT@[79] as int) + (MAT@[31] as int) * (INV_MAT@[91] as int) + (MAT@[32] as int) * (INV_MAT@[103] as int) + (MAT@[33] as int) * (INV_MAT@[115] as int) + (MAT@[34] as int) * (INV_MAT@[127] as int) + (MAT@[35] as int) * (INV_MAT@[139] as int));
    assert(((MAT@[24] as int) * (INV_MAT@[7] as int) + (MAT@[25] as int) * (INV_MAT@[19] as int) + (MAT@[26] as int) * (INV_MAT@[31] as int) + (MAT@[27] as int) * (INV_MAT@[43] as int) + (MAT@[28] as int) * (INV_MAT@[55] as int) + (MAT@[29] as int) * (INV_MAT@[67] as int) + (MAT@[30] as int) * (INV_MAT@[79] as int) + (MAT@[31] as int) * (INV_MAT@[91] as int) + (MAT@[32] as int) * (INV_MAT@[103] as int) + (MAT@[33] as int) * (INV_MAT@[115] as int) + (MAT@[34] as int) * (INV_MAT@[127] as int) + (MAT@[35] as int) * (INV_MAT@[139] as int)) % 340282366920938463463374557953744961537 == 0) by (nonlinear_arith)
        requires
            MAT@[24] == 2, MAT@[25] == 2, MAT@[26] == 6, MAT@[27] == 4, MAT@[28] == 1, MAT@[29] == 1, MAT@[30] == 3, MAT@[31] == 2, MAT@[32] == 1, MAT@[33] == 1, MAT@[34] == 3, MAT@[35] == 2, INV_MAT@[7] == 213891773493161319891264007856639690109, INV_MAT@[19] == 94792945070832857679082912572828953571, INV_MAT@[31] == 332990601915489782103445103140450426647, INV_MAT@[43] == 196877655147114396718095279958952442032, INV_MAT@[55] == 38889413362392967252957092337570852747, INV_MAT@[67] == 55903531708439890426125820235258100824, INV_MAT@[79] == 21875295016346044079788364439883604670, INV_MAT@[91] == 89931768400533736772463276030632596978, INV_MAT@[103] == 213891773493161319891264007856639690109, INV_MAT@[115] == 94792945070832857679082912572828953571, INV_MAT@[127] == 332990601915489782103445103140450426647, INV_MAT@[139] == 196877655147114396718095279958952442032,
    ;
    assert(product_entry(MAT@, INV_MAT@, 12, 2, 8) == (MAT@[24] as int) * (INV_MAT@[8] as int) + (MAT@[25] as int) * (INV_MAT@[20] as int) + (MAT@[26] as int) * (INV_MAT@[32] as int) + (MAT@[27] as int) * (INV_MAT@[44] as int) + (MAT@[28] as int) * (INV_MAT@[56] as int) + (MAT@[29] as int) * (INV_MAT@[68] as int) + (MAT@[30] as int) * (INV_MAT@[80] as int) + (MAT@[31] as int) * (INV_MAT@[92] as int) + (MAT@[32] as int) * (INV_MAT@[104] as int) + (MAT@[33] as int) * (INV_MAT@[116] as int) + (MAT@[34] as int) * (INV_MAT@[128] as int) + (MAT@[35] as int) * (INV_MAT@[140] as int));
    assert(((MAT@[24] as int) * (INV_MAT@[8] as int) + (MAT@[25] as int) * (INV_MAT@[20] as int) + (MAT@[26] as int) * (INV_MAT@[32] as int) + (MAT@[27] as int) * (INV_MAT@[44] as int) + (MAT@[28] as int) * (INV_MAT@[56] as int) + (MAT@[29] as int) * (INV_MAT@[68] as int) + (MAT@[30] as int) * (INV_MAT@[80] as int) + (MAT@[31] as int) * (INV_MAT@[92] as int) + (MAT@[32] as int) * (INV_MAT@[104] as int) + (MAT@[33] as int) * (INV_MAT@[116] as int) + (MAT@[34] as int) * (INV_MAT@[128] as int) + (MAT@[35] as int) * (INV_MAT@[140] as int)) % 340282366920938463463374557953744961537 == 0) by (nonlinear_arith)
        requires
            MAT@[24] == 2, MAT@[25] == 2, MAT@[26] == 6, MAT@[27] == 4, MAT@[28] == 1, MAT@[29] == 1, MAT@[30] == 3, MAT@[31] == 2, MAT@[32] == 1, MAT@[33] == 1, MAT@[34] == 3, MAT@[35] == 2, INV_MAT@[8] == 196877655147114396718095279958952442032, INV_MAT@[20] == 213891773493161319891264007856639690109, INV_MAT@[32] == 94792945070832857679082912572828953571, INV_MAT@[44] == 332990601915489782103445103140450426647, INV_MAT@[56] == 196877655147114396718095279958952442032, INV_MAT@[68] == 213891773493161319891264007856639690109, INV_MAT@[80] == 94792945070832857679082912572828953571, INV_MAT@[92] == 332990601915489782103445103140450426647, INV_MAT@[104] == 89931768400533736772463276030632596978, INV_MAT@[116] == 38889413362392967252957092337570852747, INV_MAT@[128] == 55903531708439890426125820235258100824, INV_MAT@[140] == 21875295016346044079788364439883604670,
    ;
    assert(product_entry(MAT@, INV_MAT@, 12, 2, 9) == (MAT@[24] as int) * (INV_MAT@[9] as int) + (MAT@[25] as int) * (INV_MAT@[21] as int) + (MAT@[26] as int) * (INV_MAT@[33] as int) + (MAT@[27] as int) * (INV_MAT@[45] as int) + (MAT@[28] as int) * (INV_MAT@[57] as int) + (MAT@[29] as int) * (INV_MAT@[69] as int) + (MAT@[30] as int) * (INV_MAT@[81] as int) + (MAT@[31] as int) * (INV_MAT@[93] as int) + (MAT@[32] as int) * (INV_MAT@[105] as int) + (MAT@[33] as int) * (INV_MAT@[117] as int) + (MAT@[34] as int) * (INV_MAT@[129] as int) + (MAT@[35] as int) * (INV_MAT@[141] as int));
    assert(((MAT@[24] as int) * (INV_MAT@[9] as int) + (MAT@[25] as int) * (INV_MAT@[21] as int) + (MAT@[26] as int) * (INV_MAT@[33] as int) + (MAT@[27] as int) * (INV_MAT@[45] as int) + (MAT@[28] as int) * (INV_MAT@[57] as int) + (MAT@[29] as int) * (INV_MAT@[69] as int) + (MAT@[30] as int) * (INV_MAT@[81] as int) + (MAT@[31] as int) * (INV_MAT@[93] as int) + (MAT@[32] as int) * (INV_MAT@[105] as int) + (MAT@[33] as int) * (INV_MAT@[117] as int) + (MAT@[34] as int) * (INV_MAT@[129] as int) + (MAT@[35] as int) * (INV_MAT@[141] as int)) % 340282366920938463463374557953744961537 == 0) by (nonlinear_arith)
        requires
            MAT@[24] == 2, MAT@[25] == 2, MAT@[26] == 6, MAT@[27] == 4, MAT@[28] == 1, MAT@[29] == 1, MAT@[30] == 3, MAT@[31] == 2, MAT@[32] == 1, MAT@[33] == 1, MAT@[34] == 3, MAT@[35] == 2, INV_MAT@[9] == 332990601915489782103445103140450426647, INV_MAT@[21] == 196877655147114396718095279958952442032, INV_MAT@[33] == 213891773493161319891264007856639690109, INV_MAT@[45] == 94792945070832857679082912572828953571, INV_MAT@[57] == 332990601915489782103445103140450426647, INV_MAT@[69] == 196877655147114396718095279958952442032, INV_MAT@[81] == 213891773493161319891264007856639690109, INV_MAT@[93] == 94792945070832857679082912572828953571, INV_MAT@[105] == 21875295016346044079788364439883604670, INV_MAT@[117] == 89931768400533736772463276030632596978, INV_MAT@[129] == 38889413362392967252957092337570852747, INV_MAT@[141] == 55903531708439890426125820235258100824,
    ;
    assert(product_entry(MAT@, INV_MAT@, 12, 2, 10) == (MAT@[24] as int) * (INV_MAT@[10] as int) + (MAT@[25] as int) * (INV_MAT@[22] as int) + (MAT@[26] as int) * (INV_MAT@[34] as int) + (MAT@[27] as int) * (INV_MAT@[46] as int) + (MAT@[28] as int) * (INV_MAT@[58] as int) + (MAT@[29] as int) * (INV_MAT@[70] as int) + (MAT@[30] as int) * (INV_MAT@[82] as int) + (MAT@[31] as int) * (INV_MAT@[94] as int) + (MAT@[32] as int) * (INV_MAT@[106] as int) + (MAT@[33] as int) * (INV_MAT@[118] as int) + (MAT@[34] as int) * (INV_MAT@[130] as int) + (MAT@[35] as int) * (INV_MAT@[142] as int));
    assert(((MAT@[24] as int) * (INV_MAT@[10] as int) + (MAT@[25] as int) * (INV_MAT@[22] as int) + (MAT@[26] as int) * (INV_MAT@[34] as int) + (MAT@[27] as int) * (INV_MAT@[46] as int) + (MAT@[28] as int) * (INV_MAT@[58] as int) + (MAT@[29] as int) * (INV_MAT@[70] as int) + (MAT@[30] as int) * (INV_MAT@[82] as int) + (MAT@[31] as int) * (INV_MAT@[94] as int) + (MAT@[32] as int) * (INV_MAT@[106] as int) + (MAT@[33] as int) * (INV_MAT@[118] as int) + (MAT@[34] as int) * (INV_MAT@[130] as int) + (MAT@[35] as int) * (INV_MAT@[142] as int)) % 340282366920938463463374557953744961537 == 0) by (nonlinear_arith)
        requires
            MAT@[24] == 2, MAT@[25] == 2, MAT@[26] == 6, MAT@[27] == 4, MAT@[28] == 1, MAT@[29] == 1, MAT@[30] == 3, MAT@[31] == 2, MAT@[32] == 1, MAT@[33] == 1, MAT@[34] == 3, MAT@[35] == 2, INV_MAT@[10] == 94792945070832857679082912572828953571, INV_MAT@[22] == 332990601915489782103445103140450426647, INV_MAT@[34] == 196877655147114396718095279958952442032, INV_MAT@[46] == 213891773493161319891264007856639690109, INV_MAT@[58] == 94792945070832857679082912572828953571, INV_MAT@[70] == 332990601915489782103445103140450426647, INV_MAT@[82] == 196877655147114396718095279958952442032, INV_MAT@[94] == 213891773493161319891264007856639690109, INV_MAT@[106] == 55903531708439890426125820235258100824, INV_MAT@[118] == 21875295016346044079788364439883604670, INV_MAT@[130] == 89931768400533736772463276030632596978, INV_MAT@[142] == 38889413362392967252957092337570852747,
    ;
    assert(product_entry(MAT@, INV_MAT@, 12, 2, 11) == (MAT@[24] as int) * (INV_MAT@[11] as int) + (MAT@[25] as int) * (INV_MAT@[23] as int) + (MAT@[26] as int) * (INV_MAT@[35] as int) + (MAT@[27] as int) * (INV_MAT@[47] as int) + (MAT@[28] as int) * (INV_MAT@[59] as int) + (MAT@[29] as int) * (INV_MAT@[71] as int) + (MAT@[30] as int) * (INV_MAT@[83] as int) + (MAT@[31] as int) * (INV_MAT@[95] as int) + (MAT@[32] as int) * (INV_MAT@[107] as int) + (MAT@[33] as int) * (INV_MAT@[119] as int) + (MAT@[34] as int) * (INV_MAT@[131] as int) + (MAT@[35] as int) * (INV_MAT@[143] as int));
    assert(((MAT@[24] as int) * (INV_MAT@[11] as int) + (MAT@[25] as int) * (INV_MAT@[23] as int) + (MAT@[26] as int) * (INV_MAT@[35] as int) + (MAT@[27] as int) * (INV_MAT@[47] as int) + (MAT@[28] as int) * (INV_MAT@[59] as int) + (MAT@[29] as int) * (INV_MAT@[71] as int) + (MAT@[30] as int) * (INV_MAT@[83] as int) + (MAT@[31] as int) * (INV_MAT@[95] as int) + (MAT@[32] as int) * (INV_MAT@[107] as int) + (MAT@[33] as int) * (INV_MAT@[119] as int) + (MAT@[34] as int) * (INV_MAT@[131] as int) + (MAT@[35] as int) * (INV_MAT@[143] as int)) % 340282366920938463463374557953744961537 == 0) by (nonlinear_arith)
        requires
            MAT@[24] == 2, MAT@[25] == 2, MAT@[26] == 6, MAT@[27] == 4, MAT@[28] == 1, MAT@[29] == 1, MAT@[30] == 3, MAT@[31] == 2, MAT@[32] == 1, MAT@[33] == 1, MAT@[34] == 3, MAT@[35] == 2, INV_MAT@[11] == 213891773493161319891264007856639690109, INV_MAT@[23] == 94792945070832857679082912572828953571, INV_MAT@[35] == 332990601915489782103445103140450426647, INV_MAT@[47] == 196877655147114396718095279958952442032, INV_MAT@[59] == 213891773493161319891264007856639690109, INV_MAT@[71] == 94792945070832857679082912572828953571, INV_MAT@[83] == 332990601915489782103445103140450426647, INV_MAT@[95] == 196877655147114396718095279958952442032, INV_MAT@[107] == 38889413362392967252957092337570852747, INV_MAT@[119] == 55903531708439890426125820235258100824, INV_MAT@[131] == 21875295016346044079788364439883604670, INV_MAT@[143] == 89931768400533736772463276030632596978,
    ;
}

proof fn lemma_product_forward_row_3()
    ensures
        identity_row(Elem::modulus(), MAT@, INV_MAT@, 12, 3, 12),
{
    reveal_with_fuel(sum, 13);
    reveal_with_fuel(identity_row, 13);
    assert(product_entry(MAT@, INV_MAT@, 12, 3, 0) == (MAT@[36] as int) * (INV_MAT@[0] as int) + (MAT@[37] as int) * (INV_MAT@[12] as int) + (MAT@[38] as int) * (INV_MAT@[24] as int) + (MAT@[39] as int) * (INV_MAT@[36] as int) + (MAT@[40] as int) * (INV_MAT@[48] as int) + (MAT@[41] as int) * (INV_MAT@[60] as int) + (MAT@[42] as int) * (INV_MAT@[72] as int) + (MAT@[43] as int) * (INV_MAT@[84] as int) + (MAT@[44] as int) * (INV_MAT@[96] as int) + (MAT@[45] as int) * (INV_MAT@[108] as int) + (MAT@[46] as int) * (INV_MAT@[120] as int) + (MAT@[47] as int) * (INV_MAT@[132] as int));
    assert(((MAT@[36] as int) * (INV_MAT@[0] as int) + (MAT@[37] as int) * (INV_MAT@[12] as int) + (MAT@[38] as int) * (INV_MAT@[24] as int) + (MAT@[39] as int) * (INV_MAT@[36] as int) + (MAT@[40] as int) * (INV_MAT@[48] as int) + (MAT@[41] as int) * (INV_MAT@[60] as int) + (MAT@[42] as int) * (INV_MAT@[72] as int) + (MAT@[43] as int) * (INV_MAT@[84] as int) + (MAT@[44] as int) * (INV_MAT@[96] as int) + (MAT@[45] as int) * (INV_MAT@[108] as int) + (MAT@[46] as int) * (INV_MAT@[120] as int) + (MAT@[47] as int) * (INV_MAT@[132] as int)) % 340282366920938463463374557953744961537 == 0) by (nonlinear_arith)
        requires
            MAT@[36] == 4, MAT@[37] == 2, MAT@[38] == 2, MAT@[39] == 6, MAT@[40] == 2, MAT@[41] == 1, MAT@[42] == 1, MAT@[43] == 3, MAT@[44] == 2, MAT@[45] == 1, MAT@[46] == 1, MAT@[47] == 3, INV_MAT@[0] == 89931768400533736772463276030632596978, INV_MAT@[12] == 38889413362392967252957092337570852747, INV_MAT@[24] == 55903531708439890426125820235258100824, INV_MAT@[36] == 21875295016346044079788364439883604670, INV_MAT@[48] == 196877655147114396718095279958952442032, INV_MAT@[60] == 213891773493161319891264007856639690109, INV_MAT@[72] == 94792945070832857679082912572828953571, INV_MAT@[84] == 332990601915489782103445103140450426647, INV_MAT@[96] == 196877655147114396718095279958952442032, INV_MAT@[108] == 213891773493161319891264007856639690109, INV_MAT@[120] == 94792945070832857679082912572828953571, INV_MAT@[132] == 332990601915489782103445103140450426647,
    ;
    assert(product_entry(MAT@, INV_MAT@, 12, 3, 1) == (MAT@[36] as int) * (INV_MAT@[1] as int) + (MAT@[37] as int) * (INV_MAT@[13] as int) + (MAT@[38] as int) * (INV_MAT@[25] as int) + (MAT@[39] as int) * (INV_MAT@[37] as int) + (MAT@[40] as int) * (INV_MAT@[49] as int) + (MAT@[41] as int) * (INV_MAT@[61] as int) + (MAT@[42] as int) * (INV_MAT@[73] as int) + (MAT@[43] as int) * (INV_MAT@[85] as int) + (MAT@[44] as int) * (INV_MAT@[97] as int) + (MAT@[45] as int) * (INV_MAT@[109] as int) + (MAT@[46] as int) * (INV_MAT@[121] as int) + (MAT@[47] as int) * (INV_MAT@[133] as int));
    assert(((MAT@[36] as int) * (INV_MAT@[1] as int) + (MAT@[37] as int) * (INV_MAT@[13] as int) + (MAT@[38] as int) * (INV_MAT@[25] as int) + (MAT@[39] as int) * (INV_MAT@[37] as int) + (MAT@[40] as int) * (INV_MAT@[49] as int) + (MAT@[41] as int) * (INV_MAT@[61] as int) + (MAT@[42] as int) * (INV_MAT@[73] as int) + (MAT@[43] as int) * (INV_MAT@[85] as int) + (MAT@[44] as int) * (INV_MAT@[97] as int) + (MAT@[45] as int) * (INV_MAT@[109] as int) + (MAT@[46] as int) * (INV_MAT@[121] as int) + (MAT@[47] as int) * (INV_MAT@[133] as int)) % 340282366920938463463374557953744961537 == 0) by (nonlinear_arith)
        requires
            MAT@[36] == 4, MAT@[37] == 2, MAT@[38] == 2, MAT@[39] == 6, MAT@[40] == 2, MAT@[41] == 1, MAT@[42] == 1, MAT@[43] == 3, MAT@[44] == 2, MAT@[45] == 1, MAT@[46] == 1, MAT@[47] == 3, INV_MAT@[1] == 21875295016346044079788364439883604670, INV_MAT@[13] == 89931768400533736772463276030632596978, INV_MAT@[25] == 38889413362392967252957092337570852747, INV_MAT@[37] == 55903531708439890426125820235258100824, INV_MAT@[49] == 332990601915489782103445103140450426647, INV_MAT@[61] == 196877655147114396718095279958952442032, INV_MAT@[73] == 213891773493161319891264007856639690109, INV_MAT@[85] == 94792945070832857679082912572828953571, INV_MAT@[97] == 332990601915489782103445103140450426647, INV_MAT@[109] == 196877655147114396718095279958952442032, INV_MAT@[121] == 213891773493161319891264007856639690109, INV_MAT@[133] == 94792945070832857679082912572828953571,
    ;
    assert(product_entry(MAT@, INV_MAT@, 12, 3, 2) == (MAT@[36] as int) * (INV_MAT@[2] as int) + (MAT@[37] as int) * (INV_MAT@[14] as int) + (MAT@[38] as int) * (INV_MAT@[26] as int) + (MAT@[39] as int) * (INV_MAT@[38] as int) + (MAT@[40] as int) * (INV_MAT@[50] as int) + (MAT@[41] as int) * (INV_MAT@[62] as int) + (MAT@[42] as int) * (INV_MAT@[74] as int) + (MAT@[43] as int) * (INV_MAT@[86] as int) + (MAT@[44] as int) * (INV_MAT@[98] as int) + (MAT@[45] as int) * (INV_MAT@[110] as int) + (MAT@[46] as int) * (INV_MAT@[122] as int) + (MAT@[47] as int) * (INV_MAT@[134] as int));
    assert(((MAT@[36] as int) * (INV_MAT@[2] as int) + (MAT@[37] as int) * (INV_MAT@[14] as int) + (MAT@[38] as int) * (INV_MAT@[26] as int) + (MAT@[39] as int) * (INV_MAT@[38] as int) + (MAT@[40] as int) * (INV_MAT@[50] as int) + (MAT@[41] as int) * (INV_MAT@[62] as int) + (MAT@[42] as int) * (INV_MAT@[74] as int) + (MAT@[43] as int) * (INV_MAT@[86] as int) + (MAT@[44] as int) * (INV_MAT@[98] as int) + (MAT@[45] as int) * (INV_MAT@[110] as int) + (MAT@[46] as int) * (INV_MAT@[122] as int) + (MAT@[47] as int) * (INV_MAT@[134] as int)) % 340282366920938463463374557953744961537 == 0) by (nonlinear_arith)
        requires
            MAT@[36] == 4, MAT@[37] == 2, MAT@[38] == 2, MAT@[39] == 6, MAT@[40] == 2, MAT@[41] == 1, MAT@[42] == 1, MAT@[43] == 3, MAT@[44] == 2, MAT@[45] == 1, MAT@[46] == 1, MAT@[47] == 3, INV_MAT@[2] == 55903531708439890426125820235258100824, INV_MAT@[14] == 21875295016346044079788364439883604670, INV_MAT@[26] == 89931768400533736772463276030632596978, INV_MAT@[38] == 38889413362392967252957092337570852747, INV_MAT@[50] == 94792945070832857679082912572828953571, INV_MAT@[62] == 332990601915489782103445103140450426647, INV_MAT@[74] == 196877655147114396718095279958952442032, INV_MAT@[86] == 213891773493161319891264007856639690109, INV_MAT@[98] == 94792945070832857679082912572828953571, INV_MAT@[110] == 332990601915489782103445103140450426647, INV_MAT@[122] == 196877655147114396718095279958952442032, INV_MAT@[134] == 213891773493161319891264007856639690109,
    ;
    assert(product_entry(MAT@, INV_MAT@, 12, 3, 3) == (MAT@[36] as int) * (INV_MAT@[3] as int) + (MAT@[37] as int) * (INV_MAT@[15] as int) + (MAT@[38] as int) * (INV_MAT@[27] as int) + (MAT@[39] as int) * (INV_MAT@[39] as int) + (MAT@[40] as int) * (INV_MAT@[51] as int) + (MAT@[41] as int) * (INV_MAT@[63] as int) + (MAT@[42] as int) * (INV_MAT@[75] as int) + (MAT@[43] as int) * (INV_MAT@[87] as int) + (MAT@[44] as int) * (INV_MAT@[99] as int) + (MAT@[45] as int) * (INV_MAT@[111] as int) + (MAT@[46] as int) * (INV_MAT@[123] as int) + (MAT@[47] as int) * (INV_MAT@[135] as int));
    assert(((MAT@[36] as int) * (INV_MAT@[3] as int) + (MAT@[37] as int) * (INV_MAT@[15] as int) + (MAT@[38] as int) * (INV_MAT@[27] as int) + (MAT@[39] as int) * (INV_MAT@[39] as int) + (MAT@[40] as int) * (INV_MAT@[51] as int) + (MAT@[41] as int) * (INV_MAT@[63] as int) + (MAT@[42] as int) * (INV_MAT@[75] as int) + (MAT@[43] as int) * (INV_MAT@[87] as int) + (MAT@[44] as int) * (INV_MAT@[99] as int) + (MAT@[45] as int) * (INV_MAT@[111] as int) + (MAT@[46] as int) * (INV_MAT@[123] as int) + (MAT@[47] as int) * (INV_MAT@[135] as int)) % 340282366920938463463374557953744961537 == 1) by (nonlinear_arith)
        requires
            MAT@[36] == 4, MAT@[37] == 2, MAT@[38] == 2, MAT@[39] == 6, MAT@[40] == 2, MAT@[41] == 1, MAT@[42] == 1, MAT@[43] == 3, MAT@[44] == 2, MAT@[45] == 1, MAT@[46] == 1, MAT@[47] == 3, INV_MAT@[3] == 38889413362392967252957092337570852747, INV_MAT@[15] == 55903531708439890426125820235258100824, INV_MAT@[27] == 21875295016346044079788364439883604670, INV_MAT@[39] == 89931768400533736772463276030632596978, INV_MAT@[51] == 213891773493161319891264007856639690109, INV_MAT@[63] == 94792945070832857679082912572828953571, INV_MAT@[75] == 332990601915489782103445103140450426647, INV_MAT@[87] == 196877655147114396718095279958952442032, INV_MAT@[99] == 213891773493161319891264007856639690109, INV_MAT@[111] == 94792945070832857679082912572828953571, INV_MAT@[123] == 332990601915489782103445103140450426647, INV_MAT@[135] == 196877655147114396718095279958952442032,
    ;
    assert(product_entry(MAT@, INV_MAT@, 12, 3, 4) == (MAT@[36] as int) * (INV_MAT@[4] as int) + (MAT@[37] as int) * (INV_MAT@[16] as int) + (MAT@[38] as int) * (INV_MAT@[28] as int) + (MAT@[39] as int) * (INV_MAT@[40] as int) + (MAT@[40] as int) * (INV_MAT@[52] as int) + (MAT@[41] as int) * (INV_MAT@[64] as int) + (MAT@[42] as int) * (INV_MAT@[76] as int) + (MAT@[43] as int) * (INV_MAT@[88] as int) + (MAT@[44] as int) * (INV_MAT@[100] as int) + (MAT@[45] as int) * (INV_MAT@[112] as int) + (MAT@[46] as int) * (INV_MAT@[124] as int) + (MAT@[47] as int) * (INV_MAT@[136] as int));
    assert(((MAT@[36] as int) * (INV_MAT@[4] as int) + (MAT@[37] as int) * (INV_MAT@[16] as int) + (MAT@[38] as int) * (INV_MAT@[28] as int) + (MAT@[39] as int) * (INV_MAT@[40] as int) + (MAT@[40] as int) * (INV_MAT@[52] as int) + (MAT@[41] as int) * (INV_MAT@[64] as int) + (MAT@[42] as int) * (INV_MAT@[76] as int) + (MAT@[43] as int) * (INV_MAT@[88] as int) + (MAT@[44] as int) * (INV_MAT@[100] as int) + (MAT@[45] as int) * (INV_MAT@[112] as int) + (MAT@[46] as int) * (INV_MAT@[124] as int) + (MAT@[47] as int) * (INV_MAT@[136] as int)) % 340282366920938463463374557953744961537 == 0) by (nonlinear_arith)
        requires
            MAT@[36] == 4, MAT@[37] == 2, MAT@[38] == 2, MAT@[39] == 6, MAT@[40] == 2, MAT@[41] == 1, MAT@[42] == 1, MAT@[43] == 3, MAT@[44] == 2, MAT@[45] == 1, MAT@[46] == 1, MAT@[47] == 3, INV_MAT@[4] == 196877655147114396718095279958952442032, INV_MAT@[16] == 213891773493161319891264007856639690109, INV_MAT@[28] == 94792945070832857679082912572828953571, INV_MAT@[40] == 332990601915489782103445103140450426647, INV_MAT@[52] == 89931768400533736772463276030632596978, INV_MAT@[64] == 38889413362392967252957092337570852747, INV_MAT@[76] == 55903531708439890426125820235258100824, INV_MAT@[88] == 21875295016346044079788364439883604670, INV_MAT@[100] == 196877655147114396718095279958952442032, INV_MAT@[112] == 213891773493161319891264007856639690109, INV_MAT@[124] == 94792945070832857679082912572828953571, INV_MAT@[136] == 332990601915489782103445103140450426647,
    ;
    assert(product_entry(MAT@, INV_MAT@, 12, 3, 5) == (MAT@[36] as int) * (INV_MAT@[5] as int) + (MAT@[37] as int) * (INV_MAT@[17] as int) + (MAT@[38] as int) * (INV_MAT@[29] as int) + (MAT@[39] as int) * (INV_MAT@[41] as int) + (MAT@[40] as int) * (INV_MAT@[53] as int) + (MAT@[41] as int) * (INV_MAT@[65] as int) + (MAT@[42] as int) * (INV_MAT@[77] as int) + (MAT@[43] as int) * (INV_MAT@[89] as int) + (MAT@[44] as int) * (INV_MAT@[101] as int) + (MAT@[45] as int) * (INV_MAT@[113] as int) + (MAT@[46] as int) * (INV_MAT@[125] as int) + (MAT@[47] as int) * (INV_MAT@[137] as int));
    assert(((MAT@[36] as int) * (INV_MAT@[5] as int) + (MAT@[37] as int) * (INV_MAT@[17] as int) + (MAT@[38] as int) * (INV_MAT@[29] as int) + (MAT@[39] as int) * (INV_MAT@[41] as int) + (MAT@[40] as int) * (INV_MAT@[53] as int) + (MAT@[41] as int) * (INV_MAT@[65] as int) + (MAT@[42] as int) * (INV_MAT@[77] as int) + (MAT@[43] as int) * (INV_MAT@[89] as int) + (MAT@[44] as int) * (INV_MAT@[101] as int) + (MAT@[45] as int) * (INV_MAT@[113] as int) + (MAT@[46] as int) * (INV_MAT@[125] as int) + (MAT@[47] as int) * (INV_MAT@[137] as int)) % 340282366920938463463374557953744961537 == 0) by (nonlinear_arith)
        requires
            MAT@[36] == 4, MAT@[37] == 2, MAT@[38] == 2, MAT@[39] == 6, MAT@[40] == 2, MAT@[41] == 1, MAT@[42] == 1, MAT@[43] == 3, MAT@[44] == 2, MAT@[45] == 1, MAT@[46] == 1, MAT@[47] == 3, INV_MAT@[5] == 332990601915489782103445103140450426647, INV_MAT@[17] == 196877655147114396718095279958952442032, INV_MAT@[29] == 213891773493161319891264007856639690109, INV_MAT@[41] == 94792945070832857679082912572828953571, INV_MAT@[53] == 21875295016346044079788364439883604670, INV_MAT@[65] == 89931768400533736772463276030632596978, INV_MAT@[77] == 38889413362392967252957092337570852747, INV_MAT@[89] == 55903531708439890426125820235258100824, INV_MAT@[101] == 332990601915489782103445103140450426647, INV_MAT@[113] == 196877655147114396718095279958952442032, INV_MAT@[125] == 213891773493161319891264007856639690109, INV_MAT@[137] == 94792945070832857679082912572828953571,
    ;
    assert(product_entry(MAT@, INV_MAT@, 12, 3, 6) == (MAT@[36] as int) * (INV_MAT@[6] as int) + (MAT@[37] as int) * (INV_MAT@[18] as int) + (MAT@[38] as int) * (INV_MAT@[30] as int) + (MAT@[39] as int) * (INV_MAT@[42] as int) + (MAT@[40] as int) * (INV_MAT@[54] as int) + (MAT@[41] as int) * (INV_MAT@[66] as int) + (MAT@[42] as int) * (INV_MAT@[78] as int) + (MAT@[43] as int) * (INV_MAT@[90] as int) + (MAT@[44] as int) * (INV_MAT@[102] as int) + (MAT@[45] as int) * (INV_MAT@[114] as int) + (MAT@[46] as int) * (INV_MAT@[126] as int) + (MAT@[47] as int) * (INV_MAT@[138] as int));
    assert(((MAT@[36] as int) * (INV_MAT@[6] as int) + (MAT@[37] as int) * (INV_MAT@[18] as int) + (MAT@[38] as int) * (INV_MAT@[30] as int) + (MAT@[39] as int) * (INV_MAT@[42] as int) + (MAT@[40] as int) * (INV_MAT@[54] as int) + (MAT@[41] as int) * (INV_MAT@[66] as int) + (MAT@[42] as int) * (INV_MAT@[78] as int) + (MAT@[43] as int) * (INV_MAT@[90] as int) + (MAT@[44] as int) * (INV_MAT@[102] as int) + (MAT@[45] as int) * (INV_MAT@[114] as int) + (MAT@[46] as int) * (INV_MAT@[126] as int) + (MAT@[47] as int) * (INV_MAT@[138] as int)) % 340282366920938463463374557953744961537 == 0) by (nonlinear_arith)
        requires
            MAT@[36] == 4, MAT@[37] == 2, MAT@[38] == 2, MAT@[39] == 6, MAT@[40] == 2, MAT@[41] == 1, MAT@[42] == 1, MAT@[43] == 3, MAT@[44] == 2, MAT@[45] == 1, MAT@[46] == 1, MAT@[47] == 3, INV_MAT@[6] == 94792945070832857679082912572828953571, INV_MAT@[18] == 332990601915489782103445103140450426647, INV_MAT@[30] == 196877655147114396718095279958952442032, INV_MAT@[42] == 213891773493161319891264007856639690109, INV_MAT@[54] == 55903531708439890426125820235258100824, INV_MAT@[66] == 21875295016346044079788364439883604670, INV_MAT@[78] == 89931768400533736772463276030632596978, INV_MAT@[90] == 38889413362392967252957092337570852747, INV_MAT@[102] == 94792945070832857679082912572828953571, INV_MAT@[114] == 332990601915489782103445103140450426647, INV_MAT@[126] == 196877655147114396718095279958952442032, INV_MAT@[138] == 213891773493161319891264007856639690109,
    ;
    assert(product_entry(MAT@, INV_MAT@, 12, 3, 7) == (MAT@[36] as int) * (INV_MAT@[7] as int) + (MAT@[37] as int) * (INV_MAT@[19] as int) + (MAT@[38] as int) * (INV_MAT@[31] as int) + (MAT@[39] as int) * (INV_MAT@[43] as int) + (MAT@[40] as int) * (INV_MAT@[55] as int) + (MAT@[41] as int) * (INV_MAT@[67] as int) + (MAT@[42] as int) * (INV_MAT@[79] as int) + (MAT@[43] as int) * (INV_MAT@[91] as int) + (MAT@[44] as int) * (INV_MAT@[103] as int) + (MAT@[45] as int) * (INV_MAT@[115] as int) + (MAT@[46] as int) * (INV_MAT@[127] as int) + (MAT@[47] as int) * (INV_MAT@[139] as int));
    assert(((MAT@[36] as int) * (INV_MAT@[7] as int) + (MAT@[37] as int) * (INV_MAT@[19] as int) + (MAT@[38] as int) * (INV_MAT@[31] as int) + (MAT@[39] as int) * (INV_MAT@[43] as int) + (MAT@[40] as int) * (INV_MAT@[55] as int) + (MAT@[41] as int) * (INV_MAT@[67] as int) + (MAT@[42] as int) * (INV_MAT@[79] as int) + (MAT@[43] as int) * (INV_MAT@[91] as int) + (MAT@[44] as int) * (INV_MAT@[103] as int) + (MAT@[45] as int) * (INV_MAT@[115] as int) + (MAT@[46] as int) * (INV_MAT@[127] as int) + (MAT@[47] as int) * (INV_MAT@[139] as int)) % 340282366920938463463374557953744961537 == 0) by (nonlinear_arith)
        requires
            MAT@[36] == 4, MAT@[37] == 2, MAT@[38] == 2, MAT@[39] == 6, MAT@[40] == 2, MAT@[41] == 1, MAT@[42] == 1, MAT@[43] == 3, MAT@[44] == 2, MAT@[45] == 1, MAT@[46] == 1, MAT@[47] == 3, INV_MAT@[7] == 213891773493161319891264007856639690109, INV_MAT@[19] == 94792945070832857679082912572828953571, INV_MAT@[31] == 332990601915489782103445103140450426647, INV_MAT@[43] == 196877655147114396718095279958952442032, INV_MAT@[55] == 38889413362392967252957092337570852747, INV_MAT@[67] == 55903531708439890426125820235258100824, INV_MAT@[79] == 21875295016346044079788364439883604670, INV_MAT@[91] == 89931768400533736772463276030632596978, INV_MAT@[103] == 213891773493161319891264007856639690109, INV_MAT@[115] == 94792945070832857679082912572828953571, INV_MAT@[127] == 332990601915489782103445103140450426647, INV_MAT@[139] == 196877655147114396718095279958952442032,
    ;
    assert(product_entry(MAT@, INV_MAT@, 12, 3, 8) == (MAT@[36] as int) * (INV_MAT@[8] as int) + (MAT@[37] as int) * (INV_MAT@[20] as int) + (MAT@[38] as int) * (INV_MAT@[32] as int) + (MAT@[39] as int) * (INV_MAT@[44] as int) + (MAT@[40] as int) * (INV_MAT@[56] as int) + (MAT@[41] as int) * (INV_MAT@[68] as int) + (MAT@[42] as int) * (INV_MAT@[80] as int) + (MAT@[43] as int) * (INV_MAT@[92] as int) + (MAT@[44] as int) * (INV_MAT@[104] as int) + (MAT@[45] as int) * (INV_MAT@[116] as int) + (MAT@[46] as int) * (INV_MAT@[128] as int) + (MAT@[47] as int) * (INV_MAT@[140] as int));
    assert(((MAT@[36] as int) * (INV_MAT@[8] as int) + (MAT@[37] as int) * (INV_MAT@[20] as int) + (MAT@[38] as int) * (INV_MAT@[32] as int) + (MAT@[39] as int) * (INV_MAT@[44] as int) + (MAT@[40] as int) * (INV_MAT@[56] as int) + (MAT@[41] as int) * (INV_MAT@[68] as int) + (MAT@[42] as int) * (INV_MAT@[80] as int) + (MAT@[43] as int) * (INV_MAT@[92] as int) + (MAT@[44] as int) * (INV_MAT@[104] as int) + (MAT@[45] as int) * (INV_MAT@[116] as int) + (MAT@[46] as int) * (INV_MAT@[128] as int) + (MAT@[47] as int) * (INV_MAT@[140] as int)) % 340282366920938463463374557953744961537 == 0) by (nonlinear_arith)
        requires
            MAT@[36] == 4, MAT@[37] == 2, MAT@[38] == 2, MAT@[39] == 6, MAT@[40] == 2, MAT@[41] == 1, MAT@[42] == 1, MAT@[43] == 3, MAT@[44] == 2, MAT@[45] == 1, MAT@[46] == 1, MAT@[47] == 3, INV_MAT@[8] == 196877655147114396718095279958952442032, INV_MAT@[20] == 213891773493161319891264007856639690109, INV_MAT@[32] == 94792945070832857679082912572828953571, INV_MAT@[44] == 332990601915489782103445103140450426647, INV_MAT@[56] == 196877655147114396718095279958952442032, INV_MAT@[68] == 213891773493161319891264007856639690109, INV_MAT@[80] == 94792945070832857679082912572828953571, INV_MAT@[92] == 332990601915489782103445103140450426647, INV_MAT@[104] == 89931768400533736772463276030632596978, INV_MAT@[116] == 38889413362392967252957092337570852747, INV_MAT@[128] == 55903531708439890426125820235258100824, INV_MAT@[140] == 21875295016346044079788364439883604670,
    ;
    assert(product_entry(MAT@, INV_MAT@, 12, 3, 9) == (MAT@[36] as int) * (INV_MAT@[9] as int) + (MAT@[37] as int) * (INV_MAT@[21] as int) + (MAT@[38] as int) * (INV_MAT@[33] as int) + (MAT@[39] as int) * (INV_MAT@[45] as int) + (MAT@[40] as int) * (INV_MAT@[57] as int) + (MAT@[41] as int) * (INV_MAT@[69] as int) + (MAT@[42] as int) * (INV_MAT@[81] as int) + (MAT@[43] as int) * (INV_MAT@[93] as int) + (MAT@[44] as int) * (INV_MAT@[105] as int) + (MAT@[45] as int) * (INV_MAT@[117] as int) + (MAT@[46] as int) * (INV_MAT@[129] as int) + (MAT@[47] as int) * (INV_MAT@[141] as int));
    assert(((MAT@[36] as int) * (INV_MAT@[9] as int) + (MAT@[37] as int) * (INV_MAT@[21] as int) + (MAT@[38] as int) * (INV_MAT@[33] as int) + (MAT@[39] as int) * (INV_MAT@[45] as int) + (MAT@[40] as int) * (INV_MAT@[57] as int) + (MAT@[41] as int) * (INV_MAT@[69] as int) + (MAT@[42] as int) * (INV_MAT@[81] as int) + (MAT@[43] as int) * (INV_MAT@[93] as int) + (MAT@[44] as int) * (INV_MAT@[105] as int) + (MAT@[45] as int) * (INV_MAT@[117] as int) + (MAT@[46] as int) * (INV_MAT@[129] as int) + (MAT@[47] as int) * (INV_MAT@[141] as int)) % 340282366920938463463374557953744961537 == 0) by (nonlinear_arith)
        requires
            MAT@[36] == 4, MAT@[37] == 2, MAT@[38] == 2, MAT@[39] == 6, MAT@[40] == 2, MAT@[41] == 1, MAT@[42] == 1, MAT@[43] == 3, MAT@[44] == 2, MAT@[45] == 1, MAT@[46] == 1, MAT@[47] == 3, INV_MAT@[9] == 332990601915489782103445103140450426647, INV_MAT@[21] == 196877655147114396718095279958952442032, INV_MAT@[33] == 213891773493161319891264007856639690109, INV_MAT@[45] == 94792945070832857679082912572828953571, INV_MAT@[57] == 332990601915489782103445103140450426647, INV_MAT@[69] == 196877655147114396718095279958952442032, INV_MAT@[81] == 213891773493161319891264007856639690109, INV_MAT@[93] == 94792945070832857679082912572828953571, INV_MAT@[105] == 21875295016346044079788364439883604670, INV_MAT@[117] == 89931768400533736772463276030632596978, INV_MAT@[129] == 38889413362392967252957092337570852747, INV_MAT@[141] == 55903531708439890426125820235258100824,
    ;
    assert(product_entry(MAT@, INV_MAT@, 12, 3, 10) == (MAT@[36] as int) * (INV_MAT@[10] as int) + (MAT@[37] as int) * (INV_MAT@[22] as int) + (MAT@[38] as int) * (INV_MAT@[34] as int) + (MAT@[39] as int) * (INV_MAT@[46] as int) + (MAT@[40] as int) * (INV_MAT@[58] as int) + (MAT@[41] as int) * (INV_MAT@[70] as int) + (MAT@[42] as int) * (INV_MAT@[82] as int) + (MAT@[43] as int) * (INV_MAT@[94] as int) + (MAT@[44] as int) * (INV_MAT@[106] as int) + (MAT@[45] as int) * (INV_MAT@[118] as int) + (MAT@[46] as int) * (INV_MAT@[130] as int) + (MAT@[47] as int) * (INV_MAT@[142] as int));
    assert(((MAT@[36] as int) * (INV_MAT@[10] as int) + (MAT@[37] as int) * (INV_MAT@[22] as int) + (MAT@[38] as int) * (INV_MAT@[34] as int) + (MAT@[39] as int) * (INV_MAT@[46] as int) + (MAT@[40] as int) * (INV_MAT@[58] as int) + (MAT@[41] as int) * (INV_MAT@[70] as int) + (MAT@[42] as int) * (INV_MAT@[82] as int) + (MAT@[43] as int) * (INV_MAT@[94] as int) + (MAT@[44] as int) * (INV_MAT@[106] as int) + (MAT@[45] as int) * (INV_MAT@[118] as int) + (MAT@[46] as int) * (INV_MAT@[130] as int) + (MAT@[47] as int) * (INV_MAT@[142] as int)) % 340282366920938463463374557953744961537 == 0) by (nonlinear_arith)
        requires
            MAT@[36] == 4, MAT@[37] == 2, MAT@[38] == 2, MAT@[39] == 6, MAT@[40] == 2, MAT@[41] == 1, MAT@[42] == 1, MAT@[43] == 3, MAT@[44] == 2, MAT@[45] == 1, MAT@[46] == 1, MAT@[47] == 3, INV_MAT@[10] == 94792945070832857679082912572828953571, INV_MAT@[22] == 332990601915489782103445103140450426647, INV_MAT@[34] == 196877655147114396718095279958952442032, INV_MAT@[46] == 213891773493161319891264007856639690109, INV_MAT@[58] == 94792945070832857679082912572828953571, INV_MAT@[70] == 332990601915489782103445103140450426647, INV_MAT@[82] == 196877655147114396718095279958952442032, INV_MAT@[94] == 213891773493161319891264007856639690109, INV_MAT@[106] == 55903531708439890426125820235258100824, INV_MAT@[118] == 21875295016346044079788364439883604670, INV_MAT@[130] == 89931768400533736772463276030632596978, INV_MAT@[142] == 38889413362392967252957092337570852747,
    ;
    assert(product_entry(MAT@, INV_MAT@, 12, 3, 11) == (MAT@[36] as int) * (INV_MAT@[11] as int) + (MAT@[37] as int) * (INV_MAT@[23] as int) + (MAT@[38] as int) * (INV_MAT@[35] as int) + (MAT@[39] as int) * (INV_MAT@[47] as int) + (MAT@[40] as int) * (INV_MAT@[59] as int) + (MAT@[41] as int) * (INV_MAT@[71] as int) + (MAT@[42] as int) * (INV_MAT@[83] as int) + (MAT@[43] as int) * (INV_MAT@[95] as int) + (MAT@[44] as int) * (INV_MAT@[107] as int) + (MAT@[45] as int) * (INV_MAT@[119] as int) + (MAT@[46] as int) * (INV_MAT@[131] as int) + (MAT@[47] as int) * (INV_MAT@[143] as int));
    assert(((MAT@[36] as int) * (INV_MAT@[11] as int) + (MAT@[37] as int) * (INV_MAT@[23] as int) + (MAT@[38] as int) * (INV_MAT@[35] as int) + (MAT@[39] as int) * (INV_MAT@[47] as int) + (MAT@[40] as int) * (INV_MAT@[59] as int) + (MAT@[41] as int) * (INV_MAT@[71] as int) + (MAT@[42] as int) * (INV_MAT@[83] as int) + (MAT@[43] as int) * (INV_MAT@[95] as int) + (MAT@[44] as int) * (INV_MAT@[107] as int) + (MAT@[45] as int) * (INV_MAT@[119] as int) + (MAT@[46] as int) * (INV_MAT@[131] as int) + (MAT@[47] as int) * (INV_MAT@[143] as int)) % 340282366920938463463374557953744961537 == 0) by (nonlinear_arith)
        requires
            MAT@[36] == 4, MAT@[37] == 2, MAT@[38] == 2, MAT@[39] == 6, MAT@[40] == 2, MAT@[41] == 1, MAT@[42] == 1, MAT@[43] == 3, MAT@[44] == 2, MAT@[45] == 1, MAT@[46] == 1, MAT@[47] == 3, INV_MAT@[11] == 213891773493161319891264007856639690109, INV_MAT@[23] == 94792945070832857679082912572828953571, INV_MAT@[35] == 332990601915489782103445103140450426647, INV_MAT@[47] == 196877655147114396718095279958952442032, INV_MAT@[59] == 213891773493161319891264007856639690109, INV_MAT@[71] == 94792945070832857679082912572828953571, INV_MAT@[83] == 332990601915489782103445103140450426647, INV_MAT@[95] == 196877655147114396718095279958952442032, INV_MAT@[107] == 38889413362392967252957092337570852747, INV_MAT@[119] == 55903531708439890426125820235258100824, INV_MAT@[131] == 21875295016346044079788364439883604670, INV_MAT@[143] == 89931768400533736772463276030632596978,
    ;
}

proof fn lemma_product_forward_row_4()
    ensures
        identity_row(Elem::modulus(), MAT@, INV_MAT@, 12, 4, 12),
{
    reveal_with_fuel(sum, 13);
    reveal_with_fuel(identity_row, 13);
    assert(product_entry(MAT@, INV_MAT@, 12, 4, 0) == (MAT@[48] as int) * (INV_MAT@[0] as int) + (MAT@[49] as int) * (INV_MAT@[12] as int) + (MAT@[50] as int) * (INV_MAT@[24] as int) + (MAT@[51] as int) * (INV_MAT@[36] as int) + (MAT@[52] as int) * (INV_MAT@[48] as int) + (MAT@[53] as int) * (INV_MAT@[60] as int) + (MAT@[54] as int) * (INV_MAT@[72] as int) + (MAT@[55] as int) * (INV_MAT@[84] as int) + (MAT@[56] as int) * (INV_MAT@[96] as int) + (MAT@[57] as int) * (INV_MAT@[108] as int) + (MAT@[58] as int) * (INV_MAT@[120] as int) + (MAT@[59] as int) * (INV_MAT@[132] as int));
    assert(((MAT@[48] as int) * (INV_MAT@[0] as int) + (MAT@[49] as int) * (INV_MAT@[12] as int) + (MAT@[50] as int) * (INV_MAT@[24] as int) + (MAT@[51] as int) * (INV_MAT@[36] as int) + (MAT@[52] as int) * (INV_MAT@[48] as int) + (MAT@[53] as int) * (INV_MAT@[60] as int) + (MAT@[54] as int) * (INV_MAT@[72] as int) + (MAT@[55] as int) * (INV_MAT@[84] as int) + (MAT@[56] as int) * (INV_MAT@[96] as int) + (MAT@[57] as int) * (INV_MAT@[108] as int) + (MAT@[58] as int) * (INV_MAT@[120] as int) + (MAT@[59] as int) * (INV_MAT@[132] as int)) % 340282366920938463463374557953744961537 == 0) by (nonlinear_arith)
        requires
            MAT@[48] == 3, MAT@[49] == 2, MAT@[50] == 1, MAT@[51] == 1, MAT@[52] == 6, MAT@[53] == 4, MAT@[54] == 2, MAT@[55] == 2, MAT@[56] == 3, MAT@[57] == 2, MAT@[58] == 1, MAT@[59] == 1, INV_MAT@[0] == 89931768400533736772463276030632596978, INV_MAT@[12] == 38889413362392967252957092337570852747, INV_MAT@[24] == 55903531708439890426125820235258100824, INV_MAT@[36] == 21875295016346044079788364439883604670, INV_MAT@[48] == 196877655147114396718095279958952442032, INV_MAT@[60] == 213891773493161319891264007856639690109, INV_MAT@[72] == 94792945070832857679082912572828953571, INV_MAT@[84] == 332990601915489782103445103140450426647, INV_MAT@[96] == 196877655147114396718095279958952442032, INV_MAT@[108] == 213891773493161319891264007856639690109, INV_MAT@[120] == 94792945070832857679082912572828953571, INV_MAT@[132] == 332990601915489782103445103140450426647,
    ;
    assert(product_entry(MAT@, INV_MAT@, 12, 4, 1) == (MAT@[48] as int) * (INV_MAT@[1] as int) + (MAT@[49] as int) * (INV_MAT@[13] as int) + (MAT@[50] as int) * (INV_MAT@[25] as int) + (MAT@[51] as int) * (INV_MAT@[37] as int) + (MAT@[52] as int) * (INV_MAT@[49] as int) + (MAT@[53] as int) * (INV_MAT@[61] as int) + (MAT@[54] as int) * (INV_MAT@[73] as int) + (MAT@[55] as int) * (INV_MAT@[85] as int) + (MAT@[56] as int) * (INV_MAT@[97] as int) + (MAT@[57] as int) * (INV_MAT@[109] as int) + (MAT@[58] as int) * (INV_MAT@[121] as int) + (MAT@[59] as int) * (INV_MAT@[133] as int));
    assert(((MAT@[48] as int) * (INV_MAT@[1] as int) + (MAT@[49] as int) * (INV_MAT@[13] as int) + (MAT@[50] as int) * (INV_MAT@[25] as int) + (MAT@[51] as int) * (INV_MAT@[37] as int) + (MAT@[52] as int) * (INV_MAT@[49] as int) + (MAT@[53] as int) * (INV_MAT@[61] as int) + (MAT@[54] as int) * (INV_MAT@[73] as int) + (MAT@[55] as int) * (INV_MAT@[85] as int) + (MAT@[56] as int) * (INV_MAT@[97] as int) + (MAT@[57] as int) * (INV_MAT@[109] as int) + (MAT@[58] as int) * (INV_MAT@[121] as int) + (MAT@[59] as int) * (INV_MAT@[133] as int)) % 340282366920938463463374557953744961537 == 0) by (nonlinear_arith)
        requires
            MAT@[48] == 3, MAT@[49] == 2, MAT@[50] == 1, MAT@[51] == 1, MAT@[52] == 6, MAT@[53] == 4, MAT@[54] == 2, MAT@[55] == 2, MAT@[56] == 3, MAT@[57] == 2, MAT@[58] == 1, MAT@[59] == 1, INV_MAT@[1] == 21875295016346044079788364439883604670, INV_MAT@[13] == 89931768400533736772463276030632596978, INV_MAT@[25] == 38889413362392967252957092337570852747, INV_MAT@[37] == 55903531708439890426125820235258100824, INV_MAT@[49] == 332990601915489782103445103140450426647, INV_MAT@[61] == 196877655147114396718095279958952442032, INV_MAT@[73] == 213891773493161319891264007856639690109, INV_MAT@[85] == 94792945070832857679082912572828953571, INV_MAT@[97] == 332990601915489782103445103140450426647, INV_MAT@[109] == 196877655147114396718095279958952442032, INV_MAT@[121] == 213891773493161319891264007856639690109, INV_MAT@[133] == 94792945070832857679082912572828953571,
    ;
    assert(product_entry(MAT@, INV_MAT@, 12, 4, 2) == (MAT@[48] as int) * (INV_MAT@[2] as int) + (MAT@[49] as int) * (INV_MAT@[14] as int) + (MAT@[50] as int) * (INV_MAT@[26] as int) + (MAT@[51] as int) * (INV_MAT@[38] as int) + (MAT@[52] as int) * (INV_MAT@[50] as int) + (MAT@[53] as int) * (INV_MAT@[62] as int) + (MAT@[54] as int) * (INV_MAT@[74] as int) + (MAT@[55] as int) * (INV_MAT@[86] as int) + (MAT@[56] as int) * (INV_MAT@[98] as int) + (MAT@[57] as int) * (INV_MAT@[110] as int) + (MAT@[58] as int) * (INV_MAT@[122] as int) + (MAT@[59] as int) * (INV_MAT@[134] as int));
    assert(((MAT@[48] as int) * (INV_MAT@[2] as int) + (MAT@[49] as int) * (INV_MAT@[14] as int) + (MAT@[50] as int) * (INV_MAT@[26] as int) + (MAT@[51] as int) * (INV_MAT@[38] as int) + (MAT@[52] as int) * (INV_MAT@[50] as int) + (MAT@[53] as int) * (INV_MAT@[62] as int) + (MAT@[54] as int) * (INV_MAT@[74] as int) + (MAT@[55] as int) * (INV_MAT@[86] as int) + (MAT@[56] as int) * (INV_MAT@[98] as int) + (MAT@[57] as int) * (INV_MAT@[110] as int) + (MAT@[58] as int) * (INV_MAT@[122] as int) + (MAT@[59] as int) * (INV_MAT@[134] as int)) % 340282366920938463463374557953744961537 == 0) by (nonlinear_arith)
        requires
            MAT@[48] == 3, MAT@[49] == 2, MAT@[50] == 1, MAT@[51] == 1, MAT@[52] == 6, MAT@[53] == 4, MAT@[54] == 2, MAT@[55] == 2, MAT@[56] == 3, MAT@[57] == 2, MAT@[58] == 1, MAT@[59] == 1, INV_MAT@[2] == 55903531708439890426125820235258100824, INV_MAT@[14] == 21875295016346044079788364439883604670, INV_MAT@[26] == 89931768400533736772463276030632596978, INV_MAT@[38] == 38889413362392967252957092337570852747, INV_MAT@[50] == 94792945070832857679082912572828953571, INV_MAT@[62] == 332990601915489782103445103140450426647, INV_MAT@[74] == 196877655147114396718095279958952442032, INV_MAT@[86] == 213891773493161319891264007856639690109, INV_MAT@[98] == 94792945070832857679082912572828953571, INV_MAT@[110] == 332990601915489782103445103140450426647, INV_MAT@[122] == 196877655147114396718095279958952442032, INV_MAT@[134] == 213891773493161319891264007856639690109,
    ;
    assert(product_entry(MAT@, INV_MAT@, 12, 4, 3) == (MAT@[48] as int) * (INV_MAT@[3] as int) + (MAT@[49] as int) * (INV_MAT@[15] as int) + (MAT@[50] as int) * (INV_MAT@[27] as int) + (MAT@[51] as int) * (INV_MAT@[39] as int) + (MAT@[52] as int) * (INV_MAT@[51] as int) + (MAT@[53] as int) * (INV_MAT@[63] as int) + (MAT@[54] as int) * (INV_MAT@[75] as int) + (MAT@[55] as int) * (INV_MAT@[87] as int) + (MAT@[56] as int) * (INV_MAT@[99] as int) + (MAT@[57] as int) * (INV_MAT@[111] as int) + (MAT@[58] as int) * (INV_MAT@[123] as int) + (MAT@[59] as int) * (INV_MAT@[135] as int));
    assert(((MAT@[48] as int) * (INV_MAT@[3] as int) + (MAT@[49] as int) * (INV_MAT@[15] as int) + (MAT@[50] as int) * (INV_MAT@[27] as int) + (MAT@[51] as int) * (INV_MAT@[39] as int) + (MAT@[52] as int) * (INV_MAT@[51] as int) + (MAT@[53] as int) * (INV_MAT@[63] as int) + (MAT@[54] as int) * (INV_MAT@[75] as int) + (MAT@[55] as int) * (INV_MAT@[87] as int) + (MAT@[56] as int) * (INV_MAT@[99] as int) + (MAT@[57] as int) * (INV_MAT@[111] as int) + (MAT@[58] as int) * (INV_MAT@[123] as int) + (MAT@[59] as int) * (INV_MAT@[135] as int)) % 340282366920938463463374557953744961537 == 0) by (nonlinear_arith)
        requires
            MAT@[48] == 3, MAT@[49] == 2, MAT@[50] == 1, MAT@[51] == 1, MAT@[52] == 6, MAT@[53] == 4, MAT@[54] == 2, MAT@[55] == 2, MAT@[56] == 3, MAT@[57] == 2, MAT@[58] == 1, MAT@[59] == 1, INV_MAT@[3] == 38889413362392967252957092337570852747, INV_MAT@[15] == 55903531708439890426125820235258100824, INV_MAT@[27] == 21875295016346044079788364439883604670, INV_MAT@[39] == 89931768400533736772463276030632596978, INV_MAT@[51] == 213891773493161319891264007856639690109, INV_MAT@[63] == 94792945070832857679082912572828953571, INV_MAT@[75] == 332990601915489782103445103140450426647, INV_MAT@[87] == 196877655147114396718095279958952442032, INV_MAT@[99] == 213891773493161319891264007856639690109, INV_MAT@[111] == 94792945070832857679082912572828953571, INV_MAT@[123] == 332990601915489782103445103140450426647, INV_MAT@[135] == 196877655147114396718095279958952442032,
    ;
    assert(product_entry(MAT@, INV_MAT@, 12, 4, 4) == (MAT@[48] as int) * (INV_MAT@[4] as int) + (MAT@[49] as int) * (INV_MAT@[16] as int) + (MAT@[50] as int) * (INV_MAT@[28] as int) + (MAT@[51] as int) * (INV_MAT@[40] as int) + (MAT@[52] as int) * (INV_MAT@[52] as int) + (MAT@[53] as int) * (INV_MAT@[64] as int) + (MAT@[54] as int) * (INV_MAT@[76] as int) + (MAT@[55] as int) * (INV_MAT@[88] as int) + (MAT@[56] as int) * (INV_MAT@[100] as int) + (MAT@[57] as int) * (INV_MAT@[112] as int) + (MAT@[58] as int) * (INV_MAT@[124] as int) + (MAT@[59] as int) * (INV_MAT@[136] as int));
    assert(((MAT@[48] as int) * (INV_MAT@[4] as int) + (MAT@[49] as int) * (INV_MAT@[16] as int) + (MAT@[50] as int) * (INV_MAT@[28] as int) + (MAT@[51] as int) * (INV_MAT@[40] as int) + (MAT@[52] as int) * (INV_MAT@[52] as int) + (MAT@[53] as int) * (INV_MAT@[64] as int) + (MAT@[54] as int) * (INV_MAT@[76] as int) + (MAT@[55] as int) * (INV_MAT@[88] as int) + (MAT@[56] as int) * (INV_MAT@[100] as int) + (MAT@[57] as int) * (INV_MAT@[112] as int) + (MAT@[58] as int) * (INV_MAT@[124] as int) + (MAT@[59] as int) * (INV_MAT@[136] as int)) % 340282366920938463463374557953744961537 == 1) by (nonlinear_arith)
        requires
            MAT@[48] == 3, MAT@[49] == 2, MAT@[50] == 1, MAT@[51] == 1, MAT@[52] == 6, MAT@[53] == 4, MAT@[54] == 2, MAT@[55] == 2, MAT@[56] == 3, MAT@[57] == 2, MAT@[58] == 1, MAT@[59] == 1, INV_MAT@[4] == 196877655147114396718095279958952442032, INV_MAT@[16] == 213891773493161319891264007856639690109, INV_MAT@[28] == 94792945070832857679082912572828953571, INV_MAT@[40] == 332990601915489782103445103140450426647, INV_MAT@[52] == 89931768400533736772463276030632596978, INV_MAT@[64] == 38889413362392967252957092337570852747, INV_MAT@[76] == 55903531708439890426125820235258100824, INV_MAT@[88] == 21875295016346044079788364439883604670, INV_MAT@[100] == 196877655147114396718095279958952442032, INV_MAT@[112] == 213891773493161319891264007856639690109, INV_MAT@[124] == 94792945070832857679082912572828953571, INV_MAT@[136] == 332990601915489782103445103140450426647,
    ;
    assert(product_entry(MAT@, INV_MAT@, 12, 4, 5) == (MAT@[48] as int) * (INV_MAT@[5] as int) + (MAT@[49] as int) * (INV_MAT@[17] as int) + (MAT@[50] as int) * (INV_MAT@[29] as int) + (MAT@[51] as int) * (INV_MAT@[41] as int) + (MAT@[52] as int) * (INV_MAT@[53] as int) + (MAT@[53] as int) * (INV_MAT@[65] as int) + (MAT@[54] as int) * (INV_MAT@[77] as int) + (MAT@[55] as int) * (INV_MAT@[89] as int) + (MAT@[56] as int) * (INV_MAT@[101] as int) + (MAT@[57] as int) * (INV_MAT@[113] as int) + (MAT@[58] as int) * (INV_MAT@[125] as int) + (MAT@[59] as int) * (INV_MAT@[137] as int));
    assert(((MAT@[48] as int) * (INV_MAT@[5] as int) + (MAT@[49] as int) * (INV_MAT@[17] as int) + (MAT@[50] as int) * (INV_MAT@[29] as int) + (MAT@[51] as int) * (INV_MAT@[41] as int) + (MAT@[52] as int) * (INV_MAT@[53] as int) + (MAT@[53] as int) * (INV_MAT@[65] as int) + (MAT@[54] as int) * (INV_MAT@[77] as int) + (MAT@[55] as int) * (INV_MAT@[89] as int) + (MAT@[56] as int) * (INV_MAT@[101] as int) + (MAT@[57] as int) * (INV_MAT@[113] as int) + (MAT@[58] as int) * (INV_MAT@[125] as int) + (MAT@[59] as int) * (INV_MAT@[137] as int)) % 340282366920938463463374557953744961537 == 0) by (nonlinear_arith)
        requires
            MAT@[48] == 3, MAT@[49] == 2, MAT@[50] == 1, MAT@[51] == 1, MAT@[52] == 6, MAT@[53] == 4, MAT@[54] == 2, MAT@[55] == 2, MAT@[56] == 3, MAT@[57] == 2, MAT@[58] == 1, MAT@[59] == 1, INV_MAT@[5] == 332990601915489782103445103140450426647, INV_MAT@[17] == 196877655147114396718095279958952442032, INV_MAT@[29] == 213891773493161319891264007856639690109, INV_MAT@[41] == 94792945070832857679082912572828953571, INV_MAT@[53] == 21875295016346044079788364439883604670, INV_MAT@[65] == 89931768400533736772463276030632596978, INV_MAT@[77] == 38889413362392967252957092337570852747, INV_MAT@[89] == 55903531708439890426125820235258100824, INV_MAT@[101] == 332990601915489782103445103140450426647, INV_MAT@[113] == 196877655147114396718095279958952442032, INV_MAT@[125] == 213891773493161319891264007856639690109, INV_MAT@[137] == 94792945070832857679082912572828953571,
    ;
    assert(product_entry(MAT@, INV_MAT@, 12, 4, 6) == (MAT@[48] as int) * (INV_MAT@[6] as int) + (MAT@[49] as int) * (INV_MAT@[18] as int) + (MAT@[50] as int) * (INV_MAT@[30] as int) + (MAT@[51] as int) * (INV_MAT@[42] as int) + (MAT@[52] as int) * (INV_MAT@[54] as int) + (MAT@[53] as int) * (INV_MAT@[66] as int) + (MAT@[54] as int) * (INV_MAT@[78] as int) + (MAT@[55] as int) * (INV_MAT@[90] as int) + (MAT@[56] as int) * (INV_MAT@[102] as int) + (MAT@[57] as int) * (INV_MAT@[114] as int) + (MAT@[58] as int) * (INV_MAT@[126] as int) + (MAT@[59] as int) * (INV_MAT@[138] as int));
    assert(((MAT@[48] as int) * (INV_MAT@[6] as int) + (MAT@[49] as int) * (INV_MAT@[18] as int) + (MAT@[50] as int) * (INV_MAT@[30] as int) + (MAT@[51] as int) * (INV_MAT@[42] as int) + (MAT@[52] as int) * (INV_MAT@[54] as int) + (MAT@[53] as int) * (INV_MAT@[66] as int) + (MAT@[54] as int) * (INV_MAT@[78] as int) + (MAT@[55] as int) * (INV_MAT@[90] as int) + (MAT@[56] as int) * (INV_MAT@[102] as int) + (MAT@[57] as int) * (INV_MAT@[114] as int) + (MAT@[58] as int) * (INV_MAT@[126] as int) + (MAT@[59] as int) * (INV_MAT@[138] as int)) % 340282366920938463463374557953744961537 == 0) by (nonlinear_arith)
        requires
            MAT@[48] == 3, MAT@[49] == 2, MAT@[50] == 1, MAT@[51] == 1, MAT@[52] == 6, MAT@[53] == 4, MAT@[54] == 2, MAT@[55] == 2, MAT@[56] == 3, MAT@[57] == 2, MAT@[58] == 1, MAT@[59] == 1, INV_MAT@[6] == 94792945070832857679082912572828953571, INV_MAT@[18] == 332990601915489782103445103140450426647, INV_MAT@[30] == 196877655147114396718095279958952442032, INV_MAT@[42] == 213891773493161319891264007856639690109, INV_MAT@[54] == 55903531708439890426125820235258100824, INV_MAT@[66] == 21875295016346044079788364439883604670, INV_MAT@[78] == 89931768400533736772463276030632596978, INV_MAT@[90] == 38889413362392967252957092337570852747, INV_MAT@[102] == 94792945070832857679082912572828953571, INV_MAT@[114] == 332990601915489782103445103140450426647, INV_MAT@[126] == 196877655147114396718095279958952442032, INV_MAT@[138] == 213891773493161319891264007856639690109,
    ;
    assert(product_entry(MAT@, INV_MAT@, 12, 4, 7) == (MAT@[48] as int) * (INV_MAT@[7] as int) + (MAT@[49] as int) * (INV_MAT@[19] as int) + (MAT@[50] as int) * (INV_MAT@[31] as int) + (MAT@[51] as int) * (INV_MAT@[43] as int) + (MAT@[52] as int) * (INV_MAT@[55] as int) + (MAT@[53] as int) * (INV_MAT@[67] as int) + (MAT@[54] as int) * (INV_MAT@[79] as int) + (MAT@[55] as int) * (INV_MAT@[91] as int) + (MAT@[56] as int) * (INV_MAT@[103] as int) + (MAT@[57] as int) * (INV_MAT@[115] as int) + (MAT@[58] as int) * (INV_MAT@[127] as int) + (MAT@[59] as int) * (INV_MAT@[139] as int));
    assert(((MAT@[48] as int) * (INV_MAT@[7] as int) + (MAT@[49] as int) * (INV_MAT@[19] as int) + (MAT@[50] as int) * (INV_MAT@[31] as int) + (MAT@[51] as int) * (INV_MAT@[43] as int) + (MAT@[52] as int) * (INV_MAT@[55] as int) + (MAT@[53] as int) * (INV_MAT@[67] as int) + (MAT@[54] as int) * (INV_MAT@[79] as int) + (MAT@[55] as int) * (INV_MAT@[91] as int) + (MAT@[56] as int) * (INV_MAT@[103] as int) + (MAT@[57] as int) * (INV_MAT@[115] as int) + (MAT@[58] as int) * (INV_MAT@[127] as int) + (MAT@[59] as int) * (INV_MAT@[139] as int)) % 340282366920938463463374557953744961537 == 0) by (nonlinear_arith)
        requires
            MAT@[48] == 3, MAT@[49] == 2, MAT@[50] == 1, MAT@[51] == 1, MAT@[52] == 6, MAT@[53] == 4, MAT@[54] == 2, MAT@[55] == 2, MAT@[56] == 3, MAT@[57] == 2, MAT@[58] == 1, MAT@[59] == 1, INV_MAT@[7] == 213891773493161319891264007856639690109, INV_MAT@[19] == 94792945070832857679082912572828953571, INV_MAT@[31] == 332990601915489782103445103140450426647, INV_MAT@[43] == 196877655147114396718095279958952442032, INV_MAT@[55] == 38889413362392967252957092337570852747, INV_MAT@[67] == 55903531708439890426125820235258100824, INV_MAT@[79] == 21875295016346044079788364439883604670, INV_MAT@[91] == 89931768400533736772463276030632596978, INV_MAT@[103] == 213891773493161319891264007856639690109, INV_MAT@[115] == 94792945070832857679082912572828953571, INV_MAT@[127] == 332990601915489782103445103140450426647, INV_MAT@[139] == 196877655147114396718095279958952442032,
    ;
    assert(product_entry(MAT@, INV_MAT@, 12, 4, 8) == (MAT@[48] as int) * (INV_MAT@[8] as int) + (MAT@[49] as int) * (INV_MAT@[20] as int) + (MAT@[50] as int) * (INV_MAT@[32] as int) + (MAT@[51] as int) * (INV_MAT@[44] as int) + (MAT@[52] as int) * (INV_MAT@[56] as int) + (MAT@[53] as int) * (INV_MAT@[68] as int) + (MAT@[54] as int) * (INV_MAT@[80] as int) + (MAT@[55] as int) * (INV_MAT@[92] as int) + (MAT@[56] as int) * (INV_MAT@[104] as int) + (MAT@[57] as int) * (INV_MAT@[116] as int) + (MAT@[58] as int) * (INV_MAT@[128] as int) + (MAT@[59] as int) * (INV_MAT@[140] as int));
    assert(((MAT@[48] as int) * (INV_MAT@[8] as int) + (MAT@[49] as int) * (INV_MAT@[20] as int) + (MAT@[50] as int) * (INV_MAT@[32] as int) + (MAT@[51] as int) * (INV_MAT@[44] as int) + (MAT@[52] as int) * (INV_MAT@[56] as int) + (MAT@[53] as int) * (INV_MAT@[68] as int) + (MAT@[54] as int) * (INV_MAT@[80] as int) + (MAT@[55] as int) * (INV_MAT@[92] as int) + (MAT@[56] as int) * (INV_MAT@[104] as int) + (MAT@[57] as int) * (INV_MAT@[116] as int) + (MAT@[58] as int) * (INV_MAT@[128] as int) + (MAT@[59] as int) * (INV_MAT@[140] as int)) % 340282366920938463463374557953744961537 == 0) by (nonlinear_arith)
        requires
            MAT@[48] == 3, MAT@[49] == 2, MAT@[50] == 1, MAT@[51] == 1, MAT@[52] == 6, MAT@[53] == 4, MAT@[54] == 2, MAT@[55] == 2, MAT@[56] == 3, MAT@[57] == 2, MAT@[58] == 1, MAT@[59] == 1, INV_MAT@[8] == 196877655147114396718095279958952442032, INV_MAT@[20] == 213891773493161319891264007856639690109, INV_MAT@[32] == 94792945070832857679082912572828953571, INV_MAT@[44] == 332990601915489782103445103140450426647, INV_MAT@[56] == 196877655147114396718095279958952442032, INV_MAT@[68] == 213891773493161319891264007856639690109, INV_MAT@[80] == 94792945070832857679082912572828953571, INV_MAT@[92] == 332990601915489782103445103140450426647, INV_MAT@[104] == 89931768400533736772463276030632596978, INV_MAT@[116] == 38889413362392967252957092337570852747, INV_MAT@[128] == 55903531708439890426125820235258100824, INV_MAT@[140] == 21875295016346044079788364439883604670,
    ;
    assert(product_entry(MAT@, INV_MAT@, 12, 4, 9) == (MAT@[48] as int) * (INV_MAT@[9] as int) + (MAT@[49] as int) * (INV_MAT@[21] as int) + (MAT@[50] as int) * (INV_MAT@[33] as int) + (MAT@[51] as int) * (INV_MAT@[45] as int) + (MAT@[52] as int) * (INV_MAT@[57] as int) + (MAT@[53] as int) * (INV_MAT@[69] as int) + (MAT@[54] as int) * (INV_MAT@[81] as int) + (MAT@[55] as int) * (INV_MAT@[93] as int) + (MAT@[56] as int) * (INV_MAT@[105] as int) + (MAT@[57] as int) * (INV_MAT@[117] as int) + (MAT@[58] as int) * (INV_MAT@[129] as int) + (MAT@[59] as int) * (INV_MAT@[141] as int));
    assert(((MAT@[48] as int) * (INV_MAT@[9] as int) + (MAT@[49] as int) * (INV_MAT@[21] as int) + (MAT@[50] as int) * (INV_MAT@[33] as int) + (MAT@[51] as int) * (INV_MAT@[45] as int) + (MAT@[52] as int) * (INV_MAT@[57] as int) + (MAT@[53] as int) * (INV_MAT@[69] as int) + (MAT@[54] as int) * (INV_MAT@[81] as int) + (MAT@[55] as int) * (INV_MAT@[93] as int) + (MAT@[56] as int) * (INV_MAT@[105] as int) + (MAT@[57] as int) * (INV_MAT@[117] as int) + (MAT@[58] as int) * (INV_MAT@[129] as int) + (MAT@[59] as int) * (INV_MAT@[141] as int)) % 340282366920938463463374557953744961537 == 0) by (nonlinear_arith)
        requires
            MAT@[48] == 3, MAT@[49] == 2, MAT@[50] == 1, MAT@[51] == 1, MAT@[52] == 6, MAT@[53] == 4, MAT@[54] == 2, MAT@[55] == 2, MAT@[56] == 3, MAT@[57] == 2, MAT@[58] == 1, MAT@[59] == 1, INV_MAT@[9] == 332990601915489782103445103140450426647, INV_MAT@[21] == 196877655147114396718095279958952442032, INV_MAT@[33] == 213891773493161319891264007856639690109, INV_MAT@[45] == 94792945070832857679082912572828953571, INV_MAT@[57] == 332990601915489782103445103140450426647, INV_MAT@[69] == 196877655147114396718095279958952442032, INV_MAT@[81] == 213891773493161319891264007856639690109, INV_MAT@[93] == 94792945070832857679082912572828953571, INV_MAT@[105] == 21875295016346044079788364439883604670, INV_MAT@[117] == 89931768400533736772463276030632596978, INV_MAT@[129] == 38889413362392967252957092337570852747, INV_MAT@[141] == 55903531708439890426125820235258100824,
    ;
    assert(product_entry(MAT@, INV_MAT@, 12, 4, 10) == (MAT@[48] as int) * (INV_MAT@[10] as int) + (MAT@[49] as int) * (INV_MAT@[22] as int) + (MAT@[50] as int) * (INV_MAT@[34] as int) + (MAT@[51] as int) * (INV_MAT@[46] as int) + (MAT@[52] as int) * (INV_MAT@[58] as int) + (MAT@[53] as int) * (INV_MAT@[70] as int) + (MAT@[54] as int) * (INV_MAT@[82] as int) + (MAT@[55] as int) * (INV_MAT@[94] as int) + (MAT@[56] as int) * (INV_MAT@[106] as int) + (MAT@[57] as int) * (INV_MAT@[118] as int) + (MAT@[58] as int) * (INV_MAT@[130] as int) + (MAT@[59] as int) * (INV_MAT@[142] as int));
    assert(((MAT@[48] as int) * (INV_MAT@[10] as int) + (MAT@[49] as int) * (INV_MAT@[22] as int) + (MAT@[50] as int) * (INV_MAT@[34] as int) + (MAT@[51] as int) * (INV_MAT@[46] as int) + (MAT@[52] as int) * (INV_MAT@[58] as int) + (MAT@[53] as int) * (INV_MAT@[70] as int) + (MAT@[54] as int) * (INV_MAT@[82] as int) + (MAT@[55] as int) * (INV_MAT@[94] as int) + (MAT@[56] as int) * (INV_MAT@[106] as int) + (MAT@[57] as int) * (INV_MAT@[118] as int) + (MAT@[58] as int) * (INV_MAT@[130] as int) + (MAT@[59] as int) * (INV_MAT@[142] as int)) % 340282366920938463463374557953744961537 == 0) by (nonlinear_arith)
        requires
            MAT@[48] == 3, MAT@[49] == 2, MAT@[50] == 1, MAT@[51] == 1, MAT@[52] == 6, MAT@[53] == 4, MAT@[54] == 2, MAT@[55] == 2, MAT@[56] == 3, MAT@[57] == 2, MAT@[58] == 1, MAT@[59] == 1, INV_MAT@[10] == 94792945070832857679082912572828953571, INV_MAT@[22] == 332990601915489782103445103140450426647, INV_MAT@[34] == 196877655147114396718095279958952442032, INV_MAT@[46] == 213891773493161319891264007856639690109, INV_MAT@[58] == 94792945070832857679082912572828953571, INV_MAT@[70] == 332990601915489782103445103140450426647, INV_MAT@[82] == 196877655147114396718095279958952442032, INV_MAT@[94] == 213891773493161319891264007856639690109, INV_MAT@[106] == 55903531708439890426125820235258100824, INV_MAT@[118] == 21875295016346044079788364439883604670, INV_MAT@[130] == 89931768400533736772463276030632596978, INV_MAT@[142] == 38889413362392967252957092337570852747,
    ;
    assert(product_entry(MAT@, INV_MAT@, 12, 4, 11) == (MAT@[48] as int) * (INV_MAT@[11] as int) + (MAT@[49] as int) * (INV_MAT@[23] as int) + (MAT@[50] as int) * (INV_MAT@[35] as int) + (MAT@[51] as int) * (INV_MAT@[47] as int) + (MAT@[52] as int) * (INV_MAT@[59] as int) + (MAT@[53] as int) * (INV_MAT@[71] as int) + (MAT@[54] as int) * (INV_MAT@[83] as int) + (MAT@[55] as int) * (INV_MAT@[95] as int) + (MAT@[56] as int) * (INV_MAT@[107] as int) + (MAT@[57] as int) * (INV_MAT@[119] as int) + (MAT@[58] as int) * (INV_MAT@[131] as int) + (MAT@[59] as int) * (INV_MAT@[143] as int));
    assert(((MAT@[48] as int) * (INV_MAT@[11] as int) + (MAT@[49] as int) * (INV_MAT@[23] as int) + (MAT@[50] as int) * (INV_MAT@[35] as int) + (MAT@[51] as int) * (INV_MAT@[47] as int) + (MAT@[52] as int) * (INV_MAT@[59] as int) + (MAT@[53] as int) * (INV_MAT@[71] as int) + (MAT@[54] as int) * (INV_MAT@[83] as int) + (MAT@[55] as int) * (INV_MAT@[95] as int) + (MAT@[56] as int) * (INV_MAT@[107] as int) + (MAT@[57] as int) * (INV_MAT@[119] as int) + (MAT@[58] as int) * (INV_MAT@[131] as int) + (MAT@[59] as int) * (INV_MAT@[143] as int)) % 340282366920938463463374557953744961537 == 0) by (nonlinear_arith)
        requires
            MAT@[48] == 3, MAT@[49] == 2, MAT@[50] == 1, MAT@[51] == 1, MAT@[52] == 6, MAT@[53] == 4, MAT@[54] == 2, MAT@[55] == 2, MAT@[56] == 3, MAT@[57] == 2, MAT@[58] == 1, MAT@[59] == 1, INV_MAT@[11] == 213891773493161319891264007856639690109, INV_MAT@[23] == 94792945070832857679082912572828953571, INV_MAT@[35] == 332990601915489782103445103140450426647, INV_MAT@[47] == 196877655147114396718095279958952442032, INV_MAT@[59] == 213891773493161319891264007856639690109, INV_MAT@[71] == 94792945070832857679082912572828953571, INV_MAT@[83] == 332990601915489782103445103140450426647, INV_MAT@[95] == 196877655147114396718095279958952442032, INV_MAT@[107] == 38889413362392967252957092337570852747, INV_MAT@[119] == 55903531708439890426125820235258100824, INV_MAT@[131] == 21875295016346044079788364439883604670, INV_MAT@[143] == 89931768400533736772463276030632596978,
    ;
}

proof fn lemma_product_forward_row_5()
    ensures
        identity_row(Elem::modulus(), MAT@, INV_MAT@, 12, 5, 12),
{
    reveal_with_fuel(sum, 13);
    reveal_with_fuel(identity_row, 13);
    assert(product_entry(MAT@, INV_MAT@, 12, 5, 0) == (MAT@[60] as int) * (INV_MAT@[0] as int) + (MAT@[61] as int) * (INV_MAT@[12] as int) + (MAT@[62] as int) * (INV_MAT@[24] as int) + (MAT@[63] as int) * (INV_MAT@[36] as int) + (MAT@[64] as int) * (INV_MAT@[48] as int) + (MAT@[65] as int) * (INV_MAT@[60] as int) + (MAT@[66] as int) * (INV_MAT@[72] as int) + (MAT@[67] as int) * (INV_MAT@[84] as int) + (MAT@[68] as int) * (INV_MAT@[96] as int) + (MAT@[69] as int) * (INV_MAT@[108] as int) + (MAT@[70] as int) * (INV_MAT@[120] as int) + (MAT@[71] as int) * (INV_MAT@[132] as int));
    assert(((MAT@[60] as int) * (INV_MAT@[0] as int) + (MAT@[61] as int) * (INV_MAT@[12] as int) + (MAT@[62] as int) * (INV_MAT@[24] as int) + (MAT@[63] as int) * (INV_MAT@[36] as int) + (MAT@[64] as int) * (INV_MAT@[48] as int) + (MAT@[65] as int) * (INV_MAT@[60] as int) + (MAT@[66] as int) * (INV_MAT@[72] as int) + (MAT@[67] as int) * (INV_MAT@[84] as int) + (MAT@[68] as int) * (INV_MAT@[96] as int) + (MAT@[69] as int) * (INV_MAT@[108] as int) + (MAT@[70] as int) * (INV_MAT@[120] as int) + (MAT@[71] as int) * (INV_MAT@[132] as int)) % 340282366920938463463374557953744961537 == 0) by (nonlinear_arith)
        requires
            MAT@[60] == 1, MAT@[61] == 3, MAT@[62] == 2, MAT@[63] == 1, MAT@[64] == 2, MAT@[65] == 6, MAT@[66] == 4, MAT@[67] == 2, MAT@[68] == 1, MAT@[69] == 3, MAT@[70] == 2, MAT@[71] == 1, INV_MAT@[0] == 89931768400533736772463276030632596978, INV_MAT@[12] == 38889413362392967252957092337570852747, INV_MAT@[24] == 55903531708439890426125820235258100824, INV_MAT@[36] == 21875295016346044079788364439883604670, INV_MAT@[48] == 196877655147114396718095279958952442032, INV_MAT@[60] == 213891773493161319891264007856639690109, INV_MAT@[72] == 94792945070832857679082912572828953571, INV_MAT@[84] == 332990601915489782103445103140450426647, INV_MAT@[96] == 196877655147114396718095279958952442032, INV_MAT@[108] == 213891773493161319891264007856639690109, INV_MAT@[120] == 94792945070832857679082912572828953571, INV_MAT@[132] == 332990601915489782103445103140450426647,
    ;
    assert(product_entry(MAT@, INV_MAT@, 12, 5, 1) == (MAT@[60] as int) * (INV_MAT@[1] as int) + (MAT@[61] as int) * (INV_MAT@[13] as int) + (MAT@[62] as int) * (INV_MAT@[25] as int) + (MAT@[63] as int) * (INV_MAT@[37] as int) + (MAT@[64] as int) * (INV_MAT@[49] as int) + (MAT@[65] as int) * (INV_MAT@[61] as int) + (MAT@[66] as int) * (INV_MAT@[73] as int) + (MAT@[67] as int) * (INV_MAT@[85] as int) + (MAT@[68] as int) * (INV_MAT@[97] as int) + (MAT@[69] as int) * (INV_MAT@[109] as int) + (MAT@[70] as int) * (INV_MAT@[121] as int) + (MAT@[71] as int) * (INV_MAT@[133] as int));
    assert(((MAT@[60] as int) * (INV_MAT@[1] as int) + (MAT@[61] as int) * (INV_MAT@[13] as int) + (MAT@[62] as int) * (INV_MAT@[25] as int) + (MAT@[63] as int) * (INV_MAT@[37] as int) + (MAT@[64] as int) * (INV_MAT@[49] as int) + (MAT@[65] as int) * (INV_MAT@[61] as int) + (MAT@[66] as int) * (INV_MAT@[73] as int) + (MAT@[67] as int) * (INV_MAT@[85] as int) + (MAT@[68] as int) * (INV_MAT@[97] as int) + (MAT@[69] as int) * (INV_MAT@[109] as int) + (MAT@[70] as int) * (INV_MAT@[121] as int) + (MAT@[71] as int) * (INV_MAT@[133] as int)) % 340282366920938463463374557953744961537 == 0) by (nonlinear_arith)
        requires
            MAT@[60] == 1, MAT@[61] == 3, MAT@[62] == 2, MAT@[63] == 1, MAT@[64] == 2, MAT@[65] == 6, MAT@[66] == 4, MAT@[67] == 2, MAT@[68] == 1, MAT@[69] == 3, MAT@[70] == 2, MAT@[71] == 1, INV_MAT@[1] == 21875295016346044079788364439883604670, INV_MAT@[13] == 89931768400533736772463276030632596978, INV_MAT@[25] == 38889413362392967252957092337570852747, INV_MAT@[37] == 55903531708439890426125820235258100824, INV_MAT@[49] == 332990601915489782103445103140450426647, INV_MAT@[61] == 196877655147114396718095279958952442032, INV_MAT@[73] == 213891773493161319891264007856639690109, INV_MAT@[85] == 94792945070832857679082912572828953571, INV_MAT@[97] == 332990601915489782103445103140450426647, INV_MAT@[109] == 196877655147114396718095279958952442032, INV_MAT@[121] == 213891773493161319891264007856639690109, INV_MAT@[133] == 94792945070832857679082912572828953571,
    ;
    assert(product_entry(MAT@, INV_MAT@, 12, 5, 2) == (MAT@[60] as int) * (INV_MAT@[2] as int) + (MAT@[61] as int) * (INV_MAT@[14] as int) + (MAT@[62] as int) * (INV_MAT@[26] as int) + (MAT@[63] as int) * (INV_MAT@[38] as int) + (MAT@[64] as int) * (INV_MAT@[50] as int) + (MAT@[65] as int) * (INV_MAT@[62] as int) + (MAT@[66] as int) * (INV_MAT@[74] as int) + (MAT@[67] as int) * (INV_MAT@[86] as int) + (MAT@[68] as int) * (INV_MAT@[98] as int) + (MAT@[69] as int) * (INV_MAT@[110] as int) + (MAT@[70] as int) * (INV_MAT@[122] as int) + (MAT@[71] as int) * (INV_MAT@[134] as int));
    assert(((MAT@[60] as int) * (INV_MAT@[2] as int) + (MAT@[61] as int) * (INV_MAT@[14] as int) + (MAT@[62] as int) * (INV_MAT@[26] as int) + (MAT@[63] as int) * (INV_MAT@[38] as int) + (MAT@[64] as int) * (INV_MAT@[50] as int) + (MAT@[65] as int) * (INV_MAT@[62] as int) + (MAT@[66] as int) * (INV_MAT@[74] as int) + (MAT@[67] as int) * (INV_MAT@[86] as int) + (MAT@[68] as int) * (INV_MAT@[98] as int) + (MAT@[69] as int) * (INV_MAT@[110] as int) + (MAT@[70] as int) * (INV_MAT@[122] as int) + (MAT@[71] as int) * (INV_MAT@[134] as int)) % 340282366920938463463374557953744961537 == 0) by (nonlinear_arith)
        requires
            MAT@[60] == 1, MAT@[61] == 3, MAT@[62] == 2, MAT@[63] == 1, MAT@[64] == 2, MAT@[65] == 6, MAT@[66] == 4, MAT@[67] == 2, MAT@[68] == 1, MAT@[69] == 3, MAT@[70] == 2, MAT@[71] == 1, INV_MAT@[2] == 55903531708439890426125820235258100824, INV_MAT@[14] == 21875295016346044079788364439883604670, INV_MAT@[26] == 89931768400533736772463276030632596978, INV_MAT@[38] == 38889413362392967252957092337570852747, INV_MAT@[50] == 94792945070832857679082912572828953571, INV_MAT@[62] == 332990601915489782103445103140450426647, INV_MAT@[74] == 196877655147114396718095279958952442032, INV_MAT@[86] == 213891773493161319891264007856639690109, INV_MAT@[98] == 94792945070832857679082912572828953571, INV_MAT@[110] == 332990601915489782103445103140450426647, INV_MAT@[122] == 196877655147114396718095279958952442032, INV_MAT@[134] == 213891773493161319891264007856639690109,
    ;
    assert(product_entry(MAT@, INV_MAT@, 12, 5, 3) == (MAT@[60] as int) * (INV_MAT@[3] as int) + (MAT@[61] as int) * (INV_MAT@[15] as int) + (MAT@[62] as int) * (INV_MAT@[27] as int) + (MAT@[63] as int) * (INV_MAT@[39] as int) + (MAT@[64] as int) * (INV_MAT@[51] as int) + (MAT@[65] as int) * (INV_MAT@[63] as int) + (MAT@[66] as int) * (INV_MAT@[75] as int) + (MAT@[67] as int) * (INV_MAT@[87] as int) + (MAT@[68] as int) * (INV_MAT@[99] as int) + (MAT@[69] as int) * (INV_MAT@[111] as int) + (MAT@[70] as int) * (INV_MAT@[123] as int) + (MAT@[71] as int) * (INV_MAT@[135] as int));
    assert(((MAT@[60] as int) * (INV_MAT@[3] as int) + (MAT@[61] as int) * (INV_MAT@[15] as int) + (MAT@[62] as int) * (INV_MAT@[27] as int) + (MAT@[63] as int) * (INV_MAT@[39] as int) + (MAT@[64] as int) * (INV_MAT@[51] as int) + (MAT@[65] as int) * (INV_MAT@[63] as int) + (MAT@[66] as int) * (INV_MAT@[75] as int) + (MAT@[67] as int) * (INV_MAT@[87] as int) + (MAT@[68] as int) * (INV_MAT@[99] as int) + (MAT@[69] as int) * (INV_MAT@[111] as int) + (MAT@[70] as int) * (INV_MAT@[123] as int) + (MAT@[71] as int) * (INV_MAT@[135] as int)) % 340282366920938463463374557953744961537 == 0) by (nonlinear_arith)
        requires
            MAT@[60] == 1, MAT@[61] == 3, MAT@[62] == 2, MAT@[63] == 1, MAT@[64] == 2, MAT@[65] == 6, MAT@[66] == 4, MAT@[67] == 2, MAT@[68] == 1, MAT@[69] == 3, MAT@[70] == 2, MAT@[71] == 1, INV_MAT@[3] == 38889413362392967252957092337570852747, INV_MAT@[15] == 55903531708439890426125820235258100824, INV_MAT@[27] == 21875295016346044079788364439883604670, INV_MAT@[39] == 89931768400533736772463276030632596978, INV_MAT@[51] == 213891773493161319891264007856639690109, INV_MAT@[63] == 94792945070832857679082912572828953571, INV_MAT@[75] == 332990601915489782103445103140450426647, INV_MAT@[87] == 196877655147114396718095279958952442032, INV_MAT@[99] == 213891773493161319891264007856639690109, INV_MAT@[111] == 94792945070832857679082912572828953571, INV_MAT@[123] == 332990601915489782103445103140450426647, INV_MAT@[135] == 196877655147114396718095279958952442032,
    ;
    assert(product_entry(MAT@, INV_MAT@, 12, 5, 4) == (MAT@[60] as int) * (INV_MAT@[4] as int) + (MAT@[61] as int) * (INV_MAT@[16] as int) + (MAT@[62] as int) * (INV_MAT@[28] as int) + (MAT@[63] as int) * (INV_MAT@[40] as int) + (MAT@[64] as int) * (INV_MAT@[52] as int) + (MAT@[65] as int) * (INV_MAT@[64] as int) + (MAT@[66] as int) * (INV_MAT@[76] as int) + (MAT@[67] as int) * (INV_MAT@[88] as int) + (MAT@[68] as int) * (INV_MAT@[100] as int) + (MAT@[69] as int) * (INV_MAT@[112] as int) + (MAT@[70] as int) * (INV_MAT@[124] as int) + (MAT@[71] as int) * (INV_MAT@[136] as int));
    assert(((MAT@[60] as int) * (INV_MAT@[4] as int) + (MAT@[61] as int) * (INV_MAT@[16] as int) + (MAT@[62] as int) * (INV_MAT@[28] as int) + (MAT@[63] as int) * (INV_MAT@[40] as int) + (MAT@[64] as int) * (INV_MAT@[52] as int) + (MAT@[65] as int) * (INV_MAT@[64] as int) + (MAT@[66] as int) * (INV_MAT@[76] as int) + (MAT@[67] as int) * (INV_MAT@[88] as int) + (MAT@[68] as int) * (INV_MAT@[100] as int) + (MAT@[69] as int) * (INV_MAT@[112] as int) + (MAT@[70] as int) * (INV_MAT@[124] as int) + (MAT@[71] as int) * (INV_MAT@[136] as int)) % 340282366920938463463374557953744961537 == 0) by (nonlinear_arith)
        requires
            MAT@[60] == 1, MAT@[61] == 3, MAT@[62] == 2, MAT@[63] == 1, MAT@[64] == 2, MAT@[65] == 6, MAT@[66] == 4, MAT@[67] == 2, MAT@[68] == 1, MAT@[69] == 3, MAT@[70] == 2, MAT@[71] == 1, INV_MAT@[4] == 196877655147114396718095279958952442032, INV_MAT@[16] == 213891773493161319891264007856639690109, INV_MAT@[28] == 94792945070832857679082912572828953571, INV_MAT@[40] == 332990601915489782103445103140450426647, INV_MAT@[52] == 89931768400533736772463276030632596978, INV_MAT@[64] == 38889413362392967252957092337570852747, INV_MAT@[76] == 55903531708439890426125820235258100824, INV_MAT@[88] == 21875295016346044079788364439883604670, INV_MAT@[100] == 196877655147114396718095279958952442032, INV_MAT@[112] == 213891773493161319891264007856639690109, INV_MAT@[124] == 94792945070832857679082912572828953571, INV_MAT@[136] == 332990601915489782103445103140450426647,
    ;
    assert(product_entry(MAT@, INV_MAT@, 12, 5, 5) == (MAT@[60] as int) * (INV_MAT@[5] as int) + (MAT@[61] as int) * (INV_MAT@[17] as int) + (MAT@[62] as int) * (INV_MAT@[29] as int) + (MAT@[63] as int) * (INV_MAT@[41] as int) + (MAT@[64] as int) * (INV_MAT@[53] as int) + (MAT@[65] as int) * (INV_MAT@[65] as int) + (MAT@[66] as int) * (INV_MAT@[77] as int) + (MAT@[67] as int) * (INV_MAT@[89] as int) + (MAT@[68] as int) * (INV_MAT@[101] as int) + (MAT@[69] as int) * (INV_MAT@[113] as int) + (MAT@[70] as int) * (INV_MAT@[125] as int) + (MAT@[71] as int) * (INV_MAT@[137] as int));
    assert(((MAT@[60] as int) * (INV_MAT@[5] as int) + (MAT@[61] as int) * (INV_MAT@[17] as int) + (MAT@[62] as int) * (INV_MAT@[29] as int) + (MAT@[63] as int) * (INV_MAT@[41] as int) + (MAT@[64] as int) * (INV_MAT@[53] as int) + (MAT@[65] as int) * (INV_MAT@[65] as int) + (MAT@[66] as int) * (INV_MAT@[77] as int) + (MAT@[67] as int) * (INV_MAT@[89] as int) + (MAT@[68] as int) * (INV_MAT@[101] as int) + (MAT@[69] as int) * (INV_MAT@[113] as int) + (MAT@[70] as int) * (INV_MAT@[125] as int) + (MAT@[71] as int) * (INV_MAT@[137] as int)) % 340282366920938463463374557953744961537 == 1) by (nonlinear_arith)
        requires
            MAT@[60] == 1, MAT@[61] == 3, MAT@[62] == 2, MAT@[63] == 1, MAT@[64] == 2, MAT@[65] == 6, MAT@[66] == 4, MAT@[67] == 2, MAT@[68] == 1, MAT@[69] == 3, MAT@[70] == 2, MAT@[71] == 1, INV_MAT@[5] == 332990601915489782103445103140450426647, INV_MAT@[17] == 196877655147114396718095279958952442032, INV_MAT@[29] == 213891773493161319891264007856639690109, INV_MAT@[41] == 94792945070832857679082912572828953571, INV_MAT@[53] == 21875295016346044079788364439883604670, INV_MAT@[65] == 89931768400533736772463276030632596978, INV_MAT@[77] == 38889413362392967252957092337570852747, INV_MAT@[89] == 55903531708439890426125820235258100824, INV_MAT@[101] == 332990601915489782103445103140450426647, INV_MAT@[113] == 196877655147114396718095279958952442032, INV_MAT@[125] == 213891773493161319891264007856639690109, INV_MAT@[137] == 94792945070832857679082912572828953571,
    ;
    assert(product_entry(MAT@, INV_MAT@, 12, 5, 6) == (MAT@[60] as int) * (INV_MAT@[6] as int) + (MAT@[61] as int) * (INV_MAT@[18] as int) + (MAT@[62] as int) * (INV_MAT@[30] as int) + (MAT@[63] as int) * (INV_MAT@[42] as int) + (MAT@[64] as int) * (INV_MAT@[54] as int) + (MAT@[65] as int) * (INV_MAT@[66] as int) + (MAT@[66] as int) * (INV_MAT@[78] as int) + (MAT@[67] as int) * (INV_MAT@[90] as int) + (MAT@[68] as int) * (INV_MAT@[102] as int) + (MAT@[69] as int) * (INV_MAT@[114] as int) + (MAT@[70] as int) * (INV_MAT@[126] as int) + (MAT@[71] as int) * (INV_MAT@[138] as int));
    assert(((MAT@[60] as int) * (INV_MAT@[6] as int) + (MAT@[61] as int) * (INV_MAT@[18] as int) + (MAT@[62] as int) * (INV_MAT@[30] as int) + (MAT@[63] as int) * (INV_MAT@[42] as int) + (MAT@[64] as int) * (INV_MAT@[54] as int) + (MAT@[65] as int) * (INV_MAT@[66] as int) + (MAT@[66] as int) * (INV_MAT@[78] as int) + (MAT@[67] as int) * (INV_MAT@[90] as int) + (MAT@[68] as int) * (INV_MAT@[102] as int) + (MAT@[69] as int) * (INV_MAT@[114] as int) + (MAT@[70] as int) * (INV_MAT@[126] as int) + (MAT@[71] as int) * (INV_MAT@[138] as int)) % 340282366920938463463374557953744961537 == 0) by (nonlinear_arith)
        requires
            MAT@[60] == 1, MAT@[61] == 3, MAT@[62] == 2, MAT@[63] == 1, MAT@[64] == 2, MAT@[65] == 6, MAT@[66] == 4, MAT@[67] == 2, MAT@[68] == 1, MAT@[69] == 3, MAT@[70] == 2, MAT@[71] == 1, INV_MAT@[6] == 94792945070832857679082912572828953571, INV_MAT@[18] == 332990601915489782103445103140450426647, INV_MAT@[30] == 196877655147114396718095279958952442032, INV_MAT@[42] == 213891773493161319891264007856639690109, INV_MAT@[54] == 55903531708439890426125820235258100824, INV_MAT@[66] == 21875295016346044079788364439883604670, INV_MAT@[78] == 89931768400533736772463276030632596978, INV_MAT@[90] == 38889413362392967252957092337570852747, INV_MAT@[102] == 94792945070832857679082912572828953571, INV_MAT@[114] == 332990601915489782103445103140450426647, INV_MAT@[126] == 196877655147114396718095279958952442032, INV_MAT@[138] == 213891773493161319891264007856639690109,
    ;
    assert(product_entry(MAT@, INV_MAT@, 12, 5, 7) == (MAT@[60] as int) * (INV_MAT@[7] as int) + (MAT@[61] as int) * (INV_MAT@[19] as int) + (MAT@[62] as int) * (INV_MAT@[31] as int) + (MAT@[63] as int) * (INV_MAT@[43] as int) + (MAT@[64] as int) * (INV_MAT@[55] as int) + (MAT@[65] as int) * (INV_MAT@[67] as int) + (MAT@[66] as int) * (INV_MAT@[79] as int) + (MAT@[67] as int) * (INV_MAT@[91] as int) + (MAT@[68] as int) * (INV_MAT@[103] as int) + (MAT@[69] as int) * (INV_MAT@[115] as int) + (MAT@[70] as int) * (INV_MAT@[127] as int) + (MAT@[71] as int) * (INV_MAT@[139] as int));
    assert(((MAT@[60] as int) * (INV_MAT@[7] as int) + (MAT@[61] as int) * (INV_MAT@[19] as int) + (MAT@[62] as int) * (INV_MAT@[31] as int) + (MAT@[63] as int) * (INV_MAT@[43] as int) + (MAT@[64] as int) * (INV_MAT@[55] as int) + (MAT@[65] as int) * (INV_MAT@[67] as int) + (MAT@[66] as int) * (INV_MAT@[79] as int) + (MAT@[67] as int) * (INV_MAT@[91] as int) + (MAT@[68] as int) * (INV_MAT@[103] as int) + (MAT@[69] as int) * (INV_MAT@[115] as int) + (MAT@[70] as int) * (INV_MAT@[127] as int) + (MAT@[71] as int) * (INV_MAT@[139] as int)) % 340282366920938463463374557953744961537 == 0) by (nonlinear_arith)
        requires
            MAT@[60] == 1, MAT@[61] == 3, MAT@[62] == 2, MAT@[63] == 1, MAT@[64] == 2, MAT@[65] == 6, MAT@[66] == 4, MAT@[67] == 2, MAT@[68] == 1, MAT@[69] == 3, MAT@[70] == 2, MAT@[71] == 1, INV_MAT@[7] == 213891773493161319891264007856639690109, INV_MAT@[19] == 94792945070832857679082912572828953571, INV_MAT@[31] == 332990601915489782103445103140450426647, INV_MAT@[43] == 196877655147114396718095279958952442032, INV_MAT@[55] == 38889413362392967252957092337570852747, INV_MAT@[67] == 55903531708439890426125820235258100824, INV_MAT@[79] == 21875295016346044079788364439883604670, INV_MAT@[91] == 89931768400533736772463276030632596978, INV_MAT@[103] == 213891773493161319891264007856639690109, INV_MAT@[115] == 94792945070832857679082912572828953571, INV_MAT@[127] == 332990601915489782103445103140450426647, INV_MAT@[139] == 196877655147114396718095279958952442032,
    ;
    assert(product_entry(MAT@, INV_MAT@, 12, 5, 8) == (MAT@[60] as int) * (INV_MAT@[8] as int) + (MAT@[61] as int) * (INV_MAT@[20] as int) + (MAT@[62] as int) * (INV_MAT@[32] as int) + (MAT@[63] as int) * (INV_MAT@[44] as int) + (MAT@[64] as int) * (INV_MAT@[56] as int) + (MAT@[65] as int) * (INV_MAT@[68] as int) + (MAT@[66] as int) * (INV_MAT@[80] as int) + (MAT@[67] as int) * (INV_MAT@[92] as int) + (MAT@[68] as int) * (INV_MAT@[104] as int) + (MAT@[69] as int) * (INV_MAT@[116] as int) + (MAT@[70] as int) * (INV_MAT@[128] as int) + (MAT@[71] as int) * (INV_MAT@[140] as int));
    assert(((MAT@[60] as int) * (INV_MAT@[8] as int) + (MAT@[61] as int) * (INV_MAT@[20] as int) + (MAT@[62] as int) * (INV_MAT@[32] as int) + (MAT@[63] as int) * (INV_MAT@[44] as int) + (MAT@[64] as int) * (INV_MAT@[56] as int) + (MAT@[65] as int) * (INV_MAT@[68] as int) + (MAT@[66] as int) * (INV_MAT@[80] as int) + (MAT@[67] as int) * (INV_MAT@[92] as int) + (MAT@[68] as int) * (INV_MAT@[104] as int) + (MAT@[69] as int) * (INV_MAT@[116] as int) + (MAT@[70] as int) * (INV_MAT@[128] as int) + (MAT@[71] as int) * (INV_MAT@[140] as int)) % 340282366920938463463374557953744961537 == 0) by (nonlinear_arith)
        requires
            MAT@[60] == 1, MAT@[61] == 3, MAT@[62] == 2, MAT@[63] == 1, MAT@[64] == 2, MAT@[65] == 6, MAT@[66] == 4, MAT@[67] == 2, MAT@[68] == 1, MAT@[69] == 3, MAT@[70] == 2, MAT@[71] == 1, INV_MAT@[8] == 196877655147114396718095279958952442032, INV_MAT@[20] == 213891773493161319891264007856639690109, INV_MAT@[32] == 94792945070832857679082912572828953571, INV_MAT@[44] == 332990601915489782103445103140450426647, INV_MAT@[56] == 196877655147114396718095279958952442032, INV_MAT@[68] == 213891773493161319891264007856639690109, INV_MAT@[80] == 94792945070832857679082912572828953571, INV_MAT@[92] == 332990601915489782103445103140450426647, INV_MAT@[104] == 89931768400533736772463276030632596978, INV_MAT@[116] == 38889413362392967252957092337570852747, INV_MAT@[128] == 55903531708439890426125820235258100824, INV_MAT@[140] == 21875295016346044079788364439883604670,
    ;
    assert(product_entry(MAT@, INV_MAT@, 12, 5, 9) == (MAT@[60] as int) * (INV_MAT@[9] as int) + (MAT@[61] as int) * (INV_MAT@[21] as int) + (MAT@[62] as int) * (INV_MAT@[33] as int) + (MAT@[63] as int) * (INV_MAT@[45] as int) + (MAT@[64] as int) * (INV_MAT@[57] as int) + (MAT@[65] as int) * (INV_MAT@[69] as int) + (MAT@[66] as int) * (INV_MAT@[81] as int) + (MAT@[67] as int) * (INV_MAT@[93] as int) + (MAT@[68] as int) * (INV_MAT@[105] as int) + (MAT@[69] as int) * (INV_MAT@[117] as int) + (MAT@[70] as int) * (INV_MAT@[129] as int) + (MAT@[71] as int) * (INV_MAT@[141] as int));
    assert(((MAT@[60] as int) * (INV_MAT@[9] as int) + (MAT@[61] as int) * (INV_MAT@[21] as int) + (MAT@[62] as int) * (INV_MAT@[33] as int) + (MAT@[63] as int) * (INV_MAT@[45] as int) + (MAT@[64] as int) * (INV_MAT@[57] as int) + (MAT@[65] as int) * (INV_MAT@[69] as int) + (MAT@[66] as int) * (INV_MAT@[81] as int) + (MAT@[67] as int) * (INV_MAT@[93] as int) + (MAT@[68] as int) * (INV_MAT@[105] as int) + (MAT@[69] as int) * (INV_MAT@[117] as int) + (MAT@[70] as int) * (INV_MAT@[129] as int) + (MAT@[71] as int) * (INV_MAT@[141] as int)) % 340282366920938463463374557953744961537 == 0) by (nonlinear_arith)
        requires
            MAT@[60] == 1, MAT@[61] == 3, MAT@[62] == 2, MAT@[63] == 1, MAT@[64] == 2, MAT@[65] == 6, MAT@[66] == 4, MAT@[67] == 2, MAT@[68] == 1, MAT@[69] == 3, MAT@[70] == 2, MAT@[71] == 1, INV_MAT@[9] == 332990601915489782103445103140450426647, INV_MAT@[21] == 196877655147114396718095279958952442032, INV_MAT@[33] == 213891773493161319891264007856639690109, INV_MAT@[45] == 94792945070832857679082912572828953571, INV_MAT@[57] == 332990601915489782103445103140450426647, INV_MAT@[69] == 196877655147114396718095279958952442032, INV_MAT@[81] == 213891773493161319891264007856639690109, INV_MAT@[93] == 94792945070832857679082912572828953571, INV_MAT@[105] == 21875295016346044079788364439883604670, INV_MAT@[117] == 89931768400533736772463276030632596978, INV_MAT@[129] == 38889413362392967252957092337570852747, INV_MAT@[141] == 55903531708439890426125820235258100824,
    ;
    assert(product_entry(MAT@, INV_MAT@, 12, 5, 10) == (MAT@[60] as int) * (INV_MAT@[10] as int) + (MAT@[61] as int) * (INV_MAT@[22] as int) + (MAT@[62] as int) * (INV_MAT@[34] as int) + (MAT@[63] as int) * (INV_MAT@[46] as int) + (MAT@[64] as int) * (INV_MAT@[58] as int) + (MAT@[65] as int) * (INV_MAT@[70] as int) + (MAT@[66] as int) * (INV_MAT@[82] as int) + (MAT@[67] as int) * (INV_MAT@[94] as int) + (MAT@[68] as int) * (INV_MAT@[106] as int) + (MAT@[69] as int) * (INV_MAT@[118] as int) + (MAT@[70] as int) * (INV_MAT@[130] as int) + (MAT@[71] as int) * (INV_MAT@[142] as int));
    assert(((MAT@[60] as int) * (INV_MAT@[10] as int) + (MAT@[61] as int) * (INV_MAT@[22] as int) + (MAT@[62] as int) * (INV_MAT@[34] as int) + (MAT@[63] as int) * (INV_MAT@[46] as int) + (MAT@[64] as int) * (INV_MAT@[58] as int) + (MAT@[65] as int) * (INV_MAT@[70] as int) + (MAT@[66] as int) * (INV_MAT@[82] as int) + (MAT@[67] as int) * (INV_MAT@[94] as int) + (MAT@[68] as int) * (INV_MAT@[106] as int) + (MAT@[69] as int) * (INV_MAT@[118] as int) + (MAT@[70] as int) * (INV_MAT@[130] as int) + (MAT@[71] as int) * (INV_MAT@[142] as int)) % 340282366920938463463374557953744961537 == 0) by (nonlinear_arith)
        requires
            MAT@[60] == 1, MAT@[61] == 3, MAT@[62] == 2, MAT@[63] == 1, MAT@[64] == 2, MAT@[65] == 6, MAT@[66] == 4, MAT@[67] == 2, MAT@[68] == 1, MAT@[69] == 3, MAT@[70] == 2, MAT@[71] == 1, INV_MAT@[10] == 94792945070832857679082912572828953571, INV_MAT@[22] == 332990601915489782103445103140450426647, INV_MAT@[34] == 196877655147114396718095279958952442032, INV_MAT@[46] == 213891773493161319891264007856639690109, INV_MAT@[58] == 94792945070832857679082912572828953571, INV_MAT@[70] == 332990601915489782103445103140450426647, INV_MAT@[82] == 196877655147114396718095279958952442032, INV_MAT@[94] == 213891773493161319891264007856639690109, INV_MAT@[106] == 55903531708439890426125820235258100824, INV_MAT@[118] == 21875295016346044079788364439883604670, INV_MAT@[130] == 89931768400533736772463276030632596978, INV_MAT@[142] == 38889413362392967252957092337570852747,
    ;
    assert(product_entry(MAT@, INV_MAT@, 12, 5, 11) == (MAT@[60] as int) * (INV_MAT@[11] as int) + (MAT@[61] as int) * (INV_MAT@[23] as int) + (MAT@[62] as int) * (INV_MAT@[35] as int) + (MAT@[63] as int) * (INV_MAT@[47] as int) + (MAT@[64] as int) * (INV_MAT@[59] as int) + (MAT@[65] as int) * (INV_MAT@[71] as int) + (MAT@[66] as int) * (INV_MAT@[83] as int) + (MAT@[67] as int) * (INV_MAT@[95] as int) + (MAT@[68] as int) * (INV_MAT@[107] as int) + (MAT@[69] as int) * (INV_MAT@[119] as int) + (MAT@[70] as int) * (INV_MAT@[131] as int) + (MAT@[71] as int) * (INV_MAT@[143] as int));
    assert(((MAT@[60] as int) * (INV_MAT@[11] as int) + (MAT@[61] as int) * (INV_MAT@[23] as int) + (MAT@[62] as int) * (INV_MAT@[35] as int) + (MAT@[63] as int) * (INV_MAT@[47] as int) + (MAT@[64] as int) * (INV_MAT@[59] as int) + (MAT@[65] as int) * (INV_MAT@[71] as int) + (MAT@[66] as int) * (INV_MAT@[83] as int) + (MAT@[67] as int) * (INV_MAT@[95] as int) + (MAT@[68] as int) * (INV_MAT@[107] as int) + (MAT@[69] as int) * (INV_MAT@[119] as int) + (MAT@[70] as int) * (INV_MAT@[131] as int) + (MAT@[71] as int) * (INV_MAT@[143] as int)) % 340282366920938463463374557953744961537 == 0) by (nonlinear_arith)
        requires
            MAT@[60] == 1, MAT@[61] == 3, MAT@[62] == 2, MAT@[63] == 1, MAT@[64] == 2, MAT@[65] == 6, MAT@[66] == 4, MAT@[67] == 2, MAT@[68] == 1, MAT@[69] == 3, MAT@[70] == 2, MAT@[71] == 1, INV_MAT@[11] == 213891773493161319891264007856639690109, INV_MAT@[23] == 94792945070832857679082912572828953571, INV_MAT@[35] == 332990601915489782103445103140450426647, INV_MAT@[47] == 196877655147114396718095279958952442032, INV_MAT@[59] == 213891773493161319891264007856639690109, INV_MAT@[71] == 94792945070832857679082912572828953571, INV_MAT@[83] == 332990601915489782103445103140450426647, INV_MAT@[95] == 196877655147114396718095279958952442032, INV_MAT@[107] == 38889413362392967252957092337570852747, INV_MAT@[119] == 55903531708439890426125820235258100824, INV_MAT@[131] == 21875295016346044079788364439883604670, INV_MAT@[143] == 89931768400533736772463276030632596978,
    ;
}

proof fn lemma_product_forward_row_6()
    ensures
        identity_row(Elem::modulus(), MAT@, INV_MAT@, 12, 6, 12),
{
    reveal_with_fuel(sum, 13);
    reveal_with_fuel(identity_row, 13);
    assert(product_entry(MAT@, INV_MAT@, 12, 6, 0) == (MAT@[72] as int) * (INV_MAT@[0] as int) + (MAT@[73] as int) * (INV_MAT@[12] as int) + (MAT@[74] as int) * (INV_MAT@[24] as int) + (MAT@[75] as int) * (INV_MAT@[36] as int) + (MAT@[76] as int) * (INV_MAT@[48] as int) + (MAT@[77] as int) * (INV_MAT@[60] as int) + (MAT@[78] as int) * (INV_MAT@[72] as int) + (MAT@[79] as int) * (INV_MAT@[84] as int) + (MAT@[80] as int) * (INV_MAT@[96] as int) + (MAT@[81] as int) * (INV_MAT@[108] as int) + (MAT@[82] as int) * (INV_MAT@[120] as int) + (MAT@[83] as int) * (INV_MAT@[132] as int));
    assert(((MAT@[72] as int) * (INV_MAT@[0] as int) + (MAT@[73] as int) * (INV_MAT@[12] as int) + (MAT@[74] as int) * (INV_MAT@[24] as int) + (MAT@[75] as int) * (INV_MAT@[36] as int) + (MAT@[76] as int) * (INV_MAT@[48] as int) + (MAT@[77] as int) * (INV_MAT@[60] as int) + (MAT@[78] as int) * (INV_MAT@[72] as int) + (MAT@[79] as int) * (INV_MAT@[84] as int) + (MAT@[80] as int) * (INV_MAT@[96] as int) + (MAT@[81] as int) * (INV_MAT@[108] as int) + (MAT@[82] as int) * (INV_MAT@[120] as int) + (MAT@[83] as int) * (INV_MAT@[132] as int)) % 340282366920938463463374557953744961537 == 0) by (nonlinear_arith)
        requires
            MAT@[72] == 1, MAT@[73] == 1, MAT@[74] == 3, MAT@[75] == 2, MAT@[76] == 2, MAT@[77] == 2, MAT@[78] == 6, MAT@[79] == 4, MAT@[80] == 1, MAT@[81] == 1, MAT@[82] == 3, MAT@[83] == 2, INV_MAT@[0] == 89931768400533736772463276030632596978, INV_MAT@[12] == 38889413362392967252957092337570852747, INV_MAT@[24] == 55903531708439890426125820235258100824, INV_MAT@[36] == 21875295016346044079788364439883604670, INV_MAT@[48] == 196877655147114396718095279958952442032, INV_MAT@[60] == 213891773493161319891264007856639690109, INV_MAT@[72] == 94792945070832857679082912572828953571, INV_MAT@[84] == 332990601915489782103445103140450426647, INV_MAT@[96] == 196877655147114396718095279958952442032, INV_MAT@[108] == 213891773493161319891264007856639690109, INV_MAT@[120] == 94792945070832857679082912572828953571, INV_MAT@[132] == 332990601915489782103445103140450426647,
    ;
    assert(product_entry(MAT@, INV_MAT@, 12, 6, 1) == (MAT@[72] as int) * (INV_MAT@[1] as int) + (MAT@[73] as int) * (INV_MAT@[13] as int) + (MAT@[74] as int) * (INV_MAT@[25] as int) + (MAT@[75] as int) * (INV_MAT@[37] as int) + (MAT@[76] as int) * (INV_MAT@[49] as int) + (MAT@[77] as int) * (INV_MAT@[61] as int) + (MAT@[78] as int) * (INV_MAT@[73] as int) + (MAT@[79] as int) * (INV_MAT@[85] as int) + (MAT@[80] as int) * (INV_MAT@[97] as int) + (MAT@[81] as int) * (INV_MAT@[109] as int) + (MAT@[82] as int) * (INV_MAT@[121] as int) + (MAT@[83] as int) * (INV_MAT@[133] as int));
    assert(((MAT@[72] as int) * (INV_MAT@[1] as int) + (MAT@[73] as int) * (INV_MAT@[13] as int) + (MAT@[74] as int) * (INV_MAT@[25] as int) + (MAT@[75] as int) * (INV_MAT@[37] as int) + (MAT@[76] as int) * (INV_MAT@[49] as int) + (MAT@[77] as int) * (INV_MAT@[61] as int) + (MAT@[78] as int) * (INV_MAT@[73] as int) + (MAT@[79] as int) * (INV_MAT@[85] as int) + (MAT@[80] as int) * (INV_MAT@[97] as int) + (MAT@[81] as int) * (INV_MAT@[109] as int) + (MAT@[82] as int) * (INV_MAT@[121] as int) + (MAT@[83] as int) * (INV_MAT@[133] as int)) % 340282366920938463463374557953744961537 == 0) by (nonlinear_arith)
        requires
            MAT@[72] == 1, MAT@[73] == 1, MAT@[74] == 3, MAT@[75] == 2, MAT@[76] == 2, MAT@[77] == 2, MAT@[78] == 6, MAT@[79] == 4, MAT@[80] == 1, MAT@[81] == 1, MAT@[82] == 3, MAT@[83] == 2, INV_MAT@[1] == 21875295016346044079788364439883604670, INV_MAT@[13] == 89931768400533736772463276030632596978, INV_MAT@[25] == 38889413362392967252957092337570852747, INV_MAT@[37] == 55903531708439890426125820235258100824, INV_MAT@[49] == 332990601915489782103445103140450426647, INV_MAT@[61] == 196877655147114396718095279958952442032, INV_MAT@[73] == 213891773493161319891264007856639690109, INV_MAT@[85] == 94792945070832857679082912572828953571, INV_MAT@[97] == 332990601915489782103445103140450426647, INV_MAT@[109] == 196877655147114396718095279958952442032, INV_MAT@[121] == 213891773493161319891264007856639690109, INV_MAT@[133] == 94792945070832857679082912572828953571,
    ;
    assert(product_entry(MAT@, INV_MAT@, 12, 6, 2) == (MAT@[72] as int) * (INV_MAT@[2] as int) + (MAT@[73] as int) * (INV_MAT@[14] as int) + (MAT@[74] as int) * (INV_MAT@[26] as int) + (MAT@[75] as int) * (INV_MAT@[38] as int) + (MAT@[76] as int) * (INV_MAT@[50] as int) + (MAT@[77] as int) * (INV_MAT@[62] as int) + (MAT@[78] as int) * (INV_MAT@[74] as int) + (MAT@[79] as int) * (INV_MAT@[86] as int) + (MAT@[80] as int) * (INV_MAT@[98] as int) + (MAT@[81] as int) * (INV_MAT@[110] as int) + (MAT@[82] as int) * (INV_MAT@[122] as int) + (MAT@[83] as int) * (INV_MAT@[134] as int));
    assert(((MAT@[72] as int) * (INV_MAT@[2] as int) + (MAT@[73] as int) * (INV_MAT@[14] as int) + (MAT@[74] as int) * (INV_MAT@[26] as int) + (MAT@[75] as int) * (INV_MAT@[38] as int) + (MAT@[76] as int) * (INV_MAT@[50] as int) + (MAT@[77] as int) * (INV_MAT@[62] as int) + (MAT@[78] as int) * (INV_MAT@[74] as int) + (MAT@[79] as int) * (INV_MAT@[86] as int) + (MAT@[80] as int) * (INV_MAT@[98] as int) + (MAT@[81] as int) * (INV_MAT@[110] as int) + (MAT@[82] as int) * (INV_MAT@[122] as int) + (MAT@[83] as int) * (INV_MAT@[134] as int)) % 340282366920938463463374557953744961537 == 0) by (nonlinear_arith)
        requires
            MAT@[72] == 1, MAT@[73] == 1, MAT@[74] == 3, MAT@[75] == 2, MAT@[76] == 2, MAT@[77] == 2, MAT@[78] == 6, MAT@[79] == 4, MAT@[80] == 1, MAT@[81] == 1, MAT@[82] == 3, MAT@[83] == 2, INV_MAT@[2] == 55903531708439890426125820235258100824, INV_MAT@[14] == 21875295016346044079788364439883604670, INV_MAT@[26] == 89931768400533736772463276030632596978, INV_MAT@[38] == 38889413362392967252957092337570852747, INV_MAT@[50] == 94792945070832857679082912572828953571, INV_MAT@[62] == 332990601915489782103445103140450426647, INV_MAT@[74] == 196877655147114396718095279958952442032, INV_MAT@[86] == 213891773493161319891264007856639690109, INV_MAT@[98] == 94792945070832857679082912572828953571, INV_MAT@[110] == 332990601915489782103445103140450426647, INV_MAT@[122] == 196877655147114396718095279958952442032, INV_MAT@[134] == 213891773493161319891264007856639690109,
    ;
    assert(product_entry(MAT@, INV_MAT@, 12, 6, 3) == (MAT@[72] as int) * (INV_MAT@[3] as int) + (MAT@[73] as int) * (INV_MAT@[15] as int) + (MAT@[74] as int) * (INV_MAT@[27] as int) + (MAT@[75] as int) * (INV_MAT@[39] as int) + (MAT@[76] as int) * (INV_MAT@[51] as int) + (MAT@[77] as int) * (INV_MAT@[63] as int) + (MAT@[78] as int) * (INV_MAT@[75] as int) + (MAT@[79] as int) * (INV_MAT@[87] as int) + (MAT@[80] as int) * (INV_MAT@[99] as int) + (MAT@[81] as int) * (INV_MAT@[111] as int) + (MAT@[82] as int) * (INV_MAT@[123] as int) + (MAT@[83] as int) * (INV_MAT@[135] as int));
    assert(((MAT@[72] as int) * (INV_MAT@[3] as int) + (MAT@[73] as int) * (INV_MAT@[15] as int) + (MAT@[74] as int) * (INV_MAT@[27] as int) + (MAT@[75] as int) * (INV_MAT@[39] as int) + (MAT@[76] as int) * (INV_MAT@[51] as int) + (MAT@[77] as int) * (INV_MAT@[63] as int) + (MAT@[78] as int) * (INV_MAT@[75] as int) + (MAT@[79] as int) * (INV_MAT@[87] as int) + (MAT@[80] as int) * (INV_MAT@[99] as int) + (MAT@[81] as int) * (INV_MAT@[111] as int) + (MAT@[82] as int) * (INV_MAT@[123] as int) + (MAT@[83] as int) * (INV_MAT@[135] as int)) % 340282366920938463463374557953744961537 == 0) by (nonlinear_arith)
        requires
            MAT@[72] == 1, MAT@[73] == 1, MAT@[74] == 3, MAT@[75] == 2, MAT@[76] == 2, MAT@[77] == 2, MAT@[78] == 6, MAT@[79] == 4, MAT@[80] == 1, MAT@[81] == 1, MAT@[82] == 3, MAT@[83] == 2, INV_MAT@[3] == 38889413362392967252957092337570852747, INV_MAT@[15] == 55903531708439890426125820235258100824, INV_MAT@[27] == 21875295016346044079788364439883604670, INV_MAT@[39] == 89931768400533736772463276030632596978, INV_MAT@[51] == 213891773493161319891264007856639690109, INV_MAT@[63] == 94792945070832857679082912572828953571, INV_MAT@[75] == 332990601915489782103445103140450426647, INV_MAT@[87] == 196877655147114396718095279958952442032, INV_MAT@[99] == 213891773493161319891264007856639690109, INV_MAT@[111] == 94792945070832857679082912572828953571, INV_MAT@[123] == 332990601915489782103445103140450426647, INV_MAT@[135] == 196877655147114396718095279958952442032,
    ;
    assert(product_entry(MAT@, INV_MAT@, 12, 6, 4) == (MAT@[72] as int) * (INV_MAT@[4] as int) + (MAT@[73] as int) * (INV_MAT@[16] as int) + (MAT@[74] as int) * (INV_MAT@[28] as int) + (MAT@[75] as int) * (INV_MAT@[40] as int) + (MAT@[76] as int) * (INV_MAT@[52] as int) + (MAT@[77] as int) * (INV_MAT@[64] as int) + (MAT@[78] as int) * (INV_MAT@[76] as int) + (MAT@[79] as int) * (INV_MAT@[88] as int) + (MAT@[80] as int) * (INV_MAT@[100] as int) + (MAT@[81] as int) * (INV_MAT@[112] as int) + (MAT@[82] as int) * (INV_MAT@[124] as int) + (MAT@[83] as int) * (INV_MAT@[136] as int));
    assert(((MAT@[72] as int) * (INV_MAT@[4] as int) + (MAT@[73] as int) * (INV_MAT@[16] as int) + (MAT@[74] as int) * (INV_MAT@[28] as int) + (MAT@[75] as int) * (INV_MAT@[40] as int) + (MAT@[76] as int) * (INV_MAT@[52] as int) + (MAT@[77] as int) * (INV_MAT@[64] as int) + (MAT@[78] as int) * (INV_MAT@[76] as int) + (MAT@[79] as int) * (INV_MAT@[88] as int) + (MAT@[80] as int) * (INV_MAT@[100] as int) + (MAT@[81] as int) * (INV_MAT@[112] as int) + (MAT@[82] as int) * (INV_MAT@[124] as int) + (MAT@[83] as int) * (INV_MAT@[136] as int)) % 340282366920938463463374557953744961537 == 0) by (nonlinear_arith)
        requires
            MAT@[72] == 1, MAT@[73] == 1, MAT@[74] == 3, MAT@[75] == 2, MAT@[76] == 2, MAT@[77] == 2, MAT@[78] == 6, MAT@[79] == 4, MAT@[80] == 1, MAT@[81] == 1, MAT@[82] == 3, MAT@[83] == 2, INV_MAT@[4] == 196877655147114396718095279958952442032, INV_MAT@[16] == 213891773493161319891264007856639690109, INV_MAT@[28] == 94792945070832857679082912572828953571, INV_MAT@[40] == 332990601915489782103445103140450426647, INV_MAT@[52] == 89931768400533736772463276030632596978, INV_MAT@[64] == 38889413362392967252957092337570852747, INV_MAT@[76] == 55903531708439890426125820235258100824, INV_MAT@[88] == 21875295016346044079788364439883604670, INV_MAT@[100] == 196877655147114396718095279958952442032, INV_MAT@[112] == 213891773493161319891264007856639690109, INV_MAT@[124] == 94792945070832857679082912572828953571, INV_MAT@[136] == 332990601915489782103445103140450426647,
    ;
    assert(product_entry(MAT@, INV_MAT@, 12, 6, 5) == (MAT@[72] as int) * (INV_MAT@[5] as int) + (MAT@[73] as int) * (INV_MAT@[17] as int) + (MAT@[74] as int) * (INV_MAT@[29] as int) + (MAT@[75] as int) * (INV_MAT@[41] as int) + (MAT@[76] as int) * (INV_MAT@[53] as int) + (MAT@[77] as int) * (INV_MAT@[65] as int) + (MAT@[78] as int) * (INV_MAT@[77] as int) + (MAT@[79] as int) * (INV_MAT@[89] as int) + (MAT@[80] as int) * (INV_MAT@[101] as int) + (MAT@[81] as int) * (INV_MAT@[113] as int) + (MAT@[82] as int) * (INV_MAT@[125] as int) + (MAT@[83] as int) * (INV_MAT@[137] as int));
    assert(((MAT@[72] as int) * (INV_MAT@[5] as int) + (MAT@[73] as int) * (INV_MAT@[17] as int) + (MAT@[74] as int) * (INV_MAT@[29] as int) + (MAT@[75] as int) * (INV_MAT@[41] as int) + (MAT@[76] as int) * (INV_MAT@[53] as int) + (MAT@[77] as int) * (INV_MAT@[65] as int) + (MAT@[78] as int) * (INV_MAT@[77] as int) + (MAT@[79] as int) * (INV_MAT@[89] as int) + (MAT@[80] as int) * (INV_MAT@[101] as int) + (MAT@[81] as int) * (INV_MAT@[113] as int) + (MAT@[82] as int) * (INV_MAT@[125] as int) + (MAT@[83] as int) * (INV_MAT@[137] as int)) % 340282366920938463463374557953744961537 == 0) by (nonlinear_arith)
        requires
            MAT@[72] == 1, MAT@[73] == 1, MAT@[74] == 3, MAT@[75] == 2, MAT@[76] == 2, MAT@[77] == 2, MAT@[78] == 6, MAT@[79] == 4, MAT@[80] == 1, MAT@[81] == 1, MAT@[82] == 3, MAT@[83] == 2, INV_MAT@[5] == 332990601915489782103445103140450426647, INV_MAT@[17] == 196877655147114396718095279958952442032, INV_MAT@[29] == 213891773493161319891264007856639690109, INV_MAT@[41] == 94792945070832857679082912572828953571, INV_MAT@[53] == 21875295016346044079788364439883604670, INV_MAT@[65] == 89931768400533736772463276030632596978, INV_MAT@[77] == 38889413362392967252957092337570852747, INV_MAT@[89] == 55903531708439890426125820235258100824, INV_MAT@[101] == 332990601915489782103445103140450426647, INV_MAT@[113] == 196877655147114396718095279958952442032, INV_MAT@[125] == 213891773493161319891264007856639690109, INV_MAT@[137] == 94792945070832857679082912572828953571,
    ;
    assert(product_entry(MAT@, INV_MAT@, 12, 6, 6) == (MAT@[72] as int) * (INV_MAT@[6] as int) + (MAT@[73] as int) * (INV_MAT@[18] as int) + (MAT@[74] as int) * (INV_MAT@[30] as int) + (MAT@[75] as int) * (INV_MAT@[42] as int) + (MAT@[76] as int) * (INV_MAT@[54] as int) + (MAT@[77] as int) * (INV_MAT@[66] as int) + (MAT@[78] as int) * (INV_MAT@[78] as int) + (MAT@[79] as int) * (INV_MAT@[90] as int) + (MAT@[80] as int) * (INV_MAT@[102] as int) + (MAT@[81] as int) * (INV_MAT@[114] as int) + (MAT@[82] as int) * (INV_MAT@[126] as int) + (MAT@[83] as int) * (INV_MAT@[138] as int));
    assert(((MAT@[72] as int) * (INV_MAT@[6] as int) + (MAT@[73] as int) * (INV_MAT@[18] as int) + (MAT@[74] as int) * (INV_MAT@[30] as int) + (MAT@[75] as int) * (INV_MAT@[42] as int) + (MAT@[76] as int) * (INV_MAT@[54] as int) + (MAT@[77] as int) * (INV_MAT@[66] as int) + (MAT@[78] as int) * (INV_MAT@[78] as int) + (MAT@[79] as int) * (INV_MAT@[90] as int) + (MAT@[80] as int) * (INV_MAT@[102] as int) + (MAT@[81] as int) * (INV_MAT@[114] as int) + (MAT@[82] as int) * (INV_MAT@[126] as int) + (MAT@[83] as int) * (INV_MAT@[138] as int)) % 340282366920938463463374557953744961537 == 1) by (nonlinear_arith)
        requires
            MAT@[72] == 1, MAT@[73] == 1, MAT@[74] == 3, MAT@[75] == 2, MAT@[76] == 2, MAT@[77] == 2, MAT@[78] == 6, MAT@[79] == 4, MAT@[80] == 1, MAT@[81] == 1, MAT@[82] == 3, MAT@[83] == 2, INV_MAT@[6] == 94792945070832857679082912572828953571, INV_MAT@[18] == 332990601915489782103445103140450426647, INV_MAT@[30] == 196877655147114396718095279958952442032, INV_MAT@[42] == 213891773493161319891264007856639690109, INV_MAT@[54] == 55903531708439890426125820235258100824, INV_MAT@[66] == 21875295016346044079788364439883604670, INV_MAT@[78] == 89931768400533736772463276030632596978, INV_MAT@[90] == 38889413362392967252957092337570852747, INV_MAT@[102] == 94792945070832857679082912572828953571, INV_MAT@[114] == 332990601915489782103445103140450426647, INV_MAT@[126] == 196877655147114396718095279958952442032, INV_MAT@[138] == 213891773493161319891264007856639690109,
    ;
    assert(product_entry(MAT@, INV_MAT@, 12, 6, 7) == (MAT@[72] as int) * (INV_MAT@[7] as int) + (MAT@[73] as int) * (INV_MAT@[19] as int) + (MAT@[74] as int) * (INV_MAT@[31] as int) + (MAT@[75] as int) * (INV_MAT@[43] as int) + (MAT@[76] as int) * (INV_MAT@[55] as int) + (MAT@[77] as int) * (INV_MAT@[67] as int) + (MAT@[78] as int) * (INV_MAT@[79] as int) + (MAT@[79] as int) * (INV_MAT@[91] as int) + (MAT@[80] as int) * (INV_MAT@[103] as int) + (MAT@[81] as int) * (INV_MAT@[115] as int) + (MAT@[82] as int) * (INV_MAT@[127] as int) + (MAT@[83] as int) * (INV_MAT@[139] as int));
    assert(((MAT@[72] as int) * (INV_MAT@[7] as int) + (MAT@[73] as int) * (INV_MAT@[19] as int) + (MAT@[74] as int) * (INV_MAT@[31] as int) + (MAT@[75] as int) * (INV_MAT@[43] as int) + (MAT@[76] as int) * (INV_MAT@[55] as int) + (MAT@[77] as int) * (INV_MAT@[67] as int) + (MAT@[78] as int) * (INV_MAT@[79] as int) + (MAT@[79] as int) * (INV_MAT@[91] as int) + (MAT@[80] as int) * (INV_MAT@[103] as int) + (MAT@[81] as int) * (INV_MAT@[115] as int) + (MAT@[82] as int) * (INV_MAT@[127] as int) + (MAT@[83] as int) * (INV_MAT@[139] as int)) % 340282366920938463463374557953744961537 == 0) by (nonlinear_arith)
        requires
            MAT@[72] == 1, MAT@[73] == 1, MAT@[74] == 3, MAT@[75] == 2, MAT@[76] == 2, MAT@[77] == 2, MAT@[78] == 6, MAT@[79] == 4, MAT@[80] == 1, MAT@[81] == 1, MAT@[82] == 3, MAT@[83] == 2, INV_MAT@[7] == 213891773493161319891264007856639690109, INV_MAT@[19] == 94792945070832857679082912572828953571, INV_MAT@[31] == 332990601915489782103445103140450426647, INV_MAT@[43] == 196877655147114396718095279958952442032, INV_MAT@[55] == 38889413362392967252957092337570852747, INV_MAT@[67] == 55903531708439890426125820235258100824, INV_MAT@[79] == 21875295016346044079788364439883604670, INV_MAT@[91] == 89931768400533736772463276030632596978, INV_MAT@[103] == 213891773493161319891264007856639690109, INV_MAT@[115] == 94792945070832857679082912572828953571, INV_MAT@[127] == 332990601915489782103445103140450426647, INV_MAT@[139] == 196877655147114396718095279958952442032,
    ;
    assert(product_entry(MAT@, INV_MAT@, 12, 6, 8) == (MAT@[72] as int) * (INV_MAT@[8] as int) + (MAT@[73] as int) * (INV_MAT@[20] as int) + (MAT@[74] as int) * (INV_MAT@[32] as int) + (MAT@[75] as int) * (INV_MAT@[44] as int) + (MAT@[76] as int) * (INV_MAT@[56] as int) + (MAT@[77] as int) * (INV_MAT@[68] as int) + (MAT@[78] as int) * (INV_MAT@[80] as int) + (MAT@[79] as int) * (INV_MAT@[92] as int) + (MAT@[80] as int) * (INV_MAT@[104] as int) + (MAT@[81] as int) * (INV_MAT@[116] as int) + (MAT@[82] as int) * (INV_MAT@[128] as int) + (MAT@[83] as int) * (INV_MAT@[140] as int));
    assert(((MAT@[72] as int) * (INV_MAT@[8] as int) + (MAT@[73] as int) * (INV_MAT@[20] as int) + (MAT@[74] as int) * (INV_MAT@[32] as int) + (MAT@[75] as int) * (INV_MAT@[44] as int) + (MAT@[76] as int) * (INV_MAT@[56] as int) + (MAT@[77] as int) * (INV_MAT@[68] as int) + (MAT@[78] as int) * (INV_MAT@[80] as int) + (MAT@[79] as int) * (INV_MAT@[92] as int) + (MAT@[80] as int) * (INV_MAT@[104] as int) + (MAT@[81] as int) * (INV_MAT@[116] as int) + (MAT@[82] as int) * (INV_MAT@[128] as int) + (MAT@[83] as int) * (INV_MAT@[140] as int)) % 340282366920938463463374557953744961537 == 0) by (nonlinear_arith)
        requires
            MAT@[72] == 1, MAT@[73] == 1, MAT@[74] == 3, MAT@[75] == 2, MAT@[76] == 2, MAT@[77] == 2, MAT@[78] == 6, MAT@[79] == 4, MAT@[80] == 1, MAT@[81] == 1, MAT@[82] == 3, MAT@[83] == 2, INV_MAT@[8] == 196877655147114396718095279958952442032, INV_MAT@[20] == 213891773493161319891264007856639690109, INV_MAT@[32] == 94792945070832857679082912572828953571, INV_MAT@[44] == 332990601915489782103445103140450426647, INV_MAT@[56] == 196877655147114396718095279958952442032, INV_MAT@[68] == 213891773493161319891264007856639690109, INV_MAT@[80] == 94792945070832857679082912572828953571, INV_MAT@[92] == 332990601915489782103445103140450426647, INV_MAT@[104] == 89931768400533736772463276030632596978, INV_MAT@[116] == 38889413362392967252957092337570852747, INV_MAT@[128] == 55903531708439890426125820235258100824, INV_MAT@[140] == 21875295016346044079788364439883604670,
    ;
    assert(product_entry(MAT@, INV_MAT@, 12, 6, 9) == (MAT@[72] as int) * (INV_MAT@[9] as int) + (MAT@[73] as int) * (INV_MAT@[21] as int) + (MAT@[74] as int) * (INV_MAT@[33] as int) + (MAT@[75] as int) * (INV_MAT@[45] as int) + (MAT@[76] as int) * (INV_MAT@[57] as int) + (MAT@[77] as int) * (INV_MAT@[69] as int) + (MAT@[78] as int) * (INV_MAT@[81] as int) + (MAT@[79] as int) * (INV_MAT@[93] as int) + (MAT@[80] as int) * (INV_MAT@[105] as int) + (MAT@[81] as int) * (INV_MAT@[117] as int) + (MAT@[82] as int) * (INV_MAT@[129] as int) + (MAT@[83] as int) * (INV_MAT@[141] as int));
    assert(((MAT@[72] as int) * (INV_MAT@[9] as int) + (MAT@[73] as int) * (INV_MAT@[21] as int) + (MAT@[74] as int) * (INV_MAT@[33] as int) + (MAT@[75] as int) * (INV_MAT@[45] as int) + (MAT@[76] as int) * (INV_MAT@[57] as int) + (MAT@[77] as int) * (INV_MAT@[69] as int) + (MAT@[78] as int) * (INV_MAT@[81] as int) + (MAT@[79] as int) * (INV_MAT@[93] as int) + (MAT@[80] as int) * (INV_MAT@[105] as int) + (MAT@[81] as int) * (INV_MAT@[117] as int) + (MAT@[82] as int) * (INV_MAT@[129] as int) + (MAT@[83] as int) * (INV_MAT@[141] as int)) % 340282366920938463463374557953744961537 == 0) by (nonlinear_arith)
        requires
            MAT@[72] == 1, MAT@[73] == 1, MAT@[74] == 3, MAT@[75] == 2, MAT@[76] == 2, MAT@[77] == 2, MAT@[78] == 6, MAT@[79] == 4, MAT@[80] == 1, MAT@[81] == 1, MAT@[82] == 3, MAT@[83] == 2, INV_MAT@[9] == 332990601915489782103445103140450426647, INV_MAT@[21] == 196877655147114396718095279958952442032, INV_MAT@[33] == 213891773493161319891264007856639690109, INV_MAT@[45] == 94792945070832857679082912572828953571, INV_MAT@[57] == 332990601915489782103445103140450426647, INV_MAT@[69] == 196877655147114396718095279958952442032, INV_MAT@[81] == 213891773493161319891264007856639690109, INV_MAT@[93] == 94792945070832857679082912572828953571, INV_MAT@[105] == 21875295016346044079788364439883604670, INV_MAT@[117] == 89931768400533736772463276030632596978, INV_MAT@[129] == 38889413362392967252957092337570852747, INV_MAT@[141] == 55903531708439890426125820235258100824,
    ;
    assert(product_entry(MAT@, INV_MAT@, 12, 6, 10) == (MAT@[72] as int) * (INV_MAT@[10] as int) + (MAT@[73] as int) * (INV_MAT@[22] as int) + (MAT@[74] as int) * (INV_MAT@[34] as int) + (MAT@[75] as int) * (INV_MAT@[46] as int) + (MAT@[76] as int) * (INV_MAT@[58] as int) + (MAT@[77] as int) * (INV_MAT@[70] as int) + (MAT@[78] as int) * (INV_MAT@[82] as int) + (MAT@[79] as int) * (INV_MAT@[94] as int) + (MAT@[80] as int) * (INV_MAT@[106] as int) + (MAT@[81] as int) * (INV_MAT@[118] as int) + (MAT@[82] as int) * (INV_MAT@[130] as int) + (MAT@[83] as int) * (INV_MAT@[142] as int));
    assert(((MAT@[72] as int) * (INV_MAT@[10] as int) + (MAT@[73] as int) * (INV_MAT@[22] as int) + (MAT@[74] as int) * (INV_MAT@[34] as int) + (MAT@[75] as int) * (INV_MAT@[46] as int) + (MAT@[76] as int) * (INV_MAT@[58] as int) + (MAT@[77] as int) * (INV_MAT@[70] as int) + (MAT@[78] as int) * (INV_MAT@[82] as int) + (MAT@[79] as int) * (INV_MAT@[94] as int) + (MAT@[80] as int) * (INV_MAT@[106] as int) + (MAT@[81] as int) * (INV_MAT@[118] as int) + (MAT@[82] as int) * (INV_MAT@[130] as int) + (MAT@[83] as int) * (INV_MAT@[142] as int)) % 340282366920938463463374557953744961537 == 0) by (nonlinear_arith)
        requires
            MAT@[72] == 1, MAT@[73] == 1, MAT@[74] == 3, MAT@[75] == 2, MAT@[76] == 2, MAT@[77] == 2, MAT@[78] == 6, MAT@[79] == 4, MAT@[80] == 1, MAT@[81] == 1, MAT@[82] == 3, MAT@[83] == 2, INV_MAT@[10] == 94792945070832857679082912572828953571, INV_MAT@[22] == 332990601915489782103445103140450426647, INV_MAT@[34] == 196877655147114396718095279958952442032, INV_MAT@[46] == 213891773493161319891264007856639690109, INV_MAT@[58] == 94792945070832857679082912572828953571, INV_MAT@[70] == 332990601915489782103445103140450426647, INV_MAT@[82] == 196877655147114396718095279958952442032, INV_MAT@[94] == 213891773493161319891264007856639690109, INV_MAT@[106] == 55903531708439890426125820235258100824, INV_MAT@[118] == 21875295016346044079788364439883604670, INV_MAT@[130] == 89931768400533736772463276030632596978, INV_MAT@[142] == 38889413362392967252957092337570852747,
    ;
    assert(product_entry(MAT@, INV_MAT@, 12, 6, 11) == (MAT@[72] as int) * (INV_MAT@[11] as int) + (MAT@[73] as int) * (INV_MAT@[23] as int) + (MAT@[74] as int) * (INV_MAT@[35] as int) + (MAT@[75] as int) * (INV_MAT@[47] as int) + (MAT@[76] as int) * (INV_MAT@[59] as int) + (MAT@[77] as int) * (INV_MAT@[71] as int) + (MAT@[78] as int) * (INV_MAT@[83] as int) + (MAT@[79] as int) * (INV_MAT@[95] as int) + (MAT@[80] as int) * (INV_MAT@[107] as int) + (MAT@[81] as int) * (INV_MAT@[119] as int) + (MAT@[82] as int) * (INV_MAT@[131] as int) + (MAT@[83] as int) * (INV_MAT@[143] as int));
    assert(((MAT@[72] as int) * (INV_MAT@[11] as int) + (MAT@[73] as int) * (INV_MAT@[23] as int) + (MAT@[74] as int) * (INV_MAT@[35] as int) + (MAT@[75] as int) * (INV_MAT@[47] as int) + (MAT@[76] as int) * (INV_MAT@[59] as int) + (MAT@[77] as int) * (INV_MAT@[71] as int) + (MAT@[78] as int) * (INV_MAT@[83] as int) + (MAT@[79] as int) * (INV_MAT@[95] as int) + (MAT@[80] as int) * (INV_MAT@[107] as int) + (MAT@[81] as int) * (INV_MAT@[119] as int) + (MAT@[82] as int) * (INV_MAT@[131] as int) + (MAT@[83] as int) * (INV_MAT@[143] as int)) % 340282366920938463463374557953744961537 == 0) by (nonlinear_arith)
        requires
            MAT@[72] == 1, MAT@[73] == 1, MAT@[74] == 3, MAT@[75] == 2, MAT@[76] == 2, MAT@[77] == 2, MAT@[78] == 6, MAT@[79] == 4, MAT@[80] == 1, MAT@[81] == 1, MAT@[82] == 3, MAT@[83] == 2, INV_MAT@[11] == 213891773493161319891264007856639690109, INV_MAT@[23] == 94792945070832857679082912572828953571, INV_MAT@[35] == 332990601915489782103445103140450426647, INV_MAT@[47] == 196877655147114396718095279958952442032, INV_MAT@[59] == 213891773493161319891264007856639690109, INV_MAT@[71] == 94792945070832857679082912572828953571, INV_MAT@[83] == 332990601915489782103445103140450426647, INV_MAT@[95] == 196877655147114396718095279958952442032, INV_MAT@[107] == 38889413362392967252957092337570852747, INV_MAT@[119] == 55903531708439890426125820235258100824, INV_MAT@[131] == 21875295016346044079788364439883604670, INV_MAT@[143] == 89931768400533736772463276030632596978,
    ;
}

proof fn lemma_product_forward_row_7()
    ensures
        identity_row(Elem::modulus(), MAT@, INV_MAT@, 12, 7, 12),
{
    reveal_with_fuel(sum, 13);
    reveal_with_fuel(identity_row, 13);
    assert(product_entry(MAT@, INV_MAT@, 12, 7, 0) == (MAT@[84] as int) * (INV_MAT@[0] as int) + (MAT@[85] as int) * (INV_MAT@[12] as int) + (MAT@[86] as int) * (INV_MAT@[24] as int) + (MAT@[87] as int) * (INV_MAT@[36] as int) + (MAT@[88] as int) * (INV_MAT@[48] as int) + (MAT@[89] as int) * (INV_MAT@[60] as int) + (MAT@[90] as int) * (INV_MAT@[72] as int) + (MAT@[91] as int) * (INV_MAT@[84] as int) + (MAT@[92] as int) * (INV_MAT@[96] as int) + (MAT@[93] as int) * (INV_MAT@[108] as int) + (MAT@[94] as int) * (INV_MAT@[120] as int) + (MAT@[95] as int) * (INV_MAT@[132] as int));
    assert(((MAT@[84] as int) * (INV_MAT@[0] as int) + (MAT@[85] as int) * (INV_MAT@[12] as int) + (MAT@[86] as int) * (INV_MAT@[24] as int) + (MAT@[87] as int) * (INV_MAT@[36] as int) + (MAT@[88] as int) * (INV_MAT@[48] as int) + (MAT@[89] as int) * (INV_MAT@[60] as int) + (MAT@[90] as int) * (INV_MAT@[72] as int) + (MAT@[91] as int) * (INV_MAT@[84] as int) + (MAT@[92] as int) * (INV_MAT@[96] as int) + (MAT@[93] as int) * (INV_MAT@[108] as int) + (MAT@[94] as int) * (INV_MAT@[120] as int) + (MAT@[95] as int) * (INV_MAT@[132] as int)) % 340282366920938463463374557953744961537 == 0) by (nonlinear_arith)
        requires
            MAT@[84] == 2, MAT@[85] == 1, MAT@[86] == 1, MAT@[87] == 3, MAT@[88] == 4, MAT@[89] == 2, MAT@[90] == 2, MAT@[91] == 6, MAT@[92] == 2, MAT@[93] == 1, MAT@[94] == 1, MAT@[95] == 3, INV_MAT@[0] == 89931768400533736772463276030632596978, INV_MAT@[12] == 38889413362392967252957092337570852747, INV_MAT@[24] == 55903531708439890426125820235258100824, INV_MAT@[36] == 21875295016346044079788364439883604670, INV_MAT@[48] == 196877655147114396718095279958952442032, INV_MAT@[60] == 213891773493161319891264007856639690109, INV_MAT@[72] == 94792945070832857679082912572828953571, INV_MAT@[84] == 332990601915489782103445103140450426647, INV_MAT@[96] == 196877655147114396718095279958952442032, INV_MAT@[108] == 213891773493161319891264007856639690109, INV_MAT@[120] == 94792945070832857679082912572828953571, INV_MAT@[132] == 332990601915489782103445103140450426647,
    ;
    assert(product_entry(MAT@, INV_MAT@, 12, 7, 1) == (MAT@[84] as int) * (INV_MAT@[1] as int) + (MAT@[85] as int) * (INV_MAT@[13] as int) + (MAT@[86] as int) * (INV_MAT@[25] as int) + (MAT@[87] as int) * (INV_MAT@[37] as int) + (MAT@[88] as int) * (INV_MAT@[49] as int) + (MAT@[89] as int) * (INV_MAT@[61] as int) + (MAT@[90] as int) * (INV_MAT@[73] as int) + (MAT@[91] as int) * (INV_MAT@[85] as int) + (MAT@[92] as int) * (INV_MAT@[97] as int) + (MAT@[93] as int) * (INV_MAT@[109] as int) + (MAT@[94] as int) * (INV_MAT@[121] as int) + (MAT@[95] as int) * (INV_MAT@[133] as int));
    assert(((MAT@[84] as int) * (INV_MAT@[1] as int) + (MAT@[85] as int) * (INV_MAT@[13] as int) + (MAT@[86] as int) * (INV_MAT@[25] as int) + (MAT@[87] as int) * (INV_MAT@[37] as int) + (MAT@[88] as int) * (INV_MAT@[49] as int) + (MAT@[89] as int) * (INV_MAT@[61] as int) + (MAT@[90] as int) * (INV_MAT@[73] as int) + (MAT@[91] as int) * (INV_MAT@[85] as int) + (MAT@[92] as int) * (INV_MAT@[97] as int) + (MAT@[93] as int) * (INV_MAT@[109] as int) + (MAT@[94] as int) * (INV_MAT@[121] as int) + (MAT@[95] as int) * (INV_MAT@[133] as int)) % 340282366920938463463374557953744961537 == 0) by (nonlinear_arith)
        requires
            MAT@[84] == 2, MAT@[85] == 1, MAT@[86] == 1, MAT@[87] == 3, MAT@[88] == 4, MAT@[89] == 2, MAT@[90] == 2, MAT@[91] == 6, MAT@[92] == 2, MAT@[93] == 1, MAT@[94] == 1, MAT@[95] == 3, INV_MAT@[1] == 21875295016346044079788364439883604670, INV_MAT@[13] == 89931768400533736772463276030632596978, INV_MAT@[25] == 38889413362392967252957092337570852747, INV_MAT@[37] == 55903531708439890426125820235258100824, INV_MAT@[49] == 332990601915489782103445103140450426647, INV_MAT@[61] == 196877655147114396718095279958952442032, INV_MAT@[73] == 213891773493161319891264007856639690109, INV_MAT@[85] == 94792945070832857679082912572828953571, INV_MAT@[97] == 332990601915489782103445103140450426647, INV_MAT@[109] == 196877655147114396718095279958952442032, INV_MAT@[121] == 213891773493161319891264007856639690109, INV_MAT@[133] == 94792945070832857679082912572828953571,
    ;
    assert(product_entry(MAT@, INV_MAT@, 12, 7, 2) == (MAT@[84] as int) * (INV_MAT@[2] as int) + (MAT@[85] as int) * (INV_MAT@[14] as int) + (MAT@[86] as int) * (INV_MAT@[26] as int) + (MAT@[87] as int) * (INV_MAT@[38] as int) + (MAT@[88] as int) * (INV_MAT@[50] as int) + (MAT@[89] as int) * (INV_MAT@[62] as int) + (MAT@[90] as int) * (INV_MAT@[74] as int) + (MAT@[91] as int) * (INV_MAT@[86] as int) + (MAT@[92] as int) * (INV_MAT@[98] as int) + (MAT@[93] as int) * (INV_MAT@[110] as int) + (MAT@[94] as int) * (INV_MAT@[122] as int) + (MAT@[95] as int) * (INV_MAT@[134] as int));
    assert(((MAT@[84] as int) * (INV_MAT@[2] as int) + (MAT@[85] as int) * (INV_MAT@[14] as int) + (MAT@[86] as int) * (INV_MAT@[26] as int) + (MAT@[87] as int) * (INV_MAT@[38] as int) + (MAT@[88] as int) * (INV_MAT@[50] as int) + (MAT@[89] as int) * (INV_MAT@[62] as int) + (MAT@[90] as int) * (INV_MAT@[74] as int) + (MAT@[91] as int) * (INV_MAT@[86] as int) + (MAT@[92] as int) * (INV_MAT@[98] as int) + (MAT@[93] as int) * (INV_MAT@[110] as int) + (MAT@[94] as int) * (INV_MAT@[122] as int) + (MAT@[95] as int) * (INV_MAT@[134] as int)) % 340282366920938463463374557953744961537 == 0) by (nonlinear_arith)
        requires
            MAT@[84] == 2, MAT@[85] == 1, MAT@[86] == 1, MAT@[87] == 3, MAT@[88] == 4, MAT@[89] == 2, MAT@[90] == 2, MAT@[91] == 6, MAT@[92] == 2, MAT@[93] == 1, MAT@[94] == 1, MAT@[95] == 3, INV_MAT@[2] == 55903531708439890426125820235258100824, INV_MAT@[14] == 21875295016346044079788364439883604670, INV_MAT@[26] == 89931768400533736772463276030632596978, INV_MAT@[38] == 38889413362392967252957092337570852747, INV_MAT@[50] == 94792945070832857679082912572828953571, INV_MAT@[62] == 332990601915489782103445103140450426647, INV_MAT@[74] == 196877655147114396718095279958952442032, INV_MAT@[86] == 213891773493161319891264007856639690109, INV_MAT@[98] == 94792945070832857679082912572828953571, INV_MAT@[110] == 332990601915489782103445103140450426647, INV_MAT@[122] == 196877655147114396718095279958952442032, INV_MAT@[134] == 213891773493161319891264007856639690109,
    ;
    assert(product_entry(MAT@, INV_MAT@, 12, 7, 3) == (MAT@[84] as int) * (INV_MAT@[3] as int) + (MAT@[85] as int) * (INV_MAT@[15] as int) + (MAT@[86] as int) * (INV_MAT@[27] as int) + (MAT@[87] as int) * (INV_MAT@[39] as int) + (MAT@[88] as int) * (INV_MAT@[51] as int) + (MAT@[89] as int) * (INV_MAT@[63] as int) + (MAT@[90] as int) * (INV_MAT@[75] as int) + (MAT@[91] as int) * (INV_MAT@[87] as int) + (MAT@[92] as int) * (INV_MAT@[99] as int) + (MAT@[93] as int) * (INV_MAT@[111] as int) + (MAT@[94] as int) * (INV_MAT@[123] as int) + (MAT@[95] as int) * (INV_MAT@[135] as int));
    assert(((MAT@[84] as int) * (INV_MAT@[3] as int) + (MAT@[85] as int) * (INV_MAT@[15] as int) + (MAT@[86] as int) * (INV_MAT@[27] as int) + (MAT@[87] as int) * (INV_MAT@[39] as int) + (MAT@[88] as int) * (INV_MAT@[51] as int) + (MAT@[89] as int) * (INV_MAT@[63] as int) + (MAT@[90] as int) * (INV_MAT@[75] as int) + (MAT@[91] as int) * (INV_MAT@[87] as int) + (MAT@[92] as int) * (INV_MAT@[99] as int) + (MAT@[93] as int) * (INV_MAT@[111] as int) + (MAT@[94] as int) * (INV_MAT@[123] as int) + (MAT@[95] as int) * (INV_MAT@[135] as int)) % 340282366920938463463374557953744961537 == 0) by (nonlinear_arith)
        requires
            MAT@[84] == 2, MAT@[85] == 1, MAT@[86] == 1, MAT@[87] == 3, MAT@[88] == 4, MAT@[89] == 2, MAT@[90] == 2, MAT@[91] == 6, MAT@[92] == 2, MAT@[93] == 1, MAT@[94] == 1, MAT@[95] == 3, INV_MAT@[3] == 38889413362392967252957092337570852747, INV_MAT@[15] == 55903531708439890426125820235258100824, INV_MAT@[27] == 21875295016346044079788364439883604670, INV_MAT@[39] == 89931768400533736772463276030632596978, INV_MAT@[51] == 213891773493161319891264007856639690109, INV_MAT@[63] == 94792945070832857679082912572828953571, INV_MAT@[75] == 332990601915489782103445103140450426647, INV_MAT@[87] == 196877655147114396718095279958952442032, INV_MAT@[99] == 213891773493161319891264007856639690109, INV_MAT@[111] == 94792945070832857679082912572828953571, INV_MAT@[123] == 332990601915489782103445103140450426647, INV_MAT@[135] == 196877655147114396718095279958952442032,
    ;
    assert(product_entry(MAT@, INV_MAT@, 12, 7, 4) == (MAT@[84] as int) * (INV_MAT@[4] as int) + (MAT@[85] as int) * (INV_MAT@[16] as int) + (MAT@[86] as int) * (INV_MAT@[28] as int) + (MAT@[87] as int) * (INV_MAT@[40] as int) + (MAT@[88] as int) * (INV_MAT@[52] as int) + (MAT@[89] as int) * (INV_MAT@[64] as int) + (MAT@[90] as int) * (INV_MAT@[76] as int) + (MAT@[91] as int) * (INV_MAT@[88] as int) + (MAT@[92] as int) * (INV_MAT@[100] as int) + (MAT@[93] as int) * (INV_MAT@[112] as int) + (MAT@[94] as int) * (INV_MAT@[124] as int) + (MAT@[95] as int) * (INV_MAT@[136] as int));
    assert(((MAT@[84] as int) * (INV_MAT@[4] as int) + (MAT@[85] as int) * (INV_MAT@[16] as int) + (MAT@[86] as int) * (INV_MAT@[28] as int) + (MAT@[87] as int) * (INV_MAT@[40] as int) + (MAT@[88] as int) * (INV_MAT@[52] as int) + (MAT@[89] as int) * (INV_MAT@[64] as int) + (MAT@[90] as int) * (INV_MAT@[76] as int) + (MAT@[91] as int) * (INV_MAT@[88] as int) + (MAT@[92] as int) * (INV_MAT@[100] as int) + (MAT@[93] as int) * (INV_MAT@[112] as int) + (MAT@[94] as int) * (INV_MAT@[124] as int) + (MAT@[95] as int) * (INV_MAT@[136] as int)) % 340282366920938463463374557953744961537 == 0) by (nonlinear_arith)
        requires
            MAT@[84] == 2, MAT@[85] == 1, MAT@[86] == 1, MAT@[87] == 3, MAT@[88] == 4, MAT@[89] == 2, MAT@[90] == 2, MAT@[91] == 6, MAT@[92] == 2, MAT@[93] == 1, MAT@[94] == 1, MAT@[95] == 3, INV_MAT@[4] == 196877655147114396718095279958952442032, INV_MAT@[16] == 213891773493161319891264007856639690109, INV_MAT@[28] == 94792945070832857679082912572828953571, INV_MAT@[40] == 332990601915489782103445103140450426647, INV_MAT@[52] == 89931768400533736772463276030632596978, INV_MAT@[64] == 38889413362392967252957092337570852747, INV_MAT@[76] == 55903531708439890426125820235258100824, INV_MAT@[88] == 21875295016346044079788364439883604670, INV_MAT@[100] == 196877655147114396718095279958952442032, INV_MAT@[112] == 213891773493161319891264007856639690109, INV_MAT@[124] == 94792945070832857679082912572828953571, INV_MAT@[136] == 332990601915489782103445103140450426647,
    ;
    assert(product_entry(MAT@, INV_MAT@, 12, 7, 5) == (MAT@[84] as int) * (INV_MAT@[5] as int) + (MAT@[85] as int) * (INV_MAT@[17] as int) + (MAT@[86] as int) * (INV_MAT@[29] as int) + (MAT@[87] as int) * (INV_MAT@[41] as int) + (MAT@[88] as int) * (INV_MAT@[53] as int) + (MAT@[89] as int) * (INV_MAT@[65] as int) + (MAT@[90] as int) * (INV_MAT@[77] as int) + (MAT@[91] as int) * (INV_MAT@[89] as int) + (MAT@[92] as int) * (INV_MAT@[101] as int) + (MAT@[93] as int) * (INV_MAT@[113] as int) + (MAT@[94] as int) * (INV_MAT@[125] as int) + (MAT@[95] as int) * (INV_MAT@[137] as int));
    assert(((MAT@[84] as int) * (INV_MAT@[5] as int) + (MAT@[85] as int) * (INV_MAT@[17] as int) + (MAT@[86] as int) * (INV_MAT@[29] as int) + (MAT@[87] as int) * (INV_MAT@[41] as int) + (MAT@[88] as int) * (INV_MAT@[53] as int) + (MAT@[89] as int) * (INV_MAT@[65] as int) + (MAT@[90] as int) * (INV_MAT@[77] as int) + (MAT@[91] as int) * (INV_MAT@[89] as int) + (MAT@[92] as int) * (INV_MAT@[101] as int) + (MAT@[93] as int) * (INV_MAT@[113] as int) + (MAT@[94] as int) * (INV_MAT@[125] as int) + (MAT@[95] as int) * (INV_MAT@[137] as int)) % 340282366920938463463374557953744961537 == 0) by (nonlinear_arith)
        requires
            MAT@[84] == 2, MAT@[85] == 1, MAT@[86] == 1, MAT@[87] == 3, MAT@[88] == 4, MAT@[89] == 2, MAT@[90] == 2, MAT@[91] == 6, MAT@[92] == 2, MAT@[93] == 1, MAT@[94] == 1, MAT@[95] == 3, INV_MAT@[5] == 332990601915489782103445103140450426647, INV_MAT@[17] == 196877655147114396718095279958952442032, INV_MAT@[29] == 213891773493161319891264007856639690109, INV_MAT@[41] == 94792945070832857679082912572828953571, INV_MAT@[53] == 21875295016346044079788364439883604670, INV_MAT@[65] == 89931768400533736772463276030632596978, INV_MAT@[77] == 38889413362392967252957092337570852747, INV_MAT@[89] == 55903531708439890426125820235258100824, INV_MAT@[101] == 332990601915489782103445103140450426647, INV_MAT@[113] == 196877655147114396718095279958952442032, INV_MAT@[125] == 213891773493161319891264007856639690109, INV_MAT@[137] == 94792945070832857679082912572828953571,
    ;
    assert(product_entry(MAT@, INV_MAT@, 12, 7, 6) == (MAT@[84] as int) * (INV_MAT@[6] as int) + (MAT@[85] as int) * (INV_MAT@[18] as int) + (MAT@[86] as int) * (INV_MAT@[30] as int) + (MAT@[87] as int) * (INV_MAT@[42] as int) + (MAT@[88] as int) * (INV_MAT@[54] as int) + (MAT@[89] as int) * (INV_MAT@[66] as int) + (MAT@[90] as int) * (INV_MAT@[78] as int) + (MAT@[91] as int) * (INV_MAT@[90] as int) + (MAT@[92] as int) * (INV_MAT@[102] as int) + (MAT@[93] as int) * (INV_MAT@[114] as int) + (MAT@[94] as int) * (INV_MAT@[126] as int) + (MAT@[95] as int) * (INV_MAT@[138] as int));
    assert(((MAT@[84] as int) * (INV_MAT@[6] as int) + (MAT@[85] as int) * (INV_MAT@[18] as int) + (MAT@[86] as int) * (INV_MAT@[30] as int) + (MAT@[87] as int) * (INV_MAT@[42] as int) + (MAT@[88] as int) * (INV_MAT@[54] as int) + (MAT@[89] as int) * (INV_MAT@[66] as int) + (MAT@[90] as int) * (INV_MAT@[78] as int) + (MAT@[91] as int) * (INV_MAT@[90] as int) + (MAT@[92] as int) * (INV_MAT@[102] as int) + (MAT@[93] as int) * (INV_MAT@[114] as int) + (MAT@[94] as int) * (INV_MAT@[126] as int) + (MAT@[95] as int) * (INV_MAT@[138] as int)) % 340282366920938463463374557953744961537 == 0) by (nonlinear_arith)
        requires
            MAT@[84] == 2, MAT@[85] == 1, MAT@[86] == 1, MAT@[87] == 3, MAT@[88] == 4, MAT@[89] == 2, MAT@[90] == 2, MAT@[91] == 6, MAT@[92] == 2, MAT@[93] == 1, MAT@[94] == 1, MAT@[95] == 3, INV_MAT@[6] == 94792945070832857679082912572828953571, INV_MAT@[18] == 332990601915489782103445103140450426647, INV_MAT@[30] == 196877655147114396718095279958952442032, INV_MAT@[42] == 213891773493161319891264007856639690109, INV_MAT@[54] == 55903531708439890426125820235258100824, INV_MAT@[66] == 21875295016346044079788364439883604670, INV_MAT@[78] == 89931768400533736772463276030632596978, INV_MAT@[90] == 38889413362392967252957092337570852747, INV_MAT@[102] == 94792945070832857679082912572828953571, INV_MAT@[114] == 332990601915489782103445103140450426647, INV_MAT@[126] == 196877655147114396718095279958952442032, INV_MAT@[138] == 213891773493161319891264007856639690109,
    ;
    assert(product_entry(MAT@, INV_MAT@, 12, 7, 7) == (MAT@[84] as int) * (INV_MAT@[7] as int) + (MAT@[85] as int) * (INV_MAT@[19] as int) + (MAT@[86] as int) * (INV_MAT@[31] as int) + (MAT@[87] as int) * (INV_MAT@[43] as int) + (MAT@[88] as int) * (INV_MAT@[55] as int) + (MAT@[89] as int) * (INV_MAT@[67] as int) + (MAT@[90] as int) * (INV_MAT@[79] as int) + (MAT@[91] as int) * (INV_MAT@[91] as int) + (MAT@[92] as int) * (INV_MAT@[103] as int) + (MAT@[93] as int) * (INV_MAT@[115] as int) + (MAT@[94] as int) * (INV_MAT@[127] as int) + (MAT@[95] as int) * (INV_MAT@[139] as int));
    assert(((MAT@[84] as int) * (INV_MAT@[7] as int) + (MAT@[85] as int) * (INV_MAT@[19] as int) + (MAT@[86] as int) * (INV_MAT@[31] as int) + (MAT@[87] as int) * (INV_MAT@[43] as int) + (MAT@[88] as int) * (INV_MAT@[55] as int) + (MAT@[89] as int) * (INV_MAT@[67] as int) + (MAT@[90] as int) * (INV_MAT@[79] as int) + (MAT@[91] as int) * (INV_MAT@[91] as int) + (MAT@[92] as int) * (INV_MAT@[103] as int) + (MAT@[93] as int) * (INV_MAT@[115] as int) + (MAT@[94] as int) * (INV_MAT@[127] as int) + (MAT@[95] as int) * (INV_MAT@[139] as int)) % 340282366920938463463374557953744961537 == 1) by (nonlinear_arith)
        requires
            MAT@[84] == 2, MAT@[85] == 1, MAT@[86] == 1, MAT@[87] == 3, MAT@[88] == 4, MAT@[89] == 2, MAT@[90] == 2, MAT@[91] == 6, MAT@[92] == 2, MAT@[93] == 1, MAT@[94] == 1, MAT@[95] == 3, INV_MAT@[7] == 213891773493161319891264007856639690109, INV_MAT@[19] == 94792945070832857679082912572828953571, INV_MAT@[31] == 332990601915489782103445103140450426647, INV_MAT@[43] == 196877655147114396718095279958952442032, INV_MAT@[55] == 38889413362392967252957092337570852747, INV_MAT@[67] == 55903531708439890426125820235258100824, INV_MAT@[79] == 21875295016346044079788364439883604670, INV_MAT@[91] == 89931768400533736772463276030632596978, INV_MAT@[103] == 213891773493161319891264007856639690109, INV_MAT@[115] == 94792945070832857679082912572828953571, INV_MAT@[127] == 332990601915489782103445103140450426647, INV_MAT@[139] == 196877655147114396718095279958952442032,
    ;
    assert(product_entry(MAT@, INV_MAT@, 12, 7, 8) == (MAT@[84] as int) * (INV_MAT@[8] as int) + (MAT@[85] as int) * (INV_MAT@[20] as int) + (MAT@[86] as int) * (INV_MAT@[32] as int) + (MAT@[87] as int) * (INV_MAT@[44] as int) + (MAT@[88] as int) * (INV_MAT@[56] as int) + (MAT@[89] as int) * (INV_MAT@[68] as int) + (MAT@[90] as int) * (INV_MAT@[80] as int) + (MAT@[91] as int) * (INV_MAT@[92] as int) + (MAT@[92] as int) * (INV_MAT@[104] as int) + (MAT@[93] as int) * (INV_MAT@[116] as int) + (MAT@[94] as int) * (INV_MAT@[128] as int) + (MAT@[95] as int) * (INV_MAT@[140] as int));
    assert(((MAT@[84] as int) * (INV_MAT@[8] as int) + (MAT@[85] as int) * (INV_MAT@[20] as int) + (MAT@[86] as int) * (INV_MAT@[32] as int) + (MAT@[87] as int) * (INV_MAT@[44] as int) + (MAT@[88] as int) * (INV_MAT@[56] as int) + (MAT@[89] as int) * (INV_MAT@[68] as int) + (MAT@[90] as int) * (INV_MAT@[80] as int) + (MAT@[91] as int) * (INV_MAT@[92] as int) + (MAT@[92] as int) * (INV_MAT@[104] as int) + (MAT@[93] as int) * (INV_MAT@[116] as int) + (MAT@[94] as int) * (INV_MAT@[128] as int) + (MAT@[95] as int) * (INV_MAT@[140] as int)) % 340282366920938463463374557953744961537 == 0) by (nonlinear_arith)
        requires
            MAT@[84] == 2, MAT@[85] == 1, MAT@[86] == 1, MAT@[87] == 3, MAT@[88] == 4, MAT@[89] == 2, MAT@[90] == 2, MAT@[91] == 6, MAT@[92] == 2, MAT@[93] == 1, MAT@[94] == 1, MAT@[95] == 3, INV_MAT@[8] == 196877655147114396718095279958952442032, INV_MAT@[20] == 213891773493161319891264007856639690109, INV_MAT@[32] == 94792945070832857679082912572828953571, INV_MAT@[44] == 332990601915489782103445103140450426647, INV_MAT@[56] == 196877655147114396718095279958952442032, INV_MAT@[68] == 213891773493161319891264007856639690109, INV_MAT@[80] == 94792945070832857679082912572828953571, INV_MAT@[92] == 332990601915489782103445103140450426647, INV_MAT@[104] == 89931768400533736772463276030632596978, INV_MAT@[116] == 38889413362392967252957092337570852747, INV_MAT@[128] == 55903531708439890426125820235258100824, INV_MAT@[140] == 21875295016346044079788364439883604670,
    ;
    assert(product_entry(MAT@, INV_MAT@, 12, 7, 9) == (MAT@[84] as int) * (INV_MAT@[9] as int) + (MAT@[85] as int) * (INV_MAT@[21] as int) + (MAT@[86] as int) * (INV_MAT@[33] as int) + (MAT@[87] as int) * (INV_MAT@[45] as int) + (MAT@[88] as int) * (INV_MAT@[57] as int) + (MAT@[89] as int) * (INV_MAT@[69] as int) + (MAT@[90] as int) * (INV_MAT@[81] as int) + (MAT@[91] as int) * (INV_MAT@[93] as int) + (MAT@[92] as int) * (INV_MAT@[105] as int) + (MAT@[93] as int) * (INV_MAT@[117] as int) + (MAT@[94] as int) * (INV_MAT@[129] as int) + (MAT@[95] as int) * (INV_MAT@[141] as int));
    assert(((MAT@[84] as int) * (INV_MAT@[9] as int) + (MAT@[85] as int) * (INV_MAT@[21] as int) + (MAT@[86] as int) * (INV_MAT@[33] as int) + (MAT@[87] as int) * (INV_MAT@[45] as int) + (MAT@[88] as int) * (INV_MAT@[57] as int) + (MAT@[89] as int) * (INV_MAT@[69] as int) + (MAT@[90] as int) * (INV_MAT@[81] as int) + (MAT@[91] as int) * (INV_MAT@[93] as int) + (MAT@[92] as int) * (INV_MAT@[105] as int) + (MAT@[93] as int) * (INV_MAT@[117] as int) + (MAT@[94] as int) * (INV_MAT@[129] as int) + (MAT@[95] as int) * (INV_MAT@[141] as int)) % 340282366920938463463374557953744961537 == 0) by (nonlinear_arith)
        requires
            MAT@[84] == 2, MAT@[85] == 1, MAT@[86] == 1, MAT@[87] == 3, MAT@[88] == 4, MAT@[89] == 2, MAT@[90] == 2, MAT@[91] == 6, MAT@[92] == 2, MAT@[93] == 1, MAT@[94] == 1, MAT@[95] == 3, INV_MAT@[9] == 332990601915489782103445103140450426647, INV_MAT@[21] == 196877655147114396718095279958952442032, INV_MAT@[33] == 213891773493161319891264007856639690109, INV_MAT@[45] == 94792945070832857679082912572828953571, INV_MAT@[57] == 332990601915489782103445103140450426647, INV_MAT@[69] == 196877655147114396718095279958952442032, INV_MAT@[81] == 213891773493161319891264007856639690109, INV_MAT@[93] == 94792945070832857679082912572828953571, INV_MAT@[105] == 21875295016346044079788364439883604670, INV_MAT@[117] == 89931768400533736772463276030632596978, INV_MAT@[129] == 38889413362392967252957092337570852747, INV_MAT@[141] == 55903531708439890426125820235258100824,
    ;
    assert(product_entry(MAT@, INV_MAT@, 12, 7, 10) == (MAT@[84] as int) * (INV_MAT@[10] as int) + (MAT@[85] as int) * (INV_MAT@[22] as int) + (MAT@[86] as int) * (INV_MAT@[34] as int) + (MAT@[87] as int) * (INV_MAT@[46] as int) + (MAT@[88] as int) * (INV_MAT@[58] as int) + (MAT@[89] as int) * (INV_MAT@[70] as int) + (MAT@[90] as int) * (INV_MAT@[82] as int) + (MAT@[91] as int) * (INV_MAT@[94] as int) + (MAT@[92] as int) * (INV_MAT@[106] as int) + (MAT@[93] as int) * (INV_MAT@[118] as int) + (MAT@[94] as int) * (INV_MAT@[130] as int) + (MAT@[95] as int) * (INV_MAT@[142] as int));
    assert(((MAT@[84] as int) * (INV_MAT@[10] as int) + (MAT@[85] as int) * (INV_MAT@[22] as int) + (MAT@[86] as int) * (INV_MAT@[34] as int) + (MAT@[87] as int) * (INV_MAT@[46] as int) + (MAT@[88] as int) * (INV_MAT@[58] as int) + (MAT@[89] as int) * (INV_MAT@[70] as int) + (MAT@[90] as int) * (INV_MAT@[82] as int) + (MAT@[91] as int) * (INV_MAT@[94] as int) + (MAT@[92] as int) * (INV_MAT@[106] as int) + (MAT@[93] as int) * (INV_MAT@[118] as int) + (MAT@[94] as int) * (INV_MAT@[130] as int) + (MAT@[95] as int) * (INV_MAT@[142] as int)) % 340282366920938463463374557953744961537 == 0) by (nonlinear_arith)
        requires
            MAT@[84] == 2, MAT@[85] == 1, MAT@[86] == 1, MAT@[87] == 3, MAT@[88] == 4, MAT@[89] == 2, MAT@[90] == 2, MAT@[91] == 6, MAT@[92] == 2, MAT@[93] == 1, MAT@[94] == 1, MAT@[95] == 3, INV_MAT@[10] == 94792945070832857679082912572828953571, INV_MAT@[22] == 332990601915489782103445103140450426647, INV_MAT@[34] == 196877655147114396718095279958952442032, INV_MAT@[46] == 213891773493161319891264007856639690109, INV_MAT@[58] == 94792945070832857679082912572828953571, INV_MAT@[70] == 332990601915489782103445103140450426647, INV_MAT@[82] == 196877655147114396718095279958952442032, INV_MAT@[94] == 213891773493161319891264007856639690109, INV_MAT@[106] == 55903531708439890426125820235258100824, INV_MAT@[118] == 21875295016346044079788364439883604670, INV_MAT@[130] == 89931768400533736772463276030632596978, INV_MAT@[142] == 38889413362392967252957092337570852747,
    ;
    assert(product_entry(MAT@, INV_MAT@, 12, 7, 11) == (MAT@[84] as int) * (INV_MAT@[11] as int) + (MAT@[85] as int) * (INV_MAT@[23] as int) + (MAT@[86] as int) * (INV_MAT@[35] as int) + (MAT@[87] as int) * (INV_MAT@[47] as int) + (MAT@[88] as int) * (INV_MAT@[59] as int) + (MAT@[89] as int) * (INV_MAT@[71] as int) + (MAT@[90] as int) * (INV_MAT@[83] as int) + (MAT@[91] as int) * (INV_MAT@[95] as int) + (MAT@[92] as int) * (INV_MAT@[107] as int) + (MAT@[93] as int) * (INV_MAT@[119] as int) + (MAT@[94] as int) * (INV_MAT@[131] as int) + (MAT@[95] as int) * (INV_MAT@[143] as int));
    assert(((MAT@[84] as int) * (INV_MAT@[11] as int) + (MAT@[85] as int) * (INV_MAT@[23] as int) + (MAT@[86] as int) * (INV_MAT@[35] as int) + (MAT@[87] as int) * (INV_MAT@[47] as int) + (MAT@[88] as int) * (INV_MAT@[59] as int) + (MAT@[89] as int) * (INV_MAT@[71] as int) + (MAT@[90] as int) * (INV_MAT@[83] as int) + (MAT@[91] as int) * (INV_MAT@[95] as int) + (MAT@[92] as int) * (INV_MAT@[107] as int) + (MAT@[93] as int) * (INV_MAT@[119] as int) + (MAT@[94] as int) * (INV_MAT@[131] as int) + (MAT@[95] as int) * (INV_MAT@[143] as int)) % 340282366920938463463374557953744961537 == 0) by (nonlinear_arith)
        requires
            MAT@[84] == 2, MAT@[85] == 1, MAT@[86] == 1, MAT@[87] == 3, MAT@[88] == 4, MAT@[89] == 2, MAT@[90] == 2, MAT@[91] == 6, MAT@[92] == 2, MAT@[93] == 1, MAT@[94] == 1, MAT@[95] == 3, INV_MAT@[11] == 213891773493161319891264007856639690109, INV_MAT@[23] == 94792945070832857679082912572828953571, INV_MAT@[35] == 332990601915489782103445103140450426647, INV_MAT@[47] == 196877655147114396718095279958952442032, INV_MAT@[59] == 213891773493161319891264007856639690109, INV_MAT@[71] == 94792945070832857679082912572828953571, INV_MAT@[83] == 332990601915489782103445103140450426647, INV_MAT@[95] == 196877655147114396718095279958952442032, INV_MAT@[107] == 38889413362392967252957092337570852747, INV_MAT@[119] == 55903531708439890426125820235258100824, INV_MAT@[131] == 21875295016346044079788364439883604670, INV_MAT@[143] == 89931768400533736772463276030632596978,
    ;
}

proof fn lemma_product_forward_row_8()
    ensures
        identity_row(Elem::modulus(), MAT@, INV_MAT@, 12, 8, 12),
{
    reveal_with_fuel(sum, 13);
    reveal_with_fuel(identity_row, 13);
    assert(product_entry(MAT@, INV_MAT@, 12, 8, 0) == (MAT@[96] as int) * (INV_MAT@[0] as int) + (MAT@[97] as int) * (INV_MAT@[12] as int) + (MAT@[98] as int) * (INV_MAT@[24] as int) + (MAT@[99] as int) * (INV_MAT@[36] as int) + (MAT@[100] as int) * (INV_MAT@[48] as int) + (MAT@[101] as int) * (INV_MAT@[60] as int) + (MAT@[102] as int) * (INV_MAT@[72] as int) + (MAT@[103] as int) * (INV_MAT@[84] as int) + (MAT@[104] as int) * (INV_MAT@[96] as int) + (MAT@[105] as int) * (INV_MAT@[108] as int) + (MAT@[106] as int) * (INV_MAT@[120] as int) + (MAT@[107] as int) * (INV_MAT@[132] as int));
    assert(((MAT@[96] as int) * (INV_MAT@[0] as int) + (MAT@[97] as int) * (INV_MAT@[12] as int) + (MAT@[98] as int) * (INV_MAT@[24] as int) + (MAT@[99] as int) * (INV_MAT@[36] as int) + (MAT@[100] as int) * (INV_MAT@[48] as int) + (MAT@[101] as int) * (INV_MAT@[60] as int) + (MAT@[102] as int) * (INV_MAT@[72] as int) + (MAT@[103] as int) * (INV_MAT@[84] as int) + (MAT@[104] as int) * (INV_MAT@[96] as int) + (MAT@[105] as int) * (INV_MAT@[108] as int) + (MAT@[106] as int) * (INV_MAT@[120] as int) + (MAT@[107] as int) * (INV_MAT@[132] as int)) % 340282366920938463463374557953744961537 == 0) by (nonlinear_arith)
        requires
            MAT@[96] == 3, MAT@[97] == 2, MAT@[98] == 1, MAT@[99] == 1, MAT@[100] == 3, MAT@[101] == 2, MAT@[102] == 1, MAT@[103] == 1, MAT@[104] == 6, MAT@[105] == 4, MAT@[106] == 2, MAT@[107] == 2, INV_MAT@[0] == 89931768400533736772463276030632596978, INV_MAT@[12] == 38889413362392967252957092337570852747, INV_MAT@[24] == 55903531708439890426125820235258100824, INV_MAT@[36] == 21875295016346044079788364439883604670, INV_MAT@[48] == 196877655147114396718095279958952442032, INV_MAT@[60] == 213891773493161319891264007856639690109, INV_MAT@[72] == 94792945070832857679082912572828953571, INV_MAT@[84] == 332990601915489782103445103140450426647, INV_MAT@[96] == 196877655147114396718095279958952442032, INV_MAT@[108] == 213891773493161319891264007856639690109, INV_MAT@[120] == 94792945070832857679082912572828953571, INV_MAT@[132] == 332990601915489782103445103140450426647,
    ;
    assert(product_entry(MAT@, INV_MAT@, 12, 8, 1) == (MAT@[96] as int) * (INV_MAT@[1] as int) + (MAT@[97] as int) * (INV_MAT@[13] as int) + (MAT@[98] as int) * (INV_MAT@[25] as int) + (MAT@[99] as int) * (INV_MAT@[37] as int) + (MAT@[100] as int) * (INV_MAT@[49] as int) + (MAT@[101] as int) * (INV_MAT@[61] as int) + (MAT@[102] as int) * (INV_MAT@[73] as int) + (MAT@[103] as int) * (INV_MAT@[85] as int) + (MAT@[104] as int) * (INV_MAT@[97] as int) + (MAT@[105] as int) * (INV_MAT@[109] as int) + (MAT@[106] as int) * (INV_MAT@[121] as int) + (MAT@[107] as int) * (INV_MAT@[133] as int));
    assert(((MAT@[96] as int) * (INV_MAT@[1] as int) + (MAT@[97] as int) * (INV_MAT@[13] as int) + (MAT@[98] as int) * (INV_MAT@[25] as int) + (MAT@[99] as int) * (INV_MAT@[37] as int) + (MAT@[100] as int) * (INV_MAT@[49] as int) + (MAT@[101] as int) * (INV_MAT@[61] as int) + (MAT@[102] as int) * (INV_MAT@[73] as int) + (MAT@[103] as int) * (INV_MAT@[85] as int) + (MAT@[104] as int) * (INV_MAT@[97] as int) + (MAT@[105] as int) * (INV_MAT@[109] as int) + (MAT@[106] as int) * (INV_MAT@[121] as int) + (MAT@[107] as int) * (INV_MAT@[133] as int)) % 340282366920938463463374557953744961537 == 0) by (nonlinear_arith)
        requires
            MAT@[96] == 3, MAT@[97] == 2, MAT@[98] == 1, MAT@[99] == 1, MAT@[100] == 3, MAT@[101] == 2, MAT@[102] == 1, MAT@[103] == 1, MAT@[104] == 6, MAT@[105] == 4, MAT@[106] == 2, MAT@[107] == 2, INV_MAT@[1] == 21875295016346044079788364439883604670, INV_MAT@[13] == 89931768400533736772463276030632596978, INV_MAT@[25] == 38889413362392967252957092337570852747, INV_MAT@[37] == 55903531708439890426125820235258100824, INV_MAT@[49] == 332990601915489782103445103140450426647, INV_MAT@[61] == 196877655147114396718095279958952442032, INV_MAT@[73] == 213891773493161319891264007856639690109, INV_MAT@[85] == 94792945070832857679082912572828953571, INV_MAT@[97] == 332990601915489782103445103140450426647, INV_MAT@[109] == 196877655147114396718095279958952442032, INV_MAT@[121] == 213891773493161319891264007856639690109, INV_MAT@[133] == 94792945070832857679082912572828953571,
    ;
    assert(product_entry(MAT@, INV_MAT@, 12, 8, 2) == (MAT@[96] as int) * (INV_MAT@[2] as int) + (MAT@[97] as int) * (INV_MAT@[14] as int) + (MAT@[98] as int) * (INV_MAT@[26] as int) + (MAT@[99] as int) * (INV_MAT@[38] as int) + (MAT@[100] as int) * (INV_MAT@[50] as int) + (MAT@[101] as int) * (INV_MAT@[62] as int) + (MAT@[102] as int) * (INV_MAT@[74] as int) + (MAT@[103] as int) * (INV_MAT@[86] as int) + (MAT@[104] as int) * (INV_MAT@[98] as int) + (MAT@[105] as int) * (INV_MAT@[110] as int) + (MAT@[106] as int) * (INV_MAT@[122] as int) + (MAT@[107] as int) * (INV_MAT@[134] as int));
    assert(((MAT@[96] as int) * (INV_MAT@[2] as int) + (MAT@[97] as int) * (INV_MAT@[14] as int) + (MAT@[98] as int) * (INV_MAT@[26] as int) + (MAT@[99] as int) * (INV_MAT@[38] as int) + (MAT@[100] as int) * (INV_MAT@[50] as int) + (MAT@[101] as int) * (INV_MAT@[62] as int) + (MAT@[102] as int) * (INV_MAT@[74] as int) + (MAT@[103] as int) * (INV_MAT@[86] as int) + (MAT@[104] as int) * (INV_MAT@[98] as int) + (MAT@[105] as int) * (INV_MAT@[110] as int) + (MAT@[106] as int) * (INV_MAT@[122] as int) + (MAT@[107] as int) * (INV_MAT@[134] as int)) % 340282366920938463463374557953744961537 == 0) by (nonlinear_arith)
        requires
            MAT@[96] == 3, MAT@[97] == 2, MAT@[98] == 1, MAT@[99] == 1, MAT@[100] == 3, MAT@[101] == 2, MAT@[102] == 1, MAT@[103] == 1, MAT@[104] == 6, MAT@[105] == 4, MAT@[106] == 2, MAT@[107] == 2, INV_MAT@[2] == 55903531708439890426125820235258100824, INV_MAT@[14] == 21875295016346044079788364439883604670, INV_MAT@[26] == 89931768400533736772463276030632596978, INV_MAT@[38] == 38889413362392967252957092337570852747, INV_MAT@[50] == 94792945070832857679082912572828953571, INV_MAT@[62] == 332990601915489782103445103140450426647, INV_MAT@[74] == 196877655147114396718095279958952442032, INV_MAT@[86] == 213891773493161319891264007856639690109, INV_MAT@[98] == 94792945070832857679082912572828953571, INV_MAT@[110] == 332990601915489782103445103140450426647, INV_MAT@[122] == 196877655147114396718095279958952442032, INV_MAT@[134] == 213891773493161319891264007856639690109,
    ;
    assert(product_entry(MAT@, INV_MAT@, 12, 8, 3) == (MAT@[96] as int) * (INV_MAT@[3] as int) + (MAT@[97] as int) * (INV_MAT@[15] as int) + (MAT@[98] as int) * (INV_MAT@[27] as int) + (MAT@[99] as int) * (INV_MAT@[39] as int) + (MAT@[100] as int) * (INV_MAT@[51] as int) + (MAT@[101] as int) * (INV_MAT@[63] as int) + (MAT@[102] as int) * (INV_MAT@[75] as int) + (MAT@[103] as int) * (INV_MAT@[87] as int) + (MAT@[104] as int) * (INV_MAT@[99] as int) + (MAT@[105] as int) * (INV_MAT@[111] as int) + (MAT@[106] as int) * (INV_MAT@[123] as int) + (MAT@[107] as int) * (INV_MAT@[135] as int));
    assert(((MAT@[96] as int) * (INV_MAT@[3] as int) + (MAT@[97] as int) * (INV_MAT@[15] as int) + (MAT@[98] as int) * (INV_MAT@[27] as int) + (MAT@[99] as int) * (INV_MAT@[39] as int) + (MAT@[100] as int) * (INV_MAT@[51] as int) + (MAT@[101] as int) * (INV_MAT@[63] as int) + (MAT@[102] as int) * (INV_MAT@[75] as int) + (MAT@[103] as int) * (INV_MAT@[87] as int) + (MAT@[104] as int) * (INV_MAT@[99] as int) + (MAT@[105] as int) * (INV_MAT@[111] as int) + (MAT@[106] as int) * (INV_MAT@[123] as int) + (MAT@[107] as int) * (INV_MAT@[135] as int)) % 340282366920938463463374557953744961537 == 0) by (nonlinear_arith)
        requires
            MAT@[96] == 3, MAT@[97] == 2, MAT@[98] == 1, MAT@[99] == 1, MAT@[100] == 3, MAT@[101] == 2, MAT@[102] == 1, MAT@[103] == 1, MAT@[104] == 6, MAT@[105] == 4, MAT@[106] == 2, MAT@[107] == 2, INV_MAT@[3] == 38889413362392967252957092337570852747, INV_MAT@[15] == 55903531708439890426125820235258100824, INV_MAT@[27] == 21875295016346044079788364439883604670, INV_MAT@[39] == 89931768400533736772463276030632596978, INV_MAT@[51] == 213891773493161319891264007856639690109, INV_MAT@[63] == 94792945070832857679082912572828953571, INV_MAT@[75] == 332990601915489782103445103140450426647, INV_MAT@[87] == 196877655147114396718095279958952442032, INV_MAT@[99] == 213891773493161319891264007856639690109, INV_MAT@[111] == 94792945070832857679082912572828953571, INV_MAT@[123] == 332990601915489782103445103140450426647, INV_MAT@[135] == 196877655147114396718095279958952442032,
    ;
    assert(product_entry(MAT@, INV_MAT@, 12, 8, 4) == (MAT@[96] as int) * (INV_MAT@[4] as int) + (MAT@[97] as int) * (INV_MAT@[16] as int) + (MAT@[98] as int) * (INV_MAT@[28] as int) + (MAT@[99] as int) * (INV_MAT@[40] as int) + (MAT@[100] as int) * (INV_MAT@[52] as int) + (MAT@[101] as int) * (INV_MAT@[64] as int) + (MAT@[102] as int) * (INV_MAT@[76] as int) + (MAT@[103] as int) * (INV_MAT@[88] as int) + (MAT@[104] as int) * (INV_MAT@[100] as int) + (MAT@[105] as int) * (INV_MAT@[112] as int) + (MAT@[106] as int) * (INV_MAT@[124] as int) + (MAT@[107] as int) * (INV_MAT@[136] as int));
    assert(((MAT@[96] as int) * (INV_MAT@[4] as int) + (MAT@[97] as int) * (INV_MAT@[16] as int) + (MAT@[98] as int) * (INV_MAT@[28] as int) + (MAT@[99] as int) * (INV_MAT@[40] as int) + (MAT@[100] as int) * (INV_MAT@[52] as int) + (MAT@[101] as int) * (INV_MAT@[64] as int) + (MAT@[102] as int) * (INV_MAT@[76] as int) + (MAT@[103] as int) * (INV_MAT@[88] as int) + (MAT@[104] as int) * (INV_MAT@[100] as int) + (MAT@[105] as int) * (INV_MAT@[112] as int) + (MAT@[106] as int) * (INV_MAT@[124] as int) + (MAT@[107] as int) * (INV_MAT@[136] as int)) % 340282366920938463463374557953744961537 == 0) by (nonlinear_arith)
        requires
            MAT@[96] == 3, MAT@[97] == 2, MAT@[98] == 1, MAT@[99] == 1, MAT@[100] == 3, MAT@[101] == 2, MAT@[102] == 1, MAT@[103] == 1, MAT@[104] == 6, MAT@[105] == 4, MAT@[106] == 2, MAT@[107] == 2, INV_MAT@[4] == 196877655147114396718095279958952442032, INV_MAT@[16] == 213891773493161319891264007856639690109, INV_MAT@[28] == 94792945070832857679082912572828953571, INV_MAT@[40] == 332990601915489782103445103140450426647, INV_MAT@[52] == 89931768400533736772463276030632596978, INV_MAT@[64] == 38889413362392967252957092337570852747, INV_MAT@[76] == 55903531708439890426125820235258100824, INV_MAT@[88] == 21875295016346044079788364439883604670, INV_MAT@[100] == 196877655147114396718095279958952442032, INV_MAT@[112] == 213891773493161319891264007856639690109, INV_MAT@[124] == 94792945070832857679082912572828953571, INV_MAT@[136] == 332990601915489782103445103140450426647,
    ;
    assert(product_entry(MAT@, INV_MAT@, 12, 8, 5) == (MAT@[96] as int) * (INV_MAT@[5] as int) + (MAT@[97] as int) * (INV_MAT@[17] as int) + (MAT@[98] as int) * (INV_MAT@[29] as int) + (MAT@[99] as int) * (INV_MAT@[41] as int) + (MAT@[100] as int) * (INV_MAT@[53] as int) + (MAT@[101] as int) * (INV_MAT@[65] as int) + (MAT@[102] as int) * (INV_MAT@[77] as int) + (MAT@[103] as int) * (INV_MAT@[89] as int) + (MAT@[104] as int) * (INV_MAT@[101] as int) + (MAT@[105] as int) * (INV_MAT@[113] as int) + (MAT@[106] as int) * (INV_MAT@[125] as int) + (MAT@[107] as int) * (INV_MAT@[137] as int));
    assert(((MAT@[96] as int) * (INV_MAT@[5] as int) + (MAT@[97] as int) * (INV_MAT@[17] as int) + (MAT@[98] as int) * (INV_MAT@[29] as int) + (MAT@[99] as int) * (INV_MAT@[41] as int) + (MAT@[100] as int) * (INV_MAT@[53] as int) + (MAT@[101] as int) * (INV_MAT@[65] as int) + (MAT@[102] as int) * (INV_MAT@[77] as int) + (MAT@[103] as int) * (INV_MAT@[89] as int) + (MAT@[104] as int) * (INV_MAT@[101] as int) + (MAT@[105] as int) * (INV_MAT@[113] as int) + (MAT@[106] as int) * (INV_MAT@[125] as int) + (MAT@[107] as int) * (INV_MAT@[137] as int)) % 340282366920938463463374557953744961537 == 0) by (nonlinear_arith)
        requires
            MAT@[96] == 3, MAT@[97] == 2, MAT@[98] == 1, MAT@[99] == 1, MAT@[100] == 3, MAT@[101] == 2, MAT@[102] == 1, MAT@[103] == 1, MAT@[104] == 6, MAT@[105] == 4, MAT@[106] == 2, MAT@[107] == 2, INV_MAT@[5] == 332990601915489782103445103140450426647, INV_MAT@[17] == 196877655147114396718095279958952442032, INV_MAT@[29] == 213891773493161319891264007856639690109, INV_MAT@[41] == 94792945070832857679082912572828953571, INV_MAT@[53] == 21875295016346044079788364439883604670, INV_MAT@[65] == 89931768400533736772463276030632596978, INV_MAT@[77] == 38889413362392967252957092337570852747, INV_MAT@[89] == 55903531708439890426125820235258100824, INV_MAT@[101] == 332990601915489782103445103140450426647, INV_MAT@[113] == 196877655147114396718095279958952442032, INV_MAT@[125] == 213891773493161319891264007856639690109, INV_MAT@[137] == 94792945070832857679082912572828953571,
    ;
    assert(product_entry(MAT@, INV_MAT@, 12, 8, 6) == (MAT@[96] as int) * (INV_MAT@[6] as int) + (MAT@[97] as int) * (INV_MAT@[18] as int) + (MAT@[98] as int) * (INV_MAT@[30] as int) + (MAT@[99] as int) * (INV_MAT@[42] as int) + (MAT@[100] as int) * (INV_MAT@[54] as int) + (MAT@[101] as int) * (INV_MAT@[66] as int) + (MAT@[102] as int) * (INV_MAT@[78] as int) + (MAT@[103] as int) * (INV_MAT@[90] as int) + (MAT@[104] as int) * (INV_MAT@[102] as int) + (MAT@[105] as int) * (INV_MAT@[114] as int) + (MAT@[106] as int) * (INV_MAT@[126] as int) + (MAT@[107] as int) * (INV_MAT@[138] as int));
    assert(((MAT@[96] as int) * (INV_MAT@[6] as int) + (MAT@[97] as int) * (INV_MAT@[18] as int) + (MAT@[98] as int) * (INV_MAT@[30] as int) + (MAT@[99] as int) * (INV_MAT@[42] as int) + (MAT@[100] as int) * (INV_MAT@[54] as int) + (MAT@[101] as int) * (INV_MAT@[66] as int) + (MAT@[102] as int) * (INV_MAT@[78] as int) + (MAT@[103] as int) * (INV_MAT@[90] as int) + (MAT@[104] as int) * (INV_MAT@[102] as int) + (MAT@[105] as int) * (INV_MAT@[114] as int) + (MAT@[106] as int) * (INV_MAT@[126] as int) + (MAT@[107] as int) * (INV_MAT@[138] as int)) % 340282366920938463463374557953744961537 == 0) by (nonlinear_arith)
        requires
            MAT@[96] == 3, MAT@[97] == 2, MAT@[98] == 1, MAT@[99] == 1, MAT@[100] == 3, MAT@[101] == 2, MAT@[102] == 1, MAT@[103] == 1, MAT@[104] == 6, MAT@[105] == 4, MAT@[106] == 2, MAT@[107] == 2, INV_MAT@[6] == 94792945070832857679082912572828953571, INV_MAT@[18] == 332990601915489782103445103140450426647, INV_MAT@[30] == 196877655147114396718095279958952442032, INV_MAT@[42] == 213891773493161319891264007856639690109, INV_MAT@[54] == 55903531708439890426125820235258100824, INV_MAT@[66] == 21875295016346044079788364439883604670, INV_MAT@[78] == 89931768400533736772463276030632596978, INV_MAT@[90] == 38889413362392967252957092337570852747, INV_MAT@[102] == 94792945070832857679082912572828953571, INV_MAT@[114] == 332990601915489782103445103140450426647, INV_MAT@[126] == 196877655147114396718095279958952442032, INV_MAT@[138] == 213891773493161319891264007856639690109,
    ;
    assert(product_entry(MAT@, INV_MAT@, 12, 8, 7) == (MAT@[96] as int) * (INV_MAT@[7] as int) + (MAT@[97] as int) * (INV_MAT@[19] as int) + (MAT@[98] as int) * (INV_MAT@[31] as int) + (MAT@[99] as int) * (INV_MAT@[43] as int) + (MAT@[100] as int) * (INV_MAT@[55] as int) + (MAT@[101] as int) * (INV_MAT@[67] as int) + (MAT@[102] as int) * (INV_MAT@[79] as int) + (MAT@[103] as int) * (INV_MAT@[91] as int) + (MAT@[104] as int) * (INV_MAT@[103] as int) + (MAT@[105] as int) * (INV_MAT@[115] as int) + (MAT@[106] as int) * (INV_MAT@[127] as int) + (MAT@[107] as int) * (INV_MAT@[139] as int));
    assert(((MAT@[96] as int) * (INV_MAT@[7] as int) + (MAT@[97] as int) * (INV_MAT@[19] as int) + (MAT@[98] as int) * (INV_MAT@[31] as int) + (MAT@[99] as int) * (INV_MAT@[43] as int) + (MAT@[100] as int) * (INV_MAT@[55] as int) + (MAT@[101] as int) * (INV_MAT@[67] as int) + (MAT@[102] as int) * (INV_MAT@[79] as int) + (MAT@[103] as int) * (INV_MAT@[91] as int) + (MAT@[104] as int) * (INV_MAT@[103] as int) + (MAT@[105] as int) * (INV_MAT@[115] as int) + (MAT@[106] as int) * (INV_MAT@[127] as int) + (MAT@[107] as int) * (INV_MAT@[139] as int)) % 340282366920938463463374557953744961537 == 0) by (nonlinear_arith)
        requires
            MAT@[96] == 3, MAT@[97] == 2, MAT@[98] == 1, MAT@[99] == 1, MAT@[100] == 3, MAT@[101] == 2, MAT@[102] == 1, MAT@[103] == 1, MAT@[104] == 6, MAT@[105] == 4, MAT@[106] == 2, MAT@[107] == 2, INV_MAT@[7] == 213891773493161319891264007856639690109, INV_MAT@[19] == 94792945070832857679082912572828953571, INV_MAT@[31] == 332990601915489782103445103140450426647, INV_MAT@[43] == 196877655147114396718095279958952442032, INV_MAT@[55] == 38889413362392967252957092337570852747, INV_MAT@[67] == 55903531708439890426125820235258100824, INV_MAT@[79] == 21875295016346044079788364439883604670, INV_MAT@[91] == 89931768400533736772463276030632596978, INV_MAT@[103] == 213891773493161319891264007856639690109, INV_MAT@[115] == 94792945070832857679082912572828953571, INV_MAT@[127] == 332990601915489782103445103140450426647, INV_MAT@[139] == 196877655147114396718095279958952442032,
    ;
    assert(product_entry(MAT@, INV_MAT@, 12, 8, 8) == (MAT@[96] as int) * (INV_MAT@[8] as int) + (MAT@[97] as int) * (INV_MAT@[20] as int) + (MAT@[98] as int) * (INV_MAT@[32] as int) + (MAT@[99] as int) * (INV_MAT@[44] as int) + (MAT@[100] as int) * (INV_MAT@[56] as int) + (MAT@[101] as int) * (INV_MAT@[68] as int) + (MAT@[102] as int) * (INV_MAT@[80] as int) + (MAT@[103] as int) * (INV_MAT@[92] as int) + (MAT@[104] as int) * (INV_MAT@[104] as int) + (MAT@[105] as int) * (INV_MAT@[116] as int) + (MAT@[106] as int) * (INV_MAT@[128] as int) + (MAT@[107] as int) * (INV_MAT@[140] as int));
    assert(((MAT@[96] as int) * (INV_MAT@[8] as int) + (MAT@[97] as int) * (INV_MAT@[20] as int) + (MAT@[98] as int) * (INV_MAT@[32] as int) + (MAT@[99] as int) * (INV_MAT@[44] as int) + (MAT@[100] as int) * (INV_MAT@[56] as int) + (MAT@[101] as int) * (INV_MAT@[68] as int) + (MAT@[102] as int) * (INV_MAT@[80] as int) + (MAT@[103] as int) * (INV_MAT@[92] as int) + (MAT@[104] as int) * (INV_MAT@[104] as int) + (MAT@[105] as int) * (INV_MAT@[116] as int) + (MAT@[106] as int) * (INV_MAT@[128] as int) + (MAT@[107] as int) * (INV_MAT@[140] as int)) % 340282366920938463463374557953744961537 == 1) by (nonlinear_arith)
        requires
            MAT@[96] == 3, MAT@[97] == 2, MAT@[98] == 1, MAT@[99] == 1, MAT@[100] == 3, MAT@[101] == 2, MAT@[102] == 1, MAT@[103] == 1, MAT@[104] == 6, MAT@[105] == 4, MAT@[106] == 2, MAT@[107] == 2, INV_MAT@[8] == 196877655147114396718095279958952442032, INV_MAT@[20] == 213891773493161319891264007856639690109, INV_MAT@[32] == 94792945070832857679082912572828953571, INV_MAT@[44] == 332990601915489782103445103140450426647, INV_MAT@[56] == 196877655147114396718095279958952442032, INV_MAT@[68] == 213891773493161319891264007856639690109, INV_MAT@[80] == 94792945070832857679082912572828953571, INV_MAT@[92] == 332990601915489782103445103140450426647, INV_MAT@[104] == 89931768400533736772463276030632596978, INV_MAT@[116] == 38889413362392967252957092337570852747, INV_MAT@[128] == 55903531708439890426125820235258100824, INV_MAT@[140] == 21875295016346044079788364439883604670,
    ;
    assert(product_entry(MAT@, INV_MAT@, 12, 8, 9) == (MAT@[96] as int) * (INV_MAT@[9] as int) + (MAT@[97] as int) * (INV_MAT@[21] as int) + (MAT@[98] as int) * (INV_MAT@[33] as int) + (MAT@[99] as int) * (INV_MAT@[45] as int) + (MAT@[100] as int) * (INV_MAT@[57] as int) + (MAT@[101] as int) * (INV_MAT@[69] as int) + (MAT@[102] as int) * (INV_MAT@[81] as int) + (MAT@[103] as int) * (INV_MAT@[93] as int) + (MAT@[104] as int) * (INV_MAT@[105] as int) + (MAT@[105] as int) * (INV_MAT@[117] as int) + (MAT@[106] as int) * (INV_MAT@[129] as int) + (MAT@[107] as int) * (INV_MAT@[141] as int));
    assert(((MAT@[96] as int) * (INV_MAT@[9] as int) + (MAT@[97] as int) * (INV_MAT@[21] as int) + (MAT@[98] as int) * (INV_MAT@[33] as int) + (MAT@[99] as int) * (INV_MAT@[45] as int) + (MAT@[100] as int) * (INV_MAT@[57] as int) + (MAT@[101] as int) * (INV_MAT@[69] as int) + (MAT@[102] as int) * (INV_MAT@[81] as int) + (MAT@[103] as int) * (INV_MAT@[93] as int) + (MAT@[104] as int) * (INV_MAT@[105] as int) + (MAT@[105] as int) * (INV_MAT@[117] as int) + (MAT@[106] as int) * (INV_MAT@[129] as int) + (MAT@[107] as int) * (INV_MAT@[141] as int)) % 340282366920938463463374557953744961537 == 0) by (nonlinear_arith)
        requires
            MAT@[96] == 3, MAT@[97] == 2, MAT@[98] == 1, MAT@[99] == 1, MAT@[100] == 3, MAT@[101] == 2, MAT@[102] == 1, MAT@[103] == 1, MAT@[104] == 6, MAT@[105] == 4, MAT@[106] == 2, MAT@[107] == 2, INV_MAT@[9] == 332990601915489782103445103140450426647, INV_MAT@[21] == 196877655147114396718095279958952442032, INV_MAT@[33] == 213891773493161319891264007856639690109, INV_MAT@[45] == 94792945070832857679082912572828953571, INV_MAT@[57] == 332990601915489782103445103140450426647, INV_MAT@[69] == 196877655147114396718095279958952442032, INV_MAT@[81] == 213891773493161319891264007856639690109, INV_MAT@[93] == 94792945070832857679082912572828953571, INV_MAT@[105] == 21875295016346044079788364439883604670, INV_MAT@[117] == 89931768400533736772463276030632596978, INV_MAT@[129] == 38889413362392967252957092337570852747, INV_MAT@[141] == 55903531708439890426125820235258100824,
    ;
    assert(product_entry(MAT@, INV_MAT@, 12, 8, 10) == (MAT@[96] as int) * (INV_MAT@[10] as int) + (MAT@[97] as int) * (INV_MAT@[22] as int) + (MAT@[98] as int) * (INV_MAT@[34] as int) + (MAT@[99] as int) * (INV_MAT@[46] as int) + (MAT@[100] as int) * (INV_MAT@[58] as int) + (MAT@[101] as int) * (INV_MAT@[70] as int) + (MAT@[102] as int) * (INV_MAT@[82] as int) + (MAT@[103] as int) * (INV_MAT@[94] as int) + (MAT@[104] as int) * (INV_MAT@[106] as int) + (MAT@[105] as int) * (INV_MAT@[118] as int) + (MAT@[106] as int) * (INV_MAT@[130] as int) + (MAT@[107] as int) * (INV_MAT@[142] as int));
    assert(((MAT@[96] as int) * (INV_MAT@[10] as int) + (MAT@[97] as int) * (INV_MAT@[22] as int) + (MAT@[98] as int) * (INV_MAT@[34] as int) + (MAT@[99] as int) * (INV_MAT@[46] as int) + (MAT@[100] as int) * (INV_MAT@[58] as int) + (MAT@[101] as int) * (INV_MAT@[70] as int) + (MAT@[102] as int) * (INV_MAT@[82] as int) + (MAT@[103] as int) * (INV_MAT@[94] as int) + (MAT@[104] as int) * (INV_MAT@[106] as int) + (MAT@[105] as int) * (INV_MAT@[118] as int) + (MAT@[106] as int) * (INV_MAT@[130] as int) + (MAT@[107] as int) * (INV_MAT@[142] as int)) % 340282366920938463463374557953744961537 == 0) by (nonlinear_arith)
        requires
            MAT@[96] == 3, MAT@[97] == 2, MAT@[98] == 1, MAT@[99] == 1, MAT@[100] == 3, MAT@[101] == 2, MAT@[102] == 1, MAT@[103] == 1, MAT@[104] == 6, MAT@[105] == 4, MAT@[106] == 2, MAT@[107] == 2, INV_MAT@[10] == 94792945070832857679082912572828953571, INV_MAT@[22] == 332990601915489782103445103140450426647, INV_MAT@[34] == 196877655147114396718095279958952442032, INV_MAT@[46] == 213891773493161319891264007856639690109, INV_MAT@[58] == 94792945070832857679082912572828953571, INV_MAT@[70] == 332990601915489782103445103140450426647, INV_MAT@[82] == 196877655147114396718095279958952442032, INV_MAT@[94] == 213891773493161319891264007856639690109, INV_MAT@[106] == 55903531708439890426125820235258100824, INV_MAT@[118] == 21875295016346044079788364439883604670, INV_MAT@[130] == 89931768400533736772463276030632596978, INV_MAT@[142] == 38889413362392967252957092337570852747,
    ;
    assert(product_entry(MAT@, INV_MAT@, 12, 8, 11) == (MAT@[96] as int) * (INV_MAT@[11] as int) + (MAT@[97] as int) * (INV_MAT@[23] as int) + (MAT@[98] as int) * (INV_MAT@[35] as int) + (MAT@[99] as int) * (INV_MAT@[47] as int) + (MAT@[100] as int) * (INV_MAT@[59] as int) + (MAT@[101] as int) * (INV_MAT@[71] as int) + (MAT@[102] as int) * (INV_MAT@[83] as int) + (MAT@[103] as int) * (INV_MAT@[95] as int) + (MAT@[104] as int) * (INV_MAT@[107] as int) + (MAT@[105] as int) * (INV_MAT@[119] as int) + (MAT@[106] as int) * (INV_MAT@[131] as int) + (MAT@[107] as int) * (INV_MAT@[143] as int));
    assert(((MAT@[96] as int) * (INV_MAT@[11] as int) + (MAT@[97] as int) * (INV_MAT@[23] as int) + (MAT@[98] as int) * (INV_MAT@[35] as int) + (MAT@[99] as int) * (INV_MAT@[47] as int) + (MAT@[100] as int) * (INV_MAT@[59] as int) + (MAT@[101] as int) * (INV_MAT@[71] as int) + (MAT@[102] as int) * (INV_MAT@[83] as int) + (MAT@[103] as int) * (INV_MAT@[95] as int) + (MAT@[104] as int) * (INV_MAT@[107] as int) + (MAT@[105] as int) * (INV_MAT@[119] as int) + (MAT@[106] as int) * (INV_MAT@[131] as int) + (MAT@[107] as int) * (INV_MAT@[143] as int)) % 340282366920938463463374557953744961537 == 0) by (nonlinear_arith)
        requires
            MAT@[96] == 3, MAT@[97] == 2, MAT@[98] == 1, MAT@[99] == 1, MAT@[100] == 3, MAT@[101] == 2, MAT@[102] == 1, MAT@[103] == 1, MAT@[104] == 6, MAT@[105] == 4, MAT@[106] == 2, MAT@[107] == 2, INV_MAT@[11] == 213891773493161319891264007856639690109, INV_MAT@[23] == 94792945070832857679082912572828953571, INV_MAT@[35] == 332990601915489782103445103140450426647, INV_MAT@[47] == 196877655147114396718095279958952442032, INV_MAT@[59] == 213891773493161319891264007856639690109, INV_MAT@[71] == 94792945070832857679082912572828953571, INV_MAT@[83] == 332990601915489782103445103140450426647, INV_MAT@[95] == 196877655147114396718095279958952442032, INV_MAT@[107] == 38889413362392967252957092337570852747, INV_MAT@[119] == 55903531708439890426125820235258100824, INV_MAT@[131] == 21875295016346044079788364439883604670, INV_MAT@[143] == 89931768400533736772463276030632596978,
    ;
}

proof fn lemma_product_forward_row_9()
    ensures
        identity_row(Elem::modulus(), MAT@, INV_MAT@, 12, 9, 12),
{
    reveal_with_fuel(sum, 13);
    reveal_with_fuel(identity_row, 13);
    assert(product_entry(MAT@, INV_MAT@, 12, 9, 0) == (MAT@[108] as int) * (INV_MAT@[0] as int) + (MAT@[109] as int) * (INV_MAT@[12] as int) + (MAT@[110] as int) * (INV_MAT@[24] as int) + (MAT@[111] as int) * (INV_MAT@[36] as int) + (MAT@[112] as int) * (INV_MAT@[48] as int) + (MAT@[113] as int) * (INV_MAT@[60] as int) + (MAT@[114] as int) * (INV_MAT@[72] as int) + (MAT@[115] as int) * (INV_MAT@[84] as int) + (MAT@[116] as int) * (INV_MAT@[96] as int) + (MAT@[117] as int) * (INV_MAT@[108] as int) + (MAT@[118] as int) * (INV_MAT@[120] as int) + (MAT@[119] as int) * (INV_MAT@[132] as int));
    assert(((MAT@[108] as int) * (INV_MAT@[0] as int) + (MAT@[109] as int) * (INV_MAT@[12] as int) + (MAT@[110] as int) * (INV_MAT@[24] as int) + (MAT@[111] as int) * (INV_MAT@[36] as int) + (MAT@[112] as int) * (INV_MAT@[48] as int) + (MAT@[113] as int) * (INV_MAT@[60] as int) + (MAT@[114] as int) * (INV_MAT@[72] as int) + (MAT@[115] as int) * (INV_MAT@[84] as int) + (MAT@[116] as int) * (INV_MAT@[96] as int) + (MAT@[117] as int) * (INV_MAT@[108] as int) + (MAT@[118] as int) * (INV_MAT@[120] as int) + (MAT@[119] as int) * (INV_MAT@[132] as int)) % 340282366920938463463374557953744961537 == 0) by (nonlinear_arith)
        requires
            MAT@[108] == 1, MAT@[109] == 3, MAT@[110] == 2, MAT@[111] == 1, MAT@[112] == 1, MAT@[113] == 3, MAT@[114] == 2, MAT@[115] == 1, MAT@[116] == 2, MAT@[117] == 6, MAT@[118] == 4, MAT@[119] == 2, INV_MAT@[0] == 89931768400533736772463276030632596978, INV_MAT@[12] == 38889413362392967252957092337570852747, INV_MAT@[24] == 55903531708439890426125820235258100824, INV_MAT@[36] == 21875295016346044079788364439883604670, INV_MAT@[48] == 196877655147114396718095279958952442032, INV_MAT@[60] == 213891773493161319891264007856639690109, INV_MAT@[72] == 94792945070832857679082912572828953571, INV_MAT@[84] == 332990601915489782103445103140450426647, INV_MAT@[96] == 196877655147114396718095279958952442032, INV_MAT@[108] == 213891773493161319891264007856639690109, INV_MAT@[120] == 94792945070832857679082912572828953571, INV_MAT@[132] == 332990601915489782103445103140450426647,
    ;
    assert(product_entry(MAT@, INV_MAT@, 12, 9, 1) == (MAT@[108] as int) * (INV_MAT@[1] as int) + (MAT@[109] as int) * (INV_MAT@[13] as int) + (MAT@[110] as int) * (INV_MAT@[25] as int) + (MAT@[111] as int) * (INV_MAT@[37] as int) + (MAT@[112] as int) * (INV_MAT@[49] as int) + (MAT@[113] as int) * (INV_MAT@[61] as int) + (MAT@[114] as int) * (INV_MAT@[73] as int) + (MAT@[115] as int) * (INV_MAT@[85] as int) + (MAT@[116] as int) * (INV_MAT@[97] as int) + (MAT@[117] as int) * (INV_MAT@[109] as int) + (MAT@[118] as int) * (INV_MAT@[121] as int) + (MAT@[119] as int) * (INV_MAT@[133] as int));
    assert(((MAT@[108] as int) * (INV_MAT@[1] as int) + (MAT@[109] as int) * (INV_MAT@[13] as int) + (MAT@[110] as int) * (INV_MAT@[25] as int) + (MAT@[111] as int) * (INV_MAT@[37] as int) + (MAT@[112] as int) * (INV_MAT@[49] as int) + (MAT@[113] as int) * (INV_MAT@[61] as int) + (MAT@[114] as int) * (INV_MAT@[73] as int) + (MAT@[115] as int) * (INV_MAT@[85] as int) + (MAT@[116] as int) * (INV_MAT@[97] as int) + (MAT@[117] as int) * (INV_MAT@[109] as int) + (MAT@[118] as int) * (INV_MAT@[121] as int) + (MAT@[119] as int) * (INV_MAT@[133] as int)) % 340282366920938463463374557953744961537 == 0) by (nonlinear_arith)
        requires
            MAT@[108] == 1, MAT@[109] == 3, MAT@[110] == 2, MAT@[111] == 1, MAT@[112] == 1, MAT@[113] == 3, MAT@[114] == 2, MAT@[115] == 1, MAT@[116] == 2, MAT@[117] == 6, MAT@[118] == 4, MAT@[119] == 2, INV_MAT@[1] == 21875295016346044079788364439883604670, INV_MAT@[13] == 89931768400533736772463276030632596978, INV_MAT@[25] == 38889413362392967252957092337570852747, INV_MAT@[37] == 55903531708439890426125820235258100824, INV_MAT@[49] == 332990601915489782103445103140450426647, INV_MAT@[61] == 196877655147114396718095279958952442032, INV_MAT@[73] == 213891773493161319891264007856639690109, INV_MAT@[85] == 94792945070832857679082912572828953571, INV_MAT@[97] == 332990601915489782103445103140450426647, INV_MAT@[109] == 196877655147114396718095279958952442032, INV_MAT@[121] == 213891773493161319891264007856639690109, INV_MAT@[133] == 94792945070832857679082912572828953571,
    ;
    assert(product_entry(MAT@, INV_MAT@, 12, 9, 2) == (MAT@[108] as int) * (INV_MAT@[2] as int) + (MAT@[109] as int) * (INV_MAT@[14] as int) + (MAT@[110] as int) * (INV_MAT@[26] as int) + (MAT@[111] as int) * (INV_MAT@[38] as int) + (MAT@[112] as int) * (INV_MAT@[50] as int) + (MAT@[113] as int) * (INV_MAT@[62] as int) + (MAT@[114] as int) * (INV_MAT@[74] as int) + (MAT@[115] as int) * (INV_MAT@[86] as int) + (MAT@[116] as int) * (INV_MAT@[98] as int) + (MAT@[117] as int) * (INV_MAT@[110] as int) + (MAT@[118] as int) * (INV_MAT@[122] as int) + (MAT@[119] as int) * (INV_MAT@[134] as int));
    assert(((MAT@[108] as int) * (INV_MAT@[2] as int) + (MAT@[109] as int) * (INV_MAT@[14] as int) + (MAT@[110] as int) * (INV_MAT@[26] as int) + (MAT@[111] as int) * (INV_MAT@[38] as int) + (MAT@[112] as int) * (INV_MAT@[50] as int) + (MAT@[113] as int) * (INV_MAT@[62] as int) + (MAT@[114] as int) * (INV_MAT@[74] as int) + (MAT@[115] as int) * (INV_MAT@[86] as int) + (MAT@[116] as int) * (INV_MAT@[98] as int) + (MAT@[117] as int) * (INV_MAT@[110] as int) + (MAT@[118] as int) * (INV_MAT@[122] as int) + (MAT@[119] as int) * (INV_MAT@[134] as int)) % 340282366920938463463374557953744961537 == 0) by (nonlinear_arith)
        requires
            MAT@[108] == 1, MAT@[109] == 3, MAT@[110] == 2, MAT@[111] == 1, MAT@[112] == 1, MAT@[113] == 3, MAT@[114] == 2, MAT@[115] == 1, MAT@[116] == 2, MAT@[117] == 6, MAT@[118] == 4, MAT@[119] == 2, INV_MAT@[2] == 55903531708439890426125820235258100824, INV_MAT@[14] == 21875295016346044079788364439883604670, INV_MAT@[26] == 89931768400533736772463276030632596978, INV_MAT@[38] == 38889413362392967252957092337570852747, INV_MAT@[50] == 94792945070832857679082912572828953571, INV_MAT@[62] == 332990601915489782103445103140450426647, INV_MAT@[74] == 196877655147114396718095279958952442032, INV_MAT@[86] == 213891773493161319891264007856639690109, INV_MAT@[98] == 94792945070832857679082912572828953571, INV_MAT@[110] == 332990601915489782103445103140450426647, INV_MAT@[122] == 196877655147114396718095279958952442032, INV_MAT@[134] == 213891773493161319891264007856639690109,
    ;
    assert(product_entry(MAT@, INV_MAT@, 12, 9, 3) == (MAT@[108] as int) * (INV_MAT@[3] as int) + (MAT@[109] as int) * (INV_MAT@[15] as int) + (MAT@[110] as int) * (INV_MAT@[27] as int) + (MAT@[111] as int) * (INV_MAT@[39] as int) + (MAT@[112] as int) * (INV_MAT@[51] as int) + (MAT@[113] as int) * (INV_MAT@[63] as int) + (MAT@[114] as int) * (INV_MAT@[75] as int) + (MAT@[115] as int) * (INV_MAT@[87] as int) + (MAT@[116] as int) * (INV_MAT@[99] as int) + (MAT@[117] as int) * (INV_MAT@[111] as int) + (MAT@[118] as int) * (INV_MAT@[123] as int) + (MAT@[119] as int) * (INV_MAT@[135] as int));
    assert(((MAT@[108] as int) * (INV_MAT@[3] as int) + (MAT@[109] as int) * (INV_MAT@[15] as int) + (MAT@[110] as int) * (INV_MAT@[27] as int) + (MAT@[111] as int) * (INV_MAT@[39] as int) + (MAT@[112] as int) * (INV_MAT@[51] as int) + (MAT@[113] as int) * (INV_MAT@[63] as int) + (MAT@[114] as int) * (INV_MAT@[75] as int) + (MAT@[115] as int) * (INV_MAT@[87] as int) + (MAT@[116] as int) * (INV_MAT@[99] as int) + (MAT@[117] as int) * (INV_MAT@[111] as int) + (MAT@[118] as int) * (INV_MAT@[123] as int) + (MAT@[119] as int) * (INV_MAT@[135] as int)) % 340282366920938463463374557953744961537 == 0) by (nonlinear_arith)
        requires
            MAT@[108] == 1, MAT@[109] == 3, MAT@[110] == 2, MAT@[111] == 1, MAT@[112] == 1, MAT@[113] == 3, MAT@[114] == 2, MAT@[115] == 1, MAT@[116] == 2, MAT@[117] == 6, MAT@[118] == 4, MAT@[119] == 2, INV_MAT@[3] == 38889413362392967252957092337570852747, INV_MAT@[15] == 55903531708439890426125820235258100824, INV_MAT@[27] == 21875295016346044079788364439883604670, INV_MAT@[39] == 89931768400533736772463276030632596978, INV_MAT@[51] == 213891773493161319891264007856639690109, INV_MAT@[63] == 94792945070832857679082912572828953571, INV_MAT@[75] == 332990601915489782103445103140450426647, INV_MAT@[87] == 196877655147114396718095279958952442032, INV_MAT@[99] == 213891773493161319891264007856639690109, INV_MAT@[111] == 94792945070832857679082912572828953571, INV_MAT@[123] == 332990601915489782103445103140450426647, INV_MAT@[135] == 196877655147114396718095279958952442032,
    ;
    assert(product_entry(MAT@, INV_MAT@, 12, 9, 4) == (MAT@[108] as int) * (INV_MAT@[4] as int) + (MAT@[109] as int) * (INV_MAT@[16] as int) + (MAT@[110] as int) * (INV_MAT@[28] as int) + (MAT@[111] as int) * (INV_MAT@[40] as int) + (MAT@[112] as int) * (INV_MAT@[52] as int) + (MAT@[113] as int) * (INV_MAT@[64] as int) + (MAT@[114] as int) * (INV_MAT@[76] as int) + (MAT@[115] as int) * (INV_MAT@[88] as int) + (MAT@[116] as int) * (INV_MAT@[100] as int) + (MAT@[117] as int) * (INV_MAT@[112] as int) + (MAT@[118] as int) * (INV_MAT@[124] as int) + (MAT@[119] as int) * (INV_MAT@[136] as int));
    assert(((MAT@[108] as int) * (INV_MAT@[4] as int) + (MAT@[109] as int) * (INV_MAT@[16] as int) + (MAT@[110] as int) * (INV_MAT@[28] as int) + (MAT@[111] as int) * (INV_MAT@[40] as int) + (MAT@[112] as int) * (INV_MAT@[52] as int) + (MAT@[113] as int) * (INV_MAT@[64] as int) + (MAT@[114] as int) * (INV_MAT@[76] as int) + (MAT@[115] as int) * (INV_MAT@[88] as int) + (MAT@[116] as int) * (INV_MAT@[100] as int) + (MAT@[117] as int) * (INV_MAT@[112] as int) + (MAT@[118] as int) * (INV_MAT@[124] as int) + (MAT@[119] as int) * (INV_MAT@[136] as int)) % 340282366920938463463374557953744961537 == 0) by (nonlinear_arith)
        requires
            MAT@[108] == 1, MAT@[109] == 3, MAT@[110] == 2, MAT@[111] == 1, MAT@[112] == 1, MAT@[113] == 3, MAT@[114] == 2, MAT@[115] == 1, MAT@[116] == 2, MAT@[117] == 6, MAT@[118] == 4, MAT@[119] == 2, INV_MAT@[4] == 196877655147114396718095279958952442032, INV_MAT@[16] == 213891773493161319891264007856639690109, INV_MAT@[28] == 94792945070832857679082912572828953571, INV_MAT@[40] == 332990601915489782103445103140450426647, INV_MAT@[52] == 89931768400533736772463276030632596978, INV_MAT@[64] == 38889413362392967252957092337570852747, INV_MAT@[76] == 55903531708439890426125820235258100824, INV_MAT@[88] == 21875295016346044079788364439883604670, INV_MAT@[100] == 196877655147114396718095279958952442032, INV_MAT@[112] == 213891773493161319891264007856639690109, INV_MAT@[124] == 94792945070832857679082912572828953571, INV_MAT@[136] == 332990601915489782103445103140450426647,
    ;
    assert(product_entry(MAT@, INV_MAT@, 12, 9, 5) == (MAT@[108] as int) * (INV_MAT@[5] as int) + (MAT@[109] as int) * (INV_MAT@[17] as int) + (MAT@[110] as int) * (INV_MAT@[29] as int) + (MAT@[111] as int) * (INV_MAT@[41] as int) + (MAT@[112] as int) * (INV_MAT@[53] as int) + (MAT@[113] as int) * (INV_MAT@[65] as int) + (MAT@[114] as int) * (INV_MAT@[77] as int) + (MAT@[115] as int) * (INV_MAT@[89] as int) + (MAT@[116] as int) * (INV_MAT@[101] as int) + (MAT@[117] as int) * (INV_MAT@[113] as int) + (MAT@[118] as int) * (INV_MAT@[125] as int) + (MAT@[119] as int) * (INV_MAT@[137] as int));
    assert(((MAT@[108] as int) * (INV_MAT@[5] as int) + (MAT@[109] as int) * (INV_MAT@[17] as int) + (MAT@[110] as int) * (INV_MAT@[29] as int) + (MAT@[111] as int) * (INV_MAT@[41] as int) + (MAT@[112] as int) * (INV_MAT@[53] as int) + (MAT@[113] as int) * (INV_MAT@[65] as int) + (MAT@[114] as int) * (INV_MAT@[77] as int) + (MAT@[115] as int) * (INV_MAT@[89] as int) + (MAT@[116] as int) * (INV_MAT@[101] as int) + (MAT@[117] as int) * (INV_MAT@[113] as int) + (MAT@[118] as int) * (INV_MAT@[125] as int) + (MAT@[119] as int) * (INV_MAT@[137] as int)) % 340282366920938463463374557953744961537 == 0) by (nonlinear_arith)
        requires
            MAT@[108] == 1, MAT@[109] == 3, MAT@[110] == 2, MAT@[111] == 1, MAT@[112] == 1, MAT@[113] == 3, MAT@[114] == 2, MAT@[115] == 1, MAT@[116] == 2, MAT@[117] == 6, MAT@[118] == 4, MAT@[119] == 2, INV_MAT@[5] == 332990601915489782103445103140450426647, INV_MAT@[17] == 196877655147114396718095279958952442032, INV_MAT@[29] == 213891773493161319891264007856639690109, INV_MAT@[41] == 94792945070832857679082912572828953571, INV_MAT@[53] == 21875295016346044079788364439883604670, INV_MAT@[65] == 89931768400533736772463276030632596978, INV_MAT@[77] == 38889413362392967252957092337570852747, INV_MAT@[89] == 55903531708439890426125820235258100824, INV_MAT@[101] == 332990601915489782103445103140450426647, INV_MAT@[113] == 196877655147114396718095279958952442032, INV_MAT@[125] == 213891773493161319891264007856639690109, INV_MAT@[137] == 94792945070832857679082912572828953571,
    ;
    assert(product_entry(MAT@, INV_MAT@, 12, 9, 6) == (MAT@[108] as int) * (INV_MAT@[6] as int) + (MAT@[109] as int) * (INV_MAT@[18] as int) + (MAT@[110] as int) * (INV_MAT@[30] as int) + (MAT@[111] as int) * (INV_MAT@[42] as int) + (MAT@[112] as int) * (INV_MAT@[54] as int) + (MAT@[113] as int) * (INV_MAT@[66] as int) + (MAT@[114] as int) * (INV_MAT@[78] as int) + (MAT@[115] as int) * (INV_MAT@[90] as int) + (MAT@[116] as int) * (INV_MAT@[102] as int) + (MAT@[117] as int) * (INV_MAT@[114] as int) + (MAT@[118] as int) * (INV_MAT@[126] as int) + (MAT@[119] as int) * (INV_MAT@[138] as int));
    assert(((MAT@[108] as int) * (INV_MAT@[6] as int) + (MAT@[109] as int) * (INV_MAT@[18] as int) + (MAT@[110] as int) * (INV_MAT@[30] as int) + (MAT@[111] as int) * (INV_MAT@[42] as int) + (MAT@[112] as int) * (INV_MAT@[54] as int) + (MAT@[113] as int) * (INV_MAT@[66] as int) + (MAT@[114] as int) * (INV_MAT@[78] as int) + (MAT@[115] as int) * (INV_MAT@[90] as int) + (MAT@[116] as int) * (INV_MAT@[102] as int) + (MAT@[117] as int) * (INV_MAT@[114] as int) + (MAT@[118] as int) * (INV_MAT@[126] as int) + (MAT@[119] as int) * (INV_MAT@[138] as int)) % 340282366920938463463374557953744961537 == 0) by (nonlinear_arith)
        requires
            MAT@[108] == 1, MAT@[109] == 3, MAT@[110] == 2, MAT@[111] == 1, MAT@[112] == 1, MAT@[113] == 3, MAT@[114] == 2, MAT@[115] == 1, MAT@[116] == 2, MAT@[117] == 6, MAT@[118] == 4, MAT@[119] == 2, INV_MAT@[6] == 94792945070832857679082912572828953571, INV_MAT@[18] == 332990601915489782103445103140450426647, INV_MAT@[30] == 196877655147114396718095279958952442032, INV_MAT@[42] == 213891773493161319891264007856639690109, INV_MAT@[54] == 55903531708439890426125820235258100824, INV_MAT@[66] == 21875295016346044079788364439883604670, INV_MAT@[78] == 89931768400533736772463276030632596978, INV_MAT@[90] == 38889413362392967252957092337570852747, INV_MAT@[102] == 94792945070832857679082912572828953571, INV_MAT@[114] == 332990601915489782103445103140450426647, INV_MAT@[126] == 196877655147114396718095279958952442032, INV_MAT@[138] == 213891773493161319891264007856639690109,
    ;
    assert(product_entry(MAT@, INV_MAT@, 12, 9, 7) == (MAT@[108] as int) * (INV_MAT@[7] as int) + (MAT@[109] as int) * (INV_MAT@[19] as int) + (MAT@[110] as int) * (INV_MAT@[31] as int) + (MAT@[111] as int) * (INV_MAT@[43] as int) + (MAT@[112] as int) * (INV_MAT@[55] as int) + (MAT@[113] as int) * (INV_MAT@[67] as int) + (MAT@[114] as int) * (INV_MAT@[79] as int) + (MAT@[115] as int) * (INV_MAT@[91] as int) + (MAT@[116] as int) * (INV_MAT@[103] as int) + (MAT@[117] as int) * (INV_MAT@[115] as int) + (MAT@[118] as int) * (INV_MAT@[127] as int) + (MAT@[119] as int) * (INV_MAT@[139] as int));
    assert(((MAT@[108] as int) * (INV_MAT@[7] as int) + (MAT@[109] as int) * (INV_MAT@[19] as int) + (MAT@[110] as int) * (INV_MAT@[31] as int) + (MAT@[111] as int) * (INV_MAT@[43] as int) + (MAT@[112] as int) * (INV_MAT@[55] as int) + (MAT@[113] as int) * (INV_MAT@[67] as int) + (MAT@[114] as int) * (INV_MAT@[79] as int) + (MAT@[115] as int) * (INV_MAT@[91] as int) + (MAT@[116] as int) * (INV_MAT@[103] as int) + (MAT@[117] as int) * (INV_MAT@[115] as int) + (MAT@[118] as int) * (INV_MAT@[127] as int) + (MAT@[119] as int) * (INV_MAT@[139] as int)) % 340282366920938463463374557953744961537 == 0) by (nonlinear_arith)
        requires
            MAT@[108] == 1, MAT@[109] == 3, MAT@[110] == 2, MAT@[111] == 1, MAT@[112] == 1, MAT@[113] == 3, MAT@[114] == 2, MAT@[115] == 1, MAT@[116] == 2, MAT@[117] == 6, MAT@[118] == 4, MAT@[119] == 2, INV_MAT@[7] == 213891773493161319891264007856639690109, INV_MAT@[19] == 94792945070832857679082912572828953571, INV_MAT@[31] == 332990601915489782103445103140450426647, INV_MAT@[43] == 196877655147114396718095279958952442032, INV_MAT@[55] == 38889413362392967252957092337570852747, INV_MAT@[67] == 55903531708439890426125820235258100824, INV_MAT@[79] == 21875295016346044079788364439883604670, INV_MAT@[91] == 89931768400533736772463276030632596978, INV_MAT@[103] == 213891773493161319891264007856639690109, INV_MAT@[115] == 94792945070832857679082912572828953571, INV_MAT@[127] == 332990601915489782103445103140450426647, INV_MAT@[139] == 196877655147114396718095279958952442032,
    ;
    assert(product_entry(MAT@, INV_MAT@, 12, 9, 8) == (MAT@[108] as int) * (INV_MAT@[8] as int) + (MAT@[109] as int) * (INV_MAT@[20] as int) + (MAT@[110] as int) * (INV_MAT@[32] as int) + (MAT@[111] as int) * (INV_MAT@[44] as int) + (MAT@[112] as int) * (INV_MAT@[56] as int) + (MAT@[113] as int) * (INV_MAT@[68] as int) + (MAT@[114] as int) * (INV_MAT@[80] as int) + (MAT@[115] as int) * (INV_MAT@[92] as int) + (MAT@[116] as int) * (INV_MAT@[104] as int) + (MAT@[117] as int) * (INV_MAT@[116] as int) + (MAT@[118] as int) * (INV_MAT@[128] as int) + (MAT@[119] as int) * (INV_MAT@[140] as int));
    assert(((MAT@[108] as int) * (INV_MAT@[8] as int) + (MAT@[109] as int) * (INV_MAT@[20] as int) + (MAT@[110] as int) * (INV_MAT@[32] as int) + (MAT@[111] as int) * (INV_MAT@[44] as int) + (MAT@[112] as int) * (INV_MAT@[56] as int) + (MAT@[113] as int) * (INV_MAT@[68] as int) + (MAT@[114] as int) * (INV_MAT@[80] as int) + (MAT@[115] as int) * (INV_MAT@[92] as int) + (MAT@[116] as int) * (INV_MAT@[104] as int) + (MAT@[117] as int) * (INV_MAT@[116] as int) + (MAT@[118] as int) * (INV_MAT@[128] as int) + (MAT@[119] as int) * (INV_MAT@[140] as int)) % 340282366920938463463374557953744961537 == 0) by (nonlinear_arith)
        requires
            MAT@[108] == 1, MAT@[109] == 3, MAT@[110] == 2, MAT@[111] == 1, MAT@[112] == 1, MAT@[113] == 3, MAT@[114] == 2, MAT@[115] == 1, MAT@[116] == 2, MAT@[117] == 6, MAT@[118] == 4, MAT@[119] == 2, INV_MAT@[8] == 196877655147114396718095279958952442032, INV_MAT@[20] == 213891773493161319891264007856639690109, INV_MAT@[32] == 94792945070832857679082912572828953571, INV_MAT@[44] == 332990601915489782103445103140450426647, INV_MAT@[56] == 196877655147114396718095279958952442032, INV_MAT@[68] == 213891773493161319891264007856639690109, INV_MAT@[80] == 94792945070832857679082912572828953571, INV_MAT@[92] == 332990601915489782103445103140450426647, INV_MAT@[104] == 89931768400533736772463276030632596978, INV_MAT@[116] == 38889413362392967252957092337570852747, INV_MAT@[128] == 55903531708439890426125820235258100824, INV_MAT@[140] == 21875295016346044079788364439883604670,
    ;
    assert(product_entry(MAT@, INV_MAT@, 12, 9, 9) == (MAT@[108] as int) * (INV_MAT@[9] as int) + (MAT@[109] as int) * (INV_MAT@[21] as int) + (MAT@[110] as int) * (INV_MAT@[33] as int) + (MAT@[111] as int) * (INV_MAT@[45] as int) + (MAT@[112] as int) * (INV_MAT@[57] as int) + (MAT@[113] as int) * (INV_MAT@[69] as int) + (MAT@[114] as int) * (INV_MAT@[81] as int) + (MAT@[115] as int) * (INV_MAT@[93] as int) + (MAT@[116] as int) * (INV_MAT@[105] as int) + (MAT@[117] as int) * (INV_MAT@[117] as int) + (MAT@[118] as int) * (INV_MAT@[129] as int) + (MAT@[119] as int) * (INV_MAT@[141] as int));
    assert(((MAT@[108] as int) * (INV_MAT@[9] as int) + (MAT@[109] as int) * (INV_MAT@[21] as int) + (MAT@[110] as int) * (INV_MAT@[33] as int) + (MAT@[111] as int) * (INV_MAT@[45] as int) + (MAT@[112] as int) * (INV_MAT@[57] as int) + (MAT@[113] as int) * (INV_MAT@[69] as int) + (MAT@[114] as int) * (INV_MAT@[81] as int) + (MAT@[115] as int) * (INV_MAT@[93] as int) + (MAT@[116] as int) * (INV_MAT@[105] as int) + (MAT@[117] as int) * (INV_MAT@[117] as int) + (MAT@[118] as int) * (INV_MAT@[129] as int) + (MAT@[119] as int) * (INV_MAT@[141] as int)) % 340282366920938463463374557953744961537 == 1) by (nonlinear_arith)
        requires
            MAT@[108] == 1, MAT@[109] == 3, MAT@[110] == 2, MAT@[111] == 1, MAT@[112] == 1, MAT@[113] == 3, MAT@[114] == 2, MAT@[115] == 1, MAT@[116] == 2, MAT@[117] == 6, MAT@[118] == 4, MAT@[119] == 2, INV_MAT@[9] == 332990601915489782103445103140450426647, INV_MAT@[21] == 196877655147114396718095279958952442032, INV_MAT@[33] == 213891773493161319891264007856639690109, INV_MAT@[45] == 94792945070832857679082912572828953571, INV_MAT@[57] == 332990601915489782103445103140450426647, INV_MAT@[69] == 196877655147114396718095279958952442032, INV_MAT@[81] == 213891773493161319891264007856639690109, INV_MAT@[93] == 94792945070832857679082912572828953571, INV_MAT@[105] == 21875295016346044079788364439883604670, INV_MAT@[117] == 89931768400533736772463276030632596978, INV_MAT@[129] == 38889413362392967252957092337570852747, INV_MAT@[141] == 55903531708439890426125820235258100824,
    ;
    assert(product_entry(MAT@, INV_MAT@, 12, 9, 10) == (MAT@[108] as int) * (INV_MAT@[10] as int) + (MAT@[109] as int) * (INV_MAT@[22] as int) + (MAT@[110] as int) * (INV_MAT@[34] as int) + (MAT@[111] as int) * (INV_MAT@[46] as int) + (MAT@[112] as int) * (INV_MAT@[58] as int) + (MAT@[113] as int) * (INV_MAT@[70] as int) + (MAT@[114] as int) * (INV_MAT@[82] as int) + (MAT@[115] as int) * (INV_MAT@[94] as int) + (MAT@[116] as int) * (INV_MAT@[106] as int) + (MAT@[117] as int) * (INV_MAT@[118] as int) + (MAT@[118] as int) * (INV_MAT@[130] as int) + (MAT@[119] as int) * (INV_MAT@[142] as int));
    assert(((MAT@[108] as int) * (INV_MAT@[10] as int) + (MAT@[109] as int) * (INV_MAT@[22] as int) + (MAT@[110] as int) * (INV_MAT@[34] as int) + (MAT@[111] as int) * (INV_MAT@[46] as int) + (MAT@[112] as int) * (INV_MAT@[58] as int) + (MAT@[113] as int) * (INV_MAT@[70] as int) + (MAT@[114] as int) * (INV_MAT@[82] as int) + (MAT@[115] as int) * (INV_MAT@[94] as int) + (MAT@[116] as int) * (INV_MAT@[106] as int) + (MAT@[117] as int) * (INV_MAT@[118] as int) + (MAT@[118] as int) * (INV_MAT@[130] as int) + (MAT@[119] as int) * (INV_MAT@[142] as int)) % 340282366920938463463374557953744961537 == 0) by (nonlinear_arith)
        requires
            MAT@[108] == 1, MAT@[109] == 3, MAT@[110] == 2, MAT@[111] == 1, MAT@[112] == 1, MAT@[113] == 3, MAT@[114] == 2, MAT@[115] == 1, MAT@[116] == 2, MAT@[117] == 6, MAT@[118] == 4, MAT@[119] == 2, INV_MAT@[10] == 94792945070832857679082912572828953571, INV_MAT@[22] == 332990601915489782103445103140450426647, INV_MAT@[34] == 196877655147114396718095279958952442032, INV_MAT@[46] == 213891773493161319891264007856639690109, INV_MAT@[58] == 94792945070832857679082912572828953571, INV_MAT@[70] == 332990601915489782103445103140450426647, INV_MAT@[82] == 196877655147114396718095279958952442032, INV_MAT@[94] == 213891773493161319891264007856639690109, INV_MAT@[106] == 55903531708439890426125820235258100824, INV_MAT@[118] == 21875295016346044079788364439883604670, INV_MAT@[130] == 89931768400533736772463276030632596978, INV_MAT@[142] == 38889413362392967252957092337570852747,
    ;
    assert(product_entry(MAT@, INV_MAT@, 12, 9, 11) == (MAT@[108] as int) * (INV_MAT@[11] as int) + (MAT@[109] as int) * (INV_MAT@[23] as int) + (MAT@[110] as int) * (INV_MAT@[35] as int) + (MAT@[111] as int) * (INV_MAT@[47] as int) + (MAT@[112] as int) * (INV_MAT@[59] as int) + (MAT@[113] as int) * (INV_MAT@[71] as int) + (MAT@[114] as int) * (INV_MAT@[83] as int) + (MAT@[115] as int) * (INV_MAT@[95] as int) + (MAT@[116] as int) * (INV_MAT@[107] as int) + (MAT@[117] as int) * (INV_MAT@[119] as int) + (MAT@[118] as int) * (INV_MAT@[131] as int) + (MAT@[119] as int) * (INV_MAT@[143] as int));
    assert(((MAT@[108] as int) * (INV_MAT@[11] as int) + (MAT@[109] as int) * (INV_MAT@[23] as int) + (MAT@[110] as int) * (INV_MAT@[35] as int) + (MAT@[111] as int) * (INV_MAT@[47] as int) + (MAT@[112] as int) * (INV_MAT@[59] as int) + (MAT@[113] as int) * (INV_MAT@[71] as int) + (MAT@[114] as int) * (INV_MAT@[83] as int) + (MAT@[115] as int) * (INV_MAT@[95] as int) + (MAT@[116] as int) * (INV_MAT@[107] as int) + (MAT@[117] as int) * (INV_MAT@[119] as int) + (MAT@[118] as int) * (INV_MAT@[131] as int) + (MAT@[119] as int) * (INV_MAT@[143] as int)) % 340282366920938463463374557953744961537 == 0) by (nonlinear_arith)
        requires
            MAT@[108] == 1, MAT@[109] == 3, MAT@[110] == 2, MAT@[111] == 1, MAT@[112] == 1, MAT@[113] == 3, MAT@[114] == 2, MAT@[115] == 1, MAT@[116] == 2, MAT@[117] == 6, MAT@[118] == 4, MAT@[119] == 2, INV_MAT@[11] == 213891773493161319891264007856639690109, INV_MAT@[23] == 94792945070832857679082912572828953571, INV_MAT@[35] == 332990601915489782103445103140450426647, INV_MAT@[47] == 196877655147114396718095279958952442032, INV_MAT@[59] == 213891773493161319891264007856639690109, INV_MAT@[71] == 94792945070832857679082912572828953571, INV_MAT@[83] == 332990601915489782103445103140450426647, INV_MAT@[95] == 196877655147114396718095279958952442032, INV_MAT@[107] == 38889413362392967252957092337570852747, INV_MAT@[119] == 55903531708439890426125820235258100824, INV_MAT@[131] == 21875295016346044079788364439883604670, INV_MAT@[143] == 89931768400533736772463276030632596978,
    ;
}

proof fn lemma_product_forward_row_10()
    ensures
        identity_row(Elem::modulus(), MAT@, INV_MAT@, 12, 10, 12),
{
    reveal_with_fuel(sum, 13);
    reveal_with_fuel(identity_row, 13);
    assert(product_entry(MAT@, INV_MAT@, 12, 10, 0) == (MAT@[120] as int) * (INV_MAT@[0] as int) + (MAT@[121] as int) * (INV_MAT@[12] as int) + (MAT@[122] as int) * (INV_MAT@[24] as int) + (MAT@[123] as int) * (INV_MAT@[36] as int) + (MAT@[124] as int) * (INV_MAT@[48] as int) + (MAT@[125] as int) * (INV_MAT@[60] as int) + (MAT@[126] as int) * (INV_MAT@[72] as int) + (MAT@[127] as int) * (INV_MAT@[84] as int) + (MAT@[128] as int) * (INV_MAT@[96] as int) + (MAT@[129] as int) * (INV_MAT@[108] as int) + (MAT@[130] as int) * (INV_MAT@[120] as int) + (MAT@[131] as int) * (INV_MAT@[132] as int));
    assert(((MAT@[120] as int) * (INV_MAT@[0] as int) + (MAT@[121] as int) * (INV_MAT@[12] as int) + (MAT@[122] as int) * (INV_MAT@[24] as int) + (MAT@[123] as int) * (INV_MAT@[36] as int) + (MAT@[124] as int) * (INV_MAT@[48] as int) + (MAT@[125] as int) * (INV_MAT@[60] as int) + (MAT@[126] as int) * (INV_MAT@[72] as int) + (MAT@[127] as int) * (INV_MAT@[84] as int) + (MAT@[128] as int) * (INV_MAT@[96] as int) + (MAT@[129] as int) * (INV_MAT@[108] as int) + (MAT@[130] as int) * (INV_MAT@[120] as int) + (MAT@[131] as int) * (INV_MAT@[132] as int)) % 340282366920938463463374557953744961537 == 0) by (nonlinear_arith)
        requires
            MAT@[120] == 1, MAT@[121] == 1, MAT@[122] == 3, MAT@[123] == 2, MAT@[124] == 1, MAT@[125] == 1, MAT@[126] == 3, MAT@[127] == 2, MAT@[128] == 2, MAT@[129] == 2, MAT@[130] == 6, MAT@[131] == 4, INV_MAT@[0] == 89931768400533736772463276030632596978, INV_MAT@[12] == 38889413362392967252957092337570852747, INV_MAT@[24] == 55903531708439890426125820235258100824, INV_MAT@[36] == 21875295016346044079788364439883604670, INV_MAT@[48] == 196877655147114396718095279958952442032, INV_MAT@[60] == 213891773493161319891264007856639690109, INV_MAT@[72] == 94792945070832857679082912572828953571, INV_MAT@[84] == 332990601915489782103445103140450426647, INV_MAT@[96] == 196877655147114396718095279958952442032, INV_MAT@[108] == 213891773493161319891264007856639690109, INV_MAT@[120] == 94792945070832857679082912572828953571, INV_MAT@[132] == 332990601915489782103445103140450426647,
    ;
    assert(product_entry(MAT@, INV_MAT@, 12, 10, 1) == (MAT@[120] as int) * (INV_MAT@[1] as int) + (MAT@[121] as int) * (INV_MAT@[13] as int) + (MAT@[122] as int) * (INV_MAT@[25] as int) + (MAT@[123] as int) * (INV_MAT@[37] as int) + (MAT@[124] as int) * (INV_MAT@[49] as int) + (MAT@[125] as int) * (INV_MAT@[61] as int) + (MAT@[126] as int) * (INV_MAT@[73] as int) + (MAT@[127] as int) * (INV_MAT@[85] as int) + (MAT@[128] as int) * (INV_MAT@[97] as int) + (MAT@[129] as int) * (INV_MAT@[109] as int) + (MAT@[130] as int) * (INV_MAT@[121] as int) + (MAT@[131] as int) * (INV_MAT@[133] as int));
    assert(((MAT@[120] as int) * (INV_MAT@[1] as int) + (MAT@[121] as int) * (INV_MAT@[13] as int) + (MAT@[122] as int) * (INV_MAT@[25] as int) + (MAT@[123] as int) * (INV_MAT@[37] as int) + (MAT@[124] as int) * (INV_MAT@[49] as int) + (MAT@[125] as int) * (INV_MAT@[61] as int) + (MAT@[126] as int) * (INV_MAT@[73] as int) + (MAT@[127] as int) * (INV_MAT@[85] as int) + (MAT@[128] as int) * (INV_MAT@[97] as int) + (MAT@[129] as int) * (INV_MAT@[109] as int) + (MAT@[130] as int) * (INV_MAT@[121] as int) + (MAT@[131] as int) * (INV_MAT@[133] as int)) % 340282366920938463463374557953744961537 == 0) by (nonlinear_arith)
        requires
            MAT@[120] == 1, MAT@[121] == 1, MAT@[122] == 3, MAT@[123] == 2, MAT@[124] == 1, MAT@[125] == 1, MAT@[126] == 3, MAT@[127] == 2, MAT@[128] == 2, MAT@[129] == 2, MAT@[130] == 6, MAT@[131] == 4, INV_MAT@[1] == 21875295016346044079788364439883604670, INV_MAT@[13] == 89931768400533736772463276030632596978, INV_MAT@[25] == 38889413362392967252957092337570852747, INV_MAT@[37] == 55903531708439890426125820235258100824, INV_MAT@[49] == 332990601915489782103445103140450426647, INV_MAT@[61] == 196877655147114396718095279958952442032, INV_MAT@[73] == 213891773493161319891264007856639690109, INV_MAT@[85] == 94792945070832857679082912572828953571, INV_MAT@[97] == 332990601915489782103445103140450426647, INV_MAT@[109] == 196877655147114396718095279958952442032, INV_MAT@[121] == 213891773493161319891264007856639690109, INV_MAT@[133] == 94792945070832857679082912572828953571,
    ;
    assert(product_entry(MAT@, INV_MAT@, 12, 10, 2) == (MAT@[120] as int) * (INV_MAT@[2] as int) + (MAT@[121] as int) * (INV_MAT@[14] as int) + (MAT@[122] as int) * (INV_MAT@[26] as int) + (MAT@[123] as int) * (INV_MAT@[38] as int) + (MAT@[124] as int) * (INV_MAT@[50] as int) + (MAT@[125] as int) * (INV_MAT@[62] as int) + (MAT@[126] as int) * (INV_MAT@[74] as int) + (MAT@[127] as int) * (INV_MAT@[86] as int) + (MAT@[128] as int) * (INV_MAT@[98] as int) + (MAT@[129] as int) * (INV_MAT@[110] as int) + (MAT@[130] as int) * (INV_MAT@[122] as int) + (MAT@[131] as int) * (INV_MAT@[134] as int));
    assert(((MAT@[120] as int) * (INV_MAT@[2] as int) + (MAT@[121] as int) * (INV_MAT@[14] as int) + (MAT@[122] as int) * (INV_MAT@[26] as int) + (MAT@[123] as int) * (INV_MAT@[38] as int) + (MAT@[124] as int) * (INV_MAT@[50] as int) + (MAT@[125] as int) * (INV_MAT@[62] as int) + (MAT@[126] as int) * (INV_MAT@[74] as int) + (MAT@[127] as int) * (INV_MAT@[86] as int) + (MAT@[128] as int) * (INV_MAT@[98] as int) + (MAT@[129] as int) * (INV_MAT@[110] as int) + (MAT@[130] as int) * (INV_MAT@[122] as int) + (MAT@[131] as int) * (INV_MAT@[134] as int)) % 340282366920938463463374557953744961537 == 0) by (nonlinear_arith)
        requires
            MAT@[120] == 1, MAT@[121] == 1, MAT@[122] == 3, MAT@[123] == 2, MAT@[124] == 1, MAT@[125] == 1, MAT@[126] == 3, MAT@[127] == 2, MAT@[128] == 2, MAT@[129] == 2, MAT@[130] == 6, MAT@[131] == 4, INV_MAT@[2] == 55903531708439890426125820235258100824, INV_MAT@[14] == 21875295016346044079788364439883604670, INV_MAT@[26] == 89931768400533736772463276030632596978, INV_MAT@[38] == 38889413362392967252957092337570852747, INV_MAT@[50] == 94792945070832857679082912572828953571, INV_MAT@[62] == 332990601915489782103445103140450426647, INV_MAT@[74] == 196877655147114396718095279958952442032, INV_MAT@[86] == 213891773493161319891264007856639690109, INV_MAT@[98] == 94792945070832857679082912572828953571, INV_MAT@[110] == 332990601915489782103445103140450426647, INV_MAT@[122] == 196877655147114396718095279958952442032, INV_MAT@[134] == 213891773493161319891264007856639690109,
    ;
    assert(product_entry(MAT@, INV_MAT@, 12, 10, 3) == (MAT@[120] as int) * (INV_MAT@[3] as int) + (MAT@[121] as int) * (INV_MAT@[15] as int) + (MAT@[122] as int) * (INV_MAT@[27] as int) + (MAT@[123] as int) * (INV_MAT@[39] as int) + (MAT@[124] as int) * (INV_MAT@[51] as int) + (MAT@[125] as int) * (INV_MAT@[63] as int) + (MAT@[126] as int) * (INV_MAT@[75] as int) + (MAT@[127] as int) * (INV_MAT@[87] as int) + (MAT@[128] as int) * (INV_MAT@[99] as int) + (MAT@[129] as int) * (INV_MAT@[111] as int) + (MAT@[130] as int) * (INV_MAT@[123] as int) + (MAT@[131] as int) * (INV_MAT@[135] as int));
    assert(((MAT@[120] as int) * (INV_MAT@[3] as int) + (MAT@[121] as int) * (INV_MAT@[15] as int) + (MAT@[122] as int) * (INV_MAT@[27] as int) + (MAT@[123] as int) * (INV_MAT@[39] as int) + (MAT@[124] as int) * (INV_MAT@[51] as int) + (MAT@[125] as int) * (INV_MAT@[63] as int) + (MAT@[126] as int) * (INV_MAT@[75] as int) + (MAT@[127] as int) * (INV_MAT@[87] as int) + (MAT@[128] as int) * (INV_MAT@[99] as int) + (MAT@[129] as int) * (INV_MAT@[111] as int) + (MAT@[130] as int) * (INV_MAT@[123] as int) + (MAT@[131] as int) * (INV_MAT@[135] as int)) % 340282366920938463463374557953744961537 == 0) by (nonlinear_arith)
        requires
            MAT@[120] == 1, MAT@[121] == 1, MAT@[122] == 3, MAT@[123] == 2, MAT@[124] == 1, MAT@[125] == 1, MAT@[126] == 3, MAT@[127] == 2, MAT@[128] == 2, MAT@[129] == 2, MAT@[130] == 6, MAT@[131] == 4, INV_MAT@[3] == 38889413362392967252957092337570852747, INV_MAT@[15] == 55903531708439890426125820235258100824, INV_MAT@[27] == 21875295016346044079788364439883604670, INV_MAT@[39] == 89931768400533736772463276030632596978, INV_MAT@[51] == 213891773493161319891264007856639690109, INV_MAT@[63] == 94792945070832857679082912572828953571, INV_MAT@[75] == 332990601915489782103445103140450426647, INV_MAT@[87] == 196877655147114396718095279958952442032, INV_MAT@[99] == 213891773493161319891264007856639690109, INV_MAT@[111] == 94792945070832857679082912572828953571, INV_MAT@[123] == 332990601915489782103445103140450426647, INV_MAT@[135] == 196877655147114396718095279958952442032,
    ;
    assert(product_entry(MAT@, INV_MAT@, 12, 10, 4) == (MAT@[120] as int) * (INV_MAT@[4] as int) + (MAT@[121] as int) * (INV_MAT@[16] as int) + (MAT@[122] as int) * (INV_MAT@[28] as int) + (MAT@[123] as int) * (INV_MAT@[40] as int) + (MAT@[124] as int) * (INV_MAT@[52] as int) + (MAT@[125] as int) * (INV_MAT@[64] as int) + (MAT@[126] as int) * (INV_MAT@[76] as int) + (MAT@[127] as int) * (INV_MAT@[88] as int) + (MAT@[128] as int) * (INV_MAT@[100] as int) + (MAT@[129] as int) * (INV_MAT@[112] as int) + (MAT@[130] as int) * (INV_MAT@[124] as int) + (MAT@[131] as int) * (INV_MAT@[136] as int));
    assert(((MAT@[120] as int) * (INV_MAT@[4] as int) + (MAT@[121] as int) * (INV_MAT@[16] as int) + (MAT@[122] as int) * (INV_MAT@[28] as int) + (MAT@[123] as int) * (INV_MAT@[40] as int) + (MAT@[124] as int) * (INV_MAT@[52] as int) + (MAT@[125] as int) * (INV_MAT@[64] as int) + (MAT@[126] as int) * (INV_MAT@[76] as int) + (MAT@[127] as int) * (INV_MAT@[88] as int) + (MAT@[128] as int) * (INV_MAT@[100] as int) + (MAT@[129] as int) * (INV_MAT@[112] as int) + (MAT@[130] as int) * (INV_MAT@[124] as int) + (MAT@[131] as int) * (INV_MAT@[136] as int)) % 340282366920938463463374557953744961537 == 0) by (nonlinear_arith)
        requires
            MAT@[120] == 1, MAT@[121] == 1, MAT@[122] == 3, MAT@[123] == 2, MAT@[124] == 1, MAT@[125] == 1, MAT@[126] == 3, MAT@[127] == 2, MAT@[128] == 2, MAT@[129] == 2, MAT@[130] == 6, MAT@[131] == 4, INV_MAT@[4] == 196877655147114396718095279958952442032, INV_MAT@[16] == 213891773493161319891264007856639690109, INV_MAT@[28] == 94792945070832857679082912572828953571, INV_MAT@[40] == 332990601915489782103445103140450426647, INV_MAT@[52] == 89931768400533736772463276030632596978, INV_MAT@[64] == 38889413362392967252957092337570852747, INV_MAT@[76] == 55903531708439890426125820235258100824, INV_MAT@[88] == 21875295016346044079788364439883604670, INV_MAT@[100] == 196877655147114396718095279958952442032, INV_MAT@[112] == 213891773493161319891264007856639690109, INV_MAT@[124] == 94792945070832857679082912572828953571, INV_MAT@[136] == 332990601915489782103445103140450426647,
    ;
    assert(product_entry(MAT@, INV_MAT@, 12, 10, 5) == (MAT@[120] as int) * (INV_MAT@[5] as int) + (MAT@[121] as int) * (INV_MAT@[17] as int) + (MAT@[122] as int) * (INV_MAT@[29] as int) + (MAT@[123] as int) * (INV_MAT@[41] as int) + (MAT@[124] as int) * (INV_MAT@[53] as int) + (MAT@[125] as int) * (INV_MAT@[65] as int) + (MAT@[126] as int) * (INV_MAT@[77] as int) + (MAT@[127] as int) * (INV_MAT@[89] as int) + (MAT@[128] as int) * (INV_MAT@[101] as int) + (MAT@[129] as int) * (INV_MAT@[113] as int) + (MAT@[130] as int) * (INV_MAT@[125] as int) + (MAT@[131] as int) * (INV_MAT@[137] as int));
    assert(((MAT@[120] as int) * (INV_MAT@[5] as int) + (MAT@[121] as int) * (INV_MAT@[17] as int) + (MAT@[122] as int) * (INV_MAT@[29] as int) + (MAT@[123] as int) * (INV_MAT@[41] as int) + (MAT@[124] as int) * (INV_MAT@[53] as int) + (MAT@[125] as int) * (INV_MAT@[65] as int) + (MAT@[126] as int) * (INV_MAT@[77] as int) + (MAT@[127] as int) * (INV_MAT@[89] as int) + (MAT@[128] as int) * (INV_MAT@[101] as int) + (MAT@[129] as int) * (INV_MAT@[113] as int) + (MAT@[130] as int) * (INV_MAT@[125] as int) + (MAT@[131] as int) * (INV_MAT@[137] as int)) % 340282366920938463463374557953744961537 == 0) by (nonlinear_arith)
        requires
            MAT@[120] == 1, MAT@[121] == 1, MAT@[122] == 3, MAT@[123] == 2, MAT@[124] == 1, MAT@[125] == 1, MAT@[126] == 3, MAT@[127] == 2, MAT@[128] == 2, MAT@[129] == 2, MAT@[130] == 6, MAT@[131] == 4, INV_MAT@[5] == 332990601915489782103445103140450426647, INV_MAT@[17] == 196877655147114396718095279958952442032, INV_MAT@[29] == 213891773493161319891264007856639690109, INV_MAT@[41] == 94792945070832857679082912572828953571, INV_MAT@[53] == 21875295016346044079788364439883604670, INV_MAT@[65] == 89931768400533736772463276030632596978, INV_MAT@[77] == 38889413362392967252957092337570852747, INV_MAT@[89] == 55903531708439890426125820235258100824, INV_MAT@[101] == 332990601915489782103445103140450426647, INV_MAT@[113] == 196877655147114396718095279958952442032, INV_MAT@[125] == 213891773493161319891264007856639690109, INV_MAT@[137] == 94792945070832857679082912572828953571,
    ;
    assert(product_entry(MAT@, INV_MAT@, 12, 10, 6) == (MAT@[120] as int) * (INV_MAT@[6] as int) + (MAT@[121] as int) * (INV_MAT@[18] as int) + (MAT@[122] as int) * (INV_MAT@[30] as int) + (MAT@[123] as int) * (INV_MAT@[42] as int) + (MAT@[124] as int) * (INV_MAT@[54] as int) + (MAT@[125] as int) * (INV_MAT@[66] as int) + (MAT@[126] as int) * (INV_MAT@[78] as int) + (MAT@[127] as int) * (INV_MAT@[90] as int) + (MAT@[128] as int) * (INV_MAT@[102] as int) + (MAT@[129] as int) * (INV_MAT@[114] as int) + (MAT@[130] as int) * (INV_MAT@[126] as int) + (MAT@[131] as int) * (INV_MAT@[138] as int));
    assert(((MAT@[120] as int) * (INV_MAT@[6] as int) + (MAT@[121] as int) * (INV_MAT@[18] as int) + (MAT@[122] as int) * (INV_MAT@[30] as int) + (MAT@[123] as int) * (INV_MAT@[42] as int) + (MAT@[124] as int) * (INV_MAT@[54] as int) + (MAT@[125] as int) * (INV_MAT@[66] as int) + (MAT@[126] as int) * (INV_MAT@[78] as int) + (MAT@[127] as int) * (INV_MAT@[90] as int) + (MAT@[128] as int) * (INV_MAT@[102] as int) + (MAT@[129] as int) * (INV_MAT@[114] as int) + (MAT@[130] as int) * (INV_MAT@[126] as int) + (MAT@[131] as int) * (INV_MAT@[138] as int)) % 340282366920938463463374557953744961537 == 0) by (nonlinear_arith)
        requires
            MAT@[120] == 1, MAT@[121] == 1, MAT@[122] == 3, MAT@[123] == 2, MAT@[124] == 1, MAT@[125] == 1, MAT@[126] == 3, MAT@[127] == 2, MAT@[128] == 2, MAT@[129] == 2, MAT@[130] == 6, MAT@[131] == 4, INV_MAT@[6] == 94792945070832857679082912572828953571, INV_MAT@[18] == 332990601915489782103445103140450426647, INV_MAT@[30] == 196877655147114396718095279958952442032, INV_MAT@[42] == 213891773493161319891264007856639690109, INV_MAT@[54] == 55903531708439890426125820235258100824, INV_MAT@[66] == 21875295016346044079788364439883604670, INV_MAT@[78] == 89931768400533736772463276030632596978, INV_MAT@[90] == 38889413362392967252957092337570852747, INV_MAT@[102] == 94792945070832857679082912572828953571, INV_MAT@[114] == 332990601915489782103445103140450426647, INV_MAT@[126] == 196877655147114396718095279958952442032, INV_MAT@[138] == 213891773493161319891264007856639690109,
    ;
    assert(product_entry(MAT@, INV_MAT@, 12, 10, 7) == (MAT@[120] as int) * (INV_MAT@[7] as int) + (MAT@[121] as int) * (INV_MAT@[19] as int) + (MAT@[122] as int) * (INV_MAT@[31] as int) + (MAT@[123] as int) * (INV_MAT@[43] as int) + (MAT@[124] as int) * (INV_MAT@[55] as int) + (MAT@[125] as int) * (INV_MAT@[67] as int) + (MAT@[126] as int) * (INV_MAT@[79] as int) + (MAT@[127] as int) * (INV_MAT@[91] as int) + (MAT@[128] as int) * (INV_MAT@[103] as int) + (MAT@[129] as int) * (INV_MAT@[115] as int) + (MAT@[130] as int) * (INV_MAT@[127] as int) + (MAT@[131] as int) * (INV_MAT@[139] as int));
    assert(((MAT@[120] as int) * (INV_MAT@[7] as int) + (MAT@[121] as int) * (INV_MAT@[19] as int) + (MAT@[122] as int) * (INV_MAT@[31] as int) + (MAT@[123] as int) * (INV_MAT@[43] as int) + (MAT@[124] as int) * (INV_MAT@[55] as int) + (MAT@[125] as int) * (INV_MAT@[67] as int) + (MAT@[126] as int) * (INV_MAT@[79] as int) + (MAT@[127] as int) * (INV_MAT@[91] as int) + (MAT@[128] as int) * (INV_MAT@[103] as int) + (MAT@[129] as int) * (INV_MAT@[115] as int) + (MAT@[130] as int) * (INV_MAT@[127] as int) + (MAT@[131] as int) * (INV_MAT@[139] as int)) % 340282366920938463463374557953744961537 == 0) by (nonlinear_arith)
        requires
            MAT@[120] == 1, MAT@[121] == 1, MAT@[122] == 3, MAT@[123] == 2, MAT@[124] == 1, MAT@[125] == 1, MAT@[126] == 3, MAT@[127] == 2, MAT@[128] == 2, MAT@[129] == 2, MAT@[130] == 6, MAT@[131] == 4, INV_MAT@[7] == 213891773493161319891264007856639690109, INV_MAT@[19] == 94792945070832857679082912572828953571, INV_MAT@[31] == 332990601915489782103445103140450426647, INV_MAT@[43] == 196877655147114396718095279958952442032, INV_MAT@[55] == 38889413362392967252957092337570852747, INV_MAT@[67] == 55903531708439890426125820235258100824, INV_MAT@[79] == 21875295016346044079788364439883604670, INV_MAT@[91] == 89931768400533736772463276030632596978, INV_MAT@[103] == 213891773493161319891264007856639690109, INV_MAT@[115] == 94792945070832857679082912572828953571, INV_MAT@[127] == 332990601915489782103445103140450426647, INV_MAT@[139] == 196877655147114396718095279958952442032,
    ;
    assert(product_entry(MAT@, INV_MAT@, 12, 10, 8) == (MAT@[120] as int) * (INV_MAT@[8] as int) + (MAT@[121] as int) * (INV_MAT@[20] as int) + (MAT@[122] as int) * (INV_MAT@[32] as int) + (MAT@[123] as int) * (INV_MAT@[44] as int) + (MAT@[124] as int) * (INV_MAT@[56] as int) + (MAT@[125] as int) * (INV_MAT@[68] as int) + (MAT@[126] as int) * (INV_MAT@[80] as int) + (MAT@[127] as int) * (INV_MAT@[92] as int) + (MAT@[128] as int) * (INV_MAT@[104] as int) + (MAT@[129] as int) * (INV_MAT@[116] as int) + (MAT@[130] as int) * (INV_MAT@[128] as int) + (MAT@[131] as int) * (INV_MAT@[140] as int));
    assert(((MAT@[120] as int) * (INV_MAT@[8] as int) + (MAT@[121] as int) * (INV_MAT@[20] as int) + (MAT@[122] as int) * (INV_MAT@[32] as int) + (MAT@[123] as int) * (INV_MAT@[44] as int) + (MAT@[124] as int) * (INV_MAT@[56] as int) + (MAT@[125] as int) * (INV_MAT@[68] as int) + (MAT@[126] as int) * (INV_MAT@[80] as int) + (MAT@[127] as int) * (INV_MAT@[92] as int) + (MAT@[128] as int) * (INV_MAT@[104] as int) + (MAT@[129] as int) * (INV_MAT@[116] as int) + (MAT@[130] as int) * (INV_MAT@[128] as int) + (MAT@[131] as int) * (INV_MAT@[140] as int)) % 340282366920938463463374557953744961537 == 0) by (nonlinear_arith)
        requires
            MAT@[120] == 1, MAT@[121] == 1, MAT@[122] == 3, MAT@[123] == 2, MAT@[124] == 1, MAT@[125] == 1, MAT@[126] == 3, MAT@[127] == 2, MAT@[128] == 2, MAT@[129] == 2, MAT@[130] == 6, MAT@[131] == 4, INV_MAT@[8] == 196877655147114396718095279958952442032, INV_MAT@[20] == 213891773493161319891264007856639690109, INV_MAT@[32] == 94792945070832857679082912572828953571, INV_MAT@[44] == 332990601915489782103445103140450426647, INV_MAT@[56] == 196877655147114396718095279958952442032, INV_MAT@[68] == 213891773493161319891264007856639690109, INV_MAT@[80] == 94792945070832857679082912572828953571, INV_MAT@[92] == 332990601915489782103445103140450426647, INV_MAT@[104] == 89931768400533736772463276030632596978, INV_MAT@[116] == 38889413362392967252957092337570852747, INV_MAT@[128] == 55903531708439890426125820235258100824, INV_MAT@[140] == 21875295016346044079788364439883604670,
    ;
    assert(product_entry(MAT@, INV_MAT@, 12, 10, 9) == (MAT@[120] as int) * (INV_MAT@[9] as int) + (MAT@[121] as int) * (INV_MAT@[21] as int) + (MAT@[122] as int) * (INV_MAT@[33] as int) + (MAT@[123] as int) * (INV_MAT@[45] as int) + (MAT@[124] as int) * (INV_MAT@[57] as int) + (MAT@[125] as int) * (INV_MAT@[69] as int) + (MAT@[126] as int) * (INV_MAT@[81] as int) + (MAT@[127] as int) * (INV_MAT@[93] as int) + (MAT@[128] as int) * (INV_MAT@[105] as int) + (MAT@[129] as int) * (INV_MAT@[117] as int) + (MAT@[130] as int) * (INV_MAT@[129] as int) + (MAT@[131] as int) * (INV_MAT@[141] as int));
    assert(((MAT@[120] as int) * (INV_MAT@[9] as int) + (MAT@[121] as int) * (INV_MAT@[21] as int) + (MAT@[122] as int) * (INV_MAT@[33] as int) + (MAT@[123] as int) * (INV_MAT@[45] as int) + (MAT@[124] as int) * (INV_MAT@[57] as int) + (MAT@[125] as int) * (INV_MAT@[69] as int) + (MAT@[126] as int) * (INV_MAT@[81] as int) + (MAT@[127] as int) * (INV_MAT@[93] as int) + (MAT@[128] as int) * (INV_MAT@[105] as int) + (MAT@[129] as int) * (INV_MAT@[117] as int) + (MAT@[130] as int) * (INV_MAT@[129] as int) + (MAT@[131] as int) * (INV_MAT@[141] as int)) % 340282366920938463463374557953744961537 == 0) by (nonlinear_arith)
        requires
            MAT@[120] == 1, MAT@[121] == 1, MAT@[122] == 3, MAT@[123] == 2, MAT@[124] == 1, MAT@[125] == 1, MAT@[126] == 3, MAT@[127] == 2, MAT@[128] == 2, MAT@[129] == 2, MAT@[130] == 6, MAT@[131] == 4, INV_MAT@[9] == 332990601915489782103445103140450426647, INV_MAT@[21] == 196877655147114396718095279958952442032, INV_MAT@[33] == 213891773493161319891264007856639690109, INV_MAT@[45] == 94792945070832857679082912572828953571, INV_MAT@[57] == 332990601915489782103445103140450426647, INV_MAT@[69] == 196877655147114396718095279958952442032, INV_MAT@[81] == 213891773493161319891264007856639690109, INV_MAT@[93] == 94792945070832857679082912572828953571, INV_MAT@[105] == 21875295016346044079788364439883604670, INV_MAT@[117] == 89931768400533736772463276030632596978, INV_MAT@[129] == 38889413362392967252957092337570852747, INV_MAT@[141] == 55903531708439890426125820235258100824,
    ;
    assert(product_entry(MAT@, INV_MAT@, 12, 10, 10) == (MAT@[120] as int) * (INV_MAT@[10] as int) + (MAT@[121] as int) * (INV_MAT@[22] as int) + (MAT@[122] as int) * (INV_MAT@[34] as int) + (MAT@[123] as int) * (INV_MAT@[46] as int) + (MAT@[124] as int) * (INV_MAT@[58] as int) + (MAT@[125] as int) * (INV_MAT@[70] as int) + (MAT@[126] as int) * (INV_MAT@[82] as int) + (MAT@[127] as int) * (INV_MAT@[94] as int) + (MAT@[128] as int) * (INV_MAT@[106] as int) + (MAT@[129] as int) * (INV_MAT@[118] as int) + (MAT@[130] as int) * (INV_MAT@[130] as int) + (MAT@[131] as int) * (INV_MAT@[142] as int));
    assert(((MAT@[120] as int) * (INV_MAT@[10] as int) + (MAT@[121] as int) * (INV_MAT@[22] as int) + (MAT@[122] as int) * (INV_MAT@[34] as int) + (MAT@[123] as int) * (INV_MAT@[46] as int) + (MAT@[124] as int) * (INV_MAT@[58] as int) + (MAT@[125] as int) * (INV_MAT@[70] as int) + (MAT@[126] as int) * (INV_MAT@[82] as int) + (MAT@[127] as int) * (INV_MAT@[94] as int) + (MAT@[128] as int) * (INV_MAT@[106] as int) + (MAT@[129] as int) * (INV_MAT@[118] as int) + (MAT@[130] as int) * (INV_MAT@[130] as int) + (MAT@[131] as int) * (INV_MAT@[142] as int)) % 340282366920938463463374557953744961537 == 1) by (nonlinear_arith)
        requires
            MAT@[120] == 1, MAT@[121] == 1, MAT@[122] == 3, MAT@[123] == 2, MAT@[124] == 1, MAT@[125] == 1, MAT@[126] == 3, MAT@[127] == 2, MAT@[128] == 2, MAT@[129] == 2, MAT@[130] == 6, MAT@[131] == 4, INV_MAT@[10] == 94792945070832857679082912572828953571, INV_MAT@[22] == 332990601915489782103445103140450426647, INV_MAT@[34] == 196877655147114396718095279958952442032, INV_MAT@[46] == 213891773493161319891264007856639690109, INV_MAT@[58] == 94792945070832857679082912572828953571, INV_MAT@[70] == 332990601915489782103445103140450426647, INV_MAT@[82] == 196877655147114396718095279958952442032, INV_MAT@[94] == 213891773493161319891264007856639690109, INV_MAT@[106] == 55903531708439890426125820235258100824, INV_MAT@[118] == 21875295016346044079788364439883604670, INV_MAT@[130] == 89931768400533736772463276030632596978, INV_MAT@[142] == 38889413362392967252957092337570852747,
    ;
    assert(product_entry(MAT@, INV_MAT@, 12, 10, 11) == (MAT@[120] as int) * (INV_MAT@[11] as int) + (MAT@[121] as int) * (INV_MAT@[23] as int) + (MAT@[122] as int) * (INV_MAT@[35] as int) + (MAT@[123] as int) * (INV_MAT@[47] as int) + (MAT@[124] as int) * (INV_MAT@[59] as int) + (MAT@[125] as int) * (INV_MAT@[71] as int) + (MAT@[126] as int) * (INV_MAT@[83] as int) + (MAT@[127] as int) * (INV_MAT@[95] as int) + (MAT@[128] as int) * (INV_MAT@[107] as int) + (MAT@[129] as int) * (INV_MAT@[119] as int) + (MAT@[130] as int) * (INV_MAT@[131] as int) + (MAT@[131] as int) * (INV_MAT@[143] as int));
    assert(((MAT@[120] as int) * (INV_MAT@[11] as int) + (MAT@[121] as int) * (INV_MAT@[23] as int) + (MAT@[122] as int) * (INV_MAT@[35] as int) + (MAT@[123] as int) * (INV_MAT@[47] as int) + (MAT@[124] as int) * (INV_MAT@[59] as int) + (MAT@[125] as int) * (INV_MAT@[71] as int) + (MAT@[126] as int) * (INV_MAT@[83] as int) + (MAT@[127] as int) * (INV_MAT@[95] as int) + (MAT@[128] as int) * (INV_MAT@[107] as int) + (MAT@[129] as int) * (INV_MAT@[119] as int) + (MAT@[130] as int) * (INV_MAT@[131] as int) + (MAT@[131] as int) * (INV_MAT@[143] as int)) % 340282366920938463463374557953744961537 == 0) by (nonlinear_arith)
        requires
            MAT@[120] == 1, MAT@[121] == 1, MAT@[122] == 3, MAT@[123] == 2, MAT@[124] == 1, MAT@[125] == 1, MAT@[126] == 3, MAT@[127] == 2, MAT@[128] == 2, MAT@[129] == 2, MAT@[130] == 6, MAT@[131] == 4, INV_MAT@[11] == 213891773493161319891264007856639690109, INV_MAT@[23] == 94792945070832857679082912572828953571, INV_MAT@[35] == 332990601915489782103445103140450426647, INV_MAT@[47] == 196877655147114396718095279958952442032, INV_MAT@[59] == 213891773493161319891264007856639690109, INV_MAT@[71] == 94792945070832857679082912572828953571, INV_MAT@[83] == 332990601915489782103445103140450426647, INV_MAT@[95] == 196877655147114396718095279958952442032, INV_MAT@[107] == 38889413362392967252957092337570852747, INV_MAT@[119] == 55903531708439890426125820235258100824, INV_MAT@[131] == 21875295016346044079788364439883604670, INV_MAT@[143] == 89931768400533736772463276030632596978,
    ;
}

proof fn lemma_product_forward_row_11()
    ensures
        identity_row(Elem::modulus(), MAT@, INV_MAT@, 12, 11, 12),
{
    reveal_with_fuel(sum, 13);
    reveal_with_fuel(identity_row, 13);
    assert(product_entry(MAT@, INV_MAT@, 12, 11, 0) == (MAT@[132] as int) * (INV_MAT@[0] as int) + (MAT@[133] as int) * (INV_MAT@[12] as int) + (MAT@[134] as int) * (INV_MAT@[24] as int) + (MAT@[135] as int) * (INV_MAT@[36] as int) + (MAT@[136] as int) * (INV_MAT@[48] as int) + (MAT@[137] as int) * (INV_MAT@[60] as int) + (MAT@[138] as int) * (INV_MAT@[72] as int) + (MAT@[139] as int) * (INV_MAT@[84] as int) + (MAT@[140] as int) * (INV_MAT@[96] as int) + (MAT@[141] as int) * (INV_MAT@[108] as int) + (MAT@[142] as int) * (INV_MAT@[120] as int) + (MAT@[143] as int) * (INV_MAT@[132] as int));
    assert(((MAT@[132] as int) * (INV_MAT@[0] as int) + (MAT@[133] as int) * (INV_MAT@[12] as int) + (MAT@[134] as int) * (INV_MAT@[24] as int) + (MAT@[135] as int) * (INV_MAT@[36] as int) + (MAT@[136] as int) * (INV_MAT@[48] as int) + (MAT@[137] as int) * (INV_MAT@[60] as int) + (MAT@[138] as int) * (INV_MAT@[72] as int) + (MAT@[139] as int) * (INV_MAT@[84] as int) + (MAT@[140] as int) * (INV_MAT@[96] as int) + (MAT@[141] as int) * (INV_MAT@[108] as int) + (MAT@[142] as int) * (INV_MAT@[120] as int) + (MAT@[143] as int) * (INV_MAT@[132] as int)) % 340282366920938463463374557953744961537 == 0) by (nonlinear_arith)
        requires
            MAT@[132] == 2, MAT@[133] == 1, MAT@[134] == 1, MAT@[135] == 3, MAT@[136] == 2, MAT@[137] == 1, MAT@[138] == 1, MAT@[139] == 3, MAT@[140] == 4, MAT@[141] == 2, MAT@[142] == 2, MAT@[143] == 6, INV_MAT@[0] == 89931768400533736772463276030632596978, INV_MAT@[12] == 38889413362392967252957092337570852747, INV_MAT@[24] == 55903531708439890426125820235258100824, INV_MAT@[36] == 21875295016346044079788364439883604670, INV_MAT@[48] == 196877655147114396718095279958952442032, INV_MAT@[60] == 213891773493161319891264007856639690109, INV_MAT@[72] == 94792945070832857679082912572828953571, INV_MAT@[84] == 332990601915489782103445103140450426647, INV_MAT@[96] == 196877655147114396718095279958952442032, INV_MAT@[108] == 213891773493161319891264007856639690109, INV_MAT@[120] == 94792945070832857679082912572828953571, INV_MAT@[132] == 332990601915489782103445103140450426647,
    ;
    assert(product_entry(MAT@, INV_MAT@, 12, 11, 1) == (MAT@[132] as int) * (INV_MAT@[1] as int) + (MAT@[133] as int) * (INV_MAT@[13] as int) + (MAT@[134] as int) * (INV_MAT@[25] as int) + (MAT@[135] as int) * (INV_MAT@[37] as int) + (MAT@[136] as int) * (INV_MAT@[49] as int) + (MAT@[137] as int) * (INV_MAT@[61] as int) + (MAT@[138] as int) * (INV_MAT@[73] as int) + (MAT@[139] as int) * (INV_MAT@[85] as int) + (MAT@[140] as int) * (INV_MAT@[97] as int) + (MAT@[141] as int) * (INV_MAT@[109] as int) + (MAT@[142] as int) * (INV_MAT@[121] as int) + (MAT@[143] as int) * (INV_MAT@[133] as int));
    assert(((MAT@[132] as int) * (INV_MAT@[1] as int) + (MAT@[133] as int) * (INV_MAT@[13] as int) + (MAT@[134] as int) * (INV_MAT@[25] as int) + (MAT@[135] as int) * (INV_MAT@[37] as int) + (MAT@[136] as int) * (INV_MAT@[49] as int) + (MAT@[137] as int) * (INV_MAT@[61] as int) + (MAT@[138] as int) * (INV_MAT@[73] as int) + (MAT@[139] as int) * (INV_MAT@[85] as int) + (MAT@[140] as int) * (INV_MAT@[97] as int) + (MAT@[141] as int) * (INV_MAT@[109] as int) + (MAT@[142] as int) * (INV_MAT@[121] as int) + (MAT@[143] as int) * (INV_MAT@[133] as int)) % 340282366920938463463374557953744961537 == 0) by (nonlinear_arith)
        requires
            MAT@[132] == 2, MAT@[133] == 1, MAT@[134] == 1, MAT@[135] == 3, MAT@[136] == 2, MAT@[137] == 1, MAT@[138] == 1, MAT@[139] == 3, MAT@[140] == 4, MAT@[141] == 2, MAT@[142] == 2, MAT@[143] == 6, INV_MAT@[1] == 21875295016346044079788364439883604670, INV_MAT@[13] == 89931768400533736772463276030632596978, INV_MAT@[25] == 38889413362392967252957092337570852747, INV_MAT@[37] == 55903531708439890426125820235258100824, INV_MAT@[49] == 332990601915489782103445103140450426647, INV_MAT@[61] == 196877655147114396718095279958952442032, INV_MAT@[73] == 213891773493161319891264007856639690109, INV_MAT@[85] == 94792945070832857679082912572828953571, INV_MAT@[97] == 332990601915489782103445103140450426647, INV_MAT@[109] == 196877655147114396718095279958952442032, INV_MAT@[121] == 213891773493161319891264007856639690109, INV_MAT@[133] == 94792945070832857679082912572828953571,
    ;
    assert(product_entry(MAT@, INV_MAT@, 12, 11, 2) == (MAT@[132] as int) * (INV_MAT@[2] as int) + (MAT@[133] as int) * (INV_MAT@[14] as int) + (MAT@[134] as int) * (INV_MAT@[26] as int) + (MAT@[135] as int) * (INV_MAT@[38] as int) + (MAT@[136] as int) * (INV_MAT@[50] as int) + (MAT@[137] as int) * (INV_MAT@[62] as int) + (MAT@[138] as int) * (INV_MAT@[74] as int) + (MAT@[139] as int) * (INV_MAT@[86] as int) + (MAT@[140] as int) * (INV_MAT@[98] as int) + (MAT@[141] as int) * (INV_MAT@[110] as int) + (MAT@[142] as int) * (INV_MAT@[122] as int) + (MAT@[143] as int) * (INV_MAT@[134] as int));
    assert(((MAT@[132] as int) * (INV_MAT@[2] as int) + (MAT@[133] as int) * (INV_MAT@[14] as int) + (MAT@[134] as int) * (INV_MAT@[26] as int) + (MAT@[135] as int) * (INV_MAT@[38] as int) + (MAT@[136] as int) * (INV_MAT@[50] as int) + (MAT@[137] as int) * (INV_MAT@[62] as int) + (MAT@[138] as int) * (INV_MAT@[74] as int) + (MAT@[139] as int) * (INV_MAT@[86] as int) + (MAT@[140] as int) * (INV_MAT@[98] as int) + (MAT@[141] as int) * (INV_MAT@[110] as int) + (MAT@[142] as int) * (INV_MAT@[122] as int) + (MAT@[143] as int) * (INV_MAT@[134] as int)) % 340282366920938463463374557953744961537 == 0) by (nonlinear_arith)
        requires
            MAT@[132] == 2, MAT@[133] == 1, MAT@[134] == 1, MAT@[135] == 3, MAT@[136] == 2, MAT@[137] == 1, MAT@[138] == 1, MAT@[139] == 3, MAT@[140] == 4, MAT@[141] == 2, MAT@[142] == 2, MAT@[143] == 6, INV_MAT@[2] == 55903531708439890426125820235258100824, INV_MAT@[14] == 21875295016346044079788364439883604670, INV_MAT@[26] == 89931768400533736772463276030632596978, INV_MAT@[38] == 38889413362392967252957092337570852747, INV_MAT@[50] == 94792945070832857679082912572828953571, INV_MAT@[62] == 332990601915489782103445103140450426647, INV_MAT@[74] == 196877655147114396718095279958952442032, INV_MAT@[86] == 213891773493161319891264007856639690109, INV_MAT@[98] == 94792945070832857679082912572828953571, INV_MAT@[110] == 332990601915489782103445103140450426647, INV_MAT@[122] == 196877655147114396718095279958952442032, INV_MAT@[134] == 213891773493161319891264007856639690109,
    ;
    assert(product_entry(MAT@, INV_MAT@, 12, 11, 3) == (MAT@[132] as int) * (INV_MAT@[3] as int) + (MAT@[133] as int) * (INV_MAT@[15] as int) + (MAT@[134] as int) * (INV_MAT@[27] as int) + (MAT@[135] as int) * (INV_MAT@[39] as int) + (MAT@[136] as int) * (INV_MAT@[51] as int) + (MAT@[137] as int) * (INV_MAT@[63] as int) + (MAT@[138] as int) * (INV_MAT@[75] as int) + (MAT@[139] as int) * (INV_MAT@[87] as int) + (MAT@[140] as int) * (INV_MAT@[99] as int) + (MAT@[141] as int) * (INV_MAT@[111] as int) + (MAT@[142] as int) * (INV_MAT@[123] as int) + (MAT@[143] as int) * (INV_MAT@[135] as int));
    assert(((MAT@[132] as int) * (INV_MAT@[3] as int) + (MAT@[133] as int) * (INV_MAT@[15] as int) + (MAT@[134] as int) * (INV_MAT@[27] as int) + (MAT@[135] as int) * (INV_MAT@[39] as int) + (MAT@[136] as int) * (INV_MAT@[51] as int) + (MAT@[137] as int) * (INV_MAT@[63] as int) + (MAT@[138] as int) * (INV_MAT@[75] as int) + (MAT@[139] as int) * (INV_MAT@[87] as int) + (MAT@[140] as int) * (INV_MAT@[99] as int) + (MAT@[141] as int) * (INV_MAT@[111] as int) + (MAT@[142] as int) * (INV_MAT@[123] as int) + (MAT@[143] as int) * (INV_MAT@[135] as int)) % 340282366920938463463374557953744961537 == 0) by (nonlinear_arith)
        requires
            MAT@[132] == 2, MAT@[133] == 1, MAT@[134] == 1, MAT@[135] == 3, MAT@[136] == 2, MAT@[137] == 1, MAT@[138] == 1, MAT@[139] == 3, MAT@[140] == 4, MAT@[141] == 2, MAT@[142] == 2, MAT@[143] == 6, INV_MAT@[3] == 38889413362392967252957092337570852747, INV_MAT@[15] == 55903531708439890426125820235258100824, INV_MAT@[27] == 21875295016346044079788364439883604670, INV_MAT@[39] == 89931768400533736772463276030632596978, INV_MAT@[51] == 213891773493161319891264007856639690109, INV_MAT@[63] == 94792945070832857679082912572828953571, INV_MAT@[75] == 332990601915489782103445103140450426647, INV_MAT@[87] == 196877655147114396718095279958952442032, INV_MAT@[99] == 213891773493161319891264007856639690109, INV_MAT@[111] == 94792945070832857679082912572828953571, INV_MAT@[123] == 332990601915489782103445103140450426647, INV_MAT@[135] == 196877655147114396718095279958952442032,
    ;
    assert(product_entry(MAT@, INV_MAT@, 12, 11, 4) == (MAT@[132] as int) * (INV_MAT@[4] as int) + (MAT@[133] as int) * (INV_MAT@[16] as int) + (MAT@[134] as int) * (INV_MAT@[28] as int) + (MAT@[135] as int) * (INV_MAT@[40] as int) + (MAT@[136] as int) * (INV_MAT@[52] as int) + (MAT@[137] as int) * (INV_MAT@[64] as int) + (MAT@[138] as int) * (INV_MAT@[76] as int) + (MAT@[139] as int) * (INV_MAT@[88] as int) + (MAT@[140] as int) * (INV_MAT@[100] as int) + (MAT@[141] as int) * (INV_MAT@[112] as int) + (MAT@[142] as int) * (INV_MAT@[124] as int) + (MAT@[143] as int) * (INV_MAT@[136] as int));
    assert(((MAT@[132] as int) * (INV_MAT@[4] as int) + (MAT@[133] as int) * (INV_MAT@[16] as int) + (MAT@[134] as int) * (INV_MAT@[28] as int) + (MAT@[135] as int) * (INV_MAT@[40] as int) + (MAT@[136] as int) * (INV_MAT@[52] as int) + (MAT@[137] as int) * (INV_MAT@[64] as int) + (MAT@[138] as int) * (INV_MAT@[76] as int) + (MAT@[139] as int) * (INV_MAT@[88] as int) + (MAT@[140] as int) * (INV_MAT@[100] as int) + (MAT@[141] as int) * (INV_MAT@[112] as int) + (MAT@[142] as int) * (INV_MAT@[124] as int) + (MAT@[143] as int) * (INV_MAT@[136] as int)) % 340282366920938463463374557953744961537 == 0) by (nonlinear_arith)
        requires
            MAT@[132] == 2, MAT@[133] == 1, MAT@[134] == 1, MAT@[135] == 3, MAT@[136] == 2, MAT@[137] == 1, MAT@[138] == 1, MAT@[139] == 3, MAT@[140] == 4, MAT@[141] == 2, MAT@[142] == 2, MAT@[143] == 6, INV_MAT@[4] == 196877655147114396718095279958952442032, INV_MAT@[16] == 213891773493161319891264007856639690109, INV_MAT@[28] == 94792945070832857679082912572828953571, INV_MAT@[40] == 332990601915489782103445103140450426647, INV_MAT@[52] == 89931768400533736772463276030632596978, INV_MAT@[64] == 38889413362392967252957092337570852747, INV_MAT@[76] == 55903531708439890426125820235258100824, INV_MAT@[88] == 21875295016346044079788364439883604670, INV_MAT@[100] == 196877655147114396718095279958952442032, INV_MAT@[112] == 213891773493161319891264007856639690109, INV_MAT@[124] == 94792945070832857679082912572828953571, INV_MAT@[136] == 332990601915489782103445103140450426647,
    ;
    assert(product_entry(MAT@, INV_MAT@, 12, 11, 5) == (MAT@[132] as int) * (INV_MAT@[5] as int) + (MAT@[133] as int) * (INV_MAT@[17] as int) + (MAT@[134] as int) * (INV_MAT@[29] as int) + (MAT@[135] as int) * (INV_MAT@[41] as int) + (MAT@[136] as int) * (INV_MAT@[53] as int) + (MAT@[137] as int) * (INV_MAT@[65] as int) + (MAT@[138] as int) * (INV_MAT@[77] as int) + (MAT@[139] as int) * (INV_MAT@[89] as int) + (MAT@[140] as int) * (INV_MAT@[101] as int) + (MAT@[141] as int) * (INV_MAT@[113] as int) + (MAT@[142] as int) * (INV_MAT@[125] as int) + (MAT@[143] as int) * (INV_MAT@[137] as int));
    assert(((MAT@[132] as int) * (INV_MAT@[5] as int) + (MAT@[133] as int) * (INV_MAT@[17] as int) + (MAT@[134] as int) * (INV_MAT@[29] as int) + (MAT@[135] as int) * (INV_MAT@[41] as int) + (MAT@[136] as int) * (INV_MAT@[53] as int) + (MAT@[137] as int) * (INV_MAT@[65] as int) + (MAT@[138] as int) * (INV_MAT@[77] as int) + (MAT@[139] as int) * (INV_MAT@[89] as int) + (MAT@[140] as int) * (INV_MAT@[101] as int) + (MAT@[141] as int) * (INV_MAT@[113] as int) + (MAT@[142] as int) * (INV_MAT@[125] as int) + (MAT@[143] as int) * (INV_MAT@[137] as int)) % 340282366920938463463374557953744961537 == 0) by (nonlinear_arith)
        requires
            MAT@[132] == 2, MAT@[133] == 1, MAT@[134] == 1, MAT@[135] == 3, MAT@[136] == 2, MAT@[137] == 1, MAT@[138] == 1, MAT@[139] == 3, MAT@[140] == 4, MAT@[141] == 2, MAT@[142] == 2, MAT@[143] == 6, INV_MAT@[5] == 332990601915489782103445103140450426647, INV_MAT@[17] == 196877655147114396718095279958952442032, INV_MAT@[29] == 213891773493161319891264007856639690109, INV_MAT@[41] == 94792945070832857679082912572828953571, INV_MAT@[53] == 21875295016346044079788364439883604670, INV_MAT@[65] == 89931768400533736772463276030632596978, INV_MAT@[77] == 38889413362392967252957092337570852747, INV_MAT@[89] == 55903531708439890426125820235258100824, INV_MAT@[101] == 332990601915489782103445103140450426647, INV_MAT@[113] == 196877655147114396718095279958952442032, INV_MAT@[125] == 213891773493161319891264007856639690109, INV_MAT@[137] == 94792945070832857679082912572828953571,
    ;
    assert(product_entry(MAT@, INV_MAT@, 12, 11, 6) == (MAT@[132] as int) * (INV_MAT@[6] as int) + (MAT@[133] as int) * (INV_MAT@[18] as int) + (MAT@[134] as int) * (INV_MAT@[30] as int) + (MAT@[135] as int) * (INV_MAT@[42] as int) + (MAT@[136] as int) * (INV_MAT@[54] as int) + (MAT@[137] as int) * (INV_MAT@[66] as int) + (MAT@[138] as int) * (INV_MAT@[78] as int) + (MAT@[139] as int) * (INV_MAT@[90] as int) + (MAT@[140] as int) * (INV_MAT@[102] as int) + (MAT@[141] as int) * (INV_MAT@[114] as int) + (MAT@[142] as int) * (INV_MAT@[126] as int) + (MAT@[143] as int) * (INV_MAT@[138] as int));
    assert(((MAT@[132] as int) * (INV_MAT@[6] as int) + (MAT@[133] as int) * (INV_MAT@[18] as int) + (MAT@[134] as int) * (INV_MAT@[30] as int) + (MAT@[135] as int) * (INV_MAT@[42] as int) + (MAT@[136] as int) * (INV_MAT@[54] as int) + (MAT@[137] as int) * (INV_MAT@[66] as int) + (MAT@[138] as int) * (INV_MAT@[78] as int) + (MAT@[139] as int) * (INV_MAT@[90] as int) + (MAT@[140] as int) * (INV_MAT@[102] as int) + (MAT@[141] as int) * (INV_MAT@[114] as int) + (MAT@[142] as int) * (INV_MAT@[126] as int) + (MAT@[143] as int) * (INV_MAT@[138] as int)) % 340282366920938463463374557953744961537 == 0) by (nonlinear_arith)
        requires
            MAT@[132] == 2, MAT@[133] == 1, MAT@[134] == 1, MAT@[135] == 3, MAT@[136] == 2, MAT@[137] == 1, MAT@[138] == 1, MAT@[139] == 3, MAT@[140] == 4, MAT@[141] == 2, MAT@[142] == 2, MAT@[143] == 6, INV_MAT@[6] == 94792945070832857679082912572828953571, INV_MAT@[18] == 332990601915489782103445103140450426647, INV_MAT@[30] == 196877655147114396718095279958952442032, INV_MAT@[42] == 213891773493161319891264007856639690109, INV_MAT@[54] == 55903531708439890426125820235258100824, INV_MAT@[66] == 21875295016346044079788364439883604670, INV_MAT@[78] == 89931768400533736772463276030632596978, INV_MAT@[90] == 38889413362392967252957092337570852747, INV_MAT@[102] == 94792945070832857679082912572828953571, INV_MAT@[114] == 332990601915489782103445103140450426647, INV_MAT@[126] == 196877655147114396718095279958952442032, INV_MAT@[138] == 213891773493161319891264007856639690109,
    ;
    assert(product_entry(MAT@, INV_MAT@, 12, 11, 7) == (MAT@[132] as int) * (INV_MAT@[7] as int) + (MAT@[133] as int) * (INV_MAT@[19] as int) + (MAT@[134] as int) * (INV_MAT@[31] as int) + (MAT@[135] as int) * (INV_MAT@[43] as int) + (MAT@[136] as int) * (INV_MAT@[55] as int) + (MAT@[137] as int) * (INV_MAT@[67] as int) + (MAT@[138] as int) * (INV_MAT@[79] as int) + (MAT@[139] as int) * (INV_MAT@[91] as int) + (MAT@[140] as int) * (INV_MAT@[103] as int) + (MAT@[141] as int) * (INV_MAT@[115] as int) + (MAT@[142] as int) * (INV_MAT@[127] as int) + (MAT@[143] as int) * (INV_MAT@[139] as int));
    assert(((MAT@[132] as int) * (INV_MAT@[7] as int) + (MAT@[133] as int) * (INV_MAT@[19] as int) + (MAT@[134] as int) * (INV_MAT@[31] as int) + (MAT@[135] as int) * (INV_MAT@[43] as int) + (MAT@[136] as int) * (INV_MAT@[55] as int) + (MAT@[137] as int) * (INV_MAT@[67] as int) + (MAT@[138] as int) * (INV_MAT@[79] as int) + (MAT@[139] as int) * (INV_MAT@[91] as int) + (MAT@[140] as int) * (INV_MAT@[103] as int) + (MAT@[141] as int) * (INV_MAT@[115] as int) + (MAT@[142] as int) * (INV_MAT@[127] as int) + (MAT@[143] as int) * (INV_MAT@[139] as int)) % 340282366920938463463374557953744961537 == 0) by (nonlinear_arith)
        requires
            MAT@[132] == 2, MAT@[133] == 1, MAT@[134] == 1, MAT@[135] == 3, MAT@[136] == 2, MAT@[137] == 1, MAT@[138] == 1, MAT@[139] == 3, MAT@[140] == 4, MAT@[141] == 2, MAT@[142] == 2, MAT@[143] == 6, INV_MAT@[7] == 213891773493161319891264007856639690109, INV_MAT@[19] == 94792945070832857679082912572828953571, INV_MAT@[31] == 332990601915489782103445103140450426647, INV_MAT@[43] == 196877655147114396718095279958952442032, INV_MAT@[55] == 38889413362392967252957092337570852747, INV_MAT@[67] == 55903531708439890426125820235258100824, INV_MAT@[79] == 21875295016346044079788364439883604670, INV_MAT@[91] == 89931768400533736772463276030632596978, INV_MAT@[103] == 213891773493161319891264007856639690109, INV_MAT@[115] == 94792945070832857679082912572828953571, INV_MAT@[127] == 332990601915489782103445103140450426647, INV_MAT@[139] == 196877655147114396718095279958952442032,
    ;
    assert(product_entry(MAT@, INV_MAT@, 12, 11, 8) == (MAT@[132] as int) * (INV_MAT@[8] as int) + (MAT@[133] as int) * (INV_MAT@[20] as int) + (MAT@[134] as int) * (INV_MAT@[32] as int) + (MAT@[135] as int) * (INV_MAT@[44] as int) + (MAT@[136] as int) * (INV_MAT@[56] as int) + (MAT@[137] as int) * (INV_MAT@[68] as int) + (MAT@[138] as int) * (INV_MAT@[80] as int) + (MAT@[139] as int) * (INV_MAT@[92] as int) + (MAT@[140] as int) * (INV_MAT@[104] as int) + (MAT@[141] as int) * (INV_MAT@[116] as int) + (MAT@[142] as int) * (INV_MAT@[128] as int) + (MAT@[143] as int) * (INV_MAT@[140] as int));
    assert(((MAT@[132] as int) * (INV_MAT@[8] as int) + (MAT@[133] as int) * (INV_MAT@[20] as int) + (MAT@[134] as int) * (INV_MAT@[32] as int) + (MAT@[135] as int) * (INV_MAT@[44] as int) + (MAT@[136] as int) * (INV_MAT@[56] as int) + (MAT@[137] as int) * (INV_MAT@[68] as int) + (MAT@[138] as int) * (INV_MAT@[80] as int) + (MAT@[139] as int) * (INV_MAT@[92] as int) + (MAT@[140] as int) * (INV_MAT@[104] as int) + (MAT@[141] as int) * (INV_MAT@[116] as int) + (MAT@[142] as int) * (INV_MAT@[128] as int) + (MAT@[143] as int) * (INV_MAT@[140] as int)) % 340282366920938463463374557953744961537 == 0) by (nonlinear_arith)
        requires
            MAT@[132] == 2, MAT@[133] == 1, MAT@[134] == 1, MAT@[135] == 3, MAT@[136] == 2, MAT@[137] == 1, MAT@[138] == 1, MAT@[139] == 3, MAT@[140] == 4, MAT@[141] == 2, MAT@[142] == 2, MAT@[143] == 6, INV_MAT@[8] == 196877655147114396718095279958952442032, INV_MAT@[20] == 213891773493161319891264007856639690109, INV_MAT@[32] == 94792945070832857679082912572828953571, INV_MAT@[44] == 332990601915489782103445103140450426647, INV_MAT@[56] == 196877655147114396718095279958952442032, INV_MAT@[68] == 213891773493161319891264007856639690109, INV_MAT@[80] == 94792945070832857679082912572828953571, INV_MAT@[92] == 332990601915489782103445103140450426647, INV_MAT@[104] == 89931768400533736772463276030632596978, INV_MAT@[116] == 38889413362392967252957092337570852747, INV_MAT@[128] == 55903531708439890426125820235258100824, INV_MAT@[140] == 21875295016346044079788364439883604670,
    ;
    assert(product_entry(MAT@, INV_MAT@, 12, 11, 9) == (MAT@[132] as int) * (INV_MAT@[9] as int) + (MAT@[133] as int) * (INV_MAT@[21] as int) + (MAT@[134] as int) * (INV_MAT@[33] as int) + (MAT@[135] as int) * (INV_MAT@[45] as int) + (MAT@[136] as int) * (INV_MAT@[57] as int) + (MAT@[137] as int) * (INV_MAT@[69] as int) + (MAT@[138] as int) * (INV_MAT@[81] as int) + (MAT@[139] as int) * (INV_MAT@[93] as int) + (MAT@[140] as int) * (INV_MAT@[105] as int) + (MAT@[141] as int) * (INV_MAT@[117] as int) + (MAT@[142] as int) * (INV_MAT@[129] as int) + (MAT@[143] as int) * (INV_MAT@[141] as int));
    assert(((MAT@[132] as int) * (INV_MAT@[9] as int) + (MAT@[133] as int) * (INV_MAT@[21] as int) + (MAT@[134] as int) * (INV_MAT@[33] as int) + (MAT@[135] as int) * (INV_MAT@[45] as int) + (MAT@[136] as int) * (INV_MAT@[57] as int) + (MAT@[137] as int) * (INV_MAT@[69] as int) + (MAT@[138] as int) * (INV_MAT@[81] as int) + (MAT@[139] as int) * (INV_MAT@[93] as int) + (MAT@[140] as int) * (INV_MAT@[105] as int) + (MAT@[141] as int) * (INV_MAT@[117] as int) + (MAT@[142] as int) * (INV_MAT@[129] as int) + (MAT@[143] as int) * (INV_MAT@[141] as int)) % 340282366920938463463374557953744961537 == 0) by (nonlinear_arith)
        requires
            MAT@[132] == 2, MAT@[133] == 1, MAT@[134] == 1, MAT@[135] == 3, MAT@[136] == 2, MAT@[137] == 1, MAT@[138] == 1, MAT@[139] == 3, MAT@[140] == 4, MAT@[141] == 2, MAT@[142] == 2, MAT@[143] == 6, INV_MAT@[9] == 332990601915489782103445103140450426647, INV_MAT@[21] == 196877655147114396718095279958952442032, INV_MAT@[33] == 213891773493161319891264007856639690109, INV_MAT@[45] == 94792945070832857679082912572828953571, INV_MAT@[57] == 332990601915489782103445103140450426647, INV_MAT@[69] == 196877655147114396718095279958952442032, INV_MAT@[81] == 213891773493161319891264007856639690109, INV_MAT@[93] == 94792945070832857679082912572828953571, INV_MAT@[105] == 21875295016346044079788364439883604670, INV_MAT@[117] == 89931768400533736772463276030632596978, INV_MAT@[129] == 38889413362392967252957092337570852747, INV_MAT@[141] == 55903531708439890426125820235258100824,
    ;
    assert(product_entry(MAT@, INV_MAT@, 12, 11, 10) == (MAT@[132] as int) * (INV_MAT@[10] as int) + (MAT@[133] as int) * (INV_MAT@[22] as int) + (MAT@[134] as int) * (INV_MAT@[34] as int) + (MAT@[135] as int) * (INV_MAT@[46] as int) + (MAT@[136] as int) * (INV_MAT@[58] as int) + (MAT@[137] as int) * (INV_MAT@[70] as int) + (MAT@[138] as int) * (INV_MAT@[82] as int) + (MAT@[139] as int) * (INV_MAT@[94] as int) + (MAT@[140] as int) * (INV_MAT@[106] as int) + (MAT@[141] as int) * (INV_MAT@[118] as int) + (MAT@[142] as int) * (INV_MAT@[130] as int) + (MAT@[143] as int) * (INV_MAT@[142] as int));
    assert(((MAT@[132] as int) * (INV_MAT@[10] as int) + (MAT@[133] as int) * (INV_MAT@[22] as int) + (MAT@[134] as int) * (INV_MAT@[34] as int) + (MAT@[135] as int) * (INV_MAT@[46] as int) + (MAT@[136] as int) * (INV_MAT@[58] as int) + (MAT@[137] as int) * (INV_MAT@[70] as int) + (MAT@[138] as int) * (INV_MAT@[82] as int) + (MAT@[139] as int) * (INV_MAT@[94] as int) + (MAT@[140] as int) * (INV_MAT@[106] as int) + (MAT@[141] as int) * (INV_MAT@[118] as int) + (MAT@[142] as int) * (INV_MAT@[130] as int) + (MAT@[143] as int) * (INV_MAT@[142] as int)) % 340282366920938463463374557953744961537 == 0) by (nonlinear_arith)
        requires
            MAT@[132] == 2, MAT@[133] == 1, MAT@[134] == 1, MAT@[135] == 3, MAT@[136] == 2, MAT@[137] == 1, MAT@[138] == 1, MAT@[139] == 3, MAT@[140] == 4, MAT@[141] == 2, MAT@[142] == 2, MAT@[143] == 6, INV_MAT@[10] == 94792945070832857679082912572828953571, INV_MAT@[22] == 332990601915489782103445103140450426647, INV_MAT@[34] == 196877655147114396718095279958952442032, INV_MAT@[46] == 213891773493161319891264007856639690109, INV_MAT@[58] == 94792945070832857679082912572828953571, INV_MAT@[70] == 332990601915489782103445103140450426647, INV_MAT@[82] == 196877655147114396718095279958952442032, INV_MAT@[94] == 213891773493161319891264007856639690109, INV_MAT@[106] == 55903531708439890426125820235258100824, INV_MAT@[118] == 21875295016346044079788364439883604670, INV_MAT@[130] == 89931768400533736772463276030632596978, INV_MAT@[142] == 38889413362392967252957092337570852747,
    ;
    assert(product_entry(MAT@, INV_MAT@, 12, 11, 11) == (MAT@[132] as int) * (INV_MAT@[11] as int) + (MAT@[133] as int) * (INV_MAT@[23] as int) + (MAT@[134] as int) * (INV_MAT@[35] as int) + (MAT@[135] as int) * (INV_MAT@[47] as int) + (MAT@[136] as int) * (INV_MAT@[59] as int) + (MAT@[137] as int) * (INV_MAT@[71] as int) + (MAT@[138] as int) * (INV_MAT@[83] as int) + (MAT@[139] as int) * (INV_MAT@[95] as int) + (MAT@[140] as int) * (INV_MAT@[107] as int) + (MAT@[141] as int) * (INV_MAT@[119] as int) + (MAT@[142] as int) * (INV_MAT@[131] as int) + (MAT@[143] as int) * (INV_MAT@[143] as int));
    assert(((MAT@[132] as int) * (INV_MAT@[11] as int) + (MAT@[133] as int) * (INV_MAT@[23] as int) + (MAT@[134] as int) * (INV_MAT@[35] as int) + (MAT@[135] as int) * (INV_MAT@[47] as int) + (MAT@[136] as int) * (INV_MAT@[59] as int) + (MAT@[137] as int) * (INV_MAT@[71] as int) + (MAT@[138] as int) * (INV_MAT@[83] as int) + (MAT@[139] as int) * (INV_MAT@[95] as int) + (MAT@[140] as int) * (INV_MAT@[107] as int) + (MAT@[141] as int) * (INV_MAT@[119] as int) + (MAT@[142] as int) * (INV_MAT@[131] as int) + (MAT@[143] as int) * (INV_MAT@[143] as int)) % 340282366920938463463374557953744961537 == 1) by (nonlinear_arith)
        requires
            MAT@[132] == 2, MAT@[133] == 1, MAT@[134] == 1, MAT@[135] == 3, MAT@[136] == 2, MAT@[137] == 1, MAT@[138] == 1, MAT@[139] == 3, MAT@[140] == 4, MAT@[141] == 2, MAT@[142] == 2, MAT@[143] == 6, INV_MAT@[11] == 213891773493161319891264007856639690109, INV_MAT@[23] == 94792945070832857679082912572828953571, INV_MAT@[35] == 332990601915489782103445103140450426647, INV_MAT@[47] == 196877655147114396718095279958952442032, INV_MAT@[59] == 213891773493161319891264007856639690109, INV_MAT@[71] == 94792945070832857679082912572828953571, INV_MAT@[83] == 332990601915489782103445103140450426647, INV_MAT@[95] == 196877655147114396718095279958952442032, INV_MAT@[107] == 38889413362392967252957092337570852747, INV_MAT@[119] == 55903531708439890426125820235258100824, INV_MAT@[131] == 21875295016346044079788364439883604670, INV_MAT@[143] == 89931768400533736772463276030632596978,
    ;
}

proof fn lemma_product_forward()
    ensures
        product_is_identity(Elem::modulus(), MAT@, INV_MAT@, 12),
{
    lemma_product_forward_row_0();
    lemma_product_forward_row_1();
    lemma_product_forward_row_2();
    lemma_product_forward_row_3();
    lemma_product_forward_row_4();
    lemma_product_forward_row_5();
    lemma_product_forward_row_6();
    lemma_product_forward_row_7();
    lemma_product_forward_row_8();
    lemma_product_forward_row_9();
    lemma_product_forward_row_10();
    lemma_product_forward_row_11();
    reveal_with_fuel(identity_rows, 13);
    assert(identity_rows(Elem::modulus(), MAT@, INV_MAT@, 12, 12));
    lemma_identity_rows(Elem::modulus(), MAT@, INV_MAT@, 12);
}

proof fn lemma_product_backward_row_0()
    ensures
        identity_row(Elem::modulus(), INV_MAT@, MAT@, 12, 0, 12),
{
    reveal_with_fuel(sum, 13);
    reveal_with_fuel(identity_row, 13);
    assert(product_entry(INV_MAT@, MAT@, 12, 0, 0) == (INV_MAT@[0] as int) * (MAT@[0] as int) + (INV_MAT@[1] as int) * (MAT@[12] as int) + (INV_MAT@[2] as int) * (MAT@[24] as int) + (INV_MAT@[3] as int) * (MAT@[36] as int) + (INV_MAT@[4] as int) * (MAT@[48] as int) + (INV_MAT@[5] as int) * (MAT@[60] as int) + (INV_MAT@[6] as int) * (MAT@[72] as int) + (INV_MAT@[7] as int) * (MAT@[84] as int) + (INV_MAT@[8] as int) * (MAT@[96] as int) + (INV_MAT@[9] as int) * (MAT@[108] as int) + (INV_MAT@[10] as int) * (MAT@[120] as int) + (INV_MAT@[11] as int) * (MAT@[132] as int));
    assert(((INV_MAT@[0] as int) * (MAT@[0] as int) + (INV_MAT@[1] as int) * (MAT@[12] as int) + (INV_MAT@[2] as int) * (MAT@[24] as int) + (INV_MAT@[3] as int) * (MAT@[36] as int) + (INV_MAT@[4] as int) * (MAT@[48] as int) + (INV_MAT@[5] as int) * (MAT@[60] as int) + (INV_MAT@[6] as int) * (MAT@[72] as int) + (INV_MAT@[7] as int) * (MAT@[84] as int) + (INV_MAT@[8] as int) * (MAT@[96] as int) + (INV_MAT@[9] as int) * (MAT@[108] as int) + (INV_MAT@[10] as int) * (MAT@[120] as int) + (INV_MAT@[11] as int) * (MAT@[132] as int)) % 340282366920938463463374557953744961537 == 1) by (nonlinear_arith)
        requires
            INV_MAT@[0] == 89931768400533736772463276030632596978, INV_MAT@[1] == 21875295016346044079788364439883604670, INV_MAT@[2] == 55903531708439890426125820235258100824, INV_MAT@[3] == 38889413362392967252957092337570852747, INV_MAT@[4] == 196877655147114396718095279958952442032, INV_MAT@[5] == 332990601915489782103445103140450426647, INV_MAT@[6] == 94792945070832857679082912572828953571, INV_MAT@[7] == 213891773493161319891264007856639690109, INV_MAT@[8] == 196877655147114396718095279958952442032, INV_MAT@[9] == 332990601915489782103445103140450426647, INV_MAT@[10] == 94792945070832857679082912572828953571, INV_MAT@[11] == 213891773493161319891264007856639690109, MAT@[0] == 6, MAT@[12] == 2, MAT@[24] == 2, MAT@[36] == 4, MAT@[48] == 3, MAT@[60] == 1, MAT@[72] == 1, MAT@[84] == 2, MAT@[96] == 3, MAT@[108] == 1, MAT@[120] == 1, MAT@[132] == 2,
    ;
    assert(product_entry(INV_MAT@, MAT@, 12, 0, 1) == (INV_MAT@[0] as int) * (MAT@[1] as int) + (INV_MAT@[1] as int) * (MAT@[13] as int) + (INV_MAT@[2] as int) * (MAT@[25] as int) + (INV_MAT@[3] as int) * (MAT@[37] as int) + (INV_MAT@[4] as int) * (MAT@[49] as int) + (INV_MAT@[5] as int) * (MAT@[61] as int) + (INV_MAT@[6] as int) * (MAT@[73] as int) + (INV_MAT@[7] as int) * (MAT@[85] as int) + (INV_MAT@[8] as int) * (MAT@[97] as int) + (INV_MAT@[9] as int) * (MAT@[109] as int) + (INV_MAT@[10] as int) * (MAT@[121] as int) + (INV_MAT@[11] as int) * (MAT@[133] as int));
    assert(((INV_MAT@[0] as int) * (MAT@[1] as int) + (INV_MAT@[1] as int) * (MAT@[13] as int) + (INV_MAT@[2] as int) * (MAT@[25] as int) + (INV_MAT@[3] as int) * (MAT@[37] as int) + (INV_MAT@[4] as int) * (MAT@[49] as int) + (INV_MAT@[5] as int) * (MAT@[61] as int) + (INV_MAT@[6] as int) * (MAT@[73] as int) + (INV_MAT@[7] as int) * (MAT@[85] as int) + (INV_MAT@[8] as int) * (MAT@[97] as int) + (INV_MAT@[9] as int) * (MAT@[109] as int) + (INV_MAT@[10] as int) * (MAT@[121] as int) + (INV_MAT@[11] as int) * (MAT@[133] as int)) % 340282366920938463463374557953744961537 == 0) by (nonlinear_arith)
        requires
            INV_MAT@[0] == 89931768400533736772463276030632596978, INV_MAT@[1] == 21875295016346044079788364439883604670, INV_MAT@[2] == 55903531708439890426125820235258100824, INV_MAT@[3] == 38889413362392967252957092337570852747, INV_MAT@[4] == 196877655147114396718095279958952442032, INV_MAT@[5] == 332990601915489782103445103140450426647, INV_MAT@[6] == 94792945070832857679082912572828953571, INV_MAT@[7] == 213891773493161319891264007856639690109, INV_MAT@[8] == 196877655147114396718095279958952442032, INV_MAT@[9] == 332990601915489782103445103140450426647, INV_MAT@[10] == 94792945070832857679082912572828953571, INV_MAT@[11] == 213891773493161319891264007856639690109, MAT@[1] == 4, MAT@[13] == 6, MAT@[25] == 2, MAT@[37] == 2, MAT@[49] == 2, MAT@[61] == 3, MAT@[73] == 1, MAT@[85] == 1, MAT@[97] == 2, MAT@[109] == 3, MAT@[121] == 1, MAT@[133] == 1,
    ;
    assert(product_entry(INV_MAT@, MAT@, 12, 0, 2) == (INV_MAT@[0] as int) * (MAT@[2] as int) + (INV_MAT@[1] as int) * (MAT@[14] as int) + (INV_MAT@[2] as int) * (MAT@[26] as int) + (INV_MAT@[3] as int) * (MAT@[38] as int) + (INV_MAT@[4] as int) * (MAT@[50] as int) + (INV_MAT@[5] as int) * (MAT@[62] as int) + (INV_MAT@[6] as int) * (MAT@[74] as int) + (INV_MAT@[7] as int) * (MAT@[86] as int) + (INV_MAT@[8] as int) * (MAT@[98] as int) + (INV_MAT@[9] as int) * (MAT@[110] as int) + (INV_MAT@[10] as int) * (MAT@[122] as int) + (INV_MAT@[11] as int) * (MAT@[134] as int));
    assert(((INV_MAT@[0] as int) * (MAT@[2] as int) + (INV_MAT@[1] as int) * (MAT@[14] as int) + (INV_MAT@[2] as int) * (MAT@[26] as int) + (INV_MAT@[3] as int) * (MAT@[38] as int) + (INV_MAT@[4] as int) * (MAT@[50] as int) + (INV_MAT@[5] as int) * (MAT@[62] as int) + (INV_MAT@[6] as int) * (MAT@[74] as int) + (INV_MAT@[7] as int) * (MAT@[86] as int) + (INV_MAT@[8] as int) * (MAT@[98] as int) + (INV_MAT@[9] as int) * (MAT@[110] as int) + (INV_MAT@[10] as int) * (MAT@[122] as int) + (INV_MAT@[11] as int) * (MAT@[134] as int)) % 340282366920938463463374557953744961537 == 0) by (nonlinear_arith)
        requires
            INV_MAT@[0] == 89931768400533736772463276030632596978, INV_MAT@[1] == 21875295016346044079788364439883604670, INV_MAT@[2] == 55903531708439890426125820235258100824, INV_MAT@[3] == 38889413362392967252957092337570852747, INV_MAT@[4] == 196877655147114396718095279958952442032, INV_MAT@[5] == 332990601915489782103445103140450426647, INV_MAT@[6] == 94792945070832857679082912572828953571, INV_MAT@[7] == 213891773493161319891264007856639690109, INV_MAT@[8] == 196877655147114396718095279958952442032, INV_MAT@[9] == 332990601915489782103445103140450426647, INV_MAT@[10] == 94792945070832857679082912572828953571, INV_MAT@[11] == 213891773493161319891264007856639690109, MAT@[2] == 2, MAT@[14] == 4, MAT@[26] == 6, MAT@[38] == 2, MAT@[50] == 1, MAT@[62] == 2, MAT@[74] == 3, MAT@[86] == 1, MAT@[98] == 1, MAT@[110] == 2, MAT@[122] == 3, MAT@[134] == 1,
    ;
    assert(product_entry(INV_MAT@, MAT@, 12, 0, 3) == (INV_MAT@[0] as int) * (MAT@[3] as int) + (INV_MAT@[1] as int) * (MAT@[15] as int) + (INV_MAT@[2] as int) * (MAT@[27] as int) + (INV_MAT@[3] as int) * (MAT@[39] as int) + (INV_MAT@[4] as int) * (MAT@[51] as int) + (INV_MAT@[5] as int) * (MAT@[63] as int) + (INV_MAT@[6] as int) * (MAT@[75] as int) + (INV_MAT@[7] as int) * (MAT@[87] as int) + (INV_MAT@[8] as int) * (MAT@[99] as int) + (INV_MAT@[9] as int) * (MAT@[111] as int) + (INV_MAT@[10] as int) * (MAT@[123] as int) + (INV_MAT@[11] as int) * (MAT@[135] as int));
    assert(((INV_MAT@[0] as int) * (MAT@[3] as int) + (INV_MAT@[1] as int) * (MAT@[15] as int) + (INV_MAT@[2] as int) * (MAT@[27] as int) + (INV_MAT@[3] as int) * (MAT@[39] as int) + (INV_MAT@[4] as int) * (MAT@[51] as int) + (INV_MAT@[5] as int) * (MAT@[63] as int) + (INV_MAT@[6] as int) * (MAT@[75] as int) + (INV_MAT@[7] as int) * (MAT@[87] as int) + (INV_MAT@[8] as int) * (MAT@[99] as int) + (INV_MAT@[9] as int) * (MAT@[111] as int) + (INV_MAT@[10] as int) * (MAT@[123] as int) + (INV_MAT@[11] as int) * (MAT@[135] as int)) % 340282366920938463463374557953744961537 == 0) by (nonlinear_arith)
        requires
            INV_MAT@[0] == 89931768400533736772463276030632596978, INV_MAT@[1] == 21875295016346044079788364439883604670, INV_MAT@[2] == 55903531708439890426125820235258100824, INV_MAT@[3] == 38889413362392967252957092337570852747, INV_MAT@[4] == 196877655147114396718095279958952442032, INV_MAT@[5] == 332990601915489782103445103140450426647, INV_MAT@[6] == 94792945070832857679082912572828953571, INV_MAT@[7] == 213891773493161319891264007856639690109, INV_MAT@[8] == 196877655147114396718095279958952442032, INV_MAT@[9] == 332990601915489782103445103140450426647, INV_MAT@[10] == 94792945070832857679082912572828953571, INV_MAT@[11] == 213891773493161319891264007856639690109, MAT@[3] == 2, MAT@[15] == 2, MAT@[27] == 4, MAT@[39] == 6, MAT@[51] == 1, MAT@[63] == 1, MAT@[75] == 2, MAT@[87] == 3, MAT@[99] == 1, MAT@[111] == 1, MAT@[123] == 2, MAT@[135] == 3,
    ;
    assert(product_entry(INV_MAT@, MAT@, 12, 0, 4) == (INV_MAT@[0] as int) * (MAT@[4] as int) + (INV_MAT@[1] as int) * (MAT@[16] as int) + (INV_MAT@[2] as int) * (MAT@[28] as int) + (INV_MAT@[3] as int) * (MAT@[40] as int) + (INV_MAT@[4] as int) * (MAT@[52] as int) + (INV_MAT@[5] as int) * (MAT@[64] as int) + (INV_MAT@[6] as int) * (MAT@[76] as int) + (INV_MAT@[7] as int) * (MAT@[88] as int) + (INV_MAT@[8] as int) * (MAT@[100] as int) + (INV_MAT@[9] as int) * (MAT@[112] as int) + (INV_MAT@[10] as int) * (MAT@[124] as int) + (INV_MAT@[11] as int) * (MAT@[136] as int));
    assert(((INV_MAT@[0] as int) * (MAT@[4] as int) + (INV_MAT@[1] as int) * (MAT@[16] as int) + (INV_MAT@[2] as int) * (MAT@[28] as int) + (INV_MAT@[3] as int) * (MAT@[40] as int) + (INV_MAT@[4] as int) * (MAT@[52] as int) + (INV_MAT@[5] as int) * (MAT@[64] as int) + (INV_MAT@[6] as int) * (MAT@[76] as int) + (INV_MAT@[7] as int) * (MAT@[88] as int) + (INV_MAT@[8] as int) * (MAT@[100] as int) + (INV_MAT@[9] as int) * (MAT@[112] as int) + (INV_MAT@[10] as int) * (MAT@[124] as int) + (INV_MAT@[11] as int) * (MAT@[136] as int)) % 340282366920938463463374557953744961537 == 0) by (nonlinear_arith)
        requires
            INV_MAT@[0] == 89931768400533736772463276030632596978, INV_MAT@[1] == 21875295016346044079788364439883604670, INV_MAT@[2] == 55903531708439890426125820235258100824, INV_MAT@[3] == 38889413362392967252957092337570852747, INV_MAT@[4] == 196877655147114396718095279958952442032, INV_MAT@[5] == 332990601915489782103445103140450426647, INV_MAT@[6] == 94792945070832857679082912572828953571, INV_MAT@[7] == 213891773493161319891264007856639690109, INV_MAT@[8] == 196877655147114396718095279958952442032, INV_MAT@[9] == 332990601915489782103445103140450426647, INV_MAT@[10] == 94792945070832857679082912572828953571, INV_MAT@[11] == 213891773493161319891264007856639690109, MAT@[4] == 3, MAT@[16] == 1, MAT@[28] == 1, MAT@[40] == 2, MAT@[52] == 6, MAT@[64] == 2, MAT@[76] == 2, MAT@[88] == 4, MAT@[100] == 3, MAT@[112] == 1, MAT@[124] == 1, MAT@[136] == 2,
    ;
    assert(product_entry(INV_MAT@, MAT@, 12, 0, 5) == (INV_MAT@[0] as int) * (MAT@[5] as int) + (INV_MAT@[1] as int) * (MAT@[17] as int) + (INV_MAT@[2] as int) * (MAT@[29] as int) + (INV_MAT@[3] as int) * (MAT@[41] as int) + (INV_MAT@[4] as int) * (MAT@[53] as int) + (INV_MAT@[5] as int) * (MAT@[65] as int) + (INV_MAT@[6] as int) * (MAT@[77] as int) + (INV_MAT@[7] as int) * (MAT@[89] as int) + (INV_MAT@[8] as int) * (MAT@[101] as int) + (INV_MAT@[9] as int) * (MAT@[113] as int) + (INV_MAT@[10] as int) * (MAT@[125] as int) + (INV_MAT@[11] as int) * (MAT@[137] as int));
    assert(((INV_MAT@[0] as int) * (MAT@[5] as int) + (INV_MAT@[1] as int) * (MAT@[17] as int) + (INV_MAT@[2] as int) * (MAT@[29] as int) + (INV_MAT@[3] as int) * (MAT@[41] as int) + (INV_MAT@[4] as int) * (MAT@[53] as int) + (INV_MAT@[5] as int) * (MAT@[65] as int) + (INV_MAT@[6] as int) * (MAT@[77] as int) + (INV_MAT@[7] as int) * (MAT@[89] as int) + (INV_MAT@[8] as int) * (MAT@[101] as int) + (INV_MAT@[9] as int) * (MAT@[113] as int) + (INV_MAT@[10] as int) * (MAT@[125] as int) + (INV_MAT@[11] as int) * (MAT@[137] as int)) % 340282366920938463463374557953744961537 == 0) by (nonlinear_arith)
        requires
            INV_MAT@[0] == 89931768400533736772463276030632596978, INV_MAT@[1] == 21875295016346044079788364439883604670, INV_MAT@[2] == 55903531708439890426125820235258100824, INV_MAT@[3] == 38889413362392967252957092337570852747, INV_MAT@[4] == 196877655147114396718095279958952442032, INV_MAT@[5] == 332990601915489782103445103140450426647, INV_MAT@[6] == 94792945070832857679082912572828953571, INV_MAT@[7] == 213891773493161319891264007856639690109, INV_MAT@[8] == 196877655147114396718095279958952442032, INV_MAT@[9] == 332990601915489782103445103140450426647, INV_MAT@[10] == 94792945070832857679082912572828953571, INV_MAT@[11] == 213891773493161319891264007856639690109, MAT@[5] == 2, MAT@[17] == 3, MAT@[29] == 1, MAT@[41] == 1, MAT@[53] == 4, MAT@[65] == 6, MAT@[77] == 2, MAT@[89] == 2, MAT@[101] == 2, MAT@[113] == 3, MAT@[125] == 1, MAT@[137] == 1,
    ;
    assert(product_entry(INV_MAT@, MAT@, 12, 0, 6) == (INV_MAT@[0] as int) * (MAT@[6] as int) + (INV_MAT@[1] as int) * (MAT@[18] as int) + (INV_MAT@[2] as int) * (MAT@[30] as int) + (INV_MAT@[3] as int) * (MAT@[42] as int) + (INV_MAT@[4] as int) * (MAT@[54] as int) + (INV_MAT@[5] as int) * (MAT@[66] as int) + (INV_MAT@[6] as int) * (MAT@[78] as int) + (INV_MAT@[7] as int) * (MAT@[90] as int) + (INV_MAT@[8] as int) * (MAT@[102] as int) + (INV_MAT@[9] as int) * (MAT@[114] as int) + (INV_MAT@[10] as int) * (MAT@[126] as int) + (INV_MAT@[11] as int) * (MAT@[138] as int));
    assert(((INV_MAT@[0] as int) * (MAT@[6] as int) + (INV_MAT@[1] as int) * (MAT@[18] as int) + (INV_MAT@[2] as int) * (MAT@[30] as int) + (INV_MAT@[3] as int) * (MAT@[42] as int) + (INV_MAT@[4] as int) * (MAT@[54] as int) + (INV_MAT@[5] as int) * (MAT@[66] as int) + (INV_MAT@[6] as int) * (MAT@[78] as int) + (INV_MAT@[7] as int) * (MAT@[90] as int) + (INV_MAT@[8] as int) * (MAT@[102] as int) + (INV_MAT@[9] as int) * (MAT@[114] as int) + (INV_MAT@[10] as int) * (MAT@[126] as int) + (INV_MAT@[11] as int) * (MAT@[138] as int)) % 340282366920938463463374557953744961537 == 0) by (nonlinear_arith)
        requires
            INV_MAT@[0] == 89931768400533736772463276030632596978, INV_MAT@[1] == 21875295016346044079788364439883604670, INV_MAT@[2] == 55903531708439890426125820235258100824, INV_MAT@[3] == 38889413362392967252957092337570852747, INV_MAT@[4] == 196877655147114396718095279958952442032, INV_MAT@[5] == 332990601915489782103445103140450426647, INV_MAT@[6] == 94792945070832857679082912572828953571, INV_MAT@[7] == 213891773493161319891264007856639690109, INV_MAT@[8] == 196877655147114396718095279958952442032, INV_MAT@[9] == 332990601915489782103445103140450426647, INV_MAT@[10] == 94792945070832857679082912572828953571, INV_MAT@[11] == 213891773493161319891264007856639690109, MAT@[6] == 1, MAT@[18] == 2, MAT@[30] == 3, MAT@[42] == 1, MAT@[54] == 2, MAT@[66] == 4, MAT@[78] == 6, MAT@[90] == 2, MAT@[102] == 1, MAT@[114] == 2, MAT@[126] == 3, MAT@[138] == 1,
    ;
    assert(product_entry(INV_MAT@, MAT@, 12, 0, 7) == (INV_MAT@[0] as int) * (MAT@[7] as int) + (INV_MAT@[1] as int) * (MAT@[19] as int) + (INV_MAT@[2] as int) * (MAT@[31] as int) + (INV_MAT@[3] as int) * (MAT@[43] as int) + (INV_MAT@[4] as int) * (MAT@[55] as int) + (INV_MAT@[5] as int) * (MAT@[67] as int) + (INV_MAT@[6] as int) * (MAT@[79] as int) + (INV_MAT@[7] as int) * (MAT@[91] as int) + (INV_MAT@[8] as int) * (MAT@[103] as int) + (INV_MAT@[9] as int) * (MAT@[115] as int) + (INV_MAT@[10] as int) * (MAT@[127] as int) + (INV_MAT@[11] as int) * (MAT@[139] as int));
    assert(((INV_MAT@[0] as int) * (MAT@[7] as int) + (INV_MAT@[1] as int) * (MAT@[19] as int) + (INV_MAT@[2] as int) * (MAT@[31] as int) + (INV_MAT@[3] as int) * (MAT@[43] as int) + (INV_MAT@[4] as int) * (MAT@[55] as int) + (INV_MAT@[5] as int) * (MAT@[67] as int) + (INV_MAT@[6] as int) * (MAT@[79] as int) + (INV_MAT@[7] as int) * (MAT@[91] as int) + (INV_MAT@[8] as int) * (MAT@[103] as int) + (INV_MAT@[9] as int) * (MAT@[115] as int) + (INV_MAT@[10] as int) * (MAT@[127] as int) + (INV_MAT@[11] as int) * (MAT@[139] as int)) % 340282366920938463463374557953744961537 == 0) by (nonlinear_arith)
        requires
            INV_MAT@[0] == 89931768400533736772463276030632596978, INV_MAT@[1] == 21875295016346044079788364439883604670, INV_MAT@[2] == 55903531708439890426125820235258100824, INV_MAT@[3] == 38889413362392967252957092337570852747, INV_MAT@[4] == 196877655147114396718095279958952442032, INV_MAT@[5] == 332990601915489782103445103140450426647, INV_MAT@[6] == 94792945070832857679082912572828953571, INV_MAT@[7] == 213891773493161319891264007856639690109, INV_MAT@[8] == 196877655147114396718095279958952442032, INV_MAT@[9] == 332990601915489782103445103140450426647, INV_MAT@[10] == 94792945070832857679082912572828953571, INV_MAT@[11] == 213891773493161319891264007856639690109, MAT@[7] == 1, MAT@[19] == 1, MAT@[31] == 2, MAT@[43] == 3, MAT@[55] == 2, MAT@[67] == 2, MAT@[79] == 4, MAT@[91] == 6, MAT@[103] == 1, MAT@[115] == 1, MAT@[127] == 2, MAT@[139] == 3,
    ;
    assert(product_entry(INV_MAT@, MAT@, 12, 0, 8) == (INV_MAT@[0] as int) * (MAT@[8] as int) + (INV_MAT@[1] as int) * (MAT@[20] as int) + (INV_MAT@[2] as int) * (MAT@[32] as int) + (INV_MAT@[3] as int) * (MAT@[44] as int) + (INV_MAT@[4] as int) * (MAT@[56] as int) + (INV_MAT@[5] as int) * (MAT@[68] as int) + (INV_MAT@[6] as int) * (MAT@[80] as int) + (INV_MAT@[7] as int) * (MAT@[92] as int) + (INV_MAT@[8] as int) * (MAT@[104] as int) + (INV_MAT@[9] as int) * (MAT@[116] as int) + (INV_MAT@[10] as int) * (MAT@[128] as int) + (INV_MAT@[11] as int) * (MAT@[140] as int));
    assert(((INV_MAT@[0] as int) * (MAT@[8] as int) + (INV_MAT@[1] as int) * (MAT@[20] as int) + (INV_MAT@[2] as int) * (MAT@[32] as int) + (INV_MAT@[3] as int) * (MAT@[44] as int) + (INV_MAT@[4] as int) * (MAT@[56] as int) + (INV_MAT@[5] as int) * (MAT@[68] as int) + (INV_MAT@[6] as int) * (MAT@[80] as int) + (INV_MAT@[7] as int) * (MAT@[92] as int) + (INV_MAT@[8] as int) * (MAT@[104] as int) + (INV_MAT@[9] as int) * (MAT@[116] as int) + (INV_MAT@[10] as int) * (MAT@[128] as int) + (INV_MAT@[11] as int) * (MAT@[140] as int)) % 340282366920938463463374557953744961537 == 0) by (nonlinear_arith)
        requires
            INV_MAT@[0] == 89931768400533736772463276030632596978, INV_MAT@[1] == 21875295016346044079788364439883604670, INV_MAT@[2] == 55903531708439890426125820235258100824, INV_MAT@[3] == 38889413362392967252957092337570852747, INV_MAT@[4] == 196877655147114396718095279958952442032, INV_MAT@[5] == 332990601915489782103445103140450426647, INV_MAT@[6] == 94792945070832857679082912572828953571, INV_MAT@[7] == 213891773493161319891264007856639690109, INV_MAT@[8] == 196877655147114396718095279958952442032, INV_MAT@[9] == 332990601915489782103445103140450426647, INV_MAT@[10] == 94792945070832857679082912572828953571, INV_MAT@[11] == 213891773493161319891264007856639690109, MAT@[8] == 3, MAT@[20] == 1, MAT@[32] == 1, MAT@[44] == 2, MAT@[56] == 3, MAT@[68] == 1, MAT@[80] == 1, MAT@[92] == 2, MAT@[104] == 6, MAT@[116] == 2, MAT@[128] == 2, MAT@[140] == 4,
    ;
    assert(product_entry(INV_MAT@, MAT@, 12, 0, 9) == (INV_MAT@[0] as int) * (MAT@[9] as int) + (INV_MAT@[1] as int) * (MAT@[21] as int) + (INV_MAT@[2] as int) * (MAT@[33] as int) + (INV_MAT@[3] as int) * (MAT@[45] as int) + (INV_MAT@[4] as int) * (MAT@[57] as int) + (INV_MAT@[5] as int) * (MAT@[69] as int) + (INV_MAT@[6] as int) * (MAT@[81] as int) + (INV_MAT@[7] as int) * (MAT@[93] as int) + (INV_MAT@[8] as int) * (MAT@[105] as int) + (INV_MAT@[9] as int) * (MAT@[117] as int) + (INV_MAT@[10] as int) * (MAT@[129] as int) + (INV_MAT@[11] as int) * (MAT@[141] as int));
    assert(((INV_MAT@[0] as int) * (MAT@[9] as int) + (INV_MAT@[1] as int) * (MAT@[21] as int) + (INV_MAT@[2] as int) * (MAT@[33] as int) + (INV_MAT@[3] as int) * (MAT@[45] as int) + (INV_MAT@[4] as int) * (MAT@[57] as int) + (INV_MAT@[5] as int) * (MAT@[69] as int) + (INV_MAT@[6] as int) * (MAT@[81] as int) + (INV_MAT@[7] as int) * (MAT@[93] as int) + (INV_MAT@[8] as int) * (MAT@[105] as int) + (INV_MAT@[9] as int) * (MAT@[117] as int) + (INV_MAT@[10] as int) * (MAT@[129] as int) + (INV_MAT@[11] as int) * (MAT@[141] as int)) % 340282366920938463463374557953744961537 == 0) by (nonlinear_arith)
        requires
            INV_MAT@[0] == 89931768400533736772463276030632596978, INV_MAT@[1] == 21875295016346044079788364439883604670, INV_MAT@[2] == 55903531708439890426125820235258100824, INV_MAT@[3] == 38889413362392967252957092337570852747, INV_MAT@[4] == 196877655147114396718095279958952442032, INV_MAT@[5] == 332990601915489782103445103140450426647, INV_MAT@[6] == 94792945070832857679082912572828953571, INV_MAT@[7] == 213891773493161319891264007856639690109, INV_MAT@[8] == 196877655147114396718095279958952442032, INV_MAT@[9] == 332990601915489782103445103140450426647, INV_MAT@[10] == 94792945070832857679082912572828953571, INV_MAT@[11] == 213891773493161319891264007856639690109, MAT@[9] == 2, MAT@[21] == 3, MAT@[33] == 1, MAT@[45] == 1, MAT@[57] == 2, MAT@[69] == 3, MAT@[81] == 1, MAT@[93] == 1, MAT@[105] == 4, MAT@[117] == 6, MAT@[129] == 2, MAT@[141] == 2,
    ;
    assert(product_entry(INV_MAT@, MAT@, 12, 0, 10) == (INV_MAT@[0] as int) * (MAT@[10] as int) + (INV_MAT@[1] as int) * (MAT@[22] as int) + (INV_MAT@[2] as int) * (MAT@[34] as int) + (INV_MAT@[3] as int) * (MAT@[46] as int) + (INV_MAT@[4] as int) * (MAT@[58] as int) + (INV_MAT@[5] as int) * (MAT@[70] as int) + (INV_MAT@[6] as int) * (MAT@[82] as int) + (INV_MAT@[7] as int) * (MAT@[94] as int) + (INV_MAT@[8] as int) * (MAT@[106] as int) + (INV_MAT@[9] as int) * (MAT@[118] as int) + (INV_MAT@[10] as int) * (MAT@[130] as int) + (INV_MAT@[11] as int) * (MAT@[142] as int));
    assert(((INV_MAT@[0] as int) * (MAT@[10] as int) + (INV_MAT@[1] as int) * (MAT@[22] as int) + (INV_MAT@[2] as int) * (MAT@[34] as int) + (INV_MAT@[3] as int) * (MAT@[46] as int) + (INV_MAT@[4] as int) * (MAT@[58] as int) + (INV_MAT@[5] as int) * (MAT@[70] as int) + (INV_MAT@[6] as int) * (MAT@[82] as int) + (INV_MAT@[7] as int) * (MAT@[94] as int) + (INV_MAT@[8] as int) * (MAT@[106] as int) + (INV_MAT@[9] as int) * (MAT@[118] as int) + (INV_MAT@[10] as int) * (MAT@[130] as int) + (INV_MAT@[11] as int) * (MAT@[142] as int)) % 340282366920938463463374557953744961537 == 0) by (nonlinear_arith)
        requires
            INV_MAT@[0] == 89931768400533736772463276030632596978, INV_MAT@[1] == 21875295016346044079788364439883604670, INV_MAT@[2] == 55903531708439890426125820235258100824, INV_MAT@[3] == 38889413362392967252957092337570852747, INV_MAT@[4] == 196877655147114396718095279958952442032, INV_MAT@[5] == 332990601915489782103445103140450426647, INV_MAT@[6] == 94792945070832857679082912572828953571, INV_MAT@[7] == 213891773493161319891264007856639690109, INV_MAT@[8] == 196877655147114396718095279958952442032, INV_MAT@[9] == 332990601915489782103445103140450426647, INV_MAT@[10] == 94792945070832857679082912572828953571, INV_MAT@[11] == 213891773493161319891264007856639690109, MAT@[10] == 1, MAT@[22] == 2, MAT@[34] == 3, MAT@[46] == 1, MAT@[58] == 1, MAT@[70] == 2, MAT@[82] == 3, MAT@[94] == 1, MAT@[106] == 2, MAT@[118] == 4, MAT@[130] == 6, MAT@[142] == 2,
    ;
    assert(product_entry(INV_MAT@, MAT@, 12, 0, 11) == (INV_MAT@[0] as int) * (MAT@[11] as int) + (INV_MAT@[1] as int) * (MAT@[23] as int) + (INV_MAT@[2] as int) * (MAT@[35] as int) + (INV_MAT@[3] as int) * (MAT@[47] as int) + (INV_MAT@[4] as int) * (MAT@[59] as int) + (INV_MAT@[5] as int) * (MAT@[71] as int) + (INV_MAT@[6] as int) * (MAT@[83] as int) + (INV_MAT@[7] as int) * (MAT@[95] as int) + (INV_MAT@[8] as int) * (MAT@[107] as int) + (INV_MAT@[9] as int) * (MAT@[119] as int) + (INV_MAT@[10] as int) * (MAT@[131] as int) + (INV_MAT@[11] as int) * (MAT@[143] as int));
    assert(((INV_MAT@[0] as int) * (MAT@[11] as int) + (INV_MAT@[1] as int) * (MAT@[23] as int) + (INV_MAT@[2] as int) * (MAT@[35] as int) + (INV_MAT@[3] as int) * (MAT@[47] as int) + (INV_MAT@[4] as int) * (MAT@[59] as int) + (INV_MAT@[5] as int) * (MAT@[71] as int) + (INV_MAT@[6] as int) * (MAT@[83] as int) + (INV_MAT@[7] as int) * (MAT@[95] as int) + (INV_MAT@[8] as int) * (MAT@[107] as int) + (INV_MAT@[9] as int) * (MAT@[119] as int) + (INV_MAT@[10] as int) * (MAT@[131] as int) + (INV_MAT@[11] as int) * (MAT@[143] as int)) % 340282366920938463463374557953744961537 == 0) by (nonlinear_arith)
        requires
            INV_MAT@[0] == 89931768400533736772463276030632596978, INV_MAT@[1] == 21875295016346044079788364439883604670, INV_MAT@[2] == 55903531708439890426125820235258100824, INV_MAT@[3] == 38889413362392967252957092337570852747, INV_MAT@[4] == 196877655147114396718095279958952442032, INV_MAT@[5] == 332990601915489782103445103140450426647, INV_MAT@[6] == 94792945070832857679082912572828953571, INV_MAT@[7] == 213891773493161319891264007856639690109, INV_MAT@[8] == 196877655147114396718095279958952442032, INV_MAT@[9] == 332990601915489782103445103140450426647, INV_MAT@[10] == 94792945070832857679082912572828953571, INV_MAT@[11] == 213891773493161319891264007856639690109, MAT@[11] == 1, MAT@[23] == 1, MAT@[35] == 2, MAT@[47] == 3, MAT@[59] == 1, MAT@[71] == 1, MAT@[83] == 2, MAT@[95] == 3, MAT@[107] == 2, MAT@[119] == 2, MAT@[131] == 4, MAT@[143] == 6,
    ;
}

proof fn lemma_product_backward_row_1()
    ensures
        identity_row(Elem::modulus(), INV_MAT@, MAT@, 12, 1, 12),
{
    reveal_with_fuel(sum, 13);
    reveal_with_fuel(identity_row, 13);
    assert(product_entry(INV_MAT@, MAT@, 12, 1, 0) == (INV_MAT@[12] as int) * (MAT@[0] as int) + (INV_MAT@[13] as int) * (MAT@[12] as int) + (INV_MAT@[14] as int) * (MAT@[24] as int) + (INV_MAT@[15] as int) * (MAT@[36] as int) + (INV_MAT@[16] as int) * (MAT@[48] as int) + (INV_MAT@[17] as int) * (MAT@[60] as int) + (INV_MAT@[18] as int) * (MAT@[72] as int) + (INV_MAT@[19] as int) * (MAT@[84] as int) + (INV_MAT@[20] as int) * (MAT@[96] as int) + (INV_MAT@[21] as int) * (MAT@[108] as int) + (INV_MAT@[22] as int) * (MAT@[120] as int) + (INV_MAT@[23] as int) * (MAT@[132] as int));
    assert(((INV_MAT@[12] as int) * (MAT@[0] as int) + (INV_MAT@[13] as int) * (MAT@[12] as int) + (INV_MAT@[14] as int) * (MAT@[24] as int) + (INV_MAT@[15] as int) * (MAT@[36] as int) + (INV_MAT@[16] as int) * (MAT@[48] as int) + (INV_MAT@[17] as int) * (MAT@[60] as int) + (INV_MAT@[18] as int) * (MAT@[72] as int) + (INV_MAT@[19] as int) * (MAT@[84] as int) + (INV_MAT@[20] as int) * (MAT@[96] as int) + (INV_MAT@[21] as int) * (MAT@[108] as int) + (INV_MAT@[22] as int) * (MAT@[120] as int) + (INV_MAT@[23] as int) * (MAT@[132] as int)) % 340282366920938463463374557953744961537 == 0) by (nonlinear_arith)
        requires
            INV_MAT@[12] == 38889413362392967252957092337570852747, INV_MAT@[13] == 89931768400533736772463276030632596978, INV_MAT@[14] == 21875295016346044079788364439883604670, INV_MAT@[15] == 55903531708439890426125820235258100824, INV_MAT@[16] == 213891773493161319891264007856639690109, INV_MAT@[17] == 196877655147114396718095279958952442032, INV_MAT@[18] == 332990601915489782103445103140450426647, INV_MAT@[19] == 94792945070832857679082912572828953571, INV_MAT@[20] == 213891773493161319891264007856639690109, INV_MAT@[21] == 196877655147114396718095279958952442032, INV_MAT@[22] == 332990601915489782103445103140450426647, INV_MAT@[23] == 94792945070832857679082912572828953571, MAT@[0] == 6, MAT@[12] == 2, MAT@[24] == 2, MAT@[36] == 4, MAT@[48] == 3, MAT@[60] == 1, MAT@[72] == 1, MAT@[84] == 2, MAT@[96] == 3, MAT@[108] == 1, MAT@[120] == 1, MAT@[132] == 2,
    ;
    assert(product_entry(INV_MAT@, MAT@, 12, 1, 1) == (INV_MAT@[12] as int) * (MAT@[1] as int) + (INV_MAT@[13] as int) * (MAT@[13] as int) + (INV_MAT@[14] as int) * (MAT@[25] as int) + (INV_MAT@[15] as int) * (MAT@[37] as int) + (INV_MAT@[16] as int) * (MAT@[49] as int) + (INV_MAT@[17] as int) * (MAT@[61] as int) + (INV_MAT@[18] as int) * (MAT@[73] as int) + (INV_MAT@[19] as int) * (MAT@[85] as int) + (INV_MAT@[20] as int) * (MAT@[97] as int) + (INV_MAT@[21] as int) * (MAT@[109] as int) + (INV_MAT@[22] as int) * (MAT@[121] as int) + (INV_MAT@[23] as int) * (MAT@[133] as int));
    assert(((INV_MAT@[12] as int) * (MAT@[1] as int) + (INV_MAT@[13] as int) * (MAT@[13] as int) + (INV_MAT@[14] as int) * (MAT@[25] as int) + (INV_MAT@[15] as int) * (MAT@[37] as int) + (INV_MAT@[16] as int) * (MAT@[49] as int) + (INV_MAT@[17] as int) * (MAT@[61] as int) + (INV_MAT@[18] as int) * (MAT@[73] as int) + (INV_MAT@[19] as int) * (MAT@[85] as int) + (INV_MAT@[20] as int) * (MAT@[97] as int) + (INV_MAT@[21] as int) * (MAT@[109] as int) + (INV_MAT@[22] as int) * (MAT@[121] as int) + (INV_MAT@[23] as int) * (MAT@[133] as int)) % 340282366920938463463374557953744961537 == 1) by (nonlinear_arith)
        requires
            INV_MAT@[12] == 38889413362392967252957092337570852747, INV_MAT@[13] == 89931768400533736772463276030632596978, INV_MAT@[14] == 21875295016346044079788364439883604670, INV_MAT@[15] == 55903531708439890426125820235258100824, INV_MAT@[16] == 213891773493161319891264007856639690109, INV_MAT@[17] == 196877655147114396718095279958952442032, INV_MAT@[18] == 332990601915489782103445103140450426647, INV_MAT@[19] == 94792945070832857679082912572828953571, INV_MAT@[20] == 213891773493161319891264007856639690109, INV_MAT@[21] == 196877655147114396718095279958952442032, INV_MAT@[22] == 332990601915489782103445103140450426647, INV_MAT@[23] == 94792945070832857679082912572828953571, MAT@[1] == 4, MAT@[13] == 6, MAT@[25] == 2, MAT@[37] == 2, MAT@[49] == 2, MAT@[61] == 3, MAT@[73] == 1, MAT@[85] == 1, MAT@[97] == 2, MAT@[109] == 3, MAT@[121] == 1, MAT@[133] == 1,
    ;
    assert(product_entry(INV_MAT@, MAT@, 12, 1, 2) == (INV_MAT@[12] as int) * (MAT@[2] as int) + (INV_MAT@[13] as int) * (MAT@[14] as int) + (INV_MAT@[14] as int) * (MAT@[26] as int) + (INV_MAT@[15] as int) * (MAT@[38] as int) + (INV_MAT@[16] as int) * (MAT@[50] as int) + (INV_MAT@[17] as int) * (MAT@[62] as int) + (INV_MAT@[18] as int) * (MAT@[74] as int) + (INV_MAT@[19] as int) * (MAT@[86] as int) + (INV_MAT@[20] as int) * (MAT@[98] as int) + (INV_MAT@[21] as int) * (MAT@[110] as int) + (INV_MAT@[22] as int) * (MAT@[122] as int) + (INV_MAT@[23] as int) * (MAT@[134] as int));
    assert(((INV_MAT@[12] as int) * (MAT@[2] as int) + (INV_MAT@[13] as int) * (MAT@[14] as int) + (INV_MAT@[14] as int) * (MAT@[26] as int) + (INV_MAT@[15] as int) * (MAT@[38] as int) + (INV_MAT@[16] as int) * (MAT@[50] as int) + (INV_MAT@[17] as int) * (MAT@[62] as int) + (INV_MAT@[18] as int) * (MAT@[74] as int) + (INV_MAT@[19] as int) * (MAT@[86] as int) + (INV_MAT@[20] as int) * (MAT@[98] as int) + (INV_MAT@[21] as int) * (MAT@[110] as int) + (INV_MAT@[22] as int) * (MAT@[122] as int) + (INV_MAT@[23] as int) * (MAT@[134] as int)) % 340282366920938463463374557953744961537 == 0) by (nonlinear_arith)
        requires
            INV_MAT@[12] == 38889413362392967252957092337570852747, INV_MAT@[13] == 89931768400533736772463276030632596978, INV_MAT@[14] == 21875295016346044079788364439883604670, INV_MAT@[15] == 55903531708439890426125820235258100824, INV_MAT@[16] == 213891773493161319891264007856639690109, INV_MAT@[17] == 196877655147114396718095279958952442032, INV_MAT@[18] == 332990601915489782103445103140450426647, INV_MAT@[19] == 94792945070832857679082912572828953571, INV_MAT@[20] == 213891773493161319891264007856639690109, INV_MAT@[21] == 196877655147114396718095279958952442032, INV_MAT@[22] == 332990601915489782103445103140450426647, INV_MAT@[23] == 94792945070832857679082912572828953571, MAT@[2] == 2, MAT@[14] == 4, MAT@[26] == 6, MAT@[38] == 2, MAT@[50] == 1, MAT@[62] == 2, MAT@[74] == 3, MAT@[86] == 1, MAT@[98] == 1, MAT@[110] == 2, MAT@[122] == 3, MAT@[134] == 1,
    ;
    assert(product_entry(INV_MAT@, MAT@, 12, 1, 3) == (INV_MAT@[12] as int) * (MAT@[3] as int) + (INV_MAT@[13] as int) * (MAT@[15] as int) + (INV_MAT@[14] as int) * (MAT@[27] as int) + (INV_MAT@[15] as int) * (MAT@[39] as int) + (INV_MAT@[16] as int) * (MAT@[51] as int) + (INV_MAT@[17] as int) * (MAT@[63] as int) + (INV_MAT@[18] as int) * (MAT@[75] as int) + (INV_MAT@[19] as int) * (MAT@[87] as int) + (INV_MAT@[20] as int) * (MAT@[99] as int) + (INV_MAT@[21] as int) * (MAT@[111] as int) + (INV_MAT@[22] as int) * (MAT@[123] as int) + (INV_MAT@[23] as int) * (MAT@[135] as int));
    assert(((INV_MAT@[12] as int) * (MAT@[3] as int) + (INV_MAT@[13] as int) * (MAT@[15] as int) + (INV_MAT@[14] as int) * (MAT@[27] as int) + (INV_MAT@[15] as int) * (MAT@[39] as int) + (INV_MAT@[16] as int) * (MAT@[51] as int) + (INV_MAT@[17] as int) * (MAT@[63] as int) + (INV_MAT@[18] as int) * (MAT@[75] as int) + (INV_MAT@[19] as int) * (MAT@[87] as int) + (INV_MAT@[20] as int) * (MAT@[99] as int) + (INV_MAT@[21] as int) * (MAT@[111] as int) + (INV_MAT@[22] as int) * (MAT@[123] as int) + (INV_MAT@[23] as int) * (MAT@[135] as int)) % 340282366920938463463374557953744961537 == 0) by (nonlinear_arith)
        requires
            INV_MAT@[12] == 38889413362392967252957092337570852747, INV_MAT@[13] == 89931768400533736772463276030632596978, INV_MAT@[14] == 21875295016346044079788364439883604670, INV_MAT@[15] == 55903531708439890426125820235258100824, INV_MAT@[16] == 213891773493161319891264007856639690109, INV_MAT@[17] == 196877655147114396718095279958952442032, INV_MAT@[18] == 332990601915489782103445103140450426647, INV_MAT@[19] == 94792945070832857679082912572828953571, INV_MAT@[20] == 213891773493161319891264007856639690109, INV_MAT@[21] == 196877655147114396718095279958952442032, INV_MAT@[22] == 332990601915489782103445103140450426647, INV_MAT@[23] == 94792945070832857679082912572828953571, MAT@[3] == 2, MAT@[15] == 2, MAT@[27] == 4, MAT@[39] == 6, MAT@[51] == 1, MAT@[63] == 1, MAT@[75] == 2, MAT@[87] == 3, MAT@[99] == 1, MAT@[111] == 1, MAT@[123] == 2, MAT@[135] == 3,
    ;
    assert(product_entry(INV_MAT@, MAT@, 12, 1, 4) == (INV_MAT@[12] as int) * (MAT@[4] as int) + (INV_MAT@[13] as int) * (MAT@[16] as int) + (INV_MAT@[14] as int) * (MAT@[28] as int) + (INV_MAT@[15] as int) * (MAT@[40] as int) + (INV_MAT@[16] as int) * (MAT@[52] as int) + (INV_MAT@[17] as int) * (MAT@[64] as int) + (INV_MAT@[18] as int) * (MAT@[76] as int) + (INV_MAT@[19] as int) * (MAT@[88] as int) + (INV_MAT@[20] as int) * (MAT@[100] as int) + (INV_MAT@[21] as int) * (MAT@[112] as int) + (INV_MAT@[22] as int) * (MAT@[124] as int) + (INV_MAT@[23] as int) * (MAT@[136] as int));
    assert(((INV_MAT@[12] as int) * (MAT@[4] as int) + (INV_MAT@[13] as int) * (MAT@[16] as int) + (INV_MAT@[14] as int) * (MAT@[28] as int) + (INV_MAT@[15] as int) * (MAT@[40] as int) + (INV_MAT@[16] as int) * (MAT@[52] as int) + (INV_MAT@[17] as int) * (MAT@[64] as int) + (INV_MAT@[18] as int) * (MAT@[76] as int) + (INV_MAT@[19] as int) * (MAT@[88] as int) + (INV_MAT@[20] as int) * (MAT@[100] as int) + (INV_MAT@[21] as int) * (MAT@[112] as int) + (INV_MAT@[22] as int) * (MAT@[124] as int) + (INV_MAT@[23] as int) * (MAT@[136] as int)) % 340282366920938463463374557953744961537 == 0) by (nonlinear_arith)
        requires
            INV_MAT@[12] == 38889413362392967252957092337570852747, INV_MAT@[13] == 89931768400533736772463276030632596978, INV_MAT@[14] == 21875295016346044079788364439883604670, INV_MAT@[15] == 55903531708439890426125820235258100824, INV_MAT@[16] == 213891773493161319891264007856639690109, INV_MAT@[17] == 196877655147114396718095279958952442032, INV_MAT@[18] == 332990601915489782103445103140450426647, INV_MAT@[19] == 94792945070832857679082912572828953571, INV_MAT@[20] == 213891773493161319891264007856639690109, INV_MAT@[21] == 196877655147114396718095279958952442032, INV_MAT@[22] == 332990601915489782103445103140450426647, INV_MAT@[23] == 94792945070832857679082912572828953571, MAT@[4] == 3, MAT@[16] == 1, MAT@[28] == 1, MAT@[40] == 2, MAT@[52] == 6, MAT@[64] == 2, MAT@[76] == 2, MAT@[88] == 4, MAT@[100] == 3, MAT@[112] == 1, MAT@[124] == 1, MAT@[136] == 2,
    ;
    assert(product_entry(INV_MAT@, MAT@, 12, 1, 5) == (INV_MAT@[12] as int) * (MAT@[5] as int) + (INV_MAT@[13] as int) * (MAT@[17] as int) + (INV_MAT@[14] as int) * (MAT@[29] as int) + (INV_MAT@[15] as int) * (MAT@[41] as int) + (INV_MAT@[16] as int) * (MAT@[53] as int) + (INV_MAT@[17] as int) * (MAT@[65] as int) + (INV_MAT@[18] as int) * (MAT@[77] as int) + (INV_MAT@[19] as int) * (MAT@[89] as int) + (INV_MAT@[20] as int) * (MAT@[101] as int) + (INV_MAT@[21] as int) * (MAT@[113] as int) + (INV_MAT@[22] as int) * (MAT@[125] as int) + (INV_MAT@[23] as int) * (MAT@[137] as int));
    assert(((INV_MAT@[12] as int) * (MAT@[5] as int) + (INV_MAT@[13] as int) * (MAT@[17] as int) + (INV_MAT@[14] as int) * (MAT@[29] as int) + (INV_MAT@[15] as int) * (MAT@[41] as int) + (INV_MAT@[16] as int) * (MAT@[53] as int) + (INV_MAT@[17] as int) * (MAT@[65] as int) + (INV_MAT@[18] as int) * (MAT@[77] as int) + (INV_MAT@[19] as int) * (MAT@[89] as int) + (INV_MAT@[20] as int) * (MAT@[101] as int) + (INV_MAT@[21] as int) * (MAT@[113] as int) + (INV_MAT@[22] as int) * (MAT@[125] as int) + (INV_MAT@[23] as int) * (MAT@[137] as int)) % 340282366920938463463374557953744961537 == 0) by (nonlinear_arith)
        requires
            INV_MAT@[12] == 38889413362392967252957092337570852747, INV_MAT@[13] == 89931768400533736772463276030632596978, INV_MAT@[14] == 21875295016346044079788364439883604670, INV_MAT@[15] == 55903531708439890426125820235258100824, INV_MAT@[16] == 213891773493161319891264007856639690109, INV_MAT@[17] == 196877655147114396718095279958952442032, INV_MAT@[18] == 332990601915489782103445103140450426647, INV_MAT@[19] == 94792945070832857679082912572828953571, INV_MAT@[20] == 213891773493161319891264007856639690109, INV_MAT@[21] == 196877655147114396718095279958952442032, INV_MAT@[22] == 332990601915489782103445103140450426647, INV_MAT@[23] == 94792945070832857679082912572828953571, MAT@[5] == 2, MAT@[17] == 3, MAT@[29] == 1, MAT@[41] == 1, MAT@[53] == 4, MAT@[65] == 6, MAT@[77] == 2, MAT@[89] == 2, MAT@[101] == 2, MAT@[113] == 3, MAT@[125] == 1, MAT@[137] == 1,
    ;
    assert(product_entry(INV_MAT@, MAT@, 12, 1, 6) == (INV_MAT@[12] as int) * (MAT@[6] as int) + (INV_MAT@[13] as int) * (MAT@[18] as int) + (INV_MAT@[14] as int) * (MAT@[30] as int) + (INV_MAT@[15] as int) * (MAT@[42] as int) + (INV_MAT@[16] as int) * (MAT@[54] as int) + (INV_MAT@[17] as int) * (MAT@[66] as int) + (INV_MAT@[18] as int) * (MAT@[78] as int) + (INV_MAT@[19] as int) * (MAT@[90] as int) + (INV_MAT@[20] as int) * (MAT@[102] as int) + (INV_MAT@[21] as int) * (MAT@[114] as int) + (INV_MAT@[22] as int) * (MAT@[126] as int) + (INV_MAT@[23] as int) * (MAT@[138] as int));
    assert(((INV_MAT@[12] as int) * (MAT@[6] as int) + (INV_MAT@[13] as int) * (MAT@[18] as int) + (INV_MAT@[14] as int) * (MAT@[30] as int) + (INV_MAT@[15] as int) * (MAT@[42] as int) + (INV_MAT@[16] as int) * (MAT@[54] as int) + (INV_MAT@[17] as int) * (MAT@[66] as int) + (INV_MAT@[18] as int) * (MAT@[78] as int) + (INV_MAT@[19] as int) * (MAT@[90] as int) + (INV_MAT@[20] as int) * (MAT@[102] as int) + (INV_MAT@[21] as int) * (MAT@[114] as int) + (INV_MAT@[22] as int) * (MAT@[126] as int) + (INV_MAT@[23] as int) * (MAT@[138] as int)) % 340282366920938463463374557953744961537 == 0) by (nonlinear_arith)
        requires
            INV_MAT@[12] == 38889413362392967252957092337570852747, INV_MAT@[13] == 89931768400533736772463276030632596978, INV_MAT@[14] == 21875295016346044079788364439883604670, INV_MAT@[15] == 55903531708439890426125820235258100824, INV_MAT@[16] == 213891773493161319891264007856639690109, INV_MAT@[17] == 196877655147114396718095279958952442032, INV_MAT@[18] == 332990601915489782103445103140450426647, INV_MAT@[19] == 94792945070832857679082912572828953571, INV_MAT@[20] == 213891773493161319891264007856639690109, INV_MAT@[21] == 196877655147114396718095279958952442032, INV_MAT@[22] == 332990601915489782103445103140450426647, INV_MAT@[23] == 94792945070832857679082912572828953571, MAT@[6] == 1, MAT@[18] == 2, MAT@[30] == 3, MAT@[42] == 1, MAT@[54] == 2, MAT@[66] == 4, MAT@[78] == 6, MAT@[90] == 2, MAT@[102] == 1, MAT@[114] == 2, MAT@[126] == 3, MAT@[138] == 1,
    ;
    assert(product_entry(INV_MAT@, MAT@, 12, 1, 7) == (INV_MAT@[12] as int) * (MAT@[7] as int) + (INV_MAT@[13] as int) * (MAT@[19] as int) + (INV_MAT@[14] as int) * (MAT@[31] as int) + (INV_MAT@[15] as int) * (MAT@[43] as int) + (INV_MAT@[16] as int) * (MAT@[55] as int) + (INV_MAT@[17] as int) * (MAT@[67] as int) + (INV_MAT@[18] as int) * (MAT@[79] as int) + (INV_MAT@[19] as int) * (MAT@[91] as int) + (INV_MAT@[20] as int) * (MAT@[103] as int) + (INV_MAT@[21] as int) * (MAT@[115] as int) + (INV_MAT@[22] as int) * (MAT@[127] as int) + (INV_MAT@[23] as int) * (MAT@[139] as int));
    assert(((INV_MAT@[12] as int) * (MAT@[7] as int) + (INV_MAT@[13] as int) * (MAT@[19] as int) + (INV_MAT@[14] as int) * (MAT@[31] as int) + (INV_MAT@[15] as int) * (MAT@[43] as int) + (INV_MAT@[16] as int) * (MAT@[55] as int) + (INV_MAT@[17] as int) * (MAT@[67] as int) + (INV_MAT@[18] as int) * (MAT@[79] as int) + (INV_MAT@[19] as int) * (MAT@[91] as int) + (INV_MAT@[20] as int) * (MAT@[103] as int) + (INV_MAT@[21] as int) * (MAT@[115] as int) + (INV_MAT@[22] as int) * (MAT@[127] as int) + (INV_MAT@[23] as int) * (MAT@[139] as int)) % 340282366920938463463374557953744961537 == 0) by (nonlinear_arith)
        requires
            INV_MAT@[12] == 38889413362392967252957092337570852747, INV_MAT@[13] == 89931768400533736772463276030632596978, INV_MAT@[14] == 21875295016346044079788364439883604670, INV_MAT@[15] == 55903531708439890426125820235258100824, INV_MAT@[16] == 213891773493161319891264007856639690109, INV_MAT@[17] == 196877655147114396718095279958952442032, INV_MAT@[18] == 332990601915489782103445103140450426647, INV_MAT@[19] == 94792945070832857679082912572828953571, INV_MAT@[20] == 213891773493161319891264007856639690109, INV_MAT@[21] == 196877655147114396718095279958952442032, INV_MAT@[22] == 332990601915489782103445103140450426647, INV_MAT@[23] == 94792945070832857679082912572828953571, MAT@[7] == 1, MAT@[19] == 1, MAT@[31] == 2, MAT@[43] == 3, MAT@[55] == 2, MAT@[67] == 2, MAT@[79] == 4, MAT@[91] == 6, MAT@[103] == 1, MAT@[115] == 1, MAT@[127] == 2, MAT@[139] == 3,
    ;
    assert(product_entry(INV_MAT@, MAT@, 12, 1, 8) == (INV_MAT@[12] as int) * (MAT@[8] as int) + (INV_MAT@[13] as int) * (MAT@[20] as int) + (INV_MAT@[14] as int) * (MAT@[32] as int) + (INV_MAT@[15] as int) * (MAT@[44] as int) + (INV_MAT@[16] as int) * (MAT@[56] as int) + (INV_MAT@[17] as int) * (MAT@[68] as int) + (INV_MAT@[18] as int) * (MAT@[80] as int) + (INV_MAT@[19] as int) * (MAT@[92] as int) + (INV_MAT@[20] as int) * (MAT@[104] as int) + (INV_MAT@[21] as int) * (MAT@[116] as int) + (INV_MAT@[22] as int) * (MAT@[128] as int) + (INV_MAT@[23] as int) * (MAT@[140] as int));
    assert(((INV_MAT@[12] as int) * (MAT@[8] as int) + (INV_MAT@[13] as int) * (MAT@[20] as int) + (INV_MAT@[14] as int) * (MAT@[32] as int) + (INV_MAT@[15] as int) * (MAT@[44] as int) + (INV_MAT@[16] as int) * (MAT@[56] as int) + (INV_MAT@[17] as int) * (MAT@[68] as int) + (INV_MAT@[18] as int) * (MAT@[80] as int) + (INV_MAT@[19] as int) * (MAT@[92] as int) + (INV_MAT@[20] as int) * (MAT@[104] as int) + (INV_MAT@[21] as int) * (MAT@[116] as int) + (INV_MAT@[22] as int) * (MAT@[128] as int) + (INV_MAT@[23] as int) * (MAT@[140] as int)) % 340282366920938463463374557953744961537 == 0) by (nonlinear_arith)
        requires
            INV_MAT@[12] == 38889413362392967252957092337570852747, INV_MAT@[13] == 89931768400533736772463276030632596978, INV_MAT@[14] == 21875295016346044079788364439883604670, INV_MAT@[15] == 55903531708439890426125820235258100824, INV_MAT@[16] == 213891773493161319891264007856639690109, INV_MAT@[17] == 196877655147114396718095279958952442032, INV_MAT@[18] == 332990601915489782103445103140450426647, INV_MAT@[19] == 94792945070832857679082912572828953571, INV_MAT@[20] == 213891773493161319891264007856639690109, INV_MAT@[21] == 196877655147114396718095279958952442032, INV_MAT@[22] == 332990601915489782103445103140450426647, INV_MAT@[23] == 94792945070832857679082912572828953571, MAT@[8] == 3, MAT@[20] == 1, MAT@[32] == 1, MAT@[44] == 2, MAT@[56] == 3, MAT@[68] == 1, MAT@[80] == 1, MAT@[92] == 2, MAT@[104] == 6, MAT@[116] == 2, MAT@[128] == 2, MAT@[140] == 4,
    ;
    assert(product_entry(INV_MAT@, MAT@, 12, 1, 9) == (INV_MAT@[12] as int) * (MAT@[9] as int) + (INV_MAT@[13] as int) * (MAT@[21] as int) + (INV_MAT@[14] as int) * (MAT@[33] as int) + (INV_MAT@[15] as int) * (MAT@[45] as int) + (INV_MAT@[16] as int) * (MAT@[57] as int) + (INV_MAT@[17] as int) * (MAT@[69] as int) + (INV_MAT@[18] as int) * (MAT@[81] as int) + (INV_MAT@[19] as int) * (MAT@[93] as int) + (INV_MAT@[20] as int) * (MAT@[105] as int) + (INV_MAT@[21] as int) * (MAT@[117] as int) + (INV_MAT@[22] as int) * (MAT@[129] as int) + (INV_MAT@[23] as int) * (MAT@[141] as int));
    assert(((INV_MAT@[12] as int) * (MAT@[9] as int) + (INV_MAT@[13] as int) * (MAT@[21] as int) + (INV_MAT@[14] as int) * (MAT@[33] as int) + (INV_MAT@[15] as int) * (MAT@[45] as int) + (INV_MAT@[16] as int) * (MAT@[57] as int) + (INV_MAT@[17] as int) * (MAT@[69] as int) + (INV_MAT@[18] as int) * (MAT@[81] as int) + (INV_MAT@[19] as int) * (MAT@[93] as int) + (INV_MAT@[20] as int) * (MAT@[105] as int) + (INV_MAT@[21] as int) * (MAT@[117] as int) + (INV_MAT@[22] as int) * (MAT@[129] as int) + (INV_MAT@[23] as int) * (MAT@[141] as int)) % 340282366920938463463374557953744961537 == 0) by (nonlinear_arith)
        requires
            INV_MAT@[12] == 38889413362392967252957092337570852747, INV_MAT@[13] == 89931768400533736772463276030632596978, INV_MAT@[14] == 21875295016346044079788364439883604670, INV_MAT@[15] == 55903531708439890426125820235258100824, INV_MAT@[16] == 213891773493161319891264007856639690109, INV_MAT@[17] == 196877655147114396718095279958952442032, INV_MAT@[18] == 332990601915489782103445103140450426647, INV_MAT@[19] == 94792945070832857679082912572828953571, INV_MAT@[20] == 213891773493161319891264007856639690109, INV_MAT@[21] == 196877655147114396718095279958952442032, INV_MAT@[22] == 332990601915489782103445103140450426647, INV_MAT@[23] == 94792945070832857679082912572828953571, MAT@[9] == 2, MAT@[21] == 3, MAT@[33] == 1, MAT@[45] == 1, MAT@[57] == 2, MAT@[69] == 3, MAT@[81] == 1, MAT@[93] == 1, MAT@[105] == 4, MAT@[117] == 6, MAT@[129] == 2, MAT@[141] == 2,
    ;
    assert(product_entry(INV_MAT@, MAT@, 12, 1, 10) == (INV_MAT@[12] as int) * (MAT@[10] as int) + (INV_MAT@[13] as int) * (MAT@[22] as int) + (INV_MAT@[14] as int) * (MAT@[34] as int) + (INV_MAT@[15] as int) * (MAT@[46] as int) + (INV_MAT@[16] as int) * (MAT@[58] as int) + (INV_MAT@[17] as int) * (MAT@[70] as int) + (INV_MAT@[18] as int) * (MAT@[82] as int) + (INV_MAT@[19] as int) * (MAT@[94] as int) + (INV_MAT@[20] as int) * (MAT@[106] as int) + (INV_MAT@[21] as int) * (MAT@[118] as int) + (INV_MAT@[22] as int) * (MAT@[130] as int) + (INV_MAT@[23] as int) * (MAT@[142] as int));
    assert(((INV_MAT@[12] as int) * (MAT@[10] as int) + (INV_MAT@[13] as int) * (MAT@[22] as int) + (INV_MAT@[14] as int) * (MAT@[34] as int) + (INV_MAT@[15] as int) * (MAT@[46] as int) + (INV_MAT@[16] as int) * (MAT@[58] as int) + (INV_MAT@[17] as int) * (MAT@[70] as int) + (INV_MAT@[18] as int) * (MAT@[82] as int) + (INV_MAT@[19] as int) * (MAT@[94] as int) + (INV_MAT@[20] as int) * (MAT@[106] as int) + (INV_MAT@[21] as int) * (MAT@[118] as int) + (INV_MAT@[22] as int) * (MAT@[130] as int) + (INV_MAT@[23] as int) * (MAT@[142] as int)) % 340282366920938463463374557953744961537 == 0) by (nonlinear_arith)
        requires
            INV_MAT@[12] == 38889413362392967252957092337570852747, INV_MAT@[13] == 89931768400533736772463276030632596978, INV_MAT@[14] == 21875295016346044079788364439883604670, INV_MAT@[15] == 55903531708439890426125820235258100824, INV_MAT@[16] == 213891773493161319891264007856639690109, INV_MAT@[17] == 196877655147114396718095279958952442032, INV_MAT@[18] == 332990601915489782103445103140450426647, INV_MAT@[19] == 94792945070832857679082912572828953571, INV_MAT@[20] == 213891773493161319891264007856639690109, INV_MAT@[21] == 196877655147114396718095279958952442032, INV_MAT@[22] == 332990601915489782103445103140450426647, INV_MAT@[23] == 94792945070832857679082912572828953571, MAT@[10] == 1, MAT@[22] == 2, MAT@[34] == 3, MAT@[46] == 1, MAT@[58] == 1, MAT@[70] == 2, MAT@[82] == 3, MAT@[94] == 1, MAT@[106] == 2, MAT@[118] == 4, MAT@[130] == 6, MAT@[142] == 2,
    ;
    assert(product_entry(INV_MAT@, MAT@, 12, 1, 11) == (INV_MAT@[12] as int) * (MAT@[11] as int) + (INV_MAT@[13] as int) * (MAT@[23] as int) + (INV_MAT@[14] as int) * (MAT@[35] as int) + (INV_MAT@[15] as int) * (MAT@[47] as int) + (INV_MAT@[16] as int) * (MAT@[59] as int) + (INV_MAT@[17] as int) * (MAT@[71] as int) + (INV_MAT@[18] as int) * (MAT@[83] as int) + (INV_MAT@[19] as int) * (MAT@[95] as int) + (INV_MAT@[20] as int) * (MAT@[107] as int) + (INV_MAT@[21] as int) * (MAT@[119] as int) + (INV_MAT@[22] as int) * (MAT@[131] as int) + (INV_MAT@[23] as int) * (MAT@[143] as int));
    assert(((INV_MAT@[12] as int) * (MAT@[11] as int) + (INV_MAT@[13] as int) * (MAT@[23] as int) + (INV_MAT@[14] as int) * (MAT@[35] as int) + (INV_MAT@[15] as int) * (MAT@[47] as int) + (INV_MAT@[16] as int) * (MAT@[59] as int) + (INV_MAT@[17] as int) * (MAT@[71] as int) + (INV_MAT@[18] as int) * (MAT@[83] as int) + (INV_MAT@[19] as int) * (MAT@[95] as int) + (INV_MAT@[20] as int) * (MAT@[107] as int) + (INV_MAT@[21] as int) * (MAT@[119] as int) + (INV_MAT@[22] as int) * (MAT@[131] as int) + (INV_MAT@[23] as int) * (MAT@[143] as int)) % 340282366920938463463374557953744961537 == 0) by (nonlinear_arith)
        requires
            INV_MAT@[12] == 38889413362392967252957092337570852747, INV_MAT@[13] == 89931768400533736772463276030632596978, INV_MAT@[14] == 21875295016346044079788364439883604670, INV_MAT@[15] == 55903531708439890426125820235258100824, INV_MAT@[16] == 213891773493161319891264007856639690109, INV_MAT@[17] == 196877655147114396718095279958952442032, INV_MAT@[18] == 332990601915489782103445103140450426647, INV_MAT@[19] == 94792945070832857679082912572828953571, INV_MAT@[20] == 213891773493161319891264007856639690109, INV_MAT@[21] == 196877655147114396718095279958952442032, INV_MAT@[22] == 332990601915489782103445103140450426647, INV_MAT@[23] == 94792945070832857679082912572828953571, MAT@[11] == 1, MAT@[23] == 1, MAT@[35] == 2, MAT@[47] == 3, MAT@[59] == 1, MAT@[71] == 1, MAT@[83] == 2, MAT@[95] == 3, MAT@[107] == 2, MAT@[119] == 2, MAT@[131] == 4, MAT@[143] == 6,
    ;
}

proof fn lemma_product_backward_row_2()
    ensures
        identity_row(Elem::modulus(), INV_MAT@, MAT@, 12, 2, 12),
{
    reveal_with_fuel(sum, 13);
    reveal_with_fuel(identity_row, 13);
    assert(product_entry(INV_MAT@, MAT@, 12, 2, 0) == (INV_MAT@[24] as int) * (MAT@[0] as int) + (INV_MAT@[25] as int) * (MAT@[12] as int) + (INV_MAT@[26] as int) * (MAT@[24] as int) + (INV_MAT@[27] as int) * (MAT@[36] as int) + (INV_MAT@[28] as int) * (MAT@[48] as int) + (INV_MAT@[29] as int) * (MAT@[60] as int) + (INV_MAT@[30] as int) * (MAT@[72] as int) + (INV_MAT@[31] as int) * (MAT@[84] as int) + (INV_MAT@[32] as int) * (MAT@[96] as int) + (INV_MAT@[33] as int) * (MAT@[108] as int) + (INV_MAT@[34] as int) * (MAT@[120] as int) + (INV_MAT@[35] as int) * (MAT@[132] as int));
    assert(((INV_MAT@[24] as int) * (MAT@[0] as int) + (INV_MAT@[25] as int) * (MAT@[12] as int) + (INV_MAT@[26] as int) * (MAT@[24] as int) + (INV_MAT@[27] as int) * (MAT@[36] as int) + (INV_MAT@[28] as int) * (MAT@[48] as int) + (INV_MAT@[29] as int) * (MAT@[60] as int) + (INV_MAT@[30] as int) * (MAT@[72] as int) + (INV_MAT@[31] as int) * (MAT@[84] as int) + (INV_MAT@[32] as int) * (MAT@[96] as int) + (INV_MAT@[33] as int) * (MAT@[108] as int) + (INV_MAT@[34] as int) * (MAT@[120] as int) + (INV_MAT@[35] as int) * (MAT@[132] as int)) % 340282366920938463463374557953744961537 == 0) by (nonlinear_arith)
        requires
            INV_MAT@[24] == 55903531708439890426125820235258100824, INV_MAT@[25] == 38889413362392967252957092337570852747, INV_MAT@[26] == 89931768400533736772463276030632596978, INV_MAT@[27] == 21875295016346044079788364439883604670, INV_MAT@[28] == 94792945070832857679082912572828953571, INV_MAT@[29] == 213891773493161319891264007856639690109, INV_MAT@[30] == 196877655147114396718095279958952442032, INV_MAT@[31] == 332990601915489782103445103140450426647, INV_MAT@[32] == 94792945070832857679082912572828953571, INV_MAT@[33] == 213891773493161319891264007856639690109, INV_MAT@[34] == 196877655147114396718095279958952442032, INV_MAT@[35] == 332990601915489782103445103140450426647, MAT@[0] == 6, MAT@[12] == 2, MAT@[24] == 2, MAT@[36] == 4, MAT@[48] == 3, MAT@[60] == 1, MAT@[72] == 1, MAT@[84] == 2, MAT@[96] == 3, MAT@[108] == 1, MAT@[120] == 1, MAT@[132] == 2,
    ;
    assert(product_entry(INV_MAT@, MAT@, 12, 2, 1) == (INV_MAT@[24] as int) * (MAT@[1] as int) + (INV_MAT@[25] as int) * (MAT@[13] as int) + (INV_MAT@[26] as int) * (MAT@[25] as int) + (INV_MAT@[27] as int) * (MAT@[37] as int) + (INV_MAT@[28] as int) * (MAT@[49] as int) + (INV_MAT@[29] as int) * (MAT@[61] as int) + (INV_MAT@[30] as int) * (MAT@[73] as int) + (INV_MAT@[31] as int) * (MAT@[85] as int) + (INV_MAT@[32] as int) * (MAT@[97] as int) + (INV_MAT@[33] as int) * (MAT@[109] as int) + (INV_MAT@[34] as int) * (MAT@[121] as int) + (INV_MAT@[35] as int) * (MAT@[133] as int));
    assert(((INV_MAT@[24] as int) * (MAT@[1] as int) + (INV_MAT@[25] as int) * (MAT@[13] as int) + (INV_MAT@[26] as int) * (MAT@[25] as int) + (INV_MAT@[27] as int) * (MAT@[37] as int) + (INV_MAT@[28] as int) * (MAT@[49] as int) + (INV_MAT@[29] as int) * (MAT@[61] as int) + (INV_MAT@[30] as int) * (MAT@[73] as int) + (INV_MAT@[31] as int) * (MAT@[85] as int) + (INV_MAT@[32] as int) * (MAT@[97] as int) + (INV_MAT@[33] as int) * (MAT@[109] as int) + (INV_MAT@[34] as int) * (MAT@[121] as int) + (INV_MAT@[35] as int) * (MAT@[133] as int)) % 340282366920938463463374557953744961537 == 0) by (nonlinear_arith)
        requires
            INV_MAT@[24] == 55903531708439890426125820235258100824, INV_MAT@[25] == 38889413362392967252957092337570852747, INV_MAT@[26] == 89931768400533736772463276030632596978, INV_MAT@[27] == 21875295016346044079788364439883604670, INV_MAT@[28] == 94792945070832857679082912572828953571, INV_MAT@[29] == 213891773493161319891264007856639690109, INV_MAT@[30] == 196877655147114396718095279958952442032, INV_MAT@[31] == 332990601915489782103445103140450426647, INV_MAT@[32] == 94792945070832857679082912572828953571, INV_MAT@[33] == 213891773493161319891264007856639690109, INV_MAT@[34] == 196877655147114396718095279958952442032, INV_MAT@[35] == 332990601915489782103445103140450426647, MAT@[1] == 4, MAT@[13] == 6, MAT@[25] == 2, MAT@[37] == 2, MAT@[49] == 2, MAT@[61] == 3, MAT@[73] == 1, MAT@[85] == 1, MAT@[97] == 2, MAT@[109] == 3, MAT@[121] == 1, MAT@[133] == 1,
    ;
    assert(product_entry(INV_MAT@, MAT@, 12, 2, 2) == (INV_MAT@[24] as int) * (MAT@[2] as int) + (INV_MAT@[25] as int) * (MAT@[14] as int) + (INV_MAT@[26] as int) * (MAT@[26] as int) + (INV_MAT@[27] as int) * (MAT@[38] as int) + (INV_MAT@[28] as int) * (MAT@[50] as int) + (INV_MAT@[29] as int) * (MAT@[62] as int) + (INV_MAT@[30] as int) * (MAT@[74] as int) + (INV_MAT@[31] as int) * (MAT@[86] as int) + (INV_MAT@[32] as int) * (MAT@[98] as int) + (INV_MAT@[33] as int) * (MAT@[110] as int) + (INV_MAT@[34] as int) * (MAT@[122] as int) + (INV_MAT@[35] as int) * (MAT@[134] as int));
    assert(((INV_MAT@[24] as int) * (MAT@[2] as int) + (INV_MAT@[25] as int) * (MAT@[14] as int) + (INV_MAT@[26] as int) * (MAT@[26] as int) + (INV_MAT@[27] as int) * (MAT@[38] as int) + (INV_MAT@[28] as int) * (MAT@[50] as int) + (INV_MAT@[29] as int) * (MAT@[62] as int) + (INV_MAT@[30] as int) * (MAT@[74] as int) + (INV_MAT@[31] as int) * (MAT@[86] as int) + (INV_MAT@[32] as int) * (MAT@[98] as int) + (INV_MAT@[33] as int) * (MAT@[110] as int) + (INV_MAT@[34] as int) * (MAT@[122] as int) + (INV_MAT@[35] as int) * (MAT@[134] as int)) % 340282366920938463463374557953744961537 == 1) by (nonlinear_arith)
        requires
            INV_MAT@[24] == 55903531708439890426125820235258100824, INV_MAT@[25] == 38889413362392967252957092337570852747, INV_MAT@[26] == 89931768400533736772463276030632596978, INV_MAT@[27] == 21875295016346044079788364439883604670, INV_MAT@[28] == 94792945070832857679082912572828953571, INV_MAT@[29] == 213891773493161319891264007856639690109, INV_MAT@[30] == 196877655147114396718095279958952442032, INV_MAT@[31] == 332990601915489782103445103140450426647, INV_MAT@[32] == 94792945070832857679082912572828953571, INV_MAT@[33] == 213891773493161319891264007856639690109, INV_MAT@[34] == 196877655147114396718095279958952442032, INV_MAT@[35] == 332990601915489782103445103140450426647, MAT@[2] == 2, MAT@[14] == 4, MAT@[26] == 6, MAT@[38] == 2, MAT@[50] == 1, MAT@[62] == 2, MAT@[74] == 3, MAT@[86] == 1, MAT@[98] == 1, MAT@[110] == 2, MAT@[122] == 3, MAT@[134] == 1,
    ;
    assert(product_entry(INV_MAT@, MAT@, 12, 2, 3) == (INV_MAT@[24] as int) * (MAT@[3] as int) + (INV_MAT@[25] as int) * (MAT@[15] as int) + (INV_MAT@[26] as int) * (MAT@[27] as int) + (INV_MAT@[27] as int) * (MAT@[39] as int) + (INV_MAT@[28] as int) * (MAT@[51] as int) + (INV_MAT@[29] as int) * (MAT@[63] as int) + (INV_MAT@[30] as int) * (MAT@[75] as int) + (INV_MAT@[31] as int) * (MAT@[87] as int) + (INV_MAT@[32] as int) * (MAT@[99] as int) + (INV_MAT@[33] as int) * (MAT@[111] as int) + (INV_MAT@[34] as int) * (MAT@[123] as int) + (INV_MAT@[35] as int) * (MAT@[135] as int));
    assert(((INV_MAT@[24] as int) * (MAT@[3] as int) + (INV_MAT@[25] as int) * (MAT@[15] as int) + (INV_MAT@[26] as int) * (MAT@[27] as int) + (INV_MAT@[27] as int) * (MAT@[39] as int) + (INV_MAT@[28] as int) * (MAT@[51] as int) + (INV_MAT@[29] as int) * (MAT@[63] as int) + (INV_MAT@[30] as int) * (MAT@[75] as int) + (INV_MAT@[31] as int) * (MAT@[87] as int) + (INV_MAT@[32] as int) * (MAT@[99] as int) + (INV_MAT@[33] as int) * (MAT@[111] as int) + (INV_MAT@[34] as int) * (MAT@[123] as int) + (INV_MAT@[35] as int) * (MAT@[135] as int)) % 340282366920938463463374557953744961537 == 0) by (nonlinear_arith)
        requires
            INV_MAT@[24] == 55903531708439890426125820235258100824, INV_MAT@[25] == 38889413362392967252957092337570852747, INV_MAT@[26] == 89931768400533736772463276030632596978, INV_MAT@[27] == 21875295016346044079788364439883604670, INV_MAT@[28] == 94792945070832857679082912572828953571, INV_MAT@[29] == 213891773493161319891264007856639690109, INV_MAT@[30] == 196877655147114396718095279958952442032, INV_MAT@[31] == 332990601915489782103445103140450426647, INV_MAT@[32] == 94792945070832857679082912572828953571, INV_MAT@[33] == 213891773493161319891264007856639690109, INV_MAT@[34] == 196877655147114396718095279958952442032, INV_MAT@[35] == 332990601915489782103445103140450426647, MAT@[3] == 2, MAT@[15] == 2, MAT@[27] == 4, MAT@[39] == 6, MAT@[51] == 1, MAT@[63] == 1, MAT@[75] == 2, MAT@[87] == 3, MAT@[99] == 1, MAT@[111] == 1, MAT@[123] == 2, MAT@[135] == 3,
    ;
    assert(product_entry(INV_MAT@, MAT@, 12, 2, 4) == (INV_MAT@[24] as int) * (MAT@[4] as int) + (INV_MAT@[25] as int) * (MAT@[16] as int) + (INV_MAT@[26] as int) * (MAT@[28] as int) + (INV_MAT@[27] as int) * (MAT@[40] as int) + (INV_MAT@[28] as int) * (MAT@[52] as int) + (INV_MAT@[29] as int) * (MAT@[64] as int) + (INV_MAT@[30] as int) * (MAT@[76] as int) + (INV_MAT@[31] as int) * (MAT@[88] as int) + (INV_MAT@[32] as int) * (MAT@[100] as int) + (INV_MAT@[33] as int) * (MAT@[112] as int) + (INV_MAT@[34] as int) * (MAT@[124] as int) + (INV_MAT@[35] as int) * (MAT@[136] as int));
    assert(((INV_MAT@[24] as int) * (MAT@[4] as int) + (INV_MAT@[25] as int) * (MAT@[16] as int) + (INV_MAT@[26] as int) * (MAT@[28] as int) + (INV_MAT@[27] as int) * (MAT@[40] as int) + (INV_MAT@[28] as int) * (MAT@[52] as int) + (INV_MAT@[29] as int) * (MAT@[64] as int) + (INV_MAT@[30] as int) * (MAT@[76] as int) + (INV_MAT@[31] as int) * (MAT@[88] as int) + (INV_MAT@[32] as int) * (MAT@[100] as int) + (INV_MAT@[33] as int) * (MAT@[112] as int) + (INV_MAT@[34] as int) * (MAT@[124] as int) + (INV_MAT@[35] as int) * (MAT@[136] as int)) % 340282366920938463463374557953744961537 == 0) by (nonlinear_arith)
        requires
            INV_MAT@[24] == 55903531708439890426125820235258100824, INV_MAT@[25] == 38889413362392967252957092337570852747, INV_MAT@[26] == 89931768400533736772463276030632596978, INV_MAT@[27] == 21875295016346044079788364439883604670, INV_MAT@[28] == 94792945070832857679082912572828953571, INV_MAT@[29] == 213891773493161319891264007856639690109, INV_MAT@[30] == 196877655147114396718095279958952442032, INV_MAT@[31] == 332990601915489782103445103140450426647, INV_MAT@[32] == 94792945070832857679082912572828953571, INV_MAT@[33] == 213891773493161319891264007856639690109, INV_MAT@[34] == 196877655147114396718095279958952442032, INV_MAT@[35] == 332990601915489782103445103140450426647, MAT@[4] == 3, MAT@[16] == 1, MAT@[28] == 1, MAT@[40] == 2, MAT@[52] == 6, MAT@[64] == 2, MAT@[76] == 2, MAT@[88] == 4, MAT@[100] == 3, MAT@[112] == 1, MAT@[124] == 1, MAT@[136] == 2,
    ;
    assert(product_entry(INV_MAT@, MAT@, 12, 2, 5) == (INV_MAT@[24] as int) * (MAT@[5] as int) + (INV_MAT@[25] as int) * (MAT@[17] as int) + (INV_MAT@[26] as int) * (MAT@[29] as int) + (INV_MAT@[27] as int) * (MAT@[41] as int) + (INV_MAT@[28] as int) * (MAT@[53] as int) + (INV_MAT@[29] as int) * (MAT@[65] as int) + (INV_MAT@[30] as int) * (MAT@[77] as int) + (INV_MAT@[31] as int) * (MAT@[89] as int) + (INV_MAT@[32] as int) * (MAT@[101] as int) + (INV_MAT@[33] as int) * (MAT@[113] as int) + (INV_MAT@[34] as int) * (MAT@[125] as int) + (INV_MAT@[35] as int) * (MAT@[137] as int));
    assert(((INV_MAT@[24] as int) * (MAT@[5] as int) + (INV_MAT@[25] as int) * (MAT@[17] as int) + (INV_MAT@[26] as int) * (MAT@[29] as int) + (INV_MAT@[27] as int) * (MAT@[41] as int) + (INV_MAT@[28] as int) * (MAT@[53] as int) + (INV_MAT@[29] as int) * (MAT@[65] as int) + (INV_MAT@[30] as int) * (MAT@[77] as int) + (INV_MAT@[31] as int) * (MAT@[89] as int) + (INV_MAT@[32] as int) * (MAT@[101] as int) + (INV_MAT@[33] as int) * (MAT@[113] as int) + (INV_MAT@[34] as int) * (MAT@[125] as int) + (INV_MAT@[35] as int) * (MAT@[137] as int)) % 340282366920938463463374557953744961537 == 0) by (nonlinear_arith)
        requires
            INV_MAT@[24] == 55903531708439890426125820235258100824, INV_MAT@[25] == 38889413362392967252957092337570852747, INV_MAT@[26] == 89931768400533736772463276030632596978, INV_MAT@[27] == 21875295016346044079788364439883604670, INV_MAT@[28] == 94792945070832857679082912572828953571, INV_MAT@[29] == 213891773493161319891264007856639690109, INV_MAT@[30] == 196877655147114396718095279958952442032, INV_MAT@[31] == 332990601915489782103445103140450426647, INV_MAT@[32] == 94792945070832857679082912572828953571, INV_MAT@[33] == 213891773493161319891264007856639690109, INV_MAT@[34] == 196877655147114396718095279958952442032, INV_MAT@[35] == 332990601915489782103445103140450426647, MAT@[5] == 2, MAT@[17] == 3, MAT@[29] == 1, MAT@[41] == 1, MAT@[53] == 4, MAT@[65] == 6, MAT@[77] == 2, MAT@[89] == 2, MAT@[101] == 2, MAT@[113] == 3, MAT@[125] == 1, MAT@[137] == 1,
    ;
    assert(product_entry(INV_MAT@, MAT@, 12, 2, 6) == (INV_MAT@[24] as int) * (MAT@[6] as int) + (INV_MAT@[25] as int) * (MAT@[18] as int) + (INV_MAT@[26] as int) * (MAT@[30] as int) + (INV_MAT@[27] as int) * (MAT@[42] as int) + (INV_MAT@[28] as int) * (MAT@[54] as int) + (INV_MAT@[29] as int) * (MAT@[66] as int) + (INV_MAT@[30] as int) * (MAT@[78] as int) + (INV_MAT@[31] as int) * (MAT@[90] as int) + (INV_MAT@[32] as int) * (MAT@[102] as int) + (INV_MAT@[33] as int) * (MAT@[114] as int) + (INV_MAT@[34] as int) * (MAT@[126] as int) + (INV_MAT@[35] as int) * (MAT@[138] as int));
    assert(((INV_MAT@[24] as int) * (MAT@[6] as int) + (INV_MAT@[25] as int) * (MAT@[18] as int) + (INV_MAT@[26] as int) * (MAT@[30] as int) + (INV_MAT@[27] as int) * (MAT@[42] as int) + (INV_MAT@[28] as int) * (MAT@[54] as int) + (INV_MAT@[29] as int) * (MAT@[66] as int) + (INV_MAT@[30] as int) * (MAT@[78] as int) + (INV_MAT@[31] as int) * (MAT@[90] as int) + (INV_MAT@[32] as int) * (MAT@[102] as int) + (INV_MAT@[33] as int) * (MAT@[114] as int) + (INV_MAT@[34] as int) * (MAT@[126] as int) + (INV_MAT@[35] as int) * (MAT@[138] as int)) % 340282366920938463463374557953744961537 == 0) by (nonlinear_arith)
        requires
            INV_MAT@[24] == 55903531708439890426125820235258100824, INV_MAT@[25] == 38889413362392967252957092337570852747, INV_MAT@[26] == 89931768400533736772463276030632596978, INV_MAT@[27] == 21875295016346044079788364439883604670, INV_MAT@[28] == 94792945070832857679082912572828953571, INV_MAT@[29] == 213891773493161319891264007856639690109, INV_MAT@[30] == 196877655147114396718095279958952442032, INV_MAT@[31] == 332990601915489782103445103140450426647, INV_MAT@[32] == 94792945070832857679082912572828953571, INV_MAT@[33] == 213891773493161319891264007856639690109, INV_MAT@[34] == 196877655147114396718095279958952442032, INV_MAT@[35] == 332990601915489782103445103140450426647, MAT@[6] == 1, MAT@[18] == 2, MAT@[30] == 3, MAT@[42] == 1, MAT@[54] == 2, MAT@[66] == 4, MAT@[78] == 6, MAT@[90] == 2, MAT@[102] == 1, MAT@[114] == 2, MAT@[126] == 3, MAT@[138] == 1,
    ;
    assert(product_entry(INV_MAT@, MAT@, 12, 2, 7) == (INV_MAT@[24] as int) * (MAT@[7] as int) + (INV_MAT@[25] as int) * (MAT@[19] as int) + (INV_MAT@[26] as int) * (MAT@[31] as int) + (INV_MAT@[27] as int) * (MAT@[43] as int) + (INV_MAT@[28] as int) * (MAT@[55] as int) + (INV_MAT@[29] as int) * (MAT@[67] as int) + (INV_MAT@[30] as int) * (MAT@[79] as int) + (INV_MAT@[31] as int) * (MAT@[91] as int) + (INV_MAT@[32] as int) * (MAT@[103] as int) + (INV_MAT@[33] as int) * (MAT@[115] as int) + (INV_MAT@[34] as int) * (MAT@[127] as int) + (INV_MAT@[35] as int) * (MAT@[139] as int));
    assert(((INV_MAT@[24] as int) * (MAT@[7] as int) + (INV_MAT@[25] as int) * (MAT@[19] as int) + (INV_MAT@[26] as int) * (MAT@[31] as int) + (INV_MAT@[27] as int) * (MAT@[43] as int) + (INV_MAT@[28] as int) * (MAT@[55] as int) + (INV_MAT@[29] as int) * (MAT@[67] as int) + (INV_MAT@[30] as int) * (MAT@[79] as int) + (INV_MAT@[31] as int) * (MAT@[91] as int) + (INV_MAT@[32] as int) * (MAT@[103] as int) + (INV_MAT@[33] as int) * (MAT@[115] as int) + (INV_MAT@[34] as int) * (MAT@[127] as int) + (INV_MAT@[35] as int) * (MAT@[139] as int)) % 340282366920938463463374557953744961537 == 0) by (nonlinear_arith)
        requires
            INV_MAT@[24] == 55903531708439890426125820235258100824, INV_MAT@[25] == 38889413362392967252957092337570852747, INV_MAT@[26] == 89931768400533736772463276030632596978, INV_MAT@[27] == 21875295016346044079788364439883604670, INV_MAT@[28] == 94792945070832857679082912572828953571, INV_MAT@[29] == 213891773493161319891264007856639690109, INV_MAT@[30] == 196877655147114396718095279958952442032, INV_MAT@[31] == 332990601915489782103445103140450426647, INV_MAT@[32] == 94792945070832857679082912572828953571, INV_MAT@[33] == 213891773493161319891264007856639690109, INV_MAT@[34] == 196877655147114396718095279958952442032, INV_MAT@[35] == 332990601915489782103445103140450426647, MAT@[7] == 1, MAT@[19] == 1, MAT@[31] == 2, MAT@[43] == 3, MAT@[55] == 2, MAT@[67] == 2, MAT@[79] == 4, MAT@[91] == 6, MAT@[103] == 1, MAT@[115] == 1, MAT@[127] == 2, MAT@[139] == 3,
    ;
    assert(product_entry(INV_MAT@, MAT@, 12, 2, 8) == (INV_MAT@[24] as int) * (MAT@[8] as int) + (INV_MAT@[25] as int) * (MAT@[20] as int) + (INV_MAT@[26] as int) * (MAT@[32] as int) + (INV_MAT@[27] as int) * (MAT@[44] as int) + (INV_MAT@[28] as int) * (MAT@[56] as int) + (INV_MAT@[29] as int) * (MAT@[68] as int) + (INV_MAT@[30] as int) * (MAT@[80] as int) + (INV_MAT@[31] as int) * (MAT@[92] as int) + (INV_MAT@[32] as int) * (MAT@[104] as int) + (INV_MAT@[33] as int) * (MAT@[116] as int) + (INV_MAT@[34] as int) * (MAT@[128] as int) + (INV_MAT@[35] as int) * (MAT@[140] as int));
    assert(((INV_MAT@[24] as int) * (MAT@[8] as int) + (INV_MAT@[25] as int) * (MAT@[20] as int) + (INV_MAT@[26] as int) * (MAT@[32] as int) + (INV_MAT@[27] as int) * (MAT@[44] as int) + (INV_MAT@[28] as int) * (MAT@[56] as int) + (INV_MAT@[29] as int) * (MAT@[68] as int) + (INV_MAT@[30] as int) * (MAT@[80] as int) + (INV_MAT@[31] as int) * (MAT@[92] as int) + (INV_MAT@[32] as int) * (MAT@[104] as int) + (INV_MAT@[33] as int) * (MAT@[116] as int) + (INV_MAT@[34] as int) * (MAT@[128] as int) + (INV_MAT@[35] as int) * (MAT@[140] as int)) % 340282366920938463463374557953744961537 == 0) by (nonlinear_arith)
        requires
            INV_MAT@[24] == 55903531708439890426125820235258100824, INV_MAT@[25] == 38889413362392967252957092337570852747, INV_MAT@[26] == 89931768400533736772463276030632596978, INV_MAT@[27] == 21875295016346044079788364439883604670, INV_MAT@[28] == 94792945070832857679082912572828953571, INV_MAT@[29] == 213891773493161319891264007856639690109, INV_MAT@[30] == 196877655147114396718095279958952442032, INV_MAT@[31] == 332990601915489782103445103140450426647, INV_MAT@[32] == 94792945070832857679082912572828953571, INV_MAT@[33] == 213891773493161319891264007856639690109, INV_MAT@[34] == 196877655147114396718095279958952442032, INV_MAT@[35] == 332990601915489782103445103140450426647, MAT@[8] == 3, MAT@[20] == 1, MAT@[32] == 1, MAT@[44] == 2, MAT@[56] == 3, MAT@[68] == 1, MAT@[80] == 1, MAT@[92] == 2, MAT@[104] == 6, MAT@[116] == 2, MAT@[128] == 2, MAT@[140] == 4,
    ;
    assert(product_entry(INV_MAT@, MAT@, 12, 2, 9) == (INV_MAT@[24] as int) * (MAT@[9] as int) + (INV_MAT@[25] as int) * (MAT@[21] as int) + (INV_MAT@[26] as int) * (MAT@[33] as int) + (INV_MAT@[27] as int) * (MAT@[45] as int) + (INV_MAT@[28] as int) * (MAT@[57] as int) + (INV_MAT@[29] as int) * (MAT@[69] as int) + (INV_MAT@[30] as int) * (MAT@[81] as int) + (INV_MAT@[31] as int) * (MAT@[93] as int) + (INV_MAT@[32] as int) * (MAT@[105] as int) + (INV_MAT@[33] as int) * (MAT@[117] as int) + (INV_MAT@[34] as int) * (MAT@[129] as int) + (INV_MAT@[35] as int) * (MAT@[141] as int));
    assert(((INV_MAT@[24] as int) * (MAT@[9] as int) + (INV_MAT@[25] as int) * (MAT@[21] as int) + (INV_MAT@[26] as int) * (MAT@[33] as int) + (INV_MAT@[27] as int) * (MAT@[45] as int) + (INV_MAT@[28] as int) * (MAT@[57] as int) + (INV_MAT@[29] as int) * (MAT@[69] as int) + (INV_MAT@[30] as int) * (MAT@[81] as int) + (INV_MAT@[31] as int) * (MAT@[93] as int) + (INV_MAT@[32] as int) * (MAT@[105] as int) + (INV_MAT@[33] as int) * (MAT@[117] as int) + (INV_MAT@[34] as int) * (MAT@[129] as int) + (INV_MAT@[35] as int) * (MAT@[141] as int)) % 340282366920938463463374557953744961537 == 0) by (nonlinear_arith)
        requires
            INV_MAT@[24] == 55903531708439890426125820235258100824, INV_MAT@[25] == 38889413362392967252957092337570852747, INV_MAT@[26] == 89931768400533736772463276030632596978, INV_MAT@[27] == 21875295016346044079788364439883604670, INV_MAT@[28] == 94792945070832857679082912572828953571, INV_MAT@[29] == 213891773493161319891264007856639690109, INV_MAT@[30] == 196877655147114396718095279958952442032, INV_MAT@[31] == 332990601915489782103445103140450426647, INV_MAT@[32] == 94792945070832857679082912572828953571, INV_MAT@[33] == 213891773493161319891264007856639690109, INV_MAT@[34] == 196877655147114396718095279958952442032, INV_MAT@[35] == 332990601915489782103445103140450426647, MAT@[9] == 2, MAT@[21] == 3, MAT@[33] == 1, MAT@[45] == 1, MAT@[57] == 2, MAT@[69] == 3, MAT@[81] == 1, MAT@[93] == 1, MAT@[105] == 4, MAT@[117] == 6, MAT@[129] == 2, MAT@[141] == 2,
    ;
    assert(product_entry(INV_MAT@, MAT@, 12, 2, 10) == (INV_MAT@[24] as int) * (MAT@[10] as int) + (INV_MAT@[25] as int) * (MAT@[22] as int) + (INV_MAT@[26] as int) * (MAT@[34] as int) + (INV_MAT@[27] as int) * (MAT@[46] as int) + (INV_MAT@[28] as int) * (MAT@[58] as int) + (INV_MAT@[29] as int) * (MAT@[70] as int) + (INV_MAT@[30] as int) * (MAT@[82] as int) + (INV_MAT@[31] as int) * (MAT@[94] as int) + (INV_MAT@[32] as int) * (MAT@[106] as int) + (INV_MAT@[33] as int) * (MAT@[118] as int) + (INV_MAT@[34] as int) * (MAT@[130] as int) + (INV_MAT@[35] as int) * (MAT@[142] as int));
    assert(((INV_MAT@[24] as int) * (MAT@[10] as int) + (INV_MAT@[25] as int) * (MAT@[22] as int) + (INV_MAT@[26] as int) * (MAT@[34] as int) + (INV_MAT@[27] as int) * (MAT@[46] as int) + (INV_MAT@[28] as int) * (MAT@[58] as int) + (INV_MAT@[29] as int) * (MAT@[70] as int) + (INV_MAT@[30] as int) * (MAT@[82] as int) + (INV_MAT@[31] as int) * (MAT@[94] as int) + (INV_MAT@[32] as int) * (MAT@[106] as int) + (INV_MAT@[33] as int) * (MAT@[118] as int) + (INV_MAT@[34] as int) * (MAT@[130] as int) + (INV_MAT@[35] as int) * (MAT@[142] as int)) % 340282366920938463463374557953744961537 == 0) by (nonlinear_arith)
        requires
            INV_MAT@[24] == 55903531708439890426125820235258100824, INV_MAT@[25] == 38889413362392967252957092337570852747, INV_MAT@[26] == 89931768400533736772463276030632596978, INV_MAT@[27] == 21875295016346044079788364439883604670, INV_MAT@[28] == 94792945070832857679082912572828953571, INV_MAT@[29] == 213891773493161319891264007856639690109, INV_MAT@[30] == 196877655147114396718095279958952442032, INV_MAT@[31] == 332990601915489782103445103140450426647, INV_MAT@[32] == 94792945070832857679082912572828953571, INV_MAT@[33] == 213891773493161319891264007856639690109, INV_MAT@[34] == 196877655147114396718095279958952442032, INV_MAT@[35] == 332990601915489782103445103140450426647, MAT@[10] == 1, MAT@[22] == 2, MAT@[34] == 3, MAT@[46] == 1, MAT@[58] == 1, MAT@[70] == 2, MAT@[82] == 3, MAT@[94] == 1, MAT@[106] == 2, MAT@[118] == 4, MAT@[130] == 6, MAT@[142] == 2,
    ;
    assert(product_entry(INV_MAT@, MAT@, 12, 2, 11) == (INV_MAT@[24] as int) * (MAT@[11] as int) + (INV_MAT@[25] as int) * (MAT@[23] as int) + (INV_MAT@[26] as int) * (MAT@[35] as int) + (INV_MAT@[27] as int) * (MAT@[47] as int) + (INV_MAT@[28] as int) * (MAT@[59] as int) + (INV_MAT@[29] as int) * (MAT@[71] as int) + (INV_MAT@[30] as int) * (MAT@[83] as int) + (INV_MAT@[31] as int) * (MAT@[95] as int) + (INV_MAT@[32] as int) * (MAT@[107] as int) + (INV_MAT@[33] as int) * (MAT@[119] as int) + (INV_MAT@[34] as int) * (MAT@[131] as int) + (INV_MAT@[35] as int) * (MAT@[143] as int));
    assert(((INV_MAT@[24] as int) * (MAT@[11] as int) + (INV_MAT@[25] as int) * (MAT@[23] as int) + (INV_MAT@[26] as int) * (MAT@[35] as int) + (INV_MAT@[27] as int) * (MAT@[47] as int) + (INV_MAT@[28] as int) * (MAT@[59] as int) + (INV_MAT@[29] as int) * (MAT@[71] as int) + (INV_MAT@[30] as int) * (MAT@[83] as int) + (INV_MAT@[31] as int) * (MAT@[95] as int) + (INV_MAT@[32] as int) * (MAT@[107] as int) + (INV_MAT@[33] as int) * (MAT@[119] as int) + (INV_MAT@[34] as int) * (MAT@[131] as int) + (INV_MAT@[35] as int) * (MAT@[143] as int)) % 340282366920938463463374557953744961537 == 0) by (nonlinear_arith)
        requires
            INV_MAT@[24] == 55903531708439890426125820235258100824, INV_MAT@[25] == 38889413362392967252957092337570852747, INV_MAT@[26] == 89931768400533736772463276030632596978, INV_MAT@[27] == 21875295016346044079788364439883604670, INV_MAT@[28] == 94792945070832857679082912572828953571, INV_MAT@[29] == 213891773493161319891264007856639690109, INV_MAT@[30] == 196877655147114396718095279958952442032, INV_MAT@[31] == 332990601915489782103445103140450426647, INV_MAT@[32] == 94792945070832857679082912572828953571, INV_MAT@[33] == 213891773493161319891264007856639690109, INV_MAT@[34] == 196877655147114396718095279958952442032, INV_MAT@[35] == 332990601915489782103445103140450426647, MAT@[11] == 1, MAT@[23] == 1, MAT@[35] == 2, MAT@[47] == 3, MAT@[59] == 1, MAT@[71] == 1, MAT@[83] == 2, MAT@[95] == 3, MAT@[107] == 2, MAT@[119] == 2, MAT@[131] == 4, MAT@[143] == 6,
    ;
}

proof fn lemma_product_backward_row_3()
    ensures
        identity_row(Elem::modulus(), INV_MAT@, MAT@, 12, 3, 12),
{
    reveal_with_fuel(sum, 13);
    reveal_with_fuel(identity_row, 13);
    assert(product_entry(INV_MAT@, MAT@, 12, 3, 0) == (INV_MAT@[36] as int) * (MAT@[0] as int) + (INV_MAT@[37] as int) * (MAT@[12] as int) + (INV_MAT@[38] as int) * (MAT@[24] as int) + (INV_MAT@[39] as int) * (MAT@[36] as int) + (INV_MAT@[40] as int) * (MAT@[48] as int) + (INV_MAT@[41] as int) * (MAT@[60] as int) + (INV_MAT@[42] as int) * (MAT@[72] as int) + (INV_MAT@[43] as int) * (MAT@[84] as int) + (INV_MAT@[44] as int) * (MAT@[96] as int) + (INV_MAT@[45] as int) * (MAT@[108] as int) + (INV_MAT@[46] as int) * (MAT@[120] as int) + (INV_MAT@[47] as int) * (MAT@[132] as int));
    assert(((INV_MAT@[36] as int) * (MAT@[0] as int) + (INV_MAT@[37] as int) * (MAT@[12] as int) + (INV_MAT@[38] as int) * (MAT@[24] as int) + (INV_MAT@[39] as int) * (MAT@[36] as int) + (INV_MAT@[40] as int) * (MAT@[48] as int) + (INV_MAT@[41] as int) * (MAT@[60] as int) + (INV_MAT@[42] as int) * (MAT@[72] as int) + (INV_MAT@[43] as int) * (MAT@[84] as int) + (INV_MAT@[44] as int) * (MAT@[96] as int) + (INV_MAT@[45] as int) * (MAT@[108] as int) + (INV_MAT@[46] as int) * (MAT@[120] as int) + (INV_MAT@[47] as int) * (MAT@[132] as int)) % 340282366920938463463374557953744961537 == 0) by (nonlinear_arith)
        requires
            INV_MAT@[36] == 21875295016346044079788364439883604670, INV_MAT@[37] == 55903531708439890426125820235258100824, INV_MAT@[38] == 38889413362392967252957092337570852747, INV_MAT@[39] == 89931768400533736772463276030632596978, INV_MAT@[40] == 332990601915489782103445103140450426647, INV_MAT@[41] == 94792945070832857679082912572828953571, INV_MAT@[42] == 213891773493161319891264007856639690109, INV_MAT@[43] == 196877655147114396718095279958952442032, INV_MAT@[44] == 332990601915489782103445103140450426647, INV_MAT@[45] == 94792945070832857679082912572828953571, INV_MAT@[46] == 213891773493161319891264007856639690109, INV_MAT@[47] == 196877655147114396718095279958952442032, MAT@[0] == 6, MAT@[12] == 2, MAT@[24] == 2, MAT@[36] == 4, MAT@[48] == 3, MAT@[60] == 1, MAT@[72] == 1, MAT@[84] == 2, MAT@[96] == 3, MAT@[108] == 1, MAT@[120] == 1, MAT@[132] == 2,
    ;
    assert(product_entry(INV_MAT@, MAT@, 12, 3, 1) == (INV_MAT@[36] as int) * (MAT@[1] as int) + (INV_MAT@[37] as int) * (MAT@[13] as int) + (INV_MAT@[38] as int) * (MAT@[25] as int) + (INV_MAT@[39] as int) * (MAT@[37] as int) + (INV_MAT@[40] as int) * (MAT@[49] as int) + (INV_MAT@[41] as int) * (MAT@[61] as int) + (INV_MAT@[42] as int) * (MAT@[73] as int) + (INV_MAT@[43] as int) * (MAT@[85] as int) + (INV_MAT@[44] as int) * (MAT@[97] as int) + (INV_MAT@[45] as int) * (MAT@[109] as int) + (INV_MAT@[46] as int) * (MAT@[121] as int) + (INV_MAT@[47] as int) * (MAT@[133] as int));
    assert(((INV_MAT@[36] as int) * (MAT@[1] as int) + (INV_MAT@[37] as int) * (MAT@[13] as int) + (INV_MAT@[38] as int) * (MAT@[25] as int) + (INV_MAT@[39] as int) * (MAT@[37] as int) + (INV_MAT@[40] as int) * (MAT@[49] as int) + (INV_MAT@[41] as int) * (MAT@[61] as int) + (INV_MAT@[42] as int) * (MAT@[73] as int) + (INV_MAT@[43] as int) * (MAT@[85] as int) + (INV_MAT@[44] as int) * (MAT@[97] as int) + (INV_MAT@[45] as int) * (MAT@[109] as int) + (INV_MAT@[46] as int) * (MAT@[121] as int) + (INV_MAT@[47] as int) * (MAT@[133] as int)) % 340282366920938463463374557953744961537 == 0) by (nonlinear_arith)
        requires
            INV_MAT@[36] == 21875295016346044079788364439883604670, INV_MAT@[37] == 55903531708439890426125820235258100824, INV_MAT@[38] == 38889413362392967252957092337570852747, INV_MAT@[39] == 89931768400533736772463276030632596978, INV_MAT@[40] == 332990601915489782103445103140450426647, INV_MAT@[41] == 94792945070832857679082912572828953571, INV_MAT@[42] == 213891773493161319891264007856639690109, INV_MAT@[43] == 196877655147114396718095279958952442032, INV_MAT@[44] == 332990601915489782103445103140450426647, INV_MAT@[45] == 94792945070832857679082912572828953571, INV_MAT@[46] == 213891773493161319891264007856639690109, INV_MAT@[47] == 196877655147114396718095279958952442032, MAT@[1] == 4, MAT@[13] == 6, MAT@[25] == 2, MAT@[37] == 2, MAT@[49] == 2, MAT@[61] == 3, MAT@[73] == 1, MAT@[85] == 1, MAT@[97] == 2, MAT@[109] == 3, MAT@[121] == 1, MAT@[133] == 1,
    ;
    assert(product_entry(INV_MAT@, MAT@, 12, 3, 2) == (INV_MAT@[36] as int) * (MAT@[2] as int) + (INV_MAT@[37] as int) * (MAT@[14] as int) + (INV_MAT@[38] as int) * (MAT@[26] as int) + (INV_MAT@[39] as int) * (MAT@[38] as int) + (INV_MAT@[40] as int) * (MAT@[50] as int) + (INV_MAT@[41] as int) * (MAT@[62] as int) + (INV_MAT@[42] as int) * (MAT@[74] as int) + (INV_MAT@[43] as int) * (MAT@[86] as int) + (INV_MAT@[44] as int) * (MAT@[98] as int) + (INV_MAT@[45] as int) * (MAT@[110] as int) + (INV_MAT@[46] as int) * (MAT@[122] as int) + (INV_MAT@[47] as int) * (MAT@[134] as int));
    assert(((INV_MAT@[36] as int) * (MAT@[2] as int) + (INV_MAT@[37] as int) * (MAT@[14] as int) + (INV_MAT@[38] as int) * (MAT@[26] as int) + (INV_MAT@[39] as int) * (MAT@[38] as int) + (INV_MAT@[40] as int) * (MAT@[50] as int) + (INV_MAT@[41] as int) * (MAT@[62] as int) + (INV_MAT@[42] as int) * (MAT@[74] as int) + (INV_MAT@[43] as int) * (MAT@[86] as int) + (INV_MAT@[44] as int) * (MAT@[98] as int) + (INV_MAT@[45] as int) * (MAT@[110] as int) + (INV_MAT@[46] as int) * (MAT@[122] as int) + (INV_MAT@[47] as int) * (MAT@[134] as int)) % 340282366920938463463374557953744961537 == 0) by (nonlinear_arith)
        requires
            INV_MAT@[36] == 21875295016346044079788364439883604670, INV_MAT@[37] == 55903531708439890426125820235258100824, INV_MAT@[38] == 38889413362392967252957092337570852747, INV_MAT@[39] == 89931768400533736772463276030632596978, INV_MAT@[40] == 332990601915489782103445103140450426647, INV_MAT@[41] == 94792945070832857679082912572828953571, INV_MAT@[42] == 213891773493161319891264007856639690109, INV_MAT@[43] == 196877655147114396718095279958952442032, INV_MAT@[44] == 332990601915489782103445103140450426647, INV_MAT@[45] == 94792945070832857679082912572828953571, INV_MAT@[46] == 213891773493161319891264007856639690109, INV_MAT@[47] == 196877655147114396718095279958952442032, MAT@[2] == 2, MAT@[14] == 4, MAT@[26] == 6, MAT@[38] == 2, MAT@[50] == 1, MAT@[62] == 2, MAT@[74] == 3, MAT@[86] == 1, MAT@[98] == 1, MAT@[110] == 2, MAT@[122] == 3, MAT@[134] == 1,
    ;
    assert(product_entry(INV_MAT@, MAT@, 12, 3, 3) == (INV_MAT@[36] as int) * (MAT@[3] as int) + (INV_MAT@[37] as int) * (MAT@[15] as int) + (INV_MAT@[38] as int) * (MAT@[27] as int) + (INV_MAT@[39] as int) * (MAT@[39] as int) + (INV_MAT@[40] as int) * (MAT@[51] as int) + (INV_MAT@[41] as int) * (MAT@[63] as int) + (INV_MAT@[42] as int) * (MAT@[75] as int) + (INV_MAT@[43] as int) * (MAT@[87] as int) + (INV_MAT@[44] as int) * (MAT@[99] as int) + (INV_MAT@[45] as int) * (MAT@[111] as int) + (INV_MAT@[46] as int) * (MAT@[123] as int) + (INV_MAT@[47] as int) * (MAT@[135] as int));
    assert(((INV_MAT@[36] as int) * (MAT@[3] as int) + (INV_MAT@[37] as int) * (MAT@[15] as int) + (INV_MAT@[38] as int) * (MAT@[27] as int) + (INV_MAT@[39] as int) * (MAT@[39] as int) + (INV_MAT@[40] as int) * (MAT@[51] as int) + (INV_MAT@[41] as int) * (MAT@[63] as int) + (INV_MAT@[42] as int) * (MAT@[75] as int) + (INV_MAT@[43] as int) * (MAT@[87] as int) + (INV_MAT@[44] as int) * (MAT@[99] as int) + (INV_MAT@[45] as int) * (MAT@[111] as int) + (INV_MAT@[46] as int) * (MAT@[123] as int) + (INV_MAT@[47] as int) * (MAT@[135] as int)) % 340282366920938463463374557953744961537 == 1) by (nonlinear_arith)
        requires
            INV_MAT@[36] == 21875295016346044079788364439883604670, INV_MAT@[37] == 55903531708439890426125820235258100824, INV_MAT@[38] == 38889413362392967252957092337570852747, INV_MAT@[39] == 89931768400533736772463276030632596978, INV_MAT@[40] == 332990601915489782103445103140450426647, INV_MAT@[41] == 94792945070832857679082912572828953571, INV_MAT@[42] == 213891773493161319891264007856639690109, INV_MAT@[43] == 196877655147114396718095279958952442032, INV_MAT@[44] == 332990601915489782103445103140450426647, INV_MAT@[45] == 94792945070832857679082912572828953571, INV_MAT@[46] == 213891773493161319891264007856639690109, INV_MAT@[47] == 196877655147114396718095279958952442032, MAT@[3] == 2, MAT@[15] == 2, MAT@[27] == 4, MAT@[39] == 6, MAT@[51] == 1, MAT@[63] == 1, MAT@[75] == 2, MAT@[87] == 3, MAT@[99] == 1, MAT@[111] == 1, MAT@[123] == 2, MAT@[135] == 3,
    ;
    assert(product_entry(INV_MAT@, MAT@, 12, 3, 4) == (INV_MAT@[36] as int) * (MAT@[4] as int) + (INV_MAT@[37] as int) * (MAT@[16] as int) + (INV_MAT@[38] as int) * (MAT@[28] as int) + (INV_MAT@[39] as int) * (MAT@[40] as int) + (INV_MAT@[40] as int) * (MAT@[52] as int) + (INV_MAT@[41] as int) * (MAT@[64] as int) + (INV_MAT@[42] as int) * (MAT@[76] as int) + (INV_MAT@[43] as int) * (MAT@[88] as int) + (INV_MAT@[44] as int) * (MAT@[100] as int) + (INV_MAT@[45] as int) * (MAT@[112] as int) + (INV_MAT@[46] as int) * (MAT@[124] as int) + (INV_MAT@[47] as int) * (MAT@[136] as int));
    assert(((INV_MAT@[36] as int) * (MAT@[4] as int) + (INV_MAT@[37] as int) * (MAT@[16] as int) + (INV_MAT@[38] as int) * (MAT@[28] as int) + (INV_MAT@[39] as int) * (MAT@[40] as int) + (INV_MAT@[40] as int) * (MAT@[52] as int) + (INV_MAT@[41] as int) * (MAT@[64] as int) + (INV_MAT@[42] as int) * (MAT@[76] as int) + (INV_MAT@[43] as int) * (MAT@[88] as int) + (INV_MAT@[44] as int) * (MAT@[100] as int) + (INV_MAT@[45] as int) * (MAT@[112] as int) + (INV_MAT@[46] as int) * (MAT@[124] as int) + (INV_MAT@[47] as int) * (MAT@[136] as int)) % 340282366920938463463374557953744961537 == 0) by (nonlinear_arith)
        requires
            INV_MAT@[36] == 21875295016346044079788364439883604670, INV_MAT@[37] == 55903531708439890426125820235258100824, INV_MAT@[38] == 38889413362392967252957092337570852747, INV_MAT@[39] == 89931768400533736772463276030632596978, INV_MAT@[40] == 332990601915489782103445103140450426647, INV_MAT@[41] == 94792945070832857679082912572828953571, INV_MAT@[42] == 213891773493161319891264007856639690109, INV_MAT@[43] == 196877655147114396718095279958952442032, INV_MAT@[44] == 332990601915489782103445103140450426647, INV_MAT@[45] == 94792945070832857679082912572828953571, INV_MAT@[46] == 213891773493161319891264007856639690109, INV_MAT@[47] == 196877655147114396718095279958952442032, MAT@[4] == 3, MAT@[16] == 1, MAT@[28] == 1, MAT@[40] == 2, MAT@[52] == 6, MAT@[64] == 2, MAT@[76] == 2, MAT@[88] == 4, MAT@[100] == 3, MAT@[112] == 1, MAT@[124] == 1, MAT@[136] == 2,
    ;
    assert(product_entry(INV_MAT@, MAT@, 12, 3, 5) == (INV_MAT@[36] as int) * (MAT@[5] as int) + (INV_MAT@[37] as int) * (MAT@[17] as int) + (INV_MAT@[38] as int) * (MAT@[29] as int) + (INV_MAT@[39] as int) * (MAT@[41] as int) + (INV_MAT@[40] as int) * (MAT@[53] as int) + (INV_MAT@[41] as int) * (MAT@[65] as int) + (INV_MAT@[42] as int) * (MAT@[77] as int) + (INV_MAT@[43] as int) * (MAT@[89] as int) + (INV_MAT@[44] as int) * (MAT@[101] as int) + (INV_MAT@[45] as int) * (MAT@[113] as int) + (INV_MAT@[46] as int) * (MAT@[125] as int) + (INV_MAT@[47] as int) * (MAT@[137] as int));
    assert(((INV_MAT@[36] as int) * (MAT@[5] as int) + (INV_MAT@[37] as int) * (MAT@[17] as int) + (INV_MAT@[38] as int) * (MAT@[29] as int) + (INV_MAT@[39] as int) * (MAT@[41] as int) + (INV_MAT@[40] as int) * (MAT@[53] as int) + (INV_MAT@[41] as int) * (MAT@[65] as int) + (INV_MAT@[42] as int) * (MAT@[77] as int) + (INV_MAT@[43] as int) * (MAT@[89] as int) + (INV_MAT@[44] as int) * (MAT@[101] as int) + (INV_MAT@[45] as int) * (MAT@[113] as int) + (INV_MAT@[46] as int) * (MAT@[125] as int) + (INV_MAT@[47] as int) * (MAT@[137] as int)) % 340282366920938463463374557953744961537 == 0) by (nonlinear_arith)
        requires
            INV_MAT@[36] == 21875295016346044079788364439883604670, INV_MAT@[37] == 55903531708439890426125820235258100824, INV_MAT@[38] == 38889413362392967252957092337570852747, INV_MAT@[39] == 89931768400533736772463276030632596978, INV_MAT@[40] == 332990601915489782103445103140450426647, INV_MAT@[41] == 94792945070832857679082912572828953571, INV_MAT@[42] == 213891773493161319891264007856639690109, INV_MAT@[43] == 196877655147114396718095279958952442032, INV_MAT@[44] == 332990601915489782103445103140450426647, INV_MAT@[45] == 94792945070832857679082912572828953571, INV_MAT@[46] == 213891773493161319891264007856639690109, INV_MAT@[47] == 196877655147114396718095279958952442032, MAT@[5] == 2, MAT@[17] == 3, MAT@[29] == 1, MAT@[41] == 1, MAT@[53] == 4, MAT@[65] == 6, MAT@[77] == 2, MAT@[89] == 2, MAT@[101] == 2, MAT@[113] == 3, MAT@[125] == 1, MAT@[137] == 1,
    ;
    assert(product_entry(INV_MAT@, MAT@, 12, 3, 6) == (INV_MAT@[36] as int) * (MAT@[6] as int) + (INV_MAT@[37] as int) * (MAT@[18] as int) + (INV_MAT@[38] as int) * (MAT@[30] as int) + (INV_MAT@[39] as int) * (MAT@[42] as int) + (INV_MAT@[40] as int) * (MAT@[54] as int) + (INV_MAT@[41] as int) * (MAT@[66] as int) + (INV_MAT@[42] as int) * (MAT@[78] as int) + (INV_MAT@[43] as int) * (MAT@[90] as int) + (INV_MAT@[44] as int) * (MAT@[102] as int) + (INV_MAT@[45] as int) * (MAT@[114] as int) + (INV_MAT@[46] as int) * (MAT@[126] as int) + (INV_MAT@[47] as int) * (MAT@[138] as int));
    assert(((INV_MAT@[36] as int) * (MAT@[6] as int) + (INV_MAT@[37] as int) * (MAT@[18] as int) + (INV_MAT@[38] as int) * (MAT@[30] as int) + (INV_MAT@[39] as int) * (MAT@[42] as int) + (INV_MAT@[40] as int) * (MAT@[54] as int) + (INV_MAT@[41] as int) * (MAT@[66] as int) + (INV_MAT@[42] as int) * (MAT@[78] as int) + (INV_MAT@[43] as int) * (MAT@[90] as int) + (INV_MAT@[44] as int) * (MAT@[102] as int) + (INV_MAT@[45] as int) * (MAT@[114] as int) + (INV_MAT@[46] as int) * (MAT@[126] as int) + (INV_MAT@[47] as int) * (MAT@[138] as int)) % 340282366920938463463374557953744961537 == 0) by (nonlinear_arith)
        requires
            INV_MAT@[36] == 21875295016346044079788364439883604670, INV_MAT@[37] == 55903531708439890426125820235258100824, INV_MAT@[38] == 38889413362392967252957092337570852747, INV_MAT@[39] == 89931768400533736772463276030632596978, INV_MAT@[40] == 332990601915489782103445103140450426647, INV_MAT@[41] == 94792945070832857679082912572828953571, INV_MAT@[42] == 213891773493161319891264007856639690109, INV_MAT@[43] == 196877655147114396718095279958952442032, INV_MAT@[44] == 332990601915489782103445103140450426647, INV_MAT@[45] == 94792945070832857679082912572828953571, INV_MAT@[46] == 213891773493161319891264007856639690109, INV_MAT@[47] == 196877655147114396718095279958952442032, MAT@[6] == 1, MAT@[18] == 2, MAT@[30] == 3, MAT@[42] == 1, MAT@[54] == 2, MAT@[66] == 4, MAT@[78] == 6, MAT@[90] == 2, MAT@[102] == 1, MAT@[114] == 2, MAT@[126] == 3, MAT@[138] == 1,
    ;
    assert(product_entry(INV_MAT@, MAT@, 12, 3, 7) == (INV_MAT@[36] as int) * (MAT@[7] as int) + (INV_MAT@[37] as int) * (MAT@[19] as int) + (INV_MAT@[38] as int) * (MAT@[31] as int) + (INV_MAT@[39] as int) * (MAT@[43] as int) + (INV_MAT@[40] as int) * (MAT@[55] as int) + (INV_MAT@[41] as int) * (MAT@[67] as int) + (INV_MAT@[42] as int) * (MAT@[79] as int) + (INV_MAT@[43] as int) * (MAT@[91] as int) + (INV_MAT@[44] as int) * (MAT@[103] as int) + (INV_MAT@[45] as int) * (MAT@[115] as int) + (INV_MAT@[46] as int) * (MAT@[127] as int) + (INV_MAT@[47] as int) * (MAT@[139] as int));
    assert(((INV_MAT@[36] as int) * (MAT@[7] as int) + (INV_MAT@[37] as int) * (MAT@[19] as int) + (INV_MAT@[38] as int) * (MAT@[31] as int) + (INV_MAT@[39] as int) * (MAT@[43] as int) + (INV_MAT@[40] as int) * (MAT@[55] as int) + (INV_MAT@[41] as int) * (MAT@[67] as int) + (INV_MAT@[42] as int) * (MAT@[79] as int) + (INV_MAT@[43] as int) * (MAT@[91] as int) + (INV_MAT@[44] as int) * (MAT@[103] as int) + (INV_MAT@[45] as int) * (MAT@[115] as int) + (INV_MAT@[46] as int) * (MAT@[127] as int) + (INV_MAT@[47] as int) * (MAT@[139] as int)) % 340282366920938463463374557953744961537 == 0) by (nonlinear_arith)
        requires
            INV_MAT@[36] == 21875295016346044079788364439883604670, INV_MAT@[37] == 55903531708439890426125820235258100824, INV_MAT@[38] == 38889413362392967252957092337570852747, INV_MAT@[39] == 89931768400533736772463276030632596978, INV_MAT@[40] == 332990601915489782103445103140450426647, INV_MAT@[41] == 94792945070832857679082912572828953571, INV_MAT@[42] == 213891773493161319891264007856639690109, INV_MAT@[43] == 196877655147114396718095279958952442032, INV_MAT@[44] == 332990601915489782103445103140450426647, INV_MAT@[45] == 94792945070832857679082912572828953571, INV_MAT@[46] == 213891773493161319891264007856639690109, INV_MAT@[47] == 196877655147114396718095279958952442032, MAT@[7] == 1, MAT@[19] == 1, MAT@[31] == 2, MAT@[43] == 3, MAT@[55] == 2, MAT@[67] == 2, MAT@[79] == 4, MAT@[91] == 6, MAT@[103] == 1, MAT@[115] == 1, MAT@[127] == 2, MAT@[139] == 3,
    ;
    assert(product_entry(INV_MAT@, MAT@, 12, 3, 8) == (INV_MAT@[36] as int) * (MAT@[8] as int) + (INV_MAT@[37] as int) * (MAT@[20] as int) + (INV_MAT@[38] as int) * (MAT@[32] as int) + (INV_MAT@[39] as int) * (MAT@[44] as int) + (INV_MAT@[40] as int) * (MAT@[56] as int) + (INV_MAT@[41] as int) * (MAT@[68] as int) + (INV_MAT@[42] as int) * (MAT@[80] as int) + (INV_MAT@[43] as int) * (MAT@[92] as int) + (INV_MAT@[44] as int) * (MAT@[104] as int) + (INV_MAT@[45] as int) * (MAT@[116] as int) + (INV_MAT@[46] as int) * (MAT@[128] as int) + (INV_MAT@[47] as int) * (MAT@[140] as int));
    assert(((INV_MAT@[36] as int) * (MAT@[8] as int) + (INV_MAT@[37] as int) * (MAT@[20] as int) + (INV_MAT@[38] as int) * (MAT@[32] as int) + (INV_MAT@[39] as int) * (MAT@[44] as int) + (INV_MAT@[40] as int) * (MAT@[56] as int) + (INV_MAT@[41] as int) * (MAT@[68] as int) + (INV_MAT@[42] as int) * (MAT@[80] as int) + (INV_MAT@[43] as int) * (MAT@[92] as int) + (INV_MAT@[44] as int) * (MAT@[104] as int) + (INV_MAT@[45] as int) * (MAT@[116] as int) + (INV_MAT@[46] as int) * (MAT@[128] as int) + (INV_MAT@[47] as int) * (MAT@[140] as int)) % 340282366920938463463374557953744961537 == 0) by (nonlinear_arith)
        requires
            INV_MAT@[36] == 21875295016346044079788364439883604670, INV_MAT@[37] == 55903531708439890426125820235258100824, INV_MAT@[38] == 38889413362392967252957092337570852747, INV_MAT@[39] == 89931768400533736772463276030632596978, INV_MAT@[40] == 332990601915489782103445103140450426647, INV_MAT@[41] == 94792945070832857679082912572828953571, INV_MAT@[42] == 213891773493161319891264007856639690109, INV_MAT@[43] == 196877655147114396718095279958952442032, INV_MAT@[44] == 332990601915489782103445103140450426647, INV_MAT@[45] == 94792945070832857679082912572828953571, INV_MAT@[46] == 213891773493161319891264007856639690109, INV_MAT@[47] == 196877655147114396718095279958952442032, MAT@[8] == 3, MAT@[20] == 1, MAT@[32] == 1, MAT@[44] == 2, MAT@[56] == 3, MAT@[68] == 1, MAT@[80] == 1, MAT@[92] == 2, MAT@[104] == 6, MAT@[116] == 2, MAT@[128] == 2, MAT@[140] == 4,
    ;
    assert(product_entry(INV_MAT@, MAT@, 12, 3, 9) == (INV_MAT@[36] as int) * (MAT@[9] as int) + (INV_MAT@[37] as int) * (MAT@[21] as int) + (INV_MAT@[38] as int) * (MAT@[33] as int) + (INV_MAT@[39] as int) * (MAT@[45] as int) + (INV_MAT@[40] as int) * (MAT@[57] as int) + (INV_MAT@[41] as int) * (MAT@[69] as int) + (INV_MAT@[42] as int) * (MAT@[81] as int) + (INV_MAT@[43] as int) * (MAT@[93] as int) + (INV_MAT@[44] as int) * (MAT@[105] as int) + (INV_MAT@[45] as int) * (MAT@[117] as int) + (INV_MAT@[46] as int) * (MAT@[129] as int) + (INV_MAT@[47] as int) * (MAT@[141] as int));
    assert(((INV_MAT@[36] as int) * (MAT@[9] as int) + (INV_MAT@[37] as int) * (MAT@[21] as int) + (INV_MAT@[38] as int) * (MAT@[33] as int) + (INV_MAT@[39] as int) * (MAT@[45] as int) + (INV_MAT@[40] as int) * (MAT@[57] as int) + (INV_MAT@[41] as int) * (MAT@[69] as int) + (INV_MAT@[42] as int) * (MAT@[81] as int) + (INV_MAT@[43] as int) * (MAT@[93] as int) + (INV_MAT@[44] as int) * (MAT@[105] as int) + (INV_MAT@[45] as int) * (MAT@[117] as int) + (INV_MAT@[46] as int) * (MAT@[129] as int) + (INV_MAT@[47] as int) * (MAT@[141] as int)) % 340282366920938463463374557953744961537 == 0) by (nonlinear_arith)
        requires
            INV_MAT@[36] == 21875295016346044079788364439883604670, INV_MAT@[37] == 55903531708439890426125820235258100824, INV_MAT@[38] == 38889413362392967252957092337570852747, INV_MAT@[39] == 89931768400533736772463276030632596978, INV_MAT@[40] == 332990601915489782103445103140450426647, INV_MAT@[41] == 94792945070832857679082912572828953571, INV_MAT@[42] == 213891773493161319891264007856639690109, INV_MAT@[43] == 196877655147114396718095279958952442032, INV_MAT@[44] == 332990601915489782103445103140450426647, INV_MAT@[45] == 94792945070832857679082912572828953571, INV_MAT@[46] == 213891773493161319891264007856639690109, INV_MAT@[47] == 196877655147114396718095279958952442032, MAT@[9] == 2, MAT@[21] == 3, MAT@[33] == 1, MAT@[45] == 1, MAT@[57] == 2, MAT@[69] == 3, MAT@[81] == 1, MAT@[93] == 1, MAT@[105] == 4, MAT@[117] == 6, MAT@[129] == 2, MAT@[141] == 2,
    ;
    assert(product_entry(INV_MAT@, MAT@, 12, 3, 10) == (INV_MAT@[36] as int) * (MAT@[10] as int) + (INV_MAT@[37] as int) * (MAT@[22] as int) + (INV_MAT@[38] as int) * (MAT@[34] as int) + (INV_MAT@[39] as int) * (MAT@[46] as int) + (INV_MAT@[40] as int) * (MAT@[58] as int) + (INV_MAT@[41] as int) * (MAT@[70] as int) + (INV_MAT@[42] as int) * (MAT@[82] as int) + (INV_MAT@[43] as int) * (MAT@[94] as int) + (INV_MAT@[44] as int) * (MAT@[106] as int) + (INV_MAT@[45] as int) * (MAT@[118] as int) + (INV_MAT@[46] as int) * (MAT@[130] as int) + (INV_MAT@[47] as int) * (MAT@[142] as int));
    assert(((INV_MAT@[36] as int) * (MAT@[10] as int) + (INV_MAT@[37] as int) * (MAT@[22] as int) + (INV_MAT@[38] as int) * (MAT@[34] as int) + (INV_MAT@[39] as int) * (MAT@[46] as int) + (INV_MAT@[40] as int) * (MAT@[58] as int) + (INV_MAT@[41] as int) * (MAT@[70] as int) + (INV_MAT@[42] as int) * (MAT@[82] as int) + (INV_MAT@[43] as int) * (MAT@[94] as int) + (INV_MAT@[44] as int) * (MAT@[106] as int) + (INV_MAT@[45] as int) * (MAT@[118] as int) + (INV_MAT@[46] as int) * (MAT@[130] as int) + (INV_MAT@[47] as int) * (MAT@[142] as int)) % 340282366920938463463374557953744961537 == 0) by (nonlinear_arith)
        requires
            INV_MAT@[36] == 21875295016346044079788364439883604670, INV_MAT@[37] == 55903531708439890426125820235258100824, INV_MAT@[38] == 38889413362392967252957092337570852747, INV_MAT@[39] == 89931768400533736772463276030632596978, INV_MAT@[40] == 332990601915489782103445103140450426647, INV_MAT@[41] == 94792945070832857679082912572828953571, INV_MAT@[42] == 213891773493161319891264007856639690109, INV_MAT@[43] == 196877655147114396718095279958952442032, INV_MAT@[44] == 332990601915489782103445103140450426647, INV_MAT@[45] == 94792945070832857679082912572828953571, INV_MAT@[46] == 213891773493161319891264007856639690109, INV_MAT@[47] == 196877655147114396718095279958952442032, MAT@[10] == 1, MAT@[22] == 2, MAT@[34] == 3, MAT@[46] == 1, MAT@[58] == 1, MAT@[70] == 2, MAT@[82] == 3, MAT@[94] == 1, MAT@[106] == 2, MAT@[118] == 4, MAT@[130] == 6, MAT@[142] == 2,
    ;
    assert(product_entry(INV_MAT@, MAT@, 12, 3, 11) == (INV_MAT@[36] as int) * (MAT@[11] as int) + (INV_MAT@[37] as int) * (MAT@[23] as int) + (INV_MAT@[38] as int) * (MAT@[35] as int) + (INV_MAT@[39] as int) * (MAT@[47] as int) + (INV_MAT@[40] as int) * (MAT@[59] as int) + (INV_MAT@[41] as int) * (MAT@[71] as int) + (INV_MAT@[42] as int) * (MAT@[83] as int) + (INV_MAT@[43] as int) * (MAT@[95] as int) + (INV_MAT@[44] as int) * (MAT@[107] as int) + (INV_MAT@[45] as int) * (MAT@[119] as int) + (INV_MAT@[46] as int) * (MAT@[131] as int) + (INV_MAT@[47] as int) * (MAT@[143] as int));
    assert(((INV_MAT@[36] as int) * (MAT@[11] as int) + (INV_MAT@[37] as int) * (MAT@[23] as int) + (INV_MAT@[38] as int) * (MAT@[35] as int) + (INV_MAT@[39] as int) * (MAT@[47] as int) + (INV_MAT@[40] as int) * (MAT@[59] as int) + (INV_MAT@[41] as int) * (MAT@[71] as int) + (INV_MAT@[42] as int) * (MAT@[83] as int) + (INV_MAT@[43] as int) * (MAT@[95] as int) + (INV_MAT@[44] as int) * (MAT@[107] as int) + (INV_MAT@[45] as int) * (MAT@[119] as int) + (INV_MAT@[46] as int) * (MAT@[131] as int) + (INV_MAT@[47] as int) * (MAT@[143] as int)) % 340282366920938463463374557953744961537 == 0) by (nonlinear_arith)
        requires
            INV_MAT@[36] == 21875295016346044079788364439883604670, INV_MAT@[37] == 55903531708439890426125820235258100824, INV_MAT@[38] == 38889413362392967252957092337570852747, INV_MAT@[39] == 89931768400533736772463276030632596978, INV_MAT@[40] == 332990601915489782103445103140450426647, INV_MAT@[41] == 94792945070832857679082912572828953571, INV_MAT@[42] == 213891773493161319891264007856639690109, INV_MAT@[43] == 196877655147114396718095279958952442032, INV_MAT@[44] == 332990601915489782103445103140450426647, INV_MAT@[45] == 94792945070832857679082912572828953571, INV_MAT@[46] == 213891773493161319891264007856639690109, INV_MAT@[47] == 196877655147114396718095279958952442032, MAT@[11] == 1, MAT@[23] == 1, MAT@[35] == 2, MAT@[47] == 3, MAT@[59] == 1, MAT@[71] == 1, MAT@[83] == 2, MAT@[95] == 3, MAT@[107] == 2, MAT@[119] == 2, MAT@[131] == 4, MAT@[143] == 6,
    ;
}

proof fn lemma_product_backward_row_4()
    ensures
        identity_row(Elem::modulus(), INV_MAT@, MAT@, 12, 4, 12),
{
    reveal_with_fuel(sum, 13);
    reveal_with_fuel(identity_row, 13);
    assert(product_entry(INV_MAT@, MAT@, 12, 4, 0) == (INV_MAT@[48] as int) * (MAT@[0] as int) + (INV_MAT@[49] as int) * (MAT@[12] as int) + (INV_MAT@[50] as int) * (MAT@[24] as int) + (INV_MAT@[51] as int) * (MAT@[36] as int) + (INV_MAT@[52] as int) * (MAT@[48] as int) + (INV_MAT@[53] as int) * (MAT@[60] as int) + (INV_MAT@[54] as int) * (MAT@[72] as int) + (INV_MAT@[55] as int) * (MAT@[84] as int) + (INV_MAT@[56] as int) * (MAT@[96] as int) + (INV_MAT@[57] as int) * (MAT@[108] as int) + (INV_MAT@[58] as int) * (MAT@[120] as int) + (INV_MAT@[59] as int) * (MAT@[132] as int));
    assert(((INV_MAT@[48] as int) * (MAT@[0] as int) + (INV_MAT@[49] as int) * (MAT@[12] as int) + (INV_MAT@[50] as int) * (MAT@[24] as int) + (INV_MAT@[51] as int) * (MAT@[36] as int) + (INV_MAT@[52] as int) * (MAT@[48] as int) + (INV_MAT@[53] as int) * (MAT@[60] as int) + (INV_MAT@[54] as int) * (MAT@[72] as int) + (INV_MAT@[55] as int) * (MAT@[84] as int) + (INV_MAT@[56] as int) * (MAT@[96] as int) + (INV_MAT@[57] as int) * (MAT@[108] as int) + (INV_MAT@[58] as int) * (MAT@[120] as int) + (INV_MAT@[59] as int) * (MAT@[132] as int)) % 340282366920938463463374557953744961537 == 0) by (nonlinear_arith)
        requires
            INV_MAT@[48] == 196877655147114396718095279958952442032, INV_MAT@[49] == 332990601915489782103445103140450426647, INV_MAT@[50] == 94792945070832857679082912572828953571, INV_MAT@[51] == 213891773493161319891264007856639690109, INV_MAT@[52] == 89931768400533736772463276030632596978, INV_MAT@[53] == 21875295016346044079788364439883604670, INV_MAT@[54] == 55903531708439890426125820235258100824, INV_MAT@[55] == 38889413362392967252957092337570852747, INV_MAT@[56] == 196877655147114396718095279958952442032, INV_MAT@[57] == 332990601915489782103445103140450426647, INV_MAT@[58] == 94792945070832857679082912572828953571, INV_MAT@[59] == 213891773493161319891264007856639690109, MAT@[0] == 6, MAT@[12] == 2, MAT@[24] == 2, MAT@[36] == 4, MAT@[48] == 3, MAT@[60] == 1, MAT@[72] == 1, MAT@[84] == 2, MAT@[96] == 3, MAT@[108] == 1, MAT@[120] == 1, MAT@[132] == 2,
    ;
    assert(product_entry(INV_MAT@, MAT@, 12, 4, 1) == (INV_MAT@[48] as int) * (MAT@[1] as int) + (INV_MAT@[49] as int) * (MAT@[13] as int) + (INV_MAT@[50] as int) * (MAT@[25] as int) + (INV_MAT@[51] as int) * (MAT@[37] as int) + (INV_MAT@[52] as int) * (MAT@[49] as int) + (INV_MAT@[53] as int) * (MAT@[61] as int) + (INV_MAT@[54] as int) * (MAT@[73] as int) + (INV_MAT@[55] as int) * (MAT@[85] as int) + (INV_MAT@[56] as int) * (MAT@[97] as int) + (INV_MAT@[57] as int) * (MAT@[109] as int) + (INV_MAT@[58] as int) * (MAT@[121] as int) + (INV_MAT@[59] as int) * (MAT@[133] as int));
    assert(((INV_MAT@[48] as int) * (MAT@[1] as int) + (INV_MAT@[49] as int) * (MAT@[13] as int) + (INV_MAT@[50] as int) * (MAT@[25] as int) + (INV_MAT@[51] as int) * (MAT@[37] as int) + (INV_MAT@[52] as int) * (MAT@[49] as int) + (INV_MAT@[53] as int) * (MAT@[61] as int) + (INV_MAT@[54] as int) * (MAT@[73] as int) + (INV_MAT@[55] as int) * (MAT@[85] as int) + (INV_MAT@[56] as int) * (MAT@[97] as int) + (INV_MAT@[57] as int) * (MAT@[109] as int) + (INV_MAT@[58] as int) * (MAT@[121] as int) + (INV_MAT@[59] as int) * (MAT@[133] as int)) % 340282366920938463463374557953744961537 == 0) by (nonlinear_arith)
        requires
            INV_MAT@[48] == 196877655147114396718095279958952442032, INV_MAT@[49] == 332990601915489782103445103140450426647, INV_MAT@[50] == 94792945070832857679082912572828953571, INV_MAT@[51] == 213891773493161319891264007856639690109, INV_MAT@[52] == 89931768400533736772463276030632596978, INV_MAT@[53] == 21875295016346044079788364439883604670, INV_MAT@[54] == 55903531708439890426125820235258100824, INV_MAT@[55] == 38889413362392967252957092337570852747, INV_MAT@[56] == 196877655147114396718095279958952442032, INV_MAT@[57] == 332990601915489782103445103140450426647, INV_MAT@[58] == 94792945070832857679082912572828953571, INV_MAT@[59] == 213891773493161319891264007856639690109, MAT@[1] == 4, MAT@[13] == 6, MAT@[25] == 2, MAT@[37] == 2, MAT@[49] == 2, MAT@[61] == 3, MAT@[73] == 1, MAT@[85] == 1, MAT@[97] == 2, MAT@[109] == 3, MAT@[121] == 1, MAT@[133] == 1,
    ;
    assert(product_entry(INV_MAT@, MAT@, 12, 4, 2) == (INV_MAT@[48] as int) * (MAT@[2] as int) + (INV_MAT@[49] as int) * (MAT@[14] as int) + (INV_MAT@[50] as int) * (MAT@[26] as int) + (INV_MAT@[51] as int) * (MAT@[38] as int) + (INV_MAT@[52] as int) * (MAT@[50] as int) + (INV_MAT@[53] as int) * (MAT@[62] as int) + (INV_MAT@[54] as int) * (MAT@[74] as int) + (INV_MAT@[55] as int) * (MAT@[86] as int) + (INV_MAT@[56] as int) * (MAT@[98] as int) + (INV_MAT@[57] as int) * (MAT@[110] as int) + (INV_MAT@[58] as int) * (MAT@[122] as int) + (INV_MAT@[59] as int) * (MAT@[134] as int));
    assert(((INV_MAT@[48] as int) * (MAT@[2] as int) + (INV_MAT@[49] as int) * (MAT@[14] as int) + (INV_MAT@[50] as int) * (MAT@[26] as int) + (INV_MAT@[51] as int) * (MAT@[38] as int) + (INV_MAT@[52] as int) * (MAT@[50] as int) + (INV_MAT@[53] as int) * (MAT@[62] as int) + (INV_MAT@[54] as int) * (MAT@[74] as int) + (INV_MAT@[55] as int) * (MAT@[86] as int) + (INV_MAT@[56] as int) * (MAT@[98] as int) + (INV_MAT@[57] as int) * (MAT@[110] as int) + (INV_MAT@[58] as int) * (MAT@[122] as int) + (INV_MAT@[59] as int) * (MAT@[134] as int)) % 340282366920938463463374557953744961537 == 0) by (nonlinear_arith)
        requires
            INV_MAT@[48] == 196877655147114396718095279958952442032, INV_MAT@[49] == 332990601915489782103445103140450426647, INV_MAT@[50] == 94792945070832857679082912572828953571, INV_MAT@[51] == 213891773493161319891264007856639690109, INV_MAT@[52] == 89931768400533736772463276030632596978, INV_MAT@[53] == 21875295016346044079788364439883604670, INV_MAT@[54] == 55903531708439890426125820235258100824, INV_MAT@[55] == 38889413362392967252957092337570852747, INV_MAT@[56] == 196877655147114396718095279958952442032, INV_MAT@[57] == 332990601915489782103445103140450426647, INV_MAT@[58] == 94792945070832857679082912572828953571, INV_MAT@[59] == 213891773493161319891264007856639690109, MAT@[2] == 2, MAT@[14] == 4, MAT@[26] == 6, MAT@[38] == 2, MAT@[50] == 1, MAT@[62] == 2, MAT@[74] == 3, MAT@[86] == 1, MAT@[98] == 1, MAT@[110] == 2, MAT@[122] == 3, MAT@[134] == 1,
    ;
    assert(product_entry(INV_MAT@, MAT@, 12, 4, 3) == (INV_MAT@[48] as int) * (MAT@[3] as int) + (INV_MAT@[49] as int) * (MAT@[15] as int) + (INV_MAT@[50] as int) * (MAT@[27] as int) + (INV_MAT@[51] as int) * (MAT@[39] as int) + (INV_MAT@[52] as int) * (MAT@[51] as int) + (INV_MAT@[53] as int) * (MAT@[63] as int) + (INV_MAT@[54] as int) * (MAT@[75] as int) + (INV_MAT@[55] as int) * (MAT@[87] as int) + (INV_MAT@[56] as int) * (MAT@[99] as int) + (INV_MAT@[57] as int) * (MAT@[111] as int) + (INV_MAT@[58] as int) * (MAT@[123] as int) + (INV_MAT@[59] as int) * (MAT@[135] as int));
    assert(((INV_MAT@[48] as int) * (MAT@[3] as int) + (INV_MAT@[49] as int) * (MAT@[15] as int) + (INV_MAT@[50] as int) * (MAT@[27] as int) + (INV_MAT@[51] as int) * (MAT@[39] as int) + (INV_MAT@[52] as int) * (MAT@[51] as int) + (INV_MAT@[53] as int) * (MAT@[63] as int) + (INV_MAT@[54] as int) * (MAT@[75] as int) + (INV_MAT@[55] as int) * (MAT@[87] as int) + (INV_MAT@[56] as int) * (MAT@[99] as int) + (INV_MAT@[57] as int) * (MAT@[111] as int) + (INV_MAT@[58] as int) * (MAT@[123] as int) + (INV_MAT@[59] as int) * (MAT@[135] as int)) % 340282366920938463463374557953744961537 == 0) by (nonlinear_arith)
        requires
            INV_MAT@[48] == 196877655147114396718095279958952442032, INV_MAT@[49] == 332990601915489782103445103140450426647, INV_MAT@[50] == 94792945070832857679082912572828953571, INV_MAT@[51] == 213891773493161319891264007856639690109, INV_MAT@[52] == 89931768400533736772463276030632596978, INV_MAT@[53] == 21875295016346044079788364439883604670, INV_MAT@[54] == 55903531708439890426125820235258100824, INV_MAT@[55] == 38889413362392967252957092337570852747, INV_MAT@[56] == 196877655147114396718095279958952442032, INV_MAT@[57] == 332990601915489782103445103140450426647, INV_MAT@[58] == 94792945070832857679082912572828953571, INV_MAT@[59] == 213891773493161319891264007856639690109, MAT@[3] == 2, MAT@[15] == 2, MAT@[27] == 4, MAT@[39] == 6, MAT@[51] == 1, MAT@[63] == 1, MAT@[75] == 2, MAT@[87] == 3, MAT@[99] == 1, MAT@[111] == 1, MAT@[123] == 2, MAT@[135] == 3,
    ;
    assert(product_entry(INV_MAT@, MAT@, 12, 4, 4) == (INV_MAT@[48] as int) * (MAT@[4] as int) + (INV_MAT@[49] as int) * (MAT@[16] as int) + (INV_MAT@[50] as int) * (MAT@[28] as int) + (INV_MAT@[51] as int) * (MAT@[40] as int) + (INV_MAT@[52] as int) * (MAT@[52] as int) + (INV_MAT@[53] as int) * (MAT@[64] as int) + (INV_MAT@[54] as int) * (MAT@[76] as int) + (INV_MAT@[55] as int) * (MAT@[88] as int) + (INV_MAT@[56] as int) * (MAT@[100] as int) + (INV_MAT@[57] as int) * (MAT@[112] as int) + (INV_MAT@[58] as int) * (MAT@[124] as int) + (INV_MAT@[59] as int) * (MAT@[136] as int));
    assert(((INV_MAT@[48] as int) * (MAT@[4] as int) + (INV_MAT@[49] as int) * (MAT@[16] as int) + (INV_MAT@[50] as int) * (MAT@[28] as int) + (INV_MAT@[51] as int) * (MAT@[40] as int) + (INV_MAT@[52] as int) * (MAT@[52] as int) + (INV_MAT@[53] as int) * (MAT@[64] as int) + (INV_MAT@[54] as int) * (MAT@[76] as int) + (INV_MAT@[55] as int) * (MAT@[88] as int) + (INV_MAT@[56] as int) * (MAT@[100] as int) + (INV_MAT@[57] as int) * (MAT@[112] as int) + (INV_MAT@[58] as int) * (MAT@[124] as int) + (INV_MAT@[59] as int) * (MAT@[136] as int)) % 340282366920938463463374557953744961537 == 1) by (nonlinear_arith)
        requires
            INV_MAT@[48] == 196877655147114396718095279958952442032, INV_MAT@[49] == 332990601915489782103445103140450426647, INV_MAT@[50] == 94792945070832857679082912572828953571, INV_MAT@[51] == 213891773493161319891264007856639690109, INV_MAT@[52] == 89931768400533736772463276030632596978, INV_MAT@[53] == 21875295016346044079788364439883604670, INV_MAT@[54] == 55903531708439890426125820235258100824, INV_MAT@[55] == 38889413362392967252957092337570852747, INV_MAT@[56] == 196877655147114396718095279958952442032, INV_MAT@[57] == 332990601915489782103445103140450426647, INV_MAT@[58] == 94792945070832857679082912572828953571, INV_MAT@[59] == 213891773493161319891264007856639690109, MAT@[4] == 3, MAT@[16] == 1, MAT@[28] == 1, MAT@[40] == 2, MAT@[52] == 6, MAT@[64] == 2, MAT@[76] == 2, MAT@[88] == 4, MAT@[100] == 3, MAT@[112] == 1, MAT@[124] == 1, MAT@[136] == 2,
    ;
    assert(product_entry(INV_MAT@, MAT@, 12, 4, 5) == (INV_MAT@[48] as int) * (MAT@[5] as int) + (INV_MAT@[49] as int) * (MAT@[17] as int) + (INV_MAT@[50] as int) * (MAT@[29] as int) + (INV_MAT@[51] as int) * (MAT@[41] as int) + (INV_MAT@[52] as int) * (MAT@[53] as int) + (INV_MAT@[53] as int) * (MAT@[65] as int) + (INV_MAT@[54] as int) * (MAT@[77] as int) + (INV_MAT@[55] as int) * (MAT@[89] as int) + (INV_MAT@[56] as int) * (MAT@[101] as int) + (INV_MAT@[57] as int) * (MAT@[113] as int) + (INV_MAT@[58] as int) * (MAT@[125] as int) + (INV_MAT@[59] as int) * (MAT@[137] as int));
    assert(((INV_MAT@[48] as int) * (MAT@[5] as int) + (INV_MAT@[49] as int) * (MAT@[17] as int) + (INV_MAT@[50] as int) * (MAT@[29] as int) + (INV_MAT@[51] as int) * (MAT@[41] as int) + (INV_MAT@[52] as int) * (MAT@[53] as int) + (INV_MAT@[53] as int) * (MAT@[65] as int) + (INV_MAT@[54] as int) * (MAT@[77] as int) + (INV_MAT@[55] as int) * (MAT@[89] as int) + (INV_MAT@[56] as int) * (MAT@[101] as int) + (INV_MAT@[57] as int) * (MAT@[113] as int) + (INV_MAT@[58] as int) * (MAT@[125] as int) + (INV_MAT@[59] as int) * (MAT@[137] as int)) % 340282366920938463463374557953744961537 == 0) by (nonlinear_arith)
        requires
            INV_MAT@[48] == 196877655147114396718095279958952442032, INV_MAT@[49] == 332990601915489782103445103140450426647, INV_MAT@[50] == 94792945070832857679082912572828953571, INV_MAT@[51] == 213891773493161319891264007856639690109, INV_MAT@[52] == 89931768400533736772463276030632596978, INV_MAT@[53] == 21875295016346044079788364439883604670, INV_MAT@[54] == 55903531708439890426125820235258100824, INV_MAT@[55] == 38889413362392967252957092337570852747, INV_MAT@[56] == 196877655147114396718095279958952442032, INV_MAT@[57] == 332990601915489782103445103140450426647, INV_MAT@[58] == 94792945070832857679082912572828953571, INV_MAT@[59] == 213891773493161319891264007856639690109, MAT@[5] == 2, MAT@[17] == 3, MAT@[29] == 1, MAT@[41] == 1, MAT@[53] == 4, MAT@[65] == 6, MAT@[77] == 2, MAT@[89] == 2, MAT@[101] == 2, MAT@[113] == 3, MAT@[125] == 1, MAT@[137] == 1,
    ;
    assert(product_entry(INV_MAT@, MAT@, 12, 4, 6) == (INV_MAT@[48] as int) * (MAT@[6] as int) + (INV_MAT@[49] as int) * (MAT@[18] as int) + (INV_MAT@[50] as int) * (MAT@[30] as int) + (INV_MAT@[51] as int) * (MAT@[42] as int) + (INV_MAT@[52] as int) * (MAT@[54] as int) + (INV_MAT@[53] as int) * (MAT@[66] as int) + (INV_MAT@[54] as int) * (MAT@[78] as int) + (INV_MAT@[55] as int) * (MAT@[90] as int) + (INV_MAT@[56] as int) * (MAT@[102] as int) + (INV_MAT@[57] as int) * (MAT@[114] as int) + (INV_MAT@[58] as int) * (MAT@[126] as int) + (INV_MAT@[59] as int) * (MAT@[138] as int));
    assert(((INV_MAT@[48] as int) * (MAT@[6] as int) + (INV_MAT@[49] as int) * (MAT@[18] as int) + (INV_MAT@[50] as int) * (MAT@[30] as int) + (INV_MAT@[51] as int) * (MAT@[42] as int) + (INV_MAT@[52] as int) * (MAT@[54] as int) + (INV_MAT@[53] as int) * (MAT@[66] as int) + (INV_MAT@[54] as int) * (MAT@[78] as int) + (INV_MAT@[55] as int) * (MAT@[90] as int) + (INV_MAT@[56] as int) * (MAT@[102] as int) + (INV_MAT@[57] as int) * (MAT@[114] as int) + (INV_MAT@[58] as int) * (MAT@[126] as int) + (INV_MAT@[59] as int) * (MAT@[138] as int)) % 340282366920938463463374557953744961537 == 0) by (nonlinear_arith)
        requires
            INV_MAT@[48] == 196877655147114396718095279958952442032, INV_MAT@[49] == 332990601915489782103445103140450426647, INV_MAT@[50] == 94792945070832857679082912572828953571, INV_MAT@[51] == 213891773493161319891264007856639690109, INV_MAT@[52] == 89931768400533736772463276030632596978, INV_MAT@[53] == 21875295016346044079788364439883604670, INV_MAT@[54] == 55903531708439890426125820235258100824, INV_MAT@[55] == 38889413362392967252957092337570852747, INV_MAT@[56] == 196877655147114396718095279958952442032, INV_MAT@[57] == 332990601915489782103445103140450426647, INV_MAT@[58] == 94792945070832857679082912572828953571, INV_MAT@[59] == 213891773493161319891264007856639690109, MAT@[6] == 1, MAT@[18] == 2, MAT@[30] == 3, MAT@[42] == 1, MAT@[54] == 2, MAT@[66] == 4, MAT@[78] == 6, MAT@[90] == 2, MAT@[102] == 1, MAT@[114] == 2, MAT@[126] == 3, MAT@[138] == 1,
    ;
    assert(product_entry(INV_MAT@, MAT@, 12, 4, 7) == (INV_MAT@[48] as int) * (MAT@[7] as int) + (INV_MAT@[49] as int) * (MAT@[19] as int) + (INV_MAT@[50] as int) * (MAT@[31] as int) + (INV_MAT@[51] as int) * (MAT@[43] as int) + (INV_MAT@[52] as int) * (MAT@[55] as int) + (INV_MAT@[53] as int) * (MAT@[67] as int) + (INV_MAT@[54] as int) * (MAT@[79] as int) + (INV_MAT@[55] as int) * (MAT@[91] as int) + (INV_MAT@[56] as int) * (MAT@[103] as int) + (INV_MAT@[57] as int) * (MAT@[115] as int) + (INV_MAT@[58] as int) * (MAT@[127] as int) + (INV_MAT@[59] as int) * (MAT@[139] as int));
    assert(((INV_MAT@[48] as int) * (MAT@[7] as int) + (INV_MAT@[49] as int) * (MAT@[19] as int) + (INV_MAT@[50] as int) * (MAT@[31] as int) + (INV_MAT@[51] as int) * (MAT@[43] as int) + (INV_MAT@[52] as int) * (MAT@[55] as int) + (INV_MAT@[53] as int) * (MAT@[67] as int) + (INV_MAT@[54] as int) * (MAT@[79] as int) + (INV_MAT@[55] as int) * (MAT@[91] as int) + (INV_MAT@[56] as int) * (MAT@[103] as int) + (INV_MAT@[57] as int) * (MAT@[115] as int) + (INV_MAT@[58] as int) * (MAT@[127] as int) + (INV_MAT@[59] as int) * (MAT@[139] as int)) % 340282366920938463463374557953744961537 == 0) by (nonlinear_arith)
        requires
            INV_MAT@[48] == 196877655147114396718095279958952442032, INV_MAT@[49] == 332990601915489782103445103140450426647, INV_MAT@[50] == 94792945070832857679082912572828953571, INV_MAT@[51] == 213891773493161319891264007856639690109, INV_MAT@[52] == 89931768400533736772463276030632596978, INV_MAT@[53] == 21875295016346044079788364439883604670, INV_MAT@[54] == 55903531708439890426125820235258100824, INV_MAT@[55] == 38889413362392967252957092337570852747, INV_MAT@[56] == 196877655147114396718095279958952442032, INV_MAT@[57] == 332990601915489782103445103140450426647, INV_MAT@[58] == 94792945070832857679082912572828953571, INV_MAT@[59] == 213891773493161319891264007856639690109, MAT@[7] == 1, MAT@[19] == 1, MAT@[31] == 2, MAT@[43] == 3, MAT@[55] == 2, MAT@[67] == 2, MAT@[79] == 4, MAT@[91] == 6, MAT@[103] == 1, MAT@[115] == 1, MAT@[127] == 2, MAT@[139] == 3,
    ;
    assert(product_entry(INV_MAT@, MAT@, 12, 4, 8) == (INV_MAT@[48] as int) * (MAT@[8] as int) + (INV_MAT@[49] as int) * (MAT@[20] as int) + (INV_MAT@[50] as int) * (MAT@[32] as int) + (INV_MAT@[51] as int) * (MAT@[44] as int) + (INV_MAT@[52] as int) * (MAT@[56] as int) + (INV_MAT@[53] as int) * (MAT@[68] as int) + (INV_MAT@[54] as int) * (MAT@[80] as int) + (INV_MAT@[55] as int) * (MAT@[92] as int) + (INV_MAT@[56] as int) * (MAT@[104] as int) + (INV_MAT@[57] as int) * (MAT@[116] as int) + (INV_MAT@[58] as int) * (MAT@[128] as int) + (INV_MAT@[59] as int) * (MAT@[140] as int));
    assert(((INV_MAT@[48] as int) * (MAT@[8] as int) + (INV_MAT@[49] as int) * (MAT@[20] as int) + (INV_MAT@[50] as int) * (MAT@[32] as int) + (INV_MAT@[51] as int) * (MAT@[44] as int) + (INV_MAT@[52] as int) * (MAT@[56] as int) + (INV_MAT@[53] as int) * (MAT@[68] as int) + (INV_MAT@[54] as int) * (MAT@[80] as int) + (INV_MAT@[55] as int) * (MAT@[92] as int) + (INV_MAT@[56] as int) * (MAT@[104] as int) + (INV_MAT@[57] as int) * (MAT@[116] as int) + (INV_MAT@[58] as int) * (MAT@[128] as int) + (INV_MAT@[59] as int) * (MAT@[140] as int)) % 340282366920938463463374557953744961537 == 0) by (nonlinear_arith)
        requires
            INV_MAT@[48] == 196877655147114396718095279958952442032, INV_MAT@[49] == 332990601915489782103445103140450426647, INV_MAT@[50] == 94792945070832857679082912572828953571, INV_MAT@[51] == 213891773493161319891264007856639690109, INV_MAT@[52] == 89931768400533736772463276030632596978, INV_MAT@[53] == 21875295016346044079788364439883604670, INV_MAT@[54] == 55903531708439890426125820235258100824, INV_MAT@[55] == 38889413362392967252957092337570852747, INV_MAT@[56] == 196877655147114396718095279958952442032, INV_MAT@[57] == 332990601915489782103445103140450426647, INV_MAT@[58] == 94792945070832857679082912572828953571, INV_MAT@[59] == 213891773493161319891264007856639690109, MAT@[8] == 3, MAT@[20] == 1, MAT@[32] == 1, MAT@[44] == 2, MAT@[56] == 3, MAT@[68] == 1, MAT@[80] == 1, MAT@[92] == 2, MAT@[104] == 6, MAT@[116] == 2, MAT@[128] == 2, MAT@[140] == 4,
    ;
    assert(product_entry(INV_MAT@, MAT@, 12, 4, 9) == (INV_MAT@[48] as int) * (MAT@[9] as int) + (INV_MAT@[49] as int) * (MAT@[21] as int) + (INV_MAT@[50] as int) * (MAT@[33] as int) + (INV_MAT@[51] as int) * (MAT@[45] as int) + (INV_MAT@[52] as int) * (MAT@[57] as int) + (INV_MAT@[53] as int) * (MAT@[69] as int) + (INV_MAT@[54] as int) * (MAT@[81] as int) + (INV_MAT@[55] as int) * (MAT@[93] as int) + (INV_MAT@[56] as int) * (MAT@[105] as int) + (INV_MAT@[57] as int) * (MAT@[117] as int) + (INV_MAT@[58] as int) * (MAT@[129] as int) + (INV_MAT@[59] as int) * (MAT@[141] as int));
    assert(((INV_MAT@[48] as int) * (MAT@[9] as int) + (INV_MAT@[49] as int) * (MAT@[21] as int) + (INV_MAT@[50] as int) * (MAT@[33] as int) + (INV_MAT@[51] as int) * (MAT@[45] as int) + (INV_MAT@[52] as int) * (MAT@[57] as int) + (INV_MAT@[53] as int) * (MAT@[69] as int) + (INV_MAT@[54] as int) * (MAT@[81] as int) + (INV_MAT@[55] as int) * (MAT@[93] as int) + (INV_MAT@[56] as int) * (MAT@[105] as int) + (INV_MAT@[57] as int) * (MAT@[117] as int) + (INV_MAT@[58] as int) * (MAT@[129] as int) + (INV_MAT@[59] as int) * (MAT@[141] as int)) % 340282366920938463463374557953744961537 == 0) by (nonlinear_arith)
        requires
            INV_MAT@[48] == 196877655147114396718095279958952442032, INV_MAT@[49] == 332990601915489782103445103140450426647, INV_MAT@[50] == 94792945070832857679082912572828953571, INV_MAT@[51] == 213891773493161319891264007856639690109, INV_MAT@[52] == 89931768400533736772463276030632596978, INV_MAT@[53] == 21875295016346044079788364439883604670, INV_MAT@[54] == 55903531708439890426125820235258100824, INV_MAT@[55] == 38889413362392967252957092337570852747, INV_MAT@[56] == 196877655147114396718095279958952442032, INV_MAT@[57] == 332990601915489782103445103140450426647, INV_MAT@[58] == 94792945070832857679082912572828953571, INV_MAT@[59] == 213891773493161319891264007856639690109, MAT@[9] == 2, MAT@[21] == 3, MAT@[33] == 1, MAT@[45] == 1, MAT@[57] == 2, MAT@[69] == 3, MAT@[81] == 1, MAT@[93] == 1, MAT@[105] == 4, MAT@[117] == 6, MAT@[129] == 2, MAT@[141] == 2,
    ;
    assert(product_entry(INV_MAT@, MAT@, 12, 4, 10) == (INV_MAT@[48] as int) * (MAT@[10] as int) + (INV_MAT@[49] as int) * (MAT@[22] as int) + (INV_MAT@[50] as int) * (MAT@[34] as int) + (INV_MAT@[51] as int) * (MAT@[46] as int) + (INV_MAT@[52] as int) * (MAT@[58] as int) + (INV_MAT@[53] as int) * (MAT@[70] as int) + (INV_MAT@[54] as int) * (MAT@[82] as int) + (INV_MAT@[55] as int) * (MAT@[94] as int) + (INV_MAT@[56] as int) * (MAT@[106] as int) + (INV_MAT@[57] as int) * (MAT@[118] as int) + (INV_MAT@[58] as int) * (MAT@[130] as int) + (INV_MAT@[59] as int) * (MAT@[142] as int));
    assert(((INV_MAT@[48] as int) * (MAT@[10] as int) + (INV_MAT@[49] as int) * (MAT@[22] as int) + (INV_MAT@[50] as int) * (MAT@[34] as int) + (INV_MAT@[51] as int) * (MAT@[46] as int) + (INV_MAT@[52] as int) * (MAT@[58] as int) + (INV_MAT@[53] as int) * (MAT@[70] as int) + (INV_MAT@[54] as int) * (MAT@[82] as int) + (INV_MAT@[55] as int) * (MAT@[94] as int) + (INV_MAT@[56] as int) * (MAT@[106] as int) + (INV_MAT@[57] as int) * (MAT@[118] as int) + (INV_MAT@[58] as int) * (MAT@[130] as int) + (INV_MAT@[59] as int) * (MAT@[142] as int)) % 340282366920938463463374557953744961537 == 0) by (nonlinear_arith)
        requires
            INV_MAT@[48] == 196877655147114396718095279958952442032, INV_MAT@[49] == 332990601915489782103445103140450426647, INV_MAT@[50] == 94792945070832857679082912572828953571, INV_MAT@[51] == 213891773493161319891264007856639690109, INV_MAT@[52] == 89931768400533736772463276030632596978, INV_MAT@[53] == 21875295016346044079788364439883604670, INV_MAT@[54] == 55903531708439890426125820235258100824, INV_MAT@[55] == 38889413362392967252957092337570852747, INV_MAT@[56] == 196877655147114396718095279958952442032, INV_MAT@[57] == 332990601915489782103445103140450426647, INV_MAT@[58] == 94792945070832857679082912572828953571, INV_MAT@[59] == 213891773493161319891264007856639690109, MAT@[10] == 1, MAT@[22] == 2, MAT@[34] == 3, MAT@[46] == 1, MAT@[58] == 1, MAT@[70] == 2, MAT@[82] == 3, MAT@[94] == 1, MAT@[106] == 2, MAT@[118] == 4, MAT@[130] == 6, MAT@[142] == 2,
    ;
    assert(product_entry(INV_MAT@, MAT@, 12, 4, 11) == (INV_MAT@[48] as int) * (MAT@[11] as int) + (INV_MAT@[49] as int) * (MAT@[23] as int) + (INV_MAT@[50] as int) * (MAT@[35] as int) + (INV_MAT@[51] as int) * (MAT@[47] as int) + (INV_MAT@[52] as int) * (MAT@[59] as int) + (INV_MAT@[53] as int) * (MAT@[71] as int) + (INV_MAT@[54] as int) * (MAT@[83] as int) + (INV_MAT@[55] as int) * (MAT@[95] as int) + (INV_MAT@[56] as int) * (MAT@[107] as int) + (INV_MAT@[57] as int) * (MAT@[119] as int) + (INV_MAT@[58] as int) * (MAT@[131] as int) + (INV_MAT@[59] as int) * (MAT@[143] as int));
    assert(((INV_MAT@[48] as int) * (MAT@[11] as int) + (INV_MAT@[49] as int) * (MAT@[23] as int) + (INV_MAT@[50] as int) * (MAT@[35] as int) + (INV_MAT@[51] as int) * (MAT@[47] as int) + (INV_MAT@[52] as int) * (MAT@[59] as int) + (INV_MAT@[53] as int) * (MAT@[71] as int) + (INV_MAT@[54] as int) * (MAT@[83] as int) + (INV_MAT@[55] as int) * (MAT@[95] as int) + (INV_MAT@[56] as int) * (MAT@[107] as int) + (INV_MAT@[57] as int) * (MAT@[119] as int) + (INV_MAT@[58] as int) * (MAT@[131] as int) + (INV_MAT@[59] as int) * (MAT@[143] as int)) % 340282366920938463463374557953744961537 == 0) by (nonlinear_arith)
        requires
            INV_MAT@[48] == 196877655147114396718095279958952442032, INV_MAT@[49] == 332990601915489782103445103140450426647, INV_MAT@[50] == 94792945070832857679082912572828953571, INV_MAT@[51] == 213891773493161319891264007856639690109, INV_MAT@[52] == 89931768400533736772463276030632596978, INV_MAT@[53] == 21875295016346044079788364439883604670, INV_MAT@[54] == 55903531708439890426125820235258100824, INV_MAT@[55] == 38889413362392967252957092337570852747, INV_MAT@[56] == 196877655147114396718095279958952442032, INV_MAT@[57] == 332990601915489782103445103140450426647, INV_MAT@[58] == 94792945070832857679082912572828953571, INV_MAT@[59] == 213891773493161319891264007856639690109, MAT@[11] == 1, MAT@[23] == 1, MAT@[35] == 2, MAT@[47] == 3, MAT@[59] == 1, MAT@[71] == 1, MAT@[83] == 2, MAT@[95] == 3, MAT@[107] == 2, MAT@[119] == 2, MAT@[131] == 4, MAT@[143] == 6,
    ;
}

proof fn lemma_product_backward_row_5()
    ensures
        identity_row(Elem::modulus(), INV_MAT@, MAT@, 12, 5, 12),
{
    reveal_with_fuel(sum, 13);
    reveal_with_fuel(identity_row, 13);
    assert(product_entry(INV_MAT@, MAT@, 12, 5, 0) == (INV_MAT@[60] as int) * (MAT@[0] as int) + (INV_MAT@[61] as int) * (MAT@[12] as int) + (INV_MAT@[62] as int) * (MAT@[24] as int) + (INV_MAT@[63] as int) * (MAT@[36] as int) + (INV_MAT@[64] as int) * (MAT@[48] as int) + (INV_MAT@[65] as int) * (MAT@[60] as int) + (INV_MAT@[66] as int) * (MAT@[72] as int) + (INV_MAT@[67] as int) * (MAT@[84] as int) + (INV_MAT@[68] as int) * (MAT@[96] as int) + (INV_MAT@[69] as int) * (MAT@[108] as int) + (INV_MAT@[70] as int) * (MAT@[120] as int) + (INV_MAT@[71] as int) * (MAT@[132] as int));
    assert(((INV_MAT@[60] as int) * (MAT@[0] as int) + (INV_MAT@[61] as int) * (MAT@[12] as int) + (INV_MAT@[62] as int) * (MAT@[24] as int) + (INV_MAT@[63] as int) * (MAT@[36] as int) + (INV_MAT@[64] as int) * (MAT@[48] as int) + (INV_MAT@[65] as int) * (MAT@[60] as int) + (INV_MAT@[66] as int) * (MAT@[72] as int) + (INV_MAT@[67] as int) * (MAT@[84] as int) + (INV_MAT@[68] as int) * (MAT@[96] as int) + (INV_MAT@[69] as int) * (MAT@[108] as int) + (INV_MAT@[70] as int) * (MAT@[120] as int) + (INV_MAT@[71] as int) * (MAT@[132] as int)) % 340282366920938463463374557953744961537 == 0) by (nonlinear_arith)
        requires
            INV_MAT@[60] == 213891773493161319891264007856639690109, INV_MAT@[61] == 196877655147114396718095279958952442032, INV_MAT@[62] == 332990601915489782103445103140450426647, INV_MAT@[63] == 94792945070832857679082912572828953571, INV_MAT@[64] == 38889413362392967252957092337570852747, INV_MAT@[65] == 89931768400533736772463276030632596978, INV_MAT@[66] == 21875295016346044079788364439883604670, INV_MAT@[67] == 55903531708439890426125820235258100824, INV_MAT@[68] == 213891773493161319891264007856639690109, INV_MAT@[69] == 196877655147114396718095279958952442032, INV_MAT@[70] == 332990601915489782103445103140450426647, INV_MAT@[71] == 94792945070832857679082912572828953571, MAT@[0] == 6, MAT@[12] == 2, MAT@[24] == 2, MAT@[36] == 4, MAT@[48] == 3, MAT@[60] == 1, MAT@[72] == 1, MAT@[84] == 2, MAT@[96] == 3, MAT@[108] == 1, MAT@[120] == 1, MAT@[132] == 2,
    ;
    assert(product_entry(INV_MAT@, MAT@, 12, 5, 1) == (INV_MAT@[60] as int) * (MAT@[1] as int) + (INV_MAT@[61] as int) * (MAT@[13] as int) + (INV_MAT@[62] as int) * (MAT@[25] as int) + (INV_MAT@[63] as int) * (MAT@[37] as int) + (INV_MAT@[64] as int) * (MAT@[49] as int) + (INV_MAT@[65] as int) * (MAT@[61] as int) + (INV_MAT@[66] as int) * (MAT@[73] as int) + (INV_MAT@[67] as int) * (MAT@[85] as int) + (INV_MAT@[68] as int) * (MAT@[97] as int) + (INV_MAT@[69] as int) * (MAT@[109] as int) + (INV_MAT@[70] as int) * (MAT@[121] as int) + (INV_MAT@[71] as int) * (MAT@[133] as int));
    assert(((INV_MAT@[60] as int) * (MAT@[1] as int) + (INV_MAT@[61] as int) * (MAT@[13] as int) + (INV_MAT@[62] as int) * (MAT@[25] as int) + (INV_MAT@[63] as int) * (MAT@[37] as int) + (INV_MAT@[64] as int) * (MAT@[49] as int) + (INV_MAT@[65] as int) * (MAT@[61] as int) + (INV_MAT@[66] as int) * (MAT@[73] as int) + (INV_MAT@[67] as int) * (MAT@[85] as int) + (INV_MAT@[68] as int) * (MAT@[97] as int) + (INV_MAT@[69] as int) * (MAT@[109] as int) + (INV_MAT@[70] as int) * (MAT@[121] as int) + (INV_MAT@[71] as int) * (MAT@[133] as int)) % 340282366920938463463374557953744961537 == 0) by (nonlinear_arith)
        requires
            INV_MAT@[60] == 213891773493161319891264007856639690109, INV_MAT@[61] == 196877655147114396718095279958952442032, INV_MAT@[62] == 332990601915489782103445103140450426647, INV_MAT@[63] == 94792945070832857679082912572828953571, INV_MAT@[64] == 38889413362392967252957092337570852747, INV_MAT@[65] == 89931768400533736772463276030632596978, INV_MAT@[66] == 21875295016346044079788364439883604670, INV_MAT@[67] == 55903531708439890426125820235258100824, INV_MAT@[68] == 213891773493161319891264007856639690109, INV_MAT@[69] == 196877655147114396718095279958952442032, INV_MAT@[70] == 332990601915489782103445103140450426647, INV_MAT@[71] == 94792945070832857679082912572828953571, MAT@[1] == 4, MAT@[13] == 6, MAT@[25] == 2, MAT@[37] == 2, MAT@[49] == 2, MAT@[61] == 3, MAT@[73] == 1, MAT@[85] == 1, MAT@[97] == 2, MAT@[109] == 3, MAT@[121] == 1, MAT@[133] == 1,
    ;
    assert(product_entry(INV_MAT@, MAT@, 12, 5, 2) == (INV_MAT@[60] as int) * (MAT@[2] as int) + (INV_MAT@[61] as int) * (MAT@[14] as int) + (INV_MAT@[62] as int) * (MAT@[26] as int) + (INV_MAT@[63] as int) * (MAT@[38] as int) + (INV_MAT@[64] as int) * (MAT@[50] as int) + (INV_MAT@[65] as int) * (MAT@[62] as int) + (INV_MAT@[66] as int) * (MAT@[74] as int) + (INV_MAT@[67] as int) * (MAT@[86] as int) + (INV_MAT@[68] as int) * (MAT@[98] as int) + (INV_MAT@[69] as int) * (MAT@[110] as int) + (INV_MAT@[70] as int) * (MAT@[122] as int) + (INV_MAT@[71] as int) * (MAT@[134] as int));
    assert(((INV_MAT@[60] as int) * (MAT@[2] as int) + (INV_MAT@[61] as int) * (MAT@[14] as int) + (INV_MAT@[62] as int) * (MAT@[26] as int) + (INV_MAT@[63] as int) * (MAT@[38] as int) + (INV_MAT@[64] as int) * (MAT@[50] as int) + (INV_MAT@[65] as int) * (MAT@[62] as int) + (INV_MAT@[66] as int) * (MAT@[74] as int) + (INV_MAT@[67] as int) * (MAT@[86] as int) + (INV_MAT@[68] as int) * (MAT@[98] as int) + (INV_MAT@[69] as int) * (MAT@[110] as int) + (INV_MAT@[70] as int) * (MAT@[122] as int) + (INV_MAT@[71] as int) * (MAT@[134] as int)) % 340282366920938463463374557953744961537 == 0) by (nonlinear_arith)
        requires
            INV_MAT@[60] == 213891773493161319891264007856639690109, INV_MAT@[61] == 196877655147114396718095279958952442032, INV_MAT@[62] == 332990601915489782103445103140450426647, INV_MAT@[63] == 94792945070832857679082912572828953571, INV_MAT@[64] == 38889413362392967252957092337570852747, INV_MAT@[65] == 89931768400533736772463276030632596978, INV_MAT@[66] == 21875295016346044079788364439883604670, INV_MAT@[67] == 55903531708439890426125820235258100824, INV_MAT@[68] == 213891773493161319891264007856639690109, INV_MAT@[69] == 196877655147114396718095279958952442032, INV_MAT@[70] == 332990601915489782103445103140450426647, INV_MAT@[71] == 94792945070832857679082912572828953571, MAT@[2] == 2, MAT@[14] == 4, MAT@[26] == 6, MAT@[38] == 2, MAT@[50] == 1, MAT@[62] == 2, MAT@[74] == 3, MAT@[86] == 1, MAT@[98] == 1, MAT@[110] == 2, MAT@[122] == 3, MAT@[134] == 1,
    ;
    assert(product_entry(INV_MAT@, MAT@, 12, 5, 3) == (INV_MAT@[60] as int) * (MAT@[3] as int) + (INV_MAT@[61] as int) * (MAT@[15] as int) + (INV_MAT@[62] as int) * (MAT@[27] as int) + (INV_MAT@[63] as int) * (MAT@[39] as int) + (INV_MAT@[64] as int) * (MAT@[51] as int) + (INV_MAT@[65] as int) * (MAT@[63] as int) + (INV_MAT@[66] as int) * (MAT@[75] as int) + (INV_MAT@[67] as int) * (MAT@[87] as int) + (INV_MAT@[68] as int) * (MAT@[99] as int) + (INV_MAT@[69] as int) * (MAT@[111] as int) + (INV_MAT@[70] as int) * (MAT@[123] as int) + (INV_MAT@[71] as int) * (MAT@[135] as int));
    assert(((INV_MAT@[60] as int) * (MAT@[3] as int) + (INV_MAT@[61] as int) * (MAT@[15] as int) + (INV_MAT@[62] as int) * (MAT@[27] as int) + (INV_MAT@[63] as int) * (MAT@[39] as int) + (INV_MAT@[64] as int) * (MAT@[51] as int) + (INV_MAT@[65] as int) * (MAT@[63] as int) + (INV_MAT@[66] as int) * (MAT@[75] as int) + (INV_MAT@[67] as int) * (MAT@[87] as int) + (INV_MAT@[68] as int) * (MAT@[99] as int) + (INV_MAT@[69] as int) * (MAT@[111] as int) + (INV_MAT@[70] as int) * (MAT@[123] as int) + (INV_MAT@[71] as int) * (MAT@[135] as int)) % 340282366920938463463374557953744961537 == 0) by (nonlinear_arith)
        requires
            INV_MAT@[60] == 213891773493161319891264007856639690109, INV_MAT@[61] == 196877655147114396718095279958952442032, INV_MAT@[62] == 332990601915489782103445103140450426647, INV_MAT@[63] == 94792945070832857679082912572828953571, INV_MAT@[64] == 38889413362392967252957092337570852747, INV_MAT@[65] == 89931768400533736772463276030632596978, INV_MAT@[66] == 21875295016346044079788364439883604670, INV_MAT@[67] == 55903531708439890426125820235258100824, INV_MAT@[68] == 213891773493161319891264007856639690109, INV_MAT@[69] == 196877655147114396718095279958952442032, INV_MAT@[70] == 332990601915489782103445103140450426647, INV_MAT@[71] == 94792945070832857679082912572828953571, MAT@[3] == 2, MAT@[15] == 2, MAT@[27] == 4, MAT@[39] == 6, MAT@[51] == 1, MAT@[63] == 1, MAT@[75] == 2, MAT@[87] == 3, MAT@[99] == 1, MAT@[111] == 1, MAT@[123] == 2, MAT@[135] == 3,
    ;
    assert(product_entry(INV_MAT@, MAT@, 12, 5, 4) == (INV_MAT@[60] as int) * (MAT@[4] as int) + (INV_MAT@[61] as int) * (MAT@[16] as int) + (INV_MAT@[62] as int) * (MAT@[28] as int) + (INV_MAT@[63] as int) * (MAT@[40] as int) + (INV_MAT@[64] as int) * (MAT@[52] as int) + (INV_MAT@[65] as int) * (MAT@[64] as int) + (INV_MAT@[66] as int) * (MAT@[76] as int) + (INV_MAT@[67] as int) * (MAT@[88] as int) + (INV_MAT@[68] as int) * (MAT@[100] as int) + (INV_MAT@[69] as int) * (MAT@[112] as int) + (INV_MAT@[70] as int) * (MAT@[124] as int) + (INV_MAT@[71] as int) * (MAT@[136] as int));
    assert(((INV_MAT@[60] as int) * (MAT@[4] as int) + (INV_MAT@[61] as int) * (MAT@[16] as int) + (INV_MAT@[62] as int) * (MAT@[28] as int) + (INV_MAT@[63] as int) * (MAT@[40] as int) + (INV_MAT@[64] as int) * (MAT@[52] as int) + (INV_MAT@[65] as int) * (MAT@[64] as int) + (INV_MAT@[66] as int) * (MAT@[76] as int) + (INV_MAT@[67] as int) * (MAT@[88] as int) + (INV_MAT@[68] as int) * (MAT@[100] as int) + (INV_MAT@[69] as int) * (MAT@[112] as int) + (INV_MAT@[70] as int) * (MAT@[124] as int) + (INV_MAT@[71] as int) * (MAT@[136] as int)) % 340282366920938463463374557953744961537 == 0) by (nonlinear_arith)
        requires
            INV_MAT@[60] == 213891773493161319891264007856639690109, INV_MAT@[61] == 196877655147114396718095279958952442032, INV_MAT@[62] == 332990601915489782103445103140450426647, INV_MAT@[63] == 94792945070832857679082912572828953571, INV_MAT@[64] == 38889413362392967252957092337570852747, INV_MAT@[65] == 89931768400533736772463276030632596978, INV_MAT@[66] == 21875295016346044079788364439883604670, INV_MAT@[67] == 55903531708439890426125820235258100824, INV_MAT@[68] == 213891773493161319891264007856639690109, INV_MAT@[69] == 196877655147114396718095279958952442032, INV_MAT@[70] == 332990601915489782103445103140450426647, INV_MAT@[71] == 94792945070832857679082912572828953571, MAT@[4] == 3, MAT@[16] == 1, MAT@[28] == 1, MAT@[40] == 2, MAT@[52] == 6, MAT@[64] == 2, MAT@[76] == 2, MAT@[88] == 4, MAT@[100] == 3, MAT@[112] == 1, MAT@[124] == 1, MAT@[136] == 2,
    ;
    assert(product_entry(INV_MAT@, MAT@, 12, 5, 5) == (INV_MAT@[60] as int) * (MAT@[5] as int) + (INV_MAT@[61] as int) * (MAT@[17] as int) + (INV_MAT@[62] as int) * (MAT@[29] as int) + (INV_MAT@[63] as int) * (MAT@[41] as int) + (INV_MAT@[64] as int) * (MAT@[53] as int) + (INV_MAT@[65] as int) * (MAT@[65] as int) + (INV_MAT@[66] as int) * (MAT@[77] as int) + (INV_MAT@[67] as int) * (MAT@[89] as int) + (INV_MAT@[68] as int) * (MAT@[101] as int) + (INV_MAT@[69] as int) * (MAT@[113] as int) + (INV_MAT@[70] as int) * (MAT@[125] as int) + (INV_MAT@[71] as int) * (MAT@[137] as int));
    assert(((INV_MAT@[60] as int) * (MAT@[5] as int) + (INV_MAT@[61] as int) * (MAT@[17] as int) + (INV_MAT@[62] as int) * (MAT@[29] as int) + (INV_MAT@[63] as int) * (MAT@[41] as int) + (INV_MAT@[64] as int) * (MAT@[53] as int) + (INV_MAT@[65] as int) * (MAT@[65] as int) + (INV_MAT@[66] as int) * (MAT@[77] as int) + (INV_MAT@[67] as int) * (MAT@[89] as int) + (INV_MAT@[68] as int) * (MAT@[101] as int) + (INV_MAT@[69] as int) * (MAT@[113] as int) + (INV_MAT@[70] as int) * (MAT@[125] as int) + (INV_MAT@[71] as int) * (MAT@[137] as int)) % 340282366920938463463374557953744961537 == 1) by (nonlinear_arith)
        requires
            INV_MAT@[60] == 213891773493161319891264007856639690109, INV_MAT@[61] == 196877655147114396718095279958952442032, INV_MAT@[62] == 332990601915489782103445103140450426647, INV_MAT@[63] == 94792945070832857679082912572828953571, INV_MAT@[64] == 38889413362392967252957092337570852747, INV_MAT@[65] == 89931768400533736772463276030632596978, INV_MAT@[66] == 21875295016346044079788364439883604670, INV_MAT@[67] == 55903531708439890426125820235258100824, INV_MAT@[68] == 213891773493161319891264007856639690109, INV_MAT@[69] == 196877655147114396718095279958952442032, INV_MAT@[70] == 332990601915489782103445103140450426647, INV_MAT@[71] == 94792945070832857679082912572828953571, MAT@[5] == 2, MAT@[17] == 3, MAT@[29] == 1, MAT@[41] == 1, MAT@[53] == 4, MAT@[65] == 6, MAT@[77] == 2, MAT@[89] == 2, MAT@[101] == 2, MAT@[113] == 3, MAT@[125] == 1, MAT@[137] == 1,
    ;
    assert(product_entry(INV_MAT@, MAT@, 12, 5, 6) == (INV_MAT@[60] as int) * (MAT@[6] as int) + (INV_MAT@[61] as int) * (MAT@[18] as int) + (INV_MAT@[62] as int) * (MAT@[30] as int) + (INV_MAT@[63] as int) * (MAT@[42] as int) + (INV_MAT@[64] as int) * (MAT@[54] as int) + (INV_MAT@[65] as int) * (MAT@[66] as int) + (INV_MAT@[66] as int) * (MAT@[78] as int) + (INV_MAT@[67] as int) * (MAT@[90] as int) + (INV_MAT@[68] as int) * (MAT@[102] as int) + (INV_MAT@[69] as int) * (MAT@[114] as int) + (INV_MAT@[70] as int) * (MAT@[126] as int) + (INV_MAT@[71] as int) * (MAT@[138] as int));
    assert(((INV_MAT@[60] as int) * (MAT@[6] as int) + (INV_MAT@[61] as int) * (MAT@[18] as int) + (INV_MAT@[62] as int) * (MAT@[30] as int) + (INV_MAT@[63] as int) * (MAT@[42] as int) + (INV_MAT@[64] as int) * (MAT@[54] as int) + (INV_MAT@[65] as int) * (MAT@[66] as int) + (INV_MAT@[66] as int) * (MAT@[78] as int) + (INV_MAT@[67] as int) * (MAT@[90] as int) + (INV_MAT@[68] as int) * (MAT@[102] as int) + (INV_MAT@[69] as int) * (MAT@[114] as int) + (INV_MAT@[70] as int) * (MAT@[126] as int) + (INV_MAT@[71] as int) * (MAT@[138] as int)) % 340282366920938463463374557953744961537 == 0) by (nonlinear_arith)
        requires
            INV_MAT@[60] == 213891773493161319891264007856639690109, INV_MAT@[61] == 196877655147114396718095279958952442032, INV_MAT@[62] == 332990601915489782103445103140450426647, INV_MAT@[63] == 94792945070832857679082912572828953571, INV_MAT@[64] == 38889413362392967252957092337570852747, INV_MAT@[65] == 89931768400533736772463276030632596978, INV_MAT@[66] == 21875295016346044079788364439883604670, INV_MAT@[67] == 55903531708439890426125820235258100824, INV_MAT@[68] == 213891773493161319891264007856639690109, INV_MAT@[69] == 196877655147114396718095279958952442032, INV_MAT@[70] == 332990601915489782103445103140450426647, INV_MAT@[71] == 94792945070832857679082912572828953571, MAT@[6] == 1, MAT@[18] == 2, MAT@[30] == 3, MAT@[42] == 1, MAT@[54] == 2, MAT@[66] == 4, MAT@[78] == 6, MAT@[90] == 2, MAT@[102] == 1, MAT@[114] == 2, MAT@[126] == 3, MAT@[138] == 1,
    ;
    assert(product_entry(INV_MAT@, MAT@, 12, 5, 7) == (INV_MAT@[60] as int) * (MAT@[7] as int) + (INV_MAT@[61] as int) * (MAT@[19] as int) + (INV_MAT@[62] as int) * (MAT@[31] as int) + (INV_MAT@[63] as int) * (MAT@[43] as int) + (INV_MAT@[64] as int) * (MAT@[55] as int) + (INV_MAT@[65] as int) * (MAT@[67] as int) + (INV_MAT@[66] as int) * (MAT@[79] as int) + (INV_MAT@[67] as int) * (MAT@[91] as int) + (INV_MAT@[68] as int) * (MAT@[103] as int) + (INV_MAT@[69] as int) * (MAT@[115] as int) + (INV_MAT@[70] as int) * (MAT@[127] as int) + (INV_MAT@[71] as int) * (MAT@[139] as int));
    assert(((INV_MAT@[60] as int) * (MAT@[7] as int) + (INV_MAT@[61] as int) * (MAT@[19] as int) + (INV_MAT@[62] as int) * (MAT@[31] as int) + (INV_MAT@[63] as int) * (MAT@[43] as int) + (INV_MAT@[64] as int) * (MAT@[55] as int) + (INV_MAT@[65] as int) * (MAT@[67] as int) + (INV_MAT@[66] as int) * (MAT@[79] as int) + (INV_MAT@[67] as int) * (MAT@[91] as int) + (INV_MAT@[68] as int) * (MAT@[103] as int) + (INV_MAT@[69] as int) * (MAT@[115] as int) + (INV_MAT@[70] as int) * (MAT@[127] as int) + (INV_MAT@[71] as int) * (MAT@[139] as int)) % 340282366920938463463374557953744961537 == 0) by (nonlinear_arith)
        requires
            INV_MAT@[60] == 213891773493161319891264007856639690109, INV_MAT@[61] == 196877655147114396718095279958952442032, INV_MAT@[62] == 332990601915489782103445103140450426647, INV_MAT@[63] == 94792945070832857679082912572828953571, INV_MAT@[64] == 38889413362392967252957092337570852747, INV_MAT@[65] == 89931768400533736772463276030632596978, INV_MAT@[66] == 21875295016346044079788364439883604670, INV_MAT@[67] == 55903531708439890426125820235258100824, INV_MAT@[68] == 213891773493161319891264007856639690109, INV_MAT@[69] == 196877655147114396718095279958952442032, INV_MAT@[70] == 332990601915489782103445103140450426647, INV_MAT@[71] == 94792945070832857679082912572828953571, MAT@[7] == 1, MAT@[19] == 1, MAT@[31] == 2, MAT@[43] == 3, MAT@[55] == 2, MAT@[67] == 2, MAT@[79] == 4, MAT@[91] == 6, MAT@[103] == 1, MAT@[115] == 1, MAT@[127] == 2, MAT@[139] == 3,
    ;
    assert(product_entry(INV_MAT@, MAT@, 12, 5, 8) == (INV_MAT@[60] as int) * (MAT@[8] as int) + (INV_MAT@[61] as int) * (MAT@[20] as int) + (INV_MAT@[62] as int) * (MAT@[32] as int) + (INV_MAT@[63] as int) * (MAT@[44] as int) + (INV_MAT@[64] as int) * (MAT@[56] as int) + (INV_MAT@[65] as int) * (MAT@[68] as int) + (INV_MAT@[66] as int) * (MAT@[80] as int) + (INV_MAT@[67] as int) * (MAT@[92] as int) + (INV_MAT@[68] as int) * (MAT@[104] as int) + (INV_MAT@[69] as int) * (MAT@[116] as int) + (INV_MAT@[70] as int) * (MAT@[128] as int) + (INV_MAT@[71] as int) * (MAT@[140] as int));
    assert(((INV_MAT@[60] as int) * (MAT@[8] as int) + (INV_MAT@[61] as int) * (MAT@[20] as int) + (INV_MAT@[62] as int) * (MAT@[32] as int) + (INV_MAT@[63] as int) * (MAT@[44] as int) + (INV_MAT@[64] as int) * (MAT@[56] as int) + (INV_MAT@[65] as int) * (MAT@[68] as int) + (INV_MAT@[66] as int) * (MAT@[80] as int) + (INV_MAT@[67] as int) * (MAT@[92] as int) + (INV_MAT@[68] as int) * (MAT@[104] as int) + (INV_MAT@[69] as int) * (MAT@[116] as int) + (INV_MAT@[70] as int) * (MAT@[128] as int) + (INV_MAT@[71] as int) * (MAT@[140] as int)) % 340282366920938463463374557953744961537 == 0) by (nonlinear_arith)
        requires
            INV_MAT@[60] == 213891773493161319891264007856639690109, INV_MAT@[61] == 196877655147114396718095279958952442032, INV_MAT@[62] == 332990601915489782103445103140450426647, INV_MAT@[63] == 94792945070832857679082912572828953571, INV_MAT@[64] == 38889413362392967252957092337570852747, INV_MAT@[65] == 89931768400533736772463276030632596978, INV_MAT@[66] == 21875295016346044079788364439883604670, INV_MAT@[67] == 55903531708439890426125820235258100824, INV_MAT@[68] == 213891773493161319891264007856639690109, INV_MAT@[69] == 196877655147114396718095279958952442032, INV_MAT@[70] == 332990601915489782103445103140450426647, INV_MAT@[71] == 94792945070832857679082912572828953571, MAT@[8] == 3, MAT@[20] == 1, MAT@[32] == 1, MAT@[44] == 2, MAT@[56] == 3, MAT@[68] == 1, MAT@[80] == 1, MAT@[92] == 2, MAT@[104] == 6, MAT@[116] == 2, MAT@[128] == 2, MAT@[140] == 4,
    ;
    assert(product_entry(INV_MAT@, MAT@, 12, 5, 9) == (INV_MAT@[60] as int) * (MAT@[9] as int) + (INV_MAT@[61] as int) * (MAT@[21] as int) + (INV_MAT@[62] as int) * (MAT@[33] as int) + (INV_MAT@[63] as int) * (MAT@[45] as int) + (INV_MAT@[64] as int) * (MAT@[57] as int) + (INV_MAT@[65] as int) * (MAT@[69] as int) + (INV_MAT@[66] as int) * (MAT@[81] as int) + (INV_MAT@[67] as int) * (MAT@[93] as int) + (INV_MAT@[68] as int) * (MAT@[105] as int) + (INV_MAT@[69] as int) * (MAT@[117] as int) + (INV_MAT@[70] as int) * (MAT@[129] as int) + (INV_MAT@[71] as int) * (MAT@[141] as int));
    assert(((INV_MAT@[60] as int) * (MAT@[9] as int) + (INV_MAT@[61] as int) * (MAT@[21] as int) + (INV_MAT@[62] as int) * (MAT@[33] as int) + (INV_MAT@[63] as int) * (MAT@[45] as int) + (INV_MAT@[64] as int) * (MAT@[57] as int) + (INV_MAT@[65] as int) * (MAT@[69] as int) + (INV_MAT@[66] as int) * (MAT@[81] as int) + (INV_MAT@[67] as int) * (MAT@[93] as int) + (INV_MAT@[68] as int) * (MAT@[105] as int) + (INV_MAT@[69] as int) * (MAT@[117] as int) + (INV_MAT@[70] as int) * (MAT@[129] as int) + (INV_MAT@[71] as int) * (MAT@[141] as int)) % 340282366920938463463374557953744961537 == 0) by (nonlinear_arith)
        requires
            INV_MAT@[60] == 213891773493161319891264007856639690109, INV_MAT@[61] == 196877655147114396718095279958952442032, INV_MAT@[62] == 332990601915489782103445103140450426647, INV_MAT@[63] == 94792945070832857679082912572828953571, INV_MAT@[64] == 38889413362392967252957092337570852747, INV_MAT@[65] == 89931768400533736772463276030632596978, INV_MAT@[66] == 21875295016346044079788364439883604670, INV_MAT@[67] == 55903531708439890426125820235258100824, INV_MAT@[68] == 213891773493161319891264007856639690109, INV_MAT@[69] == 196877655147114396718095279958952442032, INV_MAT@[70] == 332990601915489782103445103140450426647, INV_MAT@[71] == 94792945070832857679082912572828953571, MAT@[9] == 2, MAT@[21] == 3, MAT@[33] == 1, MAT@[45] == 1, MAT@[57] == 2, MAT@[69] == 3, MAT@[81] == 1, MAT@[93] == 1, MAT@[105] == 4, MAT@[117] == 6, MAT@[129] == 2, MAT@[141] == 2,
    ;
    assert(product_entry(INV_MAT@, MAT@, 12, 5, 10) == (INV_MAT@[60] as int) * (MAT@[10] as int) + (INV_MAT@[61] as int) * (MAT@[22] as int) + (INV_MAT@[62] as int) * (MAT@[34] as int) + (INV_MAT@[63] as int) * (MAT@[46] as int) + (INV_MAT@[64] as int) * (MAT@[58] as int) + (INV_MAT@[65] as int) * (MAT@[70] as int) + (INV_MAT@[66] as int) * (MAT@[82] as int) + (INV_MAT@[67] as int) * (MAT@[94] as int) + (INV_MAT@[68] as int) * (MAT@[106] as int) + (INV_MAT@[69] as int) * (MAT@[118] as int) + (INV_MAT@[70] as int) * (MAT@[130] as int) + (INV_MAT@[71] as int) * (MAT@[142] as int));
    assert(((INV_MAT@[60] as int) * (MAT@[10] as int) + (INV_MAT@[61] as int) * (MAT@[22] as int) + (INV_MAT@[62] as int) * (MAT@[34] as int) + (INV_MAT@[63] as int) * (MAT@[46] as int) + (INV_MAT@[64] as int) * (MAT@[58] as int) + (INV_MAT@[65] as int) * (MAT@[70] as int) + (INV_MAT@[66] as int) * (MAT@[82] as int) + (INV_MAT@[67] as int) * (MAT@[94] as int) + (INV_MAT@[68] as int) * (MAT@[106] as int) + (INV_MAT@[69] as int) * (MAT@[118] as int) + (INV_MAT@[70] as int) * (MAT@[130] as int) + (INV_MAT@[71] as int) * (MAT@[142] as int)) % 340282366920938463463374557953744961537 == 0) by (nonlinear_arith)
        requires
            INV_MAT@[60] == 213891773493161319891264007856639690109, INV_MAT@[61] == 196877655147114396718095279958952442032, INV_MAT@[62] == 332990601915489782103445103140450426647, INV_MAT@[63] == 94792945070832857679082912572828953571, INV_MAT@[64] == 38889413362392967252957092337570852747, INV_MAT@[65] == 89931768400533736772463276030632596978, INV_MAT@[66] == 21875295016346044079788364439883604670, INV_MAT@[67] == 55903531708439890426125820235258100824, INV_MAT@[68] == 213891773493161319891264007856639690109, INV_MAT@[69] == 196877655147114396718095279958952442032, INV_MAT@[70] == 332990601915489782103445103140450426647, INV_MAT@[71] == 94792945070832857679082912572828953571, MAT@[10] == 1, MAT@[22] == 2, MAT@[34] == 3, MAT@[46] == 1, MAT@[58] == 1, MAT@[70] == 2, MAT@[82] == 3, MAT@[94] == 1, MAT@[106] == 2, MAT@[118] == 4, MAT@[130] == 6, MAT@[142] == 2,
    ;
    assert(product_entry(INV_MAT@, MAT@, 12, 5, 11) == (INV_MAT@[60] as int) * (MAT@[11] as int) + (INV_MAT@[61] as int) * (MAT@[23] as int) + (INV_MAT@[62] as int) * (MAT@[35] as int) + (INV_MAT@[63] as int) * (MAT@[47] as int) + (INV_MAT@[64] as int) * (MAT@[59] as int) + (INV_MAT@[65] as int) * (MAT@[71] as int) + (INV_MAT@[66] as int) * (MAT@[83] as int) + (INV_MAT@[67] as int) * (MAT@[95] as int) + (INV_MAT@[68] as int) * (MAT@[107] as int) + (INV_MAT@[69] as int) * (MAT@[119] as int) + (INV_MAT@[70] as int) * (MAT@[131] as int) + (INV_MAT@[71] as int) * (MAT@[143] as int));
    assert(((INV_MAT@[60] as int) * (MAT@[11] as int) + (INV_MAT@[61] as int) * (MAT@[23] as int) + (INV_MAT@[62] as int) * (MAT@[35] as int) + (INV_MAT@[63] as int) * (MAT@[47] as int) + (INV_MAT@[64] as int) * (MAT@[59] as int) + (INV_MAT@[65] as int) * (MAT@[71] as int) + (INV_MAT@[66] as int) * (MAT@[83] as int) + (INV_MAT@[67] as int) * (MAT@[95] as int) + (INV_MAT@[68] as int) * (MAT@[107] as int) + (INV_MAT@[69] as int) * (MAT@[119] as int) + (INV_MAT@[70] as int) * (MAT@[131] as int) + (INV_MAT@[71] as int) * (MAT@[143] as int)) % 340282366920938463463374557953744961537 == 0) by (nonlinear_arith)
        requires
            INV_MAT@[60] == 213891773493161319891264007856639690109, INV_MAT@[61] == 196877655147114396718095279958952442032, INV_MAT@[62] == 332990601915489782103445103140450426647, INV_MAT@[63] == 94792945070832857679082912572828953571, INV_MAT@[64] == 38889413362392967252957092337570852747, INV_MAT@[65] == 89931768400533736772463276030632596978, INV_MAT@[66] == 21875295016346044079788364439883604670, INV_MAT@[67] == 55903531708439890426125820235258100824, INV_MAT@[68] == 213891773493161319891264007856639690109, INV_MAT@[69] == 196877655147114396718095279958952442032, INV_MAT@[70] == 332990601915489782103445103140450426647, INV_MAT@[71] == 94792945070832857679082912572828953571, MAT@[11] == 1, MAT@[23] == 1, MAT@[35] == 2, MAT@[47] == 3, MAT@[59] == 1, MAT@[71] == 1, MAT@[83] == 2, MAT@[95] == 3, MAT@[107] == 2, MAT@[119] == 2, MAT@[131] == 4, MAT@[143] == 6,
    ;
}

proof fn lemma_product_backward_row_6()
    ensures
        identity_row(Elem::modulus(), INV_MAT@, MAT@, 12, 6, 12),
{
    reveal_with_fuel(sum, 13);
    reveal_with_fuel(identity_row, 13);
    assert(product_entry(INV_MAT@, MAT@, 12, 6, 0) == (INV_MAT@[72] as int) * (MAT@[0] as int) + (INV_MAT@[73] as int) * (MAT@[12] as int) + (INV_MAT@[74] as int) * (MAT@[24] as int) + (INV_MAT@[75] as int) * (MAT@[36] as int) + (INV_MAT@[76] as int) * (MAT@[48] as int) + (INV_MAT@[77] as int) * (MAT@[60] as int) + (INV_MAT@[78] as int) * (MAT@[72] as int) + (INV_MAT@[79] as int) * (MAT@[84] as int) + (INV_MAT@[80] as int) * (MAT@[96] as int) + (INV_MAT@[81] as int) * (MAT@[108] as int) + (INV_MAT@[82] as int) * (MAT@[120] as int) + (INV_MAT@[83] as int) * (MAT@[132] as int));
    assert(((INV_MAT@[72] as int) * (MAT@[0] as int) + (INV_MAT@[73] as int) * (MAT@[12] as int) + (INV_MAT@[74] as int) * (MAT@[24] as int) + (INV_MAT@[75] as int) * (MAT@[36] as int) + (INV_MAT@[76] as int) * (MAT@[48] as int) + (INV_MAT@[77] as int) * (MAT@[60] as int) + (INV_MAT@[78] as int) * (MAT@[72] as int) + (INV_MAT@[79] as int) * (MAT@[84] as int) + (INV_MAT@[80] as int) * (MAT@[96] as int) + (INV_MAT@[81] as int) * (MAT@[108] as int) + (INV_MAT@[82] as int) * (MAT@[120] as int) + (INV_MAT@[83] as int) * (MAT@[132] as int)) % 340282366920938463463374557953744961537 == 0) by (nonlinear_arith)
        requires
            INV_MAT@[72] == 94792945070832857679082912572828953571, INV_MAT@[73] == 213891773493161319891264007856639690109, INV_MAT@[74] == 196877655147114396718095279958952442032, INV_MAT@[75] == 332990601915489782103445103140450426647, INV_MAT@[76] == 55903531708439890426125820235258100824, INV_MAT@[77] == 38889413362392967252957092337570852747, INV_MAT@[78] == 89931768400533736772463276030632596978, INV_MAT@[79] == 21875295016346044079788364439883604670, INV_MAT@[80] == 94792945070832857679082912572828953571, INV_MAT@[81] == 213891773493161319891264007856639690109, INV_MAT@[82] == 196877655147114396718095279958952442032, INV_MAT@[83] == 332990601915489782103445103140450426647, MAT@[0] == 6, MAT@[12] == 2, MAT@[24] == 2, MAT@[36] == 4, MAT@[48] == 3, MAT@[60] == 1, MAT@[72] == 1, MAT@[84] == 2, MAT@[96] == 3, MAT@[108] == 1, MAT@[120] == 1, MAT@[132] == 2,
    ;
    assert(product_entry(INV_MAT@, MAT@, 12, 6, 1) == (INV_MAT@[72] as int) * (MAT@[1] as int) + (INV_MAT@[73] as int) * (MAT@[13] as int) + (INV_MAT@[74] as int) * (MAT@[25] as int) + (INV_MAT@[75] as int) * (MAT@[37] as int) + (INV_MAT@[76] as int) * (MAT@[49] as int) + (INV_MAT@[77] as int) * (MAT@[61] as int) + (INV_MAT@[78] as int) * (MAT@[73] as int) + (INV_MAT@[79] as int) * (MAT@[85] as int) + (INV_MAT@[80] as int) * (MAT@[97] as int) + (INV_MAT@[81] as int) * (MAT@[109] as int) + (INV_MAT@[82] as int) * (MAT@[121] as int) + (INV_MAT@[83] as int) * (MAT@[133] as int));
    assert(((INV_MAT@[72] as int) * (MAT@[1] as int) + (INV_MAT@[73] as int) * (MAT@[13] as int) + (INV_MAT@[74] as int) * (MAT@[25] as int) + (INV_MAT@[75] as int) * (MAT@[37] as int) + (INV_MAT@[76] as int) * (MAT@[49] as int) + (INV_MAT@[77] as int) * (MAT@[61] as int) + (INV_MAT@[78] as int) * (MAT@[73] as int) + (INV_MAT@[79] as int) * (MAT@[85] as int) + (INV_MAT@[80] as int) * (MAT@[97] as int) + (INV_MAT@[81] as int) * (MAT@[109] as int) + (INV_MAT@[82] as int) * (MAT@[121] as int) + (INV_MAT@[83] as int) * (MAT@[133] as int)) % 340282366920938463463374557953744961537 == 0) by (nonlinear_arith)
        requires
            INV_MAT@[72] == 94792945070832857679082912572828953571, INV_MAT@[73] == 213891773493161319891264007856639690109, INV_MAT@[74] == 196877655147114396718095279958952442032, INV_MAT@[75] == 332990601915489782103445103140450426647, INV_MAT@[76] == 55903531708439890426125820235258100824, INV_MAT@[77] == 38889413362392967252957092337570852747, INV_MAT@[78] == 89931768400533736772463276030632596978, INV_MAT@[79] == 21875295016346044079788364439883604670, INV_MAT@[80] == 94792945070832857679082912572828953571, INV_MAT@[81] == 213891773493161319891264007856639690109, INV_MAT@[82] == 196877655147114396718095279958952442032, INV_MAT@[83] == 332990601915489782103445103140450426647, MAT@[1] == 4, MAT@[13] == 6, MAT@[25] == 2, MAT@[37] == 2, MAT@[49] == 2, MAT@[61] == 3, MAT@[73] == 1, MAT@[85] == 1, MAT@[97] == 2, MAT@[109] == 3, MAT@[121] == 1, MAT@[133] == 1,
    ;
    assert(product_entry(INV_MAT@, MAT@, 12, 6, 2) == (INV_MAT@[72] as int) * (MAT@[2] as int) + (INV_MAT@[73] as int) * (MAT@[14] as int) + (INV_MAT@[74] as int) * (MAT@[26] as int) + (INV_MAT@[75] as int) * (MAT@[38] as int) + (INV_MAT@[76] as int) * (MAT@[50] as int) + (INV_MAT@[77] as int) * (MAT@[62] as int) + (INV_MAT@[78] as int) * (MAT@[74] as int) + (INV_MAT@[79] as int) * (MAT@[86] as int) + (INV_MAT@[80] as int) * (MAT@[98] as int) + (INV_MAT@[81] as int) * (MAT@[110] as int) + (INV_MAT@[82] as int) * (MAT@[122] as int) + (INV_MAT@[83] as int) * (MAT@[134] as int));
    assert(((INV_MAT@[72] as int) * (MAT@[2] as int) + (INV_MAT@[73] as int) * (MAT@[14] as int) + (INV_MAT@[74] as int) * (MAT@[26] as int) + (INV_MAT@[75] as int) * (MAT@[38] as int) + (INV_MAT@[76] as int) * (MAT@[50] as int) + (INV_MAT@[77] as int) * (MAT@[62] as int) + (INV_MAT@[78] as int) * (MAT@[74] as int) + (INV_MAT@[79] as int) * (MAT@[86] as int) + (INV_MAT@[80] as int) * (MAT@[98] as int) + (INV_MAT@[81] as int) * (MAT@[110] as int) + (INV_MAT@[82] as int) * (MAT@[122] as int) + (INV_MAT@[83] as int) * (MAT@[134] as int)) % 340282366920938463463374557953744961537 == 0) by (nonlinear_arith)
        requires
            INV_MAT@[72] == 94792945070832857679082912572828953571, INV_MAT@[73] == 213891773493161319891264007856639690109, INV_MAT@[74] == 196877655147114396718095279958952442032, INV_MAT@[75] == 332990601915489782103445103140450426647, INV_MAT@[76] == 55903531708439890426125820235258100824, INV_MAT@[77] == 38889413362392967252957092337570852747, INV_MAT@[78] == 89931768400533736772463276030632596978, INV_MAT@[79] == 21875295016346044079788364439883604670, INV_MAT@[80] == 94792945070832857679082912572828953571, INV_MAT@[81] == 213891773493161319891264007856639690109, INV_MAT@[82] == 196877655147114396718095279958952442032, INV_MAT@[83] == 332990601915489782103445103140450426647, MAT@[2] == 2, MAT@[14] == 4, MAT@[26] == 6, MAT@[38] == 2, MAT@[50] == 1, MAT@[62] == 2, MAT@[74] == 3, MAT@[86] == 1, MAT@[98] == 1, MAT@[110] == 2, MAT@[122] == 3, MAT@[134] == 1,
    ;
    assert(product_entry(INV_MAT@, MAT@, 12, 6, 3) == (INV_MAT@[72] as int) * (MAT@[3] as int) + (INV_MAT@[73] as int) * (MAT@[15] as int) + (INV_MAT@[74] as int) * (MAT@[27] as int) + (INV_MAT@[75] as int) * (MAT@[39] as int) + (INV_MAT@[76] as int) * (MAT@[51] as int) + (INV_MAT@[77] as int) * (MAT@[63] as int) + (INV_MAT@[78] as int) * (MAT@[75] as int) + (INV_MAT@[79] as int) * (MAT@[87] as int) + (INV_MAT@[80] as int) * (MAT@[99] as int) + (INV_MAT@[81] as int) * (MAT@[111] as int) + (INV_MAT@[82] as int) * (MAT@[123] as int) + (INV_MAT@[83] as int) * (MAT@[135] as int));
    assert(((INV_MAT@[72] as int) * (MAT@[3] as int) + (INV_MAT@[73] as int) * (MAT@[15] as int) + (INV_MAT@[74] as int) * (MAT@[27] as int) + (INV_MAT@[75] as int) * (MAT@[39] as int) + (INV_MAT@[76] as int) * (MAT@[51] as int) + (INV_MAT@[77] as int) * (MAT@[63] as int) + (INV_MAT@[78] as int) * (MAT@[75] as int) + (INV_MAT@[79] as int) * (MAT@[87] as int) + (INV_MAT@[80] as int) * (MAT@[99] as int) + (INV_MAT@[81] as int) * (MAT@[111] as int) + (INV_MAT@[82] as int) * (MAT@[123] as int) + (INV_MAT@[83] as int) * (MAT@[135] as int)) % 340282366920938463463374557953744961537 == 0) by (nonlinear_arith)
        requires
            INV_MAT@[72] == 94792945070832857679082912572828953571, INV_MAT@[73] == 213891773493161319891264007856639690109, INV_MAT@[74] == 196877655147114396718095279958952442032, INV_MAT@[75] == 332990601915489782103445103140450426647, INV_MAT@[76] == 55903531708439890426125820235258100824, INV_MAT@[77] == 38889413362392967252957092337570852747, INV_MAT@[78] == 89931768400533736772463276030632596978, INV_MAT@[79] == 21875295016346044079788364439883604670, INV_MAT@[80] == 94792945070832857679082912572828953571, INV_MAT@[81] == 213891773493161319891264007856639690109, INV_MAT@[82] == 196877655147114396718095279958952442032, INV_MAT@[83] == 332990601915489782103445103140450426647, MAT@[3] == 2, MAT@[15] == 2, MAT@[27] == 4, MAT@[39] == 6, MAT@[51] == 1, MAT@[63] == 1, MAT@[75] == 2, MAT@[87] == 3, MAT@[99] == 1, MAT@[111] == 1, MAT@[123] == 2, MAT@[135] == 3,
    ;
    assert(product_entry(INV_MAT@, MAT@, 12, 6, 4) == (INV_MAT@[72] as int) * (MAT@[4] as int) + (INV_MAT@[73] as int) * (MAT@[16] as int) + (INV_MAT@[74] as int) * (MAT@[28] as int) + (INV_MAT@[75] as int) * (MAT@[40] as int) + (INV_MAT@[76] as int) * (MAT@[52] as int) + (INV_MAT@[77] as int) * (MAT@[64] as int) + (INV_MAT@[78] as int) * (MAT@[76] as int) + (INV_MAT@[79] as int) * (MAT@[88] as int) + (INV_MAT@[80] as int) * (MAT@[100] as int) + (INV_MAT@[81] as int) * (MAT@[112] as int) + (INV_MAT@[82] as int) * (MAT@[124] as int) + (INV_MAT@[83] as int) * (MAT@[136] as int));
    assert(((INV_MAT@[72] as int) * (MAT@[4] as int) + (INV_MAT@[73] as int) * (MAT@[16] as int) + (INV_MAT@[74] as int) * (MAT@[28] as int) + (INV_MAT@[75] as int) * (MAT@[40] as int) + (INV_MAT@[76] as int) * (MAT@[52] as int) + (INV_MAT@[77] as int) * (MAT@[64] as int) + (INV_MAT@[78] as int) * (MAT@[76] as int) + (INV_MAT@[79] as int) * (MAT@[88] as int) + (INV_MAT@[80] as int) * (MAT@[100] as int) + (INV_MAT@[81] as int) * (MAT@[112] as int) + (INV_MAT@[82] as int) * (MAT@[124] as int) + (INV_MAT@[83] as int) * (MAT@[136] as int)) % 340282366920938463463374557953744961537 == 0) by (nonlinear_arith)
        requires
            INV_MAT@[72] == 94792945070832857679082912572828953571, INV_MAT@[73] == 213891773493161319891264007856639690109, INV_MAT@[74] == 196877655147114396718095279958952442032, INV_MAT@[75] == 332990601915489782103445103140450426647, INV_MAT@[76] == 55903531708439890426125820235258100824, INV_MAT@[77] == 38889413362392967252957092337570852747, INV_MAT@[78] == 89931768400533736772463276030632596978, INV_MAT@[79] == 21875295016346044079788364439883604670, INV_MAT@[80] == 94792945070832857679082912572828953571, INV_MAT@[81] == 213891773493161319891264007856639690109, INV_MAT@[82] == 196877655147114396718095279958952442032, INV_MAT@[83] == 332990601915489782103445103140450426647, MAT@[4] == 3, MAT@[16] == 1, MAT@[28] == 1, MAT@[40] == 2, MAT@[52] == 6, MAT@[64] == 2, MAT@[76] == 2, MAT@[88] == 4, MAT@[100] == 3, MAT@[112] == 1, MAT@[124] == 1, MAT@[136] == 2,
    ;
    assert(product_entry(INV_MAT@, MAT@, 12, 6, 5) == (INV_MAT@[72] as int) * (MAT@[5] as int) + (INV_MAT@[73] as int) * (MAT@[17] as int) + (INV_MAT@[74] as int) * (MAT@[29] as int) + (INV_MAT@[75] as int) * (MAT@[41] as int) + (INV_MAT@[76] as int) * (MAT@[53] as int) + (INV_MAT@[77] as int) * (MAT@[65] as int) + (INV_MAT@[78] as int) * (MAT@[77] as int) + (INV_MAT@[79] as int) * (MAT@[89] as int) + (INV_MAT@[80] as int) * (MAT@[101] as int) + (INV_MAT@[81] as int) * (MAT@[113] as int) + (INV_MAT@[82] as int) * (MAT@[125] as int) + (INV_MAT@[83] as int) * (MAT@[137] as int));
    assert(((INV_MAT@[72] as int) * (MAT@[5] as int) + (INV_MAT@[73] as int) * (MAT@[17] as int) + (INV_MAT@[74] as int) * (MAT@[29] as int) + (INV_MAT@[75] as int) * (MAT@[41] as int) + (INV_MAT@[76] as int) * (MAT@[53] as int) + (INV_MAT@[77] as int) * (MAT@[65] as int) + (INV_MAT@[78] as int) * (MAT@[77] as int) + (INV_MAT@[79] as int) * (MAT@[89] as int) + (INV_MAT@[80] as int) * (MAT@[101] as int) + (INV_MAT@[81] as int) * (MAT@[113] as int) + (INV_MAT@[82] as int) * (MAT@[125] as int) + (INV_MAT@[83] as int) * (MAT@[137] as int)) % 340282366920938463463374557953744961537 == 0) by (nonlinear_arith)
        requires
            INV_MAT@[72] == 94792945070832857679082912572828953571, INV_MAT@[73] == 213891773493161319891264007856639690109, INV_MAT@[74] == 196877655147114396718095279958952442032, INV_MAT@[75] == 332990601915489782103445103140450426647, INV_MAT@[76] == 55903531708439890426125820235258100824, INV_MAT@[77] == 38889413362392967252957092337570852747, INV_MAT@[78] == 89931768400533736772463276030632596978, INV_MAT@[79] == 21875295016346044079788364439883604670, INV_MAT@[80] == 94792945070832857679082912572828953571, INV_MAT@[81] == 213891773493161319891264007856639690109, INV_MAT@[82] == 196877655147114396718095279958952442032, INV_MAT@[83] == 332990601915489782103445103140450426647, MAT@[5] == 2, MAT@[17] == 3, MAT@[29] == 1, MAT@[41] == 1, MAT@[53] == 4, MAT@[65] == 6, MAT@[77] == 2, MAT@[89] == 2, MAT@[101] == 2, MAT@[113] == 3, MAT@[125] == 1, MAT@[137] == 1,
    ;
    assert(product_entry(INV_MAT@, MAT@, 12, 6, 6) == (INV_MAT@[72] as int) * (MAT@[6] as int) + (INV_MAT@[73] as int) * (MAT@[18] as int) + (INV_MAT@[74] as int) * (MAT@[30] as int) + (INV_MAT@[75] as int) * (MAT@[42] as int) + (INV_MAT@[76] as int) * (MAT@[54] as int) + (INV_MAT@[77] as int) * (MAT@[66] as int) + (INV_MAT@[78] as int) * (MAT@[78] as int) + (INV_MAT@[79] as int) * (MAT@[90] as int) + (INV_MAT@[80] as int) * (MAT@[102] as int) + (INV_MAT@[81] as int) * (MAT@[114] as int) + (INV_MAT@[82] as int) * (MAT@[126] as int) + (INV_MAT@[83] as int) * (MAT@[138] as int));
    assert(((INV_MAT@[72] as int) * (MAT@[6] as int) + (INV_MAT@[73] as int) * (MAT@[18] as int) + (INV_MAT@[74] as int) * (MAT@[30] as int) + (INV_MAT@[75] as int) * (MAT@[42] as int) + (INV_MAT@[76] as int) * (MAT@[54] as int) + (INV_MAT@[77] as int) * (MAT@[66] as int) + (INV_MAT@[78] as int) * (MAT@[78] as int) + (INV_MAT@[79] as int) * (MAT@[90] as int) + (INV_MAT@[80] as int) * (MAT@[102] as int) + (INV_MAT@[81] as int) * (MAT@[114] as int) + (INV_MAT@[82] as int) * (MAT@[126] as int) + (INV_MAT@[83] as int) * (MAT@[138] as int)) % 340282366920938463463374557953744961537 == 1) by (nonlinear_arith)
        requires
            INV_MAT@[72] == 94792945070832857679082912572828953571, INV_MAT@[73] == 213891773493161319891264007856639690109, INV_MAT@[74] == 196877655147114396718095279958952442032, INV_MAT@[75] == 332990601915489782103445103140450426647, INV_MAT@[76] == 55903531708439890426125820235258100824, INV_MAT@[77] == 38889413362392967252957092337570852747, INV_MAT@[78] == 89931768400533736772463276030632596978, INV_MAT@[79] == 21875295016346044079788364439883604670, INV_MAT@[80] == 94792945070832857679082912572828953571, INV_MAT@[81] == 213891773493161319891264007856639690109, INV_MAT@[82] == 196877655147114396718095279958952442032, INV_MAT@[83] == 332990601915489782103445103140450426647, MAT@[6] == 1, MAT@[18] == 2, MAT@[30] == 3, MAT@[42] == 1, MAT@[54] == 2, MAT@[66] == 4, MAT@[78] == 6, MAT@[90] == 2, MAT@[102] == 1, MAT@[114] == 2, MAT@[126] == 3, MAT@[138] == 1,
    ;
    assert(product_entry(INV_MAT@, MAT@, 12, 6, 7) == (INV_MAT@[72] as int) * (MAT@[7] as int) + (INV_MAT@[73] as int) * (MAT@[19] as int) + (INV_MAT@[74] as int) * (MAT@[31] as int) + (INV_MAT@[75] as int) * (MAT@[43] as int) + (INV_MAT@[76] as int) * (MAT@[55] as int) + (INV_MAT@[77] as int) * (MAT@[67] as int) + (INV_MAT@[78] as int) * (MAT@[79] as int) + (INV_MAT@[79] as int) * (MAT@[91] as int) + (INV_MAT@[80] as int) * (MAT@[103] as int) + (INV_MAT@[81] as int) * (MAT@[115] as int) + (INV_MAT@[82] as int) * (MAT@[127] as int) + (INV_MAT@[83] as int) * (MAT@[139] as int));
    assert(((INV_MAT@[72] as int) * (MAT@[7] as int) + (INV_MAT@[73] as int) * (MAT@[19] as int) + (INV_MAT@[74] as int) * (MAT@[31] as int) + (INV_MAT@[75] as int) * (MAT@[43] as int) + (INV_MAT@[76] as int) * (MAT@[55] as int) + (INV_MAT@[77] as int) * (MAT@[67] as int) + (INV_MAT@[78] as int) * (MAT@[79] as int) + (INV_MAT@[79] as int) * (MAT@[91] as int) + (INV_MAT@[80] as int) * (MAT@[103] as int) + (INV_MAT@[81] as int) * (MAT@[115] as int) + (INV_MAT@[82] as int) * (MAT@[127] as int) + (INV_MAT@[83] as int) * (MAT@[139] as int)) % 340282366920938463463374557953744961537 == 0) by (nonlinear_arith)
        requires
            INV_MAT@[72] == 94792945070832857679082912572828953571, INV_MAT@[73] == 213891773493161319891264007856639690109, INV_MAT@[74] == 196877655147114396718095279958952442032, INV_MAT@[75] == 332990601915489782103445103140450426647, INV_MAT@[76] == 55903531708439890426125820235258100824, INV_MAT@[77] == 38889413362392967252957092337570852747, INV_MAT@[78] == 89931768400533736772463276030632596978, INV_MAT@[79] == 21875295016346044079788364439883604670, INV_MAT@[80] == 94792945070832857679082912572828953571, INV_MAT@[81] == 213891773493161319891264007856639690109, INV_MAT@[82] == 196877655147114396718095279958952442032, INV_MAT@[83] == 332990601915489782103445103140450426647, MAT@[7] == 1, MAT@[19] == 1, MAT@[31] == 2, MAT@[43] == 3, MAT@[55] == 2, MAT@[67] == 2, MAT@[79] == 4, MAT@[91] == 6, MAT@[103] == 1, MAT@[115] == 1, MAT@[127] == 2, MAT@[139] == 3,
    ;
    assert(product_entry(INV_MAT@, MAT@, 12, 6, 8) == (INV_MAT@[72] as int) * (MAT@[8] as int) + (INV_MAT@[73] as int) * (MAT@[20] as int) + (INV_MAT@[74] as int) * (MAT@[32] as int) + (INV_MAT@[75] as int) * (MAT@[44] as int) + (INV_MAT@[76] as int) * (MAT@[56] as int) + (INV_MAT@[77] as int) * (MAT@[68] as int) + (INV_MAT@[78] as int) * (MAT@[80] as int) + (INV_MAT@[79] as int) * (MAT@[92] as int) + (INV_MAT@[80] as int) * (MAT@[104] as int) + (INV_MAT@[81] as int) * (MAT@[116] as int) + (INV_MAT@[82] as int) * (MAT@[128] as int) + (INV_MAT@[83] as int) * (MAT@[140] as int));
    assert(((INV_MAT@[72] as int) * (MAT@[8] as int) + (INV_MAT@[73] as int) * (MAT@[20] as int) + (INV_MAT@[74] as int) * (MAT@[32] as int) + (INV_MAT@[75] as int) * (MAT@[44] as int) + (INV_MAT@[76] as int) * (MAT@[56] as int) + (INV_MAT@[77] as int) * (MAT@[68] as int) + (INV_MAT@[78] as int) * (MAT@[80] as int) + (INV_MAT@[79] as int) * (MAT@[92] as int) + (INV_MAT@[80] as int) * (MAT@[104] as int) + (INV_MAT@[81] as int) * (MAT@[116] as int) + (INV_MAT@[82] as int) * (MAT@[128] as int) + (INV_MAT@[83] as int) * (MAT@[140] as int)) % 340282366920938463463374557953744961537 == 0) by (nonlinear_arith)
        requires
            INV_MAT@[72] == 94792945070832857679082912572828953571, INV_MAT@[73] == 213891773493161319891264007856639690109, INV_MAT@[74] == 196877655147114396718095279958952442032, INV_MAT@[75] == 332990601915489782103445103140450426647, INV_MAT@[76] == 55903531708439890426125820235258100824, INV_MAT@[77] == 38889413362392967252957092337570852747, INV_MAT@[78] == 89931768400533736772463276030632596978, INV_MAT@[79] == 21875295016346044079788364439883604670, INV_MAT@[80] == 94792945070832857679082912572828953571, INV_MAT@[81] == 213891773493161319891264007856639690109, INV_MAT@[82] == 196877655147114396718095279958952442032, INV_MAT@[83] == 332990601915489782103445103140450426647, MAT@[8] == 3, MAT@[20] == 1, MAT@[32] == 1, MAT@[44] == 2, MAT@[56] == 3, MAT@[68] == 1, MAT@[80] == 1, MAT@[92] == 2, MAT@[104] == 6, MAT@[116] == 2, MAT@[128] == 2, MAT@[140] == 4,
    ;
    assert(product_entry(INV_MAT@, MAT@, 12, 6, 9) == (INV_MAT@[72] as int) * (MAT@[9] as int) + (INV_MAT@[73] as int) * (MAT@[21] as int) + (INV_MAT@[74] as int) * (MAT@[33] as int) + (INV_MAT@[75] as int) * (MAT@[45] as int) + (INV_MAT@[76] as int) * (MAT@[57] as int) + (INV_MAT@[77] as int) * (MAT@[69] as int) + (INV_MAT@[78] as int) * (MAT@[81] as int) + (INV_MAT@[79] as int) * (MAT@[93] as int) + (INV_MAT@[80] as int) * (MAT@[105] as int) + (INV_MAT@[81] as int) * (MAT@[117] as int) + (INV_MAT@[82] as int) * (MAT@[129] as int) + (INV_MAT@[83] as int) * (MAT@[141] as int));
    assert(((INV_MAT@[72] as int) * (MAT@[9] as int) + (INV_MAT@[73] as int) * (MAT@[21] as int) + (INV_MAT@[74] as int) * (MAT@[33] as int) + (INV_MAT@[75] as int) * (MAT@[45] as int) + (INV_MAT@[76] as int) * (MAT@[57] as int) + (INV_MAT@[77] as int) * (MAT@[69] as int) + (INV_MAT@[78] as int) * (MAT@[81] as int) + (INV_MAT@[79] as int) * (MAT@[93] as int) + (INV_MAT@[80] as int) * (MAT@[105] as int) + (INV_MAT@[81] as int) * (MAT@[117] as int) + (INV_MAT@[82] as int) * (MAT@[129] as int) + (INV_MAT@[83] as int) * (MAT@[141] as int)) % 340282366920938463463374557953744961537 == 0) by (nonlinear_arith)
        requires
            INV_MAT@[72] == 94792945070832857679082912572828953571, INV_MAT@[73] == 213891773493161319891264007856639690109, INV_MAT@[74] == 196877655147114396718095279958952442032, INV_MAT@[75] == 332990601915489782103445103140450426647, INV_MAT@[76] == 55903531708439890426125820235258100824, INV_MAT@[77] == 38889413362392967252957092337570852747, INV_MAT@[78] == 89931768400533736772463276030632596978, INV_MAT@[79] == 21875295016346044079788364439883604670, INV_MAT@[80] == 94792945070832857679082912572828953571, INV_MAT@[81] == 213891773493161319891264007856639690109, INV_MAT@[82] == 196877655147114396718095279958952442032, INV_MAT@[83] == 332990601915489782103445103140450426647, MAT@[9] == 2, MAT@[21] == 3, MAT@[33] == 1, MAT@[45] == 1, MAT@[57] == 2, MAT@[69] == 3, MAT@[81] == 1, MAT@[93] == 1, MAT@[105] == 4, MAT@[117] == 6, MAT@[129] == 2, MAT@[141] == 2,
    ;
    assert(product_entry(INV_MAT@, MAT@, 12, 6, 10) == (INV_MAT@[72] as int) * (MAT@[10] as int) + (INV_MAT@[73] as int) * (MAT@[22] as int) + (INV_MAT@[74] as int) * (MAT@[34] as int) + (INV_MAT@[75] as int) * (MAT@[46] as int) + (INV_MAT@[76] as int) * (MAT@[58] as int) + (INV_MAT@[77] as int) * (MAT@[70] as int) + (INV_MAT@[78] as int) * (MAT@[82] as int) + (INV_MAT@[79] as int) * (MAT@[94] as int) + (INV_MAT@[80] as int) * (MAT@[106] as int) + (INV_MAT@[81] as int) * (MAT@[118] as int) + (INV_MAT@[82] as int) * (MAT@[130] as int) + (INV_MAT@[83] as int) * (MAT@[142] as int));
    assert(((INV_MAT@[72] as int) * (MAT@[10] as int) + (INV_MAT@[73] as int) * (MAT@[22] as int) + (INV_MAT@[74] as int) * (MAT@[34] as int) + (INV_MAT@[75] as int) * (MAT@[46] as int) + (INV_MAT@[76] as int) * (MAT@[58] as int) + (INV_MAT@[77] as int) * (MAT@[70] as int) + (INV_MAT@[78] as int) * (MAT@[82] as int) + (INV_MAT@[79] as int) * (MAT@[94] as int) + (INV_MAT@[80] as int) * (MAT@[106] as int) + (INV_MAT@[81] as int) * (MAT@[118] as int) + (INV_MAT@[82] as int) * (MAT@[130] as int) + (INV_MAT@[83] as int) * (MAT@[142] as int)) % 340282366920938463463374557953744961537 == 0) by (nonlinear_arith)
        requires
            INV_MAT@[72] == 94792945070832857679082912572828953571, INV_MAT@[73] == 213891773493161319891264007856639690109, INV_MAT@[74] == 196877655147114396718095279958952442032, INV_MAT@[75] == 332990601915489782103445103140450426647, INV_MAT@[76] == 55903531708439890426125820235258100824, INV_MAT@[77] == 38889413362392967252957092337570852747, INV_MAT@[78] == 89931768400533736772463276030632596978, INV_MAT@[79] == 21875295016346044079788364439883604670, INV_MAT@[80] == 94792945070832857679082912572828953571, INV_MAT@[81] == 213891773493161319891264007856639690109, INV_MAT@[82] == 196877655147114396718095279958952442032, INV_MAT@[83] == 332990601915489782103445103140450426647, MAT@[10] == 1, MAT@[22] == 2, MAT@[34] == 3, MAT@[46] == 1, MAT@[58] == 1, MAT@[70] == 2, MAT@[82] == 3, MAT@[94] == 1, MAT@[106] == 2, MAT@[118] == 4, MAT@[130] == 6, MAT@[142] == 2,
    ;
    assert(product_entry(INV_MAT@, MAT@, 12, 6, 11) == (INV_MAT@[72] as int) * (MAT@[11] as int) + (INV_MAT@[73] as int) * (MAT@[23] as int) + (INV_MAT@[74] as int) * (MAT@[35] as int) + (INV_MAT@[75] as int) * (MAT@[47] as int) + (INV_MAT@[76] as int) * (MAT@[59] as int) + (INV_MAT@[77] as int) * (MAT@[71] as int) + (INV_MAT@[78] as int) * (MAT@[83] as int) + (INV_MAT@[79] as int) * (MAT@[95] as int) + (INV_MAT@[80] as int) * (MAT@[107] as int) + (INV_MAT@[81] as int) * (MAT@[119] as int) + (INV_MAT@[82] as int) * (MAT@[131] as int) + (INV_MAT@[83] as int) * (MAT@[143] as int));
    assert(((INV_MAT@[72] as int) * (MAT@[11] as int) + (INV_MAT@[73] as int) * (MAT@[23] as int) + (INV_MAT@[74] as int) * (MAT@[35] as int) + (INV_MAT@[75] as int) * (MAT@[47] as int) + (INV_MAT@[76] as int) * (MAT@[59] as int) + (INV_MAT@[77] as int) * (MAT@[71] as int) + (INV_MAT@[78] as int) * (MAT@[83] as int) + (INV_MAT@[79] as int) * (MAT@[95] as int) + (INV_MAT@[80] as int) * (MAT@[107] as int) + (INV_MAT@[81] as int) * (MAT@[119] as int) + (INV_MAT@[82] as int) * (MAT@[131] as int) + (INV_MAT@[83] as int) * (MAT@[143] as int)) % 340282366920938463463374557953744961537 == 0) by (nonlinear_arith)
        requires
            INV_MAT@[72] == 94792945070832857679082912572828953571, INV_MAT@[73] == 213891773493161319891264007856639690109, INV_MAT@[74] == 196877655147114396718095279958952442032, INV_MAT@[75] == 332990601915489782103445103140450426647, INV_MAT@[76] == 55903531708439890426125820235258100824, INV_MAT@[77] == 38889413362392967252957092337570852747, INV_MAT@[78] == 89931768400533736772463276030632596978, INV_MAT@[79] == 21875295016346044079788364439883604670, INV_MAT@[80] == 94792945070832857679082912572828953571, INV_MAT@[81] == 213891773493161319891264007856639690109, INV_MAT@[82] == 196877655147114396718095279958952442032, INV_MAT@[83] == 332990601915489782103445103140450426647, MAT@[11] == 1, MAT@[23] == 1, MAT@[35] == 2, MAT@[47] == 3, MAT@[59] == 1, MAT@[71] == 1, MAT@[83] == 2, MAT@[95] == 3, MAT@[107] == 2, MAT@[119] == 2, MAT@[131] == 4, MAT@[143] == 6,
    ;
}

proof fn lemma_product_backward_row_7()
    ensures
        identity_row(Elem::modulus(), INV_MAT@, MAT@, 12, 7, 12),
{
    reveal_with_fuel(sum, 13);
    reveal_with_fuel(identity_row, 13);
    assert(product_entry(INV_MAT@, MAT@, 12, 7, 0) == (INV_MAT@[84] as int) * (MAT@[0] as int) + (INV_MAT@[85] as int) * (MAT@[12] as int) + (INV_MAT@[86] as int) * (MAT@[24] as int) + (INV_MAT@[87] as int) * (MAT@[36] as int) + (INV_MAT@[88] as int) * (MAT@[48] as int) + (INV_MAT@[89] as int) * (MAT@[60] as int) + (INV_MAT@[90] as int) * (MAT@[72] as int) + (INV_MAT@[91] as int) * (MAT@[84] as int) + (INV_MAT@[92] as int) * (MAT@[96] as int) + (INV_MAT@[93] as int) * (MAT@[108] as int) + (INV_MAT@[94] as int) * (MAT@[120] as int) + (INV_MAT@[95] as int) * (MAT@[132] as int));
    assert(((INV_MAT@[84] as int) * (MAT@[0] as int) + (INV_MAT@[85] as int) * (MAT@[12] as int) + (INV_MAT@[86] as int) * (MAT@[24] as int) + (INV_MAT@[87] as int) * (MAT@[36] as int) + (INV_MAT@[88] as int) * (MAT@[48] as int) + (INV_MAT@[89] as int) * (MAT@[60] as int) + (INV_MAT@[90] as int) * (MAT@[72] as int) + (INV_MAT@[91] as int) * (MAT@[84] as int) + (INV_MAT@[92] as int) * (MAT@[96] as int) + (INV_MAT@[93] as int) * (MAT@[108] as int) + (INV_MAT@[94] as int) * (MAT@[120] as int) + (INV_MAT@[95] as int) * (MAT@[132] as int)) % 340282366920938463463374557953744961537 == 0) by (nonlinear_arith)
        requires
            INV_MAT@[84] == 332990601915489782103445103140450426647, INV_MAT@[85] == 94792945070832857679082912572828953571, INV_MAT@[86] == 213891773493161319891264007856639690109, INV_MAT@[87] == 196877655147114396718095279958952442032, INV_MAT@[88] == 21875295016346044079788364439883604670, INV_MAT@[89] == 55903531708439890426125820235258100824, INV_MAT@[90] == 38889413362392967252957092337570852747, INV_MAT@[91] == 89931768400533736772463276030632596978, INV_MAT@[92] == 332990601915489782103445103140450426647, INV_MAT@[93] == 94792945070832857679082912572828953571, INV_MAT@[94] == 213891773493161319891264007856639690109, INV_MAT@[95] == 196877655147114396718095279958952442032, MAT@[0] == 6, MAT@[12] == 2, MAT@[24] == 2, MAT@[36] == 4, MAT@[48] == 3, MAT@[60] == 1, MAT@[72] == 1, MAT@[84] == 2, MAT@[96] == 3, MAT@[108] == 1, MAT@[120] == 1, MAT@[132] == 2,
    ;
    assert(product_entry(INV_MAT@, MAT@, 12, 7, 1) == (INV_MAT@[84] as int) * (MAT@[1] as int) + (INV_MAT@[85] as int) * (MAT@[13] as int) + (INV_MAT@[86] as int) * (MAT@[25] as int) + (INV_MAT@[87] as int) * (MAT@[37] as int) + (INV_MAT@[88] as int) * (MAT@[49] as int) + (INV_MAT@[89] as int) * (MAT@[61] as int) + (INV_MAT@[90] as int) * (MAT@[73] as int) + (INV_MAT@[91] as int) * (MAT@[85] as int) + (INV_MAT@[92] as int) * (MAT@[97] as int) + (INV_MAT@[93] as int) * (MAT@[109] as int) + (INV_MAT@[94] as int) * (MAT@[121] as int) + (INV_MAT@[95] as int) * (MAT@[133] as int));
    assert(((INV_MAT@[84] as int) * (MAT@[1] as int) + (INV_MAT@[85] as int) * (MAT@[13] as int) + (INV_MAT@[86] as int) * (MAT@[25] as int) + (INV_MAT@[87] as int) * (MAT@[37] as int) + (INV_MAT@[88] as int) * (MAT@[49] as int) + (INV_MAT@[89] as int) * (MAT@[61] as int) + (INV_MAT@[90] as int) * (MAT@[73] as int) + (INV_MAT@[91] as int) * (MAT@[85] as int) + (INV_MAT@[92] as int) * (MAT@[97] as int) + (INV_MAT@[93] as int) * (MAT@[109] as int) + (INV_MAT@[94] as int) * (MAT@[121] as int) + (INV_MAT@[95] as int) * (MAT@[133] as int)) % 340282366920938463463374557953744961537 == 0) by (nonlinear_arith)
        requires
            INV_MAT@[84] == 332990601915489782103445103140450426647, INV_MAT@[85] == 94792945070832857679082912572828953571, INV_MAT@[86] == 213891773493161319891264007856639690109, INV_MAT@[87] == 196877655147114396718095279958952442032, INV_MAT@[88] == 21875295016346044079788364439883604670, INV_MAT@[89] == 55903531708439890426125820235258100824, INV_MAT@[90] == 38889413362392967252957092337570852747, INV_MAT@[91] == 89931768400533736772463276030632596978, INV_MAT@[92] == 332990601915489782103445103140450426647, INV_MAT@[93] == 94792945070832857679082912572828953571, INV_MAT@[94] == 213891773493161319891264007856639690109, INV_MAT@[95] == 196877655147114396718095279958952442032, MAT@[1] == 4, MAT@[13] == 6, MAT@[25] == 2, MAT@[37] == 2, MAT@[49] == 2, MAT@[61] == 3, MAT@[73] == 1, MAT@[85] == 1, MAT@[97] == 2, MAT@[109] == 3, MAT@[121] == 1, MAT@[133] == 1,
    ;
    assert(product_entry(INV_MAT@, MAT@, 12, 7, 2) == (INV_MAT@[84] as int) * (MAT@[2] as int) + (INV_MAT@[85] as int) * (MAT@[14] as int) + (INV_MAT@[86] as int) * (MAT@[26] as int) + (INV_MAT@[87] as int) * (MAT@[38] as int) + (INV_MAT@[88] as int) * (MAT@[50] as int) + (INV_MAT@[89] as int) * (MAT@[62] as int) + (INV_MAT@[90] as int) * (MAT@[74] as int) + (INV_MAT@[91] as int) * (MAT@[86] as int) + (INV_MAT@[92] as int) * (MAT@[98] as int) + (INV_MAT@[93] as int) * (MAT@[110] as int) + (INV_MAT@[94] as int) * (MAT@[122] as int) + (INV_MAT@[95] as int) * (MAT@[134] as int));
    assert(((INV_MAT@[84] as int) * (MAT@[2] as int) + (INV_MAT@[85] as int) * (MAT@[14] as int) + (INV_MAT@[86] as int) * (MAT@[26] as int) + (INV_MAT@[87] as int) * (MAT@[38] as int) + (INV_MAT@[88] as int) * (MAT@[50] as int) + (INV_MAT@[89] as int) * (MAT@[62] as int) + (INV_MAT@[90] as int) * (MAT@[74] as int) + (INV_MAT@[91] as int) * (MAT@[86] as int) + (INV_MAT@[92] as int) * (MAT@[98] as int) + (INV_MAT@[93] as int) * (MAT@[110] as int) + (INV_MAT@[94] as int) * (MAT@[122] as int) + (INV_MAT@[95] as int) * (MAT@[134] as int)) % 340282366920938463463374557953744961537 == 0) by (nonlinear_arith)
        requires
            INV_MAT@[84] == 332990601915489782103445103140450426647, INV_MAT@[85] == 94792945070832857679082912572828953571, INV_MAT@[86] == 213891773493161319891264007856639690109, INV_MAT@[87] == 196877655147114396718095279958952442032, INV_MAT@[88] == 21875295016346044079788364439883604670, INV_MAT@[89] == 55903531708439890426125820235258100824, INV_MAT@[90] == 38889413362392967252957092337570852747, INV_MAT@[91] == 89931768400533736772463276030632596978, INV_MAT@[92] == 332990601915489782103445103140450426647, INV_MAT@[93] == 94792945070832857679082912572828953571, INV_MAT@[94] == 213891773493161319891264007856639690109, INV_MAT@[95] == 196877655147114396718095279958952442032, MAT@[2] == 2, MAT@[14] == 4, MAT@[26] == 6, MAT@[38] == 2, MAT@[50] == 1, MAT@[62] == 2, MAT@[74] == 3, MAT@[86] == 1, MAT@[98] == 1, MAT@[110] == 2, MAT@[122] == 3, MAT@[134] == 1,
    ;
    assert(product_entry(INV_MAT@, MAT@, 12, 7, 3) == (INV_MAT@[84] as int) * (MAT@[3] as int) + (INV_MAT@[85] as int) * (MAT@[15] as int) + (INV_MAT@[86] as int) * (MAT@[27] as int) + (INV_MAT@[87] as int) * (MAT@[39] as int) + (INV_MAT@[88] as int) * (MAT@[51] as int) + (INV_MAT@[89] as int) * (MAT@[63] as int) + (INV_MAT@[90] as int) * (MAT@[75] as int) + (INV_MAT@[91] as int) * (MAT@[87] as int) + (INV_MAT@[92] as int) * (MAT@[99] as int) + (INV_MAT@[93] as int) * (MAT@[111] as int) + (INV_MAT@[94] as int) * (MAT@[123] as int) + (INV_MAT@[95] as int) * (MAT@[135] as int));
    assert(((INV_MAT@[84] as int) * (MAT@[3] as int) + (INV_MAT@[85] as int) * (MAT@[15] as int) + (INV_MAT@[86] as int) * (MAT@[27] as int) + (INV_MAT@[87] as int) * (MAT@[39] as int) + (INV_MAT@[88] as int) * (MAT@[51] as int) + (INV_MAT@[89] as int) * (MAT@[63] as int) + (INV_MAT@[90] as int) * (MAT@[75] as int) + (INV_MAT@[91] as int) * (MAT@[87] as int) + (INV_MAT@[92] as int) * (MAT@[99] as int) + (INV_MAT@[93] as int) * (MAT@[111] as int) + (INV_MAT@[94] as int) * (MAT@[123] as int) + (INV_MAT@[95] as int) * (MAT@[135] as int)) % 340282366920938463463374557953744961537 == 0) by (nonlinear_arith)
        requires
            INV_MAT@[84] == 332990601915489782103445103140450426647, INV_MAT@[85] == 94792945070832857679082912572828953571, INV_MAT@[86] == 213891773493161319891264007856639690109, INV_MAT@[87] == 196877655147114396718095279958952442032, INV_MAT@[88] == 21875295016346044079788364439883604670, INV_MAT@[89] == 55903531708439890426125820235258100824, INV_MAT@[90] == 38889413362392967252957092337570852747, INV_MAT@[91] == 89931768400533736772463276030632596978, INV_MAT@[92] == 332990601915489782103445103140450426647, INV_MAT@[93] == 94792945070832857679082912572828953571, INV_MAT@[94] == 213891773493161319891264007856639690109, INV_MAT@[95] == 196877655147114396718095279958952442032, MAT@[3] == 2, MAT@[15] == 2, MAT@[27] == 4, MAT@[39] == 6, MAT@[51] == 1, MAT@[63] == 1, MAT@[75] == 2, MAT@[87] == 3, MAT@[99] == 1, MAT@[111] == 1, MAT@[123] == 2, MAT@[135] == 3,
    ;
    assert(product_entry(INV_MAT@, MAT@, 12, 7, 4) == (INV_MAT@[84] as int) * (MAT@[4] as int) + (INV_MAT@[85] as int) * (MAT@[16] as int) + (INV_MAT@[86] as int) * (MAT@[28] as int) + (INV_MAT@[87] as int) * (MAT@[40] as int) + (INV_MAT@[88] as int) * (MAT@[52] as int) + (INV_MAT@[89] as int) * (MAT@[64] as int) + (INV_MAT@[90] as int) * (MAT@[76] as int) + (INV_MAT@[91] as int) * (MAT@[88] as int) + (INV_MAT@[92] as int) * (MAT@[100] as int) + (INV_MAT@[93] as int) * (MAT@[112] as int) + (INV_MAT@[94] as int) * (MAT@[124] as int) + (INV_MAT@[95] as int) * (MAT@[136] as int));
    assert(((INV_MAT@[84] as int) * (MAT@[4] as int) + (INV_MAT@[85] as int) * (MAT@[16] as int) + (INV_MAT@[86] as int) * (MAT@[28] as int) + (INV_MAT@[87] as int) * (MAT@[40] as int) + (INV_MAT@[88] as int) * (MAT@[52] as int) + (INV_MAT@[89] as int) * (MAT@[64] as int) + (INV_MAT@[90] as int) * (MAT@[76] as int) + (INV_MAT@[91] as int) * (MAT@[88] as int) + (INV_MAT@[92] as int) * (MAT@[100] as int) + (INV_MAT@[93] as int) * (MAT@[112] as int) + (INV_MAT@[94] as int) * (MAT@[124] as int) + (INV_MAT@[95] as int) * (MAT@[136] as int)) % 340282366920938463463374557953744961537 == 0) by (nonlinear_arith)
        requires
            INV_MAT@[84] == 332990601915489782103445103140450426647, INV_MAT@[85] == 94792945070832857679082912572828953571, INV_MAT@[86] == 213891773493161319891264007856639690109, INV_MAT@[87] == 196877655147114396718095279958952442032, INV_MAT@[88] == 21875295016346044079788364439883604670, INV_MAT@[89] == 55903531708439890426125820235258100824, INV_MAT@[90] == 38889413362392967252957092337570852747, INV_MAT@[91] == 89931768400533736772463276030632596978, INV_MAT@[92] == 332990601915489782103445103140450426647, INV_MAT@[93] == 94792945070832857679082912572828953571, INV_MAT@[94] == 213891773493161319891264007856639690109, INV_MAT@[95] == 196877655147114396718095279958952442032, MAT@[4] == 3, MAT@[16] == 1, MAT@[28] == 1, MAT@[40] == 2, MAT@[52] == 6, MAT@[64] == 2, MAT@[76] == 2, MAT@[88] == 4, MAT@[100] == 3, MAT@[112] == 1, MAT@[124] == 1, MAT@[136] == 2,
    ;
    assert(product_entry(INV_MAT@, MAT@, 12, 7, 5) == (INV_MAT@[84] as int) * (MAT@[5] as int) + (INV_MAT@[85] as int) * (MAT@[17] as int) + (INV_MAT@[86] as int) * (MAT@[29] as int) + (INV_MAT@[87] as int) * (MAT@[41] as int) + (INV_MAT@[88] as int) * (MAT@[53] as int) + (INV_MAT@[89] as int) * (MAT@[65] as int) + (INV_MAT@[90] as int) * (MAT@[77] as int) + (INV_MAT@[91] as int) * (MAT@[89] as int) + (INV_MAT@[92] as int) * (MAT@[101] as int) + (INV_MAT@[93] as int) * (MAT@[113] as int) + (INV_MAT@[94] as int) * (MAT@[125] as int) + (INV_MAT@[95] as int) * (MAT@[137] as int));
    assert(((INV_MAT@[84] as int) * (MAT@[5] as int) + (INV_MAT@[85] as int) * (MAT@[17] as int) + (INV_MAT@[86] as int) * (MAT@[29] as int) + (INV_MAT@[87] as int) * (MAT@[41] as int) + (INV_MAT@[88] as int) * (MAT@[53] as int) + (INV_MAT@[89] as int) * (MAT@[65] as int) + (INV_MAT@[90] as int) * (MAT@[77] as int) + (INV_MAT@[91] as int) * (MAT@[89] as int) + (INV_MAT@[92] as int) * (MAT@[101] as int) + (INV_MAT@[93] as int) * (MAT@[113] as int) + (INV_MAT@[94] as int) * (MAT@[125] as int) + (INV_MAT@[95] as int) * (MAT@[137] as int)) % 340282366920938463463374557953744961537 == 0) by (nonlinear_arith)
        requires
            INV_MAT@[84] == 332990601915489782103445103140450426647, INV_MAT@[85] == 94792945070832857679082912572828953571, INV_MAT@[86] == 213891773493161319891264007856639690109, INV_MAT@[87] == 196877655147114396718095279958952442032, INV_MAT@[88] == 21875295016346044079788364439883604670, INV_MAT@[89] == 55903531708439890426125820235258100824, INV_MAT@[90] == 38889413362392967252957092337570852747, INV_MAT@[91] == 89931768400533736772463276030632596978, INV_MAT@[92] == 332990601915489782103445103140450426647, INV_MAT@[93] == 94792945070832857679082912572828953571, INV_MAT@[94] == 213891773493161319891264007856639690109, INV_MAT@[95] == 196877655147114396718095279958952442032, MAT@[5] == 2, MAT@[17] == 3, MAT@[29] == 1, MAT@[41] == 1, MAT@[53] == 4, MAT@[65] == 6, MAT@[77] == 2, MAT@[89] == 2, MAT@[101] == 2, MAT@[113] == 3, MAT@[125] == 1, MAT@[137] == 1,
    ;
    assert(product_entry(INV_MAT@, MAT@, 12, 7, 6) == (INV_MAT@[84] as int) * (MAT@[6] as int) + (INV_MAT@[85] as int) * (MAT@[18] as int) + (INV_MAT@[86] as int) * (MAT@[30] as int) + (INV_MAT@[87] as int) * (MAT@[42] as int) + (INV_MAT@[88] as int) * (MAT@[54] as int) + (INV_MAT@[89] as int) * (MAT@[66] as int) + (INV_MAT@[90] as int) * (MAT@[78] as int) + (INV_MAT@[91] as int) * (MAT@[90] as int) + (INV_MAT@[92] as int) * (MAT@[102] as int) + (INV_MAT@[93] as int) * (MAT@[114] as int) + (INV_MAT@[94] as int) * (MAT@[126] as int) + (INV_MAT@[95] as int) * (MAT@[138] as int));
    assert(((INV_MAT@[84] as int) * (MAT@[6] as int) + (INV_MAT@[85] as int) * (MAT@[18] as int) + (INV_MAT@[86] as int) * (MAT@[30] as int) + (INV_MAT@[87] as int) * (MAT@[42] as int) + (INV_MAT@[88] as int) * (MAT@[54] as int) + (INV_MAT@[89] as int) * (MAT@[66] as int) + (INV_MAT@[90] as int) * (MAT@[78] as int) + (INV_MAT@[91] as int) * (MAT@[90] as int) + (INV_MAT@[92] as int) * (MAT@[102] as int) + (INV_MAT@[93] as int) * (MAT@[114] as int) + (INV_MAT@[94] as int) * (MAT@[126] as int) + (INV_MAT@[95] as int) * (MAT@[138] as int)) % 340282366920938463463374557953744961537 == 0) by (nonlinear_arith)
        requires
            INV_MAT@[84] == 332990601915489782103445103140450426647, INV_MAT@[85] == 94792945070832857679082912572828953571, INV_MAT@[86] == 213891773493161319891264007856639690109, INV_MAT@[87] == 196877655147114396718095279958952442032, INV_MAT@[88] == 21875295016346044079788364439883604670, INV_MAT@[89] == 55903531708439890426125820235258100824, INV_MAT@[90] == 38889413362392967252957092337570852747, INV_MAT@[91] == 89931768400533736772463276030632596978, INV_MAT@[92] == 332990601915489782103445103140450426647, INV_MAT@[93] == 94792945070832857679082912572828953571, INV_MAT@[94] == 213891773493161319891264007856639690109, INV_MAT@[95] == 196877655147114396718095279958952442032, MAT@[6] == 1, MAT@[18] == 2, MAT@[30] == 3, MAT@[42] == 1, MAT@[54] == 2, MAT@[66] == 4, MAT@[78] == 6, MAT@[90] == 2, MAT@[102] == 1, MAT@[114] == 2, MAT@[126] == 3, MAT@[138] == 1,
    ;
    assert(product_entry(INV_MAT@, MAT@, 12, 7, 7) == (INV_MAT@[84] as int) * (MAT@[7] as int) + (INV_MAT@[85] as int) * (MAT@[19] as int) + (INV_MAT@[86] as int) * (MAT@[31] as int) + (INV_MAT@[87] as int) * (MAT@[43] as int) + (INV_MAT@[88] as int) * (MAT@[55] as int) + (INV_MAT@[89] as int) * (MAT@[67] as int) + (INV_MAT@[90] as int) * (MAT@[79] as int) + (INV_MAT@[91] as int) * (MAT@[91] as int) + (INV_MAT@[92] as int) * (MAT@[103] as int) + (INV_MAT@[93] as int) * (MAT@[115] as int) + (INV_MAT@[94] as int) * (MAT@[127] as int) + (INV_MAT@[95] as int) * (MAT@[139] as int));
    assert(((INV_MAT@[84] as int) * (MAT@[7] as int) + (INV_MAT@[85] as int) * (MAT@[19] as int) + (INV_MAT@[86] as int) * (MAT@[31] as int) + (INV_MAT@[87] as int) * (MAT@[43] as int) + (INV_MAT@[88] as int) * (MAT@[55] as int) + (INV_MAT@[89] as int) * (MAT@[67] as int) + (INV_MAT@[90] as int) * (MAT@[79] as int) + (INV_MAT@[91] as int) * (MAT@[91] as int) + (INV_MAT@[92] as int) * (MAT@[103] as int) + (INV_MAT@[93] as int) * (MAT@[115] as int) + (INV_MAT@[94] as int) * (MAT@[127] as int) + (INV_MAT@[95] as int) * (MAT@[139] as int)) % 340282366920938463463374557953744961537 == 1) by (nonlinear_arith)
        requires
            INV_MAT@[84] == 332990601915489782103445103140450426647, INV_MAT@[85] == 94792945070832857679082912572828953571, INV_MAT@[86] == 213891773493161319891264007856639690109, INV_MAT@[87] == 196877655147114396718095279958952442032, INV_MAT@[88] == 21875295016346044079788364439883604670, INV_MAT@[89] == 55903531708439890426125820235258100824, INV_MAT@[90] == 38889413362392967252957092337570852747, INV_MAT@[91] == 89931768400533736772463276030632596978, INV_MAT@[92] == 332990601915489782103445103140450426647, INV_MAT@[93] == 94792945070832857679082912572828953571, INV_MAT@[94] == 213891773493161319891264007856639690109, INV_MAT@[95] == 196877655147114396718095279958952442032, MAT@[7] == 1, MAT@[19] == 1, MAT@[31] == 2, MAT@[43] == 3, MAT@[55] == 2, MAT@[67] == 2, MAT@[79] == 4, MAT@[91] == 6, MAT@[103] == 1, MAT@[115] == 1, MAT@[127] == 2, MAT@[139] == 3,
    ;
    assert(product_entry(INV_MAT@, MAT@, 12, 7, 8) == (INV_MAT@[84] as int) * (MAT@[8] as int) + (INV_MAT@[85] as int) * (MAT@[20] as int) + (INV_MAT@[86] as int) * (MAT@[32] as int) + (INV_MAT@[87] as int) * (MAT@[44] as int) + (INV_MAT@[88] as int) * (MAT@[56] as int) + (INV_MAT@[89] as int) * (MAT@[68] as int) + (INV_MAT@[90] as int) * (MAT@[80] as int) + (INV_MAT@[91] as int) * (MAT@[92] as int) + (INV_MAT@[92] as int) * (MAT@[104] as int) + (INV_MAT@[93] as int) * (MAT@[116] as int) + (INV_MAT@[94] as int) * (MAT@[128] as int) + (INV_MAT@[95] as int) * (MAT@[140] as int));
    assert(((INV_MAT@[84] as int) * (MAT@[8] as int) + (INV_MAT@[85] as int) * (MAT@[20] as int) + (INV_MAT@[86] as int) * (MAT@[32] as int) + (INV_MAT@[87] as int) * (MAT@[44] as int) + (INV_MAT@[88] as int) * (MAT@[56] as int) + (INV_MAT@[89] as int) * (MAT@[68] as int) + (INV_MAT@[90] as int) * (MAT@[80] as int) + (INV_MAT@[91] as int) * (MAT@[92] as int) + (INV_MAT@[92] as int) * (MAT@[104] as int) + (INV_MAT@[93] as int) * (MAT@[116] as int) + (INV_MAT@[94] as int) * (MAT@[128] as int) + (INV_MAT@[95] as int) * (MAT@[140] as int)) % 340282366920938463463374557953744961537 == 0) by (nonlinear_arith)
        requires
            INV_MAT@[84] == 332990601915489782103445103140450426647, INV_MAT@[85] == 94792945070832857679082912572828953571, INV_MAT@[86] == 213891773493161319891264007856639690109, INV_MAT@[87] == 196877655147114396718095279958952442032, INV_MAT@[88] == 21875295016346044079788364439883604670, INV_MAT@[89] == 55903531708439890426125820235258100824, INV_MAT@[90] == 38889413362392967252957092337570852747, INV_MAT@[91] == 89931768400533736772463276030632596978, INV_MAT@[92] == 332990601915489782103445103140450426647, INV_MAT@[93] == 94792945070832857679082912572828953571, INV_MAT@[94] == 213891773493161319891264007856639690109, INV_MAT@[95] == 196877655147114396718095279958952442032, MAT@[8] == 3, MAT@[20] == 1, MAT@[32] == 1, MAT@[44] == 2, MAT@[56] == 3, MAT@[68] == 1, MAT@[80] == 1, MAT@[92] == 2, MAT@[104] == 6, MAT@[116] == 2, MAT@[128] == 2, MAT@[140] == 4,
    ;
    assert(product_entry(INV_MAT@, MAT@, 12, 7, 9) == (INV_MAT@[84] as int) * (MAT@[9] as int) + (INV_MAT@[85] as int) * (MAT@[21] as int) + (INV_MAT@[86] as int) * (MAT@[33] as int) + (INV_MAT@[87] as int) * (MAT@[45] as int) + (INV_MAT@[88] as int) * (MAT@[57] as int) + (INV_MAT@[89] as int) * (MAT@[69] as int) + (INV_MAT@[90] as int) * (MAT@[81] as int) + (INV_MAT@[91] as int) * (MAT@[93] as int) + (INV_MAT@[92] as int) * (MAT@[105] as int) + (INV_MAT@[93] as int) * (MAT@[117] as int) + (INV_MAT@[94] as int) * (MAT@[129] as int) + (INV_MAT@[95] as int) * (MAT@[141] as int));
    assert(((INV_MAT@[84] as int) * (MAT@[9] as int) + (INV_MAT@[85] as int) * (MAT@[21] as int) + (INV_MAT@[86] as int) * (MAT@[33] as int) + (INV_MAT@[87] as int) * (MAT@[45] as int) + (INV_MAT@[88] as int) * (MAT@[57] as int) + (INV_MAT@[89] as int) * (MAT@[69] as int) + (INV_MAT@[90] as int) * (MAT@[81] as int) + (INV_MAT@[91] as int) * (MAT@[93] as int) + (INV_MAT@[92] as int) * (MAT@[105] as int) + (INV_MAT@[93] as int) * (MAT@[117] as int) + (INV_MAT@[94] as int) * (MAT@[129] as int) + (INV_MAT@[95] as int) * (MAT@[141] as int)) % 340282366920938463463374557953744961537 == 0) by (nonlinear_arith)
        requires
            INV_MAT@[84] == 332990601915489782103445103140450426647, INV_MAT@[85] == 94792945070832857679082912572828953571, INV_MAT@[86] == 213891773493161319891264007856639690109, INV_MAT@[87] == 196877655147114396718095279958952442032, INV_MAT@[88] == 21875295016346044079788364439883604670, INV_MAT@[89] == 55903531708439890426125820235258100824, INV_MAT@[90] == 38889413362392967252957092337570852747, INV_MAT@[91] == 89931768400533736772463276030632596978, INV_MAT@[92] == 332990601915489782103445103140450426647, INV_MAT@[93] == 94792945070832857679082912572828953571, INV_MAT@[94] == 213891773493161319891264007856639690109, INV_MAT@[95] == 196877655147114396718095279958952442032, MAT@[9] == 2, MAT@[21] == 3, MAT@[33] == 1, MAT@[45] == 1, MAT@[57] == 2, MAT@[69] == 3, MAT@[81] == 1, MAT@[93] == 1, MAT@[105] == 4, MAT@[117] == 6, MAT@[129] == 2, MAT@[141] == 2,
    ;
    assert(product_entry(INV_MAT@, MAT@, 12, 7, 10) == (INV_MAT@[84] as int) * (MAT@[10] as int) + (INV_MAT@[85] as int) * (MAT@[22] as int) + (INV_MAT@[86] as int) * (MAT@[34] as int) + (INV_MAT@[87] as int) * (MAT@[46] as int) + (INV_MAT@[88] as int) * (MAT@[58] as int) + (INV_MAT@[89] as int) * (MAT@[70] as int) + (INV_MAT@[90] as int) * (MAT@[82] as int) + (INV_MAT@[91] as int) * (MAT@[94] as int) + (INV_MAT@[92] as int) * (MAT@[106] as int) + (INV_MAT@[93] as int) * (MAT@[118] as int) + (INV_MAT@[94] as int) * (MAT@[130] as int) + (INV_MAT@[95] as int) * (MAT@[142] as int));
    assert(((INV_MAT@[84] as int) * (MAT@[10] as int) + (INV_MAT@[85] as int) * (MAT@[22] as int) + (INV_MAT@[86] as int) * (MAT@[34] as int) + (INV_MAT@[87] as int) * (MAT@[46] as int) + (INV_MAT@[88] as int) * (MAT@[58] as int) + (INV_MAT@[89] as int) * (MAT@[70] as int) + (INV_MAT@[90] as int) * (MAT@[82] as int) + (INV_MAT@[91] as int) * (MAT@[94] as int) + (INV_MAT@[92] as int) * (MAT@[106] as int) + (INV_MAT@[93] as int) * (MAT@[118] as int) + (INV_MAT@[94] as int) * (MAT@[130] as int) + (INV_MAT@[95] as int) * (MAT@[142] as int)) % 340282366920938463463374557953744961537 == 0) by (nonlinear_arith)
        requires
            INV_MAT@[84] == 332990601915489782103445103140450426647, INV_MAT@[85] == 94792945070832857679082912572828953571, INV_MAT@[86] == 213891773493161319891264007856639690109, INV_MAT@[87] == 196877655147114396718095279958952442032, INV_MAT@[88] == 21875295016346044079788364439883604670, INV_MAT@[89] == 55903531708439890426125820235258100824, INV_MAT@[90] == 38889413362392967252957092337570852747, INV_MAT@[91] == 89931768400533736772463276030632596978, INV_MAT@[92] == 332990601915489782103445103140450426647, INV_MAT@[93] == 94792945070832857679082912572828953571, INV_MAT@[94] == 213891773493161319891264007856639690109, INV_MAT@[95] == 196877655147114396718095279958952442032, MAT@[10] == 1, MAT@[22] == 2, MAT@[34] == 3, MAT@[46] == 1, MAT@[58] == 1, MAT@[70] == 2, MAT@[82] == 3, MAT@[94] == 1, MAT@[106] == 2, MAT@[118] == 4, MAT@[130] == 6, MAT@[142] == 2,
    ;
    assert(product_entry(INV_MAT@, MAT@, 12, 7, 11) == (INV_MAT@[84] as int) * (MAT@[11] as int) + (INV_MAT@[85] as int) * (MAT@[23] as int) + (INV_MAT@[86] as int) * (MAT@[35] as int) + (INV_MAT@[87] as int) * (MAT@[47] as int) + (INV_MAT@[88] as int) * (MAT@[59] as int) + (INV_MAT@[89] as int) * (MAT@[71] as int) + (INV_MAT@[90] as int) * (MAT@[83] as int) + (INV_MAT@[91] as int) * (MAT@[95] as int) + (INV_MAT@[92] as int) * (MAT@[107] as int) + (INV_MAT@[93] as int) * (MAT@[119] as int) + (INV_MAT@[94] as int) * (MAT@[131] as int) + (INV_MAT@[95] as int) * (MAT@[143] as int));
    assert(((INV_MAT@[84] as int) * (MAT@[11] as int) + (INV_MAT@[85] as int) * (MAT@[23] as int) + (INV_MAT@[86] as int) * (MAT@[35] as int) + (INV_MAT@[87] as int) * (MAT@[47] as int) + (INV_MAT@[88] as int) * (MAT@[59] as int) + (INV_MAT@[89] as int) * (MAT@[71] as int) + (INV_MAT@[90] as int) * (MAT@[83] as int) + (INV_MAT@[91] as int) * (MAT@[95] as int) + (INV_MAT@[92] as int) * (MAT@[107] as int) + (INV_MAT@[93] as int) * (MAT@[119] as int) + (INV_MAT@[94] as int) * (MAT@[131] as int) + (INV_MAT@[95] as int) * (MAT@[143] as int)) % 340282366920938463463374557953744961537 == 0) by (nonlinear_arith)
        requires
            INV_MAT@[84] == 332990601915489782103445103140450426647, INV_MAT@[85] == 94792945070832857679082912572828953571, INV_MAT@[86] == 213891773493161319891264007856639690109, INV_MAT@[87] == 196877655147114396718095279958952442032, INV_MAT@[88] == 21875295016346044079788364439883604670, INV_MAT@[89] == 55903531708439890426125820235258100824, INV_MAT@[90] == 38889413362392967252957092337570852747, INV_MAT@[91] == 89931768400533736772463276030632596978, INV_MAT@[92] == 332990601915489782103445103140450426647, INV_MAT@[93] == 94792945070832857679082912572828953571, INV_MAT@[94] == 213891773493161319891264007856639690109, INV_MAT@[95] == 196877655147114396718095279958952442032, MAT@[11] == 1, MAT@[23] == 1, MAT@[35] == 2, MAT@[47] == 3, MAT@[59] == 1, MAT@[71] == 1, MAT@[83] == 2, MAT@[95] == 3, MAT@[107] == 2, MAT@[119] == 2, MAT@[131] == 4, MAT@[143] == 6,
    ;
}

proof fn lemma_product_backward_row_8()
    ensures
        identity_row(Elem::modulus(), INV_MAT@, MAT@, 12, 8, 12),
{
    reveal_with_fuel(sum, 13);
    reveal_with_fuel(identity_row, 13);
    assert(product_entry(INV_MAT@, MAT@, 12, 8, 0) == (INV_MAT@[96] as int) * (MAT@[0] as int) + (INV_MAT@[97] as int) * (MAT@[12] as int) + (INV_MAT@[98] as int) * (MAT@[24] as int) + (INV_MAT@[99] as int) * (MAT@[36] as int) + (INV_MAT@[100] as int) * (MAT@[48] as int) + (INV_MAT@[101] as int) * (MAT@[60] as int) + (INV_MAT@[102] as int) * (MAT@[72] as int) + (INV_MAT@[103] as int) * (MAT@[84] as int) + (INV_MAT@[104] as int) * (MAT@[96] as int) + (INV_MAT@[105] as int) * (MAT@[108] as int) + (INV_MAT@[106] as int) * (MAT@[120] as int) + (INV_MAT@[107] as int) * (MAT@[132] as int));
    assert(((INV_MAT@[96] as int) * (MAT@[0] as int) + (INV_MAT@[97] as int) * (MAT@[12] as int) + (INV_MAT@[98] as int) * (MAT@[24] as int) + (INV_MAT@[99] as int) * (MAT@[36] as int) + (INV_MAT@[100] as int) * (MAT@[48] as int) + (INV_MAT@[101] as int) * (MAT@[60] as int) + (INV_MAT@[102] as int) * (MAT@[72] as int) + (INV_MAT@[103] as int) * (MAT@[84] as int) + (INV_MAT@[104] as int) * (MAT@[96] as int) + (INV_MAT@[105] as int) * (MAT@[108] as int) + (INV_MAT@[106] as int) * (MAT@[120] as int) + (INV_MAT@[107] as int) * (MAT@[132] as int)) % 340282366920938463463374557953744961537 == 0) by (nonlinear_arith)
        requires
            INV_MAT@[96] == 196877655147114396718095279958952442032, INV_MAT@[97] == 332990601915489782103445103140450426647, INV_MAT@[98] == 94792945070832857679082912572828953571, INV_MAT@[99] == 213891773493161319891264007856639690109, INV_MAT@[100] == 196877655147114396718095279958952442032, INV_MAT@[101] == 332990601915489782103445103140450426647, INV_MAT@[102] == 94792945070832857679082912572828953571, INV_MAT@[103] == 213891773493161319891264007856639690109, INV_MAT@[104] == 89931768400533736772463276030632596978, INV_MAT@[105] == 21875295016346044079788364439883604670, INV_MAT@[106] == 55903531708439890426125820235258100824, INV_MAT@[107] == 38889413362392967252957092337570852747, MAT@[0] == 6, MAT@[12] == 2, MAT@[24] == 2, MAT@[36] == 4, MAT@[48] == 3, MAT@[60] == 1, MAT@[72] == 1, MAT@[84] == 2, MAT@[96] == 3, MAT@[108] == 1, MAT@[120] == 1, MAT@[132] == 2,
    ;
    assert(product_entry(INV_MAT@, MAT@, 12, 8, 1) == (INV_MAT@[96] as int) * (MAT@[1] as int) + (INV_MAT@[97] as int) * (MAT@[13] as int) + (INV_MAT@[98] as int) * (MAT@[25] as int) + (INV_MAT@[99] as int) * (MAT@[37] as int) + (INV_MAT@[100] as int) * (MAT@[49] as int) + (INV_MAT@[101] as int) * (MAT@[61] as int) + (INV_MAT@[102] as int) * (MAT@[73] as int) + (INV_MAT@[103] as int) * (MAT@[85] as int) + (INV_MAT@[104] as int) * (MAT@[97] as int) + (INV_MAT@[105] as int) * (MAT@[109] as int) + (INV_MAT@[106] as int) * (MAT@[121] as int) + (INV_MAT@[107] as int) * (MAT@[133] as int));
    assert(((INV_MAT@[96] as int) * (MAT@[1] as int) + (INV_MAT@[97] as int) * (MAT@[13] as int) + (INV_MAT@[98] as int) * (MAT@[25] as int) + (INV_MAT@[99] as int) * (MAT@[37] as int) + (INV_MAT@[100] as int) * (MAT@[49] as int) + (INV_MAT@[101] as int) * (MAT@[61] as int) + (INV_MAT@[102] as int) * (MAT@[73] as int) + (INV_MAT@[103] as int) * (MAT@[85] as int) + (INV_MAT@[104] as int) * (MAT@[97] as int) + (INV_MAT@[105] as int) * (MAT@[109] as int) + (INV_MAT@[106] as int) * (MAT@[121] as int) + (INV_MAT@[107] as int) * (MAT@[133] as int)) % 340282366920938463463374557953744961537 == 0) by (nonlinear_arith)
        requires
            INV_MAT@[96] == 196877655147114396718095279958952442032, INV_MAT@[97] == 332990601915489782103445103140450426647, INV_MAT@[98] == 94792945070832857679082912572828953571, INV_MAT@[99] == 213891773493161319891264007856639690109, INV_MAT@[100] == 196877655147114396718095279958952442032, INV_MAT@[101] == 332990601915489782103445103140450426647, INV_MAT@[102] == 94792945070832857679082912572828953571, INV_MAT@[103] == 213891773493161319891264007856639690109, INV_MAT@[104] == 89931768400533736772463276030632596978, INV_MAT@[105] == 21875295016346044079788364439883604670, INV_MAT@[106] == 55903531708439890426125820235258100824, INV_MAT@[107] == 38889413362392967252957092337570852747, MAT@[1] == 4, MAT@[13] == 6, MAT@[25] == 2, MAT@[37] == 2, MAT@[49] == 2, MAT@[61] == 3, MAT@[73] == 1, MAT@[85] == 1, MAT@[97] == 2, MAT@[109] == 3, MAT@[121] == 1, MAT@[133] == 1,
    ;
    assert(product_entry(INV_MAT@, MAT@, 12, 8, 2) == (INV_MAT@[96] as int) * (MAT@[2] as int) + (INV_MAT@[97] as int) * (MAT@[14] as int) + (INV_MAT@[98] as int) * (MAT@[26] as int) + (INV_MAT@[99] as int) * (MAT@[38] as int) + (INV_MAT@[100] as int) * (MAT@[50] as int) + (INV_MAT@[101] as int) * (MAT@[62] as int) + (INV_MAT@[102] as int) * (MAT@[74] as int) + (INV_MAT@[103] as int) * (MAT@[86] as int) + (INV_MAT@[104] as int) * (MAT@[98] as int) + (INV_MAT@[105] as int) * (MAT@[110] as int) + (INV_MAT@[106] as int) * (MAT@[122] as int) + (INV_MAT@[107] as int) * (MAT@[134] as int));
    assert(((INV_MAT@[96] as int) * (MAT@[2] as int) + (INV_MAT@[97] as int) * (MAT@[14] as int) + (INV_MAT@[98] as int) * (MAT@[26] as int) + (INV_MAT@[99] as int) * (MAT@[38] as int) + (INV_MAT@[100] as int) * (MAT@[50] as int) + (INV_MAT@[101] as int) * (MAT@[62] as int) + (INV_MAT@[102] as int) * (MAT@[74] as int) + (INV_MAT@[103] as int) * (MAT@[86] as int) + (INV_MAT@[104] as int) * (MAT@[98] as int) + (INV_MAT@[105] as int) * (MAT@[110] as int) + (INV_MAT@[106] as int) * (MAT@[122] as int) + (INV_MAT@[107] as int) * (MAT@[134] as int)) % 340282366920938463463374557953744961537 == 0) by (nonlinear_arith)
        requires
            INV_MAT@[96] == 196877655147114396718095279958952442032, INV_MAT@[97] == 332990601915489782103445103140450426647, INV_MAT@[98] == 94792945070832857679082912572828953571, INV_MAT@[99] == 213891773493161319891264007856639690109, INV_MAT@[100] == 196877655147114396718095279958952442032, INV_MAT@[101] == 332990601915489782103445103140450426647, INV_MAT@[102] == 94792945070832857679082912572828953571, INV_MAT@[103] == 213891773493161319891264007856639690109, INV_MAT@[104] == 89931768400533736772463276030632596978, INV_MAT@[105] == 21875295016346044079788364439883604670, INV_MAT@[106] == 55903531708439890426125820235258100824, INV_MAT@[107] == 38889413362392967252957092337570852747, MAT@[2] == 2, MAT@[14] == 4, MAT@[26] == 6, MAT@[38] == 2, MAT@[50] == 1, MAT@[62] == 2, MAT@[74] == 3, MAT@[86] == 1, MAT@[98] == 1, MAT@[110] == 2, MAT@[122] == 3, MAT@[134] == 1,
    ;
    assert(product_entry(INV_MAT@, MAT@, 12, 8, 3) == (INV_MAT@[96] as int) * (MAT@[3] as int) + (INV_MAT@[97] as int) * (MAT@[15] as int) + (INV_MAT@[98] as int) * (MAT@[27] as int) + (INV_MAT@[99] as int) * (MAT@[39] as int) + (INV_MAT@[100] as int) * (MAT@[51] as int) + (INV_MAT@[101] as int) * (MAT@[63] as int) + (INV_MAT@[102] as int) * (MAT@[75] as int) + (INV_MAT@[103] as int) * (MAT@[87] as int) + (INV_MAT@[104] as int) * (MAT@[99] as int) + (INV_MAT@[105] as int) * (MAT@[111] as int) + (INV_MAT@[106] as int) * (MAT@[123] as int) + (INV_MAT@[107] as int) * (MAT@[135] as int));
    assert(((INV_MAT@[96] as int) * (MAT@[3] as int) + (INV_MAT@[97] as int) * (MAT@[15] as int) + (INV_MAT@[98] as int) * (MAT@[27] as int) + (INV_MAT@[99] as int) * (MAT@[39] as int) + (INV_MAT@[100] as int) * (MAT@[51] as int) + (INV_MAT@[101] as int) * (MAT@[63] as int) + (INV_MAT@[102] as int) * (MAT@[75] as int) + (INV_MAT@[103] as int) * (MAT@[87] as int) + (INV_MAT@[104] as int) * (MAT@[99] as int) + (INV_MAT@[105] as int) * (MAT@[111] as int) + (INV_MAT@[106] as int) * (MAT@[123] as int) + (INV_MAT@[107] as int) * (MAT@[135] as int)) % 340282366920938463463374557953744961537 == 0) by (nonlinear_arith)
        requires
            INV_MAT@[96] == 196877655147114396718095279958952442032, INV_MAT@[97] == 332990601915489782103445103140450426647, INV_MAT@[98] == 94792945070832857679082912572828953571, INV_MAT@[99] == 213891773493161319891264007856639690109, INV_MAT@[100] == 196877655147114396718095279958952442032, INV_MAT@[101] == 332990601915489782103445103140450426647, INV_MAT@[102] == 94792945070832857679082912572828953571, INV_MAT@[103] == 213891773493161319891264007856639690109, INV_MAT@[104] == 89931768400533736772463276030632596978, INV_MAT@[105] == 21875295016346044079788364439883604670, INV_MAT@[106] == 55903531708439890426125820235258100824, INV_MAT@[107] == 38889413362392967252957092337570852747, MAT@[3] == 2, MAT@[15] == 2, MAT@[27] == 4, MAT@[39] == 6, MAT@[51] == 1, MAT@[63] == 1, MAT@[75] == 2, MAT@[87] == 3, MAT@[99] == 1, MAT@[111] == 1, MAT@[123] == 2, MAT@[135] == 3,
    ;
    assert(product_entry(INV_MAT@, MAT@, 12, 8, 4) == (INV_MAT@[96] as int) * (MAT@[4] as int) + (INV_MAT@[97] as int) * (MAT@[16] as int) + (INV_MAT@[98] as int) * (MAT@[28] as int) + (INV_MAT@[99] as int) * (MAT@[40] as int) + (INV_MAT@[100] as int) * (MAT@[52] as int) + (INV_MAT@[101] as int) * (MAT@[64] as int) + (INV_MAT@[102] as int) * (MAT@[76] as int) + (INV_MAT@[103] as int) * (MAT@[88] as int) + (INV_MAT@[104] as int) * (MAT@[100] as int) + (INV_MAT@[105] as int) * (MAT@[112] as int) + (INV_MAT@[106] as int) * (MAT@[124] as int) + (INV_MAT@[107] as int) * (MAT@[136] as int));
    assert(((INV_MAT@[96] as int) * (MAT@[4] as int) + (INV_MAT@[97] as int) * (MAT@[16] as int) + (INV_MAT@[98] as int) * (MAT@[28] as int) + (INV_MAT@[99] as int) * (MAT@[40] as int) + (INV_MAT@[100] as int) * (MAT@[52] as int) + (INV_MAT@[101] as int) * (MAT@[64] as int) + (INV_MAT@[102] as int) * (MAT@[76] as int) + (INV_MAT@[103] as int) * (MAT@[88] as int) + (INV_MAT@[104] as int) * (MAT@[100] as int) + (INV_MAT@[105] as int) * (MAT@[112] as int) + (INV_MAT@[106] as int) * (MAT@[124] as int) + (INV_MAT@[107] as int) * (MAT@[136] as int)) % 340282366920938463463374557953744961537 == 0) by (nonlinear_arith)
        requires
            INV_MAT@[96] == 196877655147114396718095279958952442032, INV_MAT@[97] == 332990601915489782103445103140450426647, INV_MAT@[98] == 94792945070832857679082912572828953571, INV_MAT@[99] == 213891773493161319891264007856639690109, INV_MAT@[100] == 196877655147114396718095279958952442032, INV_MAT@[101] == 332990601915489782103445103140450426647, INV_MAT@[102] == 94792945070832857679082912572828953571, INV_MAT@[103] == 213891773493161319891264007856639690109, INV_MAT@[104] == 89931768400533736772463276030632596978, INV_MAT@[105] == 21875295016346044079788364439883604670, INV_MAT@[106] == 55903531708439890426125820235258100824, INV_MAT@[107] == 38889413362392967252957092337570852747, MAT@[4] == 3, MAT@[16] == 1, MAT@[28] == 1, MAT@[40] == 2, MAT@[52] == 6, MAT@[64] == 2, MAT@[76] == 2, MAT@[88] == 4, MAT@[100] == 3, MAT@[112] == 1, MAT@[124] == 1, MAT@[136] == 2,
    ;
    assert(product_entry(INV_MAT@, MAT@, 12, 8, 5) == (INV_MAT@[96] as int) * (MAT@[5] as int) + (INV_MAT@[97] as int) * (MAT@[17] as int) + (INV_MAT@[98] as int) * (MAT@[29] as int) + (INV_MAT@[99] as int) * (MAT@[41] as int) + (INV_MAT@[100] as int) * (MAT@[53] as int) + (INV_MAT@[101] as int) * (MAT@[65] as int) + (INV_MAT@[102] as int) * (MAT@[77] as int) + (INV_MAT@[103] as int) * (MAT@[89] as int) + (INV_MAT@[104] as int) * (MAT@[101] as int) + (INV_MAT@[105] as int) * (MAT@[113] as int) + (INV_MAT@[106] as int) * (MAT@[125] as int) + (INV_MAT@[107] as int) * (MAT@[137] as int));
    assert(((INV_MAT@[96] as int) * (MAT@[5] as int) + (INV_MAT@[97] as int) * (MAT@[17] as int) + (INV_MAT@[98] as int) * (MAT@[29] as int) + (INV_MAT@[99] as int) * (MAT@[41] as int) + (INV_MAT@[100] as int) * (MAT@[53] as int) + (INV_MAT@[101] as int) * (MAT@[65] as int) + (INV_MAT@[102] as int) * (MAT@[77] as int) + (INV_MAT@[103] as int) * (MAT@[89] as int) + (INV_MAT@[104] as int) * (MAT@[101] as int) + (INV_MAT@[105] as int) * (MAT@[113] as int) + (INV_MAT@[106] as int) * (MAT@[125] as int) + (INV_MAT@[107] as int) * (MAT@[137] as int)) % 340282366920938463463374557953744961537 == 0) by (nonlinear_arith)
        requires
            INV_MAT@[96] == 196877655147114396718095279958952442032, INV_MAT@[97] == 332990601915489782103445103140450426647, INV_MAT@[98] == 94792945070832857679082912572828953571, INV_MAT@[99] == 213891773493161319891264007856639690109, INV_MAT@[100] == 196877655147114396718095279958952442032, INV_MAT@[101] == 332990601915489782103445103140450426647, INV_MAT@[102] == 94792945070832857679082912572828953571, INV_MAT@[103] == 213891773493161319891264007856639690109, INV_MAT@[104] == 89931768400533736772463276030632596978, INV_MAT@[105] == 21875295016346044079788364439883604670, INV_MAT@[106] == 55903531708439890426125820235258100824, INV_MAT@[107] == 38889413362392967252957092337570852747, MAT@[5] == 2, MAT@[17] == 3, MAT@[29] == 1, MAT@[41] == 1, MAT@[53] == 4, MAT@[65] == 6, MAT@[77] == 2, MAT@[89] == 2, MAT@[101] == 2, MAT@[113] == 3, MAT@[125] == 1, MAT@[137] == 1,
    ;
    assert(product_entry(INV_MAT@, MAT@, 12, 8, 6) == (INV_MAT@[96] as int) * (MAT@[6] as int) + (INV_MAT@[97] as int) * (MAT@[18] as int) + (INV_MAT@[98] as int) * (MAT@[30] as int) + (INV_MAT@[99] as int) * (MAT@[42] as int) + (INV_MAT@[100] as int) * (MAT@[54] as int) + (INV_MAT@[101] as int) * (MAT@[66] as int) + (INV_MAT@[102] as int) * (MAT@[78] as int) + (INV_MAT@[103] as int) * (MAT@[90] as int) + (INV_MAT@[104] as int) * (MAT@[102] as int) + (INV_MAT@[105] as int) * (MAT@[114] as int) + (INV_MAT@[106] as int) * (MAT@[126] as int) + (INV_MAT@[107] as int) * (MAT@[138] as int));
    assert(((INV_MAT@[96] as int) * (MAT@[6] as int) + (INV_MAT@[97] as int) * (MAT@[18] as int) + (INV_MAT@[98] as int) * (MAT@[30] as int) + (INV_MAT@[99] as int) * (MAT@[42] as int) + (INV_MAT@[100] as int) * (MAT@[54] as int) + (INV_MAT@[101] as int) * (MAT@[66] as int) + (INV_MAT@[102] as int) * (MAT@[78] as int) + (INV_MAT@[103] as int) * (MAT@[90] as int) + (INV_MAT@[104] as int) * (MAT@[102] as int) + (INV_MAT@[105] as int) * (MAT@[114] as int) + (INV_MAT@[106] as int) * (MAT@[126] as int) + (INV_MAT@[107] as int) * (MAT@[138] as int)) % 340282366920938463463374557953744961537 == 0) by (nonlinear_arith)
        requires
            INV_MAT@[96] == 196877655147114396718095279958952442032, INV_MAT@[97] == 332990601915489782103445103140450426647, INV_MAT@[98] == 94792945070832857679082912572828953571, INV_MAT@[99] == 213891773493161319891264007856639690109, INV_MAT@[100] == 196877655147114396718095279958952442032, INV_MAT@[101] == 332990601915489782103445103140450426647, INV_MAT@[102] == 94792945070832857679082912572828953571, INV_MAT@[103] == 213891773493161319891264007856639690109, INV_MAT@[104] == 89931768400533736772463276030632596978, INV_MAT@[105] == 21875295016346044079788364439883604670, INV_MAT@[106] == 55903531708439890426125820235258100824, INV_MAT@[107] == 38889413362392967252957092337570852747, MAT@[6] == 1, MAT@[18] == 2, MAT@[30] == 3, MAT@[42] == 1, MAT@[54] == 2, MAT@[66] == 4, MAT@[78] == 6, MAT@[90] == 2, MAT@[102] == 1, MAT@[114] == 2, MAT@[126] == 3, MAT@[138] == 1,
    ;
    assert(product_entry(INV_MAT@, MAT@, 12, 8, 7) == (INV_MAT@[96] as int) * (MAT@[7] as int) + (INV_MAT@[97] as int) * (MAT@[19] as int) + (INV_MAT@[98] as int) * (MAT@[31] as int) + (INV_MAT@[99] as int) * (MAT@[43] as int) + (INV_MAT@[100] as int) * (MAT@[55] as int) + (INV_MAT@[101] as int) * (MAT@[67] as int) + (INV_MAT@[102] as int) * (MAT@[79] as int) + (INV_MAT@[103] as int) * (MAT@[91] as int) + (INV_MAT@[104] as int) * (MAT@[103] as int) + (INV_MAT@[105] as int) * (MAT@[115] as int) + (INV_MAT@[106] as int) * (MAT@[127] as int) + (INV_MAT@[107] as int) * (MAT@[139] as int));
    assert(((INV_MAT@[96] as int) * (MAT@[7] as int) + (INV_MAT@[97] as int) * (MAT@[19] as int) + (INV_MAT@[98] as int) * (MAT@[31] as int) + (INV_MAT@[99] as int) * (MAT@[43] as int) + (INV_MAT@[100] as int) * (MAT@[55] as int) + (INV_MAT@[101] as int) * (MAT@[67] as int) + (INV_MAT@[102] as int) * (MAT@[79] as int) + (INV_MAT@[103] as int) * (MAT@[91] as int) + (INV_MAT@[104] as int) * (MAT@[103] as int) + (INV_MAT@[105] as int) * (MAT@[115] as int) + (INV_MAT@[106] as int) * (MAT@[127] as int) + (INV_MAT@[107] as int) * (MAT@[139] as int)) % 340282366920938463463374557953744961537 == 0) by (nonlinear_arith)
        requires
            INV_MAT@[96] == 196877655147114396718095279958952442032, INV_MAT@[97] == 332990601915489782103445103140450426647, INV_MAT@[98] == 94792945070832857679082912572828953571, INV_MAT@[99] == 213891773493161319891264007856639690109, INV_MAT@[100] == 196877655147114396718095279958952442032, INV_MAT@[101] == 332990601915489782103445103140450426647, INV_MAT@[102] == 94792945070832857679082912572828953571, INV_MAT@[103] == 213891773493161319891264007856639690109, INV_MAT@[104] == 89931768400533736772463276030632596978, INV_MAT@[105] == 21875295016346044079788364439883604670, INV_MAT@[106] == 55903531708439890426125820235258100824, INV_MAT@[107] == 38889413362392967252957092337570852747, MAT@[7] == 1, MAT@[19] == 1, MAT@[31] == 2, MAT@[43] == 3, MAT@[55] == 2, MAT@[67] == 2, MAT@[79] == 4, MAT@[91] == 6, MAT@[103] == 1, MAT@[115] == 1, MAT@[127] == 2, MAT@[139] == 3,
    ;
    assert(product_entry(INV_MAT@, MAT@, 12, 8, 8) == (INV_MAT@[96] as int) * (MAT@[8] as int) + (INV_MAT@[97] as int) * (MAT@[20] as int) + (INV_MAT@[98] as int) * (MAT@[32] as int) + (INV_MAT@[99] as int) * (MAT@[44] as int) + (INV_MAT@[100] as int) * (MAT@[56] as int) + (INV_MAT@[101] as int) * (MAT@[68] as int) + (INV_MAT@[102] as int) * (MAT@[80] as int) + (INV_MAT@[103] as int) * (MAT@[92] as int) + (INV_MAT@[104] as int) * (MAT@[104] as int) + (INV_MAT@[105] as int) * (MAT@[116] as int) + (INV_MAT@[106] as int) * (MAT@[128] as int) + (INV_MAT@[107] as int) * (MAT@[140] as int));
    assert(((INV_MAT@[96] as int) * (MAT@[8] as int) + (INV_MAT@[97] as int) * (MAT@[20] as int) + (INV_MAT@[98] as int) * (MAT@[32] as int) + (INV_MAT@[99] as int) * (MAT@[44] as int) + (INV_MAT@[100] as int) * (MAT@[56] as int) + (INV_MAT@[101] as int) * (MAT@[68] as int) + (INV_MAT@[102] as int) * (MAT@[80] as int) + (INV_MAT@[103] as int) * (MAT@[92] as int) + (INV_MAT@[104] as int) * (MAT@[104] as int) + (INV_MAT@[105] as int) * (MAT@[116] as int) + (INV_MAT@[106] as int) * (MAT@[128] as int) + (INV_MAT@[107] as int) * (MAT@[140] as int)) % 340282366920938463463374557953744961537 == 1) by (nonlinear_arith)
        requires
            INV_MAT@[96] == 196877655147114396718095279958952442032, INV_MAT@[97] == 332990601915489782103445103140450426647, INV_MAT@[98] == 94792945070832857679082912572828953571, INV_MAT@[99] == 213891773493161319891264007856639690109, INV_MAT@[100] == 196877655147114396718095279958952442032, INV_MAT@[101] == 332990601915489782103445103140450426647, INV_MAT@[102] == 94792945070832857679082912572828953571, INV_MAT@[103] == 213891773493161319891264007856639690109, INV_MAT@[104] == 89931768400533736772463276030632596978, INV_MAT@[105] == 21875295016346044079788364439883604670, INV_MAT@[106] == 55903531708439890426125820235258100824, INV_MAT@[107] == 38889413362392967252957092337570852747, MAT@[8] == 3, MAT@[20] == 1, MAT@[32] == 1, MAT@[44] == 2, MAT@[56] == 3, MAT@[68] == 1, MAT@[80] == 1, MAT@[92] == 2, MAT@[104] == 6, MAT@[116] == 2, MAT@[128] == 2, MAT@[140] == 4,
    ;
    assert(product_entry(INV_MAT@, MAT@, 12, 8, 9) == (INV_MAT@[96] as int) * (MAT@[9] as int) + (INV_MAT@[97] as int) * (MAT@[21] as int) + (INV_MAT@[98] as int) * (MAT@[33] as int) + (INV_MAT@[99] as int) * (MAT@[45] as int) + (INV_MAT@[100] as int) * (MAT@[57] as int) + (INV_MAT@[101] as int) * (MAT@[69] as int) + (INV_MAT@[102] as int) * (MAT@[81] as int) + (INV_MAT@[103] as int) * (MAT@[93] as int) + (INV_MAT@[104] as int) * (MAT@[105] as int) + (INV_MAT@[105] as int) * (MAT@[117] as int) + (INV_MAT@[106] as int) * (MAT@[129] as int) + (INV_MAT@[107] as int) * (MAT@[141] as int));
    assert(((INV_MAT@[96] as int) * (MAT@[9] as int) + (INV_MAT@[97] as int) * (MAT@[21] as int) + (INV_MAT@[98] as int) * (MAT@[33] as int) + (INV_MAT@[99] as int) * (MAT@[45] as int) + (INV_MAT@[100] as int) * (MAT@[57] as int) + (INV_MAT@[101] as int) * (MAT@[69] as int) + (INV_MAT@[102] as int) * (MAT@[81] as int) + (INV_MAT@[103] as int) * (MAT@[93] as int) + (INV_MAT@[104] as int) * (MAT@[105] as int) + (INV_MAT@[105] as int) * (MAT@[117] as int) + (INV_MAT@[106] as int) * (MAT@[129] as int) + (INV_MAT@[107] as int) * (MAT@[141] as int)) % 340282366920938463463374557953744961537 == 0) by (nonlinear_arith)
        requires
            INV_MAT@[96] == 196877655147114396718095279958952442032, INV_MAT@[97] == 332990601915489782103445103140450426647, INV_MAT@[98] == 94792945070832857679082912572828953571, INV_MAT@[99] == 213891773493161319891264007856639690109, INV_MAT@[100] == 196877655147114396718095279958952442032, INV_MAT@[101] == 332990601915489782103445103140450426647, INV_MAT@[102] == 94792945070832857679082912572828953571, INV_MAT@[103] == 213891773493161319891264007856639690109, INV_MAT@[104] == 89931768400533736772463276030632596978, INV_MAT@[105] == 21875295016346044079788364439883604670, INV_MAT@[106] == 55903531708439890426125820235258100824, INV_MAT@[107] == 38889413362392967252957092337570852747, MAT@[9] == 2, MAT@[21] == 3, MAT@[33] == 1, MAT@[45] == 1, MAT@[57] == 2, MAT@[69] == 3, MAT@[81] == 1, MAT@[93] == 1, MAT@[105] == 4, MAT@[117] == 6, MAT@[129] == 2, MAT@[141] == 2,
    ;
    assert(product_entry(INV_MAT@, MAT@, 12, 8, 10) == (INV_MAT@[96] as int) * (MAT@[10] as int) + (INV_MAT@[97] as int) * (MAT@[22] as int) + (INV_MAT@[98] as int) * (MAT@[34] as int) + (INV_MAT@[99] as int) * (MAT@[46] as int) + (INV_MAT@[100] as int) * (MAT@[58] as int) + (INV_MAT@[101] as int) * (MAT@[70] as int) + (INV_MAT@[102] as int) * (MAT@[82] as int) + (INV_MAT@[103] as int) * (MAT@[94] as int) + (INV_MAT@[104] as int) * (MAT@[106] as int) + (INV_MAT@[105] as int) * (MAT@[118] as int) + (INV_MAT@[106] as int) * (MAT@[130] as int) + (INV_MAT@[107] as int) * (MAT@[142] as int));
    assert(((INV_MAT@[96] as int) * (MAT@[10] as int) + (INV_MAT@[97] as int) * (MAT@[22] as int) + (INV_MAT@[98] as int) * (MAT@[34] as int) + (INV_MAT@[99] as int) * (MAT@[46] as int) + (INV_MAT@[100] as int) * (MAT@[58] as int) + (INV_MAT@[101] as int) * (MAT@[70] as int) + (INV_MAT@[102] as int) * (MAT@[82] as int) + (INV_MAT@[103] as int) * (MAT@[94] as int) + (INV_MAT@[104] as int) * (MAT@[106] as int) + (INV_MAT@[105] as int) * (MAT@[118] as int) + (INV_MAT@[106] as int) * (MAT@[130] as int) + (INV_MAT@[107] as int) * (MAT@[142] as int)) % 340282366920938463463374557953744961537 == 0) by (nonlinear_arith)
        requires
            INV_MAT@[96] == 196877655147114396718095279958952442032, INV_MAT@[97] == 332990601915489782103445103140450426647, INV_MAT@[98] == 94792945070832857679082912572828953571, INV_MAT@[99] == 213891773493161319891264007856639690109, INV_MAT@[100] == 196877655147114396718095279958952442032, INV_MAT@[101] == 332990601915489782103445103140450426647, INV_MAT@[102] == 94792945070832857679082912572828953571, INV_MAT@[103] == 213891773493161319891264007856639690109, INV_MAT@[104] == 89931768400533736772463276030632596978, INV_MAT@[105] == 21875295016346044079788364439883604670, INV_MAT@[106] == 55903531708439890426125820235258100824, INV_MAT@[107] == 38889413362392967252957092337570852747, MAT@[10] == 1, MAT@[22] == 2, MAT@[34] == 3, MAT@[46] == 1, MAT@[58] == 1, MAT@[70] == 2, MAT@[82] == 3, MAT@[94] == 1, MAT@[106] == 2, MAT@[118] == 4, MAT@[130] == 6, MAT@[142] == 2,
    ;
    assert(product_entry(INV_MAT@, MAT@, 12, 8, 11) == (INV_MAT@[96] as int) * (MAT@[11] as int) + (INV_MAT@[97] as int) * (MAT@[23] as int) + (INV_MAT@[98] as int) * (MAT@[35] as int) + (INV_MAT@[99] as int) * (MAT@[47] as int) + (INV_MAT@[100] as int) * (MAT@[59] as int) + (INV_MAT@[101] as int) * (MAT@[71] as int) + (INV_MAT@[102] as int) * (MAT@[83] as int) + (INV_MAT@[103] as int) * (MAT@[95] as int) + (INV_MAT@[104] as int) * (MAT@[107] as int) + (INV_MAT@[105] as int) * (MAT@[119] as int) + (INV_MAT@[106] as int) * (MAT@[131] as int) + (INV_MAT@[107] as int) * (MAT@[143] as int));
    assert(((INV_MAT@[96] as int) * (MAT@[11] as int) + (INV_MAT@[97] as int) * (MAT@[23] as int) + (INV_MAT@[98] as int) * (MAT@[35] as int) + (INV_MAT@[99] as int) * (MAT@[47] as int) + (INV_MAT@[100] as int) * (MAT@[59] as int) + (INV_MAT@[101] as int) * (MAT@[71] as int) + (INV_MAT@[102] as int) * (MAT@[83] as int) + (INV_MAT@[103] as int) * (MAT@[95] as int) + (INV_MAT@[104] as int) * (MAT@[107] as int) + (INV_MAT@[105] as int) * (MAT@[119] as int) + (INV_MAT@[106] as int) * (MAT@[131] as int) + (INV_MAT@[107] as int) * (MAT@[143] as int)) % 340282366920938463463374557953744961537 == 0) by (nonlinear_arith)
        requires
            INV_MAT@[96] == 196877655147114396718095279958952442032, INV_MAT@[97] == 332990601915489782103445103140450426647, INV_MAT@[98] == 94792945070832857679082912572828953571, INV_MAT@[99] == 213891773493161319891264007856639690109, INV_MAT@[100] == 196877655147114396718095279958952442032, INV_MAT@[101] == 332990601915489782103445103140450426647, INV_MAT@[102] == 94792945070832857679082912572828953571, INV_MAT@[103] == 213891773493161319891264007856639690109, INV_MAT@[104] == 89931768400533736772463276030632596978, INV_MAT@[105] == 21875295016346044079788364439883604670, INV_MAT@[106] == 55903531708439890426125820235258100824, INV_MAT@[107] == 38889413362392967252957092337570852747, MAT@[11] == 1, MAT@[23] == 1, MAT@[35] == 2, MAT@[47] == 3, MAT@[59] == 1, MAT@[71] == 1, MAT@[83] == 2, MAT@[95] == 3, MAT@[107] == 2, MAT@[119] == 2, MAT@[131] == 4, MAT@[143] == 6,
    ;
}

proof fn lemma_product_backward_row_9()
    ensures
        identity_row(Elem::modulus(), INV_MAT@, MAT@, 12, 9, 12),
{
    reveal_with_fuel(sum, 13);
    reveal_with_fuel(identity_row, 13);
    assert(product_entry(INV_MAT@, MAT@, 12, 9, 0) == (INV_MAT@[108] as int) * (MAT@[0] as int) + (INV_MAT@[109] as int) * (MAT@[12] as int) + (INV_MAT@[110] as int) * (MAT@[24] as int) + (INV_MAT@[111] as int) * (MAT@[36] as int) + (INV_MAT@[112] as int) * (MAT@[48] as int) + (INV_MAT@[113] as int) * (MAT@[60] as int) + (INV_MAT@[114] as int) * (MAT@[72] as int) + (INV_MAT@[115] as int) * (MAT@[84] as int) + (INV_MAT@[116] as int) * (MAT@[96] as int) + (INV_MAT@[117] as int) * (MAT@[108] as int) + (INV_MAT@[118] as int) * (MAT@[120] as int) + (INV_MAT@[119] as int) * (MAT@[132] as int));
    assert(((INV_MAT@[108] as int) * (MAT@[0] as int) + (INV_MAT@[109] as int) * (MAT@[12] as int) + (INV_MAT@[110] as int) * (MAT@[24] as int) + (INV_MAT@[111] as int) * (MAT@[36] as int) + (INV_MAT@[112] as int) * (MAT@[48] as int) + (INV_MAT@[113] as int) * (MAT@[60] as int) + (INV_MAT@[114] as int) * (MAT@[72] as int) + (INV_MAT@[115] as int) * (MAT@[84] as int) + (INV_MAT@[116] as int) * (MAT@[96] as int) + (INV_MAT@[117] as int) * (MAT@[108] as int) + (INV_MAT@[118] as int) * (MAT@[120] as int) + (INV_MAT@[119] as int) * (MAT@[132] as int)) % 340282366920938463463374557953744961537 == 0) by (nonlinear_arith)
        requires
            INV_MAT@[108] == 213891773493161319891264007856639690109, INV_MAT@[109] == 196877655147114396718095279958952442032, INV_MAT@[110] == 332990601915489782103445103140450426647, INV_MAT@[111] == 94792945070832857679082912572828953571, INV_MAT@[112] == 213891773493161319891264007856639690109, INV_MAT@[113] == 196877655147114396718095279958952442032, INV_MAT@[114] == 332990601915489782103445103140450426647, INV_MAT@[115] == 94792945070832857679082912572828953571, INV_MAT@[116] == 38889413362392967252957092337570852747, INV_MAT@[117] == 89931768400533736772463276030632596978, INV_MAT@[118] == 21875295016346044079788364439883604670, INV_MAT@[119] == 55903531708439890426125820235258100824, MAT@[0] == 6, MAT@[12] == 2, MAT@[24] == 2, MAT@[36] == 4, MAT@[48] == 3, MAT@[60] == 1, MAT@[72] == 1, MAT@[84] == 2, MAT@[96] == 3, MAT@[108] == 1, MAT@[120] == 1, MAT@[132] == 2,
    ;
    assert(product_entry(INV_MAT@, MAT@, 12, 9, 1) == (INV_MAT@[108] as int) * (MAT@[1] as int) + (INV_MAT@[109] as int) * (MAT@[13] as int) + (INV_MAT@[110] as int) * (MAT@[25] as int) + (INV_MAT@[111] as int) * (MAT@[37] as int) + (INV_MAT@[112] as int) * (MAT@[49] as int) + (INV_MAT@[113] as int) * (MAT@[61] as int) + (INV_MAT@[114] as int) * (MAT@[73] as int) + (INV_MAT@[115] as int) * (MAT@[85] as int) + (INV_MAT@[116] as int) * (MAT@[97] as int) + (INV_MAT@[117] as int) * (MAT@[109] as int) + (INV_MAT@[118] as int) * (MAT@[121] as int) + (INV_MAT@[119] as int) * (MAT@[133] as int));
    assert(((INV_MAT@[108] as int) * (MAT@[1] as int) + (INV_MAT@[109] as int) * (MAT@[13] as int) + (INV_MAT@[110] as int) * (MAT@[25] as int) + (INV_MAT@[111] as int) * (MAT@[37] as int) + (INV_MAT@[112] as int) * (MAT@[49] as int) + (INV_MAT@[113] as int) * (MAT@[61] as int) + (INV_MAT@[114] as int) * (MAT@[73] as int) + (INV_MAT@[115] as int) * (MAT@[85] as int) + (INV_MAT@[116] as int) * (MAT@[97] as int) + (INV_MAT@[117] as int) * (MAT@[109] as int) + (INV_MAT@[118] as int) * (MAT@[121] as int) + (INV_MAT@[119] as int) * (MAT@[133] as int)) % 340282366920938463463374557953744961537 == 0) by (nonlinear_arith)
        requires
            INV_MAT@[108] == 213891773493161319891264007856639690109, INV_MAT@[109] == 196877655147114396718095279958952442032, INV_MAT@[110] == 332990601915489782103445103140450426647, INV_MAT@[111] == 94792945070832857679082912572828953571, INV_MAT@[112] == 213891773493161319891264007856639690109, INV_MAT@[113] == 196877655147114396718095279958952442032, INV_MAT@[114] == 332990601915489782103445103140450426647, INV_MAT@[115] == 94792945070832857679082912572828953571, INV_MAT@[116] == 38889413362392967252957092337570852747, INV_MAT@[117] == 89931768400533736772463276030632596978, INV_MAT@[118] == 21875295016346044079788364439883604670, INV_MAT@[119] == 55903531708439890426125820235258100824, MAT@[1] == 4, MAT@[13] == 6, MAT@[25] == 2, MAT@[37] == 2, MAT@[49] == 2, MAT@[61] == 3, MAT@[73] == 1, MAT@[85] == 1, MAT@[97] == 2, MAT@[109] == 3, MAT@[121] == 1, MAT@[133] == 1,
    ;
    assert(product_entry(INV_MAT@, MAT@, 12, 9, 2) == (INV_MAT@[108] as int) * (MAT@[2] as int) + (INV_MAT@[109] as int) * (MAT@[14] as int) + (INV_MAT@[110] as int) * (MAT@[26] as int) + (INV_MAT@[111] as int) * (MAT@[38] as int) + (INV_MAT@[112] as int) * (MAT@[50] as int) + (INV_MAT@[113] as int) * (MAT@[62] as int) + (INV_MAT@[114] as int) * (MAT@[74] as int) + (INV_MAT@[115] as int) * (MAT@[86] as int) + (INV_MAT@[116] as int) * (MAT@[98] as int) + (INV_MAT@[117] as int) * (MAT@[110] as int) + (INV_MAT@[118] as int) * (MAT@[122] as int) + (INV_MAT@[119] as int) * (MAT@[134] as int));
    assert(((INV_MAT@[108] as int) * (MAT@[2] as int) + (INV_MAT@[109] as int) * (MAT@[14] as int) + (INV_MAT@[110] as int) * (MAT@[26] as int) + (INV_MAT@[111] as int) * (MAT@[38] as int) + (INV_MAT@[112] as int) * (MAT@[50] as int) + (INV_MAT@[113] as int) * (MAT@[62] as int) + (INV_MAT@[114] as int) * (MAT@[74] as int) + (INV_MAT@[115] as int) * (MAT@[86] as int) + (INV_MAT@[116] as int) * (MAT@[98] as int) + (INV_MAT@[117] as int) * (MAT@[110] as int) + (INV_MAT@[118] as int) * (MAT@[122] as int) + (INV_MAT@[119] as int) * (MAT@[134] as int)) % 340282366920938463463374557953744961537 == 0) by (nonlinear_arith)
        requires
            INV_MAT@[108] == 213891773493161319891264007856639690109, INV_MAT@[109] == 196877655147114396718095279958952442032, INV_MAT@[110] == 332990601915489782103445103140450426647, INV_MAT@[111] == 94792945070832857679082912572828953571, INV_MAT@[112] == 213891773493161319891264007856639690109, INV_MAT@[113] == 196877655147114396718095279958952442032, INV_MAT@[114] == 332990601915489782103445103140450426647, INV_MAT@[115] == 94792945070832857679082912572828953571, INV_MAT@[116] == 38889413362392967252957092337570852747, INV_MAT@[117] == 89931768400533736772463276030632596978, INV_MAT@[118] == 21875295016346044079788364439883604670, INV_MAT@[119] == 55903531708439890426125820235258100824, MAT@[2] == 2, MAT@[14] == 4, MAT@[26] == 6, MAT@[38] == 2, MAT@[50] == 1, MAT@[62] == 2, MAT@[74] == 3, MAT@[86] == 1, MAT@[98] == 1, MAT@[110] == 2, MAT@[122] == 3, MAT@[134] == 1,
    ;
    assert(product_entry(INV_MAT@, MAT@, 12, 9, 3) == (INV_MAT@[108] as int) * (MAT@[3] as int) + (INV_MAT@[109] as int) * (MAT@[15] as int) + (INV_MAT@[110] as int) * (MAT@[27] as int) + (INV_MAT@[111] as int) * (MAT@[39] as int) + (INV_MAT@[112] as int) * (MAT@[51] as int) + (INV_MAT@[113] as int) * (MAT@[63] as int) + (INV_MAT@[114] as int) * (MAT@[75] as int) + (INV_MAT@[115] as int) * (MAT@[87] as int) + (INV_MAT@[116] as int) * (MAT@[99] as int) + (INV_MAT@[117] as int) * (MAT@[111] as int) + (INV_MAT@[118] as int) * (MAT@[123] as int) + (INV_MAT@[119] as int) * (MAT@[135] as int));
    assert(((INV_MAT@[108] as int) * (MAT@[3] as int) + (INV_MAT@[109] as int) * (MAT@[15] as int) + (INV_MAT@[110] as int) * (MAT@[27] as int) + (INV_MAT@[111] as int) * (MAT@[39] as int) + (INV_MAT@[112] as int) * (MAT@[51] as int) + (INV_MAT@[113] as int) * (MAT@[63] as int) + (INV_MAT@[114] as int) * (MAT@[75] as int) + (INV_MAT@[115] as int) * (MAT@[87] as int) + (INV_MAT@[116] as int) * (MAT@[99] as int) + (INV_MAT@[117] as int) * (MAT@[111] as int) + (INV_MAT@[118] as int) * (MAT@[123] as int) + (INV_MAT@[119] as int) * (MAT@[135] as int)) % 340282366920938463463374557953744961537 == 0) by (nonlinear_arith)
        requires
            INV_MAT@[108] == 213891773493161319891264007856639690109, INV_MAT@[109] == 196877655147114396718095279958952442032, INV_MAT@[110] == 332990601915489782103445103140450426647, INV_MAT@[111] == 94792945070832857679082912572828953571, INV_MAT@[112] == 213891773493161319891264007856639690109, INV_MAT@[113] == 196877655147114396718095279958952442032, INV_MAT@[114] == 332990601915489782103445103140450426647, INV_MAT@[115] == 94792945070832857679082912572828953571, INV_MAT@[116] == 38889413362392967252957092337570852747, INV_MAT@[117] == 89931768400533736772463276030632596978, INV_MAT@[118] == 21875295016346044079788364439883604670, INV_MAT@[119] == 55903531708439890426125820235258100824, MAT@[3] == 2, MAT@[15] == 2, MAT@[27] == 4, MAT@[39] == 6, MAT@[51] == 1, MAT@[63] == 1, MAT@[75] == 2, MAT@[87] == 3, MAT@[99] == 1, MAT@[111] == 1, MAT@[123] == 2, MAT@[135] == 3,
    ;
    assert(product_entry(INV_MAT@, MAT@, 12, 9, 4) == (INV_MAT@[108] as int) * (MAT@[4] as int) + (INV_MAT@[109] as int) * (MAT@[16] as int) + (INV_MAT@[110] as int) * (MAT@[28] as int) + (INV_MAT@[111] as int) * (MAT@[40] as int) + (INV_MAT@[112] as int) * (MAT@[52] as int) + (INV_MAT@[113] as int) * (MAT@[64] as int) + (INV_MAT@[114] as int) * (MAT@[76] as int) + (INV_MAT@[115] as int) * (MAT@[88] as int) + (INV_MAT@[116] as int) * (MAT@[100] as int) + (INV_MAT@[117] as int) * (MAT@[112] as int) + (INV_MAT@[118] as int) * (MAT@[124] as int) + (INV_MAT@[119] as int) * (MAT@[136] as int));
    assert(((INV_MAT@[108] as int) * (MAT@[4] as int) + (INV_MAT@[109] as int) * (MAT@[16] as int) + (INV_MAT@[110] as int) * (MAT@[28] as int) + (INV_MAT@[111] as int) * (MAT@[40] as int) + (INV_MAT@[112] as int) * (MAT@[52] as int) + (INV_MAT@[113] as int) * (MAT@[64] as int) + (INV_MAT@[114] as int) * (MAT@[76] as int) + (INV_MAT@[115] as int) * (MAT@[88] as int) + (INV_MAT@[116] as int) * (MAT@[100] as int) + (INV_MAT@[117] as int) * (MAT@[112] as int) + (INV_MAT@[118] as int) * (MAT@[124] as int) + (INV_MAT@[119] as int) * (MAT@[136] as int)) % 340282366920938463463374557953744961537 == 0) by (nonlinear_arith)
        requires
            INV_MAT@[108] == 213891773493161319891264007856639690109, INV_MAT@[109] == 196877655147114396718095279958952442032, INV_MAT@[110] == 332990601915489782103445103140450426647, INV_MAT@[111] == 94792945070832857679082912572828953571, INV_MAT@[112] == 213891773493161319891264007856639690109, INV_MAT@[113] == 196877655147114396718095279958952442032, INV_MAT@[114] == 332990601915489782103445103140450426647, INV_MAT@[115] == 94792945070832857679082912572828953571, INV_MAT@[116] == 38889413362392967252957092337570852747, INV_MAT@[117] == 89931768400533736772463276030632596978, INV_MAT@[118] == 21875295016346044079788364439883604670, INV_MAT@[119] == 55903531708439890426125820235258100824, MAT@[4] == 3, MAT@[16] == 1, MAT@[28] == 1, MAT@[40] == 2, MAT@[52] == 6, MAT@[64] == 2, MAT@[76] == 2, MAT@[88] == 4, MAT@[100] == 3, MAT@[112] == 1, MAT@[124] == 1, MAT@[136] == 2,
    ;
    assert(product_entry(INV_MAT@, MAT@, 12, 9, 5) == (INV_MAT@[108] as int) * (MAT@[5] as int) + (INV_MAT@[109] as int) * (MAT@[17] as int) + (INV_MAT@[110] as int) * (MAT@[29] as int) + (INV_MAT@[111] as int) * (MAT@[41] as int) + (INV_MAT@[112] as int) * (MAT@[53] as int) + (INV_MAT@[113] as int) * (MAT@[65] as int) + (INV_MAT@[114] as int) * (MAT@[77] as int) + (INV_MAT@[115] as int) * (MAT@[89] as int) + (INV_MAT@[116] as int) * (MAT@[101] as int) + (INV_MAT@[117] as int) * (MAT@[113] as int) + (INV_MAT@[118] as int) * (MAT@[125] as int) + (INV_MAT@[119] as int) * (MAT@[137] as int));
    assert(((INV_MAT@[108] as int) * (MAT@[5] as int) + (INV_MAT@[109] as int) * (MAT@[17] as int) + (INV_MAT@[110] as int) * (MAT@[29] as int) + (INV_MAT@[111] as int) * (MAT@[41] as int) + (INV_MAT@[112] as int) * (MAT@[53] as int) + (INV_MAT@[113] as int) * (MAT@[65] as int) + (INV_MAT@[114] as int) * (MAT@[77] as int) + (INV_MAT@[115] as int) * (MAT@[89] as int) + (INV_MAT@[116] as int) * (MAT@[101] as int) + (INV_MAT@[117] as int) * (MAT@[113] as int) + (INV_MAT@[118] as int) * (MAT@[125] as int) + (INV_MAT@[119] as int) * (MAT@[137] as int)) % 340282366920938463463374557953744961537 == 0) by (nonlinear_arith)
        requires
            INV_MAT@[108] == 213891773493161319891264007856639690109, INV_MAT@[109] == 196877655147114396718095279958952442032, INV_MAT@[110] == 332990601915489782103445103140450426647, INV_MAT@[111] == 94792945070832857679082912572828953571, INV_MAT@[112] == 213891773493161319891264007856639690109, INV_MAT@[113] == 196877655147114396718095279958952442032, INV_MAT@[114] == 332990601915489782103445103140450426647, INV_MAT@[115] == 94792945070832857679082912572828953571, INV_MAT@[116] == 38889413362392967252957092337570852747, INV_MAT@[117] == 89931768400533736772463276030632596978, INV_MAT@[118] == 21875295016346044079788364439883604670, INV_MAT@[119] == 55903531708439890426125820235258100824, MAT@[5] == 2, MAT@[17] == 3, MAT@[29] == 1, MAT@[41] == 1, MAT@[53] == 4, MAT@[65] == 6, MAT@[77] == 2, MAT@[89] == 2, MAT@[101] == 2, MAT@[113] == 3, MAT@[125] == 1, MAT@[137] == 1,
    ;
    assert(product_entry(INV_MAT@, MAT@, 12, 9, 6) == (INV_MAT@[108] as int) * (MAT@[6] as int) + (INV_MAT@[109] as int) * (MAT@[18] as int) + (INV_MAT@[110] as int) * (MAT@[30] as int) + (INV_MAT@[111] as int) * (MAT@[42] as int) + (INV_MAT@[112] as int) * (MAT@[54] as int) + (INV_MAT@[113] as int) * (MAT@[66] as int) + (INV_MAT@[114] as int) * (MAT@[78] as int) + (INV_MAT@[115] as int) * (MAT@[90] as int) + (INV_MAT@[116] as int) * (MAT@[102] as int) + (INV_MAT@[117] as int) * (MAT@[114] as int) + (INV_MAT@[118] as int) * (MAT@[126] as int) + (INV_MAT@[119] as int) * (MAT@[138] as int));
    assert(((INV_MAT@[108] as int) * (MAT@[6] as int) + (INV_MAT@[109] as int) * (MAT@[18] as int) + (INV_MAT@[110] as int) * (MAT@[30] as int) + (INV_MAT@[111] as int) * (MAT@[42] as int) + (INV_MAT@[112] as int) * (MAT@[54] as int) + (INV_MAT@[113] as int) * (MAT@[66] as int) + (INV_MAT@[114] as int) * (MAT@[78] as int) + (INV_MAT@[115] as int) * (MAT@[90] as int) + (INV_MAT@[116] as int) * (MAT@[102] as int) + (INV_MAT@[117] as int) * (MAT@[114] as int) + (INV_MAT@[118] as int) * (MAT@[126] as int) + (INV_MAT@[119] as int) * (MAT@[138] as int)) % 340282366920938463463374557953744961537 == 0) by (nonlinear_arith)
        requires
            INV_MAT@[108] == 213891773493161319891264007856639690109, INV_MAT@[109] == 196877655147114396718095279958952442032, INV_MAT@[110] == 332990601915489782103445103140450426647, INV_MAT@[111] == 94792945070832857679082912572828953571, INV_MAT@[112] == 213891773493161319891264007856639690109, INV_MAT@[113] == 196877655147114396718095279958952442032, INV_MAT@[114] == 332990601915489782103445103140450426647, INV_MAT@[115] == 94792945070832857679082912572828953571, INV_MAT@[116] == 38889413362392967252957092337570852747, INV_MAT@[117] == 89931768400533736772463276030632596978, INV_MAT@[118] == 21875295016346044079788364439883604670, INV_MAT@[119] == 55903531708439890426125820235258100824, MAT@[6] == 1, MAT@[18] == 2, MAT@[30] == 3, MAT@[42] == 1, MAT@[54] == 2, MAT@[66] == 4, MAT@[78] == 6, MAT@[90] == 2, MAT@[102] == 1, MAT@[114] == 2, MAT@[126] == 3, MAT@[138] == 1,
    ;
    assert(product_entry(INV_MAT@, MAT@, 12, 9, 7) == (INV_MAT@[108] as int) * (MAT@[7] as int) + (INV_MAT@[109] as int) * (MAT@[19] as int) + (INV_MAT@[110] as int) * (MAT@[31] as int) + (INV_MAT@[111] as int) * (MAT@[43] as int) + (INV_MAT@[112] as int) * (MAT@[55] as int) + (INV_MAT@[113] as int) * (MAT@[67] as int) + (INV_MAT@[114] as int) * (MAT@[79] as int) + (INV_MAT@[115] as int) * (MAT@[91] as int) + (INV_MAT@[116] as int) * (MAT@[103] as int) + (INV_MAT@[117] as int) * (MAT@[115] as int) + (INV_MAT@[118] as int) * (MAT@[127] as int) + (INV_MAT@[119] as int) * (MAT@[139] as int));
    assert(((INV_MAT@[108] as int) * (MAT@[7] as int) + (INV_MAT@[109] as int) * (MAT@[19] as int) + (INV_MAT@[110] as int) * (MAT@[31] as int) + (INV_MAT@[111] as int) * (MAT@[43] as int) + (INV_MAT@[112] as int) * (MAT@[55] as int) + (INV_MAT@[113] as int) * (MAT@[67] as int) + (INV_MAT@[114] as int) * (MAT@[79] as int) + (INV_MAT@[115] as int) * (MAT@[91] as int) + (INV_MAT@[116] as int) * (MAT@[103] as int) + (INV_MAT@[117] as int) * (MAT@[115] as int) + (INV_MAT@[118] as int) * (MAT@[127] as int) + (INV_MAT@[119] as int) * (MAT@[139] as int)) % 340282366920938463463374557953744961537 == 0) by (nonlinear_arith)
        requires
            INV_MAT@[108] == 213891773493161319891264007856639690109, INV_MAT@[109] == 196877655147114396718095279958952442032, INV_MAT@[110] == 332990601915489782103445103140450426647, INV_MAT@[111] == 94792945070832857679082912572828953571, INV_MAT@[112] == 213891773493161319891264007856639690109, INV_MAT@[113] == 196877655147114396718095279958952442032, INV_MAT@[114] == 332990601915489782103445103140450426647, INV_MAT@[115] == 94792945070832857679082912572828953571, INV_MAT@[116] == 38889413362392967252957092337570852747, INV_MAT@[117] == 89931768400533736772463276030632596978, INV_MAT@[118] == 21875295016346044079788364439883604670, INV_MAT@[119] == 55903531708439890426125820235258100824, MAT@[7] == 1, MAT@[19] == 1, MAT@[31] == 2, MAT@[43] == 3, MAT@[55] == 2, MAT@[67] == 2, MAT@[79] == 4, MAT@[91] == 6, MAT@[103] == 1, MAT@[115] == 1, MAT@[127] == 2, MAT@[139] == 3,
    ;
    assert(product_entry(INV_MAT@, MAT@, 12, 9, 8) == (INV_MAT@[108] as int) * (MAT@[8] as int) + (INV_MAT@[109] as int) * (MAT@[20] as int) + (INV_MAT@[110] as int) * (MAT@[32] as int) + (INV_MAT@[111] as int) * (MAT@[44] as int) + (INV_MAT@[112] as int) * (MAT@[56] as int) + (INV_MAT@[113] as int) * (MAT@[68] as int) + (INV_MAT@[114] as int) * (MAT@[80] as int) + (INV_MAT@[115] as int) * (MAT@[92] as int) + (INV_MAT@[116] as int) * (MAT@[104] as int) + (INV_MAT@[117] as int) * (MAT@[116] as int) + (INV_MAT@[118] as int) * (MAT@[128] as int) + (INV_MAT@[119] as int) * (MAT@[140] as int));
    assert(((INV_MAT@[108] as int) * (MAT@[8] as int) + (INV_MAT@[109] as int) * (MAT@[20] as int) + (INV_MAT@[110] as int) * (MAT@[32] as int) + (INV_MAT@[111] as int) * (MAT@[44] as int) + (INV_MAT@[112] as int) * (MAT@[56] as int) + (INV_MAT@[113] as int) * (MAT@[68] as int) + (INV_MAT@[114] as int) * (MAT@[80] as int) + (INV_MAT@[115] as int) * (MAT@[92] as int) + (INV_MAT@[116] as int) * (MAT@[104] as int) + (INV_MAT@[117] as int) * (MAT@[116] as int) + (INV_MAT@[118] as int) * (MAT@[128] as int) + (INV_MAT@[119] as int) * (MAT@[140] as int)) % 340282366920938463463374557953744961537 == 0) by (nonlinear_arith)
        requires
            INV_MAT@[108] == 213891773493161319891264007856639690109, INV_MAT@[109] == 196877655147114396718095279958952442032, INV_MAT@[110] == 332990601915489782103445103140450426647, INV_MAT@[111] == 94792945070832857679082912572828953571, INV_MAT@[112] == 213891773493161319891264007856639690109, INV_MAT@[113] == 196877655147114396718095279958952442032, INV_MAT@[114] == 332990601915489782103445103140450426647, INV_MAT@[115] == 94792945070832857679082912572828953571, INV_MAT@[116] == 38889413362392967252957092337570852747, INV_MAT@[117] == 89931768400533736772463276030632596978, INV_MAT@[118] == 21875295016346044079788364439883604670, INV_MAT@[119] == 55903531708439890426125820235258100824, MAT@[8] == 3, MAT@[20] == 1, MAT@[32] == 1, MAT@[44] == 2, MAT@[56] == 3, MAT@[68] == 1, MAT@[80] == 1, MAT@[92] == 2, MAT@[104] == 6, MAT@[116] == 2, MAT@[128] == 2, MAT@[140] == 4,
    ;
    assert(product_entry(INV_MAT@, MAT@, 12, 9, 9) == (INV_MAT@[108] as int) * (MAT@[9] as int) + (INV_MAT@[109] as int) * (MAT@[21] as int) + (INV_MAT@[110] as int) * (MAT@[33] as int) + (INV_MAT@[111] as int) * (MAT@[45] as int) + (INV_MAT@[112] as int) * (MAT@[57] as int) + (INV_MAT@[113] as int) * (MAT@[69] as int) + (INV_MAT@[114] as int) * (MAT@[81] as int) + (INV_MAT@[115] as int) * (MAT@[93] as int) + (INV_MAT@[116] as int) * (MAT@[105] as int) + (INV_MAT@[117] as int) * (MAT@[117] as int) + (INV_MAT@[118] as int) * (MAT@[129] as int) + (INV_MAT@[119] as int) * (MAT@[141] as int));
    assert(((INV_MAT@[108] as int) * (MAT@[9] as int) + (INV_MAT@[109] as int) * (MAT@[21] as int) + (INV_MAT@[110] as int) * (MAT@[33] as int) + (INV_MAT@[111] as int) * (MAT@[45] as int) + (INV_MAT@[112] as int) * (MAT@[57] as int) + (INV_MAT@[113] as int) * (MAT@[69] as int) + (INV_MAT@[114] as int) * (MAT@[81] as int) + (INV_MAT@[115] as int) * (MAT@[93] as int) + (INV_MAT@[116] as int) * (MAT@[105] as int) + (INV_MAT@[117] as int) * (MAT@[117] as int) + (INV_MAT@[118] as int) * (MAT@[129] as int) + (INV_MAT@[119] as int) * (MAT@[141] as int)) % 340282366920938463463374557953744961537 == 1) by (nonlinear_arith)
        requires
            INV_MAT@[108] == 213891773493161319891264007856639690109, INV_MAT@[109] == 196877655147114396718095279958952442032, INV_MAT@[110] == 332990601915489782103445103140450426647, INV_MAT@[111] == 94792945070832857679082912572828953571, INV_MAT@[112] == 213891773493161319891264007856639690109, INV_MAT@[113] == 196877655147114396718095279958952442032, INV_MAT@[114] == 332990601915489782103445103140450426647, INV_MAT@[115] == 94792945070832857679082912572828953571, INV_MAT@[116] == 38889413362392967252957092337570852747, INV_MAT@[117] == 89931768400533736772463276030632596978, INV_MAT@[118] == 21875295016346044079788364439883604670, INV_MAT@[119] == 55903531708439890426125820235258100824, MAT@[9] == 2, MAT@[21] == 3, MAT@[33] == 1, MAT@[45] == 1, MAT@[57] == 2, MAT@[69] == 3, MAT@[81] == 1, MAT@[93] == 1, MAT@[105] == 4, MAT@[117] == 6, MAT@[129] == 2, MAT@[141] == 2,
    ;
    assert(product_entry(INV_MAT@, MAT@, 12, 9, 10) == (INV_MAT@[108] as int) * (MAT@[10] as int) + (INV_MAT@[109] as int) * (MAT@[22] as int) + (INV_MAT@[110] as int) * (MAT@[34] as int) + (INV_MAT@[111] as int) * (MAT@[46] as int) + (INV_MAT@[112] as int) * (MAT@[58] as int) + (INV_MAT@[113] as int) * (MAT@[70] as int) + (INV_MAT@[114] as int) * (MAT@[82] as int) + (INV_MAT@[115] as int) * (MAT@[94] as int) + (INV_MAT@[116] as int) * (MAT@[106] as int) + (INV_MAT@[117] as int) * (MAT@[118] as int) + (INV_MAT@[118] as int) * (MAT@[130] as int) + (INV_MAT@[119] as int) * (MAT@[142] as int));
    assert(((INV_MAT@[108] as int) * (MAT@[10] as int) + (INV_MAT@[109] as int) * (MAT@[22] as int) + (INV_MAT@[110] as int) * (MAT@[34] as int) + (INV_MAT@[111] as int) * (MAT@[46] as int) + (INV_MAT@[112] as int) * (MAT@[58] as int) + (INV_MAT@[113] as int) * (MAT@[70] as int) + (INV_MAT@[114] as int) * (MAT@[82] as int) + (INV_MAT@[115] as int) * (MAT@[94] as int) + (INV_MAT@[116] as int) * (MAT@[106] as int) + (INV_MAT@[117] as int) * (MAT@[118] as int) + (INV_MAT@[118] as int) * (MAT@[130] as int) + (INV_MAT@[119] as int) * (MAT@[142] as int)) % 340282366920938463463374557953744961537 == 0) by (nonlinear_arith)
        requires
            INV_MAT@[108] == 213891773493161319891264007856639690109, INV_MAT@[109] == 196877655147114396718095279958952442032, INV_MAT@[110] == 332990601915489782103445103140450426647, INV_MAT@[111] == 94792945070832857679082912572828953571, INV_MAT@[112] == 213891773493161319891264007856639690109, INV_MAT@[113] == 196877655147114396718095279958952442032, INV_MAT@[114] == 332990601915489782103445103140450426647, INV_MAT@[115] == 94792945070832857679082912572828953571, INV_MAT@[116] == 38889413362392967252957092337570852747, INV_MAT@[117] == 89931768400533736772463276030632596978, INV_MAT@[118] == 21875295016346044079788364439883604670, INV_MAT@[119] == 55903531708439890426125820235258100824, MAT@[10] == 1, MAT@[22] == 2, MAT@[34] == 3, MAT@[46] == 1, MAT@[58] == 1, MAT@[70] == 2, MAT@[82] == 3, MAT@[94] == 1, MAT@[106] == 2, MAT@[118] == 4, MAT@[130] == 6, MAT@[142] == 2,
    ;
    assert(product_entry(INV_MAT@, MAT@, 12, 9, 11) == (INV_MAT@[108] as int) * (MAT@[11] as int) + (INV_MAT@[109] as int) * (MAT@[23] as int) + (INV_MAT@[110] as int) * (MAT@[35] as int) + (INV_MAT@[111] as int) * (MAT@[47] as int) + (INV_MAT@[112] as int) * (MAT@[59] as int) + (INV_MAT@[113] as int) * (MAT@[71] as int) + (INV_MAT@[114] as int) * (MAT@[83] as int) + (INV_MAT@[115] as int) * (MAT@[95] as int) + (INV_MAT@[116] as int) * (MAT@[107] as int) + (INV_MAT@[117] as int) * (MAT@[119] as int) + (INV_MAT@[118] as int) * (MAT@[131] as int) + (INV_MAT@[119] as int) * (MAT@[143] as int));
    assert(((INV_MAT@[108] as int) * (MAT@[11] as int) + (INV_MAT@[109] as int) * (MAT@[23] as int) + (INV_MAT@[110] as int) * (MAT@[35] as int) + (INV_MAT@[111] as int) * (MAT@[47] as int) + (INV_MAT@[112] as int) * (MAT@[59] as int) + (INV_MAT@[113] as int) * (MAT@[71] as int) + (INV_MAT@[114] as int) * (MAT@[83] as int) + (INV_MAT@[115] as int) * (MAT@[95] as int) + (INV_MAT@[116] as int) * (MAT@[107] as int) + (INV_MAT@[117] as int) * (MAT@[119] as int) + (INV_MAT@[118] as int) * (MAT@[131] as int) + (INV_MAT@[119] as int) * (MAT@[143] as int)) % 340282366920938463463374557953744961537 == 0) by (nonlinear_arith)
        requires
            INV_MAT@[108] == 213891773493161319891264007856639690109, INV_MAT@[109] == 196877655147114396718095279958952442032, INV_MAT@[110] == 332990601915489782103445103140450426647, INV_MAT@[111] == 94792945070832857679082912572828953571, INV_MAT@[112] == 213891773493161319891264007856639690109, INV_MAT@[113] == 196877655147114396718095279958952442032, INV_MAT@[114] == 332990601915489782103445103140450426647, INV_MAT@[115] == 94792945070832857679082912572828953571, INV_MAT@[116] == 38889413362392967252957092337570852747, INV_MAT@[117] == 89931768400533736772463276030632596978, INV_MAT@[118] == 21875295016346044079788364439883604670, INV_MAT@[119] == 55903531708439890426125820235258100824, MAT@[11] == 1, MAT@[23] == 1, MAT@[35] == 2, MAT@[47] == 3, MAT@[59] == 1, MAT@[71] == 1, MAT@[83] == 2, MAT@[95] == 3, MAT@[107] == 2, MAT@[119] == 2, MAT@[131] == 4, MAT@[143] == 6,
    ;
}

proof fn lemma_product_backward_row_10()
    ensures
        identity_row(Elem::modulus(), INV_MAT@, MAT@, 12, 10, 12),
{
    reveal_with_fuel(sum, 13);
    reveal_with_fuel(identity_row, 13);
    assert(product_entry(INV_MAT@, MAT@, 12, 10, 0) == (INV_MAT@[120] as int) * (MAT@[0] as int) + (INV_MAT@[121] as int) * (MAT@[12] as int) + (INV_MAT@[122] as int) * (MAT@[24] as int) + (INV_MAT@[123] as int) * (MAT@[36] as int) + (INV_MAT@[124] as int) * (MAT@[48] as int) + (INV_MAT@[125] as int) * (MAT@[60] as int) + (INV_MAT@[126] as int) * (MAT@[72] as int) + (INV_MAT@[127] as int) * (MAT@[84] as int) + (INV_MAT@[128] as int) * (MAT@[96] as int) + (INV_MAT@[129] as int) * (MAT@[108] as int) + (INV_MAT@[130] as int) * (MAT@[120] as int) + (INV_MAT@[131] as int) * (MAT@[132] as int));
    assert(((INV_MAT@[120] as int) * (MAT@[0] as int) + (INV_MAT@[121] as int) * (MAT@[12] as int) + (INV_MAT@[122] as int) * (MAT@[24] as int) + (INV_MAT@[123] as int) * (MAT@[36] as int) + (INV_MAT@[124] as int) * (MAT@[48] as int) + (INV_MAT@[125] as int) * (MAT@[60] as int) + (INV_MAT@[126] as int) * (MAT@[72] as int) + (INV_MAT@[127] as int) * (MAT@[84] as int) + (INV_MAT@[128] as int) * (MAT@[96] as int) + (INV_MAT@[129] as int) * (MAT@[108] as int) + (INV_MAT@[130] as int) * (MAT@[120] as int) + (INV_MAT@[131] as int) * (MAT@[132] as int)) % 340282366920938463463374557953744961537 == 0) by (nonlinear_arith)
        requires
            INV_MAT@[120] == 94792945070832857679082912572828953571, INV_MAT@[121] == 213891773493161319891264007856639690109, INV_MAT@[122] == 196877655147114396718095279958952442032, INV_MAT@[123] == 332990601915489782103445103140450426647, INV_MAT@[124] == 94792945070832857679082912572828953571, INV_MAT@[125] == 213891773493161319891264007856639690109, INV_MAT@[126] == 196877655147114396718095279958952442032, INV_MAT@[127] == 332990601915489782103445103140450426647, INV_MAT@[128] == 55903531708439890426125820235258100824, INV_MAT@[129] == 38889413362392967252957092337570852747, INV_MAT@[130] == 89931768400533736772463276030632596978, INV_MAT@[131] == 21875295016346044079788364439883604670, MAT@[0] == 6, MAT@[12] == 2, MAT@[24] == 2, MAT@[36] == 4, MAT@[48] == 3, MAT@[60] == 1, MAT@[72] == 1, MAT@[84] == 2, MAT@[96] == 3, MAT@[108] == 1, MAT@[120] == 1, MAT@[132] == 2,
    ;
    assert(product_entry(INV_MAT@, MAT@, 12, 10, 1) == (INV_MAT@[120] as int) * (MAT@[1] as int) + (INV_MAT@[121] as int) * (MAT@[13] as int) + (INV_MAT@[122] as int) * (MAT@[25] as int) + (INV_MAT@[123] as int) * (MAT@[37] as int) + (INV_MAT@[124] as int) * (MAT@[49] as int) + (INV_MAT@[125] as int) * (MAT@[61] as int) + (INV_MAT@[126] as int) * (MAT@[73] as int) + (INV_MAT@[127] as int) * (MAT@[85] as int) + (INV_MAT@[128] as int) * (MAT@[97] as int) + (INV_MAT@[129] as int) * (MAT@[109] as int) + (INV_MAT@[130] as int) * (MAT@[121] as int) + (INV_MAT@[131] as int) * (MAT@[133] as int));
    assert(((INV_MAT@[120] as int) * (MAT@[1] as int) + (INV_MAT@[121] as int) * (MAT@[13] as int) + (INV_MAT@[122] as int) * (MAT@[25] as int) + (INV_MAT@[123] as int) * (MAT@[37] as int) + (INV_MAT@[124] as int) * (MAT@[49] as int) + (INV_MAT@[125] as int) * (MAT@[61] as int) + (INV_MAT@[126] as int) * (MAT@[73] as int) + (INV_MAT@[127] as int) * (MAT@[85] as int) + (INV_MAT@[128] as int) * (MAT@[97] as int) + (INV_MAT@[129] as int) * (MAT@[109] as int) + (INV_MAT@[130] as int) * (MAT@[121] as int) + (INV_MAT@[131] as int) * (MAT@[133] as int)) % 340282366920938463463374557953744961537 == 0) by (nonlinear_arith)
        requires
            INV_MAT@[120] == 94792945070832857679082912572828953571, INV_MAT@[121] == 213891773493161319891264007856639690109, INV_MAT@[122] == 196877655147114396718095279958952442032, INV_MAT@[123] == 332990601915489782103445103140450426647, INV_MAT@[124] == 94792945070832857679082912572828953571, INV_MAT@[125] == 213891773493161319891264007856639690109, INV_MAT@[126] == 196877655147114396718095279958952442032, INV_MAT@[127] == 332990601915489782103445103140450426647, INV_MAT@[128] == 55903531708439890426125820235258100824, INV_MAT@[129] == 38889413362392967252957092337570852747, INV_MAT@[130] == 89931768400533736772463276030632596978, INV_MAT@[131] == 21875295016346044079788364439883604670, MAT@[1] == 4, MAT@[13] == 6, MAT@[25] == 2, MAT@[37] == 2, MAT@[49] == 2, MAT@[61] == 3, MAT@[73] == 1, MAT@[85] == 1, MAT@[97] == 2, MAT@[109] == 3, MAT@[121] == 1, MAT@[133] == 1,
    ;
    assert(product_entry(INV_MAT@, MAT@, 12, 10, 2) == (INV_MAT@[120] as int) * (MAT@[2] as int) + (INV_MAT@[121] as int) * (MAT@[14] as int) + (INV_MAT@[122] as int) * (MAT@[26] as int) + (INV_MAT@[123] as int) * (MAT@[38] as int) + (INV_MAT@[124] as int) * (MAT@[50] as int) + (INV_MAT@[125] as int) * (MAT@[62] as int) + (INV_MAT@[126] as int) * (MAT@[74] as int) + (INV_MAT@[127] as int) * (MAT@[86] as int) + (INV_MAT@[128] as int) * (MAT@[98] as int) + (INV_MAT@[129] as int) * (MAT@[110] as int) + (INV_MAT@[130] as int) * (MAT@[122] as int) + (INV_MAT@[131] as int) * (MAT@[134] as int));
    assert(((INV_MAT@[120] as int) * (MAT@[2] as int) + (INV_MAT@[121] as int) * (MAT@[14] as int) + (INV_MAT@[122] as int) * (MAT@[26] as int) + (INV_MAT@[123] as int) * (MAT@[38] as int) + (INV_MAT@[124] as int) * (MAT@[50] as int) + (INV_MAT@[125] as int) * (MAT@[62] as int) + (INV_MAT@[126] as int) * (MAT@[74] as int) + (INV_MAT@[127] as int) * (MAT@[86] as int) + (INV_MAT@[128] as int) * (MAT@[98] as int) + (INV_MAT@[129] as int) * (MAT@[110] as int) + (INV_MAT@[130] as int) * (MAT@[122] as int) + (INV_MAT@[131] as int) * (MAT@[134] as int)) % 340282366920938463463374557953744961537 == 0) by (nonlinear_arith)
        requires
            INV_MAT@[120] == 94792945070832857679082912572828953571, INV_MAT@[121] == 213891773493161319891264007856639690109, INV_MAT@[122] == 196877655147114396718095279958952442032, INV_MAT@[123] == 332990601915489782103445103140450426647, INV_MAT@[124] == 94792945070832857679082912572828953571, INV_MAT@[125] == 213891773493161319891264007856639690109, INV_MAT@[126] == 196877655147114396718095279958952442032, INV_MAT@[127] == 332990601915489782103445103140450426647, INV_MAT@[128] == 55903531708439890426125820235258100824, INV_MAT@[129] == 38889413362392967252957092337570852747, INV_MAT@[130] == 89931768400533736772463276030632596978, INV_MAT@[131] == 21875295016346044079788364439883604670, MAT@[2] == 2, MAT@[14] == 4, MAT@[26] == 6, MAT@[38] == 2, MAT@[50] == 1, MAT@[62] == 2, MAT@[74] == 3, MAT@[86] == 1, MAT@[98] == 1, MAT@[110] == 2, MAT@[122] == 3, MAT@[134] == 1,
    ;
    assert(product_entry(INV_MAT@, MAT@, 12, 10, 3) == (INV_MAT@[120] as int) * (MAT@[3] as int) + (INV_MAT@[121] as int) * (MAT@[15] as int) + (INV_MAT@[122] as int) * (MAT@[27] as int) + (INV_MAT@[123] as int) * (MAT@[39] as int) + (INV_MAT@[124] as int) * (MAT@[51] as int) + (INV_MAT@[125] as int) * (MAT@[63] as int) + (INV_MAT@[126] as int) * (MAT@[75] as int) + (INV_MAT@[127] as int) * (MAT@[87] as int) + (INV_MAT@[128] as int) * (MAT@[99] as int) + (INV_MAT@[129] as int) * (MAT@[111] as int) + (INV_MAT@[130] as int) * (MAT@[123] as int) + (INV_MAT@[131] as int) * (MAT@[135] as int));
    assert(((INV_MAT@[120] as int) * (MAT@[3] as int) + (INV_MAT@[121] as int) * (MAT@[15] as int) + (INV_MAT@[122] as int) * (MAT@[27] as int) + (INV_MAT@[123] as int) * (MAT@[39] as int) + (INV_MAT@[124] as int) * (MAT@[51] as int) + (INV_MAT@[125] as int) * (MAT@[63] as int) + (INV_MAT@[126] as int) * (MAT@[75] as int) + (INV_MAT@[127] as int) * (MAT@[87] as int) + (INV_MAT@[128] as int) * (MAT@[99] as int) + (INV_MAT@[129] as int) * (MAT@[111] as int) + (INV_MAT@[130] as int) * (MAT@[123] as int) + (INV_MAT@[131] as int) * (MAT@[135] as int)) % 340282366920938463463374557953744961537 == 0) by (nonlinear_arith)
        requires
            INV_MAT@[120] == 94792945070832857679082912572828953571, INV_MAT@[121] == 213891773493161319891264007856639690109, INV_MAT@[122] == 196877655147114396718095279958952442032, INV_MAT@[123] == 332990601915489782103445103140450426647, INV_MAT@[124] == 94792945070832857679082912572828953571, INV_MAT@[125] == 213891773493161319891264007856639690109, INV_MAT@[126] == 196877655147114396718095279958952442032, INV_MAT@[127] == 332990601915489782103445103140450426647, INV_MAT@[128] == 55903531708439890426125820235258100824, INV_MAT@[129] == 38889413362392967252957092337570852747, INV_MAT@[130] == 89931768400533736772463276030632596978, INV_MAT@[131] == 21875295016346044079788364439883604670, MAT@[3] == 2, MAT@[15] == 2, MAT@[27] == 4, MAT@[39] == 6, MAT@[51] == 1, MAT@[63] == 1, MAT@[75] == 2, MAT@[87] == 3, MAT@[99] == 1, MAT@[111] == 1, MAT@[123] == 2, MAT@[135] == 3,
    ;
    assert(product_entry(INV_MAT@, MAT@, 12, 10, 4) == (INV_MAT@[120] as int) * (MAT@[4] as int) + (INV_MAT@[121] as int) * (MAT@[16] as int) + (INV_MAT@[122] as int) * (MAT@[28] as int) + (INV_MAT@[123] as int) * (MAT@[40] as int) + (INV_MAT@[124] as int) * (MAT@[52] as int) + (INV_MAT@[125] as int) * (MAT@[64] as int) + (INV_MAT@[126] as int) * (MAT@[76] as int) + (INV_MAT@[127] as int) * (MAT@[88] as int) + (INV_MAT@[128] as int) * (MAT@[100] as int) + (INV_MAT@[129] as int) * (MAT@[112] as int) + (INV_MAT@[130] as int) * (MAT@[124] as int) + (INV_MAT@[131] as int) * (MAT@[136] as int));
    assert(((INV_MAT@[120] as int) * (MAT@[4] as int) + (INV_MAT@[121] as int) * (MAT@[16] as int) + (INV_MAT@[122] as int) * (MAT@[28] as int) + (INV_MAT@[123] as int) * (MAT@[40] as int) + (INV_MAT@[124] as int) * (MAT@[52] as int) + (INV_MAT@[125] as int) * (MAT@[64] as int) + (INV_MAT@[126] as int) * (MAT@[76] as int) + (INV_MAT@[127] as int) * (MAT@[88] as int) + (INV_MAT@[128] as int) * (MAT@[100] as int) + (INV_MAT@[129] as int) * (MAT@[112] as int) + (INV_MAT@[130] as int) * (MAT@[124] as int) + (INV_MAT@[131] as int) * (MAT@[136] as int)) % 340282366920938463463374557953744961537 == 0) by (nonlinear_arith)
        requires
            INV_MAT@[120] == 94792945070832857679082912572828953571, INV_MAT@[121] == 213891773493161319891264007856639690109, INV_MAT@[122] == 196877655147114396718095279958952442032, INV_MAT@[123] == 332990601915489782103445103140450426647, INV_MAT@[124] == 94792945070832857679082912572828953571, INV_MAT@[125] == 213891773493161319891264007856639690109, INV_MAT@[126] == 196877655147114396718095279958952442032, INV_MAT@[127] == 332990601915489782103445103140450426647, INV_MAT@[128] == 55903531708439890426125820235258100824, INV_MAT@[129] == 38889413362392967252957092337570852747, INV_MAT@[130] == 89931768400533736772463276030632596978, INV_MAT@[131] == 21875295016346044079788364439883604670, MAT@[4] == 3, MAT@[16] == 1, MAT@[28] == 1, MAT@[40] == 2, MAT@[52] == 6, MAT@[64] == 2, MAT@[76] == 2, MAT@[88] == 4, MAT@[100] == 3, MAT@[112] == 1, MAT@[124] == 1, MAT@[136] == 2,
    ;
    assert(product_entry(INV_MAT@, MAT@, 12, 10, 5) == (INV_MAT@[120] as int) * (MAT@[5] as int) + (INV_MAT@[121] as int) * (MAT@[17] as int) + (INV_MAT@[122] as int) * (MAT@[29] as int) + (INV_MAT@[123] as int) * (MAT@[41] as int) + (INV_MAT@[124] as int) * (MAT@[53] as int) + (INV_MAT@[125] as int) * (MAT@[65] as int) + (INV_MAT@[126] as int) * (MAT@[77] as int) + (INV_MAT@[127] as int) * (MAT@[89] as int) + (INV_MAT@[128] as int) * (MAT@[101] as int) + (INV_MAT@[129] as int) * (MAT@[113] as int) + (INV_MAT@[130] as int) * (MAT@[125] as int) + (INV_MAT@[131] as int) * (MAT@[137] as int));
    assert(((INV_MAT@[120] as int) * (MAT@[5] as int) + (INV_MAT@[121] as int) * (MAT@[17] as int) + (INV_MAT@[122] as int) * (MAT@[29] as int) + (INV_MAT@[123] as int) * (MAT@[41] as int) + (INV_MAT@[124] as int) * (MAT@[53] as int) + (INV_MAT@[125] as int) * (MAT@[65] as int) + (INV_MAT@[126] as int) * (MAT@[77] as int) + (INV_MAT@[127] as int) * (MAT@[89] as int) + (INV_MAT@[128] as int) * (MAT@[101] as int) + (INV_MAT@[129] as int) * (MAT@[113] as int) + (INV_MAT@[130] as int) * (MAT@[125] as int) + (INV_MAT@[131] as int) * (MAT@[137] as int)) % 340282366920938463463374557953744961537 == 0) by (nonlinear_arith)
        requires
            INV_MAT@[120] == 94792945070832857679082912572828953571, INV_MAT@[121] == 213891773493161319891264007856639690109, INV_MAT@[122] == 196877655147114396718095279958952442032, INV_MAT@[123] == 332990601915489782103445103140450426647, INV_MAT@[124] == 94792945070832857679082912572828953571, INV_MAT@[125] == 213891773493161319891264007856639690109, INV_MAT@[126] == 196877655147114396718095279958952442032, INV_MAT@[127] == 332990601915489782103445103140450426647, INV_MAT@[128] == 55903531708439890426125820235258100824, INV_MAT@[129] == 38889413362392967252957092337570852747, INV_MAT@[130] == 89931768400533736772463276030632596978, INV_MAT@[131] == 21875295016346044079788364439883604670, MAT@[5] == 2, MAT@[17] == 3, MAT@[29] == 1, MAT@[41] == 1, MAT@[53] == 4, MAT@[65] == 6, MAT@[77] == 2, MAT@[89] == 2, MAT@[101] == 2, MAT@[113] == 3, MAT@[125] == 1, MAT@[137] == 1,
    ;
    assert(product_entry(INV_MAT@, MAT@, 12, 10, 6) == (INV_MAT@[120] as int) * (MAT@[6] as int) + (INV_MAT@[121] as int) * (MAT@[18] as int) + (INV_MAT@[122] as int) * (MAT@[30] as int) + (INV_MAT@[123] as int) * (MAT@[42] as int) + (INV_MAT@[124] as int) * (MAT@[54] as int) + (INV_MAT@[125] as int) * (MAT@[66] as int) + (INV_MAT@[126] as int) * (MAT@[78] as int) + (INV_MAT@[127] as int) * (MAT@[90] as int) + (INV_MAT@[128] as int) * (MAT@[102] as int) + (INV_MAT@[129] as int) * (MAT@[114] as int) + (INV_MAT@[130] as int) * (MAT@[126] as int) + (INV_MAT@[131] as int) * (MAT@[138] as int));
    assert(((INV_MAT@[120] as int) * (MAT@[6] as int) + (INV_MAT@[121] as int) * (MAT@[18] as int) + (INV_MAT@[122] as int) * (MAT@[30] as int) + (INV_MAT@[123] as int) * (MAT@[42] as int) + (INV_MAT@[124] as int) * (MAT@[54] as int) + (INV_MAT@[125] as int) * (MAT@[66] as int) + (INV_MAT@[126] as int) * (MAT@[78] as int) + (INV_MAT@[127] as int) * (MAT@[90] as int) + (INV_MAT@[128] as int) * (MAT@[102] as int) + (INV_MAT@[129] as int) * (MAT@[114] as int) + (INV_MAT@[130] as int) * (MAT@[126] as int) + (INV_MAT@[131] as int) * (MAT@[138] as int)) % 340282366920938463463374557953744961537 == 0) by (nonlinear_arith)
        requires
            INV_MAT@[120] == 94792945070832857679082912572828953571, INV_MAT@[121] == 213891773493161319891264007856639690109, INV_MAT@[122] == 196877655147114396718095279958952442032, INV_MAT@[123] == 332990601915489782103445103140450426647, INV_MAT@[124] == 94792945070832857679082912572828953571, INV_MAT@[125] == 213891773493161319891264007856639690109, INV_MAT@[126] == 196877655147114396718095279958952442032, INV_MAT@[127] == 332990601915489782103445103140450426647, INV_MAT@[128] == 55903531708439890426125820235258100824, INV_MAT@[129] == 38889413362392967252957092337570852747, INV_MAT@[130] == 89931768400533736772463276030632596978, INV_MAT@[131] == 21875295016346044079788364439883604670, MAT@[6] == 1, MAT@[18] == 2, MAT@[30] == 3, MAT@[42] == 1, MAT@[54] == 2, MAT@[66] == 4, MAT@[78] == 6, MAT@[90] == 2, MAT@[102] == 1, MAT@[114] == 2, MAT@[126] == 3, MAT@[138] == 1,
    ;
    assert(product_entry(INV_MAT@, MAT@, 12, 10, 7) == (INV_MAT@[120] as int) * (MAT@[7] as int) + (INV_MAT@[121] as int) * (MAT@[19] as int) + (INV_MAT@[122] as int) * (MAT@[31] as int) + (INV_MAT@[123] as int) * (MAT@[43] as int) + (INV_MAT@[124] as int) * (MAT@[55] as int) + (INV_MAT@[125] as int) * (MAT@[67] as int) + (INV_MAT@[126] as int) * (MAT@[79] as int) + (INV_MAT@[127] as int) * (MAT@[91] as int) + (INV_MAT@[128] as int) * (MAT@[103] as int) + (INV_MAT@[129] as int) * (MAT@[115] as int) + (INV_MAT@[130] as int) * (MAT@[127] as int) + (INV_MAT@[131] as int) * (MAT@[139] as int));
    assert(((INV_MAT@[120] as int) * (MAT@[7] as int) + (INV_MAT@[121] as int) * (MAT@[19] as int) + (INV_MAT@[122] as int) * (MAT@[31] as int) + (INV_MAT@[123] as int) * (MAT@[43] as int) + (INV_MAT@[124] as int) * (MAT@[55] as int) + (INV_MAT@[125] as int) * (MAT@[67] as int) + (INV_MAT@[126] as int) * (MAT@[79] as int) + (INV_MAT@[127] as int) * (MAT@[91] as int) + (INV_MAT@[128] as int) * (MAT@[103] as int) + (INV_MAT@[129] as int) * (MAT@[115] as int) + (INV_MAT@[130] as int) * (MAT@[127] as int) + (INV_MAT@[131] as int) * (MAT@[139] as int)) % 340282366920938463463374557953744961537 == 0) by (nonlinear_arith)
        requires
            INV_MAT@[120] == 94792945070832857679082912572828953571, INV_MAT@[121] == 213891773493161319891264007856639690109, INV_MAT@[122] == 196877655147114396718095279958952442032, INV_MAT@[123] == 332990601915489782103445103140450426647, INV_MAT@[124] == 94792945070832857679082912572828953571, INV_MAT@[125] == 213891773493161319891264007856639690109, INV_MAT@[126] == 196877655147114396718095279958952442032, INV_MAT@[127] == 332990601915489782103445103140450426647, INV_MAT@[128] == 55903531708439890426125820235258100824, INV_MAT@[129] == 38889413362392967252957092337570852747, INV_MAT@[130] == 89931768400533736772463276030632596978, INV_MAT@[131] == 21875295016346044079788364439883604670, MAT@[7] == 1, MAT@[19] == 1, MAT@[31] == 2, MAT@[43] == 3, MAT@[55] == 2, MAT@[67] == 2, MAT@[79] == 4, MAT@[91] == 6, MAT@[103] == 1, MAT@[115] == 1, MAT@[127] == 2, MAT@[139] == 3,
    ;
    assert(product_entry(INV_MAT@, MAT@, 12, 10, 8) == (INV_MAT@[120] as int) * (MAT@[8] as int) + (INV_MAT@[121] as int) * (MAT@[20] as int) + (INV_MAT@[122] as int) * (MAT@[32] as int) + (INV_MAT@[123] as int) * (MAT@[44] as int) + (INV_MAT@[124] as int) * (MAT@[56] as int) + (INV_MAT@[125] as int) * (MAT@[68] as int) + (INV_MAT@[126] as int) * (MAT@[80] as int) + (INV_MAT@[127] as int) * (MAT@[92] as int) + (INV_MAT@[128] as int) * (MAT@[104] as int) + (INV_MAT@[129] as int) * (MAT@[116] as int) + (INV_MAT@[130] as int) * (MAT@[128] as int) + (INV_MAT@[131] as int) * (MAT@[140] as int));
    assert(((INV_MAT@[120] as int) * (MAT@[8] as int) + (INV_MAT@[121] as int) * (MAT@[20] as int) + (INV_MAT@[122] as int) * (MAT@[32] as int) + (INV_MAT@[123] as int) * (MAT@[44] as int) + (INV_MAT@[124] as int) * (MAT@[56] as int) + (INV_MAT@[125] as int) * (MAT@[68] as int) + (INV_MAT@[126] as int) * (MAT@[80] as int) + (INV_MAT@[127] as int) * (MAT@[92] as int) + (INV_MAT@[128] as int) * (MAT@[104] as int) + (INV_MAT@[129] as int) * (MAT@[116] as int) + (INV_MAT@[130] as int) * (MAT@[128] as int) + (INV_MAT@[131] as int) * (MAT@[140] as int)) % 340282366920938463463374557953744961537 == 0) by (nonlinear_arith)
        requires
            INV_MAT@[120] == 94792945070832857679082912572828953571, INV_MAT@[121] == 213891773493161319891264007856639690109, INV_MAT@[122] == 196877655147114396718095279958952442032, INV_MAT@[123] == 332990601915489782103445103140450426647, INV_MAT@[124] == 94792945070832857679082912572828953571, INV_MAT@[125] == 213891773493161319891264007856639690109, INV_MAT@[126] == 196877655147114396718095279958952442032, INV_MAT@[127] == 332990601915489782103445103140450426647, INV_MAT@[128] == 55903531708439890426125820235258100824, INV_MAT@[129] == 38889413362392967252957092337570852747, INV_MAT@[130] == 89931768400533736772463276030632596978, INV_MAT@[131] == 21875295016346044079788364439883604670, MAT@[8] == 3, MAT@[20] == 1, MAT@[32] == 1, MAT@[44] == 2, MAT@[56] == 3, MAT@[68] == 1, MAT@[80] == 1, MAT@[92] == 2, MAT@[104] == 6, MAT@[116] == 2, MAT@[128] == 2, MAT@[140] == 4,
    ;
    assert(product_entry(INV_MAT@, MAT@, 12, 10, 9) == (INV_MAT@[120] as int) * (MAT@[9] as int) + (INV_MAT@[121] as int) * (MAT@[21] as int) + (INV_MAT@[122] as int) * (MAT@[33] as int) + (INV_MAT@[123] as int) * (MAT@[45] as int) + (INV_MAT@[124] as int) * (MAT@[57] as int) + (INV_MAT@[125] as int) * (MAT@[69] as int) + (INV_MAT@[126] as int) * (MAT@[81] as int) + (INV_MAT@[127] as int) * (MAT@[93] as int) + (INV_MAT@[128] as int) * (MAT@[105] as int) + (INV_MAT@[129] as int) * (MAT@[117] as int) + (INV_MAT@[130] as int) * (MAT@[129] as int) + (INV_MAT@[131] as int) * (MAT@[141] as int));
    assert(((INV_MAT@[120] as int) * (MAT@[9] as int) + (INV_MAT@[121] as int) * (MAT@[21] as int) + (INV_MAT@[122] as int) * (MAT@[33] as int) + (INV_MAT@[123] as int) * (MAT@[45] as int) + (INV_MAT@[124] as int) * (MAT@[57] as int) + (INV_MAT@[125] as int) * (MAT@[69] as int) + (INV_MAT@[126] as int) * (MAT@[81] as int) + (INV_MAT@[127] as int) * (MAT@[93] as int) + (INV_MAT@[128] as int) * (MAT@[105] as int) + (INV_MAT@[129] as int) * (MAT@[117] as int) + (INV_MAT@[130] as int) * (MAT@[129] as int) + (INV_MAT@[131] as int) * (MAT@[141] as int)) % 340282366920938463463374557953744961537 == 0) by (nonlinear_arith)
        requires
            INV_MAT@[120] == 94792945070832857679082912572828953571, INV_MAT@[121] == 213891773493161319891264007856639690109, INV_MAT@[122] == 196877655147114396718095279958952442032, INV_MAT@[123] == 332990601915489782103445103140450426647, INV_MAT@[124] == 94792945070832857679082912572828953571, INV_MAT@[125] == 213891773493161319891264007856639690109, INV_MAT@[126] == 196877655147114396718095279958952442032, INV_MAT@[127] == 332990601915489782103445103140450426647, INV_MAT@[128] == 55903531708439890426125820235258100824, INV_MAT@[129] == 38889413362392967252957092337570852747, INV_MAT@[130] == 89931768400533736772463276030632596978, INV_MAT@[131] == 21875295016346044079788364439883604670, MAT@[9] == 2, MAT@[21] == 3, MAT@[33] == 1, MAT@[45] == 1, MAT@[57] == 2, MAT@[69] == 3, MAT@[81] == 1, MAT@[93] == 1, MAT@[105] == 4, MAT@[117] == 6, MAT@[129] == 2, MAT@[141] == 2,
    ;
    assert(product_entry(INV_MAT@, MAT@, 12, 10, 10) == (INV_MAT@[120] as int) * (MAT@[10] as int) + (INV_MAT@[121] as int) * (MAT@[22] as int) + (INV_MAT@[122] as int) * (MAT@[34] as int) + (INV_MAT@[123] as int) * (MAT@[46] as int) + (INV_MAT@[124] as int) * (MAT@[58] as int) + (INV_MAT@[125] as int) * (MAT@[70] as int) + (INV_MAT@[126] as int) * (MAT@[82] as int) + (INV_MAT@[127] as int) * (MAT@[94] as int) + (INV_MAT@[128] as int) * (MAT@[106] as int) + (INV_MAT@[129] as int) * (MAT@[118] as int) + (INV_MAT@[130] as int) * (MAT@[130] as int) + (INV_MAT@[131] as int) * (MAT@[142] as int));
    assert(((INV_MAT@[120] as int) * (MAT@[10] as int) + (INV_MAT@[121] as int) * (MAT@[22] as int) + (INV_MAT@[122] as int) * (MAT@[34] as int) + (INV_MAT@[123] as int) * (MAT@[46] as int) + (INV_MAT@[124] as int) * (MAT@[58] as int) + (INV_MAT@[125] as int) * (MAT@[70] as int) + (INV_MAT@[126] as int) * (MAT@[82] as int) + (INV_MAT@[127] as int) * (MAT@[94] as int) + (INV_MAT@[128] as int) * (MAT@[106] as int) + (INV_MAT@[129] as int) * (MAT@[118] as int) + (INV_MAT@[130] as int) * (MAT@[130] as int) + (INV_MAT@[131] as int) * (MAT@[142] as int)) % 340282366920938463463374557953744961537 == 1) by (nonlinear_arith)
        requires
            INV_MAT@[120] == 94792945070832857679082912572828953571, INV_MAT@[121] == 213891773493161319891264007856639690109, INV_MAT@[122] == 196877655147114396718095279958952442032, INV_MAT@[123] == 332990601915489782103445103140450426647, INV_MAT@[124] == 94792945070832857679082912572828953571, INV_MAT@[125] == 213891773493161319891264007856639690109, INV_MAT@[126] == 196877655147114396718095279958952442032, INV_MAT@[127] == 332990601915489782103445103140450426647, INV_MAT@[128] == 55903531708439890426125820235258100824, INV_MAT@[129] == 38889413362392967252957092337570852747, INV_MAT@[130] == 89931768400533736772463276030632596978, INV_MAT@[131] == 21875295016346044079788364439883604670, MAT@[10] == 1, MAT@[22] == 2, MAT@[34] == 3, MAT@[46] == 1, MAT@[58] == 1, MAT@[70] == 2, MAT@[82] == 3, MAT@[94] == 1, MAT@[106] == 2, MAT@[118] == 4, MAT@[130] == 6, MAT@[142] == 2,
    ;
    assert(product_entry(INV_MAT@, MAT@, 12, 10, 11) == (INV_MAT@[120] as int) * (MAT@[11] as int) + (INV_MAT@[121] as int) * (MAT@[23] as int) + (INV_MAT@[122] as int) * (MAT@[35] as int) + (INV_MAT@[123] as int) * (MAT@[47] as int) + (INV_MAT@[124] as int) * (MAT@[59] as int) + (INV_MAT@[125] as int) * (MAT@[71] as int) + (INV_MAT@[126] as int) * (MAT@[83] as int) + (INV_MAT@[127] as int) * (MAT@[95] as int) + (INV_MAT@[128] as int) * (MAT@[107] as int) + (INV_MAT@[129] as int) * (MAT@[119] as int) + (INV_MAT@[130] as int) * (MAT@[131] as int) + (INV_MAT@[131] as int) * (MAT@[143] as int));
    assert(((INV_MAT@[120] as int) * (MAT@[11] as int) + (INV_MAT@[121] as int) * (MAT@[23] as int) + (INV_MAT@[122] as int) * (MAT@[35] as int) + (INV_MAT@[123] as int) * (MAT@[47] as int) + (INV_MAT@[124] as int) * (MAT@[59] as int) + (INV_MAT@[125] as int) * (MAT@[71] as int) + (INV_MAT@[126] as int) * (MAT@[83] as int) + (INV_MAT@[127] as int) * (MAT@[95] as int) + (INV_MAT@[128] as int) * (MAT@[107] as int) + (INV_MAT@[129] as int) * (MAT@[119] as int) + (INV_MAT@[130] as int) * (MAT@[131] as int) + (INV_MAT@[131] as int) * (MAT@[143] as int)) % 340282366920938463463374557953744961537 == 0) by (nonlinear_arith)
        requires
            INV_MAT@[120] == 94792945070832857679082912572828953571, INV_MAT@[121] == 213891773493161319891264007856639690109, INV_MAT@[122] == 196877655147114396718095279958952442032, INV_MAT@[123] == 332990601915489782103445103140450426647, INV_MAT@[124] == 94792945070832857679082912572828953571, INV_MAT@[125] == 213891773493161319891264007856639690109, INV_MAT@[126] == 196877655147114396718095279958952442032, INV_MAT@[127] == 332990601915489782103445103140450426647, INV_MAT@[128] == 55903531708439890426125820235258100824, INV_MAT@[129] == 38889413362392967252957092337570852747, INV_MAT@[130] == 89931768400533736772463276030632596978, INV_MAT@[131] == 21875295016346044079788364439883604670, MAT@[11] == 1, MAT@[23] == 1, MAT@[35] == 2, MAT@[47] == 3, MAT@[59] == 1, MAT@[71] == 1, MAT@[83] == 2, MAT@[95] == 3, MAT@[107] == 2, MAT@[119] == 2, MAT@[131] == 4, MAT@[143] == 6,
    ;
}

proof fn lemma_product_backward_row_11()
    ensures
        identity_row(Elem::modulus(), INV_MAT@, MAT@, 12, 11, 12),
{
    reveal_with_fuel(sum, 13);
    reveal_with_fuel(identity_row, 13);
    assert(product_entry(INV_MAT@, MAT@, 12, 11, 0) == (INV_MAT@[132] as int) * (MAT@[0] as int) + (INV_MAT@[133] as int) * (MAT@[12] as int) + (INV_MAT@[134] as int) * (MAT@[24] as int) + (INV_MAT@[135] as int) * (MAT@[36] as int) + (INV_MAT@[136] as int) * (MAT@[48] as int) + (INV_MAT@[137] as int) * (MAT@[60] as int) + (INV_MAT@[138] as int) * (MAT@[72] as int) + (INV_MAT@[139] as int) * (MAT@[84] as int) + (INV_MAT@[140] as int) * (MAT@[96] as int) + (INV_MAT@[141] as int) * (MAT@[108] as int) + (INV_MAT@[142] as int) * (MAT@[120] as int) + (INV_MAT@[143] as int) * (MAT@[132] as int));
    assert(((INV_MAT@[132] as int) * (MAT@[0] as int) + (INV_MAT@[133] as int) * (MAT@[12] as int) + (INV_MAT@[134] as int) * (MAT@[24] as int) + (INV_MAT@[135] as int) * (MAT@[36] as int) + (INV_MAT@[136] as int) * (MAT@[48] as int) + (INV_MAT@[137] as int) * (MAT@[60] as int) + (INV_MAT@[138] as int) * (MAT@[72] as int) + (INV_MAT@[139] as int) * (MAT@[84] as int) + (INV_MAT@[140] as int) * (MAT@[96] as int) + (INV_MAT@[141] as int) * (MAT@[108] as int) + (INV_MAT@[142] as int) * (MAT@[120] as int) + (INV_MAT@[143] as int) * (MAT@[132] as int)) % 340282366920938463463374557953744961537 == 0) by (nonlinear_arith)
        requires
            INV_MAT@[132] == 332990601915489782103445103140450426647, INV_MAT@[133] == 94792945070832857679082912572828953571, INV_MAT@[134] == 213891773493161319891264007856639690109, INV_MAT@[135] == 196877655147114396718095279958952442032, INV_MAT@[136] == 332990601915489782103445103140450426647, INV_MAT@[137] == 94792945070832857679082912572828953571, INV_MAT@[138] == 213891773493161319891264007856639690109, INV_MAT@[139] == 196877655147114396718095279958952442032, INV_MAT@[140] == 21875295016346044079788364439883604670, INV_MAT@[141] == 55903531708439890426125820235258100824, INV_MAT@[142] == 38889413362392967252957092337570852747, INV_MAT@[143] == 89931768400533736772463276030632596978, MAT@[0] == 6, MAT@[12] == 2, MAT@[24] == 2, MAT@[36] == 4, MAT@[48] == 3, MAT@[60] == 1, MAT@[72] == 1, MAT@[84] == 2, MAT@[96] == 3, MAT@[108] == 1, MAT@[120] == 1, MAT@[132] == 2,
    ;
    assert(product_entry(INV_MAT@, MAT@, 12, 11, 1) == (INV_MAT@[132] as int) * (MAT@[1] as int) + (INV_MAT@[133] as int) * (MAT@[13] as int) + (INV_MAT@[134] as int) * (MAT@[25] as int) + (INV_MAT@[135] as int) * (MAT@[37] as int) + (INV_MAT@[136] as int) * (MAT@[49] as int) + (INV_MAT@[137] as int) * (MAT@[61] as int) + (INV_MAT@[138] as int) * (MAT@[73] as int) + (INV_MAT@[139] as int) * (MAT@[85] as int) + (INV_MAT@[140] as int) * (MAT@[97] as int) + (INV_MAT@[141] as int) * (MAT@[109] as int) + (INV_MAT@[142] as int) * (MAT@[121] as int) + (INV_MAT@[143] as int) * (MAT@[133] as int));
    assert(((INV_MAT@[132] as int) * (MAT@[1] as int) + (INV_MAT@[133] as int) * (MAT@[13] as int) + (INV_MAT@[134] as int) * (MAT@[25] as int) + (INV_MAT@[135] as int) * (MAT@[37] as int) + (INV_MAT@[136] as int) * (MAT@[49] as int) + (INV_MAT@[137] as int) * (MAT@[61] as int) + (INV_MAT@[138] as int) * (MAT@[73] as int) + (INV_MAT@[139] as int) * (MAT@[85] as int) + (INV_MAT@[140] as int) * (MAT@[97] as int) + (INV_MAT@[141] as int) * (MAT@[109] as int) + (INV_MAT@[142] as int) * (MAT@[121] as int) + (INV_MAT@[143] as int) * (MAT@[133] as int)) % 340282366920938463463374557953744961537 == 0) by (nonlinear_arith)
        requires
            INV_MAT@[132] == 332990601915489782103445103140450426647, INV_MAT@[133] == 94792945070832857679082912572828953571, INV_MAT@[134] == 213891773493161319891264007856639690109, INV_MAT@[135] == 196877655147114396718095279958952442032, INV_MAT@[136] == 332990601915489782103445103140450426647, INV_MAT@[137] == 94792945070832857679082912572828953571, INV_MAT@[138] == 213891773493161319891264007856639690109, INV_MAT@[139] == 196877655147114396718095279958952442032, INV_MAT@[140] == 21875295016346044079788364439883604670, INV_MAT@[141] == 55903531708439890426125820235258100824, INV_MAT@[142] == 38889413362392967252957092337570852747, INV_MAT@[143] == 89931768400533736772463276030632596978, MAT@[1] == 4, MAT@[13] == 6, MAT@[25] == 2, MAT@[37] == 2, MAT@[49] == 2, MAT@[61] == 3, MAT@[73] == 1, MAT@[85] == 1, MAT@[97] == 2, MAT@[109] == 3, MAT@[121] == 1, MAT@[133] == 1,
    ;
    assert(product_entry(INV_MAT@, MAT@, 12, 11, 2) == (INV_MAT@[132] as int) * (MAT@[2] as int) + (INV_MAT@[133] as int) * (MAT@[14] as int) + (INV_MAT@[134] as int) * (MAT@[26] as int) + (INV_MAT@[135] as int) * (MAT@[38] as int) + (INV_MAT@[136] as int) * (MAT@[50] as int) + (INV_MAT@[137] as int) * (MAT@[62] as int) + (INV_MAT@[138] as int) * (MAT@[74] as int) + (INV_MAT@[139] as int) * (MAT@[86] as int) + (INV_MAT@[140] as int) * (MAT@[98] as int) + (INV_MAT@[141] as int) * (MAT@[110] as int) + (INV_MAT@[142] as int) * (MAT@[122] as int) + (INV_MAT@[143] as int) * (MAT@[134] as int));
    assert(((INV_MAT@[132] as int) * (MAT@[2] as int) + (INV_MAT@[133] as int) * (MAT@[14] as int) + (INV_MAT@[134] as int) * (MAT@[26] as int) + (INV_MAT@[135] as int) * (MAT@[38] as int) + (INV_MAT@[136] as int) * (MAT@[50] as int) + (INV_MAT@[137] as int) * (MAT@[62] as int) + (INV_MAT@[138] as int) * (MAT@[74] as int) + (INV_MAT@[139] as int) * (MAT@[86] as int) + (INV_MAT@[140] as int) * (MAT@[98] as int) + (INV_MAT@[141] as int) * (MAT@[110] as int) + (INV_MAT@[142] as int) * (MAT@[122] as int) + (INV_MAT@[143] as int) * (MAT@[134] as int)) % 340282366920938463463374557953744961537 == 0) by (nonlinear_arith)
        requires
            INV_MAT@[132] == 332990601915489782103445103140450426647, INV_MAT@[133] == 94792945070832857679082912572828953571, INV_MAT@[134] == 213891773493161319891264007856639690109, INV_MAT@[135] == 196877655147114396718095279958952442032, INV_MAT@[136] == 332990601915489782103445103140450426647, INV_MAT@[137] == 94792945070832857679082912572828953571, INV_MAT@[138] == 213891773493161319891264007856639690109, INV_MAT@[139] == 196877655147114396718095279958952442032, INV_MAT@[140] == 21875295016346044079788364439883604670, INV_MAT@[141] == 55903531708439890426125820235258100824, INV_MAT@[142] == 38889413362392967252957092337570852747, INV_MAT@[143] == 89931768400533736772463276030632596978, MAT@[2] == 2, MAT@[14] == 4, MAT@[26] == 6, MAT@[38] == 2, MAT@[50] == 1, MAT@[62] == 2, MAT@[74] == 3, MAT@[86] == 1, MAT@[98] == 1, MAT@[110] == 2, MAT@[122] == 3, MAT@[134] == 1,
    ;
    assert(product_entry(INV_MAT@, MAT@, 12, 11, 3) == (INV_MAT@[132] as int) * (MAT@[3] as int) + (INV_MAT@[133] as int) * (MAT@[15] as int) + (INV_MAT@[134] as int) * (MAT@[27] as int) + (INV_MAT@[135] as int) * (MAT@[39] as int) + (INV_MAT@[136] as int) * (MAT@[51] as int) + (INV_MAT@[137] as int) * (MAT@[63] as int) + (INV_MAT@[138] as int) * (MAT@[75] as int) + (INV_MAT@[139] as int) * (MAT@[87] as int) + (INV_MAT@[140] as int) * (MAT@[99] as int) + (INV_MAT@[141] as int) * (MAT@[111] as int) + (INV_MAT@[142] as int) * (MAT@[123] as int) + (INV_MAT@[143] as int) * (MAT@[135] as int));
    assert(((INV_MAT@[132] as int) * (MAT@[3] as int) + (INV_MAT@[133] as int) * (MAT@[15] as int) + (INV_MAT@[134] as int) * (MAT@[27] as int) + (INV_MAT@[135] as int) * (MAT@[39] as int) + (INV_MAT@[136] as int) * (MAT@[51] as int) + (INV_MAT@[137] as int) * (MAT@[63] as int) + (INV_MAT@[138] as int) * (MAT@[75] as int) + (INV_MAT@[139] as int) * (MAT@[87] as int) + (INV_MAT@[140] as int) * (MAT@[99] as int) + (INV_MAT@[141] as int) * (MAT@[111] as int) + (INV_MAT@[142] as int) * (MAT@[123] as int) + (INV_MAT@[143] as int) * (MAT@[135] as int)) % 340282366920938463463374557953744961537 == 0) by (nonlinear_arith)
        requires
            INV_MAT@[132] == 332990601915489782103445103140450426647, INV_MAT@[133] == 94792945070832857679082912572828953571, INV_MAT@[134] == 213891773493161319891264007856639690109, INV_MAT@[135] == 196877655147114396718095279958952442032, INV_MAT@[136] == 332990601915489782103445103140450426647, INV_MAT@[137] == 94792945070832857679082912572828953571, INV_MAT@[138] == 213891773493161319891264007856639690109, INV_MAT@[139] == 196877655147114396718095279958952442032, INV_MAT@[140] == 21875295016346044079788364439883604670, INV_MAT@[141] == 55903531708439890426125820235258100824, INV_MAT@[142] == 38889413362392967252957092337570852747, INV_MAT@[143] == 89931768400533736772463276030632596978, MAT@[3] == 2, MAT@[15] == 2, MAT@[27] == 4, MAT@[39] == 6, MAT@[51] == 1, MAT@[63] == 1, MAT@[75] == 2, MAT@[87] == 3, MAT@[99] == 1, MAT@[111] == 1, MAT@[123] == 2, MAT@[135] == 3,
    ;
    assert(product_entry(INV_MAT@, MAT@, 12, 11, 4) == (INV_MAT@[132] as int) * (MAT@[4] as int) + (INV_MAT@[133] as int) * (MAT@[16] as int) + (INV_MAT@[134] as int) * (MAT@[28] as int) + (INV_MAT@[135] as int) * (MAT@[40] as int) + (INV_MAT@[136] as int) * (MAT@[52] as int) + (INV_MAT@[137] as int) * (MAT@[64] as int) + (INV_MAT@[138] as int) * (MAT@[76] as int) + (INV_MAT@[139] as int) * (MAT@[88] as int) + (INV_MAT@[140] as int) * (MAT@[100] as int) + (INV_MAT@[141] as int) * (MAT@[112] as int) + (INV_MAT@[142] as int) * (MAT@[124] as int) + (INV_MAT@[143] as int) * (MAT@[136] as int));
    assert(((INV_MAT@[132] as int) * (MAT@[4] as int) + (INV_MAT@[133] as int) * (MAT@[16] as int) + (INV_MAT@[134] as int) * (MAT@[28] as int) + (INV_MAT@[135] as int) * (MAT@[40] as int) + (INV_MAT@[136] as int) * (MAT@[52] as int) + (INV_MAT@[137] as int) * (MAT@[64] as int) + (INV_MAT@[138] as int) * (MAT@[76] as int) + (INV_MAT@[139] as int) * (MAT@[88] as int) + (INV_MAT@[140] as int) * (MAT@[100] as int) + (INV_MAT@[141] as int) * (MAT@[112] as int) + (INV_MAT@[142] as int) * (MAT@[124] as int) + (INV_MAT@[143] as int) * (MAT@[136] as int)) % 340282366920938463463374557953744961537 == 0) by (nonlinear_arith)
        requires
            INV_MAT@[132] == 332990601915489782103445103140450426647, INV_MAT@[133] == 94792945070832857679082912572828953571, INV_MAT@[134] == 213891773493161319891264007856639690109, INV_MAT@[135] == 196877655147114396718095279958952442032, INV_MAT@[136] == 332990601915489782103445103140450426647, INV_MAT@[137] == 94792945070832857679082912572828953571, INV_MAT@[138] == 213891773493161319891264007856639690109, INV_MAT@[139] == 196877655147114396718095279958952442032, INV_MAT@[140] == 21875295016346044079788364439883604670, INV_MAT@[141] == 55903531708439890426125820235258100824, INV_MAT@[142] == 38889413362392967252957092337570852747, INV_MAT@[143] == 89931768400533736772463276030632596978, MAT@[4] == 3, MAT@[16] == 1, MAT@[28] == 1, MAT@[40] == 2, MAT@[52] == 6, MAT@[64] == 2, MAT@[76] == 2, MAT@[88] == 4, MAT@[100] == 3, MAT@[112] == 1, MAT@[124] == 1, MAT@[136] == 2,
    ;
    assert(product_entry(INV_MAT@, MAT@, 12, 11, 5) == (INV_MAT@[132] as int) * (MAT@[5] as int) + (INV_MAT@[133] as int) * (MAT@[17] as int) + (INV_MAT@[134] as int) * (MAT@[29] as int) + (INV_MAT@[135] as int) * (MAT@[41] as int) + (INV_MAT@[136] as int) * (MAT@[53] as int) + (INV_MAT@[137] as int) * (MAT@[65] as int) + (INV_MAT@[138] as int) * (MAT@[77] as int) + (INV_MAT@[139] as int) * (MAT@[89] as int) + (INV_MAT@[140] as int) * (MAT@[101] as int) + (INV_MAT@[141] as int) * (MAT@[113] as int) + (INV_MAT@[142] as int) * (MAT@[125] as int) + (INV_MAT@[143] as int) * (MAT@[137] as int));
    assert(((INV_MAT@[132] as int) * (MAT@[5] as int) + (INV_MAT@[133] as int) * (MAT@[17] as int) + (INV_MAT@[134] as int) * (MAT@[29] as int) + (INV_MAT@[135] as int) * (MAT@[41] as int) + (INV_MAT@[136] as int) * (MAT@[53] as int) + (INV_MAT@[137] as int) * (MAT@[65] as int) + (INV_MAT@[138] as int) * (MAT@[77] as int) + (INV_MAT@[139] as int) * (MAT@[89] as int) + (INV_MAT@[140] as int) * (MAT@[101] as int) + (INV_MAT@[141] as int) * (MAT@[113] as int) + (INV_MAT@[142] as int) * (MAT@[125] as int) + (INV_MAT@[143] as int) * (MAT@[137] as int)) % 340282366920938463463374557953744961537 == 0) by (nonlinear_arith)
        requires
            INV_MAT@[132] == 332990601915489782103445103140450426647, INV_MAT@[133] == 94792945070832857679082912572828953571, INV_MAT@[134] == 213891773493161319891264007856639690109, INV_MAT@[135] == 196877655147114396718095279958952442032, INV_MAT@[136] == 332990601915489782103445103140450426647, INV_MAT@[137] == 94792945070832857679082912572828953571, INV_MAT@[138] == 213891773493161319891264007856639690109, INV_MAT@[139] == 196877655147114396718095279958952442032, INV_MAT@[140] == 21875295016346044079788364439883604670, INV_MAT@[141] == 55903531708439890426125820235258100824, INV_MAT@[142] == 38889413362392967252957092337570852747, INV_MAT@[143] == 89931768400533736772463276030632596978, MAT@[5] == 2, MAT@[17] == 3, MAT@[29] == 1, MAT@[41] == 1, MAT@[53] == 4, MAT@[65] == 6, MAT@[77] == 2, MAT@[89] == 2, MAT@[101] == 2, MAT@[113] == 3, MAT@[125] == 1, MAT@[137] == 1,
    ;
    assert(product_entry(INV_MAT@, MAT@, 12, 11, 6) == (INV_MAT@[132] as int) * (MAT@[6] as int) + (INV_MAT@[133] as int) * (MAT@[18] as int) + (INV_MAT@[134] as int) * (MAT@[30] as int) + (INV_MAT@[135] as int) * (MAT@[42] as int) + (INV_MAT@[136] as int) * (MAT@[54] as int) + (INV_MAT@[137] as int) * (MAT@[66] as int) + (INV_MAT@[138] as int) * (MAT@[78] as int) + (INV_MAT@[139] as int) * (MAT@[90] as int) + (INV_MAT@[140] as int) * (MAT@[102] as int) + (INV_MAT@[141] as int) * (MAT@[114] as int) + (INV_MAT@[142] as int) * (MAT@[126] as int) + (INV_MAT@[143] as int) * (MAT@[138] as int));
    assert(((INV_MAT@[132] as int) * (MAT@[6] as int) + (INV_MAT@[133] as int) * (MAT@[18] as int) + (INV_MAT@[134] as int) * (MAT@[30] as int) + (INV_MAT@[135] as int) * (MAT@[42] as int) + (INV_MAT@[136] as int) * (MAT@[54] as int) + (INV_MAT@[137] as int) * (MAT@[66] as int) + (INV_MAT@[138] as int) * (MAT@[78] as int) + (INV_MAT@[139] as int) * (MAT@[90] as int) + (INV_MAT@[140] as int) * (MAT@[102] as int) + (INV_MAT@[141] as int) * (MAT@[114] as int) + (INV_MAT@[142] as int) * (MAT@[126] as int) + (INV_MAT@[143] as int) * (MAT@[138] as int)) % 340282366920938463463374557953744961537 == 0) by (nonlinear_arith)
        requires
            INV_MAT@[132] == 332990601915489782103445103140450426647, INV_MAT@[133] == 94792945070832857679082912572828953571, INV_MAT@[134] == 213891773493161319891264007856639690109, INV_MAT@[135] == 196877655147114396718095279958952442032, INV_MAT@[136] == 332990601915489782103445103140450426647, INV_MAT@[137] == 94792945070832857679082912572828953571, INV_MAT@[138] == 213891773493161319891264007856639690109, INV_MAT@[139] == 196877655147114396718095279958952442032, INV_MAT@[140] == 21875295016346044079788364439883604670, INV_MAT@[141] == 55903531708439890426125820235258100824, INV_MAT@[142] == 38889413362392967252957092337570852747, INV_MAT@[143] == 89931768400533736772463276030632596978, MAT@[6] == 1, MAT@[18] == 2, MAT@[30] == 3, MAT@[42] == 1, MAT@[54] == 2, MAT@[66] == 4, MAT@[78] == 6, MAT@[90] == 2, MAT@[102] == 1, MAT@[114] == 2, MAT@[126] == 3, MAT@[138] == 1,
    ;
    assert(product_entry(INV_MAT@, MAT@, 12, 11, 7) == (INV_MAT@[132] as int) * (MAT@[7] as int) + (INV_MAT@[133] as int) * (MAT@[19] as int) + (INV_MAT@[134] as int) * (MAT@[31] as int) + (INV_MAT@[135] as int) * (MAT@[43] as int) + (INV_MAT@[136] as int) * (MAT@[55] as int) + (INV_MAT@[137] as int) * (MAT@[67] as int) + (INV_MAT@[138] as int) * (MAT@[79] as int) + (INV_MAT@[139] as int) * (MAT@[91] as int) + (INV_MAT@[140] as int) * (MAT@[103] as int) + (INV_MAT@[141] as int) * (MAT@[115] as int) + (INV_MAT@[142] as int) * (MAT@[127] as int) + (INV_MAT@[143] as int) * (MAT@[139] as int));
    assert(((INV_MAT@[132] as int) * (MAT@[7] as int) + (INV_MAT@[133] as int) * (MAT@[19] as int) + (INV_MAT@[134] as int) * (MAT@[31] as int) + (INV_MAT@[135] as int) * (MAT@[43] as int) + (INV_MAT@[136] as int) * (MAT@[55] as int) + (INV_MAT@[137] as int) * (MAT@[67] as int) + (INV_MAT@[138] as int) * (MAT@[79] as int) + (INV_MAT@[139] as int) * (MAT@[91] as int) + (INV_MAT@[140] as int) * (MAT@[103] as int) + (INV_MAT@[141] as int) * (MAT@[115] as int) + (INV_MAT@[142] as int) * (MAT@[127] as int) + (INV_MAT@[143] as int) * (MAT@[139] as int)) % 340282366920938463463374557953744961537 == 0) by (nonlinear_arith)
        requires
            INV_MAT@[132] == 332990601915489782103445103140450426647, INV_MAT@[133] == 94792945070832857679082912572828953571, INV_MAT@[134] == 213891773493161319891264007856639690109, INV_MAT@[135] == 196877655147114396718095279958952442032, INV_MAT@[136] == 332990601915489782103445103140450426647, INV_MAT@[137] == 94792945070832857679082912572828953571, INV_MAT@[138] == 213891773493161319891264007856639690109, INV_MAT@[139] == 196877655147114396718095279958952442032, INV_MAT@[140] == 21875295016346044079788364439883604670, INV_MAT@[141] == 55903531708439890426125820235258100824, INV_MAT@[142] == 38889413362392967252957092337570852747, INV_MAT@[143] == 89931768400533736772463276030632596978, MAT@[7] == 1, MAT@[19] == 1, MAT@[31] == 2, MAT@[43] == 3, MAT@[55] == 2, MAT@[67] == 2, MAT@[79] == 4, MAT@[91] == 6, MAT@[103] == 1, MAT@[115] == 1, MAT@[127] == 2, MAT@[139] == 3,
    ;
    assert(product_entry(INV_MAT@, MAT@, 12, 11, 8) == (INV_MAT@[132] as int) * (MAT@[8] as int) + (INV_MAT@[133] as int) * (MAT@[20] as int) + (INV_MAT@[134] as int) * (MAT@[32] as int) + (INV_MAT@[135] as int) * (MAT@[44] as int) + (INV_MAT@[136] as int) * (MAT@[56] as int) + (INV_MAT@[137] as int) * (MAT@[68] as int) + (INV_MAT@[138] as int) * (MAT@[80] as int) + (INV_MAT@[139] as int) * (MAT@[92] as int) + (INV_MAT@[140] as int) * (MAT@[104] as int) + (INV_MAT@[141] as int) * (MAT@[116] as int) + (INV_MAT@[142] as int) * (MAT@[128] as int) + (INV_MAT@[143] as int) * (MAT@[140] as int));
    assert(((INV_MAT@[132] as int) * (MAT@[8] as int) + (INV_MAT@[133] as int) * (MAT@[20] as int) + (INV_MAT@[134] as int) * (MAT@[32] as int) + (INV_MAT@[135] as int) * (MAT@[44] as int) + (INV_MAT@[136] as int) * (MAT@[56] as int) + (INV_MAT@[137] as int) * (MAT@[68] as int) + (INV_MAT@[138] as int) * (MAT@[80] as int) + (INV_MAT@[139] as int) * (MAT@[92] as int) + (INV_MAT@[140] as int) * (MAT@[104] as int) + (INV_MAT@[141] as int) * (MAT@[116] as int) + (INV_MAT@[142] as int) * (MAT@[128] as int) + (INV_MAT@[143] as int) * (MAT@[140] as int)) % 340282366920938463463374557953744961537 == 0) by (nonlinear_arith)
        requires
            INV_MAT@[132] == 332990601915489782103445103140450426647, INV_MAT@[133] == 94792945070832857679082912572828953571, INV_MAT@[134] == 213891773493161319891264007856639690109, INV_MAT@[135] == 196877655147114396718095279958952442032, INV_MAT@[136] == 332990601915489782103445103140450426647, INV_MAT@[137] == 94792945070832857679082912572828953571, INV_MAT@[138] == 213891773493161319891264007856639690109, INV_MAT@[139] == 196877655147114396718095279958952442032, INV_MAT@[140] == 21875295016346044079788364439883604670, INV_MAT@[141] == 55903531708439890426125820235258100824, INV_MAT@[142] == 38889413362392967252957092337570852747, INV_MAT@[143] == 89931768400533736772463276030632596978, MAT@[8] == 3, MAT@[20] == 1, MAT@[32] == 1, MAT@[44] == 2, MAT@[56] == 3, MAT@[68] == 1, MAT@[80] == 1, MAT@[92] == 2, MAT@[104] == 6, MAT@[116] == 2, MAT@[128] == 2, MAT@[140] == 4,
    ;
    assert(product_entry(INV_MAT@, MAT@, 12, 11, 9) == (INV_MAT@[132] as int) * (MAT@[9] as int) + (INV_MAT@[133] as int) * (MAT@[21] as int) + (INV_MAT@[134] as int) * (MAT@[33] as int) + (INV_MAT@[135] as int) * (MAT@[45] as int) + (INV_MAT@[136] as int) * (MAT@[57] as int) + (INV_MAT@[137] as int) * (MAT@[69] as int) + (INV_MAT@[138] as int) * (MAT@[81] as int) + (INV_MAT@[139] as int) * (MAT@[93] as int) + (INV_MAT@[140] as int) * (MAT@[105] as int) + (INV_MAT@[141] as int) * (MAT@[117] as int) + (INV_MAT@[142] as int) * (MAT@[129] as int) + (INV_MAT@[143] as int) * (MAT@[141] as int));
    assert(((INV_MAT@[132] as int) * (MAT@[9] as int) + (INV_MAT@[133] as int) * (MAT@[21] as int) + (INV_MAT@[134] as int) * (MAT@[33] as int) + (INV_MAT@[135] as int) * (MAT@[45] as int) + (INV_MAT@[136] as int) * (MAT@[57] as int) + (INV_MAT@[137] as int) * (MAT@[69] as int) + (INV_MAT@[138] as int) * (MAT@[81] as int) + (INV_MAT@[139] as int) * (MAT@[93] as int) + (INV_MAT@[140] as int) * (MAT@[105] as int) + (INV_MAT@[141] as int) * (MAT@[117] as int) + (INV_MAT@[142] as int) * (MAT@[129] as int) + (INV_MAT@[143] as int) * (MAT@[141] as int)) % 340282366920938463463374557953744961537 == 0) by (nonlinear_arith)
        requires
            INV_MAT@[132] == 332990601915489782103445103140450426647, INV_MAT@[133] == 94792945070832857679082912572828953571, INV_MAT@[134] == 213891773493161319891264007856639690109, INV_MAT@[135] == 196877655147114396718095279958952442032, INV_MAT@[136] == 332990601915489782103445103140450426647, INV_MAT@[137] == 94792945070832857679082912572828953571, INV_MAT@[138] == 213891773493161319891264007856639690109, INV_MAT@[139] == 196877655147114396718095279958952442032, INV_MAT@[140] == 21875295016346044079788364439883604670, INV_MAT@[141] == 55903531708439890426125820235258100824, INV_MAT@[142] == 38889413362392967252957092337570852747, INV_MAT@[143] == 89931768400533736772463276030632596978, MAT@[9] == 2, MAT@[21] == 3, MAT@[33] == 1, MAT@[45] == 1, MAT@[57] == 2, MAT@[69] == 3, MAT@[81] == 1, MAT@[93] == 1, MAT@[105] == 4, MAT@[117] == 6, MAT@[129] == 2, MAT@[141] == 2,
    ;
    assert(product_entry(INV_MAT@, MAT@, 12, 11, 10) == (INV_MAT@[132] as int) * (MAT@[10] as int) + (INV_MAT@[133] as int) * (MAT@[22] as int) + (INV_MAT@[134] as int) * (MAT@[34] as int) + (INV_MAT@[135] as int) * (MAT@[46] as int) + (INV_MAT@[136] as int) * (MAT@[58] as int) + (INV_MAT@[137] as int) * (MAT@[70] as int) + (INV_MAT@[138] as int) * (MAT@[82] as int) + (INV_MAT@[139] as int) * (MAT@[94] as int) + (INV_MAT@[140] as int) * (MAT@[106] as int) + (INV_MAT@[141] as int) * (MAT@[118] as int) + (INV_MAT@[142] as int) * (MAT@[130] as int) + (INV_MAT@[143] as int) * (MAT@[142] as int));
    assert(((INV_MAT@[132] as int) * (MAT@[10] as int) + (INV_MAT@[133] as int) * (MAT@[22] as int) + (INV_MAT@[134] as int) * (MAT@[34] as int) + (INV_MAT@[135] as int) * (MAT@[46] as int) + (INV_MAT@[136] as int) * (MAT@[58] as int) + (INV_MAT@[137] as int) * (MAT@[70] as int) + (INV_MAT@[138] as int) * (MAT@[82] as int) + (INV_MAT@[139] as int) * (MAT@[94] as int) + (INV_MAT@[140] as int) * (MAT@[106] as int) + (INV_MAT@[141] as int) * (MAT@[118] as int) + (INV_MAT@[142] as int) * (MAT@[130] as int) + (INV_MAT@[143] as int) * (MAT@[142] as int)) % 340282366920938463463374557953744961537 == 0) by (nonlinear_arith)
        requires
            INV_MAT@[132] == 332990601915489782103445103140450426647, INV_MAT@[133] == 94792945070832857679082912572828953571, INV_MAT@[134] == 213891773493161319891264007856639690109, INV_MAT@[135] == 196877655147114396718095279958952442032, INV_MAT@[136] == 332990601915489782103445103140450426647, INV_MAT@[137] == 94792945070832857679082912572828953571, INV_MAT@[138] == 213891773493161319891264007856639690109, INV_MAT@[139] == 196877655147114396718095279958952442032, INV_MAT@[140] == 21875295016346044079788364439883604670, INV_MAT@[141] == 55903531708439890426125820235258100824, INV_MAT@[142] == 38889413362392967252957092337570852747, INV_MAT@[143] == 89931768400533736772463276030632596978, MAT@[10] == 1, MAT@[22] == 2, MAT@[34] == 3, MAT@[46] == 1, MAT@[58] == 1, MAT@[70] == 2, MAT@[82] == 3, MAT@[94] == 1, MAT@[106] == 2, MAT@[118] == 4, MAT@[130] == 6, MAT@[142] == 2,
    ;
    assert(product_entry(INV_MAT@, MAT@, 12, 11, 11) == (INV_MAT@[132] as int) * (MAT@[11] as int) + (INV_MAT@[133] as int) * (MAT@[23] as int) + (INV_MAT@[134] as int) * (MAT@[35] as int) + (INV_MAT@[135] as int) * (MAT@[47] as int) + (INV_MAT@[136] as int) * (MAT@[59] as int) + (INV_MAT@[137] as int) * (MAT@[71] as int) + (INV_MAT@[138] as int) * (MAT@[83] as int) + (INV_MAT@[139] as int) * (MAT@[95] as int) + (INV_MAT@[140] as int) * (MAT@[107] as int) + (INV_MAT@[141] as int) * (MAT@[119] as int) + (INV_MAT@[142] as int) * (MAT@[131] as int) + (INV_MAT@[143] as int) * (MAT@[143] as int));
    assert(((INV_MAT@[132] as int) * (MAT@[11] as int) + (INV_MAT@[133] as int) * (MAT@[23] as int) + (INV_MAT@[134] as int) * (MAT@[35] as int) + (INV_MAT@[135] as int) * (MAT@[47] as int) + (INV_MAT@[136] as int) * (MAT@[59] as int) + (INV_MAT@[137] as int) * (MAT@[71] as int) + (INV_MAT@[138] as int) * (MAT@[83] as int) + (INV_MAT@[139] as int) * (MAT@[95] as int) + (INV_MAT@[140] as int) * (MAT@[107] as int) + (INV_MAT@[141] as int) * (MAT@[119] as int) + (INV_MAT@[142] as int) * (MAT@[131] as int) + (INV_MAT@[143] as int) * (MAT@[143] as int)) % 340282366920938463463374557953744961537 == 1) by (nonlinear_arith)
        requires
            INV_MAT@[132] == 332990601915489782103445103140450426647, INV_MAT@[133] == 94792945070832857679082912572828953571, INV_MAT@[134] == 213891773493161319891264007856639690109, INV_MAT@[135] == 196877655147114396718095279958952442032, INV_MAT@[136] == 332990601915489782103445103140450426647, INV_MAT@[137] == 94792945070832857679082912572828953571, INV_MAT@[138] == 213891773493161319891264007856639690109, INV_MAT@[139] == 196877655147114396718095279958952442032, INV_MAT@[140] == 21875295016346044079788364439883604670, INV_MAT@[141] == 55903531708439890426125820235258100824, INV_MAT@[142] == 38889413362392967252957092337570852747, INV_MAT@[143] == 89931768400533736772463276030632596978, MAT@[11] == 1, MAT@[23] == 1, MAT@[35] == 2, MAT@[47] == 3, MAT@[59] == 1, MAT@[71] == 1, MAT@[83] == 2, MAT@[95] == 3, MAT@[107] == 2, MAT@[119] == 2, MAT@[131] == 4, MAT@[143] == 6,
    ;
}

proof fn lemma_product_backward()
    ensures
        product_is_identity(Elem::modulus(), INV_MAT@, MAT@, 12),
{
    lemma_product_backward_row_0();
    lemma_product_backward_row_1();
    lemma_product_backward_row_2();
    lemma_product_backward_row_3();
    lemma_product_backward_row_4();
    lemma_product_backward_row_5();
    lemma_product_backward_row_6();
    lemma_product_backward_row_7();
    lemma_product_backward_row_8();
    lemma_product_backward_row_9();
    lemma_product_backward_row_10();
    lemma_product_backward_row_11();
    reveal_with_fuel(identity_rows, 13);
    assert(identity_rows(Elem::modulus(), INV_MAT@, MAT@, 12, 12));
    lemma_identity_rows(Elem::modulus(), INV_MAT@, MAT@, 12);
}

/// The digest of `input_sequence`, whose length must be a multiple of `RATE`.
pub fn hash(input_sequence: &Vec<Elem>) -> (r: [Elem; RATE])
    requires
        input_sequence@.len() % (RATE as nat) == 0,
    ensures
        vals(r@) == hash_spec(spec_params(), Elem::modulus(), vals(input_sequence@)),
{
    griffin_hash(input_sequence)
}

/// The sponge: starting from the zero state, each chunk of `RATE` elements is added onto the
/// first lanes and the state permuted; the digest is the first `RATE` lanes.
pub fn griffin_hash(input_sequence: &Vec<Elem>) -> (r: [Elem; RATE])
    requires
        input_sequence@.len() % (RATE as nat) == 0,
    ensures
        vals(r@) == hash_spec(spec_params(), Elem::modulus(), vals(input_sequence@)),
{
    let digest = params().hash(input_sequence);
    to_array(&digest)
}

/// Applies the `NUM_ROUNDS` rounds to `state`.
pub fn griffin_permutation(state: &mut [Elem; STATE_WIDTH])
    ensures
        vals(final(state)@) == permutation_spec(spec_params(), Elem::modulus(), vals(old(state)@)),
{
    params().permutation(state);
}

/// Applies round `round % NUM_ROUNDS` to `state`.
pub fn apply_round(state: &mut [Elem], round: usize)
    requires
        old(state)@.len() == STATE_WIDTH,
    ensures
        final(state)@.len() == STATE_WIDTH,
        vals(final(state)@) == round_spec(
            spec_params(),
            Elem::modulus(),
            vals(old(state)@),
            round as nat,
        ),
{
    params().apply_round(state, round);
}

/// `enforce_first_round` with `pixels` first added onto the first `RATE` lanes of
/// `current_slice`.
pub fn enforce_first_round_plus_absorb<E: PrimeField>(
    result_slice: &mut [E],
    pixels: &[E],
    current_slice: &[E],
    next_slice: &[E],
    round_constants: &[E],
    flag: E,
)
    requires
        pixels@.len() >= RATE,
        current_slice@.len() == STATE_WIDTH,
        next_slice@.len() == STATE_WIDTH,
        round_constants@.len() >= STATE_WIDTH,
        old(result_slice)@.len() >= STATE_WIDTH,
    ensures
        final(result_slice)@.len() == old(result_slice)@.len(),
        vals(final(result_slice)@) == nonlinear_residuals(
            spec_params(),
            E::modulus(),
            vals(old(result_slice)@),
            mat_vec(
                E::modulus(),
                MAT@,
                STATE_WIDTH as nat,
                absorb_lanes_spec(E::modulus(), vals(current_slice@), vals(pixels@).take(RATE as int)),
            ),
            recovered(spec_params(), E::modulus(), vals(next_slice@), vals(round_constants@)),
            flag.val(),
        ),
{
    params().enforce_first_round_plus_absorb(
        result_slice,
        pixels,
        current_slice,
        next_slice,
        round_constants,
        flag,
    );
}

/// Adds to `result_slice` the residuals of the first round between `current_slice` and
/// `next_slice`, scaled by `flag`: the state is mixed once before the non-linear layer.
pub fn enforce_first_round<E: PrimeField>(
    result_slice: &mut [E],
    current_slice: &[E],
    next_slice: &[E],
    round_constants: &[E],
    flag: E,
)
    requires
        current_slice@.len() == STATE_WIDTH,
        next_slice@.len() == STATE_WIDTH,
        round_constants@.len() >= STATE_WIDTH,
        old(result_slice)@.len() >= STATE_WIDTH,
    ensures
        final(result_slice)@.len() == old(result_slice)@.len(),
        vals(final(result_slice)@) == nonlinear_residuals(
            spec_params(),
            E::modulus(),
            vals(old(result_slice)@),
            mat_vec(E::modulus(), MAT@, STATE_WIDTH as nat, vals(current_slice@)),
            recovered(spec_params(), E::modulus(), vals(next_slice@), vals(round_constants@)),
            flag.val(),
        ),
{
    params().enforce_first_round(result_slice, current_slice, next_slice, round_constants, flag);
}

/// Adds to `result_slice` the residuals of a round other than the first between
/// `current_slice` and `next_slice`, scaled by `flag`.
pub fn enforce_round<E: PrimeField>(
    result_slice: &mut [E],
    current_slice: &[E],
    next_slice: &[E],
    round_constants: &[E],
    flag: E,
)
    requires
        current_slice@.len() == STATE_WIDTH,
        next_slice@.len() == STATE_WIDTH,
        round_constants@.len() >= STATE_WIDTH,
        old(result_slice)@.len() >= STATE_WIDTH,
    ensures
        final(result_slice)@.len() == old(result_slice)@.len(),
        vals(final(result_slice)@) == nonlinear_residuals(
            spec_params(),
            E::modulus(),
            vals(old(result_slice)@),
            vals(current_slice@),
            recovered(spec_params(), E::modulus(), vals(next_slice@), vals(round_constants@)),
            flag.val(),
        ),
{
    params().enforce_round(result_slice, current_slice, next_slice, round_constants, flag);
}

/// The round constants in `STATE_WIDTH` columns of length `cycle_length`, the constants of
/// round `i` at position `(i + shift) % cycle_length` and zeros elsewhere.
pub fn get_round_constants_periodic(cycle_length: usize, shift: usize) -> (r: Vec<Vec<Elem>>)
    requires
        cycle_length > 0,
        shift + NUM_ROUNDS <= usize::MAX,
    ensures
        r@.len() == STATE_WIDTH,
        forall|j: int|
            0 <= j < STATE_WIDTH ==> vals(#[trigger] r@[j]@) == periodic_column(
                Elem::modulus(),
                ROUND_CONSTANTS@,
                STATE_WIDTH as nat,
                j as nat,
                cycle_length as nat,
                shift as nat,
                NUM_ROUNDS as nat,
            ),
{
    params().round_constants_periodic(cycle_length, shift)
}

} // verus!

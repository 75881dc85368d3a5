//! Rescue-Prime over the 128-bit prime field (modulus `MODULUS_128`): width 9, capacity 1, 8 rounds, S-box
//! exponent 3, security of at least 128 bits.

use vstd::prelude::*;
use crate::field::{Felt128, PrimeField, canonical_seq, vals};
use crate::layers::{
    absorb_lanes_spec, exp_undoes, fermat, lemma_exponents_invert, periodic_column, to_array,
    zeros, undoes,
};
use crate::matrix::{
    identity_row, identity_rows, lemma_identity_rows, lemma_product_identity_undoes, product_entry,
    product_is_identity, sum,
};
use crate::rescue::{
    RescueParams, hash_spec, lemma_first_round_constraints_vanish, lemma_round_constraints_vanish,
    pad_spec, permutation_spec, round_residuals, round_spec,
};

verus! {

pub type Elem = Felt128;

pub const NUM_ROUNDS: usize = 8;
pub const STATE_WIDTH: usize = 9;
pub const CAPACITY: usize = 1;
pub const RATE: usize = STATE_WIDTH - CAPACITY;

/// The exponent of the forward S-box.
pub const ALPHA: u128 = 3;

/// The exponent of the inverse S-box: the inverse of `ALPHA` modulo the prime minus one.
pub const INV_ALPHA: u128 = 226854911280625642308916371969163307691;

/// The mixing matrix, row-major.
pub const MDS: [u128; 81] = [
    150094635296999121, 340282366920938463463149427439195690336, 84411075413992860,
    340282366920938463463364822667744381797, 364572438704838, 340282366920938463463374553452850656539,
    18318658140, 340282366920938463463374557953720752677, 9841,
    1477081305957768349761, 340282366920938461248015258909664071617, 830464262634554464059,
    340282366920938463367654019497453733057, 3578022083293731018, 340282366920938463463330629225328181057,
    175773020450742, 340282366920938463463374557733824228417, 72636421,
    10902337119274288189585941, 340282366920922112265621116423314299677, 6129103051534490589064140,
    340282366920937757157506327072060715056, 26385516604305016476318, 340282366920938463140023726422701560397,
    1286673036395336460, 340282366920938463463372975281818522219, 494894285941,
    74280977358883194447399657861, 340282366809533560559102349761084062337, 41758207694766455878941719400,
    340282366916126655152737768305002590337, 179718510858368911187836077, 340282366920936262382017994360084004737,
    8742448408061543808600, 340282366920938463452680404506994660737, 3287582741506063,
    493448532595061060714075927170623, 340281626860025222258639632111371827735, 277396989820105406282268067810980,
    340282334957138432026603756253961717317, 1193750249204165634400502061594, 340282366906321119535778575950744594740,
    58023022992049963173346020, 340282366920938392617192638478820451957, 21658948312410865183,
    3250891947867863390247053555200504143, 335406770191301931314646938843156637377, 1827515058473445723489323454811459578,
    340071788261635189888022255808831580097, 7864291806006227817276975764611134, 340282270630051601091434166691585938497,
    382145525879388576506005172823, 340282366920472148038924217019224186177, 142299528422960399756323,
    260889072481016946483921979409357576789, 294109695457304815011263569543330296235, 96897786123648020966790891596799875825,
    317912742718020576130300337690805571243, 51667907444403809555847542124007809234, 339649756075661666195744923271868570317,
    2510445527801052949502558181396180, 340282363858174627685294031214892512580, 934054234760012359481199283,
    194542495007434960394582255983923586243, 104404390561882821492740793700399886259, 31015733125887000676791684053161446567,
    177473572991922008668894803954934702656, 225693703897588175263197025163593303860, 271259291625999272530694212816871392781,
    16478009365511174087881242740613722400, 340262264978264552243515110485852110337, 6129263888495201102915629695046,
    188693918348033658130796882009222201279, 314243109041589500728057538205852247049, 274553328639948771850735264514343203581,
    310813334522360543261976075967969844628, 58189218743095556616922042146577748196, 88532793352623448815797177624516430079,
    257968030906974364479467734461159660011, 208377884906813703378925729595147376377, 40216143252770054194345243936096486,
];

/// The inverse of `MDS`, row-major.
pub const INV_MDS: [u128; 81] = [
    207704205238170807874062389651402246184, 338985877705667148435373284629855945642, 129028267600780770615661928550545766843,
    308035008707470404458798574304191182997, 128520708499505858811967733849558211851, 75192627449100971018093805348251269149,
    304723430247806995709152718418888185473, 247138038315326480697662666345484012828, 302366037761801343159474246624292948256,
    127826805904477456371474222478224881465, 58658143825271814927663889085592315510, 312249633317719663349408437894842488201,
    214300933317574560218555665032290192921, 284396721402661659389038897151481097747, 250642028598419737645395164192907767034,
    326756605713292613148743956415561946579, 64564033929793286393378167005124959170, 62016928595481525873214390512699159059,
    248581119490725734937433971221259595049, 205001520256672409877405228205435574405, 200096610221992325040847115543314292955,
    15223170475099380041360367767094442338, 235366553140646608237869232108973717383, 162307162630682801506851542241168907512,
    52675509994437226630257244779552696631, 335285735573611416179235296489092358465, 246874452820824414865612791412833222948,
    283673471255946562146645390311833638442, 209223032476035404560919156087419693012, 211512112805934564584850722873108293522,
    239776030660594538269138961758799208508, 68210418817622944190939851321990599837, 222109338954160942132440798066799260073,
    258338197395874177917585304146894183425, 338175469353412666797355362713810876851, 210676129806048980180371800441814015553,
    220783014807171136331164688074748627144, 309965259718335944489975028792798283342, 96673590909058413519603421380578045352,
    205785556561014960463687902712791399561, 72930044192120504138776809082161800375, 40863127682090904559911953136810632891,
    147156319027505131468688770623137082831, 5465313383088119386627759574466685670, 261507241403368739495061898437487288983,
    47112215418871085025936967894656035967, 257010822502178578101896171521076674054, 20670720855140215404881506561419650370,
    275063314552737150020455701571996505359, 154434305573626427596859079056551184503, 119775195884931758842035438232130131140,
    110335483825478749319799953283019030264, 93758101272597109289270377026652209913, 282969307798192780252363036667478424579,
    52011660187227698998307018524445124622, 191078345965907944922431974561774457545, 86336838853676487241056288607338298724,
    125093328226800820985177164342949053500, 10689792024438114156388383608175598304, 329939868120376749051950735773432225615,
    23499294867058318465853361897065892690, 278372710189966668032426818312990960568, 264107629248301051999906486186808234581,
    302228698991084466216875753830938701241, 280345530278773498915828360047963227132, 333099072682993183200689623504181423558,
    27875343830661393369872307155840999075, 47883408063394345577170731401514016906, 20045034666478649987681661989026523732,
    282120995912747862095020676645287935430, 122980149585923452096449943205160728029, 284833600592635465857283731988811252583,
    243710843188765407683950167325811244364, 164728799513981287864597798438362590906, 203691322335641954496554143160915473208,
    207184049598426413618777837396461507381, 182286914752134147886045712500843417287, 104791328630945774391628390734939042132,
    292925681130628074351389456735241751204, 37505641512749851214506703376700564141, 264587253941419405809422580099449217063,
];

/// `2 × STATE_WIDTH` constants per round.
pub const ROUND_CONSTANTS: [u128; 144] = [
    193550505184713801886850691874302114155, 73477471125177237583945581530965976084, 336279502154193780034454449733345567343,
    135317725925888010323160512940118246176, 266931630451858520653088100069771445550, 237770002109414465779793104379907619059,
    251299408841043447171430588873060041328, 141995952081615579885284935062985598220, 300182467202507410331878748551511513542,
    320075451354510020983792900244985957861, 269779363768581274492460063332673414165, 45036748174771534644141297594097519625,
    250152852415518823160110342920383101614, 141204021396194811524568050260616313985, 226023795345908938822698683664768836998,
    68016657657960555088899086457404615157, 310568148306309576007272421615723419953, 188238717735419854450969626086205873984,
    315595579688700958781450462853941751036, 335071301308265324057006302408599545095, 168532892142917869495326788262302221826,
    180570938030506022348466096605944041175, 307369499718017023049634848822129441903, 77433643948225191453041092242433595722,
    295139306307645914685855337322600842658, 260740346631472864827766948555925279892, 227769852515038471447868885629776840281,
    158092478799051831795002055728021774322, 145476093056051208877954288316354978488, 17087304111100405288854472099043738307,
    43712851500629936729849843799210141537, 237973631083374254468453358942325264572, 95356111157200790184678721109726594773,
    313628495808117313950512297675264414711, 191361409201358755306323073245227334035, 153440992947256037399888310080271077427,
    15960277761427441017887125485411281, 57168887688442182170290344460444447591, 185826864243918899927217370730769532505,
    287295756955166317899809526630322446088, 194889633971151288348446096082000980044, 22605793917940761417126970213938380422,
    43699897651006894914437247202949025048, 155566768136717140391381802258505284397, 165418844653189269018278743958064921361,
    203042806373456641562425845014451542206, 152758758047131086963036262682364247867, 261784292711457601981723392807367423774,
    304854676002186534236029361165930015543, 295087140369911151771911697710015989208, 27653551232270576790010432608837629840,
    37022801367124200084104469615560914433, 317995363281387557804319316265333522279, 65212356154145455566939913864291691380,
    114691326552306785056627924680445704724, 191337756613793289172887461630309921006, 88004990029374170396718749007641869717,
    326138670852305840334678546615580089969, 271480491365462262541047594537666004010, 219627364852196098654764946574258486102,
    233896236396084120802563751766537905221, 118134270279607534612442961185326279297, 283453207805304338212072415238889822731,
    118235992913371147329895186106061565774, 286697263734248175984000373401131137170, 323200633015677677275905168265824590852,
    270053995341857523358084297722289778071, 168254528849346269673536240973072362171, 137168394972367619622732475799400341810,
    181396420613869665795859231670167012791, 125480190248470542733915754619417623908, 209540598410783219143106900915581086038,
    178015299389255883855450166509097465823, 108736975777524029774284482822913826551, 236460719442438694231436904919188186413,
    58473661628550723390576068213295477751, 257433767838565916336653738415416514484, 71930874131050356271165403674128573332,
    116409631965320410106403759694457172751, 321294830390145659590996497887302633473, 48073895084039246638758426384352165275,
    55643885269061530488734525445099673569, 218904762300971489500615110839221901210, 291644728922626812350703865769572378388,
    127088497571914851114698133221781372914, 2042766001497629287763795750477059730, 219962855902011599948930380336935037298,
    299710250149476252588079372202509572601, 193277381713935058022930042387316542548, 231544127198435424976457948012344126871,
    60414249221498063949014112904592751920, 302534992199339033015928282560319502807, 287958778872602760982876452470171615575,
    134926437774889708740045054339327623908, 277344739895293442598275471922252409459, 46140626862756811178697328217023129604,
    159086202487453376964532191170574795444, 282866053414122647673098008729264237341, 9505658592294727050118478368790279302,
    81285690940412475278287003216055903990, 20431536313829434124352340324414703575, 332902448231951464058387130954171315155,
    252783574092979305808931803255011551975, 238673557328966250754937103812214330248, 118796454793018655046171316985950485994,
    144806800324129634820388140281133723524, 39061450683982795482411733080045240978, 6766709017455661249877844369625589699,
    47243398502023709561203841818983889525, 1211597052303231193366953643850706555, 216496156370583631179243160868765267650,
    274361455172322532664248290600283112978, 267899031289768887245208642957993979116, 244088540335495286891751959418496719297,
    307730252804032331155034396119361085086, 5845478755806413322737307560365976161, 168544962438612944841331177514181484018,
    108114550579344139140073746534211426815, 61355972534812124874044553516558648510, 292761851292906878914859288975500552122,
    41946796760335350153057001864041828129, 219595744768650904522415500717872937996, 79163316353927915665753448613005063427,
    144000348026294000025757522806933549036, 208193561387214219856091326796853687346, 103560216192929029666967779239122703533,
    235887698224035659840065062683678263012, 49295426143183858666956417915184783181, 170622597836750128882820411551888612378,
    35978614060576926512893658345082837780, 261412476991616383155241488270042436171, 155179388630344909841612436936947578169,
    113822527646172163099663271501464039937, 64034108438888126189070374275272955554, 99983747311974585075113704172665920346,
    236571709759562543627976319115372069084, 35609137364752911607352034261087274173, 228028974548576657500203199277385411785,
    216040467167869205703694915283267973916, 175067555634716185072466973757966184336, 31170133915143757482014992805434957728,
    225750543609266217407860197641642327152, 37431248622767659835894854121017678028, 230724458517123175241757004227676051370,
];

/// This instance's constants.
pub open spec fn spec_params() -> RescueParams {
    RescueParams {
        width: STATE_WIDTH,
        capacity: CAPACITY,
        rounds: NUM_ROUNDS,
        alpha: ALPHA,
        inv_alpha: INV_ALPHA,
        mds: &MDS,
        inv_mds: &INV_MDS,
        round_constants: &ROUND_CONSTANTS,
    }
}

/// This instance's constants.
pub fn params() -> (r: RescueParams)
    ensures
        r == spec_params(),
        r.wf(),
{
    RescueParams {
        width: STATE_WIDTH,
        capacity: CAPACITY,
        rounds: NUM_ROUNDS,
        alpha: ALPHA,
        inv_alpha: INV_ALPHA,
        mds: &MDS,
        inv_mds: &INV_MDS,
        round_constants: &ROUND_CONSTANTS,
    }
}

/// The two S-box exponents undo each other, both ways, on every residue, wherever Fermat's
/// little theorem holds for the modulus.
pub proof fn lemma_sbox_exponents_invert()
    requires
        fermat(Elem::modulus()),
    ensures
        exp_undoes(Elem::modulus(), ALPHA as nat, INV_ALPHA as nat),
        exp_undoes(Elem::modulus(), INV_ALPHA as nat, ALPHA as nat),
{
    lemma_exponents_invert(Elem::modulus(), ALPHA as nat, INV_ALPHA as nat);
}

/// With flag one, the round constraints vanish on every state of residues and the state that
/// round `r` makes of it, and on the same with a chunk of input absorbed first, wherever
/// Fermat's little theorem holds for the modulus (it does, the modulus being prime).
pub proof fn lemma_constraints_vanish(cur: Seq<int>, chunk: Seq<int>, r: nat)
    requires
        cur.len() == STATE_WIDTH,
        chunk.len() == RATE,
        canonical_seq(cur, Elem::modulus()),
        fermat(Elem::modulus()),
    ensures
        round_residuals(
            spec_params(),
            Elem::modulus(),
            zeros(STATE_WIDTH as nat),
            cur,
            round_spec(spec_params(), Elem::modulus(), cur, r),
            spec_params().round_consts(Elem::modulus(), r % (NUM_ROUNDS as nat)),
            1,
        ) == zeros(STATE_WIDTH as nat),
        round_residuals(
            spec_params(),
            Elem::modulus(),
            zeros(STATE_WIDTH as nat),
            absorb_lanes_spec(Elem::modulus(), cur, chunk),
            round_spec(spec_params(), Elem::modulus(), absorb_lanes_spec(Elem::modulus(), cur, chunk), r),
            spec_params().round_consts(Elem::modulus(), r % (NUM_ROUNDS as nat)),
            1,
        ) == zeros(STATE_WIDTH as nat),
{
    lemma_matrices_invert();
    lemma_exponents_invert(Elem::modulus(), ALPHA as nat, INV_ALPHA as nat);
    lemma_round_constraints_vanish(spec_params(), Elem::modulus(), cur, r);
    lemma_first_round_constraints_vanish(spec_params(), Elem::modulus(), cur, chunk, r);
}

/// With flag one, the round constraints do not all vanish on a state of residues and any state
/// of residues other than the one that round `r` makes of it, wherever Fermat's little
/// theorem holds for the modulus.
pub proof fn lemma_wrong_next_detected(cur: Seq<int>, other: Seq<int>, r: nat)
    requires
        cur.len() == STATE_WIDTH,
        canonical_seq(cur, Elem::modulus()),
        other.len() == STATE_WIDTH,
        canonical_seq(other, Elem::modulus()),
        other != round_spec(spec_params(), Elem::modulus(), cur, r),
        fermat(Elem::modulus()),
    ensures
        round_residuals(
            spec_params(),
            Elem::modulus(),
            zeros(STATE_WIDTH as nat),
            cur,
            other,
            spec_params().round_consts(Elem::modulus(), r % (NUM_ROUNDS as nat)),
            1,
        ) != zeros(STATE_WIDTH as nat),
{
    lemma_matrices_invert();
    lemma_exponents_invert(Elem::modulus(), ALPHA as nat, INV_ALPHA as nat);
    crate::rescue::lemma_wrong_next_detected(spec_params(), Elem::modulus(), cur, other, r);
}

/// The mixing matrix and its inverse undo each other on every vector of residues.
pub proof fn lemma_matrices_invert()
    ensures
        undoes(Elem::modulus(), MDS@, INV_MDS@, STATE_WIDTH as nat),
        undoes(Elem::modulus(), INV_MDS@, MDS@, STATE_WIDTH as nat),
{
    lemma_product_forward();
    lemma_product_backward();
    lemma_product_identity_undoes(Elem::modulus(), MDS@, INV_MDS@, STATE_WIDTH as nat);
    lemma_product_identity_undoes(Elem::modulus(), INV_MDS@, MDS@, STATE_WIDTH as nat);
}

proof fn lemma_product_forward_row_0()
    ensures
        identity_row(Elem::modulus(), MDS@, INV_MDS@, 9, 0, 9),
{
    reveal_with_fuel(sum, 10);
    reveal_with_fuel(identity_row, 10);
    assert(product_entry(MDS@, INV_MDS@, 9, 0, 0) == (MDS@[0] as int) * (INV_MDS@[0] as int) + (MDS@[1] as int) * (INV_MDS@[9] as int) + (MDS@[2] as int) * (INV_MDS@[18] as int) + (MDS@[3] as int) * (INV_MDS@[27] as int) + (MDS@[4] as int) * (INV_MDS@[36] as int) + (MDS@[5] as int) * (INV_MDS@[45] as int) + (MDS@[6] as int) * (INV_MDS@[54] as int) + (MDS@[7] as int) * (INV_MDS@[63] as int) + (MDS@[8] as int) * (INV_MDS@[72] as int));
    assert(((MDS@[0] as int) * (INV_MDS@[0] as int) + (MDS@[1] as int) * (INV_MDS@[9] as int) + (MDS@[2] as int) * (INV_MDS@[18] as int) + (MDS@[3] as int) * (INV_MDS@[27] as int) + (MDS@[4] as int) * (INV_MDS@[36] as int) + (MDS@[5] as int) * (INV_MDS@[45] as int) + (MDS@[6] as int) * (INV_MDS@[54] as int) + (MDS@[7] as int) * (INV_MDS@[63] as int) + (MDS@[8] as int) * (INV_MDS@[72] as int)) % 340282366920938463463374557953744961537 == 1) by (nonlinear_arith)
        requires
            MDS@[0] == 150094635296999121, MDS@[1] == 340282366920938463463149427439195690336, MDS@[2] == 84411075413992860, MDS@[3] == 340282366920938463463364822667744381797, MDS@[4] == 364572438704838, MDS@[5] == 340282366920938463463374553452850656539, MDS@[6] == 18318658140, MDS@[7] == 340282366920938463463374557953720752677, MDS@[8] == 9841, INV_MDS@[0] == 207704205238170807874062389651402246184, INV_MDS@[9] == 127826805904477456371474222478224881465, INV_MDS@[18] == 248581119490725734937433971221259595049, INV_MDS@[27] == 283673471255946562146645390311833638442, INV_MDS@[36] == 220783014807171136331164688074748627144, INV_MDS@[45] == 47112215418871085025936967894656035967, INV_MDS@[54] == 52011660187227698998307018524445124622, INV_MDS@[63] == 302228698991084466216875753830938701241, INV_MDS@[72] == 243710843188765407683950167325811244364,
    ;
    assert(product_entry(MDS@, INV_MDS@, 9, 0, 1) == (MDS@[0] as int) * (INV_MDS@[1] as int) + (MDS@[1] as int) * (INV_MDS@[10] as int) + (MDS@[2] as int) * (INV_MDS@[19] as int) + (MDS@[3] as int) * (INV_MDS@[28] as int) + (MDS@[4] as int) * (INV_MDS@[37] as int) + (MDS@[5] as int) * (INV_MDS@[46] as int) + (MDS@[6] as int) * (INV_MDS@[55] as int) + (MDS@[7] as int) * (INV_MDS@[64] as int) + (MDS@[8] as int) * (INV_MDS@[73] as int));
    assert(((MDS@[0] as int) * (INV_MDS@[1] as int) + (MDS@[1] as int) * (INV_MDS@[10] as int) + (MDS@[2] as int) * (INV_MDS@[19] as int) + (MDS@[3] as int) * (INV_MDS@[28] as int) + (MDS@[4] as int) * (INV_MDS@[37] as int) + (MDS@[5] as int) * (INV_MDS@[46] as int) + (MDS@[6] as int) * (INV_MDS@[55] as int) + (MDS@[7] as int) * (INV_MDS@[64] as int) + (MDS@[8] as int) * (INV_MDS@[73] as int)) % 340282366920938463463374557953744961537 == 0) by (nonlinear_arith)
        requires
            MDS@[0] == 150094635296999121, MDS@[1] == 340282366920938463463149427439195690336, MDS@[2] == 84411075413992860, MDS@[3] == 340282366920938463463364822667744381797, MDS@[4] == 364572438704838, MDS@[5] == 340282366920938463463374553452850656539, MDS@[6] == 18318658140, MDS@[7] == 340282366920938463463374557953720752677, MDS@[8] == 9841, INV_MDS@[1] == 338985877705667148435373284629855945642, INV_MDS@[10] == 58658143825271814927663889085592315510, INV_MDS@[19] == 205001520256672409877405228205435574405, INV_MDS@[28] == 209223032476035404560919156087419693012, INV_MDS@[37] == 309965259718335944489975028792798283342, INV_MDS@[46] == 257010822502178578101896171521076674054, INV_MDS@[55] == 191078345965907944922431974561774457545, INV_MDS@[64] == 280345530278773498915828360047963227132, INV_MDS@[73] == 164728799513981287864597798438362590906,
    ;
    assert(product_entry(MDS@, INV_MDS@, 9, 0, 2) == (MDS@[0] as int) * (INV_MDS@[2] as int) + (MDS@[1] as int) * (INV_MDS@[11] as int) + (MDS@[2] as int) * (INV_MDS@[20] as int) + (MDS@[3] as int) * (INV_MDS@[29] as int) + (MDS@[4] as int) * (INV_MDS@[38] as int) + (MDS@[5] as int) * (INV_MDS@[47] as int) + (MDS@[6] as int) * (INV_MDS@[56] as int) + (MDS@[7] as int) * (INV_MDS@[65] as int) + (MDS@[8] as int) * (INV_MDS@[74] as int));
    assert(((MDS@[0] as int) * (INV_MDS@[2] as int) + (MDS@[1] as int) * (INV_MDS@[11] as int) + (MDS@[2] as int) * (INV_MDS@[20] as int) + (MDS@[3] as int) * (INV_MDS@[29] as int) + (MDS@[4] as int) * (INV_MDS@[38] as int) + (MDS@[5] as int) * (INV_MDS@[47] as int) + (MDS@[6] as int) * (INV_MDS@[56] as int) + (MDS@[7] as int) * (INV_MDS@[65] as int) + (MDS@[8] as int) * (INV_MDS@[74] as int)) % 340282366920938463463374557953744961537 == 0) by (nonlinear_arith)
        requires
            MDS@[0] == 150094635296999121, MDS@[1] == 340282366920938463463149427439195690336, MDS@[2] == 84411075413992860, MDS@[3] == 340282366920938463463364822667744381797, MDS@[4] == 364572438704838, MDS@[5] == 340282366920938463463374553452850656539, MDS@[6] == 18318658140, MDS@[7] == 340282366920938463463374557953720752677, MDS@[8] == 9841, INV_MDS@[2] == 129028267600780770615661928550545766843, INV_MDS@[11] == 312249633317719663349408437894842488201, INV_MDS@[20] == 200096610221992325040847115543314292955, INV_MDS@[29] == 211512112805934564584850722873108293522, INV_MDS@[38] == 96673590909058413519603421380578045352, INV_MDS@[47] == 20670720855140215404881506561419650370, INV_MDS@[56] == 86336838853676487241056288607338298724, INV_MDS@[65] == 333099072682993183200689623504181423558, INV_MDS@[74] == 203691322335641954496554143160915473208,
    ;
    assert(product_entry(MDS@, INV_MDS@, 9, 0, 3) == (MDS@[0] as int) * (INV_MDS@[3] as int) + (MDS@[1] as int) * (INV_MDS@[12] as int) + (MDS@[2] as int) * (INV_MDS@[21] as int) + (MDS@[3] as int) * (INV_MDS@[30] as int) + (MDS@[4] as int) * (INV_MDS@[39] as int) + (MDS@[5] as int) * (INV_MDS@[48] as int) + (MDS@[6] as int) * (INV_MDS@[57] as int) + (MDS@[7] as int) * (INV_MDS@[66] as int) + (MDS@[8] as int) * (INV_MDS@[75] as int));
    assert(((MDS@[0] as int) * (INV_MDS@[3] as int) + (MDS@[1] as int) * (INV_MDS@[12] as int) + (MDS@[2] as int) * (INV_MDS@[21] as int) + (MDS@[3] as int) * (INV_MDS@[30] as int) + (MDS@[4] as int) * (INV_MDS@[39] as int) + (MDS@[5] as int) * (INV_MDS@[48] as int) + (MDS@[6] as int) * (INV_MDS@[57] as int) + (MDS@[7] as int) * (INV_MDS@[66] as int) + (MDS@[8] as int) * (INV_MDS@[75] as int)) % 340282366920938463463374557953744961537 == 0) by (nonlinear_arith)
        requires
            MDS@[0] == 150094635296999121, MDS@[1] == 340282366920938463463149427439195690336, MDS@[2] == 84411075413992860, MDS@[3] == 340282366920938463463364822667744381797, MDS@[4] == 364572438704838, MDS@[5] == 340282366920938463463374553452850656539, MDS@[6] == 18318658140, MDS@[7] == 340282366920938463463374557953720752677, MDS@[8] == 9841, INV_MDS@[3] == 308035008707470404458798574304191182997, INV_MDS@[12] == 214300933317574560218555665032290192921, INV_MDS@[21] == 15223170475099380041360367767094442338, INV_MDS@[30] == 239776030660594538269138961758799208508, INV_MDS@[39] == 205785556561014960463687902712791399561, INV_MDS@[48] == 275063314552737150020455701571996505359, INV_MDS@[57] == 125093328226800820985177164342949053500, INV_MDS@[66] == 27875343830661393369872307155840999075, INV_MDS@[75] == 207184049598426413618777837396461507381,
    ;
    assert(product_entry(MDS@, INV_MDS@, 9, 0, 4) == (MDS@[0] as int) * (INV_MDS@[4] as int) + (MDS@[1] as int) * (INV_MDS@[13] as int) + (MDS@[2] as int) * (INV_MDS@[22] as int) + (MDS@[3] as int) * (INV_MDS@[31] as int) + (MDS@[4] as int) * (INV_MDS@[40] as int) + (MDS@[5] as int) * (INV_MDS@[49] as int) + (MDS@[6] as int) * (INV_MDS@[58] as int) + (MDS@[7] as int) * (INV_MDS@[67] as int) + (MDS@[8] as int) * (INV_MDS@[76] as int));
    assert(((MDS@[0] as int) * (INV_MDS@[4] as int) + (MDS@[1] as int) * (INV_MDS@[13] as int) + (MDS@[2] as int) * (INV_MDS@[22] as int) + (MDS@[3] as int) * (INV_MDS@[31] as int) + (MDS@[4] as int) * (INV_MDS@[40] as int) + (MDS@[5] as int) * (INV_MDS@[49] as int) + (MDS@[6] as int) * (INV_MDS@[58] as int) + (MDS@[7] as int) * (INV_MDS@[67] as int) + (MDS@[8] as int) * (INV_MDS@[76] as int)) % 340282366920938463463374557953744961537 == 0) by (nonlinear_arith)
        requires
            MDS@[0] == 150094635296999121, MDS@[1] == 340282366920938463463149427439195690336, MDS@[2] == 84411075413992860, MDS@[3] == 340282366920938463463364822667744381797, MDS@[4] == 364572438704838, MDS@[5] == 340282366920938463463374553452850656539, MDS@[6] == 18318658140, MDS@[7] == 340282366920938463463374557953720752677, MDS@[8] == 9841, INV_MDS@[4] == 128520708499505858811967733849558211851, INV_MDS@[13] == 284396721402661659389038897151481097747, INV_MDS@[22] == 235366553140646608237869232108973717383, INV_MDS@[31] == 68210418817622944190939851321990599837, INV_MDS@[40] == 72930044192120504138776809082161800375, INV_MDS@[49] == 154434305573626427596859079056551184503, INV_MDS@[58] == 10689792024438114156388383608175598304, INV_MDS@[67] == 47883408063394345577170731401514016906, INV_MDS@[76] == 182286914752134147886045712500843417287,
    ;
    assert(product_entry(MDS@, INV_MDS@, 9, 0, 5) == (MDS@[0] as int) * (INV_MDS@[5] as int) + (MDS@[1] as int) * (INV_MDS@[14] as int) + (MDS@[2] as int) * (INV_MDS@[23] as int) + (MDS@[3] as int) * (INV_MDS@[32] as int) + (MDS@[4] as int) * (INV_MDS@[41] as int) + (MDS@[5] as int) * (INV_MDS@[50] as int) + (MDS@[6] as int) * (INV_MDS@[59] as int) + (MDS@[7] as int) * (INV_MDS@[68] as int) + (MDS@[8] as int) * (INV_MDS@[77] as int));
    assert(((MDS@[0] as int) * (INV_MDS@[5] as int) + (MDS@[1] as int) * (INV_MDS@[14] as int) + (MDS@[2] as int) * (INV_MDS@[23] as int) + (MDS@[3] as int) * (INV_MDS@[32] as int) + (MDS@[4] as int) * (INV_MDS@[41] as int) + (MDS@[5] as int) * (INV_MDS@[50] as int) + (MDS@[6] as int) * (INV_MDS@[59] as int) + (MDS@[7] as int) * (INV_MDS@[68] as int) + (MDS@[8] as int) * (INV_MDS@[77] as int)) % 340282366920938463463374557953744961537 == 0) by (nonlinear_arith)
        requires
            MDS@[0] == 150094635296999121, MDS@[1] == 340282366920938463463149427439195690336, MDS@[2] == 84411075413992860, MDS@[3] == 340282366920938463463364822667744381797, MDS@[4] == 364572438704838, MDS@[5] == 340282366920938463463374553452850656539, MDS@[6] == 18318658140, MDS@[7] == 340282366920938463463374557953720752677, MDS@[8] == 9841, INV_MDS@[5] == 75192627449100971018093805348251269149, INV_MDS@[14] == 250642028598419737645395164192907767034, INV_MDS@[23] == 162307162630682801506851542241168907512, INV_MDS@[32] == 222109338954160942132440798066799260073, INV_MDS@[41] == 40863127682090904559911953136810632891, INV_MDS@[50] == 119775195884931758842035438232130131140, INV_MDS@[59] == 329939868120376749051950735773432225615, INV_MDS@[68] == 20045034666478649987681661989026523732, INV_MDS@[77] == 104791328630945774391628390734939042132,
    ;
    assert(product_entry(MDS@, INV_MDS@, 9, 0, 6) == (MDS@[0] as int) * (INV_MDS@[6] as int) + (MDS@[1] as int) * (INV_MDS@[15] as int) + (MDS@[2] as int) * (INV_MDS@[24] as int) + (MDS@[3] as int) * (INV_MDS@[33] as int) + (MDS@[4] as int) * (INV_MDS@[42] as int) + (MDS@[5] as int) * (INV_MDS@[51] as int) + (MDS@[6] as int) * (INV_MDS@[60] as int) + (MDS@[7] as int) * (INV_MDS@[69] as int) + (MDS@[8] as int) * (INV_MDS@[78] as int));
    assert(((MDS@[0] as int) * (INV_MDS@[6] as int) + (MDS@[1] as int) * (INV_MDS@[15] as int) + (MDS@[2] as int) * (INV_MDS@[24] as int) + (MDS@[3] as int) * (INV_MDS@[33] as int) + (MDS@[4] as int) * (INV_MDS@[42] as int) + (MDS@[5] as int) * (INV_MDS@[51] as int) + (MDS@[6] as int) * (INV_MDS@[60] as int) + (MDS@[7] as int) * (INV_MDS@[69] as int) + (MDS@[8] as int) * (INV_MDS@[78] as int)) % 340282366920938463463374557953744961537 == 0) by (nonlinear_arith)
        requires
            MDS@[0] == 150094635296999121, MDS@[1] == 340282366920938463463149427439195690336, MDS@[2] == 84411075413992860, MDS@[3] == 340282366920938463463364822667744381797, MDS@[4] == 364572438704838, MDS@[5] == 340282366920938463463374553452850656539, MDS@[6] == 18318658140, MDS@[7] == 340282366920938463463374557953720752677, MDS@[8] == 9841, INV_MDS@[6] == 304723430247806995709152718418888185473, INV_MDS@[15] == 326756605713292613148743956415561946579, INV_MDS@[24] == 52675509994437226630257244779552696631, INV_MDS@[33] == 258338197395874177917585304146894183425, INV_MDS@[42] == 147156319027505131468688770623137082831, INV_MDS@[51] == 110335483825478749319799953283019030264, INV_MDS@[60] == 23499294867058318465853361897065892690, INV_MDS@[69] == 282120995912747862095020676645287935430, INV_MDS@[78] == 292925681130628074351389456735241751204,
    ;
    assert(product_entry(MDS@, INV_MDS@, 9, 0, 7) == (MDS@[0] as int) * (INV_MDS@[7] as int) + (MDS@[1] as int) * (INV_MDS@[16] as int) + (MDS@[2] as int) * (INV_MDS@[25] as int) + (MDS@[3] as int) * (INV_MDS@[34] as int) + (MDS@[4] as int) * (INV_MDS@[43] as int) + (MDS@[5] as int) * (INV_MDS@[52] as int) + (MDS@[6] as int) * (INV_MDS@[61] as int) + (MDS@[7] as int) * (INV_MDS@[70] as int) + (MDS@[8] as int) * (INV_MDS@[79] as int));
    assert(((MDS@[0] as int) * (INV_MDS@[7] as int) + (MDS@[1] as int) * (INV_MDS@[16] as int) + (MDS@[2] as int) * (INV_MDS@[25] as int) + (MDS@[3] as int) * (INV_MDS@[34] as int) + (MDS@[4] as int) * (INV_MDS@[43] as int) + (MDS@[5] as int) * (INV_MDS@[52] as int) + (MDS@[6] as int) * (INV_MDS@[61] as int) + (MDS@[7] as int) * (INV_MDS@[70] as int) + (MDS@[8] as int) * (INV_MDS@[79] as int)) % 340282366920938463463374557953744961537 == 0) by (nonlinear_arith)
        requires
            MDS@[0] == 150094635296999121, MDS@[1] == 340282366920938463463149427439195690336, MDS@[2] == 84411075413992860, MDS@[3] == 340282366920938463463364822667744381797, MDS@[4] == 364572438704838, MDS@[5] == 340282366920938463463374553452850656539, MDS@[6] == 18318658140, MDS@[7] == 340282366920938463463374557953720752677, MDS@[8] == 9841, INV_MDS@[7] == 247138038315326480697662666345484012828, INV_MDS@[16] == 64564033929793286393378167005124959170, INV_MDS@[25] == 335285735573611416179235296489092358465, INV_MDS@[34] == 338175469353412666797355362713810876851, INV_MDS@[43] == 5465313383088119386627759574466685670, INV_MDS@[52] == 93758101272597109289270377026652209913, INV_MDS@[61] == 278372710189966668032426818312990960568, INV_MDS@[70] == 122980149585923452096449943205160728029, INV_MDS@[79] == 37505641512749851214506703376700564141,
    ;
    assert(product_entry(MDS@, INV_MDS@, 9, 0, 8) == (MDS@[0] as int) * (INV_MDS@[8] as int) + (MDS@[1] as int) * (INV_MDS@[17] as int) + (MDS@[2] as int) * (INV_MDS@[26] as int) + (MDS@[3] as int) * (INV_MDS@[35] as int) + (MDS@[4] as int) * (INV_MDS@[44] as int) + (MDS@[5] as int) * (INV_MDS@[53] as int) + (MDS@[6] as int) * (INV_MDS@[62] as int) + (MDS@[7] as int) * (INV_MDS@[71] as int) + (MDS@[8] as int) * (INV_MDS@[80] as int));
    assert(((MDS@[0] as int) * (INV_MDS@[8] as int) + (MDS@[1] as int) * (INV_MDS@[17] as int) + (MDS@[2] as int) * (INV_MDS@[26] as int) + (MDS@[3] as int) * (INV_MDS@[35] as int) + (MDS@[4] as int) * (INV_MDS@[44] as int) + (MDS@[5] as int) * (INV_MDS@[53] as int) + (MDS@[6] as int) * (INV_MDS@[62] as int) + (MDS@[7] as int) * (INV_MDS@[71] as int) + (MDS@[8] as int) * (INV_MDS@[80] as int)) % 340282366920938463463374557953744961537 == 0) by (nonlinear_arith)
        requires
            MDS@[0] == 150094635296999121, MDS@[1] == 340282366920938463463149427439195690336, MDS@[2] == 84411075413992860, MDS@[3] == 340282366920938463463364822667744381797, MDS@[4] == 364572438704838, MDS@[5] == 340282366920938463463374553452850656539, MDS@[6] == 18318658140, MDS@[7] == 340282366920938463463374557953720752677, MDS@[8] == 9841, INV_MDS@[8] == 302366037761801343159474246624292948256, INV_MDS@[17] == 62016928595481525873214390512699159059, INV_MDS@[26] == 246874452820824414865612791412833222948, INV_MDS@[35] == 210676129806048980180371800441814015553, INV_MDS@[44] == 261507241403368739495061898437487288983, INV_MDS@[53] == 282969307798192780252363036667478424579, INV_MDS@[62] == 264107629248301051999906486186808234581, INV_MDS@[71] == 284833600592635465857283731988811252583, INV_MDS@[80] == 264587253941419405809422580099449217063,
    ;
}

proof fn lemma_product_forward_row_1()
    ensures
        identity_row(Elem::modulus(), MDS@, INV_MDS@, 9, 1, 9),
{
    reveal_with_fuel(sum, 10);
    reveal_with_fuel(identity_row, 10);
    assert(product_entry(MDS@, INV_MDS@, 9, 1, 0) == (MDS@[9] as int) * (INV_MDS@[0] as int) + (MDS@[10] as int) * (INV_MDS@[9] as int) + (MDS@[11] as int) * (INV_MDS@[18] as int) + (MDS@[12] as int) * (INV_MDS@[27] as int) + (MDS@[13] as int) * (INV_MDS@[36] as int) + (MDS@[14] as int) * (INV_MDS@[45] as int) + (MDS@[15] as int) * (INV_MDS@[54] as int) + (MDS@[16] as int) * (INV_MDS@[63] as int) + (MDS@[17] as int) * (INV_MDS@[72] as int));
    assert(((MDS@[9] as int) * (INV_MDS@[0] as int) + (MDS@[10] as int) * (INV_MDS@[9] as int) + (MDS@[11] as int) * (INV_MDS@[18] as int) + (MDS@[12] as int) * (INV_MDS@[27] as int) + (MDS@[13] as int) * (INV_MDS@[36] as int) + (MDS@[14] as int) * (INV_MDS@[45] as int) + (MDS@[15] as int) * (INV_MDS@[54] as int) + (MDS@[16] as int) * (INV_MDS@[63] as int) + (MDS@[17] as int) * (INV_MDS@[72] as int)) % 340282366920938463463374557953744961537 == 0) by (nonlinear_arith)
        requires
            MDS@[9] == 1477081305957768349761, MDS@[10] == 340282366920938461248015258909664071617, MDS@[11] == 830464262634554464059, MDS@[12] == 340282366920938463367654019497453733057, MDS@[13] == 3578022083293731018, MDS@[14] == 340282366920938463463330629225328181057, MDS@[15] == 175773020450742, MDS@[16] == 340282366920938463463374557733824228417, MDS@[17] == 72636421, INV_MDS@[0] == 207704205238170807874062389651402246184, INV_MDS@[9] == 127826805904477456371474222478224881465, INV_MDS@[18] == 248581119490725734937433971221259595049, INV_MDS@[27] == 283673471255946562146645390311833638442, INV_MDS@[36] == 220783014807171136331164688074748627144, INV_MDS@[45] == 47112215418871085025936967894656035967, INV_MDS@[54] == 52011660187227698998307018524445124622, INV_MDS@[63] == 302228698991084466216875753830938701241, INV_MDS@[72] == 243710843188765407683950167325811244364,
    ;
    assert(product_entry(MDS@, INV_MDS@, 9, 1, 1) == (MDS@[9] as int) * (INV_MDS@[1] as int) + (MDS@[10] as int) * (INV_MDS@[10] as int) + (MDS@[11] as int) * (INV_MDS@[19] as int) + (MDS@[12] as int) * (INV_MDS@[28] as int) + (MDS@[13] as int) * (INV_MDS@[37] as int) + (MDS@[14] as int) * (INV_MDS@[46] as int) + (MDS@[15] as int) * (INV_MDS@[55] as int) + (MDS@[16] as int) * (INV_MDS@[64] as int) + (MDS@[17] as int) * (INV_MDS@[73] as int));
    assert(((MDS@[9] as int) * (INV_MDS@[1] as int) + (MDS@[10] as int) * (INV_MDS@[10] as int) + (MDS@[11] as int) * (INV_MDS@[19] as int) + (MDS@[12] as int) * (INV_MDS@[28] as int) + (MDS@[13] as int) * (INV_MDS@[37] as int) + (MDS@[14] as int) * (INV_MDS@[46] as int) + (MDS@[15] as int) * (INV_MDS@[55] as int) + (MDS@[16] as int) * (INV_MDS@[64] as int) + (MDS@[17] as int) * (INV_MDS@[73] as int)) % 340282366920938463463374557953744961537 == 1) by (nonlinear_arith)
        requires
            MDS@[9] == 1477081305957768349761, MDS@[10] == 340282366920938461248015258909664071617, MDS@[11] == 830464262634554464059, MDS@[12] == 340282366920938463367654019497453733057, MDS@[13] == 3578022083293731018, MDS@[14] == 340282366920938463463330629225328181057, MDS@[15] == 175773020450742, MDS@[16] == 340282366920938463463374557733824228417, MDS@[17] == 72636421, INV_MDS@[1] == 338985877705667148435373284629855945642, INV_MDS@[10] == 58658143825271814927663889085592315510, INV_MDS@[19] == 205001520256672409877405228205435574405, INV_MDS@[28] == 209223032476035404560919156087419693012, INV_MDS@[37] == 309965259718335944489975028792798283342, INV_MDS@[46] == 257010822502178578101896171521076674054, INV_MDS@[55] == 191078345965907944922431974561774457545, INV_MDS@[64] == 280345530278773498915828360047963227132, INV_MDS@[73] == 164728799513981287864597798438362590906,
    ;
    assert(product_entry(MDS@, INV_MDS@, 9, 1, 2) == (MDS@[9] as int) * (INV_MDS@[2] as int) + (MDS@[10] as int) * (INV_MDS@[11] as int) + (MDS@[11] as int) * (INV_MDS@[20] as int) + (MDS@[12] as int) * (INV_MDS@[29] as int) + (MDS@[13] as int) * (INV_MDS@[38] as int) + (MDS@[14] as int) * (INV_MDS@[47] as int) + (MDS@[15] as int) * (INV_MDS@[56] as int) + (MDS@[16] as int) * (INV_MDS@[65] as int) + (MDS@[17] as int) * (INV_MDS@[74] as int));
    assert(((MDS@[9] as int) * (INV_MDS@[2] as int) + (MDS@[10] as int) * (INV_MDS@[11] as int) + (MDS@[11] as int) * (INV_MDS@[20] as int) + (MDS@[12] as int) * (INV_MDS@[29] as int) + (MDS@[13] as int) * (INV_MDS@[38] as int) + (MDS@[14] as int) * (INV_MDS@[47] as int) + (MDS@[15] as int) * (INV_MDS@[56] as int) + (MDS@[16] as int) * (INV_MDS@[65] as int) + (MDS@[17] as int) * (INV_MDS@[74] as int)) % 340282366920938463463374557953744961537 == 0) by (nonlinear_arith)
        requires
            MDS@[9] == 1477081305957768349761, MDS@[10] == 340282366920938461248015258909664071617, MDS@[11] == 830464262634554464059, MDS@[12] == 340282366920938463367654019497453733057, MDS@[13] == 3578022083293731018, MDS@[14] == 340282366920938463463330629225328181057, MDS@[15] == 175773020450742, MDS@[16] == 340282366920938463463374557733824228417, MDS@[17] == 72636421, INV_MDS@[2] == 129028267600780770615661928550545766843, INV_MDS@[11] == 312249633317719663349408437894842488201, INV_MDS@[20] == 200096610221992325040847115543314292955, INV_MDS@[29] == 211512112805934564584850722873108293522, INV_MDS@[38] == 96673590909058413519603421380578045352, INV_MDS@[47] == 20670720855140215404881506561419650370, INV_MDS@[56] == 86336838853676487241056288607338298724, INV_MDS@[65] == 333099072682993183200689623504181423558, INV_MDS@[74] == 203691322335641954496554143160915473208,
    ;
    assert(product_entry(MDS@, INV_MDS@, 9, 1, 3) == (MDS@[9] as int) * (INV_MDS@[3] as int) + (MDS@[10] as int) * (INV_MDS@[12] as int) + (MDS@[11] as int) * (INV_MDS@[21] as int) + (MDS@[12] as int) * (INV_MDS@[30] as int) + (MDS@[13] as int) * (INV_MDS@[39] as int) + (MDS@[14] as int) * (INV_MDS@[48] as int) + (MDS@[15] as int) * (INV_MDS@[57] as int) + (MDS@[16] as int) * (INV_MDS@[66] as int) + (MDS@[17] as int) * (INV_MDS@[75] as int));
    assert(((MDS@[9] as int) * (INV_MDS@[3] as int) + (MDS@[10] as int) * (INV_MDS@[12] as int) + (MDS@[11] as int) * (INV_MDS@[21] as int) + (MDS@[12] as int) * (INV_MDS@[30] as int) + (MDS@[13] as int) * (INV_MDS@[39] as int) + (MDS@[14] as int) * (INV_MDS@[48] as int) + (MDS@[15] as int) * (INV_MDS@[57] as int) + (MDS@[16] as int) * (INV_MDS@[66] as int) + (MDS@[17] as int) * (INV_MDS@[75] as int)) % 340282366920938463463374557953744961537 == 0) by (nonlinear_arith)
        requires
            MDS@[9] == 1477081305957768349761, MDS@[10] == 340282366920938461248015258909664071617, MDS@[11] == 830464262634554464059, MDS@[12] == 340282366920938463367654019497453733057, MDS@[13] == 3578022083293731018, MDS@[14] == 340282366920938463463330629225328181057, MDS@[15] == 175773020450742, MDS@[16] == 340282366920938463463374557733824228417, MDS@[17] == 72636421, INV_MDS@[3] == 308035008707470404458798574304191182997, INV_MDS@[12] == 214300933317574560218555665032290192921, INV_MDS@[21] == 15223170475099380041360367767094442338, INV_MDS@[30] == 239776030660594538269138961758799208508, INV_MDS@[39] == 205785556561014960463687902712791399561, INV_MDS@[48] == 275063314552737150020455701571996505359, INV_MDS@[57] == 125093328226800820985177164342949053500, INV_MDS@[66] == 27875343830661393369872307155840999075, INV_MDS@[75] == 207184049598426413618777837396461507381,
    ;
    assert(product_entry(MDS@, INV_MDS@, 9, 1, 4) == (MDS@[9] as int) * (INV_MDS@[4] as int) + (MDS@[10] as int) * (INV_MDS@[13] as int) + (MDS@[11] as int) * (INV_MDS@[22] as int) + (MDS@[12] as int) * (INV_MDS@[31] as int) + (MDS@[13] as int) * (INV_MDS@[40] as int) + (MDS@[14] as int) * (INV_MDS@[49] as int) + (MDS@[15] as int) * (INV_MDS@[58] as int) + (MDS@[16] as int) * (INV_MDS@[67] as int) + (MDS@[17] as int) * (INV_MDS@[76] as int));
    assert(((MDS@[9] as int) * (INV_MDS@[4] as int) + (MDS@[10] as int) * (INV_MDS@[13] as int) + (MDS@[11] as int) * (INV_MDS@[22] as int) + (MDS@[12] as int) * (INV_MDS@[31] as int) + (MDS@[13] as int) * (INV_MDS@[40] as int) + (MDS@[14] as int) * (INV_MDS@[49] as int) + (MDS@[15] as int) * (INV_MDS@[58] as int) + (MDS@[16] as int) * (INV_MDS@[67] as int) + (MDS@[17] as int) * (INV_MDS@[76] as int)) % 340282366920938463463374557953744961537 == 0) by (nonlinear_arith)
        requires
            MDS@[9] == 1477081305957768349761, MDS@[10] == 340282366920938461248015258909664071617, MDS@[11] == 830464262634554464059, MDS@[12] == 340282366920938463367654019497453733057, MDS@[13] == 3578022083293731018, MDS@[14] == 340282366920938463463330629225328181057, MDS@[15] == 175773020450742, MDS@[16] == 340282366920938463463374557733824228417, MDS@[17] == 72636421, INV_MDS@[4] == 128520708499505858811967733849558211851, INV_MDS@[13] == 284396721402661659389038897151481097747, INV_MDS@[22] == 235366553140646608237869232108973717383, INV_MDS@[31] == 68210418817622944190939851321990599837, INV_MDS@[40] == 72930044192120504138776809082161800375, INV_MDS@[49] == 154434305573626427596859079056551184503, INV_MDS@[58] == 10689792024438114156388383608175598304, INV_MDS@[67] == 47883408063394345577170731401514016906, INV_MDS@[76] == 182286914752134147886045712500843417287,
    ;
    assert(product_entry(MDS@, INV_MDS@, 9, 1, 5) == (MDS@[9] as int) * (INV_MDS@[5] as int) + (MDS@[10] as int) * (INV_MDS@[14] as int) + (MDS@[11] as int) * (INV_MDS@[23] as int) + (MDS@[12] as int) * (INV_MDS@[32] as int) + (MDS@[13] as int) * (INV_MDS@[41] as int) + (MDS@[14] as int) * (INV_MDS@[50] as int) + (MDS@[15] as int) * (INV_MDS@[59] as int) + (MDS@[16] as int) * (INV_MDS@[68] as int) + (MDS@[17] as int) * (INV_MDS@[77] as int));
    assert(((MDS@[9] as int) * (INV_MDS@[5] as int) + (MDS@[10] as int) * (INV_MDS@[14] as int) + (MDS@[11] as int) * (INV_MDS@[23] as int) + (MDS@[12] as int) * (INV_MDS@[32] as int) + (MDS@[13] as int) * (INV_MDS@[41] as int) + (MDS@[14] as int) * (INV_MDS@[50] as int) + (MDS@[15] as int) * (INV_MDS@[59] as int) + (MDS@[16] as int) * (INV_MDS@[68] as int) + (MDS@[17] as int) * (INV_MDS@[77] as int)) % 340282366920938463463374557953744961537 == 0) by (nonlinear_arith)
        requires
            MDS@[9] == 1477081305957768349761, MDS@[10] == 340282366920938461248015258909664071617, MDS@[11] == 830464262634554464059, MDS@[12] == 340282366920938463367654019497453733057, MDS@[13] == 3578022083293731018, MDS@[14] == 340282366920938463463330629225328181057, MDS@[15] == 175773020450742, MDS@[16] == 340282366920938463463374557733824228417, MDS@[17] == 72636421, INV_MDS@[5] == 75192627449100971018093805348251269149, INV_MDS@[14] == 250642028598419737645395164192907767034, INV_MDS@[23] == 162307162630682801506851542241168907512, INV_MDS@[32] == 222109338954160942132440798066799260073, INV_MDS@[41] == 40863127682090904559911953136810632891, INV_MDS@[50] == 119775195884931758842035438232130131140, INV_MDS@[59] == 329939868120376749051950735773432225615, INV_MDS@[68] == 20045034666478649987681661989026523732, INV_MDS@[77] == 104791328630945774391628390734939042132,
    ;
    assert(product_entry(MDS@, INV_MDS@, 9, 1, 6) == (MDS@[9] as int) * (INV_MDS@[6] as int) + (MDS@[10] as int) * (INV_MDS@[15] as int) + (MDS@[11] as int) * (INV_MDS@[24] as int) + (MDS@[12] as int) * (INV_MDS@[33] as int) + (MDS@[13] as int) * (INV_MDS@[42] as int) + (MDS@[14] as int) * (INV_MDS@[51] as int) + (MDS@[15] as int) * (INV_MDS@[60] as int) + (MDS@[16] as int) * (INV_MDS@[69] as int) + (MDS@[17] as int) * (INV_MDS@[78] as int));
    assert(((MDS@[9] as int) * (INV_MDS@[6] as int) + (MDS@[10] as int) * (INV_MDS@[15] as int) + (MDS@[11] as int) * (INV_MDS@[24] as int) + (MDS@[12] as int) * (INV_MDS@[33] as int) + (MDS@[13] as int) * (INV_MDS@[42] as int) + (MDS@[14] as int) * (INV_MDS@[51] as int) + (MDS@[15] as int) * (INV_MDS@[60] as int) + (MDS@[16] as int) * (INV_MDS@[69] as int) + (MDS@[17] as int) * (INV_MDS@[78] as int)) % 340282366920938463463374557953744961537 == 0) by (nonlinear_arith)
        requires
            MDS@[9] == 1477081305957768349761, MDS@[10] == 340282366920938461248015258909664071617, MDS@[11] == 830464262634554464059, MDS@[12] == 340282366920938463367654019497453733057, MDS@[13] == 3578022083293731018, MDS@[14] == 340282366920938463463330629225328181057, MDS@[15] == 175773020450742, MDS@[16] == 340282366920938463463374557733824228417, MDS@[17] == 72636421, INV_MDS@[6] == 304723430247806995709152718418888185473, INV_MDS@[15] == 326756605713292613148743956415561946579, INV_MDS@[24] == 52675509994437226630257244779552696631, INV_MDS@[33] == 258338197395874177917585304146894183425, INV_MDS@[42] == 147156319027505131468688770623137082831, INV_MDS@[51] == 110335483825478749319799953283019030264, INV_MDS@[60] == 23499294867058318465853361897065892690, INV_MDS@[69] == 282120995912747862095020676645287935430, INV_MDS@[78] == 292925681130628074351389456735241751204,
    ;
    assert(product_entry(MDS@, INV_MDS@, 9, 1, 7) == (MDS@[9] as int) * (INV_MDS@[7] as int) + (MDS@[10] as int) * (INV_MDS@[16] as int) + (MDS@[11] as int) * (INV_MDS@[25] as int) + (MDS@[12] as int) * (INV_MDS@[34] as int) + (MDS@[13] as int) * (INV_MDS@[43] as int) + (MDS@[14] as int) * (INV_MDS@[52] as int) + (MDS@[15] as int) * (INV_MDS@[61] as int) + (MDS@[16] as int) * (INV_MDS@[70] as int) + (MDS@[17] as int) * (INV_MDS@[79] as int));
    assert(((MDS@[9] as int) * (INV_MDS@[7] as int) + (MDS@[10] as int) * (INV_MDS@[16] as int) + (MDS@[11] as int) * (INV_MDS@[25] as int) + (MDS@[12] as int) * (INV_MDS@[34] as int) + (MDS@[13] as int) * (INV_MDS@[43] as int) + (MDS@[14] as int) * (INV_MDS@[52] as int) + (MDS@[15] as int) * (INV_MDS@[61] as int) + (MDS@[16] as int) * (INV_MDS@[70] as int) + (MDS@[17] as int) * (INV_MDS@[79] as int)) % 340282366920938463463374557953744961537 == 0) by (nonlinear_arith)
        requires
            MDS@[9] == 1477081305957768349761, MDS@[10] == 340282366920938461248015258909664071617, MDS@[11] == 830464262634554464059, MDS@[12] == 340282366920938463367654019497453733057, MDS@[13] == 3578022083293731018, MDS@[14] == 340282366920938463463330629225328181057, MDS@[15] == 175773020450742, MDS@[16] == 340282366920938463463374557733824228417, MDS@[17] == 72636421, INV_MDS@[7] == 247138038315326480697662666345484012828, INV_MDS@[16] == 64564033929793286393378167005124959170, INV_MDS@[25] == 335285735573611416179235296489092358465, INV_MDS@[34] == 338175469353412666797355362713810876851, INV_MDS@[43] == 5465313383088119386627759574466685670, INV_MDS@[52] == 93758101272597109289270377026652209913, INV_MDS@[61] == 278372710189966668032426818312990960568, INV_MDS@[70] == 122980149585923452096449943205160728029, INV_MDS@[79] == 37505641512749851214506703376700564141,
    ;
    assert(product_entry(MDS@, INV_MDS@, 9, 1, 8) == (MDS@[9] as int) * (INV_MDS@[8] as int) + (MDS@[10] as int) * (INV_MDS@[17] as int) + (MDS@[11] as int) * (INV_MDS@[26] as int) + (MDS@[12] as int) * (INV_MDS@[35] as int) + (MDS@[13] as int) * (INV_MDS@[44] as int) + (MDS@[14] as int) * (INV_MDS@[53] as int) + (MDS@[15] as int) * (INV_MDS@[62] as int) + (MDS@[16] as int) * (INV_MDS@[71] as int) + (MDS@[17] as int) * (INV_MDS@[80] as int));
    assert(((MDS@[9] as int) * (INV_MDS@[8] as int) + (MDS@[10] as int) * (INV_MDS@[17] as int) + (MDS@[11] as int) * (INV_MDS@[26] as int) + (MDS@[12] as int) * (INV_MDS@[35] as int) + (MDS@[13] as int) * (INV_MDS@[44] as int) + (MDS@[14] as int) * (INV_MDS@[53] as int) + (MDS@[15] as int) * (INV_MDS@[62] as int) + (MDS@[16] as int) * (INV_MDS@[71] as int) + (MDS@[17] as int) * (INV_MDS@[80] as int)) % 340282366920938463463374557953744961537 == 0) by (nonlinear_arith)
        requires
            MDS@[9] == 1477081305957768349761, MDS@[10] == 340282366920938461248015258909664071617, MDS@[11] == 830464262634554464059, MDS@[12] == 340282366920938463367654019497453733057, MDS@[13] == 3578022083293731018, MDS@[14] == 340282366920938463463330629225328181057, MDS@[15] == 175773020450742, MDS@[16] == 340282366920938463463374557733824228417, MDS@[17] == 72636421, INV_MDS@[8] == 302366037761801343159474246624292948256, INV_MDS@[17] == 62016928595481525873214390512699159059, INV_MDS@[26] == 246874452820824414865612791412833222948, INV_MDS@[35] == 210676129806048980180371800441814015553, INV_MDS@[44] == 261507241403368739495061898437487288983, INV_MDS@[53] == 282969307798192780252363036667478424579, INV_MDS@[62] == 264107629248301051999906486186808234581, INV_MDS@[71] == 284833600592635465857283731988811252583, INV_MDS@[80] == 264587253941419405809422580099449217063,
    ;
}

proof fn lemma_product_forward_row_2()
    ensures
        identity_row(Elem::modulus(), MDS@, INV_MDS@, 9, 2, 9),
{
    reveal_with_fuel(sum, 10);
    reveal_with_fuel(identity_row, 10);
    assert(product_entry(MDS@, INV_MDS@, 9, 2, 0) == (MDS@[18] as int) * (INV_MDS@[0] as int) + (MDS@[19] as int) * (INV_MDS@[9] as int) + (MDS@[20] as int) * (INV_MDS@[18] as int) + (MDS@[21] as int) * (INV_MDS@[27] as int) + (MDS@[22] as int) * (INV_MDS@[36] as int) + (MDS@[23] as int) * (INV_MDS@[45] as int) + (MDS@[24] as int) * (INV_MDS@[54] as int) + (MDS@[25] as int) * (INV_MDS@[63] as int) + (MDS@[26] as int) * (INV_MDS@[72] as int));
    assert(((MDS@[18] as int) * (INV_MDS@[0] as int) + (MDS@[19] as int) * (INV_MDS@[9] as int) + (MDS@[20] as int) * (INV_MDS@[18] as int) + (MDS@[21] as int) * (INV_MDS@[27] as int) + (MDS@[22] as int) * (INV_MDS@[36] as int) + (MDS@[23] as int) * (INV_MDS@[45] as int) + (MDS@[24] as int) * (INV_MDS@[54] as int) + (MDS@[25] as int) * (INV_MDS@[63] as int) + (MDS@[26] as int) * (INV_MDS@[72] as int)) % 340282366920938463463374557953744961537 == 0) by (nonlinear_arith)
        requires
            MDS@[18] == 10902337119274288189585941, MDS@[19] == 340282366920922112265621116423314299677, MDS@[20] == 6129103051534490589064140, MDS@[21] == 340282366920937757157506327072060715056, MDS@[22] == 26385516604305016476318, MDS@[23] == 340282366920938463140023726422701560397, MDS@[24] == 1286673036395336460, MDS@[25] == 340282366920938463463372975281818522219, MDS@[26] == 494894285941, INV_MDS@[0] == 207704205238170807874062389651402246184, INV_MDS@[9] == 127826805904477456371474222478224881465, INV_MDS@[18] == 248581119490725734937433971221259595049, INV_MDS@[27] == 283673471255946562146645390311833638442, INV_MDS@[36] == 220783014807171136331164688074748627144, INV_MDS@[45] == 47112215418871085025936967894656035967, INV_MDS@[54] == 52011660187227698998307018524445124622, INV_MDS@[63] == 302228698991084466216875753830938701241, INV_MDS@[72] == 243710843188765407683950167325811244364,
    ;
    assert(product_entry(MDS@, INV_MDS@, 9, 2, 1) == (MDS@[18] as int) * (INV_MDS@[1] as int) + (MDS@[19] as int) * (INV_MDS@[10] as int) + (MDS@[20] as int) * (INV_MDS@[19] as int) + (MDS@[21] as int) * (INV_MDS@[28] as int) + (MDS@[22] as int) * (INV_MDS@[37] as int) + (MDS@[23] as int) * (INV_MDS@[46] as int) + (MDS@[24] as int) * (INV_MDS@[55] as int) + (MDS@[25] as int) * (INV_MDS@[64] as int) + (MDS@[26] as int) * (INV_MDS@[73] as int));
    assert(((MDS@[18] as int) * (INV_MDS@[1] as int) + (MDS@[19] as int) * (INV_MDS@[10] as int) + (MDS@[20] as int) * (INV_MDS@[19] as int) + (MDS@[21] as int) * (INV_MDS@[28] as int) + (MDS@[22] as int) * (INV_MDS@[37] as int) + (MDS@[23] as int) * (INV_MDS@[46] as int) + (MDS@[24] as int) * (INV_MDS@[55] as int) + (MDS@[25] as int) * (INV_MDS@[64] as int) + (MDS@[26] as int) * (INV_MDS@[73] as int)) % 340282366920938463463374557953744961537 == 0) by (nonlinear_arith)
        requires
            MDS@[18] == 10902337119274288189585941, MDS@[19] == 340282366920922112265621116423314299677, MDS@[20] == 6129103051534490589064140, MDS@[21] == 340282366920937757157506327072060715056, MDS@[22] == 26385516604305016476318, MDS@[23] == 340282366920938463140023726422701560397, MDS@[24] == 1286673036395336460, MDS@[25] == 340282366920938463463372975281818522219, MDS@[26] == 494894285941, INV_MDS@[1] == 338985877705667148435373284629855945642, INV_MDS@[10] == 58658143825271814927663889085592315510, INV_MDS@[19] == 205001520256672409877405228205435574405, INV_MDS@[28] == 209223032476035404560919156087419693012, INV_MDS@[37] == 309965259718335944489975028792798283342, INV_MDS@[46] == 257010822502178578101896171521076674054, INV_MDS@[55] == 191078345965907944922431974561774457545, INV_MDS@[64] == 280345530278773498915828360047963227132, INV_MDS@[73] == 164728799513981287864597798438362590906,
    ;
    assert(product_entry(MDS@, INV_MDS@, 9, 2, 2) == (MDS@[18] as int) * (INV_MDS@[2] as int) + (MDS@[19] as int) * (INV_MDS@[11] as int) + (MDS@[20] as int) * (INV_MDS@[20] as int) + (MDS@[21] as int) * (INV_MDS@[29] as int) + (MDS@[22] as int) * (INV_MDS@[38] as int) + (MDS@[23] as int) * (INV_MDS@[47] as int) + (MDS@[24] as int) * (INV_MDS@[56] as int) + (MDS@[25] as int) * (INV_MDS@[65] as int) + (MDS@[26] as int) * (INV_MDS@[74] as int));
    assert(((MDS@[18] as int) * (INV_MDS@[2] as int) + (MDS@[19] as int) * (INV_MDS@[11] as int) + (MDS@[20] as int) * (INV_MDS@[20] as int) + (MDS@[21] as int) * (INV_MDS@[29] as int) + (MDS@[22] as int) * (INV_MDS@[38] as int) + (MDS@[23] as int) * (INV_MDS@[47] as int) + (MDS@[24] as int) * (INV_MDS@[56] as int) + (MDS@[25] as int) * (INV_MDS@[65] as int) + (MDS@[26] as int) * (INV_MDS@[74] as int)) % 340282366920938463463374557953744961537 == 1) by (nonlinear_arith)
        requires
            MDS@[18] == 10902337119274288189585941, MDS@[19] == 340282366920922112265621116423314299677, MDS@[20] == 6129103051534490589064140, MDS@[21] == 340282366920937757157506327072060715056, MDS@[22] == 26385516604305016476318, MDS@[23] == 340282366920938463140023726422701560397, MDS@[24] == 1286673036395336460, MDS@[25] == 340282366920938463463372975281818522219, MDS@[26] == 494894285941, INV_MDS@[2] == 129028267600780770615661928550545766843, INV_MDS@[11] == 312249633317719663349408437894842488201, INV_MDS@[20] == 200096610221992325040847115543314292955, INV_MDS@[29] == 211512112805934564584850722873108293522, INV_MDS@[38] == 96673590909058413519603421380578045352, INV_MDS@[47] == 20670720855140215404881506561419650370, INV_MDS@[56] == 86336838853676487241056288607338298724, INV_MDS@[65] == 333099072682993183200689623504181423558, INV_MDS@[74] == 203691322335641954496554143160915473208,
    ;
    assert(product_entry(MDS@, INV_MDS@, 9, 2, 3) == (MDS@[18] as int) * (INV_MDS@[3] as int) + (MDS@[19] as int) * (INV_MDS@[12] as int) + (MDS@[20] as int) * (INV_MDS@[21] as int) + (MDS@[21] as int) * (INV_MDS@[30] as int) + (MDS@[22] as int) * (INV_MDS@[39] as int) + (MDS@[23] as int) * (INV_MDS@[48] as int) + (MDS@[24] as int) * (INV_MDS@[57] as int) + (MDS@[25] as int) * (INV_MDS@[66] as int) + (MDS@[26] as int) * (INV_MDS@[75] as int));
    assert(((MDS@[18] as int) * (INV_MDS@[3] as int) + (MDS@[19] as int) * (INV_MDS@[12] as int) + (MDS@[20] as int) * (INV_MDS@[21] as int) + (MDS@[21] as int) * (INV_MDS@[30] as int) + (MDS@[22] as int) * (INV_MDS@[39] as int) + (MDS@[23] as int) * (INV_MDS@[48] as int) + (MDS@[24] as int) * (INV_MDS@[57] as int) + (MDS@[25] as int) * (INV_MDS@[66] as int) + (MDS@[26] as int) * (INV_MDS@[75] as int)) % 340282366920938463463374557953744961537 == 0) by (nonlinear_arith)
        requires
            MDS@[18] == 10902337119274288189585941, MDS@[19] == 340282366920922112265621116423314299677, MDS@[20] == 6129103051534490589064140, MDS@[21] == 340282366920937757157506327072060715056, MDS@[22] == 26385516604305016476318, MDS@[23] == 340282366920938463140023726422701560397, MDS@[24] == 1286673036395336460, MDS@[25] == 340282366920938463463372975281818522219, MDS@[26] == 494894285941, INV_MDS@[3] == 308035008707470404458798574304191182997, INV_MDS@[12] == 214300933317574560218555665032290192921, INV_MDS@[21] == 15223170475099380041360367767094442338, INV_MDS@[30] == 239776030660594538269138961758799208508, INV_MDS@[39] == 205785556561014960463687902712791399561, INV_MDS@[48] == 275063314552737150020455701571996505359, INV_MDS@[57] == 125093328226800820985177164342949053500, INV_MDS@[66] == 27875343830661393369872307155840999075, INV_MDS@[75] == 207184049598426413618777837396461507381,
    ;
    assert(product_entry(MDS@, INV_MDS@, 9, 2, 4) == (MDS@[18] as int) * (INV_MDS@[4] as int) + (MDS@[19] as int) * (INV_MDS@[13] as int) + (MDS@[20] as int) * (INV_MDS@[22] as int) + (MDS@[21] as int) * (INV_MDS@[31] as int) + (MDS@[22] as int) * (INV_MDS@[40] as int) + (MDS@[23] as int) * (INV_MDS@[49] as int) + (MDS@[24] as int) * (INV_MDS@[58] as int) + (MDS@[25] as int) * (INV_MDS@[67] as int) + (MDS@[26] as int) * (INV_MDS@[76] as int));
    assert(((MDS@[18] as int) * (INV_MDS@[4] as int) + (MDS@[19] as int) * (INV_MDS@[13] as int) + (MDS@[20] as int) * (INV_MDS@[22] as int) + (MDS@[21] as int) * (INV_MDS@[31] as int) + (MDS@[22] as int) * (INV_MDS@[40] as int) + (MDS@[23] as int) * (INV_MDS@[49] as int) + (MDS@[24] as int) * (INV_MDS@[58] as int) + (MDS@[25] as int) * (INV_MDS@[67] as int) + (MDS@[26] as int) * (INV_MDS@[76] as int)) % 340282366920938463463374557953744961537 == 0) by (nonlinear_arith)
        requires
            MDS@[18] == 10902337119274288189585941, MDS@[19] == 340282366920922112265621116423314299677, MDS@[20] == 6129103051534490589064140, MDS@[21] == 340282366920937757157506327072060715056, MDS@[22] == 26385516604305016476318, MDS@[23] == 340282366920938463140023726422701560397, MDS@[24] == 1286673036395336460, MDS@[25] == 340282366920938463463372975281818522219, MDS@[26] == 494894285941, INV_MDS@[4] == 128520708499505858811967733849558211851, INV_MDS@[13] == 284396721402661659389038897151481097747, INV_MDS@[22] == 235366553140646608237869232108973717383, INV_MDS@[31] == 68210418817622944190939851321990599837, INV_MDS@[40] == 72930044192120504138776809082161800375, INV_MDS@[49] == 154434305573626427596859079056551184503, INV_MDS@[58] == 10689792024438114156388383608175598304, INV_MDS@[67] == 47883408063394345577170731401514016906, INV_MDS@[76] == 182286914752134147886045712500843417287,
    ;
    assert(product_entry(MDS@, INV_MDS@, 9, 2, 5) == (MDS@[18] as int) * (INV_MDS@[5] as int) + (MDS@[19] as int) * (INV_MDS@[14] as int) + (MDS@[20] as int) * (INV_MDS@[23] as int) + (MDS@[21] as int) * (INV_MDS@[32] as int) + (MDS@[22] as int) * (INV_MDS@[41] as int) + (MDS@[23] as int) * (INV_MDS@[50] as int) + (MDS@[24] as int) * (INV_MDS@[59] as int) + (MDS@[25] as int) * (INV_MDS@[68] as int) + (MDS@[26] as int) * (INV_MDS@[77] as int));
    assert(((MDS@[18] as int) * (INV_MDS@[5] as int) + (MDS@[19] as int) * (INV_MDS@[14] as int) + (MDS@[20] as int) * (INV_MDS@[23] as int) + (MDS@[21] as int) * (INV_MDS@[32] as int) + (MDS@[22] as int) * (INV_MDS@[41] as int) + (MDS@[23] as int) * (INV_MDS@[50] as int) + (MDS@[24] as int) * (INV_MDS@[59] as int) + (MDS@[25] as int) * (INV_MDS@[68] as int) + (MDS@[26] as int) * (INV_MDS@[77] as int)) % 340282366920938463463374557953744961537 == 0) by (nonlinear_arith)
        requires
            MDS@[18] == 10902337119274288189585941, MDS@[19] == 340282366920922112265621116423314299677, MDS@[20] == 6129103051534490589064140, MDS@[21] == 340282366920937757157506327072060715056, MDS@[22] == 26385516604305016476318, MDS@[23] == 340282366920938463140023726422701560397, MDS@[24] == 1286673036395336460, MDS@[25] == 340282366920938463463372975281818522219, MDS@[26] == 494894285941, INV_MDS@[5] == 75192627449100971018093805348251269149, INV_MDS@[14] == 250642028598419737645395164192907767034, INV_MDS@[23] == 162307162630682801506851542241168907512, INV_MDS@[32] == 222109338954160942132440798066799260073, INV_MDS@[41] == 40863127682090904559911953136810632891, INV_MDS@[50] == 119775195884931758842035438232130131140, INV_MDS@[59] == 329939868120376749051950735773432225615, INV_MDS@[68] == 20045034666478649987681661989026523732, INV_MDS@[77] == 104791328630945774391628390734939042132,
    ;
    assert(product_entry(MDS@, INV_MDS@, 9, 2, 6) == (MDS@[18] as int) * (INV_MDS@[6] as int) + (MDS@[19] as int) * (INV_MDS@[15] as int) + (MDS@[20] as int) * (INV_MDS@[24] as int) + (MDS@[21] as int) * (INV_MDS@[33] as int) + (MDS@[22] as int) * (INV_MDS@[42] as int) + (MDS@[23] as int) * (INV_MDS@[51] as int) + (MDS@[24] as int) * (INV_MDS@[60] as int) + (MDS@[25] as int) * (INV_MDS@[69] as int) + (MDS@[26] as int) * (INV_MDS@[78] as int));
    assert(((MDS@[18] as int) * (INV_MDS@[6] as int) + (MDS@[19] as int) * (INV_MDS@[15] as int) + (MDS@[20] as int) * (INV_MDS@[24] as int) + (MDS@[21] as int) * (INV_MDS@[33] as int) + (MDS@[22] as int) * (INV_MDS@[42] as int) + (MDS@[23] as int) * (INV_MDS@[51] as int) + (MDS@[24] as int) * (INV_MDS@[60] as int) + (MDS@[25] as int) * (INV_MDS@[69] as int) + (MDS@[26] as int) * (INV_MDS@[78] as int)) % 340282366920938463463374557953744961537 == 0) by (nonlinear_arith)
        requires
            MDS@[18] == 10902337119274288189585941, MDS@[19] == 340282366920922112265621116423314299677, MDS@[20] == 6129103051534490589064140, MDS@[21] == 340282366920937757157506327072060715056, MDS@[22] == 26385516604305016476318, MDS@[23] == 340282366920938463140023726422701560397, MDS@[24] == 1286673036395336460, MDS@[25] == 340282366920938463463372975281818522219, MDS@[26] == 494894285941, INV_MDS@[6] == 304723430247806995709152718418888185473, INV_MDS@[15] == 326756605713292613148743956415561946579, INV_MDS@[24] == 52675509994437226630257244779552696631, INV_MDS@[33] == 258338197395874177917585304146894183425, INV_MDS@[42] == 147156319027505131468688770623137082831, INV_MDS@[51] == 110335483825478749319799953283019030264, INV_MDS@[60] == 23499294867058318465853361897065892690, INV_MDS@[69] == 282120995912747862095020676645287935430, INV_MDS@[78] == 292925681130628074351389456735241751204,
    ;
    assert(product_entry(MDS@, INV_MDS@, 9, 2, 7) == (MDS@[18] as int) * (INV_MDS@[7] as int) + (MDS@[19] as int) * (INV_MDS@[16] as int) + (MDS@[20] as int) * (INV_MDS@[25] as int) + (MDS@[21] as int) * (INV_MDS@[34] as int) + (MDS@[22] as int) * (INV_MDS@[43] as int) + (MDS@[23] as int) * (INV_MDS@[52] as int) + (MDS@[24] as int) * (INV_MDS@[61] as int) + (MDS@[25] as int) * (INV_MDS@[70] as int) + (MDS@[26] as int) * (INV_MDS@[79] as int));
    assert(((MDS@[18] as int) * (INV_MDS@[7] as int) + (MDS@[19] as int) * (INV_MDS@[16] as int) + (MDS@[20] as int) * (INV_MDS@[25] as int) + (MDS@[21] as int) * (INV_MDS@[34] as int) + (MDS@[22] as int) * (INV_MDS@[43] as int) + (MDS@[23] as int) * (INV_MDS@[52] as int) + (MDS@[24] as int) * (INV_MDS@[61] as int) + (MDS@[25] as int) * (INV_MDS@[70] as int) + (MDS@[26] as int) * (INV_MDS@[79] as int)) % 340282366920938463463374557953744961537 == 0) by (nonlinear_arith)
        requires
            MDS@[18] == 10902337119274288189585941, MDS@[19] == 340282366920922112265621116423314299677, MDS@[20] == 6129103051534490589064140, MDS@[21] == 340282366920937757157506327072060715056, MDS@[22] == 26385516604305016476318, MDS@[23] == 340282366920938463140023726422701560397, MDS@[24] == 1286673036395336460, MDS@[25] == 340282366920938463463372975281818522219, MDS@[26] == 494894285941, INV_MDS@[7] == 247138038315326480697662666345484012828, INV_MDS@[16] == 64564033929793286393378167005124959170, INV_MDS@[25] == 335285735573611416179235296489092358465, INV_MDS@[34] == 338175469353412666797355362713810876851, INV_MDS@[43] == 5465313383088119386627759574466685670, INV_MDS@[52] == 93758101272597109289270377026652209913, INV_MDS@[61] == 278372710189966668032426818312990960568, INV_MDS@[70] == 122980149585923452096449943205160728029, INV_MDS@[79] == 37505641512749851214506703376700564141,
    ;
    assert(product_entry(MDS@, INV_MDS@, 9, 2, 8) == (MDS@[18] as int) * (INV_MDS@[8] as int) + (MDS@[19] as int) * (INV_MDS@[17] as int) + (MDS@[20] as int) * (INV_MDS@[26] as int) + (MDS@[21] as int) * (INV_MDS@[35] as int) + (MDS@[22] as int) * (INV_MDS@[44] as int) + (MDS@[23] as int) * (INV_MDS@[53] as int) + (MDS@[24] as int) * (INV_MDS@[62] as int) + (MDS@[25] as int) * (INV_MDS@[71] as int) + (MDS@[26] as int) * (INV_MDS@[80] as int));
    assert(((MDS@[18] as int) * (INV_MDS@[8] as int) + (MDS@[19] as int) * (INV_MDS@[17] as int) + (MDS@[20] as int) * (INV_MDS@[26] as int) + (MDS@[21] as int) * (INV_MDS@[35] as int) + (MDS@[22] as int) * (INV_MDS@[44] as int) + (MDS@[23] as int) * (INV_MDS@[53] as int) + (MDS@[24] as int) * (INV_MDS@[62] as int) + (MDS@[25] as int) * (INV_MDS@[71] as int) + (MDS@[26] as int) * (INV_MDS@[80] as int)) % 340282366920938463463374557953744961537 == 0) by (nonlinear_arith)
        requires
            MDS@[18] == 10902337119274288189585941, MDS@[19] == 340282366920922112265621116423314299677, MDS@[20] == 6129103051534490589064140, MDS@[21] == 340282366920937757157506327072060715056, MDS@[22] == 26385516604305016476318, MDS@[23] == 340282366920938463140023726422701560397, MDS@[24] == 1286673036395336460, MDS@[25] == 340282366920938463463372975281818522219, MDS@[26] == 494894285941, INV_MDS@[8] == 302366037761801343159474246624292948256, INV_MDS@[17] == 62016928595481525873214390512699159059, INV_MDS@[26] == 246874452820824414865612791412833222948, INV_MDS@[35] == 210676129806048980180371800441814015553, INV_MDS@[44] == 261507241403368739495061898437487288983, INV_MDS@[53] == 282969307798192780252363036667478424579, INV_MDS@[62] == 264107629248301051999906486186808234581, INV_MDS@[71] == 284833600592635465857283731988811252583, INV_MDS@[80] == 264587253941419405809422580099449217063,
    ;
}

proof fn lemma_product_forward_row_3()
    ensures
        identity_row(Elem::modulus(), MDS@, INV_MDS@, 9, 3, 9),
{
    reveal_with_fuel(sum, 10);
    reveal_with_fuel(identity_row, 10);
    assert(product_entry(MDS@, INV_MDS@, 9, 3, 0) == (MDS@[27] as int) * (INV_MDS@[0] as int) + (MDS@[28] as int) * (INV_MDS@[9] as int) + (MDS@[29] as int) * (INV_MDS@[18] as int) + (MDS@[30] as int) * (INV_MDS@[27] as int) + (MDS@[31] as int) * (INV_MDS@[36] as int) + (MDS@[32] as int) * (INV_MDS@[45] as int) + (MDS@[33] as int) * (INV_MDS@[54] as int) + (MDS@[34] as int) * (INV_MDS@[63] as int) + (MDS@[35] as int) * (INV_MDS@[72] as int));
    assert(((MDS@[27] as int) * (INV_MDS@[0] as int) + (MDS@[28] as int) * (INV_MDS@[9] as int) + (MDS@[29] as int) * (INV_MDS@[18] as int) + (MDS@[30] as int) * (INV_MDS@[27] as int) + (MDS@[31] as int) * (INV_MDS@[36] as int) + (MDS@[32] as int) * (INV_MDS@[45] as int) + (MDS@[33] as int) * (INV_MDS@[54] as int) + (MDS@[34] as int) * (INV_MDS@[63] as int) + (MDS@[35] as int) * (INV_MDS@[72] as int)) % 340282366920938463463374557953744961537 == 0) by (nonlinear_arith)
        requires
            MDS@[27] == 74280977358883194447399657861, MDS@[28] == 340282366809533560559102349761084062337, MDS@[29] == 41758207694766455878941719400, MDS@[30] == 340282366916126655152737768305002590337, MDS@[31] == 179718510858368911187836077, MDS@[32] == 340282366920936262382017994360084004737, MDS@[33] == 8742448408061543808600, MDS@[34] == 340282366920938463452680404506994660737, MDS@[35] == 3287582741506063, INV_MDS@[0] == 207704205238170807874062389651402246184, INV_MDS@[9] == 127826805904477456371474222478224881465, INV_MDS@[18] == 248581119490725734937433971221259595049, INV_MDS@[27] == 283673471255946562146645390311833638442, INV_MDS@[36] == 220783014807171136331164688074748627144, INV_MDS@[45] == 47112215418871085025936967894656035967, INV_MDS@[54] == 52011660187227698998307018524445124622, INV_MDS@[63] == 302228698991084466216875753830938701241, INV_MDS@[72] == 243710843188765407683950167325811244364,
    ;
    assert(product_entry(MDS@, INV_MDS@, 9, 3, 1) == (MDS@[27] as int) * (INV_MDS@[1] as int) + (MDS@[28] as int) * (INV_MDS@[10] as int) + (MDS@[29] as int) * (INV_MDS@[19] as int) + (MDS@[30] as int) * (INV_MDS@[28] as int) + (MDS@[31] as int) * (INV_MDS@[37] as int) + (MDS@[32] as int) * (INV_MDS@[46] as int) + (MDS@[33] as int) * (INV_MDS@[55] as int) + (MDS@[34] as int) * (INV_MDS@[64] as int) + (MDS@[35] as int) * (INV_MDS@[73] as int));
    assert(((MDS@[27] as int) * (INV_MDS@[1] as int) + (MDS@[28] as int) * (INV_MDS@[10] as int) + (MDS@[29] as int) * (INV_MDS@[19] as int) + (MDS@[30] as int) * (INV_MDS@[28] as int) + (MDS@[31] as int) * (INV_MDS@[37] as int) + (MDS@[32] as int) * (INV_MDS@[46] as int) + (MDS@[33] as int) * (INV_MDS@[55] as int) + (MDS@[34] as int) * (INV_MDS@[64] as int) + (MDS@[35] as int) * (INV_MDS@[73] as int)) % 340282366920938463463374557953744961537 == 0) by (nonlinear_arith)
        requires
            MDS@[27] == 74280977358883194447399657861, MDS@[28] == 340282366809533560559102349761084062337, MDS@[29] == 41758207694766455878941719400, MDS@[30] == 340282366916126655152737768305002590337, MDS@[31] == 179718510858368911187836077, MDS@[32] == 340282366920936262382017994360084004737, MDS@[33] == 8742448408061543808600, MDS@[34] == 340282366920938463452680404506994660737, MDS@[35] == 3287582741506063, INV_MDS@[1] == 338985877705667148435373284629855945642, INV_MDS@[10] == 58658143825271814927663889085592315510, INV_MDS@[19] == 205001520256672409877405228205435574405, INV_MDS@[28] == 209223032476035404560919156087419693012, INV_MDS@[37] == 309965259718335944489975028792798283342, INV_MDS@[46] == 257010822502178578101896171521076674054, INV_MDS@[55] == 191078345965907944922431974561774457545, INV_MDS@[64] == 280345530278773498915828360047963227132, INV_MDS@[73] == 164728799513981287864597798438362590906,
    ;
    assert(product_entry(MDS@, INV_MDS@, 9, 3, 2) == (MDS@[27] as int) * (INV_MDS@[2] as int) + (MDS@[28] as int) * (INV_MDS@[11] as int) + (MDS@[29] as int) * (INV_MDS@[20] as int) + (MDS@[30] as int) * (INV_MDS@[29] as int) + (MDS@[31] as int) * (INV_MDS@[38] as int) + (MDS@[32] as int) * (INV_MDS@[47] as int) + (MDS@[33] as int) * (INV_MDS@[56] as int) + (MDS@[34] as int) * (INV_MDS@[65] as int) + (MDS@[35] as int) * (INV_MDS@[74] as int));
    assert(((MDS@[27] as int) * (INV_MDS@[2] as int) + (MDS@[28] as int) * (INV_MDS@[11] as int) + (MDS@[29] as int) * (INV_MDS@[20] as int) + (MDS@[30] as int) * (INV_MDS@[29] as int) + (MDS@[31] as int) * (INV_MDS@[38] as int) + (MDS@[32] as int) * (INV_MDS@[47] as int) + (MDS@[33] as int) * (INV_MDS@[56] as int) + (MDS@[34] as int) * (INV_MDS@[65] as int) + (MDS@[35] as int) * (INV_MDS@[74] as int)) % 340282366920938463463374557953744961537 == 0) by (nonlinear_arith)
        requires
            MDS@[27] == 74280977358883194447399657861, MDS@[28] == 340282366809533560559102349761084062337, MDS@[29] == 41758207694766455878941719400, MDS@[30] == 340282366916126655152737768305002590337, MDS@[31] == 179718510858368911187836077, MDS@[32] == 340282366920936262382017994360084004737, MDS@[33] == 8742448408061543808600, MDS@[34] == 340282366920938463452680404506994660737, MDS@[35] == 3287582741506063, INV_MDS@[2] == 129028267600780770615661928550545766843, INV_MDS@[11] == 312249633317719663349408437894842488201, INV_MDS@[20] == 200096610221992325040847115543314292955, INV_MDS@[29] == 211512112805934564584850722873108293522, INV_MDS@[38] == 96673590909058413519603421380578045352, INV_MDS@[47] == 20670720855140215404881506561419650370, INV_MDS@[56] == 86336838853676487241056288607338298724, INV_MDS@[65] == 333099072682993183200689623504181423558, INV_MDS@[74] == 203691322335641954496554143160915473208,
    ;
    assert(product_entry(MDS@, INV_MDS@, 9, 3, 3) == (MDS@[27] as int) * (INV_MDS@[3] as int) + (MDS@[28] as int) * (INV_MDS@[12] as int) + (MDS@[29] as int) * (INV_MDS@[21] as int) + (MDS@[30] as int) * (INV_MDS@[30] as int) + (MDS@[31] as int) * (INV_MDS@[39] as int) + (MDS@[32] as int) * (INV_MDS@[48] as int) + (MDS@[33] as int) * (INV_MDS@[57] as int) + (MDS@[34] as int) * (INV_MDS@[66] as int) + (MDS@[35] as int) * (INV_MDS@[75] as int));
    assert(((MDS@[27] as int) * (INV_MDS@[3] as int) + (MDS@[28] as int) * (INV_MDS@[12] as int) + (MDS@[29] as int) * (INV_MDS@[21] as int) + (MDS@[30] as int) * (INV_MDS@[30] as int) + (MDS@[31] as int) * (INV_MDS@[39] as int) + (MDS@[32] as int) * (INV_MDS@[48] as int) + (MDS@[33] as int) * (INV_MDS@[57] as int) + (MDS@[34] as int) * (INV_MDS@[66] as int) + (MDS@[35] as int) * (INV_MDS@[75] as int)) % 340282366920938463463374557953744961537 == 1) by (nonlinear_arith)
        requires
            MDS@[27] == 74280977358883194447399657861, MDS@[28] == 340282366809533560559102349761084062337, MDS@[29] == 41758207694766455878941719400, MDS@[30] == 340282366916126655152737768305002590337, MDS@[31] == 179718510858368911187836077, MDS@[32] == 340282366920936262382017994360084004737, MDS@[33] == 8742448408061543808600, MDS@[34] == 340282366920938463452680404506994660737, MDS@[35] == 3287582741506063, INV_MDS@[3] == 308035008707470404458798574304191182997, INV_MDS@[12] == 214300933317574560218555665032290192921, INV_MDS@[21] == 15223170475099380041360367767094442338, INV_MDS@[30] == 239776030660594538269138961758799208508, INV_MDS@[39] == 205785556561014960463687902712791399561, INV_MDS@[48] == 275063314552737150020455701571996505359, INV_MDS@[57] == 125093328226800820985177164342949053500, INV_MDS@[66] == 27875343830661393369872307155840999075, INV_MDS@[75] == 207184049598426413618777837396461507381,
    ;
    assert(product_entry(MDS@, INV_MDS@, 9, 3, 4) == (MDS@[27] as int) * (INV_MDS@[4] as int) + (MDS@[28] as int) * (INV_MDS@[13] as int) + (MDS@[29] as int) * (INV_MDS@[22] as int) + (MDS@[30] as int) * (INV_MDS@[31] as int) + (MDS@[31] as int) * (INV_MDS@[40] as int) + (MDS@[32] as int) * (INV_MDS@[49] as int) + (MDS@[33] as int) * (INV_MDS@[58] as int) + (MDS@[34] as int) * (INV_MDS@[67] as int) + (MDS@[35] as int) * (INV_MDS@[76] as int));
    assert(((MDS@[27] as int) * (INV_MDS@[4] as int) + (MDS@[28] as int) * (INV_MDS@[13] as int) + (MDS@[29] as int) * (INV_MDS@[22] as int) + (MDS@[30] as int) * (INV_MDS@[31] as int) + (MDS@[31] as int) * (INV_MDS@[40] as int) + (MDS@[32] as int) * (INV_MDS@[49] as int) + (MDS@[33] as int) * (INV_MDS@[58] as int) + (MDS@[34] as int) * (INV_MDS@[67] as int) + (MDS@[35] as int) * (INV_MDS@[76] as int)) % 340282366920938463463374557953744961537 == 0) by (nonlinear_arith)
        requires
            MDS@[27] == 74280977358883194447399657861, MDS@[28] == 340282366809533560559102349761084062337, MDS@[29] == 41758207694766455878941719400, MDS@[30] == 340282366916126655152737768305002590337, MDS@[31] == 179718510858368911187836077, MDS@[32] == 340282366920936262382017994360084004737, MDS@[33] == 8742448408061543808600, MDS@[34] == 340282366920938463452680404506994660737, MDS@[35] == 3287582741506063, INV_MDS@[4] == 128520708499505858811967733849558211851, INV_MDS@[13] == 284396721402661659389038897151481097747, INV_MDS@[22] == 235366553140646608237869232108973717383, INV_MDS@[31] == 68210418817622944190939851321990599837, INV_MDS@[40] == 72930044192120504138776809082161800375, INV_MDS@[49] == 154434305573626427596859079056551184503, INV_MDS@[58] == 10689792024438114156388383608175598304, INV_MDS@[67] == 47883408063394345577170731401514016906, INV_MDS@[76] == 182286914752134147886045712500843417287,
    ;
    assert(product_entry(MDS@, INV_MDS@, 9, 3, 5) == (MDS@[27] as int) * (INV_MDS@[5] as int) + (MDS@[28] as int) * (INV_MDS@[14] as int) + (MDS@[29] as int) * (INV_MDS@[23] as int) + (MDS@[30] as int) * (INV_MDS@[32] as int) + (MDS@[31] as int) * (INV_MDS@[41] as int) + (MDS@[32] as int) * (INV_MDS@[50] as int) + (MDS@[33] as int) * (INV_MDS@[59] as int) + (MDS@[34] as int) * (INV_MDS@[68] as int) + (MDS@[35] as int) * (INV_MDS@[77] as int));
    assert(((MDS@[27] as int) * (INV_MDS@[5] as int) + (MDS@[28] as int) * (INV_MDS@[14] as int) + (MDS@[29] as int) * (INV_MDS@[23] as int) + (MDS@[30] as int) * (INV_MDS@[32] as int) + (MDS@[31] as int) * (INV_MDS@[41] as int) + (MDS@[32] as int) * (INV_MDS@[50] as int) + (MDS@[33] as int) * (INV_MDS@[59] as int) + (MDS@[34] as int) * (INV_MDS@[68] as int) + (MDS@[35] as int) * (INV_MDS@[77] as int)) % 340282366920938463463374557953744961537 == 0) by (nonlinear_arith)
        requires
            MDS@[27] == 74280977358883194447399657861, MDS@[28] == 340282366809533560559102349761084062337, MDS@[29] == 41758207694766455878941719400, MDS@[30] == 340282366916126655152737768305002590337, MDS@[31] == 179718510858368911187836077, MDS@[32] == 340282366920936262382017994360084004737, MDS@[33] == 8742448408061543808600, MDS@[34] == 340282366920938463452680404506994660737, MDS@[35] == 3287582741506063, INV_MDS@[5] == 75192627449100971018093805348251269149, INV_MDS@[14] == 250642028598419737645395164192907767034, INV_MDS@[23] == 162307162630682801506851542241168907512, INV_MDS@[32] == 222109338954160942132440798066799260073, INV_MDS@[41] == 40863127682090904559911953136810632891, INV_MDS@[50] == 119775195884931758842035438232130131140, INV_MDS@[59] == 329939868120376749051950735773432225615, INV_MDS@[68] == 20045034666478649987681661989026523732, INV_MDS@[77] == 104791328630945774391628390734939042132,
    ;
    assert(product_entry(MDS@, INV_MDS@, 9, 3, 6) == (MDS@[27] as int) * (INV_MDS@[6] as int) + (MDS@[28] as int) * (INV_MDS@[15] as int) + (MDS@[29] as int) * (INV_MDS@[24] as int) + (MDS@[30] as int) * (INV_MDS@[33] as int) + (MDS@[31] as int) * (INV_MDS@[42] as int) + (MDS@[32] as int) * (INV_MDS@[51] as int) + (MDS@[33] as int) * (INV_MDS@[60] as int) + (MDS@[34] as int) * (INV_MDS@[69] as int) + (MDS@[35] as int) * (INV_MDS@[78] as int));
    assert(((MDS@[27] as int) * (INV_MDS@[6] as int) + (MDS@[28] as int) * (INV_MDS@[15] as int) + (MDS@[29] as int) * (INV_MDS@[24] as int) + (MDS@[30] as int) * (INV_MDS@[33] as int) + (MDS@[31] as int) * (INV_MDS@[42] as int) + (MDS@[32] as int) * (INV_MDS@[51] as int) + (MDS@[33] as int) * (INV_MDS@[60] as int) + (MDS@[34] as int) * (INV_MDS@[69] as int) + (MDS@[35] as int) * (INV_MDS@[78] as int)) % 340282366920938463463374557953744961537 == 0) by (nonlinear_arith)
        requires
            MDS@[27] == 74280977358883194447399657861, MDS@[28] == 340282366809533560559102349761084062337, MDS@[29] == 41758207694766455878941719400, MDS@[30] == 340282366916126655152737768305002590337, MDS@[31] == 179718510858368911187836077, MDS@[32] == 340282366920936262382017994360084004737, MDS@[33] == 8742448408061543808600, MDS@[34] == 340282366920938463452680404506994660737, MDS@[35] == 3287582741506063, INV_MDS@[6] == 304723430247806995709152718418888185473, INV_MDS@[15] == 326756605713292613148743956415561946579, INV_MDS@[24] == 52675509994437226630257244779552696631, INV_MDS@[33] == 258338197395874177917585304146894183425, INV_MDS@[42] == 147156319027505131468688770623137082831, INV_MDS@[51] == 110335483825478749319799953283019030264, INV_MDS@[60] == 23499294867058318465853361897065892690, INV_MDS@[69] == 282120995912747862095020676645287935430, INV_MDS@[78] == 292925681130628074351389456735241751204,
    ;
    assert(product_entry(MDS@, INV_MDS@, 9, 3, 7) == (MDS@[27] as int) * (INV_MDS@[7] as int) + (MDS@[28] as int) * (INV_MDS@[16] as int) + (MDS@[29] as int) * (INV_MDS@[25] as int) + (MDS@[30] as int) * (INV_MDS@[34] as int) + (MDS@[31] as int) * (INV_MDS@[43] as int) + (MDS@[32] as int) * (INV_MDS@[52] as int) + (MDS@[33] as int) * (INV_MDS@[61] as int) + (MDS@[34] as int) * (INV_MDS@[70] as int) + (MDS@[35] as int) * (INV_MDS@[79] as int));
    assert(((MDS@[27] as int) * (INV_MDS@[7] as int) + (MDS@[28] as int) * (INV_MDS@[16] as int) + (MDS@[29] as int) * (INV_MDS@[25] as int) + (MDS@[30] as int) * (INV_MDS@[34] as int) + (MDS@[31] as int) * (INV_MDS@[43] as int) + (MDS@[32] as int) * (INV_MDS@[52] as int) + (MDS@[33] as int) * (INV_MDS@[61] as int) + (MDS@[34] as int) * (INV_MDS@[70] as int) + (MDS@[35] as int) * (INV_MDS@[79] as int)) % 340282366920938463463374557953744961537 == 0) by (nonlinear_arith)
        requires
            MDS@[27] == 74280977358883194447399657861, MDS@[28] == 340282366809533560559102349761084062337, MDS@[29] == 41758207694766455878941719400, MDS@[30] == 340282366916126655152737768305002590337, MDS@[31] == 179718510858368911187836077, MDS@[32] == 340282366920936262382017994360084004737, MDS@[33] == 8742448408061543808600, MDS@[34] == 340282366920938463452680404506994660737, MDS@[35] == 3287582741506063, INV_MDS@[7] == 247138038315326480697662666345484012828, INV_MDS@[16] == 64564033929793286393378167005124959170, INV_MDS@[25] == 335285735573611416179235296489092358465, INV_MDS@[34] == 338175469353412666797355362713810876851, INV_MDS@[43] == 5465313383088119386627759574466685670, INV_MDS@[52] == 93758101272597109289270377026652209913, INV_MDS@[61] == 278372710189966668032426818312990960568, INV_MDS@[70] == 122980149585923452096449943205160728029, INV_MDS@[79] == 37505641512749851214506703376700564141,
    ;
    assert(product_entry(MDS@, INV_MDS@, 9, 3, 8) == (MDS@[27] as int) * (INV_MDS@[8] as int) + (MDS@[28] as int) * (INV_MDS@[17] as int) + (MDS@[29] as int) * (INV_MDS@[26] as int) + (MDS@[30] as int) * (INV_MDS@[35] as int) + (MDS@[31] as int) * (INV_MDS@[44] as int) + (MDS@[32] as int) * (INV_MDS@[53] as int) + (MDS@[33] as int) * (INV_MDS@[62] as int) + (MDS@[34] as int) * (INV_MDS@[71] as int) + (MDS@[35] as int) * (INV_MDS@[80] as int));
    assert(((MDS@[27] as int) * (INV_MDS@[8] as int) + (MDS@[28] as int) * (INV_MDS@[17] as int) + (MDS@[29] as int) * (INV_MDS@[26] as int) + (MDS@[30] as int) * (INV_MDS@[35] as int) + (MDS@[31] as int) * (INV_MDS@[44] as int) + (MDS@[32] as int) * (INV_MDS@[53] as int) + (MDS@[33] as int) * (INV_MDS@[62] as int) + (MDS@[34] as int) * (INV_MDS@[71] as int) + (MDS@[35] as int) * (INV_MDS@[80] as int)) % 340282366920938463463374557953744961537 == 0) by (nonlinear_arith)
        requires
            MDS@[27] == 74280977358883194447399657861, MDS@[28] == 340282366809533560559102349761084062337, MDS@[29] == 41758207694766455878941719400, MDS@[30] == 340282366916126655152737768305002590337, MDS@[31] == 179718510858368911187836077, MDS@[32] == 340282366920936262382017994360084004737, MDS@[33] == 8742448408061543808600, MDS@[34] == 340282366920938463452680404506994660737, MDS@[35] == 3287582741506063, INV_MDS@[8] == 302366037761801343159474246624292948256, INV_MDS@[17] == 62016928595481525873214390512699159059, INV_MDS@[26] == 246874452820824414865612791412833222948, INV_MDS@[35] == 210676129806048980180371800441814015553, INV_MDS@[44] == 261507241403368739495061898437487288983, INV_MDS@[53] == 282969307798192780252363036667478424579, INV_MDS@[62] == 264107629248301051999906486186808234581, INV_MDS@[71] == 284833600592635465857283731988811252583, INV_MDS@[80] == 264587253941419405809422580099449217063,
    ;
}

proof fn lemma_product_forward_row_4()
    ensures
        identity_row(Elem::modulus(), MDS@, INV_MDS@, 9, 4, 9),
{
    reveal_with_fuel(sum, 10);
    reveal_with_fuel(identity_row, 10);
    assert(product_entry(MDS@, INV_MDS@, 9, 4, 0) == (MDS@[36] as int) * (INV_MDS@[0] as int) + (MDS@[37] as int) * (INV_MDS@[9] as int) + (MDS@[38] as int) * (INV_MDS@[18] as int) + (MDS@[39] as int) * (INV_MDS@[27] as int) + (MDS@[40] as int) * (INV_MDS@[36] as int) + (MDS@[41] as int) * (INV_MDS@[45] as int) + (MDS@[42] as int) * (INV_MDS@[54] as int) + (MDS@[43] as int) * (INV_MDS@[63] as int) + (MDS@[44] as int) * (INV_MDS@[72] as int));
    assert(((MDS@[36] as int) * (INV_MDS@[0] as int) + (MDS@[37] as int) * (INV_MDS@[9] as int) + (MDS@[38] as int) * (INV_MDS@[18] as int) + (MDS@[39] as int) * (INV_MDS@[27] as int) + (MDS@[40] as int) * (INV_MDS@[36] as int) + (MDS@[41] as int) * (INV_MDS@[45] as int) + (MDS@[42] as int) * (INV_MDS@[54] as int) + (MDS@[43] as int) * (INV_MDS@[63] as int) + (MDS@[44] as int) * (INV_MDS@[72] as int)) % 340282366920938463463374557953744961537 == 0) by (nonlinear_arith)
        requires
            MDS@[36] == 493448532595061060714075927170623, MDS@[37] == 340281626860025222258639632111371827735, MDS@[38] == 277396989820105406282268067810980, MDS@[39] == 340282334957138432026603756253961717317, MDS@[40] == 1193750249204165634400502061594, MDS@[41] == 340282366906321119535778575950744594740, MDS@[42] == 58023022992049963173346020, MDS@[43] == 340282366920938392617192638478820451957, MDS@[44] == 21658948312410865183, INV_MDS@[0] == 207704205238170807874062389651402246184, INV_MDS@[9] == 127826805904477456371474222478224881465, INV_MDS@[18] == 248581119490725734937433971221259595049, INV_MDS@[27] == 283673471255946562146645390311833638442, INV_MDS@[36] == 220783014807171136331164688074748627144, INV_MDS@[45] == 47112215418871085025936967894656035967, INV_MDS@[54] == 52011660187227698998307018524445124622, INV_MDS@[63] == 302228698991084466216875753830938701241, INV_MDS@[72] == 243710843188765407683950167325811244364,
    ;
    assert(product_entry(MDS@, INV_MDS@, 9, 4, 1) == (MDS@[36] as int) * (INV_MDS@[1] as int) + (MDS@[37] as int) * (INV_MDS@[10] as int) + (MDS@[38] as int) * (INV_MDS@[19] as int) + (MDS@[39] as int) * (INV_MDS@[28] as int) + (MDS@[40] as int) * (INV_MDS@[37] as int) + (MDS@[41] as int) * (INV_MDS@[46] as int) + (MDS@[42] as int) * (INV_MDS@[55] as int) + (MDS@[43] as int) * (INV_MDS@[64] as int) + (MDS@[44] as int) * (INV_MDS@[73] as int));
    assert(((MDS@[36] as int) * (INV_MDS@[1] as int) + (MDS@[37] as int) * (INV_MDS@[10] as int) + (MDS@[38] as int) * (INV_MDS@[19] as int) + (MDS@[39] as int) * (INV_MDS@[28] as int) + (MDS@[40] as int) * (INV_MDS@[37] as int) + (MDS@[41] as int) * (INV_MDS@[46] as int) + (MDS@[42] as int) * (INV_MDS@[55] as int) + (MDS@[43] as int) * (INV_MDS@[64] as int) + (MDS@[44] as int) * (INV_MDS@[73] as int)) % 340282366920938463463374557953744961537 == 0) by (nonlinear_arith)
        requires
            MDS@[36] == 493448532595061060714075927170623, MDS@[37] == 340281626860025222258639632111371827735, MDS@[38] == 277396989820105406282268067810980, MDS@[39] == 340282334957138432026603756253961717317, MDS@[40] == 1193750249204165634400502061594, MDS@[41] == 340282366906321119535778575950744594740, MDS@[42] == 58023022992049963173346020, MDS@[43] == 340282366920938392617192638478820451957, MDS@[44] == 21658948312410865183, INV_MDS@[1] == 338985877705667148435373284629855945642, INV_MDS@[10] == 58658143825271814927663889085592315510, INV_MDS@[19] == 205001520256672409877405228205435574405, INV_MDS@[28] == 209223032476035404560919156087419693012, INV_MDS@[37] == 309965259718335944489975028792798283342, INV_MDS@[46] == 257010822502178578101896171521076674054, INV_MDS@[55] == 191078345965907944922431974561774457545, INV_MDS@[64] == 280345530278773498915828360047963227132, INV_MDS@[73] == 164728799513981287864597798438362590906,
    ;
    assert(product_entry(MDS@, INV_MDS@, 9, 4, 2) == (MDS@[36] as int) * (INV_MDS@[2] as int) + (MDS@[37] as int) * (INV_MDS@[11] as int) + (MDS@[38] as int) * (INV_MDS@[20] as int) + (MDS@[39] as int) * (INV_MDS@[29] as int) + (MDS@[40] as int) * (INV_MDS@[38] as int) + (MDS@[41] as int) * (INV_MDS@[47] as int) + (MDS@[42] as int) * (INV_MDS@[56] as int) + (MDS@[43] as int) * (INV_MDS@[65] as int) + (MDS@[44] as int) * (INV_MDS@[74] as int));
    assert(((MDS@[36] as int) * (INV_MDS@[2] as int) + (MDS@[37] as int) * (INV_MDS@[11] as int) + (MDS@[38] as int) * (INV_MDS@[20] as int) + (MDS@[39] as int) * (INV_MDS@[29] as int) + (MDS@[40] as int) * (INV_MDS@[38] as int) + (MDS@[41] as int) * (INV_MDS@[47] as int) + (MDS@[42] as int) * (INV_MDS@[56] as int) + (MDS@[43] as int) * (INV_MDS@[65] as int) + (MDS@[44] as int) * (INV_MDS@[74] as int)) % 340282366920938463463374557953744961537 == 0) by (nonlinear_arith)
        requires
            MDS@[36] == 493448532595061060714075927170623, MDS@[37] == 340281626860025222258639632111371827735, MDS@[38] == 277396989820105406282268067810980, MDS@[39] == 340282334957138432026603756253961717317, MDS@[40] == 1193750249204165634400502061594, MDS@[41] == 340282366906321119535778575950744594740, MDS@[42] == 58023022992049963173346020, MDS@[43] == 340282366920938392617192638478820451957, MDS@[44] == 21658948312410865183, INV_MDS@[2] == 129028267600780770615661928550545766843, INV_MDS@[11] == 312249633317719663349408437894842488201, INV_MDS@[20] == 200096610221992325040847115543314292955, INV_MDS@[29] == 211512112805934564584850722873108293522, INV_MDS@[38] == 96673590909058413519603421380578045352, INV_MDS@[47] == 20670720855140215404881506561419650370, INV_MDS@[56] == 86336838853676487241056288607338298724, INV_MDS@[65] == 333099072682993183200689623504181423558, INV_MDS@[74] == 203691322335641954496554143160915473208,
    ;
    assert(product_entry(MDS@, INV_MDS@, 9, 4, 3) == (MDS@[36] as int) * (INV_MDS@[3] as int) + (MDS@[37] as int) * (INV_MDS@[12] as int) + (MDS@[38] as int) * (INV_MDS@[21] as int) + (MDS@[39] as int) * (INV_MDS@[30] as int) + (MDS@[40] as int) * (INV_MDS@[39] as int) + (MDS@[41] as int) * (INV_MDS@[48] as int) + (MDS@[42] as int) * (INV_MDS@[57] as int) + (MDS@[43] as int) * (INV_MDS@[66] as int) + (MDS@[44] as int) * (INV_MDS@[75] as int));
    assert(((MDS@[36] as int) * (INV_MDS@[3] as int) + (MDS@[37] as int) * (INV_MDS@[12] as int) + (MDS@[38] as int) * (INV_MDS@[21] as int) + (MDS@[39] as int) * (INV_MDS@[30] as int) + (MDS@[40] as int) * (INV_MDS@[39] as int) + (MDS@[41] as int) * (INV_MDS@[48] as int) + (MDS@[42] as int) * (INV_MDS@[57] as int) + (MDS@[43] as int) * (INV_MDS@[66] as int) + (MDS@[44] as int) * (INV_MDS@[75] as int)) % 340282366920938463463374557953744961537 == 0) by (nonlinear_arith)
        requires
            MDS@[36] == 493448532595061060714075927170623, MDS@[37] == 340281626860025222258639632111371827735, MDS@[38] == 277396989820105406282268067810980, MDS@[39] == 340282334957138432026603756253961717317, MDS@[40] == 1193750249204165634400502061594, MDS@[41] == 340282366906321119535778575950744594740, MDS@[42] == 58023022992049963173346020, MDS@[43] == 340282366920938392617192638478820451957, MDS@[44] == 21658948312410865183, INV_MDS@[3] == 308035008707470404458798574304191182997, INV_MDS@[12] == 214300933317574560218555665032290192921, INV_MDS@[21] == 15223170475099380041360367767094442338, INV_MDS@[30] == 239776030660594538269138961758799208508, INV_MDS@[39] == 205785556561014960463687902712791399561, INV_MDS@[48] == 275063314552737150020455701571996505359, INV_MDS@[57] == 125093328226800820985177164342949053500, INV_MDS@[66] == 27875343830661393369872307155840999075, INV_MDS@[75] == 207184049598426413618777837396461507381,
    ;
    assert(product_entry(MDS@, INV_MDS@, 9, 4, 4) == (MDS@[36] as int) * (INV_MDS@[4] as int) + (MDS@[37] as int) * (INV_MDS@[13] as int) + (MDS@[38] as int) * (INV_MDS@[22] as int) + (MDS@[39] as int) * (INV_MDS@[31] as int) + (MDS@[40] as int) * (INV_MDS@[40] as int) + (MDS@[41] as int) * (INV_MDS@[49] as int) + (MDS@[42] as int) * (INV_MDS@[58] as int) + (MDS@[43] as int) * (INV_MDS@[67] as int) + (MDS@[44] as int) * (INV_MDS@[76] as int));
    assert(((MDS@[36] as int) * (INV_MDS@[4] as int) + (MDS@[37] as int) * (INV_MDS@[13] as int) + (MDS@[38] as int) * (INV_MDS@[22] as int) + (MDS@[39] as int) * (INV_MDS@[31] as int) + (MDS@[40] as int) * (INV_MDS@[40] as int) + (MDS@[41] as int) * (INV_MDS@[49] as int) + (MDS@[42] as int) * (INV_MDS@[58] as int) + (MDS@[43] as int) * (INV_MDS@[67] as int) + (MDS@[44] as int) * (INV_MDS@[76] as int)) % 340282366920938463463374557953744961537 == 1) by (nonlinear_arith)
        requires
            MDS@[36] == 493448532595061060714075927170623, MDS@[37] == 340281626860025222258639632111371827735, MDS@[38] == 277396989820105406282268067810980, MDS@[39] == 340282334957138432026603756253961717317, MDS@[40] == 1193750249204165634400502061594, MDS@[41] == 340282366906321119535778575950744594740, MDS@[42] == 58023022992049963173346020, MDS@[43] == 340282366920938392617192638478820451957, MDS@[44] == 21658948312410865183, INV_MDS@[4] == 128520708499505858811967733849558211851, INV_MDS@[13] == 284396721402661659389038897151481097747, INV_MDS@[22] == 235366553140646608237869232108973717383, INV_MDS@[31] == 68210418817622944190939851321990599837, INV_MDS@[40] == 72930044192120504138776809082161800375, INV_MDS@[49] == 154434305573626427596859079056551184503, INV_MDS@[58] == 10689792024438114156388383608175598304, INV_MDS@[67] == 47883408063394345577170731401514016906, INV_MDS@[76] == 182286914752134147886045712500843417287,
    ;
    assert(product_entry(MDS@, INV_MDS@, 9, 4, 5) == (MDS@[36] as int) * (INV_MDS@[5] as int) + (MDS@[37] as int) * (INV_MDS@[14] as int) + (MDS@[38] as int) * (INV_MDS@[23] as int) + (MDS@[39] as int) * (INV_MDS@[32] as int) + (MDS@[40] as int) * (INV_MDS@[41] as int) + (MDS@[41] as int) * (INV_MDS@[50] as int) + (MDS@[42] as int) * (INV_MDS@[59] as int) + (MDS@[43] as int) * (INV_MDS@[68] as int) + (MDS@[44] as int) * (INV_MDS@[77] as int));
    assert(((MDS@[36] as int) * (INV_MDS@[5] as int) + (MDS@[37] as int) * (INV_MDS@[14] as int) + (MDS@[38] as int) * (INV_MDS@[23] as int) + (MDS@[39] as int) * (INV_MDS@[32] as int) + (MDS@[40] as int) * (INV_MDS@[41] as int) + (MDS@[41] as int) * (INV_MDS@[50] as int) + (MDS@[42] as int) * (INV_MDS@[59] as int) + (MDS@[43] as int) * (INV_MDS@[68] as int) + (MDS@[44] as int) * (INV_MDS@[77] as int)) % 340282366920938463463374557953744961537 == 0) by (nonlinear_arith)
        requires
            MDS@[36] == 493448532595061060714075927170623, MDS@[37] == 340281626860025222258639632111371827735, MDS@[38] == 277396989820105406282268067810980, MDS@[39] == 340282334957138432026603756253961717317, MDS@[40] == 1193750249204165634400502061594, MDS@[41] == 340282366906321119535778575950744594740, MDS@[42] == 58023022992049963173346020, MDS@[43] == 340282366920938392617192638478820451957, MDS@[44] == 21658948312410865183, INV_MDS@[5] == 75192627449100971018093805348251269149, INV_MDS@[14] == 250642028598419737645395164192907767034, INV_MDS@[23] == 162307162630682801506851542241168907512, INV_MDS@[32] == 222109338954160942132440798066799260073, INV_MDS@[41] == 40863127682090904559911953136810632891, INV_MDS@[50] == 119775195884931758842035438232130131140, INV_MDS@[59] == 329939868120376749051950735773432225615, INV_MDS@[68] == 20045034666478649987681661989026523732, INV_MDS@[77] == 104791328630945774391628390734939042132,
    ;
    assert(product_entry(MDS@, INV_MDS@, 9, 4, 6) == (MDS@[36] as int) * (INV_MDS@[6] as int) + (MDS@[37] as int) * (INV_MDS@[15] as int) + (MDS@[38] as int) * (INV_MDS@[24] as int) + (MDS@[39] as int) * (INV_MDS@[33] as int) + (MDS@[40] as int) * (INV_MDS@[42] as int) + (MDS@[41] as int) * (INV_MDS@[51] as int) + (MDS@[42] as int) * (INV_MDS@[60] as int) + (MDS@[43] as int) * (INV_MDS@[69] as int) + (MDS@[44] as int) * (INV_MDS@[78] as int));
    assert(((MDS@[36] as int) * (INV_MDS@[6] as int) + (MDS@[37] as int) * (INV_MDS@[15] as int) + (MDS@[38] as int) * (INV_MDS@[24] as int) + (MDS@[39] as int) * (INV_MDS@[33] as int) + (MDS@[40] as int) * (INV_MDS@[42] as int) + (MDS@[41] as int) * (INV_MDS@[51] as int) + (MDS@[42] as int) * (INV_MDS@[60] as int) + (MDS@[43] as int) * (INV_MDS@[69] as int) + (MDS@[44] as int) * (INV_MDS@[78] as int)) % 340282366920938463463374557953744961537 == 0) by (nonlinear_arith)
        requires
            MDS@[36] == 493448532595061060714075927170623, MDS@[37] == 340281626860025222258639632111371827735, MDS@[38] == 277396989820105406282268067810980, MDS@[39] == 340282334957138432026603756253961717317, MDS@[40] == 1193750249204165634400502061594, MDS@[41] == 340282366906321119535778575950744594740, MDS@[42] == 58023022992049963173346020, MDS@[43] == 340282366920938392617192638478820451957, MDS@[44] == 21658948312410865183, INV_MDS@[6] == 304723430247806995709152718418888185473, INV_MDS@[15] == 326756605713292613148743956415561946579, INV_MDS@[24] == 52675509994437226630257244779552696631, INV_MDS@[33] == 258338197395874177917585304146894183425, INV_MDS@[42] == 147156319027505131468688770623137082831, INV_MDS@[51] == 110335483825478749319799953283019030264, INV_MDS@[60] == 23499294867058318465853361897065892690, INV_MDS@[69] == 282120995912747862095020676645287935430, INV_MDS@[78] == 292925681130628074351389456735241751204,
    ;
    assert(product_entry(MDS@, INV_MDS@, 9, 4, 7) == (MDS@[36] as int) * (INV_MDS@[7] as int) + (MDS@[37] as int) * (INV_MDS@[16] as int) + (MDS@[38] as int) * (INV_MDS@[25] as int) + (MDS@[39] as int) * (INV_MDS@[34] as int) + (MDS@[40] as int) * (INV_MDS@[43] as int) + (MDS@[41] as int) * (INV_MDS@[52] as int) + (MDS@[42] as int) * (INV_MDS@[61] as int) + (MDS@[43] as int) * (INV_MDS@[70] as int) + (MDS@[44] as int) * (INV_MDS@[79] as int));
    assert(((MDS@[36] as int) * (INV_MDS@[7] as int) + (MDS@[37] as int) * (INV_MDS@[16] as int) + (MDS@[38] as int) * (INV_MDS@[25] as int) + (MDS@[39] as int) * (INV_MDS@[34] as int) + (MDS@[40] as int) * (INV_MDS@[43] as int) + (MDS@[41] as int) * (INV_MDS@[52] as int) + (MDS@[42] as int) * (INV_MDS@[61] as int) + (MDS@[43] as int) * (INV_MDS@[70] as int) + (MDS@[44] as int) * (INV_MDS@[79] as int)) % 340282366920938463463374557953744961537 == 0) by (nonlinear_arith)
        requires
            MDS@[36] == 493448532595061060714075927170623, MDS@[37] == 340281626860025222258639632111371827735, MDS@[38] == 277396989820105406282268067810980, MDS@[39] == 340282334957138432026603756253961717317, MDS@[40] == 1193750249204165634400502061594, MDS@[41] == 340282366906321119535778575950744594740, MDS@[42] == 58023022992049963173346020, MDS@[43] == 340282366920938392617192638478820451957, MDS@[44] == 21658948312410865183, INV_MDS@[7] == 247138038315326480697662666345484012828, INV_MDS@[16] == 64564033929793286393378167005124959170, INV_MDS@[25] == 335285735573611416179235296489092358465, INV_MDS@[34] == 338175469353412666797355362713810876851, INV_MDS@[43] == 5465313383088119386627759574466685670, INV_MDS@[52] == 93758101272597109289270377026652209913, INV_MDS@[61] == 278372710189966668032426818312990960568, INV_MDS@[70] == 122980149585923452096449943205160728029, INV_MDS@[79] == 37505641512749851214506703376700564141,
    ;
    assert(product_entry(MDS@, INV_MDS@, 9, 4, 8) == (MDS@[36] as int) * (INV_MDS@[8] as int) + (MDS@[37] as int) * (INV_MDS@[17] as int) + (MDS@[38] as int) * (INV_MDS@[26] as int) + (MDS@[39] as int) * (INV_MDS@[35] as int) + (MDS@[40] as int) * (INV_MDS@[44] as int) + (MDS@[41] as int) * (INV_MDS@[53] as int) + (MDS@[42] as int) * (INV_MDS@[62] as int) + (MDS@[43] as int) * (INV_MDS@[71] as int) + (MDS@[44] as int) * (INV_MDS@[80] as int));
    assert(((MDS@[36] as int) * (INV_MDS@[8] as int) + (MDS@[37] as int) * (INV_MDS@[17] as int) + (MDS@[38] as int) * (INV_MDS@[26] as int) + (MDS@[39] as int) * (INV_MDS@[35] as int) + (MDS@[40] as int) * (INV_MDS@[44] as int) + (MDS@[41] as int) * (INV_MDS@[53] as int) + (MDS@[42] as int) * (INV_MDS@[62] as int) + (MDS@[43] as int) * (INV_MDS@[71] as int) + (MDS@[44] as int) * (INV_MDS@[80] as int)) % 340282366920938463463374557953744961537 == 0) by (nonlinear_arith)
        requires
            MDS@[36] == 493448532595061060714075927170623, MDS@[37] == 340281626860025222258639632111371827735, MDS@[38] == 277396989820105406282268067810980, MDS@[39] == 340282334957138432026603756253961717317, MDS@[40] == 1193750249204165634400502061594, MDS@[41] == 340282366906321119535778575950744594740, MDS@[42] == 58023022992049963173346020, MDS@[43] == 340282366920938392617192638478820451957, MDS@[44] == 21658948312410865183, INV_MDS@[8] == 302366037761801343159474246624292948256, INV_MDS@[17] == 62016928595481525873214390512699159059, INV_MDS@[26] == 246874452820824414865612791412833222948, INV_MDS@[35] == 210676129806048980180371800441814015553, INV_MDS@[44] == 261507241403368739495061898437487288983, INV_MDS@[53] == 282969307798192780252363036667478424579, INV_MDS@[62] == 264107629248301051999906486186808234581, INV_MDS@[71] == 284833600592635465857283731988811252583, INV_MDS@[80] == 264587253941419405809422580099449217063,
    ;
}

proof fn lemma_product_forward_row_5()
    ensures
        identity_row(Elem::modulus(), MDS@, INV_MDS@, 9, 5, 9),
{
    reveal_with_fuel(sum, 10);
    reveal_with_fuel(identity_row, 10);
    assert(product_entry(MDS@, INV_MDS@, 9, 5, 0) == (MDS@[45] as int) * (INV_MDS@[0] as int) + (MDS@[46] as int) * (INV_MDS@[9] as int) + (MDS@[47] as int) * (INV_MDS@[18] as int) + (MDS@[48] as int) * (INV_MDS@[27] as int) + (MDS@[49] as int) * (INV_MDS@[36] as int) + (MDS@[50] as int) * (INV_MDS@[45] as int) + (MDS@[51] as int) * (INV_MDS@[54] as int) + (MDS@[52] as int) * (INV_MDS@[63] as int) + (MDS@[53] as int) * (INV_MDS@[72] as int));
    assert(((MDS@[45] as int) * (INV_MDS@[0] as int) + (MDS@[46] as int) * (INV_MDS@[9] as int) + (MDS@[47] as int) * (INV_MDS@[18] as int) + (MDS@[48] as int) * (INV_MDS@[27] as int) + (MDS@[49] as int) * (INV_MDS@[36] as int) + (MDS@[50] as int) * (INV_MDS@[45] as int) + (MDS@[51] as int) * (INV_MDS@[54] as int) + (MDS@[52] as int) * (INV_MDS@[63] as int) + (MDS@[53] as int) * (INV_MDS@[72] as int)) % 340282366920938463463374557953744961537 == 0) by (nonlinear_arith)
        requires
            MDS@[45] == 3250891947867863390247053555200504143, MDS@[46] == 335406770191301931314646938843156637377, MDS@[47] == 1827515058473445723489323454811459578, MDS@[48] == 340071788261635189888022255808831580097, MDS@[49] == 7864291806006227817276975764611134, MDS@[50] == 340282270630051601091434166691585938497, MDS@[51] == 382145525879388576506005172823, MDS@[52] == 340282366920472148038924217019224186177, MDS@[53] == 142299528422960399756323, INV_MDS@[0] == 207704205238170807874062389651402246184, INV_MDS@[9] == 127826805904477456371474222478224881465, INV_MDS@[18] == 248581119490725734937433971221259595049, INV_MDS@[27] == 283673471255946562146645390311833638442, INV_MDS@[36] == 220783014807171136331164688074748627144, INV_MDS@[45] == 47112215418871085025936967894656035967, INV_MDS@[54] == 52011660187227698998307018524445124622, INV_MDS@[63] == 302228698991084466216875753830938701241, INV_MDS@[72] == 243710843188765407683950167325811244364,
    ;
    assert(product_entry(MDS@, INV_MDS@, 9, 5, 1) == (MDS@[45] as int) * (INV_MDS@[1] as int) + (MDS@[46] as int) * (INV_MDS@[10] as int) + (MDS@[47] as int) * (INV_MDS@[19] as int) + (MDS@[48] as int) * (INV_MDS@[28] as int) + (MDS@[49] as int) * (INV_MDS@[37] as int) + (MDS@[50] as int) * (INV_MDS@[46] as int) + (MDS@[51] as int) * (INV_MDS@[55] as int) + (MDS@[52] as int) * (INV_MDS@[64] as int) + (MDS@[53] as int) * (INV_MDS@[73] as int));
    assert(((MDS@[45] as int) * (INV_MDS@[1] as int) + (MDS@[46] as int) * (INV_MDS@[10] as int) + (MDS@[47] as int) * (INV_MDS@[19] as int) + (MDS@[48] as int) * (INV_MDS@[28] as int) + (MDS@[49] as int) * (INV_MDS@[37] as int) + (MDS@[50] as int) * (INV_MDS@[46] as int) + (MDS@[51] as int) * (INV_MDS@[55] as int) + (MDS@[52] as int) * (INV_MDS@[64] as int) + (MDS@[53] as int) * (INV_MDS@[73] as int)) % 340282366920938463463374557953744961537 == 0) by (nonlinear_arith)
        requires
            MDS@[45] == 3250891947867863390247053555200504143, MDS@[46] == 335406770191301931314646938843156637377, MDS@[47] == 1827515058473445723489323454811459578, MDS@[48] == 340071788261635189888022255808831580097, MDS@[49] == 7864291806006227817276975764611134, MDS@[50] == 340282270630051601091434166691585938497, MDS@[51] == 382145525879388576506005172823, MDS@[52] == 340282366920472148038924217019224186177, MDS@[53] == 142299528422960399756323, INV_MDS@[1] == 338985877705667148435373284629855945642, INV_MDS@[10] == 58658143825271814927663889085592315510, INV_MDS@[19] == 205001520256672409877405228205435574405, INV_MDS@[28] == 209223032476035404560919156087419693012, INV_MDS@[37] == 309965259718335944489975028792798283342, INV_MDS@[46] == 257010822502178578101896171521076674054, INV_MDS@[55] == 191078345965907944922431974561774457545, INV_MDS@[64] == 280345530278773498915828360047963227132, INV_MDS@[73] == 164728799513981287864597798438362590906,
    ;
    assert(product_entry(MDS@, INV_MDS@, 9, 5, 2) == (MDS@[45] as int) * (INV_MDS@[2] as int) + (MDS@[46] as int) * (INV_MDS@[11] as int) + (MDS@[47] as int) * (INV_MDS@[20] as int) + (MDS@[48] as int) * (INV_MDS@[29] as int) + (MDS@[49] as int) * (INV_MDS@[38] as int) + (MDS@[50] as int) * (INV_MDS@[47] as int) + (MDS@[51] as int) * (INV_MDS@[56] as int) + (MDS@[52] as int) * (INV_MDS@[65] as int) + (MDS@[53] as int) * (INV_MDS@[74] as int));
    assert(((MDS@[45] as int) * (INV_MDS@[2] as int) + (MDS@[46] as int) * (INV_MDS@[11] as int) + (MDS@[47] as int) * (INV_MDS@[20] as int) + (MDS@[48] as int) * (INV_MDS@[29] as int) + (MDS@[49] as int) * (INV_MDS@[38] as int) + (MDS@[50] as int) * (INV_MDS@[47] as int) + (MDS@[51] as int) * (INV_MDS@[56] as int) + (MDS@[52] as int) * (INV_MDS@[65] as int) + (MDS@[53] as int) * (INV_MDS@[74] as int)) % 340282366920938463463374557953744961537 == 0) by (nonlinear_arith)
        requires
            MDS@[45] == 3250891947867863390247053555200504143, MDS@[46] == 335406770191301931314646938843156637377, MDS@[47] == 1827515058473445723489323454811459578, MDS@[48] == 340071788261635189888022255808831580097, MDS@[49] == 7864291806006227817276975764611134, MDS@[50] == 340282270630051601091434166691585938497, MDS@[51] == 382145525879388576506005172823, MDS@[52] == 340282366920472148038924217019224186177, MDS@[53] == 142299528422960399756323, INV_MDS@[2] == 129028267600780770615661928550545766843, INV_MDS@[11] == 312249633317719663349408437894842488201, INV_MDS@[20] == 200096610221992325040847115543314292955, INV_MDS@[29] == 211512112805934564584850722873108293522, INV_MDS@[38] == 96673590909058413519603421380578045352, INV_MDS@[47] == 20670720855140215404881506561419650370, INV_MDS@[56] == 86336838853676487241056288607338298724, INV_MDS@[65] == 333099072682993183200689623504181423558, INV_MDS@[74] == 203691322335641954496554143160915473208,
    ;
    assert(product_entry(MDS@, INV_MDS@, 9, 5, 3) == (MDS@[45] as int) * (INV_MDS@[3] as int) + (MDS@[46] as int) * (INV_MDS@[12] as int) + (MDS@[47] as int) * (INV_MDS@[21] as int) + (MDS@[48] as int) * (INV_MDS@[30] as int) + (MDS@[49] as int) * (INV_MDS@[39] as int) + (MDS@[50] as int) * (INV_MDS@[48] as int) + (MDS@[51] as int) * (INV_MDS@[57] as int) + (MDS@[52] as int) * (INV_MDS@[66] as int) + (MDS@[53] as int) * (INV_MDS@[75] as int));
    assert(((MDS@[45] as int) * (INV_MDS@[3] as int) + (MDS@[46] as int) * (INV_MDS@[12] as int) + (MDS@[47] as int) * (INV_MDS@[21] as int) + (MDS@[48] as int) * (INV_MDS@[30] as int) + (MDS@[49] as int) * (INV_MDS@[39] as int) + (MDS@[50] as int) * (INV_MDS@[48] as int) + (MDS@[51] as int) * (INV_MDS@[57] as int) + (MDS@[52] as int) * (INV_MDS@[66] as int) + (MDS@[53] as int) * (INV_MDS@[75] as int)) % 340282366920938463463374557953744961537 == 0) by (nonlinear_arith)
        requires
            MDS@[45] == 3250891947867863390247053555200504143, MDS@[46] == 335406770191301931314646938843156637377, MDS@[47] == 1827515058473445723489323454811459578, MDS@[48] == 340071788261635189888022255808831580097, MDS@[49] == 7864291806006227817276975764611134, MDS@[50] == 340282270630051601091434166691585938497, MDS@[51] == 382145525879388576506005172823, MDS@[52] == 340282366920472148038924217019224186177, MDS@[53] == 142299528422960399756323, INV_MDS@[3] == 308035008707470404458798574304191182997, INV_MDS@[12] == 214300933317574560218555665032290192921, INV_MDS@[21] == 15223170475099380041360367767094442338, INV_MDS@[30] == 239776030660594538269138961758799208508, INV_MDS@[39] == 205785556561014960463687902712791399561, INV_MDS@[48] == 275063314552737150020455701571996505359, INV_MDS@[57] == 125093328226800820985177164342949053500, INV_MDS@[66] == 27875343830661393369872307155840999075, INV_MDS@[75] == 207184049598426413618777837396461507381,
    ;
    assert(product_entry(MDS@, INV_MDS@, 9, 5, 4) == (MDS@[45] as int) * (INV_MDS@[4] as int) + (MDS@[46] as int) * (INV_MDS@[13] as int) + (MDS@[47] as int) * (INV_MDS@[22] as int) + (MDS@[48] as int) * (INV_MDS@[31] as int) + (MDS@[49] as int) * (INV_MDS@[40] as int) + (MDS@[50] as int) * (INV_MDS@[49] as int) + (MDS@[51] as int) * (INV_MDS@[58] as int) + (MDS@[52] as int) * (INV_MDS@[67] as int) + (MDS@[53] as int) * (INV_MDS@[76] as int));
    assert(((MDS@[45] as int) * (INV_MDS@[4] as int) + (MDS@[46] as int) * (INV_MDS@[13] as int) + (MDS@[47] as int) * (INV_MDS@[22] as int) + (MDS@[48] as int) * (INV_MDS@[31] as int) + (MDS@[49] as int) * (INV_MDS@[40] as int) + (MDS@[50] as int) * (INV_MDS@[49] as int) + (MDS@[51] as int) * (INV_MDS@[58] as int) + (MDS@[52] as int) * (INV_MDS@[67] as int) + (MDS@[53] as int) * (INV_MDS@[76] as int)) % 340282366920938463463374557953744961537 == 0) by (nonlinear_arith)
        requires
            MDS@[45] == 3250891947867863390247053555200504143, MDS@[46] == 335406770191301931314646938843156637377, MDS@[47] == 1827515058473445723489323454811459578, MDS@[48] == 340071788261635189888022255808831580097, MDS@[49] == 7864291806006227817276975764611134, MDS@[50] == 340282270630051601091434166691585938497, MDS@[51] == 382145525879388576506005172823, MDS@[52] == 340282366920472148038924217019224186177, MDS@[53] == 142299528422960399756323, INV_MDS@[4] == 128520708499505858811967733849558211851, INV_MDS@[13] == 284396721402661659389038897151481097747, INV_MDS@[22] == 235366553140646608237869232108973717383, INV_MDS@[31] == 68210418817622944190939851321990599837, INV_MDS@[40] == 72930044192120504138776809082161800375, INV_MDS@[49] == 154434305573626427596859079056551184503, INV_MDS@[58] == 10689792024438114156388383608175598304, INV_MDS@[67] == 47883408063394345577170731401514016906, INV_MDS@[76] == 182286914752134147886045712500843417287,
    ;
    assert(product_entry(MDS@, INV_MDS@, 9, 5, 5) == (MDS@[45] as int) * (INV_MDS@[5] as int) + (MDS@[46] as int) * (INV_MDS@[14] as int) + (MDS@[47] as int) * (INV_MDS@[23] as int) + (MDS@[48] as int) * (INV_MDS@[32] as int) + (MDS@[49] as int) * (INV_MDS@[41] as int) + (MDS@[50] as int) * (INV_MDS@[50] as int) + (MDS@[51] as int) * (INV_MDS@[59] as int) + (MDS@[52] as int) * (INV_MDS@[68] as int) + (MDS@[53] as int) * (INV_MDS@[77] as int));
    assert(((MDS@[45] as int) * (INV_MDS@[5] as int) + (MDS@[46] as int) * (INV_MDS@[14] as int) + (MDS@[47] as int) * (INV_MDS@[23] as int) + (MDS@[48] as int) * (INV_MDS@[32] as int) + (MDS@[49] as int) * (INV_MDS@[41] as int) + (MDS@[50] as int) * (INV_MDS@[50] as int) + (MDS@[51] as int) * (INV_MDS@[59] as int) + (MDS@[52] as int) * (INV_MDS@[68] as int) + (MDS@[53] as int) * (INV_MDS@[77] as int)) % 340282366920938463463374557953744961537 == 1) by (nonlinear_arith)
        requires
            MDS@[45] == 3250891947867863390247053555200504143, MDS@[46] == 335406770191301931314646938843156637377, MDS@[47] == 1827515058473445723489323454811459578, MDS@[48] == 340071788261635189888022255808831580097, MDS@[49] == 7864291806006227817276975764611134, MDS@[50] == 340282270630051601091434166691585938497, MDS@[51] == 382145525879388576506005172823, MDS@[52] == 340282366920472148038924217019224186177, MDS@[53] == 142299528422960399756323, INV_MDS@[5] == 75192627449100971018093805348251269149, INV_MDS@[14] == 250642028598419737645395164192907767034, INV_MDS@[23] == 162307162630682801506851542241168907512, INV_MDS@[32] == 222109338954160942132440798066799260073, INV_MDS@[41] == 40863127682090904559911953136810632891, INV_MDS@[50] == 119775195884931758842035438232130131140, INV_MDS@[59] == 329939868120376749051950735773432225615, INV_MDS@[68] == 20045034666478649987681661989026523732, INV_MDS@[77] == 104791328630945774391628390734939042132,
    ;
    assert(product_entry(MDS@, INV_MDS@, 9, 5, 6) == (MDS@[45] as int) * (INV_MDS@[6] as int) + (MDS@[46] as int) * (INV_MDS@[15] as int) + (MDS@[47] as int) * (INV_MDS@[24] as int) + (MDS@[48] as int) * (INV_MDS@[33] as int) + (MDS@[49] as int) * (INV_MDS@[42] as int) + (MDS@[50] as int) * (INV_MDS@[51] as int) + (MDS@[51] as int) * (INV_MDS@[60] as int) + (MDS@[52] as int) * (INV_MDS@[69] as int) + (MDS@[53] as int) * (INV_MDS@[78] as int));
    assert(((MDS@[45] as int) * (INV_MDS@[6] as int) + (MDS@[46] as int) * (INV_MDS@[15] as int) + (MDS@[47] as int) * (INV_MDS@[24] as int) + (MDS@[48] as int) * (INV_MDS@[33] as int) + (MDS@[49] as int) * (INV_MDS@[42] as int) + (MDS@[50] as int) * (INV_MDS@[51] as int) + (MDS@[51] as int) * (INV_MDS@[60] as int) + (MDS@[52] as int) * (INV_MDS@[69] as int) + (MDS@[53] as int) * (INV_MDS@[78] as int)) % 340282366920938463463374557953744961537 == 0) by (nonlinear_arith)
        requires
            MDS@[45] == 3250891947867863390247053555200504143, MDS@[46] == 335406770191301931314646938843156637377, MDS@[47] == 1827515058473445723489323454811459578, MDS@[48] == 340071788261635189888022255808831580097, MDS@[49] == 7864291806006227817276975764611134, MDS@[50] == 340282270630051601091434166691585938497, MDS@[51] == 382145525879388576506005172823, MDS@[52] == 340282366920472148038924217019224186177, MDS@[53] == 142299528422960399756323, INV_MDS@[6] == 304723430247806995709152718418888185473, INV_MDS@[15] == 326756605713292613148743956415561946579, INV_MDS@[24] == 52675509994437226630257244779552696631, INV_MDS@[33] == 258338197395874177917585304146894183425, INV_MDS@[42] == 147156319027505131468688770623137082831, INV_MDS@[51] == 110335483825478749319799953283019030264, INV_MDS@[60] == 23499294867058318465853361897065892690, INV_MDS@[69] == 282120995912747862095020676645287935430, INV_MDS@[78] == 292925681130628074351389456735241751204,
    ;
    assert(product_entry(MDS@, INV_MDS@, 9, 5, 7) == (MDS@[45] as int) * (INV_MDS@[7] as int) + (MDS@[46] as int) * (INV_MDS@[16] as int) + (MDS@[47] as int) * (INV_MDS@[25] as int) + (MDS@[48] as int) * (INV_MDS@[34] as int) + (MDS@[49] as int) * (INV_MDS@[43] as int) + (MDS@[50] as int) * (INV_MDS@[52] as int) + (MDS@[51] as int) * (INV_MDS@[61] as int) + (MDS@[52] as int) * (INV_MDS@[70] as int) + (MDS@[53] as int) * (INV_MDS@[79] as int));
    assert(((MDS@[45] as int) * (INV_MDS@[7] as int) + (MDS@[46] as int) * (INV_MDS@[16] as int) + (MDS@[47] as int) * (INV_MDS@[25] as int) + (MDS@[48] as int) * (INV_MDS@[34] as int) + (MDS@[49] as int) * (INV_MDS@[43] as int) + (MDS@[50] as int) * (INV_MDS@[52] as int) + (MDS@[51] as int) * (INV_MDS@[61] as int) + (MDS@[52] as int) * (INV_MDS@[70] as int) + (MDS@[53] as int) * (INV_MDS@[79] as int)) % 340282366920938463463374557953744961537 == 0) by (nonlinear_arith)
        requires
            MDS@[45] == 3250891947867863390247053555200504143, MDS@[46] == 335406770191301931314646938843156637377, MDS@[47] == 1827515058473445723489323454811459578, MDS@[48] == 340071788261635189888022255808831580097, MDS@[49] == 7864291806006227817276975764611134, MDS@[50] == 340282270630051601091434166691585938497, MDS@[51] == 382145525879388576506005172823, MDS@[52] == 340282366920472148038924217019224186177, MDS@[53] == 142299528422960399756323, INV_MDS@[7] == 247138038315326480697662666345484012828, INV_MDS@[16] == 64564033929793286393378167005124959170, INV_MDS@[25] == 335285735573611416179235296489092358465, INV_MDS@[34] == 338175469353412666797355362713810876851, INV_MDS@[43] == 5465313383088119386627759574466685670, INV_MDS@[52] == 93758101272597109289270377026652209913, INV_MDS@[61] == 278372710189966668032426818312990960568, INV_MDS@[70] == 122980149585923452096449943205160728029, INV_MDS@[79] == 37505641512749851214506703376700564141,
    ;
    assert(product_entry(MDS@, INV_MDS@, 9, 5, 8) == (MDS@[45] as int) * (INV_MDS@[8] as int) + (MDS@[46] as int) * (INV_MDS@[17] as int) + (MDS@[47] as int) * (INV_MDS@[26] as int) + (MDS@[48] as int) * (INV_MDS@[35] as int) + (MDS@[49] as int) * (INV_MDS@[44] as int) + (MDS@[50] as int) * (INV_MDS@[53] as int) + (MDS@[51] as int) * (INV_MDS@[62] as int) + (MDS@[52] as int) * (INV_MDS@[71] as int) + (MDS@[53] as int) * (INV_MDS@[80] as int));
    assert(((MDS@[45] as int) * (INV_MDS@[8] as int) + (MDS@[46] as int) * (INV_MDS@[17] as int) + (MDS@[47] as int) * (INV_MDS@[26] as int) + (MDS@[48] as int) * (INV_MDS@[35] as int) + (MDS@[49] as int) * (INV_MDS@[44] as int) + (MDS@[50] as int) * (INV_MDS@[53] as int) + (MDS@[51] as int) * (INV_MDS@[62] as int) + (MDS@[52] as int) * (INV_MDS@[71] as int) + (MDS@[53] as int) * (INV_MDS@[80] as int)) % 340282366920938463463374557953744961537 == 0) by (nonlinear_arith)
        requires
            MDS@[45] == 3250891947867863390247053555200504143, MDS@[46] == 335406770191301931314646938843156637377, MDS@[47] == 1827515058473445723489323454811459578, MDS@[48] == 340071788261635189888022255808831580097, MDS@[49] == 7864291806006227817276975764611134, MDS@[50] == 340282270630051601091434166691585938497, MDS@[51] == 382145525879388576506005172823, MDS@[52] == 340282366920472148038924217019224186177, MDS@[53] == 142299528422960399756323, INV_MDS@[8] == 302366037761801343159474246624292948256, INV_MDS@[17] == 62016928595481525873214390512699159059, INV_MDS@[26] == 246874452820824414865612791412833222948, INV_MDS@[35] == 210676129806048980180371800441814015553, INV_MDS@[44] == 261507241403368739495061898437487288983, INV_MDS@[53] == 282969307798192780252363036667478424579, INV_MDS@[62] == 264107629248301051999906486186808234581, INV_MDS@[71] == 284833600592635465857283731988811252583, INV_MDS@[80] == 264587253941419405809422580099449217063,
    ;
}

proof fn lemma_product_forward_row_6()
    ensures
        identity_row(Elem::modulus(), MDS@, INV_MDS@, 9, 6, 9),
{
    reveal_with_fuel(sum, 10);
    reveal_with_fuel(identity_row, 10);
    assert(product_entry(MDS@, INV_MDS@, 9, 6, 0) == (MDS@[54] as int) * (INV_MDS@[0] as int) + (MDS@[55] as int) * (INV_MDS@[9] as int) + (MDS@[56] as int) * (INV_MDS@[18] as int) + (MDS@[57] as int) * (INV_MDS@[27] as int) + (MDS@[58] as int) * (INV_MDS@[36] as int) + (MDS@[59] as int) * (INV_MDS@[45] as int) + (MDS@[60] as int) * (INV_MDS@[54] as int) + (MDS@[61] as int) * (INV_MDS@[63] as int) + (MDS@[62] as int) * (INV_MDS@[72] as int));
    assert(((MDS@[54] as int) * (INV_MDS@[0] as int) + (MDS@[55] as int) * (INV_MDS@[9] as int) + (MDS@[56] as int) * (INV_MDS@[18] as int) + (MDS@[57] as int) * (INV_MDS@[27] as int) + (MDS@[58] as int) * (INV_MDS@[36] as int) + (MDS@[59] as int) * (INV_MDS@[45] as int) + (MDS@[60] as int) * (INV_MDS@[54] as int) + (MDS@[61] as int) * (INV_MDS@[63] as int) + (MDS@[62] as int) * (INV_MDS@[72] as int)) % 340282366920938463463374557953744961537 == 0) by (nonlinear_arith)
        requires
            MDS@[54] == 260889072481016946483921979409357576789, MDS@[55] == 294109695457304815011263569543330296235, MDS@[56] == 96897786123648020966790891596799875825, MDS@[57] == 317912742718020576130300337690805571243, MDS@[58] == 51667907444403809555847542124007809234, MDS@[59] == 339649756075661666195744923271868570317, MDS@[60] == 2510445527801052949502558181396180, MDS@[61] == 340282363858174627685294031214892512580, MDS@[62] == 934054234760012359481199283, INV_MDS@[0] == 207704205238170807874062389651402246184, INV_MDS@[9] == 127826805904477456371474222478224881465, INV_MDS@[18] == 248581119490725734937433971221259595049, INV_MDS@[27] == 283673471255946562146645390311833638442, INV_MDS@[36] == 220783014807171136331164688074748627144, INV_MDS@[45] == 47112215418871085025936967894656035967, INV_MDS@[54] == 52011660187227698998307018524445124622, INV_MDS@[63] == 302228698991084466216875753830938701241, INV_MDS@[72] == 243710843188765407683950167325811244364,
    ;
    assert(product_entry(MDS@, INV_MDS@, 9, 6, 1) == (MDS@[54] as int) * (INV_MDS@[1] as int) + (MDS@[55] as int) * (INV_MDS@[10] as int) + (MDS@[56] as int) * (INV_MDS@[19] as int) + (MDS@[57] as int) * (INV_MDS@[28] as int) + (MDS@[58] as int) * (INV_MDS@[37] as int) + (MDS@[59] as int) * (INV_MDS@[46] as int) + (MDS@[60] as int) * (INV_MDS@[55] as int) + (MDS@[61] as int) * (INV_MDS@[64] as int) + (MDS@[62] as int) * (INV_MDS@[73] as int));
    assert(((MDS@[54] as int) * (INV_MDS@[1] as int) + (MDS@[55] as int) * (INV_MDS@[10] as int) + (MDS@[56] as int) * (INV_MDS@[19] as int) + (MDS@[57] as int) * (INV_MDS@[28] as int) + (MDS@[58] as int) * (INV_MDS@[37] as int) + (MDS@[59] as int) * (INV_MDS@[46] as int) + (MDS@[60] as int) * (INV_MDS@[55] as int) + (MDS@[61] as int) * (INV_MDS@[64] as int) + (MDS@[62] as int) * (INV_MDS@[73] as int)) % 340282366920938463463374557953744961537 == 0) by (nonlinear_arith)
        requires
            MDS@[54] == 260889072481016946483921979409357576789, MDS@[55] == 294109695457304815011263569543330296235, MDS@[56] == 96897786123648020966790891596799875825, MDS@[57] == 317912742718020576130300337690805571243, MDS@[58] == 51667907444403809555847542124007809234, MDS@[59] == 339649756075661666195744923271868570317, MDS@[60] == 2510445527801052949502558181396180, MDS@[61] == 340282363858174627685294031214892512580, MDS@[62] == 934054234760012359481199283, INV_MDS@[1] == 338985877705667148435373284629855945642, INV_MDS@[10] == 58658143825271814927663889085592315510, INV_MDS@[19] == 205001520256672409877405228205435574405, INV_MDS@[28] == 209223032476035404560919156087419693012, INV_MDS@[37] == 309965259718335944489975028792798283342, INV_MDS@[46] == 257010822502178578101896171521076674054, INV_MDS@[55] == 191078345965907944922431974561774457545, INV_MDS@[64] == 280345530278773498915828360047963227132, INV_MDS@[73] == 164728799513981287864597798438362590906,
    ;
    assert(product_entry(MDS@, INV_MDS@, 9, 6, 2) == (MDS@[54] as int) * (INV_MDS@[2] as int) + (MDS@[55] as int) * (INV_MDS@[11] as int) + (MDS@[56] as int) * (INV_MDS@[20] as int) + (MDS@[57] as int) * (INV_MDS@[29] as int) + (MDS@[58] as int) * (INV_MDS@[38] as int) + (MDS@[59] as int) * (INV_MDS@[47] as int) + (MDS@[60] as int) * (INV_MDS@[56] as int) + (MDS@[61] as int) * (INV_MDS@[65] as int) + (MDS@[62] as int) * (INV_MDS@[74] as int));
    assert(((MDS@[54] as int) * (INV_MDS@[2] as int) + (MDS@[55] as int) * (INV_MDS@[11] as int) + (MDS@[56] as int) * (INV_MDS@[20] as int) + (MDS@[57] as int) * (INV_MDS@[29] as int) + (MDS@[58] as int) * (INV_MDS@[38] as int) + (MDS@[59] as int) * (INV_MDS@[47] as int) + (MDS@[60] as int) * (INV_MDS@[56] as int) + (MDS@[61] as int) * (INV_MDS@[65] as int) + (MDS@[62] as int) * (INV_MDS@[74] as int)) % 340282366920938463463374557953744961537 == 0) by (nonlinear_arith)
        requires
            MDS@[54] == 260889072481016946483921979409357576789, MDS@[55] == 294109695457304815011263569543330296235, MDS@[56] == 96897786123648020966790891596799875825, MDS@[57] == 317912742718020576130300337690805571243, MDS@[58] == 51667907444403809555847542124007809234, MDS@[59] == 339649756075661666195744923271868570317, MDS@[60] == 2510445527801052949502558181396180, MDS@[61] == 340282363858174627685294031214892512580, MDS@[62] == 934054234760012359481199283, INV_MDS@[2] == 129028267600780770615661928550545766843, INV_MDS@[11] == 312249633317719663349408437894842488201, INV_MDS@[20] == 200096610221992325040847115543314292955, INV_MDS@[29] == 211512112805934564584850722873108293522, INV_MDS@[38] == 96673590909058413519603421380578045352, INV_MDS@[47] == 20670720855140215404881506561419650370, INV_MDS@[56] == 86336838853676487241056288607338298724, INV_MDS@[65] == 333099072682993183200689623504181423558, INV_MDS@[74] == 203691322335641954496554143160915473208,
    ;
    assert(product_entry(MDS@, INV_MDS@, 9, 6, 3) == (MDS@[54] as int) * (INV_MDS@[3] as int) + (MDS@[55] as int) * (INV_MDS@[12] as int) + (MDS@[56] as int) * (INV_MDS@[21] as int) + (MDS@[57] as int) * (INV_MDS@[30] as int) + (MDS@[58] as int) * (INV_MDS@[39] as int) + (MDS@[59] as int) * (INV_MDS@[48] as int) + (MDS@[60] as int) * (INV_MDS@[57] as int) + (MDS@[61] as int) * (INV_MDS@[66] as int) + (MDS@[62] as int) * (INV_MDS@[75] as int));
    assert(((MDS@[54] as int) * (INV_MDS@[3] as int) + (MDS@[55] as int) * (INV_MDS@[12] as int) + (MDS@[56] as int) * (INV_MDS@[21] as int) + (MDS@[57] as int) * (INV_MDS@[30] as int) + (MDS@[58] as int) * (INV_MDS@[39] as int) + (MDS@[59] as int) * (INV_MDS@[48] as int) + (MDS@[60] as int) * (INV_MDS@[57] as int) + (MDS@[61] as int) * (INV_MDS@[66] as int) + (MDS@[62] as int) * (INV_MDS@[75] as int)) % 340282366920938463463374557953744961537 == 0) by (nonlinear_arith)
        requires
            MDS@[54] == 260889072481016946483921979409357576789, MDS@[55] == 294109695457304815011263569543330296235, MDS@[56] == 96897786123648020966790891596799875825, MDS@[57] == 317912742718020576130300337690805571243, MDS@[58] == 51667907444403809555847542124007809234, MDS@[59] == 339649756075661666195744923271868570317, MDS@[60] == 2510445527801052949502558181396180, MDS@[61] == 340282363858174627685294031214892512580, MDS@[62] == 934054234760012359481199283, INV_MDS@[3] == 308035008707470404458798574304191182997, INV_MDS@[12] == 214300933317574560218555665032290192921, INV_MDS@[21] == 15223170475099380041360367767094442338, INV_MDS@[30] == 239776030660594538269138961758799208508, INV_MDS@[39] == 205785556561014960463687902712791399561, INV_MDS@[48] == 275063314552737150020455701571996505359, INV_MDS@[57] == 125093328226800820985177164342949053500, INV_MDS@[66] == 27875343830661393369872307155840999075, INV_MDS@[75] == 207184049598426413618777837396461507381,
    ;
    assert(product_entry(MDS@, INV_MDS@, 9, 6, 4) == (MDS@[54] as int) * (INV_MDS@[4] as int) + (MDS@[55] as int) * (INV_MDS@[13] as int) + (MDS@[56] as int) * (INV_MDS@[22] as int) + (MDS@[57] as int) * (INV_MDS@[31] as int) + (MDS@[58] as int) * (INV_MDS@[40] as int) + (MDS@[59] as int) * (INV_MDS@[49] as int) + (MDS@[60] as int) * (INV_MDS@[58] as int) + (MDS@[61] as int) * (INV_MDS@[67] as int) + (MDS@[62] as int) * (INV_MDS@[76] as int));
    assert(((MDS@[54] as int) * (INV_MDS@[4] as int) + (MDS@[55] as int) * (INV_MDS@[13] as int) + (MDS@[56] as int) * (INV_MDS@[22] as int) + (MDS@[57] as int) * (INV_MDS@[31] as int) + (MDS@[58] as int) * (INV_MDS@[40] as int) + (MDS@[59] as int) * (INV_MDS@[49] as int) + (MDS@[60] as int) * (INV_MDS@[58] as int) + (MDS@[61] as int) * (INV_MDS@[67] as int) + (MDS@[62] as int) * (INV_MDS@[76] as int)) % 340282366920938463463374557953744961537 == 0) by (nonlinear_arith)
        requires
            MDS@[54] == 260889072481016946483921979409357576789, MDS@[55] == 294109695457304815011263569543330296235, MDS@[56] == 96897786123648020966790891596799875825, MDS@[57] == 317912742718020576130300337690805571243, MDS@[58] == 51667907444403809555847542124007809234, MDS@[59] == 339649756075661666195744923271868570317, MDS@[60] == 2510445527801052949502558181396180, MDS@[61] == 340282363858174627685294031214892512580, MDS@[62] == 934054234760012359481199283, INV_MDS@[4] == 128520708499505858811967733849558211851, INV_MDS@[13] == 284396721402661659389038897151481097747, INV_MDS@[22] == 235366553140646608237869232108973717383, INV_MDS@[31] == 68210418817622944190939851321990599837, INV_MDS@[40] == 72930044192120504138776809082161800375, INV_MDS@[49] == 154434305573626427596859079056551184503, INV_MDS@[58] == 10689792024438114156388383608175598304, INV_MDS@[67] == 47883408063394345577170731401514016906, INV_MDS@[76] == 182286914752134147886045712500843417287,
    ;
    assert(product_entry(MDS@, INV_MDS@, 9, 6, 5) == (MDS@[54] as int) * (INV_MDS@[5] as int) + (MDS@[55] as int) * (INV_MDS@[14] as int) + (MDS@[56] as int) * (INV_MDS@[23] as int) + (MDS@[57] as int) * (INV_MDS@[32] as int) + (MDS@[58] as int) * (INV_MDS@[41] as int) + (MDS@[59] as int) * (INV_MDS@[50] as int) + (MDS@[60] as int) * (INV_MDS@[59] as int) + (MDS@[61] as int) * (INV_MDS@[68] as int) + (MDS@[62] as int) * (INV_MDS@[77] as int));
    assert(((MDS@[54] as int) * (INV_MDS@[5] as int) + (MDS@[55] as int) * (INV_MDS@[14] as int) + (MDS@[56] as int) * (INV_MDS@[23] as int) + (MDS@[57] as int) * (INV_MDS@[32] as int) + (MDS@[58] as int) * (INV_MDS@[41] as int) + (MDS@[59] as int) * (INV_MDS@[50] as int) + (MDS@[60] as int) * (INV_MDS@[59] as int) + (MDS@[61] as int) * (INV_MDS@[68] as int) + (MDS@[62] as int) * (INV_MDS@[77] as int)) % 340282366920938463463374557953744961537 == 0) by (nonlinear_arith)
        requires
            MDS@[54] == 260889072481016946483921979409357576789, MDS@[55] == 294109695457304815011263569543330296235, MDS@[56] == 96897786123648020966790891596799875825, MDS@[57] == 317912742718020576130300337690805571243, MDS@[58] == 51667907444403809555847542124007809234, MDS@[59] == 339649756075661666195744923271868570317, MDS@[60] == 2510445527801052949502558181396180, MDS@[61] == 340282363858174627685294031214892512580, MDS@[62] == 934054234760012359481199283, INV_MDS@[5] == 75192627449100971018093805348251269149, INV_MDS@[14] == 250642028598419737645395164192907767034, INV_MDS@[23] == 162307162630682801506851542241168907512, INV_MDS@[32] == 222109338954160942132440798066799260073, INV_MDS@[41] == 40863127682090904559911953136810632891, INV_MDS@[50] == 119775195884931758842035438232130131140, INV_MDS@[59] == 329939868120376749051950735773432225615, INV_MDS@[68] == 20045034666478649987681661989026523732, INV_MDS@[77] == 104791328630945774391628390734939042132,
    ;
    assert(product_entry(MDS@, INV_MDS@, 9, 6, 6) == (MDS@[54] as int) * (INV_MDS@[6] as int) + (MDS@[55] as int) * (INV_MDS@[15] as int) + (MDS@[56] as int) * (INV_MDS@[24] as int) + (MDS@[57] as int) * (INV_MDS@[33] as int) + (MDS@[58] as int) * (INV_MDS@[42] as int) + (MDS@[59] as int) * (INV_MDS@[51] as int) + (MDS@[60] as int) * (INV_MDS@[60] as int) + (MDS@[61] as int) * (INV_MDS@[69] as int) + (MDS@[62] as int) * (INV_MDS@[78] as int));
    assert(((MDS@[54] as int) * (INV_MDS@[6] as int) + (MDS@[55] as int) * (INV_MDS@[15] as int) + (MDS@[56] as int) * (INV_MDS@[24] as int) + (MDS@[57] as int) * (INV_MDS@[33] as int) + (MDS@[58] as int) * (INV_MDS@[42] as int) + (MDS@[59] as int) * (INV_MDS@[51] as int) + (MDS@[60] as int) * (INV_MDS@[60] as int) + (MDS@[61] as int) * (INV_MDS@[69] as int) + (MDS@[62] as int) * (INV_MDS@[78] as int)) % 340282366920938463463374557953744961537 == 1) by (nonlinear_arith)
        requires
            MDS@[54] == 260889072481016946483921979409357576789, MDS@[55] == 294109695457304815011263569543330296235, MDS@[56] == 96897786123648020966790891596799875825, MDS@[57] == 317912742718020576130300337690805571243, MDS@[58] == 51667907444403809555847542124007809234, MDS@[59] == 339649756075661666195744923271868570317, MDS@[60] == 2510445527801052949502558181396180, MDS@[61] == 340282363858174627685294031214892512580, MDS@[62] == 934054234760012359481199283, INV_MDS@[6] == 304723430247806995709152718418888185473, INV_MDS@[15] == 326756605713292613148743956415561946579, INV_MDS@[24] == 52675509994437226630257244779552696631, INV_MDS@[33] == 258338197395874177917585304146894183425, INV_MDS@[42] == 147156319027505131468688770623137082831, INV_MDS@[51] == 110335483825478749319799953283019030264, INV_MDS@[60] == 23499294867058318465853361897065892690, INV_MDS@[69] == 282120995912747862095020676645287935430, INV_MDS@[78] == 292925681130628074351389456735241751204,
    ;
    assert(product_entry(MDS@, INV_MDS@, 9, 6, 7) == (MDS@[54] as int) * (INV_MDS@[7] as int) + (MDS@[55] as int) * (INV_MDS@[16] as int) + (MDS@[56] as int) * (INV_MDS@[25] as int) + (MDS@[57] as int) * (INV_MDS@[34] as int) + (MDS@[58] as int) * (INV_MDS@[43] as int) + (MDS@[59] as int) * (INV_MDS@[52] as int) + (MDS@[60] as int) * (INV_MDS@[61] as int) + (MDS@[61] as int) * (INV_MDS@[70] as int) + (MDS@[62] as int) * (INV_MDS@[79] as int));
    assert(((MDS@[54] as int) * (INV_MDS@[7] as int) + (MDS@[55] as int) * (INV_MDS@[16] as int) + (MDS@[56] as int) * (INV_MDS@[25] as int) + (MDS@[57] as int) * (INV_MDS@[34] as int) + (MDS@[58] as int) * (INV_MDS@[43] as int) + (MDS@[59] as int) * (INV_MDS@[52] as int) + (MDS@[60] as int) * (INV_MDS@[61] as int) + (MDS@[61] as int) * (INV_MDS@[70] as int) + (MDS@[62] as int) * (INV_MDS@[79] as int)) % 340282366920938463463374557953744961537 == 0) by (nonlinear_arith)
        requires
            MDS@[54] == 260889072481016946483921979409357576789, MDS@[55] == 294109695457304815011263569543330296235, MDS@[56] == 96897786123648020966790891596799875825, MDS@[57] == 317912742718020576130300337690805571243, MDS@[58] == 51667907444403809555847542124007809234, MDS@[59] == 339649756075661666195744923271868570317, MDS@[60] == 2510445527801052949502558181396180, MDS@[61] == 340282363858174627685294031214892512580, MDS@[62] == 934054234760012359481199283, INV_MDS@[7] == 247138038315326480697662666345484012828, INV_MDS@[16] == 64564033929793286393378167005124959170, INV_MDS@[25] == 335285735573611416179235296489092358465, INV_MDS@[34] == 338175469353412666797355362713810876851, INV_MDS@[43] == 5465313383088119386627759574466685670, INV_MDS@[52] == 93758101272597109289270377026652209913, INV_MDS@[61] == 278372710189966668032426818312990960568, INV_MDS@[70] == 122980149585923452096449943205160728029, INV_MDS@[79] == 37505641512749851214506703376700564141,
    ;
    assert(product_entry(MDS@, INV_MDS@, 9, 6, 8) == (MDS@[54] as int) * (INV_MDS@[8] as int) + (MDS@[55] as int) * (INV_MDS@[17] as int) + (MDS@[56] as int) * (INV_MDS@[26] as int) + (MDS@[57] as int) * (INV_MDS@[35] as int) + (MDS@[58] as int) * (INV_MDS@[44] as int) + (MDS@[59] as int) * (INV_MDS@[53] as int) + (MDS@[60] as int) * (INV_MDS@[62] as int) + (MDS@[61] as int) * (INV_MDS@[71] as int) + (MDS@[62] as int) * (INV_MDS@[80] as int));
    assert(((MDS@[54] as int) * (INV_MDS@[8] as int) + (MDS@[55] as int) * (INV_MDS@[17] as int) + (MDS@[56] as int) * (INV_MDS@[26] as int) + (MDS@[57] as int) * (INV_MDS@[35] as int) + (MDS@[58] as int) * (INV_MDS@[44] as int) + (MDS@[59] as int) * (INV_MDS@[53] as int) + (MDS@[60] as int) * (INV_MDS@[62] as int) + (MDS@[61] as int) * (INV_MDS@[71] as int) + (MDS@[62] as int) * (INV_MDS@[80] as int)) % 340282366920938463463374557953744961537 == 0) by (nonlinear_arith)
        requires
            MDS@[54] == 260889072481016946483921979409357576789, MDS@[55] == 294109695457304815011263569543330296235, MDS@[56] == 96897786123648020966790891596799875825, MDS@[57] == 317912742718020576130300337690805571243, MDS@[58] == 51667907444403809555847542124007809234, MDS@[59] == 339649756075661666195744923271868570317, MDS@[60] == 2510445527801052949502558181396180, MDS@[61] == 340282363858174627685294031214892512580, MDS@[62] == 934054234760012359481199283, INV_MDS@[8] == 302366037761801343159474246624292948256, INV_MDS@[17] == 62016928595481525873214390512699159059, INV_MDS@[26] == 246874452820824414865612791412833222948, INV_MDS@[35] == 210676129806048980180371800441814015553, INV_MDS@[44] == 261507241403368739495061898437487288983, INV_MDS@[53] == 282969307798192780252363036667478424579, INV_MDS@[62] == 264107629248301051999906486186808234581, INV_MDS@[71] == 284833600592635465857283731988811252583, INV_MDS@[80] == 264587253941419405809422580099449217063,
    ;
}

proof fn lemma_product_forward_row_7()
    ensures
        identity_row(Elem::modulus(), MDS@, INV_MDS@, 9, 7, 9),
{
    reveal_with_fuel(sum, 10);
    reveal_with_fuel(identity_row, 10);
    assert(product_entry(MDS@, INV_MDS@, 9, 7, 0) == (MDS@[63] as int) * (INV_MDS@[0] as int) + (MDS@[64] as int) * (INV_MDS@[9] as int) + (MDS@[65] as int) * (INV_MDS@[18] as int) + (MDS@[66] as int) * (INV_MDS@[27] as int) + (MDS@[67] as int) * (INV_MDS@[36] as int) + (MDS@[68] as int) * (INV_MDS@[45] as int) + (MDS@[69] as int) * (INV_MDS@[54] as int) + (MDS@[70] as int) * (INV_MDS@[63] as int) + (MDS@[71] as int) * (INV_MDS@[72] as int));
    assert(((MDS@[63] as int) * (INV_MDS@[0] as int) + (MDS@[64] as int) * (INV_MDS@[9] as int) + (MDS@[65] as int) * (INV_MDS@[18] as int) + (MDS@[66] as int) * (INV_MDS@[27] as int) + (MDS@[67] as int) * (INV_MDS@[36] as int) + (MDS@[68] as int) * (INV_MDS@[45] as int) + (MDS@[69] as int) * (INV_MDS@[54] as int) + (MDS@[70] as int) * (INV_MDS@[63] as int) + (MDS@[71] as int) * (INV_MDS@[72] as int)) % 340282366920938463463374557953744961537 == 0) by (nonlinear_arith)
        requires
            MDS@[63] == 194542495007434960394582255983923586243, MDS@[64] == 104404390561882821492740793700399886259, MDS@[65] == 31015733125887000676791684053161446567, MDS@[66] == 177473572991922008668894803954934702656, MDS@[67] == 225693703897588175263197025163593303860, MDS@[68] == 271259291625999272530694212816871392781, MDS@[69] == 16478009365511174087881242740613722400, MDS@[70] == 340262264978264552243515110485852110337, MDS@[71] == 6129263888495201102915629695046, INV_MDS@[0] == 207704205238170807874062389651402246184, INV_MDS@[9] == 127826805904477456371474222478224881465, INV_MDS@[18] == 248581119490725734937433971221259595049, INV_MDS@[27] == 283673471255946562146645390311833638442, INV_MDS@[36] == 220783014807171136331164688074748627144, INV_MDS@[45] == 47112215418871085025936967894656035967, INV_MDS@[54] == 52011660187227698998307018524445124622, INV_MDS@[63] == 302228698991084466216875753830938701241, INV_MDS@[72] == 243710843188765407683950167325811244364,
    ;
    assert(product_entry(MDS@, INV_MDS@, 9, 7, 1) == (MDS@[63] as int) * (INV_MDS@[1] as int) + (MDS@[64] as int) * (INV_MDS@[10] as int) + (MDS@[65] as int) * (INV_MDS@[19] as int) + (MDS@[66] as int) * (INV_MDS@[28] as int) + (MDS@[67] as int) * (INV_MDS@[37] as int) + (MDS@[68] as int) * (INV_MDS@[46] as int) + (MDS@[69] as int) * (INV_MDS@[55] as int) + (MDS@[70] as int) * (INV_MDS@[64] as int) + (MDS@[71] as int) * (INV_MDS@[73] as int));
    assert(((MDS@[63] as int) * (INV_MDS@[1] as int) + (MDS@[64] as int) * (INV_MDS@[10] as int) + (MDS@[65] as int) * (INV_MDS@[19] as int) + (MDS@[66] as int) * (INV_MDS@[28] as int) + (MDS@[67] as int) * (INV_MDS@[37] as int) + (MDS@[68] as int) * (INV_MDS@[46] as int) + (MDS@[69] as int) * (INV_MDS@[55] as int) + (MDS@[70] as int) * (INV_MDS@[64] as int) + (MDS@[71] as int) * (INV_MDS@[73] as int)) % 340282366920938463463374557953744961537 == 0) by (nonlinear_arith)
        requires
            MDS@[63] == 194542495007434960394582255983923586243, MDS@[64] == 104404390561882821492740793700399886259, MDS@[65] == 31015733125887000676791684053161446567, MDS@[66] == 177473572991922008668894803954934702656, MDS@[67] == 225693703897588175263197025163593303860, MDS@[68] == 271259291625999272530694212816871392781, MDS@[69] == 16478009365511174087881242740613722400, MDS@[70] == 340262264978264552243515110485852110337, MDS@[71] == 6129263888495201102915629695046, INV_MDS@[1] == 338985877705667148435373284629855945642, INV_MDS@[10] == 58658143825271814927663889085592315510, INV_MDS@[19] == 205001520256672409877405228205435574405, INV_MDS@[28] == 209223032476035404560919156087419693012, INV_MDS@[37] == 309965259718335944489975028792798283342, INV_MDS@[46] == 257010822502178578101896171521076674054, INV_MDS@[55] == 191078345965907944922431974561774457545, INV_MDS@[64] == 280345530278773498915828360047963227132, INV_MDS@[73] == 164728799513981287864597798438362590906,
    ;
    assert(product_entry(MDS@, INV_MDS@, 9, 7, 2) == (MDS@[63] as int) * (INV_MDS@[2] as int) + (MDS@[64] as int) * (INV_MDS@[11] as int) + (MDS@[65] as int) * (INV_MDS@[20] as int) + (MDS@[66] as int) * (INV_MDS@[29] as int) + (MDS@[67] as int) * (INV_MDS@[38] as int) + (MDS@[68] as int) * (INV_MDS@[47] as int) + (MDS@[69] as int) * (INV_MDS@[56] as int) + (MDS@[70] as int) * (INV_MDS@[65] as int) + (MDS@[71] as int) * (INV_MDS@[74] as int));
    assert(((MDS@[63] as int) * (INV_MDS@[2] as int) + (MDS@[64] as int) * (INV_MDS@[11] as int) + (MDS@[65] as int) * (INV_MDS@[20] as int) + (MDS@[66] as int) * (INV_MDS@[29] as int) + (MDS@[67] as int) * (INV_MDS@[38] as int) + (MDS@[68] as int) * (INV_MDS@[47] as int) + (MDS@[69] as int) * (INV_MDS@[56] as int) + (MDS@[70] as int) * (INV_MDS@[65] as int) + (MDS@[71] as int) * (INV_MDS@[74] as int)) % 340282366920938463463374557953744961537 == 0) by (nonlinear_arith)
        requires
            MDS@[63] == 194542495007434960394582255983923586243, MDS@[64] == 104404390561882821492740793700399886259, MDS@[65] == 31015733125887000676791684053161446567, MDS@[66] == 177473572991922008668894803954934702656, MDS@[67] == 225693703897588175263197025163593303860, MDS@[68] == 271259291625999272530694212816871392781, MDS@[69] == 16478009365511174087881242740613722400, MDS@[70] == 340262264978264552243515110485852110337, MDS@[71] == 6129263888495201102915629695046, INV_MDS@[2] == 129028267600780770615661928550545766843, INV_MDS@[11] == 312249633317719663349408437894842488201, INV_MDS@[20] == 200096610221992325040847115543314292955, INV_MDS@[29] == 211512112805934564584850722873108293522, INV_MDS@[38] == 96673590909058413519603421380578045352, INV_MDS@[47] == 20670720855140215404881506561419650370, INV_MDS@[56] == 86336838853676487241056288607338298724, INV_MDS@[65] == 333099072682993183200689623504181423558, INV_MDS@[74] == 203691322335641954496554143160915473208,
    ;
    assert(product_entry(MDS@, INV_MDS@, 9, 7, 3) == (MDS@[63] as int) * (INV_MDS@[3] as int) + (MDS@[64] as int) * (INV_MDS@[12] as int) + (MDS@[65] as int) * (INV_MDS@[21] as int) + (MDS@[66] as int) * (INV_MDS@[30] as int) + (MDS@[67] as int) * (INV_MDS@[39] as int) + (MDS@[68] as int) * (INV_MDS@[48] as int) + (MDS@[69] as int) * (INV_MDS@[57] as int) + (MDS@[70] as int) * (INV_MDS@[66] as int) + (MDS@[71] as int) * (INV_MDS@[75] as int));
    assert(((MDS@[63] as int) * (INV_MDS@[3] as int) + (MDS@[64] as int) * (INV_MDS@[12] as int) + (MDS@[65] as int) * (INV_MDS@[21] as int) + (MDS@[66] as int) * (INV_MDS@[30] as int) + (MDS@[67] as int) * (INV_MDS@[39] as int) + (MDS@[68] as int) * (INV_MDS@[48] as int) + (MDS@[69] as int) * (INV_MDS@[57] as int) + (MDS@[70] as int) * (INV_MDS@[66] as int) + (MDS@[71] as int) * (INV_MDS@[75] as int)) % 340282366920938463463374557953744961537 == 0) by (nonlinear_arith)
        requires
            MDS@[63] == 194542495007434960394582255983923586243, MDS@[64] == 104404390561882821492740793700399886259, MDS@[65] == 31015733125887000676791684053161446567, MDS@[66] == 177473572991922008668894803954934702656, MDS@[67] == 225693703897588175263197025163593303860, MDS@[68] == 271259291625999272530694212816871392781, MDS@[69] == 16478009365511174087881242740613722400, MDS@[70] == 340262264978264552243515110485852110337, MDS@[71] == 6129263888495201102915629695046, INV_MDS@[3] == 308035008707470404458798574304191182997, INV_MDS@[12] == 214300933317574560218555665032290192921, INV_MDS@[21] == 15223170475099380041360367767094442338, INV_MDS@[30] == 239776030660594538269138961758799208508, INV_MDS@[39] == 205785556561014960463687902712791399561, INV_MDS@[48] == 275063314552737150020455701571996505359, INV_MDS@[57] == 125093328226800820985177164342949053500, INV_MDS@[66] == 27875343830661393369872307155840999075, INV_MDS@[75] == 207184049598426413618777837396461507381,
    ;
    assert(product_entry(MDS@, INV_MDS@, 9, 7, 4) == (MDS@[63] as int) * (INV_MDS@[4] as int) + (MDS@[64] as int) * (INV_MDS@[13] as int) + (MDS@[65] as int) * (INV_MDS@[22] as int) + (MDS@[66] as int) * (INV_MDS@[31] as int) + (MDS@[67] as int) * (INV_MDS@[40] as int) + (MDS@[68] as int) * (INV_MDS@[49] as int) + (MDS@[69] as int) * (INV_MDS@[58] as int) + (MDS@[70] as int) * (INV_MDS@[67] as int) + (MDS@[71] as int) * (INV_MDS@[76] as int));
    assert(((MDS@[63] as int) * (INV_MDS@[4] as int) + (MDS@[64] as int) * (INV_MDS@[13] as int) + (MDS@[65] as int) * (INV_MDS@[22] as int) + (MDS@[66] as int) * (INV_MDS@[31] as int) + (MDS@[67] as int) * (INV_MDS@[40] as int) + (MDS@[68] as int) * (INV_MDS@[49] as int) + (MDS@[69] as int) * (INV_MDS@[58] as int) + (MDS@[70] as int) * (INV_MDS@[67] as int) + (MDS@[71] as int) * (INV_MDS@[76] as int)) % 340282366920938463463374557953744961537 == 0) by (nonlinear_arith)
        requires
            MDS@[63] == 194542495007434960394582255983923586243, MDS@[64] == 104404390561882821492740793700399886259, MDS@[65] == 31015733125887000676791684053161446567, MDS@[66] == 177473572991922008668894803954934702656, MDS@[67] == 225693703897588175263197025163593303860, MDS@[68] == 271259291625999272530694212816871392781, MDS@[69] == 16478009365511174087881242740613722400, MDS@[70] == 340262264978264552243515110485852110337, MDS@[71] == 6129263888495201102915629695046, INV_MDS@[4] == 128520708499505858811967733849558211851, INV_MDS@[13] == 284396721402661659389038897151481097747, INV_MDS@[22] == 235366553140646608237869232108973717383, INV_MDS@[31] == 68210418817622944190939851321990599837, INV_MDS@[40] == 72930044192120504138776809082161800375, INV_MDS@[49] == 154434305573626427596859079056551184503, INV_MDS@[58] == 10689792024438114156388383608175598304, INV_MDS@[67] == 47883408063394345577170731401514016906, INV_MDS@[76] == 182286914752134147886045712500843417287,
    ;
    assert(product_entry(MDS@, INV_MDS@, 9, 7, 5) == (MDS@[63] as int) * (INV_MDS@[5] as int) + (MDS@[64] as int) * (INV_MDS@[14] as int) + (MDS@[65] as int) * (INV_MDS@[23] as int) + (MDS@[66] as int) * (INV_MDS@[32] as int) + (MDS@[67] as int) * (INV_MDS@[41] as int) + (MDS@[68] as int) * (INV_MDS@[50] as int) + (MDS@[69] as int) * (INV_MDS@[59] as int) + (MDS@[70] as int) * (INV_MDS@[68] as int) + (MDS@[71] as int) * (INV_MDS@[77] as int));
    assert(((MDS@[63] as int) * (INV_MDS@[5] as int) + (MDS@[64] as int) * (INV_MDS@[14] as int) + (MDS@[65] as int) * (INV_MDS@[23] as int) + (MDS@[66] as int) * (INV_MDS@[32] as int) + (MDS@[67] as int) * (INV_MDS@[41] as int) + (MDS@[68] as int) * (INV_MDS@[50] as int) + (MDS@[69] as int) * (INV_MDS@[59] as int) + (MDS@[70] as int) * (INV_MDS@[68] as int) + (MDS@[71] as int) * (INV_MDS@[77] as int)) % 340282366920938463463374557953744961537 == 0) by (nonlinear_arith)
        requires
            MDS@[63] == 194542495007434960394582255983923586243, MDS@[64] == 104404390561882821492740793700399886259, MDS@[65] == 31015733125887000676791684053161446567, MDS@[66] == 177473572991922008668894803954934702656, MDS@[67] == 225693703897588175263197025163593303860, MDS@[68] == 271259291625999272530694212816871392781, MDS@[69] == 16478009365511174087881242740613722400, MDS@[70] == 340262264978264552243515110485852110337, MDS@[71] == 6129263888495201102915629695046, INV_MDS@[5] == 75192627449100971018093805348251269149, INV_MDS@[14] == 250642028598419737645395164192907767034, INV_MDS@[23] == 162307162630682801506851542241168907512, INV_MDS@[32] == 222109338954160942132440798066799260073, INV_MDS@[41] == 40863127682090904559911953136810632891, INV_MDS@[50] == 119775195884931758842035438232130131140, INV_MDS@[59] == 329939868120376749051950735773432225615, INV_MDS@[68] == 20045034666478649987681661989026523732, INV_MDS@[77] == 104791328630945774391628390734939042132,
    ;
    assert(product_entry(MDS@, INV_MDS@, 9, 7, 6) == (MDS@[63] as int) * (INV_MDS@[6] as int) + (MDS@[64] as int) * (INV_MDS@[15] as int) + (MDS@[65] as int) * (INV_MDS@[24] as int) + (MDS@[66] as int) * (INV_MDS@[33] as int) + (MDS@[67] as int) * (INV_MDS@[42] as int) + (MDS@[68] as int) * (INV_MDS@[51] as int) + (MDS@[69] as int) * (INV_MDS@[60] as int) + (MDS@[70] as int) * (INV_MDS@[69] as int) + (MDS@[71] as int) * (INV_MDS@[78] as int));
    assert(((MDS@[63] as int) * (INV_MDS@[6] as int) + (MDS@[64] as int) * (INV_MDS@[15] as int) + (MDS@[65] as int) * (INV_MDS@[24] as int) + (MDS@[66] as int) * (INV_MDS@[33] as int) + (MDS@[67] as int) * (INV_MDS@[42] as int) + (MDS@[68] as int) * (INV_MDS@[51] as int) + (MDS@[69] as int) * (INV_MDS@[60] as int) + (MDS@[70] as int) * (INV_MDS@[69] as int) + (MDS@[71] as int) * (INV_MDS@[78] as int)) % 340282366920938463463374557953744961537 == 0) by (nonlinear_arith)
        requires
            MDS@[63] == 194542495007434960394582255983923586243, MDS@[64] == 104404390561882821492740793700399886259, MDS@[65] == 31015733125887000676791684053161446567, MDS@[66] == 177473572991922008668894803954934702656, MDS@[67] == 225693703897588175263197025163593303860, MDS@[68] == 271259291625999272530694212816871392781, MDS@[69] == 16478009365511174087881242740613722400, MDS@[70] == 340262264978264552243515110485852110337, MDS@[71] == 6129263888495201102915629695046, INV_MDS@[6] == 304723430247806995709152718418888185473, INV_MDS@[15] == 326756605713292613148743956415561946579, INV_MDS@[24] == 52675509994437226630257244779552696631, INV_MDS@[33] == 258338197395874177917585304146894183425, INV_MDS@[42] == 147156319027505131468688770623137082831, INV_MDS@[51] == 110335483825478749319799953283019030264, INV_MDS@[60] == 23499294867058318465853361897065892690, INV_MDS@[69] == 282120995912747862095020676645287935430, INV_MDS@[78] == 292925681130628074351389456735241751204,
    ;
    assert(product_entry(MDS@, INV_MDS@, 9, 7, 7) == (MDS@[63] as int) * (INV_MDS@[7] as int) + (MDS@[64] as int) * (INV_MDS@[16] as int) + (MDS@[65] as int) * (INV_MDS@[25] as int) + (MDS@[66] as int) * (INV_MDS@[34] as int) + (MDS@[67] as int) * (INV_MDS@[43] as int) + (MDS@[68] as int) * (INV_MDS@[52] as int) + (MDS@[69] as int) * (INV_MDS@[61] as int) + (MDS@[70] as int) * (INV_MDS@[70] as int) + (MDS@[71] as int) * (INV_MDS@[79] as int));
    assert(((MDS@[63] as int) * (INV_MDS@[7] as int) + (MDS@[64] as int) * (INV_MDS@[16] as int) + (MDS@[65] as int) * (INV_MDS@[25] as int) + (MDS@[66] as int) * (INV_MDS@[34] as int) + (MDS@[67] as int) * (INV_MDS@[43] as int) + (MDS@[68] as int) * (INV_MDS@[52] as int) + (MDS@[69] as int) * (INV_MDS@[61] as int) + (MDS@[70] as int) * (INV_MDS@[70] as int) + (MDS@[71] as int) * (INV_MDS@[79] as int)) % 340282366920938463463374557953744961537 == 1) by (nonlinear_arith)
        requires
            MDS@[63] == 194542495007434960394582255983923586243, MDS@[64] == 104404390561882821492740793700399886259, MDS@[65] == 31015733125887000676791684053161446567, MDS@[66] == 177473572991922008668894803954934702656, MDS@[67] == 225693703897588175263197025163593303860, MDS@[68] == 271259291625999272530694212816871392781, MDS@[69] == 16478009365511174087881242740613722400, MDS@[70] == 340262264978264552243515110485852110337, MDS@[71] == 6129263888495201102915629695046, INV_MDS@[7] == 247138038315326480697662666345484012828, INV_MDS@[16] == 64564033929793286393378167005124959170, INV_MDS@[25] == 335285735573611416179235296489092358465, INV_MDS@[34] == 338175469353412666797355362713810876851, INV_MDS@[43] == 5465313383088119386627759574466685670, INV_MDS@[52] == 93758101272597109289270377026652209913, INV_MDS@[61] == 278372710189966668032426818312990960568, INV_MDS@[70] == 122980149585923452096449943205160728029, INV_MDS@[79] == 37505641512749851214506703376700564141,
    ;
    assert(product_entry(MDS@, INV_MDS@, 9, 7, 8) == (MDS@[63] as int) * (INV_MDS@[8] as int) + (MDS@[64] as int) * (INV_MDS@[17] as int) + (MDS@[65] as int) * (INV_MDS@[26] as int) + (MDS@[66] as int) * (INV_MDS@[35] as int) + (MDS@[67] as int) * (INV_MDS@[44] as int) + (MDS@[68] as int) * (INV_MDS@[53] as int) + (MDS@[69] as int) * (INV_MDS@[62] as int) + (MDS@[70] as int) * (INV_MDS@[71] as int) + (MDS@[71] as int) * (INV_MDS@[80] as int));
    assert(((MDS@[63] as int) * (INV_MDS@[8] as int) + (MDS@[64] as int) * (INV_MDS@[17] as int) + (MDS@[65] as int) * (INV_MDS@[26] as int) + (MDS@[66] as int) * (INV_MDS@[35] as int) + (MDS@[67] as int) * (INV_MDS@[44] as int) + (MDS@[68] as int) * (INV_MDS@[53] as int) + (MDS@[69] as int) * (INV_MDS@[62] as int) + (MDS@[70] as int) * (INV_MDS@[71] as int) + (MDS@[71] as int) * (INV_MDS@[80] as int)) % 340282366920938463463374557953744961537 == 0) by (nonlinear_arith)
        requires
            MDS@[63] == 194542495007434960394582255983923586243, MDS@[64] == 104404390561882821492740793700399886259, MDS@[65] == 31015733125887000676791684053161446567, MDS@[66] == 177473572991922008668894803954934702656, MDS@[67] == 225693703897588175263197025163593303860, MDS@[68] == 271259291625999272530694212816871392781, MDS@[69] == 16478009365511174087881242740613722400, MDS@[70] == 340262264978264552243515110485852110337, MDS@[71] == 6129263888495201102915629695046, INV_MDS@[8] == 302366037761801343159474246624292948256, INV_MDS@[17] == 62016928595481525873214390512699159059, INV_MDS@[26] == 246874452820824414865612791412833222948, INV_MDS@[35] == 210676129806048980180371800441814015553, INV_MDS@[44] == 261507241403368739495061898437487288983, INV_MDS@[53] == 282969307798192780252363036667478424579, INV_MDS@[62] == 264107629248301051999906486186808234581, INV_MDS@[71] == 284833600592635465857283731988811252583, INV_MDS@[80] == 264587253941419405809422580099449217063,
    ;
}

proof fn lemma_product_forward_row_8()
    ensures
        identity_row(Elem::modulus(), MDS@, INV_MDS@, 9, 8, 9),
{
    reveal_with_fuel(sum, 10);
    reveal_with_fuel(identity_row, 10);
    assert(product_entry(MDS@, INV_MDS@, 9, 8, 0) == (MDS@[72] as int) * (INV_MDS@[0] as int) + (MDS@[73] as int) * (INV_MDS@[9] as int) + (MDS@[74] as int) * (INV_MDS@[18] as int) + (MDS@[75] as int) * (INV_MDS@[27] as int) + (MDS@[76] as int) * (INV_MDS@[36] as int) + (MDS@[77] as int) * (INV_MDS@[45] as int) + (MDS@[78] as int) * (INV_MDS@[54] as int) + (MDS@[79] as int) * (INV_MDS@[63] as int) + (MDS@[80] as int) * (INV_MDS@[72] as int));
    assert(((MDS@[72] as int) * (INV_MDS@[0] as int) + (MDS@[73] as int) * (INV_MDS@[9] as int) + (MDS@[74] as int) * (INV_MDS@[18] as int) + (MDS@[75] as int) * (INV_MDS@[27] as int) + (MDS@[76] as int) * (INV_MDS@[36] as int) + (MDS@[77] as int) * (INV_MDS@[45] as int) + (MDS@[78] as int) * (INV_MDS@[54] as int) + (MDS@[79] as int) * (INV_MDS@[63] as int) + (MDS@[80] as int) * (INV_MDS@[72] as int)) % 340282366920938463463374557953744961537 == 0) by (nonlinear_arith)
        requires
            MDS@[72] == 188693918348033658130796882009222201279, MDS@[73] == 314243109041589500728057538205852247049, MDS@[74] == 274553328639948771850735264514343203581, MDS@[75] == 310813334522360543261976075967969844628, MDS@[76] == 58189218743095556616922042146577748196, MDS@[77] == 88532793352623448815797177624516430079, MDS@[78] == 257968030906974364479467734461159660011, MDS@[79] == 208377884906813703378925729595147376377, MDS@[80] == 40216143252770054194345243936096486, INV_MDS@[0] == 207704205238170807874062389651402246184, INV_MDS@[9] == 127826805904477456371474222478224881465, INV_MDS@[18] == 248581119490725734937433971221259595049, INV_MDS@[27] == 283673471255946562146645390311833638442, INV_MDS@[36] == 220783014807171136331164688074748627144, INV_MDS@[45] == 47112215418871085025936967894656035967, INV_MDS@[54] == 52011660187227698998307018524445124622, INV_MDS@[63] == 302228698991084466216875753830938701241, INV_MDS@[72] == 243710843188765407683950167325811244364,
    ;
    assert(product_entry(MDS@, INV_MDS@, 9, 8, 1) == (MDS@[72] as int) * (INV_MDS@[1] as int) + (MDS@[73] as int) * (INV_MDS@[10] as int) + (MDS@[74] as int) * (INV_MDS@[19] as int) + (MDS@[75] as int) * (INV_MDS@[28] as int) + (MDS@[76] as int) * (INV_MDS@[37] as int) + (MDS@[77] as int) * (INV_MDS@[46] as int) + (MDS@[78] as int) * (INV_MDS@[55] as int) + (MDS@[79] as int) * (INV_MDS@[64] as int) + (MDS@[80] as int) * (INV_MDS@[73] as int));
    assert(((MDS@[72] as int) * (INV_MDS@[1] as int) + (MDS@[73] as int) * (INV_MDS@[10] as int) + (MDS@[74] as int) * (INV_MDS@[19] as int) + (MDS@[75] as int) * (INV_MDS@[28] as int) + (MDS@[76] as int) * (INV_MDS@[37] as int) + (MDS@[77] as int) * (INV_MDS@[46] as int) + (MDS@[78] as int) * (INV_MDS@[55] as int) + (MDS@[79] as int) * (INV_MDS@[64] as int) + (MDS@[80] as int) * (INV_MDS@[73] as int)) % 340282366920938463463374557953744961537 == 0) by (nonlinear_arith)
        requires
            MDS@[72] == 188693918348033658130796882009222201279, MDS@[73] == 314243109041589500728057538205852247049, MDS@[74] == 274553328639948771850735264514343203581, MDS@[75] == 310813334522360543261976075967969844628, MDS@[76] == 58189218743095556616922042146577748196, MDS@[77] == 88532793352623448815797177624516430079, MDS@[78] == 257968030906974364479467734461159660011, MDS@[79] == 208377884906813703378925729595147376377, MDS@[80] == 40216143252770054194345243936096486, INV_MDS@[1] == 338985877705667148435373284629855945642, INV_MDS@[10] == 58658143825271814927663889085592315510, INV_MDS@[19] == 205001520256672409877405228205435574405, INV_MDS@[28] == 209223032476035404560919156087419693012, INV_MDS@[37] == 309965259718335944489975028792798283342, INV_MDS@[46] == 257010822502178578101896171521076674054, INV_MDS@[55] == 191078345965907944922431974561774457545, INV_MDS@[64] == 280345530278773498915828360047963227132, INV_MDS@[73] == 164728799513981287864597798438362590906,
    ;
    assert(product_entry(MDS@, INV_MDS@, 9, 8, 2) == (MDS@[72] as int) * (INV_MDS@[2] as int) + (MDS@[73] as int) * (INV_MDS@[11] as int) + (MDS@[74] as int) * (INV_MDS@[20] as int) + (MDS@[75] as int) * (INV_MDS@[29] as int) + (MDS@[76] as int) * (INV_MDS@[38] as int) + (MDS@[77] as int) * (INV_MDS@[47] as int) + (MDS@[78] as int) * (INV_MDS@[56] as int) + (MDS@[79] as int) * (INV_MDS@[65] as int) + (MDS@[80] as int) * (INV_MDS@[74] as int));
    assert(((MDS@[72] as int) * (INV_MDS@[2] as int) + (MDS@[73] as int) * (INV_MDS@[11] as int) + (MDS@[74] as int) * (INV_MDS@[20] as int) + (MDS@[75] as int) * (INV_MDS@[29] as int) + (MDS@[76] as int) * (INV_MDS@[38] as int) + (MDS@[77] as int) * (INV_MDS@[47] as int) + (MDS@[78] as int) * (INV_MDS@[56] as int) + (MDS@[79] as int) * (INV_MDS@[65] as int) + (MDS@[80] as int) * (INV_MDS@[74] as int)) % 340282366920938463463374557953744961537 == 0) by (nonlinear_arith)
        requires
            MDS@[72] == 188693918348033658130796882009222201279, MDS@[73] == 314243109041589500728057538205852247049, MDS@[74] == 274553328639948771850735264514343203581, MDS@[75] == 310813334522360543261976075967969844628, MDS@[76] == 58189218743095556616922042146577748196, MDS@[77] == 88532793352623448815797177624516430079, MDS@[78] == 257968030906974364479467734461159660011, MDS@[79] == 208377884906813703378925729595147376377, MDS@[80] == 40216143252770054194345243936096486, INV_MDS@[2] == 129028267600780770615661928550545766843, INV_MDS@[11] == 312249633317719663349408437894842488201, INV_MDS@[20] == 200096610221992325040847115543314292955, INV_MDS@[29] == 211512112805934564584850722873108293522, INV_MDS@[38] == 96673590909058413519603421380578045352, INV_MDS@[47] == 20670720855140215404881506561419650370, INV_MDS@[56] == 86336838853676487241056288607338298724, INV_MDS@[65] == 333099072682993183200689623504181423558, INV_MDS@[74] == 203691322335641954496554143160915473208,
    ;
    assert(product_entry(MDS@, INV_MDS@, 9, 8, 3) == (MDS@[72] as int) * (INV_MDS@[3] as int) + (MDS@[73] as int) * (INV_MDS@[12] as int) + (MDS@[74] as int) * (INV_MDS@[21] as int) + (MDS@[75] as int) * (INV_MDS@[30] as int) + (MDS@[76] as int) * (INV_MDS@[39] as int) + (MDS@[77] as int) * (INV_MDS@[48] as int) + (MDS@[78] as int) * (INV_MDS@[57] as int) + (MDS@[79] as int) * (INV_MDS@[66] as int) + (MDS@[80] as int) * (INV_MDS@[75] as int));
    assert(((MDS@[72] as int) * (INV_MDS@[3] as int) + (MDS@[73] as int) * (INV_MDS@[12] as int) + (MDS@[74] as int) * (INV_MDS@[21] as int) + (MDS@[75] as int) * (INV_MDS@[30] as int) + (MDS@[76] as int) * (INV_MDS@[39] as int) + (MDS@[77] as int) * (INV_MDS@[48] as int) + (MDS@[78] as int) * (INV_MDS@[57] as int) + (MDS@[79] as int) * (INV_MDS@[66] as int) + (MDS@[80] as int) * (INV_MDS@[75] as int)) % 340282366920938463463374557953744961537 == 0) by (nonlinear_arith)
        requires
            MDS@[72] == 188693918348033658130796882009222201279, MDS@[73] == 314243109041589500728057538205852247049, MDS@[74] == 274553328639948771850735264514343203581, MDS@[75] == 310813334522360543261976075967969844628, MDS@[76] == 58189218743095556616922042146577748196, MDS@[77] == 88532793352623448815797177624516430079, MDS@[78] == 257968030906974364479467734461159660011, MDS@[79] == 208377884906813703378925729595147376377, MDS@[80] == 40216143252770054194345243936096486, INV_MDS@[3] == 308035008707470404458798574304191182997, INV_MDS@[12] == 214300933317574560218555665032290192921, INV_MDS@[21] == 15223170475099380041360367767094442338, INV_MDS@[30] == 239776030660594538269138961758799208508, INV_MDS@[39] == 205785556561014960463687902712791399561, INV_MDS@[48] == 275063314552737150020455701571996505359, INV_MDS@[57] == 125093328226800820985177164342949053500, INV_MDS@[66] == 27875343830661393369872307155840999075, INV_MDS@[75] == 207184049598426413618777837396461507381,
    ;
    assert(product_entry(MDS@, INV_MDS@, 9, 8, 4) == (MDS@[72] as int) * (INV_MDS@[4] as int) + (MDS@[73] as int) * (INV_MDS@[13] as int) + (MDS@[74] as int) * (INV_MDS@[22] as int) + (MDS@[75] as int) * (INV_MDS@[31] as int) + (MDS@[76] as int) * (INV_MDS@[40] as int) + (MDS@[77] as int) * (INV_MDS@[49] as int) + (MDS@[78] as int) * (INV_MDS@[58] as int) + (MDS@[79] as int) * (INV_MDS@[67] as int) + (MDS@[80] as int) * (INV_MDS@[76] as int));
    assert(((MDS@[72] as int) * (INV_MDS@[4] as int) + (MDS@[73] as int) * (INV_MDS@[13] as int) + (MDS@[74] as int) * (INV_MDS@[22] as int) + (MDS@[75] as int) * (INV_MDS@[31] as int) + (MDS@[76] as int) * (INV_MDS@[40] as int) + (MDS@[77] as int) * (INV_MDS@[49] as int) + (MDS@[78] as int) * (INV_MDS@[58] as int) + (MDS@[79] as int) * (INV_MDS@[67] as int) + (MDS@[80] as int) * (INV_MDS@[76] as int)) % 340282366920938463463374557953744961537 == 0) by (nonlinear_arith)
        requires
            MDS@[72] == 188693918348033658130796882009222201279, MDS@[73] == 314243109041589500728057538205852247049, MDS@[74] == 274553328639948771850735264514343203581, MDS@[75] == 310813334522360543261976075967969844628, MDS@[76] == 58189218743095556616922042146577748196, MDS@[77] == 88532793352623448815797177624516430079, MDS@[78] == 257968030906974364479467734461159660011, MDS@[79] == 208377884906813703378925729595147376377, MDS@[80] == 40216143252770054194345243936096486, INV_MDS@[4] == 128520708499505858811967733849558211851, INV_MDS@[13] == 284396721402661659389038897151481097747, INV_MDS@[22] == 235366553140646608237869232108973717383, INV_MDS@[31] == 68210418817622944190939851321990599837, INV_MDS@[40] == 72930044192120504138776809082161800375, INV_MDS@[49] == 154434305573626427596859079056551184503, INV_MDS@[58] == 10689792024438114156388383608175598304, INV_MDS@[67] == 47883408063394345577170731401514016906, INV_MDS@[76] == 182286914752134147886045712500843417287,
    ;
    assert(product_entry(MDS@, INV_MDS@, 9, 8, 5) == (MDS@[72] as int) * (INV_MDS@[5] as int) + (MDS@[73] as int) * (INV_MDS@[14] as int) + (MDS@[74] as int) * (INV_MDS@[23] as int) + (MDS@[75] as int) * (INV_MDS@[32] as int) + (MDS@[76] as int) * (INV_MDS@[41] as int) + (MDS@[77] as int) * (INV_MDS@[50] as int) + (MDS@[78] as int) * (INV_MDS@[59] as int) + (MDS@[79] as int) * (INV_MDS@[68] as int) + (MDS@[80] as int) * (INV_MDS@[77] as int));
    assert(((MDS@[72] as int) * (INV_MDS@[5] as int) + (MDS@[73] as int) * (INV_MDS@[14] as int) + (MDS@[74] as int) * (INV_MDS@[23] as int) + (MDS@[75] as int) * (INV_MDS@[32] as int) + (MDS@[76] as int) * (INV_MDS@[41] as int) + (MDS@[77] as int) * (INV_MDS@[50] as int) + (MDS@[78] as int) * (INV_MDS@[59] as int) + (MDS@[79] as int) * (INV_MDS@[68] as int) + (MDS@[80] as int) * (INV_MDS@[77] as int)) % 340282366920938463463374557953744961537 == 0) by (nonlinear_arith)
        requires
            MDS@[72] == 188693918348033658130796882009222201279, MDS@[73] == 314243109041589500728057538205852247049, MDS@[74] == 274553328639948771850735264514343203581, MDS@[75] == 310813334522360543261976075967969844628, MDS@[76] == 58189218743095556616922042146577748196, MDS@[77] == 88532793352623448815797177624516430079, MDS@[78] == 257968030906974364479467734461159660011, MDS@[79] == 208377884906813703378925729595147376377, MDS@[80] == 40216143252770054194345243936096486, INV_MDS@[5] == 75192627449100971018093805348251269149, INV_MDS@[14] == 250642028598419737645395164192907767034, INV_MDS@[23] == 162307162630682801506851542241168907512, INV_MDS@[32] == 222109338954160942132440798066799260073, INV_MDS@[41] == 40863127682090904559911953136810632891, INV_MDS@[50] == 119775195884931758842035438232130131140, INV_MDS@[59] == 329939868120376749051950735773432225615, INV_MDS@[68] == 20045034666478649987681661989026523732, INV_MDS@[77] == 104791328630945774391628390734939042132,
    ;
    assert(product_entry(MDS@, INV_MDS@, 9, 8, 6) == (MDS@[72] as int) * (INV_MDS@[6] as int) + (MDS@[73] as int) * (INV_MDS@[15] as int) + (MDS@[74] as int) * (INV_MDS@[24] as int) + (MDS@[75] as int) * (INV_MDS@[33] as int) + (MDS@[76] as int) * (INV_MDS@[42] as int) + (MDS@[77] as int) * (INV_MDS@[51] as int) + (MDS@[78] as int) * (INV_MDS@[60] as int) + (MDS@[79] as int) * (INV_MDS@[69] as int) + (MDS@[80] as int) * (INV_MDS@[78] as int));
    assert(((MDS@[72] as int) * (INV_MDS@[6] as int) + (MDS@[73] as int) * (INV_MDS@[15] as int) + (MDS@[74] as int) * (INV_MDS@[24] as int) + (MDS@[75] as int) * (INV_MDS@[33] as int) + (MDS@[76] as int) * (INV_MDS@[42] as int) + (MDS@[77] as int) * (INV_MDS@[51] as int) + (MDS@[78] as int) * (INV_MDS@[60] as int) + (MDS@[79] as int) * (INV_MDS@[69] as int) + (MDS@[80] as int) * (INV_MDS@[78] as int)) % 340282366920938463463374557953744961537 == 0) by (nonlinear_arith)
        requires
            MDS@[72] == 188693918348033658130796882009222201279, MDS@[73] == 314243109041589500728057538205852247049, MDS@[74] == 274553328639948771850735264514343203581, MDS@[75] == 310813334522360543261976075967969844628, MDS@[76] == 58189218743095556616922042146577748196, MDS@[77] == 88532793352623448815797177624516430079, MDS@[78] == 257968030906974364479467734461159660011, MDS@[79] == 208377884906813703378925729595147376377, MDS@[80] == 40216143252770054194345243936096486, INV_MDS@[6] == 304723430247806995709152718418888185473, INV_MDS@[15] == 326756605713292613148743956415561946579, INV_MDS@[24] == 52675509994437226630257244779552696631, INV_MDS@[33] == 258338197395874177917585304146894183425, INV_MDS@[42] == 147156319027505131468688770623137082831, INV_MDS@[51] == 110335483825478749319799953283019030264, INV_MDS@[60] == 23499294867058318465853361897065892690, INV_MDS@[69] == 282120995912747862095020676645287935430, INV_MDS@[78] == 292925681130628074351389456735241751204,
    ;
    assert(product_entry(MDS@, INV_MDS@, 9, 8, 7) == (MDS@[72] as int) * (INV_MDS@[7] as int) + (MDS@[73] as int) * (INV_MDS@[16] as int) + (MDS@[74] as int) * (INV_MDS@[25] as int) + (MDS@[75] as int) * (INV_MDS@[34] as int) + (MDS@[76] as int) * (INV_MDS@[43] as int) + (MDS@[77] as int) * (INV_MDS@[52] as int) + (MDS@[78] as int) * (INV_MDS@[61] as int) + (MDS@[79] as int) * (INV_MDS@[70] as int) + (MDS@[80] as int) * (INV_MDS@[79] as int));
    assert(((MDS@[72] as int) * (INV_MDS@[7] as int) + (MDS@[73] as int) * (INV_MDS@[16] as int) + (MDS@[74] as int) * (INV_MDS@[25] as int) + (MDS@[75] as int) * (INV_MDS@[34] as int) + (MDS@[76] as int) * (INV_MDS@[43] as int) + (MDS@[77] as int) * (INV_MDS@[52] as int) + (MDS@[78] as int) * (INV_MDS@[61] as int) + (MDS@[79] as int) * (INV_MDS@[70] as int) + (MDS@[80] as int) * (INV_MDS@[79] as int)) % 340282366920938463463374557953744961537 == 0) by (nonlinear_arith)
        requires
            MDS@[72] == 188693918348033658130796882009222201279, MDS@[73] == 314243109041589500728057538205852247049, MDS@[74] == 274553328639948771850735264514343203581, MDS@[75] == 310813334522360543261976075967969844628, MDS@[76] == 58189218743095556616922042146577748196, MDS@[77] == 88532793352623448815797177624516430079, MDS@[78] == 257968030906974364479467734461159660011, MDS@[79] == 208377884906813703378925729595147376377, MDS@[80] == 40216143252770054194345243936096486, INV_MDS@[7] == 247138038315326480697662666345484012828, INV_MDS@[16] == 64564033929793286393378167005124959170, INV_MDS@[25] == 335285735573611416179235296489092358465, INV_MDS@[34] == 338175469353412666797355362713810876851, INV_MDS@[43] == 5465313383088119386627759574466685670, INV_MDS@[52] == 93758101272597109289270377026652209913, INV_MDS@[61] == 278372710189966668032426818312990960568, INV_MDS@[70] == 122980149585923452096449943205160728029, INV_MDS@[79] == 37505641512749851214506703376700564141,
    ;
    assert(product_entry(MDS@, INV_MDS@, 9, 8, 8) == (MDS@[72] as int) * (INV_MDS@[8] as int) + (MDS@[73] as int) * (INV_MDS@[17] as int) + (MDS@[74] as int) * (INV_MDS@[26] as int) + (MDS@[75] as int) * (INV_MDS@[35] as int) + (MDS@[76] as int) * (INV_MDS@[44] as int) + (MDS@[77] as int) * (INV_MDS@[53] as int) + (MDS@[78] as int) * (INV_MDS@[62] as int) + (MDS@[79] as int) * (INV_MDS@[71] as int) + (MDS@[80] as int) * (INV_MDS@[80] as int));
    assert(((MDS@[72] as int) * (INV_MDS@[8] as int) + (MDS@[73] as int) * (INV_MDS@[17] as int) + (MDS@[74] as int) * (INV_MDS@[26] as int) + (MDS@[75] as int) * (INV_MDS@[35] as int) + (MDS@[76] as int) * (INV_MDS@[44] as int) + (MDS@[77] as int) * (INV_MDS@[53] as int) + (MDS@[78] as int) * (INV_MDS@[62] as int) + (MDS@[79] as int) * (INV_MDS@[71] as int) + (MDS@[80] as int) * (INV_MDS@[80] as int)) % 340282366920938463463374557953744961537 == 1) by (nonlinear_arith)
        requires
            MDS@[72] == 188693918348033658130796882009222201279, MDS@[73] == 314243109041589500728057538205852247049, MDS@[74] == 274553328639948771850735264514343203581, MDS@[75] == 310813334522360543261976075967969844628, MDS@[76] == 58189218743095556616922042146577748196, MDS@[77] == 88532793352623448815797177624516430079, MDS@[78] == 257968030906974364479467734461159660011, MDS@[79] == 208377884906813703378925729595147376377, MDS@[80] == 40216143252770054194345243936096486, INV_MDS@[8] == 302366037761801343159474246624292948256, INV_MDS@[17] == 62016928595481525873214390512699159059, INV_MDS@[26] == 246874452820824414865612791412833222948, INV_MDS@[35] == 210676129806048980180371800441814015553, INV_MDS@[44] == 261507241403368739495061898437487288983, INV_MDS@[53] == 282969307798192780252363036667478424579, INV_MDS@[62] == 264107629248301051999906486186808234581, INV_MDS@[71] == 284833600592635465857283731988811252583, INV_MDS@[80] == 264587253941419405809422580099449217063,
    ;
}

proof fn lemma_product_forward()
    ensures
        product_is_identity(Elem::modulus(), MDS@, INV_MDS@, 9),
{
    lemma_product_forward_row_0();
    lemma_product_forward_row_1();
    lemma_product_forward_row_2();
    lemma_product_forward_row_3();
    lemma_product_forward_row_4();
    lemma_product_forward_row_5();
    lemma_product_forward_row_6();
    lemma_product_forward_row_7();
    lemma_product_forward_row_8();
    reveal_with_fuel(identity_rows, 10);
    assert(identity_rows(Elem::modulus(), MDS@, INV_MDS@, 9, 9));
    lemma_identity_rows(Elem::modulus(), MDS@, INV_MDS@, 9);
}

proof fn lemma_product_backward_row_0()
    ensures
        identity_row(Elem::modulus(), INV_MDS@, MDS@, 9, 0, 9),
{
    reveal_with_fuel(sum, 10);
    reveal_with_fuel(identity_row, 10);
    assert(product_entry(INV_MDS@, MDS@, 9, 0, 0) == (INV_MDS@[0] as int) * (MDS@[0] as int) + (INV_MDS@[1] as int) * (MDS@[9] as int) + (INV_MDS@[2] as int) * (MDS@[18] as int) + (INV_MDS@[3] as int) * (MDS@[27] as int) + (INV_MDS@[4] as int) * (MDS@[36] as int) + (INV_MDS@[5] as int) * (MDS@[45] as int) + (INV_MDS@[6] as int) * (MDS@[54] as int) + (INV_MDS@[7] as int) * (MDS@[63] as int) + (INV_MDS@[8] as int) * (MDS@[72] as int));
    assert(((INV_MDS@[0] as int) * (MDS@[0] as int) + (INV_MDS@[1] as int) * (MDS@[9] as int) + (INV_MDS@[2] as int) * (MDS@[18] as int) + (INV_MDS@[3] as int) * (MDS@[27] as int) + (INV_MDS@[4] as int) * (MDS@[36] as int) + (INV_MDS@[5] as int) * (MDS@[45] as int) + (INV_MDS@[6] as int) * (MDS@[54] as int) + (INV_MDS@[7] as int) * (MDS@[63] as int) + (INV_MDS@[8] as int) * (MDS@[72] as int)) % 340282366920938463463374557953744961537 == 1) by (nonlinear_arith)
        requires
            INV_MDS@[0] == 207704205238170807874062389651402246184, INV_MDS@[1] == 338985877705667148435373284629855945642, INV_MDS@[2] == 129028267600780770615661928550545766843, INV_MDS@[3] == 308035008707470404458798574304191182997, INV_MDS@[4] == 128520708499505858811967733849558211851, INV_MDS@[5] == 75192627449100971018093805348251269149, INV_MDS@[6] == 304723430247806995709152718418888185473, INV_MDS@[7] == 247138038315326480697662666345484012828, INV_MDS@[8] == 302366037761801343159474246624292948256, MDS@[0] == 150094635296999121, MDS@[9] == 1477081305957768349761, MDS@[18] == 10902337119274288189585941, MDS@[27] == 74280977358883194447399657861, MDS@[36] == 493448532595061060714075927170623, MDS@[45] == 3250891947867863390247053555200504143, MDS@[54] == 260889072481016946483921979409357576789, MDS@[63] == 194542495007434960394582255983923586243, MDS@[72] == 188693918348033658130796882009222201279,
    ;
    assert(product_entry(INV_MDS@, MDS@, 9, 0, 1) == (INV_MDS@[0] as int) * (MDS@[1] as int) + (INV_MDS@[1] as int) * (MDS@[10] as int) + (INV_MDS@[2] as int) * (MDS@[19] as int) + (INV_MDS@[3] as int) * (MDS@[28] as int) + (INV_MDS@[4] as int) * (MDS@[37] as int) + (INV_MDS@[5] as int) * (MDS@[46] as int) + (INV_MDS@[6] as int) * (MDS@[55] as int) + (INV_MDS@[7] as int) * (MDS@[64] as int) + (INV_MDS@[8] as int) * (MDS@[73] as int));
    assert(((INV_MDS@[0] as int) * (MDS@[1] as int) + (INV_MDS@[1] as int) * (MDS@[10] as int) + (INV_MDS@[2] as int) * (MDS@[19] as int) + (INV_MDS@[3] as int) * (MDS@[28] as int) + (INV_MDS@[4] as int) * (MDS@[37] as int) + (INV_MDS@[5] as int) * (MDS@[46] as int) + (INV_MDS@[6] as int) * (MDS@[55] as int) + (INV_MDS@[7] as int) * (MDS@[64] as int) + (INV_MDS@[8] as int) * (MDS@[73] as int)) % 340282366920938463463374557953744961537 == 0) by (nonlinear_arith)
        requires
            INV_MDS@[0] == 207704205238170807874062389651402246184, INV_MDS@[1] == 338985877705667148435373284629855945642, INV_MDS@[2] == 129028267600780770615661928550545766843, INV_MDS@[3] == 308035008707470404458798574304191182997, INV_MDS@[4] == 128520708499505858811967733849558211851, INV_MDS@[5] == 75192627449100971018093805348251269149, INV_MDS@[6] == 304723430247806995709152718418888185473, INV_MDS@[7] == 247138038315326480697662666345484012828, INV_MDS@[8] == 302366037761801343159474246624292948256, MDS@[1] == 340282366920938463463149427439195690336, MDS@[10] == 340282366920938461248015258909664071617, MDS@[19] == 340282366920922112265621116423314299677, MDS@[28] == 340282366809533560559102349761084062337, MDS@[37] == 340281626860025222258639632111371827735, MDS@[46] == 335406770191301931314646938843156637377, MDS@[55] == 294109695457304815011263569543330296235, MDS@[64] == 104404390561882821492740793700399886259, MDS@[73] == 314243109041589500728057538205852247049,
    ;
    assert(product_entry(INV_MDS@, MDS@, 9, 0, 2) == (INV_MDS@[0] as int) * (MDS@[2] as int) + (INV_MDS@[1] as int) * (MDS@[11] as int) + (INV_MDS@[2] as int) * (MDS@[20] as int) + (INV_MDS@[3] as int) * (MDS@[29] as int) + (INV_MDS@[4] as int) * (MDS@[38] as int) + (INV_MDS@[5] as int) * (MDS@[47] as int) + (INV_MDS@[6] as int) * (MDS@[56] as int) + (INV_MDS@[7] as int) * (MDS@[65] as int) + (INV_MDS@[8] as int) * (MDS@[74] as int));
    assert(((INV_MDS@[0] as int) * (MDS@[2] as int) + (INV_MDS@[1] as int) * (MDS@[11] as int) + (INV_MDS@[2] as int) * (MDS@[20] as int) + (INV_MDS@[3] as int) * (MDS@[29] as int) + (INV_MDS@[4] as int) * (MDS@[38] as int) + (INV_MDS@[5] as int) * (MDS@[47] as int) + (INV_MDS@[6] as int) * (MDS@[56] as int) + (INV_MDS@[7] as int) * (MDS@[65] as int) + (INV_MDS@[8] as int) * (MDS@[74] as int)) % 340282366920938463463374557953744961537 == 0) by (nonlinear_arith)
        requires
            INV_MDS@[0] == 207704205238170807874062389651402246184, INV_MDS@[1] == 338985877705667148435373284629855945642, INV_MDS@[2] == 129028267600780770615661928550545766843, INV_MDS@[3] == 308035008707470404458798574304191182997, INV_MDS@[4] == 128520708499505858811967733849558211851, INV_MDS@[5] == 75192627449100971018093805348251269149, INV_MDS@[6] == 304723430247806995709152718418888185473, INV_MDS@[7] == 247138038315326480697662666345484012828, INV_MDS@[8] == 302366037761801343159474246624292948256, MDS@[2] == 84411075413992860, MDS@[11] == 830464262634554464059, MDS@[20] == 6129103051534490589064140, MDS@[29] == 41758207694766455878941719400, MDS@[38] == 277396989820105406282268067810980, MDS@[47] == 1827515058473445723489323454811459578, MDS@[56] == 96897786123648020966790891596799875825, MDS@[65] == 31015733125887000676791684053161446567, MDS@[74] == 274553328639948771850735264514343203581,
    ;
    assert(product_entry(INV_MDS@, MDS@, 9, 0, 3) == (INV_MDS@[0] as int) * (MDS@[3] as int) + (INV_MDS@[1] as int) * (MDS@[12] as int) + (INV_MDS@[2] as int) * (MDS@[21] as int) + (INV_MDS@[3] as int) * (MDS@[30] as int) + (INV_MDS@[4] as int) * (MDS@[39] as int) + (INV_MDS@[5] as int) * (MDS@[48] as int) + (INV_MDS@[6] as int) * (MDS@[57] as int) + (INV_MDS@[7] as int) * (MDS@[66] as int) + (INV_MDS@[8] as int) * (MDS@[75] as int));
    assert(((INV_MDS@[0] as int) * (MDS@[3] as int) + (INV_MDS@[1] as int) * (MDS@[12] as int) + (INV_MDS@[2] as int) * (MDS@[21] as int) + (INV_MDS@[3] as int) * (MDS@[30] as int) + (INV_MDS@[4] as int) * (MDS@[39] as int) + (INV_MDS@[5] as int) * (MDS@[48] as int) + (INV_MDS@[6] as int) * (MDS@[57] as int) + (INV_MDS@[7] as int) * (MDS@[66] as int) + (INV_MDS@[8] as int) * (MDS@[75] as int)) % 340282366920938463463374557953744961537 == 0) by (nonlinear_arith)
        requires
            INV_MDS@[0] == 207704205238170807874062389651402246184, INV_MDS@[1] == 338985877705667148435373284629855945642, INV_MDS@[2] == 129028267600780770615661928550545766843, INV_MDS@[3] == 308035008707470404458798574304191182997, INV_MDS@[4] == 128520708499505858811967733849558211851, INV_MDS@[5] == 75192627449100971018093805348251269149, INV_MDS@[6] == 304723430247806995709152718418888185473, INV_MDS@[7] == 247138038315326480697662666345484012828, INV_MDS@[8] == 302366037761801343159474246624292948256, MDS@[3] == 340282366920938463463364822667744381797, MDS@[12] == 340282366920938463367654019497453733057, MDS@[21] == 340282366920937757157506327072060715056, MDS@[30] == 340282366916126655152737768305002590337, MDS@[39] == 340282334957138432026603756253961717317, MDS@[48] == 340071788261635189888022255808831580097, MDS@[57] == 317912742718020576130300337690805571243, MDS@[66] == 177473572991922008668894803954934702656, MDS@[75] == 310813334522360543261976075967969844628,
    ;
    assert(product_entry(INV_MDS@, MDS@, 9, 0, 4) == (INV_MDS@[0] as int) * (MDS@[4] as int) + (INV_MDS@[1] as int) * (MDS@[13] as int) + (INV_MDS@[2] as int) * (MDS@[22] as int) + (INV_MDS@[3] as int) * (MDS@[31] as int) + (INV_MDS@[4] as int) * (MDS@[40] as int) + (INV_MDS@[5] as int) * (MDS@[49] as int) + (INV_MDS@[6] as int) * (MDS@[58] as int) + (INV_MDS@[7] as int) * (MDS@[67] as int) + (INV_MDS@[8] as int) * (MDS@[76] as int));
    assert(((INV_MDS@[0] as int) * (MDS@[4] as int) + (INV_MDS@[1] as int) * (MDS@[13] as int) + (INV_MDS@[2] as int) * (MDS@[22] as int) + (INV_MDS@[3] as int) * (MDS@[31] as int) + (INV_MDS@[4] as int) * (MDS@[40] as int) + (INV_MDS@[5] as int) * (MDS@[49] as int) + (INV_MDS@[6] as int) * (MDS@[58] as int) + (INV_MDS@[7] as int) * (MDS@[67] as int) + (INV_MDS@[8] as int) * (MDS@[76] as int)) % 340282366920938463463374557953744961537 == 0) by (nonlinear_arith)
        requires
            INV_MDS@[0] == 207704205238170807874062389651402246184, INV_MDS@[1] == 338985877705667148435373284629855945642, INV_MDS@[2] == 129028267600780770615661928550545766843, INV_MDS@[3] == 308035008707470404458798574304191182997, INV_MDS@[4] == 128520708499505858811967733849558211851, INV_MDS@[5] == 75192627449100971018093805348251269149, INV_MDS@[6] == 304723430247806995709152718418888185473, INV_MDS@[7] == 247138038315326480697662666345484012828, INV_MDS@[8] == 302366037761801343159474246624292948256, MDS@[4] == 364572438704838, MDS@[13] == 3578022083293731018, MDS@[22] == 26385516604305016476318, MDS@[31] == 179718510858368911187836077, MDS@[40] == 1193750249204165634400502061594, MDS@[49] == 7864291806006227817276975764611134, MDS@[58] == 51667907444403809555847542124007809234, MDS@[67] == 225693703897588175263197025163593303860, MDS@[76] == 58189218743095556616922042146577748196,
    ;
    assert(product_entry(INV_MDS@, MDS@, 9, 0, 5) == (INV_MDS@[0] as int) * (MDS@[5] as int) + (INV_MDS@[1] as int) * (MDS@[14] as int) + (INV_MDS@[2] as int) * (MDS@[23] as int) + (INV_MDS@[3] as int) * (MDS@[32] as int) + (INV_MDS@[4] as int) * (MDS@[41] as int) + (INV_MDS@[5] as int) * (MDS@[50] as int) + (INV_MDS@[6] as int) * (MDS@[59] as int) + (INV_MDS@[7] as int) * (MDS@[68] as int) + (INV_MDS@[8] as int) * (MDS@[77] as int));
    assert(((INV_MDS@[0] as int) * (MDS@[5] as int) + (INV_MDS@[1] as int) * (MDS@[14] as int) + (INV_MDS@[2] as int) * (MDS@[23] as int) + (INV_MDS@[3] as int) * (MDS@[32] as int) + (INV_MDS@[4] as int) * (MDS@[41] as int) + (INV_MDS@[5] as int) * (MDS@[50] as int) + (INV_MDS@[6] as int) * (MDS@[59] as int) + (INV_MDS@[7] as int) * (MDS@[68] as int) + (INV_MDS@[8] as int) * (MDS@[77] as int)) % 340282366920938463463374557953744961537 == 0) by (nonlinear_arith)
        requires
            INV_MDS@[0] == 207704205238170807874062389651402246184, INV_MDS@[1] == 338985877705667148435373284629855945642, INV_MDS@[2] == 129028267600780770615661928550545766843, INV_MDS@[3] == 308035008707470404458798574304191182997, INV_MDS@[4] == 128520708499505858811967733849558211851, INV_MDS@[5] == 75192627449100971018093805348251269149, INV_MDS@[6] == 304723430247806995709152718418888185473, INV_MDS@[7] == 247138038315326480697662666345484012828, INV_MDS@[8] == 302366037761801343159474246624292948256, MDS@[5] == 340282366920938463463374553452850656539, MDS@[14] == 340282366920938463463330629225328181057, MDS@[23] == 340282366920938463140023726422701560397, MDS@[32] == 340282366920936262382017994360084004737, MDS@[41] == 340282366906321119535778575950744594740, MDS@[50] == 340282270630051601091434166691585938497, MDS@[59] == 339649756075661666195744923271868570317, MDS@[68] == 271259291625999272530694212816871392781, MDS@[77] == 88532793352623448815797177624516430079,
    ;
    assert(product_entry(INV_MDS@, MDS@, 9, 0, 6) == (INV_MDS@[0] as int) * (MDS@[6] as int) + (INV_MDS@[1] as int) * (MDS@[15] as int) + (INV_MDS@[2] as int) * (MDS@[24] as int) + (INV_MDS@[3] as int) * (MDS@[33] as int) + (INV_MDS@[4] as int) * (MDS@[42] as int) + (INV_MDS@[5] as int) * (MDS@[51] as int) + (INV_MDS@[6] as int) * (MDS@[60] as int) + (INV_MDS@[7] as int) * (MDS@[69] as int) + (INV_MDS@[8] as int) * (MDS@[78] as int));
    assert(((INV_MDS@[0] as int) * (MDS@[6] as int) + (INV_MDS@[1] as int) * (MDS@[15] as int) + (INV_MDS@[2] as int) * (MDS@[24] as int) + (INV_MDS@[3] as int) * (MDS@[33] as int) + (INV_MDS@[4] as int) * (MDS@[42] as int) + (INV_MDS@[5] as int) * (MDS@[51] as int) + (INV_MDS@[6] as int) * (MDS@[60] as int) + (INV_MDS@[7] as int) * (MDS@[69] as int) + (INV_MDS@[8] as int) * (MDS@[78] as int)) % 340282366920938463463374557953744961537 == 0) by (nonlinear_arith)
        requires
            INV_MDS@[0] == 207704205238170807874062389651402246184, INV_MDS@[1] == 338985877705667148435373284629855945642, INV_MDS@[2] == 129028267600780770615661928550545766843, INV_MDS@[3] == 308035008707470404458798574304191182997, INV_MDS@[4] == 128520708499505858811967733849558211851, INV_MDS@[5] == 75192627449100971018093805348251269149, INV_MDS@[6] == 304723430247806995709152718418888185473, INV_MDS@[7] == 247138038315326480697662666345484012828, INV_MDS@[8] == 302366037761801343159474246624292948256, MDS@[6] == 18318658140, MDS@[15] == 175773020450742, MDS@[24] == 1286673036395336460, MDS@[33] == 8742448408061543808600, MDS@[42] == 58023022992049963173346020, MDS@[51] == 382145525879388576506005172823, MDS@[60] == 2510445527801052949502558181396180, MDS@[69] == 16478009365511174087881242740613722400, MDS@[78] == 257968030906974364479467734461159660011,
    ;
    assert(product_entry(INV_MDS@, MDS@, 9, 0, 7) == (INV_MDS@[0] as int) * (MDS@[7] as int) + (INV_MDS@[1] as int) * (MDS@[16] as int) + (INV_MDS@[2] as int) * (MDS@[25] as int) + (INV_MDS@[3] as int) * (MDS@[34] as int) + (INV_MDS@[4] as int) * (MDS@[43] as int) + (INV_MDS@[5] as int) * (MDS@[52] as int) + (INV_MDS@[6] as int) * (MDS@[61] as int) + (INV_MDS@[7] as int) * (MDS@[70] as int) + (INV_MDS@[8] as int) * (MDS@[79] as int));
    assert(((INV_MDS@[0] as int) * (MDS@[7] as int) + (INV_MDS@[1] as int) * (MDS@[16] as int) + (INV_MDS@[2] as int) * (MDS@[25] as int) + (INV_MDS@[3] as int) * (MDS@[34] as int) + (INV_MDS@[4] as int) * (MDS@[43] as int) + (INV_MDS@[5] as int) * (MDS@[52] as int) + (INV_MDS@[6] as int) * (MDS@[61] as int) + (INV_MDS@[7] as int) * (MDS@[70] as int) + (INV_MDS@[8] as int) * (MDS@[79] as int)) % 340282366920938463463374557953744961537 == 0) by (nonlinear_arith)
        requires
            INV_MDS@[0] == 207704205238170807874062389651402246184, INV_MDS@[1] == 338985877705667148435373284629855945642, INV_MDS@[2] == 129028267600780770615661928550545766843, INV_MDS@[3] == 308035008707470404458798574304191182997, INV_MDS@[4] == 128520708499505858811967733849558211851, INV_MDS@[5] == 75192627449100971018093805348251269149, INV_MDS@[6] == 304723430247806995709152718418888185473, INV_MDS@[7] == 247138038315326480697662666345484012828, INV_MDS@[8] == 302366037761801343159474246624292948256, MDS@[7] == 340282366920938463463374557953720752677, MDS@[16] == 340282366920938463463374557733824228417, MDS@[25] == 340282366920938463463372975281818522219, MDS@[34] == 340282366920938463452680404506994660737, MDS@[43] == 340282366920938392617192638478820451957, MDS@[52] == 340282366920472148038924217019224186177, MDS@[61] == 340282363858174627685294031214892512580, MDS@[70] == 340262264978264552243515110485852110337, MDS@[79] == 208377884906813703378925729595147376377,
    ;
    assert(product_entry(INV_MDS@, MDS@, 9, 0, 8) == (INV_MDS@[0] as int) * (MDS@[8] as int) + (INV_MDS@[1] as int) * (MDS@[17] as int) + (INV_MDS@[2] as int) * (MDS@[26] as int) + (INV_MDS@[3] as int) * (MDS@[35] as int) + (INV_MDS@[4] as int) * (MDS@[44] as int) + (INV_MDS@[5] as int) * (MDS@[53] as int) + (INV_MDS@[6] as int) * (MDS@[62] as int) + (INV_MDS@[7] as int) * (MDS@[71] as int) + (INV_MDS@[8] as int) * (MDS@[80] as int));
    assert(((INV_MDS@[0] as int) * (MDS@[8] as int) + (INV_MDS@[1] as int) * (MDS@[17] as int) + (INV_MDS@[2] as int) * (MDS@[26] as int) + (INV_MDS@[3] as int) * (MDS@[35] as int) + (INV_MDS@[4] as int) * (MDS@[44] as int) + (INV_MDS@[5] as int) * (MDS@[53] as int) + (INV_MDS@[6] as int) * (MDS@[62] as int) + (INV_MDS@[7] as int) * (MDS@[71] as int) + (INV_MDS@[8] as int) * (MDS@[80] as int)) % 340282366920938463463374557953744961537 == 0) by (nonlinear_arith)
        requires
            INV_MDS@[0] == 207704205238170807874062389651402246184, INV_MDS@[1] == 338985877705667148435373284629855945642, INV_MDS@[2] == 129028267600780770615661928550545766843, INV_MDS@[3] == 308035008707470404458798574304191182997, INV_MDS@[4] == 128520708499505858811967733849558211851, INV_MDS@[5] == 75192627449100971018093805348251269149, INV_MDS@[6] == 304723430247806995709152718418888185473, INV_MDS@[7] == 247138038315326480697662666345484012828, INV_MDS@[8] == 302366037761801343159474246624292948256, MDS@[8] == 9841, MDS@[17] == 72636421, MDS@[26] == 494894285941, MDS@[35] == 3287582741506063, MDS@[44] == 21658948312410865183, MDS@[53] == 142299528422960399756323, MDS@[62] == 934054234760012359481199283, MDS@[71] == 6129263888495201102915629695046, MDS@[80] == 40216143252770054194345243936096486,
    ;
}

proof fn lemma_product_backward_row_1()
    ensures
        identity_row(Elem::modulus(), INV_MDS@, MDS@, 9, 1, 9),
{
    reveal_with_fuel(sum, 10);
    reveal_with_fuel(identity_row, 10);
    assert(product_entry(INV_MDS@, MDS@, 9, 1, 0) == (INV_MDS@[9] as int) * (MDS@[0] as int) + (INV_MDS@[10] as int) * (MDS@[9] as int) + (INV_MDS@[11] as int) * (MDS@[18] as int) + (INV_MDS@[12] as int) * (MDS@[27] as int) + (INV_MDS@[13] as int) * (MDS@[36] as int) + (INV_MDS@[14] as int) * (MDS@[45] as int) + (INV_MDS@[15] as int) * (MDS@[54] as int) + (INV_MDS@[16] as int) * (MDS@[63] as int) + (INV_MDS@[17] as int) * (MDS@[72] as int));
    assert(((INV_MDS@[9] as int) * (MDS@[0] as int) + (INV_MDS@[10] as int) * (MDS@[9] as int) + (INV_MDS@[11] as int) * (MDS@[18] as int) + (INV_MDS@[12] as int) * (MDS@[27] as int) + (INV_MDS@[13] as int) * (MDS@[36] as int) + (INV_MDS@[14] as int) * (MDS@[45] as int) + (INV_MDS@[15] as int) * (MDS@[54] as int) + (INV_MDS@[16] as int) * (MDS@[63] as int) + (INV_MDS@[17] as int) * (MDS@[72] as int)) % 340282366920938463463374557953744961537 == 0) by (nonlinear_arith)
        requires
            INV_MDS@[9] == 127826805904477456371474222478224881465, INV_MDS@[10] == 58658143825271814927663889085592315510, INV_MDS@[11] == 312249633317719663349408437894842488201, INV_MDS@[12] == 214300933317574560218555665032290192921, INV_MDS@[13] == 284396721402661659389038897151481097747, INV_MDS@[14] == 250642028598419737645395164192907767034, INV_MDS@[15] == 326756605713292613148743956415561946579, INV_MDS@[16] == 64564033929793286393378167005124959170, INV_MDS@[17] == 62016928595481525873214390512699159059, MDS@[0] == 150094635296999121, MDS@[9] == 1477081305957768349761, MDS@[18] == 10902337119274288189585941, MDS@[27] == 74280977358883194447399657861, MDS@[36] == 493448532595061060714075927170623, MDS@[45] == 3250891947867863390247053555200504143, MDS@[54] == 260889072481016946483921979409357576789, MDS@[63] == 194542495007434960394582255983923586243, MDS@[72] == 188693918348033658130796882009222201279,
    ;
    assert(product_entry(INV_MDS@, MDS@, 9, 1, 1) == (INV_MDS@[9] as int) * (MDS@[1] as int) + (INV_MDS@[10] as int) * (MDS@[10] as int) + (INV_MDS@[11] as int) * (MDS@[19] as int) + (INV_MDS@[12] as int) * (MDS@[28] as int) + (INV_MDS@[13] as int) * (MDS@[37] as int) + (INV_MDS@[14] as int) * (MDS@[46] as int) + (INV_MDS@[15] as int) * (MDS@[55] as int) + (INV_MDS@[16] as int) * (MDS@[64] as int) + (INV_MDS@[17] as int) * (MDS@[73] as int));
    assert(((INV_MDS@[9] as int) * (MDS@[1] as int) + (INV_MDS@[10] as int) * (MDS@[10] as int) + (INV_MDS@[11] as int) * (MDS@[19] as int) + (INV_MDS@[12] as int) * (MDS@[28] as int) + (INV_MDS@[13] as int) * (MDS@[37] as int) + (INV_MDS@[14] as int) * (MDS@[46] as int) + (INV_MDS@[15] as int) * (MDS@[55] as int) + (INV_MDS@[16] as int) * (MDS@[64] as int) + (INV_MDS@[17] as int) * (MDS@[73] as int)) % 340282366920938463463374557953744961537 == 1) by (nonlinear_arith)
        requires
            INV_MDS@[9] == 127826805904477456371474222478224881465, INV_MDS@[10] == 58658143825271814927663889085592315510, INV_MDS@[11] == 312249633317719663349408437894842488201, INV_MDS@[12] == 214300933317574560218555665032290192921, INV_MDS@[13] == 284396721402661659389038897151481097747, INV_MDS@[14] == 250642028598419737645395164192907767034, INV_MDS@[15] == 326756605713292613148743956415561946579, INV_MDS@[16] == 64564033929793286393378167005124959170, INV_MDS@[17] == 62016928595481525873214390512699159059, MDS@[1] == 340282366920938463463149427439195690336, MDS@[10] == 340282366920938461248015258909664071617, MDS@[19] == 340282366920922112265621116423314299677, MDS@[28] == 340282366809533560559102349761084062337, MDS@[37] == 340281626860025222258639632111371827735, MDS@[46] == 335406770191301931314646938843156637377, MDS@[55] == 294109695457304815011263569543330296235, MDS@[64] == 104404390561882821492740793700399886259, MDS@[73] == 314243109041589500728057538205852247049,
    ;
    assert(product_entry(INV_MDS@, MDS@, 9, 1, 2) == (INV_MDS@[9] as int) * (MDS@[2] as int) + (INV_MDS@[10] as int) * (MDS@[11] as int) + (INV_MDS@[11] as int) * (MDS@[20] as int) + (INV_MDS@[12] as int) * (MDS@[29] as int) + (INV_MDS@[13] as int) * (MDS@[38] as int) + (INV_MDS@[14] as int) * (MDS@[47] as int) + (INV_MDS@[15] as int) * (MDS@[56] as int) + (INV_MDS@[16] as int) * (MDS@[65] as int) + (INV_MDS@[17] as int) * (MDS@[74] as int));
    assert(((INV_MDS@[9] as int) * (MDS@[2] as int) + (INV_MDS@[10] as int) * (MDS@[11] as int) + (INV_MDS@[11] as int) * (MDS@[20] as int) + (INV_MDS@[12] as int) * (MDS@[29] as int) + (INV_MDS@[13] as int) * (MDS@[38] as int) + (INV_MDS@[14] as int) * (MDS@[47] as int) + (INV_MDS@[15] as int) * (MDS@[56] as int) + (INV_MDS@[16] as int) * (MDS@[65] as int) + (INV_MDS@[17] as int) * (MDS@[74] as int)) % 340282366920938463463374557953744961537 == 0) by (nonlinear_arith)
        requires
            INV_MDS@[9] == 127826805904477456371474222478224881465, INV_MDS@[10] == 58658143825271814927663889085592315510, INV_MDS@[11] == 312249633317719663349408437894842488201, INV_MDS@[12] == 214300933317574560218555665032290192921, INV_MDS@[13] == 284396721402661659389038897151481097747, INV_MDS@[14] == 250642028598419737645395164192907767034, INV_MDS@[15] == 326756605713292613148743956415561946579, INV_MDS@[16] == 64564033929793286393378167005124959170, INV_MDS@[17] == 62016928595481525873214390512699159059, MDS@[2] == 84411075413992860, MDS@[11] == 830464262634554464059, MDS@[20] == 6129103051534490589064140, MDS@[29] == 41758207694766455878941719400, MDS@[38] == 277396989820105406282268067810980, MDS@[47] == 1827515058473445723489323454811459578, MDS@[56] == 96897786123648020966790891596799875825, MDS@[65] == 31015733125887000676791684053161446567, MDS@[74] == 274553328639948771850735264514343203581,
    ;
    assert(product_entry(INV_MDS@, MDS@, 9, 1, 3) == (INV_MDS@[9] as int) * (MDS@[3] as int) + (INV_MDS@[10] as int) * (MDS@[12] as int) + (INV_MDS@[11] as int) * (MDS@[21] as int) + (INV_MDS@[12] as int) * (MDS@[30] as int) + (INV_MDS@[13] as int) * (MDS@[39] as int) + (INV_MDS@[14] as int) * (MDS@[48] as int) + (INV_MDS@[15] as int) * (MDS@[57] as int) + (INV_MDS@[16] as int) * (MDS@[66] as int) + (INV_MDS@[17] as int) * (MDS@[75] as int));
    assert(((INV_MDS@[9] as int) * (MDS@[3] as int) + (INV_MDS@[10] as int) * (MDS@[12] as int) + (INV_MDS@[11] as int) * (MDS@[21] as int) + (INV_MDS@[12] as int) * (MDS@[30] as int) + (INV_MDS@[13] as int) * (MDS@[39] as int) + (INV_MDS@[14] as int) * (MDS@[48] as int) + (INV_MDS@[15] as int) * (MDS@[57] as int) + (INV_MDS@[16] as int) * (MDS@[66] as int) + (INV_MDS@[17] as int) * (MDS@[75] as int)) % 340282366920938463463374557953744961537 == 0) by (nonlinear_arith)
        requires
            INV_MDS@[9] == 127826805904477456371474222478224881465, INV_MDS@[10] == 58658143825271814927663889085592315510, INV_MDS@[11] == 312249633317719663349408437894842488201, INV_MDS@[12] == 214300933317574560218555665032290192921, INV_MDS@[13] == 284396721402661659389038897151481097747, INV_MDS@[14] == 250642028598419737645395164192907767034, INV_MDS@[15] == 326756605713292613148743956415561946579, INV_MDS@[16] == 64564033929793286393378167005124959170, INV_MDS@[17] == 62016928595481525873214390512699159059, MDS@[3] == 340282366920938463463364822667744381797, MDS@[12] == 340282366920938463367654019497453733057, MDS@[21] == 340282366920937757157506327072060715056, MDS@[30] == 340282366916126655152737768305002590337, MDS@[39] == 340282334957138432026603756253961717317, MDS@[48] == 340071788261635189888022255808831580097, MDS@[57] == 317912742718020576130300337690805571243, MDS@[66] == 177473572991922008668894803954934702656, MDS@[75] == 310813334522360543261976075967969844628,
    ;
    assert(product_entry(INV_MDS@, MDS@, 9, 1, 4) == (INV_MDS@[9] as int) * (MDS@[4] as int) + (INV_MDS@[10] as int) * (MDS@[13] as int) + (INV_MDS@[11] as int) * (MDS@[22] as int) + (INV_MDS@[12] as int) * (MDS@[31] as int) + (INV_MDS@[13] as int) * (MDS@[40] as int) + (INV_MDS@[14] as int) * (MDS@[49] as int) + (INV_MDS@[15] as int) * (MDS@[58] as int) + (INV_MDS@[16] as int) * (MDS@[67] as int) + (INV_MDS@[17] as int) * (MDS@[76] as int));
    assert(((INV_MDS@[9] as int) * (MDS@[4] as int) + (INV_MDS@[10] as int) * (MDS@[13] as int) + (INV_MDS@[11] as int) * (MDS@[22] as int) + (INV_MDS@[12] as int) * (MDS@[31] as int) + (INV_MDS@[13] as int) * (MDS@[40] as int) + (INV_MDS@[14] as int) * (MDS@[49] as int) + (INV_MDS@[15] as int) * (MDS@[58] as int) + (INV_MDS@[16] as int) * (MDS@[67] as int) + (INV_MDS@[17] as int) * (MDS@[76] as int)) % 340282366920938463463374557953744961537 == 0) by (nonlinear_arith)
        requires
            INV_MDS@[9] == 127826805904477456371474222478224881465, INV_MDS@[10] == 58658143825271814927663889085592315510, INV_MDS@[11] == 312249633317719663349408437894842488201, INV_MDS@[12] == 214300933317574560218555665032290192921, INV_MDS@[13] == 284396721402661659389038897151481097747, INV_MDS@[14] == 250642028598419737645395164192907767034, INV_MDS@[15] == 326756605713292613148743956415561946579, INV_MDS@[16] == 64564033929793286393378167005124959170, INV_MDS@[17] == 62016928595481525873214390512699159059, MDS@[4] == 364572438704838, MDS@[13] == 3578022083293731018, MDS@[22] == 26385516604305016476318, MDS@[31] == 179718510858368911187836077, MDS@[40] == 1193750249204165634400502061594, MDS@[49] == 7864291806006227817276975764611134, MDS@[58] == 51667907444403809555847542124007809234, MDS@[67] == 225693703897588175263197025163593303860, MDS@[76] == 58189218743095556616922042146577748196,
    ;
    assert(product_entry(INV_MDS@, MDS@, 9, 1, 5) == (INV_MDS@[9] as int) * (MDS@[5] as int) + (INV_MDS@[10] as int) * (MDS@[14] as int) + (INV_MDS@[11] as int) * (MDS@[23] as int) + (INV_MDS@[12] as int) * (MDS@[32] as int) + (INV_MDS@[13] as int) * (MDS@[41] as int) + (INV_MDS@[14] as int) * (MDS@[50] as int) + (INV_MDS@[15] as int) * (MDS@[59] as int) + (INV_MDS@[16] as int) * (MDS@[68] as int) + (INV_MDS@[17] as int) * (MDS@[77] as int));
    assert(((INV_MDS@[9] as int) * (MDS@[5] as int) + (INV_MDS@[10] as int) * (MDS@[14] as int) + (INV_MDS@[11] as int) * (MDS@[23] as int) + (INV_MDS@[12] as int) * (MDS@[32] as int) + (INV_MDS@[13] as int) * (MDS@[41] as int) + (INV_MDS@[14] as int) * (MDS@[50] as int) + (INV_MDS@[15] as int) * (MDS@[59] as int) + (INV_MDS@[16] as int) * (MDS@[68] as int) + (INV_MDS@[17] as int) * (MDS@[77] as int)) % 340282366920938463463374557953744961537 == 0) by (nonlinear_arith)
        requires
            INV_MDS@[9] == 127826805904477456371474222478224881465, INV_MDS@[10] == 58658143825271814927663889085592315510, INV_MDS@[11] == 312249633317719663349408437894842488201, INV_MDS@[12] == 214300933317574560218555665032290192921, INV_MDS@[13] == 284396721402661659389038897151481097747, INV_MDS@[14] == 250642028598419737645395164192907767034, INV_MDS@[15] == 326756605713292613148743956415561946579, INV_MDS@[16] == 64564033929793286393378167005124959170, INV_MDS@[17] == 62016928595481525873214390512699159059, MDS@[5] == 340282366920938463463374553452850656539, MDS@[14] == 340282366920938463463330629225328181057, MDS@[23] == 340282366920938463140023726422701560397, MDS@[32] == 340282366920936262382017994360084004737, MDS@[41] == 340282366906321119535778575950744594740, MDS@[50] == 340282270630051601091434166691585938497, MDS@[59] == 339649756075661666195744923271868570317, MDS@[68] == 271259291625999272530694212816871392781, MDS@[77] == 88532793352623448815797177624516430079,
    ;
    assert(product_entry(INV_MDS@, MDS@, 9, 1, 6) == (INV_MDS@[9] as int) * (MDS@[6] as int) + (INV_MDS@[10] as int) * (MDS@[15] as int) + (INV_MDS@[11] as int) * (MDS@[24] as int) + (INV_MDS@[12] as int) * (MDS@[33] as int) + (INV_MDS@[13] as int) * (MDS@[42] as int) + (INV_MDS@[14] as int) * (MDS@[51] as int) + (INV_MDS@[15] as int) * (MDS@[60] as int) + (INV_MDS@[16] as int) * (MDS@[69] as int) + (INV_MDS@[17] as int) * (MDS@[78] as int));
    assert(((INV_MDS@[9] as int) * (MDS@[6] as int) + (INV_MDS@[10] as int) * (MDS@[15] as int) + (INV_MDS@[11] as int) * (MDS@[24] as int) + (INV_MDS@[12] as int) * (MDS@[33] as int) + (INV_MDS@[13] as int) * (MDS@[42] as int) + (INV_MDS@[14] as int) * (MDS@[51] as int) + (INV_MDS@[15] as int) * (MDS@[60] as int) + (INV_MDS@[16] as int) * (MDS@[69] as int) + (INV_MDS@[17] as int) * (MDS@[78] as int)) % 340282366920938463463374557953744961537 == 0) by (nonlinear_arith)
        requires
            INV_MDS@[9] == 127826805904477456371474222478224881465, INV_MDS@[10] == 58658143825271814927663889085592315510, INV_MDS@[11] == 312249633317719663349408437894842488201, INV_MDS@[12] == 214300933317574560218555665032290192921, INV_MDS@[13] == 284396721402661659389038897151481097747, INV_MDS@[14] == 250642028598419737645395164192907767034, INV_MDS@[15] == 326756605713292613148743956415561946579, INV_MDS@[16] == 64564033929793286393378167005124959170, INV_MDS@[17] == 62016928595481525873214390512699159059, MDS@[6] == 18318658140, MDS@[15] == 175773020450742, MDS@[24] == 1286673036395336460, MDS@[33] == 8742448408061543808600, MDS@[42] == 58023022992049963173346020, MDS@[51] == 382145525879388576506005172823, MDS@[60] == 2510445527801052949502558181396180, MDS@[69] == 16478009365511174087881242740613722400, MDS@[78] == 257968030906974364479467734461159660011,
    ;
    assert(product_entry(INV_MDS@, MDS@, 9, 1, 7) == (INV_MDS@[9] as int) * (MDS@[7] as int) + (INV_MDS@[10] as int) * (MDS@[16] as int) + (INV_MDS@[11] as int) * (MDS@[25] as int) + (INV_MDS@[12] as int) * (MDS@[34] as int) + (INV_MDS@[13] as int) * (MDS@[43] as int) + (INV_MDS@[14] as int) * (MDS@[52] as int) + (INV_MDS@[15] as int) * (MDS@[61] as int) + (INV_MDS@[16] as int) * (MDS@[70] as int) + (INV_MDS@[17] as int) * (MDS@[79] as int));
    assert(((INV_MDS@[9] as int) * (MDS@[7] as int) + (INV_MDS@[10] as int) * (MDS@[16] as int) + (INV_MDS@[11] as int) * (MDS@[25] as int) + (INV_MDS@[12] as int) * (MDS@[34] as int) + (INV_MDS@[13] as int) * (MDS@[43] as int) + (INV_MDS@[14] as int) * (MDS@[52] as int) + (INV_MDS@[15] as int) * (MDS@[61] as int) + (INV_MDS@[16] as int) * (MDS@[70] as int) + (INV_MDS@[17] as int) * (MDS@[79] as int)) % 340282366920938463463374557953744961537 == 0) by (nonlinear_arith)
        requires
            INV_MDS@[9] == 127826805904477456371474222478224881465, INV_MDS@[10] == 58658143825271814927663889085592315510, INV_MDS@[11] == 312249633317719663349408437894842488201, INV_MDS@[12] == 214300933317574560218555665032290192921, INV_MDS@[13] == 284396721402661659389038897151481097747, INV_MDS@[14] == 250642028598419737645395164192907767034, INV_MDS@[15] == 326756605713292613148743956415561946579, INV_MDS@[16] == 64564033929793286393378167005124959170, INV_MDS@[17] == 62016928595481525873214390512699159059, MDS@[7] == 340282366920938463463374557953720752677, MDS@[16] == 340282366920938463463374557733824228417, MDS@[25] == 340282366920938463463372975281818522219, MDS@[34] == 340282366920938463452680404506994660737, MDS@[43] == 340282366920938392617192638478820451957, MDS@[52] == 340282366920472148038924217019224186177, MDS@[61] == 340282363858174627685294031214892512580, MDS@[70] == 340262264978264552243515110485852110337, MDS@[79] == 208377884906813703378925729595147376377,
    ;
    assert(product_entry(INV_MDS@, MDS@, 9, 1, 8) == (INV_MDS@[9] as int) * (MDS@[8] as int) + (INV_MDS@[10] as int) * (MDS@[17] as int) + (INV_MDS@[11] as int) * (MDS@[26] as int) + (INV_MDS@[12] as int) * (MDS@[35] as int) + (INV_MDS@[13] as int) * (MDS@[44] as int) + (INV_MDS@[14] as int) * (MDS@[53] as int) + (INV_MDS@[15] as int) * (MDS@[62] as int) + (INV_MDS@[16] as int) * (MDS@[71] as int) + (INV_MDS@[17] as int) * (MDS@[80] as int));
    assert(((INV_MDS@[9] as int) * (MDS@[8] as int) + (INV_MDS@[10] as int) * (MDS@[17] as int) + (INV_MDS@[11] as int) * (MDS@[26] as int) + (INV_MDS@[12] as int) * (MDS@[35] as int) + (INV_MDS@[13] as int) * (MDS@[44] as int) + (INV_MDS@[14] as int) * (MDS@[53] as int) + (INV_MDS@[15] as int) * (MDS@[62] as int) + (INV_MDS@[16] as int) * (MDS@[71] as int) + (INV_MDS@[17] as int) * (MDS@[80] as int)) % 340282366920938463463374557953744961537 == 0) by (nonlinear_arith)
        requires
            INV_MDS@[9] == 127826805904477456371474222478224881465, INV_MDS@[10] == 58658143825271814927663889085592315510, INV_MDS@[11] == 312249633317719663349408437894842488201, INV_MDS@[12] == 214300933317574560218555665032290192921, INV_MDS@[13] == 284396721402661659389038897151481097747, INV_MDS@[14] == 250642028598419737645395164192907767034, INV_MDS@[15] == 326756605713292613148743956415561946579, INV_MDS@[16] == 64564033929793286393378167005124959170, INV_MDS@[17] == 62016928595481525873214390512699159059, MDS@[8] == 9841, MDS@[17] == 72636421, MDS@[26] == 494894285941, MDS@[35] == 3287582741506063, MDS@[44] == 21658948312410865183, MDS@[53] == 142299528422960399756323, MDS@[62] == 934054234760012359481199283, MDS@[71] == 6129263888495201102915629695046, MDS@[80] == 40216143252770054194345243936096486,
    ;
}

proof fn lemma_product_backward_row_2()
    ensures
        identity_row(Elem::modulus(), INV_MDS@, MDS@, 9, 2, 9),
{
    reveal_with_fuel(sum, 10);
    reveal_with_fuel(identity_row, 10);
    assert(product_entry(INV_MDS@, MDS@, 9, 2, 0) == (INV_MDS@[18] as int) * (MDS@[0] as int) + (INV_MDS@[19] as int) * (MDS@[9] as int) + (INV_MDS@[20] as int) * (MDS@[18] as int) + (INV_MDS@[21] as int) * (MDS@[27] as int) + (INV_MDS@[22] as int) * (MDS@[36] as int) + (INV_MDS@[23] as int) * (MDS@[45] as int) + (INV_MDS@[24] as int) * (MDS@[54] as int) + (INV_MDS@[25] as int) * (MDS@[63] as int) + (INV_MDS@[26] as int) * (MDS@[72] as int));
    assert(((INV_MDS@[18] as int) * (MDS@[0] as int) + (INV_MDS@[19] as int) * (MDS@[9] as int) + (INV_MDS@[20] as int) * (MDS@[18] as int) + (INV_MDS@[21] as int) * (MDS@[27] as int) + (INV_MDS@[22] as int) * (MDS@[36] as int) + (INV_MDS@[23] as int) * (MDS@[45] as int) + (INV_MDS@[24] as int) * (MDS@[54] as int) + (INV_MDS@[25] as int) * (MDS@[63] as int) + (INV_MDS@[26] as int) * (MDS@[72] as int)) % 340282366920938463463374557953744961537 == 0) by (nonlinear_arith)
        requires
            INV_MDS@[18] == 248581119490725734937433971221259595049, INV_MDS@[19] == 205001520256672409877405228205435574405, INV_MDS@[20] == 200096610221992325040847115543314292955, INV_MDS@[21] == 15223170475099380041360367767094442338, INV_MDS@[22] == 235366553140646608237869232108973717383, INV_MDS@[23] == 162307162630682801506851542241168907512, INV_MDS@[24] == 52675509994437226630257244779552696631, INV_MDS@[25] == 335285735573611416179235296489092358465, INV_MDS@[26] == 246874452820824414865612791412833222948, MDS@[0] == 150094635296999121, MDS@[9] == 1477081305957768349761, MDS@[18] == 10902337119274288189585941, MDS@[27] == 74280977358883194447399657861, MDS@[36] == 493448532595061060714075927170623, MDS@[45] == 3250891947867863390247053555200504143, MDS@[54] == 260889072481016946483921979409357576789, MDS@[63] == 194542495007434960394582255983923586243, MDS@[72] == 188693918348033658130796882009222201279,
    ;
    assert(product_entry(INV_MDS@, MDS@, 9, 2, 1) == (INV_MDS@[18] as int) * (MDS@[1] as int) + (INV_MDS@[19] as int) * (MDS@[10] as int) + (INV_MDS@[20] as int) * (MDS@[19] as int) + (INV_MDS@[21] as int) * (MDS@[28] as int) + (INV_MDS@[22] as int) * (MDS@[37] as int) + (INV_MDS@[23] as int) * (MDS@[46] as int) + (INV_MDS@[24] as int) * (MDS@[55] as int) + (INV_MDS@[25] as int) * (MDS@[64] as int) + (INV_MDS@[26] as int) * (MDS@[73] as int));
    assert(((INV_MDS@[18] as int) * (MDS@[1] as int) + (INV_MDS@[19] as int) * (MDS@[10] as int) + (INV_MDS@[20] as int) * (MDS@[19] as int) + (INV_MDS@[21] as int) * (MDS@[28] as int) + (INV_MDS@[22] as int) * (MDS@[37] as int) + (INV_MDS@[23] as int) * (MDS@[46] as int) + (INV_MDS@[24] as int) * (MDS@[55] as int) + (INV_MDS@[25] as int) * (MDS@[64] as int) + (INV_MDS@[26] as int) * (MDS@[73] as int)) % 340282366920938463463374557953744961537 == 0) by (nonlinear_arith)
        requires
            INV_MDS@[18] == 248581119490725734937433971221259595049, INV_MDS@[19] == 205001520256672409877405228205435574405, INV_MDS@[20] == 200096610221992325040847115543314292955, INV_MDS@[21] == 15223170475099380041360367767094442338, INV_MDS@[22] == 235366553140646608237869232108973717383, INV_MDS@[23] == 162307162630682801506851542241168907512, INV_MDS@[24] == 52675509994437226630257244779552696631, INV_MDS@[25] == 335285735573611416179235296489092358465, INV_MDS@[26] == 246874452820824414865612791412833222948, MDS@[1] == 340282366920938463463149427439195690336, MDS@[10] == 340282366920938461248015258909664071617, MDS@[19] == 340282366920922112265621116423314299677, MDS@[28] == 340282366809533560559102349761084062337, MDS@[37] == 340281626860025222258639632111371827735, MDS@[46] == 335406770191301931314646938843156637377, MDS@[55] == 294109695457304815011263569543330296235, MDS@[64] == 104404390561882821492740793700399886259, MDS@[73] == 314243109041589500728057538205852247049,
    ;
    assert(product_entry(INV_MDS@, MDS@, 9, 2, 2) == (INV_MDS@[18] as int) * (MDS@[2] as int) + (INV_MDS@[19] as int) * (MDS@[11] as int) + (INV_MDS@[20] as int) * (MDS@[20] as int) + (INV_MDS@[21] as int) * (MDS@[29] as int) + (INV_MDS@[22] as int) * (MDS@[38] as int) + (INV_MDS@[23] as int) * (MDS@[47] as int) + (INV_MDS@[24] as int) * (MDS@[56] as int) + (INV_MDS@[25] as int) * (MDS@[65] as int) + (INV_MDS@[26] as int) * (MDS@[74] as int));
    assert(((INV_MDS@[18] as int) * (MDS@[2] as int) + (INV_MDS@[19] as int) * (MDS@[11] as int) + (INV_MDS@[20] as int) * (MDS@[20] as int) + (INV_MDS@[21] as int) * (MDS@[29] as int) + (INV_MDS@[22] as int) * (MDS@[38] as int) + (INV_MDS@[23] as int) * (MDS@[47] as int) + (INV_MDS@[24] as int) * (MDS@[56] as int) + (INV_MDS@[25] as int) * (MDS@[65] as int) + (INV_MDS@[26] as int) * (MDS@[74] as int)) % 340282366920938463463374557953744961537 == 1) by (nonlinear_arith)
        requires
            INV_MDS@[18] == 248581119490725734937433971221259595049, INV_MDS@[19] == 205001520256672409877405228205435574405, INV_MDS@[20] == 200096610221992325040847115543314292955, INV_MDS@[21] == 15223170475099380041360367767094442338, INV_MDS@[22] == 235366553140646608237869232108973717383, INV_MDS@[23] == 162307162630682801506851542241168907512, INV_MDS@[24] == 52675509994437226630257244779552696631, INV_MDS@[25] == 335285735573611416179235296489092358465, INV_MDS@[26] == 246874452820824414865612791412833222948, MDS@[2] == 84411075413992860, MDS@[11] == 830464262634554464059, MDS@[20] == 6129103051534490589064140, MDS@[29] == 41758207694766455878941719400, MDS@[38] == 277396989820105406282268067810980, MDS@[47] == 1827515058473445723489323454811459578, MDS@[56] == 96897786123648020966790891596799875825, MDS@[65] == 31015733125887000676791684053161446567, MDS@[74] == 274553328639948771850735264514343203581,
    ;
    assert(product_entry(INV_MDS@, MDS@, 9, 2, 3) == (INV_MDS@[18] as int) * (MDS@[3] as int) + (INV_MDS@[19] as int) * (MDS@[12] as int) + (INV_MDS@[20] as int) * (MDS@[21] as int) + (INV_MDS@[21] as int) * (MDS@[30] as int) + (INV_MDS@[22] as int) * (MDS@[39] as int) + (INV_MDS@[23] as int) * (MDS@[48] as int) + (INV_MDS@[24] as int) * (MDS@[57] as int) + (INV_MDS@[25] as int) * (MDS@[66] as int) + (INV_MDS@[26] as int) * (MDS@[75] as int));
    assert(((INV_MDS@[18] as int) * (MDS@[3] as int) + (INV_MDS@[19] as int) * (MDS@[12] as int) + (INV_MDS@[20] as int) * (MDS@[21] as int) + (INV_MDS@[21] as int) * (MDS@[30] as int) + (INV_MDS@[22] as int) * (MDS@[39] as int) + (INV_MDS@[23] as int) * (MDS@[48] as int) + (INV_MDS@[24] as int) * (MDS@[57] as int) + (INV_MDS@[25] as int) * (MDS@[66] as int) + (INV_MDS@[26] as int) * (MDS@[75] as int)) % 340282366920938463463374557953744961537 == 0) by (nonlinear_arith)
        requires
            INV_MDS@[18] == 248581119490725734937433971221259595049, INV_MDS@[19] == 205001520256672409877405228205435574405, INV_MDS@[20] == 200096610221992325040847115543314292955, INV_MDS@[21] == 15223170475099380041360367767094442338, INV_MDS@[22] == 235366553140646608237869232108973717383, INV_MDS@[23] == 162307162630682801506851542241168907512, INV_MDS@[24] == 52675509994437226630257244779552696631, INV_MDS@[25] == 335285735573611416179235296489092358465, INV_MDS@[26] == 246874452820824414865612791412833222948, MDS@[3] == 340282366920938463463364822667744381797, MDS@[12] == 340282366920938463367654019497453733057, MDS@[21] == 340282366920937757157506327072060715056, MDS@[30] == 340282366916126655152737768305002590337, MDS@[39] == 340282334957138432026603756253961717317, MDS@[48] == 340071788261635189888022255808831580097, MDS@[57] == 317912742718020576130300337690805571243, MDS@[66] == 177473572991922008668894803954934702656, MDS@[75] == 310813334522360543261976075967969844628,
    ;
    assert(product_entry(INV_MDS@, MDS@, 9, 2, 4) == (INV_MDS@[18] as int) * (MDS@[4] as int) + (INV_MDS@[19] as int) * (MDS@[13] as int) + (INV_MDS@[20] as int) * (MDS@[22] as int) + (INV_MDS@[21] as int) * (MDS@[31] as int) + (INV_MDS@[22] as int) * (MDS@[40] as int) + (INV_MDS@[23] as int) * (MDS@[49] as int) + (INV_MDS@[24] as int) * (MDS@[58] as int) + (INV_MDS@[25] as int) * (MDS@[67] as int) + (INV_MDS@[26] as int) * (MDS@[76] as int));
    assert(((INV_MDS@[18] as int) * (MDS@[4] as int) + (INV_MDS@[19] as int) * (MDS@[13] as int) + (INV_MDS@[20] as int) * (MDS@[22] as int) + (INV_MDS@[21] as int) * (MDS@[31] as int) + (INV_MDS@[22] as int) * (MDS@[40] as int) + (INV_MDS@[23] as int) * (MDS@[49] as int) + (INV_MDS@[24] as int) * (MDS@[58] as int) + (INV_MDS@[25] as int) * (MDS@[67] as int) + (INV_MDS@[26] as int) * (MDS@[76] as int)) % 340282366920938463463374557953744961537 == 0) by (nonlinear_arith)
        requires
            INV_MDS@[18] == 248581119490725734937433971221259595049, INV_MDS@[19] == 205001520256672409877405228205435574405, INV_MDS@[20] == 200096610221992325040847115543314292955, INV_MDS@[21] == 15223170475099380041360367767094442338, INV_MDS@[22] == 235366553140646608237869232108973717383, INV_MDS@[23] == 162307162630682801506851542241168907512, INV_MDS@[24] == 52675509994437226630257244779552696631, INV_MDS@[25] == 335285735573611416179235296489092358465, INV_MDS@[26] == 246874452820824414865612791412833222948, MDS@[4] == 364572438704838, MDS@[13] == 3578022083293731018, MDS@[22] == 26385516604305016476318, MDS@[31] == 179718510858368911187836077, MDS@[40] == 1193750249204165634400502061594, MDS@[49] == 7864291806006227817276975764611134, MDS@[58] == 51667907444403809555847542124007809234, MDS@[67] == 225693703897588175263197025163593303860, MDS@[76] == 58189218743095556616922042146577748196,
    ;
    assert(product_entry(INV_MDS@, MDS@, 9, 2, 5) == (INV_MDS@[18] as int) * (MDS@[5] as int) + (INV_MDS@[19] as int) * (MDS@[14] as int) + (INV_MDS@[20] as int) * (MDS@[23] as int) + (INV_MDS@[21] as int) * (MDS@[32] as int) + (INV_MDS@[22] as int) * (MDS@[41] as int) + (INV_MDS@[23] as int) * (MDS@[50] as int) + (INV_MDS@[24] as int) * (MDS@[59] as int) + (INV_MDS@[25] as int) * (MDS@[68] as int) + (INV_MDS@[26] as int) * (MDS@[77] as int));
    assert(((INV_MDS@[18] as int) * (MDS@[5] as int) + (INV_MDS@[19] as int) * (MDS@[14] as int) + (INV_MDS@[20] as int) * (MDS@[23] as int) + (INV_MDS@[21] as int) * (MDS@[32] as int) + (INV_MDS@[22] as int) * (MDS@[41] as int) + (INV_MDS@[23] as int) * (MDS@[50] as int) + (INV_MDS@[24] as int) * (MDS@[59] as int) + (INV_MDS@[25] as int) * (MDS@[68] as int) + (INV_MDS@[26] as int) * (MDS@[77] as int)) % 340282366920938463463374557953744961537 == 0) by (nonlinear_arith)
        requires
            INV_MDS@[18] == 248581119490725734937433971221259595049, INV_MDS@[19] == 205001520256672409877405228205435574405, INV_MDS@[20] == 200096610221992325040847115543314292955, INV_MDS@[21] == 15223170475099380041360367767094442338, INV_MDS@[22] == 235366553140646608237869232108973717383, INV_MDS@[23] == 162307162630682801506851542241168907512, INV_MDS@[24] == 52675509994437226630257244779552696631, INV_MDS@[25] == 335285735573611416179235296489092358465, INV_MDS@[26] == 246874452820824414865612791412833222948, MDS@[5] == 340282366920938463463374553452850656539, MDS@[14] == 340282366920938463463330629225328181057, MDS@[23] == 340282366920938463140023726422701560397, MDS@[32] == 340282366920936262382017994360084004737, MDS@[41] == 340282366906321119535778575950744594740, MDS@[50] == 340282270630051601091434166691585938497, MDS@[59] == 339649756075661666195744923271868570317, MDS@[68] == 271259291625999272530694212816871392781, MDS@[77] == 88532793352623448815797177624516430079,
    ;
    assert(product_entry(INV_MDS@, MDS@, 9, 2, 6) == (INV_MDS@[18] as int) * (MDS@[6] as int) + (INV_MDS@[19] as int) * (MDS@[15] as int) + (INV_MDS@[20] as int) * (MDS@[24] as int) + (INV_MDS@[21] as int) * (MDS@[33] as int) + (INV_MDS@[22] as int) * (MDS@[42] as int) + (INV_MDS@[23] as int) * (MDS@[51] as int) + (INV_MDS@[24] as int) * (MDS@[60] as int) + (INV_MDS@[25] as int) * (MDS@[69] as int) + (INV_MDS@[26] as int) * (MDS@[78] as int));
    assert(((INV_MDS@[18] as int) * (MDS@[6] as int) + (INV_MDS@[19] as int) * (MDS@[15] as int) + (INV_MDS@[20] as int) * (MDS@[24] as int) + (INV_MDS@[21] as int) * (MDS@[33] as int) + (INV_MDS@[22] as int) * (MDS@[42] as int) + (INV_MDS@[23] as int) * (MDS@[51] as int) + (INV_MDS@[24] as int) * (MDS@[60] as int) + (INV_MDS@[25] as int) * (MDS@[69] as int) + (INV_MDS@[26] as int) * (MDS@[78] as int)) % 340282366920938463463374557953744961537 == 0) by (nonlinear_arith)
        requires
            INV_MDS@[18] == 248581119490725734937433971221259595049, INV_MDS@[19] == 205001520256672409877405228205435574405, INV_MDS@[20] == 200096610221992325040847115543314292955, INV_MDS@[21] == 15223170475099380041360367767094442338, INV_MDS@[22] == 235366553140646608237869232108973717383, INV_MDS@[23] == 162307162630682801506851542241168907512, INV_MDS@[24] == 52675509994437226630257244779552696631, INV_MDS@[25] == 335285735573611416179235296489092358465, INV_MDS@[26] == 246874452820824414865612791412833222948, MDS@[6] == 18318658140, MDS@[15] == 175773020450742, MDS@[24] == 1286673036395336460, MDS@[33] == 8742448408061543808600, MDS@[42] == 58023022992049963173346020, MDS@[51] == 382145525879388576506005172823, MDS@[60] == 2510445527801052949502558181396180, MDS@[69] == 16478009365511174087881242740613722400, MDS@[78] == 257968030906974364479467734461159660011,
    ;
    assert(product_entry(INV_MDS@, MDS@, 9, 2, 7) == (INV_MDS@[18] as int) * (MDS@[7] as int) + (INV_MDS@[19] as int) * (MDS@[16] as int) + (INV_MDS@[20] as int) * (MDS@[25] as int) + (INV_MDS@[21] as int) * (MDS@[34] as int) + (INV_MDS@[22] as int) * (MDS@[43] as int) + (INV_MDS@[23] as int) * (MDS@[52] as int) + (INV_MDS@[24] as int) * (MDS@[61] as int) + (INV_MDS@[25] as int) * (MDS@[70] as int) + (INV_MDS@[26] as int) * (MDS@[79] as int));
    assert(((INV_MDS@[18] as int) * (MDS@[7] as int) + (INV_MDS@[19] as int) * (MDS@[16] as int) + (INV_MDS@[20] as int) * (MDS@[25] as int) + (INV_MDS@[21] as int) * (MDS@[34] as int) + (INV_MDS@[22] as int) * (MDS@[43] as int) + (INV_MDS@[23] as int) * (MDS@[52] as int) + (INV_MDS@[24] as int) * (MDS@[61] as int) + (INV_MDS@[25] as int) * (MDS@[70] as int) + (INV_MDS@[26] as int) * (MDS@[79] as int)) % 340282366920938463463374557953744961537 == 0) by (nonlinear_arith)
        requires
            INV_MDS@[18] == 248581119490725734937433971221259595049, INV_MDS@[19] == 205001520256672409877405228205435574405, INV_MDS@[20] == 200096610221992325040847115543314292955, INV_MDS@[21] == 15223170475099380041360367767094442338, INV_MDS@[22] == 235366553140646608237869232108973717383, INV_MDS@[23] == 162307162630682801506851542241168907512, INV_MDS@[24] == 52675509994437226630257244779552696631, INV_MDS@[25] == 335285735573611416179235296489092358465, INV_MDS@[26] == 246874452820824414865612791412833222948, MDS@[7] == 340282366920938463463374557953720752677, MDS@[16] == 340282366920938463463374557733824228417, MDS@[25] == 340282366920938463463372975281818522219, MDS@[34] == 340282366920938463452680404506994660737, MDS@[43] == 340282366920938392617192638478820451957, MDS@[52] == 340282366920472148038924217019224186177, MDS@[61] == 340282363858174627685294031214892512580, MDS@[70] == 340262264978264552243515110485852110337, MDS@[79] == 208377884906813703378925729595147376377,
    ;
    assert(product_entry(INV_MDS@, MDS@, 9, 2, 8) == (INV_MDS@[18] as int) * (MDS@[8] as int) + (INV_MDS@[19] as int) * (MDS@[17] as int) + (INV_MDS@[20] as int) * (MDS@[26] as int) + (INV_MDS@[21] as int) * (MDS@[35] as int) + (INV_MDS@[22] as int) * (MDS@[44] as int) + (INV_MDS@[23] as int) * (MDS@[53] as int) + (INV_MDS@[24] as int) * (MDS@[62] as int) + (INV_MDS@[25] as int) * (MDS@[71] as int) + (INV_MDS@[26] as int) * (MDS@[80] as int));
    assert(((INV_MDS@[18] as int) * (MDS@[8] as int) + (INV_MDS@[19] as int) * (MDS@[17] as int) + (INV_MDS@[20] as int) * (MDS@[26] as int) + (INV_MDS@[21] as int) * (MDS@[35] as int) + (INV_MDS@[22] as int) * (MDS@[44] as int) + (INV_MDS@[23] as int) * (MDS@[53] as int) + (INV_MDS@[24] as int) * (MDS@[62] as int) + (INV_MDS@[25] as int) * (MDS@[71] as int) + (INV_MDS@[26] as int) * (MDS@[80] as int)) % 340282366920938463463374557953744961537 == 0) by (nonlinear_arith)
        requires
            INV_MDS@[18] == 248581119490725734937433971221259595049, INV_MDS@[19] == 205001520256672409877405228205435574405, INV_MDS@[20] == 200096610221992325040847115543314292955, INV_MDS@[21] == 15223170475099380041360367767094442338, INV_MDS@[22] == 235366553140646608237869232108973717383, INV_MDS@[23] == 162307162630682801506851542241168907512, INV_MDS@[24] == 52675509994437226630257244779552696631, INV_MDS@[25] == 335285735573611416179235296489092358465, INV_MDS@[26] == 246874452820824414865612791412833222948, MDS@[8] == 9841, MDS@[17] == 72636421, MDS@[26] == 494894285941, MDS@[35] == 3287582741506063, MDS@[44] == 21658948312410865183, MDS@[53] == 142299528422960399756323, MDS@[62] == 934054234760012359481199283, MDS@[71] == 6129263888495201102915629695046, MDS@[80] == 40216143252770054194345243936096486,
    ;
}

proof fn lemma_product_backward_row_3()
    ensures
        identity_row(Elem::modulus(), INV_MDS@, MDS@, 9, 3, 9),
{
    reveal_with_fuel(sum, 10);
    reveal_with_fuel(identity_row, 10);
    assert(product_entry(INV_MDS@, MDS@, 9, 3, 0) == (INV_MDS@[27] as int) * (MDS@[0] as int) + (INV_MDS@[28] as int) * (MDS@[9] as int) + (INV_MDS@[29] as int) * (MDS@[18] as int) + (INV_MDS@[30] as int) * (MDS@[27] as int) + (INV_MDS@[31] as int) * (MDS@[36] as int) + (INV_MDS@[32] as int) * (MDS@[45] as int) + (INV_MDS@[33] as int) * (MDS@[54] as int) + (INV_MDS@[34] as int) * (MDS@[63] as int) + (INV_MDS@[35] as int) * (MDS@[72] as int));
    assert(((INV_MDS@[27] as int) * (MDS@[0] as int) + (INV_MDS@[28] as int) * (MDS@[9] as int) + (INV_MDS@[29] as int) * (MDS@[18] as int) + (INV_MDS@[30] as int) * (MDS@[27] as int) + (INV_MDS@[31] as int) * (MDS@[36] as int) + (INV_MDS@[32] as int) * (MDS@[45] as int) + (INV_MDS@[33] as int) * (MDS@[54] as int) + (INV_MDS@[34] as int) * (MDS@[63] as int) + (INV_MDS@[35] as int) * (MDS@[72] as int)) % 340282366920938463463374557953744961537 == 0) by (nonlinear_arith)
        requires
            INV_MDS@[27] == 283673471255946562146645390311833638442, INV_MDS@[28] == 209223032476035404560919156087419693012, INV_MDS@[29] == 211512112805934564584850722873108293522, INV_MDS@[30] == 239776030660594538269138961758799208508, INV_MDS@[31] == 68210418817622944190939851321990599837, INV_MDS@[32] == 222109338954160942132440798066799260073, INV_MDS@[33] == 258338197395874177917585304146894183425, INV_MDS@[34] == 338175469353412666797355362713810876851, INV_MDS@[35] == 210676129806048980180371800441814015553, MDS@[0] == 150094635296999121, MDS@[9] == 1477081305957768349761, MDS@[18] == 10902337119274288189585941, MDS@[27] == 74280977358883194447399657861, MDS@[36] == 493448532595061060714075927170623, MDS@[45] == 3250891947867863390247053555200504143, MDS@[54] == 260889072481016946483921979409357576789, MDS@[63] == 194542495007434960394582255983923586243, MDS@[72] == 188693918348033658130796882009222201279,
    ;
    assert(product_entry(INV_MDS@, MDS@, 9, 3, 1) == (INV_MDS@[27] as int) * (MDS@[1] as int) + (INV_MDS@[28] as int) * (MDS@[10] as int) + (INV_MDS@[29] as int) * (MDS@[19] as int) + (INV_MDS@[30] as int) * (MDS@[28] as int) + (INV_MDS@[31] as int) * (MDS@[37] as int) + (INV_MDS@[32] as int) * (MDS@[46] as int) + (INV_MDS@[33] as int) * (MDS@[55] as int) + (INV_MDS@[34] as int) * (MDS@[64] as int) + (INV_MDS@[35] as int) * (MDS@[73] as int));
    assert(((INV_MDS@[27] as int) * (MDS@[1] as int) + (INV_MDS@[28] as int) * (MDS@[10] as int) + (INV_MDS@[29] as int) * (MDS@[19] as int) + (INV_MDS@[30] as int) * (MDS@[28] as int) + (INV_MDS@[31] as int) * (MDS@[37] as int) + (INV_MDS@[32] as int) * (MDS@[46] as int) + (INV_MDS@[33] as int) * (MDS@[55] as int) + (INV_MDS@[34] as int) * (MDS@[64] as int) + (INV_MDS@[35] as int) * (MDS@[73] as int)) % 340282366920938463463374557953744961537 == 0) by (nonlinear_arith)
        requires
            INV_MDS@[27] == 283673471255946562146645390311833638442, INV_MDS@[28] == 209223032476035404560919156087419693012, INV_MDS@[29] == 211512112805934564584850722873108293522, INV_MDS@[30] == 239776030660594538269138961758799208508, INV_MDS@[31] == 68210418817622944190939851321990599837, INV_MDS@[32] == 222109338954160942132440798066799260073, INV_MDS@[33] == 258338197395874177917585304146894183425, INV_MDS@[34] == 338175469353412666797355362713810876851, INV_MDS@[35] == 210676129806048980180371800441814015553, MDS@[1] == 340282366920938463463149427439195690336, MDS@[10] == 340282366920938461248015258909664071617, MDS@[19] == 340282366920922112265621116423314299677, MDS@[28] == 340282366809533560559102349761084062337, MDS@[37] == 340281626860025222258639632111371827735, MDS@[46] == 335406770191301931314646938843156637377, MDS@[55] == 294109695457304815011263569543330296235, MDS@[64] == 104404390561882821492740793700399886259, MDS@[73] == 314243109041589500728057538205852247049,
    ;
    assert(product_entry(INV_MDS@, MDS@, 9, 3, 2) == (INV_MDS@[27] as int) * (MDS@[2] as int) + (INV_MDS@[28] as int) * (MDS@[11] as int) + (INV_MDS@[29] as int) * (MDS@[20] as int) + (INV_MDS@[30] as int) * (MDS@[29] as int) + (INV_MDS@[31] as int) * (MDS@[38] as int) + (INV_MDS@[32] as int) * (MDS@[47] as int) + (INV_MDS@[33] as int) * (MDS@[56] as int) + (INV_MDS@[34] as int) * (MDS@[65] as int) + (INV_MDS@[35] as int) * (MDS@[74] as int));
    assert(((INV_MDS@[27] as int) * (MDS@[2] as int) + (INV_MDS@[28] as int) * (MDS@[11] as int) + (INV_MDS@[29] as int) * (MDS@[20] as int) + (INV_MDS@[30] as int) * (MDS@[29] as int) + (INV_MDS@[31] as int) * (MDS@[38] as int) + (INV_MDS@[32] as int) * (MDS@[47] as int) + (INV_MDS@[33] as int) * (MDS@[56] as int) + (INV_MDS@[34] as int) * (MDS@[65] as int) + (INV_MDS@[35] as int) * (MDS@[74] as int)) % 340282366920938463463374557953744961537 == 0) by (nonlinear_arith)
        requires
            INV_MDS@[27] == 283673471255946562146645390311833638442, INV_MDS@[28] == 209223032476035404560919156087419693012, INV_MDS@[29] == 211512112805934564584850722873108293522, INV_MDS@[30] == 239776030660594538269138961758799208508, INV_MDS@[31] == 68210418817622944190939851321990599837, INV_MDS@[32] == 222109338954160942132440798066799260073, INV_MDS@[33] == 258338197395874177917585304146894183425, INV_MDS@[34] == 338175469353412666797355362713810876851, INV_MDS@[35] == 210676129806048980180371800441814015553, MDS@[2] == 84411075413992860, MDS@[11] == 830464262634554464059, MDS@[20] == 6129103051534490589064140, MDS@[29] == 41758207694766455878941719400, MDS@[38] == 277396989820105406282268067810980, MDS@[47] == 1827515058473445723489323454811459578, MDS@[56] == 96897786123648020966790891596799875825, MDS@[65] == 31015733125887000676791684053161446567, MDS@[74] == 274553328639948771850735264514343203581,
    ;
    assert(product_entry(INV_MDS@, MDS@, 9, 3, 3) == (INV_MDS@[27] as int) * (MDS@[3] as int) + (INV_MDS@[28] as int) * (MDS@[12] as int) + (INV_MDS@[29] as int) * (MDS@[21] as int) + (INV_MDS@[30] as int) * (MDS@[30] as int) + (INV_MDS@[31] as int) * (MDS@[39] as int) + (INV_MDS@[32] as int) * (MDS@[48] as int) + (INV_MDS@[33] as int) * (MDS@[57] as int) + (INV_MDS@[34] as int) * (MDS@[66] as int) + (INV_MDS@[35] as int) * (MDS@[75] as int));
    assert(((INV_MDS@[27] as int) * (MDS@[3] as int) + (INV_MDS@[28] as int) * (MDS@[12] as int) + (INV_MDS@[29] as int) * (MDS@[21] as int) + (INV_MDS@[30] as int) * (MDS@[30] as int) + (INV_MDS@[31] as int) * (MDS@[39] as int) + (INV_MDS@[32] as int) * (MDS@[48] as int) + (INV_MDS@[33] as int) * (MDS@[57] as int) + (INV_MDS@[34] as int) * (MDS@[66] as int) + (INV_MDS@[35] as int) * (MDS@[75] as int)) % 340282366920938463463374557953744961537 == 1) by (nonlinear_arith)
        requires
            INV_MDS@[27] == 283673471255946562146645390311833638442, INV_MDS@[28] == 209223032476035404560919156087419693012, INV_MDS@[29] == 211512112805934564584850722873108293522, INV_MDS@[30] == 239776030660594538269138961758799208508, INV_MDS@[31] == 68210418817622944190939851321990599837, INV_MDS@[32] == 222109338954160942132440798066799260073, INV_MDS@[33] == 258338197395874177917585304146894183425, INV_MDS@[34] == 338175469353412666797355362713810876851, INV_MDS@[35] == 210676129806048980180371800441814015553, MDS@[3] == 340282366920938463463364822667744381797, MDS@[12] == 340282366920938463367654019497453733057, MDS@[21] == 340282366920937757157506327072060715056, MDS@[30] == 340282366916126655152737768305002590337, MDS@[39] == 340282334957138432026603756253961717317, MDS@[48] == 340071788261635189888022255808831580097, MDS@[57] == 317912742718020576130300337690805571243, MDS@[66] == 177473572991922008668894803954934702656, MDS@[75] == 310813334522360543261976075967969844628,
    ;
    assert(product_entry(INV_MDS@, MDS@, 9, 3, 4) == (INV_MDS@[27] as int) * (MDS@[4] as int) + (INV_MDS@[28] as int) * (MDS@[13] as int) + (INV_MDS@[29] as int) * (MDS@[22] as int) + (INV_MDS@[30] as int) * (MDS@[31] as int) + (INV_MDS@[31] as int) * (MDS@[40] as int) + (INV_MDS@[32] as int) * (MDS@[49] as int) + (INV_MDS@[33] as int) * (MDS@[58] as int) + (INV_MDS@[34] as int) * (MDS@[67] as int) + (INV_MDS@[35] as int) * (MDS@[76] as int));
    assert(((INV_MDS@[27] as int) * (MDS@[4] as int) + (INV_MDS@[28] as int) * (MDS@[13] as int) + (INV_MDS@[29] as int) * (MDS@[22] as int) + (INV_MDS@[30] as int) * (MDS@[31] as int) + (INV_MDS@[31] as int) * (MDS@[40] as int) + (INV_MDS@[32] as int) * (MDS@[49] as int) + (INV_MDS@[33] as int) * (MDS@[58] as int) + (INV_MDS@[34] as int) * (MDS@[67] as int) + (INV_MDS@[35] as int) * (MDS@[76] as int)) % 340282366920938463463374557953744961537 == 0) by (nonlinear_arith)
        requires
            INV_MDS@[27] == 283673471255946562146645390311833638442, INV_MDS@[28] == 209223032476035404560919156087419693012, INV_MDS@[29] == 211512112805934564584850722873108293522, INV_MDS@[30] == 239776030660594538269138961758799208508, INV_MDS@[31] == 68210418817622944190939851321990599837, INV_MDS@[32] == 222109338954160942132440798066799260073, INV_MDS@[33] == 258338197395874177917585304146894183425, INV_MDS@[34] == 338175469353412666797355362713810876851, INV_MDS@[35] == 210676129806048980180371800441814015553, MDS@[4] == 364572438704838, MDS@[13] == 3578022083293731018, MDS@[22] == 26385516604305016476318, MDS@[31] == 179718510858368911187836077, MDS@[40] == 1193750249204165634400502061594, MDS@[49] == 7864291806006227817276975764611134, MDS@[58] == 51667907444403809555847542124007809234, MDS@[67] == 225693703897588175263197025163593303860, MDS@[76] == 58189218743095556616922042146577748196,
    ;
    assert(product_entry(INV_MDS@, MDS@, 9, 3, 5) == (INV_MDS@[27] as int) * (MDS@[5] as int) + (INV_MDS@[28] as int) * (MDS@[14] as int) + (INV_MDS@[29] as int) * (MDS@[23] as int) + (INV_MDS@[30] as int) * (MDS@[32] as int) + (INV_MDS@[31] as int) * (MDS@[41] as int) + (INV_MDS@[32] as int) * (MDS@[50] as int) + (INV_MDS@[33] as int) * (MDS@[59] as int) + (INV_MDS@[34] as int) * (MDS@[68] as int) + (INV_MDS@[35] as int) * (MDS@[77] as int));
    assert(((INV_MDS@[27] as int) * (MDS@[5] as int) + (INV_MDS@[28] as int) * (MDS@[14] as int) + (INV_MDS@[29] as int) * (MDS@[23] as int) + (INV_MDS@[30] as int) * (MDS@[32] as int) + (INV_MDS@[31] as int) * (MDS@[41] as int) + (INV_MDS@[32] as int) * (MDS@[50] as int) + (INV_MDS@[33] as int) * (MDS@[59] as int) + (INV_MDS@[34] as int) * (MDS@[68] as int) + (INV_MDS@[35] as int) * (MDS@[77] as int)) % 340282366920938463463374557953744961537 == 0) by (nonlinear_arith)
        requires
            INV_MDS@[27] == 283673471255946562146645390311833638442, INV_MDS@[28] == 209223032476035404560919156087419693012, INV_MDS@[29] == 211512112805934564584850722873108293522, INV_MDS@[30] == 239776030660594538269138961758799208508, INV_MDS@[31] == 68210418817622944190939851321990599837, INV_MDS@[32] == 222109338954160942132440798066799260073, INV_MDS@[33] == 258338197395874177917585304146894183425, INV_MDS@[34] == 338175469353412666797355362713810876851, INV_MDS@[35] == 210676129806048980180371800441814015553, MDS@[5] == 340282366920938463463374553452850656539, MDS@[14] == 340282366920938463463330629225328181057, MDS@[23] == 340282366920938463140023726422701560397, MDS@[32] == 340282366920936262382017994360084004737, MDS@[41] == 340282366906321119535778575950744594740, MDS@[50] == 340282270630051601091434166691585938497, MDS@[59] == 339649756075661666195744923271868570317, MDS@[68] == 271259291625999272530694212816871392781, MDS@[77] == 88532793352623448815797177624516430079,
    ;
    assert(product_entry(INV_MDS@, MDS@, 9, 3, 6) == (INV_MDS@[27] as int) * (MDS@[6] as int) + (INV_MDS@[28] as int) * (MDS@[15] as int) + (INV_MDS@[29] as int) * (MDS@[24] as int) + (INV_MDS@[30] as int) * (MDS@[33] as int) + (INV_MDS@[31] as int) * (MDS@[42] as int) + (INV_MDS@[32] as int) * (MDS@[51] as int) + (INV_MDS@[33] as int) * (MDS@[60] as int) + (INV_MDS@[34] as int) * (MDS@[69] as int) + (INV_MDS@[35] as int) * (MDS@[78] as int));
    assert(((INV_MDS@[27] as int) * (MDS@[6] as int) + (INV_MDS@[28] as int) * (MDS@[15] as int) + (INV_MDS@[29] as int) * (MDS@[24] as int) + (INV_MDS@[30] as int) * (MDS@[33] as int) + (INV_MDS@[31] as int) * (MDS@[42] as int) + (INV_MDS@[32] as int) * (MDS@[51] as int) + (INV_MDS@[33] as int) * (MDS@[60] as int) + (INV_MDS@[34] as int) * (MDS@[69] as int) + (INV_MDS@[35] as int) * (MDS@[78] as int)) % 340282366920938463463374557953744961537 == 0) by (nonlinear_arith)
        requires
            INV_MDS@[27] == 283673471255946562146645390311833638442, INV_MDS@[28] == 209223032476035404560919156087419693012, INV_MDS@[29] == 211512112805934564584850722873108293522, INV_MDS@[30] == 239776030660594538269138961758799208508, INV_MDS@[31] == 68210418817622944190939851321990599837, INV_MDS@[32] == 222109338954160942132440798066799260073, INV_MDS@[33] == 258338197395874177917585304146894183425, INV_MDS@[34] == 338175469353412666797355362713810876851, INV_MDS@[35] == 210676129806048980180371800441814015553, MDS@[6] == 18318658140, MDS@[15] == 175773020450742, MDS@[24] == 1286673036395336460, MDS@[33] == 8742448408061543808600, MDS@[42] == 58023022992049963173346020, MDS@[51] == 382145525879388576506005172823, MDS@[60] == 2510445527801052949502558181396180, MDS@[69] == 16478009365511174087881242740613722400, MDS@[78] == 257968030906974364479467734461159660011,
    ;
    assert(product_entry(INV_MDS@, MDS@, 9, 3, 7) == (INV_MDS@[27] as int) * (MDS@[7] as int) + (INV_MDS@[28] as int) * (MDS@[16] as int) + (INV_MDS@[29] as int) * (MDS@[25] as int) + (INV_MDS@[30] as int) * (MDS@[34] as int) + (INV_MDS@[31] as int) * (MDS@[43] as int) + (INV_MDS@[32] as int) * (MDS@[52] as int) + (INV_MDS@[33] as int) * (MDS@[61] as int) + (INV_MDS@[34] as int) * (MDS@[70] as int) + (INV_MDS@[35] as int) * (MDS@[79] as int));
    assert(((INV_MDS@[27] as int) * (MDS@[7] as int) + (INV_MDS@[28] as int) * (MDS@[16] as int) + (INV_MDS@[29] as int) * (MDS@[25] as int) + (INV_MDS@[30] as int) * (MDS@[34] as int) + (INV_MDS@[31] as int) * (MDS@[43] as int) + (INV_MDS@[32] as int) * (MDS@[52] as int) + (INV_MDS@[33] as int) * (MDS@[61] as int) + (INV_MDS@[34] as int) * (MDS@[70] as int) + (INV_MDS@[35] as int) * (MDS@[79] as int)) % 340282366920938463463374557953744961537 == 0) by (nonlinear_arith)
        requires
            INV_MDS@[27] == 283673471255946562146645390311833638442, INV_MDS@[28] == 209223032476035404560919156087419693012, INV_MDS@[29] == 211512112805934564584850722873108293522, INV_MDS@[30] == 239776030660594538269138961758799208508, INV_MDS@[31] == 68210418817622944190939851321990599837, INV_MDS@[32] == 222109338954160942132440798066799260073, INV_MDS@[33] == 258338197395874177917585304146894183425, INV_MDS@[34] == 338175469353412666797355362713810876851, INV_MDS@[35] == 210676129806048980180371800441814015553, MDS@[7] == 340282366920938463463374557953720752677, MDS@[16] == 340282366920938463463374557733824228417, MDS@[25] == 340282366920938463463372975281818522219, MDS@[34] == 340282366920938463452680404506994660737, MDS@[43] == 340282366920938392617192638478820451957, MDS@[52] == 340282366920472148038924217019224186177, MDS@[61] == 340282363858174627685294031214892512580, MDS@[70] == 340262264978264552243515110485852110337, MDS@[79] == 208377884906813703378925729595147376377,
    ;
    assert(product_entry(INV_MDS@, MDS@, 9, 3, 8) == (INV_MDS@[27] as int) * (MDS@[8] as int) + (INV_MDS@[28] as int) * (MDS@[17] as int) + (INV_MDS@[29] as int) * (MDS@[26] as int) + (INV_MDS@[30] as int) * (MDS@[35] as int) + (INV_MDS@[31] as int) * (MDS@[44] as int) + (INV_MDS@[32] as int) * (MDS@[53] as int) + (INV_MDS@[33] as int) * (MDS@[62] as int) + (INV_MDS@[34] as int) * (MDS@[71] as int) + (INV_MDS@[35] as int) * (MDS@[80] as int));
    assert(((INV_MDS@[27] as int) * (MDS@[8] as int) + (INV_MDS@[28] as int) * (MDS@[17] as int) + (INV_MDS@[29] as int) * (MDS@[26] as int) + (INV_MDS@[30] as int) * (MDS@[35] as int) + (INV_MDS@[31] as int) * (MDS@[44] as int) + (INV_MDS@[32] as int) * (MDS@[53] as int) + (INV_MDS@[33] as int) * (MDS@[62] as int) + (INV_MDS@[34] as int) * (MDS@[71] as int) + (INV_MDS@[35] as int) * (MDS@[80] as int)) % 340282366920938463463374557953744961537 == 0) by (nonlinear_arith)
        requires
            INV_MDS@[27] == 283673471255946562146645390311833638442, INV_MDS@[28] == 209223032476035404560919156087419693012, INV_MDS@[29] == 211512112805934564584850722873108293522, INV_MDS@[30] == 239776030660594538269138961758799208508, INV_MDS@[31] == 68210418817622944190939851321990599837, INV_MDS@[32] == 222109338954160942132440798066799260073, INV_MDS@[33] == 258338197395874177917585304146894183425, INV_MDS@[34] == 338175469353412666797355362713810876851, INV_MDS@[35] == 210676129806048980180371800441814015553, MDS@[8] == 9841, MDS@[17] == 72636421, MDS@[26] == 494894285941, MDS@[35] == 3287582741506063, MDS@[44] == 21658948312410865183, MDS@[53] == 142299528422960399756323, MDS@[62] == 934054234760012359481199283, MDS@[71] == 6129263888495201102915629695046, MDS@[80] == 40216143252770054194345243936096486,
    ;
}

proof fn lemma_product_backward_row_4()
    ensures
        identity_row(Elem::modulus(), INV_MDS@, MDS@, 9, 4, 9),
{
    reveal_with_fuel(sum, 10);
    reveal_with_fuel(identity_row, 10);
    assert(product_entry(INV_MDS@, MDS@, 9, 4, 0) == (INV_MDS@[36] as int) * (MDS@[0] as int) + (INV_MDS@[37] as int) * (MDS@[9] as int) + (INV_MDS@[38] as int) * (MDS@[18] as int) + (INV_MDS@[39] as int) * (MDS@[27] as int) + (INV_MDS@[40] as int) * (MDS@[36] as int) + (INV_MDS@[41] as int) * (MDS@[45] as int) + (INV_MDS@[42] as int) * (MDS@[54] as int) + (INV_MDS@[43] as int) * (MDS@[63] as int) + (INV_MDS@[44] as int) * (MDS@[72] as int));
    assert(((INV_MDS@[36] as int) * (MDS@[0] as int) + (INV_MDS@[37] as int) * (MDS@[9] as int) + (INV_MDS@[38] as int) * (MDS@[18] as int) + (INV_MDS@[39] as int) * (MDS@[27] as int) + (INV_MDS@[40] as int) * (MDS@[36] as int) + (INV_MDS@[41] as int) * (MDS@[45] as int) + (INV_MDS@[42] as int) * (MDS@[54] as int) + (INV_MDS@[43] as int) * (MDS@[63] as int) + (INV_MDS@[44] as int) * (MDS@[72] as int)) % 340282366920938463463374557953744961537 == 0) by (nonlinear_arith)
        requires
            INV_MDS@[36] == 220783014807171136331164688074748627144, INV_MDS@[37] == 309965259718335944489975028792798283342, INV_MDS@[38] == 96673590909058413519603421380578045352, INV_MDS@[39] == 205785556561014960463687902712791399561, INV_MDS@[40] == 72930044192120504138776809082161800375, INV_MDS@[41] == 40863127682090904559911953136810632891, INV_MDS@[42] == 147156319027505131468688770623137082831, INV_MDS@[43] == 5465313383088119386627759574466685670, INV_MDS@[44] == 261507241403368739495061898437487288983, MDS@[0] == 150094635296999121, MDS@[9] == 1477081305957768349761, MDS@[18] == 10902337119274288189585941, MDS@[27] == 74280977358883194447399657861, MDS@[36] == 493448532595061060714075927170623, MDS@[45] == 3250891947867863390247053555200504143, MDS@[54] == 260889072481016946483921979409357576789, MDS@[63] == 194542495007434960394582255983923586243, MDS@[72] == 188693918348033658130796882009222201279,
    ;
    assert(product_entry(INV_MDS@, MDS@, 9, 4, 1) == (INV_MDS@[36] as int) * (MDS@[1] as int) + (INV_MDS@[37] as int) * (MDS@[10] as int) + (INV_MDS@[38] as int) * (MDS@[19] as int) + (INV_MDS@[39] as int) * (MDS@[28] as int) + (INV_MDS@[40] as int) * (MDS@[37] as int) + (INV_MDS@[41] as int) * (MDS@[46] as int) + (INV_MDS@[42] as int) * (MDS@[55] as int) + (INV_MDS@[43] as int) * (MDS@[64] as int) + (INV_MDS@[44] as int) * (MDS@[73] as int));
    assert(((INV_MDS@[36] as int) * (MDS@[1] as int) + (INV_MDS@[37] as int) * (MDS@[10] as int) + (INV_MDS@[38] as int) * (MDS@[19] as int) + (INV_MDS@[39] as int) * (MDS@[28] as int) + (INV_MDS@[40] as int) * (MDS@[37] as int) + (INV_MDS@[41] as int) * (MDS@[46] as int) + (INV_MDS@[42] as int) * (MDS@[55] as int) + (INV_MDS@[43] as int) * (MDS@[64] as int) + (INV_MDS@[44] as int) * (MDS@[73] as int)) % 340282366920938463463374557953744961537 == 0) by (nonlinear_arith)
        requires
            INV_MDS@[36] == 220783014807171136331164688074748627144, INV_MDS@[37] == 309965259718335944489975028792798283342, INV_MDS@[38] == 96673590909058413519603421380578045352, INV_MDS@[39] == 205785556561014960463687902712791399561, INV_MDS@[40] == 72930044192120504138776809082161800375, INV_MDS@[41] == 40863127682090904559911953136810632891, INV_MDS@[42] == 147156319027505131468688770623137082831, INV_MDS@[43] == 5465313383088119386627759574466685670, INV_MDS@[44] == 261507241403368739495061898437487288983, MDS@[1] == 340282366920938463463149427439195690336, MDS@[10] == 340282366920938461248015258909664071617, MDS@[19] == 340282366920922112265621116423314299677, MDS@[28] == 340282366809533560559102349761084062337, MDS@[37] == 340281626860025222258639632111371827735, MDS@[46] == 335406770191301931314646938843156637377, MDS@[55] == 294109695457304815011263569543330296235, MDS@[64] == 104404390561882821492740793700399886259, MDS@[73] == 314243109041589500728057538205852247049,
    ;
    assert(product_entry(INV_MDS@, MDS@, 9, 4, 2) == (INV_MDS@[36] as int) * (MDS@[2] as int) + (INV_MDS@[37] as int) * (MDS@[11] as int) + (INV_MDS@[38] as int) * (MDS@[20] as int) + (INV_MDS@[39] as int) * (MDS@[29] as int) + (INV_MDS@[40] as int) * (MDS@[38] as int) + (INV_MDS@[41] as int) * (MDS@[47] as int) + (INV_MDS@[42] as int) * (MDS@[56] as int) + (INV_MDS@[43] as int) * (MDS@[65] as int) + (INV_MDS@[44] as int) * (MDS@[74] as int));
    assert(((INV_MDS@[36] as int) * (MDS@[2] as int) + (INV_MDS@[37] as int) * (MDS@[11] as int) + (INV_MDS@[38] as int) * (MDS@[20] as int) + (INV_MDS@[39] as int) * (MDS@[29] as int) + (INV_MDS@[40] as int) * (MDS@[38] as int) + (INV_MDS@[41] as int) * (MDS@[47] as int) + (INV_MDS@[42] as int) * (MDS@[56] as int) + (INV_MDS@[43] as int) * (MDS@[65] as int) + (INV_MDS@[44] as int) * (MDS@[74] as int)) % 340282366920938463463374557953744961537 == 0) by (nonlinear_arith)
        requires
            INV_MDS@[36] == 220783014807171136331164688074748627144, INV_MDS@[37] == 309965259718335944489975028792798283342, INV_MDS@[38] == 96673590909058413519603421380578045352, INV_MDS@[39] == 205785556561014960463687902712791399561, INV_MDS@[40] == 72930044192120504138776809082161800375, INV_MDS@[41] == 40863127682090904559911953136810632891, INV_MDS@[42] == 147156319027505131468688770623137082831, INV_MDS@[43] == 5465313383088119386627759574466685670, INV_MDS@[44] == 261507241403368739495061898437487288983, MDS@[2] == 84411075413992860, MDS@[11] == 830464262634554464059, MDS@[20] == 6129103051534490589064140, MDS@[29] == 41758207694766455878941719400, MDS@[38] == 277396989820105406282268067810980, MDS@[47] == 1827515058473445723489323454811459578, MDS@[56] == 96897786123648020966790891596799875825, MDS@[65] == 31015733125887000676791684053161446567, MDS@[74] == 274553328639948771850735264514343203581,
    ;
    assert(product_entry(INV_MDS@, MDS@, 9, 4, 3) == (INV_MDS@[36] as int) * (MDS@[3] as int) + (INV_MDS@[37] as int) * (MDS@[12] as int) + (INV_MDS@[38] as int) * (MDS@[21] as int) + (INV_MDS@[39] as int) * (MDS@[30] as int) + (INV_MDS@[40] as int) * (MDS@[39] as int) + (INV_MDS@[41] as int) * (MDS@[48] as int) + (INV_MDS@[42] as int) * (MDS@[57] as int) + (INV_MDS@[43] as int) * (MDS@[66] as int) + (INV_MDS@[44] as int) * (MDS@[75] as int));
    assert(((INV_MDS@[36] as int) * (MDS@[3] as int) + (INV_MDS@[37] as int) * (MDS@[12] as int) + (INV_MDS@[38] as int) * (MDS@[21] as int) + (INV_MDS@[39] as int) * (MDS@[30] as int) + (INV_MDS@[40] as int) * (MDS@[39] as int) + (INV_MDS@[41] as int) * (MDS@[48] as int) + (INV_MDS@[42] as int) * (MDS@[57] as int) + (INV_MDS@[43] as int) * (MDS@[66] as int) + (INV_MDS@[44] as int) * (MDS@[75] as int)) % 340282366920938463463374557953744961537 == 0) by (nonlinear_arith)
        requires
            INV_MDS@[36] == 220783014807171136331164688074748627144, INV_MDS@[37] == 309965259718335944489975028792798283342, INV_MDS@[38] == 96673590909058413519603421380578045352, INV_MDS@[39] == 205785556561014960463687902712791399561, INV_MDS@[40] == 72930044192120504138776809082161800375, INV_MDS@[41] == 40863127682090904559911953136810632891, INV_MDS@[42] == 147156319027505131468688770623137082831, INV_MDS@[43] == 5465313383088119386627759574466685670, INV_MDS@[44] == 261507241403368739495061898437487288983, MDS@[3] == 340282366920938463463364822667744381797, MDS@[12] == 340282366920938463367654019497453733057, MDS@[21] == 340282366920937757157506327072060715056, MDS@[30] == 340282366916126655152737768305002590337, MDS@[39] == 340282334957138432026603756253961717317, MDS@[48] == 340071788261635189888022255808831580097, MDS@[57] == 317912742718020576130300337690805571243, MDS@[66] == 177473572991922008668894803954934702656, MDS@[75] == 310813334522360543261976075967969844628,
    ;
    assert(product_entry(INV_MDS@, MDS@, 9, 4, 4) == (INV_MDS@[36] as int) * (MDS@[4] as int) + (INV_MDS@[37] as int) * (MDS@[13] as int) + (INV_MDS@[38] as int) * (MDS@[22] as int) + (INV_MDS@[39] as int) * (MDS@[31] as int) + (INV_MDS@[40] as int) * (MDS@[40] as int) + (INV_MDS@[41] as int) * (MDS@[49] as int) + (INV_MDS@[42] as int) * (MDS@[58] as int) + (INV_MDS@[43] as int) * (MDS@[67] as int) + (INV_MDS@[44] as int) * (MDS@[76] as int));
    assert(((INV_MDS@[36] as int) * (MDS@[4] as int) + (INV_MDS@[37] as int) * (MDS@[13] as int) + (INV_MDS@[38] as int) * (MDS@[22] as int) + (INV_MDS@[39] as int) * (MDS@[31] as int) + (INV_MDS@[40] as int) * (MDS@[40] as int) + (INV_MDS@[41] as int) * (MDS@[49] as int) + (INV_MDS@[42] as int) * (MDS@[58] as int) + (INV_MDS@[43] as int) * (MDS@[67] as int) + (INV_MDS@[44] as int) * (MDS@[76] as int)) % 340282366920938463463374557953744961537 == 1) by (nonlinear_arith)
        requires
            INV_MDS@[36] == 220783014807171136331164688074748627144, INV_MDS@[37] == 309965259718335944489975028792798283342, INV_MDS@[38] == 96673590909058413519603421380578045352, INV_MDS@[39] == 205785556561014960463687902712791399561, INV_MDS@[40] == 72930044192120504138776809082161800375, INV_MDS@[41] == 40863127682090904559911953136810632891, INV_MDS@[42] == 147156319027505131468688770623137082831, INV_MDS@[43] == 5465313383088119386627759574466685670, INV_MDS@[44] == 261507241403368739495061898437487288983, MDS@[4] == 364572438704838, MDS@[13] == 3578022083293731018, MDS@[22] == 26385516604305016476318, MDS@[31] == 179718510858368911187836077, MDS@[40] == 1193750249204165634400502061594, MDS@[49] == 7864291806006227817276975764611134, MDS@[58] == 51667907444403809555847542124007809234, MDS@[67] == 225693703897588175263197025163593303860, MDS@[76] == 58189218743095556616922042146577748196,
    ;
    assert(product_entry(INV_MDS@, MDS@, 9, 4, 5) == (INV_MDS@[36] as int) * (MDS@[5] as int) + (INV_MDS@[37] as int) * (MDS@[14] as int) + (INV_MDS@[38] as int) * (MDS@[23] as int) + (INV_MDS@[39] as int) * (MDS@[32] as int) + (INV_MDS@[40] as int) * (MDS@[41] as int) + (INV_MDS@[41] as int) * (MDS@[50] as int) + (INV_MDS@[42] as int) * (MDS@[59] as int) + (INV_MDS@[43] as int) * (MDS@[68] as int) + (INV_MDS@[44] as int) * (MDS@[77] as int));
    assert(((INV_MDS@[36] as int) * (MDS@[5] as int) + (INV_MDS@[37] as int) * (MDS@[14] as int) + (INV_MDS@[38] as int) * (MDS@[23] as int) + (INV_MDS@[39] as int) * (MDS@[32] as int) + (INV_MDS@[40] as int) * (MDS@[41] as int) + (INV_MDS@[41] as int) * (MDS@[50] as int) + (INV_MDS@[42] as int) * (MDS@[59] as int) + (INV_MDS@[43] as int) * (MDS@[68] as int) + (INV_MDS@[44] as int) * (MDS@[77] as int)) % 340282366920938463463374557953744961537 == 0) by (nonlinear_arith)
        requires
            INV_MDS@[36] == 220783014807171136331164688074748627144, INV_MDS@[37] == 309965259718335944489975028792798283342, INV_MDS@[38] == 96673590909058413519603421380578045352, INV_MDS@[39] == 205785556561014960463687902712791399561, INV_MDS@[40] == 72930044192120504138776809082161800375, INV_MDS@[41] == 40863127682090904559911953136810632891, INV_MDS@[42] == 147156319027505131468688770623137082831, INV_MDS@[43] == 5465313383088119386627759574466685670, INV_MDS@[44] == 261507241403368739495061898437487288983, MDS@[5] == 340282366920938463463374553452850656539, MDS@[14] == 340282366920938463463330629225328181057, MDS@[23] == 340282366920938463140023726422701560397, MDS@[32] == 340282366920936262382017994360084004737, MDS@[41] == 340282366906321119535778575950744594740, MDS@[50] == 340282270630051601091434166691585938497, MDS@[59] == 339649756075661666195744923271868570317, MDS@[68] == 271259291625999272530694212816871392781, MDS@[77] == 88532793352623448815797177624516430079,
    ;
    assert(product_entry(INV_MDS@, MDS@, 9, 4, 6) == (INV_MDS@[36] as int) * (MDS@[6] as int) + (INV_MDS@[37] as int) * (MDS@[15] as int) + (INV_MDS@[38] as int) * (MDS@[24] as int) + (INV_MDS@[39] as int) * (MDS@[33] as int) + (INV_MDS@[40] as int) * (MDS@[42] as int) + (INV_MDS@[41] as int) * (MDS@[51] as int) + (INV_MDS@[42] as int) * (MDS@[60] as int) + (INV_MDS@[43] as int) * (MDS@[69] as int) + (INV_MDS@[44] as int) * (MDS@[78] as int));
    assert(((INV_MDS@[36] as int) * (MDS@[6] as int) + (INV_MDS@[37] as int) * (MDS@[15] as int) + (INV_MDS@[38] as int) * (MDS@[24] as int) + (INV_MDS@[39] as int) * (MDS@[33] as int) + (INV_MDS@[40] as int) * (MDS@[42] as int) + (INV_MDS@[41] as int) * (MDS@[51] as int) + (INV_MDS@[42] as int) * (MDS@[60] as int) + (INV_MDS@[43] as int) * (MDS@[69] as int) + (INV_MDS@[44] as int) * (MDS@[78] as int)) % 340282366920938463463374557953744961537 == 0) by (nonlinear_arith)
        requires
            INV_MDS@[36] == 220783014807171136331164688074748627144, INV_MDS@[37] == 309965259718335944489975028792798283342, INV_MDS@[38] == 96673590909058413519603421380578045352, INV_MDS@[39] == 205785556561014960463687902712791399561, INV_MDS@[40] == 72930044192120504138776809082161800375, INV_MDS@[41] == 40863127682090904559911953136810632891, INV_MDS@[42] == 147156319027505131468688770623137082831, INV_MDS@[43] == 5465313383088119386627759574466685670, INV_MDS@[44] == 261507241403368739495061898437487288983, MDS@[6] == 18318658140, MDS@[15] == 175773020450742, MDS@[24] == 1286673036395336460, MDS@[33] == 8742448408061543808600, MDS@[42] == 58023022992049963173346020, MDS@[51] == 382145525879388576506005172823, MDS@[60] == 2510445527801052949502558181396180, MDS@[69] == 16478009365511174087881242740613722400, MDS@[78] == 257968030906974364479467734461159660011,
    ;
    assert(product_entry(INV_MDS@, MDS@, 9, 4, 7) == (INV_MDS@[36] as int) * (MDS@[7] as int) + (INV_MDS@[37] as int) * (MDS@[16] as int) + (INV_MDS@[38] as int) * (MDS@[25] as int) + (INV_MDS@[39] as int) * (MDS@[34] as int) + (INV_MDS@[40] as int) * (MDS@[43] as int) + (INV_MDS@[41] as int) * (MDS@[52] as int) + (INV_MDS@[42] as int) * (MDS@[61] as int) + (INV_MDS@[43] as int) * (MDS@[70] as int) + (INV_MDS@[44] as int) * (MDS@[79] as int));
    assert(((INV_MDS@[36] as int) * (MDS@[7] as int) + (INV_MDS@[37] as int) * (MDS@[16] as int) + (INV_MDS@[38] as int) * (MDS@[25] as int) + (INV_MDS@[39] as int) * (MDS@[34] as int) + (INV_MDS@[40] as int) * (MDS@[43] as int) + (INV_MDS@[41] as int) * (MDS@[52] as int) + (INV_MDS@[42] as int) * (MDS@[61] as int) + (INV_MDS@[43] as int) * (MDS@[70] as int) + (INV_MDS@[44] as int) * (MDS@[79] as int)) % 340282366920938463463374557953744961537 == 0) by (nonlinear_arith)
        requires
            INV_MDS@[36] == 220783014807171136331164688074748627144, INV_MDS@[37] == 309965259718335944489975028792798283342, INV_MDS@[38] == 96673590909058413519603421380578045352, INV_MDS@[39] == 205785556561014960463687902712791399561, INV_MDS@[40] == 72930044192120504138776809082161800375, INV_MDS@[41] == 40863127682090904559911953136810632891, INV_MDS@[42] == 147156319027505131468688770623137082831, INV_MDS@[43] == 5465313383088119386627759574466685670, INV_MDS@[44] == 261507241403368739495061898437487288983, MDS@[7] == 340282366920938463463374557953720752677, MDS@[16] == 340282366920938463463374557733824228417, MDS@[25] == 340282366920938463463372975281818522219, MDS@[34] == 340282366920938463452680404506994660737, MDS@[43] == 340282366920938392617192638478820451957, MDS@[52] == 340282366920472148038924217019224186177, MDS@[61] == 340282363858174627685294031214892512580, MDS@[70] == 340262264978264552243515110485852110337, MDS@[79] == 208377884906813703378925729595147376377,
    ;
    assert(product_entry(INV_MDS@, MDS@, 9, 4, 8) == (INV_MDS@[36] as int) * (MDS@[8] as int) + (INV_MDS@[37] as int) * (MDS@[17] as int) + (INV_MDS@[38] as int) * (MDS@[26] as int) + (INV_MDS@[39] as int) * (MDS@[35] as int) + (INV_MDS@[40] as int) * (MDS@[44] as int) + (INV_MDS@[41] as int) * (MDS@[53] as int) + (INV_MDS@[42] as int) * (MDS@[62] as int) + (INV_MDS@[43] as int) * (MDS@[71] as int) + (INV_MDS@[44] as int) * (MDS@[80] as int));
    assert(((INV_MDS@[36] as int) * (MDS@[8] as int) + (INV_MDS@[37] as int) * (MDS@[17] as int) + (INV_MDS@[38] as int) * (MDS@[26] as int) + (INV_MDS@[39] as int) * (MDS@[35] as int) + (INV_MDS@[40] as int) * (MDS@[44] as int) + (INV_MDS@[41] as int) * (MDS@[53] as int) + (INV_MDS@[42] as int) * (MDS@[62] as int) + (INV_MDS@[43] as int) * (MDS@[71] as int) + (INV_MDS@[44] as int) * (MDS@[80] as int)) % 340282366920938463463374557953744961537 == 0) by (nonlinear_arith)
        requires
            INV_MDS@[36] == 220783014807171136331164688074748627144, INV_MDS@[37] == 309965259718335944489975028792798283342, INV_MDS@[38] == 96673590909058413519603421380578045352, INV_MDS@[39] == 205785556561014960463687902712791399561, INV_MDS@[40] == 72930044192120504138776809082161800375, INV_MDS@[41] == 40863127682090904559911953136810632891, INV_MDS@[42] == 147156319027505131468688770623137082831, INV_MDS@[43] == 5465313383088119386627759574466685670, INV_MDS@[44] == 261507241403368739495061898437487288983, MDS@[8] == 9841, MDS@[17] == 72636421, MDS@[26] == 494894285941, MDS@[35] == 3287582741506063, MDS@[44] == 21658948312410865183, MDS@[53] == 142299528422960399756323, MDS@[62] == 934054234760012359481199283, MDS@[71] == 6129263888495201102915629695046, MDS@[80] == 40216143252770054194345243936096486,
    ;
}

proof fn lemma_product_backward_row_5()
    ensures
        identity_row(Elem::modulus(), INV_MDS@, MDS@, 9, 5, 9),
{
    reveal_with_fuel(sum, 10);
    reveal_with_fuel(identity_row, 10);
    assert(product_entry(INV_MDS@, MDS@, 9, 5, 0) == (INV_MDS@[45] as int) * (MDS@[0] as int) + (INV_MDS@[46] as int) * (MDS@[9] as int) + (INV_MDS@[47] as int) * (MDS@[18] as int) + (INV_MDS@[48] as int) * (MDS@[27] as int) + (INV_MDS@[49] as int) * (MDS@[36] as int) + (INV_MDS@[50] as int) * (MDS@[45] as int) + (INV_MDS@[51] as int) * (MDS@[54] as int) + (INV_MDS@[52] as int) * (MDS@[63] as int) + (INV_MDS@[53] as int) * (MDS@[72] as int));
    assert(((INV_MDS@[45] as int) * (MDS@[0] as int) + (INV_MDS@[46] as int) * (MDS@[9] as int) + (INV_MDS@[47] as int) * (MDS@[18] as int) + (INV_MDS@[48] as int) * (MDS@[27] as int) + (INV_MDS@[49] as int) * (MDS@[36] as int) + (INV_MDS@[50] as int) * (MDS@[45] as int) + (INV_MDS@[51] as int) * (MDS@[54] as int) + (INV_MDS@[52] as int) * (MDS@[63] as int) + (INV_MDS@[53] as int) * (MDS@[72] as int)) % 340282366920938463463374557953744961537 == 0) by (nonlinear_arith)
        requires
            INV_MDS@[45] == 47112215418871085025936967894656035967, INV_MDS@[46] == 257010822502178578101896171521076674054, INV_MDS@[47] == 20670720855140215404881506561419650370, INV_MDS@[48] == 275063314552737150020455701571996505359, INV_MDS@[49] == 154434305573626427596859079056551184503, INV_MDS@[50] == 119775195884931758842035438232130131140, INV_MDS@[51] == 110335483825478749319799953283019030264, INV_MDS@[52] == 93758101272597109289270377026652209913, INV_MDS@[53] == 282969307798192780252363036667478424579, MDS@[0] == 150094635296999121, MDS@[9] == 1477081305957768349761, MDS@[18] == 10902337119274288189585941, MDS@[27] == 74280977358883194447399657861, MDS@[36] == 493448532595061060714075927170623, MDS@[45] == 3250891947867863390247053555200504143, MDS@[54] == 260889072481016946483921979409357576789, MDS@[63] == 194542495007434960394582255983923586243, MDS@[72] == 188693918348033658130796882009222201279,
    ;
    assert(product_entry(INV_MDS@, MDS@, 9, 5, 1) == (INV_MDS@[45] as int) * (MDS@[1] as int) + (INV_MDS@[46] as int) * (MDS@[10] as int) + (INV_MDS@[47] as int) * (MDS@[19] as int) + (INV_MDS@[48] as int) * (MDS@[28] as int) + (INV_MDS@[49] as int) * (MDS@[37] as int) + (INV_MDS@[50] as int) * (MDS@[46] as int) + (INV_MDS@[51] as int) * (MDS@[55] as int) + (INV_MDS@[52] as int) * (MDS@[64] as int) + (INV_MDS@[53] as int) * (MDS@[73] as int));
    assert(((INV_MDS@[45] as int) * (MDS@[1] as int) + (INV_MDS@[46] as int) * (MDS@[10] as int) + (INV_MDS@[47] as int) * (MDS@[19] as int) + (INV_MDS@[48] as int) * (MDS@[28] as int) + (INV_MDS@[49] as int) * (MDS@[37] as int) + (INV_MDS@[50] as int) * (MDS@[46] as int) + (INV_MDS@[51] as int) * (MDS@[55] as int) + (INV_MDS@[52] as int) * (MDS@[64] as int) + (INV_MDS@[53] as int) * (MDS@[73] as int)) % 340282366920938463463374557953744961537 == 0) by (nonlinear_arith)
        requires
            INV_MDS@[45] == 47112215418871085025936967894656035967, INV_MDS@[46] == 257010822502178578101896171521076674054, INV_MDS@[47] == 20670720855140215404881506561419650370, INV_MDS@[48] == 275063314552737150020455701571996505359, INV_MDS@[49] == 154434305573626427596859079056551184503, INV_MDS@[50] == 119775195884931758842035438232130131140, INV_MDS@[51] == 110335483825478749319799953283019030264, INV_MDS@[52] == 93758101272597109289270377026652209913, INV_MDS@[53] == 282969307798192780252363036667478424579, MDS@[1] == 340282366920938463463149427439195690336, MDS@[10] == 340282366920938461248015258909664071617, MDS@[19] == 340282366920922112265621116423314299677, MDS@[28] == 340282366809533560559102349761084062337, MDS@[37] == 340281626860025222258639632111371827735, MDS@[46] == 335406770191301931314646938843156637377, MDS@[55] == 294109695457304815011263569543330296235, MDS@[64] == 104404390561882821492740793700399886259, MDS@[73] == 314243109041589500728057538205852247049,
    ;
    assert(product_entry(INV_MDS@, MDS@, 9, 5, 2) == (INV_MDS@[45] as int) * (MDS@[2] as int) + (INV_MDS@[46] as int) * (MDS@[11] as int) + (INV_MDS@[47] as int) * (MDS@[20] as int) + (INV_MDS@[48] as int) * (MDS@[29] as int) + (INV_MDS@[49] as int) * (MDS@[38] as int) + (INV_MDS@[50] as int) * (MDS@[47] as int) + (INV_MDS@[51] as int) * (MDS@[56] as int) + (INV_MDS@[52] as int) * (MDS@[65] as int) + (INV_MDS@[53] as int) * (MDS@[74] as int));
    assert(((INV_MDS@[45] as int) * (MDS@[2] as int) + (INV_MDS@[46] as int) * (MDS@[11] as int) + (INV_MDS@[47] as int) * (MDS@[20] as int) + (INV_MDS@[48] as int) * (MDS@[29] as int) + (INV_MDS@[49] as int) * (MDS@[38] as int) + (INV_MDS@[50] as int) * (MDS@[47] as int) + (INV_MDS@[51] as int) * (MDS@[56] as int) + (INV_MDS@[52] as int) * (MDS@[65] as int) + (INV_MDS@[53] as int) * (MDS@[74] as int)) % 340282366920938463463374557953744961537 == 0) by (nonlinear_arith)
        requires
            INV_MDS@[45] == 47112215418871085025936967894656035967, INV_MDS@[46] == 257010822502178578101896171521076674054, INV_MDS@[47] == 20670720855140215404881506561419650370, INV_MDS@[48] == 275063314552737150020455701571996505359, INV_MDS@[49] == 154434305573626427596859079056551184503, INV_MDS@[50] == 119775195884931758842035438232130131140, INV_MDS@[51] == 110335483825478749319799953283019030264, INV_MDS@[52] == 93758101272597109289270377026652209913, INV_MDS@[53] == 282969307798192780252363036667478424579, MDS@[2] == 84411075413992860, MDS@[11] == 830464262634554464059, MDS@[20] == 6129103051534490589064140, MDS@[29] == 41758207694766455878941719400, MDS@[38] == 277396989820105406282268067810980, MDS@[47] == 1827515058473445723489323454811459578, MDS@[56] == 96897786123648020966790891596799875825, MDS@[65] == 31015733125887000676791684053161446567, MDS@[74] == 274553328639948771850735264514343203581,
    ;
    assert(product_entry(INV_MDS@, MDS@, 9, 5, 3) == (INV_MDS@[45] as int) * (MDS@[3] as int) + (INV_MDS@[46] as int) * (MDS@[12] as int) + (INV_MDS@[47] as int) * (MDS@[21] as int) + (INV_MDS@[48] as int) * (MDS@[30] as int) + (INV_MDS@[49] as int) * (MDS@[39] as int) + (INV_MDS@[50] as int) * (MDS@[48] as int) + (INV_MDS@[51] as int) * (MDS@[57] as int) + (INV_MDS@[52] as int) * (MDS@[66] as int) + (INV_MDS@[53] as int) * (MDS@[75] as int));
    assert(((INV_MDS@[45] as int) * (MDS@[3] as int) + (INV_MDS@[46] as int) * (MDS@[12] as int) + (INV_MDS@[47] as int) * (MDS@[21] as int) + (INV_MDS@[48] as int) * (MDS@[30] as int) + (INV_MDS@[49] as int) * (MDS@[39] as int) + (INV_MDS@[50] as int) * (MDS@[48] as int) + (INV_MDS@[51] as int) * (MDS@[57] as int) + (INV_MDS@[52] as int) * (MDS@[66] as int) + (INV_MDS@[53] as int) * (MDS@[75] as int)) % 340282366920938463463374557953744961537 == 0) by (nonlinear_arith)
        requires
            INV_MDS@[45] == 47112215418871085025936967894656035967, INV_MDS@[46] == 257010822502178578101896171521076674054, INV_MDS@[47] == 20670720855140215404881506561419650370, INV_MDS@[48] == 275063314552737150020455701571996505359, INV_MDS@[49] == 154434305573626427596859079056551184503, INV_MDS@[50] == 119775195884931758842035438232130131140, INV_MDS@[51] == 110335483825478749319799953283019030264, INV_MDS@[52] == 93758101272597109289270377026652209913, INV_MDS@[53] == 282969307798192780252363036667478424579, MDS@[3] == 340282366920938463463364822667744381797, MDS@[12] == 340282366920938463367654019497453733057, MDS@[21] == 340282366920937757157506327072060715056, MDS@[30] == 340282366916126655152737768305002590337, MDS@[39] == 340282334957138432026603756253961717317, MDS@[48] == 340071788261635189888022255808831580097, MDS@[57] == 317912742718020576130300337690805571243, MDS@[66] == 177473572991922008668894803954934702656, MDS@[75] == 310813334522360543261976075967969844628,
    ;
    assert(product_entry(INV_MDS@, MDS@, 9, 5, 4) == (INV_MDS@[45] as int) * (MDS@[4] as int) + (INV_MDS@[46] as int) * (MDS@[13] as int) + (INV_MDS@[47] as int) * (MDS@[22] as int) + (INV_MDS@[48] as int) * (MDS@[31] as int) + (INV_MDS@[49] as int) * (MDS@[40] as int) + (INV_MDS@[50] as int) * (MDS@[49] as int) + (INV_MDS@[51] as int) * (MDS@[58] as int) + (INV_MDS@[52] as int) * (MDS@[67] as int) + (INV_MDS@[53] as int) * (MDS@[76] as int));
    assert(((INV_MDS@[45] as int) * (MDS@[4] as int) + (INV_MDS@[46] as int) * (MDS@[13] as int) + (INV_MDS@[47] as int) * (MDS@[22] as int) + (INV_MDS@[48] as int) * (MDS@[31] as int) + (INV_MDS@[49] as int) * (MDS@[40] as int) + (INV_MDS@[50] as int) * (MDS@[49] as int) + (INV_MDS@[51] as int) * (MDS@[58] as int) + (INV_MDS@[52] as int) * (MDS@[67] as int) + (INV_MDS@[53] as int) * (MDS@[76] as int)) % 340282366920938463463374557953744961537 == 0) by (nonlinear_arith)
        requires
            INV_MDS@[45] == 47112215418871085025936967894656035967, INV_MDS@[46] == 257010822502178578101896171521076674054, INV_MDS@[47] == 20670720855140215404881506561419650370, INV_MDS@[48] == 275063314552737150020455701571996505359, INV_MDS@[49] == 154434305573626427596859079056551184503, INV_MDS@[50] == 119775195884931758842035438232130131140, INV_MDS@[51] == 110335483825478749319799953283019030264, INV_MDS@[52] == 93758101272597109289270377026652209913, INV_MDS@[53] == 282969307798192780252363036667478424579, MDS@[4] == 364572438704838, MDS@[13] == 3578022083293731018, MDS@[22] == 26385516604305016476318, MDS@[31] == 179718510858368911187836077, MDS@[40] == 1193750249204165634400502061594, MDS@[49] == 7864291806006227817276975764611134, MDS@[58] == 51667907444403809555847542124007809234, MDS@[67] == 225693703897588175263197025163593303860, MDS@[76] == 58189218743095556616922042146577748196,
    ;
    assert(product_entry(INV_MDS@, MDS@, 9, 5, 5) == (INV_MDS@[45] as int) * (MDS@[5] as int) + (INV_MDS@[46] as int) * (MDS@[14] as int) + (INV_MDS@[47] as int) * (MDS@[23] as int) + (INV_MDS@[48] as int) * (MDS@[32] as int) + (INV_MDS@[49] as int) * (MDS@[41] as int) + (INV_MDS@[50] as int) * (MDS@[50] as int) + (INV_MDS@[51] as int) * (MDS@[59] as int) + (INV_MDS@[52] as int) * (MDS@[68] as int) + (INV_MDS@[53] as int) * (MDS@[77] as int));
    assert(((INV_MDS@[45] as int) * (MDS@[5] as int) + (INV_MDS@[46] as int) * (MDS@[14] as int) + (INV_MDS@[47] as int) * (MDS@[23] as int) + (INV_MDS@[48] as int) * (MDS@[32] as int) + (INV_MDS@[49] as int) * (MDS@[41] as int) + (INV_MDS@[50] as int) * (MDS@[50] as int) + (INV_MDS@[51] as int) * (MDS@[59] as int) + (INV_MDS@[52] as int) * (MDS@[68] as int) + (INV_MDS@[53] as int) * (MDS@[77] as int)) % 340282366920938463463374557953744961537 == 1) by (nonlinear_arith)
        requires
            INV_MDS@[45] == 47112215418871085025936967894656035967, INV_MDS@[46] == 257010822502178578101896171521076674054, INV_MDS@[47] == 20670720855140215404881506561419650370, INV_MDS@[48] == 275063314552737150020455701571996505359, INV_MDS@[49] == 154434305573626427596859079056551184503, INV_MDS@[50] == 119775195884931758842035438232130131140, INV_MDS@[51] == 110335483825478749319799953283019030264, INV_MDS@[52] == 93758101272597109289270377026652209913, INV_MDS@[53] == 282969307798192780252363036667478424579, MDS@[5] == 340282366920938463463374553452850656539, MDS@[14] == 340282366920938463463330629225328181057, MDS@[23] == 340282366920938463140023726422701560397, MDS@[32] == 340282366920936262382017994360084004737, MDS@[41] == 340282366906321119535778575950744594740, MDS@[50] == 340282270630051601091434166691585938497, MDS@[59] == 339649756075661666195744923271868570317, MDS@[68] == 271259291625999272530694212816871392781, MDS@[77] == 88532793352623448815797177624516430079,
    ;
    assert(product_entry(INV_MDS@, MDS@, 9, 5, 6) == (INV_MDS@[45] as int) * (MDS@[6] as int) + (INV_MDS@[46] as int) * (MDS@[15] as int) + (INV_MDS@[47] as int) * (MDS@[24] as int) + (INV_MDS@[48] as int) * (MDS@[33] as int) + (INV_MDS@[49] as int) * (MDS@[42] as int) + (INV_MDS@[50] as int) * (MDS@[51] as int) + (INV_MDS@[51] as int) * (MDS@[60] as int) + (INV_MDS@[52] as int) * (MDS@[69] as int) + (INV_MDS@[53] as int) * (MDS@[78] as int));
    assert(((INV_MDS@[45] as int) * (MDS@[6] as int) + (INV_MDS@[46] as int) * (MDS@[15] as int) + (INV_MDS@[47] as int) * (MDS@[24] as int) + (INV_MDS@[48] as int) * (MDS@[33] as int) + (INV_MDS@[49] as int) * (MDS@[42] as int) + (INV_MDS@[50] as int) * (MDS@[51] as int) + (INV_MDS@[51] as int) * (MDS@[60] as int) + (INV_MDS@[52] as int) * (MDS@[69] as int) + (INV_MDS@[53] as int) * (MDS@[78] as int)) % 340282366920938463463374557953744961537 == 0) by (nonlinear_arith)
        requires
            INV_MDS@[45] == 47112215418871085025936967894656035967, INV_MDS@[46] == 257010822502178578101896171521076674054, INV_MDS@[47] == 20670720855140215404881506561419650370, INV_MDS@[48] == 275063314552737150020455701571996505359, INV_MDS@[49] == 154434305573626427596859079056551184503, INV_MDS@[50] == 119775195884931758842035438232130131140, INV_MDS@[51] == 110335483825478749319799953283019030264, INV_MDS@[52] == 93758101272597109289270377026652209913, INV_MDS@[53] == 282969307798192780252363036667478424579, MDS@[6] == 18318658140, MDS@[15] == 175773020450742, MDS@[24] == 1286673036395336460, MDS@[33] == 8742448408061543808600, MDS@[42] == 58023022992049963173346020, MDS@[51] == 382145525879388576506005172823, MDS@[60] == 2510445527801052949502558181396180, MDS@[69] == 16478009365511174087881242740613722400, MDS@[78] == 257968030906974364479467734461159660011,
    ;
    assert(product_entry(INV_MDS@, MDS@, 9, 5, 7) == (INV_MDS@[45] as int) * (MDS@[7] as int) + (INV_MDS@[46] as int) * (MDS@[16] as int) + (INV_MDS@[47] as int) * (MDS@[25] as int) + (INV_MDS@[48] as int) * (MDS@[34] as int) + (INV_MDS@[49] as int) * (MDS@[43] as int) + (INV_MDS@[50] as int) * (MDS@[52] as int) + (INV_MDS@[51] as int) * (MDS@[61] as int) + (INV_MDS@[52] as int) * (MDS@[70] as int) + (INV_MDS@[53] as int) * (MDS@[79] as int));
    assert(((INV_MDS@[45] as int) * (MDS@[7] as int) + (INV_MDS@[46] as int) * (MDS@[16] as int) + (INV_MDS@[47] as int) * (MDS@[25] as int) + (INV_MDS@[48] as int) * (MDS@[34] as int) + (INV_MDS@[49] as int) * (MDS@[43] as int) + (INV_MDS@[50] as int) * (MDS@[52] as int) + (INV_MDS@[51] as int) * (MDS@[61] as int) + (INV_MDS@[52] as int) * (MDS@[70] as int) + (INV_MDS@[53] as int) * (MDS@[79] as int)) % 340282366920938463463374557953744961537 == 0) by (nonlinear_arith)
        requires
            INV_MDS@[45] == 47112215418871085025936967894656035967, INV_MDS@[46] == 257010822502178578101896171521076674054, INV_MDS@[47] == 20670720855140215404881506561419650370, INV_MDS@[48] == 275063314552737150020455701571996505359, INV_MDS@[49] == 154434305573626427596859079056551184503, INV_MDS@[50] == 119775195884931758842035438232130131140, INV_MDS@[51] == 110335483825478749319799953283019030264, INV_MDS@[52] == 93758101272597109289270377026652209913, INV_MDS@[53] == 282969307798192780252363036667478424579, MDS@[7] == 340282366920938463463374557953720752677, MDS@[16] == 340282366920938463463374557733824228417, MDS@[25] == 340282366920938463463372975281818522219, MDS@[34] == 340282366920938463452680404506994660737, MDS@[43] == 340282366920938392617192638478820451957, MDS@[52] == 340282366920472148038924217019224186177, MDS@[61] == 340282363858174627685294031214892512580, MDS@[70] == 340262264978264552243515110485852110337, MDS@[79] == 208377884906813703378925729595147376377,
    ;
    assert(product_entry(INV_MDS@, MDS@, 9, 5, 8) == (INV_MDS@[45] as int) * (MDS@[8] as int) + (INV_MDS@[46] as int) * (MDS@[17] as int) + (INV_MDS@[47] as int) * (MDS@[26] as int) + (INV_MDS@[48] as int) * (MDS@[35] as int) + (INV_MDS@[49] as int) * (MDS@[44] as int) + (INV_MDS@[50] as int) * (MDS@[53] as int) + (INV_MDS@[51] as int) * (MDS@[62] as int) + (INV_MDS@[52] as int) * (MDS@[71] as int) + (INV_MDS@[53] as int) * (MDS@[80] as int));
    assert(((INV_MDS@[45] as int) * (MDS@[8] as int) + (INV_MDS@[46] as int) * (MDS@[17] as int) + (INV_MDS@[47] as int) * (MDS@[26] as int) + (INV_MDS@[48] as int) * (MDS@[35] as int) + (INV_MDS@[49] as int) * (MDS@[44] as int) + (INV_MDS@[50] as int) * (MDS@[53] as int) + (INV_MDS@[51] as int) * (MDS@[62] as int) + (INV_MDS@[52] as int) * (MDS@[71] as int) + (INV_MDS@[53] as int) * (MDS@[80] as int)) % 340282366920938463463374557953744961537 == 0) by (nonlinear_arith)
        requires
            INV_MDS@[45] == 47112215418871085025936967894656035967, INV_MDS@[46] == 257010822502178578101896171521076674054, INV_MDS@[47] == 20670720855140215404881506561419650370, INV_MDS@[48] == 275063314552737150020455701571996505359, INV_MDS@[49] == 154434305573626427596859079056551184503, INV_MDS@[50] == 119775195884931758842035438232130131140, INV_MDS@[51] == 110335483825478749319799953283019030264, INV_MDS@[52] == 93758101272597109289270377026652209913, INV_MDS@[53] == 282969307798192780252363036667478424579, MDS@[8] == 9841, MDS@[17] == 72636421, MDS@[26] == 494894285941, MDS@[35] == 3287582741506063, MDS@[44] == 21658948312410865183, MDS@[53] == 142299528422960399756323, MDS@[62] == 934054234760012359481199283, MDS@[71] == 6129263888495201102915629695046, MDS@[80] == 40216143252770054194345243936096486,
    ;
}

proof fn lemma_product_backward_row_6()
    ensures
        identity_row(Elem::modulus(), INV_MDS@, MDS@, 9, 6, 9),
{
    reveal_with_fuel(sum, 10);
    reveal_with_fuel(identity_row, 10);
    assert(product_entry(INV_MDS@, MDS@, 9, 6, 0) == (INV_MDS@[54] as int) * (MDS@[0] as int) + (INV_MDS@[55] as int) * (MDS@[9] as int) + (INV_MDS@[56] as int) * (MDS@[18] as int) + (INV_MDS@[57] as int) * (MDS@[27] as int) + (INV_MDS@[58] as int) * (MDS@[36] as int) + (INV_MDS@[59] as int) * (MDS@[45] as int) + (INV_MDS@[60] as int) * (MDS@[54] as int) + (INV_MDS@[61] as int) * (MDS@[63] as int) + (INV_MDS@[62] as int) * (MDS@[72] as int));
    assert(((INV_MDS@[54] as int) * (MDS@[0] as int) + (INV_MDS@[55] as int) * (MDS@[9] as int) + (INV_MDS@[56] as int) * (MDS@[18] as int) + (INV_MDS@[57] as int) * (MDS@[27] as int) + (INV_MDS@[58] as int) * (MDS@[36] as int) + (INV_MDS@[59] as int) * (MDS@[45] as int) + (INV_MDS@[60] as int) * (MDS@[54] as int) + (INV_MDS@[61] as int) * (MDS@[63] as int) + (INV_MDS@[62] as int) * (MDS@[72] as int)) % 340282366920938463463374557953744961537 == 0) by (nonlinear_arith)
        requires
            INV_MDS@[54] == 52011660187227698998307018524445124622, INV_MDS@[55] == 191078345965907944922431974561774457545, INV_MDS@[56] == 86336838853676487241056288607338298724, INV_MDS@[57] == 125093328226800820985177164342949053500, INV_MDS@[58] == 10689792024438114156388383608175598304, INV_MDS@[59] == 329939868120376749051950735773432225615, INV_MDS@[60] == 23499294867058318465853361897065892690, INV_MDS@[61] == 278372710189966668032426818312990960568, INV_MDS@[62] == 264107629248301051999906486186808234581, MDS@[0] == 150094635296999121, MDS@[9] == 1477081305957768349761, MDS@[18] == 10902337119274288189585941, MDS@[27] == 74280977358883194447399657861, MDS@[36] == 493448532595061060714075927170623, MDS@[45] == 3250891947867863390247053555200504143, MDS@[54] == 260889072481016946483921979409357576789, MDS@[63] == 194542495007434960394582255983923586243, MDS@[72] == 188693918348033658130796882009222201279,
    ;
    assert(product_entry(INV_MDS@, MDS@, 9, 6, 1) == (INV_MDS@[54] as int) * (MDS@[1] as int) + (INV_MDS@[55] as int) * (MDS@[10] as int) + (INV_MDS@[56] as int) * (MDS@[19] as int) + (INV_MDS@[57] as int) * (MDS@[28] as int) + (INV_MDS@[58] as int) * (MDS@[37] as int) + (INV_MDS@[59] as int) * (MDS@[46] as int) + (INV_MDS@[60] as int) * (MDS@[55] as int) + (INV_MDS@[61] as int) * (MDS@[64] as int) + (INV_MDS@[62] as int) * (MDS@[73] as int));
    assert(((INV_MDS@[54] as int) * (MDS@[1] as int) + (INV_MDS@[55] as int) * (MDS@[10] as int) + (INV_MDS@[56] as int) * (MDS@[19] as int) + (INV_MDS@[57] as int) * (MDS@[28] as int) + (INV_MDS@[58] as int) * (MDS@[37] as int) + (INV_MDS@[59] as int) * (MDS@[46] as int) + (INV_MDS@[60] as int) * (MDS@[55] as int) + (INV_MDS@[61] as int) * (MDS@[64] as int) + (INV_MDS@[62] as int) * (MDS@[73] as int)) % 340282366920938463463374557953744961537 == 0) by (nonlinear_arith)
        requires
            INV_MDS@[54] == 52011660187227698998307018524445124622, INV_MDS@[55] == 191078345965907944922431974561774457545, INV_MDS@[56] == 86336838853676487241056288607338298724, INV_MDS@[57] == 125093328226800820985177164342949053500, INV_MDS@[58] == 10689792024438114156388383608175598304, INV_MDS@[59] == 329939868120376749051950735773432225615, INV_MDS@[60] == 23499294867058318465853361897065892690, INV_MDS@[61] == 278372710189966668032426818312990960568, INV_MDS@[62] == 264107629248301051999906486186808234581, MDS@[1] == 340282366920938463463149427439195690336, MDS@[10] == 340282366920938461248015258909664071617, MDS@[19] == 340282366920922112265621116423314299677, MDS@[28] == 340282366809533560559102349761084062337, MDS@[37] == 340281626860025222258639632111371827735, MDS@[46] == 335406770191301931314646938843156637377, MDS@[55] == 294109695457304815011263569543330296235, MDS@[64] == 104404390561882821492740793700399886259, MDS@[73] == 314243109041589500728057538205852247049,
    ;
    assert(product_entry(INV_MDS@, MDS@, 9, 6, 2) == (INV_MDS@[54] as int) * (MDS@[2] as int) + (INV_MDS@[55] as int) * (MDS@[11] as int) + (INV_MDS@[56] as int) * (MDS@[20] as int) + (INV_MDS@[57] as int) * (MDS@[29] as int) + (INV_MDS@[58] as int) * (MDS@[38] as int) + (INV_MDS@[59] as int) * (MDS@[47] as int) + (INV_MDS@[60] as int) * (MDS@[56] as int) + (INV_MDS@[61] as int) * (MDS@[65] as int) + (INV_MDS@[62] as int) * (MDS@[74] as int));
    assert(((INV_MDS@[54] as int) * (MDS@[2] as int) + (INV_MDS@[55] as int) * (MDS@[11] as int) + (INV_MDS@[56] as int) * (MDS@[20] as int) + (INV_MDS@[57] as int) * (MDS@[29] as int) + (INV_MDS@[58] as int) * (MDS@[38] as int) + (INV_MDS@[59] as int) * (MDS@[47] as int) + (INV_MDS@[60] as int) * (MDS@[56] as int) + (INV_MDS@[61] as int) * (MDS@[65] as int) + (INV_MDS@[62] as int) * (MDS@[74] as int)) % 340282366920938463463374557953744961537 == 0) by (nonlinear_arith)
        requires
            INV_MDS@[54] == 52011660187227698998307018524445124622, INV_MDS@[55] == 191078345965907944922431974561774457545, INV_MDS@[56] == 86336838853676487241056288607338298724, INV_MDS@[57] == 125093328226800820985177164342949053500, INV_MDS@[58] == 10689792024438114156388383608175598304, INV_MDS@[59] == 329939868120376749051950735773432225615, INV_MDS@[60] == 23499294867058318465853361897065892690, INV_MDS@[61] == 278372710189966668032426818312990960568, INV_MDS@[62] == 264107629248301051999906486186808234581, MDS@[2] == 84411075413992860, MDS@[11] == 830464262634554464059, MDS@[20] == 6129103051534490589064140, MDS@[29] == 41758207694766455878941719400, MDS@[38] == 277396989820105406282268067810980, MDS@[47] == 1827515058473445723489323454811459578, MDS@[56] == 96897786123648020966790891596799875825, MDS@[65] == 31015733125887000676791684053161446567, MDS@[74] == 274553328639948771850735264514343203581,
    ;
    assert(product_entry(INV_MDS@, MDS@, 9, 6, 3) == (INV_MDS@[54] as int) * (MDS@[3] as int) + (INV_MDS@[55] as int) * (MDS@[12] as int) + (INV_MDS@[56] as int) * (MDS@[21] as int) + (INV_MDS@[57] as int) * (MDS@[30] as int) + (INV_MDS@[58] as int) * (MDS@[39] as int) + (INV_MDS@[59] as int) * (MDS@[48] as int) + (INV_MDS@[60] as int) * (MDS@[57] as int) + (INV_MDS@[61] as int) * (MDS@[66] as int) + (INV_MDS@[62] as int) * (MDS@[75] as int));
    assert(((INV_MDS@[54] as int) * (MDS@[3] as int) + (INV_MDS@[55] as int) * (MDS@[12] as int) + (INV_MDS@[56] as int) * (MDS@[21] as int) + (INV_MDS@[57] as int) * (MDS@[30] as int) + (INV_MDS@[58] as int) * (MDS@[39] as int) + (INV_MDS@[59] as int) * (MDS@[48] as int) + (INV_MDS@[60] as int) * (MDS@[57] as int) + (INV_MDS@[61] as int) * (MDS@[66] as int) + (INV_MDS@[62] as int) * (MDS@[75] as int)) % 340282366920938463463374557953744961537 == 0) by (nonlinear_arith)
        requires
            INV_MDS@[54] == 52011660187227698998307018524445124622, INV_MDS@[55] == 191078345965907944922431974561774457545, INV_MDS@[56] == 86336838853676487241056288607338298724, INV_MDS@[57] == 125093328226800820985177164342949053500, INV_MDS@[58] == 10689792024438114156388383608175598304, INV_MDS@[59] == 329939868120376749051950735773432225615, INV_MDS@[60] == 23499294867058318465853361897065892690, INV_MDS@[61] == 278372710189966668032426818312990960568, INV_MDS@[62] == 264107629248301051999906486186808234581, MDS@[3] == 340282366920938463463364822667744381797, MDS@[12] == 340282366920938463367654019497453733057, MDS@[21] == 340282366920937757157506327072060715056, MDS@[30] == 340282366916126655152737768305002590337, MDS@[39] == 340282334957138432026603756253961717317, MDS@[48] == 340071788261635189888022255808831580097, MDS@[57] == 317912742718020576130300337690805571243, MDS@[66] == 177473572991922008668894803954934702656, MDS@[75] == 310813334522360543261976075967969844628,
    ;
    assert(product_entry(INV_MDS@, MDS@, 9, 6, 4) == (INV_MDS@[54] as int) * (MDS@[4] as int) + (INV_MDS@[55] as int) * (MDS@[13] as int) + (INV_MDS@[56] as int) * (MDS@[22] as int) + (INV_MDS@[57] as int) * (MDS@[31] as int) + (INV_MDS@[58] as int) * (MDS@[40] as int) + (INV_MDS@[59] as int) * (MDS@[49] as int) + (INV_MDS@[60] as int) * (MDS@[58] as int) + (INV_MDS@[61] as int) * (MDS@[67] as int) + (INV_MDS@[62] as int) * (MDS@[76] as int));
    assert(((INV_MDS@[54] as int) * (MDS@[4] as int) + (INV_MDS@[55] as int) * (MDS@[13] as int) + (INV_MDS@[56] as int) * (MDS@[22] as int) + (INV_MDS@[57] as int) * (MDS@[31] as int) + (INV_MDS@[58] as int) * (MDS@[40] as int) + (INV_MDS@[59] as int) * (MDS@[49] as int) + (INV_MDS@[60] as int) * (MDS@[58] as int) + (INV_MDS@[61] as int) * (MDS@[67] as int) + (INV_MDS@[62] as int) * (MDS@[76] as int)) % 340282366920938463463374557953744961537 == 0) by (nonlinear_arith)
        requires
            INV_MDS@[54] == 52011660187227698998307018524445124622, INV_MDS@[55] == 191078345965907944922431974561774457545, INV_MDS@[56] == 86336838853676487241056288607338298724, INV_MDS@[57] == 125093328226800820985177164342949053500, INV_MDS@[58] == 10689792024438114156388383608175598304, INV_MDS@[59] == 329939868120376749051950735773432225615, INV_MDS@[60] == 23499294867058318465853361897065892690, INV_MDS@[61] == 278372710189966668032426818312990960568, INV_MDS@[62] == 264107629248301051999906486186808234581, MDS@[4] == 364572438704838, MDS@[13] == 3578022083293731018, MDS@[22] == 26385516604305016476318, MDS@[31] == 179718510858368911187836077, MDS@[40] == 1193750249204165634400502061594, MDS@[49] == 7864291806006227817276975764611134, MDS@[58] == 51667907444403809555847542124007809234, MDS@[67] == 225693703897588175263197025163593303860, MDS@[76] == 58189218743095556616922042146577748196,
    ;
    assert(product_entry(INV_MDS@, MDS@, 9, 6, 5) == (INV_MDS@[54] as int) * (MDS@[5] as int) + (INV_MDS@[55] as int) * (MDS@[14] as int) + (INV_MDS@[56] as int) * (MDS@[23] as int) + (INV_MDS@[57] as int) * (MDS@[32] as int) + (INV_MDS@[58] as int) * (MDS@[41] as int) + (INV_MDS@[59] as int) * (MDS@[50] as int) + (INV_MDS@[60] as int) * (MDS@[59] as int) + (INV_MDS@[61] as int) * (MDS@[68] as int) + (INV_MDS@[62] as int) * (MDS@[77] as int));
    assert(((INV_MDS@[54] as int) * (MDS@[5] as int) + (INV_MDS@[55] as int) * (MDS@[14] as int) + (INV_MDS@[56] as int) * (MDS@[23] as int) + (INV_MDS@[57] as int) * (MDS@[32] as int) + (INV_MDS@[58] as int) * (MDS@[41] as int) + (INV_MDS@[59] as int) * (MDS@[50] as int) + (INV_MDS@[60] as int) * (MDS@[59] as int) + (INV_MDS@[61] as int) * (MDS@[68] as int) + (INV_MDS@[62] as int) * (MDS@[77] as int)) % 340282366920938463463374557953744961537 == 0) by (nonlinear_arith)
        requires
            INV_MDS@[54] == 52011660187227698998307018524445124622, INV_MDS@[55] == 191078345965907944922431974561774457545, INV_MDS@[56] == 86336838853676487241056288607338298724, INV_MDS@[57] == 125093328226800820985177164342949053500, INV_MDS@[58] == 10689792024438114156388383608175598304, INV_MDS@[59] == 329939868120376749051950735773432225615, INV_MDS@[60] == 23499294867058318465853361897065892690, INV_MDS@[61] == 278372710189966668032426818312990960568, INV_MDS@[62] == 264107629248301051999906486186808234581, MDS@[5] == 340282366920938463463374553452850656539, MDS@[14] == 340282366920938463463330629225328181057, MDS@[23] == 340282366920938463140023726422701560397, MDS@[32] == 340282366920936262382017994360084004737, MDS@[41] == 340282366906321119535778575950744594740, MDS@[50] == 340282270630051601091434166691585938497, MDS@[59] == 339649756075661666195744923271868570317, MDS@[68] == 271259291625999272530694212816871392781, MDS@[77] == 88532793352623448815797177624516430079,
    ;
    assert(product_entry(INV_MDS@, MDS@, 9, 6, 6) == (INV_MDS@[54] as int) * (MDS@[6] as int) + (INV_MDS@[55] as int) * (MDS@[15] as int) + (INV_MDS@[56] as int) * (MDS@[24] as int) + (INV_MDS@[57] as int) * (MDS@[33] as int) + (INV_MDS@[58] as int) * (MDS@[42] as int) + (INV_MDS@[59] as int) * (MDS@[51] as int) + (INV_MDS@[60] as int) * (MDS@[60] as int) + (INV_MDS@[61] as int) * (MDS@[69] as int) + (INV_MDS@[62] as int) * (MDS@[78] as int));
    assert(((INV_MDS@[54] as int) * (MDS@[6] as int) + (INV_MDS@[55] as int) * (MDS@[15] as int) + (INV_MDS@[56] as int) * (MDS@[24] as int) + (INV_MDS@[57] as int) * (MDS@[33] as int) + (INV_MDS@[58] as int) * (MDS@[42] as int) + (INV_MDS@[59] as int) * (MDS@[51] as int) + (INV_MDS@[60] as int) * (MDS@[60] as int) + (INV_MDS@[61] as int) * (MDS@[69] as int) + (INV_MDS@[62] as int) * (MDS@[78] as int)) % 340282366920938463463374557953744961537 == 1) by (nonlinear_arith)
        requires
            INV_MDS@[54] == 52011660187227698998307018524445124622, INV_MDS@[55] == 191078345965907944922431974561774457545, INV_MDS@[56] == 86336838853676487241056288607338298724, INV_MDS@[57] == 125093328226800820985177164342949053500, INV_MDS@[58] == 10689792024438114156388383608175598304, INV_MDS@[59] == 329939868120376749051950735773432225615, INV_MDS@[60] == 23499294867058318465853361897065892690, INV_MDS@[61] == 278372710189966668032426818312990960568, INV_MDS@[62] == 264107629248301051999906486186808234581, MDS@[6] == 18318658140, MDS@[15] == 175773020450742, MDS@[24] == 1286673036395336460, MDS@[33] == 8742448408061543808600, MDS@[42] == 58023022992049963173346020, MDS@[51] == 382145525879388576506005172823, MDS@[60] == 2510445527801052949502558181396180, MDS@[69] == 16478009365511174087881242740613722400, MDS@[78] == 257968030906974364479467734461159660011,
    ;
    assert(product_entry(INV_MDS@, MDS@, 9, 6, 7) == (INV_MDS@[54] as int) * (MDS@[7] as int) + (INV_MDS@[55] as int) * (MDS@[16] as int) + (INV_MDS@[56] as int) * (MDS@[25] as int) + (INV_MDS@[57] as int) * (MDS@[34] as int) + (INV_MDS@[58] as int) * (MDS@[43] as int) + (INV_MDS@[59] as int) * (MDS@[52] as int) + (INV_MDS@[60] as int) * (MDS@[61] as int) + (INV_MDS@[61] as int) * (MDS@[70] as int) + (INV_MDS@[62] as int) * (MDS@[79] as int));
    assert(((INV_MDS@[54] as int) * (MDS@[7] as int) + (INV_MDS@[55] as int) * (MDS@[16] as int) + (INV_MDS@[56] as int) * (MDS@[25] as int) + (INV_MDS@[57] as int) * (MDS@[34] as int) + (INV_MDS@[58] as int) * (MDS@[43] as int) + (INV_MDS@[59] as int) * (MDS@[52] as int) + (INV_MDS@[60] as int) * (MDS@[61] as int) + (INV_MDS@[61] as int) * (MDS@[70] as int) + (INV_MDS@[62] as int) * (MDS@[79] as int)) % 340282366920938463463374557953744961537 == 0) by (nonlinear_arith)
        requires
            INV_MDS@[54] == 52011660187227698998307018524445124622, INV_MDS@[55] == 191078345965907944922431974561774457545, INV_MDS@[56] == 86336838853676487241056288607338298724, INV_MDS@[57] == 125093328226800820985177164342949053500, INV_MDS@[58] == 10689792024438114156388383608175598304, INV_MDS@[59] == 329939868120376749051950735773432225615, INV_MDS@[60] == 23499294867058318465853361897065892690, INV_MDS@[61] == 278372710189966668032426818312990960568, INV_MDS@[62] == 264107629248301051999906486186808234581, MDS@[7] == 340282366920938463463374557953720752677, MDS@[16] == 340282366920938463463374557733824228417, MDS@[25] == 340282366920938463463372975281818522219, MDS@[34] == 340282366920938463452680404506994660737, MDS@[43] == 340282366920938392617192638478820451957, MDS@[52] == 340282366920472148038924217019224186177, MDS@[61] == 340282363858174627685294031214892512580, MDS@[70] == 340262264978264552243515110485852110337, MDS@[79] == 208377884906813703378925729595147376377,
    ;
    assert(product_entry(INV_MDS@, MDS@, 9, 6, 8) == (INV_MDS@[54] as int) * (MDS@[8] as int) + (INV_MDS@[55] as int) * (MDS@[17] as int) + (INV_MDS@[56] as int) * (MDS@[26] as int) + (INV_MDS@[57] as int) * (MDS@[35] as int) + (INV_MDS@[58] as int) * (MDS@[44] as int) + (INV_MDS@[59] as int) * (MDS@[53] as int) + (INV_MDS@[60] as int) * (MDS@[62] as int) + (INV_MDS@[61] as int) * (MDS@[71] as int) + (INV_MDS@[62] as int) * (MDS@[80] as int));
    assert(((INV_MDS@[54] as int) * (MDS@[8] as int) + (INV_MDS@[55] as int) * (MDS@[17] as int) + (INV_MDS@[56] as int) * (MDS@[26] as int) + (INV_MDS@[57] as int) * (MDS@[35] as int) + (INV_MDS@[58] as int) * (MDS@[44] as int) + (INV_MDS@[59] as int) * (MDS@[53] as int) + (INV_MDS@[60] as int) * (MDS@[62] as int) + (INV_MDS@[61] as int) * (MDS@[71] as int) + (INV_MDS@[62] as int) * (MDS@[80] as int)) % 340282366920938463463374557953744961537 == 0) by (nonlinear_arith)
        requires
            INV_MDS@[54] == 52011660187227698998307018524445124622, INV_MDS@[55] == 191078345965907944922431974561774457545, INV_MDS@[56] == 86336838853676487241056288607338298724, INV_MDS@[57] == 125093328226800820985177164342949053500, INV_MDS@[58] == 10689792024438114156388383608175598304, INV_MDS@[59] == 329939868120376749051950735773432225615, INV_MDS@[60] == 23499294867058318465853361897065892690, INV_MDS@[61] == 278372710189966668032426818312990960568, INV_MDS@[62] == 264107629248301051999906486186808234581, MDS@[8] == 9841, MDS@[17] == 72636421, MDS@[26] == 494894285941, MDS@[35] == 3287582741506063, MDS@[44] == 21658948312410865183, MDS@[53] == 142299528422960399756323, MDS@[62] == 934054234760012359481199283, MDS@[71] == 6129263888495201102915629695046, MDS@[80] == 40216143252770054194345243936096486,
    ;
}

proof fn lemma_product_backward_row_7()
    ensures
        identity_row(Elem::modulus(), INV_MDS@, MDS@, 9, 7, 9),
{
    reveal_with_fuel(sum, 10);
    reveal_with_fuel(identity_row, 10);
    assert(product_entry(INV_MDS@, MDS@, 9, 7, 0) == (INV_MDS@[63] as int) * (MDS@[0] as int) + (INV_MDS@[64] as int) * (MDS@[9] as int) + (INV_MDS@[65] as int) * (MDS@[18] as int) + (INV_MDS@[66] as int) * (MDS@[27] as int) + (INV_MDS@[67] as int) * (MDS@[36] as int) + (INV_MDS@[68] as int) * (MDS@[45] as int) + (INV_MDS@[69] as int) * (MDS@[54] as int) + (INV_MDS@[70] as int) * (MDS@[63] as int) + (INV_MDS@[71] as int) * (MDS@[72] as int));
    assert(((INV_MDS@[63] as int) * (MDS@[0] as int) + (INV_MDS@[64] as int) * (MDS@[9] as int) + (INV_MDS@[65] as int) * (MDS@[18] as int) + (INV_MDS@[66] as int) * (MDS@[27] as int) + (INV_MDS@[67] as int) * (MDS@[36] as int) + (INV_MDS@[68] as int) * (MDS@[45] as int) + (INV_MDS@[69] as int) * (MDS@[54] as int) + (INV_MDS@[70] as int) * (MDS@[63] as int) + (INV_MDS@[71] as int) * (MDS@[72] as int)) % 340282366920938463463374557953744961537 == 0) by (nonlinear_arith)
        requires
            INV_MDS@[63] == 302228698991084466216875753830938701241, INV_MDS@[64] == 280345530278773498915828360047963227132, INV_MDS@[65] == 333099072682993183200689623504181423558, INV_MDS@[66] == 27875343830661393369872307155840999075, INV_MDS@[67] == 47883408063394345577170731401514016906, INV_MDS@[68] == 20045034666478649987681661989026523732, INV_MDS@[69] == 282120995912747862095020676645287935430, INV_MDS@[70] == 122980149585923452096449943205160728029, INV_MDS@[71] == 284833600592635465857283731988811252583, MDS@[0] == 150094635296999121, MDS@[9] == 1477081305957768349761, MDS@[18] == 10902337119274288189585941, MDS@[27] == 74280977358883194447399657861, MDS@[36] == 493448532595061060714075927170623, MDS@[45] == 3250891947867863390247053555200504143, MDS@[54] == 260889072481016946483921979409357576789, MDS@[63] == 194542495007434960394582255983923586243, MDS@[72] == 188693918348033658130796882009222201279,
    ;
    assert(product_entry(INV_MDS@, MDS@, 9, 7, 1) == (INV_MDS@[63] as int) * (MDS@[1] as int) + (INV_MDS@[64] as int) * (MDS@[10] as int) + (INV_MDS@[65] as int) * (MDS@[19] as int) + (INV_MDS@[66] as int) * (MDS@[28] as int) + (INV_MDS@[67] as int) * (MDS@[37] as int) + (INV_MDS@[68] as int) * (MDS@[46] as int) + (INV_MDS@[69] as int) * (MDS@[55] as int) + (INV_MDS@[70] as int) * (MDS@[64] as int) + (INV_MDS@[71] as int) * (MDS@[73] as int));
    assert(((INV_MDS@[63] as int) * (MDS@[1] as int) + (INV_MDS@[64] as int) * (MDS@[10] as int) + (INV_MDS@[65] as int) * (MDS@[19] as int) + (INV_MDS@[66] as int) * (MDS@[28] as int) + (INV_MDS@[67] as int) * (MDS@[37] as int) + (INV_MDS@[68] as int) * (MDS@[46] as int) + (INV_MDS@[69] as int) * (MDS@[55] as int) + (INV_MDS@[70] as int) * (MDS@[64] as int) + (INV_MDS@[71] as int) * (MDS@[73] as int)) % 340282366920938463463374557953744961537 == 0) by (nonlinear_arith)
        requires
            INV_MDS@[63] == 302228698991084466216875753830938701241, INV_MDS@[64] == 280345530278773498915828360047963227132, INV_MDS@[65] == 333099072682993183200689623504181423558, INV_MDS@[66] == 27875343830661393369872307155840999075, INV_MDS@[67] == 47883408063394345577170731401514016906, INV_MDS@[68] == 20045034666478649987681661989026523732, INV_MDS@[69] == 282120995912747862095020676645287935430, INV_MDS@[70] == 122980149585923452096449943205160728029, INV_MDS@[71] == 284833600592635465857283731988811252583, MDS@[1] == 340282366920938463463149427439195690336, MDS@[10] == 340282366920938461248015258909664071617, MDS@[19] == 340282366920922112265621116423314299677, MDS@[28] == 340282366809533560559102349761084062337, MDS@[37] == 340281626860025222258639632111371827735, MDS@[46] == 335406770191301931314646938843156637377, MDS@[55] == 294109695457304815011263569543330296235, MDS@[64] == 104404390561882821492740793700399886259, MDS@[73] == 314243109041589500728057538205852247049,
    ;
    assert(product_entry(INV_MDS@, MDS@, 9, 7, 2) == (INV_MDS@[63] as int) * (MDS@[2] as int) + (INV_MDS@[64] as int) * (MDS@[11] as int) + (INV_MDS@[65] as int) * (MDS@[20] as int) + (INV_MDS@[66] as int) * (MDS@[29] as int) + (INV_MDS@[67] as int) * (MDS@[38] as int) + (INV_MDS@[68] as int) * (MDS@[47] as int) + (INV_MDS@[69] as int) * (MDS@[56] as int) + (INV_MDS@[70] as int) * (MDS@[65] as int) + (INV_MDS@[71] as int) * (MDS@[74] as int));
    assert(((INV_MDS@[63] as int) * (MDS@[2] as int) + (INV_MDS@[64] as int) * (MDS@[11] as int) + (INV_MDS@[65] as int) * (MDS@[20] as int) + (INV_MDS@[66] as int) * (MDS@[29] as int) + (INV_MDS@[67] as int) * (MDS@[38] as int) + (INV_MDS@[68] as int) * (MDS@[47] as int) + (INV_MDS@[69] as int) * (MDS@[56] as int) + (INV_MDS@[70] as int) * (MDS@[65] as int) + (INV_MDS@[71] as int) * (MDS@[74] as int)) % 340282366920938463463374557953744961537 == 0) by (nonlinear_arith)
        requires
            INV_MDS@[63] == 302228698991084466216875753830938701241, INV_MDS@[64] == 280345530278773498915828360047963227132, INV_MDS@[65] == 333099072682993183200689623504181423558, INV_MDS@[66] == 27875343830661393369872307155840999075, INV_MDS@[67] == 47883408063394345577170731401514016906, INV_MDS@[68] == 20045034666478649987681661989026523732, INV_MDS@[69] == 282120995912747862095020676645287935430, INV_MDS@[70] == 122980149585923452096449943205160728029, INV_MDS@[71] == 284833600592635465857283731988811252583, MDS@[2] == 84411075413992860, MDS@[11] == 830464262634554464059, MDS@[20] == 6129103051534490589064140, MDS@[29] == 41758207694766455878941719400, MDS@[38] == 277396989820105406282268067810980, MDS@[47] == 1827515058473445723489323454811459578, MDS@[56] == 96897786123648020966790891596799875825, MDS@[65] == 31015733125887000676791684053161446567, MDS@[74] == 274553328639948771850735264514343203581,
    ;
    assert(product_entry(INV_MDS@, MDS@, 9, 7, 3) == (INV_MDS@[63] as int) * (MDS@[3] as int) + (INV_MDS@[64] as int) * (MDS@[12] as int) + (INV_MDS@[65] as int) * (MDS@[21] as int) + (INV_MDS@[66] as int) * (MDS@[30] as int) + (INV_MDS@[67] as int) * (MDS@[39] as int) + (INV_MDS@[68] as int) * (MDS@[48] as int) + (INV_MDS@[69] as int) * (MDS@[57] as int) + (INV_MDS@[70] as int) * (MDS@[66] as int) + (INV_MDS@[71] as int) * (MDS@[75] as int));
    assert(((INV_MDS@[63] as int) * (MDS@[3] as int) + (INV_MDS@[64] as int) * (MDS@[12] as int) + (INV_MDS@[65] as int) * (MDS@[21] as int) + (INV_MDS@[66] as int) * (MDS@[30] as int) + (INV_MDS@[67] as int) * (MDS@[39] as int) + (INV_MDS@[68] as int) * (MDS@[48] as int) + (INV_MDS@[69] as int) * (MDS@[57] as int) + (INV_MDS@[70] as int) * (MDS@[66] as int) + (INV_MDS@[71] as int) * (MDS@[75] as int)) % 340282366920938463463374557953744961537 == 0) by (nonlinear_arith)
        requires
            INV_MDS@[63] == 302228698991084466216875753830938701241, INV_MDS@[64] == 280345530278773498915828360047963227132, INV_MDS@[65] == 333099072682993183200689623504181423558, INV_MDS@[66] == 27875343830661393369872307155840999075, INV_MDS@[67] == 47883408063394345577170731401514016906, INV_MDS@[68] == 20045034666478649987681661989026523732, INV_MDS@[69] == 282120995912747862095020676645287935430, INV_MDS@[70] == 122980149585923452096449943205160728029, INV_MDS@[71] == 284833600592635465857283731988811252583, MDS@[3] == 340282366920938463463364822667744381797, MDS@[12] == 340282366920938463367654019497453733057, MDS@[21] == 340282366920937757157506327072060715056, MDS@[30] == 340282366916126655152737768305002590337, MDS@[39] == 340282334957138432026603756253961717317, MDS@[48] == 340071788261635189888022255808831580097, MDS@[57] == 317912742718020576130300337690805571243, MDS@[66] == 177473572991922008668894803954934702656, MDS@[75] == 310813334522360543261976075967969844628,
    ;
    assert(product_entry(INV_MDS@, MDS@, 9, 7, 4) == (INV_MDS@[63] as int) * (MDS@[4] as int) + (INV_MDS@[64] as int) * (MDS@[13] as int) + (INV_MDS@[65] as int) * (MDS@[22] as int) + (INV_MDS@[66] as int) * (MDS@[31] as int) + (INV_MDS@[67] as int) * (MDS@[40] as int) + (INV_MDS@[68] as int) * (MDS@[49] as int) + (INV_MDS@[69] as int) * (MDS@[58] as int) + (INV_MDS@[70] as int) * (MDS@[67] as int) + (INV_MDS@[71] as int) * (MDS@[76] as int));
    assert(((INV_MDS@[63] as int) * (MDS@[4] as int) + (INV_MDS@[64] as int) * (MDS@[13] as int) + (INV_MDS@[65] as int) * (MDS@[22] as int) + (INV_MDS@[66] as int) * (MDS@[31] as int) + (INV_MDS@[67] as int) * (MDS@[40] as int) + (INV_MDS@[68] as int) * (MDS@[49] as int) + (INV_MDS@[69] as int) * (MDS@[58] as int) + (INV_MDS@[70] as int) * (MDS@[67] as int) + (INV_MDS@[71] as int) * (MDS@[76] as int)) % 340282366920938463463374557953744961537 == 0) by (nonlinear_arith)
        requires
            INV_MDS@[63] == 302228698991084466216875753830938701241, INV_MDS@[64] == 280345530278773498915828360047963227132, INV_MDS@[65] == 333099072682993183200689623504181423558, INV_MDS@[66] == 27875343830661393369872307155840999075, INV_MDS@[67] == 47883408063394345577170731401514016906, INV_MDS@[68] == 20045034666478649987681661989026523732, INV_MDS@[69] == 282120995912747862095020676645287935430, INV_MDS@[70] == 122980149585923452096449943205160728029, INV_MDS@[71] == 284833600592635465857283731988811252583, MDS@[4] == 364572438704838, MDS@[13] == 3578022083293731018, MDS@[22] == 26385516604305016476318, MDS@[31] == 179718510858368911187836077, MDS@[40] == 1193750249204165634400502061594, MDS@[49] == 7864291806006227817276975764611134, MDS@[58] == 51667907444403809555847542124007809234, MDS@[67] == 225693703897588175263197025163593303860, MDS@[76] == 58189218743095556616922042146577748196,
    ;
    assert(product_entry(INV_MDS@, MDS@, 9, 7, 5) == (INV_MDS@[63] as int) * (MDS@[5] as int) + (INV_MDS@[64] as int) * (MDS@[14] as int) + (INV_MDS@[65] as int) * (MDS@[23] as int) + (INV_MDS@[66] as int) * (MDS@[32] as int) + (INV_MDS@[67] as int) * (MDS@[41] as int) + (INV_MDS@[68] as int) * (MDS@[50] as int) + (INV_MDS@[69] as int) * (MDS@[59] as int) + (INV_MDS@[70] as int) * (MDS@[68] as int) + (INV_MDS@[71] as int) * (MDS@[77] as int));
    assert(((INV_MDS@[63] as int) * (MDS@[5] as int) + (INV_MDS@[64] as int) * (MDS@[14] as int) + (INV_MDS@[65] as int) * (MDS@[23] as int) + (INV_MDS@[66] as int) * (MDS@[32] as int) + (INV_MDS@[67] as int) * (MDS@[41] as int) + (INV_MDS@[68] as int) * (MDS@[50] as int) + (INV_MDS@[69] as int) * (MDS@[59] as int) + (INV_MDS@[70] as int) * (MDS@[68] as int) + (INV_MDS@[71] as int) * (MDS@[77] as int)) % 340282366920938463463374557953744961537 == 0) by (nonlinear_arith)
        requires
            INV_MDS@[63] == 302228698991084466216875753830938701241, INV_MDS@[64] == 280345530278773498915828360047963227132, INV_MDS@[65] == 333099072682993183200689623504181423558, INV_MDS@[66] == 27875343830661393369872307155840999075, INV_MDS@[67] == 47883408063394345577170731401514016906, INV_MDS@[68] == 20045034666478649987681661989026523732, INV_MDS@[69] == 282120995912747862095020676645287935430, INV_MDS@[70] == 122980149585923452096449943205160728029, INV_MDS@[71] == 284833600592635465857283731988811252583, MDS@[5] == 340282366920938463463374553452850656539, MDS@[14] == 340282366920938463463330629225328181057, MDS@[23] == 340282366920938463140023726422701560397, MDS@[32] == 340282366920936262382017994360084004737, MDS@[41] == 340282366906321119535778575950744594740, MDS@[50] == 340282270630051601091434166691585938497, MDS@[59] == 339649756075661666195744923271868570317, MDS@[68] == 271259291625999272530694212816871392781, MDS@[77] == 88532793352623448815797177624516430079,
    ;
    assert(product_entry(INV_MDS@, MDS@, 9, 7, 6) == (INV_MDS@[63] as int) * (MDS@[6] as int) + (INV_MDS@[64] as int) * (MDS@[15] as int) + (INV_MDS@[65] as int) * (MDS@[24] as int) + (INV_MDS@[66] as int) * (MDS@[33] as int) + (INV_MDS@[67] as int) * (MDS@[42] as int) + (INV_MDS@[68] as int) * (MDS@[51] as int) + (INV_MDS@[69] as int) * (MDS@[60] as int) + (INV_MDS@[70] as int) * (MDS@[69] as int) + (INV_MDS@[71] as int) * (MDS@[78] as int));
    assert(((INV_MDS@[63] as int) * (MDS@[6] as int) + (INV_MDS@[64] as int) * (MDS@[15] as int) + (INV_MDS@[65] as int) * (MDS@[24] as int) + (INV_MDS@[66] as int) * (MDS@[33] as int) + (INV_MDS@[67] as int) * (MDS@[42] as int) + (INV_MDS@[68] as int) * (MDS@[51] as int) + (INV_MDS@[69] as int) * (MDS@[60] as int) + (INV_MDS@[70] as int) * (MDS@[69] as int) + (INV_MDS@[71] as int) * (MDS@[78] as int)) % 340282366920938463463374557953744961537 == 0) by (nonlinear_arith)
        requires
            INV_MDS@[63] == 302228698991084466216875753830938701241, INV_MDS@[64] == 280345530278773498915828360047963227132, INV_MDS@[65] == 333099072682993183200689623504181423558, INV_MDS@[66] == 27875343830661393369872307155840999075, INV_MDS@[67] == 47883408063394345577170731401514016906, INV_MDS@[68] == 20045034666478649987681661989026523732, INV_MDS@[69] == 282120995912747862095020676645287935430, INV_MDS@[70] == 122980149585923452096449943205160728029, INV_MDS@[71] == 284833600592635465857283731988811252583, MDS@[6] == 18318658140, MDS@[15] == 175773020450742, MDS@[24] == 1286673036395336460, MDS@[33] == 8742448408061543808600, MDS@[42] == 58023022992049963173346020, MDS@[51] == 382145525879388576506005172823, MDS@[60] == 2510445527801052949502558181396180, MDS@[69] == 16478009365511174087881242740613722400, MDS@[78] == 257968030906974364479467734461159660011,
    ;
    assert(product_entry(INV_MDS@, MDS@, 9, 7, 7) == (INV_MDS@[63] as int) * (MDS@[7] as int) + (INV_MDS@[64] as int) * (MDS@[16] as int) + (INV_MDS@[65] as int) * (MDS@[25] as int) + (INV_MDS@[66] as int) * (MDS@[34] as int) + (INV_MDS@[67] as int) * (MDS@[43] as int) + (INV_MDS@[68] as int) * (MDS@[52] as int) + (INV_MDS@[69] as int) * (MDS@[61] as int) + (INV_MDS@[70] as int) * (MDS@[70] as int) + (INV_MDS@[71] as int) * (MDS@[79] as int));
    assert(((INV_MDS@[63] as int) * (MDS@[7] as int) + (INV_MDS@[64] as int) * (MDS@[16] as int) + (INV_MDS@[65] as int) * (MDS@[25] as int) + (INV_MDS@[66] as int) * (MDS@[34] as int) + (INV_MDS@[67] as int) * (MDS@[43] as int) + (INV_MDS@[68] as int) * (MDS@[52] as int) + (INV_MDS@[69] as int) * (MDS@[61] as int) + (INV_MDS@[70] as int) * (MDS@[70] as int) + (INV_MDS@[71] as int) * (MDS@[79] as int)) % 340282366920938463463374557953744961537 == 1) by (nonlinear_arith)
        requires
            INV_MDS@[63] == 302228698991084466216875753830938701241, INV_MDS@[64] == 280345530278773498915828360047963227132, INV_MDS@[65] == 333099072682993183200689623504181423558, INV_MDS@[66] == 27875343830661393369872307155840999075, INV_MDS@[67] == 47883408063394345577170731401514016906, INV_MDS@[68] == 20045034666478649987681661989026523732, INV_MDS@[69] == 282120995912747862095020676645287935430, INV_MDS@[70] == 122980149585923452096449943205160728029, INV_MDS@[71] == 284833600592635465857283731988811252583, MDS@[7] == 340282366920938463463374557953720752677, MDS@[16] == 340282366920938463463374557733824228417, MDS@[25] == 340282366920938463463372975281818522219, MDS@[34] == 340282366920938463452680404506994660737, MDS@[43] == 340282366920938392617192638478820451957, MDS@[52] == 340282366920472148038924217019224186177, MDS@[61] == 340282363858174627685294031214892512580, MDS@[70] == 340262264978264552243515110485852110337, MDS@[79] == 208377884906813703378925729595147376377,
    ;
    assert(product_entry(INV_MDS@, MDS@, 9, 7, 8) == (INV_MDS@[63] as int) * (MDS@[8] as int) + (INV_MDS@[64] as int) * (MDS@[17] as int) + (INV_MDS@[65] as int) * (MDS@[26] as int) + (INV_MDS@[66] as int) * (MDS@[35] as int) + (INV_MDS@[67] as int) * (MDS@[44] as int) + (INV_MDS@[68] as int) * (MDS@[53] as int) + (INV_MDS@[69] as int) * (MDS@[62] as int) + (INV_MDS@[70] as int) * (MDS@[71] as int) + (INV_MDS@[71] as int) * (MDS@[80] as int));
    assert(((INV_MDS@[63] as int) * (MDS@[8] as int) + (INV_MDS@[64] as int) * (MDS@[17] as int) + (INV_MDS@[65] as int) * (MDS@[26] as int) + (INV_MDS@[66] as int) * (MDS@[35] as int) + (INV_MDS@[67] as int) * (MDS@[44] as int) + (INV_MDS@[68] as int) * (MDS@[53] as int) + (INV_MDS@[69] as int) * (MDS@[62] as int) + (INV_MDS@[70] as int) * (MDS@[71] as int) + (INV_MDS@[71] as int) * (MDS@[80] as int)) % 340282366920938463463374557953744961537 == 0) by (nonlinear_arith)
        requires
            INV_MDS@[63] == 302228698991084466216875753830938701241, INV_MDS@[64] == 280345530278773498915828360047963227132, INV_MDS@[65] == 333099072682993183200689623504181423558, INV_MDS@[66] == 27875343830661393369872307155840999075, INV_MDS@[67] == 47883408063394345577170731401514016906, INV_MDS@[68] == 20045034666478649987681661989026523732, INV_MDS@[69] == 282120995912747862095020676645287935430, INV_MDS@[70] == 122980149585923452096449943205160728029, INV_MDS@[71] == 284833600592635465857283731988811252583, MDS@[8] == 9841, MDS@[17] == 72636421, MDS@[26] == 494894285941, MDS@[35] == 3287582741506063, MDS@[44] == 21658948312410865183, MDS@[53] == 142299528422960399756323, MDS@[62] == 934054234760012359481199283, MDS@[71] == 6129263888495201102915629695046, MDS@[80] == 40216143252770054194345243936096486,
    ;
}

proof fn lemma_product_backward_row_8()
    ensures
        identity_row(Elem::modulus(), INV_MDS@, MDS@, 9, 8, 9),
{
    reveal_with_fuel(sum, 10);
    reveal_with_fuel(identity_row, 10);
    assert(product_entry(INV_MDS@, MDS@, 9, 8, 0) == (INV_MDS@[72] as int) * (MDS@[0] as int) + (INV_MDS@[73] as int) * (MDS@[9] as int) + (INV_MDS@[74] as int) * (MDS@[18] as int) + (INV_MDS@[75] as int) * (MDS@[27] as int) + (INV_MDS@[76] as int) * (MDS@[36] as int) + (INV_MDS@[77] as int) * (MDS@[45] as int) + (INV_MDS@[78] as int) * (MDS@[54] as int) + (INV_MDS@[79] as int) * (MDS@[63] as int) + (INV_MDS@[80] as int) * (MDS@[72] as int));
    assert(((INV_MDS@[72] as int) * (MDS@[0] as int) + (INV_MDS@[73] as int) * (MDS@[9] as int) + (INV_MDS@[74] as int) * (MDS@[18] as int) + (INV_MDS@[75] as int) * (MDS@[27] as int) + (INV_MDS@[76] as int) * (MDS@[36] as int) + (INV_MDS@[77] as int) * (MDS@[45] as int) + (INV_MDS@[78] as int) * (MDS@[54] as int) + (INV_MDS@[79] as int) * (MDS@[63] as int) + (INV_MDS@[80] as int) * (MDS@[72] as int)) % 340282366920938463463374557953744961537 == 0) by (nonlinear_arith)
        requires
            INV_MDS@[72] == 243710843188765407683950167325811244364, INV_MDS@[73] == 164728799513981287864597798438362590906, INV_MDS@[74] == 203691322335641954496554143160915473208, INV_MDS@[75] == 207184049598426413618777837396461507381, INV_MDS@[76] == 182286914752134147886045712500843417287, INV_MDS@[77] == 104791328630945774391628390734939042132, INV_MDS@[78] == 292925681130628074351389456735241751204, INV_MDS@[79] == 37505641512749851214506703376700564141, INV_MDS@[80] == 264587253941419405809422580099449217063, MDS@[0] == 150094635296999121, MDS@[9] == 1477081305957768349761, MDS@[18] == 10902337119274288189585941, MDS@[27] == 74280977358883194447399657861, MDS@[36] == 493448532595061060714075927170623, MDS@[45] == 3250891947867863390247053555200504143, MDS@[54] == 260889072481016946483921979409357576789, MDS@[63] == 194542495007434960394582255983923586243, MDS@[72] == 188693918348033658130796882009222201279,
    ;
    assert(product_entry(INV_MDS@, MDS@, 9, 8, 1) == (INV_MDS@[72] as int) * (MDS@[1] as int) + (INV_MDS@[73] as int) * (MDS@[10] as int) + (INV_MDS@[74] as int) * (MDS@[19] as int) + (INV_MDS@[75] as int) * (MDS@[28] as int) + (INV_MDS@[76] as int) * (MDS@[37] as int) + (INV_MDS@[77] as int) * (MDS@[46] as int) + (INV_MDS@[78] as int) * (MDS@[55] as int) + (INV_MDS@[79] as int) * (MDS@[64] as int) + (INV_MDS@[80] as int) * (MDS@[73] as int));
    assert(((INV_MDS@[72] as int) * (MDS@[1] as int) + (INV_MDS@[73] as int) * (MDS@[10] as int) + (INV_MDS@[74] as int) * (MDS@[19] as int) + (INV_MDS@[75] as int) * (MDS@[28] as int) + (INV_MDS@[76] as int) * (MDS@[37] as int) + (INV_MDS@[77] as int) * (MDS@[46] as int) + (INV_MDS@[78] as int) * (MDS@[55] as int) + (INV_MDS@[79] as int) * (MDS@[64] as int) + (INV_MDS@[80] as int) * (MDS@[73] as int)) % 340282366920938463463374557953744961537 == 0) by (nonlinear_arith)
        requires
            INV_MDS@[72] == 243710843188765407683950167325811244364, INV_MDS@[73] == 164728799513981287864597798438362590906, INV_MDS@[74] == 203691322335641954496554143160915473208, INV_MDS@[75] == 207184049598426413618777837396461507381, INV_MDS@[76] == 182286914752134147886045712500843417287, INV_MDS@[77] == 104791328630945774391628390734939042132, INV_MDS@[78] == 292925681130628074351389456735241751204, INV_MDS@[79] == 37505641512749851214506703376700564141, INV_MDS@[80] == 264587253941419405809422580099449217063, MDS@[1] == 340282366920938463463149427439195690336, MDS@[10] == 340282366920938461248015258909664071617, MDS@[19] == 340282366920922112265621116423314299677, MDS@[28] == 340282366809533560559102349761084062337, MDS@[37] == 340281626860025222258639632111371827735, MDS@[46] == 335406770191301931314646938843156637377, MDS@[55] == 294109695457304815011263569543330296235, MDS@[64] == 104404390561882821492740793700399886259, MDS@[73] == 314243109041589500728057538205852247049,
    ;
    assert(product_entry(INV_MDS@, MDS@, 9, 8, 2) == (INV_MDS@[72] as int) * (MDS@[2] as int) + (INV_MDS@[73] as int) * (MDS@[11] as int) + (INV_MDS@[74] as int) * (MDS@[20] as int) + (INV_MDS@[75] as int) * (MDS@[29] as int) + (INV_MDS@[76] as int) * (MDS@[38] as int) + (INV_MDS@[77] as int) * (MDS@[47] as int) + (INV_MDS@[78] as int) * (MDS@[56] as int) + (INV_MDS@[79] as int) * (MDS@[65] as int) + (INV_MDS@[80] as int) * (MDS@[74] as int));
    assert(((INV_MDS@[72] as int) * (MDS@[2] as int) + (INV_MDS@[73] as int) * (MDS@[11] as int) + (INV_MDS@[74] as int) * (MDS@[20] as int) + (INV_MDS@[75] as int) * (MDS@[29] as int) + (INV_MDS@[76] as int) * (MDS@[38] as int) + (INV_MDS@[77] as int) * (MDS@[47] as int) + (INV_MDS@[78] as int) * (MDS@[56] as int) + (INV_MDS@[79] as int) * (MDS@[65] as int) + (INV_MDS@[80] as int) * (MDS@[74] as int)) % 340282366920938463463374557953744961537 == 0) by (nonlinear_arith)
        requires
            INV_MDS@[72] == 243710843188765407683950167325811244364, INV_MDS@[73] == 164728799513981287864597798438362590906, INV_MDS@[74] == 203691322335641954496554143160915473208, INV_MDS@[75] == 207184049598426413618777837396461507381, INV_MDS@[76] == 182286914752134147886045712500843417287, INV_MDS@[77] == 104791328630945774391628390734939042132, INV_MDS@[78] == 292925681130628074351389456735241751204, INV_MDS@[79] == 37505641512749851214506703376700564141, INV_MDS@[80] == 264587253941419405809422580099449217063, MDS@[2] == 84411075413992860, MDS@[11] == 830464262634554464059, MDS@[20] == 6129103051534490589064140, MDS@[29] == 41758207694766455878941719400, MDS@[38] == 277396989820105406282268067810980, MDS@[47] == 1827515058473445723489323454811459578, MDS@[56] == 96897786123648020966790891596799875825, MDS@[65] == 31015733125887000676791684053161446567, MDS@[74] == 274553328639948771850735264514343203581,
    ;
    assert(product_entry(INV_MDS@, MDS@, 9, 8, 3) == (INV_MDS@[72] as int) * (MDS@[3] as int) + (INV_MDS@[73] as int) * (MDS@[12] as int) + (INV_MDS@[74] as int) * (MDS@[21] as int) + (INV_MDS@[75] as int) * (MDS@[30] as int) + (INV_MDS@[76] as int) * (MDS@[39] as int) + (INV_MDS@[77] as int) * (MDS@[48] as int) + (INV_MDS@[78] as int) * (MDS@[57] as int) + (INV_MDS@[79] as int) * (MDS@[66] as int) + (INV_MDS@[80] as int) * (MDS@[75] as int));
    assert(((INV_MDS@[72] as int) * (MDS@[3] as int) + (INV_MDS@[73] as int) * (MDS@[12] as int) + (INV_MDS@[74] as int) * (MDS@[21] as int) + (INV_MDS@[75] as int) * (MDS@[30] as int) + (INV_MDS@[76] as int) * (MDS@[39] as int) + (INV_MDS@[77] as int) * (MDS@[48] as int) + (INV_MDS@[78] as int) * (MDS@[57] as int) + (INV_MDS@[79] as int) * (MDS@[66] as int) + (INV_MDS@[80] as int) * (MDS@[75] as int)) % 340282366920938463463374557953744961537 == 0) by (nonlinear_arith)
        requires
            INV_MDS@[72] == 243710843188765407683950167325811244364, INV_MDS@[73] == 164728799513981287864597798438362590906, INV_MDS@[74] == 203691322335641954496554143160915473208, INV_MDS@[75] == 207184049598426413618777837396461507381, INV_MDS@[76] == 182286914752134147886045712500843417287, INV_MDS@[77] == 104791328630945774391628390734939042132, INV_MDS@[78] == 292925681130628074351389456735241751204, INV_MDS@[79] == 37505641512749851214506703376700564141, INV_MDS@[80] == 264587253941419405809422580099449217063, MDS@[3] == 340282366920938463463364822667744381797, MDS@[12] == 340282366920938463367654019497453733057, MDS@[21] == 340282366920937757157506327072060715056, MDS@[30] == 340282366916126655152737768305002590337, MDS@[39] == 340282334957138432026603756253961717317, MDS@[48] == 340071788261635189888022255808831580097, MDS@[57] == 317912742718020576130300337690805571243, MDS@[66] == 177473572991922008668894803954934702656, MDS@[75] == 310813334522360543261976075967969844628,
    ;
    assert(product_entry(INV_MDS@, MDS@, 9, 8, 4) == (INV_MDS@[72] as int) * (MDS@[4] as int) + (INV_MDS@[73] as int) * (MDS@[13] as int) + (INV_MDS@[74] as int) * (MDS@[22] as int) + (INV_MDS@[75] as int) * (MDS@[31] as int) + (INV_MDS@[76] as int) * (MDS@[40] as int) + (INV_MDS@[77] as int) * (MDS@[49] as int) + (INV_MDS@[78] as int) * (MDS@[58] as int) + (INV_MDS@[79] as int) * (MDS@[67] as int) + (INV_MDS@[80] as int) * (MDS@[76] as int));
    assert(((INV_MDS@[72] as int) * (MDS@[4] as int) + (INV_MDS@[73] as int) * (MDS@[13] as int) + (INV_MDS@[74] as int) * (MDS@[22] as int) + (INV_MDS@[75] as int) * (MDS@[31] as int) + (INV_MDS@[76] as int) * (MDS@[40] as int) + (INV_MDS@[77] as int) * (MDS@[49] as int) + (INV_MDS@[78] as int) * (MDS@[58] as int) + (INV_MDS@[79] as int) * (MDS@[67] as int) + (INV_MDS@[80] as int) * (MDS@[76] as int)) % 340282366920938463463374557953744961537 == 0) by (nonlinear_arith)
        requires
            INV_MDS@[72] == 243710843188765407683950167325811244364, INV_MDS@[73] == 164728799513981287864597798438362590906, INV_MDS@[74] == 203691322335641954496554143160915473208, INV_MDS@[75] == 207184049598426413618777837396461507381, INV_MDS@[76] == 182286914752134147886045712500843417287, INV_MDS@[77] == 104791328630945774391628390734939042132, INV_MDS@[78] == 292925681130628074351389456735241751204, INV_MDS@[79] == 37505641512749851214506703376700564141, INV_MDS@[80] == 264587253941419405809422580099449217063, MDS@[4] == 364572438704838, MDS@[13] == 3578022083293731018, MDS@[22] == 26385516604305016476318, MDS@[31] == 179718510858368911187836077, MDS@[40] == 1193750249204165634400502061594, MDS@[49] == 7864291806006227817276975764611134, MDS@[58] == 51667907444403809555847542124007809234, MDS@[67] == 225693703897588175263197025163593303860, MDS@[76] == 58189218743095556616922042146577748196,
    ;
    assert(product_entry(INV_MDS@, MDS@, 9, 8, 5) == (INV_MDS@[72] as int) * (MDS@[5] as int) + (INV_MDS@[73] as int) * (MDS@[14] as int) + (INV_MDS@[74] as int) * (MDS@[23] as int) + (INV_MDS@[75] as int) * (MDS@[32] as int) + (INV_MDS@[76] as int) * (MDS@[41] as int) + (INV_MDS@[77] as int) * (MDS@[50] as int) + (INV_MDS@[78] as int) * (MDS@[59] as int) + (INV_MDS@[79] as int) * (MDS@[68] as int) + (INV_MDS@[80] as int) * (MDS@[77] as int));
    assert(((INV_MDS@[72] as int) * (MDS@[5] as int) + (INV_MDS@[73] as int) * (MDS@[14] as int) + (INV_MDS@[74] as int) * (MDS@[23] as int) + (INV_MDS@[75] as int) * (MDS@[32] as int) + (INV_MDS@[76] as int) * (MDS@[41] as int) + (INV_MDS@[77] as int) * (MDS@[50] as int) + (INV_MDS@[78] as int) * (MDS@[59] as int) + (INV_MDS@[79] as int) * (MDS@[68] as int) + (INV_MDS@[80] as int) * (MDS@[77] as int)) % 340282366920938463463374557953744961537 == 0) by (nonlinear_arith)
        requires
            INV_MDS@[72] == 243710843188765407683950167325811244364, INV_MDS@[73] == 164728799513981287864597798438362590906, INV_MDS@[74] == 203691322335641954496554143160915473208, INV_MDS@[75] == 207184049598426413618777837396461507381, INV_MDS@[76] == 182286914752134147886045712500843417287, INV_MDS@[77] == 104791328630945774391628390734939042132, INV_MDS@[78] == 292925681130628074351389456735241751204, INV_MDS@[79] == 37505641512749851214506703376700564141, INV_MDS@[80] == 264587253941419405809422580099449217063, MDS@[5] == 340282366920938463463374553452850656539, MDS@[14] == 340282366920938463463330629225328181057, MDS@[23] == 340282366920938463140023726422701560397, MDS@[32] == 340282366920936262382017994360084004737, MDS@[41] == 340282366906321119535778575950744594740, MDS@[50] == 340282270630051601091434166691585938497, MDS@[59] == 339649756075661666195744923271868570317, MDS@[68] == 271259291625999272530694212816871392781, MDS@[77] == 88532793352623448815797177624516430079,
    ;
    assert(product_entry(INV_MDS@, MDS@, 9, 8, 6) == (INV_MDS@[72] as int) * (MDS@[6] as int) + (INV_MDS@[73] as int) * (MDS@[15] as int) + (INV_MDS@[74] as int) * (MDS@[24] as int) + (INV_MDS@[75] as int) * (MDS@[33] as int) + (INV_MDS@[76] as int) * (MDS@[42] as int) + (INV_MDS@[77] as int) * (MDS@[51] as int) + (INV_MDS@[78] as int) * (MDS@[60] as int) + (INV_MDS@[79] as int) * (MDS@[69] as int) + (INV_MDS@[80] as int) * (MDS@[78] as int));
    assert(((INV_MDS@[72] as int) * (MDS@[6] as int) + (INV_MDS@[73] as int) * (MDS@[15] as int) + (INV_MDS@[74] as int) * (MDS@[24] as int) + (INV_MDS@[75] as int) * (MDS@[33] as int) + (INV_MDS@[76] as int) * (MDS@[42] as int) + (INV_MDS@[77] as int) * (MDS@[51] as int) + (INV_MDS@[78] as int) * (MDS@[60] as int) + (INV_MDS@[79] as int) * (MDS@[69] as int) + (INV_MDS@[80] as int) * (MDS@[78] as int)) % 340282366920938463463374557953744961537 == 0) by (nonlinear_arith)
        requires
            INV_MDS@[72] == 243710843188765407683950167325811244364, INV_MDS@[73] == 164728799513981287864597798438362590906, INV_MDS@[74] == 203691322335641954496554143160915473208, INV_MDS@[75] == 207184049598426413618777837396461507381, INV_MDS@[76] == 182286914752134147886045712500843417287, INV_MDS@[77] == 104791328630945774391628390734939042132, INV_MDS@[78] == 292925681130628074351389456735241751204, INV_MDS@[79] == 37505641512749851214506703376700564141, INV_MDS@[80] == 264587253941419405809422580099449217063, MDS@[6] == 18318658140, MDS@[15] == 175773020450742, MDS@[24] == 1286673036395336460, MDS@[33] == 8742448408061543808600, MDS@[42] == 58023022992049963173346020, MDS@[51] == 382145525879388576506005172823, MDS@[60] == 2510445527801052949502558181396180, MDS@[69] == 16478009365511174087881242740613722400, MDS@[78] == 257968030906974364479467734461159660011,
    ;
    assert(product_entry(INV_MDS@, MDS@, 9, 8, 7) == (INV_MDS@[72] as int) * (MDS@[7] as int) + (INV_MDS@[73] as int) * (MDS@[16] as int) + (INV_MDS@[74] as int) * (MDS@[25] as int) + (INV_MDS@[75] as int) * (MDS@[34] as int) + (INV_MDS@[76] as int) * (MDS@[43] as int) + (INV_MDS@[77] as int) * (MDS@[52] as int) + (INV_MDS@[78] as int) * (MDS@[61] as int) + (INV_MDS@[79] as int) * (MDS@[70] as int) + (INV_MDS@[80] as int) * (MDS@[79] as int));
    assert(((INV_MDS@[72] as int) * (MDS@[7] as int) + (INV_MDS@[73] as int) * (MDS@[16] as int) + (INV_MDS@[74] as int) * (MDS@[25] as int) + (INV_MDS@[75] as int) * (MDS@[34] as int) + (INV_MDS@[76] as int) * (MDS@[43] as int) + (INV_MDS@[77] as int) * (MDS@[52] as int) + (INV_MDS@[78] as int) * (MDS@[61] as int) + (INV_MDS@[79] as int) * (MDS@[70] as int) + (INV_MDS@[80] as int) * (MDS@[79] as int)) % 340282366920938463463374557953744961537 == 0) by (nonlinear_arith)
        requires
            INV_MDS@[72] == 243710843188765407683950167325811244364, INV_MDS@[73] == 164728799513981287864597798438362590906, INV_MDS@[74] == 203691322335641954496554143160915473208, INV_MDS@[75] == 207184049598426413618777837396461507381, INV_MDS@[76] == 182286914752134147886045712500843417287, INV_MDS@[77] == 104791328630945774391628390734939042132, INV_MDS@[78] == 292925681130628074351389456735241751204, INV_MDS@[79] == 37505641512749851214506703376700564141, INV_MDS@[80] == 264587253941419405809422580099449217063, MDS@[7] == 340282366920938463463374557953720752677, MDS@[16] == 340282366920938463463374557733824228417, MDS@[25] == 340282366920938463463372975281818522219, MDS@[34] == 340282366920938463452680404506994660737, MDS@[43] == 340282366920938392617192638478820451957, MDS@[52] == 340282366920472148038924217019224186177, MDS@[61] == 340282363858174627685294031214892512580, MDS@[70] == 340262264978264552243515110485852110337, MDS@[79] == 208377884906813703378925729595147376377,
    ;
    assert(product_entry(INV_MDS@, MDS@, 9, 8, 8) == (INV_MDS@[72] as int) * (MDS@[8] as int) + (INV_MDS@[73] as int) * (MDS@[17] as int) + (INV_MDS@[74] as int) * (MDS@[26] as int) + (INV_MDS@[75] as int) * (MDS@[35] as int) + (INV_MDS@[76] as int) * (MDS@[44] as int) + (INV_MDS@[77] as int) * (MDS@[53] as int) + (INV_MDS@[78] as int) * (MDS@[62] as int) + (INV_MDS@[79] as int) * (MDS@[71] as int) + (INV_MDS@[80] as int) * (MDS@[80] as int));
    assert(((INV_MDS@[72] as int) * (MDS@[8] as int) + (INV_MDS@[73] as int) * (MDS@[17] as int) + (INV_MDS@[74] as int) * (MDS@[26] as int) + (INV_MDS@[75] as int) * (MDS@[35] as int) + (INV_MDS@[76] as int) * (MDS@[44] as int) + (INV_MDS@[77] as int) * (MDS@[53] as int) + (INV_MDS@[78] as int) * (MDS@[62] as int) + (INV_MDS@[79] as int) * (MDS@[71] as int) + (INV_MDS@[80] as int) * (MDS@[80] as int)) % 340282366920938463463374557953744961537 == 1) by (nonlinear_arith)
        requires
            INV_MDS@[72] == 243710843188765407683950167325811244364, INV_MDS@[73] == 164728799513981287864597798438362590906, INV_MDS@[74] == 203691322335641954496554143160915473208, INV_MDS@[75] == 207184049598426413618777837396461507381, INV_MDS@[76] == 182286914752134147886045712500843417287, INV_MDS@[77] == 104791328630945774391628390734939042132, INV_MDS@[78] == 292925681130628074351389456735241751204, INV_MDS@[79] == 37505641512749851214506703376700564141, INV_MDS@[80] == 264587253941419405809422580099449217063, MDS@[8] == 9841, MDS@[17] == 72636421, MDS@[26] == 494894285941, MDS@[35] == 3287582741506063, MDS@[44] == 21658948312410865183, MDS@[53] == 142299528422960399756323, MDS@[62] == 934054234760012359481199283, MDS@[71] == 6129263888495201102915629695046, MDS@[80] == 40216143252770054194345243936096486,
    ;
}

proof fn lemma_product_backward()
    ensures
        product_is_identity(Elem::modulus(), INV_MDS@, MDS@, 9),
{
    lemma_product_backward_row_0();
    lemma_product_backward_row_1();
    lemma_product_backward_row_2();
    lemma_product_backward_row_3();
    lemma_product_backward_row_4();
    lemma_product_backward_row_5();
    lemma_product_backward_row_6();
    lemma_product_backward_row_7();
    lemma_product_backward_row_8();
    reveal_with_fuel(identity_rows, 10);
    assert(identity_rows(Elem::modulus(), INV_MDS@, MDS@, 9, 9));
    lemma_identity_rows(Elem::modulus(), INV_MDS@, MDS@, 9);
}

/// The digest of `input_sequence`, whose length must be a multiple of `RATE`.
pub fn hash(input_sequence: &Vec<Elem>) -> (r: [Elem; RATE])
    requires
        input_sequence@.len() % (RATE as nat) == 0,
    ensures
        vals(r@) == hash_spec(spec_params(), Elem::modulus(), vals(input_sequence@)),
{
    rescue_prime_hash(input_sequence)
}

/// The sponge: starting from the zero state, each chunk of `RATE` elements is added onto the
/// first lanes and the state permuted; the digest is the first `RATE` lanes.
pub fn rescue_prime_hash(input_sequence: &Vec<Elem>) -> (r: [Elem; RATE])
    requires
        input_sequence@.len() % (RATE as nat) == 0,
    ensures
        vals(r@) == hash_spec(spec_params(), Elem::modulus(), vals(input_sequence@)),
{
    let digest = params().hash(input_sequence);
    to_array(&digest)
}

/// The digest of `input_sequence` followed by a one and the fewest zeros that reach a
/// multiple of `RATE`.
pub fn rescue_prime_wrapper(input_sequence: &Vec<Elem>) -> (r: [Elem; RATE])
    requires
        input_sequence@.len() + STATE_WIDTH <= usize::MAX,
    ensures
        vals(r@) == hash_spec(
            spec_params(),
            Elem::modulus(),
            pad_spec(vals(input_sequence@), RATE as nat),
        ),
{
    let digest = params().hash_padded(input_sequence);
    to_array(&digest)
}

/// Applies the `NUM_ROUNDS` rounds to `state`.
pub fn rescue_xlix_permutation(state: &mut [Elem; STATE_WIDTH])
    ensures
        vals(final(state)@) == permutation_spec(spec_params(), Elem::modulus(), vals(old(state)@)),
{
    params().permutation(state);
}

/// Applies round `round % NUM_ROUNDS` to `state`.
pub fn apply_round(state: &mut [Elem], round: usize)
    requires
        old(state)@.len() == STATE_WIDTH,
    ensures
        final(state)@.len() == STATE_WIDTH,
        vals(final(state)@) == round_spec(
            spec_params(),
            Elem::modulus(),
            vals(old(state)@),
            round as nat,
        ),
{
    params().apply_round(state, round);
}

/// Adds to `result_slice` the residuals of one round between `current_slice` and
/// `next_slice`, scaled by `flag`; with `flag` one they all vanish exactly when the two
/// halves of the round agree.
pub fn enforce_round<E: PrimeField>(
    result_slice: &mut [E],
    current_slice: &[E],
    next_slice: &[E],
    round_constants: &[E],
    flag: E,
)
    requires
        current_slice@.len() == STATE_WIDTH,
        next_slice@.len() == STATE_WIDTH,
        round_constants@.len() >= 2 * STATE_WIDTH,
        old(result_slice)@.len() >= STATE_WIDTH,
    ensures
        final(result_slice)@.len() == old(result_slice)@.len(),
        vals(final(result_slice)@) == round_residuals(
            spec_params(),
            E::modulus(),
            vals(old(result_slice)@),
            vals(current_slice@),
            vals(next_slice@),
            vals(round_constants@),
            flag.val(),
        ),
{
    params().enforce_round(result_slice, current_slice, next_slice, round_constants, flag);
}

/// `enforce_round` with `pixels` first added onto the first `RATE` lanes of `current_slice`.
pub fn enforce_first_round<E: PrimeField>(
    result_slice: &mut [E],
    pixels: &[E],
    current_slice: &[E],
    next_slice: &[E],
    round_constants: &[E],
    flag: E,
)
    requires
        pixels@.len() >= RATE,
        current_slice@.len() == STATE_WIDTH,
        next_slice@.len() == STATE_WIDTH,
        round_constants@.len() >= 2 * STATE_WIDTH,
        old(result_slice)@.len() >= STATE_WIDTH,
    ensures
        final(result_slice)@.len() == old(result_slice)@.len(),
        vals(final(result_slice)@) == round_residuals(
            spec_params(),
            E::modulus(),
            vals(old(result_slice)@),
            absorb_lanes_spec(E::modulus(), vals(current_slice@), vals(pixels@).take(RATE as int)),
            vals(next_slice@),
            vals(round_constants@),
            flag.val(),
        ),
{
    params().enforce_first_round(result_slice, pixels, current_slice, next_slice, round_constants, flag);
}

/// The round constants in `2 × STATE_WIDTH` columns of length `cycle_length`, the constants of
/// round `i` at position `(i + shift) % cycle_length` and zeros elsewhere.
pub fn get_round_constants_periodic(cycle_length: usize, shift: usize) -> (r: Vec<Vec<Elem>>)
    requires
        cycle_length > 0,
        shift + NUM_ROUNDS <= usize::MAX,
    ensures
        r@.len() == 2 * STATE_WIDTH,
        forall|j: int|
            0 <= j < 2 * STATE_WIDTH ==> vals(#[trigger] r@[j]@) == periodic_column(
                Elem::modulus(),
                ROUND_CONSTANTS@,
                (2 * STATE_WIDTH) as nat,
                j as nat,
                cycle_length as nat,
                shift as nat,
                NUM_ROUNDS as nat,
            ),
{
    params().round_constants_periodic(cycle_length, shift)
}

} // verus!

use griffin_rescue::field::PrimeField;
use griffin_rescue::layers::matrix_mul;

use griffin_rescue::griffin::p128_t12_c4_s100;
use griffin_rescue::griffin::p128_t4_c2_s128;
use griffin_rescue::griffin::p62_t4_c2_s128;

fn ints<E: PrimeField>(v: &[E]) -> Vec<u128> {
    v.iter().map(|e| e.as_int()).collect()
}

fn elems<E: PrimeField>(v: &[u128]) -> Vec<E> {
    v.iter().map(|&x| E::from_u128(x)).collect()
}

#[test]
fn p128_t12_c4_s100_hash_of_zeros() {
    let input: Vec<p128_t12_c4_s100::Elem> = elems(&vec![0u128; 2 * p128_t12_c4_s100::RATE]);
    let digest = p128_t12_c4_s100::hash(&input);
    assert_eq!(ints(&digest), vec![328739436787664265307811346919938749305, 258144415196619847844887263181659547507, 105194724442923985013197285071603087724, 64120195395005522186280485438120119517, 105886561553405493311382635889882971995, 157564645429091532848335061841023544403, 221179680796457835873904662785682773074, 298498986928740076439096017272989606578]);
}

#[test]
fn p128_t12_c4_s100_hash_of_sequence() {
    let raw: Vec<u128> = (1..=(2 * p128_t12_c4_s100::RATE) as u128).collect();
    let input: Vec<p128_t12_c4_s100::Elem> = elems(&raw);
    let digest = p128_t12_c4_s100::griffin_hash(&input);
    assert_eq!(ints(&digest), vec![92444160166823887718485374774689393726, 125503781510838658729832275910480187792, 110709492154416143109088570303453737522, 226259191816856381064867319571152261037, 306531384379539311479082485272623843702, 41382203627149791087028439958293205718, 96824440237624772304898584644282616884, 123680048141935875273239725362007268807]);
}

#[test]
fn p128_t12_c4_s100_permutation_vector() {
    let raw: Vec<u128> = (0..p128_t12_c4_s100::STATE_WIDTH as u128).collect();
    let v: Vec<p128_t12_c4_s100::Elem> = elems(&raw);
    let mut state = [p128_t12_c4_s100::Elem::zero(); p128_t12_c4_s100::STATE_WIDTH];
    state.copy_from_slice(&v);
    p128_t12_c4_s100::griffin_permutation(&mut state);
    assert_eq!(ints(&state), vec![75006457074577404216965645751923984437, 313516562186919668375590444203217564785, 72901508268211601261499849785627484506, 96326428666350159748624725562904807344, 123895060769017718400900899559402775910, 240853098891139408086516865618924098008, 191566412324848498589362502362272104250, 192872714843159013940620203458563860551, 194764050774859119985740722396053708794, 166976876240928818829388387243890126681, 274228736298076837706847323862097451942, 118229201228073098286534506104206896634]);
}

#[test]
fn p128_t12_c4_s100_single_round_vector() {
    let raw: Vec<u128> = (0..p128_t12_c4_s100::STATE_WIDTH as u128).collect();
    let mut state: Vec<p128_t12_c4_s100::Elem> = elems(&raw);
    p128_t12_c4_s100::apply_round(&mut state, 3 + p128_t12_c4_s100::NUM_ROUNDS);
    assert_eq!(ints(&state), vec![146972402760975614936642505558933803352, 284422944043135678747333281345785091501, 218496499748476871541017795845922345541, 197358375143587393691055640711205333907, 296315700599313572803570516775723326279, 85059386144289626925861198790607707640, 177500002745560946514702401707379481028, 263067821352203273008051986769241009914, 85519598144094680369354328883755453871, 185057465273260377729962425911465670110, 59805853669285985627643142420783876359, 262447432316851692285413480041056737381]);
}

#[test]
fn p128_t12_c4_s100_hash_by_rounds() {
    let n = p128_t12_c4_s100::STATE_WIDTH;
    let raw: Vec<u128> = (10..(10 + 3 * p128_t12_c4_s100::RATE) as u128).collect();
    let input: Vec<p128_t12_c4_s100::Elem> = elems(&raw);
    let mut state: Vec<p128_t12_c4_s100::Elem> = vec![p128_t12_c4_s100::Elem::zero(); n];
    for chunk in input.chunks(p128_t12_c4_s100::RATE) {
        for i in 0..p128_t12_c4_s100::RATE {
            state[i] = state[i].add(chunk[i]);
        }
        let mut whole = [p128_t12_c4_s100::Elem::zero(); p128_t12_c4_s100::STATE_WIDTH];
        whole.copy_from_slice(&state);
        for r in 0..p128_t12_c4_s100::NUM_ROUNDS {
            p128_t12_c4_s100::apply_round(&mut state, r);
        }
        p128_t12_c4_s100::griffin_permutation(&mut whole);
        assert_eq!(ints(&whole), ints(&state));
    }
    let digest = p128_t12_c4_s100::hash(&input);
    assert_eq!(ints(&digest), ints(&state[..p128_t12_c4_s100::RATE]));
}

#[test]
fn p128_t12_c4_s100_matrices_invert() {
    let n = p128_t12_c4_s100::STATE_WIDTH;
    let samples: Vec<Vec<u128>> = vec![vec![0; n], vec![1; n], (0..n as u128).map(|i| 7 * i + 3).collect()];
    for raw in samples {
        let start: Vec<p128_t12_c4_s100::Elem> = elems(&raw);
        let mut v = start.clone();
        matrix_mul(&p128_t12_c4_s100::INV_MAT, n, &mut v);
        matrix_mul(&p128_t12_c4_s100::MAT, n, &mut v);
        assert_eq!(ints(&v), ints(&start));
        let mut w = start.clone();
        matrix_mul(&p128_t12_c4_s100::MAT, n, &mut w);
        if raw.windows(2).any(|p| p[0] != p[1]) {
            assert_ne!(ints(&w), ints(&start));
        }
        matrix_mul(&p128_t12_c4_s100::INV_MAT, n, &mut w);
        assert_eq!(ints(&w), ints(&start));
    }
}

#[test]
fn p128_t12_c4_s100_exponents_invert() {
    let fwd = p128_t12_c4_s100::D;
    let inv = p128_t12_c4_s100::INV_D;
    for x in [1u128, 2, 3, 12345, 987654321, 1 << 40] {
        let e = p128_t12_c4_s100::Elem::from_u128(x);
        assert_eq!(e.exp(fwd).exp(inv).as_int(), x);
        assert_eq!(e.exp(inv).exp(fwd).as_int(), x);
    }
    let minus_one = p128_t12_c4_s100::Elem::zero().sub(p128_t12_c4_s100::Elem::one());
    assert_eq!(minus_one.exp(fwd).exp(inv), minus_one);
}

#[test]
fn p128_t12_c4_s100_single_change_alters_digest() {
    let raw: Vec<u128> = (1..=(2 * p128_t12_c4_s100::RATE) as u128).collect();
    let input: Vec<p128_t12_c4_s100::Elem> = elems(&raw);
    let digest = p128_t12_c4_s100::hash(&input);
    assert_eq!(ints(&p128_t12_c4_s100::hash(&input)), ints(&digest));
    for k in 0..input.len() {
        let mut changed = input.clone();
        changed[k] = changed[k].add(p128_t12_c4_s100::Elem::one());
        assert_ne!(ints(&p128_t12_c4_s100::hash(&changed)), ints(&digest));
    }
}

#[test]
fn p128_t12_c4_s100_periodic_round_constants() {
    let n = p128_t12_c4_s100::STATE_WIDTH;
    let cycle = 16;
    let cols = p128_t12_c4_s100::get_round_constants_periodic(cycle, 1);
    assert_eq!(cols.len(), n);
    for j in 0..n {
        assert_eq!(cols[j].len(), cycle);
        for t in 0..cycle {
            let expected = if t >= 1 && t <= p128_t12_c4_s100::NUM_ROUNDS {
                p128_t12_c4_s100::ROUND_CONSTANTS[(t - 1) * n + j]
            } else {
                0
            };
            assert_eq!(cols[j][t].as_int(), expected);
        }
    }
}

fn p128_t12_c4_s100_round_setup(round: usize) -> (Vec<p128_t12_c4_s100::Elem>, Vec<p128_t12_c4_s100::Elem>, Vec<p128_t12_c4_s100::Elem>) {
    let n = p128_t12_c4_s100::STATE_WIDTH;
    let t = round % p128_t12_c4_s100::NUM_ROUNDS;
    let raw: Vec<u128> = (0..n as u128).map(|i| 5 * i + 11).collect();
    let current: Vec<p128_t12_c4_s100::Elem> = elems(&raw);
    let mut next = current.clone();
    p128_t12_c4_s100::apply_round(&mut next, round);
    let rc: Vec<p128_t12_c4_s100::Elem> = elems(&p128_t12_c4_s100::ROUND_CONSTANTS[t * n..(t + 1) * n]);
    (current, next, rc)
}

#[test]
fn p128_t12_c4_s100_constraints_vanish_on_round() {
    let n = p128_t12_c4_s100::STATE_WIDTH;
    for round in [1, 2, p128_t12_c4_s100::NUM_ROUNDS - 1] {
        let (current, next, rc) = p128_t12_c4_s100_round_setup(round);
        let mut result = vec![p128_t12_c4_s100::Elem::zero(); n];
        p128_t12_c4_s100::enforce_round(&mut result, &current, &next, &rc, p128_t12_c4_s100::Elem::one());
        assert!(result.iter().all(|e| e.as_int() == 0));
    }
}

#[test]
fn p128_t12_c4_s100_first_round_constraints_vanish() {
    let n = p128_t12_c4_s100::STATE_WIDTH;
    let (current, next, rc) = p128_t12_c4_s100_round_setup(0);
    let mut result = vec![p128_t12_c4_s100::Elem::zero(); n];
    p128_t12_c4_s100::enforce_first_round(&mut result, &current, &next, &rc, p128_t12_c4_s100::Elem::one());
    assert!(result.iter().all(|e| e.as_int() == 0));
}

#[test]
fn p128_t12_c4_s100_mutated_next_state_detected() {
    let n = p128_t12_c4_s100::STATE_WIDTH;
    for lane in 0..n {
        let (current, mut next, rc) = p128_t12_c4_s100_round_setup(2);
        next[lane] = next[lane].add(p128_t12_c4_s100::Elem::one());
        let mut result = vec![p128_t12_c4_s100::Elem::zero(); n];
        p128_t12_c4_s100::enforce_round(&mut result, &current, &next, &rc, p128_t12_c4_s100::Elem::one());
        assert!(result.iter().any(|e| e.as_int() != 0));
        let mut gated = vec![p128_t12_c4_s100::Elem::zero(); n];
        p128_t12_c4_s100::enforce_round(&mut gated, &current, &next, &rc, p128_t12_c4_s100::Elem::zero());
        assert!(gated.iter().all(|e| e.as_int() == 0));
    }
}

#[test]
fn p128_t12_c4_s100_absorbing_first_round_constraints_vanish() {
    let n = p128_t12_c4_s100::STATE_WIDTH;
    let (current, _, rc) = p128_t12_c4_s100_round_setup(0);
    let pixels: Vec<p128_t12_c4_s100::Elem> = elems(&vec![9u128; p128_t12_c4_s100::RATE]);
    let mut absorbed = current.clone();
    for i in 0..p128_t12_c4_s100::RATE {
        absorbed[i] = absorbed[i].add(pixels[i]);
    }
    let mut next = absorbed.clone();
    p128_t12_c4_s100::apply_round(&mut next, 0);
    let mut result = vec![p128_t12_c4_s100::Elem::zero(); n];
    p128_t12_c4_s100::enforce_first_round_plus_absorb(&mut result, &pixels, &current, &next, &rc, p128_t12_c4_s100::Elem::one());
    assert!(result.iter().all(|e| e.as_int() == 0));
}

#[test]
fn p128_t4_c2_s128_hash_of_zeros() {
    let input: Vec<p128_t4_c2_s128::Elem> = elems(&vec![0u128; 2 * p128_t4_c2_s128::RATE]);
    let digest = p128_t4_c2_s128::hash(&input);
    assert_eq!(ints(&digest), vec![233147745004428877193107644942117519498, 118800591088872016952403363008020668941]);
}

#[test]
fn p128_t4_c2_s128_hash_of_sequence() {
    let raw: Vec<u128> = (1..=(2 * p128_t4_c2_s128::RATE) as u128).collect();
    let input: Vec<p128_t4_c2_s128::Elem> = elems(&raw);
    let digest = p128_t4_c2_s128::griffin_hash(&input);
    assert_eq!(ints(&digest), vec![24326175275119275358034721839011491194, 217590836143907579672087127628190563592]);
}

#[test]
fn p128_t4_c2_s128_permutation_vector() {
    let raw: Vec<u128> = (0..p128_t4_c2_s128::STATE_WIDTH as u128).collect();
    let v: Vec<p128_t4_c2_s128::Elem> = elems(&raw);
    let mut state = [p128_t4_c2_s128::Elem::zero(); p128_t4_c2_s128::STATE_WIDTH];
    state.copy_from_slice(&v);
    p128_t4_c2_s128::griffin_permutation(&mut state);
    assert_eq!(ints(&state), vec![8770098683883085371034687721977944549, 229849811871759750513348262229159417928, 110904202798148513878808852520452479373, 28484938772377704150069255928814297903]);
}

#[test]
fn p128_t4_c2_s128_single_round_vector() {
    let raw: Vec<u128> = (0..p128_t4_c2_s128::STATE_WIDTH as u128).collect();
    let mut state: Vec<p128_t4_c2_s128::Elem> = elems(&raw);
    p128_t4_c2_s128::apply_round(&mut state, 3 + p128_t4_c2_s128::NUM_ROUNDS);
    assert_eq!(ints(&state), vec![261946471376830963239464241820605202635, 72202361049372171343306391400294719975, 286422002472013095270480772855438991958, 7215755103429280982367485100107682829]);
}

#[test]
fn p128_t4_c2_s128_hash_by_rounds() {
    let n = p128_t4_c2_s128::STATE_WIDTH;
    let raw: Vec<u128> = (10..(10 + 3 * p128_t4_c2_s128::RATE) as u128).collect();
    let input: Vec<p128_t4_c2_s128::Elem> = elems(&raw);
    let mut state: Vec<p128_t4_c2_s128::Elem> = vec![p128_t4_c2_s128::Elem::zero(); n];
    for chunk in input.chunks(p128_t4_c2_s128::RATE) {
        for i in 0..p128_t4_c2_s128::RATE {
            state[i] = state[i].add(chunk[i]);
        }
        let mut whole = [p128_t4_c2_s128::Elem::zero(); p128_t4_c2_s128::STATE_WIDTH];
        whole.copy_from_slice(&state);
        for r in 0..p128_t4_c2_s128::NUM_ROUNDS {
            p128_t4_c2_s128::apply_round(&mut state, r);
        }
        p128_t4_c2_s128::griffin_permutation(&mut whole);
        assert_eq!(ints(&whole), ints(&state));
    }
    let digest = p128_t4_c2_s128::hash(&input);
    assert_eq!(ints(&digest), ints(&state[..p128_t4_c2_s128::RATE]));
}

#[test]
fn p128_t4_c2_s128_matrices_invert() {
    let n = p128_t4_c2_s128::STATE_WIDTH;
    let samples: Vec<Vec<u128>> = vec![vec![0; n], vec![1; n], (0..n as u128).map(|i| 7 * i + 3).collect()];
    for raw in samples {
        let start: Vec<p128_t4_c2_s128::Elem> = elems(&raw);
        let mut v = start.clone();
        matrix_mul(&p128_t4_c2_s128::INV_MAT, n, &mut v);
        matrix_mul(&p128_t4_c2_s128::MAT, n, &mut v);
        assert_eq!(ints(&v), ints(&start));
        let mut w = start.clone();
        matrix_mul(&p128_t4_c2_s128::MAT, n, &mut w);
        if raw.windows(2).any(|p| p[0] != p[1]) {
            assert_ne!(ints(&w), ints(&start));
        }
        matrix_mul(&p128_t4_c2_s128::INV_MAT, n, &mut w);
        assert_eq!(ints(&w), ints(&start));
    }
}

#[test]
fn p128_t4_c2_s128_exponents_invert() {
    let fwd = p128_t4_c2_s128::D;
    let inv = p128_t4_c2_s128::INV_D;
    for x in [1u128, 2, 3, 12345, 987654321, 1 << 40] {
        let e = p128_t4_c2_s128::Elem::from_u128(x);
        assert_eq!(e.exp(fwd).exp(inv).as_int(), x);
        assert_eq!(e.exp(inv).exp(fwd).as_int(), x);
    }
    let minus_one = p128_t4_c2_s128::Elem::zero().sub(p128_t4_c2_s128::Elem::one());
    assert_eq!(minus_one.exp(fwd).exp(inv), minus_one);
}

#[test]
fn p128_t4_c2_s128_single_change_alters_digest() {
    let raw: Vec<u128> = (1..=(2 * p128_t4_c2_s128::RATE) as u128).collect();
    let input: Vec<p128_t4_c2_s128::Elem> = elems(&raw);
    let digest = p128_t4_c2_s128::hash(&input);
    assert_eq!(ints(&p128_t4_c2_s128::hash(&input)), ints(&digest));
    for k in 0..input.len() {
        let mut changed = input.clone();
        changed[k] = changed[k].add(p128_t4_c2_s128::Elem::one());
        assert_ne!(ints(&p128_t4_c2_s128::hash(&changed)), ints(&digest));
    }
}

#[test]
fn p128_t4_c2_s128_periodic_round_constants() {
    let n = p128_t4_c2_s128::STATE_WIDTH;
    let cycle = 16;
    let cols = p128_t4_c2_s128::get_round_constants_periodic(cycle, 1);
    assert_eq!(cols.len(), n);
    for j in 0..n {
        assert_eq!(cols[j].len(), cycle);
        for t in 0..cycle {
            let expected = if t >= 1 && t <= p128_t4_c2_s128::NUM_ROUNDS {
                p128_t4_c2_s128::ROUND_CONSTANTS[(t - 1) * n + j]
            } else {
                0
            };
            assert_eq!(cols[j][t].as_int(), expected);
        }
    }
}

fn p128_t4_c2_s128_round_setup(round: usize) -> (Vec<p128_t4_c2_s128::Elem>, Vec<p128_t4_c2_s128::Elem>, Vec<p128_t4_c2_s128::Elem>) {
    let n = p128_t4_c2_s128::STATE_WIDTH;
    let t = round % p128_t4_c2_s128::NUM_ROUNDS;
    let raw: Vec<u128> = (0..n as u128).map(|i| 5 * i + 11).collect();
    let current: Vec<p128_t4_c2_s128::Elem> = elems(&raw);
    let mut next = current.clone();
    p128_t4_c2_s128::apply_round(&mut next, round);
    let rc: Vec<p128_t4_c2_s128::Elem> = elems(&p128_t4_c2_s128::ROUND_CONSTANTS[t * n..(t + 1) * n]);
    (current, next, rc)
}

#[test]
fn p128_t4_c2_s128_constraints_vanish_on_round() {
    let n = p128_t4_c2_s128::STATE_WIDTH;
    for round in [1, 2, p128_t4_c2_s128::NUM_ROUNDS - 1] {
        let (current, next, rc) = p128_t4_c2_s128_round_setup(round);
        let mut result = vec![p128_t4_c2_s128::Elem::zero(); n];
        p128_t4_c2_s128::enforce_round(&mut result, &current, &next, &rc, p128_t4_c2_s128::Elem::one());
        assert!(result.iter().all(|e| e.as_int() == 0));
    }
}

#[test]
fn p128_t4_c2_s128_first_round_constraints_vanish() {
    let n = p128_t4_c2_s128::STATE_WIDTH;
    let (current, next, rc) = p128_t4_c2_s128_round_setup(0);
    let mut result = vec![p128_t4_c2_s128::Elem::zero(); n];
    p128_t4_c2_s128::enforce_first_round(&mut result, &current, &next, &rc, p128_t4_c2_s128::Elem::one());
    assert!(result.iter().all(|e| e.as_int() == 0));
}

#[test]
fn p128_t4_c2_s128_mutated_next_state_detected() {
    let n = p128_t4_c2_s128::STATE_WIDTH;
    for lane in 0..n {
        let (current, mut next, rc) = p128_t4_c2_s128_round_setup(2);
        next[lane] = next[lane].add(p128_t4_c2_s128::Elem::one());
        let mut result = vec![p128_t4_c2_s128::Elem::zero(); n];
        p128_t4_c2_s128::enforce_round(&mut result, &current, &next, &rc, p128_t4_c2_s128::Elem::one());
        assert!(result.iter().any(|e| e.as_int() != 0));
        let mut gated = vec![p128_t4_c2_s128::Elem::zero(); n];
        p128_t4_c2_s128::enforce_round(&mut gated, &current, &next, &rc, p128_t4_c2_s128::Elem::zero());
        assert!(gated.iter().all(|e| e.as_int() == 0));
    }
}

#[test]
fn p62_t4_c2_s128_hash_of_zeros() {
    let input: Vec<p62_t4_c2_s128::Elem> = elems(&vec![0u128; 2 * p62_t4_c2_s128::RATE]);
    let digest = p62_t4_c2_s128::hash(&input);
    assert_eq!(ints(&digest), vec![2452817918957527871, 3257145350157751535]);
}

#[test]
fn p62_t4_c2_s128_hash_of_sequence() {
    let raw: Vec<u128> = (1..=(2 * p62_t4_c2_s128::RATE) as u128).collect();
    let input: Vec<p62_t4_c2_s128::Elem> = elems(&raw);
    let digest = p62_t4_c2_s128::griffin_hash(&input);
    assert_eq!(ints(&digest), vec![3867224407541775807, 4056384971595390999]);
}

#[test]
fn p62_t4_c2_s128_permutation_vector() {
    let raw: Vec<u128> = (0..p62_t4_c2_s128::STATE_WIDTH as u128).collect();
    let v: Vec<p62_t4_c2_s128::Elem> = elems(&raw);
    let mut state = [p62_t4_c2_s128::Elem::zero(); p62_t4_c2_s128::STATE_WIDTH];
    state.copy_from_slice(&v);
    p62_t4_c2_s128::griffin_permutation(&mut state);
    assert_eq!(ints(&state), vec![3835809865886368942, 48342839539048786, 3316348185648009353, 4385210606970880234]);
}

#[test]
fn p62_t4_c2_s128_single_round_vector() {
    let raw: Vec<u128> = (0..p62_t4_c2_s128::STATE_WIDTH as u128).collect();
    let mut state: Vec<p62_t4_c2_s128::Elem> = elems(&raw);
    p62_t4_c2_s128::apply_round(&mut state, 3 + p62_t4_c2_s128::NUM_ROUNDS);
    assert_eq!(ints(&state), vec![3368647888994917087, 1337613386932597461, 471931586425628682, 3110111407750574069]);
}

#[test]
fn p62_t4_c2_s128_hash_by_rounds() {
    let n = p62_t4_c2_s128::STATE_WIDTH;
    let raw: Vec<u128> = (10..(10 + 3 * p62_t4_c2_s128::RATE) as u128).collect();
    let input: Vec<p62_t4_c2_s128::Elem> = elems(&raw);
    let mut state: Vec<p62_t4_c2_s128::Elem> = vec![p62_t4_c2_s128::Elem::zero(); n];
    for chunk in input.chunks(p62_t4_c2_s128::RATE) {
        for i in 0..p62_t4_c2_s128::RATE {
            state[i] = state[i].add(chunk[i]);
        }
        let mut whole = [p62_t4_c2_s128::Elem::zero(); p62_t4_c2_s128::STATE_WIDTH];
        whole.copy_from_slice(&state);
        for r in 0..p62_t4_c2_s128::NUM_ROUNDS {
            p62_t4_c2_s128::apply_round(&mut state, r);
        }
        p62_t4_c2_s128::griffin_permutation(&mut whole);
        assert_eq!(ints(&whole), ints(&state));
    }
    let digest = p62_t4_c2_s128::hash(&input);
    assert_eq!(ints(&digest), ints(&state[..p62_t4_c2_s128::RATE]));
}

#[test]
fn p62_t4_c2_s128_matrices_invert() {
    let n = p62_t4_c2_s128::STATE_WIDTH;
    let samples: Vec<Vec<u128>> = vec![vec![0; n], vec![1; n], (0..n as u128).map(|i| 7 * i + 3).collect()];
    for raw in samples {
        let start: Vec<p62_t4_c2_s128::Elem> = elems(&raw);
        let mut v = start.clone();
        matrix_mul(&p62_t4_c2_s128::INV_MAT, n, &mut v);
        matrix_mul(&p62_t4_c2_s128::MAT, n, &mut v);
        assert_eq!(ints(&v), ints(&start));
        let mut w = start.clone();
        matrix_mul(&p62_t4_c2_s128::MAT, n, &mut w);
        if raw.windows(2).any(|p| p[0] != p[1]) {
            assert_ne!(ints(&w), ints(&start));
        }
        matrix_mul(&p62_t4_c2_s128::INV_MAT, n, &mut w);
        assert_eq!(ints(&w), ints(&start));
    }
}

#[test]
fn p62_t4_c2_s128_exponents_invert() {
    let fwd = p62_t4_c2_s128::D;
    let inv = p62_t4_c2_s128::INV_D;
    for x in [1u128, 2, 3, 12345, 987654321, 1 << 40] {
        let e = p62_t4_c2_s128::Elem::from_u128(x);
        assert_eq!(e.exp(fwd).exp(inv).as_int(), x);
        assert_eq!(e.exp(inv).exp(fwd).as_int(), x);
    }
    let minus_one = p62_t4_c2_s128::Elem::zero().sub(p62_t4_c2_s128::Elem::one());
    assert_eq!(minus_one.exp(fwd).exp(inv), minus_one);
}

#[test]
fn p62_t4_c2_s128_single_change_alters_digest() {
    let raw: Vec<u128> = (1..=(2 * p62_t4_c2_s128::RATE) as u128).collect();
    let input: Vec<p62_t4_c2_s128::Elem> = elems(&raw);
    let digest = p62_t4_c2_s128::hash(&input);
    assert_eq!(ints(&p62_t4_c2_s128::hash(&input)), ints(&digest));
    for k in 0..input.len() {
        let mut changed = input.clone();
        changed[k] = changed[k].add(p62_t4_c2_s128::Elem::one());
        assert_ne!(ints(&p62_t4_c2_s128::hash(&changed)), ints(&digest));
    }
}

#[test]
fn p62_t4_c2_s128_periodic_round_constants() {
    let n = p62_t4_c2_s128::STATE_WIDTH;
    let cycle = 16;
    let cols = p62_t4_c2_s128::get_round_constants_periodic(cycle, 1);
    assert_eq!(cols.len(), n);
    for j in 0..n {
        assert_eq!(cols[j].len(), cycle);
        for t in 0..cycle {
            let expected = if t >= 1 && t <= p62_t4_c2_s128::NUM_ROUNDS {
                p62_t4_c2_s128::ROUND_CONSTANTS[(t - 1) * n + j]
            } else {
                0
            };
            assert_eq!(cols[j][t].as_int(), expected);
        }
    }
}

fn p62_t4_c2_s128_round_setup(round: usize) -> (Vec<p62_t4_c2_s128::Elem>, Vec<p62_t4_c2_s128::Elem>, Vec<p62_t4_c2_s128::Elem>) {
    let n = p62_t4_c2_s128::STATE_WIDTH;
    let t = round % p62_t4_c2_s128::NUM_ROUNDS;
    let raw: Vec<u128> = (0..n as u128).map(|i| 5 * i + 11).collect();
    let current: Vec<p62_t4_c2_s128::Elem> = elems(&raw);
    let mut next = current.clone();
    p62_t4_c2_s128::apply_round(&mut next, round);
    let rc: Vec<p62_t4_c2_s128::Elem> = elems(&p62_t4_c2_s128::ROUND_CONSTANTS[t * n..(t + 1) * n]);
    (current, next, rc)
}

#[test]
fn p62_t4_c2_s128_constraints_vanish_on_round() {
    let n = p62_t4_c2_s128::STATE_WIDTH;
    for round in [1, 2, p62_t4_c2_s128::NUM_ROUNDS - 1] {
        let (current, next, rc) = p62_t4_c2_s128_round_setup(round);
        let mut result = vec![p62_t4_c2_s128::Elem::zero(); n];
        p62_t4_c2_s128::enforce_round(&mut result, &current, &next, &rc, p62_t4_c2_s128::Elem::one());
        assert!(result.iter().all(|e| e.as_int() == 0));
    }
}

#[test]
fn p62_t4_c2_s128_first_round_constraints_vanish() {
    let n = p62_t4_c2_s128::STATE_WIDTH;
    let (current, next, rc) = p62_t4_c2_s128_round_setup(0);
    let mut result = vec![p62_t4_c2_s128::Elem::zero(); n];
    p62_t4_c2_s128::enforce_first_round(&mut result, &current, &next, &rc, p62_t4_c2_s128::Elem::one());
    assert!(result.iter().all(|e| e.as_int() == 0));
}

#[test]
fn p62_t4_c2_s128_mutated_next_state_detected() {
    let n = p62_t4_c2_s128::STATE_WIDTH;
    for lane in 0..n {
        let (current, mut next, rc) = p62_t4_c2_s128_round_setup(2);
        next[lane] = next[lane].add(p62_t4_c2_s128::Elem::one());
        let mut result = vec![p62_t4_c2_s128::Elem::zero(); n];
        p62_t4_c2_s128::enforce_round(&mut result, &current, &next, &rc, p62_t4_c2_s128::Elem::one());
        assert!(result.iter().any(|e| e.as_int() != 0));
        let mut gated = vec![p62_t4_c2_s128::Elem::zero(); n];
        p62_t4_c2_s128::enforce_round(&mut gated, &current, &next, &rc, p62_t4_c2_s128::Elem::zero());
        assert!(gated.iter().all(|e| e.as_int() == 0));
    }
}

#[test]
fn p62_t4_c2_s128_absorbing_first_round_constraints_vanish() {
    let n = p62_t4_c2_s128::STATE_WIDTH;
    let (current, _, rc) = p62_t4_c2_s128_round_setup(0);
    let pixels: Vec<p62_t4_c2_s128::Elem> = elems(&vec![9u128; p62_t4_c2_s128::RATE]);
    let mut absorbed = current.clone();
    for i in 0..p62_t4_c2_s128::RATE {
        absorbed[i] = absorbed[i].add(pixels[i]);
    }
    let mut next = absorbed.clone();
    p62_t4_c2_s128::apply_round(&mut next, 0);
    let mut result = vec![p62_t4_c2_s128::Elem::zero(); n];
    p62_t4_c2_s128::enforce_first_round_plus_absorb(&mut result, &pixels, &current, &next, &rc, p62_t4_c2_s128::Elem::one());
    assert!(result.iter().all(|e| e.as_int() == 0));
}

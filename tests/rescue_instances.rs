use griffin_rescue::field::PrimeField;
use griffin_rescue::layers::matrix_mul;

use griffin_rescue::rescue::p128_m4_c2_s128;
use griffin_rescue::rescue::p128_m4_c3_s128;
use griffin_rescue::rescue::p128_m9_c1_s128;
use griffin_rescue::rescue::p62_m4_c2_s128;
use griffin_rescue::rescue::p62_m4_c3_s128;
use griffin_rescue::rescue::p62_m9_c1_s128;
use griffin_rescue::rescue::p64_m9_c1_s128;

fn ints<E: PrimeField>(v: &[E]) -> Vec<u128> {
    v.iter().map(|e| e.as_int()).collect()
}

fn elems<E: PrimeField>(v: &[u128]) -> Vec<E> {
    v.iter().map(|&x| E::from_u128(x)).collect()
}

#[test]
fn p128_m4_c2_s128_hash_of_zeros() {
    let input: Vec<p128_m4_c2_s128::Elem> = elems(&vec![0u128; 2 * p128_m4_c2_s128::RATE]);
    let digest = p128_m4_c2_s128::hash(&input);
    assert_eq!(ints(&digest), vec![226395639911089049020898686600134745983, 234177181104831008189532014226834735660]);
}

#[test]
fn p128_m4_c2_s128_hash_of_sequence() {
    let raw: Vec<u128> = (1..=(2 * p128_m4_c2_s128::RATE) as u128).collect();
    let input: Vec<p128_m4_c2_s128::Elem> = elems(&raw);
    let digest = p128_m4_c2_s128::rescue_prime_hash(&input);
    assert_eq!(ints(&digest), vec![82427948370827061926895720991559365555, 333050816883765624184949720279514664150]);
}

#[test]
fn p128_m4_c2_s128_permutation_vector() {
    let raw: Vec<u128> = (0..p128_m4_c2_s128::STATE_WIDTH as u128).collect();
    let v: Vec<p128_m4_c2_s128::Elem> = elems(&raw);
    let mut state = [p128_m4_c2_s128::Elem::zero(); p128_m4_c2_s128::STATE_WIDTH];
    state.copy_from_slice(&v);
    p128_m4_c2_s128::rescue_xlix_permutation(&mut state);
    assert_eq!(ints(&state), vec![233373933704508381244813707647909630458, 190716415501249523293531491799856563373, 17300869235620711490041590372848992821, 254356512240668247770430341554665850980]);
}

#[test]
fn p128_m4_c2_s128_single_round_vector() {
    let raw: Vec<u128> = (0..p128_m4_c2_s128::STATE_WIDTH as u128).collect();
    let mut state: Vec<p128_m4_c2_s128::Elem> = elems(&raw);
    p128_m4_c2_s128::apply_round(&mut state, 3 + p128_m4_c2_s128::NUM_ROUNDS);
    assert_eq!(ints(&state), vec![318127854935590262760309761736279728950, 70091191530043154541490122186448107461, 291735193748442371963805709771368767383, 79235998541529533110730469617693497280]);
}

#[test]
fn p128_m4_c2_s128_hash_by_rounds() {
    let n = p128_m4_c2_s128::STATE_WIDTH;
    let raw: Vec<u128> = (10..(10 + 3 * p128_m4_c2_s128::RATE) as u128).collect();
    let input: Vec<p128_m4_c2_s128::Elem> = elems(&raw);
    let mut state: Vec<p128_m4_c2_s128::Elem> = vec![p128_m4_c2_s128::Elem::zero(); n];
    for chunk in input.chunks(p128_m4_c2_s128::RATE) {
        for i in 0..p128_m4_c2_s128::RATE {
            state[i] = state[i].add(chunk[i]);
        }
        let mut whole = [p128_m4_c2_s128::Elem::zero(); p128_m4_c2_s128::STATE_WIDTH];
        whole.copy_from_slice(&state);
        for r in 0..p128_m4_c2_s128::NUM_ROUNDS {
            p128_m4_c2_s128::apply_round(&mut state, r);
        }
        p128_m4_c2_s128::rescue_xlix_permutation(&mut whole);
        assert_eq!(ints(&whole), ints(&state));
    }
    let digest = p128_m4_c2_s128::hash(&input);
    assert_eq!(ints(&digest), ints(&state[..p128_m4_c2_s128::RATE]));
}

#[test]
fn p128_m4_c2_s128_matrices_invert() {
    let n = p128_m4_c2_s128::STATE_WIDTH;
    let samples: Vec<Vec<u128>> = vec![vec![0; n], vec![1; n], (0..n as u128).map(|i| 7 * i + 3).collect()];
    for raw in samples {
        let start: Vec<p128_m4_c2_s128::Elem> = elems(&raw);
        let mut v = start.clone();
        matrix_mul(&p128_m4_c2_s128::INV_MDS, n, &mut v);
        matrix_mul(&p128_m4_c2_s128::MDS, n, &mut v);
        assert_eq!(ints(&v), ints(&start));
        let mut w = start.clone();
        matrix_mul(&p128_m4_c2_s128::MDS, n, &mut w);
        if raw.windows(2).any(|p| p[0] != p[1]) {
            assert_ne!(ints(&w), ints(&start));
        }
        matrix_mul(&p128_m4_c2_s128::INV_MDS, n, &mut w);
        assert_eq!(ints(&w), ints(&start));
    }
}

#[test]
fn p128_m4_c2_s128_exponents_invert() {
    let fwd = p128_m4_c2_s128::ALPHA;
    let inv = p128_m4_c2_s128::INV_ALPHA;
    for x in [1u128, 2, 3, 12345, 987654321, 1 << 40] {
        let e = p128_m4_c2_s128::Elem::from_u128(x);
        assert_eq!(e.exp(fwd).exp(inv).as_int(), x);
        assert_eq!(e.exp(inv).exp(fwd).as_int(), x);
    }
    let minus_one = p128_m4_c2_s128::Elem::zero().sub(p128_m4_c2_s128::Elem::one());
    assert_eq!(minus_one.exp(fwd).exp(inv), minus_one);
}

#[test]
fn p128_m4_c2_s128_single_change_alters_digest() {
    let raw: Vec<u128> = (1..=(2 * p128_m4_c2_s128::RATE) as u128).collect();
    let input: Vec<p128_m4_c2_s128::Elem> = elems(&raw);
    let digest = p128_m4_c2_s128::hash(&input);
    assert_eq!(ints(&p128_m4_c2_s128::hash(&input)), ints(&digest));
    for k in 0..input.len() {
        let mut changed = input.clone();
        changed[k] = changed[k].add(p128_m4_c2_s128::Elem::one());
        assert_ne!(ints(&p128_m4_c2_s128::hash(&changed)), ints(&digest));
    }
}

#[test]
fn p128_m4_c2_s128_periodic_round_constants() {
    let n = p128_m4_c2_s128::STATE_WIDTH;
    let cycle = 16;
    let cols = p128_m4_c2_s128::get_round_constants_periodic(cycle, 1);
    assert_eq!(cols.len(), 2 * n);
    for j in 0..2 * n {
        assert_eq!(cols[j].len(), cycle);
        for t in 0..cycle {
            let expected = if t >= 1 && t <= p128_m4_c2_s128::NUM_ROUNDS {
                p128_m4_c2_s128::ROUND_CONSTANTS[(t - 1) * 2 * n + j]
            } else {
                0
            };
            assert_eq!(cols[j][t].as_int(), expected);
        }
    }
}

#[test]
fn p128_m4_c2_s128_padded_hash() {
    let input: Vec<p128_m4_c2_s128::Elem> = elems(&[5, 6, 7]);
    let digest = p128_m4_c2_s128::rescue_prime_wrapper(&input);
    assert_eq!(ints(&digest), vec![79649248840658426139402171818342526543, 148427325935982945408416351324450109967]);
}

fn p128_m4_c2_s128_round_setup(round: usize) -> (Vec<p128_m4_c2_s128::Elem>, Vec<p128_m4_c2_s128::Elem>, Vec<p128_m4_c2_s128::Elem>) {
    let n = p128_m4_c2_s128::STATE_WIDTH;
    let t = round % p128_m4_c2_s128::NUM_ROUNDS;
    let raw: Vec<u128> = (0..n as u128).map(|i| 5 * i + 11).collect();
    let current: Vec<p128_m4_c2_s128::Elem> = elems(&raw);
    let mut next = current.clone();
    p128_m4_c2_s128::apply_round(&mut next, round);
    let rc: Vec<p128_m4_c2_s128::Elem> = elems(&p128_m4_c2_s128::ROUND_CONSTANTS[t * 2 * n..(t + 1) * 2 * n]);
    (current, next, rc)
}

#[test]
fn p128_m4_c2_s128_constraints_vanish_on_round() {
    let n = p128_m4_c2_s128::STATE_WIDTH;
    for round in [0, 1, p128_m4_c2_s128::NUM_ROUNDS - 1] {
        let (current, next, rc) = p128_m4_c2_s128_round_setup(round);
        let mut result = vec![p128_m4_c2_s128::Elem::zero(); n];
        p128_m4_c2_s128::enforce_round(&mut result, &current, &next, &rc, p128_m4_c2_s128::Elem::one());
        assert!(result.iter().all(|e| e.as_int() == 0));
    }
}

#[test]
fn p128_m4_c2_s128_first_round_constraints_vanish() {
    let n = p128_m4_c2_s128::STATE_WIDTH;
    let (current, _, rc) = p128_m4_c2_s128_round_setup(0);
    let pixels: Vec<p128_m4_c2_s128::Elem> = elems(&vec![9u128; p128_m4_c2_s128::RATE]);
    let mut absorbed = current.clone();
    for i in 0..p128_m4_c2_s128::RATE {
        absorbed[i] = absorbed[i].add(pixels[i]);
    }
    let mut next = absorbed.clone();
    p128_m4_c2_s128::apply_round(&mut next, 0);
    let mut result = vec![p128_m4_c2_s128::Elem::zero(); n];
    p128_m4_c2_s128::enforce_first_round(&mut result, &pixels, &current, &next, &rc, p128_m4_c2_s128::Elem::one());
    assert!(result.iter().all(|e| e.as_int() == 0));
}

#[test]
fn p128_m4_c2_s128_mutated_next_state_detected() {
    let n = p128_m4_c2_s128::STATE_WIDTH;
    for lane in 0..n {
        let (current, mut next, rc) = p128_m4_c2_s128_round_setup(2);
        next[lane] = next[lane].add(p128_m4_c2_s128::Elem::one());
        let mut result = vec![p128_m4_c2_s128::Elem::zero(); n];
        p128_m4_c2_s128::enforce_round(&mut result, &current, &next, &rc, p128_m4_c2_s128::Elem::one());
        assert!(result.iter().any(|e| e.as_int() != 0));
        let mut gated = vec![p128_m4_c2_s128::Elem::zero(); n];
        p128_m4_c2_s128::enforce_round(&mut gated, &current, &next, &rc, p128_m4_c2_s128::Elem::zero());
        assert!(gated.iter().all(|e| e.as_int() == 0));
    }
}

#[test]
fn p128_m4_c3_s128_hash_of_zeros() {
    let input: Vec<p128_m4_c3_s128::Elem> = elems(&vec![0u128; 2 * p128_m4_c3_s128::RATE]);
    let digest = p128_m4_c3_s128::hash(&input);
    assert_eq!(ints(&digest), vec![230989122632983957716133948604356664753]);
}

#[test]
fn p128_m4_c3_s128_hash_of_sequence() {
    let raw: Vec<u128> = (1..=(2 * p128_m4_c3_s128::RATE) as u128).collect();
    let input: Vec<p128_m4_c3_s128::Elem> = elems(&raw);
    let digest = p128_m4_c3_s128::rescue_prime_hash(&input);
    assert_eq!(ints(&digest), vec![105977632249448859758715438750604832977]);
}

#[test]
fn p128_m4_c3_s128_permutation_vector() {
    let raw: Vec<u128> = (0..p128_m4_c3_s128::STATE_WIDTH as u128).collect();
    let v: Vec<p128_m4_c3_s128::Elem> = elems(&raw);
    let mut state = [p128_m4_c3_s128::Elem::zero(); p128_m4_c3_s128::STATE_WIDTH];
    state.copy_from_slice(&v);
    p128_m4_c3_s128::rescue_xlix_permutation(&mut state);
    assert_eq!(ints(&state), vec![259423740297585358372388483905601956969, 327087635289976639160434407043248202054, 145099199352579722451144620848887598387, 327648281169865236302138105919971250552]);
}

#[test]
fn p128_m4_c3_s128_single_round_vector() {
    let raw: Vec<u128> = (0..p128_m4_c3_s128::STATE_WIDTH as u128).collect();
    let mut state: Vec<p128_m4_c3_s128::Elem> = elems(&raw);
    p128_m4_c3_s128::apply_round(&mut state, 3 + p128_m4_c3_s128::NUM_ROUNDS);
    assert_eq!(ints(&state), vec![206166709312472164567575372526415140351, 268188325195514657534624856776495149006, 159668834957580445636094021484013881786, 230868406227517109705726360537428028029]);
}

#[test]
fn p128_m4_c3_s128_hash_by_rounds() {
    let n = p128_m4_c3_s128::STATE_WIDTH;
    let raw: Vec<u128> = (10..(10 + 3 * p128_m4_c3_s128::RATE) as u128).collect();
    let input: Vec<p128_m4_c3_s128::Elem> = elems(&raw);
    let mut state: Vec<p128_m4_c3_s128::Elem> = vec![p128_m4_c3_s128::Elem::zero(); n];
    for chunk in input.chunks(p128_m4_c3_s128::RATE) {
        for i in 0..p128_m4_c3_s128::RATE {
            state[i] = state[i].add(chunk[i]);
        }
        let mut whole = [p128_m4_c3_s128::Elem::zero(); p128_m4_c3_s128::STATE_WIDTH];
        whole.copy_from_slice(&state);
        for r in 0..p128_m4_c3_s128::NUM_ROUNDS {
            p128_m4_c3_s128::apply_round(&mut state, r);
        }
        p128_m4_c3_s128::rescue_xlix_permutation(&mut whole);
        assert_eq!(ints(&whole), ints(&state));
    }
    let digest = p128_m4_c3_s128::hash(&input);
    assert_eq!(ints(&digest), ints(&state[..p128_m4_c3_s128::RATE]));
}

#[test]
fn p128_m4_c3_s128_matrices_invert() {
    let n = p128_m4_c3_s128::STATE_WIDTH;
    let samples: Vec<Vec<u128>> = vec![vec![0; n], vec![1; n], (0..n as u128).map(|i| 7 * i + 3).collect()];
    for raw in samples {
        let start: Vec<p128_m4_c3_s128::Elem> = elems(&raw);
        let mut v = start.clone();
        matrix_mul(&p128_m4_c3_s128::INV_MDS, n, &mut v);
        matrix_mul(&p128_m4_c3_s128::MDS, n, &mut v);
        assert_eq!(ints(&v), ints(&start));
        let mut w = start.clone();
        matrix_mul(&p128_m4_c3_s128::MDS, n, &mut w);
        if raw.windows(2).any(|p| p[0] != p[1]) {
            assert_ne!(ints(&w), ints(&start));
        }
        matrix_mul(&p128_m4_c3_s128::INV_MDS, n, &mut w);
        assert_eq!(ints(&w), ints(&start));
    }
}

#[test]
fn p128_m4_c3_s128_exponents_invert() {
    let fwd = p128_m4_c3_s128::ALPHA;
    let inv = p128_m4_c3_s128::INV_ALPHA;
    for x in [1u128, 2, 3, 12345, 987654321, 1 << 40] {
        let e = p128_m4_c3_s128::Elem::from_u128(x);
        assert_eq!(e.exp(fwd).exp(inv).as_int(), x);
        assert_eq!(e.exp(inv).exp(fwd).as_int(), x);
    }
    let minus_one = p128_m4_c3_s128::Elem::zero().sub(p128_m4_c3_s128::Elem::one());
    assert_eq!(minus_one.exp(fwd).exp(inv), minus_one);
}

#[test]
fn p128_m4_c3_s128_single_change_alters_digest() {
    let raw: Vec<u128> = (1..=(2 * p128_m4_c3_s128::RATE) as u128).collect();
    let input: Vec<p128_m4_c3_s128::Elem> = elems(&raw);
    let digest = p128_m4_c3_s128::hash(&input);
    assert_eq!(ints(&p128_m4_c3_s128::hash(&input)), ints(&digest));
    for k in 0..input.len() {
        let mut changed = input.clone();
        changed[k] = changed[k].add(p128_m4_c3_s128::Elem::one());
        assert_ne!(ints(&p128_m4_c3_s128::hash(&changed)), ints(&digest));
    }
}

#[test]
fn p128_m4_c3_s128_periodic_round_constants() {
    let n = p128_m4_c3_s128::STATE_WIDTH;
    let cycle = 16;
    let cols = p128_m4_c3_s128::get_round_constants_periodic(cycle, 1);
    assert_eq!(cols.len(), 2 * n);
    for j in 0..2 * n {
        assert_eq!(cols[j].len(), cycle);
        for t in 0..cycle {
            let expected = if t >= 1 && t <= p128_m4_c3_s128::NUM_ROUNDS {
                p128_m4_c3_s128::ROUND_CONSTANTS[(t - 1) * 2 * n + j]
            } else {
                0
            };
            assert_eq!(cols[j][t].as_int(), expected);
        }
    }
}

#[test]
fn p128_m4_c3_s128_padded_hash() {
    let input: Vec<p128_m4_c3_s128::Elem> = elems(&[5, 6, 7]);
    let digest = p128_m4_c3_s128::rescue_prime_wrapper(&input);
    assert_eq!(ints(&digest), vec![68571181565314031704299525148280827626]);
}

fn p128_m4_c3_s128_round_setup(round: usize) -> (Vec<p128_m4_c3_s128::Elem>, Vec<p128_m4_c3_s128::Elem>, Vec<p128_m4_c3_s128::Elem>) {
    let n = p128_m4_c3_s128::STATE_WIDTH;
    let t = round % p128_m4_c3_s128::NUM_ROUNDS;
    let raw: Vec<u128> = (0..n as u128).map(|i| 5 * i + 11).collect();
    let current: Vec<p128_m4_c3_s128::Elem> = elems(&raw);
    let mut next = current.clone();
    p128_m4_c3_s128::apply_round(&mut next, round);
    let rc: Vec<p128_m4_c3_s128::Elem> = elems(&p128_m4_c3_s128::ROUND_CONSTANTS[t * 2 * n..(t + 1) * 2 * n]);
    (current, next, rc)
}

#[test]
fn p128_m4_c3_s128_constraints_vanish_on_round() {
    let n = p128_m4_c3_s128::STATE_WIDTH;
    for round in [0, 1, p128_m4_c3_s128::NUM_ROUNDS - 1] {
        let (current, next, rc) = p128_m4_c3_s128_round_setup(round);
        let mut result = vec![p128_m4_c3_s128::Elem::zero(); n];
        p128_m4_c3_s128::enforce_round(&mut result, &current, &next, &rc, p128_m4_c3_s128::Elem::one());
        assert!(result.iter().all(|e| e.as_int() == 0));
    }
}

#[test]
fn p128_m4_c3_s128_first_round_constraints_vanish() {
    let n = p128_m4_c3_s128::STATE_WIDTH;
    let (current, _, rc) = p128_m4_c3_s128_round_setup(0);
    let pixels: Vec<p128_m4_c3_s128::Elem> = elems(&vec![9u128; p128_m4_c3_s128::RATE]);
    let mut absorbed = current.clone();
    for i in 0..p128_m4_c3_s128::RATE {
        absorbed[i] = absorbed[i].add(pixels[i]);
    }
    let mut next = absorbed.clone();
    p128_m4_c3_s128::apply_round(&mut next, 0);
    let mut result = vec![p128_m4_c3_s128::Elem::zero(); n];
    p128_m4_c3_s128::enforce_first_round(&mut result, &pixels, &current, &next, &rc, p128_m4_c3_s128::Elem::one());
    assert!(result.iter().all(|e| e.as_int() == 0));
}

#[test]
fn p128_m4_c3_s128_mutated_next_state_detected() {
    let n = p128_m4_c3_s128::STATE_WIDTH;
    for lane in 0..n {
        let (current, mut next, rc) = p128_m4_c3_s128_round_setup(2);
        next[lane] = next[lane].add(p128_m4_c3_s128::Elem::one());
        let mut result = vec![p128_m4_c3_s128::Elem::zero(); n];
        p128_m4_c3_s128::enforce_round(&mut result, &current, &next, &rc, p128_m4_c3_s128::Elem::one());
        assert!(result.iter().any(|e| e.as_int() != 0));
        let mut gated = vec![p128_m4_c3_s128::Elem::zero(); n];
        p128_m4_c3_s128::enforce_round(&mut gated, &current, &next, &rc, p128_m4_c3_s128::Elem::zero());
        assert!(gated.iter().all(|e| e.as_int() == 0));
    }
}

#[test]
fn p128_m9_c1_s128_hash_of_zeros() {
    let input: Vec<p128_m9_c1_s128::Elem> = elems(&vec![0u128; 2 * p128_m9_c1_s128::RATE]);
    let digest = p128_m9_c1_s128::hash(&input);
    assert_eq!(ints(&digest), vec![323486176450179573365502367591745879895, 221064890956192549416947660601871639765, 285633114741733003525216033424262548693, 260484489252827300846737334938325651330, 152224798027251401663403700965328583511, 296901258806170770324404021934210011884, 33040761939594002833779181078746727698, 132313019164069433520314512011456457727]);
}

#[test]
fn p128_m9_c1_s128_hash_of_sequence() {
    let raw: Vec<u128> = (1..=(2 * p128_m9_c1_s128::RATE) as u128).collect();
    let input: Vec<p128_m9_c1_s128::Elem> = elems(&raw);
    let digest = p128_m9_c1_s128::rescue_prime_hash(&input);
    assert_eq!(ints(&digest), vec![127066011181263574952657785265796316918, 3508024224739831590858750036459781042, 62379553141056712879373633916721504176, 263001130752768902643943436237154296246, 183801956489807816535637064989330470842, 327717134598872157433097681819137433845, 286648815186071474977469749070151193199, 145658815971576927868415259072711840368]);
}

#[test]
fn p128_m9_c1_s128_permutation_vector() {
    let raw: Vec<u128> = (0..p128_m9_c1_s128::STATE_WIDTH as u128).collect();
    let v: Vec<p128_m9_c1_s128::Elem> = elems(&raw);
    let mut state = [p128_m9_c1_s128::Elem::zero(); p128_m9_c1_s128::STATE_WIDTH];
    state.copy_from_slice(&v);
    p128_m9_c1_s128::rescue_xlix_permutation(&mut state);
    assert_eq!(ints(&state), vec![107734297931357909332562851586978837925, 154571366353212300232462632515798455137, 337723558794522911419353214528645416415, 282151574134745113908495692727622330750, 214902729902080177352287218987857980934, 12254675068693323564496753665481510545, 100955689203425037966656283995990530775, 206991222319170579151981797186869972851, 300086298336491081530109983463437490484]);
}

#[test]
fn p128_m9_c1_s128_single_round_vector() {
    let raw: Vec<u128> = (0..p128_m9_c1_s128::STATE_WIDTH as u128).collect();
    let mut state: Vec<p128_m9_c1_s128::Elem> = elems(&raw);
    p128_m9_c1_s128::apply_round(&mut state, 3 + p128_m9_c1_s128::NUM_ROUNDS);
    assert_eq!(ints(&state), vec![59972599213754394197536795645288471249, 268217697504135825025441511119389493001, 199434343277178596397557682319709976488, 90431439894406824658011592850590036780, 245842956784313617724169703684036795293, 236146389130047776593767431069844788096, 73397774219742195077992839960591975188, 63404439183531373134402391311821182055, 252865615401302807935932229834683690224]);
}

#[test]
fn p128_m9_c1_s128_hash_by_rounds() {
    let n = p128_m9_c1_s128::STATE_WIDTH;
    let raw: Vec<u128> = (10..(10 + 3 * p128_m9_c1_s128::RATE) as u128).collect();
    let input: Vec<p128_m9_c1_s128::Elem> = elems(&raw);
    let mut state: Vec<p128_m9_c1_s128::Elem> = vec![p128_m9_c1_s128::Elem::zero(); n];
    for chunk in input.chunks(p128_m9_c1_s128::RATE) {
        for i in 0..p128_m9_c1_s128::RATE {
            state[i] = state[i].add(chunk[i]);
        }
        let mut whole = [p128_m9_c1_s128::Elem::zero(); p128_m9_c1_s128::STATE_WIDTH];
        whole.copy_from_slice(&state);
        for r in 0..p128_m9_c1_s128::NUM_ROUNDS {
            p128_m9_c1_s128::apply_round(&mut state, r);
        }
        p128_m9_c1_s128::rescue_xlix_permutation(&mut whole);
        assert_eq!(ints(&whole), ints(&state));
    }
    let digest = p128_m9_c1_s128::hash(&input);
    assert_eq!(ints(&digest), ints(&state[..p128_m9_c1_s128::RATE]));
}

#[test]
fn p128_m9_c1_s128_matrices_invert() {
    let n = p128_m9_c1_s128::STATE_WIDTH;
    let samples: Vec<Vec<u128>> = vec![vec![0; n], vec![1; n], (0..n as u128).map(|i| 7 * i + 3).collect()];
    for raw in samples {
        let start: Vec<p128_m9_c1_s128::Elem> = elems(&raw);
        let mut v = start.clone();
        matrix_mul(&p128_m9_c1_s128::INV_MDS, n, &mut v);
        matrix_mul(&p128_m9_c1_s128::MDS, n, &mut v);
        assert_eq!(ints(&v), ints(&start));
        let mut w = start.clone();
        matrix_mul(&p128_m9_c1_s128::MDS, n, &mut w);
        if raw.windows(2).any(|p| p[0] != p[1]) {
            assert_ne!(ints(&w), ints(&start));
        }
        matrix_mul(&p128_m9_c1_s128::INV_MDS, n, &mut w);
        assert_eq!(ints(&w), ints(&start));
    }
}

#[test]
fn p128_m9_c1_s128_exponents_invert() {
    let fwd = p128_m9_c1_s128::ALPHA;
    let inv = p128_m9_c1_s128::INV_ALPHA;
    for x in [1u128, 2, 3, 12345, 987654321, 1 << 40] {
        let e = p128_m9_c1_s128::Elem::from_u128(x);
        assert_eq!(e.exp(fwd).exp(inv).as_int(), x);
        assert_eq!(e.exp(inv).exp(fwd).as_int(), x);
    }
    let minus_one = p128_m9_c1_s128::Elem::zero().sub(p128_m9_c1_s128::Elem::one());
    assert_eq!(minus_one.exp(fwd).exp(inv), minus_one);
}

#[test]
fn p128_m9_c1_s128_single_change_alters_digest() {
    let raw: Vec<u128> = (1..=(2 * p128_m9_c1_s128::RATE) as u128).collect();
    let input: Vec<p128_m9_c1_s128::Elem> = elems(&raw);
    let digest = p128_m9_c1_s128::hash(&input);
    assert_eq!(ints(&p128_m9_c1_s128::hash(&input)), ints(&digest));
    for k in 0..input.len() {
        let mut changed = input.clone();
        changed[k] = changed[k].add(p128_m9_c1_s128::Elem::one());
        assert_ne!(ints(&p128_m9_c1_s128::hash(&changed)), ints(&digest));
    }
}

#[test]
fn p128_m9_c1_s128_periodic_round_constants() {
    let n = p128_m9_c1_s128::STATE_WIDTH;
    let cycle = 16;
    let cols = p128_m9_c1_s128::get_round_constants_periodic(cycle, 1);
    assert_eq!(cols.len(), 2 * n);
    for j in 0..2 * n {
        assert_eq!(cols[j].len(), cycle);
        for t in 0..cycle {
            let expected = if t >= 1 && t <= p128_m9_c1_s128::NUM_ROUNDS {
                p128_m9_c1_s128::ROUND_CONSTANTS[(t - 1) * 2 * n + j]
            } else {
                0
            };
            assert_eq!(cols[j][t].as_int(), expected);
        }
    }
}

#[test]
fn p128_m9_c1_s128_padded_hash() {
    let input: Vec<p128_m9_c1_s128::Elem> = elems(&[5, 6, 7]);
    let digest = p128_m9_c1_s128::rescue_prime_wrapper(&input);
    assert_eq!(ints(&digest), vec![45773262477710871906995008029035217075, 127027280411484887791589739983799687411, 234586043523070020324626001941484949431, 131449840638373112223054554612437616392, 48388275868599764419000228850765377169, 174291035368567772302790956241118439644, 313913503895126297659854282113945961814, 271714866457521658002146076551247164832]);
}

fn p128_m9_c1_s128_round_setup(round: usize) -> (Vec<p128_m9_c1_s128::Elem>, Vec<p128_m9_c1_s128::Elem>, Vec<p128_m9_c1_s128::Elem>) {
    let n = p128_m9_c1_s128::STATE_WIDTH;
    let t = round % p128_m9_c1_s128::NUM_ROUNDS;
    let raw: Vec<u128> = (0..n as u128).map(|i| 5 * i + 11).collect();
    let current: Vec<p128_m9_c1_s128::Elem> = elems(&raw);
    let mut next = current.clone();
    p128_m9_c1_s128::apply_round(&mut next, round);
    let rc: Vec<p128_m9_c1_s128::Elem> = elems(&p128_m9_c1_s128::ROUND_CONSTANTS[t * 2 * n..(t + 1) * 2 * n]);
    (current, next, rc)
}

#[test]
fn p128_m9_c1_s128_constraints_vanish_on_round() {
    let n = p128_m9_c1_s128::STATE_WIDTH;
    for round in [0, 1, p128_m9_c1_s128::NUM_ROUNDS - 1] {
        let (current, next, rc) = p128_m9_c1_s128_round_setup(round);
        let mut result = vec![p128_m9_c1_s128::Elem::zero(); n];
        p128_m9_c1_s128::enforce_round(&mut result, &current, &next, &rc, p128_m9_c1_s128::Elem::one());
        assert!(result.iter().all(|e| e.as_int() == 0));
    }
}

#[test]
fn p128_m9_c1_s128_first_round_constraints_vanish() {
    let n = p128_m9_c1_s128::STATE_WIDTH;
    let (current, _, rc) = p128_m9_c1_s128_round_setup(0);
    let pixels: Vec<p128_m9_c1_s128::Elem> = elems(&vec![9u128; p128_m9_c1_s128::RATE]);
    let mut absorbed = current.clone();
    for i in 0..p128_m9_c1_s128::RATE {
        absorbed[i] = absorbed[i].add(pixels[i]);
    }
    let mut next = absorbed.clone();
    p128_m9_c1_s128::apply_round(&mut next, 0);
    let mut result = vec![p128_m9_c1_s128::Elem::zero(); n];
    p128_m9_c1_s128::enforce_first_round(&mut result, &pixels, &current, &next, &rc, p128_m9_c1_s128::Elem::one());
    assert!(result.iter().all(|e| e.as_int() == 0));
}

#[test]
fn p128_m9_c1_s128_mutated_next_state_detected() {
    let n = p128_m9_c1_s128::STATE_WIDTH;
    for lane in 0..n {
        let (current, mut next, rc) = p128_m9_c1_s128_round_setup(2);
        next[lane] = next[lane].add(p128_m9_c1_s128::Elem::one());
        let mut result = vec![p128_m9_c1_s128::Elem::zero(); n];
        p128_m9_c1_s128::enforce_round(&mut result, &current, &next, &rc, p128_m9_c1_s128::Elem::one());
        assert!(result.iter().any(|e| e.as_int() != 0));
        let mut gated = vec![p128_m9_c1_s128::Elem::zero(); n];
        p128_m9_c1_s128::enforce_round(&mut gated, &current, &next, &rc, p128_m9_c1_s128::Elem::zero());
        assert!(gated.iter().all(|e| e.as_int() == 0));
    }
}

#[test]
fn p62_m4_c2_s128_hash_of_zeros() {
    let input: Vec<p62_m4_c2_s128::Elem> = elems(&vec![0u128; 2 * p62_m4_c2_s128::RATE]);
    let digest = p62_m4_c2_s128::hash(&input);
    assert_eq!(ints(&digest), vec![2211624404929553190, 1066169540345520094]);
}

#[test]
fn p62_m4_c2_s128_hash_of_sequence() {
    let raw: Vec<u128> = (1..=(2 * p62_m4_c2_s128::RATE) as u128).collect();
    let input: Vec<p62_m4_c2_s128::Elem> = elems(&raw);
    let digest = p62_m4_c2_s128::rescue_prime_hash(&input);
    assert_eq!(ints(&digest), vec![2310100681504037977, 1674951384226809684]);
}

#[test]
fn p62_m4_c2_s128_permutation_vector() {
    let raw: Vec<u128> = (0..p62_m4_c2_s128::STATE_WIDTH as u128).collect();
    let v: Vec<p62_m4_c2_s128::Elem> = elems(&raw);
    let mut state = [p62_m4_c2_s128::Elem::zero(); p62_m4_c2_s128::STATE_WIDTH];
    state.copy_from_slice(&v);
    p62_m4_c2_s128::rescue_xlix_permutation(&mut state);
    assert_eq!(ints(&state), vec![1988939269221804002, 4429808266120651176, 1904029313894450586, 4463638373327212078]);
}

#[test]
fn p62_m4_c2_s128_single_round_vector() {
    let raw: Vec<u128> = (0..p62_m4_c2_s128::STATE_WIDTH as u128).collect();
    let mut state: Vec<p62_m4_c2_s128::Elem> = elems(&raw);
    p62_m4_c2_s128::apply_round(&mut state, 3 + p62_m4_c2_s128::NUM_ROUNDS);
    assert_eq!(ints(&state), vec![2010168247587703040, 3298011443842613075, 3404556284184825442, 2130390196641897036]);
}

#[test]
fn p62_m4_c2_s128_hash_by_rounds() {
    let n = p62_m4_c2_s128::STATE_WIDTH;
    let raw: Vec<u128> = (10..(10 + 3 * p62_m4_c2_s128::RATE) as u128).collect();
    let input: Vec<p62_m4_c2_s128::Elem> = elems(&raw);
    let mut state: Vec<p62_m4_c2_s128::Elem> = vec![p62_m4_c2_s128::Elem::zero(); n];
    for chunk in input.chunks(p62_m4_c2_s128::RATE) {
        for i in 0..p62_m4_c2_s128::RATE {
            state[i] = state[i].add(chunk[i]);
        }
        let mut whole = [p62_m4_c2_s128::Elem::zero(); p62_m4_c2_s128::STATE_WIDTH];
        whole.copy_from_slice(&state);
        for r in 0..p62_m4_c2_s128::NUM_ROUNDS {
            p62_m4_c2_s128::apply_round(&mut state, r);
        }
        p62_m4_c2_s128::rescue_xlix_permutation(&mut whole);
        assert_eq!(ints(&whole), ints(&state));
    }
    let digest = p62_m4_c2_s128::hash(&input);
    assert_eq!(ints(&digest), ints(&state[..p62_m4_c2_s128::RATE]));
}

#[test]
fn p62_m4_c2_s128_matrices_invert() {
    let n = p62_m4_c2_s128::STATE_WIDTH;
    let samples: Vec<Vec<u128>> = vec![vec![0; n], vec![1; n], (0..n as u128).map(|i| 7 * i + 3).collect()];
    for raw in samples {
        let start: Vec<p62_m4_c2_s128::Elem> = elems(&raw);
        let mut v = start.clone();
        matrix_mul(&p62_m4_c2_s128::INV_MDS, n, &mut v);
        matrix_mul(&p62_m4_c2_s128::MDS, n, &mut v);
        assert_eq!(ints(&v), ints(&start));
        let mut w = start.clone();
        matrix_mul(&p62_m4_c2_s128::MDS, n, &mut w);
        if raw.windows(2).any(|p| p[0] != p[1]) {
            assert_ne!(ints(&w), ints(&start));
        }
        matrix_mul(&p62_m4_c2_s128::INV_MDS, n, &mut w);
        assert_eq!(ints(&w), ints(&start));
    }
}

#[test]
fn p62_m4_c2_s128_exponents_invert() {
    let fwd = p62_m4_c2_s128::ALPHA;
    let inv = p62_m4_c2_s128::INV_ALPHA;
    for x in [1u128, 2, 3, 12345, 987654321, 1 << 40] {
        let e = p62_m4_c2_s128::Elem::from_u128(x);
        assert_eq!(e.exp(fwd).exp(inv).as_int(), x);
        assert_eq!(e.exp(inv).exp(fwd).as_int(), x);
    }
    let minus_one = p62_m4_c2_s128::Elem::zero().sub(p62_m4_c2_s128::Elem::one());
    assert_eq!(minus_one.exp(fwd).exp(inv), minus_one);
}

#[test]
fn p62_m4_c2_s128_single_change_alters_digest() {
    let raw: Vec<u128> = (1..=(2 * p62_m4_c2_s128::RATE) as u128).collect();
    let input: Vec<p62_m4_c2_s128::Elem> = elems(&raw);
    let digest = p62_m4_c2_s128::hash(&input);
    assert_eq!(ints(&p62_m4_c2_s128::hash(&input)), ints(&digest));
    for k in 0..input.len() {
        let mut changed = input.clone();
        changed[k] = changed[k].add(p62_m4_c2_s128::Elem::one());
        assert_ne!(ints(&p62_m4_c2_s128::hash(&changed)), ints(&digest));
    }
}

#[test]
fn p62_m4_c2_s128_periodic_round_constants() {
    let n = p62_m4_c2_s128::STATE_WIDTH;
    let cycle = 16;
    let cols = p62_m4_c2_s128::get_round_constants_periodic(cycle, 1);
    assert_eq!(cols.len(), 2 * n);
    for j in 0..2 * n {
        assert_eq!(cols[j].len(), cycle);
        for t in 0..cycle {
            let expected = if t >= 1 && t <= p62_m4_c2_s128::NUM_ROUNDS {
                p62_m4_c2_s128::ROUND_CONSTANTS[(t - 1) * 2 * n + j]
            } else {
                0
            };
            assert_eq!(cols[j][t].as_int(), expected);
        }
    }
}

#[test]
fn p62_m4_c2_s128_padded_hash() {
    let input: Vec<p62_m4_c2_s128::Elem> = elems(&[5, 6, 7]);
    let digest = p62_m4_c2_s128::rescue_prime_wrapper(&input);
    assert_eq!(ints(&digest), vec![847905155208130458, 431252228493395460]);
}

fn p62_m4_c2_s128_round_setup(round: usize) -> (Vec<p62_m4_c2_s128::Elem>, Vec<p62_m4_c2_s128::Elem>, Vec<p62_m4_c2_s128::Elem>) {
    let n = p62_m4_c2_s128::STATE_WIDTH;
    let t = round % p62_m4_c2_s128::NUM_ROUNDS;
    let raw: Vec<u128> = (0..n as u128).map(|i| 5 * i + 11).collect();
    let current: Vec<p62_m4_c2_s128::Elem> = elems(&raw);
    let mut next = current.clone();
    p62_m4_c2_s128::apply_round(&mut next, round);
    let rc: Vec<p62_m4_c2_s128::Elem> = elems(&p62_m4_c2_s128::ROUND_CONSTANTS[t * 2 * n..(t + 1) * 2 * n]);
    (current, next, rc)
}

#[test]
fn p62_m4_c2_s128_constraints_vanish_on_round() {
    let n = p62_m4_c2_s128::STATE_WIDTH;
    for round in [0, 1, p62_m4_c2_s128::NUM_ROUNDS - 1] {
        let (current, next, rc) = p62_m4_c2_s128_round_setup(round);
        let mut result = vec![p62_m4_c2_s128::Elem::zero(); n];
        p62_m4_c2_s128::enforce_round(&mut result, &current, &next, &rc, p62_m4_c2_s128::Elem::one());
        assert!(result.iter().all(|e| e.as_int() == 0));
    }
}

#[test]
fn p62_m4_c2_s128_first_round_constraints_vanish() {
    let n = p62_m4_c2_s128::STATE_WIDTH;
    let (current, _, rc) = p62_m4_c2_s128_round_setup(0);
    let pixels: Vec<p62_m4_c2_s128::Elem> = elems(&vec![9u128; p62_m4_c2_s128::RATE]);
    let mut absorbed = current.clone();
    for i in 0..p62_m4_c2_s128::RATE {
        absorbed[i] = absorbed[i].add(pixels[i]);
    }
    let mut next = absorbed.clone();
    p62_m4_c2_s128::apply_round(&mut next, 0);
    let mut result = vec![p62_m4_c2_s128::Elem::zero(); n];
    p62_m4_c2_s128::enforce_first_round(&mut result, &pixels, &current, &next, &rc, p62_m4_c2_s128::Elem::one());
    assert!(result.iter().all(|e| e.as_int() == 0));
}

#[test]
fn p62_m4_c2_s128_mutated_next_state_detected() {
    let n = p62_m4_c2_s128::STATE_WIDTH;
    for lane in 0..n {
        let (current, mut next, rc) = p62_m4_c2_s128_round_setup(2);
        next[lane] = next[lane].add(p62_m4_c2_s128::Elem::one());
        let mut result = vec![p62_m4_c2_s128::Elem::zero(); n];
        p62_m4_c2_s128::enforce_round(&mut result, &current, &next, &rc, p62_m4_c2_s128::Elem::one());
        assert!(result.iter().any(|e| e.as_int() != 0));
        let mut gated = vec![p62_m4_c2_s128::Elem::zero(); n];
        p62_m4_c2_s128::enforce_round(&mut gated, &current, &next, &rc, p62_m4_c2_s128::Elem::zero());
        assert!(gated.iter().all(|e| e.as_int() == 0));
    }
}

#[test]
fn p62_m4_c3_s128_hash_of_zeros() {
    let input: Vec<p62_m4_c3_s128::Elem> = elems(&vec![0u128; 2 * p62_m4_c3_s128::RATE]);
    let digest = p62_m4_c3_s128::hash(&input);
    assert_eq!(ints(&digest), vec![3108494136849792757]);
}

#[test]
fn p62_m4_c3_s128_hash_of_sequence() {
    let raw: Vec<u128> = (1..=(2 * p62_m4_c3_s128::RATE) as u128).collect();
    let input: Vec<p62_m4_c3_s128::Elem> = elems(&raw);
    let digest = p62_m4_c3_s128::rescue_prime_hash(&input);
    assert_eq!(ints(&digest), vec![4572733441906621505]);
}

#[test]
fn p62_m4_c3_s128_permutation_vector() {
    let raw: Vec<u128> = (0..p62_m4_c3_s128::STATE_WIDTH as u128).collect();
    let v: Vec<p62_m4_c3_s128::Elem> = elems(&raw);
    let mut state = [p62_m4_c3_s128::Elem::zero(); p62_m4_c3_s128::STATE_WIDTH];
    state.copy_from_slice(&v);
    p62_m4_c3_s128::rescue_xlix_permutation(&mut state);
    assert_eq!(ints(&state), vec![2306594201539270286, 682212939897487200, 3038955150003242712, 2147892136236683192]);
}

#[test]
fn p62_m4_c3_s128_single_round_vector() {
    let raw: Vec<u128> = (0..p62_m4_c3_s128::STATE_WIDTH as u128).collect();
    let mut state: Vec<p62_m4_c3_s128::Elem> = elems(&raw);
    p62_m4_c3_s128::apply_round(&mut state, 3 + p62_m4_c3_s128::NUM_ROUNDS);
    assert_eq!(ints(&state), vec![171563240970763892, 232633441384141741, 833343737398804836, 1793709800776487124]);
}

#[test]
fn p62_m4_c3_s128_hash_by_rounds() {
    let n = p62_m4_c3_s128::STATE_WIDTH;
    let raw: Vec<u128> = (10..(10 + 3 * p62_m4_c3_s128::RATE) as u128).collect();
    let input: Vec<p62_m4_c3_s128::Elem> = elems(&raw);
    let mut state: Vec<p62_m4_c3_s128::Elem> = vec![p62_m4_c3_s128::Elem::zero(); n];
    for chunk in input.chunks(p62_m4_c3_s128::RATE) {
        for i in 0..p62_m4_c3_s128::RATE {
            state[i] = state[i].add(chunk[i]);
        }
        let mut whole = [p62_m4_c3_s128::Elem::zero(); p62_m4_c3_s128::STATE_WIDTH];
        whole.copy_from_slice(&state);
        for r in 0..p62_m4_c3_s128::NUM_ROUNDS {
            p62_m4_c3_s128::apply_round(&mut state, r);
        }
        p62_m4_c3_s128::rescue_xlix_permutation(&mut whole);
        assert_eq!(ints(&whole), ints(&state));
    }
    let digest = p62_m4_c3_s128::hash(&input);
    assert_eq!(ints(&digest), ints(&state[..p62_m4_c3_s128::RATE]));
}

#[test]
fn p62_m4_c3_s128_matrices_invert() {
    let n = p62_m4_c3_s128::STATE_WIDTH;
    let samples: Vec<Vec<u128>> = vec![vec![0; n], vec![1; n], (0..n as u128).map(|i| 7 * i + 3).collect()];
    for raw in samples {
        let start: Vec<p62_m4_c3_s128::Elem> = elems(&raw);
        let mut v = start.clone();
        matrix_mul(&p62_m4_c3_s128::INV_MDS, n, &mut v);
        matrix_mul(&p62_m4_c3_s128::MDS, n, &mut v);
        assert_eq!(ints(&v), ints(&start));
        let mut w = start.clone();
        matrix_mul(&p62_m4_c3_s128::MDS, n, &mut w);
        if raw.windows(2).any(|p| p[0] != p[1]) {
            assert_ne!(ints(&w), ints(&start));
        }
        matrix_mul(&p62_m4_c3_s128::INV_MDS, n, &mut w);
        assert_eq!(ints(&w), ints(&start));
    }
}

#[test]
fn p62_m4_c3_s128_exponents_invert() {
    let fwd = p62_m4_c3_s128::ALPHA;
    let inv = p62_m4_c3_s128::INV_ALPHA;
    for x in [1u128, 2, 3, 12345, 987654321, 1 << 40] {
        let e = p62_m4_c3_s128::Elem::from_u128(x);
        assert_eq!(e.exp(fwd).exp(inv).as_int(), x);
        assert_eq!(e.exp(inv).exp(fwd).as_int(), x);
    }
    let minus_one = p62_m4_c3_s128::Elem::zero().sub(p62_m4_c3_s128::Elem::one());
    assert_eq!(minus_one.exp(fwd).exp(inv), minus_one);
}

#[test]
fn p62_m4_c3_s128_single_change_alters_digest() {
    let raw: Vec<u128> = (1..=(2 * p62_m4_c3_s128::RATE) as u128).collect();
    let input: Vec<p62_m4_c3_s128::Elem> = elems(&raw);
    let digest = p62_m4_c3_s128::hash(&input);
    assert_eq!(ints(&p62_m4_c3_s128::hash(&input)), ints(&digest));
    for k in 0..input.len() {
        let mut changed = input.clone();
        changed[k] = changed[k].add(p62_m4_c3_s128::Elem::one());
        assert_ne!(ints(&p62_m4_c3_s128::hash(&changed)), ints(&digest));
    }
}

#[test]
fn p62_m4_c3_s128_periodic_round_constants() {
    let n = p62_m4_c3_s128::STATE_WIDTH;
    let cycle = 16;
    let cols = p62_m4_c3_s128::get_round_constants_periodic(cycle, 1);
    assert_eq!(cols.len(), 2 * n);
    for j in 0..2 * n {
        assert_eq!(cols[j].len(), cycle);
        for t in 0..cycle {
            let expected = if t >= 1 && t <= p62_m4_c3_s128::NUM_ROUNDS {
                p62_m4_c3_s128::ROUND_CONSTANTS[(t - 1) * 2 * n + j]
            } else {
                0
            };
            assert_eq!(cols[j][t].as_int(), expected);
        }
    }
}

#[test]
fn p62_m4_c3_s128_padded_hash() {
    let input: Vec<p62_m4_c3_s128::Elem> = elems(&[5, 6, 7]);
    let digest = p62_m4_c3_s128::rescue_prime_wrapper(&input);
    assert_eq!(ints(&digest), vec![93851457376016651]);
}

fn p62_m4_c3_s128_round_setup(round: usize) -> (Vec<p62_m4_c3_s128::Elem>, Vec<p62_m4_c3_s128::Elem>, Vec<p62_m4_c3_s128::Elem>) {
    let n = p62_m4_c3_s128::STATE_WIDTH;
    let t = round % p62_m4_c3_s128::NUM_ROUNDS;
    let raw: Vec<u128> = (0..n as u128).map(|i| 5 * i + 11).collect();
    let current: Vec<p62_m4_c3_s128::Elem> = elems(&raw);
    let mut next = current.clone();
    p62_m4_c3_s128::apply_round(&mut next, round);
    let rc: Vec<p62_m4_c3_s128::Elem> = elems(&p62_m4_c3_s128::ROUND_CONSTANTS[t * 2 * n..(t + 1) * 2 * n]);
    (current, next, rc)
}

#[test]
fn p62_m4_c3_s128_constraints_vanish_on_round() {
    let n = p62_m4_c3_s128::STATE_WIDTH;
    for round in [0, 1, p62_m4_c3_s128::NUM_ROUNDS - 1] {
        let (current, next, rc) = p62_m4_c3_s128_round_setup(round);
        let mut result = vec![p62_m4_c3_s128::Elem::zero(); n];
        p62_m4_c3_s128::enforce_round(&mut result, &current, &next, &rc, p62_m4_c3_s128::Elem::one());
        assert!(result.iter().all(|e| e.as_int() == 0));
    }
}

#[test]
fn p62_m4_c3_s128_first_round_constraints_vanish() {
    let n = p62_m4_c3_s128::STATE_WIDTH;
    let (current, _, rc) = p62_m4_c3_s128_round_setup(0);
    let pixels: Vec<p62_m4_c3_s128::Elem> = elems(&vec![9u128; p62_m4_c3_s128::RATE]);
    let mut absorbed = current.clone();
    for i in 0..p62_m4_c3_s128::RATE {
        absorbed[i] = absorbed[i].add(pixels[i]);
    }
    let mut next = absorbed.clone();
    p62_m4_c3_s128::apply_round(&mut next, 0);
    let mut result = vec![p62_m4_c3_s128::Elem::zero(); n];
    p62_m4_c3_s128::enforce_first_round(&mut result, &pixels, &current, &next, &rc, p62_m4_c3_s128::Elem::one());
    assert!(result.iter().all(|e| e.as_int() == 0));
}

#[test]
fn p62_m4_c3_s128_mutated_next_state_detected() {
    let n = p62_m4_c3_s128::STATE_WIDTH;
    for lane in 0..n {
        let (current, mut next, rc) = p62_m4_c3_s128_round_setup(2);
        next[lane] = next[lane].add(p62_m4_c3_s128::Elem::one());
        let mut result = vec![p62_m4_c3_s128::Elem::zero(); n];
        p62_m4_c3_s128::enforce_round(&mut result, &current, &next, &rc, p62_m4_c3_s128::Elem::one());
        assert!(result.iter().any(|e| e.as_int() != 0));
        let mut gated = vec![p62_m4_c3_s128::Elem::zero(); n];
        p62_m4_c3_s128::enforce_round(&mut gated, &current, &next, &rc, p62_m4_c3_s128::Elem::zero());
        assert!(gated.iter().all(|e| e.as_int() == 0));
    }
}

#[test]
fn p62_m9_c1_s128_hash_of_zeros() {
    let input: Vec<p62_m9_c1_s128::Elem> = elems(&vec![0u128; 2 * p62_m9_c1_s128::RATE]);
    let digest = p62_m9_c1_s128::hash(&input);
    assert_eq!(ints(&digest), vec![4015653051231239269, 2513536427981442853, 2862656940683590033, 2689064352220897231, 3977672914178329301, 3177353975321769597, 2108769564098464267, 3566691660967810079]);
}

#[test]
fn p62_m9_c1_s128_hash_of_sequence() {
    let raw: Vec<u128> = (1..=(2 * p62_m9_c1_s128::RATE) as u128).collect();
    let input: Vec<p62_m9_c1_s128::Elem> = elems(&raw);
    let digest = p62_m9_c1_s128::rescue_prime_hash(&input);
    assert_eq!(ints(&digest), vec![4139630075881454196, 3677250457832063781, 1250113712419879697, 2346627729742288559, 780008022648459276, 2979124636082216082, 3170410321583536089, 94581361148954351]);
}

#[test]
fn p62_m9_c1_s128_permutation_vector() {
    let raw: Vec<u128> = (0..p62_m9_c1_s128::STATE_WIDTH as u128).collect();
    let v: Vec<p62_m9_c1_s128::Elem> = elems(&raw);
    let mut state = [p62_m9_c1_s128::Elem::zero(); p62_m9_c1_s128::STATE_WIDTH];
    state.copy_from_slice(&v);
    p62_m9_c1_s128::rescue_xlix_permutation(&mut state);
    assert_eq!(ints(&state), vec![4537156987188347233, 4504402818581140342, 4066840573706852376, 1361858904492079088, 1145776571322278840, 20635488097942246, 4549543578604106522, 1297166278361131981, 518878701809183900]);
}

#[test]
fn p62_m9_c1_s128_single_round_vector() {
    let raw: Vec<u128> = (0..p62_m9_c1_s128::STATE_WIDTH as u128).collect();
    let mut state: Vec<p62_m9_c1_s128::Elem> = elems(&raw);
    p62_m9_c1_s128::apply_round(&mut state, 3 + p62_m9_c1_s128::NUM_ROUNDS);
    assert_eq!(ints(&state), vec![4267022719823062379, 607315283160044807, 1185403797925456307, 2275241883240979470, 4204887180413102375, 1787478842553178661, 2080352194617577082, 2217256142650646766, 4097516212713896357]);
}

#[test]
fn p62_m9_c1_s128_hash_by_rounds() {
    let n = p62_m9_c1_s128::STATE_WIDTH;
    let raw: Vec<u128> = (10..(10 + 3 * p62_m9_c1_s128::RATE) as u128).collect();
    let input: Vec<p62_m9_c1_s128::Elem> = elems(&raw);
    let mut state: Vec<p62_m9_c1_s128::Elem> = vec![p62_m9_c1_s128::Elem::zero(); n];
    for chunk in input.chunks(p62_m9_c1_s128::RATE) {
        for i in 0..p62_m9_c1_s128::RATE {
            state[i] = state[i].add(chunk[i]);
        }
        let mut whole = [p62_m9_c1_s128::Elem::zero(); p62_m9_c1_s128::STATE_WIDTH];
        whole.copy_from_slice(&state);
        for r in 0..p62_m9_c1_s128::NUM_ROUNDS {
            p62_m9_c1_s128::apply_round(&mut state, r);
        }
        p62_m9_c1_s128::rescue_xlix_permutation(&mut whole);
        assert_eq!(ints(&whole), ints(&state));
    }
    let digest = p62_m9_c1_s128::hash(&input);
    assert_eq!(ints(&digest), ints(&state[..p62_m9_c1_s128::RATE]));
}

#[test]
fn p62_m9_c1_s128_matrices_invert() {
    let n = p62_m9_c1_s128::STATE_WIDTH;
    let samples: Vec<Vec<u128>> = vec![vec![0; n], vec![1; n], (0..n as u128).map(|i| 7 * i + 3).collect()];
    for raw in samples {
        let start: Vec<p62_m9_c1_s128::Elem> = elems(&raw);
        let mut v = start.clone();
        matrix_mul(&p62_m9_c1_s128::INV_MDS, n, &mut v);
        matrix_mul(&p62_m9_c1_s128::MDS, n, &mut v);
        assert_eq!(ints(&v), ints(&start));
        let mut w = start.clone();
        matrix_mul(&p62_m9_c1_s128::MDS, n, &mut w);
        if raw.windows(2).any(|p| p[0] != p[1]) {
            assert_ne!(ints(&w), ints(&start));
        }
        matrix_mul(&p62_m9_c1_s128::INV_MDS, n, &mut w);
        assert_eq!(ints(&w), ints(&start));
    }
}

#[test]
fn p62_m9_c1_s128_exponents_invert() {
    let fwd = p62_m9_c1_s128::ALPHA;
    let inv = p62_m9_c1_s128::INV_ALPHA;
    for x in [1u128, 2, 3, 12345, 987654321, 1 << 40] {
        let e = p62_m9_c1_s128::Elem::from_u128(x);
        assert_eq!(e.exp(fwd).exp(inv).as_int(), x);
        assert_eq!(e.exp(inv).exp(fwd).as_int(), x);
    }
    let minus_one = p62_m9_c1_s128::Elem::zero().sub(p62_m9_c1_s128::Elem::one());
    assert_eq!(minus_one.exp(fwd).exp(inv), minus_one);
}

#[test]
fn p62_m9_c1_s128_single_change_alters_digest() {
    let raw: Vec<u128> = (1..=(2 * p62_m9_c1_s128::RATE) as u128).collect();
    let input: Vec<p62_m9_c1_s128::Elem> = elems(&raw);
    let digest = p62_m9_c1_s128::hash(&input);
    assert_eq!(ints(&p62_m9_c1_s128::hash(&input)), ints(&digest));
    for k in 0..input.len() {
        let mut changed = input.clone();
        changed[k] = changed[k].add(p62_m9_c1_s128::Elem::one());
        assert_ne!(ints(&p62_m9_c1_s128::hash(&changed)), ints(&digest));
    }
}

#[test]
fn p62_m9_c1_s128_periodic_round_constants() {
    let n = p62_m9_c1_s128::STATE_WIDTH;
    let cycle = 16;
    let cols = p62_m9_c1_s128::get_round_constants_periodic(cycle, 1);
    assert_eq!(cols.len(), 2 * n);
    for j in 0..2 * n {
        assert_eq!(cols[j].len(), cycle);
        for t in 0..cycle {
            let expected = if t >= 1 && t <= p62_m9_c1_s128::NUM_ROUNDS {
                p62_m9_c1_s128::ROUND_CONSTANTS[(t - 1) * 2 * n + j]
            } else {
                0
            };
            assert_eq!(cols[j][t].as_int(), expected);
        }
    }
}

#[test]
fn p62_m9_c1_s128_padded_hash() {
    let input: Vec<p62_m9_c1_s128::Elem> = elems(&[5, 6, 7]);
    let digest = p62_m9_c1_s128::rescue_prime_wrapper(&input);
    assert_eq!(ints(&digest), vec![1510251853331111967, 832779665287623853, 2929319589963381591, 726508207209522994, 1057642423356251122, 4153260604846641596, 3907211619460764238, 2302684747078600759]);
}

fn p62_m9_c1_s128_round_setup(round: usize) -> (Vec<p62_m9_c1_s128::Elem>, Vec<p62_m9_c1_s128::Elem>, Vec<p62_m9_c1_s128::Elem>) {
    let n = p62_m9_c1_s128::STATE_WIDTH;
    let t = round % p62_m9_c1_s128::NUM_ROUNDS;
    let raw: Vec<u128> = (0..n as u128).map(|i| 5 * i + 11).collect();
    let current: Vec<p62_m9_c1_s128::Elem> = elems(&raw);
    let mut next = current.clone();
    p62_m9_c1_s128::apply_round(&mut next, round);
    let rc: Vec<p62_m9_c1_s128::Elem> = elems(&p62_m9_c1_s128::ROUND_CONSTANTS[t * 2 * n..(t + 1) * 2 * n]);
    (current, next, rc)
}

#[test]
fn p62_m9_c1_s128_constraints_vanish_on_round() {
    let n = p62_m9_c1_s128::STATE_WIDTH;
    for round in [0, 1, p62_m9_c1_s128::NUM_ROUNDS - 1] {
        let (current, next, rc) = p62_m9_c1_s128_round_setup(round);
        let mut result = vec![p62_m9_c1_s128::Elem::zero(); n];
        p62_m9_c1_s128::enforce_round(&mut result, &current, &next, &rc, p62_m9_c1_s128::Elem::one());
        assert!(result.iter().all(|e| e.as_int() == 0));
    }
}

#[test]
fn p62_m9_c1_s128_first_round_constraints_vanish() {
    let n = p62_m9_c1_s128::STATE_WIDTH;
    let (current, _, rc) = p62_m9_c1_s128_round_setup(0);
    let pixels: Vec<p62_m9_c1_s128::Elem> = elems(&vec![9u128; p62_m9_c1_s128::RATE]);
    let mut absorbed = current.clone();
    for i in 0..p62_m9_c1_s128::RATE {
        absorbed[i] = absorbed[i].add(pixels[i]);
    }
    let mut next = absorbed.clone();
    p62_m9_c1_s128::apply_round(&mut next, 0);
    let mut result = vec![p62_m9_c1_s128::Elem::zero(); n];
    p62_m9_c1_s128::enforce_first_round(&mut result, &pixels, &current, &next, &rc, p62_m9_c1_s128::Elem::one());
    assert!(result.iter().all(|e| e.as_int() == 0));
}

#[test]
fn p62_m9_c1_s128_mutated_next_state_detected() {
    let n = p62_m9_c1_s128::STATE_WIDTH;
    for lane in 0..n {
        let (current, mut next, rc) = p62_m9_c1_s128_round_setup(2);
        next[lane] = next[lane].add(p62_m9_c1_s128::Elem::one());
        let mut result = vec![p62_m9_c1_s128::Elem::zero(); n];
        p62_m9_c1_s128::enforce_round(&mut result, &current, &next, &rc, p62_m9_c1_s128::Elem::one());
        assert!(result.iter().any(|e| e.as_int() != 0));
        let mut gated = vec![p62_m9_c1_s128::Elem::zero(); n];
        p62_m9_c1_s128::enforce_round(&mut gated, &current, &next, &rc, p62_m9_c1_s128::Elem::zero());
        assert!(gated.iter().all(|e| e.as_int() == 0));
    }
}

#[test]
fn p64_m9_c1_s128_hash_of_zeros() {
    let input: Vec<p64_m9_c1_s128::Elem> = elems(&vec![0u128; 2 * p64_m9_c1_s128::RATE]);
    let digest = p64_m9_c1_s128::hash(&input);
    assert_eq!(ints(&digest), vec![5287826399198834393, 9491732410724604315, 13156397901563682096, 16780071338687347929, 4229765428778519298, 5461831291409876697, 17095608241804977483, 9648820789760055402]);
}

#[test]
fn p64_m9_c1_s128_hash_of_sequence() {
    let raw: Vec<u128> = (1..=(2 * p64_m9_c1_s128::RATE) as u128).collect();
    let input: Vec<p64_m9_c1_s128::Elem> = elems(&raw);
    let digest = p64_m9_c1_s128::rescue_prime_hash(&input);
    assert_eq!(ints(&digest), vec![4181979778560035809, 679830638938006337, 15248640283663567508, 8987259634355323294, 15201346245923591756, 5526174162932219535, 6477988751850834909, 17008470482302509057]);
}

#[test]
fn p64_m9_c1_s128_permutation_vector() {
    let raw: Vec<u128> = (0..p64_m9_c1_s128::STATE_WIDTH as u128).collect();
    let v: Vec<p64_m9_c1_s128::Elem> = elems(&raw);
    let mut state = [p64_m9_c1_s128::Elem::zero(); p64_m9_c1_s128::STATE_WIDTH];
    state.copy_from_slice(&v);
    p64_m9_c1_s128::rescue_xlix_permutation(&mut state);
    assert_eq!(ints(&state), vec![10747301632592297947, 12649070442181954879, 16459543771299038668, 700242336960651516, 7060249974419851747, 16446816352599505176, 3585935244512831761, 6774815139578463678, 10291465834207937962]);
}

#[test]
fn p64_m9_c1_s128_single_round_vector() {
    let raw: Vec<u128> = (0..p64_m9_c1_s128::STATE_WIDTH as u128).collect();
    let mut state: Vec<p64_m9_c1_s128::Elem> = elems(&raw);
    p64_m9_c1_s128::apply_round(&mut state, 3 + p64_m9_c1_s128::NUM_ROUNDS);
    assert_eq!(ints(&state), vec![3744807127903192847, 3983907855926940145, 8492976888329769795, 2201968395926977452, 2801536404922210276, 14964947765762707530, 6188552314259133077, 14428023475728044689, 9760872989800746492]);
}

#[test]
fn p64_m9_c1_s128_hash_by_rounds() {
    let n = p64_m9_c1_s128::STATE_WIDTH;
    let raw: Vec<u128> = (10..(10 + 3 * p64_m9_c1_s128::RATE) as u128).collect();
    let input: Vec<p64_m9_c1_s128::Elem> = elems(&raw);
    let mut state: Vec<p64_m9_c1_s128::Elem> = vec![p64_m9_c1_s128::Elem::zero(); n];
    for chunk in input.chunks(p64_m9_c1_s128::RATE) {
        for i in 0..p64_m9_c1_s128::RATE {
            state[i] = state[i].add(chunk[i]);
        }
        let mut whole = [p64_m9_c1_s128::Elem::zero(); p64_m9_c1_s128::STATE_WIDTH];
        whole.copy_from_slice(&state);
        for r in 0..p64_m9_c1_s128::NUM_ROUNDS {
            p64_m9_c1_s128::apply_round(&mut state, r);
        }
        p64_m9_c1_s128::rescue_xlix_permutation(&mut whole);
        assert_eq!(ints(&whole), ints(&state));
    }
    let digest = p64_m9_c1_s128::hash(&input);
    assert_eq!(ints(&digest), ints(&state[..p64_m9_c1_s128::RATE]));
}

#[test]
fn p64_m9_c1_s128_matrices_invert() {
    let n = p64_m9_c1_s128::STATE_WIDTH;
    let samples: Vec<Vec<u128>> = vec![vec![0; n], vec![1; n], (0..n as u128).map(|i| 7 * i + 3).collect()];
    for raw in samples {
        let start: Vec<p64_m9_c1_s128::Elem> = elems(&raw);
        let mut v = start.clone();
        matrix_mul(&p64_m9_c1_s128::INV_MDS, n, &mut v);
        matrix_mul(&p64_m9_c1_s128::MDS, n, &mut v);
        assert_eq!(ints(&v), ints(&start));
        let mut w = start.clone();
        matrix_mul(&p64_m9_c1_s128::MDS, n, &mut w);
        if raw.windows(2).any(|p| p[0] != p[1]) {
            assert_ne!(ints(&w), ints(&start));
        }
        matrix_mul(&p64_m9_c1_s128::INV_MDS, n, &mut w);
        assert_eq!(ints(&w), ints(&start));
    }
}

#[test]
fn p64_m9_c1_s128_exponents_invert() {
    let fwd = p64_m9_c1_s128::ALPHA;
    let inv = p64_m9_c1_s128::INV_ALPHA;
    for x in [1u128, 2, 3, 12345, 987654321, 1 << 40] {
        let e = p64_m9_c1_s128::Elem::from_u128(x);
        assert_eq!(e.exp(fwd).exp(inv).as_int(), x);
        assert_eq!(e.exp(inv).exp(fwd).as_int(), x);
    }
    let minus_one = p64_m9_c1_s128::Elem::zero().sub(p64_m9_c1_s128::Elem::one());
    assert_eq!(minus_one.exp(fwd).exp(inv), minus_one);
}

#[test]
fn p64_m9_c1_s128_single_change_alters_digest() {
    let raw: Vec<u128> = (1..=(2 * p64_m9_c1_s128::RATE) as u128).collect();
    let input: Vec<p64_m9_c1_s128::Elem> = elems(&raw);
    let digest = p64_m9_c1_s128::hash(&input);
    assert_eq!(ints(&p64_m9_c1_s128::hash(&input)), ints(&digest));
    for k in 0..input.len() {
        let mut changed = input.clone();
        changed[k] = changed[k].add(p64_m9_c1_s128::Elem::one());
        assert_ne!(ints(&p64_m9_c1_s128::hash(&changed)), ints(&digest));
    }
}

#[test]
fn p64_m9_c1_s128_periodic_round_constants() {
    let n = p64_m9_c1_s128::STATE_WIDTH;
    let cycle = 16;
    let cols = p64_m9_c1_s128::get_round_constants_periodic(cycle, 1);
    assert_eq!(cols.len(), 2 * n);
    for j in 0..2 * n {
        assert_eq!(cols[j].len(), cycle);
        for t in 0..cycle {
            let expected = if t >= 1 && t <= p64_m9_c1_s128::NUM_ROUNDS {
                p64_m9_c1_s128::ROUND_CONSTANTS[(t - 1) * 2 * n + j]
            } else {
                0
            };
            assert_eq!(cols[j][t].as_int(), expected);
        }
    }
}

#[test]
fn p64_m9_c1_s128_padded_hash() {
    let input: Vec<p64_m9_c1_s128::Elem> = elems(&[5, 6, 7]);
    let digest = p64_m9_c1_s128::rescue_prime_wrapper(&input);
    assert_eq!(ints(&digest), vec![12512444491657996181, 17419526461048380398, 18018527263022235258, 16289741490509398259, 15986594893761436947, 14660763663477844428, 114920749390104170, 13950151174934961765]);
}

fn p64_m9_c1_s128_round_setup(round: usize) -> (Vec<p64_m9_c1_s128::Elem>, Vec<p64_m9_c1_s128::Elem>, Vec<p64_m9_c1_s128::Elem>) {
    let n = p64_m9_c1_s128::STATE_WIDTH;
    let t = round % p64_m9_c1_s128::NUM_ROUNDS;
    let raw: Vec<u128> = (0..n as u128).map(|i| 5 * i + 11).collect();
    let current: Vec<p64_m9_c1_s128::Elem> = elems(&raw);
    let mut next = current.clone();
    p64_m9_c1_s128::apply_round(&mut next, round);
    let rc: Vec<p64_m9_c1_s128::Elem> = elems(&p64_m9_c1_s128::ROUND_CONSTANTS[t * 2 * n..(t + 1) * 2 * n]);
    (current, next, rc)
}

#[test]
fn p64_m9_c1_s128_constraints_vanish_on_round() {
    let n = p64_m9_c1_s128::STATE_WIDTH;
    for round in [0, 1, p64_m9_c1_s128::NUM_ROUNDS - 1] {
        let (current, next, rc) = p64_m9_c1_s128_round_setup(round);
        let mut result = vec![p64_m9_c1_s128::Elem::zero(); n];
        p64_m9_c1_s128::enforce_round(&mut result, &current, &next, &rc, p64_m9_c1_s128::Elem::one());
        assert!(result.iter().all(|e| e.as_int() == 0));
    }
}

#[test]
fn p64_m9_c1_s128_first_round_constraints_vanish() {
    let n = p64_m9_c1_s128::STATE_WIDTH;
    let (current, _, rc) = p64_m9_c1_s128_round_setup(0);
    let pixels: Vec<p64_m9_c1_s128::Elem> = elems(&vec![9u128; p64_m9_c1_s128::RATE]);
    let mut absorbed = current.clone();
    for i in 0..p64_m9_c1_s128::RATE {
        absorbed[i] = absorbed[i].add(pixels[i]);
    }
    let mut next = absorbed.clone();
    p64_m9_c1_s128::apply_round(&mut next, 0);
    let mut result = vec![p64_m9_c1_s128::Elem::zero(); n];
    p64_m9_c1_s128::enforce_first_round(&mut result, &pixels, &current, &next, &rc, p64_m9_c1_s128::Elem::one());
    assert!(result.iter().all(|e| e.as_int() == 0));
}

#[test]
fn p64_m9_c1_s128_mutated_next_state_detected() {
    let n = p64_m9_c1_s128::STATE_WIDTH;
    for lane in 0..n {
        let (current, mut next, rc) = p64_m9_c1_s128_round_setup(2);
        next[lane] = next[lane].add(p64_m9_c1_s128::Elem::one());
        let mut result = vec![p64_m9_c1_s128::Elem::zero(); n];
        p64_m9_c1_s128::enforce_round(&mut result, &current, &next, &rc, p64_m9_c1_s128::Elem::one());
        assert!(result.iter().any(|e| e.as_int() != 0));
        let mut gated = vec![p64_m9_c1_s128::Elem::zero(); n];
        p64_m9_c1_s128::enforce_round(&mut gated, &current, &next, &rc, p64_m9_c1_s128::Elem::zero());
        assert!(gated.iter().all(|e| e.as_int() == 0));
    }
}

use pcg64s::Rand;

// Compare values with the ones generated by the reference implementation.
#[test]
fn test_random() {
    let mut rng = Rand::new(1234);
    let mut vv = [0u64; 10];
    for v in vv.iter_mut() {
        *v = rng.random();
    }
    assert_eq!(
        vv,
        [
            9264802780032662508,
            4543764045635414863,
            2780558434653625935,
            17582746484101160380,
            12507048989320892151,
            16781239697739265712,
            5716587679137363963,
            4409406126455307673,
            14595074001431580880,
            217083827602160384,
        ]
    );

    rng.seed(4321);
    for v in vv.iter_mut() {
        *v = rng.random();
    }
    assert_eq!(
        vv,
        [
            17555971032251967940,
            4035364595360051946,
            16632746456647882899,
            14270216637996151530,
            15130667115467907616,
            1293515201678807029,
            115934655796610739,
            4010009379713060202,
            8871556732344088523,
            5342686612107944297,
        ]
    );
}

// Two independently constructed generators with the same seed yield the
// same sequence, draw for draw.
#[test]
fn determinism_same_seed() {
    let mut a = Rand::new(99);
    let mut b = Rand::new(99);
    for _ in 0..64 {
        assert_eq!(a.random(), b.random());
    }
}

// The zero seed is as legal as any other and gives a reproducible stream.
#[test]
fn zero_seed_is_legal() {
    let mut a = Rand::new(0);
    let mut b = Rand::new(0);
    for _ in 0..16 {
        assert_eq!(a.random(), b.random());
    }
}

// Reseeding an already-used generator puts it exactly where a fresh
// generator with that seed starts: nothing of the old stream carries over.
#[test]
fn reseed_matches_fresh() {
    let mut used = Rand::new(7);
    for _ in 0..5 {
        used.random();
    }
    used.seed(888);
    let mut fresh = Rand::new(888);
    for _ in 0..32 {
        assert_eq!(used.random(), fresh.random());
    }
}

// After a reseed with 1234, the known first value of that seed's stream
// comes out, regardless of what the generator did before.
#[test]
fn reseed_reproduces_known_stream() {
    let mut rng = Rand::new(555);
    rng.random();
    rng.random();
    rng.random();
    rng.seed(1234);
    assert_eq!(rng.random(), 9264802780032662508);
}

// Distinct seeds give distinct first outputs for the reference seeds.
#[test]
fn different_seeds_differ() {
    let mut a = Rand::new(1234);
    let mut b = Rand::new(4321);
    assert_ne!(a.random(), b.random());
}

// The largest representable seed wraps silently and reproducibly.
#[test]
fn max_seed_wraparound() {
    let mut a = Rand::new(u128::MAX);
    let mut b = Rand::new(u128::MAX);
    for _ in 0..32 {
        assert_eq!(a.random(), b.random());
    }
    let mut reseeded = Rand::new(0);
    reseeded.seed(u128::MAX);
    let mut fresh = Rand::new(u128::MAX);
    for _ in 0..32 {
        assert_eq!(reseeded.random(), fresh.random());
    }
}

// A captured state restores the stream exactly where it was captured.
#[test]
fn state_round_trip() {
    let mut original = Rand::new(1234);
    original.random();
    original.random();
    original.random();
    let snapshot: u128 = original.state();
    let mut resumed = Rand::new(0);
    resumed.set_state(snapshot);
    for _ in 0..10 {
        assert_eq!(original.random(), resumed.random());
    }
}

use pointgen::ComplementaryMultiplyWithCarryGen;
use pointgen::{CMWC_CYCLE, DEFAULT_SEED, UNIFORM_DIVISOR};

const SEED_ZERO_STREAM: [u32; 10] = [
    4294604858, 367747001, 735501178, 4294962861, 735512785, 3666536092, 3666528614, 4294955383,
    367747001, 735501178,
];

#[test]
fn i_didnt_change_anything() {
    let mut rng = ComplementaryMultiplyWithCarryGen::new(0);
    let n: Vec<_> = (0..10).map(|_| rng.random()).collect();
    assert_eq!(n, [4294604858, 367747001, 735501178, 4294962861, 735512785, 3666536092, 3666528614, 4294955383, 367747001, 735501178]);
}

#[test]
fn default_seed_gives_the_same_stream() {
    assert_eq!(DEFAULT_SEED, 0);
    let mut rng = ComplementaryMultiplyWithCarryGen::new(DEFAULT_SEED);
    let n: Vec<u32> = (0..10).map(|_| rng.random()).collect();
    assert_eq!(n, SEED_ZERO_STREAM);
}

#[test]
fn reset_restarts_the_stream_after_any_draws() {
    for (seed, drawn) in [(0u32, 0usize), (0, 3), (12345, 1000), (u32::MAX, 4096), (7, 10000)] {
        let mut rng = ComplementaryMultiplyWithCarryGen::new(seed);
        for _ in 0..drawn {
            rng.random();
        }
        rng.reset(0);
        let n: Vec<u32> = (0..10).map(|_| rng.random()).collect();
        assert_eq!(n, SEED_ZERO_STREAM, "seed {seed}, {drawn} draws before the reset");
    }
}

#[test]
fn reset_twice_is_reset_once() {
    let mut once = ComplementaryMultiplyWithCarryGen::new(99);
    let mut twice = ComplementaryMultiplyWithCarryGen::new(77);
    twice.random();
    once.reset(0);
    twice.reset(0);
    twice.reset(0);
    assert_eq!(once.table()[..], twice.table()[..]);
    assert_eq!(once.carry(), twice.carry());
    assert_eq!(once.cursor(), twice.cursor());
    for _ in 0..10 {
        assert_eq!(once.random(), twice.random());
    }
}

#[test]
fn reset_gives_the_state_of_a_new_generator() {
    let mut used = ComplementaryMultiplyWithCarryGen::new(1);
    for _ in 0..5000 {
        used.random();
    }
    used.reset(0x12345678);
    let fresh = ComplementaryMultiplyWithCarryGen::new(0x12345678);
    assert_eq!(used.table()[..], fresh.table()[..]);
    assert_eq!(used.carry(), fresh.carry());
    assert_eq!(used.cursor(), fresh.cursor());
}

#[test]
fn equal_seeds_give_equal_streams() {
    for seed in [0u32, 1, 42, 0x9e3779b9, u32::MAX] {
        let mut first = ComplementaryMultiplyWithCarryGen::new(seed);
        let mut second = ComplementaryMultiplyWithCarryGen::new(seed);
        for _ in 0..9000 {
            assert_eq!(first.random(), second.random());
        }
        assert_eq!(first.table()[..], second.table()[..]);
        assert_eq!(first.carry(), second.carry());
        assert_eq!(first.cursor(), second.cursor());
    }
}

#[test]
fn different_seeds_give_different_streams() {
    let mut first = ComplementaryMultiplyWithCarryGen::new(0);
    let mut second = ComplementaryMultiplyWithCarryGen::new(1);
    let a: Vec<u32> = (0..5).map(|_| first.random()).collect();
    let b: Vec<u32> = (0..5).map(|_| second.random()).collect();
    assert_eq!(b, [4294586076, 367728219, 735482396, 4294906515, 735531567]);
    assert_ne!(a, b);
}

#[test]
fn every_seed_is_accepted() {
    for seed in [0u32, 1, 2, 0x7fff_ffff, 0x8000_0000, 0xffff_fffe, u32::MAX] {
        let mut rng = ComplementaryMultiplyWithCarryGen::new(seed);
        assert_eq!(rng.table()[0], seed);
        rng.random();
        rng.reset(seed);
        assert_eq!(rng.table()[0], seed);
    }
}

#[test]
fn known_streams_of_other_seeds() {
    let mut rng = ComplementaryMultiplyWithCarryGen::new(u32::MAX);
    let n: Vec<u32> = (0..5).map(|_| rng.random()).collect();
    assert_eq!(n, [4294604858, 367747001, 735519960, 4294944079, 3559416944]);
    assert_eq!(rng.carry(), 14348);

    let mut rng = ComplementaryMultiplyWithCarryGen::new(0x12345678);
    let n: Vec<u32> = (0..5).map(|_| rng.random()).collect();
    assert_eq!(n, [1679457011, 2047565114, 2415319290, 2376193084, 3259337283]);
    assert_eq!(rng.carry(), 8422);
    assert_eq!(rng.cursor(), 4);
}

#[test]
fn long_stream_goes_around_the_table() {
    let mut rng = ComplementaryMultiplyWithCarryGen::new(0);
    let n: Vec<u32> = (0..4099).map(|_| rng.random()).collect();
    assert_eq!(n[4095], 4294955383);
    assert_eq!(n[4096], 2512324438);
    assert_eq!(n[4097], 3578186092);
    assert_eq!(n[4098], 2726661210);
    assert_eq!(rng.cursor(), 2);
    assert_eq!(rng.carry(), 3216);

    let mut rng = ComplementaryMultiplyWithCarryGen::new(42);
    let n: Vec<u32> = (0..10000).map(|_| rng.random()).collect();
    assert_eq!(n[0], 4293816014);
    assert_eq!(n[1], 366958157);
    assert_eq!(n[4095], 4294166539);
    assert_eq!(n[4096], 148523266);
    assert_eq!(n[9999], 1993689317);
    assert_eq!(rng.cursor(), 1807);
    assert_eq!(rng.carry(), 5310);
}

#[test]
fn uniform_variates_lie_in_the_unit_interval() {
    let divisor = UNIFORM_DIVISOR as f64;
    for seed in [0u32, 1, 42, 102674899, 2043436662, u32::MAX] {
        let mut rng = ComplementaryMultiplyWithCarryGen::new(seed);
        for _ in 0..20000 {
            let v = (rng.random() as f64) / divisor;
            assert!(0.0 <= v && v <= 1.0);
        }
    }
}

#[test]
fn uniform_variates_reach_both_ends() {
    let divisor = UNIFORM_DIVISOR as f64;
    let mut rng = ComplementaryMultiplyWithCarryGen::new(102674899);
    assert_eq!((rng.random() as f64) / divisor, 0.0);
    let mut rng = ComplementaryMultiplyWithCarryGen::new(2043436662);
    assert_eq!((rng.random() as f64) / divisor, 1.0);
    let mut rng = ComplementaryMultiplyWithCarryGen::new(0);
    assert_eq!((rng.random() as f64) / divisor, 4294604858.0 / 4294967295.0);
}

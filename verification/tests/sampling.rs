use rust_raytracer::bvh_plan::{split_plan, SplitPlan};
use rust_raytracer::rng::{unit_mantissa, Xorshift64, FALLBACK_SEED};

#[test]
fn split_plan_cases() {
    assert_eq!(split_plan(1), SplitPlan::Single);
    assert_eq!(split_plan(2), SplitPlan::Pair);
    assert_eq!(split_plan(3), SplitPlan::Halves { mid: 1 });
    assert_eq!(split_plan(10), SplitPlan::Halves { mid: 5 });
    assert_eq!(split_plan(11), SplitPlan::Halves { mid: 5 });
}

fn depth(n: usize) -> u32 {
    match split_plan(n) {
        SplitPlan::Single | SplitPlan::Pair => 1,
        SplitPlan::Halves { mid } => 1 + depth(mid).max(depth(n - mid)),
    }
}

#[test]
fn split_plan_depth_is_logarithmic() {
    assert_eq!(depth(2), 1);
    assert_eq!(depth(3), 2);
    assert_eq!(depth(4), 2);
    assert_eq!(depth(5), 3);
    assert_eq!(depth(485), 9);
    for n in 2..2000usize {
        let d = depth(n);
        assert!((1usize << (d - 1)) < n && n <= (1usize << d));
    }
}

#[test]
fn xorshift_step_from_one() {
    let mut g = Xorshift64::from_clock(1);
    assert_eq!(g.next_u64(), 1082269761);
    assert_eq!(g.next_u64(), 1152992998833853505);
}

#[test]
fn zero_clock_uses_fallback_seed() {
    let mut g = Xorshift64::from_clock(0);
    let mut h = Xorshift64::from_clock(FALLBACK_SEED);
    let a = g.next_u64();
    assert_eq!(a, 15860402102123842989);
    assert_eq!(a, h.next_u64());
}

#[test]
fn xorshift_never_reaches_zero() {
    let mut g = Xorshift64::from_clock(12345);
    for _ in 0..100_000 {
        assert_ne!(g.next_u64(), 0);
    }
}

#[test]
fn unit_mantissa_keeps_top_bits() {
    assert_eq!(unit_mantissa(u64::MAX), (1u64 << 53) - 1);
    assert_eq!(unit_mantissa(0), 0);
    assert_eq!(unit_mantissa(1 << 11), 1);
}

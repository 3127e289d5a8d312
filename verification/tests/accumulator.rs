use score_flags::flags::Flags;
use score_flags::level::Level;

const ALL: [Level; 6] = [
    Level::Tiny,
    Level::Small,
    Level::Medium,
    Level::Large,
    Level::Extreme,
    Level::EndAll,
];

#[test]
fn level_values_are_fixed() {
    assert_eq!(Level::Tiny.value(), 1);
    assert_eq!(Level::Small.value(), 3);
    assert_eq!(Level::Medium.value(), 10);
    assert_eq!(Level::Large.value(), 20);
    assert_eq!(Level::Extreme.value(), 50);
    assert_eq!(Level::EndAll.value(), 5000);
}

#[test]
fn new_accumulator_is_empty() {
    let flags = Flags::new();
    assert!(flags.penalties().is_empty());
    assert!(flags.bonuses().is_empty());
    assert_eq!(flags.score(), 0);
}

#[test]
fn score_is_bonuses_less_penalties() {
    let mut flags = Flags::new();
    flags.bonus(Level::Extreme);
    flags.bonus(Level::Small);
    flags.penalty(Level::Large);
    flags.penalty(Level::Tiny);
    assert_eq!(flags.score(), 50 + 3 - 20 - 1);
}

#[test]
fn logs_keep_insertion_order() {
    let mut flags = Flags::new();
    flags.penalty(Level::Large);
    flags.bonus(Level::Tiny);
    flags.penalty(Level::Small);
    flags.bonus(Level::EndAll);
    flags.penalty(Level::Large);
    assert_eq!(flags.penalties(), &[Level::Large, Level::Small, Level::Large]);
    assert_eq!(flags.bonuses(), &[Level::Tiny, Level::EndAll]);
}

#[test]
fn every_penalty_lowers_the_score_by_its_weight() {
    for level in ALL {
        let mut flags = Flags::new();
        flags.bonus(Level::Medium);
        let before = flags.score();
        flags.penalty(level);
        assert!(flags.score() < before);
        assert_eq!(flags.score(), before - level.value());
    }
}

#[test]
fn every_bonus_raises_the_score_by_its_weight() {
    for level in ALL {
        let mut flags = Flags::new();
        flags.penalty(Level::Medium);
        let before = flags.score();
        flags.bonus(level);
        assert!(flags.score() > before);
        assert_eq!(flags.score(), before + level.value());
    }
}

#[test]
fn tier_methods_record_their_tier() {
    let mut flags = Flags::new();
    flags.tiny_penalty();
    flags.small_penalty();
    flags.medium_penalty();
    flags.large_penalty();
    flags.extreme_penalty();
    flags.end_all_penalty();
    flags.tiny_bonus();
    flags.small_bonus();
    flags.medium_bonus();
    flags.large_bonus();
    flags.extreme_bonus();
    flags.end_all_bonus();
    assert_eq!(flags.penalties(), &ALL);
    assert_eq!(flags.bonuses(), &ALL);
    assert_eq!(flags.score(), 0);
}

#[test]
fn merge_drains_the_source() {
    let mut receiver = Flags::new();
    receiver.penalty(Level::Tiny);
    receiver.bonus(Level::Small);
    let mut source = Flags::new();
    source.penalty(Level::Large);
    source.penalty(Level::Medium);
    source.bonus(Level::Extreme);

    receiver.merge(&mut source);

    assert_eq!(receiver.penalties(), &[Level::Tiny, Level::Large, Level::Medium]);
    assert_eq!(receiver.bonuses(), &[Level::Small, Level::Extreme]);
    assert_eq!(receiver.score(), 3 + 50 - 1 - 20 - 10);
    assert!(source.penalties().is_empty());
    assert!(source.bonuses().is_empty());
    assert_eq!(source.score(), 0);
}

#[test]
fn merging_twice_adds_nothing_more() {
    let mut receiver = Flags::new();
    let mut source = Flags::new();
    source.penalty(Level::Large);
    receiver.merge(&mut source);
    receiver.merge(&mut source);
    assert_eq!(receiver.penalties(), &[Level::Large]);
    assert_eq!(receiver.score(), -20);
}

#[test]
fn merge_score_does_not_depend_on_the_receiver() {
    let mut a = Flags::new();
    a.penalty(Level::Large);
    a.bonus(Level::Tiny);
    let mut b = Flags::new();
    b.bonus(Level::Extreme);
    b.penalty(Level::Small);
    b.penalty(Level::EndAll);

    let mut a_receives = a.clone();
    a_receives.merge(&mut b.clone());
    let mut b_receives = b.clone();
    b_receives.merge(&mut a.clone());

    assert_eq!(a_receives.score(), b_receives.score());
    assert_eq!(a_receives.score(), a.score() + b.score());
    assert_eq!(a_receives.score(), 1 + 50 - 20 - 3 - 5000);
}

#[test]
fn merge_score_does_not_depend_on_the_grouping() {
    let mut a = Flags::new();
    a.penalty(Level::Medium);
    let mut b = Flags::new();
    b.bonus(Level::Large);
    let mut c = Flags::new();
    c.penalty(Level::Extreme);

    let mut left = a.clone();
    left.merge(&mut b.clone());
    left.merge(&mut c.clone());

    let mut tail = b.clone();
    tail.merge(&mut c.clone());
    let mut right = a.clone();
    right.merge(&mut tail);

    assert_eq!(left.score(), right.score());
    assert_eq!(left.score(), -40);
}

#[test]
fn two_producers_merged_into_an_empty_root() {
    let mut first = Flags::new();
    first.penalty(Level::Large);
    let mut second = Flags::new();
    second.bonus(Level::Medium);

    let mut root = Flags::new();
    root.merge(&mut first);
    root.merge(&mut second);

    assert_eq!(root.score(), -10);
    assert_eq!(root.penalties(), &[Level::Large]);
    assert_eq!(root.bonuses(), &[Level::Medium]);
}

#[test]
fn highest_tier_outweighs_ninety_nine_lesser_bonuses() {
    let mut flags = Flags::new();
    flags.penalty(Level::EndAll);
    for _ in 0..99 {
        flags.bonus(Level::Extreme);
    }
    assert_eq!(flags.score(), -50);
    assert!(flags.score() < 0);
}

#[test]
fn a_hundred_extreme_bonuses_balance_the_highest_tier() {
    let mut flags = Flags::new();
    flags.end_all_penalty();
    for _ in 0..100 {
        flags.extreme_bonus();
    }
    assert_eq!(flags.score(), 0);
}

#[test]
fn clone_is_independent() {
    let mut flags = Flags::new();
    flags.penalty(Level::Small);
    let copy = flags.clone();
    flags.penalty(Level::Large);
    assert_eq!(copy.penalties(), &[Level::Small]);
    assert_eq!(copy.score(), -3);
    assert_eq!(flags.score(), -23);
}

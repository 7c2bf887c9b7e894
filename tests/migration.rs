use nimbus::migration::{
    default_eligible_count, percent_of_num, EligibleRatioToEligiblityCount, Percent,
    DEFAULT_TOTAL_ELIGIBLE_AUTHORS,
};
use nimbus::num::NonZeroU32;

#[test]
fn test_percent_of_num_ceils_value() {
    let fifty_percent = Percent::from_percent(sp_runtime::Percent::from_float(0.5).deconstruct());

    let actual = percent_of_num(fifty_percent, 5);
    assert_eq!(3, actual);

    let actual = percent_of_num(fifty_percent, 20);
    assert_eq!(10, actual);
}

#[test]
fn test_migration_works_for_converting_existing_eligible_ratio_to_eligible_count() {
    let input_eligible_ratio = Percent::from_percent(50);
    let authors: Vec<u64> = vec![1, 2, 3, 4, 5];
    let total_author_count = authors.len();
    let eligible_author_count =
        sp_runtime::Percent::from_percent(50).mul_ceil(total_author_count) as u32;
    let expected_eligible_count = NonZeroU32::new(eligible_author_count);

    let actual_eligible_count = EligibleRatioToEligiblityCount::eligible_count(
        Some(input_eligible_ratio),
        total_author_count as u32,
    );
    assert_eq!(expected_eligible_count, Some(actual_eligible_count));
    assert_eq!(actual_eligible_count.get(), 3);
    assert_eq!(input_eligible_ratio.deconstruct(), 50);
}

#[test]
fn test_migration_skips_converting_missing_eligible_ratio_to_eligible_count_and_returns_default_value(
) {
    let expected_default_eligible_count = default_eligible_count();

    let actual_eligible_count = EligibleRatioToEligiblityCount::eligible_count(None, 5);
    assert_eq!(expected_default_eligible_count, actual_eligible_count);
    assert_eq!(actual_eligible_count.get(), DEFAULT_TOTAL_ELIGIBLE_AUTHORS);
}

#[test]
fn fifty_percent_of_twenty_authors_is_ten() {
    let count = EligibleRatioToEligiblityCount::eligible_count(Some(Percent::from_percent(50)), 20);
    assert_eq!(count.get(), 10);
}

#[test]
fn percent_of_num_rounds_up_and_keeps_exact_values() {
    assert_eq!(percent_of_num(Percent::from_percent(34), 10), 4);
    assert_eq!(percent_of_num(Percent::from_percent(1), 1), 1);
    assert_eq!(percent_of_num(Percent::from_percent(100), 7), 7);
    assert_eq!(percent_of_num(Percent::from_percent(0), 7), 0);
    assert_eq!(percent_of_num(Percent::from_percent(33), u32::MAX), 1_417_339_208);
}

#[test]
fn from_percent_saturates_at_one_hundred() {
    assert_eq!(Percent::from_percent(250).deconstruct(), 100);
    assert_eq!(Percent::from_percent(99).deconstruct(), 99);
}

#[test]
fn zero_share_falls_back_to_the_default() {
    let count = EligibleRatioToEligiblityCount::eligible_count(Some(Percent::from_percent(0)), 5);
    assert_eq!(count.get(), DEFAULT_TOTAL_ELIGIBLE_AUTHORS);
    let count = EligibleRatioToEligiblityCount::eligible_count(Some(Percent::from_percent(50)), 0);
    assert_eq!(count.get(), DEFAULT_TOTAL_ELIGIBLE_AUTHORS);
}

#[test]
fn post_upgrade_compares_counts() {
    let three = NonZeroU32::new(3);
    assert!(EligibleRatioToEligiblityCount::post_upgrade_matches(three, NonZeroU32::new(3)));
    assert!(!EligibleRatioToEligiblityCount::post_upgrade_matches(three, NonZeroU32::new(4)));
    assert!(!EligibleRatioToEligiblityCount::post_upgrade_matches(three, None));
    assert!(EligibleRatioToEligiblityCount::post_upgrade_matches(None, None));
}

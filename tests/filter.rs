use nimbus::filter::{first_eligible_key, is_eligible, select};
use nimbus::num::NonZeroU32;
use nimbus::primitives::Identity;

fn identity(b: u8) -> Identity {
    Identity { bytes: [b; 32] }
}

fn candidates(n: u8) -> Vec<Identity> {
    (1..=n).map(identity).collect()
}

fn count(n: u32) -> NonZeroU32 {
    NonZeroU32::new(n).unwrap()
}

#[test]
fn selection_size_is_min_of_count_and_candidates() {
    for n in 0..8u8 {
        for k in 1..10u32 {
            let chosen = select(&candidates(n), 99, count(k));
            assert_eq!(chosen.len(), std::cmp::min(k as usize, n as usize));
        }
    }
}

#[test]
fn selection_is_deterministic() {
    let c = candidates(20);
    assert_eq!(select(&c, 1234, count(5)), select(&c, 1234, count(5)));
}

#[test]
fn selection_with_known_seed() {
    let c = candidates(5);
    assert_eq!(select(&c, 42, count(3)), vec![identity(4), identity(5), identity(1)]);
    assert_eq!(select(&c, 0, count(3)), vec![identity(1), identity(2), identity(4)]);
    assert_eq!(select(&c, 7, count(3)), vec![identity(3), identity(1), identity(2)]);
}

#[test]
fn selection_of_empty_candidates_is_empty() {
    assert!(select(&vec![], 5, count(3)).is_empty());
}

#[test]
fn large_count_selects_every_candidate() {
    let c = candidates(5);
    let chosen = select(&c, 42, count(9));
    assert_eq!(chosen, vec![identity(4), identity(5), identity(1), identity(2), identity(3)]);
    let mut sorted = chosen.clone();
    sorted.sort_by_key(|i| i.bytes);
    assert_eq!(sorted, c);
}

#[test]
fn selection_has_no_repeats() {
    let c = candidates(30);
    let chosen = select(&c, 77, count(12));
    for i in 0..chosen.len() {
        for j in 0..i {
            assert_ne!(chosen[i], chosen[j]);
        }
        assert!(c.contains(&chosen[i]));
    }
}

#[test]
fn eligibility_is_membership() {
    let eligible = vec![identity(4), identity(5), identity(1)];
    assert!(is_eligible(&identity(5), &eligible));
    assert!(!is_eligible(&identity(2), &eligible));
    assert!(!is_eligible(&identity(2), &vec![]));
}

#[test]
fn first_eligible_key_follows_the_eligible_order() {
    let eligible = vec![identity(4), identity(5), identity(1)];
    let held = vec![identity(1), identity(5)];
    assert_eq!(first_eligible_key(&eligible, &held), Some(identity(5)));
    assert_eq!(first_eligible_key(&eligible, &vec![identity(2)]), None);
}

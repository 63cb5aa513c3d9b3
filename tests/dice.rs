use discobot::{roll, tally, RollError};

#[test]
fn roll_stays_within_sides_and_sums() {
    let out = roll(5, 6).unwrap();
    assert_eq!(out.rolls.len(), 5);
    assert!(out.rolls.iter().all(|r| (1..=6).contains(r)));
    assert_eq!(out.total, out.rolls.iter().sum::<i64>());
}

#[test]
fn roll_draws_varied_values() {
    let out = roll(200, 1000).unwrap();
    assert!(out.rolls.iter().any(|r| *r != 1000));
    assert!(out.rolls.iter().any(|r| *r != out.rolls[0]));
}

#[test]
fn roll_with_one_side_is_all_ones() {
    let out = roll(4, 1).unwrap();
    assert_eq!(out.rolls, vec![1, 1, 1, 1]);
    assert_eq!(out.total, 4);
}

#[test]
fn roll_of_no_dice_is_empty() {
    let out = roll(0, 6).unwrap();
    assert!(out.rolls.is_empty());
    assert_eq!(out.total, 0);
    let out = roll(-3, 0).unwrap();
    assert!(out.rolls.is_empty());
}

#[test]
fn roll_errors() {
    assert_eq!(roll(2, 0).err(), Some(RollError::NoSides));
    assert_eq!(roll(1, -5).err(), Some(RollError::NoSides));
    assert_eq!(roll(2, i64::MAX).err(), Some(RollError::TooLarge));
    assert!(roll(1, i64::MAX).is_ok());
}

#[test]
fn tally_sums_or_reports_overflow() {
    assert_eq!(tally(&vec![]), Some(0));
    assert_eq!(tally(&vec![3, 4, 5]), Some(12));
    assert_eq!(tally(&vec![i64::MAX, 1]), None);
    assert_eq!(tally(&vec![i64::MAX, 1, -1]), Some(i64::MAX));
    assert_eq!(tally(&vec![i64::MIN, -1]), None);
}

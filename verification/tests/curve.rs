use anchor_amm::curve::{scale_for, withdraw_amounts};
use anchor_amm::Settlement;

#[test]
fn scale_is_a_power_of_ten() {
    assert_eq!(scale_for(0), Some(1));
    assert_eq!(scale_for(1), Some(10));
    assert_eq!(scale_for(6), Some(1_000_000));
    assert_eq!(scale_for(38), Some(100_000_000_000_000_000_000_000_000_000_000_000_000));
}

#[test]
fn scale_past_128_bits_is_none() {
    assert_eq!(scale_for(39), None);
    assert_eq!(scale_for(255), None);
}

#[test]
fn amounts_follow_the_burnt_share() {
    assert_eq!(withdraw_amounts(1000, 2000, 1000, 100, 6), Some(Settlement { x: 100, y: 200 }));
    assert_eq!(withdraw_amounts(1000, 2000, 1000, 500, 6), Some(Settlement { x: 500, y: 1000 }));
    assert_eq!(withdraw_amounts(0, 2000, 1000, 250, 6), Some(Settlement { x: 0, y: 500 }));
}

#[test]
fn amounts_round_in_the_callers_favour() {
    // A third of the supply: the share that stays is 666_666 millionths.
    assert_eq!(withdraw_amounts(1, 10, 3, 1, 6), Some(Settlement { x: 1, y: 4 }));
    assert_eq!(withdraw_amounts(3_000_000, 3_000_001, 3, 1, 6), Some(Settlement {
        x: 1_000_002,
        y: 1_000_003,
    }));
}

#[test]
fn burning_everything_pays_everything() {
    assert_eq!(withdraw_amounts(1000, 2000, 7, 7, 6), Some(Settlement { x: 1000, y: 2000 }));
    assert_eq!(
        withdraw_amounts(u64::MAX, u64::MAX, u64::MAX, u64::MAX, 6),
        Some(Settlement { x: u64::MAX, y: u64::MAX })
    );
}

#[test]
fn burning_nothing_pays_nothing() {
    assert_eq!(withdraw_amounts(1000, 2000, 7, 0, 6), Some(Settlement { x: 0, y: 0 }));
}

#[test]
fn no_amounts_without_supply_or_beyond_it() {
    assert_eq!(withdraw_amounts(1000, 2000, 0, 0, 6), None);
    assert_eq!(withdraw_amounts(1000, 2000, 0, 1, 6), None);
    assert_eq!(withdraw_amounts(1000, 2000, 10, 11, 6), None);
    assert_eq!(withdraw_amounts(0, 0, 0, 1, 6), None);
}

#[test]
fn coarse_scale_rounds_the_share_to_nothing() {
    // With no decimal places the share that stays is 0 or 1 whole.
    assert_eq!(withdraw_amounts(1000, 2000, 1000, 100, 0), Some(Settlement { x: 1000, y: 2000 }));
    assert_eq!(withdraw_amounts(1000, 2000, 1000, 100, 1), Some(Settlement { x: 100, y: 200 }));
    assert_eq!(withdraw_amounts(1000, 2000, 1000, 150, 1), Some(Settlement { x: 200, y: 400 }));
}

#[test]
fn products_past_128_bits_give_no_amounts() {
    // 10^39 does not fit.
    assert_eq!(withdraw_amounts(1, 1, 2, 1, 39), None);
    // 10^38 fits, and so does 3 * 10^38, but not 4 * 10^38.
    assert_eq!(withdraw_amounts(1, 1, 4, 1, 38), Some(Settlement { x: 1, y: 1 }));
    assert_eq!(withdraw_amounts(1, 1, 5, 1, 38), None);
    // The share is 10^38 / 2; four times that does not fit.
    assert_eq!(withdraw_amounts(6, 1, 2, 1, 38), Some(Settlement { x: 3, y: 1 }));
    assert_eq!(withdraw_amounts(7, 1, 2, 1, 38), None);
    assert_eq!(withdraw_amounts(1, 7, 2, 1, 38), None);
}

#[test]
fn largest_inputs_fit_at_six_places() {
    assert_eq!(
        withdraw_amounts(u64::MAX, u64::MAX, u64::MAX, 1, 6),
        Some(Settlement { x: 18_446_744_073_710, y: 18_446_744_073_710 })
    );
}

use graphite_services::action_speed::{
    cap_shared_action_speed_bonus, max_shared_action_speed_bonus, ActionSpeedBonus,
    ActionSpeedPolicyError, SharedActionSpeedBonusPolicy,
    BASE_REPEATABLE_MANUAL_REWARD_ACTION_COOLDOWN_MILLIS, MAX_SHARED_ACTION_SPEED_BONUS_DENOMINATOR,
    MAX_SHARED_ACTION_SPEED_BONUS_NUMERATOR, MIN_MINE_FISH_COOLDOWN_MILLIS,
};

fn ratio(numerator: u64, denominator: u64) -> ActionSpeedBonus {
    match ActionSpeedBonus::new(numerator, denominator) {
        Ok(value) => value,
        Err(_) => panic!("test ratio denominator must be positive"),
    }
}

#[test]
fn frozen_timing_and_cap_constants_are_exact() {
    assert_eq!(BASE_REPEATABLE_MANUAL_REWARD_ACTION_COOLDOWN_MILLIS, 10_000);
    assert_eq!(MIN_MINE_FISH_COOLDOWN_MILLIS, 7_500);
    assert_eq!(MAX_SHARED_ACTION_SPEED_BONUS_NUMERATOR, 3_333);
    assert_eq!(MAX_SHARED_ACTION_SPEED_BONUS_DENOMINATOR, 10_000);
    assert_eq!(max_shared_action_speed_bonus(), ratio(3_333, 10_000));
}

#[test]
fn ratios_normalize_without_selecting_decimal_precision() {
    assert_eq!(ActionSpeedBonus::new(10, 100).unwrap(), ratio(1, 10));
    assert_eq!(ActionSpeedBonus::new(15, 100).unwrap(), ratio(3, 20));
    assert_eq!(ActionSpeedBonus::new(0, u64::MAX).unwrap(), ratio(0, 1));
    assert_eq!(ActionSpeedBonus::new(1, 0), Err(ActionSpeedPolicyError::ZeroDenominator));
}

#[test]
fn bucket_total_below_the_cap_is_preserved_exactly() {
    let uncapped = ratio(33_329, 100_000);
    assert_eq!(
        cap_shared_action_speed_bonus(uncapped),
        SharedActionSpeedBonusPolicy {
            uncapped_bonus: uncapped,
            applied_bonus: uncapped,
            cap_applied: false,
        }
    );
}

#[test]
fn bucket_total_above_the_cap_is_clamped_exactly() {
    let uncapped = ratio(1, 3);
    assert_eq!(
        cap_shared_action_speed_bonus(uncapped),
        SharedActionSpeedBonusPolicy {
            uncapped_bonus: uncapped,
            applied_bonus: ratio(3_333, 10_000),
            cap_applied: true,
        }
    );
}

#[test]
fn exact_cap_and_zero_do_not_report_clamping() {
    let cap = ratio(3_333, 10_000);
    assert_eq!(
        cap_shared_action_speed_bonus(cap),
        SharedActionSpeedBonusPolicy { uncapped_bonus: cap, applied_bonus: cap, cap_applied: false }
    );
    let zero = ratio(0, 1);
    assert_eq!(
        cap_shared_action_speed_bonus(zero),
        SharedActionSpeedBonusPolicy {
            uncapped_bonus: zero,
            applied_bonus: zero,
            cap_applied: false,
        }
    );
}

#[test]
fn arbitrarily_large_resolved_ratios_are_safely_capped() {
    let uncapped = ratio(u64::MAX, 1);
    let policy = cap_shared_action_speed_bonus(uncapped);
    assert_eq!(policy.uncapped_bonus, uncapped);
    assert_eq!(policy.applied_bonus, max_shared_action_speed_bonus());
    assert!(policy.cap_applied);
}

#[test]
fn reduced_ratio_keeps_its_value_and_capping_is_idempotent() {
    let r = ratio(6, 8);
    assert_eq!((r.numerator(), r.denominator()), (3, 4));
    let once = cap_shared_action_speed_bonus(r).applied_bonus;
    let twice = cap_shared_action_speed_bonus(once).applied_bonus;
    assert_eq!(once, twice);
    assert!(!cap_shared_action_speed_bonus(once).cap_applied);
}

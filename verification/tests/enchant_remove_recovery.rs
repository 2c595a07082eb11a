use graphite_services::enchant_remove_recovery::BlankEnchantBookDisposition;
use graphite_services::enchant_catalog::CanonicalEnchant;
use graphite_services::enchant_remove_recovery::EnchantRecoveryTerminalOutcome;
use graphite_services::enchant_remove_recovery::EnchantRemovalMode;
use graphite_services::enchant_remove_recovery::EnchantRemovalPolicyError;
use graphite_services::enchant_remove_recovery::RecoveredEnchantBook;
use graphite_services::enchant_remove_recovery::removal_terminal_policy_after_removability_check;

#[test]
fn plain_removal_never_uses_or_returns_a_book() {
    let policy = removal_terminal_policy_after_removability_check(
        CanonicalEnchant::Sharpness,
        7,
        EnchantRemovalMode::RemoveOnly,
    )
    .unwrap();

    assert!(policy.removes_enchant);
    assert_eq!(
        policy.blank_book_disposition,
        BlankEnchantBookDisposition::NotUsed
    );
    assert_eq!(policy.recovered_book, None);
    assert!(policy.service_fee_is_charged);
    assert!(policy.fee_amount_is_unresolved);
    assert!(!policy.recovery_success_probability_is_unresolved);
}

#[test]
fn recovery_success_removes_enchant_and_returns_same_identity_and_level() {
    let policy = removal_terminal_policy_after_removability_check(
        CanonicalEnchant::Sharpness,
        9,
        EnchantRemovalMode::RecoverWithBlankBook {
            outcome: EnchantRecoveryTerminalOutcome::Success,
        },
    )
    .unwrap();

    assert!(policy.removes_enchant);
    assert_eq!(
        policy.blank_book_disposition,
        BlankEnchantBookDisposition::ConsumedForRecoveredBook
    );
    assert_eq!(
        policy.recovered_book,
        Some(RecoveredEnchantBook {
            enchant: CanonicalEnchant::Sharpness,
            level: 9,
        })
    );
    assert!(policy.service_fee_is_charged);
    assert!(policy.fee_amount_is_unresolved);
    assert!(policy.recovery_success_probability_is_unresolved);
}

#[test]
fn recovery_failure_still_removes_enchant_and_loses_blank_book() {
    let policy = removal_terminal_policy_after_removability_check(
        CanonicalEnchant::Protection,
        4,
        EnchantRemovalMode::RecoverWithBlankBook {
            outcome: EnchantRecoveryTerminalOutcome::Failure,
        },
    )
    .unwrap();

    assert!(policy.removes_enchant);
    assert_eq!(
        policy.blank_book_disposition,
        BlankEnchantBookDisposition::ConsumedWithoutRecoveredBook
    );
    assert_eq!(policy.recovered_book, None);
    assert!(policy.service_fee_is_charged);
    assert!(policy.fee_amount_is_unresolved);
    assert!(policy.recovery_success_probability_is_unresolved);
}

#[test]
fn canonical_per_enchant_level_ceiling_is_enforced() {
    assert!(
        removal_terminal_policy_after_removability_check(
            CanonicalEnchant::Mending,
            1,
            EnchantRemovalMode::RemoveOnly,
        )
        .is_ok()
    );
    assert_eq!(
        removal_terminal_policy_after_removability_check(
            CanonicalEnchant::Mending,
            2,
            EnchantRemovalMode::RemoveOnly,
        ),
        Err(EnchantRemovalPolicyError::InvalidResultingLevel {
            enchant: CanonicalEnchant::Mending,
            level: 2,
            max_level: 1,
        })
    );
    assert_eq!(
        removal_terminal_policy_after_removability_check(
            CanonicalEnchant::Sharpness,
            0,
            EnchantRemovalMode::RemoveOnly,
        ),
        Err(EnchantRemovalPolicyError::InvalidResultingLevel {
            enchant: CanonicalEnchant::Sharpness,
            level: 0,
            max_level: 10,
        })
    );
}

//! Terminal asset consequences of removing or recovering one embedded enchant.
use vstd::prelude::*;

use crate::enchant_catalog::{
    canonical_enchant_max_resulting_level, spec_max_resulting_level, CanonicalEnchant,
};

verus! {

#[derive(Clone, Copy, Debug, PartialEq, Eq, Structural)]
pub enum EnchantRecoveryTerminalOutcome {
    Success,
    Failure,
}

#[derive(Clone, Copy, Debug, PartialEq, Eq, Structural)]
pub enum EnchantRemovalMode {
    RemoveOnly,
    RecoverWithBlankBook { outcome: EnchantRecoveryTerminalOutcome },
}

#[derive(Clone, Copy, Debug, PartialEq, Eq, Structural)]
pub enum BlankEnchantBookDisposition {
    NotUsed,
    ConsumedForRecoveredBook,
    ConsumedWithoutRecoveredBook,
}

#[derive(Clone, Copy, Debug, PartialEq, Eq, Structural)]
pub struct RecoveredEnchantBook {
    pub enchant: CanonicalEnchant,
    pub level: u8,
}

#[derive(Clone, Copy, Debug, PartialEq, Eq, Structural)]
pub struct EnchantRemovalTerminalPolicy {
    pub enchant: CanonicalEnchant,
    pub level: u8,
    pub mode: EnchantRemovalMode,
    pub removes_enchant: bool,
    pub blank_book_disposition: BlankEnchantBookDisposition,
    pub recovered_book: Option<RecoveredEnchantBook>,
    pub service_fee_is_charged: bool,
    pub fee_amount_is_unresolved: bool,
    pub recovery_success_probability_is_unresolved: bool,
}

#[derive(Clone, Copy, Debug, PartialEq, Eq, Structural)]
pub enum EnchantRemovalPolicyError {
    InvalidResultingLevel { enchant: CanonicalEnchant, level: u8, max_level: u8 },
}

/// Blank-book disposition, recovered book and unresolved-probability flag of each mode.
pub open spec fn spec_removal_consequences(
    enchant: CanonicalEnchant,
    level: u8,
    mode: EnchantRemovalMode,
) -> (BlankEnchantBookDisposition, Option<RecoveredEnchantBook>, bool) {
    match mode {
        EnchantRemovalMode::RemoveOnly => (BlankEnchantBookDisposition::NotUsed, None, false),
        EnchantRemovalMode::RecoverWithBlankBook { outcome } => match outcome {
            EnchantRecoveryTerminalOutcome::Success => (
                BlankEnchantBookDisposition::ConsumedForRecoveredBook,
                Some(RecoveredEnchantBook { enchant, level }),
                true,
            ),
            EnchantRecoveryTerminalOutcome::Failure => (
                BlankEnchantBookDisposition::ConsumedWithoutRecoveredBook,
                None,
                true,
            ),
        },
    }
}

/// Resolves the frozen terminal asset consequences of one Enchant remove/recovery selection after
/// the owning service has already established that the selected embedded enchant is removable.
///
/// Every terminal outcome removes the enchant and charges the service; a successful recovery
/// returns exactly the same enchant and level.
pub fn removal_terminal_policy_after_removability_check(
    enchant: CanonicalEnchant,
    level: u8,
    mode: EnchantRemovalMode,
) -> (r: Result<EnchantRemovalTerminalPolicy, EnchantRemovalPolicyError>)
    ensures
        !(1 <= level <= spec_max_resulting_level(enchant)) ==> r == Err::<
            EnchantRemovalTerminalPolicy,
            EnchantRemovalPolicyError,
        >(
            EnchantRemovalPolicyError::InvalidResultingLevel {
                enchant,
                level,
                max_level: spec_max_resulting_level(enchant),
            },
        ),
        1 <= level <= spec_max_resulting_level(enchant) ==> r == Ok::<
            EnchantRemovalTerminalPolicy,
            EnchantRemovalPolicyError,
        >(
            EnchantRemovalTerminalPolicy {
                enchant,
                level,
                mode,
                removes_enchant: true,
                blank_book_disposition: spec_removal_consequences(enchant, level, mode).0,
                recovered_book: spec_removal_consequences(enchant, level, mode).1,
                service_fee_is_charged: true,
                fee_amount_is_unresolved: true,
                recovery_success_probability_is_unresolved: spec_removal_consequences(
                    enchant,
                    level,
                    mode,
                ).2,
            },
        ),
{
    let max_level = canonical_enchant_max_resulting_level(enchant);
    if level == 0 || level > max_level {
        return Err(EnchantRemovalPolicyError::InvalidResultingLevel { enchant, level, max_level });
    }
    let (blank_book_disposition, recovered_book, recovery_success_probability_is_unresolved) =
        match mode {
        EnchantRemovalMode::RemoveOnly => (BlankEnchantBookDisposition::NotUsed, None, false),
        EnchantRemovalMode::RecoverWithBlankBook {
            outcome: EnchantRecoveryTerminalOutcome::Success,
        } => (
            BlankEnchantBookDisposition::ConsumedForRecoveredBook,
            Some(RecoveredEnchantBook { enchant, level }),
            true,
        ),
        EnchantRemovalMode::RecoverWithBlankBook {
            outcome: EnchantRecoveryTerminalOutcome::Failure,
        } => (BlankEnchantBookDisposition::ConsumedWithoutRecoveredBook, None, true),
    };
    Ok(
        EnchantRemovalTerminalPolicy {
            enchant,
            level,
            mode,
            removes_enchant: true,
            blank_book_disposition,
            recovered_book,
            service_fee_is_charged: true,
            fee_amount_is_unresolved: true,
            recovery_success_probability_is_unresolved,
        },
    )
}

} // verus!

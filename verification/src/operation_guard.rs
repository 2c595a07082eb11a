//! Guards shared by operation-owned state mutations: the owning operation must be PENDING for the
//! acting player, and the acting account must be ACTIVE.
use vstd::prelude::*;

use crate::text::str_eq;

verus! {

#[derive(Clone, Debug, PartialEq, Eq)]
pub enum OperationGuardError {
    OperationNotFound,
    OperationPlayerMismatch,
    OperationTerminal(String),
    PlayerNotFound,
    AccountFrozen(String),
}

/// A locked operation row: the player it targets, if any, and its lifecycle state.
pub struct OperationRow {
    pub player_id: Option<u128>,
    pub state: String,
}

/// Accepts a locked operation only if it exists, targets exactly `player_id` and is still PENDING.
pub fn check_pending_player_operation(operation: Option<OperationRow>, player_id: u128) -> (r: Result<
    (),
    OperationGuardError,
>)
    ensures
        operation is None ==> r == Err::<(), OperationGuardError>(
            OperationGuardError::OperationNotFound,
        ),
        operation matches Some(row) ==> {
            &&& row.player_id != Some(player_id) ==> r == Err::<(), OperationGuardError>(
                OperationGuardError::OperationPlayerMismatch,
            )
            &&& row.player_id == Some(player_id) && row.state@ != "PENDING"@ ==> r == Err::<
                (),
                OperationGuardError,
            >(OperationGuardError::OperationTerminal(row.state))
            &&& row.player_id == Some(player_id) && row.state@ == "PENDING"@ ==> r is Ok
        },
{
    let row = match operation {
        None => {
            return Err(OperationGuardError::OperationNotFound);
        },
        Some(row) => row,
    };
    let matches_player = match row.player_id {
        Some(id) => id == player_id,
        None => false,
    };
    if !matches_player {
        return Err(OperationGuardError::OperationPlayerMismatch);
    }
    if !str_eq(row.state.as_str(), "PENDING") {
        return Err(OperationGuardError::OperationTerminal(row.state));
    }
    Ok(())
}

/// Accepts the acting player only if a non-deleted account exists and its status is ACTIVE.
pub fn check_active_player(status: Option<String>) -> (r: Result<(), OperationGuardError>)
    ensures
        status is None ==> r == Err::<(), OperationGuardError>(
            OperationGuardError::PlayerNotFound,
        ),
        status matches Some(s) ==> {
            &&& s@ != "ACTIVE"@ ==> r == Err::<(), OperationGuardError>(
                OperationGuardError::AccountFrozen(s),
            )
            &&& s@ == "ACTIVE"@ ==> r is Ok
        },
{
    let status = match status {
        None => {
            return Err(OperationGuardError::PlayerNotFound);
        },
        Some(s) => s,
    };
    if !str_eq(status.as_str(), "ACTIVE") {
        return Err(OperationGuardError::AccountFrozen(status));
    }
    Ok(())
}

} // verus!

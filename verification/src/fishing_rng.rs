//! The owning operation's RNG root, pinned for one manual Fishing cast.
use vstd::prelude::*;

use crate::text::str_eq;

verus! {

/// Length in bytes of a persisted operation RNG root.
pub const RNG_ROOT_BYTES: usize = 32;

/// The owning operation and its RNG root. The root stays private: no draw is exposed here.
#[derive(Clone, PartialEq, Eq)]
pub struct ManualFishingRngContext {
    operation_id: u128,
    root_seed: Vec<u8>,
}

#[derive(Clone, Debug, PartialEq, Eq)]
pub enum ManualFishingRngContextError {
    OperationNotFound,
    OperationPlayerMismatch,
    OperationTerminal(String),
    InvalidStoredRngRoot,
}

impl ManualFishingRngContext {
    /// The owning operation's id.
    pub closed spec fn spec_operation_id(self) -> u128 {
        self.operation_id
    }

    /// The pinned RNG root.
    pub closed spec fn spec_root_seed(self) -> Seq<u8> {
        self.root_seed@
    }

    /// A pinned root is exactly the persisted root length.
    pub closed spec fn wf(self) -> bool {
        self.root_seed@.len() == RNG_ROOT_BYTES
    }

    /// The owning operation's id.
    pub fn operation_id(&self) -> (r: u128)
        ensures
            r == self.spec_operation_id(),
    {
        self.operation_id
    }
}

/// Pins the RNG root of the locked owning operation: the operation must be bound to the player,
/// still pending, and hold a root of exactly the persisted length.
pub fn manual_fishing_rng_context(
    operation_id: u128,
    player_id: u128,
    stored_player_id: Option<u128>,
    state: String,
    rng_root: Vec<u8>,
) -> (r: Result<ManualFishingRngContext, ManualFishingRngContextError>)
    ensures
        stored_player_id != Some(player_id) ==> r == Err::<
            ManualFishingRngContext,
            ManualFishingRngContextError,
        >(ManualFishingRngContextError::OperationPlayerMismatch),
        stored_player_id == Some(player_id) && state@ != "PENDING"@ ==> r == Err::<
            ManualFishingRngContext,
            ManualFishingRngContextError,
        >(ManualFishingRngContextError::OperationTerminal(state)),
        stored_player_id == Some(player_id) && state@ == "PENDING"@ && rng_root@.len()
            != RNG_ROOT_BYTES ==> r == Err::<ManualFishingRngContext, ManualFishingRngContextError>(
            ManualFishingRngContextError::InvalidStoredRngRoot,
        ),
        stored_player_id == Some(player_id) && state@ == "PENDING"@ && rng_root@.len()
            == RNG_ROOT_BYTES ==> (r matches Ok(context) && context.wf()
            && context.spec_operation_id() == operation_id && context.spec_root_seed()
            == rng_root@),
{
    if stored_player_id != Some(player_id) {
        return Err(ManualFishingRngContextError::OperationPlayerMismatch);
    }
    if !str_eq(state.as_str(), "PENDING") {
        return Err(ManualFishingRngContextError::OperationTerminal(state));
    }
    if rng_root.len() != RNG_ROOT_BYTES {
        return Err(ManualFishingRngContextError::InvalidStoredRngRoot);
    }
    Ok(ManualFishingRngContext { operation_id, root_seed: rng_root })
}

} // verus!

use graphite_services::operation_guard::check_active_player;
use graphite_services::operation_guard::check_pending_player_operation;
use graphite_services::operation_guard::OperationGuardError;
use graphite_services::operation_guard::OperationRow;

fn operation(player_id: Option<u128>, state: &str) -> Option<OperationRow> {
    Some(OperationRow { player_id, state: state.to_string() })
}

#[test]
fn a_pending_operation_of_the_player_passes() {
    assert_eq!(check_pending_player_operation(operation(Some(4), "PENDING"), 4), Ok(()));
}

#[test]
fn operation_guard_errors_come_in_order() {
    assert_eq!(
        check_pending_player_operation(None, 4),
        Err(OperationGuardError::OperationNotFound)
    );
    assert_eq!(
        check_pending_player_operation(operation(None, "PENDING"), 4),
        Err(OperationGuardError::OperationPlayerMismatch)
    );
    assert_eq!(
        check_pending_player_operation(operation(Some(5), "COMMITTED"), 4),
        Err(OperationGuardError::OperationPlayerMismatch)
    );
    assert_eq!(
        check_pending_player_operation(operation(Some(4), "COMMITTED"), 4),
        Err(OperationGuardError::OperationTerminal("COMMITTED".to_string()))
    );
}

#[test]
fn only_an_existing_active_account_passes() {
    assert_eq!(check_active_player(Some("ACTIVE".to_string())), Ok(()));
    assert_eq!(check_active_player(None), Err(OperationGuardError::PlayerNotFound));
    assert_eq!(
        check_active_player(Some("FROZEN".to_string())),
        Err(OperationGuardError::AccountFrozen("FROZEN".to_string()))
    );
}

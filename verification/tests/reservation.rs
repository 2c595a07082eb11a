use graphite_services::reservation::aggregate_by_definition;
use graphite_services::reservation::check_available_quantity;
use graphite_services::reservation::check_operation_binding;
use graphite_services::reservation::check_operation_state;
use graphite_services::reservation::check_player_status;
use graphite_services::reservation::identity_less;
use graphite_services::reservation::is_canonical_text;
use graphite_services::reservation::item_stack_reservation_write;
use graphite_services::reservation::normalize_request;
use graphite_services::reservation::receipt_for_existing_job;
use graphite_services::reservation::running_reservation_receipt;
use graphite_services::reservation::text_less;
use graphite_services::reservation::DefinitionTotal;
use graphite_services::reservation::ExistingServiceJob;
use graphite_services::reservation::ItemStackReservationWrite;
use graphite_services::reservation::ReservationRole;
use graphite_services::reservation::ServiceJobReservationError;
use graphite_services::reservation::ServiceJobReservationRequest;
use graphite_services::reservation::StackReservationRequest;
use graphite_services::reservation::StoredStackReservationRow;

fn stack(role: ReservationRole, key: &str, version: i32, quantity: i64) -> StackReservationRequest {
    StackReservationRequest { role, definition_key: key.to_string(), definition_version: version, quantity }
}

fn request(stacks: Vec<StackReservationRequest>) -> ServiceJobReservationRequest {
    ServiceJobReservationRequest {
        operation_id: 100,
        player_id: 7,
        service_kind: "SMELTING".to_string(),
        policy_version: 1,
        stacks,
    }
}

#[test]
fn roles_read_back_from_their_persisted_labels() {
    for role in [ReservationRole::Input, ReservationRole::Fuel] {
        assert_eq!(ReservationRole::from_db(role.as_str()), Ok(role));
    }
    assert_eq!(ReservationRole::Input.as_str(), "INPUT");
    assert_eq!(ReservationRole::Fuel.as_str(), "FUEL");
    assert_eq!(
        ReservationRole::from_db("input"),
        Err(ServiceJobReservationError::ReservationIntegrityMismatch)
    );
}

#[test]
fn canonical_text_has_no_surrounding_whitespace() {
    assert!(is_canonical_text("SMELTING"));
    assert!(is_canonical_text("IRON ORE"));
    assert!(!is_canonical_text(""));
    assert!(!is_canonical_text(" SMELTING"));
    assert!(!is_canonical_text("SMELTING\n"));
    assert!(!is_canonical_text("\u{3000}SMELTING"));
    assert!(!is_canonical_text("SMELTING\u{a0}"));
}

#[test]
fn text_order_matches_string_order() {
    let samples = ["", "A", "AB", "B", "IRON_ORE", "IRON_INGOT", "é", "z", "\u{3000}"];
    for a in samples {
        for b in samples {
            assert_eq!(text_less(a, b), a < b, "{a:?} < {b:?}");
        }
    }
}

#[test]
fn request_header_errors_come_first() {
    let mut invalid_policy = request(vec![stack(ReservationRole::Input, "ORE", 1, 1)]);
    invalid_policy.policy_version = 0;
    assert_eq!(normalize_request(&invalid_policy), Err(ServiceJobReservationError::InvalidPolicyVersion));

    let mut invalid_kind = request(vec![stack(ReservationRole::Input, "ORE", 1, 1)]);
    invalid_kind.service_kind = " SMELTING".to_string();
    assert_eq!(normalize_request(&invalid_kind), Err(ServiceJobReservationError::InvalidServiceKind));

    assert_eq!(normalize_request(&request(vec![])), Err(ServiceJobReservationError::EmptyReservations));
}

#[test]
fn stack_errors_come_in_request_order() {
    let invalid = request(vec![
        stack(ReservationRole::Input, "ORE", 1, 1),
        stack(ReservationRole::Input, "ORE", 1, 0),
        stack(ReservationRole::Input, "ORE", 1, 1),
    ]);
    assert_eq!(normalize_request(&invalid), Err(ServiceJobReservationError::InvalidReservation));

    let duplicate = request(vec![
        stack(ReservationRole::Input, "ORE", 1, 1),
        stack(ReservationRole::Input, "ORE", 1, 5),
        stack(ReservationRole::Fuel, "COAL", -1, 1),
    ]);
    assert_eq!(normalize_request(&duplicate), Err(ServiceJobReservationError::DuplicateReservation));

    for bad in [
        stack(ReservationRole::Input, "", 1, 1),
        stack(ReservationRole::Input, "ORE ", 1, 1),
        stack(ReservationRole::Input, "ORE", 0, 1),
        stack(ReservationRole::Input, "ORE", 1, -3),
    ] {
        assert_eq!(
            normalize_request(&request(vec![bad])),
            Err(ServiceJobReservationError::InvalidReservation)
        );
    }
}

#[test]
fn normalized_stacks_are_sorted_by_role_key_and_version() {
    let normalized = normalize_request(&request(vec![
        stack(ReservationRole::Fuel, "COAL", 1, 2),
        stack(ReservationRole::Input, "ORE", 2, 1),
        stack(ReservationRole::Input, "ORE", 1, 4),
        stack(ReservationRole::Input, "INGOT", 1, 3),
        stack(ReservationRole::Fuel, "COAL", 1, 2).clone(),
    ]));
    assert_eq!(normalized, Err(ServiceJobReservationError::DuplicateReservation));

    let normalized = normalize_request(&request(vec![
        stack(ReservationRole::Fuel, "COAL", 1, 2),
        stack(ReservationRole::Input, "ORE", 2, 1),
        stack(ReservationRole::Input, "ORE", 1, 4),
        stack(ReservationRole::Input, "INGOT", 1, 3),
        stack(ReservationRole::Input, "COAL", 1, 9),
    ]))
    .unwrap();
    assert_eq!(
        normalized,
        vec![
            stack(ReservationRole::Input, "COAL", 1, 9),
            stack(ReservationRole::Input, "INGOT", 1, 3),
            stack(ReservationRole::Input, "ORE", 1, 4),
            stack(ReservationRole::Input, "ORE", 2, 1),
            stack(ReservationRole::Fuel, "COAL", 1, 2),
        ]
    );
    for pair in normalized.windows(2) {
        assert!(identity_less(&pair[0], &pair[1]));
        assert!(!identity_less(&pair[1], &pair[0]));
    }
}

#[test]
fn totals_are_per_definition_across_roles() {
    let stacks = vec![
        stack(ReservationRole::Input, "COAL", 1, 9),
        stack(ReservationRole::Input, "ORE", 1, 4),
        stack(ReservationRole::Fuel, "COAL", 1, 2),
        stack(ReservationRole::Fuel, "COAL", 2, 5),
    ];
    assert_eq!(
        aggregate_by_definition(&stacks).unwrap(),
        vec![
            DefinitionTotal { definition_key: "COAL".to_string(), definition_version: 1, quantity: 11 },
            DefinitionTotal { definition_key: "COAL".to_string(), definition_version: 2, quantity: 5 },
            DefinitionTotal { definition_key: "ORE".to_string(), definition_version: 1, quantity: 4 },
        ]
    );
}

#[test]
fn a_total_beyond_the_bigint_range_overflows() {
    let stacks = vec![
        stack(ReservationRole::Input, "COAL", 1, i64::MAX),
        stack(ReservationRole::Fuel, "COAL", 1, 1),
    ];
    assert_eq!(aggregate_by_definition(&stacks), Err(ServiceJobReservationError::ArithmeticOverflow));
    let separate = vec![
        stack(ReservationRole::Input, "COAL", 1, i64::MAX),
        stack(ReservationRole::Fuel, "COAL", 2, i64::MAX),
    ];
    assert!(aggregate_by_definition(&separate).is_ok());
}

#[test]
fn the_operation_must_match_the_request() {
    let request = request(vec![stack(ReservationRole::Input, "ORE", 1, 1)]);
    assert_eq!(check_operation_binding(Some(7), 1, &request), Ok(()));
    assert_eq!(check_operation_binding(None, 1, &request), Ok(()));
    assert_eq!(
        check_operation_binding(Some(8), 1, &request),
        Err(ServiceJobReservationError::OperationMismatch)
    );
    assert_eq!(
        check_operation_binding(Some(7), 2, &request),
        Err(ServiceJobReservationError::OperationMismatch)
    );
}

#[test]
fn only_pending_operations_start_jobs_and_retries_may_find_them_committed() {
    assert_eq!(check_operation_state("PENDING".to_string(), false), Ok(()));
    assert_eq!(
        check_operation_state("COMMITTED".to_string(), false),
        Err(ServiceJobReservationError::OperationTerminal("COMMITTED".to_string()))
    );
    assert_eq!(check_operation_state("COMMITTED".to_string(), true), Ok(()));
    assert_eq!(
        check_operation_state("FAILED".to_string(), true),
        Err(ServiceJobReservationError::OperationTerminal("FAILED".to_string()))
    );
}

#[test]
fn only_active_accounts_reserve() {
    assert_eq!(check_player_status("ACTIVE".to_string()), Ok(()));
    assert_eq!(
        check_player_status("FROZEN".to_string()),
        Err(ServiceJobReservationError::AccountFrozen("FROZEN".to_string()))
    );
}

#[test]
fn item_bag_quantity_must_cover_the_total() {
    let total = DefinitionTotal { definition_key: "ORE".to_string(), definition_version: 1, quantity: 5 };
    assert_eq!(check_available_quantity(&total, Some(5)), Ok(5));
    assert_eq!(check_available_quantity(&total, Some(9)), Ok(9));
    assert_eq!(
        check_available_quantity(&total, Some(4)),
        Err(ServiceJobReservationError::InsufficientStack {
            definition_key: "ORE".to_string(),
            definition_version: 1,
            available: 4,
            requested: 5,
        })
    );
    assert_eq!(
        check_available_quantity(&total, None),
        Err(ServiceJobReservationError::InsufficientStack {
            definition_key: "ORE".to_string(),
            definition_version: 1,
            available: 0,
            requested: 5,
        })
    );
}

#[test]
fn a_stack_reserved_whole_is_deleted() {
    assert_eq!(item_stack_reservation_write(5, 5), ItemStackReservationWrite::DeleteStack);
    assert_eq!(item_stack_reservation_write(9, 5), ItemStackReservationWrite::DecrementBy(5));
}

#[test]
fn a_new_job_runs_under_the_request() {
    let request = request(vec![stack(ReservationRole::Input, "ORE", 1, 1)]);
    let stacks = normalize_request(&request).unwrap();
    let receipt = running_reservation_receipt(55, &request, stacks.clone());
    assert_eq!(receipt.job_id, 55);
    assert_eq!(receipt.operation_id, 100);
    assert_eq!(receipt.player_id, 7);
    assert_eq!(receipt.service_kind, "SMELTING");
    assert_eq!(receipt.state, "RUNNING");
    assert_eq!(receipt.stacks, stacks);
}

fn existing() -> ExistingServiceJob {
    ExistingServiceJob {
        job_id: 55,
        player_id: 7,
        service_kind: "SMELTING".to_string(),
        policy_version: 1,
        state: "RUNNING".to_string(),
    }
}

fn stored(role: &str, key: &str, version: i32, quantity: i64) -> StoredStackReservationRow {
    StoredStackReservationRow {
        role: role.to_string(),
        definition_key: key.to_string(),
        definition_version: version,
        quantity,
    }
}

#[test]
fn a_retry_returns_the_existing_receipt_when_the_stored_stacks_match() {
    let request = request(vec![
        stack(ReservationRole::Fuel, "COAL", 1, 2),
        stack(ReservationRole::Input, "ORE", 1, 4),
    ]);
    let expected = normalize_request(&request).unwrap();
    let rows = vec![stored("FUEL", "COAL", 1, 2), stored("INPUT", "ORE", 1, 4)];
    let receipt = receipt_for_existing_job(&request, expected.clone(), existing(), &rows).unwrap();
    assert_eq!(receipt.job_id, 55);
    assert_eq!(receipt.state, "RUNNING");
    assert_eq!(receipt.stacks, expected);
}

#[test]
fn a_retry_with_other_stacks_or_identity_conflicts() {
    let request = request(vec![
        stack(ReservationRole::Fuel, "COAL", 1, 2),
        stack(ReservationRole::Input, "ORE", 1, 4),
    ]);
    let expected = normalize_request(&request).unwrap();
    let changed = vec![stored("FUEL", "COAL", 1, 3), stored("INPUT", "ORE", 1, 4)];
    assert_eq!(
        receipt_for_existing_job(&request, expected.clone(), existing(), &changed),
        Err(ServiceJobReservationError::ReservationConflict)
    );
    let missing = vec![stored("INPUT", "ORE", 1, 4)];
    assert_eq!(
        receipt_for_existing_job(&request, expected.clone(), existing(), &missing),
        Err(ServiceJobReservationError::ReservationConflict)
    );
    let repeated = vec![stored("INPUT", "ORE", 1, 4), stored("INPUT", "ORE", 1, 4)];
    assert_eq!(
        receipt_for_existing_job(&request, expected.clone(), existing(), &repeated),
        Err(ServiceJobReservationError::ReservationConflict)
    );
    let mut other_kind = existing();
    other_kind.service_kind = "FORGE".to_string();
    assert_eq!(
        receipt_for_existing_job(&request, expected.clone(), other_kind, &changed),
        Err(ServiceJobReservationError::ReservationConflict)
    );
    let corrupt = vec![stored("FUEL", "COAL", 1, 2), stored("CATALYST", "ORE", 1, 4)];
    assert_eq!(
        receipt_for_existing_job(&request, expected, existing(), &corrupt),
        Err(ServiceJobReservationError::ReservationIntegrityMismatch)
    );
}

#[test]
fn normalizing_normalized_stacks_changes_nothing() {
    let once = normalize_request(&request(vec![
        stack(ReservationRole::Fuel, "COAL", 1, 2),
        stack(ReservationRole::Input, "ORE", 2, 1),
        stack(ReservationRole::Input, "ORE", 1, 4),
    ]))
    .unwrap();
    let twice = normalize_request(&request(once.clone())).unwrap();
    assert_eq!(twice, once);
}

#[test]
fn totals_hold_exactly_the_requested_quantity() {
    let stacks = vec![
        stack(ReservationRole::Input, "COAL", 1, 9),
        stack(ReservationRole::Input, "ORE", 1, 4),
        stack(ReservationRole::Fuel, "COAL", 1, 2),
        stack(ReservationRole::Fuel, "COAL", 2, 5),
        stack(ReservationRole::Fuel, "ORE", 1, 1),
    ];
    let totals = aggregate_by_definition(&stacks).unwrap();
    let requested: i64 = stacks.iter().map(|s| s.quantity).sum();
    let reserved: i64 = totals.iter().map(|t| t.quantity).sum();
    assert_eq!(reserved, requested);
    assert_eq!(totals.len(), 3);
}

#[test]
fn retrying_a_fresh_reservation_returns_the_same_job_and_stacks() {
    let request = request(vec![
        stack(ReservationRole::Input, "ORE", 1, 4),
        stack(ReservationRole::Fuel, "COAL", 1, 2),
    ]);
    let stacks = normalize_request(&request).unwrap();
    let first = running_reservation_receipt(55, &request, stacks.clone());
    let rows: Vec<StoredStackReservationRow> = stacks
        .iter()
        .map(|s| stored(s.role.as_str(), &s.definition_key, s.definition_version, s.quantity))
        .collect();
    let mut job = existing();
    job.job_id = first.job_id;
    let retried = receipt_for_existing_job(&request, normalize_request(&request).unwrap(), job.clone(), &rows)
        .unwrap();
    assert_eq!(retried.job_id, first.job_id);
    assert_eq!(retried.stacks, first.stacks);

    let other = request_with_one_other_stack();
    let other_stacks = normalize_request(&other).unwrap();
    assert_eq!(other_stacks.len(), stacks.len());
    assert_eq!(
        receipt_for_existing_job(&other, other_stacks, job, &rows),
        Err(ServiceJobReservationError::ReservationConflict)
    );
}

fn request_with_one_other_stack() -> ServiceJobReservationRequest {
    request(vec![
        stack(ReservationRole::Input, "ORE", 1, 4),
        stack(ReservationRole::Fuel, "CHARCOAL", 1, 2),
    ])
}

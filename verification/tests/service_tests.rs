use service_control::classify::{
    category_text, classify_state, classify_type, classified_value, is_eligible, state_text,
    ServiceCategory, ServiceState,
};
use service_control::control::{
    control_result, plan_control, required_access, ControlAction, ControlOp,
};
use service_control::decode::decode_service_text;
use service_control::enumerate::{
    build_service_record, enumerate_services, fetch_buffer_len, manager_open_error, ServiceEntry,
    ServiceListing,
};
use service_control::status::classify_status;

fn wide(text: &str) -> Vec<u16> {
    let mut units: Vec<u16> = text.encode_utf16().collect();
    units.push(0);
    units
}

#[test]
fn single_bit_masks_classify_exactly() {
    assert_eq!(classify_type(0x2), ServiceCategory::FileSystemDriver);
    assert_eq!(classify_type(0x1), ServiceCategory::KernelDriver);
    assert_eq!(classify_type(0x10), ServiceCategory::Win32OwnProcess);
    assert_eq!(classify_type(0x20), ServiceCategory::Win32ShareProcess);
    assert_eq!(classify_type(0x40), ServiceCategory::UserOwnProcess);
    assert_eq!(classify_type(0), ServiceCategory::Unclassified);
    assert_eq!(classify_type(0x100), ServiceCategory::Unclassified);
}

#[test]
fn category_labels_are_exact() {
    assert_eq!(
        category_text(&ServiceCategory::FileSystemDriver),
        "File System Driver"
    );
    assert_eq!(category_text(&ServiceCategory::KernelDriver), "Kernel Driver");
    assert_eq!(
        category_text(&ServiceCategory::Win32OwnProcess),
        "Win32 Own Process"
    );
    assert_eq!(
        category_text(&ServiceCategory::Win32ShareProcess),
        "Win32 Share Process"
    );
    assert_eq!(
        category_text(&ServiceCategory::UserOwnProcess),
        "User Own Process"
    );
    assert_eq!(
        category_text(&ServiceCategory::UserShareProcess),
        "User Share Process"
    );
    assert_eq!(category_text(&ServiceCategory::Unclassified), "unknown");
}

#[test]
fn compound_masks_follow_priority_order() {
    // Both driver bits set: the file system driver test runs first.
    assert_eq!(classify_type(0x3), ServiceCategory::FileSystemDriver);
    // A per-user own-process mask also carries the Win32 own-process bit,
    // which is tested earlier.
    assert_eq!(classify_type(0x50), ServiceCategory::Win32OwnProcess);
    // A per-user share-process mask also carries the Win32 share-process
    // bit, which is tested earlier.
    assert_eq!(classify_type(0x60), ServiceCategory::Win32ShareProcess);
}

#[test]
fn classified_value_keeps_raw_mask_when_nothing_matches() {
    assert_eq!(classified_value(0x2), 0x2);
    assert_eq!(classified_value(0x3), 0x2);
    assert_eq!(classified_value(0x50), 0x10);
    assert_eq!(classified_value(0x100), 0x100);
    assert_eq!(classified_value(0), 0);
}

#[test]
fn state_labels_are_exact_and_stable() {
    let expected = [
        (1, "Stopped"),
        (2, "Start Pending"),
        (3, "Stop Pending"),
        (4, "Running"),
        (5, "Continue Pending"),
        (6, "Pause Pending"),
        (7, "Paused"),
    ];
    for (code, label) in expected {
        assert_eq!(state_text(&classify_state(code)), label);
        assert_eq!(state_text(&classify_state(code)), label);
    }
    assert_eq!(state_text(&classify_state(0)), "Unknown");
    assert_eq!(state_text(&classify_state(8)), "Unknown");
    assert_eq!(state_text(&classify_state(4096)), "Unknown");
    assert_eq!(classify_state(4), ServiceState::Running);
    assert_eq!(classify_state(7), ServiceState::Paused);
}

#[test]
fn eligibility_is_exactly_the_two_win32_categories() {
    assert!(!is_eligible(&ServiceCategory::FileSystemDriver));
    assert!(!is_eligible(&ServiceCategory::KernelDriver));
    assert!(is_eligible(&ServiceCategory::Win32OwnProcess));
    assert!(is_eligible(&ServiceCategory::Win32ShareProcess));
    assert!(!is_eligible(&ServiceCategory::UserOwnProcess));
    assert!(!is_eligible(&ServiceCategory::UserShareProcess));
    assert!(!is_eligible(&ServiceCategory::Unclassified));
}

#[test]
fn snapshot_interact_flag_round_trips_through_classifier() {
    for mask in [0u32, 0x1, 0x2, 0x3, 0x10, 0x20, 0x40, 0x50, 0x60, 0x100] {
        let snapshot = classify_status(mask, 4);
        assert_eq!(snapshot.can_interact, is_eligible(&classify_type(mask)));
    }
}

#[test]
fn decode_substitutes_placeholder() {
    assert_eq!(decode_service_text(None), "unknown");
    assert_eq!(decode_service_text(Some(&Vec::new())), "unknown");
    assert_eq!(decode_service_text(Some(&vec![0u16])), "unknown");
    // An unpaired surrogate is not well-formed wide text.
    assert_eq!(decode_service_text(Some(&vec![0xD800u16, 0])), "unknown");
}

#[test]
fn decode_cuts_at_first_nul() {
    let mut units = wide("Spooler");
    units.extend_from_slice(&[0x51, 0x52]);
    assert_eq!(decode_service_text(Some(&units)), "Spooler");
    // Without any nul the whole sequence is decoded.
    assert_eq!(decode_service_text(Some(&vec![0x41u16, 0x62])), "Ab");
}

#[test]
fn fetch_buffer_is_exactly_the_reported_size() {
    assert_eq!(fetch_buffer_len(0), 0);
    assert_eq!(fetch_buffer_len(8192), 8192);
}

#[test]
fn manager_open_error_text_is_prefixed() {
    let message = manager_open_error("Access is denied.");
    assert_eq!(message, "Failed to open service manager: Access is denied.");
}

#[test]
fn enumerating_zero_services_is_an_empty_list() {
    let outcome = enumerate_services(ServiceListing::Entries { entries: Vec::new() });
    assert_eq!(outcome.unwrap().len(), 0);
}

#[test]
fn enumerate_reports_unopenable_registry() {
    let outcome = enumerate_services(ServiceListing::ManagerUnavailable {
        detail: "Access is denied.".to_string(),
    });
    let message = outcome.unwrap_err();
    assert!(message.contains("Failed to open service manager"));
    assert_eq!(message, "Failed to open service manager: Access is denied.");
}

#[test]
fn enumerate_surfaces_fetch_failure_verbatim() {
    let outcome = enumerate_services(ServiceListing::FetchFailed {
        message: "More data is available.".to_string(),
    });
    assert_eq!(outcome.unwrap_err(), "More data is available.");
}

#[test]
fn enumerate_builds_running_spooler_record() {
    let entries = vec![ServiceEntry {
        name: "Spooler".to_string(),
        display_units: Some(wide("Print Spooler")),
        query: Ok((0x10, 4)),
    }];
    let records = enumerate_services(ServiceListing::Entries { entries }).unwrap();
    assert_eq!(records.len(), 1);
    assert_eq!(records[0].name, "Spooler");
    assert_eq!(records[0].display_name, "Print Spooler");
    assert_eq!(records[0].status, "Running");
    assert_eq!(records[0].service_type, "Win32 Own Process");
    assert!(records[0].can_interact);
}

#[test]
fn enumerate_keeps_registry_order_and_placeholders() {
    let entries = vec![
        ServiceEntry {
            name: "unknown".to_string(),
            display_units: None,
            query: Ok((0x1, 4)),
        },
        ServiceEntry {
            name: "W32Time".to_string(),
            display_units: Some(wide("Windows Time")),
            query: Ok((0x20, 1)),
        },
    ];
    let records = enumerate_services(ServiceListing::Entries { entries }).unwrap();
    assert_eq!(records.len(), 2);
    assert_eq!(records[0].name, "unknown");
    assert_eq!(records[0].display_name, "unknown");
    assert_eq!(records[0].service_type, "Kernel Driver");
    assert_eq!(records[0].status, "Running");
    assert!(!records[0].can_interact);
    assert_eq!(records[1].name, "W32Time");
    assert_eq!(records[1].display_name, "Windows Time");
    assert_eq!(records[1].service_type, "Win32 Share Process");
    assert_eq!(records[1].status, "Stopped");
    assert!(records[1].can_interact);
}

#[test]
fn one_failed_query_aborts_the_whole_enumeration() {
    let entries = vec![
        ServiceEntry {
            name: "First".to_string(),
            display_units: None,
            query: Ok((0x10, 4)),
        },
        ServiceEntry {
            name: "Second".to_string(),
            display_units: None,
            query: Err("The service cannot accept control messages.".to_string()),
        },
        ServiceEntry {
            name: "Third".to_string(),
            display_units: None,
            query: Err("A later failure.".to_string()),
        },
    ];
    let outcome = enumerate_services(ServiceListing::Entries { entries });
    assert_eq!(
        outcome.unwrap_err(),
        "The service cannot accept control messages."
    );
}

#[test]
fn build_service_record_labels_follow_snapshot() {
    let snapshot = classify_status(0x20, 3);
    let record = build_service_record("EventLog".to_string(), None, &snapshot);
    assert_eq!(record.name, "EventLog");
    assert_eq!(record.display_name, "unknown");
    assert_eq!(record.status, "Stop Pending");
    assert_eq!(record.service_type, "Win32 Share Process");
    assert!(record.can_interact);
}

#[test]
fn required_access_rights_per_operation() {
    assert_eq!(required_access(&ControlOp::Start), 0x10);
    assert_eq!(required_access(&ControlOp::Stop), 0x20);
    assert_eq!(required_access(&ControlOp::Pause), 0x40);
    assert_eq!(required_access(&ControlOp::Resume), 0x40);
}

#[test]
fn drivers_are_never_signaled() {
    for mask in [0x1u32, 0x2] {
        let snapshot = classify_status(mask, 4);
        for op in [
            ControlOp::Start,
            ControlOp::Stop,
            ControlOp::Pause,
            ControlOp::Resume,
        ] {
            let action = plan_control(&op, &snapshot);
            assert_eq!(action, ControlAction::NoAction);
            assert_eq!(control_result(&action, None), Ok(()));
        }
    }
}

#[test]
fn stop_on_kernel_driver_is_silent_success() {
    let snapshot = classify_status(0x1, 4);
    let action = plan_control(&ControlOp::Stop, &snapshot);
    assert_eq!(action, ControlAction::NoAction);
    assert_eq!(control_result(&action, None), Ok(()));
}

#[test]
fn eligible_operations_carry_their_control_codes() {
    let snapshot = classify_status(0x10, 4);
    assert_eq!(
        plan_control(&ControlOp::Stop, &snapshot),
        ControlAction::Signal { code: 1 }
    );
    assert_eq!(
        plan_control(&ControlOp::Pause, &snapshot),
        ControlAction::Signal { code: 2 }
    );
    assert_eq!(
        plan_control(&ControlOp::Resume, &snapshot),
        ControlAction::Signal { code: 3 }
    );
    assert_eq!(plan_control(&ControlOp::Start, &snapshot), ControlAction::Launch);
}

#[test]
fn pausing_an_already_paused_service_twice_succeeds() {
    // The snapshot of an eligible service that is already paused.
    let snapshot = classify_status(0x10, 7);
    for _ in 0..2 {
        let action = plan_control(&ControlOp::Pause, &snapshot);
        assert_eq!(action, ControlAction::Signal { code: 2 });
        assert_eq!(control_result(&action, Some(Ok(()))), Ok(()));
    }
}

#[test]
fn rejected_transition_is_surfaced_not_masked() {
    let snapshot = classify_status(0x10, 7);
    let action = plan_control(&ControlOp::Pause, &snapshot);
    let outcome = control_result(
        &action,
        Some(Err("The service cannot accept control messages.".to_string())),
    );
    assert_eq!(
        outcome.unwrap_err(),
        "The service cannot accept control messages."
    );
}

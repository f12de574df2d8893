use robot_fleet::status::WorkerStatus;

#[test]
fn wire_names_are_the_registry_column_values() {
    assert_eq!(WorkerStatus::Idle.wire_name(), "IDLE");
    assert_eq!(WorkerStatus::Busy.wire_name(), "WORKING");
    assert_eq!(WorkerStatus::Faulted.wire_name(), "BROKEN");
}

#[test]
fn wire_names_are_read_back() {
    assert_eq!(WorkerStatus::from_wire_name("IDLE"), Some(WorkerStatus::Idle));
    assert_eq!(WorkerStatus::from_wire_name("WORKING"), Some(WorkerStatus::Busy));
    assert_eq!(WorkerStatus::from_wire_name("BROKEN"), Some(WorkerStatus::Faulted));
}

#[test]
fn every_status_round_trips_through_its_wire_name() {
    for status in [WorkerStatus::Idle, WorkerStatus::Busy, WorkerStatus::Faulted] {
        let name = status.wire_name();
        assert_eq!(WorkerStatus::from_wire_name(&name), Some(status));
    }
}

#[test]
fn unknown_wire_names_are_refused() {
    assert_eq!(WorkerStatus::from_wire_name(""), None);
    assert_eq!(WorkerStatus::from_wire_name("idle"), None);
    assert_eq!(WorkerStatus::from_wire_name("ONLINE"), None);
    assert_eq!(WorkerStatus::from_wire_name("IDLE "), None);
    assert_eq!(WorkerStatus::from_wire_name("Busy"), None);
}

#[test]
fn lifecycle_allows_exactly_four_transitions() {
    let idle = WorkerStatus::Idle;
    let busy = WorkerStatus::Busy;
    let faulted = WorkerStatus::Faulted;
    assert!(idle.allows_transition_to(busy));
    assert!(busy.allows_transition_to(idle));
    assert!(busy.allows_transition_to(faulted));
    assert!(idle.allows_transition_to(faulted));

    assert!(!idle.allows_transition_to(idle));
    assert!(!busy.allows_transition_to(busy));
    assert!(!faulted.allows_transition_to(faulted));
    assert!(!faulted.allows_transition_to(idle));
    assert!(!faulted.allows_transition_to(busy));
}

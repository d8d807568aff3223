use astarte_aggregate::aggregate::AstarteObject;
use astarte_aggregate::event::DataEvent;
use astarte_aggregate::event::Value;
use astarte_aggregate::types::AstarteType;
use astarte_aggregate::validation::baseline_dataset;
use astarte_aggregate::validation::check_property_readback;
use astarte_aggregate::validation::check_set_event;
use astarte_aggregate::validation::check_unset_event;
use astarte_aggregate::validation::overflow_dataset;
use astarte_aggregate::validation::validate_dataset;
use astarte_aggregate::validation::validate_entry;
use astarte_aggregate::validation::AwaitOutcome;
use astarte_aggregate::validation::EntryScript;
use astarte_aggregate::validation::ErrorKind;
use astarte_aggregate::validation::Expectation;
use astarte_aggregate::validation::ReadOutcome;
use astarte_aggregate::validation::ValidationState;
use astarte_aggregate::validation::EVENT_TIMEOUT_MS;

fn set_event(exp: &Expectation) -> DataEvent {
    DataEvent {
        interface: exp.interface.clone(),
        path: exp.path.clone(),
        data: Value::Individual(exp.value.clone()),
    }
}

fn unset_event(exp: &Expectation) -> DataEvent {
    DataEvent {
        interface: exp.interface.clone(),
        path: exp.path.clone(),
        data: Value::Unset,
    }
}

fn clean_script(exp: &Expectation) -> EntryScript {
    EntryScript {
        send_accepted: true,
        set_outcome: AwaitOutcome::Arrived(set_event(exp)),
        readback: ReadOutcome::Read(Some(exp.value.clone())),
        unset_accepted: true,
        unset_outcome: AwaitOutcome::Arrived(unset_event(exp)),
    }
}

#[test]
fn scenario_baseline_dataset_validates() {
    let entries = baseline_dataset();
    assert_eq!(entries.len(), 14);
    let scripts: Vec<EntryScript> = entries.iter().map(clean_script).collect();
    assert!(validate_dataset(&entries, &scripts).is_ok());

    for e in &entries {
        assert_eq!(
            e.interface,
            "org.astarte-platform.rust.e2etest.ServerProperty"
        );
        assert!(e.property);
        assert!(e.path.starts_with("/sensor_1/"));
    }
}

#[test]
fn scenario_overflow_dataset_validates() {
    let entries = overflow_dataset();
    assert_eq!(entries.len(), 2);
    let big = 1i64 << 55;
    assert_eq!(entries[0].value, AstarteType::LongInteger(big));
    assert_eq!(entries[0].path, "/overflow/longinteger_endpoint");
    assert_eq!(entries[1].value, AstarteType::LongIntegerArray(vec![big; 4]));
    assert_eq!(entries[1].path, "/overflow/longintegerarray_endpoint");

    let scripts: Vec<EntryScript> = entries.iter().map(clean_script).collect();
    assert!(validate_dataset(&entries, &scripts).is_ok());
}

#[test]
fn overflow_narrowing_is_detected() {
    let entries = overflow_dataset();
    let exp = &entries[0];
    let big = 1i64 << 55;

    // An observer that narrowed the payload by one unit past the exact
    // double range must be caught as a type mismatch.
    let narrowed = DataEvent {
        interface: exp.interface.clone(),
        path: exp.path.clone(),
        data: Value::Individual(AstarteType::LongInteger(big + 1)),
    };
    let r = check_set_event(exp, &AwaitOutcome::Arrived(narrowed));
    assert_eq!(r.unwrap_err().kind, ErrorKind::TypeMismatch);

    let exact = check_set_event(exp, &AwaitOutcome::Arrived(set_event(exp)));
    assert_eq!(exact.unwrap(), ValidationState::AwaitPropertyReadback);
}

#[test]
fn timeout_is_distinct_from_mismatch() {
    assert_eq!(EVENT_TIMEOUT_MS, 2000);
    let entries = baseline_dataset();
    let exp = &entries[0];

    let r = check_set_event(exp, &AwaitOutcome::TimedOut);
    assert_eq!(r.unwrap_err().kind, ErrorKind::Timeout);

    let r = check_unset_event(exp, &AwaitOutcome::TimedOut);
    assert_eq!(r.unwrap_err().kind, ErrorKind::Timeout);
}

#[test]
fn mismatched_route_is_protocol_mismatch() {
    let entries = baseline_dataset();
    let exp = &entries[0];

    let mut wrong_interface = set_event(exp);
    wrong_interface.interface = "org.astarte-platform.rust.e2etest.Other".to_string();
    let r = check_set_event(exp, &AwaitOutcome::Arrived(wrong_interface));
    let e = r.unwrap_err();
    assert_eq!(e.kind, ErrorKind::ProtocolMismatch);
    assert_eq!(e.interface, exp.interface);
    assert_eq!(e.path, exp.path);

    let mut wrong_path = unset_event(exp);
    wrong_path.path = "/sensor_2/boolean_endpoint".to_string();
    let r = check_unset_event(exp, &AwaitOutcome::Arrived(wrong_path));
    assert_eq!(r.unwrap_err().kind, ErrorKind::ProtocolMismatch);
}

#[test]
fn wrong_shape_is_type_mismatch() {
    let entries = baseline_dataset();
    let exp = &entries[0];

    // An object datum where an individual one was expected.
    let object_event = DataEvent {
        interface: exp.interface.clone(),
        path: exp.path.clone(),
        data: Value::Object(AstarteObject::new()),
    };
    let r = check_set_event(exp, &AwaitOutcome::Arrived(object_event));
    assert_eq!(r.unwrap_err().kind, ErrorKind::TypeMismatch);

    // A still-set value where the unset marker was expected.
    let r = check_unset_event(exp, &AwaitOutcome::Arrived(set_event(exp)));
    assert_eq!(r.unwrap_err().kind, ErrorKind::TypeMismatch);
}

#[test]
fn missing_property_and_transport_failures() {
    let entries = baseline_dataset();
    let exp = &entries[0];

    let r = check_property_readback(exp, &ReadOutcome::Read(None));
    assert_eq!(r.unwrap_err().kind, ErrorKind::MissingProperty);

    let r = check_property_readback(exp, &ReadOutcome::Read(Some(AstarteType::Boolean(false))));
    assert_eq!(r.unwrap_err().kind, ErrorKind::TypeMismatch);

    let r = check_property_readback(exp, &ReadOutcome::Failed);
    assert_eq!(r.unwrap_err().kind, ErrorKind::Transport);

    let mut script = clean_script(exp);
    script.send_accepted = false;
    assert_eq!(validate_entry(exp, &script).unwrap_err().kind, ErrorKind::Transport);

    let mut script = clean_script(exp);
    script.set_outcome = AwaitOutcome::Failed;
    assert_eq!(validate_entry(exp, &script).unwrap_err().kind, ErrorKind::Transport);

    let mut script = clean_script(exp);
    script.unset_accepted = false;
    assert_eq!(validate_entry(exp, &script).unwrap_err().kind, ErrorKind::Transport);
}

#[test]
fn first_failing_tuple_aborts_the_run() {
    let entries = baseline_dataset();
    let mut scripts: Vec<EntryScript> = entries.iter().map(clean_script).collect();
    scripts[3].readback = ReadOutcome::Read(None);

    let e = validate_dataset(&entries, &scripts).unwrap_err();
    assert_eq!(e.kind, ErrorKind::MissingProperty);
    assert_eq!(e.path, entries[3].path);
    assert_eq!(e.interface, entries[3].interface);
}

#[test]
fn unset_event_completes_the_tuple() {
    let entries = baseline_dataset();
    let exp = &entries[0];

    let r = check_unset_event(exp, &AwaitOutcome::Arrived(unset_event(exp)));
    assert_eq!(r.unwrap(), ValidationState::Done);

    // After the unset, a property read must find nothing; the protocol
    // treats a value found there as a failure of the next tuple's readback.
    let r = check_property_readback(exp, &ReadOutcome::Read(None));
    assert!(r.is_err());
}

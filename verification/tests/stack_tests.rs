use nitrogen::errors::Error;
use nitrogen::stack::{
    classify, flatten_parameters, handle_create_response, poll_step, read_outputs, resolve_target,
    OperationKind, Outcome, PollDecision, StackParameters, StackStatus,
};

#[test]
fn classify_create_complete_is_success() {
    let r = classify(OperationKind::Create, StackStatus::CreateComplete, String::new());
    assert!(matches!(r, Outcome::Success));
}

#[test]
fn classify_create_failed_carries_reason() {
    let r = classify(
        OperationKind::Create,
        StackStatus::CreateFailed,
        "rollback".to_string(),
    );
    match r {
        Outcome::Failure { reason } => assert_eq!(reason, "rollback"),
        _ => panic!("expected a failure outcome"),
    }
}

#[test]
fn classify_delete_complete_is_success() {
    let r = classify(OperationKind::Delete, StackStatus::DeleteComplete, String::new());
    assert!(matches!(r, Outcome::Success));
}

#[test]
fn classify_delete_failed_is_failure() {
    let r = classify(OperationKind::Delete, StackStatus::DeleteFailed, "busy".to_string());
    assert!(matches!(r, Outcome::Failure { .. }));
}

#[test]
fn classify_other_status_is_unexpected_verbatim() {
    let r = classify(
        OperationKind::Create,
        StackStatus::Other("ROLLBACK_COMPLETE".to_string()),
        "gone wrong".to_string(),
    );
    match r {
        Outcome::UnexpectedStatus { status, reason } => {
            match status {
                StackStatus::Other(s) => assert_eq!(s, "ROLLBACK_COMPLETE"),
                _ => panic!("expected the verbatim status"),
            }
            assert_eq!(reason, "gone wrong");
        }
        _ => panic!("expected an unexpected-status outcome"),
    }
}

#[test]
fn classify_cross_kind_terminal_is_unexpected() {
    let r = classify(OperationKind::Create, StackStatus::DeleteComplete, String::new());
    assert!(matches!(r, Outcome::UnexpectedStatus { .. }));
}

#[test]
fn poll_keeps_waiting_while_in_progress() {
    let r = poll_step(OperationKind::Create, StackStatus::CreateInProgress, String::new());
    assert!(matches!(r, PollDecision::KeepWaiting));
    let r = poll_step(OperationKind::Delete, StackStatus::DeleteInProgress, String::new());
    assert!(matches!(r, PollDecision::KeepWaiting));
}

#[test]
fn poll_settles_on_cross_kind_in_progress() {
    // A delete's in-progress status is terminal for a create poll.
    let r = poll_step(OperationKind::Create, StackStatus::DeleteInProgress, String::new());
    assert!(matches!(
        r,
        PollDecision::Settled { outcome: Outcome::UnexpectedStatus { .. } }
    ));
}

#[test]
fn create_settles_after_exactly_three_polls() {
    // Polled statuses: in progress, in progress, complete.
    let observed = vec![
        StackStatus::CreateInProgress,
        StackStatus::CreateInProgress,
        StackStatus::CreateComplete,
    ];
    let mut polls = 0;
    let mut settled: Option<Outcome> = None;
    for status in observed {
        polls += 1;
        match poll_step(OperationKind::Create, status, String::new()) {
            PollDecision::KeepWaiting => continue,
            PollDecision::Settled { outcome } => {
                settled = Some(outcome);
                break;
            }
        }
    }
    assert_eq!(polls, 3);
    assert!(matches!(settled, Some(Outcome::Success)));
}

#[test]
fn create_response_with_id_yields_handle() {
    let r = handle_create_response(Some("arn:stack/abc".to_string()));
    assert_eq!(r.unwrap().id, "arn:stack/abc");
}

#[test]
fn create_response_without_id_is_missing_identity() {
    let r = handle_create_response(None);
    assert!(matches!(r, Err(Error::MissingIdentityError)));
}

#[test]
fn read_outputs_round_trips_pairs_in_either_order() {
    let forward = vec![
        ("PublicDNS".to_string(), "h.example".to_string()),
        ("InstanceId".to_string(), "i-1".to_string()),
    ];
    let backward = vec![
        ("InstanceId".to_string(), "i-1".to_string()),
        ("PublicDNS".to_string(), "h.example".to_string()),
    ];
    for entries in [forward, backward] {
        let outputs = read_outputs(entries, "PublicDNS").unwrap();
        assert_eq!(outputs.get("PublicDNS").unwrap(), "h.example");
        assert_eq!(outputs.get("InstanceId").unwrap(), "i-1");
    }
}

#[test]
fn read_outputs_missing_key_is_reported() {
    let entries = vec![("InstanceId".to_string(), "i-1".to_string())];
    let r = read_outputs(entries, "PublicDNS");
    match r {
        Err(Error::MissingOutputError { key }) => assert_eq!(key, "PublicDNS"),
        _ => panic!("expected the missing key to be reported"),
    }
}

#[test]
fn resolve_target_takes_first_address_match() {
    let entries = vec![
        ("InstanceId".to_string(), "i-1".to_string()),
        ("PublicDNS".to_string(), "first.example".to_string()),
        ("PublicDNS".to_string(), "second.example".to_string()),
    ];
    let outputs = read_outputs(entries, "PublicDNS").unwrap();
    assert_eq!(resolve_target(&outputs).unwrap(), "first.example");
}

#[test]
fn resolve_target_without_address_fails() {
    let entries = vec![("InstanceId".to_string(), "i-1".to_string())];
    let outputs = read_outputs(entries, "InstanceId").unwrap();
    assert!(matches!(resolve_target(&outputs), Err(Error::NoAddressError)));
}

#[test]
fn parameters_flatten_to_named_pairs() {
    let p = StackParameters {
        name: "enclave-1".to_string(),
        instance_type: "m5a.xlarge".to_string(),
        port: 5000,
        public_key: "ssh-rsa AAAA".to_string(),
        ssh_location: "0.0.0.0/0".to_string(),
    };
    let pairs = flatten_parameters(&p);
    assert_eq!(
        pairs,
        vec![
            ("InstanceName".to_string(), "enclave-1".to_string()),
            ("InstanceType".to_string(), "m5a.xlarge".to_string()),
            ("Port".to_string(), "5000".to_string()),
            ("PublicKey".to_string(), "ssh-rsa AAAA".to_string()),
            ("SSHLocation".to_string(), "0.0.0.0/0".to_string()),
        ]
    );
}

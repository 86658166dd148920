use dia_ocw::recorder::{DispatchError, Ledger, Origin, ensure_signed};

#[test]
fn submit_valid_payload_records_value() {
    let mut ledger = Ledger::new();
    let payload: Vec<u8> = b"50000.12".to_vec();
    let result = ledger.submit_data(Origin::Signed(1), payload.clone());
    assert_eq!(result, Ok(()));
    assert_eq!(ledger.data(), &payload);
    let events = ledger.events();
    assert_eq!(events.len(), 1);
    assert_eq!(events[0].payload, payload);
    assert_eq!(events[0].submitter, 1);
}

#[test]
fn submit_empty_payload_is_recorded() {
    let mut ledger = Ledger::new();
    let result = ledger.submit_data(Origin::Signed(2), Vec::new());
    assert_eq!(result, Ok(()));
    assert_eq!(ledger.data().len(), 0);
    assert_eq!(ledger.events().len(), 1);
}

#[test]
fn submit_non_utf8_payload_rejected() {
    let mut ledger = Ledger::new();
    let bad: Vec<u8> = vec![0xff, 0xfe, 0xfd];
    let result = ledger.submit_data(Origin::Signed(1), bad);
    assert_eq!(result, Err(DispatchError::BadOrigin));
    assert_eq!(ledger.data().len(), 0);
    assert_eq!(ledger.events().len(), 0);
}

#[test]
fn submit_lone_continuation_byte_rejected() {
    let mut ledger = Ledger::new();
    let result = ledger.submit_data(Origin::Signed(1), vec![0x80]);
    assert_eq!(result, Err(DispatchError::BadOrigin));
    assert_eq!(ledger.events().len(), 0);
}

#[test]
fn submit_unsigned_origin_rejected() {
    let mut ledger = Ledger::new();
    let payload: Vec<u8> = b"50000.12".to_vec();
    let result = ledger.submit_data(Origin::Unsigned, payload);
    assert_eq!(result, Err(DispatchError::BadOrigin));
    assert_eq!(ledger.data().len(), 0);
    assert_eq!(ledger.events().len(), 0);
}

#[test]
fn submit_root_origin_rejected() {
    let mut ledger = Ledger::new();
    let payload: Vec<u8> = b"50000.12".to_vec();
    let result = ledger.submit_data(Origin::Root, payload);
    assert_eq!(result, Err(DispatchError::BadOrigin));
    assert_eq!(ledger.events().len(), 0);
}

#[test]
fn resubmission_appends_two_events() {
    let mut ledger = Ledger::new();
    let payload: Vec<u8> = b"50000.12".to_vec();

    let first = ledger.submit_data(Origin::Signed(5), payload.clone());
    assert_eq!(first, Ok(()));
    assert_eq!(ledger.data(), &payload);

    let second = ledger.submit_data(Origin::Signed(5), payload.clone());
    assert_eq!(second, Ok(()));
    assert_eq!(ledger.data(), &payload);

    let events = ledger.events();
    assert_eq!(events.len(), 2);
    assert_eq!(events[0].payload, payload);
    assert_eq!(events[0].submitter, 5);
    assert_eq!(events[1].payload, payload);
    assert_eq!(events[1].submitter, 5);
}

#[test]
fn accepted_submission_overwrites_previous_value() {
    let mut ledger = Ledger::new();
    assert_eq!(ledger.submit_data(Origin::Signed(1), b"100.0".to_vec()), Ok(()));
    assert_eq!(ledger.submit_data(Origin::Signed(2), b"200.0".to_vec()), Ok(()));
    assert_eq!(ledger.data(), &b"200.0".to_vec());
    assert_eq!(ledger.events().len(), 2);
    assert_eq!(ledger.events()[1].submitter, 2);
}

#[test]
fn rejected_submission_keeps_previous_value() {
    let mut ledger = Ledger::new();
    assert_eq!(ledger.submit_data(Origin::Signed(1), b"100.0".to_vec()), Ok(()));
    assert_eq!(ledger.submit_data(Origin::Signed(1), vec![0xc3, 0x28]), Err(DispatchError::BadOrigin));
    assert_eq!(ledger.data(), &b"100.0".to_vec());
    assert_eq!(ledger.events().len(), 1);
}

#[test]
fn ensure_signed_resolves_signed_account() {
    assert_eq!(ensure_signed(Origin::Signed(9)), Ok(9));
    assert_eq!(ensure_signed(Origin::Root), Err(DispatchError::BadOrigin));
    assert_eq!(ensure_signed(Origin::Unsigned), Err(DispatchError::BadOrigin));
}

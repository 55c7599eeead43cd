use asset_import::batch::Batch;
use asset_import::batch::LookupEvent;
use asset_import::batch::RecordOutcome;
use asset_import::batch::RowInput;
use asset_import::batch::Step;
use asset_import::batch::UploadEvent;
use asset_import::payload::AssetRecord;

fn record(name: &str, asset_type: &str, location: &str) -> AssetRecord {
    AssetRecord {
        location: location.to_string(),
        name: name.to_string(),
        lifecycle_state: "".to_string(),
        asset_type: asset_type.to_string(),
        model_id: "M1".to_string(),
        serial_number: "SN123".to_string(),
        asset_tag: "".to_string(),
        rack_u_location: None,
        rack_side: None,
        rack_position: None,
    }
}

#[test]
fn resolver_request_for_server_row() {
    let rows = vec![RowInput::Parsed(record("srv1", "server", "DC1/RoomA/Rack01"))];
    let mut b = Batch::new(rows);
    match b.next_step() {
        Step::Lookup { entity_type, body } => {
            assert_eq!(entity_type, "Rack");
            assert!(body.contains("\"assetType\":\"Rack\""));
            assert!(body.contains("\"tabDelimitedPath\":\"DC1\\tRoomA*\""));
            assert!(body.contains("\"query\":\"\\\"Rack01\\\"\""));
        }
        _ => panic!("expected a lookup step"),
    }
}

#[test]
fn rack_row_resolves_against_locations() {
    let rows = vec![RowInput::Parsed(record("r1", "rack", "DC1/RoomA"))];
    let mut b = Batch::new(rows);
    match b.next_step() {
        Step::Lookup { entity_type, .. } => assert_eq!(entity_type, "Location"),
        _ => panic!("expected a lookup step"),
    }
}

#[test]
fn document_omits_tag_and_defaults_lifecycle() {
    let rows = vec![RowInput::Parsed(record("srv1", "server", "DC1/RoomA/Rack01"))];
    let mut b = Batch::new(rows);
    match b.next_step() {
        Step::Lookup { .. } => {}
        _ => panic!("expected a lookup step"),
    }
    b.lookup_result(LookupEvent::Results(vec!["\"P1\"".to_string()]));
    match b.next_step() {
        Step::Upload { body } => {
            assert!(body.contains("\"parentId\":\"P1\""));
            assert!(body.contains("\"assetLifecycleState\":\"0\""));
            assert!(!body.contains("assetTag"));
        }
        _ => panic!("expected an upload step"),
    }
}

#[test]
fn empty_results_still_build_and_upload_fails_remotely() {
    let rows = vec![RowInput::Parsed(record("srv1", "server", "DC1/RoomA/Rack01"))];
    let mut b = Batch::new(rows);
    match b.next_step() {
        Step::Lookup { .. } => {}
        _ => panic!("expected a lookup step"),
    }
    b.lookup_result(LookupEvent::Results(Vec::new()));
    match b.next_step() {
        Step::Upload { body } => {
            assert!(body.contains("\"parentId\":\"\""));
        }
        _ => panic!("expected an upload step"),
    }
    b.upload_result(UploadEvent::Rejected("status 400".to_string()));
    match b.next_step() {
        Step::Done => {}
        _ => panic!("expected the batch to be done"),
    }
    assert!(b.done());
    let outcomes = b.outcomes();
    assert_eq!(outcomes.len(), 1);
    assert!(matches!(outcomes[0], RecordOutcome::UploadFailed(_)));
}

#[test]
fn failures_do_not_stop_later_rows() {
    let rows = vec![
        RowInput::Parsed(record("a", "server", "DC1/R1/K1")),
        RowInput::Parsed(record("b", "server", "DC1/R1/K2")),
        RowInput::Malformed("row 3: missing serial_number".to_string()),
        RowInput::Parsed(record("d", "server", "DC1/R1/K3")),
    ];
    let mut b = Batch::new(rows);
    let mut guard: u32 = 0;
    loop {
        guard += 1;
        assert!(guard < 100, "batch did not finish");
        match b.next_step() {
            Step::Done => break,
            Step::Lookup { .. } => {
                // fail the second row's lookup, answer the others
                if b.outcomes().len() == 1 {
                    b.lookup_result(LookupEvent::Failed("connection refused".to_string()));
                } else {
                    b.lookup_result(LookupEvent::Results(vec!["\"P1\"".to_string()]));
                }
            }
            Step::Upload { .. } => {
                b.upload_result(UploadEvent::Accepted("{\"id\":7}".to_string()));
            }
        }
    }
    assert!(b.done());
    let outcomes = b.outcomes();
    assert_eq!(outcomes.len(), 4);
    assert!(matches!(outcomes[0], RecordOutcome::Uploaded(_)));
    assert!(matches!(outcomes[1], RecordOutcome::LookupFailed(_)));
    assert!(matches!(outcomes[2], RecordOutcome::RecordParseError(_)));
    assert!(matches!(outcomes[3], RecordOutcome::Uploaded(_)));
}

#[test]
fn all_malformed_rows_each_get_an_outcome() {
    let rows = vec![
        RowInput::Malformed("row 1 bad".to_string()),
        RowInput::Malformed("row 2 bad".to_string()),
    ];
    let mut b = Batch::new(rows);
    match b.next_step() {
        Step::Done => {}
        _ => panic!("expected the batch to be done"),
    }
    assert_eq!(b.outcomes().len(), 2);
    assert_eq!(b.row_count(), 2);
    assert!(matches!(b.outcomes()[0], RecordOutcome::RecordParseError(_)));
    assert!(matches!(b.outcomes()[1], RecordOutcome::RecordParseError(_)));
}

#[test]
fn empty_batch_is_done_at_once() {
    let mut b = Batch::new(Vec::new());
    match b.next_step() {
        Step::Done => {}
        _ => panic!("expected the batch to be done"),
    }
    assert!(b.done());
    assert_eq!(b.outcomes().len(), 0);
}

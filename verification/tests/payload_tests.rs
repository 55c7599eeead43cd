use asset_import::payload::build_document;
use asset_import::payload::render_document;
use asset_import::payload::AssetRecord;

fn server_record() -> AssetRecord {
    AssetRecord {
        location: "DC1/RoomA/Rack01".to_string(),
        name: "srv1".to_string(),
        lifecycle_state: "".to_string(),
        asset_type: "server".to_string(),
        model_id: "M1".to_string(),
        serial_number: "SN123".to_string(),
        asset_tag: "".to_string(),
        rack_u_location: None,
        rack_side: None,
        rack_position: None,
    }
}

#[test]
fn empty_asset_tag_is_omitted() {
    let d = build_document(&server_record(), "P1");
    assert_eq!(d.properties.len(), 1);
    assert_eq!(d.properties[0].kind, "serialNumber");
    assert_eq!(d.properties[0].value, "SN123");
}

#[test]
fn nonempty_asset_tag_is_included_exactly() {
    let mut r = server_record();
    r.asset_tag = "T-99".to_string();
    let d = build_document(&r, "P1");
    assert_eq!(d.properties.len(), 2);
    assert_eq!(d.properties[1].kind, "assetTag");
    assert_eq!(d.properties[1].value, "T-99");
}

#[test]
fn empty_lifecycle_state_defaults_to_zero() {
    let d = build_document(&server_record(), "P1");
    assert_eq!(d.asset_lifecycle_state, "0");
}

#[test]
fn nonempty_lifecycle_state_is_kept() {
    let mut r = server_record();
    r.lifecycle_state = "3".to_string();
    let d = build_document(&r, "P1");
    assert_eq!(d.asset_lifecycle_state, "3");
}

#[test]
fn no_rack_fields_no_location_data() {
    let d = build_document(&server_record(), "P1");
    assert!(d.location_data.is_none());
    assert_eq!(d.parent_id, "P1");
}

#[test]
fn rack_fields_are_lowercased_in_location_data() {
    let mut r = server_record();
    r.rack_side = Some("LEFT".to_string());
    r.rack_u_location = Some("U12".to_string());
    let d = build_document(&r, "P1");
    let l = d.location_data.as_ref().expect("location data expected");
    assert_eq!(l.parent_id, "P1");
    assert_eq!(l.rack_side.as_deref(), Some("left"));
    assert_eq!(l.rack_u_location.as_deref(), Some("u12"));
    assert!(l.rack_position.is_none());
}

#[test]
fn rendered_document_without_placement() {
    let d = build_document(&server_record(), "P1");
    let body = render_document(&d);
    let expected = "{\"name\":\"srv1\",\"status\":0,\"assetTypeId\":\"server\",\"parentId\":\"P1\",\"assetLifecycleState\":\"0\",\"productId\":\"M1\",\"creatableAssetProperties\":[{\"type\":\"serialNumber\",\"value\":\"SN123\"}]}";
    assert_eq!(body, expected);
}

#[test]
fn rendered_document_with_tag_and_placement() {
    let mut r = server_record();
    r.asset_tag = "T9".to_string();
    r.lifecycle_state = "2".to_string();
    r.rack_side = Some("Left".to_string());
    r.rack_position = Some("Front".to_string());
    let d = build_document(&r, "P7");
    let body = render_document(&d);
    let expected = "{\"name\":\"srv1\",\"status\":0,\"assetTypeId\":\"server\",\"parentId\":\"P7\",\"assetLifecycleState\":\"2\",\"productId\":\"M1\",\"creatableAssetProperties\":[{\"type\":\"serialNumber\",\"value\":\"SN123\"},{\"type\":\"assetTag\",\"value\":\"T9\"}],\"locationData\":{\"parentId\":\"P7\",\"rackSide\":\"left\",\"rackPosition\":\"front\"}}";
    assert_eq!(body, expected);
}

#[test]
fn rendered_document_escapes_special_characters() {
    let mut r = server_record();
    r.name = "a\"b\\c\td".to_string();
    let d = build_document(&r, "");
    let body = render_document(&d);
    assert!(body.starts_with("{\"name\":\"a\\\"b\\\\c\\td\","));
}

#[test]
fn rendered_document_escapes_control_characters() {
    let mut r = server_record();
    r.name = "a\nb\r\u{1}\u{1f}".to_string();
    let d = build_document(&r, "");
    let body = render_document(&d);
    assert!(body.starts_with("{\"name\":\"a\\nb\\r\\u0001\\u001f\","));
}

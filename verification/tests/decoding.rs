use cactive_hypixel_api::envelope::{
    decode_key_data, decode_nickname_history, decode_player_data, decode_punishment_data,
    decode_staff_tracker,
};

#[test]
fn success_nickname_history_envelope() {
    let body = r#"{"success":true,"id":"x","data":[{"uuid":"u1","nickname":"n1","active":true,"created_at":"t1","voided_at":"t2"}],"errors":null}"#;
    let data = decode_nickname_history(body).expect("success envelope must decode");
    assert_eq!(data.len(), 1);
    assert_eq!(data[0].uuid, "u1");
    assert_eq!(data[0].nickname, "n1");
    assert!(data[0].active);
    assert_eq!(data[0].created_at, "t1");
    assert_eq!(data[0].voided_at, "t2");
}

#[test]
fn failing_envelope_normalizes_reported_error() {
    let body = r#"{"success":false,"id":"x","data":null,"errors":[{"type":"invalid-key","code":401,"message":"bad key"}]}"#;
    let errs = decode_nickname_history(body).expect_err("failing envelope must yield errors");
    assert_eq!(errs.len(), 1);
    assert_eq!(errs[0].error_type, "invalid-key");
    assert_eq!(errs[0].code, 401);
    assert_eq!(errs[0].message, "bad key");
    assert!(!errs[0].internal);
}

#[test]
fn failing_envelope_normalizes_on_every_operation() {
    let body = r#"{"success":false,"id":"x","data":null,"errors":[{"type":"invalid-key","code":401,"message":"bad key"}]}"#;
    let errs = decode_key_data(body).expect_err("failing envelope must yield errors");
    assert_eq!(errs.len(), 1);
    assert_eq!(errs[0].error_type, "invalid-key");
    assert!(!errs[0].internal);
    let errs = decode_punishment_data(body).expect_err("failing envelope must yield errors");
    assert_eq!(errs.len(), 1);
    assert_eq!(errs[0].code, 401);
    let errs = decode_staff_tracker(body).expect_err("failing envelope must yield errors");
    assert_eq!(errs.len(), 1);
    assert_eq!(errs[0].message, "bad key");
    let errs = decode_player_data(body).expect_err("failing envelope must yield errors");
    assert_eq!(errs.len(), 1);
    assert!(!errs[0].internal);
}

#[test]
fn reported_errors_keep_length_and_order() {
    let body = r#"{"success":false,"id":"x","data":null,"errors":[{"type":"a","code":1,"message":"first"},{"type":"b","code":2,"message":"second"}]}"#;
    let errs = decode_nickname_history(body).expect_err("failing envelope must yield errors");
    assert_eq!(errs.len(), 2);
    assert_eq!(errs[0].error_type, "a");
    assert_eq!(errs[0].message, "first");
    assert_eq!(errs[1].error_type, "b");
    assert_eq!(errs[1].code, 2);
    assert_eq!(errs[1].message, "second");
    assert!(!errs[0].internal && !errs[1].internal);
}

#[test]
fn unparsable_body_yields_single_internal_error() {
    let errs = decode_nickname_history("not json at all").expect_err("must not decode");
    assert_eq!(errs.len(), 1);
    assert!(errs[0].internal);
    assert_eq!(errs[0].code, 500);
    assert_eq!(errs[0].error_type, "failed-api-request");
    assert!(!errs[0].message.is_empty());
}

#[test]
fn wrong_envelope_shape_yields_single_internal_error() {
    let errs = decode_nickname_history(r#"[1,2,3]"#).expect_err("must not decode");
    assert_eq!(errs.len(), 1);
    assert!(errs[0].internal);
    assert_eq!(errs[0].code, 500);
    assert_eq!(errs[0].error_type, "failed-api-request");
}

#[test]
fn success_without_data_is_a_decode_error() {
    let body = r#"{"success":true,"id":"x","data":null,"errors":null}"#;
    let errs = decode_nickname_history(body).expect_err("contradictory envelope must fail");
    assert_eq!(errs.len(), 1);
    assert!(errs[0].internal);
    assert_eq!(errs[0].code, 500);
}

#[test]
fn failure_without_errors_is_a_decode_error() {
    let body = r#"{"success":false,"id":"x","data":null,"errors":null}"#;
    let errs = decode_nickname_history(body).expect_err("contradictory envelope must fail");
    assert_eq!(errs.len(), 1);
    assert!(errs[0].internal);
    assert_eq!(errs[0].code, 500);
}

#[test]
fn player_data_maps_optional_fields_to_absent() {
    let body = r#"{"success":true,"id":"x","data":{"uuid":"u","nickname_history":[{"nickname":"n","active":null,"created_at":"c"}],"infractions":[],"tracker":{},"ip_history":null},"errors":null}"#;
    let p = decode_player_data(body).expect("success envelope must decode");
    assert_eq!(p.uuid, "u");
    assert_eq!(p.nickname_history.len(), 1);
    assert_eq!(p.nickname_history[0].nickname, "n");
    assert_eq!(p.nickname_history[0].active, None);
    assert_eq!(p.nickname_history[0].created_at, "c");
    assert_eq!(p.nickname_history[0].voided_at, None);
    assert!(p.infractions.is_empty());
    assert_eq!(p.tracker.server, None);
    assert_eq!(p.tracker.map, None);
    assert_eq!(p.tracker.proxy, None);
    assert_eq!(p.tracker.last_login, None);
    assert!(p.ip_history.is_none());
}

#[test]
fn player_data_keeps_present_optional_fields() {
    let body = r#"{"success":true,"id":"x","data":{"uuid":"u","nickname_history":[],"infractions":[{"id":"i1","punishment_type":"ban","executor":"staff","reason":"r","length":604800}],"tracker":{"server":"s","map":"m","proxy":"p","last_login":"l"},"ip_history":[{"ip":"1.2.3.4","login_at":"a","logout_at":null,"connection_proxy":"cp"}]},"errors":null}"#;
    let p = decode_player_data(body).expect("success envelope must decode");
    assert_eq!(p.infractions.len(), 1);
    assert_eq!(p.infractions[0].executor.as_deref(), Some("staff"));
    assert_eq!(p.infractions[0].length, Some(604800));
    assert_eq!(p.tracker.server.as_deref(), Some("s"));
    assert_eq!(p.tracker.map.as_deref(), Some("m"));
    let ips = p.ip_history.expect("ip history present");
    assert_eq!(ips.len(), 1);
    assert_eq!(ips[0].ip, "1.2.3.4");
    assert_eq!(ips[0].logout_at, None);
    assert_eq!(ips[0].connection_proxy.as_deref(), Some("cp"));
}

#[test]
fn player_data_missing_required_field_is_a_decode_error() {
    let body = r#"{"success":true,"id":"x","data":{"uuid":"u","infractions":[],"tracker":{},"ip_history":null},"errors":null}"#;
    let errs = decode_player_data(body).expect_err("missing nickname_history must fail");
    assert_eq!(errs.len(), 1);
    assert!(errs[0].internal);
}

#[test]
fn staff_tracker_decodes_optional_online_flag() {
    let body = r#"{"success":true,"id":"x","data":[{"uuid":"u1","rank":"admin","online":true},{"uuid":"u2","rank":"helper","online":null},{"uuid":"u3","rank":"mod"}],"errors":null}"#;
    let staff = decode_staff_tracker(body).expect("success envelope must decode");
    assert_eq!(staff.len(), 3);
    assert_eq!(staff[0].online, Some(true));
    assert_eq!(staff[1].online, None);
    assert_eq!(staff[2].online, None);
    assert_eq!(staff[2].rank, "mod");
}

#[test]
fn punishment_decodes_with_and_without_length() {
    let body = r#"{"success":true,"id":"x","data":{"id":"C256D602","punishment_type":"ban","uuid":"u","executor":null,"reason":"r","length":604800},"errors":null}"#;
    let p = decode_punishment_data(body).expect("success envelope must decode");
    assert_eq!(p.id, "C256D602");
    assert_eq!(p.executor, None);
    assert_eq!(p.length, Some(604800));
    let body = r#"{"success":true,"id":"x","data":{"id":"A","punishment_type":"mute","uuid":"u","executor":"e","reason":"r"},"errors":null}"#;
    let p = decode_punishment_data(body).expect("success envelope must decode");
    assert_eq!(p.executor.as_deref(), Some("e"));
    assert_eq!(p.length, None);
}

#[test]
fn key_data_decodes_endpoints_and_negative_version() {
    let body = r#"{"success":true,"id":"x","data":{"key":"k","valid":true,"active":false,"created_at":"c","expires_at":null,"endpoints":[{"id":"e1","version":-1,"status":true},{"id":"e2","version":3,"status":false}]},"errors":null}"#;
    let k = decode_key_data(body).expect("success envelope must decode");
    assert_eq!(k.key, "k");
    assert!(k.valid);
    assert!(!k.active);
    assert_eq!(k.created_at.as_deref(), Some("c"));
    assert_eq!(k.expires_at, None);
    assert_eq!(k.owner_cactiveconnections_id, None);
    assert_eq!(k.endpoints.len(), 2);
    assert_eq!(k.endpoints[0].version, -1);
    assert!(k.endpoints[0].status);
    assert_eq!(k.endpoints[1].id, "e2");
    assert_eq!(k.endpoints[1].version, 3);
}

#[test]
fn error_code_out_of_range_is_a_decode_error() {
    let body = r#"{"success":false,"id":"x","data":null,"errors":[{"type":"t","code":70000,"message":"m"}]}"#;
    let errs = decode_nickname_history(body).expect_err("must not decode");
    assert_eq!(errs.len(), 1);
    assert!(errs[0].internal);
    assert_eq!(errs[0].code, 500);
}

#[test]
fn unknown_fields_are_ignored() {
    let body = r#"{"success":true,"id":"x","extra":1.5,"data":[],"errors":null,"more":{"a":[]}}"#;
    let data = decode_nickname_history(body).expect("unknown fields must not break decoding");
    assert!(data.is_empty());
}

#[test]
fn wrong_payload_type_is_a_decode_error() {
    let body = r#"{"success":true,"id":"x","data":{"uuid":"u"},"errors":null}"#;
    let errs = decode_nickname_history(body).expect_err("object payload is not a list");
    assert_eq!(errs.len(), 1);
    assert!(errs[0].internal);
}

#[test]
fn failing_envelope_with_empty_errors_yields_empty_list() {
    let body = r#"{"success":false,"id":"x","data":null,"errors":[]}"#;
    let errs = decode_nickname_history(body).expect_err("failing envelope must yield Err");
    assert!(errs.is_empty());
}

#[test]
fn endpoint_version_out_of_range_is_a_decode_error() {
    let body = r#"{"success":true,"id":"x","data":{"key":"k","valid":true,"active":true,"endpoints":[{"id":"e","version":128,"status":true}]},"errors":null}"#;
    let errs = decode_key_data(body).expect_err("version beyond i8 must fail");
    assert_eq!(errs.len(), 1);
    assert!(errs[0].internal);
}

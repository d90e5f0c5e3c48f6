use cactive_hypixel_api::client::Client;
use cactive_hypixel_api::error::{APIError, InternalError};

#[test]
fn transport_failure_maps_to_single_internal_error() {
    let errs = Client::map_internal_error("connection refused".to_owned());
    assert_eq!(errs.len(), 1);
    assert!(errs[0].internal);
    assert_eq!(errs[0].code, 500);
    assert_eq!(errs[0].error_type, "failed-api-request");
    assert_eq!(errs[0].message, "connection refused");
}

#[test]
fn external_errors_map_verbatim_in_order() {
    let reported = vec![
        APIError { error_type: "invalid-key".to_owned(), code: 401, message: "bad key".to_owned() },
        APIError { error_type: "rate-limit".to_owned(), code: 429, message: "slow down".to_owned() },
    ];
    let errs = Client::map_external_error(reported);
    assert_eq!(errs.len(), 2);
    assert_eq!(errs[0].error_type, "invalid-key");
    assert_eq!(errs[0].code, 401);
    assert_eq!(errs[0].message, "bad key");
    assert!(!errs[0].internal);
    assert_eq!(errs[1].error_type, "rate-limit");
    assert_eq!(errs[1].code, 429);
    assert_eq!(errs[1].message, "slow down");
    assert!(!errs[1].internal);
}

#[test]
fn external_error_converts_with_internal_false() {
    let e = APIError { error_type: "t".to_owned(), code: 7, message: "m".to_owned() };
    let n = InternalError::from(e);
    assert_eq!(n.error_type, "t");
    assert_eq!(n.code, 7);
    assert_eq!(n.message, "m");
    assert!(!n.internal);
}

#[test]
fn empty_external_error_list_maps_to_empty_list() {
    let errs = Client::map_external_error(Vec::new());
    assert!(errs.is_empty());
}

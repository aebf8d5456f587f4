use jhapi::access::{
    authcheck_answer, caller_id, choose_api_key, creation_error_status, lookup_error_status, may_access_user,
    store_list_subject, store_update_allowed, ApiKey,
};
use jhapi::errors::APIError;
use jhapi::images::{
    centering_offset, image_request_named, local_image_path, remote_image_path, upload_acceptable, upload_path,
};
use jhapi::signing::User as TokenUser;
use jhapi::versions::{latest_version, Version};

fn token_user(id: &str) -> TokenUser {
    let mut u = TokenUser::new();
    u.USER_ID = Some(id.to_string());
    u
}

fn version(v: &str) -> Version {
    Version {
        version: v.to_string(),
        platform: "android".to_string(),
        url: "https://example.invalid/app".to_string(),
        release_date: "2024-01-01".to_string(),
    }
}

#[test]
fn cookie_decides_before_header() {
    assert_eq!(choose_api_key(Some(("c", true)), Some(("h", true))).unwrap().0, "c");
    assert_eq!(
        choose_api_key(Some(("c", false)), Some(("h", true))).unwrap_err(),
        "Invalid authentication token in cookie"
    );
    assert_eq!(choose_api_key(None, Some(("h", true))).unwrap().0, "h");
    assert_eq!(choose_api_key(None, Some(("h", false))).unwrap_err(), "Invalid authentication token in header");
    assert_eq!(choose_api_key(None, None).unwrap_err(), "No authentication token found");
}

#[test]
fn garbage_tokens_are_refused() {
    assert_eq!(
        ApiKey::from_request(Some("not-a-token"), None, "secret").unwrap_err(),
        "Invalid authentication token in cookie"
    );
    assert_eq!(
        ApiKey::from_request(None, Some("not-a-token"), "secret").unwrap_err(),
        "Invalid authentication token in header"
    );
    assert_eq!(ApiKey::from_request(None, None, "secret").unwrap_err(), "No authentication token found");
}

#[test]
fn own_record_or_privilege() {
    assert!(may_access_user(true, "a", "b"));
    assert!(may_access_user(false, "Sami", "sAMI"));
    assert!(!may_access_user(false, "sami", "rami"));
    assert!(may_access_user(false, "ÄBC", "äbc"));
}

#[test]
fn caller_and_store_subject() {
    assert_eq!(caller_id(&None), "");
    assert_eq!(caller_id(&Some(token_user("sami"))), "sami");
    assert_eq!(store_list_subject(true, &Some(token_user("sami"))), "admin");
    assert_eq!(store_list_subject(false, &Some(token_user("sami"))), "sami");
    assert_eq!(store_list_subject(false, &None), "");
}

#[test]
fn route_statuses() {
    assert_eq!(lookup_error_status(APIError::DataNotFound), 404);
    assert_eq!(lookup_error_status(APIError::DBError), 500);
    assert_eq!(creation_error_status(APIError::DataExists), 409);
    assert_eq!(creation_error_status(APIError::DBError), 500);
    assert_eq!(store_update_allowed(false, Ok(true)), Err(401));
    assert_eq!(store_update_allowed(true, Ok(true)), Ok(()));
    assert_eq!(store_update_allowed(true, Ok(false)), Err(404));
    assert_eq!(store_update_allowed(true, Err(APIError::DBError)), Err(500));
}

#[test]
fn authcheck_answers() {
    let ok = authcheck_answer(Some(true));
    assert_eq!((ok.status, ok.message.as_deref()), (200, Some("Token Found")));
    let bad = authcheck_answer(Some(false));
    assert_eq!((bad.status, bad.message.as_deref()), (401, Some("Authentication Error")));
    let none = authcheck_answer(None);
    assert_eq!((none.status, none.message.as_deref()), (401, Some("Invalid Credentials")));
}

#[test]
fn image_paths() {
    assert_eq!(remote_image_path("A100"), "/u02/forms/erp/images/A100.jpg");
    assert_eq!(local_image_path("A100"), "tmp/A100.jpg");
    assert_eq!(upload_path("photo.png"), "tmp/photo.png");
}

#[test]
fn centering_offsets() {
    assert_eq!(centering_offset(640), 0);
    assert_eq!(centering_offset(480), -80);
    assert_eq!(centering_offset(481), -79);
    assert_eq!(centering_offset(0), -320);
    assert_eq!(centering_offset(700), 30);
    for w in [0u64, 1, 101, 480, 639, 640, 641, 1000] {
        let rust = (640 - w as isize) / 2 * -1;
        assert_eq!(centering_offset(w) as isize, rust);
    }
    let before = -centering_offset(481);
    assert_eq!(before, 79);
    assert_eq!(640 - 481 - before, 80);
}

#[test]
fn upload_checks() {
    assert!(image_request_named("A100"));
    assert!(!image_request_named(""));
    assert!(upload_acceptable(Some("a.jpg"), "A100"));
    assert!(!upload_acceptable(None, "A100"));
    assert!(!upload_acceptable(Some("a.jpg"), ""));
}

#[test]
fn latest_version_outcomes() {
    assert!(matches!(latest_version(Err(APIError::IOError)), Err(APIError::DBError)));
    assert!(matches!(latest_version(Ok(vec![])), Err(APIError::NoData)));
    assert!(matches!(latest_version(Ok(vec![None, Some(version("2"))])), Err(APIError::NoData)));
    let v = latest_version(Ok(vec![Some(version("3.1")), Some(version("2"))])).unwrap();
    assert_eq!(v.version, "3.1");
}

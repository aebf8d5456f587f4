use jhapi::errors::APIError;
use jhapi::signing::{
    account_user, claims_payload, decode_token_data, login_lookup_needed, token_user, generate_token, login_name, sign_in, token_unexpired,
    validate_token, Claims, LoginParams, StoredCredentials, User,
};
use jhapi::users::{hash_new_password, new_user_row, user_row, NewUser};

fn complete_user(hours: &str) -> User {
    User {
        USER_ID: Some("sami".to_string()),
        USER_NAME: Some("Sami K".to_string()),
        USER_EMAIL: Some("sami@jh.com.jo".to_string()),
        LOGIN_DURATION: Some(hours.to_string()),
    }
}

#[test]
fn claims_document() {
    let c = Claims::issued_at("id\"1".to_string(), "Name".to_string(), "e@x".to_string(), 2, 1000);
    assert_eq!(c.exp, 1000 + 2 * 3600);
    assert_eq!(
        claims_payload(&c),
        "{\"id\":\"id\\\"1\",\"name\":\"Name\",\"email\":\"e@x\",\"iat\":1000,\"exp\":8200}"
    );
    let now = Claims::new("a".to_string(), "b".to_string(), "c".to_string(), 1).unwrap();
    assert_eq!(now.exp - now.iat, 3600);
    assert!(Claims::new("a".to_string(), "b".to_string(), "c".to_string(), u64::MAX).is_none());
}

#[test]
fn token_round_trip() {
    let token = generate_token(&complete_user("2"), "top-secret").unwrap();
    let u = decode_token_data(&token, "top-secret").unwrap();
    assert_eq!(u.USER_ID.as_deref(), Some("sami"));
    assert_eq!(u.USER_NAME.as_deref(), Some("Sami K"));
    assert_eq!(u.USER_EMAIL.as_deref(), Some("sami@jh.com.jo"));
    assert_eq!(u.LOGIN_DURATION.as_deref(), Some("7200"));
    assert!(validate_token(&token, "top-secret"));
    assert!(!validate_token(&token, "other-secret"));
    assert!(decode_token_data(&token, "other-secret").is_none());
    assert!(decode_token_data("garbage", "top-secret").is_none());
}

#[test]
fn incomplete_user_gets_no_token() {
    let mut u = complete_user("1");
    u.USER_EMAIL = None;
    assert!(!u.is_complete());
    assert!(matches!(generate_token(&u, "s"), Err(APIError::InvalidData)));
    assert!(matches!(generate_token(&User::new(), "s"), Err(APIError::InvalidData)));
}

#[test]
fn expiry_check() {
    let c = Claims::issued_at("a".to_string(), "b".to_string(), "c".to_string(), 1, 100);
    assert!(token_unexpired(&Some(c), Some(3699)));
    let c = Claims::issued_at("a".to_string(), "b".to_string(), "c".to_string(), 1, 100);
    assert!(!token_unexpired(&Some(c), Some(3700)));
    assert!(!token_unexpired(&None, Some(1)));
    let c = Claims::issued_at("a".to_string(), "b".to_string(), "c".to_string(), 1, 100);
    assert!(!token_unexpired(&Some(c), None));
}

#[test]
fn login_names_are_lowercase() {
    let p = LoginParams { p_username: "SaMi".to_string(), p_password: "x".to_string() };
    assert_eq!(login_name(&p), "sami");
}

const KNOWN_HASH: &str = "$2b$04$EGdrhbKUv8Oc9vGiXX0HQOxSg445d458Muh7DAHskb6QbtCvdxcie";
const KNOWN_PASSWORD: &str = "correctbatteryhorsestapler";

fn stored(hash: &str, hours: &str) -> StoredCredentials {
    StoredCredentials {
        username: "sami".to_string(),
        password_hash: hash.to_string(),
        fullname: "Sami K".to_string(),
        email: "sami@jh.com.jo".to_string(),
        login_duration: hours.to_string(),
    }
}

#[test]
fn password_check() {
    let s = stored(KNOWN_HASH, "8");
    let u = account_user(true, &s).unwrap();
    assert_eq!(u.USER_ID.as_deref(), Some("sami"));
    assert_eq!(u.USER_NAME.as_deref(), Some("Sami K"));
    assert_eq!(u.USER_EMAIL.as_deref(), Some("sami@jh.com.jo"));
    assert_eq!(u.LOGIN_DURATION.as_deref(), Some("8"));
    assert!(matches!(account_user(false, &s), Err(APIError::InvalidCredentials)));
    let right = LoginParams { p_username: "Sami".to_string(), p_password: KNOWN_PASSWORD.to_string() };
    assert!(matches!(sign_in(&right, Ok(stored(KNOWN_HASH, "8")), "s"), Some(Ok(_))));
}

#[test]
fn hashed_password_is_accepted() {
    let hash = hash_new_password("s3cret").unwrap();
    let p = LoginParams { p_username: "sami".to_string(), p_password: "s3cret".to_string() };
    assert!(matches!(sign_in(&p, Ok(stored(&hash, "1")), "s"), Some(Ok(_))));
}

#[test]
fn sign_in_outcomes() {
    let empty = LoginParams { p_username: String::new(), p_password: "x".to_string() };
    assert!(matches!(sign_in(&empty, Err(APIError::DBError), "s"), Some(Err(APIError::InvalidData))));
    let p = LoginParams { p_username: "sami".to_string(), p_password: KNOWN_PASSWORD.to_string() };
    assert!(matches!(sign_in(&p, Err(APIError::DataNotFound), "s"), Some(Err(APIError::InvalidCredentials))));
    assert!(matches!(sign_in(&p, Err(APIError::DBError), "s"), Some(Err(APIError::DBError))));
    let token = sign_in(&p, Ok(stored(KNOWN_HASH, "1")), "s").unwrap().unwrap();
    assert_eq!(decode_token_data(&token, "s").unwrap().LOGIN_DURATION.as_deref(), Some("3600"));
    let wrong = LoginParams { p_username: "sami".to_string(), p_password: "nope".to_string() };
    assert!(matches!(sign_in(&wrong, Ok(stored(KNOWN_HASH, "1")), "s"), Some(Err(APIError::InvalidCredentials))));
    assert!(sign_in(&p, Ok(stored(KNOWN_HASH, "one")), "s").is_none());
}

#[test]
fn unreadable_hash_is_undecided() {
    let p = LoginParams { p_username: "sami".to_string(), p_password: "s3cret".to_string() };
    assert!(sign_in(&p, Ok(stored("not-a-bcrypt-hash", "1")), "s").is_none());
}

#[test]
fn new_user_rows() {
    let data = NewUser {
        p_username: "New.User".to_string(),
        p_password: "pw".to_string(),
        p_fullname: "New User".to_string(),
        p_email: "new@jh.com.jo".to_string(),
        p_loginduration: 4,
    };
    let row = new_user_row(&data).unwrap();
    assert_eq!(row.username, "new.user");
    assert!(row.password_hash.starts_with("$2"));
    assert_ne!(row.password_hash, "pw");
    assert_eq!(row.fullname, "New User");
    assert_eq!(row.login_duration, 4);
}

#[test]
fn claims_payload_is_json() {
    let c = Claims::issued_at("a\"b".to_string(), "Ünï\n".to_string(), "e@x".to_string(), 3, 10);
    let v: serde_json::Value = serde_json::from_str(&claims_payload(&c)).unwrap();
    assert_eq!(v["id"], "a\"b");
    assert_eq!(v["name"], "Ünï\n");
    assert_eq!(v["email"], "e@x");
    assert_eq!(v["iat"], 10);
    assert_eq!(v["exp"], 10 + 3 * 3600);
}

#[test]
fn claims_from_clock_readings() {
    let c = Claims::issued_at_reading("a".to_string(), "b".to_string(), "c".to_string(), 2, Some(50)).unwrap();
    assert_eq!((c.iat, c.exp), (50, 7250));
    assert!(Claims::issued_at_reading("a".to_string(), "b".to_string(), "c".to_string(), 2, None).is_none());
    assert!(Claims::issued_at_reading("a".to_string(), "b".to_string(), "c".to_string(), 1, Some(u64::MAX - 3599)).is_none());
    let edge = Claims::issued_at_reading("a".to_string(), "b".to_string(), "c".to_string(), 1, Some(u64::MAX - 3600)).unwrap();
    assert_eq!(edge.exp, u64::MAX);
}

#[test]
fn users_of_decoded_claims() {
    assert!(token_user(None).is_none());
    let c = Claims::issued_at("sami".to_string(), "Sami K".to_string(), "s@x".to_string(), 3, 100);
    let u = token_user(Some(c)).unwrap();
    assert_eq!(u.USER_ID.as_deref(), Some("sami"));
    assert_eq!(u.USER_NAME.as_deref(), Some("Sami K"));
    assert_eq!(u.USER_EMAIL.as_deref(), Some("s@x"));
    assert_eq!(u.LOGIN_DURATION.as_deref(), Some("10800"));
    let backwards = Claims { id: "a".to_string(), name: "b".to_string(), email: "c".to_string(), iat: 10, exp: 5 };
    assert!(token_user(Some(backwards)).is_none());
}

#[test]
fn rows_with_a_given_hash() {
    let data = NewUser {
        p_username: "Mixed.Case".to_string(),
        p_password: "pw".to_string(),
        p_fullname: "Full".to_string(),
        p_email: "f@x".to_string(),
        p_loginduration: 6,
    };
    let row = user_row(&data, "HASH".to_string());
    assert_eq!(row.username, "mixed.case");
    assert_eq!(row.password_hash, "HASH");
    assert_eq!(row.fullname, "Full");
    assert_eq!(row.email, "f@x");
    assert_eq!(row.login_duration, 6);
}

#[test]
fn lookup_only_for_named_logins() {
    assert!(!login_lookup_needed(&LoginParams { p_username: String::new(), p_password: "x".to_string() }));
    assert!(login_lookup_needed(&LoginParams { p_username: "a".to_string(), p_password: String::new() }));
}

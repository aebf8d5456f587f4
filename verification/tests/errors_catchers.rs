use jhapi::catchers::{bad_request, conflict, internal_error, not_found, unauthorized, unprocessable_entity};
use jhapi::errors::APIError;

const ALL: [APIError; 10] = [
    APIError::DBError,
    APIError::DataNotFound,
    APIError::DataExists,
    APIError::InvalidData,
    APIError::InvalidToken,
    APIError::SFTPError,
    APIError::InternalServerError,
    APIError::InvalidCredentials,
    APIError::NoData,
    APIError::IOError,
];

#[test]
fn error_texts() {
    let texts: Vec<String> = ALL.iter().map(|e| e.to_string()).collect();
    assert_eq!(
        texts,
        vec![
            "Database Error",
            "User Not Found",
            "User Already Exists",
            "Invalid Data",
            "Invalid Token",
            "SFTP Error",
            "Internal Server Error",
            "Invalid Credentials",
            "No Data Found",
            "IO Error",
        ]
    );
}

#[test]
fn error_statuses() {
    let codes: Vec<u16> = ALL.iter().map(|e| e.status()).collect();
    assert_eq!(codes, vec![500, 404, 409, 422, 401, 500, 500, 401, 204, 500]);
}

#[test]
fn error_answers() {
    let texts: Vec<String> = ALL.iter().map(|e| e.response_text()).collect();
    assert_eq!(
        texts,
        vec![
            "Database Error",
            "Resource Not Found",
            "Resource Already Exists",
            "Unprocessable Entity",
            "Authentication Error",
            "File Transfer Error",
            "Internal Server Error",
            "Invalid Credentials",
            "No Content Found",
            "IO Error",
        ]
    );
}

#[test]
fn error_into_response() {
    let r = APIError::DataExists.into_response();
    assert_eq!(r.status, 409);
    assert_eq!(r.message.as_deref(), Some("Resource Already Exists"));
    assert!(r.data.is_none());
}

#[test]
fn error_status_classes() {
    for e in ALL.iter() {
        let s = e.status();
        assert_eq!(s == 204, *e == APIError::NoData);
        if *e != APIError::NoData {
            assert!((400..600).contains(&s));
        }
        assert_eq!(s == 401, *e == APIError::InvalidToken || *e == APIError::InvalidCredentials);
    }
}

#[test]
fn catcher_messages() {
    assert_eq!(bad_request(), "Bad Request, please make sure your request body is valid");
    assert_eq!(
        unauthorized(),
        "Unauthorized, please include a valid Authentication header, or check your request body"
    );
    assert_eq!(not_found("/api/nothing"), "I couldn't find '/api/nothing'. Try something else?");
    assert_eq!(
        conflict(),
        "Data Conflict, please make sure you are not trying to insert duplicate data"
    );
    assert_eq!(
        unprocessable_entity(),
        "The body data is invalid, please make sure you are following the correct structure"
    );
    assert_eq!(internal_error(), "Whoops! Looks like we messed up.");
}

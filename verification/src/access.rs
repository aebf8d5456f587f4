use vstd::prelude::*;

use crate::errors::{error_response_text, error_status, APIError};
use crate::response::ApiResponse;
use crate::signing::{jwt_claims, validate_token, User};
use crate::text::{lowercase, str_eq, to_lowercase};

verus! {

/// The token with which a request was accepted.
#[derive(Debug, Clone, Copy)]
pub struct ApiKey<'r>(pub &'r str);

/// The message with which a request is refused for its token; the status is
/// always 401.
pub open spec fn token_refusal(cookie: Option<(&str, bool)>, header: Option<(&str, bool)>) -> Seq<char> {
    if cookie is Some {
        "Invalid authentication token in cookie"@
    } else if header is Some {
        "Invalid authentication token in header"@
    } else {
        "No authentication token found"@
    }
}

/// The key of a request, given its `token` cookie and its `Authorization`
/// header, each with whether it holds a valid token. The cookie decides when
/// there is one; the header is read only when there is none.
pub fn choose_api_key<'r>(cookie: Option<(&'r str, bool)>, header: Option<(&'r str, bool)>) -> (r: Result<ApiKey<'r>, String>)
    ensures
        match (cookie, header) {
            (Some((t, valid)), _) => if valid {
                r == Ok::<ApiKey<'r>, String>(ApiKey(t))
            } else {
                r is Err
            },
            (None, Some((t, valid))) => if valid {
                r == Ok::<ApiKey<'r>, String>(ApiKey(t))
            } else {
                r is Err
            },
            (None, None) => r is Err,
        },
        r matches Err(m) ==> m@ == token_refusal(cookie, header),
{
    match cookie {
        Some((t, valid)) => {
            if valid {
                Ok(ApiKey(t))
            } else {
                Err(String::from_str("Invalid authentication token in cookie"))
            }
        },
        None => match header {
            Some((t, valid)) => {
                if valid {
                    Ok(ApiKey(t))
                } else {
                    Err(String::from_str("Invalid authentication token in header"))
                }
            },
            None => Err(String::from_str("No authentication token found")),
        },
    }
}

impl<'r> ApiKey<'r> {
    /// The key of a request with the `token` cookie `cookie` and the
    /// `Authorization` header `header`, each checked with `validate_token`.
    /// Whether a token is valid depends on the clock, so what is stated is
    /// which token is taken, that an accepted token is one the decoder reads
    /// claims from, and which message a refusal carries.
    pub fn from_request(cookie: Option<&'r str>, header: Option<&'r str>, secret: &str) -> (r: Result<ApiKey<'r>, String>)
        ensures
            match (cookie, header) {
                (Some(t), _) => match r {
                    Ok(k) => k.0 == t,
                    Err(m) => m@ == "Invalid authentication token in cookie"@,
                },
                (None, Some(t)) => match r {
                    Ok(k) => k.0 == t,
                    Err(m) => m@ == "Invalid authentication token in header"@,
                },
                (None, None) => r matches Err(m) && m@ == "No authentication token found"@,
            },
            r matches Ok(k) ==> jwt_claims(k.0@, secret@) is Some,
    {
        match cookie {
            Some(t) => {
                let valid = validate_token(t, secret);
                choose_api_key(Some((t, valid)), None)
            },
            None => match header {
                Some(t) => {
                    let valid = validate_token(t, secret);
                    choose_api_key(None, Some((t, valid)))
                },
                None => choose_api_key(None, None),
            },
        }
    }
}

/// Whether a caller may read the record of `target`: with a privileged
/// permission, or when the record is the caller's own, the names compared in
/// lowercase.
pub open spec fn may_access_spec(privileged: bool, caller: Seq<char>, target: Seq<char>) -> bool {
    privileged || lowercase(caller) == lowercase(target)
}

/// Whether the caller `caller` may read the record of `target`.
pub fn may_access_user(privileged: bool, caller: &str, target: &str) -> (r: bool)
    ensures
        r == may_access_spec(privileged, caller@, target@),
{
    if privileged {
        true
    } else {
        let a = to_lowercase(caller);
        let b = to_lowercase(target);
        str_eq(a.as_str(), b.as_str())
    }
}

/// The id of the caller that a token names, empty when the token could not
/// be read.
pub fn caller_id(decoded: &Option<User>) -> (r: String)
    requires
        decoded matches Some(u) ==> u.USER_ID is Some,
    ensures
        r@ == match decoded {
            Some(u) => u.USER_ID->Some_0@,
            None => Seq::<char>::empty(),
        },
{
    match decoded {
        Some(u) => match &u.USER_ID {
            Some(id) => id.clone(),
            None => String::new(),
        },
        None => String::new(),
    }
}

/// The name under which the store list is looked up: `admin`, which sees
/// every store, for a caller with the stores or admin permission, the
/// caller's own id otherwise.
pub fn store_list_subject(may_see_all: bool, decoded: &Option<User>) -> (r: String)
    requires
        decoded matches Some(u) ==> u.USER_ID is Some,
    ensures
        r@ == if may_see_all {
            "admin"@
        } else {
            match decoded {
                Some(u) => u.USER_ID->Some_0@,
                None => Seq::<char>::empty(),
            }
        },
{
    if may_see_all {
        String::from_str("admin")
    } else {
        caller_id(decoded)
    }
}

/// The status with which a failed lookup is answered: a missing record is
/// 404, any other failure 500.
pub fn lookup_error_status(e: APIError) -> (r: u16)
    ensures
        r == (if e == APIError::DataNotFound { 404u16 } else { 500u16 }),
{
    match e {
        APIError::DataNotFound => 404,
        _ => 500,
    }
}

/// The status with which a failed creation is answered: a record that
/// exists already is 409, any other failure 500.
pub fn creation_error_status(e: APIError) -> (r: u16)
    ensures
        r == (if e == APIError::DataExists { 409u16 } else { 500u16 }),
{
    match e {
        APIError::DataExists => 409,
        _ => 500,
    }
}

/// Whether a store update may go on: the caller needs the admin or stores
/// permission (else 401), and the user must exist (404 when not, 500 when
/// that could not be checked).
pub fn store_update_allowed(authorized: bool, user_exists: Result<bool, APIError>) -> (r: Result<(), u16>)
    ensures
        r == (if !authorized {
            Err::<(), u16>(401)
        } else {
            match user_exists {
                Ok(true) => Ok(()),
                Ok(false) => Err(404),
                Err(_) => Err(500),
            }
        }),
{
    if !authorized {
        return Err(401);
    }
    match user_exists {
        Ok(true) => Ok(()),
        Ok(false) => Err(404),
        Err(_) => Err(500),
    }
}

} // verus!

verus! {

/// The answer to a check of the `token` cookie, given whether the cookie
/// holds a valid token: 200 "Token Found" when it does, the `InvalidToken`
/// answer when it does not, and the `InvalidCredentials` answer when there is
/// no cookie.
pub fn authcheck_answer(cookie_valid: Option<bool>) -> (r: ApiResponse)
    ensures
        cookie_valid == Some(true) ==> r.status == 200 && r.data is None && (r.message matches Some(m)
            && m@ == "Token Found"@),
        cookie_valid == Some(false) ==> r.status == error_status(APIError::InvalidToken) && r.data is None
            && (r.message matches Some(m) && m@ == error_response_text(APIError::InvalidToken)),
        cookie_valid is None ==> r.status == error_status(APIError::InvalidCredentials) && r.data is None
            && (r.message matches Some(m) && m@ == error_response_text(APIError::InvalidCredentials)),
{
    match cookie_valid {
        Some(true) => ApiResponse::new(200, Some(String::from_str("Token Found")), None),
        Some(false) => APIError::InvalidToken.into_response(),
        None => APIError::InvalidCredentials.into_response(),
    }
}

} // verus!

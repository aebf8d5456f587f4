use vstd::prelude::*;

verus! {

/// The answer to a request whose body could not be read.
pub fn bad_request() -> (r: &'static str)
    ensures
        r@ == "Bad Request, please make sure your request body is valid"@,
{
    "Bad Request, please make sure your request body is valid"
}

/// The answer to a request without a valid token.
pub fn unauthorized() -> (r: &'static str)
    ensures
        r@ == "Unauthorized, please include a valid Authentication header, or check your request body"@,
{
    "Unauthorized, please include a valid Authentication header, or check your request body"
}

/// The answer to a request for the unknown address `uri`.
pub fn not_found(uri: &str) -> (r: String)
    ensures
        r@ == "I couldn't find '"@ + uri@ + "'. Try something else?"@,
{
    let mut r = String::from_str("I couldn't find '");
    r.append(uri);
    r.append("'. Try something else?");
    r
}

/// The answer to a request that would store duplicate data.
pub fn conflict() -> (r: String)
    ensures
        r@ == "Data Conflict, please make sure you are not trying to insert duplicate data"@,
{
    String::from_str("Data Conflict, please make sure you are not trying to insert duplicate data")
}

/// The answer to a request whose body has the wrong structure.
pub fn unprocessable_entity() -> (r: String)
    ensures
        r@ == "The body data is invalid, please make sure you are following the correct structure"@,
{
    String::from_str("The body data is invalid, please make sure you are following the correct structure")
}

/// The answer to a request that failed inside the server.
pub fn internal_error() -> (r: &'static str)
    ensures
        r@ == "Whoops! Looks like we messed up."@,
{
    "Whoops! Looks like we messed up."
}

} // verus!

use vstd::prelude::*;

use crate::response::ApiResponse;

verus! {

/// The errors that the API's operations report.
#[derive(Debug, Clone, Copy, PartialEq, Eq, Structural)]
pub enum APIError {
    DBError,
    DataNotFound,
    DataExists,
    InvalidData,
    InvalidToken,
    SFTPError,
    InternalServerError,
    InvalidCredentials,
    NoData,
    IOError,
}

/// The human-readable text of an error.
pub open spec fn error_text(e: APIError) -> Seq<char> {
    match e {
        APIError::DBError => "Database Error"@,
        APIError::DataNotFound => "User Not Found"@,
        APIError::DataExists => "User Already Exists"@,
        APIError::InvalidData => "Invalid Data"@,
        APIError::InvalidToken => "Invalid Token"@,
        APIError::SFTPError => "SFTP Error"@,
        APIError::InternalServerError => "Internal Server Error"@,
        APIError::InvalidCredentials => "Invalid Credentials"@,
        APIError::NoData => "No Data Found"@,
        APIError::IOError => "IO Error"@,
    }
}

/// The HTTP status with which an error is answered.
pub open spec fn error_status(e: APIError) -> u16 {
    match e {
        APIError::DBError => 500,
        APIError::DataNotFound => 404,
        APIError::DataExists => 409,
        APIError::InvalidData => 422,
        APIError::InvalidToken => 401,
        APIError::SFTPError => 500,
        APIError::InternalServerError => 500,
        APIError::InvalidCredentials => 401,
        APIError::NoData => 204,
        APIError::IOError => 500,
    }
}

/// The message with which an error is answered.
pub open spec fn error_response_text(e: APIError) -> Seq<char> {
    match e {
        APIError::DBError => "Database Error"@,
        APIError::DataNotFound => "Resource Not Found"@,
        APIError::DataExists => "Resource Already Exists"@,
        APIError::InvalidData => "Unprocessable Entity"@,
        APIError::InvalidToken => "Authentication Error"@,
        APIError::SFTPError => "File Transfer Error"@,
        APIError::InternalServerError => "Internal Server Error"@,
        APIError::InvalidCredentials => "Invalid Credentials"@,
        APIError::NoData => "No Content Found"@,
        APIError::IOError => "IO Error"@,
    }
}

impl APIError {
    /// The text that displaying the error shows.
    pub fn to_string(&self) -> (r: String)
        ensures
            r@ == error_text(*self),
    {
        match self {
            APIError::DBError => String::from_str("Database Error"),
            APIError::DataNotFound => String::from_str("User Not Found"),
            APIError::DataExists => String::from_str("User Already Exists"),
            APIError::InvalidData => String::from_str("Invalid Data"),
            APIError::InvalidToken => String::from_str("Invalid Token"),
            APIError::SFTPError => String::from_str("SFTP Error"),
            APIError::InternalServerError => String::from_str("Internal Server Error"),
            APIError::InvalidCredentials => String::from_str("Invalid Credentials"),
            APIError::NoData => String::from_str("No Data Found"),
            APIError::IOError => String::from_str("IO Error"),
        }
    }

    /// The HTTP status code with which the error is answered.
    pub fn status(&self) -> (r: u16)
        ensures
            r == error_status(*self),
    {
        match self {
            APIError::DBError => 500,
            APIError::DataNotFound => 404,
            APIError::DataExists => 409,
            APIError::InvalidData => 422,
            APIError::InvalidToken => 401,
            APIError::SFTPError => 500,
            APIError::InternalServerError => 500,
            APIError::InvalidCredentials => 401,
            APIError::NoData => 204,
            APIError::IOError => 500,
        }
    }

    /// The message with which the error is answered.
    pub fn response_text(&self) -> (r: String)
        ensures
            r@ == error_response_text(*self),
    {
        match self {
            APIError::DBError => String::from_str("Database Error"),
            APIError::DataNotFound => String::from_str("Resource Not Found"),
            APIError::DataExists => String::from_str("Resource Already Exists"),
            APIError::InvalidData => String::from_str("Unprocessable Entity"),
            APIError::InvalidToken => String::from_str("Authentication Error"),
            APIError::SFTPError => String::from_str("File Transfer Error"),
            APIError::InternalServerError => String::from_str("Internal Server Error"),
            APIError::InvalidCredentials => String::from_str("Invalid Credentials"),
            APIError::NoData => String::from_str("No Content Found"),
            APIError::IOError => String::from_str("IO Error"),
        }
    }

    /// The API answer for the error: its status and message, and no data.
    pub fn into_response(self) -> (r: ApiResponse)
        ensures
            r.status == error_status(self),
            r.message matches Some(m) && m@ == error_response_text(self),
            r.data is None,
    {
        let status = self.status();
        let text = self.response_text();
        ApiResponse::new(status, Some(text), None)
    }
}

/// Every error is answered with a status of the 2xx, 4xx or 5xx class, and
/// only the absence of data is answered without an error class.
pub proof fn lemma_error_status_classes(e: APIError)
    ensures
        error_status(e) == 204 <==> e == APIError::NoData,
        e != APIError::NoData ==> 400 <= error_status(e) < 600,
        error_status(e) == 401 <==> (e == APIError::InvalidToken || e == APIError::InvalidCredentials),
{
}

} // verus!

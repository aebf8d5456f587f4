use vstd::prelude::*;

verus! {

#[verifier::external_type_specification]
#[verifier::external_body]
pub struct ExJsonValue(serde_json::Value);

/// The payload of an API answer: a JSON document or plain text.
pub enum ResponseData {
    Json(serde_json::Value),
    Text(String),
}

/// An API answer: an HTTP status, an optional message and optional data.
pub struct ApiResponse {
    pub message: Option<String>,
    pub status: u16,
    pub data: Option<ResponseData>,
}

impl ApiResponse {
    /// Builds an answer from its three parts.
    pub fn new(status: u16, message: Option<String>, data: Option<ResponseData>) -> (r: Self)
        ensures
            r.status == status,
            r.message == message,
            r.data == data,
    {
        ApiResponse { message, status, data }
    }
}

} // verus!

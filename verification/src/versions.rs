use vstd::prelude::*;

use crate::errors::APIError;

verus! {

/// A released version of a client application.
#[derive(Debug)]
pub struct Version {
    pub version: String,
    pub platform: String,
    pub url: String,
    pub release_date: String,
}

/// The body of a version check: the version the client runs and its platform.
#[derive(Debug)]
pub struct VersionParams {
    pub p_current_version: String,
    pub p_platform: String,
}

/// The latest version, from the rows of the version query: `DBError` when
/// the query failed, `NoData` when it gave no row or its first row could not
/// be read, and the version of the first row otherwise.
pub fn latest_version(query: Result<Vec<Option<Version>>, APIError>) -> (r: Result<Version, APIError>)
    ensures
        match query {
            Err(_) => r == Err::<Version, APIError>(APIError::DBError),
            Ok(rows) => if rows@.len() == 0 {
                r == Err::<Version, APIError>(APIError::NoData)
            } else {
                match rows@[0] {
                    Some(v) => r == Ok::<Version, APIError>(v),
                    None => r == Err::<Version, APIError>(APIError::NoData),
                }
            },
        },
{
    match query {
        Err(_) => Err(APIError::DBError),
        Ok(mut rows) => {
            if rows.len() == 0 {
                Err(APIError::NoData)
            } else {
                let first = rows.swap_remove(0);
                match first {
                    Some(v) => Ok(v),
                    None => Err(APIError::NoData),
                }
            }
        },
    }
}

} // verus!

use vstd::prelude::*;

verus! {

/// The ways a storage operation can fail.
#[derive(Clone, Debug, PartialEq, Eq)]
pub enum Error {
    /// The bearer token could not be obtained.
    Authorization(String),
    /// The request could not be sent or its response could not be read.
    Transport(String),
    /// The service answered with a status outside 200..=299; carries the
    /// status and the response body.
    Status(u16, String),
    /// The response body does not have the expected shape.
    Decode(String),
}

pub open spec fn is_success(status: u16) -> bool {
    200 <= status && status <= 299
}

/// Turns a response into its body when the status is a success, and into
/// `Error::Status` otherwise.
pub fn check_status(status: u16, body: String) -> (r: Result<String, Error>)
    ensures
        is_success(status) ==> r == Ok::<String, Error>(body),
        !is_success(status) ==> r == Err::<String, Error>(Error::Status(status, body)),
{
    if 200 <= status && status <= 299 {
        Ok(body)
    } else {
        Err(Error::Status(status, body))
    }
}

} // verus!

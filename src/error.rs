//! The errors that a run can end in.
use vstd::prelude::*;
use vstd::string::*;

verus! {

/// The kinds of failure that a run can end in.
#[derive(Debug, Clone, Copy, PartialEq, Eq, Structural)]
pub enum CloudflareError {
    /// The request could not be made, or no answer came.
    ReqwestError,
    /// The provider answered, but no unique entity matched.
    Unsuccessful,
    /// The provider answered without a result.
    EmptyResponse,
    /// The answer did not have the expected shape.
    ParseError,
}

impl CloudflareError {
    pub open spec fn message_spec(self) -> Seq<char> {
        match self {
            CloudflareError::ReqwestError => "Error getting data from Cloudflare: Reqwest failure"@,
            CloudflareError::Unsuccessful => "Error getting data from Cloudflare: Unsuccessful"@,
            CloudflareError::EmptyResponse => "Error getting data from Cloudflare: Empty response"@,
            CloudflareError::ParseError => "Error getting data from Cloudflare: Error parsing response"@,
        }
    }

    /// A sentence that describes the error to a person.
    pub fn message(&self) -> (r: String)
        ensures
            r@ == self.message_spec(),
    {
        match self {
            CloudflareError::ReqwestError => String::from_str(
                "Error getting data from Cloudflare: Reqwest failure",
            ),
            CloudflareError::Unsuccessful => String::from_str(
                "Error getting data from Cloudflare: Unsuccessful",
            ),
            CloudflareError::EmptyResponse => String::from_str(
                "Error getting data from Cloudflare: Empty response",
            ),
            CloudflareError::ParseError => String::from_str(
                "Error getting data from Cloudflare: Error parsing response",
            ),
        }
    }
}

} // verus!

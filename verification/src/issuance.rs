//! The issuance call: what is sent, what comes back, and how the answer is read.

use vstd::prelude::*;
use vstd::string::*;
use crate::error::{IssuanceError, IssuanceFailure};

verus! {

/// The body of the issuance request.
#[derive(Debug, PartialEq, Eq)]
pub struct DbxRequestBody {
    /// A label that tells a human what the token is for.
    pub comment: String,
    /// How long the token is to live. Not checked here: the platform decides
    /// what it accepts.
    pub lifetime_seconds: i32,
}

/// What the platform tells about a token it issued.
#[derive(Debug, PartialEq, Eq)]
pub struct DbxTokenInfo {
    pub token_id: String,
    /// Epoch seconds.
    pub creation_time: u64,
    /// Epoch seconds.
    pub expiry_time: u64,
    pub comment: String,
}

/// The answer of the issuance endpoint: the secret, and what describes it.
#[derive(Debug, PartialEq, Eq)]
pub struct DbxTokenResponse {
    pub token_value: String,
    pub token_info: DbxTokenInfo,
}

/// A request body as a value of the model.
pub struct RequestBody {
    pub comment: Seq<char>,
    pub lifetime_seconds: i32,
}

/// A token description as a value of the model.
pub struct TokenInfo {
    pub token_id: Seq<char>,
    pub creation_time: u64,
    pub expiry_time: u64,
    pub comment: Seq<char>,
}

/// An issued token as a value of the model.
pub struct IssuedToken {
    pub token_value: Seq<char>,
    pub token_info: TokenInfo,
}

impl View for DbxRequestBody {
    type V = RequestBody;

    open spec fn view(&self) -> RequestBody {
        RequestBody { comment: self.comment@, lifetime_seconds: self.lifetime_seconds }
    }
}

impl View for DbxTokenInfo {
    type V = TokenInfo;

    open spec fn view(&self) -> TokenInfo {
        TokenInfo {
            token_id: self.token_id@,
            creation_time: self.creation_time,
            expiry_time: self.expiry_time,
            comment: self.comment@,
        }
    }
}

impl View for DbxTokenResponse {
    type V = IssuedToken;

    open spec fn view(&self) -> IssuedToken {
        IssuedToken { token_value: self.token_value@, token_info: self.token_info@ }
    }
}

/// The label every request of this tool carries.
pub open spec fn request_comment() -> Seq<char> {
    "Generate Azure Databricks PAT"@
}

/// The body this tool sends for a token of the given lifetime.
pub open spec fn issuance_body(lifetime_seconds: i32) -> RequestBody {
    RequestBody { comment: request_comment(), lifetime_seconds }
}

impl DbxRequestBody {
    /// A request body with the given label and lifetime, both taken as they are.
    pub fn new(comment: &str, lifetime_seconds: i32) -> (body: DbxRequestBody)
        ensures
            body@ == (RequestBody { comment: comment@, lifetime_seconds }),
    {
        DbxRequestBody { comment: String::from_str(comment), lifetime_seconds }
    }

    /// The body this tool sends: its fixed label, and the lifetime asked for.
    pub fn for_lifetime(lifetime_seconds: i32) -> (body: DbxRequestBody)
        ensures
            body@ == issuance_body(lifetime_seconds),
    {
        DbxRequestBody::new("Generate Azure Databricks PAT", lifetime_seconds)
    }
}

/// A status the platform answers a granted request with: 200 to 299.
pub open spec fn is_success(status: u16) -> bool {
    200 <= status < 300
}

/// Reads the status of the answer. A success lets the body be decoded; any
/// other status is a rejection that carries it, and the body is left unread.
pub fn check_status(status: u16) -> (verdict: Result<(), IssuanceError>)
    ensures
        verdict is Ok <==> is_success(status),
        verdict matches Err(error) ==> error@ == (IssuanceFailure::RequestRejected {
            status_code: status,
        }),
{
    if 200 <= status && status < 300 {
        Ok(())
    } else {
        Err(IssuanceError::RequestRejected { status_code: status })
    }
}

} // verus!

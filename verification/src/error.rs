//! What can go wrong, stage by stage, and how it is worded for the operator.

use vstd::prelude::*;
use vstd::string::*;
use crate::text::{decimal, push_decimal};

verus! {

/// The identity provider gave no credential: no source was available, the
/// discovery timed out, or the scope was refused.
#[derive(Debug, PartialEq, Eq)]
pub struct CredentialError {
    /// The provider's own words.
    pub message: String,
}

/// The credential cannot be carried in a request header.
#[derive(Debug, PartialEq, Eq)]
pub struct HeaderError {
    /// The transport library's own words for the refusal.
    pub message: String,
}

/// The issuance call did not yield a token.
#[derive(Debug, PartialEq, Eq)]
pub enum IssuanceError {
    /// The request never got an answer: DNS, TLS, a refused connection, a timeout.
    Transport { message: String },
    /// The platform answered with a status outside 200..=299.
    RequestRejected { status_code: u16 },
    /// The platform answered with success, but the body is no issued token.
    DecodeFailure { message: String },
}

/// The one error the pipeline reports, whichever stage it came from.
#[derive(Debug, PartialEq, Eq)]
pub enum PipelineError {
    Credential(CredentialError),
    Header(HeaderError),
    Issuance(IssuanceError),
}

/// The stages that can fail.
#[derive(Clone, Copy, Debug, PartialEq, Eq, Structural)]
pub enum Stage {
    Credential,
    Header,
    Issuance,
}

/// An issuance error as a value of the model.
pub enum IssuanceFailure {
    Transport { message: Seq<char> },
    RequestRejected { status_code: u16 },
    DecodeFailure { message: Seq<char> },
}

/// A pipeline error as a value of the model.
pub enum Failure {
    Credential { message: Seq<char> },
    Header { message: Seq<char> },
    Issuance(IssuanceFailure),
}

/// The sentence that reports a rejected request.
pub open spec fn rejection_message(status_code: u16) -> Seq<char> {
    "Failed to get PAT: HTTP "@ + decimal(status_code as nat)
}

impl IssuanceFailure {
    /// The message of the failure, verbatim.
    pub open spec fn message(self) -> Seq<char> {
        match self {
            IssuanceFailure::Transport { message } => message,
            IssuanceFailure::RequestRejected { status_code } => rejection_message(status_code),
            IssuanceFailure::DecodeFailure { message } => message,
        }
    }
}

impl Failure {
    /// The stage the failure came from.
    pub open spec fn stage(self) -> Stage {
        match self {
            Failure::Credential { .. } => Stage::Credential,
            Failure::Header { .. } => Stage::Header,
            Failure::Issuance(_) => Stage::Issuance,
        }
    }

    /// The message of the failure, verbatim.
    pub open spec fn message(self) -> Seq<char> {
        match self {
            Failure::Credential { message } => message,
            Failure::Header { message } => message,
            Failure::Issuance(inner) => inner.message(),
        }
    }
}

impl View for CredentialError {
    type V = Seq<char>;

    open spec fn view(&self) -> Seq<char> {
        self.message@
    }
}

impl View for HeaderError {
    type V = Seq<char>;

    open spec fn view(&self) -> Seq<char> {
        self.message@
    }
}

impl View for IssuanceError {
    type V = IssuanceFailure;

    open spec fn view(&self) -> IssuanceFailure {
        match self {
            IssuanceError::Transport { message } => IssuanceFailure::Transport { message: message@ },
            IssuanceError::RequestRejected { status_code } => IssuanceFailure::RequestRejected {
                status_code: *status_code,
            },
            IssuanceError::DecodeFailure { message } => IssuanceFailure::DecodeFailure {
                message: message@,
            },
        }
    }
}

impl View for PipelineError {
    type V = Failure;

    open spec fn view(&self) -> Failure {
        match self {
            PipelineError::Credential(inner) => Failure::Credential { message: inner@ },
            PipelineError::Header(inner) => Failure::Header { message: inner@ },
            PipelineError::Issuance(inner) => Failure::Issuance(inner@),
        }
    }
}

impl Stage {
    /// The name of the stage, as spelled in reports.
    pub open spec fn spec_name(self) -> Seq<char> {
        match self {
            Stage::Credential => "credential"@,
            Stage::Header => "header"@,
            Stage::Issuance => "issuance"@,
        }
    }

    /// The name of the stage, as spelled in reports.
    pub fn name(&self) -> (name: &'static str)
        ensures
            name@ == self.spec_name(),
    {
        match self {
            Stage::Credential => "credential",
            Stage::Header => "header",
            Stage::Issuance => "issuance",
        }
    }
}

impl IssuanceError {
    /// The message of the error, verbatim; for a rejected request, the
    /// sentence that names the status.
    pub fn message(&self) -> (message: String)
        ensures
            message@ == self@.message(),
    {
        match self {
            IssuanceError::Transport { message } => message.clone(),
            IssuanceError::RequestRejected { status_code } => {
                let mut message = String::from_str("Failed to get PAT: HTTP ");
                push_decimal(&mut message, *status_code);
                message
            },
            IssuanceError::DecodeFailure { message } => message.clone(),
        }
    }
}

impl PipelineError {
    /// The stage the error came from.
    pub fn stage(&self) -> (stage: Stage)
        ensures
            stage == self@.stage(),
    {
        match self {
            PipelineError::Credential(_) => Stage::Credential,
            PipelineError::Header(_) => Stage::Header,
            PipelineError::Issuance(_) => Stage::Issuance,
        }
    }

    /// The message of the underlying error, verbatim.
    pub fn message(&self) -> (message: String)
        ensures
            message@ == self@.message(),
    {
        match self {
            PipelineError::Credential(inner) => inner.message.clone(),
            PipelineError::Header(inner) => inner.message.clone(),
            PipelineError::Issuance(inner) => inner.message(),
        }
    }
}

} // verus!

//! Issues a workspace-scoped Azure Databricks personal access token (PAT).
//!
//! The crate holds the decisions of the exchange: how a workspace URL becomes
//! the issuance endpoint, which headers and body the request carries, how the
//! answer of the platform is read, and how every failure is reported. The
//! waiting (the identity provider, the network) is left to the caller, who
//! drives a [`pipeline::Pipeline`] with the events it observes.

pub mod endpoint;
pub mod text;
pub mod error;
pub mod headers;
pub mod issuance;
pub mod pipeline;
pub mod report;

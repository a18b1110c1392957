//! Requests to the GitHub GraphQL API and the decoding of its responses.

pub mod batch;
pub mod client;
pub mod fields;
pub mod issues;
pub mod json;
pub mod labels;
pub mod projects;
pub mod queries;
pub mod subissues;

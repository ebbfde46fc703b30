//! The typed request and the builder that makes it from a configuration.

pub mod request_builder;
pub mod rest_request;

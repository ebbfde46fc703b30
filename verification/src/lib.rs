//! Command-line HTTP request tool: the argument pipeline, the request
//! configuration, the project and environment store and the request model.

pub mod command;
pub mod config;
pub mod constants;
pub mod dict;
pub mod misc;
pub mod printer;
pub mod project;
pub mod request;
pub mod text;

//! A command-line client library for the Craft document API: configuration
//! handling, connection resolution, request construction and error reporting.
use vstd::prelude::*;

pub mod text;
pub mod error;
pub mod cli;
pub mod config;
pub mod client;
pub mod commands;
pub mod logger;
pub mod json;


verus! {

} // verus!

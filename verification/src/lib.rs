//! A bridge between a desktop shell and a worker process that is started once
//! per call: where the worker is found, what is written to it, how its progress
//! lines are read, and how its exit status and output become one outcome.

pub mod bridge;
pub mod commands;
pub mod json;
pub mod locator;
pub mod outcome;
pub mod outside;
pub mod paths;
pub mod progress;
pub mod request;
pub mod schema;
pub mod text;

//! A webhook-driven policy gate for pull requests.
//!
//! The crate receives GitHub webhook deliveries, authenticates them with an
//! HMAC signature, classifies them into typed events, evaluates the pull
//! request against a fixed rule set, and prepares the commit status that
//! reports the verdict.  Network transport and process wiring live outside
//! the library; everything that decides is here, with its contract.

pub mod chars;
pub mod github_api;
pub mod judgement;
pub mod options;
pub mod server;
pub mod signature;
pub mod token_store;
pub mod webhook;

//! A typed client library for the Strava v3 REST API.
//!
//! The verified core is the request/response plumbing every accessor shares:
//! the token model, versioned URL construction, the status-code-to-error
//! policy, upload form assembly, and the pagination wrapper. Performing the
//! actual network round trips is left to the (unverified) caller, which hands
//! each response back as a plain status code and body text.

pub mod activities;
pub mod api;
pub mod error;
pub mod http;
pub mod segmentefforts;
pub mod uploads;

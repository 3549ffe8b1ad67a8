//! A gateway between a host application and a local language-model
//! inference daemon: the decisions of a status check and of an automatic
//! start, the daemon's endpoints and request bodies, and how each outcome
//! of a request becomes the text or the error the caller receives.
//! The host performs the HTTP requests, process calls and sleeps itself and
//! hands their outcomes to these functions.

pub mod api;
pub mod error;
pub mod start;
pub mod status;

//! The registry of shell clients: agents that poll for work, the requests and
//! jobs that callers queue for them, and the rules that both must keep.
pub mod access;
pub mod audit;
pub mod audit_laws;
pub mod history;
pub mod invariants;
pub mod job_laws;
pub mod jobs;
pub mod laws;
pub mod log_laws;
pub mod model;
pub mod protocol;
pub mod registry;
pub mod refusal_laws;
pub mod registry_laws;
pub mod request_laws;
pub mod requests;
pub mod round_trips;
pub mod state;
pub mod transport;
pub mod validation;

//! A synchronous client library for the FakeYou text-to-speech service.
//!
//! The library holds the decisions of the client: how login and status
//! responses are classified, how the catalog listings are decoded into the
//! cache, how a job request is encoded and how each status response of a
//! running job is read. Network transfers are performed by the caller, who
//! hands the library the responses it received.

pub mod catalog;
pub mod client;
pub mod error;
pub mod json;
pub mod laws;
pub mod protocol;
pub mod transport;

pub use catalog::{Category, Voice};
pub use client::FakeYouClient;
pub use error::Error;
pub use json::JsonValue;
pub use protocol::{
    check_status, decode_job_response, login_body, login_outcome, new_job_request, poll_status,
    poll_url, JobResponse, JobStatus,
};

use vstd::prelude::*;

verus! {

/// Everything that can go wrong when talking to the service.
#[derive(Debug)]
pub enum Error {
    /// The service rejected the credentials.
    InvalidCredentials,
    /// The login endpoint answered with a status that has no meaning here.
    UndefinedResponse,
    /// The service answered with HTTP 429.
    TooManyRequests,
    /// A response did not have the expected structure.
    ImproperResponse,
    /// The job ended in a failure state.
    JobFailed,
    /// The audio could not be written to storage.
    IOError,
    /// The request could not be made; holds the transport's message.
    ReqwestError(String),
    /// JSON could not be encoded or decoded; holds the codec's message.
    SerializationError(String),
}

} // verus!

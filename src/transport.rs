use vstd::prelude::*;

verus! {

/// The HTTP session of an authenticated client: it keeps the login cookie.
#[verifier::external_type_specification]
#[verifier::external_body]
pub struct ExBlockingClient(reqwest::blocking::Client);

} // verus!

//! Session credentials issued by the WEBWARE server on registration.

use vstd::prelude::*;

verus! {

/// Credentials for the client.
///
/// Issued by the server on successful registration and required for all
/// authenticated requests: `service_pass` identifies the session, `app_id`
/// is bound into every request signature.
#[derive(Clone, Debug)]
pub struct Credentials {
    /// The service pass for the client.
    pub service_pass: String,
    /// The app id for the client.
    pub app_id: String,
}

impl Credentials {
    /// Creates a new `Credentials` struct.
    pub fn new(service_pass: &str, app_id: &str) -> (r: Credentials)
        ensures
            r.service_pass@ == service_pass@,
            r.app_id@ == app_id@,
    {
        Credentials { service_pass: service_pass.to_owned(), app_id: app_id.to_owned() }
    }
}

} // verus!

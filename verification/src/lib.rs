//! Client library for SoftENGINE's WEBSERVICES, the HTTP API of the WEBWARE
//! ERP product.
//!
//! The library covers the authenticated-request subsystem of that protocol:
//! request signing (an MD5 hash over the session credential and an HTTP-date
//! timestamp), the register/deregister session lifecycle, header
//! construction, request-body assembly, and the cursor-driven pagination
//! protocol. Everything here is plain state and computation; the HTTP
//! transport itself is left to the embedding application.

use vstd::prelude::*;

pub mod app_hash;
pub mod client;
pub mod credentials;
pub mod cursor;
pub mod cursor_response;
pub mod decimal;
pub mod error;
pub mod params;
pub mod requests;
pub mod responses;

pub use app_hash::AppHash;
pub use client::{ClientBuilder, WebwareClient};
pub use credentials::Credentials;
pub use cursor::Cursor;
pub use cursor_response::{CursoredResponse, PageResponse};
pub use error::WWSVCError;
pub use params::Parameters;

verus! {

/// Result type for this crate.
pub type WWClientResult<T> = Result<T, crate::error::WWSVCError>;

} // verus!

//! Common response types.
//!
//! The server answers every call with a `COMRESULT` status envelope; list
//! calls additionally wrap their records in a container object whose two
//! field names derive from the function name (`{FUNCTION}LISTE` holding a
//! `{FUNCTION}` array). A single generic container type stands in for the
//! per-function response shapes; the helpers below derive the wire field
//! names from the function name.

use vstd::prelude::*;

verus! {

/// COMRESULT of a request. Contains information about the status of the
/// request.
#[derive(Clone, Debug)]
pub struct ComResult {
    /// The HTTP status code of the request.
    pub status: u32,
    /// The HTTP status message of the request.
    pub code: String,
    /// Information about the request.
    pub info: String,
    /// Additional information about the request.
    pub info2: Option<String>,
    /// Additional information about the request.
    pub info3: Option<String>,
    /// Error number of the request.
    pub errno: Option<String>,
}

/// Service pass of a REGISTER request.
#[derive(Clone, Debug)]
pub struct ServicePass {
    /// The service pass.
    pub pass_id: String,
    /// The application ID linked to the service pass.
    pub app_id: String,
}

/// Response of a REGISTER request.
#[derive(Clone, Debug)]
pub struct RegisterResponse {
    /// The COMRESULT of the request. Contains information about the status
    /// of the request.
    pub com_result: ComResult,
    /// The returned service pass.
    pub service_pass: ServicePass,
}

/// Trait for response types that contain a list of items.
/// This allows cursored pagination to work with any response structure.
pub trait HasList<T>: Sized {
    /// The list of items the response carries, if any.
    spec fn spec_items(self) -> Option<Seq<T>>;

    /// Extract the list of items from the response.
    fn into_items(self) -> (r: Option<Vec<T>>)
        ensures
            r is Some <==> self.spec_items() is Some,
            r is Some ==> r.unwrap()@ == self.spec_items().unwrap(),
    ;
}

/// Container struct for the list of items of a list response.
#[derive(Clone, Debug)]
pub struct GetContainer<T> {
    /// The list of items.
    pub list: Option<Vec<T>>,
}

/// Generic response struct for a list request: the status envelope plus the
/// container of records.
#[derive(Clone, Debug)]
pub struct GetResponse<T> {
    /// The COMRESULT of the request. Contains information about the status
    /// of the request.
    pub com_result: ComResult,
    /// The container struct for the list of items.
    pub container: GetContainer<T>,
}

impl<T> HasList<T> for GetResponse<T> {
    /// The records in the container, if the list field was present.
    open spec fn spec_items(self) -> Option<Seq<T>> {
        match self.container.list {
            Some(v) => Some(v@),
            None => None,
        }
    }

    /// Extract the list of items from the response.
    fn into_items(self) -> (r: Option<Vec<T>>)
        ensures
            r is Some <==> self.spec_items() is Some,
            r is Some ==> r.unwrap()@ == self.spec_items().unwrap(),
    {
        self.container.list
    }
}

/// The name of the container field for a function: the function name
/// followed by `LISTE`.
pub fn function_list_name(function: &str) -> (r: String)
    ensures
        r@ == function@ + "LISTE"@,
{
    function.to_owned().concat("LISTE")
}

/// The name of the list-call service function for a record type: the
/// function name followed by `.GET`.
pub fn function_get_name(function: &str) -> (r: String)
    ensures
        r@ == function@ + ".GET"@,
{
    function.to_owned().concat(".GET")
}

} // verus!

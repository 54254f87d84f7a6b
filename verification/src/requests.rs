//! Request body types for the `EXECJSON` endpoint.

use vstd::prelude::*;

use crate::params::Parameters;

verus! {

/// The parameters of the function.
#[derive(Clone, Debug)]
pub struct ServiceFunctionParameter {
    /// The name of the parameter.
    pub name: String,
    /// The value of the parameter.
    pub content: String,
}

impl View for ServiceFunctionParameter {
    type V = (Seq<char>, Seq<char>);

    open spec fn view(&self) -> (Seq<char>, Seq<char>) {
        (self.name@, self.content@)
    }
}

/// The function to be executed.
#[derive(Clone, Debug)]
pub struct ServiceFunction {
    /// The name of the function.
    pub function_name: String,
    /// The parameters of the function.
    pub parameters: Vec<ServiceFunctionParameter>,
    /// The revision of the function.
    pub revision: u32,
}

/// The authentication info for a request.
#[derive(Clone, Debug)]
pub struct ServicePassInfo {
    /// The service pass.
    pub service_pass: String,
    /// The application hash.
    pub app_hash: String,
    /// The timestamp of the request.
    pub timestamp: String,
    /// The request ID.
    pub request_id: u32,
    /// The execute mode.
    pub execute_mode: String,
}

/// The request body for the `EXECJSON` endpoint.
#[derive(Clone, Debug)]
pub struct ExecJsonRequest {
    /// The service function to be executed.
    pub function: ServiceFunction,
    /// The authentication info for this request.
    pub pass_info: ServicePassInfo,
}

impl ExecJsonRequest {
    /// Creates a new `ExecJsonRequest` to be passed as a request body to the
    /// `EXECJSON` endpoint.
    pub fn new(
        function_name: &str,
        parameters: Vec<ServiceFunctionParameter>,
        version: u32,
        service_pass: &str,
        app_hash: &str,
        timestamp: &str,
        request_id: u32,
    ) -> (r: ExecJsonRequest)
        ensures
            r.function.function_name@ == function_name@,
            r.function.parameters == parameters,
            r.function.revision == version,
            r.pass_info.service_pass@ == service_pass@,
            r.pass_info.app_hash@ == app_hash@,
            r.pass_info.timestamp@ == timestamp@,
            r.pass_info.request_id == request_id,
            r.pass_info.execute_mode@ == "SYNCHRON"@,
    {
        ExecJsonRequest {
            function: ServiceFunction {
                function_name: function_name.to_owned(),
                parameters,
                revision: version,
            },
            pass_info: ServicePassInfo {
                service_pass: service_pass.to_owned(),
                app_hash: app_hash.to_owned(),
                timestamp: timestamp.to_owned(),
                request_id,
                execute_mode: "SYNCHRON".to_owned(),
            },
        }
    }
}

/// A fully prepared request to the WEBSERVICES: the HTTP method, the
/// resolved endpoint URL, the signed headers and the request body. The
/// embedding application turns it into an HTTP exchange.
#[derive(Clone, Debug)]
pub struct SignedRequest {
    /// The HTTP method to send the request with.
    pub method: String,
    /// The resolved endpoint URL.
    pub url: String,
    /// The headers of the request, in order; later entries win.
    pub headers: Vec<(String, String)>,
    /// The request body.
    pub body: ExecJsonRequest,
}

/// Trait for converting a type to a vector of `ServiceFunctionParameter`.
pub trait ToServiceFunctionParameters {
    /// The name/value pairs the conversion yields, in order.
    spec fn spec_params(&self) -> Seq<(Seq<char>, Seq<char>)>;

    /// Converts the type to a vector of `ServiceFunctionParameter`.
    fn to_service_function_parameters(&self) -> (r: Vec<ServiceFunctionParameter>)
        ensures
            r@.len() == self.spec_params().len(),
            forall|i: int| 0 <= i < r@.len() ==> (#[trigger] r@[i])@ == self.spec_params()[i],
    ;
}

impl ToServiceFunctionParameters for Parameters {
    /// The parameter entries, in insertion order.
    open spec fn spec_params(&self) -> Seq<(Seq<char>, Seq<char>)> {
        self@
    }

    /// Converts the collection to a vector of `ServiceFunctionParameter`.
    fn to_service_function_parameters(&self) -> (r: Vec<ServiceFunctionParameter>)
        ensures
            r@.len() == self.spec_params().len(),
            forall|i: int| 0 <= i < r@.len() ==> (#[trigger] r@[i])@ == self.spec_params()[i],
    {
        let entries = self.as_inner();
        let mut out: Vec<ServiceFunctionParameter> = Vec::new();
        let n = entries.len();
        let mut i: usize = 0;
        while i < n
            invariant
                i <= n,
                n == entries@.len(),
                out@.len() == i,
                forall|q: int|
                    0 <= q < entries@.len() ==> ((#[trigger] entries@[q]).0@, entries@[q].1@)
                        == self.spec_params()[q],
                entries@.len() == self.spec_params().len(),
                forall|q: int| 0 <= q < i ==> (#[trigger] out@[q])@ == self.spec_params()[q],
            decreases n - i,
        {
            let name: String = entries[i].0.clone();
            let content: String = entries[i].1.clone();
            out.push(ServiceFunctionParameter { name, content });
            i = i + 1;
        }
        out
    }
}

} // verus!

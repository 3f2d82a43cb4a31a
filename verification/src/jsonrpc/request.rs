//! JSON-RPC requests.
use vstd::prelude::*;

verus! {

/// A JSON value. What it holds is known by its text, [`json_text`].
#[verifier::external_type_specification]
#[verifier::external_body]
pub struct ExJsonValue(serde_json::Value);

/// The compact JSON text of a value.
pub uninterp spec fn json_text(value: serde_json::Value) -> Seq<char>;

/// `Clone` of a JSON value: the copy is the same value.
pub assume_specification[ <serde_json::Value as Clone>::clone ](
    value: &serde_json::Value,
) -> (copy: serde_json::Value)
    ensures
        copy == *value,
;

/// Calls `serde_json::to_string`: the value's compact JSON text. A JSON value has only
/// strings for keys, so the call does not fail.
#[verifier::external_body]
fn value_to_string(value: &serde_json::Value) -> (text: String)
    ensures
        text@ == json_text(*value),
{
    serde_json::to_string(value).expect("this should always serialize")
}

/// The identifier that a caller gives to a request, so as to find its response.
#[derive(Debug)]
pub enum LooseId {
    /// No identifier was given.
    Missing,
    /// A number.
    Number(u64),
    /// Any other identifier, as JSON text.
    Raw(String),
}

impl Clone for LooseId {
    fn clone(&self) -> (copy: LooseId)
        ensures
            copy == *self,
    {
        match self {
            LooseId::Missing => LooseId::Missing,
            LooseId::Number(number) => LooseId::Number(*number),
            LooseId::Raw(json) => LooseId::Raw(json.clone()),
        }
    }
}

/// One JSON-RPC request.
#[derive(Debug)]
pub struct SingleRequest {
    pub id: LooseId,
    pub method: String,
    pub params: serde_json::Value,
}

impl SingleRequest {
    /// The request with this identifier, method and parameters.
    pub fn new(id: LooseId, method: String, params: serde_json::Value) -> (request: SingleRequest)
        ensures
            request == (SingleRequest { id, method, params }),
    {
        SingleRequest { id, method, params }
    }
}

impl Clone for SingleRequest {
    fn clone(&self) -> (copy: SingleRequest)
        ensures
            copy == *self,
    {
        SingleRequest {
            id: self.id.clone(),
            method: self.method.clone(),
            params: self.params.clone(),
        }
    }
}

/// A whole request, or only what is known of one.
#[derive(Debug)]
pub enum RequestOrMethod {
    /// A whole request.
    Request(SingleRequest),
    /// Only the method of a request and its size in bytes.
    Method(String, usize),
}

impl RequestOrMethod {
    /// Nothing is known of the request yet.
    pub open spec fn is_unset(&self) -> bool {
        self matches RequestOrMethod::Method(method, size) && method@.len() == 0 && size == 0
    }

    /// The name of the method.
    pub open spec fn method_name(&self) -> Seq<char> {
        match self {
            RequestOrMethod::Request(request) => request.method@,
            RequestOrMethod::Method(method, _) => method@,
        }
    }

    /// The parameters as JSON text, `null` where they are not known.
    pub open spec fn params_json(&self) -> Seq<char> {
        match self {
            RequestOrMethod::Request(request) => json_text(request.params),
            RequestOrMethod::Method(_, _) => "null"@,
        }
    }

    /// The request with `params` in place of its own, where the whole request is known.
    pub open spec fn with_params(self, params: serde_json::Value) -> RequestOrMethod {
        match self {
            RequestOrMethod::Request(request) => {
                RequestOrMethod::Request(SingleRequest { params, ..request })
            },
            RequestOrMethod::Method(_, _) => self,
        }
    }

    /// The request's identifier.
    pub fn id(&self) -> (id: LooseId)
        ensures
            id == (match self {
                RequestOrMethod::Request(request) => request.id,
                RequestOrMethod::Method(_, _) => LooseId::Missing,
            }),
    {
        match self {
            RequestOrMethod::Request(request) => request.id.clone(),
            RequestOrMethod::Method(_, _) => LooseId::Missing,
        }
    }

    /// The name of the method.
    pub fn method(&self) -> (method: &str)
        ensures
            method@ == self.method_name(),
    {
        match self {
            RequestOrMethod::Request(request) => request.method.as_str(),
            RequestOrMethod::Method(method, _) => method.as_str(),
        }
    }

    /// The parameters as JSON text, `null` where they are not known.
    pub fn params_text(&self) -> (text: String)
        ensures
            text@ == self.params_json(),
    {
        match self {
            RequestOrMethod::Request(request) => value_to_string(&request.params),
            RequestOrMethod::Method(_, _) => "null".to_owned(),
        }
    }
}

impl Clone for RequestOrMethod {
    fn clone(&self) -> (copy: RequestOrMethod)
        ensures
            copy == *self,
    {
        match self {
            RequestOrMethod::Request(request) => RequestOrMethod::Request(request.clone()),
            RequestOrMethod::Method(method, size) => {
                RequestOrMethod::Method(method.clone(), *size)
            },
        }
    }
}

impl Default for RequestOrMethod {
    fn default() -> (unset: RequestOrMethod)
        ensures
            unset.is_unset(),
    {
        RequestOrMethod::Method(String::new(), 0)
    }
}

} // verus!

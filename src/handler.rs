use vstd::prelude::*;
use vstd::utf8::encode_utf8;
use crate::error::{
    error_json, json_string, json_string_of, CustomError, INTERNAL_SERVER_ERROR, NOT_AUTHORIZED,
};
use crate::launch::{launch_vars, Vars};
use crate::response::ResponseData;

verus! {

/// Message of a request served without a configured upstream endpoint.
pub const MISSING_ENDPOINT: &'static str = "environment variable not found: DAGSTER_ENDPOINT";

/// Message of a request served without a configured shared secret.
pub const MISSING_SECRET: &'static str = "environment variable not found: SIGNITURE";

/// Why a request was not served.
#[derive(Debug, Clone)]
pub enum HandlerError {
    /// The upstream endpoint is not configured.
    MissingEndpoint,
    /// The shared secret is not configured.
    MissingSecret,
    /// Authorization or the upstream failed; the message says which.
    Custom(CustomError),
}

impl HandlerError {
    /// The human-readable message of the error.
    pub open spec fn message(self) -> Seq<char> {
        match self {
            HandlerError::MissingEndpoint => MISSING_ENDPOINT@,
            HandlerError::MissingSecret => MISSING_SECRET@,
            HandlerError::Custom(e) => e.msg@,
        }
    }

    /// The error as a `CustomError` with the same message.
    pub fn to_custom(&self) -> (r: CustomError)
        ensures
            r.msg@ == self.message(),
    {
        match self {
            HandlerError::MissingEndpoint => CustomError::new(MISSING_ENDPOINT),
            HandlerError::MissingSecret => CustomError::new(MISSING_SECRET),
            HandlerError::Custom(e) => CustomError { msg: e.msg.clone() },
        }
    }

    /// The error rendered as a compact JSON object with a single `msg` field.
    pub fn to_json(&self) -> (r: String)
        ensures
            r@ == error_json(self.message()),
    {
        self.to_custom().to_json()
    }
}

/// The outbound call that an authorized request asks for.
#[derive(Debug, Clone)]
pub struct LaunchCall {
    pub endpoint: String,
    pub vars: Vars,
}

/// A successful HTTP reply, with the id of the run that it reports.
#[derive(Debug, Clone)]
pub struct Reply {
    pub status: u16,
    pub content_type: String,
    pub body: String,
    pub run_id: String,
}

/// The header value equals the secret: its bytes are the secret's UTF-8
/// bytes.
pub open spec fn signature_accepted(h: Seq<u8>, secret: Seq<char>) -> bool {
    h == encode_utf8(secret)
}

/// `r` is the custom error with message `msg`.
pub open spec fn fails_with<T>(r: Result<T, HandlerError>, msg: Seq<char>) -> bool {
    r matches Err(HandlerError::Custom(e)) && e.msg@ == msg
}

/// The body of a successful reply: `{"run_id":<id>}`.
pub open spec fn run_id_body(id: Seq<char>) -> Seq<char> {
    "{\"run_id\":"@ + json_string_of(id) + "}"@
}

/// The id of the run that the upstream reports as launched, if any.
pub open spec fn launched_run_id(upstream: Result<Option<ResponseData>, String>) -> Option<
    Seq<char>,
> {
    match upstream {
        Ok(Some(data)) => data.run_id(),
        _ => None,
    }
}

fn same_bytes(a: &[u8], b: &[u8]) -> (r: bool)
    ensures
        r == (a@ == b@),
{
    if a.len() != b.len() {
        return false;
    }
    let mut i: usize = 0;
    while i < a.len()
        invariant
            0 <= i <= a@.len(),
            a@.len() == b@.len(),
            forall|j: int| 0 <= j < i ==> a@[j] == b@[j],
        decreases a@.len() - i,
    {
        if a[i] != b[i] {
            return false;
        }
        i = i + 1;
    }
    assert(a@ =~= b@);
    true
}

/// Checks the `Signiture` header against the configured secret: a missing
/// header, or one that differs from the secret in any byte, is not
/// authorized.
pub fn check_signature(signature: Option<&[u8]>, secret: &String) -> (r: Result<(), HandlerError>)
    ensures
        r is Ok <==> (signature is Some && signature_accepted(signature->0@, secret@)),
        r is Err ==> fails_with(r, NOT_AUTHORIZED@),
{
    match signature {
        Some(h) if same_bytes(h, secret.as_str().as_bytes()) => Ok(()),
        _ => Err(HandlerError::Custom(CustomError::not_authorized())),
    }
}

/// Decides what to do with a request, before any outbound call: the
/// configuration must be complete (endpoint first, then secret), and the
/// `Signiture` header must equal the secret. An accepted request asks for
/// the fixed launch at the configured endpoint.
pub fn authorize(
    endpoint: Option<String>,
    secret: Option<String>,
    signature: Option<&[u8]>,
) -> (r: Result<LaunchCall, HandlerError>)
    ensures
        endpoint is None ==> r matches Err(HandlerError::MissingEndpoint),
        endpoint is Some && secret is None ==> r matches Err(HandlerError::MissingSecret),
        endpoint is Some && secret is Some && !(signature is Some && signature_accepted(
            signature->0@,
            secret->0@,
        )) ==> fails_with(r, NOT_AUTHORIZED@),
        r is Ok <==> (endpoint is Some && secret is Some && signature is Some && signature_accepted(
            signature->0@,
            secret->0@,
        )),
        r is Ok ==> r->Ok_0.endpoint == endpoint->0 && r->Ok_0.vars.is_fixed_launch(),
{
    let endpoint = match endpoint {
        Some(e) => e,
        None => return Err(HandlerError::MissingEndpoint),
    };
    let secret = match secret {
        Some(s) => s,
        None => return Err(HandlerError::MissingSecret),
    };
    match check_signature(signature, &secret) {
        Ok(()) => Ok(LaunchCall { endpoint, vars: launch_vars() }),
        Err(e) => Err(e),
    }
}

/// The reply to a launch that created the run `run_id`: status 200, a JSON
/// content type, and the body `{"run_id":<run_id>}`.
pub fn run_reply(run_id: &str) -> (r: Reply)
    ensures
        r.status == 200,
        r.content_type@ == "application/json"@,
        r.body@ == run_id_body(run_id@),
        r.run_id@ == run_id@,
{
    let quoted = json_string(run_id);
    let body = String::from_str("{\"run_id\":").concat(quoted.as_str()).concat("}");
    Reply {
        status: 200,
        content_type: String::from_str("application/json"),
        body,
        run_id: run_id.to_owned(),
    }
}

/// Maps the upstream's answer to the reply: a failed call fails with the
/// upstream's error text; an answer without a launched run fails with the
/// generic internal error; a launched run is reported by its id.
pub fn conclude(upstream: Result<Option<ResponseData>, String>) -> (r: Result<Reply, CustomError>)
    ensures
        upstream is Err ==> r is Err && r->Err_0.msg@ == upstream->Err_0@,
        upstream is Ok && launched_run_id(upstream) is None ==> r is Err && r->Err_0.msg@
            == INTERNAL_SERVER_ERROR@,
        launched_run_id(upstream) is Some ==> r is Ok && r->Ok_0.status == 200
            && r->Ok_0.content_type@ == "application/json"@ && r->Ok_0.body@ == run_id_body(
            launched_run_id(upstream)->0,
        ) && r->Ok_0.run_id@ == launched_run_id(upstream)->0,
{
    match upstream {
        Err(text) => Err(CustomError { msg: text }),
        Ok(None) => Err(CustomError::internal()),
        Ok(Some(data)) => match data.launch_run.run {
            Some(run) => Ok(run_reply(run.run_id.as_str())),
            None => Err(CustomError::internal()),
        },
    }
}

} // verus!

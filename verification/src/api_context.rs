use vstd::prelude::*;

use crate::api_error::ApiError;
use crate::apis::GetHelloResponse;
use crate::apis::HttpResponse;
use crate::apis::INTERNAL_SERVER_ERROR;
use crate::apis::spec_greeting;
use crate::handlers::hello_handler;
use crate::handlers::hello_handler::hello_ok;
use crate::request::CookieJar;
use crate::request::Host;
use crate::request::Method;

verus! {

/// The dispatch context: one shared, immutable-after-construction object that
/// implements one method per declared endpoint, delegating each to its
/// handler. It holds no fields in this scaffold; shared resources added later
/// (pools, config) would live here, read without mutation.
#[derive(Debug)]
pub struct ApiContext {}

impl ApiContext {
    /// A fresh context, constructed once at process start.
    pub fn new() -> ApiContext {
        ApiContext {}
    }

    /// Dispatch method for the hello endpoint: calls exactly its handler and
    /// returns the handler's result unchanged. No behaviour of the endpoint
    /// lives here.
    pub fn get_hello(
        &self,
        method: &Method,
        host: &Host,
        cookies: &CookieJar,
    ) -> (r: Result<GetHelloResponse, ApiError>)
        ensures
            hello_ok(r),
    {
        hello_handler::get_hello_logic(self, method, host, cookies)
    }

    /// The error-handling hook, the sole place failures become responses.
    /// The default policy maps every failure kind to the fallback status with
    /// the failure's message as body. It never fails itself, so the err arm
    /// (a bare status, for when even error formatting failed) is never taken.
    pub fn handle_error(
        &self,
        _method: &Method,
        _host: &Host,
        _cookies: &CookieJar,
        error: ApiError,
    ) -> (r: Result<HttpResponse, u16>)
        ensures
            r matches Ok(resp) && resp.status == INTERNAL_SERVER_ERROR && resp.body@
                == error.spec_message(),
    {
        let body = error.message();
        Ok(HttpResponse { status: INTERNAL_SERVER_ERROR, body })
    }

    /// The whole flow for one request to the hello endpoint, as the routing
    /// layer drives it: dispatch, then the variant lowered to the wire; on a
    /// failure, the error-handling hook. The endpoint never fails, so every
    /// response is a 200 carrying the greeting.
    pub fn serve_hello(
        &self,
        method: &Method,
        host: &Host,
        cookies: &CookieJar,
    ) -> (resp: HttpResponse)
        ensures
            resp.status == 200,
            resp.body@ == spec_greeting(),
    {
        match self.get_hello(method, host, cookies) {
            Ok(variant) => variant.into_response(),
            Err(failure) => match self.handle_error(method, host, cookies, failure) {
                Ok(resp) => resp,
                Err(status) => HttpResponse { status, body: String::new() },
            },
        }
    }
}

/// Idempotence: two invocations of the hello endpoint, on any metadata and in
/// any order or interleaving, produce structurally identical outcomes — both
/// succeed, with the same variant, status and body. The endpoint's contract
/// names one outcome, so any collection of results agrees pairwise.
pub proof fn lemma_hello_idempotent(
    r1: Result<GetHelloResponse, ApiError>,
    r2: Result<GetHelloResponse, ApiError>,
)
    requires
        hello_ok(r1),
        hello_ok(r2),
    ensures
        r1 is Ok,
        r2 is Ok,
        r1->Ok_0@ == r2->Ok_0@,
        r1->Ok_0.spec_status() == r2->Ok_0.spec_status(),
{
}

} // verus!

use vstd::prelude::*;

use crate::api_context::ApiContext;
use crate::api_error::ApiError;
use crate::apis::GetHelloResponse;
use crate::apis::spec_greeting;
use crate::request::CookieJar;
use crate::request::Host;
use crate::request::Method;

verus! {

/// The hello endpoint's documented outcome: the status-200 variant carrying
/// the fixed greeting, whatever the request's metadata.
pub open spec fn hello_ok(r: Result<GetHelloResponse, ApiError>) -> bool {
    r matches Ok(resp) && resp@ == spec_greeting() && resp.spec_status() == 200
}

/// Handler for the hello endpoint. All behaviour for the endpoint lives here:
/// it reads nothing from the context or the metadata and unconditionally
/// returns the 200 variant with the fixed greeting. No error path exists.
pub fn get_hello_logic(
    _context: &ApiContext,
    _method: &Method,
    _host: &Host,
    _cookies: &CookieJar,
) -> (r: Result<GetHelloResponse, ApiError>)
    ensures
        hello_ok(r),
{
    let greeting = "Hello from Rust Axum Server Example!".to_owned();
    Ok(GetHelloResponse::Status200_ASuccessfulResponseWithAGreetingMessage(greeting))
}

} // verus!

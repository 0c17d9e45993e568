use vstd::prelude::*;

verus! {

/// The greeting the hello endpoint returns, fixed for every request.
pub open spec fn spec_greeting() -> Seq<char> {
    "Hello from Rust Axum Server Example!"@
}

/// The status code the error-handling hook falls back to.
pub const INTERNAL_SERVER_ERROR: u16 = 500;

/// A wire-level HTTP response: a status code and a body text. This is what
/// the routing layer sends back to the client.
#[derive(Debug)]
pub struct HttpResponse {
    pub status: u16,
    pub body: String,
}

/// The declared response variants of the hello endpoint: one variant per
/// documented status, each carrying the body type documented for it. The
/// interface description declares a single status, 200, with a string body.
#[derive(Debug)]
#[allow(non_camel_case_types)]
pub enum GetHelloResponse {
    Status200_ASuccessfulResponseWithAGreetingMessage(String),
}

impl View for GetHelloResponse {
    type V = Seq<char>;

    open spec fn view(&self) -> Seq<char> {
        match self {
            GetHelloResponse::Status200_ASuccessfulResponseWithAGreetingMessage(body) => body@,
        }
    }
}

impl GetHelloResponse {
    /// The HTTP status documented for this variant.
    pub open spec fn spec_status(self) -> u16 {
        match self {
            GetHelloResponse::Status200_ASuccessfulResponseWithAGreetingMessage(_) => 200,
        }
    }

    /// The status code this variant answers with.
    pub fn status(&self) -> (code: u16)
        ensures
            code == self.spec_status(),
    {
        match self {
            GetHelloResponse::Status200_ASuccessfulResponseWithAGreetingMessage(_) => 200,
        }
    }

    /// Lower the typed variant to the wire-level response it documents: its
    /// status code, and its carried value as the body.
    pub fn into_response(self) -> (resp: HttpResponse)
        ensures
            resp.status == self.spec_status(),
            resp.body@ == self@,
    {
        match self {
            GetHelloResponse::Status200_ASuccessfulResponseWithAGreetingMessage(body) => {
                HttpResponse { status: 200, body }
            },
        }
    }
}

} // verus!

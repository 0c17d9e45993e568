use vstd::prelude::*;

verus! {

/// The HTTP method of an inbound request, as the framework reports it.
/// Extension methods outside the registered set carry their token.
#[derive(Clone, Debug)]
pub enum Method {
    Get,
    Post,
    Put,
    Delete,
    Head,
    Options,
    Patch,
    Trace,
    Connect,
    Other(String),
}

/// The host the client asked for.
#[derive(Clone, Debug)]
pub struct Host(pub String);

/// One cookie of a request: a name/value pair.
#[derive(Clone, Debug)]
pub struct Cookie {
    pub name: String,
    pub value: String,
}

/// The cookies an inbound request carried. Handlers receive it read-only and
/// never retain it beyond the request.
#[derive(Clone, Debug)]
pub struct CookieJar {
    pub cookies: Vec<Cookie>,
}

impl CookieJar {
    /// An empty jar, for requests that carry no cookies.
    pub fn new() -> (jar: CookieJar)
        ensures
            jar.cookies@.len() == 0,
    {
        CookieJar { cookies: Vec::new() }
    }
}

} // verus!

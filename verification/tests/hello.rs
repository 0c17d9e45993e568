use orate_server::api_context::ApiContext;
use orate_server::api_error::ApiError;
use orate_server::apis::GetHelloResponse;
use orate_server::request::Cookie;
use orate_server::request::CookieJar;
use orate_server::request::Host;
use orate_server::request::Method;

const GREETING: &str = "Hello from Rust Axum Server Example!";

fn body_of(resp: GetHelloResponse) -> String {
    let GetHelloResponse::Status200_ASuccessfulResponseWithAGreetingMessage(body) = resp;
    body
}

fn jar_with(pairs: &[(&str, &str)]) -> CookieJar {
    let mut cookies = Vec::new();
    for (name, value) in pairs {
        cookies.push(Cookie { name: name.to_string(), value: value.to_string() });
    }
    CookieJar { cookies }
}

#[test]
fn get_hello_returns_200_greeting() {
    let ctx = ApiContext::new();
    let r = ctx.get_hello(&Method::Get, &Host("127.0.0.1:3000".to_string()), &CookieJar::new());
    let variant = r.expect("the hello endpoint never fails");
    assert_eq!(variant.status(), 200);
    assert_eq!(body_of(variant), GREETING);
}

#[test]
fn get_hello_ignores_method_host_and_cookies() {
    let ctx = ApiContext::new();
    let methods = vec![
        Method::Get,
        Method::Post,
        Method::Put,
        Method::Delete,
        Method::Head,
        Method::Options,
        Method::Patch,
        Method::Trace,
        Method::Connect,
        Method::Other("PURGE".to_string()),
    ];
    let hosts = vec![
        Host("localhost".to_string()),
        Host("example.com:8080".to_string()),
        Host(String::new()),
    ];
    let jars = vec![
        CookieJar::new(),
        jar_with(&[("session", "abc123")]),
        jar_with(&[("a", "1"), ("b", "2"), ("a", "3")]),
    ];
    for method in &methods {
        for host in &hosts {
            for jar in &jars {
                let r = ctx.get_hello(method, host, jar);
                let variant = r.expect("the hello endpoint never fails");
                assert_eq!(variant.status(), 200);
                assert_eq!(body_of(variant), GREETING);
            }
        }
    }
}

#[test]
fn get_hello_is_idempotent() {
    let ctx = ApiContext::new();
    let host = Host("localhost".to_string());
    let jar = jar_with(&[("k", "v")]);
    let mut seen: Vec<(u16, String)> = Vec::new();
    for _ in 0..10 {
        let variant = ctx.get_hello(&Method::Get, &host, &jar).expect("never fails");
        let status = variant.status();
        seen.push((status, body_of(variant)));
    }
    for pair in &seen {
        assert_eq!(pair, &(200u16, GREETING.to_string()));
    }
}

#[test]
fn serve_hello_full_flow() {
    let ctx = ApiContext::new();
    let resp = ctx.serve_hello(&Method::Get, &Host("localhost".to_string()), &CookieJar::new());
    assert_eq!(resp.status, 200);
    assert_eq!(resp.body, GREETING);
}

#[test]
fn into_response_keeps_body() {
    let variant =
        GetHelloResponse::Status200_ASuccessfulResponseWithAGreetingMessage("hi".to_string());
    let resp = variant.into_response();
    assert_eq!(resp.status, 200);
    assert_eq!(resp.body, "hi");
}

#[test]
fn handle_error_internal_maps_to_fallback_status() {
    let ctx = ApiContext::new();
    let failure = ApiError::InternalServerError("x".to_string());
    let r = ctx.handle_error(
        &Method::Get,
        &Host("localhost".to_string()),
        &CookieJar::new(),
        failure,
    );
    let resp = r.expect("the default hook never fails");
    assert_eq!(resp.status, 500);
    assert_eq!(resp.body, "Internal server error: x");
}

#[test]
fn handle_error_io_maps_to_fallback_status() {
    let ctx = ApiContext::new();
    let failure = ApiError::IoError("connection reset by peer".to_string());
    let r = ctx.handle_error(
        &Method::Post,
        &Host("example.com".to_string()),
        &jar_with(&[("s", "t")]),
        failure,
    );
    let resp = r.expect("the default hook never fails");
    assert_eq!(resp.status, 500);
    assert_eq!(resp.body, "Internal server error: connection reset by peer");
}

#[test]
fn error_message_uses_one_template_for_every_kind() {
    let internal = ApiError::InternalServerError("boom".to_string());
    assert_eq!(internal.message(), "Internal server error: boom");
    let io = ApiError::IoError("file not found".to_string());
    assert_eq!(io.message(), "Internal server error: file not found");
    let empty = ApiError::InternalServerError(String::new());
    assert_eq!(empty.message(), "Internal server error: ");
}

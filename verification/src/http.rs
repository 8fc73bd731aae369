//! The HTTP surface's logic: which route a request names, and the
//! exact JSON bodies the controller answers with.
//!
//! Listening, reading requests and writing responses belong to the
//! embedding server; every decision and every byte of a body is fixed
//! here.

use vstd::prelude::*;
use crate::device::Action;
use crate::device::State;
use crate::device::action_label_spec;
use crate::device::action_label;
use crate::errors::Error;
use crate::errors::error_message;
use crate::id::DeviceId;
use crate::mac::hex_char;
use crate::mac::hex_char_exec;

verus! {

/// The request methods the surface distinguishes.
#[derive(Clone, Copy, Debug, PartialEq, Eq, Structural)]
pub enum HttpMethod {
    Get,
    Post,
    /// Anything else.
    Other,
}

/// What a request resolves to. Device-scoped routes carry the raw
/// identifier segment; whether such a device exists is decided later,
/// against the device map.
#[derive(Debug, PartialEq, Eq)]
pub enum Route {
    /// `GET /device/{id}/status`
    Status(String),
    /// `POST /device/{id}/suspend`
    Suspend(String),
    /// `POST /device/{id}/shutdown`
    ShutDown(String),
    /// `POST /device/{id}/reboot`
    Reboot(String),
    /// `POST /device/{id}/run`
    Run(String),
    /// No route has this path.
    NotFound,
    /// The path exists, the method does not fit it.
    MethodNotAllowed,
}

/// The routing table over the path's segments.
pub open spec fn route_spec(method: HttpMethod, segments: Seq<String>) -> Route {
    if segments.len() == 3 && segments[0]@ == "device"@ {
        let id = segments[1];
        if segments[2]@ == "status"@ {
            if method is Get {
                Route::Status(id)
            } else {
                Route::MethodNotAllowed
            }
        } else if segments[2]@ == "suspend"@ {
            if method is Post {
                Route::Suspend(id)
            } else {
                Route::MethodNotAllowed
            }
        } else if segments[2]@ == "shutdown"@ {
            if method is Post {
                Route::ShutDown(id)
            } else {
                Route::MethodNotAllowed
            }
        } else if segments[2]@ == "reboot"@ {
            if method is Post {
                Route::Reboot(id)
            } else {
                Route::MethodNotAllowed
            }
        } else if segments[2]@ == "run"@ {
            if method is Post {
                Route::Run(id)
            } else {
                Route::MethodNotAllowed
            }
        } else {
            Route::NotFound
        }
    } else {
        Route::NotFound
    }
}

/// Resolves a request's method and path segments to a route.
pub fn match_route(method: HttpMethod, segments: &Vec<String>) -> (r: Route)
    ensures
        r == route_spec(method, segments@),
{
    if segments.len() != 3 {
        return Route::NotFound;
    }
    if !segments[0].eq(&String::from_str("device")) {
        return Route::NotFound;
    }
    let id = segments[1].clone();
    let verb = &segments[2];
    if verb.eq(&String::from_str("status")) {
        if matches!(method, HttpMethod::Get) {
            Route::Status(id)
        } else {
            Route::MethodNotAllowed
        }
    } else if verb.eq(&String::from_str("suspend")) {
        if matches!(method, HttpMethod::Post) {
            Route::Suspend(id)
        } else {
            Route::MethodNotAllowed
        }
    } else if verb.eq(&String::from_str("shutdown")) {
        if matches!(method, HttpMethod::Post) {
            Route::ShutDown(id)
        } else {
            Route::MethodNotAllowed
        }
    } else if verb.eq(&String::from_str("reboot")) {
        if matches!(method, HttpMethod::Post) {
            Route::Reboot(id)
        } else {
            Route::MethodNotAllowed
        }
    } else if verb.eq(&String::from_str("run")) {
        if matches!(method, HttpMethod::Post) {
            Route::Run(id)
        } else {
            Route::MethodNotAllowed
        }
    } else {
        Route::NotFound
    }
}

/// How one character appears inside a JSON string: quote and backslash
/// escaped, the common control characters in their short forms, other
/// control characters as `\u00XX`, everything else as itself.
pub open spec fn json_escaped_char(c: char) -> Seq<char> {
    if c == '"' {
        seq!['\\', '"']
    } else if c == '\\' {
        seq!['\\', '\\']
    } else if c == '\u{8}' {
        seq!['\\', 'b']
    } else if c == '\t' {
        seq!['\\', 't']
    } else if c == '\n' {
        seq!['\\', 'n']
    } else if c == '\u{c}' {
        seq!['\\', 'f']
    } else if c == '\r' {
        seq!['\\', 'r']
    } else if (c as u32) < 32 {
        seq!['\\', 'u', '0', '0', hex_char((c as u32 / 16) as u8), hex_char((c as u32 % 16) as u8)]
    } else {
        seq![c]
    }
}

/// A string's characters, each as it appears inside a JSON string.
pub open spec fn json_escaped(s: Seq<char>) -> Seq<char>
    decreases s.len(),
{
    if s.len() == 0 {
        Seq::empty()
    } else {
        json_escaped(s.drop_last()) + json_escaped_char(s.last())
    }
}

/// Escapes a string for inclusion in a JSON string literal.
pub fn json_escape(s: &str) -> (r: String)
    ensures
        r@ == json_escaped(s@),
{
    let len = s.unicode_len();
    let mut out = String::new();
    let mut i: usize = 0;
    while i < len
        invariant
            len == s@.len(),
            i <= len,
            out@ == json_escaped(s@.take(i as int)),
        decreases len - i,
    {
        let c = s.get_char(i);
        if c == '"' {
            out.push('\\');
            out.push('"');
        } else if c == '\\' {
            out.push('\\');
            out.push('\\');
        } else if c == '\u{8}' {
            out.push('\\');
            out.push('b');
        } else if c == '\t' {
            out.push('\\');
            out.push('t');
        } else if c == '\n' {
            out.push('\\');
            out.push('n');
        } else if c == '\u{c}' {
            out.push('\\');
            out.push('f');
        } else if c == '\r' {
            out.push('\\');
            out.push('r');
        } else {
            let n = c as u32;
            if n < 32 {
                out.push('\\');
                out.push('u');
                out.push('0');
                out.push('0');
                let hi = (n / 16) as u8;
                let lo = (n % 16) as u8;
                out.push(hex_char_exec(hi));
                out.push(hex_char_exec(lo));
            } else {
                out.push(c);
            }
        }
        proof {
            assert(s@.take(i + 1 as int).drop_last() =~= s@.take(i as int));
            assert(s@.take(i + 1 as int).last() == s@[i as int]);
            assert(out@ =~= json_escaped(s@.take(i + 1 as int)));
        }
        i += 1;
    }
    proof {
        assert(s@.take(len as int) =~= s@);
    }
    out
}

/// The body answering a status read: the observed state, and the
/// target when there is one.
pub open spec fn status_body_spec(s: State) -> Seq<char> {
    match s {
        State::Unknown => "{\"state\":\"unknown\"}"@,
        State::Off => "{\"state\":\"off\"}"@,
        State::Running(t) => "{\"state\":\"running\",\"target\":\""@ + json_escaped(t@) + "\"}"@,
    }
}

/// Renders the body answering `GET /device/{id}/status`.
pub fn status_body(s: &State) -> (r: String)
    ensures
        r@ == status_body_spec(*s),
{
    match s {
        State::Unknown => String::from_str("{\"state\":\"unknown\"}"),
        State::Off => String::from_str("{\"state\":\"off\"}"),
        State::Running(t) => {
            let mut out = String::from_str("{\"state\":\"running\",\"target\":\"");
            let escaped = json_escape(t.as_string().as_str());
            out.append(escaped.as_str());
            out.append("\"}");
            out
        },
    }
}

/// The body answering an accepted action.
pub open spec fn action_success_body_spec(id: DeviceId, a: Action) -> Seq<char> {
    "{\"success\":true,\"device\":\""@ + json_escaped(id@) + "\",\"action\":\""@ + json_escaped(
        action_label_spec(a),
    ) + "\"}"@
}

/// Renders the body telling a caller their action was accepted.
pub fn action_success_body(id: &DeviceId, a: &Action) -> (r: String)
    ensures
        r@ == action_success_body_spec(*id, *a),
{
    let mut out = String::from_str("{\"success\":true,\"device\":\"");
    let escaped_id = json_escape(id.as_string().as_str());
    out.append(escaped_id.as_str());
    out.append("\",\"action\":\"");
    let label = action_label(a);
    let escaped_label = json_escape(label.as_str());
    out.append(escaped_label.as_str());
    out.append("\"}");
    out
}

/// The body reporting a failure.
pub open spec fn error_body_spec(message: Seq<char>) -> Seq<char> {
    "{\"success\":false,\"error\":\""@ + json_escaped(message) + "\"}"@
}

/// Renders the body reporting a failure.
pub fn error_body(message: &str) -> (r: String)
    ensures
        r@ == error_body_spec(message@),
{
    let mut out = String::from_str("{\"success\":false,\"error\":\"");
    let escaped = json_escape(message);
    out.append(escaped.as_str());
    out.append("\"}");
    out
}

/// The status and body answering a request for an unknown path or an
/// unknown device.
pub fn not_found_response() -> (r: (u16, String))
    ensures
        r.0 == 404,
        r.1@ == error_body_spec("Not found"@),
{
    (404, error_body("Not found"))
}

/// The status and body answering a request whose method does not fit
/// its path.
pub fn method_not_allowed_response() -> (r: (u16, String))
    ensures
        r.0 == 405,
        r.1@ == error_body_spec("HTTP method not allowed"@),
{
    (405, error_body("HTTP method not allowed"))
}

/// The status and body answering a request the surface cannot explain.
pub fn internal_error_response() -> (r: (u16, String))
    ensures
        r.0 == 500,
        r.1@ == error_body_spec("Internal error"@),
{
    (500, error_body("Internal error"))
}

/// The status and body reporting that submitting an action to a device
/// failed: always 503, the caller may retry.
pub fn action_failure_response(id: &DeviceId, e: &Error) -> (r: (u16, String))
    ensures
        r.0 == 503,
        r.1@ == error_body_spec(
            "Operation on "@ + id@ + " failed: "@ + error_message(*e),
        ),
{
    let mut m = String::from_str("Operation on ");
    m.append(id.as_string().as_str());
    m.append(" failed: ");
    let detail = e.message();
    m.append(detail.as_str());
    (503, error_body(m.as_str()))
}

} // verus!

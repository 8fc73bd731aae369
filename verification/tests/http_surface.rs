use samwise::device::{Action, State};
use samwise::errors::Error;
use samwise::http::{
    action_failure_response, action_success_body, error_body, internal_error_response,
    json_escape, match_route, method_not_allowed_response, not_found_response, status_body,
    HttpMethod, Route,
};
use samwise::id::{DeviceId, TargetId};

fn segs(parts: &[&str]) -> Vec<String> {
    parts.iter().map(|s| s.to_string()).collect()
}

#[test]
fn routes_resolve_by_path_and_method() {
    assert_eq!(
        match_route(HttpMethod::Get, &segs(&["device", "htpc", "status"])),
        Route::Status("htpc".to_string())
    );
    assert_eq!(
        match_route(HttpMethod::Post, &segs(&["device", "htpc", "suspend"])),
        Route::Suspend("htpc".to_string())
    );
    assert_eq!(
        match_route(HttpMethod::Post, &segs(&["device", "htpc", "shutdown"])),
        Route::ShutDown("htpc".to_string())
    );
    assert_eq!(
        match_route(HttpMethod::Post, &segs(&["device", "htpc", "reboot"])),
        Route::Reboot("htpc".to_string())
    );
    assert_eq!(
        match_route(HttpMethod::Post, &segs(&["device", "htpc", "run"])),
        Route::Run("htpc".to_string())
    );
}

#[test]
fn wrong_method_is_distinguished_from_wrong_path() {
    assert_eq!(
        match_route(HttpMethod::Post, &segs(&["device", "htpc", "status"])),
        Route::MethodNotAllowed
    );
    assert_eq!(
        match_route(HttpMethod::Get, &segs(&["device", "htpc", "reboot"])),
        Route::MethodNotAllowed
    );
    assert_eq!(
        match_route(HttpMethod::Other, &segs(&["device", "htpc", "run"])),
        Route::MethodNotAllowed
    );
    assert_eq!(match_route(HttpMethod::Get, &segs(&["device", "htpc"])), Route::NotFound);
    assert_eq!(
        match_route(HttpMethod::Get, &segs(&["machine", "htpc", "status"])),
        Route::NotFound
    );
    assert_eq!(
        match_route(HttpMethod::Get, &segs(&["device", "htpc", "destroy"])),
        Route::NotFound
    );
    assert_eq!(match_route(HttpMethod::Get, &segs(&[])), Route::NotFound);
}

#[test]
fn status_bodies_are_exact() {
    assert_eq!(status_body(&State::Unknown), "{\"state\":\"unknown\"}");
    assert_eq!(status_body(&State::Off), "{\"state\":\"off\"}");
    let t = TargetId::new("ubuntu".to_string()).unwrap();
    assert_eq!(
        status_body(&State::Running(t)),
        "{\"state\":\"running\",\"target\":\"ubuntu\"}"
    );
}

#[test]
fn action_success_body_is_exact() {
    let id = DeviceId::new("d1".to_string()).unwrap();
    let t = TargetId::new("ubuntu".to_string()).unwrap();
    assert_eq!(
        action_success_body(&id, &Action::Run(t)),
        "{\"success\":true,\"device\":\"d1\",\"action\":\"run ubuntu\"}"
    );
    assert_eq!(
        action_success_body(&id, &Action::ShutDown),
        "{\"success\":true,\"device\":\"d1\",\"action\":\"shut down\"}"
    );
}

#[test]
fn error_responses_carry_code_and_body() {
    let (code, body) = not_found_response();
    assert_eq!(code, 404);
    assert_eq!(body, "{\"success\":false,\"error\":\"Not found\"}");

    let (code, body) = method_not_allowed_response();
    assert_eq!(code, 405);
    assert_eq!(body, "{\"success\":false,\"error\":\"HTTP method not allowed\"}");

    let (code, body) = internal_error_response();
    assert_eq!(code, 500);
    assert_eq!(body, "{\"success\":false,\"error\":\"Internal error\"}");
}

#[test]
fn busy_device_failure_names_the_device() {
    let id = DeviceId::new("htpc".to_string()).unwrap();
    let e = Error::DeviceBusy(id.clone());
    let (code, body) = action_failure_response(&id, &e);
    assert_eq!(code, 503);
    assert_eq!(
        body,
        "{\"success\":false,\"error\":\"Operation on htpc failed: device htpc is busy\"}"
    );
}

#[test]
fn json_escaping_covers_quotes_and_controls() {
    assert_eq!(json_escape("plain"), "plain");
    assert_eq!(json_escape("say \"hi\""), "say \\\"hi\\\"");
    assert_eq!(json_escape("back\\slash"), "back\\\\slash");
    assert_eq!(json_escape("a\nb\tc\rd"), "a\\nb\\tc\\rd");
    assert_eq!(json_escape("\u{8}\u{c}"), "\\b\\f");
    assert_eq!(json_escape("\u{1}\u{1f}"), "\\u0001\\u001f");
}

#[test]
fn http_status_follows_error_kind() {
    let id = DeviceId::new("d1".to_string()).unwrap();
    let t = TargetId::new("x".to_string()).unwrap();
    assert_eq!(Error::UnknownDevice(id.clone()).http_status(), 404);
    assert_eq!(Error::ConfigInvalid("bad".to_string()).http_status(), 500);
    assert_eq!(Error::DeviceBusy(id).http_status(), 503);
    assert_eq!(Error::UnknownTarget(t).http_status(), 503);
    assert_eq!(Error::AgentRpcFailed("down".to_string()).http_status(), 503);
    assert_eq!(Error::ConfigWriteFailed("io".to_string()).http_status(), 503);
    assert_eq!(Error::Timeout.http_status(), 503);
    assert_eq!(Error::StateChannelClosed.http_status(), 503);
}

#[test]
fn error_messages_are_exact() {
    let id = DeviceId::new("htpc".to_string()).unwrap();
    let t = TargetId::new("plan9".to_string()).unwrap();
    assert_eq!(Error::DeviceBusy(id.clone()).message(), "device htpc is busy");
    assert_eq!(Error::UnknownDevice(id).message(), "no such device: htpc");
    assert_eq!(Error::UnknownTarget(t).message(), "No such target `plan9`");
    assert_eq!(
        Error::Timeout.message(),
        "Timed out waiting for device to reach desired state"
    );
    assert_eq!(Error::StateChannelClosed.message(), "State channel closed");
    // The kinds that wrap a report pass it through unchanged.
    assert_eq!(Error::ConfigInvalid("duplicate device".to_string()).message(), "duplicate device");
    assert_eq!(
        Error::AgentRpcFailed("Rebooting via agent failed".to_string()).message(),
        "Rebooting via agent failed"
    );
    assert_eq!(
        Error::ConfigWriteFailed("Could not open GRUB config file `x`".to_string()).message(),
        "Could not open GRUB config file `x`"
    );
    assert_eq!(error_body("x"), "{\"success\":false,\"error\":\"x\"}");
}

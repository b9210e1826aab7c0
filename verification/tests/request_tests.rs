use hookd::config::Command;
use hookd::headers::Header;
use hookd::request::{
    authorize_and_route, matching_commands, routed_message, routed_status, screen_message,
    screen_status, screen_request, Routed, Screen, BODY_LIMIT,
};
use hookd::signature::signature_header_value;

fn hdr(name: &str, value: &[u8]) -> Header {
    Header { name: name.to_string(), value: value.to_vec() }
}

fn cmd(event: &str, command: &str, args: &[&str]) -> Command {
    Command {
        event: event.to_string(),
        command: command.to_string(),
        args: args.iter().map(|a| a.to_string()).collect(),
    }
}

#[test]
fn get_is_not_found() {
    let headers = vec![hdr("x-github-event", b"ping")];
    let r = screen_request("GET", "/", &headers, Some(2));
    assert!(matches!(r, Screen::NotFound));
    assert_eq!(screen_status(&r), 404);
    assert_eq!(screen_message(&r), "");
}

#[test]
fn other_path_is_not_found() {
    let headers = vec![hdr("x-github-event", b"ping")];
    let r = screen_request("POST", "/hooks", &headers, Some(2));
    assert!(matches!(r, Screen::NotFound));
}

#[test]
fn missing_event_header_is_bad_request() {
    let headers = vec![hdr("x-hub-signature-256", b"sha256=00")];
    let r = screen_request("POST", "/", &headers, Some(2));
    assert!(matches!(r, Screen::MissingEvent));
    assert_eq!(screen_status(&r), 400);
    assert_eq!(screen_message(&r), "Missing header: X-GitHub-Event");
}

#[test]
fn non_ascii_event_header_is_bad_request() {
    let headers = vec![hdr("x-github-event", &[0x70, 0x07])];
    let r = screen_request("POST", "/", &headers, Some(2));
    assert!(matches!(r, Screen::InvalidEventText));
    assert_eq!(screen_status(&r), 400);
    assert_eq!(screen_message(&r), "Invalid ASCII in header: X-GitHub-Event");
}

#[test]
fn oversized_body_is_payload_too_large() {
    let headers = vec![hdr("x-github-event", b"ping")];
    let r = screen_request("POST", "/", &headers, Some(BODY_LIMIT + 1));
    assert!(matches!(r, Screen::TooLarge));
    assert_eq!(screen_status(&r), 413);
    assert_eq!(screen_message(&r), "Body too big");
}

#[test]
fn unknown_size_counts_as_oversized() {
    let headers = vec![hdr("x-github-event", b"ping")];
    let r = screen_request("POST", "/", &headers, None);
    assert!(matches!(r, Screen::TooLarge));
}

#[test]
fn size_at_bound_passes_with_event() {
    let headers = vec![hdr("x-github-event", b"ping")];
    let r = screen_request("POST", "/", &headers, Some(BODY_LIMIT));
    match r {
        Screen::ReadBody(ev) => assert_eq!(ev, "ping"),
        _ => panic!("expected the request to proceed"),
    }
}

#[test]
fn two_matching_rules_both_fire() {
    let commands = vec![
        cmd("ping", "/bin/echo", &["one"]),
        cmd("push", "/bin/echo", &["two"]),
        cmd("ping", "/bin/echo", &["three"]),
    ];
    let idx = matching_commands(&commands, "ping");
    assert_eq!(idx, vec![0, 2]);
}

#[test]
fn no_matching_rule_is_still_accepted() {
    let secret = "mysecret".to_string();
    let body = b"{}";
    let value = signature_header_value(&secret, body);
    let headers = vec![hdr("x-hub-signature-256", &value)];
    let commands = vec![cmd("push", "/bin/echo", &["x"])];
    let r = authorize_and_route(&secret, &headers, body, "ping", &commands);
    match &r {
        Routed::Accepted(idx) => assert!(idx.is_empty()),
        _ => panic!("expected acceptance"),
    }
    assert_eq!(routed_status(&r), 204);
    assert_eq!(routed_message(&r), "");
}

#[test]
fn bad_signature_is_bad_request() {
    let secret = "mysecret".to_string();
    let headers = vec![hdr("x-hub-signature-256", b"sha256=00ff")];
    let commands = vec![cmd("ping", "/bin/echo", &["x"])];
    let r = authorize_and_route(&secret, &headers, b"{}", "ping", &commands);
    assert!(matches!(r, Routed::BadSignature));
    assert_eq!(routed_status(&r), 400);
    assert_eq!(routed_message(&r), "Missing or invalid signature");
}

#[test]
fn ping_event_with_valid_signature_dispatches_echo() {
    let secret = "mysecret".to_string();
    let body = b"{}";
    let commands = vec![cmd("ping", "/bin/echo", &["pong"])];
    let value = signature_header_value(&secret, body);
    let headers = vec![hdr("x-github-event", b"ping"), hdr("x-hub-signature-256", &value)];

    let screened = screen_request("POST", "/", &headers, Some(body.len() as u64));
    let event = match screened {
        Screen::ReadBody(ev) => ev,
        _ => panic!("expected the request to proceed"),
    };
    assert_eq!(event, "ping");

    let routed = authorize_and_route(&secret, &headers, body, &event, &commands);
    match &routed {
        Routed::Accepted(idx) => {
            assert_eq!(idx, &vec![0]);
            assert_eq!(commands[idx[0]].command, "/bin/echo");
            assert_eq!(commands[idx[0]].args, vec!["pong".to_string()]);
        },
        _ => panic!("expected acceptance"),
    }
    assert_eq!(routed_status(&routed), 204);
}

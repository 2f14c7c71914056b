use email_webhook::entry::JsonEntry;
use email_webhook::reply::{EmailMessage, Response};
use email_webhook::webhook::{after_send, is_post, Mode, Step, Webhook};

const MISSING: &str = "JSON object must contain the key \"email\"";
const NOT_TEXT: &str = "JSON object must contain a string value for the key \"email\"";
const INVALID: &str = "Invalid JSON format in request body";

fn hook(mode: Mode) -> Webhook {
    Webhook::new(mode, "sender@example.com".to_string())
}

fn plain(status: u16, body: &str) -> Step {
    Step::Reply(Response { status, content_type: None, body: body.to_string() })
}

fn html(status: u16, body: &str) -> Step {
    Step::Reply(Response {
        status,
        content_type: Some("text/html".to_string()),
        body: body.to_string(),
    })
}

fn all_modes() -> Vec<Mode> {
    vec![Mode::Stub, Mode::Echo, Mode::Dispatch]
}

#[test]
fn non_post_methods_get_405() {
    for mode in all_modes() {
        for method in ["GET", "PUT", "DELETE", "PATCH", "HEAD", "OPTIONS", "post", ""] {
            let r = hook(mode).handle(method, br#"{"email": "a@b.com"}"#);
            assert_eq!(r, plain(405, "Method Not Allowed"));
        }
    }
}

#[test]
fn is_post_is_exact() {
    assert!(is_post("POST"));
    assert!(!is_post("post"));
    assert!(!is_post("POSTS"));
    assert!(!is_post("GET"));
}

#[test]
fn undecodable_bodies_get_400() {
    for mode in all_modes() {
        for body in [&b"not json"[..], b"", b"{", b"{\"email\": \"a@b.com\"", b"  ", b"{} x", b"\xff\xfe"] {
            let r = hook(mode).handle("POST", body);
            assert_eq!(r, plain(400, INVALID));
        }
    }
}

#[test]
fn missing_key_gets_400() {
    for mode in all_modes() {
        for body in [&b"{}"[..], br#"{"foo": 1}"#, br#"{"Email": "a@b.com"}"#] {
            let r = hook(mode).handle("POST", body);
            assert_eq!(r, plain(400, MISSING));
        }
    }
}

#[test]
fn non_object_bodies_count_as_missing_key() {
    for body in [&b"[1, 2]"[..], b"5", b"null", br#""email""#, br#"[{"email": "a@b.com"}]"#] {
        let r = hook(Mode::Echo).handle("POST", body);
        assert_eq!(r, plain(400, MISSING));
    }
}

#[test]
fn non_text_email_gets_400() {
    for mode in all_modes() {
        for body in [
            &br#"{"email": 5}"#[..],
            br#"{"email": null}"#,
            br#"{"email": [1]}"#,
            br#"{"email": {"a": "b"}}"#,
            br#"{"email": true}"#,
        ] {
            let r = hook(mode).handle("POST", body);
            assert_eq!(r, plain(400, NOT_TEXT));
        }
    }
}

#[test]
fn stub_mode_is_not_implemented() {
    let r = hook(Mode::Stub).handle("POST", br#"{"email": "a@b.com"}"#);
    assert_eq!(r, plain(200, "Not implemented"));
}

#[test]
fn echo_mode_returns_email() {
    let r = hook(Mode::Echo).handle("POST", br#"{"email": "a@b.com"}"#);
    assert_eq!(r, html(200, "Webhook got email: a@b.com"));
}

#[test]
fn echo_mode_keeps_escaped_text() {
    let r = hook(Mode::Echo).handle("POST", br#"{"email": "x\"y@z", "other": 1}"#);
    assert_eq!(r, html(200, "Webhook got email: x\"y@z"));
}

#[test]
fn dispatch_mode_sends_one_email() {
    let r = hook(Mode::Dispatch).handle("POST", br#"{"email": "a@b.com"}"#);
    let expected = EmailMessage {
        from: "sender@example.com".to_string(),
        to: "a@b.com".to_string(),
        subject: "SES Test Email".to_string(),
        html: "<h1>SES Test Email</h1><p>This email was sent from Rust!</p>".to_string(),
    };
    assert_eq!(r, Step::Send(expected));
}

#[test]
fn dispatch_with_succeeding_send_returns_200() {
    let w = hook(Mode::Dispatch);
    let step = w.handle("POST", br#"{"email": "a@b.com"}"#);
    assert!(matches!(step, Step::Send(_)));
    let r: Result<Response, String> = after_send(Ok(()));
    assert_eq!(
        r,
        Ok(Response {
            status: 200,
            content_type: Some("text/html".to_string()),
            body: "Successfully handled webhook!".to_string(),
        })
    );
}

#[test]
fn dispatch_with_failing_send_propagates_error() {
    let w = hook(Mode::Dispatch);
    let step = w.handle("POST", br#"{"email": "a@b.com"}"#);
    assert!(matches!(step, Step::Send(_)));
    let r: Result<Response, String> = after_send(Err("service unavailable".to_string()));
    assert_eq!(r, Err("service unavailable".to_string()));
}

#[test]
fn repeated_requests_give_same_step() {
    for mode in all_modes() {
        let w = hook(mode);
        let first = w.handle("POST", br#"{"email": "a@b.com"}"#);
        for _ in 0..3 {
            assert_eq!(w.handle("POST", br#"{"email": "a@b.com"}"#), first);
        }
    }
}

#[test]
fn on_entry_maps_each_entry() {
    let w = hook(Mode::Echo);
    assert_eq!(w.on_entry(None), plain(400, INVALID));
    assert_eq!(w.on_entry(Some(JsonEntry::Missing)), plain(400, MISSING));
    assert_eq!(w.on_entry(Some(JsonEntry::NotText)), plain(400, NOT_TEXT));
    assert_eq!(
        w.on_entry(Some(JsonEntry::Text("q@r.s".to_string()))),
        html(200, "Webhook got email: q@r.s")
    );
}

#[test]
fn message_to_uses_sender() {
    let m = Webhook::new(Mode::Dispatch, "me@here".to_string()).message_to("you@there");
    assert_eq!(m.from, "me@here");
    assert_eq!(m.to, "you@there");
    assert_eq!(m.subject, "SES Test Email");
}

use vstd::prelude::*;
use vstd::string::StringExecFns;
use crate::entry::{entry_view, json_entry, read_entry, JsonEntry, JsonEntryView};
use crate::reply::{EmailMessage, EmailMessageView, Response, ResponseView};

verus! {

/// How a valid request is answered.
#[derive(Clone, Copy, Debug, PartialEq, Eq, Structural)]
pub enum Mode {
    /// Reply that the work is not implemented.
    Stub,
    /// Reply with the e-mail address that was received.
    Echo,
    /// Send an e-mail to the address that was received.
    Dispatch,
}

/// The handler's context: fixed at start-up and read by every request.
#[derive(Clone, Debug)]
pub struct Webhook {
    pub mode: Mode,
    pub from_email: String,
}

/// Mathematical model of a [`Webhook`].
pub struct WebhookView {
    pub mode: Mode,
    pub from_email: Seq<char>,
}

impl View for Webhook {
    type V = WebhookView;

    open spec fn view(&self) -> WebhookView {
        WebhookView { mode: self.mode, from_email: self.from_email@ }
    }
}

/// What the handler decided for one request.
#[derive(Clone, Debug, PartialEq, Eq)]
pub enum Step {
    /// Answer at once with this response.
    Reply(Response),
    /// Send this e-mail; the response then follows from [`after_send`].
    Send(EmailMessage),
}

/// Mathematical model of a [`Step`].
pub enum StepView {
    Reply(ResponseView),
    Send(EmailMessageView),
}

impl View for Step {
    type V = StepView;

    open spec fn view(&self) -> StepView {
        match self {
            Step::Reply(r) => StepView::Reply(r@),
            Step::Send(m) => StepView::Send(m@),
        }
    }
}

/// The key that a request body must hold.
pub open spec fn email_key() -> Seq<char> {
    "email"@
}

/// A response with no content type.
pub open spec fn plain(status: u16, body: Seq<char>) -> ResponseView {
    ResponseView { status, content_type: None, body }
}

/// A response of type `text/html`.
pub open spec fn html(status: u16, body: Seq<char>) -> ResponseView {
    ResponseView { status, content_type: Some("text/html"@), body }
}

pub open spec fn method_not_allowed() -> ResponseView {
    plain(405, "Method Not Allowed"@)
}

pub open spec fn invalid_json() -> ResponseView {
    plain(400, "Invalid JSON format in request body"@)
}

pub open spec fn missing_key() -> ResponseView {
    plain(400, "JSON object must contain the key \"email\""@)
}

pub open spec fn not_text() -> ResponseView {
    plain(400, "JSON object must contain a string value for the key \"email\""@)
}

pub open spec fn not_implemented() -> ResponseView {
    plain(200, "Not implemented"@)
}

pub open spec fn echoed(email: Seq<char>) -> ResponseView {
    html(200, "Webhook got email: "@ + email)
}

pub open spec fn handled() -> ResponseView {
    html(200, "Successfully handled webhook!"@)
}

/// The e-mail sent from `from` to `to`, with the fixed subject and body.
pub open spec fn message_to(from: Seq<char>, to: Seq<char>) -> EmailMessageView {
    EmailMessageView {
        from,
        to,
        subject: "SES Test Email"@,
        html: "<h1>SES Test Email</h1><p>This email was sent from Rust!</p>"@,
    }
}

/// What a valid request holding the address `email` leads to.
pub open spec fn valid_step(w: WebhookView, email: Seq<char>) -> StepView {
    match w.mode {
        Mode::Stub => StepView::Reply(not_implemented()),
        Mode::Echo => StepView::Reply(echoed(email)),
        Mode::Dispatch => StepView::Send(message_to(w.from_email, email)),
    }
}

/// The step for a POST request whose body decoded to `entry` at the e-mail key.
pub open spec fn entry_step(w: WebhookView, entry: Option<JsonEntryView>) -> StepView {
    match entry {
        None => StepView::Reply(invalid_json()),
        Some(JsonEntryView::Missing) => StepView::Reply(missing_key()),
        Some(JsonEntryView::NotText) => StepView::Reply(not_text()),
        Some(JsonEntryView::Text(email)) => valid_step(w, email),
    }
}

/// The step for a request with this method and body.
pub open spec fn request_step(w: WebhookView, method: Seq<char>, body: Seq<u8>) -> StepView {
    if method != "POST"@ {
        StepView::Reply(method_not_allowed())
    } else {
        entry_step(w, json_entry(body, email_key()))
    }
}

/// Whether `method` is the POST method.
pub fn is_post(method: &str) -> (r: bool)
    ensures
        r == (method@ == "POST"@),
{
    let m = method.to_owned();
    let post = "POST".to_owned();
    m.eq(&post)
}

fn reply(status: u16, body: &str) -> (r: Step)
    ensures
        r@ == StepView::Reply(plain(status, body@)),
{
    Step::Reply(Response { status, content_type: None, body: body.to_owned() })
}

fn html_reply(status: u16, body: String) -> (r: Response)
    ensures
        r@ == html(status, body@),
{
    Response { status, content_type: Some("text/html".to_owned()), body }
}

impl Webhook {
    pub fn new(mode: Mode, from_email: String) -> (r: Webhook)
        ensures
            r@ == (WebhookView { mode, from_email: from_email@ }),
    {
        Webhook { mode, from_email }
    }

    /// The e-mail that the dispatch mode sends to `to`.
    pub fn message_to(&self, to: &str) -> (r: EmailMessage)
        ensures
            r@ == message_to(self.from_email@, to@),
    {
        EmailMessage {
            from: self.from_email.clone(),
            to: to.to_owned(),
            subject: "SES Test Email".to_owned(),
            html: "<h1>SES Test Email</h1><p>This email was sent from Rust!</p>".to_owned(),
        }
    }

    /// Decides the step for a POST request, given what its body holds at the
    /// e-mail key (`None` for a body that is not JSON).
    pub fn on_entry(&self, entry: Option<JsonEntry>) -> (r: Step)
        ensures
            r@ == entry_step(self@, entry_view(entry)),
    {
        match entry {
            None => reply(400, "Invalid JSON format in request body"),
            Some(JsonEntry::Missing) => reply(400, "JSON object must contain the key \"email\""),
            Some(JsonEntry::NotText) => reply(
                400,
                "JSON object must contain a string value for the key \"email\"",
            ),
            Some(JsonEntry::Text(email)) => match self.mode {
                Mode::Stub => reply(200, "Not implemented"),
                Mode::Echo => {
                    let body = "Webhook got email: ".to_owned().concat(email.as_str());
                    Step::Reply(html_reply(200, body))
                },
                Mode::Dispatch => Step::Send(self.message_to(email.as_str())),
            },
        }
    }

    /// Decides the step for one request with this method and raw body.
    pub fn handle(&self, method: &str, body: &[u8]) -> (r: Step)
        ensures
            r@ == request_step(self@, method@, body@),
    {
        if !is_post(method) {
            reply(405, "Method Not Allowed")
        } else {
            let entry = read_entry(body, "email");
            self.on_entry(entry)
        }
    }
}

/// The response once the e-mail of a [`Step::Send`] has been handed to the
/// sending service: the success reply, or the service's error passed on.
pub fn after_send<E>(outcome: Result<(), E>) -> (r: Result<Response, E>)
    ensures
        outcome is Ok <==> r is Ok,
        r is Ok ==> r->Ok_0@ == handled(),
        outcome is Err ==> r is Err && r->Err_0 == outcome->Err_0,
{
    match outcome {
        Ok(()) => Ok(html_reply(200, "Successfully handled webhook!".to_owned())),
        Err(e) => Err(e),
    }
}

} // verus!

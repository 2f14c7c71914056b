use vstd::prelude::*;
use crate::entry::{json_entry, JsonEntryView};
use crate::webhook::{
    email_key, echoed, invalid_json, message_to, method_not_allowed, missing_key,
    not_text, request_step, valid_step, Mode, StepView, WebhookView,
};

verus! {

/// Every request whose method is not POST is answered 405 "Method Not
/// Allowed", whatever its body and whatever the mode.
pub proof fn lemma_other_methods_refused(w: WebhookView, method: Seq<char>, body: Seq<u8>)
    requires
        method != "POST"@,
    ensures
        request_step(w, method, body) == StepView::Reply(method_not_allowed()),
{
}

/// A POST body that does not decode as JSON is answered 400 with the
/// invalid-JSON message.
pub proof fn lemma_undecodable_body_refused(w: WebhookView, body: Seq<u8>)
    requires
        json_entry(body, email_key()) is None,
    ensures
        request_step(w, "POST"@, body) == StepView::Reply(invalid_json()),
{
}

/// A POST body that decodes as JSON but has no "email" key (or is no object)
/// is answered 400 with the missing-key message.
pub proof fn lemma_missing_key_refused(w: WebhookView, body: Seq<u8>)
    requires
        json_entry(body, email_key()) == Some(JsonEntryView::Missing),
    ensures
        request_step(w, "POST"@, body) == StepView::Reply(missing_key()),
{
}

/// A POST body whose "email" value is not a JSON string is answered 400 with
/// the wrong-type message.
pub proof fn lemma_non_text_email_refused(w: WebhookView, body: Seq<u8>)
    requires
        json_entry(body, email_key()) == Some(JsonEntryView::NotText),
    ensures
        request_step(w, "POST"@, body) == StepView::Reply(not_text()),
{
}

/// A valid POST request holding the address `email`: the echo mode answers
/// 200 with the address, and the dispatch mode sends exactly one e-mail to it,
/// after which a successful send is answered 200 "Successfully handled webhook!".
pub proof fn lemma_valid_request(w: WebhookView, body: Seq<u8>, email: Seq<char>)
    requires
        json_entry(body, email_key()) == Some(JsonEntryView::Text(email)),
    ensures
        w.mode == Mode::Echo ==> request_step(w, "POST"@, body) == StepView::Reply(
            echoed(email),
        ),
        w.mode == Mode::Dispatch ==> request_step(w, "POST"@, body) == StepView::Send(
            message_to(w.from_email, email),
        ),
{
}

/// Repeating a valid request gives the same step every time, fixed by the
/// mode and the address alone: the same reply, or in the dispatch mode one
/// send of the same e-mail per request.
pub proof fn lemma_valid_request_repeats(w: WebhookView, body: Seq<u8>, email: Seq<char>)
    requires
        json_entry(body, email_key()) == Some(JsonEntryView::Text(email)),
    ensures
        request_step(w, "POST"@, body) == valid_step(w, email),
        w.mode == Mode::Dispatch ==> request_step(w, "POST"@, body) is Send,
{
}

} // verus!

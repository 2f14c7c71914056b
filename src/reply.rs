use vstd::prelude::*;

verus! {

/// One HTTP response: status code, optional content type, and text body.
#[derive(Clone, Debug, PartialEq, Eq)]
pub struct Response {
    pub status: u16,
    pub content_type: Option<String>,
    pub body: String,
}

/// Mathematical model of a [`Response`].
pub struct ResponseView {
    pub status: u16,
    pub content_type: Option<Seq<char>>,
    pub body: Seq<char>,
}

impl View for Response {
    type V = ResponseView;

    open spec fn view(&self) -> ResponseView {
        ResponseView {
            status: self.status,
            content_type: match self.content_type {
                None => None,
                Some(c) => Some(c@),
            },
            body: self.body@,
        }
    }
}

/// One e-mail with a single recipient and an HTML body.
#[derive(Clone, Debug, PartialEq, Eq)]
pub struct EmailMessage {
    pub from: String,
    pub to: String,
    pub subject: String,
    pub html: String,
}

/// Mathematical model of an [`EmailMessage`].
pub struct EmailMessageView {
    pub from: Seq<char>,
    pub to: Seq<char>,
    pub subject: Seq<char>,
    pub html: Seq<char>,
}

impl View for EmailMessage {
    type V = EmailMessageView;

    open spec fn view(&self) -> EmailMessageView {
        EmailMessageView {
            from: self.from@,
            to: self.to@,
            subject: self.subject@,
            html: self.html@,
        }
    }
}

} // verus!

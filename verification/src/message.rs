//! What a message is read as: which of its bodies counts, and how its sender
//! and the one who received it are written.

use crate::recipients::{agent_text, format_agent};
use crate::text::text_of;
use vstd::prelude::*;

verus! {

/// The form in which the text of a message is kept.
#[derive(Debug, Clone, Copy, PartialEq, Eq, Structural)]
pub enum MessageBodyType {
    PlainText,
    Html,
    Rtf,
}

/// The name under which each form of body goes in a document.
pub open spec fn body_type_name(kind: MessageBodyType) -> Seq<char> {
    match kind {
        MessageBodyType::PlainText => "plain"@,
        MessageBodyType::Html => "html"@,
        MessageBodyType::Rtf => "rtf"@,
    }
}

/// The forms of body in the order in which they are looked for: the first
/// that a message has is its body.
pub open spec fn body_order() -> Seq<MessageBodyType> {
    seq![MessageBodyType::Html, MessageBodyType::PlainText, MessageBodyType::Rtf]
}

/// The body of a message that has the given texts: the first present in
/// `body_order`, with its form.
pub open spec fn body_of(
    html: Option<Seq<char>>,
    plain_text: Option<Seq<char>>,
    rtf: Option<Seq<char>>,
) -> Option<(MessageBodyType, Seq<char>)> {
    match (html, plain_text, rtf) {
        (Some(text), _, _) => Some((MessageBodyType::Html, text)),
        (None, Some(text), _) => Some((MessageBodyType::PlainText, text)),
        (None, None, Some(text)) => Some((MessageBodyType::Rtf, text)),
        (None, None, None) => None,
    }
}

impl MessageBodyType {
    /// The name under which this form of body goes in a document.
    pub fn as_str(&self) -> (name: &'static str)
        ensures
            name@ == body_type_name(*self),
    {
        match self {
            MessageBodyType::PlainText => "plain",
            MessageBodyType::Html => "html",
            MessageBodyType::Rtf => "rtf",
        }
    }

    /// The name under which this form of body goes in a document.
    pub fn to_string(&self) -> (name: String)
        ensures
            name@ == body_type_name(*self),
    {
        self.as_str().to_owned()
    }

    /// The form to look for after `tried` was not found, where `None` stands
    /// for the start: the forms come in `body_order`, and after the last
    /// there is none.
    pub fn next(tried: Option<MessageBodyType>) -> (next: Option<MessageBodyType>)
        ensures
            tried is None ==> next == Some(body_order()[0]),
            forall|i: int|
                0 <= i < body_order().len() && tried == Some(#[trigger] body_order()[i]) ==> next
                    == if i + 1 < body_order().len() {
                    Some(body_order()[i + 1])
                } else {
                    None
                },
    {
        match tried {
            None => Some(MessageBodyType::Html),
            Some(MessageBodyType::Html) => Some(MessageBodyType::PlainText),
            Some(MessageBodyType::PlainText) => Some(MessageBodyType::Rtf),
            Some(MessageBodyType::Rtf) => None,
        }
    }
}

/// The body of a message, given the text it has in each form.
pub fn body(html: Option<String>, plain_text: Option<String>, rtf: Option<String>) -> (found:
    Option<(MessageBodyType, String)>)
    ensures
        match found {
            Some((kind, text)) => body_of(text_of(html), text_of(plain_text), text_of(rtf))
                == Some((kind, text@)),
            None => body_of(text_of(html), text_of(plain_text), text_of(rtf)) is None,
        },
{
    match html {
        Some(text) => Some((MessageBodyType::Html, text)),
        None => match plain_text {
            Some(text) => Some((MessageBodyType::PlainText, text)),
            None => match rtf {
                Some(text) => Some((MessageBodyType::Rtf, text)),
                None => None,
            },
        },
    }
}

/// How the sender of a message is written, given the name and the address
/// that the message holds for it.
pub fn sender(sender_name: Option<String>, sender_email_address: Option<String>) -> (text: Option<
    String,
>)
    ensures
        text_of(text) == agent_text(text_of(sender_name), text_of(sender_email_address)),
{
    format_agent(sender_name, sender_email_address)
}

/// How the one who received a message is written, given the name and the
/// address that the message holds for them.
pub fn received_by(
    received_by_name: Option<String>,
    received_by_email_address: Option<String>,
) -> (text: Option<String>)
    ensures
        text_of(text) == agent_text(text_of(received_by_name), text_of(received_by_email_address)),
{
    format_agent(received_by_name, received_by_email_address)
}

/// The size of a string property that is there to be fetched: a property
/// of size 0 counts as absent.
pub fn string_size(size: Option<usize>) -> (there: Option<usize>)
    ensures
        there == match size {
            Some(size) if size > 0 => Some(size),
            _ => None,
        },
{
    match size {
        Some(size) => if size > 0 {
            Some(size)
        } else {
            None
        },
        None => None,
    }
}

/// Whether a message with `count` attachments has any.
pub fn has_attachments(count: i32) -> (any: bool)
    ensures
        any == (count > 0),
{
    count > 0
}

} // verus!

//! The document that is made of a message for the search index.

use crate::filetime::{date_time_at, unix_seconds, FileTime};
use crate::message::{body_type_name, MessageBodyType};
use crate::recipients::{Recipient, RecipientView};
use crate::text::{decimal_digits, push_decimal, text_of};
use chrono::NaiveDateTime;
use vstd::prelude::*;
use vstd::std_specs::convert::FromSpecImpl;
use vstd::string::StringExecFns;

verus! {

/// A person named in a message: the sender, or one of the addressees.
#[derive(Debug, Clone)]
pub struct Agent {
    pub name: Option<String>,
    pub email: Option<String>,
}

/// An `Agent` as plain text.
pub struct AgentView {
    pub name: Option<Seq<char>>,
    pub email: Option<Seq<char>>,
}

impl View for Agent {
    type V = AgentView;

    open spec fn view(&self) -> AgentView {
        AgentView { name: text_of(self.name), email: text_of(self.email) }
    }
}

impl Agent {
    /// A person with that name and that address.
    pub fn new(name: Option<String>, email: Option<String>) -> (agent: Self)
        ensures
            agent == (Agent { name, email }),
    {
        Self { name, email }
    }
}

impl From<Recipient> for Agent {
    /// The addressee's display name and address; the address type is dropped.
    fn from(recipient: Recipient) -> (agent: Self) {
        Self::new(recipient.display_name, recipient.email_address)
    }
}

impl FromSpecImpl<Recipient> for Agent {
    open spec fn obeys_from_spec() -> bool {
        true
    }

    open spec fn from_spec(recipient: Recipient) -> Self {
        Agent { name: recipient.display_name, email: recipient.email_address }
    }
}

/// The text of a message and the form it is in.
#[derive(Debug, Clone)]
pub struct Body {
    /// The name of the form: `plain`, `html` or `rtf`.
    pub type_: String,
    pub value: String,
}

/// A `Body` as plain text.
pub struct BodyView {
    pub type_: Seq<char>,
    pub value: Seq<char>,
}

impl View for Body {
    type V = BodyView;

    open spec fn view(&self) -> BodyView {
        BodyView { type_: self.type_@, value: self.value@ }
    }
}

impl Body {
    /// The body of a document for a text in the given form.
    pub fn new(kind: MessageBodyType, value: String) -> (body: Self)
        ensures
            body@ == (BodyView { type_: body_type_name(kind), value: value@ }),
            body.value == value,
    {
        Self { type_: kind.to_string(), value }
    }
}

/// The document of one message.
#[derive(Debug, Clone)]
pub struct Message {
    pub id: String,
    pub subject: String,
    pub sender: Agent,
    pub recipients: Vec<Agent>,
    pub body: Option<Body>,
    pub send_time: Option<NaiveDateTime>,
    pub delivery_time: Option<NaiveDateTime>,
    pub has_attachments: bool,
    pub attachments: Option<Vec<String>>,
}

/// A `Message` as plain values.
pub struct MessageView {
    pub id: Seq<char>,
    pub subject: Seq<char>,
    pub sender: AgentView,
    pub recipients: Seq<AgentView>,
    pub body: Option<BodyView>,
    pub send_time: Option<NaiveDateTime>,
    pub delivery_time: Option<NaiveDateTime>,
    pub has_attachments: bool,
    pub attachments: Option<Seq<Seq<char>>>,
}

impl View for Message {
    type V = MessageView;

    open spec fn view(&self) -> MessageView {
        MessageView {
            id: self.id@,
            subject: self.subject@,
            sender: self.sender@,
            recipients: Seq::new(self.recipients@.len(), |i: int| self.recipients@[i]@),
            body: match self.body {
                Some(body) => Some(body@),
                None => None,
            },
            send_time: self.send_time,
            delivery_time: self.delivery_time,
            has_attachments: self.has_attachments,
            attachments: match self.attachments {
                Some(names) => Some(Seq::new(names@.len(), |i: int| names@[i]@)),
                None => None,
            },
        }
    }
}

/// What was read of a message in the archive, before a document is made of
/// it.
#[derive(Debug, Clone)]
pub struct MessageFields {
    pub subject: Option<String>,
    pub sender_name: Option<String>,
    pub sender_email_address: Option<String>,
    /// The addressees; `None` where the message has no list of them or the
    /// list could not be read.
    pub recipients: Option<Vec<Recipient>>,
    /// The body the message has, if it was asked for and found.
    pub body: Option<(MessageBodyType, String)>,
    pub client_submit_time: Option<FileTime>,
    pub delivery_time: Option<FileTime>,
    /// The display name of each attachment, in the archive's order; `None`
    /// for an attachment without one.
    pub attachment_names: Vec<Option<String>>,
}

/// `MessageFields` as plain values.
pub struct MessageFieldsView {
    pub subject: Option<Seq<char>>,
    pub sender_name: Option<Seq<char>>,
    pub sender_email_address: Option<Seq<char>>,
    pub recipients: Option<Seq<RecipientView>>,
    pub body: Option<(MessageBodyType, Seq<char>)>,
    pub client_submit_time: Option<FileTime>,
    pub delivery_time: Option<FileTime>,
    pub attachment_names: Seq<Option<Seq<char>>>,
}

impl View for MessageFields {
    type V = MessageFieldsView;

    open spec fn view(&self) -> MessageFieldsView {
        MessageFieldsView {
            subject: text_of(self.subject),
            sender_name: text_of(self.sender_name),
            sender_email_address: text_of(self.sender_email_address),
            recipients: match self.recipients {
                Some(list) => Some(Seq::new(list@.len(), |i: int| list@[i]@)),
                None => None,
            },
            body: match self.body {
                Some((kind, text)) => Some((kind, text@)),
                None => None,
            },
            client_submit_time: self.client_submit_time,
            delivery_time: self.delivery_time,
            attachment_names: Seq::new(
                self.attachment_names@.len(),
                |i: int| text_of(self.attachment_names@[i]),
            ),
        }
    }
}

/// The subject of a document whose message has none.
pub open spec fn missing_subject() -> Seq<char> {
    "--"@
}

/// The name of the attachment at `index` (the first at 0) where it has none
/// of its own: `attachment_` and its place, counted from 1.
pub open spec fn default_attachment_name(index: nat) -> Seq<char> {
    "attachment_"@ + decimal_digits(index + 1)
}

/// The names under which the attachments go in a document.
pub open spec fn attachment_names(names: Seq<Option<Seq<char>>>) -> Seq<Seq<char>> {
    Seq::new(
        names.len(),
        |i: int|
            match names[i] {
                Some(name) => name,
                None => default_attachment_name(i as nat),
            },
    )
}

/// The date and time of a document for a time of the archive.
pub open spec fn time_of(time: Option<FileTime>) -> Option<NaiveDateTime> {
    match time {
        Some(time) => Some(date_time_at(unix_seconds(time.0 as int))),
        None => None,
    }
}

/// The document of the message `id` with the given fields. The body is left
/// out unless `include_body` is set; the list of attachment names is there
/// exactly where the message has attachments.
pub open spec fn message_of(id: Seq<char>, include_body: bool, fields: MessageFieldsView)
    -> MessageView {
    MessageView {
        id,
        subject: match fields.subject {
            Some(subject) => subject,
            None => missing_subject(),
        },
        sender: AgentView { name: fields.sender_name, email: fields.sender_email_address },
        recipients: match fields.recipients {
            Some(list) => Seq::new(
                list.len(),
                |i: int| AgentView { name: list[i].display_name, email: list[i].email_address },
            ),
            None => Seq::empty(),
        },
        body: match fields.body {
            Some((kind, text)) if include_body => Some(
                BodyView { type_: body_type_name(kind), value: text },
            ),
            _ => None,
        },
        send_time: time_of(fields.client_submit_time),
        delivery_time: time_of(fields.delivery_time),
        has_attachments: fields.attachment_names.len() > 0,
        attachments: if fields.attachment_names.len() > 0 {
            Some(attachment_names(fields.attachment_names))
        } else {
            None
        },
    }
}

/// The addressees as they go in a document, in their order; none where the
/// list of them is missing.
fn agents(recipients: &Option<Vec<Recipient>>) -> (list: Vec<Agent>)
    ensures
        list@.len() == match *recipients {
            Some(given) => given@.len(),
            None => 0,
        },
        forall|i: int|
            0 <= i < list@.len() ==> (#[trigger] list@[i])@ == (AgentView {
                name: recipients->0@[i]@.display_name,
                email: recipients->0@[i]@.email_address,
            }),
{
    let mut list: Vec<Agent> = Vec::new();
    match recipients {
        Some(given) => {
            let mut i: usize = 0;
            while i < given.len()
                invariant
                    i <= given.len(),
                    list@.len() == i,
                    forall|k: int|
                        0 <= k < i ==> (#[trigger] list@[k])@ == (AgentView {
                            name: given@[k]@.display_name,
                            email: given@[k]@.email_address,
                        }),
                decreases given.len() - i,
            {
                let addressee = &given[i];
                list.push(
                    Agent::new(addressee.display_name.clone(), addressee.email_address.clone()),
                );
                i = i + 1;
            }
        },
        None => {},
    }
    list
}

/// The date and time of a document for a time of the archive.
fn time(at: Option<FileTime>) -> (time: Option<NaiveDateTime>)
    ensures
        time == time_of(at),
{
    match at {
        Some(at) => Some(at.filetime_to_naive_dt()),
        None => None,
    }
}

/// The name under which the attachment at `index` goes, the first at 0: its
/// display name, or `attachment_` and its place counted from 1 where it has
/// none.
pub fn attachment_name(index: usize, display_name: Option<String>) -> (name: String)
    ensures
        name@ == match display_name {
            Some(given) => given@,
            None => default_attachment_name(index as nat),
        },
{
    match display_name {
        Some(name) => name,
        None => {
            let mut name = String::from_str("attachment_");
            push_decimal(&mut name, index as u128 + 1);
            name
        },
    }
}

/// The names under which the attachments go in a document, in their order.
fn names(given: &Vec<Option<String>>) -> (list: Vec<String>)
    ensures
        Seq::new(list@.len(), |i: int| list@[i]@) == attachment_names(
            Seq::new(given@.len(), |i: int| text_of(given@[i])),
        ),
{
    let ghost wanted = attachment_names(Seq::new(given@.len(), |i: int| text_of(given@[i])));
    let mut list: Vec<String> = Vec::new();
    let mut i: usize = 0;
    while i < given.len()
        invariant
            i <= given.len(),
            list@.len() == i,
            wanted == attachment_names(Seq::new(given@.len(), |i: int| text_of(given@[i]))),
            forall|k: int| 0 <= k < i ==> (#[trigger] list@[k])@ == wanted[k],
        decreases given.len() - i,
    {
        list.push(attachment_name(i, given[i].clone()));
        i = i + 1;
    }
    assert(Seq::new(list@.len(), |i: int| list@[i]@) =~= wanted);
    list
}

/// Makes the document of a message out of what was read of it.
pub fn to_message(id: String, include_body: bool, fields: MessageFields) -> (message: Message)
    ensures
        message@ == message_of(id@, include_body, fields@),
{
    let subject = match fields.subject {
        Some(subject) => subject,
        None => String::from_str("--"),
    };
    let sender = Agent::new(fields.sender_name, fields.sender_email_address);
    let recipients = agents(&fields.recipients);
    let body = match fields.body {
        Some((kind, text)) => if include_body {
            Some(Body::new(kind, text))
        } else {
            None
        },
        None => None,
    };
    let send_time = time(fields.client_submit_time);
    let delivery_time = time(fields.delivery_time);
    let has_attachments = fields.attachment_names.len() > 0;
    let attachments = if has_attachments {
        Some(names(&fields.attachment_names))
    } else {
        None
    };
    let message = Message {
        id,
        subject,
        sender,
        recipients,
        body,
        send_time,
        delivery_time,
        has_attachments,
        attachments,
    };
    proof {
        let wanted = message_of(id@, include_body, fields@);
        assert(message@.recipients =~= wanted.recipients);
    }
    message
}

} // verus!

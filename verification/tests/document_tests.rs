use chrono::NaiveDate;
use pff::document::{attachment_name, to_message, Agent, Body, MessageFields};
use pff::filetime::FileTime;
use pff::message::MessageBodyType;
use pff::recipients::Recipient;

fn nothing_read() -> MessageFields {
    MessageFields {
        subject: None,
        sender_name: None,
        sender_email_address: None,
        recipients: None,
        body: None,
        client_submit_time: None,
        delivery_time: None,
        attachment_names: Vec::new(),
    }
}

#[test]
fn document_of_a_bare_message() {
    let message = to_message("1_2".to_string(), true, nothing_read());
    assert_eq!(message.id, "1_2");
    assert_eq!(message.subject, "--");
    assert_eq!(message.sender.name, None);
    assert_eq!(message.sender.email, None);
    assert!(message.recipients.is_empty());
    assert!(message.body.is_none());
    assert_eq!(message.send_time, None);
    assert_eq!(message.delivery_time, None);
    assert!(!message.has_attachments);
    assert_eq!(message.attachments, None);
}

#[test]
fn document_of_a_full_message() {
    let sent = 116_444_736_000_000_000 + 1_431_648_000 * 10_000_000;
    let fields = MessageFields {
        subject: Some("Hello".to_string()),
        sender_name: Some("Ada".to_string()),
        sender_email_address: Some("ada@example.org".to_string()),
        recipients: Some(vec![
            Recipient {
                email_address: Some("bob@example.org".to_string()),
                display_name: Some("Bob".to_string()),
                address_type: Some("SMTP".to_string()),
            },
            Recipient { email_address: None, display_name: Some("Carol".to_string()), address_type: None },
        ]),
        body: Some((MessageBodyType::Html, "<p>hi</p>".to_string())),
        client_submit_time: Some(FileTime(sent)),
        delivery_time: Some(FileTime(sent + 600_000_000)),
        attachment_names: vec![Some("a.txt".to_string()), None, Some("c.pdf".to_string()), None],
    };
    let message = to_message("8354_8514_7029316".to_string(), true, fields);
    assert_eq!(message.id, "8354_8514_7029316");
    assert_eq!(message.subject, "Hello");
    assert_eq!(message.sender.name.as_deref(), Some("Ada"));
    assert_eq!(message.sender.email.as_deref(), Some("ada@example.org"));
    assert_eq!(message.recipients.len(), 2);
    assert_eq!(message.recipients[0].name.as_deref(), Some("Bob"));
    assert_eq!(message.recipients[0].email.as_deref(), Some("bob@example.org"));
    assert_eq!(message.recipients[1].name.as_deref(), Some("Carol"));
    assert_eq!(message.recipients[1].email, None);
    let body = message.body.unwrap();
    assert_eq!(body.type_, "html");
    assert_eq!(body.value, "<p>hi</p>");
    let day = NaiveDate::from_ymd_opt(2015, 5, 15).unwrap();
    assert_eq!(message.send_time, Some(day.and_hms_opt(0, 0, 0).unwrap()));
    assert_eq!(message.delivery_time, Some(day.and_hms_opt(0, 1, 0).unwrap()));
    assert!(message.has_attachments);
    assert_eq!(
        message.attachments,
        Some(vec![
            "a.txt".to_string(),
            "attachment_2".to_string(),
            "c.pdf".to_string(),
            "attachment_4".to_string()
        ])
    );
}

#[test]
fn body_is_left_out_unless_asked_for() {
    let mut fields = nothing_read();
    fields.body = Some((MessageBodyType::PlainText, "hi".to_string()));
    assert!(to_message("1".to_string(), false, fields.clone()).body.is_none());
    let body = to_message("1".to_string(), true, fields).body.unwrap();
    assert_eq!(body.type_, "plain");
    assert_eq!(body.value, "hi");
}

#[test]
fn unreadable_recipients_are_no_recipients() {
    let mut fields = nothing_read();
    fields.recipients = Some(Vec::new());
    assert!(to_message("1".to_string(), true, fields).recipients.is_empty());
}

#[test]
fn attachments_without_names_are_numbered_from_one() {
    assert_eq!(attachment_name(0, None), "attachment_1");
    assert_eq!(attachment_name(9, None), "attachment_10");
    assert_eq!(attachment_name(3, Some("x.bin".to_string())), "x.bin");
    assert_eq!(attachment_name(0, Some(String::new())), "");
}

#[test]
fn agent_of_a_recipient_drops_the_address_type() {
    let agent = Agent::from(Recipient {
        email_address: Some("bob@example.org".to_string()),
        display_name: Some("Bob".to_string()),
        address_type: Some("SMTP".to_string()),
    });
    assert_eq!(agent.name.as_deref(), Some("Bob"));
    assert_eq!(agent.email.as_deref(), Some("bob@example.org"));
    let agent = Agent::new(None, Some("x@y".to_string()));
    assert_eq!(agent.name, None);
    assert_eq!(agent.email.as_deref(), Some("x@y"));
}

#[test]
fn body_names_its_form() {
    let body = Body::new(MessageBodyType::Rtf, "{\\rtf1}".to_string());
    assert_eq!(body.type_, "rtf");
    assert_eq!(body.value, "{\\rtf1}");
}

use pff::item::EntryType;
use pff::message::{
    body, has_attachments, received_by, sender, string_size, MessageBodyType,
};
use pff::recipients::{describes_recipient, format_agent, record_set_to_recipient, Recipient};

fn entry(kind: EntryType, text: &str) -> (EntryType, String) {
    (kind, text.to_string())
}

#[test]
fn recipient_takes_the_first_address_by_default() {
    let entries = vec![
        entry(EntryType::DisplayName, "Ada"),
        entry(EntryType::AddressType, "SMTP"),
        entry(EntryType::EmailAddress, "ada@example.org"),
        entry(EntryType::EmailAddress2, "other@example.org"),
        entry(EntryType::RecipientType, "1"),
    ];
    let recipient = record_set_to_recipient(&entries);
    assert_eq!(recipient.display_name.as_deref(), Some("Ada"));
    assert_eq!(recipient.address_type.as_deref(), Some("SMTP"));
    assert_eq!(recipient.email_address.as_deref(), Some("ada@example.org"));
}

#[test]
fn exchange_recipient_takes_the_second_address() {
    let entries = vec![
        entry(EntryType::EmailAddress, "/o=Org/cn=ada"),
        entry(EntryType::EmailAddress2, "ada@example.org"),
        entry(EntryType::AddressType, "EX"),
    ];
    let recipient = record_set_to_recipient(&entries);
    assert_eq!(recipient.email_address.as_deref(), Some("ada@example.org"));
    assert_eq!(recipient.display_name, None);
}

#[test]
fn exchange_recipient_without_second_address_has_none() {
    let entries =
        vec![entry(EntryType::EmailAddress, "/o=Org/cn=ada"), entry(EntryType::AddressType, "EX")];
    assert_eq!(record_set_to_recipient(&entries).email_address, None);
}

#[test]
fn address_type_is_compared_exactly() {
    for kind in ["ex", "EXX", "E", "", " EX"] {
        let entries = vec![
            entry(EntryType::EmailAddress, "first"),
            entry(EntryType::EmailAddress2, "second"),
            entry(EntryType::AddressType, kind),
        ];
        assert_eq!(record_set_to_recipient(&entries).email_address.as_deref(), Some("first"));
    }
}

#[test]
fn recipient_without_address_type_keeps_its_address() {
    let entries = vec![entry(EntryType::EmailAddress, "ada@example.org")];
    let recipient = record_set_to_recipient(&entries);
    assert_eq!(recipient.email_address.as_deref(), Some("ada@example.org"));
    assert_eq!(recipient.address_type, None);
}

#[test]
fn later_property_of_one_kind_counts() {
    let entries = vec![
        entry(EntryType::DisplayName, "first"),
        entry(EntryType::DisplayName, "second"),
        entry(EntryType::AddressType, "EX"),
        entry(EntryType::AddressType, "SMTP"),
        entry(EntryType::EmailAddress, "a"),
        entry(EntryType::EmailAddress2, "b"),
    ];
    let recipient = record_set_to_recipient(&entries);
    assert_eq!(recipient.display_name.as_deref(), Some("second"));
    assert_eq!(recipient.address_type.as_deref(), Some("SMTP"));
    assert_eq!(recipient.email_address.as_deref(), Some("a"));
}

#[test]
fn empty_record_set_is_an_empty_recipient() {
    let recipient = record_set_to_recipient(&Vec::new());
    assert_eq!(recipient.email_address, None);
    assert_eq!(recipient.display_name, None);
    assert_eq!(recipient.address_type, None);
}

#[test]
fn from_entries_takes_an_address_only_beside_a_type() {
    let without = vec![entry(EntryType::EmailAddress, "ada@example.org")];
    assert_eq!(Recipient::from_entries(&without).email_address, None);
    let with = vec![
        entry(EntryType::EmailAddress, "ada@example.org"),
        entry(EntryType::AddressType, "SMTP"),
    ];
    assert_eq!(Recipient::from_entries(&with).email_address.as_deref(), Some("ada@example.org"));
    let exchange = vec![
        entry(EntryType::EmailAddress, "x"),
        entry(EntryType::EmailAddress2, "ada@example.org"),
        entry(EntryType::AddressType, "EX"),
        entry(EntryType::DisplayName, "Ada"),
    ];
    let recipient = Recipient::from_entries(&exchange);
    assert_eq!(recipient.email_address.as_deref(), Some("ada@example.org"));
    assert_eq!(recipient.display_name.as_deref(), Some("Ada"));
}

#[test]
fn recipient_is_written_with_name_and_address() {
    let both = Recipient {
        email_address: Some("ada@example.org".to_string()),
        display_name: Some("Ada".to_string()),
        address_type: None,
    };
    assert_eq!(both.to_string(), "Ada <ada@example.org>");
    let name = Recipient { email_address: None, display_name: Some("Ada".to_string()), address_type: None };
    assert_eq!(name.to_string(), "Ada");
    let address = Recipient {
        email_address: Some("ada@example.org".to_string()),
        display_name: None,
        address_type: Some("SMTP".to_string()),
    };
    assert_eq!(address.to_string(), "ada@example.org");
    let neither = Recipient { email_address: None, display_name: None, address_type: None };
    assert_eq!(neither.to_string(), "");
}

#[test]
fn sender_is_written_like_a_recipient() {
    assert_eq!(
        sender(Some("Ada".to_string()), Some("ada@example.org".to_string())).as_deref(),
        Some("Ada <ada@example.org>")
    );
    assert_eq!(sender(Some("Ada".to_string()), None).as_deref(), Some("Ada"));
    assert_eq!(sender(None, Some("a@b".to_string())).as_deref(), Some("a@b"));
    assert_eq!(sender(None, None), None);
    assert_eq!(
        received_by(Some("Bob".to_string()), Some("bob@example.org".to_string())).as_deref(),
        Some("Bob <bob@example.org>")
    );
    assert_eq!(received_by(None, None), None);
    assert_eq!(format_agent(Some(String::new()), Some(String::new())).as_deref(), Some(" <>"));
}

#[test]
fn html_body_is_preferred_then_plain_then_rtf() {
    let html = || Some("<p>hi</p>".to_string());
    let plain = || Some("hi".to_string());
    let rtf = || Some("{\\rtf1 hi}".to_string());
    assert_eq!(body(html(), plain(), rtf()), Some((MessageBodyType::Html, "<p>hi</p>".to_string())));
    assert_eq!(body(None, plain(), rtf()), Some((MessageBodyType::PlainText, "hi".to_string())));
    assert_eq!(body(None, None, rtf()), Some((MessageBodyType::Rtf, "{\\rtf1 hi}".to_string())));
    assert_eq!(body(html(), None, None), Some((MessageBodyType::Html, "<p>hi</p>".to_string())));
    assert_eq!(body(None, None, None), None);
}

#[test]
fn body_forms_are_tried_in_order() {
    assert_eq!(MessageBodyType::next(None), Some(MessageBodyType::Html));
    assert_eq!(MessageBodyType::next(Some(MessageBodyType::Html)), Some(MessageBodyType::PlainText));
    assert_eq!(MessageBodyType::next(Some(MessageBodyType::PlainText)), Some(MessageBodyType::Rtf));
    assert_eq!(MessageBodyType::next(Some(MessageBodyType::Rtf)), None);
}

#[test]
fn body_forms_have_their_names() {
    assert_eq!(MessageBodyType::PlainText.to_string(), "plain");
    assert_eq!(MessageBodyType::Html.to_string(), "html");
    assert_eq!(MessageBodyType::Rtf.to_string(), "rtf");
    assert_eq!(MessageBodyType::Html.as_str(), "html");
}

#[test]
fn attachments_are_there_from_one_on() {
    assert!(!has_attachments(0));
    assert!(!has_attachments(-1));
    assert!(has_attachments(1));
    assert!(has_attachments(i32::MAX));
}

#[test]
fn empty_string_property_counts_as_absent() {
    assert_eq!(string_size(None), None);
    assert_eq!(string_size(Some(0)), None);
    assert_eq!(string_size(Some(1)), Some(1));
    assert_eq!(string_size(Some(usize::MAX)), Some(usize::MAX));
}

#[test]
fn four_properties_describe_a_recipient() {
    assert!(describes_recipient(EntryType::EmailAddress));
    assert!(describes_recipient(EntryType::EmailAddress2));
    assert!(describes_recipient(EntryType::DisplayName));
    assert!(describes_recipient(EntryType::AddressType));
    assert!(!describes_recipient(EntryType::RecipientType));
    assert!(!describes_recipient(EntryType::RecipientDisplayName));
    assert!(!describes_recipient(EntryType::Unknown));
}

#[test]
fn other_properties_may_be_left_out() {
    let all = vec![
        entry(EntryType::RecipientType, "1"),
        entry(EntryType::DisplayName, "Ada"),
        entry(EntryType::MessageSubject, "x"),
        entry(EntryType::AddressType, "EX"),
        entry(EntryType::EmailAddress2, "ada@example.org"),
        entry(EntryType::Unknown, "y"),
    ];
    let kept: Vec<_> = all.iter().filter(|e| describes_recipient(e.0)).cloned().collect();
    assert_eq!(kept.len(), 3);
    let a = record_set_to_recipient(&all);
    let b = record_set_to_recipient(&kept);
    assert_eq!(a.email_address, b.email_address);
    assert_eq!(a.display_name, b.display_name);
    assert_eq!(a.address_type, b.address_type);
    assert_eq!(a.email_address.as_deref(), Some("ada@example.org"));
}

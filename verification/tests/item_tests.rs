use pff::attachment::AttachmentType;
use pff::error::Error;
use pff::item::{EntryType, ItemType, RecordSetIterator, SubItemsIterator, ValueType};
use pff::recordset::Seek;

#[test]
fn item_types_are_numbered_from_zero() {
    assert_eq!(ItemType::from_u8(0), Ok(ItemType::Undefined));
    assert_eq!(ItemType::from_u8(11), Ok(ItemType::Email));
    assert_eq!(ItemType::from_u8(14), Ok(ItemType::Folder));
    assert_eq!(ItemType::from_u8(29), Ok(ItemType::Unknown));
}

#[test]
fn item_type_beyond_the_list_is_refused() {
    assert_eq!(ItemType::from_u8(30), Err(Error::BadItemType(30)));
    assert_eq!(ItemType::from_u8(255), Err(Error::BadItemType(255)));
}

#[test]
fn only_a_folder_is_taken_for_a_folder() {
    assert_eq!(ItemType::Folder.into_folder(), Ok(()));
    assert_eq!(ItemType::Email.into_folder(), Err(Error::NotAFolder));
    assert_eq!(ItemType::SubFolders.into_folder(), Err(Error::NotAFolder));
}

#[test]
fn value_types_go_both_ways() {
    assert_eq!(ValueType::from_u32(0x001f), Ok(ValueType::StringUnicode));
    assert_eq!(ValueType::StringUnicode.to_u32(), 0x001f);
    assert_eq!(ValueType::from_u32(0x0040), Ok(ValueType::Filetime));
    assert_eq!(ValueType::MultiValueBinaryData.to_u32(), 0x1102);
    for code in 0..0x2000u32 {
        if let Ok(kind) = ValueType::from_u32(code) {
            assert_eq!(kind.to_u32(), code);
        }
    }
}

#[test]
fn value_type_off_the_list_is_refused() {
    assert_eq!(ValueType::from_u32(0x0008), Err(Error::BadValueType(0x0008)));
    assert_eq!(ValueType::from_u32(u32::MAX), Err(Error::BadValueType(u32::MAX)));
}

#[test]
fn entry_types_go_both_ways() {
    assert_eq!(EntryType::from_u32(0x0037), EntryType::MessageSubject);
    assert_eq!(EntryType::from_u32(0x3001), EntryType::DisplayName);
    assert_eq!(EntryType::from_u32(0x3003), EntryType::EmailAddress);
    assert_eq!(EntryType::from_u32(0x39fe), EntryType::EmailAddress2);
    assert_eq!(EntryType::from_u32(0x3002), EntryType::AddressType);
    assert_eq!(EntryType::MessageCodepage.to_u32(), 0x3ffd);
    assert_eq!(EntryType::MessageBodyCodepage.to_u32(), 0x3fde);
    let mut named = 0;
    for code in 0..0x9000u32 {
        let entry = EntryType::from_u32(code);
        if entry != EntryType::Unknown {
            assert_eq!(entry.to_u32(), code);
            named += 1;
        }
    }
    assert_eq!(named, 120);
}

#[test]
fn entry_type_off_the_list_is_unknown() {
    assert_eq!(EntryType::from_u32(0), EntryType::Unknown);
    assert_eq!(EntryType::from_u32(0x8551), EntryType::Unknown);
    assert_eq!(EntryType::from_u32(u32::MAX), EntryType::Unknown);
    assert_eq!(EntryType::Unknown.to_u32(), 0x8551);
}

#[test]
fn attachment_types_are_letters() {
    assert_eq!(AttachmentType::from_i32(0), Ok(AttachmentType::Undefined));
    assert_eq!(AttachmentType::from_i32('d' as i32), Ok(AttachmentType::Data));
    assert_eq!(AttachmentType::from_i32('i' as i32), Ok(AttachmentType::Item));
    assert_eq!(AttachmentType::from_i32('r' as i32), Ok(AttachmentType::Reference));
    assert_eq!(AttachmentType::Reference.to_i32(), 114);
    assert_eq!(AttachmentType::from_i32(1), Err(Error::BadAttachmentType(1)));
    assert_eq!(AttachmentType::from_i32(-100), Err(Error::BadAttachmentType(-100)));
}

#[test]
fn seek_is_numbered_from_zero() {
    assert_eq!(Seek::Start.to_i32(), 0);
    assert_eq!(Seek::Current.to_i32(), 1);
    assert_eq!(Seek::End.to_i32(), 2);
    assert_eq!(Seek::from_i32(0), Some(Seek::Start));
    assert_eq!(Seek::from_i32(2), Some(Seek::End));
    assert_eq!(Seek::from_i32(3), None);
    assert_eq!(Seek::from_i32(-1), None);
}

#[test]
fn cursor_gives_each_index_once_in_order() {
    let mut cursor = SubItemsIterator::new(3);
    let mut seen = Vec::new();
    while let Some(index) = cursor.next_index() {
        seen.push(index);
        cursor.advance();
    }
    assert_eq!(seen, vec![0, 1, 2]);
    cursor.advance();
    assert_eq!(cursor.next_index(), None);
}

#[test]
fn cursor_stays_until_advanced() {
    let cursor = RecordSetIterator::new(2);
    assert_eq!(cursor.next_index(), Some(0));
    assert_eq!(cursor.next_index(), Some(0));
}

#[test]
fn cursor_over_nothing_is_at_its_end() {
    assert_eq!(SubItemsIterator::new(0).next_index(), None);
    assert_eq!(SubItemsIterator::new(-5).next_index(), None);
    let mut cursor = RecordSetIterator::new(-1);
    cursor.advance();
    assert_eq!(cursor.next_index(), None);
}

#[test]
fn errors_are_spelled_out() {
    assert_eq!(Error::BadItemType(200).to_string(), "Unrecognized item type 200");
    assert_eq!(Error::BadValueType(0).to_string(), "Unrecognized value type 0");
    assert_eq!(Error::BadAttachmentType(-3).to_string(), "Unrecognized attachment type -3");
    assert_eq!(
        Error::BadAttachmentType(i32::MIN).to_string(),
        "Unrecognized attachment type -2147483648"
    );
    assert_eq!(Error::NotAFolder.to_string(), "Item is not a folder.");
    assert_eq!(Error::NotTerminated.to_string(), "String does not end in a single NUL");
    assert_eq!(Error::NotUtf8.to_string(), "String is not valid UTF-8");
    assert_eq!(Error::BadCodePage(12345).to_string(), "Codepage 12345 is not supported.");
}

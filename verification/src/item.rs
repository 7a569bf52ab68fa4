//! The kinds of items, of their properties and of the properties' values,
//! as the archive format numbers them, and cursors over what an item holds.

use crate::error::Error;
use vstd::prelude::*;

verus! {

/// What an item of the archive is.
#[derive(Debug, Clone, Copy, PartialEq, Eq, Structural)]
pub enum ItemType {
    Undefined,
    Activity,
    Appointment,
    Attachment,
    Attachments,
    Common,
    Configuration,
    ConflictMessage,
    Contact,
    DistributionList,
    Document,
    Email,
    EmailSmime,
    Fax,
    Folder,
    Meeting,
    Mms,
    Note,
    PostingNote,
    Recipients,
    RssFeed,
    Sharing,
    Sms,
    SubAssociatedContents,
    SubFolders,
    SubMessages,
    Task,
    TaskRequest,
    Voicemail,
    Unknown,
}

/// How the value of a property is stored.
#[derive(Debug, Clone, Copy, PartialEq, Eq, Structural)]
pub enum ValueType {
    Unspecified,
    Null,
    Integer16BitSigned,
    Integer32BitSigned,
    Float32Bit,
    Double64Bit,
    Currency,
    Floatingtime,
    Error,
    Boolean,
    Object,
    Integer64BitSigned,
    StringAscii,
    StringUnicode,
    Filetime,
    Guid,
    ServerIdentifier,
    Restriction,
    RuleAction,
    BinaryData,
    MultiValueInteger16BitSigned,
    MultiValueInteger32BitSigned,
    MultiValueFloat32Bit,
    MultiValueDouble64Bit,
    MultiValueCurrency,
    MultiValueFloatingtime,
    MultiValueInteger64BitSigned,
    MultiValueStringAscii,
    MultiValueStringUnicode,
    MultiValueFiletime,
    MultiValueGuid,
    MultiValueBinaryData,
}

/// Which property of an item an entry holds. `Unknown` stands for every
/// property that this list does not name.
#[derive(Debug, Clone, Copy, PartialEq, Eq, Structural)]
pub enum EntryType {
    MessageImportance,
    MessageClass,
    MessagePriority,
    MessageSensitivity,
    MessageSubject,
    MessageClientSubmitTime,
    MessageSentRepresentingSearchKey,
    MessageReceivedByEntryIdentifier,
    MessageReceivedByName,
    MessageSentRepresentingEntryIdentifier,
    MessageSentRepresentingName,
    MessageReceivedRepresentingEntryIdentifier,
    MessageReceivedRepresentingName,
    MessageReplyRecipientEntries,
    MessageReplyRecipientNames,
    MessageReceivedBySearchKey,
    MessageReceivedRepresentingSearchKey,
    MessageSentRepresentingAddressType,
    MessageSentRepresentingEmailAddress,
    MessageConversationTopic,
    MessageConversationIndex,
    MessageReceivedByAddressType,
    MessageReceivedByEmailAddress,
    MessageReceivedRepresentingAddressType,
    MessageReceivedRepresentingEmailAddress,
    MessageTransportHeaders,
    RecipientType,
    MessageSenderEntryIdentifier,
    MessageSenderName,
    MessageSenderSearchKey,
    MessageSenderAddressType,
    MessageSenderEmailAddress,
    MessageDisplayTo,
    MessageDeliveryTime,
    MessageFlags,
    MessageSize,
    MessageStatus,
    AttachmentSize,
    MessageInternetArticleNumber,
    MessagePermission,
    MessageUrlComputerNameSet,
    MessageTrustSender,
    MessageBodyPlainText,
    MessageBodyCompressedRtf,
    MessageBodyHtml,
    EmailEmlFilename,
    DisplayName,
    AddressType,
    EmailAddress,
    EmailAddress2,
    Alias,
    MessageCreationTime,
    MessageModificationTime,
    MessageStoreValidFolderMask,
    FolderType,
    NumberOfContentItems,
    NumberOfUnreadContentItems,
    HasSubFolders,
    ContainerClass,
    NumberOfAssociatedContent,
    AttachmentDataObject,
    AttachmentFilenameShort,
    AttachmentMethod,
    AttachmentFilenameLong,
    AttachmentRenderingPosition,
    ContactCallbackPhoneNumber,
    ContactGenerationalAbbreviation,
    ContactGivenName,
    ContactBusinessPhoneNumber1,
    ContactHomePhoneNumber,
    ContactInitials,
    ContactSurname,
    ContactPostalAddress,
    ContactCompanyName,
    ContactJobTitle,
    ContactDepartmentName,
    ContactOfficeLocation,
    ContactPrimaryPhoneNumber,
    ContactBusinessPhoneNumber2,
    ContactMobilePhoneNumber,
    ContactBusinessFaxNumber,
    ContactCountry,
    ContactLocality,
    ContactTitle,
    MessageBodyCodepage,
    MessageCodepage,
    RecipientDisplayName,
    FolderChildCount,
    SubItemIdentifier,
    MessageStorePasswordChecksum,
    AddressFileUnder,
    DistributionListName,
    DistributionListMemberOneOffEntryIdentifiers,
    DistributionListMemberEntryIdentifiers,
    ContactEmailAddress1,
    ContactEmailAddress2,
    ContactEmailAddress3,
    TaskStatus,
    TaskPercentageComplete,
    TaskStartDate,
    TaskDueDate,
    TaskActualEffort,
    TaskTotalEffort,
    TaskVersion,
    TaskIsComplete,
    TaskIsRecurring,
    AppointmentBusyStatus,
    AppointmentLocation,
    AppointmentStartTime,
    AppointmentEndTime,
    AppointmentDuration,
    AppointmentIsRecurring,
    AppointmentRecurrencePattern,
    AppointmentTimezoneDescription,
    AppointmentFirstEffectiveTime,
    AppointmentLastEffectiveTime,
    MessageReminderTime,
    MessageIsReminder,
    MessageIsPrivate,
    MessageReminderSignalTime,
    Unknown,
}

impl ItemType {
    /// The number that the archive format gives this kind of item.
    pub open spec fn code(self) -> u8 {
        match self {
            ItemType::Undefined => 0,
            ItemType::Activity => 1,
            ItemType::Appointment => 2,
            ItemType::Attachment => 3,
            ItemType::Attachments => 4,
            ItemType::Common => 5,
            ItemType::Configuration => 6,
            ItemType::ConflictMessage => 7,
            ItemType::Contact => 8,
            ItemType::DistributionList => 9,
            ItemType::Document => 10,
            ItemType::Email => 11,
            ItemType::EmailSmime => 12,
            ItemType::Fax => 13,
            ItemType::Folder => 14,
            ItemType::Meeting => 15,
            ItemType::Mms => 16,
            ItemType::Note => 17,
            ItemType::PostingNote => 18,
            ItemType::Recipients => 19,
            ItemType::RssFeed => 20,
            ItemType::Sharing => 21,
            ItemType::Sms => 22,
            ItemType::SubAssociatedContents => 23,
            ItemType::SubFolders => 24,
            ItemType::SubMessages => 25,
            ItemType::Task => 26,
            ItemType::TaskRequest => 27,
            ItemType::Voicemail => 28,
            ItemType::Unknown => 29,
        }
    }

    /// The kind of item that `value` stands for. Every number that stands
    /// for none is refused as a `BadItemType` that holds it.
    pub fn from_u8(value: u8) -> (kind: Result<ItemType, Error>)
        ensures
            forall|other: ItemType|
                #[trigger] other.code() == value <==> kind == Ok::<ItemType, Error>(other),
            kind is Err ==> kind == Err::<ItemType, Error>(Error::BadItemType(value)),
    {
        match value {
            0 => Ok(ItemType::Undefined),
            1 => Ok(ItemType::Activity),
            2 => Ok(ItemType::Appointment),
            3 => Ok(ItemType::Attachment),
            4 => Ok(ItemType::Attachments),
            5 => Ok(ItemType::Common),
            6 => Ok(ItemType::Configuration),
            7 => Ok(ItemType::ConflictMessage),
            8 => Ok(ItemType::Contact),
            9 => Ok(ItemType::DistributionList),
            10 => Ok(ItemType::Document),
            11 => Ok(ItemType::Email),
            12 => Ok(ItemType::EmailSmime),
            13 => Ok(ItemType::Fax),
            14 => Ok(ItemType::Folder),
            15 => Ok(ItemType::Meeting),
            16 => Ok(ItemType::Mms),
            17 => Ok(ItemType::Note),
            18 => Ok(ItemType::PostingNote),
            19 => Ok(ItemType::Recipients),
            20 => Ok(ItemType::RssFeed),
            21 => Ok(ItemType::Sharing),
            22 => Ok(ItemType::Sms),
            23 => Ok(ItemType::SubAssociatedContents),
            24 => Ok(ItemType::SubFolders),
            25 => Ok(ItemType::SubMessages),
            26 => Ok(ItemType::Task),
            27 => Ok(ItemType::TaskRequest),
            28 => Ok(ItemType::Voicemail),
            29 => Ok(ItemType::Unknown),
            _ => Err(Error::BadItemType(value)),
        }
    }

    /// Whether an item of this kind can be taken for a folder. One of any
    /// other kind is refused as `NotAFolder`.
    pub fn into_folder(&self) -> (folder: Result<(), Error>)
        ensures
            folder == if *self == ItemType::Folder {
                Ok::<(), Error>(())
            } else {
                Err::<(), Error>(Error::NotAFolder)
            },
    {
        match self {
            ItemType::Folder => Ok(()),
            _ => Err(Error::NotAFolder),
        }
    }
}

impl ValueType {
    /// The number that the archive format gives this kind of value.
    pub open spec fn code(self) -> u32 {
        match self {
            ValueType::Unspecified => 0x0000,
            ValueType::Null => 0x0001,
            ValueType::Integer16BitSigned => 0x0002,
            ValueType::Integer32BitSigned => 0x0003,
            ValueType::Float32Bit => 0x0004,
            ValueType::Double64Bit => 0x0005,
            ValueType::Currency => 0x0006,
            ValueType::Floatingtime => 0x0007,
            ValueType::Error => 0x000a,
            ValueType::Boolean => 0x000b,
            ValueType::Object => 0x000d,
            ValueType::Integer64BitSigned => 0x0014,
            ValueType::StringAscii => 0x001e,
            ValueType::StringUnicode => 0x001f,
            ValueType::Filetime => 0x0040,
            ValueType::Guid => 0x0048,
            ValueType::ServerIdentifier => 0x00fb,
            ValueType::Restriction => 0x00fd,
            ValueType::RuleAction => 0x00fe,
            ValueType::BinaryData => 0x0102,
            ValueType::MultiValueInteger16BitSigned => 0x1002,
            ValueType::MultiValueInteger32BitSigned => 0x1003,
            ValueType::MultiValueFloat32Bit => 0x1004,
            ValueType::MultiValueDouble64Bit => 0x1005,
            ValueType::MultiValueCurrency => 0x1006,
            ValueType::MultiValueFloatingtime => 0x1007,
            ValueType::MultiValueInteger64BitSigned => 0x1014,
            ValueType::MultiValueStringAscii => 0x101e,
            ValueType::MultiValueStringUnicode => 0x101f,
            ValueType::MultiValueFiletime => 0x1040,
            ValueType::MultiValueGuid => 0x1048,
            ValueType::MultiValueBinaryData => 0x1102,
        }
    }

    /// The number that the archive format gives this kind of value.
    pub fn to_u32(&self) -> (code: u32)
        ensures
            code == self.code(),
    {
        match self {
            ValueType::Unspecified => 0x0000,
            ValueType::Null => 0x0001,
            ValueType::Integer16BitSigned => 0x0002,
            ValueType::Integer32BitSigned => 0x0003,
            ValueType::Float32Bit => 0x0004,
            ValueType::Double64Bit => 0x0005,
            ValueType::Currency => 0x0006,
            ValueType::Floatingtime => 0x0007,
            ValueType::Error => 0x000a,
            ValueType::Boolean => 0x000b,
            ValueType::Object => 0x000d,
            ValueType::Integer64BitSigned => 0x0014,
            ValueType::StringAscii => 0x001e,
            ValueType::StringUnicode => 0x001f,
            ValueType::Filetime => 0x0040,
            ValueType::Guid => 0x0048,
            ValueType::ServerIdentifier => 0x00fb,
            ValueType::Restriction => 0x00fd,
            ValueType::RuleAction => 0x00fe,
            ValueType::BinaryData => 0x0102,
            ValueType::MultiValueInteger16BitSigned => 0x1002,
            ValueType::MultiValueInteger32BitSigned => 0x1003,
            ValueType::MultiValueFloat32Bit => 0x1004,
            ValueType::MultiValueDouble64Bit => 0x1005,
            ValueType::MultiValueCurrency => 0x1006,
            ValueType::MultiValueFloatingtime => 0x1007,
            ValueType::MultiValueInteger64BitSigned => 0x1014,
            ValueType::MultiValueStringAscii => 0x101e,
            ValueType::MultiValueStringUnicode => 0x101f,
            ValueType::MultiValueFiletime => 0x1040,
            ValueType::MultiValueGuid => 0x1048,
            ValueType::MultiValueBinaryData => 0x1102,
        }
    }

    /// The kind of value that `value` stands for. Every number that stands
    /// for none is refused as a `BadValueType` that holds it.
    pub fn from_u32(value: u32) -> (kind: Result<ValueType, Error>)
        ensures
            forall|other: ValueType|
                #[trigger] other.code() == value <==> kind == Ok::<ValueType, Error>(other),
            kind is Err ==> kind == Err::<ValueType, Error>(Error::BadValueType(value)),
    {
        match value {
            0x0000 => Ok(ValueType::Unspecified),
            0x0001 => Ok(ValueType::Null),
            0x0002 => Ok(ValueType::Integer16BitSigned),
            0x0003 => Ok(ValueType::Integer32BitSigned),
            0x0004 => Ok(ValueType::Float32Bit),
            0x0005 => Ok(ValueType::Double64Bit),
            0x0006 => Ok(ValueType::Currency),
            0x0007 => Ok(ValueType::Floatingtime),
            0x000a => Ok(ValueType::Error),
            0x000b => Ok(ValueType::Boolean),
            0x000d => Ok(ValueType::Object),
            0x0014 => Ok(ValueType::Integer64BitSigned),
            0x001e => Ok(ValueType::StringAscii),
            0x001f => Ok(ValueType::StringUnicode),
            0x0040 => Ok(ValueType::Filetime),
            0x0048 => Ok(ValueType::Guid),
            0x00fb => Ok(ValueType::ServerIdentifier),
            0x00fd => Ok(ValueType::Restriction),
            0x00fe => Ok(ValueType::RuleAction),
            0x0102 => Ok(ValueType::BinaryData),
            0x1002 => Ok(ValueType::MultiValueInteger16BitSigned),
            0x1003 => Ok(ValueType::MultiValueInteger32BitSigned),
            0x1004 => Ok(ValueType::MultiValueFloat32Bit),
            0x1005 => Ok(ValueType::MultiValueDouble64Bit),
            0x1006 => Ok(ValueType::MultiValueCurrency),
            0x1007 => Ok(ValueType::MultiValueFloatingtime),
            0x1014 => Ok(ValueType::MultiValueInteger64BitSigned),
            0x101e => Ok(ValueType::MultiValueStringAscii),
            0x101f => Ok(ValueType::MultiValueStringUnicode),
            0x1040 => Ok(ValueType::MultiValueFiletime),
            0x1048 => Ok(ValueType::MultiValueGuid),
            0x1102 => Ok(ValueType::MultiValueBinaryData),
            _ => Err(Error::BadValueType(value)),
        }
    }
}

impl EntryType {
    /// The number that the archive format gives this property.
    pub open spec fn code(self) -> u32 {
        match self {
            EntryType::MessageImportance => 0x0017,
            EntryType::MessageClass => 0x001a,
            EntryType::MessagePriority => 0x0026,
            EntryType::MessageSensitivity => 0x0036,
            EntryType::MessageSubject => 0x0037,
            EntryType::MessageClientSubmitTime => 0x0039,
            EntryType::MessageSentRepresentingSearchKey => 0x003b,
            EntryType::MessageReceivedByEntryIdentifier => 0x003f,
            EntryType::MessageReceivedByName => 0x0040,
            EntryType::MessageSentRepresentingEntryIdentifier => 0x0041,
            EntryType::MessageSentRepresentingName => 0x0042,
            EntryType::MessageReceivedRepresentingEntryIdentifier => 0x0043,
            EntryType::MessageReceivedRepresentingName => 0x0044,
            EntryType::MessageReplyRecipientEntries => 0x004f,
            EntryType::MessageReplyRecipientNames => 0x0050,
            EntryType::MessageReceivedBySearchKey => 0x0051,
            EntryType::MessageReceivedRepresentingSearchKey => 0x0052,
            EntryType::MessageSentRepresentingAddressType => 0x0064,
            EntryType::MessageSentRepresentingEmailAddress => 0x0065,
            EntryType::MessageConversationTopic => 0x0070,
            EntryType::MessageConversationIndex => 0x0071,
            EntryType::MessageReceivedByAddressType => 0x0075,
            EntryType::MessageReceivedByEmailAddress => 0x0076,
            EntryType::MessageReceivedRepresentingAddressType => 0x0077,
            EntryType::MessageReceivedRepresentingEmailAddress => 0x0078,
            EntryType::MessageTransportHeaders => 0x007d,
            EntryType::RecipientType => 0x0c15,
            EntryType::MessageSenderEntryIdentifier => 0x0c19,
            EntryType::MessageSenderName => 0x0c1a,
            EntryType::MessageSenderSearchKey => 0x0c1d,
            EntryType::MessageSenderAddressType => 0x0c1e,
            EntryType::MessageSenderEmailAddress => 0x0c1f,
            EntryType::MessageDisplayTo => 0x0e04,
            EntryType::MessageDeliveryTime => 0x0e06,
            EntryType::MessageFlags => 0x0e07,
            EntryType::MessageSize => 0x0e08,
            EntryType::MessageStatus => 0x0e17,
            EntryType::AttachmentSize => 0x0e20,
            EntryType::MessageInternetArticleNumber => 0x0e23,
            EntryType::MessagePermission => 0x0e27,
            EntryType::MessageUrlComputerNameSet => 0x0e62,
            EntryType::MessageTrustSender => 0x0e79,
            EntryType::MessageBodyPlainText => 0x1000,
            EntryType::MessageBodyCompressedRtf => 0x1009,
            EntryType::MessageBodyHtml => 0x1013,
            EntryType::EmailEmlFilename => 0x10f3,
            EntryType::DisplayName => 0x3001,
            EntryType::AddressType => 0x3002,
            EntryType::EmailAddress => 0x3003,
            EntryType::EmailAddress2 => 0x39fe,
            EntryType::Alias => 0x39ff,
            EntryType::MessageCreationTime => 0x3007,
            EntryType::MessageModificationTime => 0x3008,
            EntryType::MessageStoreValidFolderMask => 0x35df,
            EntryType::FolderType => 0x3601,
            EntryType::NumberOfContentItems => 0x3602,
            EntryType::NumberOfUnreadContentItems => 0x3603,
            EntryType::HasSubFolders => 0x360a,
            EntryType::ContainerClass => 0x3613,
            EntryType::NumberOfAssociatedContent => 0x3617,
            EntryType::AttachmentDataObject => 0x3701,
            EntryType::AttachmentFilenameShort => 0x3704,
            EntryType::AttachmentMethod => 0x3705,
            EntryType::AttachmentFilenameLong => 0x3707,
            EntryType::AttachmentRenderingPosition => 0x370b,
            EntryType::ContactCallbackPhoneNumber => 0x3a02,
            EntryType::ContactGenerationalAbbreviation => 0x3a05,
            EntryType::ContactGivenName => 0x3a06,
            EntryType::ContactBusinessPhoneNumber1 => 0x3a08,
            EntryType::ContactHomePhoneNumber => 0x3a09,
            EntryType::ContactInitials => 0x3a0a,
            EntryType::ContactSurname => 0x3a11,
            EntryType::ContactPostalAddress => 0x3a15,
            EntryType::ContactCompanyName => 0x3a16,
            EntryType::ContactJobTitle => 0x3a17,
            EntryType::ContactDepartmentName => 0x3a18,
            EntryType::ContactOfficeLocation => 0x3a19,
            EntryType::ContactPrimaryPhoneNumber => 0x3a1a,
            EntryType::ContactBusinessPhoneNumber2 => 0x3a1b,
            EntryType::ContactMobilePhoneNumber => 0x3a1c,
            EntryType::ContactBusinessFaxNumber => 0x3a24,
            EntryType::ContactCountry => 0x3a26,
            EntryType::ContactLocality => 0x3a27,
            EntryType::ContactTitle => 0x3a45,
            EntryType::MessageBodyCodepage => 0x3fde,
            EntryType::MessageCodepage => 0x3ffd,
            EntryType::RecipientDisplayName => 0x5ff6,
            EntryType::FolderChildCount => 0x6638,
            EntryType::SubItemIdentifier => 0x67f2,
            EntryType::MessageStorePasswordChecksum => 0x67ff,
            EntryType::AddressFileUnder => 0x8005,
            EntryType::DistributionListName => 0x8053,
            EntryType::DistributionListMemberOneOffEntryIdentifiers => 0x8054,
            EntryType::DistributionListMemberEntryIdentifiers => 0x8055,
            EntryType::ContactEmailAddress1 => 0x8083,
            EntryType::ContactEmailAddress2 => 0x8093,
            EntryType::ContactEmailAddress3 => 0x80a3,
            EntryType::TaskStatus => 0x8101,
            EntryType::TaskPercentageComplete => 0x8102,
            EntryType::TaskStartDate => 0x8104,
            EntryType::TaskDueDate => 0x8105,
            EntryType::TaskActualEffort => 0x8110,
            EntryType::TaskTotalEffort => 0x8111,
            EntryType::TaskVersion => 0x8112,
            EntryType::TaskIsComplete => 0x811c,
            EntryType::TaskIsRecurring => 0x8126,
            EntryType::AppointmentBusyStatus => 0x8205,
            EntryType::AppointmentLocation => 0x8208,
            EntryType::AppointmentStartTime => 0x820d,
            EntryType::AppointmentEndTime => 0x820e,
            EntryType::AppointmentDuration => 0x8213,
            EntryType::AppointmentIsRecurring => 0x8223,
            EntryType::AppointmentRecurrencePattern => 0x8232,
            EntryType::AppointmentTimezoneDescription => 0x8234,
            EntryType::AppointmentFirstEffectiveTime => 0x8235,
            EntryType::AppointmentLastEffectiveTime => 0x8236,
            EntryType::MessageReminderTime => 0x8502,
            EntryType::MessageIsReminder => 0x8503,
            EntryType::MessageIsPrivate => 0x8506,
            EntryType::MessageReminderSignalTime => 0x8550,
            EntryType::Unknown => 0x8551,
        }
    }

    /// The number that the archive format gives this property.
    pub fn to_u32(&self) -> (code: u32)
        ensures
            code == self.code(),
    {
        match self {
            EntryType::MessageImportance => 0x0017,
            EntryType::MessageClass => 0x001a,
            EntryType::MessagePriority => 0x0026,
            EntryType::MessageSensitivity => 0x0036,
            EntryType::MessageSubject => 0x0037,
            EntryType::MessageClientSubmitTime => 0x0039,
            EntryType::MessageSentRepresentingSearchKey => 0x003b,
            EntryType::MessageReceivedByEntryIdentifier => 0x003f,
            EntryType::MessageReceivedByName => 0x0040,
            EntryType::MessageSentRepresentingEntryIdentifier => 0x0041,
            EntryType::MessageSentRepresentingName => 0x0042,
            EntryType::MessageReceivedRepresentingEntryIdentifier => 0x0043,
            EntryType::MessageReceivedRepresentingName => 0x0044,
            EntryType::MessageReplyRecipientEntries => 0x004f,
            EntryType::MessageReplyRecipientNames => 0x0050,
            EntryType::MessageReceivedBySearchKey => 0x0051,
            EntryType::MessageReceivedRepresentingSearchKey => 0x0052,
            EntryType::MessageSentRepresentingAddressType => 0x0064,
            EntryType::MessageSentRepresentingEmailAddress => 0x0065,
            EntryType::MessageConversationTopic => 0x0070,
            EntryType::MessageConversationIndex => 0x0071,
            EntryType::MessageReceivedByAddressType => 0x0075,
            EntryType::MessageReceivedByEmailAddress => 0x0076,
            EntryType::MessageReceivedRepresentingAddressType => 0x0077,
            EntryType::MessageReceivedRepresentingEmailAddress => 0x0078,
            EntryType::MessageTransportHeaders => 0x007d,
            EntryType::RecipientType => 0x0c15,
            EntryType::MessageSenderEntryIdentifier => 0x0c19,
            EntryType::MessageSenderName => 0x0c1a,
            EntryType::MessageSenderSearchKey => 0x0c1d,
            EntryType::MessageSenderAddressType => 0x0c1e,
            EntryType::MessageSenderEmailAddress => 0x0c1f,
            EntryType::MessageDisplayTo => 0x0e04,
            EntryType::MessageDeliveryTime => 0x0e06,
            EntryType::MessageFlags => 0x0e07,
            EntryType::MessageSize => 0x0e08,
            EntryType::MessageStatus => 0x0e17,
            EntryType::AttachmentSize => 0x0e20,
            EntryType::MessageInternetArticleNumber => 0x0e23,
            EntryType::MessagePermission => 0x0e27,
            EntryType::MessageUrlComputerNameSet => 0x0e62,
            EntryType::MessageTrustSender => 0x0e79,
            EntryType::MessageBodyPlainText => 0x1000,
            EntryType::MessageBodyCompressedRtf => 0x1009,
            EntryType::MessageBodyHtml => 0x1013,
            EntryType::EmailEmlFilename => 0x10f3,
            EntryType::DisplayName => 0x3001,
            EntryType::AddressType => 0x3002,
            EntryType::EmailAddress => 0x3003,
            EntryType::EmailAddress2 => 0x39fe,
            EntryType::Alias => 0x39ff,
            EntryType::MessageCreationTime => 0x3007,
            EntryType::MessageModificationTime => 0x3008,
            EntryType::MessageStoreValidFolderMask => 0x35df,
            EntryType::FolderType => 0x3601,
            EntryType::NumberOfContentItems => 0x3602,
            EntryType::NumberOfUnreadContentItems => 0x3603,
            EntryType::HasSubFolders => 0x360a,
            EntryType::ContainerClass => 0x3613,
            EntryType::NumberOfAssociatedContent => 0x3617,
            EntryType::AttachmentDataObject => 0x3701,
            EntryType::AttachmentFilenameShort => 0x3704,
            EntryType::AttachmentMethod => 0x3705,
            EntryType::AttachmentFilenameLong => 0x3707,
            EntryType::AttachmentRenderingPosition => 0x370b,
            EntryType::ContactCallbackPhoneNumber => 0x3a02,
            EntryType::ContactGenerationalAbbreviation => 0x3a05,
            EntryType::ContactGivenName => 0x3a06,
            EntryType::ContactBusinessPhoneNumber1 => 0x3a08,
            EntryType::ContactHomePhoneNumber => 0x3a09,
            EntryType::ContactInitials => 0x3a0a,
            EntryType::ContactSurname => 0x3a11,
            EntryType::ContactPostalAddress => 0x3a15,
            EntryType::ContactCompanyName => 0x3a16,
            EntryType::ContactJobTitle => 0x3a17,
            EntryType::ContactDepartmentName => 0x3a18,
            EntryType::ContactOfficeLocation => 0x3a19,
            EntryType::ContactPrimaryPhoneNumber => 0x3a1a,
            EntryType::ContactBusinessPhoneNumber2 => 0x3a1b,
            EntryType::ContactMobilePhoneNumber => 0x3a1c,
            EntryType::ContactBusinessFaxNumber => 0x3a24,
            EntryType::ContactCountry => 0x3a26,
            EntryType::ContactLocality => 0x3a27,
            EntryType::ContactTitle => 0x3a45,
            EntryType::MessageBodyCodepage => 0x3fde,
            EntryType::MessageCodepage => 0x3ffd,
            EntryType::RecipientDisplayName => 0x5ff6,
            EntryType::FolderChildCount => 0x6638,
            EntryType::SubItemIdentifier => 0x67f2,
            EntryType::MessageStorePasswordChecksum => 0x67ff,
            EntryType::AddressFileUnder => 0x8005,
            EntryType::DistributionListName => 0x8053,
            EntryType::DistributionListMemberOneOffEntryIdentifiers => 0x8054,
            EntryType::DistributionListMemberEntryIdentifiers => 0x8055,
            EntryType::ContactEmailAddress1 => 0x8083,
            EntryType::ContactEmailAddress2 => 0x8093,
            EntryType::ContactEmailAddress3 => 0x80a3,
            EntryType::TaskStatus => 0x8101,
            EntryType::TaskPercentageComplete => 0x8102,
            EntryType::TaskStartDate => 0x8104,
            EntryType::TaskDueDate => 0x8105,
            EntryType::TaskActualEffort => 0x8110,
            EntryType::TaskTotalEffort => 0x8111,
            EntryType::TaskVersion => 0x8112,
            EntryType::TaskIsComplete => 0x811c,
            EntryType::TaskIsRecurring => 0x8126,
            EntryType::AppointmentBusyStatus => 0x8205,
            EntryType::AppointmentLocation => 0x8208,
            EntryType::AppointmentStartTime => 0x820d,
            EntryType::AppointmentEndTime => 0x820e,
            EntryType::AppointmentDuration => 0x8213,
            EntryType::AppointmentIsRecurring => 0x8223,
            EntryType::AppointmentRecurrencePattern => 0x8232,
            EntryType::AppointmentTimezoneDescription => 0x8234,
            EntryType::AppointmentFirstEffectiveTime => 0x8235,
            EntryType::AppointmentLastEffectiveTime => 0x8236,
            EntryType::MessageReminderTime => 0x8502,
            EntryType::MessageIsReminder => 0x8503,
            EntryType::MessageIsPrivate => 0x8506,
            EntryType::MessageReminderSignalTime => 0x8550,
            EntryType::Unknown => 0x8551,
        }
    }

    /// The property that `value` stands for; `Unknown` for every number
    /// that stands for none.
    #[verifier::rlimit(30)]
    pub fn from_u32(value: u32) -> (entry: EntryType)
        ensures
            forall|other: EntryType|
                other != EntryType::Unknown ==> (#[trigger] other.code() == value <==> entry
                    == other),
    {
        match value {
            0x0017 => EntryType::MessageImportance,
            0x001a => EntryType::MessageClass,
            0x0026 => EntryType::MessagePriority,
            0x0036 => EntryType::MessageSensitivity,
            0x0037 => EntryType::MessageSubject,
            0x0039 => EntryType::MessageClientSubmitTime,
            0x003b => EntryType::MessageSentRepresentingSearchKey,
            0x003f => EntryType::MessageReceivedByEntryIdentifier,
            0x0040 => EntryType::MessageReceivedByName,
            0x0041 => EntryType::MessageSentRepresentingEntryIdentifier,
            0x0042 => EntryType::MessageSentRepresentingName,
            0x0043 => EntryType::MessageReceivedRepresentingEntryIdentifier,
            0x0044 => EntryType::MessageReceivedRepresentingName,
            0x004f => EntryType::MessageReplyRecipientEntries,
            0x0050 => EntryType::MessageReplyRecipientNames,
            0x0051 => EntryType::MessageReceivedBySearchKey,
            0x0052 => EntryType::MessageReceivedRepresentingSearchKey,
            0x0064 => EntryType::MessageSentRepresentingAddressType,
            0x0065 => EntryType::MessageSentRepresentingEmailAddress,
            0x0070 => EntryType::MessageConversationTopic,
            0x0071 => EntryType::MessageConversationIndex,
            0x0075 => EntryType::MessageReceivedByAddressType,
            0x0076 => EntryType::MessageReceivedByEmailAddress,
            0x0077 => EntryType::MessageReceivedRepresentingAddressType,
            0x0078 => EntryType::MessageReceivedRepresentingEmailAddress,
            0x007d => EntryType::MessageTransportHeaders,
            0x0c15 => EntryType::RecipientType,
            0x0c19 => EntryType::MessageSenderEntryIdentifier,
            0x0c1a => EntryType::MessageSenderName,
            0x0c1d => EntryType::MessageSenderSearchKey,
            0x0c1e => EntryType::MessageSenderAddressType,
            0x0c1f => EntryType::MessageSenderEmailAddress,
            0x0e04 => EntryType::MessageDisplayTo,
            0x0e06 => EntryType::MessageDeliveryTime,
            0x0e07 => EntryType::MessageFlags,
            0x0e08 => EntryType::MessageSize,
            0x0e17 => EntryType::MessageStatus,
            0x0e20 => EntryType::AttachmentSize,
            0x0e23 => EntryType::MessageInternetArticleNumber,
            0x0e27 => EntryType::MessagePermission,
            0x0e62 => EntryType::MessageUrlComputerNameSet,
            0x0e79 => EntryType::MessageTrustSender,
            0x1000 => EntryType::MessageBodyPlainText,
            0x1009 => EntryType::MessageBodyCompressedRtf,
            0x1013 => EntryType::MessageBodyHtml,
            0x10f3 => EntryType::EmailEmlFilename,
            0x3001 => EntryType::DisplayName,
            0x3002 => EntryType::AddressType,
            0x3003 => EntryType::EmailAddress,
            0x39fe => EntryType::EmailAddress2,
            0x39ff => EntryType::Alias,
            0x3007 => EntryType::MessageCreationTime,
            0x3008 => EntryType::MessageModificationTime,
            0x35df => EntryType::MessageStoreValidFolderMask,
            0x3601 => EntryType::FolderType,
            0x3602 => EntryType::NumberOfContentItems,
            0x3603 => EntryType::NumberOfUnreadContentItems,
            0x360a => EntryType::HasSubFolders,
            0x3613 => EntryType::ContainerClass,
            0x3617 => EntryType::NumberOfAssociatedContent,
            0x3701 => EntryType::AttachmentDataObject,
            0x3704 => EntryType::AttachmentFilenameShort,
            0x3705 => EntryType::AttachmentMethod,
            0x3707 => EntryType::AttachmentFilenameLong,
            0x370b => EntryType::AttachmentRenderingPosition,
            0x3a02 => EntryType::ContactCallbackPhoneNumber,
            0x3a05 => EntryType::ContactGenerationalAbbreviation,
            0x3a06 => EntryType::ContactGivenName,
            0x3a08 => EntryType::ContactBusinessPhoneNumber1,
            0x3a09 => EntryType::ContactHomePhoneNumber,
            0x3a0a => EntryType::ContactInitials,
            0x3a11 => EntryType::ContactSurname,
            0x3a15 => EntryType::ContactPostalAddress,
            0x3a16 => EntryType::ContactCompanyName,
            0x3a17 => EntryType::ContactJobTitle,
            0x3a18 => EntryType::ContactDepartmentName,
            0x3a19 => EntryType::ContactOfficeLocation,
            0x3a1a => EntryType::ContactPrimaryPhoneNumber,
            0x3a1b => EntryType::ContactBusinessPhoneNumber2,
            0x3a1c => EntryType::ContactMobilePhoneNumber,
            0x3a24 => EntryType::ContactBusinessFaxNumber,
            0x3a26 => EntryType::ContactCountry,
            0x3a27 => EntryType::ContactLocality,
            0x3a45 => EntryType::ContactTitle,
            0x3fde => EntryType::MessageBodyCodepage,
            0x3ffd => EntryType::MessageCodepage,
            0x5ff6 => EntryType::RecipientDisplayName,
            0x6638 => EntryType::FolderChildCount,
            0x67f2 => EntryType::SubItemIdentifier,
            0x67ff => EntryType::MessageStorePasswordChecksum,
            0x8005 => EntryType::AddressFileUnder,
            0x8053 => EntryType::DistributionListName,
            0x8054 => EntryType::DistributionListMemberOneOffEntryIdentifiers,
            0x8055 => EntryType::DistributionListMemberEntryIdentifiers,
            0x8083 => EntryType::ContactEmailAddress1,
            0x8093 => EntryType::ContactEmailAddress2,
            0x80a3 => EntryType::ContactEmailAddress3,
            0x8101 => EntryType::TaskStatus,
            0x8102 => EntryType::TaskPercentageComplete,
            0x8104 => EntryType::TaskStartDate,
            0x8105 => EntryType::TaskDueDate,
            0x8110 => EntryType::TaskActualEffort,
            0x8111 => EntryType::TaskTotalEffort,
            0x8112 => EntryType::TaskVersion,
            0x811c => EntryType::TaskIsComplete,
            0x8126 => EntryType::TaskIsRecurring,
            0x8205 => EntryType::AppointmentBusyStatus,
            0x8208 => EntryType::AppointmentLocation,
            0x820d => EntryType::AppointmentStartTime,
            0x820e => EntryType::AppointmentEndTime,
            0x8213 => EntryType::AppointmentDuration,
            0x8223 => EntryType::AppointmentIsRecurring,
            0x8232 => EntryType::AppointmentRecurrencePattern,
            0x8234 => EntryType::AppointmentTimezoneDescription,
            0x8235 => EntryType::AppointmentFirstEffectiveTime,
            0x8236 => EntryType::AppointmentLastEffectiveTime,
            0x8502 => EntryType::MessageReminderTime,
            0x8503 => EntryType::MessageIsReminder,
            0x8506 => EntryType::MessageIsPrivate,
            0x8550 => EntryType::MessageReminderSignalTime,
            _ => EntryType::Unknown,
        }
    }
}

/// No two kinds of item go by one number.
pub proof fn lemma_item_type_codes(a: ItemType, b: ItemType)
    requires
        a.code() == b.code(),
    ensures
        a == b,
{
}

/// No two kinds of value go by one number.
pub proof fn lemma_value_type_codes(a: ValueType, b: ValueType)
    requires
        a.code() == b.code(),
    ensures
        a == b,
{
}

/// No two properties go by one number.
pub proof fn lemma_entry_type_codes(a: EntryType, b: EntryType)
    requires
        a.code() == b.code(),
    ensures
        a == b,
{
}

/// The indexes from `position` up to, and without, `count`.
pub open spec fn indexes_from(position: int, count: int) -> Seq<int> {
    if position < count {
        Seq::new((count - position) as nat, |k: int| position + k)
    } else {
        Seq::<int>::empty()
    }
}

/// A place among the sub-items of an item, which are fetched one by one by
/// their index, the first at 0.
#[derive(Debug, Clone, Copy)]
pub struct SubItemsIterator {
    count: i32,
    index: i32,
}

impl SubItemsIterator {
    /// How many there are. A count below 1 means none.
    pub closed spec fn count(&self) -> int {
        self.count as int
    }

    /// How many have been passed.
    pub closed spec fn position(&self) -> int {
        self.index as int
    }

    /// The indexes still to come, in order.
    pub open spec fn pending(&self) -> Seq<int> {
        indexes_from(self.position(), self.count())
    }

    /// A cursor before the first of `count` sub-items.
    pub fn new(count: i32) -> (cursor: Self)
        ensures
            cursor.count() == count,
            cursor.position() == 0,
            cursor.pending() == indexes_from(0, count as int),
    {
        SubItemsIterator { count, index: 0 }
    }

    /// The index to fetch next; `None` once all have been passed.
    pub fn next_index(&self) -> (next: Option<i32>)
        ensures
            next == if self.position() < self.count() {
                Some(self.position() as i32)
            } else {
                None::<i32>
            },
            next == if self.pending().len() > 0 {
                Some(self.pending()[0] as i32)
            } else {
                None::<i32>
            },
    {
        if self.index >= self.count {
            None
        } else {
            Some(self.index)
        }
    }

    /// Passes the one at `next_index`, once it has been fetched. At the end
    /// nothing changes.
    pub fn advance(&mut self)
        ensures
            final(self).count() == old(self).count(),
            final(self).position() == if old(self).position() < old(self).count() {
                old(self).position() + 1
            } else {
                old(self).position()
            },
            final(self).pending() == if old(self).pending().len() > 0 {
                old(self).pending().drop_first()
            } else {
                old(self).pending()
            },
    {
        if self.index < self.count {
            self.index = self.index + 1;
            assert(self.pending() =~= old(self).pending().drop_first());
        }
    }
}

/// A place among the record sets of an item, which are fetched one by one by
/// their index, the first at 0.
#[derive(Debug, Clone, Copy)]
pub struct RecordSetIterator {
    count: i32,
    index: i32,
}

impl RecordSetIterator {
    /// How many there are. A count below 1 means none.
    pub closed spec fn count(&self) -> int {
        self.count as int
    }

    /// How many have been passed.
    pub closed spec fn position(&self) -> int {
        self.index as int
    }

    /// The indexes still to come, in order.
    pub open spec fn pending(&self) -> Seq<int> {
        indexes_from(self.position(), self.count())
    }

    /// A cursor before the first of `count` record sets.
    pub fn new(count: i32) -> (cursor: Self)
        ensures
            cursor.count() == count,
            cursor.position() == 0,
            cursor.pending() == indexes_from(0, count as int),
    {
        RecordSetIterator { count, index: 0 }
    }

    /// The index to fetch next; `None` once all have been passed.
    pub fn next_index(&self) -> (next: Option<i32>)
        ensures
            next == if self.position() < self.count() {
                Some(self.position() as i32)
            } else {
                None::<i32>
            },
            next == if self.pending().len() > 0 {
                Some(self.pending()[0] as i32)
            } else {
                None::<i32>
            },
    {
        if self.index >= self.count {
            None
        } else {
            Some(self.index)
        }
    }

    /// Passes the one at `next_index`, once it has been fetched. At the end
    /// nothing changes.
    pub fn advance(&mut self)
        ensures
            final(self).count() == old(self).count(),
            final(self).position() == if old(self).position() < old(self).count() {
                old(self).position() + 1
            } else {
                old(self).position()
            },
            final(self).pending() == if old(self).pending().len() > 0 {
                old(self).pending().drop_first()
            } else {
                old(self).pending()
            },
    {
        if self.index < self.count {
            self.index = self.index + 1;
            assert(self.pending() =~= old(self).pending().drop_first());
        }
    }
}

} // verus!

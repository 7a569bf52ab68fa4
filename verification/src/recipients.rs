//! The people a message is addressed to, put together from the properties
//! that the archive keeps for each of them.

use crate::item::EntryType;
use crate::text::{push_char, text_of};
use vstd::prelude::*;
use vstd::string::{StrSliceExecFns, StringExecFns};

verus! {

/// One addressee of a message.
#[derive(Debug, Clone)]
pub struct Recipient {
    pub email_address: Option<String>,
    pub display_name: Option<String>,
    pub address_type: Option<String>,
}

/// A `Recipient` as plain text.
pub struct RecipientView {
    pub email_address: Option<Seq<char>>,
    pub display_name: Option<Seq<char>>,
    pub address_type: Option<Seq<char>>,
}

impl View for Recipient {
    type V = RecipientView;

    open spec fn view(&self) -> RecipientView {
        RecipientView {
            email_address: text_of(self.email_address),
            display_name: text_of(self.display_name),
            address_type: text_of(self.address_type),
        }
    }
}

/// The properties of one addressee as plain values: the kind of each and
/// its text.
pub open spec fn entries_view(entries: Seq<(EntryType, String)>) -> Seq<(EntryType, Seq<char>)> {
    Seq::new(entries.len(), |i: int| (entries[i].0, entries[i].1@))
}

/// Whether a property is one of the four that describe an addressee: the two
/// addresses, the display name and the address type.
pub open spec fn describes(kind: EntryType) -> bool {
    kind == EntryType::EmailAddress || kind == EntryType::EmailAddress2 || kind
        == EntryType::DisplayName || kind == EntryType::AddressType
}

/// The text of the last property of kind `kind`, if there is one.
pub open spec fn last_value(entries: Seq<(EntryType, Seq<char>)>, kind: EntryType) -> Option<
    Seq<char>,
>
    decreases entries.len(),
{
    if entries.len() == 0 {
        None
    } else if entries.last().0 == kind {
        Some(entries.last().1)
    } else {
        last_value(entries.drop_last(), kind)
    }
}

/// Whether an address type is that of an Exchange server, which keeps the
/// address under another property.
pub open spec fn is_exchange(address_type: Option<Seq<char>>) -> bool {
    address_type == Some("EX"@)
}

/// The addressee that a record set describes. The address is that of the
/// second address property where the address type is `EX`, else that of the
/// first.
pub open spec fn recipient_of(entries: Seq<(EntryType, Seq<char>)>) -> RecipientView {
    let address_type = last_value(entries, EntryType::AddressType);
    RecipientView {
        email_address: if is_exchange(address_type) {
            last_value(entries, EntryType::EmailAddress2)
        } else {
            last_value(entries, EntryType::EmailAddress)
        },
        display_name: last_value(entries, EntryType::DisplayName),
        address_type,
    }
}

/// The addressee that a list of properties describes where an address
/// counts only beside an address type: without the type there is no address.
pub open spec fn recipient_from(entries: Seq<(EntryType, Seq<char>)>) -> RecipientView {
    let address_type = last_value(entries, EntryType::AddressType);
    RecipientView {
        email_address: if address_type is None {
            None
        } else {
            recipient_of(entries).email_address
        },
        display_name: last_value(entries, EntryType::DisplayName),
        address_type,
    }
}

/// A name with an address behind it in angle brackets.
pub open spec fn name_and_address(name: Seq<char>, address: Seq<char>) -> Seq<char> {
    (name.push(' ').push('<') + address).push('>')
}

/// How a person is written: name and address where both are known, else
/// whichever is, else nothing.
pub open spec fn agent_text(name: Option<Seq<char>>, address: Option<Seq<char>>) -> Option<
    Seq<char>,
> {
    match (name, address) {
        (Some(name), Some(address)) => Some(name_and_address(name, address)),
        (Some(name), None) => Some(name),
        (None, Some(address)) => Some(address),
        (None, None) => None,
    }
}

/// Writes a person as `agent_text` says.
pub fn format_agent(name: Option<String>, address: Option<String>) -> (text: Option<String>)
    ensures
        text_of(text) == agent_text(text_of(name), text_of(address)),
{
    match (name, address) {
        (Some(name), Some(address)) => {
            let mut text = name;
            push_char(&mut text, ' ');
            push_char(&mut text, '<');
            text.append(address.as_str());
            push_char(&mut text, '>');
            Some(text)
        },
        (Some(name), None) => Some(name),
        (None, Some(address)) => Some(address),
        (None, None) => None,
    }
}

/// Whether the address type is that of an Exchange server.
fn exchange_type(address_type: &Option<String>) -> (exchange: bool)
    ensures
        exchange == is_exchange(text_of(*address_type)),
{
    proof {
        reveal_strlit("EX");
    }
    match address_type {
        Some(kind) => {
            let kind = kind.as_str();
            let exchange = kind.unicode_len() == 2 && kind.get_char(0) == 'E' && kind.get_char(1)
                == 'X';
            proof {
                if exchange {
                    assert(kind@ =~= "EX"@);
                }
            }
            exchange
        },
        None => false,
    }
}

/// The last of each of the four properties that describe an addressee.
struct Gathered {
    first_address: Option<String>,
    second_address: Option<String>,
    display_name: Option<String>,
    address_type: Option<String>,
}

/// Goes through the properties once and keeps the last of each kind that
/// describes an addressee.
fn gather(entries: &Vec<(EntryType, String)>) -> (found: Gathered)
    ensures
        text_of(found.first_address) == last_value(entries_view(entries@), EntryType::EmailAddress),
        text_of(found.second_address) == last_value(
            entries_view(entries@),
            EntryType::EmailAddress2,
        ),
        text_of(found.display_name) == last_value(entries_view(entries@), EntryType::DisplayName),
        text_of(found.address_type) == last_value(entries_view(entries@), EntryType::AddressType),
{
    let mut found = Gathered {
        first_address: None,
        second_address: None,
        display_name: None,
        address_type: None,
    };
    let ghost all = entries_view(entries@);
    let mut i: usize = 0;
    while i < entries.len()
        invariant
            i <= entries.len(),
            all == entries_view(entries@),
            text_of(found.first_address) == last_value(all.take(i as int), EntryType::EmailAddress),
            text_of(found.second_address) == last_value(
                all.take(i as int),
                EntryType::EmailAddress2,
            ),
            text_of(found.display_name) == last_value(all.take(i as int), EntryType::DisplayName),
            text_of(found.address_type) == last_value(all.take(i as int), EntryType::AddressType),
        decreases entries.len() - i,
    {
        proof {
            assert(all.take(i + 1).drop_last() == all.take(i as int));
            assert(all.take(i + 1).last() == (entries@[i as int].0, entries@[i as int].1@));
        }
        let entry = &entries[i];
        match entry.0 {
            EntryType::EmailAddress => {
                found.first_address = Some(entry.1.clone());
            },
            EntryType::EmailAddress2 => {
                found.second_address = Some(entry.1.clone());
            },
            EntryType::DisplayName => {
                found.display_name = Some(entry.1.clone());
            },
            EntryType::AddressType => {
                found.address_type = Some(entry.1.clone());
            },
            _ => {},
        }
        i = i + 1;
    }
    proof {
        assert(all.take(entries.len() as int) == all);
    }
    found
}

/// Whether a property of a record set has to be read to put the addressee
/// together. Properties of any other kind may be left out of what
/// `record_set_to_recipient` is given.
pub fn describes_recipient(kind: EntryType) -> (needed: bool)
    ensures
        needed == describes(kind),
{
    match kind {
        EntryType::EmailAddress => true,
        EntryType::EmailAddress2 => true,
        EntryType::DisplayName => true,
        EntryType::AddressType => true,
        _ => false,
    }
}

/// The properties among `entries` that describe an addressee, in order.
pub open spec fn describing(entries: Seq<(EntryType, Seq<char>)>) -> Seq<(EntryType, Seq<char>)> {
    entries.filter(|entry: (EntryType, Seq<char>)| describes(entry.0))
}

/// Leaving out what does not describe an addressee changes nothing in the
/// last property of a kind that does.
proof fn lemma_last_described(entries: Seq<(EntryType, Seq<char>)>, kind: EntryType)
    requires
        describes(kind),
    ensures
        last_value(describing(entries), kind) == last_value(entries, kind),
    decreases entries.len(),
{
    reveal(Seq::filter);
    if entries.len() > 0 {
        lemma_last_described(entries.drop_last(), kind);
        let kept = describing(entries.drop_last());
        if describes(entries.last().0) {
            assert(describing(entries) == kept.push(entries.last()));
            assert(kept.push(entries.last()).drop_last() == kept);
        } else {
            assert(describing(entries) == kept);
        }
    }
}

/// The addressee depends on nothing but the properties that describe one:
/// the others may be left out.
pub proof fn lemma_describing(entries: Seq<(EntryType, Seq<char>)>)
    ensures
        recipient_of(describing(entries)) == recipient_of(entries),
        recipient_from(describing(entries)) == recipient_from(entries),
{
    lemma_last_described(entries, EntryType::EmailAddress);
    lemma_last_described(entries, EntryType::EmailAddress2);
    lemma_last_described(entries, EntryType::DisplayName);
    lemma_last_described(entries, EntryType::AddressType);
}

/// Puts an addressee together from the properties of its record set, given
/// in the order in which the archive holds them. Of two properties of one
/// kind the later counts.
pub fn record_set_to_recipient(entries: &Vec<(EntryType, String)>) -> (recipient: Recipient)
    ensures
        recipient@ == recipient_of(entries_view(entries@)),
{
    let found = gather(entries);
    let email_address = if exchange_type(&found.address_type) {
        found.second_address
    } else {
        found.first_address
    };
    Recipient { email_address, display_name: found.display_name, address_type: found.address_type }
}

impl Recipient {
    /// Puts an addressee together from a list of properties, as
    /// `recipient_from` says: an address is taken only where the list holds
    /// an address type.
    pub fn from_entries(entries: &Vec<(EntryType, String)>) -> (recipient: Recipient)
        ensures
            recipient@ == recipient_from(entries_view(entries@)),
    {
        let found = gather(entries);
        let email_address = if found.address_type.is_none() {
            None
        } else if exchange_type(&found.address_type) {
            found.second_address
        } else {
            found.first_address
        };
        Recipient {
            email_address,
            display_name: found.display_name,
            address_type: found.address_type,
        }
    }

    /// The addressee as a line of text: name and address where both are
    /// known, else whichever is, else the empty string.
    pub fn to_string(&self) -> (text: String)
        ensures
            text@ == match agent_text(self@.display_name, self@.email_address) {
                Some(text) => text,
                None => Seq::<char>::empty(),
            },
    {
        match format_agent(self.display_name.clone(), self.email_address.clone()) {
            Some(text) => text,
            None => String::new(),
        }
    }
}

} // verus!

//! The recipient of a message: the record of the C interface and the owned
//! value that it is converted to.

use vstd::prelude::*;
use vstd::utf8::{decode_utf8_encode_utf8, encode_utf8, valid_utf8};
use crate::conversion::{
    bytes_of,
    copied_prefix,
    copy_c_array_to_vec,
    decoded_text,
    maybe_string,
    text_of,
};

verus! {

/// Why a foreign record could not be converted.
#[derive(Debug, Clone, Copy, PartialEq, Eq, Structural)]
pub enum ConversionError {
    /// The pointer to the record was null.
    NullPointer,
}

/// A recipient record of the C interface, as it was found behind a pointer.
///
/// The record and all that it leads to belong to the caller on the foreign
/// side. Each of its pointers is held as an `Option`, `None` for null: `name` and
/// `address` with the bytes of the string up to its terminator, `entry_id` with
/// the bytes of the buffer.
#[derive(Debug)]
pub struct RawMapiRecipDesc {
    /// Reserved by the C interface, and not looked at.
    pub reserved: u32,
    /// The role of the recipient, a number that the C interface defines.
    pub recip_class: u32,
    /// The name of the recipient.
    pub name: Option<Vec<u8>>,
    /// The address of the recipient, which a record may leave out.
    pub address: Option<Vec<u8>>,
    /// The number of bytes of `entry_id`.
    pub eid_size: u32,
    /// A reference to the recipient that only the foreign side understands.
    pub entry_id: Option<Vec<u8>>,
}

impl RawMapiRecipDesc {
    /// The foreign side keeps its word: behind `entry_id` there are at least
    /// `eid_size` bytes.
    pub open spec fn well_formed(&self) -> bool {
        self.entry_id matches Some(bytes) ==> self.eid_size <= bytes@.len()
    }

    /// Whether the record is well formed.
    pub fn is_well_formed(&self) -> (b: bool)
        ensures
            b == self.well_formed(),
    {
        match &self.entry_id {
            Some(bytes) => self.eid_size as usize <= bytes.len(),
            None => true,
        }
    }
}

/// The name that a recipient gets whose record has none that can be read.
pub const MISSING_RECIP_NAME: &'static str = "MISSING_RECIP_NAME";

/// A recipient of a message, with all its data owned. It is made once, from
/// a record of the C interface, and lives as long as the message that holds it.
#[derive(Debug)]
pub struct RecipientDescriptor {
    recip_class: u32,
    name: String,
    /// The address of the recipient, if it has one.
    pub address: Option<String>,
    entry_id: Vec<u8>,
}

/// What a [`RecipientDescriptor`] holds.
pub struct RecipientDescriptorView {
    /// The role of the recipient.
    pub recip_class: u32,
    /// The name of the recipient.
    pub name: Seq<char>,
    /// The address of the recipient, if it has one.
    pub address: Option<Seq<char>>,
    /// The entry identifier of the recipient.
    pub entry_id: Seq<u8>,
}

impl View for RecipientDescriptor {
    type V = RecipientDescriptorView;

    closed spec fn view(&self) -> RecipientDescriptorView {
        RecipientDescriptorView {
            recip_class: self.recip_class,
            name: self.name@,
            address: text_of(self.address),
            entry_id: self.entry_id@,
        }
    }
}

/// What the conversion of a foreign record holds: the class as it is, the
/// decoded name or the name for a missing one, the decoded address if there is
/// one, and the first `eid_size` bytes of the entry identifier.
pub open spec fn converted(raw: RawMapiRecipDesc) -> RecipientDescriptorView {
    RecipientDescriptorView {
        recip_class: raw.recip_class,
        name: match decoded_text(bytes_of(raw.name)) {
            Some(name) => name,
            None => MISSING_RECIP_NAME@,
        },
        address: decoded_text(bytes_of(raw.address)),
        entry_id: copied_prefix(bytes_of(raw.entry_id), raw.eid_size as nat),
    }
}

impl RecipientDescriptor {
    /// A recipient with the given address, no name, class 0 and an entry
    /// identifier of four zero bytes.
    pub fn new(address: &str) -> (recipient: Self)
        ensures
            recipient@ == (RecipientDescriptorView {
                recip_class: 0,
                name: Seq::empty(),
                address: Some(address@),
                entry_id: seq![0u8, 0u8, 0u8, 0u8],
            }),
    {
        RecipientDescriptor {
            recip_class: 0,
            name: String::new(),
            address: Some(address.to_owned()),
            entry_id: vec![0, 0, 0, 0],
        }
    }

    /// The role of the recipient.
    pub fn recip_class(&self) -> (class: u32)
        ensures
            class == self@.recip_class,
    {
        self.recip_class
    }

    /// The name of the recipient.
    pub fn name(&self) -> (name: &str)
        ensures
            name@ == self@.name,
    {
        self.name.as_str()
    }

    /// The address of the recipient, if it has one.
    pub fn address(&self) -> (address: Option<&str>)
        ensures
            match address {
                Some(text) => self@.address == Some(text@),
                None => self@.address is None,
            },
    {
        match &self.address {
            Some(text) => Some(text.as_str()),
            None => None,
        }
    }

    /// The entry identifier of the recipient.
    pub fn entry_id(&self) -> (entry_id: &[u8])
        ensures
            entry_id@ == self@.entry_id,
    {
        self.entry_id.as_slice()
    }

    /// Converts what was found behind a pointer to a record of the C interface.
    /// `None` stands for a null pointer, which is the one thing that fails.
    ///
    /// A name that is missing or cannot be decoded is replaced by
    /// [`MISSING_RECIP_NAME`]; an address that is missing or cannot be decoded is
    /// left out; the entry identifier is the first `eid_size` bytes of its
    /// buffer, and empty without a buffer. Name and address are decoded as
    /// UTF-8, so what is decoded has the very bytes that it was decoded from.
    pub fn try_from(pointer: Option<&RawMapiRecipDesc>) -> (result: Result<Self, ConversionError>)
        requires
            pointer matches Some(raw) ==> raw.well_formed(),
        ensures
            pointer is None ==> result == Err::<Self, ConversionError>(
                ConversionError::NullPointer,
            ),
            pointer matches Some(raw) ==> (result matches Ok(recipient) && ({
                &&& recipient@ == converted(*raw)
                &&& recipient@.recip_class == raw.recip_class
                &&& match raw.name {
                    Some(bytes) => if valid_utf8(bytes@) {
                        encode_utf8(recipient@.name) == bytes@
                    } else {
                        recipient@.name == MISSING_RECIP_NAME@
                    },
                    None => recipient@.name == MISSING_RECIP_NAME@,
                }
                &&& match raw.address {
                    Some(bytes) => if valid_utf8(bytes@) {
                        recipient@.address matches Some(address) && encode_utf8(address) == bytes@
                    } else {
                        recipient@.address is None
                    },
                    None => recipient@.address is None,
                }
                &&& match raw.entry_id {
                    Some(bytes) => recipient@.entry_id == bytes@.take(raw.eid_size as int),
                    None => recipient@.entry_id == Seq::<u8>::empty(),
                }
                &&& (raw.eid_size == 0 ==> recipient@.entry_id == Seq::<u8>::empty())
            })),
    {
        match pointer {
            Some(raw) => Ok(Self::from(raw)),
            None => Err(ConversionError::NullPointer),
        }
    }

    /// Converts a record of the C interface into an owned recipient, field by
    /// field as [`RecipientDescriptor::try_from`] says. The record is only read,
    /// and nothing of the result depends on it any longer.
    pub fn from(raw: &RawMapiRecipDesc) -> (recipient: Self)
        requires
            raw.well_formed(),
        ensures
            recipient@ == converted(*raw),
            recipient@.recip_class == raw.recip_class,
            (match raw.name {
                Some(bytes) => if valid_utf8(bytes@) {
                    encode_utf8(recipient@.name) == bytes@
                } else {
                    recipient@.name == MISSING_RECIP_NAME@
                },
                None => recipient@.name == MISSING_RECIP_NAME@,
            }),
            (match raw.address {
                Some(bytes) => if valid_utf8(bytes@) {
                    recipient@.address matches Some(address) && encode_utf8(address) == bytes@
                } else {
                    recipient@.address is None
                },
                None => recipient@.address is None,
            }),
            (match raw.entry_id {
                Some(bytes) => recipient@.entry_id == bytes@.take(raw.eid_size as int),
                None => recipient@.entry_id == Seq::<u8>::empty(),
            }),
            raw.eid_size == 0 ==> recipient@.entry_id == Seq::<u8>::empty(),
    {
        let name = match maybe_string(&raw.name) {
            Some(name) => name,
            None => MISSING_RECIP_NAME.to_owned(),
        };
        RecipientDescriptor {
            recip_class: raw.recip_class,
            name,
            address: maybe_string(&raw.address),
            entry_id: copy_c_array_to_vec(&raw.entry_id, raw.eid_size as usize),
        }
    }
}

/// Records whose conversions have the same address have the same address
/// bytes, or both have none: no two addresses are converted to one. This holds
/// of records whose address, where there is one, is valid UTF-8.
pub proof fn lemma_address_conversion_injective(a: RawMapiRecipDesc, b: RawMapiRecipDesc)
    requires
        a.address matches Some(bytes) ==> valid_utf8(bytes@),
        b.address matches Some(bytes) ==> valid_utf8(bytes@),
        converted(a).address == converted(b).address,
    ensures
        bytes_of(a.address) == bytes_of(b.address),
{
    if let Some(x) = a.address {
        if let Some(y) = b.address {
            decode_utf8_encode_utf8(x@);
            decode_utf8_encode_utf8(y@);
        }
    }
}

/// Records whose conversions have the same entry identifier have the same
/// number of bytes behind their entry pointers, and the same bytes. This holds
/// of well-formed records whose entry pointer is not null.
pub proof fn lemma_entry_id_conversion_injective(a: RawMapiRecipDesc, b: RawMapiRecipDesc)
    requires
        a.well_formed(),
        b.well_formed(),
        a.entry_id is Some,
        b.entry_id is Some,
        converted(a).entry_id == converted(b).entry_id,
    ensures
        a.eid_size == b.eid_size,
        a.entry_id->0@.take(a.eid_size as int) == b.entry_id->0@.take(b.eid_size as int),
{
    let x = a.entry_id->0@;
    let y = b.entry_id->0@;
    assert(x.take(a.eid_size as int).len() == a.eid_size);
    assert(y.take(b.eid_size as int).len() == b.eid_size);
    assert(x.take(0) =~= Seq::<u8>::empty());
    assert(y.take(0) =~= Seq::<u8>::empty());
}

} // verus!

use mapi_shim::conversion::{copy_c_array_to_vec, maybe_string};
use mapi_shim::structs::recipient_descriptor::{
    ConversionError, RawMapiRecipDesc, RecipientDescriptor, MISSING_RECIP_NAME,
};

fn record(
    recip_class: u32,
    name: Option<&[u8]>,
    address: Option<&[u8]>,
    eid_size: u32,
    entry_id: Option<&[u8]>,
) -> RawMapiRecipDesc {
    RawMapiRecipDesc {
        reserved: 0,
        recip_class,
        name: name.map(|bytes| bytes.to_vec()),
        address: address.map(|bytes| bytes.to_vec()),
        eid_size,
        entry_id: entry_id.map(|bytes| bytes.to_vec()),
    }
}

#[test]
fn converts_a_full_record() {
    let raw = record(1, Some(b"Alice"), Some(b"alice@example.com"), 2, Some(&[0xDE, 0xAD]));
    let recipient = RecipientDescriptor::try_from(Some(&raw)).unwrap();
    assert_eq!(recipient.recip_class(), 1);
    assert_eq!(recipient.name(), "Alice");
    assert_eq!(recipient.address, Some("alice@example.com".to_owned()));
    assert_eq!(recipient.address(), Some("alice@example.com"));
    assert_eq!(recipient.entry_id(), &[0xDE, 0xAD]);
}

#[test]
fn converts_a_record_of_null_pointers() {
    let raw = record(2, None, None, 0, None);
    let recipient = RecipientDescriptor::try_from(Some(&raw)).unwrap();
    assert_eq!(recipient.recip_class(), 2);
    assert_eq!(recipient.name(), "MISSING_RECIP_NAME");
    assert_eq!(recipient.address, None);
    assert_eq!(recipient.address(), None);
    assert_eq!(recipient.entry_id(), &[] as &[u8]);
}

#[test]
fn null_pointer_is_the_null_pointer_error() {
    let result = RecipientDescriptor::try_from(None);
    assert!(matches!(result, Err(ConversionError::NullPointer)));
    assert_eq!(result.unwrap_err(), ConversionError::NullPointer);
}

#[test]
fn from_and_try_from_agree() {
    let raw = record(7, Some(b"Bob"), Some(b"bob@example.com"), 3, Some(&[1, 2, 3]));
    let direct = RecipientDescriptor::from(&raw);
    let checked = RecipientDescriptor::try_from(Some(&raw)).unwrap();
    assert_eq!(direct.recip_class(), checked.recip_class());
    assert_eq!(direct.name(), checked.name());
    assert_eq!(direct.address, checked.address);
    assert_eq!(direct.entry_id(), checked.entry_id());
}

#[test]
fn null_name_gets_the_sentinel() {
    let raw = record(0, None, Some(b"x@y.z"), 0, None);
    let recipient = RecipientDescriptor::from(&raw);
    assert_eq!(recipient.name(), "MISSING_RECIP_NAME");
    assert_eq!(MISSING_RECIP_NAME, "MISSING_RECIP_NAME");
    assert_eq!(recipient.address(), Some("x@y.z"));
}

#[test]
fn undecodable_name_gets_the_sentinel() {
    let raw = record(0, Some(&[b'A', 0xFF, b'B']), None, 0, None);
    let recipient = RecipientDescriptor::from(&raw);
    assert_eq!(recipient.name(), "MISSING_RECIP_NAME");
}

#[test]
fn empty_name_stays_empty() {
    let raw = record(0, Some(b""), None, 0, None);
    let recipient = RecipientDescriptor::from(&raw);
    assert_eq!(recipient.name(), "");
}

#[test]
fn null_address_is_none() {
    let raw = record(1, Some(b"Alice"), None, 0, None);
    let recipient = RecipientDescriptor::from(&raw);
    assert_eq!(recipient.address, None);
}

#[test]
fn address_matches_the_source_bytes() {
    let source = "zo\u{eb}@example.com";
    let raw = record(1, None, Some(source.as_bytes()), 0, None);
    let recipient = RecipientDescriptor::from(&raw);
    let address = recipient.address.unwrap();
    assert_eq!(address.as_bytes(), source.as_bytes());
    assert_eq!(address.chars().count(), 15);
}

#[test]
fn undecodable_address_is_none() {
    let raw = record(1, Some(b"Alice"), Some(&[0xC3, 0x28]), 0, None);
    let recipient = RecipientDescriptor::from(&raw);
    assert_eq!(recipient.address, None);
    assert_eq!(recipient.name(), "Alice");
}

#[test]
fn zero_size_gives_an_empty_entry_id() {
    let with_buffer = record(1, None, None, 0, Some(&[9, 9, 9]));
    assert!(RecipientDescriptor::from(&with_buffer).entry_id().is_empty());
    let without_buffer = record(1, None, None, 0, None);
    assert!(RecipientDescriptor::from(&without_buffer).entry_id().is_empty());
}

#[test]
fn null_entry_pointer_gives_an_empty_entry_id() {
    let raw = record(1, None, None, 4, None);
    assert!(raw.is_well_formed());
    assert!(RecipientDescriptor::from(&raw).entry_id().is_empty());
}

#[test]
fn entry_id_is_exactly_the_counted_bytes() {
    let raw = record(1, None, None, 2, Some(&[0xDE, 0xAD, 0xBE, 0xEF]));
    assert_eq!(RecipientDescriptor::from(&raw).entry_id(), &[0xDE, 0xAD]);
    let all = record(1, None, None, 4, Some(&[0xDE, 0xAD, 0xBE, 0xEF]));
    assert_eq!(RecipientDescriptor::from(&all).entry_id(), &[0xDE, 0xAD, 0xBE, 0xEF]);
}

#[test]
fn entry_id_is_not_decoded() {
    let raw = record(1, None, None, 3, Some(&[0x00, 0xFF, 0x80]));
    assert_eq!(RecipientDescriptor::from(&raw).entry_id(), &[0x00, 0xFF, 0x80]);
}

#[test]
fn conversion_outlives_the_record() {
    let raw = record(1, Some(b"Alice"), Some(b"alice@example.com"), 2, Some(&[0xDE, 0xAD]));
    let recipient = RecipientDescriptor::from(&raw);
    drop(raw);
    assert_eq!(recipient.name(), "Alice");
    assert_eq!(recipient.address(), Some("alice@example.com"));
    assert_eq!(recipient.entry_id(), &[0xDE, 0xAD]);
}

#[test]
fn conversion_leaves_the_record_alone() {
    let raw = record(5, Some(b"Alice"), Some(b"alice@example.com"), 2, Some(&[0xDE, 0xAD]));
    let _ = RecipientDescriptor::from(&raw);
    assert_eq!(raw.reserved, 0);
    assert_eq!(raw.recip_class, 5);
    assert_eq!(raw.name, Some(b"Alice".to_vec()));
    assert_eq!(raw.address, Some(b"alice@example.com".to_vec()));
    assert_eq!(raw.eid_size, 2);
    assert_eq!(raw.entry_id, Some(vec![0xDE, 0xAD]));
}

#[test]
fn different_sources_convert_differently() {
    let a = record(1, None, Some(b"a@example.com"), 2, Some(&[1, 2]));
    let b = record(1, None, Some(b"b@example.com"), 2, Some(&[1, 3]));
    let converted_a = RecipientDescriptor::from(&a);
    let converted_b = RecipientDescriptor::from(&b);
    assert_ne!(converted_a.address, converted_b.address);
    assert_ne!(converted_a.entry_id(), converted_b.entry_id());
}

#[test]
fn reserved_is_ignored() {
    let mut raw = record(3, Some(b"Alice"), None, 0, None);
    raw.reserved = 0xFFFF_FFFF;
    let recipient = RecipientDescriptor::from(&raw);
    assert_eq!(recipient.recip_class(), 3);
    assert_eq!(recipient.name(), "Alice");
}

#[test]
fn well_formed_records_are_told_apart() {
    assert!(record(0, None, None, 2, Some(&[1, 2])).is_well_formed());
    assert!(record(0, None, None, 2, Some(&[1, 2, 3])).is_well_formed());
    assert!(record(0, None, None, 0, Some(&[])).is_well_formed());
    assert!(record(0, None, None, 9, None).is_well_formed());
    assert!(!record(0, None, None, 3, Some(&[1, 2])).is_well_formed());
    assert!(!record(0, None, None, 1, Some(&[])).is_well_formed());
}

#[test]
fn new_recipient_for_an_address() {
    let recipient = RecipientDescriptor::new("carol@example.com");
    assert_eq!(recipient.recip_class(), 0);
    assert_eq!(recipient.name(), "");
    assert_eq!(recipient.address, Some("carol@example.com".to_owned()));
    assert_eq!(recipient.entry_id(), &[0, 0, 0, 0]);
}

#[test]
fn copy_takes_the_first_bytes() {
    let buffer = Some(vec![10u8, 20, 30, 40]);
    assert_eq!(copy_c_array_to_vec(&buffer, 0), Vec::<u8>::new());
    assert_eq!(copy_c_array_to_vec(&buffer, 1), vec![10]);
    assert_eq!(copy_c_array_to_vec(&buffer, 3), vec![10, 20, 30]);
    assert_eq!(copy_c_array_to_vec(&buffer, 4), vec![10, 20, 30, 40]);
    assert_eq!(copy_c_array_to_vec(&None, 0), Vec::<u8>::new());
    assert_eq!(copy_c_array_to_vec(&None, 4), Vec::<u8>::new());
}

#[test]
fn strings_are_decoded_as_utf8() {
    assert_eq!(maybe_string(&None), None);
    assert_eq!(maybe_string(&Some(Vec::new())), Some(String::new()));
    assert_eq!(maybe_string(&Some(b"plain".to_vec())), Some("plain".to_owned()));
    assert_eq!(
        maybe_string(&Some(vec![0xE2, 0x82, 0xAC, 0x20, 0xF0, 0x9F, 0x93, 0xA7])),
        Some("\u{20ac} \u{1f4e7}".to_owned())
    );
    let decoded = maybe_string(&Some(vec![0xC3, 0xA9])).unwrap();
    assert_eq!(decoded.chars().count(), 1);
    assert_eq!(decoded.chars().next(), Some('\u{e9}'));
}

#[test]
fn bytes_that_are_no_utf8_are_not_decoded() {
    // a lone continuation byte
    assert_eq!(maybe_string(&Some(vec![0x80])), None);
    // a sequence cut short
    assert_eq!(maybe_string(&Some(vec![0xE2, 0x82])), None);
    // an overlong encoding of '/'
    assert_eq!(maybe_string(&Some(vec![0xC0, 0xAF])), None);
    // a surrogate
    assert_eq!(maybe_string(&Some(vec![0xED, 0xA0, 0x80])), None);
    // beyond the last code point
    assert_eq!(maybe_string(&Some(vec![0xF4, 0x90, 0x80, 0x80])), None);
    // a byte that never occurs
    assert_eq!(maybe_string(&Some(vec![b'o', b'k', 0xFF])), None);
}

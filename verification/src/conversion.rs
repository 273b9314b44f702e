//! Decoding of the byte buffers that a foreign record leads to.
//!
//! A pointer of the foreign side is held here as an `Option`: `None` for a null
//! pointer, else the bytes that were found behind it.

use vstd::prelude::*;
use vstd::string::StringSliceAdditionalSpecFns;
use vstd::utf8::{decode_utf8, encode_utf8, encode_utf8_decode_utf8, valid_utf8};

verus! {

/// The bytes behind a pointer, as a sequence.
pub open spec fn bytes_of(buffer: Option<Vec<u8>>) -> Option<Seq<u8>> {
    match buffer {
        Some(bytes) => Some(bytes@),
        None => None,
    }
}

/// The characters of an optional string.
pub open spec fn text_of(text: Option<String>) -> Option<Seq<char>> {
    match text {
        Some(s) => Some(s@),
        None => None,
    }
}

/// What a copy of `size` bytes out of a foreign buffer holds: nothing where the
/// pointer is null or the size is zero, else the first `size` bytes behind it.
pub open spec fn copied_prefix(buffer: Option<Seq<u8>>, size: nat) -> Seq<u8> {
    match buffer {
        Some(bytes) => if size == 0 {
            Seq::empty()
        } else {
            bytes.take(size as int)
        },
        None => Seq::empty(),
    }
}

/// The text that a foreign string decodes to: none where the pointer is null or
/// the bytes are no UTF-8, else the characters that the bytes encode.
pub open spec fn decoded_text(buffer: Option<Seq<u8>>) -> Option<Seq<char>> {
    match buffer {
        Some(bytes) => if valid_utf8(bytes) {
            Some(decode_utf8(bytes))
        } else {
            None
        },
        None => None,
    }
}

/// Copies exactly `size` bytes out of a foreign buffer into an owned vector.
/// A null pointer gives an empty vector, and so does a size of zero.
pub fn copy_c_array_to_vec(buffer: &Option<Vec<u8>>, size: usize) -> (copy: Vec<u8>)
    requires
        buffer matches Some(bytes) ==> size <= bytes@.len(),
    ensures
        copy@ == copied_prefix(bytes_of(*buffer), size as nat),
{
    let mut copy: Vec<u8> = Vec::new();
    if let Some(bytes) = buffer {
        let mut i: usize = 0;
        while i < size
            invariant
                i <= size <= bytes@.len(),
                copy@ == bytes@.take(i as int),
            decreases size - i,
        {
            copy.push(bytes[i]);
            i += 1;
        }
    }
    copy
}

/// `core::str::from_utf8` of the standard library, which checks that `bytes` are
/// valid UTF-8 and then hands them out as a string slice.
///
/// Taken on trust: that it succeeds on the valid byte sequences and on no
/// others, and that the slice is made of the bytes that went in.
#[verifier::external_body]
fn str_from_utf8(bytes: &[u8]) -> (text: Option<&str>)
    ensures
        text is Some <==> valid_utf8(bytes@),
        text matches Some(s) ==> s.spec_bytes() == bytes@,
{
    match core::str::from_utf8(bytes) {
        Ok(s) => Some(s),
        Err(_) => None,
    }
}

/// Decodes the string behind a foreign pointer into an owned one. A null
/// pointer gives nothing, and so do bytes that are no UTF-8.
pub fn maybe_string(buffer: &Option<Vec<u8>>) -> (text: Option<String>)
    ensures
        text_of(text) == decoded_text(bytes_of(*buffer)),
        text matches Some(s) ==> buffer matches Some(bytes) && encode_utf8(s@) == bytes@,
{
    match buffer {
        Some(bytes) => match str_from_utf8(bytes.as_slice()) {
            Some(s) => {
                proof {
                    encode_utf8_decode_utf8(s@);
                }
                Some(s.to_owned())
            },
            None => None,
        },
        None => None,
    }
}

} // verus!

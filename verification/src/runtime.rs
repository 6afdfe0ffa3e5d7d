//! Decisions on raw values read from the runtime: whether a type is a reference,
//! and the text of a C string.

use vstd::prelude::*;
use vstd::string::StringSliceAdditionalSpecFns;
use vstd::utf8::{decode_utf8, valid_utf8};

verus! {

broadcast use vstd::utf8::encode_utf8_decode_utf8;

/// Whether the byref bit (bit 6) is set in the byte of a type record that holds it.
pub open spec fn byref_bit(flags_byte: u8) -> bool {
    (flags_byte >> 6u8) & 1u8 != 0
}

/// What the type record alone tells of whether a type is passed by reference:
/// `Some(false)` where there is no type, `Some(true)` where the byref bit is set,
/// and `None` where the bit is clear and the runtime must be asked.
pub open spec fn byref_from_record(flags_byte: Option<u8>) -> Option<bool> {
    match flags_byte {
        None => Some(false),
        Some(x) => if byref_bit(x) {
            Some(true)
        } else {
            None
        },
    }
}

/// Decides from the type record alone whether a type is passed by reference, or
/// answers `None` where the runtime's `type_is_byref` must be asked.
///
/// `flags_byte` is the byte of the runtime's type record that holds the byref bit
/// (`None` where there is no type).
pub fn byref_check(flags_byte: Option<u8>) -> (r: Option<bool>)
    ensures
        r == byref_from_record(flags_byte),
{
    match flags_byte {
        None => Some(false),
        Some(x) => if (x >> 6u8) & 1u8 != 0 {
            Some(true)
        } else {
            None
        },
    }
}

/// Whether a type is passed by reference: not where there is no type, yes where
/// its byref bit is set, else what the runtime answered.
///
/// `runtime_reports` is the runtime's answer where it was asked and has a
/// `type_is_byref` function, `None` otherwise.
pub fn is_byref(flags_byte: Option<u8>, runtime_reports: Option<bool>) -> (b: bool)
    ensures
        b == match flags_byte {
            None => false,
            Some(x) => byref_bit(x) || runtime_reports == Some(true),
        },
{
    match byref_check(flags_byte) {
        Some(known) => known,
        None => match runtime_reports {
            Some(answer) => answer,
            None => false,
        },
    }
}

/// The runtime's answer only matters where the type record leaves the question
/// open: where `byref_check` decides, `is_byref` gives its answer whatever the
/// runtime said, or whether it was asked at all.
pub proof fn law_byref_record_decides(flags_byte: Option<u8>, runtime_reports: Option<bool>)
    ensures
        byref_from_record(flags_byte) matches Some(known) ==> known == match flags_byte {
            None => false,
            Some(x) => byref_bit(x) || runtime_reports == Some(true),
        },
        byref_from_record(flags_byte) is None ==> (match flags_byte {
            None => false,
            Some(x) => byref_bit(x) || runtime_reports == Some(true),
        }) == (runtime_reports == Some(true)),
{
}

/// The bytes as a string slice, where they are valid UTF-8.
///
/// Trusted: calls std's `str::from_utf8`, whose documentation says it returns an
/// error exactly when the slice is not UTF-8, and otherwise the string slice of
/// those very bytes; the contract claims just that.
#[verifier::external_body]
fn utf8_str<'a>(bytes: &'a [u8]) -> (r: Option<&'a str>)
    ensures
        r is Some <==> valid_utf8(bytes@),
        r matches Some(s) ==> s.spec_bytes() == bytes@,
{
    std::str::from_utf8(bytes).ok()
}

/// The text of a C string given by its bytes (without the terminating zero):
/// nothing where there is no string or its bytes are not UTF-8, else the
/// characters they encode.
pub open spec fn cstr_text(bytes: Option<Seq<u8>>) -> Seq<char> {
    match bytes {
        Some(b) => if valid_utf8(b) {
            decode_utf8(b)
        } else {
            Seq::empty()
        },
        None => Seq::empty(),
    }
}

/// The text of a C string whose bytes are `bytes` (`None` for a null pointer).
pub fn cstr(bytes: Option<&[u8]>) -> (s: String)
    ensures
        s@ == cstr_text(
            match bytes {
                Some(b) => Some(b@),
                None => None,
            },
        ),
{
    match bytes {
        None => String::new(),
        Some(b) => match utf8_str(b) {
            Some(text) => {
                assert(decode_utf8(b@) == text@) by {
                    assert(text.spec_bytes() == vstd::utf8::encode_utf8(text@));
                }
                text.to_owned()
            },
            None => String::new(),
        },
    }
}

/// The byref bit is the bit of value 0x40 of the byte.
pub proof fn law_byref_bit_is_0x40(flags_byte: u8)
    ensures
        byref_bit(flags_byte) <==> flags_byte & 0x40u8 != 0,
{
    assert(((flags_byte >> 6u8) & 1u8 != 0) <==> (flags_byte & 0x40u8 != 0)) by (bit_vector);
}

/// Every string comes back whole from its UTF-8 bytes, and bytes that are not
/// UTF-8 give the empty text, as does a missing string.
pub proof fn law_cstr_text_round_trip(chars: Seq<char>, bytes: Seq<u8>)
    ensures
        cstr_text(Some(vstd::utf8::encode_utf8(chars))) == chars,
        !valid_utf8(bytes) ==> cstr_text(Some(bytes)) == Seq::<char>::empty(),
        cstr_text(None) == Seq::<char>::empty(),
{
    vstd::utf8::encode_utf8_valid_utf8(chars);
    vstd::utf8::encode_utf8_decode_utf8(chars);
}

} // verus!

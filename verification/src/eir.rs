//! Extended Inquiry Response payloads: a sequence of tagged records, scanned
//! for the first record that holds a usable device name.

use vstd::prelude::*;
use vstd::string::StringSliceAdditionalSpecFns;
use vstd::utf8::*;

verus! {

/// Record tag of a shortened local name.
pub const SHORTENED_LOCAL_NAME: u8 = 0x08;

/// Record tag of a complete local name.
pub const COMPLETE_LOCAL_NAME: u8 = 0x09;

/// Longest device name, in bytes, that is reported.
pub const MAX_NAME_LEN: usize = 64;

/// One tagged record of a payload: its type tag and its value bytes.
pub struct EirElement<'a> {
    pub tag: u8,
    pub value: &'a [u8],
}

/// Whether a record starts at offset `at` of `payload`: its length byte is
/// there, is not the end marker, and the bytes it announces are all present.
pub open spec fn has_element(payload: Seq<u8>, at: int) -> bool {
    &&& 0 <= at < payload.len()
    &&& payload[at] != 0
    &&& at + 1 + payload[at] <= payload.len()
}

/// Type tag of the record at `at`.
pub open spec fn element_tag(payload: Seq<u8>, at: int) -> u8 {
    payload[at + 1]
}

/// Value bytes of the record at `at`: what follows the tag, one byte fewer
/// than the length byte says.
pub open spec fn element_value(payload: Seq<u8>, at: int) -> Seq<u8> {
    payload.subrange(at + 2, at + 1 + payload[at])
}

/// Offset of the record after the one at `at`.
pub open spec fn element_end(payload: Seq<u8>, at: int) -> int {
    at + 1 + payload[at]
}

/// Whether `tag` marks a record that carries a local name.
pub open spec fn is_name_tag(tag: u8) -> bool {
    tag == SHORTENED_LOCAL_NAME || tag == COMPLETE_LOCAL_NAME
}

/// Whether `value` can be reported as a name: well-formed UTF-8 of at most
/// `MAX_NAME_LEN` bytes.
pub open spec fn is_name_text(value: Seq<u8>) -> bool {
    value.len() <= MAX_NAME_LEN && valid_utf8(value)
}

/// The name that a scan of `payload` finds when it starts at offset `at`: the
/// text of the first name record whose value is usable, where the scan ends
/// at the end of the payload, at a zero length byte, or at a record that runs
/// past the end.
pub open spec fn name_from(payload: Seq<u8>, at: int) -> Option<Seq<char>>
    decreases payload.len() - at,
{
    if !has_element(payload, at) {
        None
    } else if is_name_tag(element_tag(payload, at)) && is_name_text(element_value(payload, at)) {
        Some(decode_utf8(element_value(payload, at)))
    } else {
        name_from(payload, element_end(payload, at))
    }
}

/// The device name that `payload` announces, if any.
pub open spec fn spec_extract_name(payload: Seq<u8>) -> Option<Seq<char>> {
    name_from(payload, 0)
}

/// A name that a scan finds is at most `MAX_NAME_LEN` bytes long, wherever
/// the scan starts and whatever the payload holds.
pub proof fn lemma_name_is_bounded(payload: Seq<u8>, at: int)
    ensures
        name_from(payload, at) matches Some(name) ==> encode_utf8(name).len() <= MAX_NAME_LEN,
    decreases payload.len() - at,
{
    if has_element(payload, at) {
        if is_name_tag(element_tag(payload, at)) && is_name_text(element_value(payload, at)) {
            decode_utf8_encode_utf8(element_value(payload, at));
        } else {
            lemma_name_is_bounded(payload, element_end(payload, at));
        }
    }
}

/// The text of an optional name.
pub open spec fn name_view(name: Option<String>) -> Option<Seq<char>> {
    match name {
        Some(s) => Some(s@),
        None => None,
    }
}

/// The error of `core::str::from_utf8` for bytes that are no UTF-8.
#[verifier::external_type_specification]
#[verifier::external_body]
pub struct ExUtf8Error(core::str::Utf8Error);

/// `core::str::from_utf8`: succeeds exactly on well-formed UTF-8, and the
/// string slice it then returns has the bytes it was given.
pub assume_specification[ core::str::from_utf8 ](v: &[u8]) -> (r: Result<&str, core::str::Utf8Error>)
    ensures
        r is Ok <==> valid_utf8(v@),
        r matches Ok(s) ==> s.spec_bytes() == v@,
;

/// Reads the record at offset `at`, or `None` where the scan ends there.
pub fn element_at<'a>(payload: &'a [u8], at: usize) -> (r: Option<EirElement<'a>>)
    ensures
        r is Some <==> has_element(payload@, at as int),
        r matches Some(e) ==> e.tag == element_tag(payload@, at as int) && e.value@
            == element_value(payload@, at as int),
{
    if at >= payload.len() {
        return None;
    }
    let len: usize = payload[at] as usize;
    if len == 0 || payload.len() - at - 1 < len {
        return None;
    }
    Some(EirElement { tag: payload[at + 1], value: &payload[at + 2..at + 1 + len] })
}

/// Recovers the device name from an Extended Inquiry Response payload.
///
/// The first record tagged as a shortened or complete local name whose value
/// is UTF-8 text of at most `MAX_NAME_LEN` bytes wins. Truncated or corrupt
/// payloads are no error: the scan stops and no name is found.
pub fn extract_name(payload: &[u8]) -> (r: Option<String>)
    ensures
        name_view(r) == spec_extract_name(payload@),
        r matches Some(s) ==> encode_utf8(s@).len() <= MAX_NAME_LEN,
{
    let mut at: usize = 0;
    loop
        invariant
            at <= payload.len(),
            name_from(payload@, at as int) == spec_extract_name(payload@),
        decreases payload.len() - at,
    {
        match element_at(payload, at) {
            None => {
                return None;
            },
            Some(e) => {
                if (e.tag == SHORTENED_LOCAL_NAME || e.tag == COMPLETE_LOCAL_NAME) && e.value.len()
                    <= MAX_NAME_LEN {
                    if let Ok(text) = core::str::from_utf8(e.value) {
                        proof {
                            decode_utf8_encode_utf8(e.value@);
                            encode_utf8_decode_utf8(text@);
                        }
                        return Some(text.to_owned());
                    }
                }
                at = at + 1 + payload[at] as usize;
            },
        }
    }
}

} // verus!

//! The checks made before a value goes to the framework, which raises an
//! uncatchable exception for values it does not accept: service types
//! (RFC 6335), discovery info, display names, and the NUL-terminated text
//! handed across.
use vstd::prelude::*;
use vstd::utf8::{encode_utf8, valid_utf8};
use crate::discovery::{members_map, pairs_view, DiscoveryInfo};
use crate::error::{MultipeerError, MultipeerErrorView};
use crate::json::{json_error_message, json_object_text, json_string_members, object_to_json};
use crate::text::{
    debug_quoted, debug_quoted_text, decimal_digits, is_valid_utf8, owned, push_decimal,
};

verus! {

/// The most bytes a service type may have.
pub const MAX_SERVICE_TYPE_LEN: usize = 15;

/// The most bytes a discovery-info entry may have, written `key=value`.
pub const MAX_DISCOVERY_PAIR_LEN: usize = 254;

/// The most UTF-8 bytes a peer display name may have.
pub const MAX_DISPLAY_NAME_LEN: usize = 63;

/// The UTF-8 bytes of a text.
pub open spec fn utf8(text: Seq<char>) -> Seq<u8> {
    encode_utf8(text)
}

/// The bytes followed by the NUL that ends a C string.
pub open spec fn nul_terminated(bytes: Seq<u8>) -> Seq<u8> {
    bytes.push(0)
}

/// An ASCII lowercase letter.
pub open spec fn is_lowercase_byte(b: u8) -> bool {
    97 <= b <= 122
}

/// A byte allowed in a service type: a lowercase letter, a digit or `-`.
pub open spec fn is_service_type_byte(b: u8) -> bool {
    is_lowercase_byte(b) || (48 <= b <= 57) || b == 45
}

/// Why the framework would refuse a service type with these bytes, as the
/// message of the error, or `None` when it accepts it.
pub open spec fn service_type_problem(b: Seq<u8>) -> Option<Seq<char>> {
    if b.len() == 0 {
        Some("service type must not be empty"@)
    } else if b.len() > 15 {
        Some("service type must be at most 15 ASCII characters"@)
    } else if exists|i: int| 0 <= i < b.len() && !is_service_type_byte(#[trigger] b[i]) {
        Some("service type must contain only lowercase ASCII letters, digits, or hyphens"@)
    } else if forall|i: int| 0 <= i < b.len() ==> !is_lowercase_byte(#[trigger] b[i]) {
        Some("service type must contain at least one letter"@)
    } else if b[0] == 45 || b[b.len() - 1] == 45 {
        Some("service type must not begin or end with a hyphen"@)
    } else if exists|i: int| 0 <= i < b.len() - 1 && #[trigger] b[i] == 45 && b[i + 1] == 45 {
        Some("service type must not contain consecutive hyphens"@)
    } else {
        None
    }
}

/// A C string made from a text reads back, without its NUL, as that text.
pub proof fn lemma_c_string_round_trip(text: Seq<char>)
    ensures
        nul_terminated(utf8(text)).last() == 0,
        vstd::utf8::decode_utf8(nul_terminated(utf8(text)).drop_last()) == text,
{
    assert(nul_terminated(utf8(text)).drop_last() =~= utf8(text));
    vstd::utf8::encode_utf8_decode_utf8(text);
}

/// A service type is accepted exactly when it has 1 to 15 bytes, each a
/// lowercase ASCII letter (`a` to `z`), a digit or a hyphen, at least one of
/// them a letter, with no hyphen first, last, or next to another.
pub proof fn lemma_accepted_service_types(b: Seq<u8>)
    ensures
        service_type_problem(b) is None <==> {
            &&& 1 <= b.len() <= 15
            &&& forall|i: int|
                0 <= i < b.len() ==> (97 <= #[trigger] b[i] <= 122 || 48 <= b[i] <= 57 || b[i]
                    == 45)
            &&& exists|i: int| 0 <= i < b.len() && 97 <= #[trigger] b[i] <= 122
            &&& b[0] != 45 && b[b.len() - 1] != 45
            &&& forall|i: int| 0 <= i < b.len() - 1 ==> !(#[trigger] b[i] == 45 && b[i + 1] == 45)
        },
{
    assert(forall|i: int|
        0 <= i < b.len() ==> (is_service_type_byte(#[trigger] b[i]) <==> (97 <= b[i] <= 122 || 48
            <= b[i] <= 57 || b[i] == 45)));
    assert(forall|i: int|
        0 <= i < b.len() ==> (is_lowercase_byte(#[trigger] b[i]) <==> 97 <= b[i] <= 122));
}

/// The bytes of `bytes`, then a NUL.
fn nul_terminated_copy(bytes: &[u8]) -> (out: Vec<u8>)
    ensures
        out@ == nul_terminated(bytes@),
{
    let mut out: Vec<u8> = Vec::new();
    let mut i: usize = 0;
    while i < bytes.len()
        invariant
            0 <= i <= bytes@.len(),
            out@ == bytes@.take(i as int),
        decreases bytes@.len() - i,
    {
        out.push(bytes[i]);
        i = i + 1;
        assert(out@ =~= bytes@.take(i as int));
    }
    assert(bytes@.take(bytes@.len() as int) =~= bytes@);
    out.push(0);
    out
}

/// Whether some byte is NUL.
fn has_nul(bytes: &[u8]) -> (found: bool)
    ensures
        found == exists|i: int| 0 <= i < bytes@.len() && bytes@[i] == 0,
{
    let mut i: usize = 0;
    while i < bytes.len()
        invariant
            0 <= i <= bytes@.len(),
            forall|j: int| 0 <= j < i ==> bytes@[j] != 0,
        decreases bytes@.len() - i,
    {
        if bytes[i] == 0 {
            return true;
        }
        i = i + 1;
    }
    false
}

/// Checks a service type and returns it as a NUL-terminated C string.
///
/// A service type has 1 to 15 lowercase ASCII letters, digits or hyphens,
/// at least one letter, and no leading, trailing or doubled hyphen.
#[verifier::loop_isolation(false)]
pub fn service_type_cstring(service_type: &str) -> (r: Result<Vec<u8>, MultipeerError>)
    ensures
        service_type_problem(utf8(service_type@)) is None <==> r is Ok,
        r is Ok <==> {
            let b = utf8(service_type@);
            &&& 1 <= b.len() <= 15
            &&& forall|i: int|
                0 <= i < b.len() ==> (97 <= #[trigger] b[i] <= 122 || 48 <= b[i] <= 57 || b[i]
                    == 45)
            &&& exists|i: int| 0 <= i < b.len() && 97 <= #[trigger] b[i] <= 122
            &&& b[0] != 45 && b[b.len() - 1] != 45
            &&& forall|i: int| 0 <= i < b.len() - 1 ==> !(#[trigger] b[i] == 45 && b[i + 1] == 45)
        },
        r matches Ok(c) ==> c@ == nul_terminated(utf8(service_type@)),
        r matches Err(e) ==> e@ == MultipeerErrorView::InvalidArgument(
            service_type_problem(utf8(service_type@))->0,
        ),
{
    let b = service_type.as_bytes();
    let ghost bs = b@;
    assert(bs == utf8(service_type@));
    proof {
        lemma_accepted_service_types(bs);
    }
    if b.len() == 0 {
        return Err(MultipeerError::InvalidArgument(owned("service type must not be empty")));
    }
    if b.len() > MAX_SERVICE_TYPE_LEN {
        return Err(
            MultipeerError::InvalidArgument(
                owned("service type must be at most 15 ASCII characters"),
            ),
        );
    }
    let mut i: usize = 0;
    let mut has_letter = false;
    while i < b.len()
        invariant
            b@ == bs,
            0 <= i <= bs.len(),
            forall|j: int| 0 <= j < i ==> is_service_type_byte(#[trigger] bs[j]),
            has_letter == exists|j: int| 0 <= j < i && is_lowercase_byte(#[trigger] bs[j]),
        decreases bs.len() - i,
    {
        let byte = b[i];
        if !((97 <= byte && byte <= 122) || (48 <= byte && byte <= 57) || byte == 45) {
            assert(!is_service_type_byte(bs[i as int]));
            return Err(
                MultipeerError::InvalidArgument(
                    owned(
                        "service type must contain only lowercase ASCII letters, digits, or hyphens",
                    ),
                ),
            );
        }
        if 97 <= byte && byte <= 122 {
            has_letter = true;
        }
        i = i + 1;
    }
    if !has_letter {
        return Err(
            MultipeerError::InvalidArgument(owned("service type must contain at least one letter")),
        );
    }
    if b[0] == 45 || b[b.len() - 1] == 45 {
        return Err(
            MultipeerError::InvalidArgument(
                owned("service type must not begin or end with a hyphen"),
            ),
        );
    }
    let mut k: usize = 0;
    while k + 1 < b.len()
        invariant
            b@ == bs,
            0 <= k < bs.len(),
            forall|j: int| 0 <= j < k ==> !(#[trigger] bs[j] == 45 && bs[j + 1] == 45),
        decreases bs.len() - k,
    {
        if b[k] == 45 && b[k + 1] == 45 {
            return Err(
                MultipeerError::InvalidArgument(
                    owned("service type must not contain consecutive hyphens"),
                ),
            );
        }
        k = k + 1;
    }
    Ok(nul_terminated_copy(b))
}

/// A byte allowed in a discovery-info key: printable ASCII other than `=`.
pub open spec fn is_key_byte(b: u8) -> bool {
    32 <= b <= 126 && b != 61
}

/// The length of an entry written `key=value`, in UTF-8 bytes.
pub open spec fn pair_len(key: Seq<char>, value: Seq<char>) -> nat {
    utf8(key).len() + 1 + utf8(value).len()
}

/// Why the framework would refuse a discovery-info entry, as the message of
/// the error, or `None` when it accepts it.
pub open spec fn entry_problem(key: Seq<char>, value: Seq<char>) -> Option<Seq<char>> {
    let kb = utf8(key);
    if kb.len() == 0 {
        Some("discovery info keys must not be empty"@)
    } else if exists|i: int| 0 <= i < kb.len() && !is_key_byte(#[trigger] kb[i]) {
        Some(
            "discovery info key "@ + debug_quoted_text(key)
                + " must contain only printable ASCII characters other than '='"@,
        )
    } else if pair_len(key, value) > 254 {
        Some(
            "discovery info entry "@ + debug_quoted_text(key) + " is "@ + decimal_digits(
                pair_len(key, value),
            ) + " bytes as key=value; at most 254 are allowed"@,
        )
    } else {
        None
    }
}

/// The problem of the first refused entry, in order.
pub open spec fn discovery_problem(entries: Seq<(Seq<char>, Seq<char>)>) -> Option<Seq<char>>
    decreases entries.len(),
{
    if entries.len() == 0 {
        None
    } else {
        match entry_problem(entries[0].0, entries[0].1) {
            Some(m) => Some(m),
            None => discovery_problem(entries.drop_first()),
        }
    }
}

/// Discovery info is accepted exactly when every entry is: a non-empty key
/// of printable ASCII other than `=`, and at most 254 bytes written
/// `key=value`.
pub proof fn lemma_accepted_discovery_info(entries: Seq<(Seq<char>, Seq<char>)>)
    ensures
        discovery_problem(entries) is None <==> forall|i: int|
            0 <= i < entries.len() ==> entry_problem(#[trigger] entries[i].0, entries[i].1) is None,
    decreases entries.len(),
{
    if entries.len() > 0 {
        let rest = entries.drop_first();
        lemma_accepted_discovery_info(rest);
        if discovery_problem(entries) is None {
            assert forall|i: int| 0 <= i < entries.len() implies entry_problem(
                #[trigger] entries[i].0,
                entries[i].1,
            ) is None by {
                if i > 0 {
                    assert(entries[i] == rest[i - 1]);
                }
            }
        } else if entry_problem(entries[0].0, entries[0].1) is None {
            let j = choose|j: int|
                0 <= j < rest.len() && !(entry_problem(#[trigger] rest[j].0, rest[j].1) is None);
            assert(entries[j + 1] == rest[j]);
        }
    }
}

/// An entry is accepted exactly when the UTF-8 bytes of its key are
/// non-empty and each is printable ASCII (32 to 126) other than `=` (61),
/// and the entry takes at most 254 bytes written `key=value`.
pub proof fn lemma_accepted_entry(key: Seq<char>, value: Seq<char>)
    ensures
        entry_problem(key, value) is None <==> {
            &&& utf8(key).len() > 0
            &&& forall|i: int|
                0 <= i < utf8(key).len() ==> 32 <= #[trigger] utf8(key)[i] <= 126 && utf8(key)[i]
                    != 61
            &&& utf8(key).len() + 1 + utf8(value).len() <= 254
        },
{
}

/// Discovery info is accepted exactly when every entry is: its key's UTF-8
/// bytes non-empty, each printable ASCII (32 to 126) other than `=` (61),
/// and the entry at most 254 bytes written `key=value`.
pub proof fn lemma_accepted_discovery_entries(entries: Seq<(Seq<char>, Seq<char>)>)
    ensures
        discovery_problem(entries) is None <==> forall|e: int|
            0 <= e < entries.len() ==> {
                &&& utf8(#[trigger] entries[e].0).len() > 0
                &&& forall|i: int|
                    0 <= i < utf8(entries[e].0).len() ==> 32 <= #[trigger] utf8(entries[e].0)[i]
                        <= 126 && utf8(entries[e].0)[i] != 61
                &&& utf8(entries[e].0).len() + 1 + utf8(entries[e].1).len() <= 254
            },
{
    lemma_accepted_discovery_info(entries);
    assert forall|e: int| 0 <= e < entries.len() implies (entry_problem(
        #[trigger] entries[e].0,
        entries[e].1,
    ) is None <==> {
        &&& utf8(entries[e].0).len() > 0
        &&& forall|i: int|
            0 <= i < utf8(entries[e].0).len() ==> 32 <= #[trigger] utf8(entries[e].0)[i] <= 126
                && utf8(entries[e].0)[i] != 61
        &&& utf8(entries[e].0).len() + 1 + utf8(entries[e].1).len() <= 254
    }) by {
        lemma_accepted_entry(entries[e].0, entries[e].1);
    }
}

/// Checks one discovery-info entry.
#[verifier::loop_isolation(false)]
fn check_entry(key: &String, value: &String) -> (r: Result<(), MultipeerError>)
    ensures
        entry_problem(key@, value@) is None <==> r is Ok,
        r is Ok <==> {
            &&& utf8(key@).len() > 0
            &&& forall|i: int|
                0 <= i < utf8(key@).len() ==> 32 <= #[trigger] utf8(key@)[i] <= 126 && utf8(key@)[i]
                    != 61
            &&& utf8(key@).len() + 1 + utf8(value@).len() <= 254
        },
        r matches Err(e) ==> e@ == MultipeerErrorView::InvalidArgument(
            entry_problem(key@, value@)->0,
        ),
{
    let kb = key.as_str().as_bytes();
    let ghost ks = kb@;
    assert(ks == utf8(key@));
    proof {
        lemma_accepted_entry(key@, value@);
    }
    if kb.len() == 0 {
        return Err(MultipeerError::InvalidArgument(owned("discovery info keys must not be empty")));
    }
    let mut i: usize = 0;
    while i < kb.len()
        invariant
            kb@ == ks,
            0 <= i <= ks.len(),
            forall|j: int| 0 <= j < i ==> is_key_byte(#[trigger] ks[j]),
        decreases ks.len() - i,
    {
        let byte = kb[i];
        if !(32 <= byte && byte <= 126 && byte != 61) {
            assert(!is_key_byte(ks[i as int]));
            let mut message = owned("discovery info key ");
            let quoted = debug_quoted(key.as_str());
            message.append(quoted.as_str());
            message.append(" must contain only printable ASCII characters other than '='");
            return Err(MultipeerError::InvalidArgument(message));
        }
        i = i + 1;
    }
    let vb = value.as_str().as_bytes();
    assert(vb@ == utf8(value@));
    let len: u128 = kb.len() as u128 + 1 + vb.len() as u128;
    if len > MAX_DISCOVERY_PAIR_LEN as u128 {
        let mut message = owned("discovery info entry ");
        let quoted = debug_quoted(key.as_str());
        message.append(quoted.as_str());
        message.append(" is ");
        push_decimal(&mut message, len);
        message.append(" bytes as key=value; at most 254 are allowed");
        return Err(MultipeerError::InvalidArgument(message));
    }
    Ok(())
}

/// The message of the error for JSON text holding a NUL.
pub open spec fn json_nul_message() -> Seq<char> {
    "discovery info JSON must not contain NUL bytes"@
}

/// Turns the JSON text of discovery info into a NUL-terminated C string.
pub fn json_to_cstring(json: &str) -> (r: Result<Vec<u8>, MultipeerError>)
    ensures
        (exists|i: int| 0 <= i < utf8(json@).len() && utf8(json@)[i] == 0) <==> r is Err,
        r matches Ok(c) ==> c@ == nul_terminated(utf8(json@)),
        r matches Err(e) ==> e@ == MultipeerErrorView::InvalidArgument(json_nul_message()),
{
    let b = json.as_bytes();
    assert(b@ == utf8(json@));
    if has_nul(b) {
        Err(MultipeerError::InvalidArgument(owned("discovery info JSON must not contain NUL bytes")))
    } else {
        Ok(nul_terminated_copy(b))
    }
}

/// Turns what writing the JSON text gave back into a NUL-terminated C
/// string: an error from the writer becomes an invalid-argument error
/// carrying its message.
pub fn json_result_cstring(json: Result<String, serde_json::Error>) -> (r: Result<
    Vec<u8>,
    MultipeerError,
>)
    ensures
        json matches Ok(t) ==> {
            &&& (exists|i: int| 0 <= i < utf8(t@).len() && utf8(t@)[i] == 0) <==> r is Err
            &&& r matches Ok(c) ==> c@ == nul_terminated(utf8(t@))
            &&& r matches Err(e) ==> e@ == MultipeerErrorView::InvalidArgument(json_nul_message())
        },
        json is Err ==> (r matches Err(e) && e@ is InvalidArgument),
{
    match json {
        Ok(text) => json_to_cstring(text.as_str()),
        Err(err) => Err(MultipeerError::InvalidArgument(json_error_message(&err))),
    }
}

/// Checks discovery info and returns it as NUL-terminated JSON text, or
/// `None` when there is none.
///
/// Each key must be non-empty printable ASCII without `=`, and each entry
/// at most 254 bytes written `key=value`; the first entry that is not is
/// reported.
#[verifier::loop_isolation(false)]
pub fn discovery_info_cstring(discovery_info: Option<&DiscoveryInfo>) -> (r: Result<
    Option<Vec<u8>>,
    MultipeerError,
>)
    ensures
        discovery_info is None ==> (r matches Ok(c) && c is None),
        discovery_info matches Some(info) ==> ((r matches Ok(c) && c is Some) <==> forall|e: int|
            0 <= e < info@.len() ==> {
                &&& utf8(#[trigger] info@[e].0).len() > 0
                &&& forall|i: int|
                    0 <= i < utf8(info@[e].0).len() ==> 32 <= #[trigger] utf8(info@[e].0)[i] <= 126
                        && utf8(info@[e].0)[i] != 61
                &&& utf8(info@[e].0).len() + 1 + utf8(info@[e].1).len() <= 254
            }),
        discovery_info matches Some(info) ==> {
            &&& (discovery_problem(info@) matches Some(m) ==> (r matches Err(e)
                && e@ == MultipeerErrorView::InvalidArgument(m)))
            &&& (discovery_problem(info@) is None ==> (r matches Ok(c) && c matches Some(t)
                && t@ == nul_terminated(utf8(json_object_text(info@)))))
            &&& (discovery_problem(info@) is None ==> (json_string_members(
                json_object_text(info@),
            ) matches Some(members) && members_map(members) == members_map(info@)))
        },
{
    let info = match discovery_info {
        Some(info) => info,
        None => return Ok(None),
    };
    proof {
        lemma_accepted_discovery_entries(info@);
    }
    let pairs = info.entries();
    let mut i: usize = 0;
    assert(info@.skip(0) =~= info@);
    while i < pairs.len()
        invariant
            0 <= i <= info@.len(),
            pairs_view(pairs@) == info@,
            discovery_problem(info@) == discovery_problem(info@.skip(i as int)),
        decreases info@.len() - i,
    {
        let ghost rest = info@.skip(i as int);
        assert(rest[0] == info@[i as int]);
        assert(rest.drop_first() =~= info@.skip(i + 1));
        check_entry(&pairs[i].0, &pairs[i].1)?;
        i = i + 1;
    }
    assert(info@.skip(i as int) =~= Seq::<(Seq<char>, Seq<char>)>::empty());
    let json = object_to_json(pairs);
    proof {
        crate::text::lemma_utf8_of_text_without_nul(json->Ok_0@);
    }
    let c = json_result_cstring(json)?;
    Ok(Some(c))
}

/// Why the framework would refuse a display name with these bytes, as the
/// message of the error, or `None` when it accepts it.
pub open spec fn display_name_problem(b: Seq<u8>) -> Option<Seq<char>> {
    if b.len() == 0 {
        Some("display name must not be empty"@)
    } else if exists|i: int| 0 <= i < b.len() && b[i] == 0 {
        Some("display name must not contain NUL bytes"@)
    } else if b.len() > 63 {
        Some("display name must be at most 63 bytes of UTF-8"@)
    } else {
        None
    }
}

/// A display name is accepted exactly when its UTF-8 bytes are non-empty,
/// hold no zero byte, and number at most 63; nothing else, spaces and other
/// characters included, is refused.
pub proof fn lemma_accepted_display_names(b: Seq<u8>)
    ensures
        display_name_problem(b) is None <==> {
            &&& b.len() > 0
            &&& forall|i: int| 0 <= i < b.len() ==> #[trigger] b[i] != 0
            &&& b.len() <= 63
        },
{
}

/// Checks a peer display name and returns it as a NUL-terminated C string:
/// it must be non-empty, hold no NUL, and take at most 63 bytes of UTF-8.
pub fn display_name_cstring(display_name: &str) -> (r: Result<Vec<u8>, MultipeerError>)
    ensures
        display_name_problem(utf8(display_name@)) is None <==> r is Ok,
        r is Ok <==> {
            &&& utf8(display_name@).len() > 0
            &&& forall|i: int| 0 <= i < utf8(display_name@).len() ==> #[trigger] utf8(display_name@)[i] != 0
            &&& utf8(display_name@).len() <= 63
        },
        r matches Ok(c) ==> c@ == nul_terminated(utf8(display_name@)),
        r matches Err(e) ==> e@ == MultipeerErrorView::InvalidArgument(
            display_name_problem(utf8(display_name@))->0,
        ),
{
    let b = display_name.as_bytes();
    assert(b@ == utf8(display_name@));
    proof {
        lemma_accepted_display_names(b@);
    }
    if b.len() == 0 {
        return Err(MultipeerError::InvalidArgument(owned("display name must not be empty")));
    }
    if has_nul(b) {
        return Err(
            MultipeerError::InvalidArgument(owned("display name must not contain NUL bytes")),
        );
    }
    if b.len() > MAX_DISPLAY_NAME_LEN {
        return Err(
            MultipeerError::InvalidArgument(owned("display name must be at most 63 bytes of UTF-8")),
        );
    }
    Ok(nul_terminated_copy(b))
}

/// The text arguments of session operations that cross as C strings.
#[derive(Debug, Clone, Copy, PartialEq, Eq, Structural)]
pub enum CStringField {
    /// The name of a resource to send.
    ResourceName,
    /// The name of a stream to open.
    StreamName,
}

/// The message of the error for a field holding a NUL.
pub open spec fn nul_message(field: CStringField) -> Seq<char> {
    match field {
        CStringField::ResourceName => "resource name must not contain NUL bytes"@,
        CStringField::StreamName => "stream name must not contain NUL bytes"@,
    }
}

/// Returns `text` as a NUL-terminated C string, refusing text that holds a
/// NUL of its own.
pub fn c_string(text: &str, field: CStringField) -> (r: Result<Vec<u8>, MultipeerError>)
    ensures
        (exists|i: int| 0 <= i < utf8(text@).len() && utf8(text@)[i] == 0) <==> r is Err,
        r matches Ok(c) ==> c@ == nul_terminated(utf8(text@)),
        r matches Err(e) ==> e@ == MultipeerErrorView::InvalidArgument(nul_message(field)),
{
    let b = text.as_bytes();
    assert(b@ == utf8(text@));
    if has_nul(b) {
        let message = match field {
            CStringField::ResourceName => owned("resource name must not contain NUL bytes"),
            CStringField::StreamName => owned("stream name must not contain NUL bytes"),
        };
        Err(MultipeerError::InvalidArgument(message))
    } else {
        Ok(nul_terminated_copy(b))
    }
}

/// The message of the error for a resource path that is not UTF-8.
pub open spec fn path_utf8_message() -> Seq<char> {
    "resource path must be valid UTF-8"@
}

/// The message of the error for a resource path holding a NUL.
pub open spec fn path_nul_message() -> Seq<char> {
    "resource path must not contain NUL bytes"@
}

/// Whether some byte is NUL.
pub open spec fn has_nul_byte(bytes: Seq<u8>) -> bool {
    exists|i: int| 0 <= i < bytes.len() && bytes[i] == 0
}

/// Returns the bytes of a resource's file path as a NUL-terminated C
/// string. A path that is not UTF-8 is refused first, then one that holds a
/// NUL byte.
pub fn resource_path_cstring(path: &[u8]) -> (r: Result<Vec<u8>, MultipeerError>)
    ensures
        !valid_utf8(path@) ==> (r matches Err(e) && e@ == MultipeerErrorView::InvalidArgument(
            path_utf8_message(),
        )),
        valid_utf8(path@) && has_nul_byte(path@) ==> (r matches Err(e) && e@
            == MultipeerErrorView::InvalidArgument(path_nul_message())),
        valid_utf8(path@) && !has_nul_byte(path@) ==> (r matches Ok(c) && c@ == nul_terminated(
            path@,
        )),
{
    if !is_valid_utf8(path) {
        return Err(MultipeerError::InvalidArgument(owned("resource path must be valid UTF-8")));
    }
    if has_nul(path) {
        return Err(
            MultipeerError::InvalidArgument(owned("resource path must not contain NUL bytes")),
        );
    }
    Ok(nul_terminated_copy(path))
}

} // verus!

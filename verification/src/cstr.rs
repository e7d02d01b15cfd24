//! Checks on the strings and flags handed to the VDO C API.
//!
//! The C API takes keys and values as NUL-terminated strings, so a Rust string
//! can be handed to it only when it holds no NUL character.

use vstd::prelude::*;

use crate::error::{Error, ErrorCode};

verus! {

broadcast use vstd::string::group_string_axioms;

/// Whether the text can be handed to C as a NUL-terminated string: it holds no
/// NUL character.
pub open spec fn c_compatible(s: Seq<char>) -> bool {
    !s.contains('\0')
}

/// A text is accepted exactly when none of its characters is NUL: every other
/// character, the digit `'0'` among them, is accepted anywhere.
pub proof fn lemma_c_compatible_exactly_without_nul(s: Seq<char>)
    ensures
        c_compatible(s) <==> forall|i: int| 0 <= i < s.len() ==> s[i] != '\0',
{
    if !c_compatible(s) {
        let i = choose|i: int| 0 <= i < s.len() && s[i] == '\0';
        assert(s[i] == '\0');
    }
}

/// Returns `true` when `s` holds no NUL character, so that it can be handed to
/// the C API.
pub fn is_c_compatible(s: &str) -> (r: bool)
    ensures
        r == c_compatible(s@),
        r <==> forall|i: int| 0 <= i < s@.len() ==> s@[i] != '\0',
{
    proof {
        lemma_c_compatible_exactly_without_nul(s@);
    }
    for c in it: s.chars()
        invariant
            it.seq() == s@,
            forall|j: int| 0 <= j < it.index() ==> it.seq()[j] != '\0',
    {
        if c == '\0' {
            return false;
        }
    }
    true
}

/// The error by which a key that cannot be handed to C is refused.
pub open spec fn key_error_view() -> (ErrorCode, Option<Seq<char>>) {
    (ErrorCode::InvalidArgument, Some("Invalid key string"@))
}

/// The error by which a string value that cannot be handed to C is refused.
pub open spec fn value_error_view() -> (ErrorCode, Option<Seq<char>>) {
    (ErrorCode::InvalidArgument, Some("Invalid value string"@))
}

/// Accepts a map key that can be handed to C, and refuses any other with an
/// `InvalidArgument` error whose message is `"Invalid key string"`.
pub fn check_key(key: &str) -> (r: Result<(), Error>)
    ensures
        r is Ok <==> c_compatible(key@),
        r is Ok <==> forall|i: int| 0 <= i < key@.len() ==> key@[i] != '\0',
        r matches Err(e) ==> e@ == key_error_view(),
{
    proof {
        lemma_c_compatible_exactly_without_nul(key@);
    }
    if is_c_compatible(key) {
        Ok(())
    } else {
        Err(Error::new(ErrorCode::InvalidArgument, "Invalid key string"))
    }
}

/// Accepts a key and a string value that can both be handed to C. The key is
/// checked first: an unusable key is refused as by `check_key`, and an unusable
/// value with an `InvalidArgument` error whose message is `"Invalid value string"`.
pub fn check_string_entry(key: &str, value: &str) -> (r: Result<(), Error>)
    ensures
        r is Ok <==> c_compatible(key@) && c_compatible(value@),
        r is Ok <==> (forall|i: int| 0 <= i < key@.len() ==> key@[i] != '\0') && (forall|i: int|
            0 <= i < value@.len() ==> value@[i] != '\0'),
        r matches Err(e) ==> if !c_compatible(key@) {
            e@ == key_error_view()
        } else {
            e@ == value_error_view()
        },
{
    proof {
        lemma_c_compatible_exactly_without_nul(key@);
        lemma_c_compatible_exactly_without_nul(value@);
    }
    check_key(key)?;
    if is_c_compatible(value) {
        Ok(())
    } else {
        Err(Error::new(ErrorCode::InvalidArgument, "Invalid value string"))
    }
}

/// The C boolean (`gboolean`) that stands for `value`: 1 for true, 0 for false.
pub open spec fn gboolean_of(value: bool) -> i32 {
    if value { 1 } else { 0 }
}

/// The C boolean (`gboolean`) that stands for `value`: 1 for true, 0 for false.
pub fn to_gboolean(value: bool) -> (r: i32)
    ensures
        r == gboolean_of(value),
        r == 0 || r == 1,
        (r != 0) == value,
{
    if value { 1 } else { 0 }
}

/// The truth that a C boolean (`gboolean`) stands for: any number but 0 is true.
pub fn from_gboolean(raw: i32) -> (r: bool)
    ensures
        r == (raw != 0),
{
    raw != 0
}

/// A flag handed to C as a `gboolean` is 0 or 1 and reads back as the same flag.
pub proof fn lemma_gboolean_round_trip(value: bool)
    ensures
        (gboolean_of(value) != 0) == value,
        gboolean_of(value) == 0 || gboolean_of(value) == 1,
{
}

} // verus!

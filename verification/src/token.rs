//! Random tokens that bind an answer to one pending decision.
use vstd::prelude::*;

use crate::text::{chars_of, is_lower_hex, string_of};

verus! {

/// The length of a control token.
pub const CONTROL_TOKEN_LEN: usize = 12;

/// Whether a text is a control token: twelve hexadecimal digits in lower case.
pub open spec fn is_control_token(s: Seq<char>) -> bool {
    &&& s.len() == CONTROL_TOKEN_LEN
    &&& forall|i: int| 0 <= i < s.len() ==> is_lower_hex(#[trigger] s[i])
}

/// Whether a text is a random UUID in its simple form: 32 hexadecimal digits in lower case,
/// without hyphens, with the digit of the version and that of the variant at their places.
pub open spec fn is_simple_uuid(s: Seq<char>) -> bool {
    &&& s.len() == 32
    &&& forall|i: int| 0 <= i < s.len() ==> is_lower_hex(#[trigger] s[i])
    &&& s[12] == '4'
    &&& s[16] == '8' || s[16] == '9' || s[16] == 'a' || s[16] == 'b'
}

/// `uuid::Uuid::new_v4`, shown through `Uuid::simple`: the result is the simple form of a random
/// UUID. Which one it is rests on the random numbers of the operating system, so nothing more
/// is said of it. Where the operating system has no random numbers to give, `new_v4` panics.
#[verifier::external_body]
pub(crate) fn random_simple_uuid() -> (r: String)
    ensures
        is_simple_uuid(r@),
{
    uuid::Uuid::new_v4().simple().to_string()
}

/// The control token made from a UUID: its first twelve digits.
pub fn control_token_from(uuid: &str) -> (r: String)
    requires
        is_simple_uuid(uuid@),
    ensures
        r@ == uuid@.take(CONTROL_TOKEN_LEN as int),
        is_control_token(r@),
{
    let chars = chars_of(uuid);
    string_of(&chars, 0, CONTROL_TOKEN_LEN)
}

/// A fresh control token.
pub fn generate_control_token() -> (r: String)
    ensures
        is_control_token(r@),
{
    let uuid = random_simple_uuid();
    control_token_from(uuid.as_str())
}

} // verus!

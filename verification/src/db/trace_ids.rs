//! Trace identifiers as users type them and as the bot shows them.
use vstd::prelude::*;

verus! {

/// What `uuid::Uuid::parse_str` makes of a text: the 128-bit value of the
/// UUID, or the parse error as its `Debug` text and its displayed message.
pub uninterp spec fn uuid_parse(s: Seq<char>) -> Result<u128, (Seq<char>, Seq<char>)>;

/// `uuid::Uuid::parse_str(s)`, as the value of the UUID, or the error's
/// `Debug` text and displayed message.
#[verifier::external_body]
pub fn parse_uuid(s: &str) -> (r: Result<u128, (String, String)>)
    ensures
        match (r, uuid_parse(s@)) {
            (Ok(a), Ok(b)) => a == b,
            (Err((d, m)), Err((dd, mm))) => d@ == dd && m@ == mm,
            _ => false,
        },
{
    match uuid::Uuid::parse_str(s) {
        Ok(u) => Ok(u.as_u128()),
        Err(e) => Err((format!("{:?}", e), e.to_string())),
    }
}

/// The lowercase hexadecimal digit of `d` in `0..16`.
pub open spec fn hex_lower(d: nat) -> char {
    "0123456789abcdef"@[d as int]
}

/// The last `n` hexadecimal digits of `v`, most significant first.
pub open spec fn hex_digits(v: nat, n: nat) -> Seq<char>
    decreases n,
{
    if n == 0 {
        seq![]
    } else {
        hex_digits(v / 16, (n - 1) as nat).push(hex_lower(v % 16))
    }
}

/// The hyphenated form of a UUID: 32 lowercase hexadecimal digits in groups
/// of 8, 4, 4, 4 and 12.
pub open spec fn uuid_hyphenated(v: u128) -> Seq<char> {
    let d = hex_digits(v as nat, 32);
    d.subrange(0, 8) + "-"@ + d.subrange(8, 12) + "-"@ + d.subrange(12, 16) + "-"@ + d.subrange(
        16,
        20,
    ) + "-"@ + d.subrange(20, 32)
}

/// `Uuid::from_u128(v).to_string()`: the hyphenated lowercase form.
#[verifier::external_body]
pub fn uuid_text(v: u128) -> (s: String)
    ensures
        s@ == uuid_hyphenated(v),
{
    uuid::Uuid::from_u128(v).to_string()
}

} // verus!

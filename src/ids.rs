//! Random tokens, user ids and content ids.
use vstd::prelude::*;
use rand::Rng;

verus! {

/// Length of a cookie token.
pub const TOKEN_LEN: usize = 10;

/// Length of a user id and of a content id.
pub const ID_LEN: usize = 6;

/// Whether `c` lies between `lo` and `hi`, both included, by code point.
pub open spec fn in_range(c: char, lo: char, hi: char) -> bool {
    lo as u32 <= c as u32 && c as u32 <= hi as u32
}

/// An ASCII letter or digit.
pub open spec fn is_alnum(c: char) -> bool {
    in_range(c, 'a', 'z') || in_range(c, 'A', 'Z') || in_range(c, '0', '9')
}

/// An ASCII lower-case letter or digit.
pub open spec fn is_lower_alnum(c: char) -> bool {
    in_range(c, 'a', 'z') || in_range(c, '0', '9')
}

/// An ASCII upper-case letter or digit.
pub open spec fn is_upper_alnum(c: char) -> bool {
    in_range(c, 'A', 'Z') || in_range(c, '0', '9')
}

/// The code of `c` after ASCII lower-casing: `A`..`Z` move to `a`..`z`.
pub open spec fn ascii_lower_code(c: char) -> int {
    if in_range(c, 'A', 'Z') {
        c as u32 + 32
    } else {
        c as u32 as int
    }
}

/// The code of `c` after ASCII upper-casing: `a`..`z` move to `A`..`Z`.
pub open spec fn ascii_upper_code(c: char) -> int {
    if in_range(c, 'a', 'z') {
        c as u32 - 32
    } else {
        c as u32 as int
    }
}

/// Relies on rand's `thread_rng` sampled through `distributions::Alphanumeric`:
/// each sample is one of `A`..`Z`, `a`..`z`, `0`..`9`, and `take(len)` keeps
/// exactly `len` of them. Which ones is left to chance.
#[verifier::external_body]
fn random_alphanumeric(len: usize) -> (r: String)
    ensures
        r@.len() == len,
        forall|i: int| 0 <= i < r@.len() ==> is_alnum(#[trigger] r@[i]),
{
    rand::thread_rng().sample_iter(&rand::distributions::Alphanumeric).take(len).map(char::from).collect()
}

/// Relies on `str::to_ascii_lowercase`: each ASCII upper-case letter is
/// replaced by its lower-case form, every other character is kept.
#[verifier::external_body]
fn ascii_lowercase(s: &str) -> (r: String)
    ensures
        r@.len() == s@.len(),
        forall|i: int| 0 <= i < s@.len() ==> #[trigger] r@[i] as u32 == ascii_lower_code(s@[i]),
{
    s.to_ascii_lowercase()
}

/// Relies on `str::to_ascii_uppercase`: each ASCII lower-case letter is
/// replaced by its upper-case form, every other character is kept.
#[verifier::external_body]
fn ascii_uppercase(s: &str) -> (r: String)
    ensures
        r@.len() == s@.len(),
        forall|i: int| 0 <= i < s@.len() ==> #[trigger] r@[i] as u32 == ascii_upper_code(s@[i]),
{
    s.to_ascii_uppercase()
}

/// A well-formed cookie token: `TOKEN_LEN` ASCII letters and digits.
pub open spec fn is_token(s: Seq<char>) -> bool {
    s.len() == TOKEN_LEN && forall|i: int| 0 <= i < s.len() ==> is_alnum(#[trigger] s[i])
}

/// A well-formed user id: `ID_LEN` lower-case ASCII letters and digits.
pub open spec fn is_user_id(s: Seq<char>) -> bool {
    s.len() == ID_LEN && forall|i: int| 0 <= i < s.len() ==> is_lower_alnum(#[trigger] s[i])
}

/// A well-formed content id: `ID_LEN` upper-case ASCII letters and digits.
pub open spec fn is_content_id(s: Seq<char>) -> bool {
    s.len() == ID_LEN && forall|i: int| 0 <= i < s.len() ==> is_upper_alnum(#[trigger] s[i])
}

/// A fresh random cookie token.
pub fn mint_token() -> (r: String)
    ensures
        is_token(r@),
{
    random_alphanumeric(TOKEN_LEN)
}

/// A fresh random user id, case-normalised to lower case.
pub fn mint_user_id() -> (r: String)
    ensures
        is_user_id(r@),
{
    let raw = random_alphanumeric(ID_LEN);
    let r = ascii_lowercase(raw.as_str());
    assert forall|i: int| 0 <= i < r@.len() implies is_lower_alnum(#[trigger] r@[i]) by {
        assert(is_alnum(raw@[i]));
        assert(r@[i] as u32 == ascii_lower_code(raw@[i]));
    }
    r
}

/// A fresh random content id, case-normalised to upper case.
pub fn mint_content_id() -> (r: String)
    ensures
        is_content_id(r@),
{
    let raw = random_alphanumeric(ID_LEN);
    let r = ascii_uppercase(raw.as_str());
    assert forall|i: int| 0 <= i < r@.len() implies is_upper_alnum(#[trigger] r@[i]) by {
        assert(is_alnum(raw@[i]));
        assert(r@[i] as u32 == ascii_upper_code(raw@[i]));
    }
    r
}

} // verus!

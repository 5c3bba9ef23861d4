//! Character-counted truncation of titles and bodies for display.
use vstd::prelude::*;
use vstd::string::*;

verus! {

/// Longest title, in characters, shown in a listing.
pub const TITLE_CHAR_LIMIT: usize = 60;

/// Longest body, in characters, shown in a listing.
pub const CONTENT_CHAR_LIMIT: usize = 700;

/// The first `n` characters of `s` (all of `s` when it is shorter).
pub open spec fn prefix_chars(s: Seq<char>, n: nat) -> Seq<char> {
    if s.len() <= n {
        s
    } else {
        s.take(n as int)
    }
}

/// Keeps at most `max_width` characters of `s`; never splits a character.
pub fn truncate_by_chars(s: String, max_width: usize) -> (r: String)
    ensures
        r@ == prefix_chars(s@, max_width as nat),
{
    let n = s.as_str().unicode_len();
    if n <= max_width {
        s
    } else {
        let cut = s.as_str().substring_char(0, max_width);
        cut.to_owned()
    }
}

/// The marker appended to a field that was cut short.
pub open spec fn ellipsis() -> Seq<char> {
    seq!['.', '.', '.']
}

/// A field as displayed under `limit`: cut to `limit` characters and marked
/// with the ellipsis when longer than that, unchanged otherwise.
pub open spec fn clipped(s: Seq<char>, limit: nat) -> Seq<char> {
    if s.len() > limit {
        s.take(limit as int) + ellipsis()
    } else {
        s
    }
}

/// Whether a field is cut short under `limit`.
pub open spec fn overflows(s: Seq<char>, limit: nat) -> bool {
    s.len() > limit
}

/// Cuts `s` to `limit` characters and appends the ellipsis when it is longer;
/// also reports whether it was cut.
pub fn clip(s: String, limit: usize) -> (r: (String, bool))
    ensures
        r.0@ == clipped(s@, limit as nat),
        r.1 == overflows(s@, limit as nat),
{
    let n = s.as_str().unicode_len();
    if n > limit {
        let kept = truncate_by_chars(s, limit);
        let marker = "...";
        proof {
            reveal_strlit("...");
        }
        let shown = kept.concat(marker);
        assert(shown@ =~= s@.take(limit as int) + ellipsis());
        (shown, true)
    } else {
        (s, false)
    }
}

/// A title as listed: cut to `TITLE_CHAR_LIMIT` characters with the ellipsis
/// when longer; titles carry no overflow flag.
pub fn project_title(title: String) -> (r: String)
    ensures
        r@ == clipped(title@, TITLE_CHAR_LIMIT as nat),
{
    clip(title, TITLE_CHAR_LIMIT).0
}

/// A body as listed, with its overflow flag. A body longer than
/// `CONTENT_CHAR_LIMIT` characters keeps exactly its first
/// `CONTENT_CHAR_LIMIT` characters followed by the ellipsis and is flagged;
/// any other body is kept unchanged and not flagged.
pub fn project_content(content: String) -> (r: (String, bool))
    ensures
        r.0@ == clipped(content@, CONTENT_CHAR_LIMIT as nat),
        r.1 == overflows(content@, CONTENT_CHAR_LIMIT as nat),
        content@.len() > CONTENT_CHAR_LIMIT ==> {
            &&& r.1
            &&& r.0@.len() == CONTENT_CHAR_LIMIT + ellipsis().len()
            &&& r.0@.take(CONTENT_CHAR_LIMIT as int) == content@.take(CONTENT_CHAR_LIMIT as int)
            &&& r.0@.skip(CONTENT_CHAR_LIMIT as int) == ellipsis()
        },
        content@.len() <= CONTENT_CHAR_LIMIT ==> !r.1 && r.0@ == content@,
{
    let r = clip(content, CONTENT_CHAR_LIMIT);
    proof {
        if content@.len() > CONTENT_CHAR_LIMIT {
            let t = content@.take(CONTENT_CHAR_LIMIT as int);
            assert((t + ellipsis()).take(CONTENT_CHAR_LIMIT as int) =~= t);
            assert((t + ellipsis()).skip(CONTENT_CHAR_LIMIT as int) =~= ellipsis());
        }
    }
    r
}

} // verus!

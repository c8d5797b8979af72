//! Text helpers of the capture round trip: the sentinel planted on the
//! clipboard, and the short form of clipboard text used in diagnostics.

use vstd::prelude::*;
use crate::text::{chars_of, decimal, push_decimal, string_from_range};
use crate::clock::{nanos_for_reading, since_epoch, whole_nanos};

verus! {

/// How many characters of clipboard text a snippet quotes.
pub const SNIPPET_CHARS: usize = 40;

/// What `format!("{:?}", s)` writes for the text `s`: the text in double
/// quotes, with `Debug`'s escapes.
pub uninterp spec fn debug_quoted(s: Seq<char>) -> Seq<char>;

/// Quotes `s` as `Debug` does for a `str` (`format!("{:?}", s)`). The result is
/// named by `debug_quoted`, a function of the text alone; the escaping rules
/// themselves are not stated.
#[verifier::external_body]
fn debug_quote(s: &str) -> (r: String)
    ensures
        r@ == debug_quoted(s@),
{
    format!("{:?}", s)
}

/// The snippet of a text of `count` characters whose first (at most 40)
/// characters quote as `quoted`.
pub open spec fn snippet_frame(quoted: Seq<char>, count: nat) -> Seq<char> {
    if count <= SNIPPET_CHARS {
        quoted
    } else {
        quoted + "…("@ + decimal(count) + " chars)"@
    }
}

/// The diagnostic form of `s`: the quoted text when it has at most 40
/// characters, otherwise its first 40 characters quoted and the total count.
pub open spec fn snippet_of(s: Seq<char>) -> Seq<char> {
    if s.len() <= SNIPPET_CHARS {
        snippet_frame(debug_quoted(s), s.len())
    } else {
        snippet_frame(debug_quoted(s.take(SNIPPET_CHARS as int)), s.len())
    }
}

/// A text of at most 40 characters is quoted whole; a longer one is quoted by
/// its first 40 characters, followed by `…(N chars)` with its full length.
pub proof fn law_snippet_shape(s: Seq<char>)
    ensures
        s.len() <= 40 ==> snippet_of(s) == debug_quoted(s),
        s.len() > 40 ==> snippet_of(s) == debug_quoted(s.take(40)) + "…("@ + decimal(s.len())
            + " chars)"@,
{
}

/// Frames an already quoted head of a text of `count` characters: unchanged
/// when the text has at most 40 characters, else followed by `…(N chars)`.
pub fn frame_snippet(quoted: String, count: usize) -> (r: String)
    ensures
        r@ == snippet_frame(quoted@, count as nat),
{
    if count <= SNIPPET_CHARS {
        quoted
    } else {
        let mut r = quoted;
        r.append("…(");
        push_decimal(&mut r, count as u128);
        r.append(" chars)");
        r
    }
}

/// The diagnostic form of `s`: quoted whole when it has at most 40 characters,
/// otherwise its first 40 characters quoted followed by `…(N chars)`.
pub fn snippet(s: &str) -> (r: String)
    ensures
        r@ == snippet_of(s@),
{
    let cs = chars_of(s);
    let n = cs.len();
    if n <= SNIPPET_CHARS {
        frame_snippet(debug_quote(s), n)
    } else {
        let head = string_from_range(&cs, 0, SNIPPET_CHARS);
        assert(cs@.subrange(0, SNIPPET_CHARS as int) =~= s@.take(SNIPPET_CHARS as int));
        frame_snippet(debug_quote(head.as_str()), n)
    }
}

/// The sentinel planted for a time of `nanos` nanoseconds since the epoch.
pub open spec fn sentinel(nanos: nat) -> Seq<char> {
    "__PROMPTFORGE_CAPTURE_SENTINEL_"@ + decimal(nanos) + "__"@
}

/// The sentinel text for a time of `nanos` nanoseconds since the epoch.
pub fn sentinel_for(nanos: u128) -> (r: String)
    ensures
        r@ == sentinel(nanos as nat),
{
    let mut r = String::from_str("__PROMPTFORGE_CAPTURE_SENTINEL_");
    push_decimal(&mut r, nanos);
    r.append("__");
    r
}

/// The sentinel for a clock reading: its whole nanoseconds since the epoch,
/// zero when the clock stood before it.
pub fn sentinel_for_reading(t: Option<(u64, u32)>) -> (r: String)
    ensures
        r@ == sentinel(whole_nanos(t)),
{
    sentinel_for(nanos_for_reading(t))
}

/// A fresh sentinel: a text no one copies by accident, made unique by the
/// current time, planted on the clipboard to tell whether a copy happened.
pub fn make_sentinel() -> (r: String)
    ensures
        exists|t: Option<(u64, u32)>| r@ == sentinel(whole_nanos(t)),
{
    sentinel_for_reading(since_epoch())
}

} // verus!

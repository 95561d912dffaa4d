use vstd::prelude::*;
use vstd::string::StrSliceExecFns;

verus! {

/// How many characters of an event's content the log may show.
pub const PREVIEW_CHARS: usize = 40;

/// The first `PREVIEW_CHARS` characters of `content`, or all of it when it is
/// shorter.
pub open spec fn preview_spec(content: Seq<char>) -> Seq<char> {
    if content.len() <= PREVIEW_CHARS {
        content
    } else {
        content.take(PREVIEW_CHARS as int)
    }
}

/// A bounded preview of the content for the log, cut by characters (Unicode
/// scalar values), never inside one.
pub fn content_preview(content: &str) -> (r: String)
    ensures
        r@ == preview_spec(content@),
        r@.len() <= PREVIEW_CHARS,
        r@.len() == if content@.len() < PREVIEW_CHARS { content@.len() } else { PREVIEW_CHARS as nat },
        r@ =~= content@.take(r@.len() as int),
{
    let n = content.unicode_len();
    let keep = if n < PREVIEW_CHARS { n } else { PREVIEW_CHARS };
    let cut = content.substring_char(0, keep);
    cut.to_owned()
}

} // verus!

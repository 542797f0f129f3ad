//! Display titles of a bounded length.

use vstd::prelude::*;
use vstd::string::*;

verus! {

/// The three characters that end a shortened title.
pub open spec fn ellipsis() -> Seq<char> {
    seq!['.', '.', '.']
}

/// A title as it is displayed within `max_len` characters: unchanged where it
/// fits, else its first `max_len - 3` characters followed by the ellipsis.
pub open spec fn truncated(title: Seq<char>, max_len: int) -> Seq<char> {
    if title.len() <= max_len {
        title
    } else {
        title.subrange(0, max_len - 3) + ellipsis()
    }
}

/// A truncated title is never longer than the limit, and a title over the
/// limit comes out at exactly the limit, ending in the ellipsis.
pub proof fn lemma_truncated_len(title: Seq<char>, max_len: int)
    requires
        max_len >= 3,
    ensures
        truncated(title, max_len).len() <= max_len,
        title.len() <= max_len ==> truncated(title, max_len) == title,
        title.len() > max_len ==> truncated(title, max_len).len() == max_len,
        title.len() > max_len ==> truncated(title, max_len).subrange(max_len - 3, max_len)
            == ellipsis(),
{
}

/// Shortens `title` for display in at most `max_len` characters.
pub fn truncate_title(title: &str, max_len: usize) -> (res: String)
    requires
        max_len >= 3,
    ensures
        res@ == truncated(title@, max_len as int),
{
    let n: usize = title.unicode_len();
    if n <= max_len {
        String::from_str(title)
    } else {
        let head = title.substring_char(0, max_len - 3);
        let res = String::from_str(head).concat("...");
        proof {
            reveal_strlit("...");
        }
        res
    }
}

} // verus!

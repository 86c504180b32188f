//! Paths as text.

use vstd::prelude::*;

verus! {

/// Whether `text` ends in the path separator.
pub open spec fn ends_with_separator(text: Seq<char>) -> bool {
    text.len() > 0 && text.last() == '/'
}

/// `text`, with a separator appended unless it ends in one.
pub open spec fn with_trailing_separator(text: Seq<char>) -> Seq<char> {
    if ends_with_separator(text) {
        text
    } else {
        text.push('/')
    }
}

/// Returns `path` with exactly one `/` appended, unless it already ends in `/`.
pub fn add_trailing_slash(path: String) -> (rooted: String)
    ensures
        rooted@ == with_trailing_separator(path@),
        ends_with_separator(rooted@),
{
    let count: usize = path.as_str().unicode_len();
    if count > 0 && path.as_str().get_char(count - 1) == '/' {
        return path;
    }
    proof {
        reveal_strlit("/");
    }
    path.concat("/")
}

} // verus!

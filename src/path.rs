//! Normalization of request paths.

use vstd::prelude::*;

verus! {

/// The document that is served for the empty path, and for any path that
/// the table does not hold.
pub open spec fn default_document() -> Seq<char> {
    DEFAULT_DOCUMENT@
}

/// Key of the default document in an asset table.
pub const DEFAULT_DOCUMENT: &'static str = "index.html";

/// `s` with every leading `/` removed.
pub open spec fn strip_slashes(s: Seq<char>) -> Seq<char>
    decreases s.len(),
{
    if s.len() > 0 && s[0] == '/' {
        strip_slashes(s.drop_first())
    } else {
        s
    }
}

/// The table key that a request path is looked up under: the path without
/// its leading slashes, or the default document where nothing else is left.
pub open spec fn normalized(request_path: Seq<char>) -> Seq<char> {
    let stripped = strip_slashes(request_path);
    if stripped.len() == 0 {
        default_document()
    } else {
        stripped
    }
}

/// Removes every leading `/` of `s`.
pub fn trim_leading_slashes(s: &str) -> (r: &str)
    ensures
        r@ == strip_slashes(s@),
{
    let n = s.unicode_len();
    let mut i: usize = 0;
    assert(s@.subrange(0, n as int) =~= s@);
    while i < n && s.get_char(i) == '/'
        invariant
            i <= n,
            n == s@.len(),
            strip_slashes(s@) == strip_slashes(s@.subrange(i as int, n as int)),
        decreases n - i,
    {
        assert(s@.subrange(i as int, n as int).drop_first() =~= s@.subrange(i + 1, n as int));
        i = i + 1;
    }
    s.substring_char(i, n)
}

/// The table key for `request_path`, as [`normalized`] states it.
pub fn normalize(request_path: &str) -> (r: &str)
    ensures
        r@ == normalized(request_path@),
{
    let stripped = trim_leading_slashes(request_path);
    if stripped.unicode_len() == 0 {
        DEFAULT_DOCUMENT
    } else {
        stripped
    }
}

} // verus!

//! Laws of request resolution, proved over its mathematical model.

use vstd::prelude::*;

use crate::path::{default_document, normalized, strip_slashes};
use crate::resolve::{guessed_content_type, resolution, served_key, Resolution};

verus! {

/// `n` slashes in a row.
pub open spec fn slashes(n: nat) -> Seq<char> {
    Seq::new(n, |_i: int| '/')
}

proof fn lemma_default_document_is_plain()
    ensures
        default_document().len() > 0,
        default_document()[0] != '/',
{
    reveal_strlit("index.html");
}

proof fn lemma_strip_plain(p: Seq<char>)
    requires
        p.len() == 0 || p[0] != '/',
    ensures
        strip_slashes(p) == p,
{
}

proof fn lemma_strip_one(p: Seq<char>)
    ensures
        strip_slashes(seq!['/'] + p) == strip_slashes(p),
{
    assert((seq!['/'] + p).drop_first() =~= p);
}

/// A path that the table holds and that does not start with `/` is served
/// as itself, with the content stored under it.
pub proof fn law_exact_match(p: Seq<char>, table: Map<Seq<char>, Seq<u8>>)
    requires
        table.contains_key(p),
        p.len() > 0,
        p[0] != '/',
    ensures
        resolution(p, table) == Some((p, table[p], guessed_content_type(p))),
{
    lemma_strip_plain(p);
}

/// The empty path is answered as the default document is.
pub proof fn law_empty_path(table: Map<Seq<char>, Seq<u8>>)
    ensures
        resolution(Seq::empty(), table) == resolution(default_document(), table),
{
    lemma_default_document_is_plain();
    lemma_strip_plain(default_document());
}

/// A leading `/` does not change the answer.
pub proof fn law_leading_slash(p: Seq<char>, table: Map<Seq<char>, Seq<u8>>)
    ensures
        resolution(seq!['/'] + p, table) == resolution(p, table),
{
    lemma_strip_one(p);
}

/// Any number of leading slashes does not change the answer.
pub proof fn law_leading_slashes(n: nat, p: Seq<char>, table: Map<Seq<char>, Seq<u8>>)
    ensures
        resolution(slashes(n) + p, table) == resolution(p, table),
    decreases n,
{
    if n > 0 {
        law_leading_slashes((n - 1) as nat, p, table);
        assert(slashes(n) + p =~= seq!['/'] + (slashes((n - 1) as nat) + p));
        law_leading_slash(slashes((n - 1) as nat) + p, table);
    }
}

/// A path that the table does not hold is answered with the default
/// document where the table holds that, unless its leading slashes removed
/// give another key of the table.
pub proof fn law_fallback(p: Seq<char>, table: Map<Seq<char>, Seq<u8>>)
    requires
        !table.contains_key(p),
        table.contains_key(default_document()),
        table.contains_key(normalized(p)) ==> normalized(p) == default_document(),
    ensures
        served_key(p, table) == Some(default_document()),
        resolution(p, table) == Some(
            (
                default_document(),
                table[default_document()],
                guessed_content_type(default_document()),
            ),
        ),
{
}

/// Where the table holds neither the path, with its leading slashes removed,
/// nor the default document, nothing is found.
pub proof fn law_total_miss(p: Seq<char>, table: Map<Seq<char>, Seq<u8>>)
    requires
        !table.contains_key(p),
        !table.contains_key(default_document()),
        !table.contains_key(normalized(p)),
    ensures
        resolution(p, table) is None,
{
}

/// Two answers to the same request from the same table are the same.
pub proof fn law_deterministic(
    p: Seq<char>,
    table: Map<Seq<char>, Seq<u8>>,
    first: Resolution,
    second: Resolution,
)
    requires
        first@ == resolution(p, table),
        second@ == resolution(p, table),
    ensures
        first@ == second@,
{
}

} // verus!

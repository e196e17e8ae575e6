//! Resolution of a request path to the asset that answers it.

use vstd::prelude::*;

use crate::path::{default_document, normalize, normalized, DEFAULT_DOCUMENT};
use crate::table::AssetTable;

verus! {

/// The content type that `mime_guess` derives from the extension of `path`.
pub uninterp spec fn guessed_content_type(path: Seq<char>) -> Seq<char>;

/// Relies on `mime_guess::from_path(..).first_or_octet_stream()`: the first
/// MIME type known for the path's extension, `application/octet-stream` where
/// none is known. It reads no disk and depends on the path alone.
#[verifier::external_body]
fn guess_content_type(path: &str) -> (r: String)
    ensures
        r@ == guessed_content_type(path@),
{
    mime_guess::from_path(path).first_or_octet_stream().as_ref().to_string()
}

/// The key of the asset that answers `request_path`: the normalized path
/// where the table holds it, else the default document where the table holds
/// that, else none.
pub open spec fn served_key(request_path: Seq<char>, table: Map<Seq<char>, Seq<u8>>) -> Option<
    Seq<char>,
> {
    let key = normalized(request_path);
    if table.contains_key(key) {
        Some(key)
    } else if table.contains_key(default_document()) {
        Some(default_document())
    } else {
        None
    }
}

/// What a request for `request_path` is answered with: the served key, its
/// content and its content type, or nothing.
pub open spec fn resolution(request_path: Seq<char>, table: Map<Seq<char>, Seq<u8>>) -> Option<
    (Seq<char>, Seq<u8>, Seq<char>),
> {
    match served_key(request_path, table) {
        Some(key) => Some((key, table[key], guessed_content_type(key))),
        None => None,
    }
}

/// The answer to one request.
pub enum Resolution {
    Found { serve_path: String, bytes: Vec<u8>, content_type: String },
    NotFound,
}

impl View for Resolution {
    type V = Option<(Seq<char>, Seq<u8>, Seq<char>)>;

    open spec fn view(&self) -> Option<(Seq<char>, Seq<u8>, Seq<char>)> {
        match self {
            Resolution::Found { serve_path, bytes, content_type } => Some(
                (serve_path@, bytes@, content_type@),
            ),
            Resolution::NotFound => None,
        }
    }
}

impl Resolution {
    /// The answer that serves `bytes` from `serve_path` as `content_type`.
    pub fn found(serve_path: &str, bytes: &Vec<u8>, content_type: String) -> (r: Resolution)
        ensures
            r@ == Some((serve_path@, bytes@, content_type@)),
    {
        let copy = bytes.clone();
        assert(copy@ =~= bytes@);
        Resolution::Found { serve_path: serve_path.to_owned(), bytes: copy, content_type }
    }

    /// Whether an asset was found.
    pub fn is_found(&self) -> (r: bool)
        ensures
            r == self@.is_some(),
    {
        match self {
            Resolution::Found { .. } => true,
            Resolution::NotFound => false,
        }
    }
}

/// The key and content of the asset that answers `request_path`, without its
/// content type.
pub fn locate<'a>(request_path: &'a str, table: &'a AssetTable) -> (r: Option<(&'a str, &'a Vec<u8>)>)
    ensures
        r.is_some() == served_key(request_path@, table@).is_some(),
        r.is_some() ==> r.unwrap().0@ == served_key(request_path@, table@).unwrap(),
        r.is_some() ==> r.unwrap().1@ == table@[r.unwrap().0@],
{
    let key = normalize(request_path);
    match table.get(key) {
        Some(bytes) => Some((key, bytes)),
        None => match table.get(DEFAULT_DOCUMENT) {
            Some(bytes) => Some((DEFAULT_DOCUMENT, bytes)),
            None => None,
        },
    }
}

/// Answers a request for `request_path` from `table`.
///
/// Every leading `/` is removed and the empty path stands for the default
/// document. Where the table holds no asset under that key, the default
/// document is served instead; where it holds none either, the answer is
/// [`Resolution::NotFound`]. The content type follows from the path that is
/// served, not from the one requested.
pub fn resolve(request_path: &str, table: &AssetTable) -> (r: Resolution)
    ensures
        r@ == resolution(request_path@, table@),
{
    match locate(request_path, table) {
        Some((serve_path, bytes)) => {
            let content_type = guess_content_type(serve_path);
            Resolution::found(serve_path, bytes, content_type)
        },
        None => Resolution::NotFound,
    }
}

} // verus!

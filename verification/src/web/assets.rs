//! Static files.

use vstd::prelude::*;
use vstd::string::*;

use crate::text;

verus! {

/// The service that answers requests which no route takes. It could hand
/// them on to an inner service; by itself it has none.
#[derive(Debug)]
pub struct AssetsService<S> {
    pub inner: Option<S>,
}

/// The inner service of a service that has none: there is no value of it.
#[derive(Debug, Clone, Copy)]
pub struct DefaultServeDirFallback(core::convert::Infallible);

impl<S> Default for AssetsService<S> {
    fn default() -> (res: Self)
        ensures
            res.inner is None,
    {
        AssetsService { inner: None }
    }
}

impl AssetsService<DefaultServeDirFallback> {
    pub fn new() -> (res: Self)
        ensures
            res.inner is None,
    {
        AssetsService { inner: None }
    }
}

/// The media type of a file, going by the extension of its name: what
/// `mime_guess::from_path` guesses first, or `application/octet-stream`.
pub uninterp spec fn media_type_of(path: Seq<char>) -> Seq<char>;

/// Whether a path is taken apart in the same way on every platform. One with
/// a backslash or a colon is not, nor one that begins with two slashes: some
/// platforms read a separator, a disk or a server there.
pub open spec fn is_portable(path: Seq<char>) -> bool {
    &&& !path.contains('\\')
    &&& !path.contains(':')
    &&& !(path.len() >= 2 && path[0] == '/' && path[1] == '/')
}

/// Calls `mime_guess::from_path` and `first_or_octet_stream`. Trusted: for a
/// path that is taken apart alike on every platform the result depends on the
/// path alone, and for one without a dot, which has no extension, it is
/// `application/octet-stream`. Of other paths nothing is said.
#[verifier::external_body]
fn guess_media_type(path: &str) -> (res: String)
    ensures
        is_portable(path@) ==> res@ == media_type_of(path@),
        !path@.contains('.') ==> res@ == "application/octet-stream"@,
{
    mime_guess::from_path(path).first_or_octet_stream().as_ref().to_owned()
}

/// What is answered to a request for a static file.
#[derive(Debug, PartialEq)]
pub enum AssetReply {
    /// The content of the file, with this media type.
    Found(String),
    /// There is no such file: status 404 and this text.
    NotFound(u16, &'static str),
}

/// The answer for a file that is stored under the path of the request, given
/// its media type; there may be none.
pub fn asset_reply(media_type: Option<String>) -> (res: AssetReply)
    ensures
        match media_type {
            Some(found) => res == AssetReply::Found(found),
            None => res matches AssetReply::NotFound(status, body) && status == 404 && body@
                == "404 Not Found"@,
        },
{
    match media_type {
        Some(found) => AssetReply::Found(found),
        None => AssetReply::NotFound(404, "404 Not Found"),
    }
}

/// Whether `res` answers a request for the file at a path.
pub open spec fn serves(path: Seq<char>, stored: bool, res: AssetReply) -> bool {
    if stored {
        res matches AssetReply::Found(media_type) && (is_portable(path) ==> media_type@
            == media_type_of(path)) && (!path.contains('.') ==> media_type@
            == "application/octet-stream"@)
    } else {
        res matches AssetReply::NotFound(status, body) && status == 404 && body@
            == "404 Not Found"@
    }
}

/// The answer to a request for `path`; `stored` says whether there is a file
/// under it.
pub fn serve_asset(path: &str, stored: bool) -> (res: AssetReply)
    ensures
        serves(path@, stored, res),
{
    if stored {
        asset_reply(Some(guess_media_type(path)))
    } else {
        asset_reply(None)
    }
}

/// A file is found if and only if it is stored; one that is found has the
/// media type of its path, and one that is not is answered with status 404.
pub proof fn law_stored_files_are_found(path: Seq<char>, stored: bool, res: AssetReply)
    requires
        serves(path, stored, res),
    ensures
        res is Found <==> stored,
        res matches AssetReply::Found(media_type) ==> is_portable(path) ==> media_type@
            == media_type_of(path),
        res matches AssetReply::NotFound(status, _) ==> status == 404,
{
}

} // verus!

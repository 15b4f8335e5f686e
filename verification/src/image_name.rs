//! Handles of stored images and the names under which they are served.

use vstd::prelude::*;
use vstd::string::*;
use crate::failure::{STATUS_BAD_REQUEST, STATUS_INTERNAL_ERROR, STATUS_OK};

verus! {

/// The characters of a handle: lowercase hexadecimal digits and the hyphen.
pub open spec fn is_handle_char(c: char) -> bool {
    c == '-' || ('0' <= c && c <= '9') || ('a' <= c && c <= 'f')
}

/// The shape of a handle: 36 characters, each a lowercase hexadecimal digit
/// or a hyphen.
pub open spec fn is_handle(text: Seq<char>) -> bool {
    text.len() == 36 && forall|i: int| 0 <= i < text.len() ==> is_handle_char(#[trigger] text[i])
}

/// The canonical text of the UUID that `text` denotes in any of the forms
/// that the `uuid` crate reads, or `None` where it denotes none.
pub uninterp spec fn canonical_uuid(text: Seq<char>) -> Option<Seq<char>>;

/// `uuid::Uuid::try_parse`, with the UUID that it reads written out by the
/// crate's `Display`: hyphenated, in lowercase, 36 characters long. What is
/// read from a text depends on the text alone.
#[verifier::external_body]
fn parse_uuid(text: &str) -> (canonical: Option<String>)
    ensures
        canonical.deep_view() == canonical_uuid(text@),
        canonical matches Some(c) ==> is_handle(c@),
{
    match uuid::Uuid::try_parse(text) {
        Ok(id) => Some(id.to_string()),
        Err(_) => None,
    }
}

/// `uuid::Uuid::new_v4`, written out by the crate's `Display`. The UUID is
/// drawn at random, so nothing is claimed of it but its shape.
#[verifier::external_body]
fn random_uuid() -> (text: String)
    ensures
        is_handle(text@),
{
    uuid::Uuid::new_v4().to_string()
}

/// Allocates the handle for a file that is about to be written. The handle
/// exists before the first byte is known to be valid, so that whatever is
/// written can be removed again.
pub fn new_handle() -> (handle: String)
    ensures
        is_handle(handle@),
{
    random_uuid()
}

/// The two reserved names that are served beside the handles.
pub open spec fn is_placeholder(name: Seq<char>) -> bool {
    name == "placeholder_avatar"@ || name == "placeholder_image"@
}

/// The file that a request for `requested` is served from, given what the
/// name reads as a UUID: a reserved name stands for itself, any other name
/// for the canonical text of its UUID.
pub open spec fn name_from(requested: Seq<char>, parsed: Option<Seq<char>>) -> Option<
    Seq<char>,
> {
    if is_placeholder(requested) {
        Some(requested)
    } else {
        parsed
    }
}

/// Picks the file to serve for `requested`, given what it reads as a UUID.
pub fn image_name_from(requested: String, parsed: Option<String>) -> (name: Option<String>)
    ensures
        name.deep_view() == name_from(requested@, parsed.deep_view()),
{
    if requested == "placeholder_avatar".to_owned() || requested == "placeholder_image".to_owned() {
        Some(requested)
    } else {
        parsed
    }
}

/// The name of the file to serve for `requested`, or `None` where the
/// request names no image.
pub fn resolve_image_name(requested: String) -> (name: Option<String>)
    ensures
        name.deep_view() == name_from(requested@, canonical_uuid(requested@)),
        name matches Some(n) ==> is_placeholder(n@) || is_handle(n@),
{
    let parsed = parse_uuid(requested.as_str());
    image_name_from(requested, parsed)
}

/// Directory of the image store.
pub open spec fn image_dir() -> Seq<char> {
    "./images/"@
}

/// Path of the file behind `image_id`.
pub fn image_path(image_id: &str) -> (path: String)
    ensures
        path@ == image_dir() + image_id@,
{
    let mut path = "./images/".to_owned();
    path.append(image_id);
    path
}

/// A handle names a file directly in the store: it holds no path separator
/// and no dot.
pub proof fn lemma_handle_is_flat(handle: Seq<char>)
    requires
        is_handle(handle),
    ensures
        !handle.contains('/'),
        !handle.contains('\\'),
        !handle.contains('.'),
{
    assert forall|i: int| 0 <= i < handle.len() implies handle[i] != '/' && handle[i] != '\\'
        && handle[i] != '.' by {
        assert(is_handle_char(handle[i]));
    }
}

/// How opening a stored image went.
#[derive(Clone, Copy, Debug, PartialEq, Eq, Structural)]
pub enum Lookup {
    /// The file is there and is streamed.
    Found,
    /// There is no such file. This is no I/O failure.
    Missing,
    /// The store failed.
    Failed,
}

/// The status that answers a request for an image: 400 where the request
/// names none or the file is missing, 500 where the store failed.
pub open spec fn image_status_of(lookup: Option<Lookup>) -> u16 {
    match lookup {
        Some(Lookup::Found) => STATUS_OK,
        Some(Lookup::Failed) => STATUS_INTERNAL_ERROR,
        _ => STATUS_BAD_REQUEST,
    }
}

/// The status code of the response to a request for an image; `lookup` is
/// `None` where the name was refused and the store was not asked.
pub fn image_status(lookup: Option<Lookup>) -> (code: u16)
    ensures
        code == image_status_of(lookup),
{
    match lookup {
        Some(Lookup::Found) => STATUS_OK,
        Some(Lookup::Failed) => STATUS_INTERNAL_ERROR,
        _ => STATUS_BAD_REQUEST,
    }
}

} // verus!

//! Paths as the tables see them: bytes, where there is a path at all, extended one segment at a
//! time.
//!
//! The tables never look into a path. They copy one, spell one out, or join a segment to one,
//! and the joining is `Path::join`'s. What a joined path holds is therefore named here, by
//! [`adjoined`], and not spelled out.

use std::path::PathBuf;
use vstd::prelude::*;
use vstd::utf8::encode_utf8;

verus! {

/// `std::path::PathBuf`, carried through as it is.
#[verifier::external_type_specification]
#[verifier::external_body]
pub struct ExPathBuf(std::path::PathBuf);

/// The bytes that a path holds: those that `OsStr::as_encoded_bytes` hands out for it. For a
/// path made from a string these are the string's UTF-8 bytes. Two paths that hold the same
/// bytes are the same path.
pub uninterp spec fn path_bytes(path: PathBuf) -> Seq<u8>;

/// The bytes of the path that `Path::join` builds from a base path and a segment. `Path::join`
/// looks at nothing but the two; which separator it puts between them is a matter of the
/// platform that the library is built for.
pub uninterp spec fn adjoined(base: Seq<u8>, segment: Seq<char>) -> Seq<u8>;

/// What an optional path holds.
pub open spec fn content(path: Option<PathBuf>) -> Option<Seq<u8>> {
    match path {
        Some(p) => Some(path_bytes(p)),
        None => None,
    }
}

/// A segment joined to a base, where there is a base.
pub open spec fn under(base: Option<Seq<u8>>, segment: Seq<char>) -> Option<Seq<u8>> {
    match base {
        Some(b) => Some(adjoined(b, segment)),
        None => None,
    }
}

/// The path that a text spells out.
pub open spec fn spelled(text: Seq<char>) -> Option<Seq<u8>> {
    Some(encode_utf8(text))
}

/// Calls `Path::join`. Not proved: the bytes of the result are those that [`adjoined`] names
/// for the bytes of `base` and the characters of `segment`.
#[verifier::external_body]
fn join(base: &PathBuf, segment: &str) -> (joined: PathBuf)
    ensures
        path_bytes(joined) == adjoined(path_bytes(*base), segment@),
{
    base.join(segment)
}

/// Calls `PathBuf::from` on a string slice. Not proved: the new path holds the UTF-8 bytes of
/// `text` and nothing else.
#[verifier::external_body]
fn from_text(text: &str) -> (path: PathBuf)
    ensures
        path_bytes(path) == encode_utf8(text@),
{
    PathBuf::from(text)
}

/// Calls `PathBuf::clone`. Not proved: the copy holds the same bytes as `path`.
#[verifier::external_body]
fn duplicate(path: &PathBuf) -> (copy: PathBuf)
    ensures
        path_bytes(copy) == path_bytes(*path),
{
    path.clone()
}

/// The path that `text` spells out. It is always defined.
pub fn fixed(text: &str) -> (r: Option<PathBuf>)
    ensures
        content(r) == spelled(text@),
{
    Some(from_text(text))
}

/// A copy of `base`, defined exactly when `base` is.
pub fn same(base: &Option<PathBuf>) -> (r: Option<PathBuf>)
    ensures
        content(r) == content(*base),
{
    match base {
        Some(b) => Some(duplicate(b)),
        None => None,
    }
}

/// `base` with `segment` joined to it. An undefined base stays undefined: no path is made up
/// from the segment alone.
pub fn extend(base: &Option<PathBuf>, segment: &str) -> (r: Option<PathBuf>)
    ensures
        content(r) == under(content(*base), segment@),
{
    match base {
        Some(b) => Some(join(b, segment)),
        None => None,
    }
}

} // verus!

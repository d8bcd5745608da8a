//! Where a requested clip or URL comes from, and the checks made before any
//! filesystem or network access.
use vstd::prelude::*;

use crate::text::{
    contains_double_dot, contains_parent_segment, decimal, has_double_dot, has_parent_segment,
    joined, push_decimal, starts_with,
};

verus! {

/// Why no source could be had for a request.
#[derive(Debug)]
pub enum SourceError {
    /// The clip path would leave the clip directory.
    PermissionDenied,
    /// There is no clip file under that name.
    NotFound,
    /// The URL does not begin with a recognised scheme.
    InvalidUrl,
    /// Reading, decoding or fetching failed, for the reason given.
    Io(String),
}

/// What the filesystem says of a clip path.
#[derive(Clone, Debug)]
pub enum FileStatus {
    Present,
    Missing,
    Unreadable(String),
}

/// The lower-case form of a text, as `str::to_lowercase` gives it.
pub uninterp spec fn lower_of(s: Seq<char>) -> Seq<char>;

/// Relies on `str::to_lowercase`: the lower-case form of `s`, which depends
/// on the characters of `s` alone.
#[verifier::external_body]
fn lowercase(s: &str) -> (r: String)
    ensures
        r@ == lower_of(s@),
{
    s.to_lowercase()
}

/// The file of clip `name` of guild `guild` under the clip directory `base`:
/// `<base>/<guild in decimal>/<name in lower case>.mp3`.
pub open spec fn clip_path(base: Seq<char>, name: Seq<char>, guild: u64) -> Seq<char> {
    base + "/"@ + decimal(guild as nat) + "/"@ + lower_of(name) + ".mp3"@
}

/// Whether a request for clip `name` tries to leave the clip directory: the
/// name holds `..`, or a segment of the composed path is `..`.
pub open spec fn traverses(base: Seq<char>, name: Seq<char>, guild: u64) -> bool {
    has_double_dot(name) || has_parent_segment(clip_path(base, name, guild))
}

/// The path of clip `name` of guild `guild` under `base`; refused, before
/// anything touches the filesystem, when the request tries to leave the
/// clip directory.
pub fn get_path(base: &str, name: &str, guild: u64) -> (r: Result<String, SourceError>)
    ensures
        match r {
            Ok(path) => !traverses(base@, name@, guild) && path@ == clip_path(base@, name@, guild),
            Err(e) => traverses(base@, name@, guild) && e is PermissionDenied,
        },
{
    if contains_double_dot(name) {
        return Err(SourceError::PermissionDenied);
    }
    let mut path = joined(base, "/");
    push_decimal(&mut path, guild);
    path.append("/");
    let lower = lowercase(name);
    path.append(lower.as_str());
    path.append(".mp3");
    if contains_parent_segment(path.as_str()) {
        Err(SourceError::PermissionDenied)
    } else {
        Ok(path)
    }
}

/// What a clip request comes to once the filesystem has answered for its path.
pub open spec fn opened(path: Seq<char>, status: FileStatus) -> Result<Seq<char>, SourceError> {
    match status {
        FileStatus::Present => Ok(path),
        FileStatus::Missing => Err(SourceError::NotFound),
        FileStatus::Unreadable(e) => Err(SourceError::Io(e)),
    }
}

/// The clip at `path`, given what the filesystem says of it: absence is
/// `NotFound`, kept apart from every other failure.
pub fn open_clip(path: String, status: FileStatus) -> (r: Result<String, SourceError>)
    ensures
        match r {
            Ok(p) => opened(path@, status) == Ok::<Seq<char>, SourceError>(p@),
            Err(e) => opened(path@, status) == Err::<Seq<char>, SourceError>(e),
        },
{
    match status {
        FileStatus::Present => Ok(path),
        FileStatus::Missing => Err(SourceError::NotFound),
        FileStatus::Unreadable(e) => Err(SourceError::Io(e)),
    }
}

/// A clip request resolved against a clip directory, `dir` saying what the
/// filesystem answers for each path: what `get_path` followed by
/// `open_clip` yields.
pub open spec fn resolution(
    base: Seq<char>,
    name: Seq<char>,
    guild: u64,
    dir: spec_fn(Seq<char>) -> FileStatus,
) -> Result<Seq<char>, SourceError> {
    if traverses(base, name, guild) {
        Err(SourceError::PermissionDenied)
    } else {
        opened(clip_path(base, name, guild), dir(clip_path(base, name, guild)))
    }
}

/// A clip name that holds `..` is refused as a traversal for every guild and
/// every clip directory, whatever the directory holds.
pub proof fn lemma_double_dot_refused(
    base: Seq<char>,
    name: Seq<char>,
    guild: u64,
    dir: spec_fn(Seq<char>) -> FileStatus,
)
    requires
        has_double_dot(name),
    ensures
        traverses(base, name, guild),
        resolution(base, name, guild, dir) is Err,
        resolution(base, name, guild, dir)->Err_0 is PermissionDenied,
{
}

/// Resolving the same clip name for the same guild twice gives the same
/// answer both times (found at the same path, missing, refused, or failed
/// alike) whenever the clip's own file is unchanged between the two; in
/// particular, whenever the directory is.
pub proof fn lemma_resolution_repeatable(
    base: Seq<char>,
    name: Seq<char>,
    guild: u64,
    first: spec_fn(Seq<char>) -> FileStatus,
    second: spec_fn(Seq<char>) -> FileStatus,
)
    requires
        first(clip_path(base, name, guild)) == second(clip_path(base, name, guild)),
    ensures
        resolution(base, name, guild, first) == resolution(base, name, guild, second),
{
}

/// The address of a remote source; refused, before any fetch, unless it
/// begins with `http`.
pub fn resolve_url(url: &str) -> (r: Result<String, SourceError>)
    ensures
        match r {
            Ok(u) => "http"@.is_prefix_of(url@) && u@ == url@,
            Err(e) => !"http"@.is_prefix_of(url@) && e is InvalidUrl,
        },
{
    if starts_with(url, "http") {
        Ok(String::from_str(url))
    } else {
        Err(SourceError::InvalidUrl)
    }
}

} // verus!

//! The file to upload: its bytes and the name it is uploaded under.

use vstd::prelude::*;
use std::path::PathBuf;

verus! {

/// An owned filesystem path of the standard library. Nothing is known of what
/// it holds; it is carried from the command line to whoever opens the file.
#[verifier::external_type_specification]
#[verifier::external_body]
pub struct ExPathBuf(std::path::PathBuf);

/// Name given to a file whose path has no usable final segment.
pub const FALLBACK_FILE_NAME: &'static str = "unknown_file";

/// The bytes of the file, read to the end, and its display name. Built once
/// the file has been read, and consumed by the upload.
#[derive(Debug, PartialEq, Eq)]
pub struct FilePayload {
    pub bytes: Vec<u8>,
    pub name: String,
}

/// Mathematical content of a [`FilePayload`].
pub ghost struct FilePayloadView {
    pub bytes: Seq<u8>,
    pub name: Seq<char>,
}

impl View for FilePayload {
    type V = FilePayloadView;

    open spec fn view(&self) -> FilePayloadView {
        FilePayloadView { bytes: self.bytes@, name: self.name@ }
    }
}

/// The display name that follows from a path's final segment: the segment
/// itself, or the fallback name where the path has none.
pub open spec fn display_name_of(final_segment: Option<Seq<char>>) -> Seq<char> {
    match final_segment {
        Some(segment) => segment,
        None => FALLBACK_FILE_NAME@,
    }
}

/// The final segment of a path as text: what `Path::file_name` finds in it,
/// where that is valid Unicode. It is `None` for a path without a final
/// segment, such as the root or one that ends in `..`, and for a segment that
/// is not valid Unicode.
pub uninterp spec fn final_segment_of(path: PathBuf) -> Option<Seq<char>>;

/// Calls `Path::file_name` of the standard library and, on what it finds,
/// `OsStr::to_str`. Both read nothing but the path, so the result is the final
/// segment of that path and of no other. How a path splits into segments is
/// left to the standard library; nothing more is claimed here.
#[verifier::external_body]
pub(crate) fn path_final_segment(path: &PathBuf) -> (segment: Option<String>)
    ensures
        segment.deep_view() == final_segment_of(*path),
{
    path.file_name().and_then(|name| name.to_str()).map(String::from)
}

/// The name under which the file at `path` is uploaded.
pub open spec fn path_display_name(path: PathBuf) -> Seq<char> {
    display_name_of(final_segment_of(path))
}

/// The name a file is uploaded under, given the final segment of its path.
pub fn display_name(final_segment: Option<&str>) -> (name: String)
    ensures
        name@ == display_name_of(final_segment.deep_view()),
{
    match final_segment {
        Some(segment) => String::from_str(segment),
        None => String::from_str(FALLBACK_FILE_NAME),
    }
}

impl FilePayload {
    /// Joins the bytes that were read with the display name derived from the
    /// path's final segment.
    pub fn new(bytes: Vec<u8>, final_segment: Option<&str>) -> (payload: FilePayload)
        ensures
            payload@ == (FilePayloadView { bytes: bytes@, name: display_name_of(final_segment.deep_view()) }),
    {
        FilePayload { bytes, name: display_name(final_segment) }
    }
}

/// A payload always has a name: a path without a final segment yields the
/// fallback, never an empty or missing name.
pub proof fn lemma_fallback_name()
    ensures
        display_name_of(None) == "unknown_file"@,
        display_name_of(None).len() == 12,
{
    reveal_strlit("unknown_file");
}

/// A final segment, where there is one, is the display name, letter for letter.
pub proof fn lemma_segment_is_name(segment: Seq<char>)
    ensures
        display_name_of(Some(segment)) == segment,
{
}

} // verus!

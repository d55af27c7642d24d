//! What the watcher reads from a path: its extension and its final component,
//! both as `std::path::Path` parses them.
use vstd::prelude::*;
use crate::config::opt_view;
use crate::text::{eq_ignore_ascii_case, str_eq_ignore_ascii_case};

verus! {

/// The extension that `std::path::Path::extension` finds in a path.
pub uninterp spec fn extension_of(path: Seq<char>) -> Option<Seq<char>>;

/// The final component that `std::path::Path::file_name` finds in a path.
pub uninterp spec fn file_name_of(path: Seq<char>) -> Option<Seq<char>>;

/// Relies on `std::path::Path::extension`: the text after the last dot of the
/// final component, absent when there is no final component, no dot in it, or
/// only a leading dot. It depends on the path alone.
#[verifier::external_body]
fn path_extension(path: &str) -> (r: Option<String>)
    ensures
        opt_view(r) == extension_of(path@),
{
    std::path::Path::new(path).extension().and_then(|e| e.to_str()).map(|e| e.to_string())
}

/// Relies on `std::path::Path::file_name`: the final component of the path,
/// absent when the path ends in `..` or has none. It depends on the path alone.
#[verifier::external_body]
fn path_file_name(path: &str) -> (r: Option<String>)
    ensures
        opt_view(r) == file_name_of(path@),
{
    std::path::Path::new(path).file_name().and_then(|f| f.to_str()).map(|f| f.to_string())
}

/// An extension that marks an XML file: `xml` in any ASCII case.
pub open spec fn is_xml_extension_spec(ext: Seq<char>) -> bool {
    eq_ignore_ascii_case(ext, "xml"@)
}

/// A path whose extension marks an XML file.
pub open spec fn is_xml_path(path: Seq<char>) -> bool {
    match extension_of(path) {
        Some(e) => is_xml_extension_spec(e),
        None => false,
    }
}

/// The final component of a path, or the empty string when it has none.
pub open spec fn file_name_or_empty_spec(path: Seq<char>) -> Seq<char> {
    match file_name_of(path) {
        Some(f) => f,
        None => Seq::<char>::empty(),
    }
}

/// Tells whether an extension marks an XML file.
pub fn is_xml_extension(ext: &str) -> (r: bool)
    ensures
        r == is_xml_extension_spec(ext@),
{
    str_eq_ignore_ascii_case(ext, "xml")
}

/// Tells whether a path names an XML file by its extension.
pub fn is_xml_file(path: &str) -> (r: bool)
    ensures
        r == is_xml_path(path@),
{
    match path_extension(path) {
        Some(e) => is_xml_extension(e.as_str()),
        None => false,
    }
}

/// The final component of a path, or the empty string when it has none.
pub fn file_name_or_empty(path: &str) -> (r: String)
    ensures
        r@ == file_name_or_empty_spec(path@),
{
    match path_file_name(path) {
        Some(f) => f,
        None => String::new(),
    }
}

} // verus!

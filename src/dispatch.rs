//! The choice, for each file event, of whether a notification is sent.
use vstd::prelude::*;
use crate::paths::{is_xml_file, is_xml_path};
use crate::suppression::SuppressionSet;

verus! {

/// The kinds of file event that the watcher tells apart.
#[derive(Debug, Clone, Copy, PartialEq, Eq, Structural)]
pub enum WatchEventKind {
    /// A file or directory was created.
    Create,
    /// Anything else: a change, a removal, an access.
    Other,
}

/// What is done with one path of an event.
#[derive(Debug, Clone, Copy, PartialEq, Eq, Structural)]
pub enum Dispatch {
    /// A notification is sent after the settle delay.
    Deliver,
    /// The event is not a creation.
    NotCreation,
    /// The path is not a regular file.
    NotRegularFile,
    /// The path's extension is not `xml`.
    NotXml,
    /// The watcher itself has just overwritten the file.
    Suppressed,
}

/// The decision for one path of an event.
pub open spec fn dispatch_spec(
    kind: WatchEventKind,
    is_regular_file: bool,
    path: Seq<char>,
    suppressed: Set<Seq<char>>,
) -> Dispatch {
    if kind != WatchEventKind::Create {
        Dispatch::NotCreation
    } else if !is_regular_file {
        Dispatch::NotRegularFile
    } else if !is_xml_path(path) {
        Dispatch::NotXml
    } else if suppressed.contains(path) {
        Dispatch::Suppressed
    } else {
        Dispatch::Deliver
    }
}

/// Decides whether a notification is sent for `path`, named by an event of
/// `kind`; `is_regular_file` tells whether the path is now a regular file.
/// Only a creation of a regular XML file that is not suppressed is delivered.
pub fn dispatch(
    kind: WatchEventKind,
    is_regular_file: bool,
    path: &str,
    suppressed: &SuppressionSet,
) -> (r: Dispatch)
    ensures
        r == dispatch_spec(kind, is_regular_file, path@, suppressed@),
        !is_xml_path(path@) ==> r != Dispatch::Deliver,
        suppressed@.contains(path@) ==> r != Dispatch::Deliver,
{
    if kind != WatchEventKind::Create {
        Dispatch::NotCreation
    } else if !is_regular_file {
        Dispatch::NotRegularFile
    } else if !is_xml_file(path) {
        Dispatch::NotXml
    } else if suppressed.contains(path) {
        Dispatch::Suppressed
    } else {
        Dispatch::Deliver
    }
}

} // verus!

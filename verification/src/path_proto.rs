//! Paths on the wire: a path travels as its text.
use vstd::prelude::*;
use std::path::PathBuf;

verus! {

#[verifier::external_type_specification]
#[verifier::external_body]
pub struct ExPathBuf(PathBuf);

/// A value read from its wire text.
pub trait FromProto: Sized {
    fn from_proto(proto: String) -> Self;
}

/// A value turned into its wire text.
pub trait ToProto: Sized {
    fn to_proto(self) -> String;
}

/// Calls `PathBuf::from` on a `String`: the path whose text is the string.
/// What path comes out is not stated here.
#[verifier::external_body]
fn path_from_text(text: String) -> PathBuf {
    PathBuf::from(text)
}

/// Calls `Path::to_string_lossy` and turns the result into a `String`: the
/// path's text, with what is not Unicode replaced. What text comes out is
/// not stated here.
#[verifier::external_body]
fn path_text(path: &PathBuf) -> String {
    path.to_string_lossy().to_string()
}

impl FromProto for PathBuf {
    fn from_proto(proto: String) -> Self {
        path_from_text(proto)
    }
}

impl ToProto for PathBuf {
    fn to_proto(self) -> String {
        path_text(&self)
    }
}

} // verus!

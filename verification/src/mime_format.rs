use vstd::prelude::*;

use crate::MimeType;

verus! {

/// Trait for converting between file extensions, MIME strings, and MIME
/// types.
///
/// Implemented by every category as well as by [`MimeType`] itself. Each
/// implementor fixes its lookup tables once, as the two spec functions, and
/// the executable conversions are proved to agree with them exactly: a
/// recognized string yields its table entry, and any other string yields
/// `None`.
pub trait MimeFormat {
    /// The extension table: which MIME type, if any, a file extension maps
    /// to. Matching is case-sensitive and exact.
    spec fn from_ext_spec(ext: Seq<char>) -> Option<MimeType>;

    /// The reverse MIME-string table: which MIME type, if any, a MIME
    /// string maps to. Matching is exact.
    spec fn from_mime_spec(mime: Seq<char>) -> Option<MimeType>;

    /// Converts a file extension to a MIME type.
    ///
    /// Returns `None` if the extension is not recognized.
    fn from_ext(ext: &str) -> (r: Option<MimeType>)
        ensures
            r == Self::from_ext_spec(ext@),
    ;

    /// Converts a MIME type string to a MIME type.
    ///
    /// Returns `None` if the MIME string is not recognized.
    fn from_mime(mime: &str) -> (r: Option<MimeType>)
        ensures
            r == Self::from_mime_spec(mime@),
    ;
}

} // verus!

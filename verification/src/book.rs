use vstd::prelude::*;

use crate::MimeType;
use crate::mime_format::MimeFormat;
use crate::strcmp::str_eq;

verus! {

/// E-book file formats.
///
/// Supports common digital book formats.
#[derive(Clone, Copy, Debug, PartialEq, Eq, Structural)]
pub enum Book {
    /// Electronic Publication format
    Epub,
    /// Mobipocket e-book format
    Mobi,
}

impl Book {
    /// The canonical MIME string of this format, as a character sequence.
    pub open spec fn mime_spec(self) -> Seq<char> {
        match self {
            Book::Epub => "application/epub+zip"@,
            Book::Mobi => "application/x-mobipocket-ebook"@,
        }
    }

    /// The canonical MIME string of this format.
    pub fn as_str(&self) -> (r: &'static str)
        ensures
            r@ == self.mime_spec(),
    {
        match self {
            Book::Epub => "application/epub+zip",
            Book::Mobi => "application/x-mobipocket-ebook",
        }
    }
}

impl MimeFormat for Book {
    open spec fn from_ext_spec(ext: Seq<char>) -> Option<MimeType> {
        if ext == "epub"@ {
            Some(MimeType::Book(Book::Epub))
        } else if ext == "mobi"@ {
            Some(MimeType::Book(Book::Mobi))
        } else {
            None
        }
    }

    open spec fn from_mime_spec(mime: Seq<char>) -> Option<MimeType> {
        if mime == "application/epub+zip"@ {
            Some(MimeType::Book(Book::Epub))
        } else if mime == "application/x-mobipocket-ebook"@ {
            Some(MimeType::Book(Book::Mobi))
        } else {
            None
        }
    }

    fn from_ext(ext: &str) -> (r: Option<MimeType>) {
        if str_eq(ext, "epub") {
            Some(MimeType::Book(Book::Epub))
        } else if str_eq(ext, "mobi") {
            Some(MimeType::Book(Book::Mobi))
        } else {
            None
        }
    }

    fn from_mime(mime: &str) -> (r: Option<MimeType>) {
        if str_eq(mime, "application/epub+zip") {
            Some(MimeType::Book(Book::Epub))
        } else if str_eq(mime, "application/x-mobipocket-ebook") {
            Some(MimeType::Book(Book::Mobi))
        } else {
            None
        }
    }
}

} // verus!

use vstd::prelude::*;

use crate::MimeType;
use crate::mime_format::MimeFormat;
use crate::strcmp::str_eq;

verus! {

/// Font file formats.
///
/// Supports common web and desktop font formats.
///
/// The forward mapping to MIME strings is lossy here: `Ttf` and `Otf` share
/// the canonical string `application/font-sfnt`, and `Woff` and `Woff2`
/// share `application/font-woff`. Reverse lookup resolves each shared
/// string to its designated variant (`Ttf`, respectively `Woff`).
#[derive(Clone, Copy, Debug, PartialEq, Eq, Structural)]
pub enum Font {
    /// TrueType Font format
    Ttf,
    /// OpenType Font format
    Otf,
    /// Web Open Font Format
    Woff,
    /// Web Open Font Format 2
    Woff2,
}

impl Font {
    /// The canonical MIME string of this format, as a character sequence.
    pub open spec fn mime_spec(self) -> Seq<char> {
        match self {
            Font::Ttf => "application/font-sfnt"@,
            Font::Otf => "application/font-sfnt"@,
            Font::Woff => "application/font-woff"@,
            Font::Woff2 => "application/font-woff"@,
        }
    }

    /// The canonical MIME string of this format.
    pub fn as_str(&self) -> (r: &'static str)
        ensures
            r@ == self.mime_spec(),
    {
        match self {
            Font::Ttf => "application/font-sfnt",
            Font::Otf => "application/font-sfnt",
            Font::Woff => "application/font-woff",
            Font::Woff2 => "application/font-woff",
        }
    }
}

impl MimeFormat for Font {
    open spec fn from_ext_spec(ext: Seq<char>) -> Option<MimeType> {
        if ext == "ttf"@ {
            Some(MimeType::Font(Font::Ttf))
        } else if ext == "otf"@ {
            Some(MimeType::Font(Font::Otf))
        } else if ext == "woff"@ {
            Some(MimeType::Font(Font::Woff))
        } else if ext == "woff2"@ {
            Some(MimeType::Font(Font::Woff2))
        } else {
            None
        }
    }

    open spec fn from_mime_spec(mime: Seq<char>) -> Option<MimeType> {
        if mime == "application/font-sfnt"@ {
            Some(MimeType::Font(Font::Ttf))
        } else if mime == "application/font-woff"@ {
            Some(MimeType::Font(Font::Woff))
        } else {
            None
        }
    }

    fn from_ext(ext: &str) -> (r: Option<MimeType>) {
        if str_eq(ext, "ttf") {
            Some(MimeType::Font(Font::Ttf))
        } else if str_eq(ext, "otf") {
            Some(MimeType::Font(Font::Otf))
        } else if str_eq(ext, "woff") {
            Some(MimeType::Font(Font::Woff))
        } else if str_eq(ext, "woff2") {
            Some(MimeType::Font(Font::Woff2))
        } else {
            None
        }
    }

    fn from_mime(mime: &str) -> (r: Option<MimeType>) {
        if str_eq(mime, "application/font-sfnt") {
            Some(MimeType::Font(Font::Ttf))
        } else if str_eq(mime, "application/font-woff") {
            Some(MimeType::Font(Font::Woff))
        } else {
            None
        }
    }
}

} // verus!

use vstd::prelude::*;

use crate::MimeType;
use crate::mime_format::MimeFormat;
use crate::strcmp::str_eq;

verus! {

/// Video file formats.
///
/// Supports common video container and codec formats.
#[derive(Clone, Copy, Debug, PartialEq, Eq, Structural)]
pub enum Video {
    /// MPEG-4 Part 14 video format
    Mp4,
    /// iTunes video format
    M4v,
    /// Matroska video format
    Mkv,
    /// WebM video format
    Webm,
    /// QuickTime movie format
    Mov,
    /// Audio Video Interleave format
    Avi,
    /// Windows Media Video format
    Wmv,
    /// MPEG video format
    Mpg,
    /// Flash Video format
    Flv,
}

impl Video {
    /// The canonical MIME string of this format, as a character sequence.
    pub open spec fn mime_spec(self) -> Seq<char> {
        match self {
            Video::Mp4 => "video/mp4"@,
            Video::M4v => "video/x-m4v"@,
            Video::Mkv => "video/x-matroska"@,
            Video::Webm => "video/webm"@,
            Video::Mov => "video/quicktime"@,
            Video::Avi => "video/x-msvideo"@,
            Video::Wmv => "video/x-ms-wmv"@,
            Video::Mpg => "video/mpeg"@,
            Video::Flv => "video/x-flv"@,
        }
    }

    /// The canonical MIME string of this format.
    pub fn as_str(&self) -> (r: &'static str)
        ensures
            r@ == self.mime_spec(),
    {
        match self {
            Video::Mp4 => "video/mp4",
            Video::M4v => "video/x-m4v",
            Video::Mkv => "video/x-matroska",
            Video::Webm => "video/webm",
            Video::Mov => "video/quicktime",
            Video::Avi => "video/x-msvideo",
            Video::Wmv => "video/x-ms-wmv",
            Video::Mpg => "video/mpeg",
            Video::Flv => "video/x-flv",
        }
    }
}

impl MimeFormat for Video {
    open spec fn from_ext_spec(ext: Seq<char>) -> Option<MimeType> {
        if ext == "mp4"@ {
            Some(MimeType::Video(Video::Mp4))
        } else if ext == "m4v"@ {
            Some(MimeType::Video(Video::M4v))
        } else if ext == "mkv"@ {
            Some(MimeType::Video(Video::Mkv))
        } else if ext == "webm"@ {
            Some(MimeType::Video(Video::Webm))
        } else if ext == "mov"@ {
            Some(MimeType::Video(Video::Mov))
        } else if ext == "avi"@ {
            Some(MimeType::Video(Video::Avi))
        } else if ext == "wmv"@ {
            Some(MimeType::Video(Video::Wmv))
        } else if ext == "mpg"@ || ext == "mpeg"@ {
            Some(MimeType::Video(Video::Mpg))
        } else if ext == "flv"@ {
            Some(MimeType::Video(Video::Flv))
        } else {
            None
        }
    }

    open spec fn from_mime_spec(mime: Seq<char>) -> Option<MimeType> {
        if mime == "video/mp4"@ {
            Some(MimeType::Video(Video::Mp4))
        } else if mime == "video/x-m4v"@ {
            Some(MimeType::Video(Video::M4v))
        } else if mime == "video/x-matroska"@ {
            Some(MimeType::Video(Video::Mkv))
        } else if mime == "video/webm"@ {
            Some(MimeType::Video(Video::Webm))
        } else if mime == "video/quicktime"@ {
            Some(MimeType::Video(Video::Mov))
        } else if mime == "video/x-msvideo"@ {
            Some(MimeType::Video(Video::Avi))
        } else if mime == "video/x-ms-wmv"@ {
            Some(MimeType::Video(Video::Wmv))
        } else if mime == "video/mpeg"@ {
            Some(MimeType::Video(Video::Mpg))
        } else if mime == "video/x-flv"@ {
            Some(MimeType::Video(Video::Flv))
        } else {
            None
        }
    }

    fn from_ext(ext: &str) -> (r: Option<MimeType>) {
        if str_eq(ext, "mp4") {
            Some(MimeType::Video(Video::Mp4))
        } else if str_eq(ext, "m4v") {
            Some(MimeType::Video(Video::M4v))
        } else if str_eq(ext, "mkv") {
            Some(MimeType::Video(Video::Mkv))
        } else if str_eq(ext, "webm") {
            Some(MimeType::Video(Video::Webm))
        } else if str_eq(ext, "mov") {
            Some(MimeType::Video(Video::Mov))
        } else if str_eq(ext, "avi") {
            Some(MimeType::Video(Video::Avi))
        } else if str_eq(ext, "wmv") {
            Some(MimeType::Video(Video::Wmv))
        } else if str_eq(ext, "mpg") || str_eq(ext, "mpeg") {
            Some(MimeType::Video(Video::Mpg))
        } else if str_eq(ext, "flv") {
            Some(MimeType::Video(Video::Flv))
        } else {
            None
        }
    }

    fn from_mime(mime: &str) -> (r: Option<MimeType>) {
        if str_eq(mime, "video/mp4") {
            Some(MimeType::Video(Video::Mp4))
        } else if str_eq(mime, "video/x-m4v") {
            Some(MimeType::Video(Video::M4v))
        } else if str_eq(mime, "video/x-matroska") {
            Some(MimeType::Video(Video::Mkv))
        } else if str_eq(mime, "video/webm") {
            Some(MimeType::Video(Video::Webm))
        } else if str_eq(mime, "video/quicktime") {
            Some(MimeType::Video(Video::Mov))
        } else if str_eq(mime, "video/x-msvideo") {
            Some(MimeType::Video(Video::Avi))
        } else if str_eq(mime, "video/x-ms-wmv") {
            Some(MimeType::Video(Video::Wmv))
        } else if str_eq(mime, "video/mpeg") {
            Some(MimeType::Video(Video::Mpg))
        } else if str_eq(mime, "video/x-flv") {
            Some(MimeType::Video(Video::Flv))
        } else {
            None
        }
    }
}

} // verus!

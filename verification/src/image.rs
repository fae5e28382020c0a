use vstd::prelude::*;

use crate::MimeType;
use crate::mime_format::MimeFormat;
use crate::strcmp::str_eq;

verus! {

/// Image file formats.
#[derive(Clone, Copy, Debug, PartialEq, Eq, Structural)]
pub enum Image {
    /// JPEG image format
    Jpeg,
    /// Portable Network Graphics format
    Png,
    /// Graphics Interchange Format
    Gif,
    /// WebP image format
    Webp,
    /// Canon raw image format
    Cr2,
    /// Tagged Image File Format
    Tif,
    /// Bitmap image format
    Bmp,
    /// High Efficiency Image Format
    Heif,
    /// AV1 Image File Format
    Avif,
    /// JPEG extended range format
    Jxr,
    /// Adobe Photoshop document
    Psd,
    /// Windows icon format
    Ico,
    /// OpenRaster image format
    Ora,
    /// DjVu document image format
    Djvu,
}

impl Image {
    /// The canonical MIME string of this format, as a character sequence.
    pub open spec fn mime_spec(self) -> Seq<char> {
        match self {
            Image::Jpeg => "image/jpeg"@,
            Image::Png => "image/png"@,
            Image::Gif => "image/gif"@,
            Image::Webp => "image/webp"@,
            Image::Cr2 => "image/x-canon-cr2"@,
            Image::Tif => "image/tiff"@,
            Image::Bmp => "image/bmp"@,
            Image::Heif => "image/heif"@,
            Image::Avif => "image/avif"@,
            Image::Jxr => "image/vnd.ms-photo"@,
            Image::Psd => "image/vnd.adobe.photoshop"@,
            Image::Ico => "image/vnd.microsoft.icon"@,
            Image::Ora => "image/openraster"@,
            Image::Djvu => "image/vnd.djvu"@,
        }
    }

    /// The canonical MIME string of this format.
    pub fn as_str(&self) -> (r: &'static str)
        ensures
            r@ == self.mime_spec(),
    {
        match self {
            Image::Jpeg => "image/jpeg",
            Image::Png => "image/png",
            Image::Gif => "image/gif",
            Image::Webp => "image/webp",
            Image::Cr2 => "image/x-canon-cr2",
            Image::Tif => "image/tiff",
            Image::Bmp => "image/bmp",
            Image::Heif => "image/heif",
            Image::Avif => "image/avif",
            Image::Jxr => "image/vnd.ms-photo",
            Image::Psd => "image/vnd.adobe.photoshop",
            Image::Ico => "image/vnd.microsoft.icon",
            Image::Ora => "image/openraster",
            Image::Djvu => "image/vnd.djvu",
        }
    }
}

impl MimeFormat for Image {
    open spec fn from_ext_spec(ext: Seq<char>) -> Option<MimeType> {
        if ext == "jpg"@ || ext == "jpeg"@ {
            Some(MimeType::Image(Image::Jpeg))
        } else if ext == "png"@ {
            Some(MimeType::Image(Image::Png))
        } else if ext == "gif"@ {
            Some(MimeType::Image(Image::Gif))
        } else if ext == "webp"@ {
            Some(MimeType::Image(Image::Webp))
        } else if ext == "cr2"@ {
            Some(MimeType::Image(Image::Cr2))
        } else if ext == "tif"@ || ext == "tiff"@ {
            Some(MimeType::Image(Image::Tif))
        } else if ext == "bmp"@ {
            Some(MimeType::Image(Image::Bmp))
        } else if ext == "heif"@ {
            Some(MimeType::Image(Image::Heif))
        } else if ext == "avif"@ {
            Some(MimeType::Image(Image::Avif))
        } else if ext == "jxr"@ {
            Some(MimeType::Image(Image::Jxr))
        } else if ext == "psd"@ {
            Some(MimeType::Image(Image::Psd))
        } else if ext == "ico"@ {
            Some(MimeType::Image(Image::Ico))
        } else if ext == "ora"@ {
            Some(MimeType::Image(Image::Ora))
        } else if ext == "djvu"@ {
            Some(MimeType::Image(Image::Djvu))
        } else {
            None
        }
    }

    open spec fn from_mime_spec(mime: Seq<char>) -> Option<MimeType> {
        if mime == "image/jpeg"@ {
            Some(MimeType::Image(Image::Jpeg))
        } else if mime == "image/png"@ {
            Some(MimeType::Image(Image::Png))
        } else if mime == "image/gif"@ {
            Some(MimeType::Image(Image::Gif))
        } else if mime == "image/webp"@ {
            Some(MimeType::Image(Image::Webp))
        } else if mime == "image/x-canon-cr2"@ {
            Some(MimeType::Image(Image::Cr2))
        } else if mime == "image/tiff"@ {
            Some(MimeType::Image(Image::Tif))
        } else if mime == "image/bmp"@ {
            Some(MimeType::Image(Image::Bmp))
        } else if mime == "image/heif"@ {
            Some(MimeType::Image(Image::Heif))
        } else if mime == "image/avif"@ {
            Some(MimeType::Image(Image::Avif))
        } else if mime == "image/vnd.ms-photo"@ {
            Some(MimeType::Image(Image::Jxr))
        } else if mime == "image/vnd.adobe.photoshop"@ {
            Some(MimeType::Image(Image::Psd))
        } else if mime == "image/vnd.microsoft.icon"@ {
            Some(MimeType::Image(Image::Ico))
        } else if mime == "image/openraster"@ {
            Some(MimeType::Image(Image::Ora))
        } else if mime == "image/vnd.djvu"@ {
            Some(MimeType::Image(Image::Djvu))
        } else {
            None
        }
    }

    fn from_ext(ext: &str) -> (r: Option<MimeType>) {
        if str_eq(ext, "jpg") || str_eq(ext, "jpeg") {
            Some(MimeType::Image(Image::Jpeg))
        } else if str_eq(ext, "png") {
            Some(MimeType::Image(Image::Png))
        } else if str_eq(ext, "gif") {
            Some(MimeType::Image(Image::Gif))
        } else if str_eq(ext, "webp") {
            Some(MimeType::Image(Image::Webp))
        } else if str_eq(ext, "cr2") {
            Some(MimeType::Image(Image::Cr2))
        } else if str_eq(ext, "tif") || str_eq(ext, "tiff") {
            Some(MimeType::Image(Image::Tif))
        } else if str_eq(ext, "bmp") {
            Some(MimeType::Image(Image::Bmp))
        } else if str_eq(ext, "heif") {
            Some(MimeType::Image(Image::Heif))
        } else if str_eq(ext, "avif") {
            Some(MimeType::Image(Image::Avif))
        } else if str_eq(ext, "jxr") {
            Some(MimeType::Image(Image::Jxr))
        } else if str_eq(ext, "psd") {
            Some(MimeType::Image(Image::Psd))
        } else if str_eq(ext, "ico") {
            Some(MimeType::Image(Image::Ico))
        } else if str_eq(ext, "ora") {
            Some(MimeType::Image(Image::Ora))
        } else if str_eq(ext, "djvu") {
            Some(MimeType::Image(Image::Djvu))
        } else {
            None
        }
    }

    fn from_mime(mime: &str) -> (r: Option<MimeType>) {
        if str_eq(mime, "image/jpeg") {
            Some(MimeType::Image(Image::Jpeg))
        } else if str_eq(mime, "image/png") {
            Some(MimeType::Image(Image::Png))
        } else if str_eq(mime, "image/gif") {
            Some(MimeType::Image(Image::Gif))
        } else if str_eq(mime, "image/webp") {
            Some(MimeType::Image(Image::Webp))
        } else if str_eq(mime, "image/x-canon-cr2") {
            Some(MimeType::Image(Image::Cr2))
        } else if str_eq(mime, "image/tiff") {
            Some(MimeType::Image(Image::Tif))
        } else if str_eq(mime, "image/bmp") {
            Some(MimeType::Image(Image::Bmp))
        } else if str_eq(mime, "image/heif") {
            Some(MimeType::Image(Image::Heif))
        } else if str_eq(mime, "image/avif") {
            Some(MimeType::Image(Image::Avif))
        } else if str_eq(mime, "image/vnd.ms-photo") {
            Some(MimeType::Image(Image::Jxr))
        } else if str_eq(mime, "image/vnd.adobe.photoshop") {
            Some(MimeType::Image(Image::Psd))
        } else if str_eq(mime, "image/vnd.microsoft.icon") {
            Some(MimeType::Image(Image::Ico))
        } else if str_eq(mime, "image/openraster") {
            Some(MimeType::Image(Image::Ora))
        } else if str_eq(mime, "image/vnd.djvu") {
            Some(MimeType::Image(Image::Djvu))
        } else {
            None
        }
    }
}

} // verus!

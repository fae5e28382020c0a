//! Type-safe MIME type handling: bidirectional lookup between file
//! extensions, MIME type strings, and a closed set of known formats.
//!
//! Every format belongs to one of seven categories (image, video, audio,
//! book, document, font, application). [`MimeType`] wraps one concrete
//! format and dispatches lookups across the categories in a fixed order:
//! the first category whose table recognizes the string wins.

use vstd::prelude::*;

mod application;
mod audio;
mod book;
mod document;
mod font;
mod image;
mod mime_format;
mod strcmp;
mod video;

pub use crate::application::Application;
pub use crate::audio::Audio;
pub use crate::book::Book;
pub use crate::document::Document;
pub use crate::font::Font;
pub use crate::image::Image;
pub use crate::mime_format::MimeFormat;
pub use crate::video::Video;

verus! {

/// Main MIME type enum containing all supported categories.
///
/// This enum wraps the specific MIME type categories (Image, Video, Audio,
/// etc.) and implements conversion from file extensions and MIME strings.
#[derive(Clone, Copy, Debug, PartialEq, Eq, Structural)]
pub enum MimeType {
    /// Image formats (JPEG, PNG, GIF, etc.)
    Image(Image),
    /// Video formats (MP4, MKV, WebM, etc.)
    Video(Video),
    /// Audio formats (MP3, FLAC, WAV, etc.)
    Audio(Audio),
    /// E-book formats (EPUB, MOBI)
    Book(Book),
    /// Document formats (DOC, PDF, XLS, etc.)
    Document(Document),
    /// Font formats (TTF, OTF, WOFF, etc.)
    Font(Font),
    /// Application and executable formats (EXE, WASM, ELF, etc.)
    Application(Application),
}

impl MimeType {
    /// The canonical MIME string of the wrapped format, as a character
    /// sequence.
    pub open spec fn mime_spec(self) -> Seq<char> {
        match self {
            MimeType::Image(img) => img.mime_spec(),
            MimeType::Video(vid) => vid.mime_spec(),
            MimeType::Audio(aud) => aud.mime_spec(),
            MimeType::Book(book) => book.mime_spec(),
            MimeType::Document(doc) => doc.mime_spec(),
            MimeType::Font(font) => font.mime_spec(),
            MimeType::Application(app) => app.mime_spec(),
        }
    }

    /// Whether the wrapped format's canonical MIME string is also the
    /// canonical string of an earlier variant of its category, so that
    /// reverse lookup of that string resolves to the designated earlier
    /// variant rather than to this one.
    ///
    /// This is an acknowledged property of the tables: `Otf` displays as
    /// `application/font-sfnt` but that string resolves back to `Ttf`, and
    /// likewise `Woff2` to `Woff`, `Dll` to `Exe`, and `Obj` to `Elf`.
    pub open spec fn is_lossy(self) -> bool {
        match self {
            MimeType::Font(Font::Otf) => true,
            MimeType::Font(Font::Woff2) => true,
            MimeType::Application(Application::Dll) => true,
            MimeType::Application(Application::Obj) => true,
            _ => false,
        }
    }

    /// The canonical MIME string of the wrapped format.
    pub fn as_str(&self) -> (r: &'static str)
        ensures
            r@ == self.mime_spec(),
    {
        match self {
            MimeType::Image(img) => img.as_str(),
            MimeType::Video(vid) => vid.as_str(),
            MimeType::Audio(aud) => aud.as_str(),
            MimeType::Book(book) => book.as_str(),
            MimeType::Document(doc) => doc.as_str(),
            MimeType::Font(font) => font.as_str(),
            MimeType::Application(app) => app.as_str(),
        }
    }
}

impl MimeFormat for MimeType {
    open spec fn from_ext_spec(ext: Seq<char>) -> Option<MimeType> {
        if Image::from_ext_spec(ext) is Some {
            Image::from_ext_spec(ext)
        } else if Video::from_ext_spec(ext) is Some {
            Video::from_ext_spec(ext)
        } else if Audio::from_ext_spec(ext) is Some {
            Audio::from_ext_spec(ext)
        } else if Book::from_ext_spec(ext) is Some {
            Book::from_ext_spec(ext)
        } else if Document::from_ext_spec(ext) is Some {
            Document::from_ext_spec(ext)
        } else if Font::from_ext_spec(ext) is Some {
            Font::from_ext_spec(ext)
        } else {
            Application::from_ext_spec(ext)
        }
    }

    open spec fn from_mime_spec(mime: Seq<char>) -> Option<MimeType> {
        if Image::from_mime_spec(mime) is Some {
            Image::from_mime_spec(mime)
        } else if Video::from_mime_spec(mime) is Some {
            Video::from_mime_spec(mime)
        } else if Audio::from_mime_spec(mime) is Some {
            Audio::from_mime_spec(mime)
        } else if Book::from_mime_spec(mime) is Some {
            Book::from_mime_spec(mime)
        } else if Document::from_mime_spec(mime) is Some {
            Document::from_mime_spec(mime)
        } else if Font::from_mime_spec(mime) is Some {
            Font::from_mime_spec(mime)
        } else {
            Application::from_mime_spec(mime)
        }
    }

    fn from_ext(ext: &str) -> (r: Option<MimeType>) {
        let r = Image::from_ext(ext);
        if r.is_some() {
            return r;
        }
        let r = Video::from_ext(ext);
        if r.is_some() {
            return r;
        }
        let r = Audio::from_ext(ext);
        if r.is_some() {
            return r;
        }
        let r = Book::from_ext(ext);
        if r.is_some() {
            return r;
        }
        let r = Document::from_ext(ext);
        if r.is_some() {
            return r;
        }
        let r = Font::from_ext(ext);
        if r.is_some() {
            return r;
        }
        Application::from_ext(ext)
    }

    fn from_mime(mime: &str) -> (r: Option<MimeType>) {
        let r = Image::from_mime(mime);
        if r.is_some() {
            return r;
        }
        let r = Video::from_mime(mime);
        if r.is_some() {
            return r;
        }
        let r = Audio::from_mime(mime);
        if r.is_some() {
            return r;
        }
        let r = Book::from_mime(mime);
        if r.is_some() {
            return r;
        }
        let r = Document::from_mime(mime);
        if r.is_some() {
            return r;
        }
        let r = Font::from_mime(mime);
        if r.is_some() {
            return r;
        }
        Application::from_mime(mime)
    }
}

// The lemmas below establish, for each category, the length and a few
// distinguishing characters of every MIME string literal in its reverse
// table. Together these facts separate every pair of distinct table
// strings, which the round-trip proofs rely on.

proof fn image_literal_facts()
    ensures
        "image/jpeg"@.len() == 10, "image/jpeg"@[0] == 'i', "image/jpeg"@[6] == 'j',
        "image/png"@.len() == 9, "image/png"@[0] == 'i', "image/png"@[6] == 'p',
        "image/gif"@.len() == 9, "image/gif"@[0] == 'i', "image/gif"@[6] == 'g',
        "image/webp"@.len() == 10, "image/webp"@[0] == 'i', "image/webp"@[6] == 'w',
        "image/x-canon-cr2"@.len() == 17, "image/x-canon-cr2"@[0] == 'i', "image/x-canon-cr2"@[6] == 'x',
        "image/tiff"@.len() == 10, "image/tiff"@[0] == 'i', "image/tiff"@[6] == 't',
        "image/bmp"@.len() == 9, "image/bmp"@[0] == 'i', "image/bmp"@[6] == 'b',
        "image/heif"@.len() == 10, "image/heif"@[0] == 'i', "image/heif"@[6] == 'h',
        "image/avif"@.len() == 10, "image/avif"@[0] == 'i', "image/avif"@[6] == 'a',
        "image/vnd.ms-photo"@.len() == 18, "image/vnd.ms-photo"@[0] == 'i', "image/vnd.ms-photo"@[6] == 'v',
        "image/vnd.adobe.photoshop"@.len() == 25, "image/vnd.adobe.photoshop"@[0] == 'i', "image/vnd.adobe.photoshop"@[6] == 'v',
        "image/vnd.microsoft.icon"@.len() == 24, "image/vnd.microsoft.icon"@[0] == 'i', "image/vnd.microsoft.icon"@[6] == 'v',
        "image/openraster"@.len() == 16, "image/openraster"@[0] == 'i', "image/openraster"@[6] == 'o',
        "image/vnd.djvu"@.len() == 14, "image/vnd.djvu"@[0] == 'i', "image/vnd.djvu"@[6] == 'v',
{
    reveal_strlit("image/jpeg");
    reveal_strlit("image/png");
    reveal_strlit("image/gif");
    reveal_strlit("image/webp");
    reveal_strlit("image/x-canon-cr2");
    reveal_strlit("image/tiff");
    reveal_strlit("image/bmp");
    reveal_strlit("image/heif");
    reveal_strlit("image/avif");
    reveal_strlit("image/vnd.ms-photo");
    reveal_strlit("image/vnd.adobe.photoshop");
    reveal_strlit("image/vnd.microsoft.icon");
    reveal_strlit("image/openraster");
    reveal_strlit("image/vnd.djvu");
}

proof fn video_literal_facts()
    ensures
        "video/mp4"@.len() == 9, "video/mp4"@[0] == 'v', "video/mp4"@[6] == 'm', "video/mp4"@[8] == '4',
        "video/x-m4v"@.len() == 11, "video/x-m4v"@[0] == 'v', "video/x-m4v"@[6] == 'x', "video/x-m4v"@[8] == 'm',
        "video/x-matroska"@.len() == 16, "video/x-matroska"@[0] == 'v', "video/x-matroska"@[6] == 'x', "video/x-matroska"@[8] == 'm',
        "video/webm"@.len() == 10, "video/webm"@[0] == 'v', "video/webm"@[6] == 'w', "video/webm"@[8] == 'b',
        "video/quicktime"@.len() == 15, "video/quicktime"@[0] == 'v', "video/quicktime"@[6] == 'q', "video/quicktime"@[8] == 'i',
        "video/x-msvideo"@.len() == 15, "video/x-msvideo"@[0] == 'v', "video/x-msvideo"@[6] == 'x', "video/x-msvideo"@[8] == 'm',
        "video/x-ms-wmv"@.len() == 14, "video/x-ms-wmv"@[0] == 'v', "video/x-ms-wmv"@[6] == 'x', "video/x-ms-wmv"@[8] == 'm',
        "video/mpeg"@.len() == 10, "video/mpeg"@[0] == 'v', "video/mpeg"@[6] == 'm', "video/mpeg"@[8] == 'e',
        "video/x-flv"@.len() == 11, "video/x-flv"@[0] == 'v', "video/x-flv"@[6] == 'x', "video/x-flv"@[8] == 'f',
{
    reveal_strlit("video/mp4");
    reveal_strlit("video/x-m4v");
    reveal_strlit("video/x-matroska");
    reveal_strlit("video/webm");
    reveal_strlit("video/quicktime");
    reveal_strlit("video/x-msvideo");
    reveal_strlit("video/x-ms-wmv");
    reveal_strlit("video/mpeg");
    reveal_strlit("video/x-flv");
}

proof fn audio_literal_facts()
    ensures
        "audio/midi"@.len() == 10, "audio/midi"@[0] == 'a', "audio/midi"@[1] == 'u', "audio/midi"@[6] == 'm', "audio/midi"@[7] == 'i', "audio/midi"@[8] == 'd',
        "audio/mpeg"@.len() == 10, "audio/mpeg"@[0] == 'a', "audio/mpeg"@[1] == 'u', "audio/mpeg"@[6] == 'm', "audio/mpeg"@[7] == 'p', "audio/mpeg"@[8] == 'e',
        "audio/m4a"@.len() == 9, "audio/m4a"@[0] == 'a', "audio/m4a"@[1] == 'u', "audio/m4a"@[6] == 'm', "audio/m4a"@[7] == '4', "audio/m4a"@[8] == 'a',
        "audio/ogg"@.len() == 9, "audio/ogg"@[0] == 'a', "audio/ogg"@[1] == 'u', "audio/ogg"@[6] == 'o', "audio/ogg"@[7] == 'g', "audio/ogg"@[8] == 'g',
        "audio/x-flac"@.len() == 12, "audio/x-flac"@[0] == 'a', "audio/x-flac"@[1] == 'u', "audio/x-flac"@[6] == 'x', "audio/x-flac"@[7] == '-', "audio/x-flac"@[8] == 'f',
        "audio/x-wav"@.len() == 11, "audio/x-wav"@[0] == 'a', "audio/x-wav"@[1] == 'u', "audio/x-wav"@[6] == 'x', "audio/x-wav"@[7] == '-', "audio/x-wav"@[8] == 'w',
        "audio/amr"@.len() == 9, "audio/amr"@[0] == 'a', "audio/amr"@[1] == 'u', "audio/amr"@[6] == 'a', "audio/amr"@[7] == 'm', "audio/amr"@[8] == 'r',
        "audio/aac"@.len() == 9, "audio/aac"@[0] == 'a', "audio/aac"@[1] == 'u', "audio/aac"@[6] == 'a', "audio/aac"@[7] == 'a', "audio/aac"@[8] == 'c',
        "audio/x-aiff"@.len() == 12, "audio/x-aiff"@[0] == 'a', "audio/x-aiff"@[1] == 'u', "audio/x-aiff"@[6] == 'x', "audio/x-aiff"@[7] == '-', "audio/x-aiff"@[8] == 'a',
        "audio/x-dsf"@.len() == 11, "audio/x-dsf"@[0] == 'a', "audio/x-dsf"@[1] == 'u', "audio/x-dsf"@[6] == 'x', "audio/x-dsf"@[7] == '-', "audio/x-dsf"@[8] == 'd',
        "audio/x-ape"@.len() == 11, "audio/x-ape"@[0] == 'a', "audio/x-ape"@[1] == 'u', "audio/x-ape"@[6] == 'x', "audio/x-ape"@[7] == '-', "audio/x-ape"@[8] == 'a',
{
    reveal_strlit("audio/midi");
    reveal_strlit("audio/mpeg");
    reveal_strlit("audio/m4a");
    reveal_strlit("audio/ogg");
    reveal_strlit("audio/x-flac");
    reveal_strlit("audio/x-wav");
    reveal_strlit("audio/amr");
    reveal_strlit("audio/aac");
    reveal_strlit("audio/x-aiff");
    reveal_strlit("audio/x-dsf");
    reveal_strlit("audio/x-ape");
}

proof fn book_literal_facts()
    ensures
        "application/epub+zip"@.len() == 20, "application/epub+zip"@[0] == 'a', "application/epub+zip"@[1] == 'p',
        "application/x-mobipocket-ebook"@.len() == 30, "application/x-mobipocket-ebook"@[0] == 'a', "application/x-mobipocket-ebook"@[1] == 'p',
{
    reveal_strlit("application/epub+zip");
    reveal_strlit("application/x-mobipocket-ebook");
}

proof fn document_literal_facts()
    ensures
        "application/msword"@.len() == 18, "application/msword"@[0] == 'a', "application/msword"@[1] == 'p', "application/msword"@[12] == 'm',
        "application/vnd.openxmlformats-officedocument.wordprocessingml.document"@.len() == 71, "application/vnd.openxmlformats-officedocument.wordprocessingml.document"@[0] == 'a', "application/vnd.openxmlformats-officedocument.wordprocessingml.document"@[1] == 'p', "application/vnd.openxmlformats-officedocument.wordprocessingml.document"@[12] == 'v',
        "application/vnd.ms-excel"@.len() == 24, "application/vnd.ms-excel"@[0] == 'a', "application/vnd.ms-excel"@[1] == 'p', "application/vnd.ms-excel"@[12] == 'v',
        "application/vnd.openxmlformats-officedocument.spreadsheetml.sheet"@.len() == 65, "application/vnd.openxmlformats-officedocument.spreadsheetml.sheet"@[0] == 'a', "application/vnd.openxmlformats-officedocument.spreadsheetml.sheet"@[1] == 'p', "application/vnd.openxmlformats-officedocument.spreadsheetml.sheet"@[12] == 'v',
        "application/vnd.ms-powerpoint"@.len() == 29, "application/vnd.ms-powerpoint"@[0] == 'a', "application/vnd.ms-powerpoint"@[1] == 'p', "application/vnd.ms-powerpoint"@[12] == 'v',
        "application/vnd.openxmlformats-officedocument.presentationml.presentation"@.len() == 73, "application/vnd.openxmlformats-officedocument.presentationml.presentation"@[0] == 'a', "application/vnd.openxmlformats-officedocument.presentationml.presentation"@[1] == 'p', "application/vnd.openxmlformats-officedocument.presentationml.presentation"@[12] == 'v',
        "application/vnd.oasis.opendocument.text"@.len() == 39, "application/vnd.oasis.opendocument.text"@[0] == 'a', "application/vnd.oasis.opendocument.text"@[1] == 'p', "application/vnd.oasis.opendocument.text"@[12] == 'v',
        "application/vnd.oasis.opendocument.spreadsheet"@.len() == 46, "application/vnd.oasis.opendocument.spreadsheet"@[0] == 'a', "application/vnd.oasis.opendocument.spreadsheet"@[1] == 'p', "application/vnd.oasis.opendocument.spreadsheet"@[12] == 'v',
        "application/vnd.oasis.opendocument.presentation"@.len() == 47, "application/vnd.oasis.opendocument.presentation"@[0] == 'a', "application/vnd.oasis.opendocument.presentation"@[1] == 'p', "application/vnd.oasis.opendocument.presentation"@[12] == 'v',
{
    reveal_strlit("application/msword");
    reveal_strlit("application/vnd.openxmlformats-officedocument.wordprocessingml.document");
    reveal_strlit("application/vnd.ms-excel");
    reveal_strlit("application/vnd.openxmlformats-officedocument.spreadsheetml.sheet");
    reveal_strlit("application/vnd.ms-powerpoint");
    reveal_strlit("application/vnd.openxmlformats-officedocument.presentationml.presentation");
    reveal_strlit("application/vnd.oasis.opendocument.text");
    reveal_strlit("application/vnd.oasis.opendocument.spreadsheet");
    reveal_strlit("application/vnd.oasis.opendocument.presentation");
}

proof fn font_literal_facts()
    ensures
        "application/font-sfnt"@.len() == 21, "application/font-sfnt"@[0] == 'a', "application/font-sfnt"@[1] == 'p', "application/font-sfnt"@[12] == 'f', "application/font-sfnt"@[17] == 's',
        "application/font-woff"@.len() == 21, "application/font-woff"@[0] == 'a', "application/font-woff"@[1] == 'p', "application/font-woff"@[12] == 'f', "application/font-woff"@[17] == 'w',
{
    reveal_strlit("application/font-sfnt");
    reveal_strlit("application/font-woff");
}

proof fn application_literal_facts()
    ensures
        "application/wasm"@.len() == 16, "application/wasm"@[0] == 'a', "application/wasm"@[1] == 'p', "application/wasm"@[12] == 'w', "application/wasm"@[13] == 'a',
        "application/vnd.microsoft.portable-executable"@.len() == 45, "application/vnd.microsoft.portable-executable"@[0] == 'a', "application/vnd.microsoft.portable-executable"@[1] == 'p', "application/vnd.microsoft.portable-executable"@[12] == 'v', "application/vnd.microsoft.portable-executable"@[13] == 'n', "application/vnd.microsoft.portable-executable"@[26] == 'p',
        "application/x-executable"@.len() == 24, "application/x-executable"@[0] == 'a', "application/x-executable"@[1] == 'p', "application/x-executable"@[12] == 'x', "application/x-executable"@[13] == '-',
        "application/llvm"@.len() == 16, "application/llvm"@[0] == 'a', "application/llvm"@[1] == 'p', "application/llvm"@[12] == 'l', "application/llvm"@[13] == 'l',
        "application/x-mach-binary"@.len() == 25, "application/x-mach-binary"@[0] == 'a', "application/x-mach-binary"@[1] == 'p', "application/x-mach-binary"@[12] == 'x', "application/x-mach-binary"@[13] == '-',
        "application/java"@.len() == 16, "application/java"@[0] == 'a', "application/java"@[1] == 'p', "application/java"@[12] == 'j', "application/java"@[13] == 'a',
        "application/vnd.android.dex"@.len() == 27, "application/vnd.android.dex"@[0] == 'a', "application/vnd.android.dex"@[1] == 'p', "application/vnd.android.dex"@[12] == 'v', "application/vnd.android.dex"@[13] == 'n', "application/vnd.android.dex"@[26] == 'x',
        "application/vnd.android.dey"@.len() == 27, "application/vnd.android.dey"@[0] == 'a', "application/vnd.android.dey"@[1] == 'p', "application/vnd.android.dey"@[12] == 'v', "application/vnd.android.dey"@[13] == 'n', "application/vnd.android.dey"@[26] == 'y',
        "application/x-x509-ca-cert"@.len() == 26, "application/x-x509-ca-cert"@[0] == 'a', "application/x-x509-ca-cert"@[1] == 'p', "application/x-x509-ca-cert"@[12] == 'x', "application/x-x509-ca-cert"@[13] == '-',
        "application/json"@.len() == 16, "application/json"@[0] == 'a', "application/json"@[1] == 'p', "application/json"@[12] == 'j', "application/json"@[13] == 's',
{
    reveal_strlit("application/wasm");
    reveal_strlit("application/vnd.microsoft.portable-executable");
    reveal_strlit("application/x-executable");
    reveal_strlit("application/llvm");
    reveal_strlit("application/x-mach-binary");
    reveal_strlit("application/java");
    reveal_strlit("application/vnd.android.dex");
    reveal_strlit("application/vnd.android.dey");
    reveal_strlit("application/x-x509-ca-cert");
    reveal_strlit("application/json");
}

proof fn round_trip_image(img: Image)
    ensures
        MimeType::from_mime_spec(img.mime_spec()) == Some(MimeType::Image(img)),
{
    image_literal_facts();
}

proof fn round_trip_video(vid: Video)
    ensures
        MimeType::from_mime_spec(vid.mime_spec()) == Some(MimeType::Video(vid)),
{
    image_literal_facts();
    video_literal_facts();
}

proof fn round_trip_audio(aud: Audio)
    ensures
        MimeType::from_mime_spec(aud.mime_spec()) == Some(MimeType::Audio(aud)),
{
    image_literal_facts();
    video_literal_facts();
    audio_literal_facts();
}

proof fn round_trip_book(book: Book)
    ensures
        MimeType::from_mime_spec(book.mime_spec()) == Some(MimeType::Book(book)),
{
    image_literal_facts();
    video_literal_facts();
    audio_literal_facts();
    book_literal_facts();
}

proof fn round_trip_document(doc: Document)
    ensures
        MimeType::from_mime_spec(doc.mime_spec()) == Some(MimeType::Document(doc)),
{
    image_literal_facts();
    video_literal_facts();
    audio_literal_facts();
    book_literal_facts();
    document_literal_facts();
}

proof fn round_trip_font(font: Font)
    requires
        font != Font::Otf,
        font != Font::Woff2,
    ensures
        MimeType::from_mime_spec(font.mime_spec()) == Some(MimeType::Font(font)),
{
    image_literal_facts();
    video_literal_facts();
    audio_literal_facts();
    book_literal_facts();
    document_literal_facts();
    font_literal_facts();
}

proof fn round_trip_application(app: Application)
    requires
        app != Application::Dll,
        app != Application::Obj,
    ensures
        MimeType::from_mime_spec(app.mime_spec()) == Some(MimeType::Application(app)),
{
    image_literal_facts();
    video_literal_facts();
    audio_literal_facts();
    book_literal_facts();
    document_literal_facts();
    font_literal_facts();
    application_literal_facts();
}

/// Round-trip law: for every format that is not lossy, looking its
/// canonical MIME string back up yields exactly that format.
pub proof fn lemma_mime_round_trip(m: MimeType)
    requires
        !m.is_lossy(),
    ensures
        MimeType::from_mime_spec(m.mime_spec()) == Some(m),
{
    match m {
        MimeType::Image(img) => round_trip_image(img),
        MimeType::Video(vid) => round_trip_video(vid),
        MimeType::Audio(aud) => round_trip_audio(aud),
        MimeType::Book(book) => round_trip_book(book),
        MimeType::Document(doc) => round_trip_document(doc),
        MimeType::Font(font) => round_trip_font(font),
        MimeType::Application(app) => round_trip_application(app),
    }
}

/// Round-trip law stated from the extension side: when an extension lookup
/// succeeds with a format that is not lossy, looking up that format's
/// canonical MIME string yields the same format back.
pub proof fn lemma_ext_round_trip(ext: Seq<char>, m: MimeType)
    requires
        MimeType::from_ext_spec(ext) == Some(m),
        !m.is_lossy(),
    ensures
        MimeType::from_mime_spec(m.mime_spec()) == Some(m),
{
    lemma_mime_round_trip(m);
}

/// Designated resolution of the lossy entries: each shared canonical MIME
/// string resolves back to the designated (earlier) variant of its
/// category, never to the later one.
pub proof fn lemma_lossy_resolution()
    ensures
        MimeType::from_mime_spec(Font::Otf.mime_spec()) == Some(MimeType::Font(Font::Ttf)),
        MimeType::from_mime_spec(Font::Woff2.mime_spec()) == Some(MimeType::Font(Font::Woff)),
        MimeType::from_mime_spec(Application::Dll.mime_spec()) == Some(
            MimeType::Application(Application::Exe),
        ),
        MimeType::from_mime_spec(Application::Obj.mime_spec()) == Some(
            MimeType::Application(Application::Elf),
        ),
{
    image_literal_facts();
    video_literal_facts();
    audio_literal_facts();
    book_literal_facts();
    document_literal_facts();
    font_literal_facts();
    application_literal_facts();
}

/// Category-precedence law for extension lookup: the categories are tried
/// in the fixed order image, video, audio, book, document, font,
/// application; the first category whose table recognizes the extension
/// decides the result, and the lookup is absent exactly when every
/// category misses.
pub proof fn lemma_ext_precedence(s: Seq<char>)
    ensures
        Image::from_ext_spec(s) is Some ==> MimeType::from_ext_spec(s) == Image::from_ext_spec(s),
        Image::from_ext_spec(s) is None && Video::from_ext_spec(s) is Some
            ==> MimeType::from_ext_spec(s) == Video::from_ext_spec(s),
        Image::from_ext_spec(s) is None && Video::from_ext_spec(s) is None
            && Audio::from_ext_spec(s) is Some ==> MimeType::from_ext_spec(s)
            == Audio::from_ext_spec(s),
        Image::from_ext_spec(s) is None && Video::from_ext_spec(s) is None
            && Audio::from_ext_spec(s) is None && Book::from_ext_spec(s) is Some
            ==> MimeType::from_ext_spec(s) == Book::from_ext_spec(s),
        Image::from_ext_spec(s) is None && Video::from_ext_spec(s) is None
            && Audio::from_ext_spec(s) is None && Book::from_ext_spec(s) is None
            && Document::from_ext_spec(s) is Some ==> MimeType::from_ext_spec(s)
            == Document::from_ext_spec(s),
        Image::from_ext_spec(s) is None && Video::from_ext_spec(s) is None
            && Audio::from_ext_spec(s) is None && Book::from_ext_spec(s) is None
            && Document::from_ext_spec(s) is None && Font::from_ext_spec(s) is Some
            ==> MimeType::from_ext_spec(s) == Font::from_ext_spec(s),
        Image::from_ext_spec(s) is None && Video::from_ext_spec(s) is None
            && Audio::from_ext_spec(s) is None && Book::from_ext_spec(s) is None
            && Document::from_ext_spec(s) is None && Font::from_ext_spec(s) is None
            ==> MimeType::from_ext_spec(s) == Application::from_ext_spec(s),
        MimeType::from_ext_spec(s) is None <==> Image::from_ext_spec(s) is None
            && Video::from_ext_spec(s) is None && Audio::from_ext_spec(s) is None
            && Book::from_ext_spec(s) is None && Document::from_ext_spec(s) is None
            && Font::from_ext_spec(s) is None && Application::from_ext_spec(s) is None,
{
}

/// Category-precedence law for MIME-string lookup, with the same fixed
/// order and the same first-match-wins rule as extension lookup.
pub proof fn lemma_mime_precedence(s: Seq<char>)
    ensures
        Image::from_mime_spec(s) is Some ==> MimeType::from_mime_spec(s) == Image::from_mime_spec(
            s,
        ),
        Image::from_mime_spec(s) is None && Video::from_mime_spec(s) is Some
            ==> MimeType::from_mime_spec(s) == Video::from_mime_spec(s),
        Image::from_mime_spec(s) is None && Video::from_mime_spec(s) is None
            && Audio::from_mime_spec(s) is Some ==> MimeType::from_mime_spec(s)
            == Audio::from_mime_spec(s),
        Image::from_mime_spec(s) is None && Video::from_mime_spec(s) is None
            && Audio::from_mime_spec(s) is None && Book::from_mime_spec(s) is Some
            ==> MimeType::from_mime_spec(s) == Book::from_mime_spec(s),
        Image::from_mime_spec(s) is None && Video::from_mime_spec(s) is None
            && Audio::from_mime_spec(s) is None && Book::from_mime_spec(s) is None
            && Document::from_mime_spec(s) is Some ==> MimeType::from_mime_spec(s)
            == Document::from_mime_spec(s),
        Image::from_mime_spec(s) is None && Video::from_mime_spec(s) is None
            && Audio::from_mime_spec(s) is None && Book::from_mime_spec(s) is None
            && Document::from_mime_spec(s) is None && Font::from_mime_spec(s) is Some
            ==> MimeType::from_mime_spec(s) == Font::from_mime_spec(s),
        Image::from_mime_spec(s) is None && Video::from_mime_spec(s) is None
            && Audio::from_mime_spec(s) is None && Book::from_mime_spec(s) is None
            && Document::from_mime_spec(s) is None && Font::from_mime_spec(s) is None
            ==> MimeType::from_mime_spec(s) == Application::from_mime_spec(s),
        MimeType::from_mime_spec(s) is None <==> Image::from_mime_spec(s) is None
            && Video::from_mime_spec(s) is None && Audio::from_mime_spec(s) is None
            && Book::from_mime_spec(s) is None && Document::from_mime_spec(s) is None
            && Font::from_mime_spec(s) is None && Application::from_mime_spec(s) is None,
{
}

} // verus!

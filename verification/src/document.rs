use vstd::prelude::*;

use crate::MimeType;
use crate::mime_format::MimeFormat;
use crate::strcmp::str_eq;

verus! {

/// Document file formats.
///
/// Supports Microsoft Office and OpenDocument formats.
#[derive(Clone, Copy, Debug, PartialEq, Eq, Structural)]
pub enum Document {
    /// Microsoft Word document
    Doc,
    /// Microsoft Word document (Office Open XML)
    Docx,
    /// Microsoft Excel spreadsheet
    Xls,
    /// Microsoft Excel spreadsheet (Office Open XML)
    Xlsx,
    /// Microsoft PowerPoint presentation
    Ppt,
    /// Microsoft PowerPoint presentation (Office Open XML)
    Pptx,
    /// OpenDocument text document
    Odt,
    /// OpenDocument spreadsheet
    Ods,
    /// OpenDocument presentation
    Odp,
}

impl Document {
    /// The canonical MIME string of this format, as a character sequence.
    pub open spec fn mime_spec(self) -> Seq<char> {
        match self {
            Document::Doc => "application/msword"@,
            Document::Docx => "application/vnd.openxmlformats-officedocument.wordprocessingml.document"@,
            Document::Xls => "application/vnd.ms-excel"@,
            Document::Xlsx => "application/vnd.openxmlformats-officedocument.spreadsheetml.sheet"@,
            Document::Ppt => "application/vnd.ms-powerpoint"@,
            Document::Pptx => "application/vnd.openxmlformats-officedocument.presentationml.presentation"@,
            Document::Odt => "application/vnd.oasis.opendocument.text"@,
            Document::Ods => "application/vnd.oasis.opendocument.spreadsheet"@,
            Document::Odp => "application/vnd.oasis.opendocument.presentation"@,
        }
    }

    /// The canonical MIME string of this format.
    pub fn as_str(&self) -> (r: &'static str)
        ensures
            r@ == self.mime_spec(),
    {
        match self {
            Document::Doc => "application/msword",
            Document::Docx => "application/vnd.openxmlformats-officedocument.wordprocessingml.document",
            Document::Xls => "application/vnd.ms-excel",
            Document::Xlsx => "application/vnd.openxmlformats-officedocument.spreadsheetml.sheet",
            Document::Ppt => "application/vnd.ms-powerpoint",
            Document::Pptx => "application/vnd.openxmlformats-officedocument.presentationml.presentation",
            Document::Odt => "application/vnd.oasis.opendocument.text",
            Document::Ods => "application/vnd.oasis.opendocument.spreadsheet",
            Document::Odp => "application/vnd.oasis.opendocument.presentation",
        }
    }
}

impl MimeFormat for Document {
    open spec fn from_ext_spec(ext: Seq<char>) -> Option<MimeType> {
        if ext == "doc"@ {
            Some(MimeType::Document(Document::Doc))
        } else if ext == "docx"@ {
            Some(MimeType::Document(Document::Docx))
        } else if ext == "xls"@ {
            Some(MimeType::Document(Document::Xls))
        } else if ext == "xlsx"@ {
            Some(MimeType::Document(Document::Xlsx))
        } else if ext == "ppt"@ {
            Some(MimeType::Document(Document::Ppt))
        } else if ext == "pptx"@ {
            Some(MimeType::Document(Document::Pptx))
        } else if ext == "odt"@ {
            Some(MimeType::Document(Document::Odt))
        } else if ext == "ods"@ {
            Some(MimeType::Document(Document::Ods))
        } else if ext == "odp"@ {
            Some(MimeType::Document(Document::Odp))
        } else {
            None
        }
    }

    open spec fn from_mime_spec(mime: Seq<char>) -> Option<MimeType> {
        if mime == "application/msword"@ {
            Some(MimeType::Document(Document::Doc))
        } else if mime == "application/vnd.openxmlformats-officedocument.wordprocessingml.document"@ {
            Some(MimeType::Document(Document::Docx))
        } else if mime == "application/vnd.ms-excel"@ {
            Some(MimeType::Document(Document::Xls))
        } else if mime == "application/vnd.openxmlformats-officedocument.spreadsheetml.sheet"@ {
            Some(MimeType::Document(Document::Xlsx))
        } else if mime == "application/vnd.ms-powerpoint"@ {
            Some(MimeType::Document(Document::Ppt))
        } else if mime == "application/vnd.openxmlformats-officedocument.presentationml.presentation"@ {
            Some(MimeType::Document(Document::Pptx))
        } else if mime == "application/vnd.oasis.opendocument.text"@ {
            Some(MimeType::Document(Document::Odt))
        } else if mime == "application/vnd.oasis.opendocument.spreadsheet"@ {
            Some(MimeType::Document(Document::Ods))
        } else if mime == "application/vnd.oasis.opendocument.presentation"@ {
            Some(MimeType::Document(Document::Odp))
        } else {
            None
        }
    }

    fn from_ext(ext: &str) -> (r: Option<MimeType>) {
        if str_eq(ext, "doc") {
            Some(MimeType::Document(Document::Doc))
        } else if str_eq(ext, "docx") {
            Some(MimeType::Document(Document::Docx))
        } else if str_eq(ext, "xls") {
            Some(MimeType::Document(Document::Xls))
        } else if str_eq(ext, "xlsx") {
            Some(MimeType::Document(Document::Xlsx))
        } else if str_eq(ext, "ppt") {
            Some(MimeType::Document(Document::Ppt))
        } else if str_eq(ext, "pptx") {
            Some(MimeType::Document(Document::Pptx))
        } else if str_eq(ext, "odt") {
            Some(MimeType::Document(Document::Odt))
        } else if str_eq(ext, "ods") {
            Some(MimeType::Document(Document::Ods))
        } else if str_eq(ext, "odp") {
            Some(MimeType::Document(Document::Odp))
        } else {
            None
        }
    }

    fn from_mime(mime: &str) -> (r: Option<MimeType>) {
        if str_eq(mime, "application/msword") {
            Some(MimeType::Document(Document::Doc))
        } else if str_eq(mime, "application/vnd.openxmlformats-officedocument.wordprocessingml.document") {
            Some(MimeType::Document(Document::Docx))
        } else if str_eq(mime, "application/vnd.ms-excel") {
            Some(MimeType::Document(Document::Xls))
        } else if str_eq(mime, "application/vnd.openxmlformats-officedocument.spreadsheetml.sheet") {
            Some(MimeType::Document(Document::Xlsx))
        } else if str_eq(mime, "application/vnd.ms-powerpoint") {
            Some(MimeType::Document(Document::Ppt))
        } else if str_eq(mime, "application/vnd.openxmlformats-officedocument.presentationml.presentation") {
            Some(MimeType::Document(Document::Pptx))
        } else if str_eq(mime, "application/vnd.oasis.opendocument.text") {
            Some(MimeType::Document(Document::Odt))
        } else if str_eq(mime, "application/vnd.oasis.opendocument.spreadsheet") {
            Some(MimeType::Document(Document::Ods))
        } else if str_eq(mime, "application/vnd.oasis.opendocument.presentation") {
            Some(MimeType::Document(Document::Odp))
        } else {
            None
        }
    }
}

} // verus!

use mime_type::{Application, Audio, Book, Document, Font, Image, MimeFormat, MimeType, Video};

#[test]
fn image_extension_lookup_and_canonical_string() {
    assert_eq!(MimeType::from_ext("jpg"), Some(MimeType::Image(Image::Jpeg)));
    assert_eq!(MimeType::from_ext("jpg").unwrap().as_str(), "image/jpeg");
    assert_eq!(MimeType::from_ext("jpeg"), Some(MimeType::Image(Image::Jpeg)));
    assert_eq!(MimeType::from_ext("jpeg").unwrap().as_str(), "image/jpeg");
    assert_eq!(MimeType::from_ext("png"), Some(MimeType::Image(Image::Png)));
    assert_eq!(MimeType::from_ext("png").unwrap().as_str(), "image/png");
    assert_eq!(MimeType::from_ext("gif"), Some(MimeType::Image(Image::Gif)));
    assert_eq!(MimeType::from_ext("gif").unwrap().as_str(), "image/gif");
    assert_eq!(MimeType::from_ext("webp"), Some(MimeType::Image(Image::Webp)));
    assert_eq!(MimeType::from_ext("webp").unwrap().as_str(), "image/webp");
    assert_eq!(MimeType::from_ext("cr2"), Some(MimeType::Image(Image::Cr2)));
    assert_eq!(MimeType::from_ext("cr2").unwrap().as_str(), "image/x-canon-cr2");
    assert_eq!(MimeType::from_ext("tif"), Some(MimeType::Image(Image::Tif)));
    assert_eq!(MimeType::from_ext("tif").unwrap().as_str(), "image/tiff");
    assert_eq!(MimeType::from_ext("tiff"), Some(MimeType::Image(Image::Tif)));
    assert_eq!(MimeType::from_ext("tiff").unwrap().as_str(), "image/tiff");
    assert_eq!(MimeType::from_ext("bmp"), Some(MimeType::Image(Image::Bmp)));
    assert_eq!(MimeType::from_ext("bmp").unwrap().as_str(), "image/bmp");
    assert_eq!(MimeType::from_ext("heif"), Some(MimeType::Image(Image::Heif)));
    assert_eq!(MimeType::from_ext("heif").unwrap().as_str(), "image/heif");
    assert_eq!(MimeType::from_ext("avif"), Some(MimeType::Image(Image::Avif)));
    assert_eq!(MimeType::from_ext("avif").unwrap().as_str(), "image/avif");
    assert_eq!(MimeType::from_ext("jxr"), Some(MimeType::Image(Image::Jxr)));
    assert_eq!(MimeType::from_ext("jxr").unwrap().as_str(), "image/vnd.ms-photo");
    assert_eq!(MimeType::from_ext("psd"), Some(MimeType::Image(Image::Psd)));
    assert_eq!(MimeType::from_ext("psd").unwrap().as_str(), "image/vnd.adobe.photoshop");
    assert_eq!(MimeType::from_ext("ico"), Some(MimeType::Image(Image::Ico)));
    assert_eq!(MimeType::from_ext("ico").unwrap().as_str(), "image/vnd.microsoft.icon");
    assert_eq!(MimeType::from_ext("ora"), Some(MimeType::Image(Image::Ora)));
    assert_eq!(MimeType::from_ext("ora").unwrap().as_str(), "image/openraster");
    assert_eq!(MimeType::from_ext("djvu"), Some(MimeType::Image(Image::Djvu)));
    assert_eq!(MimeType::from_ext("djvu").unwrap().as_str(), "image/vnd.djvu");
}

#[test]
fn image_mime_string_lookup() {
    assert_eq!(MimeType::from_mime("image/jpeg"), Some(MimeType::Image(Image::Jpeg)));
    assert_eq!(MimeType::from_mime("image/png"), Some(MimeType::Image(Image::Png)));
    assert_eq!(MimeType::from_mime("image/gif"), Some(MimeType::Image(Image::Gif)));
    assert_eq!(MimeType::from_mime("image/webp"), Some(MimeType::Image(Image::Webp)));
    assert_eq!(MimeType::from_mime("image/x-canon-cr2"), Some(MimeType::Image(Image::Cr2)));
    assert_eq!(MimeType::from_mime("image/tiff"), Some(MimeType::Image(Image::Tif)));
    assert_eq!(MimeType::from_mime("image/bmp"), Some(MimeType::Image(Image::Bmp)));
    assert_eq!(MimeType::from_mime("image/heif"), Some(MimeType::Image(Image::Heif)));
    assert_eq!(MimeType::from_mime("image/avif"), Some(MimeType::Image(Image::Avif)));
    assert_eq!(MimeType::from_mime("image/vnd.ms-photo"), Some(MimeType::Image(Image::Jxr)));
    assert_eq!(MimeType::from_mime("image/vnd.adobe.photoshop"), Some(MimeType::Image(Image::Psd)));
    assert_eq!(MimeType::from_mime("image/vnd.microsoft.icon"), Some(MimeType::Image(Image::Ico)));
    assert_eq!(MimeType::from_mime("image/openraster"), Some(MimeType::Image(Image::Ora)));
    assert_eq!(MimeType::from_mime("image/vnd.djvu"), Some(MimeType::Image(Image::Djvu)));
}

#[test]
fn video_extension_lookup_and_canonical_string() {
    assert_eq!(MimeType::from_ext("mp4"), Some(MimeType::Video(Video::Mp4)));
    assert_eq!(MimeType::from_ext("mp4").unwrap().as_str(), "video/mp4");
    assert_eq!(MimeType::from_ext("m4v"), Some(MimeType::Video(Video::M4v)));
    assert_eq!(MimeType::from_ext("m4v").unwrap().as_str(), "video/x-m4v");
    assert_eq!(MimeType::from_ext("mkv"), Some(MimeType::Video(Video::Mkv)));
    assert_eq!(MimeType::from_ext("mkv").unwrap().as_str(), "video/x-matroska");
    assert_eq!(MimeType::from_ext("webm"), Some(MimeType::Video(Video::Webm)));
    assert_eq!(MimeType::from_ext("webm").unwrap().as_str(), "video/webm");
    assert_eq!(MimeType::from_ext("mov"), Some(MimeType::Video(Video::Mov)));
    assert_eq!(MimeType::from_ext("mov").unwrap().as_str(), "video/quicktime");
    assert_eq!(MimeType::from_ext("avi"), Some(MimeType::Video(Video::Avi)));
    assert_eq!(MimeType::from_ext("avi").unwrap().as_str(), "video/x-msvideo");
    assert_eq!(MimeType::from_ext("wmv"), Some(MimeType::Video(Video::Wmv)));
    assert_eq!(MimeType::from_ext("wmv").unwrap().as_str(), "video/x-ms-wmv");
    assert_eq!(MimeType::from_ext("mpg"), Some(MimeType::Video(Video::Mpg)));
    assert_eq!(MimeType::from_ext("mpg").unwrap().as_str(), "video/mpeg");
    assert_eq!(MimeType::from_ext("mpeg"), Some(MimeType::Video(Video::Mpg)));
    assert_eq!(MimeType::from_ext("mpeg").unwrap().as_str(), "video/mpeg");
    assert_eq!(MimeType::from_ext("flv"), Some(MimeType::Video(Video::Flv)));
    assert_eq!(MimeType::from_ext("flv").unwrap().as_str(), "video/x-flv");
}

#[test]
fn video_mime_string_lookup() {
    assert_eq!(MimeType::from_mime("video/mp4"), Some(MimeType::Video(Video::Mp4)));
    assert_eq!(MimeType::from_mime("video/x-m4v"), Some(MimeType::Video(Video::M4v)));
    assert_eq!(MimeType::from_mime("video/x-matroska"), Some(MimeType::Video(Video::Mkv)));
    assert_eq!(MimeType::from_mime("video/webm"), Some(MimeType::Video(Video::Webm)));
    assert_eq!(MimeType::from_mime("video/quicktime"), Some(MimeType::Video(Video::Mov)));
    assert_eq!(MimeType::from_mime("video/x-msvideo"), Some(MimeType::Video(Video::Avi)));
    assert_eq!(MimeType::from_mime("video/x-ms-wmv"), Some(MimeType::Video(Video::Wmv)));
    assert_eq!(MimeType::from_mime("video/mpeg"), Some(MimeType::Video(Video::Mpg)));
    assert_eq!(MimeType::from_mime("video/x-flv"), Some(MimeType::Video(Video::Flv)));
}

#[test]
fn audio_extension_lookup_and_canonical_string() {
    assert_eq!(MimeType::from_ext("midi"), Some(MimeType::Audio(Audio::Midi)));
    assert_eq!(MimeType::from_ext("midi").unwrap().as_str(), "audio/midi");
    assert_eq!(MimeType::from_ext("mid"), Some(MimeType::Audio(Audio::Midi)));
    assert_eq!(MimeType::from_ext("mid").unwrap().as_str(), "audio/midi");
    assert_eq!(MimeType::from_ext("mp3"), Some(MimeType::Audio(Audio::Mpeg)));
    assert_eq!(MimeType::from_ext("mp3").unwrap().as_str(), "audio/mpeg");
    assert_eq!(MimeType::from_ext("m4a"), Some(MimeType::Audio(Audio::M4a)));
    assert_eq!(MimeType::from_ext("m4a").unwrap().as_str(), "audio/m4a");
    assert_eq!(MimeType::from_ext("ogg"), Some(MimeType::Audio(Audio::Ogg)));
    assert_eq!(MimeType::from_ext("ogg").unwrap().as_str(), "audio/ogg");
    assert_eq!(MimeType::from_ext("flac"), Some(MimeType::Audio(Audio::Flac)));
    assert_eq!(MimeType::from_ext("flac").unwrap().as_str(), "audio/x-flac");
    assert_eq!(MimeType::from_ext("wav"), Some(MimeType::Audio(Audio::Wav)));
    assert_eq!(MimeType::from_ext("wav").unwrap().as_str(), "audio/x-wav");
    assert_eq!(MimeType::from_ext("amr"), Some(MimeType::Audio(Audio::Amr)));
    assert_eq!(MimeType::from_ext("amr").unwrap().as_str(), "audio/amr");
    assert_eq!(MimeType::from_ext("aac"), Some(MimeType::Audio(Audio::Aac)));
    assert_eq!(MimeType::from_ext("aac").unwrap().as_str(), "audio/aac");
    assert_eq!(MimeType::from_ext("aiff"), Some(MimeType::Audio(Audio::Aiff)));
    assert_eq!(MimeType::from_ext("aiff").unwrap().as_str(), "audio/x-aiff");
    assert_eq!(MimeType::from_ext("aif"), Some(MimeType::Audio(Audio::Aiff)));
    assert_eq!(MimeType::from_ext("aif").unwrap().as_str(), "audio/x-aiff");
    assert_eq!(MimeType::from_ext("dsf"), Some(MimeType::Audio(Audio::Dsf)));
    assert_eq!(MimeType::from_ext("dsf").unwrap().as_str(), "audio/x-dsf");
    assert_eq!(MimeType::from_ext("ape"), Some(MimeType::Audio(Audio::Ape)));
    assert_eq!(MimeType::from_ext("ape").unwrap().as_str(), "audio/x-ape");
}

#[test]
fn audio_mime_string_lookup() {
    assert_eq!(MimeType::from_mime("audio/midi"), Some(MimeType::Audio(Audio::Midi)));
    assert_eq!(MimeType::from_mime("audio/mpeg"), Some(MimeType::Audio(Audio::Mpeg)));
    assert_eq!(MimeType::from_mime("audio/m4a"), Some(MimeType::Audio(Audio::M4a)));
    assert_eq!(MimeType::from_mime("audio/ogg"), Some(MimeType::Audio(Audio::Ogg)));
    assert_eq!(MimeType::from_mime("audio/x-flac"), Some(MimeType::Audio(Audio::Flac)));
    assert_eq!(MimeType::from_mime("audio/x-wav"), Some(MimeType::Audio(Audio::Wav)));
    assert_eq!(MimeType::from_mime("audio/amr"), Some(MimeType::Audio(Audio::Amr)));
    assert_eq!(MimeType::from_mime("audio/aac"), Some(MimeType::Audio(Audio::Aac)));
    assert_eq!(MimeType::from_mime("audio/x-aiff"), Some(MimeType::Audio(Audio::Aiff)));
    assert_eq!(MimeType::from_mime("audio/x-dsf"), Some(MimeType::Audio(Audio::Dsf)));
    assert_eq!(MimeType::from_mime("audio/x-ape"), Some(MimeType::Audio(Audio::Ape)));
}

#[test]
fn book_extension_lookup_and_canonical_string() {
    assert_eq!(MimeType::from_ext("epub"), Some(MimeType::Book(Book::Epub)));
    assert_eq!(MimeType::from_ext("epub").unwrap().as_str(), "application/epub+zip");
    assert_eq!(MimeType::from_ext("mobi"), Some(MimeType::Book(Book::Mobi)));
    assert_eq!(MimeType::from_ext("mobi").unwrap().as_str(), "application/x-mobipocket-ebook");
}

#[test]
fn book_mime_string_lookup() {
    assert_eq!(MimeType::from_mime("application/epub+zip"), Some(MimeType::Book(Book::Epub)));
    assert_eq!(MimeType::from_mime("application/x-mobipocket-ebook"), Some(MimeType::Book(Book::Mobi)));
}

#[test]
fn document_extension_lookup_and_canonical_string() {
    assert_eq!(MimeType::from_ext("doc"), Some(MimeType::Document(Document::Doc)));
    assert_eq!(MimeType::from_ext("doc").unwrap().as_str(), "application/msword");
    assert_eq!(MimeType::from_ext("docx"), Some(MimeType::Document(Document::Docx)));
    assert_eq!(MimeType::from_ext("docx").unwrap().as_str(), "application/vnd.openxmlformats-officedocument.wordprocessingml.document");
    assert_eq!(MimeType::from_ext("xls"), Some(MimeType::Document(Document::Xls)));
    assert_eq!(MimeType::from_ext("xls").unwrap().as_str(), "application/vnd.ms-excel");
    assert_eq!(MimeType::from_ext("xlsx"), Some(MimeType::Document(Document::Xlsx)));
    assert_eq!(MimeType::from_ext("xlsx").unwrap().as_str(), "application/vnd.openxmlformats-officedocument.spreadsheetml.sheet");
    assert_eq!(MimeType::from_ext("ppt"), Some(MimeType::Document(Document::Ppt)));
    assert_eq!(MimeType::from_ext("ppt").unwrap().as_str(), "application/vnd.ms-powerpoint");
    assert_eq!(MimeType::from_ext("pptx"), Some(MimeType::Document(Document::Pptx)));
    assert_eq!(MimeType::from_ext("pptx").unwrap().as_str(), "application/vnd.openxmlformats-officedocument.presentationml.presentation");
    assert_eq!(MimeType::from_ext("odt"), Some(MimeType::Document(Document::Odt)));
    assert_eq!(MimeType::from_ext("odt").unwrap().as_str(), "application/vnd.oasis.opendocument.text");
    assert_eq!(MimeType::from_ext("ods"), Some(MimeType::Document(Document::Ods)));
    assert_eq!(MimeType::from_ext("ods").unwrap().as_str(), "application/vnd.oasis.opendocument.spreadsheet");
    assert_eq!(MimeType::from_ext("odp"), Some(MimeType::Document(Document::Odp)));
    assert_eq!(MimeType::from_ext("odp").unwrap().as_str(), "application/vnd.oasis.opendocument.presentation");
}

#[test]
fn document_mime_string_lookup() {
    assert_eq!(MimeType::from_mime("application/msword"), Some(MimeType::Document(Document::Doc)));
    assert_eq!(MimeType::from_mime("application/vnd.openxmlformats-officedocument.wordprocessingml.document"), Some(MimeType::Document(Document::Docx)));
    assert_eq!(MimeType::from_mime("application/vnd.ms-excel"), Some(MimeType::Document(Document::Xls)));
    assert_eq!(MimeType::from_mime("application/vnd.openxmlformats-officedocument.spreadsheetml.sheet"), Some(MimeType::Document(Document::Xlsx)));
    assert_eq!(MimeType::from_mime("application/vnd.ms-powerpoint"), Some(MimeType::Document(Document::Ppt)));
    assert_eq!(MimeType::from_mime("application/vnd.openxmlformats-officedocument.presentationml.presentation"), Some(MimeType::Document(Document::Pptx)));
    assert_eq!(MimeType::from_mime("application/vnd.oasis.opendocument.text"), Some(MimeType::Document(Document::Odt)));
    assert_eq!(MimeType::from_mime("application/vnd.oasis.opendocument.spreadsheet"), Some(MimeType::Document(Document::Ods)));
    assert_eq!(MimeType::from_mime("application/vnd.oasis.opendocument.presentation"), Some(MimeType::Document(Document::Odp)));
}

#[test]
fn font_extension_lookup_and_canonical_string() {
    assert_eq!(MimeType::from_ext("ttf"), Some(MimeType::Font(Font::Ttf)));
    assert_eq!(MimeType::from_ext("ttf").unwrap().as_str(), "application/font-sfnt");
    assert_eq!(MimeType::from_ext("otf"), Some(MimeType::Font(Font::Otf)));
    assert_eq!(MimeType::from_ext("otf").unwrap().as_str(), "application/font-sfnt");
    assert_eq!(MimeType::from_ext("woff"), Some(MimeType::Font(Font::Woff)));
    assert_eq!(MimeType::from_ext("woff").unwrap().as_str(), "application/font-woff");
    assert_eq!(MimeType::from_ext("woff2"), Some(MimeType::Font(Font::Woff2)));
    assert_eq!(MimeType::from_ext("woff2").unwrap().as_str(), "application/font-woff");
}

#[test]
fn font_mime_string_lookup() {
    assert_eq!(MimeType::from_mime("application/font-sfnt"), Some(MimeType::Font(Font::Ttf)));
    assert_eq!(MimeType::from_mime("application/font-woff"), Some(MimeType::Font(Font::Woff)));
}

#[test]
fn application_extension_lookup_and_canonical_string() {
    assert_eq!(MimeType::from_ext("wasm"), Some(MimeType::Application(Application::Wasm)));
    assert_eq!(MimeType::from_ext("wasm").unwrap().as_str(), "application/wasm");
    assert_eq!(MimeType::from_ext("exe"), Some(MimeType::Application(Application::Exe)));
    assert_eq!(MimeType::from_ext("exe").unwrap().as_str(), "application/vnd.microsoft.portable-executable");
    assert_eq!(MimeType::from_ext("dll"), Some(MimeType::Application(Application::Dll)));
    assert_eq!(MimeType::from_ext("dll").unwrap().as_str(), "application/vnd.microsoft.portable-executable");
    assert_eq!(MimeType::from_ext("elf"), Some(MimeType::Application(Application::Elf)));
    assert_eq!(MimeType::from_ext("elf").unwrap().as_str(), "application/x-executable");
    assert_eq!(MimeType::from_ext("bc"), Some(MimeType::Application(Application::Bc)));
    assert_eq!(MimeType::from_ext("bc").unwrap().as_str(), "application/llvm");
    assert_eq!(MimeType::from_ext("mach"), Some(MimeType::Application(Application::Mach)));
    assert_eq!(MimeType::from_ext("mach").unwrap().as_str(), "application/x-mach-binary");
    assert_eq!(MimeType::from_ext("class"), Some(MimeType::Application(Application::Class)));
    assert_eq!(MimeType::from_ext("class").unwrap().as_str(), "application/java");
    assert_eq!(MimeType::from_ext("dex"), Some(MimeType::Application(Application::Dex)));
    assert_eq!(MimeType::from_ext("dex").unwrap().as_str(), "application/vnd.android.dex");
    assert_eq!(MimeType::from_ext("dey"), Some(MimeType::Application(Application::Dey)));
    assert_eq!(MimeType::from_ext("dey").unwrap().as_str(), "application/vnd.android.dey");
    assert_eq!(MimeType::from_ext("der"), Some(MimeType::Application(Application::Der)));
    assert_eq!(MimeType::from_ext("der").unwrap().as_str(), "application/x-x509-ca-cert");
    assert_eq!(MimeType::from_ext("obj"), Some(MimeType::Application(Application::Obj)));
    assert_eq!(MimeType::from_ext("obj").unwrap().as_str(), "application/x-executable");
    assert_eq!(MimeType::from_ext("json"), Some(MimeType::Application(Application::Json)));
    assert_eq!(MimeType::from_ext("json").unwrap().as_str(), "application/json");
}

#[test]
fn application_mime_string_lookup() {
    assert_eq!(MimeType::from_mime("application/wasm"), Some(MimeType::Application(Application::Wasm)));
    assert_eq!(MimeType::from_mime("application/vnd.microsoft.portable-executable"), Some(MimeType::Application(Application::Exe)));
    assert_eq!(MimeType::from_mime("application/x-executable"), Some(MimeType::Application(Application::Elf)));
    assert_eq!(MimeType::from_mime("application/llvm"), Some(MimeType::Application(Application::Bc)));
    assert_eq!(MimeType::from_mime("application/x-mach-binary"), Some(MimeType::Application(Application::Mach)));
    assert_eq!(MimeType::from_mime("application/java"), Some(MimeType::Application(Application::Class)));
    assert_eq!(MimeType::from_mime("application/vnd.android.dex"), Some(MimeType::Application(Application::Dex)));
    assert_eq!(MimeType::from_mime("application/vnd.android.dey"), Some(MimeType::Application(Application::Dey)));
    assert_eq!(MimeType::from_mime("application/x-x509-ca-cert"), Some(MimeType::Application(Application::Der)));
    assert_eq!(MimeType::from_mime("application/json"), Some(MimeType::Application(Application::Json)));
}


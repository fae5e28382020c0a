use vstd::prelude::*;

use crate::MimeType;
use crate::mime_format::MimeFormat;
use crate::strcmp::str_eq;

verus! {

/// Audio file formats.
///
/// Supports common audio formats including lossy and lossless codecs.
#[derive(Clone, Copy, Debug, PartialEq, Eq, Structural)]
pub enum Audio {
    /// MIDI audio format
    Midi,
    /// MPEG audio (MP3)
    Mpeg,
    /// MPEG-4 audio format
    M4a,
    /// OGG Vorbis audio format
    Ogg,
    /// FLAC lossless audio format
    Flac,
    /// WAV audio format
    Wav,
    /// AMR audio format
    Amr,
    /// AAC audio format
    Aac,
    /// AIFF audio format
    Aiff,
    /// DSF audio format
    Dsf,
    /// APE audio format
    Ape,
}

impl Audio {
    /// The canonical MIME string of this format, as a character sequence.
    pub open spec fn mime_spec(self) -> Seq<char> {
        match self {
            Audio::Midi => "audio/midi"@,
            Audio::Mpeg => "audio/mpeg"@,
            Audio::M4a => "audio/m4a"@,
            Audio::Ogg => "audio/ogg"@,
            Audio::Flac => "audio/x-flac"@,
            Audio::Wav => "audio/x-wav"@,
            Audio::Amr => "audio/amr"@,
            Audio::Aac => "audio/aac"@,
            Audio::Aiff => "audio/x-aiff"@,
            Audio::Dsf => "audio/x-dsf"@,
            Audio::Ape => "audio/x-ape"@,
        }
    }

    /// The canonical MIME string of this format.
    pub fn as_str(&self) -> (r: &'static str)
        ensures
            r@ == self.mime_spec(),
    {
        match self {
            Audio::Midi => "audio/midi",
            Audio::Mpeg => "audio/mpeg",
            Audio::M4a => "audio/m4a",
            Audio::Ogg => "audio/ogg",
            Audio::Flac => "audio/x-flac",
            Audio::Wav => "audio/x-wav",
            Audio::Amr => "audio/amr",
            Audio::Aac => "audio/aac",
            Audio::Aiff => "audio/x-aiff",
            Audio::Dsf => "audio/x-dsf",
            Audio::Ape => "audio/x-ape",
        }
    }
}

impl MimeFormat for Audio {
    open spec fn from_ext_spec(ext: Seq<char>) -> Option<MimeType> {
        if ext == "midi"@ || ext == "mid"@ {
            Some(MimeType::Audio(Audio::Midi))
        } else if ext == "mp3"@ {
            Some(MimeType::Audio(Audio::Mpeg))
        } else if ext == "m4a"@ {
            Some(MimeType::Audio(Audio::M4a))
        } else if ext == "ogg"@ {
            Some(MimeType::Audio(Audio::Ogg))
        } else if ext == "flac"@ {
            Some(MimeType::Audio(Audio::Flac))
        } else if ext == "wav"@ {
            Some(MimeType::Audio(Audio::Wav))
        } else if ext == "amr"@ {
            Some(MimeType::Audio(Audio::Amr))
        } else if ext == "aac"@ {
            Some(MimeType::Audio(Audio::Aac))
        } else if ext == "aiff"@ || ext == "aif"@ {
            Some(MimeType::Audio(Audio::Aiff))
        } else if ext == "dsf"@ {
            Some(MimeType::Audio(Audio::Dsf))
        } else if ext == "ape"@ {
            Some(MimeType::Audio(Audio::Ape))
        } else {
            None
        }
    }

    open spec fn from_mime_spec(mime: Seq<char>) -> Option<MimeType> {
        if mime == "audio/midi"@ {
            Some(MimeType::Audio(Audio::Midi))
        } else if mime == "audio/mpeg"@ {
            Some(MimeType::Audio(Audio::Mpeg))
        } else if mime == "audio/m4a"@ {
            Some(MimeType::Audio(Audio::M4a))
        } else if mime == "audio/ogg"@ {
            Some(MimeType::Audio(Audio::Ogg))
        } else if mime == "audio/x-flac"@ {
            Some(MimeType::Audio(Audio::Flac))
        } else if mime == "audio/x-wav"@ {
            Some(MimeType::Audio(Audio::Wav))
        } else if mime == "audio/amr"@ {
            Some(MimeType::Audio(Audio::Amr))
        } else if mime == "audio/aac"@ {
            Some(MimeType::Audio(Audio::Aac))
        } else if mime == "audio/x-aiff"@ {
            Some(MimeType::Audio(Audio::Aiff))
        } else if mime == "audio/x-dsf"@ {
            Some(MimeType::Audio(Audio::Dsf))
        } else if mime == "audio/x-ape"@ {
            Some(MimeType::Audio(Audio::Ape))
        } else {
            None
        }
    }

    fn from_ext(ext: &str) -> (r: Option<MimeType>) {
        if str_eq(ext, "midi") || str_eq(ext, "mid") {
            Some(MimeType::Audio(Audio::Midi))
        } else if str_eq(ext, "mp3") {
            Some(MimeType::Audio(Audio::Mpeg))
        } else if str_eq(ext, "m4a") {
            Some(MimeType::Audio(Audio::M4a))
        } else if str_eq(ext, "ogg") {
            Some(MimeType::Audio(Audio::Ogg))
        } else if str_eq(ext, "flac") {
            Some(MimeType::Audio(Audio::Flac))
        } else if str_eq(ext, "wav") {
            Some(MimeType::Audio(Audio::Wav))
        } else if str_eq(ext, "amr") {
            Some(MimeType::Audio(Audio::Amr))
        } else if str_eq(ext, "aac") {
            Some(MimeType::Audio(Audio::Aac))
        } else if str_eq(ext, "aiff") || str_eq(ext, "aif") {
            Some(MimeType::Audio(Audio::Aiff))
        } else if str_eq(ext, "dsf") {
            Some(MimeType::Audio(Audio::Dsf))
        } else if str_eq(ext, "ape") {
            Some(MimeType::Audio(Audio::Ape))
        } else {
            None
        }
    }

    fn from_mime(mime: &str) -> (r: Option<MimeType>) {
        if str_eq(mime, "audio/midi") {
            Some(MimeType::Audio(Audio::Midi))
        } else if str_eq(mime, "audio/mpeg") {
            Some(MimeType::Audio(Audio::Mpeg))
        } else if str_eq(mime, "audio/m4a") {
            Some(MimeType::Audio(Audio::M4a))
        } else if str_eq(mime, "audio/ogg") {
            Some(MimeType::Audio(Audio::Ogg))
        } else if str_eq(mime, "audio/x-flac") {
            Some(MimeType::Audio(Audio::Flac))
        } else if str_eq(mime, "audio/x-wav") {
            Some(MimeType::Audio(Audio::Wav))
        } else if str_eq(mime, "audio/amr") {
            Some(MimeType::Audio(Audio::Amr))
        } else if str_eq(mime, "audio/aac") {
            Some(MimeType::Audio(Audio::Aac))
        } else if str_eq(mime, "audio/x-aiff") {
            Some(MimeType::Audio(Audio::Aiff))
        } else if str_eq(mime, "audio/x-dsf") {
            Some(MimeType::Audio(Audio::Dsf))
        } else if str_eq(mime, "audio/x-ape") {
            Some(MimeType::Audio(Audio::Ape))
        } else {
            None
        }
    }
}

} // verus!

use vstd::prelude::*;

use crate::MimeType;
use crate::mime_format::MimeFormat;
use crate::strcmp::str_eq;

verus! {

/// Application and executable file formats.
///
/// Supports various executable and binary application formats.
///
/// The forward mapping to MIME strings is lossy here: `Exe` and `Dll` share
/// the canonical string `application/vnd.microsoft.portable-executable`,
/// and `Elf` and `Obj` share `application/x-executable`. Reverse lookup
/// resolves each shared string to its designated variant (`Exe`,
/// respectively `Elf`).
#[derive(Clone, Copy, Debug, PartialEq, Eq, Structural)]
pub enum Application {
    /// WebAssembly binary format
    Wasm,
    /// Windows executable format
    Exe,
    /// Windows dynamic link library
    Dll,
    /// Executable and Linkable Format (Linux/Unix)
    Elf,
    /// LLVM bitcode format
    Bc,
    /// Mach-O binary format (macOS)
    Mach,
    /// Java class file
    Class,
    /// Dalvik executable format (Android)
    Dex,
    /// Optimized Dalvik executable (Android)
    Dey,
    /// X.509 certificate (DER encoded)
    Der,
    /// Object file format
    Obj,
    /// Javascript Object Notation
    Json,
}

impl Application {
    /// The canonical MIME string of this format, as a character sequence.
    pub open spec fn mime_spec(self) -> Seq<char> {
        match self {
            Application::Wasm => "application/wasm"@,
            Application::Exe => "application/vnd.microsoft.portable-executable"@,
            Application::Dll => "application/vnd.microsoft.portable-executable"@,
            Application::Elf => "application/x-executable"@,
            Application::Bc => "application/llvm"@,
            Application::Mach => "application/x-mach-binary"@,
            Application::Class => "application/java"@,
            Application::Dex => "application/vnd.android.dex"@,
            Application::Dey => "application/vnd.android.dey"@,
            Application::Der => "application/x-x509-ca-cert"@,
            Application::Obj => "application/x-executable"@,
            Application::Json => "application/json"@,
        }
    }

    /// The canonical MIME string of this format.
    pub fn as_str(&self) -> (r: &'static str)
        ensures
            r@ == self.mime_spec(),
    {
        match self {
            Application::Wasm => "application/wasm",
            Application::Exe => "application/vnd.microsoft.portable-executable",
            Application::Dll => "application/vnd.microsoft.portable-executable",
            Application::Elf => "application/x-executable",
            Application::Bc => "application/llvm",
            Application::Mach => "application/x-mach-binary",
            Application::Class => "application/java",
            Application::Dex => "application/vnd.android.dex",
            Application::Dey => "application/vnd.android.dey",
            Application::Der => "application/x-x509-ca-cert",
            Application::Obj => "application/x-executable",
            Application::Json => "application/json",
        }
    }
}

impl MimeFormat for Application {
    open spec fn from_ext_spec(ext: Seq<char>) -> Option<MimeType> {
        if ext == "wasm"@ {
            Some(MimeType::Application(Application::Wasm))
        } else if ext == "exe"@ {
            Some(MimeType::Application(Application::Exe))
        } else if ext == "dll"@ {
            Some(MimeType::Application(Application::Dll))
        } else if ext == "elf"@ {
            Some(MimeType::Application(Application::Elf))
        } else if ext == "bc"@ {
            Some(MimeType::Application(Application::Bc))
        } else if ext == "mach"@ {
            Some(MimeType::Application(Application::Mach))
        } else if ext == "class"@ {
            Some(MimeType::Application(Application::Class))
        } else if ext == "dex"@ {
            Some(MimeType::Application(Application::Dex))
        } else if ext == "dey"@ {
            Some(MimeType::Application(Application::Dey))
        } else if ext == "der"@ {
            Some(MimeType::Application(Application::Der))
        } else if ext == "obj"@ {
            Some(MimeType::Application(Application::Obj))
        } else if ext == "json"@ {
            Some(MimeType::Application(Application::Json))
        } else {
            None
        }
    }

    open spec fn from_mime_spec(mime: Seq<char>) -> Option<MimeType> {
        if mime == "application/wasm"@ {
            Some(MimeType::Application(Application::Wasm))
        } else if mime == "application/vnd.microsoft.portable-executable"@ {
            Some(MimeType::Application(Application::Exe))
        } else if mime == "application/x-executable"@ {
            Some(MimeType::Application(Application::Elf))
        } else if mime == "application/llvm"@ {
            Some(MimeType::Application(Application::Bc))
        } else if mime == "application/x-mach-binary"@ {
            Some(MimeType::Application(Application::Mach))
        } else if mime == "application/java"@ {
            Some(MimeType::Application(Application::Class))
        } else if mime == "application/vnd.android.dex"@ {
            Some(MimeType::Application(Application::Dex))
        } else if mime == "application/vnd.android.dey"@ {
            Some(MimeType::Application(Application::Dey))
        } else if mime == "application/x-x509-ca-cert"@ {
            Some(MimeType::Application(Application::Der))
        } else if mime == "application/json"@ {
            Some(MimeType::Application(Application::Json))
        } else {
            None
        }
    }

    fn from_ext(ext: &str) -> (r: Option<MimeType>) {
        if str_eq(ext, "wasm") {
            Some(MimeType::Application(Application::Wasm))
        } else if str_eq(ext, "exe") {
            Some(MimeType::Application(Application::Exe))
        } else if str_eq(ext, "dll") {
            Some(MimeType::Application(Application::Dll))
        } else if str_eq(ext, "elf") {
            Some(MimeType::Application(Application::Elf))
        } else if str_eq(ext, "bc") {
            Some(MimeType::Application(Application::Bc))
        } else if str_eq(ext, "mach") {
            Some(MimeType::Application(Application::Mach))
        } else if str_eq(ext, "class") {
            Some(MimeType::Application(Application::Class))
        } else if str_eq(ext, "dex") {
            Some(MimeType::Application(Application::Dex))
        } else if str_eq(ext, "dey") {
            Some(MimeType::Application(Application::Dey))
        } else if str_eq(ext, "der") {
            Some(MimeType::Application(Application::Der))
        } else if str_eq(ext, "obj") {
            Some(MimeType::Application(Application::Obj))
        } else if str_eq(ext, "json") {
            Some(MimeType::Application(Application::Json))
        } else {
            None
        }
    }

    fn from_mime(mime: &str) -> (r: Option<MimeType>) {
        if str_eq(mime, "application/wasm") {
            Some(MimeType::Application(Application::Wasm))
        } else if str_eq(mime, "application/vnd.microsoft.portable-executable") {
            Some(MimeType::Application(Application::Exe))
        } else if str_eq(mime, "application/x-executable") {
            Some(MimeType::Application(Application::Elf))
        } else if str_eq(mime, "application/llvm") {
            Some(MimeType::Application(Application::Bc))
        } else if str_eq(mime, "application/x-mach-binary") {
            Some(MimeType::Application(Application::Mach))
        } else if str_eq(mime, "application/java") {
            Some(MimeType::Application(Application::Class))
        } else if str_eq(mime, "application/vnd.android.dex") {
            Some(MimeType::Application(Application::Dex))
        } else if str_eq(mime, "application/vnd.android.dey") {
            Some(MimeType::Application(Application::Dey))
        } else if str_eq(mime, "application/x-x509-ca-cert") {
            Some(MimeType::Application(Application::Der))
        } else if str_eq(mime, "application/json") {
            Some(MimeType::Application(Application::Json))
        } else {
            None
        }
    }
}

} // verus!

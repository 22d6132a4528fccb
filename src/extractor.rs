//! Extractor kinds, the tables that classify content into them, and the rules
//! every extraction backend shares.

use vstd::prelude::*;

use crate::text::{ascii_lower, str_eq, to_ascii_lower, trim_spec, trim_text};
use crate::validate::ValidationError;

pub mod html;
pub mod pandoc;
pub mod pdf;
pub mod whisper;

verus! {

/// Name of the normalized text artifact inside the working directory.
pub const EXTRACTED_CONTENT_FILENAME: &'static str = "ext";

/// Kind of extractor
#[derive(Clone, Copy, Debug, PartialEq, Eq, Structural)]
pub enum Kind {
    /// Pass-through for plain text inputs
    PlainText,
    /// Built-in (readability-like) HTML extractor
    HtmlNative,
    /// Built-in PDF text extractor
    PdfNative,
    /// The pandoc command line tool, for supported document formats
    Pandoc,
    /// Whisper speech recognition, for audio and video
    Whisper,
    /// No extractor applies
    Unsupported,
}

/// The extension table: lower-case extensions, without the dot, to kinds.
pub open spec fn extension_kind(e: Seq<char>) -> Option<Kind> {
    if e == "html"@ || e == "htm"@ || e == "xhtml"@ {
        Some(Kind::HtmlNative)
    } else if e == "pdf"@ {
        Some(Kind::PdfNative)
    } else if e == "txt"@ || e == "text"@ || e == "md"@ {
        Some(Kind::PlainText)
    } else if e == "docx"@ || e == "doc"@ || e == "odt"@ || e == "rtf"@ || e == "epub"@ || e
        == "tex"@ || e == "latex"@ {
        Some(Kind::Pandoc)
    } else if e == "mp3"@ || e == "wav"@ || e == "mp4"@ || e == "m4a"@ {
        Some(Kind::Whisper)
    } else {
        None
    }
}

/// The MIME table: MIME type strings to kinds.
pub open spec fn mime_kind(m: Seq<char>) -> Option<Kind> {
    if m == "text/html"@ || m == "application/xhtml+xml"@ {
        Some(Kind::HtmlNative)
    } else if m == "application/pdf"@ {
        Some(Kind::PdfNative)
    } else if m == "text/plain"@ || m == "text/markdown"@ {
        Some(Kind::PlainText)
    } else if m == "application/vnd.openxmlformats-officedocument.wordprocessingml.document"@ || m
        == "application/msword"@ || m == "application/vnd.oasis.opendocument.text"@ || m
        == "application/rtf"@ || m == "text/rtf"@ || m == "application/epub+zip"@ || m
        == "text/latex"@ || m == "application/x-tex"@ || m == "text/x-tex"@ {
        Some(Kind::Pandoc)
    } else if m == "audio/mpeg"@ || m == "audio/mp3"@ || m == "audio/x-mp3"@ || m == "audio/wav"@
        || m == "audio/x-wav"@ || m == "audio/mp4"@ || m == "video/mp4"@ {
        Some(Kind::Whisper)
    } else {
        None
    }
}

/// Looks an extension up in the extension table, without regard to ASCII case.
pub fn kind_for_extension(key: &str) -> (r: Option<Kind>)
    ensures
        r == extension_kind(ascii_lower(key@)),
{
    let lower = to_ascii_lower(key);
    let e = lower.as_str();
    if str_eq(e, "html") || str_eq(e, "htm") || str_eq(e, "xhtml") {
        Some(Kind::HtmlNative)
    } else if str_eq(e, "pdf") {
        Some(Kind::PdfNative)
    } else if str_eq(e, "txt") || str_eq(e, "text") || str_eq(e, "md") {
        Some(Kind::PlainText)
    } else if str_eq(e, "docx") || str_eq(e, "doc") || str_eq(e, "odt") || str_eq(e, "rtf")
        || str_eq(e, "epub") || str_eq(e, "tex") || str_eq(e, "latex") {
        Some(Kind::Pandoc)
    } else if str_eq(e, "mp3") || str_eq(e, "wav") || str_eq(e, "mp4") || str_eq(e, "m4a") {
        Some(Kind::Whisper)
    } else {
        None
    }
}

/// Looks a MIME type up in the MIME table, without regard to ASCII case.
pub fn kind_for_mime(key: &str) -> (r: Option<Kind>)
    ensures
        r == mime_kind(ascii_lower(key@)),
{
    let lower = to_ascii_lower(key);
    let m = lower.as_str();
    if str_eq(m, "text/html") || str_eq(m, "application/xhtml+xml") {
        Some(Kind::HtmlNative)
    } else if str_eq(m, "application/pdf") {
        Some(Kind::PdfNative)
    } else if str_eq(m, "text/plain") || str_eq(m, "text/markdown") {
        Some(Kind::PlainText)
    } else if str_eq(m, "application/vnd.openxmlformats-officedocument.wordprocessingml.document")
        || str_eq(m, "application/msword") || str_eq(m, "application/vnd.oasis.opendocument.text")
        || str_eq(m, "application/rtf") || str_eq(m, "text/rtf") || str_eq(
        m,
        "application/epub+zip",
    ) || str_eq(m, "text/latex") || str_eq(m, "application/x-tex") || str_eq(m, "text/x-tex") {
        Some(Kind::Pandoc)
    } else if str_eq(m, "audio/mpeg") || str_eq(m, "audio/mp3") || str_eq(m, "audio/x-mp3")
        || str_eq(m, "audio/wav") || str_eq(m, "audio/x-wav") || str_eq(m, "audio/mp4") || str_eq(
        m,
        "video/mp4",
    ) {
        Some(Kind::Whisper)
    } else {
        None
    }
}

/// Why an extraction backend produced no text.
pub enum ExtractError {
    /// A required external tool is not installed; holds an installation hint.
    Unavailable(String),
    /// The external tool exited unsuccessfully; holds what it wrote to stderr.
    ToolFailed(String),
    /// The backend's output is not valid UTF-8.
    InvalidUtf8,
    /// No readable content was found in the document.
    NoContent,
    /// The document could not be decoded.
    Undecodable,
    /// The output is empty once leading and trailing white space is removed.
    EmptyOutput,
    /// The decoded audio holds no samples.
    EmptyAudio,
    /// The speech model is not configured properly.
    Model(ValidationError),
    /// Reading the content or writing the text failed; holds the cause.
    Io(String),
}

/// The rule every backend applies to its text: trim it, and refuse it when
/// nothing is left.
pub fn finish_text(raw: &str) -> (r: Result<String, ExtractError>)
    ensures
        r is Ok <==> trim_spec(raw@).len() > 0,
        r matches Ok(t) ==> t@ == trim_spec(raw@),
        r matches Err(e) ==> e is EmptyOutput,
{
    let t = trim_text(raw);
    if t.as_str().unicode_len() == 0 {
        Err(ExtractError::EmptyOutput)
    } else {
        Ok(t)
    }
}

} // verus!

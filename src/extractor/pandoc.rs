//! Extraction through the pandoc command line tool.

use vstd::prelude::*;

use crate::cli_command::CliCommand;
use crate::extractor::{finish_text, ExtractError};
use crate::file_type::{extension_view, mime_view, Extension, Mime};
use crate::text::{decode_utf8_bytes, str_eq, trim_spec};
use crate::validate::validate_command_executable;
use vstd::utf8::{decode_utf8, valid_utf8};

verus! {

pub const PANDOC_INSTALLATION_HINT: &'static str = "Please install pandoc by following https://pandoc.org/installing.html and ensure it is included in your PATH.";

/// Extractor implementation using pandoc CLI.
/// Requires pandoc to be installed and available in PATH.
#[derive(Debug, Default)]
pub struct PandocExtractor;

/// pandoc's input format for a file extension.
pub open spec fn format_for_extension(e: Seq<char>) -> Option<Seq<char>> {
    if e == "docx"@ {
        Some("docx"@)
    } else if e == "doc"@ {
        Some("doc"@)
    } else if e == "odt"@ {
        Some("odt"@)
    } else if e == "rtf"@ {
        Some("rtf"@)
    } else if e == "epub"@ {
        Some("epub"@)
    } else if e == "md"@ {
        Some("markdown"@)
    } else if e == "html"@ || e == "htm"@ || e == "xhtml"@ {
        Some("html"@)
    } else if e == "txt"@ || e == "text"@ {
        Some("plain"@)
    } else if e == "tex"@ || e == "latex"@ {
        Some("latex"@)
    } else {
        None
    }
}

/// pandoc's input format for a MIME type.
pub open spec fn format_for_mime(m: Seq<char>) -> Option<Seq<char>> {
    if m == "application/vnd.openxmlformats-officedocument.wordprocessingml.document"@ {
        Some("docx"@)
    } else if m == "application/msword"@ {
        Some("doc"@)
    } else if m == "application/vnd.oasis.opendocument.text"@ {
        Some("odt"@)
    } else if m == "application/rtf"@ || m == "text/rtf"@ {
        Some("rtf"@)
    } else if m == "application/epub+zip"@ {
        Some("epub"@)
    } else if m == "text/markdown"@ {
        Some("markdown"@)
    } else if m == "text/html"@ || m == "application/xhtml+xml"@ {
        Some("html"@)
    } else if m == "text/plain"@ {
        Some("plain"@)
    } else if m == "text/latex"@ || m == "application/x-tex"@ || m == "text/x-tex"@ {
        Some("latex"@)
    } else {
        None
    }
}

/// The input format handed to pandoc: by extension first; where no extension
/// hint applies, by MIME type; otherwise none, and pandoc guesses.
pub open spec fn input_format(mime: Option<Seq<char>>, extension: Option<Seq<char>>) -> Option<
    Seq<char>,
> {
    let by_extension = match extension {
        Some(e) => format_for_extension(e),
        None => None,
    };
    if by_extension is Some {
        by_extension
    } else {
        match mime {
            Some(m) => format_for_mime(m),
            None => None,
        }
    }
}

/// The `--from` argument for an input format.
pub open spec fn from_argument(mime: Option<Seq<char>>, extension: Option<Seq<char>>) -> Option<
    Seq<char>,
> {
    match input_format(mime, extension) {
        Some(f) => Some("--from="@ + f),
        None => None,
    }
}

/// The full pandoc command line for a file.
pub open spec fn pandoc_argv(
    content_path: Seq<char>,
    mime: Option<Seq<char>>,
    extension: Option<Seq<char>>,
) -> Seq<Seq<char>> {
    let head = match from_argument(mime, extension) {
        Some(f) => seq!["pandoc"@, f],
        None => seq!["pandoc"@],
    };
    head + seq!["--to"@, "plain"@, "--wrap=none"@, "--markdown-headings=atx"@, content_path]
}

fn extension_format(e: &str) -> (r: Option<&'static str>)
    ensures
        match r {
            Some(f) => format_for_extension(e@) == Some(f@),
            None => format_for_extension(e@) is None,
        },
{
    if str_eq(e, "docx") {
        Some("docx")
    } else if str_eq(e, "doc") {
        Some("doc")
    } else if str_eq(e, "odt") {
        Some("odt")
    } else if str_eq(e, "rtf") {
        Some("rtf")
    } else if str_eq(e, "epub") {
        Some("epub")
    } else if str_eq(e, "md") {
        Some("markdown")
    } else if str_eq(e, "html") || str_eq(e, "htm") || str_eq(e, "xhtml") {
        Some("html")
    } else if str_eq(e, "txt") || str_eq(e, "text") {
        Some("plain")
    } else if str_eq(e, "tex") || str_eq(e, "latex") {
        Some("latex")
    } else {
        None
    }
}

fn mime_format(m: &str) -> (r: Option<&'static str>)
    ensures
        match r {
            Some(f) => format_for_mime(m@) == Some(f@),
            None => format_for_mime(m@) is None,
        },
{
    if str_eq(m, "application/vnd.openxmlformats-officedocument.wordprocessingml.document") {
        Some("docx")
    } else if str_eq(m, "application/msword") {
        Some("doc")
    } else if str_eq(m, "application/vnd.oasis.opendocument.text") {
        Some("odt")
    } else if str_eq(m, "application/rtf") || str_eq(m, "text/rtf") {
        Some("rtf")
    } else if str_eq(m, "application/epub+zip") {
        Some("epub")
    } else if str_eq(m, "text/markdown") {
        Some("markdown")
    } else if str_eq(m, "text/html") || str_eq(m, "application/xhtml+xml") {
        Some("html")
    } else if str_eq(m, "text/plain") {
        Some("plain")
    } else if str_eq(m, "text/latex") || str_eq(m, "application/x-tex") || str_eq(m, "text/x-tex") {
        Some("latex")
    } else {
        None
    }
}

/// Map the detected extension and MIME type to pandoc's `--from` argument
pub fn pandoc_input_format_with(mime: &Option<Mime>, extension: &Option<Extension>) -> (r: Option<
    String,
>)
    ensures
        match r {
            Some(s) => from_argument(mime_view(*mime), extension_view(*extension)) == Some(s@),
            None => from_argument(mime_view(*mime), extension_view(*extension)) is None,
        },
{
    let by_extension = match extension {
        Some(e) => extension_format(e.as_str()),
        None => None,
    };
    let format = match by_extension {
        Some(f) => Some(f),
        None => match mime {
            Some(m) => mime_format(m.as_str()),
            None => None,
        },
    };
    match format {
        Some(f) => Some(String::from_str("--from=").concat(f)),
        None => None,
    }
}

/// The pandoc command line for a file, once it is known whether pandoc is
/// installed; without pandoc, the installation hint.
pub fn pandoc_command(
    content_path: &str,
    extension: &Option<Extension>,
    mime: &Option<Mime>,
    available: bool,
) -> (r: Result<CliCommand, ExtractError>)
    ensures
        !available ==> (r matches Err(ExtractError::Unavailable(h)) && h@
            == PANDOC_INSTALLATION_HINT@),
        available ==> (r matches Ok(c) && c@ == pandoc_argv(
            content_path@,
            mime_view(*mime),
            extension_view(*extension),
        )),
{
    if !available {
        return Err(ExtractError::Unavailable(String::from_str(PANDOC_INSTALLATION_HINT)));
    }
    let from = pandoc_input_format_with(mime, extension);
    let cmd = match &from {
        Some(f) => CliCommand::new("pandoc").arg(f.as_str()),
        None => CliCommand::new("pandoc"),
    };
    let cmd = cmd.arg("--to").arg("plain").arg("--wrap=none").arg("--markdown-headings=atx").arg(
        content_path,
    );
    proof {
        let head = match from_argument(mime_view(*mime), extension_view(*extension)) {
            Some(f) => seq!["pandoc"@, f],
            None => seq!["pandoc"@],
        };
        assert(cmd@ =~= pandoc_argv(content_path@, mime_view(*mime), extension_view(*extension)));
    }
    Ok(cmd)
}

/// What `String::from_utf8_lossy` makes of some bytes.
pub uninterp spec fn lossy_of(bytes: Seq<u8>) -> Seq<char>;

/// Relies on `String::from_utf8_lossy`: the bytes as text, with each invalid
/// sequence replaced by U+FFFD; well-formed UTF-8 is decoded unchanged.
#[verifier::external_body]
fn lossy_text(bytes: &[u8]) -> (r: String)
    ensures
        r@ == lossy_of(bytes@),
        valid_utf8(bytes@) ==> r@ == decode_utf8(bytes@),
{
    String::from_utf8_lossy(bytes).into_owned()
}

impl PandocExtractor {
    /// The command line to run on a file; fails with the installation hint
    /// when pandoc is not on the search path, before anything is spawned.
    pub fn command(&self, content_path: &str, extension: &Option<Extension>, mime: &Option<Mime>) -> (r:
        Result<CliCommand, ExtractError>)
        ensures
            r matches Ok(c) ==> c@ == pandoc_argv(
                content_path@,
                mime_view(*mime),
                extension_view(*extension),
            ),
            r matches Err(e) ==> (e matches ExtractError::Unavailable(h) && h@
                == PANDOC_INSTALLATION_HINT@),
    {
        let available = validate_command_executable("pandoc").is_ok();
        pandoc_command(content_path, extension, mime, available)
    }

    /// The text of a finished pandoc run: failure on an unsuccessful exit
    /// whatever was printed, then UTF-8, then trimmed and not empty.
    pub fn output_text(&self, success: bool, stdout: Vec<u8>, stderr: &[u8]) -> (r: Result<
        String,
        ExtractError,
    >)
        ensures
            !success ==> (r matches Err(ExtractError::ToolFailed(e)) && e@ == lossy_of(stderr@)),
            success && !valid_utf8(stdout@) ==> r matches Err(ExtractError::InvalidUtf8),
            success && valid_utf8(stdout@) ==> {
                &&& r is Ok <==> trim_spec(decode_utf8(stdout@)).len() > 0
                &&& r matches Ok(t) ==> t@ == trim_spec(decode_utf8(stdout@))
                &&& r matches Err(e) ==> e is EmptyOutput
            },
    {
        if !success {
            return Err(ExtractError::ToolFailed(lossy_text(stderr)));
        }
        match decode_utf8_bytes(stdout) {
            None => Err(ExtractError::InvalidUtf8),
            Some(text) => finish_text(text.as_str()),
        }
    }
}

} // verus!

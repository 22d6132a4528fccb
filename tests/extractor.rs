use nosy::extractor::{finish_text, kind_for_extension, kind_for_mime, ExtractError, Kind};
use nosy::file_type::{
    file_extension_lowercase, match_kind_by_extension, match_kind_by_mime, normalize_mime,
    sniff_window, Extension, Mime,
};

#[test]
fn test() {
    assert_eq!(kind_for_mime(&Mime("text/html".to_string()).0), Some(Kind::HtmlNative));
    assert_eq!(kind_for_mime(&Mime("application/pdf".to_string()).0), Some(Kind::PdfNative));
    assert_eq!(kind_for_mime(&Mime("application/unknown".to_string()).0), None);

    assert_eq!(kind_for_extension(&Extension("html".to_string()).0), Some(Kind::HtmlNative));
    assert_eq!(kind_for_extension(&Extension("pdf".to_string()).0), Some(Kind::PdfNative));
    assert_eq!(kind_for_extension(&Extension("unknown".to_string()).0), None);
}

#[test]
fn tables_are_many_to_one() {
    for e in ["html", "htm", "xhtml"] {
        assert_eq!(kind_for_extension(e), Some(Kind::HtmlNative));
    }
    for e in ["txt", "text", "md"] {
        assert_eq!(kind_for_extension(e), Some(Kind::PlainText));
    }
    for e in ["docx", "doc", "odt", "rtf", "epub", "tex", "latex"] {
        assert_eq!(kind_for_extension(e), Some(Kind::Pandoc));
    }
    for e in ["mp3", "wav", "mp4", "m4a"] {
        assert_eq!(kind_for_extension(e), Some(Kind::Whisper));
    }
    for m in ["audio/mpeg", "audio/mp3", "audio/x-mp3", "audio/wav", "audio/x-wav", "audio/mp4", "video/mp4"] {
        assert_eq!(kind_for_mime(m), Some(Kind::Whisper));
    }
    for m in ["application/rtf", "text/rtf", "application/epub+zip", "text/x-tex"] {
        assert_eq!(kind_for_mime(m), Some(Kind::Pandoc));
    }
    assert_eq!(kind_for_mime("text/markdown"), Some(Kind::PlainText));
    assert_eq!(kind_for_mime("application/xhtml+xml"), Some(Kind::HtmlNative));
    assert_eq!(kind_for_extension("HTML"), Some(Kind::HtmlNative));
    assert_eq!(kind_for_mime("Application/PDF"), Some(Kind::PdfNative));
}

#[test]
fn lookups_default_to_unsupported() {
    assert_eq!(match_kind_by_mime(&None), Kind::Unsupported);
    assert_eq!(match_kind_by_mime(&Some(Mime("image/png".to_string()))), Kind::Unsupported);
    assert_eq!(match_kind_by_mime(&Some(Mime("application/pdf".to_string()))), Kind::PdfNative);
    assert_eq!(match_kind_by_extension(&None), Kind::Unsupported);
    assert_eq!(match_kind_by_extension(&Some(Extension("png".to_string()))), Kind::Unsupported);
    assert_eq!(match_kind_by_extension(&Some(Extension("md".to_string()))), Kind::PlainText);
}

#[test]
fn extension_is_lowercased() {
    let e = file_extension_lowercase("/tmp/Report.DOCX").unwrap();
    assert_eq!(e.as_str(), "docx");
    let e = file_extension_lowercase("archive.tar.GZ").unwrap();
    assert_eq!(e.as_str(), "gz");
    assert!(file_extension_lowercase("/tmp/README").is_none());
    assert!(file_extension_lowercase(".bashrc").is_none());
}

#[test]
fn finish_text_trims() {
    assert_eq!(finish_text("  hello world \n\t").ok().unwrap(), "hello world");
    assert_eq!(finish_text("a").ok().unwrap(), "a");
    assert_eq!(finish_text("\u{3000}x y\u{a0}").ok().unwrap(), "x y");
}

#[test]
fn finish_text_rejects_blank() {
    assert!(matches!(finish_text(""), Err(ExtractError::EmptyOutput)));
    assert!(matches!(finish_text(" \n\t\r "), Err(ExtractError::EmptyOutput)));
    assert!(matches!(finish_text("\u{2003}\u{85}"), Err(ExtractError::EmptyOutput)));
}

#[test]
fn mime_and_extension_wrappers() {
    let m: Mime = Mime::from("text/plain".to_string());
    assert_eq!(m.as_str(), "text/plain");
    let e: Extension = Extension::from("pdf".to_string());
    assert_eq!(e.as_str(), "pdf");
}

#[test]
fn mime_and_extension_equality() {
    assert!(Mime("text/html".to_string()) == Mime("text/html".to_string()));
    assert!(Mime("text/html".to_string()) != Mime("text/plain".to_string()));
    assert!(Extension("pdf".to_string()) == Extension("pdf".to_string()));
    assert!(Extension("pdf".to_string()) == Extension("PDF".to_string()));
    assert!(Mime("TEXT/HTML".to_string()) == Mime("text/html".to_string()));
    assert!(Extension("pdf".to_string()) != Extension("pdfx".to_string()));
}

#[test]
fn sniffing_reads_a_bounded_prefix() {
    let mut bytes = b"%PDF-1.7\n".to_vec();
    bytes.extend(std::iter::repeat(b'x').take(20_000));
    assert_eq!(nosy::file_type::mime_type(&bytes).as_str(), "application/pdf");
    let m = nosy::file_type::mime_type(b"plain words only\n");
    assert_eq!(m.as_str(), "text/plain");
}

#[test]
fn lookups_ignore_ascii_case() {
    assert_eq!(match_kind_by_extension(&Some(Extension("HTML".to_string()))), Kind::HtmlNative);
    assert_eq!(match_kind_by_extension(&Some(Extension("Docx".to_string()))), Kind::Pandoc);
    assert_eq!(match_kind_by_mime(&Some(Mime("TEXT/HTML".to_string()))), Kind::HtmlNative);
    assert_eq!(match_kind_by_mime(&Some(Mime("Audio/MPEG".to_string()))), Kind::Whisper);
}

#[test]
fn sniff_window_is_bounded() {
    let big = vec![7u8; 10_000];
    assert_eq!(sniff_window(&big).len(), 8192);
    let small = vec![1u8, 2, 3];
    assert_eq!(sniff_window(&small), &[1u8, 2, 3][..]);
    assert_eq!(sniff_window(&[]).len(), 0);
}

#[test]
fn sniffed_types_are_lowercased() {
    assert_eq!(normalize_mime("Text/HTML").as_str(), "text/html");
    assert_eq!(normalize_mime("application/pdf").as_str(), "application/pdf");
}

#[test]
fn extension_of_common_names() {
    assert_eq!(file_extension_lowercase("/tmp/work/raw"), None);
    assert_eq!(file_extension_lowercase("raw"), None);
    assert_eq!(file_extension_lowercase("x.HTML").unwrap().as_str(), "html");
    assert_eq!(file_extension_lowercase("dir.d/notes").map(|e| e.0), None);
}

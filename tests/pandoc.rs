use nosy::cli_command::CliCommand;
use nosy::extractor::pandoc::{
    pandoc_command, pandoc_input_format_with, PandocExtractor, PANDOC_INSTALLATION_HINT,
};
use nosy::extractor::ExtractError;
use nosy::file_type::{Extension, Mime};

#[test]
fn test_maps_docx() {
    assert_eq!(
        pandoc_input_format_with(
            &Some(Mime(
                "application/vnd.openxmlformats-officedocument.wordprocessingml.document"
                    .to_string()
            )),
            &None,
        )
        .as_deref(),
        Some("--from=docx")
    );
}

#[test]
fn test_maps_docx_by_extension() {
    assert_eq!(
        pandoc_input_format_with(&None, &Some(Extension("docx".to_string()))).as_deref(),
        Some("--from=docx")
    );
}

#[test]
fn test_maps_unknown() {
    assert_eq!(
        pandoc_input_format_with(&Some(Mime("application/unknown".to_string())), &None),
        None
    );
}

#[test]
fn extension_hint_wins_over_mime() {
    assert_eq!(
        pandoc_input_format_with(
            &Some(Mime("text/html".to_string())),
            &Some(Extension("md".to_string()))
        )
        .as_deref(),
        Some("--from=markdown")
    );
}

#[test]
fn unmapped_extension_falls_back_to_mime() {
    assert_eq!(
        pandoc_input_format_with(
            &Some(Mime("application/x-tex".to_string())),
            &Some(Extension("xyz".to_string()))
        )
        .as_deref(),
        Some("--from=latex")
    );
    assert_eq!(pandoc_input_format_with(&None, &Some(Extension("xyz".to_string()))), None);
    assert_eq!(pandoc_input_format_with(&None, &None), None);
}

#[test]
fn docx_without_pandoc_is_unavailable() {
    let r = pandoc_command("document.docx", &Some(Extension("docx".to_string())), &None, false);
    match r {
        Err(ExtractError::Unavailable(hint)) => assert_eq!(hint, PANDOC_INSTALLATION_HINT),
        _ => panic!("expected the installation hint"),
    }
}

#[test]
fn pandoc_command_line() {
    let cmd: CliCommand =
        pandoc_command("document.docx", &Some(Extension("docx".to_string())), &None, true)
            .ok()
            .unwrap();
    assert_eq!(
        cmd.to_display_string(),
        "pandoc --from=docx --to plain --wrap=none --markdown-headings=atx document.docx"
    );
    let cmd = pandoc_command("x", &None, &None, true).ok().unwrap();
    assert_eq!(cmd.argv(), vec!["pandoc", "--to", "plain", "--wrap=none", "--markdown-headings=atx", "x"]);
}

#[test]
fn pandoc_output_rules() {
    let p = PandocExtractor;
    match p.output_text(false, b"text anyway".to_vec(), b"boom") {
        Err(ExtractError::ToolFailed(e)) => assert_eq!(e, "boom"),
        _ => panic!("a failed exit must fail"),
    }
    match p.output_text(false, Vec::new(), &[b'b', 0xff, b'd']) {
        Err(ExtractError::ToolFailed(e)) => assert_eq!(e, "b\u{fffd}d"),
        _ => panic!("a failed exit must fail"),
    }
    assert!(matches!(p.output_text(true, vec![0xff, 0xfe], b""), Err(ExtractError::InvalidUtf8)));
    assert!(matches!(p.output_text(true, b"  \n ".to_vec(), b""), Err(ExtractError::EmptyOutput)));
    assert_eq!(p.output_text(true, b"\n Title\n\nBody \n".to_vec(), b"").ok().unwrap(), "Title\n\nBody");
}

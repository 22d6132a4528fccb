use nosy::extractor::html::HtmlExtractor;
use nosy::extractor::pdf::PdfExtractor;
use nosy::extractor::whisper::WhisperExtractor;
use nosy::extractor::ExtractError;
use nosy::validate::{FileProblem, FileStatus, ValidationError};

#[test]
fn html_rejects_invalid_utf8() {
    assert!(matches!(HtmlExtractor.extract_text(vec![0xc3, 0x28]), Err(ExtractError::InvalidUtf8)));
}

#[test]
fn html_article_rules() {
    assert!(matches!(HtmlExtractor.article_text(None), Err(ExtractError::NoContent)));
    assert!(matches!(HtmlExtractor.article_text(Some(" \n".to_string())), Err(ExtractError::EmptyOutput)));
    assert_eq!(HtmlExtractor.article_text(Some("\n  Body text  ".to_string())).ok().unwrap(), "Body text");
}

#[test]
fn pdf_text_rules() {
    assert!(matches!(PdfExtractor.text_result(None), Err(ExtractError::Undecodable)));
    assert!(matches!(PdfExtractor.text_result(Some("\n\n".to_string())), Err(ExtractError::EmptyOutput)));
    assert_eq!(PdfExtractor.text_result(Some(" Page one\n".to_string())).ok().unwrap(), "Page one");
}

#[test]
fn whisper_transcript_joins_segments() {
    let segs = vec![" Hello there. ".to_string(), "   ".to_string(), "General Kenobi!".to_string()];
    assert_eq!(WhisperExtractor.transcript(&segs).ok().unwrap(), "Hello there.\nGeneral Kenobi!");
    let blank = vec![" ".to_string(), "".to_string()];
    assert!(matches!(WhisperExtractor.transcript(&blank), Err(ExtractError::EmptyOutput)));
    assert!(matches!(WhisperExtractor.transcript(&vec![]), Err(ExtractError::EmptyOutput)));
}

#[test]
fn whisper_samples_and_model() {
    assert!(matches!(WhisperExtractor.require_samples(0), Err(ExtractError::EmptyAudio)));
    assert!(WhisperExtractor.require_samples(16000).is_ok());
    let missing = FileStatus { exists: false, is_file: false };
    let dir = FileStatus { exists: true, is_file: false };
    let file = FileStatus { exists: true, is_file: true };
    assert!(matches!(
        WhisperExtractor.model_path(Some("/m/ggml.bin".to_string()), missing),
        Err(ExtractError::Model(ValidationError::InvalidModelPath(FileProblem::NotExists)))
    ));
    assert!(matches!(
        WhisperExtractor.model_path(Some("/m".to_string()), dir),
        Err(ExtractError::Model(ValidationError::InvalidModelPath(FileProblem::NotFile)))
    ));
    assert_eq!(WhisperExtractor.model_path(Some("/m/ggml.bin".to_string()), file).ok().unwrap(), "/m/ggml.bin");
}

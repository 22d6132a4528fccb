use nosy::args::{ArgsError, ExtractSummarizeArgs, LogLevel};
use nosy::auxiliary::download_whisper::{resolve_output_path, PathStatus, WhisperModel};
use nosy::extractor::Kind;
use nosy::fetcher::http::{HttpFetchMode, HttpFetcher, HttpFetcherOptions};
use nosy::fetcher::FetchError;
use nosy::llm::{LLMRequestOptions, Provider};
use nosy::message::SystemChatMessageVariables;
use nosy::pipeline::Mode;
use nosy::text::join_path;
use nosy::validate::{
    validate_command_executable, validate_extractor_kind, validate_file_already_exists,
    validate_file_not_exists, FileProblem, FileStatus, ValidationError,
};

#[test]
fn whisper_model_names() {
    assert_eq!(WhisperModel::TinyEn.filename(), "ggml-tiny.en.bin");
    assert_eq!(WhisperModel::LargeV3.filename(), "ggml-large-v3.bin");
    assert_eq!(
        WhisperModel::Base.url(),
        "https://huggingface.co/ggerganov/whisper.cpp/resolve/main/ggml-base.bin"
    );
}

#[test]
fn model_output_path() {
    let new = PathStatus { exists: false, is_dir: false };
    let dir = PathStatus { exists: true, is_dir: true };
    let file = PathStatus { exists: true, is_dir: false };
    assert_eq!(resolve_output_path("models", "ggml-base.bin", dir), "models/ggml-base.bin");
    assert_eq!(resolve_output_path("models/", "ggml-base.bin", new), "models/ggml-base.bin");
    assert_eq!(resolve_output_path("my.bin", "ggml-base.bin", new), "my.bin");
    assert_eq!(resolve_output_path("old.dat", "ggml-base.bin", file), "old.dat");
    assert_eq!(resolve_output_path("out", "ggml-base.bin", new), "out/ggml-base.bin");
}

#[test]
fn join_path_rules() {
    assert_eq!(join_path("/tmp/work", "raw"), "/tmp/work/raw");
    assert_eq!(join_path("/tmp/work/", "ext"), "/tmp/work/ext");
    assert_eq!(join_path("", "ext"), "ext");
    assert_eq!(join_path("/tmp", "/abs"), "/abs");
}

#[test]
fn provider_names() {
    assert_eq!(Provider::GitHubCopilot.as_str(), "github-copilot");
    assert_eq!(Provider::OpenAIResp.as_str(), "openai-resp");
    assert_eq!(Provider::DeepSeek.as_str(), "deepseek");
    assert_eq!(Provider::Ollama.as_str(), "ollama");
    let opts = LLMRequestOptions { model: "gpt-4o".to_string() };
    assert_eq!(opts.model, "gpt-4o");
    assert_eq!(SystemChatMessageVariables::default().language, "English");
}

#[test]
fn fetch_options() {
    let opts = HttpFetcherOptions::default();
    assert_eq!(opts.mode, HttpFetchMode::Get);
    let headless = HttpFetcherOptions { mode: HttpFetchMode::Headless };
    let f = HttpFetcher::new(&headless);
    assert_eq!(f.fetch_mode(), HttpFetchMode::Headless);
    assert_eq!(HttpFetchMode::Headless.as_str(), "headless");
    assert_eq!(HttpFetchMode::Get.as_str(), "get");
    assert!(f.check_status(200).is_ok());
    assert!(f.check_status(299).is_ok());
    assert!(matches!(f.check_status(404), Err(FetchError::Status(404))));
    assert!(matches!(f.check_status(199), Err(FetchError::Status(199))));
    assert!(matches!(f.check_status(300), Err(FetchError::Status(300))));
}

#[test]
fn validation_rules() {
    assert!(matches!(validate_command_executable("   "), Err(ValidationError::EmptyCommand)));
    match validate_command_executable("  no-such-command-here-4711 ") {
        Err(ValidationError::CommandNotFound(c)) => assert_eq!(c, "no-such-command-here-4711"),
        _ => panic!("an unknown command is not found"),
    }
    assert!(validate_command_executable("sh").is_ok());
    assert!(matches!(validate_file_already_exists(true), Err(ValidationError::AlreadyExists)));
    assert!(validate_file_already_exists(false).is_ok());
    assert!(matches!(
        validate_file_not_exists(FileStatus { exists: false, is_file: false }),
        Err(ValidationError::File(FileProblem::NotExists))
    ));
    assert!(matches!(
        validate_file_not_exists(FileStatus { exists: true, is_file: false }),
        Err(ValidationError::File(FileProblem::NotFile))
    ));
    assert!(validate_file_not_exists(FileStatus { exists: true, is_file: true }).is_ok());
    let none = FileStatus { exists: false, is_file: false };
    assert!(validate_extractor_kind(Kind::HtmlNative, None, none).is_ok());
    assert!(matches!(
        validate_extractor_kind(Kind::Whisper, None, none),
        Err(ValidationError::MissingEnv)
    ));
}

#[test]
fn run_config_from_args() {
    let args = ExtractSummarizeArgs {
        input: Some("a.pdf".to_string()),
        output: Some("out.txt".to_string()),
        workdir: None,
        log_level: LogLevel::Info,
        no_progress: true,
    };
    let c = args.run_config(false, "/tmp/nosy/1", None, Mode::Extract, HttpFetchMode::Get).ok().unwrap();
    assert_eq!(c.input, "a.pdf");
    assert_eq!(c.output, "out.txt");
    assert_eq!(c.workdir, "/tmp/nosy/1");
    assert!(matches!(
        args.run_config(true, "/tmp", None, Mode::Extract, HttpFetchMode::Get),
        Err(ArgsError::OutputExists)
    ));
    let missing = ExtractSummarizeArgs { input: None, ..args.clone() };
    assert!(matches!(
        missing.run_config(false, "/tmp", None, Mode::Extract, HttpFetchMode::Get),
        Err(ArgsError::MissingInput)
    ));
    let no_out = ExtractSummarizeArgs { output: None, ..args };
    assert!(matches!(
        no_out.run_config(false, "/tmp", None, Mode::Extract, HttpFetchMode::Get),
        Err(ArgsError::MissingOutput)
    ));
    assert_eq!(LogLevel::Trace.as_str(), "trace");
}

//! Checks of the run's configuration that fail fast, before any work.

use vstd::prelude::*;

use crate::extractor::Kind;
use crate::text::{trim_spec, trim_text};

verus! {

/// Environment variable that names the speech-recognition model file.
pub const WHISPER_MODEL_PATH_ENV: &'static str = "WHISPER_MODEL_PATH";

/// What is known of a path on disk.
#[derive(Clone, Copy, Debug, PartialEq, Eq, Structural)]
pub struct FileStatus {
    pub exists: bool,
    pub is_file: bool,
}

/// Why a path that must name a regular file does not.
#[derive(Clone, Copy, Debug, PartialEq, Eq, Structural)]
pub enum FileProblem {
    NotExists,
    NotFile,
}

/// A configuration problem found before the pipeline runs.
#[derive(Clone, Debug)]
pub enum ValidationError {
    /// The command name is empty once trimmed.
    EmptyCommand,
    /// The command is not an executable on the search path; holds its name.
    CommandNotFound(String),
    /// Something already exists at the path.
    AlreadyExists,
    /// The path does not name a regular file.
    File(FileProblem),
    /// The model-path variable is not set.
    MissingEnv,
    /// The model-path variable is empty once trimmed.
    EmptyEnv,
    /// The model-path variable does not name a regular file.
    InvalidModelPath(FileProblem),
    /// pandoc is not installed.
    MissingPandoc,
}

/// Relies on `which::which`: whether an executable of that name is found on
/// the search path. The answer depends on the environment and the disk.
#[verifier::external_body]
fn command_on_path(name: &str) -> (r: bool) {
    which::which(name).is_ok()
}

/// Return error if command is not executable or not found in PATH
pub fn validate_command_executable(command: &str) -> (r: Result<(), ValidationError>)
    ensures
        trim_spec(command@).len() == 0 <==> r matches Err(ValidationError::EmptyCommand),
        r matches Err(e) ==> (e is EmptyCommand || e is CommandNotFound),
        r matches Err(ValidationError::CommandNotFound(c)) ==> c@ == trim_spec(command@),
{
    let name = trim_text(command);
    if name.as_str().unicode_len() == 0 {
        return Err(ValidationError::EmptyCommand);
    }
    if !command_on_path(name.as_str()) {
        return Err(ValidationError::CommandNotFound(name));
    }
    Ok(())
}

/// Return error if something already exists at the path
pub fn validate_file_already_exists(exists: bool) -> (r: Result<(), ValidationError>)
    ensures
        r is Ok <==> !exists,
        r matches Err(e) ==> e is AlreadyExists,
{
    if exists {
        Err(ValidationError::AlreadyExists)
    } else {
        Ok(())
    }
}

/// The problem with a path that must name a regular file, if any.
pub open spec fn file_problem(status: FileStatus) -> Option<FileProblem> {
    if !status.exists {
        Some(FileProblem::NotExists)
    } else if !status.is_file {
        Some(FileProblem::NotFile)
    } else {
        None
    }
}

/// Return error if the path does not name an existing regular file
pub fn validate_file_not_exists(status: FileStatus) -> (r: Result<(), ValidationError>)
    ensures
        r is Ok <==> file_problem(status) is None,
        r matches Err(e) ==> e matches ValidationError::File(p) && file_problem(status) == Some(p),
{
    if !status.exists {
        Err(ValidationError::File(FileProblem::NotExists))
    } else if !status.is_file {
        Err(ValidationError::File(FileProblem::NotFile))
    } else {
        Ok(())
    }
}

pub open spec fn string_view(s: Option<String>) -> Option<Seq<char>> {
    match s {
        Some(x) => Some(x@),
        None => None,
    }
}

/// What is wrong with the model-path variable's value, if anything: unset,
/// empty once trimmed, or not naming a regular file.
pub open spec fn model_path_error(value: Option<Seq<char>>, status: FileStatus) -> Option<
    ValidationError,
> {
    match value {
        None => Some(ValidationError::MissingEnv),
        Some(v) => if trim_spec(v).len() == 0 {
            Some(ValidationError::EmptyEnv)
        } else {
            match file_problem(status) {
                Some(p) => Some(ValidationError::InvalidModelPath(p)),
                None => None,
            }
        },
    }
}

/// Validate the value of the model-path variable, given what is on disk at
/// that path, and return the path.
pub fn validate_whisper_model_path(value: Option<String>, status: FileStatus) -> (r: Result<
    String,
    ValidationError,
>)
    ensures
        match model_path_error(string_view(value), status) {
            Some(e) => r == Err::<String, ValidationError>(e),
            None => r matches Ok(path) && string_view(value) == Some(path@),
        },
{
    match value {
        None => Err(ValidationError::MissingEnv),
        Some(v) => {
            let t = trim_text(v.as_str());
            if t.as_str().unicode_len() == 0 {
                Err(ValidationError::EmptyEnv)
            } else if !status.exists {
                Err(ValidationError::InvalidModelPath(FileProblem::NotExists))
            } else if !status.is_file {
                Err(ValidationError::InvalidModelPath(FileProblem::NotFile))
            } else {
                Ok(v)
            }
        },
    }
}

/// Return error if the extractor kind cannot run here: pandoc must be
/// installed, and the speech model must be configured.
pub fn validate_extractor_kind(kind: Kind, model_path: Option<String>, model_status: FileStatus) -> (r:
    Result<(), ValidationError>)
    ensures
        kind == Kind::Pandoc ==> (r is Ok || r matches Err(ValidationError::MissingPandoc)),
        kind == Kind::Whisper ==> match model_path_error(string_view(model_path), model_status) {
            Some(e) => r == Err::<(), ValidationError>(e),
            None => r is Ok,
        },
        kind != Kind::Pandoc && kind != Kind::Whisper ==> r is Ok,
{
    match kind {
        Kind::Pandoc => match validate_command_executable("pandoc") {
            Ok(()) => Ok(()),
            Err(_) => Err(ValidationError::MissingPandoc),
        },
        Kind::Whisper => match validate_whisper_model_path(model_path, model_status) {
            Ok(_) => Ok(()),
            Err(e) => Err(e),
        },
        _ => Ok(()),
    }
}

} // verus!

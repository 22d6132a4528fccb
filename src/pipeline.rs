//! One run of the pipeline: scheme detection, fetch, classification,
//! extraction, then copy-out or summary.
//!
//! The run is a state machine. `Run::step` takes the outcome of the last
//! action performed and returns the next action; the caller performs it
//! (creates the working directory, fetches, reads a file prefix, runs a
//! backend, writes the output) and reports back. Any failure ends the run.

use vstd::prelude::*;

use crate::extractor::{extension_kind, mime_kind, ExtractError, Kind, EXTRACTED_CONTENT_FILENAME};
use crate::fetcher::http::HttpFetchMode;
use crate::fetcher::{FetchError, FETCHED_CONTENT_FILENAME};
use crate::file_type::{
    extension_of, extension_view, file_extension_lowercase, has_dot, last_part,
    lemma_last_part_of_name, lowercase_extension, match_kind_by_extension,
    match_kind_by_mime, mime_type, mime_view, or_unsupported, Extension, Mime, MIME_SNIFF_BYTES,
};
use crate::scheme::{detect, detect_spec, InputScheme};
use crate::validate::{
    model_path_error, string_view, validate_whisper_model_path, FileStatus, ValidationError,
};
use crate::text::{ascii_lower, join_path, joined, lemma_ascii_lower_idempotent};

verus! {

/// What the run produces at its end.
#[derive(Clone, Copy, Debug, PartialEq, Eq, Structural)]
pub enum Mode {
    /// Copy the extracted text to the output path.
    Extract,
    /// Summarize the extracted text and write the summary to the output path.
    Summarize,
}

/// What a run is asked to do.
pub struct RunConfig {
    /// Input path or URL.
    pub input: String,
    /// Output file path.
    pub output: String,
    /// Working directory for staged artifacts.
    pub workdir: String,
    /// Extractor kind chosen by the caller, bypassing classification.
    pub forced_kind: Option<Kind>,
    pub mode: Mode,
    pub fetch_mode: HttpFetchMode,
}

/// Where a run stands.
#[derive(Clone, Copy, Debug, PartialEq, Eq, Structural)]
pub enum Stage {
    Start,
    /// Waiting for the working directory, to fetch into it.
    PreparingFetch,
    Fetching,
    /// Waiting for the first bytes of the content, to sniff its MIME type.
    Sniffing,
    /// Waiting for the working directory, to extract into it.
    /// Waiting for the speech model's path, to check it before any decoding.
    CheckingModel,
    PreparingExtract,
    Extracting,
    /// Waiting for the copy-out or the summary.
    Finishing,
    Done,
    Failed,
}

/// The outcome of the last action, reported by the caller.
pub enum Event {
    /// Start the run.
    Begin,
    /// The working directory was created, or why not.
    WorkDirReady(Result<(), String>),
    /// The raw artifact was written, or why not.
    Fetched(Result<(), FetchError>),
    /// The first bytes of the content, or why they could not be read.
    PrefixRead(Result<Vec<u8>, String>),
    /// The extracted text was written, or why not.
    Extracted(Result<(), ExtractError>),
    /// The value of the model-path variable, and what is on disk there.
    ModelPathResolved { value: Option<String>, status: FileStatus },
    /// The output was written, or why not.
    Finished(Result<(), String>),
}

/// Why a run failed, by the stage that failed.
pub enum PipelineError {
    SchemeUnsupported,
    FetchFailed(FetchError),
    /// No extractor applies; names what classification saw.
    ClassificationUnsupported { extension: Option<Extension>, mime: Option<Mime> },
    ExtractionFailed(ExtractError),
    /// A staging directory or file operation failed; holds the cause.
    IoFailed(String),
    /// The summarization call failed; holds the cause.
    SummarizeFailed(String),
}

/// What the caller is to do next.
pub enum Action {
    /// Create the working directory.
    CreateWorkDir { path: String },
    /// Fetch the URI and write its body to `dest`.
    Fetch { uri: String, mode: HttpFetchMode, dest: String },
    /// Read at most `limit` bytes from the start of the file.
    ReadPrefix { path: String, limit: usize },
    /// Run the backend of `kind` on `source`, writing its text to `dest`.
    Extract {
        kind: Kind,
        source: String,
        extension: Option<Extension>,
        mime: Option<Mime>,
        dest: String,
        /// The checked speech model path, for `Kind::Whisper`.
        model_path: Option<String>,
    },
    /// Copy the file at `from` to `to`, byte for byte.
    CopyOut { from: String, to: String },
    /// Summarize the text at `from` and write the summary to `to`.
    Summarize { from: String, to: String },
    /// The run is over and succeeded.
    Complete,
    /// The run is over and failed.
    Fail(PipelineError),
    /// Look up the model-path variable and what is on disk there.
    ResolveModelPath,
    /// The event does not belong to this stage; nothing to do.
    Wait,
}

/// The state of one run.
pub struct Run {
    pub config: RunConfig,
    pub stage: Stage,
    pub workdir_created: bool,
    /// The file the next stage works on: the input path, the raw artifact, or
    /// the extracted text.
    pub content_path: String,
    pub kind: Option<Kind>,
    pub extension: Option<Extension>,
    pub mime: Option<Mime>,
    /// The speech model path, once checked.
    pub model_path: Option<String>,
}

/// Where the fetched raw artifact is staged.
pub open spec fn raw_path(c: RunConfig) -> Seq<char> {
    joined(c.workdir@, FETCHED_CONTENT_FILENAME@)
}

/// Where the extracted text is staged.
pub open spec fn ext_path(c: RunConfig) -> Seq<char> {
    joined(c.workdir@, EXTRACTED_CONTENT_FILENAME@)
}

/// The raw artifact's last part is `raw`, which has no dot.
proof fn lemma_raw_path_last_part(c: RunConfig)
    ensures
        last_part(raw_path(c)) == "raw"@,
        last_part(raw_path(c)).len() > 0,
        !has_dot("raw"@),
{
    reveal_strlit("raw");
    reveal_strlit("/");
    let w = c.workdir@;
    let n = "raw"@;
    assert(FETCHED_CONTENT_FILENAME@ == n);
    assert(n.len() == 3 && n[0] == 'r' && n[1] == 'a' && n[2] == 'w');
    assert(forall|i: int| 0 <= i < n.len() ==> n[i] != '/');
    assert(!has_dot(n)) by {
        if has_dot(n) {
            let i = choose|i: int| 0 <= i < n.len() && n[i] == '.';
            assert(n[i] == '.');
        }
    }
    if w.len() == 0 || w.last() == '/' {
        lemma_last_part_of_name(w, n);
    } else {
        let d = w + seq!['/'];
        assert(d.last() == '/');
        lemma_last_part_of_name(d, n);
        assert(w + seq!['/'] + n =~= d + n);
    }
}

/// The kind the extension table gives a path, if it gives one.
pub open spec fn extension_decision(path: Seq<char>) -> Option<Kind> {
    match lowercase_extension(path) {
        Some(e) => extension_kind(e),
        None => None,
    }
}

/// Classification precedence: the forced kind, else the extension table,
/// else the MIME table on the sniffed type, else `Unsupported`.
pub open spec fn classification(c: RunConfig, path: Seq<char>, sniffed: Option<Seq<char>>) -> Kind {
    match c.forced_kind {
        Some(k) => k,
        None => match extension_decision(path) {
            Some(k) => k,
            None => match sniffed {
                Some(m) => or_unsupported(mime_kind(ascii_lower(m))),
                None => Kind::Unsupported,
            },
        },
    }
}

/// The last action of a run that produced text at `from`.
pub open spec fn finish_spec(c: RunConfig, from: Seq<char>, a: Action) -> bool {
    match c.mode {
        Mode::Extract => (a matches Action::CopyOut { from: f, to: t } && f@ == from && t@
            == c.output@),
        Mode::Summarize => (a matches Action::Summarize { from: f, to: t } && f@ == from && t@
            == c.output@),
    }
}

/// The extraction the run asks for.
pub open spec fn extract_spec(r: Run, a: Action) -> bool {
    a matches Action::Extract { kind, source, extension, mime, dest, model_path } && r.kind == Some(kind)
        && source@ == r.content_path@ && extension_view(extension) == extension_view(r.extension)
        && mime_view(mime) == mime_view(r.mime) && dest@ == ext_path(r.config) && string_view(
        model_path,
    ) == string_view(r.model_path)
}

/// The fetch the run asks for.
pub open spec fn fetch_spec(c: RunConfig, a: Action) -> bool {
    a matches Action::Fetch { uri, mode, dest } && uri@ == c.input@ && mode == c.fetch_mode
        && dest@ == raw_path(c)
}

/// What follows once the kind is known: plain text goes straight to the end,
/// `Unsupported` fails naming the extension and MIME type seen, and every
/// other kind is extracted, after the working directory is created if it
/// is not yet. Speech has its model path checked before anything else.
pub open spec fn dispatch_spec(r: Run, a: Action) -> bool {
    match r.kind {
        Some(Kind::PlainText) => r.stage == Stage::Finishing && finish_spec(
            r.config,
            r.content_path@,
            a,
        ),
        Some(Kind::Unsupported) => r.stage == Stage::Failed && (a matches Action::Fail(
            PipelineError::ClassificationUnsupported { extension, mime },
        ) && extension_view(extension) == extension_view(r.extension) && mime_view(mime)
            == mime_view(r.mime)),
        Some(k) => if k == Kind::Whisper && r.model_path is None {
            r.stage == Stage::CheckingModel && a is ResolveModelPath
        } else if r.workdir_created {
            r.stage == Stage::Extracting && extract_spec(r, a)
        } else {
            r.stage == Stage::PreparingExtract && (a matches Action::CreateWorkDir { path }
                && path@ == r.config.workdir@)
        },
        None => false,
    }
}

/// Classification of the content at `path`.
pub open spec fn classify_spec(pre: Run, path: Seq<char>, post: Run, a: Action) -> bool {
    &&& post.config == pre.config
    &&& post.workdir_created == pre.workdir_created
    &&& post.content_path@ == path
    &&& post.mime is None
    &&& match pre.config.forced_kind {
        Some(k) => post.kind == Some(k) && post.extension is None && dispatch_spec(post, a),
        None => extension_view(post.extension) == lowercase_extension(path) && match extension_decision(
            path,
        ) {
            Some(k) => post.kind == Some(k) && dispatch_spec(post, a),
            None => post.kind is None && post.stage == Stage::Sniffing && (a matches Action::ReadPrefix {
                path: p,
                limit,
            } && p@ == path && limit == MIME_SNIFF_BYTES),
        },
    }
}

/// Only the stage changed.
pub open spec fn moved_to(pre: Run, post: Run, stage: Stage) -> bool {
    post == Run { stage, ..pre }
}

/// One step of a run.
pub open spec fn step_spec(pre: Run, e: Event, post: Run, a: Action) -> bool {
    match (pre.stage, e) {
        (Stage::Start, Event::Begin) => match detect_spec(pre.config.input@) {
            InputScheme::Unsupported => moved_to(pre, post, Stage::Failed) && a == Action::Fail(
                PipelineError::SchemeUnsupported,
            ),
            InputScheme::File => classify_spec(pre, pre.config.input@, post, a),
            InputScheme::Http => if pre.workdir_created {
                moved_to(pre, post, Stage::Fetching) && fetch_spec(pre.config, a)
            } else {
                moved_to(pre, post, Stage::PreparingFetch) && (a matches Action::CreateWorkDir {
                    path,
                } && path@ == pre.config.workdir@)
            },
        },
        (Stage::PreparingFetch, Event::WorkDirReady(Ok(_))) => post == Run {
            stage: Stage::Fetching,
            workdir_created: true,
            ..pre
        } && fetch_spec(pre.config, a),
        (Stage::PreparingExtract, Event::WorkDirReady(Ok(_))) => post == Run {
            stage: Stage::Extracting,
            workdir_created: true,
            ..pre
        } && extract_spec(post, a),
        (Stage::PreparingFetch, Event::WorkDirReady(Err(m))) => moved_to(pre, post, Stage::Failed)
            && a == Action::Fail(PipelineError::IoFailed(m)),
        (Stage::PreparingExtract, Event::WorkDirReady(Err(m))) => moved_to(pre, post, Stage::Failed)
            && a == Action::Fail(PipelineError::IoFailed(m)),
        (Stage::Fetching, Event::Fetched(Ok(_))) => classify_spec(pre, raw_path(pre.config), post, a)
            && (pre.config.forced_kind is None ==> lowercase_extension(raw_path(pre.config)) is None),
        (Stage::Fetching, Event::Fetched(Err(f))) => moved_to(pre, post, Stage::Failed) && a
            == Action::Fail(PipelineError::FetchFailed(f)),
        (Stage::Sniffing, Event::PrefixRead(Ok(_))) => {
            &&& post.config == pre.config
            &&& post.workdir_created == pre.workdir_created
            &&& post.content_path == pre.content_path
            &&& post.extension == pre.extension
            &&& post.mime matches Some(m) && post.kind == Some(or_unsupported(mime_kind(ascii_lower(m@))))
            &&& dispatch_spec(post, a)
        },
        (Stage::Sniffing, Event::PrefixRead(Err(m))) => moved_to(pre, post, Stage::Failed) && a
            == Action::Fail(PipelineError::IoFailed(m)),
        (Stage::CheckingModel, Event::ModelPathResolved { value, status }) => match model_path_error(
            string_view(value),
            status,
        ) {
            Some(err) => moved_to(pre, post, Stage::Failed) && a == Action::Fail(
                PipelineError::ExtractionFailed(ExtractError::Model(err)),
            ),
            None => {
                &&& post == Run { stage: post.stage, model_path: post.model_path, ..pre }
                &&& post.model_path is Some
                &&& string_view(post.model_path) == string_view(value)
                &&& dispatch_spec(post, a)
            },
        },
        (Stage::Extracting, Event::Extracted(Ok(_))) => {
            &&& post.stage == Stage::Finishing
            &&& post.content_path@ == ext_path(pre.config)
            &&& post.config == pre.config
            &&& post.workdir_created == pre.workdir_created
            &&& post.kind == pre.kind
            &&& post.extension == pre.extension
            &&& post.mime == pre.mime
            &&& finish_spec(pre.config, ext_path(pre.config), a)
        },
        (Stage::Extracting, Event::Extracted(Err(x))) => moved_to(pre, post, Stage::Failed) && a
            == Action::Fail(PipelineError::ExtractionFailed(x)),
        (Stage::Finishing, Event::Finished(Ok(_))) => moved_to(pre, post, Stage::Done) && a
            == Action::Complete,
        (Stage::Finishing, Event::Finished(Err(m))) => moved_to(pre, post, Stage::Failed) && a
            == Action::Fail(
            match pre.config.mode {
                Mode::Extract => PipelineError::IoFailed(m),
                Mode::Summarize => PipelineError::SummarizeFailed(m),
            },
        ),
        _ => post == pre && a == Action::Wait,
    }
}

fn copy_extension(e: &Option<Extension>) -> (r: Option<Extension>)
    ensures
        extension_view(r) == extension_view(*e),
{
    match e {
        Some(x) => Some(Extension(x.0.clone())),
        None => None,
    }
}

fn copy_mime(m: &Option<Mime>) -> (r: Option<Mime>)
    ensures
        mime_view(r) == mime_view(*m),
{
    match m {
        Some(x) => Some(Mime(x.0.clone())),
        None => None,
    }
}

impl Run {
    /// Invariant of a run: the working directory is created once, before the
    /// stages that write into it, and the kind is known exactly from
    /// classification on.
    pub open spec fn wf(&self) -> bool {
        &&& (self.stage == Stage::Start || self.stage == Stage::PreparingFetch || self.stage
            == Stage::PreparingExtract) ==> !self.workdir_created
        &&& (self.stage == Stage::Fetching || self.stage == Stage::Extracting)
            ==> self.workdir_created
        &&& (self.stage == Stage::Start || self.stage == Stage::PreparingFetch || self.stage
            == Stage::Fetching || self.stage == Stage::Sniffing) ==> self.kind is None
        &&& (self.stage == Stage::PreparingExtract || self.stage == Stage::Extracting) ==> (
        self.kind matches Some(k) && k != Kind::PlainText && k != Kind::Unsupported)
        &&& self.stage == Stage::CheckingModel ==> self.kind == Some(Kind::Whisper)
            && self.model_path is None
        &&& (self.stage == Stage::PreparingExtract || self.stage == Stage::Extracting) && self.kind
            == Some(Kind::Whisper) ==> self.model_path is Some
        &&& self.stage == Stage::Sniffing ==> self.config.forced_kind is None
            && extension_decision(self.content_path@) is None
    }

    /// A run that has not started.
    pub fn new(config: RunConfig) -> (r: Run)
        ensures
            r.wf(),
            r.stage == Stage::Start,
            r.config == config,
            !r.workdir_created,
            r.kind is None,
            r.extension is None,
            r.mime is None,
            r.model_path is None,
    {
        let content_path = config.input.clone();
        Run {
            config,
            stage: Stage::Start,
            workdir_created: false,
            content_path,
            kind: None,
            extension: None,
            mime: None,
            model_path: None,
        }
    }

    /// The run is over.
    pub fn is_over(&self) -> (r: bool)
        ensures
            r == (self.stage == Stage::Done || self.stage == Stage::Failed),
    {
        self.stage == Stage::Done || self.stage == Stage::Failed
    }

    fn finish_action(&self, from: String) -> (a: Action)
        ensures
            finish_spec(self.config, from@, a),
    {
        match self.config.mode {
            Mode::Extract => Action::CopyOut { from, to: self.config.output.clone() },
            Mode::Summarize => Action::Summarize { from, to: self.config.output.clone() },
        }
    }

    fn fetch_action(&self) -> (a: Action)
        ensures
            fetch_spec(self.config, a),
    {
        Action::Fetch {
            uri: self.config.input.clone(),
            mode: self.config.fetch_mode,
            dest: join_path(self.config.workdir.as_str(), FETCHED_CONTENT_FILENAME),
        }
    }

    fn extract_action(&self) -> (a: Action)
        requires
            self.kind is Some,
        ensures
            extract_spec(*self, a),
    {
        Action::Extract {
            kind: self.kind.unwrap(),
            source: self.content_path.clone(),
            extension: copy_extension(&self.extension),
            mime: copy_mime(&self.mime),
            dest: join_path(self.config.workdir.as_str(), EXTRACTED_CONTENT_FILENAME),
            model_path: match &self.model_path {
                Some(p) => Some(p.clone()),
                None => None,
            },
        }
    }

    fn dispatch(&mut self) -> (a: Action)
        requires
            old(self).kind is Some,
        ensures
            *final(self) == (Run { stage: final(self).stage, ..*old(self) }),
            dispatch_spec(*final(self), a),
    {
        match self.kind {
            Some(Kind::PlainText) => {
                self.stage = Stage::Finishing;
                self.finish_action(self.content_path.clone())
            },
            Some(Kind::Unsupported) => {
                self.stage = Stage::Failed;
                Action::Fail(
                    PipelineError::ClassificationUnsupported {
                        extension: copy_extension(&self.extension),
                        mime: copy_mime(&self.mime),
                    },
                )
            },
            _ => {
                if self.kind == Some(Kind::Whisper) && self.model_path.is_none() {
                    self.stage = Stage::CheckingModel;
                    Action::ResolveModelPath
                } else if self.workdir_created {
                    self.stage = Stage::Extracting;
                    self.extract_action()
                } else {
                    self.stage = Stage::PreparingExtract;
                    Action::CreateWorkDir { path: self.config.workdir.clone() }
                }
            },
        }
    }

    fn classify(&mut self, path: String) -> (a: Action)
        ensures
            classify_spec(*old(self), path@, *final(self), a),
            old(self).config.forced_kind is None && last_part(path@).len() > 0 && !has_dot(
                last_part(path@),
            ) ==> lowercase_extension(path@) is None,
    {
        self.content_path = path;
        self.mime = None;
        match self.config.forced_kind {
            Some(k) => {
                self.kind = Some(k);
                self.extension = None;
                self.dispatch()
            },
            None => {
                let extension = file_extension_lowercase(self.content_path.as_str());
                proof {
                    if let Some(e) = extension_view(extension) {
                        lemma_ascii_lower_idempotent(extension_of(self.content_path@)->0);
                    }
                }
                let k = match_kind_by_extension(&extension);
                self.extension = extension;
                if k != Kind::Unsupported {
                    self.kind = Some(k);
                    self.dispatch()
                } else {
                    self.kind = None;
                    self.stage = Stage::Sniffing;
                    Action::ReadPrefix { path: self.content_path.clone(), limit: MIME_SNIFF_BYTES }
                }
            },
        }
    }

    /// Advance the run by the outcome of the last action; returns the next
    /// action.
    pub fn step(&mut self, event: Event) -> (a: Action)
        requires
            old(self).wf(),
        ensures
            final(self).wf(),
            step_spec(*old(self), event, *final(self), a),
    {
        let ghost e = event;
        match (self.stage, event) {
            (Stage::Start, Event::Begin) => match detect(self.config.input.as_str()) {
                InputScheme::Unsupported => {
                    self.stage = Stage::Failed;
                    Action::Fail(PipelineError::SchemeUnsupported)
                },
                InputScheme::File => {
                    let input = self.config.input.clone();
                    self.classify(input)
                },
                InputScheme::Http => {
                    if self.workdir_created {
                        self.stage = Stage::Fetching;
                        self.fetch_action()
                    } else {
                        self.stage = Stage::PreparingFetch;
                        Action::CreateWorkDir { path: self.config.workdir.clone() }
                    }
                },
            },
            (Stage::PreparingFetch, Event::WorkDirReady(Ok(()))) => {
                self.stage = Stage::Fetching;
                self.workdir_created = true;
                self.fetch_action()
            },
            (Stage::PreparingExtract, Event::WorkDirReady(Ok(()))) => {
                self.stage = Stage::Extracting;
                self.workdir_created = true;
                self.extract_action()
            },
            (Stage::PreparingFetch, Event::WorkDirReady(Err(m))) => {
                self.stage = Stage::Failed;
                Action::Fail(PipelineError::IoFailed(m))
            },
            (Stage::PreparingExtract, Event::WorkDirReady(Err(m))) => {
                self.stage = Stage::Failed;
                Action::Fail(PipelineError::IoFailed(m))
            },
            (Stage::Fetching, Event::Fetched(Ok(()))) => {
                let raw = join_path(self.config.workdir.as_str(), FETCHED_CONTENT_FILENAME);
                proof {
                    lemma_raw_path_last_part(self.config);
                }
                self.classify(raw)
            },
            (Stage::Fetching, Event::Fetched(Err(f))) => {
                self.stage = Stage::Failed;
                Action::Fail(PipelineError::FetchFailed(f))
            },
            (Stage::Sniffing, Event::PrefixRead(Ok(bytes))) => {
                let sniffed = Some(mime_type(bytes.as_slice()));
                let k = match_kind_by_mime(&sniffed);
                self.mime = sniffed;
                self.kind = Some(k);
                self.dispatch()
            },
            (Stage::Sniffing, Event::PrefixRead(Err(m))) => {
                self.stage = Stage::Failed;
                Action::Fail(PipelineError::IoFailed(m))
            },
            (Stage::CheckingModel, Event::ModelPathResolved { value, status }) => {
                match validate_whisper_model_path(value, status) {
                    Ok(p) => {
                        self.model_path = Some(p);
                        self.dispatch()
                    },
                    Err(err) => {
                        self.stage = Stage::Failed;
                        Action::Fail(PipelineError::ExtractionFailed(ExtractError::Model(err)))
                    },
                }
            },
            (Stage::Extracting, Event::Extracted(Ok(()))) => {
                let extracted = join_path(self.config.workdir.as_str(), EXTRACTED_CONTENT_FILENAME);
                self.stage = Stage::Finishing;
                self.content_path = extracted.clone();
                self.finish_action(extracted)
            },
            (Stage::Extracting, Event::Extracted(Err(x))) => {
                self.stage = Stage::Failed;
                Action::Fail(PipelineError::ExtractionFailed(x))
            },
            (Stage::Finishing, Event::Finished(Ok(()))) => {
                self.stage = Stage::Done;
                Action::Complete
            },
            (Stage::Finishing, Event::Finished(Err(m))) => {
                self.stage = Stage::Failed;
                match self.config.mode {
                    Mode::Extract => Action::Fail(PipelineError::IoFailed(m)),
                    Mode::Summarize => Action::Fail(PipelineError::SummarizeFailed(m)),
                }
            },
            _ => Action::Wait,
        }
    }
}

/// Content is read for classification only when no kind was forced and the
/// extension table has no entry for the file: a forced kind or a known
/// extension decides without reading a byte.
pub proof fn lemma_prefix_read_only_when_undecided(pre: Run, e: Event, post: Run, a: Action)
    requires
        pre.wf(),
        step_spec(pre, e, post, a),
        a is ReadPrefix,
    ensures
        pre.config.forced_kind is None,
        extension_decision(post.content_path@) is None,
        a matches Action::ReadPrefix { path, limit } && path@ == post.content_path@ && limit
            == MIME_SNIFF_BYTES,
{
}

/// When a step settles the kind, it follows the fixed precedence: the forced
/// kind, then the extension table, then the MIME table on the sniffed type,
/// else `Unsupported`. With a forced kind no extension or MIME type is kept.
pub proof fn lemma_classification_precedence(pre: Run, e: Event, post: Run, a: Action)
    requires
        pre.wf(),
        step_spec(pre, e, post, a),
        pre.kind is None,
        post.kind is Some,
    ensures
        post.kind == Some(classification(pre.config, post.content_path@, mime_view(post.mime))),
        pre.config.forced_kind is Some ==> post.extension is None && post.mime is None,
{
}

/// A MIME sniff of `application/pdf` on a file whose extension decides
/// nothing selects the PDF extractor, whatever the file is called.
pub proof fn lemma_pdf_signature_selects_pdf(pre: Run, e: Event, post: Run, a: Action)
    requires
        pre.wf(),
        step_spec(pre, e, post, a),
        pre.stage == Stage::Sniffing,
        e is PrefixRead,
        e->PrefixRead_0 is Ok,
        post.mime matches Some(m) && ascii_lower(m@) == "application/pdf"@,
    ensures
        post.kind == Some(Kind::PdfNative),
{
    reveal_strlit("application/pdf");
    reveal_strlit("text/html");
    reveal_strlit("application/xhtml+xml");
    let m = ascii_lower(post.mime->0@);
    assert(m.len() == 15);
    assert(m != "text/html"@);
    assert(m != "application/xhtml+xml"@);
    assert(mime_kind(m) == Some(Kind::PdfNative));
    assert(post.kind == Some(or_unsupported(mime_kind(m))));
}

/// The working directory is asked for at most once per run, and never for
/// plain text: a step that settles on `PlainText` neither creates the
/// directory nor runs a backend.
pub proof fn lemma_plain_text_needs_no_workdir(pre: Run, e: Event, post: Run, a: Action)
    requires
        pre.wf(),
        step_spec(pre, e, post, a),
    ensures
        a is CreateWorkDir ==> !pre.workdir_created && post.kind != Some(Kind::PlainText),
        post.kind == Some(Kind::PlainText) ==> !(a is CreateWorkDir) && !(a is Extract),
{
}

/// A step that classifies content as `Unsupported` fails the run, and the
/// failure names the extension and the MIME type seen, or their absence.
pub proof fn lemma_unsupported_fails_naming_inputs(pre: Run, e: Event, post: Run, a: Action)
    requires
        pre.wf(),
        step_spec(pre, e, post, a),
        pre.kind is None,
        post.kind == Some(Kind::Unsupported),
    ensures
        post.stage == Stage::Failed,
        a matches Action::Fail(PipelineError::ClassificationUnsupported { extension, mime })
            && extension_view(extension) == extension_view(post.extension) && mime_view(mime)
            == mime_view(post.mime),
{
}

/// The artifact fetched over HTTP is staged under a name without an
/// extension, so unless a kind is forced it is always classified by MIME
/// sniffing.
pub proof fn lemma_fetched_artifact_is_sniffed(pre: Run, e: Event, post: Run, a: Action)
    requires
        pre.wf(),
        step_spec(pre, e, post, a),
        pre.stage == Stage::Fetching,
        e is Fetched,
        e->Fetched_0 is Ok,
        pre.config.forced_kind is None,
    ensures
        post.stage == Stage::Sniffing,
        a matches Action::ReadPrefix { path, limit } && path@ == raw_path(pre.config) && limit
            == MIME_SNIFF_BYTES,
{
}

/// Speech is transcribed only with a checked model path: no extraction, and
/// so no audio decoding, is asked for before the path passed validation, and
/// an unset model-path variable fails the run first.
pub proof fn lemma_whisper_model_checked_first(pre: Run, e: Event, post: Run, a: Action)
    requires
        pre.wf(),
        step_spec(pre, e, post, a),
    ensures
        a matches Action::Extract { kind, model_path, .. } ==> (kind == Kind::Whisper
            ==> model_path is Some),
        (pre.stage == Stage::CheckingModel && (e matches Event::ModelPathResolved {
            value: None,
            ..
        })) ==> a == Action::Fail(
            PipelineError::ExtractionFailed(ExtractError::Model(ValidationError::MissingEnv)),
        ),
{
}

/// In extract mode, once the backend has written its text, the run copies
/// exactly the staged text artifact to the output path.
pub proof fn lemma_extract_mode_copies_artifact(pre: Run, e: Event, post: Run, a: Action)
    requires
        pre.wf(),
        step_spec(pre, e, post, a),
        pre.stage == Stage::Extracting,
        e is Extracted,
        e->Extracted_0 is Ok,
        pre.config.mode == Mode::Extract,
    ensures
        a matches Action::CopyOut { from, to } && from@ == ext_path(pre.config) && to@
            == pre.config.output@,
{
}

} // verus!

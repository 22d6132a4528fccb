//! Arguments shared by the extract and summarize commands, and the run they
//! describe.

use vstd::prelude::*;

use crate::extractor::Kind;
use crate::fetcher::http::HttpFetchMode;
use crate::pipeline::{Mode, RunConfig};
use crate::validate::string_view;

verus! {

/// Log verbosity
#[derive(Clone, Copy, Debug, PartialEq, Eq, Structural)]
pub enum LogLevel {
    /// No logging
    Off,
    Error,
    Warn,
    Info,
    Debug,
    Trace,
}

impl LogLevel {
    /// The level's name on the command line.
    pub fn as_str(&self) -> (r: &'static str)
        ensures
            r@ == match self {
                LogLevel::Off => "off"@,
                LogLevel::Error => "error"@,
                LogLevel::Warn => "warn"@,
                LogLevel::Info => "info"@,
                LogLevel::Debug => "debug"@,
                LogLevel::Trace => "trace"@,
            },
    {
        match self {
            LogLevel::Off => "off",
            LogLevel::Error => "error",
            LogLevel::Warn => "warn",
            LogLevel::Info => "info",
            LogLevel::Debug => "debug",
            LogLevel::Trace => "trace",
        }
    }
}

/// Arguments shared by extract and summarize commands
#[derive(Clone, Debug)]
pub struct ExtractSummarizeArgs {
    /// Input path or URL (required)
    pub input: Option<String>,
    /// Output file path (required; must not exist yet)
    pub output: Option<String>,
    /// Working directory for temporary files
    pub workdir: Option<String>,
    pub log_level: LogLevel,
    /// Disable progress bar
    pub no_progress: bool,
}

/// Why the arguments describe no run.
#[derive(Clone, Copy, Debug, PartialEq, Eq, Structural)]
pub enum ArgsError {
    MissingInput,
    MissingOutput,
    /// A file already exists at the output path.
    OutputExists,
}

impl ExtractSummarizeArgs {
    /// The run these arguments describe, given whether the output path is
    /// already taken and the working directory to use when none is given.
    pub fn run_config(
        &self,
        output_exists: bool,
        default_workdir: &str,
        forced_kind: Option<Kind>,
        mode: Mode,
        fetch_mode: HttpFetchMode,
    ) -> (r: Result<RunConfig, ArgsError>)
        ensures
            self.input is None ==> r == Err::<RunConfig, ArgsError>(ArgsError::MissingInput),
            self.input is Some && self.output is None ==> r == Err::<RunConfig, ArgsError>(
                ArgsError::MissingOutput,
            ),
            self.input is Some && self.output is Some && output_exists ==> r == Err::<
                RunConfig,
                ArgsError,
            >(ArgsError::OutputExists),
            r matches Ok(c) ==> {
                &&& Some(c.input@) == string_view(self.input)
                &&& Some(c.output@) == string_view(self.output)
                &&& c.workdir@ == match self.workdir {
                    Some(w) => w@,
                    None => default_workdir@,
                }
                &&& c.forced_kind == forced_kind
                &&& c.mode == mode
                &&& c.fetch_mode == fetch_mode
            },
            self.input is Some && self.output is Some && !output_exists ==> r is Ok,
    {
        let input = match &self.input {
            Some(i) => i.clone(),
            None => return Err(ArgsError::MissingInput),
        };
        let output = match &self.output {
            Some(o) => o.clone(),
            None => return Err(ArgsError::MissingOutput),
        };
        if output_exists {
            return Err(ArgsError::OutputExists);
        }
        let workdir = match &self.workdir {
            Some(w) => w.clone(),
            None => String::from_str(default_workdir),
        };
        Ok(RunConfig { input, output, workdir, forced_kind, mode, fetch_mode })
    }
}

} // verus!

//! Ingest a local path or URL, classify its content and turn it into plain text.
//!
//! The crate holds the decisions of the fetch, classify and extract pipeline:
//! scheme detection, the extension and MIME tables, backend selection, the
//! post-processing every backend applies to its text, and a step function that
//! drives one run. The program around it performs the I/O that each step asks for.

pub mod args;
pub mod auxiliary;
pub mod cli_command;
pub mod extractor;
pub mod fetcher;
pub mod file_type;
pub mod llm;
pub mod message;
pub mod pipeline;
pub mod scheme;
pub mod text;
pub mod validate;

//! Extraction of the embedded text layer of a PDF document.

use vstd::prelude::*;

use crate::extractor::{finish_text, ExtractError};
use crate::text::trim_spec;

verus! {

#[derive(Debug, Default)]
pub struct PdfExtractor;

impl PdfExtractor {
    /// The extracted text for what the PDF text-layer reader returned: failure
    /// when the document could not be read, otherwise the trimmed text unless
    /// it is empty (a scanned document without a text layer).
    pub fn text_result(&self, extracted: Option<String>) -> (r: Result<String, ExtractError>)
        ensures
            extracted is None ==> r matches Err(ExtractError::Undecodable),
            extracted matches Some(a) ==> {
                &&& r is Ok <==> trim_spec(a@).len() > 0
                &&& r matches Ok(t) ==> t@ == trim_spec(a@)
                &&& r matches Err(e) ==> e is EmptyOutput
            },
    {
        match extracted {
            None => Err(ExtractError::Undecodable),
            Some(a) => finish_text(a.as_str()),
        }
    }
}

} // verus!

//! Extraction of the main readable text of an HTML document.

use vstd::prelude::*;

use crate::extractor::{finish_text, ExtractError};
use crate::text::{decode_utf8_bytes, trim_spec};
use vstd::utf8::valid_utf8;

verus! {

#[derive(Debug, Default)]
pub struct HtmlExtractor;

/// Relies on `readabilityrs::Readability`: parses the document and returns the
/// text of the article it finds, if any. Candidate scores sit in a randomly
/// seeded hash map and ties are broken in its order, so the article chosen is
/// not fixed by the document alone.
#[verifier::external_body]
fn readable_text(html: &str) -> (r: Option<String>) {
    match readabilityrs::Readability::new(html, None, None) {
        Ok(reader) => reader.parse().and_then(|article| article.text_content),
        Err(_) => None,
    }
}

impl HtmlExtractor {
    /// The extracted text for what the readability parser returned: failure
    /// when no article was found, otherwise the trimmed text unless it is empty.
    pub fn article_text(&self, article: Option<String>) -> (r: Result<String, ExtractError>)
        ensures
            article is None ==> r matches Err(ExtractError::NoContent),
            article matches Some(a) ==> {
                &&& r is Ok <==> trim_spec(a@).len() > 0
                &&& r matches Ok(t) ==> t@ == trim_spec(a@)
                &&& r matches Err(e) ==> e is EmptyOutput
            },
    {
        match article {
            None => Err(ExtractError::NoContent),
            Some(a) => finish_text(a.as_str()),
        }
    }

    /// Extract the main readable text of an HTML document given as bytes.
    pub fn extract_text(&self, html: Vec<u8>) -> (r: Result<String, ExtractError>)
        ensures
            !valid_utf8(html@) <==> r matches Err(ExtractError::InvalidUtf8),
            r matches Ok(t) ==> t@.len() > 0 && t@ == trim_spec(t@),
            r matches Err(e) ==> (e is InvalidUtf8 || e is NoContent || e is EmptyOutput),
    {
        match decode_utf8_bytes(html) {
            None => Err(ExtractError::InvalidUtf8),
            Some(text) => {
                let article = readable_text(text.as_str());
                let ghost found = article;
                let r = self.article_text(article);
                proof {
                    if let Some(a) = found {
                        crate::text::lemma_trim_idempotent(a@);
                    }
                }
                r
            },
        }
    }
}

} // verus!

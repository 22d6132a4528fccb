//! File extensions and MIME types, and how they select an extractor kind.

use vstd::prelude::*;

use crate::extractor::{extension_kind, kind_for_extension, kind_for_mime, mime_kind, Kind};
use crate::text::{ascii_lower, lemma_ascii_lower_idempotent, str_eq, to_ascii_lower};

verus! {

/// Representation of MIME type; equality ignores ASCII case
#[derive(Clone, Debug)]
pub struct Mime(pub String);

impl View for Mime {
    type V = Seq<char>;

    open spec fn view(&self) -> Seq<char> {
        self.0@
    }
}

impl Mime {
    pub fn as_str(&self) -> (r: &str)
        ensures
            r@ == self@,
    {
        self.0.as_str()
    }
}

impl PartialEq for Mime {
    fn eq(&self, other: &Mime) -> (r: bool) {
        let a = to_ascii_lower(self.0.as_str());
        let b = to_ascii_lower(other.0.as_str());
        str_eq(a.as_str(), b.as_str())
    }
}

impl vstd::std_specs::cmp::PartialEqSpecImpl for Mime {
    open spec fn obeys_eq_spec() -> bool {
        true
    }

    open spec fn eq_spec(&self, other: &Mime) -> bool {
        ascii_lower(self@) == ascii_lower(other@)
    }
}

impl Eq for Mime {

}

impl From<String> for Mime {
    fn from(value: String) -> (r: Self) {
        Mime(value)
    }
}

impl vstd::std_specs::convert::FromSpecImpl<String> for Mime {
    open spec fn obeys_from_spec() -> bool {
        true
    }

    open spec fn from_spec(v: String) -> Mime {
        Mime(v)
    }
}

/// Representation of file extension, without the dot; equality ignores ASCII
/// case
#[derive(Clone, Debug)]
pub struct Extension(pub String);

impl View for Extension {
    type V = Seq<char>;

    open spec fn view(&self) -> Seq<char> {
        self.0@
    }
}

impl Extension {
    pub fn as_str(&self) -> (r: &str)
        ensures
            r@ == self@,
    {
        self.0.as_str()
    }
}

impl PartialEq for Extension {
    fn eq(&self, other: &Extension) -> (r: bool) {
        let a = to_ascii_lower(self.0.as_str());
        let b = to_ascii_lower(other.0.as_str());
        str_eq(a.as_str(), b.as_str())
    }
}

impl vstd::std_specs::cmp::PartialEqSpecImpl for Extension {
    open spec fn obeys_eq_spec() -> bool {
        true
    }

    open spec fn eq_spec(&self, other: &Extension) -> bool {
        ascii_lower(self@) == ascii_lower(other@)
    }
}

impl Eq for Extension {

}

impl From<String> for Extension {
    fn from(value: String) -> (r: Self) {
        Extension(value)
    }
}

impl vstd::std_specs::convert::FromSpecImpl<String> for Extension {
    open spec fn obeys_from_spec() -> bool {
        true
    }

    open spec fn from_spec(v: String) -> Extension {
        Extension(v)
    }
}

pub open spec fn mime_view(m: Option<Mime>) -> Option<Seq<char>> {
    match m {
        Some(x) => Some(x@),
        None => None,
    }
}

pub open spec fn extension_view(e: Option<Extension>) -> Option<Seq<char>> {
    match e {
        Some(x) => Some(x@),
        None => None,
    }
}

/// Number of bytes to read for MIME sniffing
pub const MIME_SNIFF_BYTES: usize = 8 * 1024;

/// The extension of the file name at the end of a path, as `Path::extension`
/// reads it on Unix targets.
pub uninterp spec fn extension_of(path: Seq<char>) -> Option<Seq<char>>;

/// The part of a path after its last `/`.
pub open spec fn last_part(p: Seq<char>) -> Seq<char>
    decreases p.len(),
{
    if p.len() == 0 {
        p
    } else if p.last() == '/' {
        seq![]
    } else {
        last_part(p.drop_last()).push(p.last())
    }
}

pub open spec fn has_dot(s: Seq<char>) -> bool {
    exists|i: int| 0 <= i < s.len() && s[i] == '.'
}

/// `k` is the last dot of `s`, with something before it and after it.
pub open spec fn is_last_dot(s: Seq<char>, k: int) -> bool {
    0 < k < s.len() - 1 && s[k] == '.' && forall|j: int| k < j < s.len() ==> s[j] != '.'
}

/// Where the last part of `path` has a dot that is neither its first nor its
/// last character, `r` is the text after the last such dot.
pub open spec fn after_last_dot(path: Seq<char>, r: Option<String>) -> bool {
    forall|k: int| #[trigger]
        is_last_dot(last_part(path), k) ==> (r matches Some(e) && e@ == last_part(path).subrange(
            k + 1,
            last_part(path).len() as int,
        ))
}

/// Relies on `std::path::Path::extension`: the part of the last file name
/// after its final dot, if there is one. A last part without a dot has no
/// extension; one with a dot that is neither its first nor its last character
/// has the text after that dot.
#[verifier::external_body]
pub(crate) fn path_extension(path: &str) -> (r: Option<String>)
    ensures
        r matches Some(e) ==> extension_of(path@) == Some(e@),
        r is None ==> extension_of(path@) is None,
        last_part(path@).len() > 0 && !has_dot(last_part(path@)) ==> r is None,
        after_last_dot(path@, r),
{
    std::path::Path::new(path).extension().and_then(|e| e.to_str()).map(|e| e.to_string())
}

/// A path that ends in a part without `/`, after an empty or `/`-ended
/// directory, has that part as its last part.
pub proof fn lemma_last_part_of_name(dir: Seq<char>, name: Seq<char>)
    requires
        dir.len() == 0 || dir.last() == '/',
        forall|i: int| 0 <= i < name.len() ==> name[i] != '/',
    ensures
        last_part(dir + name) == name,
    decreases name.len(),
{
    if name.len() == 0 {
        assert(dir + name =~= dir);
    } else {
        let shorter = name.drop_last();
        lemma_last_part_of_name(dir, shorter);
        assert((dir + name).drop_last() =~= dir + shorter);
        assert(shorter.push(name.last()) =~= name);
    }
}

/// Relies on `tree_magic_mini::from_u8`: the MIME type whose signature the
/// bytes match first; `application/octet-stream` matches any bytes, so a type
/// is always found. The database walk follows the order of a randomly seeded
/// hash set, so the answer is not fixed by the bytes alone.
#[verifier::external_body]
fn sniff(bytes: &[u8]) -> (r: String) {
    tree_magic_mini::from_u8(bytes).to_string()
}

/// The part of the content that is sniffed: at most its first
/// `MIME_SNIFF_BYTES` bytes.
pub fn sniff_window(content: &[u8]) -> (r: &[u8])
    ensures
        r@ == content@.subrange(
            0,
            if content@.len() > MIME_SNIFF_BYTES {
                MIME_SNIFF_BYTES as int
            } else {
                content@.len() as int
            },
        ),
{
    if content.len() > MIME_SNIFF_BYTES {
        vstd::slice::slice_subrange(content, 0, MIME_SNIFF_BYTES)
    } else {
        assert(content@.subrange(0, content@.len() as int) =~= content@);
        content
    }
}

/// A sniffed MIME type string, normalized to ASCII lower case.
pub fn normalize_mime(s: &str) -> (r: Mime)
    ensures
        r@ == ascii_lower(s@),
{
    Mime(to_ascii_lower(s))
}

/// Get MIME type of content by sniffing its window (`sniff_window`); the
/// sniffed type comes back normalized (`normalize_mime`).
pub fn mime_type(content: &[u8]) -> (r: Mime)
    ensures
        ascii_lower(r@) == r@,
        forall|i: int| 0 <= i < r@.len() ==> !('A' <= #[trigger] r@[i] && r@[i] <= 'Z'),
{
    let sniffed = sniff(sniff_window(content));
    let r = normalize_mime(sniffed.as_str());
    proof {
        lemma_ascii_lower_idempotent(sniffed@);
        assert forall|i: int| 0 <= i < r@.len() implies !('A' <= #[trigger] r@[i] && r@[i]
            <= 'Z') by {
            let c = sniffed@[i];
            if 'A' <= c && c <= 'Z' {
                assert((((c as u32) + 32) as char) as u32 == (c as u32) + 32);
            }
        }
    }
    r
}

/// The kind a table lookup selects: the entry if there is one, otherwise
/// `Unsupported`.
pub open spec fn or_unsupported(k: Option<Kind>) -> Kind {
    match k {
        Some(k) => k,
        None => Kind::Unsupported,
    }
}

/// Match kind of extractor by MIME type
pub fn match_kind_by_mime(mime: &Option<Mime>) -> (r: Kind)
    ensures
        r == match mime_view(*mime) {
            Some(m) => or_unsupported(mime_kind(ascii_lower(m))),
            None => Kind::Unsupported,
        },
{
    match mime {
        Some(m) => match kind_for_mime(m.as_str()) {
            Some(k) => k,
            None => Kind::Unsupported,
        },
        None => Kind::Unsupported,
    }
}

/// The lower-case extension of the file a path names.
pub open spec fn lowercase_extension(path: Seq<char>) -> Option<Seq<char>> {
    match extension_of(path) {
        Some(e) => Some(ascii_lower(e)),
        None => None,
    }
}

/// Get lowercase file extension from path
pub fn file_extension_lowercase(path: &str) -> (r: Option<Extension>)
    ensures
        extension_view(r) == lowercase_extension(path@),
        last_part(path@).len() > 0 && !has_dot(last_part(path@)) ==> r is None,
        forall|k: int| #[trigger]
            is_last_dot(last_part(path@), k) ==> (r matches Some(e) && e@ == ascii_lower(
                last_part(path@).subrange(k + 1, last_part(path@).len() as int),
            )),
{
    match path_extension(path) {
        Some(e) => Some(Extension(to_ascii_lower(e.as_str()))),
        None => None,
    }
}

/// Match kind of extractor by file extension
pub fn match_kind_by_extension(extension: &Option<Extension>) -> (r: Kind)
    ensures
        r == match extension_view(*extension) {
            Some(e) => or_unsupported(extension_kind(ascii_lower(e))),
            None => Kind::Unsupported,
        },
{
    match extension {
        Some(e) => match kind_for_extension(e.as_str()) {
            Some(k) => k,
            None => Kind::Unsupported,
        },
        None => Kind::Unsupported,
    }
}

} // verus!

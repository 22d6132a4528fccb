//! Scheme of an input string: how the input is to be retrieved.

use vstd::prelude::*;

use crate::text::{ascii_lower, str_eq, to_ascii_lower};

verus! {

/// Scheme of input
#[derive(Clone, Copy, Debug, PartialEq, Eq, Structural)]
pub enum InputScheme {
    Http,
    File,
    Unsupported,
}

/// `"://"` starts at index `i` of `s`.
pub open spec fn separator_at(s: Seq<char>, i: int) -> bool {
    0 <= i && i + 3 <= s.len() && s[i] == ':' && s[i + 1] == '/' && s[i + 2] == '/'
}

/// `i` is the first index at which `"://"` starts.
pub open spec fn first_separator_at(s: Seq<char>, i: int) -> bool {
    separator_at(s, i) && forall|j: int| 0 <= j < i ==> !separator_at(s, j)
}

pub open spec fn has_separator(s: Seq<char>) -> bool {
    exists|i: int| separator_at(s, i)
}

/// Scheme named by the (already lower-cased) text before `"://"`.
pub open spec fn scheme_of_name(name: Seq<char>) -> InputScheme {
    if name == "http"@ || name == "https"@ {
        InputScheme::Http
    } else if name == "file"@ {
        InputScheme::File
    } else {
        InputScheme::Unsupported
    }
}

/// The scheme of an input: split on the first `"://"` and look the left part
/// up without regard to ASCII case; without a separator the input is a path.
pub open spec fn detect_spec(s: Seq<char>) -> InputScheme {
    if has_separator(s) {
        let i = choose|i: int| first_separator_at(s, i);
        scheme_of_name(ascii_lower(s.subrange(0, i)))
    } else {
        InputScheme::File
    }
}

proof fn lemma_first_separator(s: Seq<char>, i: int)
    requires
        first_separator_at(s, i),
    ensures
        has_separator(s),
        (choose|k: int| first_separator_at(s, k)) == i,
{
    let k = choose|k: int| first_separator_at(s, k);
    assert(first_separator_at(s, k));
    if k < i {
        assert(!separator_at(s, k));
    } else if i < k {
        assert(!separator_at(s, i));
    }
}

/// Detect input scheme from input string
pub fn detect(input: &str) -> (r: InputScheme)
    ensures
        r == detect_spec(input@),
{
    let n = input.unicode_len();
    let mut i: usize = 0;
    while 3 <= n - i
        invariant
            n == input@.len(),
            i <= n,
            forall|j: int| 0 <= j < i ==> !separator_at(input@, j),
        decreases n - i,
    {
        if input.get_char(i) == ':' && input.get_char(i + 1) == '/' && input.get_char(i + 2) == '/' {
            proof {
                lemma_first_separator(input@, i as int);
            }
            let name = to_ascii_lower(input.substring_char(0, i));
            proof {
                reveal_strlit("http");
                reveal_strlit("https");
                reveal_strlit("file");
            }
            if str_eq(name.as_str(), "http") || str_eq(name.as_str(), "https") {
                return InputScheme::Http;
            } else if str_eq(name.as_str(), "file") {
                return InputScheme::File;
            } else {
                return InputScheme::Unsupported;
            }
        }
        i = i + 1;
    }
    assert(!has_separator(input@)) by {
        if has_separator(input@) {
            let k = choose|k: int| separator_at(input@, k);
            assert(separator_at(input@, k));
        }
    }
    InputScheme::File
}

/// An input without `"://"` is a local path.
pub proof fn lemma_no_separator_is_file(s: Seq<char>)
    requires
        forall|i: int| !separator_at(s, i),
    ensures
        detect_spec(s) == InputScheme::File,
{
}

/// For an input `name + "://" + rest` whose `name` holds no `"://"`, the scheme
/// is decided by `name` alone, compared without regard to ASCII case: `http`
/// and `https` are HTTP, `file` is a local file, anything else is unsupported.
pub proof fn lemma_scheme_by_name(name: Seq<char>, rest: Seq<char>)
    requires
        forall|i: int| !separator_at(name, i),
    ensures
        ({
            let s = name + "://"@ + rest;
            let lower = ascii_lower(name);
            &&& detect_spec(s) == InputScheme::Http <==> (lower == "http"@ || lower == "https"@)
            &&& detect_spec(s) == InputScheme::File <==> lower == "file"@
            &&& detect_spec(s) == InputScheme::Unsupported <==> !(lower == "http"@ || lower
                == "https"@ || lower == "file"@)
        }),
{
    reveal_strlit("://");
    let s = name + "://"@ + rest;
    let n = name.len() as int;
    assert(separator_at(s, n));
    assert forall|j: int| 0 <= j < n implies !separator_at(s, j) by {
        if j + 3 <= n {
            assert(s.subrange(j, j + 3) =~= name.subrange(j, j + 3));
            assert(s[j] == name[j] && s[j + 1] == name[j + 1] && s[j + 2] == name[j + 2]);
            assert(!separator_at(name, j));
        } else {
            assert(s[n] == ':');
        }
    }
    assert(first_separator_at(s, n));
    lemma_first_separator(s, n);
    assert(s.subrange(0, n) =~= name);
    assert(detect_spec(s) == scheme_of_name(ascii_lower(name)));
    reveal_strlit("http");
    reveal_strlit("https");
    reveal_strlit("file");
    assert("http"@ != "file"@) by {
        assert("http"@[0] != "file"@[0]);
    }
    assert("https"@ != "file"@) by {
        assert("https"@[0] != "file"@[0]);
    }
}

} // verus!

//! The two include-directive textual forms: `#include <path>` (system form)
//! and `#include "path"` (local form). The spec functions here state exactly
//! which strings match and what path text they carry; the executable matching
//! is done by the regex crate behind the trusted wrappers at the bottom.

use vstd::prelude::*;

verus! {

/// First position at or after `i` whose character is not a space (or the end
/// of the string).
pub open spec fn space_run_end(s: Seq<char>, i: int) -> int
    decreases s.len() - i,
    when 0 <= i <= s.len()
{
    if i < s.len() && s[i] == ' ' {
        space_run_end(s, i + 1)
    } else {
        i
    }
}

/// Position of the first occurrence of `close` at or after `i`, unless a
/// newline comes first or the string ends without one.
pub open spec fn scan_to(s: Seq<char>, i: int, close: char) -> Option<int>
    decreases s.len() - i,
    when 0 <= i <= s.len()
{
    if i >= s.len() {
        None
    } else if s[i] == close {
        Some(i)
    } else if s[i] == '\n' {
        None
    } else {
        scan_to(s, i + 1, close)
    }
}

/// The path text of an include directive of the form
/// `#include` + spaces + `open_c` + path + `close_c`, anchored at the start of
/// the string: the text must begin with `#include`, then zero or more spaces,
/// then `open_c`; the path is everything up to the first following `close_c`
/// and may not contain a newline. `None` when the string is not of that form.
pub open spec fn delimited_path(s: Seq<char>, open_c: char, close_c: char) -> Option<Seq<char>> {
    if s.len() >= 8 && s.subrange(0, 8) == "#include"@ {
        let d = space_run_end(s, 8);
        if d < s.len() && s[d] == open_c {
            match scan_to(s, d + 1, close_c) {
                Some(k) => Some(s.subrange(d + 1, k)),
                None => None,
            }
        } else {
            None
        }
    } else {
        None
    }
}

/// The path of a system include directive, `#include <path>`.
pub open spec fn angle_path_of(s: Seq<char>) -> Option<Seq<char>> {
    delimited_path(s, '<', '>')
}

/// The path of a local include directive, `#include "path"`.
pub open spec fn local_path_of(s: Seq<char>) -> Option<Seq<char>> {
    delimited_path(s, '"', '"')
}

/// The two include-directive patterns, compiled once at parser construction
/// and owned by the parser for the whole parse.
///
/// The struct is opaque to the verifier: the only way to obtain a value is
/// [`IncludePatterns::new`], which compiles exactly the two fixed patterns,
/// so the capture contracts below hold of every value in existence.
#[verifier::external_body]
pub struct IncludePatterns {
    angle: regex::Regex,
    local: regex::Regex,
}

impl IncludePatterns {
    /// Relies on `regex::Regex::new`: compiles the fixed patterns
    /// `^(#include *)<(.*?)>` and `^(#include *)"(.*?)"`. Both are valid
    /// pattern strings, so neither compilation fails.
    #[verifier::external_body]
    pub fn new() -> (r: IncludePatterns) {
        IncludePatterns {
            angle: regex::Regex::new(r"^(#include *)<(.*?)>").unwrap(),
            local: regex::Regex::new(r#"^(#include *)"(.*?)""#).unwrap(),
        }
    }

    /// Relies on `regex::Regex::captures` with the pattern
    /// `^(#include *)<(.*?)>`: the match is anchored, group 1 takes the
    /// literal `#include` and the maximal space run, the lazy group 2 ends at
    /// the first `>` and `.` never crosses a newline, so the capture is
    /// exactly [`angle_path_of`] of the input; the result is deterministic in
    /// the input.
    #[verifier::external_body]
    pub(crate) fn angle_path(&self, value: &str) -> (r: Option<String>)
        ensures
            r is Some <==> angle_path_of(value@) is Some,
            r matches Some(p) ==> angle_path_of(value@) == Some(p@),
    {
        self.angle.captures(value).map(|c| c[2].to_string())
    }

    /// Relies on `regex::Regex::captures` with the pattern
    /// `^(#include *)"(.*?)"`: as for [`IncludePatterns::angle_path`], the
    /// capture is exactly [`local_path_of`] of the input.
    #[verifier::external_body]
    pub(crate) fn local_path(&self, value: &str) -> (r: Option<String>)
        ensures
            r is Some <==> local_path_of(value@) is Some,
            r matches Some(p) ==> local_path_of(value@) == Some(p@),
    {
        self.local.captures(value).map(|c| c[2].to_string())
    }
}

} // verus!

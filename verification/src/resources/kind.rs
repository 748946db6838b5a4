//! Asset kinds, and how an identifier names its kind.
//!
//! The kind of an asset is read off the end of its identifier: `.ttf` and
//! `.otf` name a font. Every other ending names no kind the cache can load.

use vstd::prelude::*;
use vstd::string::StrSliceExecFns;

verus! {

/// The kinds of asset the cache can hold.
#[derive(Clone, Copy, PartialEq, Eq, Debug, Structural)]
pub enum ResourceKind {
    /// A font with its cache of rendered glyphs.
    Font,
}

/// Whether `s` ends in the four characters `dot`, `a`, `b`, `c`.
pub open spec fn ends_in(s: Seq<char>, a: char, b: char, c: char) -> bool {
    &&& s.len() >= 4
    &&& s[s.len() - 4] == '.'
    &&& s[s.len() - 3] == a
    &&& s[s.len() - 2] == b
    &&& s[s.len() - 1] == c
}

/// The kind that the identifier `id` names, if it names one.
pub open spec fn kind_of(id: Seq<char>) -> Option<ResourceKind> {
    if ends_in(id, 't', 't', 'f') || ends_in(id, 'o', 't', 'f') {
        Some(ResourceKind::Font)
    } else {
        None
    }
}

impl ResourceKind {
    /// Reads the kind of an asset off its identifier.
    ///
    /// Returns `None` exactly for the identifiers that end neither in
    /// `.ttf` nor in `.otf`; the comparison is case-sensitive.
    pub fn of(id: &str) -> (kind: Option<ResourceKind>)
        ensures
            kind == kind_of(id@),
    {
        let n = id.unicode_len();
        if n < 4 {
            return None;
        }
        let dot = id.get_char(n - 4);
        let a = id.get_char(n - 3);
        let b = id.get_char(n - 2);
        let c = id.get_char(n - 1);
        if dot == '.' && (a == 't' || a == 'o') && b == 't' && c == 'f' {
            Some(ResourceKind::Font)
        } else {
            None
        }
    }
}

} // verus!

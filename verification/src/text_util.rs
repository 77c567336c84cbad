//! A small string helper: trimming a single trailing line break.

use vstd::prelude::*;

verus! {

/// The string with one trailing line break removed: a final `"\r\n"` is
/// dropped as a pair, otherwise a final `'\r'` or `'\n'` alone; a string
/// that ends in neither is returned unchanged.
pub open spec fn strip_newline_spec(s: Seq<char>) -> Seq<char> {
    if s.len() >= 2 && s[s.len() - 2] == '\r' && s[s.len() - 1] == '\n' {
        s.subrange(0, s.len() - 2)
    } else if s.len() >= 1 && (s[s.len() - 1] == '\r' || s[s.len() - 1] == '\n') {
        s.subrange(0, s.len() - 1)
    } else {
        s
    }
}

/// Removal of at most one trailing line break.
pub trait StripNewlineEnds where Self: View<V = Seq<char>> {
    /// A copy of the string with one trailing `"\r\n"`, `'\r'` or `'\n'`
    /// removed, and nothing else.
    fn strip_newline_ends(&self) -> (r: String)
        ensures
            r@ == strip_newline_spec(self@),
    ;
}

impl StripNewlineEnds for String {
    fn strip_newline_ends(&self) -> (r: String) {
        let n: usize = self.as_str().unicode_len();
        if n >= 2 {
            let c1 = self.as_str().get_char(n - 2);
            let c2 = self.as_str().get_char(n - 1);
            if c1 == '\r' && c2 == '\n' {
                return String::from_str(self.as_str().substring_char(0, n - 2));
            }
        }
        if n >= 1 {
            let c = self.as_str().get_char(n - 1);
            if c == '\r' || c == '\n' {
                return String::from_str(self.as_str().substring_char(0, n - 1));
            }
        }
        self.clone()
    }
}

} // verus!

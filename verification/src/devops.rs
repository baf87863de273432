//! Source code locations.
use crate::events::{first_separator};
use vstd::prelude::*;
use vstd::string::*;

verus! {

/// A location in the source code: module path and line.
#[derive(Clone, Copy, Debug)]
pub struct SourceCodeLocation {
    path: &'static str,
    line: u32,
}

impl SourceCodeLocation {
    /// The module path.
    pub closed spec fn spec_path(&self) -> Seq<char> {
        self.path@
    }

    /// The line.
    pub closed spec fn spec_line(&self) -> u32 {
        self.line
    }

    /// constructor - use the module path and line macros provided by rust.
    pub fn new(path: &'static str, line: u32) -> (r: SourceCodeLocation)
        ensures
            r.spec_path() == path@,
            r.spec_line() == line,
    {
        SourceCodeLocation { path, line }
    }

    /// refers source code line number
    pub fn line(&self) -> (r: u32)
        ensures
            r == self.spec_line(),
    {
        self.line
    }

    /// refers to the source code module path
    pub fn mod_path(&self) -> (r: &'static str)
        ensures
            r@ == self.spec_path(),
    {
        self.path
    }

    /// The crate name: the module path up to its first `::`.
    pub fn crate_name(&self) -> (r: &'static str)
        ensures
            exists|k: int| first_separator(self.spec_path(), k) && r@ == self.spec_path().subrange(0, k),
    {
        let s = self.path;
        let n = s.unicode_len();
        let mut k: usize = 0;
        while k < n
            invariant
                n == self.spec_path().len(),
                s@ == self.spec_path(),
                k <= n,
                forall|j: int| 0 <= j < k ==> !#[trigger] crate::events::separator_at(self.spec_path(), j),
            decreases n - k,
        {
            if k + 1 < n && s.get_char(k) == ':' && s.get_char(k + 1) == ':' {
                assert(first_separator(self.spec_path(), k as int));
                return s.substring_char(0, k);
            }
            k = k + 1;
        }
        assert(first_separator(self.spec_path(), n as int));
        s.substring_char(0, n)
    }
}

} // verus!

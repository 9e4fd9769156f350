//! The in-memory implementation of [`Input`].

use vstd::prelude::*;
use vstd::string::StrSliceExecFns;
use crate::input::Input;

verus! {

/// An [`Input`] over an in-memory copy of a text. It owns the text for
/// its lifetime and tracks the read offset, in characters.
pub struct StringInput {
    string: String,
    pos: usize,
}

impl StringInput {
    /// Creates a new `StringInput` holding a copy of `string`, positioned
    /// at the start.
    pub fn new(string: &str) -> (input: StringInput)
        ensures
            input.inv(),
            input.content() == string@,
            input.offset() == 0,
    {
        StringInput { string: string.to_owned(), pos: 0 }
    }
}

impl Input for StringInput {
    closed spec fn content(&self) -> Seq<char> {
        self.string@
    }

    closed spec fn offset(&self) -> int {
        self.pos as int
    }

    closed spec fn inv(&self) -> bool {
        self.pos <= self.string@.len()
    }

    proof fn inv_bounds(&self) {
    }

    fn len(&self) -> (n: usize) {
        self.string.as_str().unicode_len()
    }

    fn pos(&self) -> (p: usize) {
        self.pos
    }

    fn set_pos(&mut self, pos: usize) {
        self.pos = pos;
    }

    fn matches(&mut self, string: &str) -> (r: bool) {
        let n = string.unicode_len();
        let m = self.string.as_str().unicode_len();
        if n > m - self.pos {
            return false;
        }
        let mut i: usize = 0;
        while i < n
            invariant
                i <= n,
                n == string@.len(),
                self.string == old(self).string,
                self.pos == old(self).pos,
                self.pos + n <= m,
                m == self.string@.len(),
                forall|j: int| 0 <= j < i ==> self.string@[self.pos + j] == string@[j],
            decreases n - i,
        {
            if self.string.as_str().get_char(self.pos + i) != string.get_char(i) {
                proof {
                    let t = self.string@;
                    let p = self.pos as int;
                    let l = string@;
                    if t.subrange(p, p + l.len() as int) == l {
                        assert(t.subrange(p, p + l.len() as int)[i as int] == t[p + i]);
                    }
                }
                return false;
            }
            i += 1;
        }
        proof {
            assert(self.string@.subrange(
                self.pos as int,
                self.pos as int + string@.len() as int,
            ) =~= string@);
        }
        self.pos = self.pos + n;
        true
    }
}

} // verus!

//! Text progress bars.
use vstd::prelude::*;
use crate::text::string_of;

verus! {

/// A progress bar drawn with a filled and an empty character.
pub struct ProgressBar {
    length: usize,
    filled_char: char,
    empty_char: char,
}

/// `n` copies of `c`.
pub open spec fn repeat_char(c: char, n: nat) -> Seq<char> {
    Seq::new(n, |i: int| c)
}

impl ProgressBar {
    /// Number of cells.
    pub closed spec fn len(&self) -> nat {
        self.length as nat
    }

    /// Character of a completed cell.
    pub closed spec fn filled(&self) -> char {
        self.filled_char
    }

    /// Character of a pending cell.
    pub closed spec fn empty(&self) -> char {
        self.empty_char
    }

    /// A bar of `length` cells drawn with `█` and `░`.
    pub fn new(length: usize) -> (b: Self)
        ensures
            b.len() == length,
            b.filled() == '█',
            b.empty() == '░',
    {
        ProgressBar { length, filled_char: '█', empty_char: '░' }
    }

    /// Number of cells.
    pub fn length(&self) -> (n: usize)
        ensures
            n == self.len(),
    {
        self.length
    }

    /// The bar with `filled` completed cells, in brackets: `[██░░]`.
    pub fn bar(&self, filled: usize) -> (s: String)
        requires
            filled <= self.len(),
        ensures
            s@ == seq!['['] + repeat_char(self.filled(), filled as nat) + repeat_char(
                self.empty(),
                (self.len() - filled) as nat,
            ) + seq![']'],
    {
        let mut out: Vec<char> = Vec::new();
        out.push('[');
        let mut i: usize = 0;
        while i < self.length
            invariant
                filled <= self.length,
                i <= self.length,
                out@ == seq!['['] + (if i <= filled {
                    repeat_char(self.filled_char, i as nat)
                } else {
                    repeat_char(self.filled_char, filled as nat) + repeat_char(
                        self.empty_char,
                        (i - filled) as nat,
                    )
                }),
            decreases self.length - i,
        {
            if i < filled {
                out.push(self.filled_char);
                assert(repeat_char(self.filled_char, (i + 1) as nat) =~= repeat_char(
                    self.filled_char,
                    i as nat,
                ).push(self.filled_char));
            } else {
                out.push(self.empty_char);
                assert(repeat_char(self.empty_char, (i + 1 - filled) as nat) =~= repeat_char(
                    self.empty_char,
                    (i - filled) as nat,
                ).push(self.empty_char));
                assert(repeat_char(self.empty_char, 0) =~= Seq::<char>::empty());
            }
            i = i + 1;
        }
        out.push(']');
        proof {
            if self.length == filled {
                assert(repeat_char(self.empty_char, 0) =~= Seq::<char>::empty());
            }
        }
        assert(out@ =~= seq!['['] + repeat_char(self.filled_char, filled as nat) + repeat_char(
            self.empty_char,
            (self.length - filled) as nat,
        ) + seq![']']);
        string_of(out.as_slice())
    }
}

impl Default for ProgressBar {
    /// A bar of 20 cells drawn with `█` and `░`.
    fn default() -> (b: Self)
        ensures
            b.len() == 20,
            b.filled() == '█',
            b.empty() == '░',
    {
        ProgressBar { length: 20, filled_char: '█', empty_char: '░' }
    }
}

} // verus!

//! Finding the first word of a string: once as a character index and once as
//! a slice of the input.

use vstd::prelude::*;

verus! {

/// Index (in characters) of the first space in `s`, or the length of `s`
/// when it holds no space: everything before the result is the first word.
pub fn first_word(s: &String) -> (r: usize)
    ensures
        r as nat <= s@.len(),
        forall|k: int| 0 <= k < r ==> s@[k] != ' ',
        (r as nat) < s@.len() ==> s@[r as int] == ' ',
{
    let st = s.as_str();
    let n = st.unicode_len();
    let mut i: usize = 0;
    while i < n
        invariant
            i <= n,
            n as nat == s@.len(),
            st@ == s@,
            forall|k: int| 0 <= k < i ==> s@[k] != ' ',
        decreases n - i,
    {
        if st.get_char(i) == ' ' {
            return i;
        }
        i = i + 1;
    }
    n
}

/// The first word of `s`: the prefix that ends right before the first space,
/// or all of `s` when it holds no space.
pub fn first_word_word<'a>(s: &'a str) -> (w: &'a str)
    ensures
        w@.len() <= s@.len(),
        w@ == s@.subrange(0, w@.len() as int),
        forall|k: int| 0 <= k < w@.len() ==> w@[k] != ' ',
        w@.len() < s@.len() ==> s@[w@.len() as int] == ' ',
{
    let n = s.unicode_len();
    let mut i: usize = 0;
    while i < n
        invariant
            i <= n,
            n as nat == s@.len(),
            forall|k: int| 0 <= k < i ==> s@[k] != ' ',
        decreases n - i,
    {
        if s.get_char(i) == ' ' {
            let w = s.substring_char(0, i);
            proof {
                assert(w@.len() == i);
            }
            return w;
        }
        i = i + 1;
    }
    proof {
        assert(s@.subrange(0, s@.len() as int) =~= s@);
    }
    s
}

} // verus!

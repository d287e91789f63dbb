//! Conversion of the driver's fixed-size, zero-terminated name arrays into
//! character sequences the rest of the library can compare.

use vstd::prelude::*;

verus! {

/// Reads a zero-terminated name out of a fixed-size array of C chars: the
/// result is the longest zero-free prefix, each byte read as one character.
pub fn cchar_to_string(c: &[i8]) -> (s: Vec<char>)
    ensures
        s@.len() <= c@.len(),
        forall|j: int| 0 <= j < s@.len() ==> c@[j] != 0 && s@[j] == ((c@[j] as u8) as char),
        s@.len() < c@.len() ==> c@[s@.len() as int] == 0,
{
    let n = c.len();
    let mut s: Vec<char> = Vec::new();
    let mut i: usize = 0;
    while i < n && c[i] != 0
        invariant
            n == c@.len(),
            i <= n,
            s@.len() == i,
            forall|j: int| 0 <= j < i ==> c@[j] != 0 && s@[j] == ((c@[j] as u8) as char),
        decreases n - i,
    {
        s.push((c[i] as u8) as char);
        i = i + 1;
    }
    s
}

} // verus!

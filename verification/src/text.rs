//! Case-insensitive substring matching over character sequences.
//!
//! The filter rules compare patterns against summary lines after folding
//! ASCII letters to lower case; characters outside `A`-`Z` pass through
//! unchanged.

use vstd::prelude::*;
use vstd::string::*;

verus! {

/// ASCII lower-case fold of one character.
pub open spec fn lower_char(c: char) -> char {
    if 65 <= c as u32 && c as u32 <= 90 {
        ((c as u32) + 32) as char
    } else {
        c
    }
}

/// ASCII lower-case fold of a character sequence.
pub open spec fn lower_seq(s: Seq<char>) -> Seq<char> {
    s.map(|i: int, c: char| lower_char(c))
}

/// `pat` occurs in `text` starting at index `i`.
pub open spec fn matches_at(text: Seq<char>, pat: Seq<char>, i: int) -> bool {
    &&& 0 <= i
    &&& i + pat.len() <= text.len()
    &&& forall|j: int| 0 <= j < pat.len() ==> text[i + j] == pat[j]
}

/// `pat` occurs somewhere in `text` (every text contains the empty pattern).
pub open spec fn contains_seq(text: Seq<char>, pat: Seq<char>) -> bool {
    exists|i: int| matches_at(text, pat, i)
}

/// A text that contains a pattern still contains it after both are folded
/// to lower case: case folding never loses a match.
pub proof fn lemma_contains_lower_monotone(text: Seq<char>, pat: Seq<char>)
    requires
        contains_seq(text, pat),
    ensures
        contains_seq(lower_seq(text), lower_seq(pat)),
{
    let i = choose|i: int| matches_at(text, pat, i);
    assert forall|j: int| 0 <= j < pat.len() implies lower_seq(text)[i + j] == lower_seq(pat)[j] by {
        assert(text[i + j] == pat[j]);
    }
    assert(matches_at(lower_seq(text), lower_seq(pat), i));
}

fn lower_char_exec(c: char) -> (r: char)
    ensures
        r == lower_char(c),
{
    match c {
        'A' => 'a',
        'B' => 'b',
        'C' => 'c',
        'D' => 'd',
        'E' => 'e',
        'F' => 'f',
        'G' => 'g',
        'H' => 'h',
        'I' => 'i',
        'J' => 'j',
        'K' => 'k',
        'L' => 'l',
        'M' => 'm',
        'N' => 'n',
        'O' => 'o',
        'P' => 'p',
        'Q' => 'q',
        'R' => 'r',
        'S' => 's',
        'T' => 't',
        'U' => 'u',
        'V' => 'v',
        'W' => 'w',
        'X' => 'x',
        'Y' => 'y',
        'Z' => 'z',
        _ => c,
    }
}

/// The characters of a string slice as a vector.
pub fn chars_of(s: &str) -> (v: Vec<char>)
    ensures
        v@ == s@,
{
    let n = s.unicode_len();
    let mut v: Vec<char> = Vec::new();
    let mut i: usize = 0;
    while i < n
        invariant
            i <= n,
            n == s@.len(),
            v@ == s@.take(i as int),
        decreases n - i,
    {
        v.push(s.get_char(i));
        i = i + 1;
        proof {
            assert(v@ =~= s@.take(i as int));
        }
    }
    proof {
        assert(v@ =~= s@);
    }
    v
}

/// ASCII lower-case fold of every character in a vector.
pub fn lower_vec(v: &Vec<char>) -> (r: Vec<char>)
    ensures
        r@ == lower_seq(v@),
{
    let mut r: Vec<char> = Vec::new();
    let mut i: usize = 0;
    while i < v.len()
        invariant
            i <= v@.len(),
            r@ == lower_seq(v@.take(i as int)),
        decreases v@.len() - i,
    {
        r.push(lower_char_exec(v[i]));
        i = i + 1;
        proof {
            assert(r@ =~= lower_seq(v@.take(i as int)));
        }
    }
    proof {
        assert(v@.take(v@.len() as int) =~= v@);
    }
    r
}

fn matches_at_exec(text: &Vec<char>, pat: &Vec<char>, i: usize) -> (r: bool)
    requires
        i + pat@.len() <= text@.len(),
    ensures
        r == matches_at(text@, pat@, i as int),
{
    let tlen = text.len();
    let mut j: usize = 0;
    while j < pat.len()
        invariant
            j <= pat@.len(),
            i + pat@.len() <= text@.len(),
            tlen == text@.len(),
            forall|k: int| 0 <= k < j ==> text@[i + k] == pat@[k],
        decreases pat@.len() - j,
    {
        assert(i + j < tlen);
        if text[i + j] != pat[j] {
            return false;
        }
        j = j + 1;
    }
    true
}

/// Whether `pat` occurs as a contiguous subsequence of `text`.
pub fn contains_chars(text: &Vec<char>, pat: &Vec<char>) -> (r: bool)
    ensures
        r == contains_seq(text@, pat@),
{
    if pat.len() > text.len() {
        return false;
    }
    let last = text.len() - pat.len();
    let mut i: usize = 0;
    loop
        invariant
            i <= last,
            last + pat@.len() == text@.len(),
            forall|k: int| 0 <= k < i ==> !matches_at(text@, pat@, k),
        decreases last - i,
    {
        if matches_at_exec(text, pat, i) {
            return true;
        }
        if i == last {
            return false;
        }
        i = i + 1;
    }
}

} // verus!

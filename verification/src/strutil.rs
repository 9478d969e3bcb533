//! Small verified string helpers shared by the rest of the library.

use vstd::prelude::*;
use vstd::string::StrSliceExecFns;
use vstd::string::StringExecFns;

verus! {

/// Character-wise equality of two string slices.
pub fn str_eq(a: &str, b: &str) -> (r: bool)
    ensures
        r == (a@ == b@),
{
    let alen = a.unicode_len();
    let blen = b.unicode_len();
    if alen != blen {
        return false;
    }
    let mut i: usize = 0;
    while i < alen
        invariant
            alen == a@.len(),
            blen == b@.len(),
            alen == blen,
            i <= alen,
            forall|j: int| 0 <= j < i ==> a@[j] == b@[j],
        decreases alen - i,
    {
        if a.get_char(i) != b.get_char(i) {
            return false;
        }
        i += 1;
    }
    proof {
        assert(a@ =~= b@);
    }
    true
}

/// The uppercase form of an ASCII lowercase letter; any other character
/// is left unchanged.
pub open spec fn cap_char(c: char) -> char {
    if c == 'a' { 'A' } else if c == 'b' { 'B' } else if c == 'c' { 'C' }
    else if c == 'd' { 'D' } else if c == 'e' { 'E' } else if c == 'f' { 'F' }
    else if c == 'g' { 'G' } else if c == 'h' { 'H' } else if c == 'i' { 'I' }
    else if c == 'j' { 'J' } else if c == 'k' { 'K' } else if c == 'l' { 'L' }
    else if c == 'm' { 'M' } else if c == 'n' { 'N' } else if c == 'o' { 'O' }
    else if c == 'p' { 'P' } else if c == 'q' { 'Q' } else if c == 'r' { 'R' }
    else if c == 's' { 'S' } else if c == 't' { 'T' } else if c == 'u' { 'U' }
    else if c == 'v' { 'V' } else if c == 'w' { 'W' } else if c == 'x' { 'X' }
    else if c == 'y' { 'Y' } else if c == 'z' { 'Z' } else { c }
}

/// A string with its first character uppercased (if it is an ASCII
/// lowercase letter) and the rest unchanged.
pub open spec fn capitalized(s: Seq<char>) -> Seq<char> {
    if s.len() == 0 {
        s
    } else {
        seq![cap_char(s[0])] + s.skip(1)
    }
}

fn upper_lit(c: char) -> (r: &'static str)
    requires
        'a' <= c && c <= 'z',
    ensures
        r@ == seq![cap_char(c)],
{
    let r: &'static str = if c == 'a' { "A" } else if c == 'b' { "B" } else if c == 'c' { "C" }
    else if c == 'd' { "D" } else if c == 'e' { "E" } else if c == 'f' { "F" }
    else if c == 'g' { "G" } else if c == 'h' { "H" } else if c == 'i' { "I" }
    else if c == 'j' { "J" } else if c == 'k' { "K" } else if c == 'l' { "L" }
    else if c == 'm' { "M" } else if c == 'n' { "N" } else if c == 'o' { "O" }
    else if c == 'p' { "P" } else if c == 'q' { "Q" } else if c == 'r' { "R" }
    else if c == 's' { "S" } else if c == 't' { "T" } else if c == 'u' { "U" }
    else if c == 'v' { "V" } else if c == 'w' { "W" } else if c == 'x' { "X" }
    else if c == 'y' { "Y" } else { "Z" };
    proof {
        reveal_strlit("A"); reveal_strlit("B"); reveal_strlit("C"); reveal_strlit("D");
        reveal_strlit("E"); reveal_strlit("F"); reveal_strlit("G"); reveal_strlit("H");
        reveal_strlit("I"); reveal_strlit("J"); reveal_strlit("K"); reveal_strlit("L");
        reveal_strlit("M"); reveal_strlit("N"); reveal_strlit("O"); reveal_strlit("P");
        reveal_strlit("Q"); reveal_strlit("R"); reveal_strlit("S"); reveal_strlit("T");
        reveal_strlit("U"); reveal_strlit("V"); reveal_strlit("W"); reveal_strlit("X");
        reveal_strlit("Y"); reveal_strlit("Z");
        assert(r@ =~= seq![cap_char(c)]);
    }
    r
}

/// Uppercase the first character of a string.
pub fn capitalize(s: &str) -> (r: String)
    ensures
        r@ == capitalized(s@),
{
    let n = s.unicode_len();
    if n == 0 {
        let r = String::new();
        proof {
            assert(r@ =~= capitalized(s@));
        }
        return r;
    }
    let c = s.get_char(0);
    let rest = s.substring_char(1, n);
    let mut r: String;
    if 'a' <= c && c <= 'z' {
        r = String::from_str(upper_lit(c));
    } else {
        r = String::from_str(s.substring_char(0, 1));
        proof {
            assert(s@.subrange(0, 1) =~= seq![cap_char(s@[0])]);
        }
    }
    r.append(rest);
    proof {
        assert(r@ =~= capitalized(s@));
    }
    r
}

} // verus!

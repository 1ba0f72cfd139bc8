//! Small operations on text that the rest of the library shares.

use vstd::prelude::*;
use vstd::string::{StrSliceExecFns, StringExecFns};

verus! {

/// Whether two strings hold the same characters.
pub fn same_text(a: &str, b: &str) -> (r: bool)
    ensures
        r == (a@ == b@),
{
    let x: String = a.to_owned();
    let y: String = b.to_owned();
    x == y
}

/// `s` with every occurrence of `pattern` taken out. Occurrences are found
/// from the left and do not overlap; an empty pattern takes nothing out.
pub open spec fn without(s: Seq<char>, pattern: Seq<char>) -> Seq<char>
    decreases s.len(),
{
    if pattern.len() == 0 || s.len() < pattern.len() {
        s
    } else if s.subrange(0, pattern.len() as int) == pattern {
        without(s.subrange(pattern.len() as int, s.len() as int), pattern)
    } else {
        seq![s[0]] + without(s.subrange(1, s.len() as int), pattern)
    }
}

/// Copies `s` and leaves out every occurrence of `pattern`.
pub fn strip_all(s: &str, pattern: &str) -> (r: String)
    ensures
        r@ == without(s@, pattern@),
{
    let n = s.unicode_len();
    let m = pattern.unicode_len();
    if m == 0 || n < m {
        return s.to_owned();
    }
    let mut out = String::new();
    let mut i: usize = 0;
    proof {
        assert(s@.subrange(0, n as int) =~= s@);
        assert(out@ + without(s@, pattern@) =~= without(s@, pattern@));
    }
    while i <= n - m
        invariant
            0 < m <= n,
            n == s@.len(),
            m == pattern@.len(),
            i <= n,
            out@ + without(s@.subrange(i as int, n as int), pattern@) == without(s@, pattern@),
        decreases n - i,
    {
        let ghost rest = s@.subrange(i as int, n as int);
        let window = s.substring_char(i, i + m);
        if same_text(window, pattern) {
            proof {
                assert(rest.subrange(0, m as int) =~= s@.subrange(i as int, i + m));
                assert(rest.subrange(m as int, rest.len() as int) =~= s@.subrange(
                    i + m,
                    n as int,
                ));
            }
            i = i + m;
        } else {
            let head = s.substring_char(i, i + 1);
            let ghost before = out@;
            out.append(head);
            proof {
                assert(rest.subrange(0, m as int) =~= s@.subrange(i as int, i + m));
                assert(rest.subrange(1, rest.len() as int) =~= s@.subrange(i + 1, n as int));
                assert(head@ =~= seq![rest[0]]);
                assert(out@ + without(s@.subrange(i + 1, n as int), pattern@) =~= before
                    + without(rest, pattern@));
            }
            i = i + 1;
        }
    }
    let tail = s.substring_char(i, n);
    out.append(tail);
    out
}

/// Whether `c` is a digit of lower-case hexadecimal notation.
pub open spec fn is_lower_hex(c: char) -> bool {
    ('0' <= c && c <= '9') || ('a' <= c && c <= 'f')
}

/// Whether every character of `s` is a lower-case hexadecimal digit.
pub open spec fn all_lower_hex(s: Seq<char>) -> bool {
    forall|i: int| 0 <= i < s.len() ==> is_lower_hex(#[trigger] s[i])
}

} // verus!

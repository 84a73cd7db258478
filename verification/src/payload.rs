//! The configuration payload grammar.
//!
//! The wire format between host and plugin carries the configuration as a
//! JSON-encoded string.  The shapes this plugin accepts are: a blank payload
//! (only whitespace), the `null` literal, and the one documented object shape
//! `{"all": <boolean>}`, each amid arbitrary JSON whitespace.  Everything
//! else is malformed and aborts the invocation.

use vstd::prelude::*;

verus! {

/// JSON insignificant whitespace.
pub open spec fn is_ws(c: char) -> bool {
    c == ' ' || c == '\t' || c == '\n' || c == '\r'
}

/// The first position at or after `i` that does not hold whitespace
/// (or the end of `s`).
pub open spec fn skip_ws(s: Seq<char>, i: int) -> int
    decreases s.len() - i,
{
    if 0 <= i && i < s.len() && is_ws(s[i]) {
        skip_ws(s, i + 1)
    } else {
        i
    }
}

/// `lit` stands in `s` at exactly position `i`.
pub open spec fn lit_at(s: Seq<char>, i: int, lit: Seq<char>) -> bool {
    0 <= i && i + lit.len() <= s.len() && s.subrange(i, i + lit.len() as int) == lit
}

/// A payload of only whitespace: the channel carried an empty value.
pub open spec fn payload_is_blank(s: Seq<char>) -> bool {
    skip_ws(s, 0) == s.len()
}

/// The JSON `null` literal amid whitespace.
pub open spec fn payload_is_null(s: Seq<char>) -> bool {
    let i = skip_ws(s, 0);
    lit_at(s, i, "null"@) && skip_ws(s, i + "null"@.len() as int) == s.len()
}

/// The one documented object shape, `{"all": <boolean>}`, amid whitespace:
/// the flag when the payload has exactly that shape, nothing otherwise.
pub open spec fn payload_all_flag(s: Seq<char>) -> Option<bool> {
    let i0 = skip_ws(s, 0);
    if !lit_at(s, i0, "{"@) {
        None
    } else {
        let i1 = skip_ws(s, i0 + "{"@.len() as int);
        if !lit_at(s, i1, "\"all\""@) {
            None
        } else {
            let i2 = skip_ws(s, i1 + "\"all\""@.len() as int);
            if !lit_at(s, i2, ":"@) {
                None
            } else {
                let i3 = skip_ws(s, i2 + ":"@.len() as int);
                if lit_at(s, i3, "true"@) {
                    if closed_after(s, i3 + "true"@.len() as int) {
                        Some(true)
                    } else {
                        None
                    }
                } else if lit_at(s, i3, "false"@) {
                    if closed_after(s, i3 + "false"@.len() as int) {
                        Some(false)
                    } else {
                        None
                    }
                } else {
                    None
                }
            }
        }
    }
}

/// From position `i` on, only whitespace, one `}`, and trailing whitespace.
pub open spec fn closed_after(s: Seq<char>, i: int) -> bool {
    let j = skip_ws(s, i);
    lit_at(s, j, "}"@) && skip_ws(s, j + "}"@.len() as int) == s.len()
}

/// Whether `c` is JSON whitespace.
pub(crate) fn is_ws_char(c: char) -> (b: bool)
    ensures
        b == is_ws(c),
{
    c == ' ' || c == '\t' || c == '\n' || c == '\r'
}

/// Advance past whitespace, counting positions in characters.
pub(crate) fn ws_end(s: &str, i: usize) -> (j: usize)
    requires
        i <= s@.len(),
    ensures
        j == skip_ws(s@, i as int),
        i <= j <= s@.len(),
{
    let n = s.unicode_len();
    let mut j = i;
    while j < n && is_ws_char(s.get_char(j))
        invariant
            i <= j <= n,
            n == s@.len(),
            skip_ws(s@, i as int) == skip_ws(s@, j as int),
        decreases n - j,
    {
        j = j + 1;
    }
    j
}

/// Whether, from position `i` on, `s` holds only whitespace, one `}`, and
/// trailing whitespace.
pub(crate) fn closed_at(s: &str, i: usize) -> (b: bool)
    requires
        i <= s@.len(),
    ensures
        b == closed_after(s@, i as int),
{
    let n = s.unicode_len();
    let j = ws_end(s, i);
    let rbrace = "}";
    if match_at(s, j, rbrace) {
        let k = ws_end(s, j + rbrace.unicode_len());
        k == n
    } else {
        false
    }
}

/// Whether `lit` stands in `s` at exactly position `i`.
pub(crate) fn match_at(s: &str, i: usize, lit: &str) -> (b: bool)
    requires
        i <= s@.len(),
    ensures
        b == lit_at(s@, i as int, lit@),
{
    let n = s.unicode_len();
    let m = lit.unicode_len();
    if m > n - i {
        return false;
    }
    let mut k: usize = 0;
    while k < m
        invariant
            0 <= k <= m,
            i + m <= n,
            n == s@.len(),
            m == lit@.len(),
            forall|q: int| 0 <= q < k ==> s@[i + q] == lit@[q],
        decreases m - k,
    {
        if s.get_char(i + k) != lit.get_char(k) {
            proof {
                if lit_at(s@, i as int, lit@) {
                    assert(s@.subrange(i as int, i + m as int)[k as int] == s@[i + k]);
                }
            }
            return false;
        }
        k = k + 1;
    }
    proof {
        assert(s@.subrange(i as int, i + m as int) =~= lit@);
    }
    true
}

} // verus!

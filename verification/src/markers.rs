//! Recognition of the pseudo-XML inline-block markers `<identifier>` and
//! `</identifier>` at the start of a line.
//!
//! A marker line begins exactly with `<` (or `</` for the closing form) at the
//! first character: leading whitespace disqualifies it. The identifier is a
//! non-empty run of non-whitespace characters terminated by `>`. The `>` that
//! ends the marker is the last `>` inside that run, and anything after it on
//! the line is ignored.

use vstd::prelude::*;

use crate::text::is_space;
use crate::text::is_space_char;
use crate::text::str_eq;
use crate::text::token_end;
use crate::text::lemma_token_end_bounds;

verus! {

/// The largest position in `[lo, hi)` holding `>`, or `-1` when there is
/// none.
pub open spec fn last_gt(s: Seq<char>, lo: int, hi: int) -> int
    decreases hi - lo,
{
    if hi <= lo {
        -1
    } else if s[hi - 1] == '>' {
        hi - 1
    } else {
        last_gt(s, lo, hi - 1)
    }
}

/// The marker identifier captured when the line's characters from position
/// `start` on read `identifier>`: the identifier is non-empty, contains no
/// whitespace, and ends at the last `>` of the non-whitespace run that begins
/// at `start`.
pub open spec fn marker_ident(s: Seq<char>, start: int) -> Option<Seq<char>> {
    let run_end = token_end(s, start);
    let gt = last_gt(s, start + 1, run_end);
    if gt >= start + 1 {
        Some(s.subrange(start, gt))
    } else {
        None
    }
}

/// The identifier of an opening marker `<identifier>` at the very start of
/// the line, if the line carries one.
pub open spec fn start_marker_ident(s: Seq<char>) -> Option<Seq<char>> {
    if s.len() >= 1 && s[0] == '<' {
        marker_ident(s, 1)
    } else {
        None
    }
}

/// The identifier of a closing marker `</identifier>` at the very start of
/// the line, if the line carries one.
pub open spec fn end_marker_ident(s: Seq<char>) -> Option<Seq<char>> {
    if s.len() >= 2 && s[0] == '<' && s[1] == '/' {
        marker_ident(s, 2)
    } else {
        None
    }
}

/// Extracts the marker identifier beginning at position `start`.
fn find_marker_ident(line: &str, start: usize) -> (r: Option<String>)
    requires
        start as int <= line@.len(),
    ensures
        r.deep_view() == marker_ident(line@, start as int),
{
    let n = line.unicode_len();
    proof {
        lemma_token_end_bounds(line@, start as int);
    }
    let mut j: usize = start;
    while j < n && !is_space_char(line.get_char(j))
        invariant
            n == line@.len(),
            start <= j <= n,
            token_end(line@, start as int) == token_end(line@, j as int),
        decreases n - j,
    {
        j += 1;
    }
    proof {
        assert(token_end(line@, j as int) == j as int);
    }
    let mut k: usize = j;
    loop
        invariant
            n == line@.len(),
            start <= n,
            k <= j <= n,
            token_end(line@, start as int) == j as int,
            last_gt(line@, start as int + 1, j as int) == last_gt(
                line@,
                start as int + 1,
                k as int,
            ),
        decreases k,
    {
        if k == 0 || k - 1 <= start {
            proof {
                assert(last_gt(line@, start as int + 1, k as int) == -1);
            }
            return None;
        }
        if line.get_char(k - 1) == '>' {
            let ident = line.substring_char(start, k - 1).to_owned();
            return Some(ident);
        }
        k -= 1;
    }
}

/// The opening marker's identifier, when `line` begins with one.
pub fn start_marker(line: &str) -> (r: Option<String>)
    ensures
        r.deep_view() == start_marker_ident(line@),
{
    let n = line.unicode_len();
    if n >= 1 && line.get_char(0) == '<' {
        find_marker_ident(line, 1)
    } else {
        None
    }
}

/// The closing marker's identifier, when `line` begins with one.
pub fn end_marker(line: &str) -> (r: Option<String>)
    ensures
        r.deep_view() == end_marker_ident(line@),
{
    let n = line.unicode_len();
    if n >= 2 && line.get_char(0) == '<' && line.get_char(1) == '/' {
        find_marker_ident(line, 2)
    } else {
        None
    }
}

/// The identifiers of the commands that may carry their file contents inline
/// between `<identifier>` and `</identifier>` markers.
pub open spec fn is_inline_ident(id: Seq<char>) -> bool {
    ||| id == "ca"@
    ||| id == "cert"@
    ||| id == "extra-certs"@
    ||| id == "dh"@
    ||| id == "key"@
    ||| id == "pkcs12"@
    ||| id == "crl-verify"@
    ||| id == "http-proxy-user-pass"@
    ||| id == "tls-auth"@
    ||| id == "tls-crypt"@
    ||| id == "secret"@
}

/// Decides [`is_inline_ident`].
pub fn is_inline_option(id: &str) -> (r: bool)
    ensures
        r == is_inline_ident(id@),
{
    str_eq(id, "ca") || str_eq(id, "cert") || str_eq(id, "extra-certs") || str_eq(id, "dh")
        || str_eq(id, "key") || str_eq(id, "pkcs12") || str_eq(id, "crl-verify") || str_eq(
        id,
        "http-proxy-user-pass",
    ) || str_eq(id, "tls-auth") || str_eq(id, "tls-crypt") || str_eq(id, "secret")
}

} // verus!

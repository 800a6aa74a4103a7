//! Character-level text handling: whitespace classification, comment
//! stripping, whitespace tokenization, and joining lines with newlines.

use vstd::prelude::*;

verus! {

/// The characters treated as whitespace, both when trimming a line and when
/// splitting it into tokens: the set matched by `char::is_whitespace`.
pub open spec fn is_space(c: char) -> bool {
    ||| c == ' '
    ||| c == '\t'
    ||| c == '\n'
    ||| c == '\u{000b}'
    ||| c == '\u{000c}'
    ||| c == '\r'
    ||| c == '\u{0085}'
    ||| c == '\u{00a0}'
    ||| c == '\u{1680}'
    ||| ('\u{2000}' <= c && c <= '\u{200a}')
    ||| c == '\u{2028}'
    ||| c == '\u{2029}'
    ||| c == '\u{202f}'
    ||| c == '\u{205f}'
    ||| c == '\u{3000}'
}

/// Decides [`is_space`] for one character.
pub fn is_space_char(c: char) -> (r: bool)
    ensures
        r == is_space(c),
{
    c == ' ' || c == '\t' || c == '\n' || c == '\u{000b}' || c == '\u{000c}' || c == '\r'
        || c == '\u{0085}' || c == '\u{00a0}' || c == '\u{1680}' || ('\u{2000}' <= c && c
        <= '\u{200a}') || c == '\u{2028}' || c == '\u{2029}' || c == '\u{202f}' || c == '\u{205f}'
        || c == '\u{3000}'
}

/// Character-by-character string equality, decided against the views.
pub fn str_eq(a: &str, b: &str) -> (r: bool)
    ensures
        r == (a@ == b@),
{
    let a_len = a.unicode_len();
    let b_len = b.unicode_len();
    if a_len != b_len {
        return false;
    }
    let mut i: usize = 0;
    while i < a_len
        invariant
            a_len == a@.len(),
            b_len == b@.len(),
            a_len == b_len,
            i <= a_len,
            forall|j: int| 0 <= j < i ==> a@[j] == b@[j],
        decreases a_len - i,
    {
        let ca = a.get_char(i);
        let cb = b.get_char(i);
        if ca != cb {
            return false;
        }
        i += 1;
    }
    proof {
        assert(a@ =~= b@);
    }
    true
}

/// Whether the whole line is skipped: it is blank, or its first
/// non-whitespace character is `#`.
pub open spec fn is_blank_or_comment(s: Seq<char>) -> bool
    decreases s.len(),
{
    if s.len() == 0 {
        true
    } else if is_space(s[0]) {
        is_blank_or_comment(s.drop_first())
    } else {
        s[0] == '#'
    }
}

/// Decides [`is_blank_or_comment`] for one line.
pub fn line_is_blank_or_comment(line: &str) -> (r: bool)
    ensures
        r == is_blank_or_comment(line@),
{
    let n = line.unicode_len();
    let mut i: usize = 0;
    proof {
        assert(line@.skip(0) =~= line@);
    }
    while i < n
        invariant
            n == line@.len(),
            i <= n,
            is_blank_or_comment(line@) == is_blank_or_comment(line@.skip(i as int)),
        decreases n - i,
    {
        let c = line.get_char(i);
        if !is_space_char(c) {
            proof {
                assert(line@.skip(i as int)[0] == c);
            }
            return c == '#';
        }
        proof {
            assert(line@.skip(i as int).drop_first() =~= line@.skip(i as int + 1));
        }
        i += 1;
    }
    proof {
        assert(line@.skip(i as int).len() == 0);
    }
    true
}

/// The number of leading characters of `s` before its first `#`; the whole
/// length when `s` has no `#`.
pub open spec fn hash_free_len(s: Seq<char>) -> int
    decreases s.len(),
{
    if s.len() == 0 {
        0
    } else if s[0] == '#' {
        0
    } else {
        1 + hash_free_len(s.drop_first())
    }
}

/// What remains of a command line once a trailing comment is removed:
/// everything from the first `#` onward is dropped.
pub open spec fn strip_comment(s: Seq<char>) -> Seq<char> {
    s.take(hash_free_len(s))
}

pub proof fn lemma_hash_free_len_bounds(s: Seq<char>)
    ensures
        0 <= hash_free_len(s) <= s.len(),
    decreases s.len(),
{
    if s.len() > 0 && s[0] != '#' {
        lemma_hash_free_len_bounds(s.drop_first());
    }
}

/// The comment-free prefix of `line`, as a borrowed slice.
pub fn comment_free_prefix(line: &str) -> (r: &str)
    ensures
        r@ == strip_comment(line@),
{
    let n = line.unicode_len();
    let mut i: usize = 0;
    proof {
        assert(line@.skip(0) =~= line@);
    }
    while i < n && line.get_char(i) != '#'
        invariant
            n == line@.len(),
            i <= n,
            hash_free_len(line@) == i + hash_free_len(line@.skip(i as int)),
        decreases n - i,
    {
        proof {
            assert(line@.skip(i as int)[0] == line@[i as int]);
            assert(line@.skip(i as int).drop_first() =~= line@.skip(i as int + 1));
        }
        i += 1;
    }
    proof {
        if i < n {
            assert(line@.skip(i as int)[0] == '#');
            assert(hash_free_len(line@.skip(i as int)) == 0);
        } else {
            assert(line@.skip(i as int).len() == 0);
        }
        assert(hash_free_len(line@) == i as int);
    }
    line.substring_char(0, i)
}

/// The position of the first whitespace character at or after `i`; the end of
/// `s` when the run of non-whitespace characters reaches it.
pub open spec fn token_end(s: Seq<char>, i: int) -> int
    decreases s.len() - i,
{
    if i < 0 || i >= s.len() {
        s.len() as int
    } else if is_space(s[i]) {
        i
    } else {
        token_end(s, i + 1)
    }
}

pub proof fn lemma_token_end_bounds(s: Seq<char>, i: int)
    requires
        0 <= i <= s.len(),
    ensures
        i <= token_end(s, i) <= s.len(),
        i < s.len() && !is_space(s[i]) ==> i < token_end(s, i),
    decreases s.len() - i,
{
    if i < s.len() && !is_space(s[i]) {
        lemma_token_end_bounds(s, i + 1);
    }
}

/// The whitespace-separated tokens of `s` from position `i` on: each token is
/// a maximal run of non-whitespace characters.
pub open spec fn tokens_from(s: Seq<char>, i: int) -> Seq<Seq<char>>
    decreases s.len() - i,
    via tokens_from_decreases
{
    if i < 0 || i >= s.len() {
        seq![]
    } else if is_space(s[i]) {
        tokens_from(s, i + 1)
    } else {
        seq![s.subrange(i, token_end(s, i))] + tokens_from(s, token_end(s, i))
    }
}

#[via_fn]
proof fn tokens_from_decreases(s: Seq<char>, i: int) {
    if 0 <= i < s.len() && !is_space(s[i]) {
        lemma_token_end_bounds(s, i);
    }
}

/// The whitespace-separated tokens of `s`.
pub open spec fn tokens_of(s: Seq<char>) -> Seq<Seq<char>> {
    tokens_from(s, 0)
}

/// The views of a sequence of strings.
pub open spec fn char_views(ss: Seq<String>) -> Seq<Seq<char>> {
    Seq::new(ss.len(), |i: int| ss[i]@)
}

/// Splits `s` into its whitespace-separated tokens.
pub fn split_tokens(s: &str) -> (toks: Vec<String>)
    ensures
        char_views(toks@) == tokens_of(s@),
{
    let n = s.unicode_len();
    let mut toks: Vec<String> = Vec::new();
    let mut i: usize = 0;
    while i < n
        invariant
            n == s@.len(),
            i <= n,
            char_views(toks@) + tokens_from(s@, i as int) == tokens_of(s@),
        decreases n - i,
    {
        let c = s.get_char(i);
        if is_space_char(c) {
            proof {
                assert(char_views(toks@) + tokens_from(s@, i as int + 1) =~= char_views(toks@)
                    + tokens_from(s@, i as int));
            }
            i += 1;
        } else {
            let mut j: usize = i + 1;
            while j < n && !is_space_char(s.get_char(j))
                invariant
                    n == s@.len(),
                    i < j <= n,
                    token_end(s@, i as int) == token_end(s@, j as int),
                decreases n - j,
            {
                j += 1;
            }
            proof {
                assert(token_end(s@, j as int) == j as int);
            }
            let tok = s.substring_char(i, j).to_owned();
            proof {
                let ghost prev = char_views(toks@);
                assert(char_views(toks@.push(tok)) =~= prev + seq![tok@]);
                assert((prev + seq![tok@]) + tokens_from(s@, j as int) =~= prev + (seq![tok@]
                    + tokens_from(s@, j as int)));
            }
            toks.push(tok);
            i = j;
        }
    }
    proof {
        assert(char_views(toks@) + tokens_from(s@, i as int) =~= char_views(toks@));
    }
    toks
}

/// The lines of an inline block joined by single newlines, with no trailing
/// newline.
pub open spec fn join_lines(ls: Seq<Seq<char>>) -> Seq<char>
    decreases ls.len(),
{
    if ls.len() == 0 {
        seq![]
    } else if ls.len() == 1 {
        ls[0]
    } else {
        ls[0] + seq!['\n'] + join_lines(ls.drop_first())
    }
}

pub proof fn lemma_join_lines_push(ls: Seq<Seq<char>>, x: Seq<char>)
    ensures
        join_lines(ls.push(x)) == if ls.len() == 0 {
            x
        } else {
            join_lines(ls) + seq!['\n'] + x
        },
    decreases ls.len(),
{
    if ls.len() == 0 {
        assert(ls.push(x)[0] == x);
    } else {
        lemma_join_lines_push(ls.drop_first(), x);
        assert(ls.push(x).drop_first() =~= ls.drop_first().push(x));
        assert(ls.push(x)[0] == ls[0]);
        if ls.len() == 1 {
            assert(join_lines(ls.push(x)) == ls[0] + seq!['\n'] + x);
        } else {
            assert(ls[0] + seq!['\n'] + (join_lines(ls.drop_first()) + seq!['\n'] + x) =~= (ls[0]
                + seq!['\n'] + join_lines(ls.drop_first())) + seq!['\n'] + x);
        }
    }
}

/// Joins `lines` with single newlines.
pub fn join_lines_exec(lines: &Vec<String>) -> (r: String)
    ensures
        r@ == join_lines(char_views(lines@)),
{
    let mut r = String::new();
    let mut i: usize = 0;
    proof {
        reveal_strlit("\n");
    }
    while i < lines.len()
        invariant
            i <= lines@.len(),
            r@ == join_lines(char_views(lines@).take(i as int)),
            "\n"@ =~= seq!['\n'],
        decreases lines@.len() - i,
    {
        if i > 0 {
            r.append("\n");
        }
        r.append(lines[i].as_str());
        proof {
            lemma_join_lines_push(char_views(lines@).take(i as int), lines@[i as int]@);
            assert(char_views(lines@).take(i as int).push(lines@[i as int]@) =~= char_views(
                lines@,
            ).take(i as int + 1));
        }
        i += 1;
    }
    proof {
        assert(char_views(lines@).take(lines@.len() as int) =~= char_views(lines@));
    }
    r
}

} // verus!

//! Character-level primitives used by the tokenizer.
//!
//! Every token is handled as a sequence of Unicode scalar values. The
//! specification side works on `Seq<char>`; the executable side works on a
//! `Vec<char>` copy of the token (for inspection) and on the `&str` itself
//! (for cutting out the pieces that are stored).

use vstd::prelude::*;

verus! {

/// The two characters that count as quoting: `"` and `'`.
pub open spec fn is_quote(c: char) -> bool {
    c == '"' || c == '\''
}

/// The predicate "is not a quoting character", as a value.
pub open spec fn not_quote() -> spec_fn(char) -> bool {
    |c: char| !is_quote(c)
}

/// `s` with every quoting character removed; the other characters keep their order.
pub open spec fn without_quotes(s: Seq<char>) -> Seq<char> {
    s.filter(not_quote())
}

/// No character of `s` is a quoting character.
pub open spec fn quote_free(s: Seq<char>) -> bool {
    forall|i: int| 0 <= i < s.len() ==> !is_quote(#[trigger] s[i])
}

/// `s` without one leading `=`, if it has one.
pub open spec fn without_leading_equals(s: Seq<char>) -> Seq<char> {
    if s.len() > 0 && s[0] == '=' {
        s.drop_first()
    } else {
        s
    }
}

/// The characters with the Unicode property `White_Space`.
pub open spec fn is_white_space(c: char) -> bool {
    ||| ('\u{9}' <= c && c <= '\u{d}')
    ||| c == ' '
    ||| c == '\u{85}'
    ||| c == '\u{a0}'
    ||| c == '\u{1680}'
    ||| ('\u{2000}' <= c && c <= '\u{200a}')
    ||| c == '\u{2028}'
    ||| c == '\u{2029}'
    ||| c == '\u{202f}'
    ||| c == '\u{205f}'
    ||| c == '\u{3000}'
}

/// `s` without its leading white space.
pub open spec fn trimmed_start(s: Seq<char>) -> Seq<char>
    decreases s.len(),
{
    if s.len() > 0 && is_white_space(s[0]) {
        trimmed_start(s.drop_first())
    } else {
        s
    }
}

/// `s` without its trailing white space.
pub open spec fn trimmed_end(s: Seq<char>) -> Seq<char>
    decreases s.len(),
{
    if s.len() > 0 && is_white_space(s.last()) {
        trimmed_end(s.drop_last())
    } else {
        s
    }
}

/// `s` without leading and trailing white space.
pub open spec fn trimmed(s: Seq<char>) -> Seq<char> {
    trimmed_end(trimmed_start(s))
}

/// The lower-case form of an ASCII capital letter; every other character is itself.
pub open spec fn ascii_lower(c: char) -> char {
    if 'A' <= c && c <= 'Z' {
        ((c as int) + 32) as char
    } else {
        c
    }
}

/// `s` with every ASCII capital letter replaced by its lower-case form.
pub open spec fn ascii_lowercase(s: Seq<char>) -> Seq<char> {
    s.map_values(|c: char| ascii_lower(c))
}

/// `pattern` stands in `s` at position `at`.
pub open spec fn occurs_at(pattern: Seq<char>, s: Seq<char>, at: int) -> bool {
    &&& 0 <= at
    &&& at + pattern.len() <= s.len()
    &&& s.subrange(at, at + pattern.len()) == pattern
}

/// `pattern` stands somewhere in `s`.
pub open spec fn occurs_in(pattern: Seq<char>, s: Seq<char>) -> bool {
    exists|at: int| occurs_at(pattern, s, at)
}

/// The characters of `s`, in order.
pub fn chars_of(s: &str) -> (v: Vec<char>)
    ensures
        v@ == s@,
{
    let mut v: Vec<char> = Vec::new();
    for c in it: s.chars()
        invariant
            it.seq() == s@,
            v@ == it.seq().take(it.index()),
    {
        v.push(c);
    }
    v
}

/// Tells whether `c` is a quoting character.
pub fn char_is_quote(c: char) -> (b: bool)
    ensures
        b == is_quote(c),
{
    c == '"' || c == '\''
}

/// Tells whether `c` is white space.
pub fn char_is_white_space(c: char) -> (b: bool)
    ensures
        b == is_white_space(c),
{
    ('\u{9}' <= c && c <= '\u{d}') || c == ' ' || c == '\u{85}' || c == '\u{a0}' || c == '\u{1680}'
        || ('\u{2000}' <= c && c <= '\u{200a}') || c == '\u{2028}' || c == '\u{2029}' || c
        == '\u{202f}' || c == '\u{205f}' || c == '\u{3000}'
}

/// Folds one ASCII capital letter to lower case.
pub fn to_ascii_lower(c: char) -> (r: char)
    ensures
        r == ascii_lower(c),
{
    if c >= 'A' && c <= 'Z' {
        ((c as u8) + 32u8) as char
    } else {
        c
    }
}

/// Tells whether `pattern` stands in `text` at position `at`.
pub fn matches_at(text: &Vec<char>, at: usize, pattern: &str) -> (b: bool)
    ensures
        b == occurs_at(pattern@, text@, at as int),
{
    let n = text.len();
    if at > n {
        return false;
    }
    let mut i: usize = at;
    for c in it: pattern.chars()
        invariant
            it.seq() == pattern@,
            n == text@.len(),
            i == at + it.index(),
            i <= n,
            forall|j: int| 0 <= j < it.index() ==> text@[at + j] == pattern@[j],
    {
        if i >= n || text[i] != c {
            proof {
                let k = it.index() as int;
                if occurs_at(pattern@, text@, at as int) {
                    assert(text@.subrange(at as int, at + pattern@.len())[k] == pattern@[k]);
                }
            }
            return false;
        }
        i += 1;
    }
    proof {
        assert(text@.subrange(at as int, at + pattern@.len()) =~= pattern@);
    }
    true
}

/// Tells whether `text` starts with `prefix`.
pub fn starts_with(text: &Vec<char>, prefix: &str) -> (b: bool)
    ensures
        b == prefix@.is_prefix_of(text@),
{
    let b = matches_at(text, 0, prefix);
    proof {
        if b {
            assert(prefix@ =~= text@.subrange(0, prefix@.len() as int));
        }
    }
    b
}

/// Tells whether `text`, with its ASCII capital letters folded to lower case, reads `folded`.
pub fn reads_ignoring_ascii_case(text: &Vec<char>, folded: &str) -> (b: bool)
    ensures
        b == (ascii_lowercase(text@) == folded@),
{
    let n = text.len();
    let mut i: usize = 0;
    for c in it: folded.chars()
        invariant
            it.seq() == folded@,
            n == text@.len(),
            i == it.index(),
            i <= n,
            forall|j: int| 0 <= j < it.index() ==> ascii_lower(text@[j]) == folded@[j],
    {
        if i >= n || to_ascii_lower(text[i]) != c {
            proof {
                let k = i as int;
                if ascii_lowercase(text@) == folded@ {
                    assert(ascii_lowercase(text@)[k] == folded@[k]);
                }
            }
            return false;
        }
        i += 1;
    }
    proof {
        if i == n {
            assert(ascii_lowercase(text@) =~= folded@);
        }
    }
    i == n
}

/// Tells whether `pattern` stands somewhere in `text`.
pub fn contains(text: &Vec<char>, pattern: &str) -> (b: bool)
    ensures
        b == occurs_in(pattern@, text@),
{
    let n = text.len();
    let mut at: usize = 0;
    while at < n
        invariant
            at <= n,
            n == text@.len(),
            forall|k: int| 0 <= k < at ==> !occurs_at(pattern@, text@, k),
        decreases n - at,
    {
        if matches_at(text, at, pattern) {
            return true;
        }
        at += 1;
    }
    // Behind the last character only an empty pattern stands.
    matches_at(text, n, pattern)
}

/// The bounds of `text` without its leading and trailing white space.
pub fn trim_bounds(text: &Vec<char>) -> (r: (usize, usize))
    ensures
        r.0 <= r.1 <= text@.len(),
        text@.subrange(r.0 as int, r.1 as int) == trimmed(text@),
{
    let n = text.len();
    let mut a: usize = 0;
    proof {
        assert(text@.skip(0) =~= text@);
    }
    while a < n && char_is_white_space(text[a])
        invariant
            a <= n,
            n == text@.len(),
            trimmed_start(text@) == trimmed_start(text@.skip(a as int)),
        decreases n - a,
    {
        proof {
            assert(text@.skip(a as int).drop_first() =~= text@.skip(a + 1));
        }
        a += 1;
    }
    let mut b: usize = n;
    proof {
        assert(trimmed_start(text@) == text@.skip(a as int));
        assert(text@.skip(a as int) =~= text@.subrange(a as int, b as int));
    }
    while a < b && char_is_white_space(text[b - 1])
        invariant
            a <= b <= n,
            n == text@.len(),
            trimmed(text@) == trimmed_end(text@.subrange(a as int, b as int)),
        decreases b - a,
    {
        proof {
            assert(text@.subrange(a as int, b as int).drop_last() =~= text@.subrange(
                a as int,
                b - 1,
            ));
        }
        b -= 1;
    }
    (a, b)
}

/// The piece of `source` between the character positions `from` and `to`, without its quoting
/// characters. `chars` holds the characters of `source`.
pub(crate) fn unquoted_range(source: &str, chars: &Vec<char>, from: usize, to: usize) -> (out:
    String)
    requires
        chars@ == source@,
        from <= to <= chars@.len(),
    ensures
        out@ == without_quotes(source@.subrange(from as int, to as int)),
{
    let mut out = String::new();
    let mut start: usize = from;
    let mut i: usize = from;
    proof {
        reveal(Seq::filter);
        assert(source@.subrange(from as int, from as int) =~= Seq::<char>::empty());
    }
    while i < to
        invariant
            chars@ == source@,
            from <= start <= i <= to <= chars@.len(),
            out@ + source@.subrange(start as int, i as int) == without_quotes(
                source@.subrange(from as int, i as int),
            ),
        decreases to - i,
    {
        let c = chars[i];
        proof {
            let before = source@.subrange(from as int, i as int);
            assert(source@.subrange(from as int, i + 1) =~= before.push(c));
            before.lemma_filter_push(c, not_quote());
        }
        if char_is_quote(c) {
            out.append(source.substring_char(start, i));
            start = i + 1;
            proof {
                assert(out@ + source@.subrange(start as int, i + 1) =~= out@);
            }
        } else {
            proof {
                assert(out@ + source@.subrange(start as int, i + 1) =~= (out@ + source@.subrange(
                    start as int,
                    i as int,
                )).push(c));
            }
        }
        i += 1;
    }
    out.append(source.substring_char(start, to));
    out
}

/// `s` without its quoting characters.
pub fn strip_quotes(s: &str) -> (out: String)
    ensures
        out@ == without_quotes(s@),
{
    let chars = chars_of(s);
    let n = chars.len();
    proof {
        assert(s@.subrange(0, n as int) =~= s@);
    }
    unquoted_range(s, &chars, 0, n)
}

/// `s` without leading and trailing white space.
pub fn trim(s: &str) -> (out: String)
    ensures
        out@ == trimmed(s@),
{
    let chars = chars_of(s);
    let (a, b) = trim_bounds(&chars);
    String::from_str(s.substring_char(a, b))
}

} // verus!

//! Character-level text helpers shared by the parsers.
//!
//! Git's machine-readable output is read line by line and field by field.
//! This module states, as spec functions over `Seq<char>`, what `str::lines`,
//! `str::split_whitespace`, `char::is_whitespace` and `u32::from_str` do, and
//! gives verified executable versions that the parsers are built on.
use vstd::prelude::*;
use vstd::string::StringExecFns;

verus! {

// ---------------------------------------------------------------------------
// Characters
// ---------------------------------------------------------------------------

/// Unicode `White_Space`, the property `char::is_whitespace` tests.
pub open spec fn is_ws(c: char) -> bool {
    let n = c as u32;
    ||| 0x9 <= n <= 0xd
    ||| n == 0x20
    ||| n == 0x85
    ||| n == 0xa0
    ||| n == 0x1680
    ||| 0x2000 <= n <= 0x200a
    ||| n == 0x2028
    ||| n == 0x2029
    ||| n == 0x202f
    ||| n == 0x205f
    ||| n == 0x3000
}

/// Whether `c` is Unicode whitespace.
pub fn is_whitespace(c: char) -> (r: bool)
    ensures
        r == is_ws(c),
{
    let n = c as u32;
    (0x9 <= n && n <= 0xd) || n == 0x20 || n == 0x85 || n == 0xa0 || n == 0x1680 || (0x2000
        <= n && n <= 0x200a) || n == 0x2028 || n == 0x2029 || n == 0x202f || n == 0x205f || n
        == 0x3000
}

/// Appends one character to a string (`String::push`).
#[verifier::external_body]
pub(crate) fn push_char(s: &mut String, c: char)
    ensures
        final(s)@ == old(s)@.push(c),
{
    s.push(c);
}

/// Appends `t` to `s`.
pub fn push_str(s: &mut String, t: &str)
    ensures
        final(s)@ == old(s)@ + t@,
{
    s.append(t);
}

/// A string holding the text `t`.
pub fn owned(t: &str) -> (r: String)
    ensures
        r@ == t@,
{
    t.to_owned()
}

/// Whether `s` holds a whitespace character.
pub fn contains_ws(s: &[char]) -> (r: bool)
    ensures
        r == exists|j: int| 0 <= j < s@.len() && is_ws(#[trigger] s@[j]),
{
    let mut i: usize = 0;
    while i < s.len()
        invariant
            i <= s@.len(),
            forall|j: int| 0 <= j < i ==> !is_ws(#[trigger] s@[j]),
        decreases s@.len() - i,
    {
        if is_whitespace(s[i]) {
            assert(is_ws(s@[i as int]));
            return true;
        }
        i += 1;
    }
    false
}

/// The characters of `s`, in order.
pub fn chars_of(s: &str) -> (v: Vec<char>)
    ensures
        v@ == s@,
{
    broadcast use vstd::string::group_string_axioms;

    let mut v: Vec<char> = Vec::new();
    for c in it: s.chars()
        invariant
            v@ == it.seq().subrange(0, it.index() as int),
            it.seq() == s@,
    {
        v.push(c);
    }
    v
}

/// A string holding `chars[start..end]`.
pub fn string_of(chars: &[char], start: usize, end: usize) -> (r: String)
    requires
        start <= end <= chars@.len(),
    ensures
        r@ == chars@.subrange(start as int, end as int),
{
    let mut r = String::new();
    let mut i = start;
    while i < end
        invariant
            start <= i <= end <= chars@.len(),
            r@ == chars@.subrange(start as int, i as int),
        decreases end - i,
    {
        push_char(&mut r, chars[i]);
        i += 1;
    }
    r
}

/// A string holding all of `chars`.
pub fn string_from(chars: &[char]) -> (r: String)
    ensures
        r@ == chars@,
{
    let r = string_of(chars, 0, chars.len());
    assert(chars@.subrange(0, chars@.len() as int) == chars@);
    r
}

/// Appends `chars[start..end]` to `s`.
pub fn append_range(s: &mut String, chars: &[char], start: usize, end: usize)
    requires
        start <= end <= chars@.len(),
    ensures
        final(s)@ == old(s)@ + chars@.subrange(start as int, end as int),
{
    let mut i = start;
    while i < end
        invariant
            start <= i <= end <= chars@.len(),
            s@ == old(s)@ + chars@.subrange(start as int, i as int),
        decreases end - i,
    {
        push_char(s, chars[i]);
        i += 1;
        assert(chars@.subrange(start as int, i as int) == chars@.subrange(
            start as int,
            i - 1,
        ).push(chars@[i - 1]));
    }
}

/// A copy of `chars[start..end]`.
pub fn sub_chars(chars: &[char], start: usize, end: usize) -> (r: Vec<char>)
    requires
        start <= end <= chars@.len(),
    ensures
        r@ == chars@.subrange(start as int, end as int),
{
    let mut r: Vec<char> = Vec::new();
    let mut i = start;
    while i < end
        invariant
            start <= i <= end <= chars@.len(),
            r@ == chars@.subrange(start as int, i as int),
        decreases end - i,
    {
        r.push(chars[i]);
        i += 1;
    }
    r
}

/// Whether the characters equal the text `lit`.
pub fn is_text(chars: &[char], lit: &str) -> (r: bool)
    ensures
        r == (chars@ == lit@),
{
    let l = chars_of(lit);
    chars_eq(chars, l.as_slice())
}

/// Whether the characters begin with the text `lit`.
pub fn begins_with(chars: &[char], lit: &str) -> (r: bool)
    ensures
        r == has_prefix(chars@, lit@),
{
    let l = chars_of(lit);
    starts_with(chars, l.as_slice())
}

/// Whether two character sequences are equal.
pub fn chars_eq(a: &[char], b: &[char]) -> (r: bool)
    ensures
        r == (a@ == b@),
{
    if a.len() != b.len() {
        return false;
    }
    let mut i: usize = 0;
    while i < a.len()
        invariant
            a@.len() == b@.len(),
            i <= a@.len(),
            forall|j: int| 0 <= j < i ==> a@[j] == b@[j],
        decreases a@.len() - i,
    {
        if a[i] != b[i] {
            return false;
        }
        i += 1;
    }
    assert(a@ =~= b@);
    true
}

/// Whether `s` begins with `p`.
pub open spec fn has_prefix(s: Seq<char>, p: Seq<char>) -> bool {
    p.len() <= s.len() && s.subrange(0, p.len() as int) == p
}

/// Whether `s` begins with `p`.
pub fn starts_with(s: &[char], p: &[char]) -> (r: bool)
    ensures
        r == has_prefix(s@, p@),
{
    if p.len() > s.len() {
        return false;
    }
    let mut i: usize = 0;
    while i < p.len()
        invariant
            p@.len() <= s@.len(),
            i <= p@.len(),
            forall|j: int| 0 <= j < i ==> s@[j] == p@[j],
        decreases p@.len() - i,
    {
        if s[i] != p[i] {
            assert(s@.subrange(0, p@.len() as int)[i as int] != p@[i as int]);
            return false;
        }
        i += 1;
    }
    assert(s@.subrange(0, p@.len() as int) =~= p@);
    true
}

/// Whether `s` contains the character `c`.
pub fn contains_char(s: &[char], c: char) -> (r: bool)
    ensures
        r == s@.contains(c),
{
    let mut i: usize = 0;
    while i < s.len()
        invariant
            i <= s@.len(),
            forall|j: int| 0 <= j < i ==> s@[j] != c,
        decreases s@.len() - i,
    {
        if s[i] == c {
            assert(s@[i as int] == c);
            return true;
        }
        i += 1;
    }
    false
}

// ---------------------------------------------------------------------------
// Searching
// ---------------------------------------------------------------------------

/// The index of the first element of `s` that satisfies `p`, or `s.len()`.
pub open spec fn find_first(s: Seq<char>, p: spec_fn(char) -> bool) -> int
    decreases s.len(),
{
    if s.len() == 0 {
        0
    } else if p(s[0]) {
        0
    } else {
        1 + find_first(s.drop_first(), p)
    }
}

pub proof fn lemma_find_first_bounds(s: Seq<char>, p: spec_fn(char) -> bool)
    ensures
        0 <= find_first(s, p) <= s.len(),
        forall|j: int| 0 <= j < find_first(s, p) ==> !p(#[trigger] s[j]),
        find_first(s, p) < s.len() ==> p(s[find_first(s, p)]),
    decreases s.len(),
{
    if s.len() > 0 && !p(s[0]) {
        lemma_find_first_bounds(s.drop_first(), p);
        assert forall|j: int| 0 <= j < find_first(s, p) implies !p(#[trigger] s[j]) by {
            if j > 0 {
                assert(s[j] == s.drop_first()[j - 1]);
            }
        }
    }
}

/// If no element before `k` satisfies `p`, and `k` is the end or satisfies
/// `p`, then `k` is the first match.
pub proof fn lemma_find_first_is(s: Seq<char>, p: spec_fn(char) -> bool, k: int)
    requires
        0 <= k <= s.len(),
        forall|j: int| 0 <= j < k ==> !p(#[trigger] s[j]),
        k < s.len() ==> p(s[k]),
    ensures
        find_first(s, p) == k,
    decreases s.len(),
{
    if s.len() > 0 && k > 0 {
        assert(!p(s[0]));
        assert forall|j: int| 0 <= j < k - 1 implies !p(#[trigger] s.drop_first()[j]) by {
            assert(s.drop_first()[j] == s[j + 1]);
        }
        lemma_find_first_is(s.drop_first(), p, k - 1);
    }
}

pub open spec fn is_newline(c: char) -> bool {
    c == '\n'
}

// ---------------------------------------------------------------------------
// Lines
// ---------------------------------------------------------------------------

/// A line with one trailing `'\r'` removed (the `\r\n` ending case).
pub open spec fn strip_cr(l: Seq<char>) -> Seq<char> {
    if l.len() > 0 && l.last() == '\r' {
        l.drop_last()
    } else {
        l
    }
}

/// What `str::lines` yields: the text split at `'\n'`, each line without its
/// `\n` or `\r\n` ending, and no empty line after a final line ending.
pub open spec fn lines(s: Seq<char>) -> Seq<Seq<char>>
    decreases s.len(),
{
    if s.len() == 0 {
        seq![]
    } else {
        let k = find_first(s, |c: char| is_newline(c));
        if k >= s.len() {
            seq![s]
        } else {
            proof {
                lemma_find_first_bounds(s, |c: char| is_newline(c));
            }
            seq![strip_cr(s.subrange(0, k))] + lines(s.subrange(k + 1, s.len() as int))
        }
    }
}

pub open spec fn opt_view(o: Option<String>) -> Option<Seq<char>> {
    match o {
        Some(s) => Some(s@),
        None => None,
    }
}

pub open spec fn views(v: Seq<Vec<char>>) -> Seq<Seq<char>> {
    v.map_values(|x: Vec<char>| x@)
}

/// `chars[start..end]` with a trailing `'\r'` removed.
fn line_without_cr(chars: &Vec<char>, start: usize, end: usize) -> (r: Vec<char>)
    requires
        start <= end <= chars@.len(),
    ensures
        r@ == strip_cr(chars@.subrange(start as int, end as int)),
{
    let mut stop = end;
    if end > start && chars[end - 1] == '\r' {
        stop = end - 1;
    }
    let mut r: Vec<char> = Vec::new();
    let mut i = start;
    while i < stop
        invariant
            start <= i <= stop <= end <= chars@.len(),
            r@ == chars@.subrange(start as int, i as int),
        decreases stop - i,
    {
        r.push(chars[i]);
        i += 1;
    }
    assert(r@ =~= strip_cr(chars@.subrange(start as int, end as int)));
    r
}

/// The lines of `chars`, as `str::lines` yields them.
pub fn split_lines(chars: &Vec<char>) -> (r: Vec<Vec<char>>)
    ensures
        views(r@) == lines(chars@),
{
    let ghost s = chars@;
    let mut r: Vec<Vec<char>> = Vec::new();
    let mut seg: usize = 0;
    let mut i: usize = 0;
    assert(s.subrange(0, s.len() as int) == s);
    while i < chars.len()
        invariant
            s == chars@,
            seg <= i <= s.len(),
            forall|j: int| seg <= j < i ==> s[j] != '\n',
            lines(s) == views(r@) + lines(s.subrange(seg as int, s.len() as int)),
        decreases s.len() - i,
    {
        if chars[i] == '\n' {
            let ghost sub = s.subrange(seg as int, s.len() as int);
            proof {
                let p = |c: char| is_newline(c);
                assert forall|j: int| 0 <= j < i - seg implies !p(#[trigger] sub[j]) by {
                    assert(sub[j] == s[seg + j]);
                }
                lemma_find_first_is(sub, p, i - seg);
                assert(sub.subrange(0, i - seg) == s.subrange(seg as int, i as int));
                assert(sub.subrange(i - seg + 1, sub.len() as int) == s.subrange(
                    i + 1,
                    s.len() as int,
                ));
            }
            let line = line_without_cr(chars, seg, i);
            let ghost before = r@;
            r.push(line);
            proof {
                assert(views(r@) =~= views(before).push(line@));
                assert(lines(sub) == seq![strip_cr(s.subrange(seg as int, i as int))] + lines(
                    s.subrange(i + 1, s.len() as int),
                ));
                assert(views(before) + lines(sub) =~= views(r@) + lines(
                    s.subrange(i + 1, s.len() as int),
                ));
            }
            seg = i + 1;
        }
        i += 1;
    }
    if seg < chars.len() {
        let ghost sub = s.subrange(seg as int, s.len() as int);
        proof {
            let p = |c: char| is_newline(c);
            assert forall|j: int| 0 <= j < sub.len() implies !p(#[trigger] sub[j]) by {
                assert(sub[j] == s[seg + j]);
            }
            lemma_find_first_is(sub, p, sub.len() as int);
        }
        let mut last: Vec<char> = Vec::new();
        let mut k = seg;
        while k < chars.len()
            invariant
                s == chars@,
                seg <= k <= s.len(),
                last@ == s.subrange(seg as int, k as int),
            decreases s.len() - k,
        {
            last.push(chars[k]);
            k += 1;
        }
        let ghost before = r@;
        r.push(last);
        assert(views(r@) =~= views(before).push(sub));
        assert(lines(sub) == seq![sub]);
    } else {
        assert(s.subrange(seg as int, s.len() as int) =~= Seq::<char>::empty());
    }
    assert(views(r@) =~= lines(s));
    r
}

// ---------------------------------------------------------------------------
// Tokens: maximal runs of characters that are not separators
// ---------------------------------------------------------------------------

/// The maximal runs of characters of `s` that are not separators, in order;
/// separators and empty runs are dropped.
pub open spec fn tokens(s: Seq<char>, sep: spec_fn(char) -> bool) -> Seq<Seq<char>>
    decreases s.len(),
{
    let a = find_first(s, |c: char| !sep(c));
    if a >= s.len() {
        seq![]
    } else {
        proof {
            lemma_find_first_bounds(s, |c: char| !sep(c));
        }
        let rest = s.subrange(a, s.len() as int);
        let b = find_first(rest, sep);
        proof {
            lemma_find_first_bounds(rest, sep);
            assert(rest[0] == s[a]);
            if b == 0 {
                assert(rest.len() > 0);
            }
        }
        if b <= 0 {
            seq![]
        } else {
            seq![rest.subrange(0, b)] + tokens(rest.subrange(b, rest.len() as int), sep)
        }
    }
}

/// Every token is non-empty.
pub proof fn lemma_tokens_nonempty(s: Seq<char>, sep: spec_fn(char) -> bool)
    ensures
        forall|i: int|
            0 <= i < tokens(s, sep).len() ==> #[trigger] tokens(s, sep)[i].len() > 0,
    decreases s.len(),
{
    let a = find_first(s, |c: char| !sep(c));
    lemma_find_first_bounds(s, |c: char| !sep(c));
    if a < s.len() {
        let rest = s.subrange(a, s.len() as int);
        let b = find_first(rest, sep);
        lemma_find_first_bounds(rest, sep);
        if b > 0 {
            let tail = rest.subrange(b, rest.len() as int);
            lemma_tokens_nonempty(tail, sep);
            assert(tokens(s, sep) == seq![rest.subrange(0, b)] + tokens(tail, sep));
            assert forall|i: int| 0 <= i < tokens(s, sep).len() implies #[trigger] tokens(
                s,
                sep,
            )[i].len() > 0 by {
                if i > 0 {
                    assert(tokens(s, sep)[i] == tokens(tail, sep)[i - 1]);
                }
            }
        }
    }
}

pub proof fn lemma_tokens_skip_sep(s: Seq<char>, sep: spec_fn(char) -> bool)
    requires
        s.len() > 0,
        sep(s[0]),
    ensures
        tokens(s, sep) == tokens(s.drop_first(), sep),
{
    let p = |c: char| !sep(c);
    lemma_find_first_bounds(s.drop_first(), p);
    let a = find_first(s.drop_first(), p);
    assert(find_first(s, p) == 1 + a);
    assert(s.subrange(1 + a, s.len() as int) =~= s.drop_first().subrange(
        a,
        s.drop_first().len() as int,
    ));
}

pub proof fn lemma_tokens_take(s: Seq<char>, sep: spec_fn(char) -> bool, k: int)
    requires
        1 <= k <= s.len(),
        forall|j: int| 0 <= j < k ==> !sep(#[trigger] s[j]),
        k < s.len() ==> sep(s[k]),
    ensures
        tokens(s, sep) == seq![s.subrange(0, k)] + tokens(s.subrange(k, s.len() as int), sep),
{
    let p = |c: char| !sep(c);
    assert(p(s[0]));
    lemma_find_first_is(s, p, 0);
    assert(s.subrange(0, s.len() as int) =~= s);
    lemma_find_first_is(s, sep, k);
}

pub open spec fn ws_sep() -> spec_fn(char) -> bool {
    |c: char| is_ws(c)
}

/// What `str::split_whitespace` yields: the maximal runs of non-whitespace
/// characters, in order.
pub open spec fn words(s: Seq<char>) -> Seq<Seq<char>> {
    tokens(s, ws_sep())
}

/// Every word is non-empty.
pub proof fn lemma_words_nonempty(s: Seq<char>)
    ensures
        forall|i: int| 0 <= i < words(s).len() ==> #[trigger] words(s)[i].len() > 0,
{
    lemma_tokens_nonempty(s, ws_sep());
}

/// The whitespace-separated words of `chars`, as `str::split_whitespace`.
pub fn split_whitespace(chars: &[char]) -> (r: Vec<Vec<char>>)
    ensures
        views(r@) == words(chars@),
{
    let ghost s = chars@;
    let ghost sep = ws_sep();
    let mut r: Vec<Vec<char>> = Vec::new();
    let mut i: usize = 0;
    assert(s.subrange(0, s.len() as int) =~= s);
    while i < chars.len()
        invariant
            s == chars@,
            sep == ws_sep(),
            i <= s.len(),
            words(s) == views(r@) + tokens(s.subrange(i as int, s.len() as int), sep),
        decreases s.len() - i,
    {
        if is_whitespace(chars[i]) {
            proof {
                let sub = s.subrange(i as int, s.len() as int);
                lemma_tokens_skip_sep(sub, sep);
                assert(sub.drop_first() =~= s.subrange(i + 1, s.len() as int));
            }
            i += 1;
        } else {
            let start = i;
            let mut word: Vec<char> = Vec::new();
            while i < chars.len() && !is_whitespace(chars[i])
                invariant
                    s == chars@,
                    sep == ws_sep(),
                    start <= i <= s.len(),
                    forall|j: int| start <= j < i ==> !sep(#[trigger] s[j]),
                    word@ == s.subrange(start as int, i as int),
                decreases s.len() - i,
            {
                word.push(chars[i]);
                i += 1;
            }
            proof {
                let sub = s.subrange(start as int, s.len() as int);
                assert forall|j: int| 0 <= j < i - start implies !sep(#[trigger] sub[j]) by {
                    assert(sub[j] == s[start + j]);
                }
                lemma_tokens_take(sub, sep, i - start);
                assert(sub.subrange(0, i - start) =~= word@);
                assert(sub.subrange(i - start, sub.len() as int) =~= s.subrange(
                    i as int,
                    s.len() as int,
                ));
            }
            let ghost before = r@;
            r.push(word);
            assert(views(r@) =~= views(before).push(word@));
            assert(views(before) + (seq![word@] + tokens(s.subrange(i as int, s.len() as int), sep))
                =~= views(r@) + tokens(s.subrange(i as int, s.len() as int), sep));
        }
    }
    assert(s.subrange(s.len() as int, s.len() as int) =~= Seq::<char>::empty());
    assert(views(r@) =~= words(s));
    r
}

/// The separator test for one character.
pub open spec fn char_sep(sep: char) -> spec_fn(char) -> bool {
    |c: char| c == sep
}

pub open spec fn nul_sep() -> spec_fn(char) -> bool {
    char_sep('\0')
}

/// What `s.split('\0').filter(|e| !e.is_empty())` yields.
pub open spec fn nul_entries(s: Seq<char>) -> Seq<Seq<char>> {
    tokens(s, nul_sep())
}

/// The non-empty runs of `chars` between occurrences of `sep`.
pub fn split_on(chars: &[char], sep_char: char) -> (r: Vec<Vec<char>>)
    ensures
        views(r@) == tokens(chars@, char_sep(sep_char)),
{
    let ghost s = chars@;
    let ghost sep = char_sep(sep_char);
    let mut r: Vec<Vec<char>> = Vec::new();
    let mut i: usize = 0;
    assert(s.subrange(0, s.len() as int) =~= s);
    while i < chars.len()
        invariant
            s == chars@,
            sep == char_sep(sep_char),
            i <= s.len(),
            tokens(s, sep) == views(r@) + tokens(s.subrange(i as int, s.len() as int), sep),
        decreases s.len() - i,
    {
        if chars[i] == sep_char {
            proof {
                let sub = s.subrange(i as int, s.len() as int);
                lemma_tokens_skip_sep(sub, sep);
                assert(sub.drop_first() =~= s.subrange(i + 1, s.len() as int));
            }
            i += 1;
        } else {
            let start = i;
            let mut entry: Vec<char> = Vec::new();
            while i < chars.len() && chars[i] != sep_char
                invariant
                    s == chars@,
                    sep == char_sep(sep_char),
                    start <= i <= s.len(),
                    forall|j: int| start <= j < i ==> !sep(#[trigger] s[j]),
                    entry@ == s.subrange(start as int, i as int),
                decreases s.len() - i,
            {
                entry.push(chars[i]);
                i += 1;
            }
            proof {
                let sub = s.subrange(start as int, s.len() as int);
                assert forall|j: int| 0 <= j < i - start implies !sep(#[trigger] sub[j]) by {
                    assert(sub[j] == s[start + j]);
                }
                lemma_tokens_take(sub, sep, i - start);
                assert(sub.subrange(0, i - start) =~= entry@);
                assert(sub.subrange(i - start, sub.len() as int) =~= s.subrange(
                    i as int,
                    s.len() as int,
                ));
            }
            let ghost before = r@;
            r.push(entry);
            assert(views(r@) =~= views(before).push(entry@));
            assert(views(before) + (seq![entry@] + tokens(s.subrange(i as int, s.len() as int), sep))
                =~= views(r@) + tokens(s.subrange(i as int, s.len() as int), sep));
        }
    }
    assert(s.subrange(s.len() as int, s.len() as int) =~= Seq::<char>::empty());
    assert(views(r@) =~= tokens(s, sep));
    r
}

/// The non-empty NUL-separated entries of `chars`.
pub fn split_nul(chars: &[char]) -> (r: Vec<Vec<char>>)
    ensures
        views(r@) == nul_entries(chars@),
{
    split_on(chars, '\0')
}

// ---------------------------------------------------------------------------
// Numbers
// ---------------------------------------------------------------------------

pub open spec fn is_digit(c: char) -> bool {
    '0' <= c <= '9'
}

pub open spec fn digit_value(c: char) -> nat {
    ((c as u32) - ('0' as u32)) as nat
}

/// The value of a run of decimal digits.
pub open spec fn decimal_value(d: Seq<char>) -> nat
    decreases d.len(),
{
    if d.len() == 0 {
        0
    } else {
        decimal_value(d.drop_last()) * 10 + digit_value(d.last())
    }
}

pub open spec fn all_digits(d: Seq<char>) -> bool {
    forall|i: int| 0 <= i < d.len() ==> is_digit(#[trigger] d[i])
}

/// What `s.parse::<u32>()` gives: an optional `+`, then one or more ASCII
/// digits whose value fits in a `u32`; anything else is an error (`None`).
pub open spec fn parse_u32(s: Seq<char>) -> Option<u32> {
    let d = if s.len() > 0 && s[0] == '+' {
        s.drop_first()
    } else {
        s
    };
    if d.len() == 0 || !all_digits(d) || decimal_value(d) > u32::MAX {
        None
    } else {
        Some(decimal_value(d) as u32)
    }
}

proof fn lemma_decimal_value_grows(d: Seq<char>, k: int)
    requires
        0 <= k <= d.len(),
    ensures
        decimal_value(d) >= decimal_value(d.subrange(0, k)),
    decreases d.len(),
{
    if k < d.len() {
        assert(d.subrange(0, k) == d.drop_last().subrange(0, k));
        lemma_decimal_value_grows(d.drop_last(), k);
        assert(decimal_value(d) >= decimal_value(d.drop_last()) * 10) by (nonlinear_arith)
            requires
                decimal_value(d) == decimal_value(d.drop_last()) * 10 + digit_value(d.last()),
        ;
        assert(decimal_value(d.drop_last()) * 10 >= decimal_value(d.drop_last()))
            by (nonlinear_arith);
    } else {
        assert(d.subrange(0, k) == d);
    }
}

/// Parses a `u32` as `str::parse::<u32>` does.
pub fn parse_u32_chars(s: &[char]) -> (r: Option<u32>)
    ensures
        r == parse_u32(s@),
{
    let ghost d = if s@.len() > 0 && s@[0] == '+' {
        s@.drop_first()
    } else {
        s@
    };
    let start: usize = if s.len() > 0 && s[0] == '+' {
        1
    } else {
        0
    };
    assert(d == s@.subrange(start as int, s@.len() as int));
    if start >= s.len() {
        return None;
    }
    let mut value: u64 = 0;
    let mut i = start;
    while i < s.len()
        invariant
            d == s@.subrange(start as int, s@.len() as int),
            d == (if s@.len() > 0 && s@[0] == '+' {
                s@.drop_first()
            } else {
                s@
            }),
            start <= i <= s@.len(),
            all_digits(s@.subrange(start as int, i as int)),
            value == decimal_value(s@.subrange(start as int, i as int)),
            value <= u32::MAX,
        decreases s@.len() - i,
    {
        let c = s[i];
        if !('0' <= c && c <= '9') {
            assert(d[i - start] == c);
            assert(!is_digit(d[i - start]));
            assert(!all_digits(d));
            return None;
        }
        let ghost pre = s@.subrange(start as int, i as int);
        let ghost next = s@.subrange(start as int, i + 1);
        assert(next.drop_last() == pre);
        assert(next.last() == c);
        let digit = (c as u32 - '0' as u32) as u64;
        value = value * 10 + digit;
        i += 1;
        assert(value == decimal_value(next));
        assert(all_digits(next)) by {
            assert forall|j: int| 0 <= j < next.len() implies is_digit(#[trigger] next[j]) by {
                if j < pre.len() {
                    assert(next[j] == pre[j]);
                }
            }
        }
        if value > 0xffff_ffff {
            proof {
                lemma_decimal_value_grows(d, i - start);
                assert(d.subrange(0, i - start) == next);
                assert(decimal_value(d) > u32::MAX);
            }
            return None;
        }
    }
    assert(s@.subrange(start as int, s@.len() as int) == d);
    Some(value as u32)
}

/// Decimal digits of `n`, most significant first, as `{}` formats an integer.
pub open spec fn decimal(n: nat) -> Seq<char>
    decreases n,
{
    if n < 10 {
        seq![digit_char(n)]
    } else {
        decimal(n / 10).push(digit_char(n % 10))
    }
}

/// The digits of `n` are digits, and read back as `n`.
pub proof fn lemma_decimal_reads_back(n: nat)
    ensures
        decimal(n).len() > 0,
        all_digits(decimal(n)),
        decimal_value(decimal(n)) == n,
        forall|i: int| 0 <= i < decimal(n).len() ==> !is_ws(#[trigger] decimal(n)[i]),
    decreases n,
{
    if n < 10 {
        let d = decimal(n);
        assert(d.drop_last() =~= Seq::<char>::empty());
        assert(decimal_value(Seq::<char>::empty()) == 0);
        assert(d.last() == digit_char(n));
        assert(digit_value(digit_char(n)) == n);
        assert(decimal_value(d) == decimal_value(d.drop_last()) * 10 + digit_value(d.last()));
    } else {
        lemma_decimal_reads_back(n / 10);
        let d = decimal(n);
        let p = decimal(n / 10);
        assert(d.drop_last() =~= p);
        assert(d.last() == digit_char(n % 10));
        assert(digit_value(digit_char(n % 10)) == n % 10);
        assert(decimal_value(d) == decimal_value(p) * 10 + digit_value(d.last()));
        assert(n == (n / 10) * 10 + n % 10);
        assert forall|i: int| 0 <= i < d.len() implies is_digit(#[trigger] d[i]) && !is_ws(d[i]) by {
            if i < p.len() {
                assert(d[i] == p[i]);
            }
        }
    }
}

/// `s.parse::<u32>()` of the decimal digits of a `u32` gives it back.
pub proof fn decimal_parses_back(n: u32)
    ensures
        parse_u32(decimal(n as nat)) == Some(n),
{
    lemma_decimal_reads_back(n as nat);
    assert(is_digit(decimal(n as nat)[0]));
}

/// A non-empty run without whitespace, then whitespace, then more text: the
/// run is the first word, and the rest are the words of what follows.
pub proof fn lemma_word_then(a: Seq<char>, w: char, rest: Seq<char>)
    requires
        a.len() > 0,
        is_ws(w),
        forall|i: int| 0 <= i < a.len() ==> !is_ws(#[trigger] a[i]),
    ensures
        words(a + seq![w] + rest) == seq![a] + words(rest),
{
    let s = a + seq![w] + rest;
    let sep = ws_sep();
    assert forall|j: int| 0 <= j < a.len() implies !sep(#[trigger] s[j]) by {
        assert(s[j] == a[j]);
    }
    assert(s[a.len() as int] == w);
    lemma_tokens_take(s, sep, a.len() as int);
    assert(s.subrange(0, a.len() as int) =~= a);
    let tail = s.subrange(a.len() as int, s.len() as int);
    assert(tail =~= seq![w] + rest);
    lemma_tokens_skip_sep(tail, sep);
    assert(tail.drop_first() =~= rest);
}

/// A non-empty run without whitespace is a single word.
pub proof fn lemma_single_word(a: Seq<char>)
    requires
        a.len() > 0,
        forall|i: int| 0 <= i < a.len() ==> !is_ws(#[trigger] a[i]),
    ensures
        words(a) == seq![a],
{
    let sep = ws_sep();
    assert forall|j: int| 0 <= j < a.len() implies !sep(#[trigger] a[j]) by {}
    lemma_tokens_take(a, sep, a.len() as int);
    assert(a.subrange(0, a.len() as int) =~= a);
    let e = a.subrange(a.len() as int, a.len() as int);
    assert(e =~= Seq::<char>::empty());
    lemma_find_first_bounds(e, |c: char| !sep(c));
    assert(tokens(e, sep) =~= Seq::<Seq<char>>::empty());
    assert(seq![a] + Seq::<Seq<char>>::empty() =~= seq![a]);
}

/// The words of `a`, a whitespace character `w`, and `b`, where `a` and `b`
/// are non-empty and hold no whitespace, are `a` and `b`.
pub proof fn lemma_two_words(a: Seq<char>, w: char, b: Seq<char>)
    requires
        a.len() > 0,
        b.len() > 0,
        is_ws(w),
        forall|i: int| 0 <= i < a.len() ==> !is_ws(#[trigger] a[i]),
        forall|i: int| 0 <= i < b.len() ==> !is_ws(#[trigger] b[i]),
    ensures
        words(a + seq![w] + b) == seq![a, b],
{
    let s = a + seq![w] + b;
    let sep = ws_sep();
    assert forall|j: int| 0 <= j < a.len() implies !sep(#[trigger] s[j]) by {
        assert(s[j] == a[j]);
    }
    assert(s[a.len() as int] == w);
    lemma_tokens_take(s, sep, a.len() as int);
    assert(s.subrange(0, a.len() as int) =~= a);
    let rest = s.subrange(a.len() as int, s.len() as int);
    assert(rest =~= seq![w] + b);
    lemma_tokens_skip_sep(rest, sep);
    assert(rest.drop_first() =~= b);
    assert forall|j: int| 0 <= j < b.len() implies !sep(#[trigger] b[j]) by {}
    lemma_tokens_take(b, sep, b.len() as int);
    assert(b.subrange(0, b.len() as int) =~= b);
    let e = b.subrange(b.len() as int, b.len() as int);
    assert(e =~= Seq::<char>::empty());
    lemma_find_first_bounds(e, |c: char| !sep(c));
    assert(tokens(e, sep) =~= Seq::<Seq<char>>::empty());
    assert(seq![a] + (seq![b] + Seq::<Seq<char>>::empty()) =~= seq![a, b]);
}

pub open spec fn digit_char(n: nat) -> char {
    if n == 0 {
        '0'
    } else if n == 1 {
        '1'
    } else if n == 2 {
        '2'
    } else if n == 3 {
        '3'
    } else if n == 4 {
        '4'
    } else if n == 5 {
        '5'
    } else if n == 6 {
        '6'
    } else if n == 7 {
        '7'
    } else if n == 8 {
        '8'
    } else {
        '9'
    }
}

fn digit_to_char(n: u64) -> (c: char)
    requires
        n < 10,
    ensures
        c == digit_char(n as nat),
{
    if n == 0 {
        '0'
    } else if n == 1 {
        '1'
    } else if n == 2 {
        '2'
    } else if n == 3 {
        '3'
    } else if n == 4 {
        '4'
    } else if n == 5 {
        '5'
    } else if n == 6 {
        '6'
    } else if n == 7 {
        '7'
    } else if n == 8 {
        '8'
    } else {
        '9'
    }
}

/// Appends the decimal form of `n` to `s`.
pub fn push_decimal(s: &mut String, n: u64)
    ensures
        final(s)@ == old(s)@ + decimal(n as nat),
    decreases n,
{
    if n < 10 {
        push_char(s, digit_to_char(n));
        assert(old(s)@.push(digit_char(n as nat)) =~= old(s)@ + decimal(n as nat));
    } else {
        push_decimal(s, n / 10);
        push_char(s, digit_to_char(n % 10));
        assert((old(s)@ + decimal((n / 10) as nat)).push(digit_char((n % 10) as nat))
            =~= old(s)@ + decimal(n as nat));
    }
}

/// The decimal form of `n`, as `n.to_string()`.
pub fn decimal_string(n: u64) -> (r: String)
    ensures
        r@ == decimal(n as nat),
{
    let mut r = String::new();
    push_decimal(&mut r, n);
    assert(Seq::<char>::empty() + decimal(n as nat) =~= decimal(n as nat));
    r
}


// ---------------------------------------------------------------------------
// Byte-length prefixes
// ---------------------------------------------------------------------------

/// The number of bytes `c` takes in UTF-8.
pub open spec fn char_width(c: char) -> int {
    let n = c as u32;
    if n < 0x80 {
        1
    } else if n < 0x800 {
        2
    } else if n < 0x10000 {
        3
    } else {
        4
    }
}

/// Walking `s` from index `i` with `budget` bytes left: the end index of the
/// prefix that is exactly the budget long, or `s.len()` when all of `s` fits
/// or when the budget ends inside a character.
pub open spec fn short_end(s: Seq<char>, i: int, budget: int) -> int
    decreases s.len() - i,
{
    if i >= s.len() {
        s.len() as int
    } else if char_width(s[i]) > budget {
        if budget == 0 {
            i
        } else {
            s.len() as int
        }
    } else {
        short_end(s, i + 1, budget - char_width(s[i]))
    }
}

/// Whether the first `budget` bytes from index `i` end on a character
/// boundary (or the rest is shorter than that).
pub open spec fn cuts_cleanly(s: Seq<char>, i: int, budget: int) -> bool
    decreases s.len() - i,
{
    if i >= s.len() {
        true
    } else if char_width(s[i]) > budget {
        budget == 0
    } else {
        cuts_cleanly(s, i + 1, budget - char_width(s[i]))
    }
}

/// `s.get(..s.len().min(max)).unwrap_or(s)` on the UTF-8 bytes of `s`: the
/// first `max` bytes when they end on a character boundary, else all of `s`.
pub open spec fn byte_prefix(s: Seq<char>, max: nat) -> Seq<char> {
    s.take(short_end(s, 0, max as int))
}

fn width_of(c: char) -> (w: usize)
    ensures
        w == char_width(c),
{
    let n = c as u32;
    if n < 0x80 {
        1
    } else if n < 0x800 {
        2
    } else if n < 0x10000 {
        3
    } else {
        4
    }
}

proof fn lemma_short_end_bounds(s: Seq<char>, i: int, budget: int)
    requires
        0 <= i <= s.len(),
    ensures
        i <= short_end(s, i, budget) <= s.len(),
    decreases s.len() - i,
{
    if i < s.len() && char_width(s[i]) <= budget {
        lemma_short_end_bounds(s, i + 1, budget - char_width(s[i]));
    }
}

/// The first `max` bytes of `value`, or all of it when they would end inside
/// a character or `value` is shorter.
pub fn byte_prefix_of(value: &str, max: usize) -> (r: String)
    ensures
        r@ == byte_prefix(value@, max as nat),
{
    let chars = chars_of(value);
    let ghost s = value@;
    let mut i: usize = 0;
    let mut budget: usize = max;
    proof {
        lemma_short_end_bounds(s, 0, max as int);
    }
    loop
        invariant
            chars@ == s,
            s == value@,
            0 <= i <= s.len(),
            budget <= max,
            short_end(s, 0, max as int) == short_end(s, i as int, budget as int),
        decreases s.len() - i,
    {
        if i >= chars.len() {
            assert(short_end(s, i as int, budget as int) == s.len());
            assert(s.take(s.len() as int) =~= s);
            return string_from(chars.as_slice());
        }
        let w = width_of(chars[i]);
        if w > budget {
            if budget == 0 {
                assert(short_end(s, i as int, budget as int) == i);
                return string_of(chars.as_slice(), 0, i);
            } else {
                assert(short_end(s, i as int, budget as int) == s.len());
                assert(s.take(s.len() as int) =~= s);
                return string_from(chars.as_slice());
            }
        }
        budget = budget - w;
        i = i + 1;
    }
}

/// `s` with every `from` replaced by `to`.
pub open spec fn replace_char(s: Seq<char>, from: char, to: char) -> Seq<char> {
    Seq::new(s.len(), |i: int| if s[i] == from { to } else { s[i] })
}

/// A copy of `value` with every `from` replaced by `to` (`str::replace` with
/// one character for another).
pub fn replace_char_of(value: &str, from: char, to: char) -> (r: String)
    ensures
        r@ == replace_char(value@, from, to),
{
    let chars = chars_of(value);
    let mut r = String::new();
    let mut i: usize = 0;
    while i < chars.len()
        invariant
            chars@ == value@,
            i <= chars@.len(),
            r@ == replace_char(value@, from, to).take(i as int),
        decreases chars@.len() - i,
    {
        let c = chars[i];
        push_char(&mut r, if c == from { to } else { c });
        assert(replace_char(value@, from, to).take(i + 1) =~= replace_char(value@, from, to).take(
            i as int,
        ).push(if c == from { to } else { c }));
        i += 1;
    }
    assert(replace_char(value@, from, to).take(chars@.len() as int) =~= replace_char(value@, from, to));
    r
}

/// Whether two strings hold the same text.
pub fn same_text(a: &str, b: &str) -> (r: bool)
    ensures
        r == (a@ == b@),
{
    let chars = chars_of(a);
    is_text(chars.as_slice(), b)
}

// ---------------------------------------------------------------------------
// Trimming and case
// ---------------------------------------------------------------------------

/// `s` without its trailing whitespace.
pub open spec fn trim_end(s: Seq<char>) -> Seq<char>
    decreases s.len(),
{
    if s.len() > 0 && is_ws(s.last()) {
        trim_end(s.drop_last())
    } else {
        s
    }
}

/// `s` without its leading whitespace.
pub open spec fn trim_start(s: Seq<char>) -> Seq<char>
    decreases s.len(),
{
    if s.len() > 0 && is_ws(s[0]) {
        trim_start(s.drop_first())
    } else {
        s
    }
}

/// `s` without leading or trailing whitespace (`str::trim`).
pub open spec fn trim(s: Seq<char>) -> Seq<char> {
    trim_start(trim_end(s))
}

/// `s` without its trailing whitespace.
pub fn trimmed(s: &String) -> (r: String)
    ensures
        r@ == trim_end(s@),
{
    let chars = chars_of(s.as_str());
    let mut k = chars.len();
    assert(chars@.take(k as int) =~= chars@);
    while k > 0 && is_whitespace(chars[k - 1])
        invariant
            k <= chars@.len(),
            trim_end(chars@) == trim_end(chars@.take(k as int)),
            chars@ == s@,
        decreases k,
    {
        assert(chars@.take(k as int).drop_last() =~= chars@.take(k - 1));
        k -= 1;
    }
    proof {
        if k > 0 {
            assert(chars@.take(k as int).last() == chars@[k - 1]);
        }
    }
    string_of(chars.as_slice(), 0, k)
}

/// `s` without leading or trailing whitespace.
pub fn trimmed_both(s: &str) -> (r: Vec<char>)
    ensures
        r@ == trim(s@),
{
    let end = trimmed(&owned(s));
    let chars = chars_of(end.as_str());
    let mut k: usize = 0;
    assert(chars@.subrange(0, chars@.len() as int) =~= chars@);
    while k < chars.len() && is_whitespace(chars[k])
        invariant
            k <= chars@.len(),
            chars@ == trim_end(s@),
            trim_start(chars@) == trim_start(chars@.subrange(k as int, chars@.len() as int)),
        decreases chars@.len() - k,
    {
        assert(chars@.subrange(k as int, chars@.len() as int).drop_first() =~= chars@.subrange(
            k + 1,
            chars@.len() as int,
        ));
        k += 1;
    }
    sub_chars(chars.as_slice(), k, chars.len())
}

/// `c` in lower case if it is an ASCII capital (`char::to_ascii_lowercase`).
pub open spec fn ascii_lower(c: char) -> char {
    if 'A' <= c && c <= 'Z' {
        ((c as u32) + 32) as char
    } else {
        c
    }
}

/// `s` with its ASCII capitals in lower case (`str::to_ascii_lowercase`).
pub open spec fn lowered(s: Seq<char>) -> Seq<char> {
    Seq::new(s.len(), |i: int| ascii_lower(s[i]))
}

/// The lower-case form of an ASCII capital; any other character unchanged.
pub fn to_ascii_lower(c: char) -> (r: char)
    ensures
        r == ascii_lower(c),
{
    if 'A' <= c && c <= 'Z' {
        let n = c as u8;
        let l = (n + 32) as char;
        assert(l == ((c as u32) + 32) as char);
        l
    } else {
        c
    }
}

/// `s` with its ASCII capitals in lower case.
pub fn lowercase(s: &[char]) -> (r: Vec<char>)
    ensures
        r@ == lowered(s@),
{
    let mut r: Vec<char> = Vec::new();
    let mut i: usize = 0;
    while i < s.len()
        invariant
            i <= s@.len(),
            r@ == lowered(s@).take(i as int),
        decreases s@.len() - i,
    {
        r.push(to_ascii_lower(s[i]));
        assert(lowered(s@).take(i + 1) =~= lowered(s@).take(i as int).push(ascii_lower(s@[i as int])));
        i += 1;
    }
    assert(lowered(s@).take(s@.len() as int) =~= lowered(s@));
    r
}

} // verus!

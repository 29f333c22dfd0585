//! Operations on text, character by character.
//!
//! What each function returns is stated over `Seq<char>`, the view of `str`
//! and `String`, so that callers can reason about the text they build. The
//! functions that std also has return what std returns.

use vstd::prelude::*;
use vstd::string::*;

verus! {

// Conversion

/// `String::push` appends exactly one character to the end of the string.
pub assume_specification[ String::push ](s: &mut String, ch: char)
    ensures
        final(s)@ == old(s)@.push(ch),
;

/// The characters of `s`, in order.
pub fn to_chars(s: &str) -> (chars: Vec<char>)
    ensures
        chars@ == s@,
{
    let mut chars: Vec<char> = Vec::new();
    for c in it: s.chars()
        invariant
            chars@ == it.seq().take(it.index() as int),
            it.seq() == s@,
    {
        chars.push(c);
    }
    chars
}

/// The string made of `chars`, in order.
pub fn from_chars(chars: &Vec<char>) -> (s: String)
    ensures
        s@ == chars@,
{
    let mut s = String::new();
    let mut i: usize = 0;
    while i < chars.len()
        invariant
            i <= chars.len(),
            s@ == chars@.take(i as int),
        decreases chars.len() - i,
    {
        s.push(chars[i]);
        i += 1;
    }
    s
}

/// The view of a text that may be absent.
pub open spec fn optional_text(text: Option<&str>) -> Option<Seq<char>> {
    match text {
        Some(t) => Some(t@),
        None => None,
    }
}

/// Appends every character of `extra` to `out`.
pub fn push_all(out: &mut Vec<char>, extra: &Vec<char>)
    ensures
        final(out)@ == old(out)@ + extra@,
{
    let mut k: usize = 0;
    while k < extra.len()
        invariant
            k <= extra.len(),
            out@ == old(out)@ + extra@.take(k as int),
        decreases extra.len() - k,
    {
        out.push(extra[k]);
        k += 1;
    }
}

/// The characters of `s` from `from` up to, not including, `to`.
pub fn slice_chars(s: &Vec<char>, from: usize, to: usize) -> (out: Vec<char>)
    requires
        from <= to <= s.len(),
    ensures
        out@ == s@.subrange(from as int, to as int),
{
    let mut out: Vec<char> = Vec::new();
    let mut k: usize = from;
    while k < to
        invariant
            from <= k <= to <= s.len(),
            out@ == s@.subrange(from as int, k as int),
        decreases to - k,
    {
        out.push(s[k]);
        k += 1;
    }
    out
}

/// The two texts one after the other.
pub fn chained(a: &str, b: &str) -> (text: String)
    ensures
        text@ == a@ + b@,
{
    let mut text = String::from_str(a);
    text.append(b);
    text
}

// Matching

/// Whether `pat` occurs in `s` starting at position `at`.
pub fn matches_at(s: &Vec<char>, at: usize, pat: &Vec<char>) -> (found: bool)
    requires
        at <= s.len(),
    ensures
        found == pat@.is_prefix_of(s@.skip(at as int)),
{
    if pat.len() > s.len() - at {
        return false;
    }
    let mut j: usize = 0;
    while j < pat.len()
        invariant
            j <= pat.len(),
            at + pat.len() <= s.len(),
            forall|k: int| 0 <= k < j ==> s@[at + k] == pat@[k],
        decreases pat.len() - j,
    {
        if s[at + j] != pat[j] {
            proof {
                let rest = s@.skip(at as int);
                assert(rest.subrange(0, pat@.len() as int)[j as int] == s@[at + j]);
            }
            return false;
        }
        j += 1;
    }
    proof {
        let rest = s@.skip(at as int);
        assert(pat@ =~= rest.subrange(0, pat@.len() as int));
    }
    true
}

/// Whether two character vectors hold the same text.
pub fn same_chars(a: &Vec<char>, b: &Vec<char>) -> (same: bool)
    ensures
        same == (a@ == b@),
{
    if a.len() != b.len() {
        return false;
    }
    let found = matches_at(a, 0, b);
    proof {
        assert(a@.skip(0) =~= a@);
        assert(a@.subrange(0, a@.len() as int) =~= a@);
    }
    found
}

/// Whether two strings hold the same text.
pub fn same_text(a: &str, b: &str) -> (same: bool)
    ensures
        same == (a@ == b@),
{
    let a_chars = to_chars(a);
    let b_chars = to_chars(b);
    same_chars(&a_chars, &b_chars)
}

/// Whether `s` begins with `pat`.
pub fn starts_with(s: &str, pat: &str) -> (found: bool)
    ensures
        found == pat@.is_prefix_of(s@),
{
    let chars = to_chars(s);
    let pat_chars = to_chars(pat);
    proof {
        assert(chars@.skip(0) =~= chars@);
    }
    matches_at(&chars, 0, &pat_chars)
}

/// Whether `s` ends with `pat`.
pub fn ends_with(s: &str, pat: &str) -> (found: bool)
    ensures
        found == pat@.is_suffix_of(s@),
{
    let chars = to_chars(s);
    let pat_chars = to_chars(pat);
    if pat_chars.len() > chars.len() {
        return false;
    }
    let at = chars.len() - pat_chars.len();
    let found = matches_at(&chars, at, &pat_chars);
    proof {
        let tail = chars@.skip(at as int);
        assert(tail.subrange(0, pat_chars@.len() as int) =~= chars@.subrange(
            chars@.len() - pat_chars@.len(),
            chars@.len() as int,
        ));
    }
    found
}

/// Whether `pat` occurs somewhere in `s`.
pub open spec fn occurs_in(pat: Seq<char>, s: Seq<char>) -> bool {
    exists|i: int| 0 <= i <= s.len() && pat.is_prefix_of(#[trigger] s.skip(i))
}

/// Whether `pat` occurs somewhere in `s`, as `str::contains` tells.
pub fn contains_text(s: &str, pat: &str) -> (found: bool)
    ensures
        found == occurs_in(pat@, s@),
{
    let chars = to_chars(s);
    let pat_chars = to_chars(pat);
    let mut i: usize = 0;
    while i < chars.len()
        invariant
            i <= chars.len(),
            chars@ == s@,
            pat_chars@ == pat@,
            forall|k: int| 0 <= k < i ==> !pat_chars@.is_prefix_of(#[trigger] chars@.skip(k)),
        decreases chars.len() - i,
    {
        if matches_at(&chars, i, &pat_chars) {
            proof {
                assert(pat@.is_prefix_of(s@.skip(i as int)));
            }
            return true;
        }
        i += 1;
    }
    let found = matches_at(&chars, i, &pat_chars);
    proof {
        if found {
            assert(pat@.is_prefix_of(s@.skip(i as int)));
        }
    }
    found
}

/// The position of the first `c` in `s`, or the length of `s` where it has none.
pub open spec fn position_of(s: Seq<char>, c: char) -> nat
    decreases s.len(),
{
    if s.len() > 0 && s[0] != c {
        1 + position_of(s.skip(1), c)
    } else {
        0
    }
}

/// The position of the first `c` lies within the text or at its end, no
/// character before it is `c`, and within the text it holds `c`.
pub proof fn lemma_position_of_bound(s: Seq<char>, c: char)
    ensures
        position_of(s, c) <= s.len(),
        forall|k: int| 0 <= k < position_of(s, c) ==> #[trigger] s[k] != c,
        position_of(s, c) < s.len() ==> s[position_of(s, c) as int] == c,
    decreases s.len(),
{
    if s.len() > 0 && s[0] != c {
        let t = s.skip(1);
        lemma_position_of_bound(t, c);
        assert forall|k: int| 0 <= k < position_of(s, c) implies #[trigger] s[k] != c by {
            if k > 0 {
                assert(s[k] == t[k - 1]);
            }
        }
        if position_of(s, c) < s.len() {
            assert(s[position_of(s, c) as int] == t[position_of(t, c) as int]);
        }
    }
}

/// The position of the first `c` at or after `from`, or the length of `s`.
fn find_char(s: &Vec<char>, from: usize, c: char) -> (at: usize)
    requires
        from <= s.len(),
    ensures
        from <= at <= s.len(),
        at == from + position_of(s@.skip(from as int), c),
{
    let mut i: usize = from;
    while i < s.len() && s[i] != c
        invariant
            from <= i <= s.len(),
            position_of(s@.skip(from as int), c) == (i - from) + position_of(s@.skip(i as int), c),
        decreases s.len() - i,
    {
        proof {
            assert(s@.skip(i as int).skip(1) =~= s@.skip(i + 1));
        }
        i += 1;
    }
    i
}

/// Whether `c` occurs in `s`.
pub fn contains_char(s: &str, c: char) -> (found: bool)
    ensures
        found == s@.contains(c),
{
    let chars = to_chars(s);
    let at = find_char(&chars, 0, c);
    proof {
        assert(chars@.skip(0) =~= chars@);
        lemma_position_of_bound(chars@, c);
    }
    at < chars.len()
}

// Replacing

/// `s` with every occurrence of `pat` replaced by `with`, scanning from the
/// left and never looking again at text that was already replaced. An empty
/// `pat` matches before every character and at the end.
pub open spec fn replaced(s: Seq<char>, pat: Seq<char>, with: Seq<char>) -> Seq<char>
    decreases s.len(),
{
    if pat.len() > 0 && pat.is_prefix_of(s) {
        with + replaced(s.skip(pat.len() as int), pat, with)
    } else if s.len() == 0 {
        if pat.len() == 0 {
            with
        } else {
            s
        }
    } else if pat.len() == 0 {
        with + seq![s[0]] + replaced(s.skip(1), pat, with)
    } else {
        seq![s[0]] + replaced(s.skip(1), pat, with)
    }
}

/// Replacing every `c` by a text without `c` leaves no `c`.
pub proof fn lemma_replaced_without(s: Seq<char>, c: char, with: Seq<char>)
    requires
        !with.contains(c),
    ensures
        !replaced(s, seq![c], with).contains(c),
    decreases s.len(),
{
    let pat = seq![c];
    let out = replaced(s, pat, with);
    if pat.is_prefix_of(s) {
        let rest = replaced(s.skip(1), pat, with);
        lemma_replaced_without(s.skip(1), c, with);
        assert(out == with + rest);
        if out.contains(c) {
            let i = choose|i: int| 0 <= i < out.len() && out[i] == c;
            if i < with.len() {
                assert(with[i] == c);
            } else {
                assert(rest[i - with.len()] == c);
            }
        }
    } else if s.len() > 0 {
        let rest = replaced(s.skip(1), pat, with);
        lemma_replaced_without(s.skip(1), c, with);
        assert(out == seq![s[0]] + rest);
        assert(s[0] != c) by {
            if s[0] == c {
                assert(pat =~= s.subrange(0, 1));
            }
        }
        if out.contains(c) {
            let i = choose|i: int| 0 <= i < out.len() && out[i] == c;
            if i > 0 {
                assert(rest[i - 1] == c);
            }
        }
    }
}

/// `str::replace` on character vectors: see [`replaced`].
pub fn replace_chars(s: &Vec<char>, pat: &Vec<char>, with: &Vec<char>) -> (out: Vec<char>)
    ensures
        out@ == replaced(s@, pat@, with@),
{
    let mut out: Vec<char> = Vec::new();
    let mut i: usize = 0;
    proof {
        assert(s@.skip(0) =~= s@);
        assert(out@ + replaced(s@, pat@, with@) =~= replaced(s@, pat@, with@));
    }
    while i < s.len()
        invariant
            i <= s.len(),
            replaced(s@, pat@, with@) == out@ + replaced(s@.skip(i as int), pat@, with@),
        decreases s.len() - i,
    {
        let ghost rest = s@.skip(i as int);
        let ghost before = out@;
        if pat.len() > 0 && matches_at(s, i, pat) {
            push_all(&mut out, with);
            proof {
                assert(rest.skip(pat@.len() as int) =~= s@.skip(i + pat@.len()));
                assert(out@ + replaced(s@.skip(i + pat@.len()), pat@, with@) =~= before + (with@
                    + replaced(rest.skip(pat@.len() as int), pat@, with@)));
            }
            i += pat.len();
        } else {
            if pat.len() == 0 {
                push_all(&mut out, with);
            }
            out.push(s[i]);
            proof {
                assert(rest.skip(1) =~= s@.skip(i + 1));
                assert(rest[0] == s@[i as int]);
                if pat@.len() == 0 {
                    assert(out@ + replaced(s@.skip(i + 1), pat@, with@) =~= before + (with@
                        + seq![rest[0]] + replaced(rest.skip(1), pat@, with@)));
                } else {
                    assert(out@ + replaced(s@.skip(i + 1), pat@, with@) =~= before + (seq![rest[0]]
                        + replaced(rest.skip(1), pat@, with@)));
                }
            }
            i += 1;
        }
    }
    proof {
        assert(s@.skip(i as int) =~= Seq::<char>::empty());
    }
    if pat.len() == 0 {
        push_all(&mut out, with);
    }
    out
}

/// `s` with every occurrence of `pat` replaced by `with`, as `str::replace` does.
pub fn replace_all(s: &str, pat: &str, with: &str) -> (out: String)
    ensures
        out@ == replaced(s@, pat@, with@),
{
    let chars = to_chars(s);
    let pat_chars = to_chars(pat);
    let with_chars = to_chars(with);
    let out = replace_chars(&chars, &pat_chars, &with_chars);
    from_chars(&out)
}

/// Where the pattern does not occur, replacing changes nothing.
pub proof fn lemma_replaced_absent(s: Seq<char>, pat: Seq<char>, with: Seq<char>)
    requires
        pat.len() > 0,
        !occurs_in(pat, s),
    ensures
        replaced(s, pat, with) == s,
    decreases s.len(),
{
    assert(s.skip(0) =~= s);
    assert(!pat.is_prefix_of(s));
    if s.len() > 0 {
        let rest = s.skip(1);
        assert(!occurs_in(pat, rest)) by {
            if occurs_in(pat, rest) {
                let i = choose|i: int| 0 <= i <= rest.len() && pat.is_prefix_of(#[trigger] rest.skip(i));
                assert(rest.skip(i) =~= s.skip(i + 1));
            }
        }
        lemma_replaced_absent(rest, pat, with);
        assert(seq![s[0]] + rest =~= s);
    }
}

// Trimming a pattern

/// `s` without the longest leading run of whole copies of `pat`.
pub open spec fn trimmed_start(s: Seq<char>, pat: Seq<char>) -> Seq<char>
    decreases s.len(),
{
    if pat.len() > 0 && pat.is_prefix_of(s) {
        trimmed_start(s.skip(pat.len() as int), pat)
    } else {
        s
    }
}

/// What is left after trimming does not start with the pattern.
pub proof fn lemma_trimmed_start_has_no_prefix(s: Seq<char>, pat: Seq<char>)
    requires
        pat.len() > 0,
    ensures
        !pat.is_prefix_of(trimmed_start(s, pat)),
    decreases s.len(),
{
    if pat.is_prefix_of(s) {
        lemma_trimmed_start_has_no_prefix(s.skip(pat.len() as int), pat);
    }
}

/// What is left after trimming is the end of the text.
pub proof fn lemma_trimmed_start_is_suffix(s: Seq<char>, pat: Seq<char>)
    ensures
        trimmed_start(s, pat).len() <= s.len(),
        trimmed_start(s, pat) == s.skip(s.len() - trimmed_start(s, pat).len()),
        forall|c: char| trimmed_start(s, pat).contains(c) ==> s.contains(c),
    decreases s.len(),
{
    let t = trimmed_start(s, pat);
    if pat.len() > 0 && pat.is_prefix_of(s) {
        let rest = s.skip(pat.len() as int);
        lemma_trimmed_start_is_suffix(rest, pat);
        assert(rest.skip(rest.len() - t.len()) =~= s.skip(s.len() - t.len()));
    } else {
        assert(s.skip(0) =~= s);
    }
    assert forall|c: char| t.contains(c) implies s.contains(c) by {
        let i = choose|i: int| 0 <= i < t.len() && t[i] == c;
        assert(s[s.len() - t.len() + i] == c);
    }
}

/// `s` without its leading copies of `pat`, as `str::trim_start_matches` does.
pub fn trim_start_matches(s: &str, pat: &str) -> (out: String)
    ensures
        out@ == trimmed_start(s@, pat@),
{
    let chars = to_chars(s);
    let pat_chars = to_chars(pat);
    let mut i: usize = 0;
    proof {
        assert(chars@.skip(0) =~= chars@);
    }
    if pat_chars.len() > 0 {
        while matches_at(&chars, i, &pat_chars)
            invariant
                i <= chars.len(),
                pat_chars.len() > 0,
                trimmed_start(chars@, pat_chars@) == trimmed_start(
                    chars@.skip(i as int),
                    pat_chars@,
                ),
            decreases chars.len() - i,
        {
            proof {
                assert(chars@.skip(i as int).skip(pat_chars@.len() as int) =~= chars@.skip(
                    i + pat_chars@.len(),
                ));
            }
            i += pat_chars.len();
        }
    }
    let mut out: Vec<char> = Vec::new();
    let mut k: usize = i;
    while k < chars.len()
        invariant
            i <= k <= chars.len(),
            out@ == chars@.subrange(i as int, k as int),
        decreases chars.len() - k,
    {
        out.push(chars[k]);
        k += 1;
    }
    proof {
        assert(out@ =~= chars@.skip(i as int));
    }
    from_chars(&out)
}

// Whitespace and words

/// The Unicode `White_Space` code points.
pub open spec fn is_whitespace_char(c: char) -> bool {
    let u = c as u32;
    ||| 0x09 <= u <= 0x0D
    ||| u == 0x20
    ||| u == 0x85
    ||| u == 0xA0
    ||| u == 0x1680
    ||| 0x2000 <= u <= 0x200A
    ||| u == 0x2028
    ||| u == 0x2029
    ||| u == 0x202F
    ||| u == 0x205F
    ||| u == 0x3000
}

/// Whether `c` separates words.
pub fn is_whitespace(c: char) -> (b: bool)
    ensures
        b == is_whitespace_char(c),
{
    let u: u32 = c as u32;
    (0x09 <= u && u <= 0x0D) || u == 0x20 || u == 0x85 || u == 0xA0 || u == 0x1680 || (0x2000 <= u
        && u <= 0x200A) || u == 0x2028 || u == 0x2029 || u == 0x202F || u == 0x205F || u == 0x3000
}

/// Number of leading whitespace characters of `s`.
pub open spec fn leading_whitespace(s: Seq<char>) -> nat
    decreases s.len(),
{
    if s.len() > 0 && is_whitespace_char(s[0]) {
        1 + leading_whitespace(s.skip(1))
    } else {
        0
    }
}

/// Number of leading characters of `s` that are not whitespace.
pub open spec fn leading_word(s: Seq<char>) -> nat
    decreases s.len(),
{
    if s.len() > 0 && !is_whitespace_char(s[0]) {
        1 + leading_word(s.skip(1))
    } else {
        0
    }
}

/// `s` from its first non-whitespace character on.
pub open spec fn skip_whitespace(s: Seq<char>) -> Seq<char> {
    s.skip(leading_whitespace(s) as int)
}

/// The first whitespace-delimited word of `s`; empty when `s` has none.
pub open spec fn first_word(s: Seq<char>) -> Seq<char> {
    let t = skip_whitespace(s);
    t.take(leading_word(t) as int)
}

/// What follows the first word of `s`.
pub open spec fn after_first_word(s: Seq<char>) -> Seq<char> {
    let t = skip_whitespace(s);
    t.skip(leading_word(t) as int)
}

/// The second whitespace-delimited word of `s`; empty when `s` has fewer than two.
pub open spec fn second_word(s: Seq<char>) -> Seq<char> {
    first_word(after_first_word(s))
}

/// The position after the whitespace that starts at `from`.
fn whitespace_end(s: &Vec<char>, from: usize) -> (end: usize)
    requires
        from <= s.len(),
    ensures
        from <= end <= s.len(),
        end == from + leading_whitespace(s@.skip(from as int)),
{
    let mut i: usize = from;
    while i < s.len() && is_whitespace(s[i])
        invariant
            from <= i <= s.len(),
            leading_whitespace(s@.skip(from as int)) == (i - from) + leading_whitespace(
                s@.skip(i as int),
            ),
        decreases s.len() - i,
    {
        proof {
            assert(s@.skip(i as int).skip(1) =~= s@.skip(i + 1));
        }
        i += 1;
    }
    i
}

/// The position after the word that starts at `from`.
fn word_end(s: &Vec<char>, from: usize) -> (end: usize)
    requires
        from <= s.len(),
    ensures
        from <= end <= s.len(),
        end == from + leading_word(s@.skip(from as int)),
{
    let mut i: usize = from;
    while i < s.len() && !is_whitespace(s[i])
        invariant
            from <= i <= s.len(),
            leading_word(s@.skip(from as int)) == (i - from) + leading_word(s@.skip(i as int)),
        decreases s.len() - i,
    {
        proof {
            assert(s@.skip(i as int).skip(1) =~= s@.skip(i + 1));
        }
        i += 1;
    }
    i
}

/// The first two whitespace-delimited words of `s`, each empty where `s`
/// has no such word.
pub fn leading_words(s: &str) -> (words: (String, String))
    ensures
        words.0@ == first_word(s@),
        words.1@ == second_word(s@),
{
    let chars = to_chars(s);
    let a = whitespace_end(&chars, 0);
    proof {
        assert(chars@.skip(0) =~= chars@);
    }
    let b = word_end(&chars, a);
    let c = whitespace_end(&chars, b);
    let d = word_end(&chars, c);
    let first = slice_chars(&chars, a, b);
    let second = slice_chars(&chars, c, d);
    proof {
        let t = skip_whitespace(s@);
        assert(t == chars@.skip(a as int));
        assert(first@ =~= t.take(leading_word(t) as int));
        let rest = after_first_word(s@);
        assert(rest =~= chars@.skip(b as int));
        let u = skip_whitespace(rest);
        assert(u =~= chars@.skip(c as int));
        assert(second@ =~= u.take(leading_word(u) as int));
    }
    (from_chars(&first), from_chars(&second))
}

/// Number of trailing whitespace characters of `s`.
pub open spec fn trailing_whitespace(s: Seq<char>) -> nat
    decreases s.len(),
{
    if s.len() > 0 && is_whitespace_char(s.last()) {
        1 + trailing_whitespace(s.drop_last())
    } else {
        0
    }
}

/// `s` without leading and trailing whitespace.
pub open spec fn trimmed(s: Seq<char>) -> Seq<char> {
    let t = skip_whitespace(s);
    t.take(t.len() - trailing_whitespace(t))
}

/// The position before the whitespace that ends at `to`, not going below `from`.
fn whitespace_start(s: &Vec<char>, from: usize, to: usize) -> (start: usize)
    requires
        from <= to <= s.len(),
    ensures
        from <= start <= to,
        start == to - trailing_whitespace(s@.subrange(from as int, to as int)),
{
    let mut i: usize = to;
    while i > from && is_whitespace(s[i - 1])
        invariant
            from <= i <= to <= s.len(),
            trailing_whitespace(s@.subrange(from as int, to as int)) == (to - i)
                + trailing_whitespace(s@.subrange(from as int, i as int)),
        decreases i,
    {
        proof {
            let part = s@.subrange(from as int, i as int);
            assert(part.last() == s@[i - 1]);
            assert(part.drop_last() =~= s@.subrange(from as int, i - 1));
        }
        i -= 1;
    }
    proof {
        let part = s@.subrange(from as int, i as int);
        if i > from {
            assert(part.last() == s@[i - 1]);
        }
    }
    i
}

/// The characters of `s` without leading and trailing whitespace.
pub fn trim_chars(s: &Vec<char>) -> (out: Vec<char>)
    ensures
        out@ == trimmed(s@),
{
    let start = whitespace_end(s, 0);
    proof {
        assert(s@.skip(0) =~= s@);
        assert(s@.skip(start as int) =~= s@.subrange(start as int, s@.len() as int));
    }
    let end = whitespace_start(s, start, s.len());
    let out = slice_chars(s, start, end);
    proof {
        let t = skip_whitespace(s@);
        assert(out@ =~= t.take(t.len() - trailing_whitespace(t)));
    }
    out
}

/// `s` without leading and trailing whitespace, as `str::trim` gives it.
pub fn trim(s: &str) -> (out: String)
    ensures
        out@ == trimmed(s@),
{
    let chars = to_chars(s);
    let out = trim_chars(&chars);
    from_chars(&out)
}

// Lines, pieces and joining

/// `s` without one carriage return at its end.
pub open spec fn without_carriage_return(s: Seq<char>) -> Seq<char> {
    if s.len() > 0 && s.last() == '\r' {
        s.drop_last()
    } else {
        s
    }
}

/// The lines of `s`, as `str::lines` gives them: split after every line
/// feed, each line without its line feed and without a carriage return
/// before that line feed. A last line without a line feed is kept as it is.
pub open spec fn lines_of(s: Seq<char>) -> Seq<Seq<char>>
    decreases s.len(),
{
    if s.len() == 0 {
        Seq::empty()
    } else {
        let n = position_of(s, '\n');
        if n < s.len() {
            seq![without_carriage_return(s.take(n as int))] + lines_of(s.skip(n as int + 1))
        } else {
            seq![s]
        }
    }
}

/// The pieces of `s` between the occurrences of `sep`, as `str::split`
/// gives them for a character: one more piece than there are separators.
pub open spec fn split_by(s: Seq<char>, sep: char) -> Seq<Seq<char>>
    decreases s.len(),
{
    let n = position_of(s, sep);
    if n < s.len() {
        seq![s.take(n as int)] + split_by(s.skip(n as int + 1), sep)
    } else {
        seq![s]
    }
}

/// A split gives at least one piece.
pub proof fn lemma_split_by_nonempty(s: Seq<char>, sep: char)
    ensures
        split_by(s, sep).len() >= 1,
    decreases s.len(),
{
    let n = position_of(s, sep);
    if n < s.len() {
        lemma_split_by_nonempty(s.skip(n as int + 1), sep);
    }
}

/// The texts of `parts` with `sep` between each two.
pub open spec fn joined(parts: Seq<Seq<char>>, sep: Seq<char>) -> Seq<char>
    decreases parts.len(),
{
    if parts.len() == 0 {
        Seq::empty()
    } else if parts.len() == 1 {
        parts[0]
    } else {
        parts[0] + sep + joined(parts.skip(1), sep)
    }
}

/// The views of the texts in `parts`.
pub open spec fn texts_of(parts: Seq<Vec<char>>) -> Seq<Seq<char>> {
    parts.map_values(|part: Vec<char>| part@)
}

/// The lines of `s`: see [`lines_of`].
pub fn lines(s: &Vec<char>) -> (out: Vec<Vec<char>>)
    ensures
        texts_of(out@) == lines_of(s@),
{
    let mut out: Vec<Vec<char>> = Vec::new();
    let mut i: usize = 0;
    proof {
        assert(s@.skip(0) =~= s@);
        assert(texts_of(out@) =~= Seq::<Seq<char>>::empty());
    }
    while i < s.len()
        invariant
            i <= s.len(),
            lines_of(s@) == texts_of(out@) + lines_of(s@.skip(i as int)),
        decreases s.len() - i,
    {
        let ghost rest = s@.skip(i as int);
        let ghost before = texts_of(out@);
        let end = find_char(s, i, '\n');
        if end < s.len() {
            let stop = if end > i && s[end - 1] == '\r' {
                end - 1
            } else {
                end
            };
            let line = slice_chars(s, i, stop);
            proof {
                let n = position_of(rest, '\n');
                assert(rest.take(n as int) =~= s@.subrange(i as int, end as int));
                assert(line@ =~= without_carriage_return(rest.take(n as int)));
                assert(rest.skip(n as int + 1) =~= s@.skip(end + 1));
            }
            out.push(line);
            proof {
                assert(texts_of(out@) =~= before + seq![line@]);
                assert(texts_of(out@) + lines_of(s@.skip(end + 1)) =~= before + (seq![line@]
                    + lines_of(s@.skip(end + 1))));
            }
            i = end + 1;
        } else {
            let line = slice_chars(s, i, s.len());
            proof {
                assert(line@ =~= rest);
                assert(s@.skip(s@.len() as int) =~= Seq::<char>::empty());
            }
            out.push(line);
            proof {
                assert(texts_of(out@) =~= before + seq![line@]);
                assert(lines_of(s@.skip(s@.len() as int)) =~= Seq::<Seq<char>>::empty());
                assert(texts_of(out@) + lines_of(s@.skip(s@.len() as int)) =~= before + seq![
                    rest,
                ]);
            }
            i = s.len();
        }
    }
    proof {
        assert(s@.skip(i as int) =~= Seq::<char>::empty());
        assert(texts_of(out@) + Seq::<Seq<char>>::empty() =~= texts_of(out@));
    }
    out
}

/// The pieces of `s` between the occurrences of `sep`: see [`split_by`].
pub fn split(s: &Vec<char>, sep: char) -> (out: Vec<Vec<char>>)
    ensures
        texts_of(out@) == split_by(s@, sep),
{
    let mut out: Vec<Vec<char>> = Vec::new();
    let mut i: usize = 0;
    proof {
        assert(s@.skip(0) =~= s@);
        assert(texts_of(out@) =~= Seq::<Seq<char>>::empty());
    }
    loop
        invariant_except_break
            split_by(s@, sep) == texts_of(out@) + split_by(s@.skip(i as int), sep),
        invariant
            i <= s.len(),
        ensures
            texts_of(out@) == split_by(s@, sep),
        decreases s.len() - i,
    {
        let ghost rest = s@.skip(i as int);
        let ghost before = texts_of(out@);
        let end = find_char(s, i, sep);
        let piece = slice_chars(s, i, end);
        proof {
            let n = position_of(rest, sep);
            assert(rest.take(n as int) =~= s@.subrange(i as int, end as int));
            if end == s.len() {
                assert(piece@ =~= rest);
            }
        }
        out.push(piece);
        proof {
            assert(texts_of(out@) =~= before + seq![piece@]);
        }
        if end < s.len() {
            proof {
                assert(rest.skip(end - i + 1) =~= s@.skip(end + 1));
                assert(texts_of(out@) + split_by(s@.skip(end + 1), sep) =~= before + (seq![piece@]
                    + split_by(s@.skip(end + 1), sep)));
            }
            i = end + 1;
        } else {
            proof {
                assert(split_by(rest, sep) =~= seq![rest]);
            }
            break ;
        }
    }
    out
}

/// The texts of `parts` from position `from` on, with `sep` between each two.
pub fn join_from(parts: &Vec<Vec<char>>, from: usize, sep: &Vec<char>) -> (out: Vec<char>)
    requires
        from <= parts.len(),
    ensures
        out@ == joined(texts_of(parts@).skip(from as int), sep@),
{
    let mut out: Vec<char> = Vec::new();
    let ghost all = texts_of(parts@);
    if from == parts.len() {
        return out;
    }
    push_all(&mut out, &parts[from]);
    let mut i: usize = from + 1;
    proof {
        assert(all.skip(from as int).skip(1) =~= all.skip(from + 1));
        assert(all.skip(from as int)[0] == parts@[from as int]@);
        if from + 1 == parts.len() {
            assert(all.skip(parts@.len() as int) =~= Seq::<Seq<char>>::empty());
        }
    }
    while i < parts.len()
        invariant
            from < i <= parts.len(),
            all == texts_of(parts@),
            joined(all.skip(from as int), sep@) == if i < parts.len() {
                out@ + sep@ + joined(all.skip(i as int), sep@)
            } else {
                out@
            },
        decreases parts.len() - i,
    {
        let ghost before = out@;
        push_all(&mut out, sep);
        push_all(&mut out, &parts[i]);
        proof {
            let rest = all.skip(i as int);
            assert(rest.skip(1) =~= all.skip(i + 1));
            assert(rest[0] == parts@[i as int]@);
            if i + 1 < parts.len() {
                assert(rest.len() > 1);
                assert(out@ + sep@ + joined(all.skip(i + 1), sep@) =~= before + sep@ + (rest[0]
                    + sep@ + joined(rest.skip(1), sep@)));
            } else {
                assert(rest.len() == 1);
                assert(out@ =~= before + sep@ + rest[0]);
            }
        }
        i += 1;
    }
    out
}

// Numbers

/// The character that writes the digit `d`.
pub open spec fn digit_char(d: nat) -> char
    recommends
        d < 10,
{
    if d == 0 {
        '0'
    } else if d == 1 {
        '1'
    } else if d == 2 {
        '2'
    } else if d == 3 {
        '3'
    } else if d == 4 {
        '4'
    } else if d == 5 {
        '5'
    } else if d == 6 {
        '6'
    } else if d == 7 {
        '7'
    } else if d == 8 {
        '8'
    } else {
        '9'
    }
}

/// The decimal digits of `n`, most significant first, without leading zeros.
pub open spec fn decimal_digits(n: nat) -> Seq<char>
    decreases n,
{
    if n < 10 {
        seq![digit_char(n)]
    } else {
        decimal_digits(n / 10).push(digit_char(n % 10))
    }
}

/// The decimal text of `n`, with a leading minus sign when it is negative.
pub open spec fn decimal_text(n: int) -> Seq<char> {
    if n < 0 {
        seq!['-'] + decimal_digits((-n) as nat)
    } else {
        decimal_digits(n as nat)
    }
}

fn digit(d: u64) -> (c: char)
    requires
        d < 10,
    ensures
        c == digit_char(d as nat),
{
    if d == 0 {
        '0'
    } else if d == 1 {
        '1'
    } else if d == 2 {
        '2'
    } else if d == 3 {
        '3'
    } else if d == 4 {
        '4'
    } else if d == 5 {
        '5'
    } else if d == 6 {
        '6'
    } else if d == 7 {
        '7'
    } else if d == 8 {
        '8'
    } else {
        '9'
    }
}

fn push_decimal(out: &mut String, n: u64)
    ensures
        final(out)@ == old(out)@ + decimal_digits(n as nat),
    decreases n,
{
    if n >= 10 {
        push_decimal(out, n / 10);
    }
    out.push(digit(n % 10));
}

/// `n` written in decimal, as formatting an integer does.
pub fn decimal(n: i32) -> (text: String)
    ensures
        text@ == decimal_text(n as int),
{
    let mut text = String::new();
    if n < 0 {
        text.push('-');
        let magnitude: u64 = (-(n as i64)) as u64;
        push_decimal(&mut text, magnitude);
    } else {
        push_decimal(&mut text, n as u64);
    }
    text
}

} // verus!

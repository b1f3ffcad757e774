//! Text as sequences of characters: conversions between strings and
//! character vectors, and the predicates and splitters the parsers are built
//! from. Every function here is stated against a short mathematical
//! definition over `Seq<char>`.

use vstd::prelude::*;

verus! {

/// Whether `c` is whitespace in the sense of `char::is_whitespace`, that is,
/// whether it has the Unicode property White_Space.
pub uninterp spec fn unicode_whitespace(c: char) -> bool;

/// `char::is_whitespace` of the standard library. The contract only names its
/// answer; which characters are whitespace is not stated here.
pub assume_specification[ char::is_whitespace ](c: char) -> (b: bool)
    ensures
        b == unicode_whitespace(c),
;

/// `String::from_iter` of the standard library, on the characters of a
/// vector: the string made of exactly these characters, in order.
#[verifier::external_body]
pub(crate) fn string_of(v: &Vec<char>) -> (s: String)
    ensures
        s@ == v@,
{
    String::from_iter(v.iter())
}

/// The texts of the strings of `v`, in order.
pub open spec fn texts(v: Seq<String>) -> Seq<Seq<char>> {
    Seq::new(v.len(), |i: int| v[i]@)
}

/// The texts of the pairs of strings of `v`, in order.
pub open spec fn pair_texts(v: Seq<(String, String)>) -> Seq<(Seq<char>, Seq<char>)> {
    Seq::new(v.len(), |i: int| (v[i].0@, v[i].1@))
}

/// The text of an optional string.
pub open spec fn opt_text(s: Option<String>) -> Option<Seq<char>> {
    match s {
        Some(t) => Some(t@),
        None => None,
    }
}

/// The text of an optional string slice.
pub open spec fn opt_str_text(s: Option<&str>) -> Option<Seq<char>> {
    match s {
        Some(t) => Some(t@),
        None => None,
    }
}

/// The characters of `s`, in order.
pub fn chars_of(s: &str) -> (v: Vec<char>)
    ensures
        v@ == s@,
{
    let mut v: Vec<char> = Vec::new();
    for c in it: s.chars()
        invariant
            it.seq() == s@,
            v@ == it.seq().take(it.index() as int),
    {
        v.push(c);
    }
    v
}

/// `needle` stands in `s` at position `i`.
pub open spec fn occurs_at(s: Seq<char>, needle: Seq<char>, i: int) -> bool {
    &&& 0 <= i
    &&& i + needle.len() <= s.len()
    &&& s.subrange(i, i + needle.len()) == needle
}

/// `needle` stands somewhere in `s`.
pub open spec fn has_substring(s: Seq<char>, needle: Seq<char>) -> bool {
    exists|i: int| occurs_at(s, needle, i)
}

/// `s` without its leading whitespace.
pub open spec fn trim_start(s: Seq<char>) -> Seq<char>
    decreases s.len(),
{
    if s.len() > 0 && unicode_whitespace(s[0]) {
        trim_start(s.drop_first())
    } else {
        s
    }
}

/// `s` without its trailing whitespace.
pub open spec fn trim_end(s: Seq<char>) -> Seq<char>
    decreases s.len(),
{
    if s.len() > 0 && unicode_whitespace(s.last()) {
        trim_end(s.drop_last())
    } else {
        s
    }
}

/// `s` without leading and trailing whitespace.
pub open spec fn trimmed(s: Seq<char>) -> Seq<char> {
    trim_end(trim_start(s))
}

/// The number of characters before the first line feed of `s`, or the length
/// of `s` where it has none.
pub open spec fn first_line_len(s: Seq<char>) -> int
    decreases s.len(),
{
    if s.len() == 0 || s[0] == '\n' {
        0
    } else {
        1 + first_line_len(s.drop_first())
    }
}

/// The lines of `s`: the pieces between line feeds, without the line feeds.
/// A line feed at the very end opens no further line. A carriage return
/// before a line feed stays with its line.
pub open spec fn lines_of(s: Seq<char>) -> Seq<Seq<char>>
    decreases s.len(),
{
    if s.len() == 0 {
        Seq::empty()
    } else {
        let n = first_line_len(s);
        if 0 <= n < s.len() {
            seq![s.subrange(0, n)] + lines_of(s.subrange(n + 1, s.len() as int))
        } else {
            seq![s]
        }
    }
}

/// The number of characters before the first whitespace of `s`, or the
/// length of `s` where it has none.
pub open spec fn first_word_len(s: Seq<char>) -> int
    decreases s.len(),
{
    if s.len() == 0 || unicode_whitespace(s[0]) {
        0
    } else {
        1 + first_word_len(s.drop_first())
    }
}

/// The fields of `s`: its maximal runs of characters that are not
/// whitespace, in order.
pub open spec fn fields_of(s: Seq<char>) -> Seq<Seq<char>>
    decreases s.len(),
{
    let t = trim_start(s);
    if t.len() == 0 {
        Seq::empty()
    } else {
        let n = first_word_len(t);
        if 0 < n <= t.len() && t.len() <= s.len() {
            seq![t.subrange(0, n)] + fields_of(t.subrange(n, t.len() as int))
        } else {
            Seq::empty()
        }
    }
}

/// The items of `parts` from position `from` on, with one space between
/// neighbours.
pub open spec fn joined_from(parts: Seq<Seq<char>>, from: int) -> Seq<char>
    decreases parts.len() - from,
{
    if from < 0 || from >= parts.len() {
        Seq::empty()
    } else if from == parts.len() - 1 {
        parts[from]
    } else {
        parts[from] + seq![' '] + joined_from(parts, from + 1)
    }
}

/// `trim_start` drops a prefix, and what is left does not start with
/// whitespace.
pub proof fn lemma_trim_start(s: Seq<char>)
    ensures
        trim_start(s).len() <= s.len(),
        trim_start(s) == s.subrange(s.len() - trim_start(s).len(), s.len() as int),
        trim_start(s).len() > 0 ==> !unicode_whitespace(trim_start(s)[0]),
        forall|i: int|
            0 <= i < s.len() - trim_start(s).len() ==> unicode_whitespace(#[trigger] s[i]),
    decreases s.len(),
{
    if s.len() > 0 && unicode_whitespace(s[0]) {
        let r = s.drop_first();
        lemma_trim_start(r);
        let t = trim_start(r);
        assert(t == s.subrange(s.len() - t.len(), s.len() as int)) by {
            assert(r.subrange(r.len() - t.len(), r.len() as int) =~= s.subrange(
                s.len() - t.len(),
                s.len() as int,
            ));
        }
        assert forall|i: int| 0 <= i < s.len() - t.len() implies unicode_whitespace(
            #[trigger] s[i],
        ) by {
            if i > 0 {
                assert(s[i] == r[i - 1]);
            }
        }
    } else {
        assert(s =~= s.subrange(0, s.len() as int));
    }
}

/// `trim_end` drops a suffix, and what is left does not end with whitespace.
pub proof fn lemma_trim_end(s: Seq<char>)
    ensures
        trim_end(s).len() <= s.len(),
        trim_end(s) == s.subrange(0, trim_end(s).len() as int),
        trim_end(s).len() > 0 ==> !unicode_whitespace(trim_end(s).last()),
        forall|i: int| trim_end(s).len() <= i < s.len() ==> unicode_whitespace(#[trigger] s[i]),
    decreases s.len(),
{
    if s.len() > 0 && unicode_whitespace(s.last()) {
        let r = s.drop_last();
        lemma_trim_end(r);
        let t = trim_end(r);
        assert(t =~= s.subrange(0, t.len() as int));
        assert forall|i: int| t.len() <= i < s.len() implies unicode_whitespace(
            #[trigger] s[i],
        ) by {
            if i < s.len() - 1 {
                assert(s[i] == r[i]);
            }
        }
    } else {
        assert(s =~= s.subrange(0, s.len() as int));
    }
}

/// Trimming takes whitespace away at both ends and nothing else: what is
/// left is a piece of `s` that neither starts nor ends with whitespace, and
/// everything before and behind it is whitespace.
pub proof fn lemma_trimmed(s: Seq<char>)
    ensures
        trimmed(s).len() <= s.len(),
        trimmed(s).len() > 0 ==> !unicode_whitespace(trimmed(s)[0]) && !unicode_whitespace(
            trimmed(s).last(),
        ),
        exists|a: int|
            0 <= a && a + trimmed(s).len() <= s.len() && #[trigger] s.subrange(
                a,
                a + trimmed(s).len(),
            ) == trimmed(s) && (forall|i: int|
                0 <= i < a || a + trimmed(s).len() <= i < s.len() ==> unicode_whitespace(
                    #[trigger] s[i],
                )),
{
    lemma_trim_start(s);
    let t = trim_start(s);
    lemma_trim_end(t);
    let r = trim_end(t);
    let a = s.len() - t.len();
    assert(r =~= s.subrange(a, a + r.len()));
    if r.len() > 0 {
        assert(r[0] == t[0]);
    }
    assert forall|i: int| 0 <= i < a || a + r.len() <= i < s.len() implies unicode_whitespace(
        #[trigger] s[i],
    ) by {
        if i >= a {
            assert(t[i - a] == s[i]);
        }
    }
}

/// Where a run of whitespace at the front of `s` ends at `k` and the
/// character at `k`, if any, is none, `trim_start` gives the rest from `k`.
pub proof fn lemma_trim_start_at(s: Seq<char>, k: int)
    requires
        0 <= k <= s.len(),
        forall|i: int| 0 <= i < k ==> unicode_whitespace(#[trigger] s[i]),
        k < s.len() ==> !unicode_whitespace(s[k]),
    ensures
        trim_start(s) == s.subrange(k, s.len() as int),
    decreases k,
{
    if k == 0 {
        assert(s =~= s.subrange(0, s.len() as int));
    } else {
        let r = s.drop_first();
        assert forall|i: int| 0 <= i < k - 1 implies unicode_whitespace(#[trigger] r[i]) by {
            assert(r[i] == s[i + 1]);
        }
        lemma_trim_start_at(r, k - 1);
        assert(r.subrange(k - 1, r.len() as int) =~= s.subrange(k, s.len() as int));
    }
}

/// Where a run of whitespace at the end of `s` starts at `k` and the
/// character before `k`, if any, is none, `trim_end` gives the part up to `k`.
pub proof fn lemma_trim_end_at(s: Seq<char>, k: int)
    requires
        0 <= k <= s.len(),
        forall|i: int| k <= i < s.len() ==> unicode_whitespace(#[trigger] s[i]),
        k > 0 ==> !unicode_whitespace(s[k - 1]),
    ensures
        trim_end(s) == s.subrange(0, k),
    decreases s.len() - k,
{
    if k == s.len() {
        assert(s =~= s.subrange(0, s.len() as int));
    } else {
        let r = s.drop_last();
        lemma_trim_end_at(r, k);
        assert(r.subrange(0, k) =~= s.subrange(0, k));
    }
}

/// Where no line feed stands before `k` and one stands at `k`, or `s` ends
/// there, the first line of `s` has length `k`.
pub proof fn lemma_first_line_len_at(s: Seq<char>, k: int)
    requires
        0 <= k <= s.len(),
        forall|i: int| 0 <= i < k ==> #[trigger] s[i] != '\n',
        k < s.len() ==> s[k] == '\n',
    ensures
        first_line_len(s) == k,
    decreases k,
{
    if k > 0 {
        let r = s.drop_first();
        assert forall|i: int| 0 <= i < k - 1 implies #[trigger] r[i] != '\n' by {
            assert(r[i] == s[i + 1]);
        }
        lemma_first_line_len_at(r, k - 1);
    }
}

/// Where no whitespace stands before `k` and one stands at `k`, or `s` ends
/// there, the first word of `s` has length `k`.
pub proof fn lemma_first_word_len_at(s: Seq<char>, k: int)
    requires
        0 <= k <= s.len(),
        forall|i: int| 0 <= i < k ==> !unicode_whitespace(#[trigger] s[i]),
        k < s.len() ==> unicode_whitespace(s[k]),
    ensures
        first_word_len(s) == k,
    decreases k,
{
    if k > 0 {
        let r = s.drop_first();
        assert forall|i: int| 0 <= i < k - 1 implies !unicode_whitespace(#[trigger] r[i]) by {
            assert(r[i] == s[i + 1]);
        }
        lemma_first_word_len_at(r, k - 1);
    }
}

/// A copy of the characters of `s` from `from` up to `to`.
pub(crate) fn slice_of(s: &Vec<char>, from: usize, to: usize) -> (r: Vec<char>)
    requires
        from <= to <= s.len(),
    ensures
        r@ == s@.subrange(from as int, to as int),
{
    let mut r: Vec<char> = Vec::new();
    let mut i: usize = from;
    while i < to
        invariant
            from <= i <= to <= s.len(),
            r@ == s@.subrange(from as int, i as int),
        decreases to - i,
    {
        r.push(s[i]);
        assert(r@ =~= s@.subrange(from as int, i + 1));
        i += 1;
    }
    r
}

/// Appends the characters of `src` to `dst`.
pub fn push_all(dst: &mut Vec<char>, src: &Vec<char>)
    ensures
        final(dst)@ == old(dst)@ + src@,
{
    let mut i: usize = 0;
    assert(dst@ =~= old(dst)@ + src@.subrange(0, 0));
    while i < src.len()
        invariant
            i <= src.len(),
            dst@ == old(dst)@ + src@.subrange(0, i as int),
        decreases src.len() - i,
    {
        dst.push(src[i]);
        assert(dst@ =~= old(dst)@ + src@.subrange(0, i + 1));
        i += 1;
    }
    assert(src@.subrange(0, src.len() as int) =~= src@);
}

/// Appends the characters of the string `s` to `dst`.
pub fn push_str(dst: &mut Vec<char>, s: &str)
    ensures
        final(dst)@ == old(dst)@ + s@,
{
    let v = chars_of(s);
    push_all(dst, &v);
}

/// The string made of `head` followed by `tail`.
pub fn concat2(head: &str, tail: &str) -> (r: String)
    ensures
        r@ == head@ + tail@,
{
    let mut v = chars_of(head);
    push_str(&mut v, tail);
    string_of(&v)
}

/// The string made of `head`, `middle` and `tail`, in this order.
pub fn concat3(head: &str, middle: &str, tail: &str) -> (r: String)
    ensures
        r@ == head@ + middle@ + tail@,
{
    let mut v = chars_of(head);
    push_str(&mut v, middle);
    push_str(&mut v, tail);
    string_of(&v)
}

/// Whether `a` and `b` hold the same characters.
pub fn same_chars(a: &Vec<char>, b: &Vec<char>) -> (r: bool)
    ensures
        r == (a@ == b@),
{
    if a.len() != b.len() {
        return false;
    }
    let r = matches_at(a, b, 0);
    proof {
        assert(a@.subrange(0, a@.len() as int) =~= a@);
    }
    r
}

/// Whether the strings `a` and `b` hold the same characters.
pub fn same_text(a: &str, b: &str) -> (r: bool)
    ensures
        r == (a@ == b@),
{
    let x = chars_of(a);
    let y = chars_of(b);
    same_chars(&x, &y)
}

/// Whether `needle` stands in `s` at position `i`.
pub fn matches_at(s: &Vec<char>, needle: &Vec<char>, i: usize) -> (b: bool)
    ensures
        b == occurs_at(s@, needle@, i as int),
{
    if i > s.len() || needle.len() > s.len() - i {
        return false;
    }
    let mut j: usize = 0;
    while j < needle.len()
        invariant
            i + needle.len() <= s.len(),
            j <= needle.len(),
            forall|k: int| 0 <= k < j ==> s@[i + k] == needle@[k],
        decreases needle.len() - j,
    {
        if s[i + j] != needle[j] {
            assert(s@.subrange(i as int, i + needle.len())[j as int] != needle@[j as int]);
            return false;
        }
        j += 1;
    }
    assert(s@.subrange(i as int, i + needle.len()) =~= needle@);
    true
}

/// Whether `s` begins with `prefix`.
pub fn starts_with(s: &Vec<char>, prefix: &Vec<char>) -> (b: bool)
    ensures
        b == prefix@.is_prefix_of(s@),
{
    let b = matches_at(s, prefix, 0);
    proof {
        if b {
            assert(prefix@ =~= s@.subrange(0, prefix@.len() as int));
        }
    }
    b
}

/// Whether `needle` stands somewhere in `s`.
pub fn contains(s: &Vec<char>, needle: &Vec<char>) -> (b: bool)
    ensures
        b == has_substring(s@, needle@),
{
    if needle.len() > s.len() {
        return false;
    }
    if needle.len() == 0 {
        assert(occurs_at(s@, needle@, 0)) by {
            assert(s@.subrange(0, 0) =~= needle@);
        }
        return true;
    }
    let last: usize = s.len() - needle.len();
    let mut i: usize = 0;
    while i <= last
        invariant
            last == s.len() - needle.len(),
            last < s.len(),
            i <= last + 1,
            forall|k: int| 0 <= k < i ==> !occurs_at(s@, needle@, k),
        decreases last + 1 - i,
    {
        if matches_at(s, needle, i) {
            return true;
        }
        i += 1;
    }
    false
}

/// `s` without leading and trailing whitespace.
pub fn trim(s: &Vec<char>) -> (r: Vec<char>)
    ensures
        r@ == trimmed(s@),
{
    let mut a: usize = 0;
    while a < s.len() && s[a].is_whitespace()
        invariant
            a <= s.len(),
            forall|i: int| 0 <= i < a ==> unicode_whitespace(#[trigger] s@[i]),
        decreases s.len() - a,
    {
        a += 1;
    }
    let mut b: usize = s.len();
    while b > a && s[b - 1].is_whitespace()
        invariant
            a <= b <= s.len(),
            forall|i: int| b <= i < s.len() ==> unicode_whitespace(#[trigger] s@[i]),
        decreases b,
    {
        b -= 1;
    }
    let r = slice_of(s, a, b);
    proof {
        lemma_trim_start_at(s@, a as int);
        let t = s@.subrange(a as int, s.len() as int);
        assert forall|i: int| b - a <= i < t.len() implies unicode_whitespace(#[trigger] t[i]) by {
            assert(t[i] == s@[a + i]);
        }
        if b > a {
            assert(t[b - a - 1] == s@[b - 1]);
        }
        lemma_trim_end_at(t, b - a);
        assert(t.subrange(0, b - a) =~= s@.subrange(a as int, b as int));
    }
    r
}

/// The character sequences that the vectors of `v` hold, in order.
pub open spec fn rows(v: Seq<Vec<char>>) -> Seq<Seq<char>> {
    Seq::new(v.len(), |i: int| v[i]@)
}

/// The lines of `s`.
pub fn split_lines(s: &Vec<char>) -> (r: Vec<Vec<char>>)
    ensures
        rows(r@) == lines_of(s@),
{
    let mut r: Vec<Vec<char>> = Vec::new();
    let mut start: usize = 0;
    assert(s@.subrange(0, s.len() as int) =~= s@);
    assert(rows(r@) + lines_of(s@) =~= lines_of(s@));
    while start < s.len()
        invariant
            start <= s.len(),
            lines_of(s@) == rows(r@) + lines_of(s@.subrange(start as int, s.len() as int)),
        decreases s.len() - start,
    {
        let mut end: usize = start;
        while end < s.len() && s[end] != '\n'
            invariant
                start <= end <= s.len(),
                forall|i: int| start <= i < end ==> #[trigger] s@[i] != '\n',
            decreases s.len() - end,
        {
            end += 1;
        }
        let line = slice_of(s, start, end);
        let ghost rest = s@.subrange(start as int, s.len() as int);
        let ghost before = rows(r@);
        proof {
            assert forall|i: int| 0 <= i < end - start implies #[trigger] rest[i] != '\n' by {
                assert(rest[i] == s@[start + i]);
            }
            lemma_first_line_len_at(rest, end - start);
            assert(rest.subrange(0, end - start) =~= line@);
        }
        r.push(line);
        assert(rows(r@) =~= before + seq![line@]);
        if end < s.len() {
            assert(rest.subrange(end - start + 1, rest.len() as int) =~= s@.subrange(
                end + 1,
                s.len() as int,
            ));
            start = end + 1;
        } else {
            assert(rest =~= line@);
            assert(lines_of(s@.subrange(end as int, s.len() as int)) =~= Seq::<
                Seq<char>,
            >::empty());
            start = end;
        }
    }
    assert(s@.subrange(start as int, s.len() as int).len() == 0);
    assert(rows(r@) + Seq::<Seq<char>>::empty() =~= rows(r@));
    r
}

/// Where `s` is whitespace up to `a`, free of it from `a` up to `b`, and
/// ends or has whitespace at `b`, its first field is the part from `a` to
/// `b`, and the others are the fields of what follows `b`.
pub proof fn lemma_fields_step(s: Seq<char>, a: int, b: int)
    requires
        0 <= a < b <= s.len(),
        forall|i: int| 0 <= i < a ==> unicode_whitespace(#[trigger] s[i]),
        forall|i: int| a <= i < b ==> !unicode_whitespace(#[trigger] s[i]),
        b < s.len() ==> unicode_whitespace(s[b]),
    ensures
        fields_of(s) == seq![s.subrange(a, b)] + fields_of(s.subrange(b, s.len() as int)),
{
    lemma_trim_start_at(s, a);
    let t = s.subrange(a, s.len() as int);
    assert forall|i: int| 0 <= i < b - a implies !unicode_whitespace(#[trigger] t[i]) by {
        assert(t[i] == s[a + i]);
    }
    if b < s.len() {
        assert(t[b - a] == s[b]);
    }
    lemma_first_word_len_at(t, b - a);
    assert(t.subrange(0, b - a) =~= s.subrange(a, b));
    assert(t.subrange(b - a, t.len() as int) =~= s.subrange(b, s.len() as int));
}

/// A sequence of whitespace alone has no fields.
pub proof fn lemma_fields_none(s: Seq<char>)
    requires
        forall|i: int| 0 <= i < s.len() ==> unicode_whitespace(#[trigger] s[i]),
    ensures
        fields_of(s) == Seq::<Seq<char>>::empty(),
{
    lemma_trim_start_at(s, s.len() as int);
    assert(s.subrange(s.len() as int, s.len() as int).len() == 0);
}

/// The fields of `s`: its maximal runs of characters that are not
/// whitespace.
pub fn split_fields(s: &Vec<char>) -> (r: Vec<Vec<char>>)
    ensures
        rows(r@) == fields_of(s@),
{
    let mut r: Vec<Vec<char>> = Vec::new();
    let mut pos: usize = 0;
    assert(s@.subrange(0, s.len() as int) =~= s@);
    assert(rows(r@) + fields_of(s@) =~= fields_of(s@));
    while pos < s.len()
        invariant
            pos <= s.len(),
            fields_of(s@) == rows(r@) + fields_of(s@.subrange(pos as int, s.len() as int)),
        decreases s.len() - pos,
    {
        let ghost rest = s@.subrange(pos as int, s.len() as int);
        let mut a: usize = pos;
        while a < s.len() && s[a].is_whitespace()
            invariant
                pos <= a <= s.len(),
                forall|i: int| pos <= i < a ==> unicode_whitespace(#[trigger] s@[i]),
            decreases s.len() - a,
        {
            a += 1;
        }
        if a == s.len() {
            proof {
                assert forall|i: int| 0 <= i < rest.len() implies unicode_whitespace(
                    #[trigger] rest[i],
                ) by {
                    assert(rest[i] == s@[pos + i]);
                }
                lemma_fields_none(rest);
                lemma_fields_none(s@.subrange(a as int, s.len() as int));
            }
            pos = a;
        } else {
            let mut b: usize = a + 1;
            while b < s.len() && !s[b].is_whitespace()
                invariant
                    a < b <= s.len(),
                    forall|i: int| a <= i < b ==> !unicode_whitespace(#[trigger] s@[i]),
                decreases s.len() - b,
            {
                b += 1;
            }
            let word = slice_of(s, a, b);
            let ghost before = rows(r@);
            proof {
                assert forall|i: int| 0 <= i < a - pos implies unicode_whitespace(
                    #[trigger] rest[i],
                ) by {
                    assert(rest[i] == s@[pos + i]);
                }
                assert forall|i: int| a - pos <= i < b - pos implies !unicode_whitespace(
                    #[trigger] rest[i],
                ) by {
                    assert(rest[i] == s@[pos + i]);
                }
                if b < s.len() {
                    assert(rest[b - pos] == s@[b as int]);
                }
                lemma_fields_step(rest, a - pos, b - pos);
                assert(rest.subrange(a - pos, b - pos) =~= word@);
                assert(rest.subrange(b - pos, rest.len() as int) =~= s@.subrange(
                    b as int,
                    s.len() as int,
                ));
            }
            r.push(word);
            assert(rows(r@) =~= before + seq![word@]);
            pos = b;
        }
    }
    proof {
        lemma_fields_none(s@.subrange(pos as int, s.len() as int));
        assert(rows(r@) + Seq::<Seq<char>>::empty() =~= rows(r@));
    }
    r
}

/// The items of `parts` from position `from` on, with one space between
/// neighbours.
pub fn join_from(parts: &Vec<Vec<char>>, from: usize) -> (r: Vec<char>)
    ensures
        r@ == joined_from(rows(parts@), from as int),
{
    let mut r: Vec<char> = Vec::new();
    if from >= parts.len() {
        return r;
    }
    let mut i: usize = parts.len() - 1;
    let mut j: usize = 0;
    while j < parts[i].len()
        invariant
            i == parts.len() - 1,
            j <= parts@[i as int]@.len(),
            r@ == parts@[i as int]@.subrange(0, j as int),
        decreases parts@[i as int]@.len() - j,
    {
        r.push(parts[i][j]);
        assert(r@ =~= parts@[i as int]@.subrange(0, j + 1));
        j += 1;
    }
    assert(r@ =~= parts@[i as int]@);
    while i > from
        invariant
            from <= i < parts.len(),
            r@ == joined_from(rows(parts@), i as int),
        decreases i,
    {
        i -= 1;
        let mut head: Vec<char> = slice_of(&parts[i], 0, parts[i].len());
        assert(head@ =~= parts@[i as int]@);
        head.push(' ');
        let mut k: usize = 0;
        while k < r.len()
            invariant
                k <= r.len(),
                head@ == parts@[i as int]@ + seq![' '] + r@.subrange(0, k as int),
            decreases r.len() - k,
        {
            head.push(r[k]);
            assert(head@ =~= parts@[i as int]@ + seq![' '] + r@.subrange(0, k + 1));
            k += 1;
        }
        assert(r@.subrange(0, r.len() as int) =~= r@);
        r = head;
    }
    r
}

/// The character of one decimal digit.
pub open spec fn digit_char(d: int) -> char {
    ('0' as int + d) as char
}

/// The decimal digits of `n`, without leading zeros.
pub open spec fn decimal(n: nat) -> Seq<char>
    decreases n,
{
    if n < 10 {
        seq![digit_char(n as int)]
    } else {
        decimal(n / 10).push(digit_char((n % 10) as int))
    }
}

/// The decimal form of `i`, with a minus in front where it is negative.
pub open spec fn signed_decimal(i: int) -> Seq<char> {
    if i < 0 {
        seq!['-'] + decimal((-i) as nat)
    } else {
        decimal(i as nat)
    }
}

/// Appends the decimal digits of `n` to `out`.
pub fn push_decimal(out: &mut Vec<char>, n: u64)
    ensures
        final(out)@ == old(out)@ + decimal(n as nat),
    decreases n,
{
    if n >= 10 {
        push_decimal(out, n / 10);
    }
    let d: u8 = (n % 10) as u8;
    out.push((48u8 + d) as char);
    proof {
        if n >= 10 {
            assert(out@ =~= old(out)@ + decimal(n as nat / 10).push(
                digit_char((n as nat % 10) as int),
            ));
        } else {
            assert(out@ =~= old(out)@ + seq![digit_char(n as int)]);
        }
    }
}

/// Appends the decimal form of `i` to `out`.
pub fn push_signed_decimal(out: &mut Vec<char>, i: i64)
    ensures
        final(out)@ == old(out)@ + signed_decimal(i as int),
{
    if i < 0 {
        out.push('-');
        let ghost mid = out@;
        let m: u64 = if i == i64::MIN {
            9223372036854775808u64
        } else {
            (-i) as u64
        };
        push_decimal(out, m);
        assert(out@ =~= old(out)@ + (seq!['-'] + decimal((-i) as nat)));
    } else {
        push_decimal(out, i as u64);
    }
}

/// `a` comes before `b` in the order of texts: character by character, by
/// code point, a proper prefix before what continues it.
pub open spec fn text_lt(a: Seq<char>, b: Seq<char>) -> bool
    decreases a.len(),
{
    if b.len() == 0 {
        false
    } else if a.len() == 0 {
        true
    } else if a[0] != b[0] {
        a[0] < b[0]
    } else {
        text_lt(a.drop_first(), b.drop_first())
    }
}

/// No text comes before itself.
pub proof fn lemma_text_lt_irreflexive(a: Seq<char>)
    ensures
        !text_lt(a, a),
    decreases a.len(),
{
    if a.len() > 0 {
        lemma_text_lt_irreflexive(a.drop_first());
    }
}

/// Of two texts at most one comes before the other.
pub proof fn lemma_text_lt_asymmetric(a: Seq<char>, b: Seq<char>)
    requires
        text_lt(a, b),
    ensures
        !text_lt(b, a),
    decreases a.len(),
{
    if a.len() > 0 && b.len() > 0 && a[0] == b[0] {
        lemma_text_lt_asymmetric(a.drop_first(), b.drop_first());
    }
}

/// The order of texts is transitive.
pub proof fn lemma_text_lt_transitive(a: Seq<char>, b: Seq<char>, c: Seq<char>)
    requires
        text_lt(a, b),
        text_lt(b, c),
    ensures
        text_lt(a, c),
    decreases a.len(),
{
    if a.len() > 0 && b.len() > 0 && c.len() > 0 && a[0] == b[0] && b[0] == c[0] {
        lemma_text_lt_transitive(a.drop_first(), b.drop_first(), c.drop_first());
    }
}

/// Of two different texts one comes before the other.
pub proof fn lemma_text_lt_total(a: Seq<char>, b: Seq<char>)
    ensures
        a == b || text_lt(a, b) || text_lt(b, a),
    decreases a.len(),
{
    if a.len() > 0 && b.len() > 0 && a[0] == b[0] {
        lemma_text_lt_total(a.drop_first(), b.drop_first());
        if a.drop_first() == b.drop_first() {
            assert(a =~= seq![a[0]] + a.drop_first());
            assert(b =~= seq![b[0]] + b.drop_first());
        }
    } else if a.len() == 0 && b.len() == 0 {
        assert(a =~= b);
    }
}

/// How two texts stand to each other in the order of texts.
#[derive(Clone, Copy, Debug, PartialEq, Eq, Structural)]
pub enum Rank {
    Before,
    Same,
    After,
}

/// How `a` stands to `b` in the order of texts.
pub fn rank_chars(a: &Vec<char>, b: &Vec<char>) -> (r: Rank)
    ensures
        r == Rank::Before <==> text_lt(a@, b@),
        r == Rank::Same <==> a@ == b@,
        r == Rank::After <==> text_lt(b@, a@),
{
    let mut i: usize = 0;
    proof {
        assert(a@.skip(0) =~= a@);
        assert(b@.skip(0) =~= b@);
    }
    while i < a.len() && i < b.len()
        invariant
            i <= a.len(),
            i <= b.len(),
            a@.take(i as int) == b@.take(i as int),
            text_lt(a@, b@) == text_lt(a@.skip(i as int), b@.skip(i as int)),
            text_lt(b@, a@) == text_lt(b@.skip(i as int), a@.skip(i as int)),
        decreases a.len() - i,
    {
        let x = a[i];
        let y = b[i];
        proof {
            assert(a@.skip(i as int)[0] == x);
            assert(b@.skip(i as int)[0] == y);
            assert(a@.skip(i as int).drop_first() =~= a@.skip(i + 1));
            assert(b@.skip(i as int).drop_first() =~= b@.skip(i + 1));
        }
        if x < y {
            assert(a@ != b@);
            return Rank::Before;
        }
        if y < x {
            assert(a@ != b@);
            return Rank::After;
        }
        assert(a@.take(i + 1) =~= a@.take(i as int).push(x));
        assert(b@.take(i + 1) =~= b@.take(i as int).push(y));
        i += 1;
    }
    proof {
        lemma_text_lt_irreflexive(a@);
        if i == a.len() {
            assert(a@.take(i as int) =~= a@);
        }
        if i == b.len() {
            assert(b@.take(i as int) =~= b@);
        }
    }
    if i < b.len() {
        assert(a@.len() != b@.len());
        Rank::Before
    } else if i < a.len() {
        assert(a@.len() != b@.len());
        Rank::After
    } else {
        Rank::Same
    }
}

/// How the string `a` stands to the string `b` in the order of texts.
pub fn rank_text(a: &str, b: &str) -> (r: Rank)
    ensures
        r == Rank::Before <==> text_lt(a@, b@),
        r == Rank::Same <==> a@ == b@,
        r == Rank::After <==> text_lt(b@, a@),
{
    let x = chars_of(a);
    let y = chars_of(b);
    rank_chars(&x, &y)
}

} // verus!

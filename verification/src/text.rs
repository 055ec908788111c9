//! Character-level helpers on strings: the few operations the rest of the
//! library needs, each stated over the sequence of characters.

use vstd::prelude::*;
use vstd::string::StringExecFns;

verus! {

/// Whether a character is whitespace: whether it has the Unicode property
/// `White_Space`. These are the tab, the line feed, the vertical tab, the
/// form feed and the carriage return; the blank; the next-line control; the
/// no-break blank; the Ogham space mark; the blanks of fixed width from the
/// en quad to the hair space; the line and the paragraph separator; the
/// narrow no-break blank; the medium mathematical blank; and the
/// ideographic blank.
pub open spec fn is_whitespace(c: char) -> bool {
    ('\u{9}' <= c && c <= '\u{d}') || c == ' ' || c == '\u{85}' || c == '\u{a0}' || c
        == '\u{1680}' || ('\u{2000}' <= c && c <= '\u{200a}') || c == '\u{2028}' || c
        == '\u{2029}' || c == '\u{202f}' || c == '\u{205f}' || c == '\u{3000}'
}

/// `char::is_whitespace`: whether the character has the Unicode property
/// `White_Space`.
#[verifier::external_body]
pub(crate) fn char_is_whitespace(c: char) -> (r: bool)
    ensures
        r == is_whitespace(c),
{
    c.is_whitespace()
}

/// `==` on two string slices: they are equal when they hold the same
/// characters.
#[verifier::external_body]
pub(crate) fn str_eq(a: &str, b: &str) -> (r: bool)
    ensures
        r == (a@ == b@),
{
    a == b
}

/// `String::push`: appends one character.
#[verifier::external_body]
pub(crate) fn push_char(s: &mut String, c: char)
    ensures
        final(s)@ == old(s)@.push(c),
{
    s.push(c)
}

/// `s` without the whitespace at its front.
pub open spec fn skip_space(s: Seq<char>) -> Seq<char>
    decreases s.len(),
{
    if s.len() > 0 && is_whitespace(s[0]) {
        skip_space(s.drop_first())
    } else {
        s
    }
}

/// `s` without the whitespace at its end.
pub open spec fn drop_space(s: Seq<char>) -> Seq<char>
    decreases s.len(),
{
    if s.len() > 0 && is_whitespace(s.last()) {
        drop_space(s.drop_last())
    } else {
        s
    }
}

/// `s` without the whitespace at either end.
pub open spec fn trimmed(s: Seq<char>) -> Seq<char> {
    drop_space(skip_space(s))
}

/// The parts, with `sep` between each two neighbours.
pub open spec fn joined(parts: Seq<Seq<char>>, sep: Seq<char>) -> Seq<char>
    decreases parts.len(),
{
    if parts.len() == 0 {
        Seq::empty()
    } else if parts.len() == 1 {
        parts[0]
    } else {
        joined(parts.drop_last(), sep) + sep + parts.last()
    }
}

/// The view of an optional string.
pub open spec fn opt_text(s: Option<String>) -> Option<Seq<char>> {
    match s {
        Some(t) => Some(t@),
        None => None,
    }
}

/// The text of a result that holds a string either way.
pub open spec fn result_text(result: Result<String, String>) -> Result<Seq<char>, Seq<char>> {
    match result {
        Ok(text) => Ok(text@),
        Err(reason) => Err(reason@),
    }
}

/// The texts of a list of strings.
pub open spec fn texts(parts: Seq<String>) -> Seq<Seq<char>> {
    Seq::new(parts.len(), |i: int| parts[i]@)
}

/// The pieces of `s` between the occurrences of `sep`: one more piece than
/// there are separators.
pub open spec fn split(s: Seq<char>, sep: char) -> Seq<Seq<char>>
    decreases s.len(),
{
    if s.len() == 0 {
        seq![Seq::empty()]
    } else if s.last() == sep {
        split(s.drop_last(), sep).push(Seq::empty())
    } else {
        let before = split(s.drop_last(), sep);
        before.drop_last().push(before.last().push(s.last()))
    }
}

/// A split has at least one piece.
pub proof fn lemma_split_nonempty(s: Seq<char>, sep: char)
    ensures
        split(s, sep).len() >= 1,
    decreases s.len(),
{
    if s.len() > 0 {
        lemma_split_nonempty(s.drop_last(), sep);
    }
}

/// The characters of `s`, in order.
pub fn to_chars(s: &str) -> (out: Vec<char>)
    ensures
        out@ == s@,
{
    let mut out: Vec<char> = Vec::new();
    for c in it: s.chars()
        invariant
            out@ == it.seq().take(it.index() as int),
            it.seq() == s@,
    {
        out.push(c);
    }
    out
}

/// The string made of the characters `chars[from..to]`.
pub fn from_chars(chars: &Vec<char>, from: usize, to: usize) -> (out: String)
    requires
        from <= to <= chars.len(),
    ensures
        out@ == chars@.subrange(from as int, to as int),
{
    let mut out = String::new();
    let mut i: usize = from;
    while i < to
        invariant
            from <= i <= to <= chars.len(),
            out@ == chars@.subrange(from as int, i as int),
        decreases to - i,
    {
        push_char(&mut out, chars[i]);
        assert(chars@.subrange(from as int, i as int).push(chars@[i as int])
            =~= chars@.subrange(from as int, i + 1));
        i = i + 1;
    }
    out
}

/// `a` followed by `b`.
pub fn concat(a: &str, b: &str) -> (out: String)
    ensures
        out@ == a@ + b@,
{
    let mut out = a.to_owned();
    out.append(b);
    out
}

/// `a`, `b` and `c` in a row.
pub fn concat3(a: &str, b: &str, c: &str) -> (out: String)
    ensures
        out@ == a@ + b@ + c@,
{
    let mut out = a.to_owned();
    out.append(b);
    out.append(c);
    out
}

/// The bounds of `chars[from..to]` without the whitespace at either end.
pub fn trim_range(chars: &Vec<char>, from: usize, to: usize) -> (r: (usize, usize))
    requires
        from <= to <= chars.len(),
    ensures
        from <= r.0 <= r.1 <= to,
        chars@.subrange(r.0 as int, r.1 as int) == trimmed(chars@.subrange(from as int, to as int)),
{
    let mut i: usize = from;
    while i < to && char_is_whitespace(chars[i])
        invariant
            from <= i <= to <= chars.len(),
            skip_space(chars@.subrange(from as int, to as int)) == skip_space(
                chars@.subrange(i as int, to as int),
            ),
        decreases to - i,
    {
        assert(chars@.subrange(i as int, to as int).drop_first() =~= chars@.subrange(
            i + 1,
            to as int,
        ));
        i = i + 1;
    }
    let mut j: usize = to;
    while j > i && char_is_whitespace(chars[j - 1])
        invariant
            i <= j <= to <= chars.len(),
            drop_space(chars@.subrange(i as int, to as int)) == drop_space(
                chars@.subrange(i as int, j as int),
            ),
        decreases j - i,
    {
        assert(chars@.subrange(i as int, j as int).drop_last() =~= chars@.subrange(
            i as int,
            j - 1,
        ));
        j = j - 1;
    }
    (i, j)
}

/// `s` without the whitespace at either end.
pub fn trim(s: &str) -> (out: String)
    ensures
        out@ == trimmed(s@),
{
    let chars = to_chars(s);
    let (a, b) = trim_range(&chars, 0, chars.len());
    assert(chars@.subrange(0, chars.len() as int) =~= chars@);
    from_chars(&chars, a, b)
}

/// Whether `s` begins with `prefix`.
pub fn starts_with(s: &str, prefix: &str) -> (r: bool)
    ensures
        r == prefix@.is_prefix_of(s@),
{
    let a = to_chars(s);
    let b = to_chars(prefix);
    if b.len() > a.len() {
        return false;
    }
    let mut i: usize = 0;
    while i < b.len()
        invariant
            0 <= i <= b.len() <= a.len(),
            a@ == s@,
            b@ == prefix@,
            forall|k: int| 0 <= k < i ==> a@[k] == b@[k],
        decreases b.len() - i,
    {
        if a[i] != b[i] {
            assert(s@.subrange(0, prefix@.len() as int)[i as int] != prefix@[i as int]);
            return false;
        }
        i = i + 1;
    }
    assert(s@.subrange(0, prefix@.len() as int) =~= prefix@);
    true
}

/// The parts, with `sep` between each two neighbours.
pub fn join(parts: &Vec<String>, sep: &str) -> (out: String)
    ensures
        out@ == joined(texts(parts@), sep@),
{
    let mut out = String::new();
    let mut i: usize = 0;
    while i < parts.len()
        invariant
            0 <= i <= parts.len(),
            out@ == joined(texts(parts@).take(i as int), sep@),
        decreases parts.len() - i,
    {
        if i > 0 {
            out.append(sep);
        }
        out.append(parts[i].as_str());
        proof {
            let t = texts(parts@);
            assert(t.take(i + 1).drop_last() =~= t.take(i as int));
            assert(t.take(i + 1).last() == parts@[i as int]@);
            if i == 0 {
                assert(out@ =~= parts@[0]@);
            }
        }
        i = i + 1;
    }
    assert(texts(parts@).take(parts.len() as int) =~= texts(parts@));
    out
}

/// Whether `range` bounds the characters `piece` within `chars`.
pub open spec fn bounds(chars: Seq<char>, range: (usize, usize), piece: Seq<char>) -> bool {
    &&& range.0 <= range.1 <= chars.len()
    &&& chars.subrange(range.0 as int, range.1 as int) == piece
}

/// The pieces of `chars` between the occurrences of `sep`, each as the pair
/// of its bounds.
pub fn split_ranges(chars: &Vec<char>, sep: char) -> (out: Vec<(usize, usize)>)
    ensures
        out@.len() == split(chars@, sep).len(),
        forall|k: int|
            0 <= k < out@.len() ==> bounds(chars@, #[trigger] out@[k], split(chars@, sep)[k]),
{
    let mut out: Vec<(usize, usize)> = Vec::new();
    let mut start: usize = 0;
    let mut i: usize = 0;
    proof {
        assert(chars@.take(0) =~= Seq::<char>::empty());
    }
    while i < chars.len()
        invariant
            0 <= start <= i <= chars.len(),
            out@.len() + 1 == split(chars@.take(i as int), sep).len(),
            forall|k: int|
                0 <= k < out@.len() ==> bounds(
                    chars@,
                    #[trigger] out@[k],
                    split(chars@.take(i as int), sep)[k],
                ),
            chars@.subrange(start as int, i as int) == split(chars@.take(i as int), sep).last(),
        decreases chars.len() - i,
    {
        let ghost s0 = chars@.take(i as int);
        let ghost s1 = chars@.take(i + 1);
        let ghost before = split(s0, sep);
        let ghost after = split(s1, sep);
        let ghost old_out = out@;
        proof {
            assert(s1.drop_last() =~= s0);
            assert(s1.last() == chars@[i as int]);
            lemma_split_nonempty(s0, sep);
        }
        if chars[i] == sep {
            out.push((start, i));
            start = i + 1;
            proof {
                assert(after == before.push(Seq::empty()));
                assert(chars@.subrange(start as int, i + 1) =~= Seq::<char>::empty());
                assert forall|k: int| 0 <= k < out@.len() implies bounds(
                    chars@,
                    #[trigger] out@[k],
                    after[k],
                ) by {
                    if k < old_out.len() {
                        assert(out@[k] == old_out[k]);
                        assert(after[k] == before[k]);
                    } else {
                        assert(after[k] == before.last());
                    }
                }
            }
        } else {
            proof {
                assert(after == before.drop_last().push(before.last().push(s1.last())));
                assert(chars@.subrange(start as int, i + 1) =~= chars@.subrange(
                    start as int,
                    i as int,
                ).push(chars@[i as int]));
                assert forall|k: int| 0 <= k < out@.len() implies bounds(
                    chars@,
                    #[trigger] out@[k],
                    after[k],
                ) by {
                    assert(out@[k] == old_out[k]);
                    assert(after[k] == before[k]);
                }
            }
        }
        i = i + 1;
    }
    let ghost old_out = out@;
    let ghost all = split(chars@, sep);
    proof {
        assert(chars@.take(chars.len() as int) =~= chars@);
    }
    out.push((start, i));
    proof {
        assert forall|k: int| 0 <= k < out@.len() implies bounds(
            chars@,
            #[trigger] out@[k],
            all[k],
        ) by {
            if k < old_out.len() {
                assert(out@[k] == old_out[k]);
            } else {
                assert(all[k] == all.last());
            }
        }
    }
    out
}

/// `s` with every `from` turned into `to`.
pub open spec fn replaced(s: Seq<char>, from: char, to: char) -> Seq<char> {
    Seq::new(
        s.len(),
        |i: int|
            if s[i] == from {
                to
            } else {
                s[i]
            },
    )
}

/// Whether `pattern` stands in `s` at position `at`.
pub open spec fn matches_at(s: Seq<char>, pattern: Seq<char>, at: int) -> bool {
    &&& 0 <= at
    &&& at + pattern.len() <= s.len()
    &&& s.subrange(at, at + pattern.len()) == pattern
}

/// The first position at or after `from` where `pattern` stands in `s`.
pub open spec fn first_match(s: Seq<char>, pattern: Seq<char>, from: int) -> Option<int>
    decreases s.len() - from + 1,
{
    if from < 0 || from + pattern.len() > s.len() {
        None
    } else if matches_at(s, pattern, from) {
        Some(from)
    } else {
        first_match(s, pattern, from + 1)
    }
}

/// Where `first_match` finds the pattern, it stands there, and nowhere
/// between `from` and there; where it finds none, there is none.
pub proof fn first_match_is_least(s: Seq<char>, pattern: Seq<char>, from: int)
    requires
        0 <= from,
    ensures
        match first_match(s, pattern, from) {
            Some(at) => from <= at && matches_at(s, pattern, at) && forall|k: int|
                from <= k < at ==> !matches_at(s, pattern, k),
            None => forall|k: int| from <= k ==> !matches_at(s, pattern, k),
        },
    decreases s.len() - from + 1,
{
    if from + pattern.len() <= s.len() && !matches_at(s, pattern, from) {
        first_match_is_least(s, pattern, from + 1);
    }
}

/// `s` with every character turned into the one given.
pub fn replace_char(s: &str, from: char, to: char) -> (out: String)
    ensures
        out@ == replaced(s@, from, to),
{
    let chars = to_chars(s);
    let mut out = String::new();
    let mut i: usize = 0;
    while i < chars.len()
        invariant
            0 <= i <= chars.len(),
            chars@ == s@,
            out@ == replaced(s@, from, to).take(i as int),
        decreases chars.len() - i,
    {
        let c = if chars[i] == from {
            to
        } else {
            chars[i]
        };
        push_char(&mut out, c);
        proof {
            let r = replaced(s@, from, to);
            assert(r.take(i + 1) =~= r.take(i as int).push(r[i as int]));
        }
        i = i + 1;
    }
    proof {
        let r = replaced(s@, from, to);
        assert(r.take(chars.len() as int) =~= r);
    }
    out
}

/// Whether `pattern` stands in `chars` at position `at`.
pub fn stands_at(chars: &Vec<char>, pattern: &Vec<char>, at: usize) -> (r: bool)
    ensures
        r == matches_at(chars@, pattern@, at as int),
{
    if pattern.len() > chars.len() || at > chars.len() - pattern.len() {
        return false;
    }
    let mut i: usize = 0;
    while i < pattern.len()
        invariant
            0 <= i <= pattern.len(),
            at + pattern.len() <= chars.len(),
            forall|k: int| 0 <= k < i ==> chars@[at + k] == pattern@[k],
        decreases pattern.len() - i,
    {
        if chars[at + i] != pattern[i] {
            assert(chars@.subrange(at as int, at + pattern@.len())[i as int] != pattern@[i as int]);
            return false;
        }
        i = i + 1;
    }
    assert(chars@.subrange(at as int, at + pattern@.len()) =~= pattern@);
    true
}

/// The first position at or after `from` where `pattern` stands in `chars`.
pub fn find_from(chars: &Vec<char>, pattern: &Vec<char>, from: usize) -> (r: Option<usize>)
    ensures
        match r {
            Some(at) => first_match(chars@, pattern@, from as int) == Some(at as int) && from <= at
                && at + pattern.len() <= chars.len(),
            None => first_match(chars@, pattern@, from as int) is None,
        },
{
    if pattern.len() > chars.len() {
        return None;
    }
    let last: usize = chars.len() - pattern.len();
    let mut i: usize = from;
    while i <= last
        invariant
            from <= i,
            last == chars.len() - pattern.len(),
            first_match(chars@, pattern@, from as int) == first_match(chars@, pattern@, i as int),
        decreases last - i,
    {
        if stands_at(chars, pattern, i) {
            return Some(i);
        }
        if i == last {
            assert(first_match(chars@, pattern@, i + 1) is None);
            return None;
        }
        i = i + 1;
    }
    None
}

/// Whether `s` ends with `suffix`.
pub fn ends_with(s: &str, suffix: &str) -> (r: bool)
    ensures
        r == suffix@.is_suffix_of(s@),
{
    let a = to_chars(s);
    let b = to_chars(suffix);
    if b.len() > a.len() {
        return false;
    }
    let at: usize = a.len() - b.len();
    let r = stands_at(&a, &b, at);
    proof {
        assert(s@.subrange(at as int, at + b@.len()) =~= s@.subrange(
            s@.len() - suffix@.len(),
            s@.len() as int,
        ));
    }
    r
}

/// The decimal digits of a number.
pub open spec fn decimal(n: nat) -> Seq<char>
    decreases n,
{
    if n < 10 {
        seq![digit(n)]
    } else {
        decimal(n / 10).push(digit(n % 10))
    }
}

/// The character of a digit.
pub open spec fn digit(d: nat) -> char {
    if d == 0 {
        '0'
    } else if d == 1 {
        '1'
    } else if d == 2 {
        '2'
    } else if d == 3 {
        '3'
    } else if d == 4 {
        '4'
    } else if d == 5 {
        '5'
    } else if d == 6 {
        '6'
    } else if d == 7 {
        '7'
    } else if d == 8 {
        '8'
    } else {
        '9'
    }
}

fn digit_char(d: u64) -> (c: char)
    requires
        d < 10,
    ensures
        c == digit(d as nat),
{
    if d == 0 {
        '0'
    } else if d == 1 {
        '1'
    } else if d == 2 {
        '2'
    } else if d == 3 {
        '3'
    } else if d == 4 {
        '4'
    } else if d == 5 {
        '5'
    } else if d == 6 {
        '6'
    } else if d == 7 {
        '7'
    } else if d == 8 {
        '8'
    } else {
        '9'
    }
}

/// A number in decimal digits.
pub fn to_decimal(n: u64) -> (out: String)
    ensures
        out@ == decimal(n as nat),
    decreases n,
{
    if n < 10 {
        let mut out = String::new();
        push_char(&mut out, digit_char(n));
        assert(out@ =~= seq![digit(n as nat)]);
        out
    } else {
        let mut out = to_decimal(n / 10);
        push_char(&mut out, digit_char(n % 10));
        out
    }
}

} // verus!

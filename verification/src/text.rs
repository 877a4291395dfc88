//! Text as sequences of characters.
//!
//! Every function here works on whole characters; its contract is stated over
//! the view of a text, which is a `Seq<char>`.

use vstd::prelude::*;
use vstd::string::*;
use vstd::utf8::*;

verus! {

broadcast use {vstd::string::group_string_axioms, vstd::seq::group_seq_axioms};

/// `String::push` appends one character to the end of the text.
pub assume_specification[ String::push ](text: &mut String, ch: char)
    ensures
        final(text)@ == old(text)@.push(ch),
;

// ---------------------------------------------------------------------------
// Walking a sequence from the front
// ---------------------------------------------------------------------------

/// What one more element adds to the prefix that a loop has walked.
pub proof fn step<A>(s: Seq<A>, i: int)
    requires
        0 <= i < s.len(),
    ensures
        s.take(i + 1) == s.take(i).push(s[i]),
        s.take(i + 1).drop_last() == s.take(i),
        s.take(i + 1).last() == s[i],
        s.take(i + 1).len() == i + 1,
{
    assert(s.take(i + 1) =~= s.take(i).push(s[i]));
    assert(s.take(i + 1).drop_last() =~= s.take(i));
}

/// The longest prefix is the whole sequence, the shortest is empty.
pub proof fn ends<A>(s: Seq<A>)
    ensures
        s.take(s.len() as int) == s,
        s.take(0) == Seq::<A>::empty(),
{
    assert(s.take(s.len() as int) =~= s);
    assert(s.take(0) =~= Seq::<A>::empty());
}

// ---------------------------------------------------------------------------
// Equality, characters and concatenation
// ---------------------------------------------------------------------------

/// Two texts with equal bytes have equal characters.
pub proof fn lemma_bytes_determine_text(a: Seq<char>, b: Seq<char>)
    requires
        encode_utf8(a) == encode_utf8(b),
    ensures
        a == b,
{
    encode_utf8_decode_utf8(a);
    encode_utf8_decode_utf8(b);
}

/// Whether two texts hold the same characters.
pub fn same(a: &str, b: &str) -> (r: bool)
    ensures
        r == (a@ == b@),
{
    let x = a.as_bytes();
    let y = b.as_bytes();
    if x.len() != y.len() {
        return false;
    }
    let mut i: usize = 0;
    while i < x.len()
        invariant
            x@ == encode_utf8(a@),
            y@ == encode_utf8(b@),
            x@.len() == y@.len(),
            i <= x@.len(),
            x@.take(i as int) == y@.take(i as int),
        decreases x@.len() - i,
    {
        if x[i] != y[i] {
            return false;
        }
        proof {
            step(x@, i as int);
            step(y@, i as int);
        }
        i = i + 1;
    }
    proof {
        ends(x@);
        ends(y@);
        lemma_bytes_determine_text(a@, b@);
    }
    true
}

/// Whether an optional text is present and equals `b`.
pub fn is_text(a: Option<&str>, b: &str) -> (r: bool)
    ensures
        r == (a.deep_view() == Some(b@)),
{
    match a {
        Some(x) => same(x, b),
        None => false,
    }
}

/// Whether two optional texts are equal.
pub fn same_opt(a: Option<&str>, b: Option<&str>) -> (r: bool)
    ensures
        r == (a.deep_view() == b.deep_view()),
{
    match (a, b) {
        (Some(x), Some(y)) => same(x, y),
        (None, None) => true,
        _ => false,
    }
}

/// A borrowed optional text.
pub fn as_text(a: &Option<String>) -> (r: Option<&str>)
    ensures
        r.deep_view() == a.deep_view(),
{
    match a {
        Some(t) => Some(t.as_str()),
        None => None,
    }
}

/// An owned copy of an optional text.
pub fn own_opt(a: Option<&str>) -> (r: Option<String>)
    ensures
        r.deep_view() == a.deep_view(),
{
    match a {
        Some(t) => Some(t.to_string()),
        None => None,
    }
}

/// The text, or `fallback` where there is none.
pub open spec fn text_or(a: Option<Seq<char>>, fallback: Seq<char>) -> Seq<char> {
    match a {
        Some(t) => t,
        None => fallback,
    }
}

/// The text, or `fallback` where there is none.
pub fn or_text<'a>(a: Option<&'a str>, fallback: &'a str) -> (r: &'a str)
    ensures
        r@ == text_or(a.deep_view(), fallback@),
{
    match a {
        Some(t) => t,
        None => fallback,
    }
}

/// A text is blank where it is missing or empty.
pub open spec fn blank(a: Option<Seq<char>>) -> bool {
    match a {
        Some(t) => t.len() == 0,
        None => true,
    }
}

/// Whether the text is missing or empty.
pub fn is_blank(a: Option<&str>) -> (r: bool)
    ensures
        r == blank(a.deep_view()),
{
    match a {
        Some(t) => t.is_empty(),
        None => true,
    }
}

/// The characters of a text.
pub fn chars_of(s: &str) -> (r: Vec<char>)
    ensures
        r@ == s@,
{
    let mut out: Vec<char> = Vec::new();
    for c in it: s.chars()
        invariant
            out@ == s@.take(it.index()),
            it.seq() == s@,
    {
        proof {
            step(s@, it.index());
        }
        out.push(c);
    }
    proof {
        ends(s@);
    }
    out
}

/// The text made of the characters `from..to`.
pub fn text_between(chars: &Vec<char>, from: usize, to: usize) -> (r: String)
    requires
        from <= to <= chars@.len(),
    ensures
        r@ == chars@.subrange(from as int, to as int),
{
    let mut out = String::new();
    let mut i: usize = from;
    proof {
        assert(chars@.subrange(from as int, from as int) =~= Seq::<char>::empty());
    }
    while i < to
        invariant
            from <= i <= to <= chars@.len(),
            out@ == chars@.subrange(from as int, i as int),
        decreases to - i,
    {
        out.push(chars[i]);
        proof {
            assert(chars@.subrange(from as int, i + 1) =~= chars@.subrange(
                from as int,
                i as int,
            ).push(chars@[i as int]));
        }
        i = i + 1;
    }
    out
}

/// The text made of these characters.
pub fn text_of(chars: &Vec<char>) -> (r: String)
    ensures
        r@ == chars@,
{
    let out = text_between(chars, 0, chars.len());
    proof {
        assert(chars@.subrange(0, chars@.len() as int) =~= chars@);
    }
    out
}

/// The number of bytes of a text in UTF-8.
pub open spec fn byte_len(s: Seq<char>) -> usize {
    encode_utf8(s).len() as usize
}

/// The number of bytes of a text in UTF-8.
pub fn byte_size(s: &str) -> (r: usize)
    ensures
        r == byte_len(s@),
{
    s.len()
}

/// `a` followed by `b`.
pub fn cat2(a: &str, b: &str) -> (r: String)
    ensures
        r@ == a@ + b@,
{
    a.to_string().concat(b)
}

/// `a`, `b` and `c` in a row.
pub fn cat3(a: &str, b: &str, c: &str) -> (r: String)
    ensures
        r@ == a@ + b@ + c@,
{
    cat2(a, b).concat(c)
}

/// Four texts in a row.
pub fn cat4(a: &str, b: &str, c: &str, d: &str) -> (r: String)
    ensures
        r@ == a@ + b@ + c@ + d@,
{
    cat3(a, b, c).concat(d)
}

/// Five texts in a row.
pub fn cat5(a: &str, b: &str, c: &str, d: &str, e: &str) -> (r: String)
    ensures
        r@ == a@ + b@ + c@ + d@ + e@,
{
    cat4(a, b, c, d).concat(e)
}

/// Six texts in a row.
pub fn cat6(a: &str, b: &str, c: &str, d: &str, e: &str, f: &str) -> (r: String)
    ensures
        r@ == a@ + b@ + c@ + d@ + e@ + f@,
{
    cat5(a, b, c, d, e).concat(f)
}

/// Seven texts in a row.
pub fn cat7(a: &str, b: &str, c: &str, d: &str, e: &str, f: &str, g: &str) -> (r: String)
    ensures
        r@ == a@ + b@ + c@ + d@ + e@ + f@ + g@,
{
    cat6(a, b, c, d, e, f).concat(g)
}

/// Eight texts in a row.
pub fn cat8(
    a: &str,
    b: &str,
    c: &str,
    d: &str,
    e: &str,
    f: &str,
    g: &str,
    h: &str,
) -> (r: String)
    ensures
        r@ == a@ + b@ + c@ + d@ + e@ + f@ + g@ + h@,
{
    cat7(a, b, c, d, e, f, g).concat(h)
}

/// The texts with `separator` between neighbours.
pub open spec fn joined(parts: Seq<Seq<char>>, separator: Seq<char>) -> Seq<char>
    decreases parts.len(),
{
    if parts.len() == 0 {
        Seq::empty()
    } else if parts.len() == 1 {
        parts[0]
    } else {
        joined(parts.drop_last(), separator) + separator + parts.last()
    }
}

/// The texts with `separator` between neighbours.
pub fn join(parts: &Vec<String>, separator: &str) -> (r: String)
    ensures
        r@ == joined(parts.deep_view(), separator@),
{
    let mut out = String::new();
    let mut i: usize = 0;
    proof {
        ends(parts.deep_view());
    }
    while i < parts.len()
        invariant
            i <= parts@.len(),
            out@ == joined(parts.deep_view().take(i as int), separator@),
        decreases parts@.len() - i,
    {
        proof {
            step(parts.deep_view(), i as int);
        }
        if i > 0 {
            out = out.concat(separator);
            out = out.concat(&parts[i]);
        } else {
            out = parts[i].clone();
        }
        i = i + 1;
    }
    proof {
        ends(parts.deep_view());
    }
    out
}

// ---------------------------------------------------------------------------
// Prefixes, suffixes and parts
// ---------------------------------------------------------------------------

/// Whether `part` stands in `s` at position `i`.
pub open spec fn stands_at(s: Seq<char>, part: Seq<char>, i: int) -> bool {
    0 <= i && i + part.len() <= s.len() && s.subrange(i, i + part.len()) == part
}

/// Whether `s` begins with `part`.
pub open spec fn begins(s: Seq<char>, part: Seq<char>) -> bool {
    stands_at(s, part, 0)
}

/// Whether `s` ends with `part`.
pub open spec fn finishes(s: Seq<char>, part: Seq<char>) -> bool {
    stands_at(s, part, s.len() - part.len())
}

/// Whether `part` occurs somewhere in `s`.
pub open spec fn holds(s: Seq<char>, part: Seq<char>) -> bool {
    exists|i: int| #[trigger] stands_at(s, part, i)
}

/// Whether `part` stands in `s` at position `i`.
pub fn found_at(s: &Vec<char>, part: &Vec<char>, i: usize) -> (r: bool)
    ensures
        r == stands_at(s@, part@, i as int),
{
    if i > s.len() || part.len() > s.len() - i {
        return false;
    }
    let mut k: usize = 0;
    while k < part.len()
        invariant
            i + part@.len() <= s.len(),
            k <= part@.len(),
            forall|j: int| 0 <= j < k ==> s@[i + j] == part@[j],
        decreases part@.len() - k,
    {
        if s[i + k] != part[k] {
            proof {
                assert(s@.subrange(i as int, i + part@.len())[k as int] == s@[i + k]);
            }
            return false;
        }
        k = k + 1;
    }
    proof {
        assert(s@.subrange(i as int, i + part@.len()) =~= part@);
    }
    true
}

/// Whether `s` begins with `part`.
pub fn starts_with(s: &str, part: &str) -> (r: bool)
    ensures
        r == begins(s@, part@),
{
    found_at(&chars_of(s), &chars_of(part), 0)
}

/// Whether `s` ends with `part`.
pub fn ends_with(s: &str, part: &str) -> (r: bool)
    ensures
        r == finishes(s@, part@),
{
    let a = chars_of(s);
    let b = chars_of(part);
    if b.len() > a.len() {
        return false;
    }
    found_at(&a, &b, a.len() - b.len())
}

/// Whether `part` occurs somewhere in `s`.
pub fn contains(s: &str, part: &str) -> (r: bool)
    ensures
        r == holds(s@, part@),
{
    let a = chars_of(s);
    let b = chars_of(part);
    let mut i: usize = 0;
    while i <= a.len()
        invariant
            a@ == s@,
            b@ == part@,
            i <= a@.len() + 1,
            forall|j: int| 0 <= j < i ==> !#[trigger] stands_at(s@, part@, j),
        decreases a@.len() + 1 - i,
    {
        if found_at(&a, &b, i) {
            return true;
        }
        if i == a.len() {
            proof {
                assert forall|j: int| !#[trigger] stands_at(s@, part@, j) by {
                    if 0 <= j <= i {
                    }
                }
            }
            return false;
        }
        i = i + 1;
    }
    false
}

/// Whether the character occurs in the text.
pub fn contains_char(s: &str, c: char) -> (r: bool)
    ensures
        r == s@.contains(c),
{
    let a = chars_of(s);
    let mut i: usize = 0;
    while i < a.len()
        invariant
            a@ == s@,
            i <= a@.len(),
            forall|j: int| 0 <= j < i ==> a@[j] != c,
        decreases a@.len() - i,
    {
        if a[i] == c {
            proof {
                assert(s@[i as int] == c);
            }
            return true;
        }
        i = i + 1;
    }
    false
}

/// What follows the prefix `part`, where `s` begins with it.
pub open spec fn after_prefix(s: Seq<char>, part: Seq<char>) -> Option<Seq<char>> {
    if begins(s, part) {
        Some(s.skip(part.len() as int))
    } else {
        None
    }
}

/// What follows the prefix `part`, where `s` begins with it.
pub fn strip_prefix(s: &str, part: &str) -> (r: Option<String>)
    ensures
        r.deep_view() == after_prefix(s@, part@),
{
    let a = chars_of(s);
    let b = chars_of(part);
    if found_at(&a, &b, 0) {
        proof {
            assert(s@.skip(part@.len() as int) =~= s@.subrange(part@.len() as int, s@.len() as int));
        }
        Some(text_between(&a, b.len(), a.len()))
    } else {
        None
    }
}

/// What precedes the suffix `part`, where `s` ends with it.
pub open spec fn before_suffix(s: Seq<char>, part: Seq<char>) -> Option<Seq<char>> {
    if finishes(s, part) {
        Some(s.take(s.len() - part.len()))
    } else {
        None
    }
}

/// What precedes the suffix `part`, where `s` ends with it.
pub fn strip_suffix(s: &str, part: &str) -> (r: Option<String>)
    ensures
        r.deep_view() == before_suffix(s@, part@),
{
    let a = chars_of(s);
    let b = chars_of(part);
    if b.len() <= a.len() && found_at(&a, &b, a.len() - b.len()) {
        proof {
            assert(s@.take(s@.len() - part@.len()) =~= s@.subrange(0, s@.len() - part@.len()));
        }
        Some(text_between(&a, 0, a.len() - b.len()))
    } else {
        None
    }
}

/// The position of the first `c`, or the length where there is none.
pub open spec fn first_of(s: Seq<char>, c: char) -> int
    decreases s.len(),
{
    if s.len() == 0 {
        0
    } else if s.drop_last().contains(c) {
        first_of(s.drop_last(), c)
    } else if s.last() == c {
        s.len() - 1
    } else {
        s.len() as int
    }
}

/// The first occurrence holds the character, and nothing before it does.
pub proof fn lemma_first_of(s: Seq<char>, c: char)
    ensures
        0 <= first_of(s, c) <= s.len(),
        s.contains(c) ==> first_of(s, c) < s.len() && s[first_of(s, c)] == c,
        !s.contains(c) ==> first_of(s, c) == s.len(),
        forall|j: int| 0 <= j < first_of(s, c) ==> s[j] != c,
    decreases s.len(),
{
    if s.len() > 0 {
        lemma_first_of(s.drop_last(), c);
        if s.drop_last().contains(c) {
            let k = choose|k: int| 0 <= k < s.drop_last().len() && s.drop_last()[k] == c;
            assert(s[k] == c);
            assert forall|j: int| 0 <= j < first_of(s, c) implies s[j] != c by {
                assert(s.drop_last()[j] == s[j]);
            }
        } else if s.last() == c {
            assert forall|j: int| 0 <= j < s.len() - 1 implies s[j] != c by {
                assert(s.drop_last()[j] == s[j]);
            }
            assert(s[s.len() - 1] == c);
        } else {
            assert forall|j: int| 0 <= j < s.len() implies s[j] != c by {
                if j < s.len() - 1 {
                    assert(s.drop_last()[j] == s[j]);
                }
            }
        }
    }
}

/// The parts before and after the first `c`, where there is one.
pub open spec fn parted(s: Seq<char>, c: char) -> Option<(Seq<char>, Seq<char>)> {
    if s.contains(c) {
        Some((s.take(first_of(s, c)), s.skip(first_of(s, c) + 1)))
    } else {
        None
    }
}

/// The parts before and after the first `c`, where there is one.
pub fn split_once(s: &str, c: char) -> (r: Option<(String, String)>)
    ensures
        r.deep_view() == parted(s@, c),
{
    let a = chars_of(s);
    proof {
        lemma_first_of(s@, c);
    }
    let mut i: usize = 0;
    while i < a.len()
        invariant
            a@ == s@,
            i <= a@.len(),
            forall|j: int| 0 <= j < i ==> a@[j] != c,
            0 <= first_of(s@, c) <= s@.len(),
            s@.contains(c) ==> first_of(s@, c) < s@.len() && s@[first_of(s@, c)] == c,
            forall|j: int| 0 <= j < first_of(s@, c) ==> s@[j] != c,
        decreases a@.len() - i,
    {
        if a[i] == c {
            proof {
                assert(s@[i as int] == c);
                assert(first_of(s@, c) == i);
                assert(s@.take(i as int) =~= s@.subrange(0, i as int));
                assert(s@.skip(i + 1) =~= s@.subrange(i + 1, s@.len() as int));
            }
            return Some((text_between(&a, 0, i), text_between(&a, i + 1, a.len())));
        }
        i = i + 1;
    }
    None
}

/// The pieces between the separators that `is_separator` admits.
pub open spec fn pieces(s: Seq<char>, is_separator: spec_fn(char) -> bool) -> Seq<Seq<char>>
    decreases s.len(),
{
    if s.len() == 0 {
        seq![Seq::empty()]
    } else {
        let before = pieces(s.drop_last(), is_separator);
        if is_separator(s.last()) {
            before.push(Seq::empty())
        } else {
            before.update(before.len() - 1, before.last().push(s.last()))
        }
    }
}

/// There is always at least one piece.
pub proof fn lemma_pieces_nonempty(s: Seq<char>, is_separator: spec_fn(char) -> bool)
    ensures
        pieces(s, is_separator).len() > 0,
    decreases s.len(),
{
    if s.len() > 0 {
        lemma_pieces_nonempty(s.drop_last(), is_separator);
    }
}

/// Whether a character is `c`.
pub open spec fn is_char(c: char) -> spec_fn(char) -> bool {
    |x: char| x == c
}

/// The pieces between occurrences of `c`.
pub fn split(s: &str, c: char) -> (r: Vec<String>)
    ensures
        r.deep_view() == pieces(s@, is_char(c)),
{
    let a = chars_of(s);
    let mut out: Vec<String> = Vec::new();
    let mut current = String::new();
    let mut i: usize = 0;
    proof {
        ends(s@);
        assert(out.deep_view().push(current@) =~= seq![Seq::<char>::empty()]);
    }
    while i < a.len()
        invariant
            a@ == s@,
            i <= a@.len(),
            out.deep_view().push(current@) == pieces(s@.take(i as int), is_char(c)),
        decreases a@.len() - i,
    {
        proof {
            step(s@, i as int);
        }
        let ghost before = out.deep_view().push(current@);
        if a[i] == c {
            out.push(current);
            current = String::new();
            proof {
                assert(out.deep_view() =~= before);
            }
        } else {
            current.push(a[i]);
            proof {
                assert(before.last().push(a@[i as int]) == current@);
                assert(out.deep_view().push(current@) =~= before.update(
                    before.len() - 1,
                    current@,
                ));
            }
        }
        i = i + 1;
    }
    let ghost before = out.deep_view().push(current@);
    out.push(current);
    proof {
        ends(s@);
        assert(out.deep_view() =~= before);
    }
    out
}

/// One line without its carriage return.
pub open spec fn without_return(line: Seq<char>) -> Seq<char> {
    if line.len() > 0 && line.last() == '\r' {
        line.drop_last()
    } else {
        line
    }
}

/// The lines of a text: what stands between newlines, each without a carriage
/// return before its newline. A last line without a newline is kept as it is,
/// an empty one is left out.
pub open spec fn lines(s: Seq<char>) -> Seq<Seq<char>> {
    let p = pieces(s, is_char('\n'));
    let full = p.drop_last().map_values(|line: Seq<char>| without_return(line));
    if p.last().len() == 0 {
        full
    } else {
        full.push(p.last())
    }
}

/// The lines of a text.
pub fn split_lines(s: &str) -> (r: Vec<String>)
    ensures
        r.deep_view() == lines(s@),
{
    let parts = split(s, '\n');
    let ghost p = pieces(s@, is_char('\n'));
    proof {
        lemma_pieces_nonempty(s@, is_char('\n'));
    }
    let mut out: Vec<String> = Vec::new();
    let mut i: usize = 0;
    while i < parts.len() - 1
        invariant
            parts@.len() > 0,
            parts.deep_view() == p,
            i <= parts@.len() - 1,
            out@.len() == i,
            forall|j: int| 0 <= j < i ==> (#[trigger] out@[j])@ == without_return(p[j]),
        decreases parts@.len() - i,
    {
        let line = chars_of(&parts[i]);
        assert(line@ == p[i as int]);
        if line.len() > 0 && line[line.len() - 1] == '\r' {
            proof {
                assert(line@.drop_last() =~= line@.subrange(0, line@.len() - 1));
            }
            out.push(text_between(&line, 0, line.len() - 1));
        } else {
            out.push(parts[i].clone());
        }
        i = i + 1;
    }
    proof {
        assert(out.deep_view() =~= p.drop_last().map_values(
            |line: Seq<char>| without_return(line),
        ));
    }
    if parts[i].as_str().is_empty() {
        out
    } else {
        out.push(parts[i].clone());
        out
    }
}

// ---------------------------------------------------------------------------
// Character classes and trimming
// ---------------------------------------------------------------------------

/// The characters with the Unicode property White_Space.
pub open spec fn is_white(c: char) -> bool {
    ||| '\u{9}' <= c <= '\u{d}'
    ||| c == '\u{20}'
    ||| c == '\u{85}'
    ||| c == '\u{a0}'
    ||| c == '\u{1680}'
    ||| '\u{2000}' <= c <= '\u{200a}'
    ||| c == '\u{2028}'
    ||| c == '\u{2029}'
    ||| c == '\u{202f}'
    ||| c == '\u{205f}'
    ||| c == '\u{3000}'
}

/// Whether the character is white space.
pub fn white(c: char) -> (r: bool)
    ensures
        r == is_white(c),
{
    ('\u{9}' <= c && c <= '\u{d}') || c == '\u{20}' || c == '\u{85}' || c == '\u{a0}' || c
        == '\u{1680}' || ('\u{2000}' <= c && c <= '\u{200a}') || c == '\u{2028}' || c
        == '\u{2029}' || c == '\u{202f}' || c == '\u{205f}' || c == '\u{3000}'
}

/// A letter `A` to `Z`.
pub open spec fn is_upper(c: char) -> bool {
    'A' <= c <= 'Z'
}

/// A letter `a` to `z`.
pub open spec fn is_lower(c: char) -> bool {
    'a' <= c <= 'z'
}

/// A digit `0` to `9`.
pub open spec fn is_digit(c: char) -> bool {
    '0' <= c <= '9'
}

/// An ASCII letter or digit.
pub open spec fn is_alnum(c: char) -> bool {
    is_upper(c) || is_lower(c) || is_digit(c)
}

/// A hexadecimal digit in either case.
pub open spec fn is_hex(c: char) -> bool {
    is_digit(c) || 'a' <= c <= 'f' || 'A' <= c <= 'F'
}

/// Whether the character is `A` to `Z`.
pub fn upper(c: char) -> (r: bool)
    ensures
        r == is_upper(c),
{
    'A' <= c && c <= 'Z'
}

/// Whether the character is `a` to `z`.
pub fn lower(c: char) -> (r: bool)
    ensures
        r == is_lower(c),
{
    'a' <= c && c <= 'z'
}

/// Whether the character is `0` to `9`.
pub fn digit(c: char) -> (r: bool)
    ensures
        r == is_digit(c),
{
    '0' <= c && c <= '9'
}

/// Whether the character is an ASCII letter or digit.
pub fn alnum(c: char) -> (r: bool)
    ensures
        r == is_alnum(c),
{
    upper(c) || lower(c) || digit(c)
}

/// Whether the character is a hexadecimal digit.
pub fn hex_digit(c: char) -> (r: bool)
    ensures
        r == is_hex(c),
{
    digit(c) || ('a' <= c && c <= 'f') || ('A' <= c && c <= 'F')
}

/// The small letter of a capital ASCII letter; any other character itself.
pub open spec fn small(c: char) -> char {
    if is_upper(c) {
        ((c as u32) + 32) as char
    } else {
        c
    }
}

/// The small letter of a capital ASCII letter; any other character itself.
pub fn to_small(c: char) -> (r: char)
    ensures
        r == small(c),
{
    if upper(c) {
        let code: u8 = c as u8;
        (code + 32) as char
    } else {
        c
    }
}

/// The text with every capital ASCII letter made small.
pub open spec fn lowered(s: Seq<char>) -> Seq<char> {
    s.map_values(|c: char| small(c))
}

/// The text with every capital ASCII letter made small.
pub fn to_lower(s: &str) -> (r: String)
    ensures
        r@ == lowered(s@),
{
    let a = chars_of(s);
    let mut out = String::new();
    let mut i: usize = 0;
    while i < a.len()
        invariant
            a@ == s@,
            i <= a@.len(),
            out@.len() == i,
            forall|j: int| 0 <= j < i ==> out@[j] == small(a@[j]),
        decreases a@.len() - i,
    {
        out.push(to_small(a[i]));
        i = i + 1;
    }
    proof {
        assert(out@ =~= lowered(s@));
    }
    out
}

/// Whether two texts are equal but for the case of ASCII letters.
pub fn same_ignoring_case(a: &str, b: &str) -> (r: bool)
    ensures
        r == (lowered(a@) == lowered(b@)),
{
    same(&to_lower(a), &to_lower(b))
}

/// The text without leading characters that `p` admits.
pub open spec fn trim_front(s: Seq<char>, p: spec_fn(char) -> bool) -> Seq<char>
    decreases s.len(),
{
    if s.len() > 0 && p(s[0]) {
        trim_front(s.drop_first(), p)
    } else {
        s
    }
}

/// The text without trailing characters that `p` admits.
pub open spec fn trim_back(s: Seq<char>, p: spec_fn(char) -> bool) -> Seq<char>
    decreases s.len(),
{
    if s.len() > 0 && p(s.last()) {
        trim_back(s.drop_last(), p)
    } else {
        s
    }
}

/// The text without surrounding characters that `p` admits.
pub open spec fn trimmed_by(s: Seq<char>, p: spec_fn(char) -> bool) -> Seq<char> {
    trim_back(trim_front(s, p), p)
}

/// Where the untrimmed middle of a text lies.
pub proof fn lemma_trimmed(s: Seq<char>, p: spec_fn(char) -> bool, from: int, to: int)
    requires
        0 <= from <= to <= s.len(),
        forall|j: int| 0 <= j < from ==> p(s[j]),
        forall|j: int| to <= j < s.len() ==> p(s[j]),
        from < to ==> !p(s[from]) && !p(s[to - 1]),
        from == to ==> from == s.len(),
    ensures
        trimmed_by(s, p) == s.subrange(from, to),
    decreases s.len(),
{
    if from > 0 {
        assert forall|j: int| 0 <= j < s.drop_first().len() implies s.drop_first()[j] == s[j
            + 1] by {}
        lemma_trimmed(s.drop_first(), p, from - 1, to - 1);
        assert(s.drop_first().subrange(from - 1, to - 1) =~= s.subrange(from, to));
    } else if to < s.len() {
        assert(trim_front(s, p) == s);
        assert(p(s[s.len() - 1]));
        assert forall|j: int| 0 <= j < s.drop_last().len() implies s.drop_last()[j] == s[j] by {}
        lemma_trimmed(s.drop_last(), p, from, to);
        assert(trim_front(s.drop_last(), p) == s.drop_last());
        assert(s.drop_last().subrange(from, to) =~= s.subrange(from, to));
    } else {
        assert(s.subrange(from, to) =~= s);
    }
}

/// The predicate of white space.
pub open spec fn white_space() -> spec_fn(char) -> bool {
    |c: char| is_white(c)
}

/// The text without surrounding white space.
pub open spec fn trimmed(s: Seq<char>) -> Seq<char> {
    trimmed_by(s, white_space())
}

/// The text without surrounding white space.
pub fn trim(s: &str) -> (r: String)
    ensures
        r@ == trimmed(s@),
{
    let a = chars_of(s);
    let mut from: usize = 0;
    while from < a.len() && white(a[from])
        invariant
            a@ == s@,
            from <= a@.len(),
            forall|j: int| 0 <= j < from ==> is_white(a@[j]),
        decreases a@.len() - from,
    {
        from = from + 1;
    }
    let mut to: usize = a.len();
    while to > from && white(a[to - 1])
        invariant
            a@ == s@,
            from <= to <= a@.len(),
            forall|j: int| to <= j < a@.len() ==> is_white(a@[j]),
            from < a@.len() ==> !is_white(a@[from as int]),
        decreases to,
    {
        to = to - 1;
    }
    proof {
        lemma_trimmed(s@, white_space(), from as int, to as int);
    }
    text_between(&a, from, to)
}

/// The text without surrounding occurrences of `c`.
pub fn trim_char(s: &str, c: char) -> (r: String)
    ensures
        r@ == trimmed_by(s@, is_char(c)),
{
    let a = chars_of(s);
    let mut from: usize = 0;
    while from < a.len() && a[from] == c
        invariant
            a@ == s@,
            from <= a@.len(),
            forall|j: int| 0 <= j < from ==> a@[j] == c,
        decreases a@.len() - from,
    {
        from = from + 1;
    }
    let mut to: usize = a.len();
    while to > from && a[to - 1] == c
        invariant
            a@ == s@,
            from <= to <= a@.len(),
            forall|j: int| to <= j < a@.len() ==> a@[j] == c,
            from < a@.len() ==> a@[from as int] != c,
        decreases to,
    {
        to = to - 1;
    }
    proof {
        lemma_trimmed(s@, is_char(c), from as int, to as int);
    }
    text_between(&a, from, to)
}

// ---------------------------------------------------------------------------
// Leading parts and quoting
// ---------------------------------------------------------------------------

/// The part of a text before the first character of `stops`.
pub open spec fn leading(s: Seq<char>, stops: Seq<char>) -> Seq<char>
    decreases s.len(),
{
    if s.len() == 0 {
        s
    } else {
        let before = leading(s.drop_last(), stops);
        if before.len() == s.len() - 1 && !stops.contains(s.last()) {
            s
        } else {
            before
        }
    }
}

/// Where the leading part ends.
pub proof fn lemma_leading(s: Seq<char>, stops: Seq<char>, i: int)
    requires
        0 <= i <= s.len(),
        forall|j: int| 0 <= j < i ==> !stops.contains(#[trigger] s[j]),
        i < s.len() ==> stops.contains(s[i]),
    ensures
        leading(s, stops) == s.take(i),
    decreases s.len(),
{
    if s.len() > 0 {
        let d = s.drop_last();
        if i == s.len() {
            assert forall|j: int| 0 <= j < i - 1 implies !stops.contains(#[trigger] d[j]) by {
                assert(d[j] == s[j]);
            }
            lemma_leading(d, stops, i - 1);
            assert(d.take(i - 1) =~= d);
            assert(!stops.contains(s[i - 1]));
            assert(s.take(i) =~= s);
        } else {
            assert forall|j: int| 0 <= j < i implies !stops.contains(#[trigger] d[j]) by {
                assert(d[j] == s[j]);
            }
            lemma_leading(d, stops, i);
            assert(d.take(i) =~= s.take(i));
        }
    } else {
        assert(s.take(i) =~= s);
    }
}

/// The part of a text before the first character of `stops`.
pub fn lead_until(s: &str, stops: &str) -> (r: String)
    ensures
        r@ == leading(s@, stops@),
{
    let a = chars_of(s);
    let mut i: usize = 0;
    while i < a.len() && !contains_char(stops, a[i])
        invariant
            a@ == s@,
            i <= a@.len(),
            forall|j: int| 0 <= j < i ==> !stops@.contains(#[trigger] a@[j]),
        decreases a@.len() - i,
    {
        i = i + 1;
    }
    proof {
        lemma_leading(s@, stops@, i as int);
        assert(s@.take(i as int) =~= s@.subrange(0, i as int));
    }
    text_between(&a, 0, i)
}

/// A character that needs no quoting in a shell word.
pub open spec fn is_shell_plain(c: char) -> bool {
    is_alnum(c) || c == '.' || c == ':' || c == '/' || c == '_' || c == '-'
}

/// Whether every character is plain in a shell word.
pub open spec fn shell_plain(s: Seq<char>) -> bool {
    forall|i: int| 0 <= i < s.len() ==> is_shell_plain(#[trigger] s[i])
}

/// The text with each single quote closed, escaped and opened again.
pub open spec fn quotes_escaped(s: Seq<char>) -> Seq<char>
    decreases s.len(),
{
    if s.len() == 0 {
        Seq::empty()
    } else if s.last() == '\'' {
        quotes_escaped(s.drop_last()) + "'\\''"@
    } else {
        quotes_escaped(s.drop_last()).push(s.last())
    }
}

/// The text as one word of a shell command; an empty text stays empty.
pub open spec fn shell_arg_hint_spec(value: Seq<char>) -> Seq<char> {
    if shell_plain(value) {
        value
    } else {
        "'"@ + quotes_escaped(value) + "'"@
    }
}

/// The text as one word of a shell command.
pub open spec fn shell_hint_spec(value: Seq<char>) -> Seq<char> {
    if value.len() == 0 {
        "''"@
    } else {
        shell_arg_hint_spec(value)
    }
}

/// The text as one word of a shell command; an empty text stays empty.
pub fn shell_arg_hint(value: &str) -> (r: String)
    ensures
        r@ == shell_arg_hint_spec(value@),
{
    let a = chars_of(value);
    let mut plain = true;
    let mut out = String::new();
    let mut i: usize = 0;
    proof {
        ends(value@);
    }
    while i < a.len()
        invariant
            a@ == value@,
            i <= a@.len(),
            plain == (forall|j: int| 0 <= j < i ==> is_shell_plain(#[trigger] a@[j])),
            out@ == quotes_escaped(value@.take(i as int)),
        decreases a@.len() - i,
    {
        let c = a[i];
        proof {
            step(value@, i as int);
        }
        if !(alnum(c) || c == '.' || c == ':' || c == '/' || c == '_' || c == '-') {
            plain = false;
            proof {
                assert(!is_shell_plain(a@[i as int]));
            }
        }
        if c == '\'' {
            out = out.concat("'\\''");
        } else {
            out.push(c);
        }
        i = i + 1;
    }
    proof {
        ends(value@);
    }
    if plain {
        value.to_string()
    } else {
        cat3("'", &out, "'")
    }
}

/// The text as one word of a shell command.
pub fn shell_hint(value: &str) -> (r: String)
    ensures
        r@ == shell_hint_spec(value@),
{
    if value.is_empty() {
        "''".to_string()
    } else {
        shell_arg_hint(value)
    }
}

// ---------------------------------------------------------------------------
// Laws
// ---------------------------------------------------------------------------

/// A text begins with what it was put behind, ends with what was put behind it, and
/// holds what was put in its middle.
pub proof fn law_parts_are_found(front: Seq<char>, part: Seq<char>, back: Seq<char>)
    ensures
        begins(part + back, part),
        finishes(front + part, part),
        holds(front + part + back, part),
        after_prefix(part + back, part) == Some(back),
        before_suffix(front + part, part) == Some(front),
{
    assert((part + back).subrange(0, part.len() as int) =~= part);
    assert((front + part).subrange(front.len() as int, (front + part).len() as int) =~= part);
    assert((front + part + back).subrange(front.len() as int, (front.len() + part.len()) as int)
        =~= part);
    assert(stands_at(front + part + back, part, front.len() as int));
    assert((part + back).skip(part.len() as int) =~= back);
    assert((front + part).take(front.len() as int) =~= front);
}

/// What a text begins with, ends with or holds can be put together with something
/// else to give the text.
pub proof fn law_found_parts_are_there(s: Seq<char>, part: Seq<char>)
    ensures
        begins(s, part) <==> exists|back: Seq<char>| s == #[trigger] (part + back),
        finishes(s, part) <==> exists|front: Seq<char>| s == #[trigger] (front + part),
        holds(s, part) <==> exists|front: Seq<char>, back: Seq<char>|
            s == #[trigger] (front + part + back),
        after_prefix(s, part) is Some ==> s == part + after_prefix(s, part)->0,
        before_suffix(s, part) is Some ==> s == before_suffix(s, part)->0 + part,
{
    lemma_begun(s, part);
    lemma_finished(s, part);
    lemma_held(s, part);
}

#[verifier::spinoff_prover]
proof fn lemma_begun(s: Seq<char>, part: Seq<char>)
    ensures
        begins(s, part) <==> exists|back: Seq<char>| s == #[trigger] (part + back),
        after_prefix(s, part) is Some ==> s == part + after_prefix(s, part)->0,
{
    let n = part.len() as int;
    if begins(s, part) {
        assert(s =~= part + s.skip(n));
    }
    if exists|back: Seq<char>| s == #[trigger] (part + back) {
        let back = choose|back: Seq<char>| s == #[trigger] (part + back);
        law_parts_are_found(Seq::empty(), part, back);
    }
}

#[verifier::spinoff_prover]
proof fn lemma_finished(s: Seq<char>, part: Seq<char>)
    ensures
        finishes(s, part) <==> exists|front: Seq<char>| s == #[trigger] (front + part),
        before_suffix(s, part) is Some ==> s == before_suffix(s, part)->0 + part,
{
    let n = part.len() as int;
    if finishes(s, part) {
        assert(s =~= s.take(s.len() - n) + part);
    }
    if exists|front: Seq<char>| s == #[trigger] (front + part) {
        let front = choose|front: Seq<char>| s == #[trigger] (front + part);
        law_parts_are_found(front, part, Seq::empty());
    }
}

#[verifier::spinoff_prover]
proof fn lemma_held(s: Seq<char>, part: Seq<char>)
    ensures
        holds(s, part) <==> exists|front: Seq<char>, back: Seq<char>|
            s == #[trigger] (front + part + back),
{
    let n = part.len() as int;
    if holds(s, part) {
        let i = choose|i: int| #[trigger] stands_at(s, part, i);
        assert(s =~= s.take(i) + part + s.skip(i + n));
    }
    if exists|front: Seq<char>, back: Seq<char>| s == #[trigger] (front + part + back) {
        let (front, back) = choose|front: Seq<char>, back: Seq<char>|
            s == #[trigger] (front + part + back);
        law_parts_are_found(front, part, back);
    }
}

/// Capital ASCII letters become small, and every other character stays.
pub proof fn law_lowered(s: Seq<char>)
    ensures
        lowered(s).len() == s.len(),
        forall|i: int|
            0 <= i < s.len() ==> #[trigger] lowered(s)[i] == (if 'A' <= s[i] <= 'Z' {
                ((s[i] as u32) + 32) as char
            } else {
                s[i]
            }),
        lowered(lowered(s)) == lowered(s),
{
    assert(lowered(lowered(s)) =~= lowered(s)) by {
        assert forall|i: int| 0 <= i < s.len() implies lowered(lowered(s))[i] == lowered(
            s,
        )[i] by {
            assert(!is_upper(small(s[i])));
        }
    }
}

/// Whether the trimmed text stands at a place in the text, with nothing around it but
/// characters that are trimmed.
pub open spec fn is_trimmed_at(s: Seq<char>, p: spec_fn(char) -> bool, from: int) -> bool {
    &&& 0 <= from && from + trimmed_by(s, p).len() <= s.len()
    &&& trimmed_by(s, p) == s.subrange(from, from + trimmed_by(s, p).len())
    &&& forall|j: int| 0 <= j < from ==> p(#[trigger] s[j])
    &&& forall|j: int| from + trimmed_by(s, p).len() <= j < s.len() ==> p(#[trigger] s[j])
}

/// A trimmed text is a part of the text, does not begin or end with a character that
/// is trimmed, and only such characters were taken away.
pub proof fn law_trimmed(s: Seq<char>, p: spec_fn(char) -> bool)
    ensures
        trimmed_by(s, p).len() > 0 ==> !p(trimmed_by(s, p)[0]) && !p(trimmed_by(s, p).last()),
        trimmed_by(s, p).len() == 0 <==> forall|i: int| 0 <= i < s.len() ==> p(#[trigger] s[i]),
        exists|from: int| #[trigger] is_trimmed_at(s, p, from),
{
    let f = trim_front(s, p);
    lemma_front_is_trimmed(s, p);
    let from = s.len() - f.len();
    lemma_back_is_trimmed(f, p);
    let t = trim_back(f, p);
    assert(t =~= s.subrange(from, from + t.len()));
    assert forall|j: int| from + t.len() <= j < s.len() implies p(#[trigger] s[j]) by {
        assert(p(f[j - from]));
    }
    assert(is_trimmed_at(s, p, from));
    if t.len() > 0 {
        assert(t[0] == f[0]);
        assert(t[0] == s[from]);
    } else if f.len() > 0 {
        assert(p(f[0]));
    }
}

proof fn lemma_front_is_trimmed(s: Seq<char>, p: spec_fn(char) -> bool)
    ensures
        trim_front(s, p).len() <= s.len(),
        trim_front(s, p) == s.skip(s.len() - trim_front(s, p).len()),
        forall|j: int| 0 <= j < s.len() - trim_front(s, p).len() ==> p(#[trigger] s[j]),
        trim_front(s, p).len() > 0 ==> !p(trim_front(s, p)[0]),
    decreases s.len(),
{
    if s.len() > 0 && p(s[0]) {
        let d = s.drop_first();
        lemma_front_is_trimmed(d, p);
        assert(d.skip(d.len() - trim_front(d, p).len()) =~= s.skip(
            s.len() - trim_front(d, p).len(),
        ));
        assert forall|j: int| 0 <= j < s.len() - trim_front(s, p).len() implies p(
            #[trigger] s[j],
        ) by {
            if j > 0 {
                assert(p(d[j - 1]));
            }
        }
    } else {
        assert(s.skip(0) =~= s);
    }
}

proof fn lemma_back_is_trimmed(s: Seq<char>, p: spec_fn(char) -> bool)
    ensures
        trim_back(s, p).len() <= s.len(),
        trim_back(s, p) == s.take(trim_back(s, p).len() as int),
        forall|j: int| trim_back(s, p).len() <= j < s.len() ==> p(#[trigger] s[j]),
        trim_back(s, p).len() > 0 ==> !p(trim_back(s, p).last()),
    decreases s.len(),
{
    if s.len() > 0 && p(s.last()) {
        let d = s.drop_last();
        lemma_back_is_trimmed(d, p);
        let n = trim_back(d, p).len() as int;
        assert(d.take(n) =~= s.take(n));
        assert forall|j: int| n <= j < s.len() implies p(#[trigger] s[j]) by {
            if j < d.len() {
                assert(p(d[j]));
            } else {
                assert(s[j] == s.last());
            }
        }
    } else {
        assert(s.take(s.len() as int) =~= s);
    }
}

/// What stands before and after the first of a character, put together with it, is
/// the text; and it does not stand before it.
pub proof fn law_parted(s: Seq<char>, c: char)
    ensures
        parted(s, c) is Some <==> s.contains(c),
        match parted(s, c) {
            Some((before, after)) => s == before.push(c) + after && !before.contains(c),
            None => true,
        },
{
    lemma_first_of(s, c);
    if s.contains(c) {
        let i = first_of(s, c);
        assert(s =~= s.take(i).push(c) + s.skip(i + 1));
    }
}

/// The texts between separators, put together with the separator, are the text, and
/// none of them holds it.
pub proof fn law_pieces(s: Seq<char>, c: char)
    ensures
        pieces(s, is_char(c)).len() > 0,
        joined(pieces(s, is_char(c)), seq![c]) == s,
        forall|i: int|
            0 <= i < pieces(s, is_char(c)).len() ==> !(#[trigger] pieces(
                s,
                is_char(c),
            )[i]).contains(c),
    decreases s.len(),
{
    let p = is_char(c);
    if s.len() == 0 {
        assert(pieces(s, p) =~= seq![Seq::empty()]);
        assert(s =~= Seq::empty());
    } else {
        let d = s.drop_last();
        let before = pieces(d, p);
        law_pieces(d, c);
        let last = s.last();
        assert(s =~= d.push(last));
        if p(last) {
            let now = before.push(Seq::empty());
            assert(now.drop_last() =~= before);
            assert(joined(now, seq![c]) =~= d + seq![c]);
            assert(s =~= d + seq![c]);
        } else {
            let now = before.update(before.len() - 1, before.last().push(last));
            assert forall|i: int| 0 <= i < now.len() implies !(#[trigger] now[i]).contains(c) by {
                assert(!before[i].contains(c));
                if i == before.len() - 1 {
                    assert(now[i] == before[i].push(last));
                    if now[i].contains(c) {
                        let k = choose|k: int| 0 <= k < now[i].len() && now[i][k] == c;
                        assert(before[i][k] == c);
                    }
                }
            }
            if before.len() == 1 {
                assert(joined(now, seq![c]) =~= before[0].push(last));
            } else {
                assert(now.drop_last() =~= before.drop_last());
                assert(joined(now, seq![c]) =~= joined(before, seq![c]).push(last));
            }
        }
    }
}

/// A text that neither begins nor ends with white space is trimmed already.
pub proof fn law_bare_texts_stay(s: Seq<char>)
    requires
        s.len() > 0,
        !is_white(s[0]),
        !is_white(s.last()),
    ensures
        trimmed(s) == s,
{
    lemma_trimmed(s, white_space(), 0, s.len() as int);
    assert(s.subrange(0, s.len() as int) =~= s);
}

/// A trimmed text neither begins nor ends with white space, and is empty where nothing
/// but white space was there.
pub proof fn law_trimmed_texts_are_bare(s: Seq<char>)
    ensures
        trimmed(s).len() > 0 ==> !is_white(trimmed(s)[0]) && !is_white(trimmed(s).last()),
        trimmed(s).len() == 0 <==> forall|i: int| 0 <= i < s.len() ==> is_white(#[trigger] s[i]),
        trimmed(trimmed(s)) == trimmed(s),
{
    law_trimmed(s, white_space());
    if trimmed(s).len() == 0 {
        assert forall|i: int| 0 <= i < s.len() implies is_white(#[trigger] s[i]) by {
            assert(white_space()(s[i]));
        }
    } else {
        assert(!white_space()(trimmed(s)[0]));
        assert(!white_space()(trimmed(s).last()));
        law_bare_texts_stay(trimmed(s));
        if forall|i: int| 0 <= i < s.len() ==> is_white(#[trigger] s[i]) {
            assert forall|i: int| 0 <= i < s.len() implies white_space()(#[trigger] s[i]) by {}
        }
    }
}

/// The characters of each class, and the small letter of a capital one.
pub proof fn law_character_classes(c: char)
    ensures
        is_upper(c) <==> 'A' <= c <= 'Z',
        is_lower(c) <==> 'a' <= c <= 'z',
        is_digit(c) <==> '0' <= c <= '9',
        is_alnum(c) <==> 'A' <= c <= 'Z' || 'a' <= c <= 'z' || '0' <= c <= '9',
        is_hex(c) <==> 'a' <= c <= 'f' || 'A' <= c <= 'F' || '0' <= c <= '9',
        is_white(c) && (c as u32) < 128 <==> c == ' ' || c == '\t' || c == '\n' || c == '\r' || c
            == '\u{b}' || c == '\u{c}',
        'A' <= c <= 'Z' ==> small(c) as u32 == c as u32 + 32,
        !('A' <= c <= 'Z') ==> small(c) == c,
{
}

/// The lines of a text hold no newline; two texts with a newline between them have the
/// lines of each.
pub proof fn law_lines(a: Seq<char>, b: Seq<char>)
    ensures
        forall|i: int| 0 <= i < lines(a).len() ==> !(#[trigger] lines(a)[i]).contains('\n'),
        lines(a.push('\n') + b) == lines(a.push('\n')) + lines(b),
{
    law_pieces(a, '\n');
    let p = pieces(a, is_char('\n'));
    assert forall|i: int| 0 <= i < lines(a).len() implies !(#[trigger] lines(a)[i]).contains(
        '\n',
    ) by {
        assert(!p[i].contains('\n'));
        if i < p.len() - 1 {
            assert(lines(a)[i] == without_return(p[i]));
            if lines(a)[i].contains('\n') {
                let k = choose|k: int| 0 <= k < lines(a)[i].len() && lines(a)[i][k] == '\n';
                assert(p[i][k] == '\n');
            }
        }
    }
    law_pieces_of_both(a, '\n', b);
    law_pieces(b, '\n');
    law_pieces_of_both(a, '\n', Seq::empty());
    assert(a.push('\n') + Seq::<char>::empty() =~= a.push('\n'));
    let q = pieces(b, is_char('\n'));
    assert((p + q).drop_last() =~= p + q.drop_last());
    assert((p + seq![Seq::<char>::empty()]).drop_last() =~= p);
    assert(lines(a.push('\n') + b) =~= lines(a.push('\n')) + lines(b));
}

/// What stands on both sides of a separator falls into the pieces of each side.
pub proof fn law_pieces_of_both(a: Seq<char>, c: char, b: Seq<char>)
    ensures
        pieces(a.push(c) + b, is_char(c)) == pieces(a, is_char(c)) + pieces(b, is_char(c)),
    decreases b.len(),
{
    let p = is_char(c);
    let whole = a.push(c) + b;
    lemma_pieces_nonempty(a, p);
    if b.len() == 0 {
        assert(whole =~= a.push(c));
        assert(whole.drop_last() =~= a);
        assert(pieces(whole, p) =~= pieces(a, p) + pieces(b, p));
    } else {
        law_pieces_of_both(a, c, b.drop_last());
        lemma_pieces_nonempty(b.drop_last(), p);
        assert(whole.drop_last() =~= a.push(c) + b.drop_last());
        assert(pieces(whole, p) =~= pieces(a, p) + pieces(b, p));
    }
}

/// A text of letters, digits, dots, colons, slashes, underscores and hyphens is a shell
/// word as it is; any other stands between single quotes.
pub proof fn law_shell_words(s: Seq<char>)
    ensures
        s.len() > 0 && (forall|i: int|
            0 <= i < s.len() ==> 'a' <= #[trigger] s[i] <= 'z' || 'A' <= s[i] <= 'Z' || '0' <= s[i]
                <= '9' || s[i] == '.' || s[i] == ':' || s[i] == '/' || s[i] == '_' || s[i] == '-')
            ==> shell_hint_spec(s) == s,
        !(forall|i: int|
            0 <= i < s.len() ==> 'a' <= #[trigger] s[i] <= 'z' || 'A' <= s[i] <= 'Z' || '0' <= s[i]
                <= '9' || s[i] == '.' || s[i] == ':' || s[i] == '/' || s[i] == '_' || s[i] == '-')
            ==> shell_hint_spec(s) == seq!['\''] + quotes_escaped(s) + seq!['\''],
        shell_hint_spec(Seq::empty()) == seq!['\'', '\''],
        shell_arg_hint_spec(Seq::empty()) == Seq::<char>::empty(),
        s.len() > 0 ==> shell_arg_hint_spec(s) == shell_hint_spec(s),
{
    reveal_strlit("'");
    reveal_strlit("''");
    assert("'"@ =~= seq!['\'']);
    assert("''"@ =~= seq!['\'', '\'']);
    let plain = forall|i: int|
        0 <= i < s.len() ==> 'a' <= #[trigger] s[i] <= 'z' || 'A' <= s[i] <= 'Z' || '0' <= s[i]
            <= '9' || s[i] == '.' || s[i] == ':' || s[i] == '/' || s[i] == '_' || s[i] == '-';
    if plain {
        assert forall|i: int| 0 <= i < s.len() implies is_shell_plain(#[trigger] s[i]) by {}
    }
    if shell_plain(s) {
        assert forall|i: int| 0 <= i < s.len() implies 'a' <= #[trigger] s[i] <= 'z' || 'A' <= s[i]
            <= 'Z' || '0' <= s[i] <= '9' || s[i] == '.' || s[i] == ':' || s[i] == '/' || s[i] == '_'
            || s[i] == '-' by {
            assert(is_shell_plain(s[i]));
        }
    }
}

/// Escaping goes by the parts of a text: a single quote becomes a closing quote, an escaped
/// one and an opening one, and everything else stays.
pub proof fn law_escaped_quotes(a: Seq<char>, b: Seq<char>)
    ensures
        quotes_escaped(a + b) == quotes_escaped(a) + quotes_escaped(b),
        !a.contains('\'') ==> quotes_escaped(a) == a,
        quotes_escaped(seq!['\'']) == seq!['\'', '\\', '\'', '\''],
    decreases a.len() + b.len(),
{
    reveal_strlit("'\\''");
    assert("'\\''"@ =~= seq!['\'', '\\', '\'', '\'']);
    assert(seq!['\''].drop_last() =~= Seq::<char>::empty());
    assert(quotes_escaped(Seq::empty()) =~= Seq::<char>::empty());
    assert(quotes_escaped(seq!['\'']) =~= "'\\''"@);
    if b.len() > 0 {
        law_escaped_quotes(a, b.drop_last());
        assert((a + b).drop_last() =~= a + b.drop_last());
        assert((a + b).last() == b.last());
        assert(quotes_escaped(a + b) =~= quotes_escaped(a) + quotes_escaped(b));
    } else {
        assert(a + b =~= a);
        assert(quotes_escaped(a) + quotes_escaped(b) =~= quotes_escaped(a));
    }
    lemma_nothing_escaped(a);
}

proof fn lemma_nothing_escaped(a: Seq<char>)
    ensures
        !a.contains('\'') ==> quotes_escaped(a) == a,
    decreases a.len(),
{
    if !a.contains('\'') {
        if a.len() > 0 {
            let d = a.drop_last();
            if d.contains('\'') {
                let k = choose|k: int| 0 <= k < d.len() && d[k] == '\'';
                assert(a[k] == '\'');
            }
            assert(a[a.len() - 1] != '\'') by {
                if a[a.len() - 1] == '\'' {
                    assert(a.contains('\''));
                }
            }
            lemma_nothing_escaped(d);
            assert(quotes_escaped(a) =~= a);
        } else {
            assert(quotes_escaped(a) =~= a);
        }
    }
}

} // verus!

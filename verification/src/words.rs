//! Words, places and ends of texts.

use vstd::prelude::*;
use crate::each::choose_each;
use crate::list::{chosen, law_chosen};
use crate::text::{
    before_suffix, begins, chars_of, digit, ends, finishes, first_of, found_at, is_char, is_digit,
    is_lower, is_white, law_found_parts_are_there, law_parts_are_found, lemma_first_of,
    lemma_pieces_nonempty, lower, pieces, split_once, stands_at, starts_with, step, strip_prefix,
    strip_suffix, text_between, trim_back, white, white_space, without_return,
};

verus! {

broadcast use {vstd::seq::group_seq_axioms, vstd::string::group_string_axioms};

/// The pieces between white space.
fn split_white(s: &str) -> (r: Vec<String>)
    ensures
        r.deep_view() == pieces(s@, white_space()),
{
    let a = chars_of(s);
    let mut out: Vec<String> = Vec::new();
    let mut current = String::new();
    let mut i: usize = 0;
    proof {
        ends(s@);
        assert(out.deep_view().push(current@) =~= seq![Seq::<char>::empty()]);
    }
    while i < a.len()
        invariant
            a@ == s@,
            i <= a@.len(),
            out.deep_view().push(current@) == pieces(s@.take(i as int), white_space()),
        decreases a@.len() - i,
    {
        proof {
            step(s@, i as int);
        }
        let ghost before = out.deep_view().push(current@);
        if white(a[i]) {
            out.push(current);
            current = String::new();
            proof {
                assert(out.deep_view() =~= before);
            }
        } else {
            current.push(a[i]);
            proof {
                assert(before.last().push(a@[i as int]) == current@);
                assert(out.deep_view().push(current@) =~= before.update(
                    before.len() - 1,
                    current@,
                ));
            }
        }
        i = i + 1;
    }
    let ghost before = out.deep_view().push(current@);
    out.push(current);
    proof {
        ends(s@);
        assert(out.deep_view() =~= before);
    }
    out
}

/// The words of a text: what stands between white space.
pub open spec fn words(s: Seq<char>) -> Seq<Seq<char>> {
    chosen(
        pieces(s, white_space()),
        |p: Seq<char>|
            if p.len() > 0 {
                Some(p)
            } else {
                None
            },
    )
}

/// The words of a text.
pub fn split_words(s: &str) -> (r: Vec<String>)
    ensures
        r.deep_view() == words(s@),
{
    choose_each(
        &split_white(s),
        |p: &String| -> (r: Option<String>)
            ensures
                r.deep_view() == (if p@.len() > 0 {
                    Some(p@)
                } else {
                    None
                })
            {
                if !p.as_str().is_empty() {
                    Some(p.clone())
                } else {
                    None
                }
            },
        Ghost(
            |p: Seq<char>|
                if p.len() > 0 {
                    Some(p)
                } else {
                    None
                },
        ),
    )
}

/// The first place from `i` on where a part stands in a text.
pub open spec fn place_from(s: Seq<char>, part: Seq<char>, i: int) -> Option<int>
    decreases s.len() + 1 - i,
{
    if i > s.len() {
        None
    } else if stands_at(s, part, i) {
        Some(i)
    } else {
        place_from(s, part, i + 1)
    }
}

/// A place that was found lies within the text, and the part stands there.
pub proof fn lemma_place_from(s: Seq<char>, part: Seq<char>, i: int)
    requires
        0 <= i,
    ensures
        match place_from(s, part, i) {
            Some(p) => i <= p <= s.len() && stands_at(s, part, p) && p + part.len() <= s.len(),
            None => true,
        },
    decreases s.len() + 1 - i,
{
    if i <= s.len() && !stands_at(s, part, i) {
        lemma_place_from(s, part, i + 1);
    }
}

/// The first place from `from` on where a part stands in a text.
pub fn find_from(s: &Vec<char>, part: &Vec<char>, from: usize) -> (r: Option<usize>)
    ensures
        match r {
            Some(p) => place_from(s@, part@, from as int) == Some(p as int) && from <= p
                && p + part@.len() <= s@.len(),
            None => place_from(s@, part@, from as int) is None,
        },
{
    let mut i: usize = from;
    proof {
        lemma_place_from(s@, part@, from as int);
    }
    if from > s.len() {
        return None;
    }
    while i < s.len()
        invariant
            from <= i <= s@.len(),
            place_from(s@, part@, from as int) == place_from(s@, part@, i as int),
            match place_from(s@, part@, from as int) {
                Some(p) => from <= p <= s@.len() && p + part@.len() <= s@.len(),
                None => true,
            },
        decreases s@.len() - i,
    {
        if found_at(s, part, i) {
            return Some(i);
        }
        i = i + 1;
    }
    proof {
        reveal_with_fuel(place_from, 2);
    }
    if found_at(s, part, i) {
        Some(i)
    } else {
        None
    }
}

/// A text without the character `c` at its end.
pub fn trim_end_char(s: &str, c: char) -> (r: String)
    ensures
        r@ == trim_back(s@, is_char(c)),
{
    let a = chars_of(s);
    let mut i: usize = a.len();
    proof {
        ends(s@);
    }
    while i > 0 && a[i - 1] == c
        invariant
            a@ == s@,
            i <= a@.len(),
            trim_back(s@, is_char(c)) == trim_back(s@.take(i as int), is_char(c)),
        decreases i,
    {
        proof {
            step(s@, i as int - 1);
        }
        i = i - 1;
    }
    proof {
        if i > 0 {
            step(s@, i as int - 1);
        }
        assert(a@.subrange(0, i as int) =~= s@.take(i as int));
    }
    text_between(&a, 0, i)
}

/// A text without the part at its front, however often it stands there.
pub open spec fn without_prefixes(s: Seq<char>, part: Seq<char>) -> Seq<char>
    decreases s.len(),
{
    if part.len() > 0 && begins(s, part) {
        without_prefixes(s.skip(part.len() as int), part)
    } else {
        s
    }
}

/// A text without the part at its front, however often it stands there.
pub fn strip_prefixes(s: &str, part: &str) -> (r: String)
    ensures
        r@ == without_prefixes(s@, part@),
{
    let mut rest = s.to_string();
    if part.is_empty() {
        return rest;
    }
    while starts_with(&rest, part)
        invariant
            part@.len() > 0,
            without_prefixes(s@, part@) == without_prefixes(rest@, part@),
        decreases rest@.len(),
    {
        match strip_prefix(&rest, part) {
            Some(shorter) => {
                proof {
                    assert(shorter@ =~= rest@.skip(part@.len() as int));
                }
                rest = shorter;
            },
            None => {
                return rest;
            },
        }
    }
    rest
}

/// The first line of a text, without its end.
pub open spec fn first_line(s: Seq<char>) -> Seq<char> {
    let i = first_of(s, '\n');
    if i < s.len() {
        without_return(s.take(i))
    } else {
        s
    }
}

/// The first line of a text, without its end.
pub fn get_first_line(s: &str) -> (r: String)
    ensures
        r@ == first_line(s@),
{
    proof {
        lemma_first_of(s@, '\n');
        let i = first_of(s@, '\n');
        assert(s@.subrange(0, i) =~= s@.take(i));
    }
    match split_once(s, '\n') {
        Some((line, _)) => match strip_suffix(&line, "\r") {
            Some(bare) => {
                proof {
                    lemma_return(line@);
                }
                bare
            },
            None => {
                proof {
                    lemma_return(line@);
                }
                line
            },
        },
        None => s.to_string(),
    }
}

proof fn lemma_return(line: Seq<char>)
    ensures
        without_return(line) == (match before_suffix(line, "\r"@) {
            Some(bare) => bare,
            None => line,
        }),
{
    reveal_strlit("\r");
    let n = line.len() as int;
    if n > 0 {
        assert(line.subrange(n - 1, n) =~= seq![line.last()]);
        assert("\r"@ =~= seq!['\r']);
        if line.last() == '\r' {
            assert(before_suffix(line, "\r"@) is Some);
            assert(before_suffix(line, "\r"@)->0 =~= line.drop_last());
        } else {
            assert(seq![line.last()][0] != seq!['\r'][0]);
        }
    }
}

/// The place that is found is the first one.
pub proof fn lemma_first_place(s: Seq<char>, part: Seq<char>, i: int)
    requires
        0 <= i,
    ensures
        forall|p: int|
            i <= p && #[trigger] stands_at(s, part, p) ==> place_from(s, part, i) is Some
                && place_from(s, part, i)->0 <= p,
    decreases s.len() + 1 - i,
{
    if i <= s.len() && !stands_at(s, part, i) {
        lemma_first_place(s, part, i + 1);
    }
}

/// A place with none before it is the one that is found.
pub proof fn lemma_this_place(s: Seq<char>, part: Seq<char>, i: int, p: int)
    requires
        0 <= i <= p,
        stands_at(s, part, p),
        forall|q: int| i <= q < p ==> !#[trigger] stands_at(s, part, q),
    ensures
        place_from(s, part, i) == Some(p),
{
    lemma_first_place(s, part, i);
    lemma_place_from(s, part, i);
}

/// Whether a character can stand in a plain id.
pub open spec fn plain_char(c: char) -> bool {
    is_lower(c) || is_digit(c) || c == '-' || c == '_'
}

/// Whether every character of a text can stand in a plain id.
pub fn only_plain_chars(text: &str) -> (r: bool)
    ensures
        r == forall|i: int| 0 <= i < text@.len() ==> plain_char(#[trigger] text@[i]),
{
    let a = chars_of(text);
    let mut i: usize = 0;
    while i < a.len()
        invariant
            i <= a@.len(),
            a@ == text@,
            forall|j: int| 0 <= j < i ==> plain_char(#[trigger] text@[j]),
        decreases a@.len() - i,
    {
        let c = a[i];
        if !(lower(c) || digit(c) || c == '-' || c == '_') {
            proof {
                assert(!plain_char(text@[i as int]));
            }
            return false;
        }
        i = i + 1;
    }
    true
}

/// The words of a text are its pieces between white space that are not empty; none holds
/// white space.
pub proof fn law_words(s: Seq<char>, word: Seq<char>)
    ensures
        words(s).contains(word) <==> word.len() > 0 && pieces(s, white_space()).contains(word),
        words(s).contains(word) ==> forall|i: int|
            0 <= i < word.len() ==> !is_white(#[trigger] word[i]),
{
    let f = |p: Seq<char>|
        if p.len() > 0 {
            Some(p)
        } else {
            None
        };
    let all = pieces(s, white_space());
    law_chosen(all, f, word);
    if word.len() > 0 && all.contains(word) {
        let i = choose|i: int| 0 <= i < all.len() && all[i] == word;
        assert(f(all[i]) == Some(word));
    }
    if words(s).contains(word) {
        let i = choose|i: int| 0 <= i < all.len() && f(#[trigger] all[i]) == Some(word);
        assert(all[i] == word);
        lemma_no_white(s, i);
    }
}

proof fn lemma_no_white(s: Seq<char>, k: int)
    requires
        0 <= k < pieces(s, white_space()).len(),
    ensures
        forall|i: int|
            0 <= i < pieces(s, white_space())[k].len() ==> !is_white(
                #[trigger] pieces(s, white_space())[k][i],
            ),
    decreases s.len(),
{
    let p = white_space();
    if s.len() > 0 {
        let before = pieces(s.drop_last(), p);
        lemma_pieces_nonempty(s.drop_last(), p);
        if k < before.len() {
            lemma_no_white(s.drop_last(), k);
        }
        assert(p(s.last()) == is_white(s.last()));
    }
}

/// A part is found at the first place from the start on where it stands, and not found
/// where it stands nowhere.
pub proof fn law_where_parts_are_found(s: Seq<char>, part: Seq<char>, from: int)
    requires
        0 <= from,
    ensures
        match place_from(s, part, from) {
            Some(p) => from <= p && p + part.len() <= s.len() && s.subrange(p, p + part.len())
                == part && forall|q: int|
                from <= q < p ==> #[trigger] s.subrange(q, q + part.len()) != part,
            None => forall|q: int|
                from <= q <= s.len() - part.len() ==> #[trigger] s.subrange(q, q + part.len())
                    != part,
        },
{
    lemma_place_from(s, part, from);
    lemma_first_place(s, part, from);
    if place_from(s, part, from) is Some {
        let p = place_from(s, part, from)->0;
        assert forall|q: int| from <= q < p implies #[trigger] s.subrange(q, q + part.len())
            != part by {
            if s.subrange(q, q + part.len()) == part {
                assert(stands_at(s, part, q));
            }
        }
    } else {
        assert forall|q: int| from <= q <= s.len() - part.len() implies #[trigger] s.subrange(
            q,
            q + part.len(),
        ) != part by {
            if s.subrange(q, q + part.len()) == part {
                assert(stands_at(s, part, q));
            }
        }
    }
}

/// Prefixes are taken off as long as there are any.
pub proof fn law_prefixes_are_taken_off(s: Seq<char>, part: Seq<char>)
    requires
        part.len() > 0,
    ensures
        !begins(without_prefixes(s, part), part),
        finishes(s, without_prefixes(s, part)),
        without_prefixes(part + s, part) == without_prefixes(s, part),
        !begins(s, part) ==> without_prefixes(s, part) == s,
    decreases s.len(),
{
    law_parts_are_found(Seq::empty(), part, s);
    assert((part + s).skip(part.len() as int) =~= s);
    if begins(s, part) {
        let rest = s.skip(part.len() as int);
        law_prefixes_are_taken_off(rest, part);
        let end = without_prefixes(rest, part);
        law_found_parts_are_there(rest, end);
        let front = choose|front: Seq<char>| rest == #[trigger] (front + end);
        law_found_parts_are_there(s, part);
        let back = choose|back: Seq<char>| s == #[trigger] (part + back);
        assert(rest =~= back);
        law_parts_are_found(part + front, end, Seq::empty());
        assert(s =~= (part + front) + end);
    } else {
        law_parts_are_found(Seq::empty(), s, Seq::empty());
        assert(Seq::<char>::empty() + s =~= s);
    }
}

/// The first line is what stands before the first newline, without a carriage return at
/// its end, or the whole text.
pub proof fn law_first_lines(line: Seq<char>, rest: Seq<char>)
    requires
        !line.contains('\n'),
    ensures
        first_line(line) == line,
        first_line(line.push('\n') + rest) == (if line.len() > 0 && line.last() == '\r' {
            line.drop_last()
        } else {
            line
        }),
{
    let s = line.push('\n') + rest;
    lemma_first_of(line, '\n');
    lemma_first_of(s, '\n');
    let n = line.len() as int;
    assert(s[n] == '\n');
    assert(s.contains('\n'));
    let i = first_of(s, '\n');
    if i < n {
        assert(line[i] == '\n');
    }
    assert(i <= n);
    assert(s.take(n) =~= line);
}

} // verus!

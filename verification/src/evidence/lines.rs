//! Journals of one JSON document per line.

use vstd::prelude::*;
use vstd::utf8::{encode_scalar, encode_utf8};
use crate::each::decides;
use crate::evidence::files::seen;
use crate::list::kept;
use crate::number::{count_text, decimal};
use crate::text::{cat2, ends, step};

verus! {

broadcast use {vstd::seq::group_seq_axioms, vstd::string::group_string_axioms};

/// The byte that ends a line.
pub const NEWLINE: u8 = 10;

/// Bytes in the pieces between newlines.
pub open spec fn byte_pieces(bytes: Seq<u8>) -> Seq<Seq<u8>>
    decreases bytes.len(),
{
    if bytes.len() == 0 {
        seq![Seq::<u8>::empty()]
    } else {
        let front = byte_pieces(bytes.drop_last());
        if bytes.last() == NEWLINE {
            front.push(Seq::<u8>::empty())
        } else {
            front.drop_last().push(front.last().push(bytes.last()))
        }
    }
}

/// Whether a line holds anything.
pub open spec fn not_empty() -> spec_fn(Seq<u8>) -> bool {
    |line: Seq<u8>| line.len() > 0
}

/// The lines of a journal, without the empty ones.
pub open spec fn journal_lines(bytes: Seq<u8>) -> Seq<Seq<u8>> {
    kept(byte_pieces(bytes), not_empty())
}

proof fn lemma_byte_pieces(bytes: Seq<u8>)
    ensures
        byte_pieces(bytes).len() > 0,
    decreases bytes.len(),
{
    if bytes.len() > 0 {
        lemma_byte_pieces(bytes.drop_last());
    }
}

/// The lines of a journal, without the empty ones.
pub fn split_journal(bytes: &Vec<u8>) -> (r: Vec<Vec<u8>>)
    ensures
        r@.map_values(|line: Vec<u8>| line@) == journal_lines(bytes@),
{
    let mut out: Vec<Vec<u8>> = Vec::new();
    let mut open: Vec<u8> = Vec::new();
    let mut i: usize = 0;
    proof {
        ends(bytes@);
        assert(out@.map_values(|line: Vec<u8>| line@) =~= Seq::<Seq<u8>>::empty());
        assert(byte_pieces(bytes@.take(0)).drop_last() =~= Seq::<Seq<u8>>::empty());
        assert(open@ =~= byte_pieces(bytes@.take(0)).last());
    }
    while i < bytes.len()
        invariant
            i <= bytes@.len(),
            open@ == byte_pieces(bytes@.take(i as int)).last(),
            out@.map_values(|line: Vec<u8>| line@) == kept(
                byte_pieces(bytes@.take(i as int)).drop_last(),
                not_empty(),
            ),
        decreases bytes@.len() - i,
    {
        let ghost held = out@;
        let ghost before = byte_pieces(bytes@.take(i as int));
        proof {
            step(bytes@, i as int);
            lemma_byte_pieces(bytes@.take(i as int));
        }
        let b = bytes[i];
        if b == NEWLINE {
            let mut line: Vec<u8> = Vec::new();
            std::mem::swap(&mut line, &mut open);
            proof {
                assert(before.push(Seq::<u8>::empty()).drop_last() =~= before);
                assert(open@ =~= Seq::<u8>::empty());
            }
            if line.len() > 0 {
                out.push(line);
                proof {
                    assert(out@.map_values(|line: Vec<u8>| line@) =~= held.map_values(
                        |line: Vec<u8>| line@,
                    ).push(before.last()));
                }
            }
        } else {
            open.push(b);
            proof {
                assert(before.drop_last().push(before.last().push(b)).drop_last()
                    =~= before.drop_last());
            }
        }
        i = i + 1;
    }
    proof {
        ends(bytes@);
        lemma_byte_pieces(bytes@);
    }
    if open.len() > 0 {
        let ghost held = out@;
        let ghost line = open@;
        out.push(open);
        proof {
            assert(out@.map_values(|line: Vec<u8>| line@) =~= held.map_values(
                |line: Vec<u8>| line@,
            ).push(line));
        }
    }
    out
}

/// What the lines of a journal hold, or what is wrong with the first bad one: it
/// cannot be read, or it is of another format.
pub open spec fn accepted<A>(
    lines: Seq<Option<A>>,
    foreign: spec_fn(A) -> bool,
    unreadable: Seq<char>,
    unsupported: Seq<char>,
) -> Result<Seq<A>, Seq<char>>
    decreases lines.len(),
{
    if lines.len() == 0 {
        Ok(Seq::empty())
    } else {
        match accepted(lines.drop_last(), foreign, unreadable, unsupported) {
            Ok(front) => match lines.last() {
                Some(document) => if foreign(document) {
                    Err(unsupported + decimal(lines.len()))
                } else {
                    Ok(front.push(document))
                },
                None => Err(unreadable + decimal(lines.len())),
            },
            Err(words) => Err(words),
        }
    }
}

/// The outcome stays the same once a line was bad.
proof fn lemma_refused<A>(
    lines: Seq<Option<A>>,
    foreign: spec_fn(A) -> bool,
    unreadable: Seq<char>,
    unsupported: Seq<char>,
    i: int,
)
    requires
        0 <= i <= lines.len(),
        accepted(lines.take(i), foreign, unreadable, unsupported) is Err,
    ensures
        accepted(lines, foreign, unreadable, unsupported) == accepted(
            lines.take(i),
            foreign,
            unreadable,
            unsupported,
        ),
    decreases lines.len(),
{
    if i == lines.len() {
        ends(lines);
    } else {
        assert(lines.drop_last().take(i) =~= lines.take(i));
        lemma_refused(lines.drop_last(), foreign, unreadable, unsupported, i);
    }
}

/// What the lines of a journal hold, or what is wrong with the first bad one.
pub(crate) fn accept<T: DeepView, F: Fn(&T) -> bool>(
    lines: Vec<Option<T>>,
    f: F,
    Ghost(foreign): Ghost<spec_fn(T::V) -> bool>,
    unreadable: &str,
    unsupported: &str,
) -> (r: Result<Vec<T>, String>)
    requires
        decides(f, foreign),
    ensures
        seen(r) == accepted(lines.deep_view(), foreign, unreadable@, unsupported@),
{
    let mut rest = lines;
    let ghost all = rest.deep_view();
    let mut out: Vec<T> = Vec::new();
    let mut n: usize = 0;
    proof {
        ends(all);
        assert(out.deep_view() =~= Seq::<T::V>::empty());
        assert(all.skip(0) =~= all);
    }
    while rest.len() > 0
        invariant
            decides(f, foreign),
            all == lines.deep_view(),
            n + rest@.len() == all.len(),
            n <= usize::MAX - rest.len(),
            rest.deep_view() == all.skip(n as int),
            accepted(all.take(n as int), foreign, unreadable@, unsupported@) == Ok::<
                Seq<T::V>,
                Seq<char>,
            >(out.deep_view()),
        decreases rest@.len(),
    {
        let ghost held = rest.deep_view();
        let line = rest.remove(0);
        n = n + 1;
        proof {
            assert(held[0] == line.deep_view());
            assert(rest.deep_view() =~= held.drop_first());
            assert(held.drop_first() =~= all.skip(n as int));
            step(all, n - 1);
        }
        match line {
            Some(document) => {
                if f(&document) {
                    proof {
                        lemma_refused(all, foreign, unreadable@, unsupported@, n as int);
                    }
                    return Err(cat2(unsupported, &count_text(n)));
                }
                let ghost front = out.deep_view();
                let ghost last = document.deep_view();
                out.push(document);
                proof {
                    assert(out.deep_view() =~= front.push(last));
                }
            },
            None => {
                proof {
                    lemma_refused(all, foreign, unreadable@, unsupported@, n as int);
                }
                return Err(cat2(unreadable, &count_text(n)));
            },
        }
    }
    proof {
        ends(all);
    }
    Ok(out)
}

// ---------------------------------------------------------------------------
// Laws
// ---------------------------------------------------------------------------

proof fn lemma_kept_push<A>(s: Seq<A>, x: A, p: spec_fn(A) -> bool)
    ensures
        kept(s.push(x), p) == (if p(x) {
            kept(s, p).push(x)
        } else {
            kept(s, p)
        }),
{
    assert(s.push(x).drop_last() =~= s);
}

proof fn lemma_line_grows(journal: Seq<u8>, line: Seq<u8>)
    requires
        journal.len() == 0 || journal.last() == NEWLINE,
        !line.contains(NEWLINE),
    ensures
        byte_pieces(journal + line) == byte_pieces(journal).drop_last().push(line),
        byte_pieces(journal).last().len() == 0,
        byte_pieces(journal).len() > 0,
    decreases line.len(),
{
    lemma_byte_pieces(journal);
    if line.len() == 0 {
        assert(journal + line =~= journal);
        assert(byte_pieces(journal).last() =~= line);
        assert(byte_pieces(journal) =~= byte_pieces(journal).drop_last().push(line));
    } else {
        let front = line.drop_last();
        assert(!front.contains(NEWLINE)) by {
            if front.contains(NEWLINE) {
                let k = choose|k: int| 0 <= k < front.len() && front[k] == NEWLINE;
                assert(line[k] == NEWLINE);
            }
        }
        lemma_line_grows(journal, front);
        let whole = journal + line;
        assert(whole.drop_last() =~= journal + front);
        assert(whole.last() == line.last());
        assert(line.contains(line.last()));
        assert(front.push(line.last()) =~= line);
        let pieces = byte_pieces(journal).drop_last();
        assert(pieces.push(front).drop_last() =~= pieces);
        assert(pieces.push(front).last() == front);
    }
}

/// A line that is appended to a journal of whole lines is read back after all the
/// others, as it was written.
pub proof fn law_appended_lines_are_read_back(journal: Seq<u8>, line: Seq<u8>)
    requires
        journal.len() == 0 || journal.last() == NEWLINE,
        line.len() > 0,
        !line.contains(NEWLINE),
    ensures
        journal_lines(journal + line + seq![NEWLINE]) == journal_lines(journal).push(line),
        (journal + line + seq![NEWLINE]).last() == NEWLINE,
{
    let whole = journal + line + seq![NEWLINE];
    assert(whole.drop_last() =~= journal + line);
    assert(whole.last() == NEWLINE);
    lemma_line_grows(journal, line);
    let pieces = byte_pieces(journal);
    assert(byte_pieces(whole) == pieces.drop_last().push(line).push(Seq::<u8>::empty()));
    lemma_kept_push(pieces.drop_last(), line, not_empty());
    lemma_kept_push(pieces.drop_last().push(line), Seq::<u8>::empty(), not_empty());
    lemma_kept_push(pieces.drop_last(), pieces.last(), not_empty());
    assert(pieces.drop_last().push(pieces.last()) =~= pieces);
}

proof fn lemma_scalar_bytes(scalar: u32)
    requires
        vstd::utf8::is_scalar(scalar),
        scalar != 10,
    ensures
        !encode_scalar(scalar).contains(NEWLINE),
{
    assert(scalar <= 0x7F && scalar != 10 ==> (scalar & 0x7F) as u8 != 10) by (bit_vector);
    assert(0xC0u8 | ((scalar >> 6) & 0x1F) as u8 != 10) by (bit_vector);
    assert(0xE0u8 | ((scalar >> 12) & 0x0F) as u8 != 10) by (bit_vector);
    assert(0xF0u8 | ((scalar >> 18) & 0x7) as u8 != 10) by (bit_vector);
    assert(0x80u8 | (scalar & 0x3F) as u8 != 10) by (bit_vector);
    assert(0x80u8 | ((scalar >> 6) & 0x3F) as u8 != 10) by (bit_vector);
    assert(0x80u8 | ((scalar >> 12) & 0x3F) as u8 != 10) by (bit_vector);
}

/// A text without a newline has none in its bytes.
pub proof fn law_one_line_of_text_is_one_line_of_bytes(text: Seq<char>)
    requires
        !text.contains('\n'),
    ensures
        !encode_utf8(text).contains(NEWLINE),
    decreases text.len(),
{
    if text.len() > 0 {
        let rest = text.drop_first();
        assert(!rest.contains('\n')) by {
            if rest.contains('\n') {
                let k = choose|k: int| 0 <= k < rest.len() && rest[k] == '\n';
                assert(text[k + 1] == '\n');
            }
        }
        law_one_line_of_text_is_one_line_of_bytes(rest);
        assert(text.contains(text[0]));
        vstd::utf8::char_is_scalar(text[0]);
        vstd::utf8::char_u32_cast(text[0], text[0] as u32);
        lemma_scalar_bytes(text[0] as u32);
        let head = encode_scalar(text[0] as u32);
        let tail = encode_utf8(rest);
        assert forall|k: int| 0 <= k < (head + tail).len() implies #[trigger] (head + tail)[k]
            != NEWLINE by {
            if k < head.len() {
                assert(head.contains(head[k]));
            } else {
                assert(tail.contains(tail[k - head.len()]));
            }
        }
    }
}

/// Lines are accepted exactly where each of them can be read and is not foreign; they are
/// then handed out in their order.
pub proof fn law_accepted_lines<A>(
    lines: Seq<Option<A>>,
    foreign: spec_fn(A) -> bool,
    unreadable: Seq<char>,
    unsupported: Seq<char>,
)
    ensures
        ({
            let r = accepted(lines, foreign, unreadable, unsupported);
            &&& r is Ok <==> forall|i: int|
                0 <= i < lines.len() ==> (#[trigger] lines[i]) is Some && !foreign(lines[i]->0)
            &&& r is Ok ==> r->Ok_0.len() == lines.len() && forall|i: int|
                0 <= i < lines.len() ==> Some(#[trigger] r->Ok_0[i]) == lines[i]
        }),
    decreases lines.len(),
{
    if lines.len() > 0 {
        let d = lines.drop_last();
        law_accepted_lines(d, foreign, unreadable, unsupported);
        assert(lines[lines.len() - 1] == lines.last());
        assert forall|i: int| 0 <= i < d.len() implies #[trigger] d[i] == lines[i] by {}
        let r = accepted(lines, foreign, unreadable, unsupported);
        let front = accepted(d, foreign, unreadable, unsupported);
        if r is Ok {
            assert forall|i: int| 0 <= i < lines.len() implies Some(#[trigger] r->Ok_0[i])
                == lines[i] by {
                if i < d.len() {
                    assert(r->Ok_0[i] == front->Ok_0[i]);
                    assert(d[i] == lines[i]);
                }
            }
            assert forall|i: int| 0 <= i < lines.len() implies (#[trigger] lines[i]) is Some
                && !foreign(lines[i]->0) by {
                if i < d.len() {
                    assert(d[i] == lines[i]);
                }
            }
        }
        if forall|i: int|
            0 <= i < lines.len() ==> (#[trigger] lines[i]) is Some && !foreign(lines[i]->0) {
            assert forall|i: int| 0 <= i < d.len() implies (#[trigger] d[i]) is Some && !foreign(
                d[i]->0,
            ) by {
                assert(d[i] == lines[i]);
            }
        }
    }
}

} // verus!

//! Bytes written as hexadecimal text.

use vstd::prelude::*;
use crate::text::{chars_of, digit, ends, hex_digit, is_digit, is_hex, step, text_of};

verus! {

broadcast use {vstd::seq::group_seq_axioms, vstd::string::group_string_axioms};

/// The digit of a number below sixteen.
pub open spec fn hex_char(n: int) -> char {
    if n < 10 {
        (48 + n) as char
    } else {
        (87 + n) as char
    }
}

/// Bytes in hexadecimal, two small digits for each.
pub open spec fn hex_of(bytes: Seq<u8>) -> Seq<char> {
    Seq::new(
        2 * bytes.len(),
        |i: int|
            if i % 2 == 0 {
                hex_char(bytes[i / 2] as int / 16)
            } else {
                hex_char(bytes[i / 2] as int % 16)
            },
    )
}

fn digit_of(n: u8) -> (r: char)
    requires
        n < 16,
    ensures
        r == hex_char(n as int),
{
    if n < 10 {
        (48 + n) as char
    } else {
        (87 + n) as char
    }
}

/// Bytes in hexadecimal, two small digits for each.
pub fn hex_encode(bytes: &[u8]) -> (r: String)
    ensures
        r@ == hex_of(bytes@),
{
    let mut out: Vec<char> = Vec::new();
    let mut i: usize = 0;
    while i < bytes.len()
        invariant
            i <= bytes@.len(),
            out@ == hex_of(bytes@.take(i as int)),
        decreases bytes@.len() - i,
    {
        let b = bytes[i];
        out.push(digit_of(b / 16));
        out.push(digit_of(b % 16));
        proof {
            step(bytes@, i as int);
            assert(out@ =~= hex_of(bytes@.take(i + 1)));
        }
        i = i + 1;
    }
    proof {
        ends(bytes@);
    }
    text_of(&out)
}

/// The value of a hexadecimal digit.
pub open spec fn hex_value(c: char) -> int {
    if is_digit(c) {
        (c as u32) - 48
    } else if 'a' <= c <= 'f' {
        (c as u32) - 87
    } else {
        (c as u32) - 55
    }
}

/// Whether a text is `n` bytes in hexadecimal.
pub open spec fn is_hex_of_size(s: Seq<char>, n: nat) -> bool {
    s.len() == 2 * n && forall|i: int| 0 <= i < s.len() ==> is_hex(#[trigger] s[i])
}

/// The bytes that a text of `2 * n` digits stands for.
pub open spec fn unhex(s: Seq<char>, n: nat) -> Seq<u8> {
    Seq::new(n, |i: int| (hex_value(s[2 * i]) * 16 + hex_value(s[2 * i + 1])) as u8)
}

fn value_of(c: char) -> (r: u8)
    requires
        is_hex(c),
    ensures
        r == hex_value(c),
        r < 16,
{
    if digit(c) {
        (c as u32 - 48) as u8
    } else if 'a' <= c && c <= 'f' {
        (c as u32 - 87) as u8
    } else {
        (c as u32 - 55) as u8
    }
}

/// The `n` bytes that a text stands for, if it is `n` bytes in hexadecimal.
pub fn hex_decode(value: &str, n: usize) -> (r: Option<Vec<u8>>)
    ensures
        match r {
            Some(bytes) => is_hex_of_size(value@, n as nat) && bytes@ == unhex(value@, n as nat),
            None => !is_hex_of_size(value@, n as nat),
        },
{
    let a = chars_of(value);
    let size = a.len();
    if size % 2 != 0 || size / 2 != n {
        return None;
    }
    let mut out: Vec<u8> = Vec::new();
    let mut i: usize = 0;
    while i < n
        invariant
            a@ == value@,
            a@.len() == size,
            size == 2 * n,
            i <= n,
            out@ == unhex(value@, i as nat),
            forall|j: int| 0 <= j < 2 * i ==> is_hex(#[trigger] value@[j]),
        decreases n - i,
    {
        let high = a[2 * i];
        let low = a[2 * i + 1];
        if !hex_digit(high) || !hex_digit(low) {
            proof {
                assert(!is_hex(value@[2 * i]) || !is_hex(value@[2 * i + 1]));
            }
            return None;
        }
        out.push(value_of(high) * 16 + value_of(low));
        proof {
            assert(out@ =~= unhex(value@, (i + 1) as nat));
        }
        i = i + 1;
    }
    Some(out)
}

// ---------------------------------------------------------------------------
// Laws
// ---------------------------------------------------------------------------

/// What was written in hexadecimal reads back as the same bytes.
pub proof fn law_hex_reads_back(bytes: Seq<u8>)
    ensures
        is_hex_of_size(hex_of(bytes), bytes.len()),
        unhex(hex_of(bytes), bytes.len()) == bytes,
{
    let s = hex_of(bytes);
    assert forall|i: int| 0 <= i < s.len() implies is_hex(#[trigger] s[i]) by {
        let b = bytes[i / 2] as int;
        assert(0 <= b / 16 < 16);
        assert(0 <= b % 16 < 16);
    }
    assert forall|i: int| 0 <= i < bytes.len() implies #[trigger] unhex(s, bytes.len())[i]
        == bytes[i] by {
        let b = bytes[i] as int;
        assert((2 * i) / 2 == i && (2 * i + 1) / 2 == i);
        assert(s[2 * i] == hex_char(b / 16));
        assert(s[2 * i + 1] == hex_char(b % 16));
        assert(hex_value(hex_char(b / 16)) == b / 16);
        assert(hex_value(hex_char(b % 16)) == b % 16);
    }
    assert(unhex(s, bytes.len()) =~= bytes);
}

} // verus!

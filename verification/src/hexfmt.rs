//! Lowercase hexadecimal text form for byte strings.
//!
//! Hex is the canonical external representation of key material and of
//! challenge nonces. Encoding always produces lowercase digits; parsing
//! accepts both cases, as the usual textual conventions do.

use vstd::prelude::*;

verus! {

/// The lowercase hex digit for a value below 16.
pub open spec fn hex_digit(n: u8) -> char {
    if n == 0 {
        '0'
    } else if n == 1 {
        '1'
    } else if n == 2 {
        '2'
    } else if n == 3 {
        '3'
    } else if n == 4 {
        '4'
    } else if n == 5 {
        '5'
    } else if n == 6 {
        '6'
    } else if n == 7 {
        '7'
    } else if n == 8 {
        '8'
    } else if n == 9 {
        '9'
    } else if n == 10 {
        'a'
    } else if n == 11 {
        'b'
    } else if n == 12 {
        'c'
    } else if n == 13 {
        'd'
    } else if n == 14 {
        'e'
    } else {
        'f'
    }
}

/// The value of a single hex digit, upper or lower case.
pub open spec fn hex_char_val(c: char) -> Option<u8> {
    if c == '0' {
        Some(0u8)
    } else if c == '1' {
        Some(1u8)
    } else if c == '2' {
        Some(2u8)
    } else if c == '3' {
        Some(3u8)
    } else if c == '4' {
        Some(4u8)
    } else if c == '5' {
        Some(5u8)
    } else if c == '6' {
        Some(6u8)
    } else if c == '7' {
        Some(7u8)
    } else if c == '8' {
        Some(8u8)
    } else if c == '9' {
        Some(9u8)
    } else if c == 'a' || c == 'A' {
        Some(10u8)
    } else if c == 'b' || c == 'B' {
        Some(11u8)
    } else if c == 'c' || c == 'C' {
        Some(12u8)
    } else if c == 'd' || c == 'D' {
        Some(13u8)
    } else if c == 'e' || c == 'E' {
        Some(14u8)
    } else if c == 'f' || c == 'F' {
        Some(15u8)
    } else {
        None
    }
}

/// The two lowercase hex digits of one byte, high digit first.
pub open spec fn byte_hex(b: u8) -> Seq<char> {
    seq![hex_digit(b / 16), hex_digit(b % 16)]
}

/// The lowercase hex text of a byte string.
pub open spec fn hex_of(bytes: Seq<u8>) -> Seq<char>
    decreases bytes.len(),
{
    if bytes.len() == 0 {
        Seq::empty()
    } else {
        byte_hex(bytes[0]) + hex_of(bytes.drop_first())
    }
}

/// The bytes denoted by a hex text, or `None` where the text is not
/// well-formed hex (odd length, or a character outside the hex alphabet).
pub open spec fn parse_hex(s: Seq<char>) -> Option<Seq<u8>>
    decreases s.len(),
{
    if s.len() == 0 {
        Some(Seq::empty())
    } else if s.len() == 1 {
        None
    } else {
        match (hex_char_val(s[0]), hex_char_val(s[1]), parse_hex(s.skip(2))) {
            (Some(h), Some(l), Some(rest)) => Some(seq![(16 * h + l) as u8] + rest),
            _ => None,
        }
    }
}

pub proof fn lemma_hex_of_len(bytes: Seq<u8>)
    ensures
        hex_of(bytes).len() == 2 * bytes.len(),
    decreases bytes.len(),
{
    if bytes.len() > 0 {
        lemma_hex_of_len(bytes.drop_first());
    }
}

pub proof fn lemma_hex_of_snoc(bytes: Seq<u8>, b: u8)
    ensures
        hex_of(bytes.push(b)) == hex_of(bytes) + byte_hex(b),
    decreases bytes.len(),
{
    if bytes.len() == 0 {
        assert(bytes.push(b).drop_first() =~= Seq::<u8>::empty());
        assert(bytes.push(b)[0] == b);
        assert(hex_of(Seq::<u8>::empty()) =~= Seq::<char>::empty());
        assert(hex_of(bytes.push(b)) == byte_hex(b) + hex_of(Seq::<u8>::empty()));
        assert(byte_hex(b) + Seq::<char>::empty() =~= Seq::<char>::empty() + byte_hex(b));
    } else {
        lemma_hex_of_snoc(bytes.drop_first(), b);
        assert(bytes.push(b)[0] == bytes[0]);
        assert(bytes.push(b).drop_first() =~= bytes.drop_first().push(b));
        assert(hex_of(bytes.push(b)) == byte_hex(bytes[0]) + (hex_of(bytes.drop_first()) + byte_hex(
            b,
        )));
        assert(byte_hex(bytes[0]) + (hex_of(bytes.drop_first()) + byte_hex(b)) =~= (byte_hex(
            bytes[0],
        ) + hex_of(bytes.drop_first())) + byte_hex(b));
    }
}

/// Hex round trip: parsing the hex text of a byte string gives the bytes back.
pub proof fn lemma_parse_hex_of(bytes: Seq<u8>)
    ensures
        parse_hex(hex_of(bytes)) == Some(bytes),
    decreases bytes.len(),
{
    if bytes.len() == 0 {
        assert(hex_of(bytes).len() == 0);
        assert(parse_hex(hex_of(bytes)) == Some(bytes)) by {
            assert(bytes =~= Seq::<u8>::empty());
        }
    } else {
        let b = bytes[0];
        let rest = bytes.drop_first();
        lemma_parse_hex_of(rest);
        lemma_hex_of_len(rest);
        let s = hex_of(bytes);
        assert(s == byte_hex(b) + hex_of(rest));
        assert(s.len() >= 2);
        assert(s[0] == hex_digit(b / 16));
        assert(s[1] == hex_digit(b % 16));
        assert(hex_char_val(hex_digit(b / 16)) == Some((b / 16) as u8));
        assert(hex_char_val(hex_digit(b % 16)) == Some((b % 16) as u8));
        assert(s.skip(2) =~= hex_of(rest));
        assert(16 * (b / 16) + (b % 16) == b) by (nonlinear_arith);
        assert(seq![(16 * (b / 16) + b % 16) as u8] + rest =~= bytes);
    }
}

/// One lowercase hex digit as text.
fn hex_digit_str(n: u8) -> (r: &'static str)
    requires
        n < 16,
    ensures
        r@.len() == 1,
        r@[0] == hex_digit(n),
{
    proof {
        reveal_strlit("0");
        reveal_strlit("1");
        reveal_strlit("2");
        reveal_strlit("3");
        reveal_strlit("4");
        reveal_strlit("5");
        reveal_strlit("6");
        reveal_strlit("7");
        reveal_strlit("8");
        reveal_strlit("9");
        reveal_strlit("a");
        reveal_strlit("b");
        reveal_strlit("c");
        reveal_strlit("d");
        reveal_strlit("e");
        reveal_strlit("f");
    }
    match n {
        0 => "0",
        1 => "1",
        2 => "2",
        3 => "3",
        4 => "4",
        5 => "5",
        6 => "6",
        7 => "7",
        8 => "8",
        9 => "9",
        10 => "a",
        11 => "b",
        12 => "c",
        13 => "d",
        14 => "e",
        _ => "f",
    }
}

/// Encode a byte string as lowercase hex text.
pub fn encode_hex(bytes: &[u8]) -> (r: String)
    ensures
        r@ == hex_of(bytes@),
        r@.len() == 2 * bytes@.len(),
{
    let mut out = String::new();
    let mut i: usize = 0;
    while i < bytes.len()
        invariant
            i <= bytes@.len(),
            out@ == hex_of(bytes@.subrange(0, i as int)),
        decreases bytes@.len() - i,
    {
        let b = bytes[i];
        let hi = hex_digit_str(b / 16);
        let lo = hex_digit_str(b % 16);
        out.append(hi);
        out.append(lo);
        proof {
            let prefix = bytes@.subrange(0, i as int);
            lemma_hex_of_snoc(prefix, b);
            assert(prefix.push(b) =~= bytes@.subrange(0, i + 1));
            assert(out@ =~= hex_of(prefix) + byte_hex(b));
        }
        i = i + 1;
    }
    proof {
        assert(bytes@.subrange(0, bytes@.len() as int) =~= bytes@);
        lemma_hex_of_len(bytes@);
    }
    out
}

/// The value of one hex character, either case.
fn hex_val(c: char) -> (r: Option<u8>)
    ensures
        r == hex_char_val(c),
{
    match c {
        '0' => Some(0),
        '1' => Some(1),
        '2' => Some(2),
        '3' => Some(3),
        '4' => Some(4),
        '5' => Some(5),
        '6' => Some(6),
        '7' => Some(7),
        '8' => Some(8),
        '9' => Some(9),
        'a' | 'A' => Some(10),
        'b' | 'B' => Some(11),
        'c' | 'C' => Some(12),
        'd' | 'D' => Some(13),
        'e' | 'E' => Some(14),
        'f' | 'F' => Some(15),
        _ => None,
    }
}

/// Decode hex text to bytes; `None` exactly where the text is not
/// well-formed hex.
pub fn decode_hex(s: &str) -> (r: Option<Vec<u8>>)
    ensures
        match r {
            Some(v) => parse_hex(s@) == Some(v@),
            None => parse_hex(s@) is None,
        },
{
    let n = s.unicode_len();
    let mut acc: Vec<u8> = Vec::new();
    let mut i: usize = 0;
    proof {
        assert(s@.skip(0) =~= s@);
        if parse_hex(s@) is Some {
            assert(Seq::<u8>::empty() + parse_hex(s@)->Some_0 =~= parse_hex(s@)->Some_0);
        }
    }
    while n - i >= 2
        invariant
            n == s@.len(),
            i <= n,
            i % 2 == 0,
            parse_hex(s@) == match parse_hex(s@.skip(i as int)) {
                Some(rest) => Some(acc@ + rest),
                None => None::<Seq<u8>>,
            },
        decreases n - i,
    {
        let c_hi = s.get_char(i);
        let c_lo = s.get_char(i + 1);
        proof {
            assert(s@.skip(i as int)[0] == s@[i as int]);
            assert(s@.skip(i as int)[1] == s@[i + 1]);
            assert(s@.skip(i as int).skip(2) =~= s@.skip(i + 2));
        }
        match (hex_val(c_hi), hex_val(c_lo)) {
            (Some(h), Some(l)) => {
                acc.push(16 * h + l);
                proof {
                    let ghost old_acc = acc@.drop_last();
                    if parse_hex(s@.skip(i + 2)) is Some {
                        let rest = parse_hex(s@.skip(i + 2))->Some_0;
                        assert(old_acc + (seq![(16 * h + l) as u8] + rest) =~= acc@ + rest);
                    }
                }
                i = i + 2;
            },
            _ => {
                proof {
                    assert(parse_hex(s@.skip(i as int)) is None);
                }
                return None;
            },
        }
    }
    if i == n {
        proof {
            assert(s@.skip(n as int) =~= Seq::<char>::empty());
            assert(parse_hex(s@.skip(n as int)) == Some(Seq::<u8>::empty()));
            assert(acc@ + Seq::<u8>::empty() =~= acc@);
        }
        Some(acc)
    } else {
        proof {
            assert(s@.skip(i as int).len() == 1);
            assert(parse_hex(s@.skip(i as int)) is None);
        }
        None
    }
}

} // verus!

use vstd::prelude::*;
use vstd::utf8::{decode_utf8, valid_utf8};

use crate::elements::Id;

verus! {

/// A lower-case hexadecimal digit (also the decimal digits).
pub open spec fn hex_digit(d: nat) -> char {
    if d == 0 {
        '0'
    } else if d == 1 {
        '1'
    } else if d == 2 {
        '2'
    } else if d == 3 {
        '3'
    } else if d == 4 {
        '4'
    } else if d == 5 {
        '5'
    } else if d == 6 {
        '6'
    } else if d == 7 {
        '7'
    } else if d == 8 {
        '8'
    } else if d == 9 {
        '9'
    } else if d == 10 {
        'a'
    } else if d == 11 {
        'b'
    } else if d == 12 {
        'c'
    } else if d == 13 {
        'd'
    } else if d == 14 {
        'e'
    } else {
        'f'
    }
}

/// An upper-case hexadecimal digit.
pub open spec fn upper_hex_digit(d: nat) -> char {
    if d == 0 {
        '0'
    } else if d == 1 {
        '1'
    } else if d == 2 {
        '2'
    } else if d == 3 {
        '3'
    } else if d == 4 {
        '4'
    } else if d == 5 {
        '5'
    } else if d == 6 {
        '6'
    } else if d == 7 {
        '7'
    } else if d == 8 {
        '8'
    } else if d == 9 {
        '9'
    } else if d == 10 {
        'A'
    } else if d == 11 {
        'B'
    } else if d == 12 {
        'C'
    } else if d == 13 {
        'D'
    } else if d == 14 {
        'E'
    } else {
        'F'
    }
}

/// The two lower-case hexadecimal digits of a byte.
pub open spec fn byte_hex(b: u8) -> Seq<char> {
    seq![hex_digit((b / 16) as nat), hex_digit((b % 16) as nat)]
}

/// The bytes of `s` in lower-case hexadecimal, separated by single spaces.
pub open spec fn hex_listing(s: Seq<u8>) -> Seq<char>
    decreases s.len(),
{
    if s.len() == 0 {
        Seq::empty()
    } else if s.len() == 1 {
        byte_hex(s[0])
    } else {
        hex_listing(s.drop_last()) + " "@ + byte_hex(s.last())
    }
}

/// The decimal digits of `n`, without leading zeros.
pub open spec fn decimal(n: nat) -> Seq<char>
    decreases n,
{
    if n < 10 {
        seq![hex_digit(n)]
    } else {
        decimal(n / 10) + seq![hex_digit(n % 10)]
    }
}

/// The upper-case hexadecimal digits of `n`, without leading zeros.
pub open spec fn upper_hex(n: nat) -> Seq<char>
    decreases n,
{
    if n < 16 {
        seq![upper_hex_digit(n)]
    } else {
        upper_hex(n / 16) + seq![upper_hex_digit(n % 16)]
    }
}

/// The summary of a binary payload: its bytes in hexadecimal between brackets
/// for payloads up to 64 bytes, else its length.
pub open spec fn binary_summary(s: Seq<u8>) -> Seq<char> {
    if s.len() <= 64 {
        "["@ + hex_listing(s) + "]"@
    } else {
        decimal(s.len()) + " bytes"@
    }
}

/// `s` without its trailing NUL characters.
pub open spec fn trim_trailing_nul(s: Seq<char>) -> Seq<char>
    decreases s.len(),
{
    if s.len() > 0 && s.last() == '\0' {
        trim_trailing_nul(s.drop_last())
    } else {
        s
    }
}

/// How an identifier is written out: its schema name, `0x` and its upper-case
/// hexadecimal wire value when the catalog does not know it, or `Corrupted`.
pub open spec fn id_text(id: Id) -> Seq<char> {
    match id.schema_name() {
        Some(n) => n,
        None => match id {
            Id::Unknown(v) => "0x"@ + upper_hex(v as nat),
            _ => "Corrupted"@,
        },
    }
}

fn lower_digit_str(d: u8) -> (r: &'static str)
    requires
        d < 16,
    ensures
        r@ == seq![hex_digit(d as nat)],
{
    proof {
        reveal_strlit("0");
        reveal_strlit("1");
        reveal_strlit("2");
        reveal_strlit("3");
        reveal_strlit("4");
        reveal_strlit("5");
        reveal_strlit("6");
        reveal_strlit("7");
        reveal_strlit("8");
        reveal_strlit("9");
        reveal_strlit("a");
        reveal_strlit("b");
        reveal_strlit("c");
        reveal_strlit("d");
        reveal_strlit("e");
        reveal_strlit("f");
    }
    match d {
        0 => "0",
        1 => "1",
        2 => "2",
        3 => "3",
        4 => "4",
        5 => "5",
        6 => "6",
        7 => "7",
        8 => "8",
        9 => "9",
        10 => "a",
        11 => "b",
        12 => "c",
        13 => "d",
        14 => "e",
        _ => "f",
    }
}

fn upper_digit_str(d: u8) -> (r: &'static str)
    requires
        d < 16,
    ensures
        r@ == seq![upper_hex_digit(d as nat)],
{
    proof {
        reveal_strlit("0");
        reveal_strlit("1");
        reveal_strlit("2");
        reveal_strlit("3");
        reveal_strlit("4");
        reveal_strlit("5");
        reveal_strlit("6");
        reveal_strlit("7");
        reveal_strlit("8");
        reveal_strlit("9");
        reveal_strlit("A");
        reveal_strlit("B");
        reveal_strlit("C");
        reveal_strlit("D");
        reveal_strlit("E");
        reveal_strlit("F");
    }
    match d {
        0 => "0",
        1 => "1",
        2 => "2",
        3 => "3",
        4 => "4",
        5 => "5",
        6 => "6",
        7 => "7",
        8 => "8",
        9 => "9",
        10 => "A",
        11 => "B",
        12 => "C",
        13 => "D",
        14 => "E",
        _ => "F",
    }
}

fn push_decimal(out: &mut String, n: usize)
    ensures
        final(out)@ == old(out)@ + decimal(n as nat),
    decreases n,
{
    if n >= 10 {
        push_decimal(out, n / 10);
    }
    out.append(lower_digit_str((n % 10) as u8));
    assert(final(out)@ =~= old(out)@ + decimal(n as nat));
}

fn push_upper_hex(out: &mut String, n: u32)
    ensures
        final(out)@ == old(out)@ + upper_hex(n as nat),
    decreases n,
{
    if n >= 16 {
        push_upper_hex(out, n / 16);
    }
    out.append(upper_digit_str((n % 16) as u8));
    assert(final(out)@ =~= old(out)@ + upper_hex(n as nat));
}

/// The summary of a payload of `n` bytes that is not listed: `N bytes`.
pub fn length_summary(n: usize) -> (r: String)
    ensures
        r@ == decimal(n as nat) + " bytes"@,
{
    let mut out = String::new();
    push_decimal(&mut out, n);
    out.append(" bytes");
    assert(out@ =~= decimal(n as nat) + " bytes"@);
    out
}

/// Summarises a binary payload: `[01 02 03]` up to 64 bytes, else `N bytes`.
pub fn as_hex(bytes: &[u8]) -> (r: String)
    ensures
        r@ == binary_summary(bytes@),
{
    if bytes.len() > 64 {
        return length_summary(bytes.len());
    }
    let mut out = String::new();
    out.append("[");
    let mut i: usize = 0;
    while i < bytes.len()
        invariant
            i <= bytes@.len(),
            out@ == "["@ + hex_listing(bytes@.subrange(0, i as int)),
        decreases bytes@.len() - i,
    {
        let b = bytes[i];
        if i > 0 {
            out.append(" ");
        }
        out.append(lower_digit_str(b / 16));
        out.append(lower_digit_str(b % 16));
        proof {
            let p = bytes@.subrange(0, i as int + 1);
            assert(p.drop_last() =~= bytes@.subrange(0, i as int));
            if i == 0 {
                assert(bytes@.subrange(0, 0) =~= Seq::<u8>::empty());
            }
        }
        i = i + 1;
        assert(out@ =~= "["@ + hex_listing(bytes@.subrange(0, i as int)));
    }
    out.append("]");
    assert(bytes@.subrange(0, bytes@.len() as int) =~= bytes@);
    out
}

/// Removes the trailing NUL characters of a string.
pub fn trim_nul_end(s: &String) -> (r: String)
    ensures
        r@ == trim_trailing_nul(s@),
{
    let t = s.as_str();
    let n = t.unicode_len();
    let mut k: usize = n;
    assert(t@.subrange(0, n as int) =~= t@);
    while k > 0 && t.get_char(k - 1) == '\0'
        invariant
            k <= n,
            n == t@.len(),
            trim_trailing_nul(t@) == trim_trailing_nul(t@.subrange(0, k as int)),
        decreases k,
    {
        assert(t@.subrange(0, k as int).drop_last() =~= t@.subrange(0, k as int - 1));
        k = k - 1;
    }
    t.substring_char(0, k).to_owned()
}

/// Relies on `String::from_utf8`: it accepts exactly the valid UTF-8 byte
/// sequences and holds the characters they encode.
#[verifier::external_body]
pub(crate) fn utf8_string(bytes: &[u8]) -> (r: Option<String>)
    ensures
        r is Some <==> valid_utf8(bytes@),
        r matches Some(s) ==> s@ == decode_utf8(bytes@),
{
    String::from_utf8(bytes.to_vec()).ok()
}

impl Id {
    /// The name under which this identifier is written out.
    pub fn to_name_string(&self) -> (r: String)
        ensures
            r@ == id_text(*self),
    {
        match self.schema_name_str() {
            Some(n) => n.to_owned(),
            None => match self {
                Id::Unknown(v) => {
                    let mut out = String::new();
                    out.append("0x");
                    push_upper_hex(&mut out, *v);
                    out
                },
                _ => "Corrupted".to_owned(),
            },
        }
    }
}

} // verus!

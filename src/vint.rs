use vstd::arithmetic::div_mod::{lemma_mod_multiples_vanish, lemma_small_mod};
use vstd::arithmetic::power2::{lemma2_to64, lemma_pow2_adds, lemma_pow2_strictly_increases, pow2};
use vstd::prelude::*;

use crate::elements::{id_of_wire, Id};
use crate::error::Error;

verus! {

/// The number of leading zero bits of a byte; 8 for zero.
pub open spec fn leading_zeros(b: u8) -> nat {
    if b >= 128 {
        0
    } else if b >= 64 {
        1
    } else if b >= 32 {
        2
    } else if b >= 16 {
        3
    } else if b >= 8 {
        4
    } else if b >= 4 {
        5
    } else if b >= 2 {
        6
    } else if b >= 1 {
        7
    } else {
        8
    }
}

/// The width in bytes that the first byte of a VINT announces.
pub open spec fn vint_width(first: u8) -> nat {
    leading_zeros(first) + 1
}

/// The big-endian value of a byte sequence.
pub open spec fn be_value(s: Seq<u8>) -> nat
    decreases s.len(),
{
    if s.len() == 0 {
        0
    } else {
        (be_value(s.drop_last()) * 256 + s.last()) as nat
    }
}

/// The data bits of the `w`-byte VINT at the start of `s`: its big-endian value
/// without the width marker.
pub open spec fn vint_data(s: Seq<u8>, w: nat) -> nat {
    be_value(s.subrange(0, w as int)) % pow2(7 * w)
}

/// Decoding a VINT at the start of `s`: the number of bytes it takes and its
/// value, `None` when all its data bits are set (an unknown size).
pub open spec fn varint_spec(s: Seq<u8>) -> Result<(nat, Option<nat>), Error> {
    if s.len() == 0 {
        Err(Error::NeedData)
    } else if s[0] == 0 {
        Err(Error::InvalidVarint)
    } else if s.len() < vint_width(s[0]) {
        Err(Error::NeedData)
    } else {
        let w = vint_width(s[0]);
        let d = vint_data(s, w);
        if d == pow2(7 * w) - 1 {
            Ok((w, None))
        } else if d > usize::MAX {
            Err(Error::Overflow)
        } else {
            Ok((w, Some(d)))
        }
    }
}

/// Decoding an element identifier at the start of `s`: the number of bytes it
/// takes and the identifier of its wire value (width marker included).
pub open spec fn id_spec(s: Seq<u8>) -> Result<(nat, Id), Error> {
    if s.len() == 0 {
        Err(Error::NeedData)
    } else if vint_width(s[0]) > 4 {
        Err(Error::InvalidId)
    } else if s.len() < vint_width(s[0]) {
        Err(Error::NeedData)
    } else {
        let w = vint_width(s[0]);
        Ok((w, id_of_wire(be_value(s.subrange(0, w as int)) as u32)))
    }
}

/// The plain value of an optional size.
pub open spec fn nat_of(v: Option<usize>) -> Option<nat> {
    match v {
        Some(x) => Some(x as nat),
        None => None,
    }
}

/// `rest` is what remains of `input` once its first `n` bytes are taken.
pub open spec fn is_rest_after(input: Seq<u8>, rest: Seq<u8>, n: nat) -> bool {
    n <= input.len() && rest == input.subrange(n as int, input.len() as int)
}

proof fn lemma_be_value_step(s: Seq<u8>, i: int)
    requires
        0 <= i < s.len(),
    ensures
        be_value(s.subrange(0, i + 1)) == be_value(s.subrange(0, i)) * 256 + s[i],
{
    assert(s.subrange(0, i + 1).drop_last() =~= s.subrange(0, i));
}

proof fn lemma_shift_bound(v: nat, b: u8, e: nat)
    requires
        v < pow2(e),
    ensures
        v * 256 + b < pow2(e + 8),
        pow2(e) * 256 == pow2(e + 8),
{
    lemma2_to64();
    lemma_pow2_adds(e, 8);
    let p = pow2(e);
    assert(v * 256 + b < p * 256) by (nonlinear_arith)
        requires
            v < p,
            b < 256,
    ;
}

/// `256 >> k`: a byte with `k` leading zero bits lies below it.
spec fn below_bound(k: nat) -> nat {
    if k == 0 {
        256
    } else if k == 1 {
        128
    } else if k == 2 {
        64
    } else if k == 3 {
        32
    } else if k == 4 {
        16
    } else if k == 5 {
        8
    } else if k == 6 {
        4
    } else if k == 7 {
        2
    } else {
        1
    }
}

/// Counts the leading zero bits of a byte.
pub fn count_leading_zero_bits(input: u8) -> (r: u8)
    ensures
        r as nat == leading_zeros(input),
{
    let mut k: u8 = 0;
    let mut threshold: u8 = 128;
    while k < 8
        invariant
            k <= 8,
            k < 8 ==> threshold as nat == below_bound((k + 1) as nat),
            input < below_bound(k as nat),
        decreases 8 - k,
    {
        if input >= threshold {
            return k;
        }
        k = k + 1;
        threshold = threshold / 2;
    }
    0 + 8
}

/// The width marker of a VINT with `k` leading zero bits.
fn marker_bit(k: u8) -> (m: u8)
    requires
        k < 8,
    ensures
        m as nat == pow2((7 - k) as nat),
{
    proof {
        lemma2_to64();
    }
    match k {
        0 => 128,
        1 => 64,
        2 => 32,
        3 => 16,
        4 => 8,
        5 => 4,
        6 => 2,
        _ => 1,
    }
}

/// Decodes a VINT at the start of `input`; `None` stands for an unknown size.
pub fn parse_varint(input: &[u8]) -> (r: Result<(&[u8], Option<usize>), Error>)
    ensures
        match r {
            Ok((rest, v)) => {
                let n = (input@.len() - rest@.len()) as nat;
                &&& is_rest_after(input@, rest@, n)
                &&& varint_spec(input@) == Ok::<(nat, Option<nat>), Error>((n, nat_of(v)))
            },
            Err(e) => varint_spec(input@) == Err::<(nat, Option<nat>), Error>(e),
        },
{
    if input.len() == 0 {
        return Err(Error::NeedData);
    }
    let first = input[0];
    let k = count_leading_zero_bits(first);
    if k >= 8 {
        return Err(Error::InvalidVarint);
    }
    let w: usize = (k + 1) as usize;
    if input.len() < w {
        return Err(Error::NeedData);
    }
    let m = marker_bit(k);
    proof {
        lemma2_to64();
        assert(first >= m);
    }
    let mut value: u64 = (first - m) as u64;
    let mut mask: u64 = (m - 1) as u64;
    let mut i: usize = 1;
    proof {
        lemma_be_value_step(input@, 0);
        assert(input@.subrange(0, 0).len() == 0);
        assert(be_value(input@.subrange(0, 0)) == 0);
        assert(be_value(input@.subrange(0, 1)) == first);
        assert(pow2(0) == 1);
        assert(value + m * pow2(0) == first);
    }
    while i < w
        invariant
            1 <= i <= w,
            w == k + 1,
            k < 8,
            w <= input@.len(),
            m as nat == pow2((7 - k) as nat),
            value + m * pow2((8 * (i - 1)) as nat) == be_value(input@.subrange(0, i as int)),
            value < pow2((7 - k + 8 * (i - 1)) as nat),
            mask + 1 == pow2((7 - k + 8 * (i - 1)) as nat),
        decreases w - i,
    {
        let ghost e = (7 - k + 8 * (i - 1)) as nat;
        let ghost p = pow2((8 * (i - 1)) as nat);
        proof {
            lemma_be_value_step(input@, i as int);
            lemma_shift_bound(value as nat, input[i as int], e);
            lemma_shift_bound(mask as nat, 255, e);
            lemma_pow2_adds((8 * (i - 1)) as nat, 8);
            lemma2_to64();
            lemma_pow2_strictly_increases(e + 8, 64);
            assert((value + m * p) * 256 + input[i as int] == (value * 256 + input[i as int]) + m * (p
                * 256)) by (nonlinear_arith);
        }
        value = value * 256 + input[i] as u64;
        mask = mask * 256 + 255;
        i = i + 1;
    }
    proof {
        let p7 = pow2((7 * w) as nat);
        lemma_pow2_adds((7 - k) as nat, (8 * k) as nat);
        assert((7 - k + 8 * k) as nat == (7 * w) as nat);
        lemma_small_mod(value as nat, p7);
        lemma_mod_multiples_vanish(1, value as int, p7 as int);
        assert(be_value(input@.subrange(0, w as int)) == value + p7);
    }
    if value == mask {
        return Ok((&input[w..input.len()], None));
    }
    if value > usize::MAX as u64 {
        return Err(Error::Overflow);
    }
    Ok((&input[w..input.len()], Some(value as usize)))
}

/// Decodes an element identifier at the start of `input`.
pub fn parse_id(input: &[u8]) -> (r: Result<(&[u8], Id), Error>)
    ensures
        match r {
            Ok((rest, id)) => {
                let n = (input@.len() - rest@.len()) as nat;
                &&& is_rest_after(input@, rest@, n)
                &&& id_spec(input@) == Ok::<(nat, Id), Error>((n, id))
            },
            Err(e) => id_spec(input@) == Err::<(nat, Id), Error>(e),
        },
{
    if input.len() == 0 {
        return Err(Error::NeedData);
    }
    let k = count_leading_zero_bits(input[0]);
    if k >= 4 {
        return Err(Error::InvalidId);
    }
    let w: usize = (k + 1) as usize;
    if input.len() < w {
        return Err(Error::NeedData);
    }
    let mut value: u32 = 0;
    let mut i: usize = 0;
    proof {
        lemma2_to64();
        assert(input@.subrange(0, 0).len() == 0);
    }
    while i < w
        invariant
            0 <= i <= w <= 4,
            w <= input@.len(),
            value == be_value(input@.subrange(0, i as int)),
            value < pow2((8 * i) as nat),
        decreases w - i,
    {
        proof {
            lemma_be_value_step(input@, i as int);
            lemma_shift_bound(value as nat, input[i as int], (8 * i) as nat);
            lemma2_to64();
            if 8 * i + 8 < 32 {
                lemma_pow2_strictly_increases((8 * i + 8) as nat, 32);
            }
        }
        value = value * 256 + input[i] as u32;
        i = i + 1;
    }
    Ok((&input[w..input.len()], Id::new(value)))
}

} // verus!

//! Variable-length integers: a value below 2^62 written on 1, 2, 4 or 8
//! bytes, big-endian, with the two highest bits of the first byte giving the
//! length.

use vstd::prelude::*;
use crate::buffers::{bytes_view, take_byte};

verus! {

/// The largest value that a variable-length integer can hold: 2^62 - 1.
pub const MAX_VARINT: u64 = 0x3fff_ffff_ffff_ffff;

/// 256 to the power `n`.
pub open spec fn pow256(n: nat) -> nat
    decreases n,
{
    if n == 0 {
        1
    } else {
        256 * pow256((n - 1) as nat)
    }
}

/// The `n` low-order bytes of `v`, most significant first.
pub open spec fn be_bytes(v: nat, n: nat) -> Seq<u8>
    decreases n,
{
    if n == 0 {
        Seq::empty()
    } else {
        be_bytes(v / 256, (n - 1) as nat).push((v % 256) as u8)
    }
}

/// The number that `s` spells, most significant byte first.
pub open spec fn be_value(s: Seq<u8>) -> nat
    decreases s.len(),
{
    if s.len() == 0 {
        0
    } else {
        be_value(s.drop_last()) * 256 + s.last() as nat
    }
}

/// The length in bytes that a two-bit tag announces.
pub open spec fn tag_len(tag: nat) -> nat {
    if tag == 0 {
        1
    } else if tag == 1 {
        2
    } else if tag == 2 {
        4
    } else {
        8
    }
}

/// The tag of the shortest form that holds `x`.
pub open spec fn varint_tag(x: nat) -> nat {
    if x < 0x40 {
        0
    } else if x < 0x4000 {
        1
    } else if x < 0x4000_0000 {
        2
    } else {
        3
    }
}

/// The number of bytes on which `x` is written.
pub open spec fn varint_len(x: nat) -> nat {
    tag_len(varint_tag(x))
}

/// The wire image of `x`: its big-endian bytes on `varint_len(x)` bytes, with
/// the tag in the two highest bits of the first.
pub open spec fn varint_encoding(x: nat) -> Seq<u8>
    recommends
        x <= MAX_VARINT,
{
    let body = be_bytes(x, varint_len(x));
    body.update(0, (body[0] + 64 * varint_tag(x)) as u8)
}

/// What the front of `s` decodes to: the value and the number of bytes it
/// took, or `None` where `s` is empty or ends before the announced length.
pub open spec fn varint_parse(s: Seq<u8>) -> Option<(nat, nat)> {
    if s.len() == 0 {
        None
    } else {
        let n = tag_len((s[0] / 64) as nat);
        if s.len() < n {
            None
        } else {
            Some((be_value(s.subrange(0, n as int).update(0, s[0] % 64)), n))
        }
    }
}

/// `be_bytes(v, n)` has `n` bytes.
pub proof fn lemma_be_bytes_len(v: nat, n: nat)
    ensures
        be_bytes(v, n).len() == n,
    decreases n,
{
    if n > 0 {
        lemma_be_bytes_len(v / 256, (n - 1) as nat);
    }
}

/// Reading back the `n` big-endian bytes of a number below 256^n gives the
/// number.
pub proof fn lemma_be_value_of_be_bytes(v: nat, n: nat)
    requires
        v < pow256(n),
    ensures
        be_value(be_bytes(v, n)) == v,
    decreases n,
{
    if n > 0 {
        let rest = be_bytes(v / 256, (n - 1) as nat);
        lemma_be_value_of_be_bytes(v / 256, (n - 1) as nat);
        assert(be_bytes(v, n).drop_last() =~= rest);
    }
}

/// The first of the `n` big-endian bytes of a number below 64 * 256^(n-1)
/// has its two highest bits clear.
pub proof fn lemma_be_bytes_first(v: nat, n: nat)
    requires
        n >= 1,
        v < 64 * pow256((n - 1) as nat),
    ensures
        be_bytes(v, n)[0] < 64,
    decreases n,
{
    lemma_be_bytes_len(v / 256, (n - 1) as nat);
    if n > 1 {
        lemma_be_bytes_first(v / 256, (n - 1) as nat);
    } else {
        assert(be_bytes(v / 256, 0).len() == 0);
    }
}

/// The powers of 256 that the four forms use.
pub proof fn lemma_pow256_values()
    ensures
        pow256(0) == 1,
        pow256(1) == 0x100,
        pow256(3) == 0x100_0000,
        pow256(7) == 0x100_0000_0000_0000,
{
    reveal_with_fuel(pow256, 9);
}

/// Decoding the wire image of `x`, whatever follows it, gives `x` and the
/// length of the image.
pub proof fn lemma_varint_round_trip(x: nat, tail: Seq<u8>)
    requires
        x <= MAX_VARINT,
    ensures
        varint_encoding(x).len() == varint_len(x),
        varint_parse(varint_encoding(x) + tail) == Some((x, varint_len(x))),
{
    let t = varint_tag(x);
    let n = varint_len(x);
    let body = be_bytes(x, n);
    let wire = varint_encoding(x) + tail;
    lemma_pow256_values();
    lemma_be_bytes_len(x, n);
    lemma_be_bytes_first(x, n);
    assert(pow256(n) == 256 * pow256((n - 1) as nat));
    lemma_be_value_of_be_bytes(x, n);
    assert(wire[0] == body[0] + 64 * t);
    assert(wire[0] / 64 == t);
    assert(wire[0] % 64 == body[0]);
    assert(wire.subrange(0, n as int).update(0, wire[0] % 64) =~= body);
}

/// Appends the `n` low-order bytes of `v`, most significant first.
fn push_be(buf: &mut Vec<u8>, v: u64, n: usize)
    ensures
        final(buf)@ == old(buf)@ + be_bytes(v as nat, n as nat),
    decreases n,
{
    if n > 0 {
        push_be(buf, v / 256, n - 1);
        buf.push((v % 256) as u8);
        assert(final(buf)@ =~= old(buf)@ + be_bytes(v as nat, n as nat));
    } else {
        assert(buf@ =~= old(buf)@ + be_bytes(v as nat, 0));
    }
}

/// Appends the wire image of `x` to `buf`.
pub fn encode_varint(x: u64, buf: &mut Vec<u8>)
    requires
        x <= MAX_VARINT,
    ensures
        final(buf)@ == old(buf)@ + varint_encoding(x as nat),
{
    let start: usize = buf.len();
    let (tag, n): (u8, usize) = if x < 0x40 {
        (0, 1)
    } else if x < 0x4000 {
        (1, 2)
    } else if x < 0x4000_0000 {
        (2, 4)
    } else {
        (3, 8)
    };
    push_be(buf, x, n);
    proof {
        lemma_pow256_values();
        lemma_be_bytes_len(x as nat, n as nat);
        lemma_be_bytes_first(x as nat, n as nat);
    }
    let first: u8 = buf[start];
    buf.set(start, first + 64 * tag);
    assert(buf@ =~= old(buf)@ + varint_encoding(x as nat));
}

/// Reads one variable-length integer from the front of `buf`.
///
/// On success the integer's bytes have left `buf`. An empty `buf` stays as it
/// is; one that ends before the announced length has lost its first byte.
pub fn decode_varint(buf: &mut bytes::Bytes) -> (r: Option<u64>)
    ensures
        match varint_parse(bytes_view(*old(buf))) {
            Some((x, n)) => r == Some(x as u64) && x <= MAX_VARINT && bytes_view(*final(buf))
                == bytes_view(*old(buf)).skip(n as int),
            None => r.is_none() && bytes_view(*final(buf)) == bytes_view(*old(buf)).skip(
                if bytes_view(*old(buf)).len() == 0 {
                    0int
                } else {
                    1int
                },
            ),
        },
{
    let ghost s = bytes_view(*buf);
    if buf.len() == 0 {
        assert(s.skip(0) =~= s);
        return None;
    }
    let b0: u8 = take_byte(buf);
    assert(bytes_view(*buf) =~= s.skip(1));
    let tag: u8 = b0 / 64;
    let n: usize = if tag == 0 {
        1
    } else if tag == 1 {
        2
    } else if tag == 2 {
        4
    } else {
        8
    };
    if buf.len() < n - 1 {
        return None;
    }
    let ghost digits = s.subrange(0, n as int).update(0, b0 % 64);
    let mut acc: u64 = (b0 % 64) as u64;
    let mut i: usize = 1;
    proof {
        lemma_pow256_values();
        let one = digits.subrange(0, 1);
        assert(one.drop_last().len() == 0);
        assert(be_value(one.drop_last()) == 0);
        assert(one.last() == b0 % 64);
        assert(be_value(one) == acc);
    }
    while i < n
        invariant
            1 <= i <= n <= 8,
            n <= s.len(),
            digits == s.subrange(0, n as int).update(0, b0 % 64),
            bytes_view(*buf) == s.skip(i as int),
            acc == be_value(digits.subrange(0, i as int)),
            acc < 64 * pow256((i - 1) as nat),
        decreases n - i,
    {
        proof {
            reveal_with_fuel(pow256, 9);
        }
        let b: u8 = take_byte(buf);
        proof {
            assert(bytes_view(*buf) =~= s.skip(i + 1));
            assert(digits.subrange(0, i + 1).drop_last() =~= digits.subrange(0, i as int));
            assert(pow256(i as nat) == 256 * pow256((i - 1) as nat));
        }
        acc = acc * 256 + b as u64;
        i = i + 1;
    }
    proof {
        assert(digits.subrange(0, n as int) =~= digits);
        reveal_with_fuel(pow256, 9);
    }
    Some(acc)
}

} // verus!

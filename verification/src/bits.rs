//! Byte-to-bit expansion, most-significant bit first.

use vstd::prelude::*;

verus! {

/// The eight bits of a byte, most-significant first.
pub open spec fn bits_of_byte(b: u8) -> Seq<bool> {
    seq![
        b & 0x80 != 0,
        b & 0x40 != 0,
        b & 0x20 != 0,
        b & 0x10 != 0,
        b & 0x08 != 0,
        b & 0x04 != 0,
        b & 0x02 != 0,
        b & 0x01 != 0,
    ]
}

/// The byte whose bits, most-significant first, are the eight given ones.
pub open spec fn byte_of_bits(s: Seq<bool>) -> u8
    recommends
        s.len() == 8,
{
    (if s[0] { 0x80u8 } else { 0u8 }) | (if s[1] { 0x40u8 } else { 0u8 })
        | (if s[2] { 0x20u8 } else { 0u8 }) | (if s[3] { 0x10u8 } else { 0u8 })
        | (if s[4] { 0x08u8 } else { 0u8 }) | (if s[5] { 0x04u8 } else { 0u8 })
        | (if s[6] { 0x02u8 } else { 0u8 }) | (if s[7] { 0x01u8 } else { 0u8 })
}

/// The bits of a byte sequence: each byte expanded most-significant bit
/// first, in the bytes' original order.
pub open spec fn bits_of_bytes(bs: Seq<u8>) -> Seq<bool>
    decreases bs.len(),
{
    if bs.len() == 0 {
        Seq::empty()
    } else {
        bits_of_bytes(bs.drop_last()) + bits_of_byte(bs.last())
    }
}

/// Bit expansion yields eight bits per byte.
pub proof fn lemma_bits_of_bytes_len(bs: Seq<u8>)
    ensures
        bits_of_bytes(bs).len() == 8 * bs.len(),
    decreases bs.len(),
{
    if bs.len() > 0 {
        lemma_bits_of_bytes_len(bs.drop_last());
    }
}

/// Reassembling the eight bits produced by bit expansion, most-significant
/// first, recovers the original byte exactly.
pub proof fn lemma_bits_round_trip(b: u8)
    ensures
        byte_of_bits(bits_of_byte(b)) == b,
{
    assert(((if b & 0x80 != 0 { 0x80u8 } else { 0u8 }) | (if b & 0x40 != 0 { 0x40u8 } else { 0u8 })
        | (if b & 0x20 != 0 { 0x20u8 } else { 0u8 }) | (if b & 0x10 != 0 { 0x10u8 } else { 0u8 })
        | (if b & 0x08 != 0 { 0x08u8 } else { 0u8 }) | (if b & 0x04 != 0 { 0x04u8 } else { 0u8 })
        | (if b & 0x02 != 0 { 0x02u8 } else { 0u8 }) | (if b & 0x01 != 0 { 0x01u8 } else { 0u8 }))
        == b) by (bit_vector);
}

/// Values that expand to their sequence of bits.
pub trait ToBits {
    /// The bit sequence this value stands for.
    spec fn spec_bits(&self) -> Seq<bool>;

    /// Expand to bits, most-significant bit first within each byte.
    fn to_bits(&self) -> (r: Vec<bool>)
        ensures
            r@ == self.spec_bits(),
    ;
}

impl ToBits for u8 {
    open spec fn spec_bits(&self) -> Seq<bool> {
        bits_of_byte(*self)
    }

    fn to_bits(&self) -> (r: Vec<bool>) {
        let b = *self;
        let mut r: Vec<bool> = Vec::new();
        r.push(b & 0x80 != 0);
        r.push(b & 0x40 != 0);
        r.push(b & 0x20 != 0);
        r.push(b & 0x10 != 0);
        r.push(b & 0x08 != 0);
        r.push(b & 0x04 != 0);
        r.push(b & 0x02 != 0);
        r.push(b & 0x01 != 0);
        proof {
            assert(r@ =~= bits_of_byte(b));
        }
        r
    }
}

impl ToBits for Vec<u8> {
    open spec fn spec_bits(&self) -> Seq<bool> {
        bits_of_bytes(self@)
    }

    fn to_bits(&self) -> (r: Vec<bool>) {
        let mut r: Vec<bool> = Vec::new();
        let mut i: usize = 0;
        while i < self.len()
            invariant
                i <= self@.len(),
                r@ == bits_of_bytes(self@.take(i as int)),
            decreases self@.len() - i,
        {
            let mut bits = self[i].to_bits();
            r.append(&mut bits);
            proof {
                assert(self@.take(i + 1 as int).drop_last() =~= self@.take(i as int));
                assert(self@.take(i + 1 as int).last() == self@[i as int]);
            }
            i = i + 1;
        }
        proof {
            assert(self@.take(self@.len() as int) =~= self@);
        }
        r
    }
}

} // verus!

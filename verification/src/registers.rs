//! The register-file model: 26 slots of 32 bits each, with the exact wire
//! layout the protocol engine expects for this architecture.
//!
//! Slots 0-12 are the general-purpose registers R0-R12, slot 13 the stack
//! pointer, slot 14 the link register, slot 15 the program counter and
//! slot 25 the status register XPSR.  Slots 16-23 are described to the
//! protocol engine as 96-bit registers for which this target stores no
//! value: serialization emits 8 zero bytes of padding after each of their
//! 4 data bytes, and deserialization does not expect the padding back.

use vstd::prelude::*;

verus! {

broadcast use vstd::array::group_array_axioms;

/// The complete register state of one execution context.
#[derive(Debug, Clone, PartialEq)]
pub struct GuestState {
    pub regs: [u32; 26],
}

impl Default for GuestState {
    /// A zero-filled register file.
    fn default() -> (r: Self)
        ensures
            r.regs@ == Seq::new(26, |i: int| 0u32),
    {
        GuestState { regs: [0u32; 26] }
    }
}

/// The four bytes of `w` in little-endian order.
pub open spec fn word_le(w: u32) -> Seq<u8> {
    seq![
        (w & 0xff) as u8,
        ((w >> 8) & 0xff) as u8,
        ((w >> 16) & 0xff) as u8,
        ((w >> 24) & 0xff) as u8,
    ]
}

/// Whether slot `i` is one of the padded 96-bit slots.
pub open spec fn is_padded_slot(i: int) -> bool {
    16 <= i < 24
}

/// The bytes slot `i` contributes to the wire form: its value in
/// little-endian order, followed by 8 zero bytes if the slot is padded.
pub open spec fn slot_bytes(w: u32, i: int) -> Seq<u8> {
    if is_padded_slot(i) {
        word_le(w) + seq![0u8, 0u8, 0u8, 0u8, 0u8, 0u8, 0u8, 0u8]
    } else {
        word_le(w)
    }
}

/// Wire bytes of the first `n` slots of `regs`.
pub open spec fn serial_prefix(regs: Seq<u32>, n: int) -> Seq<u8>
    decreases n,
{
    if n <= 0 {
        Seq::empty()
    } else {
        serial_prefix(regs, n - 1) + slot_bytes(regs[n - 1], n - 1)
    }
}

/// The full wire form of a register file.
pub open spec fn spec_serialize(regs: Seq<u32>) -> Seq<u8> {
    serial_prefix(regs, 26)
}

/// Byte offset at which slot `n`'s data bytes start in the wire form;
/// equally, the length of the wire form of the first `n` slots.
pub open spec fn slot_offset(n: int) -> int {
    4 * n + 8 * (if n <= 16 {
        0int
    } else if n < 24 {
        n - 16
    } else {
        8int
    })
}

proof fn lemma_serial_prefix_len(regs: Seq<u32>, n: int)
    requires
        0 <= n,
    ensures
        serial_prefix(regs, n).len() == slot_offset(n),
    decreases n,
{
    if n > 0 {
        lemma_serial_prefix_len(regs, n - 1);
    }
}

/// The serialized register file is always exactly 168 bytes long.
pub proof fn lemma_serialize_len(regs: Seq<u32>)
    ensures
        spec_serialize(regs).len() == 168,
{
    lemma_serial_prefix_len(regs, 26);
}

/// The 32-bit value encoded by four bytes in little-endian order.
pub open spec fn le_word(b0: u8, b1: u8, b2: u8, b3: u8) -> u32 {
    (b0 + b1 * 0x100 + b2 * 0x10000 + b3 * 0x1000000) as u32
}

/// The word stored little-endian in the `i`-th 4-byte chunk of `bytes`.
pub open spec fn word_at(bytes: Seq<u8>, i: int) -> u32 {
    le_word(bytes[4 * i], bytes[4 * i + 1], bytes[4 * i + 2], bytes[4 * i + 3])
}

/// Decoding the little-endian bytes of a word gives the word back.
pub proof fn lemma_le_word_inverse(w: u32)
    ensures
        le_word(
            (w & 0xff) as u8,
            ((w >> 8) & 0xff) as u8,
            ((w >> 16) & 0xff) as u8,
            ((w >> 24) & 0xff) as u8,
        ) == w,
{
    assert(w & 0xff < 0x100 && (w >> 8) & 0xff < 0x100 && (w >> 16) & 0xff < 0x100 && (w >> 24)
        & 0xff < 0x100) by (bit_vector);
    assert((w & 0xff) + ((w >> 8) & 0xff) * 0x100 + ((w >> 16) & 0xff) * 0x10000 + ((w >> 24)
        & 0xff) * 0x1000000 == w) by (bit_vector);
}

proof fn lemma_serial_prefix_slot(regs: Seq<u32>, n: int, i: int)
    requires
        0 <= i < n <= 26,
    ensures
        serial_prefix(regs, n).subrange(slot_offset(i), slot_offset(i + 1)) == slot_bytes(
            regs[i],
            i,
        ),
    decreases n,
{
    lemma_serial_prefix_len(regs, n);
    lemma_serial_prefix_len(regs, n - 1);
    if i == n - 1 {
        assert(serial_prefix(regs, n).subrange(slot_offset(i), slot_offset(i + 1)) =~= slot_bytes(
            regs[i],
            i,
        ));
    } else {
        lemma_serial_prefix_slot(regs, n - 1, i);
        assert(serial_prefix(regs, n).subrange(slot_offset(i), slot_offset(i + 1))
            =~= serial_prefix(regs, n - 1).subrange(slot_offset(i), slot_offset(i + 1)));
    }
}

/// Round trip between the wire form and the chunk decoding that
/// deserialization performs, over the first 104 bytes.
///
/// Because serialization inserts 8 padding bytes after each of slots 16
/// through 23 while deserialization reads plain 4-byte chunks, only the
/// chunks for slots 0 through 16 land back where they started; that much
/// holds for every register file.  A register file whose slots 17 through
/// 25 are all zero comes back in full, since its data chunks and the
/// padding chunks alike decode to zero.
pub proof fn lemma_serialize_round_trip(regs: Seq<u32>)
    requires
        regs.len() == 26,
    ensures
        spec_serialize(regs).len() == 168,
        forall|c: int|
            0 <= c <= 16 ==> word_at(#[trigger] spec_serialize(regs).take(104), c) == regs[c],
        (forall|i: int| 17 <= i < 26 ==> regs[i] == 0) ==> forall|c: int|
            0 <= c < 26 ==> word_at(#[trigger] spec_serialize(regs).take(104), c) == regs[c],
{
    let s = spec_serialize(regs);
    lemma_serialize_len(regs);
    let t = s.take(104);
    assert forall|i: int| 0 <= i < 26 implies s.subrange(
        slot_offset(i),
        slot_offset(i + 1),
    ) == slot_bytes(regs[i], i) by {
        lemma_serial_prefix_slot(regs, 26, i);
    };
    assert forall|c: int| 0 <= c <= 16 implies word_at(t, c) == regs[c] by {
        let sb = slot_bytes(regs[c], c);
        assert(s.subrange(slot_offset(c), slot_offset(c + 1)) == sb);
        assert(t[4 * c] == sb[0] && t[4 * c + 1] == sb[1] && t[4 * c + 2] == sb[2] && t[4 * c + 3]
            == sb[3]);
        lemma_le_word_inverse(regs[c]);
    };
    if forall|i: int| 17 <= i < 26 ==> regs[i] == 0 {
        assert(word_le(0) =~= seq![0u8, 0u8, 0u8, 0u8]) by {
            assert(0u32 & 0xff == 0 && (0u32 >> 8) & 0xff == 0 && (0u32 >> 16) & 0xff == 0 && (0u32
                >> 24) & 0xff == 0) by (bit_vector);
        }
        assert forall|c: int| 17 <= c < 26 implies word_at(t, c) == regs[c] by {
            let slot = if c < 19 {
                16int
            } else if c < 22 {
                17int
            } else if c < 25 {
                18int
            } else {
                19int
            };
            let sb = slot_bytes(regs[slot], slot);
            assert(s.subrange(slot_offset(slot), slot_offset(slot + 1)) == sb);
            let base = slot_offset(slot);
            assert(t[4 * c] == sb[4 * c - base] && t[4 * c + 1] == sb[4 * c + 1 - base] && t[4 * c
                + 2] == sb[4 * c + 2 - base] && t[4 * c + 3] == sb[4 * c + 3 - base]);
            if slot >= 17 {
                assert(regs[slot] == 0);
            }
            assert(regs[c] == 0);
            assert(word_at(t, c) == 0);
        };
    }
}

/// Appends the four little-endian bytes of `w` to `out`.
fn push_word_le(out: &mut Vec<u8>, w: u32)
    ensures
        final(out)@ == old(out)@ + word_le(w),
{
    proof {
        assert(w & 0xff < 0x100 && (w >> 8) & 0xff < 0x100 && (w >> 16) & 0xff < 0x100 && (w >> 24)
            & 0xff < 0x100) by (bit_vector);
    }
    out.push((w & 0xff) as u8);
    out.push(((w >> 8) & 0xff) as u8);
    out.push(((w >> 16) & 0xff) as u8);
    out.push(((w >> 24) & 0xff) as u8);
    proof {
        assert(final(out)@ =~= old(out)@ + word_le(w));
    }
}

impl GuestState {
    /// The program counter: slot 15, verbatim.
    pub fn pc(&self) -> (r: u32)
        ensures
            r == self.regs@[15],
    {
        self.regs[15]
    }

    /// Serializes the register file into its 168-byte wire form: for each
    /// slot in index order, 4 little-endian bytes, with 8 zero padding
    /// bytes after each of slots 16 through 23.
    pub fn gdb_serialize(&self) -> (out: Vec<u8>)
        ensures
            out@ == spec_serialize(self.regs@),
            out@.len() == 168,
    {
        let mut out: Vec<u8> = Vec::new();
        let mut num: usize = 0;
        while num < 26
            invariant
                num <= 26,
                out@ == serial_prefix(self.regs@, num as int),
            decreases 26 - num,
        {
            push_word_le(&mut out, self.regs[num]);
            if 16 <= num && num < 24 {
                let mut pad: usize = 0;
                while pad < 8
                    invariant
                        pad <= 8,
                        out@ == serial_prefix(self.regs@, num as int) + word_le(self.regs@[num as int])
                            + Seq::new(pad as nat, |j: int| 0u8),
                    decreases 8 - pad,
                {
                    out.push(0u8);
                    proof {
                        assert(out@ =~= serial_prefix(self.regs@, num as int) + word_le(
                            self.regs@[num as int],
                        ) + Seq::new((pad + 1) as nat, |j: int| 0u8));
                    }
                    pad += 1;
                }
            }
            proof {
                assert(out@ =~= serial_prefix(self.regs@, num as int + 1));
            }
            num += 1;
        }
        proof {
            lemma_serialize_len(self.regs@);
        }
        out
    }

    /// Fills the register file from a serialized byte sequence: 4-byte
    /// little-endian chunks assigned to slots 0 through 25 in order.
    ///
    /// Fails if the length is not a multiple of 4 (before any slot is
    /// assigned) or if fewer than 26 chunks are present (after the
    /// available chunks have been assigned).  The wire form's 96-bit
    /// padding is not expected back: exactly 104 bytes of genuine
    /// register data make a complete input.
    pub fn gdb_deserialize(&mut self, bytes: &[u8]) -> (r: Result<(), ()>)
        ensures
            r is Ok <==> (bytes@.len() % 4 == 0 && bytes@.len() >= 104),
            bytes@.len() % 4 != 0 ==> final(self).regs@ == old(self).regs@,
            bytes@.len() % 4 == 0 ==> ({
                let assigned = if bytes@.len() >= 104 {
                    26int
                } else {
                    bytes@.len() as int / 4
                };
                &&& forall|j: int|
                    0 <= j < assigned ==> final(self).regs@[j] == word_at(bytes@, j)
                &&& forall|j: int|
                    assigned <= j < 26 ==> final(self).regs@[j] == old(self).regs@[j]
            }),
    {
        if bytes.len() % 4 != 0 {
            return Err(());
        }
        let ghost orig = self.regs@;
        let mut i: usize = 0;
        while i < 26
            invariant
                i <= 26,
                bytes@.len() % 4 == 0,
                4 * i <= bytes@.len(),
                self.regs@.len() == 26,
                old(self).regs@ == orig,
                orig.len() == 26,
                forall|j: int| 0 <= j < i ==> self.regs@[j] == word_at(bytes@, j),
                forall|j: int| i <= j < 26 ==> self.regs@[j] == orig[j],
            decreases 26 - i,
        {
            if 4 * i + 4 > bytes.len() {
                proof {
                    assert(bytes@.len() as int == 4 * (i as int) && bytes@.len() as int / 4
                        == i as int) by (nonlinear_arith)
                        requires
                            bytes@.len() % 4 == 0,
                            4 * i <= bytes@.len() < 4 * i + 4,
                    ;
                }
                return Err(());
            }
            let b0 = bytes[4 * i];
            let b1 = bytes[4 * i + 1];
            let b2 = bytes[4 * i + 2];
            let b3 = bytes[4 * i + 3];
            let w: u32 = (b0 as u32) + (b1 as u32) * 0x100 + (b2 as u32) * 0x10000 + (b3 as u32)
                * 0x1000000;
            self.regs[i] = w;
            i += 1;
        }
        Ok(())
    }
}

} // verus!

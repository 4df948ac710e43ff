//! A bit-addressable buffer with a read/write cursor.
//!
//! The buffer packs eight bits to a byte, most significant bit first. Its view
//! is the sequence of its bits together with the cursor; contracts are stated
//! over that view and the vocabulary of [`crate::bits`].

use crate::bits::bits_of;
use crate::bits::lemma_bits_of_len;
use crate::bits::lemma_value_of_bound;
use crate::bits::overwrite;
use crate::bits::take_bits;
use crate::bits::value_of;
use vstd::arithmetic::power2::lemma2_to64;
use vstd::arithmetic::power2::lemma2_to64_rest;
use vstd::arithmetic::power2::lemma_pow2_strictly_increases;
use vstd::prelude::*;

verus! {

/// The length, in bits, beyond which an auto-expanding buffer does not grow: the
/// longest TL-SDU that the basic link carries.
pub const MAX_AUTOEXPAND_BITS: usize = 2595;

/// Why a write was refused.
#[derive(Clone, Copy, Debug, PartialEq, Eq, Structural)]
pub enum EncodeErr {
    /// A fixed-size buffer has too few bits left after the cursor.
    NoSpace,
    /// An auto-expanding buffer would have to grow beyond `MAX_AUTOEXPAND_BITS`.
    LengthOverflow,
}

/// Bit `k` of a byte, counted from the most significant one.
pub open spec fn bit_at(byte: u8, k: int) -> bool {
    byte & (0x80u8 >> (k as u8)) != 0
}

/// The character that stands for a bit in a binary dump.
pub open spec fn bit_char(b: bool) -> char {
    if b {
        '1'
    } else {
        '0'
    }
}

proof fn lemma_bit_update(byte: u8, k: u8, j: u8, b: bool)
    requires
        k < 8,
        j < 8,
    ensures
        bit_at(
            if b {
                byte | (0x80u8 >> k)
            } else {
                byte & !(0x80u8 >> k)
            },
            j as int,
        ) == if j == k {
            b
        } else {
            bit_at(byte, j as int)
        },
{
    assert(((byte | (0x80u8 >> k)) & (0x80u8 >> j) != 0) == (j == k || (byte & (0x80u8 >> j)
        != 0))) by (bit_vector)
        requires
            k < 8,
            j < 8,
    ;
    assert(((byte & !(0x80u8 >> k)) & (0x80u8 >> j) != 0) == (j != k && (byte & (0x80u8 >> j)
        != 0))) by (bit_vector)
        requires
            k < 8,
            j < 8,
    ;
}

proof fn lemma_zero_byte(j: u8)
    requires
        j < 8,
    ensures
        !bit_at(0u8, j as int),
{
    assert((0u8 & (0x80u8 >> j)) == 0) by (bit_vector);
}

/// A bit-addressable, byte-backed buffer with a cursor. A fixed-size buffer
/// refuses writes past its end; an auto-expanding one grows, up to
/// `MAX_AUTOEXPAND_BITS`.
#[derive(Debug)]
pub struct BitBuffer {
    buffer: Vec<u8>,
    end: usize,
    pos: usize,
    autoexpand: bool,
}

impl BitBuffer {
    #[verifier::type_invariant]
    spec fn inv(self) -> bool {
        &&& self.end <= self.buffer.len() * 8
        &&& self.pos <= self.end
        &&& self.autoexpand ==> self.end <= MAX_AUTOEXPAND_BITS
    }

    /// The bits the buffer holds, first bit first.
    pub closed spec fn bits(&self) -> Seq<bool> {
        Seq::new(self.end as nat, |i: int| bit_at(self.buffer@[i / 8], i % 8))
    }

    /// The cursor: the index of the next bit to read or write.
    pub closed spec fn cursor(&self) -> int {
        if self.pos <= self.end {
            self.pos as int
        } else {
            self.end as int
        }
    }

    /// Whether the buffer grows when written past its end.
    pub closed spec fn expands(&self) -> bool {
        self.autoexpand
    }

    /// The bits from the cursor to the end.
    pub open spec fn remaining(&self) -> Seq<bool> {
        self.bits().skip(self.cursor())
    }

    /// The number of bits that can still be written at the cursor.
    pub open spec fn room(&self) -> int {
        if self.expands() {
            MAX_AUTOEXPAND_BITS - self.cursor()
        } else {
            self.bits().len() - self.cursor()
        }
    }

    /// The refusal that a write gets which finds too little room.
    pub open spec fn refusal(&self) -> EncodeErr {
        if self.expands() {
            EncodeErr::LengthOverflow
        } else {
            EncodeErr::NoSpace
        }
    }

    /// The cursor lies within the buffer.
    pub proof fn lemma_cursor_in_bounds(&self)
        ensures
            0 <= self.cursor() <= self.bits().len(),
    {
    }

    /// As many zero bytes as hold `len_bits` bits.
    fn zeroed(len_bits: usize) -> (buffer: Vec<u8>)
        ensures
            len_bits <= buffer.len() * 8,
            forall|j: int| 0 <= j < buffer.len() ==> buffer@[j] == 0u8,
    {
        let n_bytes = len_bits / 8 + if len_bits % 8 == 0 {
            0
        } else {
            1
        };
        let mut buffer: Vec<u8> = Vec::new();
        let mut i: usize = 0;
        while i < n_bytes
            invariant
                i <= n_bytes,
                buffer.len() == i,
                forall|j: int| 0 <= j < i ==> buffer@[j] == 0u8,
            decreases n_bytes - i,
        {
            buffer.push(0u8);
            i = i + 1;
        }
        buffer
    }

    /// A zeroed buffer of `len_bits` bits that does not grow, cursor at the start.
    pub fn new(len_bits: usize) -> (b: BitBuffer)
        ensures
            b.bits() == Seq::new(len_bits as nat, |i: int| false),
            b.cursor() == 0,
            !b.expands(),
    {
        let buffer = BitBuffer::zeroed(len_bits);
        let b = BitBuffer { buffer, end: len_bits, pos: 0, autoexpand: false };
        proof {
            assert forall|j: int| 0 <= j < len_bits implies !bit_at(
                #[trigger] b.buffer@[j / 8],
                j % 8,
            ) by {
                lemma_zero_byte((j % 8) as u8);
            }
            assert(b.bits() =~= Seq::new(len_bits as nat, |i: int| false));
        }
        b
    }

    /// An empty buffer that grows as it is written, cursor at the start.
    /// `len_hint_bits` is the length the caller expects to write: room for that
    /// much is made at once, and more when it is needed.
    pub fn new_autoexpand(len_hint_bits: usize) -> (b: BitBuffer)
        ensures
            b.bits() == Seq::<bool>::empty(),
            b.cursor() == 0,
            b.expands(),
    {
        let room = if len_hint_bits < MAX_AUTOEXPAND_BITS {
            len_hint_bits
        } else {
            MAX_AUTOEXPAND_BITS
        };
        let buffer = BitBuffer::zeroed(room);
        let b = BitBuffer { buffer, end: 0, pos: 0, autoexpand: true };
        assert(b.bits() =~= Seq::<bool>::empty());
        b
    }

    /// A fixed-size buffer with one bit per character of `s`: a `'1'` is a set
    /// bit, any other character a clear one. The cursor is at the start.
    pub fn from_bitstr(s: &str) -> (b: BitBuffer)
        ensures
            b.bits() == s@.map_values(|c: char| c == '1'),
            b.cursor() == 0,
            !b.expands(),
    {
        let n = s.unicode_len();
        let mut b = BitBuffer::new(n);
        let mut i: usize = 0;
        while i < n
            invariant
                i <= n,
                n == s@.len(),
                b.bits().len() == n,
                b.cursor() == 0,
                !b.expands(),
                forall|j: int| 0 <= j < i ==> b.bits()[j] == (s@[j] == '1'),
            decreases n - i,
        {
            let c = s.get_char(i);
            b.set_bit(i, c == '1');
            i = i + 1;
        }
        assert(b.bits() =~= s@.map_values(|c: char| c == '1'));
        b
    }

    /// The number of bits in the buffer.
    pub fn get_len(&self) -> (n: usize)
        ensures
            n == self.bits().len(),
    {
        self.end
    }

    /// The cursor.
    pub fn get_pos(&self) -> (p: usize)
        ensures
            p == self.cursor(),
            p <= self.bits().len(),
    {
        proof {
            use_type_invariant(self);
        }
        self.pos
    }

    /// The number of bits between the cursor and the end.
    pub fn get_len_remaining(&self) -> (n: usize)
        ensures
            n == self.remaining().len(),
            n == self.bits().len() - self.cursor(),
    {
        proof {
            use_type_invariant(self);
        }
        self.end - self.pos
    }

    /// Whether the buffer grows when written past its end.
    pub fn is_autoexpand(&self) -> (b: bool)
        ensures
            b == self.expands(),
    {
        self.autoexpand
    }

    /// Moves the cursor to `pos`.
    pub fn seek(&mut self, pos: usize)
        requires
            pos <= old(self).bits().len(),
        ensures
            final(self).bits() == old(self).bits(),
            final(self).cursor() == pos,
            final(self).expands() == old(self).expands(),
    {
        proof {
            use_type_invariant(&*self);
        }
        self.pos = pos;
    }

    fn get_bit(&self, i: usize) -> (b: bool)
        requires
            i < self.bits().len(),
        ensures
            b == self.bits()[i as int],
    {
        proof {
            use_type_invariant(self);
        }
        let byte = self.buffer[i / 8];
        let mask: u8 = 0x80u8 >> ((i % 8) as u8);
        byte & mask != 0
    }

    fn set_bit(&mut self, i: usize, b: bool)
        requires
            i < old(self).bits().len(),
        ensures
            final(self).bits() == old(self).bits().update(i as int, b),
            final(self).cursor() == old(self).cursor(),
            final(self).expands() == old(self).expands(),
            final(self).capacity() == old(self).capacity(),
    {
        proof {
            use_type_invariant(&*self);
        }
        let idx = i / 8;
        let k: u8 = (i % 8) as u8;
        let mask: u8 = 0x80u8 >> k;
        let byte = self.buffer[idx];
        let nb: u8 = if b {
            byte | mask
        } else {
            byte & !mask
        };
        self.buffer[idx] = nb;
        proof {
            assert forall|j: int| 0 <= j < self.end implies bit_at(
                #[trigger] self.buffer@[j / 8],
                j % 8,
            ) == old(self).bits().update(i as int, b)[j] by {
                if j / 8 == idx as int {
                    lemma_bit_update(byte, k, (j % 8) as u8, b);
                }
            }
            assert(self.bits() =~= old(self).bits().update(i as int, b));
        }
    }

    /// The number of bits that the bytes of the buffer have room for.
    closed spec fn capacity(&self) -> int {
        self.buffer.len() * 8
    }

    /// Makes room for `new_end` bits. What the buffer holds stays as it is.
    fn reserve(&mut self, new_end: usize)
        requires
            new_end <= MAX_AUTOEXPAND_BITS,
        ensures
            final(self).bits() == old(self).bits(),
            final(self).cursor() == old(self).cursor(),
            final(self).expands() == old(self).expands(),
            new_end <= final(self).capacity(),
    {
        proof {
            use_type_invariant(&*self);
        }
        if new_end / 8 < self.buffer.len() {
            return ;
        }
        // The bytes are taken out of the buffer, which is empty meanwhile, made
        // longer, and put back.
        let end = self.end;
        let pos = self.pos;
        self.pos = 0;
        self.end = 0;
        let mut bytes: Vec<u8> = Vec::new();
        std::mem::swap(&mut self.buffer, &mut bytes);
        while bytes.len() <= new_end / 8
            invariant
                new_end <= MAX_AUTOEXPAND_BITS,
                old(self).buffer@.len() <= bytes@.len(),
                bytes@.take(old(self).buffer@.len() as int) == old(self).buffer@,
            decreases new_end / 8 + 1 - bytes.len(),
        {
            bytes.push(0u8);
            assert(bytes@.take(old(self).buffer@.len() as int) =~= old(self).buffer@);
        }
        std::mem::swap(&mut self.buffer, &mut bytes);
        self.end = end;
        self.pos = pos;
        proof {
            assert forall|j: int| 0 <= j < self.end implies bit_at(
                #[trigger] self.buffer@[j / 8],
                j % 8,
            ) == old(self).bits()[j] by {
                assert(self.buffer@[j / 8] == self.buffer@.take(old(self).buffer@.len() as int)[j
                    / 8]);
            }
            assert(self.bits() =~= old(self).bits());
        }
    }

    /// Appends clear bits until the buffer holds `new_end` bits.
    fn grow_to(&mut self, new_end: usize)
        requires
            old(self).expands(),
            new_end <= MAX_AUTOEXPAND_BITS,
            new_end <= old(self).capacity(),
        ensures
            final(self).bits() == old(self).bits() + Seq::new(
                (final(self).bits().len() - old(self).bits().len()) as nat,
                |i: int| false,
            ),
            final(self).bits().len() == if new_end >= old(self).bits().len() {
                new_end as nat
            } else {
                old(self).bits().len()
            },
            final(self).cursor() == old(self).cursor(),
            final(self).expands(),
    {
        assert(self.bits() =~= old(self).bits() + Seq::new(0, |i: int| false));
        while self.end < new_end
            invariant
                self.expands(),
                new_end <= MAX_AUTOEXPAND_BITS,
                new_end <= self.capacity(),
                old(self).bits().len() <= self.bits().len(),
                self.bits().len() <= new_end || self.bits().len() == old(self).bits().len(),
                self.bits() == old(self).bits() + Seq::new(
                    (self.bits().len() - old(self).bits().len()) as nat,
                    |i: int| false,
                ),
                self.cursor() == old(self).cursor(),
            decreases new_end - self.end,
        {
            proof {
                use_type_invariant(&*self);
            }
            let ghost before = self.bits();
            self.end = self.end + 1;
            proof {
                assert forall|j: int| 0 <= j < before.len() implies self.bits()[j]
                    == before[j] by {}
                assert(self.bits().take(before.len() as int) =~= before);
            }
            let last = self.end - 1;
            self.set_bit(last, false);
            assert(self.bits() =~= before.push(false));
            assert(self.bits() =~= old(self).bits() + Seq::new(
                (self.bits().len() - old(self).bits().len()) as nat,
                |i: int| false,
            ));
        }
    }

    /// Writes the `n` low bits of `value` at the cursor, where the buffer is
    /// known to be long enough.
    fn put_bits(&mut self, value: u64, n: usize)
        requires
            n <= 64,
            old(self).cursor() + n <= old(self).bits().len(),
        ensures
            final(self).bits() == overwrite(
                old(self).bits(),
                old(self).cursor(),
                bits_of(value as nat, n as nat),
            ),
            final(self).bits().len() == old(self).bits().len(),
            final(self).cursor() == old(self).cursor() + n,
            final(self).expands() == old(self).expands(),
        decreases n,
    {
        proof {
            use_type_invariant(&*self);
            lemma_bits_of_len(value as nat, n as nat);
        }
        if n == 0 {
            assert(self.bits() =~= overwrite(
                old(self).bits(),
                old(self).cursor(),
                bits_of(value as nat, n as nat),
            ));
        } else {
            self.put_bits(value / 2, n - 1);
            proof {
                use_type_invariant(&*self);
                lemma_bits_of_len((value / 2) as nat, (n - 1) as nat);
            }
            let p = self.pos;
            assert(p == old(self).cursor() + n - 1);
            self.set_bit(p, value % 2 == 1);
            proof {
                use_type_invariant(&*self);
                assert(self.end == self.bits().len());
            }
            self.pos = p + 1;
            assert(self.bits() =~= overwrite(
                old(self).bits(),
                old(self).cursor(),
                bits_of(value as nat, n as nat),
            ));
        }
    }

    /// Reads the `n` bits at the cursor as a number, most significant bit first,
    /// without moving the cursor. `None` where fewer than `n` bits are left.
    pub fn peek_bits(&self, n: usize) -> (r: Option<u64>)
        requires
            n <= 64,
        ensures
            match take_bits(self.remaining(), n as nat) {
                Some((v, _)) => r == Some(v as u64) && v <= u64::MAX,
                None => r is None,
            },
            r is Some <==> n <= self.remaining().len(),
    {
        proof {
            use_type_invariant(self);
        }
        if n > self.end - self.pos {
            return None;
        }
        let mut acc: u64 = 0;
        let mut i: usize = 0;
        while i < n
            invariant
                i <= n <= 64,
                self.pos + n <= self.end,
                self.end == self.bits().len(),
                acc == value_of(self.bits().subrange(self.pos as int, self.pos + i)),
            decreases n - i,
        {
            let ghost s0 = self.bits().subrange(self.pos as int, self.pos + i);
            let ghost s1 = self.bits().subrange(self.pos as int, self.pos + i + 1);
            proof {
                lemma_value_of_bound(s0);
                lemma2_to64();
                lemma2_to64_rest();
                if i < 63 {
                    lemma_pow2_strictly_increases(i as nat, 63);
                }
                assert(s1.drop_last() =~= s0);
            }
            let b = self.get_bit(self.pos + i);
            acc = acc * 2 + if b {
                1
            } else {
                0
            };
            i = i + 1;
        }
        proof {
            assert(self.remaining().take(n as int) =~= self.bits().subrange(
                self.pos as int,
                self.pos + n,
            ));
        }
        Some(acc)
    }

    /// Reads the `n` bits at the cursor as a number and moves the cursor past
    /// them. `None`, and the cursor stays, where fewer than `n` bits are left.
    pub fn read_bits(&mut self, n: usize) -> (r: Option<u64>)
        requires
            n <= 64,
        ensures
            final(self).bits() == old(self).bits(),
            final(self).expands() == old(self).expands(),
            match take_bits(old(self).remaining(), n as nat) {
                Some((v, rest)) => r == Some(v as u64) && v <= u64::MAX && final(self).remaining()
                    == rest && final(self).cursor() == old(self).cursor() + n,
                None => r is None && final(self).cursor() == old(self).cursor(),
            },
            r is Some <==> n <= old(self).remaining().len(),
    {
        let r = self.peek_bits(n);
        if r.is_some() {
            proof {
                use_type_invariant(&*self);
            }
            self.pos = self.pos + n;
            assert(self.remaining() =~= old(self).remaining().skip(n as int));
        }
        r
    }

    /// Writes the `n` low bits of `value` at the cursor, most significant of
    /// them first, and moves the cursor past them. A fixed-size buffer with fewer
    /// than `n` bits left refuses with `NoSpace`; an auto-expanding one grows as
    /// needed and refuses with `LengthOverflow` only where it would have to grow
    /// beyond `MAX_AUTOEXPAND_BITS`. A refused write changes nothing.
    pub fn write_bits(&mut self, value: u64, n: usize) -> (r: Result<(), EncodeErr>)
        requires
            n <= 64,
        ensures
            final(self).expands() == old(self).expands(),
            match r {
                Ok(_) => final(self).bits() == overwrite(
                    old(self).bits(),
                    old(self).cursor(),
                    bits_of(value as nat, n as nat),
                ) && final(self).cursor() == old(self).cursor() + n,
                Err(e) => final(self).bits() == old(self).bits() && final(self).cursor() == old(
                    self,
                ).cursor() && e == old(self).refusal(),
            },
            r is Err <==> n > old(self).room(),
    {
        proof {
            use_type_invariant(&*self);
            lemma_bits_of_len(value as nat, n as nat);
        }
        if self.autoexpand {
            if n > MAX_AUTOEXPAND_BITS - self.pos {
                return Err(EncodeErr::LengthOverflow);
            }
            let target = self.pos + n;
            self.reserve(target);
            self.grow_to(target);
            let ghost grown = self.bits();
            self.put_bits(value, n);
            assert(self.bits() =~= overwrite(
                old(self).bits(),
                old(self).cursor(),
                bits_of(value as nat, n as nat),
            ));
            Ok(())
        } else {
            if n > self.end - self.pos {
                return Err(EncodeErr::NoSpace);
            }
            self.put_bits(value, n);
            Ok(())
        }
    }

    /// Whether `n` more bits can be written at the cursor, and the refusal that
    /// a write would get where they cannot.
    pub fn check_room(&self, n: usize) -> (r: Result<(), EncodeErr>)
        ensures
            r is Ok <==> n <= self.room(),
            r matches Err(e) ==> e == self.refusal(),
    {
        proof {
            use_type_invariant(self);
        }
        if self.autoexpand {
            if n > MAX_AUTOEXPAND_BITS - self.pos {
                return Err(EncodeErr::LengthOverflow);
            }
        } else {
            if n > self.end - self.pos {
                return Err(EncodeErr::NoSpace);
            }
        }
        Ok(())
    }

    /// The bits of the buffer as a string of `'0'` and `'1'`, first bit first.
    pub fn dump_bin(&self) -> (s: String)
        ensures
            s@ == self.bits().map_values(|b: bool| bit_char(b)),
    {
        let mut s = String::new();
        let mut i: usize = 0;
        proof {
            reveal_strlit("1");
            reveal_strlit("0");
        }
        while i < self.end
            invariant
                i <= self.end,
                self.end == self.bits().len(),
                s@ == self.bits().take(i as int).map_values(|b: bool| bit_char(b)),
                "1"@ == seq!['1'],
                "0"@ == seq!['0'],
            decreases self.end - i,
        {
            let b = self.get_bit(i);
            let ghost before = s@;
            if b {
                s.append("1");
            } else {
                s.append("0");
            }
            i = i + 1;
            assert(s@ =~= self.bits().take(i as int).map_values(|b: bool| bit_char(b)));
        }
        assert(self.bits().take(self.end as int) =~= self.bits());
        s
    }
}

impl Clone for BitBuffer {
    fn clone(&self) -> (b: BitBuffer)
        ensures
            b.bits() == self.bits(),
            b.cursor() == self.cursor(),
            b.expands() == self.expands(),
    {
        proof {
            use_type_invariant(self);
        }
        let buffer = self.buffer.clone();
        let b = BitBuffer { buffer, end: self.end, pos: self.pos, autoexpand: self.autoexpand };
        assert(b.bits() =~= self.bits());
        b
    }
}

} // verus!

//! The building blocks of the PDU wire formats.
//!
//! A PDU is a run of fields of fixed width, most significant bit first. After
//! the mandatory fields stands the O-bit, which says whether optional parts
//! follow at all. Each optional field of fixed width is announced by a P-bit;
//! each variable-length element by an M-bit, an element identifier and a length
//! indicator, and a clear M-bit ends the PDU.
//!
//! Encodings are stated as functions that put a field in front of what follows
//! it (`put`), parsers as functions that take a field off the front of what is
//! left (`take`). The lemmas say that each undoes the other.

use crate::bitbuffer::BitBuffer;
use crate::bits::bits_of;
use crate::bits::lemma_bits_of_len;
use crate::bits::lemma_bits_of_value_of;
use crate::bits::lemma_take_bits_of;
use crate::bits::lemma_value_of_bound;
use crate::bits::overwrite;
use crate::bits::take_bits;
use crate::bits::value_of;
use crate::pdu_parse_error::PduParseErr;
use vstd::arithmetic::power2::lemma2_to64;
use vstd::arithmetic::power2::lemma2_to64_rest;
use vstd::arithmetic::power2::lemma_pow2_strictly_increases;
use vstd::arithmetic::power2::pow2;
use vstd::prelude::*;

verus! {

/// `v` can be written in `n` bits.
pub open spec fn fits(v: u64, n: nat) -> bool {
    (v as nat) < pow2(n)
}

/// The field of width `n` holding `v`, in front of `rest`.
pub open spec fn put(v: u64, n: nat, rest: Seq<bool>) -> Seq<bool> {
    bits_of(v as nat, n) + rest
}

/// A one-bit field in front of `rest`.
pub open spec fn put_flag(b: bool, rest: Seq<bool>) -> Seq<bool> {
    put(
        if b {
            1
        } else {
            0
        },
        1,
        rest,
    )
}

/// An optional field of width `n` with its P-bit, in front of `rest`.
pub open spec fn put_opt(o: Option<u64>, n: nat, rest: Seq<bool>) -> Seq<bool> {
    match o {
        None => put_flag(false, rest),
        Some(v) => put_flag(true, put(v, n, rest)),
    }
}

/// The number of bits an optional field takes, P-bit included.
pub open spec fn opt_len(o: Option<u64>, n: nat) -> nat {
    match o {
        None => 1,
        Some(_) => 1 + n,
    }
}

/// Takes a field of width `n` off the front of `s`.
pub closed spec fn take(s: Seq<bool>, n: nat) -> Option<(u64, Seq<bool>)> {
    match take_bits(s, n) {
        Some((v, rest)) => Some((v as u64, rest)),
        None => None,
    }
}

/// Takes a one-bit field off the front of `s`.
pub closed spec fn take_flag(s: Seq<bool>) -> Option<(bool, Seq<bool>)> {
    match take(s, 1) {
        Some((v, rest)) => Some((v != 0, rest)),
        None => None,
    }
}

/// Takes a P-bit and, where it is set, a field of width `n` off the front of `s`.
pub closed spec fn take_opt(s: Seq<bool>, n: nat) -> Option<(Option<u64>, Seq<bool>)> {
    match take_flag(s) {
        None => None,
        Some((false, rest)) => Some((None, rest)),
        Some((true, rest)) => match take(rest, n) {
            None => None,
            Some((v, rest2)) => Some((Some(v), rest2)),
        },
    }
}

/// The value or, where there is none, zero.
pub open spec fn or_zero(o: Option<u64>) -> u64 {
    match o {
        Some(v) => v,
        None => 0,
    }
}

/// The value or, where there is none, zero.
pub fn value_or_zero(o: &Option<u64>) -> (v: u64)
    ensures
        v == or_zero(*o),
{
    match o {
        Some(v) => *v,
        None => 0,
    }
}

/// An optional field is absent or fits its width.
pub open spec fn opt_fits(o: Option<u64>, n: nat) -> bool {
    o matches Some(v) ==> fits(v, n)
}

/// The widths of up to 64 bits, as numbers.
pub proof fn lemma_widths()
    ensures
        pow2(1) == 2,
        pow2(2) == 4,
        pow2(3) == 8,
        pow2(4) == 16,
        pow2(5) == 32,
        pow2(6) == 64,
        pow2(8) == 256,
        pow2(10) == 1024,
        pow2(11) == 2048,
        pow2(14) == 16384,
        pow2(15) == 32768,
        pow2(16) == 65536,
        pow2(24) == 16777216,
        pow2(64) == 0x1_0000_0000_0000_0000,
{
    lemma2_to64();
}

pub proof fn lemma_put_len(v: u64, n: nat, rest: Seq<bool>)
    ensures
        put(v, n, rest).len() == n + rest.len(),
{
    lemma_bits_of_len(v as nat, n);
}

pub proof fn lemma_put_opt_len(o: Option<u64>, n: nat, rest: Seq<bool>)
    ensures
        put_opt(o, n, rest).len() == opt_len(o, n) + rest.len(),
{
    match o {
        None => {
            lemma_put_len(0, 1, rest);
        },
        Some(v) => {
            lemma_put_len(v, n, rest);
            lemma_put_len(1, 1, put(v, n, rest));
        },
    }
}

/// A field is taken exactly where the input has bits enough for it, and what is
/// left is the input without the bits of the field.
pub proof fn lemma_take_some(s: Seq<bool>, n: nat)
    ensures
        take(s, n) is Some <==> n <= s.len(),
        take(s, n) matches Some((_, rest)) ==> rest == s.skip(n as int),
{
}

/// A one-bit field is taken exactly where the input is not empty: it is the
/// first bit, and what is left is the input without it.
pub proof fn lemma_take_flag_some(s: Seq<bool>)
    ensures
        take_flag(s) is Some <==> 1 <= s.len(),
        take_flag(s) matches Some((b, rest)) ==> b == s[0] && rest == s.skip(1),
{
    if 1 <= s.len() {
        let head = s.take(1);
        assert(head.drop_last() =~= Seq::<bool>::empty());
        assert(head.last() == s[0]);
        assert(value_of(head) == if s[0] {
            1nat
        } else {
            0nat
        }) by {
            reveal_with_fuel(value_of, 2);
        }
    }
}

/// An optional field is taken exactly where the input has its P-bit and, where
/// the P-bit is set, bits enough for the field behind it: the field is present
/// exactly where the P-bit is set.
pub proof fn lemma_take_opt_some(s: Seq<bool>, n: nat)
    ensures
        take_opt(s, n) is Some <==> 1 <= s.len() && (s[0] ==> 1 + n <= s.len()),
        take_opt(s, n) matches Some((o, rest)) ==> (o is Some <==> s[0]) && rest == s.skip(
            opt_len(o, n) as int,
        ),
{
    lemma_take_flag_some(s);
    if 1 <= s.len() {
        lemma_take_some(s.skip(1), n);
        if s[0] && 1 + n <= s.len() {
            assert(s.skip(1).skip(n as int) =~= s.skip(1 + n as int));
        }
    }
}

/// A field that fits its width is taken back whole.
pub proof fn lemma_take_put(v: u64, n: nat, rest: Seq<bool>)
    requires
        fits(v, n),
    ensures
        take(put(v, n, rest), n) == Some((v, rest)),
{
    lemma_take_bits_of(v as nat, n, rest);
}

/// What was taken can be put back: the input is the field in front of the rest.
pub proof fn lemma_put_take(s: Seq<bool>, n: nat)
    requires
        n <= 64,
        take(s, n) is Some,
    ensures
        fits(take(s, n).unwrap().0, n),
        put(take(s, n).unwrap().0, n, take(s, n).unwrap().1) == s,
{
    let head = s.take(n as int);
    lemma_value_of_bound(head);
    lemma_bits_of_value_of(head);
    lemma2_to64_rest();
    if n < 64 {
        lemma_pow2_strictly_increases(n, 64);
    }
    assert(head + s.skip(n as int) =~= s);
}

pub proof fn lemma_take_put_flag(b: bool, rest: Seq<bool>)
    ensures
        take_flag(put_flag(b, rest)) == Some((b, rest)),
{
    lemma_widths();
    lemma_take_put(
        if b {
            1
        } else {
            0
        },
        1,
        rest,
    );
}

pub proof fn lemma_put_take_flag(s: Seq<bool>)
    requires
        take_flag(s) is Some,
    ensures
        put_flag(take_flag(s).unwrap().0, take_flag(s).unwrap().1) == s,
{
    lemma_widths();
    lemma_put_take(s, 1);
}

pub proof fn lemma_take_put_opt(o: Option<u64>, n: nat, rest: Seq<bool>)
    requires
        opt_fits(o, n),
    ensures
        take_opt(put_opt(o, n, rest), n) == Some((o, rest)),
{
    match o {
        None => {
            lemma_take_put_flag(false, rest);
        },
        Some(v) => {
            lemma_take_put_flag(true, put(v, n, rest));
            lemma_take_put(v, n, rest);
        },
    }
}

pub proof fn lemma_put_take_opt(s: Seq<bool>, n: nat)
    requires
        n <= 64,
        take_opt(s, n) is Some,
    ensures
        opt_fits(take_opt(s, n).unwrap().0, n),
        put_opt(take_opt(s, n).unwrap().0, n, take_opt(s, n).unwrap().1) == s,
{
    lemma_put_take_flag(s);
    let (p, rest) = take_flag(s).unwrap();
    if p {
        lemma_put_take(rest, n);
    }
}

/// Reads a field of width `n` at the cursor without moving the cursor.
pub fn peek(buf: &BitBuffer, n: usize) -> (r: Option<u64>)
    requires
        n <= 64,
    ensures
        match take(buf.remaining(), n as nat) {
            Some((v, _)) => r == Some(v),
            None => r is None,
        },
{
    buf.peek_bits(n)
}

/// Reads a field of width `n` at the cursor.
pub fn get(buf: &mut BitBuffer, n: usize) -> (r: Result<u64, PduParseErr>)
    requires
        n <= 64,
    ensures
        final(buf).bits() == old(buf).bits(),
        final(buf).expands() == old(buf).expands(),
        match take(old(buf).remaining(), n as nat) {
            Some((v, rest)) => r == Ok::<u64, PduParseErr>(v) && final(buf).remaining() == rest,
            None => r == Err::<u64, PduParseErr>(PduParseErr::UnexpectedEof)
                && final(buf).remaining() == old(buf).remaining(),
        },
{
    match buf.read_bits(n) {
        Some(v) => Ok(v),
        None => Err(PduParseErr::UnexpectedEof),
    }
}

/// Reads a one-bit field at the cursor.
pub fn get_flag(buf: &mut BitBuffer) -> (r: Result<bool, PduParseErr>)
    ensures
        final(buf).bits() == old(buf).bits(),
        final(buf).expands() == old(buf).expands(),
        match take_flag(old(buf).remaining()) {
            Some((b, rest)) => r == Ok::<bool, PduParseErr>(b) && final(buf).remaining() == rest,
            None => r == Err::<bool, PduParseErr>(PduParseErr::UnexpectedEof)
                && final(buf).remaining() == old(buf).remaining(),
        },
{
    match buf.read_bits(1) {
        Some(v) => Ok(v != 0),
        None => Err(PduParseErr::UnexpectedEof),
    }
}

/// Reads a P-bit at the cursor and, where it is set, the field of width `n`
/// that it announces.
pub fn get_opt(buf: &mut BitBuffer, n: usize) -> (r: Result<Option<u64>, PduParseErr>)
    requires
        n <= 64,
    ensures
        final(buf).bits() == old(buf).bits(),
        final(buf).expands() == old(buf).expands(),
        match take_opt(old(buf).remaining(), n as nat) {
            Some((o, rest)) => r == Ok::<Option<u64>, PduParseErr>(o) && final(buf).remaining()
                == rest,
            None => r == Err::<Option<u64>, PduParseErr>(PduParseErr::UnexpectedEof),
        },
{
    let present = get_flag(buf)?;
    if present {
        let v = get(buf, n)?;
        Ok(Some(v))
    } else {
        Ok(None)
    }
}

/// What a writer has done so far and what it still owes: it started on a buffer
/// holding `base` with the cursor at `at`, has written `acc` since, and is to
/// write `pending`.
pub struct Frame {
    pub base: Seq<bool>,
    pub at: int,
    pub acc: Seq<bool>,
    pub pending: Seq<bool>,
}

impl Frame {
    /// The frame of a writer that is about to write `all` to `buf`.
    pub open spec fn start(buf: &BitBuffer, all: Seq<bool>) -> Frame {
        Frame { base: buf.bits(), at: buf.cursor(), acc: Seq::empty(), pending: all }
    }

    /// `buf` is what the writer of this frame has made of its buffer.
    pub open spec fn holds(self, buf: &BitBuffer) -> bool {
        &&& 0 <= self.at <= self.base.len()
        &&& buf.bits() == overwrite(self.base, self.at, self.acc)
        &&& buf.cursor() == self.at + self.acc.len()
    }

    /// Everything the writer is to have written when it is done.
    pub open spec fn all(self) -> Seq<bool> {
        self.acc + self.pending
    }

    pub proof fn lemma_start_holds(buf: &BitBuffer, all: Seq<bool>)
        ensures
            Frame::start(buf, all).holds(buf),
            Frame::start(buf, all).all() == all,
    {
        buf.lemma_cursor_in_bounds();
        assert(buf.bits() =~= overwrite(buf.bits(), buf.cursor(), Seq::empty()));
        assert(Seq::<bool>::empty() + all =~= all);
    }

    /// A writer that owes nothing has written everything.
    pub proof fn lemma_done(self, buf: &BitBuffer)
        requires
            self.holds(buf),
            self.pending == Seq::<bool>::empty(),
        ensures
            buf.bits() == overwrite(self.base, self.at, self.all()),
            buf.cursor() == self.at + self.all().len(),
    {
        assert(self.acc + self.pending =~= self.acc);
    }
}

/// Writes a field of width `n` at the cursor of a buffer that has room for it.
/// `rest` is what the writer owes after this field.
pub fn emit(
    buf: &mut BitBuffer,
    v: u64,
    n: usize,
    Ghost(fr): Ghost<Frame>,
    Ghost(rest): Ghost<Seq<bool>>,
) -> (g: Ghost<Frame>)
    requires
        n <= 64,
        n <= old(buf).room(),
        fr.holds(old(buf)),
        fr.pending == put(v, n as nat, rest),
    ensures
        g@.holds(final(buf)),
        g@.base == fr.base,
        g@.at == fr.at,
        g@.all() == fr.all(),
        g@.pending == rest,
        final(buf).room() == old(buf).room() - n,
        final(buf).expands() == old(buf).expands(),
{
    proof {
        lemma_bits_of_len(v as nat, n as nat);
    }
    let _ = buf.write_bits(v, n);
    let ghost w = bits_of(v as nat, n as nat);
    proof {
        assert(overwrite(overwrite(fr.base, fr.at, fr.acc), fr.at + fr.acc.len(), w) =~= overwrite(
            fr.base,
            fr.at,
            fr.acc + w,
        ));
        assert((fr.acc + w) + rest =~= fr.acc + (w + rest));
    }
    Ghost(Frame { base: fr.base, at: fr.at, acc: fr.acc + w, pending: rest })
}

/// Writes a one-bit field.
pub fn emit_flag(
    buf: &mut BitBuffer,
    b: bool,
    Ghost(fr): Ghost<Frame>,
    Ghost(rest): Ghost<Seq<bool>>,
) -> (g: Ghost<Frame>)
    requires
        1 <= old(buf).room(),
        fr.holds(old(buf)),
        fr.pending == put_flag(b, rest),
    ensures
        g@.holds(final(buf)),
        g@.base == fr.base,
        g@.at == fr.at,
        g@.all() == fr.all(),
        g@.pending == rest,
        final(buf).room() == old(buf).room() - 1,
        final(buf).expands() == old(buf).expands(),
{
    let v: u64 = if b {
        1
    } else {
        0
    };
    emit(buf, v, 1, Ghost(fr), Ghost(rest))
}

/// Writes an optional field of width `n` with its P-bit.
pub fn emit_opt(
    buf: &mut BitBuffer,
    o: Option<u64>,
    n: usize,
    Ghost(fr): Ghost<Frame>,
    Ghost(rest): Ghost<Seq<bool>>,
) -> (g: Ghost<Frame>)
    requires
        n <= 64,
        opt_len(o, n as nat) <= old(buf).room(),
        fr.holds(old(buf)),
        fr.pending == put_opt(o, n as nat, rest),
    ensures
        g@.holds(final(buf)),
        g@.base == fr.base,
        g@.at == fr.at,
        g@.all() == fr.all(),
        g@.pending == rest,
        final(buf).room() == old(buf).room() - opt_len(o, n as nat),
        final(buf).expands() == old(buf).expands(),
{
    match o {
        None => emit_flag(buf, false, Ghost(fr), Ghost(rest)),
        Some(v) => {
            let g1 = emit_flag(buf, true, Ghost(fr), Ghost(put(v, n as nat, rest)));
            emit(buf, v, n, g1, Ghost(rest))
        },
    }
}

/// The number of bits an optional field takes, P-bit included.
pub fn opt_width(o: &Option<u64>, n: usize) -> (len: usize)
    requires
        n <= 64,
    ensures
        len == opt_len(*o, n as nat),
{
    match o {
        None => 1,
        Some(_) => 1 + n,
    }
}

} // verus!

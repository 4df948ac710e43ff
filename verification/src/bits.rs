//! Bit strings as mathematical sequences: the vocabulary in which the wire
//! formats are stated.
//!
//! A field of width `n` holding the number `v` is the sequence `bits_of(v, n)`,
//! most significant bit first. `value_of` is its inverse, and `take_bits` reads
//! one such field off the front of what is left of an input.

use vstd::arithmetic::power2::lemma_pow2_unfold;
use vstd::arithmetic::power2::pow2;
use vstd::prelude::*;

verus! {

/// The number that a bit string spells, most significant bit first.
pub open spec fn value_of(s: Seq<bool>) -> nat
    decreases s.len(),
{
    if s.len() == 0 {
        0
    } else {
        2 * value_of(s.drop_last()) + if s.last() {
            1nat
        } else {
            0nat
        }
    }
}

/// The `n` low bits of `v`, most significant of them first.
pub open spec fn bits_of(v: nat, n: nat) -> Seq<bool>
    decreases n,
{
    if n == 0 {
        Seq::empty()
    } else {
        bits_of(v / 2, (n - 1) as nat).push(v % 2 == 1)
    }
}

/// One bit as a field of width one.
pub open spec fn bit(b: bool) -> Seq<bool> {
    seq![b]
}

/// Reads a field of width `n` off the front of `s`: its value and what is left,
/// or `None` where `s` is shorter than `n`.
pub open spec fn take_bits(s: Seq<bool>, n: nat) -> Option<(nat, Seq<bool>)> {
    if n <= s.len() {
        Some((value_of(s.take(n as int)), s.skip(n as int)))
    } else {
        None
    }
}

/// `s` with `w` written over it from index `at` on; where `w` runs past the end
/// of `s`, the result ends with `w`.
pub open spec fn overwrite(s: Seq<bool>, at: int, w: Seq<bool>) -> Seq<bool>
    recommends
        0 <= at <= s.len(),
{
    s.take(at) + w + if at + w.len() <= s.len() {
        s.skip(at + w.len())
    } else {
        Seq::empty()
    }
}

pub proof fn lemma_bits_of_len(v: nat, n: nat)
    ensures
        bits_of(v, n).len() == n,
    decreases n,
{
    if n > 0 {
        lemma_bits_of_len(v / 2, (n - 1) as nat);
    }
}

/// A bit string of length `n` spells a number below `2^n`.
pub proof fn lemma_value_of_bound(s: Seq<bool>)
    ensures
        value_of(s) < pow2(s.len()),
    decreases s.len(),
{
    if s.len() == 0 {
        vstd::arithmetic::power2::lemma2_to64();
    } else {
        lemma_value_of_bound(s.drop_last());
        lemma_pow2_unfold(s.len());
    }
}

/// Writing a number that fits in `n` bits and reading it back gives the number.
pub proof fn lemma_value_of_bits_of(v: nat, n: nat)
    requires
        v < pow2(n),
    ensures
        value_of(bits_of(v, n)) == v,
    decreases n,
{
    if n == 0 {
        vstd::arithmetic::power2::lemma2_to64();
    } else {
        lemma_pow2_unfold(n);
        lemma_value_of_bits_of(v / 2, (n - 1) as nat);
        let s = bits_of(v, n);
        assert(s.drop_last() =~= bits_of(v / 2, (n - 1) as nat));
        assert(s.last() == (v % 2 == 1));
    }
}

/// Reading a bit string and writing the number back at the same width gives the
/// bit string.
pub proof fn lemma_bits_of_value_of(s: Seq<bool>)
    ensures
        bits_of(value_of(s), s.len()) == s,
    decreases s.len(),
{
    if s.len() > 0 {
        lemma_bits_of_value_of(s.drop_last());
        let v = value_of(s);
        assert(v / 2 == value_of(s.drop_last()));
        assert((v % 2 == 1) == s.last());
        assert(bits_of(v, s.len()) =~= s);
    } else {
        assert(bits_of(value_of(s), s.len()) =~= s);
    }
}

/// A field written in front of `rest` is read back whole, and `rest` is what is left.
pub proof fn lemma_take_bits_of(v: nat, n: nat, rest: Seq<bool>)
    requires
        v < pow2(n),
    ensures
        take_bits(bits_of(v, n) + rest, n) == Some((v, rest)),
{
    lemma_bits_of_len(v, n);
    lemma_value_of_bits_of(v, n);
    let s = bits_of(v, n) + rest;
    assert(s.take(n as int) =~= bits_of(v, n));
    assert(s.skip(n as int) =~= rest);
}

} // verus!

//! Repeated elements in PDUs.
//!
//! A variable-length element that holds a list is written as a set M-bit, the
//! element identifier (4 bits), a length indicator (11 bits) that counts the
//! bits which follow it, the number of repeated elements (6 bits), and the
//! elements one after the other.

use crate::bitbuffer::BitBuffer;
use crate::pdu_parse_error::PduField;
use crate::pdu_parse_error::PduParseErr;
use crate::typed_pdu_fields::emit;
use crate::typed_pdu_fields::fits;
use crate::typed_pdu_fields::get;
use crate::typed_pdu_fields::lemma_put_len;
use crate::typed_pdu_fields::lemma_put_take;
use crate::typed_pdu_fields::lemma_take_put;
use crate::typed_pdu_fields::lemma_widths;
use crate::typed_pdu_fields::put;
use crate::typed_pdu_fields::take;
use crate::typed_pdu_fields::Frame;
use vstd::prelude::*;

verus! {

/// No element of a list is longer than this, in bits.
pub const MAX_ELEMENT_BITS: usize = 128;

/// The most elements that the count field of a list can announce.
pub const MAX_ELEMENTS: usize = 63;

/// The largest value of the length indicator.
pub const MAX_LENGTH_INDICATOR: usize = 2047;

/// The bits that a list takes besides its elements: identifier, length
/// indicator and count.
pub const LIST_HEADER_BITS: usize = 21;

/// A structured part of a PDU, such as an element of a list: a value with a wire
/// format in which the part can be told from what follows it.
pub trait PduElement: Sized {
    /// The values that have an encoding.
    spec fn wf(self) -> bool;

    /// The canonical encoding in front of `rest`.
    spec fn encode_onto(self, rest: Seq<bool>) -> Seq<bool>;

    /// The length of the canonical encoding, in bits.
    spec fn encoded_len(self) -> nat;

    /// The element at the front of `s` and what follows it, or why there is none.
    spec fn spec_parse(s: Seq<bool>) -> Result<(Self, Seq<bool>), PduParseErr>;

    proof fn lemma_parse_encode(self, rest: Seq<bool>)
        requires
            self.wf(),
        ensures
            Self::spec_parse(self.encode_onto(rest)) == Ok::<(Self, Seq<bool>), PduParseErr>(
                (self, rest),
            ),
    ;

    proof fn lemma_encode_parse(s: Seq<bool>)
        requires
            Self::spec_parse(s) is Ok,
        ensures
            Self::spec_parse(s).unwrap().0.wf(),
            Self::spec_parse(s).unwrap().0.encode_onto(Self::spec_parse(s).unwrap().1) == s,
    ;

    proof fn lemma_encoded_len(self, rest: Seq<bool>)
        ensures
            self.encode_onto(rest).len() == self.encoded_len() + rest.len(),
            self.encoded_len() <= MAX_ELEMENT_BITS,
    ;

    /// The length of the canonical encoding, in bits.
    fn len_bits(&self) -> (n: usize)
        ensures
            n == self.encoded_len(),
    ;

    /// Writes the element at the cursor of a buffer that has room for it.
    fn write(&self, buf: &mut BitBuffer, fr: Ghost<Frame>, rest: Ghost<Seq<bool>>) -> (g: Ghost<
        Frame,
    >)
        requires
            self.encoded_len() <= old(buf).room(),
            fr@.holds(old(buf)),
            fr@.pending == self.encode_onto(rest@),
        ensures
            g@.holds(final(buf)),
            g@.base == fr@.base,
            g@.at == fr@.at,
            g@.all() == fr@.all(),
            g@.pending == rest@,
            final(buf).room() == old(buf).room() - self.encoded_len(),
            final(buf).expands() == old(buf).expands(),
    ;

    /// Reads the element at the cursor and moves the cursor past it.
    fn read(buf: &mut BitBuffer) -> (r: Result<Self, PduParseErr>)
        ensures
            final(buf).bits() == old(buf).bits(),
            final(buf).expands() == old(buf).expands(),
            match Self::spec_parse(old(buf).remaining()) {
                Ok((e, rest)) => r == Ok::<Self, PduParseErr>(e) && final(buf).remaining() == rest,
                Err(e) => r == Err::<Self, PduParseErr>(e),
            },
    ;
}

/// The elements one after the other, in front of `rest`.
pub open spec fn encode_list<E: PduElement>(elems: Seq<E>, rest: Seq<bool>) -> Seq<bool>
    decreases elems.len(),
{
    if elems.len() == 0 {
        rest
    } else {
        elems.first().encode_onto(encode_list(elems.drop_first(), rest))
    }
}

/// The number of bits that the elements take.
pub open spec fn list_len<E: PduElement>(elems: Seq<E>) -> nat
    decreases elems.len(),
{
    if elems.len() == 0 {
        0
    } else {
        elems.first().encoded_len() + list_len(elems.drop_first())
    }
}

/// Every element has an encoding.
pub open spec fn list_wf<E: PduElement>(elems: Seq<E>) -> bool {
    forall|i: int| 0 <= i < elems.len() ==> (#[trigger] elems[i]).wf()
}

/// `count` elements at the front of `s` and what follows them, or why the first
/// of them that cannot be read cannot.
pub open spec fn parse_list<E: PduElement>(s: Seq<bool>, count: nat) -> Result<
    (Seq<E>, Seq<bool>),
    PduParseErr,
>
    decreases count,
{
    if count == 0 {
        Ok((Seq::empty(), s))
    } else {
        match E::spec_parse(s) {
            Err(e) => Err(e),
            Ok((first, s1)) => match parse_list::<E>(s1, (count - 1) as nat) {
                Err(e) => Err(e),
                Ok((others, rest)) => Ok((seq![first] + others, rest)),
            },
        }
    }
}

/// The list holds no more elements than its count field can say, and is no
/// longer than its length indicator can say.
pub open spec fn list_encodable<E: PduElement>(elems: Seq<E>) -> bool {
    elems.len() <= MAX_ELEMENTS && 6 + list_len(elems) <= MAX_LENGTH_INDICATOR
}

/// A list as a variable-length element with identifier `id`, from the identifier
/// on, in front of `rest`.
pub open spec fn put_list<E: PduElement>(id: u64, elems: Seq<E>, rest: Seq<bool>) -> Seq<bool> {
    put(
        id,
        4,
        put((6 + list_len(elems)) as u64, 11, put(elems.len() as u64, 6, encode_list(elems, rest))),
    )
}

/// The list with identifier `id` at the front of `s`, from the identifier on.
///
/// Refused are: an input that ends inside the list; another identifier than
/// `id`; an element that is refused; and a length indicator that is not the
/// number of bits which the count and the elements take.
pub open spec fn take_list<E: PduElement>(s: Seq<bool>, id: u64) -> Result<
    (Seq<E>, Seq<bool>),
    PduParseErr,
> {
    match take(s, 4) {
        None => Err(PduParseErr::UnexpectedEof),
        Some((found, s1)) => if found != id {
            Err(PduParseErr::InvalidEnum { field: PduField::Type34ElementId, value: found })
        } else {
            match take(s1, 11) {
                None => Err(PduParseErr::UnexpectedEof),
                Some((length, s2)) => match take(s2, 6) {
                    None => Err(PduParseErr::UnexpectedEof),
                    Some((count, s3)) => match parse_list::<E>(s3, count as nat) {
                        Err(e) => Err(e),
                        Ok((elems, rest)) => if length == 6 + list_len(elems) {
                            Ok((elems, rest))
                        } else {
                            Err(PduParseErr::LengthOverflow)
                        },
                    },
                },
            }
        }
    }
}

pub proof fn lemma_list_len_bound<E: PduElement>(elems: Seq<E>)
    ensures
        list_len(elems) <= MAX_ELEMENT_BITS * elems.len(),
    decreases elems.len(),
{
    if elems.len() > 0 {
        elems.first().lemma_encoded_len(Seq::empty());
        lemma_list_len_bound(elems.drop_first());
    }
}

pub proof fn lemma_encode_list_len<E: PduElement>(elems: Seq<E>, rest: Seq<bool>)
    ensures
        encode_list(elems, rest).len() == list_len(elems) + rest.len(),
    decreases elems.len(),
{
    if elems.len() > 0 {
        lemma_encode_list_len(elems.drop_first(), rest);
        elems.first().lemma_encoded_len(encode_list(elems.drop_first(), rest));
    }
}

/// A list extended by one element at its end is that much longer.
pub proof fn lemma_list_len_push<E: PduElement>(elems: Seq<E>, last: E)
    ensures
        list_len(elems.push(last)) == list_len(elems) + last.encoded_len(),
    decreases elems.len(),
{
    if elems.len() == 0 {
        assert(elems.push(last).drop_first() =~= Seq::<E>::empty());
        assert(list_len(elems.push(last).drop_first()) == 0);
    } else {
        assert(elems.push(last).drop_first() =~= elems.drop_first().push(last));
        lemma_list_len_push(elems.drop_first(), last);
    }
}

/// Well-formed elements written one after the other are read back as they were.
pub proof fn lemma_parse_encode_list<E: PduElement>(elems: Seq<E>, rest: Seq<bool>)
    requires
        list_wf(elems),
    ensures
        parse_list::<E>(encode_list(elems, rest), elems.len()) == Ok::<
            (Seq<E>, Seq<bool>),
            PduParseErr,
        >((elems, rest)),
    decreases elems.len(),
{
    if elems.len() > 0 {
        let tail = encode_list(elems.drop_first(), rest);
        assert(elems.first().wf());
        elems.first().lemma_parse_encode(tail);
        assert(list_wf(elems.drop_first())) by {
            assert forall|i: int| 0 <= i < elems.drop_first().len() implies (
            #[trigger] elems.drop_first()[i]).wf() by {
                assert(elems[i + 1].wf());
            }
        }
        lemma_parse_encode_list(elems.drop_first(), rest);
        assert(elems.drop_first().len() == (elems.len() - 1) as nat);
        assert(seq![elems.first()] + elems.drop_first() =~= elems);
        assert(E::spec_parse(encode_list(elems, rest)) == Ok::<(E, Seq<bool>), PduParseErr>(
            (elems.first(), tail),
        ));
        assert(parse_list::<E>(tail, (elems.len() - 1) as nat) == Ok::<
            (Seq<E>, Seq<bool>),
            PduParseErr,
        >((elems.drop_first(), rest)));
    } else {
        assert(elems =~= Seq::<E>::empty());
    }
}

/// What parses as a list is `count` well-formed elements, and writing them in
/// front of what was left gives the input.
pub proof fn lemma_encode_parse_list<E: PduElement>(s: Seq<bool>, count: nat)
    requires
        parse_list::<E>(s, count) is Ok,
    ensures
        parse_list::<E>(s, count).unwrap().0.len() == count,
        list_wf(parse_list::<E>(s, count).unwrap().0),
        encode_list(parse_list::<E>(s, count).unwrap().0, parse_list::<E>(s, count).unwrap().1)
            == s,
    decreases count,
{
    if count > 0 {
        E::lemma_encode_parse(s);
        let (first, s1) = E::spec_parse(s).unwrap();
        lemma_encode_parse_list::<E>(s1, (count - 1) as nat);
        let (others, rest) = parse_list::<E>(s1, (count - 1) as nat).unwrap();
        let elems = seq![first] + others;
        assert(elems.first() == first);
        assert(elems.drop_first() =~= others);
    }
}

pub proof fn lemma_put_list_len<E: PduElement>(id: u64, elems: Seq<E>, rest: Seq<bool>)
    ensures
        put_list(id, elems, rest).len() == LIST_HEADER_BITS + list_len(elems) + rest.len(),
{
    let body = encode_list(elems, rest);
    let c = put(elems.len() as u64, 6, body);
    let l = put((6 + list_len(elems)) as u64, 11, c);
    lemma_encode_list_len(elems, rest);
    lemma_put_len(elems.len() as u64, 6, body);
    lemma_put_len((6 + list_len(elems)) as u64, 11, c);
    lemma_put_len(id, 4, l);
}

/// A list that can be encoded, of well-formed elements, is read back as it was.
pub proof fn lemma_take_put_list<E: PduElement>(id: u64, elems: Seq<E>, rest: Seq<bool>)
    requires
        fits(id, 4),
        list_encodable(elems),
        list_wf(elems),
    ensures
        take_list::<E>(put_list(id, elems, rest), id) == Ok::<(Seq<E>, Seq<bool>), PduParseErr>(
            (elems, rest),
        ),
{
    lemma_widths();
    let body = encode_list(elems, rest);
    let c = put(elems.len() as u64, 6, body);
    let l = put((6 + list_len(elems)) as u64, 11, c);
    lemma_take_put(id, 4, l);
    lemma_take_put((6 + list_len(elems)) as u64, 11, c);
    lemma_take_put(elems.len() as u64, 6, body);
    lemma_parse_encode_list(elems, rest);
}

/// What parses as a list can be encoded, and its encoding in front of what was
/// left is the input.
pub proof fn lemma_put_take_list<E: PduElement>(s: Seq<bool>, id: u64)
    requires
        take_list::<E>(s, id) is Ok,
    ensures
        fits(id, 4),
        list_encodable(take_list::<E>(s, id).unwrap().0),
        list_wf(take_list::<E>(s, id).unwrap().0),
        put_list(id, take_list::<E>(s, id).unwrap().0, take_list::<E>(s, id).unwrap().1) == s,
{
    lemma_widths();
    lemma_put_take(s, 4);
    let s1 = take(s, 4).unwrap().1;
    lemma_put_take(s1, 11);
    let s2 = take(s1, 11).unwrap().1;
    lemma_put_take(s2, 6);
    let (count, s3) = take(s2, 6).unwrap();
    lemma_encode_parse_list::<E>(s3, count as nat);
}

/// The number of bits that the elements take, where the list can be encoded.
pub fn list_len_bits<E: PduElement>(elems: &Vec<E>) -> (r: Option<usize>)
    ensures
        r is Some <==> list_encodable(elems@),
        r matches Some(n) ==> n == list_len(elems@),
{
    if elems.len() > MAX_ELEMENTS {
        return None;
    }
    let mut total: usize = 0;
    let mut i: usize = 0;
    while i < elems.len()
        invariant
            i <= elems.len() <= MAX_ELEMENTS,
            total == list_len(elems@.take(i as int)),
            total <= MAX_ELEMENT_BITS * i,
        decreases elems.len() - i,
    {
        let n = elems[i].len_bits();
        proof {
            elems[i as int].lemma_encoded_len(Seq::empty());
            lemma_list_len_push(elems@.take(i as int), elems[i as int]);
            assert(elems@.take(i as int).push(elems[i as int]) =~= elems@.take(i + 1));
        }
        total = total + n;
        i = i + 1;
    }
    assert(elems@.take(elems.len() as int) =~= elems@);
    if total + 6 > MAX_LENGTH_INDICATOR {
        None
    } else {
        Some(total)
    }
}

/// Writes a list, from the identifier on, at the cursor of a buffer that has
/// room for it.
pub fn emit_list<E: PduElement>(
    buf: &mut BitBuffer,
    id: u64,
    elems: &Vec<E>,
    len: usize,
    Ghost(fr): Ghost<Frame>,
    Ghost(rest): Ghost<Seq<bool>>,
) -> (g: Ghost<Frame>)
    requires
        list_encodable(elems@),
        len == list_len(elems@),
        LIST_HEADER_BITS + len <= old(buf).room(),
        fr.holds(old(buf)),
        fr.pending == put_list(id, elems@, rest),
    ensures
        g@.holds(final(buf)),
        g@.base == fr.base,
        g@.at == fr.at,
        g@.all() == fr.all(),
        g@.pending == rest,
        final(buf).room() == old(buf).room() - LIST_HEADER_BITS - len,
        final(buf).expands() == old(buf).expands(),
{
    let ghost body = encode_list(elems@, rest);
    let ghost c = put(elems@.len() as u64, 6, body);
    let ghost l = put((6 + list_len(elems@)) as u64, 11, c);
    let g = emit(buf, id, 4, Ghost(fr), Ghost(l));
    let g = emit(buf, (6 + len) as u64, 11, g, Ghost(c));
    let mut g = emit(buf, elems.len() as u64, 6, g, Ghost(body));
    let mut i: usize = 0;
    assert(elems@.skip(0) =~= elems@);
    while i < elems.len()
        invariant
            i <= elems.len(),
            g@.holds(buf),
            g@.base == fr.base,
            g@.at == fr.at,
            g@.all() == fr.all(),
            g@.pending == encode_list(elems@.skip(i as int), rest),
            buf.room() == old(buf).room() - LIST_HEADER_BITS - len + list_len(
                elems@.skip(i as int),
            ),
            buf.expands() == old(buf).expands(),
            LIST_HEADER_BITS + len <= old(buf).room(),
        decreases elems.len() - i,
    {
        let ghost here = elems@.skip(i as int);
        let ghost tail = encode_list(elems@.skip(i + 1), rest);
        proof {
            assert(here.first() == elems[i as int]);
            assert(here.drop_first() =~= elems@.skip(i + 1));
        }
        g = elems[i].write(buf, g, Ghost(tail));
        i = i + 1;
    }
    g
}

/// Reads a list with identifier `id`, from the identifier on, at the cursor.
pub fn get_list<E: PduElement>(buf: &mut BitBuffer, id: u64) -> (r: Result<Vec<E>, PduParseErr>)
    ensures
        final(buf).bits() == old(buf).bits(),
        final(buf).expands() == old(buf).expands(),
        match take_list::<E>(old(buf).remaining(), id) {
            Ok((elems, rest)) => r is Ok && r.unwrap()@ == elems && final(buf).remaining() == rest,
            Err(e) => r == Err::<Vec<E>, PduParseErr>(e),
        },
{
    let found = get(buf, 4)?;
    if found != id {
        return Err(PduParseErr::InvalidEnum { field: PduField::Type34ElementId, value: found });
    }
    let ghost s1 = buf.remaining();
    let length = get(buf, 11)?;
    let ghost s2 = buf.remaining();
    let count = get(buf, 6)?;
    let ghost s3 = buf.remaining();
    let before = buf.get_len_remaining();
    let mut elems: Vec<E> = Vec::new();
    let mut i: u64 = 0;
    proof {
        lemma_widths();
        lemma_put_take(s2, 6);
        let all = parse_list::<E>(s3, count as nat);
        if all is Ok {
            assert(elems@ + all.unwrap().0 =~= all.unwrap().0);
        }
    }
    while i < count
        invariant
            i <= count < 64,
            elems@.len() == i,
            take(old(buf).remaining(), 4) == Some((id, s1)),
            take(s1, 11) == Some((length, s2)),
            take(s2, 6) == Some((count, s3)),
            buf.bits() == old(buf).bits(),
            buf.expands() == old(buf).expands(),
            match parse_list::<E>(buf.remaining(), (count - i) as nat) {
                Ok((others, rest)) => parse_list::<E>(s3, count as nat) == Ok::<
                    (Seq<E>, Seq<bool>),
                    PduParseErr,
                >((elems@ + others, rest)),
                Err(e) => parse_list::<E>(s3, count as nat) == Err::<
                    (Seq<E>, Seq<bool>),
                    PduParseErr,
                >(e),
            },
        decreases count - i,
    {
        let ghost here = buf.remaining();
        match E::read(buf) {
            Err(e) => {
                assert(parse_list::<E>(here, (count - i) as nat) == Err::<
                    (Seq<E>, Seq<bool>),
                    PduParseErr,
                >(e));
                return Err(e);
            },
            Ok(e) => {
                proof {
                    let next = parse_list::<E>(buf.remaining(), (count - i - 1) as nat);
                    if next is Ok {
                        let (others, rest) = next.unwrap();
                        assert(elems@.push(e) + others =~= elems@ + (seq![e] + others));
                        assert(parse_list::<E>(here, (count - i) as nat) == Ok::<
                            (Seq<E>, Seq<bool>),
                            PduParseErr,
                        >((seq![e] + others, rest)));
                    } else {
                        assert(parse_list::<E>(here, (count - i) as nat) is Err);
                    }
                }
                elems.push(e);
                i = i + 1;
            },
        }
    }
    proof {
        assert(parse_list::<E>(buf.remaining(), 0) == Ok::<(Seq<E>, Seq<bool>), PduParseErr>(
            (Seq::empty(), buf.remaining()),
        ));
        assert(elems@ + Seq::<E>::empty() =~= elems@);
        lemma_encode_parse_list::<E>(s3, count as nat);
        lemma_encode_list_len(elems@, buf.remaining());
        lemma_list_len_bound(elems@);
    }
    let after = buf.get_len_remaining();
    let consumed = before - after;
    if length != 6 + consumed as u64 {
        return Err(PduParseErr::LengthOverflow);
    }
    Ok(elems)
}

} // verus!

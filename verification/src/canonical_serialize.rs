//! Canonical serialization: the byte layout over which signatures are
//! computed, so it must be identical across implementations. Sequences are
//! written as an 8-byte big-endian length prefix followed by the
//! concatenated element encodings; optional values as a 1-byte tag
//! (0 absent, 1 present); fixed-width integers big-endian.

use vstd::prelude::*;

use byteorder::{BigEndian, WriteBytesExt};

verus! {

pub open spec fn be_u16(x: u16) -> Seq<u8> {
    seq![(x >> 8) as u8, x as u8]
}

pub open spec fn be_u32(x: u32) -> Seq<u8> {
    seq![(x >> 24) as u8, (x >> 16) as u8, (x >> 8) as u8, x as u8]
}

pub open spec fn be_u64(x: u64) -> Seq<u8> {
    seq![
        (x >> 56) as u8,
        (x >> 48) as u8,
        (x >> 40) as u8,
        (x >> 32) as u8,
        (x >> 24) as u8,
        (x >> 16) as u8,
        (x >> 8) as u8,
        x as u8,
    ]
}

pub open spec fn be_u128(x: u128) -> Seq<u8> {
    seq![
        (x >> 120) as u8,
        (x >> 112) as u8,
        (x >> 104) as u8,
        (x >> 96) as u8,
        (x >> 88) as u8,
        (x >> 80) as u8,
        (x >> 72) as u8,
        (x >> 64) as u8,
        (x >> 56) as u8,
        (x >> 48) as u8,
        (x >> 40) as u8,
        (x >> 32) as u8,
        (x >> 24) as u8,
        (x >> 16) as u8,
        (x >> 8) as u8,
        x as u8,
    ]
}

/// Big-endian bytes of the two's-complement representation.
pub open spec fn be_i128(x: i128) -> Seq<u8> {
    be_u128(x as u128)
}

/// Relies on byteorder's WriteBytesExt::write_u32::<BigEndian>, which appends
/// the four big-endian bytes of the integer to the vector.
#[verifier::external_body]
pub fn write_u32_be(out: &mut Vec<u8>, x: u32)
    ensures
        final(out)@ == old(out)@ + be_u32(x),
{
    out.write_u32::<BigEndian>(x).unwrap();
}

/// Relies on byteorder's WriteBytesExt::write_u64::<BigEndian>, which appends
/// the eight big-endian bytes of the integer to the vector.
#[verifier::external_body]
pub fn write_u64_be(out: &mut Vec<u8>, x: u64)
    ensures
        final(out)@ == old(out)@ + be_u64(x),
{
    out.write_u64::<BigEndian>(x).unwrap();
}

/// Relies on byteorder's WriteBytesExt::write_u128::<BigEndian>, which
/// appends the sixteen big-endian bytes of the integer to the vector.
#[verifier::external_body]
pub fn write_u128_be(out: &mut Vec<u8>, x: u128)
    ensures
        final(out)@ == old(out)@ + be_u128(x),
{
    out.write_u128::<BigEndian>(x).unwrap();
}

/// Relies on byteorder's WriteBytesExt::write_i128::<BigEndian>, which
/// appends the sixteen big-endian two's-complement bytes of the integer to
/// the vector.
#[verifier::external_body]
pub fn write_i128_be(out: &mut Vec<u8>, x: i128)
    ensures
        final(out)@ == old(out)@ + be_i128(x),
{
    out.write_i128::<BigEndian>(x).unwrap();
}

/// Canonically serialize an object. This serialization is used for
/// security-related applications (signatures and hashing), therefore the
/// result must be the same on any system.
pub trait CanonicalSerialize {
    /// The exact bytes that `canonical_serialize` produces.
    spec fn cser(&self) -> Seq<u8>;

    fn canonical_serialize(&self) -> (r: Vec<u8>)
        ensures
            r@ == self.cser(),
    ;
}

impl CanonicalSerialize for u32 {
    open spec fn cser(&self) -> Seq<u8> {
        be_u32(*self)
    }

    fn canonical_serialize(&self) -> (r: Vec<u8>)
        ensures
            r@ == self.cser(),
    {
        let mut res_data = Vec::new();
        write_u32_be(&mut res_data, *self);
        proof {
            assert(res_data@ =~= be_u32(*self));
        }
        res_data
    }
}

impl<T: CanonicalSerialize> CanonicalSerialize for Option<T> {
    open spec fn cser(&self) -> Seq<u8> {
        match self {
            None => seq![0u8],
            Some(t) => seq![1u8] + t.cser(),
        }
    }

    fn canonical_serialize(&self) -> (r: Vec<u8>)
        ensures
            r@ == self.cser(),
    {
        let mut res_data: Vec<u8> = Vec::new();
        match self {
            None => {
                res_data.push(0);
            },
            Some(t) => {
                res_data.push(1);
                let mut inner = t.canonical_serialize();
                res_data.append(&mut inner);
            },
        }
        proof {
            assert(res_data@ =~= self.cser());
        }
        res_data
    }
}

/// The concatenation of the canonical encodings of a sequence of elements.
pub open spec fn cser_seq<T: CanonicalSerialize>(s: Seq<T>) -> Seq<u8>
    decreases s.len(),
{
    if s.len() == 0 {
        Seq::empty()
    } else {
        s[0].cser() + cser_seq(s.skip(1))
    }
}

/// Extending the serialized prefix by one element appends that element's
/// encoding.
pub proof fn lemma_cser_seq_take_step<T: CanonicalSerialize>(s: Seq<T>, i: int)
    requires
        0 <= i < s.len(),
    ensures
        cser_seq(s.take(i + 1)) == cser_seq(s.take(i)) + s[i].cser(),
    decreases i,
{
    if i == 0 {
        assert(s.take(1) =~= seq![s[0]]);
        assert(s.take(1).skip(1) =~= Seq::<T>::empty());
        assert(s.take(0) =~= Seq::<T>::empty());
        assert(s[0].cser() + Seq::<u8>::empty() =~= s[0].cser());
        assert(s.take(1).len() == 1);
        assert(cser_seq(s.take(1)) == s.take(1)[0].cser() + cser_seq(s.take(1).skip(1)));
        assert(cser_seq(s.take(1).skip(1)) == Seq::<u8>::empty());
        assert(cser_seq(s.take(1)) =~= s[0].cser());
        assert(cser_seq(s.take(0)) + s[0].cser() =~= s[0].cser());
    } else {
        lemma_cser_seq_take_step(s.skip(1), i - 1);
        assert(s.take(i + 1).skip(1) =~= s.skip(1).take(i));
        assert(s.take(i).skip(1) =~= s.skip(1).take(i - 1));
        assert(s.take(i + 1)[0] == s[0]);
        assert(s.take(i)[0] == s[0]);
        assert(s.skip(1)[i - 1] == s[i]);
        assert(cser_seq(s.take(i + 1)) == s[0].cser() + cser_seq(s.skip(1).take(i)));
        assert(cser_seq(s.take(i)) == s[0].cser() + cser_seq(s.skip(1).take(i - 1)));
        assert((s[0].cser() + (cser_seq(s.skip(1).take(i - 1)) + s[i].cser())) =~= (s[0].cser()
            + cser_seq(s.skip(1).take(i - 1))) + s[i].cser());
    }
}

impl<T: CanonicalSerialize> CanonicalSerialize for Vec<T> {
    open spec fn cser(&self) -> Seq<u8> {
        be_u64(self@.len() as u64) + cser_seq(self@)
    }

    fn canonical_serialize(&self) -> (r: Vec<u8>)
        ensures
            r@ == self.cser(),
    {
        let mut res_data: Vec<u8> = Vec::new();
        // Write the length:
        write_u64_be(&mut res_data, self.len() as u64);
        // Write all the items:
        let mut i: usize = 0;
        proof {
            assert(self@.take(0) =~= Seq::<T>::empty());
        }
        while i < self.len()
            invariant
                i <= self@.len(),
                res_data@ == be_u64(self@.len() as u64) + cser_seq(self@.take(i as int)),
            decreases self@.len() - i,
        {
            let mut inner = self[i].canonical_serialize();
            res_data.append(&mut inner);
            proof {
                lemma_cser_seq_take_step(self@, i as int);
            }
            i = i + 1;
        }
        proof {
            assert(self@.take(self@.len() as int) =~= self@);
        }
        res_data
    }
}

} // verus!

//! Low-level module for writing the contents of an IL4IL module.
//!
//! Every writer is described by a specification function from the value to the bytes that are written for it, or to
//! `None` when some length or index in it does not fit in 28 bits.
use vstd::prelude::*;
use crate::integer::VarU28;
use crate::integer::VarI28;
use crate::integer::EncodingError;
use crate::binary::spec_length_bytes;
use crate::binary::spec_then;

verus! {

/// Provides a sequence of bytes that can be written to.
#[derive(Debug)]
pub struct Destination {
    bytes: Vec<u8>,
}

impl View for Destination {
    type V = Seq<u8>;

    closed spec fn view(&self) -> Seq<u8> {
        self.bytes@
    }
}

impl Destination {
    /// Creates a destination that holds no bytes yet.
    pub fn new() -> (r: Self)
        ensures
            r@ == Seq::<u8>::empty(),
    {
        Destination { bytes: Vec::new() }
    }

    /// The number of bytes written so far.
    pub fn len(&self) -> (r: usize)
        ensures
            r == self@.len(),
    {
        self.bytes.len()
    }

    /// The bytes written so far.
    pub fn as_slice(&self) -> (r: &[u8])
        ensures
            r@ == self@,
    {
        self.bytes.as_slice()
    }

    /// Returns the bytes written.
    pub fn into_bytes(self) -> (r: Vec<u8>)
        ensures
            r@ == self@,
    {
        self.bytes
    }

    /// Writes a byte.
    pub fn write_byte(&mut self, byte: u8)
        ensures
            final(self)@ == old(self)@.push(byte),
    {
        self.bytes.push(byte);
    }

    /// Writes all of the bytes.
    pub fn write_all(&mut self, bytes: &[u8])
        ensures
            final(self)@ == old(self)@ + bytes@,
    {
        let mut i: usize = 0;
        while i < bytes.len()
            invariant
                i <= bytes.len(),
                self@ == old(self)@ + bytes@.take(i as int),
            decreases bytes.len() - i,
        {
            self.bytes.push(bytes[i]);
            i = i + 1;
            assert(self@ =~= old(self)@ + bytes@.take(i as int));
        }
        assert(bytes@.take(bytes.len() as int) =~= bytes@);
    }

    /// Writes an unsigned variable-length integer.
    pub fn write_var_u28(&mut self, value: VarU28)
        ensures
            final(self)@ == old(self)@ + crate::integer::spec_encode_var_u28(value@),
    {
        value.write_to(&mut self.bytes);
    }

    /// Writes a signed variable-length integer.
    pub fn write_var_i28(&mut self, value: VarI28)
        ensures
            final(self)@ == old(self)@ + crate::integer::spec_encode_var_i28(value@),
    {
        value.write_to(&mut self.bytes);
    }
}

/// Whether a writer that changed the bytes from `before` to `after` and returned `r` wrote what `w` describes.
pub open spec fn spec_write_outcome(before: Seq<u8>, after: Seq<u8>, w: Option<Seq<u8>>, r: Result<(), EncodingError>) -> bool {
    match w {
        Some(b) => r is Ok && after == before + b,
        None => r is Err && before.is_prefix_of(after),
    }
}

/// Writes a length or index, which must fit in 28 bits; a longer one is an error, and nothing is written then.
pub fn write_length(length: usize, out: &mut Destination) -> (r: Result<(), EncodingError>)
    ensures
        spec_write_outcome(old(out)@, final(out)@, spec_length_bytes(length as nat), r),
        r is Err ==> final(out)@ == old(out)@,
{
    match VarU28::from_usize(length) {
        Ok(value) => {
            out.write_var_u28(value);
            Ok(())
        },
        Err(e) => {
            assert(old(out)@.is_prefix_of(out@)) by {
                assert(out@.subrange(0, old(out)@.len() as int) =~= old(out)@);
            }
            Err(e)
        },
    }
}

/// A trait for writing data into a destination.
pub trait WriteTo: View {
    /// The bytes written for a value, or `None` when some length or index in it does not fit in 28 bits.
    spec fn spec_write(v: Self::V) -> Option<Seq<u8>>;

    /// Writes the data to a destination.
    fn write_to(&self, out: &mut Destination) -> (r: Result<(), EncodingError>)
        ensures
            spec_write_outcome(old(out)@, final(out)@, Self::spec_write(self@), r),
    ;
}

/// The bytes written for values one after the other.
pub open spec fn spec_write_many<T: WriteTo>(vs: Seq<T::V>) -> Option<Seq<u8>>
    decreases vs.len(),
{
    if vs.len() == 0 {
        Some(Seq::empty())
    } else {
        spec_then(spec_write_many::<T>(vs.drop_last()), T::spec_write(vs.last()))
    }
}

/// The bytes written for a length followed by values one after the other.
pub open spec fn spec_write_prefixed<T: WriteTo>(vs: Seq<T::V>) -> Option<Seq<u8>> {
    spec_then(spec_length_bytes(vs.len()), spec_write_many::<T>(vs))
}

/// The prefix relation is transitive.
pub proof fn lemma_prefix_trans(a: Seq<u8>, b: Seq<u8>, c: Seq<u8>)
    requires
        a.is_prefix_of(b),
        b.is_prefix_of(c),
    ensures
        a.is_prefix_of(c),
{
    assert(c.subrange(0, a.len() as int) =~= b.subrange(0, a.len() as int));
}

/// Writing fails for a sequence once it fails for one of its leading parts.
proof fn lemma_write_many_none<T: WriteTo>(vs: Seq<T::V>, i: int)
    requires
        0 <= i <= vs.len(),
        spec_write_many::<T>(vs.take(i)) is None,
    ensures
        spec_write_many::<T>(vs) is None,
    decreases vs.len() - i,
{
    if i < vs.len() {
        assert(vs.take(i + 1).drop_last() =~= vs.take(i));
        lemma_write_many_none::<T>(vs, i + 1);
    } else {
        assert(vs.take(i) =~= vs);
    }
}

/// Writes values one after the other.
pub fn write_many<T: WriteTo>(items: &[T], out: &mut Destination) -> (r: Result<(), EncodingError>)
    ensures
        spec_write_outcome(
            old(out)@,
            final(out)@,
            spec_write_many::<T>(crate::binary::parser::spec_views(items@)),
            r,
        ),
{
    let ghost vs = crate::binary::parser::spec_views(items@);
    let mut i: usize = 0;
    while i < items.len()
        invariant
            i <= items.len(),
            vs == crate::binary::parser::spec_views(items@),
            spec_write_many::<T>(vs.take(i as int)) == Some(out@.skip(old(out)@.len() as int)),
            old(out)@.is_prefix_of(out@),
        decreases items.len() - i,
    {
        let ghost before = out@;
        let result = items[i].write_to(out);
        assert(vs.take(i + 1).drop_last() =~= vs.take(i as int));
        assert(vs.take(i + 1).last() == items@[i as int]@);
        match result {
            Ok(()) => {
                assert(out@.skip(old(out)@.len() as int) =~= before.skip(old(out)@.len() as int) + (out@.skip(
                    before.len() as int,
                )));
                assert(out@.skip(before.len() as int) =~= T::spec_write(items@[i as int]@).unwrap());
                proof {
                    lemma_prefix_trans(old(out)@, before, out@);
                }
            },
            Err(e) => {
                proof {
                    lemma_write_many_none::<T>(vs, i + 1);
                    lemma_prefix_trans(old(out)@, before, out@);
                }
                return Err(e);
            },
        }
        i = i + 1;
    }
    assert(vs.take(items.len() as int) =~= vs);
    assert(out@ =~= old(out)@ + out@.skip(old(out)@.len() as int));
    Ok(())
}

/// Values written after their count.
#[derive(Clone, Copy, Debug)]
pub struct LengthPrefixed<'a, T>(pub &'a [T]);

impl<'a, T: View> View for LengthPrefixed<'a, T> {
    type V = Seq<T::V>;

    open spec fn view(&self) -> Seq<T::V> {
        crate::binary::parser::spec_views(self.0@)
    }
}

impl<'a, T: WriteTo> WriteTo for LengthPrefixed<'a, T> {
    open spec fn spec_write(vs: Seq<T::V>) -> Option<Seq<u8>> {
        spec_write_prefixed::<T>(vs)
    }

    fn write_to(&self, out: &mut Destination) -> (r: Result<(), EncodingError>) {
        let ghost start = out@;
        let ghost vs = self@;
        assert(vs.len() == self.0@.len());
        write_length(self.0.len(), out)?;
        let ghost middle = out@;
        let ghost lb = spec_length_bytes(vs.len()).unwrap();
        assert(middle == start + lb);
        let result = write_many(self.0, out);
        match result {
            Ok(()) => {
                let ghost mb = spec_write_many::<T>(vs).unwrap();
                assert(out@ == middle + mb);
                assert(out@ =~= start + (lb + mb));
                Ok(())
            },
            Err(e) => {
                proof {
                    lemma_prefix_trans(start, middle, out@);
                }
                Err(e)
            },
        }
    }
}

impl WriteTo for u8 {
    open spec fn spec_write(v: u8) -> Option<Seq<u8>> {
        Some(seq![v])
    }

    fn write_to(&self, out: &mut Destination) -> (r: Result<(), EncodingError>) {
        out.write_byte(*self);
        assert(out@ =~= old(out)@ + seq![*self]);
        Ok(())
    }
}

/// Bytes followed by more bytes start with the first bytes.
pub proof fn lemma_prefix_concat(a: Seq<u8>, b: Seq<u8>, c: Seq<u8>)
    requires
        (a + b).is_prefix_of(c),
    ensures
        a.is_prefix_of(c),
{
    assert(a.is_prefix_of(a + b)) by {
        assert((a + b).subrange(0, a.len() as int) =~= a);
    }
    lemma_prefix_trans(a, a + b, c);
}

} // verus!

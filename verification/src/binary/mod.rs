//! Module for reading and writing IL4IL modules.
//!
//! The [`parser`] and [`writer`] modules contain the traits and low-level routines for the reading and writing of module
//! contents respectively.
pub mod parser;
pub mod writer;
pub mod types;
pub mod code;
pub mod names;
pub mod functions;
pub mod module;


use vstd::prelude::*;
use crate::binary::parser::ErrorKind;
use crate::binary::parser::ReadFrom;
use crate::binary::parser::spec_parse_length;
use crate::binary::parser::spec_read_many;
use crate::binary::parser::spec_read_prefixed;
use crate::binary::writer::WriteTo;
use crate::binary::writer::spec_write_many;
use crate::binary::writer::spec_write_prefixed;

verus! {

/// The magic number that is the start of all IL4IL module files.
pub open spec fn spec_magic() -> Seq<u8> {
    seq![0x49u8, 0x4Cu8, 0x34u8, 0x49u8, 0x4Cu8, 0x00u8]
}

/// The magic number that is the start of all IL4IL module files, `IL4IL` followed by a `NUL` byte.
pub fn magic() -> (r: Vec<u8>)
    ensures
        r@ == spec_magic(),
{
    let r = vec![0x49u8, 0x4Cu8, 0x34u8, 0x49u8, 0x4Cu8, 0x00u8];
    assert(r@ =~= spec_magic());
    r
}

/// The bytes of a length or index, which must fit in 28 bits.
pub open spec fn spec_length_bytes(n: nat) -> Option<Seq<u8>> {
    if n < 0x1000_0000 {
        Some(crate::integer::spec_encode_var_u28(n as u32))
    } else {
        None
    }
}

/// Reads a length or index.
pub open spec fn spec_read_length(s: Seq<u8>) -> Option<(nat, nat)> {
    match crate::integer::spec_read_var_u28(s) {
        Ok(Ok((v, n))) => Some((v as nat, n)),
        _ => None,
    }
}

/// Concatenates two optional byte sequences, giving `None` if either is `None`.
pub open spec fn spec_then(a: Option<Seq<u8>>, b: Option<Seq<u8>>) -> Option<Seq<u8>> {
    match (a, b) {
        (Some(x), Some(y)) => Some(x + y),
        _ => None,
    }
}

/// A length or index is read back as itself, whatever bytes follow it.
pub proof fn lemma_length_round_trip(n: nat, rest: Seq<u8>)
    requires
        n < 0x1000_0000,
    ensures
        spec_read_length(spec_length_bytes(n).unwrap() + rest) == Some(
            (n, spec_length_bytes(n).unwrap().len()),
        ),
{
    crate::integer::lemma_var_u28_round_trip(n as u32, rest);
}

/// A value that reading gives back after it was written.
pub trait RoundTrip: ReadFrom + WriteTo {
    /// Whether reading gives the value back after writing it.
    spec fn spec_round_trips(v: <Self as View>::V) -> bool;

    /// Reading the bytes written for a value gives the value back, whatever bytes follow them.
    #[verifier::spinoff_prover]
    proof fn lemma_round_trip(v: <Self as View>::V, rest: Seq<u8>)
        requires
            Self::spec_round_trips(v),
            Self::spec_write(v) is Some,
        ensures
            Self::spec_read(Self::spec_write(v).unwrap() + rest) == Ok::<(<Self as View>::V, nat), (ErrorKind, nat)>(
                (v, Self::spec_write(v).unwrap().len()),
            ),
    ;
}

/// Whether reading gives back each of the values after writing it.
pub open spec fn spec_all_round_trip<T: RoundTrip>(vs: Seq<<T as View>::V>) -> bool {
    forall|i: int| 0 <= i < vs.len() ==> #[trigger] T::spec_round_trips(vs[i])
}

/// Reading a length gives it back, whatever bytes follow it.
pub proof fn lemma_parse_length_round_trip(n: nat, rest: Seq<u8>)
    requires
        n < 0x1000_0000,
    ensures
        spec_parse_length(spec_length_bytes(n).unwrap() + rest) == Ok::<(nat, nat), (ErrorKind, nat)>(
            (n, spec_length_bytes(n).unwrap().len()),
        ),
{
    crate::integer::lemma_var_u28_round_trip(n as u32, rest);
}

/// Reading the bytes written for values one after the other gives them back.
pub proof fn lemma_many_round_trip<T: RoundTrip>(vs: Seq<<T as View>::V>, rest: Seq<u8>)
    requires
        spec_all_round_trip::<T>(vs),
        spec_write_many::<T>(vs) is Some,
    ensures
        spec_read_many::<T>(spec_write_many::<T>(vs).unwrap() + rest, vs.len()) == Ok::<
            (Seq<<T as View>::V>, nat),
            (ErrorKind, nat),
        >((vs, spec_write_many::<T>(vs).unwrap().len())),
    decreases vs.len(),
{
    if vs.len() == 0 {
        assert(spec_write_many::<T>(vs).unwrap() =~= Seq::<u8>::empty());
        assert(vs =~= Seq::<<T as View>::V>::empty());
    } else {
        let init = vs.drop_last();
        let last = vs.last();
        let w_init = spec_write_many::<T>(init).unwrap();
        let w_last = T::spec_write(last).unwrap();
        let w = spec_write_many::<T>(vs).unwrap();
        assert(w == w_init + w_last);
        assert(spec_all_round_trip::<T>(init)) by {
            assert forall|i: int| 0 <= i < init.len() implies #[trigger] T::spec_round_trips(init[i]) by {
                assert(init[i] == vs[i]);
            }
        }
        assert(T::spec_round_trips(vs[vs.len() - 1]));
        lemma_many_round_trip::<T>(init, w_last + rest);
        T::lemma_round_trip(last, rest);
        let s = w + rest;
        assert(s =~= w_init + (w_last + rest));
        assert(s.skip(w_init.len() as int) =~= w_last + rest);
        assert(init.push(last) =~= vs);
        assert(init.len() == (vs.len() - 1) as nat);
        assert(spec_read_many::<T>(s, init.len()) == Ok::<(Seq<<T as View>::V>, nat), (ErrorKind, nat)>(
            (init, w_init.len()),
        ));
        assert(T::spec_read(s.skip(w_init.len() as int)) == Ok::<(<T as View>::V, nat), (ErrorKind, nat)>(
            (last, w_last.len()),
        ));
    }
}

/// Reading the bytes written for a length followed by values gives the values back.
pub proof fn lemma_prefixed_round_trip<T: RoundTrip>(vs: Seq<<T as View>::V>, rest: Seq<u8>)
    requires
        spec_all_round_trip::<T>(vs),
        spec_write_prefixed::<T>(vs) is Some,
    ensures
        spec_read_prefixed::<T>(spec_write_prefixed::<T>(vs).unwrap() + rest) == Ok::<
            (Seq<<T as View>::V>, nat),
            (ErrorKind, nat),
        >((vs, spec_write_prefixed::<T>(vs).unwrap().len())),
{
    let lb = spec_length_bytes(vs.len()).unwrap();
    let wm = spec_write_many::<T>(vs).unwrap();
    let s = lb + wm + rest;
    assert(s =~= lb + (wm + rest));
    lemma_parse_length_round_trip(vs.len(), wm + rest);
    assert(s.skip(lb.len() as int) =~= wm + rest);
    lemma_many_round_trip::<T>(vs, rest);
}

} // verus!

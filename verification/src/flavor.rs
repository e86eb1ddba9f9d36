//! The capability every info-record type implements.
//!
//! A flavor binds one record type to its numeric code and diagnostic name,
//! and decodes the packed bytes the host query call writes into typed fields.
//! The host call itself is an outside capability: the hosting program invokes
//! it and hands this library the returned status and the written bytes.

use vstd::prelude::*;
use crate::registry::FlavorVariant;
use crate::registry::flavor_code;
use crate::registry::flavor_name;
use crate::registry::native_size_of;

verus! {

/// One field's name and byte width, for the diagnostic size breakdown.
#[derive(Copy, Clone, Debug)]
pub struct FieldWidth {
    pub name: &'static str,
    pub width: usize,
}

/// The contract every registered info-record type implements: its flavor
/// binding, the size of its native layout, and in-place population from the
/// bytes the host query call wrote.
pub trait Flavor: Sized {
    /// The flavor this record type is bound to.
    spec fn variant_spec() -> FlavorVariant;

    /// The record's diagnostic name, NUL-terminated.
    spec fn name_spec() -> Seq<char>;

    /// The byte size of the record's native layout.
    spec fn size_spec() -> nat;

    /// The typed record whose native byte layout starts `b`.
    spec fn decode_spec(b: Seq<u8>) -> Self;

    /// The per-field size breakdown `describe` reports: each field's name
    /// and byte width, in layout order. Empty when the type offers none.
    open spec fn describe_spec() -> Seq<(Seq<char>, nat)> {
        Seq::empty()
    }

    /// This type's flavor.
    fn variant() -> (v: FlavorVariant)
        ensures
            v == Self::variant_spec(),
    ;

    /// This type's host-recognized symbolic name, used only for validation
    /// and diagnostics, never for runtime dispatch.
    fn c_name() -> (s: &'static str)
        ensures
            s@ == Self::name_spec(),
    ;

    /// The byte size of this record's native layout: how large a buffer the
    /// host query call needs for this flavor.
    fn byte_len() -> (n: usize)
        ensures
            n == Self::size_spec(),
    ;

    /// Decodes one fully populated record from its native byte layout.
    fn from_bytes(b: &[u8]) -> (r: Self)
        requires
            b@.len() >= Self::size_spec(),
        ensures
            r == Self::decode_spec(b@),
    ;

    /// The declared layout's size agrees with the registry's native size
    /// table for this type's flavor.
    proof fn lemma_size_consistent()
        ensures
            Self::size_spec() == native_size_of(Self::variant_spec()),
    ;

    /// The declared diagnostic name agrees with the registry's name table
    /// for this type's flavor.
    proof fn lemma_name_consistent()
        ensures
            Self::name_spec() == flavor_name(Self::variant_spec()),
    ;

    /// Decoding reads only the record's own native region: byte strings
    /// that agree on the record's first `size_spec()` bytes decode to the
    /// same record.
    proof fn lemma_decode_local(b1: Seq<u8>, b2: Seq<u8>)
        requires
            b1.len() >= Self::size_spec(),
            b2.len() >= Self::size_spec(),
            b1.subrange(0, Self::size_spec() as int) == b2.subrange(0, Self::size_spec() as int),
        ensures
            Self::decode_spec(b1) == Self::decode_spec(b2),
    ;

    /// Populates this record in place from the bytes the host query call
    /// wrote for this type's flavor.
    fn init_self(&mut self, b: &[u8])
        requires
            b@.len() >= Self::size_spec(),
        ensures
            *final(self) == Self::decode_spec(b@),
    {
        *self = Self::from_bytes(b);
    }

    /// The outcome of one host query: a populated record when the host
    /// reported success (non-negative status), and nothing when it reported
    /// failure — a structural error the caller must treat as fatal.
    fn new(status: i32, b: &[u8]) -> (r: Option<Self>)
        requires
            b@.len() >= Self::size_spec(),
        ensures
            status >= 0 ==> r == Some(Self::decode_spec(b@)),
            status < 0 ==> r is None,
    {
        if status >= 0 {
            Some(Self::from_bytes(b))
        } else {
            None
        }
    }

    /// Diagnostic hook: this record's per-field size breakdown, consulted
    /// when a size mismatch is detected to aid root-causing which field
    /// disagrees. Types that offer no breakdown report an empty list.
    fn describe() -> (v: Vec<FieldWidth>)
        ensures
            v@.len() == Self::describe_spec().len(),
            forall|i: int|
                0 <= i < v@.len() ==> (#[trigger] v@[i]).name@ == Self::describe_spec()[i].0
                    && v@[i].width == Self::describe_spec()[i].1,
    ;
}

} // verus!

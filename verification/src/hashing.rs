//! Transparent hashing of identifiers and terms.
//!
//! Hashing a wrapping variant feeds the hasher exactly the bytes of the
//! wrapped payload — no discriminant — so the hash of `Id::Iri(i)` equals
//! the hash of `i` alone, and the hash of `Term::Id(id)` equals the hash of
//! `id` alone. The write sequence of each value is its `hash_writes`, and
//! the transparency laws equate the write sequences of wrapper and payload.

use vstd::prelude::*;
use vstd::string::*;

verus! {

use core::hash::Hasher;
use std::collections::hash_map::DefaultHasher;
use vstd::std_specs::hash::DefaultHasherAdditionalSpecFns;
use crate::lexical::{BlankIdBuf, IriBuf, LangTagBuf};
use crate::literal::{Literal, Type};
use crate::term::id::Id;
use crate::term::Term;

/// A value with a fixed hasher-write sequence.
pub trait TransparentHash {
    /// The byte sequences this value feeds to a hasher.
    spec fn hash_writes(&self) -> Seq<Seq<u8>>;

    /// Feeds this value to the hasher.
    fn hash_into(&self, state: &mut DefaultHasher)
        ensures
            final(state)@ == old(state)@ + self.hash_writes(),
    ;
}

/// The hash of a value: what a fresh hasher returns after the value's
/// writes.
pub fn hash_value<T: TransparentHash>(v: &T) -> (r: u64)
    ensures
        r == DefaultHasher::spec_finish(v.hash_writes()),
{
    let mut h = DefaultHasher::new();
    v.hash_into(&mut h);
    proof {
        assert(h@ =~= v.hash_writes());
    }
    h.finish()
}

impl TransparentHash for IriBuf {
    open spec fn hash_writes(&self) -> Seq<Seq<u8>> {
        seq![vstd::utf8::encode_utf8(self@)]
    }

    fn hash_into(&self, state: &mut DefaultHasher) {
        state.write(self.as_str().as_bytes());
        proof {
            assert(final(state)@ =~= old(state)@ + self.hash_writes());
        }
    }
}

impl TransparentHash for BlankIdBuf {
    open spec fn hash_writes(&self) -> Seq<Seq<u8>> {
        seq![vstd::utf8::encode_utf8(self@)]
    }

    fn hash_into(&self, state: &mut DefaultHasher) {
        state.write(self.as_str().as_bytes());
        proof {
            assert(final(state)@ =~= old(state)@ + self.hash_writes());
        }
    }
}

impl TransparentHash for LangTagBuf {
    open spec fn hash_writes(&self) -> Seq<Seq<u8>> {
        seq![vstd::utf8::encode_utf8(self@)]
    }

    fn hash_into(&self, state: &mut DefaultHasher) {
        state.write(self.as_str().as_bytes());
        proof {
            assert(final(state)@ =~= old(state)@ + self.hash_writes());
        }
    }
}

impl TransparentHash for Id<IriBuf, BlankIdBuf> {
    open spec fn hash_writes(&self) -> Seq<Seq<u8>> {
        match self {
            Id::Iri(i) => i.hash_writes(),
            Id::Blank(b) => b.hash_writes(),
        }
    }

    fn hash_into(&self, state: &mut DefaultHasher) {
        match self {
            Id::Iri(i) => i.hash_into(state),
            Id::Blank(b) => b.hash_into(state),
        }
    }
}

impl TransparentHash for Type<IriBuf, LangTagBuf> {
    open spec fn hash_writes(&self) -> Seq<Seq<u8>> {
        match self {
            Type::Any(i) => i.hash_writes(),
            Type::LangString(t) => t.hash_writes(),
        }
    }

    fn hash_into(&self, state: &mut DefaultHasher) {
        match self {
            Type::Any(i) => i.hash_into(state),
            Type::LangString(t) => t.hash_into(state),
        }
    }
}

impl TransparentHash for Literal<Type<IriBuf, LangTagBuf>, String> {
    open spec fn hash_writes(&self) -> Seq<Seq<u8>> {
        seq![vstd::utf8::encode_utf8(self.spec_value()@)] + self.spec_type().hash_writes()
    }

    fn hash_into(&self, state: &mut DefaultHasher) {
        state.write(self.as_str().as_bytes());
        self.type_().hash_into(state);
        proof {
            assert(final(state)@ =~= old(state)@ + self.hash_writes());
        }
    }
}

impl TransparentHash for Term<Id<IriBuf, BlankIdBuf>, Literal<Type<IriBuf, LangTagBuf>, String>> {
    open spec fn hash_writes(&self) -> Seq<Seq<u8>> {
        match self {
            Term::Id(id) => id.hash_writes(),
            Term::Literal(l) => l.hash_writes(),
        }
    }

    fn hash_into(&self, state: &mut DefaultHasher) {
        match self {
            Term::Id(id) => id.hash_into(state),
            Term::Literal(l) => l.hash_into(state),
        }
    }
}

/// Hashing an identifier is transparent: `Id::Iri(i)` writes exactly what
/// `i` alone writes, and `Id::Blank(b)` exactly what `b` alone writes, so
/// their hashes coincide.
pub proof fn lemma_id_hash_transparent(i: IriBuf, b: BlankIdBuf)
    ensures
        Id::<IriBuf, BlankIdBuf>::Iri(i).hash_writes() == i.hash_writes(),
        Id::<IriBuf, BlankIdBuf>::Blank(b).hash_writes() == b.hash_writes(),
{
}

/// Hashing a term is transparent: `Term::Id(id)` writes exactly what `id`
/// alone writes, and `Term::Literal(l)` exactly what `l` alone writes, so
/// their hashes coincide.
pub proof fn lemma_term_hash_transparent(
    id: Id<IriBuf, BlankIdBuf>,
    l: Literal<Type<IriBuf, LangTagBuf>, String>,
)
    ensures
        Term::<Id<IriBuf, BlankIdBuf>, Literal<Type<IriBuf, LangTagBuf>, String>>::Id(
            id,
        ).hash_writes() == id.hash_writes(),
        Term::<Id<IriBuf, BlankIdBuf>, Literal<Type<IriBuf, LangTagBuf>, String>>::Literal(
            l,
        ).hash_writes() == l.hash_writes(),
{
}

} // verus!

//! RDF node identifiers.

use vstd::prelude::*;

verus! {

use core::cmp::Ordering;
use vstd::std_specs::cmp::{PartialEqSpec, PartialOrdSpec};
use crate::lexical::{BlankIdBuf, IriBuf};
use crate::vocabulary::{
    blank_arena_insert, blank_insert_id, blank_resolve, iri_arena_insert, iri_insert_id,
    iri_resolve, IndexVocabulary, IndexedBlankId, IndexedIri,
};

/// RDF node identifier: either a blank node identifier or an IRI.
///
/// The order places every `Blank` value before every `Iri` value; within a
/// variant the payloads' order decides. Comparison and equality are
/// *transparent*: comparing two `Id` values of the same variant equals
/// comparing the payloads directly (see `lemma_id_eq_transparent` and
/// `lemma_id_cmp_transparent`).
#[derive(Clone, Copy, Debug)]
pub enum Id<I = IriBuf, B = BlankIdBuf> {
    /// Blank node identifier.
    Blank(B),
    /// IRI.
    Iri(I),
}

/// Lexical RDF node identifier reference.
pub type LexicalIdRef<'a> = Id<&'a IriBuf, &'a BlankIdBuf>;

impl<I, B> Id<I, B> {
    /// Whether this is a blank node identifier.
    pub fn is_blank(&self) -> (r: bool)
        ensures
            r == (self is Blank),
    {
        matches!(self, Id::Blank(_))
    }

    /// Whether this is an IRI.
    pub fn is_iri(&self) -> (r: bool)
        ensures
            r == (self is Iri),
    {
        matches!(self, Id::Iri(_))
    }

    /// The blank node identifier, if this is one.
    pub fn as_blank(&self) -> (r: Option<&B>)
        ensures
            match r {
                Some(b) => self matches Id::Blank(x) && x == *b,
                None => self is Iri,
            },
    {
        match self {
            Id::Blank(id) => Some(id),
            _ => None,
        }
    }

    /// The IRI, if this is one.
    pub fn as_iri(&self) -> (r: Option<&I>)
        ensures
            match r {
                Some(i) => self matches Id::Iri(x) && x == *i,
                None => self is Blank,
            },
    {
        match self {
            Id::Iri(iri) => Some(iri),
            _ => None,
        }
    }

    /// The blank node identifier, or the IRI as the error.
    pub fn try_into_blank(self) -> (r: Result<B, I>)
        ensures
            match r {
                Ok(b) => self == Id::<I, B>::Blank(b),
                Err(i) => self == Id::<I, B>::Iri(i),
            },
    {
        match self {
            Id::Blank(id) => Ok(id),
            Id::Iri(iri) => Err(iri),
        }
    }

    /// The blank node identifier, if this is one.
    pub fn into_blank(self) -> (r: Option<B>)
        ensures
            match r {
                Some(b) => self == Id::<I, B>::Blank(b),
                None => self is Iri,
            },
    {
        match self {
            Id::Blank(id) => Some(id),
            _ => None,
        }
    }

    /// The IRI, or the blank node identifier as the error.
    pub fn try_into_iri(self) -> (r: Result<I, B>)
        ensures
            match r {
                Ok(i) => self == Id::<I, B>::Iri(i),
                Err(b) => self == Id::<I, B>::Blank(b),
            },
    {
        match self {
            Id::Iri(iri) => Ok(iri),
            Id::Blank(b) => Err(b),
        }
    }

    /// The IRI, if this is one.
    pub fn into_iri(self) -> (r: Option<I>)
        ensures
            match r {
                Some(i) => self == Id::<I, B>::Iri(i),
                None => self is Blank,
            },
    {
        match self {
            Id::Iri(iri) => Some(iri),
            _ => None,
        }
    }

    /// Converts an `&Id<I, B>` into an `Id<&I, &B>`.
    pub fn as_ref(&self) -> (r: Id<&I, &B>)
        ensures
            match r {
                Id::Iri(i) => self matches Id::Iri(x) && x == *i,
                Id::Blank(b) => self matches Id::Blank(x) && x == *b,
            },
    {
        match self {
            Id::Iri(i) => Id::Iri(i),
            Id::Blank(b) => Id::Blank(b),
        }
    }
}

impl<'a, I, B> Id<&'a I, &'a B> {
    /// Clones the payload out of an `Id<&I, &B>`.
    pub fn cloned(self) -> (r: Id<I, B>) where I: Clone, B: Clone
        ensures
            match (self, r) {
                (Id::Iri(x), Id::Iri(y)) => vstd::pervasive::cloned::<I>(*x, y),
                (Id::Blank(x), Id::Blank(y)) => vstd::pervasive::cloned::<B>(*x, y),
                _ => false,
            },
    {
        match self {
            Id::Iri(i) => Id::Iri(i.clone()),
            Id::Blank(b) => Id::Blank(b.clone()),
        }
    }

    /// Copies the payload out of an `Id<&I, &B>`.
    pub fn copied(self) -> (r: Id<I, B>) where I: Copy, B: Copy
        ensures
            match r {
                Id::Iri(i) => self matches Id::Iri(x) && *x == i,
                Id::Blank(b) => self matches Id::Blank(x) && *x == b,
            },
    {
        match self {
            Id::Iri(i) => Id::Iri(*i),
            Id::Blank(b) => Id::Blank(*b),
        }
    }
}

impl<I: PartialEq, B: PartialEq> PartialEq for Id<I, B> {
    fn eq(&self, other: &Self) -> (r: bool) {
        match (self, other) {
            (Id::Blank(a), Id::Blank(b)) => a == b,
            (Id::Iri(a), Id::Iri(b)) => a == b,
            _ => false,
        }
    }
}

impl<I: PartialEq, B: PartialEq> vstd::std_specs::cmp::PartialEqSpecImpl for Id<I, B> {
    open spec fn obeys_eq_spec() -> bool {
        <I as vstd::std_specs::cmp::PartialEqSpec>::obeys_eq_spec()
            && <B as vstd::std_specs::cmp::PartialEqSpec>::obeys_eq_spec()
    }

    open spec fn eq_spec(&self, other: &Self) -> bool {
        match (self, other) {
            (Id::Blank(a), Id::Blank(b)) => <B as vstd::std_specs::cmp::PartialEqSpec>::eq_spec(
                a,
                b,
            ),
            (Id::Iri(a), Id::Iri(b)) => <I as vstd::std_specs::cmp::PartialEqSpec>::eq_spec(a, b),
            _ => false,
        }
    }
}

impl<I: PartialOrd, B: PartialOrd> PartialOrd for Id<I, B> {
    fn partial_cmp(&self, other: &Self) -> (r: Option<Ordering>) {
        match (self, other) {
            (Id::Blank(a), Id::Blank(b)) => a.partial_cmp(b),
            (Id::Blank(_), _) => Some(Ordering::Less),
            (Id::Iri(a), Id::Iri(b)) => a.partial_cmp(b),
            _ => Some(Ordering::Greater),
        }
    }
}

impl<I: PartialOrd, B: PartialOrd> vstd::std_specs::cmp::PartialOrdSpecImpl for Id<I, B> {
    open spec fn obeys_partial_cmp_spec() -> bool {
        <I as vstd::std_specs::cmp::PartialOrdSpec>::obeys_partial_cmp_spec()
            && <B as vstd::std_specs::cmp::PartialOrdSpec>::obeys_partial_cmp_spec()
    }

    open spec fn partial_cmp_spec(&self, other: &Self) -> Option<Ordering> {
        match (self, other) {
            (Id::Blank(a), Id::Blank(b)) => <B as vstd::std_specs::cmp::PartialOrdSpec>::partial_cmp_spec(a, b),
            (Id::Blank(_), Id::Iri(_)) => Some(Ordering::Less),
            (Id::Iri(a), Id::Iri(b)) => <I as vstd::std_specs::cmp::PartialOrdSpec>::partial_cmp_spec(a, b),
            (Id::Iri(_), Id::Blank(_)) => Some(Ordering::Greater),
        }
    }
}

/// Every blank node identifier orders strictly before every IRI, whatever
/// the payloads hold.
pub proof fn lemma_id_blank_lt_iri<I: PartialOrd, B: PartialOrd>(b: B, i: I)
    ensures
        Id::<I, B>::Blank(b).partial_cmp_spec(&Id::<I, B>::Iri(i)) == Some(Ordering::Less),
        Id::<I, B>::Iri(i).partial_cmp_spec(&Id::<I, B>::Blank(b)) == Some(Ordering::Greater),
{
}

/// Equality is transparent: comparing wrapped payloads for equality equals
/// comparing the payloads directly.
pub proof fn lemma_id_eq_transparent<I: PartialEq, B: PartialEq>(x: I, y: I, bx: B, by: B)
    ensures
        Id::<I, B>::Iri(x).eq_spec(&Id::<I, B>::Iri(y))
            == <I as vstd::std_specs::cmp::PartialEqSpec>::eq_spec(&x, &y),
        Id::<I, B>::Blank(bx).eq_spec(&Id::<I, B>::Blank(by))
            == <B as vstd::std_specs::cmp::PartialEqSpec>::eq_spec(&bx, &by),
{
}

/// Comparison is transparent: comparing wrapped payloads equals comparing
/// the payloads directly.
pub proof fn lemma_id_cmp_transparent<I: PartialOrd, B: PartialOrd>(x: I, y: I, bx: B, by: B)
    ensures
        Id::<I, B>::Iri(x).partial_cmp_spec(&Id::<I, B>::Iri(y))
            == <I as vstd::std_specs::cmp::PartialOrdSpec>::partial_cmp_spec(&x, &y),
        Id::<I, B>::Blank(bx).partial_cmp_spec(&Id::<I, B>::Blank(by))
            == <B as vstd::std_specs::cmp::PartialOrdSpec>::partial_cmp_spec(&bx, &by),
{
}

impl Id<IriBuf, BlankIdBuf> {
    /// Borrows the string representation: the IRI's text, or the blank node
    /// identifier's text with its `_:` prefix.
    pub fn as_str(&self) -> (r: &str)
        ensures
            match self {
                Id::Iri(i) => r@ == i@,
                Id::Blank(b) => r@ == b@,
            },
    {
        match self {
            Id::Iri(i) => i.as_str(),
            Id::Blank(b) => b.as_str(),
        }
    }

    /// Borrows each payload of the identifier.
    pub fn as_lexical_id_ref(&self) -> (r: LexicalIdRef<'_>)
        ensures
            match r {
                Id::Iri(i) => self matches Id::Iri(x) && x == *i,
                Id::Blank(b) => self matches Id::Blank(x) && x == *b,
            },
    {
        self.as_ref()
    }

    /// Alias for [`Self::as_lexical_id_ref`].
    pub fn as_lexical_subject_ref(&self) -> (r: LexicalIdRef<'_>)
        ensures
            match r {
                Id::Iri(i) => self matches Id::Iri(x) && x == *i,
                Id::Blank(b) => self matches Id::Blank(x) && x == *b,
            },
    {
        self.as_lexical_id_ref()
    }

    /// Alias for [`Self::as_lexical_id_ref`].
    pub fn as_graph_label_ref(&self) -> (r: LexicalIdRef<'_>)
        ensures
            match r {
                Id::Iri(i) => self matches Id::Iri(x) && x == *i,
                Id::Blank(b) => self matches Id::Blank(x) && x == *b,
            },
    {
        self.as_lexical_id_ref()
    }

    /// Interns this lexical identifier into the vocabulary, keeping the
    /// variant and embedding the payload's identifier.
    pub fn inserted_into<Ii: IndexedIri, Bb: IndexedBlankId>(
        &self,
        vocabulary: &mut IndexVocabulary<Ii, Bb>,
    ) -> (r: Id<Ii, Bb>)
        ensures
            match self {
                Id::Iri(i) => {
                    &&& final(vocabulary).iris() == iri_arena_insert::<Ii>(
                        old(vocabulary).iris(),
                        i@,
                    )
                    &&& final(vocabulary).blank_ids() == old(vocabulary).blank_ids()
                    &&& r == Id::<Ii, Bb>::Iri(iri_insert_id::<Ii>(old(vocabulary).iris(), i@))
                },
                Id::Blank(b) => {
                    &&& final(vocabulary).blank_ids() == blank_arena_insert::<Bb>(
                        old(vocabulary).blank_ids(),
                        b@,
                    )
                    &&& final(vocabulary).iris() == old(vocabulary).iris()
                    &&& r == Id::<Ii, Bb>::Blank(
                        blank_insert_id::<Bb>(old(vocabulary).blank_ids(), b@),
                    )
                },
            },
    {
        match self {
            Id::Blank(b) => Id::Blank(vocabulary.insert_blank_id(b)),
            Id::Iri(i) => Id::Iri(vocabulary.insert(i)),
        }
    }

    /// Consuming form of [`Self::inserted_into`].
    pub fn insert_into<Ii: IndexedIri, Bb: IndexedBlankId>(
        self,
        vocabulary: &mut IndexVocabulary<Ii, Bb>,
    ) -> (r: Id<Ii, Bb>)
        ensures
            match self {
                Id::Iri(i) => {
                    &&& final(vocabulary).iris() == iri_arena_insert::<Ii>(
                        old(vocabulary).iris(),
                        i@,
                    )
                    &&& final(vocabulary).blank_ids() == old(vocabulary).blank_ids()
                    &&& r == Id::<Ii, Bb>::Iri(iri_insert_id::<Ii>(old(vocabulary).iris(), i@))
                },
                Id::Blank(b) => {
                    &&& final(vocabulary).blank_ids() == blank_arena_insert::<Bb>(
                        old(vocabulary).blank_ids(),
                        b@,
                    )
                    &&& final(vocabulary).iris() == old(vocabulary).iris()
                    &&& r == Id::<Ii, Bb>::Blank(
                        blank_insert_id::<Bb>(old(vocabulary).blank_ids(), b@),
                    )
                },
            },
    {
        match self {
            Id::Blank(b) => Id::Blank(vocabulary.insert_blank_id(&b)),
            Id::Iri(i) => Id::Iri(vocabulary.insert(&i)),
        }
    }
}

impl<'a> LexicalIdRef<'a> {
    /// Clones the borrowed payloads into an owned identifier.
    pub fn into_owned(self) -> (r: Id<IriBuf, BlankIdBuf>)
        ensures
            match r {
                Id::Iri(i) => self matches Id::Iri(x) && i == *x,
                Id::Blank(b) => self matches Id::Blank(x) && b == *x,
            },
    {
        match self {
            Id::Iri(i) => Id::Iri(i.clone()),
            Id::Blank(b) => Id::Blank(b.clone()),
        }
    }
}

impl<I: IndexedIri, B: IndexedBlankId> Id<I, B> {
    /// Resolves a vocabulary identifier back to its lexical form: the
    /// exported identifier on success, the foreign identifier itself on
    /// failure.
    pub fn try_export_id(self, vocabulary: &IndexVocabulary<I, B>) -> (r: Result<
        Id<IriBuf, BlankIdBuf>,
        Id<I, B>,
    >)
        ensures
            match self {
                Id::Iri(i) => match iri_resolve::<I>(vocabulary.iris(), i) {
                    Some(s) => r matches Ok(Id::Iri(x)) && x@ == s,
                    None => r == Err::<Id<IriBuf, BlankIdBuf>, Id<I, B>>(self),
                },
                Id::Blank(b) => match blank_resolve::<B>(vocabulary.blank_ids(), b) {
                    Some(s) => r matches Ok(Id::Blank(x)) && x@ == s,
                    None => r == Err::<Id<IriBuf, BlankIdBuf>, Id<I, B>>(self),
                },
            },
    {
        match self {
            Id::Iri(i) => match vocabulary.iri(&i) {
                Some(s) => Ok(Id::Iri(s)),
                None => Err(Id::Iri(i)),
            },
            Id::Blank(b) => match vocabulary.blank_id(&b) {
                Some(s) => Ok(Id::Blank(s)),
                None => Err(Id::Blank(b)),
            },
        }
    }
}

} // verus!

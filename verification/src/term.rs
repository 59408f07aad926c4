//! RDF terms: node identifiers and literal values.

pub mod id;

use vstd::prelude::*;

verus! {

use core::cmp::Ordering;
use vstd::std_specs::cmp::{PartialEqSpec, PartialOrdSpec};
use crate::lexical::{BlankIdBuf, IriBuf, LangTagBuf};
use crate::literal::{ExportError, Literal, Type};
use crate::term::id::{Id, LexicalIdRef};
use crate::vocabulary::{
    blank_arena_insert, blank_insert_id, blank_resolve, iri_arena_insert, iri_insert_id,
    iri_resolve, IndexVocabulary, IndexedBlankId, IndexedIri,
};

/// RDF term: either a node identifier or a literal value.
///
/// The order places every `Id` value before every `Literal` value; within a
/// variant the payloads' order decides. Comparison and equality are
/// *transparent*: comparing two `Term` values of the same variant equals
/// comparing the payloads directly (see `lemma_term_eq_transparent` and
/// `lemma_term_cmp_transparent`).
#[derive(Clone, Copy, Debug)]
pub enum Term<I = Id, L = Literal> {
    /// Node identifier.
    Id(I),
    /// Literal value.
    Literal(L),
}

/// Lexical RDF term.
pub type LexicalTerm = Term<Id<IriBuf, BlankIdBuf>, Literal<Type<IriBuf, LangTagBuf>, String>>;

/// Lexical RDF term reference.
pub type LexicalTermRef<'a> = Term<LexicalIdRef<'a>, &'a Literal>;

/// RDF triple/quad subject.
pub type Subject<I = IriBuf, B = BlankIdBuf> = Id<I, B>;

/// Lexical RDF subject reference.
pub type LexicalSubjectRef<'a> = LexicalIdRef<'a>;

/// RDF triple/quad object.
pub type Object<I = Id, L = Literal> = Term<I, L>;

/// Lexical RDF object reference.
pub type LexicalObjectRef<'a> = LexicalTermRef<'a>;

/// RDF quad graph label.
pub type GraphLabel<I = IriBuf, B = BlankIdBuf> = Id<I, B>;

/// Lexical RDF graph label reference.
pub type LexicalGraphLabelRef<'a> = LexicalIdRef<'a>;

impl<I, L> Term<I, L> {
    /// Whether this is a node identifier.
    pub fn is_id(&self) -> (r: bool)
        ensures
            r == (self is Id),
    {
        matches!(self, Term::Id(_))
    }

    /// Whether this is a literal value.
    pub fn is_literal(&self) -> (r: bool)
        ensures
            r == (self is Literal),
    {
        matches!(self, Term::Literal(_))
    }

    /// The node identifier, if this is one.
    pub fn as_id(&self) -> (r: Option<&I>)
        ensures
            match r {
                Some(i) => self matches Term::Id(x) && x == *i,
                None => self is Literal,
            },
    {
        match self {
            Term::Id(id) => Some(id),
            _ => None,
        }
    }

    /// The node identifier, if this is one.
    pub fn into_id(self) -> (r: Option<I>)
        ensures
            match r {
                Some(i) => self == Term::<I, L>::Id(i),
                None => self is Literal,
            },
    {
        match self {
            Term::Id(id) => Some(id),
            _ => None,
        }
    }

    /// The node identifier, or the literal as the error.
    pub fn try_into_id(self) -> (r: Result<I, L>)
        ensures
            match r {
                Ok(i) => self == Term::<I, L>::Id(i),
                Err(l) => self == Term::<I, L>::Literal(l),
            },
    {
        match self {
            Term::Id(id) => Ok(id),
            Term::Literal(l) => Err(l),
        }
    }

    /// The literal, if this is one.
    pub fn as_literal(&self) -> (r: Option<&L>)
        ensures
            match r {
                Some(l) => self matches Term::Literal(x) && x == *l,
                None => self is Id,
            },
    {
        match self {
            Term::Literal(lit) => Some(lit),
            _ => None,
        }
    }

    /// The literal, if this is one.
    pub fn into_literal(self) -> (r: Option<L>)
        ensures
            match r {
                Some(l) => self == Term::<I, L>::Literal(l),
                None => self is Id,
            },
    {
        match self {
            Term::Literal(lit) => Some(lit),
            _ => None,
        }
    }

    /// The literal, or the node identifier as the error.
    pub fn try_into_literal(self) -> (r: Result<L, I>)
        ensures
            match r {
                Ok(l) => self == Term::<I, L>::Literal(l),
                Err(i) => self == Term::<I, L>::Id(i),
            },
    {
        match self {
            Term::Literal(lit) => Ok(lit),
            Term::Id(id) => Err(id),
        }
    }

    /// Converts from `&Term<I, L>` to `Term<&I, &L>`.
    pub fn as_ref(&self) -> (r: Term<&I, &L>)
        ensures
            match r {
                Term::Id(i) => self matches Term::Id(x) && x == *i,
                Term::Literal(l) => self matches Term::Literal(x) && x == *l,
            },
    {
        match self {
            Term::Id(id) => Term::Id(id),
            Term::Literal(l) => Term::Literal(l),
        }
    }
}

impl<I2, B2, L> Term<Id<I2, B2>, L> {
    /// Wraps a blank node identifier as a term.
    pub fn blank(id: B2) -> (r: Self)
        ensures
            r == Term::<Id<I2, B2>, L>::Id(Id::Blank(id)),
    {
        Term::Id(Id::Blank(id))
    }

    /// Wraps an IRI as a term.
    pub fn iri(iri: I2) -> (r: Self)
        ensures
            r == Term::<Id<I2, B2>, L>::Id(Id::Iri(iri)),
    {
        Term::Id(Id::Iri(iri))
    }

    /// Whether this is a blank node identifier.
    pub fn is_blank(&self) -> (r: bool)
        ensures
            r == (self matches Term::Id(Id::Blank(_))),
    {
        match self {
            Term::Id(id) => id.is_blank(),
            Term::Literal(_) => false,
        }
    }

    /// Whether this is an IRI.
    pub fn is_iri(&self) -> (r: bool)
        ensures
            r == (self matches Term::Id(Id::Iri(_))),
    {
        match self {
            Term::Id(id) => id.is_iri(),
            Term::Literal(_) => false,
        }
    }

    /// The blank node identifier, if this is one.
    pub fn as_blank(&self) -> (r: Option<&B2>)
        ensures
            match r {
                Some(b) => self matches Term::Id(Id::Blank(x)) && x == *b,
                None => !(self matches Term::Id(Id::Blank(_))),
            },
    {
        match self {
            Term::Id(Id::Blank(b)) => Some(b),
            _ => None,
        }
    }

    /// The blank node identifier, or the unchanged term as the error.
    pub fn try_into_blank(self) -> (r: Result<B2, Self>)
        ensures
            match r {
                Ok(b) => self == Term::<Id<I2, B2>, L>::Id(Id::Blank(b)),
                Err(t) => t == self && !(self matches Term::Id(Id::Blank(_))),
            },
    {
        match self {
            Term::Id(Id::Blank(b)) => Ok(b),
            other => Err(other),
        }
    }

    /// The blank node identifier, if this is one.
    pub fn into_blank(self) -> (r: Option<B2>)
        ensures
            match r {
                Some(b) => self == Term::<Id<I2, B2>, L>::Id(Id::Blank(b)),
                None => !(self matches Term::Id(Id::Blank(_))),
            },
    {
        match self {
            Term::Id(Id::Blank(b)) => Some(b),
            _ => None,
        }
    }

    /// The IRI, if this is one.
    pub fn as_iri(&self) -> (r: Option<&I2>)
        ensures
            match r {
                Some(i) => self matches Term::Id(Id::Iri(x)) && x == *i,
                None => !(self matches Term::Id(Id::Iri(_))),
            },
    {
        match self {
            Term::Id(Id::Iri(i)) => Some(i),
            _ => None,
        }
    }

    /// The IRI, or the unchanged term as the error.
    pub fn try_into_iri(self) -> (r: Result<I2, Self>)
        ensures
            match r {
                Ok(i) => self == Term::<Id<I2, B2>, L>::Id(Id::Iri(i)),
                Err(t) => t == self && !(self matches Term::Id(Id::Iri(_))),
            },
    {
        match self {
            Term::Id(Id::Iri(i)) => Ok(i),
            other => Err(other),
        }
    }

    /// The IRI, if this is one.
    pub fn into_iri(self) -> (r: Option<I2>)
        ensures
            match r {
                Some(i) => self == Term::<Id<I2, B2>, L>::Id(Id::Iri(i)),
                None => !(self matches Term::Id(Id::Iri(_))),
            },
    {
        match self {
            Term::Id(Id::Iri(i)) => Some(i),
            _ => None,
        }
    }
}

impl<'a, I, L> Term<&'a I, &'a L> {
    /// Clones the payload out of a `Term<&I, &L>`.
    pub fn cloned(self) -> (r: Term<I, L>) where I: Clone, L: Clone
        ensures
            match (self, r) {
                (Term::Id(x), Term::Id(y)) => vstd::pervasive::cloned::<I>(*x, y),
                (Term::Literal(x), Term::Literal(y)) => vstd::pervasive::cloned::<L>(*x, y),
                _ => false,
            },
    {
        match self {
            Term::Id(i) => Term::Id(i.clone()),
            Term::Literal(l) => Term::Literal(l.clone()),
        }
    }

    /// Copies the payload out of a `Term<&I, &L>`.
    pub fn copied(self) -> (r: Term<I, L>) where I: Copy, L: Copy
        ensures
            match r {
                Term::Id(i) => self matches Term::Id(x) && *x == i,
                Term::Literal(l) => self matches Term::Literal(x) && *x == l,
            },
    {
        match self {
            Term::Id(id) => Term::Id(*id),
            Term::Literal(l) => Term::Literal(*l),
        }
    }
}

impl<'a> LexicalTermRef<'a> {
    /// Clones the borrowed payloads into an owned term.
    pub fn into_owned(self) -> (r: LexicalTerm)
        ensures
            match (self, r) {
                (Term::Id(x), Term::Id(y)) => match (x, y) {
                    (Id::Iri(a), Id::Iri(b)) => b == *a,
                    (Id::Blank(a), Id::Blank(b)) => b == *a,
                    _ => false,
                },
                (Term::Literal(x), Term::Literal(y)) => y == *x,
                _ => false,
            },
    {
        match self {
            Term::Id(id) => Term::Id(id.into_owned()),
            Term::Literal(l) => Term::Literal(l.cloned()),
        }
    }
}

impl<I, B> Id<I, B> {
    /// Converts this identifier reference into the term `Term::Id(&id)`.
    pub fn as_term<L>(&self) -> (r: Term<&Id<I, B>, &L>)
        ensures
            r matches Term::Id(x) && x == self,
    {
        Term::Id(self)
    }

    /// Converts the identifier into the term `Term::Id(id)`.
    pub fn into_term<L>(self) -> (r: Term<Id<I, B>, L>)
        ensures
            r == Term::<Id<I, B>, L>::Id(self),
    {
        Term::Id(self)
    }
}

impl<I: PartialEq, L: PartialEq> PartialEq for Term<I, L> {
    fn eq(&self, other: &Self) -> (r: bool) {
        match (self, other) {
            (Term::Id(a), Term::Id(b)) => a == b,
            (Term::Literal(a), Term::Literal(b)) => a == b,
            _ => false,
        }
    }
}

impl<I: PartialEq, L: PartialEq> vstd::std_specs::cmp::PartialEqSpecImpl for Term<I, L> {
    open spec fn obeys_eq_spec() -> bool {
        <I as vstd::std_specs::cmp::PartialEqSpec>::obeys_eq_spec()
            && <L as vstd::std_specs::cmp::PartialEqSpec>::obeys_eq_spec()
    }

    open spec fn eq_spec(&self, other: &Self) -> bool {
        match (self, other) {
            (Term::Id(a), Term::Id(b)) => <I as vstd::std_specs::cmp::PartialEqSpec>::eq_spec(
                a,
                b,
            ),
            (Term::Literal(a), Term::Literal(b)) => <L as vstd::std_specs::cmp::PartialEqSpec>::eq_spec(a, b),
            _ => false,
        }
    }
}

impl<I: PartialOrd, L: PartialOrd> PartialOrd for Term<I, L> {
    fn partial_cmp(&self, other: &Self) -> (r: Option<Ordering>) {
        match (self, other) {
            (Term::Id(a), Term::Id(b)) => a.partial_cmp(b),
            (Term::Id(_), Term::Literal(_)) => Some(Ordering::Less),
            (Term::Literal(a), Term::Literal(b)) => a.partial_cmp(b),
            (Term::Literal(_), Term::Id(_)) => Some(Ordering::Greater),
        }
    }
}

impl<I: PartialOrd, L: PartialOrd> vstd::std_specs::cmp::PartialOrdSpecImpl for Term<I, L> {
    open spec fn obeys_partial_cmp_spec() -> bool {
        <I as vstd::std_specs::cmp::PartialOrdSpec>::obeys_partial_cmp_spec()
            && <L as vstd::std_specs::cmp::PartialOrdSpec>::obeys_partial_cmp_spec()
    }

    open spec fn partial_cmp_spec(&self, other: &Self) -> Option<Ordering> {
        match (self, other) {
            (Term::Id(a), Term::Id(b)) => <I as vstd::std_specs::cmp::PartialOrdSpec>::partial_cmp_spec(a, b),
            (Term::Id(_), Term::Literal(_)) => Some(Ordering::Less),
            (Term::Literal(a), Term::Literal(b)) => <L as vstd::std_specs::cmp::PartialOrdSpec>::partial_cmp_spec(a, b),
            (Term::Literal(_), Term::Id(_)) => Some(Ordering::Greater),
        }
    }
}

/// Every node identifier orders strictly before every literal, whatever the
/// payloads hold.
pub proof fn lemma_term_id_lt_literal<I: PartialOrd, L: PartialOrd>(i: I, l: L)
    ensures
        Term::<I, L>::Id(i).partial_cmp_spec(&Term::<I, L>::Literal(l)) == Some(Ordering::Less),
        Term::<I, L>::Literal(l).partial_cmp_spec(&Term::<I, L>::Id(i)) == Some(
            Ordering::Greater,
        ),
{
}

/// Equality is transparent: comparing wrapped payloads for equality equals
/// comparing the payloads directly.
pub proof fn lemma_term_eq_transparent<I: PartialEq, L: PartialEq>(x: I, y: I, lx: L, ly: L)
    ensures
        Term::<I, L>::Id(x).eq_spec(&Term::<I, L>::Id(y))
            == <I as vstd::std_specs::cmp::PartialEqSpec>::eq_spec(&x, &y),
        Term::<I, L>::Literal(lx).eq_spec(&Term::<I, L>::Literal(ly))
            == <L as vstd::std_specs::cmp::PartialEqSpec>::eq_spec(&lx, &ly),
{
}

/// Comparison is transparent: comparing wrapped payloads equals comparing
/// the payloads directly.
pub proof fn lemma_term_cmp_transparent<I: PartialOrd, L: PartialOrd>(x: I, y: I, lx: L, ly: L)
    ensures
        Term::<I, L>::Id(x).partial_cmp_spec(&Term::<I, L>::Id(y))
            == <I as vstd::std_specs::cmp::PartialOrdSpec>::partial_cmp_spec(&x, &y),
        Term::<I, L>::Literal(lx).partial_cmp_spec(&Term::<I, L>::Literal(ly))
            == <L as vstd::std_specs::cmp::PartialOrdSpec>::partial_cmp_spec(&lx, &ly),
{
}

impl Term<Id<IriBuf, BlankIdBuf>, Literal<Type<IriBuf, LangTagBuf>, String>> {
    /// Borrows each payload of the term.
    pub fn as_lexical_term_ref(&self) -> (r: Term<
        LexicalIdRef<'_>,
        &Literal<Type<IriBuf, LangTagBuf>, String>,
    >)
        ensures
            match r {
                Term::Id(i) => self matches Term::Id(x) && match (x, i) {
                    (Id::Iri(a), Id::Iri(b)) => a == *b,
                    (Id::Blank(a), Id::Blank(b)) => a == *b,
                    _ => false,
                },
                Term::Literal(l) => self matches Term::Literal(x) && x == *l,
            },
    {
        match self {
            Term::Id(id) => Term::Id(id.as_lexical_id_ref()),
            Term::Literal(l) => Term::Literal(l),
        }
    }

    /// Alias for [`Self::as_lexical_term_ref`].
    pub fn as_lexical_object_ref(&self) -> (r: Term<
        LexicalIdRef<'_>,
        &Literal<Type<IriBuf, LangTagBuf>, String>,
    >)
        ensures
            match r {
                Term::Id(i) => self matches Term::Id(x) && match (x, i) {
                    (Id::Iri(a), Id::Iri(b)) => a == *b,
                    (Id::Blank(a), Id::Blank(b)) => a == *b,
                    _ => false,
                },
                Term::Literal(l) => self matches Term::Literal(x) && x == *l,
            },
    {
        self.as_lexical_term_ref()
    }
}

impl LexicalTerm {
    /// An equal copy of this term.
    pub fn cloned(&self) -> (r: Self)
        ensures
            r == *self,
    {
        match self {
            Term::Id(Id::Iri(i)) => Term::Id(Id::Iri(i.clone())),
            Term::Id(Id::Blank(b)) => Term::Id(Id::Blank(b.clone())),
            Term::Literal(l) => Term::Literal(l.cloned()),
        }
    }

    /// Borrowing form of [`Self::insert_into`]: interns the term, leaving
    /// this one in place.
    pub fn inserted_into<Ii: IndexedIri, Bb: IndexedBlankId>(
        &self,
        vocabulary: &mut IndexVocabulary<Ii, Bb>,
    ) -> (r: Term<Id<Ii, Bb>, Literal<Type<Ii, LangTagBuf>, String>>)
        ensures
            match self {
                Term::Id(Id::Iri(i)) => {
                    &&& final(vocabulary).iris() == iri_arena_insert::<Ii>(
                        old(vocabulary).iris(),
                        i@,
                    )
                    &&& final(vocabulary).blank_ids() == old(vocabulary).blank_ids()
                    &&& r == Term::<Id<Ii, Bb>, Literal<Type<Ii, LangTagBuf>, String>>::Id(
                        Id::Iri(iri_insert_id::<Ii>(old(vocabulary).iris(), i@)),
                    )
                },
                Term::Id(Id::Blank(b)) => {
                    &&& final(vocabulary).blank_ids() == blank_arena_insert::<Bb>(
                        old(vocabulary).blank_ids(),
                        b@,
                    )
                    &&& final(vocabulary).iris() == old(vocabulary).iris()
                    &&& r == Term::<Id<Ii, Bb>, Literal<Type<Ii, LangTagBuf>, String>>::Id(
                        Id::Blank(blank_insert_id::<Bb>(old(vocabulary).blank_ids(), b@)),
                    )
                },
                Term::Literal(l) => {
                    &&& final(vocabulary).blank_ids() == old(vocabulary).blank_ids()
                    &&& r matches Term::Literal(x) && x.spec_value() == l.spec_value()
                    &&& match l.spec_type() {
                        Type::Any(ty) => {
                            &&& final(vocabulary).iris() == iri_arena_insert::<Ii>(
                                old(vocabulary).iris(),
                                ty@,
                            )
                            &&& r matches Term::Literal(x) && x.spec_type() == Type::<
                                Ii,
                                LangTagBuf,
                            >::Any(iri_insert_id::<Ii>(old(vocabulary).iris(), ty@))
                        },
                        Type::LangString(tag) => {
                            &&& final(vocabulary).iris() == old(vocabulary).iris()
                            &&& r matches Term::Literal(x) && x.spec_type() == Type::<
                                Ii,
                                LangTagBuf,
                            >::LangString(tag)
                        },
                    }
                },
            },
    {
        self.cloned().insert_into(vocabulary)
    }

    /// Interns this lexical term into the vocabulary: an identifier is
    /// embedded as by [`Id::insert_into`], a literal has its type component
    /// interned and keeps its value.
    pub fn insert_into<Ii: IndexedIri, Bb: IndexedBlankId>(
        self,
        vocabulary: &mut IndexVocabulary<Ii, Bb>,
    ) -> (r: Term<Id<Ii, Bb>, Literal<Type<Ii, LangTagBuf>, String>>)
        ensures
            match self {
                Term::Id(Id::Iri(i)) => {
                    &&& final(vocabulary).iris() == iri_arena_insert::<Ii>(
                        old(vocabulary).iris(),
                        i@,
                    )
                    &&& final(vocabulary).blank_ids() == old(vocabulary).blank_ids()
                    &&& r == Term::<Id<Ii, Bb>, Literal<Type<Ii, LangTagBuf>, String>>::Id(
                        Id::Iri(iri_insert_id::<Ii>(old(vocabulary).iris(), i@)),
                    )
                },
                Term::Id(Id::Blank(b)) => {
                    &&& final(vocabulary).blank_ids() == blank_arena_insert::<Bb>(
                        old(vocabulary).blank_ids(),
                        b@,
                    )
                    &&& final(vocabulary).iris() == old(vocabulary).iris()
                    &&& r == Term::<Id<Ii, Bb>, Literal<Type<Ii, LangTagBuf>, String>>::Id(
                        Id::Blank(blank_insert_id::<Bb>(old(vocabulary).blank_ids(), b@)),
                    )
                },
                Term::Literal(l) => {
                    &&& final(vocabulary).blank_ids() == old(vocabulary).blank_ids()
                    &&& r matches Term::Literal(x) && x.spec_value() == l.spec_value()
                    &&& match l.spec_type() {
                        Type::Any(ty) => {
                            &&& final(vocabulary).iris() == iri_arena_insert::<Ii>(
                                old(vocabulary).iris(),
                                ty@,
                            )
                            &&& r matches Term::Literal(x) && x.spec_type() == Type::<
                                Ii,
                                LangTagBuf,
                            >::Any(iri_insert_id::<Ii>(old(vocabulary).iris(), ty@))
                        },
                        Type::LangString(tag) => {
                            &&& final(vocabulary).iris() == old(vocabulary).iris()
                            &&& r matches Term::Literal(x) && x.spec_type() == Type::<
                                Ii,
                                LangTagBuf,
                            >::LangString(tag)
                        },
                    }
                },
            },
    {
        match self {
            Term::Id(id) => Term::Id(id.insert_into(vocabulary)),
            Term::Literal(l) => Term::Literal(l.insert_type_into_vocabulary(vocabulary)),
        }
    }
}

impl<I: IndexedIri, B: IndexedBlankId> Term<Id<I, B>, Literal<Type<I, LangTagBuf>, String>> {
    /// Resolves a vocabulary term back to its lexical form. An identifier
    /// foreign to the vocabulary comes back as `Term::Id` of that
    /// identifier; a literal whose type cannot be resolved comes back as
    /// `Term::Literal` of the type's export error.
    pub fn try_export_term(self, vocabulary: &IndexVocabulary<I, B>) -> (r: Result<
        Term<Id<IriBuf, BlankIdBuf>, Literal<Type<IriBuf, LangTagBuf>, String>>,
        Term<Id<I, B>, ExportError<I, LangTagBuf>>,
    >)
        ensures
            match self {
                Term::Id(id) => match id {
                    Id::Iri(i) => match iri_resolve::<I>(vocabulary.iris(), i) {
                        Some(s) => r matches Ok(Term::Id(Id::Iri(x))) && x@ == s,
                        None => r == Err::<
                            Term<Id<IriBuf, BlankIdBuf>, Literal<Type<IriBuf, LangTagBuf>, String>>,
                            Term<Id<I, B>, ExportError<I, LangTagBuf>>,
                        >(Term::Id(id)),
                    },
                    Id::Blank(b) => match blank_resolve::<B>(vocabulary.blank_ids(), b) {
                        Some(s) => r matches Ok(Term::Id(Id::Blank(x))) && x@ == s,
                        None => r == Err::<
                            Term<Id<IriBuf, BlankIdBuf>, Literal<Type<IriBuf, LangTagBuf>, String>>,
                            Term<Id<I, B>, ExportError<I, LangTagBuf>>,
                        >(Term::Id(id)),
                    },
                },
                Term::Literal(l) => match l.spec_type() {
                    Type::Any(ty) => match iri_resolve::<I>(vocabulary.iris(), ty) {
                        Some(s) => r matches Ok(Term::Literal(x)) && x.spec_value()@
                            == l.spec_value()@ && (x.spec_type() matches Type::Any(t) && t@ == s),
                        None => r matches Err(Term::Literal(ExportError::Iri(e))) && e == ty,
                    },
                    Type::LangString(tag) => r matches Ok(Term::Literal(x)) && x.spec_value()@
                        == l.spec_value()@ && (x.spec_type() matches Type::LangString(t) && t@
                        == tag@),
                },
            },
    {
        match self {
            Term::Id(id) => match id.try_export_id(vocabulary) {
                Ok(e) => Ok(Term::Id(e)),
                Err(e) => Err(Term::Id(e)),
            },
            Term::Literal(l) => match l.try_export_literal(vocabulary) {
                Ok(e) => Ok(Term::Literal(e)),
                Err(e) => Err(Term::Literal(e)),
            },
        }
    }
}

} // verus!

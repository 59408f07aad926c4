//! RDF triples.

use vstd::prelude::*;

verus! {

use crate::lexical::{BlankIdBuf, IriBuf, LangTagBuf};
use crate::literal::{Literal, Type};
use crate::term::id::Id;
use crate::term::{LexicalTerm, Term};

/// RDF triple: subject, predicate and object.
#[derive(Clone, Copy, Debug)]
pub struct Triple<S, P, O>(pub S, pub P, pub O);

impl<S, P, O> Triple<S, P, O> {
    /// Creates a new triple.
    pub fn new(subject: S, predicate: P, object: O) -> (r: Self)
        ensures
            r == Triple(subject, predicate, object),
    {
        Triple(subject, predicate, object)
    }

    /// Borrows the subject, the first component.
    pub fn subject(&self) -> (r: &S)
        ensures
            *r == self.0,
    {
        &self.0
    }

    /// Turns the triple into its subject.
    pub fn into_subject(self) -> (r: S)
        ensures
            r == self.0,
    {
        self.0
    }

    /// Borrows the predicate, the second component.
    pub fn predicate(&self) -> (r: &P)
        ensures
            *r == self.1,
    {
        &self.1
    }

    /// Turns the triple into its predicate.
    pub fn into_predicate(self) -> (r: P)
        ensures
            r == self.1,
    {
        self.1
    }

    /// Borrows the object, the third component.
    pub fn object(&self) -> (r: &O)
        ensures
            *r == self.2,
    {
        &self.2
    }

    /// Turns the triple into its object.
    pub fn into_object(self) -> (r: O)
        ensures
            r == self.2,
    {
        self.2
    }

    /// Turns the triple into a tuple.
    pub fn into_parts(self) -> (r: (S, P, O))
        ensures
            r.0 == self.0,
            r.1 == self.1,
            r.2 == self.2,
    {
        (self.0, self.1, self.2)
    }
}

/// Lexical RDF triple.
pub type LexicalTriple = Triple<Id<IriBuf, BlankIdBuf>, IriBuf, LexicalTerm>;

/// Generalized RDF triple: every position holds a term.
pub type GrdfTriple = Triple<LexicalTerm, LexicalTerm, LexicalTerm>;

impl LexicalTriple {
    /// Turns this triple into a generalized RDF triple, wrapping the subject
    /// identifier and the predicate IRI as terms.
    pub fn into_grdf(self) -> (r: GrdfTriple)
        ensures
            r.0 == Term::<Id<IriBuf, BlankIdBuf>, Literal<Type<IriBuf, LangTagBuf>, String>>::Id(
                self.0,
            ),
            r.1 == Term::<Id<IriBuf, BlankIdBuf>, Literal<Type<IriBuf, LangTagBuf>, String>>::Id(
                Id::Iri(self.1),
            ),
            r.2 == self.2,
    {
        Triple(Term::Id(self.0), Term::Id(Id::Iri(self.1)), self.2)
    }
}

impl<S: PartialEq, P: PartialEq, O: PartialEq> PartialEq for Triple<S, P, O> {
    fn eq(&self, other: &Self) -> (r: bool) {
        self.0 == other.0 && self.1 == other.1 && self.2 == other.2
    }
}

impl<S: PartialEq, P: PartialEq, O: PartialEq> vstd::std_specs::cmp::PartialEqSpecImpl for Triple<S, P, O> {
    open spec fn obeys_eq_spec() -> bool {
        <S as vstd::std_specs::cmp::PartialEqSpec>::obeys_eq_spec()
            && <P as vstd::std_specs::cmp::PartialEqSpec>::obeys_eq_spec()
            && <O as vstd::std_specs::cmp::PartialEqSpec>::obeys_eq_spec()
    }

    open spec fn eq_spec(&self, other: &Self) -> bool {
        <S as vstd::std_specs::cmp::PartialEqSpec>::eq_spec(&self.0, &other.0)
            && <P as vstd::std_specs::cmp::PartialEqSpec>::eq_spec(&self.1, &other.1)
            && <O as vstd::std_specs::cmp::PartialEqSpec>::eq_spec(&self.2, &other.2)
    }
}

} // verus!

//! Source-located values and metadata-stripping comparison.
//!
//! A [`Loc`] pairs a value with the metadata — typically a source location —
//! attached to it. Stripping removes the metadata; stripped comparison
//! compares the payloads while ignoring it, as an explicit capability
//! invoked by name rather than through the ordinary equality operator.

use vstd::prelude::*;

verus! {

use vstd::std_specs::cmp::PartialEqSpec;
use crate::lexical::{IriBuf, LangTagBuf};
use crate::quad::Quad;
use crate::term::Term;
use crate::triple::Triple;

/// A value together with the metadata attached to it.
#[derive(Clone, Copy, Debug)]
pub struct Loc<T, F>(pub T, pub F);

impl<T, F> Loc<T, F> {
    /// Borrows the located value.
    pub fn value(&self) -> (r: &T)
        ensures
            *r == self.0,
    {
        &self.0
    }

    /// Borrows the metadata.
    pub fn metadata(&self) -> (r: &F)
        ensures
            *r == self.1,
    {
        &self.1
    }

    /// Drops the metadata, keeping the value.
    pub fn strip(self) -> (r: T)
        ensures
            r == self.0,
    {
        self.0
    }

    /// Compares the located values, ignoring the metadata on both sides.
    pub fn stripped_eq(&self, other: &Self) -> (r: bool) where T: PartialEq
        ensures
            <T as PartialEqSpec>::obeys_eq_spec() ==> r == <T as PartialEqSpec>::eq_spec(
                &self.0,
                &other.0,
            ),
    {
        self.0 == other.0
    }
}

/// Located RDF literal: an untyped string, a typed string, or a language
/// string, each component carrying its own metadata.
#[derive(Clone, Copy, Debug)]
pub enum Literal<F, S = String, I = IriBuf, L = LangTagBuf> {
    /// Untyped string literal.
    String(Loc<S, F>),
    /// Typed string literal.
    TypedString(Loc<S, F>, Loc<I, F>),
    /// Language string.
    LangString(Loc<S, F>, Loc<L, F>),
}

/// A located literal with every piece of metadata dropped.
#[derive(Clone, Copy, Debug)]
pub enum StrippedLiteral<S = String, I = IriBuf, L = LangTagBuf> {
    /// Untyped string literal.
    String(S),
    /// Typed string literal.
    TypedString(S, I),
    /// Language string.
    LangString(S, L),
}

impl<F, S, I, L> Literal<F, S, I, L> {
    /// Whether this is a typed string literal.
    pub fn is_typed(&self) -> (r: bool)
        ensures
            r == (self is TypedString),
    {
        matches!(self, Literal::TypedString(_, _))
    }

    /// The located type IRI, if this is a typed string literal.
    pub fn ty(&self) -> (r: Option<&Loc<I, F>>)
        ensures
            match r {
                Some(t) => self matches Literal::TypedString(_, x) && x == *t,
                None => !(self is TypedString),
            },
    {
        match self {
            Literal::TypedString(_, ty) => Some(ty),
            _ => None,
        }
    }

    /// Whether this is a language string.
    pub fn is_lang_string(&self) -> (r: bool)
        ensures
            r == (self is LangString),
    {
        matches!(self, Literal::LangString(_, _))
    }

    /// The located language tag, if this is a language string.
    pub fn lang_tag(&self) -> (r: Option<&Loc<L, F>>)
        ensures
            match r {
                Some(t) => self matches Literal::LangString(_, x) && x == *t,
                None => !(self is LangString),
            },
    {
        match self {
            Literal::LangString(_, tag) => Some(tag),
            _ => None,
        }
    }

    /// Borrows the located string value, whatever the variant.
    pub fn string_literal(&self) -> (r: &Loc<S, F>)
        ensures
            match self {
                Literal::String(s) => *r == s,
                Literal::TypedString(s, _) => *r == s,
                Literal::LangString(s, _) => *r == s,
            },
    {
        match self {
            Literal::String(s) => s,
            Literal::TypedString(s, _) => s,
            Literal::LangString(s, _) => s,
        }
    }

    /// Extracts the located string value, whatever the variant.
    pub fn into_string_literal(self) -> (r: Loc<S, F>)
        ensures
            match self {
                Literal::String(s) => r == s,
                Literal::TypedString(s, _) => r == s,
                Literal::LangString(s, _) => r == s,
            },
    {
        match self {
            Literal::String(s) => s,
            Literal::TypedString(s, _) => s,
            Literal::LangString(s, _) => s,
        }
    }

    /// The literal with every piece of metadata dropped, as an abstract
    /// value.
    pub open spec fn spec_strip(self) -> StrippedLiteral<S, I, L> {
        match self {
            Literal::String(s) => StrippedLiteral::String(s.0),
            Literal::TypedString(s, ty) => StrippedLiteral::TypedString(s.0, ty.0),
            Literal::LangString(s, tag) => StrippedLiteral::LangString(s.0, tag.0),
        }
    }

    /// Drops every piece of metadata.
    pub fn strip(self) -> (r: StrippedLiteral<S, I, L>)
        ensures
            r == self.spec_strip(),
    {
        match self {
            Literal::String(Loc(lit, _)) => StrippedLiteral::String(lit),
            Literal::TypedString(Loc(lit, _), Loc(iri, _)) => StrippedLiteral::TypedString(
                lit,
                iri,
            ),
            Literal::LangString(Loc(lit, _), Loc(tag, _)) => StrippedLiteral::LangString(lit, tag),
        }
    }

    /// Whether the two literals agree once every piece of metadata is
    /// ignored: same variant, equal payloads, position by position.
    pub open spec fn spec_stripped_eq(self, other: Self) -> bool where
        S: PartialEq,
        I: PartialEq,
        L: PartialEq,
    {
        match (self, other) {
            (Literal::String(a), Literal::String(b)) => <S as PartialEqSpec>::eq_spec(&a.0, &b.0),
            (Literal::TypedString(a, at), Literal::TypedString(b, bt)) => <S as PartialEqSpec>::eq_spec(&a.0, &b.0) && <I as PartialEqSpec>::eq_spec(&at.0, &bt.0),
            (Literal::LangString(a, at), Literal::LangString(b, bt)) => <S as PartialEqSpec>::eq_spec(&a.0, &b.0) && <L as PartialEqSpec>::eq_spec(&at.0, &bt.0),
            _ => false,
        }
    }

    /// Compares the two literals while ignoring the metadata on both sides.
    pub fn stripped_eq(&self, other: &Self) -> (r: bool) where
        S: PartialEq,
        I: PartialEq,
        L: PartialEq,

        ensures
            (<S as PartialEqSpec>::obeys_eq_spec() && <I as PartialEqSpec>::obeys_eq_spec()
                && <L as PartialEqSpec>::obeys_eq_spec()) ==> r == self.spec_stripped_eq(*other),
    {
        match (self, other) {
            (Literal::String(a), Literal::String(b)) => a.0 == b.0,
            (Literal::TypedString(a, at), Literal::TypedString(b, bt)) => a.0 == b.0 && at.0
                == bt.0,
            (Literal::LangString(a, at), Literal::LangString(b, bt)) => a.0 == b.0 && at.0 == bt.0,
            _ => false,
        }
    }
}

impl<I, F, S, Ir, L> Term<I, Literal<F, S, Ir, L>> {
    /// Drops the metadata of a located literal payload; an identifier is
    /// kept as it is.
    pub fn strip(self) -> (r: Term<I, StrippedLiteral<S, Ir, L>>)
        ensures
            match (self, r) {
                (Term::Id(a), Term::Id(b)) => b == a,
                (Term::Literal(a), Term::Literal(b)) => b == a.spec_strip(),
                _ => false,
            },
    {
        match self {
            Term::Id(id) => Term::Id(id),
            Term::Literal(l) => Term::Literal(l.strip()),
        }
    }
}

impl<S, P, O, F> Triple<Loc<S, F>, Loc<P, F>, Loc<O, F>> {
    /// Drops the metadata of every component.
    pub fn strip(self) -> (r: Triple<S, P, O>)
        ensures
            r == Triple((self.0).0, (self.1).0, (self.2).0),
    {
        Triple((self.0).0, (self.1).0, (self.2).0)
    }

    /// Compares the two triples component by component, ignoring the
    /// metadata on both sides.
    pub fn stripped_eq(&self, other: &Self) -> (r: bool) where
        S: PartialEq,
        P: PartialEq,
        O: PartialEq,

        ensures
            (<S as PartialEqSpec>::obeys_eq_spec() && <P as PartialEqSpec>::obeys_eq_spec()
                && <O as PartialEqSpec>::obeys_eq_spec()) ==> r == (<S as PartialEqSpec>::eq_spec(
                &(self.0).0,
                &(other.0).0,
            ) && <P as PartialEqSpec>::eq_spec(&(self.1).0, &(other.1).0)
                && <O as PartialEqSpec>::eq_spec(&(self.2).0, &(other.2).0)),
    {
        (self.0).0 == (other.0).0 && (self.1).0 == (other.1).0 && (self.2).0 == (other.2).0
    }
}

impl<S, P, O, G, F> Quad<Loc<S, F>, Loc<P, F>, Loc<O, F>, Loc<G, F>> {
    /// Drops the metadata of every component.
    pub fn strip(self) -> (r: Quad<S, P, O, G>)
        ensures
            r.0 == (self.0).0,
            r.1 == (self.1).0,
            r.2 == (self.2).0,
            match (self.3, r.3) {
                (Some(g), Some(rg)) => rg == g.0,
                (None, None) => true,
                _ => false,
            },
    {
        let g = match self.3 {
            Some(g) => Some(g.0),
            None => None,
        };
        Quad((self.0).0, (self.1).0, (self.2).0, g)
    }

    /// Compares the two quads component by component, ignoring the metadata
    /// on both sides.
    pub fn stripped_eq(&self, other: &Self) -> (r: bool) where
        S: PartialEq,
        P: PartialEq,
        O: PartialEq,
        G: PartialEq,

        ensures
            (<S as PartialEqSpec>::obeys_eq_spec() && <P as PartialEqSpec>::obeys_eq_spec()
                && <O as PartialEqSpec>::obeys_eq_spec()
                && <G as PartialEqSpec>::obeys_eq_spec()) ==> r == (<S as PartialEqSpec>::eq_spec(
                &(self.0).0,
                &(other.0).0,
            ) && <P as PartialEqSpec>::eq_spec(&(self.1).0, &(other.1).0)
                && <O as PartialEqSpec>::eq_spec(&(self.2).0, &(other.2).0) && match (
                &self.3,
                &other.3,
            ) {
                (Some(a), Some(b)) => <G as PartialEqSpec>::eq_spec(&a.0, &b.0),
                (None, None) => true,
                _ => false,
            }),
    {
        (self.0).0 == (other.0).0 && (self.1).0 == (other.1).0 && (self.2).0 == (other.2).0
            && match (&self.3, &other.3) {
            (Some(a), Some(b)) => a.0 == b.0,
            (None, None) => true,
            _ => false,
        }
    }
}

} // verus!

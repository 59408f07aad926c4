//! RDF quads: triples with an optional graph label.

use vstd::prelude::*;

verus! {

use core::cmp::Ordering;
use vstd::std_specs::cmp::{PartialEqSpec, PartialOrdSpec};
use crate::lexical::{BlankIdBuf, IriBuf, LangTagBuf};
use crate::literal::{ExportError, Literal, Type};
use crate::term::id::{Id, LexicalIdRef};
use crate::term::{LexicalTerm, LexicalTermRef, Term};
use crate::triple::Triple;
use crate::vocabulary::{
    blank_arena_insert, blank_insert_id, blank_resolve, iri_arena_insert, iri_insert_id,
    iri_resolve, IndexVocabulary, IndexedBlankId, IndexedIri,
};

/// RDF quad: subject, predicate, object and optional graph label. A quad
/// with no fourth component belongs to the default graph.
#[derive(Clone, Copy, Debug)]
pub struct Quad<S = Term, P = S, O = S, G = S>(pub S, pub P, pub O, pub Option<G>);

/// Lexical RDF quad.
pub type LexicalQuad = Quad<
    Id<IriBuf, BlankIdBuf>,
    IriBuf,
    Term<Id<IriBuf, BlankIdBuf>, Literal<Type<IriBuf, LangTagBuf>, String>>,
    Id<IriBuf, BlankIdBuf>,
>;

impl<S, P, O, G> Quad<S, P, O, G> {
    /// Creates a new quad.
    pub fn new(subject: S, predicate: P, object: O, graph: Option<G>) -> (r: Self)
        ensures
            r == Quad(subject, predicate, object, graph),
    {
        Quad(subject, predicate, object, graph)
    }

    /// Borrows each component of the quad.
    pub fn as_ref(&self) -> (r: Quad<&S, &P, &O, &G>)
        ensures
            *r.0 == self.0,
            *r.1 == self.1,
            *r.2 == self.2,
            match r.3 {
                Some(g) => self.3 matches Some(x) && x == *g,
                None => self.3 is None,
            },
    {
        Quad(&self.0, &self.1, &self.2, self.3.as_ref())
    }

    /// Borrows the subject, the first component.
    pub fn subject(&self) -> (r: &S)
        ensures
            *r == self.0,
    {
        &self.0
    }

    /// Turns the quad into its subject.
    pub fn into_subject(self) -> (r: S)
        ensures
            r == self.0,
    {
        self.0
    }

    /// Borrows the predicate, the second component.
    pub fn predicate(&self) -> (r: &P)
        ensures
            *r == self.1,
    {
        &self.1
    }

    /// Turns the quad into its predicate.
    pub fn into_predicate(self) -> (r: P)
        ensures
            r == self.1,
    {
        self.1
    }

    /// Borrows the object, the third component.
    pub fn object(&self) -> (r: &O)
        ensures
            *r == self.2,
    {
        &self.2
    }

    /// Turns the quad into its object.
    pub fn into_object(self) -> (r: O)
        ensures
            r == self.2,
    {
        self.2
    }

    /// Borrows the graph label, the fourth component.
    pub fn graph(&self) -> (r: Option<&G>)
        ensures
            match r {
                Some(g) => self.3 matches Some(x) && x == *g,
                None => self.3 is None,
            },
    {
        self.3.as_ref()
    }

    /// Turns the quad into its graph label.
    pub fn into_graph(self) -> (r: Option<G>)
        ensures
            r == self.3,
    {
        self.3
    }

    /// Turns the quad into a tuple.
    pub fn into_parts(self) -> (r: (S, P, O, Option<G>))
        ensures
            r.0 == self.0,
            r.1 == self.1,
            r.2 == self.2,
            r.3 == self.3,
    {
        (self.0, self.1, self.2, self.3)
    }

    /// Turns this quad into a triple and its graph label.
    pub fn into_triple(self) -> (r: (Triple<S, P, O>, Option<G>))
        ensures
            r.0 == Triple(self.0, self.1, self.2),
            r.1 == self.3,
    {
        (Triple(self.0, self.1, self.2), self.3)
    }

    /// Maps the subject with the given function.
    pub fn map_subject<U, F: FnOnce(S) -> U>(self, f: F) -> (r: Quad<U, P, O, G>)
        requires
            call_requires(f, (self.0,)),
        ensures
            call_ensures(f, (self.0,), r.0),
            r.1 == self.1,
            r.2 == self.2,
            r.3 == self.3,
    {
        Quad(f(self.0), self.1, self.2, self.3)
    }

    /// Maps the predicate with the given function.
    pub fn map_predicate<U, F: FnOnce(P) -> U>(self, f: F) -> (r: Quad<S, U, O, G>)
        requires
            call_requires(f, (self.1,)),
        ensures
            call_ensures(f, (self.1,), r.1),
            r.0 == self.0,
            r.2 == self.2,
            r.3 == self.3,
    {
        Quad(self.0, f(self.1), self.2, self.3)
    }

    /// Maps the object with the given function.
    pub fn map_object<U, F: FnOnce(O) -> U>(self, f: F) -> (r: Quad<S, P, U, G>)
        requires
            call_requires(f, (self.2,)),
        ensures
            call_ensures(f, (self.2,), r.2),
            r.0 == self.0,
            r.1 == self.1,
            r.3 == self.3,
    {
        Quad(self.0, self.1, f(self.2), self.3)
    }

    /// Maps the optional graph label with the given function.
    pub fn map_graph<U, F: FnOnce(Option<G>) -> Option<U>>(self, f: F) -> (r: Quad<S, P, O, U>)
        requires
            call_requires(f, (self.3,)),
        ensures
            call_ensures(f, (self.3,), r.3),
            r.0 == self.0,
            r.1 == self.1,
            r.2 == self.2,
    {
        Quad(self.0, self.1, self.2, f(self.3))
    }

    /// Maps every component with the given functions, one per component.
    pub fn map_all<S2, P2, O2, G2, FS: FnOnce(S) -> S2, FP: FnOnce(P) -> P2, FO: FnOnce(
        O,
    ) -> O2, FG: FnOnce(Option<G>) -> Option<G2>>(self, s: FS, p: FP, o: FO, g: FG) -> (r: Quad<
        S2,
        P2,
        O2,
        G2,
    >)
        requires
            call_requires(s, (self.0,)),
            call_requires(p, (self.1,)),
            call_requires(o, (self.2,)),
            call_requires(g, (self.3,)),
        ensures
            call_ensures(s, (self.0,), r.0),
            call_ensures(p, (self.1,), r.1),
            call_ensures(o, (self.2,), r.2),
            call_ensures(g, (self.3,), r.3),
    {
        Quad(s(self.0), p(self.1), o(self.2), g(self.3))
    }
}

impl<T> Quad<T, T, T, T> {
    /// Maps every component with the same function.
    pub fn map<U, F: Fn(T) -> U>(self, f: F) -> (r: Quad<U, U, U, U>)
        requires
            call_requires(f, (self.0,)),
            call_requires(f, (self.1,)),
            call_requires(f, (self.2,)),
            self.3 matches Some(g) ==> call_requires(f, (g,)),
        ensures
            call_ensures(f, (self.0,), r.0),
            call_ensures(f, (self.1,), r.1),
            call_ensures(f, (self.2,), r.2),
            match (self.3, r.3) {
                (Some(g), Some(rg)) => call_ensures(f, (g,), rg),
                (None, None) => true,
                _ => false,
            },
    {
        let g = match self.3 {
            Some(g) => Some(f(g)),
            None => None,
        };
        Quad(f(self.0), f(self.1), f(self.2), g)
    }
}

/// Lexical RDF quad reference.
pub type LexicalQuadRef<'a> = Quad<
    LexicalIdRef<'a>,
    &'a IriBuf,
    LexicalTermRef<'a>,
    LexicalIdRef<'a>,
>;

/// Generalized RDF quad: every position holds a term.
pub type GrdfQuad = Quad<LexicalTerm, LexicalTerm, LexicalTerm, LexicalTerm>;

impl LexicalQuad {
    /// Turns this quad into a generalized RDF quad, wrapping the subject,
    /// predicate and graph identifiers as terms.
    pub fn into_grdf(self) -> (r: GrdfQuad)
        ensures
            r.0 == Term::<Id<IriBuf, BlankIdBuf>, Literal<Type<IriBuf, LangTagBuf>, String>>::Id(
                self.0,
            ),
            r.1 == Term::<Id<IriBuf, BlankIdBuf>, Literal<Type<IriBuf, LangTagBuf>, String>>::Id(
                Id::Iri(self.1),
            ),
            r.2 == self.2,
            match (self.3, r.3) {
                (Some(g), Some(rg)) => rg == Term::<
                    Id<IriBuf, BlankIdBuf>,
                    Literal<Type<IriBuf, LangTagBuf>, String>,
                >::Id(g),
                (None, None) => true,
                _ => false,
            },
    {
        let g = match self.3 {
            Some(g) => Some(Term::Id(g)),
            None => None,
        };
        Quad(Term::Id(self.0), Term::Id(Id::Iri(self.1)), self.2, g)
    }

    /// Borrows each payload of the quad.
    pub fn as_lexical_quad_ref(&self) -> (r: LexicalQuadRef<'_>)
        ensures
            ({
                match r.0 {
                    Id::Iri(i) => self.0 matches Id::Iri(x) && x == *i,
                    Id::Blank(b) => self.0 matches Id::Blank(x) && x == *b,
                }
            }),
            *r.1 == self.1,
            ({
                match r.2 {
                    Term::Id(i) => self.2 matches Term::Id(x) && match (x, i) {
                        (Id::Iri(a), Id::Iri(b)) => a == *b,
                        (Id::Blank(a), Id::Blank(b)) => a == *b,
                        _ => false,
                    },
                    Term::Literal(l) => self.2 matches Term::Literal(x) && x == *l,
                }
            }),
            match (self.3, r.3) {
                (Some(g), Some(rg)) => match rg {
                    Id::Iri(i) => g matches Id::Iri(x) && x == *i,
                    Id::Blank(b) => g matches Id::Blank(x) && x == *b,
                },
                (None, None) => true,
                _ => false,
            },
    {
        let g = match &self.3 {
            Some(g) => Some(g.as_graph_label_ref()),
            None => None,
        };
        Quad(self.0.as_lexical_subject_ref(), &self.1, self.2.as_lexical_object_ref(), g)
    }
}

impl<'a> LexicalQuadRef<'a> {
    /// Clones the borrowed payloads into an owned quad.
    pub fn into_owned(self) -> (r: LexicalQuad)
        ensures
            ({
                match (self.0, r.0) {
                    (Id::Iri(a), Id::Iri(b)) => b == *a,
                    (Id::Blank(a), Id::Blank(b)) => b == *a,
                    _ => false,
                }
            }),
            r.1 == *self.1,
            ({
                match (self.2, r.2) {
                    (Term::Id(x), Term::Id(y)) => match (x, y) {
                        (Id::Iri(a), Id::Iri(b)) => b == *a,
                        (Id::Blank(a), Id::Blank(b)) => b == *a,
                        _ => false,
                    },
                    (Term::Literal(x), Term::Literal(y)) => y == *x,
                    _ => false,
                }
            }),
            match (self.3, r.3) {
                (Some(g), Some(rg)) => match (g, rg) {
                    (Id::Iri(a), Id::Iri(b)) => b == *a,
                    (Id::Blank(a), Id::Blank(b)) => b == *a,
                    _ => false,
                },
                (None, None) => true,
                _ => false,
            },
    {
        let g = match self.3 {
            Some(g) => Some(g.into_owned()),
            None => None,
        };
        Quad(self.0.into_owned(), self.1.clone(), self.2.into_owned(), g)
    }
}

/// Splitting a quad into a triple and its graph label and reattaching that
/// label reconstructs a quad equal to the original, whether or not a graph
/// label is present.
pub proof fn lemma_into_triple_roundtrip<S, P, O, G>(q: Quad<S, P, O, G>)
    ensures
        ({
            let t = Triple(q.0, q.1, q.2);
            Quad(t.0, t.1, t.2, q.3) == q
        }),
{
}

impl<'s, 'p, 'o, 'g, S, P, O, G> Quad<&'s S, &'p P, &'o O, &'g G> {
    /// Clones each component out of a quad of references.
    pub fn cloned(&self) -> (r: Quad<S, P, O, G>) where
        S: Clone,
        P: Clone,
        O: Clone,
        G: Clone,

        ensures
            vstd::pervasive::cloned::<S>(*self.0, r.0),
            vstd::pervasive::cloned::<P>(*self.1, r.1),
            vstd::pervasive::cloned::<O>(*self.2, r.2),
            match (self.3, r.3) {
                (Some(g), Some(rg)) => vstd::pervasive::cloned::<G>(*g, rg),
                (None, None) => true,
                _ => false,
            },
    {
        let g = match self.3 {
            Some(g) => Some(g.clone()),
            None => None,
        };
        Quad(self.0.clone(), self.1.clone(), self.2.clone(), g)
    }

    /// Consuming form of [`Self::cloned`].
    pub fn into_cloned(self) -> (r: Quad<S, P, O, G>) where
        S: Clone,
        P: Clone,
        O: Clone,
        G: Clone,

        ensures
            vstd::pervasive::cloned::<S>(*self.0, r.0),
            vstd::pervasive::cloned::<P>(*self.1, r.1),
            vstd::pervasive::cloned::<O>(*self.2, r.2),
            match (self.3, r.3) {
                (Some(g), Some(rg)) => vstd::pervasive::cloned::<G>(*g, rg),
                (None, None) => true,
                _ => false,
            },
    {
        let g = match self.3 {
            Some(g) => Some(g.clone()),
            None => None,
        };
        Quad(self.0.clone(), self.1.clone(), self.2.clone(), g)
    }

    /// Copies each component out of a quad of references.
    pub fn copied(&self) -> (r: Quad<S, P, O, G>) where
        S: Copy,
        P: Copy,
        O: Copy,
        G: Copy,

        ensures
            r.0 == *self.0,
            r.1 == *self.1,
            r.2 == *self.2,
            match (self.3, r.3) {
                (Some(g), Some(rg)) => *g == rg,
                (None, None) => true,
                _ => false,
            },
    {
        let g = match self.3 {
            Some(g) => Some(*g),
            None => None,
        };
        Quad(*self.0, *self.1, *self.2, g)
    }

    /// Consuming form of [`Self::copied`].
    pub fn into_copied(self) -> (r: Quad<S, P, O, G>) where
        S: Copy,
        P: Copy,
        O: Copy,
        G: Copy,

        ensures
            r.0 == *self.0,
            r.1 == *self.1,
            r.2 == *self.2,
            match (self.3, r.3) {
                (Some(g), Some(rg)) => *g == rg,
                (None, None) => true,
                _ => false,
            },
    {
        let g = match self.3 {
            Some(g) => Some(*g),
            None => None,
        };
        Quad(*self.0, *self.1, *self.2, g)
    }
}

impl<S: PartialEq, P: PartialEq, O: PartialEq, G: PartialEq> PartialEq for Quad<S, P, O, G> {
    fn eq(&self, other: &Self) -> (r: bool) {
        self.0 == other.0 && self.1 == other.1 && self.2 == other.2 && match (&self.3, &other.3) {
            (Some(a), Some(b)) => a == b,
            (None, None) => true,
            _ => false,
        }
    }
}

impl<S: PartialEq, P: PartialEq, O: PartialEq, G: PartialEq> vstd::std_specs::cmp::PartialEqSpecImpl for Quad<S, P, O, G> {
    open spec fn obeys_eq_spec() -> bool {
        <S as PartialEqSpec>::obeys_eq_spec() && <P as PartialEqSpec>::obeys_eq_spec() && <O as PartialEqSpec>::obeys_eq_spec()
            && <G as PartialEqSpec>::obeys_eq_spec()
    }

    open spec fn eq_spec(&self, other: &Self) -> bool {
        <S as PartialEqSpec>::eq_spec(&self.0, &other.0) && <P as PartialEqSpec>::eq_spec(
            &self.1,
            &other.1,
        ) && <O as PartialEqSpec>::eq_spec(&self.2, &other.2) && match (&self.3, &other.3) {
            (Some(a), Some(b)) => <G as PartialEqSpec>::eq_spec(a, b),
            (None, None) => true,
            _ => false,
        }
    }
}

impl<S: PartialOrd, P: PartialOrd, O: PartialOrd, G: PartialOrd> PartialOrd for Quad<S, P, O, G> {
    fn partial_cmp(&self, other: &Self) -> (r: Option<Ordering>) {
        match self.0.partial_cmp(&other.0) {
            Some(Ordering::Equal) => match self.1.partial_cmp(&other.1) {
                Some(Ordering::Equal) => match self.2.partial_cmp(&other.2) {
                    Some(Ordering::Equal) => match (&self.3, &other.3) {
                        (Some(a), Some(b)) => a.partial_cmp(b),
                        (Some(_), None) => Some(Ordering::Greater),
                        (None, Some(_)) => Some(Ordering::Less),
                        (None, None) => Some(Ordering::Equal),
                    },
                    cmp => cmp,
                },
                cmp => cmp,
            },
            cmp => cmp,
        }
    }
}

impl<S: PartialOrd, P: PartialOrd, O: PartialOrd, G: PartialOrd> vstd::std_specs::cmp::PartialOrdSpecImpl for Quad<S, P, O, G> {
    open spec fn obeys_partial_cmp_spec() -> bool {
        <S as PartialOrdSpec>::obeys_partial_cmp_spec()
            && <P as PartialOrdSpec>::obeys_partial_cmp_spec()
            && <O as PartialOrdSpec>::obeys_partial_cmp_spec()
            && <G as PartialOrdSpec>::obeys_partial_cmp_spec()
    }

    open spec fn partial_cmp_spec(&self, other: &Self) -> Option<Ordering> {
        match <S as PartialOrdSpec>::partial_cmp_spec(&self.0, &other.0) {
            Some(Ordering::Equal) => match <P as PartialOrdSpec>::partial_cmp_spec(
                &self.1,
                &other.1,
            ) {
                Some(Ordering::Equal) => match <O as PartialOrdSpec>::partial_cmp_spec(
                    &self.2,
                    &other.2,
                ) {
                    Some(Ordering::Equal) => match (&self.3, &other.3) {
                        (Some(a), Some(b)) => <G as PartialOrdSpec>::partial_cmp_spec(a, b),
                        (Some(_), None) => Some(Ordering::Greater),
                        (None, Some(_)) => Some(Ordering::Less),
                        (None, None) => Some(Ordering::Equal),
                    },
                    cmp => cmp,
                },
                cmp => cmp,
            },
            cmp => cmp,
        }
    }
}

/// Error of exporting a quad: the positional component that could not be
/// resolved, wrapping that component's specific cause.
#[derive(Clone, Copy, Debug)]
pub enum QuadExportFailed<S, P, O, G> {
    /// The subject could not be exported.
    Subject(S),
    /// The predicate could not be exported.
    Predicate(P),
    /// The object could not be exported.
    Object(O),
    /// The graph label could not be exported.
    Graph(G),
}

/// The arenas after embedding a lexical node identifier: an IRI touches the
/// IRI arena, a blank node identifier the blank node arena.
pub open spec fn id_embed_arenas<Ii: IndexedIri, Bb: IndexedBlankId>(
    iris: Seq<Seq<char>>,
    blanks: Seq<Seq<char>>,
    id: Id<IriBuf, BlankIdBuf>,
) -> (Seq<Seq<char>>, Seq<Seq<char>>) {
    match id {
        Id::Iri(i) => (iri_arena_insert::<Ii>(iris, i@), blanks),
        Id::Blank(b) => (iris, blank_arena_insert::<Bb>(blanks, b@)),
    }
}

/// The identifier that embedding a lexical node identifier returns.
pub open spec fn id_embed_id<Ii: IndexedIri, Bb: IndexedBlankId>(
    iris: Seq<Seq<char>>,
    blanks: Seq<Seq<char>>,
    id: Id<IriBuf, BlankIdBuf>,
) -> Id<Ii, Bb> {
    match id {
        Id::Iri(i) => Id::Iri(iri_insert_id::<Ii>(iris, i@)),
        Id::Blank(b) => Id::Blank(blank_insert_id::<Bb>(blanks, b@)),
    }
}

/// The arenas after embedding a lexical term: only an identifier or a
/// literal's type IRI touches an arena.
pub open spec fn term_embed_arenas<Ii: IndexedIri, Bb: IndexedBlankId>(
    iris: Seq<Seq<char>>,
    blanks: Seq<Seq<char>>,
    t: LexicalTerm,
) -> (Seq<Seq<char>>, Seq<Seq<char>>) {
    match t {
        Term::Id(id) => id_embed_arenas::<Ii, Bb>(iris, blanks, id),
        Term::Literal(l) => match l.spec_type() {
            Type::Any(ty) => (iri_arena_insert::<Ii>(iris, ty@), blanks),
            Type::LangString(_) => (iris, blanks),
        },
    }
}

/// Whether embedding lexical term `t` against the given arenas gives exactly
/// the vocabulary term `r`.
pub open spec fn term_embeds_to<Ii: IndexedIri, Bb: IndexedBlankId>(
    iris: Seq<Seq<char>>,
    blanks: Seq<Seq<char>>,
    t: LexicalTerm,
    r: Term<Id<Ii, Bb>, Literal<Type<Ii, LangTagBuf>, String>>,
) -> bool {
    match (t, r) {
        (Term::Id(id), Term::Id(x)) => x == id_embed_id::<Ii, Bb>(iris, blanks, id),
        (Term::Literal(l), Term::Literal(x)) => x.spec_value() == l.spec_value() && match l.spec_type() {
            Type::Any(ty) => x.spec_type() == Type::<Ii, LangTagBuf>::Any(
                iri_insert_id::<Ii>(iris, ty@),
            ),
            Type::LangString(tag) => x.spec_type() == Type::<Ii, LangTagBuf>::LangString(tag),
        },
        _ => false,
    }
}

/// Whether a node identifier resolves against the given arenas.
pub open spec fn id_exportable<I: IndexedIri, B: IndexedBlankId>(
    iris: Seq<Seq<char>>,
    blanks: Seq<Seq<char>>,
    id: Id<I, B>,
) -> bool {
    match id {
        Id::Iri(i) => iri_resolve::<I>(iris, i) is Some,
        Id::Blank(b) => blank_resolve::<B>(blanks, b) is Some,
    }
}

/// Whether exporting node identifier `id` against the given arenas gives
/// exactly the lexical identifier `r`.
pub open spec fn id_exports_to<I: IndexedIri, B: IndexedBlankId>(
    iris: Seq<Seq<char>>,
    blanks: Seq<Seq<char>>,
    id: Id<I, B>,
    r: Id<IriBuf, BlankIdBuf>,
) -> bool {
    match (id, r) {
        (Id::Iri(i), Id::Iri(x)) => iri_resolve::<I>(iris, i) == Some(x@),
        (Id::Blank(b), Id::Blank(x)) => blank_resolve::<B>(blanks, b) == Some(x@),
        _ => false,
    }
}

/// Whether a term resolves against the given arenas: an identifier must
/// resolve, a literal must have a resolvable type.
pub open spec fn term_exportable<I: IndexedIri, B: IndexedBlankId>(
    iris: Seq<Seq<char>>,
    blanks: Seq<Seq<char>>,
    t: Term<Id<I, B>, Literal<Type<I, LangTagBuf>, String>>,
) -> bool {
    match t {
        Term::Id(id) => id_exportable::<I, B>(iris, blanks, id),
        Term::Literal(l) => match l.spec_type() {
            Type::Any(ty) => iri_resolve::<I>(iris, ty) is Some,
            Type::LangString(_) => true,
        },
    }
}

/// Whether exporting term `t` against the given arenas gives exactly the
/// lexical term `r`.
pub open spec fn term_exports_to<I: IndexedIri, B: IndexedBlankId>(
    iris: Seq<Seq<char>>,
    blanks: Seq<Seq<char>>,
    t: Term<Id<I, B>, Literal<Type<I, LangTagBuf>, String>>,
    r: Term<Id<IriBuf, BlankIdBuf>, Literal<Type<IriBuf, LangTagBuf>, String>>,
) -> bool {
    match (t, r) {
        (Term::Id(id), Term::Id(x)) => id_exports_to::<I, B>(iris, blanks, id, x),
        (Term::Literal(l), Term::Literal(x)) => x.spec_value()@ == l.spec_value()@ && match (
            l.spec_type(),
            x.spec_type(),
        ) {
            (Type::Any(ty), Type::Any(xt)) => iri_resolve::<I>(iris, ty) == Some(xt@),
            (Type::LangString(a), Type::LangString(xt)) => xt@ == a@,
            _ => false,
        },
        _ => false,
    }
}

/// The error that exporting term `t` produces when it cannot be resolved.
pub open spec fn term_export_error<I: IndexedIri, B: IndexedBlankId>(
    iris: Seq<Seq<char>>,
    blanks: Seq<Seq<char>>,
    t: Term<Id<I, B>, Literal<Type<I, LangTagBuf>, String>>,
    e: Term<Id<I, B>, ExportError<I, LangTagBuf>>,
) -> bool {
    match (t, e) {
        (Term::Id(id), Term::Id(x)) => x == id && !id_exportable::<I, B>(iris, blanks, id),
        (Term::Literal(l), Term::Literal(ExportError::Iri(x))) => l.spec_type() matches Type::Any(
            ty,
        ) && x == ty && iri_resolve::<I>(iris, ty) is None,
        _ => false,
    }
}

impl LexicalQuad {
    /// Interns every component of this lexical quad into the vocabulary,
    /// subject first, then predicate, object and graph label; embedding
    /// always succeeds.
    pub fn insert_into<Ii: IndexedIri, Bb: IndexedBlankId>(
        self,
        vocabulary: &mut IndexVocabulary<Ii, Bb>,
    ) -> (r: Quad<Id<Ii, Bb>, Ii, Term<Id<Ii, Bb>, Literal<Type<Ii, LangTagBuf>, String>>, Id<
        Ii,
        Bb,
    >>)
        ensures
            ({
                let ar0 = old(vocabulary).iris();
                let bl0 = old(vocabulary).blank_ids();
                let (ar1, bl1) = id_embed_arenas::<Ii, Bb>(ar0, bl0, self.0);
                let ar2 = iri_arena_insert::<Ii>(ar1, self.1@);
                let (ar3, bl3) = term_embed_arenas::<Ii, Bb>(ar2, bl1, self.2);
                &&& r.0 == id_embed_id::<Ii, Bb>(ar0, bl0, self.0)
                &&& r.1 == iri_insert_id::<Ii>(ar1, self.1@)
                &&& term_embeds_to::<Ii, Bb>(ar2, bl1, self.2, r.2)
                &&& match (self.3, r.3) {
                    (Some(g), Some(rg)) => {
                        let (ar4, bl4) = id_embed_arenas::<Ii, Bb>(ar3, bl3, g);
                        &&& rg == id_embed_id::<Ii, Bb>(ar3, bl3, g)
                        &&& final(vocabulary).iris() == ar4
                        &&& final(vocabulary).blank_ids() == bl4
                    },
                    (None, None) => {
                        &&& final(vocabulary).iris() == ar3
                        &&& final(vocabulary).blank_ids() == bl3
                    },
                    _ => false,
                }
            }),
    {
        let Quad(s, p, o, g) = self;
        let s = s.insert_into(vocabulary);
        let p = vocabulary.insert(&p);
        let o = o.insert_into(vocabulary);
        let g = match g {
            Some(g) => Some(g.insert_into(vocabulary)),
            None => None,
        };
        Quad(s, p, o, g)
    }
}

impl<I: IndexedIri, B: IndexedBlankId> Quad<
    Id<I, B>,
    I,
    Term<Id<I, B>, Literal<Type<I, LangTagBuf>, String>>,
    Id<I, B>,
> {
    /// Resolves every component of a vocabulary quad back to its lexical
    /// form. On failure the error names the first positional component —
    /// subject, predicate, object, then graph label — that could not be
    /// resolved, wrapping that component's specific cause.
    pub fn try_export_quad(self, vocabulary: &IndexVocabulary<I, B>) -> (r: Result<
        LexicalQuad,
        QuadExportFailed<Id<I, B>, I, Term<Id<I, B>, ExportError<I, LangTagBuf>>, Id<I, B>>,
    >)
        ensures
            match r {
                Ok(q) => {
                    &&& id_exports_to::<I, B>(
                        vocabulary.iris(),
                        vocabulary.blank_ids(),
                        self.0,
                        q.0,
                    )
                    &&& iri_resolve::<I>(vocabulary.iris(), self.1) == Some(q.1@)
                    &&& term_exports_to::<I, B>(
                        vocabulary.iris(),
                        vocabulary.blank_ids(),
                        self.2,
                        q.2,
                    )
                    &&& match (self.3, q.3) {
                        (Some(g), Some(qg)) => id_exports_to::<I, B>(
                            vocabulary.iris(),
                            vocabulary.blank_ids(),
                            g,
                            qg,
                        ),
                        (None, None) => true,
                        _ => false,
                    }
                },
                Err(e) => match e {
                    QuadExportFailed::Subject(s) => s == self.0 && !id_exportable::<I, B>(
                        vocabulary.iris(),
                        vocabulary.blank_ids(),
                        self.0,
                    ),
                    QuadExportFailed::Predicate(p) => {
                        &&& p == self.1
                        &&& id_exportable::<I, B>(
                            vocabulary.iris(),
                            vocabulary.blank_ids(),
                            self.0,
                        )
                        &&& iri_resolve::<I>(vocabulary.iris(), self.1) is None
                    },
                    QuadExportFailed::Object(o) => {
                        &&& id_exportable::<I, B>(
                            vocabulary.iris(),
                            vocabulary.blank_ids(),
                            self.0,
                        )
                        &&& iri_resolve::<I>(vocabulary.iris(), self.1) is Some
                        &&& term_export_error::<I, B>(
                            vocabulary.iris(),
                            vocabulary.blank_ids(),
                            self.2,
                            o,
                        )
                    },
                    QuadExportFailed::Graph(g) => {
                        &&& id_exportable::<I, B>(
                            vocabulary.iris(),
                            vocabulary.blank_ids(),
                            self.0,
                        )
                        &&& iri_resolve::<I>(vocabulary.iris(), self.1) is Some
                        &&& term_exportable::<I, B>(
                            vocabulary.iris(),
                            vocabulary.blank_ids(),
                            self.2,
                        )
                        &&& self.3 matches Some(x) && g == x
                        &&& !id_exportable::<I, B>(
                            vocabulary.iris(),
                            vocabulary.blank_ids(),
                            g,
                        )
                    },
                },
            },
    {
        let Quad(s, p, o, g) = self;
        let s = match s.try_export_id(vocabulary) {
            Ok(s) => s,
            Err(e) => {
                return Err(QuadExportFailed::Subject(e));
            },
        };
        let p = match vocabulary.iri(&p) {
            Some(x) => x,
            None => {
                return Err(QuadExportFailed::Predicate(p));
            },
        };
        let o = match o.try_export_term(vocabulary) {
            Ok(o) => o,
            Err(e) => {
                return Err(QuadExportFailed::Object(e));
            },
        };
        let g = match g {
            Some(g) => match g.try_export_id(vocabulary) {
                Ok(g) => Some(g),
                Err(e) => {
                    return Err(QuadExportFailed::Graph(e));
                },
            },
            None => None,
        };
        Ok(Quad(s, p, o, g))
    }
}

} // verus!

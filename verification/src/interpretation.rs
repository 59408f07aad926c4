//! Interpretation layer: mapping terms onto abstract resources.
//!
//! An interpretation decouples lexical identity from semantic identity: two
//! different spellings may denote one resource. The forward mapping folds a
//! term into a resource, deterministically for a fixed interpretation
//! state; the reverse mappings enumerate every form presently associated
//! with a resource, as re-iterable finite vectors. The trivial *identity*
//! interpretation — implemented by the unit type — maps every term to
//! itself and is the reference every other interpretation must agree with
//! on terms it leaves unmodified.

use vstd::prelude::*;

verus! {

use crate::lexical::{BlankIdBuf, IriBuf, LangTagBuf};
use crate::literal::{Literal, Type};
use crate::quad::Quad;
use crate::term::id::Id;
use crate::term::Term;

pub use crate::term::LexicalTerm;

/// RDF interpretation.
pub trait Interpretation: Sized {
    /// The type of abstract resources.
    type Resource;
}

/// Interpretation of IRIs: read-only lookup.
pub trait IriInterpretation<I>: Interpretation {
    /// The resource an IRI is currently interpreted as, if any.
    spec fn spec_iri_interpretation(&self, iri: &I) -> Option<Self::Resource>;

    /// Looks the IRI's resource up without changing the interpretation.
    fn iri_interpretation(&self, iri: &I) -> (r: Option<Self::Resource>)
        ensures
            r == self.spec_iri_interpretation(iri),
    ;
}

/// Interpretation of IRIs: interning.
pub trait IriInterpretationMut<I>: Interpretation {
    /// The interpretation state and resource that interpreting an IRI
    /// produces.
    spec fn spec_interpret_iri(self, iri: I) -> (Self, Self::Resource);

    /// Interprets an IRI, reusing an equivalent resource or minting a new
    /// one; deterministic for a fixed state and identical input.
    fn interpret_iri(&mut self, iri: I) -> (r: Self::Resource)
        ensures
            ({
                let (s, res) = old(self).spec_interpret_iri(iri);
                *final(self) == s && r == res
            }),
    ;
}

/// Interpretation of blank node identifiers: read-only lookup.
pub trait BlankIdInterpretation<B>: Interpretation {
    /// The resource a blank node identifier is currently interpreted as, if
    /// any.
    spec fn spec_blank_id_interpretation(&self, blank_id: &B) -> Option<Self::Resource>;

    /// Looks the identifier's resource up without changing the
    /// interpretation.
    fn blank_id_interpretation(&self, blank_id: &B) -> (r: Option<Self::Resource>)
        ensures
            r == self.spec_blank_id_interpretation(blank_id),
    ;
}

/// Interpretation of blank node identifiers: interning.
pub trait BlankIdInterpretationMut<B>: Interpretation {
    /// The interpretation state and resource that interpreting a blank node
    /// identifier produces.
    spec fn spec_interpret_blank_id(self, blank_id: B) -> (Self, Self::Resource);

    /// Interprets a blank node identifier; deterministic for a fixed state
    /// and identical input.
    fn interpret_blank_id(&mut self, blank_id: B) -> (r: Self::Resource)
        ensures
            ({
                let (s, res) = old(self).spec_interpret_blank_id(blank_id);
                *final(self) == s && r == res
            }),
    ;
}

/// Interpretation of literal values: read-only lookup.
pub trait LiteralInterpretation<L>: Interpretation {
    /// The resource a literal is currently interpreted as, if any.
    spec fn spec_literal_interpretation(&self, literal: &L) -> Option<Self::Resource>;

    /// Looks the literal's resource up without changing the interpretation.
    fn literal_interpretation(&self, literal: &L) -> (r: Option<Self::Resource>)
        ensures
            r == self.spec_literal_interpretation(literal),
    ;
}

/// Interpretation of literal values: interning.
pub trait LiteralInterpretationMut<L>: Interpretation {
    /// The interpretation state and resource that interpreting a literal
    /// produces.
    spec fn spec_interpret_literal(self, literal: L) -> (Self, Self::Resource);

    /// Interprets a literal; deterministic for a fixed state and identical
    /// input.
    fn interpret_literal(&mut self, literal: L) -> (r: Self::Resource)
        ensures
            ({
                let (s, res) = old(self).spec_interpret_literal(literal);
                *final(self) == s && r == res
            }),
    ;
}

/// Reverse interpretation of IRIs: from a resource back to every IRI that
/// denotes it.
pub trait ReverseIriInterpretation: Interpretation {
    /// The IRI type enumerated.
    type Iri;

    /// Every IRI presently associated with the resource, in
    /// interpretation-defined order.
    spec fn spec_iris_of(&self, resource: &Self::Resource) -> Seq<Self::Iri>;

    /// Enumerates the IRIs of a resource; finite and re-iterable.
    fn iris_of(&self, resource: &Self::Resource) -> (r: Vec<Self::Iri>)
        ensures
            r@ == self.spec_iris_of(resource),
    ;
}

/// Reverse interpretation of blank node identifiers.
pub trait ReverseBlankIdInterpretation: Interpretation {
    /// The blank node identifier type enumerated.
    type BlankId;

    /// Every blank node identifier presently associated with the resource.
    spec fn spec_blank_ids_of(&self, resource: &Self::Resource) -> Seq<Self::BlankId>;

    /// Enumerates the blank node identifiers of a resource; finite and
    /// re-iterable.
    fn blank_ids_of(&self, resource: &Self::Resource) -> (r: Vec<Self::BlankId>)
        ensures
            r@ == self.spec_blank_ids_of(resource),
    ;
}

/// Reverse interpretation of literals.
pub trait ReverseLiteralInterpretation: Interpretation {
    /// The literal type enumerated.
    type Literal;

    /// Every literal presently associated with the resource.
    spec fn spec_literals_of(&self, resource: &Self::Resource) -> Seq<Self::Literal>;

    /// Enumerates the literals of a resource; finite and re-iterable.
    fn literals_of(&self, resource: &Self::Resource) -> (r: Vec<Self::Literal>)
        ensures
            r@ == self.spec_literals_of(resource),
    ;
}

impl Interpretation for () {
    type Resource = LexicalTerm;
}

impl IriInterpretation<IriBuf> for () {
    open spec fn spec_iri_interpretation(&self, iri: &IriBuf) -> Option<LexicalTerm> {
        Some(Term::Id(Id::Iri(*iri)))
    }

    fn iri_interpretation(&self, iri: &IriBuf) -> (r: Option<LexicalTerm>) {
        Some(Term::Id(Id::Iri(iri.clone())))
    }
}

impl IriInterpretationMut<IriBuf> for () {
    open spec fn spec_interpret_iri(self, iri: IriBuf) -> ((), LexicalTerm) {
        ((), Term::Id(Id::Iri(iri)))
    }

    fn interpret_iri(&mut self, iri: IriBuf) -> (r: LexicalTerm) {
        Term::Id(Id::Iri(iri))
    }
}

impl BlankIdInterpretation<BlankIdBuf> for () {
    open spec fn spec_blank_id_interpretation(&self, blank_id: &BlankIdBuf) -> Option<
        LexicalTerm,
    > {
        Some(Term::Id(Id::Blank(*blank_id)))
    }

    fn blank_id_interpretation(&self, blank_id: &BlankIdBuf) -> (r: Option<LexicalTerm>) {
        Some(Term::Id(Id::Blank(blank_id.clone())))
    }
}

impl BlankIdInterpretationMut<BlankIdBuf> for () {
    open spec fn spec_interpret_blank_id(self, blank_id: BlankIdBuf) -> ((), LexicalTerm) {
        ((), Term::Id(Id::Blank(blank_id)))
    }

    fn interpret_blank_id(&mut self, blank_id: BlankIdBuf) -> (r: LexicalTerm) {
        Term::Id(Id::Blank(blank_id))
    }
}

impl LiteralInterpretation<Literal<Type<IriBuf, LangTagBuf>, String>> for () {
    open spec fn spec_literal_interpretation(
        &self,
        literal: &Literal<Type<IriBuf, LangTagBuf>, String>,
    ) -> Option<LexicalTerm> {
        Some(Term::Literal(*literal))
    }

    fn literal_interpretation(&self, literal: &Literal<Type<IriBuf, LangTagBuf>, String>) -> (r:
        Option<LexicalTerm>) {
        Some(Term::Literal(literal.cloned()))
    }
}

impl LiteralInterpretationMut<Literal<Type<IriBuf, LangTagBuf>, String>> for () {
    open spec fn spec_interpret_literal(
        self,
        literal: Literal<Type<IriBuf, LangTagBuf>, String>,
    ) -> ((), LexicalTerm) {
        ((), Term::Literal(literal))
    }

    fn interpret_literal(&mut self, literal: Literal<Type<IriBuf, LangTagBuf>, String>) -> (r:
        LexicalTerm) {
        Term::Literal(literal)
    }
}

impl ReverseIriInterpretation for () {
    type Iri = IriBuf;

    open spec fn spec_iris_of(&self, resource: &LexicalTerm) -> Seq<IriBuf> {
        match resource {
            Term::Id(Id::Iri(i)) => seq![*i],
            _ => Seq::empty(),
        }
    }

    fn iris_of(&self, resource: &LexicalTerm) -> (r: Vec<IriBuf>) {
        let mut out = Vec::new();
        match resource {
            Term::Id(Id::Iri(i)) => {
                out.push(i.clone());
                proof {
                    assert(out@ =~= self.spec_iris_of(resource));
                }
            },
            _ => {
                proof {
                    assert(out@ =~= self.spec_iris_of(resource));
                }
            },
        }
        out
    }
}

impl ReverseBlankIdInterpretation for () {
    type BlankId = BlankIdBuf;

    open spec fn spec_blank_ids_of(&self, resource: &LexicalTerm) -> Seq<BlankIdBuf> {
        match resource {
            Term::Id(Id::Blank(b)) => seq![*b],
            _ => Seq::empty(),
        }
    }

    fn blank_ids_of(&self, resource: &LexicalTerm) -> (r: Vec<BlankIdBuf>) {
        let mut out = Vec::new();
        match resource {
            Term::Id(Id::Blank(b)) => {
                out.push(b.clone());
                proof {
                    assert(out@ =~= self.spec_blank_ids_of(resource));
                }
            },
            _ => {
                proof {
                    assert(out@ =~= self.spec_blank_ids_of(resource));
                }
            },
        }
        out
    }
}

impl ReverseLiteralInterpretation for () {
    type Literal = Literal<Type<IriBuf, LangTagBuf>, String>;

    open spec fn spec_literals_of(&self, resource: &LexicalTerm) -> Seq<
        Literal<Type<IriBuf, LangTagBuf>, String>,
    > {
        match resource {
            Term::Literal(l) => seq![*l],
            _ => Seq::empty(),
        }
    }

    fn literals_of(&self, resource: &LexicalTerm) -> (r: Vec<
        Literal<Type<IriBuf, LangTagBuf>, String>,
    >) {
        let mut out = Vec::new();
        match resource {
            Term::Literal(l) => {
                out.push(l.cloned());
                proof {
                    assert(out@ =~= self.spec_literals_of(resource));
                }
            },
            _ => {
                proof {
                    assert(out@ =~= self.spec_literals_of(resource));
                }
            },
        }
        out
    }
}

/// A value that can be folded into a resource of interpretation `I`.
pub trait Interpret<I: Interpretation>: Sized {
    /// What the value is interpreted as.
    type Interpreted;

    /// The interpretation state and result that interpreting this value
    /// produces.
    spec fn spec_interpret(self, interpretation: I) -> (I, Self::Interpreted);

    /// Folds this value into a resource, updating the interpretation.
    fn interpret(self, interpretation: &mut I) -> (r: Self::Interpreted)
        ensures
            ({
                let (s, res) = self.spec_interpret(*old(interpretation));
                *final(interpretation) == s && r == res
            }),
    ;
}

impl<I: IriInterpretationMut<IriBuf> + BlankIdInterpretationMut<BlankIdBuf>> Interpret<I> for Id<
    IriBuf,
    BlankIdBuf,
> {
    type Interpreted = I::Resource;

    open spec fn spec_interpret(self, interpretation: I) -> (I, I::Resource) {
        match self {
            Id::Iri(i) => interpretation.spec_interpret_iri(i),
            Id::Blank(b) => interpretation.spec_interpret_blank_id(b),
        }
    }

    fn interpret(self, interpretation: &mut I) -> (r: I::Resource) {
        match self {
            Id::Iri(i) => interpretation.interpret_iri(i),
            Id::Blank(b) => interpretation.interpret_blank_id(b),
        }
    }
}

impl<
    I: IriInterpretationMut<IriBuf> + BlankIdInterpretationMut<BlankIdBuf>
        + LiteralInterpretationMut<Literal<Type<IriBuf, LangTagBuf>, String>>,
> Interpret<I> for LexicalTerm {
    type Interpreted = I::Resource;

    open spec fn spec_interpret(self, interpretation: I) -> (I, I::Resource) {
        match self {
            Term::Id(id) => id.spec_interpret(interpretation),
            Term::Literal(l) => interpretation.spec_interpret_literal(l),
        }
    }

    fn interpret(self, interpretation: &mut I) -> (r: I::Resource) {
        match self {
            Term::Id(id) => id.interpret(interpretation),
            Term::Literal(l) => interpretation.interpret_literal(l),
        }
    }
}

impl<I: Interpretation, S: Interpret<I>, P: Interpret<I>, O: Interpret<I>, G: Interpret<I>> Interpret<
    I,
> for Quad<S, P, O, G> {
    type Interpreted = Quad<S::Interpreted, P::Interpreted, O::Interpreted, G::Interpreted>;

    open spec fn spec_interpret(self, interpretation: I) -> (I, Self::Interpreted) {
        let (i1, s) = self.0.spec_interpret(interpretation);
        let (i2, p) = self.1.spec_interpret(i1);
        let (i3, o) = self.2.spec_interpret(i2);
        match self.3 {
            Some(g) => {
                let (i4, gr) = g.spec_interpret(i3);
                (i4, Quad(s, p, o, Some(gr)))
            },
            None => (i3, Quad(s, p, o, None)),
        }
    }

    fn interpret(self, interpretation: &mut I) -> (r: Self::Interpreted) {
        let s = self.0.interpret(interpretation);
        let p = self.1.interpret(interpretation);
        let o = self.2.interpret(interpretation);
        let g = match self.3 {
            Some(g) => Some(g.interpret(interpretation)),
            None => None,
        };
        Quad(s, p, o, g)
    }
}

} // verus!

//! Canonical textual rendering of terms.
//!
//! The surface grammar is the conventional RDF one: IRIs as `<...>`, blank
//! nodes as `_:name`, plain literals as `"value"`, typed literals as
//! `"value"^^<type-iri>`, language-tagged literals as `"value"@tag`. The
//! value is rendered as it is held, byte for byte.

use vstd::prelude::*;
use vstd::string::*;

verus! {

use crate::lexical::{BlankIdBuf, IriBuf, LangTagBuf};
use crate::literal::{Literal, Type};
use crate::quad::Quad;
use crate::term::id::Id;
use crate::term::Term;
use crate::triple::Triple;
use crate::vocabulary::{blank_resolve, iri_resolve, IndexVocabulary, IndexedBlankId, IndexedIri};

/// An IRI's rendering: the text between angle brackets.
pub open spec fn display_iri(s: Seq<char>) -> Seq<char> {
    "<"@ + s + ">"@
}

/// A literal value's rendering: the text between double quotes.
pub open spec fn display_quoted(s: Seq<char>) -> Seq<char> {
    "\""@ + s + "\""@
}

/// Canonical RDF rendering of a term or statement.
pub trait RdfDisplay {
    /// The rendered text.
    spec fn rdf_display_spec(&self) -> Seq<char>;

    /// Renders the canonical RDF textual form.
    fn rdf_display(&self) -> (r: String)
        ensures
            r@ == self.rdf_display_spec(),
    ;
}

impl RdfDisplay for Id<IriBuf, BlankIdBuf> {
    open spec fn rdf_display_spec(&self) -> Seq<char> {
        match self {
            Id::Iri(i) => display_iri(i@),
            Id::Blank(b) => b@,
        }
    }

    fn rdf_display(&self) -> (r: String) {
        match self {
            Id::Iri(i) => {
                let mut out = String::new();
                out.append("<");
                out.append(i.as_str());
                out.append(">");
                out
            },
            Id::Blank(b) => {
                let mut out = String::new();
                out.append(b.as_str());
                out
            },
        }
    }
}

impl RdfDisplay for IriBuf {
    open spec fn rdf_display_spec(&self) -> Seq<char> {
        display_iri(self@)
    }

    fn rdf_display(&self) -> (r: String) {
        let mut out = String::new();
        out.append("<");
        out.append(self.as_str());
        out.append(">");
        out
    }
}

impl RdfDisplay for Literal<Type<IriBuf, LangTagBuf>, String> {
    open spec fn rdf_display_spec(&self) -> Seq<char> {
        match self.spec_type() {
            Type::Any(ty) => display_quoted(self.spec_value()@) + "^^"@ + display_iri(ty@),
            Type::LangString(tag) => display_quoted(self.spec_value()@) + "@"@ + tag@,
        }
    }

    fn rdf_display(&self) -> (r: String) {
        let mut out = String::new();
        out.append("\"");
        out.append(self.as_str());
        out.append("\"");
        match self.type_() {
            Type::Any(ty) => {
                out.append("^^");
                out.append("<");
                out.append(ty.as_str());
                out.append(">");
            },
            Type::LangString(tag) => {
                out.append("@");
                out.append(tag.as_str());
            },
        }
        out
    }
}

impl RdfDisplay for Term<Id<IriBuf, BlankIdBuf>, Literal<Type<IriBuf, LangTagBuf>, String>> {
    open spec fn rdf_display_spec(&self) -> Seq<char> {
        match self {
            Term::Id(id) => id.rdf_display_spec(),
            Term::Literal(l) => l.rdf_display_spec(),
        }
    }

    fn rdf_display(&self) -> (r: String) {
        match self {
            Term::Id(id) => id.rdf_display(),
            Term::Literal(l) => l.rdf_display(),
        }
    }
}

impl<S: RdfDisplay, P: RdfDisplay, O: RdfDisplay> RdfDisplay for Triple<S, P, O> {
    open spec fn rdf_display_spec(&self) -> Seq<char> {
        self.0.rdf_display_spec() + " "@ + self.1.rdf_display_spec() + " "@
            + self.2.rdf_display_spec()
    }

    fn rdf_display(&self) -> (r: String) {
        let mut out = self.0.rdf_display();
        out.append(" ");
        let p = self.1.rdf_display();
        out.append(p.as_str());
        out.append(" ");
        let o = self.2.rdf_display();
        out.append(o.as_str());
        out
    }
}

impl<S: RdfDisplay, P: RdfDisplay, O: RdfDisplay, G: RdfDisplay> RdfDisplay for Quad<S, P, O, G> {
    open spec fn rdf_display_spec(&self) -> Seq<char> {
        self.0.rdf_display_spec() + " "@ + self.1.rdf_display_spec() + " "@
            + self.2.rdf_display_spec() + match self.3 {
            Some(g) => " "@ + g.rdf_display_spec(),
            None => Seq::<char>::empty(),
        }
    }

    fn rdf_display(&self) -> (r: String) {
        let mut out = self.0.rdf_display();
        out.append(" ");
        let p = self.1.rdf_display();
        out.append(p.as_str());
        out.append(" ");
        let o = self.2.rdf_display();
        out.append(o.as_str());
        match &self.3 {
            Some(g) => {
                out.append(" ");
                let gs = g.rdf_display();
                out.append(gs.as_str());
                proof {
                    assert(out@ =~= self.rdf_display_spec());
                }
            },
            None => {
                proof {
                    assert(out@ =~= self.rdf_display_spec());
                }
            },
        }
        out
    }
}

/// The rendering of a vocabulary identifier once resolved against the given
/// arenas; nothing if it does not resolve.
pub open spec fn id_display_with<I: IndexedIri, B: IndexedBlankId>(
    iris: Seq<Seq<char>>,
    blanks: Seq<Seq<char>>,
    id: Id<I, B>,
) -> Option<Seq<char>> {
    match id {
        Id::Iri(i) => match iri_resolve::<I>(iris, i) {
            Some(s) => Some(display_iri(s)),
            None => None,
        },
        Id::Blank(b) => match blank_resolve::<B>(blanks, b) {
            Some(s) => Some(s),
            None => None,
        },
    }
}

/// The rendering of a vocabulary literal once its type is resolved against
/// the given arena; nothing if the type does not resolve.
pub open spec fn literal_display_with<I: IndexedIri>(
    iris: Seq<Seq<char>>,
    l: Literal<Type<I, LangTagBuf>, String>,
) -> Option<Seq<char>> {
    match l.spec_type() {
        Type::Any(ty) => match iri_resolve::<I>(iris, ty) {
            Some(s) => Some(display_quoted(l.spec_value()@) + "^^"@ + display_iri(s)),
            None => None,
        },
        Type::LangString(tag) => Some(display_quoted(l.spec_value()@) + "@"@ + tag@),
    }
}

/// The rendering of a vocabulary term once resolved against the given
/// arenas; nothing if it does not resolve.
pub open spec fn term_display_with<I: IndexedIri, B: IndexedBlankId>(
    iris: Seq<Seq<char>>,
    blanks: Seq<Seq<char>>,
    t: Term<Id<I, B>, Literal<Type<I, LangTagBuf>, String>>,
) -> Option<Seq<char>> {
    match t {
        Term::Id(id) => id_display_with::<I, B>(iris, blanks, id),
        Term::Literal(l) => literal_display_with::<I>(iris, l),
    }
}

/// The rendering of a vocabulary quad once every component is resolved
/// against the given arenas; nothing as soon as one component does not
/// resolve.
pub open spec fn quad_display_with<I: IndexedIri, B: IndexedBlankId>(
    iris: Seq<Seq<char>>,
    blanks: Seq<Seq<char>>,
    q: Quad<Id<I, B>, I, Term<Id<I, B>, Literal<Type<I, LangTagBuf>, String>>, Id<I, B>>,
) -> Option<Seq<char>> {
    match (
        id_display_with::<I, B>(iris, blanks, q.0),
        iri_resolve::<I>(iris, q.1),
        term_display_with::<I, B>(iris, blanks, q.2),
    ) {
        (Some(s), Some(p), Some(o)) => match q.3 {
            Some(g) => match id_display_with::<I, B>(iris, blanks, g) {
                Some(gs) => Some(s + " "@ + display_iri(p) + " "@ + o + " "@ + gs),
                None => None,
            },
            None => Some(s + " "@ + display_iri(p) + " "@ + o),
        },
        _ => None,
    }
}

impl<I: IndexedIri, B: IndexedBlankId> Id<I, B> {
    /// Renders this identifier by resolving it through the vocabulary;
    /// nothing for an identifier foreign to it.
    pub fn rdf_display_with(&self, vocabulary: &IndexVocabulary<I, B>) -> (r: Option<String>)
        ensures
            match r {
                Some(out) => id_display_with::<I, B>(
                    vocabulary.iris(),
                    vocabulary.blank_ids(),
                    *self,
                ) == Some(out@),
                None => id_display_with::<I, B>(vocabulary.iris(), vocabulary.blank_ids(), *self)
                    is None,
            },
    {
        match self {
            Id::Iri(i) => match vocabulary.iri(i) {
                Some(s) => {
                    let mut out = String::new();
                    out.append("<");
                    out.append(s.as_str());
                    out.append(">");
                    Some(out)
                },
                None => None,
            },
            Id::Blank(b) => match vocabulary.blank_id(b) {
                Some(s) => Some(s.into_string()),
                None => None,
            },
        }
    }
}

impl<I: IndexedIri> Literal<Type<I, LangTagBuf>, String> {
    /// Renders this literal by resolving its type through the vocabulary;
    /// nothing if the type identifier is foreign to it.
    pub fn rdf_display_with<B: IndexedBlankId>(&self, vocabulary: &IndexVocabulary<I, B>) -> (r:
        Option<String>)
        ensures
            match r {
                Some(out) => literal_display_with::<I>(vocabulary.iris(), *self) == Some(out@),
                None => literal_display_with::<I>(vocabulary.iris(), *self) is None,
            },
    {
        let mut out = String::new();
        out.append("\"");
        out.append(self.as_str());
        out.append("\"");
        match self.type_() {
            Type::Any(ty) => match vocabulary.iri(ty) {
                Some(s) => {
                    out.append("^^");
                    out.append("<");
                    out.append(s.as_str());
                    out.append(">");
                    proof {
                        assert(Some(out@) == literal_display_with::<I>(
                            vocabulary.iris(),
                            *self,
                        )) by {
                            assert(out@ =~= display_quoted(self.spec_value()@) + "^^"@
                                + display_iri(s@));
                        }
                    }
                    Some(out)
                },
                None => None,
            },
            Type::LangString(tag) => {
                out.append("@");
                out.append(tag.as_str());
                proof {
                    assert(Some(out@) == literal_display_with::<I>(vocabulary.iris(), *self)) by {
                        assert(out@ =~= display_quoted(self.spec_value()@) + "@"@ + tag@);
                    }
                }
                Some(out)
            },
        }
    }
}

impl<I: IndexedIri, B: IndexedBlankId> Term<Id<I, B>, Literal<Type<I, LangTagBuf>, String>> {
    /// Renders this term by resolving it through the vocabulary; nothing for
    /// a term foreign to it.
    pub fn rdf_display_with(&self, vocabulary: &IndexVocabulary<I, B>) -> (r: Option<String>)
        ensures
            match r {
                Some(out) => term_display_with::<I, B>(
                    vocabulary.iris(),
                    vocabulary.blank_ids(),
                    *self,
                ) == Some(out@),
                None => term_display_with::<I, B>(
                    vocabulary.iris(),
                    vocabulary.blank_ids(),
                    *self,
                ) is None,
            },
    {
        match self {
            Term::Id(id) => id.rdf_display_with(vocabulary),
            Term::Literal(l) => l.rdf_display_with(vocabulary),
        }
    }
}

impl<I: IndexedIri, B: IndexedBlankId> Quad<
    Id<I, B>,
    I,
    Term<Id<I, B>, Literal<Type<I, LangTagBuf>, String>>,
    Id<I, B>,
> {
    /// Renders this quad by resolving every component through the
    /// vocabulary; nothing as soon as one component is foreign to it.
    pub fn rdf_display_with(&self, vocabulary: &IndexVocabulary<I, B>) -> (r: Option<String>)
        ensures
            match r {
                Some(out) => quad_display_with::<I, B>(
                    vocabulary.iris(),
                    vocabulary.blank_ids(),
                    *self,
                ) == Some(out@),
                None => quad_display_with::<I, B>(
                    vocabulary.iris(),
                    vocabulary.blank_ids(),
                    *self,
                ) is None,
            },
    {
        let s = match self.0.rdf_display_with(vocabulary) {
            Some(s) => s,
            None => {
                return None;
            },
        };
        let p = match vocabulary.iri(&self.1) {
            Some(p) => p,
            None => {
                return None;
            },
        };
        let o = match self.2.rdf_display_with(vocabulary) {
            Some(o) => o,
            None => {
                return None;
            },
        };
        let mut out = s;
        out.append(" ");
        out.append("<");
        out.append(p.as_str());
        out.append(">");
        out.append(" ");
        out.append(o.as_str());
        match &self.3 {
            Some(g) => match g.rdf_display_with(vocabulary) {
                Some(gs) => {
                    out.append(" ");
                    out.append(gs.as_str());
                    proof {
                        assert(Some(out@) == quad_display_with::<I, B>(
                            vocabulary.iris(),
                            vocabulary.blank_ids(),
                            *self,
                        )) by {
                            assert(quad_display_with::<I, B>(
                                vocabulary.iris(),
                                vocabulary.blank_ids(),
                                *self,
                            ) matches Some(x) && out@ =~= x);
                        }
                    }
                    Some(out)
                },
                None => None,
            },
            None => {
                proof {
                    assert(Some(out@) == quad_display_with::<I, B>(
                        vocabulary.iris(),
                        vocabulary.blank_ids(),
                        *self,
                    )) by {
                        assert(quad_display_with::<I, B>(
                            vocabulary.iris(),
                            vocabulary.blank_ids(),
                            *self,
                        ) matches Some(x) && out@ =~= x);
                    }
                }
                Some(out)
            },
        }
    }
}

} // verus!

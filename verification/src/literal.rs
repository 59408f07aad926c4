//! RDF literal values.

use vstd::prelude::*;

verus! {

use core::cmp::Ordering;
use crate::lexical::{IriBuf, LangTagBuf};
use crate::vocabulary::{
    iri_arena_insert, iri_insert_id, iri_resolve, IndexVocabulary, IndexedBlankId, IndexedIri,
};

/// RDF literal: a value together with its type.
#[derive(Clone, Copy, Debug)]
pub struct Literal<T = Type<IriBuf, LangTagBuf>, S = String> {
    /// Literal value.
    value: S,
    /// Literal type.
    type_: T,
}

/// RDF literal type: a type IRI, or a language tag for language strings.
#[derive(Clone, Copy, Debug)]
pub enum Type<I = IriBuf, L = LangTagBuf> {
    /// Any type.
    Any(I),
    /// Language string.
    LangString(L),
}

impl<T, S> Literal<T, S> {
    /// The literal's value, as an abstract field.
    pub closed spec fn spec_value(self) -> S {
        self.value
    }

    /// The literal's type, as an abstract field.
    pub closed spec fn spec_type(self) -> T {
        self.type_
    }

    /// Pairs a value with its type.
    pub fn new(value: S, type_: T) -> (r: Self)
        ensures
            r.spec_value() == value,
            r.spec_type() == type_,
    {
        Literal { value, type_ }
    }

    /// Borrows the type.
    pub fn type_(&self) -> (r: &T)
        ensures
            *r == self.spec_type(),
    {
        &self.type_
    }

    /// Extracts the type.
    pub fn into_type_(self) -> (r: T)
        ensures
            r == self.spec_type(),
    {
        self.type_
    }

    /// Borrows the value.
    pub fn value(&self) -> (r: &S)
        ensures
            *r == self.spec_value(),
    {
        &self.value
    }

    /// Extracts the value.
    pub fn into_value(self) -> (r: S)
        ensures
            r == self.spec_value(),
    {
        self.value
    }

    /// Splits the literal into value and type.
    pub fn into_parts(self) -> (r: (S, T))
        ensures
            r.0 == self.spec_value(),
            r.1 == self.spec_type(),
    {
        (self.value, self.type_)
    }
}

impl Literal<Type<IriBuf, LangTagBuf>, String> {
    /// An equal copy of this literal.
    pub fn cloned(&self) -> (r: Self)
        ensures
            r == *self,
    {
        let ty = match &self.type_ {
            Type::Any(i) => Type::Any(i.clone()),
            Type::LangString(t) => Type::LangString(t.clone()),
        };
        let r = Literal { value: self.value.clone(), type_: ty };
        proof {
            lemma_literal_parts(r, *self);
        }
        r
    }
}

impl<T> Literal<T, String> {
    /// Borrows the value's text.
    pub fn as_str(&self) -> (r: &str)
        ensures
            r@ == self.spec_value()@,
    {
        self.value.as_str()
    }

    /// Borrows the value's bytes.
    pub fn as_bytes(&self) -> (r: &[u8])
        ensures
            r@ == vstd::utf8::encode_utf8(self.spec_value()@),
    {
        self.value.as_str().as_bytes()
    }
}

impl<I, L, S> Literal<Type<I, L>, S> {
    /// Whether this literal is a language string; exactly the `LangString`
    /// discriminant of its type.
    pub fn is_lang_string(&self) -> (r: bool)
        ensures
            r == (self.spec_type() is LangString),
    {
        self.type_.is_lang_string()
    }

    /// The language tag, if this literal is a language string.
    pub fn lang_tag(&self) -> (r: Option<&L>)
        ensures
            match r {
                Some(t) => self.spec_type() matches Type::LangString(x) && x == *t,
                None => self.spec_type() is Any,
            },
    {
        self.type_.lang_tag()
    }
}

impl<I, L> Type<I, L> {
    /// Whether this is the language string type.
    pub fn is_lang_string(&self) -> (r: bool)
        ensures
            r == (self is LangString),
    {
        matches!(self, Type::LangString(_))
    }

    /// The language tag, if this is the language string type.
    pub fn lang_tag(&self) -> (r: Option<&L>)
        ensures
            match r {
                Some(t) => self matches Type::LangString(x) && x == *t,
                None => self is Any,
            },
    {
        match self {
            Type::LangString(tag) => Some(tag),
            _ => None,
        }
    }
}

impl<I: PartialEq, L: PartialEq> PartialEq for Type<I, L> {
    fn eq(&self, other: &Self) -> (r: bool) {
        match (self, other) {
            (Type::Any(a), Type::Any(b)) => a == b,
            (Type::LangString(a), Type::LangString(b)) => a == b,
            _ => false,
        }
    }
}

impl<I: PartialEq, L: PartialEq> vstd::std_specs::cmp::PartialEqSpecImpl for Type<I, L> {
    open spec fn obeys_eq_spec() -> bool {
        <I as vstd::std_specs::cmp::PartialEqSpec>::obeys_eq_spec()
            && <L as vstd::std_specs::cmp::PartialEqSpec>::obeys_eq_spec()
    }

    open spec fn eq_spec(&self, other: &Self) -> bool {
        match (self, other) {
            (Type::Any(a), Type::Any(b)) => <I as vstd::std_specs::cmp::PartialEqSpec>::eq_spec(
                a,
                b,
            ),
            (Type::LangString(a), Type::LangString(b)) => <L as vstd::std_specs::cmp::PartialEqSpec>::eq_spec(a, b),
            _ => false,
        }
    }
}

impl<I: PartialOrd, L: PartialOrd> PartialOrd for Type<I, L> {
    fn partial_cmp(&self, other: &Self) -> (r: Option<Ordering>) {
        match (self, other) {
            (Type::Any(a), Type::Any(b)) => a.partial_cmp(b),
            (Type::Any(_), Type::LangString(_)) => Some(Ordering::Less),
            (Type::LangString(a), Type::LangString(b)) => a.partial_cmp(b),
            (Type::LangString(_), Type::Any(_)) => Some(Ordering::Greater),
        }
    }
}

impl<I: PartialOrd, L: PartialOrd> vstd::std_specs::cmp::PartialOrdSpecImpl for Type<I, L> {
    open spec fn obeys_partial_cmp_spec() -> bool {
        <I as vstd::std_specs::cmp::PartialOrdSpec>::obeys_partial_cmp_spec()
            && <L as vstd::std_specs::cmp::PartialOrdSpec>::obeys_partial_cmp_spec()
    }

    open spec fn partial_cmp_spec(&self, other: &Self) -> Option<Ordering> {
        match (self, other) {
            (Type::Any(a), Type::Any(b)) => <I as vstd::std_specs::cmp::PartialOrdSpec>::partial_cmp_spec(a, b),
            (Type::Any(_), Type::LangString(_)) => Some(Ordering::Less),
            (Type::LangString(a), Type::LangString(b)) => <L as vstd::std_specs::cmp::PartialOrdSpec>::partial_cmp_spec(a, b),
            (Type::LangString(_), Type::Any(_)) => Some(Ordering::Greater),
        }
    }
}

impl<T: PartialEq, S: PartialEq> PartialEq for Literal<T, S> {
    fn eq(&self, other: &Self) -> (r: bool) {
        self.value == other.value && self.type_ == other.type_
    }
}

impl<T: PartialEq, S: PartialEq> vstd::std_specs::cmp::PartialEqSpecImpl for Literal<T, S> {
    open spec fn obeys_eq_spec() -> bool {
        <T as vstd::std_specs::cmp::PartialEqSpec>::obeys_eq_spec()
            && <S as vstd::std_specs::cmp::PartialEqSpec>::obeys_eq_spec()
    }

    open spec fn eq_spec(&self, other: &Self) -> bool {
        <S as vstd::std_specs::cmp::PartialEqSpec>::eq_spec(
            &self.spec_value(),
            &other.spec_value(),
        ) && <T as vstd::std_specs::cmp::PartialEqSpec>::eq_spec(
            &self.spec_type(),
            &other.spec_type(),
        )
    }
}

impl<T: PartialOrd, S: PartialOrd> PartialOrd for Literal<T, S> {
    fn partial_cmp(&self, other: &Self) -> (r: Option<Ordering>) {
        match self.value.partial_cmp(&other.value) {
            Some(Ordering::Equal) => self.type_.partial_cmp(&other.type_),
            cmp => cmp,
        }
    }
}

impl<T: PartialOrd, S: PartialOrd> vstd::std_specs::cmp::PartialOrdSpecImpl for Literal<T, S> {
    open spec fn obeys_partial_cmp_spec() -> bool {
        <T as vstd::std_specs::cmp::PartialOrdSpec>::obeys_partial_cmp_spec()
            && <S as vstd::std_specs::cmp::PartialOrdSpec>::obeys_partial_cmp_spec()
    }

    open spec fn partial_cmp_spec(&self, other: &Self) -> Option<Ordering> {
        match <S as vstd::std_specs::cmp::PartialOrdSpec>::partial_cmp_spec(
            &self.spec_value(),
            &other.spec_value(),
        ) {
            Some(Ordering::Equal) => <T as vstd::std_specs::cmp::PartialOrdSpec>::partial_cmp_spec(
                &self.spec_type(),
                &other.spec_type(),
            ),
            cmp => cmp,
        }
    }
}

/// Two literals with the same value and the same type are the same
/// literal.
pub proof fn lemma_literal_parts<T, S>(a: Literal<T, S>, b: Literal<T, S>)
    requires
        a.spec_value() == b.spec_value(),
        a.spec_type() == b.spec_type(),
    ensures
        a == b,
{
}

/// A language string's type carries a valid language tag, and valid tags are
/// never empty.
pub proof fn lemma_lang_string_tag_nonempty(t: Type<IriBuf, LangTagBuf>)
    requires
        t matches Type::LangString(tag) && tag.wf(),
    ensures
        t matches Type::LangString(tag) ==> tag@.len() > 0,
{
}

impl<L> Type<IriBuf, L> {
    /// Interns the type IRI into the vocabulary; a language string type is
    /// kept as it is.
    pub fn insert_into_vocabulary<Ii: IndexedIri, Bb: IndexedBlankId>(
        self,
        vocabulary: &mut IndexVocabulary<Ii, Bb>,
    ) -> (r: Type<Ii, L>)
        ensures
            final(vocabulary).blank_ids() == old(vocabulary).blank_ids(),
            match self {
                Type::Any(i) => {
                    &&& final(vocabulary).iris() == iri_arena_insert::<Ii>(
                        old(vocabulary).iris(),
                        i@,
                    )
                    &&& r == Type::<Ii, L>::Any(iri_insert_id::<Ii>(old(vocabulary).iris(), i@))
                },
                Type::LangString(l) => {
                    &&& final(vocabulary).iris() == old(vocabulary).iris()
                    &&& r == Type::<Ii, L>::LangString(l)
                },
            },
    {
        match self {
            Type::Any(i) => Type::Any(vocabulary.insert(&i)),
            Type::LangString(l) => Type::LangString(l),
        }
    }
}

impl<L, S> Literal<Type<IriBuf, L>, S> {
    /// Interns the literal's type component through the vocabulary's
    /// identifier scheme; the value is untouched.
    pub fn insert_type_into_vocabulary<Ii: IndexedIri, Bb: IndexedBlankId>(
        self,
        vocabulary: &mut IndexVocabulary<Ii, Bb>,
    ) -> (r: Literal<Type<Ii, L>, S>)
        ensures
            final(vocabulary).blank_ids() == old(vocabulary).blank_ids(),
            r.spec_value() == self.spec_value(),
            match self.spec_type() {
                Type::Any(i) => {
                    &&& final(vocabulary).iris() == iri_arena_insert::<Ii>(
                        old(vocabulary).iris(),
                        i@,
                    )
                    &&& r.spec_type() == Type::<Ii, L>::Any(
                        iri_insert_id::<Ii>(old(vocabulary).iris(), i@),
                    )
                },
                Type::LangString(l) => {
                    &&& final(vocabulary).iris() == old(vocabulary).iris()
                    &&& r.spec_type() == Type::<Ii, L>::LangString(l)
                },
            },
    {
        Literal { value: self.value, type_: self.type_.insert_into_vocabulary(vocabulary) }
    }
}

impl Literal<Type<IriBuf, LangTagBuf>, String> {
    /// Borrowing form of [`Literal::insert_type_into_vocabulary`]: interns
    /// the type component, leaving this literal in place.
    pub fn inserted_type_into_vocabulary<Ii: IndexedIri, Bb: IndexedBlankId>(
        &self,
        vocabulary: &mut IndexVocabulary<Ii, Bb>,
    ) -> (r: Literal<Type<Ii, LangTagBuf>, String>)
        ensures
            final(vocabulary).blank_ids() == old(vocabulary).blank_ids(),
            r.spec_value() == self.spec_value(),
            match self.spec_type() {
                Type::Any(i) => {
                    &&& final(vocabulary).iris() == iri_arena_insert::<Ii>(
                        old(vocabulary).iris(),
                        i@,
                    )
                    &&& r.spec_type() == Type::<Ii, LangTagBuf>::Any(
                        iri_insert_id::<Ii>(old(vocabulary).iris(), i@),
                    )
                },
                Type::LangString(l) => {
                    &&& final(vocabulary).iris() == old(vocabulary).iris()
                    &&& r.spec_type() == Type::<Ii, LangTagBuf>::LangString(l)
                },
            },
    {
        self.cloned().insert_type_into_vocabulary(vocabulary)
    }
}

/// Error of exporting a literal type: the component that could not be
/// resolved.
#[derive(Clone, Copy, Debug)]
pub enum ExportError<I, L> {
    /// The type IRI is foreign to the vocabulary.
    Iri(I),
    /// The language tag is foreign to the vocabulary.
    LangTag(L),
}

/// Error raised when exporting a literal whose type identifier cannot be
/// resolved in the given vocabulary; carries the offending identifier.
#[derive(Clone, Copy, Debug)]
pub struct UnknownType<I>(pub I);

impl<I: IndexedIri> Type<I, LangTagBuf> {
    /// Resolves the type's IRI component back to its lexical form; a
    /// language string type is kept as it is. The error names the
    /// unresolvable identifier.
    pub fn try_export_literal_type<B: IndexedBlankId>(
        self,
        vocabulary: &IndexVocabulary<I, B>,
    ) -> (r: Result<Type<IriBuf, LangTagBuf>, ExportError<I, LangTagBuf>>)
        ensures
            match self {
                Type::Any(ty) => match iri_resolve::<I>(vocabulary.iris(), ty) {
                    Some(s) => r matches Ok(Type::Any(x)) && x@ == s,
                    None => r matches Err(ExportError::Iri(e)) && e == ty,
                },
                Type::LangString(tag) => r matches Ok(Type::LangString(t)) && t@ == tag@,
            },
    {
        match self {
            Type::Any(ty) => match vocabulary.iri(&ty) {
                Some(s) => Ok(Type::Any(s)),
                None => Err(ExportError::Iri(ty)),
            },
            Type::LangString(tag) => Ok(Type::LangString(tag)),
        }
    }
}

impl<I: IndexedIri> Literal<Type<I, LangTagBuf>, String> {
    /// Resolves the literal's type back to its lexical form; the value is
    /// carried over unchanged.
    pub fn try_export_literal<B: IndexedBlankId>(self, vocabulary: &IndexVocabulary<I, B>) -> (r:
        Result<Literal<Type<IriBuf, LangTagBuf>, String>, ExportError<I, LangTagBuf>>)
        ensures
            match self.spec_type() {
                Type::Any(ty) => match iri_resolve::<I>(vocabulary.iris(), ty) {
                    Some(s) => r matches Ok(x) && x.spec_value()@ == self.spec_value()@
                        && (x.spec_type() matches Type::Any(t) && t@ == s),
                    None => r matches Err(ExportError::Iri(e)) && e == ty,
                },
                Type::LangString(tag) => r matches Ok(x) && x.spec_value()@ == self.spec_value()@
                    && (x.spec_type() matches Type::LangString(t) && t@ == tag@),
            },
    {
        match self.type_.try_export_literal_type(vocabulary) {
            Ok(t) => Ok(Literal { value: self.value, type_: t }),
            Err(e) => Err(e),
        }
    }
}

/// The separator that precedes a literal's type in the canonical rendering:
/// `^^` before a type IRI, `@` before a language tag.
pub trait RdfDisplayTypeSeparator {
    /// The separator's text.
    spec fn spec_type_separator(&self) -> Seq<char>;

    /// Renders the separator.
    fn rdf_type_separator(&self) -> (r: String)
        ensures
            r@ == self.spec_type_separator(),
    ;
}

impl<I, L> RdfDisplayTypeSeparator for Type<I, L> {
    open spec fn spec_type_separator(&self) -> Seq<char> {
        match self {
            Type::Any(_) => "^^"@,
            Type::LangString(_) => "@"@,
        }
    }

    fn rdf_type_separator(&self) -> (r: String) {
        match self {
            Type::Any(_) => {
                let s: &str = "^^";
                s.to_owned()
            },
            Type::LangString(_) => {
                let s: &str = "@";
                s.to_owned()
            },
        }
    }
}

} // verus!

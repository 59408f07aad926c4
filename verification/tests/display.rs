use rdf_types::{
    BlankIdBuf, Id, Index, IndexVocabulary, IriBuf, LangTagBuf, Literal, Quad, RdfDisplay, Term,
    Triple, Type,
};
use rdf_types::literal::RdfDisplayTypeSeparator;

type LexId = Id<IriBuf, BlankIdBuf>;
type LexLiteral = Literal<Type<IriBuf, LangTagBuf>, String>;
type LexTerm = Term<LexId, LexLiteral>;

fn iri(s: &str) -> IriBuf {
    IriBuf::new(s.to_string()).unwrap()
}

fn blank(s: &str) -> BlankIdBuf {
    BlankIdBuf::new(s.to_string()).unwrap()
}

#[test]
fn id_rendering() {
    let i: LexId = Id::Iri(iri("http://example.com/a"));
    assert_eq!(i.rdf_display(), "<http://example.com/a>");
    let b: LexId = Id::Blank(blank("_:b0"));
    assert_eq!(b.rdf_display(), "_:b0");
}

#[test]
fn literal_rendering() {
    let typed: LexLiteral = Literal::new(
        "3".to_string(),
        Type::Any(iri("http://www.w3.org/2001/XMLSchema#integer")),
    );
    assert_eq!(
        typed.rdf_display(),
        "\"3\"^^<http://www.w3.org/2001/XMLSchema#integer>"
    );
    let tag = LangTagBuf::new("en".to_string()).unwrap();
    let lang: LexLiteral = Literal::new("hello".to_string(), Type::LangString(tag));
    assert_eq!(lang.rdf_display(), "\"hello\"@en");
}

#[test]
fn type_separator_rendering() {
    let typed: Type<IriBuf, LangTagBuf> = Type::Any(iri("http://example.com/t"));
    assert_eq!(typed.rdf_type_separator(), "^^");
    let tag = LangTagBuf::new("en".to_string()).unwrap();
    let lang: Type<IriBuf, LangTagBuf> = Type::LangString(tag);
    assert_eq!(lang.rdf_type_separator(), "@");
}

#[test]
fn triple_and_quad_rendering() {
    let t: Triple<LexId, IriBuf, LexTerm> = Triple(
        Id::Blank(blank("_:s")),
        iri("http://example.com/p"),
        Term::Id(Id::Iri(iri("http://example.com/o"))),
    );
    assert_eq!(t.rdf_display(), "_:s <http://example.com/p> <http://example.com/o>");
    let q: Quad<LexId, IriBuf, LexTerm, LexId> = Quad(
        Id::Blank(blank("_:s")),
        iri("http://example.com/p"),
        Term::Literal(Literal::new(
            "v".to_string(),
            Type::Any(iri("http://example.com/t")),
        )),
        Some(Id::Iri(iri("http://example.com/g"))),
    );
    assert_eq!(
        q.rdf_display(),
        "_:s <http://example.com/p> \"v\"^^<http://example.com/t> <http://example.com/g>"
    );
    let q2: Quad<LexId, IriBuf, LexTerm, LexId> = Quad(
        Id::Blank(blank("_:s")),
        iri("http://example.com/p"),
        Term::Id(Id::Blank(blank("_:o"))),
        None,
    );
    assert_eq!(q2.rdf_display(), "_:s <http://example.com/p> _:o");
}

#[test]
fn rendering_with_vocabulary() {
    let mut v: IndexVocabulary<Index, Index> = IndexVocabulary::new();
    let s = v.insert_blank_id(&blank("_:s"));
    let p = v.insert(&iri("http://example.com/p"));
    let o = v.insert(&iri("http://example.com/o"));
    let q: Quad<
        Id<Index, Index>,
        Index,
        Term<Id<Index, Index>, Literal<Type<Index, LangTagBuf>, String>>,
        Id<Index, Index>,
    > = Quad(Id::Blank(s), p, Term::Id(Id::Iri(o)), None);
    assert_eq!(
        q.rdf_display_with(&v).unwrap(),
        "_:s <http://example.com/p> <http://example.com/o>"
    );
    let foreign: Quad<
        Id<Index, Index>,
        Index,
        Term<Id<Index, Index>, Literal<Type<Index, LangTagBuf>, String>>,
        Id<Index, Index>,
    > = Quad(Id::Blank(s), p, Term::Id(Id::Iri(Index(77))), None);
    assert!(foreign.rdf_display_with(&v).is_none());
    let id: Id<Index, Index> = Id::Iri(p);
    assert_eq!(id.rdf_display_with(&v).unwrap(), "<http://example.com/p>");
}

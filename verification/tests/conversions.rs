use rdf_types::loc::{Loc, Literal as LocLiteral, StrippedLiteral};
use rdf_types::triple::LexicalTriple;
use rdf_types::{
    BlankIdBuf, Id, Index, IndexVocabulary, IriBuf, LangTagBuf, LexicalQuad, Literal, Quad, Term,
    Triple, Type,
};

type LexId = Id<IriBuf, BlankIdBuf>;
type LexLiteral = Literal<Type<IriBuf, LangTagBuf>, String>;
type LexTerm = Term<LexId, LexLiteral>;

fn iri(s: &str) -> IriBuf {
    IriBuf::new(s.to_string()).unwrap()
}

fn blank(s: &str) -> BlankIdBuf {
    BlankIdBuf::new(s.to_string()).unwrap()
}

#[test]
fn triple_into_grdf() {
    let t: LexicalTriple = Triple(
        Id::Blank(blank("_:s")),
        iri("http://example.com/p"),
        Term::Id(Id::Iri(iri("http://example.com/o"))),
    );
    let g = t.into_grdf();
    assert_eq!(g.0, Term::Id(Id::Blank(blank("_:s"))));
    assert_eq!(g.1, Term::Id(Id::Iri(iri("http://example.com/p"))));
    assert_eq!(g.2, Term::Id(Id::Iri(iri("http://example.com/o"))));
}

#[test]
fn quad_into_grdf() {
    let q: LexicalQuad = Quad(
        Id::Blank(blank("_:s")),
        iri("http://example.com/p"),
        Term::Id(Id::Iri(iri("http://example.com/o"))),
        Some(Id::Iri(iri("http://example.com/g"))),
    );
    let g = q.into_grdf();
    assert_eq!(g.1, Term::Id(Id::Iri(iri("http://example.com/p"))));
    assert_eq!(g.3, Some(Term::Id(Id::Iri(iri("http://example.com/g")))));
    let q2: LexicalQuad = Quad(
        Id::Blank(blank("_:s")),
        iri("http://example.com/p"),
        Term::Id(Id::Iri(iri("http://example.com/o"))),
        None,
    );
    assert_eq!(q2.into_grdf().3, None);
}

#[test]
fn quad_ref_round_trip() {
    let q: LexicalQuad = Quad(
        Id::Blank(blank("_:s")),
        iri("http://example.com/p"),
        Term::Literal(Literal::new(
            "v".to_string(),
            Type::Any(iri("http://example.com/t")),
        )),
        Some(Id::Blank(blank("_:g"))),
    );
    let r = q.as_lexical_quad_ref();
    let owned = r.into_owned();
    assert_eq!(owned, q);
}

#[test]
fn cloned_and_copied_forms() {
    let i = iri("http://example.com/a");
    let b = blank("_:b");
    let id: LexId = Id::Iri(i.clone());
    assert_eq!(id.as_ref().cloned(), id);
    let idx: Id<u32, u32> = Id::Blank(5);
    assert_eq!(idx.as_ref().copied(), idx);
    let t: LexTerm = Term::Id(Id::Blank(b.clone()));
    assert_eq!(t.as_ref().cloned(), t);
    let q = Quad(&1u32, &2u32, &3u32, Some(&4u32));
    assert_eq!(q.cloned(), Quad(1, 2, 3, Some(4)));
    assert_eq!(q.into_cloned(), Quad(1, 2, 3, Some(4)));
}

#[test]
fn literal_copies_and_bytes() {
    let l: LexLiteral = Literal::new(
        "abc".to_string(),
        Type::Any(iri("http://example.com/t")),
    );
    assert_eq!(l.cloned(), l);
    assert_eq!(l.as_bytes(), b"abc");
    assert_eq!(l.as_str(), "abc");
    let (v, t) = l.into_parts();
    assert_eq!(v, "abc");
    assert!(matches!(t, Type::Any(_)));
}

#[test]
fn term_with_located_literal_strips() {
    let t: Term<LexId, LocLiteral<usize, String, IriBuf, LangTagBuf>> = Term::Literal(
        LocLiteral::String(Loc("v".to_string(), 3)),
    );
    match t.strip() {
        Term::Literal(StrippedLiteral::String(s)) => assert_eq!(s, "v"),
        _ => panic!("expected an untyped string literal"),
    }
    let t: Term<LexId, LocLiteral<usize, String, IriBuf, LangTagBuf>> =
        Term::Id(Id::Blank(blank("_:x")));
    match t.strip() {
        Term::Id(Id::Blank(b)) => assert_eq!(b.as_str(), "_:x"),
        _ => panic!("expected a blank node identifier"),
    }
}

#[test]
fn embed_then_export_round_trips() {
    let mut v: IndexVocabulary<Index, Index> = IndexVocabulary::new();
    let q: LexicalQuad = Quad(
        Id::Blank(blank("_:s")),
        iri("http://example.com/p"),
        Term::Literal(Literal::new(
            "v".to_string(),
            Type::Any(iri("http://example.com/t")),
        )),
        Some(Id::Iri(iri("http://example.com/g"))),
    );
    let embedded = q.clone().insert_into(&mut v);
    let exported = embedded.try_export_quad(&v).unwrap();
    assert_eq!(exported, q);
}

#[test]
fn embed_term_into_vocabulary() {
    let mut v: IndexVocabulary<Index, Index> = IndexVocabulary::new();
    let t: LexTerm = Term::Literal(Literal::new(
        "x".to_string(),
        Type::Any(iri("http://example.com/t")),
    ));
    let embedded = t.insert_into(&mut v);
    match embedded {
        Term::Literal(l) => {
            assert_eq!(l.value().as_str(), "x");
            match l.type_() {
                Type::Any(i) => {
                    assert_eq!(v.iri(i).unwrap().as_str(), "http://example.com/t")
                }
                Type::LangString(_) => panic!("expected a type IRI"),
            }
        }
        Term::Id(_) => panic!("expected a literal"),
    }
}

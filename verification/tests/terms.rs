use std::cmp::Ordering;

use rdf_types::hashing::hash_value;
use rdf_types::{
    BlankIdBuf, Id, Index, IndexVocabulary, IriBuf, LangTagBuf, Literal, Quad, QuadExportFailed,
    Term, Triple, Type,
};

type LexId = Id<IriBuf, BlankIdBuf>;
type LexLiteral = Literal<Type<IriBuf, LangTagBuf>, String>;
type LexTerm = Term<LexId, LexLiteral>;

fn iri(s: &str) -> IriBuf {
    IriBuf::new(s.to_string()).unwrap()
}

fn blank(s: &str) -> BlankIdBuf {
    BlankIdBuf::new(s.to_string()).unwrap()
}

#[test]
fn blank_orders_before_iri() {
    let b: LexId = Id::Blank(blank("_:zzz"));
    let i: LexId = Id::Iri(iri("http://example.com/aaa"));
    assert_eq!(b.partial_cmp(&i), Some(Ordering::Less));
    assert_eq!(i.partial_cmp(&b), Some(Ordering::Greater));
    assert!(b < i);
}

#[test]
fn id_orders_before_literal() {
    let i: LexTerm = Term::Id(Id::Iri(iri("http://example.com/zzz")));
    let l: LexTerm = Term::Literal(Literal::new(
        "aaa".to_string(),
        Type::Any(iri("http://example.com/t")),
    ));
    assert_eq!(i.partial_cmp(&l), Some(Ordering::Less));
    assert!(i < l);
}

#[test]
fn comparison_is_transparent() {
    let a = iri("http://example.com/a");
    let b = iri("http://example.com/b");
    let wrapped = Id::<IriBuf, BlankIdBuf>::Iri(a.clone())
        .partial_cmp(&Id::<IriBuf, BlankIdBuf>::Iri(b.clone()));
    assert_eq!(wrapped, a.partial_cmp(&b));
    let ta: LexTerm = Term::Id(Id::Iri(a.clone()));
    let tb: LexTerm = Term::Id(Id::Iri(b.clone()));
    assert_eq!(ta.partial_cmp(&tb), LexId::Iri(a).partial_cmp(&LexId::Iri(b)));
}

#[test]
fn hashing_is_transparent() {
    let i = iri("http://example.com/a");
    let id: LexId = Id::Iri(i.clone());
    let term: LexTerm = Term::Id(id.clone());
    assert_eq!(hash_value(&i), hash_value(&id));
    assert_eq!(hash_value(&id), hash_value(&term));
    let b = blank("_:b0");
    let bid: LexId = Id::Blank(b.clone());
    assert_eq!(hash_value(&b), hash_value(&bid));
    let l: LexLiteral = Literal::new("v".to_string(), Type::Any(iri("http://example.com/t")));
    let lt: LexTerm = Term::Literal(l.clone());
    assert_eq!(hash_value(&l), hash_value(&lt));
}

#[test]
fn literal_discriminants() {
    let typed: LexLiteral = Literal::new(
        "3".to_string(),
        Type::Any(iri("http://www.w3.org/2001/XMLSchema#integer")),
    );
    assert!(!typed.is_lang_string());
    assert!(typed.lang_tag().is_none());
    let tag = LangTagBuf::new("en".to_string()).unwrap();
    let lang: LexLiteral = Literal::new("hello".to_string(), Type::LangString(tag));
    assert!(lang.is_lang_string());
    assert_eq!(lang.lang_tag().unwrap().as_str(), "en");
    assert_eq!(lang.value().as_str(), "hello");
    assert!(LangTagBuf::new("".to_string()).is_err());
    assert!(LangTagBuf::new("not a tag!".to_string()).is_err());
}

#[test]
fn id_accessors() {
    let i: LexId = Id::Iri(iri("http://example.com/a"));
    assert!(i.is_iri());
    assert!(!i.is_blank());
    assert_eq!(i.as_iri().unwrap().as_str(), "http://example.com/a");
    assert!(i.as_blank().is_none());
    assert_eq!(i.as_str(), "http://example.com/a");
    let b: LexId = Id::Blank(blank("_:x"));
    assert_eq!(b.as_str(), "_:x");
    assert!(b.clone().into_blank().is_some());
    assert!(b.try_into_iri().is_err());
}

#[test]
fn quad_into_triple_and_back_with_graph() {
    let q = Quad(1u32, 2u32, 3u32, Some(4u32));
    let (t, g) = q.clone().into_triple();
    assert_eq!(t, Triple(1, 2, 3));
    assert_eq!(g, Some(4));
    let back = Quad::new(t.0, t.1, t.2, g);
    assert_eq!(back, q);
}

#[test]
fn quad_into_triple_and_back_without_graph() {
    let q = Quad(1u32, 2u32, 3u32, None::<u32>);
    let (t, g) = q.clone().into_triple();
    assert_eq!(g, None);
    let back = Quad::new(t.0, t.1, t.2, g);
    assert_eq!(back, q);
}

#[test]
fn quad_accessors_and_maps() {
    let q = Quad(1u32, 2u32, 3u32, Some(4u32));
    assert_eq!(*q.subject(), 1);
    assert_eq!(*q.predicate(), 2);
    assert_eq!(*q.object(), 3);
    assert_eq!(q.graph(), Some(&4));
    assert_eq!(q.clone().into_parts(), (1, 2, 3, Some(4)));
    let q2 = q.clone().map_subject(|s| s + 10);
    assert_eq!(q2, Quad(11, 2, 3, Some(4)));
    let q3 = q.clone().map_predicate(|p| p + 10);
    assert_eq!(q3, Quad(1, 12, 3, Some(4)));
    let q4 = q.clone().map_object(|o| o + 10);
    assert_eq!(q4, Quad(1, 2, 13, Some(4)));
    let q5 = q.clone().map_graph(|g| g.map(|x| x + 10));
    assert_eq!(q5, Quad(1, 2, 3, Some(14)));
    let q6 = q.clone().map(|x| x * 2);
    assert_eq!(q6, Quad(2, 4, 6, Some(8)));
    let q7 = q.map_all(|s| s + 1, |p| p + 2, |o| o + 3, |g| g);
    assert_eq!(q7, Quad(2, 4, 6, Some(4)));
}

type VocabQuad = Quad<Id<Index, Index>, Index, Term<Id<Index, Index>, Literal<Type<Index, LangTagBuf>, String>>, Id<Index, Index>>;

#[test]
fn export_quad_round_trips() {
    let mut v: IndexVocabulary<Index, Index> = IndexVocabulary::new();
    let s = v.insert(&iri("http://example.com/s"));
    let p = v.insert(&iri("http://example.com/p"));
    let o = v.insert(&iri("http://example.com/o"));
    let g = v.insert_blank_id(&blank("_:g"));
    let q: VocabQuad = Quad(
        Id::Iri(s),
        p,
        Term::Id(Id::Iri(o)),
        Some(Id::Blank(g)),
    );
    let exported = q.try_export_quad(&v).unwrap();
    assert_eq!(exported.0.as_str(), "http://example.com/s");
    assert_eq!(exported.1.as_str(), "http://example.com/p");
    match &exported.2 {
        Term::Id(id) => assert_eq!(id.as_str(), "http://example.com/o"),
        Term::Literal(_) => panic!("expected an identifier"),
    }
    assert_eq!(exported.3.as_ref().unwrap().as_str(), "_:g");
}

#[test]
fn export_failure_names_the_object() {
    let mut v: IndexVocabulary<Index, Index> = IndexVocabulary::new();
    let s = v.insert(&iri("http://example.com/s"));
    let p = v.insert(&iri("http://example.com/p"));
    let g = v.insert_blank_id(&blank("_:g"));
    let foreign = Index(100);
    let q: VocabQuad = Quad(
        Id::Iri(s),
        p,
        Term::Id(Id::Iri(foreign)),
        Some(Id::Blank(g)),
    );
    match q.try_export_quad(&v) {
        Err(QuadExportFailed::Object(Term::Id(Id::Iri(e)))) => assert_eq!(e, foreign),
        _ => panic!("expected an object-tagged failure"),
    }
}

#[test]
fn export_failure_names_each_component() {
    let mut v: IndexVocabulary<Index, Index> = IndexVocabulary::new();
    let s = v.insert(&iri("http://example.com/s"));
    let p = v.insert(&iri("http://example.com/p"));
    let o = v.insert(&iri("http://example.com/o"));
    let g = v.insert_blank_id(&blank("_:g"));
    let foreign = Index(100);

    let q: VocabQuad = Quad(Id::Iri(foreign), p, Term::Id(Id::Iri(o)), Some(Id::Blank(g)));
    assert!(matches!(q.try_export_quad(&v), Err(QuadExportFailed::Subject(_))));

    let q: VocabQuad = Quad(Id::Iri(s), foreign, Term::Id(Id::Iri(o)), Some(Id::Blank(g)));
    assert!(matches!(q.try_export_quad(&v), Err(QuadExportFailed::Predicate(_))));

    let q: VocabQuad = Quad(Id::Iri(s), p, Term::Id(Id::Iri(o)), Some(Id::Blank(foreign)));
    assert!(matches!(q.try_export_quad(&v), Err(QuadExportFailed::Graph(_))));
}

#[test]
fn export_literal_type() {
    let mut v: IndexVocabulary<Index, Index> = IndexVocabulary::new();
    let t = v.insert(&iri("http://www.w3.org/2001/XMLSchema#string"));
    let lit: Literal<Type<Index, LangTagBuf>, String> =
        Literal::new("hi".to_string(), Type::Any(t));
    let exported = lit.try_export_literal(&v).unwrap();
    assert_eq!(exported.value().as_str(), "hi");
    match exported.type_() {
        Type::Any(i) => assert_eq!(i.as_str(), "http://www.w3.org/2001/XMLSchema#string"),
        Type::LangString(_) => panic!("expected a type IRI"),
    }
    let foreign: Literal<Type<Index, LangTagBuf>, String> =
        Literal::new("hi".to_string(), Type::Any(Index(50)));
    match foreign.try_export_literal(&v) {
        Err(rdf_types::ExportError::Iri(i)) => assert_eq!(i, Index(50)),
        _ => panic!("expected a type-IRI export error"),
    }
}

#[test]
fn literal_insert_type_into_vocabulary() {
    let mut v: IndexVocabulary<Index, Index> = IndexVocabulary::new();
    let lit: Literal<Type<IriBuf, LangTagBuf>, String> = Literal::new(
        "3".to_string(),
        Type::Any(iri("http://www.w3.org/2001/XMLSchema#integer")),
    );
    let interned = lit.insert_type_into_vocabulary(&mut v);
    assert_eq!(interned.value().as_str(), "3");
    match interned.type_() {
        Type::Any(i) => {
            let back = v.iri(i).unwrap();
            assert_eq!(back.as_str(), "http://www.w3.org/2001/XMLSchema#integer");
        }
        Type::LangString(_) => panic!("expected a type IRI"),
    }
}

#[test]
fn term_accessors() {
    let t: LexTerm = Term::Id(Id::Iri(iri("http://example.com/a")));
    assert!(t.is_id());
    assert!(!t.is_literal());
    assert!(t.is_iri());
    assert!(!t.is_blank());
    assert!(t.as_id().is_some());
    assert!(t.as_literal().is_none());
    let l: LexTerm = Term::Literal(Literal::new(
        "v".to_string(),
        Type::Any(iri("http://example.com/t")),
    ));
    assert!(l.is_literal());
    assert!(l.clone().try_into_literal().is_ok());
    assert!(l.try_into_id().is_err());
    let b: LexTerm = Term::blank(blank("_:b"));
    assert_eq!(b.as_blank().unwrap().as_str(), "_:b");
}

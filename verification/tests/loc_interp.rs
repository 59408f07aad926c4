use rdf_types::interpretation::{
    BlankIdInterpretation, Interpret, IriInterpretation, IriInterpretationMut, LexicalTerm,
    LiteralInterpretation, ReverseBlankIdInterpretation, ReverseIriInterpretation,
    ReverseLiteralInterpretation,
};
use rdf_types::loc::{Loc, Literal as LocLiteral, StrippedLiteral};
use rdf_types::{BlankIdBuf, Id, IriBuf, LangTagBuf, Literal, Quad, Term, Triple, Type};

fn iri(s: &str) -> IriBuf {
    IriBuf::new(s.to_string()).unwrap()
}

fn blank(s: &str) -> BlankIdBuf {
    BlankIdBuf::new(s.to_string()).unwrap()
}

#[test]
fn loc_keeps_value_and_metadata_apart() {
    let l = Loc("x", 14usize);
    assert_eq!(*l.value(), "x");
    assert_eq!(*l.metadata(), 14);
    assert_eq!(l.strip(), "x");
}

#[test]
fn stripped_eq_ignores_metadata() {
    let a = Loc("x", 1usize);
    let b = Loc("x", 2usize);
    assert!(a.stripped_eq(&b));
    let c = Loc("y", 1usize);
    assert!(!a.stripped_eq(&c));
}

#[test]
fn located_literal_accessors_and_strip() {
    let lit: LocLiteral<usize, String, IriBuf, LangTagBuf> = LocLiteral::TypedString(
        Loc("3".to_string(), 1),
        Loc(iri("http://example.com/t"), 2),
    );
    assert!(lit.is_typed());
    assert!(!lit.is_lang_string());
    assert_eq!(lit.ty().unwrap().value().as_str(), "http://example.com/t");
    assert!(lit.lang_tag().is_none());
    assert_eq!(lit.string_literal().value(), "3");
    match lit.strip() {
        StrippedLiteral::TypedString(v, t) => {
            assert_eq!(v, "3");
            assert_eq!(t.as_str(), "http://example.com/t");
        }
        _ => panic!("expected a typed string"),
    }
}

#[test]
fn located_literal_stripped_eq() {
    let a: LocLiteral<usize, String, IriBuf, LangTagBuf> =
        LocLiteral::String(Loc("v".to_string(), 1));
    let b: LocLiteral<usize, String, IriBuf, LangTagBuf> =
        LocLiteral::String(Loc("v".to_string(), 99));
    assert!(a.stripped_eq(&b));
    let c: LocLiteral<usize, String, IriBuf, LangTagBuf> = LocLiteral::LangString(
        Loc("v".to_string(), 1),
        Loc(LangTagBuf::new("en".to_string()).unwrap(), 1),
    );
    assert!(!a.stripped_eq(&c));
}

#[test]
fn located_statements_strip_and_compare() {
    let t1 = Triple(Loc(1u32, 10usize), Loc(2u32, 11), Loc(3u32, 12));
    let t2 = Triple(Loc(1u32, 90usize), Loc(2u32, 91), Loc(3u32, 92));
    assert!(t1.stripped_eq(&t2));
    assert_eq!(t1.strip(), Triple(1, 2, 3));
    let q1 = Quad(Loc(1u32, 10usize), Loc(2u32, 11), Loc(3u32, 12), Some(Loc(4u32, 13)));
    let q2 = Quad(Loc(1u32, 50usize), Loc(2u32, 51), Loc(3u32, 52), Some(Loc(4u32, 53)));
    assert!(q1.stripped_eq(&q2));
    assert_eq!(q1.strip(), Quad(1, 2, 3, Some(4)));
    let q3 = Quad(Loc(1u32, 10usize), Loc(2u32, 11), Loc(9u32, 12), Some(Loc(4u32, 13)));
    assert!(!q1.stripped_eq(&q3));
}

#[test]
fn identity_interpretation_maps_terms_to_themselves() {
    let mut interp = ();
    let i = iri("http://example.com/a");
    let r = interp.interpret_iri(i.clone());
    assert_eq!(r, Term::Id(Id::Iri(i.clone())));
    let looked_up = interp.iri_interpretation(&i).unwrap();
    assert_eq!(looked_up, r);
    let b = blank("_:b");
    let rb = interp.blank_id_interpretation(&b).unwrap();
    assert_eq!(rb, Term::Id(Id::Blank(b.clone())));
    let lit: Literal<Type<IriBuf, LangTagBuf>, String> =
        Literal::new("v".to_string(), Type::Any(iri("http://example.com/t")));
    let rl = interp.literal_interpretation(&lit).unwrap();
    assert_eq!(rl, Term::Literal(lit.clone()));
    let term: LexicalTerm = Term::Id(Id::Blank(b.clone()));
    let rt = term.clone().interpret(&mut interp);
    assert_eq!(rt, term);
}

#[test]
fn identity_interpretation_reverse_lookup() {
    let interp = ();
    let i = iri("http://example.com/a");
    let resource: LexicalTerm = Term::Id(Id::Iri(i.clone()));
    let iris = interp.iris_of(&resource);
    assert_eq!(iris.len(), 1);
    assert_eq!(iris[0].as_str(), "http://example.com/a");
    assert!(interp.blank_ids_of(&resource).is_empty());
    assert!(interp.literals_of(&resource).is_empty());
    let b = blank("_:b");
    let resource: LexicalTerm = Term::Id(Id::Blank(b));
    assert_eq!(interp.blank_ids_of(&resource).len(), 1);
    assert!(interp.iris_of(&resource).is_empty());
    let lit: Literal<Type<IriBuf, LangTagBuf>, String> =
        Literal::new("v".to_string(), Type::Any(iri("http://example.com/t")));
    let resource: LexicalTerm = Term::Literal(lit);
    assert_eq!(interp.literals_of(&resource).len(), 1);
    assert!(interp.iris_of(&resource).is_empty());
}

#[test]
fn interpret_quad_keeps_structure() {
    let mut interp = ();
    let q: Quad<LexicalTerm, LexicalTerm, LexicalTerm, LexicalTerm> = Quad(
        Term::Id(Id::Blank(blank("_:s"))),
        Term::Id(Id::Iri(iri("http://example.com/p"))),
        Term::Id(Id::Iri(iri("http://example.com/o"))),
        None,
    );
    let r = q.clone().interpret(&mut interp);
    assert_eq!(r, q);
}

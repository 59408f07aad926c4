use rdf_types::{BlankIdBuf, Id, Index, IndexVocabulary, IriBuf};

fn iri(s: &str) -> IriBuf {
    IriBuf::new(s.to_string()).unwrap()
}

fn blank(s: &str) -> BlankIdBuf {
    BlankIdBuf::new(s.to_string()).unwrap()
}

fn vocab() -> IndexVocabulary<Index, Index> {
    IndexVocabulary::new()
}

#[test]
fn distinct_iris_get_distinct_ids() {
    let mut v = vocab();
    let a = v.insert(&iri("http://example.com/a"));
    let b = v.insert(&iri("http://example.com/b"));
    assert_ne!(a, b);
}

#[test]
fn distinct_blank_ids_get_distinct_ids() {
    let mut v = vocab();
    let a = v.insert_blank_id(&blank("_:a"));
    let b = v.insert_blank_id(&blank("_:b"));
    assert_ne!(a, b);
}

#[test]
fn insert_is_idempotent() {
    let mut v = vocab();
    let first = v.insert(&iri("http://example.com/x"));
    let second = v.insert(&iri("http://example.com/x"));
    assert_eq!(first, second);
    let b1 = v.insert_blank_id(&blank("_:x"));
    let b2 = v.insert_blank_id(&blank("_:x"));
    assert_eq!(b1, b2);
}

#[test]
fn insert_then_resolve_round_trips() {
    let mut v = vocab();
    let id = v.insert(&iri("http://example.com/x"));
    let back = v.iri(&id).unwrap();
    assert_eq!(back.as_str(), "http://example.com/x");
    let bid = v.insert_blank_id(&blank("_:node7"));
    let back = v.blank_id(&bid).unwrap();
    assert_eq!(back.as_str(), "_:node7");
}

#[test]
fn iri_and_blank_index_spaces_are_disjoint_and_dense() {
    let mut v = vocab();
    let a = v.insert(&iri("http://example.com/a"));
    let b = v.insert(&iri("http://example.com/b"));
    let ba = v.insert_blank_id(&blank("_:a"));
    let bb = v.insert_blank_id(&blank("_:b"));
    assert_eq!(a, Index(0));
    assert_eq!(b, Index(1));
    assert_eq!(ba, Index(0));
    assert_eq!(bb, Index(1));
}

#[test]
fn get_never_allocates() {
    let mut v = vocab();
    assert!(v.get(&iri("http://example.com/a")).is_none());
    let id = v.insert(&iri("http://example.com/a"));
    assert_eq!(v.get(&iri("http://example.com/a")), Some(id));
    assert!(v.get(&iri("http://example.com/b")).is_none());
    assert!(v.get_blank_id(&blank("_:a")).is_none());
    let bid = v.insert_blank_id(&blank("_:a"));
    assert_eq!(v.get_blank_id(&blank("_:a")), Some(bid));
}

#[test]
fn foreign_index_resolves_to_nothing() {
    let mut v = vocab();
    v.insert(&iri("http://example.com/a"));
    assert!(v.iri(&Index(7)).is_none());
    assert!(v.blank_id(&Index(0)).is_none());
}

#[test]
fn invalid_lexical_forms_are_rejected() {
    assert!(IriBuf::new("not a valid iri".to_string()).is_err());
    assert!(IriBuf::new("http://example.com/ok".to_string()).is_ok());
    assert!(BlankIdBuf::new("nodeprefix".to_string()).is_err());
    assert!(BlankIdBuf::new("_:".to_string()).is_err());
    assert!(BlankIdBuf::new("_:n".to_string()).is_ok());
    let e = IriBuf::new("not a valid iri".to_string()).unwrap_err();
    assert_eq!(e.0, "not a valid iri");
}

#[test]
fn exported_id_matches_inserted_form() {
    let mut v = vocab();
    let id = v.insert(&iri("http://example.com/a"));
    let exported = Id::<Index, Index>::Iri(id).try_export_id(&v).unwrap();
    match exported {
        Id::Iri(i) => assert_eq!(i.as_str(), "http://example.com/a"),
        Id::Blank(_) => panic!("expected an IRI"),
    }
    let foreign = Id::<Index, Index>::Iri(Index(9)).try_export_id(&v);
    assert!(foreign.is_err());
}

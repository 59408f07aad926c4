use rdf_types::{Blank, Generator, Id, Index, IndexVocabulary, Uuid};

fn vocab() -> IndexVocabulary<Index, Index> {
    IndexVocabulary::new()
}

fn next_iri_string(
    gen: &mut Uuid,
    vocabulary: &mut IndexVocabulary<Index, Index>,
) -> String {
    match gen.next(vocabulary) {
        Id::Iri(i) => vocabulary.iri(&i).unwrap().into_string(),
        Id::Blank(_) => panic!("expected an IRI"),
    }
}

#[test]
fn uuidv3_iri() {
    let ns = uuid::Uuid::parse_str("936DA01F9ABD4d9d80C702AF85C822A8").unwrap();
    let mut uuid_gen = Uuid::V3(ns.as_bytes().to_vec(), "test".to_string());
    let mut vocabulary = vocab();
    for _ in 0..100 {
        let reference = next_iri_string(&mut uuid_gen, &mut vocabulary);
        assert!(iref::Iri::new(reference.as_str()).is_ok())
    }
}

#[test]
fn uuidv4_iri() {
    let mut uuid_gen = Uuid::V4;
    let mut vocabulary = vocab();
    for _ in 0..100 {
        let reference = next_iri_string(&mut uuid_gen, &mut vocabulary);
        assert!(iref::Iri::new(reference.as_str()).is_ok())
    }
}

#[test]
fn uuidv5_iri() {
    let ns = uuid::Uuid::parse_str("936DA01F9ABD4d9d80C702AF85C822A8").unwrap();
    let mut uuid_gen = Uuid::V5(ns.as_bytes().to_vec(), "test".to_string());
    let mut vocabulary = vocab();
    for _ in 0..100 {
        let reference = next_iri_string(&mut uuid_gen, &mut vocabulary);
        assert!(iref::Iri::new(reference.as_str()).is_ok())
    }
}

#[test]
fn uuid_random_iris_are_distinct() {
    let mut uuid_gen = Uuid::V4;
    let mut vocabulary = vocab();
    let mut seen: Vec<String> = Vec::new();
    for _ in 0..100 {
        let reference = next_iri_string(&mut uuid_gen, &mut vocabulary);
        assert!(iref::Iri::new(reference.as_str()).is_ok());
        assert!(!seen.contains(&reference));
        seen.push(reference);
    }
    assert_eq!(seen.len(), 100);
}

#[test]
fn uuid_urn_shape() {
    let mut uuid_gen = Uuid::V4;
    let mut vocabulary = vocab();
    let reference = next_iri_string(&mut uuid_gen, &mut vocabulary);
    assert_eq!(reference.len(), 45);
    assert!(reference.starts_with("urn:uuid:"));
}

#[test]
fn uuid_name_based_versions_are_deterministic() {
    let ns = uuid::Uuid::parse_str("936DA01F9ABD4d9d80C702AF85C822A8").unwrap();
    let mut g1 = Uuid::V3(ns.as_bytes().to_vec(), "test".to_string());
    let mut g2 = Uuid::V3(ns.as_bytes().to_vec(), "test".to_string());
    let mut v1 = vocab();
    let mut v2 = vocab();
    let a = next_iri_string(&mut g1, &mut v1);
    let b = next_iri_string(&mut g2, &mut v2);
    assert_eq!(a, b);
    let mut g3 = Uuid::V5(ns.as_bytes().to_vec(), "test".to_string());
    let mut g4 = Uuid::V5(ns.as_bytes().to_vec(), "other".to_string());
    let c = next_iri_string(&mut g3, &mut v1);
    let d = next_iri_string(&mut g4, &mut v2);
    assert_ne!(a, c);
    assert_ne!(c, d);
}

#[test]
fn blank_generator_counts_up_from_offset_zero() {
    let mut gen = Blank::new_with_prefix("b".to_string());
    let mut ids: Vec<String> = Vec::new();
    for _ in 0..5 {
        ids.push(gen.next_blank_id().into_string());
    }
    assert_eq!(ids, vec!["_:b0", "_:b1", "_:b2", "_:b3", "_:b4"]);
    for i in 0..5 {
        for j in 0..5 {
            if i != j {
                assert_ne!(ids[i], ids[j]);
            }
        }
    }
}

#[test]
fn blank_generator_constructors() {
    let g = Blank::new();
    assert_eq!(g.prefix(), "");
    assert_eq!(g.count(), 0);
    let g = Blank::new_with_offset(12);
    assert_eq!(g.count(), 12);
    let mut g = Blank::new_full("p".to_string(), 41);
    assert_eq!(g.prefix(), "p");
    assert_eq!(g.count(), 41);
    assert_eq!(g.next_blank_id().as_str(), "_:p41");
    assert_eq!(g.count(), 42);
    let annotated = Blank::new().with_metadata(7u32);
    assert_eq!(annotated.metadata, 7);
    let annotated: rdf_types::WithMetadata<Blank, u32> = Blank::new().with_default_metadata();
    assert_eq!(annotated.metadata, 0);
}

#[test]
fn blank_generator_registers_in_vocabulary() {
    let mut gen = Blank::new_with_prefix("x".to_string());
    let mut vocabulary = vocab();
    let id = gen.next(&mut vocabulary);
    match id {
        Id::Blank(b) => {
            let back = vocabulary.blank_id(&b).unwrap();
            assert_eq!(back.as_str(), "_:x0");
        }
        Id::Iri(_) => panic!("expected a blank node identifier"),
    }
}

#[test]
fn decimal_rendering_of_large_counters() {
    let mut gen = Blank::new_with_offset(1409);
    assert_eq!(gen.next_blank_id().as_str(), "_:1409");
    assert_eq!(gen.next_blank_id().as_str(), "_:1410");
}

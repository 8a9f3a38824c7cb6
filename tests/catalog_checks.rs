use pquote::catalog::CatalogError;
use pquote::data::CATALOG_SIZE;
use pquote::{quotes, Catalog, Family, Origin, Quote};

fn record(author: &'static str, id: u32, quote: &'static str) -> Quote {
    Quote { author, id, quote, permalink: Origin::GoodReads }
}

#[test]
fn builtin_ids_count_down_from_size() {
    let c = Catalog::builtin();
    assert_eq!(c.len(), 323);
    assert_eq!(CATALOG_SIZE, 323);
    for (i, q) in c.records().iter().enumerate() {
        assert_eq!(q.id as usize, c.len() - i);
    }
    assert_eq!(c.record_at(0).unwrap().id, 323);
    assert_eq!(c.record_at(0).unwrap().author, "Linus Torvalds");
    assert_eq!(c.record_at(322).unwrap().id, 1);
    assert_eq!(c.record_at(322).unwrap().author, "C.A.R. Hoare");
    assert!(c.record_at(323).is_none());
}

#[test]
fn builtin_ids_and_texts_unique() {
    let c = Catalog::builtin();
    let mut ids: Vec<u32> = c.records().iter().map(|q| q.id).collect();
    ids.sort();
    ids.dedup();
    assert_eq!(ids.len(), 323);
    assert_eq!(c.duplicate_text(), None);
}

#[test]
fn builtin_capitalization_violations_are_listed() {
    let c = Catalog::builtin();
    // Records whose text or author opens with a quotation mark or a digit.
    assert_eq!(c.miscapitalized(), vec![248, 245, 181, 124, 68]);
    for q in c.records().iter() {
        assert!(!q.quote.chars().next().unwrap().is_ascii_lowercase());
        assert!(!q.author.chars().next().unwrap().is_ascii_lowercase());
    }
}

#[test]
fn builtin_family_counts() {
    let c = Catalog::builtin();
    assert_eq!(c.by_family(Family::AZQuotes).len(), 59);
    assert_eq!(c.by_family(Family::GoodReads).len(), 60);
    assert_eq!(c.by_family(Family::JournalDev).len(), 16);
    assert_eq!(c.by_family(Family::VimStartify).len(), 147);
    assert_eq!(c.by_family(Family::StormConsultancy).len(), 41);
}

#[test]
fn new_accepts_countdown() {
    let c = Catalog::new(vec![record("Ann", 2, "First."), record("Bob", 1, "Second.")]).unwrap();
    assert_eq!(c.len(), 2);
    assert_eq!(c.record_at(1).unwrap().author, "Bob");
}

#[test]
fn new_rejects_empty() {
    assert_eq!(Catalog::new(Vec::new()).err(), Some(CatalogError::Empty));
}

#[test]
fn new_rejects_wrong_id() {
    let r = Catalog::new(vec![
        record("Ann", 3, "One."),
        record("Bob", 2, "Two."),
        record("Cid", 2, "Three."),
    ]);
    assert_eq!(r.err(), Some(CatalogError::WrongId { position: 2, id: 2 }));
    let r = Catalog::new(vec![record("Ann", 1, "One."), record("Bob", 2, "Two.")]);
    assert_eq!(r.err(), Some(CatalogError::WrongId { position: 0, id: 1 }));
}

#[test]
fn duplicate_text_found() {
    let c = Catalog::new(vec![
        record("Ann", 3, "Same."),
        record("Bob", 2, "Other."),
        record("Cid", 1, "Same."),
    ])
    .unwrap();
    assert_eq!(c.duplicate_text(), Some((0, 2)));
}

#[test]
fn miscapitalized_lists_lowercase_and_symbols() {
    let c = Catalog::new(vec![
        record("ann", 4, "Fine."),
        record("Bob", 3, "lower."),
        record("Cid", 2, "Fine."),
        record("\"Quoted\"", 1, "Fine."),
    ])
    .unwrap();
    assert_eq!(c.miscapitalized(), vec![4, 3, 1]);
}

#[test]
fn by_author_is_exact_and_ordered() {
    let c = Catalog::new(vec![
        record("Ann", 4, "A1."),
        record("Bob", 3, "B1."),
        record("Ann", 2, "A2."),
        record("ann", 1, "A3."),
    ])
    .unwrap();
    let v = c.by_author("Ann");
    assert_eq!(v.len(), 2);
    assert_eq!(v[0].id, 4);
    assert_eq!(v[1].id, 2);
    assert!(c.by_author("An").is_empty());
}

#[test]
fn new_rejects_blank_fields() {
    let r = Catalog::new(vec![record("Ann", 3, "One."), record("", 2, "Two."), record("Cid", 1, "")]);
    assert_eq!(r.err(), Some(CatalogError::BlankField { position: 1 }));
    let r = Catalog::new(vec![record("Ann", 2, "One."), record("Bob", 1, "")]);
    assert_eq!(r.err(), Some(CatalogError::BlankField { position: 1 }));
    let r = Catalog::new(vec![record("", 5, "")]);
    assert_eq!(r.err(), Some(CatalogError::WrongId { position: 0, id: 5 }));
}

use pquote::select::{by_id, by_origin, scope};
use pquote::{select, select_with, Catalog, Family, Query, SelectError, Selection};

fn query() -> Query {
    Query {
        help: false,
        version: false,
        verbose: false,
        all: false,
        id: None,
        author: None,
        origin: None,
    }
}

fn one(r: Result<Selection, SelectError>) -> pquote::Quote {
    match r {
        Ok(Selection::One(q)) => q,
        other => panic!("expected one record, got {:?}", other),
    }
}

#[test]
fn id_lookup_first_and_last() {
    let c = Catalog::builtin();
    let first = one(select_with(&c, &Query { id: Some(323), ..query() }, 0));
    assert_eq!(first.id, 323);
    assert_eq!(first.quote, c.record_at(0).unwrap().quote);
    let last = one(select_with(&c, &Query { id: Some(1), ..query() }, 0));
    assert_eq!(last.id, 1);
    assert_eq!(last.author, "C.A.R. Hoare");
    for k in 1..=323u32 {
        assert_eq!(by_id(&c, k).unwrap().id, k);
    }
}

#[test]
fn id_out_of_range_is_reported() {
    let c = Catalog::builtin();
    assert_eq!(select_with(&c, &Query { id: Some(324), ..query() }, 0).err(), Some(SelectError::IdOutOfRange(324)));
    assert_eq!(select_with(&c, &Query { id: Some(0), ..query() }, 0).err(), Some(SelectError::IdOutOfRange(0)));
    assert_eq!(by_id(&c, u32::MAX).err(), Some(SelectError::IdOutOfRange(u32::MAX)));
}

#[test]
fn id_ignores_all_and_other_filters() {
    let c = Catalog::builtin();
    let q = Query { id: Some(9), all: true, author: Some("Rob Pike".to_string()), ..query() };
    let r = one(select_with(&c, &q, 5));
    assert_eq!(r.id, 9);
    assert_eq!(r.author, "Ovidiu Platon");
}

#[test]
fn help_and_version_come_first() {
    let c = Catalog::builtin();
    let q = Query { help: true, version: true, id: Some(0), ..query() };
    assert!(matches!(select_with(&c, &q, 0), Ok(Selection::Help)));
    let q = Query { version: true, id: Some(0), ..query() };
    assert!(matches!(select_with(&c, &q, 0), Ok(Selection::Version)));
}

#[test]
fn single_author_always_selected() {
    let c = Catalog::builtin();
    let q = Query { author: Some("Ovidiu Platon".to_string()), ..query() };
    for pick in [0usize, 1, 7, 322, usize::MAX].iter() {
        let r = one(select_with(&c, &q, *pick));
        assert_eq!(r.id, 9);
    }
    for _ in 0..20 {
        assert_eq!(one(select(&c, &q)).id, 9);
    }
}

#[test]
fn several_authors_pick_among_matches() {
    let c = Catalog::builtin();
    let q = Query { author: Some("Linus Torvalds".to_string()), ..query() };
    let matches = c.by_author("Linus Torvalds");
    assert_eq!(matches.len(), 32);
    let mut seen: Vec<u32> = Vec::new();
    for pick in 0..matches.len() {
        let r = one(select_with(&c, &q, pick));
        assert_eq!(r.author, "Linus Torvalds");
        assert_eq!(r.id, matches[pick].id);
        seen.push(r.id);
    }
    seen.dedup();
    assert_eq!(seen.len(), 32);
    assert_eq!(one(select_with(&c, &q, 33)).id, matches[1].id);
}

#[test]
fn random_pick_stays_in_matches_and_varies() {
    let c = Catalog::builtin();
    let q = Query { author: Some("Linus Torvalds".to_string()), ..query() };
    let mut ids: Vec<u32> = Vec::new();
    for _ in 0..400 {
        let r = one(select(&c, &q));
        assert_eq!(r.author, "Linus Torvalds");
        ids.push(r.id);
    }
    ids.sort();
    ids.dedup();
    assert!(ids.len() > 1);
    let mut any: Vec<u32> = Vec::new();
    for _ in 0..200 {
        let r = one(select(&c, &query()));
        assert!(r.id >= 1 && r.id <= 323);
        any.push(r.id);
    }
    any.sort();
    any.dedup();
    assert!(any.len() > 1);
}

#[test]
fn unknown_author_or_origin_not_found() {
    let c = Catalog::builtin();
    let q = Query { author: Some("Nobody At All".to_string()), ..query() };
    assert!(matches!(select_with(&c, &q, 0), Ok(Selection::NotFound)));
    let q = Query { author: Some("linus torvalds".to_string()), all: true, ..query() };
    assert!(matches!(select_with(&c, &q, 0), Ok(Selection::NotFound)));
    let q = Query { origin: Some("nowhere".to_string()), ..query() };
    assert!(matches!(select_with(&c, &q, 0), Ok(Selection::NotFound)));
    assert!(matches!(select(&c, &q), Ok(Selection::NotFound)));
    let q = Query { origin: Some("GOODREADS".to_string()), all: true, ..query() };
    assert!(matches!(select_with(&c, &q, 0), Ok(Selection::NotFound)));
}

#[test]
fn all_with_origin_lists_family_in_order() {
    let c = Catalog::builtin();
    let q = Query { origin: Some("goodreads".to_string()), all: true, ..query() };
    let expected: Vec<u32> = c.records().iter().filter(|r| r.permalink.is_goodreads()).map(|r| r.id).collect();
    match select_with(&c, &q, 3) {
        Ok(Selection::Many(v)) => {
            let got: Vec<u32> = v.iter().map(|r| r.id).collect();
            assert_eq!(got, expected);
            assert_eq!(got.len(), 60);
            assert_eq!(got[0], 288);
            assert_eq!(got[59], 189);
        }
        other => panic!("expected a list, got {:?}", other),
    }
}

#[test]
fn all_without_filter_lists_catalog() {
    let c = Catalog::builtin();
    match select_with(&c, &Query { all: true, ..query() }, 0) {
        Ok(Selection::Many(v)) => {
            assert_eq!(v.len(), 323);
            assert_eq!(v[0].id, 323);
            assert_eq!(v[322].id, 1);
        }
        other => panic!("expected a list, got {:?}", other),
    }
}

#[test]
fn all_with_author_lists_matches() {
    let c = Catalog::builtin();
    let q = Query { author: Some("Ovidiu Platon".to_string()), all: true, ..query() };
    match select_with(&c, &q, 0) {
        Ok(Selection::Many(v)) => {
            assert_eq!(v.len(), 1);
            assert_eq!(v[0].id, 9);
        }
        other => panic!("expected a list, got {:?}", other),
    }
}

#[test]
fn spellings_give_same_scope() {
    let c = Catalog::builtin();
    let ids = |s: &str| -> Vec<u32> { by_origin(&c, s).iter().map(|r| r.id).collect() };
    assert_eq!(ids("journaldev"), ids("Journal Dev"));
    assert_eq!(ids("vim startify"), ids("Vimstartify"));
    assert_eq!(ids("AZQuotes"), ids("azquote"));
    let fam: Vec<u32> = c.by_family(Family::JournalDev).iter().map(|r| r.id).collect();
    assert_eq!(ids("Journaldev"), fam);
    assert_eq!(fam.len(), 16);
}

#[test]
fn author_wins_over_origin() {
    let c = Catalog::builtin();
    let q = Query { author: Some("Ovidiu Platon".to_string()), origin: Some("goodreads".to_string()), ..query() };
    assert_eq!(scope(&c, &q).len(), 1);
    assert_eq!(one(select_with(&c, &q, 4)).id, 9);
}

#[test]
fn pick_wraps_over_origin_candidates() {
    let c = Catalog::builtin();
    let q = Query { origin: Some("Storm Consultancy".to_string()), ..query() };
    let s = scope(&c, &q);
    assert_eq!(s.len(), 41);
    assert_eq!(one(select_with(&c, &q, 0)).id, s[0].id);
    assert_eq!(one(select_with(&c, &q, 41)).id, s[0].id);
    assert_eq!(one(select_with(&c, &q, 40)).id, 1);
}

fn listed_ids(r: Result<Selection, SelectError>) -> Vec<u32> {
    match r {
        Ok(Selection::Many(v)) => v.iter().map(|q| q.id).collect(),
        other => panic!("expected a list, got {:?}", other),
    }
}

#[test]
fn id_ends_render_expected_links() {
    let c = Catalog::builtin();
    let first = one(select_with(&c, &Query { id: Some(323), verbose: true, ..query() }, 0));
    assert_eq!(first.author, "Linus Torvalds");
    assert_eq!(first.permalink.url(), "https://www.azquotes.com/quote/755276");
    let last = one(select_with(&c, &Query { id: Some(1), verbose: true, ..query() }, 0));
    assert_eq!(last.author, "C.A.R. Hoare");
    assert_eq!(last.permalink.url(), "http://quotes.stormconsultancy.co.uk/quotes/1");
}

#[test]
fn seymour_cray_always_same_record() {
    let c = Catalog::builtin();
    let q = Query { author: Some("Seymour Cray".to_string()), ..query() };
    for pick in [0usize, 1, 2, 99, usize::MAX].iter() {
        let r = one(select_with(&c, &q, *pick));
        assert_eq!(r.id, 270);
        assert!(r.permalink.is_journaldev());
    }
}

#[test]
fn hoare_draws_select_in_order() {
    let c = Catalog::builtin();
    let q = Query { author: Some("C.A.R. Hoare".to_string()), ..query() };
    assert_eq!(one(select_with(&c, &q, 0)).id, 204);
    assert_eq!(one(select_with(&c, &q, 1)).id, 22);
    assert_eq!(one(select_with(&c, &q, 2)).id, 1);
    assert_eq!(one(select_with(&c, &q, 3)).id, 204);
}

#[test]
fn journaldev_spellings_list_same_records() {
    let c = Catalog::builtin();
    let expected: Vec<u32> = (255..=270).rev().collect();
    for s in ["journaldev", "Journaldev", "journal dev", "Journal Dev"].iter() {
        let q = Query { origin: Some(s.to_string()), all: true, ..query() };
        assert_eq!(listed_ids(select_with(&c, &q, 0)), expected);
    }
}

#[test]
fn vimstartify_spellings_list_same_records() {
    let c = Catalog::builtin();
    let a = listed_ids(select_with(&c, &Query { origin: Some("vimstartify".to_string()), all: true, ..query() }, 0));
    let b = listed_ids(select_with(&c, &Query { origin: Some("Vim Startify".to_string()), all: true, ..query() }, 7));
    assert_eq!(a.len(), 147);
    assert_eq!(a, b);
}

#[test]
fn stormconsultancy_all_lists_last_records() {
    let c = Catalog::builtin();
    let q = Query { origin: Some("stormconsultancy".to_string()), all: true, ..query() };
    let expected: Vec<u32> = (1..=41).rev().collect();
    assert_eq!(listed_ids(select_with(&c, &q, 0)), expected);
}

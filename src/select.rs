use crate::catalog::{in_family, written_by, Catalog};
use crate::origin::{alias_family, parse_family};
use crate::quote::Quote;
use vstd::prelude::*;

verus! {

/// What a user asked for. Of the filters, `id` wins over `author`, which
/// wins over `origin`; with none of them the whole catalog is in scope.
pub struct Query {
    pub help: bool,
    pub version: bool,
    /// Only changes how a selection is shown.
    pub verbose: bool,
    /// Select every record in scope rather than one.
    pub all: bool,
    pub id: Option<u32>,
    pub author: Option<String>,
    pub origin: Option<String>,
}

/// What a query selects.
#[derive(Debug)]
pub enum Selection {
    Help,
    Version,
    /// A single record.
    One(Quote),
    /// Every record in scope, in catalog order.
    Many(Vec<Quote>),
    /// The author or origin filter matched no record.
    NotFound,
}

/// A query that cannot be answered.
#[derive(Debug, Copy, Clone, PartialEq, Eq, Structural)]
pub enum SelectError {
    /// No record has this id: ids run from 1 to the catalog size.
    IdOutOfRange(u32),
}

/// The records that an origin name given by a user selects: those of the
/// family it stands for, or none when it stands for no family.
pub open spec fn origin_scope(c: Seq<Quote>, origin: Seq<char>) -> Seq<Quote> {
    match alias_family(origin) {
        Some(f) => c.filter(in_family(f)),
        None => Seq::empty(),
    }
}

/// The records that the author or origin filter of `q` leaves in scope.
pub open spec fn query_scope(c: Seq<Quote>, q: Query) -> Seq<Quote> {
    match q.author {
        Some(a) => c.filter(written_by(a@)),
        None => match q.origin {
            Some(o) => origin_scope(c, o@),
            None => c,
        },
    }
}

/// `r` is what `q` selects from `c` when `pick` chooses among several
/// candidates: the candidate at position `pick` modulo their number.
pub open spec fn selects(c: Seq<Quote>, q: Query, pick: nat, r: Result<Selection, SelectError>) -> bool {
    if q.help {
        r matches Ok(Selection::Help)
    } else if q.version {
        r matches Ok(Selection::Version)
    } else if q.id is Some {
        let k = q.id->0;
        if 1 <= k <= c.len() {
            r == Ok::<Selection, SelectError>(Selection::One(c[c.len() - k]))
        } else {
            r == Err::<Selection, SelectError>(SelectError::IdOutOfRange(k))
        }
    } else {
        let s = query_scope(c, q);
        if s.len() == 0 {
            r matches Ok(Selection::NotFound)
        } else if q.all {
            r matches Ok(Selection::Many(v)) && v@ == s
        } else {
            r == Ok::<Selection, SelectError>(Selection::One(s[(pick % s.len()) as int]))
        }
    }
}

/// The record with id `id`: the one at position `len - id`.
pub fn by_id(catalog: &Catalog, id: u32) -> (r: Result<Quote, SelectError>)
    ensures
        r == (if 1 <= id <= catalog@.len() {
            Ok::<Quote, SelectError>(catalog@[catalog@.len() - id])
        } else {
            Err::<Quote, SelectError>(SelectError::IdOutOfRange(id))
        }),
        catalog.wf() ==> (r matches Ok(q) ==> q.id == id),
{
    let n = catalog.len();
    if id == 0 || id as usize > n {
        Err(SelectError::IdOutOfRange(id))
    } else {
        match catalog.record_at(n - id as usize) {
            Some(q) => Ok(q),
            None => Err(SelectError::IdOutOfRange(id)),
        }
    }
}

/// The records that an origin name given by a user selects, in catalog order.
pub fn by_origin(catalog: &Catalog, origin: &str) -> (r: Vec<Quote>)
    ensures
        r@ == origin_scope(catalog@, origin@),
{
    match parse_family(origin) {
        Some(f) => catalog.by_family(f),
        None => Vec::new(),
    }
}

/// The records that the author or origin filter of `query` leaves in scope,
/// in catalog order.
pub fn scope(catalog: &Catalog, query: &Query) -> (r: Vec<Quote>)
    ensures
        r@ == query_scope(catalog@, *query),
{
    match &query.author {
        Some(a) => catalog.by_author(a.as_str()),
        None => match &query.origin {
            Some(o) => by_origin(catalog, o.as_str()),
            None => catalog.records().clone(),
        },
    }
}

/// Answers `query`; where one of several candidates is to be chosen, the one
/// at position `pick` modulo their number is.
pub fn select_with(catalog: &Catalog, query: &Query, pick: usize) -> (r: Result<Selection, SelectError>)
    ensures
        selects(catalog@, *query, pick as nat, r),
{
    if query.help {
        return Ok(Selection::Help);
    }
    if query.version {
        return Ok(Selection::Version);
    }
    if let Some(k) = query.id {
        return match by_id(catalog, k) {
            Ok(q) => Ok(Selection::One(q)),
            Err(e) => Err(e),
        };
    }
    let s = scope(catalog, query);
    if s.len() == 0 {
        Ok(Selection::NotFound)
    } else if query.all {
        Ok(Selection::Many(s))
    } else {
        Ok(Selection::One(s[pick % s.len()]))
    }
}

/// Answers `query`, choosing uniformly at random where several candidates
/// remain: the pick is below the number of records in scope.
pub fn select(catalog: &Catalog, query: &Query) -> (r: Result<Selection, SelectError>)
    ensures
        exists|pick: nat|
            {
                &&& query_scope(catalog@, *query).len() > 0 ==> pick < query_scope(
                    catalog@,
                    *query,
                ).len()
                &&& selects(catalog@, *query, pick, r)
            },
{
    let n = scope(catalog, query).len();
    let pick: usize = if n > 0 {
        random_below(n)
    } else {
        0
    };
    let r = select_with(catalog, query, pick);
    assert(selects(catalog@, *query, pick as nat, r));
    r
}

/// Relies on rand's `Rng::gen_range` over the thread-local generator: a
/// value in `[low, high)`, which panics when `low >= high`.
#[verifier::external_body]
fn random_below(n: usize) -> (r: usize)
    requires
        n > 0,
    ensures
        r < n,
{
    rand::Rng::gen_range(&mut rand::thread_rng(), 0, n)
}

} // verus!

use crate::data::{
    builtin_records, law_builtin_texts_distinct, law_builtin_well_written, quotes, CATALOG_SIZE,
};
use crate::origin::{same_text, Family};
use crate::quote::{descending_from, Quote};
use vstd::prelude::*;

verus! {

/// A fixed, read-only collection of quotes. The record at position `i` of a
/// collection of `n` records has id `n - i`.
pub struct Catalog {
    records: Vec<Quote>,
}

/// Why a sequence of records cannot form a catalog.
#[derive(Debug, Copy, Clone, PartialEq, Eq, Structural)]
pub enum CatalogError {
    /// There are no records.
    Empty,
    /// The first record whose id does not count down from the number of records.
    WrongId { position: usize, id: u32 },
    /// The first record whose author or text is empty.
    BlankField { position: usize },
}

/// Every record of `s` has a non-empty author and a non-empty text.
pub open spec fn fields_filled(s: Seq<Quote>) -> bool {
    forall|i: int| 0 <= i < s.len() ==> #[trigger] s[i].author@.len() > 0 && s[i].quote@.len() > 0
}

/// Records that can form a catalog: at least one, ids counting down from
/// the number of records to 1, and no empty author or text.
pub open spec fn well_formed_records(s: Seq<Quote>) -> bool {
    &&& 0 < s.len() <= u32::MAX
    &&& descending_from(s, s.len() as int)
    &&& fields_filled(s)
}

/// Keeps the records whose author is exactly `author`.
pub open spec fn written_by(author: Seq<char>) -> spec_fn(Quote) -> bool {
    |q: Quote| q.author@ == author
}

/// Keeps the records whose origin belongs to `family`.
pub open spec fn in_family(family: Family) -> spec_fn(Quote) -> bool {
    |q: Quote| q.permalink.family_of() == family
}

/// A text begins with an uppercase ASCII letter.
pub open spec fn capitalized(s: Seq<char>) -> bool {
    s.len() > 0 && 'A' <= s[0] && s[0] <= 'Z'
}

/// The ids, in order, of the records whose text or author is not capitalized.
pub open spec fn miscapitalized_ids(s: Seq<Quote>) -> Seq<u32>
    decreases s.len(),
{
    if s.len() == 0 {
        Seq::empty()
    } else {
        let rest = miscapitalized_ids(s.drop_last());
        if capitalized(s.last().quote@) && capitalized(s.last().author@) {
            rest
        } else {
            rest.push(s.last().id)
        }
    }
}

/// No two records hold the same text.
pub open spec fn texts_distinct(s: Seq<Quote>) -> bool {
    forall|i: int, j: int| 0 <= i < j < s.len() ==> s[i].quote@ != s[j].quote@
}

impl View for Catalog {
    type V = Seq<Quote>;

    closed spec fn view(&self) -> Seq<Quote> {
        self.records@
    }
}

impl Catalog {
    /// The records are non-empty, their ids count down to 1, and no author or
    /// text is empty.
    pub open spec fn wf(&self) -> bool {
        well_formed_records(self@)
    }

    /// The built-in collection of programming quotes.
    pub fn builtin() -> (c: Catalog)
        ensures
            c.wf(),
            c@ == builtin_records(),
            c@.len() == CATALOG_SIZE,
            texts_distinct(c@),
    {
        let records = quotes();
        proof {
            assert forall|i: int| 0 <= i < records@.len() implies #[trigger] records@[i].author@.len()
                > 0 && records@[i].quote@.len() > 0 by {
                law_builtin_well_written(i);
            }
            assert forall|i: int, j: int| 0 <= i < j < records@.len() implies records@[i].quote@
                != records@[j].quote@ by {
                law_builtin_texts_distinct(i, j);
            }
        }
        Catalog { records }
    }

    /// Makes a catalog of `records`, which must be non-empty, have ids
    /// counting down from their number to 1, and no empty author or text.
    /// Records are checked in order; at each, the id before the fields.
    pub fn new(records: Vec<Quote>) -> (r: Result<Catalog, CatalogError>)
        ensures
            r is Ok <==> well_formed_records(records@),
            r matches Ok(c) ==> c@ == records@ && c.wf(),
            r == Err::<Catalog, CatalogError>(CatalogError::Empty) <==> records@.len() == 0,
            r matches Err(CatalogError::WrongId { position, id }) ==> {
                &&& position < records@.len()
                &&& id == records@[position as int].id
                &&& id != records@.len() - position
                &&& descending_from(records@.subrange(0, position as int), records@.len() as int)
                &&& fields_filled(records@.subrange(0, position as int))
            },
            r matches Err(CatalogError::BlankField { position }) ==> {
                &&& position < records@.len()
                &&& records@[position as int].id == records@.len() - position
                &&& (records@[position as int].author@.len() == 0 || records@[position as int].quote@.len() == 0)
                &&& descending_from(records@.subrange(0, position as int), records@.len() as int)
                &&& fields_filled(records@.subrange(0, position as int))
            },
    {
        let n = records.len();
        if n == 0 {
            return Err(CatalogError::Empty);
        }
        let mut i: usize = 0;
        while i < n
            invariant
                n == records@.len(),
                i <= n,
                descending_from(records@.subrange(0, i as int), n as int),
                fields_filled(records@.subrange(0, i as int)),
            decreases n - i,
        {
            let id = records[i].id;
            if id as usize != n - i {
                return Err(CatalogError::WrongId { position: i, id });
            }
            if records[i].author.is_empty() || records[i].quote.is_empty() {
                return Err(CatalogError::BlankField { position: i });
            }
            proof {
                assert forall|j: int| 0 <= j < i + 1 implies #[trigger] records@.subrange(
                    0,
                    i + 1,
                )[j].id == n - j && records@.subrange(0, i + 1)[j].author@.len() > 0
                    && records@.subrange(0, i + 1)[j].quote@.len() > 0 by {
                    if j < i {
                        assert(records@.subrange(0, i + 1)[j] == records@.subrange(0, i as int)[j]);
                    }
                }
            }
            i = i + 1;
        }
        proof {
            assert(records@.subrange(0, n as int) =~= records@);
            assert(records@[0].id == n);
        }
        Ok(Catalog { records })
    }

    /// The number of records.
    pub fn len(&self) -> (n: usize)
        ensures
            n == self@.len(),
    {
        self.records.len()
    }

    /// The records, in catalog order.
    pub fn records(&self) -> (r: &Vec<Quote>)
        ensures
            r@ == self@,
    {
        &self.records
    }

    /// The record at storage position `position`, if there is one.
    pub fn record_at(&self, position: usize) -> (r: Option<Quote>)
        ensures
            r == (if position < self@.len() {
                Some(self@[position as int])
            } else {
                None::<Quote>
            }),
    {
        if position < self.records.len() {
            Some(self.records[position])
        } else {
            None
        }
    }

    /// The records whose author is exactly `author`, in catalog order.
    pub fn by_author(&self, author: &str) -> (r: Vec<Quote>)
        ensures
            r@ == self@.filter(written_by(author@)),
    {
        let mut out: Vec<Quote> = Vec::new();
        let mut i: usize = 0;
        while i < self.records.len()
            invariant
                i <= self@.len(),
                out@ == self@.subrange(0, i as int).filter(written_by(author@)),
            decreases self@.len() - i,
        {
            let q = self.records[i];
            if same_text(q.author, author) {
                out.push(q);
            }
            proof {
                reveal(Seq::filter);
                assert(self@.subrange(0, i + 1).drop_last() =~= self@.subrange(0, i as int));
            }
            i = i + 1;
        }
        proof {
            assert(self@.subrange(0, self@.len() as int) =~= self@);
        }
        out
    }

    /// The records whose origin belongs to `family`, in catalog order.
    pub fn by_family(&self, family: Family) -> (r: Vec<Quote>)
        ensures
            r@ == self@.filter(in_family(family)),
    {
        let mut out: Vec<Quote> = Vec::new();
        let mut i: usize = 0;
        while i < self.records.len()
            invariant
                i <= self@.len(),
                out@ == self@.subrange(0, i as int).filter(in_family(family)),
            decreases self@.len() - i,
        {
            let q = self.records[i];
            if q.permalink.family() == family {
                out.push(q);
            }
            proof {
                reveal(Seq::filter);
                assert(self@.subrange(0, i + 1).drop_last() =~= self@.subrange(0, i as int));
            }
            i = i + 1;
        }
        proof {
            assert(self@.subrange(0, self@.len() as int) =~= self@);
        }
        out
    }

    /// The ids, in catalog order, of the records whose text or author does
    /// not begin with an uppercase ASCII letter.
    pub fn miscapitalized(&self) -> (r: Vec<u32>)
        ensures
            r@ == miscapitalized_ids(self@),
    {
        let mut out: Vec<u32> = Vec::new();
        let mut i: usize = 0;
        while i < self.records.len()
            invariant
                i <= self@.len(),
                out@ == miscapitalized_ids(self@.subrange(0, i as int)),
            decreases self@.len() - i,
        {
            let q = self.records[i];
            if !(starts_upper(q.quote) && starts_upper(q.author)) {
                out.push(q.id);
            }
            proof {
                assert(self@.subrange(0, i + 1).drop_last() =~= self@.subrange(0, i as int));
            }
            i = i + 1;
        }
        proof {
            assert(self@.subrange(0, self@.len() as int) =~= self@);
        }
        out
    }

    /// Two positions, the first before the second, whose records hold the
    /// same text; none when all texts differ.
    pub fn duplicate_text(&self) -> (r: Option<(usize, usize)>)
        ensures
            r is None <==> texts_distinct(self@),
            r matches Some((i, j)) ==> i < j < self@.len() && self@[i as int].quote@ == self@[j as int].quote@,
    {
        let n = self.records.len();
        let mut j: usize = 0;
        while j < n
            invariant
                n == self@.len(),
                j <= n,
                forall|a: int, b: int| 0 <= a < b < j ==> self@[a].quote@ != self@[b].quote@,
            decreases n - j,
        {
            let mut i: usize = 0;
            while i < j
                invariant
                    n == self@.len(),
                    i <= j < n,
                    forall|a: int, b: int| 0 <= a < b < j ==> self@[a].quote@ != self@[b].quote@,
                    forall|a: int| 0 <= a < i ==> self@[a].quote@ != self@[j as int].quote@,
                decreases j - i,
            {
                if same_text(self.records[i].quote, self.records[j].quote) {
                    return Some((i, j));
                }
                i = i + 1;
            }
            j = j + 1;
        }
        None
    }
}

/// Whether `s` begins with an uppercase ASCII letter.
fn starts_upper(s: &str) -> (r: bool)
    ensures
        r == capitalized(s@),
{
    if s.is_empty() {
        false
    } else {
        let c = s.get_char(0);
        'A' <= c && c <= 'Z'
    }
}

} // verus!

use crate::catalog::{in_family, written_by, Catalog};
use crate::origin::{alias_family, Family, Origin};
use crate::data::builtin_records;
use crate::quote::Quote;
use crate::select::{origin_scope, query_scope, selects, Query, SelectError, Selection};
use vstd::prelude::*;

verus! {

/// A query that reaches the filters: no help, no version and no id.
pub open spec fn filtering(q: Query) -> bool {
    !q.help && !q.version && q.id is None
}

/// The accepted spellings of each family's name.
pub open spec fn spellings(f: Family) -> Seq<Seq<char>> {
    match f {
        Family::AZQuotes => seq!["azquotes"@, "azquote"@, "AZQuote"@, "AZQuotes"@],
        Family::GoodReads => seq!["goodreads"@, "good reads"@, "Good Reads"@, "GoodReads"@],
        Family::JournalDev => seq!["journaldev"@, "journal dev"@, "Journaldev"@, "Journal Dev"@],
        Family::VimStartify => seq!["vimstartify"@, "vim startify"@, "Vim Startify"@, "Vimstartify"@],
        Family::StormConsultancy => seq![
            "stormconsultancy"@,
            "storm consultancy"@,
            "Storm Consultancy"@,
            "Stormconsultancy"@,
        ],
    }
}

/// In a well-formed catalog of `n` records, the record at position `i` has
/// id `n - i`.
pub proof fn law_id_matches_position(c: &Catalog, i: int)
    requires
        c.wf(),
        0 <= i < c@.len(),
    ensures
        c@[i].id == c@.len() - i,
{
}

/// In a well-formed catalog no two records share an id.
pub proof fn law_ids_distinct(c: &Catalog, i: int, j: int)
    requires
        c.wf(),
        0 <= i < c@.len(),
        0 <= j < c@.len(),
        i != j,
    ensures
        c@[i].id != c@[j].id,
{
}

/// Every origin belongs to exactly one of the five families, and to the one
/// that `family_of` names.
pub proof fn law_one_family(o: Origin)
    ensures
        (o.family_of() == Family::AZQuotes) == (o is AZQuotesQuote || o is AZQuotesAuthor),
        (o.family_of() == Family::GoodReads) == (o is GoodReads),
        (o.family_of() == Family::JournalDev) == (o is JournalDev),
        (o.family_of() == Family::VimStartify) == (o is VimStartify),
        (o.family_of() == Family::StormConsultancy) == (o is StormConsultancy),
        (o is AZQuotesQuote || o is AZQuotesAuthor) as int + (o is GoodReads) as int + (
        o is JournalDev) as int + (o is VimStartify) as int + (o is StormConsultancy) as int == 1,
{
}

/// Asking for id `k` of a well-formed catalog of `n` records selects the one
/// record whose id is `k` when `1 <= k <= n`, and reports the id otherwise.
pub proof fn law_id_lookup(c: &Catalog, q: Query, pick: nat, r: Result<Selection, SelectError>)
    requires
        c.wf(),
        !q.help,
        !q.version,
        q.id is Some,
        selects(c@, q, pick, r),
    ensures
        1 <= q.id->0 <= c@.len() ==> (r matches Ok(Selection::One(x)) && x.id == q.id->0 && (
        forall|j: int| 0 <= j < c@.len() && #[trigger] c@[j].id == q.id->0 ==> c@[j] == x)),
        !(1 <= q.id->0 <= c@.len()) ==> r == Err::<Selection, SelectError>(
            SelectError::IdOutOfRange(q.id->0),
        ),
{
}

/// An author filter that matches exactly one record selects that record,
/// whatever the pick.
pub proof fn law_single_author(
    c: Seq<Quote>,
    q: Query,
    pick: nat,
    r: Result<Selection, SelectError>,
)
    requires
        filtering(q),
        !q.all,
        q.author is Some,
        c.filter(written_by(q.author->0@)).len() == 1,
        selects(c, q, pick, r),
    ensures
        r == Ok::<Selection, SelectError>(Selection::One(c.filter(written_by(q.author->0@))[0])),
        c.filter(written_by(q.author->0@))[0].author@ == q.author->0@,
        c.contains(c.filter(written_by(q.author->0@))[0]),
{
    broadcast use Seq::lemma_filter_pred;

    let s = c.filter(written_by(q.author->0@));
    assert(pick % 1 == 0);
    lemma_filter_member(c, written_by(q.author->0@), 0);
}

/// Whatever the pick, an author filter selects one of the records of that
/// author in the catalog.
pub proof fn law_author_pick_in_matches(
    c: Seq<Quote>,
    q: Query,
    pick: nat,
    r: Result<Selection, SelectError>,
)
    requires
        filtering(q),
        !q.all,
        q.author is Some,
        selects(c, q, pick, r),
    ensures
        r matches Ok(Selection::One(x)) ==> x.author@ == q.author->0@ && c.contains(x),
        r is Ok,
{
    broadcast use Seq::lemma_filter_pred;

    let s = c.filter(written_by(q.author->0@));
    if s.len() > 0 {
        let k = (pick % s.len()) as int;
        lemma_filter_member(c, written_by(q.author->0@), k);
    }
}

/// Every record that a filter leaves in scope is selected by some pick: the
/// pick equal to its position among them.
pub proof fn law_every_candidate_reachable(
    c: Seq<Quote>,
    q: Query,
    j: nat,
    r: Result<Selection, SelectError>,
)
    requires
        filtering(q),
        !q.all,
        j < query_scope(c, q).len(),
        selects(c, q, j, r),
    ensures
        r == Ok::<Selection, SelectError>(Selection::One(query_scope(c, q)[j as int])),
{
    assert(j % query_scope(c, q).len() == j) by (nonlinear_arith)
        requires
            j < query_scope(c, q).len(),
    ;
}

/// An author or origin filter that matches no record gives the "not found"
/// outcome, not an error.
pub proof fn law_no_match_not_found(
    c: Seq<Quote>,
    q: Query,
    pick: nat,
    r: Result<Selection, SelectError>,
)
    requires
        filtering(q),
        q.author is Some || q.origin is Some,
        query_scope(c, q).len() == 0,
        selects(c, q, pick, r),
    ensures
        r matches Ok(Selection::NotFound),
{
}

/// With "all" and an origin filter for family `f`, the selection is exactly
/// the records of `f`, in catalog order: each of them, and nothing else.
pub proof fn law_all_of_family(
    c: Seq<Quote>,
    q: Query,
    f: Family,
    pick: nat,
    r: Result<Selection, SelectError>,
)
    requires
        filtering(q),
        q.all,
        q.author is None,
        q.origin is Some,
        alias_family(q.origin->0@) == Some(f),
        exists|i: int| 0 <= i < c.len() && c[i].permalink.family_of() == f,
        selects(c, q, pick, r),
    ensures
        r matches Ok(Selection::Many(v)) && v@ == c.filter(in_family(f)),
        r matches Ok(Selection::Many(v)) ==> forall|i: int|
            0 <= i < v@.len() ==> (#[trigger] v@[i]).permalink.family_of() == f,
        r matches Ok(Selection::Many(v)) ==> forall|i: int|
            0 <= i < c.len() && (#[trigger] c[i]).permalink.family_of() == f ==> v@.contains(c[i]),
{
    broadcast use Seq::lemma_filter_pred, Seq::lemma_filter_contains;

    let i = choose|i: int| 0 <= i < c.len() && c[i].permalink.family_of() == f;
    assert(c.filter(in_family(f)).contains(c[i]));
}

/// The built-in collection holds at least one record of each family.
pub proof fn law_builtin_families_present(f: Family)
    ensures
        exists|i: int|
            0 <= i < builtin_records().len() && (#[trigger] builtin_records()[i]).permalink.family_of()
                == f,
{
    let b = builtin_records();
    let i: int = match f {
        Family::AZQuotes => 0,
        Family::GoodReads => 35,
        Family::JournalDev => 53,
        Family::VimStartify => 135,
        Family::StormConsultancy => 282,
    };
    assert(b[i].permalink.family_of() == f);
}

/// The first built-in record is Linus Torvalds's, with id 323 and an AZ
/// Quotes quote page; the last is C.A.R. Hoare's, with id 1 and a Storm
/// Consultancy page.
pub proof fn law_builtin_ends()
    ensures
        builtin_records()[0].id == 323,
        builtin_records()[0].author@ == "Linus Torvalds"@,
        builtin_records()[0].permalink == Origin::AZQuotesQuote(755_276),
        builtin_records()[322].id == 1,
        builtin_records()[322].author@ == "C.A.R. Hoare"@,
        builtin_records()[322].permalink == Origin::StormConsultancy(1),
{
}

/// With "all" and an origin filter for family `f`, the built-in collection
/// gives exactly its records of `f`, in catalog order.
pub proof fn law_builtin_all_of_family(
    q: Query,
    f: Family,
    pick: nat,
    r: Result<Selection, SelectError>,
)
    requires
        filtering(q),
        q.all,
        q.author is None,
        q.origin is Some,
        alias_family(q.origin->0@) == Some(f),
        selects(builtin_records(), q, pick, r),
    ensures
        r matches Ok(Selection::Many(v)) && v@ == builtin_records().filter(in_family(f)),
        r matches Ok(Selection::Many(v)) ==> v@.len() > 0,
{
    law_builtin_families_present(f);
    law_all_of_family(builtin_records(), q, f, pick, r);
}

/// Each accepted spelling of a family's name stands for that family.
pub proof fn law_spellings_resolve(f: Family, i: int)
    requires
        0 <= i < spellings(f).len(),
    ensures
        alias_family(spellings(f)[i]) == Some(f),
{
    reveal_strlit("azquotes");
    reveal_strlit("azquote");
    reveal_strlit("AZQuote");
    reveal_strlit("AZQuotes");
    reveal_strlit("goodreads");
    reveal_strlit("good reads");
    reveal_strlit("Good Reads");
    reveal_strlit("GoodReads");
    reveal_strlit("journaldev");
    reveal_strlit("journal dev");
    reveal_strlit("Journaldev");
    reveal_strlit("Journal Dev");
    reveal_strlit("vimstartify");
    reveal_strlit("vim startify");
    reveal_strlit("Vim Startify");
    reveal_strlit("Vimstartify");
    reveal_strlit("stormconsultancy");
    reveal_strlit("storm consultancy");
    reveal_strlit("Storm Consultancy");
    reveal_strlit("Stormconsultancy");
    assert("azquotes"@[0] == 'a');
    assert("azquote"@[0] == 'a');
    assert("AZQuote"@[0] == 'A');
    assert("AZQuotes"@[0] == 'A');
    assert("goodreads"@[0] == 'g');
    assert("good reads"@[0] == 'g');
    assert("Good Reads"@[0] == 'G');
    assert("GoodReads"@[0] == 'G');
    assert("journaldev"@[0] == 'j');
    assert("journal dev"@[0] == 'j');
    assert("Journaldev"@[0] == 'J');
    assert("Journal Dev"@[0] == 'J');
    assert("vimstartify"@[0] == 'v');
    assert("vim startify"@[0] == 'v');
    assert("Vim Startify"@[0] == 'V');
    assert("Vimstartify"@[0] == 'V');
    assert("stormconsultancy"@[0] == 's');
    assert("storm consultancy"@[0] == 's');
    assert("Storm Consultancy"@[0] == 'S');
    assert("Stormconsultancy"@[0] == 'S');
}

/// Two spellings of the same family's name select the same records: those
/// of that family.
pub proof fn law_spellings_same_scope(c: Seq<Quote>, f: Family, i: int, j: int)
    requires
        0 <= i < spellings(f).len(),
        0 <= j < spellings(f).len(),
    ensures
        origin_scope(c, spellings(f)[i]) == origin_scope(c, spellings(f)[j]),
        origin_scope(c, spellings(f)[i]) == c.filter(in_family(f)),
{
    law_spellings_resolve(f, i);
    law_spellings_resolve(f, j);
}

/// A record that a filter keeps is a record of the sequence it filters.
proof fn lemma_filter_member(s: Seq<Quote>, p: spec_fn(Quote) -> bool, k: int)
    requires
        0 <= k < s.filter(p).len(),
    ensures
        s.contains(s.filter(p)[k]),
    decreases s.len(),
{
    reveal(Seq::filter);
    if s.len() > 0 {
        let rest = s.drop_last().filter(p);
        if k < rest.len() {
            lemma_filter_member(s.drop_last(), p, k);
            let w = choose|w: int| 0 <= w < s.drop_last().len() && s.drop_last()[w] == rest[k];
            assert(s[w] == s.filter(p)[k]);
        } else {
            assert(s[s.len() - 1] == s.filter(p)[k]);
        }
    }
}

} // verus!

use crate::origin::Origin;
use vstd::prelude::*;

verus! {

/// A quote: who said it, its id, its text and where it was found.
#[derive(Debug, Copy, Clone)]
pub struct Quote {
    pub author: &'static str,
    pub id: u32,
    pub quote: &'static str,
    pub permalink: Origin,
}

/// The ids of `s` count down by one from `top` at its first record.
pub open spec fn descending_from(s: Seq<Quote>, top: int) -> bool {
    forall|i: int| 0 <= i < s.len() ==> #[trigger] s[i].id == top - i
}

} // verus!

use vstd::prelude::*;

use crate::errors::TrackError;

verus! {

/// One satellite of the catalog: its identifier, display name, and the two
/// lines of its most recent orbital element set.
#[derive(Clone, Debug)]
pub struct Satellite {
    pub id: i32,
    pub name: String,
    pub line_one: String,
    pub line_two: String,
}

/// One page of a catalog lookup: how many satellites matched in all, and the
/// members of this page.
#[derive(Debug)]
pub struct SearchResponse {
    total_items: i32,
    member: Vec<Satellite>,
}

impl SearchResponse {
    /// The total number of matches the catalog reported.
    pub closed spec fn spec_total_items(&self) -> i32 {
        self.total_items
    }

    /// The satellites of this page, in catalog order.
    pub closed spec fn members(&self) -> Seq<Satellite> {
        self.member@
    }

    /// Builds a response page from plain values.
    pub fn new(total_items: i32, member: Vec<Satellite>) -> (r: SearchResponse)
        ensures
            r.spec_total_items() == total_items,
            r.members() == member@,
    {
        SearchResponse { total_items, member }
    }

    /// How many pages the catalog spans at twenty items per page: the total
    /// rounded up to the next multiple of twenty.
    pub fn page_count(&self) -> (r: i32)
        requires
            0 <= self.spec_total_items() <= i32::MAX - 19,
        ensures
            r == (self.spec_total_items() + 19) / 20,
            r >= 0,
            r * 20 >= self.spec_total_items(),
            (r - 1) * 20 < self.spec_total_items() || self.spec_total_items() == 0,
    {
        let r = (self.total_items + 19) / 20;
        proof {
            let t = self.total_items as int;
            vstd::arithmetic::div_mod::lemma_div_pos_is_pos(t + 19, 20);
            vstd::arithmetic::div_mod::lemma_fundamental_div_mod(t + 19, 20);
            assert(((t + 19) / 20) * 20 == t + 19 - (t + 19) % 20);
            vstd::arithmetic::div_mod::lemma_mod_bound(t + 19, 20);
        }
        r
    }

    /// The satellites of this page, for display.
    pub fn members_vec(&self) -> (r: &Vec<Satellite>)
        ensures
            r@ == self.members(),
    {
        &self.member
    }
}

/// Picks the position fix to show from the samples a provider returned,
/// given as (latitude, longitude) pairs in thousandths of a degree. The
/// provider answers with a batch of samples; tracking uses the first. An
/// empty batch — what a silently swallowed deserialization failure would
/// produce — is surfaced as a provider error, never treated as a fix.
pub fn first_position(positions: &Vec<(i64, i64)>) -> (r: Result<(i64, i64), TrackError>)
    ensures
        r is Ok <==> positions@.len() > 0,
        r matches Ok(p) ==> p == positions@[0],
        r matches Err(e) ==> e == TrackError::ProviderError,
{
    if positions.len() == 0 {
        Err(TrackError::ProviderError)
    } else {
        let p = positions[0];
        Ok(p)
    }
}

} // verus!

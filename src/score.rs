//! The privacy score: a heuristic from 0 to 100, higher being better, drawn
//! from what an analysis found. It is a rough guide, not a certified
//! measure of privacy, and claims neither completeness nor accuracy.

use vstd::prelude::*;

use crate::cookie::CookieCategory;
use crate::page::AnalysisResult;

verus! {

/// What a cookie of the category costs beyond the flat cost of any cookie.
pub open spec fn category_penalty(c: CookieCategory) -> int {
    match c {
        CookieCategory::Marketing => 5,
        CookieCategory::Analytics => 3,
        CookieCategory::Social => 2,
        CookieCategory::Essential => 0,
        CookieCategory::Unknown => 0,
    }
}

/// The sum of the category costs of the cookies.
pub open spec fn category_penalties(cats: Seq<CookieCategory>) -> int
    decreases cats.len(),
{
    if cats.len() == 0 {
        0
    } else {
        category_penalties(cats.drop_last()) + category_penalty(cats.last())
    }
}

/// The score before clamping: 100, less 2 per cookie, less each cookie's
/// category cost, less 5 per tracker, less 1 per third-party domain.
pub open spec fn raw_score(cats: Seq<CookieCategory>, trackers: int, domains: int) -> int {
    100 - 2 * cats.len() - category_penalties(cats) - 5 * trackers - domains
}

/// `x` held to the range from 0 to 100.
pub open spec fn clamp_score(x: int) -> int {
    if x < 0 {
        0
    } else if x > 100 {
        100
    } else {
        x
    }
}

impl AnalysisResult {
    /// The categories of the cookies found, in order.
    pub open spec fn categories(&self) -> Seq<CookieCategory> {
        self.cookies@.map_values(|c: crate::cookie::CookieInfo| c.category)
    }

    /// The privacy score of the analysis.
    pub open spec fn score_spec(&self) -> int {
        clamp_score(
            raw_score(
                self.categories(),
                self.trackers@.len() as int,
                self.third_party_requests@.len() as int,
            ),
        )
    }
}

/// The cost of one cookie of the category, beyond the flat cost.
fn penalty_of(c: CookieCategory) -> (r: u128)
    ensures
        r == category_penalty(c),
{
    match c {
        CookieCategory::Marketing => 5,
        CookieCategory::Analytics => 3,
        CookieCategory::Social => 2,
        CookieCategory::Essential => 0,
        CookieCategory::Unknown => 0,
    }
}

/// The privacy score of an analysis, from 0 to 100.
pub fn calculate_privacy_score(result: &AnalysisResult) -> (r: u32)
    ensures
        r == result.score_spec(),
        r <= 100,
{
    let n = result.cookies.len();
    let mut penalty: u128 = 2 * (n as u128);
    let mut i: usize = 0;
    while i < n
        invariant
            n == result.cookies@.len(),
            i <= n,
            penalty == 2 * n + category_penalties(result.categories().subrange(0, i as int)),
            category_penalties(result.categories().subrange(0, i as int)) <= 5 * i,
        decreases n - i,
    {
        let ghost before = result.categories().subrange(0, i as int);
        assert(result.categories().subrange(0, i + 1).drop_last() =~= before);
        penalty = penalty + penalty_of(result.cookies[i].category);
        i = i + 1;
    }
    assert(result.categories().subrange(0, n as int) =~= result.categories());
    penalty = penalty + 5 * (result.trackers.len() as u128) + (result.third_party_requests.len() as u128);
    if penalty >= 100 {
        0
    } else {
        (100 - penalty) as u32
    }
}

proof fn lemma_penalties_nonnegative(cats: Seq<CookieCategory>)
    ensures
        category_penalties(cats) >= 0,
    decreases cats.len(),
{
    if cats.len() > 0 {
        lemma_penalties_nonnegative(cats.drop_last());
    }
}

/// Whatever an analysis found, its score lies between 0 and 100.
pub proof fn lemma_score_in_range(result: &AnalysisResult)
    ensures
        0 <= result.score_spec() <= 100,
{
}

/// One more marketing cookie, all else the same, lowers the score by
/// exactly 7 (2 for the cookie, 5 for its category), or to 0 where the
/// score was below 7.
pub proof fn lemma_marketing_cookie_costs_seven(before: &AnalysisResult, after: &AnalysisResult)
    requires
        after.categories() == before.categories().push(CookieCategory::Marketing),
        after.trackers@.len() == before.trackers@.len(),
        after.third_party_requests@.len() == before.third_party_requests@.len(),
    ensures
        after.score_spec() == if before.score_spec() >= 7 {
            before.score_spec() - 7
        } else {
            0
        },
{
    assert(after.categories().drop_last() == before.categories());
    lemma_penalties_nonnegative(before.categories());
}

} // verus!

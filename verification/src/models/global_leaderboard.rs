//! The global scores route (`/scores/global/leaderboard`): a page of raw scores.
use vstd::prelude::*;
use crate::models::old_leaderboard::PageWindow;
use crate::answer::{Answer, text_answer};

verus! {

/// The page asked for; both values default when either is missing.
#[derive(Debug, Clone, Copy)]
pub struct LeaderboardQueryStringParams {
    pub length: usize,
    pub offset: usize,
}

impl Default for LeaderboardQueryStringParams {
    /// Ten records from the start.
    fn default() -> (p: Self)
        ensures
            p.length == 10,
            p.offset == 0,
    {
        LeaderboardQueryStringParams { length: 10, offset: 0 }
    }
}

/// Decides a request of the global scores: a length that reads as zero (as a
/// 32-bit integer) is answered with 400 and "length (number of records requested)
/// cannot be 0"; otherwise the page is read as 32-bit integers, as the `as` cast
/// does.
pub fn leaderboard(params: &LeaderboardQueryStringParams) -> (r: Result<PageWindow, Answer>)
    ensures
        r is Err <==> params.length as i32 == 0,
        r matches Err(a) ==> a@ == text_answer(400, "length (number of records requested) cannot be 0"@),
        r matches Ok(w) ==> w.limit == params.length as i32 && w.offset == params.offset as i32,
{
    #[verifier::truncate]
    let length: i32 = params.length as i32;
    #[verifier::truncate]
    let offset: i32 = params.offset as i32;
    if length == 0 {
        return Err(Answer::text(400, "length (number of records requested) cannot be 0"));
    }
    Ok(PageWindow { limit: length, offset })
}

} // verus!

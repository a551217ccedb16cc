//! The page parameters of the web leaderboard routes.
use vstd::prelude::*;

verus! {

/// The page asked for by the web leaderboard.
#[derive(Debug, Clone, Copy)]
pub struct LeaderboardWebQueryStringParams {
    pub length: usize,
    pub offset: usize,
}

impl Default for LeaderboardWebQueryStringParams {
    /// Ten records from the start.
    fn default() -> (p: Self)
        ensures
            p.length == 10,
            p.offset == 0,
    {
        LeaderboardWebQueryStringParams { length: 10, offset: 0 }
    }
}

/// The page asked for by the web API's leaderboard.
#[allow(non_camel_case_types)]
#[derive(Debug, Clone, Copy)]
pub struct Leaderboard_Web_QueryStringParams {
    pub length: usize,
    pub offset: usize,
}

impl Default for Leaderboard_Web_QueryStringParams {
    /// Ten records from the start.
    fn default() -> (p: Self)
        ensures
            p.length == 10,
            p.offset == 0,
    {
        Leaderboard_Web_QueryStringParams { length: 10, offset: 0 }
    }
}

} // verus!

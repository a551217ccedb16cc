//! The public scores route (`/leaderboard/scores` of the scores module).
use vstd::prelude::*;
use crate::structs::{VisibilityEnum, GamemodeEnum, OrderByEnum};
use crate::errors::CustomErrors;
use crate::models::leaderboard::{LeaderboardRejection, leaderboard_access, access_of};

verus! {

/// The filters and the page of a request.
#[derive(Debug, Clone, Copy)]
pub struct LeaderboardQueryStringParams {
    pub visibility: VisibilityEnum,
    pub game_mode: GamemodeEnum,
    pub page_length: i32,
    pub page_offset: i32,
    pub order_by: OrderByEnum,
    pub order_ascending: bool,
}

impl Default for LeaderboardQueryStringParams {
    /// Ten public records of the default mode, best scores first.
    fn default() -> (p: Self)
        ensures
            p.page_length == 10,
            p.page_offset == 0,
            p.visibility == VisibilityEnum::Public,
            p.game_mode == GamemodeEnum::Default,
            p.order_by == OrderByEnum::Score,
            !p.order_ascending,
    {
        LeaderboardQueryStringParams {
            page_length: 10,
            page_offset: 0,
            visibility: VisibilityEnum::Public,
            game_mode: GamemodeEnum::Default,
            order_by: OrderByEnum::Score,
            order_ascending: false,
        }
    }
}

/// Decides a request of the public scores: refused as `leaderboard_access` says;
/// an allowed request lists the ten best scores (whatever page was asked for).
pub fn leaderboard_web(params: &LeaderboardQueryStringParams, token_valid: Option<bool>) -> (r: Result<
    (),
    LeaderboardRejection,
>)
    ensures
        r == access_of(params.page_length, params.visibility, params.game_mode, token_valid),
        r is Ok <==> params.visibility == VisibilityEnum::Public && params.game_mode == GamemodeEnum::Default && ((token_valid
            == Some(true) && params.page_length <= 50) || (token_valid is None && params.page_length <= 10)),
        token_valid is None && params.page_length > 10 ==> r matches Err(LeaderboardRejection::AnonymousTooMany),
        token_valid is None && params.page_length <= 10 && params.visibility != VisibilityEnum::Public ==> r matches Err(
            LeaderboardRejection::AnonymousNotPublic,
        ),
        token_valid == Some(false) ==> r matches Err(LeaderboardRejection::Error(CustomErrors::BadToken)),
        token_valid == Some(true) && params.page_length > 50 ==> r matches Err(LeaderboardRejection::Error(CustomErrors::RequestAmount)),
{
    leaderboard_access(params.page_length, params.visibility, params.game_mode, token_valid)
}

} // verus!

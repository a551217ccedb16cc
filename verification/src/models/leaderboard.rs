//! The filtered, paged leaderboard (`/leaderboard/scores`) and its record counts.
use vstd::prelude::*;
use crate::structs::{
    VisibilityEnum, GamemodeEnum, OrderByEnum, gamemode_name, order_by_name, visibility_name,
};
use crate::errors::{CustomErrors, answer_error, error_answer};
use crate::answer::{Answer, AnswerModel, response_answer};
use crate::utils::get_timestamp;

verus! {

/// How many records a signed-in user may ask for at a time.
pub const SIGNED_IN_USER_RECORD_MAX: i32 = 50;

/// How many records a user who is not signed in may ask for at a time.
pub const ANONYMOUS_USER_RECORD_MAX: i32 = 10;

/// The filters and the page of a leaderboard request.
#[derive(Debug)]
pub struct LeaderboardQueryParams {
    pub visibility: VisibilityEnum,
    pub uploaded_after: i64,
    pub uploaded_before: i64,
    pub game_mode: GamemodeEnum,
    pub order_by: OrderByEnum,
    pub order_ascending: bool,
    pub page_length: i32,
    pub page_offset: i32,
}

impl Default for LeaderboardQueryParams {
    /// Ten public records of the default mode, best scores first, uploaded up to now.
    fn default() -> (p: Self)
        ensures
            p.page_length == 10,
            p.page_offset == 0,
            p.visibility == VisibilityEnum::Public,
            p.game_mode == GamemodeEnum::Default,
            p.order_by == OrderByEnum::Score,
            !p.order_ascending,
            p.uploaded_after == 0,
            p.uploaded_before >= 0,
    {
        LeaderboardQueryParams {
            page_length: 10,
            page_offset: 0,
            visibility: VisibilityEnum::Public,
            game_mode: GamemodeEnum::Default,
            order_by: OrderByEnum::Score,
            order_ascending: false,
            uploaded_after: 0,
            uploaded_before: get_timestamp(),
        }
    }
}

/// A record of the leaderboard: a score and the name of the player.
#[derive(Debug)]
pub struct LeaderboardRecord {
    pub username: String,
    pub epoch_upload_time: i64,
    pub epoch_game_start_time: i64,
    pub epoch_game_end_time: i64,
    pub score: i32,
    pub game_mode: String,
}

/// A count of records: the records that meet the filters of a query (its game
/// mode, visibility and upload window).
#[derive(Debug, Clone, Copy)]
pub struct TotalRecords {
    pub total_records: i64,
}

/// Why a leaderboard request is refused.
#[derive(Debug)]
pub enum LeaderboardRejection {
    /// A user who is not signed in asked for more than ten records.
    AnonymousTooMany,
    /// A user who is not signed in asked for other than public records.
    AnonymousNotPublic,
    /// A refusal that the error handler answers.
    Error(CustomErrors),
}

/// Whether a leaderboard request is allowed. `token_valid` is `None` when no
/// token was sent, else whether the token sent is valid. Users who are not signed
/// in see public records only, ten at most; signed-in users fifty at most; only
/// public records of the default mode can be listed so far.
pub open spec fn access_of(
    page_length: i32,
    visibility: VisibilityEnum,
    game_mode: GamemodeEnum,
    token_valid: Option<bool>,
) -> Result<(), LeaderboardRejection> {
    match token_valid {
        None => if page_length > ANONYMOUS_USER_RECORD_MAX {
            Err(LeaderboardRejection::AnonymousTooMany)
        } else if visibility != VisibilityEnum::Public {
            Err(LeaderboardRejection::AnonymousNotPublic)
        } else if game_mode != GamemodeEnum::Default {
            Err(LeaderboardRejection::Error(CustomErrors::Unimplemented))
        } else {
            Ok(())
        },
        Some(false) => Err(LeaderboardRejection::Error(CustomErrors::BadToken)),
        Some(true) => if page_length > SIGNED_IN_USER_RECORD_MAX {
            Err(LeaderboardRejection::Error(CustomErrors::RequestAmount))
        } else if visibility != VisibilityEnum::Public || game_mode != GamemodeEnum::Default {
            Err(LeaderboardRejection::Error(CustomErrors::Unimplemented))
        } else {
            Ok(())
        },
    }
}

/// The access policy: a request is allowed exactly when it asks for public records
/// of the default mode, at most ten of them without a token or at most fifty with
/// a valid one. Without a token, more than ten records are refused first, then
/// other than public records; an invalid token is refused; a signed-in user asking
/// for more than fifty records is refused as asking too much.
pub proof fn lemma_access_policy(
    page_length: i32,
    visibility: VisibilityEnum,
    game_mode: GamemodeEnum,
    token_valid: Option<bool>,
)
    ensures
        access_of(page_length, visibility, game_mode, token_valid) is Ok <==> visibility
            == VisibilityEnum::Public && game_mode == GamemodeEnum::Default && ((token_valid == Some(true)
            && page_length <= 50) || (token_valid is None && page_length <= 10)),
        token_valid is None && page_length > 10 ==> access_of(page_length, visibility, game_mode, token_valid)
            matches Err(LeaderboardRejection::AnonymousTooMany),
        token_valid is None && page_length <= 10 && visibility != VisibilityEnum::Public ==> access_of(
            page_length,
            visibility,
            game_mode,
            token_valid,
        ) matches Err(LeaderboardRejection::AnonymousNotPublic),
        token_valid == Some(false) ==> access_of(page_length, visibility, game_mode, token_valid) matches Err(
            LeaderboardRejection::Error(CustomErrors::BadToken),
        ),
        token_valid == Some(true) && page_length > 50 ==> access_of(page_length, visibility, game_mode, token_valid)
            matches Err(LeaderboardRejection::Error(CustomErrors::RequestAmount)),
{
}

/// Decides whether a leaderboard request is allowed.
pub fn leaderboard_access(
    page_length: i32,
    visibility: VisibilityEnum,
    game_mode: GamemodeEnum,
    token_valid: Option<bool>,
) -> (r: Result<(), LeaderboardRejection>)
    ensures
        r == access_of(page_length, visibility, game_mode, token_valid),
        r is Ok ==> visibility == VisibilityEnum::Public && game_mode == GamemodeEnum::Default,
        r is Ok ==> token_valid != Some(false),
        r is Ok && token_valid is None ==> page_length <= ANONYMOUS_USER_RECORD_MAX,
        r is Ok ==> page_length <= SIGNED_IN_USER_RECORD_MAX,
        r is Ok <==> visibility == VisibilityEnum::Public && game_mode == GamemodeEnum::Default && ((token_valid
            == Some(true) && page_length <= 50) || (token_valid is None && page_length <= 10)),
        token_valid is None && page_length > 10 ==> r matches Err(LeaderboardRejection::AnonymousTooMany),
        token_valid is None && page_length <= 10 && visibility != VisibilityEnum::Public ==> r matches Err(
            LeaderboardRejection::AnonymousNotPublic,
        ),
        token_valid == Some(false) ==> r matches Err(LeaderboardRejection::Error(CustomErrors::BadToken)),
        token_valid == Some(true) && page_length > 50 ==> r matches Err(LeaderboardRejection::Error(CustomErrors::RequestAmount)),
{
    match token_valid {
        None => {
            if page_length > ANONYMOUS_USER_RECORD_MAX {
                return Err(LeaderboardRejection::AnonymousTooMany);
            }
            if visibility != VisibilityEnum::Public {
                return Err(LeaderboardRejection::AnonymousNotPublic);
            }
        },
        Some(valid) => {
            if !valid {
                return Err(LeaderboardRejection::Error(CustomErrors::BadToken));
            }
            if page_length > SIGNED_IN_USER_RECORD_MAX {
                return Err(LeaderboardRejection::Error(CustomErrors::RequestAmount));
            }
        },
    }
    if visibility != VisibilityEnum::Public || game_mode != GamemodeEnum::Default {
        return Err(LeaderboardRejection::Error(CustomErrors::Unimplemented));
    }
    Ok(())
}

/// The text that a refusal carries; a refusal by error carries the error handler's text.
pub open spec fn rejection_text(r: LeaderboardRejection) -> Seq<char> {
    match r {
        LeaderboardRejection::AnonymousTooMany => "anonymous/non-signed in users can only request 10 records at a time"@,
        LeaderboardRejection::AnonymousNotPublic => "non-signed in users cannot see their own/friends records becuase they have none"@,
        LeaderboardRejection::Error(e) => crate::errors::error_response_text(e),
    }
}

/// The answer to a refusal.
pub open spec fn rejection_answer(r: LeaderboardRejection) -> AnswerModel {
    match r {
        LeaderboardRejection::Error(e) => error_answer(e),
        _ => response_answer(400, rejection_text(r)),
    }
}

impl LeaderboardRejection {
    /// The HTTP status code that answers the refusal.
    pub fn status(&self) -> (code: u16)
        ensures
            code == match *self {
                LeaderboardRejection::Error(e) => crate::errors::error_status(e),
                _ => 400u16,
            },
    {
        match self {
            LeaderboardRejection::AnonymousTooMany => 400,
            LeaderboardRejection::AnonymousNotPublic => 400,
            LeaderboardRejection::Error(e) => crate::errors::handle_error_status(e),
        }
    }

    /// The answer to the refusal.
    pub fn answer(self) -> (a: Answer)
        ensures
            a@ == rejection_answer(self),
    {
        match self {
            LeaderboardRejection::Error(e) => answer_error(e),
            LeaderboardRejection::AnonymousTooMany => Answer::response(
                400,
                "anonymous/non-signed in users can only request 10 records at a time",
            ),
            LeaderboardRejection::AnonymousNotPublic => Answer::response(
                400,
                "non-signed in users cannot see their own/friends records becuase they have none",
            ),
        }
    }
}

/// The count query of the records that meet the filters: its game mode,
/// visibility and upload window.
#[derive(Debug)]
pub struct RecordCountQuery {
    pub game_mode: String,
    pub visibility: String,
    pub uploaded_after: i64,
    pub uploaded_before: i64,
}

/// Whether a count query counts the records that meet the filters of a request.
pub open spec fn counts_filters_of(q: RecordCountQuery, params: LeaderboardQueryParams) -> bool {
    &&& q.game_mode@ == gamemode_name(params.game_mode)
    &&& q.visibility@ == visibility_name(params.visibility)
    &&& q.uploaded_after == params.uploaded_after
    &&& q.uploaded_before == params.uploaded_before
}

/// The count query of the records that meet the filters of a request.
pub fn record_count_query(params: &LeaderboardQueryParams) -> (q: RecordCountQuery)
    ensures
        counts_filters_of(q, *params),
{
    RecordCountQuery {
        game_mode: params.game_mode.name(),
        visibility: params.visibility.name(),
        uploaded_after: params.uploaded_after,
        uploaded_before: params.uploaded_before,
    }
}

/// The queries that a leaderboard request runs: a page of the records of the game
/// mode uploaded within the window, in the order given, and the count (`total`)
/// of the records that meet the filters of the request.
#[derive(Debug)]
pub struct LeaderboardQuery {
    pub game_mode: String,
    pub uploaded_after: i64,
    pub uploaded_before: i64,
    pub order_condition: String,
    pub page_length: i32,
    pub page_offset: i32,
    pub total: RecordCountQuery,
}

/// The ordering clause: the ordering's name and `ASC` or `DESC`.
pub open spec fn order_condition_of(order_by: OrderByEnum, ascending: bool) -> Seq<char> {
    order_by_name(order_by) + " "@ + (if ascending { "ASC"@ } else { "DESC"@ })
}

/// Writes the ordering clause of a leaderboard query.
pub fn order_condition(order_by: OrderByEnum, ascending: bool) -> (s: String)
    ensures
        s@ == order_condition_of(order_by, ascending),
{
    let mut s = order_by.name();
    s.append(" ");
    if ascending {
        s.append("ASC");
    } else {
        s.append("DESC");
    }
    s
}

/// Decides a leaderboard request (a page of scores with the player names, and the
/// total count): refused as `leaderboard_access` says, else the queries to run:
/// the page asked for, and the count of the records that meet the request's
/// filters (game mode, visibility and upload window).
pub fn leaderboard(params: &LeaderboardQueryParams, token_valid: Option<bool>) -> (r: Result<
    LeaderboardQuery,
    LeaderboardRejection,
>)
    ensures
        r is Err <==> access_of(params.page_length, params.visibility, params.game_mode, token_valid) is Err,
        r matches Err(e) ==> Err::<(), LeaderboardRejection>(e) == access_of(
            params.page_length,
            params.visibility,
            params.game_mode,
            token_valid,
        ),
        r matches Ok(q) ==> {
            &&& q.game_mode@ == gamemode_name(params.game_mode)
            &&& q.uploaded_after == params.uploaded_after
            &&& q.uploaded_before == params.uploaded_before
            &&& q.order_condition@ == order_condition_of(params.order_by, params.order_ascending)
            &&& q.page_length == params.page_length
            &&& q.page_offset == params.page_offset
            &&& counts_filters_of(q.total, *params)
        },
        r is Ok <==> params.visibility == VisibilityEnum::Public && params.game_mode == GamemodeEnum::Default && ((token_valid
            == Some(true) && params.page_length <= 50) || (token_valid is None && params.page_length <= 10)),
        token_valid is None && params.page_length > 10 ==> r matches Err(LeaderboardRejection::AnonymousTooMany),
        token_valid is None && params.page_length <= 10 && params.visibility != VisibilityEnum::Public ==> r matches Err(
            LeaderboardRejection::AnonymousNotPublic,
        ),
        token_valid == Some(false) ==> r matches Err(LeaderboardRejection::Error(CustomErrors::BadToken)),
        token_valid == Some(true) && params.page_length > 50 ==> r matches Err(LeaderboardRejection::Error(CustomErrors::RequestAmount)),
{
    match leaderboard_access(params.page_length, params.visibility, params.game_mode, token_valid) {
        Err(e) => Err(e),
        Ok(()) => Ok(
            LeaderboardQuery {
                game_mode: params.game_mode.name(),
                uploaded_after: params.uploaded_after,
                uploaded_before: params.uploaded_before,
                order_condition: order_condition(params.order_by, params.order_ascending),
                page_length: params.page_length,
                page_offset: params.page_offset,
                total: record_count_query(params),
            },
        ),
    }
}

/// Decides a request for the number of records meeting the filters: only a
/// request with an access token is answered.
pub fn total_records_custom(params: &LeaderboardQueryParams, has_auth: bool) -> (r: Result<
    RecordCountQuery,
    CustomErrors,
>)
    ensures
        r is Err <==> !has_auth,
        r matches Err(e) ==> e is RequiresAuthorisation,
        r matches Ok(q) ==> counts_filters_of(q, *params),
{
    if !has_auth {
        return Err(CustomErrors::RequiresAuthorisation);
    }
    Ok(record_count_query(params))
}

} // verus!

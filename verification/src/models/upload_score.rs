//! The `scores/upload` route: storing the result of a game.
use vstd::prelude::*;
use crate::utils::get_timestamp;
use crate::structs::User;
use crate::errors::CustomErrors;
use crate::answer::{Answer, AnswerModel, text_answer};

verus! {

/// An upload of the result of a game.
#[derive(Debug)]
pub struct UploadScoreRequestParams {
    pub token: String,
    pub score: i64,
    pub gamemode: String,
    pub epoch_game_start_time: i64,
    pub epoch_game_end_time: i64,
}

/// The row to insert into the `scores` table.
#[derive(Debug)]
pub struct NewScore {
    pub user_id: i64,
    pub score: i64,
    pub game_mode: String,
    pub epoch_upload_time: i64,
    pub epoch_game_start_time: i64,
    pub epoch_game_end_time: i64,
}

/// Why an upload is refused.
#[derive(Debug, Clone, Copy, PartialEq, Eq, Structural)]
pub enum UploadRejection {
    /// The token does not lead to an account.
    BadToken,
    /// The game was uploaded before.
    AlreadyUploaded,
}

/// What `upload_score` promises of its result: a bad token is refused; an upload
/// of a game already stored is refused; else the row to insert, for the user of
/// the token, with the score, mode and times sent and a stamped upload time.
pub open spec fn upload_score_meets(
    user: Result<User, CustomErrors>,
    request: UploadScoreRequestParams,
    already_uploaded: bool,
    r: Result<NewScore, UploadRejection>,
) -> bool {
    &&& user is Err ==> r == Err::<NewScore, UploadRejection>(UploadRejection::BadToken)
    &&& user is Ok ==> (r is Err <==> already_uploaded)
    &&& user is Ok && already_uploaded ==> r == Err::<NewScore, UploadRejection>(
        UploadRejection::AlreadyUploaded,
    )
    &&& r matches Ok(row) ==> {
        &&& user matches Ok(u) && row.user_id == u.id
        &&& row.score == request.score
        &&& row.game_mode@ == request.gamemode@
        &&& row.epoch_game_start_time == request.epoch_game_start_time
        &&& row.epoch_game_end_time == request.epoch_game_end_time
        &&& row.epoch_upload_time >= 0
    }
}

/// Decides an upload for the user of the token (`user`, as the database says):
/// a game is uploaded once only (`already_uploaded`: a score of the same user with
/// the same start time exists); else the row to insert, stamped with the upload
/// time.
pub fn upload_score(
    user: Result<User, CustomErrors>,
    request: UploadScoreRequestParams,
    already_uploaded: bool,
) -> (r: Result<NewScore, UploadRejection>)
    ensures
        upload_score_meets(user, request, already_uploaded, r),
{
    let u = match user {
        Ok(u) => u,
        Err(_) => {
            return Err(UploadRejection::BadToken);
        },
    };
    if already_uploaded {
        return Err(UploadRejection::AlreadyUploaded);
    }
    let now: i64 = get_timestamp();
    Ok(
        NewScore {
            user_id: u.id,
            score: request.score,
            game_mode: request.gamemode,
            epoch_upload_time: now,
            epoch_game_start_time: request.epoch_game_start_time,
            epoch_game_end_time: request.epoch_game_end_time,
        },
    )
}

/// The games stored in the scores table, as a set of (user id, game start time):
/// the games that the table holds once a new score row is inserted.
pub open spec fn games_after(games: Set<(i64, i64)>, row: NewScore) -> Set<(i64, i64)> {
    games.insert((row.user_id, row.epoch_game_start_time))
}

/// How an upload is decided when the scores table holds `games`: refused for a
/// bad token, refused when the user's game of that start time is stored, else
/// stored.
pub open spec fn upload_decision(
    user: Result<User, CustomErrors>,
    epoch_game_start_time: i64,
    games: Set<(i64, i64)>,
) -> Option<UploadRejection> {
    match user {
        Err(_) => Some(UploadRejection::BadToken),
        Ok(u) => if games.contains((u.id, epoch_game_start_time)) {
            Some(UploadRejection::AlreadyUploaded)
        } else {
            None
        },
    }
}

/// A game is stored once: `upload_score`, asked with what the table says, decides
/// as `upload_decision` does; and once the row of a stored upload is in the table,
/// an upload of the same game by the same user is refused as already uploaded.
pub proof fn lemma_upload_stored_once(
    games: Set<(i64, i64)>,
    user: User,
    request: UploadScoreRequestParams,
    r: Result<NewScore, UploadRejection>,
)
    requires
        upload_score_meets(Ok(user), request, games.contains((user.id, request.epoch_game_start_time)), r),
    ensures
        r is Err <==> upload_decision(Ok(user), request.epoch_game_start_time, games) is Some,
        r matches Ok(row) ==> upload_decision(Ok(user), request.epoch_game_start_time, games_after(games, row))
            == Some(UploadRejection::AlreadyUploaded),
{
}

/// The answer to an upload, once the row is inserted.
pub open spec fn upload_answer_of(r: Result<NewScore, UploadRejection>) -> AnswerModel {
    match r {
        Ok(_) => text_answer(200, "score record creation successful"@),
        Err(UploadRejection::BadToken) => text_answer(400, "bad token"@),
        Err(UploadRejection::AlreadyUploaded) => text_answer(208, "this score has already been uploaded"@),
    }
}

/// The answer of the upload route.
pub fn upload_answer(r: &Result<NewScore, UploadRejection>) -> (a: Answer)
    ensures
        a@ == upload_answer_of(*r),
{
    match r {
        Ok(_) => Answer::text(200, "score record creation successful"),
        Err(UploadRejection::BadToken) => Answer::text(400, "bad token"),
        Err(UploadRejection::AlreadyUploaded) => Answer::text(208, "this score has already been uploaded"),
    }
}

} // verus!

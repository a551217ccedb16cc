//! The first leaderboard route (`/old/scores/global`): a page of raw scores.
use vstd::prelude::*;
use crate::answer::{Answer, response_answer};

verus! {

/// The page asked for; both values default when either is missing.
#[derive(Debug, Clone, Copy)]
pub struct LeaderboardQueryStringParams {
    pub length: usize,
    pub offset: usize,
}

impl Default for LeaderboardQueryStringParams {
    /// Ten records from the start.
    fn default() -> (p: Self)
        ensures
            p.length == 10,
            p.offset == 0,
    {
        LeaderboardQueryStringParams { length: 10, offset: 0 }
    }
}

/// The window of rows that a page asks for (`LIMIT limit OFFSET offset`).
#[derive(Debug, Clone, Copy, PartialEq, Eq, Structural)]
pub struct PageWindow {
    pub limit: i32,
    pub offset: i32,
}

/// Why a request of the first leaderboard is refused (each answered with 400).
#[derive(Debug, Clone, Copy, PartialEq, Eq, Structural)]
pub enum OldLeaderboardRejection {
    /// A token was sent and it is not valid.
    InvalidToken,
    /// A signed-in user asked for more than fifty records.
    SignedInTooMany,
    /// A user who is not signed in asked for more than ten records.
    AnonymousTooMany,
    /// The length is not positive or the offset is negative.
    BadWindow,
}

/// The answer to a request of the first leaderboard. The length and offset are
/// read as 32-bit integers (wrapping, as the `as` cast does). `token_valid` is
/// `None` when no token was sent, else whether the token is valid.
pub open spec fn old_leaderboard_of(length: usize, offset: usize, token_valid: Option<bool>) -> Result<
    PageWindow,
    OldLeaderboardRejection,
> {
    let l = length as i32;
    let o = offset as i32;
    let signed_in = token_valid == Some(true);
    if token_valid == Some(false) {
        Err(OldLeaderboardRejection::InvalidToken)
    } else if signed_in && l > 50 {
        Err(OldLeaderboardRejection::SignedInTooMany)
    } else if !signed_in && l > 10 {
        Err(OldLeaderboardRejection::AnonymousTooMany)
    } else if l <= 0 || o < 0 {
        Err(OldLeaderboardRejection::BadWindow)
    } else {
        Ok(PageWindow { limit: l, offset: o })
    }
}

/// An allowed request of the first leaderboard keeps the page asked for (its
/// length and offset read as 32-bit integers), whether or not a token was sent. A
/// request is allowed exactly when no invalid token was sent, the length is
/// positive and at most fifty (signed in) or ten (not signed in), and the offset
/// is not negative.
pub proof fn lemma_old_leaderboard_keeps_page(length: usize, offset: usize, token_valid: Option<bool>)
    ensures
        old_leaderboard_of(length, offset, token_valid) matches Ok(w) ==> w.limit == length as i32 && w.offset
            == offset as i32,
        old_leaderboard_of(length, offset, token_valid) is Ok <==> token_valid != Some(false) && 0
            < length as i32 && offset as i32 >= 0 && (length as i32 <= if token_valid == Some(true) {
            50i32
        } else {
            10i32
        }),
{
}

/// Decides a request of the first leaderboard: an invalid token is refused;
/// signed-in users may ask for fifty records, others for ten; the length must be
/// positive and the offset not negative.
pub fn leaderboard_old(params: &LeaderboardQueryStringParams, token_valid: Option<bool>) -> (r: Result<
    PageWindow,
    OldLeaderboardRejection,
>)
    ensures
        r == old_leaderboard_of(params.length, params.offset, token_valid),
        r matches Ok(w) ==> 0 < w.limit <= 50 && w.offset >= 0,
        r matches Ok(w) ==> token_valid != Some(true) ==> w.limit <= 10,
        r matches Ok(w) ==> w.limit == params.length as i32 && w.offset == params.offset as i32,
        r is Ok <==> token_valid != Some(false) && 0 < params.length as i32 && params.offset as i32 >= 0 && (
        params.length as i32 <= if token_valid == Some(true) {
            50i32
        } else {
            10i32
        }),
        token_valid == Some(false) ==> r == Err::<PageWindow, OldLeaderboardRejection>(
            OldLeaderboardRejection::InvalidToken,
        ),
        token_valid == Some(true) && params.length as i32 > 50 ==> r == Err::<PageWindow, OldLeaderboardRejection>(
            OldLeaderboardRejection::SignedInTooMany,
        ),
        token_valid is None && params.length as i32 > 10 ==> r == Err::<PageWindow, OldLeaderboardRejection>(
            OldLeaderboardRejection::AnonymousTooMany,
        ),
{
    #[verifier::truncate]
    let length: i32 = params.length as i32;
    #[verifier::truncate]
    let offset: i32 = params.offset as i32;
    let mut signed_in: bool = false;
    match token_valid {
        None => {},
        Some(valid) => {
            signed_in = valid;
            if !valid {
                return Err(OldLeaderboardRejection::InvalidToken);
            }
        },
    }
    if signed_in {
        if length > 50 {
            return Err(OldLeaderboardRejection::SignedInTooMany);
        }
    } else {
        if length > 10 {
            return Err(OldLeaderboardRejection::AnonymousTooMany);
        }
    }
    if length <= 0 || offset < 0 {
        return Err(OldLeaderboardRejection::BadWindow);
    }
    Ok(PageWindow { limit: length, offset })
}

/// The text that answers a refusal.
pub open spec fn old_rejection_text(r: OldLeaderboardRejection) -> Seq<char> {
    match r {
        OldLeaderboardRejection::InvalidToken => "token used was invalid, please reauthenticate and try again"@,
        OldLeaderboardRejection::SignedInTooMany => "users can request a maximum of 50 records at a time"@,
        OldLeaderboardRejection::AnonymousTooMany => "anonymous users can only request 10 records at a time"@,
        OldLeaderboardRejection::BadWindow => "the length cannot be 0 or less, and/or the offset cannot be less than zero"@,
    }
}

impl OldLeaderboardRejection {
    /// The text that answers the refusal.
    pub fn message(&self) -> (s: String)
        ensures
            s@ == old_rejection_text(*self),
    {
        match self {
            OldLeaderboardRejection::InvalidToken => String::from_str(
                "token used was invalid, please reauthenticate and try again",
            ),
            OldLeaderboardRejection::SignedInTooMany => String::from_str(
                "users can request a maximum of 50 records at a time",
            ),
            OldLeaderboardRejection::AnonymousTooMany => String::from_str(
                "anonymous users can only request 10 records at a time",
            ),
            OldLeaderboardRejection::BadWindow => String::from_str(
                "the length cannot be 0 or less, and/or the offset cannot be less than zero",
            ),
        }
    }

    /// The answer to the refusal: 400 and `{"response": text}`.
    pub fn answer(&self) -> (a: Answer)
        ensures
            a@ == response_answer(400, old_rejection_text(*self)),
    {
        Answer::keyed(400, "response", self.message())
    }
}

} // verus!

//! The rows of the database tables and the relationship between two users.
//! Timestamps of rows are held as microseconds since the epoch (UTC).
use vstd::prelude::*;
use crate::utils::get_timestamp;

verus! {

/// A row of the `users` table.
#[derive(Debug)]
pub struct User {
    pub id: i64,
    pub username: String,
    pub email: String,
    pub password_hash: String,
    pub epoch_signup_time: i64,
}

/// A row of the `scores` table.
#[derive(Debug)]
pub struct Score {
    pub id: i64,
    pub user_id: i64,
    pub epoch_upload_time: i64,
    pub epoch_game_start_time: i64,
    pub epoch_game_end_time: i64,
    pub score: i32,
    pub game_mode: String,
}

/// A row of the `tokens` table: a session token and when it expires.
#[derive(Debug)]
pub struct Token {
    pub id: i64,
    pub user_id: i64,
    pub epoch_expiry_date: i64,
    pub token: String,
    pub creation_timestamp: i64,
}

/// A row of the `friend_requests` table: `sender_id` asked `receiver_id`.
#[derive(Debug, Clone, Copy)]
pub struct FriendRequest {
    pub id: i64,
    pub sender_id: i64,
    pub receiver_id: i64,
    pub creation_timestamp: i64,
}

/// A row of the `friends` table: an accepted friendship.
#[derive(Debug, Clone, Copy)]
pub struct FriendRecord {
    pub id: i64,
    pub sender_id: i64,
    pub receiver_id: i64,
    pub creation_timestamp: i64,
    pub acceptance_timestamp: i64,
}

/// How the requesting user stands to a target user.
#[derive(Debug, Clone, Copy)]
pub enum RelationshipStatusEnum {
    Friends(FriendRecord),
    UserRequested(FriendRequest),
    TargetRequested(FriendRequest),
    Unrelated,
}

/// A calendar date.
#[derive(Debug, Clone, Copy, PartialEq, Eq, Structural)]
pub struct Date {
    pub year: i32,
    pub month: u32,
    pub day: u32,
}

/// Who may see a set of scores.
#[derive(Debug, Clone, Copy, PartialEq, Eq, Structural)]
pub enum VisibilityEnum {
    Public,
    Friends,
    Own,
}

/// The mode a game was played in.
#[derive(Debug, Clone, Copy, PartialEq, Eq, Structural)]
pub enum GamemodeEnum {
    Default,
    Hardcore,
}

/// What a leaderboard is ordered by.
#[derive(Debug, Clone, Copy, PartialEq, Eq, Structural)]
pub enum OrderByEnum {
    Score,
    MostRecent,
}

/// The name under which a visibility is stored.
pub open spec fn visibility_name(v: VisibilityEnum) -> Seq<char> {
    match v {
        VisibilityEnum::Public => "public"@,
        VisibilityEnum::Friends => "friends"@,
        VisibilityEnum::Own => "own"@,
    }
}

/// The name under which a game mode is stored.
pub open spec fn gamemode_name(g: GamemodeEnum) -> Seq<char> {
    match g {
        GamemodeEnum::Default => "default"@,
        GamemodeEnum::Hardcore => "hardcore"@,
    }
}

/// The name of an ordering.
pub open spec fn order_by_name(o: OrderByEnum) -> Seq<char> {
    match o {
        OrderByEnum::Score => "score"@,
        OrderByEnum::MostRecent => "most_recent"@,
    }
}

impl VisibilityEnum {
    /// The name under which the visibility is stored.
    pub fn name(&self) -> (s: String)
        ensures
            s@ == visibility_name(*self),
    {
        match self {
            VisibilityEnum::Public => String::from_str("public"),
            VisibilityEnum::Friends => String::from_str("friends"),
            VisibilityEnum::Own => String::from_str("own"),
        }
    }
}

impl GamemodeEnum {
    /// The name under which the game mode is stored.
    pub fn name(&self) -> (s: String)
        ensures
            s@ == gamemode_name(*self),
    {
        match self {
            GamemodeEnum::Default => String::from_str("default"),
            GamemodeEnum::Hardcore => String::from_str("hardcore"),
        }
    }
}

impl OrderByEnum {
    /// The name of the ordering.
    pub fn name(&self) -> (s: String)
        ensures
            s@ == order_by_name(*self),
    {
        match self {
            OrderByEnum::Score => String::from_str("score"),
            OrderByEnum::MostRecent => String::from_str("most_recent"),
        }
    }
}

/// Builds a `User`; without a signup time the current time is taken.
/// The clock is read in either case, as the argument of `unwrap_or` is.
pub fn build_user(
    id: i64,
    username: String,
    email: String,
    password_hash: String,
    epoch_signup_time: Option<i64>,
) -> (user: User)
    ensures
        user.id == id,
        user.username@ == username@,
        user.email@ == email@,
        user.password_hash@ == password_hash@,
        epoch_signup_time matches Some(t) ==> user.epoch_signup_time == t,
        epoch_signup_time is None ==> user.epoch_signup_time >= 0,
{
    let now: i64 = get_timestamp();
    let timestamp: i64 = match epoch_signup_time {
        Some(t) => t,
        None => now,
    };
    User { id, username, email, password_hash, epoch_signup_time: timestamp }
}

} // verus!

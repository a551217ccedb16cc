//! Clock, credential checks, session tokens, user lookup and friendship decisions.
use vstd::prelude::*;
use crate::trusted::{
    system_time_now, duration_since_epoch, duration_as_secs, regex_is_match, random_alphanumeric,
    is_name_char, is_alphanumeric_char,
};
use crate::structs::{User, Token, FriendRequest, FriendRecord, RelationshipStatusEnum};
use crate::errors::CustomErrors;

verus! {

/// The timestamp that a reading of whole seconds since the epoch gives:
/// a clock set before the epoch reads as zero, a reading past `i64::MAX` saturates.
pub open spec fn timestamp_of(secs: Option<u64>) -> i64 {
    match secs {
        None => 0,
        Some(s) => if s <= i64::MAX as u64 { s as i64 } else { i64::MAX },
    }
}

/// Turns a clock reading (whole seconds since the epoch, `None` when the clock
/// reads before the epoch) into the timestamp the tables store.
pub fn timestamp_from_secs(secs: Option<u64>) -> (t: i64)
    ensures
        t == timestamp_of(secs),
        t >= 0,
        secs is None ==> t == 0,
        secs matches Some(n) ==> (n <= i64::MAX ==> t == n),
        secs matches Some(n) ==> (n > i64::MAX ==> t == i64::MAX),
{
    match secs {
        None => 0,
        Some(s) => if s <= 0x7fff_ffff_ffff_ffffu64 { s as i64 } else { 0x7fff_ffff_ffff_ffffi64 },
    }
}

/// Gets the time in seconds since the unix epoch (jan 1st 1970) as an i64.
pub fn get_timestamp() -> (t: i64)
    ensures
        t >= 0,
{
    let now = system_time_now();
    let secs: Option<u64> = match duration_since_epoch(&now) {
        Ok(d) => Some(duration_as_secs(&d)),
        Err(_) => None,
    };
    timestamp_from_secs(secs)
}

/// A reading of the system clock, in seconds since the epoch. Only `read_clock`
/// makes one, so a value of this type is a time that the clock gave.
#[derive(Debug, Clone, Copy)]
pub struct ClockReading {
    secs: i64,
}

impl ClockReading {
    /// The seconds since the epoch that the clock read.
    pub closed spec fn secs(self) -> i64 {
        self.secs
    }

    /// The seconds since the epoch that the clock read.
    pub fn value(&self) -> (t: i64)
        ensures
            t == self.secs(),
    {
        self.secs
    }
}

/// Reads the system clock.
pub fn read_clock() -> (c: ClockReading)
    ensures
        c.secs() >= 0,
{
    ClockReading { secs: get_timestamp() }
}

// -- Regex Checking/Validations --

/// A text of one or more characters, each a letter, a digit, `_` or `.`.
pub open spec fn is_valid_name(text: Seq<char>) -> bool {
    text.len() > 0 && forall|i: int| 0 <= i < text.len() ==> is_name_char(#[trigger] text[i])
}

/// Checks a password against `^[0-9A-Za-z_.]+$`: only regular characters and symbols.
pub fn check_password_regex(password: &String) -> (ok: bool)
    ensures
        ok == is_valid_name(password@),
{
    match regex_is_match("^[0-9A-Za-z_.]+$", password.as_str()) {
        Some(matched) => matched,
        None => false,
    }
}

/// Checks a username against `^[0-9A-Za-z_.]+$`.
pub fn check_username_regex(password: &String) -> (ok: bool)
    ensures
        ok == is_valid_name(password@),
{
    match regex_is_match("^[0-9A-Za-z_.]+$", password.as_str()) {
        Some(matched) => matched,
        None => false,
    }
}

// -- Token Creation/Validation --

/// The number of characters of a session token.
pub const TOKEN_LENGTH: usize = 30;

/// The seconds of a day: how long a session token lives when no lifetime is given.
pub const SECONDS_IN_DAY: i64 = 86400;

/// When a token created at `now` expires: a day later, or `hours` hours later
/// (a lifetime of zero or fewer hours gives a token that is already expired).
/// A sum past the range of `i64` saturates.
pub open spec fn session_expiry(now: i64, hours: Option<i32>) -> i64 {
    let sum = match hours {
        None => now + SECONDS_IN_DAY,
        Some(h) => now + h * 3600,
    };
    if sum > i64::MAX { i64::MAX } else if sum < i64::MIN { i64::MIN } else { sum as i64 }
}

/// A token is current at `now` when it expires strictly after `now`.
pub open spec fn token_current(expiry: i64, now: i64) -> bool {
    expiry > now
}

/// A text that can serve as a session token: 30 characters, each a letter or a digit.
pub open spec fn is_session_token_text(text: Seq<char>) -> bool {
    text.len() == TOKEN_LENGTH && forall|i: int|
        0 <= i < text.len() ==> is_alphanumeric_char(#[trigger] text[i])
}

/// Computes when a session token created at `now` expires.
pub fn session_expiry_from(now: i64, expires_hours: Option<i32>) -> (expiry: i64)
    ensures
        expiry == session_expiry(now, expires_hours),
        expires_hours is None && now <= i64::MAX - SECONDS_IN_DAY ==> expiry == now + SECONDS_IN_DAY,
        expires_hours matches Some(h) ==> (i64::MIN <= now + h * 3600 <= i64::MAX ==> expiry == now + h * 3600),
{
    let delta: i64 = match expires_hours {
        None => SECONDS_IN_DAY,
        Some(h) => (h as i64) * 3600,
    };
    if delta > 0 && now > i64::MAX - delta {
        i64::MAX
    } else if delta < 0 && now < i64::MIN - delta {
        i64::MIN
    } else {
        now + delta
    }
}

/// A session token created without a lifetime is valid for exactly one day: it is
/// current at every moment before a day has passed since its creation, and at
/// none after. A token given a lifetime of `h > 0` hours is current for `h` hours.
pub proof fn lemma_token_lifetime(created: i64, hours: Option<i32>, now: i64)
    requires
        created >= 0,
        created <= i64::MAX - 0x8000_0000 * 3600,
    ensures
        hours is None ==> (token_current(session_expiry(created, hours), now) <==> now < created
            + SECONDS_IN_DAY),
        hours matches Some(h) ==> (token_current(session_expiry(created, hours), now) <==> now
            < created + h * 3600),
        hours matches Some(h) && h <= 0 ==> !token_current(session_expiry(created, hours), created),
        (hours is None || (hours matches Some(h) && h > 0)) ==> token_current(
            session_expiry(created, hours),
            created,
        ),
{
}

/// Whether a stored token is still valid at `now` (it has not expired).
pub fn check_token(token: &Token, now: i64) -> (valid: bool)
    ensures
        valid == token_current(token.epoch_expiry_date, now),
        valid <==> now < token.epoch_expiry_date,
{
    token.epoch_expiry_date > now
}

/// Draws a fresh random session token: 30 letters and digits.
pub fn generate_session_token() -> (token: String)
    ensures
        is_session_token_text(token@),
{
    random_alphanumeric(TOKEN_LENGTH)
}

/// The row to insert into the `tokens` table for a new session.
#[derive(Debug)]
pub struct NewSessionToken {
    pub user_id: i64,
    pub epoch_expiry_date: i64,
    pub token: String,
}

/// Creates a session token for a user at the clock reading `now`: a fresh random
/// token that expires a day after `now`, or `expires_hours` hours after `now` when
/// that is given.
pub fn session_token_at(user: &User, expires_hours: Option<i32>, now: &ClockReading) -> (row: NewSessionToken)
    ensures
        row.user_id == user.id,
        is_session_token_text(row.token@),
        row.epoch_expiry_date == session_expiry(now.secs(), expires_hours),
        expires_hours is None && now.secs() <= i64::MAX - SECONDS_IN_DAY ==> row.epoch_expiry_date
            == now.secs() + SECONDS_IN_DAY,
        expires_hours is None && now.secs() < i64::MAX ==> token_current(row.epoch_expiry_date, now.secs()),
{
    let epoch_expiry_date: i64 = session_expiry_from(now.value(), expires_hours);
    let token = generate_session_token();
    NewSessionToken { user_id: user.id, epoch_expiry_date, token }
}

/// Creates a session token for a user: a fresh random token that expires a day
/// after now, or `expires_hours` hours after now when that is given.
pub fn create_session_token(user: &User, expires_hours: Option<i32>) -> (row: NewSessionToken)
    ensures
        row.user_id == user.id,
        is_session_token_text(row.token@),
        exists|now: i64| now >= 0 && row.epoch_expiry_date == session_expiry(now, expires_hours),
{
    let now = read_clock();
    session_token_at(user, expires_hours, &now)
}

// -- User lookup --

/// Which query finds a user.
#[derive(Debug)]
pub enum UserLookup {
    ById(i64),
    ByToken(String),
    ByUsername(String),
}

/// The query that finds a user from the identifiers given: the id is preferred,
/// then the session token, then the username; with none of them the lookup is a
/// logic error.
pub open spec fn lookup_of(id: Option<i64>, username: Option<String>, token: Option<String>) -> Result<
    UserLookup,
    CustomErrors,
> {
    match id {
        Some(i) => Ok(UserLookup::ById(i)),
        None => match token {
            Some(t) => Ok(UserLookup::ByToken(t)),
            None => match username {
                Some(u) => Ok(UserLookup::ByUsername(u)),
                None => Err(CustomErrors::LogicError),
            },
        },
    }
}

/// Chooses how to find a user from one of its unique identifiers (preferring the id).
pub fn get_user(id: Option<i64>, username: Option<String>, token: Option<String>) -> (r: Result<
    UserLookup,
    CustomErrors,
>)
    ensures
        r == lookup_of(id, username, token),
        id matches Some(i) ==> r == Ok::<UserLookup, CustomErrors>(UserLookup::ById(i)),
        id is None ==> (token matches Some(t) ==> r == Ok::<UserLookup, CustomErrors>(UserLookup::ByToken(t))),
        id is None && token is None ==> (username matches Some(u) ==> r == Ok::<UserLookup, CustomErrors>(
            UserLookup::ByUsername(u),
        )),
        r is Err <==> id is None && token is None && username is None,
        r matches Err(e) ==> e is LogicError,
{
    match id {
        Some(i) => Ok(UserLookup::ById(i)),
        None => match token {
            Some(t) => Ok(UserLookup::ByToken(t)),
            None => match username {
                Some(u) => Ok(UserLookup::ByUsername(u)),
                None => Err(CustomErrors::LogicError),
            },
        },
    }
}

/// A user is looked up by id when one is given; else by the session token when
/// one is given, whatever the username; else by the username; only a lookup
/// given no identifier at all fails, as a logic error.
pub proof fn lemma_lookup_order(id: Option<i64>, username: Option<String>, token: Option<String>)
    ensures
        id matches Some(i) ==> lookup_of(id, username, token) == Ok::<UserLookup, CustomErrors>(
            UserLookup::ById(i),
        ),
        id is None ==> (token matches Some(t) ==> lookup_of(id, username, token) == Ok::<
            UserLookup,
            CustomErrors,
        >(UserLookup::ByToken(t))),
        id is None && token is None ==> (username matches Some(u) ==> lookup_of(id, username, token)
            == Ok::<UserLookup, CustomErrors>(UserLookup::ByUsername(u))),
        lookup_of(id, username, token) is Err <==> id is None && token is None && username is None,
        lookup_of(id, username, token) matches Err(e) ==> e is LogicError,
{
}

/// The user a session token belongs to, from the token row that the lookup by
/// token found: when the lookup failed (no such token, or any other error) the
/// lookup is a token error; else the user is looked up by that row's user id.
pub fn user_lookup_of_token(token_row: Result<Token, String>) -> (r: Result<UserLookup, CustomErrors>)
    ensures
        token_row matches Ok(t) ==> r == Ok::<UserLookup, CustomErrors>(UserLookup::ById(t.user_id)),
        token_row is Err ==> r matches Err(CustomErrors::TokenError),
{
    match token_row {
        Ok(t) => Ok(UserLookup::ById(t.user_id)),
        Err(_) => Err(CustomErrors::TokenError),
    }
}

/// The answer of a user lookup from the row that its query gave: the user, or a
/// database error that carries the database's description.
pub fn found_user(user_row: Result<User, String>) -> (r: Result<User, CustomErrors>)
    ensures
        user_row matches Ok(u) ==> r == Ok::<User, CustomErrors>(u),
        user_row matches Err(text) ==> r == Err::<User, CustomErrors>(CustomErrors::SQLXError(text)),
{
    match user_row {
        Ok(u) => Ok(u),
        Err(text) => Err(CustomErrors::SQLXError(text)),
    }
}

// -- Friends/Friend Requests --

/// The relationship that the rows found between the user and the target give:
/// a pending request wins over a friendship; the request is the user's own when
/// the user sent it.
pub open spec fn relationship_of(
    user_id: i64,
    request: Option<FriendRequest>,
    record: Option<FriendRecord>,
) -> RelationshipStatusEnum {
    match request {
        Some(r) => if r.sender_id == user_id {
            RelationshipStatusEnum::UserRequested(r)
        } else {
            RelationshipStatusEnum::TargetRequested(r)
        },
        None => match record {
            Some(f) => RelationshipStatusEnum::Friends(f),
            None => RelationshipStatusEnum::Unrelated,
        },
    }
}

/// The status carries the very row that the queries found: a request found makes
/// the status a request with that row, the user's own exactly when they sent it;
/// with no request, a friendship found makes the users friends with that row;
/// with neither, they are unrelated.
pub proof fn lemma_status_carries_found_row(
    user_id: i64,
    request: Option<FriendRequest>,
    record: Option<FriendRecord>,
)
    ensures
        request matches Some(q) ==> (relationship_of(user_id, request, record)
            == RelationshipStatusEnum::UserRequested(q) || relationship_of(user_id, request, record)
            == RelationshipStatusEnum::TargetRequested(q)),
        request matches Some(q) ==> (relationship_of(user_id, request, record) is UserRequested
            <==> q.sender_id == user_id),
        request is None ==> (record matches Some(f) ==> relationship_of(user_id, request, record)
            == RelationshipStatusEnum::Friends(f)),
        request is None && record is None ==> relationship_of(user_id, request, record)
            == RelationshipStatusEnum::Unrelated,
{
}

/// Refuses a relationship query of a user with themself.
pub fn check_not_self(user_id: i64, target_id: i64) -> (r: Result<(), CustomErrors>)
    ensures
        r is Ok <==> user_id != target_id,
        r matches Err(e) ==> e is RequestingSelf,
{
    if user_id == target_id {
        Err(CustomErrors::RequestingSelf)
    } else {
        Ok(())
    }
}

/// The status of the relationship between two users, from the friend request and
/// the friendship found between them (the friendship is only looked for when no
/// request was found). A user cannot be related to themself.
pub fn get_friend_status(
    user_id: i64,
    target_id: i64,
    request: Option<FriendRequest>,
    record: Option<FriendRecord>,
) -> (r: Result<RelationshipStatusEnum, CustomErrors>)
    ensures
        r is Err <==> user_id == target_id,
        r matches Err(e) ==> e is RequestingSelf,
        r matches Ok(status) ==> status == relationship_of(user_id, request, record),
        user_id != target_id ==> (request matches Some(q) ==> (q.sender_id == user_id ==> r
            == Ok::<RelationshipStatusEnum, CustomErrors>(RelationshipStatusEnum::UserRequested(q)))),
        user_id != target_id ==> (request matches Some(q) ==> (q.sender_id != user_id ==> r
            == Ok::<RelationshipStatusEnum, CustomErrors>(RelationshipStatusEnum::TargetRequested(q)))),
        user_id != target_id && request is None ==> (record matches Some(f) ==> r == Ok::<
            RelationshipStatusEnum,
            CustomErrors,
        >(RelationshipStatusEnum::Friends(f))),
        user_id != target_id && request is None && record is None ==> r == Ok::<
            RelationshipStatusEnum,
            CustomErrors,
        >(RelationshipStatusEnum::Unrelated),
{
    if user_id == target_id {
        return Err(CustomErrors::RequestingSelf);
    }
    match request {
        Some(r) => {
            if r.sender_id == user_id {
                Ok(RelationshipStatusEnum::UserRequested(r))
            } else {
                Ok(RelationshipStatusEnum::TargetRequested(r))
            }
        },
        None => match record {
            Some(f) => Ok(RelationshipStatusEnum::Friends(f)),
            None => Ok(RelationshipStatusEnum::Unrelated),
        },
    }
}

/// What adding a friend does to the tables.
#[derive(Debug, Clone, Copy)]
pub enum FriendAction {
    /// Insert a friend request from `sender_id` to `receiver_id`.
    SendRequest { sender_id: i64, receiver_id: i64 },
    /// Move the request from `sender_id` to `receiver_id` into the friends table
    /// and delete every request between the two.
    AcceptRequest { sender_id: i64, receiver_id: i64 },
    /// Change nothing; the relationship stays as it is.
    Keep(RelationshipStatusEnum),
}

/// The action that adding (or accepting) a friend takes from a relationship.
pub open spec fn add_action(user_id: i64, target_id: i64, status: RelationshipStatusEnum) -> FriendAction {
    match status {
        RelationshipStatusEnum::Unrelated => FriendAction::SendRequest {
            sender_id: user_id,
            receiver_id: target_id,
        },
        RelationshipStatusEnum::TargetRequested(_) => FriendAction::AcceptRequest {
            sender_id: target_id,
            receiver_id: user_id,
        },
        _ => FriendAction::Keep(status),
    }
}

/// Adding a friend sends a request from the user to the target when they are
/// unrelated; accepts the request when the target sent one (the friendship keeps
/// the target as its sender); and keeps every other relationship as it is.
pub proof fn lemma_add_action_cases(user_id: i64, target_id: i64, status: RelationshipStatusEnum)
    ensures
        status is Unrelated ==> add_action(user_id, target_id, status) == (FriendAction::SendRequest {
            sender_id: user_id,
            receiver_id: target_id,
        }),
        status is TargetRequested ==> add_action(user_id, target_id, status) == (FriendAction::AcceptRequest {
            sender_id: target_id,
            receiver_id: user_id,
        }),
        (status is Friends || status is UserRequested) ==> add_action(user_id, target_id, status)
            == FriendAction::Keep(status),
{
}

/// Decides what adding a friend does: with no relation a friend request is
/// sent; a request from the target is accepted; friends, or a request already
/// sent by the user, are left as they are.
/// **The users are not checked to exist.**
pub fn add_or_accept_friend(user_id: i64, target_id: i64, status: RelationshipStatusEnum) -> (action:
    FriendAction)
    ensures
        action == add_action(user_id, target_id, status),
        status is Unrelated ==> action == (FriendAction::SendRequest { sender_id: user_id, receiver_id: target_id }),
        status is TargetRequested ==> action == (FriendAction::AcceptRequest {
            sender_id: target_id,
            receiver_id: user_id,
        }),
        (status is Friends || status is UserRequested) ==> action == FriendAction::Keep(status),
{
    match status {
        RelationshipStatusEnum::Unrelated => FriendAction::SendRequest {
            sender_id: user_id,
            receiver_id: target_id,
        },
        RelationshipStatusEnum::TargetRequested(_) => FriendAction::AcceptRequest {
            sender_id: target_id,
            receiver_id: user_id,
        },
        _ => FriendAction::Keep(status),
    }
}

/// The row that carrying out an action of adding a friend gives back: the friend
/// request inserted, the friendship inserted, or nothing for an action that keeps
/// the relationship.
#[derive(Debug)]
pub enum ActionRow {
    Request(FriendRequest),
    Record(FriendRecord),
    Nothing,
}

/// The status that adding a friend answers with once its action is carried out:
/// the request that was sent, the friendship that was made, or the relationship
/// that was kept; `None` when the row given back is not of the action's kind.
pub open spec fn added_status_of(action: FriendAction, row: ActionRow) -> Option<RelationshipStatusEnum> {
    match (action, row) {
        (FriendAction::SendRequest { .. }, ActionRow::Request(r)) => Some(RelationshipStatusEnum::UserRequested(r)),
        (FriendAction::AcceptRequest { .. }, ActionRow::Record(f)) => Some(RelationshipStatusEnum::Friends(f)),
        (FriendAction::Keep(status), ActionRow::Nothing) => Some(status),
        _ => None,
    }
}

/// The status that adding a friend answers with once its action is carried out.
pub fn added_status(action: FriendAction, row: ActionRow) -> (s: Option<RelationshipStatusEnum>)
    ensures
        s == added_status_of(action, row),
{
    match action {
        FriendAction::SendRequest { .. } => match row {
            ActionRow::Request(r) => Some(RelationshipStatusEnum::UserRequested(r)),
            _ => None,
        },
        FriendAction::AcceptRequest { .. } => match row {
            ActionRow::Record(f) => Some(RelationshipStatusEnum::Friends(f)),
            _ => None,
        },
        FriendAction::Keep(status) => match row {
            ActionRow::Nothing => Some(status),
            _ => None,
        },
    }
}

/// The rows that removing a friend deletes: every friendship and every friend
/// request between the two users, in either direction.
#[derive(Debug, Clone, Copy)]
pub struct FriendRemoval {
    pub user_id: i64,
    pub target_id: i64,
}

/// Decides what removing a friend (or cancelling or declining a request) deletes.
/// **The users are not checked to exist.**
pub fn remove_or_cancel_friend(user_id: i64, target_id: i64) -> (removal: FriendRemoval)
    ensures
        removal.user_id == user_id,
        removal.target_id == target_id,
{
    FriendRemoval { user_id, target_id }
}

} // verus!

//! The friend routes: `friends/add`, `friends/remove` and `friends/status`.
use vstd::prelude::*;
use crate::structs::{FriendRecord, FriendRequest, RelationshipStatusEnum, User};
use crate::errors::{CustomErrors, error_message};

verus! {

/// The username of the user a friend route is about.
#[derive(Debug)]
pub struct UserQueryParameters {
    pub username: String,
}

/// The username a friend route is about: the body's when a body is sent, else
/// the query string's; `None` when neither is sent.
pub open spec fn requested_username_of(
    body: Option<UserQueryParameters>,
    query_string: Option<UserQueryParameters>,
) -> Option<Seq<char>> {
    match body {
        Some(b) => Some(b.username@),
        None => match query_string {
            Some(q) => Some(q.username@),
            None => None,
        },
    }
}

/// The username a friend route is about: taken from the body when one is sent,
/// else from the query string; `None` when neither is sent.
pub fn requested_username(
    body: &Option<UserQueryParameters>,
    query_string: &Option<UserQueryParameters>,
) -> (r: Option<String>)
    ensures
        r is Some <==> requested_username_of(*body, *query_string) is Some,
        r matches Some(name) ==> requested_username_of(*body, *query_string) == Some(name@),
{
    match body {
        Some(b) => Some(b.username.clone()),
        None => match query_string {
            Some(q) => Some(q.username.clone()),
            None => None,
        },
    }
}

/// The answer to a status request whose users were both found.
#[derive(Debug, Clone, Copy)]
pub enum FriendStatusReply {
    /// 200: the two are friends.
    Friends(FriendRecord),
    /// 200: a friend request is pending between the two.
    Requested(FriendRequest),
    /// 500: no friendship or request was found.
    NoRelation,
}

/// The reply that a relationship gives: a friendship, or a request in either
/// direction; with neither the route answers with an error.
pub open spec fn relation_reply_of(status: RelationshipStatusEnum) -> FriendStatusReply {
    match status {
        RelationshipStatusEnum::Friends(f) => FriendStatusReply::Friends(f),
        RelationshipStatusEnum::UserRequested(r) => FriendStatusReply::Requested(r),
        RelationshipStatusEnum::TargetRequested(r) => FriendStatusReply::Requested(r),
        RelationshipStatusEnum::Unrelated => FriendStatusReply::NoRelation,
    }
}

/// Answers a status request from the relationship found.
pub fn relation_reply(status: RelationshipStatusEnum) -> (reply: FriendStatusReply)
    ensures
        reply == relation_reply_of(status),
        status matches RelationshipStatusEnum::Friends(f) ==> reply == FriendStatusReply::Friends(f),
        status matches RelationshipStatusEnum::UserRequested(q) ==> reply == FriendStatusReply::Requested(q),
        status matches RelationshipStatusEnum::TargetRequested(q) ==> reply == FriendStatusReply::Requested(q),
        status is Unrelated ==> reply is NoRelation,
{
    match status {
        RelationshipStatusEnum::Friends(f) => FriendStatusReply::Friends(f),
        RelationshipStatusEnum::UserRequested(r) => FriendStatusReply::Requested(r),
        RelationshipStatusEnum::TargetRequested(r) => FriendStatusReply::Requested(r),
        RelationshipStatusEnum::Unrelated => FriendStatusReply::NoRelation,
    }
}

/// The texts of a status reply: its `response` and its `relation`.
pub open spec fn friend_status_texts(reply: FriendStatusReply) -> (Seq<char>, Option<Seq<char>>) {
    match reply {
        FriendStatusReply::Friends(_) => ("success"@, Some("friends"@)),
        FriendStatusReply::Requested(_) => ("friend request between the two users found"@, Some(
            "requested"@,
        )),
        FriendStatusReply::NoRelation => (
            "an error in fetching a friend request or friendship occured, this may be as \n            there is no relationship between you and the user requested"@,
            None,
        ),
    }
}

impl FriendStatusReply {
    /// The status code of the reply.
    pub fn status(&self) -> (code: u16)
        ensures
            code == (if *self is NoRelation { 500u16 } else { 200u16 }),
    {
        match self {
            FriendStatusReply::NoRelation => 500,
            _ => 200,
        }
    }

    /// The `response` text and the `relation` of the reply.
    pub fn texts(&self) -> (t: (String, Option<String>))
        ensures
            t.0@ == friend_status_texts(*self).0,
            t.1 is Some <==> friend_status_texts(*self).1 is Some,
            t.1 matches Some(r) ==> friend_status_texts(*self).1 == Some(r@),
    {
        match self {
            FriendStatusReply::Friends(_) => (String::from_str("success"), Some(String::from_str("friends"))),
            FriendStatusReply::Requested(_) => (
                String::from_str("friend request between the two users found"),
                Some(String::from_str("requested")),
            ),
            FriendStatusReply::NoRelation => (
                String::from_str(
                    "an error in fetching a friend request or friendship occured, this may be as \n            there is no relationship between you and the user requested",
                ),
                None,
            ),
        }
    }
}

/// The answer of the `friends/status` route.
#[derive(Debug, Clone, Copy)]
pub enum FriendStatusRouteReply {
    /// 400: neither the body nor the query string names a user.
    NoUsername,
    /// 418: no `auth` header was sent.
    NoToken,
    /// 400: the token leads to no user.
    TokenError,
    /// 400: no user has the name asked about.
    UnknownUser,
    /// 500: the relationship could not be found (a user asking about themself, or
    /// a database error).
    StatusUnavailable,
    /// The relationship found.
    Relation(FriendStatusReply),
}

/// Answers the `friends/status` route from what the request and the database gave:
/// the username asked about (body before query string) is looked at first, then
/// the `auth` header, then the user of the token (`requester`), then the user
/// asked about (`target`), then the relationship between them (`status`). A user
/// asking about themself is answered with 500.
pub fn friend_status(
    body: &Option<UserQueryParameters>,
    query_string: &Option<UserQueryParameters>,
    has_auth: bool,
    requester: Result<User, CustomErrors>,
    target: Result<User, CustomErrors>,
    status: Result<RelationshipStatusEnum, CustomErrors>,
) -> (reply: FriendStatusRouteReply)
    ensures
        requested_username_of(*body, *query_string) is None ==> reply matches FriendStatusRouteReply::NoUsername,
        requested_username_of(*body, *query_string) is Some ==> {
            if !has_auth {
                reply matches FriendStatusRouteReply::NoToken
            } else {
                match requester {
                    Err(_) => reply matches FriendStatusRouteReply::TokenError,
                    Ok(r) => match target {
                        Err(_) => reply matches FriendStatusRouteReply::UnknownUser,
                        Ok(t) => if r.id == t.id {
                            reply matches FriendStatusRouteReply::StatusUnavailable
                        } else {
                            match status {
                                Err(_) => reply matches FriendStatusRouteReply::StatusUnavailable,
                                Ok(s) => reply == FriendStatusRouteReply::Relation(relation_reply_of(s)),
                            }
                        },
                    },
                }
            }
        },
{
    let username = requested_username(body, query_string);
    if username.is_none() {
        return FriendStatusRouteReply::NoUsername;
    }
    if !has_auth {
        return FriendStatusRouteReply::NoToken;
    }
    match requester {
        Err(_) => FriendStatusRouteReply::TokenError,
        Ok(r) => match target {
            Err(_) => FriendStatusRouteReply::UnknownUser,
            Ok(t) => if r.id == t.id {
                FriendStatusRouteReply::StatusUnavailable
            } else {
                match status {
                    Err(_) => FriendStatusRouteReply::StatusUnavailable,
                    Ok(s) => FriendStatusRouteReply::Relation(relation_reply(s)),
                }
            },
        },
    }
}

/// The status code and `response` text of a route reply that is not a relationship.
pub open spec fn friend_status_route_answer(reply: FriendStatusRouteReply) -> (u16, Seq<char>) {
    match reply {
        FriendStatusRouteReply::NoUsername => (400, "no body or query string with username parameter provided"@),
        FriendStatusRouteReply::NoToken => (418, "token not present you melon"@),
        FriendStatusRouteReply::TokenError => (400, "token error"@),
        FriendStatusRouteReply::UnknownUser => (400, "user does not exist"@),
        FriendStatusRouteReply::StatusUnavailable => (500, "friend status could not be gathered"@),
        FriendStatusRouteReply::Relation(r) => (
            if r is NoRelation { 500 } else { 200 },
            friend_status_texts(r).0,
        ),
    }
}

impl FriendStatusRouteReply {
    /// The status code and the `response` text of the reply.
    pub fn answer(&self) -> (a: (u16, String))
        ensures
            a.0 == friend_status_route_answer(*self).0,
            a.1@ == friend_status_route_answer(*self).1,
    {
        match self {
            FriendStatusRouteReply::NoUsername => (
                400,
                String::from_str("no body or query string with username parameter provided"),
            ),
            FriendStatusRouteReply::NoToken => (418, String::from_str("token not present you melon")),
            FriendStatusRouteReply::TokenError => (400, String::from_str("token error")),
            FriendStatusRouteReply::UnknownUser => (400, String::from_str("user does not exist")),
            FriendStatusRouteReply::StatusUnavailable => (
                500,
                String::from_str("friend status could not be gathered"),
            ),
            FriendStatusRouteReply::Relation(r) => (r.status(), r.texts().0),
        }
    }
}

/// The answer to adding a friend, once both users were found.
#[derive(Debug)]
pub enum AddFriendReply {
    /// 202: the relationship after the action.
    Success(RelationshipStatusEnum),
    /// 200: the action failed; the text says why.
    Failed(String),
}

/// Answers an add request from what adding the friend gave.
pub fn add_friend_reply(result: Result<RelationshipStatusEnum, CustomErrors>) -> (reply: AddFriendReply)
    ensures
        result matches Ok(s) ==> reply == AddFriendReply::Success(s),
        result matches Err(e) ==> (reply matches AddFriendReply::Failed(text) && text@ == error_message(e)),
{
    match result {
        Ok(s) => AddFriendReply::Success(s),
        Err(e) => AddFriendReply::Failed(e.message()),
    }
}

impl AddFriendReply {
    /// The status code of the reply.
    pub fn status(&self) -> (code: u16)
        ensures
            code == (if *self is Success { 202u16 } else { 200u16 }),
    {
        match self {
            AddFriendReply::Success(_) => 202,
            AddFriendReply::Failed(_) => 200,
        }
    }
}

/// The answer of the `friends/add` route.
#[derive(Debug)]
pub enum AddFriendRouteReply {
    /// 418: no `auth` header was sent.
    NoToken,
    /// 400: neither the body nor the query string names a user.
    NoUsername,
    /// 400: the token leads to no user.
    BadToken,
    /// 400: no user has the name asked for.
    UnknownUser,
    /// The outcome of adding the friend.
    Added(AddFriendReply),
}

/// Answers the `friends/add` route from what the request and the database gave:
/// the `auth` header is looked at first, then the username (body before query
/// string), then the user of the token (`requester`), then the user named
/// (`target`), then what adding the friend gave (`result`). A user adding
/// themself is answered as a failed action that is refused as requesting oneself.
pub fn add_or_accept_friend_route(
    has_auth: bool,
    body: &Option<UserQueryParameters>,
    query_string: &Option<UserQueryParameters>,
    requester: Result<User, CustomErrors>,
    target: Result<User, CustomErrors>,
    result: Result<RelationshipStatusEnum, CustomErrors>,
) -> (reply: AddFriendRouteReply)
    ensures
        !has_auth ==> reply matches AddFriendRouteReply::NoToken,
        has_auth && requested_username_of(*body, *query_string) is None ==> reply matches AddFriendRouteReply::NoUsername,
        has_auth && requested_username_of(*body, *query_string) is Some ==> match requester {
            Err(_) => reply matches AddFriendRouteReply::BadToken,
            Ok(r) => match target {
                Err(_) => reply matches AddFriendRouteReply::UnknownUser,
                Ok(t) => if r.id == t.id {
                    reply matches AddFriendRouteReply::Added(AddFriendReply::Failed(text)) && text@
                        == error_message(CustomErrors::RequestingSelf)
                } else {
                    match result {
                        Ok(s) => reply == AddFriendRouteReply::Added(AddFriendReply::Success(s)),
                        Err(e) => reply matches AddFriendRouteReply::Added(AddFriendReply::Failed(text))
                            && text@ == error_message(e),
                    }
                },
            },
        },
{
    if !has_auth {
        return AddFriendRouteReply::NoToken;
    }
    let username = requested_username(body, query_string);
    if username.is_none() {
        return AddFriendRouteReply::NoUsername;
    }
    match requester {
        Err(_) => AddFriendRouteReply::BadToken,
        Ok(r) => match target {
            Err(_) => AddFriendRouteReply::UnknownUser,
            Ok(t) => if r.id == t.id {
                AddFriendRouteReply::Added(add_friend_reply(Err(CustomErrors::RequestingSelf)))
            } else {
                AddFriendRouteReply::Added(add_friend_reply(result))
            },
        },
    }
}

/// The status code and `response` text of an add reply that is not an outcome.
pub open spec fn add_route_answer(reply: AddFriendRouteReply) -> (u16, Seq<char>) {
    match reply {
        AddFriendRouteReply::NoToken => (418, "token not present you melon"@),
        AddFriendRouteReply::NoUsername => (400, "no body or query string with username parameter provided"@),
        AddFriendRouteReply::BadToken => (400, "bad token"@),
        AddFriendRouteReply::UnknownUser => (400, "the user being requested does not exist"@),
        AddFriendRouteReply::Added(AddFriendReply::Success(_)) => (202, "success"@),
        AddFriendRouteReply::Added(AddFriendReply::Failed(_)) => (200, "error"@),
    }
}

impl AddFriendRouteReply {
    /// The status code and the `response` text of the reply.
    pub fn answer(&self) -> (a: (u16, String))
        ensures
            a.0 == add_route_answer(*self).0,
            a.1@ == add_route_answer(*self).1,
    {
        match self {
            AddFriendRouteReply::NoToken => (418, String::from_str("token not present you melon")),
            AddFriendRouteReply::NoUsername => (
                400,
                String::from_str("no body or query string with username parameter provided"),
            ),
            AddFriendRouteReply::BadToken => (400, String::from_str("bad token")),
            AddFriendRouteReply::UnknownUser => (400, String::from_str("the user being requested does not exist")),
            AddFriendRouteReply::Added(AddFriendReply::Success(_)) => (202, String::from_str("success")),
            AddFriendRouteReply::Added(AddFriendReply::Failed(_)) => (200, String::from_str("error")),
        }
    }
}

} // verus!

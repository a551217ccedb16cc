use rust_backend::answer::{Answer, Body, Field};
use rust_backend::errors::{answer_error, CustomErrors};
use rust_backend::models::account::{
    add_date_of_birth, check_signin_password, create_user, date_of_birth_answer, delete_account,
    delete_account_done, password_update_answer, signin, signin_attempt, signup_answer, update_password,
    DateOfBirthRejection, DeleteAccountParams, DeleteAccountStep, PasswordUpdateRejection, SigninReply,
    SignupRejection, SignupUser, UpdateDOBParams, UpdatePasswordRequestParams, test_token,
};
use rust_backend::models::achievements::{
    achievement_image_filename, admin_create_achievement_end, admin_create_achievement_field,
    new_achievement_form, FieldStep, FormEnd,
};
use rust_backend::models::friends::{
    add_friend_reply, add_or_accept_friend_route, friend_status, relation_reply, requested_username,
    AddFriendReply, AddFriendRouteReply, FriendStatusReply, FriendStatusRouteReply, UserQueryParameters,
};
use rust_backend::models::global_leaderboard;
use rust_backend::models::leaderboard::{
    leaderboard, leaderboard_access, order_condition, total_records_custom, LeaderboardQueryParams,
    LeaderboardRejection,
};
use rust_backend::models::old_leaderboard::{
    leaderboard_old, LeaderboardQueryStringParams, OldLeaderboardRejection, PageWindow,
};
use rust_backend::models::scores;
use rust_backend::models::signout::{signout, signout_all, signout_all_answer, signout_answer};
use rust_backend::models::upload_score::{upload_answer, upload_score, UploadRejection, UploadScoreRequestParams};
use rust_backend::models::utilities::{check_user, is_user_answer, CheckUserParameters};
use rust_backend::models::web_leaderboard::{Leaderboard_Web_QueryStringParams, LeaderboardWebQueryStringParams};
use rust_backend::structs::{Date, FriendRecord, FriendRequest, GamemodeEnum, OrderByEnum, RelationshipStatusEnum, User, VisibilityEnum};

fn field_text(f: &Field) -> String {
    match f {
        Field::Text(t) => format!("{:?}", t),
        Field::Integer(n) => n.to_string(),
        Field::Count(n) => n.to_string(),
        Field::Flag(b) => b.to_string(),
    }
}

fn object_text(fields: &[(String, Field)]) -> String {
    let parts: Vec<String> = fields.iter().map(|(k, v)| format!("{:?}: {}", k, field_text(v))).collect();
    format!("{{{}}}", parts.join(", "))
}

/// The status of an answer and its body written out as JSON.
fn shape(a: &Answer) -> (u16, String) {
    let body = match &a.body {
        Body::Text(t) => format!("{:?}", t),
        Body::Object(fields) => object_text(fields),
        Body::Nested(key, fields) => format!("{{{:?}: {}}}", key, object_text(fields)),
    };
    (a.status, body)
}

fn expect(status: u16, body: &str) -> (u16, String) {
    (status, body.to_string())
}

fn params(page_length: i32, visibility: VisibilityEnum, game_mode: GamemodeEnum) -> LeaderboardQueryParams {
    LeaderboardQueryParams {
        visibility,
        uploaded_after: 5,
        uploaded_before: 500,
        game_mode,
        order_by: OrderByEnum::MostRecent,
        order_ascending: true,
        page_length,
        page_offset: 20,
    }
}

#[test]
fn leaderboard_access_policy() {
    assert!(leaderboard_access(10, VisibilityEnum::Public, GamemodeEnum::Default, None).is_ok());
    assert!(matches!(leaderboard_access(11, VisibilityEnum::Public, GamemodeEnum::Default, None), Err(LeaderboardRejection::AnonymousTooMany)));
    assert!(matches!(leaderboard_access(5, VisibilityEnum::Friends, GamemodeEnum::Default, None), Err(LeaderboardRejection::AnonymousNotPublic)));
    assert!(matches!(leaderboard_access(5, VisibilityEnum::Public, GamemodeEnum::Hardcore, None), Err(LeaderboardRejection::Error(CustomErrors::Unimplemented))));
    assert!(matches!(leaderboard_access(5, VisibilityEnum::Public, GamemodeEnum::Default, Some(false)), Err(LeaderboardRejection::Error(CustomErrors::BadToken))));
    assert!(leaderboard_access(50, VisibilityEnum::Public, GamemodeEnum::Default, Some(true)).is_ok());
    assert!(matches!(leaderboard_access(51, VisibilityEnum::Public, GamemodeEnum::Default, Some(true)), Err(LeaderboardRejection::Error(CustomErrors::RequestAmount))));
    assert!(matches!(leaderboard_access(20, VisibilityEnum::Own, GamemodeEnum::Default, Some(true)), Err(LeaderboardRejection::Error(CustomErrors::Unimplemented))));
    assert_eq!(LeaderboardRejection::AnonymousTooMany.status(), 400);
    assert_eq!(LeaderboardRejection::Error(CustomErrors::Unimplemented).status(), 501);
}

#[test]
fn leaderboard_refusal_answers() {
    assert_eq!(
        shape(&LeaderboardRejection::AnonymousTooMany.answer()),
        expect(400, r#"{"response": "anonymous/non-signed in users can only request 10 records at a time"}"#)
    );
    assert_eq!(
        shape(&LeaderboardRejection::AnonymousNotPublic.answer()),
        expect(400, r#"{"response": "non-signed in users cannot see their own/friends records becuase they have none"}"#)
    );
    assert_eq!(
        shape(&LeaderboardRejection::Error(CustomErrors::RequestAmount).answer()),
        expect(400, r#"{"response": "more records were requested than are allowed"}"#)
    );
    let refused = leaderboard(&params(11, VisibilityEnum::Public, GamemodeEnum::Default), None).unwrap_err();
    assert_eq!(shape(&refused.answer()).0, 400);
}

#[test]
fn leaderboard_query_carries_filters() {
    let q = leaderboard(&params(10, VisibilityEnum::Public, GamemodeEnum::Default), None).unwrap();
    assert_eq!(q.game_mode, "default");
    assert_eq!((q.uploaded_after, q.uploaded_before, q.page_length, q.page_offset), (5, 500, 10, 20));
    assert_eq!(q.order_condition, "most_recent ASC");
    assert_eq!(
        (q.total.game_mode.as_str(), q.total.visibility.as_str(), q.total.uploaded_after, q.total.uploaded_before),
        ("default", "public", 5, 500)
    );
    assert_eq!(order_condition(OrderByEnum::Score, false), "score DESC");
    assert!(leaderboard(&params(11, VisibilityEnum::Public, GamemodeEnum::Default), None).is_err());
    let d = LeaderboardQueryParams::default();
    assert_eq!((d.page_length, d.page_offset, d.uploaded_after, d.order_ascending), (10, 0, 0, false));
    assert!(d.visibility == VisibilityEnum::Public && d.game_mode == GamemodeEnum::Default && d.order_by == OrderByEnum::Score);
    assert!(d.uploaded_before > 1_600_000_000);
}

#[test]
fn record_count_requires_a_token() {
    let p = params(10, VisibilityEnum::Friends, GamemodeEnum::Hardcore);
    assert!(matches!(total_records_custom(&p, false), Err(CustomErrors::RequiresAuthorisation)));
    let q = total_records_custom(&p, true).unwrap();
    assert_eq!((q.game_mode.as_str(), q.visibility.as_str(), q.uploaded_after, q.uploaded_before), ("hardcore", "friends", 5, 500));
}

#[test]
fn old_leaderboard_limits() {
    let p = |length: usize, offset: usize| LeaderboardQueryStringParams { length, offset };
    assert_eq!(leaderboard_old(&p(10, 0), None), Ok(PageWindow { limit: 10, offset: 0 }));
    assert_eq!(leaderboard_old(&p(11, 0), None), Err(OldLeaderboardRejection::AnonymousTooMany));
    assert_eq!(leaderboard_old(&p(50, 3), Some(true)), Ok(PageWindow { limit: 50, offset: 3 }));
    assert_eq!(leaderboard_old(&p(51, 0), Some(true)), Err(OldLeaderboardRejection::SignedInTooMany));
    assert_eq!(leaderboard_old(&p(5, 0), Some(false)), Err(OldLeaderboardRejection::InvalidToken));
    assert_eq!(leaderboard_old(&p(0, 0), None), Err(OldLeaderboardRejection::BadWindow));
    assert_eq!(leaderboard_old(&p(5, usize::MAX), None), Err(OldLeaderboardRejection::BadWindow));
    assert_eq!(leaderboard_old(&p((1usize << 32) + 5, 0), None), Ok(PageWindow { limit: 5, offset: 0 }));
    assert_eq!(OldLeaderboardRejection::BadWindow.message(), "the length cannot be 0 or less, and/or the offset cannot be less than zero");
    assert_eq!(
        shape(&OldLeaderboardRejection::AnonymousTooMany.answer()),
        expect(400, r#"{"response": "anonymous users can only request 10 records at a time"}"#)
    );
    assert_eq!(
        shape(&leaderboard_old(&p(0, 3), None).unwrap_err().answer()),
        expect(400, r#"{"response": "the length cannot be 0 or less, and/or the offset cannot be less than zero"}"#)
    );
    let d = LeaderboardQueryStringParams::default();
    assert_eq!((d.length, d.offset), (10, 0));
}

#[test]
fn global_leaderboard_refuses_zero_length() {
    let p = |length: usize, offset: usize| global_leaderboard::LeaderboardQueryStringParams { length, offset };
    let refused = global_leaderboard::leaderboard(&p(0, 0)).unwrap_err();
    assert_eq!(shape(&refused), expect(400, r#""length (number of records requested) cannot be 0""#));
    assert!(global_leaderboard::leaderboard(&p(1usize << 32, 0)).is_err());
    assert_eq!(global_leaderboard::leaderboard(&p(25, 4)).unwrap(), PageWindow { limit: 25, offset: 4 });
    let d = global_leaderboard::LeaderboardQueryStringParams::default();
    assert_eq!((d.length, d.offset), (10, 0));
}

#[test]
fn public_scores_route() {
    let d = scores::LeaderboardQueryStringParams::default();
    assert_eq!((d.page_length, d.page_offset, d.order_ascending), (10, 0, false));
    assert!(scores::leaderboard_web(&d, None).is_ok());
    let p = scores::LeaderboardQueryStringParams { page_length: 30, ..d };
    assert!(matches!(scores::leaderboard_web(&p, None), Err(LeaderboardRejection::AnonymousTooMany)));
    assert!(scores::leaderboard_web(&p, Some(true)).is_ok());
}

#[test]
fn web_leaderboard_defaults() {
    let a = LeaderboardWebQueryStringParams::default();
    let b = Leaderboard_Web_QueryStringParams::default();
    assert_eq!((a.length, a.offset, b.length, b.offset), (10, 0, 10, 0));
}

fn signup(username: &str, password: &str) -> SignupUser {
    SignupUser { username: username.to_string(), email: "e@x.org".to_string(), password: password.to_string() }
}

#[test]
fn signup_checks_and_hashes() {
    assert_eq!(create_user(&signup("bad name", "longenough"), false).unwrap_err(), SignupRejection::InvalidUsername);
    assert_eq!(create_user(&signup("", "longenough"), false).unwrap_err(), SignupRejection::InvalidUsername);
    assert_eq!(create_user(&signup("good", "1234567"), false).unwrap_err(), SignupRejection::PasswordTooShort);
    // four two-byte characters make eight bytes, which is long enough
    let row = create_user(&signup("good.name", "éééé"), false).unwrap();
    assert_eq!(row.username, "good.name");
    assert_eq!(row.email, "e@x.org");
    assert_eq!(row.password_hash.len(), 60);
    assert!(row.password_hash.starts_with("$2b$08$"));
    assert_ne!(row.password_hash, "éééé");
    // an existing name is refused once the request is otherwise valid
    assert_eq!(create_user(&signup("good.name", "longenough"), true).unwrap_err(), SignupRejection::UserExists);
    assert_eq!(create_user(&signup("bad name", "longenough"), true).unwrap_err(), SignupRejection::InvalidUsername);
    assert_eq!(SignupRejection::PasswordTooShort.status(), 400);
    assert_eq!(SignupRejection::UserExists.message(), "a user with that name already exists");
}

#[test]
fn signup_password_signs_in() {
    let row = create_user(&signup("carol", "password1"), false).unwrap();
    assert_eq!(check_signin_password(&"password1".to_string(), &row.password_hash), Some(true));
    assert_eq!(check_signin_password(&"password2".to_string(), &row.password_hash), Some(false));
    assert_eq!(check_signin_password(&"password1".to_string(), &"not a hash".to_string()), None);
}

fn account_user(id: i64, name: &str, hash: &str) -> User {
    User { id, username: name.to_string(), email: String::new(), password_hash: hash.to_string(), epoch_signup_time: 0 }
}

#[test]
fn signin_hands_out_token_only_for_right_password() {
    let row = create_user(&signup("erin", "password1"), false).unwrap();
    let u = account_user(11, "erin", &row.password_hash);
    assert!(matches!(signin_attempt(&"password1".to_string(), Err(CustomErrors::TokenError)), Err(SigninReply::UnknownUser)));
    assert!(matches!(signin_attempt(&"password1".to_string(), Ok(account_user(11, "erin", "nonsense"))), Err(SigninReply::StoredHashInvalid)));
    let attempt = signin_attempt(&"password1".to_string(), Ok(account_user(11, "erin", &row.password_hash))).unwrap();
    assert!(attempt.pass_correct);
    assert_eq!(attempt.token.user_id, 11);
    assert_eq!(attempt.token.token.len(), 30);
    let token = attempt.token.token.clone();
    assert!(matches!(signin(&attempt, Ok(())), SigninReply::Token(t) if t == token));
    assert!(matches!(signin(&attempt, Err("db down".to_string())), SigninReply::TokenError(e) if e == "db down"));
    let wrong = signin_attempt(&"password2".to_string(), Ok(u)).unwrap();
    assert!(!wrong.pass_correct);
    assert!(matches!(signin(&wrong, Ok(())), SigninReply::Incorrect));
}

#[test]
fn signin_answers() {
    assert_eq!(shape(&SigninReply::UnknownUser.answer().unwrap()), expect(400, r#"{"response": "user does not exist"}"#));
    assert_eq!(
        shape(&SigninReply::Incorrect.answer().unwrap()),
        expect(400, r#"{"ERROR": "PASSWORD OR USERNAME INCORRECT"}"#)
    );
    assert_eq!(shape(&SigninReply::Token("abc123".to_string()).answer().unwrap()), expect(200, r#"{"token": "abc123"}"#));
    assert_eq!(
        shape(&SigninReply::TokenError("db down".to_string()).answer().unwrap()),
        expect(400, r#"{"response": "error", "details": "db down"}"#)
    );
    assert!(SigninReply::StoredHashInvalid.answer().is_none());
}

#[test]
fn signup_answers() {
    let row = create_user(&signup("frank", "password1"), false);
    let time = row.as_ref().unwrap().epoch_signup_time;
    assert_eq!(
        shape(&signup_answer(&row)),
        (200, format!(r#"{{"signup": true, "response": "Success", "username": "frank", "timestamp": {}}}"#, time))
    );
    let (status, body) = shape(&signup_answer(&Err(SignupRejection::UserExists)));
    assert_eq!(status, 400);
    assert!(body.starts_with(r#"{"signup": false, "response": "a user with that name already exists", "timestamp": "#));
    assert_eq!(shape(&signup_answer(&Err(SignupRejection::HashFailed))).0, 500);
}

#[test]
fn delete_account_needs_matching_username() {
    let u = User { id: 4, username: "dave".to_string(), email: String::new(), password_hash: String::new(), epoch_signup_time: 0 };
    let p = |n: &str| DeleteAccountParams { username: n.to_string() };
    let same = || User { id: 4, username: "dave".to_string(), email: String::new(), password_hash: String::new(), epoch_signup_time: 0 };
    assert!(matches!(delete_account(false, Ok(same()), &p("dave")), DeleteAccountStep::NoToken));
    assert!(matches!(delete_account(true, Err(CustomErrors::TokenError), &p("dave")), DeleteAccountStep::LookupFailed(CustomErrors::TokenError)));
    assert!(matches!(delete_account(true, Ok(same()), &p("dave")), DeleteAccountStep::Delete(4)));
    assert!(matches!(delete_account(true, Ok(u), &p("Dave")), DeleteAccountStep::UsernameMismatch));
    assert_eq!(
        shape(&delete_account_done(true)),
        expect(500, r#"{"response": "an error occured which resulted in the user still existing"}"#)
    );
    assert_eq!(shape(&delete_account_done(false)), expect(200, r#"{"response": "account deleted successfully"}"#));
    assert_eq!(
        shape(&delete_account(false, Ok(same()), &p("dave")).answer().unwrap()),
        expect(418, r#"{"response": "token not present you melon"}"#)
    );
    assert_eq!(
        shape(&delete_account(true, Ok(same()), &p("alice")).answer().unwrap()),
        expect(400, r#"{"response": "username does not match user associated with token"}"#)
    );
    assert_eq!(
        shape(&delete_account(true, Err(CustomErrors::BadToken), &p("dave")).answer().unwrap()),
        expect(400, r#"{"response": "an access token was missing or invalid"}"#)
    );
    assert!(delete_account(true, Ok(same()), &p("dave")).answer().is_none());
}

#[test]
fn date_of_birth_must_exist() {
    let p = |d: &str| UpdateDOBParams { token: "t".to_string(), date: d.to_string() };
    let u = || Ok(named(6, "gina"));
    assert_eq!(add_date_of_birth(u(), &p("2000-01-31")), Ok((6, Date { year: 2000, month: 1, day: 31 })));
    assert_eq!(add_date_of_birth(u(), &p("2000-2-3")), Ok((6, Date { year: 2000, month: 2, day: 3 })));
    assert_eq!(add_date_of_birth(u(), &p("2001-02-29")), Err(DateOfBirthRejection::Impossible));
    assert_eq!(add_date_of_birth(u(), &p("yesterday")), Err(DateOfBirthRejection::Impossible));
    assert_eq!(add_date_of_birth(Err(CustomErrors::BadToken), &p("2000-01-31")), Err(DateOfBirthRejection::InvalidToken));
    assert_eq!(shape(&date_of_birth_answer(&add_date_of_birth(u(), &p("2000-2-3")))), expect(200, r#""DATE OF BIRTH UPDATED""#));
    assert_eq!(shape(&date_of_birth_answer(&Err(DateOfBirthRejection::Impossible))), expect(400, r#""DATE OF BIRTH IMPOSSIBLE""#));
    assert_eq!(shape(&date_of_birth_answer(&Err(DateOfBirthRejection::InvalidToken))), expect(400, r#""invalid token""#));
}

#[test]
fn password_update_checks_and_hashes() {
    let p = |pw: &str| UpdatePasswordRequestParams { token: "t".to_string(), password: pw.to_string() };
    let u = || Ok(named(8, "hugo"));
    assert_eq!(update_password(u(), &p("no spaces")), Err(PasswordUpdateRejection::InvalidPassword));
    assert_eq!(update_password(Err(CustomErrors::BadToken), &p("new_pass.1")), Err(PasswordUpdateRejection::BadToken));
    let (id, h) = update_password(u(), &p("new_pass.1")).unwrap();
    assert_eq!(id, 8);
    assert_eq!(shape(&password_update_answer(&Ok((id, h.clone())))), expect(200, r#"{"response": "PSSWD UPDATE NOT FIN"}"#));
    assert_eq!(
        shape(&password_update_answer(&Err(PasswordUpdateRejection::InvalidPassword))),
        expect(400, r#"{"response": "BAD TOKEN"}"#)
    );
    assert_eq!(
        shape(&password_update_answer(&Err(PasswordUpdateRejection::BadToken))),
        expect(400, r#"{"response": "BAD TOKEN"}"#)
    );
    assert_eq!(
        shape(&password_update_answer(&Err(PasswordUpdateRejection::HashFailed))),
        expect(500, r#"{"response": "the password could not be hashed"}"#)
    );
    assert!(h.starts_with("$2b$08$"));
    assert_ne!(h, "new_pass.1");
    assert_eq!(check_signin_password(&"new_pass.1".to_string(), &h), Some(true));
}

fn req() -> FriendRequest {
    FriendRequest { id: 3, sender_id: 1, receiver_id: 2, creation_timestamp: 10 }
}

fn named(id: i64, name: &str) -> User {
    User { id, username: name.to_string(), email: String::new(), password_hash: String::new(), epoch_signup_time: 0 }
}

#[test]
fn friend_route_replies() {
    let q = |u: &str| Some(UserQueryParameters { username: u.to_string() });
    assert_eq!(requested_username(&q("body"), &q("query")), Some("body".to_string()));
    assert_eq!(requested_username(&None, &q("query")), Some("query".to_string()));
    assert_eq!(requested_username(&None, &None), None);

    let f = FriendRecord { id: 1, sender_id: 1, receiver_id: 2, creation_timestamp: 1, acceptance_timestamp: 2 };
    let r = relation_reply(RelationshipStatusEnum::Friends(f));
    assert!(matches!(r, FriendStatusReply::Friends(_)));
    assert_eq!(r.status(), 200);
    assert_eq!(r.texts(), ("success".to_string(), Some("friends".to_string())));
    let r = relation_reply(RelationshipStatusEnum::TargetRequested(req()));
    assert_eq!(r.texts(), ("friend request between the two users found".to_string(), Some("requested".to_string())));
    let r = relation_reply(RelationshipStatusEnum::Unrelated);
    assert_eq!(r.status(), 500);
    assert!(r.texts().0.starts_with("an error in fetching a friend request or friendship occured"));
    assert_eq!(r.texts().1, None);

    let ok = add_friend_reply(Ok(RelationshipStatusEnum::UserRequested(req())));
    assert_eq!(ok.status(), 202);
    let failed = add_friend_reply(Err(CustomErrors::RequestingSelf));
    assert!(matches!(&failed, AddFriendReply::Failed(t) if t == "the user is requesting themself where that is not possible"));
    assert_eq!(failed.status(), 200);
}

#[test]
fn friend_status_route_sequence() {
    let q = |u: &str| Some(UserQueryParameters { username: u.to_string() });
    let unrelated = || Ok(RelationshipStatusEnum::Unrelated);
    let r = friend_status(&None, &None, false, Ok(named(1, "a")), Ok(named(2, "b")), unrelated());
    assert!(matches!(r, FriendStatusRouteReply::NoUsername));
    assert_eq!(r.answer(), (400, "no body or query string with username parameter provided".to_string()));
    let r = friend_status(&q("b"), &None, false, Ok(named(1, "a")), Ok(named(2, "b")), unrelated());
    assert_eq!(r.answer(), (418, "token not present you melon".to_string()));
    let r = friend_status(&None, &q("b"), true, Err(CustomErrors::TokenError), Ok(named(2, "b")), unrelated());
    assert_eq!(r.answer(), (400, "token error".to_string()));
    let r = friend_status(&q("b"), &None, true, Ok(named(1, "a")), Err(CustomErrors::LogicError), unrelated());
    assert_eq!(r.answer(), (400, "user does not exist".to_string()));
    let r = friend_status(&q("a"), &None, true, Ok(named(1, "a")), Ok(named(1, "a")), unrelated());
    assert_eq!(r.answer(), (500, "friend status could not be gathered".to_string()));
    let r = friend_status(&q("b"), &q("c"), true, Ok(named(1, "a")), Ok(named(2, "b")), Ok(RelationshipStatusEnum::UserRequested(req())));
    assert!(matches!(r, FriendStatusRouteReply::Relation(FriendStatusReply::Requested(_))));
    assert_eq!(r.answer(), (200, "friend request between the two users found".to_string()));
}

#[test]
fn add_friend_route_sequence() {
    let q = |u: &str| Some(UserQueryParameters { username: u.to_string() });
    let sent = || Ok(RelationshipStatusEnum::UserRequested(req()));
    let r = add_or_accept_friend_route(false, &None, &None, Ok(named(1, "a")), Ok(named(2, "b")), sent());
    assert_eq!(r.answer(), (418, "token not present you melon".to_string()));
    let r = add_or_accept_friend_route(true, &None, &None, Ok(named(1, "a")), Ok(named(2, "b")), sent());
    assert_eq!(r.answer(), (400, "no body or query string with username parameter provided".to_string()));
    let r = add_or_accept_friend_route(true, &None, &q("b"), Err(CustomErrors::TokenError), Ok(named(2, "b")), sent());
    assert_eq!(r.answer(), (400, "bad token".to_string()));
    let r = add_or_accept_friend_route(true, &q("b"), &None, Ok(named(1, "a")), Err(CustomErrors::LogicError), sent());
    assert_eq!(r.answer(), (400, "the user being requested does not exist".to_string()));
    let r = add_or_accept_friend_route(true, &q("a"), &None, Ok(named(1, "a")), Ok(named(1, "a")), sent());
    assert!(matches!(&r, AddFriendRouteReply::Added(AddFriendReply::Failed(t)) if t == "the user is requesting themself where that is not possible"));
    assert_eq!(r.answer(), (200, "error".to_string()));
    let r = add_or_accept_friend_route(true, &q("b"), &None, Ok(named(1, "a")), Ok(named(2, "b")), sent());
    assert!(matches!(r, AddFriendRouteReply::Added(AddFriendReply::Success(RelationshipStatusEnum::UserRequested(_)))));
    assert_eq!(r.answer(), (202, "success".to_string()));
}

#[test]
fn check_user_needs_a_username() {
    assert_eq!(check_user(true, Some(CheckUserParameters { username: "x".to_string() })).unwrap(), "x");
    assert_eq!(shape(&check_user(true, None).unwrap_err()), expect(400, r#"{"rsponse": "the following params are missing: username"}"#));
    assert_eq!(
        shape(&check_user(false, Some(CheckUserParameters { username: "x".to_string() })).unwrap_err()),
        expect(418, r#"{"response": "token not present you melon"}"#)
    );
    assert_eq!(shape(&is_user_answer(true)), expect(200, r#"{"data": {"isUser": true}}"#));
    assert_eq!(shape(&is_user_answer(false)), expect(200, r#"{"data": {"isUser": false}}"#));
}

#[test]
fn scores_are_uploaded_once() {
    let r = || UploadScoreRequestParams {
        token: "t".to_string(),
        score: 1200,
        gamemode: "default".to_string(),
        epoch_game_start_time: 100,
        epoch_game_end_time: 200,
    };
    assert_eq!(upload_score(Ok(named(1, "a")), r(), true).unwrap_err(), UploadRejection::AlreadyUploaded);
    assert_eq!(upload_score(Err(CustomErrors::BadToken), r(), false).unwrap_err(), UploadRejection::BadToken);
    let created = upload_score(Ok(named(1, "a")), r(), false);
    assert_eq!(shape(&upload_answer(&created)), expect(200, r#""score record creation successful""#));
    assert_eq!(shape(&upload_answer(&Err(UploadRejection::AlreadyUploaded))), expect(208, r#""this score has already been uploaded""#));
    assert_eq!(shape(&upload_answer(&Err(UploadRejection::BadToken))), expect(400, r#""bad token""#));
    let row = created.unwrap();
    assert_eq!((row.user_id, row.score, row.game_mode.as_str(), row.epoch_game_start_time, row.epoch_game_end_time), (1, 1200, "default", 100, 200));
    assert!(row.epoch_upload_time > 1_600_000_000);
}

#[test]
fn achievement_form_fields() {
    let key = "secret".to_string();
    let mut form = new_achievement_form();
    assert_eq!(admin_create_achievement_field(&mut form, &"admin_code".to_string(), b"wrong".to_vec(), &key), FieldStep::Continue);
    assert!(!form.authorised);
    assert_eq!(admin_create_achievement_end(&form), FormEnd::NoImage);
    assert_eq!(admin_create_achievement_field(&mut form, &"icon".to_string(), vec![1, 2, 3], &key), FieldStep::Continue);
    assert_eq!(admin_create_achievement_end(&form), FormEnd::Unauthorised);
    assert_eq!(admin_create_achievement_field(&mut form, &"admin_code".to_string(), b"secret".to_vec(), &key), FieldStep::Continue);
    assert!(form.authorised);
    assert_eq!(admin_create_achievement_field(&mut form, &"name".to_string(), b"First blood".to_vec(), &key), FieldStep::Continue);
    assert_eq!(admin_create_achievement_field(&mut form, &"description".to_string(), b"Win once".to_vec(), &key), FieldStep::Continue);
    assert_eq!(admin_create_achievement_field(&mut form, &"tier".to_string(), b"-3".to_vec(), &key), FieldStep::Continue);
    assert_eq!(form.achievement.tier, Some(-3));
    assert_eq!(form.achievement.name.as_deref(), Some("First blood"));
    assert_eq!(form.achievement.description.as_deref(), Some("Win once"));
    assert_eq!(form.image_data, Some(vec![1, 2, 3]));
    assert_eq!(admin_create_achievement_end(&form), FormEnd::WriteImage);
    assert_eq!(admin_create_achievement_field(&mut form, &"tier".to_string(), b"three".to_vec(), &key), FieldStep::Unhandled);
    assert_eq!(admin_create_achievement_field(&mut form, &"tier".to_string(), b"99999999999".to_vec(), &key), FieldStep::Unhandled);
    assert_eq!(admin_create_achievement_field(&mut form, &"name".to_string(), vec![0xff, 0xfe], &key), FieldStep::Unhandled);
    assert_eq!(admin_create_achievement_field(&mut form, &"colour".to_string(), b"red".to_vec(), &key), FieldStep::Stop);
}

#[test]
fn achievement_image_names() {
    let a = achievement_image_filename();
    let b = achievement_image_filename();
    assert_eq!(a.len(), 40);
    assert!(a.ends_with(".png"));
    assert_eq!(a.matches('-').count(), 4);
    assert_ne!(a, b);
}

#[test]
fn first_signup_allows_no_dot() {
    let r = rust_backend::models::signup::create_user(&signup("good.name", "longenough"), false);
    assert_eq!(r.unwrap_err(), SignupRejection::InvalidUsername);
    let r = rust_backend::models::signup::create_user(&signup("good_name", "short"), false);
    assert_eq!(r.unwrap_err(), SignupRejection::PasswordTooShort);
    let row = rust_backend::models::signup::create_user(&signup("good_name", "longenough"), false).unwrap();
    assert!(row.password_hash.starts_with("$2b$12$"));
    assert_eq!(check_signin_password(&"longenough".to_string(), &row.password_hash), Some(true));
}

#[test]
fn signout_answers() {
    assert_eq!(shape(&signout(false, false).unwrap_err()), expect(418, r#"{"response": "token not present you melon"}"#));
    assert_eq!(
        shape(&signout(true, false).unwrap_err()),
        expect(400, r#"{"response": "this token doesn't exist or is already invalid"}"#)
    );
    assert!(signout(true, true).is_ok());
    assert_eq!(shape(&signout_answer(Some(1))), expect(200, r#"{"response": "success", "number": 1}"#));
    assert_eq!(shape(&signout_answer(None)), expect(500, r#""umm idk what heppend but its not gud""#));
    assert_eq!(signout_all(true, Ok(named(3, "c"))).unwrap(), 3);
    assert_eq!(
        shape(&signout_all(true, Err(CustomErrors::BadToken)).unwrap_err()),
        expect(400, r#"{"response": "this token doesn't exist or is already invalid"}"#)
    );
    assert_eq!(shape(&signout_all(false, Ok(named(3, "c"))).unwrap_err()).0, 418);
    assert_eq!(shape(&signout_all_answer(4)), expect(200, r#"{"signout": "success", "number": 4}"#));
}

#[test]
fn errors_are_answered_with_their_key() {
    assert_eq!(
        shape(&answer_error(CustomErrors::UserDoesNotExist { unknown_user: "zed".to_string() })),
        expect(400, r#"{"response": "user: zed, does not exist"}"#)
    );
    assert_eq!(
        shape(&answer_error(CustomErrors::MissingQueryParams { missing_params: "username".to_string() })),
        expect(400, r#"{"rsponse": "the following params are missing: username"}"#)
    );
}

#[test]
fn token_test_answers() {
    assert_eq!(shape(&test_token(false, Ok(named(1, "ivy")))), expect(418, r#"{"response": "token not present you melon"}"#));
    assert_eq!(shape(&test_token(true, Err(CustomErrors::BadToken))), expect(400, r#"{"ERROR": "bad token"}"#));
    assert_eq!(shape(&test_token(true, Ok(named(1, "ivy")))), expect(200, r#""ivy""#));
}

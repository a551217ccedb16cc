use rust_backend::errors::{handle_error, CustomErrors};
use rust_backend::structs::{build_user, FriendRecord, FriendRequest, RelationshipStatusEnum, Token, User};
use rust_backend::utils::{
    add_or_accept_friend, check_not_self, check_password_regex, check_token, check_username_regex,
    create_session_token, generate_session_token, get_friend_status, get_timestamp, get_user,
    remove_or_cancel_friend, session_expiry_from, timestamp_from_secs, user_lookup_of_token, found_user,
    added_status, ActionRow, FriendAction, UserLookup,
};

fn request(id: i64, sender: i64, receiver: i64) -> FriendRequest {
    FriendRequest { id, sender_id: sender, receiver_id: receiver, creation_timestamp: 1_700_000_000_000_000 }
}

fn record(id: i64, sender: i64, receiver: i64) -> FriendRecord {
    FriendRecord {
        id,
        sender_id: sender,
        receiver_id: receiver,
        creation_timestamp: 1_700_000_000_000_000,
        acceptance_timestamp: 1_700_000_100_000_000,
    }
}

fn user(id: i64, name: &str) -> User {
    User {
        id,
        username: name.to_string(),
        email: format!("{}@example.com", name),
        password_hash: String::new(),
        epoch_signup_time: 0,
    }
}

#[test]
fn handle_error_answers_each_error() {
    let r = handle_error(CustomErrors::SQLXError("no rows returned".to_string()));
    assert_eq!((r.status, r.key.as_str(), r.message.as_str()), (500, "response", "no rows returned"));
    let r = handle_error(CustomErrors::BadToken);
    assert_eq!((r.status, r.key.as_str(), r.message.as_str()), (400, "response", "an access token was missing or invalid"));
    let r = handle_error(CustomErrors::TokenError);
    assert_eq!((r.status, r.message.as_str()), (500, "an error involving the token used occured"));
    let r = handle_error(CustomErrors::UserDoesNotExist { unknown_user: "nd6k".to_string() });
    assert_eq!((r.status, r.key.as_str(), r.message.as_str()), (400, "response", "user: nd6k, does not exist"));
    let r = handle_error(CustomErrors::RequestingSelf);
    assert_eq!((r.status, r.message.as_str()), (400, "the user is requesting themself where that is not possible"));
    let r = handle_error(CustomErrors::LogicError);
    assert_eq!((r.status, r.message.as_str()), (500, "an error occurred ¯\\_(ツ)_/¯"));
    let r = handle_error(CustomErrors::MissingQueryParams { missing_params: "username".to_string() });
    assert_eq!((r.status, r.key.as_str(), r.message.as_str()), (400, "rsponse", "the following params are missing: username"));
    let r = handle_error(CustomErrors::Unimplemented);
    assert_eq!((r.status, r.message.as_str()), (501, "this part of the API is not complete"));
    assert_eq!(handle_error(CustomErrors::RequestAmount).status, 400);
    assert_eq!(handle_error(CustomErrors::RequiresAuthorisation).status, 401);
    assert_eq!(handle_error(CustomErrors::FileError).status, 500);
}

#[test]
fn error_message_matches_display_text() {
    let e = CustomErrors::UserDoesNotExist { unknown_user: "bob".to_string() };
    assert_eq!(e.message(), "the user bob does not exist");
    assert_eq!(CustomErrors::MissingQueryParams { missing_params: "a, b".to_string() }.message(), "the following params are missing: a, b");
}

#[test]
fn name_checks_accept_letters_digits_underscore_dot() {
    assert!(check_password_regex(&"Abc_12.x".to_string()));
    assert!(check_username_regex(&"nd6k".to_string()));
    assert!(!check_username_regex(&"".to_string()));
    assert!(!check_username_regex(&"has space".to_string()));
    assert!(!check_password_regex(&"pässword".to_string()));
    assert!(!check_password_regex(&"line\n".to_string()));
    assert!(!check_password_regex(&"a-b".to_string()));
}

#[test]
fn session_expiry_defaults_to_one_day() {
    assert_eq!(session_expiry_from(1_000, None), 87_400);
    assert_eq!(session_expiry_from(1_000, Some(2)), 8_200);
    assert_eq!(session_expiry_from(10_000, Some(-1)), 6_400);
    assert_eq!(session_expiry_from(i64::MAX - 10, None), i64::MAX);
    assert_eq!(session_expiry_from(i64::MIN + 10, Some(-1)), i64::MIN);
}

#[test]
fn token_is_current_until_it_expires() {
    let t = Token { id: 1, user_id: 2, epoch_expiry_date: 100, token: "x".to_string(), creation_timestamp: 0 };
    assert!(check_token(&t, 99));
    assert!(!check_token(&t, 100));
    assert!(!check_token(&t, 101));
}

#[test]
fn default_token_lifetime_law_on_values() {
    let created = 1_700_000_000;
    let expiry = session_expiry_from(created, None);
    let t = Token { id: 1, user_id: 2, epoch_expiry_date: expiry, token: "x".to_string(), creation_timestamp: 0 };
    assert!(check_token(&t, created));
    assert!(check_token(&t, created + 86_399));
    assert!(!check_token(&t, created + 86_400));
    let expired = session_expiry_from(created, Some(0));
    let t0 = Token { id: 1, user_id: 2, epoch_expiry_date: expired, token: "x".to_string(), creation_timestamp: 0 };
    assert!(!check_token(&t0, created));
}

#[test]
fn session_tokens_are_thirty_alphanumerics() {
    let a = generate_session_token();
    let b = generate_session_token();
    assert_eq!(a.chars().count(), 30);
    assert!(a.chars().all(|c| c.is_ascii_alphanumeric()));
    assert_ne!(a, b);
}

#[test]
fn create_session_token_rows() {
    let u = user(42, "alice");
    let before = get_timestamp();
    let row = create_session_token(&u, None);
    let after = get_timestamp();
    assert_eq!(row.user_id, 42);
    assert_eq!(row.token.len(), 30);
    assert!(row.epoch_expiry_date >= before + 86_400 && row.epoch_expiry_date <= after + 86_400);
    let row = create_session_token(&u, Some(1));
    assert!(row.epoch_expiry_date >= before + 3_600 && row.epoch_expiry_date <= get_timestamp() + 3_600);
}

#[test]
fn timestamps() {
    assert_eq!(timestamp_from_secs(None), 0);
    assert_eq!(timestamp_from_secs(Some(1_700_000_000)), 1_700_000_000);
    assert_eq!(timestamp_from_secs(Some(u64::MAX)), i64::MAX);
    assert!(get_timestamp() > 1_600_000_000);
}

#[test]
fn build_user_keeps_fields() {
    let u = build_user(7, "bob".to_string(), "b@x.org".to_string(), "hash".to_string(), Some(123));
    assert_eq!((u.id, u.username.as_str(), u.email.as_str(), u.password_hash.as_str(), u.epoch_signup_time), (7, "bob", "b@x.org", "hash", 123));
    let before = get_timestamp();
    let u = build_user(8, "c".to_string(), "c".to_string(), "h".to_string(), None);
    assert!(u.epoch_signup_time >= before && u.epoch_signup_time <= get_timestamp());
}

#[test]
fn user_lookup_prefers_id_then_token_then_username() {
    assert!(matches!(get_user(Some(3), Some("u".to_string()), Some("t".to_string())), Ok(UserLookup::ById(3))));
    assert!(matches!(get_user(None, Some("u".to_string()), Some("t".to_string())), Ok(UserLookup::ByToken(t)) if t == "t"));
    assert!(matches!(get_user(None, Some("u".to_string()), None), Ok(UserLookup::ByUsername(u)) if u == "u"));
    assert!(matches!(get_user(None, None, None), Err(CustomErrors::LogicError)));
    let t = Token { id: 1, user_id: 77, epoch_expiry_date: 100, token: "x".to_string(), creation_timestamp: 0 };
    assert!(matches!(user_lookup_of_token(Ok(t)), Ok(UserLookup::ById(77))));
    assert!(matches!(user_lookup_of_token(Err("no rows returned".to_string())), Err(CustomErrors::TokenError)));
    assert!(matches!(found_user(Ok(user(3, "x"))), Ok(u) if u.id == 3));
    assert!(matches!(found_user(Err("boom".to_string())), Err(CustomErrors::SQLXError(m)) if m == "boom"));
}

#[test]
fn friend_status_from_rows() {
    assert!(matches!(check_not_self(1, 1), Err(CustomErrors::RequestingSelf)));
    assert!(check_not_self(1, 2).is_ok());
    assert!(matches!(get_friend_status(1, 1, None, None), Err(CustomErrors::RequestingSelf)));
    assert!(matches!(get_friend_status(1, 2, Some(request(9, 1, 2)), None), Ok(RelationshipStatusEnum::UserRequested(r)) if r.id == 9));
    assert!(matches!(get_friend_status(2, 1, Some(request(9, 1, 2)), None), Ok(RelationshipStatusEnum::TargetRequested(r)) if r.id == 9));
    assert!(matches!(get_friend_status(1, 2, None, Some(record(5, 2, 1))), Ok(RelationshipStatusEnum::Friends(f)) if f.id == 5));
    assert!(matches!(get_friend_status(1, 2, None, None), Ok(RelationshipStatusEnum::Unrelated)));
}

#[test]
fn adding_a_friend_decides_the_action() {
    assert!(matches!(add_or_accept_friend(1, 2, RelationshipStatusEnum::Unrelated), FriendAction::SendRequest { sender_id: 1, receiver_id: 2 }));
    assert!(matches!(add_or_accept_friend(2, 1, RelationshipStatusEnum::TargetRequested(request(9, 1, 2))), FriendAction::AcceptRequest { sender_id: 1, receiver_id: 2 }));
    assert!(matches!(add_or_accept_friend(1, 2, RelationshipStatusEnum::UserRequested(request(9, 1, 2))), FriendAction::Keep(RelationshipStatusEnum::UserRequested(r)) if r.id == 9));
    assert!(matches!(add_or_accept_friend(1, 2, RelationshipStatusEnum::Friends(record(5, 1, 2))), FriendAction::Keep(RelationshipStatusEnum::Friends(f)) if f.id == 5));
    let removal = remove_or_cancel_friend(1, 2);
    assert_eq!((removal.user_id, removal.target_id), (1, 2));
}

#[test]
fn request_then_accept_scenario() {
    // user 1 adds user 2: nothing between them, so a request is sent
    let s = get_friend_status(1, 2, None, None).unwrap();
    assert!(matches!(add_or_accept_friend(1, 2, s), FriendAction::SendRequest { sender_id: 1, receiver_id: 2 }));
    // user 2 now sees a request from user 1, and adding back accepts it
    let s = get_friend_status(2, 1, Some(request(9, 1, 2)), None).unwrap();
    assert!(matches!(s, RelationshipStatusEnum::TargetRequested(_)));
    assert!(matches!(add_or_accept_friend(2, 1, s), FriendAction::AcceptRequest { sender_id: 1, receiver_id: 2 }));
    // adding again once friends changes nothing
    let s = get_friend_status(1, 2, None, Some(record(5, 1, 2))).unwrap();
    assert!(matches!(add_or_accept_friend(1, 2, s), FriendAction::Keep(RelationshipStatusEnum::Friends(_))));
}

#[test]
fn added_status_is_what_a_later_lookup_finds() {
    // user 1 adds user 2: the request row inserted is the one a later lookup finds
    let action = add_or_accept_friend(1, 2, RelationshipStatusEnum::Unrelated);
    let sent = added_status(action, ActionRow::Request(request(9, 1, 2))).unwrap();
    assert!(matches!(sent, RelationshipStatusEnum::UserRequested(r) if r.id == 9));
    assert!(matches!(get_friend_status(1, 2, Some(request(9, 1, 2)), None), Ok(RelationshipStatusEnum::UserRequested(r)) if r.id == 9));
    // user 2 accepts: the friendship row inserted is the one a later lookup finds
    let action = add_or_accept_friend(2, 1, RelationshipStatusEnum::TargetRequested(request(9, 1, 2)));
    let made = added_status(action, ActionRow::Record(record(5, 1, 2))).unwrap();
    assert!(matches!(made, RelationshipStatusEnum::Friends(f) if f.id == 5));
    assert!(matches!(get_friend_status(2, 1, None, Some(record(5, 1, 2))), Ok(RelationshipStatusEnum::Friends(f)) if f.id == 5));
    // a kept relationship is answered as it was; a row of another kind is no answer
    let kept = add_or_accept_friend(1, 2, RelationshipStatusEnum::Friends(record(5, 1, 2)));
    assert!(matches!(added_status(kept, ActionRow::Nothing), Some(RelationshipStatusEnum::Friends(f)) if f.id == 5));
    assert!(added_status(action, ActionRow::Nothing).is_none());
}

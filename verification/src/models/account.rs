//! Creating accounts, signing in, changing a password or a date of birth, and
//! deleting an account.
use vstd::prelude::*;
use crate::structs::{User, Date};
use crate::errors::{CustomErrors, answer_error, error_answer};
use crate::answer::{
    Answer, AnswerModel, Field, FieldModel, fields_model, response_answer, keyed_answer, object_answer,
    text_answer,
};
use crate::trusted::{
    bcrypt_hash, bcrypt_verify, bcrypt_verify_outcome, bcrypt_prefix, parse_naive_date,
    parsed_naive_date, is_name_char,
};
use crate::utils::{
    check_username_regex, check_password_regex, is_valid_name, get_timestamp,
    NewSessionToken, is_session_token_text, session_expiry, session_token_at, read_clock, ClockReading,
    token_current, SECONDS_IN_DAY,
};

verus! {

/// The bcrypt cost with which passwords are hashed.
pub const HASHING_ROUNDS: u32 = 8;

/// The shortest password accepted, in bytes of UTF-8 (a password of seven bytes
/// or fewer is refused).
pub const MIN_PASSWORD_BYTES: usize = 8;

/// A signup request.
#[derive(Debug)]
pub struct SignupUser {
    pub username: String,
    pub email: String,
    pub password: String,
}

/// The row to insert into the `users` table for a new account.
#[derive(Debug)]
pub struct NewUser {
    pub username: String,
    pub email: String,
    pub password_hash: String,
    pub epoch_signup_time: i64,
}

/// Why a signup is refused.
#[derive(Debug, Clone, Copy, PartialEq, Eq, Structural)]
pub enum SignupRejection {
    /// The username has characters other than letters, digits, `_` and `.`, or is empty.
    InvalidUsername,
    /// The password has seven bytes or fewer.
    PasswordTooShort,
    /// The password could not be hashed.
    HashFailed,
    /// An account with that username already exists.
    UserExists,
}

/// The number of bytes of a text in UTF-8, as `str::len` reports it.
pub open spec fn utf8_len(text: Seq<char>) -> usize {
    vstd::utf8::encode_utf8(text).len() as usize
}

/// How a hash made with this route's cost of 8 begins.
pub proof fn lemma_prefix_of_cost_8()
    ensures
        bcrypt_prefix(HASHING_ROUNDS) == "$2b$08$"@,
        "$2b$08$"@.len() == 7,
        "$2b$08$"@[0] == '$',
{
    reveal_strlit("$2b$08$");
    reveal_strlit("$2b$");
    reveal_strlit("$");
    assert(bcrypt_prefix(HASHING_ROUNDS) =~= "$2b$08$"@);
}

/// Checks a signup request and hashes its password: the username must be made of
/// letters, digits, `_` and `.`; the password must be longer than seven bytes;
/// an account of that name must not exist yet (`exists`, as the database says).
/// The account row that comes back has the current time as signup time and a
/// bcrypt hash of cost 8 of the password (`$2b$08$…`), which `verify` accepts for
/// that password.
pub fn create_user(request: &SignupUser, exists: bool) -> (r: Result<NewUser, SignupRejection>)
    ensures
        r == Err::<NewUser, SignupRejection>(SignupRejection::InvalidUsername) <==> !is_valid_name(
            request.username@,
        ),
        r == Err::<NewUser, SignupRejection>(SignupRejection::PasswordTooShort) <==> is_valid_name(
            request.username@,
        ) && utf8_len(request.password@) < MIN_PASSWORD_BYTES,
        r == Err::<NewUser, SignupRejection>(SignupRejection::UserExists) ==> exists,
        (is_valid_name(request.username@) && utf8_len(request.password@) >= MIN_PASSWORD_BYTES
            && r != Err::<NewUser, SignupRejection>(SignupRejection::HashFailed)) ==> (r
            == Err::<NewUser, SignupRejection>(SignupRejection::UserExists) <==> exists),
        r is Ok ==> is_valid_name(request.username@) && utf8_len(request.password@) >= MIN_PASSWORD_BYTES
            && !exists,
        r matches Ok(row) ==> {
            &&& row.username@ == request.username@
            &&& row.email@ == request.email@
            &&& row.password_hash@.len() == 60
            &&& row.password_hash@.subrange(0, 7) == "$2b$08$"@
            &&& (request.password@.len() < 7 || request.password@.subrange(0, 7) != "$2b$08$"@) ==> row.password_hash@
                != request.password@
            &&& bcrypt_verify_outcome(request.password@, row.password_hash@) == Some(true)
            &&& row.epoch_signup_time >= 0
        },
{
    proof {
        lemma_prefix_of_cost_8();
    }
    if !check_username_regex(&request.username) {
        return Err(SignupRejection::InvalidUsername);
    }
    if request.password.as_str().len() <= 7 {
        return Err(SignupRejection::PasswordTooShort);
    }
    let password_hash = match bcrypt_hash(request.password.as_str(), HASHING_ROUNDS) {
        Ok(h) => h,
        Err(_) => {
            return Err(SignupRejection::HashFailed);
        },
    };
    if exists {
        return Err(SignupRejection::UserExists);
    }
    let epoch_signup_time: i64 = get_timestamp();
    Ok(
        NewUser {
            username: request.username.clone(),
            email: request.email.clone(),
            password_hash,
            epoch_signup_time,
        },
    )
}

/// The status code and text that answer a refused signup.
pub open spec fn signup_rejection_text(r: SignupRejection) -> Seq<char> {
    match r {
        SignupRejection::InvalidUsername => "username was invalid, only alphanumeric characters and _. are allowed"@,
        SignupRejection::PasswordTooShort => "password was too short (passwords less than 7 characters can "@,
        SignupRejection::HashFailed => "the password could not be hashed"@,
        SignupRejection::UserExists => "a user with that name already exists"@,
    }
}

impl SignupRejection {
    /// The status code that answers the refusal.
    pub fn status(&self) -> (code: u16)
        ensures
            code == (if *self == SignupRejection::HashFailed { 500u16 } else { 400u16 }),
    {
        match self {
            SignupRejection::HashFailed => 500,
            _ => 400,
        }
    }

    /// The text that answers the refusal.
    pub fn message(&self) -> (s: String)
        ensures
            s@ == signup_rejection_text(*self),
    {
        match self {
            SignupRejection::InvalidUsername => String::from_str(
                "username was invalid, only alphanumeric characters and _. are allowed",
            ),
            SignupRejection::PasswordTooShort => String::from_str(
                "password was too short (passwords less than 7 characters can ",
            ),
            SignupRejection::HashFailed => String::from_str("the password could not be hashed"),
            SignupRejection::UserExists => String::from_str("a user with that name already exists"),
        }
    }
}

/// The answer to a signup that created the account.
pub open spec fn signup_success_answer(username: Seq<char>, time: int) -> AnswerModel {
    object_answer(
        200,
        seq![
            ("signup"@, FieldModel::Flag(true)),
            ("response"@, FieldModel::Text("Success"@)),
            ("username"@, FieldModel::Text(username)),
            ("timestamp"@, FieldModel::Integer(time)),
        ],
    )
}

/// The answer to a refused signup, stamped with the time it was refused at.
pub open spec fn signup_refusal_answer(r: SignupRejection, time: int) -> AnswerModel {
    object_answer(
        if r == SignupRejection::HashFailed { 500 } else { 400 },
        seq![
            ("signup"@, FieldModel::Flag(false)),
            ("response"@, FieldModel::Text(signup_rejection_text(r))),
            ("timestamp"@, FieldModel::Integer(time)),
        ],
    )
}

/// The answer of the signup route: for a created account its name and signup
/// time; for a refusal its text and the current time.
pub fn signup_answer(r: &Result<NewUser, SignupRejection>) -> (a: Answer)
    ensures
        r matches Ok(row) ==> a@ == signup_success_answer(row.username@, row.epoch_signup_time as int),
        r matches Err(rejection) ==> exists|t: int|
            t >= 0 && #[trigger] signup_refusal_answer(*rejection, t) == a@,
{
    match r {
        Ok(row) => {
            let mut fields: Vec<(String, Field)> = Vec::new();
            fields.push((String::from_str("signup"), Field::Flag(true)));
            fields.push((String::from_str("response"), Field::Text(String::from_str("Success"))));
            fields.push((String::from_str("username"), Field::Text(row.username.clone())));
            fields.push((String::from_str("timestamp"), Field::Integer(row.epoch_signup_time)));
            let a = Answer::object(200, fields);
            assert(fields_model(fields@) =~= signup_success_answer(
                row.username@,
                row.epoch_signup_time as int,
            ).body->Object_0);
            a
        },
        Err(rejection) => {
            let now: i64 = get_timestamp();
            let mut fields: Vec<(String, Field)> = Vec::new();
            fields.push((String::from_str("signup"), Field::Flag(false)));
            fields.push((String::from_str("response"), Field::Text(rejection.message())));
            fields.push((String::from_str("timestamp"), Field::Integer(now)));
            let a = Answer::object(rejection.status(), fields);
            assert(fields_model(fields@) =~= signup_refusal_answer(*rejection, now as int).body->Object_0);
            assert(signup_refusal_answer(*rejection, now as int) == a@);
            a
        },
    }
}

/// A signin request: the account is found by its username.
#[derive(Debug)]
pub struct SigninRequestParams {
    pub username: Option<String>,
    pub email: Option<String>,
    pub password: String,
}

/// Checks a password against the hash stored for an account: `None` when the
/// stored hash is not a bcrypt hash.
pub fn check_signin_password(password: &String, password_hash: &String) -> (r: Option<bool>)
    ensures
        r == bcrypt_verify_outcome(password@, password_hash@),
{
    match bcrypt_verify(password.as_str(), password_hash.as_str()) {
        Ok(b) => Some(b),
        Err(_) => None,
    }
}

/// The answer to a signin.
#[derive(Debug)]
pub enum SigninReply {
    /// 400: no account has the username sent.
    UnknownUser,
    /// The stored hash of the account is not a bcrypt hash; the route fails.
    StoredHashInvalid,
    /// 200 with the new session token.
    Token(String),
    /// 400: the session token could not be stored; the text says why.
    TokenError(String),
    /// 400: the password does not match.
    Incorrect,
}

/// The answer to a signin; `None` when the stored hash is not a bcrypt hash, on
/// which the route fails.
pub open spec fn signin_answer(reply: SigninReply) -> Option<AnswerModel> {
    match reply {
        SigninReply::UnknownUser => Some(response_answer(400, "user does not exist"@)),
        SigninReply::StoredHashInvalid => None,
        SigninReply::Token(t) => Some(keyed_answer(200, "token"@, t@)),
        SigninReply::TokenError(details) => Some(
            object_answer(
                400,
                seq![
                    ("response"@, FieldModel::Text("error"@)),
                    ("details"@, FieldModel::Text(details@)),
                ],
            ),
        ),
        SigninReply::Incorrect => Some(keyed_answer(400, "ERROR"@, "PASSWORD OR USERNAME INCORRECT"@)),
    }
}

impl SigninReply {
    /// The answer of the signin route.
    pub fn answer(self) -> (a: Option<Answer>)
        ensures
            a is None <==> signin_answer(self) is None,
            a matches Some(x) ==> signin_answer(self) == Some(x@),
    {
        match self {
            SigninReply::UnknownUser => Some(Answer::response(400, "user does not exist")),
            SigninReply::StoredHashInvalid => None,
            SigninReply::Token(t) => Some(Answer::keyed(200, "token", t)),
            SigninReply::TokenError(details) => {
                let ghost d = details@;
                let mut fields: Vec<(String, Field)> = Vec::new();
                fields.push((String::from_str("response"), Field::Text(String::from_str("error"))));
                fields.push((String::from_str("details"), Field::Text(details)));
                let a = Answer::object(400, fields);
                assert(fields_model(fields@) =~= seq![
                    ("response"@, FieldModel::Text("error"@)),
                    ("details"@, FieldModel::Text(d)),
                ]);
                Some(a)
            },
            SigninReply::Incorrect => Some(
                Answer::keyed(400, "ERROR", String::from_str("PASSWORD OR USERNAME INCORRECT")),
            ),
        }
    }
}

/// A signin whose account was found: whether the password matched, and the
/// session token made for the account (stored whether or not it matched).
#[derive(Debug)]
pub struct SigninAttempt {
    pub pass_correct: bool,
    pub token: NewSessionToken,
    /// The clock reading at which the token was made.
    pub issued_at: ClockReading,
}

/// The first step of a signin, from the account found by the username: an
/// unknown user is answered at once; else the password is checked against the
/// stored hash and a session token for the account is made, valid for a day.
pub fn signin_attempt(password: &String, user: Result<User, CustomErrors>) -> (r: Result<
    SigninAttempt,
    SigninReply,
>)
    ensures
        user is Err ==> r matches Err(SigninReply::UnknownUser),
        user matches Ok(u) ==> match bcrypt_verify_outcome(password@, u.password_hash@) {
            None => r matches Err(SigninReply::StoredHashInvalid),
            Some(b) => r matches Ok(a) && {
                &&& a.pass_correct == b
                &&& a.token.user_id == u.id
                &&& is_session_token_text(a.token.token@)
                &&& exists|now: i64| now >= 0 && a.token.epoch_expiry_date == session_expiry(now, None)
                &&& a.issued_at.secs() >= 0
                &&& a.token.epoch_expiry_date == session_expiry(a.issued_at.secs(), None)
                &&& a.issued_at.secs() <= i64::MAX - SECONDS_IN_DAY ==> a.token.epoch_expiry_date
                    == a.issued_at.secs() + SECONDS_IN_DAY
                &&& a.issued_at.secs() < i64::MAX ==> token_current(a.token.epoch_expiry_date, a.issued_at.secs())
            },
        },
{
    match user {
        Err(_) => Err(SigninReply::UnknownUser),
        Ok(u) => match check_signin_password(password, &u.password_hash) {
            None => Err(SigninReply::StoredHashInvalid),
            Some(pass_correct) => {
                let issued_at = read_clock();
                let token = session_token_at(&u, None, &issued_at);
                Ok(SigninAttempt { pass_correct, token, issued_at })
            },
        },
    }
}

/// Answers a signin once its session token has been stored (or failed to be): a
/// token is handed out only for a matching password, and it is the token made
/// for the account.
pub fn signin(attempt: &SigninAttempt, stored: Result<(), String>) -> (reply: SigninReply)
    ensures
        stored matches Err(e) ==> reply == SigninReply::TokenError(e),
        stored is Ok ==> reply == (if attempt.pass_correct {
            SigninReply::Token(attempt.token.token)
        } else {
            SigninReply::Incorrect
        }),
        reply matches SigninReply::Token(t) ==> attempt.pass_correct && t@ == attempt.token.token@,
{
    match stored {
        Err(e) => SigninReply::TokenError(e),
        Ok(()) => if attempt.pass_correct {
            SigninReply::Token(attempt.token.token.clone())
        } else {
            SigninReply::Incorrect
        },
    }
}

/// A request to delete the account of the token sent; the username must be
/// repeated, so that an account is not deleted by accident.
#[derive(Debug)]
pub struct DeleteAccountParams {
    pub username: String,
}

/// What a request to delete an account leads to.
#[derive(Debug)]
pub enum DeleteAccountStep {
    /// 418: no token was sent.
    NoToken,
    /// The token does not lead to an account; the error handler answers.
    LookupFailed(CustomErrors),
    /// 400: the username sent is not the one of the account.
    UsernameMismatch,
    /// Delete the scores, tokens and account row of this user id.
    Delete(i64),
}

/// Decides whether an account may be deleted: a token must be sent (`has_auth`),
/// it must lead to an account (`user`, as the database says), and the username
/// sent must be the one of that account.
pub fn delete_account(has_auth: bool, user: Result<User, CustomErrors>, request: &DeleteAccountParams) -> (r:
    DeleteAccountStep)
    ensures
        !has_auth ==> r matches DeleteAccountStep::NoToken,
        has_auth ==> match user {
            Err(e) => r == DeleteAccountStep::LookupFailed(e),
            Ok(u) => if request.username@ == u.username@ {
                r == DeleteAccountStep::Delete(u.id)
            } else {
                r matches DeleteAccountStep::UsernameMismatch
            },
        },
{
    if !has_auth {
        return DeleteAccountStep::NoToken;
    }
    match user {
        Err(e) => DeleteAccountStep::LookupFailed(e),
        Ok(u) => if request.username == u.username {
            DeleteAccountStep::Delete(u.id)
        } else {
            DeleteAccountStep::UsernameMismatch
        },
    }
}

/// The answer to a request to delete an account that is answered before any row
/// is deleted; `None` for a deletion, which is answered once it is done.
pub open spec fn delete_step_answer(step: DeleteAccountStep) -> Option<AnswerModel> {
    match step {
        DeleteAccountStep::NoToken => Some(response_answer(418, "token not present you melon"@)),
        DeleteAccountStep::LookupFailed(e) => Some(error_answer(e)),
        DeleteAccountStep::UsernameMismatch => Some(
            response_answer(400, "username does not match user associated with token"@),
        ),
        DeleteAccountStep::Delete(_) => None,
    }
}

impl DeleteAccountStep {
    /// The answer of the route when it stops at this step.
    pub fn answer(self) -> (a: Option<Answer>)
        ensures
            a is None <==> delete_step_answer(self) is None,
            a matches Some(x) ==> delete_step_answer(self) == Some(x@),
    {
        match self {
            DeleteAccountStep::NoToken => Some(Answer::response(418, "token not present you melon")),
            DeleteAccountStep::LookupFailed(e) => Some(answer_error(e)),
            DeleteAccountStep::UsernameMismatch => Some(
                Answer::response(400, "username does not match user associated with token"),
            ),
            DeleteAccountStep::Delete(_) => None,
        }
    }
}

/// Answers a deletion once the rows were deleted: 500 when the account still
/// exists afterwards, else 200.
pub fn delete_account_done(still_exists: bool) -> (a: Answer)
    ensures
        still_exists ==> a@ == response_answer(
            500,
            "an error occured which resulted in the user still existing"@,
        ),
        !still_exists ==> a@ == response_answer(200, "account deleted successfully"@),
{
    if still_exists {
        Answer::response(500, "an error occured which resulted in the user still existing")
    } else {
        Answer::response(200, "account deleted successfully")
    }
}

/// A request to set the date of birth of the account of a token.
#[derive(Debug)]
pub struct UpdateDOBParams {
    pub token: String,
    pub date: String,
}

/// Why a date of birth is not set.
#[derive(Debug, Clone, Copy, PartialEq, Eq, Structural)]
pub enum DateOfBirthRejection {
    /// The token does not lead to an account.
    InvalidToken,
    /// The text is not a date that exists.
    Impossible,
}

/// Decides a change of the date of birth for the account of the token (`user`,
/// as the database says): the date sent (`YYYY-MM-DD`, or with fewer digits) must
/// be a date that exists. What comes back is the account's id and the date to
/// store.
pub fn add_date_of_birth(user: Result<User, CustomErrors>, request: &UpdateDOBParams) -> (r: Result<
    (i64, Date),
    DateOfBirthRejection,
>)
    ensures
        user is Err ==> r == Err::<(i64, Date), DateOfBirthRejection>(DateOfBirthRejection::InvalidToken),
        user is Ok ==> (r is Err <==> parsed_naive_date(request.date@) is None),
        user is Ok && parsed_naive_date(request.date@) is None ==> r == Err::<(i64, Date), DateOfBirthRejection>(
            DateOfBirthRejection::Impossible,
        ),
        r matches Ok((id, d)) ==> {
            &&& user matches Ok(u) && id == u.id
            &&& parsed_naive_date(request.date@) == Some((d.year as int, d.month as int, d.day as int))
        },
{
    let u = match user {
        Ok(u) => u,
        Err(_) => {
            return Err(DateOfBirthRejection::InvalidToken);
        },
    };
    match parse_naive_date(request.date.as_str()) {
        Some(d) => Ok((u.id, d)),
        None => Err(DateOfBirthRejection::Impossible),
    }
}

/// The answer to a change of the date of birth, once stored.
pub open spec fn date_of_birth_answer_of(r: Result<(i64, Date), DateOfBirthRejection>) -> AnswerModel {
    match r {
        Ok(_) => text_answer(200, "DATE OF BIRTH UPDATED"@),
        Err(DateOfBirthRejection::InvalidToken) => text_answer(400, "invalid token"@),
        Err(DateOfBirthRejection::Impossible) => text_answer(400, "DATE OF BIRTH IMPOSSIBLE"@),
    }
}

/// The answer of the date-of-birth route.
pub fn date_of_birth_answer(r: &Result<(i64, Date), DateOfBirthRejection>) -> (a: Answer)
    ensures
        a@ == date_of_birth_answer_of(*r),
{
    match r {
        Ok(_) => Answer::text(200, "DATE OF BIRTH UPDATED"),
        Err(DateOfBirthRejection::InvalidToken) => Answer::text(400, "invalid token"),
        Err(DateOfBirthRejection::Impossible) => Answer::text(400, "DATE OF BIRTH IMPOSSIBLE"),
    }
}

/// A request to change the password of the account of a token.
#[derive(Debug)]
pub struct UpdatePasswordRequestParams {
    pub token: String,
    pub password: String,
}

/// Why a password change is refused.
#[derive(Debug, Clone, Copy, PartialEq, Eq, Structural)]
pub enum PasswordUpdateRejection {
    /// The token does not lead to an account.
    BadToken,
    /// The new password has characters other than letters, digits, `_` and `.`, or is empty.
    InvalidPassword,
    /// The new password could not be hashed.
    HashFailed,
}

/// Decides a password change for the account of the token (`user`, as the
/// database says): the new password must be made of letters, digits, `_` and
/// `.`. What comes back is the account's id and the hash to store: a bcrypt hash
/// of cost 8 (`$2b$08$…`), which `verify` accepts for the password, and never the
/// password itself.
pub fn update_password(user: Result<User, CustomErrors>, request: &UpdatePasswordRequestParams) -> (r:
    Result<(i64, String), PasswordUpdateRejection>)
    ensures
        user is Err ==> r == Err::<(i64, String), PasswordUpdateRejection>(PasswordUpdateRejection::BadToken),
        user is Ok ==> (r == Err::<(i64, String), PasswordUpdateRejection>(
            PasswordUpdateRejection::InvalidPassword,
        ) <==> !is_valid_name(request.password@)),
        user is Ok ==> r != Err::<(i64, String), PasswordUpdateRejection>(PasswordUpdateRejection::BadToken),
        r matches Ok((id, h)) ==> {
            &&& user matches Ok(u) && id == u.id
            &&& is_valid_name(request.password@)
            &&& h@.len() == 60
            &&& h@.subrange(0, 7) == "$2b$08$"@
            &&& bcrypt_verify_outcome(request.password@, h@) == Some(true)
            &&& h@ != request.password@
        },
{
    proof {
        lemma_prefix_of_cost_8();
    }
    let u = match user {
        Ok(u) => u,
        Err(_) => {
            return Err(PasswordUpdateRejection::BadToken);
        },
    };
    if !check_password_regex(&request.password) {
        return Err(PasswordUpdateRejection::InvalidPassword);
    }
    match bcrypt_hash(request.password.as_str(), HASHING_ROUNDS) {
        Ok(h) => {
            proof {
                assert(h@[0] == h@.subrange(0, 7)[0]);
                assert(!is_name_char('$'));
                if h@ == request.password@ {
                    assert(is_name_char(request.password@[0]));
                }
            }
            Ok((u.id, h))
        },
        Err(_) => Err(PasswordUpdateRejection::HashFailed),
    }
}

/// The answer to a password change, once stored. A bad token and an invalid
/// password are answered alike.
pub open spec fn password_update_answer_of(r: Result<(i64, String), PasswordUpdateRejection>) -> AnswerModel {
    match r {
        Ok(_) => response_answer(200, "PSSWD UPDATE NOT FIN"@),
        Err(PasswordUpdateRejection::HashFailed) => response_answer(500, "the password could not be hashed"@),
        Err(_) => response_answer(400, "BAD TOKEN"@),
    }
}

/// The answer of the password route.
pub fn password_update_answer(r: &Result<(i64, String), PasswordUpdateRejection>) -> (a: Answer)
    ensures
        a@ == password_update_answer_of(*r),
{
    match r {
        Ok(_) => Answer::response(200, "PSSWD UPDATE NOT FIN"),
        Err(PasswordUpdateRejection::HashFailed) => Answer::response(500, "the password could not be hashed"),
        Err(_) => Answer::response(400, "BAD TOKEN"),
    }
}

/// The answer to a test of a token.
pub open spec fn test_token_answer(has_auth: bool, user: Result<User, CustomErrors>) -> AnswerModel {
    if !has_auth {
        response_answer(418, "token not present you melon"@)
    } else {
        match user {
            Ok(u) => text_answer(200, u.username@),
            Err(_) => keyed_answer(400, "ERROR"@, "bad token"@),
        }
    }
}

/// Answers a test of the token sent: 418 when none was sent (`has_auth`); 400
/// when it leads to no account (`user`, as the database says); else 200 and the
/// account's username.
pub fn test_token(has_auth: bool, user: Result<User, CustomErrors>) -> (a: Answer)
    ensures
        a@ == test_token_answer(has_auth, user),
{
    if !has_auth {
        return Answer::response(418, "token not present you melon");
    }
    match user {
        Ok(u) => Answer::text(200, u.username.as_str()),
        Err(_) => Answer::keyed(400, "ERROR", String::from_str("bad token")),
    }
}

} // verus!

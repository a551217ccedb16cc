//! The first signup route, which allows no `.` in usernames and hashes with
//! bcrypt's default cost.
use vstd::prelude::*;
use crate::trusted::{bcrypt_hash, bcrypt_verify_outcome, bcrypt_prefix, regex_is_match, is_word_char};
use crate::models::account::{NewUser, SignupRejection, SignupUser, utf8_len, MIN_PASSWORD_BYTES};
use crate::utils::get_timestamp;

verus! {

/// bcrypt's default cost.
pub const DEFAULT_COST: u32 = 12;

/// A text of one or more characters, each a letter, a digit or `_`.
pub open spec fn is_word(text: Seq<char>) -> bool {
    text.len() > 0 && forall|i: int| 0 <= i < text.len() ==> is_word_char(#[trigger] text[i])
}

/// How a hash made with the default cost of 12 begins.
pub proof fn lemma_prefix_of_cost_12()
    ensures
        bcrypt_prefix(DEFAULT_COST) == "$2b$12$"@,
{
    reveal_strlit("$2b$12$");
    reveal_strlit("$2b$");
    reveal_strlit("$");
    assert(bcrypt_prefix(DEFAULT_COST) =~= "$2b$12$"@);
}

/// Checks a signup request and hashes its password: the username must be made of
/// letters, digits and `_` (as `^[0-9A-Za-z_]+$` says); the password must be
/// longer than seven bytes; an account of that name must not exist yet
/// (`exists`, as the database says). The hash is a bcrypt hash of cost 12
/// (`$2b$12$…`) that `verify` accepts for the password.
pub fn create_user(request: &SignupUser, exists: bool) -> (r: Result<NewUser, SignupRejection>)
    ensures
        r == Err::<NewUser, SignupRejection>(SignupRejection::InvalidUsername) <==> !is_word(
            request.username@,
        ),
        r == Err::<NewUser, SignupRejection>(SignupRejection::PasswordTooShort) <==> is_word(
            request.username@,
        ) && utf8_len(request.password@) < MIN_PASSWORD_BYTES,
        r == Err::<NewUser, SignupRejection>(SignupRejection::UserExists) ==> exists,
        (is_word(request.username@) && utf8_len(request.password@) >= MIN_PASSWORD_BYTES && r
            != Err::<NewUser, SignupRejection>(SignupRejection::HashFailed)) ==> (r == Err::<
            NewUser,
            SignupRejection,
        >(SignupRejection::UserExists) <==> exists),
        r is Ok ==> is_word(request.username@) && utf8_len(request.password@) >= MIN_PASSWORD_BYTES
            && !exists,
        r matches Ok(row) ==> {
            &&& row.username@ == request.username@
            &&& row.email@ == request.email@
            &&& row.password_hash@.len() == 60
            &&& row.password_hash@.subrange(0, 7) == "$2b$12$"@
            &&& (request.password@.len() < 7 || request.password@.subrange(0, 7) != "$2b$12$"@) ==> row.password_hash@
                != request.password@
            &&& bcrypt_verify_outcome(request.password@, row.password_hash@) == Some(true)
            &&& row.epoch_signup_time >= 0
        },
{
    proof {
        lemma_prefix_of_cost_12();
    }
    let valid = match regex_is_match("^[0-9A-Za-z_]+$", request.username.as_str()) {
        Some(matched) => matched,
        None => false,
    };
    if !valid {
        return Err(SignupRejection::InvalidUsername);
    }
    if request.password.as_str().len() <= 7 {
        return Err(SignupRejection::PasswordTooShort);
    }
    let password_hash = match bcrypt_hash(request.password.as_str(), DEFAULT_COST) {
        Ok(h) => h,
        Err(_) => {
            return Err(SignupRejection::HashFailed);
        },
    };
    if exists {
        return Err(SignupRejection::UserExists);
    }
    let epoch_signup_time: i64 = get_timestamp();
    Ok(
        NewUser {
            username: request.username.clone(),
            email: request.email.clone(),
            password_hash,
            epoch_signup_time,
        },
    )
}

} // verus!

//! Signing out: the token sent, or every token of its account.
use vstd::prelude::*;
use crate::structs::User;
use crate::errors::CustomErrors;
use crate::answer::{Answer, AnswerModel, Field, FieldModel, fields_model, object_answer, response_answer, text_answer};

verus! {

/// Decides a signout of the token sent: a token must be sent (`has_auth`) and be
/// valid (`token_valid`, as the database says) before it is deleted.
pub fn signout(has_auth: bool, token_valid: bool) -> (r: Result<(), Answer>)
    ensures
        r is Ok <==> has_auth && token_valid,
        !has_auth ==> (r matches Err(a) && a@ == response_answer(418, "token not present you melon"@)),
        has_auth && !token_valid ==> (r matches Err(a) && a@ == response_answer(
            400,
            "this token doesn't exist or is already invalid"@,
        )),
{
    if !has_auth {
        return Err(Answer::response(418, "token not present you melon"));
    }
    if !token_valid {
        return Err(Answer::response(400, "this token doesn't exist or is already invalid"));
    }
    Ok(())
}

/// The answer to a signout whose deletion ran: the number of rows deleted, or
/// `None` when the deletion failed.
pub open spec fn signout_answer_of(deleted: Option<u64>) -> AnswerModel {
    match deleted {
        None => text_answer(500, "umm idk what heppend but its not gud"@),
        Some(n) => object_answer(
            200,
            seq![("response"@, FieldModel::Text("success"@)), ("number"@, FieldModel::Integer(n as int))],
        ),
    }
}

/// Answers a signout once its token was deleted (or the deletion failed).
pub fn signout_answer(deleted: Option<u64>) -> (a: Answer)
    ensures
        a@ == signout_answer_of(deleted),
{
    match deleted {
        None => Answer::text(500, "umm idk what heppend but its not gud"),
        Some(n) => {
            let mut fields: Vec<(String, Field)> = Vec::new();
            fields.push((String::from_str("response"), Field::Text(String::from_str("success"))));
            fields.push((String::from_str("number"), Field::Count(n)));
            assert(fields_model(fields@) =~= seq![
                ("response"@, FieldModel::Text("success"@)),
                ("number"@, FieldModel::Integer(n as int)),
            ]);
            Answer::object(200, fields)
        },
    }
}

/// Decides a signout of every token of the account of the token sent: a token
/// must be sent (`has_auth`) and lead to an account (`user`, as the database
/// says). What comes back is the id of the account whose tokens are deleted.
pub fn signout_all(has_auth: bool, user: Result<User, CustomErrors>) -> (r: Result<i64, Answer>)
    ensures
        !has_auth ==> (r matches Err(a) && a@ == response_answer(418, "token not present you melon"@)),
        has_auth ==> match user {
            Ok(u) => r == Ok::<i64, Answer>(u.id),
            Err(_) => r matches Err(a) && a@ == response_answer(
                400,
                "this token doesn't exist or is already invalid"@,
            ),
        },
{
    if !has_auth {
        return Err(Answer::response(418, "token not present you melon"));
    }
    match user {
        Ok(u) => Ok(u.id),
        Err(_) => Err(Answer::response(400, "this token doesn't exist or is already invalid")),
    }
}

/// The answer to a signout of every token: the number of tokens deleted.
pub open spec fn signout_all_answer_of(deleted: u64) -> AnswerModel {
    object_answer(
        200,
        seq![("signout"@, FieldModel::Text("success"@)), ("number"@, FieldModel::Integer(deleted as int))],
    )
}

/// Answers a signout of every token once they were deleted.
pub fn signout_all_answer(deleted: u64) -> (a: Answer)
    ensures
        a@ == signout_all_answer_of(deleted),
{
    let mut fields: Vec<(String, Field)> = Vec::new();
    fields.push((String::from_str("signout"), Field::Text(String::from_str("success"))));
    fields.push((String::from_str("number"), Field::Count(deleted)));
    assert(fields_model(fields@) =~= seq![
        ("signout"@, FieldModel::Text("success"@)),
        ("number"@, FieldModel::Integer(deleted as int)),
    ]);
    Answer::object(200, fields)
}

} // verus!

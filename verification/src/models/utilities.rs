//! The `check_user` route: whether a user of a given name exists.
use vstd::prelude::*;
use crate::errors::{CustomErrors, answer_error};
use crate::answer::{Answer, AnswerModel, BodyModel, Field, FieldModel, fields_model, keyed_answer, response_answer};

verus! {

/// The body of a `check_user` request.
#[derive(Debug)]
pub struct CheckUserParameters {
    pub username: String,
}

/// The username a `check_user` request asks about. A request without the `auth`
/// header is answered with 418; one without a body is refused as missing the
/// `username` parameter, as the error handler answers it.
pub fn check_user(has_auth: bool, request: Option<CheckUserParameters>) -> (r: Result<String, Answer>)
    ensures
        !has_auth ==> (r matches Err(a) && a@ == response_answer(418, "token not present you melon"@)),
        has_auth && request is None ==> (r matches Err(a) && a@ == keyed_answer(
            400,
            "rsponse"@,
            "the following params are missing: "@ + "username"@,
        )),
        has_auth ==> (request matches Some(p) ==> (r matches Ok(name) && name@ == p.username@)),
{
    if !has_auth {
        return Err(Answer::response(418, "token not present you melon"));
    }
    match request {
        Some(p) => Ok(p.username),
        None => {
            let e = CustomErrors::MissingQueryParams { missing_params: String::from_str("username") };
            Err(answer_error(e))
        },
    }
}

/// The answer that says whether the user asked about exists: 200 and
/// `{"data": {"isUser": found}}`.
pub open spec fn is_user_answer_of(found: bool) -> AnswerModel {
    AnswerModel { status: 200, body: BodyModel::Nested("data"@, seq![("isUser"@, FieldModel::Flag(found))]) }
}

/// The answer of the route once the database was asked for the user (`found` is
/// false when no user has the name, or when the database failed).
pub fn is_user_answer(found: bool) -> (a: Answer)
    ensures
        a@ == is_user_answer_of(found),
{
    let mut fields: Vec<(String, Field)> = Vec::new();
    fields.push((String::from_str("isUser"), Field::Flag(found)));
    assert(fields_model(fields@) =~= seq![("isUser"@, FieldModel::Flag(found))]);
    Answer { status: 200, body: crate::answer::Body::Nested(String::from_str("data"), fields) }
}

} // verus!

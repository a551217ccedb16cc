//! What a route answers: an HTTP status code and a JSON body.
use vstd::prelude::*;

verus! {

/// A value of a JSON object in an answer.
#[derive(Debug)]
pub enum Field {
    Text(String),
    Integer(i64),
    Count(u64),
    Flag(bool),
}

/// What a value of a JSON object stands for.
pub enum FieldModel {
    Text(Seq<char>),
    Integer(int),
    Flag(bool),
}

impl View for Field {
    type V = FieldModel;

    open spec fn view(&self) -> FieldModel {
        match self {
            Field::Text(t) => FieldModel::Text(t@),
            Field::Integer(n) => FieldModel::Integer(*n as int),
            Field::Count(n) => FieldModel::Integer(*n as int),
            Field::Flag(b) => FieldModel::Flag(*b),
        }
    }
}

/// The JSON body of an answer.
#[derive(Debug)]
pub enum Body {
    /// A JSON string.
    Text(String),
    /// A JSON object: its keys and values, in order.
    Object(Vec<(String, Field)>),
    /// A JSON object with one key, whose value is an object of the keys and values given.
    Nested(String, Vec<(String, Field)>),
}

/// What the keys and values of a JSON object stand for.
pub open spec fn fields_model(fields: Seq<(String, Field)>) -> Seq<(Seq<char>, FieldModel)> {
    fields.map_values(|e: (String, Field)| (e.0@, e.1@))
}

/// What a JSON body stands for.
#[verifier::ext_equal]
pub enum BodyModel {
    Text(Seq<char>),
    Object(Seq<(Seq<char>, FieldModel)>),
    Nested(Seq<char>, Seq<(Seq<char>, FieldModel)>),
}

impl View for Body {
    type V = BodyModel;

    open spec fn view(&self) -> BodyModel {
        match self {
            Body::Text(t) => BodyModel::Text(t@),
            Body::Object(fields) => BodyModel::Object(fields_model(fields@)),
            Body::Nested(key, fields) => BodyModel::Nested(key@, fields_model(fields@)),
        }
    }
}

/// The answer of a route: a status code and a JSON body.
#[derive(Debug)]
pub struct Answer {
    pub status: u16,
    pub body: Body,
}

/// What an answer stands for.
#[verifier::ext_equal]
pub struct AnswerModel {
    pub status: u16,
    pub body: BodyModel,
}

impl View for Answer {
    type V = AnswerModel;

    open spec fn view(&self) -> AnswerModel {
        AnswerModel { status: self.status, body: self.body@ }
    }
}

/// An answer whose body is a JSON string.
pub open spec fn text_answer(status: u16, text: Seq<char>) -> AnswerModel {
    AnswerModel { status, body: BodyModel::Text(text) }
}

/// An answer whose body is a JSON object of the keys and values given.
pub open spec fn object_answer(status: u16, fields: Seq<(Seq<char>, FieldModel)>) -> AnswerModel {
    AnswerModel { status, body: BodyModel::Object(fields) }
}

/// An answer whose body is `{key: text}`.
pub open spec fn keyed_answer(status: u16, key: Seq<char>, text: Seq<char>) -> AnswerModel {
    object_answer(status, seq![(key, FieldModel::Text(text))])
}

/// An answer whose body is `{"response": text}`.
pub open spec fn response_answer(status: u16, text: Seq<char>) -> AnswerModel {
    keyed_answer(status, "response"@, text)
}

impl Answer {
    /// An answer whose body is a JSON string.
    pub fn text(status: u16, text: &str) -> (a: Answer)
        ensures
            a@ == text_answer(status, text@),
    {
        Answer { status, body: Body::Text(String::from_str(text)) }
    }

    /// An answer whose body is a JSON object of the keys and values given.
    pub fn object(status: u16, fields: Vec<(String, Field)>) -> (a: Answer)
        ensures
            a@ == object_answer(status, fields_model(fields@)),
    {
        Answer { status, body: Body::Object(fields) }
    }

    /// An answer whose body is `{key: text}`.
    pub fn keyed(status: u16, key: &str, text: String) -> (a: Answer)
        ensures
            a@ == keyed_answer(status, key@, text@),
    {
        let ghost t = text@;
        let mut fields: Vec<(String, Field)> = Vec::new();
        fields.push((String::from_str(key), Field::Text(text)));
        let a = Answer::object(status, fields);
        assert(fields_model(fields@) =~= seq![(key@, FieldModel::Text(t))]);
        a
    }

    /// An answer whose body is `{"response": text}`.
    pub fn response(status: u16, text: &str) -> (a: Answer)
        ensures
            a@ == response_answer(status, text@),
    {
        Answer::keyed(status, "response", String::from_str(text))
    }
}

} // verus!

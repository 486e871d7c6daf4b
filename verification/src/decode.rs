//! Reading a problem document: from JSON text, or from a JSON value, to an
//! [`ApiProblem`].
//!
//! A problem document is a JSON object. Its member `type` is required and is
//! a string. Its member `detail` may be missing or `null`, else it is a
//! string. Its member `subproblems` may be missing or `null`, else it is an
//! array of problem documents. Other members are ignored. Where a name occurs
//! more than once among the members, the first occurrence counts.

use crate::json::{
    item_models, json_reading, lemma_array_view, lemma_object_view, member_models, parse_json,
    reading_model, JsonModel, JsonValue,
};
use crate::problem::{lemma_problem_view, problem_models, ApiProblem, ProblemModel};
use crate::text::same_text;
use vstd::prelude::*;

verus! {

/// Why a JSON value is no problem document.
#[derive(Debug, Clone, Copy, PartialEq, Eq, Structural)]
pub enum ShapeError {
    /// The value is not an object.
    NotAnObject,
    /// The object has no member `type`.
    MissingType,
    /// The member `type` is not a string.
    TypeNotText,
    /// The member `detail` is neither a string nor `null`.
    DetailNotText,
    /// The member `subproblems` is neither an array nor `null`.
    SubproblemsNotArray,
}

/// Why a text is no problem document.
#[derive(Debug)]
pub enum DecodeError {
    /// The text is not JSON; the message is the reader's own.
    Syntax(String),
    /// The text is JSON of another shape.
    Shape(ShapeError),
}

/// Mathematical value of a [`DecodeError`].
pub enum DecodeErrorModel {
    Syntax(Seq<char>),
    Shape(ShapeError),
}

impl View for DecodeError {
    type V = DecodeErrorModel;

    open spec fn view(&self) -> DecodeErrorModel {
        match self {
            DecodeError::Syntax(m) => DecodeErrorModel::Syntax(m@),
            DecodeError::Shape(e) => DecodeErrorModel::Shape(*e),
        }
    }
}

/// The least index at or after `from` of a member called `name`.
pub open spec fn member_index_from(
    members: Seq<(Seq<char>, JsonModel)>,
    name: Seq<char>,
    from: int,
) -> Option<int>
    decreases members.len() - from,
{
    if from < 0 || from >= members.len() {
        None
    } else if members[from].0 == name {
        Some(from)
    } else {
        member_index_from(members, name, from + 1)
    }
}

/// The index of the first member called `name`.
pub open spec fn member_index(members: Seq<(Seq<char>, JsonModel)>, name: Seq<char>) -> Option<
    int,
> {
    member_index_from(members, name, 0)
}

/// What a search from `from` finds is a position of the name, and the first
/// one from there on.
pub proof fn lemma_member_index_from(
    members: Seq<(Seq<char>, JsonModel)>,
    name: Seq<char>,
    from: int,
)
    requires
        0 <= from,
    ensures
        match member_index_from(members, name, from) {
            Some(i) => from <= i < members.len() && members[i].0 == name && forall|k: int|
                from <= k < i ==> members[k].0 != name,
            None => forall|k: int| from <= k < members.len() ==> members[k].0 != name,
        },
    decreases members.len() - from,
{
    if from < members.len() && members[from].0 != name {
        lemma_member_index_from(members, name, from + 1);
    }
}

/// The `type` of a problem document with these members.
pub open spec fn kind_of_members(members: Seq<(Seq<char>, JsonModel)>) -> Result<
    Seq<char>,
    ShapeError,
> {
    match member_index(members, "type"@) {
        None => Err(ShapeError::MissingType),
        Some(i) => match members[i].1 {
            JsonModel::Text(t) => Ok(t),
            _ => Err(ShapeError::TypeNotText),
        },
    }
}

/// The `detail` of a problem document with these members.
pub open spec fn detail_of_members(members: Seq<(Seq<char>, JsonModel)>) -> Result<
    Option<Seq<char>>,
    ShapeError,
> {
    match member_index(members, "detail"@) {
        None => Ok(None),
        Some(i) => match members[i].1 {
            JsonModel::Null => Ok(None),
            JsonModel::Text(t) => Ok(Some(t)),
            _ => Err(ShapeError::DetailNotText),
        },
    }
}

/// The problem that a JSON value writes down, or why it writes none.
///
/// The members are examined in the order `type`, `detail`, `subproblems`, and
/// the first that is not as it should be gives the error.
pub open spec fn problem_of_json(j: JsonModel) -> Result<ProblemModel, ShapeError>
    decreases j,
{
    match j {
        JsonModel::Object(members) => match kind_of_members(members) {
            Err(e) => Err(e),
            Ok(kind) => match detail_of_members(members) {
                Err(e) => Err(e),
                Ok(detail) => match member_index(members, "subproblems"@) {
                    None => Ok(ProblemModel { kind, detail, subproblems: None }),
                    Some(i) => if 0 <= i < members.len() {
                        match members[i].1 {
                            JsonModel::Null => Ok(ProblemModel { kind, detail, subproblems: None }),
                            JsonModel::Array(items) => match problems_of_json(items) {
                                Err(e) => Err(e),
                                Ok(subs) => Ok(
                                    ProblemModel { kind, detail, subproblems: Some(subs) },
                                ),
                            },
                            _ => Err(ShapeError::SubproblemsNotArray),
                        }
                    } else {
                        arbitrary()
                    },
                },
            },
        },
        _ => Err(ShapeError::NotAnObject),
    }
}

/// The problems that the items of an array write down, in order; where
/// some item writes none, the error of the first such item.
pub open spec fn problems_of_json(items: Seq<JsonModel>) -> Result<Seq<ProblemModel>, ShapeError>
    decreases items,
{
    if items.len() == 0 {
        Ok(Seq::empty())
    } else {
        match problems_of_json(items.drop_last()) {
            Err(e) => Err(e),
            Ok(before) => match problem_of_json(items.last()) {
                Err(e) => Err(e),
                Ok(p) => Ok(before.push(p)),
            },
        }
    }
}

/// Once a beginning of an array holds an item that writes no problem, the
/// whole array has the error of that beginning.
pub proof fn lemma_error_of_prefix(items: Seq<JsonModel>, n: int, e: ShapeError)
    requires
        0 <= n <= items.len(),
        problems_of_json(items.take(n)) == Err::<Seq<ProblemModel>, ShapeError>(e),
    ensures
        problems_of_json(items) == Err::<Seq<ProblemModel>, ShapeError>(e),
    decreases items.len(),
{
    if n == items.len() {
        assert(items.take(n) =~= items);
    } else {
        assert(items.drop_last().take(n) =~= items.take(n));
        lemma_error_of_prefix(items.drop_last(), n, e);
    }
}

/// View of the outcome of decoding one value.
pub open spec fn decoded_model(r: Result<ApiProblem, ShapeError>) -> Result<
    ProblemModel,
    ShapeError,
> {
    match r {
        Ok(p) => Ok(p@),
        Err(e) => Err(e),
    }
}

/// View of the outcome of decoding the items of an array.
pub open spec fn decoded_models(r: Result<Vec<ApiProblem>, ShapeError>) -> Result<
    Seq<ProblemModel>,
    ShapeError,
> {
    match r {
        Ok(v) => Ok(problem_models(v)),
        Err(e) => Err(e),
    }
}

/// Finds the first member called `name`.
pub fn find_member(members: &Vec<(String, JsonValue)>, name: &str) -> (r: Option<usize>)
    ensures
        match r {
            Some(i) => i < members.len() && member_index(member_models(*members), name@) == Some(
                i as int,
            ),
            None => member_index(member_models(*members), name@) is None,
        },
{
    let mut i: usize = 0;
    while i < members.len()
        invariant
            i <= members.len(),
            member_index(member_models(*members), name@) == member_index_from(
                member_models(*members),
                name@,
                i as int,
            ),
        decreases members.len() - i,
    {
        if same_text(members[i].0.as_str(), name) {
            return Some(i);
        }
        i += 1;
    }
    None
}

/// Decodes a problem document from a JSON value.
pub fn problem_from_json(j: &JsonValue) -> (r: Result<ApiProblem, ShapeError>)
    ensures
        decoded_model(r) == problem_of_json(j@),
    decreases j,
{
    match j {
        JsonValue::Object(members) => {
            proof {
                lemma_object_view(*members);
            }
            let kind: String = match find_member(members, "type") {
                None => {
                    return Err(ShapeError::MissingType);
                },
                Some(i) => match &members[i].1 {
                    JsonValue::Text(t) => t.clone(),
                    _ => {
                        return Err(ShapeError::TypeNotText);
                    },
                },
            };
            let detail: Option<String> = match find_member(members, "detail") {
                None => None,
                Some(i) => match &members[i].1 {
                    JsonValue::Null => None,
                    JsonValue::Text(t) => Some(t.clone()),
                    _ => {
                        return Err(ShapeError::DetailNotText);
                    },
                },
            };
            let subproblems: Option<Vec<ApiProblem>> = match find_member(members, "subproblems") {
                None => None,
                Some(i) => match &members[i].1 {
                    JsonValue::Null => None,
                    JsonValue::Array(items) => {
                        proof {
                            lemma_array_view(*items);
                        }
                        match problems_from_json(items) {
                            Err(e) => {
                                return Err(e);
                            },
                            Ok(subs) => Some(subs),
                        }
                    },
                    _ => {
                        return Err(ShapeError::SubproblemsNotArray);
                    },
                },
            };
            let p = ApiProblem { _type: kind, detail, subproblems };
            proof {
                lemma_problem_view(p);
            }
            Ok(p)
        },
        _ => Err(ShapeError::NotAnObject),
    }
}

/// Decodes the items of an array as problem documents, stopping at the first
/// that is none.
pub fn problems_from_json(items: &Vec<JsonValue>) -> (r: Result<Vec<ApiProblem>, ShapeError>)
    ensures
        decoded_models(r) == problems_of_json(item_models(*items)),
    decreases items,
{
    let ghost models = item_models(*items);
    let mut out: Vec<ApiProblem> = Vec::new();
    let mut i: usize = 0;
    proof {
        assert(models.take(0) =~= Seq::empty());
        assert(problem_models(out) =~= Seq::empty());
    }
    while i < items.len()
        invariant
            i <= items.len(),
            models == item_models(*items),
            problems_of_json(models.take(i as int)) == Ok::<Seq<ProblemModel>, ShapeError>(
                problem_models(out),
            ),
        decreases items.len() - i,
    {
        proof {
            assert(models.take(i + 1).drop_last() =~= models.take(i as int));
            assert(models.take(i + 1).last() == items[i as int]@);
        }
        match problem_from_json(&items[i]) {
            Err(e) => {
                proof {
                    lemma_error_of_prefix(models, i + 1, e);
                }
                return Err(e);
            },
            Ok(p) => {
                let ghost before = problem_models(out);
                out.push(p);
                proof {
                    assert(problem_models(out) =~= before.push(p@));
                }
            },
        }
        i += 1;
    }
    proof {
        assert(models.take(i as int) =~= models);
    }
    Ok(out)
}

/// What is wrong with the shape, in words.
pub open spec fn shape_message(e: ShapeError) -> Seq<char> {
    match e {
        ShapeError::NotAnObject => "expected a JSON object"@,
        ShapeError::MissingType => "missing field `type`"@,
        ShapeError::TypeNotText => "field `type` is not a string"@,
        ShapeError::DetailNotText => "field `detail` is neither a string nor null"@,
        ShapeError::SubproblemsNotArray => "field `subproblems` is neither an array nor null"@,
    }
}

/// Why the text is no problem document, in words: the reader's message for
/// text that is not JSON, else what is wrong with the shape.
pub open spec fn decode_message(e: DecodeErrorModel) -> Seq<char> {
    match e {
        DecodeErrorModel::Syntax(m) => m,
        DecodeErrorModel::Shape(e) => shape_message(e),
    }
}

impl ShapeError {
    /// What is wrong with the shape, in words.
    pub fn message(&self) -> (r: &'static str)
        ensures
            r@ == shape_message(*self),
    {
        match self {
            ShapeError::NotAnObject => "expected a JSON object",
            ShapeError::MissingType => "missing field `type`",
            ShapeError::TypeNotText => "field `type` is not a string",
            ShapeError::DetailNotText => "field `detail` is neither a string nor null",
            ShapeError::SubproblemsNotArray => "field `subproblems` is neither an array nor null",
        }
    }
}

impl DecodeError {
    /// Why the text is no problem document, in words.
    pub fn message(&self) -> (r: &str)
        ensures
            r@ == decode_message(self@),
    {
        match self {
            DecodeError::Syntax(m) => m.as_str(),
            DecodeError::Shape(e) => e.message(),
        }
    }
}

/// The problem that the outcome of reading a text as JSON stands for.
pub open spec fn problem_of_reading(reading: Result<JsonModel, Seq<char>>) -> Result<
    ProblemModel,
    DecodeErrorModel,
> {
    match reading {
        Err(m) => Err(DecodeErrorModel::Syntax(m)),
        Ok(j) => match problem_of_json(j) {
            Ok(p) => Ok(p),
            Err(e) => Err(DecodeErrorModel::Shape(e)),
        },
    }
}

/// The problem that a text writes down, or why it writes none.
pub open spec fn problem_of_text(text: Seq<char>) -> Result<ProblemModel, DecodeErrorModel> {
    problem_of_reading(json_reading(text))
}

/// View of the outcome of decoding a text.
pub open spec fn decoding_model(r: Result<ApiProblem, DecodeError>) -> Result<
    ProblemModel,
    DecodeErrorModel,
> {
    match r {
        Ok(p) => Ok(p@),
        Err(e) => Err(e@),
    }
}

/// Decodes a problem document from the outcome of reading a text as JSON.
pub fn problem_from_reading(reading: Result<JsonValue, String>) -> (r: Result<
    ApiProblem,
    DecodeError,
>)
    ensures
        decoding_model(r) == problem_of_reading(reading_model(reading)),
{
    match reading {
        Err(m) => Err(DecodeError::Syntax(m)),
        Ok(j) => match problem_from_json(&j) {
            Ok(p) => Ok(p),
            Err(e) => Err(DecodeError::Shape(e)),
        },
    }
}

/// Decodes a problem document from text.
pub fn problem_from_text(text: &str) -> (r: Result<ApiProblem, DecodeError>)
    ensures
        decoding_model(r) == problem_of_text(text@),
{
    problem_from_reading(parse_json(text))
}

} // verus!

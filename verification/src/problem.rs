//! The structured error value that every failure is reported as.

use vstd::prelude::*;

verus! {

/// Mathematical value of an [`ApiProblem`].
pub struct ProblemModel {
    pub kind: Seq<char>,
    pub detail: Option<Seq<char>>,
    pub subproblems: Option<Seq<ProblemModel>>,
}

/// A problem as the authority reports it, or as this library synthesises it
/// for failures that carry no such report.
#[derive(Debug)]
pub struct ApiProblem {
    /// The tag that callers discriminate on.
    pub _type: String,
    /// Human-readable explanation, if any.
    pub detail: Option<String>,
    /// Problems nested below this one, in the order received.
    pub subproblems: Option<Vec<ApiProblem>>,
}

/// View of an optional string.
pub open spec fn option_text(s: Option<String>) -> Option<Seq<char>> {
    match s {
        Some(t) => Some(t@),
        None => None,
    }
}

/// The value of a problem: its fields, with every nested problem taken by
/// its own value.
pub open spec fn problem_model(p: ApiProblem) -> ProblemModel
    decreases p,
{
    ProblemModel {
        kind: p._type@,
        detail: option_text(p.detail),
        subproblems: match p.subproblems {
            Some(v) => Some(
                Seq::new(
                    v.len() as nat,
                    |i: int|
                        if 0 <= i < v.len() {
                            problem_model(v[i])
                        } else {
                            arbitrary()
                        },
                ),
            ),
            None => None,
        },
    }
}

impl View for ApiProblem {
    type V = ProblemModel;

    open spec fn view(&self) -> ProblemModel {
        problem_model(*self)
    }
}

/// Views of a list of problems, in order.
pub open spec fn problem_models(problems: Vec<ApiProblem>) -> Seq<ProblemModel> {
    Seq::new(problems.len() as nat, |i: int| problems[i]@)
}

/// View of an optional list of problems.
pub open spec fn option_problem_models(problems: Option<Vec<ApiProblem>>) -> Option<
    Seq<ProblemModel>,
> {
    match problems {
        Some(v) => Some(problem_models(v)),
        None => None,
    }
}

/// The view of a problem, field by field.
pub proof fn lemma_problem_view(p: ApiProblem)
    ensures
        p@ == (ProblemModel {
            kind: p._type@,
            detail: option_text(p.detail),
            subproblems: option_problem_models(p.subproblems),
        }),
{
    reveal_with_fuel(problem_model, 2);
    match p.subproblems {
        Some(v) => {
            assert(p@.subproblems->Some_0 =~= problem_models(v));
        },
        None => {},
    }
}

/// The kind of a problem that stands for a failed request of which the
/// remote side gave no structured account.
pub const GENERIC_KIND: &'static str = "httpReqError";

/// The kind of a problem that stands for a problem document that could not
/// be decoded.
pub const DECODE_FAILURE_KIND: &'static str = "problemJsonFail";

/// [`GENERIC_KIND`] as characters.
pub open spec fn generic_kind() -> Seq<char> {
    GENERIC_KIND@
}

/// [`DECODE_FAILURE_KIND`] as characters.
pub open spec fn decode_failure_kind() -> Seq<char> {
    DECODE_FAILURE_KIND@
}

/// The kind of a problem that stands for a missing header called `name`.
pub open spec fn missing_header_kind(name: Seq<char>) -> Seq<char> {
    "Missing header: "@ + name
}

/// The detail of a problem that stands for an undecodable problem document:
/// the decoder's message and the whole body.
pub open spec fn decode_failure_detail(message: Seq<char>, body: Seq<char>) -> Seq<char> {
    "Failed to deserialize application/problem+json ("@ + message + ") body: "@ + body
}

/// A problem without nested problems.
pub open spec fn flat_problem(kind: Seq<char>, detail: Option<Seq<char>>) -> ProblemModel {
    ProblemModel { kind, detail, subproblems: None }
}

impl ApiProblem {
    /// The problem for a failed request, with the failure in words.
    pub fn generic(detail: String) -> (r: ApiProblem)
        ensures
            r@ == flat_problem(generic_kind(), Some(detail@)),
    {
        let r = ApiProblem {
            _type: String::from_str(GENERIC_KIND),
            detail: Some(detail),
            subproblems: None,
        };
        proof {
            lemma_problem_view(r);
        }
        r
    }

    /// The problem for a problem document that could not be decoded.
    pub fn decode_failure(message: &str, body: &str) -> (r: ApiProblem)
        ensures
            r@ == flat_problem(
                decode_failure_kind(),
                Some(decode_failure_detail(message@, body@)),
            ),
    {
        let mut detail = String::from_str("Failed to deserialize application/problem+json (");
        detail.append(message);
        detail.append(") body: ");
        detail.append(body);
        let r = ApiProblem {
            _type: String::from_str(DECODE_FAILURE_KIND),
            detail: Some(detail),
            subproblems: None,
        };
        proof {
            lemma_problem_view(r);
        }
        r
    }

    /// The problem for a response that lacks the header called `name`.
    pub fn missing_header(name: &str) -> (r: ApiProblem)
        ensures
            r@ == flat_problem(missing_header_kind(name@), None),
    {
        let mut kind = String::from_str("Missing header: ");
        kind.append(name);
        let r = ApiProblem { _type: kind, detail: None, subproblems: None };
        proof {
            lemma_problem_view(r);
        }
        r
    }
}

} // verus!

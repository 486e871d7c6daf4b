//! From the outcome of a request to a response or a structured problem.

use crate::decode::{
    decode_message, decoding_model, problem_from_text, problem_of_text, DecodeError,
    DecodeErrorModel,
};
use crate::problem::{
    decode_failure_detail, decode_failure_kind, flat_problem, generic_kind, missing_header_kind,
    ApiProblem, ProblemModel,
};
use crate::response::{req_safe_read_body, RequestError, Response, Transport};
use crate::text::{decimal, decimal_text, same_text};
use vstd::prelude::*;

verus! {

/// The media type under which a body is a problem document.
pub const PROBLEM_CONTENT_TYPE: &'static str = "application/problem+json";

/// [`PROBLEM_CONTENT_TYPE`] as characters.
pub open spec fn problem_content_type() -> Seq<char> {
    PROBLEM_CONTENT_TYPE@
}

/// The problem that a body under the problem media type stands for, given
/// what decoding it gave: the decoded problem itself, or one that tells of
/// the failure and keeps the body.
pub open spec fn problem_of_decoding(
    body: Seq<char>,
    decoded: Result<ProblemModel, DecodeErrorModel>,
) -> ProblemModel {
    match decoded {
        Ok(p) => p,
        Err(e) => flat_problem(
            decode_failure_kind(),
            Some(decode_failure_detail(decode_message(e), body)),
        ),
    }
}

/// The detail of the problem for an error status without a problem
/// document: the status line, then the body.
pub open spec fn status_detail(status: u16, status_text: Seq<char>, body: Seq<char>) -> Seq<char> {
    decimal(status as nat) + " "@ + status_text + " body: "@ + body
}

/// The problem that a response with an error status stands for.
pub open spec fn status_problem(status: u16, res: Response) -> ProblemModel {
    if res.spec_content_type() == problem_content_type() {
        problem_of_decoding(res.spec_body_text(), problem_of_text(res.spec_body_text()))
    } else {
        flat_problem(
            generic_kind(),
            Some(status_detail(status, res.status_text@, res.spec_body_text())),
        )
    }
}

/// The problem that a request without a success stands for.
pub open spec fn problem_of_error(err: RequestError) -> ProblemModel {
    match err {
        RequestError::Status(status, res) => status_problem(status, res),
        RequestError::Transport(t) => flat_problem(generic_kind(), Some(t.message@)),
    }
}

/// The response that a request left behind, if any.
pub open spec fn response_of(res: &Result<Response, RequestError>) -> Option<&Response> {
    match res {
        Ok(r) => Some(r),
        Err(RequestError::Status(_, r)) => Some(r),
        Err(RequestError::Transport(_)) => None,
    }
}

/// Settles what a body under the problem media type stands for, once it has
/// been decoded: a decoded problem is handed on as it is, a failure becomes a
/// problem that carries the decoder's message and the body.
pub fn problem_from_decoding(body: &str, decoded: Result<ApiProblem, DecodeError>) -> (r:
    ApiProblem)
    ensures
        r@ == problem_of_decoding(body@, decoding_model(decoded)),
{
    match decoded {
        Ok(p) => p,
        Err(e) => ApiProblem::decode_failure(e.message(), body),
    }
}

/// Turns the outcome of a request into a response or a problem.
///
/// A response with a success status is handed on untouched. A response with
/// an error status becomes the problem that its body writes down where its
/// media type is `application/problem+json`, and else a generic problem made
/// of status line and body. A failure without a response becomes a generic
/// problem with the failure's own words.
pub fn req_handle_error(res: Result<Response, RequestError>) -> (r: Result<Response, ApiProblem>)
    ensures
        match res {
            Ok(response) => r == Ok::<Response, ApiProblem>(response),
            Err(err) => r is Err && r->Err_0@ == problem_of_error(err),
        },
{
    match res {
        Ok(response) => Ok(response),
        Err(RequestError::Status(status, response)) => {
            if same_text(response.content_type(), PROBLEM_CONTENT_TYPE) {
                let body: String = req_safe_read_body(response);
                Err(problem_from_decoding(body.as_str(), problem_from_text(body.as_str())))
            } else {
                let mut detail: String = decimal_text(status as u64);
                detail.append(" ");
                detail.append(response.status_text.as_str());
                detail.append(" body: ");
                let body: String = req_safe_read_body(response);
                detail.append(body.as_str());
                Err(ApiProblem::generic(detail))
            }
        },
        Err(RequestError::Transport(transport)) => Err(ApiProblem::generic(transport.message)),
    }
}

/// The response that a request left behind: the one with a success status,
/// or the one that came with an error status; none where no answer was
/// received.
pub fn req_extract_res(res: &Result<Response, RequestError>) -> (r: Option<&Response>)
    ensures
        r == response_of(res),
{
    match res {
        Ok(response) => Some(response),
        Err(RequestError::Status(_, response)) => Some(response),
        Err(RequestError::Transport(_)) => None,
    }
}

/// The value of the header called `name`, or the problem that says that it
/// is missing.
pub fn req_expect_header(res: &Response, name: &str) -> (r: Result<String, ApiProblem>)
    ensures
        match res.spec_header(name@) {
            Some(v) => r is Ok && r->Ok_0@ == v,
            None => r is Err && r->Err_0@ == flat_problem(missing_header_kind(name@), None),
        },
{
    match res.header(name) {
        Some(v) => Ok(String::from_str(v)),
        None => Err(ApiProblem::missing_header(name)),
    }
}

/// Whether `needle` stands somewhere in `hay`, character for character.
pub open spec fn contains_text(hay: Seq<char>, needle: Seq<char>) -> bool {
    exists|i: int|
        0 <= i && i + needle.len() <= hay.len() && #[trigger] hay.subrange(
            i,
            i + needle.len(),
        ) == needle
}

/// A request that got no answer leaves no response behind, and its problem
/// is the generic one with the failure's own words as detail.
pub proof fn lemma_transport_failure(t: Transport)
    ensures
        response_of(&Err::<Response, RequestError>(RequestError::Transport(t))) is None,
        problem_of_error(RequestError::Transport(t)) == flat_problem(
            generic_kind(),
            Some(t.message@),
        ),
{
}

/// A request that got an answer leaves that answer behind, whatever its
/// status.
pub proof fn lemma_answer_is_kept(status: u16, res: Response)
    ensures
        response_of(&Ok::<Response, RequestError>(res)) == Some(&res),
        response_of(&Err::<Response, RequestError>(RequestError::Status(status, res))) == Some(
            &res,
        ),
{
}

/// A problem document that decodes is reported as it was sent: kind,
/// detail and nested problems are those of the document.
pub proof fn lemma_reported_problem_is_verbatim(status: u16, res: Response, p: ProblemModel)
    requires
        res.spec_content_type() == problem_content_type(),
        problem_of_text(res.spec_body_text()) == Ok::<ProblemModel, DecodeErrorModel>(p),
    ensures
        status_problem(status, res) == p,
{
}

/// A problem document that does not decode is not lost: the problem
/// reported in its place has the decode-failure kind, no nested problems,
/// and a detail in which both the decoder's message and the whole body
/// stand.
pub proof fn lemma_undecodable_problem_is_kept(status: u16, res: Response, e: DecodeErrorModel)
    requires
        res.spec_content_type() == problem_content_type(),
        problem_of_text(res.spec_body_text()) == Err::<ProblemModel, DecodeErrorModel>(e),
    ensures
        status_problem(status, res).kind == decode_failure_kind(),
        status_problem(status, res).subproblems is None,
        status_problem(status, res).detail is Some,
        contains_text(status_problem(status, res).detail->Some_0, decode_message(e)),
        contains_text(status_problem(status, res).detail->Some_0, res.spec_body_text()),
{
    let message = decode_message(e);
    let body = res.spec_body_text();
    let detail = decode_failure_detail(message, body);
    let head = "Failed to deserialize application/problem+json ("@;
    let mid = ") body: "@;
    let from: int = head.len() as int;
    assert(detail.subrange(from, from + message.len()) =~= message);
    let at: int = from + message.len() + mid.len();
    assert(detail.subrange(at, at + body.len()) =~= body);
}

/// An error status without a problem document is reported with the generic
/// kind, and its detail ends with the body.
pub proof fn lemma_plain_error_status(status: u16, res: Response)
    requires
        res.spec_content_type() != problem_content_type(),
    ensures
        status_problem(status, res).kind == generic_kind(),
        status_problem(status, res).subproblems is None,
        status_problem(status, res).detail == Some(
            decimal(status as nat) + " "@ + res.status_text@ + " body: "@ + res.spec_body_text(),
        ),
{
}

} // verus!

//! The request dispatcher: everything the service decides about a
//! request apart from the floating-point work itself. Given the request
//! path it either produces the finished error reply (bad route, unknown
//! operation) or hands back the resolved operation and the two validated
//! operand tokens; given the operand verdicts it produces the finished
//! operand-error reply; and it frames the success reply around the
//! rendered result.

use vstd::prelude::*;

use crate::ascii::ascii_bytes;
use crate::json::append_lit;
use crate::json::error_body;
use crate::json::error_body_model;
use crate::json::success_body;
use crate::json::success_body_model;
use crate::ops::op_of_name;
use crate::ops::check_method;
use crate::ops::OpType;
use crate::route::match_route;
use crate::route::parsed_route;

verus! {

/// The HTTP status code of a success reply.
pub const HTTP_OK: u16 = 200;

/// The HTTP status code of a routing failure.
pub const HTTP_NOT_FOUND: u16 = 404;

/// The HTTP status code of an unknown operation or a bad operand.
pub const HTTP_BAD_METHOD: u16 = 405;

/// A finished HTTP reply: the status code and the JSON body.
pub struct Reply {
    pub code: u16,
    pub body: Vec<u8>,
}

/// The mathematical shape of a reply.
pub struct ReplyModel {
    pub code: int,
    pub body: Seq<u8>,
}

impl View for Reply {
    type V = ReplyModel;

    open spec fn view(&self) -> ReplyModel {
        ReplyModel { code: self.code as int, body: self.body@ }
    }
}

/// The error reply for a message and a status code: the code is both
/// the HTTP status and the `error_code` field of the body.
pub open spec fn error_model(msg: Seq<u8>, code: u16) -> ReplyModel {
    ReplyModel { code: code as int, body: error_body_model(msg, code) }
}

/// The success reply around a rendered result.
pub open spec fn success_model(num: Seq<u8>) -> ReplyModel {
    ReplyModel { code: HTTP_OK as int, body: success_body_model(num) }
}

/// Build an error reply from a message and a status code.
pub fn error_reply(msg: &[u8], code: u16) -> (r: Reply)
    ensures
        r@ == error_model(msg@, code),
{
    Reply { code, body: error_body(msg, code) }
}

/// Build the success reply around an already rendered result.
pub fn success_reply(number_text: &[u8]) -> (r: Reply)
    ensures
        r@ == success_model(number_text@),
{
    Reply { code: HTTP_OK, body: success_body(number_text) }
}

/// The message of a routing failure.
pub open spec fn msg_invalid_url() -> Seq<u8> {
    ascii_bytes("Invalid url"@)
}

/// The message of an unknown operation name, listing the registry.
pub open spec fn msg_invalid_method() -> Seq<u8> {
    ascii_bytes("Invalid method. Possible methods: [\"plus\", \"minus\", \"div\", \"mul\"]"@)
}

/// What the dispatcher decides from the path alone: either the request
/// is finished with an error reply, or an operation must be computed on
/// the two operand tokens.
pub enum Outcome {
    Finished(Reply),
    Compute { op: OpType, first: Vec<u8>, second: Vec<u8> },
}

/// The mathematical shape of an outcome.
pub enum PlanModel {
    Finished(ReplyModel),
    Compute { op: OpType, first: Seq<u8>, second: Seq<u8> },
}

impl View for Outcome {
    type V = PlanModel;

    open spec fn view(&self) -> PlanModel {
        match self {
            Outcome::Finished(r) => PlanModel::Finished(r@),
            Outcome::Compute { op, first, second } => PlanModel::Compute {
                op: *op,
                first: first@,
                second: second@,
            },
        }
    }
}

/// What the dispatcher decides from a path: a path that does not match
/// the route gets the routing error; a matched path whose name is not
/// in the registry gets the unknown-operation error; otherwise the
/// resolved operation and the raw operand tokens are handed on.
pub open spec fn plan_model(p: Seq<u8>) -> PlanModel {
    match parsed_route(p) {
        None => PlanModel::Finished(error_model(msg_invalid_url(), HTTP_NOT_FOUND)),
        Some(t) => match op_of_name(t.0) {
            None => PlanModel::Finished(error_model(msg_invalid_method(), HTTP_BAD_METHOD)),
            Some(op) => PlanModel::Compute { op, first: t.1, second: t.2 },
        },
    }
}

/// Decide a request from its path: match the route, resolve the
/// operation, and either finish with the correct error reply or hand
/// back the operation and the operand tokens.
pub fn plan_request(path: &[u8]) -> (o: Outcome)
    ensures
        o@ == plan_model(path@),
{
    match match_route(path) {
        None => {
            proof {
                reveal_strlit("Invalid url");
                assert(vstd::string::is_ascii("Invalid url"));
            }
            let mut m: Vec<u8> = Vec::new();
            append_lit(&mut m, "Invalid url");
            Outcome::Finished(error_reply(m.as_slice(), HTTP_NOT_FOUND))
        },
        Some(parts) => {
            match check_method(parts.name.as_slice()) {
                None => {
                    proof {
                        reveal_strlit(
                            "Invalid method. Possible methods: [\"plus\", \"minus\", \"div\", \"mul\"]",
                        );
                        assert(vstd::string::is_ascii(
                            "Invalid method. Possible methods: [\"plus\", \"minus\", \"div\", \"mul\"]",
                        ));
                    }
                    let mut m: Vec<u8> = Vec::new();
                    append_lit(
                        &mut m,
                        "Invalid method. Possible methods: [\"plus\", \"minus\", \"div\", \"mul\"]",
                    );
                    Outcome::Finished(error_reply(m.as_slice(), HTTP_BAD_METHOD))
                },
                Some(op) => Outcome::Compute { op, first: parts.first, second: parts.second },
            }
        },
    }
}

/// How one operand fared under validation: it parsed and lay within
/// the accepted range, it was not a well-formed number, or it lay
/// below or above the accepted range.
#[derive(Clone, Copy, Debug, PartialEq, Eq, Structural)]
pub enum NumVerdict {
    Good,
    BadFormat,
    TooSmall,
    TooLarge,
}

/// The detail text of a failed operand verdict.
pub open spec fn verdict_detail(v: NumVerdict) -> Seq<u8> {
    match v {
        NumVerdict::Good => Seq::empty(),
        NumVerdict::BadFormat => ascii_bytes("Invalid number format. Should be a JSON number"@),
        NumVerdict::TooSmall => ascii_bytes("Number should not be less than -1e9"@),
        NumVerdict::TooLarge => ascii_bytes("Number should not be greater than 1e9"@),
    }
}

/// The reply owed to a pair of operand verdicts: a failure of the first
/// operand takes precedence over one of the second, each is reported
/// under the operand it names, and two good verdicts owe no reply.
pub open spec fn operand_error_model(first: NumVerdict, second: NumVerdict) -> Option<ReplyModel> {
    if first != NumVerdict::Good {
        Some(
            error_model(
                ascii_bytes("Invalid first argument: "@) + verdict_detail(first),
                HTTP_BAD_METHOD,
            ),
        )
    } else if second != NumVerdict::Good {
        Some(
            error_model(
                ascii_bytes("Invalid second argument: "@) + verdict_detail(second),
                HTTP_BAD_METHOD,
            ),
        )
    } else {
        None
    }
}

fn append_detail(out: &mut Vec<u8>, v: NumVerdict)
    ensures
        final(out)@ == old(out)@ + verdict_detail(v),
{
    match v {
        NumVerdict::Good => {},
        NumVerdict::BadFormat => {
            proof {
                reveal_strlit("Invalid number format. Should be a JSON number");
                assert(vstd::string::is_ascii("Invalid number format. Should be a JSON number"));
            }
            append_lit(out, "Invalid number format. Should be a JSON number");
        },
        NumVerdict::TooSmall => {
            proof {
                reveal_strlit("Number should not be less than -1e9");
                assert(vstd::string::is_ascii("Number should not be less than -1e9"));
            }
            append_lit(out, "Number should not be less than -1e9");
        },
        NumVerdict::TooLarge => {
            proof {
                reveal_strlit("Number should not be greater than 1e9");
                assert(vstd::string::is_ascii("Number should not be greater than 1e9"));
            }
            append_lit(out, "Number should not be greater than 1e9");
        },
    }
    proof {
        if v == NumVerdict::Good {
            assert(old(out)@ + verdict_detail(v) =~= old(out)@);
        }
    }
}

/// Turn the two operand verdicts into the reply they are owed, or
/// nothing when both operands passed and the operation may proceed.
pub fn operand_error_reply(first: NumVerdict, second: NumVerdict) -> (r: Option<Reply>)
    ensures
        match r {
            Some(rep) => operand_error_model(first, second) == Some(rep@),
            None => operand_error_model(first, second) is None,
        },
{
    match first {
        NumVerdict::Good => {},
        _ => {
            proof {
                reveal_strlit("Invalid first argument: ");
                assert(vstd::string::is_ascii("Invalid first argument: "));
            }
            let mut m: Vec<u8> = Vec::new();
            append_lit(&mut m, "Invalid first argument: ");
            append_detail(&mut m, first);
            return Some(error_reply(m.as_slice(), HTTP_BAD_METHOD));
        },
    }
    match second {
        NumVerdict::Good => None,
        _ => {
            proof {
                reveal_strlit("Invalid second argument: ");
                assert(vstd::string::is_ascii("Invalid second argument: "));
            }
            let mut m: Vec<u8> = Vec::new();
            append_lit(&mut m, "Invalid second argument: ");
            append_detail(&mut m, second);
            Some(error_reply(m.as_slice(), HTTP_BAD_METHOD))
        },
    }
}

/// Law: a path that does not match the three-segment route is answered
/// with the routing error, status 404, and the body repeats the code.
pub proof fn lemma_unmatched_path_not_found(p: Seq<u8>)
    requires
        parsed_route(p) is None,
    ensures
        plan_model(p) == PlanModel::Finished(error_model(msg_invalid_url(), HTTP_NOT_FOUND)),
{
}

/// Law: a matched path whose operation name is not in the registry is
/// answered with the unknown-operation error, status 405, whose message
/// lists the registry and whose body repeats the code.
pub proof fn lemma_unknown_operation_bad_method(p: Seq<u8>)
    requires
        parsed_route(p) matches Some(t) && op_of_name(t.0) is None,
    ensures
        plan_model(p) == PlanModel::Finished(error_model(msg_invalid_method(), HTTP_BAD_METHOD)),
{
}

/// Law: a path that matches the route and names a registered operation
/// is owed a computation — the resolved operation and the two raw
/// operand tokens are handed on unchanged — and when both operands then
/// pass validation no error is owed: the reply framed around the
/// rendered result has status 200.
pub proof fn lemma_valid_path_computes(p: Seq<u8>, t: (Seq<u8>, Seq<u8>, Seq<u8>), op: OpType)
    requires
        parsed_route(p) == Some(t),
        op_of_name(t.0) == Some(op),
    ensures
        plan_model(p) == (PlanModel::Compute { op, first: t.1, second: t.2 }),
        operand_error_model(NumVerdict::Good, NumVerdict::Good) is None,
        forall|num: Seq<u8>| (#[trigger] success_model(num)).code == HTTP_OK as int,
{
}

/// Law: handling a request is deterministic. Repeating a request — the
/// same path, and on the compute path the same operand verdicts and the
/// same rendered result — yields the same status code and a
/// byte-identical body at every stage of the pipeline.
pub proof fn lemma_response_deterministic(
    p1: Seq<u8>,
    p2: Seq<u8>,
    first1: NumVerdict,
    first2: NumVerdict,
    second1: NumVerdict,
    second2: NumVerdict,
    num1: Seq<u8>,
    num2: Seq<u8>,
)
    requires
        p1 == p2,
        first1 == first2,
        second1 == second2,
        num1 == num2,
    ensures
        plan_model(p1) == plan_model(p2),
        operand_error_model(first1, second1) == operand_error_model(first2, second2),
        success_model(num1) == success_model(num2),
{
}

} // verus!

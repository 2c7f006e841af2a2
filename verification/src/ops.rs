//! The operation registry: the four arithmetic operations and the
//! case-insensitive lookup from an operation name to one of them.

use vstd::prelude::*;

use crate::ascii::ascii_bytes;
use crate::ascii::eq_bytes;
use crate::ascii::lower_bytes;
use crate::ascii::to_ascii_lower;
use vstd::string::StringSliceAdditionalSpecFns;

verus! {

/// The four operations the service offers.
#[derive(Clone, Copy, Debug, PartialEq, Eq, Structural)]
pub enum OpType {
    Plus,
    Minus,
    Div,
    Mul,
}

/// What the registry resolves a name to: the name is ASCII-lowercased
/// and looked up against the fixed set `plus`, `minus`, `div`, `mul`,
/// in that order.
pub open spec fn op_of_name(s: Seq<u8>) -> Option<OpType> {
    let l = lower_bytes(s);
    if l == ascii_bytes("plus"@) {
        Some(OpType::Plus)
    } else if l == ascii_bytes("minus"@) {
        Some(OpType::Minus)
    } else if l == ascii_bytes("div"@) {
        Some(OpType::Div)
    } else if l == ascii_bytes("mul"@) {
        Some(OpType::Mul)
    } else {
        None
    }
}

proof fn lemma_lit_bytes(s: &str)
    requires
        vstd::string::is_ascii(s),
    ensures
        s.spec_bytes() == ascii_bytes(s@),
{
    vstd::string::is_ascii_spec_bytes(s);
    assert(s.spec_bytes() =~= ascii_bytes(s@));
}

/// Resolve an operation name, case-insensitively, against the registry.
pub fn check_method(method: &[u8]) -> (r: Option<OpType>)
    ensures
        r == op_of_name(method@),
{
    let lower = to_ascii_lower(method);
    proof {
        reveal_strlit("plus");
        reveal_strlit("minus");
        reveal_strlit("div");
        reveal_strlit("mul");
        assert(vstd::string::is_ascii("plus"));
        assert(vstd::string::is_ascii("minus"));
        assert(vstd::string::is_ascii("div"));
        assert(vstd::string::is_ascii("mul"));
        lemma_lit_bytes("plus");
        lemma_lit_bytes("minus");
        lemma_lit_bytes("div");
        lemma_lit_bytes("mul");
    }
    if eq_bytes(lower.as_slice(), "plus".as_bytes()) {
        Some(OpType::Plus)
    } else if eq_bytes(lower.as_slice(), "minus".as_bytes()) {
        Some(OpType::Minus)
    } else if eq_bytes(lower.as_slice(), "div".as_bytes()) {
        Some(OpType::Div)
    } else if eq_bytes(lower.as_slice(), "mul".as_bytes()) {
        Some(OpType::Mul)
    } else {
        None
    }
}

/// Law: the registry is case-insensitive — a name and its ASCII
/// lowercasing resolve to the same operation.
pub proof fn lemma_lookup_case_insensitive(s: Seq<u8>)
    ensures
        op_of_name(s) == op_of_name(lower_bytes(s)),
{
    assert(lower_bytes(lower_bytes(s)) =~= lower_bytes(s));
}

} // verus!

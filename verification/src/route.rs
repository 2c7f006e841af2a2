//! The route matcher: a request path is accepted exactly when it has the
//! shape `/name/number/number`, where `name` is one or more ASCII letters
//! and each `number` follows the JSON numeric grammar (optional minus
//! sign, integer part without a leading zero, optional fraction, optional
//! exponent), anchored at both ends.

use vstd::prelude::*;

use crate::ascii::UPPER_A;
use crate::ascii::UPPER_Z;

verus! {

/// The byte value of `'/'`.
pub const SLASH: u8 = 47;

/// The byte value of `'0'`.
pub const DIGIT_0: u8 = 48;

/// The byte value of `'9'`.
pub const DIGIT_9: u8 = 57;

/// The byte value of `'a'`.
pub const LOWER_A: u8 = 97;

/// The byte value of `'z'`.
pub const LOWER_Z: u8 = 122;

/// The byte value of `'-'`.
pub const MINUS: u8 = 45;

/// The byte value of `'+'`.
pub const PLUS_SIGN: u8 = 43;

/// The byte value of `'.'`.
pub const DOT: u8 = 46;

/// The byte value of `'e'`.
pub const LOWER_E: u8 = 101;

/// The byte value of `'E'`.
pub const UPPER_E: u8 = 69;

/// A decimal digit byte.
pub open spec fn is_digit(b: u8) -> bool {
    DIGIT_0 <= b && b <= DIGIT_9
}

/// An ASCII letter byte.
pub open spec fn is_alpha(b: u8) -> bool {
    (LOWER_A <= b && b <= LOWER_Z) || (UPPER_A <= b && b <= UPPER_Z)
}

/// An operation-name segment: one or more ASCII letters.
pub open spec fn is_name_token(s: Seq<u8>) -> bool {
    s.len() > 0 && forall|i: int| 0 <= i < s.len() ==> is_alpha(#[trigger] s[i])
}

/// The first position at or after `i` that does not hold a digit.
pub open spec fn digit_run_end(s: Seq<u8>, i: int) -> int
    recommends
        0 <= i <= s.len(),
    decreases s.len() - i when 0 <= i <= s.len()
{
    if i < s.len() && is_digit(s[i]) {
        digit_run_end(s, i + 1)
    } else {
        i
    }
}

/// After the digits of a number token, only an exponent part
/// (`e`/`E`, optional sign, one or more digits) or the end of the
/// token may follow.
pub open spec fn exp_tail_ok(s: Seq<u8>, j: int) -> bool
    recommends
        0 <= j <= s.len(),
{
    if j == s.len() {
        true
    } else if s[j] == LOWER_E || s[j] == UPPER_E {
        let k = if j + 1 < s.len() && (s[j + 1] == PLUS_SIGN || s[j + 1] == MINUS) {
            j + 2
        } else {
            j + 1
        };
        k < s.len() && is_digit(s[k]) && digit_run_end(s, k) == s.len()
    } else {
        false
    }
}

/// After the integer part of a number token, an optional fraction
/// (`.` and one or more digits) and then an exponent or the end may
/// follow.
pub open spec fn frac_exp_ok(s: Seq<u8>, i: int) -> bool
    recommends
        0 <= i <= s.len(),
{
    if i < s.len() && s[i] == DOT {
        i + 1 < s.len() && is_digit(s[i + 1]) && exp_tail_ok(s, digit_run_end(s, i + 1))
    } else {
        exp_tail_ok(s, i)
    }
}

/// A number token: optional minus sign, then an integer part that is
/// either `0` or starts with a nonzero digit, then an optional fraction
/// and an optional exponent — the JSON numeric grammar.
pub open spec fn is_number_token(s: Seq<u8>) -> bool {
    let i: int = if s.len() > 0 && s[0] == MINUS {
        1
    } else {
        0
    };
    i < s.len() && is_digit(s[i]) && {
        let j = if s[i] == DIGIT_0 {
            i + 1
        } else {
            digit_run_end(s, i)
        };
        frac_exp_ok(s, j)
    }
}

/// The first position at or after `i` that holds a slash, or the length
/// of the string when there is none.
pub open spec fn next_slash(s: Seq<u8>, i: int) -> int
    recommends
        0 <= i <= s.len(),
    decreases s.len() - i when 0 <= i <= s.len()
{
    if i < s.len() {
        if s[i] == SLASH {
            i
        } else {
            next_slash(s, i + 1)
        }
    } else {
        i
    }
}

/// What the route pattern extracts from a path: the operation name and
/// the two raw operand tokens, or nothing when the path does not have
/// the `/name/number/number` shape.
pub open spec fn parsed_route(p: Seq<u8>) -> Option<(Seq<u8>, Seq<u8>, Seq<u8>)> {
    if p.len() == 0 || p[0] != SLASH {
        None
    } else {
        let i1 = next_slash(p, 1);
        if i1 == p.len() {
            None
        } else {
            let i2 = next_slash(p, i1 + 1);
            if i2 == p.len() {
                None
            } else if next_slash(p, i2 + 1) != p.len() {
                None
            } else {
                let a = p.subrange(1, i1);
                let b = p.subrange(i1 + 1, i2);
                let c = p.subrange(i2 + 1, p.len() as int);
                if is_name_token(a) && is_number_token(b) && is_number_token(c) {
                    Some((a, b, c))
                } else {
                    None
                }
            }
        }
    }
}

proof fn lemma_digit_run_end(s: Seq<u8>, i: int)
    requires
        0 <= i <= s.len(),
    ensures
        i <= digit_run_end(s, i) <= s.len(),
        forall|k: int| i <= k < digit_run_end(s, i) ==> is_digit(#[trigger] s[k]),
        digit_run_end(s, i) < s.len() ==> !is_digit(s[digit_run_end(s, i)]),
    decreases s.len() - i,
{
    if i < s.len() && is_digit(s[i]) {
        lemma_digit_run_end(s, i + 1);
    }
}

/// A number token never holds a slash: each of its bytes is a digit, a
/// sign, a dot, or an exponent letter.
proof fn lemma_number_token_no_slash(s: Seq<u8>)
    requires
        is_number_token(s),
    ensures
        forall|k: int| 0 <= k < s.len() ==> s[k] != SLASH,
{
    let i0: int = if s.len() > 0 && s[0] == MINUS {
        1
    } else {
        0
    };
    let j: int = if s[i0] == DIGIT_0 {
        i0 + 1
    } else {
        digit_run_end(s, i0)
    };
    lemma_digit_run_end(s, i0);
    assert(i0 <= j <= s.len());
    assert(forall|k: int| i0 <= k < j ==> is_digit(#[trigger] s[k]));
    let j2: int = if j < s.len() && s[j] == DOT {
        digit_run_end(s, j + 1)
    } else {
        j
    };
    if j < s.len() && s[j] == DOT {
        lemma_digit_run_end(s, j + 1);
    }
    assert(j <= j2 <= s.len());
    assert(forall|k: int| j < k < j2 ==> is_digit(#[trigger] s[k]));
    assert(exp_tail_ok(s, j2));
    if j2 < s.len() {
        let k0: int = if j2 + 1 < s.len() && (s[j2 + 1] == PLUS_SIGN || s[j2 + 1] == MINUS) {
            j2 + 2
        } else {
            j2 + 1
        };
        lemma_digit_run_end(s, k0);
        assert(forall|k: int| k0 <= k < s.len() ==> is_digit(#[trigger] s[k]));
    }
    assert forall|k: int| 0 <= k < s.len() implies s[k] != SLASH by {
        if k < i0 {
            assert(s[k] == MINUS);
        } else if k < j {
            assert(is_digit(s[k]));
        } else if k == j && j < s.len() && s[j] == DOT {
        } else if k < j2 {
            assert(is_digit(s[k]));
        } else if k == j2 {
            assert(s[k] == LOWER_E || s[k] == UPPER_E);
        } else {
            let k0: int = if j2 + 1 < s.len() && (s[j2 + 1] == PLUS_SIGN || s[j2 + 1] == MINUS) {
                j2 + 2
            } else {
                j2 + 1
            };
            if k < k0 {
                assert(s[k] == PLUS_SIGN || s[k] == MINUS);
            } else {
                assert(is_digit(s[k]));
            }
        }
    }
}

/// A name token never holds a slash.
proof fn lemma_name_token_no_slash(s: Seq<u8>)
    requires
        is_name_token(s),
    ensures
        forall|k: int| 0 <= k < s.len() ==> s[k] != SLASH,
{
}

proof fn lemma_next_slash(s: Seq<u8>, i: int)
    requires
        0 <= i <= s.len(),
    ensures
        i <= next_slash(s, i) <= s.len(),
        next_slash(s, i) < s.len() ==> s[next_slash(s, i)] == SLASH,
        forall|j: int| i <= j < next_slash(s, i) ==> s[j] != SLASH,
    decreases s.len() - i,
{
    if i < s.len() && s[i] != SLASH {
        lemma_next_slash(s, i + 1);
    }
}

/// Where a stretch without slashes ends at a slash or at the end of the
/// string, the slash search stops exactly there.
proof fn lemma_next_slash_finds(s: Seq<u8>, i: int, k: int)
    requires
        0 <= i <= k <= s.len(),
        forall|j: int| i <= j < k ==> s[j] != SLASH,
        k < s.len() ==> s[k] == SLASH,
    ensures
        next_slash(s, i) == k,
    decreases k - i,
{
    if i < k {
        lemma_next_slash_finds(s, i + 1, k);
    }
}

/// Law, one direction of the route pattern: a matched path is exactly a
/// slash, the name, a slash, the first operand, a slash, and the second
/// operand, and the three segments are well-formed tokens.
pub proof fn lemma_route_shape(p: Seq<u8>, a: Seq<u8>, b: Seq<u8>, c: Seq<u8>)
    requires
        parsed_route(p) == Some((a, b, c)),
    ensures
        p == seq![SLASH] + a + seq![SLASH] + b + seq![SLASH] + c,
        is_name_token(a),
        is_number_token(b),
        is_number_token(c),
{
    let i1 = next_slash(p, 1);
    lemma_next_slash(p, 1);
    let i2 = next_slash(p, i1 + 1);
    lemma_next_slash(p, i1 + 1);
    lemma_next_slash(p, i2 + 1);
    assert(p =~= seq![SLASH] + a + seq![SLASH] + b + seq![SLASH] + c);
}

/// Law, the other direction of the route pattern: every path of that
/// shape is matched, and split exactly at its separators.
pub proof fn lemma_route_complete(a: Seq<u8>, b: Seq<u8>, c: Seq<u8>)
    requires
        is_name_token(a),
        is_number_token(b),
        is_number_token(c),
    ensures
        parsed_route(seq![SLASH] + a + seq![SLASH] + b + seq![SLASH] + c) == Some((a, b, c)),
{
    let p = seq![SLASH] + a + seq![SLASH] + b + seq![SLASH] + c;
    lemma_name_token_no_slash(a);
    lemma_number_token_no_slash(b);
    lemma_number_token_no_slash(c);
    let i1 = 1 + a.len() as int;
    let i2 = i1 + 1 + b.len() as int;
    assert(p.len() == i2 + 1 + c.len());
    assert(p[0] == SLASH);
    assert(p[i1] == SLASH);
    assert(p[i2] == SLASH);
    assert forall|j: int| 1 <= j < i1 implies p[j] != SLASH by {
        assert(p[j] == a[j - 1]);
    }
    assert forall|j: int| i1 + 1 <= j < i2 implies p[j] != SLASH by {
        assert(p[j] == b[j - i1 - 1]);
    }
    assert forall|j: int| i2 + 1 <= j < p.len() implies p[j] != SLASH by {
        assert(p[j] == c[j - i2 - 1]);
    }
    lemma_next_slash_finds(p, 1, i1);
    lemma_next_slash_finds(p, i1 + 1, i2);
    lemma_next_slash_finds(p, i2 + 1, p.len() as int);
    assert(p.subrange(1, i1) =~= a);
    assert(p.subrange(i1 + 1, i2) =~= b);
    assert(p.subrange(i2 + 1, p.len() as int) =~= c);
}

fn digit_run_end_exec(s: &[u8], i: usize) -> (r: usize)
    requires
        i <= s@.len(),
    ensures
        r == digit_run_end(s@, i as int),
        i <= r <= s@.len(),
    decreases s@.len() - i,
{
    if i < s.len() && s[i] >= DIGIT_0 && s[i] <= DIGIT_9 {
        digit_run_end_exec(s, i + 1)
    } else {
        i
    }
}

fn exp_tail_exec(s: &[u8], j: usize) -> (r: bool)
    requires
        j <= s@.len(),
    ensures
        r == exp_tail_ok(s@, j as int),
{
    if j == s.len() {
        return true;
    }
    let b = s[j];
    if b == LOWER_E || b == UPPER_E {
        let k: usize = if j + 1 < s.len() && (s[j + 1] == PLUS_SIGN || s[j + 1] == MINUS) {
            j + 2
        } else {
            j + 1
        };
        if k < s.len() && s[k] >= DIGIT_0 && s[k] <= DIGIT_9 {
            digit_run_end_exec(s, k) == s.len()
        } else {
            false
        }
    } else {
        false
    }
}

fn frac_exp_exec(s: &[u8], i: usize) -> (r: bool)
    requires
        i <= s@.len(),
    ensures
        r == frac_exp_ok(s@, i as int),
{
    if i < s.len() && s[i] == DOT {
        if i + 1 < s.len() && s[i + 1] >= DIGIT_0 && s[i + 1] <= DIGIT_9 {
            let k = digit_run_end_exec(s, i + 1);
            exp_tail_exec(s, k)
        } else {
            false
        }
    } else {
        exp_tail_exec(s, i)
    }
}

/// Decide whether a byte string is a well-formed number token of the
/// route grammar.
pub fn check_number_format(s: &[u8]) -> (r: bool)
    ensures
        r == is_number_token(s@),
{
    let start: usize = if s.len() > 0 && s[0] == MINUS {
        1
    } else {
        0
    };
    if start >= s.len() {
        return false;
    }
    let b0 = s[start];
    if !(b0 >= DIGIT_0 && b0 <= DIGIT_9) {
        return false;
    }
    let j: usize = if b0 == DIGIT_0 {
        start + 1
    } else {
        digit_run_end_exec(s, start)
    };
    frac_exp_exec(s, j)
}

fn check_name(s: &[u8]) -> (r: bool)
    ensures
        r == is_name_token(s@),
{
    if s.len() == 0 {
        return false;
    }
    let mut i: usize = 0;
    while i < s.len()
        invariant
            i <= s@.len(),
            forall|j: int| 0 <= j < i ==> is_alpha(#[trigger] s@[j]),
        decreases s@.len() - i,
    {
        let b = s[i];
        if !((b >= LOWER_A && b <= LOWER_Z) || (b >= UPPER_A && b <= UPPER_Z)) {
            return false;
        }
        i = i + 1;
    }
    true
}

fn next_slash_exec(s: &[u8], i: usize) -> (r: usize)
    requires
        i <= s@.len(),
    ensures
        r == next_slash(s@, i as int),
        i <= r <= s@.len(),
    decreases s@.len() - i,
{
    if i < s.len() {
        if s[i] == SLASH {
            i
        } else {
            next_slash_exec(s, i + 1)
        }
    } else {
        i
    }
}

/// The segments a matched route extracts: the operation name and the
/// two raw operand tokens.
pub struct RouteMatch {
    pub name: Vec<u8>,
    pub first: Vec<u8>,
    pub second: Vec<u8>,
}

/// Match a request path against the `/name/number/number` pattern and
/// extract its three segments.
pub fn match_route(path: &[u8]) -> (r: Option<RouteMatch>)
    ensures
        match r {
            Some(m) => parsed_route(path@) == Some((m.name@, m.first@, m.second@)),
            None => parsed_route(path@) is None,
        },
{
    if path.len() == 0 || path[0] != SLASH {
        return None;
    }
    let i1 = next_slash_exec(path, 1);
    if i1 == path.len() {
        return None;
    }
    let i2 = next_slash_exec(path, i1 + 1);
    if i2 == path.len() {
        return None;
    }
    let i3 = next_slash_exec(path, i2 + 1);
    if i3 != path.len() {
        return None;
    }
    let a = vstd::slice::slice_subrange(path, 1, i1);
    let b = vstd::slice::slice_subrange(path, i1 + 1, i2);
    let c = vstd::slice::slice_subrange(path, i2 + 1, path.len());
    if check_name(a) && check_number_format(b) && check_number_format(c) {
        Some(
            RouteMatch {
                name: vstd::slice::slice_to_vec(a),
                first: vstd::slice::slice_to_vec(b),
                second: vstd::slice::slice_to_vec(c),
            },
        )
    } else {
        None
    }
}

} // verus!

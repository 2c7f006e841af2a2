//! The response formatter: JSON string escaping, decimal rendering of
//! status codes, and the exact bodies of success and error responses.

use vstd::prelude::*;

use crate::ascii::append_bytes;
use crate::ascii::ascii_bytes;
use vstd::string::StringSliceAdditionalSpecFns;

verus! {

/// The byte value of `'"'`.
pub const QUOTE: u8 = 34;

/// The byte value of `'\'`.
pub const BACKSLASH: u8 = 92;

/// The first byte value that is not an ASCII control character.
pub const CONTROL_END: u8 = 32;

/// The byte value of `'0'`.
pub const ZERO: u8 = 48;

/// The distance from a hexadecimal digit value of ten or more to its
/// lower-case letter form (`10` maps to `'a'`).
pub const HEX_LETTER_GAP: u8 = 87;

/// The byte value of backspace.
pub const CTRL_BS: u8 = 8;

/// The byte value of horizontal tab.
pub const CTRL_TAB: u8 = 9;

/// The byte value of line feed.
pub const CTRL_LF: u8 = 10;

/// The byte value of form feed.
pub const CTRL_FF: u8 = 12;

/// The byte value of carriage return.
pub const CTRL_CR: u8 = 13;

/// The byte value of `'b'`.
pub const LETTER_B: u8 = 98;

/// The byte value of `'t'`.
pub const LETTER_T: u8 = 116;

/// The byte value of `'n'`.
pub const LETTER_N: u8 = 110;

/// The byte value of `'f'`.
pub const LETTER_F: u8 = 102;

/// The byte value of `'r'`.
pub const LETTER_R: u8 = 114;

/// The byte value of `'u'`.
pub const LETTER_U: u8 = 117;

/// The lower-case hexadecimal digit for a value below sixteen.
pub open spec fn hex_digit(n: u8) -> u8 {
    if n < 10 {
        (ZERO + n) as u8
    } else {
        (HEX_LETTER_GAP + n) as u8
    }
}

/// How one byte of a string appears inside a JSON string literal:
/// quote and backslash get a backslash escape, the five control
/// characters with short escapes get those, the remaining control
/// characters appear as `\u00..`, and every other byte stands as is.
pub open spec fn escape_byte(b: u8) -> Seq<u8> {
    if b == QUOTE {
        seq![BACKSLASH, QUOTE]
    } else if b == BACKSLASH {
        seq![BACKSLASH, BACKSLASH]
    } else if b == CTRL_BS {
        seq![BACKSLASH, LETTER_B]
    } else if b == CTRL_TAB {
        seq![BACKSLASH, LETTER_T]
    } else if b == CTRL_LF {
        seq![BACKSLASH, LETTER_N]
    } else if b == CTRL_FF {
        seq![BACKSLASH, LETTER_F]
    } else if b == CTRL_CR {
        seq![BACKSLASH, LETTER_R]
    } else if b < CONTROL_END {
        seq![BACKSLASH, LETTER_U, ZERO, ZERO, hex_digit(b / 16), hex_digit(b % 16)]
    } else {
        seq![b]
    }
}

/// A whole string as it appears inside a JSON string literal.
pub open spec fn json_escaped(s: Seq<u8>) -> Seq<u8>
    decreases s.len(),
{
    if s.len() == 0 {
        Seq::empty()
    } else {
        json_escaped(s.drop_last()) + escape_byte(s.last())
    }
}

/// Append the JSON-escaped form of `s`.
pub fn append_escaped(out: &mut Vec<u8>, s: &[u8])
    ensures
        final(out)@ == old(out)@ + json_escaped(s@),
{
    let mut i: usize = 0;
    while i < s.len()
        invariant
            i <= s@.len(),
            out@ == old(out)@ + json_escaped(s@.take(i as int)),
        decreases s@.len() - i,
    {
        let b = s[i];
        if b == QUOTE {
            out.push(BACKSLASH);
            out.push(QUOTE);
        } else if b == BACKSLASH {
            out.push(BACKSLASH);
            out.push(BACKSLASH);
        } else if b == CTRL_BS {
            out.push(BACKSLASH);
            out.push(LETTER_B);
        } else if b == CTRL_TAB {
            out.push(BACKSLASH);
            out.push(LETTER_T);
        } else if b == CTRL_LF {
            out.push(BACKSLASH);
            out.push(LETTER_N);
        } else if b == CTRL_FF {
            out.push(BACKSLASH);
            out.push(LETTER_F);
        } else if b == CTRL_CR {
            out.push(BACKSLASH);
            out.push(LETTER_R);
        } else if b < CONTROL_END {
            out.push(BACKSLASH);
            out.push(LETTER_U);
            out.push(ZERO);
            out.push(ZERO);
            if b / 16 < 10 {
                out.push(ZERO + b / 16);
            } else {
                out.push(HEX_LETTER_GAP + b / 16);
            }
            if b % 16 < 10 {
                out.push(ZERO + b % 16);
            } else {
                out.push(HEX_LETTER_GAP + b % 16);
            }
        } else {
            out.push(b);
        }
        i = i + 1;
        proof {
            assert(s@.take(i as int).drop_last() =~= s@.take(i as int - 1));
            assert(out@ =~= old(out)@ + json_escaped(s@.take(i as int)));
        }
    }
    proof {
        assert(s@.take(s@.len() as int) =~= s@);
    }
}

/// The decimal digits of a number, most significant first.
pub open spec fn dec_digits(n: nat) -> Seq<u8>
    decreases n,
{
    if n < 10 {
        seq![(ZERO + n) as u8]
    } else {
        dec_digits(n / 10) + seq![(ZERO + n % 10) as u8]
    }
}

/// Append the decimal rendering of `n`.
pub fn append_dec_u16(out: &mut Vec<u8>, n: u16)
    ensures
        final(out)@ == old(out)@ + dec_digits(n as nat),
    decreases n,
{
    if n < 10 {
        out.push(ZERO + n as u8);
    } else {
        append_dec_u16(out, n / 10);
        out.push(ZERO + (n % 10) as u8);
    }
}

/// Append the bytes of an ASCII string literal.
pub fn append_lit(out: &mut Vec<u8>, s: &str)
    requires
        vstd::string::is_ascii(s),
    ensures
        final(out)@ == old(out)@ + ascii_bytes(s@),
{
    proof {
        vstd::string::is_ascii_spec_bytes(s);
        assert(s.spec_bytes() =~= ascii_bytes(s@));
    }
    append_bytes(out, s.as_bytes());
}

/// The exact body of an error response: a JSON object with `status`
/// fixed at `-1`, the escaped message, and the HTTP status code
/// repeated as `error_code`.
pub open spec fn error_body_model(msg: Seq<u8>, code: u16) -> Seq<u8> {
    ascii_bytes("{\"status\":-1,\"error_message\":\""@) + json_escaped(msg) + ascii_bytes(
        "\",\"error_code\":"@,
    ) + dec_digits(code as nat) + ascii_bytes("}"@)
}

/// Render the body of an error response.
pub fn error_body(msg: &[u8], code: u16) -> (r: Vec<u8>)
    ensures
        r@ == error_body_model(msg@, code),
{
    proof {
        reveal_strlit("{\"status\":-1,\"error_message\":\"");
        reveal_strlit("\",\"error_code\":");
        reveal_strlit("}");
        assert(vstd::string::is_ascii("{\"status\":-1,\"error_message\":\""));
        assert(vstd::string::is_ascii("\",\"error_code\":"));
        assert(vstd::string::is_ascii("}"));
    }
    let mut out: Vec<u8> = Vec::new();
    append_lit(&mut out, "{\"status\":-1,\"error_message\":\"");
    append_escaped(&mut out, msg);
    append_lit(&mut out, "\",\"error_code\":");
    append_dec_u16(&mut out, code);
    append_lit(&mut out, "}");
    out
}

/// The exact body of a success response: a JSON object with `status`
/// fixed at `0` and the rendered result.
pub open spec fn success_body_model(num: Seq<u8>) -> Seq<u8> {
    ascii_bytes("{\"status\":0,\"result\":"@) + num + ascii_bytes("}"@)
}

/// Render the body of a success response around an already rendered
/// result.
pub fn success_body(num: &[u8]) -> (r: Vec<u8>)
    ensures
        r@ == success_body_model(num@),
{
    proof {
        reveal_strlit("{\"status\":0,\"result\":");
        reveal_strlit("}");
        assert(vstd::string::is_ascii("{\"status\":0,\"result\":"));
        assert(vstd::string::is_ascii("}"));
    }
    let mut out: Vec<u8> = Vec::new();
    append_lit(&mut out, "{\"status\":0,\"result\":");
    append_bytes(&mut out, num);
    append_lit(&mut out, "}");
    out
}

} // verus!

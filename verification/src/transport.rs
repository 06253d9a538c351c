//! What the core hands a transport layer to emit an envelope: the wire
//! status code (with substitution of 500 for codes no status line can
//! carry), the decimal rendering of the envelope's code for the body's
//! `status` field, and the JSON content negotiation headers.

use vstd::prelude::*;

use crate::response::ApiHttpResponse;

verus! {

/// Codes a wire-level status line can carry.
pub open spec fn is_wire_code(code: u16) -> bool {
    100 <= code && code <= 599
}

/// The status-line policy: an envelope's code goes on the wire as it is when
/// a status line can carry it, and 500 is substituted otherwise; emission
/// never fails.
pub open spec fn spec_wire_code(code: u16) -> u16 {
    if is_wire_code(code) {
        code
    } else {
        500
    }
}

/// The decimal digits of `n`, without leading zeros (`0` itself is "0").
pub open spec fn decimal_of(n: nat) -> Seq<char>
    decreases n,
{
    if n < 10 {
        seq![digit_char(n)]
    } else {
        decimal_of(n / 10).push(digit_char(n % 10))
    }
}

/// The character of a single decimal digit.
pub open spec fn digit_char(d: nat) -> char {
    if d == 0 {
        '0'
    } else if d == 1 {
        '1'
    } else if d == 2 {
        '2'
    } else if d == 3 {
        '3'
    } else if d == 4 {
        '4'
    } else if d == 5 {
        '5'
    } else if d == 6 {
        '6'
    } else if d == 7 {
        '7'
    } else if d == 8 {
        '8'
    } else {
        '9'
    }
}

fn digit_string(d: u16) -> (s: String)
    requires
        d < 10,
    ensures
        s@ == seq![digit_char(d as nat)],
{
    let s = match d {
        0 => String::from_str("0"),
        1 => String::from_str("1"),
        2 => String::from_str("2"),
        3 => String::from_str("3"),
        4 => String::from_str("4"),
        5 => String::from_str("5"),
        6 => String::from_str("6"),
        7 => String::from_str("7"),
        8 => String::from_str("8"),
        _ => String::from_str("9"),
    };
    proof {
        reveal_strlit("0");
        reveal_strlit("1");
        reveal_strlit("2");
        reveal_strlit("3");
        reveal_strlit("4");
        reveal_strlit("5");
        reveal_strlit("6");
        reveal_strlit("7");
        reveal_strlit("8");
        reveal_strlit("9");
        assert(s@ =~= seq![digit_char(d as nat)]);
    }
    s
}

/// Renders a status code in decimal for the body's `status` field.
pub fn status_code_text(code: u16) -> (s: String)
    ensures
        s@ == decimal_of(code as nat),
    decreases code,
{
    if code < 10 {
        digit_string(code)
    } else {
        let high = status_code_text(code / 10);
        let low = digit_string(code % 10);
        let s = high.concat(low.as_str());
        proof {
            assert(s@ =~= decimal_of(code as nat));
        }
        s
    }
}

/// Substitutes 500 for a code that no status line can carry.
pub fn wire_status_code(code: u16) -> (r: u16)
    ensures
        r == spec_wire_code(code),
{
    if 100 <= code && code <= 599 {
        code
    } else {
        500
    }
}

/// Everything the transport layer needs beside the envelope itself: the
/// status line's code, the code to repeat in the body, the body's `status`
/// string, and the two header values.
pub struct TransportDirective {
    pub wire_code: u16,
    pub body_code: u16,
    pub status_text: String,
    pub content_type: String,
    pub accept: String,
}

impl TransportDirective {
    /// The directive that belongs to an envelope: its code on the status
    /// line where possible (500 otherwise), the code itself repeated in the
    /// body unchanged, the code's decimal string for the body's `status`
    /// field, and JSON declared in both headers.
    pub open spec fn describes(self, resp: ApiHttpResponse) -> bool {
        &&& self.wire_code == spec_wire_code(resp.code)
        &&& self.body_code == resp.code
        &&& self.status_text@ == decimal_of(resp.code as nat)
        &&& self.content_type@ == "application/json"@
        &&& self.accept@ == "application/json"@
    }
}

/// Computes the transport directive of an envelope.
pub fn transport_directive(resp: &ApiHttpResponse) -> (d: TransportDirective)
    ensures
        d.describes(*resp),
{
    TransportDirective {
        wire_code: wire_status_code(resp.code),
        body_code: resp.code,
        status_text: status_code_text(resp.code),
        content_type: String::from_str("application/json"),
        accept: String::from_str("application/json"),
    }
}

} // verus!

use vstd::prelude::*;
use vstd::string::*;
use vstd::utf8::encode_utf8;

use crate::outcome::{HttpResult, Outcome};

verus! {

/// The decimal digit for `d`, where `d < 10`.
pub open spec fn digit_char(d: nat) -> char {
    if d == 0 {
        '0'
    } else if d == 1 {
        '1'
    } else if d == 2 {
        '2'
    } else if d == 3 {
        '3'
    } else if d == 4 {
        '4'
    } else if d == 5 {
        '5'
    } else if d == 6 {
        '6'
    } else if d == 7 {
        '7'
    } else if d == 8 {
        '8'
    } else {
        '9'
    }
}

/// `n` written in decimal, without leading zeros.
pub open spec fn decimal(n: nat) -> Seq<char>
    decreases n,
{
    if n < 10 {
        seq![digit_char(n)]
    } else {
        decimal(n / 10) + seq![digit_char(n % 10)]
    }
}

/// The number of bytes that `text` takes in UTF-8.
pub open spec fn byte_len(text: Seq<char>) -> nat {
    encode_utf8(text).len()
}

/// The `Content-Type` header line, where there is a media type.
pub open spec fn content_type_header(content_type: Option<Seq<char>>) -> Seq<char> {
    match content_type {
        Some(t) => "Content-Type: "@ + t + "\r\n"@,
        None => Seq::empty(),
    }
}

/// The HTTP/1.0 response for an outcome. A success carries its headers and
/// body, with the body's length in bytes; any other status is its status
/// line alone.
pub open spec fn response_text(o: Outcome) -> Seq<char> {
    if o.status == 200 {
        "HTTP/1.0 "@ + decimal(o.status as nat) + "\r\n"@ + content_type_header(o.content_type)
            + "Content-Length: "@ + decimal(byte_len(o.body)) + "\r\n\r\n"@ + o.body
    } else {
        "HTTP/1.0 "@ + decimal(o.status as nat) + " "@ + o.msg + "\r\n"@
    }
}

/// In the response for a served file, `Content-Length` gives the body's
/// length in UTF-8 bytes, and the body follows the blank line.
pub proof fn content_length_is_byte_length(o: Outcome)
    requires
        o.status == 200,
    ensures
        exists|head: Seq<char>|
            response_text(o) == #[trigger] (head + "Content-Length: "@) + decimal(byte_len(o.body))
                + "\r\n\r\n"@ + o.body,
{
    let head = "HTTP/1.0 "@ + decimal(o.status as nat) + "\r\n"@ + content_type_header(o.content_type);
    assert(response_text(o) == (head + "Content-Length: "@) + decimal(byte_len(o.body))
        + "\r\n\r\n"@ + o.body);
}

fn digit_text(d: usize) -> (r: &'static str)
    requires
        d < 10,
    ensures
        r@ == seq![digit_char(d as nat)],
{
    proof {
        reveal_strlit("0");
        reveal_strlit("1");
        reveal_strlit("2");
        reveal_strlit("3");
        reveal_strlit("4");
        reveal_strlit("5");
        reveal_strlit("6");
        reveal_strlit("7");
        reveal_strlit("8");
        reveal_strlit("9");
    }
    let r = if d == 0 {
        "0"
    } else if d == 1 {
        "1"
    } else if d == 2 {
        "2"
    } else if d == 3 {
        "3"
    } else if d == 4 {
        "4"
    } else if d == 5 {
        "5"
    } else if d == 6 {
        "6"
    } else if d == 7 {
        "7"
    } else if d == 8 {
        "8"
    } else {
        "9"
    };
    assert(r@ =~= seq![digit_char(d as nat)]);
    r
}

/// Writes `n` in decimal.
pub fn decimal_text(n: usize) -> (r: String)
    ensures
        r@ == decimal(n as nat),
    decreases n,
{
    if n < 10 {
        String::from_str(digit_text(n))
    } else {
        let mut s = decimal_text(n / 10);
        s.append(digit_text(n % 10));
        s
    }
}

impl HttpResult {
    /// Renders the result as an HTTP/1.0 response.
    pub fn to_response(&self) -> (r: String)
        ensures
            r@ == response_text(self@),
    {
        let mut out = String::from_str("HTTP/1.0 ");
        let code = decimal_text(self.status as usize);
        out.append(code.as_str());
        if self.status == 200 {
            out.append("\r\n");
            match self.content_type {
                Some(t) => {
                    out.append("Content-Type: ");
                    out.append(t);
                    out.append("\r\n");
                },
                None => {},
            }
            out.append("Content-Length: ");
            let length = decimal_text(self.body.as_str().as_bytes().len());
            out.append(length.as_str());
            out.append("\r\n\r\n");
            out.append(self.body.as_str());
        } else {
            out.append(" ");
            out.append(self.msg);
            out.append("\r\n");
        }
        assert(out@ =~= response_text(self@));
        out
    }
}

} // verus!

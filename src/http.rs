use vstd::prelude::*;

verus! {

/// The decimal digit for `d < 10`.
pub open spec fn digit_char(d: nat) -> char {
    "0123456789"@[d as int]
}

/// The decimal notation of a natural number, without leading zeros.
pub open spec fn decimal(n: nat) -> Seq<char>
    decreases n,
{
    if n < 10 {
        seq![digit_char(n)]
    } else {
        decimal(n / 10) + seq![digit_char(n % 10)]
    }
}

/// Writes `n` in decimal.
pub fn decimal_string(n: usize) -> (r: String)
    ensures
        r@ == decimal(n as nat),
    decreases n,
{
    let digits = "0123456789";
    proof {
        reveal_strlit("0123456789");
    }
    let d: usize = n % 10;
    let last = digits.substring_char(d, d + 1);
    assert(last@ =~= seq![digit_char(d as nat)]);
    if n < 10 {
        String::from_str(last)
    } else {
        let mut r = decimal_string(n / 10);
        r.append(last);
        r
    }
}

/// A complete HTTP/1.1 response with the given status line tail (`200 OK`), an
/// explicit content length in bytes, and the body.
pub open spec fn http_response_of(status: Seq<char>, body: &str) -> Seq<char> {
    "HTTP/1.1 "@ + status + "\r\ncontent-length: "@ + decimal(body.len() as nat)
        + "\r\n\r\n"@ + body@
}

/// Frames `body` as an HTTP/1.1 response, so that a browser renders it before the
/// connection closes.
pub fn http_response(status: &str, body: &str) -> (r: String)
    ensures
        r@ == http_response_of(status@, body),
{
    let mut r = String::from_str("HTTP/1.1 ");
    r.append(status);
    r.append("\r\ncontent-length: ");
    let len = decimal_string(body.len());
    r.append(len.as_str());
    r.append("\r\n\r\n");
    r.append(body);
    r
}

} // verus!

use vstd::prelude::*;
use crate::auth::pairs_view;
use crate::config::opt_view;

verus! {

/// What form-urlencoded parsing makes of a query: its decoded `(key, value)` pairs, in order.
pub uninterp spec fn form_decode(query: Seq<char>) -> Seq<(Seq<char>, Seq<char>)>;

/// Relies on url::form_urlencoded::parse, which splits a query into decoded pairs.
#[verifier::external_body]
fn decode_pairs(query: &str) -> (r: Vec<(String, String)>)
    ensures
        pairs_view(r@) == form_decode(query@),
{
    url::form_urlencoded::parse(query.as_bytes()).into_owned().collect()
}

/// ASCII white space, which separates the parts of a request line.
pub open spec fn is_ws(c: char) -> bool {
    c == ' ' || c == '\t' || c == '\r' || c == '\n' || c == '\x0C'
}

/// The first index from `i` on that is not white space, or the length.
pub open spec fn skip_ws(s: Seq<char>, i: int) -> int
    decreases s.len() - i,
{
    if 0 <= i < s.len() && is_ws(s[i]) {
        skip_ws(s, i + 1)
    } else {
        i
    }
}

/// The first index from `i` on that is white space, or the length.
pub open spec fn skip_token(s: Seq<char>, i: int) -> int
    decreases s.len() - i,
{
    if 0 <= i < s.len() && !is_ws(s[i]) {
        skip_token(s, i + 1)
    } else {
        i
    }
}

/// The first index from `i` on that holds `c`, or the length.
pub open spec fn find_from(s: Seq<char>, c: char, i: int) -> int
    decreases s.len() - i,
{
    if 0 <= i < s.len() && s[i] != c {
        find_from(s, c, i + 1)
    } else if i < 0 {
        0
    } else {
        i
    }
}

/// The second white-space separated word of a request line: the request target.
pub open spec fn request_target(line: Seq<char>) -> Option<Seq<char>> {
    let a = skip_ws(line, skip_token(line, skip_ws(line, 0)));
    let b = skip_token(line, a);
    if a < b {
        Some(line.subrange(a, b))
    } else {
        None
    }
}

/// The query of a request target: after the first `?`, up to a `#`.
pub open spec fn query_of(target: Seq<char>) -> Option<Seq<char>> {
    let q = find_from(target, '?', 0);
    if q < target.len() {
        Some(target.subrange(q + 1, find_from(target, '#', q + 1)))
    } else {
        None
    }
}

/// The value of the first pair from index `i` on whose key is `key`.
pub open spec fn first_value(ps: Seq<(Seq<char>, Seq<char>)>, key: Seq<char>, i: int) -> Option<
    Seq<char>,
>
    decreases ps.len() - i,
{
    if i < 0 || i >= ps.len() {
        None
    } else if ps[i].0 == key {
        Some(ps[i].1)
    } else {
        first_value(ps, key, i + 1)
    }
}

/// The value of query parameter `key` in the target of a request line.
pub open spec fn redirect_param(line: Seq<char>, key: Seq<char>) -> Option<Seq<char>> {
    match request_target(line) {
        Some(t) => match query_of(t) {
            Some(q) => first_value(form_decode(q), key, 0),
            None => None,
        },
        None => None,
    }
}

/// The parameters that a redirect carries back from the provider.
pub struct RedirectParams {
    pub code: Option<String>,
    pub state: Option<String>,
}

fn is_ws_char(c: char) -> (r: bool)
    ensures
        r == is_ws(c),
{
    c == ' ' || c == '\t' || c == '\r' || c == '\n' || c == '\x0C'
}

/// Index of the first non-white-space character from `i` on.
fn skip_ws_at(s: &str, n: usize, i: usize) -> (r: usize)
    requires
        n == s@.len(),
        i <= n,
    ensures
        r == skip_ws(s@, i as int),
        i <= r <= n,
{
    let mut j = i;
    while j < n && is_ws_char(s.get_char(j))
        invariant
            n == s@.len(),
            i <= j <= n,
            skip_ws(s@, i as int) == skip_ws(s@, j as int),
        decreases n - j,
    {
        j = j + 1;
    }
    j
}

/// Index of the first white-space character from `i` on.
fn skip_token_at(s: &str, n: usize, i: usize) -> (r: usize)
    requires
        n == s@.len(),
        i <= n,
    ensures
        r == skip_token(s@, i as int),
        i <= r <= n,
{
    let mut j = i;
    while j < n && !is_ws_char(s.get_char(j))
        invariant
            n == s@.len(),
            i <= j <= n,
            skip_token(s@, i as int) == skip_token(s@, j as int),
        decreases n - j,
    {
        j = j + 1;
    }
    j
}

/// Index of the first `c` from `i` on.
fn find_char_at(s: &str, n: usize, c: char, i: usize) -> (r: usize)
    requires
        n == s@.len(),
        i <= n,
    ensures
        r == find_from(s@, c, i as int),
        i <= r <= n,
{
    let mut j = i;
    while j < n && s.get_char(j) != c
        invariant
            n == s@.len(),
            i <= j <= n,
            find_from(s@, c, i as int) == find_from(s@, c, j as int),
        decreases n - j,
    {
        j = j + 1;
    }
    j
}

/// The request target of an HTTP request line, if it has one.
pub fn parse_request_target(line: &str) -> (r: Option<String>)
    ensures
        opt_view(r) == request_target(line@),
{
    let n = line.unicode_len();
    let start = skip_ws_at(line, n, 0);
    let method_end = skip_token_at(line, n, start);
    let a = skip_ws_at(line, n, method_end);
    let b = skip_token_at(line, n, a);
    if a < b {
        Some(String::from_str(line.substring_char(a, b)))
    } else {
        None
    }
}

/// The query of a request target, if it has one.
pub fn parse_query(target: &str) -> (r: Option<String>)
    ensures
        opt_view(r) == query_of(target@),
{
    let n = target.unicode_len();
    let q = find_char_at(target, n, '?', 0);
    if q < n {
        let e = find_char_at(target, n, '#', q + 1);
        Some(String::from_str(target.substring_char(q + 1, e)))
    } else {
        None
    }
}

/// The value of the first pair whose key is `key`.
pub fn find_value(ps: &Vec<(String, String)>, key: &String) -> (r: Option<String>)
    ensures
        opt_view(r) == first_value(pairs_view(ps@), key@, 0),
{
    let ghost v = pairs_view(ps@);
    let mut i: usize = 0;
    while i < ps.len()
        invariant
            i <= ps@.len(),
            v == pairs_view(ps@),
            first_value(v, key@, 0) == first_value(v, key@, i as int),
        decreases ps@.len() - i,
    {
        if ps[i].0 == *key {
            return Some(ps[i].1.clone());
        }
        i = i + 1;
    }
    None
}

/// The `code` and `state` parameters of the redirect whose request line is `line`.
pub fn parse_redirect(line: &str) -> (r: RedirectParams)
    ensures
        opt_view(r.code) == redirect_param(line@, "code"@),
        opt_view(r.state) == redirect_param(line@, "state"@),
{
    let code_key = String::from_str("code");
    let state_key = String::from_str("state");
    match parse_request_target(line) {
        Some(target) => match parse_query(target.as_str()) {
            Some(query) => {
                let ps = decode_pairs(query.as_str());
                RedirectParams {
                    code: find_value(&ps, &code_key),
                    state: find_value(&ps, &state_key),
                }
            },
            None => RedirectParams { code: None, state: None },
        },
        None => RedirectParams { code: None, state: None },
    }
}

} // verus!

use vstd::prelude::*;

verus! {

/// The recognized path tokens, with a catch-all variant for every other
/// input. Dispatch is a total mapping from this enumeration, so the
/// fallback is an explicit case rather than an implicit default.
#[derive(Clone, Copy, PartialEq, Eq, Structural, Debug)]
pub enum Token {
    Okay,
    BadRequest,
    ServerError,
    Unknown,
}

/// Which token a raw path segment maps to: exact string equality against
/// the three recognized tokens; everything else, the empty string and
/// unrecognized numeric text included, is `Unknown`.
pub open spec fn spec_classify(s: Seq<char>) -> Token {
    if s == "200"@ {
        Token::Okay
    } else if s == "400"@ {
        Token::BadRequest
    } else if s == "500"@ {
        Token::ServerError
    } else {
        Token::Unknown
    }
}

/// The status code of each token's canned response.
pub open spec fn spec_status(t: Token) -> int {
    match t {
        Token::Okay => 200,
        Token::BadRequest => 400,
        Token::ServerError => 500,
        Token::Unknown => 404,
    }
}

/// The body text of each token's canned response.
pub open spec fn spec_body(t: Token) -> Seq<char> {
    match t {
        Token::Okay => "OK"@,
        Token::BadRequest => "Bad Request"@,
        Token::ServerError => "Internal Server Error"@,
        Token::Unknown => "Not Found"@,
    }
}

/// The full dispatch mapping: status code and body for a path segment.
pub open spec fn spec_dispatch(s: Seq<char>) -> (int, Seq<char>) {
    (spec_status(spec_classify(s)), spec_body(spec_classify(s)))
}

/// Character-by-character string comparison, proved equivalent to
/// equality of the two views.
fn str_eq(a: &str, b: &str) -> (r: bool)
    ensures
        r == (a@ == b@),
{
    let alen = a.unicode_len();
    let blen = b.unicode_len();
    if alen != blen {
        return false;
    }
    let mut i: usize = 0;
    while i < alen
        invariant
            alen as nat == a@.len(),
            alen as nat == b@.len(),
            i <= alen,
            forall|j: int| 0 <= j < i ==> a@[j] == b@[j],
        decreases alen - i,
    {
        if a.get_char(i) != b.get_char(i) {
            return false;
        }
        i = i + 1;
    }
    proof {
        assert(a@ =~= b@);
    }
    true
}

/// Match a raw path segment against the recognized tokens.
pub fn classify(s: &str) -> (t: Token)
    ensures
        t == spec_classify(s@),
{
    if str_eq(s, "200") {
        Token::Okay
    } else if str_eq(s, "400") {
        Token::BadRequest
    } else if str_eq(s, "500") {
        Token::ServerError
    } else {
        Token::Unknown
    }
}

/// The status code of a token's canned response.
pub fn status_code(t: Token) -> (code: u16)
    ensures
        code as int == spec_status(t),
{
    match t {
        Token::Okay => 200,
        Token::BadRequest => 400,
        Token::ServerError => 500,
        Token::Unknown => 404,
    }
}

/// The body text of a token's canned response.
pub fn body_text(t: Token) -> (body: &'static str)
    ensures
        body@ == spec_body(t),
{
    match t {
        Token::Okay => "OK",
        Token::BadRequest => "Bad Request",
        Token::ServerError => "Internal Server Error",
        Token::Unknown => "Not Found",
    }
}

/// Map a raw path segment to its canned response. Total over all
/// inputs: there is no failure path, and an unrecognized segment falls
/// back to the not-found row rather than echoing the requested code.
pub fn dispatch(s: &str) -> (r: (u16, &'static str))
    ensures
        r.0 as int == spec_dispatch(s@).0,
        r.1@ == spec_dispatch(s@).1,
{
    let t = classify(s);
    (status_code(t), body_text(t))
}

/// Dispatch is total: every input string produces exactly one of the
/// four rows of the response table.
pub proof fn lemma_dispatch_in_table(s: Seq<char>)
    ensures
        spec_dispatch(s) == (200int, "OK"@)
            || spec_dispatch(s) == (400int, "Bad Request"@)
            || spec_dispatch(s) == (500int, "Internal Server Error"@)
            || spec_dispatch(s) == (404int, "Not Found"@),
{
}

/// Every input outside the recognized set, whatever it holds, falls back
/// to the not-found row.
pub proof fn lemma_dispatch_fallback(s: Seq<char>)
    requires
        s != "200"@,
        s != "400"@,
        s != "500"@,
    ensures
        spec_dispatch(s) == (404int, "Not Found"@),
{
}

/// Dispatch is a pure function of its input: identical inputs always
/// produce identical results, with no dependence on call order or on
/// any state.
pub proof fn lemma_dispatch_deterministic(s1: Seq<char>, s2: Seq<char>)
    requires
        s1 == s2,
    ensures
        spec_dispatch(s1) == spec_dispatch(s2),
{
}

} // verus!

//! The closed set of supported HTTP methods and the resolver that maps a
//! command-line token onto it.

use vstd::prelude::*;
use crate::error::RequestError;
use crate::text::same_text;

verus! {

/// A supported HTTP method.
#[derive(Clone, Copy, Debug, PartialEq, Eq, Structural, Hash)]
pub enum Method {
    Get,
    Post,
    Put,
    Delete,
    Head,
    Options,
    Connect,
    Trace,
    Patch,
}

/// The supported methods, in the order in which they are offered.
pub const SUPPORTED_METHODS: [Method; 9] = [
    Method::Get,
    Method::Post,
    Method::Put,
    Method::Delete,
    Method::Head,
    Method::Options,
    Method::Connect,
    Method::Trace,
    Method::Patch,
];

/// The supported methods as a sequence, in the same order.
pub open spec fn supported_method_list() -> Seq<Method> {
    seq![
        Method::Get,
        Method::Post,
        Method::Put,
        Method::Delete,
        Method::Head,
        Method::Options,
        Method::Connect,
        Method::Trace,
        Method::Patch,
    ]
}

/// The token that names a method on the command line and on the wire.
pub open spec fn method_token(m: Method) -> Seq<char> {
    match m {
        Method::Get => "GET"@,
        Method::Post => "POST"@,
        Method::Put => "PUT"@,
        Method::Delete => "DELETE"@,
        Method::Head => "HEAD"@,
        Method::Options => "OPTIONS"@,
        Method::Connect => "CONNECT"@,
        Method::Trace => "TRACE"@,
        Method::Patch => "PATCH"@,
    }
}

/// The method that a token names, if it names one. The match is exact:
/// letter case counts.
pub open spec fn method_of_token(token: Seq<char>) -> Option<Method> {
    if token == "GET"@ {
        Some(Method::Get)
    } else if token == "POST"@ {
        Some(Method::Post)
    } else if token == "PUT"@ {
        Some(Method::Put)
    } else if token == "DELETE"@ {
        Some(Method::Delete)
    } else if token == "HEAD"@ {
        Some(Method::Head)
    } else if token == "OPTIONS"@ {
        Some(Method::Options)
    } else if token == "CONNECT"@ {
        Some(Method::Connect)
    } else if token == "TRACE"@ {
        Some(Method::Trace)
    } else if token == "PATCH"@ {
        Some(Method::Patch)
    } else {
        None
    }
}

/// Makes the characters of the nine method tokens known to the prover.
pub proof fn reveal_method_tokens()
    ensures
        "GET"@ == seq!['G', 'E', 'T'],
        "POST"@ == seq!['P', 'O', 'S', 'T'],
        "PUT"@ == seq!['P', 'U', 'T'],
        "DELETE"@ == seq!['D', 'E', 'L', 'E', 'T', 'E'],
        "HEAD"@ == seq!['H', 'E', 'A', 'D'],
        "OPTIONS"@ == seq!['O', 'P', 'T', 'I', 'O', 'N', 'S'],
        "CONNECT"@ == seq!['C', 'O', 'N', 'N', 'E', 'C', 'T'],
        "TRACE"@ == seq!['T', 'R', 'A', 'C', 'E'],
        "PATCH"@ == seq!['P', 'A', 'T', 'C', 'H'],
{
    reveal_strlit("GET");
    reveal_strlit("POST");
    reveal_strlit("PUT");
    reveal_strlit("DELETE");
    reveal_strlit("HEAD");
    reveal_strlit("OPTIONS");
    reveal_strlit("CONNECT");
    reveal_strlit("TRACE");
    reveal_strlit("PATCH");
    assert("GET"@ =~= seq!['G', 'E', 'T']);
    assert("POST"@ =~= seq!['P', 'O', 'S', 'T']);
    assert("PUT"@ =~= seq!['P', 'U', 'T']);
    assert("DELETE"@ =~= seq!['D', 'E', 'L', 'E', 'T', 'E']);
    assert("HEAD"@ =~= seq!['H', 'E', 'A', 'D']);
    assert("OPTIONS"@ =~= seq!['O', 'P', 'T', 'I', 'O', 'N', 'S']);
    assert("CONNECT"@ =~= seq!['C', 'O', 'N', 'N', 'E', 'C', 'T']);
    assert("TRACE"@ =~= seq!['T', 'R', 'A', 'C', 'E']);
    assert("PATCH"@ =~= seq!['P', 'A', 'T', 'C', 'H']);
}

impl Method {
    /// The method's token.
    pub fn as_str(&self) -> (r: &'static str)
        ensures
            r@ == method_token(*self),
    {
        match self {
            Method::Get => "GET",
            Method::Post => "POST",
            Method::Put => "PUT",
            Method::Delete => "DELETE",
            Method::Head => "HEAD",
            Method::Options => "OPTIONS",
            Method::Connect => "CONNECT",
            Method::Trace => "TRACE",
            Method::Patch => "PATCH",
        }
    }
}

/// Resolves a method token. One of the nine supported tokens gives its
/// method; anything else, a lower-case spelling included, is refused with
/// `InvalidMethod` holding the token. There is no default.
pub fn resolve_method(token: &str) -> (r: Result<Method, RequestError>)
    ensures
        match method_of_token(token@) {
            Some(m) => r == Ok::<Method, RequestError>(m),
            None => r matches Err(RequestError::InvalidMethod(t)) && t@ == token@,
        },
{
    if same_text(token, "GET") {
        Ok(Method::Get)
    } else if same_text(token, "POST") {
        Ok(Method::Post)
    } else if same_text(token, "PUT") {
        Ok(Method::Put)
    } else if same_text(token, "DELETE") {
        Ok(Method::Delete)
    } else if same_text(token, "HEAD") {
        Ok(Method::Head)
    } else if same_text(token, "OPTIONS") {
        Ok(Method::Options)
    } else if same_text(token, "CONNECT") {
        Ok(Method::Connect)
    } else if same_text(token, "TRACE") {
        Ok(Method::Trace)
    } else if same_text(token, "PATCH") {
        Ok(Method::Patch)
    } else {
        Err(RequestError::InvalidMethod(token.to_owned()))
    }
}

/// The tokens of the supported methods, in the order of
/// `supported_method_list`.
pub fn supported_methods() -> (r: Vec<&'static str>)
    ensures
        r@.len() == supported_method_list().len(),
        forall|i: int| 0 <= i < r@.len() ==> (#[trigger] r@[i])@ == method_token(supported_method_list()[i]),
{
    let mut tokens: Vec<&'static str> = Vec::new();
    let mut i: usize = 0;
    while i < 9
        invariant
            i <= 9,
            SUPPORTED_METHODS@ == supported_method_list(),
            tokens@.len() == i,
            forall|k: int|
                0 <= k < i ==> (#[trigger] tokens@[k])@ == method_token(supported_method_list()[k]),
        decreases 9 - i,
    {
        tokens.push(SUPPORTED_METHODS[i].as_str());
        i += 1;
    }
    tokens
}

/// Every supported method is found again from its own token.
pub proof fn lemma_token_round_trip(m: Method)
    ensures
        method_of_token(method_token(m)) == Some(m),
{
    reveal_method_tokens();
}

/// A token is accepted only if it is, character for character, the token
/// of the method it resolves to; every other token is refused.
pub proof fn lemma_only_supported_tokens(token: Seq<char>)
    ensures
        method_of_token(token) matches Some(m) ==> token == method_token(m),
        (forall|m: Method| token != method_token(m)) ==> method_of_token(token) is None,
{
    if method_of_token(token) is Some {
        let m = method_of_token(token).unwrap();
        assert(token == method_token(m));
    }
}

/// Resolution is case-sensitive: a token that holds a lower-case letter
/// names no method.
pub proof fn lemma_lower_case_refused(token: Seq<char>, i: int)
    requires
        0 <= i < token.len(),
        'a' <= token[i] <= 'z',
    ensures
        method_of_token(token) is None,
{
    reveal_method_tokens();
}

} // verus!

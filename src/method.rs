use vstd::prelude::*;

verus! {

/// The HTTP method that a request is sent with.
#[derive(Debug, Clone, Copy, PartialEq, Eq, Structural)]
pub enum HttpMethod {
    Options,
    Get,
    Post,
    Put,
    Delete,
    Head,
    Trace,
    Connect,
    Patch,
}

impl HttpMethod {
    /// The method's token on the wire, as RFC 9110 spells it.
    pub open spec fn token(self) -> Seq<char> {
        match self {
            HttpMethod::Options => seq!['O', 'P', 'T', 'I', 'O', 'N', 'S'],
            HttpMethod::Get => seq!['G', 'E', 'T'],
            HttpMethod::Post => seq!['P', 'O', 'S', 'T'],
            HttpMethod::Put => seq!['P', 'U', 'T'],
            HttpMethod::Delete => seq!['D', 'E', 'L', 'E', 'T', 'E'],
            HttpMethod::Head => seq!['H', 'E', 'A', 'D'],
            HttpMethod::Trace => seq!['T', 'R', 'A', 'C', 'E'],
            HttpMethod::Connect => seq!['C', 'O', 'N', 'N', 'E', 'C', 'T'],
            HttpMethod::Patch => seq!['P', 'A', 'T', 'C', 'H'],
        }
    }

    /// The method's token on the wire.
    pub fn as_str(&self) -> (r: &'static str)
        ensures
            r@ == self.token(),
    {
        proof {
            reveal_strlit("OPTIONS");
            reveal_strlit("GET");
            reveal_strlit("POST");
            reveal_strlit("PUT");
            reveal_strlit("DELETE");
            reveal_strlit("HEAD");
            reveal_strlit("TRACE");
            reveal_strlit("CONNECT");
            reveal_strlit("PATCH");
        }
        match self {
            HttpMethod::Options => "OPTIONS",
            HttpMethod::Get => "GET",
            HttpMethod::Post => "POST",
            HttpMethod::Put => "PUT",
            HttpMethod::Delete => "DELETE",
            HttpMethod::Head => "HEAD",
            HttpMethod::Trace => "TRACE",
            HttpMethod::Connect => "CONNECT",
            HttpMethod::Patch => "PATCH",
        }
    }
}

} // verus!

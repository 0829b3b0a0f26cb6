//! Routing of requests to message-queue topics, and the first step of
//! request handling, shared by every handler.
use vstd::prelude::*;
use crate::protocol::{parse_error_view, RpcError, RpcRequest};

verus! {

/// `p` is a prefix of `s`.
pub open spec fn starts_with(s: Seq<char>, p: Seq<char>) -> bool {
    p.len() <= s.len() && s.subrange(0, p.len() as int) == p
}

/// The topic on which a request for `method` is published: sending
/// transactions goes to the transaction pool, the other `cita` and `eth`
/// methods to the chain, `net_` methods to the network, the rest to the
/// default topic. The first matching rule decides.
pub open spec fn topic_of(method: Seq<char>) -> Seq<char> {
    if starts_with(method, "cita_send"@) {
        "jsonrpc.new_tx"@
    } else if starts_with(method, "cita"@) || starts_with(method, "eth"@) {
        "jsonrpc.request"@
    } else if starts_with(method, "net_"@) {
        "jsonrpc.net"@
    } else {
        "jsonrpc"@
    }
}

/// Whether `p` is a prefix of `s`.
pub fn has_prefix(s: &str, p: &str) -> (r: bool)
    ensures
        r == starts_with(s@, p@),
{
    let n = s.unicode_len();
    let m = p.unicode_len();
    if m > n {
        return false;
    }
    let mut i: usize = 0;
    while i < m
        invariant
            m == p@.len(),
            n == s@.len(),
            m <= n,
            i <= m,
            forall|j: int| 0 <= j < i ==> s@[j] == p@[j],
        decreases m - i,
    {
        if s.get_char(i) != p.get_char(i) {
            assert(s@.subrange(0, m as int)[i as int] != p@[i as int]);
            return false;
        }
        i = i + 1;
    }
    assert(s@.subrange(0, m as int) =~= p@);
    true
}

/// Decisions every request handler shares.
pub trait BaseHandler {
    /// The topic on which a request for `method` is published.
    fn select_topic(method: &String) -> (topic: String)
        ensures
            topic@ == topic_of(method@),
    {
        let m = method.as_str();
        if has_prefix(m, "cita_send") {
            String::from_str("jsonrpc.new_tx")
        } else if has_prefix(m, "cita") || has_prefix(m, "eth") {
            String::from_str("jsonrpc.request")
        } else if has_prefix(m, "net_") {
            String::from_str("jsonrpc.net")
        } else {
            String::from_str("jsonrpc")
        }
    }

    /// The request that a body decoded to, or, where it decoded to none
    /// (`decoded` is `None`), the parse error.
    fn into_json(decoded: Option<RpcRequest>) -> (r: Result<RpcRequest, RpcError>)
        ensures
            decoded is None ==> r is Err && r->Err_0@ == parse_error_view(),
            decoded is Some ==> r is Ok && r->Ok_0 == decoded->Some_0,
    {
        match decoded {
            Some(rpc) => Ok(rpc),
            None => Err(RpcError::parse_error()),
        }
    }
}

}

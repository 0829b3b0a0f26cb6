//! What holds of the handler across calls.
use vstd::prelude::*;
use crate::handler::{
    deal_req_model, deal_res_model, deal_respone_model, DeliveryView, HandlerView, MsgContent,
    ReqOutcomeView, ReqType, RespondView,
};
use crate::json::{failure_json, success_json};
use crate::json_laws::{is_success_reply, success_reply_reads_back};
use crate::protocol::{parse_error_view, req_info_of, ReqInfoView, RpcError, RpcRequest};
use crate::topic::{starts_with, topic_of};

verus! {

/// A query that was accepted is published on the topic of its method; the
/// reply that comes back for its request id calls for a delivery and changes
/// nothing yet; delivering it reaches the query's sender, carrying the version
/// and identifier of the request and the result, and the query stops waiting;
/// delivering it a second time reaches nobody.
pub proof fn reply_reaches_waiting_query<S>(
    h: HandlerView<S>,
    request: RpcRequest,
    request_id: Vec<u8>,
    payload: Vec<u8>,
    sender: S,
    reply_id: Vec<u8>,
    result: String,
)
    requires
        reply_id@ == request_id@,
    ensures
        ({
            let (h1, out) = deal_req_model(
                h,
                Some(request),
                Some(Ok(ReqType::Req { request_id, payload })),
                sender,
            );
            let content = MsgContent::Response { request_id: reply_id, result: Some(result) };
            let action = deal_res_model(h1, h.chain_response_id, content);
            let (h2, delivered) = deal_respone_model(h1, action->Some_0);
            let (h3, again) = deal_respone_model(h2, action->Some_0);
            &&& out == ReqOutcomeView::<S>::Publish { topic: topic_of(request.method@), payload: payload@ }
            &&& action == Some(RespondView { key: request_id@, result: result@ })
            &&& delivered == Some(
                DeliveryView { sender, body: success_json(req_info_of(request@), result@) },
            )
            &&& h1.requests[request_id@] == (
                ReqInfoView { jsonrpc: request.jsonrpc, id: request.id@ },
                sender,
            )
            &&& is_success_reply(delivered->Some_0.body, request.jsonrpc, request.id@, result@)
            &&& h2.requests == h.requests.remove(request_id@)
            &&& h2.transactions == h.transactions
            &&& again is None
            &&& h3 == h2
        }),
{
    let (h1, out) = deal_req_model(
        h,
        Some(request),
        Some(Ok(ReqType::Req { request_id, payload })),
        sender,
    );
    assert(h1.requests.dom().contains(request_id@));
    assert(h1.requests[request_id@] == (req_info_of(request@), sender));
    success_reply_reads_back(req_info_of(request@), result@);
    assert(h1.requests.insert(request_id@, (req_info_of(request@), sender)).remove(request_id@)
        =~= h.requests.remove(request_id@));
}

/// Two deliveries for the same key, in either order: the waiting sender gets
/// exactly one reply, from the first; afterwards nothing waits under the key.
pub proof fn reply_is_delivered_once<S>(h: HandlerView<S>, first: RespondView, second: RespondView)
    requires
        first.key == second.key,
        h.requests.dom().contains(first.key),
    ensures
        ({
            let (h1, d1) = deal_respone_model(h, first);
            let (h2, d2) = deal_respone_model(h1, second);
            &&& d1 == Some(
                DeliveryView { sender: h.requests[first.key].1, body: success_json(h.requests[first.key].0, first.result) },
            )
            &&& d2 is None
            &&& !h2.requests.dom().contains(first.key)
        }),
{
}

/// The waiting entry leaves only when the reply is delivered: a query that
/// arrives under the same request id after the reply was called for, and
/// before it is delivered, is the one that the delivery reaches.
pub proof fn delivery_reaches_the_latest_waiting_query<S>(
    h: HandlerView<S>,
    action: RespondView,
    request: RpcRequest,
    request_id: Vec<u8>,
    payload: Vec<u8>,
    sender: S,
)
    requires
        request_id@ == action.key,
    ensures
        ({
            let (h1, _out) = deal_req_model(
                h,
                Some(request),
                Some(Ok(ReqType::Req { request_id, payload })),
                sender,
            );
            let (h2, d) = deal_respone_model(h1, action);
            &&& d == Some(DeliveryView { sender, body: success_json(req_info_of(request@), action.result) })
            &&& !h2.requests.dom().contains(action.key)
        }),
{
}

/// A request is either answered at once on its own channel, with nothing
/// changed, or published, with its sender now waiting under one key in
/// exactly one of the two tables and the other table unchanged.
pub proof fn request_is_answered_or_waits<S>(
    h: HandlerView<S>,
    decoded: Option<RpcRequest>,
    dispatch: Option<Result<ReqType, RpcError>>,
    sender: S,
)
    requires
        decoded is Some ==> dispatch is Some,
    ensures
        ({
            let (h1, out) = deal_req_model(h, decoded, dispatch, sender);
            ||| (out matches ReqOutcomeView::Reply { sender: s, .. } && s == sender && h1 == h)
            ||| ({
                let request = decoded->Some_0;
                let info = ReqInfoView { jsonrpc: request.jsonrpc, id: request.id@ };
                &&& decoded is Some
                &&& out is Publish
                &&& exists|k: Seq<u8>|
                    #![trigger h.requests.insert(k, (info, sender))]
                    #![trigger h.transactions.insert(k, (info, sender))]
                    (h1.requests == h.requests.insert(k, (info, sender)) && h1.transactions
                        == h.transactions) || (h1.transactions == h.transactions.insert(
                        k,
                        (info, sender),
                    ) && h1.requests == h.requests)
            })
        }),
{
    let (h1, out) = deal_req_model(h, decoded, dispatch, sender);
    if decoded is Some {
        let request = decoded->Some_0;
        let info = req_info_of(request@);
        match dispatch->Some_0 {
            Ok(ReqType::Tx { hash, payload }) => {
                assert(h1.transactions == h.transactions.insert(hash@, (info, sender)));
            },
            Ok(ReqType::Req { request_id, payload }) => {
                assert(h1.requests == h.requests.insert(request_id@, (info, sender)));
            },
            Err(_) => {},
        }
    }
}

/// A body that decodes to no request is answered at once, on its own
/// channel, with the parse error; nothing starts to wait.
pub proof fn undecodable_request_is_refused<S>(
    h: HandlerView<S>,
    dispatch: Option<Result<ReqType, RpcError>>,
    sender: S,
)
    ensures
        deal_req_model(h, None, dispatch, sender) == (
            h,
            ReqOutcomeView::Reply { sender, body: failure_json(parse_error_view()) },
        ),
{
}

/// A request that the method conversion refuses is answered at once, on its
/// own channel, with that error; nothing starts to wait.
pub proof fn unconvertible_request_is_refused<S>(
    h: HandlerView<S>,
    request: RpcRequest,
    err: RpcError,
    sender: S,
)
    ensures
        deal_req_model(h, Some(request), Some(Err(err)), sender) == (
            h,
            ReqOutcomeView::Reply { sender, body: failure_json(err@) },
        ),
{
}

/// An accepted transaction is published on the topic of its method and
/// waits under its hash; the waiting queries do not change.
pub proof fn accepted_transaction_waits<S>(
    h: HandlerView<S>,
    request: RpcRequest,
    hash: Vec<u8>,
    payload: Vec<u8>,
    sender: S,
)
    ensures
        ({
            let (h1, out) = deal_req_model(
                h,
                Some(request),
                Some(Ok(ReqType::Tx { hash, payload })),
                sender,
            );
            &&& out == ReqOutcomeView::<S>::Publish { topic: topic_of(request.method@), payload: payload@ }
            &&& h1.transactions == h.transactions.insert(
                hash@,
                (ReqInfoView { jsonrpc: request.jsonrpc, id: request.id@ }, sender),
            )
            &&& h1.requests == h.requests
        }),
{
}

/// Delivering a reply leaves the waiting transactions as they are, and keeps
/// the command ids.
pub proof fn deliveries_leave_transactions<S>(h: HandlerView<S>, action: RespondView)
    ensures
        ({
            let (h1, _d) = deal_respone_model(h, action);
            &&& h1.transactions == h.transactions
            &&& h1.chain_response_id == h.chain_response_id
            &&& h1.tx_response_id == h.tx_response_id
        }),
{
}

/// A message whose command id is neither routed id calls for no reply.
pub proof fn unrouted_message_is_ignored<S>(h: HandlerView<S>, id: u32, content: MsgContent)
    requires
        id != h.chain_response_id,
        id != h.tx_response_id,
    ensures
        deal_res_model(h, id, content) is None,
{
}

/// A reply to a transaction is delivered among the waiting queries, under
/// the transaction's hash: where no query waits under that hash, it reaches
/// nobody, whatever transactions wait, and changes nothing.
pub proof fn transaction_reply_is_looked_up_among_queries<S>(
    h: HandlerView<S>,
    hash: Vec<u8>,
    body: String,
)
    requires
        h.tx_response_id != h.chain_response_id,
        !h.requests.dom().contains(hash@),
    ensures
        ({
            let action = deal_res_model(h, h.tx_response_id, MsgContent::TxResponse { hash, body });
            &&& action == Some(RespondView { key: hash@, result: body@ })
            &&& deal_respone_model(h, action->Some_0) == (h, None::<DeliveryView<S>>)
        }),
{
}

/// Every method is published on one of the four topics.
pub proof fn topic_is_one_of_four(method: Seq<char>)
    ensures
        topic_of(method) == "jsonrpc.new_tx"@ || topic_of(method) == "jsonrpc.request"@
            || topic_of(method) == "jsonrpc.net"@ || topic_of(method) == "jsonrpc"@,
{
}

proof fn prefix_kept(m: Seq<char>, s: Seq<char>, p: Seq<char>)
    requires
        p.len() <= m.len(),
    ensures
        starts_with(m + s, p) == starts_with(m, p),
{
    assert((m + s).subrange(0, p.len() as int) =~= m.subrange(0, p.len() as int));
}

/// The topic depends only on the first nine characters of the method: what
/// follows them does not change it.
pub proof fn topic_depends_on_first_nine_chars(method: Seq<char>, rest: Seq<char>)
    requires
        method.len() >= 9,
    ensures
        topic_of(method + rest) == topic_of(method),
{
    reveal_strlit("cita_send");
    reveal_strlit("cita");
    reveal_strlit("eth");
    reveal_strlit("net_");
    prefix_kept(method, rest, "cita_send"@);
    prefix_kept(method, rest, "cita"@);
    prefix_kept(method, rest, "eth"@);
    prefix_kept(method, rest, "net_"@);
}

/// The topic rules, each stated by the method's leading characters: a
/// method goes to the transaction pool exactly when it begins with
/// `cita_send`; the other methods that begin with `cita` or `eth` go to the
/// chain; methods that begin with `net_` and with neither of those go to the
/// network; all others go to the default topic.
pub proof fn topic_rules(m: Seq<char>)
    ensures
        topic_of(m) == "jsonrpc.new_tx"@ <==> (m.len() >= 9 && m.subrange(0, 9) == "cita_send"@),
        ((m.len() >= 4 && m.subrange(0, 4) == "cita"@) || (m.len() >= 3 && m.subrange(0, 3) == "eth"@))
            && !(m.len() >= 9 && m.subrange(0, 9) == "cita_send"@) ==> topic_of(m) == "jsonrpc.request"@,
        m.len() >= 4 && m.subrange(0, 4) == "net_"@ ==> topic_of(m) == "jsonrpc.net"@,
        !(m.len() >= 4 && m.subrange(0, 4) == "cita"@) && !(m.len() >= 3 && m.subrange(0, 3) == "eth"@)
            && !(m.len() >= 4 && m.subrange(0, 4) == "net_"@) ==> topic_of(m) == "jsonrpc"@,
{
    reveal_strlit("cita_send");
    reveal_strlit("cita");
    reveal_strlit("eth");
    reveal_strlit("net_");
    reveal_strlit("jsonrpc.new_tx");
    reveal_strlit("jsonrpc.request");
    reveal_strlit("jsonrpc.net");
    reveal_strlit("jsonrpc");
    if m.len() >= 9 && m.subrange(0, 9) == "cita_send"@ {
        assert(m.subrange(0, 4) =~= m.subrange(0, 9).subrange(0, 4));
        assert("cita_send"@.subrange(0, 4) =~= "cita"@);
        assert(m.subrange(0, 4) == "cita"@);
    }
    if m.len() >= 4 && m.subrange(0, 4) == "net_"@ {
        assert(m.subrange(0, 4)[0] == m[0]);
        assert(m[0] == 'n');
        assert(!starts_with(m, "cita_send"@)) by {
            if starts_with(m, "cita_send"@) {
                assert(m.subrange(0, 9)[0] == m[0]);
            }
        }
        assert(!starts_with(m, "cita"@)) by {
            if starts_with(m, "cita"@) {
                assert(m.subrange(0, 4)[0] == m[0]);
            }
        }
        assert(!starts_with(m, "eth"@)) by {
            if starts_with(m, "eth"@) {
                assert(m.subrange(0, 3)[0] == m[0]);
            }
        }
    }
    assert("jsonrpc.new_tx"@[8] != "jsonrpc.request"@[8]);
    assert("jsonrpc.new_tx"@.len() != "jsonrpc.net"@.len());
    assert("jsonrpc.new_tx"@.len() != "jsonrpc"@.len());
}

}

//! The request handler: it answers what it must refuse, publishes what it
//! accepts, remembers who waits for which reply, and routes the replies that
//! come back from the chain to the clients that wait for them.
use vstd::prelude::*;
use crate::json::{failure_json, from_err, success_json, success_text};
use crate::pending::PendingTable;
use crate::protocol::{
    parse_error_view, req_info_of, ReqInfo, ReqInfoView, RpcError, RpcRequest,
};
use crate::topic::{topic_of, BaseHandler};

verus! {

/// What the method conversion made of an accepted request: a transaction,
/// keyed by its hash, or a query, keyed by its request id; each with the
/// encoded message that goes on the queue.
pub enum ReqType {
    Tx { hash: Vec<u8>, payload: Vec<u8> },
    Req { request_id: Vec<u8>, payload: Vec<u8> },
}

/// What the handler does with a request.
pub enum ReqOutcome<S> {
    /// Answer at once on `sender` with `body`.
    Reply { sender: S, body: String },
    /// Publish `payload` on `topic`; the sender now waits for the reply.
    Publish { topic: String, payload: Vec<u8> },
}

pub enum ReqOutcomeView<S> {
    Reply { sender: S, body: Seq<char> },
    Publish { topic: Seq<char>, payload: Seq<u8> },
}

impl<S> View for ReqOutcome<S> {
    type V = ReqOutcomeView<S>;

    open spec fn view(&self) -> ReqOutcomeView<S> {
        match self {
            ReqOutcome::Reply { sender, body } => ReqOutcomeView::Reply { sender: *sender, body: body@ },
            ReqOutcome::Publish { topic, payload } => ReqOutcomeView::Publish {
                topic: topic@,
                payload: payload@,
            },
        }
    }
}

/// The content of a message that came back from the chain or the consensus.
pub enum MsgContent {
    /// A reply to a query; `result` is its JSON text, if the reply has one.
    Response { request_id: Vec<u8>, result: Option<String> },
    /// A reply to a transaction, as JSON text.
    TxResponse { hash: Vec<u8>, body: String },
    /// Anything else.
    Other,
}

/// A reply to send: `body` goes out on `sender`.
pub struct Delivery<S> {
    pub sender: S,
    pub body: String,
}

pub struct DeliveryView<S> {
    pub sender: S,
    pub body: Seq<char>,
}

pub open spec fn delivery_view<S>(d: Option<Delivery<S>>) -> Option<DeliveryView<S>> {
    match d {
        Some(d) => Some(DeliveryView { sender: d.sender, body: d.body@ }),
        None => None,
    }
}

/// A reply to deliver later: the query waiting under `key` is to be
/// answered with `result`, JSON text.
pub struct Respond {
    pub key: Vec<u8>,
    pub result: String,
}

pub struct RespondView {
    pub key: Seq<u8>,
    pub result: Seq<char>,
}

impl View for Respond {
    type V = RespondView;

    open spec fn view(&self) -> RespondView {
        RespondView { key: self.key@, result: self.result@ }
    }
}

pub open spec fn respond_view(r: Option<Respond>) -> Option<RespondView> {
    match r {
        Some(a) => Some(a@),
        None => None,
    }
}

/// The state of a handler: who waits for which reply, and the command ids of
/// the two kinds of reply it routes.
pub struct HandlerView<S> {
    pub requests: Map<Seq<u8>, (ReqInfoView, S)>,
    pub transactions: Map<Seq<u8>, (ReqInfoView, S)>,
    pub chain_response_id: u32,
    pub tx_response_id: u32,
}

/// The handler state after `requests` became `t`.
pub open spec fn with_requests<S>(h: HandlerView<S>, t: Map<Seq<u8>, (ReqInfoView, S)>) -> HandlerView<S> {
    HandlerView { requests: t, ..h }
}

/// The handler state after `transactions` became `t`.
pub open spec fn with_transactions<S>(h: HandlerView<S>, t: Map<Seq<u8>, (ReqInfoView, S)>) -> HandlerView<S> {
    HandlerView { transactions: t, ..h }
}

/// What a request does to the handler, and what the handler does with it.
/// `decoded` is the request that the body decoded to, if any; `dispatch` is
/// what the method conversion made of it.
pub open spec fn deal_req_model<S>(
    h: HandlerView<S>,
    decoded: Option<RpcRequest>,
    dispatch: Option<Result<ReqType, RpcError>>,
    sender: S,
) -> (HandlerView<S>, ReqOutcomeView<S>) {
    match decoded {
        None => (h, ReqOutcomeView::Reply { sender, body: failure_json(parse_error_view()) }),
        Some(request) => {
            let topic = topic_of(request.method@);
            let info = req_info_of(request@);
            match dispatch->Some_0 {
                Err(e) => (h, ReqOutcomeView::Reply { sender, body: failure_json(e@) }),
                Ok(ReqType::Tx { hash, payload }) => (
                    with_transactions(h, h.transactions.insert(hash@, (info, sender))),
                    ReqOutcomeView::Publish { topic, payload: payload@ },
                ),
                Ok(ReqType::Req { request_id, payload }) => (
                    with_requests(h, h.requests.insert(request_id@, (info, sender))),
                    ReqOutcomeView::Publish { topic, payload: payload@ },
                ),
            }
        },
    }
}

/// A reply for `key` that carries `result`: the waiting entry leaves `table`
/// and its sender gets the success envelope; with no entry, nothing happens.
pub open spec fn respond_model<S>(
    table: Map<Seq<u8>, (ReqInfoView, S)>,
    key: Seq<u8>,
    result: Seq<char>,
) -> (Map<Seq<u8>, (ReqInfoView, S)>, Option<DeliveryView<S>>) {
    if table.dom().contains(key) {
        (
            table.remove(key),
            Some(DeliveryView { sender: table[key].1, body: success_json(table[key].0, result) }),
        )
    } else {
        (table, None)
    }
}

/// The reply that a message with command id `id` calls for, if any; the
/// message itself changes nothing. Replies to queries and to transactions
/// are both to be delivered to the waiting queries.
pub open spec fn deal_res_model<S>(h: HandlerView<S>, id: u32, content: MsgContent) -> Option<RespondView> {
    if id == h.chain_response_id {
        match content {
            MsgContent::Response { request_id, result } => Some(
                RespondView { key: request_id@, result: result->Some_0@ },
            ),
            _ => None,
        }
    } else if id == h.tx_response_id {
        match content {
            MsgContent::TxResponse { hash, body } => Some(RespondView { key: hash@, result: body@ }),
            _ => None,
        }
    } else {
        None
    }
}

/// What delivering `action` does to the handler: the waiting query under its
/// key, if any, leaves and its sender gets the success envelope.
pub open spec fn deal_respone_model<S>(h: HandlerView<S>, action: RespondView) -> (
    HandlerView<S>,
    Option<DeliveryView<S>>,
) {
    let (t, d) = respond_model(h.requests, action.key, action.result);
    (with_requests(h, t), d)
}

/// The handler. `S` is the channel a reply goes out on.
pub struct RpcHandler<S> {
    responses: PendingTable<S>,
    tx_responses: PendingTable<S>,
    chain_response_id: u32,
    tx_response_id: u32,
}

impl<S> View for RpcHandler<S> {
    type V = HandlerView<S>;

    closed spec fn view(&self) -> HandlerView<S> {
        HandlerView {
            requests: self.responses@,
            transactions: self.tx_responses@,
            chain_response_id: self.chain_response_id,
            tx_response_id: self.tx_response_id,
        }
    }
}

impl<S> BaseHandler for RpcHandler<S> {

}

impl<S> RpcHandler<S> {
    /// No key waits twice in either table.
    pub closed spec fn wf(&self) -> bool {
        self.responses.wf() && self.tx_responses.wf()
    }

    /// A handler with nobody waiting, that routes messages with command id
    /// `chain_response_id` as replies to queries and those with
    /// `tx_response_id` as replies to transactions.
    pub fn new(chain_response_id: u32, tx_response_id: u32) -> (h: Self)
        ensures
            h.wf(),
            h@.requests == Map::<Seq<u8>, (ReqInfoView, S)>::empty(),
            h@.transactions == Map::<Seq<u8>, (ReqInfoView, S)>::empty(),
            h@.chain_response_id == chain_response_id,
            h@.tx_response_id == tx_response_id,
    {
        RpcHandler {
            responses: PendingTable::new(),
            tx_responses: PendingTable::new(),
            chain_response_id,
            tx_response_id,
        }
    }

    /// The command id of replies to queries.
    pub fn chain_response_id(&self) -> (r: u32)
        ensures
            r == self@.chain_response_id,
    {
        self.chain_response_id
    }

    /// The command id of replies to transactions.
    pub fn tx_response_id(&self) -> (r: u32)
        ensures
            r == self@.tx_response_id,
    {
        self.tx_response_id
    }

    /// Whether a query with request id `key` waits for its reply.
    pub fn is_waiting(&self, key: &[u8]) -> (r: bool)
        ensures
            r == self@.requests.dom().contains(key@),
    {
        self.responses.contains_key(key)
    }

    /// Whether a transaction with hash `key` waits for its reply.
    pub fn is_waiting_tx(&self, key: &[u8]) -> (r: bool)
        ensures
            r == self@.transactions.dom().contains(key@),
    {
        self.tx_responses.contains_key(key)
    }

    /// Handles a request from `sender`. `decoded` is the request that its
    /// body decoded to, if any; `dispatch`, present whenever `decoded` is,
    /// is what the method conversion made of it.
    pub fn deal_req(
        &mut self,
        decoded: Option<RpcRequest>,
        dispatch: Option<Result<ReqType, RpcError>>,
        sender: S,
    ) -> (out: ReqOutcome<S>)
        requires
            old(self).wf(),
            decoded is Some ==> dispatch is Some,
        ensures
            final(self).wf(),
            (final(self)@, out@) == deal_req_model(old(self)@, decoded, dispatch, sender),
    {
        match Self::into_json(decoded) {
            Err(err) => ReqOutcome::Reply { sender, body: from_err(err) },
            Ok(rpc) => {
                let topic = Self::select_topic(&rpc.method);
                let req_info = ReqInfo::new(rpc.jsonrpc, rpc.id.duplicate());
                match dispatch {
                    Some(Err(err)) => ReqOutcome::Reply { sender, body: from_err(err) },
                    Some(Ok(ReqType::Tx { hash, payload })) => {
                        let _ = self.tx_responses.insert(hash, req_info, sender);
                        ReqOutcome::Publish { topic, payload }
                    },
                    Some(Ok(ReqType::Req { request_id, payload })) => {
                        let _ = self.responses.insert(request_id, req_info, sender);
                        ReqOutcome::Publish { topic, payload }
                    },
                    None => ReqOutcome::Reply { sender, body: from_err(RpcError::parse_error()) },
                }
            },
        }
    }

    /// Works out which reply a message with command id `id` calls for. The
    /// handler does not change: the reply is delivered later, by
    /// `deal_respone`, on the worker pool.
    pub fn deal_res(&mut self, id: u32, content: MsgContent) -> (r: Option<Respond>)
        requires
            old(self).wf(),
            id == old(self)@.chain_response_id && content is Response ==> content->result is Some,
        ensures
            final(self).wf(),
            final(self)@ == old(self)@,
            respond_view(r) == deal_res_model(old(self)@, id, content),
    {
        if id == self.chain_response_id {
            match content {
                MsgContent::Response { request_id, result } => {
                    let result = result.unwrap();
                    Some(Respond { key: request_id, result })
                },
                _ => None,
            }
        } else if id == self.tx_response_id {
            match content {
                MsgContent::TxResponse { hash, body } => Some(Respond { key: hash, result: body }),
                _ => None,
            }
        } else {
            None
        }
    }

    /// Delivers a reply that `deal_res` called for: the query waiting under
    /// its key, if any, stops waiting and its sender gets the reply.
    pub fn deal_respone(&mut self, action: &Respond) -> (r: Option<Delivery<S>>)
        requires
            old(self).wf(),
        ensures
            final(self).wf(),
            (final(self)@, delivery_view(r)) == deal_respone_model(old(self)@, action@),
    {
        respond(&mut self.responses, action.key.as_slice(), action.result.as_str())
    }
}

/// A reply for `key` that carries `result`, JSON text: takes the waiting
/// entry out of `table` and yields the success envelope for its sender.
pub fn respond<S>(table: &mut PendingTable<S>, key: &[u8], result: &str) -> (r: Option<Delivery<S>>)
    requires
        old(table).wf(),
    ensures
        final(table).wf(),
        (final(table)@, delivery_view(r)) == respond_model(old(table)@, key@, result@),
{
    match table.remove(key) {
        Some((info, sender)) => {
            let body = success_text(&info, result);
            Some(Delivery { sender, body })
        },
        None => None,
    }
}

}

use jsonrpc::handler::{respond, Delivery, MsgContent, ReqOutcome, ReqType, RpcHandler};
use jsonrpc::pending::PendingTable;
use jsonrpc::protocol::{Id, ReqInfo, RpcError, RpcRequest, Version};

const CHAIN_RESPONSE: u32 = 100;
const TX_RESPONSE: u32 = 200;

fn deliver(h: &mut RpcHandler<u32>, id: u32, content: MsgContent) -> Option<Delivery<u32>> {
    match h.deal_res(id, content) {
        Some(action) => h.deal_respone(&action),
        None => None,
    }
}

fn request(method: &str, id: u64) -> RpcRequest {
    RpcRequest { jsonrpc: Some(Version::V2), method: method.to_string(), id: Id::Num(id) }
}

#[test]
fn undecodable_body_is_answered_with_parse_error() {
    let mut h: RpcHandler<u32> = RpcHandler::new(CHAIN_RESPONSE, TX_RESPONSE);
    match h.deal_req(None, None, 5) {
        ReqOutcome::Reply { sender, body } => {
            assert_eq!(sender, 5);
            assert_eq!(body, "{\"id\":null,\"error\":{\"code\":-32700,\"message\":\"Parse error\"}}".to_string());
        }
        ReqOutcome::Publish { .. } => panic!("expected a reply"),
    }
}

#[test]
fn refused_conversion_is_answered_with_its_error() {
    let mut h: RpcHandler<u32> = RpcHandler::new(CHAIN_RESPONSE, TX_RESPONSE);
    let err = RpcError { code: -32601, message: "Method not found".to_string(), data: None };
    match h.deal_req(Some(request("foo", 3)), Some(Err(err)), 8) {
        ReqOutcome::Reply { sender, body } => {
            assert_eq!(sender, 8);
            assert_eq!(body, "{\"id\":null,\"error\":{\"code\":-32601,\"message\":\"Method not found\"}}".to_string());
        }
        ReqOutcome::Publish { .. } => panic!("expected a reply"),
    }
    assert!(!h.is_waiting(b"foo"));
}

#[test]
fn query_reply_reaches_its_sender_once() {
    let mut h: RpcHandler<u32> = RpcHandler::new(CHAIN_RESPONSE, TX_RESPONSE);
    let key = vec![1u8, 2, 3];
    match h.deal_req(
        Some(request("cita_blockNumber", 42)),
        Some(Ok(ReqType::Req { request_id: key.clone(), payload: vec![9, 9] })),
        7,
    ) {
        ReqOutcome::Publish { topic, payload } => {
            assert_eq!(topic, "jsonrpc.request".to_string());
            assert_eq!(payload, vec![9, 9]);
        }
        ReqOutcome::Reply { .. } => panic!("expected a publication"),
    }
    assert!(h.is_waiting(&key));
    assert!(!h.is_waiting_tx(&key));

    let d = deliver(&mut h, CHAIN_RESPONSE, MsgContent::Response { request_id: key.clone(), result: Some("\"0x14\"".to_string()) })
        .unwrap();
    assert_eq!(d.sender, 7);
    assert_eq!(d.body, "{\"jsonrpc\":\"2.0\",\"id\":42,\"result\":\"0x14\"}".to_string());
    assert!(!h.is_waiting(&key));

    let again = deliver(&mut h, CHAIN_RESPONSE, MsgContent::Response { request_id: key.clone(), result: Some("1".to_string()) });
    assert!(again.is_none());
}

#[test]
fn reply_for_unknown_request_reaches_nobody() {
    let mut h: RpcHandler<u32> = RpcHandler::new(CHAIN_RESPONSE, TX_RESPONSE);
    let r = deliver(&mut h, CHAIN_RESPONSE, MsgContent::Response { request_id: vec![4], result: Some("1".to_string()) });
    assert!(r.is_none());
}

#[test]
fn transaction_waits_under_its_hash() {
    let mut h: RpcHandler<u32> = RpcHandler::new(CHAIN_RESPONSE, TX_RESPONSE);
    let hash = vec![0xab, 0xcd];
    match h.deal_req(
        Some(request("cita_sendTransaction", 1)),
        Some(Ok(ReqType::Tx { hash: hash.clone(), payload: vec![1] })),
        11,
    ) {
        ReqOutcome::Publish { topic, payload } => {
            assert_eq!(topic, "jsonrpc.new_tx".to_string());
            assert_eq!(payload, vec![1]);
        }
        ReqOutcome::Reply { .. } => panic!("expected a publication"),
    }
    assert!(h.is_waiting_tx(&hash));
    assert!(!h.is_waiting(&hash));
}

#[test]
fn transaction_reply_is_looked_up_among_queries() {
    let mut h: RpcHandler<u32> = RpcHandler::new(CHAIN_RESPONSE, TX_RESPONSE);
    let hash = vec![0xab, 0xcd];
    let _ = h.deal_req(
        Some(request("cita_sendTransaction", 1)),
        Some(Ok(ReqType::Tx { hash: hash.clone(), payload: vec![1] })),
        11,
    );
    let r = deliver(&mut h, TX_RESPONSE, MsgContent::TxResponse { hash: hash.clone(), body: "{}".to_string() });
    assert!(r.is_none());
    assert!(h.is_waiting_tx(&hash));

    let _ = h.deal_req(
        Some(request("cita_getTransaction", 2)),
        Some(Ok(ReqType::Req { request_id: hash.clone(), payload: vec![2] })),
        12,
    );
    let d = deliver(&mut h, TX_RESPONSE, MsgContent::TxResponse { hash: hash.clone(), body: "{}".to_string() }).unwrap();
    assert_eq!(d.sender, 12);
    assert_eq!(d.body, "{\"jsonrpc\":\"2.0\",\"id\":2,\"result\":{}}".to_string());
}

#[test]
fn mismatched_content_and_unrouted_ids_are_ignored() {
    let mut h: RpcHandler<u32> = RpcHandler::new(CHAIN_RESPONSE, TX_RESPONSE);
    let key = vec![5u8];
    let _ = h.deal_req(
        Some(request("net_peerCount", 3)),
        Some(Ok(ReqType::Req { request_id: key.clone(), payload: vec![] })),
        1,
    );
    assert!(deliver(&mut h, CHAIN_RESPONSE, MsgContent::Other).is_none());
    assert!(deliver(&mut h, CHAIN_RESPONSE, MsgContent::TxResponse { hash: key.clone(), body: "1".to_string() }).is_none());
    assert!(deliver(&mut h, TX_RESPONSE, MsgContent::Response { request_id: key.clone(), result: None }).is_none());
    assert!(deliver(&mut h, 7, MsgContent::Response { request_id: key.clone(), result: Some("1".to_string()) }).is_none());
    assert!(h.is_waiting(&key));
}

#[test]
fn second_request_with_same_id_replaces_the_first() {
    let mut h: RpcHandler<u32> = RpcHandler::new(CHAIN_RESPONSE, TX_RESPONSE);
    let key = vec![6u8];
    let _ = h.deal_req(Some(request("cita_a", 1)), Some(Ok(ReqType::Req { request_id: key.clone(), payload: vec![] })), 1);
    let _ = h.deal_req(Some(request("cita_b", 2)), Some(Ok(ReqType::Req { request_id: key.clone(), payload: vec![] })), 2);
    let d = deliver(&mut h, CHAIN_RESPONSE, MsgContent::Response { request_id: key.clone(), result: Some("0".to_string()) }).unwrap();
    assert_eq!(d.sender, 2);
    assert_eq!(d.body, "{\"jsonrpc\":\"2.0\",\"id\":2,\"result\":0}".to_string());
    assert!(deliver(&mut h, CHAIN_RESPONSE, MsgContent::Response { request_id: key, result: Some("0".to_string()) }).is_none());
}

#[test]
fn route_ids_are_kept() {
    let h: RpcHandler<u32> = RpcHandler::new(CHAIN_RESPONSE, TX_RESPONSE);
    assert_eq!(h.chain_response_id(), CHAIN_RESPONSE);
    assert_eq!(h.tx_response_id(), TX_RESPONSE);
}

#[test]
fn pending_table_insert_remove() {
    let mut t: PendingTable<&str> = PendingTable::new();
    assert!(t.insert(vec![1], ReqInfo::new(None, Id::Null), "a").is_none());
    assert!(t.insert(vec![2], ReqInfo::new(None, Id::Num(2)), "b").is_none());
    assert!(t.contains_key(&[1]));
    let old = t.insert(vec![1], ReqInfo::new(Some(Version::V2), Id::Num(3)), "c").unwrap();
    assert_eq!(old.1, "a");
    let (info, s) = t.remove(&[1]).unwrap();
    assert_eq!(s, "c");
    assert!(matches!(info.id, Id::Num(3)));
    assert!(t.remove(&[1]).is_none());
    assert!(t.contains_key(&[2]));
    assert!(!t.contains_key(&[]));
}

#[test]
fn reply_is_called_for_but_not_yet_delivered() {
    let mut h: RpcHandler<u32> = RpcHandler::new(CHAIN_RESPONSE, TX_RESPONSE);
    let key = vec![7u8];
    let _ = h.deal_req(Some(request("cita_x", 1)), Some(Ok(ReqType::Req { request_id: key.clone(), payload: vec![] })), 1);
    let action = h
        .deal_res(CHAIN_RESPONSE, MsgContent::Response { request_id: key.clone(), result: Some("5".to_string()) })
        .unwrap();
    assert_eq!(action.key, key);
    assert_eq!(action.result, "5".to_string());
    assert!(h.is_waiting(&key));
    let d = h.deal_respone(&action).unwrap();
    assert_eq!(d.sender, 1);
    assert!(!h.is_waiting(&key));
    assert!(h.deal_respone(&action).is_none());
}

#[test]
fn delivery_reaches_query_that_arrived_in_between() {
    let mut h: RpcHandler<u32> = RpcHandler::new(CHAIN_RESPONSE, TX_RESPONSE);
    let key = vec![8u8];
    let _ = h.deal_req(Some(request("cita_x", 1)), Some(Ok(ReqType::Req { request_id: key.clone(), payload: vec![] })), 1);
    let action = h
        .deal_res(CHAIN_RESPONSE, MsgContent::Response { request_id: key.clone(), result: Some("5".to_string()) })
        .unwrap();
    let _ = h.deal_req(Some(request("cita_y", 2)), Some(Ok(ReqType::Req { request_id: key.clone(), payload: vec![] })), 2);
    let d = h.deal_respone(&action).unwrap();
    assert_eq!(d.sender, 2);
    assert_eq!(d.body, "{\"jsonrpc\":\"2.0\",\"id\":2,\"result\":5}".to_string());
}

#[test]
fn respond_on_a_table() {
    let mut t: PendingTable<u32> = PendingTable::new();
    let _ = t.insert(vec![1], ReqInfo::new(None, Id::Str("q".to_string())), 4);
    let d = respond(&mut t, &[1], "null").unwrap();
    assert_eq!(d.sender, 4);
    assert_eq!(d.body, "{\"id\":\"q\",\"result\":null}".to_string());
    assert!(respond(&mut t, &[1], "null").is_none());
    assert!(!t.contains_key(&[1]));
}

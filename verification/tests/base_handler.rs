use jsonrpc::task::FnBox;
use jsonrpc::topic::BaseHandler;
use std::sync::{Arc, Mutex};

struct Handler {}

impl BaseHandler for Handler {}

#[test]
fn test_get_topic() {
    assert_eq!(Handler::select_topic(&"net_work".to_string()), "jsonrpc.net".to_string());
    assert_eq!(Handler::select_topic(&"cita_send".to_string()), "jsonrpc.new_tx".to_string());
    assert_eq!(Handler::select_topic(&"cita".to_string()), "jsonrpc.request".to_string());
    assert_eq!(Handler::select_topic(&"eth".to_string()), "jsonrpc.request".to_string());
    assert_eq!(Handler::select_topic(&"123".to_string()), "jsonrpc".to_string());
}

#[test]
fn topic_send_transaction_method() {
    assert_eq!(Handler::select_topic(&"cita_sendTransaction".to_string()), "jsonrpc.new_tx".to_string());
}

#[test]
fn topic_query_methods() {
    assert_eq!(Handler::select_topic(&"cita_blockNumber".to_string()), "jsonrpc.request".to_string());
    assert_eq!(Handler::select_topic(&"eth_getTransactionReceipt".to_string()), "jsonrpc.request".to_string());
}

#[test]
fn topic_edge_cases() {
    assert_eq!(Handler::select_topic(&"".to_string()), "jsonrpc".to_string());
    assert_eq!(Handler::select_topic(&"net".to_string()), "jsonrpc".to_string());
    assert_eq!(Handler::select_topic(&"net_peerCount".to_string()), "jsonrpc.net".to_string());
    assert_eq!(Handler::select_topic(&"cit".to_string()), "jsonrpc".to_string());
    assert_eq!(Handler::select_topic(&"Cita".to_string()), "jsonrpc".to_string());
    assert_eq!(Handler::select_topic(&"cita_sen".to_string()), "jsonrpc.request".to_string());
    assert_eq!(Handler::select_topic(&"ethéé".to_string()), "jsonrpc.request".to_string());
    assert_eq!(Handler::select_topic(&"é".to_string()), "jsonrpc".to_string());
}

#[test]
fn into_json_maps_undecodable_body_to_parse_error() {
    let r = Handler::into_json(None);
    match r {
        Err(e) => {
            assert_eq!(e.code, -32700);
            assert_eq!(e.message, "Parse error".to_string());
            assert!(e.data.is_none());
        }
        Ok(_) => panic!("expected a parse error"),
    }
}

#[test]
fn into_json_keeps_decoded_request() {
    let req = jsonrpc::protocol::RpcRequest {
        jsonrpc: Some(jsonrpc::protocol::Version::V2),
        method: "cita_blockNumber".to_string(),
        id: jsonrpc::protocol::Id::Num(7),
    };
    let r = Handler::into_json(Some(req)).unwrap();
    assert_eq!(r.method, "cita_blockNumber".to_string());
    assert!(matches!(r.id, jsonrpc::protocol::Id::Num(7)));
}

#[test]
fn boxed_work_runs_once() {
    let count = Arc::new(Mutex::new(0u32));
    let c = count.clone();
    let work: Box<dyn FnBox + Send> = Box::new(move || {
        *c.lock().unwrap() += 1;
    });
    work.call_box();
    assert_eq!(*count.lock().unwrap(), 1);
}

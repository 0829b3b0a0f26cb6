# jsonrpc

The request handler of a JSON-RPC front end to a blockchain node, verified
with Verus.

- `src/protocol.rs`: the request envelope, request identifiers, the error object.
- `src/topic.rs`: which message-queue topic a method goes to; mapping a decode failure to the parse error.
- `src/json.rs`: the JSON text of replies (string literals through `serde_json`, numerals, the success and failure envelopes).
- `src/pending.rs`: the table of requests that wait for a reply, keyed by request id or transaction hash.
- `src/handler.rs`: the handler; what a request and a returning message do to it, stated as `deal_req_model` and `deal_res_model`.
- `src/laws.rs`: properties across calls, proved over those models.
- `src/task.rs`: boxed work for the worker pool.
- `app/`: the servers (HTTP, websocket), the message queue, the worker pool, decoding and method conversion.

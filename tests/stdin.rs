use amalthea::socket::stdin::InputReply;
use amalthea::socket::stdin::InputRequest;
use amalthea::socket::stdin::ShellInputRequest;
use amalthea::socket::stdin::Stdin;
use amalthea::socket::stdin::StdInInbound;
use amalthea::socket::stdin::StdInOutput;
use amalthea::socket::stdin::StdInRequest;
use amalthea::wire::header::JupyterHeader;
use amalthea::comm::frontend_comm::FrontendRpcResult;
use amalthea::comm::frontend_comm::JsonRpcResponse;
use serde_json::Value;

fn header(id: &str) -> JupyterHeader {
    JupyterHeader {
        msg_id: id.to_string(),
        session: "S".to_string(),
        username: "u".to_string(),
        date: String::new(),
        msg_type: "input_reply".to_string(),
        version: "5.3".to_string(),
    }
}

fn prompt(p: &str) -> StdInRequest {
    StdInRequest::InputRequest(ShellInputRequest {
        originator: b"shell-id".to_vec(),
        request: InputRequest { prompt: p.to_string(), password: false },
    })
}

#[test]
fn input_round_trip() {
    let mut stdin = Stdin::new();
    let sent = stdin.send_request(prompt("prompt>"), "Q1".to_string());
    match sent {
        Ok(StdInOutput::SendInputRequest(r)) => {
            assert_eq!(r.request.prompt, "prompt>");
            assert_eq!(r.originator, b"shell-id".to_vec());
        }
        _ => panic!("expected an input request"),
    }
    assert!(!stdin.is_idle());
    let out = stdin.handle_inbound(StdInInbound::InputReply(header("H1"), "Q1".to_string(), InputReply { value: "hi".to_string() }));
    assert_eq!(out.len(), 2);
    match &out[0] {
        StdInOutput::SetContext(h) => assert_eq!(h.msg_id, "H1"),
        _ => panic!("expected the context first"),
    }
    match &out[1] {
        StdInOutput::DeliverInput(r) => assert_eq!(r.value, "hi"),
        _ => panic!("expected the reply"),
    }
    assert!(stdin.is_idle());
    let late = stdin.handle_inbound(StdInInbound::InputReply(header("H2"), "Q1".to_string(), InputReply { value: "x".to_string() }));
    assert!(matches!(late[0], StdInOutput::Dropped));
}

#[test]
fn busy_channel_hands_the_request_back() {
    let mut stdin = Stdin::new();
    assert!(stdin.send_request(prompt("a"), "Q1".to_string()).is_ok());
    match stdin.send_request(prompt("b"), "Q2".to_string()) {
        Err(StdInRequest::InputRequest(r)) => assert_eq!(r.request.prompt, "b"),
        _ => panic!("expected the request back"),
    }
}

#[test]
fn interrupt_abandons_the_wait() {
    let mut stdin = Stdin::new();
    assert!(stdin.send_request(prompt("a"), "Q1".to_string()).is_ok());
    stdin.interrupt();
    assert!(stdin.is_idle());
    let late = stdin.handle_inbound(StdInInbound::InputReply(header("H"), "Q1".to_string(), InputReply { value: "x".to_string() }));
    assert_eq!(late.len(), 1);
    assert!(matches!(late[0], StdInOutput::Dropped));
    // A new request, then the late reply to the interrupted one: dropped.
    assert!(stdin.send_request(prompt("b"), "Q2".to_string()).is_ok());
    let late = stdin.handle_inbound(StdInInbound::InputReply(header("H"), "Q1".to_string(), InputReply { value: "x".to_string() }));
    assert!(matches!(late[0], StdInOutput::Dropped));
    assert!(!stdin.is_idle());
    let out = stdin.handle_inbound(StdInInbound::InputReply(header("H3"), "Q2".to_string(), InputReply { value: "y".to_string() }));
    assert!(matches!(&out[1], StdInOutput::DeliverInput(r) if r.value == "y"));
    assert!(stdin.is_idle());
}

#[test]
fn comm_request_gets_its_response() {
    let mut stdin = Stdin::new();
    let (tx, rx) = crossbeam::channel::unbounded();
    let sent = stdin.send_request(StdInRequest::CommRequest(tx, Value::from(3)), "C1".to_string());
    assert!(matches!(sent, Ok(StdInOutput::SendCommRequest(Value::Number(_)))));
    let other = stdin.handle_inbound(StdInInbound::InputReply(header("H"), "C1".to_string(), InputReply { value: "x".to_string() }));
    assert!(matches!(other[0], StdInOutput::Dropped));
    let stale = JsonRpcResponse::Result(FrontendRpcResult { id: "0".to_string(), result: Value::Null });
    let other = stdin.handle_inbound(StdInInbound::CommReply(header("H"), "C0".to_string(), stale));
    assert!(matches!(other[0], StdInOutput::Dropped));
    let resp = JsonRpcResponse::Result(FrontendRpcResult { id: "1".to_string(), result: Value::Bool(true) });
    let out = stdin.handle_inbound(StdInInbound::CommReply(header("H"), "C1".to_string(), resp));
    assert_eq!(out.len(), 1);
    match out.into_iter().next().unwrap() {
        StdInOutput::DeliverComm(tx, resp) => tx.send(resp).unwrap(),
        _ => panic!("expected the response"),
    }
    assert!(matches!(rx.recv().unwrap(), JsonRpcResponse::Result(r) if r.id == "1"));
    assert!(stdin.is_idle());
}

#[test]
fn other_messages_are_dropped() {
    let mut stdin = Stdin::new();
    let out = stdin.handle_inbound(StdInInbound::Other("execute_request".to_string()));
    assert!(matches!(out[0], StdInOutput::Dropped));
}

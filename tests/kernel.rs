use amalthea::comm::frontend_comm::rpc_method_name;
use amalthea::comm::frontend_comm::rpc_reply;
use amalthea::comm::frontend_comm::FrontendMessage;
use amalthea::r::version::detect_r;
use amalthea::r::version::parse_version;
use amalthea::comm::frontend_comm::method_not_found;
use amalthea::comm::frontend_comm::CommRequest;
use amalthea::comm::frontend_comm::JsonRpcErrorCode;
use amalthea::comm::frontend_comm::RpcRequest;
use amalthea::kernel::decimal_text;
use amalthea::kernel::forward_cycle;
use amalthea::kernel::ConnectionFile;
use amalthea::kernel::ForwardStep;
use amalthea::r::internals::CeType;
use amalthea::r::internals::SexpInfo;
use amalthea::r::internals::SexpType;
use amalthea::socket::iopub::IOPubMessage;
use amalthea::socket::iopub::StreamName;
use amalthea::wire::header::JupyterHeader;
use amalthea::wire::message_kind::MessageKind;
use amalthea::wire::message_kind::TypeError;
use serde_json::Value;

fn connection(key: &str) -> ConnectionFile {
    ConnectionFile {
        control_port: 5001,
        shell_port: 5002,
        stdin_port: 5003,
        iopub_port: 5004,
        hb_port: 65535,
        transport: "tcp".to_string(),
        signature_scheme: "hmac-sha256".to_string(),
        ip: "127.0.0.1".to_string(),
        key: key.to_string(),
    }
}

#[test]
fn endpoints_are_transport_ip_and_port() {
    let c = connection("k");
    assert_eq!(c.endpoint(c.shell_port), "tcp://127.0.0.1:5002");
    assert_eq!(c.endpoint(c.hb_port), "tcp://127.0.0.1:65535");
    assert_eq!(c.endpoint(0), "tcp://127.0.0.1:0");
    assert_eq!(decimal_text(1234567890123), "1234567890123");
}

#[test]
fn empty_key_disables_signing() {
    assert_eq!(connection("").hmac_key(), None);
    assert_eq!(connection("abc").hmac_key(), Some(b"abc".to_vec()));
    let mut c = connection("abc");
    assert!(c.supports_signature_scheme());
    c.signature_scheme = String::new();
    assert!(c.supports_signature_scheme());
    c.signature_scheme = "hmac-md5".to_string();
    assert!(!c.supports_signature_scheme());
}

#[test]
fn message_types_round_trip() {
    for name in ["kernel_info_request", "execute_reply", "comm_msg", "input_reply", "status"] {
        let k = MessageKind::from_msg_type(name).unwrap();
        assert_eq!(k.msg_type(), name);
    }
    assert_eq!(MessageKind::from_msg_type("comm_open"), Ok(MessageKind::CommOpen));
    assert_eq!(
        MessageKind::from_msg_type("debug_request"),
        Err(TypeError::UnknownType("debug_request".to_string()))
    );
}

#[test]
fn parent_header_selection() {
    let h = JupyterHeader {
        msg_id: "P".to_string(),
        session: String::new(),
        username: String::new(),
        date: String::new(),
        msg_type: "execute_request".to_string(),
        version: "5.3".to_string(),
    };
    let stream = IOPubMessage::Stream(StreamName::Stdout, "out".to_string());
    assert_eq!(stream.parent_header(&Some(h.clone())).unwrap().msg_id, "P");
    assert!(stream.parent_header(&None).is_none());
    assert_eq!(stream.msg_type(), "stream");
    let close = IOPubMessage::CommClose("c".to_string());
    assert_eq!(close.parent_header(&Some(h.clone())).unwrap().msg_id, "P");
    let event = IOPubMessage::CommMsgEvent(amalthea::socket::iopub::CommWireMsg {
        comm_id: "c".to_string(),
        data: Value::Null,
    });
    assert!(event.parent_header(&Some(h.clone())).is_none());
    let reply = IOPubMessage::CommMsgReply(
        h.clone(),
        amalthea::socket::iopub::CommWireMsg { comm_id: "c".to_string(), data: Value::Null },
    );
    assert_eq!(reply.msg_type(), "comm_msg");
}

#[test]
fn r_type_codes() {
    assert_eq!(SexpType::INTSXP.code(), 13);
    assert_eq!(SexpType::from_code(99), Some(SexpType::FUNSXP));
    assert_eq!(SexpType::from_code(11), None);
    assert_eq!(CeType::from_code(5), Some(CeType::CE_SYMBOL));
    assert_eq!(CeType::CE_UTF8.code(), 1);
}

#[test]
fn sexp_info_bits() {
    let mut data = [0u8; 64];
    // kind 19, scalar and alt set; gp = 0x1234; mark set.
    data[0] = 19 | 0x20 | 0x80;
    data[1] = (0x34 << 1) & 0xff;
    data[2] = ((0x1234u32 >> 7) & 0xff) as u8;
    data[3] = (((0x1234u32 >> 15) & 1) as u8) | 0x02;
    let info = SexpInfo::new(data);
    assert_eq!(info.kind(), 19);
    assert_eq!(info.scalar(), 1);
    assert_eq!(info.obj(), 0);
    assert_eq!(info.alt(), 1);
    assert_eq!(info.gp(), 0x1234);
    assert_eq!(info.mark(), 1);
    assert_eq!(info.debug(), 0);
}

#[test]
fn json_rpc_helpers() {
    assert_eq!(JsonRpcErrorCode::MethodNotFound.code(), -32601);
    assert_eq!(JsonRpcErrorCode::from_code(-32603), Some(JsonRpcErrorCode::InternalError));
    assert_eq!(JsonRpcErrorCode::from_code(0), None);
    assert_eq!(rpc_method_name(&"open".to_string()), ".ps.rpc.open");
    let e = method_not_found(&"7".to_string(), &"open".to_string());
    assert_eq!(e.id, "7");
    assert_eq!(e.error.message, "No such method: open");
    let a = RpcRequest::new("m".to_string(), Value::Null);
    let b = RpcRequest::new("m".to_string(), Value::Null);
    assert_eq!(a.id.len(), 36);
    let chars: Vec<char> = a.id.chars().collect();
    for (i, c) in chars.iter().enumerate() {
        if [8, 13, 18, 23].contains(&i) {
            assert_eq!(*c, '-');
        } else {
            assert!(c.is_ascii_hexdigit() && !c.is_ascii_uppercase());
        }
    }
    assert_eq!(chars[14], '4');
    assert!("89ab".contains(chars[19]));
    assert_ne!(a.id, b.id);
    assert_eq!(a.jsonrpc, "2.0");
    assert_eq!(RpcRequest::message_type(), "rpc_request");
    assert_eq!(CommRequest::message_type(), "comm_request");
    match rpc_reply(&"5".to_string(), Ok(Value::from(2))) {
        FrontendMessage::RpcResultResponse(r) => {
            assert_eq!(r.id, "5");
            assert_eq!(r.result, Value::from(2));
        }
        other => panic!("unexpected {:?}", other),
    }
    match rpc_reply(&"5".to_string(), Err("boom".to_string())) {
        FrontendMessage::RpcResultError(e) => {
            assert_eq!(e.error.code, JsonRpcErrorCode::InternalError);
            assert_eq!(e.error.message, "boom");
        }
        other => panic!("unexpected {:?}", other),
    }
}

#[test]
fn forwarder_serves_every_ready_source() {
    assert_eq!(forward_cycle(true, true), vec![ForwardStep::Outbound, ForwardStep::Inbound]);
    assert_eq!(forward_cycle(false, true), vec![ForwardStep::Inbound]);
    assert_eq!(forward_cycle(true, false), vec![ForwardStep::Outbound]);
    assert!(forward_cycle(false, false).is_empty());
}

#[test]
fn r_version_parsing() {
    assert_eq!(parse_version("4.3.1"), Some((4, 3, 1)));
    assert_eq!(parse_version("4294967295.0.10"), Some((4294967295, 0, 10)));
    assert_eq!(parse_version("4294967296.0.0"), None);
    assert_eq!(parse_version("4.3"), None);
    assert_eq!(parse_version("4.3.1.2"), None);
    assert_eq!(parse_version("4.x.1"), None);
    assert_eq!(parse_version("4..1"), None);
    assert_eq!(parse_version(""), None);
    assert_eq!(parse_version("+4.3.+1"), Some((4, 3, 1)));
    assert_eq!(parse_version("4.+.1"), None);
    assert_eq!(parse_version("4.-3.1"), None);
    let v = detect_r("/usr/lib/R\n", "  4.2.0\n").unwrap();
    assert_eq!(v.r_home, "/usr/lib/R");
    assert_eq!((v.major, v.minor, v.patch), (4, 2, 0));
    assert!(detect_r("/usr/lib/R", "R 4.2").is_none());
    let v = detect_r("\u{a0}\t/opt/R\u{3000}", "\u{2003}4.4.1\r\n").unwrap();
    assert_eq!(v.r_home, "/opt/R");
    assert_eq!((v.major, v.minor, v.patch), (4, 4, 1));
}

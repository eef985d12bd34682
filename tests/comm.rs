use amalthea::comm::services::FrontendAction;
use amalthea::comm::services::PositronFrontend;
use amalthea::comm::services::ReticulateService;
use amalthea::comm::comm_channel::Comm;
use amalthea::comm::comm_channel::CommInitiator;
use amalthea::comm::comm_channel::CommMsg;
use amalthea::comm::comm_channel::CommSocket;
use amalthea::comm::comm_manager::CommAction;
use amalthea::comm::comm_manager::CommManager;
use amalthea::comm::event::CommManagerEvent;
use amalthea::comm::event::CommShellEvent;
use amalthea::socket::iopub::IOPubMessage;
use amalthea::wire::header::JupyterHeader;
use serde_json::Value;

fn header(id: &str, msg_type: &str) -> JupyterHeader {
    JupyterHeader {
        msg_id: id.to_string(),
        session: "S".to_string(),
        username: "u".to_string(),
        date: String::new(),
        msg_type: msg_type.to_string(),
        version: "5.3".to_string(),
    }
}

fn obj(key: &str, v: Value) -> Value {
    let mut m = serde_json::Map::new();
    m.insert(key.to_string(), v);
    Value::Object(m)
}

fn socket(id: &str, name: &str, initiator: CommInitiator) -> CommSocket {
    CommSocket::new(initiator, id.to_string(), name.to_string())
}

fn open(mgr: &mut CommManager, id: &str, initiator: CommInitiator) -> Vec<CommAction> {
    mgr.handle_event(CommManagerEvent::Opened(
        socket(id, "x", initiator),
        Value::Object(serde_json::Map::new()),
    ))
}

#[test]
fn front_end_open_notifies_shell_only() {
    let mut mgr = CommManager::new();
    let acts = open(&mut mgr, "c1", CommInitiator::FrontEnd);
    assert_eq!(acts.len(), 1);
    match &acts[0] {
        CommAction::NotifyShell(CommShellEvent::Added(id, name)) => {
            assert_eq!(id, "c1");
            assert_eq!(name, "x");
        }
        other => panic!("unexpected {:?}", other),
    }
    assert_eq!(mgr.open_comms().len(), 1);
}

#[test]
fn back_end_open_is_published() {
    let mut mgr = CommManager::new();
    let acts = open(&mut mgr, "b1", CommInitiator::BackEnd);
    assert_eq!(acts.len(), 2);
    match &acts[1] {
        CommAction::Publish(IOPubMessage::CommOpen(o)) => {
            assert_eq!(o.comm_id, "b1");
            assert_eq!(o.target_name, "x");
        }
        other => panic!("unexpected {:?}", other),
    }
}

#[test]
fn comm_message_forwards_payload() {
    let mut mgr = CommManager::new();
    open(&mut mgr, "c1", CommInitiator::FrontEnd);
    let data = obj("k", Value::from(1));
    let acts = mgr.handle_event(CommManagerEvent::Message(
        "c1".to_string(),
        CommMsg::Rpc("R1".to_string(), data.clone()),
    ));
    assert_eq!(acts.len(), 1);
    match &acts[0] {
        CommAction::Deliver(id, CommMsg::Rpc(rid, v)) => {
            assert_eq!(id, "c1");
            assert_eq!(rid, "R1");
            assert_eq!(v, &data);
        }
        other => panic!("unexpected {:?}", other),
    }
}

#[test]
fn message_for_unknown_comm_is_dropped() {
    let mut mgr = CommManager::new();
    let acts = mgr.handle_event(CommManagerEvent::Message("nope".to_string(), CommMsg::Close));
    assert!(acts.is_empty());
}

#[test]
fn at_most_one_entry_per_comm() {
    let mut mgr = CommManager::new();
    open(&mut mgr, "c1", CommInitiator::FrontEnd);
    let again = open(&mut mgr, "c1", CommInitiator::FrontEnd);
    assert!(again.is_empty());
    assert_eq!(mgr.open_comms().len(), 1);
    let closed = mgr.handle_event(CommManagerEvent::Closed("c1".to_string()));
    assert!(matches!(&closed[0], CommAction::NotifyShell(CommShellEvent::Removed(id)) if id == "c1"));
    assert_eq!(mgr.open_comms().len(), 0);
    let closed_again = mgr.handle_event(CommManagerEvent::Closed("c1".to_string()));
    assert!(closed_again.is_empty());
    open(&mut mgr, "c1", CommInitiator::FrontEnd);
    assert_eq!(mgr.open_comms().len(), 1);
}

#[test]
fn reply_routing_uses_pending_header() {
    let mut mgr = CommManager::new();
    open(&mut mgr, "c1", CommInitiator::FrontEnd);
    mgr.handle_event(CommManagerEvent::PendingRpc(header("R7", "comm_msg")));
    assert_eq!(mgr.pending_count(), 1);
    let ok = obj("ok", Value::Bool(true));
    let acts = mgr.handle_outgoing("c1".to_string(), CommMsg::Rpc("R7".to_string(), ok.clone()));
    assert_eq!(acts.len(), 1);
    match &acts[0] {
        CommAction::Publish(IOPubMessage::CommMsgReply(parent, m)) => {
            assert_eq!(parent.msg_id, "R7");
            assert_eq!(m.comm_id, "c1");
            assert_eq!(m.data, ok);
        }
        other => panic!("unexpected {:?}", other),
    }
    assert_eq!(mgr.pending_count(), 0);
    let again = mgr.handle_outgoing("c1".to_string(), CommMsg::Rpc("R7".to_string(), ok));
    assert!(matches!(&again[0], CommAction::Publish(IOPubMessage::CommMsgRequest(_))));
}

#[test]
fn pending_table_size_counts_requests_and_replies() {
    let mut mgr = CommManager::new();
    open(&mut mgr, "c1", CommInitiator::FrontEnd);
    mgr.handle_event(CommManagerEvent::PendingRpc(header("A", "comm_msg")));
    mgr.handle_event(CommManagerEvent::PendingRpc(header("B", "comm_msg")));
    mgr.handle_event(CommManagerEvent::PendingRpc(header("C", "comm_msg")));
    mgr.handle_outgoing("c1".to_string(), CommMsg::Rpc("B".to_string(), Value::Null));
    mgr.handle_outgoing("c1".to_string(), CommMsg::Rpc("Z".to_string(), Value::Null));
    assert_eq!(mgr.pending_count(), 2);
}

#[test]
fn data_is_an_event_and_close_ends_the_comm() {
    let mut mgr = CommManager::new();
    open(&mut mgr, "c1", CommInitiator::BackEnd);
    let acts = mgr.handle_outgoing("c1".to_string(), CommMsg::Data(Value::from(5)));
    assert!(matches!(&acts[0], CommAction::Publish(IOPubMessage::CommMsgEvent(m)) if m.comm_id == "c1"));
    let acts = mgr.handle_outgoing("c1".to_string(), CommMsg::Close);
    assert_eq!(acts.len(), 2);
    assert!(matches!(&acts[0], CommAction::Publish(IOPubMessage::CommClose(id)) if id == "c1"));
    assert_eq!(mgr.open_comms().len(), 0);
    let after = mgr.handle_outgoing("c1".to_string(), CommMsg::Data(Value::from(6)));
    assert!(after.is_empty());
}

#[test]
fn comm_names() {
    assert_eq!(Comm::from_name("dataViewer"), Comm::DataViewer);
    assert_eq!(Comm::from_name("lsp"), Comm::Lsp);
    assert_eq!(Comm::from_name("frontEnd"), Comm::FrontEnd);
    assert_eq!(Comm::from_name("x"), Comm::Other("x".to_string()));
    assert_eq!(Comm::Variables.name(), "variables");
    assert_eq!(Comm::Other("y".to_string()).name(), "y");
}

#[test]
fn reticulate_service_echoes_data_and_closes() {
    let (service, event) = ReticulateService::start("r1".to_string());
    assert_eq!(service.comm.comm_name, "positron.reticulate");
    let mut mgr = CommManager::new();
    let acts = mgr.handle_event(event);
    assert!(matches!(&acts[1], CommAction::Publish(IOPubMessage::CommOpen(o)) if o.comm_id == "r1"));
    let (back, go_on) = service.handle_message(CommMsg::Data(Value::from(2)));
    assert!(go_on);
    assert!(matches!(back, Some(CommMsg::Data(v)) if v == Value::from(2)));
    let (back, go_on) = service.handle_message(CommMsg::Close);
    assert!(!go_on);
    assert!(matches!(back, Some(CommMsg::Close)));
}

#[test]
fn frontend_comm_sorts_messages() {
    let f = PositronFrontend { comm: socket("f", "positron.frontEnd", CommInitiator::BackEnd) };
    assert!(matches!(f.handle_comm_message(CommMsg::Close), FrontendAction::Stop));
    assert!(matches!(f.handle_comm_message(CommMsg::Data(Value::Null)), FrontendAction::Ignore));
    match f.handle_comm_message(CommMsg::Rpc("9".to_string(), Value::from(1))) {
        FrontendAction::HandleRpc(id, v) => {
            assert_eq!(id, "9");
            assert_eq!(v, Value::from(1));
        }
        other => panic!("unexpected {:?}", other),
    }
}

#[test]
fn repeated_request_id_keeps_the_first_header() {
    let mut mgr = CommManager::new();
    open(&mut mgr, "c1", CommInitiator::FrontEnd);
    let mut first = header("R1", "comm_msg");
    first.session = "first".to_string();
    let mut second = header("R1", "comm_msg");
    second.session = "second".to_string();
    mgr.handle_event(CommManagerEvent::PendingRpc(first));
    mgr.handle_event(CommManagerEvent::PendingRpc(second));
    assert_eq!(mgr.pending_count(), 1);
    let acts = mgr.handle_outgoing("c1".to_string(), CommMsg::Rpc("R1".to_string(), Value::Null));
    assert!(matches!(&acts[0], CommAction::Publish(IOPubMessage::CommMsgReply(h, _)) if h.session == "first"));
}

use amalthea::socket::shell::comm_open_outputs;
use amalthea::socket::control::control_outputs;
use amalthea::socket::control::interrupt_reply;
use amalthea::socket::control::shutdown_reply;
use amalthea::socket::shell::execute_outputs;
use amalthea::socket::shell::kernel_info_reply;
use amalthea::socket::shell::reply_outputs;
use amalthea::socket::control::ends_session;
use amalthea::socket::control::process_control;
use amalthea::socket::control::ControlOutput;
use amalthea::socket::control::ControlReply;
use amalthea::socket::control::ControlRequest;
use amalthea::socket::control::ShutdownRequest;
use amalthea::comm::comm_channel::Comm;
use amalthea::comm::comm_channel::CommInitiator;
use amalthea::comm::comm_channel::CommMsg;
use amalthea::comm::comm_manager::CommAction;
use amalthea::comm::comm_manager::CommManager;
use amalthea::comm::event::CommManagerEvent;
use amalthea::comm::event::CommShellEvent;
use amalthea::socket::echo::EchoHandler;
use amalthea::socket::iopub::CommOpen;
use amalthea::socket::iopub::CommWireMsg;
use amalthea::socket::iopub::Exception;
use amalthea::socket::iopub::ExecutionState;
use amalthea::socket::iopub::IOPubMessage;
use amalthea::socket::shell::ExecuteResponse;
use amalthea::socket::shell::Shell;
use amalthea::socket::shell::ShellHandler;
use amalthea::socket::shell::ShellOutput;
use amalthea::wire::header::JupyterHeader;
use amalthea::wire::shell_messages::CommInfoRequest;
use amalthea::wire::shell_messages::CompleteReply;
use amalthea::wire::shell_messages::CompleteRequest;
use amalthea::wire::shell_messages::ExecuteRequest;
use amalthea::wire::shell_messages::InspectReply;
use amalthea::wire::shell_messages::InspectRequest;
use amalthea::wire::shell_messages::IsCompleteReply;
use amalthea::wire::shell_messages::IsCompleteRequest;
use amalthea::wire::shell_messages::KernelInfoReply;
use amalthea::wire::shell_messages::KernelInfoRequest;
use amalthea::wire::shell_messages::ShellReply;
use amalthea::wire::shell_messages::ShellRequest;
use amalthea::wire::shell_messages::Status;
use serde_json::Value;

fn header(id: &str, msg_type: &str) -> JupyterHeader {
    JupyterHeader {
        msg_id: id.to_string(),
        session: "S".to_string(),
        username: "u".to_string(),
        date: String::new(),
        msg_type: msg_type.to_string(),
        version: "5.3".to_string(),
    }
}

fn status_of(o: &ShellOutput) -> Option<(String, ExecutionState)> {
    match o {
        ShellOutput::Publish(IOPubMessage::Status(h, s)) => Some((h.msg_id.clone(), *s)),
        _ => None,
    }
}

fn execute(code: &str) -> ExecuteRequest {
    ExecuteRequest {
        code: code.to_string(),
        silent: false,
        store_history: true,
        user_expressions: Value::Object(serde_json::Map::new()),
        allow_stdin: false,
        stop_on_error: true,
    }
}

/// A back end that takes every comm the front end opens.
struct Accepting(EchoHandler);

impl ShellHandler for Accepting {
    fn handle_info_request(&mut self, req: &KernelInfoRequest) -> Result<KernelInfoReply, Exception> {
        self.0.handle_info_request(req)
    }
    fn handle_execute_request(
        &mut self,
        parent: &JupyterHeader,
        req: &ExecuteRequest,
    ) -> (ExecuteResponse, Vec<IOPubMessage>) {
        self.0.handle_execute_request(parent, req)
    }
    fn handle_is_complete_request(&self, req: &IsCompleteRequest) -> Result<IsCompleteReply, Exception> {
        self.0.handle_is_complete_request(req)
    }
    fn handle_complete_request(&self, req: &CompleteRequest) -> Result<CompleteReply, Exception> {
        self.0.handle_complete_request(req)
    }
    fn handle_inspect_request(&self, req: &InspectRequest) -> Result<InspectReply, Exception> {
        self.0.handle_inspect_request(req)
    }
    fn handle_comm_open(&mut self, _comm: Comm, _id: &String, _data: &Value) -> Result<bool, Exception> {
        Ok(true)
    }
}

#[test]
fn kernel_info_is_bracketed() {
    let shell = Shell::new();
    let mut h = EchoHandler::new();
    let out = shell.process_message(&mut h, header("M1", "kernel_info_request"), ShellRequest::KernelInfo(KernelInfoRequest {}));
    assert_eq!(out.len(), 3);
    assert_eq!(status_of(&out[0]), Some(("M1".to_string(), ExecutionState::Busy)));
    match &out[1] {
        ShellOutput::Reply(parent, ShellReply::KernelInfo(reply)) => {
            assert_eq!(parent.msg_id, "M1");
            assert_eq!(reply.status, Status::Succeeded);
            assert_eq!(reply.protocol_version, "5.3");
            assert_eq!(reply.status.as_wire(), "ok");
        }
        other => panic!("unexpected {:?}", other),
    }
    assert_eq!(status_of(&out[2]), Some(("M1".to_string(), ExecutionState::Idle)));
}

#[test]
fn echo_execute_publishes_input_then_replies() {
    let shell = Shell::new();
    let mut h = EchoHandler::new();
    let out = shell.process_message(&mut h, header("M2", "execute_request"), ShellRequest::Execute(execute("1+1")));
    assert_eq!(out.len(), 5);
    assert_eq!(status_of(&out[0]), Some(("M2".to_string(), ExecutionState::Busy)));
    assert!(matches!(&out[1], ShellOutput::SetContext(h) if h.msg_id == "M2"));
    match &out[2] {
        ShellOutput::Publish(IOPubMessage::ExecuteInput(parent, code, n)) => {
            assert_eq!(parent.msg_id, "M2");
            assert_eq!(code, "1+1");
            assert_eq!(*n, 1);
        }
        other => panic!("unexpected {:?}", other),
    }
    match &out[3] {
        ShellOutput::Reply(parent, ShellReply::Execute(reply)) => {
            assert_eq!(parent.msg_id, "M2");
            assert_eq!(reply.execution_count, 1);
            assert_eq!(reply.user_expressions, Value::Null);
            assert_eq!(amalthea::wire::shell_messages::ExecuteReply::message_type(), "execute_reply");
        }
        other => panic!("unexpected {:?}", other),
    }
    assert_eq!(status_of(&out[4]), Some(("M2".to_string(), ExecutionState::Idle)));
    let out = shell.process_message(&mut h, header("M3", "execute_request"), ShellRequest::Execute(execute("2")));
    match &out[3] {
        ShellOutput::Reply(_, ShellReply::Execute(reply)) => assert_eq!(reply.execution_count, 2),
        other => panic!("unexpected {:?}", other),
    }
    assert_eq!(h.execution_count(), 2);
}

#[test]
fn every_request_kind_is_bracketed() {
    let shell = Shell::new();
    let mut h = EchoHandler::new();
    let requests = vec![
        ShellRequest::IsComplete(IsCompleteRequest { code: "x".to_string() }),
        ShellRequest::Complete(CompleteRequest { code: "x".to_string(), cursor_pos: 1 }),
        ShellRequest::Inspect(InspectRequest { code: "x".to_string(), cursor_pos: 1, detail_level: 0 }),
        ShellRequest::CommInfo(CommInfoRequest { target_name: None }),
        ShellRequest::CommClose("c9".to_string()),
    ];
    for req in requests {
        let out = shell.process_message(&mut h, header("Q", "x"), req);
        assert_eq!(status_of(&out[0]), Some(("Q".to_string(), ExecutionState::Busy)));
        assert_eq!(status_of(out.last().unwrap()), Some(("Q".to_string(), ExecutionState::Idle)));
    }
}

#[test]
fn comm_open_then_message_reaches_the_comm() {
    let shell = Shell::new();
    let mut h = Accepting(EchoHandler::new());
    let mut mgr = CommManager::new();
    let open = CommOpen {
        comm_id: "c1".to_string(),
        target_name: "x".to_string(),
        data: Value::Object(serde_json::Map::new()),
    };
    let out = shell.process_message(&mut h, header("O1", "comm_open"), ShellRequest::CommOpen(open));
    assert_eq!(out.len(), 3);
    let mut opened = false;
    for o in out {
        if let ShellOutput::Comm(ev) = o {
            match &ev {
                CommManagerEvent::Opened(s, data) => {
                    assert_eq!(s.comm_id, "c1");
                    assert_eq!(s.initiator, CommInitiator::FrontEnd);
                    assert_eq!(data, &Value::Object(serde_json::Map::new()));
                    opened = true;
                }
                _ => panic!("unexpected event"),
            }
            mgr.handle_event(ev);
        }
    }
    assert!(opened);
    let mut payload = serde_json::Map::new();
    payload.insert("k".to_string(), Value::from(1));
    let msg = CommWireMsg { comm_id: "c1".to_string(), data: Value::Object(payload.clone()) };
    let out = shell.process_message(&mut h, header("R7", "comm_msg"), ShellRequest::CommMsg(msg));
    assert_eq!(out.len(), 4);
    let mut delivered = 0;
    for o in out {
        if let ShellOutput::Comm(ev) = o {
            for act in mgr.handle_event(ev) {
                if let CommAction::Deliver(id, CommMsg::Rpc(rid, v)) = act {
                    assert_eq!(id, "c1");
                    assert_eq!(rid, "R7");
                    assert_eq!(v, Value::Object(payload.clone()));
                    delivered += 1;
                }
            }
        }
    }
    assert_eq!(delivered, 1);
    assert_eq!(mgr.pending_count(), 1);
}

#[test]
fn refused_comm_open_is_closed() {
    let shell = Shell::new();
    let mut h = EchoHandler::new();
    let open = CommOpen { comm_id: "c2".to_string(), target_name: "plot".to_string(), data: Value::Null };
    let out = shell.process_message(&mut h, header("O2", "comm_open"), ShellRequest::CommOpen(open));
    assert!(matches!(&out[1], ShellOutput::Publish(IOPubMessage::CommClose(id)) if id == "c2"));
}

#[test]
fn comm_info_lists_open_comms_by_target() {
    let mut shell = Shell::new();
    shell.handle_comm_shell_event(CommShellEvent::Added("a".to_string(), "lsp".to_string()));
    shell.handle_comm_shell_event(CommShellEvent::Added("b".to_string(), "plot".to_string()));
    shell.handle_comm_shell_event(CommShellEvent::Added("c".to_string(), "lsp".to_string()));
    shell.handle_comm_shell_event(CommShellEvent::Added("a".to_string(), "lsp".to_string()));
    let all = shell.comm_info(&CommInfoRequest { target_name: None });
    assert_eq!(all.comms.len(), 3);
    let lsp = shell.comm_info(&CommInfoRequest { target_name: Some("lsp".to_string()) });
    let ids: Vec<String> = lsp.comms.iter().map(|c| c.comm_id.clone()).collect();
    assert_eq!(ids, vec!["a".to_string(), "c".to_string()]);
    shell.handle_comm_shell_event(CommShellEvent::Removed("a".to_string()));
    let lsp = shell.comm_info(&CommInfoRequest { target_name: Some("lsp".to_string()) });
    assert_eq!(lsp.comms.len(), 1);
    assert_eq!(lsp.comms[0].comm_id, "c");
}

#[test]
fn comm_close_closes_the_comm() {
    let shell = Shell::new();
    let mut h = EchoHandler::new();
    let out = shell.process_message(&mut h, header("X", "comm_close"), ShellRequest::CommClose("c1".to_string()));
    assert_eq!(out.len(), 4);
    assert!(matches!(&out[1], ShellOutput::Comm(CommManagerEvent::Message(id, CommMsg::Close)) if id == "c1"));
    assert!(matches!(&out[2], ShellOutput::Comm(CommManagerEvent::Closed(id)) if id == "c1"));
}

#[test]
fn control_requests_are_bracketed() {
    let mut h = EchoHandler::new();
    let req = ControlRequest::Shutdown(ShutdownRequest { restart: false });
    assert!(ends_session(&req));
    let out = process_control(&mut h, header("K", "shutdown_request"), req);
    assert_eq!(out.len(), 3);
    assert!(matches!(&out[0], ControlOutput::Publish(IOPubMessage::Status(p, ExecutionState::Busy)) if p.msg_id == "K"));
    assert!(matches!(&out[1], ControlOutput::Reply(p, ControlReply::Shutdown(r)) if p.msg_id == "K" && !r.restart));
    assert!(matches!(&out[2], ControlOutput::Publish(IOPubMessage::Status(p, ExecutionState::Idle)) if p.msg_id == "K"));
    assert!(!ends_session(&ControlRequest::Interrupt));
    assert!(!ends_session(&ControlRequest::Shutdown(ShutdownRequest { restart: true })));
}

#[test]
fn execute_outputs_keep_published_order() {
    let h = header("E", "execute_request");
    let published = vec![
        IOPubMessage::ExecuteInput(h.clone(), "x".to_string(), 7),
        IOPubMessage::Stream(amalthea::socket::iopub::StreamName::Stdout, "out".to_string()),
    ];
    let reply = amalthea::wire::shell_messages::ExecuteReply {
        status: Status::Succeeded,
        execution_count: 7,
        user_expressions: Value::Null,
    };
    let out = execute_outputs(&h, ExecuteResponse::Reply(reply), published);
    assert_eq!(out.len(), 6);
    assert_eq!(status_of(&out[0]), Some(("E".to_string(), ExecutionState::Busy)));
    assert!(matches!(&out[1], ShellOutput::SetContext(h) if h.msg_id == "E"));
    assert!(matches!(&out[2], ShellOutput::Publish(IOPubMessage::ExecuteInput(_, c, 7)) if c == "x"));
    assert!(matches!(&out[3], ShellOutput::Publish(IOPubMessage::Stream(_, t)) if t == "out"));
    assert!(matches!(&out[4], ShellOutput::Reply(p, ShellReply::Execute(r)) if p.msg_id == "E" && r.execution_count == 7));
    assert_eq!(status_of(&out[5]), Some(("E".to_string(), ExecutionState::Idle)));
    let err = Exception { ename: "E".to_string(), evalue: "v".to_string(), traceback: vec![] };
    let out = reply_outputs(&h, kernel_info_reply(Err(err)));
    assert!(matches!(&out[1], ShellOutput::Reply(_, ShellReply::Error(e)) if e.evalue == "v"));
}

#[test]
fn comm_open_outputs_follow_the_answer() {
    let h = header("O", "comm_open");
    let open = || CommOpen { comm_id: "c5".to_string(), target_name: "plot".to_string(), data: Value::from(1) };
    let out = comm_open_outputs(&h, open(), Ok(true));
    assert!(matches!(&out[1], ShellOutput::Comm(CommManagerEvent::Opened(s, d)) if s.comm_id == "c5" && s.comm_name == "plot" && *d == Value::from(1)));
    let out = comm_open_outputs(&h, open(), Ok(false));
    assert!(matches!(&out[1], ShellOutput::Publish(IOPubMessage::CommClose(id)) if id == "c5"));
    let err = Exception { ename: "E".to_string(), evalue: "v".to_string(), traceback: vec![] };
    let out = comm_open_outputs(&h, open(), Err(err));
    assert!(matches!(&out[1], ShellOutput::Publish(IOPubMessage::CommClose(id)) if id == "c5"));
}

#[test]
fn control_reply_helpers() {
    let h = header("K2", "interrupt_request");
    let err = Exception { ename: "E".to_string(), evalue: "v".to_string(), traceback: vec![] };
    let out = control_outputs(&h, interrupt_reply(Err(err)));
    assert!(matches!(&out[1], ControlOutput::Reply(p, ControlReply::Error(e)) if p.msg_id == "K2" && e.evalue == "v"));
    let r = shutdown_reply(Ok(amalthea::socket::control::ShutdownReply { status: Status::Succeeded, restart: true }));
    assert!(matches!(r, ControlReply::Shutdown(s) if s.restart));
}

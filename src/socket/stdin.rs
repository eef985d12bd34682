//! The StdIn reverse channel: the back end asks the front end for a line of
//! input, or calls one of its methods, and waits for exactly one reply.

use crate::comm::frontend_comm::JsonRpcResponse;
use crate::wire::header::JupyterHeader;
use crossbeam::channel::Sender;
use serde_json::Value;
use vstd::prelude::*;

verus! {

/// crossbeam's sending half of a channel, which carries a reply back to
/// whoever asked.
#[verifier::external_type_specification]
#[verifier::external_body]
#[verifier::reject_recursive_types(T)]
pub struct ExSender<T>(Sender<T>);

/// A prompt for the user.
#[derive(Debug, Clone)]
pub struct InputRequest {
    pub prompt: String,
    pub password: bool,
}

/// A prompt together with the socket identity of the request it serves.
#[derive(Debug, Clone)]
pub struct ShellInputRequest {
    pub originator: Vec<u8>,
    pub request: InputRequest,
}

/// The line the user typed.
#[derive(Debug, Clone)]
pub struct InputReply {
    pub value: String,
}

/// A request of the back end for the front end.
pub enum StdInRequest {
    /// Ask the user for a line of input.
    InputRequest(ShellInputRequest),
    /// Call a front-end method; the response goes back on the channel.
    CommRequest(Sender<JsonRpcResponse>, Value),
}

/// A message that arrived on the StdIn socket.
pub enum StdInInbound {
    /// An `input_reply`: its header, the message id of the request it
    /// answers (from its parent header), and its content.
    InputReply(JupyterHeader, String, InputReply),
    /// A `comm_reply`: its header, the message id of the request it
    /// answers, and the response.
    CommReply(JupyterHeader, String, JsonRpcResponse),
    /// Anything else, by its `msg_type`.
    Other(String),
}

/// What the StdIn thread is to do.
pub enum StdInOutput {
    /// Send an `input_request` to the front end.
    SendInputRequest(ShellInputRequest),
    /// Send a `comm_request` to the front end.
    SendCommRequest(Value),
    /// Make this header the message context for IOPub output.
    SetContext(JupyterHeader),
    /// Hand the reply to the interpreter.
    DeliverInput(InputReply),
    /// Hand the response to the caller of a front-end method.
    DeliverComm(Sender<JsonRpcResponse>, JsonRpcResponse),
    /// The message answers nothing outstanding; it is dropped.
    Dropped,
}

/// What the channel waits for: a reply to the request with this message id.
pub enum Outstanding {
    Nothing,
    Input(String),
    Comm(Sender<JsonRpcResponse>, String),
}

/// The state of the reverse channel.
pub struct Stdin {
    outstanding: Outstanding,
}

/// The mathematical value of a [`Stdin`]: idle, or the message id of the
/// request whose reply it waits for (with the channel of a comm request).
pub enum StdInState {
    Idle,
    AwaitingInput(Seq<char>),
    AwaitingComm(Sender<JsonRpcResponse>, Seq<char>),
}

impl View for Stdin {
    type V = StdInState;

    closed spec fn view(&self) -> StdInState {
        match self.outstanding {
            Outstanding::Nothing => StdInState::Idle,
            Outstanding::Input(id) => StdInState::AwaitingInput(id@),
            Outstanding::Comm(tx, id) => StdInState::AwaitingComm(tx, id@),
        }
    }
}

impl Stdin {
    pub fn new() -> (r: Stdin)
        ensures
            r@ is Idle,
    {
        Stdin { outstanding: Outstanding::Nothing }
    }

    pub fn is_idle(&self) -> (r: bool)
        ensures
            r == (self@ is Idle),
    {
        match self.outstanding {
            Outstanding::Nothing => true,
            _ => false,
        }
    }

    /// Sends a request to the front end under the message id `msg_id` when
    /// nothing is outstanding; the channel then waits for the reply to that
    /// id. While a request is outstanding the new one is handed back
    /// untouched.
    pub fn send_request(&mut self, req: StdInRequest, msg_id: String) -> (r: Result<
        StdInOutput,
        StdInRequest,
    >)
        ensures
            old(self)@ is Idle ==> match req {
                StdInRequest::InputRequest(i) => final(self)@ == StdInState::AwaitingInput(msg_id@)
                    && match r {
                    Ok(StdInOutput::SendInputRequest(o)) => o.originator@ == i.originator@
                        && o.request.prompt@ == i.request.prompt@ && o.request.password
                        == i.request.password,
                    _ => false,
                },
                StdInRequest::CommRequest(tx, v) => final(self)@ == StdInState::AwaitingComm(
                    tx,
                    msg_id@,
                ) && r == Ok::<StdInOutput, StdInRequest>(StdInOutput::SendCommRequest(v)),
            },
            !(old(self)@ is Idle) ==> final(self)@ == old(self)@ && r == Err::<
                StdInOutput,
                StdInRequest,
            >(req),
    {
        match self.outstanding {
            Outstanding::Nothing => {},
            _ => return Err(req),
        }
        match req {
            StdInRequest::InputRequest(i) => {
                self.outstanding = Outstanding::Input(msg_id);
                Ok(StdInOutput::SendInputRequest(i))
            },
            StdInRequest::CommRequest(tx, v) => {
                self.outstanding = Outstanding::Comm(tx, msg_id);
                Ok(StdInOutput::SendCommRequest(v))
            },
        }
    }

    /// Handles a message from the StdIn socket. A reply to the outstanding
    /// request (its parent's message id is that request's) makes its header
    /// the message context and is delivered, to the channel the request
    /// brought for a comm request, and the channel is idle again. Anything
    /// else, a late reply to an interrupted request among it, is dropped.
    pub fn handle_inbound(&mut self, msg: StdInInbound) -> (r: Vec<StdInOutput>)
        ensures
            match msg {
                StdInInbound::InputReply(h, parent, reply) => if old(self)@
                    == StdInState::AwaitingInput(parent@) {
                    final(self)@ is Idle && r@.len() == 2 && match r@[0] {
                        StdInOutput::SetContext(c) => c@ == h@,
                        _ => false,
                    } && r@[1] == StdInOutput::DeliverInput(reply)
                } else {
                    final(self)@ == old(self)@ && r@ == seq![StdInOutput::Dropped]
                },
                StdInInbound::CommReply(h, parent, resp) => if old(self)@ is AwaitingComm && old(
                    self,
                )@->AwaitingComm_1 == parent@ {
                    final(self)@ is Idle && r@.len() == 1 && r@[0] == StdInOutput::DeliverComm(
                        old(self)@->AwaitingComm_0,
                        resp,
                    )
                } else {
                    final(self)@ == old(self)@ && r@ == seq![StdInOutput::Dropped]
                },
                StdInInbound::Other(_) => final(self)@ == old(self)@ && r@ == seq![
                    StdInOutput::Dropped,
                ],
            },
    {
        let mut out: Vec<StdInOutput> = Vec::new();
        let mut prev = Outstanding::Nothing;
        std::mem::swap(&mut prev, &mut self.outstanding);
        match msg {
            StdInInbound::InputReply(header, parent, reply) => {
                match prev {
                    Outstanding::Input(id) => {
                        if id == parent {
                            out.push(StdInOutput::SetContext(header));
                            out.push(StdInOutput::DeliverInput(reply));
                        } else {
                            self.outstanding = Outstanding::Input(id);
                            out.push(StdInOutput::Dropped);
                        }
                    },
                    other => {
                        self.outstanding = other;
                        out.push(StdInOutput::Dropped);
                    },
                }
            },
            StdInInbound::CommReply(_header, parent, resp) => {
                match prev {
                    Outstanding::Comm(tx, id) => {
                        if id == parent {
                            out.push(StdInOutput::DeliverComm(tx, resp));
                        } else {
                            self.outstanding = Outstanding::Comm(tx, id);
                            out.push(StdInOutput::Dropped);
                        }
                    },
                    other => {
                        self.outstanding = other;
                        out.push(StdInOutput::Dropped);
                    },
                }
            },
            StdInInbound::Other(_) => {
                self.outstanding = prev;
                out.push(StdInOutput::Dropped);
            },
        }
        out
    }

    /// An interrupt: the channel stops waiting and is idle; a reply that
    /// comes later answers nothing and is dropped.
    pub fn interrupt(&mut self)
        ensures
            final(self)@ is Idle,
    {
        self.outstanding = Outstanding::Nothing;
    }
}

} // verus!

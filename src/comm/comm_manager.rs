//! The comm manager: which comms are open, where their messages go, and
//! which front-end requests still wait for a reply.
//!
//! The manager decides; whoever runs its loop owns the channels, hands it
//! each event and carries out the actions it returns, in order.

use crate::comm::comm_channel::CommInitiator;
use crate::comm::comm_channel::CommMsg;
use crate::comm::comm_channel::CommMsgView;
use crate::comm::comm_channel::CommSocket;
use crate::comm::comm_channel::CommSocketView;
use crate::comm::event::CommManagerEvent;
use crate::comm::event::CommManagerEventView;
use crate::comm::event::CommShellEvent;
use crate::comm::event::CommShellEventView;
use crate::socket::iopub::CommOpen;
use crate::socket::iopub::CommWireMsg;
use crate::socket::iopub::IOPubMessage;
use crate::socket::iopub::IOPubView;
use crate::wire::header::HeaderView;
use crate::wire::header::JupyterHeader;
use vstd::prelude::*;

verus! {

/// What the loop around the manager is to do.
#[derive(Debug)]
pub enum CommAction {
    /// Tell the Shell that the set of open comms changed.
    NotifyShell(CommShellEvent),
    /// Publish a message on IOPub.
    Publish(IOPubMessage),
    /// Hand a message to the comm with this id.
    Deliver(String, CommMsg),
}

pub enum CommActionView {
    NotifyShell(CommShellEventView),
    Publish(IOPubView),
    Deliver(Seq<char>, CommMsgView),
}

impl View for CommAction {
    type V = CommActionView;

    open spec fn view(&self) -> CommActionView {
        match self {
            CommAction::NotifyShell(e) => CommActionView::NotifyShell(e@),
            CommAction::Publish(m) => CommActionView::Publish(m@),
            CommAction::Deliver(id, m) => CommActionView::Deliver(id@, m@),
        }
    }
}

pub open spec fn actions_view(a: Seq<CommAction>) -> Seq<CommActionView> {
    Seq::new(a.len(), |i: int| a[i]@)
}

/// The open comms and the pending-RPC table.
pub struct CommManager {
    open_comms: Vec<CommSocket>,
    pending_rpcs: Vec<JupyterHeader>,
}

/// The mathematical value of a [`CommManager`]: the open comms in order of
/// opening, and the headers of the front-end requests that wait for a reply.
pub struct CommManagerView {
    pub comms: Seq<CommSocketView>,
    pub pending: Seq<HeaderView>,
}

impl View for CommManager {
    type V = CommManagerView;

    closed spec fn view(&self) -> CommManagerView {
        CommManagerView {
            comms: Seq::new(self.open_comms@.len(), |i: int| self.open_comms@[i]@),
            pending: Seq::new(self.pending_rpcs@.len(), |i: int| self.pending_rpcs@[i]@),
        }
    }
}

pub open spec fn has_comm(comms: Seq<CommSocketView>, id: Seq<char>) -> bool {
    exists|i: int| 0 <= i < comms.len() && comms[i].comm_id == id
}

pub open spec fn comm_index(comms: Seq<CommSocketView>, id: Seq<char>) -> int {
    choose|i: int| 0 <= i < comms.len() && comms[i].comm_id == id
}

pub open spec fn has_pending(pending: Seq<HeaderView>, id: Seq<char>) -> bool {
    exists|i: int| 0 <= i < pending.len() && pending[i].msg_id == id
}

pub open spec fn pending_index(pending: Seq<HeaderView>, id: Seq<char>) -> int {
    choose|i: int| 0 <= i < pending.len() && pending[i].msg_id == id
}

/// No two open comms share an id.
pub open spec fn distinct_comms(comms: Seq<CommSocketView>) -> bool {
    forall|i: int, j: int|
        0 <= i < comms.len() && 0 <= j < comms.len() && i != j ==> comms[i].comm_id
            != comms[j].comm_id
}

/// No two pending requests share a message id.
pub open spec fn distinct_pending(pending: Seq<HeaderView>) -> bool {
    forall|i: int, j: int|
        0 <= i < pending.len() && 0 <= j < pending.len() && i != j ==> pending[i].msg_id
            != pending[j].msg_id
}

pub open spec fn manager_wf(m: CommManagerView) -> bool {
    distinct_comms(m.comms) && distinct_pending(m.pending)
}

/// The manager after an event. A request id that is already pending is a
/// protocol error: the repeat is dropped and the first header kept.
pub open spec fn step(m: CommManagerView, e: CommManagerEventView) -> CommManagerView {
    match e {
        CommManagerEventView::Opened(c, _) => if has_comm(m.comms, c.comm_id) {
            m
        } else {
            CommManagerView { comms: m.comms.push(c), ..m }
        },
        CommManagerEventView::Message(_, _) => m,
        CommManagerEventView::PendingRpc(h) => if has_pending(m.pending, h.msg_id) {
            m
        } else {
            CommManagerView { pending: m.pending.push(h), ..m }
        },
        CommManagerEventView::Closed(id) => if has_comm(m.comms, id) {
            CommManagerView { comms: m.comms.remove(comm_index(m.comms, id)), ..m }
        } else {
            m
        },
    }
}

/// What the loop is to do after an event. A second opening of an open comm,
/// and a message or a closing for a comm that is not open, are dropped.
pub open spec fn step_actions(m: CommManagerView, e: CommManagerEventView) -> Seq<
    CommActionView,
> {
    match e {
        CommManagerEventView::Opened(c, v) => if has_comm(m.comms, c.comm_id) {
            seq![]
        } else {
            let added = CommActionView::NotifyShell(
                CommShellEventView::Added(c.comm_id, c.comm_name),
            );
            if c.initiator == CommInitiator::BackEnd {
                seq![
                    added,
                    CommActionView::Publish(IOPubView::CommOpen(c.comm_id, c.comm_name, v)),
                ]
            } else {
                seq![added]
            }
        },
        CommManagerEventView::Message(id, msg) => if has_comm(m.comms, id) {
            seq![CommActionView::Deliver(id, msg)]
        } else {
            seq![]
        },
        CommManagerEventView::PendingRpc(_) => seq![],
        CommManagerEventView::Closed(id) => if has_comm(m.comms, id) {
            seq![CommActionView::NotifyShell(CommShellEventView::Removed(id))]
        } else {
            seq![]
        },
    }
}

/// The manager after the comm `id` sent `msg` towards the front end.
pub open spec fn outgoing(m: CommManagerView, id: Seq<char>, msg: CommMsgView) -> CommManagerView {
    if !has_comm(m.comms, id) {
        m
    } else {
        match msg {
            CommMsgView::Rpc(rid, _) => if has_pending(m.pending, rid) {
                CommManagerView { pending: m.pending.remove(pending_index(m.pending, rid)), ..m }
            } else {
                m
            },
            CommMsgView::Data(_) => m,
            CommMsgView::Close => CommManagerView {
                comms: m.comms.remove(comm_index(m.comms, id)),
                ..m
            },
        }
    }
}

/// What the loop is to do after the comm `id` sent `msg`: data becomes an
/// event with no parent; an RPC whose id is pending becomes a reply tagged
/// with the saved request header, any other RPC a request to the front end;
/// a closing is announced and ends the comm.
pub open spec fn outgoing_actions(m: CommManagerView, id: Seq<char>, msg: CommMsgView) -> Seq<
    CommActionView,
> {
    if !has_comm(m.comms, id) {
        seq![]
    } else {
        match msg {
            CommMsgView::Rpc(rid, v) => if has_pending(m.pending, rid) {
                seq![
                    CommActionView::Publish(
                        IOPubView::CommMsgReply(m.pending[pending_index(m.pending, rid)], id, v),
                    ),
                ]
            } else {
                seq![CommActionView::Publish(IOPubView::CommMsgRequest(id, v))]
            },
            CommMsgView::Data(v) => seq![CommActionView::Publish(IOPubView::CommMsgEvent(id, v))],
            CommMsgView::Close => seq![
                CommActionView::Publish(IOPubView::CommClose(id)),
                CommActionView::NotifyShell(CommShellEventView::Removed(id)),
            ],
        }
    }
}

proof fn lemma_comm_index(comms: Seq<CommSocketView>, i: int)
    requires
        distinct_comms(comms),
        0 <= i < comms.len(),
    ensures
        has_comm(comms, comms[i].comm_id),
        comm_index(comms, comms[i].comm_id) == i,
{
    let j = comm_index(comms, comms[i].comm_id);
    assert(0 <= j < comms.len() && comms[j].comm_id == comms[i].comm_id);
}

proof fn lemma_pending_index(pending: Seq<HeaderView>, i: int)
    requires
        distinct_pending(pending),
        0 <= i < pending.len(),
    ensures
        has_pending(pending, pending[i].msg_id),
        pending_index(pending, pending[i].msg_id) == i,
{
    let j = pending_index(pending, pending[i].msg_id);
    assert(0 <= j < pending.len() && pending[j].msg_id == pending[i].msg_id);
}

impl CommManager {
    /// A manager with no open comm and no pending request.
    pub fn new() -> (r: CommManager)
        ensures
            r.wf(),
            r@.comms.len() == 0,
            r@.pending.len() == 0,
    {
        CommManager { open_comms: Vec::new(), pending_rpcs: Vec::new() }
    }

    pub open spec fn wf(&self) -> bool {
        manager_wf(self@)
    }

    /// The open comms, in order of opening.
    pub fn open_comms(&self) -> (r: &Vec<CommSocket>)
        ensures
            Seq::new(r@.len(), |i: int| r@[i]@) == self@.comms,
    {
        &self.open_comms
    }

    /// The number of front-end requests that wait for a reply.
    pub fn pending_count(&self) -> (r: usize)
        ensures
            r == self@.pending.len(),
    {
        self.pending_rpcs.len()
    }

    fn find_comm(&self, id: &String) -> (r: Option<usize>)
        requires
            self.wf(),
        ensures
            match r {
                Some(i) => i < self@.comms.len() && has_comm(self@.comms, id@) && comm_index(
                    self@.comms,
                    id@,
                ) == i,
                None => !has_comm(self@.comms, id@),
            },
    {
        let mut i: usize = 0;
        while i < self.open_comms.len()
            invariant
                i <= self.open_comms@.len(),
                self.wf(),
                forall|j: int| 0 <= j < i ==> self@.comms[j].comm_id != id@,
            decreases self.open_comms@.len() - i,
        {
            if self.open_comms[i].comm_id == *id {
                proof {
                    lemma_comm_index(self@.comms, i as int);
                }
                return Some(i);
            }
            i = i + 1;
        }
        None
    }

    fn find_pending(&self, id: &String) -> (r: Option<usize>)
        requires
            self.wf(),
        ensures
            match r {
                Some(i) => i < self@.pending.len() && has_pending(self@.pending, id@)
                    && pending_index(self@.pending, id@) == i,
                None => !has_pending(self@.pending, id@),
            },
    {
        let mut i: usize = 0;
        while i < self.pending_rpcs.len()
            invariant
                i <= self.pending_rpcs@.len(),
                self.wf(),
                forall|j: int| 0 <= j < i ==> self@.pending[j].msg_id != id@,
            decreases self.pending_rpcs@.len() - i,
        {
            if self.pending_rpcs[i].msg_id == *id {
                proof {
                    lemma_pending_index(self@.pending, i as int);
                }
                return Some(i);
            }
            i = i + 1;
        }
        None
    }

    /// Handles one event from the event channel.
    pub fn handle_event(&mut self, event: CommManagerEvent) -> (r: Vec<CommAction>)
        requires
            old(self).wf(),
        ensures
            final(self).wf(),
            final(self)@ == step(old(self)@, event@),
            actions_view(r@) == step_actions(old(self)@, event@),
    {
        let ghost m = self@;
        let ghost e = event@;
        let mut r: Vec<CommAction> = Vec::new();
        match event {
            CommManagerEvent::Opened(comm, data) => {
                if self.find_comm(&comm.comm_id).is_some() {
                    assert(actions_view(r@) =~= step_actions(m, e));
                    return r;
                }
                r.push(
                    CommAction::NotifyShell(
                        CommShellEvent::Added(comm.comm_id.clone(), comm.comm_name.clone()),
                    ),
                );
                if comm.initiator == CommInitiator::BackEnd {
                    r.push(
                        CommAction::Publish(
                            IOPubMessage::CommOpen(
                                CommOpen {
                                    comm_id: comm.comm_id.clone(),
                                    target_name: comm.comm_name.clone(),
                                    data,
                                },
                            ),
                        ),
                    );
                }
                self.open_comms.push(comm);
                assert(self@.comms =~= m.comms.push(e->Opened_0));
                assert(actions_view(r@) =~= step_actions(m, e));
            },
            CommManagerEvent::Message(id, msg) => {
                if self.find_comm(&id).is_some() {
                    r.push(CommAction::Deliver(id, msg));
                }
                assert(actions_view(r@) =~= step_actions(m, e));
            },
            CommManagerEvent::PendingRpc(header) => {
                match self.find_pending(&header.msg_id) {
                    Some(_) => {},
                    None => {
                        self.pending_rpcs.push(header);
                        assert(self@.pending =~= m.pending.push(e->PendingRpc_0));
                    },
                }
                assert(self@.comms =~= m.comms);
                assert(actions_view(r@) =~= step_actions(m, e));
            },
            CommManagerEvent::Closed(id) => {
                if let Some(i) = self.find_comm(&id) {
                    self.open_comms.remove(i);
                    assert(self@.comms =~= m.comms.remove(i as int));
                    r.push(CommAction::NotifyShell(CommShellEvent::Removed(id)));
                }
                assert(actions_view(r@) =~= step_actions(m, e));
            },
        }
        r
    }

    /// Handles a message that the comm `comm_id` sent towards the front end.
    pub fn handle_outgoing(&mut self, comm_id: String, msg: CommMsg) -> (r: Vec<CommAction>)
        requires
            old(self).wf(),
        ensures
            final(self).wf(),
            final(self)@ == outgoing(old(self)@, comm_id@, msg@),
            actions_view(r@) == outgoing_actions(old(self)@, comm_id@, msg@),
    {
        let ghost m = self@;
        let ghost mv = msg@;
        let mut r: Vec<CommAction> = Vec::new();
        let index = match self.find_comm(&comm_id) {
            Some(i) => i,
            None => {
                assert(actions_view(r@) =~= outgoing_actions(m, comm_id@, mv));
                return r;
            },
        };
        match msg {
            CommMsg::Data(data) => {
                r.push(
                    CommAction::Publish(IOPubMessage::CommMsgEvent(CommWireMsg { comm_id, data })),
                );
            },
            CommMsg::Rpc(request_id, data) => {
                let payload = CommWireMsg { comm_id, data };
                match self.find_pending(&request_id) {
                    Some(i) => {
                        let header = self.pending_rpcs.remove(i);
                        assert(self@.pending =~= m.pending.remove(i as int));
                        r.push(CommAction::Publish(IOPubMessage::CommMsgReply(header, payload)));
                    },
                    None => {
                        r.push(CommAction::Publish(IOPubMessage::CommMsgRequest(payload)));
                    },
                }
            },
            CommMsg::Close => {
                self.open_comms.remove(index);
                assert(self@.comms =~= m.comms.remove(index as int));
                r.push(CommAction::Publish(IOPubMessage::CommClose(comm_id.clone())));
                r.push(CommAction::NotifyShell(CommShellEvent::Removed(comm_id)));
            },
        }
        assert(actions_view(r@) =~= outgoing_actions(m, comm_id@, mv));
        r
    }
}

/// The manager after a sequence of events, from `m`.
pub open spec fn run_events(m: CommManagerView, evs: Seq<CommManagerEventView>) -> CommManagerView
    decreases evs.len(),
{
    if evs.len() == 0 {
        m
    } else {
        step(run_events(m, evs.drop_last()), evs.last())
    }
}

/// How many of the events open the comm `id`.
pub open spec fn count_opened(evs: Seq<CommManagerEventView>, id: Seq<char>) -> int
    decreases evs.len(),
{
    if evs.len() == 0 {
        0
    } else {
        count_opened(evs.drop_last(), id) + match evs.last() {
            CommManagerEventView::Opened(c, _) => if c.comm_id == id {
                1int
            } else {
                0int
            },
            _ => 0int,
        }
    }
}

/// How many of the events close the comm `id`.
pub open spec fn count_closed(evs: Seq<CommManagerEventView>, id: Seq<char>) -> int
    decreases evs.len(),
{
    if evs.len() == 0 {
        0
    } else {
        count_closed(evs.drop_last(), id) + match evs.last() {
            CommManagerEventView::Closed(c) => if c == id {
                1int
            } else {
                0int
            },
            _ => 0int,
        }
    }
}

/// Along the events, the comm `id` is never opened while open nor closed
/// while closed.
pub open spec fn bracketed(evs: Seq<CommManagerEventView>, id: Seq<char>) -> bool {
    forall|k: int|
        0 <= k <= evs.len() ==> 0 <= #[trigger] count_opened(evs.take(k), id) - count_closed(
            evs.take(k),
            id,
        ) <= 1
}

/// Every event keeps comm ids and pending ids distinct.
pub proof fn lemma_step_wf(m: CommManagerView, e: CommManagerEventView)
    requires
        manager_wf(m),
    ensures
        manager_wf(step(m, e)),
{
    match e {
        CommManagerEventView::Opened(c, _) => {
            if !has_comm(m.comms, c.comm_id) {
                let n = m.comms.push(c);
                assert forall|i: int, j: int|
                    0 <= i < n.len() && 0 <= j < n.len() && i != j implies n[i].comm_id
                    != n[j].comm_id by {
                    if i == m.comms.len() as int {
                        assert(m.comms[j].comm_id != c.comm_id);
                    } else if j == m.comms.len() as int {
                        assert(m.comms[i].comm_id != c.comm_id);
                    }
                }
            }
        },
        CommManagerEventView::PendingRpc(h) => {
            if !has_pending(m.pending, h.msg_id) {
                let n = m.pending.push(h);
                assert forall|i: int, j: int|
                    0 <= i < n.len() && 0 <= j < n.len() && i != j implies n[i].msg_id
                    != n[j].msg_id by {
                    if i == m.pending.len() as int {
                        assert(m.pending[j].msg_id != h.msg_id);
                    } else if j == m.pending.len() as int {
                        assert(m.pending[i].msg_id != h.msg_id);
                    }
                }
            }
        },
        CommManagerEventView::Closed(id) => {
            if has_comm(m.comms, id) {
                let k = comm_index(m.comms, id);
                let n = m.comms.remove(k);
                assert forall|i: int, j: int|
                    0 <= i < n.len() && 0 <= j < n.len() && i != j implies n[i].comm_id
                    != n[j].comm_id by {
                    let a = if i < k {
                        i
                    } else {
                        i + 1
                    };
                    let b = if j < k {
                        j
                    } else {
                        j + 1
                    };
                    assert(n[i] == m.comms[a] && n[j] == m.comms[b]);
                }
            }
        },
        _ => {},
    }
}

/// After any stream of events from a manager `m0` whose open comms have
/// distinct ids (the empty manager among them), no two open comms share an
/// id, so each id has at most one entry; and where `id` is not open in
/// `m0` and the stream never opens `id` while open nor closes it while
/// closed, `id` is present exactly when it was opened once more than it
/// was closed.
pub proof fn lemma_comm_at_most_one(
    m0: CommManagerView,
    evs: Seq<CommManagerEventView>,
    id: Seq<char>,
)
    requires
        manager_wf(m0),
    ensures
        manager_wf(run_events(m0, evs)),
        bracketed(evs, id) && !has_comm(m0.comms, id) ==> (if has_comm(run_events(m0, evs).comms, id) {
            1int
        } else {
            0int
        }) == count_opened(evs, id) - count_closed(evs, id),
    decreases evs.len(),
{
    if evs.len() == 0 {
        return;
    }
    let prev = evs.drop_last();
    lemma_comm_at_most_one(m0, prev, id);
    let m = run_events(m0, prev);
    lemma_step_wf(m, evs.last());
    if bracketed(evs, id) && !has_comm(m0.comms, id) {
        assert forall|k: int| 0 <= k <= prev.len() implies 0 <= #[trigger] count_opened(
            prev.take(k),
            id,
        ) - count_closed(prev.take(k), id) <= 1 by {
            assert(prev.take(k) =~= evs.take(k));
            assert(0 <= count_opened(evs.take(k), id) - count_closed(evs.take(k), id) <= 1);
        }
        assert(evs.take(evs.len() as int) =~= evs);
        assert(0 <= count_opened(evs.take(evs.len() as int), id) - count_closed(
            evs.take(evs.len() as int),
            id,
        ) <= 1);
        let n = step(m, evs.last());
        match evs.last() {
            CommManagerEventView::Opened(c, _) => {
                if !has_comm(m.comms, c.comm_id) {
                    if has_comm(n.comms, id) && c.comm_id != id {
                        let i = choose|i: int| 0 <= i < n.comms.len() && n.comms[i].comm_id == id;
                        assert(m.comms[i].comm_id == id);
                    }
                    if c.comm_id == id {
                        assert(n.comms[m.comms.len() as int].comm_id == id);
                    }
                    if has_comm(m.comms, id) {
                        let i = choose|i: int| 0 <= i < m.comms.len() && m.comms[i].comm_id == id;
                        assert(n.comms[i].comm_id == id);
                    }
                }
            },
            CommManagerEventView::Closed(x) => {
                if has_comm(m.comms, x) {
                    let k = comm_index(m.comms, x);
                    if has_comm(n.comms, id) {
                        let i = choose|i: int| 0 <= i < n.comms.len() && n.comms[i].comm_id == id;
                        let a = if i < k {
                            i
                        } else {
                            i + 1
                        };
                        assert(n.comms[i] == m.comms[a]);
                        assert(a != k);
                    }
                    if has_comm(m.comms, id) && x != id {
                        let i = choose|i: int| 0 <= i < m.comms.len() && m.comms[i].comm_id == id;
                        let b = if i < k {
                            i
                        } else {
                            i - 1
                        };
                        assert(n.comms[b] == m.comms[i]);
                    }
                }
            },
            _ => {},
        }
    }
}

/// One input of the manager's loop: an event, or a message that an open
/// comm sent towards the front end.
pub enum ManagerInput {
    Event(CommManagerEventView),
    Outgoing(Seq<char>, CommMsgView),
}

pub open spec fn apply_input(m: CommManagerView, i: ManagerInput) -> CommManagerView {
    match i {
        ManagerInput::Event(e) => step(m, e),
        ManagerInput::Outgoing(id, msg) => outgoing(m, id, msg),
    }
}

/// The manager after a sequence of inputs, from `m`.
pub open spec fn run_inputs(m: CommManagerView, ins: Seq<ManagerInput>) -> CommManagerView
    decreases ins.len(),
{
    if ins.len() == 0 {
        m
    } else {
        apply_input(run_inputs(m, ins.drop_last()), ins.last())
    }
}

/// A front-end RPC request seen by the manager.
pub open spec fn is_request(i: ManagerInput) -> bool {
    match i {
        ManagerInput::Event(CommManagerEventView::PendingRpc(_)) => true,
        _ => false,
    }
}

/// A comm's RPC whose id is pending, in state `m`: a reply.
pub open spec fn is_known_reply(m: CommManagerView, i: ManagerInput) -> bool {
    match i {
        ManagerInput::Outgoing(id, CommMsgView::Rpc(rid, _)) => has_comm(m.comms, id)
            && has_pending(m.pending, rid),
        _ => false,
    }
}

pub open spec fn count_requests(ins: Seq<ManagerInput>) -> int
    decreases ins.len(),
{
    if ins.len() == 0 {
        0
    } else {
        count_requests(ins.drop_last()) + if is_request(ins.last()) {
            1int
        } else {
            0int
        }
    }
}

pub open spec fn count_known_replies(m: CommManagerView, ins: Seq<ManagerInput>) -> int
    decreases ins.len(),
{
    if ins.len() == 0 {
        0
    } else {
        count_known_replies(m, ins.drop_last()) + if is_known_reply(
            run_inputs(m, ins.drop_last()),
            ins.last(),
        ) {
            1int
        } else {
            0int
        }
    }
}

/// Every front-end request carries an id that is not pending when it comes.
pub open spec fn fresh_requests(m: CommManagerView, ins: Seq<ManagerInput>) -> bool {
    forall|k: int|
        0 <= k < ins.len() ==> match #[trigger] ins[k] {
            ManagerInput::Event(CommManagerEventView::PendingRpc(h)) => !has_pending(
                run_inputs(m, ins.take(k)).pending,
                h.msg_id,
            ),
            _ => true,
        }
}

/// From any manager `m0`, where no front-end request repeats an id that is
/// still pending, the pending table holds the entries it had, plus as many
/// as requests were seen, less the comm replies that found their request
/// id. From the empty manager that is requests less replies.
pub proof fn lemma_pending_rpc_accounting(m0: CommManagerView, ins: Seq<ManagerInput>)
    requires
        fresh_requests(m0, ins),
    ensures
        run_inputs(m0, ins).pending.len() == m0.pending.len() + count_requests(ins)
            - count_known_replies(m0, ins),
    decreases ins.len(),
{
    if ins.len() == 0 {
        return;
    }
    let prev = ins.drop_last();
    assert forall|k: int| 0 <= k < prev.len() implies match #[trigger] prev[k] {
        ManagerInput::Event(CommManagerEventView::PendingRpc(h)) => !has_pending(
            run_inputs(m0, prev.take(k)).pending,
            h.msg_id,
        ),
        _ => true,
    } by {
        assert(prev.take(k) =~= ins.take(k));
        assert(prev[k] == ins[k]);
    }
    lemma_pending_rpc_accounting(m0, prev);
    let last = ins.last();
    let k = ins.len() - 1;
    assert(ins.take(k) =~= prev);
    assert(ins[k] == last);
}

} // verus!

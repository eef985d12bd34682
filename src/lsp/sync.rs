//! Leases for language-server handlers, with writer priority.
//!
//! Handlers that observe state take a shared lease; handlers that change it
//! take an exclusive one. No new shared lease starts while a writer waits,
//! and a writer waits until every shared lease has been released.

use vstd::prelude::*;

verus! {

/// The coordinator's bookkeeping.
pub struct LeaseSync {
    shared: usize,
    exclusive: bool,
    waiting: Vec<(u64, bool)>,
}

/// The mathematical value of a [`LeaseSync`]: how many shared leases are
/// held, whether the exclusive one is, and the handlers that wait, in
/// order of arrival (id, wants exclusive).
pub struct LeaseView {
    pub shared: nat,
    pub exclusive: bool,
    pub waiting: Seq<(u64, bool)>,
}

/// The invariant: an exclusive lease is never held beside a shared one, and
/// a handler waits only behind a lease that blocks the one at the front.
pub open spec fn lease_wf(v: LeaseView) -> bool {
    &&& v.exclusive ==> v.shared == 0
    &&& v.waiting.len() > 0 ==> (v.exclusive || v.shared > 0)
    &&& v.waiting.len() > 0 && !v.waiting[0].1 ==> v.exclusive
    &&& v.shared + v.waiting.len() < usize::MAX
}

/// Leases handed to waiting handlers, front first: shared ones while no
/// exclusive lease is held, an exclusive one when nothing is held.
pub open spec fn promote(v: LeaseView) -> (LeaseView, Seq<u64>)
    decreases v.waiting.len(),
{
    if v.waiting.len() == 0 {
        (v, seq![])
    } else {
        let (id, wants_exclusive) = v.waiting[0];
        if wants_exclusive {
            if v.shared == 0 && !v.exclusive {
                (LeaseView { exclusive: true, waiting: v.waiting.drop_first(), ..v }, seq![id])
            } else {
                (v, seq![])
            }
        } else if !v.exclusive {
            let (w, g) = promote(
                LeaseView { shared: v.shared + 1, waiting: v.waiting.drop_first(), ..v },
            );
            (w, seq![id] + g)
        } else {
            (v, seq![])
        }
    }
}

/// Whether a request is granted at once: an exclusive one when nothing is
/// held and nobody waits, a shared one when no exclusive lease is held and
/// nobody waits.
pub open spec fn grants_at_once(v: LeaseView, exclusive: bool) -> bool {
    if exclusive {
        v.shared == 0 && !v.exclusive && v.waiting.len() == 0
    } else {
        !v.exclusive && v.waiting.len() == 0
    }
}

pub open spec fn after_request(v: LeaseView, id: u64, exclusive: bool) -> LeaseView {
    if grants_at_once(v, exclusive) {
        if exclusive {
            LeaseView { exclusive: true, ..v }
        } else {
            LeaseView { shared: v.shared + 1, ..v }
        }
    } else {
        LeaseView { waiting: v.waiting.push((id, exclusive)), ..v }
    }
}

pub open spec fn after_release(v: LeaseView, exclusive: bool) -> LeaseView {
    if exclusive {
        LeaseView { exclusive: false, ..v }
    } else {
        LeaseView { shared: (v.shared - 1) as nat, ..v }
    }
}

proof fn lemma_promote_wf(v: LeaseView)
    requires
        v.exclusive ==> v.shared == 0,
        v.shared + v.waiting.len() < usize::MAX,
    ensures
        lease_wf(promote(v).0),
    decreases v.waiting.len(),
{
    if v.waiting.len() > 0 {
        let (id, wants_exclusive) = v.waiting[0];
        if !wants_exclusive && !v.exclusive {
            lemma_promote_wf(
                LeaseView { shared: v.shared + 1, waiting: v.waiting.drop_first(), ..v },
            );
        }
    }
}

/// While the exclusive lease is held no shared lease is, and while a shared
/// lease is held the exclusive one is not: every coordinator keeps this.
pub proof fn lemma_writer_exclusion(s: &LeaseSync)
    requires
        s.wf(),
    ensures
        s@.exclusive ==> s@.shared == 0,
        s@.shared > 0 ==> !s@.exclusive,
{
}

impl View for LeaseSync {
    type V = LeaseView;

    closed spec fn view(&self) -> LeaseView {
        LeaseView { shared: self.shared as nat, exclusive: self.exclusive, waiting: self.waiting@ }
    }
}

impl LeaseSync {
    /// A coordinator with no lease held and nobody waiting.
    pub fn new() -> (r: LeaseSync)
        ensures
            r.wf(),
            r@ == (LeaseView { shared: 0, exclusive: false, waiting: seq![] }),
    {
        LeaseSync { shared: 0, exclusive: false, waiting: Vec::new() }
    }

    pub open spec fn wf(&self) -> bool {
        lease_wf(self@)
    }

    /// Whether one more request can be taken: the count of leases and
    /// waiting handlers must stay below the machine's limit.
    pub fn has_room(&self) -> (r: bool)
        requires
            self.wf(),
        ensures
            r == (self@.shared + self@.waiting.len() + 1 < usize::MAX),
    {
        self.waiting.len() < usize::MAX - 1 - self.shared
    }

    /// A handler asks for a lease. Returns whether it is granted at once;
    /// otherwise the handler waits, in order, until a release grants it.
    pub fn request(&mut self, id: u64, exclusive: bool) -> (granted: bool)
        requires
            old(self).wf(),
            old(self)@.shared + old(self)@.waiting.len() + 1 < usize::MAX,
        ensures
            final(self).wf(),
            granted == grants_at_once(old(self)@, exclusive),
            final(self)@ == after_request(old(self)@, id, exclusive),
    {
        let at_once = if exclusive {
            self.shared == 0 && !self.exclusive && self.waiting.len() == 0
        } else {
            !self.exclusive && self.waiting.len() == 0
        };
        if at_once {
            if exclusive {
                self.exclusive = true;
            } else {
                self.shared = self.shared + 1;
            }
        } else {
            self.waiting.push((id, exclusive));
        }
        at_once
    }

    /// A handler releases its lease. Returns the ids of the waiting
    /// handlers that are granted theirs now, in order.
    pub fn release(&mut self, exclusive: bool) -> (granted: Vec<u64>)
        requires
            old(self).wf(),
            exclusive ==> old(self)@.exclusive,
            !exclusive ==> old(self)@.shared > 0,
        ensures
            final(self).wf(),
            final(self)@ == promote(after_release(old(self)@, exclusive)).0,
            granted@ == promote(after_release(old(self)@, exclusive)).1,
    {
        if exclusive {
            self.exclusive = false;
        } else {
            self.shared = self.shared - 1;
        }
        let ghost start = self@;
        proof {
            lemma_promote_wf(start);
        }
        let mut granted: Vec<u64> = Vec::new();
        while self.waiting.len() > 0
            invariant
                self@.exclusive ==> self@.shared == 0,
                self@.shared + self@.waiting.len() < usize::MAX,
                promote(start) == (promote(self@).0, granted@ + promote(self@).1),
            ensures
                promote(start) == (self@, granted@),
            decreases self@.waiting.len(),
        {
            let ghost before = self@;
            let ghost granted_before = granted@;
            let (id, wants_exclusive) = self.waiting[0];
            if wants_exclusive {
                if self.shared == 0 && !self.exclusive {
                    self.waiting.remove(0);
                    self.exclusive = true;
                    granted.push(id);
                    assert(self@ == promote(before).0);
                    assert(promote(self@).1 =~= Seq::<u64>::empty());
                    assert(granted@ =~= granted_before + promote(before).1);
                }
                break;
            } else if !self.exclusive {
                self.waiting.remove(0);
                self.shared = self.shared + 1;
                granted.push(id);
                assert(self@ == LeaseView {
                    shared: before.shared + 1,
                    waiting: before.waiting.drop_first(),
                    ..before
                });
                assert(granted_before + promote(before).1 =~= granted@ + promote(self@).1);
            } else {
                break;
            }
        }
        granted
    }
}

} // verus!

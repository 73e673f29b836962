//! Admission control over broker intake: a bounded number of sessions
//! may be live at once.  Each admitted order gets a registered session
//! and a pair of connection links; each completion releases exactly one
//! capacity unit and yields the completion record for the broker.

use vstd::prelude::*;
use vstd::string::*;
use crate::handlers::event_actor::{actor_step, step_writes, OutboundWrite};
use crate::handlers::events::{Party, StateKind};
use crate::handlers::websocket_actor::OrderSessionHandler;

verus! {

/// An intake message from the broker: one order to track.
pub struct OrderInfo {
    pub order_id: String,
    pub customer_id: String,
    pub courier_id: String,
}

/// The connection links published for an admitted order.
#[derive(Debug)]
pub struct GeolocationLinks {
    pub order_id: String,
    pub customer: String,
    pub courier: String,
}

/// The record published when an order completes.
#[derive(Debug)]
pub struct CompletionRecord {
    pub order_id: String,
    pub status: String,
}

/// Outcome of one intake message.
#[derive(Debug)]
pub enum AdmissionOutcome {
    /// A session was created and registered; publish these links.
    Admitted(GeolocationLinks),
    /// No capacity unit is free: pause intake until one is released.
    AtCapacity,
    /// An order with this identifier is already live.
    AlreadyLive,
}

/// The customer's connection link for an order.
pub open spec fn customer_link(host: Seq<char>, port: Seq<char>, id: Seq<char>) -> Seq<char> {
    "ws://"@ + host + ":"@ + port + "/ws/"@ + id + "/customer"@
}

/// The courier's connection link for an order.
pub open spec fn courier_link(host: Seq<char>, port: Seq<char>, id: Seq<char>) -> Seq<char> {
    "ws://"@ + host + ":"@ + port + "/ws/"@ + id + "/courier"@
}

/// Index of the session holding `id`, or `-1` when none does.
pub open spec fn session_index(s: Seq<OrderSessionHandler>, id: Seq<char>) -> int
    decreases s.len(),
{
    if s.len() == 0 {
        -1
    } else if s[0].order_id@ == id {
        0
    } else {
        let r = session_index(s.drop_first(), id);
        if r < 0 {
            -1
        } else {
            r + 1
        }
    }
}

pub proof fn lemma_session_index(s: Seq<OrderSessionHandler>, id: Seq<char>)
    ensures
        -1 <= session_index(s, id) < s.len(),
        session_index(s, id) >= 0 ==> s[session_index(s, id)].order_id@ == id,
        session_index(s, id) == -1 ==> forall|k: int|
            0 <= k < s.len() ==> #[trigger] s[k].order_id@ != id,
    decreases s.len(),
{
    if s.len() > 0 && s[0].order_id@ != id {
        lemma_session_index(s.drop_first(), id);
        if session_index(s, id) == -1 {
            assert forall|k: int| 0 <= k < s.len() implies #[trigger] s[k].order_id@ != id by {
                if k > 0 {
                    assert(s.drop_first()[k - 1] == s[k]);
                }
            }
        }
    }
}

/// The admission controller and session registry.
pub struct IncomingOrderProcessor {
    pub host: String,
    pub port: String,
    pub capacity: usize,
    pub sessions: Vec<OrderSessionHandler>,
}

impl IncomingOrderProcessor {
    /// No more sessions than the ceiling, each well formed, and no two
    /// sessions for one order.
    pub open spec fn wf(&self) -> bool {
        &&& self.sessions@.len() <= self.capacity
        &&& forall|i: int, j: int|
            0 <= i < j < self.sessions@.len() ==> #[trigger] self.sessions@[i].order_id@
                != #[trigger] self.sessions@[j].order_id@
        &&& forall|i: int| 0 <= i < self.sessions@.len() ==> (#[trigger] self.sessions@[i]).wf()
    }

    /// How many sessions are live.
    pub open spec fn live_count(&self) -> nat {
        self.sessions@.len()
    }

    /// How many capacity units are free: the ceiling less one unit per
    /// live session.
    pub open spec fn spec_available(&self) -> int {
        self.capacity - self.sessions@.len()
    }

    /// Whether a session for this order is live.
    pub open spec fn has_session(&self, id: Seq<char>) -> bool {
        session_index(self.sessions@, id) >= 0
    }

    /// A fresh controller: no live sessions, the whole ceiling free.
    pub fn new(host: String, port: String, capacity: usize) -> (r: Self)
        ensures
            r.wf(),
            r.host == host,
            r.port == port,
            r.capacity == capacity,
            r.live_count() == 0,
            r.spec_available() == capacity,
    {
        Self { host, port, capacity, sessions: Vec::new() }
    }

    /// Free capacity units.
    pub fn available(&self) -> (r: usize)
        requires
            self.wf(),
        ensures
            r == self.spec_available(),
    {
        self.capacity - self.sessions.len()
    }

    /// Number of live sessions.
    pub fn live_sessions(&self) -> (r: usize)
        ensures
            r == self.live_count(),
    {
        self.sessions.len()
    }

    /// Index of the live session for this order, if any.
    fn find(&self, order_id: &str) -> (r: Option<usize>)
        requires
            self.wf(),
        ensures
            match r {
                Some(i) => i == session_index(self.sessions@, order_id@),
                None => session_index(self.sessions@, order_id@) == -1,
            },
    {
        proof {
            lemma_session_index(self.sessions@, order_id@);
        }
        let n: usize = self.sessions.len();
        let mut j: usize = 0;
        while j < n
            invariant
                j <= n,
                n == self.sessions@.len(),
                self.wf(),
                forall|k: int| 0 <= k < j ==> #[trigger] self.sessions@[k].order_id@ != order_id@,
                session_index(self.sessions@, order_id@) >= 0 ==> self.sessions@[session_index(
                    self.sessions@,
                    order_id@,
                )].order_id@ == order_id@,
                session_index(self.sessions@, order_id@) < self.sessions@.len(),
            decreases n - j,
        {
            if crate::wire::str_eq(self.sessions[j].order_id.as_str(), order_id) {
                proof {
                    lemma_session_index(self.sessions@, order_id@);
                    let si = session_index(self.sessions@, order_id@);
                    assert(self.sessions@[j as int].order_id@ == order_id@);
                    if si == -1 {
                        assert(self.sessions@[j as int].order_id@ != order_id@);
                        assert(false);
                    }
                    if si < j as int {
                        assert(self.sessions@[si].order_id@
                            != self.sessions@[j as int].order_id@);
                        assert(false);
                    }
                    if si > j as int {
                        assert(self.sessions@[j as int].order_id@
                            != self.sessions@[si].order_id@);
                        assert(false);
                    }
                }
                return Some(j);
            }
            j = j + 1;
        }
        proof {
            lemma_session_index(self.sessions@, order_id@);
            let si = session_index(self.sessions@, order_id@);
            if si >= 0 {
                assert(self.sessions@[si].order_id@ != order_id@);
            }
        }
        None
    }

    /// The current state and completion flag of this order's session.
    pub fn session_status(&self, order_id: &str) -> (r: Option<(StateKind, bool)>)
        requires
            self.wf(),
        ensures
            (r is Some) <==> self.has_session(order_id@),
            r matches Some(st) ==> {
                let i = session_index(self.sessions@, order_id@);
                st.0 == self.sessions@[i].actor@.state && st.1 == self.sessions@[i].actor@.completed
            },
    {
        proof {
            lemma_session_index(self.sessions@, order_id@);
        }
        match self.find(order_id) {
            Some(i) => {
                let s = &self.sessions[i];
                Some((s.actor.current_state(), s.actor.is_completed()))
            },
            None => None,
        }
    }

    /// Whether a session for this order is live.
    pub fn is_live(&self, order_id: &str) -> (r: bool)
        requires
            self.wf(),
        ensures
            r == self.has_session(order_id@),
    {
        match self.find(order_id) {
            Some(_) => true,
            None => false,
        }
    }

    /// One party connection link.
    fn link_with(&self, order_id: &str, suffix: &str) -> (r: String)
        ensures
            r@ == "ws://"@ + self.host@ + ":"@ + self.port@ + "/ws/"@ + order_id@ + suffix@,
    {
        let mut s: String = String::from_str("ws://");
        s.append(self.host.as_str());
        s.append(":");
        s.append(self.port.as_str());
        s.append("/ws/");
        s.append(order_id);
        s.append(suffix);
        proof {
            assert(s@ =~= "ws://"@ + self.host@ + ":"@ + self.port@ + "/ws/"@ + order_id@
                + suffix@);
        }
        s
    }

    /// Gate one intake message.  At the ceiling nothing is created and
    /// intake must pause; a duplicate identifier is refused; otherwise
    /// one capacity unit is taken, the session is created and
    /// registered in state `Created`, and the connection links to
    /// publish are handed back.
    pub fn process_msg(&mut self, order: OrderInfo) -> (r: AdmissionOutcome)
        requires
            old(self).wf(),
        ensures
            final(self).wf(),
            final(self).host == old(self).host,
            final(self).port == old(self).port,
            final(self).capacity == old(self).capacity,
            (r is AtCapacity) <==> old(self).live_count() == old(self).capacity,
            r is AtCapacity ==> *final(self) == *old(self),
            (r is AlreadyLive) <==> (old(self).live_count() < old(self).capacity && old(self).has_session(order.order_id@)),
            r is AlreadyLive ==> *final(self) == *old(self),
            (r is Admitted) <==> (old(self).live_count() < old(self).capacity && !old(self).has_session(order.order_id@)),
            r is Admitted ==> final(self).sessions@.len() == old(self).sessions@.len() + 1
                && final(self).sessions@.take(old(self).sessions@.len() as int) == old(self).sessions@ && final(self).spec_available() == old(self).spec_available() - 1
                && final(self).sessions@.last().order_id == order.order_id && final(self).sessions@.last().customer_id == order.customer_id && final(self).sessions@.last().courier_id == order.courier_id && final(self).sessions@.last().actor@.state == StateKind::Created && !final(self).sessions@.last().actor@.completed && final(self).has_session(order.order_id@),
            r matches AdmissionOutcome::Admitted(links) ==> links.order_id == order.order_id
                && links.customer@ == customer_link(
                old(self).host@,
                old(self).port@,
                order.order_id@,
            ) && links.courier@ == courier_link(old(self).host@, old(self).port@, order.order_id@),
    {
        if self.sessions.len() == self.capacity {
            return AdmissionOutcome::AtCapacity;
        }
        if self.is_live(order.order_id.as_str()) {
            return AdmissionOutcome::AlreadyLive;
        }
        proof {
            lemma_session_index(self.sessions@, order.order_id@);
        }
        let links = GeolocationLinks {
            order_id: order.order_id.clone(),
            customer: self.link_with(order.order_id.as_str(), "/customer"),
            courier: self.link_with(order.order_id.as_str(), "/courier"),
        };
        let session = OrderSessionHandler::new(order.order_id, order.customer_id, order.courier_id);
        self.sessions.push(session);
        proof {
            let s = self.sessions@;
            let n = s.len() - 1;
            assert(s.take(n) =~= old(self).sessions@);
            assert(forall|k: int| 0 <= k < n ==> #[trigger] s[k] == old(self).sessions@[k]);
            lemma_session_index(old(self).sessions@, order.order_id@);
            assert(forall|k: int| 0 <= k < n ==> #[trigger] s[k].order_id@ != order.order_id@);
            assert(s[n].order_id@ == order.order_id@);
            assert forall|k: int, l: int| 0 <= k < l < s.len() implies #[trigger] s[k].order_id@
                != #[trigger] s[l].order_id@ by {
                if l < n {
                    assert(s[k] == old(self).sessions@[k]);
                    assert(s[l] == old(self).sessions@[l]);
                    assert(old(self).sessions@[k].order_id@ != old(self).sessions@[l].order_id@);
                } else {
                    assert(s[k].order_id@ != order.order_id@);
                }
            }
            assert forall|k: int| 0 <= k < s.len() implies (#[trigger] s[k]).wf() by {
                if k < n {
                    assert(s[k] == old(self).sessions@[k]);
                    assert(old(self).sessions@[k].wf());
                }
            }
            lemma_session_index(s, order.order_id@);
            let si = session_index(s, order.order_id@);
            if si == -1 {
                assert(s[n].order_id@ != order.order_id@);
            }
        }
        AdmissionOutcome::Admitted(links)
    }

    /// Step the live session for this order with one inbound message,
    /// handing back the outbound writes it caused.
    pub fn handle_message(&mut self, order_id: &str, party: Party, message: String) -> (r: Option<
        Vec<OutboundWrite>,
    >)
        requires
            old(self).wf(),
        ensures
            final(self).wf(),
            final(self).host == old(self).host,
            final(self).port == old(self).port,
            final(self).capacity == old(self).capacity,
            (r is Some) <==> old(self).has_session(order_id@),
            r is None ==> *final(self) == *old(self),
            r matches Some(writes) ==> {
                let i = session_index(old(self).sessions@, order_id@);
                &&& final(self).sessions@.len() == old(self).sessions@.len()
                &&& forall|j: int|
                    0 <= j < old(self).sessions@.len() && j != i ==> #[trigger] final(self).sessions@[j] == old(self).sessions@[j]
                &&& final(self).sessions@[i].order_id == old(self).sessions@[i].order_id
                &&& final(self).sessions@[i].customer_id == old(self).sessions@[i].customer_id
                &&& final(self).sessions@[i].courier_id == old(self).sessions@[i].courier_id
                &&& final(self).sessions@[i].actor@ == actor_step(
                    old(self).sessions@[i].actor@,
                    party,
                    message@,
                )
                &&& writes.deep_view() == step_writes(old(self).sessions@[i].actor@, party, message@)
            },
    {
        proof {
            lemma_session_index(self.sessions@, order_id@);
        }
        match self.find(order_id) {
            Some(i) => {
                let ghost before = self.sessions@;
                let mut s = self.sessions.remove(i);
                let ghost mid = self.sessions@;
                let writes = s.actor.handle_message(party, message);
                self.sessions.insert(i, s);
                proof {
                    before.remove_ensures(i as int);
                    mid.insert_ensures(i as int, s);
                    assert(self.sessions@.len() == before.len());
                    assert forall|j: int|
                        0 <= j < before.len() && j != i implies #[trigger] self.sessions@[j]
                        == before[j] by {
                        if j < i {
                            assert(self.sessions@[j] == mid[j]);
                            assert(mid[j] == before[j]);
                        } else {
                            assert(self.sessions@[j] == mid[j - 1]);
                            assert(mid[j - 1] == before[j]);
                        }
                    }
                    assert(self.sessions@[i as int] == s);
                    assert(s.order_id == before[i as int].order_id);
                    assert forall|j: int|
                        0 <= j < before.len() implies #[trigger] self.sessions@[j].order_id@
                        == before[j].order_id@ by {
                        if j != i {
                            assert(self.sessions@[j] == before[j]);
                        }
                    }
                    assert forall|k: int, l: int|
                        0 <= k < l < self.sessions@.len() implies #[trigger] self.sessions@[k].order_id@
                        != #[trigger] self.sessions@[l].order_id@ by {
                        assert(self.sessions@[k].order_id@ == before[k].order_id@);
                        assert(self.sessions@[l].order_id@ == before[l].order_id@);
                        assert(before[k].order_id@ != before[l].order_id@);
                    }
                    assert forall|k: int|
                        0 <= k < self.sessions@.len() implies (#[trigger] self.sessions@[k]).wf() by {
                        if k != i {
                            assert(self.sessions@[k] == before[k]);
                            assert(before[k].wf());
                        }
                    }
                }
                Some(writes)
            },
            None => None,
        }
    }

    /// Release the capacity unit of this order's session, remove it
    /// from the registry, and hand back the completion record to
    /// publish.  Normal completion and abnormal termination both come
    /// through here; there is no other path back to free capacity.
    pub fn complete(&mut self, order_id: &str) -> (r: Option<CompletionRecord>)
        requires
            old(self).wf(),
        ensures
            final(self).wf(),
            final(self).host == old(self).host,
            final(self).port == old(self).port,
            final(self).capacity == old(self).capacity,
            (r is Some) <==> old(self).has_session(order_id@),
            r is None ==> *final(self) == *old(self),
            r is Some ==> final(self).sessions@ == old(self).sessions@.remove(
                session_index(old(self).sessions@, order_id@),
            ) && final(self).spec_available() == old(self).spec_available() + 1 && !final(self).has_session(order_id@),
            r matches Some(rec) ==> rec.order_id@ == order_id@ && rec.status@ == "Delivered"@,
    {
        proof {
            lemma_session_index(self.sessions@, order_id@);
        }
        match self.find(order_id) {
            Some(i) => {
                let ghost before = self.sessions@;
                let s = self.sessions.remove(i);
                let rec = CompletionRecord {
                    order_id: s.order_id,
                    status: String::from_str("Delivered"),
                };
                proof {
                    let after = self.sessions@;
                    assert(forall|k: int| 0 <= k < i ==> #[trigger] after[k] == before[k]);
                    assert(forall|k: int|
                        i <= k < after.len() ==> #[trigger] after[k] == before[k + 1]);
                    assert forall|k: int, l: int|
                        0 <= k < l < after.len() implies after[k].order_id@
                        != after[l].order_id@ by {
                        let kb: int = if k < i {
                            k
                        } else {
                            k + 1
                        };
                        let lb: int = if l < i {
                            l
                        } else {
                            l + 1
                        };
                        assert(after[k] == before[kb]);
                        assert(after[l] == before[lb]);
                        assert(before[kb].order_id@ != before[lb].order_id@);
                    }
                    assert forall|k: int| 0 <= k < after.len() implies (
                    #[trigger] after[k]).wf() by {
                        if k < i {
                            assert(after[k] == before[k]);
                        } else {
                            assert(after[k] == before[k + 1]);
                        }
                    }
                    lemma_session_index(after, order_id@);
                    let si = session_index(after, order_id@);
                    if si >= 0 {
                        assert(after[si].order_id@ == order_id@);
                        assert(before[i as int].order_id@ == order_id@);
                        if si < i {
                            assert(before[si].order_id@ == order_id@);
                            assert(before[si].order_id@ != before[i as int].order_id@);
                            assert(false);
                        } else {
                            assert(before[si + 1].order_id@ == order_id@);
                            assert(before[i as int].order_id@ != before[si + 1].order_id@);
                            assert(false);
                        }
                    }
                }
                Some(rec)
            },
            None => None,
        }
    }
}


/// One admission or one completion, for stating the capacity law.
pub enum AdmissionEvent {
    Admission,
    Completion,
}

/// Number of admissions in a sequence of events.
pub open spec fn count_admissions(events: Seq<AdmissionEvent>) -> int
    decreases events.len(),
{
    if events.len() == 0 {
        0
    } else {
        (match events.first() {
            AdmissionEvent::Admission => 1int,
            AdmissionEvent::Completion => 0int,
        }) + count_admissions(events.drop_first())
    }
}

/// Number of completions in a sequence of events.
pub open spec fn count_completions(events: Seq<AdmissionEvent>) -> int
    decreases events.len(),
{
    if events.len() == 0 {
        0
    } else {
        (match events.first() {
            AdmissionEvent::Admission => 0int,
            AdmissionEvent::Completion => 1int,
        }) + count_completions(events.drop_first())
    }
}

/// The live-session count after a sequence of events: each admission
/// takes one capacity unit, each completion releases one.
pub open spec fn run_live(live: int, events: Seq<AdmissionEvent>) -> int
    decreases events.len(),
{
    if events.len() == 0 {
        live
    } else {
        match events.first() {
            AdmissionEvent::Admission => run_live(live + 1, events.drop_first()),
            AdmissionEvent::Completion => run_live(live - 1, events.drop_first()),
        }
    }
}

/// A valid history: every admission happens strictly below the ceiling
/// (otherwise intake pauses) and every completion ends a live session.
pub open spec fn events_ok(cap: int, live: int, events: Seq<AdmissionEvent>) -> bool
    decreases events.len(),
{
    if events.len() == 0 {
        true
    } else {
        match events.first() {
            AdmissionEvent::Admission => live < cap && events_ok(
                cap,
                live + 1,
                events.drop_first(),
            ),
            AdmissionEvent::Completion => live > 0 && events_ok(
                cap,
                live - 1,
                events.drop_first(),
            ),
        }
    }
}

/// Law: each live session holds exactly one capacity unit.  After any
/// valid history with N admissions and M completions the live count is
/// the starting count plus N - M and never leaves `[0, ceiling]`; the
/// free capacity is therefore the ceiling minus (N - M) when starting
/// empty.
pub proof fn lemma_capacity_accounting(cap: int, live0: int, events: Seq<AdmissionEvent>)
    requires
        0 <= live0 <= cap,
        events_ok(cap, live0, events),
    ensures
        run_live(live0, events) == live0 + count_admissions(events) - count_completions(events),
        0 <= run_live(live0, events) <= cap,
    decreases events.len(),
{
    if events.len() > 0 {
        match events.first() {
            AdmissionEvent::Admission => {
                lemma_capacity_accounting(cap, live0 + 1, events.drop_first());
            },
            AdmissionEvent::Completion => {
                lemma_capacity_accounting(cap, live0 - 1, events.drop_first());
            },
        }
    }
}

} // verus!\n
//! The message bridge between command handlers and the long-lived scripting
//! engine thread.
//!
//! Queries travel through a single inbound FIFO queue and are consumed by a
//! single engine loop, so they are evaluated in send order and never
//! concurrently.  A synchronous query (`Execute`, `ExecFile`) is stamped with
//! a fresh [`Ticket`]; the engine later delivers at most one response for
//! that ticket, and the sender picks it up with [`ScriptBridge::await_result`].
//! `Restart` is fire-and-forget and never gets a response.  Once the engine
//! has terminated, every further send fails with [`SendError`] instead of
//! blocking or panicking.

use vstd::prelude::*;

verus! {

/// One request to the scripting engine.
#[derive(Debug, PartialEq, Eq)]
pub enum ScriptQuery {
    /// Evaluate a piece of code; a response is owed.
    Execute(String),
    /// Evaluate captured file input; a response is owed.
    ExecFile(String),
    /// Signal the engine to re-initialize; no response is ever produced.
    Restart,
}

impl ScriptQuery {
    /// Whether a sender may wait for a response correlated with this query.
    pub open spec fn is_synchronous(self) -> bool {
        !(self is Restart)
    }

    /// Executable mirror of [`ScriptQuery::is_synchronous`].
    pub fn synchronous(&self) -> (r: bool)
        ensures
            r == self.is_synchronous(),
    {
        !(matches!(self, ScriptQuery::Restart))
    }
}

/// What the engine hands back for one synchronous query.  Its contents are
/// opaque to this core: the value is correlated and carried through, never
/// interpreted.
#[derive(Debug, PartialEq, Eq)]
pub struct ScriptResponse {
    pub text: String,
}

/// Returned when the engine's inbound channel is closed because the engine
/// thread has terminated.  The rejected query is handed back to the caller.
#[derive(Debug, PartialEq, Eq)]
pub struct SendError {
    pub query: ScriptQuery,
}

/// Correlates one synchronous query with its eventual response.
#[derive(Clone, Copy, Debug, PartialEq, Eq, Structural)]
pub struct Ticket {
    pub id: u64,
}

/// A query the engine has not consumed yet, together with its ticket.
#[derive(Debug, PartialEq, Eq)]
pub struct Pending {
    pub ticket: Ticket,
    pub query: ScriptQuery,
}

struct DeliveredEntry {
    ticket: Ticket,
    response: ScriptResponse,
}

spec fn delivered_map_of(s: Seq<DeliveredEntry>) -> Map<u64, ScriptResponse>
    decreases s.len(),
{
    if s.len() == 0 {
        Map::empty()
    } else {
        delivered_map_of(s.drop_last()).insert(s.last().ticket.id, s.last().response)
    }
}

proof fn lemma_delivered_map_found(s: Seq<DeliveredEntry>, i: int)
    requires
        0 <= i < s.len(),
        forall|j: int| i < j < s.len() ==> s[j].ticket.id != s[i].ticket.id,
    ensures
        delivered_map_of(s).contains_key(s[i].ticket.id),
        delivered_map_of(s)[s[i].ticket.id] == s[i].response,
    decreases s.len(),
{
    if i == s.len() - 1 {
    } else {
        assert(s.drop_last()[i] == s[i]);
        assert forall|j: int| i < j < s.drop_last().len() implies s.drop_last()[j].ticket.id
            != s.drop_last()[i].ticket.id by {
            assert(s.drop_last()[j] == s[j]);
        }
        lemma_delivered_map_found(s.drop_last(), i);
    }
}

proof fn lemma_delivered_map_absent(s: Seq<DeliveredEntry>, id: u64)
    requires
        forall|j: int| 0 <= j < s.len() ==> s[j].ticket.id != id,
    ensures
        !delivered_map_of(s).contains_key(id),
    decreases s.len(),
{
    if s.len() > 0 {
        assert forall|j: int| 0 <= j < s.drop_last().len() implies s.drop_last()[j].ticket.id
            != id by {
            assert(s.drop_last()[j] == s[j]);
        }
        lemma_delivered_map_absent(s.drop_last(), id);
    }
}

proof fn lemma_delivered_map_covers(s: Seq<DeliveredEntry>, i: int)
    requires
        0 <= i < s.len(),
    ensures
        delivered_map_of(s).contains_key(s[i].ticket.id),
    decreases s.len(),
{
    if i < s.len() - 1 {
        assert(s.drop_last()[i] == s[i]);
        lemma_delivered_map_covers(s.drop_last(), i);
    }
}

/// The bridge between the shell and the scripting engine: the engine's
/// inbound queue, the fresh-ticket counter, and the responses delivered so
/// far.  In the threaded embedding the queue is the engine thread's channel
/// and [`ScriptBridge::await_result`] is a blocking wait; the state and its
/// transitions are exactly the ones modeled here.
pub struct ScriptBridge {
    alive: bool,
    next_id: u64,
    inbound: Vec<Pending>,
    delivered: Vec<DeliveredEntry>,
}

impl ScriptBridge {
    /// Whether the engine is still accepting queries.
    pub closed spec fn engine_alive(self) -> bool {
        self.alive
    }

    /// The queries sent but not yet consumed by the engine, in send order.
    pub closed spec fn pending(self) -> Seq<Pending> {
        self.inbound@
    }

    /// The responses delivered so far, keyed by ticket.
    pub closed spec fn delivered(self) -> Map<u64, ScriptResponse> {
        delivered_map_of(self.delivered@)
    }

    /// The id the next synchronous query will be stamped with.
    pub closed spec fn next_ticket_id(self) -> u64 {
        self.next_id
    }

    /// Tickets along the pending queue are strictly increasing and fresh;
    /// each ticket has at most one delivered response.
    pub closed spec fn wf(self) -> bool {
        &&& forall|i: int, j: int|
            0 <= i < j < self.inbound@.len() ==> self.inbound@[i].ticket.id
                < self.inbound@[j].ticket.id
        &&& forall|i: int|
            0 <= i < self.inbound@.len() ==> #[trigger] self.inbound@[i].ticket.id < self.next_id
        &&& forall|i: int, j: int|
            0 <= i < j < self.delivered@.len() ==> self.delivered@[i].ticket.id
                != self.delivered@[j].ticket.id
        &&& forall|i: int|
            0 <= i < self.delivered@.len() ==> #[trigger] self.delivered@[i].ticket.id
                < self.next_id
    }

    /// A fresh bridge: engine alive, nothing pending, nothing delivered.
    pub fn new() -> (b: ScriptBridge)
        ensures
            b.wf(),
            b.engine_alive(),
            b.pending() == Seq::<Pending>::empty(),
            b.delivered() == Map::<u64, ScriptResponse>::empty(),
            b.next_ticket_id() == 0,
    {
        let b = ScriptBridge { alive: true, next_id: 0, inbound: Vec::new(), delivered: Vec::new() };
        proof {
            assert(b.inbound@ =~= Seq::<Pending>::empty());
        }
        b
    }

    /// Hand a query to the engine's inbound queue.
    ///
    /// If the engine has terminated this fails with [`SendError`] carrying
    /// the query back, and the bridge is untouched; the call never blocks
    /// and never panics.  Otherwise the query is appended in send order; a
    /// synchronous query returns its fresh ticket, `Restart` returns no
    /// ticket.
    pub fn send(&mut self, query: ScriptQuery) -> (r: Result<Option<Ticket>, SendError>)
        requires
            old(self).wf(),
            old(self).next_ticket_id() < u64::MAX,
        ensures
            final(self).wf(),
            !old(self).engine_alive() ==> (r == Err::<Option<Ticket>, SendError>(
                SendError { query },
            ) && *final(self) == *old(self)),
            old(self).engine_alive() ==> ({
                &&& final(self).engine_alive()
                &&& final(self).next_ticket_id() == old(self).next_ticket_id() + 1
                &&& final(self).pending() == old(self).pending().push(
                    Pending { ticket: Ticket { id: old(self).next_ticket_id() }, query },
                )
                &&& final(self).delivered() == old(self).delivered()
                &&& query.is_synchronous() ==> r == Ok::<Option<Ticket>, SendError>(
                    Some(Ticket { id: old(self).next_ticket_id() }),
                )
                &&& !query.is_synchronous() ==> r == Ok::<Option<Ticket>, SendError>(None)
            }),
    {
        if !self.alive {
            return Err(SendError { query });
        }
        let id = self.next_id;
        self.next_id = id + 1;
        let ticket = Ticket { id };
        let sync = query.synchronous();
        self.inbound.push(Pending { ticket, query });
        proof {
            assert forall|i: int, j: int|
                0 <= i < j < self.inbound@.len() implies self.inbound@[i].ticket.id
                < self.inbound@[j].ticket.id by {
                if j < self.inbound@.len() - 1 {
                    assert(old(self).inbound@[i].ticket.id < old(self).inbound@[j].ticket.id);
                } else {
                    assert(old(self).inbound@[i].ticket.id < old(self).next_id);
                }
            }
        }
        if sync {
            Ok(Some(ticket))
        } else {
            Ok(None)
        }
    }

    /// The engine loop's consumption step: take the oldest pending query.
    /// Queries leave the queue in exactly the order they were sent.
    pub fn engine_take_next(&mut self) -> (r: Option<Pending>)
        requires
            old(self).wf(),
        ensures
            final(self).wf(),
            old(self).pending().len() == 0 ==> (r is None && *final(self) == *old(self)),
            old(self).pending().len() > 0 ==> ({
                &&& r == Some(old(self).pending()[0])
                &&& final(self).pending() == old(self).pending().drop_first()
                &&& final(self).delivered() == old(self).delivered()
                &&& final(self).engine_alive() == old(self).engine_alive()
                &&& final(self).next_ticket_id() == old(self).next_ticket_id()
            }),
    {
        if self.inbound.len() == 0 {
            return None;
        }
        let p = self.inbound.remove(0);
        proof {
            assert(self.inbound@ =~= old(self).inbound@.drop_first());
            assert forall|i: int, j: int|
                0 <= i < j < self.inbound@.len() implies self.inbound@[i].ticket.id
                < self.inbound@[j].ticket.id by {
                assert(old(self).inbound@[i + 1].ticket.id < old(self).inbound@[j + 1].ticket.id);
            }
            assert(final(self).pending() == old(self).pending().drop_first());
        }
        Some(p)
    }

    /// The engine's delivery step: record the response for one ticket.  A
    /// ticket is delivered to at most once, so a response stays correlated
    /// with the single query that carried its ticket.
    pub fn engine_deliver(&mut self, ticket: Ticket, response: ScriptResponse)
        requires
            old(self).wf(),
            ticket.id < old(self).next_ticket_id(),
            !old(self).delivered().contains_key(ticket.id),
        ensures
            final(self).wf(),
            final(self).delivered() == old(self).delivered().insert(ticket.id, response),
            final(self).pending() == old(self).pending(),
            final(self).engine_alive() == old(self).engine_alive(),
            final(self).next_ticket_id() == old(self).next_ticket_id(),
    {
        proof {
            assert forall|i: int| 0 <= i < self.delivered@.len() implies self.delivered@[i].ticket.id
                != ticket.id by {
                lemma_delivered_map_covers(self.delivered@, i);
            }
        }
        self.delivered.push(DeliveredEntry { ticket, response });
        proof {
            assert(self.delivered@.drop_last() =~= old(self).delivered@);
        }
    }

    /// Look up the response delivered for a ticket.  In the threaded
    /// embedding this is the blocking wait on the sender's side; here it
    /// reports whether the response has been delivered yet, and if so hands
    /// out exactly the response correlated with the ticket.
    pub fn await_result(&self, ticket: Ticket) -> (r: Option<&ScriptResponse>)
        requires
            self.wf(),
        ensures
            self.delivered().contains_key(ticket.id) ==> (r matches Some(resp) && *resp == self
                .delivered()[ticket.id]),
            !self.delivered().contains_key(ticket.id) ==> r is None,
    {
        let n = self.delivered.len();
        let mut i: usize = n;
        while i > 0
            invariant
                i <= n,
                n == self.delivered@.len(),
                self.wf(),
                forall|j: int| i <= j < n ==> self.delivered@[j].ticket.id != ticket.id,
            decreases i,
        {
            i = i - 1;
            let entry = &self.delivered[i];
            if entry.ticket.id == ticket.id {
                proof {
                    lemma_delivered_map_found(self.delivered@, i as int);
                }
                return Some(&entry.response);
            }
        }
        proof {
            lemma_delivered_map_absent(self.delivered@, ticket.id);
        }
        None
    }

    /// Whether another query can still be stamped with a fresh ticket.
    /// Unverified embeddings test this before [`ScriptBridge::send`].
    pub fn has_ticket_capacity(&self) -> (r: bool)
        ensures
            r == (self.next_ticket_id() < u64::MAX),
    {
        self.next_id < u64::MAX
    }

    /// Record that the engine thread has terminated: nothing else changes,
    /// and every later [`ScriptBridge::send`] fails with [`SendError`].
    pub fn engine_terminated(&mut self)
        requires
            old(self).wf(),
        ensures
            final(self).wf(),
            !final(self).engine_alive(),
            final(self).pending() == old(self).pending(),
            final(self).delivered() == old(self).delivered(),
            final(self).next_ticket_id() == old(self).next_ticket_id(),
    {
        self.alive = false;
    }
}

/// Queries are processed in send order: along the pending queue, tickets are
/// strictly increasing, so the single consumer taking from the front always
/// sees queries first-in first-out, however many threads sent them.
pub proof fn lemma_pending_fifo(b: ScriptBridge, i: int, j: int)
    requires
        b.wf(),
        0 <= i < j < b.pending().len(),
    ensures
        b.pending()[i].ticket.id < b.pending()[j].ticket.id,
{
}

/// Two distinct pending queries never share a ticket, so a response
/// delivered for a ticket is correlated with exactly one query.
pub proof fn lemma_tickets_unique(b: ScriptBridge, i: int, j: int)
    requires
        b.wf(),
        0 <= i < b.pending().len(),
        0 <= j < b.pending().len(),
        i != j,
    ensures
        b.pending()[i].ticket != b.pending()[j].ticket,
{
    if i < j {
        lemma_pending_fifo(b, i, j);
    } else {
        lemma_pending_fifo(b, j, i);
    }
}

} // verus!

//! The event-sourced verifier aggregate and its append-only event log.
//!
//! The aggregate's only state is a projection: the latest inserted
//! `IdentityState` per address, folded from the event log. Commands
//! stage events in a pending buffer and update the projection at once
//! (read-your-own-writes before commit); an identical re-submission is
//! a no-op and stages nothing. Commits go to an append-only store under
//! optimistic concurrency: an append must name the version the caller
//! loaded, and fails with a `ConcurrencyConflict` when the log has
//! advanced since, leaving the log unchanged.

use vstd::prelude::*;

use crate::identity::{IdentityState, StateView};
use crate::address::NetworkAddressView;

verus! {

/// The facts the aggregate can append to its log.
#[derive(Clone, Debug)]
pub enum EventType {
    IdentityInserted(IdentityState),
}

/// The mathematical content of an event.
pub ghost enum EventView {
    IdentityInserted(StateView),
}

impl View for EventType {
    type V = EventView;

    closed spec fn view(&self) -> EventView {
        match self {
            EventType::IdentityInserted(s) => EventView::IdentityInserted(s@),
        }
    }
}

impl EventType {
    /// An equal copy of this event body.
    pub fn duplicate(&self) -> (r: EventType)
        ensures
            r@ == self@,
    {
        match self {
            EventType::IdentityInserted(s) => EventType::IdentityInserted(s.duplicate()),
        }
    }
}

impl PartialEq for EventType {
    /// Events are compared by their full content.
    fn eq(&self, other: &Self) -> (r: bool) {
        match (self, other) {
            (EventType::IdentityInserted(a), EventType::IdentityInserted(b)) => a == b,
        }
    }
}

impl vstd::std_specs::cmp::PartialEqSpecImpl for EventType {
    open spec fn obeys_eq_spec() -> bool {
        true
    }

    open spec fn eq_spec(&self, other: &EventType) -> bool {
        self@ == other@
    }
}

/// The envelope of one appended fact; immutable once appended.
#[derive(Clone, Debug)]
pub struct Event {
    pub body: EventType,
}

impl View for Event {
    type V = EventView;

    closed spec fn view(&self) -> EventView {
        self.body@
    }
}

impl Event {
    /// Wrap an event body.
    pub fn new(body: EventType) -> (r: Event)
        ensures
            r@ == body@,
    {
        Event { body }
    }

    /// An equal copy of this event.
    pub fn duplicate(&self) -> (r: Event)
        ensures
            r@ == self@,
    {
        Event { body: self.body.duplicate() }
    }
}

impl PartialEq for Event {
    fn eq(&self, other: &Self) -> (r: bool) {
        self.body == other.body
    }
}

impl vstd::std_specs::cmp::PartialEqSpecImpl for Event {
    open spec fn obeys_eq_spec() -> bool {
        true
    }

    open spec fn eq_spec(&self, other: &Event) -> bool {
        self@ == other@
    }
}

/// The commands the aggregate handles.
#[derive(Clone, Debug)]
pub enum VerifierCommand {
    InsertIdentity(IdentityState),
}

/// The state an event inserts.
pub open spec fn event_state(e: EventView) -> StateView {
    match e {
        EventView::IdentityInserted(s) => s,
    }
}

/// The identity key of a state: its decoded network address.
pub open spec fn state_key(s: StateView) -> NetworkAddressView {
    s.address
}

/// Whether the projection holds a state under this address.
pub open spec fn has_key(p: Seq<StateView>, k: NetworkAddressView) -> bool {
    exists|i: int| 0 <= i < p.len() && state_key(p[i]) == k
}

/// The index of the state under this address.
pub open spec fn key_idx(p: Seq<StateView>, k: NetworkAddressView) -> int {
    choose|i: int| 0 <= i < p.len() && state_key(p[i]) == k
}

/// At most one state per address.
pub open spec fn unique_keys(p: Seq<StateView>) -> bool {
    forall|i: int, j: int|
        0 <= i < j < p.len() ==> state_key(#[trigger] p[i]) != state_key(#[trigger] p[j])
}

/// Whether the projection holds this exact state, by full-value
/// equality: address, all fields and judgement.
pub open spec fn contains_state(p: Seq<StateView>, s: StateView) -> bool {
    exists|i: int| 0 <= i < p.len() && p[i] == s
}

/// Insert a state into a projection: replace the state under the same
/// address, or add the state at the end.
pub open spec fn upsert(p: Seq<StateView>, s: StateView) -> Seq<StateView> {
    if has_key(p, state_key(s)) {
        p.update(key_idx(p, state_key(s)), s)
    } else {
        p.push(s)
    }
}

/// The pure, total fold step shared by live application and replay.
pub open spec fn apply_event(p: Seq<StateView>, e: EventView) -> Seq<StateView> {
    upsert(p, event_state(e))
}

/// The projection denoted by an event log, folded from empty in order.
pub open spec fn fold_events(log: Seq<EventView>) -> Seq<StateView>
    decreases log.len(),
{
    if log.len() == 0 {
        Seq::empty()
    } else {
        apply_event(fold_events(log.drop_last()), log.last())
    }
}

/// The views of a list of states, in order.
pub open spec fn view_of_states(v: Seq<IdentityState>) -> Seq<StateView> {
    Seq::new(v.len(), |i: int| v[i]@)
}

/// The views of a list of events, in order.
pub open spec fn view_of_events(v: Seq<Event>) -> Seq<EventView> {
    Seq::new(v.len(), |i: int| v[i]@)
}

/// An inserted state is visible at once: the projection after an
/// insert holds the inserted state, whether it replaced an entry or
/// was added.
pub proof fn lemma_upsert_contains(p: Seq<StateView>, s: StateView)
    ensures
        contains_state(upsert(p, s), s),
{
    if has_key(p, state_key(s)) {
        let k = key_idx(p, state_key(s));
        assert(upsert(p, s)[k] == s);
    } else {
        assert(upsert(p, s)[p.len() as int] == s);
    }
}

/// Replay extends one event at a time: folding a log with one more
/// event is the fold step applied to the folded log.
pub proof fn lemma_fold_snoc(log: Seq<EventView>, e: EventView)
    ensures
        fold_events(log.push(e)) == apply_event(fold_events(log), e),
{
    assert(log.push(e).drop_last() =~= log);
    assert(log.push(e).last() == e);
}

/// The replay law: for any aggregate reached by replaying a committed
/// log and then handling any sequence of commands, folding its full
/// event history from the empty projection, in order, yields exactly
/// the live in-memory projection. It holds because every constructor
/// and command handler preserves the aggregate's invariant.
pub proof fn lemma_live_matches_replay(agg: &VerifierAggregate)
    requires
        agg.wf(),
    ensures
        agg.proj() == fold_events(agg.full_log()),
{
}

/// Idempotent replay: folding a log is a function of the log alone, so
/// replaying the same log any number of times yields the same
/// projection.
pub proof fn lemma_replay_idempotent(
    first: Seq<StateView>,
    second: Seq<StateView>,
    log: Seq<EventView>,
)
    requires
        first == fold_events(log),
        second == fold_events(log),
    ensures
        first == second,
{
}

/// The singleton verifier aggregate: a projection of the latest state
/// per address, the pending events staged since load, and (as ghost
/// history) the committed log it was replayed from.
pub struct VerifierAggregate {
    states: Vec<IdentityState>,
    pending: Vec<Event>,
    history: Ghost<Seq<EventView>>,
}

impl VerifierAggregate {
    /// The live in-memory projection.
    pub closed spec fn proj(&self) -> Seq<StateView> {
        view_of_states(self.states@)
    }

    /// The staged, not yet committed events.
    pub closed spec fn staged(&self) -> Seq<EventView> {
        view_of_events(self.pending@)
    }

    /// The committed log this aggregate was replayed from.
    pub closed spec fn committed_log(&self) -> Seq<EventView> {
        self.history@
    }

    /// The full event history: committed log, then staged events.
    pub open spec fn full_log(&self) -> Seq<EventView> {
        self.committed_log() + self.staged()
    }

    /// The replay law carried as the aggregate's invariant: the live
    /// projection holds at most one state per address and equals the
    /// fold of the full event history from empty.
    pub open spec fn wf(&self) -> bool {
        &&& unique_keys(self.proj())
        &&& self.proj() == fold_events(self.full_log())
    }

    /// A fresh, empty aggregate.
    pub fn new() -> (r: Self)
        ensures
            r.wf(),
            r.proj() == Seq::<StateView>::empty(),
            r.staged() == Seq::<EventView>::empty(),
            r.committed_log() == Seq::<EventView>::empty(),
    {
        let r = VerifierAggregate {
            states: Vec::new(),
            pending: Vec::new(),
            history: Ghost(Seq::empty()),
        };
        proof {
            assert(r.proj() =~= Seq::<StateView>::empty());
            assert(r.staged() =~= Seq::<EventView>::empty());
            assert(r.full_log() =~= Seq::<EventView>::empty());
        }
        r
    }

    /// Apply one inserted state to the projection: replace under the
    /// same address or add at the end.
    fn apply_insert(&mut self, s: IdentityState)
        requires
            unique_keys(old(self).proj()),
        ensures
            final(self).proj() == upsert(old(self).proj(), s@),
            unique_keys(final(self).proj()),
            final(self).pending@ == old(self).pending@,
            final(self).history@ == old(self).history@,
    {
        let n = self.states.len();
        let mut i: usize = 0;
        while i < n
            invariant
                n == self.states@.len(),
                i <= n,
                *self == *old(self),
                unique_keys(self.proj()),
                forall|j: int|
                    0 <= j < i ==> state_key(#[trigger] self.proj()[j]) != state_key(s@),
            decreases n - i,
        {
            if self.states[i].address().same_address(s.address()) {
                proof {
                    assert(state_key(self.proj()[i as int]) == state_key(s@));
                    assert(has_key(self.proj(), state_key(s@)));
                    let k = key_idx(self.proj(), state_key(s@));
                    assert(0 <= k < self.proj().len() && state_key(self.proj()[k]) == state_key(
                        s@,
                    ));
                    if k < i as int {
                        assert(state_key(self.proj()[k]) != state_key(self.proj()[i as int]));
                    }
                    if (i as int) < k {
                        assert(state_key(self.proj()[i as int]) != state_key(self.proj()[k]));
                    }
                    assert(k == i as int);
                }
                let ghost old_proj = self.proj();
                self.states[i] = s;
                proof {
                    assert(self.proj() =~= old_proj.update(i as int, s@));
                    assert(self.proj() =~= upsert(old_proj, s@));
                    assert forall|a: int, b: int|
                        0 <= a < b < self.proj().len() implies state_key(
                        #[trigger] self.proj()[a],
                    ) != state_key(#[trigger] self.proj()[b]) by {
                        assert(state_key(old_proj[a]) != state_key(old_proj[b]));
                    }
                }
                return ;
            }
            i = i + 1;
        }
        proof {
            assert(!has_key(self.proj(), state_key(s@)));
        }
        let ghost old_proj = self.proj();
        self.states.push(s);
        proof {
            assert(self.proj() =~= old_proj.push(s@));
            assert(self.proj() =~= upsert(old_proj, s@));
            assert forall|a: int, b: int|
                0 <= a < b < self.proj().len() implies state_key(#[trigger] self.proj()[a])
                != state_key(#[trigger] self.proj()[b]) by {
                if b < old_proj.len() {
                    assert(state_key(old_proj[a]) != state_key(old_proj[b]));
                } else {
                    assert(state_key(old_proj[a]) != state_key(s@));
                }
            }
        }
    }

    /// Whether the projection holds this exact state (full-value
    /// equality, not a key match).
    pub fn contains(&self, candidate: &IdentityState) -> (r: bool)
        ensures
            r == contains_state(self.proj(), candidate@),
    {
        let n = self.states.len();
        let mut i: usize = 0;
        while i < n
            invariant
                n == self.states@.len(),
                i <= n,
                forall|j: int| 0 <= j < i ==> #[trigger] self.proj()[j] != candidate@,
            decreases n - i,
        {
            if self.states[i].eq(candidate) {
                proof {
                    assert(self.proj()[i as int] == candidate@);
                }
                return true;
            }
            i = i + 1;
        }
        false
    }

    /// Handle one command. Inserting a state that is already present by
    /// full-value equality is a no-op: nothing is staged and nothing
    /// changes. Otherwise exactly one `IdentityInserted` event is
    /// staged and the projection is updated at once, so later commands
    /// in the same batch observe it. Command handling never fails on a
    /// well-formed command.
    pub fn handle(&mut self, command: VerifierCommand)
        requires
            old(self).wf(),
        ensures
            final(self).wf(),
            match command {
                VerifierCommand::InsertIdentity(c) => {
                    &&& contains_state(final(self).proj(), c@)
                    &&& if contains_state(old(self).proj(), c@) {
                        *final(self) == *old(self)
                    } else {
                        &&& final(self).committed_log() == old(self).committed_log()
                        &&& final(self).staged() == old(self).staged().push(
                            EventView::IdentityInserted(c@),
                        )
                        &&& final(self).proj() == upsert(old(self).proj(), c@)
                    }
                },
            },
    {
        match command {
            VerifierCommand::InsertIdentity(c) => {
                if self.contains(&c) {
                    return ;
                }
                let staged = c.duplicate();
                let ghost old_staged = self.staged();
                let ghost old_full = self.full_log();
                proof {
                    lemma_upsert_contains(self.proj(), c@);
                }
                self.apply_insert(c);
                self.pending.push(Event { body: EventType::IdentityInserted(staged) });
                proof {
                    let e = EventView::IdentityInserted(staged@);
                    assert(self.staged() =~= old_staged.push(e));
                    assert(self.full_log() =~= old_full.push(e));
                    lemma_fold_snoc(old_full, e);
                }
            },
        }
    }

    /// The live projection's states.
    pub fn state(&self) -> (r: &Vec<IdentityState>)
        ensures
            view_of_states(r@) == self.proj(),
    {
        &self.states
    }

    /// The staged events.
    pub fn pending(&self) -> (r: &Vec<Event>)
        ensures
            view_of_events(r@) == self.staged(),
    {
        &self.pending
    }

    /// Move the staged events out for commit; they count as committed
    /// history from here on, and the projection does not change.
    pub fn take_pending(&mut self) -> (r: Vec<Event>)
        requires
            old(self).wf(),
        ensures
            final(self).wf(),
            view_of_events(r@) == old(self).staged(),
            final(self).staged() == Seq::<EventView>::empty(),
            final(self).proj() == old(self).proj(),
            final(self).committed_log() == old(self).committed_log() + old(self).staged(),
    {
        let mut out: Vec<Event> = Vec::new();
        core::mem::swap(&mut self.pending, &mut out);
        proof {
            self.history@ = self.history@ + view_of_events(out@);
        }
        proof {
            assert(self.staged() =~= Seq::<EventView>::empty());
            assert(self.full_log() =~= self.history@);
            assert(old(self).full_log() =~= self.history@);
        }
        out
    }

    /// Reconstruct an aggregate by replaying a committed log from
    /// empty, in order. Deterministic and safe to run any number of
    /// times: the projection is exactly the fold of the log.
    pub fn from_events(events: &Vec<Event>) -> (r: Self)
        ensures
            r.wf(),
            r.committed_log() == view_of_events(events@),
            r.staged() == Seq::<EventView>::empty(),
            r.proj() == fold_events(view_of_events(events@)),
    {
        let mut agg = VerifierAggregate::new();
        let n = events.len();
        let mut i: usize = 0;
        while i < n
            invariant
                n == events@.len(),
                i <= n,
                unique_keys(agg.proj()),
                agg.staged() == Seq::<EventView>::empty(),
                agg.committed_log() == view_of_events(events@).subrange(0, i as int),
                agg.proj() == fold_events(agg.committed_log()),
            decreases n - i,
        {
            let s = match &events[i].body {
                EventType::IdentityInserted(st) => st.duplicate(),
            };
            let ghost old_log = agg.committed_log();
            agg.apply_insert(s);
            proof {
                agg.history@ = agg.history@.push(events@[i as int]@);
            }
            proof {
                let e = events@[i as int]@;
                assert(event_state(e) == s@);
                lemma_fold_snoc(old_log, e);
                assert(agg.committed_log() =~= view_of_events(events@).subrange(0, i + 1));
            }
            i = i + 1;
        }
        proof {
            assert(view_of_events(events@).subrange(0, n as int) =~= view_of_events(events@));
            assert(agg.full_log() =~= agg.committed_log());
        }
        agg
    }
}

/// Commit-time conflict: the log advanced since the caller's load.
/// Recoverable by reloading and re-deriving the commands; never a sign
/// of data corruption.
#[derive(Clone, Copy, Debug, PartialEq, Eq, Structural)]
pub struct ConcurrencyConflict;

/// One persisted record: a strictly increasing sequence number,
/// starting at 1, and the event body.
#[derive(Clone, Debug)]
pub struct EventRecord {
    pub sequence: usize,
    pub event: Event,
}

/// The views of a list of records, in order.
pub open spec fn log_view(records: Seq<EventRecord>) -> Seq<EventView> {
    Seq::new(records.len(), |i: int| records[i].event@)
}

/// An in-memory append-only event log for a single aggregate, with
/// optimistic concurrency: an append names the version its caller
/// loaded and fails if the log has advanced since.
pub struct EventStore {
    records: Vec<EventRecord>,
}

impl EventStore {
    /// The log's events, in append order.
    pub closed spec fn log(&self) -> Seq<EventView> {
        log_view(self.records@)
    }

    /// Record `i` carries sequence number `i + 1`.
    pub closed spec fn wf(&self) -> bool {
        forall|i: int|
            0 <= i < self.records@.len() ==> (#[trigger] self.records@[i]).sequence == i + 1
    }

    /// An empty log.
    pub fn new() -> (r: Self)
        ensures
            r.wf(),
            r.log() == Seq::<EventView>::empty(),
    {
        let r = EventStore { records: Vec::new() };
        proof {
            assert(r.log() =~= Seq::<EventView>::empty());
        }
        r
    }

    /// The version marker to hand back at commit: the log length.
    pub fn version(&self) -> (r: usize)
        ensures
            r == self.log().len(),
    {
        self.records.len()
    }

    /// The persisted records, for inspection.
    pub fn records(&self) -> (r: &Vec<EventRecord>)
        ensures
            log_view(r@) == self.log(),
            r@.len() == self.log().len(),
    {
        &self.records
    }

    /// Copies of the logged events, in order, for replay.
    pub fn events(&self) -> (r: Vec<Event>)
        ensures
            view_of_events(r@) == self.log(),
    {
        let mut out: Vec<Event> = Vec::new();
        let n = self.records.len();
        let mut i: usize = 0;
        while i < n
            invariant
                n == self.records@.len(),
                i <= n,
                out@.len() == i,
                forall|j: int| 0 <= j < i ==> #[trigger] out@[j]@ == self.records@[j].event@,
            decreases n - i,
        {
            out.push(self.records[i].event.duplicate());
            i = i + 1;
        }
        proof {
            assert(view_of_events(out@) =~= self.log());
        }
        out
    }

    /// Load the aggregate: the projection replayed from the log, and
    /// the version marker a later `append` must present.
    pub fn load(&self) -> (r: (VerifierAggregate, usize))
        ensures
            r.0.wf(),
            r.0.committed_log() == self.log(),
            r.0.staged() == Seq::<EventView>::empty(),
            r.0.proj() == fold_events(self.log()),
            r.1 == self.log().len(),
    {
        let events = self.events();
        let aggregate = VerifierAggregate::from_events(&events);
        (aggregate, self.records.len())
    }

    /// Append a batch atomically under optimistic concurrency: succeeds
    /// exactly when `expected_version` is the current version, and then
    /// appends every event of the batch, in order, with consecutive
    /// sequence numbers; on a conflict the log is unchanged.
    pub fn append(&mut self, expected_version: usize, batch: Vec<Event>) -> (r: Result<
        (),
        ConcurrencyConflict,
    >)
        requires
            old(self).wf(),
            old(self).log().len() + batch@.len() <= usize::MAX,
        ensures
            final(self).wf(),
            match r {
                Ok(_) => expected_version == old(self).log().len() && final(self).log() == old(
                    self,
                ).log() + view_of_events(batch@),
                Err(_) => expected_version != old(self).log().len() && *final(self) == *old(self),
            },
    {
        if expected_version != self.records.len() {
            return Err(ConcurrencyConflict);
        }
        let ghost old_records = self.records@;
        let n = batch.len();
        let mut i: usize = 0;
        while i < n
            invariant
                n == batch@.len(),
                i <= n,
                self.records@.len() == old_records.len() + i,
                old_records.len() + n <= usize::MAX,
                self.wf(),
                forall|j: int|
                    0 <= j < old_records.len() ==> #[trigger] self.records@[j] == old_records[j],
                forall|j: int|
                    old_records.len() <= j < self.records@.len()
                        ==> (#[trigger] self.records@[j]).event@ == batch@[j - old_records.len()]@,
            decreases n - i,
        {
            let sequence = self.records.len() + 1;
            self.records.push(EventRecord { sequence, event: batch[i].duplicate() });
            i = i + 1;
        }
        proof {
            assert(self.log() =~= log_view(old_records) + view_of_events(batch@));
        }
        Ok(())
    }
}

} // verus!


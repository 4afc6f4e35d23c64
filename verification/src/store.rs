use vstd::prelude::*;

use crate::ticket::{Ticket, TicketModel};

verus! {

/// Why a store operation failed. Any fault of the backing engine is
/// surfaced as one of these, never as a silently empty result.
#[derive(Clone, Copy, Debug, PartialEq, Eq, Structural)]
pub enum StorageError {
    /// The backing engine cannot be reached, so nothing can be read or
    /// committed.
    Unavailable,
    /// The engine answered, but the ticket schema has not been set up, so
    /// the operation had no table to work on.
    SchemaMissing,
}

/// The abstract state of the ticket store: whether its backing engine is
/// reachable, whether the ticket schema exists, the identifier the engine
/// will assign next, and the persisted tickets in creation order.
#[verifier::ext_equal]
pub ghost struct StoreModel {
    pub reachable: bool,
    pub schema_ready: bool,
    pub next_id: nat,
    pub tickets: Seq<TicketModel>,
}

impl StoreModel {
    /// Well-formedness: identifiers strictly increase in creation order
    /// (hence are unique), every identifier is below the next one to be
    /// assigned, and every persisted ticket is itself well formed.
    pub open spec fn wf(self) -> bool {
        &&& forall|i: int, j: int|
            #![trigger self.tickets[i], self.tickets[j]]
            0 <= i < j < self.tickets.len() ==> self.tickets[i].id < self.tickets[j].id
        &&& forall|i: int|
            0 <= i < self.tickets.len() ==> (#[trigger] self.tickets[i]).id < self.next_id
        &&& forall|i: int| 0 <= i < self.tickets.len() ==> (#[trigger] self.tickets[i]).wf()
    }

    /// Whether a store operation succeeds in this state: the engine is
    /// reachable and the schema exists.
    pub open spec fn ok(self) -> bool {
        self.reachable && self.schema_ready
    }

    /// The error a failing operation reports in this state.
    pub open spec fn op_error(self) -> StorageError {
        if !self.reachable {
            StorageError::Unavailable
        } else {
            StorageError::SchemaMissing
        }
    }

    /// The state after the one-time schema setup: on a reachable engine the
    /// schema exists afterwards and nothing else changes; on an unreachable
    /// one nothing changes at all.
    pub open spec fn after_setup(self) -> StoreModel {
        if self.reachable {
            StoreModel { schema_ready: true, ..self }
        } else {
            self
        }
    }

    /// What schema setup returns: success iff the engine is reachable.
    pub open spec fn setup_result(self) -> Result<(), StorageError> {
        if self.reachable {
            Ok(())
        } else {
            Err(StorageError::Unavailable)
        }
    }

    /// The ticket a successful create in this state stores: the given
    /// fields under the freshly assigned identifier.
    pub open spec fn created(
        self,
        owner: Seq<char>,
        description: Seq<char>,
        status: Seq<char>,
    ) -> TicketModel {
        TicketModel { id: self.next_id, owner, description, status }
    }

    /// The state after a create: on success the new ticket is appended and
    /// the next identifier moves past it; on failure nothing changes.
    pub open spec fn after_create(
        self,
        owner: Seq<char>,
        description: Seq<char>,
        status: Seq<char>,
    ) -> StoreModel {
        if self.ok() {
            StoreModel {
                next_id: self.next_id + 1,
                tickets: self.tickets.push(self.created(owner, description, status)),
                ..self
            }
        } else {
            self
        }
    }

    /// What create returns: the stored ticket, or the state's error.
    pub open spec fn create_result(
        self,
        owner: Seq<char>,
        description: Seq<char>,
        status: Seq<char>,
    ) -> Result<TicketModel, StorageError> {
        if self.ok() {
            Ok(self.created(owner, description, status))
        } else {
            Err(self.op_error())
        }
    }

    /// What list-all returns: every persisted ticket in creation order — in
    /// particular the empty sequence, not an error, on an empty store — or
    /// the state's error.
    pub open spec fn list_result(self) -> Result<Seq<TicketModel>, StorageError> {
        if self.ok() {
            Ok(self.tickets)
        } else {
            Err(self.op_error())
        }
    }

    /// What count returns: the number of persisted tickets, or the state's
    /// error.
    pub open spec fn count_result(self) -> Result<nat, StorageError> {
        if self.ok() {
            Ok(self.tickets.len())
        } else {
            Err(self.op_error())
        }
    }
}

/// The ticket store: durable storage and retrieval of tickets. It owns all
/// ticket records; creation is serialized through it, so identifiers never
/// collide. Its backing engine is carried as explicit state, so that an
/// unreachable engine is an answerable condition rather than a crash.
pub struct TicketStore {
    reachable: bool,
    schema_ready: bool,
    next_id: u64,
    tickets: Vec<Ticket>,
}

impl View for TicketStore {
    type V = StoreModel;

    closed spec fn view(&self) -> StoreModel {
        StoreModel {
            reachable: self.reachable,
            schema_ready: self.schema_ready,
            next_id: self.next_id as nat,
            tickets: self.tickets.deep_view(),
        }
    }
}

impl TicketStore {
    /// A fresh store on a reachable engine, before schema setup, holding no
    /// tickets; identifiers start at 1.
    pub fn new() -> (s: TicketStore)
        ensures
            s@ == (StoreModel {
                reachable: true,
                schema_ready: false,
                next_id: 1nat,
                tickets: Seq::<TicketModel>::empty(),
            }),
            s@.wf(),
    {
        let s = TicketStore { reachable: true, schema_ready: false, next_id: 1, tickets: Vec::new() };
        proof {
            assert(s@.tickets =~= Seq::<TicketModel>::empty());
            assert(s@ =~= (StoreModel {
                reachable: true,
                schema_ready: false,
                next_id: 1nat,
                tickets: Seq::<TicketModel>::empty(),
            }));
        }
        s
    }

    /// Marks the backing engine unreachable: every later operation reports
    /// `StorageError::Unavailable` until the engine is back. Nothing that
    /// was persisted is lost.
    pub fn take_offline(&mut self)
        ensures
            final(self)@ == (StoreModel { reachable: false, ..old(self)@ }),
    {
        self.reachable = false;
        proof {
            assert(self@ =~= (StoreModel { reachable: false, ..old(self)@ }));
        }
    }

    /// One-time schema setup, safe to run on every startup: ensures the
    /// ticket schema exists. Idempotent — a second call changes nothing —
    /// and it never touches the persisted tickets.
    pub fn setup_schema(&mut self) -> (r: Result<(), StorageError>)
        ensures
            final(self)@ == old(self)@.after_setup(),
            r == old(self)@.setup_result(),
    {
        if self.reachable {
            self.schema_ready = true;
            proof {
                assert(self@ =~= old(self)@.after_setup());
            }
            Ok(())
        } else {
            Err(StorageError::Unavailable)
        }
    }

    /// Persists one new ticket and returns it with its freshly assigned,
    /// unique identifier. Fails with the state's error — and changes
    /// nothing — iff the engine is unreachable or the schema is missing.
    pub fn create(&mut self, owner: String, description: String, status: String) -> (r: Result<
        Ticket,
        StorageError,
    >)
        requires
            old(self)@.wf(),
            old(self)@.next_id < u64::MAX,
            owner@.len() > 0,
            description@.len() > 0,
        ensures
            final(self)@ == old(self)@.after_create(owner@, description@, status@),
            final(self)@.wf(),
            match r {
                Ok(t) => old(self)@.ok() && t@ == old(self)@.created(owner@, description@, status@),
                Err(e) => !old(self)@.ok() && e == old(self)@.op_error(),
            },
    {
        if !self.reachable {
            return Err(StorageError::Unavailable);
        }
        if !self.schema_ready {
            return Err(StorageError::SchemaMissing);
        }
        let id = self.next_id;
        let t = Ticket { id, owner, description, status };
        let stored = t.duplicate();
        self.tickets.push(stored);
        self.next_id = id + 1;
        proof {
            let m = old(self)@;
            let tm = m.created(t.owner@, t.description@, t.status@);
            assert(self.tickets.deep_view() =~= m.tickets.push(tm));
            assert(self@ =~= m.after_create(t.owner@, t.description@, t.status@));
            assert forall|i: int, j: int|
                0 <= i < j < self@.tickets.len() implies (#[trigger] self@.tickets[i]).id < (
            #[trigger] self@.tickets[j]).id by {
                if j < m.tickets.len() as int {
                } else {
                    assert(self@.tickets[j] == tm);
                }
            }
        }
        Ok(t)
    }

    /// Returns every persisted ticket, in creation order. An empty store
    /// yields an empty listing, never an error; only an unreachable engine
    /// or a missing schema makes it fail.
    pub fn list_all(&self) -> (r: Result<Vec<Ticket>, StorageError>)
        ensures
            match r {
                Ok(v) => self@.ok() && v.deep_view() == self@.tickets,
                Err(e) => !self@.ok() && e == self@.op_error(),
            },
    {
        if !self.reachable {
            return Err(StorageError::Unavailable);
        }
        if !self.schema_ready {
            return Err(StorageError::SchemaMissing);
        }
        let mut out: Vec<Ticket> = Vec::new();
        let mut i: usize = 0;
        while i < self.tickets.len()
            invariant
                i <= self.tickets.len(),
                out@.len() == i as nat,
                forall|j: int| 0 <= j < i ==> out@[j].deep_view() == self.tickets@[j].deep_view(),
            decreases self.tickets.len() - i,
        {
            let t = self.tickets[i].duplicate();
            out.push(t);
            i += 1;
        }
        proof {
            assert(out.deep_view() =~= self@.tickets);
        }
        Ok(out)
    }

    /// Whether the engine still has an unassigned identifier to hand out —
    /// the one machine limit a caller must respect before creating.
    pub fn has_id_headroom(&self) -> (r: bool)
        ensures
            r == (self@.next_id < u64::MAX),
    {
        self.next_id < u64::MAX
    }

    /// The number of persisted tickets: always the length of what list-all
    /// returns, and failing in exactly the states where list-all fails.
    pub fn count(&self) -> (r: Result<usize, StorageError>)
        ensures
            match r {
                Ok(n) => self@.ok() && n as nat == self@.tickets.len(),
                Err(e) => !self@.ok() && e == self@.op_error(),
            },
    {
        if !self.reachable {
            return Err(StorageError::Unavailable);
        }
        if !self.schema_ready {
            return Err(StorageError::SchemaMissing);
        }
        Ok(self.tickets.len())
    }
}

/// Law: a create on a working store preserves well-formedness, and the
/// identifier it assigns differs from that of every ticket already stored.
pub proof fn lemma_create_preserves_wf(
    m: StoreModel,
    owner: Seq<char>,
    description: Seq<char>,
    status: Seq<char>,
)
    requires
        m.wf(),
        owner.len() > 0,
        description.len() > 0,
    ensures
        m.after_create(owner, description, status).wf(),
        forall|i: int|
            0 <= i < m.tickets.len() ==> (#[trigger] m.tickets[i]).id != m.created(
                owner,
                description,
                status,
            ).id,
{
    if m.ok() {
        let m2 = m.after_create(owner, description, status);
        let t = m.created(owner, description, status);
        assert forall|i: int, j: int| 0 <= i < j < m2.tickets.len() implies (
        #[trigger] m2.tickets[i]).id < (#[trigger] m2.tickets[j]).id by {
            if j == m.tickets.len() as int {
                assert(m2.tickets[j] == t);
            }
        }
    }
}

/// Law: for any valid fields, a successful create followed by list-all
/// shows the old tickets plus exactly one record matching the freshly
/// assigned identifier — the created ticket, at the end of the listing.
pub proof fn lemma_create_then_list(
    m: StoreModel,
    owner: Seq<char>,
    description: Seq<char>,
    status: Seq<char>,
)
    requires
        m.wf(),
        m.ok(),
        owner.len() > 0,
        description.len() > 0,
    ensures
        ({
            let m2 = m.after_create(owner, description, status);
            let t = m.created(owner, description, status);
            &&& m2.list_result() == Ok::<Seq<TicketModel>, StorageError>(m2.tickets)
            &&& m2.tickets == m.tickets.push(t)
            &&& m2.tickets[m2.tickets.len() - 1] == t
            &&& forall|i: int|
                0 <= i < m2.tickets.len() && (#[trigger] m2.tickets[i]).id == t.id ==> i
                    == m.tickets.len() as int && m2.tickets[i] == t
        }),
{
    lemma_create_preserves_wf(m, owner, description, status);
}

/// Law: list-all on an empty, set-up, reachable store returns the empty
/// sequence, not an error.
pub proof fn lemma_list_empty(m: StoreModel)
    requires
        m.ok(),
        m.tickets.len() == 0,
    ensures
        m.list_result() == Ok::<Seq<TicketModel>, StorageError>(Seq::<TicketModel>::empty()),
{
    assert(m.tickets =~= Seq::<TicketModel>::empty());
}

/// Law: schema setup is idempotent — running it twice in a row leaves the
/// state exactly as one run leaves it — and it never loses existing data:
/// the persisted tickets and the next identifier are untouched.
pub proof fn lemma_setup_idempotent(m: StoreModel)
    ensures
        m.after_setup().after_setup() == m.after_setup(),
        m.after_setup().tickets == m.tickets,
        m.after_setup().next_id == m.next_id,
{
    assert(m.after_setup().after_setup() =~= m.after_setup());
}

/// Law: count always agrees with list-all — whenever one succeeds so does
/// the other, the count equals the listing's length, and when they fail
/// they report the same error.
pub proof fn lemma_count_equals_list_len(m: StoreModel)
    ensures
        m.count_result() matches Ok(n) ==> m.list_result() == Ok::<Seq<TicketModel>, StorageError>(
            m.tickets,
        ) && n == m.tickets.len(),
        m.count_result() matches Err(e) ==> m.list_result() == Err::<
            Seq<TicketModel>,
            StorageError,
        >(e),
{
}

/// One create request: the fields a caller supplies.
#[verifier::ext_equal]
pub ghost struct CreateRequest {
    pub owner: Seq<char>,
    pub description: Seq<char>,
    pub status: Seq<char>,
}

impl CreateRequest {
    /// A request is valid when its owner and description are non-empty.
    pub open spec fn wf(self) -> bool {
        self.owner.len() > 0 && self.description.len() > 0
    }
}

/// The store state after serving a sequence of create requests, one at a
/// time in order — the store serializes identifier assignment, so any
/// interleaving of concurrent creates is some such sequence.
pub open spec fn after_creates(m: StoreModel, reqs: Seq<CreateRequest>) -> StoreModel
    decreases reqs.len(),
{
    if reqs.len() == 0 {
        m
    } else {
        after_creates(
            m.after_create(reqs[0].owner, reqs[0].description, reqs[0].status),
            reqs.drop_first(),
        )
    }
}

/// Law: on a working store, any number of valid create requests all
/// succeed — each is served in a state where creation still succeeds — and
/// afterwards the store holds one ticket per request, every ticket carrying
/// an identifier distinct from every other's.
pub proof fn lemma_creates_distinct_ids(m: StoreModel, reqs: Seq<CreateRequest>)
    requires
        m.wf(),
        m.ok(),
        forall|k: int| 0 <= k < reqs.len() ==> (#[trigger] reqs[k]).wf(),
    ensures
        ({
            let m2 = after_creates(m, reqs);
            &&& m2.wf()
            &&& m2.ok()
            &&& m2.tickets.len() == m.tickets.len() + reqs.len()
            &&& forall|i: int, j: int|
                #![trigger m2.tickets[i], m2.tickets[j]]
                0 <= i < j < m2.tickets.len() ==> m2.tickets[i].id != m2.tickets[j].id
        }),
    decreases reqs.len(),
{
    if reqs.len() == 0 {
    } else {
        let r = reqs[0];
        let m1 = m.after_create(r.owner, r.description, r.status);
        lemma_create_preserves_wf(m, r.owner, r.description, r.status);
        assert(forall|k: int|
            0 <= k < reqs.drop_first().len() ==> (#[trigger] reqs.drop_first()[k]).wf());
        lemma_creates_distinct_ids(m1, reqs.drop_first());
    }
}

} // verus!

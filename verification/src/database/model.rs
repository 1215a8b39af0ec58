//! The store as mathematics: four tables of rows, the constraints that hold
//! between them, and what each operation of the engine does to them.

use vstd::prelude::*;

use crate::sdk::agent::structure::DefaultsData;
use crate::sdk::interactions::{BlockData, Meta, SessionData};

verus! {

/// A row of the agents table.
pub struct AgentRowData {
    pub id: u128,
    pub created_at: i64,
    pub updated_at: i64,
    pub name: Seq<char>,
    pub defaults: DefaultsData,
}

/// The four tables. Sessions and agents stand in the order in which they
/// were inserted, transcript entries in the order of their creation time.
/// The meta table holds at most one row.
pub struct EngineData {
    pub agents: Seq<AgentRowData>,
    pub sessions: Seq<SessionData>,
    pub blocks: Seq<BlockData>,
    pub meta: Option<Meta>,
}

/// The entries of session `id`.
pub open spec fn belongs_to(id: u128) -> spec_fn(BlockData) -> bool {
    |b: BlockData| b.interaction_id == id
}

/// No entry stands before an older one.
pub open spec fn ordered_by_time(blocks: Seq<BlockData>) -> bool {
    forall|i: int, j: int|
        0 <= i <= j < blocks.len() ==> (#[trigger] blocks[i]).created_at <= (
        #[trigger] blocks[j]).created_at
}

/// Where an entry created at `t` goes in a table ordered by time: behind
/// every entry that is not younger than it.
pub open spec fn slot(blocks: Seq<BlockData>, t: i64) -> int
    decreases blocks.len(),
{
    if blocks.len() == 0 {
        0
    } else if blocks.last().created_at <= t {
        blocks.len() as int
    } else {
        slot(blocks.drop_last(), t)
    }
}

impl EngineData {
    /// The store with no row in any table.
    pub open spec fn empty() -> EngineData {
        EngineData { agents: Seq::empty(), sessions: Seq::empty(), blocks: Seq::empty(), meta: None }
    }

    /// Whether a session with identity `id` is stored.
    pub open spec fn has_session(self, id: u128) -> bool {
        exists|i: int| 0 <= i < self.sessions.len() && (#[trigger] self.sessions[i]).id == id
    }

    /// Where the session with identity `id` stands; meaningful where there
    /// is one.
    pub open spec fn session_index(self, id: u128) -> int {
        choose|i: int| 0 <= i < self.sessions.len() && (#[trigger] self.sessions[i]).id == id
    }

    /// The session with identity `id`; meaningful where there is one.
    pub open spec fn session(self, id: u128) -> SessionData {
        self.sessions[self.session_index(id)]
    }

    /// Whether a transcript entry with identity `id` is stored.
    pub open spec fn has_block(self, id: u128) -> bool {
        exists|i: int| 0 <= i < self.blocks.len() && (#[trigger] self.blocks[i]).id == id
    }

    /// Whether an agent with identity `id` is stored.
    pub open spec fn has_agent(self, id: u128) -> bool {
        exists|i: int| 0 <= i < self.agents.len() && (#[trigger] self.agents[i]).id == id
    }

    /// The whole transcript of session `id`, oldest entry first.
    pub open spec fn transcript(self, id: u128) -> Seq<BlockData> {
        self.blocks.filter(belongs_to(id))
    }

    /// The transcript window of session `id`: its `limit` oldest entries,
    /// oldest first, or the whole transcript where it has no more than that.
    pub open spec fn window(self, id: u128, limit: usize) -> Seq<BlockData> {
        let all = self.transcript(id);
        if limit < all.len() {
            all.take(limit as int)
        } else {
            all
        }
    }

    /// No two stored sessions share an identity.
    pub open spec fn sessions_unique(self) -> bool {
        forall|i: int, j: int|
            0 <= i < j < self.sessions.len() ==> (#[trigger] self.sessions[i]).id != (
            #[trigger] self.sessions[j]).id
    }

    /// No two transcript entries share an identity.
    pub open spec fn blocks_unique(self) -> bool {
        forall|i: int, j: int|
            0 <= i < j < self.blocks.len() ==> (#[trigger] self.blocks[i]).id != (
            #[trigger] self.blocks[j]).id
    }

    /// No two agents share an identity.
    pub open spec fn agents_unique(self) -> bool {
        forall|i: int, j: int|
            0 <= i < j < self.agents.len() ==> (#[trigger] self.agents[i]).id != (
            #[trigger] self.agents[j]).id
    }

    /// Every transcript entry belongs to a stored session.
    pub open spec fn blocks_owned(self) -> bool {
        forall|k: int|
            0 <= k < self.blocks.len() ==> self.has_session((#[trigger] self.blocks[k]).interaction_id)
    }

    /// The constraints of the store: identities are unique within a table,
    /// stored sessions carry no agent, every transcript entry belongs to a
    /// stored session, the default pointer names a stored session, and the
    /// transcript table is ordered by creation time.
    pub open spec fn wf(self) -> bool {
        &&& self.sessions_unique()
        &&& forall|i: int| 0 <= i < self.sessions.len() ==> (#[trigger] self.sessions[i]).agent.is_none()
        &&& self.blocks_unique()
        &&& self.agents_unique()
        &&& self.blocks_owned()
        &&& self.meta matches Some(m) ==> self.has_session(m.default_interaction_id)
        &&& ordered_by_time(self.blocks)
    }

    /// The store with one more session.
    pub open spec fn with_session(self, row: SessionData) -> EngineData {
        EngineData { sessions: self.sessions.push(row), ..self }
    }

    /// The store with one more agent.
    pub open spec fn with_agent_row(self, row: AgentRowData) -> EngineData {
        EngineData { agents: self.agents.push(row), ..self }
    }

    /// The store with one more transcript entry, put in its place by
    /// creation time.
    pub open spec fn with_block(self, row: BlockData) -> EngineData {
        EngineData { blocks: self.blocks.insert(slot(self.blocks, row.created_at), row), ..self }
    }

    /// The store with session `id` replaced by `row`.
    pub open spec fn with_session_replaced(self, id: u128, row: SessionData) -> EngineData {
        EngineData { sessions: self.sessions.update(self.session_index(id), row), ..self }
    }

    /// The store after the persona of session `id` was rewritten at `now`.
    pub open spec fn with_constitution(self, id: u128, text: Seq<char>, now: i64) -> EngineData {
        self.with_session_replaced(
            id,
            SessionData { constitution: text, updated_at: now, ..self.session(id) },
        )
    }

    /// The store after the scratch buffer of session `id` was set at `now`.
    pub open spec fn with_short_term_memory(
        self,
        id: u128,
        text: Seq<char>,
        now: i64,
    ) -> EngineData {
        self.with_session_replaced(
            id,
            SessionData { short_term_memory: text, updated_at: now, ..self.session(id) },
        )
    }

    /// The store after session `id` was marked as updated at `now`.
    pub open spec fn touched(self, id: u128, now: i64) -> EngineData {
        self.with_session_replaced(id, SessionData { updated_at: now, ..self.session(id) })
    }

    /// The store after the default session was asked for. Where a meta row
    /// is there, nothing changes. Where none is, a session is created from
    /// `defaults` and the meta row that points at it, both at once; where
    /// the identity meant for the session is taken, nothing changes.
    pub open spec fn bootstrapped(
        self,
        defaults: DefaultsData,
        session_id: u128,
        meta_id: u128,
        now: i64,
    ) -> EngineData {
        if self.meta.is_some() || self.has_session(session_id) {
            self
        } else {
            self.with_session(
                SessionData::fresh(
                    session_id,
                    now,
                    defaults.user_name,
                    defaults.constitution,
                    defaults.memory_size,
                ),
            ).with_meta(
                Meta {
                    id: meta_id,
                    created_at: now,
                    updated_at: now,
                    default_interaction_id: session_id,
                },
            )
        }
    }

    /// The store after a turn on session `id`: the inbound entry is stored,
    /// then the outbound entry, and the session is marked as updated at
    /// `now`.
    pub open spec fn after_turn(
        self,
        id: u128,
        inbound: BlockData,
        outbound: BlockData,
        now: i64,
    ) -> EngineData {
        self.with_block(inbound).with_block(outbound).touched(id, now)
    }

    /// The store once its default session is there: the store itself where
    /// it has a meta row, else the store with the default session and the
    /// meta row `meta` made from `defaults`.
    pub open spec fn default_ready(self, defaults: DefaultsData, meta: Meta) -> EngineData {
        if self.meta.is_some() {
            self
        } else {
            self.bootstrapped(defaults, meta.default_interaction_id, meta.id, meta.created_at)
        }
    }

    /// The store with `meta` as its one meta row.
    pub open spec fn with_meta(self, meta: Meta) -> EngineData {
        EngineData { meta: Some(meta), ..self }
    }
}

/// A session found at a position is the session of its identity.
pub proof fn lemma_session_at(e: EngineData, i: int)
    requires
        e.sessions_unique(),
        0 <= i < e.sessions.len(),
    ensures
        e.has_session(e.sessions[i].id),
        e.session_index(e.sessions[i].id) == i,
        e.session(e.sessions[i].id) == e.sessions[i],
{
}

/// An identity that no position holds is not in the table.
pub proof fn lemma_session_absent(e: EngineData, id: u128)
    requires
        forall|k: int| 0 <= k < e.sessions.len() ==> (#[trigger] e.sessions[k]).id != id,
    ensures
        !e.has_session(id),
{
}

/// Inserting a session with a new identity keeps the constraints, and
/// changes nothing of what was stored.
pub proof fn lemma_with_session(e: EngineData, row: SessionData)
    requires
        e.wf(),
        !e.has_session(row.id),
        row.agent.is_none(),
    ensures
        e.with_session(row).wf(),
        e.with_session(row).has_session(row.id),
        e.with_session(row).session(row.id) == row,
        forall|id: u128| #[trigger]
            e.has_session(id) ==> e.with_session(row).has_session(id) && e.with_session(
                row,
            ).session(id) == e.session(id),
{
    let n = e.with_session(row);
    let last = e.sessions.len() as int;
    assert forall|id: u128| #[trigger] e.has_session(id) implies n.has_session(id) && n.session(id)
        == e.session(id) by {
        let k = e.session_index(id);
        lemma_session_at(e, k);
        lemma_session_at(n, k);
    }
    lemma_session_at(n, last);
}

/// In a table ordered by time, the slot of `t` parts the entries that are
/// not younger than `t` from those that are.
pub proof fn lemma_slot(blocks: Seq<BlockData>, t: i64)
    requires
        ordered_by_time(blocks),
    ensures
        0 <= slot(blocks, t) <= blocks.len(),
        forall|i: int| 0 <= i < slot(blocks, t) ==> (#[trigger] blocks[i]).created_at <= t,
        forall|i: int| slot(blocks, t) <= i < blocks.len() ==> (#[trigger] blocks[i]).created_at > t,
    decreases blocks.len(),
{
    if blocks.len() == 0 {
    } else if blocks.last().created_at <= t {
    } else {
        let front = blocks.drop_last();
        lemma_slot(front, t);
        assert forall|i: int| slot(blocks, t) <= i < blocks.len() implies (#[trigger] blocks[i]).created_at
            > t by {
            if i < front.len() {
                assert(front[i].created_at > t);
            }
        }
        assert forall|i: int| 0 <= i < slot(blocks, t) implies (#[trigger] blocks[i]).created_at
            <= t by {
            assert(front[i].created_at <= t);
        }
    }
}

/// The slot is the only position that parts a table in this way.
pub proof fn lemma_slot_unique(blocks: Seq<BlockData>, t: i64, p: int)
    requires
        0 <= p <= blocks.len(),
        forall|i: int| 0 <= i < p ==> (#[trigger] blocks[i]).created_at <= t,
        forall|i: int| p <= i < blocks.len() ==> (#[trigger] blocks[i]).created_at > t,
    ensures
        slot(blocks, t) == p,
    decreases blocks.len(),
{
    if blocks.len() == 0 {
    } else if blocks.last().created_at <= t {
    } else {
        let front = blocks.drop_last();
        lemma_slot_unique(front, t, p);
    }
}

/// Inserting a transcript entry with a new identity, for a stored session,
/// keeps the constraints and leaves every other table as it was.
pub proof fn lemma_with_block(e: EngineData, row: BlockData)
    requires
        e.wf(),
        !e.has_block(row.id),
        e.has_session(row.interaction_id),
    ensures
        e.with_block(row).wf(),
        e.with_block(row).blocks.len() == e.blocks.len() + 1,
        forall|id: u128| #[trigger]
            e.with_block(row).has_block(id) == (e.has_block(id) || id == row.id),
{
    let n = e.with_block(row);
    let k = slot(e.blocks, row.created_at);
    lemma_slot(e.blocks, row.created_at);
    assert(n.blocks[k] == row);
    assert forall|id: u128| #[trigger] n.has_block(id) == (e.has_block(id) || id == row.id) by {
        if e.has_block(id) {
            let i = choose|i: int| 0 <= i < e.blocks.len() && (#[trigger] e.blocks[i]).id == id;
            let ni = if i < k { i } else { i + 1 };
            assert(n.blocks[ni].id == id);
        }
    }
    assert forall|i: int| 0 <= i < n.blocks.len() && i != k implies (#[trigger] n.blocks[i])
        == e.blocks[if i < k { i } else { i - 1 }] by {}
}

/// An entry found at a position is in the table.
pub proof fn lemma_block_at(e: EngineData, i: int)
    requires
        0 <= i < e.blocks.len(),
    ensures
        e.has_block(e.blocks[i].id),
{
}

/// Replacing a stored session by a row of the same identity keeps the
/// constraints, and changes no other session.
pub proof fn lemma_with_session_replaced(e: EngineData, id: u128, row: SessionData)
    requires
        e.wf(),
        e.has_session(id),
        row.id == id,
        row.agent.is_none(),
    ensures
        e.with_session_replaced(id, row).wf(),
        e.with_session_replaced(id, row).session(id) == row,
        forall|other: u128| #[trigger]
            e.with_session_replaced(id, row).has_session(other) == e.has_session(other),
        forall|other: u128|
            other != id && e.has_session(other) ==> #[trigger] e.with_session_replaced(
                id,
                row,
            ).session(other) == e.session(other),
{
    let n = e.with_session_replaced(id, row);
    let k = e.session_index(id);
    assert forall|other: u128| #[trigger] n.has_session(other) == e.has_session(other) by {
        if e.has_session(other) {
            let i = e.session_index(other);
            assert(n.sessions[i].id == other);
        }
    }
    lemma_session_at(n, k);
    assert forall|other: u128| other != id && e.has_session(other) implies #[trigger] n.session(
        other,
    ) == e.session(other) by {
        let i = e.session_index(other);
        lemma_session_at(e, i);
        lemma_session_at(n, i);
    }
}

/// Inserting an agent with a new identity keeps the constraints.
pub proof fn lemma_with_agent_row(e: EngineData, row: AgentRowData)
    requires
        e.wf(),
        !e.has_agent(row.id),
    ensures
        e.with_agent_row(row).wf(),
        e.with_agent_row(row).has_agent(row.id),
{
    let n = e.with_agent_row(row);
    let last = e.agents.len() as int;
    assert(n.agents[last] == row);
}

/// The transcript of a session is ordered by time, and holds entries of
/// that session only.
pub proof fn lemma_transcript(blocks: Seq<BlockData>, id: u128)
    requires
        ordered_by_time(blocks),
    ensures
        ordered_by_time(blocks.filter(belongs_to(id))),
        blocks.filter(belongs_to(id)).len() <= blocks.len(),
        forall|i: int|
            0 <= i < blocks.filter(belongs_to(id)).len() ==> (#[trigger] blocks.filter(
                belongs_to(id),
            )[i]).interaction_id == id,
        forall|i: int|
            0 <= i < blocks.filter(belongs_to(id)).len() ==> blocks.contains(
                #[trigger] blocks.filter(belongs_to(id))[i],
            ),
    decreases blocks.len(),
{
    reveal(Seq::filter);
    if blocks.len() > 0 {
        let front = blocks.drop_last();
        lemma_transcript(front, id);
    }
}

/// A transcript window holds no more entries than its limit, holds entries
/// of its session only, and is ordered by creation time, oldest first; it
/// is the transcript's beginning.
pub proof fn lemma_window(e: EngineData, id: u128, limit: usize)
    requires
        ordered_by_time(e.blocks),
    ensures
        e.window(id, limit).len() <= limit,
        e.window(id, limit).len() <= e.transcript(id).len(),
        e.window(id, limit) == e.transcript(id).take(e.window(id, limit).len() as int),
        ordered_by_time(e.window(id, limit)),
        forall|i: int|
            0 <= i < e.window(id, limit).len() ==> (#[trigger] e.window(id, limit)[i]).interaction_id
                == id,
{
    lemma_transcript(e.blocks, id);
}

/// A transcript holds entries of its session only.
pub proof fn lemma_transcript_members(blocks: Seq<BlockData>, id: u128)
    ensures
        forall|i: int|
            0 <= i < blocks.filter(belongs_to(id)).len() ==> (#[trigger] blocks.filter(
                belongs_to(id),
            )[i]).interaction_id == id,
    decreases blocks.len(),
{
    reveal(Seq::filter);
    if blocks.len() > 0 {
        lemma_transcript_members(blocks.drop_last(), id);
    }
}

} // verus!

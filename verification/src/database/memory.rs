//! The memory engine: the one owner of the store. Sessions, transcript
//! entries, agents and the default pointer are created, read and updated
//! through it and through nothing else.

use std::marker::PhantomData;
use vstd::prelude::*;

use crate::backend::interface::AgentBackend;
use crate::database::model::{
    belongs_to, lemma_block_at, lemma_session_absent, lemma_session_at, lemma_transcript_members,
    lemma_window, lemma_with_agent_row, lemma_with_block, lemma_with_session,
    lemma_with_session_replaced, ordered_by_time, slot, AgentRowData, EngineData,
};
use crate::database::scratch::{roll_memory, rolled_memory};
use crate::sdk::agent::structure::{Agent, DefaultInteraction, DefaultsData};
use crate::sdk::interactions::{
    block_rows, clone_text, session_rows, AgentHandle, BlockData, Interaction, InteractionBlock,
    Meta, SessionData, WithAgent, WithoutAgent,
};
use crate::sdk::stamps::{fresh_id, now_micros};

verus! {

/// The constraint that a refused write would have broken.
#[derive(Copy, Debug, PartialEq, Eq, Structural)]
pub enum Constraint {
    /// A row with this identity is in the table already.
    PrimaryKey,
    /// The row refers to a session that is not stored.
    ForeignKey,
}

impl Clone for Constraint {
    fn clone(&self) -> (r: Self)
        ensures
            r == *self,
    {
        *self
    }
}

/// Why the engine did not do what it was asked.
#[derive(Copy, Debug, PartialEq, Eq, Structural)]
pub enum MemoryError {
    /// The operation needs a row that is not there.
    NotFound,
    /// The write was refused, and the store is as it was.
    StoreError(Constraint),
}

impl Clone for MemoryError {
    fn clone(&self) -> (r: Self)
        ensures
            r == *self,
    {
        *self
    }
}

/// A row of the agents table.
#[derive(Debug)]
pub struct AgentRecord {
    pub id: u128,
    pub created_at: i64,
    pub updated_at: i64,
    pub name: String,
    pub default_interaction: DefaultInteraction,
}

impl View for AgentRecord {
    type V = AgentRowData;

    open spec fn view(&self) -> AgentRowData {
        AgentRowData {
            id: self.id,
            created_at: self.created_at,
            updated_at: self.updated_at,
            name: self.name@,
            defaults: self.default_interaction@,
        }
    }
}

impl Clone for AgentRecord {
    fn clone(&self) -> (r: Self)
        ensures
            r == *self,
    {
        AgentRecord {
            id: self.id,
            created_at: self.created_at,
            updated_at: self.updated_at,
            name: self.name.clone(),
            default_interaction: self.default_interaction.clone(),
        }
    }
}

/// The views of a sequence of agent rows.
pub open spec fn agent_rows(agents: Seq<AgentRecord>) -> Seq<AgentRowData> {
    agents.map_values(|a: AgentRecord| a@)
}

/// The store and its operations. Its view is the four tables; every
/// operation keeps their constraints.
#[derive(Debug)]
pub struct MemoryEngine {
    agents: Vec<AgentRecord>,
    sessions: Vec<Interaction<WithoutAgent>>,
    blocks: Vec<InteractionBlock>,
    meta: Option<Meta>,
}

impl View for MemoryEngine {
    type V = EngineData;

    closed spec fn view(&self) -> EngineData {
        EngineData {
            agents: agent_rows(self.agents@),
            sessions: session_rows(self.sessions@),
            blocks: block_rows(self.blocks@),
            meta: self.meta,
        }
    }
}

impl MemoryEngine {
    /// An empty store.
    pub fn new() -> (engine: MemoryEngine)
        ensures
            engine@ == EngineData::empty(),
            engine@.wf(),
    {
        let engine = MemoryEngine {
            agents: Vec::new(),
            sessions: Vec::new(),
            blocks: Vec::new(),
            meta: None,
        };
        assert(engine@.agents =~= Seq::empty());
        assert(engine@.sessions =~= Seq::empty());
        assert(engine@.blocks =~= Seq::empty());
        engine
    }

    /// Where the session with identity `id` stands, if it is stored.
    fn find_session(&self, id: u128) -> (found: Option<usize>)
        requires
            self@.wf(),
        ensures
            match found {
                Some(i) => i < self.sessions.len() && self@.has_session(id) && self@.session_index(
                    id,
                ) == i,
                None => !self@.has_session(id),
            },
    {
        let mut i: usize = 0;
        while i < self.sessions.len()
            invariant
                self@.wf(),
                i <= self.sessions.len(),
                forall|k: int| 0 <= k < i ==> (#[trigger] self@.sessions[k]).id != id,
            decreases self.sessions.len() - i,
        {
            if self.sessions[i].id == id {
                proof {
                    lemma_session_at(self@, i as int);
                }
                return Some(i);
            }
            i += 1;
        }
        proof {
            lemma_session_absent(self@, id);
        }
        None
    }

    /// Looks a session up by its identity. That there is none is an
    /// ordinary answer.
    pub fn get_interaction(&self, id: u128) -> (found: Option<Interaction<WithoutAgent>>)
        requires
            self@.wf(),
        ensures
            match found {
                Some(session) => self@.has_session(id) && session@ == self@.session(id)
                    && session.wf(),
                None => !self@.has_session(id),
            },
    {
        match self.find_session(id) {
            Some(i) => Some(self.sessions[i].clone()),
            None => None,
        }
    }

    /// Stores `row` as a new session, without an agent whatever the row
    /// carries, and hands it back as stored. The write is refused where a
    /// session with its identity is stored already.
    pub fn insert_interaction(&mut self, row: Interaction<WithoutAgent>) -> (stored: Result<
        Interaction<WithoutAgent>,
        MemoryError,
    >)
        requires
            old(self)@.wf(),
        ensures
            final(self)@.wf(),
            match stored {
                Ok(session) => {
                    &&& !old(self)@.has_session(row.id)
                    &&& final(self)@ == old(self)@.with_session(row@.detached())
                    &&& final(self)@.has_session(row.id)
                    &&& final(self)@.session(row.id) == row@.detached()
                    &&& session@ == row@.detached()
                    &&& session.wf()
                },
                Err(e) => {
                    &&& old(self)@.has_session(row.id)
                    &&& e == MemoryError::StoreError(Constraint::PrimaryKey)
                    &&& final(self)@ == old(self)@
                },
            },
    {
        match self.find_session(row.id) {
            Some(_) => Err(MemoryError::StoreError(Constraint::PrimaryKey)),
            None => {
                let mut row = row;
                row.agent = None;
                let stored = row.clone();
                proof {
                    lemma_with_session(self@, row@);
                }
                self.sessions.push(row);
                assert(self@.sessions =~= old(self)@.sessions.push(stored@));
                Ok(stored)
            },
        }
    }

    /// Creates a session with a fresh identity, created now, and stores it.
    /// The session comes back as stored.
    pub fn new_interaction(
        &mut self,
        user_name: String,
        constitution: String,
        memory_size: usize,
    ) -> (stored: Result<Interaction<WithoutAgent>, MemoryError>)
        requires
            old(self)@.wf(),
        ensures
            final(self)@.wf(),
            match stored {
                Ok(session) => {
                    &&& session.wf()
                    &&& session@ == SessionData::fresh(
                        session.id,
                        session.created_at,
                        user_name@,
                        constitution@,
                        memory_size,
                    )
                    &&& !old(self)@.has_session(session.id)
                    &&& final(self)@ == old(self)@.with_session(session@)
                    &&& final(self)@.has_session(session.id)
                    &&& final(self)@.session(session.id) == session@
                },
                Err(e) => e == MemoryError::StoreError(Constraint::PrimaryKey) && final(self)@
                    == old(self)@,
            },
            old(self)@.sessions.len() == 0 ==> stored.is_ok(),
    {
        let interaction = Interaction::new(user_name, constitution, memory_size);
        self.insert_interaction(interaction)
    }

    /// Whether a transcript entry with identity `id` is stored.
    fn has_block_with(&self, id: u128) -> (found: bool)
        ensures
            found == self@.has_block(id),
    {
        let mut i: usize = 0;
        while i < self.blocks.len()
            invariant
                i <= self.blocks.len(),
                forall|k: int| 0 <= k < i ==> (#[trigger] self@.blocks[k]).id != id,
            decreases self.blocks.len() - i,
        {
            if self.blocks[i].id == id {
                proof {
                    lemma_block_at(self@, i as int);
                }
                return true;
            }
            i += 1;
        }
        false
    }

    /// Where an entry created at `t` goes in the transcript table.
    fn slot_for(&self, t: i64) -> (k: usize)
        ensures
            k == slot(self@.blocks, t),
            k <= self.blocks.len(),
    {
        let mut k: usize = self.blocks.len();
        assert(self@.blocks.take(k as int) =~= self@.blocks);
        while k > 0 && self.blocks[k - 1].created_at > t
            invariant
                k <= self.blocks.len(),
                slot(self@.blocks, t) == slot(self@.blocks.take(k as int), t),
            decreases k,
        {
            assert(self@.blocks.take(k as int).drop_last() =~= self@.blocks.take(k - 1));
            k -= 1;
        }
        k
    }

    /// Stores one transcript entry for session `interaction_id`, whatever
    /// session the entry itself names, and hands it back as stored. The
    /// entry is put in its place by creation time, behind the entries that
    /// are not younger than it. The write is refused where an entry with
    /// its identity is stored already, or where the session is not stored.
    pub fn append_to_long_term_memory(
        &mut self,
        interaction_id: u128,
        interaction_block: &InteractionBlock,
    ) -> (stored: Result<InteractionBlock, MemoryError>)
        requires
            old(self)@.wf(),
        ensures
            final(self)@.wf(),
            match stored {
                Ok(block) => {
                    &&& !old(self)@.has_block(interaction_block.id)
                    &&& old(self)@.has_session(interaction_id)
                    &&& block@ == (BlockData { interaction_id, ..interaction_block@ })
                    &&& final(self)@ == old(self)@.with_block(block@)
                    &&& final(self)@.has_block(interaction_block.id)
                },
                Err(e) => {
                    &&& final(self)@ == old(self)@
                    &&& if old(self)@.has_block(interaction_block.id) {
                        e == MemoryError::StoreError(Constraint::PrimaryKey)
                    } else {
                        !old(self)@.has_session(interaction_id) && e == MemoryError::StoreError(
                            Constraint::ForeignKey,
                        )
                    }
                },
            },
    {
        if self.has_block_with(interaction_block.id) {
            return Err(MemoryError::StoreError(Constraint::PrimaryKey));
        }
        if self.find_session(interaction_id).is_none() {
            return Err(MemoryError::StoreError(Constraint::ForeignKey));
        }
        let row = InteractionBlock {
            id: interaction_block.id,
            created_at: interaction_block.created_at,
            updated_at: interaction_block.updated_at,
            role: interaction_block.role,
            content: interaction_block.content.clone(),
            name: clone_text(&interaction_block.name),
            interaction_id,
        };
        let stored = row.clone();
        let k = self.slot_for(row.created_at);
        proof {
            lemma_with_block(self@, row@);
        }
        self.blocks.insert(k, row);
        assert(self@.blocks =~= old(self)@.blocks.insert(k as int, row@));
        Ok(stored)
    }

    /// The transcript window of a session: its `limit` oldest entries,
    /// oldest first. Once a transcript has more than `limit` entries the
    /// window stays what it was: later entries never enter it.
    pub fn get_interaction_long_term_memory(&self, interaction_id: u128, limit: usize) -> (window:
        Vec<InteractionBlock>)
        ensures
            block_rows(window@) == self@.window(interaction_id, limit),
            window.len() <= limit,
            forall|i: int|
                0 <= i < window.len() ==> (#[trigger] window[i]).interaction_id == interaction_id,
            self@.wf() ==> ordered_by_time(block_rows(window@)),
    {
        proof {
            if self@.wf() {
                lemma_window(self@, interaction_id, limit);
            }
            lemma_transcript_members(self@.blocks, interaction_id);
        }
        let mut window: Vec<InteractionBlock> = Vec::new();
        let mut i: usize = 0;
        proof {
            reveal(Seq::filter);
        }
        while i < self.blocks.len() && window.len() < limit
            invariant
                i <= self.blocks.len(),
                window.len() <= limit,
                block_rows(window@) == self@.blocks.take(i as int).filter(belongs_to(interaction_id)),
            decreases self.blocks.len() - i,
        {
            proof {
                reveal(Seq::filter);
                assert(self@.blocks.take(i + 1).drop_last() =~= self@.blocks.take(i as int));
            }
            if self.blocks[i].interaction_id == interaction_id {
                window.push(self.blocks[i].clone());
            }
            i += 1;
        }
        proof {
            let seen = self@.blocks.take(i as int);
            let rest = self@.blocks.skip(i as int);
            assert(self@.blocks =~= seen + rest);
            Seq::filter_distributes_over_add(seen, rest, belongs_to(interaction_id));
            if i == self.blocks.len() {
                reveal(Seq::filter);
            } else {
                let all = self@.transcript(interaction_id);
                assert(all.take(limit as int) =~= block_rows(window@));
            }
            assert forall|i: int| 0 <= i < window.len() implies (#[trigger] window[i]).interaction_id
                == interaction_id by {
                assert(block_rows(window@)[i] == window[i]@);
            }
        }
        window
    }

    /// Every stored session, in the order in which they were stored.
    pub fn get_all_interactions(&self) -> (all: Vec<Interaction<WithoutAgent>>)
        requires
            self@.wf(),
        ensures
            session_rows(all@) == self@.sessions,
            forall|i: int| 0 <= i < all.len() ==> (#[trigger] all[i]).wf(),
    {
        let mut all: Vec<Interaction<WithoutAgent>> = Vec::new();
        let mut i: usize = 0;
        while i < self.sessions.len()
            invariant
                self@.wf(),
                i <= self.sessions.len(),
                all.len() == i,
                session_rows(all@) =~= self@.sessions.take(i as int),
                forall|k: int| 0 <= k < all.len() ==> (#[trigger] all[k]).wf(),
            decreases self.sessions.len() - i,
        {
            let row = self.sessions[i].clone();
            assert(self@.sessions[i as int].agent.is_none());
            all.push(row);
            i += 1;
        }
        all
    }

    /// Writes `row` over the stored session of the same identity, which
    /// stands at `i`.
    fn store_session(&mut self, i: usize, row: Interaction<WithoutAgent>)
        requires
            old(self)@.wf(),
            i < old(self).sessions.len(),
            old(self)@.session_index(row.id) == i,
            old(self)@.has_session(row.id),
            row.wf(),
        ensures
            final(self)@ == old(self)@.with_session_replaced(row.id, row@),
            final(self)@.wf(),
    {
        proof {
            lemma_with_session_replaced(self@, row.id, row@);
        }
        let ghost written = row@;
        self.sessions.set(i, row);
        assert(self@.sessions =~= old(self)@.sessions.update(i as int, written));
    }

    /// Rewrites the persona of a session at the time `now`, and hands the
    /// session back as stored. The transcript is not touched.
    pub fn update_constitution_stamped(
        &mut self,
        id: u128,
        constitution: String,
        now: i64,
    ) -> (stored: Result<Interaction<WithoutAgent>, MemoryError>)
        requires
            old(self)@.wf(),
        ensures
            final(self)@.wf(),
            match stored {
                Ok(session) => {
                    &&& old(self)@.has_session(id)
                    &&& final(self)@ == old(self)@.with_constitution(id, constitution@, now)
                    &&& session@ == (SessionData {
                        constitution: constitution@,
                        updated_at: now,
                        ..old(self)@.session(id)
                    })
                    &&& session@ == final(self)@.session(id)
                    &&& session.wf()
                },
                Err(e) => !old(self)@.has_session(id) && e == MemoryError::NotFound && final(self)@
                    == old(self)@,
            },
    {
        match self.find_session(id) {
            None => Err(MemoryError::NotFound),
            Some(i) => {
                proof {
                    lemma_session_at(self@, i as int);
                }
                let current = &self.sessions[i];
                let row = Interaction {
                    id: current.id,
                    created_at: current.created_at,
                    updated_at: now,
                    user_name: current.user_name.clone(),
                    constitution,
                    short_term_memory: current.short_term_memory.clone(),
                    long_term_memory_size: current.long_term_memory_size,
                    state: PhantomData,
                    agent: None,
                };
                let stored = row.clone();
                proof {
                    lemma_with_session_replaced(self@, id, row@);
                }
                self.store_session(i, row);
                Ok(stored)
            },
        }
    }

    /// Rewrites the persona of a session, now.
    pub fn update_constitution(&mut self, id: u128, constitution: String) -> (stored: Result<
        Interaction<WithoutAgent>,
        MemoryError,
    >)
        requires
            old(self)@.wf(),
        ensures
            final(self)@.wf(),
            match stored {
                Ok(session) => {
                    &&& old(self)@.has_session(id)
                    &&& final(self)@ == old(self)@.with_constitution(
                        id,
                        constitution@,
                        session.updated_at,
                    )
                    &&& session@ == final(self)@.session(id)
                    &&& session.wf()
                },
                Err(e) => !old(self)@.has_session(id) && e == MemoryError::NotFound && final(self)@
                    == old(self)@,
            },
    {
        let now: i64 = now_micros();
        self.update_constitution_stamped(id, constitution, now)
    }

    /// Sets the scratch buffer of a session at the time `now`, and hands the
    /// session back as stored.
    pub fn set_short_term_memory_stamped(
        &mut self,
        interaction_id: u128,
        memory: String,
        now: i64,
    ) -> (stored: Result<Interaction<WithoutAgent>, MemoryError>)
        requires
            old(self)@.wf(),
        ensures
            final(self)@.wf(),
            match stored {
                Ok(session) => {
                    &&& old(self)@.has_session(interaction_id)
                    &&& final(self)@ == old(self)@.with_short_term_memory(
                        interaction_id,
                        memory@,
                        now,
                    )
                    &&& session@ == (SessionData {
                        short_term_memory: memory@,
                        updated_at: now,
                        ..old(self)@.session(interaction_id)
                    })
                    &&& session@ == final(self)@.session(interaction_id)
                    &&& session.wf()
                },
                Err(e) => !old(self)@.has_session(interaction_id) && e == MemoryError::NotFound
                    && final(self)@ == old(self)@,
            },
    {
        match self.find_session(interaction_id) {
            None => Err(MemoryError::NotFound),
            Some(i) => {
                proof {
                    lemma_session_at(self@, i as int);
                }
                let current = &self.sessions[i];
                let row = Interaction {
                    id: current.id,
                    created_at: current.created_at,
                    updated_at: now,
                    user_name: current.user_name.clone(),
                    constitution: current.constitution.clone(),
                    short_term_memory: memory,
                    long_term_memory_size: current.long_term_memory_size,
                    state: PhantomData,
                    agent: None,
                };
                let stored = row.clone();
                proof {
                    lemma_with_session_replaced(self@, interaction_id, row@);
                }
                self.store_session(i, row);
                Ok(stored)
            },
        }
    }

    /// Sets the scratch buffer of a session, now.
    pub fn set_short_term_memory(&mut self, interaction_id: u128, memory: String) -> (stored:
        Result<Interaction<WithoutAgent>, MemoryError>)
        requires
            old(self)@.wf(),
        ensures
            final(self)@.wf(),
            match stored {
                Ok(session) => {
                    &&& old(self)@.has_session(interaction_id)
                    &&& final(self)@ == old(self)@.with_short_term_memory(
                        interaction_id,
                        memory@,
                        session.updated_at,
                    )
                    &&& session@ == final(self)@.session(interaction_id)
                    &&& session.wf()
                },
                Err(e) => !old(self)@.has_session(interaction_id) && e == MemoryError::NotFound
                    && final(self)@ == old(self)@,
            },
    {
        let now: i64 = now_micros();
        self.set_short_term_memory_stamped(interaction_id, memory, now)
    }

    /// Marks a session as updated at the time `now`.
    pub fn touch_interaction(&mut self, id: u128, now: i64) -> (stored: Result<
        Interaction<WithoutAgent>,
        MemoryError,
    >)
        requires
            old(self)@.wf(),
        ensures
            final(self)@.wf(),
            match stored {
                Ok(session) => {
                    &&& old(self)@.has_session(id)
                    &&& final(self)@ == old(self)@.touched(id, now)
                    &&& session@ == (SessionData { updated_at: now, ..old(self)@.session(id) })
                    &&& session@ == final(self)@.session(id)
                    &&& session.wf()
                },
                Err(e) => !old(self)@.has_session(id) && e == MemoryError::NotFound && final(self)@
                    == old(self)@,
            },
    {
        match self.find_session(id) {
            None => Err(MemoryError::NotFound),
            Some(i) => {
                proof {
                    lemma_session_at(self@, i as int);
                }
                let mut row = self.sessions[i].clone();
                row.updated_at = now;
                let stored = row.clone();
                proof {
                    lemma_with_session_replaced(self@, id, row@);
                }
                self.store_session(i, row);
                Ok(stored)
            },
        }
    }

    /// Creates a session as `new_interaction` does, and hands it back bound
    /// to `agent`.
    pub fn new_interaction_with_agent(
        &mut self,
        user_name: String,
        constitution: String,
        memory_size: usize,
        agent: &AgentHandle,
    ) -> (stored: Result<Interaction<WithAgent>, MemoryError>)
        requires
            old(self)@.wf(),
        ensures
            final(self)@.wf(),
            match stored {
                Ok(session) => {
                    &&& session.wf()
                    &&& session@.detached() == SessionData::fresh(
                        session.id,
                        session.created_at,
                        user_name@,
                        constitution@,
                        memory_size,
                    )
                    &&& session@.agent == Some(agent@)
                    &&& !old(self)@.has_session(session.id)
                    &&& final(self)@ == old(self)@.with_session(session@.detached())
                },
                Err(e) => e == MemoryError::StoreError(Constraint::PrimaryKey) && final(self)@
                    == old(self)@,
            },
            old(self)@.sessions.len() == 0 ==> stored.is_ok(),
    {
        match self.new_interaction(user_name, constitution, memory_size) {
            Ok(interaction) => Ok(interaction.with_agent(agent.clone())),
            Err(e) => Err(e),
        }
    }

    /// The meta row. That there is none is `NotFound`.
    pub fn get_meta(&self) -> (found: Result<Meta, MemoryError>)
        ensures
            match found {
                Ok(meta) => self@.meta == Some(meta),
                Err(e) => self@.meta.is_none() && e == MemoryError::NotFound,
            },
    {
        match self.meta {
            Some(meta) => Ok(meta),
            None => Err(MemoryError::NotFound),
        }
    }

    /// The default session, where the meta row names one.
    pub fn get_default_interaction(&self) -> (found: Option<Interaction<WithoutAgent>>)
        requires
            self@.wf(),
        ensures
            match found {
                Some(session) => {
                    &&& self@.meta matches Some(meta)
                    &&& session@ == self@.session(meta.default_interaction_id)
                    &&& session.wf()
                },
                None => self@.meta.is_none(),
            },
    {
        match self.meta {
            Some(meta) => self.get_interaction(meta.default_interaction_id),
            None => None,
        }
    }

    /// Points the meta row at another session. It is `NotFound` where there
    /// is no meta row yet, and refused where the session is not stored.
    pub fn set_default_interaction(&mut self, id: u128) -> (stored: Result<Meta, MemoryError>)
        requires
            old(self)@.wf(),
        ensures
            final(self)@.wf(),
            match stored {
                Ok(meta) => {
                    &&& old(self)@.meta matches Some(before)
                    &&& old(self)@.has_session(id)
                    &&& meta == (Meta { default_interaction_id: id, ..before })
                    &&& final(self)@ == old(self)@.with_meta(meta)
                },
                Err(e) => {
                    &&& final(self)@ == old(self)@
                    &&& if old(self)@.meta.is_none() {
                        e == MemoryError::NotFound
                    } else {
                        !old(self)@.has_session(id) && e == MemoryError::StoreError(
                            Constraint::ForeignKey,
                        )
                    }
                },
            },
    {
        match self.meta {
            None => Err(MemoryError::NotFound),
            Some(before) => {
                if self.find_session(id).is_none() {
                    return Err(MemoryError::StoreError(Constraint::ForeignKey));
                }
                let meta = Meta {
                    id: before.id,
                    created_at: before.created_at,
                    updated_at: before.updated_at,
                    default_interaction_id: id,
                };
                self.meta = Some(meta);
                Ok(meta)
            },
        }
    }

    /// Stores `meta` as the one meta row. The write is refused where a meta
    /// row is there already, or where the session it points at is not
    /// stored.
    pub fn insert_meta(&mut self, meta: Meta) -> (stored: Result<Meta, MemoryError>)
        requires
            old(self)@.wf(),
        ensures
            final(self)@.wf(),
            match stored {
                Ok(row) => {
                    &&& old(self)@.meta.is_none()
                    &&& old(self)@.has_session(meta.default_interaction_id)
                    &&& row == meta
                    &&& final(self)@ == old(self)@.with_meta(meta)
                },
                Err(e) => {
                    &&& final(self)@ == old(self)@
                    &&& if old(self)@.meta.is_some() {
                        e == MemoryError::StoreError(Constraint::PrimaryKey)
                    } else {
                        !old(self)@.has_session(meta.default_interaction_id) && e
                            == MemoryError::StoreError(Constraint::ForeignKey)
                    }
                },
            },
    {
        if self.meta.is_some() {
            return Err(MemoryError::StoreError(Constraint::PrimaryKey));
        }
        if self.find_session(meta.default_interaction_id).is_none() {
            return Err(MemoryError::StoreError(Constraint::ForeignKey));
        }
        self.meta = Some(meta);
        Ok(meta)
    }

    /// The meta row, made first where there is none: a session is created
    /// from `defaults` under the identity `session_id`, and the meta row
    /// under `meta_id` that points at it, both at the time `now`. The check
    /// and the two writes are one step: either both rows are written or
    /// neither, and a meta row that is there is never replaced.
    pub fn get_meta_with_agent_stamped(
        &mut self,
        defaults: &DefaultInteraction,
        session_id: u128,
        meta_id: u128,
        now: i64,
    ) -> (found: Result<Meta, MemoryError>)
        requires
            old(self)@.wf(),
        ensures
            final(self)@.wf(),
            final(self)@ == old(self)@.bootstrapped(defaults@, session_id, meta_id, now),
            match found {
                Ok(meta) => final(self)@.meta == Some(meta),
                Err(e) => {
                    &&& old(self)@.meta.is_none()
                    &&& old(self)@.has_session(session_id)
                    &&& e == MemoryError::StoreError(Constraint::PrimaryKey)
                },
            },
    {
        match self.meta {
            Some(meta) => Ok(meta),
            None => {
                let session = Interaction::stamped(
                    session_id,
                    now,
                    defaults.user_name.clone(),
                    defaults.constitution.clone(),
                    defaults.memory_size,
                );
                let ghost row = session@;
                match self.insert_interaction(session) {
                    Err(e) => Err(e),
                    Ok(_) => {
                        proof {
                            lemma_with_session(old(self)@, row);
                        }
                        let meta = Meta {
                            id: meta_id,
                            created_at: now,
                            updated_at: now,
                            default_interaction_id: session_id,
                        };
                        self.meta = Some(meta);
                        Ok(meta)
                    },
                }
            },
        }
    }

    /// The meta row, made first where there is none, with fresh identities
    /// and at the current time.
    pub fn get_meta_with_agent(&mut self, defaults: &DefaultInteraction) -> (found: Result<
        Meta,
        MemoryError,
    >)
        requires
            old(self)@.wf(),
        ensures
            final(self)@.wf(),
            match found {
                Ok(meta) => {
                    &&& final(self)@.meta == Some(meta)
                    &&& old(self)@.meta.is_some() ==> final(self)@ == old(self)@
                    &&& old(self)@.meta.is_none() ==> final(self)@ == old(self)@.bootstrapped(
                        defaults@,
                        meta.default_interaction_id,
                        meta.id,
                        meta.created_at,
                    ) && !old(self)@.has_session(meta.default_interaction_id)
                },
                Err(e) => {
                    &&& old(self)@.meta.is_none()
                    &&& final(self)@ == old(self)@
                    &&& e == MemoryError::StoreError(Constraint::PrimaryKey)
                },
            },
            old(self)@.meta.is_some() || old(self)@.sessions.len() == 0 ==> found.is_ok(),
    {
        let session_id: u128 = fresh_id();
        let meta_id: u128 = fresh_id();
        let now: i64 = now_micros();
        self.get_meta_with_agent_stamped(defaults, session_id, meta_id, now)
    }

    /// The default session, bound to `agent`; made first where there is
    /// none, as `get_meta_with_agent_stamped` does.
    pub fn get_or_create_default_interaction_stamped(
        &mut self,
        agent: &AgentHandle,
        defaults: &DefaultInteraction,
        session_id: u128,
        meta_id: u128,
        now: i64,
    ) -> (found: Result<Interaction<WithAgent>, MemoryError>)
        requires
            old(self)@.wf(),
        ensures
            final(self)@.wf(),
            final(self)@ == old(self)@.bootstrapped(defaults@, session_id, meta_id, now),
            match found {
                Ok(session) => {
                    &&& final(self)@.meta matches Some(meta)
                    &&& session.id == meta.default_interaction_id
                    &&& session@ == final(self)@.session(meta.default_interaction_id).bound_to(
                        agent@,
                    )
                    &&& session.wf()
                },
                Err(e) => {
                    &&& old(self)@.meta.is_none()
                    &&& old(self)@.has_session(session_id)
                    &&& e == MemoryError::StoreError(Constraint::PrimaryKey)
                },
            },
    {
        match self.get_meta_with_agent_stamped(defaults, session_id, meta_id, now) {
            Err(e) => Err(e),
            Ok(meta) => {
                // The meta row always names a stored session.
                let i = self.find_session(meta.default_interaction_id).unwrap();
                proof {
                    lemma_session_at(self@, i as int);
                }
                Ok(self.sessions[i].with_agent(agent.clone()))
            },
        }
    }

    /// The default session, bound to `agent`; made first where there is
    /// none, with fresh identities and at the current time.
    pub fn get_or_create_default_interaction(
        &mut self,
        agent: &AgentHandle,
        defaults: &DefaultInteraction,
    ) -> (found: Result<Interaction<WithAgent>, MemoryError>)
        requires
            old(self)@.wf(),
        ensures
            final(self)@.wf(),
            match found {
                Ok(session) => {
                    &&& final(self)@.meta matches Some(meta)
                    &&& session.id == meta.default_interaction_id
                    &&& session@ == final(self)@.session(meta.default_interaction_id).bound_to(
                        agent@,
                    )
                    &&& session.wf()
                    &&& old(self)@.meta.is_some() ==> final(self)@ == old(self)@
                    &&& old(self)@.meta.is_none() ==> final(self)@ == old(self)@.bootstrapped(
                        defaults@,
                        meta.default_interaction_id,
                        meta.id,
                        meta.created_at,
                    ) && !old(self)@.has_session(meta.default_interaction_id)
                },
                Err(e) => {
                    &&& old(self)@.meta.is_none()
                    &&& final(self)@ == old(self)@
                    &&& e == MemoryError::StoreError(Constraint::PrimaryKey)
                },
            },
            old(self)@.meta.is_some() || old(self)@.sessions.len() == 0 ==> found.is_ok(),
    {
        let session_id: u128 = fresh_id();
        let meta_id: u128 = fresh_id();
        let now: i64 = now_micros();
        self.get_or_create_default_interaction_stamped(agent, defaults, session_id, meta_id, now)
    }

    /// Whether an agent with identity `id` is stored.
    fn has_agent_with(&self, id: u128) -> (found: bool)
        ensures
            found == self@.has_agent(id),
    {
        let mut i: usize = 0;
        while i < self.agents.len()
            invariant
                i <= self.agents.len(),
                forall|k: int| 0 <= k < i ==> (#[trigger] self@.agents[k]).id != id,
            decreases self.agents.len() - i,
        {
            if self.agents[i].id == id {
                assert(self@.agents[i as int].id == id);
                return true;
            }
            i += 1;
        }
        false
    }

    /// Stores `record` as a new agent. The write is refused where an agent
    /// with its identity is stored already.
    pub fn insert_agent(
        &mut self,
        record: AgentRecord,
    ) -> (stored: Result<AgentRecord, MemoryError>)
        requires
            old(self)@.wf(),
        ensures
            final(self)@.wf(),
            match stored {
                Ok(row) => {
                    &&& !old(self)@.has_agent(record.id)
                    &&& row@ == record@
                    &&& final(self)@ == old(self)@.with_agent_row(record@)
                },
                Err(e) => {
                    &&& old(self)@.has_agent(record.id)
                    &&& e == MemoryError::StoreError(Constraint::PrimaryKey)
                    &&& final(self)@ == old(self)@
                },
            },
    {
        if self.has_agent_with(record.id) {
            return Err(MemoryError::StoreError(Constraint::PrimaryKey));
        }
        let stored = record.clone();
        proof {
            lemma_with_agent_row(self@, record@);
        }
        self.agents.push(record);
        assert(self@.agents =~= old(self)@.agents.push(stored@));
        Ok(stored)
    }

    /// Stores a new agent under a fresh identity and hands back the agent
    /// itself, built around `llm_engine` and around this engine, which it
    /// owns from then on. Where the write is refused the engine goes with
    /// the call; `insert_agent` and `Agent::new` do the same in two steps
    /// and keep it.
    pub fn new_agent<Backend: AgentBackend>(
        self,
        name: String,
        default_user_name: String,
        default_constitution: String,
        default_memory_size: usize,
        llm_engine: Backend,
    ) -> (made: Result<Agent<Backend>, MemoryError>)
        requires
            self@.wf(),
        ensures
            match made {
                Ok(agent) => {
                    let row = agent.store().agents.last();
                    &&& agent.wf()
                    &&& agent.my_name@ == name@
                    &&& agent.default_interaction@ == (DefaultsData {
                        user_name: default_user_name@,
                        constitution: default_constitution@,
                        memory_size: default_memory_size,
                    })
                    &&& agent.backend == llm_engine
                    &&& !self@.has_agent(agent.id)
                    &&& agent.store() == self@.with_agent_row(row)
                    &&& row == (AgentRowData {
                        id: agent.id,
                        created_at: row.created_at,
                        updated_at: row.created_at,
                        name: name@,
                        defaults: agent.default_interaction@,
                    })
                },
                Err(e) => e == MemoryError::StoreError(Constraint::PrimaryKey),
            },
            self@.agents.len() == 0 ==> made.is_ok(),
    {
        let mut engine = self;
        let id: u128 = fresh_id();
        let now: i64 = now_micros();
        let record = AgentRecord {
            id,
            created_at: now,
            updated_at: now,
            name,
            default_interaction: DefaultInteraction {
                user_name: default_user_name,
                constitution: default_constitution,
                memory_size: default_memory_size,
            },
        };
        match engine.insert_agent(record) {
            Err(e) => Err(e),
            Ok(row) => {
                Ok(Agent::new(row.id, row.name, row.default_interaction, llm_engine, engine))
            },
        }
    }

    /// Adds an entry to the scratch buffer of a session at the time `now`:
    /// the entry becomes the buffer's last line, and of the lines that the
    /// buffer then has only the last are kept, as many as the session's
    /// configured size.
    pub fn append_to_dynamic_memory_stamped(
        &mut self,
        id: u128,
        new_interaction: String,
        now: i64,
    ) -> (stored: Result<Interaction<WithoutAgent>, MemoryError>)
        requires
            old(self)@.wf(),
        ensures
            final(self)@.wf(),
            match stored {
                Ok(session) => {
                    let before = old(self)@.session(id);
                    let memory = rolled_memory(
                        before.short_term_memory,
                        new_interaction@,
                        before.long_term_memory_size as nat,
                    );
                    &&& old(self)@.has_session(id)
                    &&& final(self)@ == old(self)@.with_short_term_memory(id, memory, now)
                    &&& session@ == (SessionData {
                        short_term_memory: memory,
                        updated_at: now,
                        ..before
                    })
                    &&& session@ == final(self)@.session(id)
                    &&& session.wf()
                },
                Err(e) => !old(self)@.has_session(id) && e == MemoryError::NotFound && final(self)@
                    == old(self)@,
            },
    {
        match self.find_session(id) {
            None => Err(MemoryError::NotFound),
            Some(i) => {
                proof {
                    lemma_session_at(self@, i as int);
                }
                let memory = roll_memory(
                    self.sessions[i].short_term_memory.as_str(),
                    new_interaction.as_str(),
                    self.sessions[i].long_term_memory_size,
                );
                self.set_short_term_memory_stamped(id, memory, now)
            },
        }
    }

    /// Adds an entry to the scratch buffer of a session, now.
    pub fn append_to_dynamic_memory(&mut self, id: u128, new_interaction: String) -> (stored:
        Result<Interaction<WithoutAgent>, MemoryError>)
        requires
            old(self)@.wf(),
        ensures
            final(self)@.wf(),
            match stored {
                Ok(session) => {
                    let before = old(self)@.session(id);
                    let memory = rolled_memory(
                        before.short_term_memory,
                        new_interaction@,
                        before.long_term_memory_size as nat,
                    );
                    &&& old(self)@.has_session(id)
                    &&& final(self)@ == old(self)@.with_short_term_memory(
                        id,
                        memory,
                        session.updated_at,
                    )
                    &&& session@ == final(self)@.session(id)
                    &&& session.wf()
                },
                Err(e) => !old(self)@.has_session(id) && e == MemoryError::NotFound && final(self)@
                    == old(self)@,
            },
    {
        let now: i64 = now_micros();
        self.append_to_dynamic_memory_stamped(id, new_interaction, now)
    }
}

} // verus!

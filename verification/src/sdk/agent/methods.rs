//! What an agent does: it opens sessions, looks them up, edits their
//! persona and scratch buffer, and runs turns on them.

use vstd::prelude::*;

use crate::backend::interface::{AgentBackend, BackendError};
use crate::database::guarantees::lemma_turn_stores_two_entries;
use crate::database::memory::{Constraint, MemoryEngine, MemoryError};
use crate::database::model::{lemma_window, lemma_with_block};
use crate::sdk::agent::structure::Agent;
use crate::sdk::interactions::{
    block_rows, session_rows, BlockData, Interaction, InteractionBlock, InteractionBlockRole,
    InteractionState, SessionData, WithAgent, WithoutAgent,
};
use crate::sdk::stamps::{fresh_id, now_micros};

verus! {

/// Why a turn did not go through.
#[derive(Debug)]
pub enum AgentError {
    /// The store refused a write. Where it refused the outbound entry, the
    /// inbound entry stays stored without its reply.
    Memory(MemoryError),
    /// The backend gave no reply. Nothing was stored.
    Backend(BackendError),
}

/// A turn that has been opened and waits for the backend's reply: the
/// session, bound to the agent, its transcript window, and the inbound
/// entry, which is not stored yet.
#[derive(Debug)]
pub struct PendingTurn {
    pub interaction: Interaction<WithAgent>,
    pub window: Vec<InteractionBlock>,
    pub inbound: InteractionBlock,
}

/// The inbound entry of a turn: the caller's message, stored under the
/// agent's own role and name. The reply takes the role of the entry it
/// answers, so both sides of a turn carry the same role and name, and the
/// transcript tells them apart by their order alone.
pub open spec fn inbound_row(
    agent_name: Seq<char>,
    interaction_id: u128,
    message: Seq<char>,
    block_id: u128,
    now: i64,
) -> BlockData {
    BlockData {
        id: block_id,
        created_at: now,
        updated_at: now,
        role: InteractionBlockRole::Agent,
        content: message,
        name: Some(agent_name),
        interaction_id,
    }
}

impl<Backend: AgentBackend> Agent<Backend> {
    /// The agent's memory engine, to work on directly.
    pub fn memory_engine(&mut self) -> (engine: &mut MemoryEngine)
        ensures
            *engine == old(self).memory_engine,
            final(self).memory_engine == *final(engine),
            final(self).backend == old(self).backend,
            final(self).same_identity(old(self)),
    {
        &mut self.memory_engine
    }

    /// Looks a session up by its identity. That there is none is an
    /// ordinary answer.
    pub fn get_interaction(
        &self,
        interaction_id: u128,
    ) -> (found: Option<Interaction<WithoutAgent>>)
        requires
            self.wf(),
        ensures
            match found {
                Some(session) => self.store().has_session(interaction_id) && session@
                    == self.store().session(interaction_id) && session.wf(),
                None => !self.store().has_session(interaction_id),
            },
    {
        self.memory_engine.get_interaction(interaction_id)
    }

    /// Every stored session, in the order in which they were stored.
    pub fn get_all_interactions(&self) -> (all: Vec<Interaction<WithoutAgent>>)
        requires
            self.wf(),
        ensures
            session_rows(all@) == self.store().sessions,
            forall|i: int| 0 <= i < all.len() ==> (#[trigger] all[i]).wf(),
    {
        self.memory_engine.get_all_interactions()
    }

    /// Opens a session and hands it back bound to this agent.
    pub fn init_interaction(
        &mut self,
        user_name: String,
        constitution: String,
        memory_size: usize,
    ) -> (stored: Result<Interaction<WithAgent>, MemoryError>)
        requires
            old(self).wf(),
        ensures
            final(self).wf(),
            final(self).same_identity(old(self)),
            final(self).backend == old(self).backend,
            match stored {
                Ok(session) => {
                    &&& session.wf()
                    &&& session@.detached() == SessionData::fresh(
                        session.id,
                        session.created_at,
                        user_name@,
                        constitution@,
                        memory_size,
                    )
                    &&& session@.agent == Some(old(self).handle_data())
                    &&& !old(self).store().has_session(session.id)
                    &&& final(self).store() == old(self).store().with_session(session@.detached())
                },
                Err(e) => {
                    &&& e == MemoryError::StoreError(Constraint::PrimaryKey)
                    &&& final(self).store() == old(self).store()
                },
            },
            old(self).store().sessions.len() == 0 ==> stored.is_ok(),
    {
        let handle = self.handle();
        self.memory_engine.new_interaction_with_agent(user_name, constitution, memory_size, &handle)
    }

    /// Opens a session with the configuration of the default session, for
    /// `new_user_name` where one is given, and hands it back bound to this
    /// agent.
    pub fn init_interaction_defaults(&mut self, new_user_name: Option<String>) -> (stored: Result<
        Interaction<WithAgent>,
        MemoryError,
    >)
        requires
            old(self).wf(),
        ensures
            final(self).wf(),
            final(self).same_identity(old(self)),
            final(self).backend == old(self).backend,
            match stored {
                Ok(session) => {
                    &&& session.wf()
                    &&& session@.detached() == SessionData::fresh(
                        session.id,
                        session.created_at,
                        match new_user_name {
                            Some(name) => name@,
                            None => old(self).default_interaction@.user_name,
                        },
                        old(self).default_interaction@.constitution,
                        old(self).default_interaction@.memory_size,
                    )
                    &&& session@.agent == Some(old(self).handle_data())
                    &&& !old(self).store().has_session(session.id)
                    &&& final(self).store() == old(self).store().with_session(session@.detached())
                },
                Err(e) => {
                    &&& e == MemoryError::StoreError(Constraint::PrimaryKey)
                    &&& final(self).store() == old(self).store()
                },
            },
            old(self).store().sessions.len() == 0 ==> stored.is_ok(),
    {
        let handle = self.handle();
        let user_name = match new_user_name {
            Some(name) => name,
            None => self.default_interaction.user_name.clone(),
        };
        let constitution = self.default_interaction.constitution.clone();
        let memory_size = self.default_interaction.memory_size;
        self.memory_engine.new_interaction_with_agent(user_name, constitution, memory_size, &handle)
    }

    /// The default session, bound to this agent; made first, from the
    /// agent's configuration, where there is none yet.
    pub fn get_default_interaction(
        &mut self,
    ) -> (found: Result<Interaction<WithAgent>, MemoryError>)
        requires
            old(self).wf(),
        ensures
            final(self).wf(),
            final(self).same_identity(old(self)),
            final(self).backend == old(self).backend,
            match found {
                Ok(session) => {
                    &&& final(self).store().meta matches Some(meta)
                    &&& session.id == meta.default_interaction_id
                    &&& session@ == final(self).store().session(
                        meta.default_interaction_id,
                    ).bound_to(old(self).handle_data())
                    &&& session.wf()
                    &&& final(self).store() == old(self).store().default_ready(
                        old(self).default_interaction@,
                        meta,
                    )
                    &&& old(self).store().meta.is_none() ==> !old(self).store().has_session(
                        meta.default_interaction_id,
                    )
                },
                Err(e) => {
                    &&& old(self).store().meta.is_none()
                    &&& final(self).store() == old(self).store()
                    &&& e == MemoryError::StoreError(Constraint::PrimaryKey)
                },
            },
            old(self).store().meta.is_some() || old(self).store().sessions.len() == 0
                ==> found.is_ok(),
    {
        let handle = self.handle();
        self.memory_engine.get_or_create_default_interaction(&handle, &self.default_interaction)
    }

    /// Rewrites the persona of a session. The transcript is not touched.
    pub fn update_long_term_memory(
        &mut self,
        interaction_id: u128,
        constitution: String,
    ) -> (stored: Result<Interaction<WithoutAgent>, MemoryError>)
        requires
            old(self).wf(),
        ensures
            final(self).wf(),
            final(self).same_identity(old(self)),
            final(self).backend == old(self).backend,
            match stored {
                Ok(session) => {
                    &&& old(self).store().has_session(interaction_id)
                    &&& final(self).store() == old(self).store().with_constitution(
                        interaction_id,
                        constitution@,
                        session.updated_at,
                    )
                    &&& session@ == final(self).store().session(interaction_id)
                    &&& session.wf()
                },
                Err(e) => !old(self).store().has_session(interaction_id) && e
                    == MemoryError::NotFound && final(self).store() == old(self).store(),
            },
    {
        self.memory_engine.update_constitution(interaction_id, constitution)
    }

    /// Clears the scratch buffer of a session. That there is no such
    /// session is an ordinary answer.
    pub fn forgot_short_term_memory(&mut self, interaction_id: u128) -> (stored: Option<
        Interaction<WithoutAgent>,
    >)
        requires
            old(self).wf(),
        ensures
            final(self).wf(),
            final(self).same_identity(old(self)),
            final(self).backend == old(self).backend,
            match stored {
                Some(session) => {
                    &&& old(self).store().has_session(interaction_id)
                    &&& final(self).store() == old(self).store().with_short_term_memory(
                        interaction_id,
                        Seq::empty(),
                        session.updated_at,
                    )
                    &&& session@ == final(self).store().session(interaction_id)
                    &&& session.wf()
                },
                None => !old(self).store().has_session(interaction_id) && final(self).store()
                    == old(self).store(),
            },
    {
        match self.memory_engine.set_short_term_memory(interaction_id, String::new()) {
            Ok(session) => Some(session),
            Err(_) => None,
        }
    }

    /// Opens a turn on a session: looks the session up, binds it to this
    /// agent, reads its transcript window, of the size that the session is
    /// configured with, and makes the inbound entry under the identity
    /// `block_id` and the time `now`. Nothing is stored. That there is no
    /// such session is an ordinary answer.
    pub fn open_turn(
        &self,
        interaction_id: u128,
        message: &String,
        block_id: u128,
        now: i64,
    ) -> (opened: Option<PendingTurn>)
        requires
            self.wf(),
        ensures
            match opened {
                None => !self.store().has_session(interaction_id),
                Some(pending) => {
                    let session = self.store().session(interaction_id);
                    &&& self.store().has_session(interaction_id)
                    &&& pending.interaction.wf()
                    &&& pending.interaction@ == session.bound_to(self.handle_data())
                    &&& block_rows(pending.window@) == self.store().window(
                        interaction_id,
                        session.long_term_memory_size,
                    )
                    &&& pending.inbound@ == inbound_row(
                        self.my_name@,
                        interaction_id,
                        message@,
                        block_id,
                        now,
                    )
                },
            },
    {
        match self.memory_engine.get_interaction(interaction_id) {
            None => None,
            Some(session) => {
                let window = self.memory_engine.get_interaction_long_term_memory(
                    interaction_id,
                    session.long_term_memory_size,
                );
                let inbound = InteractionBlock::stamped(
                    block_id,
                    now,
                    InteractionBlockRole::Agent,
                    message.clone(),
                    interaction_id,
                    Some(self.my_name.clone()),
                );
                let interaction = session.with_agent(self.handle());
                Some(PendingTurn { interaction, window, inbound })
            },
        }
    }

    /// Closes a turn: stores the inbound entry, then the outbound entry,
    /// both for the session of the turn, and marks the session as updated
    /// at `now`. The two writes are separate. Where the first is refused
    /// nothing is stored; where the second is, the inbound entry stays
    /// stored without its reply.
    pub fn close_turn(
        &mut self,
        pending: PendingTurn,
        outbound: InteractionBlock,
        now: i64,
    ) -> (closed: Result<(InteractionBlock, InteractionBlock), MemoryError>)
        requires
            old(self).wf(),
        ensures
            final(self).wf(),
            final(self).same_identity(old(self)),
            final(self).backend == old(self).backend,
            ({
                let id = pending.interaction.id;
                let before = old(self).store();
                let inbound_row = BlockData { interaction_id: id, ..pending.inbound@ };
                let outbound_row = BlockData { interaction_id: id, ..outbound@ };
                match closed {
                    Ok((stored_inbound, stored_outbound)) => {
                        &&& before.has_session(id)
                        &&& !before.has_block(inbound_row.id)
                        &&& !before.has_block(outbound_row.id)
                        &&& inbound_row.id != outbound_row.id
                        &&& stored_inbound@ == inbound_row
                        &&& stored_outbound@ == outbound_row
                        &&& final(self).store() == before.after_turn(
                            id,
                            inbound_row,
                            outbound_row,
                            now,
                        )
                        &&& final(self).store().session(id).updated_at == now
                        &&& final(self).store().blocks.len() == before.blocks.len() + 2
                        &&& final(self).store().transcript(id).len() == before.transcript(
                            id,
                        ).len() + 2
                    },
                    Err(e) => {
                        if before.has_block(inbound_row.id) {
                            &&& e == MemoryError::StoreError(Constraint::PrimaryKey)
                            &&& final(self).store() == before
                        } else if !before.has_session(id) {
                            &&& e == MemoryError::StoreError(Constraint::ForeignKey)
                            &&& final(self).store() == before
                        } else {
                            &&& before.has_block(outbound_row.id) || outbound_row.id
                                == inbound_row.id
                            &&& e == MemoryError::StoreError(Constraint::PrimaryKey)
                            &&& final(self).store() == before.with_block(inbound_row)
                        }
                    },
                }
            }),
    {
        let id = pending.interaction.id;
        let ghost before = self.store();
        let ghost inbound_row = BlockData { interaction_id: id, ..pending.inbound@ };
        let stored_inbound = match self.memory_engine.append_to_long_term_memory(
            id,
            &pending.inbound,
        ) {
            Ok(block) => block,
            Err(e) => {
                return Err(e);
            },
        };
        proof {
            lemma_with_block(before, inbound_row);
        }
        let stored_outbound = match self.memory_engine.append_to_long_term_memory(id, &outbound) {
            Ok(block) => block,
            Err(e) => {
                return Err(e);
            },
        };
        // The session was there for both writes, and no write removes one.
        let _ = self.memory_engine.touch_interaction(id, now).unwrap();
        proof {
            lemma_turn_stores_two_entries(before, id, inbound_row, stored_outbound@, now);
        }
        Ok((stored_inbound, stored_outbound))
    }

    /// Runs one turn on a session: the caller's message goes to the backend
    /// together with the session and its transcript window, and both the
    /// message and the reply are stored once the reply is in.
    ///
    /// That there is no such session is an ordinary answer, and nothing is
    /// stored then. Nothing is stored either where the backend fails.
    pub fn interact(&mut self, interaction_id: u128, message: &String) -> (turn: Result<
        Option<(InteractionBlock, InteractionBlock)>,
        AgentError,
    >)
        requires
            old(self).wf(),
        ensures
            final(self).wf(),
            final(self).same_identity(old(self)),
            ({
                let before = old(self).store();
                let after = final(self).store();
                match turn {
                    Ok(None) => {
                        &&& !before.has_session(interaction_id)
                        &&& after == before
                        &&& final(self).backend == old(self).backend
                    },
                    Ok(Some((inbound, outbound))) => {
                        &&& before.has_session(interaction_id)
                        &&& inbound@ == inbound_row(
                            old(self).my_name@,
                            interaction_id,
                            message@,
                            inbound.id,
                            inbound.created_at,
                        )
                        &&& outbound.interaction_id == interaction_id
                        &&& after == before.after_turn(
                            interaction_id,
                            inbound@,
                            outbound@,
                            after.session(interaction_id).updated_at,
                        )
                        &&& after.blocks.len() == before.blocks.len() + 2
                        &&& after.transcript(interaction_id).len() == before.transcript(
                            interaction_id,
                        ).len() + 2
                    },
                    Err(AgentError::Backend(_)) => before.has_session(interaction_id) && after
                        == before,
                    Err(AgentError::Memory(e)) => {
                        &&& before.has_session(interaction_id)
                        &&& e == MemoryError::StoreError(Constraint::PrimaryKey)
                        &&& after == before || exists|block_id: u128, now: i64|
                            after == #[trigger] before.with_block(
                                inbound_row(
                                    old(self).my_name@,
                                    interaction_id,
                                    message@,
                                    block_id,
                                    now,
                                ),
                            )
                    },
                }
            }),
    {
        let block_id: u128 = fresh_id();
        let opened_at: i64 = now_micros();
        let pending = match self.open_turn(interaction_id, message, block_id, opened_at) {
            None => {
                return Ok(None);
            },
            Some(pending) => pending,
        };
        proof {
            lemma_window(
                self.store(),
                interaction_id,
                self.store().session(interaction_id).long_term_memory_size,
            );
            assert forall|i: int| 0 <= i < pending.window.len() implies (
            #[trigger] pending.window[i]).interaction_id == pending.interaction.id by {
                assert(block_rows(pending.window@)[i] == pending.window[i]@);
            }
        }
        let outbound = match self.backend.predict_response(
            &pending.interaction,
            &pending.window,
            &pending.inbound,
        ) {
            Ok(block) => block,
            Err(e) => {
                return Err(AgentError::Backend(e));
            },
        };
        let closed_at: i64 = now_micros();
        match self.close_turn(pending, outbound, closed_at) {
            Ok((stored_inbound, stored_outbound)) => Ok(Some((stored_inbound, stored_outbound))),
            Err(e) => Err(AgentError::Memory(e)),
        }
    }

    /// Runs one turn on the default session, which is made first where
    /// there is none yet.
    pub fn interact_default(&mut self, message: &String) -> (turn: Result<
        Option<(InteractionBlock, InteractionBlock)>,
        AgentError,
    >)
        requires
            old(self).wf(),
        ensures
            final(self).wf(),
            final(self).same_identity(old(self)),
            ({
                let before = old(self).store();
                let after = final(self).store();
                let defaults = old(self).default_interaction@;
                match turn {
                    Ok(None) => false,
                    Ok(Some((inbound, outbound))) => {
                        &&& after.meta matches Some(meta)
                        &&& before.default_ready(defaults, meta).has_session(
                            meta.default_interaction_id,
                        )
                        &&& inbound@ == inbound_row(
                            old(self).my_name@,
                            meta.default_interaction_id,
                            message@,
                            inbound.id,
                            inbound.created_at,
                        )
                        &&& outbound.interaction_id == meta.default_interaction_id
                        &&& after == before.default_ready(defaults, meta).after_turn(
                            meta.default_interaction_id,
                            inbound@,
                            outbound@,
                            after.session(meta.default_interaction_id).updated_at,
                        )
                    },
                    Err(AgentError::Backend(_)) => {
                        &&& after.meta matches Some(meta)
                        &&& after == before.default_ready(defaults, meta)
                    },
                    Err(AgentError::Memory(e)) => {
                        &&& e == MemoryError::StoreError(Constraint::PrimaryKey)
                        &&& after == before || (after.meta matches Some(meta) && (after
                            == before.default_ready(defaults, meta) || exists|
                            block_id: u128,
                            now: i64,
                        |
                            after == #[trigger] before.default_ready(defaults, meta).with_block(
                                inbound_row(
                                    old(self).my_name@,
                                    meta.default_interaction_id,
                                    message@,
                                    block_id,
                                    now,
                                ),
                            )))
                    },
                }
            }),
    {
        let session = match self.get_default_interaction() {
            Ok(session) => session,
            Err(e) => {
                return Err(AgentError::Memory(e));
            },
        };
        self.interact(session.id, message)
    }
}

impl<State: InteractionState> Interaction<State> {
    /// The transcript window of this session in the store of `agent`: its
    /// `memory_size` oldest entries, oldest first.
    pub fn long_term_memory<Backend: AgentBackend>(
        &self,
        agent: &Agent<Backend>,
        memory_size: usize,
    ) -> (window: Vec<InteractionBlock>)
        ensures
            block_rows(window@) == agent.store().window(self.id, memory_size),
    {
        agent.memory_engine.get_interaction_long_term_memory(self.id, memory_size)
    }
}

impl Interaction<WithAgent> {
    /// Runs one turn on this session, with the agent it is bound to. A turn
    /// can be run on a bound session only.
    pub fn interact<Backend: AgentBackend>(
        &self,
        agent: &mut Agent<Backend>,
        message: &String,
    ) -> (turn: Result<Option<(InteractionBlock, InteractionBlock)>, AgentError>)
        requires
            old(agent).wf(),
        ensures
            final(agent).wf(),
            final(agent).same_identity(old(agent)),
            ({
                let before = old(agent).store();
                let after = final(agent).store();
                match turn {
                    Ok(None) => {
                        &&& !before.has_session(self.id)
                        &&& after == before
                        &&& final(agent).backend == old(agent).backend
                    },
                    Ok(Some((inbound, outbound))) => {
                        &&& before.has_session(self.id)
                        &&& inbound@ == inbound_row(
                            old(agent).my_name@,
                            self.id,
                            message@,
                            inbound.id,
                            inbound.created_at,
                        )
                        &&& outbound.interaction_id == self.id
                        &&& after == before.after_turn(
                            self.id,
                            inbound@,
                            outbound@,
                            after.session(self.id).updated_at,
                        )
                        &&& after.blocks.len() == before.blocks.len() + 2
                        &&& after.transcript(self.id).len() == before.transcript(self.id).len() + 2
                    },
                    Err(AgentError::Backend(_)) => before.has_session(self.id) && after == before,
                    Err(AgentError::Memory(e)) => {
                        &&& before.has_session(self.id)
                        &&& e == MemoryError::StoreError(Constraint::PrimaryKey)
                        &&& after == before || exists|block_id: u128, now: i64|
                            after == #[trigger] before.with_block(
                                inbound_row(old(agent).my_name@, self.id, message@, block_id, now),
                            )
                    },
                }
            }),
    {
        agent.interact(self.id, message)
    }
}

} // verus!

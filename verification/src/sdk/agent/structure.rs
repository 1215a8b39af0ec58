//! An agent and the configuration of its default session.

use vstd::prelude::*;

use crate::backend::interface::AgentBackend;
use crate::database::memory::MemoryEngine;
use crate::database::model::EngineData;
use crate::sdk::interactions::{AgentData, AgentHandle};

verus! {

/// The configuration of a default session, as mathematics.
pub struct DefaultsData {
    pub user_name: Seq<char>,
    pub constitution: Seq<char>,
    pub memory_size: usize,
}

/// How an agent sets up the session of callers who keep no session id.
#[derive(Debug)]
pub struct DefaultInteraction {
    pub user_name: String,
    pub constitution: String,
    pub memory_size: usize,
}

impl View for DefaultInteraction {
    type V = DefaultsData;

    open spec fn view(&self) -> DefaultsData {
        DefaultsData {
            user_name: self.user_name@,
            constitution: self.constitution@,
            memory_size: self.memory_size,
        }
    }
}

impl Clone for DefaultInteraction {
    fn clone(&self) -> (r: Self)
        ensures
            r == *self,
    {
        DefaultInteraction {
            user_name: self.user_name.clone(),
            constitution: self.constitution.clone(),
            memory_size: self.memory_size,
        }
    }
}

/// An agent: an identity, a name to answer under, the configuration of its
/// default session, and the two things it cannot be without and shares with
/// nobody, its backend and its memory engine.
pub struct Agent<Backend: AgentBackend> {
    pub id: u128,
    pub my_name: String,
    pub default_interaction: DefaultInteraction,
    pub backend: Backend,
    pub memory_engine: MemoryEngine,
}

impl<Backend: AgentBackend> Agent<Backend> {
    /// The store of the agent's memory engine.
    pub open spec fn store(&self) -> EngineData {
        self.memory_engine@
    }

    /// What a session bound to this agent remembers of it.
    pub open spec fn handle_data(&self) -> AgentData {
        AgentData { id: self.id, my_name: self.my_name@ }
    }

    /// An agent is well formed when its store keeps its constraints.
    pub open spec fn wf(&self) -> bool {
        self.store().wf()
    }

    /// Whether two agents are the same but for what their stores hold and
    /// the state of their backends.
    pub open spec fn same_identity(&self, other: &Self) -> bool {
        &&& self.id == other.id
        &&& self.my_name@ == other.my_name@
        &&& self.default_interaction@ == other.default_interaction@
    }

    /// The agent with the given identity, name and configuration, built
    /// around the given backend and memory engine. Nothing is stored.
    pub fn new(
        id: u128,
        my_name: String,
        default_interaction: DefaultInteraction,
        llm_engine: Backend,
        memory_engine: MemoryEngine,
    ) -> (agent: Self)
        ensures
            agent.id == id,
            agent.my_name@ == my_name@,
            agent.default_interaction@ == default_interaction@,
            agent.backend == llm_engine,
            agent.memory_engine == memory_engine,
    {
        Agent { id, my_name, default_interaction, backend: llm_engine, memory_engine }
    }

    /// The agent's memory engine, to read from.
    pub fn get_memory_engine(&self) -> (engine: &MemoryEngine)
        ensures
            *engine == self.memory_engine,
    {
        &self.memory_engine
    }

    /// The agent's backend.
    pub fn get_backend(&self) -> (backend: &Backend)
        ensures
            *backend == self.backend,
    {
        &self.backend
    }

    /// What a session needs to remember of this agent to be bound to it.
    pub fn handle(&self) -> (handle: AgentHandle)
        ensures
            handle@ == self.handle_data(),
    {
        AgentHandle { id: self.id, my_name: self.my_name.clone() }
    }
}

} // verus!

//! The entities of a conversation: transcript entries, sessions in their
//! detached and bound forms, and the pointer to the default session.

use std::marker::PhantomData;
use vstd::prelude::*;
use vstd::string::StringExecFns;

use crate::sdk::stamps::{fresh_id, now_micros};

verus! {

/// Who a transcript entry is attributed to.
#[derive(Copy, Debug, PartialEq, Eq, Structural)]
pub enum InteractionBlockRole {
    System,
    User,
    Agent,
}

impl Clone for InteractionBlockRole {
    fn clone(&self) -> (r: Self)
        ensures
            r == *self,
    {
        *self
    }
}

/// The text of the error that `InteractionBlockRole::from_str` gives.
pub open spec fn invalid_role_message() -> Seq<char> {
    "Invalid interaction block role"@
}

impl InteractionBlockRole {
    /// The tag under which the role is stored and rendered.
    pub open spec fn tag(self) -> Seq<char> {
        match self {
            InteractionBlockRole::System => "system"@,
            InteractionBlockRole::User => "user"@,
            InteractionBlockRole::Agent => "agent"@,
        }
    }

    /// The role that a tag names, if it names one.
    pub open spec fn of_tag(tag: Seq<char>) -> Option<InteractionBlockRole> {
        if tag == "system"@ {
            Some(InteractionBlockRole::System)
        } else if tag == "user"@ {
            Some(InteractionBlockRole::User)
        } else if tag == "agent"@ {
            Some(InteractionBlockRole::Agent)
        } else {
            None
        }
    }

    /// The role's tag.
    pub fn as_str(&self) -> (s: &'static str)
        ensures
            s@ == self.tag(),
    {
        match self {
            InteractionBlockRole::System => "system",
            InteractionBlockRole::User => "user",
            InteractionBlockRole::Agent => "agent",
        }
    }

    /// The role's tag, as an owned string.
    pub fn to_string(&self) -> (s: String)
        ensures
            s@ == self.tag(),
    {
        String::from_str(self.as_str())
    }

    /// Reads a role back from its tag. Exactly the three tags are accepted,
    /// in lower case and with nothing around them.
    pub fn from_str(s: &str) -> (r: Result<InteractionBlockRole, &'static str>)
        ensures
            match r {
                Ok(role) => Self::of_tag(s@) == Some(role),
                Err(message) => Self::of_tag(s@).is_none() && message@ == invalid_role_message(),
            },
    {
        let given = String::from_str(s);
        if given == String::from_str("system") {
            Ok(InteractionBlockRole::System)
        } else if given == String::from_str("user") {
            Ok(InteractionBlockRole::User)
        } else if given == String::from_str("agent") {
            Ok(InteractionBlockRole::Agent)
        } else {
            Err("Invalid interaction block role")
        }
    }
}

impl std::str::FromStr for InteractionBlockRole {
    type Err = &'static str;

    /// Reads a role back from its tag, as `InteractionBlockRole::from_str`
    /// does: exactly the three tags are accepted.
    fn from_str(s: &str) -> (r: Result<Self, Self::Err>)
        ensures
            match r {
                Ok(role) => InteractionBlockRole::of_tag(s@) == Some(role),
                Err(message) => InteractionBlockRole::of_tag(s@).is_none() && message@
                    == invalid_role_message(),
            },
    {
        InteractionBlockRole::from_str(s)
    }
}

/// Reading a role's own tag gives the role back.
pub proof fn lemma_role_tag_round_trip(role: InteractionBlockRole)
    ensures
        InteractionBlockRole::of_tag(role.tag()) == Some(role),
{
    reveal_strlit("system");
    reveal_strlit("user");
    reveal_strlit("agent");
    assert("system"@.len() == 6);
    assert("user"@.len() == 4);
}

/// What a transcript entry holds, as mathematics.
pub struct BlockData {
    pub id: u128,
    pub created_at: i64,
    pub updated_at: i64,
    pub role: InteractionBlockRole,
    pub content: Seq<char>,
    pub name: Option<Seq<char>>,
    pub interaction_id: u128,
}

/// The view of an optional text.
pub open spec fn text_view(text: Option<String>) -> Option<Seq<char>> {
    match text {
        Some(t) => Some(t@),
        None => None,
    }
}

/// One entry of a transcript: a single turn of one side of the conversation.
/// Once stored it is never changed.
#[derive(Debug)]
pub struct InteractionBlock {
    pub id: u128,
    pub created_at: i64,
    pub updated_at: i64,
    pub role: InteractionBlockRole,
    pub content: String,
    pub name: Option<String>,
    pub interaction_id: u128,
}

impl View for InteractionBlock {
    type V = BlockData;

    open spec fn view(&self) -> BlockData {
        BlockData {
            id: self.id,
            created_at: self.created_at,
            updated_at: self.updated_at,
            role: self.role,
            content: self.content@,
            name: text_view(self.name),
            interaction_id: self.interaction_id,
        }
    }
}

/// A copy of an optional text.
pub fn clone_text(text: &Option<String>) -> (r: Option<String>)
    ensures
        r == *text,
{
    match text {
        Some(t) => Some(t.clone()),
        None => None,
    }
}

impl Clone for InteractionBlock {
    fn clone(&self) -> (r: Self)
        ensures
            r == *self,
    {
        InteractionBlock {
            id: self.id,
            created_at: self.created_at,
            updated_at: self.updated_at,
            role: self.role,
            content: self.content.clone(),
            name: clone_text(&self.name),
            interaction_id: self.interaction_id,
        }
    }
}

impl BlockData {
    /// The name an entry is shown under: its display name where it has one,
    /// else the tag of its role.
    pub open spec fn label(self) -> Seq<char> {
        match self.name {
            Some(n) => n,
            None => self.role.tag(),
        }
    }
}

impl InteractionBlock {
    /// The entry with the given identity and creation time. Both timestamps
    /// are set to `now`.
    pub fn stamped(
        id: u128,
        now: i64,
        role: InteractionBlockRole,
        content: String,
        interaction_id: u128,
        name: Option<String>,
    ) -> (b: InteractionBlock)
        ensures
            b@ == (BlockData {
                id,
                created_at: now,
                updated_at: now,
                role,
                content: content@,
                name: text_view(name),
                interaction_id,
            }),
    {
        InteractionBlock { id, created_at: now, updated_at: now, role, content, name, interaction_id }
    }

    /// A new entry with a fresh identity, created now.
    pub fn new(
        role: InteractionBlockRole,
        content: String,
        interaction_id: u128,
        name: Option<String>,
    ) -> (b: InteractionBlock)
        ensures
            b@ == (BlockData {
                id: b.id,
                created_at: b.created_at,
                updated_at: b.created_at,
                role,
                content: content@,
                name: text_view(name),
                interaction_id,
            }),
    {
        let id: u128 = fresh_id();
        let now: i64 = now_micros();
        InteractionBlock::stamped(id, now, role, content, interaction_id, name)
    }

    /// A new entry in the role of the user.
    pub fn new_user(interaction_id: u128, content: String, name: Option<String>) -> (b:
        InteractionBlock)
        ensures
            b@ == (BlockData {
                id: b.id,
                created_at: b.created_at,
                updated_at: b.created_at,
                role: InteractionBlockRole::User,
                content: content@,
                name: text_view(name),
                interaction_id,
            }),
    {
        InteractionBlock::new(InteractionBlockRole::User, content, interaction_id, name)
    }

    /// A new entry in the role of the agent.
    pub fn new_agent(interaction_id: u128, content: String, name: Option<String>) -> (b:
        InteractionBlock)
        ensures
            b@ == (BlockData {
                id: b.id,
                created_at: b.created_at,
                updated_at: b.created_at,
                role: InteractionBlockRole::Agent,
                content: content@,
                name: text_view(name),
                interaction_id,
            }),
    {
        InteractionBlock::new(InteractionBlockRole::Agent, content, interaction_id, name)
    }

    /// A new entry in the role of the system.
    pub fn new_system(interaction_id: u128, content: String, name: Option<String>) -> (b:
        InteractionBlock)
        ensures
            b@ == (BlockData {
                id: b.id,
                created_at: b.created_at,
                updated_at: b.created_at,
                role: InteractionBlockRole::System,
                content: content@,
                name: text_view(name),
                interaction_id,
            }),
    {
        InteractionBlock::new(InteractionBlockRole::System, content, interaction_id, name)
    }
}

/// The two states of a session. A state says whether a session of that
/// state carries the agent it was bound to.
pub trait InteractionState {
    spec fn is_bound() -> bool;
}

/// The state of a session that an agent has been supplied for.
#[derive(Clone, Copy, Debug)]
pub struct WithAgent;

/// The state of a session as lookups and listings return it.
#[derive(Clone, Copy, Debug)]
pub struct WithoutAgent;

impl InteractionState for WithAgent {
    open spec fn is_bound() -> bool {
        true
    }
}

impl InteractionState for WithoutAgent {
    open spec fn is_bound() -> bool {
        false
    }
}

/// What a bound session remembers of its agent, as mathematics.
pub struct AgentData {
    pub id: u128,
    pub my_name: Seq<char>,
}

/// What a bound session remembers of its agent: who it is and the name it
/// answers under. The agent itself, with its backend and its store, stays
/// with its owner and is handed to each operation that needs it.
#[derive(Debug)]
pub struct AgentHandle {
    pub id: u128,
    pub my_name: String,
}

impl View for AgentHandle {
    type V = AgentData;

    open spec fn view(&self) -> AgentData {
        AgentData { id: self.id, my_name: self.my_name@ }
    }
}

impl Clone for AgentHandle {
    fn clone(&self) -> (r: Self)
        ensures
            r == *self,
    {
        AgentHandle { id: self.id, my_name: self.my_name.clone() }
    }
}

/// The view of an optional handle.
pub open spec fn handle_view(agent: Option<AgentHandle>) -> Option<AgentData> {
    match agent {
        Some(a) => Some(a@),
        None => None,
    }
}

/// What a session holds, as mathematics.
pub struct SessionData {
    pub id: u128,
    pub created_at: i64,
    pub updated_at: i64,
    pub user_name: Seq<char>,
    pub constitution: Seq<char>,
    pub short_term_memory: Seq<char>,
    pub long_term_memory_size: usize,
    pub agent: Option<AgentData>,
}

impl SessionData {
    /// The same session without its agent.
    pub open spec fn detached(self) -> SessionData {
        SessionData { agent: None, ..self }
    }

    /// The same session, bound to `agent`.
    pub open spec fn bound_to(self, agent: AgentData) -> SessionData {
        SessionData { agent: Some(agent), ..self }
    }

    /// The session that creation gives: empty scratch buffer, both
    /// timestamps equal, no agent.
    pub open spec fn fresh(
        id: u128,
        now: i64,
        user_name: Seq<char>,
        constitution: Seq<char>,
        long_term_memory_size: usize,
    ) -> SessionData {
        SessionData {
            id,
            created_at: now,
            updated_at: now,
            user_name,
            constitution,
            short_term_memory: Seq::empty(),
            long_term_memory_size,
            agent: None,
        }
    }
}

/// A conversation session. In state `WithoutAgent` it can be read and its
/// metadata updated; only in state `WithAgent` can a turn be run on it.
#[derive(Debug)]
pub struct Interaction<State: InteractionState = WithoutAgent> {
    pub id: u128,
    pub created_at: i64,
    pub updated_at: i64,
    pub user_name: String,
    pub constitution: String,
    pub short_term_memory: String,
    pub long_term_memory_size: usize,
    pub state: PhantomData<State>,
    pub agent: Option<AgentHandle>,
}

impl<State: InteractionState> View for Interaction<State> {
    type V = SessionData;

    open spec fn view(&self) -> SessionData {
        SessionData {
            id: self.id,
            created_at: self.created_at,
            updated_at: self.updated_at,
            user_name: self.user_name@,
            constitution: self.constitution@,
            short_term_memory: self.short_term_memory@,
            long_term_memory_size: self.long_term_memory_size,
            agent: handle_view(self.agent),
        }
    }
}

impl<State: InteractionState> Clone for Interaction<State> {
    fn clone(&self) -> (r: Self)
        ensures
            r == *self,
    {
        Interaction {
            id: self.id,
            created_at: self.created_at,
            updated_at: self.updated_at,
            user_name: self.user_name.clone(),
            constitution: self.constitution.clone(),
            short_term_memory: self.short_term_memory.clone(),
            long_term_memory_size: self.long_term_memory_size,
            state: PhantomData,
            agent: match &self.agent {
                Some(a) => Some(a.clone()),
                None => None,
            },
        }
    }
}

impl<State: InteractionState> Interaction<State> {
    /// A session is well formed when it carries an agent exactly in the
    /// bound state.
    pub open spec fn wf(&self) -> bool {
        self.agent.is_some() == State::is_bound()
    }

    /// Binds the session to an agent. The session itself is left as it is;
    /// the bound form is a copy of it that carries the agent.
    pub fn with_agent(&self, agent: AgentHandle) -> (bound: Interaction<WithAgent>)
        ensures
            bound.wf(),
            bound@ == self@.bound_to(agent@),
    {
        Interaction {
            id: self.id,
            created_at: self.created_at,
            updated_at: self.updated_at,
            user_name: self.user_name.clone(),
            constitution: self.constitution.clone(),
            short_term_memory: self.short_term_memory.clone(),
            long_term_memory_size: self.long_term_memory_size,
            state: PhantomData,
            agent: Some(agent),
        }
    }
}

impl Interaction<WithoutAgent> {
    /// The detached session with the given identity and creation time.
    pub fn stamped(
        id: u128,
        now: i64,
        user_name: String,
        constitution: String,
        default_long_term_memory_size: usize,
    ) -> (session: Interaction<WithoutAgent>)
        ensures
            session.wf(),
            session@ == SessionData::fresh(
                id,
                now,
                user_name@,
                constitution@,
                default_long_term_memory_size,
            ),
    {
        Interaction {
            id,
            created_at: now,
            updated_at: now,
            user_name,
            constitution,
            short_term_memory: String::new(),
            long_term_memory_size: default_long_term_memory_size,
            state: PhantomData,
            agent: None,
        }
    }

    /// A new detached session with a fresh identity, created now.
    pub fn new(
        user_name: String,
        constitution: String,
        default_long_term_memory_size: usize,
    ) -> (session: Interaction<WithoutAgent>)
        ensures
            session.wf(),
            session@ == SessionData::fresh(
                session.id,
                session.created_at,
                user_name@,
                constitution@,
                default_long_term_memory_size,
            ),
    {
        let id: u128 = fresh_id();
        let now: i64 = now_micros();
        Interaction::stamped(id, now, user_name, constitution, default_long_term_memory_size)
    }

    /// A new session with a fresh identity, created now and bound to `agent`
    /// from the start.
    pub fn new_with_agent(
        user_name: String,
        constitution: String,
        default_long_term_memory_size: usize,
        agent: AgentHandle,
    ) -> (session: Interaction<WithAgent>)
        ensures
            session.wf(),
            session@ == SessionData::fresh(
                session.id,
                session.created_at,
                user_name@,
                constitution@,
                default_long_term_memory_size,
            ).bound_to(agent@),
    {
        let detached = Interaction::new(user_name, constitution, default_long_term_memory_size);
        detached.with_agent(agent)
    }
}

impl Default for Interaction<WithoutAgent> {
    /// A detached session with a fresh identity and nothing else set.
    fn default() -> (session: Self)
        ensures
            session.wf(),
            session@ == SessionData::fresh(
                session.id,
                session.created_at,
                Seq::empty(),
                Seq::empty(),
                0,
            ),
    {
        Interaction::new(String::new(), String::new(), 0)
    }
}

/// The one row that names the default session: the session of callers who
/// keep no session id of their own.
#[derive(Copy, Debug, PartialEq, Eq, Structural)]
pub struct Meta {
    pub id: u128,
    pub created_at: i64,
    pub updated_at: i64,
    pub default_interaction_id: u128,
}

impl Clone for Meta {
    fn clone(&self) -> (r: Self)
        ensures
            r == *self,
    {
        *self
    }
}

/// The views of a sequence of transcript entries.
pub open spec fn block_rows(blocks: Seq<InteractionBlock>) -> Seq<BlockData> {
    blocks.map_values(|b: InteractionBlock| b@)
}

/// The views of a sequence of sessions.
pub open spec fn session_rows<State: InteractionState>(sessions: Seq<Interaction<State>>) -> Seq<
    SessionData,
> {
    sessions.map_values(|s: Interaction<State>| s@)
}

} // verus!

//! Building an agent step by step.

use std::marker::PhantomData;
use vstd::prelude::*;
use vstd::string::{StrSliceExecFns, StringExecFns};

use crate::backend::interface::AgentBackend;
use crate::database::memory::{Constraint, MemoryEngine, MemoryError};
use crate::database::model::AgentRowData;
use crate::sdk::agent::structure::{Agent, DefaultsData};
use crate::sdk::interactions::text_view;

verus! {

/// The number that a decimal digit stands for.
pub open spec fn digit(c: char) -> Option<nat> {
    match c {
        '0' => Some(0nat),
        '1' => Some(1nat),
        '2' => Some(2nat),
        '3' => Some(3nat),
        '4' => Some(4nat),
        '5' => Some(5nat),
        '6' => Some(6nat),
        '7' => Some(7nat),
        '8' => Some(8nat),
        '9' => Some(9nat),
        _ => None,
    }
}

/// Whether a text is made of decimal digits only.
pub open spec fn all_digits(text: Seq<char>) -> bool {
    forall|i: int| 0 <= i < text.len() ==> digit(#[trigger] text[i]).is_some()
}

/// The number that a text of decimal digits stands for.
pub open spec fn decimal(text: Seq<char>) -> nat
    decreases text.len(),
{
    if text.len() == 0 {
        0
    } else {
        decimal(text.drop_last()) * 10 + digit(text.last()).unwrap()
    }
}

/// A text without the plus sign that it may begin with.
pub open spec fn unsigned_part(text: Seq<char>) -> Seq<char> {
    if text.len() > 0 && text[0] == '+' {
        text.skip(1)
    } else {
        text
    }
}

/// The size that a text stands for: decimal digits, at least one, with a
/// plus sign before them or none, and nothing else; the number must fit.
pub open spec fn parsed_size(text: Seq<char>) -> Option<usize> {
    let digits = unsigned_part(text);
    if digits.len() > 0 && all_digits(digits) && decimal(digits) <= usize::MAX {
        Some(decimal(digits) as usize)
    } else {
        None
    }
}

/// A number of several digits is no smaller than any of its beginnings.
pub proof fn lemma_decimal_grows(text: Seq<char>, k: int)
    requires
        all_digits(text),
        0 <= k <= text.len(),
    ensures
        decimal(text.take(k)) <= decimal(text),
    decreases text.len(),
{
    if k == text.len() {
        assert(text.take(k) =~= text);
    } else {
        let front = text.drop_last();
        lemma_decimal_grows(front, k);
        assert(front.take(k) =~= text.take(k));
    }
}

/// The number that a decimal digit stands for.
pub fn digit_of(c: char) -> (value: Option<usize>)
    ensures
        match value {
            Some(d) => digit(c) == Some(d as nat) && d <= 9,
            None => digit(c).is_none(),
        },
{
    match c {
        '0' => Some(0),
        '1' => Some(1),
        '2' => Some(2),
        '3' => Some(3),
        '4' => Some(4),
        '5' => Some(5),
        '6' => Some(6),
        '7' => Some(7),
        '8' => Some(8),
        '9' => Some(9),
        _ => None,
    }
}

/// Reads a size from its decimal form.
pub fn parse_size(text: &str) -> (size: Option<usize>)
    ensures
        size == parsed_size(text@),
{
    let n = text.unicode_len();
    let start: usize = if n > 0 && text.get_char(0) == '+' {
        1
    } else {
        0
    };
    if start == n {
        return None;
    }
    let ghost digits = text@.skip(start as int);
    let mut value: usize = 0;
    let mut i: usize = start;
    while i < n
        invariant
            n == text@.len(),
            start <= i <= n,
            start < n,
            digits == text@.skip(start as int),
            digits == unsigned_part(text@),
            all_digits(digits.take(i - start)),
            value == decimal(digits.take(i - start)),
        decreases n - i,
    {
        let c = text.get_char(i);
        let ghost seen = digits.take(i - start);
        let ghost next = digits.take(i - start + 1);
        assert(next.drop_last() =~= seen);
        assert(next.last() == c);
        let d = match digit_of(c) {
            Some(d) => d,
            None => {
                return None;
            },
        };
        let grown = match value.checked_mul(10) {
            Some(tenfold) => tenfold.checked_add(d),
            None => None,
        };
        value = match grown {
            Some(v) => v,
            None => {
                proof {
                    if all_digits(digits) {
                        lemma_decimal_grows(digits, i - start + 1);
                    }
                }
                return None;
            },
        };
        i += 1;
    }
    assert(digits.take(n - start) =~= digits);
    Some(value)
}

/// What a builder has been told so far, as mathematics.
pub struct BuilderData {
    pub agent_name: Seq<char>,
    pub default_user_name: Seq<char>,
    pub default_constitution: Seq<char>,
    pub default_memory_size: usize,
}

impl BuilderData {
    /// What a builder starts from: an agent called "Agent", whose default
    /// session is for a user called "User", has the persona "A simple
    /// communicative chatbot" and a transcript window of 10 entries.
    pub open spec fn initial() -> BuilderData {
        BuilderData {
            agent_name: "Agent"@,
            default_user_name: "User"@,
            default_constitution: "A simple communicative chatbot"@,
            default_memory_size: 10,
        }
    }

    /// What a builder starts from where some settings are given: each
    /// setting that is given replaces its initial value. A window size is
    /// given as text, and counts as not given where the text is no size.
    pub open spec fn configured(
        agent_name: Option<Seq<char>>,
        default_user_name: Option<Seq<char>>,
        default_constitution: Option<Seq<char>>,
        default_memory_size: Option<Seq<char>>,
    ) -> BuilderData {
        let initial = BuilderData::initial();
        BuilderData {
            agent_name: match agent_name {
                Some(name) => name,
                None => initial.agent_name,
            },
            default_user_name: match default_user_name {
                Some(name) => name,
                None => initial.default_user_name,
            },
            default_constitution: match default_constitution {
                Some(text) => text,
                None => initial.default_constitution,
            },
            default_memory_size: match default_memory_size {
                Some(text) => match parsed_size(text) {
                    Some(size) => size,
                    None => initial.default_memory_size,
                },
                None => initial.default_memory_size,
            },
        }
    }

    /// The configuration of the default session.
    pub open spec fn defaults(self) -> DefaultsData {
        DefaultsData {
            user_name: self.default_user_name,
            constitution: self.default_constitution,
            memory_size: self.default_memory_size,
        }
    }
}

/// Collects the name of an agent and the configuration of its default
/// session, and builds the agent from them.
pub struct AgentBuilder<Backend: AgentBackend> {
    agent_name: String,
    default_user_name: String,
    default_constitution: String,
    default_memory_size: usize,
    backend: PhantomData<Backend>,
}

impl<Backend: AgentBackend> View for AgentBuilder<Backend> {
    type V = BuilderData;

    closed spec fn view(&self) -> BuilderData {
        BuilderData {
            agent_name: self.agent_name@,
            default_user_name: self.default_user_name@,
            default_constitution: self.default_constitution@,
            default_memory_size: self.default_memory_size,
        }
    }
}

impl<Backend: AgentBackend> AgentBuilder<Backend> {
    /// A builder with the initial configuration.
    pub fn new() -> (builder: AgentBuilder<Backend>)
        ensures
            builder@ == BuilderData::initial(),
    {
        AgentBuilder {
            agent_name: String::from_str("Agent"),
            default_user_name: String::from_str("User"),
            default_constitution: String::from_str("A simple communicative chatbot"),
            default_memory_size: 10,
            backend: PhantomData,
        }
    }

    /// A builder that starts from the given settings, as far as they are
    /// given, and from the initial configuration for the rest.
    pub fn from_settings(
        agent_name: Option<String>,
        default_user_name: Option<String>,
        default_constitution: Option<String>,
        default_memory_size: Option<String>,
    ) -> (builder: AgentBuilder<Backend>)
        ensures
            builder@ == BuilderData::configured(
                text_view(agent_name),
                text_view(default_user_name),
                text_view(default_constitution),
                text_view(default_memory_size),
            ),
    {
        let size = match default_memory_size {
            Some(text) => match parse_size(text.as_str()) {
                Some(size) => size,
                None => 10,
            },
            None => 10,
        };
        AgentBuilder {
            agent_name: match agent_name {
                Some(name) => name,
                None => String::from_str("Agent"),
            },
            default_user_name: match default_user_name {
                Some(name) => name,
                None => String::from_str("User"),
            },
            default_constitution: match default_constitution {
                Some(text) => text,
                None => String::from_str("A simple communicative chatbot"),
            },
            default_memory_size: size,
            backend: PhantomData,
        }
    }

    /// Sets the name that the agent answers under.
    pub fn name(&mut self, my_name: String) -> (builder: &mut Self)
        ensures
            builder@ == (BuilderData { agent_name: my_name@, ..old(self)@ }),
            *final(self) == *final(builder),
    {
        self.agent_name = my_name;
        self
    }

    /// Sets the persona of the default session.
    pub fn default_constitution(&mut self, constitution: String) -> (builder: &mut Self)
        ensures
            builder@ == (BuilderData { default_constitution: constitution@, ..old(self)@ }),
            *final(self) == *final(builder),
    {
        self.default_constitution = constitution;
        self
    }

    /// Sets the user name of the default session.
    pub fn default_user_name(&mut self, user_name: String) -> (builder: &mut Self)
        ensures
            builder@ == (BuilderData { default_user_name: user_name@, ..old(self)@ }),
            *final(self) == *final(builder),
    {
        self.default_user_name = user_name;
        self
    }

    /// Sets the size of the transcript window of the default session.
    pub fn default_memory_size(&mut self, memory_size: usize) -> (builder: &mut Self)
        ensures
            builder@ == (BuilderData { default_memory_size: memory_size, ..old(self)@ }),
            *final(self) == *final(builder),
    {
        self.default_memory_size = memory_size;
        self
    }

    /// Builds the agent around `llm_engine` and `memory_engine`, and stores
    /// its row in that engine. The builder stays as it is and can build
    /// again.
    pub fn build(&self, llm_engine: Backend, memory_engine: MemoryEngine) -> (made: Result<
        Agent<Backend>,
        MemoryError,
    >)
        requires
            memory_engine@.wf(),
        ensures
            match made {
                Ok(agent) => {
                    let row = agent.store().agents.last();
                    &&& agent.wf()
                    &&& agent.my_name@ == self@.agent_name
                    &&& agent.default_interaction@ == self@.defaults()
                    &&& agent.backend == llm_engine
                    &&& !memory_engine@.has_agent(agent.id)
                    &&& agent.store() == memory_engine@.with_agent_row(row)
                    &&& row == (AgentRowData {
                        id: agent.id,
                        created_at: row.created_at,
                        updated_at: row.created_at,
                        name: self@.agent_name,
                        defaults: self@.defaults(),
                    })
                },
                Err(e) => e == MemoryError::StoreError(Constraint::PrimaryKey),
            },
            memory_engine@.agents.len() == 0 ==> made.is_ok(),
    {
        memory_engine.new_agent(
            self.agent_name.clone(),
            self.default_user_name.clone(),
            self.default_constitution.clone(),
            self.default_memory_size,
            llm_engine,
        )
    }
}

impl<Backend: AgentBackend> Default for AgentBuilder<Backend> {
    /// A builder with the initial configuration.
    fn default() -> (builder: Self)
        ensures
            builder@ == BuilderData::initial(),
    {
        AgentBuilder::new()
    }
}

} // verus!

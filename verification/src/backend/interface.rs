//! The prediction capability that an agent is built around.

use vstd::prelude::*;

use crate::sdk::interactions::{Interaction, InteractionBlock, WithAgent};

verus! {

/// Why a backend could not produce a reply.
#[derive(Debug)]
pub enum BackendError {
    /// The provider could not be reached; the text says how the request failed.
    Http(String),
    /// The provider answered with something that could not be read.
    Json(String),
    /// The provider's answer was read but holds no reply.
    InvalidResponse(String),
}

/// Produces the agent's reply to one inbound entry.
///
/// A backend is handed a bound session, the session's transcript window and
/// the inbound entry, and nothing else: it has no access to the store, so
/// whatever it does, and however it fails, the transcript stays as it was.
/// Persisting both entries is the agent's work, after the reply is in.
pub trait AgentBackend {
    fn predict_response(
        &mut self,
        interaction: &Interaction<WithAgent>,
        window: &Vec<InteractionBlock>,
        input: &InteractionBlock,
    ) -> (reply: Result<InteractionBlock, BackendError>)
        requires
            interaction.wf(),
            input.interaction_id == interaction.id,
            window.len() <= interaction.long_term_memory_size,
            forall|i: int|
                0 <= i < window.len() ==> (#[trigger] window[i]).interaction_id == interaction.id,
    ;
}

} // verus!

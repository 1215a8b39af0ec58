//! The prompt protocol of the completion-style backend: how a session's
//! transcript window, its scratch buffer and the inbound entry become the
//! prompt, and how the provider's answer becomes the outbound entry. The
//! request itself is the caller's to make, between the two.

use vstd::prelude::*;
use vstd::string::{StrSliceExecFns, StringExecFns};

use crate::backend::interface::BackendError;
use crate::sdk::interactions::{
    block_rows, BlockData, Interaction, InteractionBlock, SessionData, WithAgent,
};
use crate::sdk::stamps::{fresh_id, now_micros};

verus! {

/// Whether a character is white space: what `char::is_whitespace` says of
/// it, which is whether it has the Unicode property `White_Space`.
pub uninterp spec fn white_space(c: char) -> bool;

/// `char::is_whitespace`: whether the character is white space. The answer
/// depends on the character alone.
#[verifier::external_body]
fn is_white_space(c: char) -> (b: bool)
    ensures
        b == white_space(c),
{
    c.is_whitespace()
}

/// A text without its leading white space.
pub open spec fn strip_start(text: Seq<char>) -> Seq<char>
    decreases text.len(),
{
    if text.len() > 0 && white_space(text.first()) {
        strip_start(text.skip(1))
    } else {
        text
    }
}

/// A text without its trailing white space.
pub open spec fn strip_end(text: Seq<char>) -> Seq<char>
    decreases text.len(),
{
    if text.len() > 0 && white_space(text.last()) {
        strip_end(text.drop_last())
    } else {
        text
    }
}

/// A text without its leading and trailing white space.
pub open spec fn trimmed(text: Seq<char>) -> Seq<char> {
    strip_end(strip_start(text))
}

/// The text without its leading and trailing white space.
pub fn trim(text: &str) -> (stripped: String)
    ensures
        stripped@ == trimmed(text@),
{
    let n = text.unicode_len();
    let mut start: usize = 0;
    let mut scanning = true;
    assert(text@.skip(0) =~= text@);
    while scanning && start < n
        invariant
            n == text@.len(),
            start <= n,
            strip_start(text@) == strip_start(text@.skip(start as int)),
            !scanning ==> start < n && !white_space(text@[start as int]),
        decreases n - start + if scanning { 1int } else { 0int },
    {
        let c = text.get_char(start);
        if is_white_space(c) {
            assert(text@.skip(start as int).skip(1) =~= text@.skip(start + 1));
            start += 1;
        } else {
            scanning = false;
        }
    }
    let mut end: usize = n;
    scanning = true;
    while scanning && end > start
        invariant
            n == text@.len(),
            start <= end <= n,
            trimmed(text@) == strip_end(text@.subrange(start as int, end as int)),
            !scanning ==> end > start && !white_space(text@[end - 1]),
        decreases end - start + if scanning { 1int } else { 0int },
    {
        let c = text.get_char(end - 1);
        if is_white_space(c) {
            assert(text@.subrange(start as int, end as int).drop_last() =~= text@.subrange(
                start as int,
                end - 1,
            ));
            end -= 1;
        } else {
            scanning = false;
        }
    }
    String::from_str(text.substring_char(start, end))
}

/// One transcript entry as a line of the prompt: the name it is shown
/// under, a colon and a space, and its content.
pub open spec fn rendered(block: BlockData) -> Seq<char> {
    block.label() + ": "@ + block.content
}

/// A transcript window as text: each entry rendered, one per line, with no
/// line break after the last.
pub open spec fn compiled_window(window: Seq<BlockData>) -> Seq<char>
    decreases window.len(),
{
    if window.len() == 0 {
        Seq::empty()
    } else if window.len() == 1 {
        rendered(window[0])
    } else {
        compiled_window(window.drop_last()) + "\n"@ + rendered(window.last())
    }
}

/// The prompt: the window, the scratch buffer, the line of the new message
/// under the user's name, and the opening of the line that the reply will
/// complete, under the name of the inbound entry.
pub open spec fn prompt_text(window: Seq<BlockData>, session: SessionData, input: BlockData) -> Seq<
    char,
> {
    compiled_window(window) + "\n"@ + session.short_term_memory + "\n"@ + session.user_name + ": "@
        + input.content + "\n"@ + input.label() + ": "@
}

/// The name an entry is shown under.
pub fn label_of(block: &InteractionBlock) -> (label: String)
    ensures
        label@ == block@.label(),
{
    match &block.name {
        Some(name) => name.clone(),
        None => block.role.to_string(),
    }
}

/// One transcript entry as a line of the prompt.
pub fn render_block(block: &InteractionBlock) -> (line: String)
    ensures
        line@ == rendered(block@),
{
    let mut line = label_of(block);
    line.append(": ");
    line.append(block.content.as_str());
    line
}

/// A transcript window as text.
pub fn compile_window(window: &Vec<InteractionBlock>) -> (text: String)
    ensures
        text@ == compiled_window(block_rows(window@)),
{
    let mut text = String::new();
    let mut i: usize = 0;
    while i < window.len()
        invariant
            i <= window.len(),
            text@ == compiled_window(block_rows(window@).take(i as int)),
        decreases window.len() - i,
    {
        let ghost seen = block_rows(window@).take(i as int);
        let ghost next = block_rows(window@).take(i + 1);
        assert(next.drop_last() =~= seen);
        if i > 0 {
            text.append("\n");
        }
        let line = render_block(&window[i]);
        text.append(line.as_str());
        i += 1;
    }
    assert(block_rows(window@).take(i as int) =~= block_rows(window@));
    text
}

/// Compiles the prompt for one turn, from the session's transcript window,
/// its scratch buffer and the inbound entry, and from nothing else.
pub fn compile_prompt(
    window: &Vec<InteractionBlock>,
    interaction: &Interaction<WithAgent>,
    input: &InteractionBlock,
) -> (prompt: String)
    ensures
        prompt@ == prompt_text(block_rows(window@), interaction@, input@),
{
    let mut prompt = compile_window(window);
    prompt.append("\n");
    prompt.append(interaction.short_term_memory.as_str());
    prompt.append("\n");
    prompt.append(interaction.user_name.as_str());
    prompt.append(": ");
    prompt.append(input.content.as_str());
    prompt.append("\n");
    let responder = label_of(input);
    prompt.append(responder.as_str());
    prompt.append(": ");
    prompt
}

/// The text of the error for an answer without choices.
pub open spec fn no_choice_message() -> Seq<char> {
    "the provider returned no choice"@
}

/// The outbound entry for the provider's answer: the text of the first
/// choice, without the white space around it, under the agent's name. The
/// entry takes the role of the inbound entry, whatever that is. An answer
/// without choices is an invalid response.
pub fn reply_block(
    interaction: &Interaction<WithAgent>,
    input: &InteractionBlock,
    choices: &Vec<String>,
    id: u128,
    now: i64,
) -> (reply: Result<InteractionBlock, BackendError>)
    requires
        interaction.wf(),
    ensures
        match reply {
            Ok(block) => {
                &&& choices.len() > 0
                &&& block@ == (BlockData {
                    id,
                    created_at: now,
                    updated_at: now,
                    role: input.role,
                    content: trimmed(choices[0]@),
                    name: Some(interaction@.agent.unwrap().my_name),
                    interaction_id: interaction.id,
                })
            },
            Err(e) => {
                &&& choices.len() == 0
                &&& e matches BackendError::InvalidResponse(message)
                &&& message@ == no_choice_message()
            },
        },
{
    if choices.len() == 0 {
        let message = String::from_str("the provider returned no choice");
        return Err(BackendError::InvalidResponse(message));
    }
    let content = trim(choices[0].as_str());
    // A bound session always carries its agent.
    let agent = interaction.agent.as_ref().unwrap();
    Ok(
        InteractionBlock::stamped(
            id,
            now,
            input.role,
            content,
            interaction.id,
            Some(agent.my_name.clone()),
        ),
    )
}

/// The outbound entry for the provider's answer, under a fresh identity and
/// created now.
pub fn new_reply_block(
    interaction: &Interaction<WithAgent>,
    input: &InteractionBlock,
    choices: &Vec<String>,
) -> (reply: Result<InteractionBlock, BackendError>)
    requires
        interaction.wf(),
    ensures
        match reply {
            Ok(block) => {
                &&& choices.len() > 0
                &&& block@ == (BlockData {
                    id: block.id,
                    created_at: block.created_at,
                    updated_at: block.created_at,
                    role: input.role,
                    content: trimmed(choices[0]@),
                    name: Some(interaction@.agent.unwrap().my_name),
                    interaction_id: interaction.id,
                })
            },
            Err(e) => {
                &&& choices.len() == 0
                &&& e matches BackendError::InvalidResponse(message)
                &&& message@ == no_choice_message()
            },
        },
{
    let id: u128 = fresh_id();
    let now: i64 = now_micros();
    reply_block(interaction, input, choices, id, now)
}

} // verus!

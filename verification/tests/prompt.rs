use myself::backend::interface::BackendError;
use myself::backend::openai::{
    compile_prompt, compile_window, label_of, new_reply_block, render_block, reply_block, trim,
};
use myself::sdk::interactions::{AgentHandle, Interaction, InteractionBlock, InteractionBlockRole};

fn bound_session(scratch: &str) -> Interaction<myself::sdk::interactions::WithAgent> {
    let mut session = Interaction::stamped(1, 0, "Joe".to_string(), "helpful bot".to_string(), 2)
        .with_agent(AgentHandle { id: 9, my_name: "Bot".to_string() });
    session.short_term_memory = scratch.to_string();
    session
}

fn block(role: InteractionBlockRole, content: &str, name: Option<&str>) -> InteractionBlock {
    InteractionBlock::stamped(1, 0, role, content.to_string(), 1, name.map(|n| n.to_string()))
}

#[test]
fn entry_is_shown_under_its_name_or_else_its_role() {
    assert_eq!(label_of(&block(InteractionBlockRole::User, "hi", Some("Joe"))), "Joe");
    assert_eq!(label_of(&block(InteractionBlockRole::User, "hi", None)), "user");
    assert_eq!(label_of(&block(InteractionBlockRole::System, "hi", None)), "system");
    assert_eq!(label_of(&block(InteractionBlockRole::Agent, "hi", None)), "agent");
}

#[test]
fn entry_is_rendered_as_one_line() {
    assert_eq!(render_block(&block(InteractionBlockRole::User, "hi", Some("Joe"))), "Joe: hi");
    assert_eq!(render_block(&block(InteractionBlockRole::Agent, "", None)), "agent: ");
}

#[test]
fn window_is_one_line_per_entry() {
    assert_eq!(compile_window(&vec![]), "");
    assert_eq!(compile_window(&vec![block(InteractionBlockRole::User, "hi", Some("Joe"))]), "Joe: hi");
    let window = vec![
        block(InteractionBlockRole::User, "hi", Some("Joe")),
        block(InteractionBlockRole::Agent, "hello", None),
        block(InteractionBlockRole::System, "be brief", None),
    ];
    assert_eq!(compile_window(&window), "Joe: hi\nagent: hello\nsystem: be brief");
}

#[test]
fn prompt_ends_with_the_opening_of_the_reply() {
    let window = vec![
        block(InteractionBlockRole::Agent, "hi", Some("Bot")),
        block(InteractionBlockRole::Agent, "hello Joe", Some("Bot")),
    ];
    let input = block(InteractionBlockRole::Agent, "how are you?", Some("Bot"));
    let prompt = compile_prompt(&window, &bound_session("Joe likes tea"), &input);
    assert_eq!(prompt, "Bot: hi\nBot: hello Joe\nJoe likes tea\nJoe: how are you?\nBot: ");
}

#[test]
fn prompt_of_a_fresh_session_has_empty_lines_for_what_is_missing() {
    let input = block(InteractionBlockRole::User, "hi", None);
    let prompt = compile_prompt(&vec![], &bound_session(""), &input);
    assert_eq!(prompt, "\n\nJoe: hi\nuser: ");
}

#[test]
fn prompt_does_not_hold_the_persona() {
    let input = block(InteractionBlockRole::User, "hi", None);
    let prompt = compile_prompt(&vec![], &bound_session("note"), &input);
    assert!(!prompt.contains("helpful bot"));
}

#[test]
fn reply_is_the_first_choice_without_the_white_space_around_it() {
    let session = bound_session("");
    let input = block(InteractionBlockRole::User, "hi", Some("Joe"));
    let choices = vec!["\n\t  hello  Joe \u{a0}\r\n".to_string(), "second".to_string()];
    let reply = reply_block(&session, &input, &choices, 77, 1_234).expect("there is a choice");
    assert_eq!(reply.content, "hello  Joe");
    assert_eq!(reply.id, 77);
    assert_eq!(reply.created_at, 1_234);
    assert_eq!(reply.updated_at, 1_234);
    assert_eq!(reply.role, InteractionBlockRole::User);
    assert_eq!(reply.name, Some("Bot".to_string()));
    assert_eq!(reply.interaction_id, 1);
}

#[test]
fn reply_of_white_space_alone_is_empty() {
    let session = bound_session("");
    let input = block(InteractionBlockRole::Agent, "hi", None);
    let reply = reply_block(&session, &input, &vec![" \n ".to_string()], 1, 1).expect("a choice");
    assert_eq!(reply.content, "");
    assert_eq!(reply.role, InteractionBlockRole::Agent);
}

#[test]
fn answer_without_choices_is_an_invalid_response() {
    let session = bound_session("");
    let input = block(InteractionBlockRole::User, "hi", None);
    match reply_block(&session, &input, &vec![], 1, 1) {
        Err(BackendError::InvalidResponse(message)) => {
            assert_eq!(message, "the provider returned no choice")
        }
        other => panic!("expected an invalid response, got {:?}", other),
    }
}

#[test]
fn trimming_strips_white_space_at_both_ends_only() {
    assert_eq!(trim("  a b \n"), "a b");
    assert_eq!(trim("a b"), "a b");
    assert_eq!(trim(""), "");
    assert_eq!(trim(" \t\r\n"), "");
    assert_eq!(trim("\u{2003}wide\u{3000}"), "wide");
    assert_eq!(trim("\u{200b}zero width\u{200b}"), "\u{200b}zero width\u{200b}");
    assert_eq!(trim(" é "), "é");
}

#[test]
fn new_reply_is_stamped_once_and_trimmed() {
    let session = bound_session("");
    let input = block(InteractionBlockRole::Agent, "hi", Some("Bot"));
    let reply =
        new_reply_block(&session, &input, &vec![" hello ".to_string()]).expect("there is a choice");
    assert_eq!(reply.content, "hello");
    assert_eq!(reply.created_at, reply.updated_at);
    assert!(reply.created_at > 0);
    assert_eq!(reply.role, InteractionBlockRole::Agent);
    assert_eq!(reply.name, Some("Bot".to_string()));
    assert_eq!(reply.interaction_id, 1);
    assert!(matches!(
        new_reply_block(&session, &input, &vec![]),
        Err(BackendError::InvalidResponse(_))
    ));
}

use myself::sdk::interactions::{
    AgentHandle, Interaction, InteractionBlock, InteractionBlockRole, WithoutAgent,
};

#[test]
fn role_tags_are_lower_case_names() {
    assert_eq!(InteractionBlockRole::System.as_str(), "system");
    assert_eq!(InteractionBlockRole::User.as_str(), "user");
    assert_eq!(InteractionBlockRole::Agent.as_str(), "agent");
}

#[test]
fn role_to_string_is_its_tag() {
    assert_eq!(InteractionBlockRole::System.to_string(), "system".to_string());
    assert_eq!(InteractionBlockRole::User.to_string(), "user".to_string());
    assert_eq!(InteractionBlockRole::Agent.to_string(), "agent".to_string());
}

#[test]
fn role_is_read_back_from_its_tag() {
    assert_eq!(InteractionBlockRole::from_str("system"), Ok(InteractionBlockRole::System));
    assert_eq!(InteractionBlockRole::from_str("user"), Ok(InteractionBlockRole::User));
    assert_eq!(InteractionBlockRole::from_str("agent"), Ok(InteractionBlockRole::Agent));
}

#[test]
fn role_round_trips_through_its_tag() {
    for role in [InteractionBlockRole::System, InteractionBlockRole::User, InteractionBlockRole::Agent] {
        assert_eq!(InteractionBlockRole::from_str(role.as_str()), Ok(role));
    }
}

#[test]
fn unknown_role_tag_is_rejected() {
    assert_eq!(InteractionBlockRole::from_str("moderator"), Err("Invalid interaction block role"));
    assert_eq!(InteractionBlockRole::from_str(""), Err("Invalid interaction block role"));
    assert_eq!(InteractionBlockRole::from_str("User"), Err("Invalid interaction block role"));
    assert_eq!(InteractionBlockRole::from_str(" user"), Err("Invalid interaction block role"));
}

#[test]
fn stamped_block_holds_what_it_was_given() {
    let block = InteractionBlock::stamped(
        7,
        1_000,
        InteractionBlockRole::User,
        "hi".to_string(),
        3,
        Some("Joe".to_string()),
    );
    assert_eq!(block.id, 7);
    assert_eq!(block.created_at, 1_000);
    assert_eq!(block.updated_at, 1_000);
    assert_eq!(block.role, InteractionBlockRole::User);
    assert_eq!(block.content, "hi");
    assert_eq!(block.name, Some("Joe".to_string()));
    assert_eq!(block.interaction_id, 3);
}

#[test]
fn new_block_constructors_set_the_role() {
    let user = InteractionBlock::new_user(1, "a".to_string(), None);
    let agent = InteractionBlock::new_agent(2, "b".to_string(), Some("Bot".to_string()));
    let system = InteractionBlock::new_system(3, "c".to_string(), None);
    assert_eq!(user.role, InteractionBlockRole::User);
    assert_eq!(agent.role, InteractionBlockRole::Agent);
    assert_eq!(system.role, InteractionBlockRole::System);
    assert_eq!((user.interaction_id, agent.interaction_id, system.interaction_id), (1, 2, 3));
    assert_eq!(user.content, "a");
    assert_eq!(agent.name, Some("Bot".to_string()));
    assert_eq!(system.name, None);
}

#[test]
fn new_block_is_stamped_once() {
    let block = InteractionBlock::new(InteractionBlockRole::Agent, "x".to_string(), 9, None);
    assert_eq!(block.created_at, block.updated_at);
    assert!(block.created_at > 0);
    let other = InteractionBlock::new(InteractionBlockRole::Agent, "x".to_string(), 9, None);
    assert_ne!(block.id, other.id);
}

#[test]
fn new_session_starts_detached_with_empty_scratch_buffer() {
    let session = Interaction::new("Joe".to_string(), "helpful bot".to_string(), 2);
    assert_eq!(session.user_name, "Joe");
    assert_eq!(session.constitution, "helpful bot");
    assert_eq!(session.short_term_memory, "");
    assert_eq!(session.long_term_memory_size, 2);
    assert_eq!(session.created_at, session.updated_at);
    assert!(session.agent.is_none());
}

#[test]
fn default_session_has_nothing_set() {
    let session: Interaction<WithoutAgent> = Default::default();
    assert_eq!(session.user_name, "");
    assert_eq!(session.constitution, "");
    assert_eq!(session.short_term_memory, "");
    assert_eq!(session.long_term_memory_size, 0);
    assert!(session.agent.is_none());
}

#[test]
fn binding_keeps_the_session_and_adds_the_agent() {
    let session = Interaction::stamped(5, 77, "Joe".to_string(), "helpful bot".to_string(), 4);
    let bound = session.with_agent(AgentHandle { id: 11, my_name: "Bot".to_string() });
    assert_eq!(bound.id, 5);
    assert_eq!(bound.created_at, 77);
    assert_eq!(bound.updated_at, 77);
    assert_eq!(bound.user_name, "Joe");
    assert_eq!(bound.constitution, "helpful bot");
    assert_eq!(bound.long_term_memory_size, 4);
    let agent = bound.agent.expect("a bound session carries its agent");
    assert_eq!(agent.id, 11);
    assert_eq!(agent.my_name, "Bot");
    assert!(session.agent.is_none());
}

#[test]
fn session_made_with_agent_keeps_its_persona() {
    let bound = Interaction::new_with_agent(
        "Joe".to_string(),
        "helpful bot".to_string(),
        3,
        AgentHandle { id: 1, my_name: "Bot".to_string() },
    );
    assert_eq!(bound.constitution, "helpful bot");
    assert_eq!(bound.user_name, "Joe");
    assert_eq!(bound.long_term_memory_size, 3);
    assert_eq!(bound.agent.map(|a| a.my_name), Some("Bot".to_string()));
}

#[test]
fn role_is_parsed_from_text() {
    assert_eq!("user".parse::<InteractionBlockRole>(), Ok(InteractionBlockRole::User));
    assert_eq!("agent".parse::<InteractionBlockRole>(), Ok(InteractionBlockRole::Agent));
    assert_eq!("nobody".parse::<InteractionBlockRole>(), Err("Invalid interaction block role"));
}

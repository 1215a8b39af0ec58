use myself::database::memory::{AgentRecord, Constraint, MemoryEngine, MemoryError};
use myself::sdk::agent::structure::DefaultInteraction;
use myself::sdk::interactions::{AgentHandle, Interaction, InteractionBlock, InteractionBlockRole};

fn session(id: u128, now: i64, window: usize) -> Interaction {
    Interaction::stamped(id, now, "Joe".to_string(), "helpful bot".to_string(), window)
}

fn block(id: u128, now: i64, content: &str, interaction_id: u128) -> InteractionBlock {
    InteractionBlock::stamped(
        id,
        now,
        InteractionBlockRole::User,
        content.to_string(),
        interaction_id,
        None,
    )
}

fn defaults() -> DefaultInteraction {
    DefaultInteraction {
        user_name: "User".to_string(),
        constitution: "A simple communicative chatbot".to_string(),
        memory_size: 10,
    }
}

fn contents(blocks: &[InteractionBlock]) -> Vec<String> {
    blocks.iter().map(|b| b.content.clone()).collect()
}

#[test]
fn empty_store_holds_nothing() {
    let engine = MemoryEngine::new();
    assert!(engine.get_all_interactions().is_empty());
    assert!(engine.get_interaction(1).is_none());
    assert!(engine.get_interaction_long_term_memory(1, 10).is_empty());
    assert_eq!(engine.get_meta(), Err(MemoryError::NotFound));
    assert!(engine.get_default_interaction().is_none());
}

#[test]
fn inserted_session_is_found_as_stored() {
    let mut engine = MemoryEngine::new();
    let stored = engine.insert_interaction(session(1, 100, 2)).expect("a new identity");
    assert_eq!(stored.id, 1);
    let found = engine.get_interaction(1).expect("the session was stored");
    assert_eq!(found.id, 1);
    assert_eq!(found.created_at, 100);
    assert_eq!(found.updated_at, 100);
    assert_eq!(found.user_name, "Joe");
    assert_eq!(found.constitution, "helpful bot");
    assert_eq!(found.short_term_memory, "");
    assert_eq!(found.long_term_memory_size, 2);
    assert!(found.agent.is_none());
    assert!(engine.get_interaction(2).is_none());
}

#[test]
fn session_with_taken_identity_is_refused() {
    let mut engine = MemoryEngine::new();
    engine.insert_interaction(session(1, 100, 2)).expect("a new identity");
    let second = Interaction::stamped(1, 200, "Ann".to_string(), "other".to_string(), 5);
    let refused = engine.insert_interaction(second);
    assert!(matches!(refused, Err(MemoryError::StoreError(Constraint::PrimaryKey))));
    assert_eq!(engine.get_all_interactions().len(), 1);
    assert_eq!(engine.get_interaction(1).map(|s| s.user_name), Some("Joe".to_string()));
}

#[test]
fn new_interaction_is_stored_under_a_fresh_identity() {
    let mut engine = MemoryEngine::new();
    let a = engine
        .new_interaction("Joe".to_string(), "helpful bot".to_string(), 2)
        .expect("a fresh identity");
    let b = engine
        .new_interaction("Ann".to_string(), "terse bot".to_string(), 3)
        .expect("a fresh identity");
    assert_ne!(a.id, b.id);
    let all = engine.get_all_interactions();
    assert_eq!(all.len(), 2);
    assert_eq!(all[0].id, a.id);
    assert_eq!(all[1].id, b.id);
    assert_eq!(all[1].user_name, "Ann");
    assert_eq!(all[1].constitution, "terse bot");
    assert_eq!(all[1].long_term_memory_size, 3);
}

#[test]
fn new_interaction_with_agent_comes_back_bound() {
    let mut engine = MemoryEngine::new();
    let handle = AgentHandle { id: 42, my_name: "Bot".to_string() };
    let bound = engine
        .new_interaction_with_agent("Joe".to_string(), "helpful bot".to_string(), 2, &handle)
        .expect("a fresh identity");
    assert_eq!(bound.agent.as_ref().map(|a| a.id), Some(42));
    let stored = engine.get_interaction(bound.id).expect("the session was stored");
    assert!(stored.agent.is_none());
    assert_eq!(stored.constitution, "helpful bot");
}

#[test]
fn transcript_window_is_bounded_and_oldest_first() {
    let mut engine = MemoryEngine::new();
    engine.insert_interaction(session(1, 0, 2)).expect("a new identity");
    engine.append_to_long_term_memory(1, &block(10, 300, "third", 1)).expect("stored");
    engine.append_to_long_term_memory(1, &block(11, 100, "first", 1)).expect("stored");
    engine.append_to_long_term_memory(1, &block(12, 200, "second", 1)).expect("stored");
    engine.append_to_long_term_memory(1, &block(13, 400, "fourth", 1)).expect("stored");
    for limit in 0..6usize {
        let window = engine.get_interaction_long_term_memory(1, limit);
        assert!(window.len() <= limit);
        assert_eq!(window.len(), limit.min(4));
        for pair in window.windows(2) {
            assert!(pair[0].created_at <= pair[1].created_at);
        }
    }
    let window = engine.get_interaction_long_term_memory(1, 3);
    assert_eq!(contents(&window), vec!["first", "second", "third"]);
}

#[test]
fn entries_of_equal_age_keep_the_order_in_which_they_were_stored() {
    let mut engine = MemoryEngine::new();
    engine.insert_interaction(session(1, 0, 2)).expect("a new identity");
    engine.append_to_long_term_memory(1, &block(10, 100, "a", 1)).expect("stored");
    engine.append_to_long_term_memory(1, &block(11, 100, "b", 1)).expect("stored");
    engine.append_to_long_term_memory(1, &block(12, 100, "c", 1)).expect("stored");
    let window = engine.get_interaction_long_term_memory(1, 10);
    assert_eq!(contents(&window), vec!["a", "b", "c"]);
}

#[test]
fn transcript_window_holds_entries_of_its_session_only() {
    let mut engine = MemoryEngine::new();
    engine.insert_interaction(session(1, 0, 2)).expect("a new identity");
    engine.insert_interaction(session(2, 0, 2)).expect("a new identity");
    engine.append_to_long_term_memory(1, &block(10, 100, "one-a", 1)).expect("stored");
    engine.append_to_long_term_memory(2, &block(11, 110, "two-a", 2)).expect("stored");
    engine.append_to_long_term_memory(1, &block(12, 120, "one-b", 1)).expect("stored");
    assert_eq!(contents(&engine.get_interaction_long_term_memory(1, 10)), vec!["one-a", "one-b"]);
    assert_eq!(contents(&engine.get_interaction_long_term_memory(2, 10)), vec!["two-a"]);
    assert!(engine.get_interaction_long_term_memory(3, 10).is_empty());
}

#[test]
fn entry_is_stored_for_the_session_it_is_appended_to() {
    let mut engine = MemoryEngine::new();
    engine.insert_interaction(session(1, 0, 2)).expect("a new identity");
    let stored = engine.append_to_long_term_memory(1, &block(10, 100, "hi", 99)).expect("stored");
    assert_eq!(stored.interaction_id, 1);
    assert_eq!(stored.id, 10);
    assert_eq!(stored.content, "hi");
    assert_eq!(stored.created_at, 100);
    assert_eq!(engine.get_interaction_long_term_memory(1, 10).len(), 1);
}

#[test]
fn entry_for_unknown_session_is_refused() {
    let mut engine = MemoryEngine::new();
    let refused = engine.append_to_long_term_memory(1, &block(10, 100, "hi", 1));
    assert!(matches!(refused, Err(MemoryError::StoreError(Constraint::ForeignKey))));
    assert!(engine.get_interaction_long_term_memory(1, 10).is_empty());
}

#[test]
fn entry_with_taken_identity_is_refused() {
    let mut engine = MemoryEngine::new();
    engine.insert_interaction(session(1, 0, 2)).expect("a new identity");
    engine.append_to_long_term_memory(1, &block(10, 100, "hi", 1)).expect("stored");
    let refused = engine.append_to_long_term_memory(1, &block(10, 200, "again", 1));
    assert!(matches!(refused, Err(MemoryError::StoreError(Constraint::PrimaryKey))));
    assert_eq!(contents(&engine.get_interaction_long_term_memory(1, 10)), vec!["hi"]);
}

#[test]
fn persona_update_is_stored_and_leaves_the_transcript() {
    let mut engine = MemoryEngine::new();
    engine.insert_interaction(session(1, 100, 2)).expect("a new identity");
    engine.append_to_long_term_memory(1, &block(10, 110, "hi", 1)).expect("stored");
    let updated = engine
        .update_constitution_stamped(1, "grumpy bot".to_string(), 500)
        .expect("the session is stored");
    assert_eq!(updated.constitution, "grumpy bot");
    assert_eq!(updated.updated_at, 500);
    assert_eq!(updated.created_at, 100);
    assert_eq!(updated.user_name, "Joe");
    let found = engine.get_interaction(1).expect("the session is stored");
    assert_eq!(found.constitution, "grumpy bot");
    assert_eq!(found.updated_at, 500);
    let window = engine.get_interaction_long_term_memory(1, 10);
    assert_eq!(contents(&window), vec!["hi"]);
    assert_eq!(window[0].created_at, 110);
    assert_eq!(window[0].updated_at, 110);
}

#[test]
fn persona_update_of_unknown_session_is_not_found() {
    let mut engine = MemoryEngine::new();
    assert!(matches!(
        engine.update_constitution(1, "grumpy bot".to_string()),
        Err(MemoryError::NotFound)
    ));
    assert!(matches!(
        engine.set_short_term_memory(1, "note".to_string()),
        Err(MemoryError::NotFound)
    ));
    assert!(matches!(
        engine.append_to_dynamic_memory(1, "note".to_string()),
        Err(MemoryError::NotFound)
    ));
    assert!(matches!(engine.touch_interaction(1, 5), Err(MemoryError::NotFound)));
}

#[test]
fn clocked_persona_update_changes_only_its_session() {
    let mut engine = MemoryEngine::new();
    engine.insert_interaction(session(1, 100, 2)).expect("a new identity");
    engine.insert_interaction(session(2, 100, 2)).expect("a new identity");
    let updated = engine.update_constitution(2, "grumpy bot".to_string()).expect("stored");
    assert_eq!(updated.id, 2);
    assert_eq!(updated.constitution, "grumpy bot");
    assert_eq!(engine.get_interaction(1).map(|s| s.constitution), Some("helpful bot".to_string()));
    assert_eq!(engine.get_interaction(1).map(|s| s.updated_at), Some(100));
}

#[test]
fn scratch_buffer_is_set_and_cleared() {
    let mut engine = MemoryEngine::new();
    engine.insert_interaction(session(1, 100, 2)).expect("a new identity");
    let set = engine.set_short_term_memory_stamped(1, "note".to_string(), 200).expect("stored");
    assert_eq!(set.short_term_memory, "note");
    assert_eq!(set.updated_at, 200);
    let cleared = engine.set_short_term_memory_stamped(1, String::new(), 300).expect("stored");
    assert_eq!(cleared.short_term_memory, "");
    assert_eq!(cleared.updated_at, 300);
    assert_eq!(cleared.constitution, "helpful bot");
}

#[test]
fn scratch_buffer_rolls_at_the_configured_size() {
    let mut engine = MemoryEngine::new();
    engine.insert_interaction(session(1, 100, 2)).expect("a new identity");
    let one = engine.append_to_dynamic_memory_stamped(1, "one".to_string(), 110).expect("stored");
    assert_eq!(one.short_term_memory, "one");
    let two = engine.append_to_dynamic_memory_stamped(1, "two".to_string(), 120).expect("stored");
    assert_eq!(two.short_term_memory, "one\ntwo");
    let three = engine.append_to_dynamic_memory_stamped(1, "three".to_string(), 130).expect("stored");
    assert_eq!(three.short_term_memory, "two\nthree");
    assert_eq!(three.updated_at, 130);
    let found = engine.get_interaction(1).expect("the session is stored");
    assert_eq!(found.short_term_memory, "two\nthree");
}

#[test]
fn default_session_is_made_once() {
    let mut engine = MemoryEngine::new();
    let first = engine
        .get_meta_with_agent_stamped(&defaults(), 7, 70, 1_000)
        .expect("nothing holds the identity");
    assert_eq!(first.id, 70);
    assert_eq!(first.default_interaction_id, 7);
    assert_eq!(first.created_at, 1_000);
    let second = engine
        .get_meta_with_agent_stamped(&defaults(), 8, 80, 2_000)
        .expect("the meta row is there");
    assert_eq!(second, first);
    assert_eq!(engine.get_all_interactions().len(), 1);
    assert_eq!(engine.get_meta(), Ok(first));
    let made = engine.get_interaction(7).expect("the default session was stored");
    assert_eq!(made.user_name, "User");
    assert_eq!(made.constitution, "A simple communicative chatbot");
    assert_eq!(made.long_term_memory_size, 10);
    assert_eq!(made.created_at, 1_000);
}

#[test]
fn default_session_is_the_same_on_every_request() {
    let mut engine = MemoryEngine::new();
    let handle = AgentHandle { id: 1, my_name: "Bot".to_string() };
    let first = engine.get_or_create_default_interaction(&handle, &defaults()).expect("made");
    let second = engine.get_or_create_default_interaction(&handle, &defaults()).expect("found");
    assert_eq!(first.id, second.id);
    assert_eq!(engine.get_all_interactions().len(), 1);
    assert_eq!(engine.get_meta().map(|m| m.default_interaction_id), Ok(first.id));
    assert_eq!(second.agent.map(|a| a.id), Some(1));
}

#[test]
fn two_first_callers_share_one_default_session() {
    let mut engine = MemoryEngine::new();
    let one = AgentHandle { id: 1, my_name: "One".to_string() };
    let two = AgentHandle { id: 2, my_name: "Two".to_string() };
    let by_one = engine
        .get_or_create_default_interaction_stamped(&one, &defaults(), 10, 100, 1_000)
        .expect("made");
    let by_two = engine
        .get_or_create_default_interaction_stamped(&two, &defaults(), 20, 200, 1_000)
        .expect("found");
    assert_eq!(by_one.id, 10);
    assert_eq!(by_two.id, 10);
    assert_eq!(by_two.agent.map(|a| a.my_name), Some("Two".to_string()));
    assert_eq!(engine.get_all_interactions().len(), 1);
    assert!(engine.get_interaction(20).is_none());
    let meta = engine.get_meta().expect("one meta row");
    assert_eq!(meta.id, 100);
    assert_eq!(meta.default_interaction_id, 10);
}

#[test]
fn default_session_is_not_made_under_a_taken_identity() {
    let mut engine = MemoryEngine::new();
    engine.insert_interaction(session(7, 100, 2)).expect("a new identity");
    let refused = engine.get_meta_with_agent_stamped(&defaults(), 7, 70, 1_000);
    assert_eq!(refused, Err(MemoryError::StoreError(Constraint::PrimaryKey)));
    assert_eq!(engine.get_meta(), Err(MemoryError::NotFound));
    assert_eq!(engine.get_all_interactions().len(), 1);
}

#[test]
fn default_pointer_is_moved_to_a_stored_session_only() {
    let mut engine = MemoryEngine::new();
    engine.insert_interaction(session(1, 100, 2)).expect("a new identity");
    assert_eq!(engine.set_default_interaction(1), Err(MemoryError::NotFound));
    let made = engine.get_meta_with_agent_stamped(&defaults(), 7, 70, 1_000).expect("made");
    assert_eq!(
        engine.set_default_interaction(99),
        Err(MemoryError::StoreError(Constraint::ForeignKey))
    );
    assert_eq!(engine.get_meta(), Ok(made));
    let moved = engine.set_default_interaction(1).expect("the session is stored");
    assert_eq!(moved.id, 70);
    assert_eq!(moved.created_at, 1_000);
    assert_eq!(moved.default_interaction_id, 1);
    assert_eq!(engine.get_default_interaction().map(|s| s.id), Some(1));
}

#[test]
fn agent_row_is_stored_once() {
    let mut engine = MemoryEngine::new();
    let record = AgentRecord {
        id: 5,
        created_at: 10,
        updated_at: 10,
        name: "Bot".to_string(),
        default_interaction: defaults(),
    };
    let stored = engine.insert_agent(record.clone()).expect("a new identity");
    assert_eq!(stored.id, 5);
    assert_eq!(stored.name, "Bot");
    let refused = engine.insert_agent(record);
    assert!(matches!(refused, Err(MemoryError::StoreError(Constraint::PrimaryKey))));
}

use myself::backend::interface::{AgentBackend, BackendError};
use myself::database::memory::MemoryEngine;
use myself::sdk::agent::builder::{digit_of, parse_size, AgentBuilder};
use myself::sdk::interactions::{Interaction, InteractionBlock, WithAgent};

struct Silent;

impl AgentBackend for Silent {
    fn predict_response(
        &mut self,
        _interaction: &Interaction<WithAgent>,
        _window: &Vec<InteractionBlock>,
        _input: &InteractionBlock,
    ) -> Result<InteractionBlock, BackendError> {
        Err(BackendError::InvalidResponse("silent".to_string()))
    }
}

fn size_of(setting: Option<&str>) -> usize {
    let builder: AgentBuilder<Silent> =
        AgentBuilder::from_settings(None, None, None, setting.map(|s| s.to_string()));
    builder.build(Silent, MemoryEngine::new()).expect("fresh").default_interaction.memory_size
}

#[test]
fn digits_stand_for_their_numbers() {
    for (i, c) in "0123456789".chars().enumerate() {
        assert_eq!(digit_of(c), Some(i));
    }
    assert_eq!(digit_of('a'), None);
    assert_eq!(digit_of('+'), None);
    assert_eq!(digit_of('٣'), None);
}

#[test]
fn size_is_read_from_decimal_digits() {
    assert_eq!(parse_size("10"), Some(10));
    assert_eq!(parse_size("0"), Some(0));
    assert_eq!(parse_size("007"), Some(7));
    assert_eq!(parse_size("+7"), Some(7));
    assert_eq!(parse_size("1234567890"), Some(1_234_567_890));
}

#[test]
fn size_is_not_read_from_anything_else() {
    for text in ["", "+", "-1", " 5", "5 ", "1_000", "1.5", "ten", "++1", "5+", "٣"] {
        assert_eq!(parse_size(text), None, "{:?}", text);
    }
}

#[test]
fn size_must_fit() {
    let largest = usize::MAX.to_string();
    assert_eq!(parse_size(&largest), Some(usize::MAX));
    assert_eq!(parse_size(&format!("{}0", largest)), None);
    assert_eq!(parse_size("18446744073709551616"), "18446744073709551616".parse::<usize>().ok());
    assert_eq!(parse_size("99999999999999999999999999999999999999999"), None);
}

#[test]
fn size_is_read_as_the_standard_library_reads_it() {
    let texts = [
        "", "+", "-", "0", "1", "+0", "-0", "42", "+42", "0042", "4 2", "42\n", "0x10", "1e3",
        "18446744073709551615", "18446744073709551616", "٤٢", "4２",
    ];
    for text in texts {
        assert_eq!(parse_size(text), text.parse::<usize>().ok(), "{:?}", text);
    }
}

#[test]
fn settings_replace_the_initial_configuration() {
    let builder: AgentBuilder<Silent> = AgentBuilder::from_settings(
        Some("Bot".to_string()),
        Some("Joe".to_string()),
        Some("helpful bot".to_string()),
        Some("3".to_string()),
    );
    let agent = builder.build(Silent, MemoryEngine::new()).expect("a fresh identity");
    assert_eq!(agent.my_name, "Bot");
    assert_eq!(agent.default_interaction.user_name, "Joe");
    assert_eq!(agent.default_interaction.constitution, "helpful bot");
    assert_eq!(agent.default_interaction.memory_size, 3);
}

#[test]
fn missing_settings_leave_the_initial_configuration() {
    let builder: AgentBuilder<Silent> = AgentBuilder::from_settings(None, None, None, None);
    let agent = builder.build(Silent, MemoryEngine::new()).expect("a fresh identity");
    assert_eq!(agent.my_name, "Agent");
    assert_eq!(agent.default_interaction.user_name, "User");
    assert_eq!(agent.default_interaction.constitution, "A simple communicative chatbot");
    assert_eq!(agent.default_interaction.memory_size, 10);
}

#[test]
fn window_size_that_is_no_size_counts_as_missing() {
    assert_eq!(size_of(Some("25")), 25);
    assert_eq!(size_of(Some("many")), 10);
    assert_eq!(size_of(Some("")), 10);
    assert_eq!(size_of(Some("-3")), 10);
    assert_eq!(size_of(None), 10);
}

use sn_node_manager::beta_programme::{Action, BetaProgramme, KeyPress, Scene};

const ADDRESS_UPPER: &str = "0x03B770D9CD32077CC0BF330C13C114A87643B124";
const ADDRESS_LOWER: &str = "0x03b770d9cd32077cc0bf330c13c114a87643b124";

fn value_of(flow: &BetaProgramme) -> String {
    flow.value_chars().iter().collect()
}

fn activate(flow: &mut BetaProgramme) {
    let reply = flow.update(Action::SwitchScene(Scene::StatusBetaProgrammePopUp));
    assert!(reply.is_some());
}

fn type_text(flow: &mut BetaProgramme, text: &str) {
    for c in text.chars() {
        let actions = flow.handle_key_events(KeyPress::Char(c));
        assert!(actions.is_empty());
    }
}

#[test]
fn inactive_flow_ignores_keys() {
    let mut flow = BetaProgramme::new(String::new());
    let actions = flow.handle_key_events(KeyPress::Enter);
    assert!(actions.is_empty());
}

#[test]
fn entering_a_valid_address_saves_it_lower_cased() {
    let mut flow = BetaProgramme::new(String::new());
    activate(&mut flow);
    // accept the terms, then enter the address
    let actions = flow.handle_key_events(KeyPress::Char('y'));
    assert!(actions.is_empty());
    type_text(&mut flow, ADDRESS_UPPER);
    let actions = flow.handle_key_events(KeyPress::Enter);
    assert_eq!(actions.len(), 3);
    assert_eq!(
        actions[0],
        Action::StoreDiscordUserName(ADDRESS_LOWER.to_string())
    );
    assert_eq!(actions[2], Action::SwitchScene(Scene::Status));
    assert_eq!(value_of(&flow), ADDRESS_LOWER);
}

#[test]
fn entering_an_invalid_address_saves_nothing() {
    let mut flow = BetaProgramme::new(String::new());
    activate(&mut flow);
    flow.handle_key_events(KeyPress::Char('y'));
    type_text(&mut flow, "0xNOT-AN-ADDRESS");
    let actions = flow.handle_key_events(KeyPress::Enter);
    assert!(actions.is_empty());
    assert!(!flow.can_save());
}

#[test]
fn escape_restores_the_old_value() {
    let mut flow = BetaProgramme::new(ADDRESS_LOWER.to_string());
    activate(&mut flow);
    for _ in 0..4 {
        flow.handle_key_events(KeyPress::Backspace);
    }
    assert_ne!(value_of(&flow), ADDRESS_LOWER);
    let actions = flow.handle_key_events(KeyPress::Esc);
    assert_eq!(actions, vec![Action::SwitchScene(Scene::Status)]);
    assert_eq!(value_of(&flow), ADDRESS_LOWER);
}

#[test]
fn space_is_swallowed() {
    let mut flow = BetaProgramme::new(ADDRESS_LOWER.to_string());
    activate(&mut flow);
    let actions = flow.handle_key_events(KeyPress::Char(' '));
    assert!(actions.is_empty());
    assert_eq!(value_of(&flow), ADDRESS_LOWER);
}

#[test]
fn entry_is_capped_at_the_address_length() {
    let mut flow = BetaProgramme::new(ADDRESS_LOWER.to_string());
    activate(&mut flow);
    let actions = flow.handle_key_events(KeyPress::Char('f'));
    assert!(actions.is_empty());
    assert_eq!(value_of(&flow), ADDRESS_LOWER);
}

#[test]
fn validate_tracks_the_current_entry() {
    let mut flow = BetaProgramme::new(ADDRESS_LOWER.to_string());
    flow.validate();
    assert!(flow.can_save());
    let mut flow = BetaProgramme::new("0x123".to_string());
    flow.validate();
    assert!(!flow.can_save());
}

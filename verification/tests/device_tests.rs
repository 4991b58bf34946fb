use gemini_castnow::device::{parse_choice, select_device, DeviceRecord, SelectError, Selection};
use gemini_castnow::settings::Settings;

fn record(name: &str, addresses: &[&str]) -> DeviceRecord {
    DeviceRecord {
        name: name.to_string(),
        addresses: addresses.iter().map(|a| a.to_string()).collect(),
        port: 8009,
    }
}

fn no_hints() -> Settings {
    Settings::default()
}

#[test]
fn single_candidate_without_hints_is_chosen_without_prompt() {
    let devices = vec![record("Kitchen-Display", &["192.168.1.20"])];
    let r = select_device(&no_hints(), &devices);
    assert!(matches!(r, Ok(Selection::Chosen(0))));
}

#[test]
fn several_candidates_without_hints_ask_for_a_prompt() {
    let devices = vec![
        record("Kitchen-Display", &["192.168.1.20"]),
        record("LivingRoom-TV", &["192.168.1.21"]),
    ];
    let r = select_device(&no_hints(), &devices);
    assert!(matches!(r, Ok(Selection::Prompt)));
}

#[test]
fn no_candidates_without_hints_is_an_error() {
    let devices: Vec<DeviceRecord> = Vec::new();
    let r = select_device(&no_hints(), &devices);
    assert!(matches!(r, Err(SelectError::NoDevicesFound)));
}

#[test]
fn unmatched_address_hint_fails_and_never_prompts() {
    let devices = vec![
        record("Kitchen-Display", &["192.168.1.20"]),
        record("LivingRoom-TV", &["192.168.1.21"]),
    ];
    let settings = Settings { address: Some("10.0.0.1".to_string()), ..Settings::default() };
    let r = select_device(&settings, &devices);
    match r {
        Err(SelectError::AddressNotFound { address }) => assert_eq!(address, "10.0.0.1"),
        _ => panic!("expected the address-not-found error"),
    }
}

#[test]
fn address_hint_picks_the_matching_candidate() {
    let devices = vec![
        record("Kitchen-Display", &["192.168.1.20"]),
        record("LivingRoom-TV", &["192.168.1.21", "10.0.0.7"]),
    ];
    let settings = Settings { address: Some("10.0.0.7".to_string()), ..Settings::default() };
    let r = select_device(&settings, &devices);
    assert!(matches!(r, Ok(Selection::Chosen(1))));
}

#[test]
fn name_hint_matches_by_prefix() {
    let devices = vec![
        record("Kitchen-Display-99", &["192.168.1.20"]),
        record("LivingRoom-TV-1234", &["192.168.1.21"]),
    ];
    let settings = Settings { device: Some("LivingRoom".to_string()), ..Settings::default() };
    let r = select_device(&settings, &devices);
    assert!(matches!(r, Ok(Selection::Chosen(1))));
}

#[test]
fn unmatched_name_hint_fails() {
    let devices = vec![record("Kitchen-Display", &["192.168.1.20"])];
    let settings = Settings { device: Some("Bedroom".to_string()), ..Settings::default() };
    let r = select_device(&settings, &devices);
    match r {
        Err(SelectError::NameNotFound { name }) => assert_eq!(name, "Bedroom"),
        _ => panic!("expected the name-not-found error"),
    }
}

#[test]
fn address_hint_wins_over_name_hint() {
    let devices = vec![
        record("Kitchen-Display", &["192.168.1.20"]),
        record("LivingRoom-TV", &["192.168.1.21"]),
    ];
    let settings = Settings {
        address: Some("192.168.1.20".to_string()),
        device: Some("LivingRoom".to_string()),
        ..Settings::default()
    };
    let r = select_device(&settings, &devices);
    assert!(matches!(r, Ok(Selection::Chosen(0))));
}

#[test]
fn choice_in_range_is_accepted_one_based() {
    assert_eq!(parse_choice("1", 3), Some(0));
    assert_eq!(parse_choice("3", 3), Some(2));
}

#[test]
fn choice_out_of_range_is_rejected() {
    assert_eq!(parse_choice("0", 3), None);
    assert_eq!(parse_choice("4", 3), None);
    assert_eq!(parse_choice("99999999999999999999999999999", 3), None);
}

#[test]
fn choice_that_is_no_number_is_rejected() {
    assert_eq!(parse_choice("", 3), None);
    assert_eq!(parse_choice("two", 3), None);
    assert_eq!(parse_choice("1x", 3), None);
    assert_eq!(parse_choice("-1", 3), None);
}

use dynamodb_tui::models::{AttributeType, BillingMode};
use dynamodb_tui::wizard::{
    handle_wizard_backspace, handle_wizard_char_input, handle_wizard_tab, WizardField,
    WizardStep, WizardState,
};

#[test]
fn new_wizard_has_the_documented_defaults() {
    let w = WizardState::new();
    assert_eq!(w.step, WizardStep::BasicConfig);
    assert_eq!(w.table_name, "");
    assert_eq!(w.hash_key_name, "");
    assert_eq!(w.hash_key_type, AttributeType::Text);
    assert!(!w.has_range_key);
    assert_eq!(w.billing_mode, BillingMode::OnDemand);
    assert_eq!(w.read_capacity, "5");
    assert_eq!(w.write_capacity, "5");
    assert_eq!(w.current_field, WizardField::TableName);
}

#[test]
fn two_character_table_name_fails_with_a_length_error() {
    let mut w = WizardState::new();
    w.table_name = "ab".to_string();
    w.hash_key_name = "id".to_string();
    let r = w.validate_basic_config();
    assert_eq!(r, Err("Table name must be 3-255 characters".to_string()));
}

#[test]
fn six_character_table_name_passes_basic_validation() {
    let mut w = WizardState::new();
    w.table_name = "orders".to_string();
    w.hash_key_name = "id".to_string();
    assert_eq!(w.validate_basic_config(), Ok(()));
}

#[test]
fn empty_table_name_is_reported_as_required() {
    let w = WizardState::new();
    assert_eq!(w.validate_basic_config(), Err("Table name is required".to_string()));
}

#[test]
fn missing_hash_key_name_is_rejected() {
    let mut w = WizardState::new();
    w.table_name = "orders".to_string();
    assert_eq!(w.validate_basic_config(), Err("Hash key name is required".to_string()));
}

#[test]
fn enabled_range_key_needs_a_name() {
    let mut w = WizardState::new();
    w.table_name = "orders".to_string();
    w.hash_key_name = "id".to_string();
    w.has_range_key = true;
    assert_eq!(
        w.validate_basic_config(),
        Err("Range key name is required when enabled".to_string())
    );
}

#[test]
fn on_demand_billing_needs_no_capacity() {
    let mut w = WizardState::new();
    w.read_capacity = String::new();
    assert_eq!(w.validate_billing_config(), Ok(()));
}

#[test]
fn provisioned_billing_rejects_bad_capacities() {
    let mut w = WizardState::new();
    w.billing_mode = BillingMode::Provisioned;
    w.read_capacity = "0".to_string();
    assert_eq!(
        w.validate_billing_config(),
        Err("Read capacity must be a positive integer".to_string())
    );
    w.read_capacity = "5".to_string();
    w.write_capacity = "abc".to_string();
    assert_eq!(
        w.validate_billing_config(),
        Err("Write capacity must be a positive integer".to_string())
    );
    w.write_capacity = "10".to_string();
    assert_eq!(w.validate_billing_config(), Ok(()));
}

#[test]
fn commit_parses_capacities_only_under_provisioned_billing() {
    let mut w = WizardState::new();
    w.table_name = "orders".to_string();
    w.hash_key_name = "id".to_string();
    let c = w.to_table_config();
    assert_eq!(c.name, "orders");
    assert_eq!(c.hash_key.name, "id");
    assert_eq!(c.billing_mode, BillingMode::OnDemand);
    assert_eq!(c.read_capacity, None);
    assert_eq!(c.write_capacity, None);

    w.billing_mode = BillingMode::Provisioned;
    w.read_capacity = "7".to_string();
    w.write_capacity = "oops".to_string();
    let c2 = w.to_table_config();
    assert_eq!(c2.read_capacity, Some(7));
    assert_eq!(c2.write_capacity, None);
}

#[test]
fn commit_carries_the_range_key_only_when_enabled() {
    let mut w = WizardState::new();
    w.table_name = "orders".to_string();
    w.hash_key_name = "id".to_string();
    w.has_range_key = true;
    w.range_key_name = "ts".to_string();
    w.range_key_type = AttributeType::Number;
    let c = w.to_table_config();
    let rk = c.range_key.expect("range key enabled");
    assert_eq!(rk.name, "ts");
    assert_eq!(rk.key_type, AttributeType::Number);
}

#[test]
fn focus_cycles_in_the_fixed_basic_order() {
    let mut w = WizardState::new();
    handle_wizard_tab(&mut w);
    assert_eq!(w.current_field, WizardField::HashKeyName);
    handle_wizard_tab(&mut w);
    assert_eq!(w.current_field, WizardField::HashKeyType);
    handle_wizard_tab(&mut w);
    assert_eq!(w.current_field, WizardField::HasRangeKey);
    handle_wizard_tab(&mut w);
    assert_eq!(w.current_field, WizardField::TableName);
}

#[test]
fn focus_detours_through_range_fields_when_enabled() {
    let mut w = WizardState::new();
    w.has_range_key = true;
    w.current_field = WizardField::HasRangeKey;
    handle_wizard_tab(&mut w);
    assert_eq!(w.current_field, WizardField::RangeKeyName);
    handle_wizard_tab(&mut w);
    assert_eq!(w.current_field, WizardField::RangeKeyType);
    handle_wizard_tab(&mut w);
    assert_eq!(w.current_field, WizardField::TableName);
}

#[test]
fn type_fields_are_single_key_selectors() {
    let mut w = WizardState::new();
    w.current_field = WizardField::HashKeyType;
    handle_wizard_char_input(&mut w, 'n');
    assert_eq!(w.hash_key_type, AttributeType::Number);
    handle_wizard_char_input(&mut w, 'B');
    assert_eq!(w.hash_key_type, AttributeType::Binary);
    handle_wizard_char_input(&mut w, 'z');
    assert_eq!(w.hash_key_type, AttributeType::Binary);
}

#[test]
fn range_key_flag_toggles_on_designated_keys() {
    let mut w = WizardState::new();
    w.current_field = WizardField::HasRangeKey;
    handle_wizard_char_input(&mut w, ' ');
    assert!(w.has_range_key);
    handle_wizard_char_input(&mut w, 'x');
    assert!(!w.has_range_key);
    handle_wizard_char_input(&mut w, 'q');
    assert!(!w.has_range_key);
}

#[test]
fn capacity_fields_accept_digits_only() {
    let mut w = WizardState::new();
    w.current_field = WizardField::ReadCapacity;
    handle_wizard_char_input(&mut w, '2');
    handle_wizard_char_input(&mut w, 'a');
    assert_eq!(w.read_capacity, "52");
}

#[test]
fn backspace_edits_the_focused_text_field() {
    let mut w = WizardState::new();
    w.table_name = "abc".to_string();
    handle_wizard_backspace(&mut w);
    assert_eq!(w.table_name, "ab");
    w.current_field = WizardField::HashKeyType;
    handle_wizard_backspace(&mut w);
    assert_eq!(w.table_name, "ab");
}

use dynamodb_tui::app::{App, AppState, BackendAction, DeleteTarget};
use dynamodb_tui::keyboard::handle_key_event;
use dynamodb_tui::keys::{KeyCode, KeyInput};
use dynamodb_tui::models::{
    AttributeType, AttributeValue, BillingMode, DynamoItem, DynamoTable, KeySchema,
};
use dynamodb_tui::wizard::{WizardField, WizardStep};

fn plain(code: KeyCode) -> KeyInput {
    KeyInput::plain(code)
}

fn sample_table(name: &str) -> DynamoTable {
    DynamoTable {
        name: name.to_string(),
        hash_key: KeySchema { name: "id".to_string(), key_type: AttributeType::Text },
        range_key: None,
        billing_mode: BillingMode::OnDemand,
        read_capacity: None,
        write_capacity: None,
        table_status: "ACTIVE".to_string(),
        item_count: Some(1),
        table_size_bytes: Some(10),
        region: "us-east-1".to_string(),
    }
}

fn sample_item(id: &str) -> DynamoItem {
    DynamoItem {
        attributes: vec![("id".to_string(), AttributeValue::Text(id.to_string()))],
        hash_key_value: AttributeValue::Text(id.to_string()),
        range_key_value: None,
    }
}

fn app_with_loaded_table() -> App {
    let mut app = App::new();
    app.apply_table_list(vec!["orders".to_string()]);
    app.apply_table_detail(0, sample_table("orders"));
    app
}

#[test]
fn new_app_starts_in_the_resource_list() {
    let app = App::new();
    assert_eq!(app.state, AppState::RegularTablesView);
    assert_eq!(app.current_region, "us-east-1");
    assert_eq!(app.region_selector.catalog.len(), 28);
    assert_eq!(app.pagination.current_page, 1);
    assert_eq!(app.pagination.items_per_page, 50);
    assert!(!app.pagination.has_more_pages);
}

#[test]
fn quit_is_offered_only_in_the_resource_list() {
    let mut app = App::new();
    assert!(handle_key_event(&mut app, plain(KeyCode::Char('q'))));
    let mut app2 = App::new();
    app2.state = AppState::Help;
    assert!(!handle_key_event(&mut app2, plain(KeyCode::Char('q'))));
    assert_eq!(app2.state, AppState::RegularTablesView);
}

#[test]
fn any_key_closes_help() {
    let mut app = App::new();
    assert!(!handle_key_event(&mut app, plain(KeyCode::Char('?'))));
    assert_eq!(app.state, AppState::Help);
    handle_key_event(&mut app, plain(KeyCode::Char('z')));
    assert_eq!(app.state, AppState::RegularTablesView);
}

#[test]
fn opening_the_wizard_resets_it() {
    let mut app = App::new();
    app.wizard_state.table_name = "left-over".to_string();
    app.wizard_state.step = WizardStep::Review;
    handle_key_event(&mut app, plain(KeyCode::Char('c')));
    assert_eq!(app.state, AppState::TableCreationWizard);
    assert_eq!(app.wizard_state.table_name, "");
    assert_eq!(app.wizard_state.step, WizardStep::BasicConfig);
}

#[test]
fn entering_the_record_view_resets_pagination() {
    let mut app = app_with_loaded_table();
    app.pagination.current_page = 4;
    app.pagination.has_more_pages = true;
    handle_key_event(&mut app, plain(KeyCode::Enter));
    assert_eq!(app.state, AppState::TableItemsView);
    assert_eq!(app.pagination.current_page, 1);
    assert!(!app.pagination.has_more_pages);
    assert!(app.pagination.last_evaluated_key.is_none());
    assert!(app.current_items.is_empty());
}

#[test]
fn escape_returns_from_records_to_resources() {
    let mut app = app_with_loaded_table();
    handle_key_event(&mut app, plain(KeyCode::Enter));
    app.apply_scan_page(vec![sample_item("1")], None);
    handle_key_event(&mut app, plain(KeyCode::Esc));
    assert_eq!(app.state, AppState::RegularTablesView);
    assert!(app.current_items.is_empty());
}

#[test]
fn delete_confirmation_names_the_selected_resource() {
    let mut app = app_with_loaded_table();
    handle_key_event(&mut app, plain(KeyCode::Char('d')));
    assert_eq!(
        app.state,
        AppState::DeleteConfirmation(DeleteTarget::Table("orders".to_string()))
    );
    handle_key_event(&mut app, plain(KeyCode::Char('y')));
    assert_eq!(app.pending_delete_table, Some("orders".to_string()));
}

#[test]
fn denying_a_delete_returns_to_the_raising_view() {
    let mut app = app_with_loaded_table();
    handle_key_event(&mut app, plain(KeyCode::Char('d')));
    handle_key_event(&mut app, plain(KeyCode::Char('n')));
    assert_eq!(app.state, AppState::RegularTablesView);
    assert_eq!(app.pending_delete_table, None);

    handle_key_event(&mut app, plain(KeyCode::Enter));
    app.apply_scan_page(vec![sample_item("1")], None);
    handle_key_event(&mut app, plain(KeyCode::Char('d')));
    assert_eq!(app.state, AppState::DeleteConfirmation(DeleteTarget::Item));
    handle_key_event(&mut app, plain(KeyCode::Esc));
    assert_eq!(app.state, AppState::TableItemsView);
}

#[test]
fn confirming_a_record_delete_raises_the_flag_and_builds_the_key() {
    let mut app = app_with_loaded_table();
    handle_key_event(&mut app, plain(KeyCode::Enter));
    app.apply_scan_page(vec![sample_item("7")], None);
    handle_key_event(&mut app, plain(KeyCode::Char('d')));
    handle_key_event(&mut app, plain(KeyCode::Char('Y')));
    assert!(app.pending_delete_item);
    let action = app.next_backend_action("us-east-1");
    match action {
        Some(BackendAction::DeleteItem(name, key)) => {
            assert_eq!(name, "orders");
            assert_eq!(key.len(), 1);
            assert_eq!(key[0].0, "id");
            assert_eq!(key[0].1, AttributeValue::Text("7".to_string()));
        }
        other => panic!("unexpected action: {:?}", other),
    }
    assert!(!app.pending_delete_item);
}

#[test]
fn region_confirm_changes_the_current_region() {
    let mut app = App::new();
    handle_key_event(&mut app, plain(KeyCode::Char('g')));
    assert_eq!(app.state, AppState::RegionSelector);
    for c in "eu-north".chars() {
        handle_key_event(&mut app, plain(KeyCode::Char(c)));
    }
    assert_eq!(app.region_selector.filtered, vec!["eu-north-1".to_string()]);
    handle_key_event(&mut app, plain(KeyCode::Enter));
    assert_eq!(app.state, AppState::RegularTablesView);
    assert_eq!(app.current_region, "eu-north-1");
    let action = app.next_backend_action("us-east-1");
    match action {
        Some(BackendAction::SwitchRegion(r)) => assert_eq!(r, "eu-north-1"),
        other => panic!("unexpected action: {:?}", other),
    }
}

#[test]
fn refresh_flag_is_drained_into_one_listing() {
    let mut app = App::new();
    handle_key_event(&mut app, plain(KeyCode::Char('r')));
    assert!(app.pending_refresh);
    let action = app.next_backend_action("us-east-1");
    assert!(matches!(action, Some(BackendAction::LoadTables)));
    assert!(!app.pending_refresh);
    let again = app.next_backend_action("us-east-1");
    assert!(again.is_none());
}

#[test]
fn details_are_fetched_once_per_slot() {
    let mut app = App::new();
    app.apply_table_list(vec!["orders".to_string(), "users".to_string()]);
    let action = app.next_backend_action("us-east-1");
    match action {
        Some(BackendAction::DescribeTable(i, name)) => {
            assert_eq!(i, 0);
            assert_eq!(name, "orders");
        }
        other => panic!("unexpected action: {:?}", other),
    }
    app.apply_table_detail(0, sample_table("orders"));
    let again = app.next_backend_action("us-east-1");
    assert!(again.is_none());
}

#[test]
fn entering_records_asks_for_a_page() {
    let mut app = app_with_loaded_table();
    handle_key_event(&mut app, plain(KeyCode::Enter));
    let action = app.next_backend_action("us-east-1");
    match action {
        Some(BackendAction::LoadItems(name, page_size, token)) => {
            assert_eq!(name, "orders");
            assert_eq!(page_size, 50);
            assert!(token.is_none());
        }
        other => panic!("unexpected action: {:?}", other),
    }
}

#[test]
fn a_page_with_a_continuation_token_marks_more_pages() {
    let mut app = app_with_loaded_table();
    handle_key_event(&mut app, plain(KeyCode::Enter));
    let token = vec![("id".to_string(), AttributeValue::Text("9".to_string()))];
    app.apply_scan_page(vec![sample_item("1")], Some(token.clone()));
    assert!(app.pagination.has_more_pages);
    assert_eq!(app.pagination.last_evaluated_key, Some(token));
    assert_eq!(app.selected_item_index, Some(0));
}

#[test]
fn editing_a_record_builds_a_sorted_editor() {
    let mut app = app_with_loaded_table();
    handle_key_event(&mut app, plain(KeyCode::Enter));
    let item = DynamoItem {
        attributes: vec![
            ("zeta".to_string(), AttributeValue::Null),
            ("id".to_string(), AttributeValue::Text("1".to_string())),
            ("alpha".to_string(), AttributeValue::Number("2".to_string())),
        ],
        hash_key_value: AttributeValue::Text("1".to_string()),
        range_key_value: None,
    };
    app.apply_scan_page(vec![item], None);
    handle_key_event(&mut app, plain(KeyCode::Char('e')));
    assert_eq!(app.state, AppState::ItemEditor);
    let editor = app.item_editor.as_ref().expect("editor constructed");
    let names: Vec<&str> = editor.attributes.iter().map(|p| p.0.as_str()).collect();
    assert_eq!(names, vec!["id", "alpha", "zeta"]);
    assert_eq!(editor.selected_attribute_index, 0);
}

#[test]
fn creating_a_record_seeds_the_key_rows() {
    let mut app = App::new();
    app.apply_table_list(vec!["orders".to_string()]);
    let mut table = sample_table("orders");
    table.range_key =
        Some(KeySchema { name: "ts".to_string(), key_type: AttributeType::Number });
    app.apply_table_detail(0, table);
    handle_key_event(&mut app, plain(KeyCode::Enter));
    handle_key_event(&mut app, plain(KeyCode::Char('i')));
    assert_eq!(app.state, AppState::ItemEditor);
    let editor = app.item_editor.as_ref().expect("editor constructed");
    assert_eq!(editor.attributes.len(), 2);
    assert_eq!(editor.attributes[0].0, "id");
    assert_eq!(editor.attributes[1].0, "ts");
}

#[test]
fn saving_a_record_drains_the_flag_into_one_put() {
    let mut app = app_with_loaded_table();
    handle_key_event(&mut app, plain(KeyCode::Enter));
    app.apply_scan_page(vec![sample_item("1")], None);
    handle_key_event(&mut app, plain(KeyCode::Char('e')));
    let save = KeyInput::control(KeyCode::Char('s'));
    handle_key_event(&mut app, save);
    assert!(app.pending_save_item);
    let action = app.next_backend_action("us-east-1");
    match action {
        Some(BackendAction::SaveItem(name, attrs)) => {
            assert_eq!(name, "orders");
            assert_eq!(attrs.len(), 1);
            assert_eq!(attrs[0].0, "id");
        }
        other => panic!("unexpected action: {:?}", other),
    }
    assert!(!app.pending_save_item);
}

#[test]
fn wizard_review_commits_the_configuration() {
    let mut app = App::new();
    handle_key_event(&mut app, plain(KeyCode::Char('c')));
    for c in "orders".chars() {
        handle_key_event(&mut app, plain(KeyCode::Char(c)));
    }
    handle_key_event(&mut app, plain(KeyCode::Tab));
    for c in "id".chars() {
        handle_key_event(&mut app, plain(KeyCode::Char(c)));
    }
    handle_key_event(&mut app, plain(KeyCode::Enter));
    assert_eq!(app.wizard_state.step, WizardStep::BillingConfig);
    handle_key_event(&mut app, plain(KeyCode::Enter));
    assert_eq!(app.wizard_state.step, WizardStep::Review);
    let action = app.next_backend_action("us-east-1");
    match action {
        Some(BackendAction::CreateTable(cfg)) => {
            assert_eq!(cfg.name, "orders");
            assert_eq!(cfg.hash_key.name, "id");
            assert_eq!(cfg.billing_mode, BillingMode::OnDemand);
        }
        other => panic!("unexpected action: {:?}", other),
    }
}

#[test]
fn invalid_wizard_step_reports_a_status_message() {
    let mut app = App::new();
    handle_key_event(&mut app, plain(KeyCode::Char('c')));
    for c in "ab".chars() {
        handle_key_event(&mut app, plain(KeyCode::Char(c)));
    }
    handle_key_event(&mut app, plain(KeyCode::Enter));
    assert_eq!(app.wizard_state.step, WizardStep::BasicConfig);
    assert_eq!(app.status_message, "Table name must be 3-255 characters");
}

#[test]
fn backspace_on_a_non_text_field_steps_the_wizard_back() {
    let mut app = App::new();
    handle_key_event(&mut app, plain(KeyCode::Char('c')));
    for c in "orders".chars() {
        handle_key_event(&mut app, plain(KeyCode::Char(c)));
    }
    handle_key_event(&mut app, plain(KeyCode::Tab));
    for c in "id".chars() {
        handle_key_event(&mut app, plain(KeyCode::Char(c)));
    }
    handle_key_event(&mut app, plain(KeyCode::Enter));
    assert_eq!(app.wizard_state.step, WizardStep::BillingConfig);
    app.wizard_state.current_field = WizardField::BillingMode;
    handle_key_event(&mut app, plain(KeyCode::Backspace));
    assert_eq!(app.wizard_state.step, WizardStep::BasicConfig);
}

#[test]
fn failed_listing_empties_the_catalog() {
    let mut app = app_with_loaded_table();
    app.apply_table_list_failed();
    assert!(app.table_names.is_empty());
    assert!(app.tables.is_empty());
}

#[test]
fn log_entries_append_in_order() {
    let mut app = App::new();
    app.log(dynamodb_tui::models::LogLevel::Info, "first".to_string());
    app.log(dynamodb_tui::models::LogLevel::Error, "second".to_string());
    assert_eq!(app.log.len(), 2);
    assert_eq!(app.log[0].message, "first");
    assert_eq!(app.log[1].message, "second");
}

use dynamodb_tui::models::{
    AttributeType, AttributeValue, EditingField, EditorMode, ItemEditorState, KeySchema,
};

fn editor_with(rows: Vec<(&str, AttributeValue)>) -> ItemEditorState {
    let attributes: Vec<(String, AttributeValue)> =
        rows.into_iter().map(|(n, v)| (n.to_string(), v)).collect();
    ItemEditorState {
        mode: EditorMode::Edit,
        table_name: "orders".to_string(),
        hash_key_schema: KeySchema { name: "id".to_string(), key_type: AttributeType::Text },
        range_key_schema: None,
        attributes,
        selected_attribute_index: 0,
        editing_field: None,
        input_buffer: String::new(),
    }
}

#[test]
fn cycle_type_on_hash_key_row_changes_nothing() {
    let mut e = editor_with(vec![("id", AttributeValue::Text("1".to_string()))]);
    e.cycle_selected_type();
    assert_eq!(e.attributes[0].0, "id");
    assert_eq!(e.attributes[0].1, AttributeValue::Text("1".to_string()));
}

#[test]
fn delete_on_hash_key_row_changes_nothing() {
    let mut e = editor_with(vec![("id", AttributeValue::Text("1".to_string()))]);
    e.delete_selected();
    assert_eq!(e.attributes.len(), 1);
    assert_eq!(e.attributes[0].0, "id");
    assert_eq!(e.attributes[0].1, AttributeValue::Text("1".to_string()));
}

#[test]
fn rename_blocked_on_hash_key_row() {
    let mut e = editor_with(vec![("id", AttributeValue::Text("1".to_string()))]);
    e.start_key_edit();
    assert_eq!(e.editing_field, None);
}

#[test]
fn add_then_delete_restores_the_attribute_list() {
    let mut e = editor_with(vec![
        ("id", AttributeValue::Text("1".to_string())),
        ("note", AttributeValue::Text("x".to_string())),
    ]);
    let before = e.attributes.clone();
    e.add_attribute();
    assert_eq!(e.attributes.len(), 3);
    assert_eq!(e.attributes[2].0, "new_attribute");
    assert_eq!(e.selected_attribute_index, 2);
    e.delete_selected();
    assert_eq!(e.attributes.len(), before.len());
    for (got, want) in e.attributes.iter().zip(before.iter()) {
        assert_eq!(got.0, want.0);
        assert_eq!(got.1, want.1);
    }
}

#[test]
fn boolean_commit_reads_the_buffer_leniently() {
    let mut e = editor_with(vec![
        ("id", AttributeValue::Text("1".to_string())),
        ("flag", AttributeValue::Boolean(false)),
    ]);
    e.selected_attribute_index = 1;
    e.start_value_edit();
    assert_eq!(e.input_buffer, "false");
    e.input_buffer.clear();
    for c in "YES".chars() {
        e.push_input(c);
    }
    e.commit_edit();
    assert_eq!(e.attributes[1].1, AttributeValue::Boolean(true));

    e.selected_attribute_index = 1;
    e.start_value_edit();
    e.input_buffer.clear();
    for c in "maybe".chars() {
        e.push_input(c);
    }
    e.commit_edit();
    assert_eq!(e.attributes[1].1, AttributeValue::Boolean(false));
}

#[test]
fn binary_commit_drops_a_trailing_unpaired_digit() {
    let mut e = editor_with(vec![
        ("id", AttributeValue::Text("1".to_string())),
        ("blob", AttributeValue::Binary(Vec::new())),
    ]);
    e.selected_attribute_index = 1;
    e.start_value_edit();
    e.input_buffer.clear();
    for c in "4f6".chars() {
        e.push_input(c);
    }
    e.commit_edit();
    assert_eq!(e.attributes[1].1, AttributeValue::Binary(vec![0x4f]));
}

#[test]
fn binary_commit_drops_a_malformed_pair() {
    let mut e = editor_with(vec![
        ("id", AttributeValue::Text("1".to_string())),
        ("blob", AttributeValue::Binary(Vec::new())),
    ]);
    e.selected_attribute_index = 1;
    e.start_value_edit();
    for c in "zz4f".chars() {
        e.push_input(c);
    }
    e.commit_edit();
    assert_eq!(e.attributes[1].1, AttributeValue::Binary(vec![0x4f]));
}

#[test]
fn binary_value_round_trips_through_its_hex_display() {
    let original = vec![0x00u8, 0x4f, 0xff, 0x6a];
    let mut e = editor_with(vec![
        ("id", AttributeValue::Text("1".to_string())),
        ("blob", AttributeValue::Binary(original.clone())),
    ]);
    e.selected_attribute_index = 1;
    e.start_value_edit();
    assert_eq!(e.input_buffer, "004fff6a");
    e.commit_edit();
    assert_eq!(e.attributes[1].1, AttributeValue::Binary(original));
}

#[test]
fn cycle_type_walks_text_number_binary_text() {
    let mut e = editor_with(vec![
        ("id", AttributeValue::Text("1".to_string())),
        ("v", AttributeValue::Text("42".to_string())),
    ]);
    e.selected_attribute_index = 1;
    e.cycle_selected_type();
    assert_eq!(e.attributes[1].1, AttributeValue::Number("42".to_string()));
    e.cycle_selected_type();
    assert_eq!(e.attributes[1].1, AttributeValue::Binary(Vec::new()));
    e.cycle_selected_type();
    assert_eq!(e.attributes[1].1, AttributeValue::Text(String::new()));
}

#[test]
fn rename_keeps_value_and_position() {
    let mut e = editor_with(vec![
        ("id", AttributeValue::Text("1".to_string())),
        ("old_name", AttributeValue::Number("7".to_string())),
        ("tail", AttributeValue::Null),
    ]);
    e.selected_attribute_index = 1;
    e.start_key_edit();
    assert_eq!(e.editing_field, Some(EditingField::Key));
    assert_eq!(e.input_buffer, "old_name");
    e.input_buffer.clear();
    for c in "renamed".chars() {
        e.push_input(c);
    }
    e.commit_edit();
    assert_eq!(e.attributes[1].0, "renamed");
    assert_eq!(e.attributes[1].1, AttributeValue::Number("7".to_string()));
    assert_eq!(e.attributes[2].0, "tail");
}

#[test]
fn escape_discards_the_buffer_without_changes() {
    let mut e = editor_with(vec![
        ("id", AttributeValue::Text("1".to_string())),
        ("v", AttributeValue::Text("keep".to_string())),
    ]);
    e.selected_attribute_index = 1;
    e.start_value_edit();
    e.push_input('x');
    e.cancel_edit();
    assert_eq!(e.editing_field, None);
    assert_eq!(e.input_buffer, "");
    assert_eq!(e.attributes[1].1, AttributeValue::Text("keep".to_string()));
}

#[test]
fn selection_is_bounded_by_the_virtual_add_row() {
    let mut e = editor_with(vec![("id", AttributeValue::Text("1".to_string()))]);
    e.select_next();
    assert_eq!(e.selected_attribute_index, 1);
    e.select_next();
    assert_eq!(e.selected_attribute_index, 1);
    e.select_previous();
    assert_eq!(e.selected_attribute_index, 0);
    e.select_previous();
    assert_eq!(e.selected_attribute_index, 0);
}

#[test]
fn deleting_last_row_clamps_the_selection() {
    let mut e = editor_with(vec![
        ("id", AttributeValue::Text("1".to_string())),
        ("x", AttributeValue::Null),
    ]);
    e.selected_attribute_index = 1;
    e.delete_selected();
    assert_eq!(e.attributes.len(), 1);
    assert_eq!(e.selected_attribute_index, 0);
}

#[test]
fn complex_value_edited_as_text_becomes_text() {
    let mut e = editor_with(vec![
        ("id", AttributeValue::Text("1".to_string())),
        ("l", AttributeValue::List(vec![AttributeValue::Null])),
    ]);
    e.selected_attribute_index = 1;
    e.start_value_edit();
    assert_eq!(e.input_buffer, "");
    for c in "plain".chars() {
        e.push_input(c);
    }
    e.commit_edit();
    assert_eq!(e.attributes[1].1, AttributeValue::Text("plain".to_string()));
}

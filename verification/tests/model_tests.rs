use dynamodb_tui::describe::{assemble_table, KeyRole};
use dynamodb_tui::models::{AttributeType, AttributeValue, BillingMode};
use dynamodb_tui::strutil::{dec_string_u64, parse_u63};

#[test]
fn type_codes_round_trip() {
    assert_eq!(AttributeType::Text.to_aws_type(), "S");
    assert_eq!(AttributeType::Number.to_aws_type(), "N");
    assert_eq!(AttributeType::Binary.to_aws_type(), "B");
    assert_eq!(AttributeType::from_aws_type("S"), AttributeType::Text);
    assert_eq!(AttributeType::from_aws_type("N"), AttributeType::Number);
    assert_eq!(AttributeType::from_aws_type("B"), AttributeType::Binary);
    assert_eq!(AttributeType::from_aws_type("??"), AttributeType::Text);
}

#[test]
fn display_full_renders_each_variant() {
    assert_eq!(AttributeValue::Text("hi".to_string()).display_full(), "\"hi\"");
    assert_eq!(AttributeValue::Number("3.25".to_string()).display_full(), "3.25");
    assert_eq!(AttributeValue::Binary(Vec::new()).display_full(), "<empty binary>");
    assert_eq!(AttributeValue::Binary(vec![0x4f, 0x0a]).display_full(), "0x4f0a");
    assert_eq!(AttributeValue::Binary(vec![1u8; 20]).display_full(), "<binary 20 bytes>");
    assert_eq!(AttributeValue::Boolean(true).display_full(), "true");
    assert_eq!(AttributeValue::Null.display_full(), "null");
    assert_eq!(
        AttributeValue::TextSet(vec!["a".to_string(), "b".to_string()]).display_full(),
        "[\"a\", \"b\"]"
    );
    assert_eq!(AttributeValue::NumberSet(vec!["1".to_string()]).display_full(), "[\"1\"]");
    assert_eq!(
        AttributeValue::BinarySet(vec![vec![1], vec![2]]).display_full(),
        "<binary set 2 items>"
    );
    assert_eq!(
        AttributeValue::List(vec![AttributeValue::Null, AttributeValue::Null]).display_full(),
        "[2 items]"
    );
    assert_eq!(
        AttributeValue::Mapping(vec![("k".to_string(), AttributeValue::Null)]).display_full(),
        "{1  fields}"
    );
}

#[test]
fn display_short_truncates_with_an_ellipsis() {
    let v = AttributeValue::Text("abcdefgh".to_string());
    assert_eq!(v.display_full(), "\"abcdefgh\"");
    assert_eq!(v.display_short(4), "\"abc...");
    assert_eq!(v.display_short(100), "\"abcdefgh\"");
}

#[test]
fn decimal_rendering_matches_the_value() {
    assert_eq!(dec_string_u64(0), "0");
    assert_eq!(dec_string_u64(7), "7");
    assert_eq!(dec_string_u64(105), "105");
    assert_eq!(dec_string_u64(18446744073709551615), "18446744073709551615");
}

#[test]
fn digit_parsing_accepts_exactly_digit_strings() {
    assert_eq!(parse_u63("0"), Some(0));
    assert_eq!(parse_u63("42"), Some(42));
    assert_eq!(parse_u63("007"), Some(7));
    assert_eq!(parse_u63(""), None);
    assert_eq!(parse_u63("4a"), None);
    assert_eq!(parse_u63("-4"), None);
    assert_eq!(parse_u63("9223372036854775807"), Some(i64::MAX));
    assert_eq!(parse_u63("9223372036854775808"), None);
}

#[test]
fn assemble_table_resolves_keys_against_definitions() {
    let keys = vec![
        ("id".to_string(), KeyRole::Hash),
        ("ts".to_string(), KeyRole::Range),
    ];
    let codes = vec![
        ("id".to_string(), "S".to_string()),
        ("ts".to_string(), "N".to_string()),
    ];
    let t = assemble_table(
        "orders".to_string(),
        &keys,
        &codes,
        Some(Some("PROVISIONED".to_string())),
        Some((Some(5), None)),
        Some("ACTIVE".to_string()),
        Some(12),
        Some(1024),
        "us-east-1".to_string(),
    )
    .expect("hash key present");
    assert_eq!(t.name, "orders");
    assert_eq!(t.hash_key.name, "id");
    assert_eq!(t.hash_key.key_type, AttributeType::Text);
    let rk = t.range_key.expect("range key present");
    assert_eq!(rk.name, "ts");
    assert_eq!(rk.key_type, AttributeType::Number);
    assert_eq!(t.billing_mode, BillingMode::Provisioned);
    assert_eq!(t.read_capacity, Some(5));
    assert_eq!(t.write_capacity, Some(0));
    assert_eq!(t.table_status, "ACTIVE");
}

#[test]
fn assemble_table_without_a_hash_key_fails() {
    let keys = vec![("ts".to_string(), KeyRole::Range)];
    let codes: Vec<(String, String)> = Vec::new();
    let r = assemble_table(
        "orders".to_string(),
        &keys,
        &codes,
        None,
        None,
        None,
        None,
        None,
        "us-east-1".to_string(),
    );
    assert_eq!(r.unwrap_err(), "Table orders has no hash key");
}

#[test]
fn assemble_table_defaults_billing_and_status() {
    let keys = vec![("id".to_string(), KeyRole::Hash)];
    let codes = vec![("id".to_string(), "S".to_string())];
    let t = assemble_table(
        "orders".to_string(),
        &keys,
        &codes,
        None,
        None,
        None,
        None,
        None,
        "us-east-1".to_string(),
    )
    .expect("hash key present");
    assert_eq!(t.billing_mode, BillingMode::Provisioned);
    assert_eq!(t.table_status, "Unknown");
    assert_eq!(t.read_capacity, None);

    let t2 = assemble_table(
        "orders".to_string(),
        &keys,
        &codes,
        Some(Some("PAY_PER_REQUEST".to_string())),
        None,
        None,
        None,
        None,
        "us-east-1".to_string(),
    )
    .expect("hash key present");
    assert_eq!(t2.billing_mode, BillingMode::OnDemand);
}

#[test]
fn log_entries_carry_level_and_message() {
    let e = dynamodb_tui::models::LogEntry::new(
        dynamodb_tui::models::LogLevel::Warning,
        "careful".to_string(),
    );
    assert_eq!(e.message, "careful");
    assert!(matches!(e.level, dynamodb_tui::models::LogLevel::Warning));
}

#[test]
fn pagination_starts_on_page_one_without_a_token() {
    let p = dynamodb_tui::models::PaginationState::new();
    assert_eq!(p.current_page, 1);
    assert!(p.last_evaluated_key.is_none());
    assert!(!p.has_more_pages);
    assert_eq!(p.items_per_page, 50);
}

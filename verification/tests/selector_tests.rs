use dynamodb_tui::selector::FilterableSelector;

fn catalog(entries: &[&str]) -> Vec<String> {
    entries.iter().map(|e| e.to_string()).collect()
}

#[test]
fn new_selector_selects_first_entry() {
    let s = FilterableSelector::new(catalog(&["alpha", "beta"]));
    assert_eq!(s.filtered, vec!["alpha".to_string(), "beta".to_string()]);
    assert_eq!(s.selected, Some(0));
}

#[test]
fn new_selector_over_empty_catalog_selects_nothing() {
    let s = FilterableSelector::new(Vec::new());
    assert_eq!(s.selected, None);
}

#[test]
fn navigation_stays_within_filtered_bounds() {
    let mut s = FilterableSelector::new(catalog(&["a", "b", "c"]));
    for _ in 0..10 {
        s.select_next();
        let i = s.selected.unwrap();
        assert!(i < s.filtered.len());
    }
    for _ in 0..10 {
        s.select_previous();
        let i = s.selected.unwrap();
        assert!(i < s.filtered.len());
    }
}

#[test]
fn navigation_wraps_around() {
    let mut s = FilterableSelector::new(catalog(&["a", "b", "c"]));
    s.select_previous();
    assert_eq!(s.selected, Some(2));
    s.select_next();
    assert_eq!(s.selected, Some(0));
}

#[test]
fn valid_regex_filters_the_catalog() {
    let mut s = FilterableSelector::new(catalog(&["us-east-1", "us-west-2", "eu-west-1"]));
    s.set_filter("^us-".to_string());
    assert_eq!(s.filtered, vec!["us-east-1".to_string(), "us-west-2".to_string()]);
    assert_eq!(s.selected, Some(0));
}

#[test]
fn invalid_regex_falls_back_to_literal_substring() {
    let mut s = FilterableSelector::new(catalog(&["a][b", "xyz"]));
    s.set_filter("][".to_string());
    assert_eq!(s.filtered, vec!["a][b".to_string()]);
    assert_eq!(s.selected, Some(0));
}

#[test]
fn invalid_regex_fallback_is_case_insensitive() {
    let mut s = FilterableSelector::new(catalog(&["XABC[y", "other"]));
    s.set_filter("abc[".to_string());
    assert_eq!(s.filtered, vec!["XABC[y".to_string()]);
}

#[test]
fn empty_filtered_sequence_clears_selection_and_confirm_is_noop() {
    let mut s = FilterableSelector::new(catalog(&["alpha", "beta"]));
    s.set_filter("zzz".to_string());
    assert!(s.filtered.is_empty());
    assert_eq!(s.selected, None);
    assert_eq!(s.confirm(), None);
    s.select_next();
    assert_eq!(s.selected, None);
    s.select_previous();
    assert_eq!(s.selected, None);
}

#[test]
fn clearing_the_filter_restores_the_catalog() {
    let mut s = FilterableSelector::new(catalog(&["alpha", "beta"]));
    s.set_filter("alp".to_string());
    assert_eq!(s.filtered, vec!["alpha".to_string()]);
    s.set_filter(String::new());
    assert_eq!(s.filtered, vec!["alpha".to_string(), "beta".to_string()]);
}

#[test]
fn selection_kept_when_still_in_range_after_refilter() {
    let mut s = FilterableSelector::new(catalog(&["aa", "ab", "ac"]));
    s.select_next();
    assert_eq!(s.selected, Some(1));
    s.set_filter("a".to_string());
    assert_eq!(s.filtered.len(), 3);
    assert_eq!(s.selected, Some(1));
    s.set_filter("ab".to_string());
    assert_eq!(s.filtered, vec!["ab".to_string()]);
    assert_eq!(s.selected, Some(0));
}

#[test]
fn confirm_reads_the_selected_entry() {
    let mut s = FilterableSelector::new(catalog(&["alpha", "beta"]));
    s.select_next();
    assert_eq!(s.confirm(), Some("beta".to_string()));
}

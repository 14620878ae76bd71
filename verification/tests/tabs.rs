use stackbloatless::tabs::TabStrip;

#[test]
fn a_new_strip_is_empty() {
    let strip = TabStrip::new();
    assert_eq!(strip.tabs.len(), 0);
    assert!(strip.selected.is_none());
    assert_eq!(strip.pinned_count, 0);
}

#[test]
fn appending_to_an_empty_strip_selects_the_new_tab() {
    let mut strip = TabStrip::new();
    strip.append("alpha".to_string());
    assert_eq!(strip.tabs.len(), 1);
    assert_eq!(strip.tabs[0].title, "alpha");
    assert!(!strip.tabs[0].pinned);
    assert_eq!(strip.selected, Some(0));
}

#[test]
fn appending_to_a_filled_strip_keeps_the_selection() {
    let mut strip = TabStrip::new();
    strip.append("alpha".to_string());
    strip.append("beta".to_string());
    assert_eq!(strip.tabs.len(), 2);
    assert_eq!(strip.selected, Some(0));
}

#[test]
fn selecting_a_tab_changes_only_the_selection() {
    let mut strip = TabStrip::new();
    strip.append("alpha".to_string());
    strip.append("beta".to_string());
    strip.select(1);
    assert_eq!(strip.selected, Some(1));
    assert_eq!(strip.tabs.len(), 2);
    assert!(strip.is_selected_pinned() == false);
}

#[test]
fn pinned_tabs_gather_in_front_in_pin_order() {
    let mut strip = TabStrip::new();
    strip.append("alpha".to_string());
    strip.append("beta".to_string());
    strip.append("gamma".to_string());
    strip.select(1);
    let pinned = strip.toggle_pin_selected();
    assert!(pinned);
    strip.select(2);
    let pinned = strip.toggle_pin_selected();
    assert!(pinned);
    let titles: Vec<&str> = strip.tabs.iter().map(|t| t.title.as_str()).collect();
    assert_eq!(titles, ["beta", "gamma", "alpha"]);
    assert_eq!(strip.pinned_count, 2);
    assert!(strip.tabs[0].pinned && strip.tabs[1].pinned && !strip.tabs[2].pinned);
    assert_eq!(strip.selected, Some(1));
}

#[test]
fn unpinning_drops_the_tab_right_behind_the_pinned_block() {
    let mut strip = TabStrip::new();
    strip.append("alpha".to_string());
    strip.append("beta".to_string());
    strip.append("gamma".to_string());
    strip.select(1);
    strip.toggle_pin_selected();
    strip.select(2);
    strip.toggle_pin_selected();
    // Front block is beta, gamma; now unpin beta.
    strip.select(0);
    let pinned = strip.toggle_pin_selected();
    assert!(!pinned);
    let titles: Vec<&str> = strip.tabs.iter().map(|t| t.title.as_str()).collect();
    assert_eq!(titles, ["gamma", "beta", "alpha"]);
    assert_eq!(strip.pinned_count, 1);
    assert!(!strip.tabs[1].pinned);
    assert_eq!(strip.selected, Some(1));
}

#[test]
fn closing_a_middle_tab_selects_the_tab_that_takes_its_place() {
    let mut strip = TabStrip::new();
    strip.append("alpha".to_string());
    strip.append("beta".to_string());
    strip.append("gamma".to_string());
    strip.select(1);
    strip.close_selected();
    let titles: Vec<&str> = strip.tabs.iter().map(|t| t.title.as_str()).collect();
    assert_eq!(titles, ["alpha", "gamma"]);
    assert_eq!(strip.selected, Some(1));
}

#[test]
fn closing_the_last_remaining_tab_clears_the_selection() {
    let mut strip = TabStrip::new();
    strip.append("alpha".to_string());
    strip.close_selected();
    assert_eq!(strip.tabs.len(), 0);
    assert!(strip.selected.is_none());
    assert_eq!(strip.pinned_count, 0);
}

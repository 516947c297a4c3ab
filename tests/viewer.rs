use pane::input::Key;
use pane::tips::Tip;
use pane::viewer::{handle_key_event, AppState};

fn create_sample_tips() -> Vec<Tip> {
    vec![
        Tip {
            id: "cc-001".to_string(),
            title: "Use Clear Prompts".to_string(),
            category: Some("prompting".to_string()),
            text: "Be specific and clear in your requests.".to_string(),
            tags: vec!["prompting".to_string(), "best-practices".to_string()],
        },
        Tip {
            id: "cc-002".to_string(),
            title: "Debugging Workflow".to_string(),
            category: Some("debugging".to_string()),
            text: "Use systematic debugging approach.".to_string(),
            tags: vec!["debugging".to_string(), "workflow".to_string()],
        },
        Tip {
            id: "cc-003".to_string(),
            title: "Keyboard Shortcuts".to_string(),
            category: Some("features".to_string()),
            text: "Learn keyboard shortcuts for efficiency.".to_string(),
            tags: vec!["shortcuts".to_string(), "productivity".to_string()],
        },
    ]
}

#[test]
fn test_app_state_initialization() {
    let tips = create_sample_tips();
    let state = AppState::new(tips);

    assert_eq!(state.filtered_count(), 3);
    assert_eq!(state.selected_index(), 0);
    assert_eq!(state.search_query(), "");
    assert!(!state.is_search_mode());
    assert!(!state.is_detail_mode());
    assert!(!state.should_quit());
}

#[test]
fn test_search_filters_by_title() {
    let tips = create_sample_tips();
    let mut state = AppState::new(tips);

    state.update_search("Debugging".to_string());
    assert_eq!(state.filtered_count(), 1);
    assert_eq!(state.selected_tip().unwrap().id, "cc-002");
}

#[test]
fn test_search_filters_by_tags() {
    let tips = create_sample_tips();
    let mut state = AppState::new(tips);

    state.update_search("workflow".to_string());
    assert_eq!(state.filtered_count(), 1);
    assert_eq!(state.selected_tip().unwrap().id, "cc-002");
}

#[test]
fn test_search_filters_by_text() {
    let tips = create_sample_tips();
    let mut state = AppState::new(tips);

    state.update_search("systematic".to_string());
    assert_eq!(state.filtered_count(), 1);
    assert_eq!(state.selected_tip().unwrap().id, "cc-002");
}

#[test]
fn test_search_is_case_insensitive() {
    let tips = create_sample_tips();
    let mut state1 = AppState::new(tips.clone());
    let mut state2 = AppState::new(tips);

    state1.update_search("DEBUGGING".to_string());
    state2.update_search("debugging".to_string());

    assert_eq!(state1.filtered_count(), state2.filtered_count());
    assert_eq!(
        state1.selected_tip().unwrap().id,
        state2.selected_tip().unwrap().id
    );
}

#[test]
fn test_search_no_results_empty() {
    let tips = create_sample_tips();
    let mut state = AppState::new(tips);

    state.update_search("nonexistentterm".to_string());
    assert_eq!(state.filtered_count(), 0);
    assert!(state.selected_tip().is_none());
}

#[test]
fn test_navigation_wraps_correctly() {
    let tips = create_sample_tips();
    let mut state = AppState::new(tips);

    // At start, select_prev wraps to end
    assert_eq!(state.selected_index(), 0);
    state.select_prev();
    assert_eq!(state.selected_index(), 2);

    // At end, select_next wraps to start
    state.select_next();
    assert_eq!(state.selected_index(), 0);
}

#[test]
fn test_mode_toggles() {
    let tips = create_sample_tips();
    let mut state = AppState::new(tips);

    // Toggle search mode
    assert!(!state.is_search_mode());
    state.toggle_search();
    assert!(state.is_search_mode());
    state.toggle_search();
    assert!(!state.is_search_mode());

    // Toggle detail mode
    assert!(!state.is_detail_mode());
    state.toggle_detail();
    assert!(state.is_detail_mode());
    state.toggle_detail();
    assert!(!state.is_detail_mode());

    // Quit flag
    assert!(!state.should_quit());
    state.quit();
    assert!(state.should_quit());
}


#[test]
fn viewer_keys_drive_search_and_detail() {
    let mut state = AppState::new(create_sample_tips());
    handle_key_event(&mut state, Key::Char('/'));
    assert!(state.is_search_mode());
    for c in "KEY".chars() {
        handle_key_event(&mut state, Key::Char(c));
    }
    assert_eq!(state.search_query(), "key");
    assert_eq!(state.filtered_count(), 1);
    handle_key_event(&mut state, Key::Backspace);
    assert_eq!(state.search_query(), "ke");
    handle_key_event(&mut state, Key::Esc);
    assert!(!state.is_search_mode());
    handle_key_event(&mut state, Key::Enter);
    assert!(state.is_detail_mode());
    handle_key_event(&mut state, Key::Char('j'));
    assert!(state.is_detail_mode());
    handle_key_event(&mut state, Key::Esc);
    assert!(!state.is_detail_mode());
    handle_key_event(&mut state, Key::Esc);
    assert!(state.should_quit());
}

#[test]
fn viewer_category_matches_and_order_is_kept() {
    let mut state = AppState::new(create_sample_tips());
    state.update_search("E".to_string());
    let ids: Vec<String> = state.filtered_tips().iter().map(|t| t.id.clone()).collect();
    assert_eq!(ids, vec!["cc-001", "cc-002", "cc-003"]);
    state.update_search("FEATURES".to_string());
    assert_eq!(state.filtered_count(), 1);
    assert_eq!(state.selected_tip().unwrap().id, "cc-003");
    assert_eq!(state.all_tips().len(), 3);
}

use pane::app::{handle_event, Effect};
use pane::config::{expand_tilde, Config};
use pane::context::extract_project_name;
use pane::input::InputEvent;
use pane::search::filter_skills;
use pane::skills::manifest::{ManifestError, ManifestField};
use pane::skills::output::{OutputBuffer, SkillOutput, MAX_OUTPUT_SIZE};
use pane::skills::runner::{exec_target, ExecTarget};
use pane::skills::{discover_skills, ContextConfig, Skill, SkillManifest, SkillSource, UiConfig, UiMode};
use pane::state::{AppState, ViewMode};
use pane::tips::{validate_tips, Tip};
use std::time::Duration;

fn skill(id: &str, name: &str, source: SkillSource) -> Skill {
    Skill {
        manifest: SkillManifest {
            id: id.to_string(),
            name: name.to_string(),
            description: "Description".to_string(),
            version: "0.1.0".to_string(),
            executable: "./run.sh".to_string(),
            args: vec![],
            tags: vec![],
            estimated_time: None,
            ui: UiConfig {
                mode: UiMode::Inline,
                fullscreen: true,
            },
            context: ContextConfig::default(),
        },
        source,
        manifest_path: format!("/skills/{}/pane-skill.yaml", id),
    }
}

fn output(stdout: &str, stderr: &str) -> SkillOutput {
    SkillOutput {
        stdout: stdout.to_string(),
        stderr: stderr.to_string(),
        exit_code: Some(0),
        truncated: false,
        execution_time: Duration::from_millis(1),
    }
}

#[test]
fn discovery_keeps_project_tier_of_three() {
    let found = vec![
        skill("x", "S", SkillSource::System),
        skill("x", "U", SkillSource::User),
        skill("x", "P", SkillSource::Project),
    ];
    let merged = discover_skills(found);
    assert_eq!(merged.len(), 1);
    assert_eq!(merged[0].manifest.id, "x");
    assert_eq!(merged[0].manifest.name, "P");
}

#[test]
fn discovery_prefers_higher_tier_in_any_order() {
    let found = vec![
        skill("x", "P", SkillSource::Project),
        skill("y", "only", SkillSource::System),
        skill("x", "S", SkillSource::System),
        skill("x", "U", SkillSource::User),
    ];
    let merged = discover_skills(found);
    assert_eq!(merged.len(), 2);
    let x = merged.iter().find(|s| s.manifest.id == "x").unwrap();
    assert_eq!(x.manifest.name, "P");
    assert_eq!(x.source, SkillSource::Project);
    assert!(merged.iter().any(|s| s.manifest.id == "y"));
}

#[test]
fn discovery_of_nothing_is_empty() {
    assert!(discover_skills(vec![]).is_empty());
}

#[test]
fn query_clau_finds_clause_tips_first() {
    let skills = vec![
        skill("clause-tips", "Clause Tips", SkillSource::User),
        skill("docker-build", "Docker Build", SkillSource::User),
    ];
    let result = filter_skills("clau", &skills);
    assert!(!result.is_empty());
    assert!(result.contains(&0));
    if let Some(pos) = result.iter().position(|&i| i == 1) {
        assert!(pos > result.iter().position(|&i| i == 0).unwrap());
    }
}

#[test]
fn search_ignores_query_case() {
    let mut debugger = skill("debugger", "Debug Helper", SkillSource::User);
    debugger.manifest.tags = vec!["debug".to_string(), "tools".to_string()];
    let skills = vec![
        debugger,
        skill("docker-build", "Docker Build", SkillSource::User),
        skill("deploy", "Deploy Bot", SkillSource::User),
    ];
    let mut upper = filter_skills("DEBUG", &skills);
    let mut lower = filter_skills("debug", &skills);
    upper.sort();
    lower.sort();
    assert_eq!(upper, lower);
    assert!(upper.contains(&0));
}

#[test]
fn search_result_has_no_repeats() {
    let skills = vec![
        skill("code-a", "Code A", SkillSource::User),
        skill("code-b", "Code B", SkillSource::User),
        skill("other", "Other", SkillSource::User),
    ];
    let result = filter_skills("code", &skills);
    let mut sorted = result.clone();
    sorted.sort();
    sorted.dedup();
    assert_eq!(sorted.len(), result.len());
    assert!(result.contains(&0) && result.contains(&1));
}

#[test]
fn buffer_of_ten_keeps_hello_worl() {
    let mut buffer = OutputBuffer::with_limit(10);
    buffer.append(b"Hello");
    buffer.append(b" world");
    assert_eq!(buffer.len(), 10);
    assert_eq!(buffer.to_string(), "Hello worl");
    assert!(buffer.is_truncated());
}

#[test]
fn full_buffer_stays_full_and_truncated() {
    let mut buffer = OutputBuffer::with_limit(3);
    buffer.append(b"abc");
    assert!(!buffer.is_truncated());
    buffer.append(b"");
    assert!(buffer.is_truncated());
    buffer.append(b"def");
    assert_eq!(buffer.len(), 3);
    assert!(buffer.is_truncated());
}

#[test]
fn zero_limit_buffer_drops_everything() {
    let mut buffer = OutputBuffer::with_limit(0);
    buffer.append(b"x");
    assert!(buffer.is_empty());
    assert!(buffer.is_truncated());
}

#[test]
fn default_buffer_ceiling_is_ten_mebibytes() {
    assert_eq!(MAX_OUTPUT_SIZE, 10 * 1024 * 1024);
    let mut buffer = OutputBuffer::default();
    buffer.append(&vec![b'a'; MAX_OUTPUT_SIZE + 5]);
    assert_eq!(buffer.len(), MAX_OUTPUT_SIZE);
    assert!(buffer.is_truncated());
}

#[test]
fn capture_appends_notice_to_cut_stream_only() {
    let mut out = OutputBuffer::with_limit(4);
    out.append(b"abcdef");
    let mut err = OutputBuffer::with_limit(10);
    err.append(b"oops");
    let captured = SkillOutput::from_capture(&out, &err, Some(3), Duration::from_millis(7));
    assert_eq!(captured.stdout, "abcd\n[Output truncated - exceeded 10MB limit]");
    assert_eq!(captured.stderr, "oops");
    assert_eq!(captured.exit_code, Some(3));
    assert!(captured.truncated);
    assert_eq!(captured.execution_time, Duration::from_millis(7));
}

#[test]
fn favorites_view_with_two_of_five() {
    let skills: Vec<Skill> = (1..=5).map(|i| skill(&format!("s{}", i), "Skill", SkillSource::User)).collect();
    let mut state = AppState::new(skills, Config::default());
    state.add_favorite("s2".to_string());
    state.add_favorite("s4".to_string());
    state.cycle_view_mode();
    assert_eq!(state.view_mode(), &ViewMode::Favorites);
    assert_eq!(state.search_query(), "");
    assert_eq!(state.filtered_count(), 2);
}

#[test]
fn adding_a_favorite_twice_counts_once() {
    let skills = vec![skill("a", "A", SkillSource::User)];
    let mut state = AppState::new(skills, Config::default());
    state.add_favorite("a".to_string());
    state.add_favorite("a".to_string());
    state.cycle_view_mode();
    assert_eq!(state.filtered_count(), 1);
}

#[test]
fn recent_list_moves_repeat_to_front_without_growing() {
    let skills: Vec<Skill> = ["a", "b", "c"].iter().map(|id| skill(id, "S", SkillSource::User)).collect();
    let mut config = Config::default();
    config.max_recent_skills = 2;
    let mut state = AppState::new(skills, config);
    state.add_to_recent("a".to_string());
    state.add_to_recent("b".to_string());
    state.add_to_recent("a".to_string());
    state.add_to_recent("a".to_string());
    state.cycle_view_mode();
    state.cycle_view_mode();
    assert_eq!(state.view_mode(), &ViewMode::Recent);
    assert_eq!(state.filtered_count(), 2);
    state.add_to_recent("c".to_string());
    state.apply_view_filter();
    let ids: Vec<String> = state.filtered_skills().iter().map(|s| s.manifest.id.clone()).collect();
    assert_eq!(ids, vec!["a".to_string(), "c".to_string()]);
}

#[test]
fn selection_stays_in_view_after_every_move() {
    let skills: Vec<Skill> = (0..7).map(|i| skill(&format!("k{}", i), "Name", SkillSource::User)).collect();
    let mut state = AppState::new(skills, Config::default());
    for step in 0..40 {
        match step % 5 {
            0 => state.move_selection_down(),
            1 => state.move_selection_page_down(3),
            2 => state.move_selection_up(),
            3 => state.move_selection_page_up(2),
            _ => state.move_selection_down(),
        }
        assert!(state.selected_index() < state.filtered_count());
        assert!(state.selected_skill().is_some());
    }
    state.set_search_query("zzzzqqq".to_string());
    assert_eq!(state.filtered_count(), 0);
    assert_eq!(state.selected_index(), 0);
    assert!(state.selected_skill().is_none());
    state.move_selection_down();
    assert_eq!(state.selected_index(), 0);
}

#[test]
fn page_moves_scroll_the_window() {
    let skills: Vec<Skill> = (0..20).map(|i| skill(&format!("k{}", i), "Name", SkillSource::User)).collect();
    let mut state = AppState::new(skills, Config::default());
    state.move_selection_page_down(5);
    assert_eq!(state.selected_index(), 5);
    assert_eq!(state.scroll_offset(), 1);
    state.move_selection_page_down(5);
    assert_eq!(state.selected_index(), 10);
    assert_eq!(state.scroll_offset(), 6);
    state.move_selection_page_up(5);
    assert_eq!(state.selected_index(), 5);
    assert_eq!(state.scroll_offset(), 5);
    state.move_selection_page_up(50);
    assert_eq!(state.selected_index(), 0);
    assert_eq!(state.scroll_offset(), 0);
}

#[test]
fn output_scroll_counts_stderr_and_separator() {
    let mut state = AppState::new(vec![], Config::default());
    let stdout: Vec<String> = (0..15).map(|i| format!("out{}", i)).collect();
    let stderr: Vec<String> = (0..7).map(|i| format!("err{}", i)).collect();
    state.show_output_panel(output(&(stdout.join("\n") + "\n"), &stderr.join("\n")));
    for _ in 0..10 {
        state.scroll_output_down();
    }
    assert_eq!(state.output_scroll_offset(), 3);
    state.scroll_output_up();
    assert_eq!(state.output_scroll_offset(), 2);
}

#[test]
fn inline_status_names_the_skill() {
    let mut state = AppState::new(vec![], Config::default());
    state.start_inline_execution("Docker Build".to_string());
    assert!(state.is_executing_inline());
    assert_eq!(state.inline_execution_status(), Some("Executing Docker Build..."));
    state.finish_inline_execution(output("done", ""));
    assert_eq!(state.inline_execution_status(), None);
    assert_eq!(state.active_output().unwrap().stdout, "done");
}

#[test]
fn escape_clears_search_before_quitting() {
    let skills = vec![skill("a", "Alpha", SkillSource::User), skill("b", "Beta", SkillSource::User)];
    let mut state = AppState::new(skills, Config::default());
    handle_event(InputEvent::CharInput('b'), &mut state);
    assert_eq!(state.search_query(), "b");
    assert_eq!(handle_event(InputEvent::Quit, &mut state), Effect::Nothing);
    assert_eq!(state.search_query(), "");
    assert_eq!(state.filtered_count(), 2);
    assert!(!state.should_quit());
    handle_event(InputEvent::Quit, &mut state);
    assert!(state.should_quit());
}

#[test]
fn enter_asks_to_run_only_with_a_selection() {
    let mut empty = AppState::new(vec![], Config::default());
    assert_eq!(handle_event(InputEvent::Enter, &mut empty), Effect::Nothing);
    let mut state = AppState::new(vec![skill("a", "Alpha", SkillSource::User)], Config::default());
    assert_eq!(handle_event(InputEvent::Enter, &mut state), Effect::RunSelected);
    state.show_output_panel(output("x", ""));
    assert_eq!(handle_event(InputEvent::Enter, &mut state), Effect::Nothing);
    handle_event(InputEvent::Quit, &mut state);
    assert!(!state.is_output_panel_visible());
    assert!(!state.should_quit());
}

#[test]
fn tab_cycles_view_modes() {
    let mut state = AppState::new(vec![skill("a", "Alpha", SkillSource::User)], Config::default());
    handle_event(InputEvent::Tab, &mut state);
    assert_eq!(state.view_mode(), &ViewMode::Favorites);
    assert_eq!(state.filtered_count(), 0);
    handle_event(InputEvent::Tab, &mut state);
    handle_event(InputEvent::Tab, &mut state);
    assert_eq!(state.view_mode(), &ViewMode::All);
    assert_eq!(state.filtered_count(), 1);
}

#[test]
fn manifest_id_grammar() {
    let mut m = skill("my-skill-2", "N", SkillSource::User).manifest;
    assert!(m.validate().is_ok());
    for bad in ["MySkill", "my skill", "my_skill"] {
        m.id = bad.to_string();
        let err = m.validate().unwrap_err();
        assert_eq!(err, ManifestError::InvalidId(bad.to_string()));
        assert!(err.to_string().contains("must be lowercase alphanumeric with hyphens only"));
    }
    m.id = "".to_string();
    assert_eq!(m.validate().unwrap_err(), ManifestError::EmptyField(ManifestField::Id));
    assert!(m.validate().unwrap_err().to_string().contains("id cannot be empty"));
}

#[test]
fn manifest_blank_fields_are_rejected_in_order() {
    let mut m = skill("ok", "N", SkillSource::User).manifest;
    m.name = "  ".to_string();
    m.executable = "".to_string();
    assert_eq!(m.validate().unwrap_err(), ManifestError::EmptyField(ManifestField::Name));
}

#[test]
fn tips_with_repeated_id_are_refused() {
    let tip = |id: &str| Tip {
        id: id.to_string(),
        title: "T".to_string(),
        category: None,
        text: "X".to_string(),
        tags: vec![],
    };
    let err = validate_tips(&[tip("cc-001"), tip("cc-002"), tip("cc-001")]).unwrap_err();
    assert!(err.to_string().contains("Duplicate tip ID 'cc-001'"));
    assert!(validate_tips(&[tip("cc-001"), tip("cc-002")]).is_ok());
    let mut blank = tip("cc-003");
    blank.text = " \t".to_string();
    let err = validate_tips(&[tip("a"), tip("b"), blank]).unwrap_err();
    assert_eq!(err.to_string(), "Tip at index 2 is missing required field 'text'");
}

#[test]
fn project_name_is_last_component() {
    assert_eq!(extract_project_name("/a/b/repo/"), Some("repo".to_string()));
    assert_eq!(extract_project_name("/"), None);
}

#[test]
fn executables_with_separators_are_paths() {
    assert_eq!(exec_target("./run.sh"), ExecTarget::Path);
    assert_eq!(exec_target("C:\\tools\\x.exe"), ExecTarget::Path);
    assert_eq!(exec_target("echo"), ExecTarget::SearchPath);
    assert_eq!(exec_target(""), ExecTarget::SearchPath);
}

#[test]
fn new_session_in_favorites_mode_shows_nothing() {
    let mut config = Config::default();
    config.default_view_mode = ViewMode::Favorites;
    let state = AppState::new(vec![skill("a", "Alpha", SkillSource::User)], config);
    assert_eq!(state.view_mode(), &ViewMode::Favorites);
    assert_eq!(state.filtered_count(), 0);
    assert!(state.selected_skill().is_none());
}

#[test]
fn new_session_in_recent_mode_shows_nothing() {
    let mut config = Config::default();
    config.default_view_mode = ViewMode::Recent;
    let state = AppState::new(vec![skill("a", "Alpha", SkillSource::User)], config);
    assert_eq!(state.filtered_count(), 0);
}

#[test]
fn discovery_drops_invalid_manifests() {
    let mut bad = skill("Bad_Id", "Bad", SkillSource::Project);
    bad.manifest.description = "x".to_string();
    let mut blank = skill("blank", "  ", SkillSource::Project);
    blank.manifest.description = "x".to_string();
    let found = vec![skill("ok", "Fine", SkillSource::System), bad, blank];
    let merged = discover_skills(found);
    assert_eq!(merged.len(), 1);
    assert_eq!(merged[0].manifest.id, "ok");
}

#[test]
fn discovery_invalid_higher_tier_does_not_hide_valid_lower() {
    let mut broken = skill("x", "P", SkillSource::Project);
    broken.manifest.executable = " ".to_string();
    let merged = discover_skills(vec![skill("x", "S", SkillSource::System), broken]);
    assert_eq!(merged.len(), 1);
    assert_eq!(merged[0].manifest.name, "S");
}

#[test]
fn discovery_same_tier_keeps_the_later() {
    let found = vec![
        skill("x", "first", SkillSource::User),
        skill("x", "second", SkillSource::User),
        skill("x", "system", SkillSource::System),
    ];
    let merged = discover_skills(found);
    assert_eq!(merged.len(), 1);
    assert_eq!(merged[0].manifest.name, "second");
}

#[test]
fn escape_on_output_panel_keeps_session_running() {
    let mut state = AppState::new(vec![skill("a", "Alpha", SkillSource::User)], Config::default());
    state.show_output_panel(output("x", ""));
    handle_event(InputEvent::Quit, &mut state);
    assert!(!state.is_output_panel_visible());
    assert!(state.active_output().is_none());
    assert!(!state.should_quit());
}

#[test]
fn typing_resets_selection_and_keeps_mode() {
    let skills: Vec<Skill> = (0..4).map(|i| skill(&format!("k{}", i), "Name", SkillSource::User)).collect();
    let mut state = AppState::new(skills, Config::default());
    state.move_selection_page_down(3);
    handle_event(InputEvent::CharInput('k'), &mut state);
    assert_eq!(state.selected_index(), 0);
    assert_eq!(state.scroll_offset(), 0);
    assert_eq!(state.view_mode(), &ViewMode::All);
    handle_event(InputEvent::EnterInsertMode, &mut state);
    assert!(state.is_insert_mode());
    assert_eq!(state.search_query(), "k");
}

#[test]
fn tilde_paths_expand_with_a_known_home() {
    assert_eq!(
        expand_tilde("~/.config/pane/skills", Some("/Users/testuser")),
        "/Users/testuser/.config/pane/skills"
    );
    assert_eq!(expand_tilde("~/.config/pane/skills", None), "~/.config/pane/skills");
    assert_eq!(expand_tilde("/usr/local/share/pane/skills", Some("/h")), "/usr/local/share/pane/skills");
    assert_eq!(expand_tilde("~x/y", Some("/h")), "~x/y");
}

#[test]
fn lowercase_ascii_queries_match_alike() {
    let skills = vec![skill("debug-tool", "Debug Tool", SkillSource::User), skill("other", "Other", SkillSource::User)];
    let mut a = filter_skills("DeBuG", &skills);
    let mut b = filter_skills("debug", &skills);
    a.sort();
    b.sort();
    assert_eq!(a, b);
    assert_eq!(a, vec![0]);
}

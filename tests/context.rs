use pane::context::{extract_project_name, SkillContext};
use pane::skills::ContextConfig;
use std::collections::HashMap;

#[test]
fn test_extract_project_name_from_path() {
    // Arrange
    let path = "/home/user/projects/myproject".to_string();

    // Act
    let result = extract_project_name(&path);

    // Assert
    assert_eq!(result, Some("myproject".to_string()));
}

#[test]
fn test_prepare_environment_all_fields_present() {
    // Arrange
    let context = SkillContext {
        skill_id: "test-skill".to_string(),
        skill_name: "Test Skill".to_string(),
        cwd: "/home/user/project".to_string(),
        git_root: Some("/home/user/project".to_string()),
        project_name: Some("project".to_string()),
        config_path: "/home/user/.config/pane/config.toml".to_string(),
        args: vec![],
    };
    let context_config = ContextConfig::default();

    // Act
    let env_vars: HashMap<String, String> =
        context.prepare_environment(&context_config).into_iter().collect();

    // Assert
    assert_eq!(env_vars.get("PANE_ID"), Some(&"test-skill".to_string()));
    assert_eq!(env_vars.get("PANE_NAME"), Some(&"Test Skill".to_string()));
    assert_eq!(
        env_vars.get("PANE_CWD"),
        Some(&"/home/user/project".to_string())
    );
    assert_eq!(
        env_vars.get("PANE_GIT_ROOT"),
        Some(&"/home/user/project".to_string())
    );
    assert_eq!(
        env_vars.get("PANE_PROJECT_NAME"),
        Some(&"project".to_string())
    );
    assert_eq!(
        env_vars.get("PANE_CONFIG_PATH"),
        Some(&"/home/user/.config/pane/config.toml".to_string())
    );
}

#[test]
fn test_prepare_environment_respects_context_config() {
    // Arrange
    let context = SkillContext {
        skill_id: "test-skill".to_string(),
        skill_name: "Test Skill".to_string(),
        cwd: "/home/user/project".to_string(),
        git_root: Some("/home/user/project".to_string()),
        project_name: Some("project".to_string()),
        config_path: "/home/user/.config/pane/config.toml".to_string(),
        args: vec![],
    };
    let context_config = ContextConfig {
        pass_cwd: false,
        pass_git_root: false,
        pass_project_name: false,
        pass_stdin_json: false,
    };

    // Act
    let env_vars: HashMap<String, String> =
        context.prepare_environment(&context_config).into_iter().collect();

    // Assert - Only ID, NAME, and CONFIG_PATH should be present
    assert!(env_vars.contains_key("PANE_ID"));
    assert!(env_vars.contains_key("PANE_NAME"));
    assert!(env_vars.contains_key("PANE_CONFIG_PATH"));
    assert!(!env_vars.contains_key("PANE_CWD"));
    assert!(!env_vars.contains_key("PANE_GIT_ROOT"));
    assert!(!env_vars.contains_key("PANE_PROJECT_NAME"));
}

#[test]
fn test_prepare_environment_omits_missing_optional_fields() {
    // Arrange
    let context = SkillContext {
        skill_id: "test-skill".to_string(),
        skill_name: "Test Skill".to_string(),
        cwd: "/home/user/project".to_string(),
        git_root: None,     // No git root
        project_name: None, // No project name
        config_path: "/home/user/.config/pane/config.toml".to_string(),
        args: vec![],
    };
    let context_config = ContextConfig::default();

    // Act
    let env_vars: HashMap<String, String> =
        context.prepare_environment(&context_config).into_iter().collect();

    // Assert
    assert!(env_vars.contains_key("PANE_ID"));
    assert!(env_vars.contains_key("PANE_NAME"));
    assert!(env_vars.contains_key("PANE_CWD"));
    assert!(!env_vars.contains_key("PANE_GIT_ROOT")); // Optional field not present
    assert!(!env_vars.contains_key("PANE_PROJECT_NAME")); // Optional field not present
}

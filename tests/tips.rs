use pane::tips::{validate_tips, Tip};

#[test]
fn test_validate_tips_empty_id_fails() {
    let tips = vec![Tip {
        id: "".to_string(),
        title: "Test".to_string(),
        category: None,
        text: "Content".to_string(),
        tags: vec![],
    }];

    let result = validate_tips(&tips);
    assert!(result.is_err());
    assert!(result
        .unwrap_err()
        .to_string()
        .contains("missing required field 'id'"));
}

#[test]
fn test_validate_tips_empty_title_fails() {
    let tips = vec![Tip {
        id: "cc-001".to_string(),
        title: "   ".to_string(),
        category: None,
        text: "Content".to_string(),
        tags: vec![],
    }];

    let result = validate_tips(&tips);
    assert!(result.is_err());
    assert!(result
        .unwrap_err()
        .to_string()
        .contains("missing required field 'title'"));
}

#[test]
fn test_validate_tips_empty_text_fails() {
    let tips = vec![Tip {
        id: "cc-001".to_string(),
        title: "Test".to_string(),
        category: None,
        text: "".to_string(),
        tags: vec![],
    }];

    let result = validate_tips(&tips);
    assert!(result.is_err());
    assert!(result
        .unwrap_err()
        .to_string()
        .contains("missing required field 'text'"));
}

#[test]
fn test_tip_creation_with_all_fields() {
    let tip = Tip {
        id: "cc-001".to_string(),
        title: "Test Tip".to_string(),
        category: Some("testing".to_string()),
        text: "This is a test tip.".to_string(),
        tags: vec!["test".to_string(), "example".to_string()],
    };

    assert_eq!(tip.id, "cc-001");
    assert_eq!(tip.title, "Test Tip");
    assert_eq!(tip.category, Some("testing".to_string()));
    assert_eq!(tip.text, "This is a test tip.");
    assert_eq!(tip.tags.len(), 2);
}

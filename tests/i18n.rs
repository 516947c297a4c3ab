use pane::i18n::{Language, Translations};

#[test]
fn test_language_from_code_en() {
    // Arrange & Act & Assert
    assert_eq!(Language::from_code("en"), Language::En);
    assert_eq!(Language::from_code("EN"), Language::En);
    assert_eq!(Language::from_code("english"), Language::En);
}

#[test]
fn test_language_from_code_ko() {
    // Arrange & Act & Assert
    assert_eq!(Language::from_code("ko"), Language::Ko);
    assert_eq!(Language::from_code("KO"), Language::Ko);
    assert_eq!(Language::from_code("kor"), Language::Ko);
    assert_eq!(Language::from_code("korean"), Language::Ko);
    assert_eq!(Language::from_code("한국어"), Language::Ko);
}

#[test]
fn test_language_from_code_fallback() {
    // Arrange & Act & Assert - Unknown codes fallback to English
    assert_eq!(Language::from_code("fr"), Language::En);
    assert_eq!(Language::from_code("de"), Language::En);
    assert_eq!(Language::from_code("ja"), Language::En);
    assert_eq!(Language::from_code(""), Language::En);
    assert_eq!(Language::from_code("invalid"), Language::En);
}

#[test]
fn test_language_code() {
    // Arrange & Act & Assert
    assert_eq!(Language::En.code(), "en");
    assert_eq!(Language::Ko.code(), "ko");
}

#[test]
fn test_language_default() {
    // Arrange & Act
    let default_lang = Language::default();

    // Assert
    assert_eq!(default_lang, Language::En);
}

#[test]
fn test_translations_load_english() {
    // Arrange & Act
    let translations = Translations::load(Language::En);

    // Assert
    assert_eq!(translations.app_title, "Pane");
    assert_eq!(translations.search_placeholder, "Type to search...");
    assert_eq!(translations.footer_insert_mode, "-- INSERT --");
    assert_eq!(translations.footer_view_all, "All");
    assert_eq!(translations.empty_skills_message, "No skills available");
}

#[test]
fn test_translations_load_korean() {
    // Arrange & Act
    let translations = Translations::load(Language::Ko);

    // Assert
    assert_eq!(translations.app_title, "페인");
    assert_eq!(translations.search_placeholder, "검색어를 입력하세요...");
    assert_eq!(translations.footer_insert_mode, "-- 입력 --");
    assert_eq!(translations.footer_view_all, "전체");
    assert_eq!(
        translations.empty_skills_message,
        "사용 가능한 스킬이 없습니다"
    );
}

#[test]
fn test_translations_all_keys_present_english() {
    // Arrange
    let t = Translations::load(Language::En);

    // Assert - all strings are non-empty
    assert!(!t.app_title.is_empty());
    assert!(!t.search_placeholder.is_empty());
    assert!(!t.footer_normal_hints.is_empty());
    assert!(!t.footer_insert_hints.is_empty());
    assert!(!t.footer_insert_mode.is_empty());
    assert!(!t.footer_view_all.is_empty());
    assert!(!t.footer_view_favorites.is_empty());
    assert!(!t.footer_view_recent.is_empty());
    assert!(!t.empty_skills_message.is_empty());
    assert!(!t.detail_pane_title.is_empty());
    assert!(!t.output_panel_title.is_empty());
}

#[test]
fn test_translations_all_keys_present_korean() {
    // Arrange
    let t = Translations::load(Language::Ko);

    // Assert - all strings are non-empty
    assert!(!t.app_title.is_empty());
    assert!(!t.search_placeholder.is_empty());
    assert!(!t.footer_normal_hints.is_empty());
    assert!(!t.footer_insert_hints.is_empty());
    assert!(!t.footer_insert_mode.is_empty());
    assert!(!t.footer_view_all.is_empty());
    assert!(!t.footer_view_favorites.is_empty());
    assert!(!t.footer_view_recent.is_empty());
    assert!(!t.empty_skills_message.is_empty());
    assert!(!t.detail_pane_title.is_empty());
    assert!(!t.output_panel_title.is_empty());
}

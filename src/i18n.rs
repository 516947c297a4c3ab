//! Languages of the interface and their string tables.

use crate::text::{lowercase_of, lowercase_text, same_text, trim_text, trimmed_of};
use vstd::prelude::*;

verus! {

/// Language of the interface.
#[derive(Debug, Clone, Copy, PartialEq, Eq, Structural, Default)]
pub enum Language {
    #[default]
    En,
    Ko,
}

/// The language a normalised (trimmed, lowercase) code selects: Korean for
/// `ko`, `kor`, `korean` and `한국어`, English for anything else.
pub open spec fn language_of(code: Seq<char>) -> Language {
    if code == "ko"@ || code == "kor"@ || code == "korean"@ || code == "한국어"@ {
        Language::Ko
    } else {
        Language::En
    }
}

impl Language {
    /// The language for a code, ignoring case and surrounding white space;
    /// English for an unknown code.
    pub fn from_code(code: &str) -> (r: Language)
        ensures
            r == language_of(lowercase_of(trimmed_of(code@))),
    {
        let lowered = lowercase_text(trim_text(code));
        let c = lowered.as_str();
        if same_text(c, "ko") || same_text(c, "kor") || same_text(c, "korean") || same_text(
            c,
            "한국어",
        ) {
            Language::Ko
        } else {
            Language::En
        }
    }

    /// The language's two-letter code.
    pub fn code(&self) -> (r: &'static str)
        ensures
            r@ == match self {
                Language::En => "en"@,
                Language::Ko => "ko"@,
            },
    {
        match self {
            Language::En => "en",
            Language::Ko => "ko",
        }
    }
}

/// Every string the interface shows.
#[derive(Debug, Clone)]
pub struct Translations {
    pub app_title: &'static str,
    pub search_placeholder: &'static str,
    pub footer_normal_hints: &'static str,
    pub footer_insert_hints: &'static str,
    pub footer_insert_mode: &'static str,
    pub footer_view_all: &'static str,
    pub footer_view_favorites: &'static str,
    pub footer_view_recent: &'static str,
    pub empty_skills_message: &'static str,
    pub detail_pane_title: &'static str,
    pub detail_description_label: &'static str,
    pub detail_tags_label: &'static str,
    pub detail_estimated_time_label: &'static str,
    pub detail_version_label: &'static str,
    pub detail_source_label: &'static str,
    pub output_panel_title: &'static str,
    pub output_panel_stdout_label: &'static str,
    pub output_panel_stderr_label: &'static str,
    pub output_panel_exit_code_label: &'static str,
    pub output_panel_execution_time_label: &'static str,
    pub output_panel_close_hint: &'static str,
}

/// The English table.
pub open spec fn is_english(t: Translations) -> bool {
    &&& t.app_title@ == "Pane"@
    &&& t.search_placeholder@ == "Type to search..."@
    &&& t.footer_normal_hints@ == "j/k Move | / Search | Enter Run | Esc Quit"@
    &&& t.footer_insert_hints@ == "Type to search | Esc Normal mode"@
    &&& t.footer_insert_mode@ == "-- INSERT --"@
    &&& t.footer_view_all@ == "All"@
    &&& t.footer_view_favorites@ == "Favorites"@
    &&& t.footer_view_recent@ == "Recent"@
    &&& t.empty_skills_message@ == "No skills available"@
    &&& t.detail_pane_title@ == "Details"@
    &&& t.detail_description_label@ == "Description:"@
    &&& t.detail_tags_label@ == "Tags:"@
    &&& t.detail_estimated_time_label@ == "Estimated Time:"@
    &&& t.detail_version_label@ == "Version:"@
    &&& t.detail_source_label@ == "Source:"@
    &&& t.output_panel_title@ == "Output"@
    &&& t.output_panel_stdout_label@ == "Standard Output:"@
    &&& t.output_panel_stderr_label@ == "Standard Error:"@
    &&& t.output_panel_exit_code_label@ == "Exit Code:"@
    &&& t.output_panel_execution_time_label@ == "Execution Time:"@
    &&& t.output_panel_close_hint@ == "Press Esc to close"@
}

/// The Korean table.
pub open spec fn is_korean(t: Translations) -> bool {
    &&& t.app_title@ == "페인"@
    &&& t.search_placeholder@ == "검색어를 입력하세요..."@
    &&& t.footer_normal_hints@ == "j/k 이동 | / 검색 | Enter 실행 | Esc 종료"@
    &&& t.footer_insert_hints@ == "검색어 입력 | Esc 일반 모드"@
    &&& t.footer_insert_mode@ == "-- 입력 --"@
    &&& t.footer_view_all@ == "전체"@
    &&& t.footer_view_favorites@ == "즐겨찾기"@
    &&& t.footer_view_recent@ == "최근"@
    &&& t.empty_skills_message@ == "사용 가능한 스킬이 없습니다"@
    &&& t.detail_pane_title@ == "상세 정보"@
    &&& t.detail_description_label@ == "설명:"@
    &&& t.detail_tags_label@ == "태그:"@
    &&& t.detail_estimated_time_label@ == "예상 시간:"@
    &&& t.detail_version_label@ == "버전:"@
    &&& t.detail_source_label@ == "소스:"@
    &&& t.output_panel_title@ == "출력"@
    &&& t.output_panel_stdout_label@ == "표준 출력:"@
    &&& t.output_panel_stderr_label@ == "표준 에러:"@
    &&& t.output_panel_exit_code_label@ == "종료 코드:"@
    &&& t.output_panel_execution_time_label@ == "실행 시간:"@
    &&& t.output_panel_close_hint@ == "Esc를 눌러 닫기"@
}

impl Translations {
    /// The table of `language`.
    pub fn load(language: Language) -> (r: Translations)
        ensures
            language == Language::En ==> is_english(r),
            language == Language::Ko ==> is_korean(r),
    {
        match language {
            Language::En => Self::english(),
            Language::Ko => Self::korean(),
        }
    }

    fn english() -> (r: Translations)
        ensures
            is_english(r),
    {
        Translations {
            app_title: "Pane",
            search_placeholder: "Type to search...",
            footer_normal_hints: "j/k Move | / Search | Enter Run | Esc Quit",
            footer_insert_hints: "Type to search | Esc Normal mode",
            footer_insert_mode: "-- INSERT --",
            footer_view_all: "All",
            footer_view_favorites: "Favorites",
            footer_view_recent: "Recent",
            empty_skills_message: "No skills available",
            detail_pane_title: "Details",
            detail_description_label: "Description:",
            detail_tags_label: "Tags:",
            detail_estimated_time_label: "Estimated Time:",
            detail_version_label: "Version:",
            detail_source_label: "Source:",
            output_panel_title: "Output",
            output_panel_stdout_label: "Standard Output:",
            output_panel_stderr_label: "Standard Error:",
            output_panel_exit_code_label: "Exit Code:",
            output_panel_execution_time_label: "Execution Time:",
            output_panel_close_hint: "Press Esc to close",
        }
    }

    fn korean() -> (r: Translations)
        ensures
            is_korean(r),
    {
        Translations {
            app_title: "페인",
            search_placeholder: "검색어를 입력하세요...",
            footer_normal_hints: "j/k 이동 | / 검색 | Enter 실행 | Esc 종료",
            footer_insert_hints: "검색어 입력 | Esc 일반 모드",
            footer_insert_mode: "-- 입력 --",
            footer_view_all: "전체",
            footer_view_favorites: "즐겨찾기",
            footer_view_recent: "최근",
            empty_skills_message: "사용 가능한 스킬이 없습니다",
            detail_pane_title: "상세 정보",
            detail_description_label: "설명:",
            detail_tags_label: "태그:",
            detail_estimated_time_label: "예상 시간:",
            detail_version_label: "버전:",
            detail_source_label: "소스:",
            output_panel_title: "출력",
            output_panel_stdout_label: "표준 출력:",
            output_panel_stderr_label: "표준 에러:",
            output_panel_exit_code_label: "종료 코드:",
            output_panel_execution_time_label: "실행 시간:",
            output_panel_close_hint: "Esc를 눌러 닫기",
        }
    }

}

} // verus!

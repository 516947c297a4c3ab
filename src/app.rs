//! How the session reacts to each input event. Running a skill is the
//! caller's work: the handler only says when it is asked for.

use crate::input::InputEvent;
use crate::state::{output_scroll_limit, AppState, InputMode, ViewMode};
use vstd::prelude::*;

verus! {

/// Rows a page key moves the selection by.
pub const DEFAULT_PAGE_SIZE: usize = 10;

/// What the caller has to do after an event.
#[derive(Debug, Clone, Copy, PartialEq, Eq, Structural)]
pub enum Effect {
    Nothing,
    /// Execute the selected skill.
    RunSelected,
}

/// The view mode after `m` in the cycle All, Favorites, Recent.
pub open spec fn next_mode(m: ViewMode) -> ViewMode {
    match m {
        ViewMode::All => ViewMode::Favorites,
        ViewMode::Favorites => ViewMode::Recent,
        ViewMode::Recent => ViewMode::All,
    }
}

/// While the output panel is shown, navigation scrolls it and Esc hides it;
/// otherwise events navigate the list, edit the search, switch modes, or
/// (Enter on a selection) ask the caller to run the selected skill. Esc
/// clears a non-empty search before it quits.
pub fn handle_event(event: InputEvent, state: &mut AppState) -> (r: Effect)
    requires
        old(state).wf(),
    ensures
        final(state).wf(),
        r == Effect::RunSelected <==> (!old(state).panel_visible() && event == InputEvent::Enter
            && old(state).view().len() > 0),
        old(state).panel_visible() ==> match event {
            InputEvent::Quit => final(state).output() is None && !final(state).panel_visible()
                && final(state).same_list_state(old(state)) && final(state).quitting() == old(state).quitting() && final(state).executing() == old(state).executing() && final(state).status() == old(state).status(),
            InputEvent::MoveUp | InputEvent::CharInput('k') => final(state).output_scroll() == (
            if old(state).output_scroll() > 0 {
                (old(state).output_scroll() - 1) as nat
            } else {
                0
            }) && final(state).panel_visible() && final(state).same_list_state(old(state))
                && final(state).quitting() == old(state).quitting() && final(state).executing()
                == old(state).executing() && final(state).status() == old(state).status()
                && final(state).output() == old(state).output(),
            InputEvent::MoveDown | InputEvent::CharInput('j') => final(state).output_scroll() == (
            if old(state).output_scroll() < output_scroll_limit(old(state).output())
                && old(state).output_scroll() < usize::MAX {
                old(state).output_scroll() + 1
            } else {
                old(state).output_scroll()
            }) && final(state).panel_visible() && final(state).same_list_state(old(state))
                && final(state).quitting() == old(state).quitting() && final(state).executing()
                == old(state).executing() && final(state).status() == old(state).status()
                && final(state).output() == old(state).output(),
            _ => *final(state) == *old(state),
        },
        !old(state).panel_visible() ==> match event {
            InputEvent::Quit => if old(state).query().len() > 0 {
                &&& final(state).query().len() == 0
                &&& final(state).shows_filter()
                &&& final(state).selected() == 0
                &&& final(state).scroll() == 0
                &&& final(state).same_data(old(state))
                &&& final(state).mode() == old(state).mode()
                &&& final(state).input() == old(state).input()
                &&& final(state).same_output_state(old(state))
            } else {
                &&& final(state).quitting()
                &&& final(state).same_list_state(old(state))
                &&& final(state).executing() == old(state).executing()
                &&& final(state).status() == old(state).status()
                &&& final(state).output() == old(state).output()
                &&& final(state).panel_visible() == old(state).panel_visible()
                &&& final(state).output_scroll() == old(state).output_scroll()
            },
            InputEvent::MoveUp => final(state).view() == old(state).view() && final(state).same_but_view(old(state)) && (old(state).view().len() > 0 ==> final(state).selected() == if old(state).selected() == 0 {
                old(state).view().len() - 1
            } else {
                old(state).selected() - 1
            }) && (old(state).view().len() == 0 ==> *final(state) == *old(state)),
            InputEvent::MoveDown => final(state).view() == old(state).view() && final(state).same_but_view(old(state)) && (old(state).view().len() > 0 ==> final(state).selected() == (old(state).selected() + 1) % old(state).view().len()) && (old(state).view().len() == 0 ==> *final(state) == *old(state)),
            InputEvent::CharInput(c) => {
                &&& final(state).query() == old(state).query().push(c)
                &&& final(state).shows_filter()
                &&& final(state).selected() == 0
                &&& final(state).scroll() == 0
                &&& final(state).same_data(old(state))
                &&& final(state).mode() == old(state).mode()
                &&& final(state).input() == old(state).input()
                &&& final(state).same_output_state(old(state))
            },
            InputEvent::Backspace => if old(state).query().len() > 0 {
                &&& final(state).query() == old(state).query().drop_last()
                &&& final(state).shows_filter()
                &&& final(state).selected() == 0
                &&& final(state).scroll() == 0
                &&& final(state).same_data(old(state))
                &&& final(state).mode() == old(state).mode()
                &&& final(state).input() == old(state).input()
                &&& final(state).same_output_state(old(state))
            } else {
                *final(state) == *old(state)
            },
            InputEvent::PageDown => final(state).view() == old(state).view() && final(state).same_but_view(old(state)) && (old(state).view().len() > 0 ==> final(state).selected() == if old(state).selected() + DEFAULT_PAGE_SIZE < old(state).view().len() {
                old(state).selected() + DEFAULT_PAGE_SIZE
            } else {
                old(state).view().len() - 1
            }) && (old(state).view().len() == 0 ==> *final(state) == *old(state)),
            InputEvent::PageUp => final(state).view() == old(state).view() && final(state).same_but_view(old(state)) && (old(state).view().len() > 0 ==> final(state).selected() == if old(state).selected() >= DEFAULT_PAGE_SIZE {
                old(state).selected() - DEFAULT_PAGE_SIZE
            } else {
                0
            }) && (old(state).view().len() == 0 ==> *final(state) == *old(state)),
            InputEvent::Tab => {
                &&& final(state).mode() == next_mode(old(state).mode())
                &&& final(state).shows_filter()
                &&& final(state).selected() == 0
                &&& final(state).scroll() == 0
                &&& final(state).same_data(old(state))
                &&& final(state).query() == old(state).query()
                &&& final(state).input() == old(state).input()
                &&& final(state).same_output_state(old(state))
            },
            InputEvent::EnterInsertMode => final(state).input() == InputMode::Insert && final(state).same_data(old(state)) && final(state).view() == old(state).view() && final(state).selected() == old(state).selected() && final(state).scroll() == old(state).scroll() && final(state).query() == old(state).query() && final(state).mode() == old(state).mode() && final(state).same_output_state(old(state)),
            InputEvent::EnterNormalMode => final(state).input() == InputMode::Normal && final(state).same_data(old(state)) && final(state).view() == old(state).view() && final(state).selected() == old(state).selected() && final(state).scroll() == old(state).scroll() && final(state).query() == old(state).query() && final(state).mode() == old(state).mode() && final(state).same_output_state(old(state)),
            _ => *final(state) == *old(state),
        },
{
    if state.is_output_panel_visible() {
        match event {
            InputEvent::Quit => state.hide_output_panel(),
            InputEvent::MoveUp | InputEvent::CharInput('k') => state.scroll_output_up(),
            InputEvent::MoveDown | InputEvent::CharInput('j') => state.scroll_output_down(),
            _ => {},
        }
        return Effect::Nothing;
    }
    match event {
        InputEvent::Quit => {
            if !state.search_query().is_empty() {
                state.set_search_query(String::new());
            } else {
                state.quit();
            }
        },
        InputEvent::MoveUp => state.move_selection_up(),
        InputEvent::MoveDown => state.move_selection_down(),
        InputEvent::CharInput(c) => state.append_to_search(c),
        InputEvent::Backspace => state.remove_from_search(),
        InputEvent::PageDown => state.move_selection_page_down(DEFAULT_PAGE_SIZE),
        InputEvent::PageUp => state.move_selection_page_up(DEFAULT_PAGE_SIZE),
        InputEvent::Enter => {
            if state.filtered_count() > 0 {
                return Effect::RunSelected;
            }
        },
        InputEvent::Tab => state.cycle_view_mode(),
        InputEvent::EnterInsertMode => state.enter_insert_mode(),
        InputEvent::EnterNormalMode => state.enter_normal_mode(),
        InputEvent::ToggleFavorite => {},
        InputEvent::ShowHelp => {},
    }
    Effect::Nothing
}

} // verus!

//! The handler of user-interface messages: pages, theme, search, toasts,
//! the console and the window modes.

use crate::app_state::{
    AppState, DataState, Effect, HandlerResult, MessageCategory, NotificationMessage, UiMessage, UiState,
    UiTheme,
};
use crate::gui_model::DomainModal;
use crate::text::owned;
use vstd::prelude::*;

verus! {

/// The theme the toggle switches to from `t`.
pub open spec fn toggled_theme(t: UiTheme) -> UiTheme {
    if t == UiTheme::TokyoNightLight {
        UiTheme::SolarizedDark
    } else {
        UiTheme::TokyoNightLight
    }
}

/// A sample domain: the given id and name, account 1, active, created and
/// updated at `now`.
pub open spec fn sample_domain(d: DomainModal, id: i64, name: Seq<char>, now: i64) -> bool {
    &&& d.id == id
    &&& d.name@ == name
    &&& d.provider_id == 1
    &&& d.status@ == "active"@
    &&& d.created_at == now
    &&& d.updated_at == Some(now)
}

/// How a user-interface message changes the state and what it asks for.
pub open spec fn ui_outcome(old: AppState, new: AppState, message: UiMessage, r: HandlerResult) -> bool {
    let u = old.ui;
    match message {
        UiMessage::ChangePage(p) => r is StateUpdated && new == (AppState {
            ui: UiState { last_page: Some(u.current_page), current_page: p, ..u },
            ..old
        }),
        UiMessage::ToggleTheme => r is StateUpdated && new == (AppState {
            ui: UiState { theme: toggled_theme(u.theme), ..u },
            ..old
        }),
        UiMessage::SearchContentChanged(s) => r is StateUpdated && new == (AppState {
            ui: UiState { search_query: s, ..u },
            ..old
        }),
        UiMessage::Reset => {
            &&& r is StateUpdated
            &&& new == (AppState {
                ui: UiState {
                    search_query: new.ui.search_query,
                    selected_domain: None,
                    selected_provider: None,
                    error: None,
                    ..u
                },
                ..old
            })
            &&& new.ui.search_query@.len() == 0
        },
        UiMessage::Mock => new == (AppState { ui: UiState { is_loading: true, ..u }, ..old })
            && r matches HandlerResult::StateUpdatedWithTask(Effect::MockDomains),
        UiMessage::MockDataGenerated(domains) => r is StateUpdated && new == (AppState {
            ui: UiState { is_loading: false, ..u },
            data: DataState { domain_list: domains, ..old.data },
            ..old
        }),
        UiMessage::ShowToast(m) => {
            &&& new == (AppState { ui: UiState { toast_message: Some(m), toast_visible: true, ..u }, ..old })
            &&& r matches HandlerResult::StateUpdatedWithTask(
                Effect::EmitAfter { seconds, message: MessageCategory::Notification(NotificationMessage::HideToast) },
            ) && seconds == 3
        },
        UiMessage::HideToast => r is StateUpdated && new == (AppState {
            ui: UiState { toast_message: None, toast_visible: false, ..u },
            ..old
        }),
        UiMessage::ToggleFloatingWindow => r is StateUpdated && new == (AppState {
            ui: UiState { floating_window_enabled: !u.floating_window_enabled, ..u },
            ..old
        }),
        UiMessage::ToggleThumbnail => r is StateUpdated && new == (AppState {
            ui: UiState { thumbnail_mode: !u.thumbnail_mode, ..u },
            ..old
        }),
        UiMessage::ToggleConsole => r is StateUpdated && new == (AppState {
            ui: UiState { console_visible: !u.console_visible, ..u },
            ..old
        }),
        UiMessage::ConsoleTabChanged(_) => r is StateUpdated && new == (AppState {
            ui: UiState { console_visible: !u.console_visible, ..u },
            ..old
        }),
        UiMessage::ClearConsoleLog => {
            &&& r is StateUpdated
            &&& new == (AppState { ui: UiState { console: new.ui.console, ..u }, ..old })
            &&& new.ui.console.api_logs@.len() == 0
            &&& new.ui.console.db_logs@.len() == 0
            &&& new.ui.console.max_logs == u.console.max_logs
            &&& new.ui.console.current_tab == u.console.current_tab
        },
    }
}

/// Handles user-interface messages.
#[derive(Debug, Default)]
pub struct UiHandler;

impl UiHandler {
    /// A handler.
    pub fn new() -> (r: UiHandler)
        ensures
            r == (UiHandler),
    {
        UiHandler
    }

    /// The sample domains the mock data consists of: `example.com` and
    /// `test.org`, both created at `now`.
    pub fn mock_domains(now: i64) -> (r: Vec<DomainModal>)
        ensures
            r@.len() == 2,
            sample_domain(r@[0], 1, "example.com"@, now),
            sample_domain(r@[1], 2, "test.org"@, now),
    {
        let mut r: Vec<DomainModal> = Vec::new();
        r.push(DomainModal {
            id: 1,
            name: owned("example.com"),
            provider_id: 1,
            status: owned("active"),
            created_at: now,
            updated_at: Some(now),
        });
        r.push(DomainModal {
            id: 2,
            name: owned("test.org"),
            provider_id: 1,
            status: owned("active"),
            created_at: now,
            updated_at: Some(now),
        });
        r
    }

    fn handle_navigation(&self, state: &mut AppState, message: UiMessage) -> (r: HandlerResult)
        requires
            message is ChangePage || message is ToggleTheme || message is SearchContentChanged || message is Reset,
        ensures
            ui_outcome(*old(state), *final(state), message, r),
    {
        match message {
            UiMessage::ChangePage(page) => {
                let current = state.ui.current_page.duplicate();
                state.ui.last_page = Some(current);
                state.ui.current_page = page;
            },
            UiMessage::ToggleTheme => {
                state.ui.theme = match state.ui.theme {
                    UiTheme::TokyoNightLight => UiTheme::SolarizedDark,
                    _ => UiTheme::TokyoNightLight,
                };
            },
            UiMessage::SearchContentChanged(search_content) => {
                state.ui.search_query = search_content;
            },
            _ => {
                state.ui.search_query = String::new();
                state.ui.selected_domain = None;
                state.ui.selected_provider = None;
                state.ui.error = None;
            },
        }
        HandlerResult::StateUpdated
    }

    fn handle_toggles(&self, state: &mut AppState, message: UiMessage) -> (r: HandlerResult)
        requires
            message is ToggleFloatingWindow || message is ToggleThumbnail || message is ToggleConsole
                || message is ClearConsoleLog || message is ConsoleTabChanged || message is HideToast,
        ensures
            ui_outcome(*old(state), *final(state), message, r),
    {
        match message {
            UiMessage::ToggleFloatingWindow => {
                state.ui.floating_window_enabled = !state.ui.floating_window_enabled;
            },
            UiMessage::ToggleThumbnail => {
                state.ui.thumbnail_mode = !state.ui.thumbnail_mode;
            },
            UiMessage::ClearConsoleLog => {
                state.ui.console.clear_logs();
            },
            UiMessage::HideToast => {
                state.ui.toast_visible = false;
                state.ui.toast_message = None;
            },
            _ => {
                state.ui.console_visible = !state.ui.console_visible;
            },
        }
        HandlerResult::StateUpdated
    }

    /// Handles one user-interface message, as `ui_outcome` says.
    #[verifier::rlimit(30)]
    pub fn handle(&self, state: &mut AppState, message: UiMessage) -> (r: HandlerResult)
        ensures
            ui_outcome(*old(state), *final(state), message, r),
    {
        match message {
            UiMessage::ChangePage(_) | UiMessage::ToggleTheme | UiMessage::SearchContentChanged(_)
            | UiMessage::Reset => self.handle_navigation(state, message),
            UiMessage::ToggleFloatingWindow | UiMessage::ToggleThumbnail | UiMessage::ToggleConsole
            | UiMessage::ClearConsoleLog | UiMessage::ConsoleTabChanged(_) | UiMessage::HideToast => self.handle_toggles(
                state,
                message,
            ),
            UiMessage::Mock => {
                state.ui.is_loading = true;
                HandlerResult::StateUpdatedWithTask(Effect::MockDomains)
            },
            UiMessage::MockDataGenerated(domains) => {
                state.data.domain_list = domains;
                state.ui.is_loading = false;
                HandlerResult::StateUpdated
            },
            UiMessage::ShowToast(message) => {
                state.ui.toast_message = Some(message);
                state.ui.toast_visible = true;
                HandlerResult::StateUpdatedWithTask(
                    Effect::EmitAfter {
                        seconds: 3,
                        message: MessageCategory::Notification(NotificationMessage::HideToast),
                    },
                )
            },
        }
    }
}

} // verus!

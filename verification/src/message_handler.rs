//! Dispatching messages to the handler of their subject, and the
//! application lifecycle messages.

use crate::app_state::{
    locale_for, locale_of, AppMessage, AppState, ConfigMessage, Effect, HandlerResult, MessageCategory,
    NavigationMessage, SyncMessage, UiState, UiTheme, WindowFlags, WindowMessage,
};
use crate::gui_model::Page;
use crate::text::owned;
use crate::ui_handler::toggled_theme;
use crate::datastore_handler::{datastore_outcome, DataStoreHandler};
use crate::dns_handler::{dns_message_ok, dns_outcome, DnsHandler};
use crate::domain_handler::{domain_outcome, DomainHandler};
use crate::provider_handler::{provider_message_ok, provider_outcome, ProviderHandler};
use crate::sync_handler::{sync_outcome, SyncHandler};
use crate::ui_handler::{ui_outcome, UiHandler};
use vstd::prelude::*;

verus! {

/// How a lifecycle message changes the state and what it asks for: start
/// announces itself again, initialisation starts loading and asks for a
/// reload, shutdown asks for nothing.
pub open spec fn app_outcome(old: AppState, new: AppState, message: AppMessage, r: HandlerResult) -> bool {
    match message {
        AppMessage::Started => new == old && r matches HandlerResult::Task(
            Effect::Emit(MessageCategory::App(AppMessage::Started)),
        ),
        AppMessage::Initialize => new == (AppState { ui: UiState { is_loading: true, ..old.ui }, ..old })
            && r matches HandlerResult::Task(Effect::Emit(MessageCategory::Sync(SyncMessage::Reload))),
        AppMessage::Shutdown => new == old && r matches HandlerResult::Task(Effect::NoTask),
    }
}

/// The state after moving to page `p`: the page left becomes the last page.
pub open spec fn navigated(old: AppState, p: Page) -> AppState {
    AppState { ui: UiState { last_page: Some(old.ui.current_page), current_page: p, ..old.ui }, ..old }
}

/// How a navigation message changes the state and what it asks for: pages
/// are changed, the help is shown or hidden, going back returns to the last
/// page (the domain page when there is none), and a web page is opened by
/// the application.
pub open spec fn navigation_outcome(old: AppState, new: AppState, message: NavigationMessage, r: HandlerResult) -> bool {
    match message {
        NavigationMessage::PageChanged(p) => new == navigated(old, p) && r matches HandlerResult::Task(Effect::NoTask),
        NavigationMessage::ToHelp | NavigationMessage::OpenHelp => new == (AppState {
            ui: UiState { show_help: true, ..old.ui },
            ..old
        }) && r matches HandlerResult::Task(Effect::NoTask),
        NavigationMessage::CloseHelp => new == (AppState { ui: UiState { show_help: false, ..old.ui }, ..old })
            && r matches HandlerResult::Task(Effect::NoTask),
        NavigationMessage::Back => new == navigated(
            old,
            match old.ui.last_page {
                Some(p) => p,
                None => Page::DomainPage,
            },
        ) && r matches HandlerResult::Task(Effect::NoTask),
        NavigationMessage::OpenWebPage(url) => new == old && (r matches HandlerResult::Task(
            Effect::OpenWebPage { url: u },
        ) && u == url),
        _ => new == old && r matches HandlerResult::Task(Effect::NoTask),
    }
}

/// How a configuration message changes the state and what it asks for.
pub open spec fn config_outcome(old: AppState, new: AppState, message: ConfigMessage, r: HandlerResult) -> bool {
    match message {
        ConfigMessage::ChangeLocale(l) => new == (AppState { ui: UiState { locale: locale_of(l), ..old.ui }, ..old })
            && r matches HandlerResult::Task(Effect::NoTask),
        ConfigMessage::ToggleTheme => new == (AppState {
            ui: UiState { theme: toggled_theme(old.ui.theme), ..old.ui },
            ..old
        }) && r matches HandlerResult::Task(Effect::NoTask),
        ConfigMessage::Save => new == old && r matches HandlerResult::Task(Effect::SaveConfig),
    }
}

/// How a window message changes the state: minimising records the message
/// `窗口最小化` and the minimised window; the others change nothing.
pub open spec fn window_outcome(old: AppState, new: AppState, message: WindowMessage, r: HandlerResult) -> bool {
    &&& r is StateUpdated
    &&& if message == WindowMessage::WindowMinimize {
        new == (AppState {
            ui: UiState {
                message: new.ui.message,
                window: WindowFlags { minimized: true, ..old.ui.window },
                ..old.ui
            },
            ..old
        }) && new.ui.message@ == "窗口最小化"@
    } else {
        new == old
    }
}

/// Going back right after changing the page returns to the page that was
/// shown before, and remembers the page just left.
pub proof fn lemma_back_after_page_change(
    s0: AppState,
    s1: AppState,
    s2: AppState,
    p: Page,
    r1: HandlerResult,
    r2: HandlerResult,
)
    requires
        navigation_outcome(s0, s1, NavigationMessage::PageChanged(p), r1),
        navigation_outcome(s1, s2, NavigationMessage::Back, r2),
    ensures
        s2.ui.current_page == s0.ui.current_page,
        s2.ui.last_page == Some(p),
        s2.data == s0.data,
{
}

/// A message the handlers can carry out.
pub open spec fn message_ok(message: MessageCategory) -> bool {
    match message {
        MessageCategory::Domain(m) => !(m is QueryDomainResult),
        MessageCategory::Dns(m) => dns_message_ok(m),
        MessageCategory::Sync(m) => !(m is DomainSyncComplete),
        MessageCategory::Provider(m) => provider_message_ok(m),
        _ => true,
    }
}

/// How a message changes the state: as the handler of its subject says.
pub open spec fn message_outcome(old: AppState, new: AppState, message: MessageCategory, now: i64, r: HandlerResult) -> bool {
    match message {
        MessageCategory::App(m) => app_outcome(old, new, m, r),
        MessageCategory::Navigation(m) => navigation_outcome(old, new, m, r),
        MessageCategory::Config(m) => config_outcome(old, new, m, r),
        MessageCategory::Window(m) => window_outcome(old, new, m, r),
        MessageCategory::Domain(m) => domain_outcome(old, new, m, now, r),
        MessageCategory::Dns(m) => dns_outcome(old, new, m, now, r),
        MessageCategory::Sync(m) => sync_outcome(old, new, m, r),
        MessageCategory::Provider(m) => provider_outcome(old, new, m, r),
        MessageCategory::Ui(m) => ui_outcome(old, new, m, r),
        MessageCategory::Database(m) => datastore_outcome(old, new, m, r),
        _ => new == old && r matches HandlerResult::Task(Effect::NoTask),
    }
}

/// Sends each message to the handler of its subject.
#[derive(Debug)]
pub struct MessageHandler {
    pub domain_handler: DomainHandler,
    pub dns_handler: DnsHandler,
    pub sync_handler: SyncHandler,
    pub provider_handler: ProviderHandler,
    pub ui_handler: UiHandler,
    pub database_handler: DataStoreHandler,
}

impl MessageHandler {
    /// A dispatcher with one handler per subject.
    pub fn new() -> (r: MessageHandler)
        ensures
            r.domain_handler == (DomainHandler {}),
            r.dns_handler == (DnsHandler {}),
            r.sync_handler == (SyncHandler {}),
            r.provider_handler == (ProviderHandler {}),
            r.ui_handler == UiHandler,
            r.database_handler == DataStoreHandler,
    {
        MessageHandler {
            domain_handler: DomainHandler::new(),
            dns_handler: DnsHandler::new(),
            sync_handler: SyncHandler::new(),
            provider_handler: ProviderHandler::new(),
            ui_handler: UiHandler::new(),
            database_handler: DataStoreHandler::new(),
        }
    }

    fn handle_app(&self, state: &mut AppState, message: AppMessage) -> (r: HandlerResult)
        ensures
            app_outcome(*old(state), *final(state), message, r),
    {
        match message {
            AppMessage::Started => HandlerResult::Task(Effect::Emit(MessageCategory::App(AppMessage::Started))),
            AppMessage::Initialize => {
                state.ui.is_loading = true;
                HandlerResult::Task(Effect::Emit(MessageCategory::Sync(SyncMessage::Reload)))
            },
            AppMessage::Shutdown => HandlerResult::Task(Effect::NoTask),
        }
    }

    fn handle_navigation(&self, state: &mut AppState, message: NavigationMessage) -> (r: HandlerResult)
        ensures
            navigation_outcome(*old(state), *final(state), message, r),
    {
        match message {
            NavigationMessage::PageChanged(p) => {
                let current = state.ui.current_page.duplicate();
                state.ui.last_page = Some(current);
                state.ui.current_page = p;
                HandlerResult::Task(Effect::NoTask)
            },
            NavigationMessage::ToHelp | NavigationMessage::OpenHelp => {
                state.ui.show_help = true;
                HandlerResult::Task(Effect::NoTask)
            },
            NavigationMessage::CloseHelp => {
                state.ui.show_help = false;
                HandlerResult::Task(Effect::NoTask)
            },
            NavigationMessage::Back => {
                let target = match &state.ui.last_page {
                    Some(p) => p.duplicate(),
                    None => Page::DomainPage,
                };
                let current = state.ui.current_page.duplicate();
                state.ui.last_page = Some(current);
                state.ui.current_page = target;
                HandlerResult::Task(Effect::NoTask)
            },
            NavigationMessage::OpenWebPage(url) => HandlerResult::Task(Effect::OpenWebPage { url }),
            NavigationMessage::ChangeConsoleTab(_) | NavigationMessage::HideModal => HandlerResult::Task(
                Effect::NoTask,
            ),
        }
    }

    fn handle_config(&self, state: &mut AppState, message: ConfigMessage) -> (r: HandlerResult)
        ensures
            config_outcome(*old(state), *final(state), message, r),
    {
        match message {
            ConfigMessage::ChangeLocale(l) => {
                state.ui.locale = locale_for(l);
                HandlerResult::Task(Effect::NoTask)
            },
            ConfigMessage::ToggleTheme => {
                state.ui.theme = match state.ui.theme {
                    UiTheme::TokyoNightLight => UiTheme::SolarizedDark,
                    _ => UiTheme::TokyoNightLight,
                };
                HandlerResult::Task(Effect::NoTask)
            },
            ConfigMessage::Save => HandlerResult::Task(Effect::SaveConfig),
        }
    }

    fn handle_window(&self, state: &mut AppState, message: WindowMessage) -> (r: HandlerResult)
        ensures
            window_outcome(*old(state), *final(state), message, r),
    {
        if let WindowMessage::WindowMinimize = message {
            state.ui.message = owned("窗口最小化");
            state.ui.window.minimized = true;
        }
        HandlerResult::StateUpdated
    }

    /// Handles one message, as `message_outcome` says; `now` is the current
    /// time for the rows the handlers create.
    pub fn handle_message(&self, state: &mut AppState, message: MessageCategory, now: i64) -> (r: HandlerResult)
        requires
            message_ok(message),
        ensures
            message_outcome(*old(state), *final(state), message, now, r),
    {
        match message {
            MessageCategory::App(m) => self.handle_app(state, m),
            MessageCategory::Navigation(m) => self.handle_navigation(state, m),
            MessageCategory::Config(m) => self.handle_config(state, m),
            MessageCategory::Window(m) => self.handle_window(state, m),
            MessageCategory::Domain(m) => self.domain_handler.handle(state, m, now),
            MessageCategory::Dns(m) => self.dns_handler.handle(state, m, now),
            MessageCategory::Sync(m) => self.sync_handler.handle(state, m),
            MessageCategory::Provider(m) => self.provider_handler.handle(state, m),
            MessageCategory::Ui(m) => self.ui_handler.handle(state, m),
            MessageCategory::Database(m) => self.database_handler.handle(state, m),
            _ => HandlerResult::Task(Effect::NoTask),
        }
    }
}

} // verus!

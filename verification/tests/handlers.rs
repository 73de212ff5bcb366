use domain_manager::app_state::{
    Account, AppMessage, AppState, ConfigMessage, DatabaseMessage, Effect, HandlerResult, Language, Locale,
    MessageCategory, NavigationMessage, NewAccount, NotificationMessage, ProviderMessage, UiMessage, UiTheme,
    WindowMessage,
};
use domain_manager::dns_handler::DnsHandler;
use domain_manager::gui_model::{
    Credential, DnsProvider, DomainProvider, Page, ProviderStatus, TokenCredential,
};
use domain_manager::message_handler::MessageHandler;
use domain_manager::provider_handler::{unique_account_name, ProviderHandler};
use domain_manager::sync_handler::SyncHandler;
use domain_manager::window_handler::{WindowHandler, WindowState};

fn provider(id: i64, name: &str) -> DomainProvider {
    DomainProvider {
        account_id: id,
        provider_name: name.to_string(),
        provider: DnsProvider::Aliyun,
        credential: Credential::Token(TokenCredential { token: "t".to_string() }),
        is_expanded: false,
        is_adding_domain: false,
        new_domain_name: String::new(),
        domains: vec![],
        status: ProviderStatus::Inactive,
        last_synced_at: None,
        domain_count: 0,
    }
}

#[test]
fn unique_names_skip_taken_ones() {
    let providers = vec![provider(1, "阿里云"), provider(2, "阿里云 1"), provider(3, "阿里云 3")];
    assert_eq!(unique_account_name("阿里云", &providers), "阿里云 2");
    assert_eq!(unique_account_name("Cloudflare", &providers), "Cloudflare");
}

#[test]
fn selecting_a_kind_names_the_new_account() {
    let mut state = AppState::new();
    state.data.provider_page.providers.push(provider(1, "阿里云"));
    let r = ProviderHandler::new().handle(&mut state, ProviderMessage::Selected(DnsProvider::Aliyun));
    assert!(matches!(r, HandlerResult::StateUpdated));
    let form = &state.data.provider_page.form;
    assert_eq!(form.provider, Some(DnsProvider::Aliyun));
    assert_eq!(form.provider_name, "阿里云 1");
    assert!(form.credential.is_some());
    assert_eq!(state.ui.message, "已选择托管商类型: Aliyun");
}

#[test]
fn store_connection() {
    let handler = MessageHandler::new();
    let mut state = AppState::new();
    let r = handler.handle_message(&mut state, MessageCategory::Database(DatabaseMessage::Connected(Err("locked".to_string()))), 0);
    assert!(matches!(r, HandlerResult::Nothing));
    assert_eq!(state.ui.error, Some("数据库连接失败: locked".to_string()));
    assert_eq!(state.database, None);

    let r = handler.handle_message(&mut state, MessageCategory::Database(DatabaseMessage::Connected(Ok(7))), 0);
    assert!(matches!(r, HandlerResult::Task(Effect::Emit(MessageCategory::App(AppMessage::Initialize)))));
    assert_eq!(state.database, Some(7));
    assert!(state.initialized);

    let r = handler.handle_message(&mut state, MessageCategory::Database(DatabaseMessage::Connected(Ok(8))), 0);
    assert!(matches!(r, HandlerResult::NoChange));
    assert_eq!(state.database, Some(7));
}

#[test]
fn adding_an_account_needs_the_store() {
    let handler = MessageHandler::new();
    let mut state = AppState::new();
    let account = NewAccount {
        provider: DnsProvider::Aliyun,
        username: "me".to_string(),
        email: "me@example.com".to_string(),
        credential: Credential::Token(TokenCredential { token: "t".to_string() }),
    };
    let r = handler.handle_message(&mut state, MessageCategory::Database(DatabaseMessage::AddAccount(account)), 0);
    match r {
        HandlerResult::Task(Effect::Emit(MessageCategory::Database(DatabaseMessage::AccountAdded(Err(m))))) => {
            assert_eq!(m, "数据库未连接")
        }
        other => panic!("unexpected {:?}", other),
    }
}

#[test]
fn loaded_accounts_fill_the_page() {
    let mut state = AppState::new();
    let accounts = vec![Account {
        id: 4,
        username: "main".to_string(),
        provider_type: "Aliyun".to_string(),
        email: String::new(),
        credential: Credential::Token(TokenCredential { token: "t".to_string() }),
    }];
    ProviderHandler::new().handle(&mut state, ProviderMessage::Loaded(Ok(accounts)));
    assert_eq!(state.data.provider_page.providers.len(), 1);
    assert_eq!(state.data.provider_page.providers[0].provider_name, "main");
    assert_eq!(state.data.provider_page.providers[0].account_id, 4);
}

#[test]
fn lifecycle_messages() {
    let handler = MessageHandler::new();
    let mut state = AppState::new();
    let r = handler.handle_message(&mut state, MessageCategory::App(AppMessage::Initialize), 0);
    assert!(state.ui.is_loading);
    assert!(matches!(r, HandlerResult::Task(Effect::Emit(MessageCategory::Sync(_)))));
}

#[test]
fn navigation_messages() {
    let handler = MessageHandler::new();
    let mut state = AppState::new();
    handler.handle_message(&mut state, MessageCategory::Navigation(NavigationMessage::PageChanged(Page::Dashboard)), 0);
    assert!(matches!(state.ui.current_page, Page::Dashboard));
    assert!(matches!(state.ui.last_page, Some(Page::DomainPage)));
    handler.handle_message(&mut state, MessageCategory::Navigation(NavigationMessage::Back), 0);
    assert!(matches!(state.ui.current_page, Page::DomainPage));
    handler.handle_message(&mut state, MessageCategory::Navigation(NavigationMessage::OpenHelp), 0);
    assert!(state.ui.show_help);
    handler.handle_message(&mut state, MessageCategory::Navigation(NavigationMessage::CloseHelp), 0);
    assert!(!state.ui.show_help);
    let r = handler.handle_message(
        &mut state,
        MessageCategory::Navigation(NavigationMessage::OpenWebPage("https://example.com".to_string())),
        0,
    );
    match r {
        HandlerResult::Task(Effect::OpenWebPage { url }) => assert_eq!(url, "https://example.com"),
        other => panic!("unexpected {:?}", other),
    }
}

#[test]
fn config_messages() {
    let handler = MessageHandler::new();
    let mut state = AppState::new();
    handler.handle_message(&mut state, MessageCategory::Config(ConfigMessage::ChangeLocale(Language::EN)), 0);
    assert_eq!(state.ui.locale, Locale::English);
    handler.handle_message(&mut state, MessageCategory::Config(ConfigMessage::ChangeLocale(Language::ZH_TW)), 0);
    assert_eq!(state.ui.locale, Locale::Chinese);
    handler.handle_message(&mut state, MessageCategory::Config(ConfigMessage::ToggleTheme), 0);
    assert_eq!(state.ui.theme, UiTheme::SolarizedDark);
    let r = handler.handle_message(&mut state, MessageCategory::Config(ConfigMessage::Save), 0);
    assert!(matches!(r, HandlerResult::Task(Effect::SaveConfig)));
}

#[test]
fn window_messages() {
    let handler = MessageHandler::new();
    let mut state = AppState::new();
    let r = handler.handle_message(&mut state, MessageCategory::Window(WindowMessage::WindowMinimize), 0);
    assert!(matches!(r, HandlerResult::StateUpdated));
    assert!(state.ui.window.minimized);
    assert_eq!(state.ui.message, "窗口最小化");
}

#[test]
fn window_handler_operations() {
    let mut w = WindowHandler::new();
    let mut state = AppState::new();
    assert!(matches!(w.handle_drag_window(&mut state), HandlerResult::NoChange));
    w.handle_start_drag(&mut state);
    assert!(w.is_dragging());
    assert!(matches!(w.handle_drag_window(&mut state), HandlerResult::StateUpdated));
    w.handle_window_moved(&mut state);
    assert!(!w.is_dragging());

    assert_eq!(w.get_window_state(&state), WindowState::Normal);
    w.handle_window_maximize(&mut state, true);
    assert_eq!(state.ui.message, "窗口已最大化");
    assert_eq!(w.get_window_state(&state), WindowState::Maximized);
    w.handle_toggle_floating(&mut state);
    assert_eq!(w.get_window_state(&state), WindowState::Floating);
    assert_eq!(state.ui.toast_message, Some("已切换到悬浮窗模式".to_string()));
    w.handle_toggle_floating(&mut state);
    assert_eq!(state.ui.message, "已退出悬浮窗模式");

    state.data.has_unsaved_changes = true;
    w.handle_window_close_request(&mut state);
    assert_eq!(state.ui.toast_message, Some("有未保存的更改，请先保存数据".to_string()));
    state.data.has_unsaved_changes = false;
    w.handle_window_close_request(&mut state);
    assert_eq!(state.ui.message, "准备关闭应用程序");
}

#[test]
fn ui_toggles_and_toasts() {
    let handler = MessageHandler::new();
    let mut state = AppState::new();
    handler.handle_message(&mut state, MessageCategory::Ui(UiMessage::ToggleConsole), 0);
    assert!(state.ui.console_visible);
    let r = handler.handle_message(&mut state, MessageCategory::Ui(UiMessage::ShowToast("hi".to_string())), 0);
    assert_eq!(state.ui.toast_message, Some("hi".to_string()));
    match r {
        HandlerResult::StateUpdatedWithTask(Effect::EmitAfter {
            seconds,
            message: MessageCategory::Notification(NotificationMessage::HideToast),
        }) => assert_eq!(seconds, 3),
        other => panic!("unexpected {:?}", other),
    }
    handler.handle_message(&mut state, MessageCategory::Ui(UiMessage::HideToast), 0);
    assert!(!state.ui.toast_visible);
}

#[test]
fn batch_sync_tally() {
    let results = vec![Ok(3), Err("timeout".to_string()), Ok(4)];
    let b = SyncHandler::tally(&results);
    assert_eq!(b.successful.len(), 2);
    assert_eq!(b.failed.len(), 1);
    assert_eq!(b.total_domains, 3);
    assert_eq!(b.total_records, 7);
    match SyncHandler::all_synced_message(&b) {
        domain_manager::app_state::SyncMessage::AllComplete(Err(e)) => assert_eq!(e, "同步失败: 1 个域名失败"),
        other => panic!("unexpected {:?}", other),
    }
    let mut state = AppState::new();
    SyncHandler::new().handle_all_sync_complete(&mut state, b);
    assert_eq!(state.ui.message, "批量同步完成: 成功 2 个，失败 1 个，取消 0 个，共处理 7 条记录");
    assert!(state.data.has_unsaved_changes);
}

#[test]
fn record_form_outcomes() {
    match DnsHandler::handle_form_result(Err("Error: DomainRecordDuplicate".to_string()), 3) {
        MessageCategory::Notification(NotificationMessage::ShowToast(t)) => assert_eq!(t, "DNS记录已存在"),
        other => panic!("unexpected {:?}", other),
    }
    match DnsHandler::handle_form_result(Err("quota".to_string()), 3) {
        MessageCategory::Notification(NotificationMessage::ShowToast(t)) => assert_eq!(t, "操作失败: quota"),
        other => panic!("unexpected {:?}", other),
    }
    assert!(matches!(
        DnsHandler::handle_form_result(Ok(()), 3),
        MessageCategory::Dns(domain_manager::app_state::DnsMessage::FormSubmitSuccess(3))
    ));
}

use domain_manager::domain_handler::DomainHandler;
use domain_manager::gui_model::{AddDomainProviderForm, DomainStatus, VerificationStatus};

#[test]
fn simulated_provider_answers() {
    let recs = SyncHandler::simulated_domain_sync("example.com", 42).unwrap();
    assert_eq!(recs.len(), 2);
    assert_eq!(recs[1].value, "mail.example.com");
    assert_eq!(recs[1].priority, Some(10));
    assert_eq!(recs[0].created_at, 42);
    assert_eq!(SyncHandler::simulated_domain_sync("my-error.com", 42).unwrap_err(), "模拟同步失败");

    let (domains, groups) = SyncHandler::simulated_reload(7);
    assert_eq!(domains[0].name, "reloaded-example.com");
    assert_eq!(groups[0].1[0].value, "192.168.1.200");

    let found = DomainHandler::simulated_domain_query("a.org".to_string());
    assert_eq!(found.len(), 1);
    assert_eq!(found[0].name, "a.org");
    assert_eq!(found[0].status, DomainStatus::Active);
    let recs = DomainHandler::simulated_dns_records(99);
    assert_eq!(recs[1].create_timestamp, 99);
    assert_eq!(recs[0].weight, Some(1));
}

#[test]
fn credential_checks_need_kind_and_credentials() {
    let mut form = AddDomainProviderForm {
        provider_name: "main".to_string(),
        provider: None,
        credential: None,
        verification_status: VerificationStatus::Unverified,
    };
    assert_eq!(ProviderHandler::credential_check_inputs(&form).unwrap_err(), "提供商类型未选择");
    form.provider = Some(DnsProvider::CloudFlare);
    assert_eq!(ProviderHandler::credential_check_inputs(&form).unwrap_err(), "凭证信息未提供");
    form.credential = Some(Credential::Token(TokenCredential { token: "t".to_string() }));
    let (p, c) = ProviderHandler::credential_check_inputs(&form).unwrap();
    assert_eq!(p, DnsProvider::CloudFlare);
    assert_eq!(c, Credential::Token(TokenCredential { token: "t".to_string() }));
    assert_eq!(ProviderHandler::timed_check_answer(None).unwrap_err(), "验证超时，请检查网络连接");
    assert_eq!(ProviderHandler::timed_check_answer(Some(Err("bad key".to_string()))).unwrap_err(), "bad key");
}

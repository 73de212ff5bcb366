use std::collections::VecDeque;

use domain_manager::app_state::{AppState, DomainMessage, Language, Locale, SyncMessage};
use domain_manager::domain_handler::DomainHandler;
use domain_manager::classic_manager::{
    BackgroundType,
    domain_list_view, mock_data_sets, DomainManager, ManagerEffect, ManagerMessage, ManagerReload, ManagerSettings,
    ManagerTheme, ToastText,
};
use domain_manager::components::{
    domain_item, release_details, sync_time_label, DomainListItemConfig, DomainSyncStats, ReleaseAction, ReleaseTooltip, StatusColor,
};
use domain_manager::console::{
    api_log_view, console_header, db_log_view, empty_api_log_text, empty_db_log_text, ApiRequestLog, DatabaseQueryLog, LogTabContent,
};
use domain_manager::credential::{CredentialCheck, CredentialService};
use domain_manager::dns_manager::Key;
use domain_manager::dns_record::{Line, Record, Status, Type};
use domain_manager::gui_model::{
    ApiKeyCredential, Credential, DnsProvider, DnsRecord, DnsRecordModal, Domain, DomainProvider, DomainStatus, Page,
    ProviderStatus, UsernamePasswordCredential,
};
use domain_manager::provider_page::{provider_row, RowActions, StatusMark};
use domain_manager::record_sync::{RecordUpdate, RecordUpdateAction, RecordUpdateEvent, StoredDomain};
use domain_manager::sync_handler::{SyncHandler, SyncResult};

fn account(id: i64, name: &str, kind: DnsProvider) -> DomainProvider {
    DomainProvider {
        account_id: id,
        provider_name: name.to_string(),
        provider: kind,
        credential: Credential::UsernamePassword(UsernamePasswordCredential {
            username: "test".to_string(),
            password: "pass".to_string(),
        }),
        is_expanded: false,
        is_adding_domain: false,
        new_domain_name: String::new(),
        domains: vec![],
        status: ProviderStatus::Inactive,
        last_synced_at: None,
        domain_count: 0,
    }
}

fn domain(id: i64, name: &str, kind: DnsProvider) -> Domain {
    Domain { id, name: name.to_string(), provider: kind, status: DomainStatus::Active, expiry: String::new() }
}

fn record(id: &str, rr: &str, t: Type, value: &str, ttl: i64) -> Record {
    Record {
        status: Status::Enable,
        rr: rr.to_string(),
        line: Line::Default,
        locked: false,
        record_type: t,
        value: value.to_string(),
        record_id: id.to_string(),
        update_timestamp: None,
        ttl,
        create_timestamp: 0,
        weight: None,
    }
}

fn connected() -> DomainManager {
    DomainManager::new(
        ManagerSettings {
            locale: "en".to_string(),
            language: Language::EN,
            domain_names: vec![],
            background: BackgroundType::Plain,
        },
        Locale::English,
        7,
    )
}

#[test]
fn test_correctly_update_ip_version() {
    let mut app = DomainManager::default();
    let effects = app.update(ManagerMessage::AddDnsRecord);
    assert!(effects.is_empty());
    assert_eq!(app.current_page, Page::DomainPage);
}

#[test]
fn test_correctly_reload_complete() {
    let mut app = DomainManager::default();

    let providers = vec![account(1, "test", DnsProvider::Aliyun)];

    let domains = vec![Domain {
        id: 0,
        name: "test_domain".to_string(),
        provider: DnsProvider::Aliyun,
        status: DomainStatus::Active,
        expiry: "2023-12-12".to_string(),
    }];

    let records = vec![DnsRecord {
        name: "www".to_string(),
        record_type: "A".to_string(),
        value: "127.0.0.1".to_string(),
        ttl: "6000".to_string(),
    }];

    let _ = app.update(ManagerMessage::ReloadComplete(ManagerReload::new_from(providers, domains, records, 1)));

    assert_eq!(app.domain_providers.len(), 1);
    let provider = app.domain_providers.get(0);
    assert_eq!(provider.unwrap().provider_name, "test");

    assert_eq!(app.domain_list.len(), 1);
    let provider = app.domain_list.get(0);
    let domain = provider.unwrap();
    assert_eq!(domain.name, "test_domain");
    assert_eq!(domain.provider, DnsProvider::Aliyun);
    assert_eq!(domain.status, DomainStatus::Active);

    assert_eq!(app.dns_records.len(), 1);
    let record = app.dns_records.get(0);
    let record = record.unwrap();
    assert_eq!(record.name, "www");
    assert_eq!(record.record_type, "A");
    assert_eq!(record.value, "127.0.0.1");
}

#[test]
fn manager_defaults() {
    let app = DomainManager::default();
    assert_eq!(app.theme, ManagerTheme::Dark);
    assert!(app.in_query);
    assert_eq!(app.message, "加载中。。。");
    assert_eq!(app.stats.total, 10);
    assert_eq!(app.locale, Locale::Chinese);
    let app = connected();
    assert_eq!(app.theme, ManagerTheme::Light);
    assert!(!app.in_query);
    assert_eq!(app.connection, Some(7));
}

#[test]
fn manager_mock_fills_samples() {
    let mut app = DomainManager::default();
    let effects = app.update(ManagerMessage::Mock);
    assert!(effects.is_empty());
    assert_eq!(app.domain_providers.len(), 1);
    assert_eq!(app.domain_list.len(), 4);
    assert_eq!(app.domain_list[3].name, "example4.com");
    assert_eq!(app.dns_records.len(), 5);
    assert_eq!(app.dns_records[3].value, "10 mail.example.com");
    assert_eq!(app.stats.total, 4);
    assert_eq!(app.message, "");
    let (p, d, r) = mock_data_sets();
    assert_eq!((p.len(), d.len(), r.len()), (1, 4, 5));
}

#[test]
fn manager_reload_without_store_empties() {
    let mut app = DomainManager::default();
    let _ = app.update(ManagerMessage::Mock);
    let effects = app.update(ManagerMessage::Reload);
    assert!(effects.is_empty());
    assert!(app.domain_list.is_empty());
    assert!(app.domain_providers.is_empty());
    assert_eq!(app.stats.total, 0);
    assert_eq!(app.message, "");
}

#[test]
fn manager_reload_with_store_asks_for_selected_account() {
    let mut app = connected();
    let effects = app.update(ManagerMessage::ProviderSelected(Some(account(3, "a", DnsProvider::Aliyun))));
    assert!(app.in_query);
    assert_eq!(effects.len(), 1);
    assert!(matches!(
        effects[0],
        ManagerEffect::LoadData { connection: 7, provider_account: Some(3), domain_id: None }
    ));
    let effects = app.update(ManagerMessage::Reset);
    assert!(matches!(effects[0], ManagerEffect::LoadData { connection: 7, provider_account: None, domain_id: None }));
    assert!(app.filter.selected_provider.is_none());
}

#[test]
fn manager_started_switches_to_chinese_then_reloads() {
    let mut app = connected();
    let effects = app.update(ManagerMessage::Started);
    assert_eq!(effects.len(), 3);
    assert!(matches!(effects[0], ManagerEffect::SetLocale(Locale::Chinese)));
    assert!(matches!(effects[1], ManagerEffect::SaveConfig));
    assert!(matches!(effects[2], ManagerEffect::LoadData { connection: 7, .. }));
    assert_eq!(app.settings.locale, "zh_CN");
    assert_eq!(app.settings.language, Language::ZH);
    assert_eq!(app.locale, Locale::Chinese);
}

#[test]
fn manager_theme_toggles() {
    let mut app = DomainManager::default();
    let _ = app.update(ManagerMessage::ToggleTheme);
    assert_eq!(app.theme, ManagerTheme::TokyoNightLight);
    let _ = app.update(ManagerMessage::ToggleTheme);
    assert_eq!(app.theme, ManagerTheme::SolarizedDark);
}

#[test]
fn manager_help_key_round_trip() {
    let mut app = DomainManager::default();
    let _ = app.update(ManagerMessage::ChangePage(Page::DnsRecord));
    let _ = app.update(ManagerMessage::KeyInput { key: Key::Character("H".to_string()) });
    assert_eq!(app.current_page, Page::Help);
    assert_eq!(app.last_page, Some(Page::DnsRecord));
    let _ = app.update(ManagerMessage::KeyInput { key: Key::Character("x".to_string()) });
    assert_eq!(app.current_page, Page::Help);
    let _ = app.update(ManagerMessage::KeyInput { key: Key::Character("h".to_string()) });
    assert_eq!(app.current_page, Page::DnsRecord);
}

#[test]
fn manager_open_then_close_help() {
    let mut app = DomainManager::default();
    let _ = app.update(ManagerMessage::OpenHelp { last_page: Some(Page::Console) });
    assert_eq!(app.current_page, Page::Help);
    let _ = app.update(ManagerMessage::CloseHelp);
    assert_eq!(app.current_page, Page::Console);
}

#[test]
fn manager_add_credential_reports_missing_parts() {
    let mut app = DomainManager::default();
    let effects = app.update(ManagerMessage::AddCredential);
    assert!(effects.is_empty());
    assert_eq!(app.message, "请选择提供商类型");
    let _ = app.update(ManagerMessage::AddProviderFormProviderChanged(DnsProvider::Aliyun));
    let _ = app.update(ManagerMessage::AddCredential);
    assert_eq!(app.message, "数据库连接未初始化");
    let mut app = connected();
    let _ = app.update(ManagerMessage::AddProviderFormProviderChanged(DnsProvider::Aliyun));
    let _ = app.update(ManagerMessage::AddProviderFormNameChanged("main".to_string()));
    let effects = app.update(ManagerMessage::AddCredential);
    match &effects[0] {
        ManagerEffect::CreateAccount { connection, provider, username, email, .. } => {
            assert_eq!(*connection, 7);
            assert_eq!(*provider, DnsProvider::Aliyun);
            assert_eq!(username, "main");
            assert_eq!(email, "example@qq.com");
        }
        _ => panic!("expected an account to be created"),
    }
}

#[test]
fn manager_sync_without_store_fails() {
    let mut app = DomainManager::default();
    let effects = app.update(ManagerMessage::SyncAllDomains);
    assert!(app.is_syncing);
    match &effects[0] {
        ManagerEffect::SyncFinished(SyncResult::Failed(e)) => assert_eq!(e, "数据库连接失败"),
        _ => panic!("expected a failed sync"),
    }
    let _ = app.update(ManagerMessage::SyncAllDomainsComplete(SyncResult::Failed("x".to_string())));
    assert!(!app.is_syncing);
    assert_eq!(app.message, "同步失败: x");
}

#[test]
fn manager_sync_asks_every_account() {
    let mut app = DomainManager::default();
    let _ = app.update(ManagerMessage::ReloadComplete(ManagerReload::new_from(
        vec![account(1, "a", DnsProvider::Aliyun), account(2, "b", DnsProvider::CloudFlare)],
        vec![],
        vec![],
        0,
    )));
    let effects = app.update(ManagerMessage::Sync);
    assert_eq!(effects.len(), 2);
    match &effects[1] {
        ManagerEffect::FetchProviderDomains(p) => assert_eq!(p.account_id, 2),
        _ => panic!("expected a fetch"),
    }
}

#[test]
fn manager_record_list_and_deletion() {
    let mut app = DomainManager::default();
    let _ = app.update(ManagerMessage::QueryDnsResult(vec![record("r1", "www", Type::A, "1.2.3.4", 600)]));
    assert_eq!(app.dns_records[0].record_type, "A");
    assert_eq!(app.dns_records[0].ttl, "600");
    app.dns_list = vec![record("r1", "www", Type::A, "1.2.3.4", 600), record("r2", "@", Type::MX, "mx", 60)];
    let _ = app.update(ManagerMessage::DnsRecordDeleted("r1".to_string()));
    assert_eq!(app.dns_list.len(), 1);
    assert_eq!(app.dns_list[0].record_id, "r2");
    assert_eq!(app.current_page, Page::DnsRecord);
}

#[test]
fn manager_query_domain_result_replaces_stored_domains() {
    let mut app = connected();
    let effects = app.update(ManagerMessage::QueryDomainResult(
        vec![domain(0, "a.com", DnsProvider::Aliyun), domain(0, "b.com", DnsProvider::Aliyun)],
        account(5, "acc", DnsProvider::Aliyun),
    ));
    match &effects[0] {
        ManagerEffect::ReplaceAccountDomains { connection, account_id, names } => {
            assert_eq!(*connection, 7);
            assert_eq!(*account_id, 5);
            assert_eq!(names, &vec!["a.com".to_string(), "b.com".to_string()]);
        }
        _ => panic!("expected a replacement"),
    }
}

#[test]
fn manager_toasts() {
    let mut app = DomainManager::default();
    let effects = app.update(ManagerMessage::ToggleFloatingWindow);
    assert!(app.floating_window_enabled);
    assert_eq!(app.toast_message, Some(ToastText::Translated("floating_window_enabled".to_string())));
    assert!(matches!(effects[0], ManagerEffect::HideToastLater));
    let _ = app.update(ManagerMessage::ClearConsoleLogs);
    assert_eq!(app.toast_message, Some(ToastText::Plain("控制台日志已清空".to_string())));
    let _ = app.update(ManagerMessage::HideToast);
    assert!(!app.toast_visible);
    assert!(app.toast_message.is_none());
}

#[test]
fn domain_list_filters_by_provider() {
    let domains = vec![
        domain(1, "a.com", DnsProvider::Aliyun),
        domain(2, "b.com", DnsProvider::CloudFlare),
        domain(3, "c.com", DnsProvider::Aliyun),
    ];
    let all = domain_list_view(&domains, &None, &Some(domain(2, "b.com", DnsProvider::CloudFlare)), false);
    assert_eq!(all.title, "域名管理");
    assert_eq!(all.sync_label, "同步");
    assert_eq!(all.rows.len(), 3);
    assert!(all.rows[1].selected);
    assert!(!all.rows[0].selected);
    assert!(all.empty_state.is_none());
    let ali = domain_list_view(&domains, &Some(account(1, "main", DnsProvider::Aliyun)), &None, true);
    assert_eq!(ali.title, "main 域名 [阿里云]");
    assert_eq!(ali.sync_label, "同步中...");
    assert_eq!(ali.rows.len(), 2);
    assert_eq!(ali.rows[1].domain.name, "c.com");
    let none = domain_list_view(&domains, &Some(account(1, "g", DnsProvider::Google)), &None, false);
    assert_eq!(
        none.empty_state,
        Some(("暂无域名".to_string(), "点击同步按钮从云端获取域名数据".to_string()))
    );
}

#[test]
fn provider_row_states() {
    let mut p = account(4, "main", DnsProvider::Aliyun);
    p.status = ProviderStatus::Active;
    p.domain_count = 3;
    let row = provider_row(&p, false, false);
    assert_eq!(row.title, "main (阿里云)");
    assert_eq!(row.summary, "已管理 3 个域名 • 最后同步于 从未同步");
    assert_eq!(row.status, StatusMark::Green);
    assert_eq!(row.actions, RowActions::Placeholder);
    assert!(row.domains.is_empty());
    assert!(row.empty_message.is_none());
    let row = provider_row(&p, true, true);
    assert_eq!(row.actions, RowActions::ConfirmDelete);
    assert!(row.highlighted);
    p.is_expanded = true;
    p.last_synced_at = Some("2024-01-01".to_string());
    let row = provider_row(&p, false, false);
    assert_eq!(row.actions, RowActions::AddEditDelete);
    assert_eq!(row.empty_message, Some("暂无域名或未同步".to_string()));
    assert!(row.summary.ends_with("2024-01-01"));
    p.domains = vec![domain(9, "x.com", DnsProvider::Aliyun)];
    p.status = ProviderStatus::Error;
    let row = provider_row(&p, false, false);
    assert_eq!(row.domains.len(), 1);
    assert_eq!(row.domains[0].domain_id, 9);
    assert!(row.empty_message.is_none());
    assert_eq!(row.status, StatusMark::Red);
}

#[test]
fn console_tabs_show_empty_state() {
    let api: VecDeque<ApiRequestLog> = VecDeque::new();
    match api_log_view(&api) {
        LogTabContent::Empty(m) => assert_eq!(m, "暂无API请求日志"),
        LogTabContent::Rows { .. } => panic!("expected the empty state"),
    }
    let db: VecDeque<DatabaseQueryLog> = VecDeque::new();
    match db_log_view(&db) {
        LogTabContent::Empty(m) => assert_eq!(m, "暂无数据库查询日志"),
        LogTabContent::Rows { .. } => panic!("expected the empty state"),
    }
    assert_eq!(empty_api_log_text(), "暂无API请求日志");
    assert_eq!(empty_db_log_text(), "暂无数据库查询日志");
    let mut api = VecDeque::new();
    api.push_back(ApiRequestLog {
        timestamp: "t1".to_string(),
        method: "GET".to_string(),
        url: "u1".to_string(),
        status: 200,
        duration: "1ms".to_string(),
    });
    api.push_back(ApiRequestLog {
        timestamp: "t2".to_string(),
        method: "GET".to_string(),
        url: "u2".to_string(),
        status: 404,
        duration: "1ms".to_string(),
    });
    match api_log_view(&api) {
        LogTabContent::Rows { columns, rows } => {
            assert_eq!(columns, vec!["时间", "方法", "URL", "状态", "耗时"]);
            assert_eq!(rows.len(), 2);
            assert_eq!(rows[0].url, "u2");
        }
        LogTabContent::Empty(_) => panic!("expected rows"),
    }
}

#[test]
fn aliyun_check_uses_hangzhou() {
    let c = Credential::ApiKey(ApiKeyCredential { api_key: "k".to_string(), api_secret: "s".to_string() });
    match CredentialService::validate_credentials(DnsProvider::Aliyun, &c) {
        CredentialCheck::VerifyAliyun { access_key_id, access_key_secret, region } => {
            assert_eq!(access_key_id, "k");
            assert_eq!(access_key_secret, "s");
            assert_eq!(region, "cn-hangzhou");
        }
        _ => panic!("expected a remote check"),
    }
}

fn row(id: i64, name: &str, t: &str, value: &str) -> DnsRecordModal {
    DnsRecordModal {
        id,
        domain_id: 3,
        record_type: t.to_string(),
        name: name.to_string(),
        value: value.to_string(),
        ttl: 600,
        priority: None,
        enabled: true,
        created_at: 100,
        updated_at: None,
    }
}

fn to_listing(u: &mut RecordUpdate) {
    let a = u.step(
        RecordUpdateEvent::DomainLoaded(Ok(Some(StoredDomain { name: "example.com".to_string(), account_id: 2 }))),
        0,
    );
    assert!(matches!(a, RecordUpdateAction::FindAccount { account_id: 2 }));
    let c = Credential::ApiKey(ApiKeyCredential { api_key: "k".to_string(), api_secret: "s".to_string() });
    let a = u.step(RecordUpdateEvent::AccountLoaded(Ok(Some(c))), 0);
    match a {
        RecordUpdateAction::ListCloudRecords { client, domain_name } => {
            assert_eq!(client.access_key_id, "k");
            assert_eq!(domain_name, "example.com");
        }
        _ => panic!("expected a listing"),
    }
}

#[test]
fn record_update_stops_when_cloud_has_no_match() {
    let (mut u, a) = RecordUpdate::start(row(5, "www", "A", "1.1.1.1"), row(5, "www", "A", "2.2.2.2"));
    assert!(matches!(a, RecordUpdateAction::FindDomain { domain_id: 3 }));
    to_listing(&mut u);
    let a = u.step(RecordUpdateEvent::CloudListed(Ok(vec![record("r9", "mail", Type::A, "1.1.1.1", 600)])), 0);
    match a {
        RecordUpdateAction::Finish(Err(e)) => assert_eq!(e, "在云端未找到匹配的DNS记录，无法更新"),
        _ => panic!("expected the update to stop"),
    }
}

#[test]
fn record_update_replaces_row_under_new_id() {
    let (mut u, _) = RecordUpdate::start(row(5, "www", "A", "1.1.1.1"), row(5, "www", "A", "2.2.2.2"));
    to_listing(&mut u);
    let a = u.step(
        RecordUpdateEvent::CloudListed(Ok(vec![
            record("r1", "mail", Type::A, "1.1.1.1", 600),
            record("r2", "www", Type::A, "1.1.1.1", 600),
            record("r3", "www", Type::A, "1.1.1.1", 600),
        ])),
        0,
    );
    match a {
        RecordUpdateAction::UpdateCloudRecord { record, domain, .. } => {
            assert_eq!(record.record_id, "r2");
            assert_eq!(record.value, "2.2.2.2");
            assert_eq!(domain.name, "example.com");
        }
        _ => panic!("expected a provider update"),
    }
    let a = u.step(RecordUpdateEvent::CloudUpdated(Ok(())), 0);
    assert!(matches!(a, RecordUpdateAction::DeleteRow { row_id: 5 }));
    let a = u.step(RecordUpdateEvent::RowDeleted(Ok(())), 0);
    assert!(matches!(a, RecordUpdateAction::InsertRow { domain_id: 3, .. }));
    let a = u.step(RecordUpdateEvent::RowInserted(Ok(42)), 999);
    match a {
        RecordUpdateAction::Finish(Ok(r)) => {
            assert_eq!(r.id, 42);
            assert_eq!(r.updated_at, Some(999));
            assert_eq!(r.value, "2.2.2.2");
        }
        _ => panic!("expected the written row"),
    }
}

#[test]
fn record_update_failed_provider_update_leaves_store() {
    let (mut u, _) = RecordUpdate::start(row(5, "www", "A", "1.1.1.1"), row(5, "www", "A", "2.2.2.2"));
    to_listing(&mut u);
    let _ = u.step(RecordUpdateEvent::CloudListed(Ok(vec![record("r2", "www", Type::A, "1.1.1.1", 600)])), 0);
    let a = u.step(RecordUpdateEvent::CloudUpdated(Err("denied".to_string())), 0);
    match a {
        RecordUpdateAction::Finish(Err(e)) => assert_eq!(e, "denied"),
        _ => panic!("expected the update to stop"),
    }
}

fn stored_domain(id: i64, name: &str) -> domain_manager::gui_model::DomainModal {
    domain_manager::gui_model::DomainModal {
        id,
        name: name.to_string(),
        provider_id: 1,
        status: "active".to_string(),
        created_at: 0,
        updated_at: None,
    }
}

#[test]
fn deleting_a_domain_drops_its_cached_records() {
    let mut state = AppState::new();
    state.data.domain_list = vec![stored_domain(1, "a.com"), stored_domain(2, "b.com")];
    state.data.dns_records_cache = std::collections::HashMap::from([(1, vec![]), (2, vec![])]);
    let _ = DomainHandler::new().handle(&mut state, DomainMessage::Delete(1), 0);
    assert_eq!(state.data.domain_list.len(), 1);
    assert!(!state.data.dns_records_cache.contains_key(&1));
    assert!(state.data.dns_records_cache.contains_key(&2));
}

#[test]
fn submitting_a_listed_name_keeps_names_distinct() {
    let mut state = AppState::new();
    state.data.domain_list = vec![stored_domain(1, "a.com")];
    state.ui.add_domain_field.domain_name = "a.com".to_string();
    let _ = DomainHandler::new().handle_submit_form(&mut state, 5);
    assert_eq!(state.data.domain_list.len(), 1);
    state.ui.add_domain_field.domain_name = "b.com".to_string();
    let _ = DomainHandler::new().handle_submit_form(&mut state, 5);
    assert_eq!(state.data.domain_list.len(), 2);
    assert_eq!(state.data.domain_list[1].name, "b.com");
    assert_eq!(state.ui.add_domain_field.domain_name, "");
}

#[test]
fn footer_release_button() {
    let r = release_details(Some(true), "1.2.3");
    assert_eq!(r.label, "domain_manager v1.2.3");
    assert!(r.warning && r.update_mark);
    assert_eq!(r.action, ReleaseAction::OpenDownloadPage);
    assert_eq!(r.tooltip, ReleaseTooltip::NewVersionAvailable);
    let r = release_details(None, "1.2.3");
    assert!(!r.warning);
    assert_eq!(r.action, ReleaseAction::ShowToast("当前已是最新版本".to_string()));
    assert_eq!(r.tooltip, ReleaseTooltip::Text("点击检查更新".to_string()));
}

#[test]
fn domain_item_counts_cached_records() {
    let d = domain_manager::gui_model::DomainModal {
        id: 2,
        name: "b.com".to_string(),
        provider_id: 1,
        status: "Error".to_string(),
        created_at: 0,
        updated_at: None,
    };
    let cache = std::collections::HashMap::from([(2usize, vec![row(1, "www", "A", "1.1.1.1"), row(2, "@", "A", "2.2.2.2")])]);
    let item = domain_item(&d, true, &DomainListItemConfig::default(), true, &cache, "阿里云", &vec![]);
    assert_eq!(item.status_mark, Some(StatusColor::Red));
    assert!(item.selected);
    let details = item.details.unwrap();
    assert_eq!(details.provider, Some("提供商: 阿里云".to_string()));
    assert_eq!(details.records, Some("记录: 2".to_string()));
    assert_eq!(details.last_sync, Some("同步: 未同步".to_string()));
    let empty = std::collections::HashMap::new();
    let stats = vec![
        DomainSyncStats { name: "a.com".to_string(), last_sync: Some(0) },
        DomainSyncStats { name: "b.com".to_string(), last_sync: Some(1_700_000_000) },
    ];
    let item = domain_item(&d, false, &DomainListItemConfig::default(), true, &empty, "x", &stats);
    let details = item.details.unwrap();
    assert_eq!(details.records, Some("记录: 0".to_string()));
    assert_eq!(details.last_sync, Some("同步: 2023-11-14 22:13".to_string()));
    let item = domain_item(&d, false, &DomainListItemConfig::default(), false, &empty, "x", &vec![]);
    assert!(item.details.is_none());
}

#[test]
fn sync_label_falls_back_when_never_synced() {
    let stats = vec![DomainSyncStats { name: "a.com".to_string(), last_sync: None }];
    assert_eq!(sync_time_label(&stats, &"a.com".to_string()), "未同步");
    assert_eq!(sync_time_label(&stats, &"z.com".to_string()), "未同步");
    let stats = vec![DomainSyncStats { name: "a.com".to_string(), last_sync: Some(i64::MAX) }];
    assert_eq!(sync_time_label(&stats, &"a.com".to_string()), "未同步");
}

#[test]
fn console_header_marks_shown_tab() {
    let h = console_header(domain_manager::console::ConsoleTab::DatabaseQueries);
    assert_eq!(h.tabs[0].label, "API请求");
    assert!(!h.tabs[0].active);
    assert!(h.tabs[1].active);
    assert_eq!(h.clear_label, "清空日志");
    let db: VecDeque<DatabaseQueryLog> = VecDeque::from(vec![DatabaseQueryLog {
        timestamp: "t".to_string(),
        query: "SELECT 1".to_string(),
        duration: "1ms".to_string(),
        rows_affected: None,
    }]);
    match db_log_view(&db) {
        LogTabContent::Rows { columns, rows } => {
            assert_eq!(columns, vec!["时间", "查询语句", "耗时", "影响行数"]);
            assert_eq!(rows[0].rows_affected, "-");
        }
        LogTabContent::Empty(_) => panic!("expected rows"),
    }
}

#[test]
fn manager_header_and_background() {
    let mut app = DomainManager::default();
    let h = app.header();
    assert!(h.query_indicator);
    assert_eq!(h.message, "加载中。。。");
    assert_eq!(h.buttons.len(), 10);
    assert!(matches!(h.buttons[0], ManagerMessage::ChangePage(Page::DomainPage)));
    assert!(matches!(h.buttons[6], ManagerMessage::ChangeBackground(BackgroundType::ChinaRed)));
    assert!(matches!(h.buttons[9], ManagerMessage::Quit));
    assert_eq!(h.background_tooltip, "background.china_red");
    assert!(matches!(h.on_press, ManagerMessage::DragWindow));
    let effects = app.update(ManagerMessage::ChangeBackground(BackgroundType::QipaoGirl));
    assert!(matches!(effects[0], ManagerEffect::SaveConfig));
    assert_eq!(app.settings.background, BackgroundType::QipaoGirl);
    let _ = app.update(ManagerMessage::OpenSettings(domain_manager::gui_model::SettingsPage::General));
    let h = app.header();
    assert!(matches!(h.buttons[0], ManagerMessage::ChangePage(Page::DomainPage)));
    assert!(matches!(h.buttons[6], ManagerMessage::ChangeBackground(BackgroundType::Plain)));
    assert_eq!(h.background_tooltip, "background.none");
}

#[test]
fn sync_all_reports_failures_by_count() {
    let all_ok = SyncHandler::tally(&vec![Ok(2), Ok(0)]);
    assert!(matches!(SyncHandler::all_synced_message(&all_ok), SyncMessage::AllComplete(Ok(()))));
    let some_failed = SyncHandler::tally(&vec![Ok(2), Err("x".to_string()), Err("y".to_string())]);
    match SyncHandler::all_synced_message(&some_failed) {
        SyncMessage::AllComplete(Err(e)) => assert_eq!(e, "同步失败: 2 个域名失败"),
        _ => panic!("expected a failure report"),
    }
}

use std::collections::VecDeque;

use domain_manager::components::{
    DnsRecordFilter, DnsRecordsComponent, DomainListComponent, DomainListView, RecordActions, RecordFilter,
};
use domain_manager::console::{api_log_rows, db_log_rows, ApiRequestLog, ConsoleState, DatabaseQueryLog, TextStyle};
use domain_manager::error::DomainManagerError;
use domain_manager::gui_model::{DnsProvider, DnsRecordModal, DomainModal};
use domain_manager::help::get_help_text;
use domain_manager::manager::DomainManagerV2;

fn dns_row(id: i64, record_type: &str, name: &str, value: &str) -> DnsRecordModal {
    DnsRecordModal {
        id,
        domain_id: 1,
        record_type: record_type.to_string(),
        name: name.to_string(),
        value: value.to_string(),
        ttl: 600,
        priority: None,
        enabled: true,
        created_at: 0,
        updated_at: None,
    }
}

fn api_log(i: u16) -> ApiRequestLog {
    ApiRequestLog {
        timestamp: format!("t{}", i),
        method: "GET".to_string(),
        url: "/".to_string(),
        status: 200,
        duration: "1ms".to_string(),
    }
}

#[test]
fn console_keeps_only_the_newest_entries() {
    let mut c = ConsoleState::default();
    c.max_logs = 3;
    for i in 0..5 {
        c.add_api_log(api_log(i));
    }
    let kept: Vec<&str> = c.api_logs.iter().map(|l| l.timestamp.as_str()).collect();
    assert_eq!(kept, vec!["t2", "t3", "t4"]);
    c.clear_logs();
    assert!(c.api_logs.is_empty());
    assert_eq!(c.max_logs, 3);
}

#[test]
fn console_rows_are_styled() {
    let mut logs = VecDeque::new();
    logs.push_back(ApiRequestLog {
        timestamp: "10:00".to_string(),
        method: "DELETE".to_string(),
        url: "/records/1".to_string(),
        status: 404,
        duration: "12ms".to_string(),
    });
    logs.push_back(ApiRequestLog {
        timestamp: "10:01".to_string(),
        method: "POST".to_string(),
        url: "/records".to_string(),
        status: 301,
        duration: "3ms".to_string(),
    });
    let rows = api_log_rows(&logs);
    assert_eq!(rows.len(), 2);
    let delete = rows.iter().find(|r| r.method == "DELETE").unwrap();
    assert_eq!(delete.status, "404");
    assert_eq!(delete.method_style, TextStyle::Danger);
    assert_eq!(delete.status_style, TextStyle::Danger);
    let post = rows.iter().find(|r| r.method == "POST").unwrap();
    assert_eq!(post.method_style, TextStyle::Incoming);
    assert_eq!(post.status_style, TextStyle::Outgoing);

    let mut db = VecDeque::new();
    db.push_back(DatabaseQueryLog {
        timestamp: "1".to_string(),
        query: "SELECT 1".to_string(),
        duration: "1ms".to_string(),
        rows_affected: None,
    });
    let rows = db_log_rows(&db);
    assert_eq!(rows[0].rows_affected, "-");
}

#[test]
fn record_filters() {
    assert_eq!(DnsRecordFilter::All.as_str(), "全部");
    assert!(DnsRecordFilter::All.matches("TXT"));
    assert!(DnsRecordFilter::MX.matches("MX"));
    assert!(!DnsRecordFilter::MX.matches("A"));
    assert_eq!(DnsRecordFilter::filter_bar().len(), 7);
    assert!(DnsRecordFilter::All.is_active(&None));
    assert!(DnsRecordFilter::A.is_active(&Some("A".to_string())));
    assert_eq!(DnsRecordFilter::A.selection(), Some("A".to_string()));
    assert_eq!(DnsRecordFilter::All.selection(), None);
}

#[test]
fn records_are_narrowed_by_type_and_text() {
    let comp = DnsRecordsComponent::new();
    let rows = vec![
        dns_row(1, "A", "www", "1.2.3.4"),
        dns_row(2, "CNAME", "Mail", "mx.example.com"),
        dns_row(3, "A", "api", "5.6.7.8"),
    ];
    let by_type = RecordFilter { record_type: Some("A".to_string()), search_keyword: String::new() };
    let ids: Vec<i64> = comp.filter_records(&rows, &by_type).iter().map(|r| r.id).collect();
    assert_eq!(ids, vec![1, 3]);
    let by_text = RecordFilter { record_type: None, search_keyword: "MAIL".to_string() };
    let ids: Vec<i64> = comp.filter_records(&rows, &by_text).iter().map(|r| r.id).collect();
    assert_eq!(ids, vec![2]);
    assert_eq!(comp.filter_records(&rows, &RecordFilter::default()).len(), 3);
}

#[test]
fn record_list_component_state() {
    let mut comp = DnsRecordsComponent::new();
    comp.toggle_add_mode();
    assert!(comp.is_adding);
    comp.start_edit(dns_row(5, "A", "x", "y"));
    assert!(comp.edit_mode);
    comp.cancel_edit();
    assert!(!comp.edit_mode);
    assert!(comp.editing_record.is_none());
    assert_eq!(DnsRecordsComponent::add_form_title(true), "编辑DNS记录");
    assert_eq!(DnsRecordsComponent::ttl_input("3600", 600), 3600);
    assert_eq!(DnsRecordsComponent::ttl_input("", 600), 0);
    assert_eq!(DnsRecordsComponent::ttl_input("abc", 600), 600);
    assert_eq!(DnsRecordsComponent::ttl_label(-5), "TTL: -5");
    assert_eq!(DnsRecordsComponent::empty_state_message(Some("a.com")), "域名 a.com 暂无DNS记录");
    assert_eq!(DnsRecordsComponent::empty_state_message(None), "请先选择一个域名");
    assert_eq!(DnsRecordsComponent::record_actions(Some(4), false, Some(4), 4), RecordActions::ConfirmDelete);
    assert_eq!(DnsRecordsComponent::record_actions(None, true, None, 4), RecordActions::EditOrDelete);
    assert_eq!(DnsRecordsComponent::record_actions(Some(3), false, None, 4), RecordActions::Hidden);
}

#[test]
fn domain_list_component_state() {
    let mut comp = DomainListComponent::new();
    assert!(comp.get_selected_domain().is_none());
    comp.set_selected_domain(Some("a.com".to_string()));
    assert!(comp.is_selected("a.com"));
    assert!(!comp.is_selected("b.com"));
    assert_eq!(DomainListComponent::view_state(true, 3, "x"), DomainListView::Loading);
    assert_eq!(DomainListComponent::view_state(false, 3, "x"), DomainListView::Items);
    assert_eq!(DomainListComponent::view_state(false, 0, "boom"), DomainListView::Error);
    assert_eq!(DomainListComponent::view_state(false, 0, ""), DomainListView::Empty);
}

#[test]
fn help_columns_line_up() {
    let table = get_help_text();
    assert_eq!(table.len(), 11);
    assert_eq!(table[1].0, format!("h{}", " ".repeat(13)));
    assert_eq!(table[0].0, "\n● 模式/播放 ");
    assert_eq!(table[6].0, "\n\n● 模式/帮助");
}

#[test]
fn provider_names() {
    assert_eq!(DnsProvider::all().len(), 7);
    for p in DnsProvider::all() {
        assert_eq!(DnsProvider::from_value(p.value()), Some(p));
    }
    assert_eq!(DnsProvider::Aliyun.name(), "阿里云");
    assert_eq!(DnsProvider::CloudFlare.value(), "CloudFlare");
    assert_eq!(DnsProvider::from_value("aliyun"), None);
    assert_eq!(DnsProvider::Aws.features(), vec!["路由策略", "健康检查", "地理路由"]);
}

#[test]
fn test_manager_creation() {
    let manager = DomainManagerV2::new();
    assert!(!manager.is_initialized());
    assert_eq!(manager.get_statistics().total_domains, 0);
}

#[test]
fn test_statistics() {
    let manager = DomainManagerV2::default();
    let stats = manager.get_statistics();

    assert_eq!(stats.total_domains, 0);
    assert_eq!(stats.total_dns_records, 0);
    assert_eq!(stats.active_domains, 0);
    assert!(!stats.initialized);
    assert!(!stats.is_syncing);
}

#[test]
fn statistics_count_domains_and_cached_records() {
    let mut manager = DomainManagerV2::new();
    let domain = |id: i64, status: &str| DomainModal {
        id,
        name: format!("d{}.com", id),
        provider_id: 1,
        status: status.to_string(),
        created_at: 0,
        updated_at: None,
    };
    manager.state.data.domain_list = vec![domain(1, "Active"), domain(2, "active"), domain(3, "Active")];
    manager.state.data.dns_records_cache = std::collections::HashMap::from([
        (1, vec![dns_row(1, "A", "a", "b"), dns_row(2, "A", "c", "d")]),
        (3, vec![dns_row(3, "A", "e", "f")]),
    ]);
    manager.state.data.last_sync_time = Some(1_700_000_000);
    let st = manager.get_statistics();
    assert_eq!(st.total_domains, 3);
    assert_eq!(st.active_domains, 2);
    assert_eq!(st.total_dns_records, 3);
    assert_eq!(st.last_sync_time, Some(1_700_000_000));
    assert!(manager.dns_log_list().is_empty());
    assert!(manager.current_domain_name().is_none());
}

#[test]
fn error_messages() {
    assert_eq!(DomainManagerError::validation("bad ttl".to_string()).message(), "Validation error: bad ttl");
    assert_eq!(DomainManagerError::not_found("a.com".to_string()).message(), "Not found: a.com");
    assert_eq!(DomainManagerError::Database("locked".to_string()).message(), "Database error: locked");
    assert_eq!(DomainManagerError::api("x".to_string()), DomainManagerError::Api("x".to_string()));
}

#[test]
fn test_manager_initialization() {
    let manager = DomainManagerV2::default();
    assert!(!manager.is_initialized());
}

#[test]
fn manager_record_form_starts_empty() {
    let manager = DomainManagerV2::new();
    let form = manager.add_dns_form();
    assert!(form.record_id.is_none());
    assert!(form.record_name.is_empty());
    assert!(form.domain_name.is_empty());
    assert!(form.value.is_empty());
    assert_eq!(form.ttl, 600);
    assert_eq!(form.record_type, Some(domain_manager::dns_record::Type::A));
}

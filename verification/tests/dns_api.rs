use domain_manager::dns_api::{
    AliyunDnsApi, AliyunRecordFields, DnsApiConfig, DnsApiError, DnsApiFactory, DnsApiManager, DnsClient,
    DnsProvider, ManagerError,
};
use domain_manager::dns_record::Type;

fn create_test_client() -> AliyunDnsApi {
    AliyunDnsApi::new(
        "test_access_key_id".to_string(),
        "test_access_key_secret".to_string(),
    )
}

#[test]
fn test_dns_provider_display() {
    assert_eq!(DnsProvider::Aliyun.to_string(), "阿里云DNS");
    assert_eq!(DnsProvider::Cloudflare.to_string(), "Cloudflare DNS");
    assert_eq!(DnsProvider::Other("Custom".to_string()).to_string(), "Custom");
}

#[test]
fn test_dns_api_config_default() {
    let config = DnsApiConfig::default();
    assert_eq!(config.provider, DnsProvider::Aliyun);
    assert_eq!(config.timeout, Some(30));
    assert_eq!(config.retry_count, Some(3));
    assert!(config.enable_logging);
}

#[test]
fn test_create_client() {
    let client = create_test_client();
    assert_eq!(client.access_key_id, "test_access_key_id");
    assert_eq!(client.access_key_secret, "test_access_key_secret");
    assert_eq!(client.endpoint, "https://alidns.aliyuncs.com");
    assert_eq!(client.version, "2015-01-09");
}

#[test]
fn test_with_endpoint() {
    let client = create_test_client().with_endpoint("https://custom.endpoint.com".to_string());
    assert_eq!(client.endpoint, "https://custom.endpoint.com");
}

#[test]
fn test_parse_single_record() {
    let client = create_test_client();
    let record_json = AliyunRecordFields {
        record_id: Some("12345".to_string()),
        rr: Some("www".to_string()),
        record_type: Some("A".to_string()),
        value: Some("192.168.1.1".to_string()),
        ttl: Some(600),
        priority: None,
        line: Some("default".to_string()),
        weight: None,
    };
    let record = client.parse_single_record(&record_json);
    assert_eq!(record.record_id, "12345");
    assert_eq!(record.rr, "www");
    assert_eq!(record.value, "192.168.1.1");
    assert_eq!(record.ttl, 600);
}

#[test]
fn test_supported_record_types() {
    let manager = DnsApiManager::new();
    let types = manager.get_supported_record_types();
    assert!(!types.is_empty());
    assert!(types.contains(&Type::A));
    assert!(types.contains(&Type::Cname));
}

#[test]
fn parse_single_record_fills_defaults() {
    let client = create_test_client();
    let fields = AliyunRecordFields {
        record_id: None,
        rr: None,
        record_type: Some("BOGUS".to_string()),
        value: None,
        ttl: None,
        priority: None,
        line: None,
        weight: None,
    };
    let record = client.parse_single_record(&fields);
    assert_eq!(record.record_id, "");
    assert_eq!(record.rr, "");
    assert_eq!(record.record_type, Type::A);
    assert_eq!(record.ttl, 600);
    let mx = AliyunRecordFields { record_type: Some("MX".to_string()), ttl: Some(4_294_967_896), ..fields };
    let record = client.parse_single_record(&mx);
    assert_eq!(record.record_type, Type::MX);
    assert_eq!(record.ttl, 600);
}

#[test]
fn parse_dns_records_requires_a_list() {
    let client = create_test_client();
    match client.parse_dns_records(&None) {
        Err(DnsApiError::Other(m)) => assert_eq!(m, "响应中缺少DNS记录数据"),
        _ => panic!("expected an error"),
    }
    let list = vec![AliyunRecordFields {
        record_id: Some("1".to_string()),
        rr: Some("@".to_string()),
        record_type: Some("TXT".to_string()),
        value: Some("v=spf1".to_string()),
        ttl: Some(60),
        priority: None,
        line: None,
        weight: None,
    }];
    let records = client.parse_dns_records(&Some(list)).unwrap();
    assert_eq!(records.len(), 1);
    assert_eq!(records[0].record_type, Type::TXT);
    assert_eq!(records[0].ttl, 60);
}

#[test]
fn update_config_keeps_new_settings_when_client_fails() {
    let mut manager = DnsApiManager::new();
    let new_config = DnsApiConfig {
        provider: DnsProvider::Cloudflare,
        access_key_id: "test_key".to_string(),
        access_key_secret: "test_secret".to_string(),
        ..Default::default()
    };
    let result = manager.update_config(new_config);
    assert!(matches!(result, Err(ManagerError::CloudflareNotImplemented)));
    let updated = manager.get_config();
    assert_eq!(updated.provider, DnsProvider::Cloudflare);
    assert_eq!(updated.access_key_id, "test_key");
    assert!(manager.client.is_none());
}

#[test]
fn update_config_builds_aliyun_client_with_endpoint() {
    let mut manager = DnsApiManager::new();
    let config = DnsApiConfig {
        access_key_id: "id".to_string(),
        access_key_secret: "secret".to_string(),
        endpoint: Some("https://example.test".to_string()),
        ..Default::default()
    };
    assert!(manager.update_config(config).is_ok());
    match &manager.client {
        Some(DnsClient::Aliyun(a)) => {
            assert_eq!(a.access_key_id, "id");
            assert_eq!(a.endpoint, "https://example.test");
            assert_eq!(a.version, "2015-01-09");
        }
        None => panic!("expected a client"),
    }
}

#[test]
fn missing_keys_and_unknown_providers_are_refused() {
    let err = DnsApiManager::with_config(DnsApiConfig::default()).unwrap_err();
    assert!(matches!(err, ManagerError::MissingKeys));
    assert_eq!(err.message(), "DNS API配置不完整：缺少访问密钥");
    let other = DnsApiConfig {
        provider: DnsProvider::Other("Acme".to_string()),
        access_key_id: "a".to_string(),
        access_key_secret: "b".to_string(),
        ..Default::default()
    };
    let err = DnsApiFactory::create_manager(other).unwrap_err();
    assert_eq!(err.message(), "不支持的DNS服务提供商: Acme");
    assert!(DnsApiFactory::create_aliyun_manager("a".to_string(), String::new()).is_err());
    let m = DnsApiFactory::create_aliyun_manager("a".to_string(), "b".to_string()).unwrap();
    assert_eq!(m.config.timeout, Some(30));
}

#[test]
fn get_client_keeps_an_existing_client() {
    let mut manager = DnsApiManager::new();
    assert!(manager.get_client().is_err());
    manager.config.access_key_id = "k".to_string();
    manager.config.access_key_secret = "s".to_string();
    assert!(manager.get_client().is_ok());
    assert!(manager.client.is_some());
}

#[test]
fn request_builders_check_their_arguments() {
    let client = create_test_client();
    match client.get_dns_record_request("") {
        Err(DnsApiError::ValidationError(m)) => assert_eq!(m, "记录ID不能为空"),
        _ => panic!("expected a validation error"),
    }
    let q = client.get_dns_record_request("42").unwrap();
    assert_eq!(q.action, "DescribeDomainRecordInfo");
    assert_eq!(q.params, vec![("RecordId".to_string(), "42".to_string())]);
    let q = client.query_domain_list_request(Some(2), Some(50));
    assert_eq!(q.action, "DescribeDomains");
    assert_eq!(
        q.params,
        vec![
            ("PageNumber".to_string(), "2".to_string()),
            ("PageSize".to_string(), "50".to_string())
        ]
    );
    let q = client.set_dns_record_status_request("7", false).unwrap();
    assert_eq!(q.params[1], ("Status".to_string(), "Disable".to_string()));
    assert!(client.query_dns_operation_logs_request("", None, None).is_err());
    let q = client
        .get_dns_record_statistics_request("example.com", "2024-01-01", "2024-01-31")
        .unwrap();
    assert_eq!(q.params.len(), 3);
}

#[test]
fn batch_delete_reports_one_operation() {
    let r = AliyunDnsApi::batch_delete_response("www", "example.com", "req-1");
    assert_eq!(r.success_count, 1);
    assert_eq!(r.failed_count, 0);
    assert_eq!(r.operations[0].record_id, "www.example.com");
    assert_eq!(r.request_id, "req-1");
    let op = AliyunDnsApi::operation_response("9", "req-2");
    assert!(op.success);
    assert_eq!(op.record_id, "9");
}

#[test]
fn delete_requests() {
    let client = create_test_client();
    let r = client.delete_dns_record_request("42");
    assert_eq!(r.action, "DeleteDomainRecord");
    assert_eq!(r.params, vec![("RecordId".to_string(), "42".to_string())]);
    let b = client.batch_delete_dns_records_request("example.com", "www", Some(Type::TXT));
    assert_eq!(b.action, "DeleteSubDomainRecords");
    assert_eq!(
        b.params,
        vec![
            ("DomainName".to_string(), "example.com".to_string()),
            ("RR".to_string(), "www".to_string()),
            ("Type".to_string(), "TXT".to_string()),
        ]
    );
    assert_eq!(client.batch_delete_dns_records_request("example.com", "@", None).params.len(), 2);
}

#[test]
fn connection_test_answers() {
    assert_eq!(DnsApiManager::test_connection_answer(Ok(())).unwrap(), true);
    assert_eq!(DnsApiManager::test_connection_answer(Err(DnsApiError::DomainNotFound("x".to_string()))).unwrap(), true);
    assert!(matches!(
        DnsApiManager::test_connection_answer(Err(DnsApiError::NetworkError("down".to_string()))),
        Err(DnsApiError::NetworkError(_))
    ));
}

#[test]
fn test_dns_api_manager_creation() {
    let manager = DnsApiManager::new();
    let config = manager.get_config();
    assert_eq!(config.provider, DnsProvider::Aliyun);
}

#[test]
fn test_dns_api_manager_config_update() {
    let mut manager = DnsApiManager::new();

    let new_config = DnsApiConfig {
        provider: DnsProvider::Cloudflare,
        access_key_id: "test_key".to_string(),
        access_key_secret: "test_secret".to_string(),
        ..Default::default()
    };

    let result = manager.update_config(new_config.clone());
    assert!(result.is_err());

    let updated_config = manager.get_config();
    assert_eq!(updated_config.provider, DnsProvider::Cloudflare);
    assert_eq!(updated_config.access_key_id, "test_key");
}

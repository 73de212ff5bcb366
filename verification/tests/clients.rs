use domain_manager::aliyun_client::{AliyunDnsClient, BodyValue, HttpMethod};
use domain_manager::dns_client::DnsClient;
use domain_manager::dns_record::{Record, Status, Type};
use domain_manager::domain_query::{Data, Domain as ListedDomain, DomainQueryResponse, DomainTag};
use domain_manager::gui_model::{DnsProvider, DomainName};

fn pairs(v: &[(String, String)]) -> Vec<(&str, &str)> {
    v.iter().map(|(k, x)| (k.as_str(), x.as_str())).collect()
}

fn listed(name: &str) -> ListedDomain {
    ListedDomain {
        registrant_type: "1".to_string(),
        registration_date: "2020-01-01".to_string(),
        expiration_curr_date_diff: 10,
        registration_date_long: 0,
        resource_group_id: String::new(),
        instance_id: "i".to_string(),
        domain_name: name.to_string(),
        premium: false,
        product_id: "2".to_string(),
        domain_audit_status: "SUCCEED".to_string(),
        ccompany: String::new(),
        expiration_date_long: 0,
        expiration_date_status: "1".to_string(),
        domain_type: "gTLD".to_string(),
        expiration_date: "2030-01-01".to_string(),
        chgholder_status: String::new(),
        tag: DomainTag { tag: vec![] },
        domain_status: "3".to_string(),
    }
}

#[test]
fn aliyun_client_defaults_to_qingdao() {
    let c = AliyunDnsClient::new("id".to_string(), "secret".to_string());
    assert_eq!(c.region_id, "cn-qingdao");
    let c = c.with_region("cn-hangzhou".to_string());
    assert_eq!(c.region_id, "cn-hangzhou");
    assert_eq!(c.access_key_id, "id");
}

#[test]
fn list_domains_call() {
    let c = AliyunDnsClient::new("id".to_string(), "secret".to_string());
    let call = c.list_domains_call(2, 50);
    assert_eq!(call.method, HttpMethod::Get);
    assert_eq!(call.host, "domain.aliyuncs.com");
    assert_eq!(call.canonical_uri, "/");
    assert_eq!(call.action, "QueryDomainList");
    assert_eq!(call.version, "2018-01-29");
    assert_eq!(pairs(&call.query), vec![("RegionId", "cn-qingdao"), ("PageNum", "2"), ("PageSize", "50")]);
    assert_eq!(call.body.len(), 2);
    assert!(matches!(&call.body[0], (k, BodyValue::Number(2)) if k == "PageNum"));
    assert!(matches!(&call.body[1], (k, BodyValue::Number(50)) if k == "PageSize"));
}

#[test]
fn record_calls() {
    let c = AliyunDnsClient::new("id".to_string(), "secret".to_string());
    let record = Record::new(Status::Enable, "www".to_string(), Type::Cname, "a.example.com".to_string(), "77".to_string(), 600);
    let domain = DomainName { provider: DnsProvider::Aliyun, name: "example.com".to_string(), dns_record: vec![] };

    let add = c.add_dns_record_call(&domain, &record);
    assert_eq!(add.method, HttpMethod::Post);
    assert_eq!(add.action, "AddDomainRecord");
    assert_eq!(
        pairs(&add.query),
        vec![
            ("RegionId", "cn-qingdao"),
            ("DomainName", "example.com"),
            ("RR", "www"),
            ("Type", "CNAME"),
            ("Value", "a.example.com"),
            ("TTL", "600"),
        ]
    );
    assert!(matches!(&add.body[4], (k, BodyValue::Number(600)) if k == "TTL"));

    let upd = c.update_dns_record_call(&record);
    assert_eq!(upd.action, "UpdateDomainRecord");
    assert_eq!(pairs(&upd.query)[1], ("RecordId", "77"));

    let del = c.delete_dns_record_call("77");
    assert_eq!(del.action, "DeleteDomainRecord");
    assert_eq!(pairs(&del.query), vec![("RegionId", "cn-qingdao"), ("RecordId", "77")]);

    let list = c.list_dns_records_call("example.com");
    assert_eq!(list.host, "dns.aliyuncs.com");
    assert_eq!(list.action, "DescribeDomainRecords");
    assert_eq!(pairs(&list.query), vec![("RegionId", "cn-qingdao"), ("DomainName", "example.com"), ("PageSize", "100")]);
}

#[test]
fn error_answers_are_reported() {
    assert!(AliyunDnsClient::check_answer(None, Some("ignored".to_string()), None).is_ok());
    let e = AliyunDnsClient::check_answer(
        Some("\"InvalidAccessKeyId.NotFound\"".to_string()),
        Some("Specified access key is not found.".to_string()),
        Some("REQ-1".to_string()),
    )
    .unwrap_err();
    assert_eq!(
        e,
        "Aliyun API Error: \"InvalidAccessKeyId.NotFound\" - Specified access key is not found. (RequestId: REQ-1)"
    );
    let e = AliyunDnsClient::check_answer(Some("500".to_string()), None, None).unwrap_err();
    assert_eq!(e, "Aliyun API Error: 500 - Unknown error (RequestId: )");
}

#[test]
fn domain_list_page_gives_aliyun_names() {
    let page = DomainQueryResponse {
        pre_page: false,
        current_page_num: 1,
        request_id: "r".to_string(),
        page_size: 100,
        total_page_num: 1,
        data: Data { domain: vec![listed("a.com"), listed("b.cn")] },
        total_item_num: 2,
        next_page: false,
    };
    let names = AliyunDnsClient::domain_names(&page);
    assert_eq!(names.len(), 2);
    assert_eq!(names[0].name, "a.com");
    assert_eq!(names[1].name, "b.cn");
    assert!(names.iter().all(|n| n.provider == DnsProvider::Aliyun && n.dns_record.is_empty()));
}

#[test]
fn dns_client_gathers_aliyun_domains_only() {
    let client = DnsClient::new(
        "id".to_string(),
        "secret".to_string(),
        "cn".to_string(),
        vec![DnsProvider::Aliyun, DnsProvider::CloudFlare, DnsProvider::Aliyun],
    );
    assert_eq!(client.providers_to_list(), vec![true, false, true]);
    let name = |n: &str| DomainName { provider: DnsProvider::Aliyun, name: n.to_string(), dns_record: vec![] };
    let answers = vec![
        Ok(vec![name("a.com"), name("b.com")]),
        Ok(vec![name("not-listed.com")]),
        Err("network".to_string()),
    ];
    let domains = client.get_all_domain_info(&answers);
    let got: Vec<&str> = domains.iter().map(|d| d.name.as_str()).collect();
    assert_eq!(got, vec!["a.com", "b.com"]);
    assert!(domains.iter().all(|d| d.provider == DnsProvider::Aliyun && d.id == 0));

    let d = DnsClient::default();
    assert_eq!(d.dns_provider, vec![DnsProvider::Aliyun]);
    assert_eq!(d.access_key_id, "");
}

use domain_manager::gui_model::{ApiKeyCredential, Credential, DnsRecordModal, TokenCredential};
use domain_manager::record_sync::{
    api_client_for, cloud_record_id, find_cloud_record, provider_domain, provider_record, reload_domain, CloudLookup,
};

fn row(name: &str, record_type: &str, value: &str) -> DnsRecordModal {
    DnsRecordModal {
        id: 1,
        domain_id: 2,
        record_type: record_type.to_string(),
        name: name.to_string(),
        value: value.to_string(),
        ttl: 300,
        priority: None,
        enabled: true,
        created_at: 0,
        updated_at: None,
    }
}

#[test]
fn clients_need_key_credentials() {
    let c = api_client_for(&Credential::ApiKey(ApiKeyCredential { api_key: "k".to_string(), api_secret: "s".to_string() }))
        .unwrap();
    assert_eq!(c.access_key_id, "k");
    assert_eq!(c.access_key_secret, "s");
    let e = api_client_for(&Credential::Token(TokenCredential { token: "t".to_string() })).unwrap_err();
    assert_eq!(e, "不支持的凭据类型");
}

#[test]
fn stored_rows_are_matched_to_provider_records() {
    let cloud = vec![
        Record::new(Status::Enable, "www".to_string(), Type::A, "1.1.1.1".to_string(), "c1".to_string(), 600),
        Record::new(Status::Enable, "www".to_string(), Type::A, "2.2.2.2".to_string(), "c2".to_string(), 600),
        Record::new(Status::Enable, "www".to_string(), Type::A, "2.2.2.2".to_string(), "c3".to_string(), 600),
    ];
    assert_eq!(find_cloud_record(&cloud, "www", "A", "2.2.2.2"), Some(1));
    assert_eq!(cloud_record_id(&cloud, &row("www", "A", "2.2.2.2"), CloudLookup::Update).unwrap(), "c2");
    assert_eq!(
        cloud_record_id(&cloud, &row("www", "CNAME", "2.2.2.2"), CloudLookup::Update).unwrap_err(),
        "在云端未找到匹配的DNS记录，无法更新"
    );
    assert_eq!(
        cloud_record_id(&cloud, &row("api", "A", "1.1.1.1"), CloudLookup::Delete).unwrap_err(),
        "在云端未找到匹配的DNS记录"
    );
}

#[test]
fn provider_records_from_rows() {
    let r = provider_record(&row("mail", "mx", "10 mx.example.com"), "c9".to_string());
    assert_eq!(r.record_type, Type::MX);
    assert_eq!(r.record_id, "c9");
    assert_eq!(r.ttl, 300);
    let r = provider_record(&row("x", "weird", "v"), String::new());
    assert_eq!(r.record_type, Type::A);
    let d = provider_domain("example.com".to_string());
    assert_eq!(d.provider, DnsProvider::Aliyun);
    assert_eq!(reload_domain(0, 7), 7);
    assert_eq!(reload_domain(3, 7), 3);
}

use domain_manager::gui_model::AddDnsField;
use domain_manager::record_sync::{new_row_from_form, updated_row_from_form};

#[test]
fn rows_from_the_record_form() {
    let form = AddDnsField {
        record_id: None,
        domain_name: "example.com".to_string(),
        record_name: "www".to_string(),
        value: "1.2.3.4".to_string(),
        ttl: 900,
        record_type: Some(Type::AAAA),
    };
    let added = new_row_from_form(&form, 4, 1000);
    assert_eq!(added.id, 0);
    assert_eq!(added.domain_id, 4);
    assert_eq!(added.record_type, "AAAA");
    assert_eq!(added.ttl, 900);
    assert_eq!(added.updated_at, None);

    let old = row("www", "A", "9.9.9.9");
    let typeless = AddDnsField { record_type: None, ..form };
    let changed = updated_row_from_form(&typeless, &old, 4, 2000);
    assert_eq!(changed.id, old.id);
    assert_eq!(changed.record_type, "A");
    assert_eq!(changed.value, "1.2.3.4");
    assert_eq!(changed.updated_at, Some(2000));
}

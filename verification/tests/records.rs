use domain_manager::cloudflare::{split_mx_value, CloudflareDnsClient, CloudflareDnsRecord};
use domain_manager::dns_record::{Record, Status, Type};

fn record(rr: &str, t: Type, value: &str, id: &str, ttl: i32) -> Record {
    Record::new(Status::Enable, rr.to_string(), t, value.to_string(), id.to_string(), ttl)
}

#[test]
fn type_codes_round_trip() {
    for t in [
        Type::A,
        Type::Cname,
        Type::MX,
        Type::AAAA,
        Type::TXT,
        Type::NS,
        Type::SOA,
        Type::PTR,
        Type::SRV,
        Type::ForwardUrl,
    ] {
        assert_eq!(Type::from_code(t.get_value()), Some(t));
    }
    assert_eq!(Type::Cname.get_value(), "CNAME");
    assert_eq!(Type::ForwardUrl.get_value(), "FORWARD_URL");
    assert_eq!(Type::from_code("cname"), None);
    assert_eq!(Type::from_code_or_a("BOGUS"), Type::A);
    assert_eq!(Type::from_code_any_case("cname"), Type::Cname);
    assert_eq!(Type::from_code_any_case("whatever"), Type::A);
}

#[test]
fn record_new_keeps_parts() {
    let r = record("www", Type::A, "1.2.3.4", "9", 600);
    assert_eq!(r.rr, "www");
    assert_eq!(r.value, "1.2.3.4");
    assert_eq!(r.record_id, "9");
    assert_eq!(r.ttl, 600);
    assert!(!r.locked);
    assert_eq!(r.weight, None);
}

#[test]
fn cloudflare_urls() {
    let c = CloudflareDnsClient::new("tok".to_string(), "me@example.com".to_string());
    assert_eq!(c.auth_header(), "Bearer tok");
    assert_eq!(c.zones_url(), "https://api.cloudflare.com/client/v4/zones");
    assert_eq!(c.zone_lookup_url("example.com"), "https://api.cloudflare.com/client/v4/zones?name=example.com");
    assert_eq!(c.records_url("z1"), "https://api.cloudflare.com/client/v4/zones/z1/dns_records");
    assert_eq!(c.record_url("z1", "r2"), "https://api.cloudflare.com/client/v4/zones/z1/dns_records/r2");
}

#[test]
fn mx_values_split_into_priority_and_host() {
    assert_eq!(split_mx_value("10 mx.example.com"), (Some(10), "mx.example.com".to_string()));
    assert_eq!(split_mx_value("mx.example.com"), (None, "mx.example.com".to_string()));
    assert_eq!(split_mx_value("x mx.example.com"), (None, "x mx.example.com".to_string()));
}

#[test]
fn cloudflare_record_conversions() {
    let cf = CloudflareDnsRecord {
        id: Some("abc".to_string()),
        name: "www".to_string(),
        record_type: "CNAME".to_string(),
        content: "example.com".to_string(),
        ttl: 300,
        priority: None,
        proxied: Some(true),
    };
    let r = CloudflareDnsClient::convert_cf_record_to_internal(&cf);
    assert_eq!(r.record_type, Type::Cname);
    assert_eq!(r.record_id, "abc");
    assert_eq!(r.ttl, 300);

    let cf = CloudflareDnsRecord { id: None, record_type: "SRV".to_string(), ..cf };
    let r = CloudflareDnsClient::convert_cf_record_to_internal(&cf);
    assert_eq!(r.record_type, Type::A);
    assert_eq!(r.record_id, "");

    let mx = record("@", Type::MX, "20 mail.example.com", "", 3600);
    let out = CloudflareDnsClient::convert_internal_to_cf_record(&mx);
    assert_eq!(out.id, None);
    assert_eq!(out.record_type, "MX");
    assert_eq!(out.content, "mail.example.com");
    assert_eq!(out.priority, Some(20));
    assert_eq!(out.proxied, Some(false));

    let txt = record("t", Type::TXT, "20 not a priority", "id1", 60);
    let out = CloudflareDnsClient::convert_internal_to_cf_record(&txt);
    assert_eq!(out.id, Some("id1".to_string()));
    assert_eq!(out.content, "20 not a priority");
    assert_eq!(out.priority, None);
}

use domain_manager::cloudflare::{CloudflareOperation, CloudflareZone};
use domain_manager::gui_model::DnsProvider;

#[test]
fn cloudflare_answers_are_judged() {
    assert_eq!(
        CloudflareDnsClient::check_answer(CloudflareOperation::GetZoneId, false, "403 Forbidden", true, "").unwrap_err(),
        "获取Zone ID失败: HTTP 403 Forbidden"
    );
    assert_eq!(
        CloudflareDnsClient::check_answer(CloudflareOperation::AddDnsRecord, true, "200 OK", false, "[code 1004]")
            .unwrap_err(),
        "Cloudflare API错误: [code 1004]"
    );
    assert!(CloudflareDnsClient::check_answer(CloudflareOperation::ListDomains, true, "200 OK", true, "").is_ok());
}

#[test]
fn zones_give_ids_and_domains() {
    let zones = vec![
        CloudflareZone { id: "z1".to_string(), name: "a.com".to_string(), status: "active".to_string() },
        CloudflareZone { id: "z2".to_string(), name: "b.com".to_string(), status: "pending".to_string() },
    ];
    assert_eq!(CloudflareDnsClient::zone_id_from(&zones, "a.com").unwrap(), "z1");
    assert_eq!(CloudflareDnsClient::zone_id_from(&vec![], "c.com").unwrap_err(), "未找到域名对应的Zone: c.com");
    let names = CloudflareDnsClient::zone_domain_names(&zones);
    assert_eq!(names.len(), 2);
    assert_eq!(names[1].name, "b.com");
    assert_eq!(names[1].provider, DnsProvider::CloudFlare);
    let listing = vec![CloudflareDnsRecord {
        id: Some("r".to_string()),
        name: "www".to_string(),
        record_type: "AAAA".to_string(),
        content: "::1".to_string(),
        ttl: 1,
        priority: None,
        proxied: None,
    }];
    let recs = CloudflareDnsClient::records_from(&listing);
    assert_eq!(recs[0].record_type, Type::AAAA);
    assert_eq!(recs[0].value, "::1");
}

use domain_manager::components::DnsRecordsComponent;
use domain_manager::text::{i64_to_string, parse_i32, parse_u32, u64_to_string};

#[test]
fn cloudflare_round_trip_keeps_records() {
    for (t, value) in [(Type::A, "1.2.3.4"), (Type::AAAA, "::1"), (Type::Cname, "x.example.com"), (Type::TXT, "v=spf1 -all")] {
        let r = record("host", t, value, "rid", 120);
        let back = CloudflareDnsClient::convert_cf_record_to_internal(&CloudflareDnsClient::convert_internal_to_cf_record(&r));
        assert_eq!(back.rr, r.rr);
        assert_eq!(back.record_type, r.record_type);
        assert_eq!(back.value, r.value);
        assert_eq!(back.record_id, r.record_id);
        assert_eq!(back.ttl, r.ttl);
    }
    let negative = record("n", Type::A, "1.1.1.1", "", -1);
    let back = CloudflareDnsClient::convert_cf_record_to_internal(&CloudflareDnsClient::convert_internal_to_cf_record(&negative));
    assert_eq!(back.ttl, -1);
    // An MX value loses its priority on the way back.
    let mx = record("@", Type::MX, "10 mail.example.com", "", 60);
    let back = CloudflareDnsClient::convert_cf_record_to_internal(&CloudflareDnsClient::convert_internal_to_cf_record(&mx));
    assert_eq!(back.value, "mail.example.com");
}

#[test]
fn printed_numbers_parse_back() {
    for n in [0u32, 7, 10, 600, 4_294_967_295] {
        assert_eq!(parse_u32(&u64_to_string(n as u64)), Some(n));
    }
    for n in [0i32, -1, 3600, i32::MIN, i32::MAX] {
        assert_eq!(parse_i32(&i64_to_string(n as i64)), Some(n));
        let label = DnsRecordsComponent::ttl_label(n);
        assert_eq!(DnsRecordsComponent::ttl_input(label.trim_start_matches("TTL: "), 5), n);
    }
    assert_eq!(split_mx_value(&format!("{} {}", 65535, "mx.example.net")), (Some(65535), "mx.example.net".to_string()));
}

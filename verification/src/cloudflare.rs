//! The Cloudflare DNS client: its settings, the request URLs it uses, and
//! the conversions between Cloudflare's record shape and this library's.

use crate::dns_record::{
    cloudflare_code, cloudflare_type_from_code, is_cloudflare_type, lemma_type_code_roundtrip, record_spec, Record, Status,
    Type,
};
use crate::gui_model::{DnsProvider, DomainName};
use crate::text::{
    decimal, is_digit, lemma_decimal_reads_back, lemma_u32_text_parses_back, owned, owned_or_empty, parse_u32,
    parse_u32_spec, push_str, text_or_empty,
};
use vstd::prelude::*;
use vstd::string::*;

verus! {

/// The API root the Cloudflare client talks to.
pub open spec fn cloudflare_base_url() -> Seq<char> {
    "https://api.cloudflare.com/client/v4"@
}

/// Settings of a Cloudflare DNS client: the API token it sends and the API
/// root it talks to. The HTTP transport is held by the application.
#[derive(Debug, Clone)]
pub struct CloudflareDnsClient {
    pub api_token: String,
    pub base_url: String,
}

impl CloudflareDnsClient {
    /// A client for `api_token` against the public API root; the e-mail
    /// address is accepted for compatibility and not used.
    pub fn new(api_token: String, _email: String) -> (r: CloudflareDnsClient)
        ensures
            r.api_token@ == api_token@,
            r.base_url@ == cloudflare_base_url(),
    {
        CloudflareDnsClient { api_token, base_url: owned("https://api.cloudflare.com/client/v4") }
    }

    /// The `Authorization` header value: `Bearer <token>`.
    pub fn auth_header(&self) -> (r: String)
        ensures
            r@ == "Bearer "@ + self.api_token@,
    {
        let mut s = owned("Bearer ");
        push_str(&mut s, self.api_token.as_str());
        s
    }

    /// The URL listing every zone: `<root>/zones`.
    pub fn zones_url(&self) -> (r: String)
        ensures
            r@ == self.base_url@ + "/zones"@,
    {
        let mut s = self.base_url.clone();
        push_str(&mut s, "/zones");
        s
    }

    /// The URL looking a zone up by domain: `<root>/zones?name=<domain>`.
    pub fn zone_lookup_url(&self, domain_name: &str) -> (r: String)
        ensures
            r@ == self.base_url@ + "/zones?name="@ + domain_name@,
    {
        let mut s = self.base_url.clone();
        push_str(&mut s, "/zones?name=");
        push_str(&mut s, domain_name);
        s
    }

    /// The URL of a zone's records: `<root>/zones/<zone>/dns_records`.
    pub fn records_url(&self, zone_id: &str) -> (r: String)
        ensures
            r@ == self.base_url@ + "/zones/"@ + zone_id@ + "/dns_records"@,
    {
        let mut s = self.base_url.clone();
        push_str(&mut s, "/zones/");
        push_str(&mut s, zone_id);
        push_str(&mut s, "/dns_records");
        s
    }

    /// The URL of one record: `<root>/zones/<zone>/dns_records/<record>`.
    pub fn record_url(&self, zone_id: &str, record_id: &str) -> (r: String)
        ensures
            r@ == self.base_url@ + "/zones/"@ + zone_id@ + "/dns_records/"@ + record_id@,
    {
        let mut s = self.base_url.clone();
        push_str(&mut s, "/zones/");
        push_str(&mut s, zone_id);
        push_str(&mut s, "/dns_records/");
        push_str(&mut s, record_id);
        s
    }
}

/// A DNS record in the shape of the Cloudflare API.
#[derive(Debug, Clone)]
pub struct CloudflareDnsRecord {
    pub id: Option<String>,
    pub name: String,
    pub record_type: String,
    pub content: String,
    pub ttl: u32,
    pub priority: Option<u32>,
    pub proxied: Option<bool>,
}

impl CloudflareDnsClient {
    /// Converts a Cloudflare record to a record of this library: known types
    /// are kept (others become `A`), a missing id becomes empty, and the TTL
    /// is reinterpreted as a signed 32-bit number.
    pub fn convert_cf_record_to_internal(cf: &CloudflareDnsRecord) -> (r: Record)
        ensures
            record_spec(
                Status::Enable,
                cf.name@,
                cloudflare_type_from_code(cf.record_type@),
                cf.content@,
                text_or_empty(cf.id),
                cf.ttl as i32,
                r,
            ),
    {
        let record_type = match Type::from_code(cf.record_type.as_str()) {
            Some(t) => {
                if t == Type::A || t == Type::AAAA || t == Type::Cname || t == Type::MX || t == Type::TXT {
                    t
                } else {
                    Type::A
                }
            },
            None => Type::A,
        };
        let id = owned_or_empty(&cf.id);
        Record::new(Status::Enable, cf.name.clone(), record_type, cf.content.clone(), id, cf.ttl as i32)
    }
}

/// Position of the first space in `s`, if there is one.
pub open spec fn first_space(s: Seq<char>) -> Option<int> {
    if exists|i: int| 0 <= i < s.len() && s[i] == ' ' {
        Some(choose|i: int| 0 <= i < s.len() && s[i] == ' ' && forall|j: int| 0 <= j < i ==> s[j] != ' ')
    } else {
        None
    }
}

/// The priority and content that an MX value such as `"10 mx.example.com"`
/// splits into: when the text before the first space parses as a `u32`,
/// that number is the priority and the text after the space the content;
/// otherwise there is no priority and the whole value is the content.
pub open spec fn mx_split(value: Seq<char>) -> (Option<u32>, Seq<char>) {
    match first_space(value) {
        Some(p) => match parse_u32_spec(value.subrange(0, p)) {
            Some(prio) => (Some(prio), value.subrange(p + 1, value.len() as int)),
            None => (None, value),
        },
        None => (None, value),
    }
}

fn find_first_space(s: &str) -> (r: Option<usize>)
    ensures
        match r {
            Some(p) => first_space(s@) == Some(p as int) && p < s@.len(),
            None => first_space(s@) is None,
        },
{
    let n = s.unicode_len();
    let mut i: usize = 0;
    while i < n
        invariant
            n == s@.len(),
            i <= n,
            forall|j: int| 0 <= j < i ==> s@[j] != ' ',
        decreases n - i,
    {
        if s.get_char(i) == ' ' {
            let ghost w = choose|k: int|
                0 <= k < s@.len() && s@[k] == ' ' && forall|j: int| 0 <= j < k ==> s@[j] != ' ';
            assert(0 <= i < s@.len() && s@[i as int] == ' ' && forall|j: int|
                0 <= j < i ==> s@[j] != ' ');
            proof {
                if w < i {
                    assert(s@[w] != ' ');
                } else if w > i {
                    assert(s@[i as int] != ' ');
                }
            }
            return Some(i);
        }
        i = i + 1;
    }
    None
}

/// Splits an MX value into its priority and content, as the Cloudflare
/// conversion does.
pub fn split_mx_value(value: &str) -> (r: (Option<u32>, String))
    ensures
        r.0 == mx_split(value@).0,
        r.1@ == mx_split(value@).1,
{
    match find_first_space(value) {
        Some(p) => {
            let n = value.unicode_len();
            let head = value.substring_char(0, p);
            match parse_u32(head) {
                Some(prio) => {
                    let tail = value.substring_char(p + 1, n);
                    (Some(prio), owned(tail))
                },
                None => (None, owned(value)),
            }
        },
        None => (None, owned(value)),
    }
}

/// The Cloudflare record that a record of this library is sent as.
pub open spec fn cf_record_spec(r: Record, cf: CloudflareDnsRecord) -> bool {
    let split = if r.record_type == Type::MX {
        mx_split(r.value@)
    } else {
        (None, r.value@)
    };
    &&& (r.record_id@.len() == 0 ==> cf.id is None)
    &&& (r.record_id@.len() != 0 ==> (cf.id matches Some(id) && id@ == r.record_id@))
    &&& cf.name@ == r.rr@
    &&& cf.record_type@ == cloudflare_code(r.record_type)
    &&& cf.content@ == split.1
    &&& cf.ttl == r.ttl as u32
    &&& cf.priority == split.0
    &&& cf.proxied == Some(false)
}

impl CloudflareDnsClient {
    /// Converts a record of this library to the Cloudflare shape.
    pub fn convert_internal_to_cf_record(r: &Record) -> (cf: CloudflareDnsRecord)
        ensures
            cf_record_spec(*r, cf),
    {
        let code: &str = match r.record_type {
            Type::A => "A",
            Type::AAAA => "AAAA",
            Type::Cname => "CNAME",
            Type::MX => "MX",
            Type::TXT => "TXT",
            _ => "A",
        };
        let (priority, content) = if r.record_type == Type::MX {
            split_mx_value(r.value.as_str())
        } else {
            (None, r.value.clone())
        };
        let id = if r.record_id.as_str().unicode_len() == 0 {
            None
        } else {
            Some(r.record_id.clone())
        };
        CloudflareDnsRecord {
            id,
            name: r.rr.clone(),
            record_type: owned(code),
            content,
            ttl: r.ttl as u32,
            priority,
            proxied: Some(false),
        }
    }
}

/// A zone of the account: one domain.
#[derive(Debug, Clone)]
pub struct CloudflareZone {
    pub id: String,
    pub name: String,
    pub status: String,
}

/// An error the API reports.
#[derive(Debug, Clone)]
pub struct CloudflareError {
    pub code: u32,
    pub message: String,
}

/// The operations of the client, each named in the message of its HTTP failure.
#[derive(Debug, Clone, Copy, PartialEq, Eq, Structural)]
pub enum CloudflareOperation {
    GetZoneId,
    ListDomains,
    ListDnsRecords,
    AddDnsRecord,
    DeleteDnsRecord,
    UpdateDnsRecord,
}

/// What failed, as the message of an HTTP failure names it.
pub open spec fn operation_failure(op: CloudflareOperation) -> Seq<char> {
    match op {
        CloudflareOperation::GetZoneId => "获取Zone ID失败"@,
        CloudflareOperation::ListDomains => "获取域名列表失败"@,
        CloudflareOperation::ListDnsRecords => "获取DNS记录失败"@,
        CloudflareOperation::AddDnsRecord => "添加DNS记录失败"@,
        CloudflareOperation::DeleteDnsRecord => "删除DNS记录失败"@,
        CloudflareOperation::UpdateDnsRecord => "更新DNS记录失败"@,
    }
}

/// How an answer of the API is judged: a status outside 2xx fails with the
/// operation and the status; an answer that reports no success fails with
/// the reported errors; any other answer is accepted.
pub open spec fn answer_judged(
    op: CloudflareOperation,
    status_ok: bool,
    status: Seq<char>,
    success: bool,
    errors: Seq<char>,
) -> Result<(), Seq<char>> {
    if !status_ok {
        Err(operation_failure(op) + ": HTTP "@ + status)
    } else if !success {
        Err("Cloudflare API错误: "@ + errors)
    } else {
        Ok(())
    }
}

impl CloudflareDnsClient {
    /// Judges an answer of operation `op`: `status_ok` tells whether its
    /// HTTP status is a success, `status` is that status as text, `success`
    /// the answer's own success flag and `errors` the text of its errors.
    pub fn check_answer(op: CloudflareOperation, status_ok: bool, status: &str, success: bool, errors: &str) -> (r:
        Result<(), String>)
        ensures
            match (r, answer_judged(op, status_ok, status@, success, errors@)) {
                (Ok(()), Ok(())) => true,
                (Err(e), Err(m)) => e@ == m,
                _ => false,
            },
    {
        if !status_ok {
            let what = match op {
                CloudflareOperation::GetZoneId => "获取Zone ID失败",
                CloudflareOperation::ListDomains => "获取域名列表失败",
                CloudflareOperation::ListDnsRecords => "获取DNS记录失败",
                CloudflareOperation::AddDnsRecord => "添加DNS记录失败",
                CloudflareOperation::DeleteDnsRecord => "删除DNS记录失败",
                CloudflareOperation::UpdateDnsRecord => "更新DNS记录失败",
            };
            let mut e = owned(what);
            push_str(&mut e, ": HTTP ");
            push_str(&mut e, status);
            return Err(e);
        }
        if !success {
            let mut e = owned("Cloudflare API错误: ");
            push_str(&mut e, errors);
            return Err(e);
        }
        Ok(())
    }

    /// The zone id of `domain_name`: that of the first zone the lookup
    /// found, or an error when it found none.
    pub fn zone_id_from(zones: &Vec<CloudflareZone>, domain_name: &str) -> (r: Result<String, String>)
        ensures
            zones@.len() > 0 <==> r is Ok,
            r matches Ok(id) ==> id == zones@[0].id,
            r matches Err(e) ==> e@ == "未找到域名对应的Zone: "@ + domain_name@,
    {
        if zones.len() > 0 {
            Ok(zones[0].id.clone())
        } else {
            let mut e = owned("未找到域名对应的Zone: ");
            push_str(&mut e, domain_name);
            Err(e)
        }
    }

    /// The domains of the account's zones, in order, each hosted at
    /// Cloudflare and without records.
    pub fn zone_domain_names(zones: &Vec<CloudflareZone>) -> (r: Vec<DomainName>)
        ensures
            r@.len() == zones@.len(),
            forall|i: int|
                0 <= i < r@.len() ==> {
                    &&& (#[trigger] r@[i]).name == zones@[i].name
                    &&& r@[i].provider == DnsProvider::CloudFlare
                    &&& r@[i].dns_record@.len() == 0
                },
    {
        let mut out: Vec<DomainName> = Vec::new();
        let mut i: usize = 0;
        while i < zones.len()
            invariant
                i <= zones@.len(),
                out@.len() == i,
                forall|j: int|
                    0 <= j < i ==> {
                        &&& (#[trigger] out@[j]).name == zones@[j].name
                        &&& out@[j].provider == DnsProvider::CloudFlare
                        &&& out@[j].dns_record@.len() == 0
                    },
            decreases zones@.len() - i,
        {
            out.push(DomainName { name: zones[i].name.clone(), provider: DnsProvider::CloudFlare, dns_record: Vec::new() });
            i = i + 1;
        }
        out
    }

    /// The records of a record listing, each converted as
    /// `convert_cf_record_to_internal` says, in order.
    pub fn records_from(list: &Vec<CloudflareDnsRecord>) -> (r: Vec<Record>)
        ensures
            r@.len() == list@.len(),
            forall|i: int|
                0 <= i < r@.len() ==> record_spec(
                    Status::Enable,
                    list@[i].name@,
                    cloudflare_type_from_code(list@[i].record_type@),
                    list@[i].content@,
                    text_or_empty(list@[i].id),
                    list@[i].ttl as i32,
                    #[trigger] r@[i],
                ),
    {
        let mut out: Vec<Record> = Vec::new();
        let mut i: usize = 0;
        while i < list.len()
            invariant
                i <= list@.len(),
                out@.len() == i,
                forall|j: int|
                    0 <= j < i ==> record_spec(
                        Status::Enable,
                        list@[j].name@,
                        cloudflare_type_from_code(list@[j].record_type@),
                        list@[j].content@,
                        text_or_empty(list@[j].id),
                        list@[j].ttl as i32,
                        #[trigger] out@[j],
                    ),
            decreases list@.len() - i,
        {
            let r = Self::convert_cf_record_to_internal(&list[i]);
            out.push(r);
            i = i + 1;
        }
        out
    }
}

/// A record of a type Cloudflare knows, other than MX, comes back from
/// Cloudflare as it was sent: its host, type, value, id and TTL (when the
/// TTL fits in 32 signed bits) are kept.
pub proof fn lemma_cloudflare_round_trip(r: Record, cf: CloudflareDnsRecord, back: Record)
    requires
        is_cloudflare_type(r.record_type),
        r.record_type != Type::MX,
        i32::MIN <= r.ttl <= i32::MAX,
        cf_record_spec(r, cf),
        record_spec(
            Status::Enable,
            cf.name@,
            cloudflare_type_from_code(cf.record_type@),
            cf.content@,
            text_or_empty(cf.id),
            cf.ttl as i32,
            back,
        ),
    ensures
        back.rr@ == r.rr@,
        back.record_type == r.record_type,
        back.value@ == r.value@,
        back.record_id@ == r.record_id@,
        back.ttl == r.ttl,
{
    lemma_type_code_roundtrip(r.record_type);
    if r.record_id@.len() == 0 {
        assert(r.record_id@ =~= Seq::<char>::empty());
    }
    let t = r.ttl;
    assert((((t as u32) as i32) as i64) == t) by (bit_vector)
        requires
            i32::MIN <= t <= i32::MAX,
    ;
}

/// An MX value written as a priority, a space and a host is sent to
/// Cloudflare as that priority and that host.
pub proof fn lemma_mx_value_splits(priority: u32, host: Seq<char>)
    ensures
        mx_split(decimal(priority as nat) + seq![' '] + host) == (Some(priority), host),
{
    let d = decimal(priority as nat);
    let v = d + seq![' '] + host;
    let k = d.len() as int;
    lemma_decimal_reads_back(priority as nat);
    lemma_u32_text_parses_back(priority);
    assert(v[k] == ' ');
    assert forall|j: int| 0 <= j < k implies v[j] != ' ' by {
        assert(v[j] == d[j]);
        assert(is_digit(d[j]));
    }
    assert(exists|i: int| 0 <= i < v.len() && v[i] == ' ');
    let c = choose|i: int| 0 <= i < v.len() && v[i] == ' ' && forall|j: int| 0 <= j < i ==> v[j] != ' ';
    assert(0 <= k < v.len() && v[k] == ' ' && forall|j: int| 0 <= j < k ==> v[j] != ' ');
    assert(c == k) by {
        if c < k {
            assert(v[c] != ' ');
        } else if c > k {
            assert(v[k] != ' ');
        }
    }
    assert(first_space(v) == Some(k));
    assert(v.subrange(0, k) =~= d);
    assert(v.subrange(k + 1, v.len() as int) =~= host);
}

} // verus!

//! The Aliyun domain and DNS client: the calls it makes (method, host,
//! action, version, query parameters and JSON body) and how it reads the
//! answers. Signing and sending the calls is the application's part.

use crate::dns_api::{param_texts, push_param};
use crate::dns_record::{type_code, Record};
use crate::domain_query::DomainQueryResponse;
use crate::gui_model::{DnsProvider, DomainName};
use crate::text::{decimal, i64_to_string, owned, owned_or_empty, push_str, signed_decimal, text_or_empty, u64_to_string};
use vstd::prelude::*;

verus! {

/// The HTTP method of a call.
#[derive(Debug, Clone, Copy, PartialEq, Eq, Structural)]
pub enum HttpMethod {
    Get,
    Post,
}

/// A value of the JSON body: a string or a number.
#[derive(Debug, Clone)]
pub enum BodyValue {
    Text(String),
    Number(i64),
}

/// Mathematical view of a body value.
pub enum BodyField {
    Text(Seq<char>),
    Number(int),
}

/// The view of a body value.
pub open spec fn body_field(v: BodyValue) -> BodyField {
    match v {
        BodyValue::Text(s) => BodyField::Text(s@),
        BodyValue::Number(n) => BodyField::Number(n as int),
    }
}

/// The views of the fields of a JSON body, in the order they are added.
pub open spec fn body_fields(b: Seq<(String, BodyValue)>) -> Seq<(Seq<char>, BodyField)> {
    b.map_values(|x: (String, BodyValue)| (x.0@, body_field(x.1)))
}

/// One call of the Aliyun API.
#[derive(Debug, Clone)]
pub struct AliyunCall {
    pub method: HttpMethod,
    pub host: String,
    pub canonical_uri: String,
    pub query: Vec<(String, String)>,
    pub action: String,
    pub version: String,
    pub body: Vec<(String, BodyValue)>,
}

/// A call's fixed parts: method, host, the root path, action and version.
pub open spec fn call_header(c: AliyunCall, method: HttpMethod, host: Seq<char>, action: Seq<char>, version: Seq<char>) -> bool {
    &&& c.method == method
    &&& c.host@ == host
    &&& c.canonical_uri@ == "/"@
    &&& c.action@ == action
    &&& c.version@ == version
}

/// The host of the domain service.
pub open spec fn domain_host() -> Seq<char> {
    "domain.aliyuncs.com"@
}

/// The host of the DNS service.
pub open spec fn dns_host() -> Seq<char> {
    "dns.aliyuncs.com"@
}

/// The version of the DNS service API.
pub open spec fn dns_version() -> Seq<char> {
    "2015-01-09"@
}

/// A client of the Aliyun domain and DNS services in one region.
#[derive(Debug, Clone)]
pub struct AliyunDnsClient {
    pub access_key_id: String,
    pub access_key_secret: String,
    pub region_id: String,
}

fn push_field(body: &mut Vec<(String, BodyValue)>, key: &str, value: BodyValue)
    ensures
        body_fields(final(body)@) == body_fields(old(body)@).push((key@, body_field(value))),
{
    let ghost before = body@;
    body.push((owned(key), value));
    assert(body_fields(body@) =~= body_fields(before).push((key@, body_field(value))));
}

/// The query of a record write: region, then the record's host, type,
/// value and TTL, after `key` = `id`.
pub open spec fn record_query(region: Seq<char>, key: Seq<char>, id: Seq<char>, r: Record) -> Seq<(Seq<char>, Seq<char>)> {
    seq![
        ("RegionId"@, region),
        (key, id),
        ("RR"@, r.rr@),
        ("Type"@, type_code(r.record_type)),
        ("Value"@, r.value@),
        ("TTL"@, signed_decimal(r.ttl as int)),
    ]
}

/// The body of a record write: `key` = `id`, then host, type, value and TTL.
pub open spec fn record_body(key: Seq<char>, id: Seq<char>, r: Record) -> Seq<(Seq<char>, BodyField)> {
    seq![
        (key, BodyField::Text(id)),
        ("RR"@, BodyField::Text(r.rr@)),
        ("Type"@, BodyField::Text(type_code(r.record_type))),
        ("Value"@, BodyField::Text(r.value@)),
        ("TTL"@, BodyField::Number(r.ttl as int)),
    ]
}

/// The message of an error answer: its code (as JSON text), its message
/// (`Unknown error` when it has none) and its request id.
pub open spec fn api_error_message(code: Seq<char>, message: Option<String>, request_id: Option<String>) -> Seq<char> {
    let m = match message {
        Some(m) => m@,
        None => "Unknown error"@,
    };
    "Aliyun API Error: "@ + code + " - "@ + m + " (RequestId: "@ + text_or_empty(request_id) + ")"@
}

impl AliyunDnsClient {
    /// A client with the given keys, in region `cn-qingdao`.
    pub fn new(access_key_id: String, access_key_secret: String) -> (r: AliyunDnsClient)
        ensures
            r.access_key_id@ == access_key_id@,
            r.access_key_secret@ == access_key_secret@,
            r.region_id@ == "cn-qingdao"@,
    {
        AliyunDnsClient { access_key_id, access_key_secret, region_id: owned("cn-qingdao") }
    }

    /// The same client in region `region_id`.
    pub fn with_region(self, region_id: String) -> (r: AliyunDnsClient)
        ensures
            r.access_key_id == self.access_key_id,
            r.access_key_secret == self.access_key_secret,
            r.region_id == region_id,
    {
        AliyunDnsClient { region_id, ..self }
    }

    /// The call that lists one page of the account's domains.
    pub fn list_domains_call(&self, page_num: u32, page_size: u32) -> (c: AliyunCall)
        ensures
            call_header(c, HttpMethod::Get, domain_host(), "QueryDomainList"@, "2018-01-29"@),
            param_texts(c.query@) == seq![
                ("RegionId"@, self.region_id@),
                ("PageNum"@, decimal(page_num as nat)),
                ("PageSize"@, decimal(page_size as nat)),
            ],
            body_fields(c.body@) == seq![
                ("PageNum"@, BodyField::Number(page_num as int)),
                ("PageSize"@, BodyField::Number(page_size as int)),
            ],
    {
        let mut query: Vec<(String, String)> = Vec::new();
        push_param(&mut query, "RegionId", self.region_id.clone());
        push_param(&mut query, "PageNum", u64_to_string(page_num as u64));
        push_param(&mut query, "PageSize", u64_to_string(page_size as u64));
        let mut body: Vec<(String, BodyValue)> = Vec::new();
        push_field(&mut body, "PageNum", BodyValue::Number(page_num as i64));
        push_field(&mut body, "PageSize", BodyValue::Number(page_size as i64));
        assert(param_texts(query@) =~= seq![
            ("RegionId"@, self.region_id@),
            ("PageNum"@, decimal(page_num as nat)),
            ("PageSize"@, decimal(page_size as nat)),
        ]);
        AliyunCall {
            method: HttpMethod::Get,
            host: owned("domain.aliyuncs.com"),
            canonical_uri: owned("/"),
            query,
            action: owned("QueryDomainList"),
            version: owned("2018-01-29"),
            body,
        }
    }

    /// The call that lists the records of `domain_name`, up to 100 of them.
    pub fn list_dns_records_call(&self, domain_name: &str) -> (c: AliyunCall)
        ensures
            call_header(c, HttpMethod::Get, dns_host(), "DescribeDomainRecords"@, dns_version()),
            param_texts(c.query@) == seq![
                ("RegionId"@, self.region_id@),
                ("DomainName"@, domain_name@),
                ("PageSize"@, "100"@),
            ],
            body_fields(c.body@) == seq![("PageSize"@, BodyField::Number(100))],
    {
        let mut query: Vec<(String, String)> = Vec::new();
        push_param(&mut query, "RegionId", self.region_id.clone());
        push_param(&mut query, "DomainName", owned(domain_name));
        push_param(&mut query, "PageSize", owned("100"));
        let mut body: Vec<(String, BodyValue)> = Vec::new();
        push_field(&mut body, "PageSize", BodyValue::Number(100));
        assert(body_fields(body@) =~= seq![("PageSize"@, BodyField::Number(100))]);
        AliyunCall {
            method: HttpMethod::Get,
            host: owned("dns.aliyuncs.com"),
            canonical_uri: owned("/"),
            query,
            action: owned("DescribeDomainRecords"),
            version: owned("2015-01-09"),
            body,
        }
    }

    fn record_parts(
        &self,
        query: &mut Vec<(String, String)>,
        body: &mut Vec<(String, BodyValue)>,
        key: &str,
        id: &str,
        record: &Record,
    )
        requires
            old(query)@.len() == 0,
            old(body)@.len() == 0,
        ensures
            param_texts(final(query)@) == record_query(self.region_id@, key@, id@, *record),
            body_fields(final(body)@) == record_body(key@, id@, *record),
    {
        push_param(query, "RegionId", self.region_id.clone());
        push_param(query, key, owned(id));
        push_param(query, "RR", record.rr.clone());
        push_param(query, "Type", owned(record.record_type.get_value()));
        push_param(query, "Value", record.value.clone());
        push_param(query, "TTL", i64_to_string(record.ttl));
        push_field(body, key, BodyValue::Text(owned(id)));
        push_field(body, "RR", BodyValue::Text(record.rr.clone()));
        push_field(body, "Type", BodyValue::Text(owned(record.record_type.get_value())));
        push_field(body, "Value", BodyValue::Text(record.value.clone()));
        push_field(body, "TTL", BodyValue::Number(record.ttl));
        assert(param_texts(query@) =~= record_query(self.region_id@, key@, id@, *record));
        assert(body_fields(body@) =~= record_body(key@, id@, *record));
    }

    /// The call that adds `record` under `domain_name`.
    pub fn add_dns_record_call(&self, domain_name: &DomainName, record: &Record) -> (c: AliyunCall)
        ensures
            call_header(c, HttpMethod::Post, dns_host(), "AddDomainRecord"@, dns_version()),
            param_texts(c.query@) == record_query(self.region_id@, "DomainName"@, domain_name.name@, *record),
            body_fields(c.body@) == record_body("DomainName"@, domain_name.name@, *record),
    {
        let mut query: Vec<(String, String)> = Vec::new();
        let mut body: Vec<(String, BodyValue)> = Vec::new();
        self.record_parts(&mut query, &mut body, "DomainName", domain_name.name.as_str(), record);
        AliyunCall {
            method: HttpMethod::Post,
            host: owned("dns.aliyuncs.com"),
            canonical_uri: owned("/"),
            query,
            action: owned("AddDomainRecord"),
            version: owned("2015-01-09"),
            body,
        }
    }

    /// The call that changes the record that `record` names by its id.
    pub fn update_dns_record_call(&self, record: &Record) -> (c: AliyunCall)
        ensures
            call_header(c, HttpMethod::Post, dns_host(), "UpdateDomainRecord"@, dns_version()),
            param_texts(c.query@) == record_query(self.region_id@, "RecordId"@, record.record_id@, *record),
            body_fields(c.body@) == record_body("RecordId"@, record.record_id@, *record),
    {
        let mut query: Vec<(String, String)> = Vec::new();
        let mut body: Vec<(String, BodyValue)> = Vec::new();
        self.record_parts(&mut query, &mut body, "RecordId", record.record_id.as_str(), record);
        AliyunCall {
            method: HttpMethod::Post,
            host: owned("dns.aliyuncs.com"),
            canonical_uri: owned("/"),
            query,
            action: owned("UpdateDomainRecord"),
            version: owned("2015-01-09"),
            body,
        }
    }

    /// The call that deletes record `record_id`.
    pub fn delete_dns_record_call(&self, record_id: &str) -> (c: AliyunCall)
        ensures
            call_header(c, HttpMethod::Post, dns_host(), "DeleteDomainRecord"@, dns_version()),
            param_texts(c.query@) == seq![("RegionId"@, self.region_id@), ("RecordId"@, record_id@)],
            body_fields(c.body@) == seq![("RecordId"@, BodyField::Text(record_id@))],
    {
        let mut query: Vec<(String, String)> = Vec::new();
        push_param(&mut query, "RegionId", self.region_id.clone());
        push_param(&mut query, "RecordId", owned(record_id));
        let mut body: Vec<(String, BodyValue)> = Vec::new();
        push_field(&mut body, "RecordId", BodyValue::Text(owned(record_id)));
        assert(param_texts(query@) =~= seq![("RegionId"@, self.region_id@), ("RecordId"@, record_id@)]);
        assert(body_fields(body@) =~= seq![("RecordId"@, BodyField::Text(record_id@))]);
        AliyunCall {
            method: HttpMethod::Post,
            host: owned("dns.aliyuncs.com"),
            canonical_uri: owned("/"),
            query,
            action: owned("DeleteDomainRecord"),
            version: owned("2015-01-09"),
            body,
        }
    }

    /// Reads the top level of an answer: an answer with a `Code` is an
    /// error, whose message gives the code (as JSON text), the message and
    /// the request id; any other answer is accepted.
    pub fn check_answer(code: Option<String>, message: Option<String>, request_id: Option<String>) -> (r: Result<
        (),
        String,
    >)
        ensures
            code is None <==> r is Ok,
            code matches Some(c) ==> (r matches Err(e) && e@ == api_error_message(c@, message, request_id)),
    {
        match code {
            None => Ok(()),
            Some(c) => {
                let mut e = owned("Aliyun API Error: ");
                push_str(&mut e, c.as_str());
                push_str(&mut e, " - ");
                match &message {
                    Some(m) => push_str(&mut e, m.as_str()),
                    None => push_str(&mut e, "Unknown error"),
                }
                push_str(&mut e, " (RequestId: ");
                let rid = owned_or_empty(&request_id);
                push_str(&mut e, rid.as_str());
                push_str(&mut e, ")");
                Err(e)
            },
        }
    }

    /// The domain names of a domain list page, in order, each hosted at
    /// Aliyun and without records.
    pub fn domain_names(response: &DomainQueryResponse) -> (r: Vec<DomainName>)
        ensures
            r@.len() == response.data.domain@.len(),
            forall|i: int|
                0 <= i < r@.len() ==> {
                    &&& (#[trigger] r@[i]).name@ == response.data.domain@[i].domain_name@
                    &&& r@[i].provider == DnsProvider::Aliyun
                    &&& r@[i].dns_record@.len() == 0
                },
    {
        let list = &response.data.domain;
        let mut out: Vec<DomainName> = Vec::new();
        let mut i: usize = 0;
        while i < list.len()
            invariant
                i <= list@.len(),
                list == &response.data.domain,
                out@.len() == i,
                forall|j: int|
                    0 <= j < i ==> {
                        &&& (#[trigger] out@[j]).name@ == list@[j].domain_name@
                        &&& out@[j].provider == DnsProvider::Aliyun
                        &&& out@[j].dns_record@.len() == 0
                    },
            decreases list@.len() - i,
        {
            out.push(DomainName { provider: DnsProvider::Aliyun, name: list[i].domain_name.clone(), dns_record: Vec::new() });
            i = i + 1;
        }
        out
    }
}

/// The text a list of fields gives under `name`: that of its first field
/// with that name.
pub open spec fn field_text(fields: Seq<(Seq<char>, BodyField)>, name: Seq<char>) -> Option<Seq<char>>
    decreases fields.len(),
{
    if fields.len() == 0 {
        None
    } else if fields[0].0 == name {
        match fields[0].1 {
            BodyField::Text(t) => Some(t),
            BodyField::Number(_) => None,
        }
    } else {
        field_text(fields.drop_first(), name)
    }
}

/// The text a list of parameters gives under `name`: that of its first
/// parameter with that name.
pub open spec fn param_text(params: Seq<(Seq<char>, Seq<char>)>, name: Seq<char>) -> Option<Seq<char>>
    decreases params.len(),
{
    if params.len() == 0 {
        None
    } else if params[0].0 == name {
        Some(params[0].1)
    } else {
        param_text(params.drop_first(), name)
    }
}

/// A call that adds or updates `record` sends the record's host under
/// `RR`, its type code under `Type` and its value under `Value`, in the
/// body and in the query alike, whatever the key (`DomainName` or
/// `RecordId`) that names where it goes.
pub proof fn lemma_record_call_sends_record(c: AliyunCall, region: Seq<char>, key: Seq<char>, id: Seq<char>, record: Record)
    requires
        key == "DomainName"@ || key == "RecordId"@,
        param_texts(c.query@) == record_query(region, key, id, record),
        body_fields(c.body@) == record_body(key, id, record),
    ensures
        field_text(body_fields(c.body@), "RR"@) == Some(record.rr@),
        field_text(body_fields(c.body@), "Type"@) == Some(type_code(record.record_type)),
        field_text(body_fields(c.body@), "Value"@) == Some(record.value@),
        param_text(param_texts(c.query@), "RR"@) == Some(record.rr@),
        param_text(param_texts(c.query@), "Value"@) == Some(record.value@),
        field_text(body_fields(c.body@), "Value"@) == param_text(param_texts(c.query@), "Value"@),
        field_text(body_fields(c.body@), key) == Some(id),
{
    reveal_strlit("DomainName");
    reveal_strlit("RecordId");
    reveal_strlit("RR");
    reveal_strlit("Type");
    reveal_strlit("Value");
    reveal_strlit("RegionId");
    reveal_strlit("TTL");
    assert("RR"@ != "RecordId"@) by {
        assert("RR"@[1] != "RecordId"@[1]);
    }
    assert("RR"@ != "DomainName"@) by {
        assert("RR"@[0] != "DomainName"@[0]);
    }
    assert("Type"@ != "RecordId"@ && "Type"@ != "DomainName"@ && "Type"@ != "RR"@) by {
        assert("Type"@[0] != "RecordId"@[0]);
        assert("Type"@[0] != "DomainName"@[0]);
        assert("Type"@[0] != "RR"@[0]);
    }
    assert("Value"@ != "RecordId"@ && "Value"@ != "DomainName"@ && "Value"@ != "RR"@ && "Value"@ != "Type"@) by {
        assert("Value"@[0] != "RecordId"@[0]);
        assert("Value"@[0] != "DomainName"@[0]);
        assert("Value"@[0] != "RR"@[0]);
        assert("Value"@[0] != "Type"@[0]);
    }
    assert("RR"@ != "RegionId"@ && "Value"@ != "RegionId"@) by {
        assert("RR"@[1] != "RegionId"@[1]);
        assert("Value"@[0] != "RegionId"@[0]);
    }
    reveal_with_fuel(field_text, 5);
    reveal_with_fuel(param_text, 6);
    let b = body_fields(c.body@);
    let q = param_texts(c.query@);
    assert(b.drop_first() =~= record_body(key, id, record).drop_first());
    assert(b.drop_first().drop_first() =~= record_body(key, id, record).drop_first().drop_first());
    assert(b.drop_first().drop_first().drop_first() =~= record_body(key, id, record).drop_first().drop_first().drop_first());
    assert(q.drop_first() =~= record_query(region, key, id, record).drop_first());
    assert(q.drop_first().drop_first() =~= record_query(region, key, id, record).drop_first().drop_first());
    assert(q.drop_first().drop_first().drop_first() =~= record_query(region, key, id, record).drop_first().drop_first().drop_first());
    assert(q.drop_first().drop_first().drop_first().drop_first() =~= record_query(region, key, id, record).drop_first().drop_first().drop_first().drop_first());
    assert(field_text(b, "RR"@) == Some(record.rr@));
    assert(field_text(b, "Type"@) == Some(type_code(record.record_type)));
    assert(field_text(b, "Value"@) == Some(record.value@));
    assert(param_text(q, "RR"@) == Some(record.rr@));
    assert(param_text(q, "Value"@) == Some(record.value@));
}

} // verus!

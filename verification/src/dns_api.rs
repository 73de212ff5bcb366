//! The DNS API layer: provider kinds and configuration, the Aliyun DNS API
//! client's settings, the requests it sends and the records it reads back,
//! and the manager that keeps the configured client.

use crate::dns_record::{record_spec, supported_types, type_code, type_from_code_or_a, Record, Status, Type};
use crate::text::{decimal, owned, owned_or_empty, push_str, text_or_empty, u64_to_string};
use vstd::prelude::*;

verus! {

/// Errors reported by the DNS API layer.
#[derive(Debug, Clone)]
pub enum DnsApiError {
    NetworkError(String),
    ValidationError(String),
    DomainNotFound(String),
    Other(String),
}

/// A DNS service provider.
#[derive(Debug, Clone, PartialEq)]
pub enum DnsProvider {
    Aliyun,
    Cloudflare,
    Other(String),
}

/// Mathematical view of a provider.
pub enum ProviderView {
    Aliyun,
    Cloudflare,
    Other(Seq<char>),
}

impl View for DnsProvider {
    type V = ProviderView;

    open spec fn view(&self) -> ProviderView {
        match self {
            DnsProvider::Aliyun => ProviderView::Aliyun,
            DnsProvider::Cloudflare => ProviderView::Cloudflare,
            DnsProvider::Other(name) => ProviderView::Other(name@),
        }
    }
}

/// The name a provider is shown under.
pub open spec fn provider_display(p: ProviderView) -> Seq<char> {
    match p {
        ProviderView::Aliyun => "阿里云DNS"@,
        ProviderView::Cloudflare => "Cloudflare DNS"@,
        ProviderView::Other(name) => name,
    }
}

impl DnsProvider {
    /// The name the provider is shown under.
    pub fn to_string(&self) -> (r: String)
        ensures
            r@ == provider_display(self@),
    {
        match self {
            DnsProvider::Aliyun => owned("阿里云DNS"),
            DnsProvider::Cloudflare => owned("Cloudflare DNS"),
            DnsProvider::Other(name) => name.clone(),
        }
    }

    /// An independent copy of the provider.
    pub fn duplicate(&self) -> (r: DnsProvider)
        ensures
            r@ == self@,
    {
        match self {
            DnsProvider::Aliyun => DnsProvider::Aliyun,
            DnsProvider::Cloudflare => DnsProvider::Cloudflare,
            DnsProvider::Other(name) => DnsProvider::Other(name.clone()),
        }
    }
}

impl Default for DnsProvider {
    fn default() -> (r: DnsProvider)
        ensures
            r@ == ProviderView::Aliyun,
    {
        DnsProvider::Aliyun
    }
}

/// Settings of the DNS API.
#[derive(Debug, Clone)]
pub struct DnsApiConfig {
    pub provider: DnsProvider,
    pub access_key_id: String,
    pub access_key_secret: String,
    pub endpoint: Option<String>,
    pub timeout: Option<u64>,
    pub retry_count: Option<u32>,
    pub enable_logging: bool,
}

/// Mathematical view of the DNS API settings.
pub struct DnsApiConfigView {
    pub provider: ProviderView,
    pub access_key_id: Seq<char>,
    pub access_key_secret: Seq<char>,
    pub endpoint: Option<Seq<char>>,
    pub timeout: Option<u64>,
    pub retry_count: Option<u32>,
    pub enable_logging: bool,
}

/// The view of an optional text.
pub open spec fn opt_text(s: Option<String>) -> Option<Seq<char>> {
    match s {
        Some(v) => Some(v@),
        None => None,
    }
}

impl View for DnsApiConfig {
    type V = DnsApiConfigView;

    open spec fn view(&self) -> DnsApiConfigView {
        DnsApiConfigView {
            provider: self.provider@,
            access_key_id: self.access_key_id@,
            access_key_secret: self.access_key_secret@,
            endpoint: opt_text(self.endpoint),
            timeout: self.timeout,
            retry_count: self.retry_count,
            enable_logging: self.enable_logging,
        }
    }
}

/// The default settings: Aliyun without keys or endpoint, a 30 second
/// timeout, three retries and logging on.
pub open spec fn default_config() -> DnsApiConfigView {
    DnsApiConfigView {
        provider: ProviderView::Aliyun,
        access_key_id: Seq::empty(),
        access_key_secret: Seq::empty(),
        endpoint: None,
        timeout: Some(30),
        retry_count: Some(3),
        enable_logging: true,
    }
}

fn copy_opt_text(s: &Option<String>) -> (r: Option<String>)
    ensures
        opt_text(r) == opt_text(*s),
{
    match s {
        Some(v) => Some(v.clone()),
        None => None,
    }
}

impl DnsApiConfig {
    /// An independent copy of the settings.
    pub fn duplicate(&self) -> (r: DnsApiConfig)
        ensures
            r@ == self@,
    {
        DnsApiConfig {
            provider: self.provider.duplicate(),
            access_key_id: self.access_key_id.clone(),
            access_key_secret: self.access_key_secret.clone(),
            endpoint: copy_opt_text(&self.endpoint),
            timeout: self.timeout,
            retry_count: self.retry_count,
            enable_logging: self.enable_logging,
        }
    }
}

impl Default for DnsApiConfig {
    fn default() -> (r: DnsApiConfig)
        ensures
            r@ == default_config(),
    {
        DnsApiConfig {
            provider: DnsProvider::Aliyun,
            access_key_id: String::new(),
            access_key_secret: String::new(),
            endpoint: None,
            timeout: Some(30),
            retry_count: Some(3),
            enable_logging: true,
        }
    }
}

/// The endpoint the Aliyun DNS API is reached at unless one is configured.
pub open spec fn aliyun_default_endpoint() -> Seq<char> {
    "https://alidns.aliyuncs.com"@
}

/// The Aliyun DNS API version the client speaks.
pub open spec fn aliyun_api_version() -> Seq<char> {
    "2015-01-09"@
}

/// Settings of an Aliyun DNS API client: its keys, the endpoint and the
/// API version. The HTTP transport is held by the application.
#[derive(Debug, Clone)]
pub struct AliyunDnsApi {
    pub access_key_id: String,
    pub access_key_secret: String,
    pub endpoint: String,
    pub version: String,
}

/// The fields that one record object of the Aliyun API carries, each
/// present only where the object has it with the expected JSON kind
/// (strings for the text fields, unsigned integers for the numbers).
#[derive(Debug, Clone)]
pub struct AliyunRecordFields {
    pub record_id: Option<String>,
    pub rr: Option<String>,
    pub record_type: Option<String>,
    pub value: Option<String>,
    pub ttl: Option<u64>,
    pub priority: Option<u64>,
    pub line: Option<String>,
    pub weight: Option<u64>,
}

/// The record that one Aliyun record object describes: missing text
/// fields are empty, a missing type is `A`, an unknown type is `A`, a
/// missing TTL is 600 and the TTL is cut to 32 bits; the record is enabled.
pub open spec fn parsed_record(f: AliyunRecordFields, r: Record) -> bool {
    let code = match f.record_type {
        Some(t) => t@,
        None => "A"@,
    };
    let ttl: u64 = match f.ttl {
        Some(t) => t,
        None => 600,
    };
    record_spec(
        Status::Enable,
        text_or_empty(f.rr),
        type_from_code_or_a(code),
        text_or_empty(f.value),
        text_or_empty(f.record_id),
        ttl as i32,
        r,
    )
}

/// The message of the error for a response without a record list.
pub open spec fn missing_records_message() -> Seq<char> {
    "响应中缺少DNS记录数据"@
}

/// The message of the error for an empty record id.
pub open spec fn empty_record_id_message() -> Seq<char> {
    "记录ID不能为空"@
}

/// The message of the error for an empty domain name.
pub open spec fn empty_domain_message() -> Seq<char> {
    "域名不能为空"@
}

/// One call of the Aliyun API: the action and its parameters, in the order
/// they are added.
#[derive(Debug, Clone)]
pub struct AliyunRequest {
    pub action: String,
    pub params: Vec<(String, String)>,
}

/// The texts of a list of parameters.
pub open spec fn param_texts(p: Seq<(String, String)>) -> Seq<(Seq<char>, Seq<char>)> {
    p.map_values(|x: (String, String)| (x.0@, x.1@))
}

/// Optional page parameters, in the order the API client adds them.
pub open spec fn page_params(page_number: Option<u32>, page_size: Option<u32>) -> Seq<
    (Seq<char>, Seq<char>),
> {
    let a: Seq<(Seq<char>, Seq<char>)> = match page_number {
        Some(n) => seq![("PageNumber"@, decimal(n as nat))],
        None => Seq::empty(),
    };
    let b: Seq<(Seq<char>, Seq<char>)> = match page_size {
        Some(n) => seq![("PageSize"@, decimal(n as nat))],
        None => Seq::empty(),
    };
    a + b
}

pub(crate) fn push_param(params: &mut Vec<(String, String)>, key: &str, value: String)
    ensures
        param_texts(final(params)@) == param_texts(old(params)@).push((key@, value@)),
{
    let ghost before = params@;
    params.push((owned(key), value));
    assert(param_texts(params@) =~= param_texts(before).push((key@, value@)));
}

fn push_page_params(params: &mut Vec<(String, String)>, page_number: Option<u32>, page_size: Option<u32>)
    ensures
        param_texts(final(params)@) == param_texts(old(params)@) + page_params(page_number, page_size),
{
    let ghost before = param_texts(params@);
    if let Some(n) = page_number {
        push_param(params, "PageNumber", u64_to_string(n as u64));
    }
    let ghost mid = param_texts(params@);
    if let Some(n) = page_size {
        push_param(params, "PageSize", u64_to_string(n as u64));
    }
    assert(param_texts(params@) =~= before + page_params(page_number, page_size));
}

/// The result of one record operation.
#[derive(Debug, Clone)]
pub struct DnsRecordOperationResponse {
    pub record_id: String,
    pub request_id: String,
    pub success: bool,
    pub error_message: Option<String>,
}

/// The result of a batch of record operations.
#[derive(Debug, Clone)]
pub struct BatchDnsRecordOperationResponse {
    pub success_count: u32,
    pub failed_count: u32,
    pub operations: Vec<DnsRecordOperationResponse>,
    pub request_id: String,
}

impl AliyunDnsApi {
    /// A client with the given keys, the default endpoint and API version.
    pub fn new(access_key_id: String, access_key_secret: String) -> (r: AliyunDnsApi)
        ensures
            r.access_key_id@ == access_key_id@,
            r.access_key_secret@ == access_key_secret@,
            r.endpoint@ == aliyun_default_endpoint(),
            r.version@ == aliyun_api_version(),
    {
        AliyunDnsApi {
            access_key_id,
            access_key_secret,
            endpoint: owned("https://alidns.aliyuncs.com"),
            version: owned("2015-01-09"),
        }
    }

    /// The same client talking to `endpoint`.
    pub fn with_endpoint(self, endpoint: String) -> (r: AliyunDnsApi)
        ensures
            r.access_key_id == self.access_key_id,
            r.access_key_secret == self.access_key_secret,
            r.endpoint@ == endpoint@,
            r.version == self.version,
    {
        let mut s = self;
        s.endpoint = endpoint;
        s
    }

    /// Builds the record that one Aliyun record object describes.
    pub fn parse_single_record(&self, f: &AliyunRecordFields) -> (r: Record)
        ensures
            parsed_record(*f, r),
    {
        let record_id = owned_or_empty(&f.record_id);
        let rr = owned_or_empty(&f.rr);
        let record_type = match &f.record_type {
            Some(t) => Type::from_code_or_a(t.as_str()),
            None => Type::A,
        };
        let value = owned_or_empty(&f.value);
        let ttl_raw: u64 = match f.ttl {
            Some(t) => t,
            None => 600,
        };
        let ttl: i32 = ttl_raw as i32;
        Record::new(Status::Enable, rr, record_type, value, record_id, ttl)
    }

    /// Builds the records of a response's record list, in order; a
    /// response without a record list is an error.
    pub fn parse_dns_records(&self, list: &Option<Vec<AliyunRecordFields>>) -> (r: Result<
        Vec<Record>,
        DnsApiError,
    >)
        ensures
            match (list, r) {
                (Some(l), Ok(v)) => v@.len() == l@.len() && forall|i: int|
                    0 <= i < l@.len() ==> parsed_record(#[trigger] l@[i], v@[i]),
                (None, Err(DnsApiError::Other(m))) => m@ == missing_records_message(),
                _ => false,
            },
    {
        match list {
            None => Err(DnsApiError::Other(owned("响应中缺少DNS记录数据"))),
            Some(l) => {
                let mut out: Vec<Record> = Vec::new();
                let mut i: usize = 0;
                while i < l.len()
                    invariant
                        i <= l@.len(),
                        out@.len() == i,
                        forall|j: int| 0 <= j < i ==> parsed_record(#[trigger] l@[j], out@[j]),
                    decreases l@.len() - i,
                {
                    let rec = self.parse_single_record(&l[i]);
                    out.push(rec);
                    i = i + 1;
                }
                Ok(out)
            },
        }
    }

    /// The request that reads one record; an empty record id is refused.
    pub fn get_dns_record_request(&self, record_id: &str) -> (r: Result<AliyunRequest, DnsApiError>)
        ensures
            record_id@.len() == 0 <==> r is Err,
            r matches Err(DnsApiError::ValidationError(m)) ==> m@ == empty_record_id_message(),
            r is Err ==> r matches Err(DnsApiError::ValidationError(_)),
            r matches Ok(q) ==> q.action@ == "DescribeDomainRecordInfo"@ && param_texts(q.params@)
                == seq![("RecordId"@, record_id@)],
    {
        if record_id.unicode_len() == 0 {
            return Err(DnsApiError::ValidationError(owned("记录ID不能为空")));
        }
        let mut params: Vec<(String, String)> = Vec::new();
        push_param(&mut params, "RecordId", owned(record_id));
        assert(param_texts(params@) =~= seq![("RecordId"@, record_id@)]);
        Ok(AliyunRequest { action: owned("DescribeDomainRecordInfo"), params })
    }

    /// The request that lists domains, page by page.
    pub fn query_domain_list_request(&self, page_number: Option<u32>, page_size: Option<u32>) -> (r:
        AliyunRequest)
        ensures
            r.action@ == "DescribeDomains"@,
            param_texts(r.params@) == page_params(page_number, page_size),
    {
        let mut params: Vec<(String, String)> = Vec::new();
        assert(param_texts(params@) =~= Seq::<(Seq<char>, Seq<char>)>::empty());
        push_page_params(&mut params, page_number, page_size);
        assert(param_texts(params@) =~= page_params(page_number, page_size));
        AliyunRequest { action: owned("DescribeDomains"), params }
    }

    /// The request that reads a domain's operation log; an empty domain is refused.
    pub fn query_dns_operation_logs_request(
        &self,
        domain_name: &str,
        page_number: Option<u32>,
        page_size: Option<u32>,
    ) -> (r: Result<AliyunRequest, DnsApiError>)
        ensures
            domain_name@.len() == 0 <==> r is Err,
            r is Err ==> (r matches Err(DnsApiError::ValidationError(m)) && m@ == empty_domain_message()),
            r matches Ok(q) ==> q.action@ == "DescribeRecordLogs"@ && param_texts(q.params@) == seq![
                ("DomainName"@, domain_name@),
            ] + page_params(page_number, page_size),
    {
        if domain_name.unicode_len() == 0 {
            return Err(DnsApiError::ValidationError(owned("域名不能为空")));
        }
        let mut params: Vec<(String, String)> = Vec::new();
        push_param(&mut params, "DomainName", owned(domain_name));
        assert(param_texts(params@) =~= seq![("DomainName"@, domain_name@)]);
        push_page_params(&mut params, page_number, page_size);
        Ok(AliyunRequest { action: owned("DescribeRecordLogs"), params })
    }

    /// The request that enables or disables a record; an empty record id is refused.
    pub fn set_dns_record_status_request(&self, record_id: &str, status: bool) -> (r: Result<
        AliyunRequest,
        DnsApiError,
    >)
        ensures
            record_id@.len() == 0 <==> r is Err,
            r is Err ==> (r matches Err(DnsApiError::ValidationError(m)) && m@
                == empty_record_id_message()),
            r matches Ok(q) ==> q.action@ == "SetDomainRecordStatus"@ && param_texts(q.params@)
                == seq![
                ("RecordId"@, record_id@),
                ("Status"@, if status { "Enable"@ } else { "Disable"@ }),
            ],
    {
        if record_id.unicode_len() == 0 {
            return Err(DnsApiError::ValidationError(owned("记录ID不能为空")));
        }
        let mut params: Vec<(String, String)> = Vec::new();
        push_param(&mut params, "RecordId", owned(record_id));
        let flag = if status {
            owned("Enable")
        } else {
            owned("Disable")
        };
        push_param(&mut params, "Status", flag);
        Ok(AliyunRequest { action: owned("SetDomainRecordStatus"), params })
    }

    /// The request that reads a domain's resolution statistics between two
    /// dates; an empty domain is refused.
    pub fn get_dns_record_statistics_request(
        &self,
        domain_name: &str,
        start_date: &str,
        end_date: &str,
    ) -> (r: Result<AliyunRequest, DnsApiError>)
        ensures
            domain_name@.len() == 0 <==> r is Err,
            r is Err ==> (r matches Err(DnsApiError::ValidationError(m)) && m@ == empty_domain_message()),
            r matches Ok(q) ==> q.action@ == "DescribeDomainStatistics"@ && param_texts(q.params@)
                == seq![
                ("DomainName"@, domain_name@),
                ("StartDate"@, start_date@),
                ("EndDate"@, end_date@),
            ],
    {
        if domain_name.unicode_len() == 0 {
            return Err(DnsApiError::ValidationError(owned("域名不能为空")));
        }
        let mut params: Vec<(String, String)> = Vec::new();
        push_param(&mut params, "DomainName", owned(domain_name));
        push_param(&mut params, "StartDate", owned(start_date));
        push_param(&mut params, "EndDate", owned(end_date));
        Ok(AliyunRequest { action: owned("DescribeDomainStatistics"), params })
    }

    /// The request that deletes record `record_id`.
    pub fn delete_dns_record_request(&self, record_id: &str) -> (r: AliyunRequest)
        ensures
            r.action@ == "DeleteDomainRecord"@,
            param_texts(r.params@) == seq![("RecordId"@, record_id@)],
    {
        let mut params: Vec<(String, String)> = Vec::new();
        push_param(&mut params, "RecordId", owned(record_id));
        assert(param_texts(params@) =~= seq![("RecordId"@, record_id@)]);
        AliyunRequest { action: owned("DeleteDomainRecord"), params }
    }

    /// The request that deletes every record of host `rr` under
    /// `domain_name`, of type `record_type` only when one is given.
    pub fn batch_delete_dns_records_request(&self, domain_name: &str, rr: &str, record_type: Option<Type>) -> (r:
        AliyunRequest)
        ensures
            r.action@ == "DeleteSubDomainRecords"@,
            param_texts(r.params@) == seq![("DomainName"@, domain_name@), ("RR"@, rr@)] + match record_type {
                Some(t) => seq![("Type"@, type_code(t))],
                None => Seq::empty(),
            },
    {
        let mut params: Vec<(String, String)> = Vec::new();
        push_param(&mut params, "DomainName", owned(domain_name));
        push_param(&mut params, "RR", owned(rr));
        if let Some(t) = record_type {
            push_param(&mut params, "Type", owned(t.get_value()));
        }
        assert(param_texts(params@) =~= seq![("DomainName"@, domain_name@), ("RR"@, rr@)] + match record_type {
            Some(t) => seq![("Type"@, type_code(t))],
            None => Seq::<(Seq<char>, Seq<char>)>::empty(),
        });
        AliyunRequest { action: owned("DeleteSubDomainRecords"), params }
    }

    /// The result of a successful operation on record `record_id`.
    pub fn operation_response(record_id: &str, request_id: &str) -> (r: DnsRecordOperationResponse)
        ensures
            r.record_id@ == record_id@,
            r.request_id@ == request_id@,
            r.success,
            r.error_message is None,
    {
        DnsRecordOperationResponse {
            record_id: owned(record_id),
            request_id: owned(request_id),
            success: true,
            error_message: None,
        }
    }

    /// The result of deleting every record of host `rr` under `domain_name`:
    /// the API reports no detail, so one successful operation on
    /// `<rr>.<domain>` is recorded.
    pub fn batch_delete_response(rr: &str, domain_name: &str, request_id: &str) -> (r:
        BatchDnsRecordOperationResponse)
        ensures
            r.success_count == 1,
            r.failed_count == 0,
            r.request_id@ == request_id@,
            r.operations@.len() == 1,
            r.operations@[0].record_id@ == rr@ + "."@ + domain_name@,
            r.operations@[0].request_id@ == request_id@,
            r.operations@[0].success,
            r.operations@[0].error_message is None,
    {
        let mut id = owned(rr);
        push_str(&mut id, ".");
        push_str(&mut id, domain_name);
        let op = DnsRecordOperationResponse {
            record_id: id,
            request_id: owned(request_id),
            success: true,
            error_message: None,
        };
        let mut operations: Vec<DnsRecordOperationResponse> = Vec::new();
        operations.push(op);
        BatchDnsRecordOperationResponse {
            success_count: 1,
            failed_count: 0,
            operations,
            request_id: owned(request_id),
        }
    }
}

/// A configured DNS API client.
#[derive(Debug)]
pub enum DnsClient {
    Aliyun(AliyunDnsApi),
}

/// Why the manager could not set up a client.
#[derive(Debug, Clone)]
pub enum ManagerError {
    /// The access key id or secret is empty.
    MissingKeys,
    /// Cloudflare is configured, and its client is not available here.
    CloudflareNotImplemented,
    /// A provider this layer does not know.
    UnsupportedProvider(String),
}

/// The message an error is reported with.
pub open spec fn manager_error_message(e: ManagerError) -> Seq<char> {
    match e {
        ManagerError::MissingKeys => "DNS API配置不完整：缺少访问密钥"@,
        ManagerError::CloudflareNotImplemented => "Cloudflare DNS API暂未实现"@,
        ManagerError::UnsupportedProvider(name) => "不支持的DNS服务提供商: "@ + name@,
    }
}

impl ManagerError {
    /// The message the error is reported with.
    pub fn message(&self) -> (r: String)
        ensures
            r@ == manager_error_message(*self),
    {
        match self {
            ManagerError::MissingKeys => owned("DNS API配置不完整：缺少访问密钥"),
            ManagerError::CloudflareNotImplemented => owned("Cloudflare DNS API暂未实现"),
            ManagerError::UnsupportedProvider(name) => {
                let mut s = owned("不支持的DNS服务提供商: ");
                push_str(&mut s, name.as_str());
                s
            },
        }
    }
}

/// An access key is missing from the settings.
pub open spec fn keys_missing(c: DnsApiConfigView) -> bool {
    c.access_key_id.len() == 0 || c.access_key_secret.len() == 0
}

/// A client can be set up from the settings: both keys are there and the
/// provider is Aliyun.
pub open spec fn can_initialize(c: DnsApiConfigView) -> bool {
    !keys_missing(c) && c.provider == ProviderView::Aliyun
}

/// The error that setting up a client from `c` ends in, when it fails.
pub open spec fn init_error_is(c: DnsApiConfigView, e: ManagerError) -> bool {
    if keys_missing(c) {
        e is MissingKeys
    } else {
        match c.provider {
            ProviderView::Aliyun => false,
            ProviderView::Cloudflare => e is CloudflareNotImplemented,
            ProviderView::Other(name) => e matches ManagerError::UnsupportedProvider(n) && n@ == name,
        }
    }
}

/// `client` is the Aliyun client that settings `c` describe: their keys,
/// their endpoint or the default one, and the supported API version.
pub open spec fn client_for(client: Option<DnsClient>, c: DnsApiConfigView) -> bool {
    match client {
        Some(DnsClient::Aliyun(a)) => {
            &&& a.access_key_id@ == c.access_key_id
            &&& a.access_key_secret@ == c.access_key_secret
            &&& a.endpoint@ == (match c.endpoint {
                Some(e) => e,
                None => aliyun_default_endpoint(),
            })
            &&& a.version@ == aliyun_api_version()
        },
        None => false,
    }
}

/// Keeps the DNS API settings and the client built from them.
#[derive(Debug)]
pub struct DnsApiManager {
    pub config: DnsApiConfig,
    pub client: Option<DnsClient>,
}

impl DnsApiManager {
    /// A manager with the default settings and no client yet.
    pub fn new() -> (r: DnsApiManager)
        ensures
            r.config@ == default_config(),
            r.client is None,
    {
        DnsApiManager { config: DnsApiConfig::default(), client: None }
    }

    /// A manager for `config`, with its client set up; fails as setting up
    /// the client fails.
    pub fn with_config(config: DnsApiConfig) -> (r: Result<DnsApiManager, ManagerError>)
        ensures
            can_initialize(config@) <==> r is Ok,
            r matches Ok(m) ==> m.config@ == config@ && client_for(m.client, config@),
            r matches Err(e) ==> init_error_is(config@, e),
    {
        let mut m = DnsApiManager { config, client: None };
        match m.initialize_client() {
            Ok(()) => Ok(m),
            Err(e) => Err(e),
        }
    }

    /// Replaces the settings and sets up a client from them. The new
    /// settings are kept whether or not that succeeds; when it fails, the
    /// client in place is left as it was.
    pub fn update_config(&mut self, new_config: DnsApiConfig) -> (r: Result<(), ManagerError>)
        ensures
            final(self).config@ == new_config@,
            can_initialize(new_config@) <==> r is Ok,
            r is Ok ==> client_for(final(self).client, new_config@),
            r matches Err(e) ==> init_error_is(new_config@, e) && final(self).client == old(self).client,
    {
        self.config = new_config;
        self.initialize_client()
    }

    /// A copy of the current settings.
    pub fn get_config(&self) -> (r: DnsApiConfig)
        ensures
            r@ == self.config@,
    {
        self.config.duplicate()
    }

    fn initialize_client(&mut self) -> (r: Result<(), ManagerError>)
        ensures
            final(self).config == old(self).config,
            can_initialize(old(self).config@) <==> r is Ok,
            r is Ok ==> client_for(final(self).client, old(self).config@),
            r matches Err(e) ==> init_error_is(old(self).config@, e) && final(self).client == old(self).client,
    {
        let config = self.config.duplicate();
        if config.access_key_id.unicode_len() == 0 || config.access_key_secret.unicode_len() == 0 {
            return Err(ManagerError::MissingKeys);
        }
        let client = match config.provider {
            DnsProvider::Aliyun => {
                let mut aliyun_client = AliyunDnsApi::new(
                    config.access_key_id.clone(),
                    config.access_key_secret.clone(),
                );
                if let Some(endpoint) = config.endpoint {
                    aliyun_client = aliyun_client.with_endpoint(endpoint);
                }
                DnsClient::Aliyun(aliyun_client)
            },
            DnsProvider::Cloudflare => {
                return Err(ManagerError::CloudflareNotImplemented);
            },
            DnsProvider::Other(name) => {
                return Err(ManagerError::UnsupportedProvider(name));
            },
        };
        self.client = Some(client);
        Ok(())
    }

    /// Makes sure a client is in place: one that is there is kept, else one
    /// is set up from the settings.
    pub fn get_client(&mut self) -> (r: Result<(), ManagerError>)
        ensures
            final(self).config == old(self).config,
            old(self).client is Some ==> r is Ok && final(self).client == old(self).client,
            old(self).client is None ==> {
                &&& (can_initialize(old(self).config@) <==> r is Ok)
                &&& (r is Ok ==> client_for(final(self).client, old(self).config@))
                &&& (r matches Err(e) ==> init_error_is(old(self).config@, e)
                    && final(self).client is None)
            },
    {
        if self.client.is_none() {
            self.initialize_client()
        } else {
            Ok(())
        }
    }

    /// The answer of a connection test, given the outcome of a probe query:
    /// the connection works when the query succeeds or only finds that the
    /// probe domain does not exist; any other error is reported.
    pub fn test_connection_answer(probe: Result<(), DnsApiError>) -> (r: Result<bool, DnsApiError>)
        ensures
            match probe {
                Ok(()) => r == Ok::<bool, DnsApiError>(true),
                Err(DnsApiError::DomainNotFound(_)) => r == Ok::<bool, DnsApiError>(true),
                Err(e) => r == Err::<bool, DnsApiError>(e),
            },
    {
        match probe {
            Ok(()) => Ok(true),
            Err(DnsApiError::DomainNotFound(_)) => Ok(true),
            Err(e) => Err(e),
        }
    }

    /// The record types the DNS API supports.
    pub fn get_supported_record_types(&self) -> (r: Vec<Type>)
        ensures
            r@ == supported_types(),
    {
        let r = vec![
            Type::A,
            Type::AAAA,
            Type::Cname,
            Type::MX,
            Type::TXT,
            Type::NS,
            Type::SOA,
            Type::PTR,
            Type::SRV,
            Type::ForwardUrl,
        ];
        assert(r@ =~= supported_types());
        r
    }
}

impl Default for DnsApiManager {
    fn default() -> (r: DnsApiManager)
        ensures
            r.config@ == default_config(),
            r.client is None,
    {
        DnsApiManager::new()
    }
}

/// Builds DNS API managers.
pub struct DnsApiFactory;

impl DnsApiFactory {
    /// A manager for `config`, with its client set up.
    pub fn create_manager(config: DnsApiConfig) -> (r: Result<DnsApiManager, ManagerError>)
        ensures
            can_initialize(config@) <==> r is Ok,
            r matches Ok(m) ==> m.config@ == config@ && client_for(m.client, config@),
            r matches Err(e) ==> init_error_is(config@, e),
    {
        DnsApiManager::with_config(config)
    }

    /// An Aliyun manager for the given keys, otherwise with default settings.
    pub fn create_aliyun_manager(access_key_id: String, access_key_secret: String) -> (r: Result<
        DnsApiManager,
        ManagerError,
    >)
        ensures
            (access_key_id@.len() != 0 && access_key_secret@.len() != 0) <==> r is Ok,
            r matches Ok(m) ==> m.config@ == (DnsApiConfigView {
                access_key_id: access_key_id@,
                access_key_secret: access_key_secret@,
                ..default_config()
            }),
            r matches Ok(m) ==> client_for(
                m.client,
                DnsApiConfigView {
                    access_key_id: access_key_id@,
                    access_key_secret: access_key_secret@,
                    ..default_config()
                },
            ),
            r is Err ==> r matches Err(ManagerError::MissingKeys),
    {
        let d = DnsApiConfig::default();
        let config = DnsApiConfig { provider: DnsProvider::Aliyun, access_key_id, access_key_secret, ..d };
        DnsApiManager::with_config(config)
    }
}

} // verus!

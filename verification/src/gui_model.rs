//! The models the GUI works with: hosting providers and their credentials,
//! domains and their records, the add/edit forms, pages, and the rows that
//! the local store keeps.

use crate::dns_record::Type;
use crate::text::{owned, push_str, str_eq};
use vstd::prelude::*;

verus! {

/// A DNS hosting provider the GUI can manage.
#[derive(Debug, Clone, Copy, PartialEq, Eq, Structural)]
pub enum DnsProvider {
    Aliyun,
    TencentCloud,
    CloudFlare,
    Tomato,
    Dnspod,
    Aws,
    Google,
}

/// The providers in the order the pickers list them.
pub open spec fn all_providers() -> Seq<DnsProvider> {
    seq![
        DnsProvider::Aliyun,
        DnsProvider::TencentCloud,
        DnsProvider::CloudFlare,
        DnsProvider::Tomato,
        DnsProvider::Google,
        DnsProvider::Aws,
        DnsProvider::Dnspod,
    ]
}

/// The stored code of a provider.
pub open spec fn provider_value(p: DnsProvider) -> Seq<char> {
    match p {
        DnsProvider::CloudFlare => "CloudFlare"@,
        DnsProvider::Aliyun => "Aliyun"@,
        DnsProvider::TencentCloud => "TencentCloud"@,
        DnsProvider::Dnspod => "Dnspod"@,
        DnsProvider::Aws => "Aws"@,
        DnsProvider::Google => "Google"@,
        DnsProvider::Tomato => "Tomato"@,
    }
}

/// The provider a stored code names, if any.
pub open spec fn provider_from_value(s: Seq<char>) -> Option<DnsProvider> {
    if s == "Aliyun"@ {
        Some(DnsProvider::Aliyun)
    } else if s == "TencentCloud"@ {
        Some(DnsProvider::TencentCloud)
    } else if s == "CloudFlare"@ {
        Some(DnsProvider::CloudFlare)
    } else if s == "Tomato"@ {
        Some(DnsProvider::Tomato)
    } else if s == "Google"@ {
        Some(DnsProvider::Google)
    } else if s == "Aws"@ {
        Some(DnsProvider::Aws)
    } else if s == "Dnspod"@ {
        Some(DnsProvider::Dnspod)
    } else {
        None
    }
}

/// The name a provider is shown under.
pub open spec fn provider_name(p: DnsProvider) -> Seq<char> {
    match p {
        DnsProvider::CloudFlare => "Cloudflare"@,
        DnsProvider::Aliyun => "阿里云"@,
        DnsProvider::TencentCloud => "腾讯云"@,
        DnsProvider::Dnspod => "DNSPod"@,
        DnsProvider::Aws => "Amazon Route 53"@,
        DnsProvider::Google => "Google Domains"@,
        DnsProvider::Tomato => "Tomato DNS"@,
    }
}

/// The letter on a provider's badge.
pub open spec fn provider_icon(p: DnsProvider) -> char {
    match p {
        DnsProvider::CloudFlare => 'C',
        DnsProvider::Aliyun => 'A',
        DnsProvider::TencentCloud => 'T',
        DnsProvider::Dnspod => 'D',
        DnsProvider::Aws => 'S',
        DnsProvider::Google => 'G',
        DnsProvider::Tomato => 'T',
    }
}

/// The features a provider's card lists.
pub open spec fn provider_features(p: DnsProvider) -> Seq<Seq<char>> {
    match p {
        DnsProvider::CloudFlare => seq!["安全设置"@, "性能优化"@, "DNSSEC"@, "刷新DNS"@],
        DnsProvider::Aliyun => seq!["域名解析"@, "安全加速"@, "域名转移"@],
        DnsProvider::TencentCloud => seq!["DNS管理"@, "安全防护"@, "CDN加速"@],
        DnsProvider::Dnspod => seq!["域名解析"@, "智能解析"@, "安全监控"@],
        DnsProvider::Aws => seq!["路由策略"@, "健康检查"@, "地理路由"@],
        DnsProvider::Google => seq!["域名转移"@, "隐私保护"@, "DNS配置"@],
        DnsProvider::Tomato => seq!["域名解析"@, "安全防护"@, "DNS缓存"@],
    }
}

/// Key-and-secret credentials.
#[derive(Debug, Clone, PartialEq)]
pub struct ApiKeyCredential {
    pub api_key: String,
    pub api_secret: String,
}

/// Token credentials.
#[derive(Debug, Clone, PartialEq)]
pub struct TokenCredential {
    pub token: String,
}

/// Username-and-password credentials.
#[derive(Debug, Clone, PartialEq)]
pub struct UsernamePasswordCredential {
    pub username: String,
    pub password: String,
}

/// The credentials of a hosting account.
#[derive(Debug, Clone, PartialEq)]
pub enum Credential {
    UsernamePassword(UsernamePasswordCredential),
    Token(TokenCredential),
    ApiKey(ApiKeyCredential),
}

/// Mathematical view of credentials.
pub enum CredentialView {
    UsernamePassword(Seq<char>, Seq<char>),
    Token(Seq<char>),
    ApiKey(Seq<char>, Seq<char>),
}

impl View for Credential {
    type V = CredentialView;

    open spec fn view(&self) -> CredentialView {
        match self {
            Credential::UsernamePassword(c) => CredentialView::UsernamePassword(c.username@, c.password@),
            Credential::Token(c) => CredentialView::Token(c.token@),
            Credential::ApiKey(c) => CredentialView::ApiKey(c.api_key@, c.api_secret@),
        }
    }
}

/// The empty credentials of the kind a provider uses: key and secret for
/// Aliyun, AWS and Google, a token for Cloudflare, and a username and
/// password for the others.
pub open spec fn provider_credential(p: DnsProvider) -> CredentialView {
    match p {
        DnsProvider::Aliyun => CredentialView::ApiKey(Seq::empty(), Seq::empty()),
        DnsProvider::CloudFlare => CredentialView::Token(Seq::empty()),
        DnsProvider::Aws => CredentialView::ApiKey(Seq::empty(), Seq::empty()),
        DnsProvider::Google => CredentialView::ApiKey(Seq::empty(), Seq::empty()),
        _ => CredentialView::UsernamePassword(Seq::empty(), Seq::empty()),
    }
}

impl Credential {
    /// An independent copy of the credentials.
    pub fn duplicate(&self) -> (r: Credential)
        ensures
            r == *self,
    {
        match self {
            Credential::UsernamePassword(c) => Credential::UsernamePassword(
                UsernamePasswordCredential { username: c.username.clone(), password: c.password.clone() },
            ),
            Credential::Token(c) => Credential::Token(TokenCredential { token: c.token.clone() }),
            Credential::ApiKey(c) => Credential::ApiKey(
                ApiKeyCredential { api_key: c.api_key.clone(), api_secret: c.api_secret.clone() },
            ),
        }
    }
}

impl DnsProvider {
    /// Every provider, in the order the pickers list them.
    pub fn all() -> (r: Vec<DnsProvider>)
        ensures
            r@ == all_providers(),
    {
        let r = vec![
            DnsProvider::Aliyun,
            DnsProvider::TencentCloud,
            DnsProvider::CloudFlare,
            DnsProvider::Tomato,
            DnsProvider::Google,
            DnsProvider::Aws,
            DnsProvider::Dnspod,
        ];
        assert(r@ =~= all_providers());
        r
    }

    /// The provider whose stored code is `s`; an unknown code gives `None`.
    pub fn from_value(s: &str) -> (r: Option<DnsProvider>)
        ensures
            r == provider_from_value(s@),
    {
        if str_eq(s, "Aliyun") {
            Some(DnsProvider::Aliyun)
        } else if str_eq(s, "TencentCloud") {
            Some(DnsProvider::TencentCloud)
        } else if str_eq(s, "CloudFlare") {
            Some(DnsProvider::CloudFlare)
        } else if str_eq(s, "Tomato") {
            Some(DnsProvider::Tomato)
        } else if str_eq(s, "Google") {
            Some(DnsProvider::Google)
        } else if str_eq(s, "Aws") {
            Some(DnsProvider::Aws)
        } else if str_eq(s, "Dnspod") {
            Some(DnsProvider::Dnspod)
        } else {
            None
        }
    }

    /// Empty credentials of the kind the provider uses.
    pub fn credential(self) -> (r: Credential)
        ensures
            r@ == provider_credential(self),
    {
        match self {
            DnsProvider::Aliyun => Credential::ApiKey(
                ApiKeyCredential { api_key: String::new(), api_secret: String::new() },
            ),
            DnsProvider::CloudFlare => Credential::Token(TokenCredential { token: String::new() }),
            DnsProvider::Aws => Credential::ApiKey(
                ApiKeyCredential { api_key: String::new(), api_secret: String::new() },
            ),
            DnsProvider::Google => Credential::ApiKey(
                ApiKeyCredential { api_key: String::new(), api_secret: String::new() },
            ),
            _ => Credential::UsernamePassword(
                UsernamePasswordCredential { username: String::new(), password: String::new() },
            ),
        }
    }

    /// The credentials whose form the provider's card shows: always the
    /// empty credentials of the provider's kind.
    pub fn get_credential_form(&self) -> (r: Option<Credential>)
        ensures
            r matches Some(c) && c@ == provider_credential(*self),
    {
        Some(self.credential())
    }

    /// The stored code of the provider.
    pub fn value(&self) -> (r: &'static str)
        ensures
            r@ == provider_value(*self),
    {
        match self {
            DnsProvider::CloudFlare => "CloudFlare",
            DnsProvider::Aliyun => "Aliyun",
            DnsProvider::TencentCloud => "TencentCloud",
            DnsProvider::Dnspod => "Dnspod",
            DnsProvider::Aws => "Aws",
            DnsProvider::Google => "Google",
            DnsProvider::Tomato => "Tomato",
        }
    }

    /// The name the provider is shown under.
    pub fn name(&self) -> (r: &'static str)
        ensures
            r@ == provider_name(*self),
    {
        match self {
            DnsProvider::CloudFlare => "Cloudflare",
            DnsProvider::Aliyun => "阿里云",
            DnsProvider::TencentCloud => "腾讯云",
            DnsProvider::Dnspod => "DNSPod",
            DnsProvider::Aws => "Amazon Route 53",
            DnsProvider::Google => "Google Domains",
            DnsProvider::Tomato => "Tomato DNS",
        }
    }

    /// The letter on the provider's badge.
    pub fn icon(&self) -> (r: char)
        ensures
            r == provider_icon(*self),
    {
        match self {
            DnsProvider::CloudFlare => 'C',
            DnsProvider::Aliyun => 'A',
            DnsProvider::TencentCloud => 'T',
            DnsProvider::Dnspod => 'D',
            DnsProvider::Aws => 'S',
            DnsProvider::Google => 'G',
            DnsProvider::Tomato => 'T',
        }
    }

    /// The features the provider's card lists.
    pub fn features(&self) -> (r: Vec<&'static str>)
        ensures
            r@.len() == provider_features(*self).len(),
            forall|i: int| 0 <= i < r@.len() ==> (#[trigger] r@[i])@ == provider_features(*self)[i],
    {
        let r: Vec<&'static str> = match self {
            DnsProvider::CloudFlare => vec!["安全设置", "性能优化", "DNSSEC", "刷新DNS"],
            DnsProvider::Aliyun => vec!["域名解析", "安全加速", "域名转移"],
            DnsProvider::TencentCloud => vec!["DNS管理", "安全防护", "CDN加速"],
            DnsProvider::Dnspod => vec!["域名解析", "智能解析", "安全监控"],
            DnsProvider::Aws => vec!["路由策略", "健康检查", "地理路由"],
            DnsProvider::Google => vec!["域名转移", "隐私保护", "DNS配置"],
            DnsProvider::Tomato => vec!["域名解析", "安全防护", "DNS缓存"],
        };
        r
    }

    /// The text the provider is displayed as: its stored code.
    pub fn to_string(&self) -> (r: String)
        ensures
            r@ == provider_value(*self),
    {
        owned(self.value())
    }
}

/// Every stored code names back the provider it belongs to.
pub proof fn lemma_provider_value_roundtrip(p: DnsProvider)
    ensures
        provider_from_value(provider_value(p)) == Some(p),
{
    reveal_strlit("Aliyun");
    reveal_strlit("TencentCloud");
    reveal_strlit("CloudFlare");
    reveal_strlit("Tomato");
    reveal_strlit("Google");
    reveal_strlit("Aws");
    reveal_strlit("Dnspod");
    assert("Aliyun"@.len() == 6);
    assert("TencentCloud"@.len() == 12);
    assert("CloudFlare"@.len() == 10);
    assert("Tomato"@.len() == 6);
    assert("Google"@.len() == 6);
    assert("Aws"@.len() == 3);
    assert("Dnspod"@.len() == 6);
    assert("Aliyun"@ != "Tomato"@ && "Aliyun"@ != "Google"@ && "Aliyun"@ != "Dnspod"@) by {
        assert("Aliyun"@[0] != "Tomato"@[0]);
        assert("Aliyun"@[0] != "Google"@[0]);
        assert("Aliyun"@[0] != "Dnspod"@[0]);
    }
    assert("Tomato"@ != "Google"@ && "Tomato"@ != "Dnspod"@) by {
        assert("Tomato"@[0] != "Google"@[0]);
        assert("Tomato"@[0] != "Dnspod"@[0]);
    }
    assert("Google"@ != "Dnspod"@) by {
        assert("Google"@[0] != "Dnspod"@[0]);
    }
}

/// Standing of a domain.
#[derive(Debug, Clone, Copy, PartialEq, Eq, Structural)]
pub enum DomainStatus {
    Active,
    Warning,
    Suspended,
}

/// The label of a domain status.
pub open spec fn domain_status_text(s: DomainStatus) -> Seq<char> {
    match s {
        DomainStatus::Active => "正常"@,
        DomainStatus::Warning => "即将到期"@,
        DomainStatus::Suspended => "暂停"@,
    }
}

impl DomainStatus {
    /// The label of the status.
    pub fn text(&self) -> (r: &'static str)
        ensures
            r@ == domain_status_text(*self),
    {
        match self {
            DomainStatus::Active => "正常",
            DomainStatus::Warning => "即将到期",
            DomainStatus::Suspended => "暂停",
        }
    }
}

/// A domain as the lists show it.
#[derive(Debug, Clone, PartialEq, Eq)]
pub struct Domain {
    pub id: i64,
    pub name: String,
    pub provider: DnsProvider,
    pub status: DomainStatus,
    pub expiry: String,
}

impl Domain {
    /// A domain named `name`, hosted at Tomato, active, with no expiry date.
    pub fn from_name(name: String) -> (r: Domain)
        ensures
            r.id == 0,
            r.name@ == name@,
            r.provider == DnsProvider::Tomato,
            r.status == DomainStatus::Active,
            r.expiry@.len() == 0,
    {
        Domain { id: 0, name, provider: DnsProvider::Tomato, expiry: String::new(), status: DomainStatus::Active }
    }

    /// An independent copy of the domain.
    pub fn duplicate(&self) -> (r: Domain)
        ensures
            r == *self,
    {
        Domain {
            id: self.id,
            name: self.name.clone(),
            provider: self.provider,
            status: self.status,
            expiry: self.expiry.clone(),
        }
    }
}

impl Default for Domain {
    fn default() -> (r: Domain)
        ensures
            r.id == 0,
            r.name@.len() == 0,
            r.provider == DnsProvider::Aliyun,
            r.status == DomainStatus::Active,
            r.expiry@.len() == 0,
    {
        Domain {
            id: 0,
            name: String::new(),
            provider: DnsProvider::Aliyun,
            status: DomainStatus::Active,
            expiry: String::new(),
        }
    }
}

/// A DNS record as the domain views list it.
#[derive(Debug, Clone, PartialEq, Eq)]
pub struct DnsRecord {
    pub name: String,
    pub record_type: String,
    pub value: String,
    pub ttl: String,
}

/// A domain name with its hosting provider and records.
#[derive(Debug, Clone, PartialEq, Eq)]
pub struct DomainName {
    pub provider: DnsProvider,
    pub name: String,
    pub dns_record: Vec<DnsRecord>,
}

impl DomainName {
    /// The name itself.
    pub fn get_domain_name(&self) -> (r: &str)
        ensures
            r@ == self.name@,
    {
        self.name.as_str()
    }

    /// The domain name `name`, hosted at Tomato, without records.
    pub fn from_name(name: String) -> (r: DomainName)
        ensures
            r.name@ == name@,
            r.provider == DnsProvider::Tomato,
            r.dns_record@.len() == 0,
    {
        DomainName { name, provider: DnsProvider::Tomato, dns_record: Vec::new() }
    }

    /// The text the domain name is displayed as: the name itself.
    pub fn to_string(&self) -> (r: String)
        ensures
            r@ == self.name@,
    {
        self.name.clone()
    }
}

impl Default for DomainName {
    fn default() -> (r: DomainName)
        ensures
            r.name@.len() == 0,
            r.provider == DnsProvider::Tomato,
            r.dns_record@.len() == 0,
    {
        DomainName { name: String::new(), provider: DnsProvider::Tomato, dns_record: Vec::new() }
    }
}

/// The fields of the form that adds or edits a DNS record.
#[derive(Debug, Clone)]
pub struct AddDnsField {
    pub record_id: Option<String>,
    pub domain_name: String,
    pub record_name: String,
    pub value: String,
    pub ttl: i32,
    pub record_type: Option<Type>,
}

impl AddDnsField {
    /// Clears the host-record input; every other field is kept.
    pub fn update_value(&mut self)
        ensures
            final(self).record_name@.len() == 0,
            final(self).record_id == old(self).record_id,
            final(self).domain_name == old(self).domain_name,
            final(self).value == old(self).value,
            final(self).ttl == old(self).ttl,
            final(self).record_type == old(self).record_type,
    {
        self.record_name = String::new();
    }

    /// The form accepts every input.
    pub fn validate(&self) -> (r: bool)
        ensures
            r,
    {
        true
    }
}

impl Default for AddDnsField {
    fn default() -> (r: AddDnsField)
        ensures
            r.record_id is None,
            r.record_name@.len() == 0,
            r.domain_name@.len() == 0,
            r.ttl == 600,
            r.record_type == Some(Type::A),
            r.value@.len() == 0,
    {
        AddDnsField {
            record_id: None,
            record_name: String::new(),
            domain_name: String::new(),
            ttl: 600,
            record_type: Some(Type::A),
            value: String::new(),
        }
    }
}

/// The fields of the form that adds a domain.
#[derive(Debug, Clone)]
pub struct AddDomainField {
    pub domain_name: String,
    pub provider: Option<DnsProvider>,
}

impl Default for AddDomainField {
    fn default() -> (r: AddDomainField)
        ensures
            r.domain_name@.len() == 0,
            r.provider == Some(DnsProvider::Aliyun),
    {
        AddDomainField { domain_name: String::new(), provider: Some(DnsProvider::Aliyun) }
    }
}

impl AddDomainField {
    /// Empties the form: no name, and Aliyun as the provider.
    pub fn clear(&mut self)
        ensures
            final(self).domain_name@.len() == 0,
            final(self).provider == Some(DnsProvider::Aliyun),
    {
        self.domain_name = String::new();
        self.provider = Some(DnsProvider::Aliyun);
    }
}

/// Standing of a hosting account.
#[derive(Debug, Clone, Copy, PartialEq, Eq, Structural)]
pub enum ProviderStatus {
    Active,
    Inactive,
    Error,
}

impl Default for ProviderStatus {
    fn default() -> (r: ProviderStatus)
        ensures
            r == ProviderStatus::Inactive,
    {
        ProviderStatus::Inactive
    }
}

/// Progress of a credential check.
#[derive(Debug, Clone, PartialEq)]
pub enum VerificationStatus {
    Unverified,
    Pending,
    Success,
    Failed(String),
}

/// A hosting account as the provider page shows it.
#[derive(Debug, Clone, PartialEq)]
pub struct DomainProvider {
    pub account_id: i64,
    pub provider_name: String,
    pub provider: DnsProvider,
    pub credential: Credential,
    pub is_expanded: bool,
    pub is_adding_domain: bool,
    pub new_domain_name: String,
    pub domains: Vec<Domain>,
    pub status: ProviderStatus,
    pub last_synced_at: Option<String>,
    pub domain_count: usize,
}

/// `a` is a copy of `b`: the same fields, and the same domains in order.
pub open spec fn same_provider(a: DomainProvider, b: DomainProvider) -> bool {
    &&& a.account_id == b.account_id
    &&& a.provider_name == b.provider_name
    &&& a.provider == b.provider
    &&& a.credential == b.credential
    &&& a.is_expanded == b.is_expanded
    &&& a.is_adding_domain == b.is_adding_domain
    &&& a.new_domain_name == b.new_domain_name
    &&& a.domains@ == b.domains@
    &&& a.status == b.status
    &&& a.last_synced_at == b.last_synced_at
    &&& a.domain_count == b.domain_count
}

fn copy_domains(v: &Vec<Domain>) -> (r: Vec<Domain>)
    ensures
        r@ == v@,
{
    let mut out: Vec<Domain> = Vec::new();
    let mut i: usize = 0;
    while i < v.len()
        invariant
            i <= v@.len(),
            out@ == v@.subrange(0, i as int),
        decreases v@.len() - i,
    {
        out.push(v[i].duplicate());
        i = i + 1;
        assert(out@ =~= v@.subrange(0, i as int));
    }
    assert(v@.subrange(0, v@.len() as int) =~= v@);
    out
}

impl DomainProvider {
    /// An independent copy of the account.
    pub fn duplicate(&self) -> (r: DomainProvider)
        ensures
            same_provider(r, *self),
    {
        DomainProvider {
            account_id: self.account_id,
            provider_name: self.provider_name.clone(),
            provider: self.provider,
            credential: self.credential.duplicate(),
            is_expanded: self.is_expanded,
            is_adding_domain: self.is_adding_domain,
            new_domain_name: self.new_domain_name.clone(),
            domains: copy_domains(&self.domains),
            status: self.status,
            last_synced_at: match &self.last_synced_at {
                Some(t) => Some(t.clone()),
                None => None,
            },
            domain_count: self.domain_count,
        }
    }
}

impl AddDnsField {
    /// An independent copy of the form.
    pub fn duplicate(&self) -> (r: AddDnsField)
        ensures
            r == *self,
    {
        AddDnsField {
            record_id: match &self.record_id {
                Some(t) => Some(t.clone()),
                None => None,
            },
            domain_name: self.domain_name.clone(),
            record_name: self.record_name.clone(),
            value: self.value.clone(),
            ttl: self.ttl,
            record_type: self.record_type,
        }
    }
}

/// The form that adds a hosting account.
#[derive(Debug, Clone)]
pub struct AddDomainProviderForm {
    pub provider_name: String,
    pub provider: Option<DnsProvider>,
    pub credential: Option<Credential>,
    pub verification_status: VerificationStatus,
}

impl AddDomainProviderForm {
    /// Empties the form: no name, provider or credentials, nothing verified.
    pub fn clear(&mut self)
        ensures
            final(self).provider_name@.len() == 0,
            final(self).provider is None,
            final(self).credential is None,
            final(self).verification_status is Unverified,
    {
        self.provider_name = String::new();
        self.credential = None;
        self.provider = None;
        self.verification_status = VerificationStatus::Unverified;
    }
}

impl Default for AddDomainProviderForm {
    fn default() -> (r: AddDomainProviderForm)
        ensures
            r.provider_name@.len() == 0,
            r.provider is None,
            r.credential is None,
            r.verification_status is Unverified,
    {
        AddDomainProviderForm {
            provider_name: String::new(),
            provider: None,
            credential: None,
            verification_status: VerificationStatus::Unverified,
        }
    }
}

/// A domain row of the local store; times are seconds since the epoch.
#[derive(Debug, Clone)]
pub struct DomainModal {
    pub id: i64,
    pub name: String,
    pub provider_id: i64,
    pub status: String,
    pub created_at: i64,
    pub updated_at: Option<i64>,
}

/// A DNS record row of the local store; times are seconds since the epoch.
#[derive(Debug, Clone)]
pub struct DnsRecordModal {
    pub id: i64,
    pub domain_id: i64,
    pub record_type: String,
    pub name: String,
    pub value: String,
    pub ttl: i32,
    pub priority: Option<i32>,
    pub enabled: bool,
    pub created_at: i64,
    pub updated_at: Option<i64>,
}

impl DomainModal {
    /// An independent copy of the row.
    pub fn duplicate(&self) -> (r: DomainModal)
        ensures
            r == *self,
    {
        DomainModal {
            id: self.id,
            name: self.name.clone(),
            provider_id: self.provider_id,
            status: self.status.clone(),
            created_at: self.created_at,
            updated_at: self.updated_at,
        }
    }
}

impl DnsRecordModal {
    /// An independent copy of the row.
    pub fn duplicate(&self) -> (r: DnsRecordModal)
        ensures
            r == *self,
    {
        DnsRecordModal {
            id: self.id,
            domain_id: self.domain_id,
            record_type: self.record_type.clone(),
            name: self.name.clone(),
            value: self.value.clone(),
            ttl: self.ttl,
            priority: self.priority,
            enabled: self.enabled,
            created_at: self.created_at,
            updated_at: self.updated_at,
        }
    }
}

/// What a reload refreshes.
#[derive(Debug, Clone, Copy, PartialEq, Eq, Structural)]
pub enum ReloadType {
    Account,
    Domain,
    Record,
}

/// The data a reload brings back.
#[derive(Debug, Clone)]
pub struct ReloadModel {
    pub reload_types: Vec<ReloadType>,
    pub providers: Vec<DomainProvider>,
    pub domains: Vec<DomainModal>,
    pub records: Vec<DnsRecordModal>,
    pub message: String,
    pub total_count: usize,
}

impl ReloadModel {
    /// A reload result holding the given accounts, domains and records,
    /// with no reload kinds and an empty message.
    pub fn new_from(
        providers: Vec<DomainProvider>,
        domains: Vec<DomainModal>,
        dns_records: Vec<DnsRecordModal>,
        total_count: usize,
    ) -> (r: ReloadModel)
        ensures
            r.reload_types@.len() == 0,
            r.providers@ == providers@,
            r.domains@ == domains@,
            r.records@ == dns_records@,
            r.message@.len() == 0,
            r.total_count == total_count,
    {
        ReloadModel {
            reload_types: Vec::new(),
            providers,
            domains,
            records: dns_records,
            message: String::new(),
            total_count,
        }
    }
}

impl Default for ReloadModel {
    fn default() -> (r: ReloadModel)
        ensures
            r.reload_types@.len() == 0,
            r.providers@.len() == 0,
            r.domains@.len() == 0,
            r.records@.len() == 0,
            r.message@.len() == 0,
            r.total_count == 0,
    {
        ReloadModel {
            reload_types: Vec::new(),
            providers: Vec::new(),
            domains: Vec::new(),
            records: Vec::new(),
            message: String::new(),
            total_count: 0,
        }
    }
}

/// The account and domain a view is narrowed to.
#[derive(Debug, Clone)]
pub struct Filter {
    pub selected_provider: Option<DomainProvider>,
    pub selected_domain: Option<Domain>,
}

impl Filter {
    /// Clears both selections.
    pub fn reset(&mut self)
        ensures
            final(self).selected_provider is None,
            final(self).selected_domain is None,
    {
        self.selected_provider = None;
        self.selected_domain = None;
    }
}

impl Default for Filter {
    fn default() -> (r: Filter)
        ensures
            r.selected_provider is None,
            r.selected_domain is None,
    {
        Filter { selected_provider: None, selected_domain: None }
    }
}

/// Sections of the settings page.
#[derive(Debug, Clone, Copy, PartialEq, Eq, Structural)]
pub enum SettingsPage {
    General,
    Appearance,
    Notifications,
}

/// Demonstration pages.
#[derive(Debug, Clone, Copy, PartialEq, Eq, Structural)]
pub enum DemoPage {
    Scrollers,
}

impl DemoPage {
    /// The text the page is displayed as.
    pub fn to_string(&self) -> (r: String)
        ensures
            r@ == "Scrollers"@,
    {
        owned("Scrollers")
    }
}

/// The pages of the application.
#[derive(Debug, Clone, PartialEq, Eq)]
pub enum Page {
    DomainPage,
    AddProvider,
    AddDomain,
    DnsRecord,
    AddRecord,
    EditRecord(DnsRecord),
    Help,
    Settings(SettingsPage),
    Demo(DemoPage),
    Console,
    Dashboard,
    EditDomain,
}

impl DnsRecord {
    /// An independent copy of the record.
    pub fn duplicate(&self) -> (r: DnsRecord)
        ensures
            r == *self,
    {
        DnsRecord {
            name: self.name.clone(),
            record_type: self.record_type.clone(),
            value: self.value.clone(),
            ttl: self.ttl.clone(),
        }
    }
}

/// The name of a settings section, as its variant is spelt.
pub open spec fn settings_page_text(s: SettingsPage) -> Seq<char> {
    match s {
        SettingsPage::General => "General"@,
        SettingsPage::Appearance => "Appearance"@,
        SettingsPage::Notifications => "Notifications"@,
    }
}

/// The text a page is displayed as; the two record pages show their
/// translated labels.
pub open spec fn page_text(p: Page, add_record_label: Seq<char>, edit_record_label: Seq<char>) -> Seq<char> {
    match p {
        Page::AddProvider => "添加托管商"@,
        Page::DomainPage => "page_domain_manage"@,
        Page::AddDomain => "page_add_domain"@,
        Page::DnsRecord => "DnsRecord"@,
        Page::AddRecord => add_record_label,
        Page::EditRecord(_) => edit_record_label,
        Page::Help => "Help"@,
        Page::Settings(s) => "Settings: "@ + settings_page_text(s),
        Page::Demo(_) => "Demo:Scrollers"@,
        Page::Console => "控制台"@,
        Page::Dashboard => "dashboard"@,
        Page::EditDomain => "编辑域名"@,
    }
}

impl Page {
    /// The text the page is displayed as, given the translated labels of
    /// the two record pages.
    pub fn to_display_string(&self, add_record_label: &str, edit_record_label: &str) -> (r: String)
        ensures
            r@ == page_text(*self, add_record_label@, edit_record_label@),
    {
        match self {
            Page::AddProvider => owned("添加托管商"),
            Page::DomainPage => owned("page_domain_manage"),
            Page::AddDomain => owned("page_add_domain"),
            Page::DnsRecord => owned("DnsRecord"),
            Page::AddRecord => owned(add_record_label),
            Page::EditRecord(_) => owned(edit_record_label),
            Page::Help => owned("Help"),
            Page::Settings(s) => {
                let mut t = owned("Settings: ");
                let name = match s {
                    SettingsPage::General => "General",
                    SettingsPage::Appearance => "Appearance",
                    SettingsPage::Notifications => "Notifications",
                };
                push_str(&mut t, name);
                t
            },
            Page::Demo(_) => owned("Demo:Scrollers"),
            Page::Console => owned("控制台"),
            Page::Dashboard => owned("dashboard"),
            Page::EditDomain => owned("编辑域名"),
        }
    }

    /// An independent copy of the page.
    pub fn duplicate(&self) -> (r: Page)
        ensures
            r == *self,
    {
        match self {
            Page::DomainPage => Page::DomainPage,
            Page::AddProvider => Page::AddProvider,
            Page::AddDomain => Page::AddDomain,
            Page::DnsRecord => Page::DnsRecord,
            Page::AddRecord => Page::AddRecord,
            Page::EditRecord(r) => Page::EditRecord(r.duplicate()),
            Page::Help => Page::Help,
            Page::Settings(s) => Page::Settings(*s),
            Page::Demo(d) => Page::Demo(*d),
            Page::Console => Page::Console,
            Page::Dashboard => Page::Dashboard,
            Page::EditDomain => Page::EditDomain,
        }
    }
}

} // verus!

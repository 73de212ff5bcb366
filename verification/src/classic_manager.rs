//! The single-window domain manager: its state, the messages it reacts to,
//! and the step function that applies one message and says which outside
//! work (store, cloud API, window, timers) is to be done next.
//!
//! The application performs each `ManagerEffect` and feeds the resulting
//! message back into `DomainManager::update`.

use crate::app_state::{Language, Locale};
use crate::console::{ConsoleState, ConsoleTab};
use crate::dns_manager::Key;
use crate::dns_record::{type_code, Record, Type};
use crate::gui_model::{
    provider_credential, provider_name, same_provider, AddDnsField, AddDomainField, AddDomainProviderForm,
    ApiKeyCredential, Credential, DnsProvider, DnsRecord, Domain, DomainProvider, DomainStatus, Filter, Page,
    ProviderStatus, SettingsPage, UsernamePasswordCredential, VerificationStatus,
};
use crate::manager::DnsLogEntry;
use crate::sync_handler::SyncResult;
use crate::text::{decimal, i64_to_string, lowercase, owned, push_decimal, push_str, signed_decimal, str_eq, to_lowercase};
use vstd::prelude::*;

verus! {

/// The colour themes the window switches between.
#[derive(Debug, Clone, Copy, PartialEq, Eq, Structural)]
pub enum ManagerTheme {
    Light,
    Dark,
    TokyoNightLight,
    SolarizedDark,
}

/// The window backgrounds, in the order the background button cycles
/// through them; `Plain` is no background picture.
#[derive(Debug, Clone, Copy, PartialEq, Eq, Structural)]
pub enum BackgroundType {
    Plain,
    ChinaRed,
    QipaoGirl,
}

/// The settings the manager itself reads and changes: the locale code,
/// the language, the domains the settings list, and the background.
#[derive(Debug, Clone)]
pub struct ManagerSettings {
    pub locale: String,
    pub language: Language,
    pub domain_names: Vec<Domain>,
    pub background: BackgroundType,
}

/// The counters of the domain list.
#[derive(Debug, Clone, Copy, PartialEq, Eq, Structural)]
pub struct DomainStats {
    pub total: u64,
    pub expiring: usize,
    pub providers: usize,
}

/// The text of a toast: plain text, or a translation key that the view
/// translates in the current locale.
#[derive(Debug, Clone, PartialEq, Eq)]
pub enum ToastText {
    Plain(String),
    Translated(String),
}

/// What a reload brings back.
#[derive(Debug, Clone)]
pub struct ManagerReload {
    pub providers: Vec<DomainProvider>,
    pub domains: Vec<Domain>,
    pub records: Vec<DnsRecord>,
    pub message: String,
    pub total_count: u64,
}

impl ManagerReload {
    /// A reload result holding the given accounts, domains and records,
    /// with an empty message.
    pub fn new_from(
        providers: Vec<DomainProvider>,
        domains: Vec<Domain>,
        records: Vec<DnsRecord>,
        total_count: u64,
    ) -> (r: ManagerReload)
        ensures
            r.providers == providers,
            r.domains == domains,
            r.records == records,
            r.message@.len() == 0,
            r.total_count == total_count,
    {
        ManagerReload { providers, domains, records, message: String::new(), total_count }
    }
}

impl Default for ManagerReload {
    fn default() -> (r: ManagerReload)
        ensures
            r.providers@.len() == 0,
            r.domains@.len() == 0,
            r.records@.len() == 0,
            r.message@.len() == 0,
            r.total_count == 0,
    {
        ManagerReload {
            providers: Vec::new(),
            domains: Vec::new(),
            records: Vec::new(),
            message: String::new(),
            total_count: 0,
        }
    }
}

/// The messages the manager reacts to.
#[derive(Debug, Clone)]
pub enum ManagerMessage {
    Mock,
    Reset,
    Reload,
    ReloadComplete(ManagerReload),
    Started,
    ChangeLocale(Locale),
    LocaleChanged(Locale),
    ToggleTheme,
    DomainSelected(Domain),
    SearchChanged(String),
    AddProviderFormProviderChanged(DnsProvider),
    AddProviderFormNameChanged(String),
    AddProviderFormCredentialChanged(Credential),
    ProviderSelected(Option<DomainProvider>),
    Sync,
    SyncAllDomains,
    ChangePage(Page),
    PageChanged(Page, Page),
    AddDnsProvider,
    ValidateCredential,
    AddCredential,
    DnsProviderChange,
    QueryDnsResult(Vec<Record>),
    QueryDnsLogResult(Vec<DnsLogEntry>),
    DomainDeleted(Domain),
    AddDomainFormChanged(String),
    SubmitDomainForm,
    QueryDomainDnsRecord(Domain),
    DnsProviderSelected(DnsProvider),
    ToHelp,
    KeyInput { key: Key },
    OpenHelp { last_page: Option<Page> },
    CloseHelp,
    QueryDomainResult(Vec<Domain>, DomainProvider),
    DnsDelete(String),
    AddDnsRecord,
    DnsFormNameChanged(String),
    AddDnsFormSubmit,
    DnsFormRecordTypeChanged(Type),
    DnsFormValueChanged(String),
    DnsFormTtlChanged(i32),
    AddDnsFormCancelled,
    DnsRecordDeleted(String),
    Quit,
    OpenWebPage(String),
    SyncAllDomainsComplete(SyncResult),
    DragWindow,
    WindowMinimize,
    WindowMaximize,
    OpenSettings(SettingsPage),
    ChangeBackground(BackgroundType),
    ShowToast(String),
    HideToast,
    ChangeConsoleTab(ConsoleTab),
    ClearConsoleLogs,
    ToggleFloatingWindow,
    CreateFloatingWindow,
    CloseFloatingWindow,
    WindowFocused,
    QuitWrapper,
    EditDnsRecord(usize),
    DeleteDnsRecord(usize),
}

/// Outside work a message asks for, with the message its result comes back
/// as.
#[derive(Debug, Clone)]
pub enum ManagerEffect {
    /// Switch the translations to `locale`.
    SetLocale(Locale),
    /// Write the settings to `config.json`.
    SaveConfig,
    /// Read accounts, the domains of `provider_account` (all when none) and
    /// the domain count from the store on `connection`; answered by
    /// `ReloadComplete`.
    LoadData { connection: u64, provider_account: Option<i64>, domain_id: Option<i64> },
    /// Ask the cloud for the domains of one account; answered by
    /// `QueryDomainResult`.
    FetchProviderDomains(DomainProvider),
    /// Synchronise every account's domains into the store; answered by
    /// `SyncAllDomainsComplete`.
    SyncAllDomains { connection: u64 },
    /// Answer at once with `SyncAllDomainsComplete(result)`.
    SyncFinished(SyncResult),
    /// Store a new account; answered by `Reload`.
    CreateAccount { connection: u64, provider: DnsProvider, username: String, email: String, credential: Credential },
    /// Replace the stored domains of an account by these names; answered by
    /// `Reload`.
    ReplaceAccountDomains { connection: u64, account_id: i64, names: Vec<String> },
    /// Ask the cloud for the records of a domain; answered by
    /// `QueryDnsResult`.
    FetchDnsRecords { domain_name: String },
    /// Delete a record in the cloud; answered by `DnsRecordDeleted`, or by
    /// `ChangePage(DnsRecord)` when nothing was deleted.
    DeleteCloudRecord { record_id: String },
    /// Add a record in the cloud; answered by `ChangePage(AddRecord)`.
    AddCloudRecord(AddDnsField),
    /// End the process.
    Quit,
    /// Open `url` in the system browser.
    OpenWebPage { url: String },
    /// Drag the oldest window.
    DragWindow,
    /// Minimise the oldest window.
    MinimizeWindow,
    /// Maximise or restore the oldest window.
    ToggleMaximizeWindow,
    /// Answer with `HideToast` after three seconds.
    HideToastLater,
}

/// The state of the manager.
#[derive(Debug)]
pub struct DomainManager {
    pub settings: ManagerSettings,
    pub theme: ManagerTheme,
    pub domain_list: Vec<Domain>,
    pub current_page: Page,
    pub current_domain_name: Option<Domain>,
    pub add_domain_field: AddDomainField,
    pub add_domain_provider_form: AddDomainProviderForm,
    pub domain_providers: Vec<DomainProvider>,
    pub last_page: Option<Page>,
    pub in_query: bool,
    pub dns_list: Vec<Record>,
    pub dns_log_list: Vec<DnsLogEntry>,
    pub add_dns_form: AddDnsField,
    pub locale: Locale,
    pub thumb_nail: bool,
    pub unread_notifications: usize,
    pub connection: Option<u64>,
    pub filter: Filter,
    pub search_query: String,
    pub dns_records: Vec<DnsRecord>,
    pub stats: DomainStats,
    pub is_syncing: bool,
    pub message: String,
    pub toast_message: Option<ToastText>,
    pub toast_visible: bool,
    pub console_state: ConsoleState,
    pub floating_window_enabled: bool,
}

// ---------------------------------------------------------------------
// Specification
// ---------------------------------------------------------------------

/// The locale code a locale is saved as.
pub open spec fn locale_code(l: Locale) -> Seq<char> {
    match l {
        Locale::Chinese => "zh_CN"@,
        Locale::English => "en"@,
    }
}

/// The language a locale sets.
pub open spec fn locale_language(l: Locale) -> Language {
    match l {
        Locale::Chinese => Language::ZH,
        Locale::English => Language::EN,
    }
}

/// The account a reload is narrowed to.
pub open spec fn account_of(p: Option<DomainProvider>) -> Option<i64> {
    match p {
        Some(q) => Some(q.account_id),
        None => None,
    }
}

/// The domain whose records a reload reads.
pub open spec fn domain_id_of(d: Option<Domain>) -> Option<i64> {
    match d {
        Some(e) => Some(e.id),
        None => None,
    }
}

/// `new` is `base` after a reload without a store: no accounts, domains or
/// records, a total of zero and an empty message.
pub open spec fn reload_without_store(base: DomainManager, new: DomainManager) -> bool {
    &&& new == (DomainManager {
        domain_providers: new.domain_providers,
        domain_list: new.domain_list,
        dns_records: new.dns_records,
        stats: DomainStats { total: 0, ..base.stats },
        message: new.message,
        ..base
    })
    &&& new.domain_providers@.len() == 0
    &&& new.domain_list@.len() == 0
    &&& new.dns_records@.len() == 0
    &&& new.message@.len() == 0
}

/// A reload from `base`: without a store the lists are emptied at once;
/// with one nothing changes and the store is asked for the data of the
/// selected account and domain.
pub open spec fn reload_outcome(base: DomainManager, new: DomainManager, effects: Seq<ManagerEffect>) -> bool {
    match base.connection {
        None => reload_without_store(base, new) && effects.len() == 0,
        Some(c) => new == base && effects == seq![
            ManagerEffect::LoadData {
                connection: c,
                provider_account: account_of(base.filter.selected_provider),
                domain_id: domain_id_of(base.filter.selected_domain),
            },
        ],
    }
}

/// `new` is `old` with the locale `l` applied: the locale, its code and its
/// language.
pub open spec fn locale_applied(old: DomainManager, new: DomainManager, l: Locale) -> bool {
    &&& new == (DomainManager { locale: l, settings: new.settings, ..old })
    &&& new.settings == (ManagerSettings { locale: new.settings.locale, language: locale_language(l), ..old.settings })
    &&& new.settings.locale@ == locale_code(l)
}

/// `new` is `old` showing page `p`.
pub open spec fn page_shown(old: DomainManager, new: DomainManager, p: Page) -> bool {
    new == (DomainManager { current_page: p, ..old })
}

/// `new` is `old` showing the toast `t`, to be hidden later.
pub open spec fn toast_raised(old: DomainManager, new: DomainManager, t: ToastText, effects: Seq<ManagerEffect>) -> bool {
    &&& new == (DomainManager { toast_message: Some(t), toast_visible: true, ..old })
    &&& effects == seq![ManagerEffect::HideToastLater]
}

/// The sample account the mock data holds.
pub open spec fn mock_provider(p: DomainProvider) -> bool {
    &&& p.account_id == 1
    &&& p.provider_name@.len() == 0
    &&& p.provider == DnsProvider::Aliyun
    &&& p.credential@ == crate::gui_model::CredentialView::UsernamePassword("测试账号"@, "测试密码"@)
    &&& !p.is_expanded
    &&& !p.is_adding_domain
    &&& p.new_domain_name@.len() == 0
    &&& p.domains@.len() == 0
    &&& p.status == ProviderStatus::Inactive
    &&& p.last_synced_at is None
    &&& p.domain_count == 0
}

/// A sample domain of the mock data.
pub open spec fn mock_domain(d: Domain, name: Seq<char>) -> bool {
    &&& d.id == 0
    &&& d.name@ == name
    &&& d.provider == DnsProvider::Aliyun
    &&& d.status == DomainStatus::Active
    &&& d.expiry@.len() == 0
}

/// A sample record of the mock data.
pub open spec fn mock_record(r: DnsRecord, record_type: Seq<char>, name: Seq<char>, value: Seq<char>, ttl: Seq<char>) -> bool {
    &&& r.record_type@ == record_type
    &&& r.name@ == name
    &&& r.value@ == value
    &&& r.ttl@ == ttl
}

/// The mock data: one sample account, four sample domains and five sample
/// records.
pub open spec fn mock_data(providers: Seq<DomainProvider>, domains: Seq<Domain>, records: Seq<DnsRecord>) -> bool {
    &&& providers.len() == 1 && mock_provider(providers[0])
    &&& domains.len() == 4
    &&& mock_domain(domains[0], "example.com"@)
    &&& mock_domain(domains[1], "example2.com"@)
    &&& mock_domain(domains[2], "example3.com"@)
    &&& mock_domain(domains[3], "example4.com"@)
    &&& records.len() == 5
    &&& mock_record(records[0], "A"@, "@"@, "192.0.2.1"@, "自动"@)
    &&& mock_record(records[1], "A"@, "www"@, "192.0.2.1"@, "自动"@)
    &&& mock_record(records[2], "CNAME"@, "mail"@, "mailprovider.com"@, "1小时"@)
    &&& mock_record(records[3], "MX"@, "@"@, "10 mail.example.com"@, "自动"@)
    &&& mock_record(records[4], "TXT"@, "@"@, "\"v=spf1 include:_spf.example.com ~all\""@, "自动"@)
}

/// `row` is how record `r` is listed: its host, type code, value and TTL.
pub open spec fn record_row(r: Record, row: DnsRecord) -> bool {
    &&& row.name@ == r.rr@
    &&& row.record_type@ == type_code(r.record_type)
    &&& row.value@ == r.value@
    &&& row.ttl@ == signed_decimal(r.ttl as int)
}

/// The records of `s` whose id is not `id`, in order.
pub open spec fn records_without(s: Seq<Record>, id: Seq<char>) -> Seq<Record>
    decreases s.len(),
{
    if s.len() == 0 {
        s
    } else {
        let rest = records_without(s.drop_last(), id);
        if s.last().record_id@ == id {
            rest
        } else {
            rest.push(s.last())
        }
    }
}

/// The account synchronising asks about: the selected one, or every
/// account in order when none is selected.
pub open spec fn sync_requests(old: DomainManager, effects: Seq<ManagerEffect>) -> bool {
    match old.filter.selected_provider {
        Some(p) => effects.len() == 1 && (effects[0] matches ManagerEffect::FetchProviderDomains(q) && same_provider(q, p)),
        None => {
            &&& effects.len() == old.domain_providers@.len()
            &&& forall|i: int| 0 <= i < effects.len() ==> ((#[trigger] effects[i]) matches ManagerEffect::FetchProviderDomains(q)
                && same_provider(q, old.domain_providers@[i]))
        },
    }
}

/// What a key press asks for: on the help page `h` closes the help; on any
/// other page `h` in either case opens it, remembering the page.
pub open spec fn key_message(page: Page, key: Key) -> Option<bool> {
    match key {
        Key::Character(c) => if page == Page::Help {
            if c@ == "h"@ { Some(false) } else { None }
        } else {
            if lowercase(c@) == "h"@ { Some(true) } else { None }
        },
        Key::Other => None,
    }
}

/// `new` is `old` after the help page is closed: back to the remembered
/// page, if any.
pub open spec fn help_closed(old: DomainManager, new: DomainManager) -> bool {
    match old.last_page {
        Some(p) => page_shown(old, new, p),
        None => new == old,
    }
}

/// `new` is `old` after the help page is opened from `last`.
pub open spec fn help_opened(old: DomainManager, new: DomainManager, last: Option<Page>) -> bool {
    new == (DomainManager { last_page: last, current_page: Page::Help, ..old })
}

/// How one message changes the manager and which outside work it asks for,
/// in order.
pub open spec fn manager_outcome(old: DomainManager, new: DomainManager, m: ManagerMessage, effects: Seq<ManagerEffect>) -> bool {
    match m {
        ManagerMessage::Mock => {
            &&& new == (DomainManager {
                filter: new.filter,
                domain_providers: new.domain_providers,
                domain_list: new.domain_list,
                dns_records: new.dns_records,
                stats: DomainStats { total: 4, ..old.stats },
                message: new.message,
                ..old
            })
            &&& new.filter.selected_provider is None && new.filter.selected_domain is None
            &&& mock_data(new.domain_providers@, new.domain_list@, new.dns_records@)
            &&& new.message@.len() == 0
            &&& effects.len() == 0
        },
        ManagerMessage::Reset => {
            &&& reload_outcome(
                DomainManager {
                    filter: new.filter,
                    domain_list: new.domain_list,
                    domain_providers: new.domain_providers,
                    ..old
                },
                new,
                effects,
            )
            &&& new.filter.selected_provider is None && new.filter.selected_domain is None
            &&& new.domain_list@.len() == 0 && new.domain_providers@.len() == 0
        },
        ManagerMessage::Reload | ManagerMessage::DnsProviderChange => reload_outcome(old, new, effects),
        ManagerMessage::ReloadComplete(data) => {
            &&& new == (DomainManager {
                domain_providers: data.providers,
                domain_list: data.domains,
                dns_records: data.records,
                stats: DomainStats { total: data.total_count, ..old.stats },
                message: data.message,
                ..old
            })
            &&& effects.len() == 0
        },
        ManagerMessage::Started => {
            &&& effects.len() >= 2
            &&& effects[0] == ManagerEffect::SetLocale(Locale::Chinese)
            &&& effects[1] == ManagerEffect::SaveConfig
            &&& new.settings == (ManagerSettings { locale: new.settings.locale, language: Language::ZH, ..old.settings })
            &&& new.settings.locale@ == "zh_CN"@
            &&& reload_outcome(
                DomainManager { locale: Locale::Chinese, settings: new.settings, ..old },
                new,
                effects.subrange(2, effects.len() as int),
            )
        },
        ManagerMessage::ChangeLocale(l) => {
            &&& locale_applied(old, new, l)
            &&& effects == seq![ManagerEffect::SetLocale(l), ManagerEffect::SaveConfig]
        },
        ManagerMessage::LocaleChanged(l) => locale_applied(old, new, l) && effects == seq![ManagerEffect::SaveConfig],
        ManagerMessage::ToggleTheme => {
            &&& new == (DomainManager {
                theme: if old.theme == ManagerTheme::TokyoNightLight {
                    ManagerTheme::SolarizedDark
                } else {
                    ManagerTheme::TokyoNightLight
                },
                ..old
            })
            &&& effects.len() == 0
        },
        ManagerMessage::DomainSelected(d) => {
            &&& new == (DomainManager { filter: Filter { selected_domain: Some(d), ..old.filter }, ..old })
            &&& effects.len() == 0
        },
        ManagerMessage::SearchChanged(s) => new == (DomainManager { search_query: s, ..old }) && effects.len() == 0,
        ManagerMessage::AddProviderFormProviderChanged(p) => {
            &&& new == (DomainManager {
                add_domain_provider_form: AddDomainProviderForm {
                    provider: Some(p),
                    credential: new.add_domain_provider_form.credential,
                    ..old.add_domain_provider_form
                },
                ..old
            })
            &&& new.add_domain_provider_form.credential matches Some(c) && c@ == provider_credential(p)
            &&& effects.len() == 0
        },
        ManagerMessage::AddProviderFormNameChanged(n) => {
            &&& new == (DomainManager {
                add_domain_provider_form: AddDomainProviderForm { provider_name: n, ..old.add_domain_provider_form },
                ..old
            })
            &&& effects.len() == 0
        },
        ManagerMessage::AddProviderFormCredentialChanged(c) => {
            &&& new == (DomainManager {
                add_domain_provider_form: AddDomainProviderForm { credential: Some(c), ..old.add_domain_provider_form },
                ..old
            })
            &&& effects.len() == 0
        },
        ManagerMessage::ProviderSelected(p) => reload_outcome(
            DomainManager { filter: Filter { selected_provider: p, ..old.filter }, in_query: true, ..old },
            new,
            effects,
        ),
        ManagerMessage::Sync => new == old && sync_requests(old, effects),
        ManagerMessage::SyncAllDomains => {
            &&& new == (DomainManager { is_syncing: true, ..old })
            &&& match old.connection {
                None => effects.len() == 1 && (effects[0] matches ManagerEffect::SyncFinished(SyncResult::Failed(e)) && e@
                    == "数据库连接失败"@),
                Some(c) => effects == seq![ManagerEffect::SyncAllDomains { connection: c }],
            }
        },
        ManagerMessage::ChangePage(p) => page_shown(old, new, p) && effects.len() == 0,
        ManagerMessage::AddDnsProvider => {
            &&& new == (DomainManager {
                add_domain_provider_form: new.add_domain_provider_form,
                current_page: Page::AddProvider,
                ..old
            })
            &&& new.add_domain_provider_form.provider_name@.len() == 0
            &&& new.add_domain_provider_form.provider is None
            &&& new.add_domain_provider_form.credential is None
            &&& new.add_domain_provider_form.verification_status is Unverified
            &&& effects.len() == 0
        },
        ManagerMessage::AddCredential => {
            let form = old.add_domain_provider_form;
            if form.provider is None {
                new == (DomainManager { message: new.message, ..old }) && new.message@ == "请选择提供商类型"@ && effects.len() == 0
            } else if form.credential is None {
                new == (DomainManager { message: new.message, ..old }) && new.message@ == "请提供凭证信息"@ && effects.len() == 0
            } else if old.connection is None {
                new == (DomainManager { message: new.message, ..old }) && new.message@ == "数据库连接未初始化"@ && effects.len()
                    == 0
            } else {
                &&& new == old
                &&& effects.len() == 1
                &&& effects[0] matches ManagerEffect::CreateAccount { connection, provider, username, email, credential }
                &&& connection == old.connection.unwrap()
                &&& provider == form.provider.unwrap()
                &&& username@ == form.provider_name@
                &&& email@ == "example@qq.com"@
                &&& credential == form.credential.unwrap()
            }
        },
        ManagerMessage::QueryDnsResult(records) => {
            &&& new == (DomainManager { dns_records: new.dns_records, ..old })
            &&& new.dns_records@.len() == records@.len()
            &&& forall|i: int| 0 <= i < records@.len() ==> record_row(records@[i], #[trigger] new.dns_records@[i])
            &&& effects.len() == 0
        },
        ManagerMessage::QueryDnsLogResult(logs) => new == (DomainManager { dns_log_list: logs, ..old }) && effects.len() == 0,
        ManagerMessage::AddDomainFormChanged(n) => {
            &&& new == (DomainManager { add_domain_field: AddDomainField { domain_name: n, ..old.add_domain_field }, ..old })
            &&& effects.len() == 0
        },
        ManagerMessage::SubmitDomainForm => page_shown(old, new, Page::DomainPage) && effects.len() == 0,
        ManagerMessage::QueryDomainDnsRecord(d) => {
            &&& new == (DomainManager { current_domain_name: Some(d), current_page: Page::DnsRecord, ..old })
            &&& effects.len() == 1
            &&& effects[0] matches ManagerEffect::FetchDnsRecords { domain_name } && domain_name@ == d.name@
        },
        ManagerMessage::DnsProviderSelected(p) => reload_outcome(
            DomainManager { add_domain_field: AddDomainField { provider: Some(p), ..old.add_domain_field }, ..old },
            new,
            effects,
        ),
        ManagerMessage::ToHelp => page_shown(old, new, Page::Help) && effects.len() == 0,
        ManagerMessage::KeyInput { key } => {
            &&& effects.len() == 0
            &&& match key_message(old.current_page, key) {
                Some(true) => help_opened(old, new, Some(old.current_page)),
                Some(false) => help_closed(old, new),
                None => new == old,
            }
        },
        ManagerMessage::OpenHelp { last_page } => help_opened(old, new, last_page) && effects.len() == 0,
        ManagerMessage::CloseHelp => help_closed(old, new) && effects.len() == 0,
        ManagerMessage::QueryDomainResult(domains, provider) => {
            &&& new == (DomainManager { in_query: false, ..old })
            &&& match old.connection {
                None => effects.len() == 0,
                Some(c) => {
                    &&& effects.len() == 1
                    &&& effects[0] matches ManagerEffect::ReplaceAccountDomains { connection, account_id, names }
                    &&& connection == c
                    &&& account_id == provider.account_id
                    &&& names@.len() == domains@.len()
                    &&& forall|i: int| 0 <= i < names@.len() ==> (#[trigger] names@[i])@ == domains@[i].name@
                },
            }
        },
        ManagerMessage::DnsDelete(id) => new == old && effects == seq![ManagerEffect::DeleteCloudRecord { record_id: id }],
        ManagerMessage::AddDnsRecord => {
            &&& effects.len() == 0
            &&& match old.current_domain_name {
                Some(d) => {
                    &&& new == (DomainManager { add_dns_form: new.add_dns_form, current_page: Page::AddRecord, ..old })
                    &&& new.add_dns_form.domain_name@ == d.name@
                    &&& new.add_dns_form.record_id is None
                    &&& new.add_dns_form.record_name@.len() == 0
                    &&& new.add_dns_form.value@.len() == 0
                    &&& new.add_dns_form.ttl == 600
                    &&& new.add_dns_form.record_type == Some(Type::A)
                },
                None => new == old,
            }
        },
        ManagerMessage::DnsFormNameChanged(n) => {
            &&& new == (DomainManager { add_dns_form: AddDnsField { record_name: n, ..old.add_dns_form }, ..old })
            &&& effects.len() == 0
        },
        ManagerMessage::AddDnsFormSubmit => new == old && effects == seq![ManagerEffect::AddCloudRecord(old.add_dns_form)],
        ManagerMessage::DnsFormRecordTypeChanged(t) => {
            &&& new == (DomainManager { add_dns_form: AddDnsField { record_type: Some(t), ..old.add_dns_form }, ..old })
            &&& effects.len() == 0
        },
        ManagerMessage::DnsFormValueChanged(v) => {
            &&& new == (DomainManager { add_dns_form: AddDnsField { value: v, ..old.add_dns_form }, ..old })
            &&& effects.len() == 0
        },
        ManagerMessage::DnsFormTtlChanged(ttl) => {
            &&& new == (DomainManager { add_dns_form: AddDnsField { ttl, ..old.add_dns_form }, ..old })
            &&& effects.len() == 0
        },
        ManagerMessage::AddDnsFormCancelled => {
            &&& new == (DomainManager { add_dns_form: new.add_dns_form, current_page: Page::DnsRecord, ..old })
            &&& new.add_dns_form.record_id is None
            &&& new.add_dns_form.domain_name@.len() == 0
            &&& new.add_dns_form.record_name@.len() == 0
            &&& new.add_dns_form.value@.len() == 0
            &&& new.add_dns_form.ttl == 600
            &&& new.add_dns_form.record_type == Some(Type::A)
            &&& effects.len() == 0
        },
        ManagerMessage::DnsRecordDeleted(id) => {
            &&& new == (DomainManager { dns_list: new.dns_list, current_page: Page::DnsRecord, ..old })
            &&& new.dns_list@ == records_without(old.dns_list@, id@)
            &&& effects.len() == 0
        },
        ManagerMessage::Quit => new == old && effects == seq![ManagerEffect::Quit],
        ManagerMessage::OpenWebPage(url) => new == old && effects == seq![ManagerEffect::OpenWebPage { url }],
        ManagerMessage::SyncAllDomainsComplete(result) => match result {
            SyncResult::Success => {
                &&& new.message@.len() == 0
                &&& reload_outcome(DomainManager { is_syncing: false, message: new.message, ..old }, new, effects)
            },
            SyncResult::Failed(e) => {
                &&& new == (DomainManager { is_syncing: false, message: new.message, ..old })
                &&& new.message@ == "同步失败: "@ + e@
                &&& effects.len() == 0
            },
            SyncResult::Cancelled => new == (DomainManager { is_syncing: false, ..old }) && effects.len() == 0,
        },
        ManagerMessage::DragWindow => new == old && effects == seq![ManagerEffect::DragWindow],
        ManagerMessage::WindowMinimize => new == old && effects == seq![ManagerEffect::MinimizeWindow],
        ManagerMessage::WindowMaximize => new == old && effects == seq![ManagerEffect::ToggleMaximizeWindow],
        ManagerMessage::OpenSettings(sp) => {
            &&& new == (DomainManager { last_page: Some(old.current_page), current_page: Page::Settings(sp), ..old })
            &&& effects.len() == 0
        },
        ManagerMessage::ChangeBackground(b) => {
            &&& new == (DomainManager { settings: ManagerSettings { background: b, ..old.settings }, ..old })
            &&& effects == seq![ManagerEffect::SaveConfig]
        },
        ManagerMessage::ShowToast(t) => toast_raised(old, new, ToastText::Plain(t), effects),
        ManagerMessage::HideToast => new == (DomainManager { toast_message: None, toast_visible: false, ..old }) && effects.len() == 0,
        ManagerMessage::ChangeConsoleTab(tab) => {
            &&& new == (DomainManager { console_state: ConsoleState { current_tab: tab, ..old.console_state }, ..old })
            &&& effects.len() == 0
        },
        ManagerMessage::ClearConsoleLogs => {
            &&& new == (DomainManager {
                console_state: new.console_state,
                toast_message: new.toast_message,
                toast_visible: true,
                ..old
            })
            &&& new.console_state.api_logs@.len() == 0
            &&& new.console_state.db_logs@.len() == 0
            &&& new.console_state.max_logs == old.console_state.max_logs
            &&& new.console_state.current_tab == old.console_state.current_tab
            &&& new.toast_message matches Some(ToastText::Plain(t)) && t@ == "控制台日志已清空"@
            &&& effects == seq![ManagerEffect::HideToastLater]
        },
        ManagerMessage::ToggleFloatingWindow => {
            &&& new == (DomainManager {
                floating_window_enabled: !old.floating_window_enabled,
                toast_message: new.toast_message,
                toast_visible: true,
                ..old
            })
            &&& new.toast_message matches Some(ToastText::Translated(k)) && k@ == if !old.floating_window_enabled {
                "floating_window_enabled"@
            } else {
                "floating_window_disabled"@
            }
            &&& effects == seq![ManagerEffect::HideToastLater]
        },
        ManagerMessage::CreateFloatingWindow => {
            &&& new == (DomainManager { toast_message: new.toast_message, toast_visible: true, ..old })
            &&& new.toast_message matches Some(ToastText::Translated(k)) && k@ == "floating_window_created"@
            &&& effects == seq![ManagerEffect::HideToastLater]
        },
        ManagerMessage::CloseFloatingWindow => {
            &&& new == (DomainManager {
                floating_window_enabled: false,
                toast_message: new.toast_message,
                toast_visible: true,
                ..old
            })
            &&& new.toast_message matches Some(ToastText::Translated(k)) && k@ == "floating_window_closed"@
            &&& effects == seq![ManagerEffect::HideToastLater]
        },
        ManagerMessage::PageChanged(_, _) | ManagerMessage::ValidateCredential | ManagerMessage::DomainDeleted(_)
        | ManagerMessage::WindowFocused | ManagerMessage::QuitWrapper | ManagerMessage::EditDnsRecord(_)
        | ManagerMessage::DeleteDnsRecord(_) => new == old && effects.len() == 0,
    }
}


/// The messages about data: reloading, the store, the cloud and the locale.
pub open spec fn data_message(m: ManagerMessage) -> bool {
    m is Mock || m is Reset || m is Reload || m is DnsProviderChange || m is ReloadComplete || m is Started || m is ChangeLocale || m is LocaleChanged || m is ProviderSelected || m is Sync || m is SyncAllDomains || m is AddCredential || m is QueryDnsResult || m is QueryDnsLogResult || m is QueryDomainDnsRecord || m is DnsProviderSelected || m is QueryDomainResult || m is DnsDelete || m is DnsRecordDeleted || m is SyncAllDomainsComplete
}

// ---------------------------------------------------------------------
// Implementation
// ---------------------------------------------------------------------

fn one_effect(e: ManagerEffect) -> (r: Vec<ManagerEffect>)
    ensures
        r@ == seq![e],
{
    let mut v: Vec<ManagerEffect> = Vec::new();
    v.push(e);
    v
}

fn mock_domain_named(name: &str) -> (r: Domain)
    ensures
        mock_domain(r, name@),
{
    Domain { id: 0, name: owned(name), provider: DnsProvider::Aliyun, status: DomainStatus::Active, expiry: String::new() }
}

fn mock_record_of(record_type: &str, name: &str, value: &str, ttl: &str) -> (r: DnsRecord)
    ensures
        mock_record(r, record_type@, name@, value@, ttl@),
{
    DnsRecord { record_type: owned(record_type), name: owned(name), value: owned(value), ttl: owned(ttl) }
}

/// The mock data: one sample account, four sample domains and five sample
/// records.
pub fn mock_data_sets() -> (r: (Vec<DomainProvider>, Vec<Domain>, Vec<DnsRecord>))
    ensures
        mock_data(r.0@, r.1@, r.2@),
{
    let mut providers: Vec<DomainProvider> = Vec::new();
    providers.push(
        DomainProvider {
            account_id: 1,
            provider_name: String::new(),
            provider: DnsProvider::Aliyun,
            credential: Credential::UsernamePassword(
                UsernamePasswordCredential { username: owned("测试账号"), password: owned("测试密码") },
            ),
            is_expanded: false,
            is_adding_domain: false,
            new_domain_name: String::new(),
            domains: Vec::new(),
            status: ProviderStatus::Inactive,
            last_synced_at: None,
            domain_count: 0,
        },
    );
    let mut domains: Vec<Domain> = Vec::new();
    domains.push(mock_domain_named("example.com"));
    domains.push(mock_domain_named("example2.com"));
    domains.push(mock_domain_named("example3.com"));
    domains.push(mock_domain_named("example4.com"));
    let mut records: Vec<DnsRecord> = Vec::new();
    records.push(mock_record_of("A", "@", "192.0.2.1", "自动"));
    records.push(mock_record_of("A", "www", "192.0.2.1", "自动"));
    records.push(mock_record_of("CNAME", "mail", "mailprovider.com", "1小时"));
    records.push(mock_record_of("MX", "@", "10 mail.example.com", "自动"));
    records.push(mock_record_of("TXT", "@", "\"v=spf1 include:_spf.example.com ~all\"", "自动"));
    (providers, domains, records)
}

fn record_rows(records: &Vec<Record>) -> (r: Vec<DnsRecord>)
    ensures
        r@.len() == records@.len(),
        forall|i: int| 0 <= i < records@.len() ==> record_row(records@[i], #[trigger] r@[i]),
{
    let mut out: Vec<DnsRecord> = Vec::new();
    let mut i: usize = 0;
    while i < records.len()
        invariant
            i <= records@.len(),
            out@.len() == i,
            forall|j: int| 0 <= j < i ==> record_row(records@[j], #[trigger] out@[j]),
        decreases records@.len() - i,
    {
        let r = &records[i];
        out.push(
            DnsRecord {
                name: r.rr.clone(),
                record_type: owned(r.record_type.get_value()),
                value: r.value.clone(),
                ttl: i64_to_string(r.ttl),
            },
        );
        i = i + 1;
    }
    out
}

fn domain_names(domains: &Vec<Domain>) -> (r: Vec<String>)
    ensures
        r@.len() == domains@.len(),
        forall|i: int| 0 <= i < r@.len() ==> (#[trigger] r@[i])@ == domains@[i].name@,
{
    let mut out: Vec<String> = Vec::new();
    let mut i: usize = 0;
    while i < domains.len()
        invariant
            i <= domains@.len(),
            out@.len() == i,
            forall|j: int| 0 <= j < i ==> (#[trigger] out@[j])@ == domains@[j].name@,
        decreases domains@.len() - i,
    {
        out.push(domains[i].name.clone());
        i = i + 1;
    }
    out
}

fn drop_records(v: &mut Vec<Record>, id: &str)
    ensures
        final(v)@ == records_without(old(v)@, id@),
{
    let ghost before = v@;
    let mut rest: Vec<Record> = Vec::new();
    let mut kept: Vec<Record> = Vec::new();
    std::mem::swap(&mut rest, v);
    let n = rest.len();
    let mut i: usize = 0;
    while i < n
        invariant
            n == before.len(),
            i <= n,
            rest@ == before.subrange(i as int, n as int),
            kept@ == records_without(before.subrange(0, i as int), id@),
        decreases n - i,
    {
        let e = rest.remove(0);
        proof {
            assert(e == before[i as int]);
            assert(before.subrange(0, i + 1).drop_last() =~= before.subrange(0, i as int));
            assert(rest@ =~= before.subrange(i + 1, n as int));
        }
        if !str_eq(e.record_id.as_str(), id) {
            kept.push(e);
        }
        i = i + 1;
    }
    assert(before.subrange(0, n as int) =~= before);
    *v = kept;
}

impl DomainManager {
    fn reload(&mut self) -> (r: Vec<ManagerEffect>)
        ensures
            reload_outcome(*old(self), *final(self), r@),
    {
        match self.connection {
            None => {
                self.domain_providers = Vec::new();
                self.domain_list = Vec::new();
                self.dns_records = Vec::new();
                self.stats.total = 0;
                self.message = String::new();
                Vec::new()
            },
            Some(c) => {
                let provider_account = match &self.filter.selected_provider {
                    Some(p) => Some(p.account_id),
                    None => None,
                };
                let domain_id = match &self.filter.selected_domain {
                    Some(d) => Some(d.id),
                    None => None,
                };
                one_effect(ManagerEffect::LoadData { connection: c, provider_account, domain_id })
            },
        }
    }

    fn apply_locale(&mut self, l: Locale)
        ensures
            locale_applied(*old(self), *final(self), l),
    {
        self.locale = l;
        match l {
            Locale::Chinese => {
                self.settings.locale = owned("zh_CN");
                self.settings.language = Language::ZH;
            },
            Locale::English => {
                self.settings.locale = owned("en");
                self.settings.language = Language::EN;
            },
        }
    }

    fn close_help(&mut self)
        ensures
            help_closed(*old(self), *final(self)),
    {
        let target = match &self.last_page {
            Some(p) => Some(p.duplicate()),
            None => None,
        };
        if let Some(p) = target {
            self.current_page = p;
        }
    }

    fn sync_effects(&self) -> (r: Vec<ManagerEffect>)
        ensures
            sync_requests(*self, r@),
    {
        match &self.filter.selected_provider {
            Some(p) => one_effect(ManagerEffect::FetchProviderDomains(p.duplicate())),
            None => {
                let mut out: Vec<ManagerEffect> = Vec::new();
                let mut i: usize = 0;
                while i < self.domain_providers.len()
                    invariant
                        i <= self.domain_providers@.len(),
                        out@.len() == i,
                        forall|j: int| 0 <= j < i ==> ((#[trigger] out@[j]) matches ManagerEffect::FetchProviderDomains(q)
                            && same_provider(q, self.domain_providers@[j])),
                    decreases self.domain_providers@.len() - i,
                {
                    out.push(ManagerEffect::FetchProviderDomains(self.domain_providers[i].duplicate()));
                    i = i + 1;
                }
                out
            },
        }
    }

    fn add_credential(&mut self) -> (r: Vec<ManagerEffect>)
        ensures
            manager_outcome(*old(self), *final(self), ManagerMessage::AddCredential, r@),
    {
        if self.add_domain_provider_form.provider.is_none() {
            self.message = owned("请选择提供商类型");
            return Vec::new();
        }
        if self.add_domain_provider_form.credential.is_none() {
            self.message = owned("请提供凭证信息");
            return Vec::new();
        }
        match self.connection {
            None => {
                self.message = owned("数据库连接未初始化");
                Vec::new()
            },
            Some(c) => {
                let provider = self.add_domain_provider_form.provider.unwrap();
                let credential = match &self.add_domain_provider_form.credential {
                    Some(cr) => cr.duplicate(),
                    None => Credential::ApiKey(ApiKeyCredential { api_key: String::new(), api_secret: String::new() }),
                };
                one_effect(
                    ManagerEffect::CreateAccount {
                        connection: c,
                        provider,
                        username: self.add_domain_provider_form.provider_name.clone(),
                        email: owned("example@qq.com"),
                        credential,
                    },
                )
            },
        }
    }

    fn handle_key(&mut self, key: Key) -> (r: Vec<ManagerEffect>)
        ensures
            manager_outcome(*old(self), *final(self), ManagerMessage::KeyInput { key }, r@),
    {
        match &key {
            Key::Character(c) => {
                if matches!(self.current_page, Page::Help) {
                    if str_eq(c.as_str(), "h") {
                        self.close_help();
                    }
                } else {
                    let lower = to_lowercase(c.as_str());
                    if str_eq(lower.as_str(), "h") {
                        self.last_page = Some(self.current_page.duplicate());
                        self.current_page = Page::Help;
                    }
                }
            },
            Key::Other => {},
        }
        Vec::new()
    }

    fn raise_toast(&mut self, t: ToastText) -> (r: Vec<ManagerEffect>)
        ensures
            toast_raised(*old(self), *final(self), t, r@),
    {
        self.toast_message = Some(t);
        self.toast_visible = true;
        one_effect(ManagerEffect::HideToastLater)
    }

    /// Applies one message, as `manager_outcome` says, and returns the
    /// outside work it asks for, in order. Submitting the domain form
    /// requires a provider to be chosen.
    pub fn update(&mut self, message: ManagerMessage) -> (r: Vec<ManagerEffect>)
        requires
            message is SubmitDomainForm ==> old(self).add_domain_field.provider is Some,
        ensures
            manager_outcome(*old(self), *final(self), message, r@),
    {
        if matches!(message, ManagerMessage::Mock | ManagerMessage::Reset | ManagerMessage::Reload | ManagerMessage::DnsProviderChange | ManagerMessage::ReloadComplete(..) | ManagerMessage::Started | ManagerMessage::ChangeLocale(..) | ManagerMessage::LocaleChanged(..) | ManagerMessage::ProviderSelected(..) | ManagerMessage::Sync | ManagerMessage::SyncAllDomains | ManagerMessage::AddCredential | ManagerMessage::QueryDnsResult(..) | ManagerMessage::QueryDnsLogResult(..) | ManagerMessage::QueryDomainDnsRecord(..) | ManagerMessage::DnsProviderSelected(..) | ManagerMessage::QueryDomainResult(..) | ManagerMessage::DnsDelete(..) | ManagerMessage::DnsRecordDeleted(..) | ManagerMessage::SyncAllDomainsComplete(..)) {
            self.update_data(message)
        } else {
            self.update_view(message)
        }
    }

    #[verifier::rlimit(100)]
    fn update_data(&mut self, message: ManagerMessage) -> (r: Vec<ManagerEffect>)
        requires
            data_message(message),
        ensures
            manager_outcome(*old(self), *final(self), message, r@),
    {
        match message {
            ManagerMessage::Mock => {
                self.filter.selected_provider = None;
                self.filter.selected_domain = None;
                let (providers, domains, records) = mock_data_sets();
                self.domain_providers = providers;
                self.domain_list = domains;
                self.dns_records = records;
                self.stats.total = 4;
                self.message = String::new();
                Vec::new()
            },
            ManagerMessage::Reset => {
                self.filter.selected_provider = None;
                self.filter.selected_domain = None;
                self.domain_list = Vec::new();
                self.domain_providers = Vec::new();
                self.reload()
            },
            ManagerMessage::Reload => self.reload(),
            ManagerMessage::DnsProviderChange => self.reload(),
            ManagerMessage::ReloadComplete(data) => {
                self.domain_providers = data.providers;
                self.domain_list = data.domains;
                self.dns_records = data.records;
                self.stats.total = data.total_count;
                self.message = data.message;
                Vec::new()
            },
            ManagerMessage::Started => {
                self.apply_locale(Locale::Chinese);
                let mut effects: Vec<ManagerEffect> = Vec::new();
                effects.push(ManagerEffect::SetLocale(Locale::Chinese));
                effects.push(ManagerEffect::SaveConfig);
                let mut more = self.reload();
                let ghost tail = more@;
                effects.append(&mut more);
                assert(effects@.subrange(2, effects@.len() as int) =~= tail);
                effects
            },
            ManagerMessage::ChangeLocale(l) => {
                self.apply_locale(l);
                let mut effects: Vec<ManagerEffect> = Vec::new();
                effects.push(ManagerEffect::SetLocale(l));
                effects.push(ManagerEffect::SaveConfig);
                assert(effects@ =~= seq![ManagerEffect::SetLocale(l), ManagerEffect::SaveConfig]);
                effects
            },
            ManagerMessage::LocaleChanged(l) => {
                self.apply_locale(l);
                one_effect(ManagerEffect::SaveConfig)
            },
            ManagerMessage::ProviderSelected(p) => {
                self.filter.selected_provider = p;
                self.in_query = true;
                self.reload()
            },
            ManagerMessage::Sync => self.sync_effects(),
            ManagerMessage::SyncAllDomains => {
                self.is_syncing = true;
                match self.connection {
                    None => one_effect(ManagerEffect::SyncFinished(SyncResult::Failed(owned("数据库连接失败")))),
                    Some(c) => one_effect(ManagerEffect::SyncAllDomains { connection: c }),
                }
            },
            ManagerMessage::AddCredential => self.add_credential(),
            ManagerMessage::QueryDnsResult(records) => {
                self.dns_records = record_rows(&records);
                Vec::new()
            },
            ManagerMessage::QueryDnsLogResult(logs) => {
                self.dns_log_list = logs;
                Vec::new()
            },
            ManagerMessage::QueryDomainDnsRecord(d) => {
                let name = d.name.clone();
                self.current_domain_name = Some(d);
                self.current_page = Page::DnsRecord;
                one_effect(ManagerEffect::FetchDnsRecords { domain_name: name })
            },
            ManagerMessage::DnsProviderSelected(p) => {
                self.add_domain_field.provider = Some(p);
                self.reload()
            },
            ManagerMessage::QueryDomainResult(domains, provider) => {
                self.in_query = false;
                match self.connection {
                    None => Vec::new(),
                    Some(c) => one_effect(
                        ManagerEffect::ReplaceAccountDomains {
                            connection: c,
                            account_id: provider.account_id,
                            names: domain_names(&domains),
                        },
                    ),
                }
            },
            ManagerMessage::DnsDelete(id) => one_effect(ManagerEffect::DeleteCloudRecord { record_id: id }),
            ManagerMessage::DnsRecordDeleted(id) => {
                drop_records(&mut self.dns_list, id.as_str());
                self.current_page = Page::DnsRecord;
                Vec::new()
            },
            ManagerMessage::SyncAllDomainsComplete(result) => {
                self.is_syncing = false;
                match result {
                    SyncResult::Success => {
                        self.message = String::new();
                        self.reload()
                    },
                    SyncResult::Failed(e) => {
                        let mut m = owned("同步失败: ");
                        push_str(&mut m, e.as_str());
                        self.message = m;
                        Vec::new()
                    },
                    SyncResult::Cancelled => Vec::new(),
                }
            },
            _ => Vec::new(),
        }
    }

    #[verifier::rlimit(100)]
    fn update_view(&mut self, message: ManagerMessage) -> (r: Vec<ManagerEffect>)
        requires
            !data_message(message),
            message is SubmitDomainForm ==> old(self).add_domain_field.provider is Some,
        ensures
            manager_outcome(*old(self), *final(self), message, r@),
    {
        match message {
            ManagerMessage::ToggleTheme => {
                self.theme = match self.theme {
                    ManagerTheme::TokyoNightLight => ManagerTheme::SolarizedDark,
                    _ => ManagerTheme::TokyoNightLight,
                };
                Vec::new()
            },
            ManagerMessage::DomainSelected(d) => {
                self.filter.selected_domain = Some(d);
                Vec::new()
            },
            ManagerMessage::SearchChanged(s) => {
                self.search_query = s;
                Vec::new()
            },
            ManagerMessage::AddProviderFormProviderChanged(p) => {
                self.add_domain_provider_form.provider = Some(p);
                self.add_domain_provider_form.credential = Some(p.credential());
                Vec::new()
            },
            ManagerMessage::AddProviderFormNameChanged(n) => {
                self.add_domain_provider_form.provider_name = n;
                Vec::new()
            },
            ManagerMessage::AddProviderFormCredentialChanged(c) => {
                self.add_domain_provider_form.credential = Some(c);
                Vec::new()
            },
            ManagerMessage::ChangePage(p) => {
                self.current_page = p;
                Vec::new()
            },
            ManagerMessage::AddDnsProvider => {
                self.add_domain_provider_form.clear();
                self.current_page = Page::AddProvider;
                Vec::new()
            },
            ManagerMessage::AddDomainFormChanged(n) => {
                self.add_domain_field.domain_name = n;
                Vec::new()
            },
            ManagerMessage::SubmitDomainForm => {
                self.current_page = Page::DomainPage;
                Vec::new()
            },
            ManagerMessage::ToHelp => {
                self.current_page = Page::Help;
                Vec::new()
            },
            ManagerMessage::KeyInput { key } => self.handle_key(key),
            ManagerMessage::OpenHelp { last_page } => {
                self.last_page = last_page;
                self.current_page = Page::Help;
                Vec::new()
            },
            ManagerMessage::CloseHelp => {
                self.close_help();
                Vec::new()
            },
            ManagerMessage::AddDnsRecord => {
                let name = match &self.current_domain_name {
                    Some(d) => Some(d.name.clone()),
                    None => None,
                };
                if let Some(n) = name {
                    let mut form = AddDnsField::default();
                    form.domain_name = n;
                    self.add_dns_form = form;
                    self.current_page = Page::AddRecord;
                }
                Vec::new()
            },
            ManagerMessage::DnsFormNameChanged(n) => {
                self.add_dns_form.record_name = n;
                Vec::new()
            },
            ManagerMessage::AddDnsFormSubmit => {
                if self.add_dns_form.validate() {
                    one_effect(ManagerEffect::AddCloudRecord(self.add_dns_form.duplicate()))
                } else {
                    Vec::new()
                }
            },
            ManagerMessage::DnsFormRecordTypeChanged(t) => {
                self.add_dns_form.record_type = Some(t);
                Vec::new()
            },
            ManagerMessage::DnsFormValueChanged(v) => {
                self.add_dns_form.value = v;
                Vec::new()
            },
            ManagerMessage::DnsFormTtlChanged(ttl) => {
                self.add_dns_form.ttl = ttl;
                Vec::new()
            },
            ManagerMessage::AddDnsFormCancelled => {
                self.add_dns_form = AddDnsField::default();
                self.current_page = Page::DnsRecord;
                Vec::new()
            },
            ManagerMessage::Quit => one_effect(ManagerEffect::Quit),
            ManagerMessage::OpenWebPage(url) => one_effect(ManagerEffect::OpenWebPage { url }),
            ManagerMessage::DragWindow => one_effect(ManagerEffect::DragWindow),
            ManagerMessage::WindowMinimize => one_effect(ManagerEffect::MinimizeWindow),
            ManagerMessage::WindowMaximize => one_effect(ManagerEffect::ToggleMaximizeWindow),
            ManagerMessage::OpenSettings(sp) => {
                self.last_page = Some(self.current_page.duplicate());
                self.current_page = Page::Settings(sp);
                Vec::new()
            },
            ManagerMessage::ChangeBackground(b) => {
                self.settings.background = b;
                one_effect(ManagerEffect::SaveConfig)
            },
            ManagerMessage::ShowToast(t) => self.raise_toast(ToastText::Plain(t)),
            ManagerMessage::HideToast => {
                self.toast_visible = false;
                self.toast_message = None;
                Vec::new()
            },
            ManagerMessage::ChangeConsoleTab(tab) => {
                self.console_state.current_tab = tab;
                Vec::new()
            },
            ManagerMessage::ClearConsoleLogs => {
                self.console_state.clear_logs();
                self.raise_toast(ToastText::Plain(owned("控制台日志已清空")))
            },
            ManagerMessage::ToggleFloatingWindow => {
                self.floating_window_enabled = !self.floating_window_enabled;
                let key = if self.floating_window_enabled {
                    owned("floating_window_enabled")
                } else {
                    owned("floating_window_disabled")
                };
                self.raise_toast(ToastText::Translated(key))
            },
            ManagerMessage::CreateFloatingWindow => self.raise_toast(
                ToastText::Translated(owned("floating_window_created")),
            ),
            ManagerMessage::CloseFloatingWindow => {
                self.floating_window_enabled = false;
                self.raise_toast(ToastText::Translated(owned("floating_window_closed")))
            },
            ManagerMessage::PageChanged(_, _) => Vec::new(),
            ManagerMessage::ValidateCredential => Vec::new(),
            ManagerMessage::DomainDeleted(_) => Vec::new(),
            ManagerMessage::WindowFocused => Vec::new(),
            ManagerMessage::QuitWrapper => Vec::new(),
            ManagerMessage::EditDnsRecord(_) => Vec::new(),
            ManagerMessage::DeleteDnsRecord(_) => Vec::new(),

            _ => Vec::new(),
        }
    }
}

/// The state every manager starts from, apart from the settings, theme,
/// domains, query flag, locale, connection, status message and total that
/// `default` and `new` choose: the domain page, nothing selected, typed or
/// listed, empty forms, no toast, an empty console.
pub open spec fn start_common(r: DomainManager) -> bool {
    &&& r.current_page == Page::DomainPage
    &&& r.current_domain_name is None
    &&& r.add_domain_field.domain_name@.len() == 0
    &&& r.add_domain_field.provider == Some(DnsProvider::Aliyun)
    &&& r.add_domain_provider_form.provider_name@.len() == 0
    &&& r.add_domain_provider_form.provider is None
    &&& r.add_domain_provider_form.credential is None
    &&& r.add_domain_provider_form.verification_status is Unverified
    &&& r.domain_providers@.len() == 0
    &&& r.last_page is None
    &&& r.dns_list@.len() == 0
    &&& r.dns_log_list@.len() == 0
    &&& r.add_dns_form.record_id is None
    &&& r.add_dns_form.domain_name@.len() == 0
    &&& r.add_dns_form.record_name@.len() == 0
    &&& r.add_dns_form.value@.len() == 0
    &&& r.add_dns_form.ttl == 600
    &&& r.add_dns_form.record_type == Some(Type::A)
    &&& !r.thumb_nail
    &&& r.unread_notifications == 0
    &&& r.filter.selected_provider is None
    &&& r.filter.selected_domain is None
    &&& r.search_query@.len() == 0
    &&& r.dns_records@.len() == 0
    &&& r.stats.expiring == 0
    &&& r.stats.providers == 0
    &&& !r.is_syncing
    &&& r.toast_message is None
    &&& !r.toast_visible
    &&& r.console_state.current_tab == ConsoleTab::ApiRequests
    &&& r.console_state.api_logs@.len() == 0
    &&& r.console_state.db_logs@.len() == 0
    &&& r.console_state.max_logs == 1000
    &&& !r.floating_window_enabled
}

impl Default for DomainManager {
    /// A manager without a store: the dark theme, the Chinese locale, a
    /// query shown as running, "加载中。。。" as its message, a total of 10,
    /// and the settings `en` / Chinese with no domains and no background.
    fn default() -> (r: DomainManager)
        ensures
            start_common(r),
            r.settings.locale@ == "en"@,
            r.settings.language == Language::ZH,
            r.settings.domain_names@.len() == 0,
            r.settings.background == BackgroundType::Plain,
            r.theme == ManagerTheme::Dark,
            r.domain_list@.len() == 0,
            r.in_query,
            r.locale == Locale::Chinese,
            r.connection is None,
            r.message@ == "加载中。。。"@,
            r.stats.total == 10,
    {
        DomainManager {
            settings: ManagerSettings {
                locale: owned("en"),
                language: Language::ZH,
                domain_names: Vec::new(),
                background: BackgroundType::Plain,
            },
            theme: ManagerTheme::Dark,
            domain_list: Vec::new(),
            current_page: Page::DomainPage,
            current_domain_name: None,
            add_domain_field: AddDomainField::default(),
            add_domain_provider_form: AddDomainProviderForm::default(),
            domain_providers: Vec::new(),
            last_page: None,
            in_query: true,
            dns_list: Vec::new(),
            dns_log_list: Vec::new(),
            add_dns_form: AddDnsField::default(),
            locale: Locale::Chinese,
            thumb_nail: false,
            unread_notifications: 0,
            connection: None,
            filter: Filter::default(),
            search_query: String::new(),
            dns_records: Vec::new(),
            stats: DomainStats { total: 10, expiring: 0, providers: 0 },
            is_syncing: false,
            message: owned("加载中。。。"),
            toast_message: None,
            toast_visible: false,
            console_state: ConsoleState::default(),
            floating_window_enabled: false,
        }
    }
}

fn copy_domain_list(v: &Vec<Domain>) -> (r: Vec<Domain>)
    ensures
        r@ == v@,
{
    let mut out: Vec<Domain> = Vec::new();
    let mut i: usize = 0;
    while i < v.len()
        invariant
            i <= v@.len(),
            out@ == v@.subrange(0, i as int),
        decreases v@.len() - i,
    {
        out.push(v[i].duplicate());
        i = i + 1;
        assert(out@ =~= v@.subrange(0, i as int));
    }
    assert(v@.subrange(0, v@.len() as int) =~= v@);
    out
}

impl DomainManager {
    /// A manager on the store `connection`, with settings `settings` shown
    /// in `locale`: the light theme, the domains the settings list, no
    /// query running, and otherwise as `default`.
    pub fn new(settings: ManagerSettings, locale: Locale, connection: u64) -> (r: DomainManager)
        ensures
            start_common(r),
            r.settings == settings,
            r.theme == ManagerTheme::Light,
            r.domain_list@ == settings.domain_names@,
            !r.in_query,
            r.locale == locale,
            r.connection == Some(connection),
            r.message@ == "加载中。。。"@,
            r.stats.total == 10,
    {
        let domain_list = copy_domain_list(&settings.domain_names);
        let mut m = DomainManager::default();
        m.theme = ManagerTheme::Light;
        m.domain_list = domain_list;
        m.in_query = false;
        m.locale = locale;
        m.connection = Some(connection);
        m.settings = settings;
        m
    }
}

/// Opening the help page from page `p` and closing it again shows `p`.
pub proof fn lemma_help_round_trip(s: DomainManager, mid: DomainManager, end: DomainManager, p: Page, e1: Seq<ManagerEffect>, e2: Seq<ManagerEffect>)
    requires
        manager_outcome(s, mid, ManagerMessage::OpenHelp { last_page: Some(p) }, e1),
        manager_outcome(mid, end, ManagerMessage::CloseHelp, e2),
    ensures
        end.current_page == p,
        end == (DomainManager { last_page: Some(p), current_page: p, ..s }),
        e1.len() == 0 && e2.len() == 0,
{
}


/// One row of the domain list: the domain, and whether it is the selected
/// one.
#[derive(Debug, Clone)]
pub struct DomainListRow {
    pub domain: Domain,
    pub selected: bool,
}

/// What the domain list shows: its title, the label of the sync button,
/// the domains of the selected provider in order, and the two lines of the
/// empty state when there are none.
#[derive(Debug, Clone)]
pub struct DomainListRows {
    pub title: String,
    pub sync_label: String,
    pub rows: Vec<DomainListRow>,
    pub empty_state: Option<(String, String)>,
}

/// The domains of `s` hosted by `provider` (all of them when none is
/// selected), in order.
pub open spec fn domains_shown(s: Seq<Domain>, provider: Option<DnsProvider>) -> Seq<Domain>
    decreases s.len(),
{
    if s.len() == 0 {
        s
    } else {
        let rest = domains_shown(s.drop_last(), provider);
        if provider matches Some(p) && s.last().provider != p {
            rest
        } else {
            rest.push(s.last())
        }
    }
}

/// `a` and `b` hold the same domain.
pub open spec fn same_domain(a: Domain, b: Domain) -> bool {
    &&& a.id == b.id
    &&& a.name@ == b.name@
    &&& a.provider == b.provider
    &&& a.status == b.status
    &&& a.expiry@ == b.expiry@
}

/// The title of the domain list: "域名管理", or the selected account's
/// name and provider.
pub open spec fn domain_list_title(selected: Option<DomainProvider>) -> Seq<char> {
    match selected {
        None => "域名管理"@,
        Some(p) => p.provider_name@ + " 域名 ["@ + provider_name(p.provider) + "]"@,
    }
}

/// The provider kind a selected account narrows the list to.
pub open spec fn provider_kind(selected: Option<DomainProvider>) -> Option<DnsProvider> {
    match selected {
        Some(p) => Some(p.provider),
        None => None,
    }
}

fn domain_eq(a: &Domain, b: &Domain) -> (r: bool)
    ensures
        r == same_domain(*a, *b),
{
    a.id == b.id && str_eq(a.name.as_str(), b.name.as_str()) && a.provider == b.provider && a.status == b.status
        && str_eq(a.expiry.as_str(), b.expiry.as_str())
}

/// The domain list: the title by the selected
/// account, "同步中..." or "同步" on the sync button, the domains of the
/// selected account's provider in order, each marked when it is the
/// selected domain, and the empty state when none is shown.
pub fn domain_list_view(
    domains: &Vec<Domain>,
    selected_provider: &Option<DomainProvider>,
    selected_domain: &Option<Domain>,
    is_syncing: bool,
) -> (r: DomainListRows)
    ensures
        r.title@ == domain_list_title(*selected_provider),
        r.sync_label@ == (if is_syncing { "同步中..."@ } else { "同步"@ }),
        r.rows@.len() == domains_shown(domains@, provider_kind(*selected_provider)).len(),
        forall|i: int| 0 <= i < r.rows@.len() ==> {
            let d = domains_shown(domains@, provider_kind(*selected_provider))[i];
            &&& (#[trigger] r.rows@[i]).domain == d
            &&& r.rows@[i].selected == (*selected_domain matches Some(s) && same_domain(s, d))
        },
        r.empty_state is Some <==> r.rows@.len() == 0,
        r.empty_state matches Some(e) ==> e.0@ == "暂无域名"@ && e.1@ == "点击同步按钮从云端获取域名数据"@,
{
    let title = match selected_provider {
        None => owned("域名管理"),
        Some(p) => {
            let mut t = p.provider_name.clone();
            push_str(&mut t, " 域名 [");
            push_str(&mut t, p.provider.name());
            push_str(&mut t, "]");
            t
        },
    };
    let kind: Option<DnsProvider> = match selected_provider {
        Some(p) => Some(p.provider),
        None => None,
    };
    let ghost shown = domains_shown(domains@, kind);
    let mut rows: Vec<DomainListRow> = Vec::new();
    let mut i: usize = 0;
    while i < domains.len()
        invariant
            i <= domains@.len(),
            kind == provider_kind(*selected_provider),
            rows@.len() == domains_shown(domains@.subrange(0, i as int), kind).len(),
            forall|j: int| 0 <= j < rows@.len() ==> {
                let d = domains_shown(domains@.subrange(0, i as int), kind)[j];
                &&& (#[trigger] rows@[j]).domain == d
                &&& rows@[j].selected == (*selected_domain matches Some(s) && same_domain(s, d))
            },
        decreases domains@.len() - i,
    {
        let d = &domains[i];
        proof {
            assert(domains@.subrange(0, i + 1).drop_last() =~= domains@.subrange(0, i as int));
            assert(domains@.subrange(0, i + 1).last() == domains@[i as int]);
        }
        let keep = match kind {
            Some(p) => d.provider == p,
            None => true,
        };
        if keep {
            let selected = match selected_domain {
                Some(s) => domain_eq(s, d),
                None => false,
            };
            rows.push(DomainListRow { domain: d.duplicate(), selected });
        }
        i = i + 1;
    }
    assert(domains@.subrange(0, domains@.len() as int) =~= domains@);
    let empty_state = if rows.len() == 0 {
        Some((owned("暂无域名"), owned("点击同步按钮从云端获取域名数据")))
    } else {
        None
    };
    DomainListRows {
        title,
        sync_label: if is_syncing { owned("同步中...") } else { owned("同步") },
        rows,
        empty_state,
    }
}

impl DomainManager {
    /// The domain list of this manager, as `domain_list_view` says.
    pub fn domain_list(&self) -> (r: DomainListRows)
        ensures
            r.title@ == domain_list_title(self.filter.selected_provider),
            r.sync_label@ == (if self.is_syncing { "同步中..."@ } else { "同步"@ }),
            r.rows@.len() == domains_shown(self.domain_list@, provider_kind(self.filter.selected_provider)).len(),
            forall|i: int| 0 <= i < r.rows@.len() ==> {
                let d = domains_shown(self.domain_list@, provider_kind(self.filter.selected_provider))[i];
                &&& (#[trigger] r.rows@[i]).domain == d
                &&& r.rows@[i].selected == (self.filter.selected_domain matches Some(s) && same_domain(s, d))
            },
            r.empty_state is Some <==> r.rows@.len() == 0,
            r.empty_state matches Some(e) ==> e.0@ == "暂无域名"@ && e.1@ == "点击同步按钮从云端获取域名数据"@,
    {
        domain_list_view(&self.domain_list, &self.filter.selected_provider, &self.filter.selected_domain, self.is_syncing)
    }
}

/// The background the background button switches to, and the translation
/// key of its tooltip.
pub open spec fn next_background(b: BackgroundType) -> (BackgroundType, Seq<char>) {
    match b {
        BackgroundType::Plain => (BackgroundType::ChinaRed, "background.china_red"@),
        BackgroundType::ChinaRed => (BackgroundType::QipaoGirl, "background.qipao_girl"@),
        BackgroundType::QipaoGirl => (BackgroundType::Plain, "background.none"@),
    }
}

/// What the window header shows: the status message, whether the
/// query-running indicator is there, the messages of its buttons from
/// left to right, the tooltip key of the background button, and the
/// message a press on the header itself sends.
#[derive(Debug, Clone)]
pub struct ManagerHeader {
    pub message: String,
    pub query_indicator: bool,
    pub buttons: Vec<ManagerMessage>,
    pub background_tooltip: String,
    pub on_press: ManagerMessage,
}

/// The page the header's back button returns to: the page left last, or
/// the domain page.
pub open spec fn back_target(last: Option<Page>) -> Page {
    match last {
        Some(p) => p,
        None => Page::DomainPage,
    }
}

impl DomainManager {
    /// The window header: the status message; the query indicator while a
    /// query runs; the buttons back (to the page left last, else the
    /// domain page), add account, theme, Chinese locale, console,
    /// appearance settings, next background, minimise, maximise and quit;
    /// and dragging the window on a press.
    pub fn header(&self) -> (r: ManagerHeader)
        ensures
            r.message@ == self.message@,
            r.query_indicator == self.in_query,
            r.buttons@ == seq![
                ManagerMessage::ChangePage(back_target(self.last_page)),
                ManagerMessage::AddDnsProvider,
                ManagerMessage::ToggleTheme,
                ManagerMessage::ChangeLocale(Locale::Chinese),
                ManagerMessage::ChangePage(Page::Console),
                ManagerMessage::OpenSettings(SettingsPage::Appearance),
                ManagerMessage::ChangeBackground(next_background(self.settings.background).0),
                ManagerMessage::WindowMinimize,
                ManagerMessage::WindowMaximize,
                ManagerMessage::Quit,
            ],
            r.background_tooltip@ == next_background(self.settings.background).1,
            r.on_press == ManagerMessage::DragWindow,
    {
        let back = match &self.last_page {
            Some(p) => p.duplicate(),
            None => Page::DomainPage,
        };
        let (next, tip) = match self.settings.background {
            BackgroundType::Plain => (BackgroundType::ChinaRed, "background.china_red"),
            BackgroundType::ChinaRed => (BackgroundType::QipaoGirl, "background.qipao_girl"),
            BackgroundType::QipaoGirl => (BackgroundType::Plain, "background.none"),
        };
        let mut buttons: Vec<ManagerMessage> = Vec::new();
        buttons.push(ManagerMessage::ChangePage(back));
        buttons.push(ManagerMessage::AddDnsProvider);
        buttons.push(ManagerMessage::ToggleTheme);
        buttons.push(ManagerMessage::ChangeLocale(Locale::Chinese));
        buttons.push(ManagerMessage::ChangePage(Page::Console));
        buttons.push(ManagerMessage::OpenSettings(SettingsPage::Appearance));
        buttons.push(ManagerMessage::ChangeBackground(next));
        buttons.push(ManagerMessage::WindowMinimize);
        buttons.push(ManagerMessage::WindowMaximize);
        buttons.push(ManagerMessage::Quit);
        let r = ManagerHeader {
            message: self.message.clone(),
            query_indicator: self.in_query,
            buttons,
            background_tooltip: owned(tip),
            on_press: ManagerMessage::DragWindow,
        };
        assert(r.buttons@ =~= seq![
            ManagerMessage::ChangePage(back_target(self.last_page)),
            ManagerMessage::AddDnsProvider,
            ManagerMessage::ToggleTheme,
            ManagerMessage::ChangeLocale(Locale::Chinese),
            ManagerMessage::ChangePage(Page::Console),
            ManagerMessage::OpenSettings(SettingsPage::Appearance),
            ManagerMessage::ChangeBackground(next_background(self.settings.background).0),
            ManagerMessage::WindowMinimize,
            ManagerMessage::WindowMaximize,
            ManagerMessage::Quit,
        ]);
        r
    }
}

/// A record whose id is not `id`.
pub open spec fn id_other_than(id: Seq<char>) -> spec_fn(Record) -> bool {
    |r: Record| r.record_id@ != id
}

/// A record whose id is `id`.
pub open spec fn id_equal_to(id: Seq<char>) -> spec_fn(Record) -> bool {
    |r: Record| r.record_id@ == id
}

proof fn lemma_records_without_is_filter(s: Seq<Record>, id: Seq<char>)
    ensures
        records_without(s, id) == s.filter(id_other_than(id)),
        s.filter(id_other_than(id)).len() + s.filter(id_equal_to(id)).len() == s.len(),
    decreases s.len(),
{
    reveal(Seq::filter);
    if s.len() > 0 {
        lemma_records_without_is_filter(s.drop_last(), id);
    }
}

/// Deleting record `id` from the manager's list keeps exactly the records
/// whose id is another one, in their order: every other record stays, no
/// record with that id stays, and the list shrinks by the number of records
/// with that id.
pub proof fn lemma_record_deletion_keeps_others(
    old: DomainManager,
    new: DomainManager,
    id: String,
    e: Seq<ManagerEffect>,
)
    requires
        manager_outcome(old, new, ManagerMessage::DnsRecordDeleted(id), e),
    ensures
        new.dns_list@ == old.dns_list@.filter(id_other_than(id@)),
        forall|i: int| 0 <= i < new.dns_list@.len() ==> (#[trigger] new.dns_list@[i]).record_id@ != id@,
        forall|r: Record| #[trigger] old.dns_list@.contains(r) && r.record_id@ != id@ ==> new.dns_list@.contains(r),
        new.dns_list@.len() == old.dns_list@.len() - old.dns_list@.filter(id_equal_to(id@)).len(),
{
    let s = old.dns_list@;
    lemma_records_without_is_filter(s, id@);
    assert forall|i: int| 0 <= i < new.dns_list@.len() implies (#[trigger] new.dns_list@[i]).record_id@ != id@ by {
        s.lemma_filter_pred(id_other_than(id@), i);
    }
    assert forall|r: Record| #[trigger] s.contains(r) && r.record_id@ != id@ implies new.dns_list@.contains(r) by {
        let i = choose|i: int| 0 <= i < s.len() && s[i] == r;
        s.lemma_filter_contains(id_other_than(id@), i);
    }
}

/// The domains of the rows of a domain list, in order.
pub open spec fn row_domains(rows: Seq<DomainListRow>) -> Seq<Domain> {
    rows.map_values(|r: DomainListRow| r.domain)
}

proof fn lemma_domains_shown_is_filter(s: Seq<Domain>, provider: Option<DnsProvider>)
    ensures
        domains_shown(s, provider) == s.filter(|d: Domain| provider is None || d.provider == provider.unwrap()),
    decreases s.len(),
{
    reveal(Seq::filter);
    if s.len() > 0 {
        lemma_domains_shown_is_filter(s.drop_last(), provider);
    }
}

/// The domain list shows exactly the domains hosted by the selected
/// account's provider (every domain when none is selected), in their
/// order: each such domain is listed, and no other.
pub proof fn lemma_domain_list_shows_provider_domains(
    domains: Seq<Domain>,
    selected: Option<DomainProvider>,
    rows: Seq<DomainListRow>,
)
    requires
        rows.len() == domains_shown(domains, provider_kind(selected)).len(),
        forall|i: int| 0 <= i < rows.len() ==> (#[trigger] rows[i]).domain == domains_shown(domains, provider_kind(selected))[i],
    ensures
        row_domains(rows) == domains.filter(
            |d: Domain| selected is None || d.provider == selected.unwrap().provider,
        ),
        forall|i: int|
            0 <= i < domains.len() && (selected is None || domains[i].provider == selected.unwrap().provider)
                ==> #[trigger] row_domains(rows).contains(domains[i]),
        forall|i: int| 0 <= i < rows.len() ==> selected is None || (#[trigger] rows[i]).domain.provider == selected.unwrap().provider,
{
    let pred = |d: Domain| selected is None || d.provider == selected.unwrap().provider;
    lemma_domains_shown_is_filter(domains, provider_kind(selected));
    assert(domains.filter(|d: Domain| provider_kind(selected) is None || d.provider == provider_kind(selected).unwrap())
        =~= domains.filter(pred)) by {
        assert((|d: Domain| provider_kind(selected) is None || d.provider == provider_kind(selected).unwrap()) =~= pred);
    }
    let shown = row_domains(rows);
    assert(shown =~= domains.filter(pred));
    assert forall|i: int|
        0 <= i < domains.len() && (selected is None || domains[i].provider == selected.unwrap().provider)
            implies #[trigger] shown.contains(domains[i]) by {
        domains.lemma_filter_contains(pred, i);
    }
    assert forall|i: int| 0 <= i < rows.len() implies selected is None || (#[trigger] rows[i]).domain.provider == selected.unwrap().provider by {
        domains.lemma_filter_pred(pred, i);
        assert(shown[i] == rows[i].domain);
    }
}

} // verus!

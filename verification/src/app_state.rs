//! The state the GUI event handlers work on, the messages they exchange,
//! and what a handler asks the application to do next.

use crate::components::RecordFilter;
use crate::console::{ConsoleState, ConsoleTab};
use crate::dns_record::{Record, Type};
use crate::gui_model::{
    AddDnsField, AddDomainField, AddDomainProviderForm, Credential, DnsProvider, DnsRecordModal,
    Domain, DomainModal, DomainProvider, Page, ReloadModel, VerificationStatus,
};
use crate::text::str_eq;
use std::collections::HashMap;
use vstd::prelude::*;

verus! {

/// A hosting account as the local store keeps it; the store serialises
/// the credentials.
#[derive(Debug, Clone)]
pub struct Account {
    pub id: i64,
    pub username: String,
    pub provider_type: String,
    pub email: String,
    pub credential: Credential,
}

/// A hosting account to be stored.
#[derive(Debug, Clone)]
pub struct NewAccount {
    pub provider: DnsProvider,
    pub username: String,
    pub email: String,
    pub credential: Credential,
}

/// A domain to be stored under an account.
#[derive(Debug, Clone)]
pub struct NewDomain {
    pub domain_name: String,
    pub account_id: i64,
}

/// Application lifecycle messages.
#[derive(Debug, Clone, Copy, PartialEq, Eq, Structural)]
pub enum AppMessage {
    Started,
    Initialize,
    Shutdown,
}

/// Local store messages; a connection is known by its handle.
#[derive(Debug)]
pub enum DatabaseMessage {
    Connected(Result<u64, String>),
    AddAccount(NewAccount),
    AccountAdded(Result<Account, String>),
    UpdateAccount(Account),
    AccountUpdated(Result<(), String>),
    DeleteAccount(i64),
    AccountDeleted(Result<i64, String>),
    AddDomain(NewDomain),
    DomainAdded(Result<i64, String>),
    DeleteDomain(i64),
    DomainDeleted(Result<i64, String>),
}

/// Messages of the add-domain form.
#[derive(Debug, Clone)]
pub enum AddDomainFormMessage {
    Submit,
    ProviderChanged(Option<DnsProvider>),
}

/// Domain messages.
#[derive(Debug, Clone)]
pub enum DomainMessage {
    Selected(Domain),
    AddFormChanged(AddDomainFormMessage),
    SubmitForm,
    Delete(usize),
    DeleteRequest(usize),
    DeleteCancel,
    Query(String),
    Reload,
    QueryDomainResult(Vec<Domain>),
}

/// DNS record messages.
#[derive(Debug, Clone)]
pub enum DnsMessage {
    QueryRecord(usize),
    AddRecord { domain_id: usize, record_type: String, name: String, value: String, ttl: u32 },
    DeleteRecord { domain_id: usize, record_id: usize },
    Delete(usize),
    DeleteRequest(usize),
    DeleteCancel,
    RecordDeleted(usize),
    TestRecord(usize),
    EditRecord(DnsRecordModal),
    FormCancelled,
    FormNameChanged(String),
    FormValueChanged(String),
    FormRecordTypeChanged(Type),
    FormTtlChanged(i32),
    FormSubmit,
    FormSubmitSuccess(usize),
    ProviderSelected(usize),
    ProviderChange(String),
    DnsFilterChanged(Option<String>),
    DnsSearchChanged(String),
    DnsToggleRecord(usize),
    DnsRecordSelected(usize),
    RecordHovered(Option<usize>),
    ReloadDnsRecord(usize),
    DnsRecordReloaded(usize, Vec<DnsRecordModal>),
    QueryDnsResult(Vec<Record>),
}

/// Synchronisation messages.
#[derive(Debug)]
pub enum SyncMessage {
    Start,
    StartAll,
    SyncAllDomains,
    Reload,
    Complete(Result<Vec<DomainModal>, String>),
    AllComplete(Result<(), String>),
    Cancel,
    DataReloaded(ReloadModel),
    DomainSyncComplete(String, Result<Vec<DnsRecordModal>, String>),
}

/// Hosting-account messages. A credential edit carries the form's new
/// credentials.
#[derive(Debug)]
pub enum ProviderMessage {
    Selected(DnsProvider),
    AddFormNameChanged(String),
    AddFormCredentialChanged(Credential),
    ValidateCredential,
    AddCredential,
    ProviderChange,
    VerificationStatusChanged(VerificationStatus),
    ToggleForm(bool),
    Delete(i64),
    Edit(i64),
    ConfirmDelete(i64),
    CancelDelete,
    Load,
    Loaded(Result<Vec<Account>, String>),
    ToggleExpand(i64),
    ToggleAddDomain(i64, bool),
    NewDomainNameChanged(i64, String),
    ConfirmAddDomain(i64),
    AddDomain(i64),
    DeleteDomain(i64, i64),
    SyncDomainInfo(i64),
    DomainDeleted(Result<i64, String>),
    DomainAdded(Result<i64, String>),
    LoadDomains(i64),
    DomainsLoaded(i64, Result<Vec<DomainModal>, String>),
    ProviderHovered(Option<i64>),
}

/// User-interface messages.
#[derive(Debug, Clone)]
pub enum UiMessage {
    SearchContentChanged(String),
    ShowToast(String),
    HideToast,
    ToggleConsole,
    ClearConsoleLog,
    ConsoleTabChanged(ConsoleTab),
    ChangePage(Page),
    ToggleTheme,
    Reset,
    Mock,
    MockDataGenerated(Vec<DomainModal>),
    ToggleFloatingWindow,
    ToggleThumbnail,
}

/// Navigation messages.
#[derive(Debug, Clone)]
pub enum NavigationMessage {
    PageChanged(Page),
    ToHelp,
    OpenHelp,
    CloseHelp,
    Back,
    /// Open the web page at this address in the system browser.
    OpenWebPage(String),
    ChangeConsoleTab(ConsoleTab),
    HideModal,
}

/// Window messages that carry no geometry.
#[derive(Debug, Clone, Copy, PartialEq, Eq, Structural)]
pub enum WindowMessage {
    Drag,
    ToggleFloating,
    WindowMinimize,
    WindowMaximize,
    BackgroundToggle,
    CloseRequest,
    WindowFocused,
}

/// The languages the interface can be set to.
#[allow(non_camel_case_types)]
#[derive(Debug, Clone, Copy, PartialEq, Eq, Structural)]
pub enum Language {
    ZH,
    ZH_TW,
    EN,
    IT,
    FR,
    ES,
    PL,
    DE,
    UK,
    RO,
    KO,
    PT,
    TR,
    RU,
    EL,
    SV,
    FI,
    JA,
    UZ,
    VI,
    ID,
}

/// The locale a language is shown in: Chinese for both Chinese scripts,
/// English for every other language.
pub open spec fn locale_of(language: Language) -> Locale {
    if language == Language::ZH || language == Language::ZH_TW {
        Locale::Chinese
    } else {
        Locale::English
    }
}

/// The locale that `language` is shown in.
pub fn locale_for(language: Language) -> (r: Locale)
    ensures
        r == locale_of(language),
{
    match language {
        Language::ZH | Language::ZH_TW => Locale::Chinese,
        _ => Locale::English,
    }
}

/// Configuration messages.
#[derive(Debug, Clone, Copy, PartialEq, Eq, Structural)]
pub enum ConfigMessage {
    ChangeLocale(Language),
    ToggleTheme,
    Save,
}

/// Console messages.
#[derive(Debug, Clone, Copy, PartialEq, Eq, Structural)]
pub enum ConsoleMessage {
    ClearConsoleLogs,
}

/// Notification messages.
#[derive(Debug, Clone)]
pub enum NotificationMessage {
    ClearAllNotifications,
    ShowToast(String),
    HideToast,
}

/// Other messages.
#[derive(Debug, Clone)]
pub enum OtherMessage {
    MockDataGenerated(Vec<DomainModal>),
}

/// The messages the handlers exchange, by subject.
#[derive(Debug)]
pub enum MessageCategory {
    App(AppMessage),
    Navigation(NavigationMessage),
    Window(WindowMessage),
    Config(ConfigMessage),
    Domain(DomainMessage),
    Dns(DnsMessage),
    Sync(SyncMessage),
    Provider(ProviderMessage),
    Ui(UiMessage),
    Console(ConsoleMessage),
    Notification(NotificationMessage),
    Database(DatabaseMessage),
    Other(OtherMessage),
}

/// Work the application carries out for a handler; each item says which
/// message it answers with.
#[derive(Debug)]
pub enum Effect {
    /// Nothing to do.
    NoTask,
    /// Deliver this message next.
    Emit(MessageCategory),
    /// Deliver this message after `seconds` seconds.
    EmitAfter { seconds: u64, message: MessageCategory },
    /// Store `account`; answered by `DatabaseMessage::AccountAdded`.
    CreateAccount { conn: u64, account: NewAccount },
    /// Store the changes to `account`; answered by `DatabaseMessage::AccountUpdated`.
    UpdateAccount { conn: u64, account: Account },
    /// Delete account `id`; answered by `DatabaseMessage::AccountDeleted`.
    DeleteAccount { conn: u64, id: i64 },
    /// Store `domain`; answered by `ProviderMessage::DomainAdded` with the account id.
    AddDomain { conn: u64, domain: NewDomain },
    /// Delete domain `id`; answered by `ProviderMessage::DomainDeleted`.
    DeleteDomain { conn: u64, id: i64 },
    /// List the stored accounts; answered by `ProviderMessage::Loaded`.
    ListAccounts { conn: u64 },
    /// Load the stored records of a domain; answered by
    /// `DnsMessage::DnsRecordReloaded`, or a toast `加载DNS记录失败: <e>`.
    LoadDnsRecords { conn: u64, domain_id: usize },
    /// Store a record; answered by a toast.
    AddDnsRecord { conn: u64, record: DnsRecordModal },
    /// Delete a record and reload the domain's records; answered by
    /// `DnsMessage::DnsRecordReloaded`, or a toast `删除DNS记录失败: <e>`.
    DeleteAndReloadDnsRecord { conn: u64, domain_id: usize, record_id: usize },
    /// Send the record form to the provider and the store (an update when
    /// the form holds a record id); answered as `form_result_message` says.
    SubmitDnsForm { conn: u64, form: AddDnsField, domain_id: usize, is_update: bool },
    /// Check the form's credentials remotely; answered by
    /// `ProviderMessage::VerificationStatusChanged`.
    ValidateCredential { form: AddDomainProviderForm },
    /// Look a domain up; answered by `DomainMessage::QueryDomainResult`.
    QueryDomain { name: String },
    /// Synchronise one domain; answered by `SyncMessage::DomainSyncComplete`.
    SyncDomain { name: String },
    /// Synchronise these domains; answered as `all_synced_message` says.
    SyncAllDomains { names: Vec<String> },
    /// Reload all data; answered by `SyncMessage::DataReloaded`.
    ReloadData,
    /// Make sample domains; answered by `OtherMessage::MockDataGenerated`.
    MockDomains,
    /// Open the web page at `url` in the system browser; answered by nothing.
    OpenWebPage { url: String },
    /// Save the configuration; answered by nothing.
    SaveConfig,
}

/// What a handler did.
#[derive(Debug)]
pub enum HandlerResult {
    /// Nothing happened.
    Nothing,
    /// The message changed nothing.
    NoChange,
    /// Work for the application, the state unchanged by it.
    Task(Effect),
    /// The state changed.
    StateUpdated,
    /// The state changed, and there is work for the application.
    StateUpdatedWithTask(Effect),
}

/// The colour themes the toggle switches between.
#[derive(Debug, Clone, Copy, PartialEq, Eq, Structural)]
pub enum UiTheme {
    TokyoNightLight,
    SolarizedDark,
    Other,
}

/// The language the interface is shown in.
#[derive(Debug, Clone, Copy, PartialEq, Eq, Structural)]
pub enum Locale {
    Chinese,
    English,
}

/// How the main window is shown.
#[derive(Debug, Clone, Copy, PartialEq, Eq, Structural)]
pub struct WindowFlags {
    pub minimized: bool,
    pub maximized: bool,
    pub floating: bool,
}

/// State of the user interface.
#[derive(Debug, Clone)]
pub struct UiState {
    pub current_page: Page,
    pub last_page: Option<Page>,
    pub is_loading: bool,
    pub error: Option<String>,
    pub message: String,
    pub toast_message: Option<String>,
    pub toast_visible: bool,
    pub search_query: String,
    pub selected_domain: Option<DomainModal>,
    pub selected_provider: Option<DomainProvider>,
    pub hovered_dns_record: Option<usize>,
    pub add_domain_field: AddDomainField,
    pub in_query: bool,
    pub is_syncing: bool,
    pub console_visible: bool,
    pub floating_window_enabled: bool,
    pub thumbnail_mode: bool,
    pub theme: UiTheme,
    pub console: ConsoleState,
    pub show_help: bool,
    pub window: WindowFlags,
    pub locale: Locale,
}

/// The record form of the DNS page and whether it is shown.
#[derive(Debug, Clone)]
pub struct AddDnsForm {
    pub field: AddDnsField,
    pub is_visible: bool,
}

impl Default for AddDnsForm {
    fn default() -> (r: AddDnsForm)
        ensures
            r.field.record_id is None,
            r.field.record_name@.len() == 0,
            r.field.domain_name@.len() == 0,
            r.field.ttl == 600,
            r.field.record_type == Some(Type::A),
            r.field.value@.len() == 0,
            !r.is_visible,
    {
        AddDnsForm { field: AddDnsField::default(), is_visible: false }
    }
}

/// State of the hosting-account page.
#[derive(Debug, Clone)]
pub struct ProviderPage {
    pub form: AddDomainProviderForm,
    pub form_visible: bool,
    pub editing_provider_id: Option<i64>,
    pub deleting_provider_id: Option<i64>,
    pub providers: Vec<DomainProvider>,
    pub is_loading: bool,
}

/// The data the GUI shows.
#[derive(Debug, Clone)]
pub struct DataState {
    pub domain_list: Vec<DomainModal>,
    pub selected_domain: Option<DomainModal>,
    pub selected_provider: Option<DomainProvider>,
    pub deleting_domain_id: Option<usize>,
    pub deleting_dns_record_id: Option<usize>,
    pub dns_record_filter: RecordFilter,
    pub add_dns_form: AddDnsForm,
    pub current_dns_records: Vec<DnsRecordModal>,
    pub dns_list: Vec<DnsRecordModal>,
    pub dns_records_cache: HashMap<usize, Vec<DnsRecordModal>>,
    pub domain_providers: Vec<DomainProvider>,
    pub provider_page: ProviderPage,
    pub syncing: Vec<String>,
    pub has_unsaved_changes: bool,
    pub last_sync_time: Option<i64>,
}

/// The state of the application that the handlers work on; the store
/// connection is known by its handle.
#[derive(Debug, Clone)]
pub struct AppState {
    pub database: Option<u64>,
    pub initialized: bool,
    pub ui: UiState,
    pub data: DataState,
}

/// The texts of a list of names.
pub open spec fn name_texts(v: Seq<String>) -> Seq<Seq<char>> {
    v.map_values(|s: String| s@)
}

/// The state at start-up: no store connection, not initialised, the
/// domain page, nothing loaded, selected, typed or shown, the light theme,
/// the Chinese locale, the default forms and an empty console.
pub open spec fn is_start_state(r: AppState) -> bool {
    &&& r.database is None
    &&& !r.initialized
    &&& r.ui.current_page == Page::DomainPage
    &&& r.ui.last_page is None
    &&& !r.ui.is_loading
    &&& r.ui.error is None
    &&& r.ui.message@.len() == 0
    &&& r.ui.toast_message is None
    &&& !r.ui.toast_visible
    &&& r.ui.selected_domain is None
    &&& r.ui.selected_provider is None
    &&& r.ui.theme == UiTheme::TokyoNightLight
    &&& !r.ui.console_visible
    &&& r.ui.console.api_logs@.len() == 0
    &&& r.ui.console.db_logs@.len() == 0
    &&& !r.ui.show_help
    &&& r.ui.window == (WindowFlags { minimized: false, maximized: false, floating: false })
    &&& r.ui.locale == Locale::Chinese
    &&& r.data.last_sync_time is None
    &&& r.data.dns_records_cache@ == Map::<usize, Vec<DnsRecordModal>>::empty()
    &&& r.data.current_dns_records@.len() == 0
    &&& !r.ui.is_syncing
    &&& r.data.domain_list@.len() == 0
    &&& r.data.selected_domain is None
    &&& r.data.provider_page.providers@.len() == 0
    &&& r.data.provider_page.editing_provider_id is None
    &&& r.data.syncing@.len() == 0
    &&& !r.data.has_unsaved_changes
    &&& r.ui.search_query@.len() == 0
    &&& r.ui.hovered_dns_record is None
    &&& r.ui.add_domain_field.domain_name@.len() == 0
    &&& r.ui.add_domain_field.provider == Some(DnsProvider::Aliyun)
    &&& !r.ui.in_query
    &&& !r.ui.floating_window_enabled
    &&& !r.ui.thumbnail_mode
    &&& r.ui.console.current_tab == ConsoleTab::ApiRequests
    &&& r.ui.console.max_logs == 1000
    &&& r.data.selected_provider is None
    &&& r.data.deleting_domain_id is None
    &&& r.data.deleting_dns_record_id is None
    &&& r.data.dns_record_filter.record_type is None
    &&& r.data.dns_record_filter.search_keyword@.len() == 0
    &&& r.data.add_dns_form.field.record_id is None
    &&& r.data.add_dns_form.field.record_name@.len() == 0
    &&& r.data.add_dns_form.field.domain_name@.len() == 0
    &&& r.data.add_dns_form.field.ttl == 600
    &&& r.data.add_dns_form.field.record_type == Some(Type::A)
    &&& r.data.add_dns_form.field.value@.len() == 0
    &&& !r.data.add_dns_form.is_visible
    &&& r.data.dns_list@.len() == 0
    &&& r.data.domain_providers@.len() == 0
    &&& r.data.provider_page.form.provider_name@.len() == 0
    &&& r.data.provider_page.form.provider is None
    &&& r.data.provider_page.form.credential is None
    &&& r.data.provider_page.form.verification_status is Unverified
    &&& !r.data.provider_page.form_visible
    &&& r.data.provider_page.deleting_provider_id is None
    &&& !r.data.provider_page.is_loading
}

impl AppState {
    /// The state at start-up: no store connection, not initialised, the
    /// domain page, nothing loaded, selected or shown, the light theme, and
    /// an empty console.
    pub fn new() -> (r: AppState)
        ensures
            is_start_state(r),
    {
        AppState {
            database: None,
            initialized: false,
            ui: UiState {
                current_page: Page::DomainPage,
                last_page: None,
                is_loading: false,
                error: None,
                message: String::new(),
                toast_message: None,
                toast_visible: false,
                search_query: String::new(),
                selected_domain: None,
                selected_provider: None,
                hovered_dns_record: None,
                add_domain_field: AddDomainField::default(),
                in_query: false,
                is_syncing: false,
                console_visible: false,
                floating_window_enabled: false,
                thumbnail_mode: false,
                theme: UiTheme::TokyoNightLight,
                console: ConsoleState::default(),
                show_help: false,
                window: WindowFlags { minimized: false, maximized: false, floating: false },
                locale: Locale::Chinese,
            },
            data: DataState {
                domain_list: Vec::new(),
                selected_domain: None,
                selected_provider: None,
                deleting_domain_id: None,
                deleting_dns_record_id: None,
                dns_record_filter: RecordFilter::default(),
                add_dns_form: AddDnsForm::default(),
                current_dns_records: Vec::new(),
                dns_list: Vec::new(),
                dns_records_cache: HashMap::new(),
                domain_providers: Vec::new(),
                provider_page: ProviderPage {
                    form: AddDomainProviderForm::default(),
                    form_visible: false,
                    editing_provider_id: None,
                    deleting_provider_id: None,
                    providers: Vec::new(),
                    is_loading: false,
                },
                syncing: Vec::new(),
                has_unsaved_changes: false,
                last_sync_time: None,
            },
        }
    }
}

impl UiState {
    /// Shows `message` in a toast.
    pub fn show_toast(&mut self, message: String)
        ensures
            final(self).toast_message == Some(message),
            final(self).toast_visible,
            final(self).current_page == old(self).current_page,
            final(self).last_page == old(self).last_page,
            final(self).is_loading == old(self).is_loading,
            final(self).error == old(self).error,
            final(self).message == old(self).message,
            final(self).search_query == old(self).search_query,
            final(self).selected_domain == old(self).selected_domain,
            final(self).selected_provider == old(self).selected_provider,
            final(self).hovered_dns_record == old(self).hovered_dns_record,
            final(self).add_domain_field == old(self).add_domain_field,
            final(self).in_query == old(self).in_query,
            final(self).is_syncing == old(self).is_syncing,
            final(self).console_visible == old(self).console_visible,
            final(self).floating_window_enabled == old(self).floating_window_enabled,
            final(self).thumbnail_mode == old(self).thumbnail_mode,
            final(self).theme == old(self).theme,
            final(self).console == old(self).console,
            final(self).show_help == old(self).show_help,
            final(self).window == old(self).window,
            final(self).locale == old(self).locale,
    {
        self.toast_message = Some(message);
        self.toast_visible = true;
    }
}

impl DataState {
    /// Marks the data as changed since it was last saved.
    pub fn mark_changed(&mut self)
        ensures
            *final(self) == (DataState { has_unsaved_changes: true, ..*old(self) }),
    {
        self.has_unsaved_changes = true;
    }

    /// Records whether domain `name` is being synchronised.
    pub fn set_syncing(&mut self, name: &str, on: bool)
        ensures
            *final(self) == (DataState { syncing: final(self).syncing, ..*old(self) }),
            on ==> name_texts(final(self).syncing@).to_set() == name_texts(old(self).syncing@).to_set().insert(name@),
            !on ==> name_texts(final(self).syncing@).to_set() == name_texts(old(self).syncing@).to_set().remove(name@),
    {
        let ghost before = name_texts(self.syncing@);
        let mut kept: Vec<String> = Vec::new();
        let mut i: usize = 0;
        while i < self.syncing.len()
            invariant
                i <= self.syncing@.len(),
                before == name_texts(self.syncing@),
                forall|x: Seq<char>| name_texts(kept@).contains(x) <==> (x != name@ && exists|j: int|
                    0 <= j < i && #[trigger] before[j] == x),
            decreases self.syncing@.len() - i,
        {
            let entry = &self.syncing[i];
            let ghost pre = name_texts(kept@);
            if !str_eq(entry.as_str(), name) {
                kept.push(entry.clone());
                proof {
                    assert(name_texts(kept@) =~= pre.push(before[i as int]));
                }
            }
            proof {
                assert forall|x: Seq<char>| name_texts(kept@).contains(x) <==> (x != name@ && exists|j: int|
                    0 <= j < i + 1 && #[trigger] before[j] == x) by {
                    if name_texts(kept@).contains(x) {
                        if x != before[i as int] || x == name@ {
                            assert(pre.contains(x));
                        }
                    }
                    if x != name@ && exists|j: int| 0 <= j < i + 1 && #[trigger] before[j] == x {
                        let j = choose|j: int| 0 <= j < i + 1 && #[trigger] before[j] == x;
                        if j < i {
                            assert(pre.contains(x));
                            if before[i as int] != name@ {
                                assert(name_texts(kept@)[pre.len() as int] == before[i as int]);
                                let k = choose|k: int| 0 <= k < pre.len() && pre[k] == x;
                                assert(name_texts(kept@)[k] == x);
                            }
                        } else {
                            assert(name_texts(kept@)[name_texts(kept@).len() - 1] == x);
                        }
                    }
                }
            }
            i = i + 1;
        }
        let ghost pre = name_texts(kept@);
        if on {
            kept.push(crate::text::owned(name));
            proof {
                assert(name_texts(kept@) =~= pre.push(name@));
            }
        }
        self.syncing = kept;
        proof {
            let k = name_texts(self.syncing@);
            let after = k.to_set();
            if on {
                assert forall|x: Seq<char>| after.contains(x) <==> before.to_set().insert(name@).contains(x) by {
                    if x == name@ {
                        assert(k[k.len() - 1] == name@);
                    } else {
                        if k.contains(x) {
                            let m = choose|m: int| 0 <= m < k.len() && k[m] == x;
                            assert(pre[m] == x);
                            assert(pre.contains(x));
                        }
                        if before.contains(x) {
                            let j = choose|j: int| 0 <= j < before.len() && before[j] == x;
                            assert(pre.contains(x));
                            let m = choose|m: int| 0 <= m < pre.len() && pre[m] == x;
                            assert(k[m] == x);
                        }
                    }
                }
                assert(after =~= before.to_set().insert(name@));
            } else {
                assert forall|x: Seq<char>| after.contains(x) <==> before.to_set().remove(name@).contains(x) by {
                    if x != name@ && before.contains(x) {
                        let j = choose|j: int| 0 <= j < before.len() && before[j] == x;
                    }
                }
                assert(after =~= before.to_set().remove(name@));
            }
        }
    }
}

} // verus!

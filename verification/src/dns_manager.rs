//! The compact DNS manager window: a domain list with an add-domain form,
//! a help page opened and closed with the `h` key, a theme toggle and a
//! counter. Drawing the window is the application's part.

use crate::configs::LICENCE;
use crate::text::{owned, push_str};
use vstd::prelude::*;

verus! {

/// One DNS record of a domain.
#[derive(Debug, Clone, PartialEq, Eq)]
pub struct DnsRecord {
    pub domain_name: String,
    pub dns_name: String,
    pub dns_type: String,
    pub dns_value: String,
    pub ttl: i64,
}

/// Mathematical view of a DNS record.
pub struct DnsRecordView {
    pub domain_name: Seq<char>,
    pub dns_name: Seq<char>,
    pub dns_type: Seq<char>,
    pub dns_value: Seq<char>,
    pub ttl: i64,
}

impl View for DnsRecord {
    type V = DnsRecordView;

    open spec fn view(&self) -> DnsRecordView {
        DnsRecordView {
            domain_name: self.domain_name@,
            dns_name: self.dns_name@,
            dns_type: self.dns_type@,
            dns_value: self.dns_value@,
            ttl: self.ttl,
        }
    }
}

/// A domain with its provider's name and its records.
#[derive(Debug, Clone, PartialEq, Eq)]
pub struct DomainName {
    pub provider: String,
    pub name: String,
    pub dns_record: Vec<DnsRecord>,
}

/// Mathematical view of a domain.
pub struct DomainNameView {
    pub provider: Seq<char>,
    pub name: Seq<char>,
    pub dns_record: Seq<DnsRecordView>,
}

impl View for DomainName {
    type V = DomainNameView;

    open spec fn view(&self) -> DomainNameView {
        DomainNameView {
            provider: self.provider@,
            name: self.name@,
            dns_record: self.dns_record@.map_values(|r: DnsRecord| r@),
        }
    }
}

impl DnsRecord {
    /// An independent copy of the record.
    pub fn duplicate(&self) -> (r: DnsRecord)
        ensures
            r@ == self@,
    {
        DnsRecord {
            domain_name: self.domain_name.clone(),
            dns_name: self.dns_name.clone(),
            dns_type: self.dns_type.clone(),
            dns_value: self.dns_value.clone(),
            ttl: self.ttl,
        }
    }
}

impl DomainName {
    /// The domain `name`, with no provider and no records.
    pub fn from_name(name: String) -> (r: DomainName)
        ensures
            r@ == (DomainNameView { provider: Seq::empty(), name: name@, dns_record: Seq::empty() }),
    {
        let r = DomainName { name, provider: String::new(), dns_record: Vec::new() };
        assert(r@.dns_record =~= Seq::<DnsRecordView>::empty());
        r
    }

    /// An independent copy of the domain.
    pub fn duplicate(&self) -> (r: DomainName)
        ensures
            r@ == self@,
    {
        let mut records: Vec<DnsRecord> = Vec::new();
        let mut i: usize = 0;
        while i < self.dns_record.len()
            invariant
                i <= self.dns_record@.len(),
                records@.len() == i,
                forall|j: int| 0 <= j < i ==> (#[trigger] records@[j])@ == self.dns_record@[j]@,
            decreases self.dns_record@.len() - i,
        {
            records.push(self.dns_record[i].duplicate());
            i = i + 1;
        }
        let r = DomainName { provider: self.provider.clone(), name: self.name.clone(), dns_record: records };
        assert(r@.dns_record =~= self@.dns_record);
        r
    }
}

/// The hosting providers the add-domain form offers.
#[derive(Debug, Clone, Copy, PartialEq, Eq, Structural)]
pub enum DnsProvider {
    Aliyun,
    TencentCloud,
    CloudFlare,
    Tomato,
}

/// The name a provider is displayed as.
pub open spec fn provider_text(p: DnsProvider) -> Seq<char> {
    match p {
        DnsProvider::Aliyun => "Aliyun"@,
        DnsProvider::TencentCloud => "TencentCloud"@,
        DnsProvider::CloudFlare => "CloudFlare"@,
        DnsProvider::Tomato => "Tomato"@,
    }
}

impl DnsProvider {
    /// The name the provider is displayed as.
    pub fn to_string(&self) -> (r: String)
        ensures
            r@ == provider_text(*self),
    {
        match self {
            DnsProvider::Aliyun => owned("Aliyun"),
            DnsProvider::TencentCloud => owned("TencentCloud"),
            DnsProvider::CloudFlare => owned("CloudFlare"),
            DnsProvider::Tomato => owned("Tomato"),
        }
    }
}

/// The pages of the window.
#[derive(Debug, Clone, PartialEq, Eq)]
pub enum Page {
    DomainPage,
    AddDomain,
    DnsRecord(DomainName),
    AddRecord,
    Help,
}

/// Mathematical view of a page.
pub enum PageView {
    DomainPage,
    AddDomain,
    DnsRecord(DomainNameView),
    AddRecord,
    Help,
}

impl View for Page {
    type V = PageView;

    open spec fn view(&self) -> PageView {
        match self {
            Page::DomainPage => PageView::DomainPage,
            Page::AddDomain => PageView::AddDomain,
            Page::DnsRecord(d) => PageView::DnsRecord(d@),
            Page::AddRecord => PageView::AddRecord,
            Page::Help => PageView::Help,
        }
    }
}

/// The text a page is displayed as; the record page shows its translated label.
pub open spec fn page_text(p: PageView, add_record_label: Seq<char>) -> Seq<char> {
    match p {
        PageView::DomainPage => "page_domain_manage"@,
        PageView::AddDomain => "page_add_domain"@,
        PageView::DnsRecord(d) => "DnsRecord("@ + d.name + ")"@,
        PageView::AddRecord => add_record_label,
        PageView::Help => "Help"@,
    }
}

impl Page {
    /// An independent copy of the page.
    pub fn duplicate(&self) -> (r: Page)
        ensures
            r@ == self@,
    {
        match self {
            Page::DomainPage => Page::DomainPage,
            Page::AddDomain => Page::AddDomain,
            Page::DnsRecord(d) => Page::DnsRecord(d.duplicate()),
            Page::AddRecord => Page::AddRecord,
            Page::Help => Page::Help,
        }
    }

    /// The text the page is displayed as, given the translated label of the
    /// record page.
    pub fn to_display_string(&self, add_record_label: &str) -> (r: String)
        ensures
            r@ == page_text(self@, add_record_label@),
    {
        match self {
            Page::DomainPage => owned("page_domain_manage"),
            Page::AddDomain => owned("page_add_domain"),
            Page::DnsRecord(d) => {
                let mut s = owned("DnsRecord(");
                push_str(&mut s, d.name.as_str());
                push_str(&mut s, ")");
                s
            },
            Page::AddRecord => owned(add_record_label),
            Page::Help => owned("Help"),
        }
    }
}

/// The window's settings.
#[derive(Debug)]
pub struct Config {
    pub domain_names: Vec<DomainName>,
    pub name: String,
    pub description: String,
    pub version: String,
    pub author: String,
    pub license: LICENCE,
    pub locale: String,
}

impl Config {
    /// Settings named `name`, with everything else empty, the Mulan licence
    /// and the `zh-CN` locale.
    pub fn from_name(name: String) -> (r: Config)
        ensures
            r.name == name,
            r.domain_names@.len() == 0,
            r.description@.len() == 0,
            r.version@.len() == 0,
            r.author@.len() == 0,
            r.license == LICENCE::MulanPSL2,
            r.locale@ == "zh-CN"@,
    {
        Config {
            domain_names: Vec::new(),
            name,
            description: String::new(),
            version: String::new(),
            author: String::new(),
            license: LICENCE::MulanPSL2,
            locale: owned("zh-CN"),
        }
    }
}

impl Default for Config {
    /// Settings named `domain_manager`, in the `en` locale.
    fn default() -> (r: Config)
        ensures
            r.name@ == "domain_manager"@,
            r.domain_names@.len() == 0,
            r.description@.len() == 0,
            r.version@.len() == 0,
            r.author@.len() == 0,
            r.license == LICENCE::MulanPSL2,
            r.locale@ == "en"@,
    {
        Config {
            domain_names: Vec::new(),
            name: owned("domain_manager"),
            description: String::new(),
            version: String::new(),
            author: String::new(),
            license: LICENCE::MulanPSL2,
            locale: owned("en"),
        }
    }
}

/// The two themes of the window.
#[derive(Debug, Clone, Copy, PartialEq, Eq, Structural)]
pub enum Theme {
    Light,
    Dark,
}

/// A key press: a character, or any other key.
#[derive(Debug, Clone, PartialEq, Eq)]
pub enum Key {
    Character(String),
    Other,
}

/// The messages of the window.
#[derive(Debug, Clone)]
pub enum Message {
    Increment,
    Decrement,
    ToggleTheme,
    ChangePage(Page),
    SubmitDomainForm,
    DomainDeleted(DomainName),
    AddDomainFormChanged(String),
    DnsProviderSelected(DnsProvider),
    ToHelp,
    KeyInput { key: Key },
    CloseHelp,
    OpenHelp { last_page: Page },
}

/// The add-domain form: the name typed and the provider picked.
#[derive(Debug, Clone)]
pub struct AddDomainField {
    pub domain_name: String,
    pub provider: Option<DnsProvider>,
}

impl Default for AddDomainField {
    /// An empty name, with Aliyun picked.
    fn default() -> (r: AddDomainField)
        ensures
            r.domain_name@.len() == 0,
            r.provider == Some(DnsProvider::Aliyun),
    {
        AddDomainField { domain_name: String::new(), provider: Some(DnsProvider::Aliyun) }
    }
}

/// The state of the window.
#[derive(Debug)]
pub struct App {
    pub config: Config,
    pub theme: Theme,
    pub domain_names: Vec<DomainName>,
    pub counter: i32,
    pub current_page: Page,
    pub current_domain_name: Option<DomainName>,
    pub add_domain_field: AddDomainField,
    pub last_page: Option<Page>,
}

/// Mathematical view of the window's settings.
pub struct ConfigView {
    pub domain_names: Seq<DomainNameView>,
    pub name: Seq<char>,
    pub description: Seq<char>,
    pub version: Seq<char>,
    pub author: Seq<char>,
    pub license: LICENCE,
    pub locale: Seq<char>,
}

impl View for Config {
    type V = ConfigView;

    open spec fn view(&self) -> ConfigView {
        ConfigView {
            domain_names: self.domain_names@.map_values(|d: DomainName| d@),
            name: self.name@,
            description: self.description@,
            version: self.version@,
            author: self.author@,
            license: self.license,
            locale: self.locale@,
        }
    }
}

/// Mathematical view of the window's state.
pub struct AppView {
    pub config: ConfigView,
    pub theme: Theme,
    pub domain_names: Seq<DomainNameView>,
    pub counter: i32,
    pub current_page: PageView,
    pub current_domain_name: Option<DomainNameView>,
    pub form_name: Seq<char>,
    pub form_provider: Option<DnsProvider>,
    pub last_page: Option<PageView>,
}

impl View for App {
    type V = AppView;

    open spec fn view(&self) -> AppView {
        AppView {
            config: self.config@,
            theme: self.theme,
            domain_names: self.domain_names@.map_values(|d: DomainName| d@),
            counter: self.counter,
            current_page: self.current_page@,
            current_domain_name: match self.current_domain_name {
                Some(d) => Some(d@),
                None => None,
            },
            form_name: self.add_domain_field.domain_name@,
            form_provider: self.add_domain_field.provider,
            last_page: match self.last_page {
                Some(p) => Some(p@),
                None => None,
            },
        }
    }
}

/// The domains the window starts with.
pub open spec fn initial_domains() -> Seq<DomainNameView> {
    seq![
        DomainNameView { provider: Seq::empty(), name: "chenyunlong.cn"@, dns_record: Seq::empty() },
        DomainNameView { provider: Seq::empty(), name: "stanic.xyz"@, dns_record: Seq::empty() },
    ]
}

/// The state the window starts in with settings `config`: the domain page, the light theme, the
/// two initial domains, the counter at zero, nothing selected or typed,
/// Aliyun picked, and no page left yet.
pub open spec fn initial_view(config: ConfigView) -> AppView {
    AppView {
        config,
        theme: Theme::Light,
        domain_names: initial_domains(),
        counter: 0,
        current_page: PageView::DomainPage,
        current_domain_name: None,
        form_name: Seq::empty(),
        form_provider: Some(DnsProvider::Aliyun),
        last_page: None,
    }
}

/// What a key press asks for on `page`: on the help page `h` closes the
/// help; on any other page `h` opens it, remembering the page; other keys
/// ask for nothing.
pub open spec fn key_outcome(page: PageView, key: Key) -> Option<PageView> {
    match key {
        Key::Character(c) => if c@ == "h"@ {
            match page {
                PageView::Help => None,
                _ => Some(page),
            }
        } else {
            None
        },
        Key::Other => None,
    }
}

/// The key `key` is the `h` key.
pub open spec fn is_help_key(key: Key) -> bool {
    key matches Key::Character(c) && c@ == "h"@
}

/// The state after closing the help: back to the page left, if any.
pub open spec fn after_close_help(v: AppView) -> AppView {
    match v.last_page {
        Some(p) => AppView { current_page: p, ..v },
        None => v,
    }
}

/// The state after opening the help from page `from`.
pub open spec fn after_open_help(v: AppView, from: PageView) -> AppView {
    AppView { last_page: Some(from), current_page: PageView::Help, ..v }
}

/// How a message changes the window's state.
pub open spec fn update_view(v: AppView, message: Message) -> AppView {
    match message {
        Message::Increment => AppView { counter: (v.counter + 1) as i32, ..v },
        Message::Decrement => if v.counter > 0 {
            AppView { counter: (v.counter - 1) as i32, ..v }
        } else {
            v
        },
        Message::ToggleTheme => AppView {
            theme: if v.theme == Theme::Light {
                Theme::Dark
            } else {
                Theme::Light
            },
            ..v
        },
        Message::ChangePage(p) => AppView { current_page: p@, ..v },
        Message::SubmitDomainForm => AppView {
            domain_names: v.domain_names.push(
                DomainNameView { provider: Seq::empty(), name: v.form_name, dns_record: Seq::empty() },
            ),
            current_page: PageView::DomainPage,
            ..v
        },
        Message::DomainDeleted(_) => v,
        Message::AddDomainFormChanged(s) => AppView { form_name: s@, ..v },
        Message::DnsProviderSelected(p) => AppView { form_provider: Some(p), ..v },
        Message::ToHelp => AppView { current_page: PageView::Help, ..v },
        Message::KeyInput { key } => if is_help_key(key) {
            match v.current_page {
                PageView::Help => after_close_help(v),
                _ => after_open_help(v, v.current_page),
            }
        } else {
            v
        },
        Message::CloseHelp => after_close_help(v),
        Message::OpenHelp { last_page } => after_open_help(v, last_page@),
    }
}

/// Toggling the theme twice gives back the state.
pub proof fn lemma_theme_toggled_twice(v: AppView)
    ensures
        update_view(update_view(v, Message::ToggleTheme), Message::ToggleTheme) == v,
{
}

/// A decrement undoes an increment of a counter that is not negative.
pub proof fn lemma_decrement_undoes_increment(v: AppView)
    requires
        0 <= v.counter < i32::MAX,
    ensures
        update_view(update_view(v, Message::Increment), Message::Decrement) == v,
{
}

/// Pressing `h` twice on a page other than the help page comes back to
/// that page, which is then remembered as the page left.
pub proof fn lemma_help_key_twice(v: AppView, key: Key)
    requires
        is_help_key(key),
        !(v.current_page is Help),
    ensures
        update_view(update_view(v, Message::KeyInput { key }), Message::KeyInput { key }) == (AppView {
            last_page: Some(v.current_page),
            ..v
        }),
{
}

/// The message a key press on the current page stands for.
pub fn handle_key(app: &App, key: &Key) -> (r: Option<Message>)
    ensures
        match r {
            Some(m) => is_help_key(*key) && match app.current_page {
                Page::Help => m is CloseHelp,
                _ => m matches Message::OpenHelp { last_page } && last_page@ == app.current_page@,
            },
            None => !is_help_key(*key),
        },
{
    let is_h = match key {
        Key::Character(c) => crate::text::str_eq(c.as_str(), "h"),
        Key::Other => false,
    };
    if !is_h {
        return None;
    }
    match &app.current_page {
        Page::Help => Some(Message::CloseHelp),
        p => Some(Message::OpenHelp { last_page: p.duplicate() }),
    }
}

fn initial_domain_names() -> (r: Vec<DomainName>)
    ensures
        r@.map_values(|d: DomainName| d@) == initial_domains(),
{
    let mut r: Vec<DomainName> = Vec::new();
    r.push(DomainName::from_name(owned("chenyunlong.cn")));
    r.push(DomainName::from_name(owned("stanic.xyz")));
    assert(r@.map_values(|d: DomainName| d@) =~= initial_domains());
    r
}

impl App {
    /// The window with settings `config`, in its initial state.
    pub fn new(config: Config) -> (r: App)
        ensures
            r@ == initial_view(config@),
            r.config == config,
    {
        let form = AddDomainField::default();
        assert(form.domain_name@ =~= Seq::<char>::empty());
        App {
            current_page: Page::DomainPage,
            counter: 0,
            theme: Theme::Light,
            domain_names: initial_domain_names(),
            current_domain_name: None,
            add_domain_field: form,
            last_page: None,
            config,
        }
    }

    fn close_help(&mut self)
        ensures
            final(self)@ == after_close_help(old(self)@),
            final(self).config == old(self).config,
    {
        let target = match &self.last_page {
            Some(p) => Some(p.duplicate()),
            None => None,
        };
        if let Some(p) = target {
            self.current_page = p;
        }
    }

    fn open_help(&mut self, from: Page)
        ensures
            final(self)@ == after_open_help(old(self)@, from@),
            final(self).config == old(self).config,
    {
        self.last_page = Some(from);
        self.current_page = Page::Help;
    }

    /// Applies one message, as `update_view` says; the counter is not
    /// raised past the largest `i32`.
    pub fn update(&mut self, message: Message)
        requires
            message is Increment ==> old(self).counter < i32::MAX,
        ensures
            final(self)@ == update_view(old(self)@, message),
            final(self).config == old(self).config,
    {
        let ghost before = self@;
        match message {
            Message::Increment => {
                self.counter = self.counter + 1;
            },
            Message::Decrement => {
                if self.counter > 0 {
                    self.counter = self.counter - 1;
                }
            },
            Message::ToggleTheme => {
                self.theme = match self.theme {
                    Theme::Light => Theme::Dark,
                    Theme::Dark => Theme::Light,
                };
            },
            Message::ChangePage(page) => {
                self.current_page = page;
            },
            Message::DomainDeleted(_) => {},
            Message::AddDomainFormChanged(domain_name) => {
                self.add_domain_field.domain_name = domain_name;
            },
            Message::SubmitDomainForm => {
                let d = DomainName::from_name(self.add_domain_field.domain_name.clone());
                self.domain_names.push(d);
                self.current_page = Page::DomainPage;
                assert(self@.domain_names =~= before.domain_names.push(
                    DomainNameView { provider: Seq::empty(), name: before.form_name, dns_record: Seq::empty() },
                ));
            },
            Message::DnsProviderSelected(provider) => {
                self.add_domain_field.provider = Some(provider);
            },
            Message::ToHelp => {
                self.current_page = Page::Help;
            },
            Message::KeyInput { key } => {
                match handle_key(self, &key) {
                    Some(Message::CloseHelp) => self.close_help(),
                    Some(Message::OpenHelp { last_page }) => self.open_help(last_page),
                    _ => {},
                }
            },
            Message::OpenHelp { last_page } => {
                self.open_help(last_page);
            },
            Message::CloseHelp => {
                self.close_help();
            },
        }
    }
}

impl Default for App {
    /// The window in its initial state, with the settings of the shipped
    /// configuration.
    fn default() -> (r: App)
        ensures
            r@ == initial_view(r.config@),
            r.config.name@ == "Domain Manager"@,
            r.config.description@ == "A simple domain manager"@,
            r.config.version@ == "1.0.0"@,
            r.config.author@ == "Stanic.xyz"@,
            r.config.license == LICENCE::MulanPSL2,
            r.config.domain_names@.len() == 0,
            r.config.locale@ == "en"@,
    {
        App::new(
            Config {
                name: owned("Domain Manager"),
                description: owned("A simple domain manager"),
                version: owned("1.0.0"),
                author: owned("Stanic.xyz"),
                license: LICENCE::MulanPSL2,
                domain_names: Vec::new(),
                locale: owned("en"),
            },
        )
    }
}

} // verus!

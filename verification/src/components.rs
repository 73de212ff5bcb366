//! The state and display decisions of the reusable list components: the
//! DNS record list with its type filter, search and inline form, and the
//! domain list.

use crate::gui_model::{DnsRecordModal, DomainModal};
use crate::text::{
    decimal, i64_to_string, push_decimal, lemma_i32_text_parses_back, lowercase, owned, parse_i32, parse_i32_spec, push_str, seq_contains, signed_decimal,
    str_contains, str_eq, to_lowercase,
};
use std::collections::HashMap;
use vstd::prelude::*;
use vstd::std_specs::hash::{builds_valid_hashers, obeys_key_model};

verus! {

/// Visual styles of a component.
#[derive(Debug, Clone, PartialEq)]
pub enum ComponentStyle {
    Default,
    Primary,
    Secondary,
    Success,
    Warning,
    Error,
    Info,
    Custom(String),
}

/// Which parts of a DNS record row are shown and which actions it offers.
#[derive(Debug, Clone, Copy)]
pub struct DnsRecordDisplayConfig {
    pub show_type: bool,
    pub show_value: bool,
    pub show_ttl: bool,
    pub show_priority: bool,
    pub show_status: bool,
    pub show_actions: bool,
    pub editable: bool,
    pub deletable: bool,
}

impl Default for DnsRecordDisplayConfig {
    fn default() -> (r: DnsRecordDisplayConfig)
        ensures
            r.show_type && r.show_value && r.show_ttl && r.show_priority && r.show_status
                && r.show_actions && r.editable && r.deletable,
    {
        DnsRecordDisplayConfig {
            show_type: true,
            show_value: true,
            show_ttl: true,
            show_priority: true,
            show_status: true,
            show_actions: true,
            editable: true,
            deletable: true,
        }
    }
}

/// Which parts of a domain row are shown, and whether it can be clicked.
#[derive(Debug, Clone, Copy)]
pub struct DomainListItemConfig {
    pub show_provider: bool,
    pub show_status: bool,
    pub show_record_count: bool,
    pub show_last_sync: bool,
    pub clickable: bool,
}

impl Default for DomainListItemConfig {
    fn default() -> (r: DomainListItemConfig)
        ensures
            r.show_provider && r.show_status && r.show_record_count && r.show_last_sync && r.clickable,
    {
        DomainListItemConfig {
            show_provider: true,
            show_status: true,
            show_record_count: true,
            show_last_sync: true,
            clickable: true,
        }
    }
}

/// A record-type filter of the record list.
#[derive(Debug, Clone, Copy, PartialEq, Eq, Structural)]
pub enum DnsRecordFilter {
    All,
    A,
    AAAA,
    CNAME,
    MX,
    TXT,
    NS,
    SRV,
    PTR,
}

/// The label of a filter; for a type filter, the type's code.
pub open spec fn filter_text(f: DnsRecordFilter) -> Seq<char> {
    match f {
        DnsRecordFilter::All => "全部"@,
        DnsRecordFilter::A => "A"@,
        DnsRecordFilter::AAAA => "AAAA"@,
        DnsRecordFilter::CNAME => "CNAME"@,
        DnsRecordFilter::MX => "MX"@,
        DnsRecordFilter::TXT => "TXT"@,
        DnsRecordFilter::NS => "NS"@,
        DnsRecordFilter::SRV => "SRV"@,
        DnsRecordFilter::PTR => "PTR"@,
    }
}

/// The filters the filter bar offers, in order.
pub open spec fn filter_bar_choices() -> Seq<DnsRecordFilter> {
    seq![
        DnsRecordFilter::All,
        DnsRecordFilter::A,
        DnsRecordFilter::AAAA,
        DnsRecordFilter::CNAME,
        DnsRecordFilter::MX,
        DnsRecordFilter::TXT,
        DnsRecordFilter::NS,
    ]
}

impl DnsRecordFilter {
    /// The label of the filter.
    pub fn as_str(&self) -> (r: &'static str)
        ensures
            r@ == filter_text(*self),
    {
        match self {
            DnsRecordFilter::All => "全部",
            DnsRecordFilter::A => "A",
            DnsRecordFilter::AAAA => "AAAA",
            DnsRecordFilter::CNAME => "CNAME",
            DnsRecordFilter::MX => "MX",
            DnsRecordFilter::TXT => "TXT",
            DnsRecordFilter::NS => "NS",
            DnsRecordFilter::SRV => "SRV",
            DnsRecordFilter::PTR => "PTR",
        }
    }

    /// The filter lets a record of type `record_type` through: `All` lets
    /// every record through, a type filter those of its own type.
    pub fn matches(&self, record_type: &str) -> (r: bool)
        ensures
            r == (*self == DnsRecordFilter::All || filter_text(*self) == record_type@),
    {
        match self {
            DnsRecordFilter::All => true,
            _ => str_eq(self.as_str(), record_type),
        }
    }

    /// The filters the filter bar offers, in order.
    pub fn filter_bar() -> (r: Vec<DnsRecordFilter>)
        ensures
            r@ == filter_bar_choices(),
    {
        let r = vec![
            DnsRecordFilter::All,
            DnsRecordFilter::A,
            DnsRecordFilter::AAAA,
            DnsRecordFilter::CNAME,
            DnsRecordFilter::MX,
            DnsRecordFilter::TXT,
            DnsRecordFilter::NS,
        ];
        assert(r@ =~= filter_bar_choices());
        r
    }

    /// The filter's button is highlighted: the selected type is its label,
    /// or no type is selected and this is `All`.
    pub fn is_active(&self, selected: &Option<String>) -> (r: bool)
        ensures
            r == (match selected {
                Some(t) => t@ == filter_text(*self),
                None => *self == DnsRecordFilter::All,
            }),
    {
        match selected {
            Some(t) => str_eq(t.as_str(), self.as_str()),
            None => *self == DnsRecordFilter::All,
        }
    }

    /// The type the filter's button selects: none for `All`, else its label.
    pub fn selection(&self) -> (r: Option<String>)
        ensures
            *self == DnsRecordFilter::All ==> r is None,
            *self != DnsRecordFilter::All ==> (r matches Some(t) && t@ == filter_text(*self)),
    {
        if *self == DnsRecordFilter::All {
            None
        } else {
            Some(owned(self.as_str()))
        }
    }
}

/// What the record list is narrowed to: a record type, and a search text.
#[derive(Debug, Clone)]
pub struct RecordFilter {
    pub record_type: Option<String>,
    pub search_keyword: String,
}

impl Default for RecordFilter {
    fn default() -> (r: RecordFilter)
        ensures
            r.record_type is None,
            r.search_keyword@.len() == 0,
    {
        RecordFilter { record_type: None, search_keyword: String::new() }
    }
}

/// A record passes the narrowing: it has the selected type, if one is
/// selected, and when a search text is given, its name, value or type
/// contains that text, letter case ignored.
pub open spec fn record_passes(f: RecordFilter, r: DnsRecordModal) -> bool {
    &&& (f.record_type matches Some(t) ==> r.record_type@ == t@)
    &&& (f.search_keyword@.len() > 0 ==> {
        let q = lowercase(f.search_keyword@);
        ||| seq_contains(lowercase(r.name@), q)
        ||| seq_contains(lowercase(r.value@), q)
        ||| seq_contains(lowercase(r.record_type@), q)
    })
}

/// The records of `s` that pass the narrowing, in order.
pub open spec fn filtered_records(s: Seq<DnsRecordModal>, f: RecordFilter) -> Seq<DnsRecordModal>
    decreases s.len(),
{
    if s.len() == 0 {
        Seq::empty()
    } else if record_passes(f, s.last()) {
        filtered_records(s.drop_last(), f).push(s.last())
    } else {
        filtered_records(s.drop_last(), f)
    }
}

/// The selected type, if any, is the record's type.
pub open spec fn type_selected(f: RecordFilter, r: DnsRecordModal) -> bool {
    f.record_type matches Some(t) ==> r.record_type@ == t@
}

/// No search text is given, or the record's host, value or type contains
/// it, letter case ignored.
pub open spec fn text_found(f: RecordFilter, r: DnsRecordModal) -> bool {
    let q = lowercase(f.search_keyword@);
    ||| f.search_keyword@.len() == 0
    ||| seq_contains(lowercase(r.name@), q)
    ||| seq_contains(lowercase(r.value@), q)
    ||| seq_contains(lowercase(r.record_type@), q)
}

proof fn lemma_filtered_records_is_filter(s: Seq<DnsRecordModal>, f: RecordFilter)
    ensures
        filtered_records(s, f) == s.filter(|r: DnsRecordModal| type_selected(f, r) && text_found(f, r)),
    decreases s.len(),
{
    reveal(Seq::filter);
    if s.len() > 0 {
        lemma_filtered_records_is_filter(s.drop_last(), f);
    }
}

/// What the record filter keeps, for every list and filter: exactly the
/// records of the selected type (if one is selected) whose host, value or
/// type contains the search text (letter case ignored), in their order. In
/// particular a record of the selected type whose value contains the search
/// text is kept.
pub proof fn lemma_filter_keeps_matching_records(records: Seq<DnsRecordModal>, f: RecordFilter, out: Seq<DnsRecordModal>)
    requires
        out.len() == filtered_records(records, f).len(),
        forall|i: int| 0 <= i < out.len() ==> out[i] == filtered_records(records, f)[i],
    ensures
        out == records.filter(|r: DnsRecordModal| type_selected(f, r) && text_found(f, r)),
        forall|i: int|
            0 <= i < records.len() && type_selected(f, records[i]) && seq_contains(
                lowercase(records[i].value@),
                lowercase(f.search_keyword@),
            ) ==> #[trigger] out.contains(records[i]),
        forall|i: int|
            0 <= i < records.len() && type_selected(f, records[i]) && text_found(f, records[i])
                ==> #[trigger] out.contains(records[i]),
        forall|i: int| 0 <= i < out.len() ==> type_selected(f, #[trigger] out[i]) && text_found(f, out[i]),
{
    let pred = |r: DnsRecordModal| type_selected(f, r) && text_found(f, r);
    lemma_filtered_records_is_filter(records, f);
    assert(out =~= filtered_records(records, f));
    assert forall|i: int|
        0 <= i < records.len() && type_selected(f, records[i]) && text_found(f, records[i])
            implies #[trigger] out.contains(records[i]) by {
        records.lemma_filter_contains(pred, i);
    }
    assert forall|i: int| 0 <= i < out.len() implies type_selected(f, #[trigger] out[i]) && text_found(f, out[i]) by {
        records.lemma_filter_pred(pred, i);
    }
}

fn passes(f: &RecordFilter, r: &DnsRecordModal) -> (b: bool)
    ensures
        b == record_passes(*f, *r),
{
    if let Some(t) = &f.record_type {
        if !str_eq(r.record_type.as_str(), t.as_str()) {
            return false;
        }
    }
    if f.search_keyword.as_str().unicode_len() > 0 {
        let q = to_lowercase(f.search_keyword.as_str());
        let name = to_lowercase(r.name.as_str());
        let value = to_lowercase(r.value.as_str());
        let kind = to_lowercase(r.record_type.as_str());
        let found = str_contains(name.as_str(), q.as_str()) || str_contains(value.as_str(), q.as_str())
            || str_contains(kind.as_str(), q.as_str());
        if !found {
            return false;
        }
    }
    true
}

/// What the buttons of a record row are.
#[derive(Debug, Clone, Copy, PartialEq, Eq, Structural)]
pub enum RecordActions {
    /// The row is neither hovered nor selected: no buttons.
    Hidden,
    /// A deletion of this record awaits confirmation: confirm and cancel.
    ConfirmDelete,
    /// Edit and delete.
    EditOrDelete,
}

/// The buttons of the row of record `id`, given the hovered and the
/// to-be-deleted record and whether the row is selected.
pub open spec fn record_actions_spec(hovered: Option<usize>, selected: bool, deleting: Option<usize>, id: i64) -> RecordActions {
    if hovered == Some(id as usize) || selected {
        if deleting == Some(id as usize) {
            RecordActions::ConfirmDelete
        } else {
            RecordActions::EditOrDelete
        }
    } else {
        RecordActions::Hidden
    }
}

/// The value the TTL input keeps after the user types `input`: the typed
/// number when it parses, 0 when the input is emptied, else the old value.
pub open spec fn ttl_after_input(input: Seq<char>, current: i32) -> i32 {
    match parse_i32_spec(input) {
        Some(v) => v,
        None => if input.len() == 0 {
            0
        } else {
            current
        },
    }
}

/// A TTL typed back exactly as a record row shows it (after `TTL: `) is
/// the record's TTL.
pub proof fn lemma_ttl_label_reads_back(ttl: i32, current: i32)
    ensures
        ttl_after_input(signed_decimal(ttl as int), current) == ttl,
{
    lemma_i32_text_parses_back(ttl);
}

/// The message of the record list when it has nothing to show.
pub open spec fn empty_records_text(domain: Option<Seq<char>>) -> Seq<char> {
    match domain {
        Some(d) => "域名 "@ + d + " 暂无DNS记录"@,
        None => "请先选择一个域名"@,
    }
}

/// State of the DNS record list component. Its look (sizes, margins,
/// opacity) is kept by the application.
#[derive(Debug, Clone)]
pub struct DnsRecordsComponent {
    pub selected_record: Option<String>,
    pub show_details: bool,
    pub edit_mode: bool,
    pub editing_record: Option<DnsRecordModal>,
    pub is_adding: bool,
}

impl DnsRecordsComponent {
    /// A list showing details, with nothing selected, edited or being added.
    pub fn new() -> (r: DnsRecordsComponent)
        ensures
            r.selected_record is None,
            r.show_details,
            !r.edit_mode,
            r.editing_record is None,
            !r.is_adding,
    {
        DnsRecordsComponent {
            selected_record: None,
            show_details: true,
            edit_mode: false,
            editing_record: None,
            is_adding: false,
        }
    }

    /// Shows the inline form if hidden, hides it if shown.
    pub fn toggle_add_mode(&mut self)
        ensures
            final(self).is_adding == !old(self).is_adding,
            final(self).selected_record == old(self).selected_record,
            final(self).edit_mode == old(self).edit_mode,
            final(self).editing_record == old(self).editing_record,
            final(self).show_details == old(self).show_details,
    {
        self.is_adding = !self.is_adding;
    }

    /// Selects the record with id `record_id`, or none.
    pub fn set_selected_record(&mut self, record_id: Option<String>)
        ensures
            final(self).selected_record == record_id,
            final(self).is_adding == old(self).is_adding,
            final(self).edit_mode == old(self).edit_mode,
            final(self).editing_record == old(self).editing_record,
            final(self).show_details == old(self).show_details,
    {
        self.selected_record = record_id;
    }

    /// Starts editing `record`.
    pub fn start_edit(&mut self, record: DnsRecordModal)
        ensures
            final(self).edit_mode,
            final(self).editing_record == Some(record),
            final(self).selected_record == old(self).selected_record,
            final(self).is_adding == old(self).is_adding,
            final(self).show_details == old(self).show_details,
    {
        self.edit_mode = true;
        self.editing_record = Some(record);
    }

    /// Stops editing.
    pub fn cancel_edit(&mut self)
        ensures
            !final(self).edit_mode,
            final(self).editing_record is None,
            final(self).selected_record == old(self).selected_record,
            final(self).is_adding == old(self).is_adding,
            final(self).show_details == old(self).show_details,
    {
        self.edit_mode = false;
        self.editing_record = None;
    }

    /// The records that pass the narrowing, in order.
    pub fn filter_records<'a>(&self, records: &'a Vec<DnsRecordModal>, filter: &RecordFilter) -> (r: Vec<
        &'a DnsRecordModal,
    >)
        ensures
            r@.len() == filtered_records(records@, *filter).len(),
            forall|i: int| 0 <= i < r@.len() ==> *r@[i] == filtered_records(records@, *filter)[i],
    {
        let mut out: Vec<&'a DnsRecordModal> = Vec::new();
        let mut i: usize = 0;
        while i < records.len()
            invariant
                i <= records@.len(),
                out@.len() == filtered_records(records@.subrange(0, i as int), *filter).len(),
                forall|j: int|
                    0 <= j < out@.len() ==> *out@[j] == filtered_records(
                        records@.subrange(0, i as int),
                        *filter,
                    )[j],
            decreases records@.len() - i,
        {
            let ok = passes(filter, &records[i]);
            proof {
                assert(records@.subrange(0, i + 1).drop_last() =~= records@.subrange(0, i as int));
            }
            if ok {
                out.push(&records[i]);
            }
            i = i + 1;
        }
        assert(records@.subrange(0, records@.len() as int) =~= records@);
        out
    }

    /// The title of the inline form: editing when it holds a record id.
    pub fn add_form_title(is_edit: bool) -> (r: &'static str)
        ensures
            r@ == (if is_edit {
                "编辑DNS记录"@
            } else {
                "添加DNS记录"@
            }),
    {
        if is_edit {
            "编辑DNS记录"
        } else {
            "添加DNS记录"
        }
    }

    /// The TTL the form keeps after the user types `input` over `current`.
    pub fn ttl_input(input: &str, current: i32) -> (r: i32)
        ensures
            r == ttl_after_input(input@, current),
    {
        match parse_i32(input) {
            Some(v) => v,
            None => {
                if input.unicode_len() == 0 {
                    0
                } else {
                    current
                }
            },
        }
    }

    /// The buttons of the row of record `record_id`.
    pub fn record_actions(hovered: Option<usize>, is_selected: bool, deleting: Option<usize>, record_id: i64) -> (r:
        RecordActions)
        ensures
            r == record_actions_spec(hovered, is_selected, deleting, record_id),
    {
        let id = record_id as usize;
        let is_hovered = match hovered {
            Some(h) => h == id,
            None => false,
        };
        if is_hovered || is_selected {
            let is_deleting = match deleting {
                Some(d) => d == id,
                None => false,
            };
            if is_deleting {
                RecordActions::ConfirmDelete
            } else {
                RecordActions::EditOrDelete
            }
        } else {
            RecordActions::Hidden
        }
    }

    /// The TTL label of a record row: `TTL: <ttl>`.
    pub fn ttl_label(ttl: i32) -> (r: String)
        ensures
            r@ == "TTL: "@ + signed_decimal(ttl as int),
    {
        let mut s = owned("TTL: ");
        let t = i64_to_string(ttl as i64);
        push_str(&mut s, t.as_str());
        s
    }

    /// The message of the record list when it has nothing to show.
    pub fn empty_state_message(domain: Option<&str>) -> (r: String)
        ensures
            r@ == empty_records_text(
                match domain {
                    Some(d) => Some(d@),
                    None => None,
                },
            ),
    {
        match domain {
            Some(d) => {
                let mut s = owned("域名 ");
                push_str(&mut s, d);
                push_str(&mut s, " 暂无DNS记录");
                s
            },
            None => owned("请先选择一个域名"),
        }
    }
}

/// What the domain list shows.
#[derive(Debug, Clone, Copy, PartialEq, Eq, Structural)]
pub enum DomainListView {
    Loading,
    Items,
    Error,
    Empty,
}

/// What the domain list shows: the loading state first, then the domains
/// when there are any, then the error message when there is one, and the
/// empty state otherwise.
pub open spec fn domain_list_view_spec(is_loading: bool, domain_count: nat, message: Seq<char>) -> DomainListView {
    if is_loading {
        DomainListView::Loading
    } else if domain_count > 0 {
        DomainListView::Items
    } else if message.len() > 0 {
        DomainListView::Error
    } else {
        DomainListView::Empty
    }
}

/// State of the domain list component. Its look is kept by the application.
#[derive(Debug, Clone)]
pub struct DomainListComponent {
    pub selected_domain: Option<String>,
    pub show_details: bool,
}

impl DomainListComponent {
    /// A list showing details, with no domain selected.
    pub fn new() -> (r: DomainListComponent)
        ensures
            r.selected_domain is None,
            r.show_details,
    {
        DomainListComponent { selected_domain: None, show_details: true }
    }

    /// Selects the domain named `domain`, or none.
    pub fn set_selected_domain(&mut self, domain: Option<String>)
        ensures
            final(self).selected_domain == domain,
            final(self).show_details == old(self).show_details,
    {
        self.selected_domain = domain;
    }

    /// The name of the selected domain.
    pub fn get_selected_domain(&self) -> (r: Option<&String>)
        ensures
            r == (match self.selected_domain {
                Some(s) => Some(&s),
                None => None,
            }),
    {
        self.selected_domain.as_ref()
    }

    /// Shows or hides the detail line of each row.
    pub fn set_show_details(&mut self, show_details: bool)
        ensures
            final(self).show_details == show_details,
            final(self).selected_domain == old(self).selected_domain,
    {
        self.show_details = show_details;
    }

    /// The row of domain `name` is highlighted: it is the selected one.
    pub fn is_selected(&self, name: &str) -> (r: bool)
        ensures
            r == (self.selected_domain matches Some(s) && s@ == name@),
    {
        match &self.selected_domain {
            Some(s) => str_eq(s.as_str(), name),
            None => false,
        }
    }

    /// What the list shows, given the loading flag, the number of domains
    /// and the status message.
    pub fn view_state(is_loading: bool, domain_count: usize, message: &str) -> (r: DomainListView)
        ensures
            r == domain_list_view_spec(is_loading, domain_count as nat, message@),
    {
        if is_loading {
            DomainListView::Loading
        } else if domain_count > 0 {
            DomainListView::Items
        } else if message.unicode_len() > 0 {
            DomainListView::Error
        } else {
            DomainListView::Empty
        }
    }
}

impl Default for DomainListComponent {
    fn default() -> (r: DomainListComponent)
        ensures
            r.selected_domain is None,
            r.show_details,
    {
        DomainListComponent::new()
    }
}

/// What the version button of the footer does when pressed.
#[derive(Debug, Clone, PartialEq, Eq)]
pub enum ReleaseAction {
    /// Open the download page of the website.
    OpenDownloadPage,
    /// Show this toast.
    ShowToast(String),
}

/// The tooltip of the version button.
#[derive(Debug, Clone, PartialEq, Eq)]
pub enum ReleaseTooltip {
    /// The translated "new version available" text.
    NewVersionAvailable,
    /// This text.
    Text(String),
}

/// The version button of the footer: its label, whether it is drawn as a
/// warning, whether it carries the update mark (else the up-to-date
/// tick), its action and its tooltip.
#[derive(Debug, Clone)]
pub struct ReleaseDetails {
    pub label: String,
    pub warning: bool,
    pub update_mark: bool,
    pub action: ReleaseAction,
    pub tooltip: ReleaseTooltip,
}

/// The footer's version button, given what the release check found
/// (`None` while it has not answered) and the running version: a newer
/// release turns it into a warning that opens the download page; otherwise
/// it shows a tick and answers "当前已是最新版本".
pub fn release_details(newer_release: Option<bool>, version: &str) -> (r: ReleaseDetails)
    ensures
        r.label@ == "domain_manager v"@ + version@,
        r.warning == (newer_release == Some(true)),
        r.update_mark == (newer_release == Some(true)),
        newer_release == Some(true) ==> r.action == ReleaseAction::OpenDownloadPage
            && r.tooltip == ReleaseTooltip::NewVersionAvailable,
        newer_release != Some(true) ==> (r.action matches ReleaseAction::ShowToast(t) && t@ == "当前已是最新版本"@)
            && (r.tooltip matches ReleaseTooltip::Text(t) && t@ == "点击检查更新"@),
{
    let has_update = match newer_release {
        Some(b) => b,
        None => false,
    };
    let mut label = owned("domain_manager v");
    push_str(&mut label, version);
    if has_update {
        ReleaseDetails {
            label,
            warning: true,
            update_mark: true,
            action: ReleaseAction::OpenDownloadPage,
            tooltip: ReleaseTooltip::NewVersionAvailable,
        }
    } else {
        ReleaseDetails {
            label,
            warning: false,
            update_mark: false,
            action: ReleaseAction::ShowToast(owned("当前已是最新版本")),
            tooltip: ReleaseTooltip::Text(owned("点击检查更新")),
        }
    }
}

/// The colour of a domain's status mark.
#[derive(Debug, Clone, Copy, PartialEq, Eq, Structural)]
pub enum StatusColor {
    Green,
    Red,
    Grey,
}

/// The detail line of a domain item; each part is there when the item
/// configuration asks for it.
#[derive(Debug, Clone)]
pub struct DomainItemDetails {
    pub provider: Option<String>,
    pub records: Option<String>,
    pub last_sync: Option<String>,
}

/// One item of the domain list component.
#[derive(Debug, Clone)]
pub struct DomainItem {
    pub status_mark: Option<StatusColor>,
    pub name: String,
    pub selected: bool,
    pub details: Option<DomainItemDetails>,
    pub clickable: bool,
}

/// The status mark colour of a stored status text.
pub open spec fn status_color(status: Seq<char>) -> StatusColor {
    if status == "Active"@ {
        StatusColor::Green
    } else if status == "Error"@ {
        StatusColor::Red
    } else {
        StatusColor::Grey
    }
}

/// The number of records cached for domain `id`: none when nothing is
/// cached for it.
pub open spec fn cached_count(cache: Map<usize, Vec<DnsRecordModal>>, id: usize) -> nat {
    if cache.contains_key(id) {
        cache[id]@.len()
    } else {
        0
    }
}

fn records_cached_for(cache: &HashMap<usize, Vec<DnsRecordModal>>, id: usize) -> (n: usize)
    ensures
        n == cached_count(cache@, id),
{
    proof {
        broadcast use vstd::std_specs::hash::group_hash_axioms;
        assert(obeys_key_model::<usize>() && builds_valid_hashers::<std::collections::hash_map::RandomState>());
    }
    match cache.get(&id) {
        Some(v) => v.len(),
        None => 0,
    }
}

/// What `chrono` writes for the UTC time `secs` seconds after the epoch
/// in the format `%Y-%m-%d %H:%M`, or none when it cannot represent it.
pub uninterp spec fn utc_minute_text(secs: i64) -> Option<Seq<char>>;

/// Calls `chrono::DateTime::<Utc>::from_timestamp_secs` and formats the
/// time as `%Y-%m-%d %H:%M`; the result is the named text, which depends on
/// the number of seconds alone (UTC, no local time zone).
#[verifier::external_body]
fn format_utc_minute(secs: i64) -> (r: Option<String>)
    ensures
        match r {
            Some(t) => utc_minute_text(secs) == Some(t@),
            None => utc_minute_text(secs) is None,
        },
{
    match chrono::DateTime::<chrono::Utc>::from_timestamp_secs(secs) {
        Some(t) => Some(t.format("%Y-%m-%d %H:%M").to_string()),
        None => None,
    }
}

/// The synchronisation record of one domain: its name and when it was
/// last synchronised (seconds since the epoch, UTC), if ever.
#[derive(Debug, Clone)]
pub struct DomainSyncStats {
    pub name: String,
    pub last_sync: Option<i64>,
}

/// The last sync time recorded for `name`: that of the first record for
/// it.
pub open spec fn last_sync_of(stats: Seq<DomainSyncStats>, name: Seq<char>) -> Option<i64>
    decreases stats.len(),
{
    if stats.len() == 0 {
        None
    } else if stats[0].name@ == name {
        stats[0].last_sync
    } else {
        last_sync_of(stats.drop_first(), name)
    }
}

/// The sync text of domain `name`: its last sync time as
/// `%Y-%m-%d %H:%M` (UTC), or "未同步" when it never synced or the time
/// cannot be written.
pub open spec fn sync_text(stats: Seq<DomainSyncStats>, name: Seq<char>) -> Seq<char> {
    match last_sync_of(stats, name) {
        Some(secs) => match utc_minute_text(secs) {
            Some(t) => t,
            None => "未同步"@,
        },
        None => "未同步"@,
    }
}

fn find_last_sync(stats: &Vec<DomainSyncStats>, name: &String) -> (r: Option<i64>)
    ensures
        r == last_sync_of(stats@, name@),
{
    let mut i: usize = 0;
    assert(stats@.subrange(0, stats@.len() as int) =~= stats@);
    while i < stats.len()
        invariant
            i <= stats@.len(),
            last_sync_of(stats@, name@) == last_sync_of(stats@.subrange(i as int, stats@.len() as int), name@),
        decreases stats@.len() - i,
    {
        proof {
            let rest = stats@.subrange(i as int, stats@.len() as int);
            assert(rest[0] == stats@[i as int]);
            assert(rest.drop_first() =~= stats@.subrange(i + 1, stats@.len() as int));
        }
        if str_eq(stats[i].name.as_str(), name.as_str()) {
            return stats[i].last_sync;
        }
        i = i + 1;
    }
    None
}

/// The sync text of domain `name`, as `sync_text` says.
pub fn sync_time_label(stats: &Vec<DomainSyncStats>, name: &String) -> (r: String)
    ensures
        r@ == sync_text(stats@, name@),
{
    match find_last_sync(stats, name) {
        Some(secs) => match format_utc_minute(secs) {
            Some(t) => t,
            None => owned("未同步"),
        },
        None => owned("未同步"),
    }
}

/// The item of stored domain `d`: the status mark when configured, its
/// name, whether it is selected, and, when details are shown, the
/// provider (`provider_label`), the number of records cached for it and
/// its last sync time from `stats` (or "未同步") as configured.
pub fn domain_item(
    d: &DomainModal,
    is_selected: bool,
    config: &DomainListItemConfig,
    show_details: bool,
    cache: &HashMap<usize, Vec<DnsRecordModal>>,
    provider_label: &str,
    stats: &Vec<DomainSyncStats>,
) -> (r: DomainItem)
    ensures
        r.status_mark == (if config.show_status { Some(status_color(d.status@)) } else { None }),
        r.name@ == d.name@,
        r.selected == is_selected,
        r.clickable == config.clickable,
        show_details <==> r.details is Some,
        r.details matches Some(x) ==> {
            &&& (x.provider is Some <==> config.show_provider)
            &&& (x.provider matches Some(p) ==> p@ == "提供商: "@ + provider_label@)
            &&& (x.records is Some <==> config.show_record_count)
            &&& (x.records matches Some(t) ==> t@ == "记录: "@ + decimal(cached_count(cache@, d.id as usize)))
            &&& (x.last_sync is Some <==> config.show_last_sync)
            &&& (x.last_sync matches Some(t) ==> t@ == "同步: "@ + sync_text(stats@, d.name@))
        },
{
    let status_mark = if config.show_status {
        Some(
            if str_eq(d.status.as_str(), "Active") {
                StatusColor::Green
            } else if str_eq(d.status.as_str(), "Error") {
                StatusColor::Red
            } else {
                StatusColor::Grey
            },
        )
    } else {
        None
    };
    let details = if show_details {
        let provider = if config.show_provider {
            let mut t = owned("提供商: ");
            push_str(&mut t, provider_label);
            Some(t)
        } else {
            None
        };
        let records = if config.show_record_count {
            let n = records_cached_for(cache, d.id as usize);
            let mut t = owned("记录: ");
            push_decimal(&mut t, n as u64);
            Some(t)
        } else {
            None
        };
        let sync = if config.show_last_sync {
            let mut t = owned("同步: ");
            let shown = sync_time_label(stats, &d.name);
            push_str(&mut t, shown.as_str());
            Some(t)
        } else {
            None
        };
        Some(DomainItemDetails { provider, records, last_sync: sync })
    } else {
        None
    };
    DomainItem { status_mark, name: d.name.clone(), selected: is_selected, details, clickable: config.clickable }
}

} // verus!

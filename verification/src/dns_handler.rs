//! The handler of DNS record messages: loading, adding, editing and
//! deleting records, the record form and the list's filter, search, hover
//! and selection.

use crate::app_state::{
    AddDnsForm, AppState, DataState, DnsMessage, Effect, HandlerResult, MessageCategory,
    NotificationMessage, UiState,
};
use crate::components::RecordFilter;
use crate::datastore_handler::toast_shown;
use crate::dns_record::{editor_type_from_code, Type};
use crate::gui_model::{same_provider, AddDnsField, DnsRecordModal, DomainProvider, Page};
use crate::text::{
    decimal, i64_to_string, owned, push_decimal, push_str, seq_contains, signed_decimal, str_contains,
};
use vstd::prelude::*;

verus! {

/// The id of the selected domain as a `usize`, or 0 without one.
pub open spec fn selected_domain_id(d: DataState) -> usize {
    match d.selected_domain {
        Some(s) => s.id as usize,
        None => 0,
    }
}

/// `new` is `old` with only the status message changed, to `text`.
pub open spec fn message_set(old: AppState, new: AppState, text: Seq<char>) -> bool {
    &&& new == (AppState { ui: UiState { message: new.ui.message, ..old.ui }, ..old })
    &&& new.ui.message@ == text
}

/// How asking for the records of domain `id` changes the state: the filter
/// is cleared and progress reported; with a connection the stored records
/// are loaded, without one that is reported instead.
pub open spec fn query_record_outcome(old: AppState, new: AppState, id: usize, r: HandlerResult) -> bool {
    let cleared = AppState { data: DataState { dns_record_filter: new.data.dns_record_filter, ..old.data }, ..old };
    &&& new.data.dns_record_filter.record_type is None
    &&& new.data.dns_record_filter.search_keyword@.len() == 0
    &&& match old.database {
        Some(conn) => {
            &&& message_set(cleared, new, "正在查询 "@ + decimal(id as nat) + " 的DNS记录..."@)
            &&& r == HandlerResult::StateUpdatedWithTask(Effect::LoadDnsRecords { conn, domain_id: id })
        },
        None => message_set(cleared, new, "数据库未连接"@) && r is StateUpdated,
    }
}

/// The record an add request stores: id 0 until the store gives one, the
/// given domain, type, host, value and TTL, no priority, enabled, created
/// and updated at `now`.
pub open spec fn requested_record(
    rec: DnsRecordModal,
    domain_id: usize,
    record_type: Seq<char>,
    name: Seq<char>,
    value: Seq<char>,
    ttl: u32,
    now: i64,
) -> bool {
    &&& rec.id == 0
    &&& rec.domain_id == domain_id as i64
    &&& rec.record_type@ == record_type
    &&& rec.name@ == name
    &&& rec.value@ == value
    &&& rec.ttl == ttl as i32
    &&& rec.priority is None
    &&& rec.enabled
    &&& rec.created_at == now
    &&& rec.updated_at == Some(now)
}

/// The form after the user starts editing `rec`: its id (as text), host,
/// value, TTL and type (one of the editable types, else `A`), shown.
pub open spec fn form_for_record(old: AddDnsForm, new: AddDnsForm, rec: DnsRecordModal) -> bool {
    &&& new.field.record_id matches Some(t) && t@ == signed_decimal(rec.id as int)
    &&& new.field.record_name == rec.name
    &&& new.field.value == rec.value
    &&& new.field.ttl == rec.ttl
    &&& new.field.record_type == Some(editor_type_from_code(rec.record_type@))
    &&& new.field.domain_name == old.field.domain_name
    &&& new.is_visible
}

/// The form is back to its defaults: empty, TTL 600, type `A`, hidden.
pub open spec fn form_reset(f: AddDnsForm) -> bool {
    &&& f.field.record_id is None
    &&& f.field.record_name@.len() == 0
    &&& f.field.domain_name@.len() == 0
    &&& f.field.ttl == 600
    &&& f.field.record_type == Some(Type::A)
    &&& f.field.value@.len() == 0
    &&& !f.is_visible
}

/// The position of the first account of `s` whose id, as a `usize`, is `id`.
pub open spec fn provider_index(s: Seq<DomainProvider>, id: usize) -> Option<int> {
    if exists|i: int| 0 <= i < s.len() && s[i].account_id as usize == id {
        Some(choose|i: int| 0 <= i < s.len() && s[i].account_id as usize == id && forall|j: int| 0 <= j < i ==> s[j].account_id as usize != id)
    } else {
        None
    }
}

/// How selecting DNS provider account `id` changes the state.
pub open spec fn provider_selected_outcome(old: AppState, new: AppState, id: usize, r: HandlerResult) -> bool {
    &&& r is StateUpdated
    &&& match provider_index(old.data.provider_page.providers@, id) {
        Some(i) => {
            let p = old.data.provider_page.providers@[i];
            &&& new == (AppState {
                ui: UiState { message: new.ui.message, ..old.ui },
                data: DataState { selected_provider: new.data.selected_provider, ..old.data },
                ..old
            })
            &&& new.data.selected_provider matches Some(q) && same_provider(q, p)
            &&& new.ui.message@ == "已选择DNS提供商，标识："@ + signed_decimal(p.account_id as int) + ",名称："@
                + p.provider_name@
        },
        None => new == (AppState { ui: new.ui, ..old }) && toast_shown(
            old.ui,
            new.ui,
            "DNS提供商 "@ + decimal(id as nat) + " 不存在"@,
        ),
    }
}

/// The message the outcome of a submitted record form is answered with:
/// success refreshes the domain's records; a duplicate record is reported
/// as such, any other failure with its reason.
pub open spec fn form_result_answer(result: Result<(), String>, domain_id: usize, m: MessageCategory) -> bool {
    match result {
        Ok(()) => m == MessageCategory::Dns(DnsMessage::FormSubmitSuccess(domain_id)),
        Err(e) => m matches MessageCategory::Notification(NotificationMessage::ShowToast(t)) && t@ == (
        if seq_contains(e@, "DomainRecordDuplicate"@) || seq_contains(e@, "already exists"@) {
            "DNS记录已存在"@
        } else {
            "操作失败: "@ + e@
        }),
    }
}

/// How a DNS message changes the state and what it asks for; `now` is the
/// current time for the records it creates.
pub open spec fn dns_outcome(old: AppState, new: AppState, message: DnsMessage, now: i64, r: HandlerResult) -> bool {
    match message {
        DnsMessage::QueryRecord(id) => query_record_outcome(old, new, id, r),
        DnsMessage::AddRecord { domain_id, record_type, name, value, ttl } => {
            if record_type@.len() == 0 || value@.len() == 0 {
                new == (AppState { ui: new.ui, ..old }) && toast_shown(old.ui, new.ui, "请填写完整的DNS记录信息"@)
                    && r is StateUpdated
            } else {
                match old.database {
                    Some(conn) => {
                        &&& message_set(old, new, "正在添加DNS记录: "@ + record_type@ + " "@ + name@ + " "@ + value@)
                        &&& r matches HandlerResult::StateUpdatedWithTask(Effect::AddDnsRecord { conn: c, record })
                            && c == conn && requested_record(record, domain_id, record_type@, name@, value@, ttl, now)
                    },
                    None => message_set(old, new, "数据库未连接"@) && r is StateUpdated,
                }
            }
        },
        DnsMessage::DeleteRecord { domain_id, record_id } => match old.database {
            Some(conn) => {
                &&& message_set(old, new, "正在删除DNS记录: "@ + decimal(record_id as nat))
                &&& r == HandlerResult::StateUpdatedWithTask(
                    Effect::DeleteAndReloadDnsRecord { conn, domain_id, record_id },
                )
            },
            None => message_set(old, new, "数据库未连接"@) && r is StateUpdated,
        },
        DnsMessage::Delete(record_id) => {
            let cleared = AppState { data: DataState { deleting_dns_record_id: None, ..old.data }, ..old };
            match old.database {
                Some(conn) => new == cleared && r == HandlerResult::Task(
                    Effect::DeleteAndReloadDnsRecord { conn, domain_id: selected_domain_id(old.data), record_id },
                ),
                None => message_set(cleared, new, "数据库未连接"@) && r is StateUpdated,
            }
        },
        DnsMessage::DeleteRequest(id) => r is StateUpdated && new == (AppState {
            data: DataState { deleting_dns_record_id: Some(id), ..old.data },
            ..old
        }),
        DnsMessage::DeleteCancel => r is StateUpdated && new == (AppState {
            data: DataState { deleting_dns_record_id: None, ..old.data },
            ..old
        }),
        DnsMessage::RecordHovered(h) => r is StateUpdated && new == (AppState {
            ui: UiState { hovered_dns_record: h, ..old.ui },
            ..old
        }),
        DnsMessage::EditRecord(rec) => {
            &&& r is StateUpdated
            &&& new == (AppState { data: DataState { add_dns_form: new.data.add_dns_form, ..old.data }, ..old })
            &&& form_for_record(old.data.add_dns_form, new.data.add_dns_form, rec)
        },
        DnsMessage::FormNameChanged(s) => r is StateUpdated && new == (AppState {
            data: DataState {
                add_dns_form: AddDnsForm {
                    field: AddDnsField { record_name: s, ..old.data.add_dns_form.field },
                    ..old.data.add_dns_form
                },
                ..old.data
            },
            ..old
        }),
        DnsMessage::FormRecordTypeChanged(t) => r is StateUpdated && new == (AppState {
            data: DataState {
                add_dns_form: AddDnsForm {
                    field: AddDnsField { record_type: Some(t), ..old.data.add_dns_form.field },
                    ..old.data.add_dns_form
                },
                ..old.data
            },
            ..old
        }),
        DnsMessage::FormValueChanged(s) => r is StateUpdated && new == (AppState {
            data: DataState {
                add_dns_form: AddDnsForm {
                    field: AddDnsField { value: s, ..old.data.add_dns_form.field },
                    ..old.data.add_dns_form
                },
                ..old.data
            },
            ..old
        }),
        DnsMessage::FormTtlChanged(t) => r is StateUpdated && new == (AppState {
            data: DataState {
                add_dns_form: AddDnsForm {
                    field: AddDnsField { ttl: t, ..old.data.add_dns_form.field },
                    ..old.data.add_dns_form
                },
                ..old.data
            },
            ..old
        }),
        DnsMessage::FormSubmit => match old.data.selected_domain {
            None => r is StateUpdated && new == old,
            Some(d) => match old.database {
                Some(conn) => new == old && r == HandlerResult::Task(
                    Effect::SubmitDnsForm {
                        conn,
                        form: old.data.add_dns_form.field,
                        domain_id: d.id as usize,
                        is_update: old.data.add_dns_form.field.record_id is Some,
                    },
                ),
                None => message_set(old, new, "数据库未连接"@) && r is StateUpdated,
            },
        },
        DnsMessage::FormSubmitSuccess(id) => {
            let reset = AppState { data: DataState { add_dns_form: new.data.add_dns_form, ..old.data }, ..old };
            &&& form_reset(new.data.add_dns_form)
            &&& query_record_outcome(reset, new, id, r)
        },
        DnsMessage::FormCancelled => {
            &&& r is StateUpdated
            &&& new == (AppState {
                ui: UiState { current_page: Page::DnsRecord, ..old.ui },
                data: DataState { add_dns_form: new.data.add_dns_form, ..old.data },
                ..old
            })
            &&& form_reset(new.data.add_dns_form)
        },
        DnsMessage::DnsFilterChanged(f) => r is StateUpdated && new == (AppState {
            data: DataState {
                dns_record_filter: RecordFilter { record_type: f, ..old.data.dns_record_filter },
                ..old.data
            },
            ..old
        }),
        DnsMessage::DnsSearchChanged(k) => r is StateUpdated && new == (AppState {
            data: DataState {
                dns_record_filter: RecordFilter { search_keyword: k, ..old.data.dns_record_filter },
                ..old.data
            },
            ..old
        }),
        DnsMessage::RecordDeleted(_) => r is StateUpdated && new == (AppState {
            ui: UiState { current_page: Page::DnsRecord, ..old.ui },
            ..old
        }),
        DnsMessage::ProviderSelected(id) => if id == 99999 {
            r is StateUpdated && new == (AppState {
                data: DataState {
                    add_dns_form: AddDnsForm {
                        is_visible: !old.data.add_dns_form.is_visible,
                        ..old.data.add_dns_form
                    },
                    ..old.data
                },
                ..old
            })
        } else {
            provider_selected_outcome(old, new, id, r)
        },
        DnsMessage::ProviderChange(name) => r is StateUpdated && message_set(old, new, "切换到DNS提供商: "@ + name@),
        DnsMessage::DnsRecordReloaded(_, records) => {
            &&& r is StateUpdated
            &&& new == (AppState {
                ui: UiState { message: new.ui.message, is_loading: false, ..old.ui },
                data: DataState { current_dns_records: records, ..old.data },
                ..old
            })
            &&& new.ui.message@ == "DNS记录已更新，共 "@ + decimal(records@.len()) + " 条"@
        },
        _ => r is Nothing && new == old,
    }
}

/// An add request the handler can carry out: a TTL that does not fit in
/// 32 signed bits cannot be stored.
pub open spec fn dns_message_ok(message: DnsMessage) -> bool {
    match message {
        DnsMessage::AddRecord { record_type, value, ttl, .. } => record_type@.len() == 0 || value@.len() == 0
            || ttl <= i32::MAX,
        _ => true,
    }
}

/// Handles DNS record messages.
#[derive(Debug, Default)]
pub struct DnsHandler {}

fn not_connected(state: &mut AppState) -> (r: HandlerResult)
    ensures
        message_set(*old(state), *final(state), "数据库未连接"@),
        r is StateUpdated,
{
    state.ui.message = owned("数据库未连接");
    HandlerResult::StateUpdated
}

impl DnsHandler {
    /// A handler.
    pub fn new() -> (r: DnsHandler)
        ensures
            r == (DnsHandler {}),
    {
        DnsHandler {}
    }

    fn handle_query_record(&self, state: &mut AppState, domain_id: usize) -> (r: HandlerResult)
        ensures
            query_record_outcome(*old(state), *final(state), domain_id, r),
    {
        state.data.dns_record_filter = RecordFilter::default();
        let mut m = owned("正在查询 ");
        push_decimal(&mut m, domain_id as u64);
        push_str(&mut m, " 的DNS记录...");
        state.ui.message = m;
        match state.database {
            Some(conn) => HandlerResult::StateUpdatedWithTask(Effect::LoadDnsRecords { conn, domain_id }),
            None => not_connected(state),
        }
    }

    fn handle_add_record(
        &self,
        state: &mut AppState,
        domain_id: usize,
        record_type: String,
        name: String,
        value: String,
        ttl: u32,
        now: i64,
    ) -> (r: HandlerResult)
        requires
            record_type@.len() == 0 || value@.len() == 0 || ttl <= i32::MAX,
        ensures
            dns_outcome(
                *old(state),
                *final(state),
                DnsMessage::AddRecord { domain_id, record_type, name, value, ttl },
                now,
                r,
            ),
    {
        if record_type.as_str().unicode_len() == 0 || value.as_str().unicode_len() == 0 {
            state.ui.show_toast(owned("请填写完整的DNS记录信息"));
            return HandlerResult::StateUpdated;
        }
        let mut m = owned("正在添加DNS记录: ");
        push_str(&mut m, record_type.as_str());
        push_str(&mut m, " ");
        push_str(&mut m, name.as_str());
        push_str(&mut m, " ");
        push_str(&mut m, value.as_str());
        state.ui.message = m;
        match state.database {
            Some(conn) => {
                let record = DnsRecordModal {
                    id: 0,
                    domain_id: domain_id as i64,
                    record_type,
                    name,
                    value,
                    ttl: ttl as i32,
                    priority: None,
                    enabled: true,
                    created_at: now,
                    updated_at: Some(now),
                };
                HandlerResult::StateUpdatedWithTask(Effect::AddDnsRecord { conn, record })
            },
            None => not_connected(state),
        }
    }

    fn handle_edit_record(&self, state: &mut AppState, record: DnsRecordModal) -> (r: HandlerResult)
        ensures
            r is StateUpdated,
            *final(state) == (AppState {
                data: DataState { add_dns_form: final(state).data.add_dns_form, ..old(state).data },
                ..*old(state)
            }),
            form_for_record(old(state).data.add_dns_form, final(state).data.add_dns_form, record),
    {
        let record_type = Type::from_editor_code(record.record_type.as_str());
        state.data.add_dns_form.field.record_id = Some(i64_to_string(record.id));
        state.data.add_dns_form.field.record_name = record.name;
        state.data.add_dns_form.field.value = record.value;
        state.data.add_dns_form.field.ttl = record.ttl;
        state.data.add_dns_form.field.record_type = Some(record_type);
        state.data.add_dns_form.is_visible = true;
        HandlerResult::StateUpdated
    }

    fn handle_provider_selected(&self, state: &mut AppState, provider_id: usize) -> (r: HandlerResult)
        ensures
            provider_selected_outcome(*old(state), *final(state), provider_id, r),
    {
        let ghost s = state.data.provider_page.providers@;
        let mut i: usize = 0;
        while i < state.data.provider_page.providers.len()
            invariant
                *state == *old(state),
                s == state.data.provider_page.providers@,
                i <= s.len(),
                forall|j: int| 0 <= j < i ==> s[j].account_id as usize != provider_id,
            decreases s.len() - i,
        {
            if state.data.provider_page.providers[i].account_id as usize == provider_id {
                proof {
                    let w = choose|k: int| 0 <= k < s.len() && s[k].account_id as usize == provider_id && forall|j: int|
                        0 <= j < k ==> s[j].account_id as usize != provider_id;
                    assert(0 <= i < s.len() && s[i as int].account_id as usize == provider_id && forall|j: int|
                        0 <= j < i ==> s[j].account_id as usize != provider_id);
                    if w < i {
                        assert(s[w].account_id as usize != provider_id);
                    } else if w > i {
                        assert(s[i as int].account_id as usize != provider_id);
                    }
                }
                let p = state.data.provider_page.providers[i].duplicate();
                let mut m = owned("已选择DNS提供商，标识：");
                let id_text = i64_to_string(p.account_id);
                push_str(&mut m, id_text.as_str());
                push_str(&mut m, ",名称：");
                push_str(&mut m, p.provider_name.as_str());
                state.data.selected_provider = Some(p);
                state.ui.message = m;
                return HandlerResult::StateUpdated;
            }
            i = i + 1;
        }
        let mut m = owned("DNS提供商 ");
        push_decimal(&mut m, provider_id as u64);
        push_str(&mut m, " 不存在");
        state.ui.show_toast(m);
        HandlerResult::StateUpdated
    }

    /// The message the outcome of a submitted record form is answered
    /// with, for domain `domain_id`.
    pub fn handle_form_result(result: Result<(), String>, domain_id: usize) -> (m: MessageCategory)
        ensures
            form_result_answer(result, domain_id, m),
    {
        match result {
            Ok(()) => MessageCategory::Dns(DnsMessage::FormSubmitSuccess(domain_id)),
            Err(e) => {
                let t = if str_contains(e.as_str(), "DomainRecordDuplicate") || str_contains(
                    e.as_str(),
                    "already exists",
                ) {
                    owned("DNS记录已存在")
                } else {
                    let mut t = owned("操作失败: ");
                    push_str(&mut t, e.as_str());
                    t
                };
                MessageCategory::Notification(NotificationMessage::ShowToast(t))
            },
        }
    }

    fn handle_form_submit(&self, state: &mut AppState) -> (r: HandlerResult)
        ensures
            dns_outcome(*old(state), *final(state), DnsMessage::FormSubmit, 0, r),
    {
        let _ = state.data.add_dns_form.field.validate();
        let domain_id = match &state.data.selected_domain {
            Some(d) => d.id as usize,
            None => {
                return HandlerResult::StateUpdated;
            },
        };
        match state.database {
            Some(conn) => {
                let form = state.data.add_dns_form.field.duplicate();
                let is_update = form.record_id.is_some();
                HandlerResult::Task(Effect::SubmitDnsForm { conn, form, domain_id, is_update })
            },
            None => not_connected(state),
        }
    }

    fn handle_form_and_list(&self, state: &mut AppState, event: DnsMessage) -> (r: HandlerResult)
        requires
            event is FormNameChanged || event is FormRecordTypeChanged || event is FormValueChanged
                || event is FormTtlChanged || event is DnsFilterChanged || event is DnsSearchChanged
                || event is DeleteRequest || event is DeleteCancel || event is RecordHovered
                || event is RecordDeleted || event is FormCancelled,
        ensures
            dns_outcome(*old(state), *final(state), event, 0, r),
    {
        match event {
            DnsMessage::DeleteRequest(record_id) => {
                state.data.deleting_dns_record_id = Some(record_id);
            },
            DnsMessage::DeleteCancel => {
                state.data.deleting_dns_record_id = None;
            },
            DnsMessage::RecordHovered(record_id) => {
                state.ui.hovered_dns_record = record_id;
            },
            DnsMessage::FormNameChanged(record_name) => {
                state.data.add_dns_form.field.record_name = record_name;
            },
            DnsMessage::FormRecordTypeChanged(record_type) => {
                state.data.add_dns_form.field.record_type = Some(record_type);
            },
            DnsMessage::FormValueChanged(value) => {
                state.data.add_dns_form.field.value = value;
            },
            DnsMessage::FormTtlChanged(ttl) => {
                state.data.add_dns_form.field.ttl = ttl;
            },
            DnsMessage::FormCancelled => {
                state.data.add_dns_form = AddDnsForm::default();
                state.ui.current_page = Page::DnsRecord;
            },
            DnsMessage::DnsFilterChanged(filter) => {
                state.data.dns_record_filter.record_type = filter;
            },
            DnsMessage::DnsSearchChanged(keyword) => {
                state.data.dns_record_filter.search_keyword = keyword;
            },
            _ => {
                state.ui.current_page = Page::DnsRecord;
            },
        }
        HandlerResult::StateUpdated
    }

    fn handle_records(&self, state: &mut AppState, event: DnsMessage) -> (r: HandlerResult)
        requires
            event is DeleteRecord || event is Delete || event is ProviderSelected || event is ProviderChange
                || event is DnsRecordReloaded,
        ensures
            dns_outcome(*old(state), *final(state), event, 0, r),
    {
        match event {
            DnsMessage::DeleteRecord { domain_id, record_id } => {
                let mut m = owned("正在删除DNS记录: ");
                push_decimal(&mut m, record_id as u64);
                state.ui.message = m;
                match state.database {
                    Some(conn) => HandlerResult::StateUpdatedWithTask(
                        Effect::DeleteAndReloadDnsRecord { conn, domain_id, record_id },
                    ),
                    None => not_connected(state),
                }
            },
            DnsMessage::Delete(record_id) => {
                state.data.deleting_dns_record_id = None;
                let domain_id = match &state.data.selected_domain {
                    Some(d) => d.id as usize,
                    None => 0,
                };
                match state.database {
                    Some(conn) => HandlerResult::Task(
                        Effect::DeleteAndReloadDnsRecord { conn, domain_id, record_id },
                    ),
                    None => not_connected(state),
                }
            },
            DnsMessage::ProviderSelected(account_id) => {
                if account_id == 99999 {
                    state.data.add_dns_form.is_visible = !state.data.add_dns_form.is_visible;
                    HandlerResult::StateUpdated
                } else {
                    self.handle_provider_selected(state, account_id)
                }
            },
            DnsMessage::ProviderChange(provider) => {
                let mut m = owned("切换到DNS提供商: ");
                push_str(&mut m, provider.as_str());
                state.ui.message = m;
                HandlerResult::StateUpdated
            },
            DnsMessage::DnsRecordReloaded(_domain_id, records) => {
                state.data.current_dns_records = records;
                let mut m = owned("DNS记录已更新，共 ");
                push_decimal(&mut m, state.data.current_dns_records.len() as u64);
                push_str(&mut m, " 条");
                state.ui.message = m;
                state.ui.is_loading = false;
                HandlerResult::StateUpdated
            },
            _ => HandlerResult::Nothing,
        }
    }

    /// Handles one DNS message, as `dns_outcome` says.
    pub fn handle(&self, state: &mut AppState, event: DnsMessage, now: i64) -> (r: HandlerResult)
        requires
            dns_message_ok(event),
        ensures
            dns_outcome(*old(state), *final(state), event, now, r),
    {
        match event {
            DnsMessage::QueryRecord(domain_id) => self.handle_query_record(state, domain_id),
            DnsMessage::AddRecord { domain_id, record_type, name, value, ttl } => self.handle_add_record(
                state,
                domain_id,
                record_type,
                name,
                value,
                ttl,
                now,
            ),
            DnsMessage::EditRecord(record) => self.handle_edit_record(state, record),
            DnsMessage::FormSubmit => self.handle_form_submit(state),
            DnsMessage::FormSubmitSuccess(domain_id) => {
                state.data.add_dns_form = AddDnsForm::default();
                self.handle_query_record(state, domain_id)
            },
            DnsMessage::DeleteRecord { .. } | DnsMessage::Delete(_) | DnsMessage::ProviderSelected(_)
            | DnsMessage::ProviderChange(_) | DnsMessage::DnsRecordReloaded(..) => self.handle_records(state, event),
            DnsMessage::FormNameChanged(_) | DnsMessage::FormRecordTypeChanged(_) | DnsMessage::FormValueChanged(_)
            | DnsMessage::FormTtlChanged(_) | DnsMessage::DnsFilterChanged(_) | DnsMessage::DnsSearchChanged(_)
            | DnsMessage::DeleteRequest(_) | DnsMessage::DeleteCancel | DnsMessage::RecordHovered(_)
            | DnsMessage::RecordDeleted(_) | DnsMessage::FormCancelled => self.handle_form_and_list(state, event),
            _ => HandlerResult::Nothing,
        }
    }
}

} // verus!

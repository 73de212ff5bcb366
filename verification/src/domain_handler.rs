//! The handler of domain messages: selecting, adding, deleting and looking
//! up domains.

use crate::app_state::{
    AddDomainFormMessage, AppState, DataState, DnsMessage, DomainMessage, Effect,
    HandlerResult, MessageCategory, NotificationMessage, UiState,
};
use crate::datastore_handler::toast_shown;
use crate::dns_record::{Line, Record, Status, Type};
use crate::gui_model::{DnsProvider, Domain, DomainModal, DomainStatus, DnsRecordModal, Page};
use crate::text::{decimal, owned, push_decimal, push_str, str_eq};
use std::collections::HashMap;
use vstd::prelude::*;
use vstd::std_specs::hash::{builds_valid_hashers, obeys_key_model};

verus! {

/// The position of the first domain of `s` whose id, as a `usize`, is `id`.
pub open spec fn domain_index(s: Seq<DomainModal>, id: usize) -> Option<int> {
    if exists|i: int| 0 <= i < s.len() && s[i].id as usize == id {
        Some(choose|i: int| 0 <= i < s.len() && s[i].id as usize == id && forall|j: int| 0 <= j < i ==> s[j].id as usize != id)
    } else {
        None
    }
}

/// `s` holds a domain named `name`.
pub open spec fn has_domain_named(s: Seq<DomainModal>, name: Seq<char>) -> bool {
    exists|i: int| 0 <= i < s.len() && s[i].name@ == name
}

/// The domains of `s` whose id, as a `usize`, is not `id`, in order.
pub open spec fn domains_without(s: Seq<DomainModal>, id: usize) -> Seq<DomainModal>
    decreases s.len(),
{
    if s.len() == 0 {
        Seq::empty()
    } else if s.last().id as usize != id {
        domains_without(s.drop_last(), id).push(s.last())
    } else {
        domains_without(s.drop_last(), id)
    }
}

/// `domain <id> <suffix>` in the wording of the domain page.
pub open spec fn domain_id_text(id: usize, suffix: Seq<char>) -> Seq<char> {
    "域名 "@ + decimal(id as nat) + suffix
}

fn domain_id_message(id: usize, suffix: &str) -> (r: String)
    ensures
        r@ == domain_id_text(id, suffix@),
{
    let mut m = owned("域名 ");
    push_decimal(&mut m, id as u64);
    push_str(&mut m, suffix);
    m
}

fn find_domain(s: &Vec<DomainModal>, id: usize) -> (r: Option<usize>)
    ensures
        match r {
            Some(i) => domain_index(s@, id) == Some(i as int) && i < s@.len(),
            None => domain_index(s@, id) is None,
        },
{
    let mut i: usize = 0;
    while i < s.len()
        invariant
            i <= s@.len(),
            forall|j: int| 0 <= j < i ==> s@[j].id as usize != id,
        decreases s@.len() - i,
    {
        if s[i].id as usize == id {
            proof {
                let w = choose|k: int| 0 <= k < s@.len() && s@[k].id as usize == id && forall|j: int|
                    0 <= j < k ==> s@[j].id as usize != id;
                assert(0 <= i < s@.len() && s@[i as int].id as usize == id && forall|j: int|
                    0 <= j < i ==> s@[j].id as usize != id);
                if w < i {
                    assert(s@[w].id as usize != id);
                } else if w > i {
                    assert(s@[i as int].id as usize != id);
                }
            }
            return Some(i);
        }
        i = i + 1;
    }
    None
}

fn has_name(s: &Vec<DomainModal>, name: &str) -> (r: bool)
    ensures
        r == has_domain_named(s@, name@),
{
    let mut i: usize = 0;
    while i < s.len()
        invariant
            i <= s@.len(),
            forall|j: int| 0 <= j < i ==> s@[j].name@ != name@,
        decreases s@.len() - i,
    {
        if str_eq(s[i].name.as_str(), name) {
            return true;
        }
        i = i + 1;
    }
    false
}

fn retain_domains(v: &mut Vec<DomainModal>, id: usize)
    ensures
        final(v)@ == domains_without(old(v)@, id),
{
    let ghost before = v@;
    let mut kept: Vec<DomainModal> = Vec::new();
    let mut rest: Vec<DomainModal> = Vec::new();
    std::mem::swap(&mut rest, v);
    let n = rest.len();
    let mut i: usize = 0;
    while i < n
        invariant
            n == before.len(),
            i <= n,
            rest@ == before.subrange(i as int, n as int),
            kept@ == domains_without(before.subrange(0, i as int), id),
        decreases n - i,
    {
        let d = rest.remove(0);
        proof {
            assert(d == before[i as int]);
            assert(before.subrange(0, i + 1).drop_last() =~= before.subrange(0, i as int));
            assert(rest@ =~= before.subrange(i + 1, n as int));
        }
        if d.id as usize != id {
            kept.push(d);
        }
        i = i + 1;
    }
    assert(before.subrange(0, n as int) =~= before);
    *v = kept;
}


fn drop_cached(c: &mut HashMap<usize, Vec<DnsRecordModal>>, id: usize)
    ensures
        final(c)@ == old(c)@.remove(id),
{
    proof {
        broadcast use vstd::std_specs::hash::group_hash_axioms;
        assert(obeys_key_model::<usize>() && builds_valid_hashers::<std::collections::hash_map::RandomState>());
    }
    c.remove(&id);
}

/// How selecting domain `id` changes the state: a listed domain becomes
/// the selected one and the record page opens and asks for its records;
/// an unknown one is reported.
pub open spec fn domain_selected_outcome(old: AppState, new: AppState, id: usize, r: HandlerResult) -> bool {
    match domain_index(old.data.domain_list@, id) {
        Some(i) => {
            let d = old.data.domain_list@[i];
            &&& new == (AppState {
                ui: UiState { selected_domain: Some(d), current_page: Page::DnsRecord, ..old.ui },
                data: DataState { selected_domain: Some(d), ..old.data },
                ..old
            })
            &&& r matches HandlerResult::Task(Effect::Emit(MessageCategory::Dns(DnsMessage::QueryRecord(q)))) && q == id
        },
        None => {
            &&& new == (AppState { ui: new.ui, ..old })
            &&& toast_shown(old.ui, new.ui, domain_id_text(id, " 不存在"@))
            &&& r is StateUpdated
        },
    }
}

/// The new domain the add-domain form stores: id 0 until the store gives
/// one, account 1, active, created and updated at `now`.
pub open spec fn submitted_domain(d: DomainModal, name: Seq<char>, now: i64) -> bool {
    &&& d.id == 0
    &&& d.name@ == name
    &&& d.provider_id == 1
    &&& d.status@ == "active"@
    &&& d.created_at == now
    &&& d.updated_at == Some(now)
}

/// How submitting the add-domain form changes the state: an empty name, a
/// missing provider and a name already listed are each reported; otherwise
/// the domain is listed, the form emptied, the domain page shown and the
/// addition reported.
pub open spec fn submit_form_outcome(old: AppState, new: AppState, now: i64, r: HandlerResult) -> bool {
    let name = old.ui.add_domain_field.domain_name@;
    &&& r is StateUpdated
    &&& if name.len() == 0 {
        new == (AppState { ui: new.ui, ..old }) && toast_shown(old.ui, new.ui, "请输入域名"@)
    } else if old.ui.add_domain_field.provider is None {
        new == (AppState { ui: new.ui, ..old }) && toast_shown(old.ui, new.ui, "请选择托管商"@)
    } else if has_domain_named(old.data.domain_list@, name) {
        new == (AppState { ui: new.ui, ..old }) && toast_shown(old.ui, new.ui, "域名 "@ + name + " 已存在"@)
    } else {
        &&& new == (AppState { ui: new.ui, data: new.data, ..old })
        &&& new.data == (DataState { domain_list: new.data.domain_list, ..old.data })
        &&& new.data.domain_list@.len() == old.data.domain_list@.len() + 1
        &&& new.data.domain_list@.drop_last() == old.data.domain_list@
        &&& submitted_domain(new.data.domain_list@.last(), name, now)
        &&& toast_shown(
            UiState { add_domain_field: new.ui.add_domain_field, current_page: Page::DomainPage, ..old.ui },
            new.ui,
            "域名 "@ + name + " 添加成功"@,
        )
        &&& new.ui.add_domain_field.domain_name@.len() == 0
        &&& new.ui.add_domain_field.provider == Some(crate::gui_model::DnsProvider::Aliyun)
    }
}

/// No two domains of `s` have the same name.
pub open spec fn names_distinct(s: Seq<DomainModal>) -> bool {
    forall|i: int, j: int| 0 <= i < j < s.len() ==> #[trigger] s[i].name@ != #[trigger] s[j].name@
}

/// Submitting the add-domain form keeps the listed domain names distinct:
/// a name already listed is refused, and only a new name is added.
pub proof fn lemma_submit_keeps_names_distinct(old: AppState, new: AppState, now: i64, r: HandlerResult)
    requires
        submit_form_outcome(old, new, now, r),
        names_distinct(old.data.domain_list@),
    ensures
        names_distinct(new.data.domain_list@),
{
    let name = old.ui.add_domain_field.domain_name@;
    if name.len() != 0 && old.ui.add_domain_field.provider is Some && !has_domain_named(old.data.domain_list@, name) {
        let s = new.data.domain_list@;
        let o = old.data.domain_list@;
        assert forall|i: int, j: int| 0 <= i < j < s.len() implies #[trigger] s[i].name@ != #[trigger] s[j].name@ by {
            if j == s.len() - 1 {
                assert(s[i] == o[i]);
                assert(s[j] == s.last());
                if s[i].name@ == name {
                    assert(has_domain_named(o, name));
                }
            } else {
                assert(s[i] == s.drop_last()[i]);
                assert(s[j] == s.drop_last()[j]);
            }
        }
    }
}

/// A domain whose id, as a `usize`, is not `id`.
pub open spec fn domain_id_other_than(id: usize) -> spec_fn(DomainModal) -> bool {
    |d: DomainModal| d.id as usize != id
}

proof fn lemma_domains_without_is_filter(s: Seq<DomainModal>, id: usize)
    ensures
        domains_without(s, id) == s.filter(domain_id_other_than(id)),
        (forall|j: int| 0 <= j < s.len() ==> s[j].id as usize != id) ==> s.filter(domain_id_other_than(id)) == s,
    decreases s.len(),
{
    reveal(Seq::filter);
    if s.len() > 0 {
        lemma_domains_without_is_filter(s.drop_last(), id);
        if forall|j: int| 0 <= j < s.len() ==> s[j].id as usize != id {
            assert forall|j: int| 0 <= j < s.drop_last().len() implies s.drop_last()[j].id as usize != id by {
                assert(s.drop_last()[j] == s[j]);
            }
            assert(s.drop_last().push(s.last()) =~= s);
        }
    }
}

/// Deleting domain `id` keeps exactly the listed domains with another id,
/// in their order: every other domain stays (also those listed before it),
/// and none with that id is left.
pub proof fn lemma_domain_deletion_keeps_others(old: AppState, new: AppState, id: usize, now: i64, r: HandlerResult)
    requires
        domain_outcome(old, new, DomainMessage::Delete(id), now, r),
    ensures
        new.data.domain_list@ == old.data.domain_list@.filter(domain_id_other_than(id)),
        forall|i: int| 0 <= i < new.data.domain_list@.len() ==> (#[trigger] new.data.domain_list@[i]).id as usize != id,
        forall|d: DomainModal| #[trigger] old.data.domain_list@.contains(d) && d.id as usize != id
            ==> new.data.domain_list@.contains(d),
{
    let s = old.data.domain_list@;
    lemma_domains_without_is_filter(s, id);
    if domain_index(s, id) is None {
        assert forall|j: int| 0 <= j < s.len() implies s[j].id as usize != id by {
            if s[j].id as usize == id {
                assert(exists|i: int| 0 <= i < s.len() && s[i].id as usize == id);
            }
        }
    }
    assert forall|i: int| 0 <= i < new.data.domain_list@.len() implies (#[trigger] new.data.domain_list@[i]).id as usize != id by {
        s.lemma_filter_pred(domain_id_other_than(id), i);
    }
    assert forall|d: DomainModal| #[trigger] s.contains(d) && d.id as usize != id implies new.data.domain_list@.contains(d) by {
        let i = choose|i: int| 0 <= i < s.len() && s[i] == d;
        s.lemma_filter_contains(domain_id_other_than(id), i);
    }
}

/// How deleting domain `id` changes the state: the pending deletion is
/// dropped; an unknown domain is reported; otherwise the domain and its
/// cached records go, the selection is cleared if it was that domain, and
/// the deletion is reported.
pub open spec fn delete_domain_outcome(old: AppState, new: AppState, id: usize, r: HandlerResult) -> bool {
    let cleared = DataState { deleting_domain_id: None, ..old.data };
    &&& r is StateUpdated
    &&& if domain_index(old.data.domain_list@, id) is None {
        new == (AppState { ui: new.ui, data: cleared, ..old }) && toast_shown(old.ui, new.ui, domain_id_text(id, " 不存在"@))
    } else {
        let was_selected = old.data.selected_domain matches Some(s) && s.id as usize == id;
        &&& new == (AppState { ui: new.ui, data: new.data, ..old })
        &&& new.data == (DataState {
            domain_list: new.data.domain_list,
            dns_records_cache: new.data.dns_records_cache,
            selected_domain: new.data.selected_domain,
            dns_list: new.data.dns_list,
            ..cleared
        })
        &&& new.data.domain_list@ == domains_without(old.data.domain_list@, id)
        &&& new.data.dns_records_cache@ == old.data.dns_records_cache@.remove(id)
        &&& if was_selected {
            &&& new.data.selected_domain is None
            &&& new.data.dns_list@.len() == 0
            &&& toast_shown(UiState { selected_domain: None, ..old.ui }, new.ui, domain_id_text(id, " 删除成功"@))
        } else {
            &&& new.data.selected_domain == old.data.selected_domain
            &&& new.data.dns_list == old.data.dns_list
            &&& toast_shown(old.ui, new.ui, domain_id_text(id, " 删除成功"@))
        }
    }
}

/// The message a domain lookup is answered with.
pub open spec fn query_domain_answer(result: Result<Vec<Domain>, String>, m: MessageCategory) -> bool {
    match result {
        Ok(domains) => m == MessageCategory::Domain(DomainMessage::QueryDomainResult(domains)),
        Err(e) => m matches MessageCategory::Notification(NotificationMessage::ShowToast(t)) && t@
            == "查询域名失败: "@ + e@,
    }
}

/// How a domain message changes the state and what it asks for; `now` is
/// the current time for the domains it creates.
pub open spec fn domain_outcome(old: AppState, new: AppState, message: DomainMessage, now: i64, r: HandlerResult) -> bool {
    match message {
        DomainMessage::Selected(d) => domain_selected_outcome(old, new, d.id as usize, r),
        DomainMessage::AddFormChanged(AddDomainFormMessage::Submit) => r is StateUpdated && new == old,
        DomainMessage::AddFormChanged(AddDomainFormMessage::ProviderChanged(p)) => {
            &&& r is StateUpdated
            &&& new == (AppState {
                ui: UiState {
                    add_domain_field: crate::gui_model::AddDomainField { provider: p, ..old.ui.add_domain_field },
                    ..old.ui
                },
                ..old
            })
        },
        DomainMessage::SubmitForm => submit_form_outcome(old, new, now, r),
        DomainMessage::Delete(id) => delete_domain_outcome(old, new, id, r),
        DomainMessage::DeleteRequest(id) => r is StateUpdated && new == (AppState {
            data: DataState { deleting_domain_id: Some(id), ..old.data },
            ..old
        }),
        DomainMessage::DeleteCancel => r is StateUpdated && new == (AppState {
            data: DataState { deleting_domain_id: None, ..old.data },
            ..old
        }),
        DomainMessage::Query(name) => {
            &&& new == (AppState { ui: UiState { in_query: true, ..old.ui }, ..old })
            &&& r == HandlerResult::StateUpdatedWithTask(Effect::QueryDomain { name })
        },
        DomainMessage::Reload => r is StateUpdated && new == old,
        DomainMessage::QueryDomainResult(_) => false,
    }
}

/// Handles domain messages.
#[derive(Debug, Default)]
pub struct DomainHandler {}

impl DomainHandler {
    /// A handler.
    pub fn new() -> (r: DomainHandler)
        ensures
            r == (DomainHandler {}),
    {
        DomainHandler {}
    }

    fn handle_domain_selected(&self, state: &mut AppState, domain_id: usize) -> (r: HandlerResult)
        ensures
            domain_selected_outcome(*old(state), *final(state), domain_id, r),
    {
        match find_domain(&state.data.domain_list, domain_id) {
            Some(i) => {
                let d = state.data.domain_list[i].duplicate();
                state.data.selected_domain = Some(d.duplicate());
                state.ui.selected_domain = Some(d);
                state.ui.current_page = Page::DnsRecord;
                HandlerResult::Task(Effect::Emit(MessageCategory::Dns(DnsMessage::QueryRecord(domain_id))))
            },
            None => {
                state.ui.show_toast(domain_id_message(domain_id, " 不存在"));
                HandlerResult::StateUpdated
            },
        }
    }

    /// Submits the add-domain form, as `submit_form_outcome` says; `now`
    /// is the creation time of the new domain.
    pub fn handle_submit_form(&self, state: &mut AppState, now: i64) -> (r: HandlerResult)
        ensures
            submit_form_outcome(*old(state), *final(state), now, r),
    {
        let name = state.ui.add_domain_field.domain_name.clone();
        if name.as_str().unicode_len() == 0 {
            state.ui.show_toast(owned("请输入域名"));
            return HandlerResult::StateUpdated;
        }
        if state.ui.add_domain_field.provider.is_none() {
            state.ui.show_toast(owned("请选择托管商"));
            return HandlerResult::StateUpdated;
        }
        if has_name(&state.data.domain_list, name.as_str()) {
            let mut m = owned("域名 ");
            push_str(&mut m, name.as_str());
            push_str(&mut m, " 已存在");
            state.ui.show_toast(m);
            return HandlerResult::StateUpdated;
        }
        let new_domain = DomainModal {
            id: 0,
            name: name.clone(),
            provider_id: 1,
            status: owned("active"),
            created_at: now,
            updated_at: Some(now),
        };
        state.data.domain_list.push(new_domain);
        state.ui.add_domain_field.clear();
        state.ui.current_page = Page::DomainPage;
        let mut m = owned("域名 ");
        push_str(&mut m, name.as_str());
        push_str(&mut m, " 添加成功");
        state.ui.show_toast(m);
        proof {
            assert(state.data.domain_list@.drop_last() =~= old(state).data.domain_list@);
        }
        HandlerResult::StateUpdated
    }

    #[verifier::rlimit(100)]
    fn handle_delete_domain(&self, state: &mut AppState, domain_id: usize) -> (r: HandlerResult)
        ensures
            delete_domain_outcome(*old(state), *final(state), domain_id, r),
    {
        state.data.deleting_domain_id = None;
        if find_domain(&state.data.domain_list, domain_id).is_none() {
            state.ui.show_toast(domain_id_message(domain_id, " 不存在"));
            return HandlerResult::StateUpdated;
        }
        retain_domains(&mut state.data.domain_list, domain_id);
        drop_cached(&mut state.data.dns_records_cache, domain_id);
        let was_selected = match &state.data.selected_domain {
            Some(s) => s.id as usize == domain_id,
            None => false,
        };
        if was_selected {
            state.data.selected_domain = None;
            state.ui.selected_domain = None;
            state.data.dns_list = Vec::new();
        }
        state.ui.show_toast(domain_id_message(domain_id, " 删除成功"));
        HandlerResult::StateUpdated
    }

    /// What looking up `domain_name` finds while no provider service is
    /// wired in: that domain, at Aliyun, active, expiring at the end of 2025.
    pub fn simulated_domain_query(domain_name: String) -> (r: Vec<Domain>)
        ensures
            r@.len() == 1,
            r@[0].id == 1,
            r@[0].name == domain_name,
            r@[0].provider == DnsProvider::Aliyun,
            r@[0].status == DomainStatus::Active,
            r@[0].expiry@ == "2025-12-31"@,
    {
        let mut r: Vec<Domain> = Vec::new();
        r.push(
            Domain {
                id: 1,
                name: domain_name,
                provider: DnsProvider::Aliyun,
                status: DomainStatus::Active,
                expiry: owned("2025-12-31"),
            },
        );
        r
    }

    /// The records a record query finds while no provider service is wired
    /// in; the second is stamped `now`.
    pub fn simulated_dns_records(now: i64) -> (r: Vec<Record>)
        ensures
            r@.len() == 2,
            ({
                let a = r@[0];
                &&& a.status == Status::Enable && a.rr@ == "@"@ && a.record_type == Type::A
                &&& a.value@ == "192.168.1.1"@ && a.record_id@ == "1"@ && a.ttl == 600
                &&& a.line == Line::Default && !a.locked && a.update_timestamp == Some(123i64)
                &&& a.create_timestamp == 1223 && a.weight == Some(1i64)
            }),
            ({
                let c = r@[1];
                &&& c.status == Status::Enable && c.rr@ == "www"@ && c.record_type == Type::Cname
                &&& c.value@ == "127.0.0.1"@ && c.record_id@ == "2"@ && c.ttl == 600
                &&& c.line == Line::Default && !c.locked && c.update_timestamp is None
                &&& c.create_timestamp == now && c.weight is None
            }),
    {
        let mut r: Vec<Record> = Vec::new();
        r.push(
            Record {
                status: Status::Enable,
                rr: owned("@"),
                record_type: Type::A,
                value: owned("192.168.1.1"),
                record_id: owned("1"),
                ttl: 600,
                line: Line::Default,
                locked: false,
                update_timestamp: Some(123),
                create_timestamp: 1223,
                weight: Some(1),
            },
        );
        r.push(
            Record {
                status: Status::Enable,
                rr: owned("www"),
                record_type: Type::Cname,
                value: owned("127.0.0.1"),
                record_id: owned("2"),
                ttl: 600,
                line: Line::Default,
                locked: false,
                update_timestamp: None,
                create_timestamp: now,
                weight: None,
            },
        );
        r
    }

    /// The message a domain lookup is answered with: its domains, or a
    /// toast reporting the failure.
    pub fn query_domain_result(result: Result<Vec<Domain>, String>) -> (m: MessageCategory)
        ensures
            query_domain_answer(result, m),
    {
        match result {
            Ok(domains) => MessageCategory::Domain(DomainMessage::QueryDomainResult(domains)),
            Err(e) => {
                let mut t = owned("查询域名失败: ");
                push_str(&mut t, e.as_str());
                MessageCategory::Notification(NotificationMessage::ShowToast(t))
            },
        }
    }

    /// Handles one domain message, as `domain_outcome` says; a lookup
    /// result is not a message this handler takes.
    pub fn handle(&self, state: &mut AppState, event: DomainMessage, now: i64) -> (r: HandlerResult)
        requires
            !(event is QueryDomainResult),
        ensures
            domain_outcome(*old(state), *final(state), event, now, r),
    {
        match event {
            DomainMessage::Selected(domain) => self.handle_domain_selected(state, domain.id as usize),
            DomainMessage::AddFormChanged(message) => {
                match message {
                    AddDomainFormMessage::Submit => {},
                    AddDomainFormMessage::ProviderChanged(provider) => {
                        state.ui.add_domain_field.provider = provider;
                    },
                }
                HandlerResult::StateUpdated
            },
            DomainMessage::SubmitForm => self.handle_submit_form(state, now),
            DomainMessage::Delete(domain_id) => self.handle_delete_domain(state, domain_id),
            DomainMessage::DeleteRequest(domain_id) => {
                state.data.deleting_domain_id = Some(domain_id);
                HandlerResult::StateUpdated
            },
            DomainMessage::DeleteCancel => {
                state.data.deleting_domain_id = None;
                HandlerResult::StateUpdated
            },
            DomainMessage::Query(domain_name) => {
                state.ui.in_query = true;
                HandlerResult::StateUpdatedWithTask(Effect::QueryDomain { name: domain_name })
            },
            DomainMessage::Reload => HandlerResult::StateUpdated,
            DomainMessage::QueryDomainResult(_) => HandlerResult::Nothing,
        }
    }
}

} // verus!

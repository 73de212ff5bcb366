//! The handler of synchronisation messages: synchronising one or all
//! domains, tallying the outcomes, and reloading all data.

use crate::app_state::{
    name_texts, AppState, DataState, Effect, HandlerResult, MessageCategory, NotificationMessage,
    SyncMessage, UiState,
};
use crate::datastore_handler::toast_shown;
use crate::gui_model::{
    Credential, DnsProvider, DnsRecordModal, DomainModal, DomainProvider, ProviderStatus, ReloadModel,
    TokenCredential,
};
use crate::text::{decimal, owned, push_decimal, push_str, seq_contains, str_contains, str_eq};
use vstd::prelude::*;

verus! {

/// The outcome of synchronising one domain.
#[derive(Debug, Clone)]
pub enum SyncResult {
    Failed(String),
    Success,
    Cancelled,
}

/// The outcome of synchronising many domains.
#[derive(Debug, Clone)]
pub struct BatchSyncResult {
    pub successful: Vec<SyncResult>,
    pub failed: Vec<SyncResult>,
    pub cancelled: Vec<SyncResult>,
    pub total_domains: usize,
    pub total_records: usize,
}

/// The number of successes among `s`.
pub open spec fn success_count(s: Seq<Result<usize, String>>) -> nat
    decreases s.len(),
{
    if s.len() == 0 {
        0
    } else {
        success_count(s.drop_last()) + if s.last() is Ok { 1nat } else { 0nat }
    }
}

/// The records the successes among `s` brought.
pub open spec fn record_total(s: Seq<Result<usize, String>>) -> nat
    decreases s.len(),
{
    if s.len() == 0 {
        0
    } else {
        record_total(s.drop_last()) + match s.last() {
            Ok(n) => n as nat,
            Err(_) => 0nat,
        }
    }
}

proof fn lemma_record_total_prefix(s: Seq<Result<usize, String>>, k: int)
    requires
        0 <= k <= s.len(),
    ensures
        record_total(s.subrange(0, k)) <= record_total(s),
    decreases s.len() - k,
{
    if k < s.len() {
        lemma_record_total_prefix(s, k + 1);
        assert(s.subrange(0, k + 1).drop_last() =~= s.subrange(0, k));
    } else {
        assert(s.subrange(0, k) =~= s);
    }
}

/// The domain names of a list of domains.
pub open spec fn domain_names(s: Seq<DomainModal>) -> Seq<Seq<char>> {
    s.map_values(|d: DomainModal| d.name@)
}

/// The message the outcome of synchronising all domains is answered with.
pub open spec fn all_synced_answer(failed: nat, m: SyncMessage) -> bool {
    if failed == 0 {
        m matches SyncMessage::AllComplete(Ok(()))
    } else {
        m matches SyncMessage::AllComplete(Err(e)) && e@ == "同步失败: "@ + decimal(failed) + " 个域名失败"@
    }
}

/// The number of failures among `s`: each result that is not a success.
pub open spec fn failure_count(s: Seq<Result<usize, String>>) -> nat
    decreases s.len(),
{
    if s.len() == 0 {
        0
    } else {
        failure_count(s.drop_last()) + if s.last() is Ok { 0nat } else { 1nat }
    }
}

/// Successes and failures together are all the results, and the failures
/// are none exactly when every domain synchronised.
pub proof fn lemma_sync_failures(s: Seq<Result<usize, String>>)
    ensures
        success_count(s) + failure_count(s) == s.len(),
        success_count(s) <= s.len(),
        (failure_count(s) == 0) <==> (forall|i: int| 0 <= i < s.len() ==> #[trigger] s[i] is Ok),
    decreases s.len(),
{
    if s.len() > 0 {
        lemma_sync_failures(s.drop_last());
        let d = s.drop_last();
        if failure_count(s) == 0 {
            assert forall|i: int| 0 <= i < s.len() implies #[trigger] s[i] is Ok by {
                if i < s.len() - 1 {
                    assert(s[i] == d[i]);
                }
            }
        }
        if forall|i: int| 0 <= i < s.len() ==> #[trigger] s[i] is Ok {
            assert forall|i: int| 0 <= i < d.len() implies #[trigger] d[i] is Ok by {
                assert(d[i] == s[i]);
            }
            assert(s[s.len() - 1] is Ok);
        }
    }
}

/// The successes of a batch are its results that are `Ok`, and the
/// failures those that are not.
pub proof fn lemma_success_count_counts_successes(s: Seq<Result<usize, String>>)
    ensures
        success_count(s) == s.filter(|x: Result<usize, String>| x is Ok).len(),
        failure_count(s) == s.filter(|x: Result<usize, String>| x is Err).len(),
    decreases s.len(),
{
    reveal(Seq::filter);
    if s.len() > 0 {
        lemma_success_count_counts_successes(s.drop_last());
    }
}

/// Synchronising all domains is reported as a success exactly when every
/// domain synchronised, and otherwise with the number of failed domains:
/// the tally of the results, answered as `all_synced_message` says.
pub proof fn lemma_sync_all_answer(results: Seq<Result<usize, String>>, failed: nat, m: SyncMessage)
    requires
        failed == results.len() - success_count(results),
        all_synced_answer(failed, m),
    ensures
        (m matches SyncMessage::AllComplete(Ok(()))) <==> (forall|i: int| 0 <= i < results.len() ==> #[trigger] results[i] is Ok),
        !(m matches SyncMessage::AllComplete(Ok(()))) ==> (m matches SyncMessage::AllComplete(Err(e)) && e@ == "同步失败: "@
            + decimal(failure_count(results)) + " 个域名失败"@),
{
    lemma_sync_failures(results);
}

/// The line reporting a finished batch.
pub open spec fn batch_summary(ok: nat, failed: nat, cancelled: nat, records: nat) -> Seq<char> {
    "批量同步完成: 成功 "@ + decimal(ok) + " 个，失败 "@ + decimal(failed) + " 个，取消 "@ + decimal(cancelled)
        + " 个，共处理 "@ + decimal(records) + " 条记录"@
}

/// A store row of a synchronised domain, as a completed synchronisation
/// lists it: id and name kept, status `str`, no account, no times.
pub open spec fn synced_domain(src: DomainModal, d: DomainModal) -> bool {
    &&& d.id == src.id
    &&& d.name == src.name
    &&& d.status@ == "str"@
    &&& d.created_at == 0
    &&& d.provider_id == 0
    &&& d.updated_at is None
}

/// A record as a single-domain synchronisation reports it: type, host,
/// value and TTL kept, everything else cleared.
pub open spec fn synced_record(src: DnsRecordModal, r: DnsRecordModal) -> bool {
    &&& r.id == 0
    &&& r.name == src.name
    &&& r.record_type == src.record_type
    &&& r.value == src.value
    &&& r.ttl == src.ttl
    &&& r.priority is None
    &&& !r.enabled
    &&& r.created_at == 0
    &&& r.domain_id == 0
    &&& r.updated_at is None
}

/// The placeholder account a reload reports.
pub open spec fn placeholder_provider(p: DomainProvider) -> bool {
    &&& p.account_id == 0
    &&& p.provider_name@ == "CloudFlare"@
    &&& p.provider == DnsProvider::CloudFlare
    &&& p.credential@ == crate::gui_model::CredentialView::Token(Seq::empty())
    &&& !p.is_expanded
    &&& !p.is_adding_domain
    &&& p.domains@.len() == 0
}

/// The records of a reload, flattened in the order given.
pub open spec fn flatten_records(s: Seq<(String, Vec<DnsRecordModal>)>) -> Seq<DnsRecordModal>
    decreases s.len(),
{
    if s.len() == 0 {
        Seq::empty()
    } else {
        flatten_records(s.drop_last()) + s.last().1@
    }
}

fn placeholder() -> (p: DomainProvider)
    ensures
        placeholder_provider(p),
{
    DomainProvider {
        account_id: 0,
        provider_name: owned("CloudFlare"),
        provider: DnsProvider::CloudFlare,
        credential: Credential::Token(TokenCredential { token: String::new() }),
        is_expanded: false,
        is_adding_domain: false,
        new_domain_name: String::new(),
        domains: Vec::new(),
        status: ProviderStatus::Inactive,
        last_synced_at: None,
        domain_count: 0,
    }
}

/// `new` is `old` with the syncing marks of all of `names` set to `on`.
pub open spec fn syncing_marked(old: DataState, new: DataState, names: Seq<Seq<char>>, on: bool) -> bool {
    &&& new == (DataState { syncing: new.syncing, ..old })
    &&& on ==> name_texts(new.syncing@).to_set() == name_texts(old.syncing@).to_set().union(names.to_set())
    &&& !on ==> name_texts(new.syncing@).to_set() == name_texts(old.syncing@).to_set().difference(names.to_set())
}

proof fn lemma_to_set_push(s: Seq<Seq<char>>, x: Seq<char>)
    ensures
        s.push(x).to_set() == s.to_set().insert(x),
{
    let t = s.push(x);
    assert forall|v: Seq<char>| t.contains(v) <==> (s.contains(v) || v == x) by {
        if t.contains(v) {
            let i = choose|i: int| 0 <= i < t.len() && t[i] == v;
            if i < s.len() {
                assert(s[i] == v);
            }
        }
        if s.contains(v) {
            let i = choose|i: int| 0 <= i < s.len() && s[i] == v;
            assert(t[i] == v);
        }
        if v == x {
            assert(t[s.len() as int] == x);
        }
    }
    assert(t.to_set() =~= s.to_set().insert(x));
}

fn mark_all(data: &mut DataState, names: &Vec<String>, on: bool)
    ensures
        syncing_marked(*old(data), *final(data), name_texts(names@), on),
{
    let ghost start = *data;
    proof {
        let e = name_texts(names@.subrange(0, 0));
        assert(e.to_set() =~= Set::<Seq<char>>::empty());
        let s0 = name_texts(start.syncing@).to_set();
        assert(s0.union(e.to_set()) =~= s0);
        assert(s0.difference(e.to_set()) =~= s0);
    }
    let mut i: usize = 0;
    while i < names.len()
        invariant
            i <= names@.len(),
            syncing_marked(start, *data, name_texts(names@.subrange(0, i as int)), on),
        decreases names@.len() - i,
    {
        let ghost before = *data;
        data.set_syncing(names[i].as_str(), on);
        proof {
            let prev = name_texts(names@.subrange(0, i as int));
            let next = name_texts(names@.subrange(0, i + 1));
            assert(next =~= prev.push(names@[i as int]@));
            lemma_to_set_push(prev, names@[i as int]@);
            let s0 = name_texts(start.syncing@).to_set();
            if on {
                assert(name_texts(data.syncing@).to_set() =~= s0.union(next.to_set()));
            } else {
                assert(name_texts(data.syncing@).to_set() =~= s0.difference(next.to_set()));
            }
        }
        i = i + 1;
    }
    proof {
        assert(names@.subrange(0, names@.len() as int) =~= names@);
        if on {
            assert(name_texts(data.syncing@).to_set() =~= name_texts(start.syncing@).to_set().union(name_texts(names@).to_set()));
        } else {
            assert(name_texts(data.syncing@).to_set() =~= name_texts(start.syncing@).to_set().difference(name_texts(names@).to_set()));
        }
    }
}

fn names_of(domains: &Vec<DomainModal>) -> (r: Vec<String>)
    ensures
        name_texts(r@) == domain_names(domains@),
{
    let mut out: Vec<String> = Vec::new();
    let mut i: usize = 0;
    while i < domains.len()
        invariant
            i <= domains@.len(),
            out@.len() == i,
            forall|j: int| 0 <= j < i ==> out@[j]@ == domains@[j].name@,
        decreases domains@.len() - i,
    {
        out.push(domains[i].name.clone());
        i = i + 1;
    }
    assert(name_texts(out@) =~= domain_names(domains@));
    out
}

/// How asking to synchronise every domain changes the state: with no
/// domains that is reported; otherwise syncing starts, every domain is
/// marked, progress is reported and all names are sent for synchronising.
pub open spec fn sync_all_outcome(old: AppState, new: AppState, r: HandlerResult) -> bool {
    let names = domain_names(old.data.domain_list@);
    if names.len() == 0 {
        new == (AppState { ui: new.ui, ..old }) && toast_shown(old.ui, new.ui, "没有域名需要同步"@) && r is StateUpdated
    } else {
        &&& new == (AppState { ui: new.ui, data: new.data, ..old })
        &&& new.ui == (UiState { is_syncing: true, message: new.ui.message, ..old.ui })
        &&& new.ui.message@ == "正在同步 "@ + decimal(names.len()) + " 个域名..."@
        &&& syncing_marked(old.data, new.data, names, true)
        &&& r matches HandlerResult::StateUpdatedWithTask(Effect::SyncAllDomains { names: v }) && name_texts(v@) == names
    }
}

/// How a synchronisation message changes the state and what it asks for.
pub open spec fn sync_outcome(old: AppState, new: AppState, message: SyncMessage, r: HandlerResult) -> bool {
    match message {
        SyncMessage::Start => r is NoChange && new == old,
        SyncMessage::StartAll => sync_all_outcome(old, new, r),
        SyncMessage::SyncAllDomains => sync_all_outcome(old, new, r),
        SyncMessage::Reload => {
            &&& new == (AppState { ui: UiState { message: new.ui.message, ..old.ui }, ..old })
            &&& new.ui.message@ == "正在重新加载数据..."@
            &&& r matches HandlerResult::StateUpdatedWithTask(Effect::ReloadData)
        },
        SyncMessage::Complete(result) => {
            &&& r is StateUpdated
            &&& match result {
                Ok(domains) => {
                    &&& new == (AppState {
                        ui: UiState { message: new.ui.message, ..old.ui },
                        data: DataState {
                            domain_list: new.data.domain_list,
                            has_unsaved_changes: true,
                            ..old.data
                        },
                        ..old
                    })
                    &&& new.ui.message@ == "数据同步完成"@
                    &&& new.data.domain_list@.len() == domains@.len()
                    &&& forall|i: int| 0 <= i < domains@.len() ==> synced_domain(#[trigger] domains@[i], new.data.domain_list@[i])
                },
                Err(e) => {
                    &&& new == (AppState { ui: UiState { message: new.ui.message, ..old.ui }, ..old })
                    &&& new.ui.message@ == "同步失败: "@ + e@
                },
            }
        },
        SyncMessage::AllComplete(result) => {
            &&& r is StateUpdated
            &&& new == (AppState { ui: new.ui, data: new.data, ..old })
            &&& syncing_marked(old.data, new.data, domain_names(old.data.domain_list@), false)
            &&& match result {
                Ok(()) => {
                    &&& new.ui == (UiState { is_syncing: false, message: new.ui.message, ..old.ui })
                    &&& new.ui.message@ == "所有域名同步完成"@
                },
                Err(e) => {
                    &&& new.ui.message@ == e@
                    &&& toast_shown(UiState { is_syncing: false, message: new.ui.message, ..old.ui }, new.ui, e@)
                },
            }
        },
        SyncMessage::Cancel => r is StateUpdated && new == old,
        SyncMessage::DataReloaded(model) => {
            &&& r is StateUpdated
            &&& new == (AppState {
                ui: UiState { message: new.ui.message, ..old.ui },
                data: DataState {
                    domain_providers: model.providers,
                    domain_list: model.domains,
                    current_dns_records: model.records,
                    ..old.data
                },
                ..old
            })
            &&& new.ui.message@ == "数据加载完成"@
        },
        SyncMessage::DomainSyncComplete(_, _) => false,
    }
}

/// Handles synchronisation messages.
#[derive(Debug, Default)]
pub struct SyncHandler {}

impl SyncHandler {
    /// A handler.
    pub fn new() -> (r: SyncHandler)
        ensures
            r == (SyncHandler {}),
    {
        SyncHandler {}
    }

    /// Starts synchronising domain `domain`: an unlisted domain is
    /// reported; otherwise it is marked, progress is reported and it is
    /// sent for synchronising.
    pub fn handle_sync_domain(&self, state: &mut AppState, domain: String) -> (r: HandlerResult)
        ensures
            !domain_names(old(state).data.domain_list@).contains(domain@) ==> (*final(state) == (AppState {
                ui: final(state).ui,
                ..*old(state)
            }) && toast_shown(old(state).ui, final(state).ui, "域名 "@ + domain@ + " 不存在"@) && r is StateUpdated),
            domain_names(old(state).data.domain_list@).contains(domain@) ==> {
                &&& *final(state) == (AppState {
                    ui: UiState { message: final(state).ui.message, ..old(state).ui },
                    data: final(state).data,
                    ..*old(state)
                })
                &&& final(state).data == (DataState { syncing: final(state).data.syncing, ..old(state).data })
                &&& name_texts(final(state).data.syncing@).to_set() == name_texts(old(state).data.syncing@).to_set().insert(domain@)
                &&& final(state).ui.message@ == "正在同步域名: "@ + domain@
                &&& r matches HandlerResult::StateUpdatedWithTask(Effect::SyncDomain { name }) && name@ == domain@
            },
    {
        let names = names_of(&state.data.domain_list);
        let mut exists = false;
        let mut i: usize = 0;
        while i < names.len()
            invariant
                i <= names@.len(),
                name_texts(names@) == domain_names(state.data.domain_list@),
                exists == (exists|j: int| 0 <= j < i && name_texts(names@)[j] == domain@),
            decreases names@.len() - i,
        {
            if str_eq(names[i].as_str(), domain.as_str()) {
                exists = true;
            }
            proof {
                assert(name_texts(names@)[i as int] == names@[i as int]@);
            }
            i = i + 1;
        }
        if !exists {
            let mut m = owned("域名 ");
            push_str(&mut m, domain.as_str());
            push_str(&mut m, " 不存在");
            state.ui.show_toast(m);
            return HandlerResult::StateUpdated;
        }
        state.data.set_syncing(domain.as_str(), true);
        let mut m = owned("正在同步域名: ");
        push_str(&mut m, domain.as_str());
        state.ui.message = m;
        HandlerResult::StateUpdatedWithTask(Effect::SyncDomain { name: domain })
    }

    /// The message a single-domain synchronisation is answered with: the
    /// domain and its records as `synced_record` describes them, or the
    /// failure.
    pub fn domain_synced_message(domain: String, result: Result<Vec<DnsRecordModal>, String>) -> (m: SyncMessage)
        ensures
            match result {
                Ok(recs) => m matches SyncMessage::DomainSyncComplete(d, Ok(out)) && d == domain && out@.len()
                    == recs@.len() && forall|i: int| 0 <= i < recs@.len() ==> synced_record(#[trigger] recs@[i], out@[i]),
                Err(e) => m matches SyncMessage::DomainSyncComplete(d, Err(f)) && d == domain && f == e,
            },
    {
        match result {
            Ok(recs) => {
                let mut out: Vec<DnsRecordModal> = Vec::new();
                let mut i: usize = 0;
                while i < recs.len()
                    invariant
                        i <= recs@.len(),
                        out@.len() == i,
                        forall|j: int| 0 <= j < i ==> synced_record(#[trigger] recs@[j], out@[j]),
                    decreases recs@.len() - i,
                {
                    let src = &recs[i];
                    out.push(DnsRecordModal {
                        id: 0,
                        name: src.name.clone(),
                        record_type: src.record_type.clone(),
                        value: src.value.clone(),
                        ttl: src.ttl,
                        priority: None,
                        enabled: false,
                        created_at: 0,
                        domain_id: 0,
                        updated_at: None,
                    });
                    i = i + 1;
                }
                SyncMessage::DomainSyncComplete(domain, Ok(out))
            },
            Err(e) => SyncMessage::DomainSyncComplete(domain, Err(e)),
        }
    }

    /// The records that synchronising `domain` brings while no provider
    /// service is wired in, stamped `now`: an `A` record for the apex and an
    /// MX record pointing at `mail.<domain>`; a domain whose name contains
    /// `error` fails.
    pub fn simulated_domain_sync(domain: &str, now: i64) -> (r: Result<Vec<DnsRecordModal>, String>)
        ensures
            seq_contains(domain@, "error"@) ==> (r matches Err(e) && e@ == "模拟同步失败"@),
            !seq_contains(domain@, "error"@) ==> (r matches Ok(v) && v@.len() == 2 && {
                let a = v@[0];
                let mx = v@[1];
                &&& a.id == 1 && a.domain_id == 1 && a.record_type@ == "A"@ && a.name@ == "@"@
                &&& a.value@ == "192.168.1.100"@ && a.ttl == 600 && a.priority is None && a.enabled
                &&& a.created_at == now && a.updated_at == Some(now)
                &&& mx.id == 2 && mx.domain_id == 1 && mx.record_type@ == "MX"@ && mx.name@ == "@"@
                &&& mx.value@ == "mail."@ + domain@ && mx.ttl == 3600 && mx.priority == Some(10i32)
                &&& mx.enabled && mx.created_at == now && mx.updated_at == Some(now)
            }),
    {
        let mut mail = owned("mail.");
        push_str(&mut mail, domain);
        let mut records: Vec<DnsRecordModal> = Vec::new();
        records.push(
            DnsRecordModal {
                id: 1,
                domain_id: 1,
                record_type: owned("A"),
                name: owned("@"),
                value: owned("192.168.1.100"),
                ttl: 600,
                priority: None,
                enabled: true,
                created_at: now,
                updated_at: Some(now),
            },
        );
        records.push(
            DnsRecordModal {
                id: 2,
                domain_id: 1,
                record_type: owned("MX"),
                name: owned("@"),
                value: mail,
                ttl: 3600,
                priority: Some(10),
                enabled: true,
                created_at: now,
                updated_at: Some(now),
            },
        );
        if str_contains(domain, "error") {
            return Err(owned("模拟同步失败"));
        }
        Ok(records)
    }

    /// The data a reload brings while no store is wired in, stamped `now`:
    /// the domain `reloaded-example.com` with one `A` record for its apex.
    pub fn simulated_reload(now: i64) -> (r: (Vec<DomainModal>, Vec<(String, Vec<DnsRecordModal>)>))
        ensures
            r.0@.len() == 1,
            r.0@[0].id == 1 && r.0@[0].name@ == "reloaded-example.com"@ && r.0@[0].provider_id == 1
                && r.0@[0].status@ == "Active"@ && r.0@[0].created_at == now && r.0@[0].updated_at == Some(now),
            r.1@.len() == 1,
            r.1@[0].0@ == "reloaded-example.com"@,
            r.1@[0].1@.len() == 1,
            ({
                let a = r.1@[0].1@[0];
                &&& a.id == 1 && a.domain_id == 1 && a.record_type@ == "A"@ && a.name@ == "@"@
                &&& a.value@ == "192.168.1.200"@ && a.ttl == 600 && a.priority is None && a.enabled
                &&& a.created_at == now && a.updated_at == Some(now)
            }),
    {
        let mut domains: Vec<DomainModal> = Vec::new();
        domains.push(
            DomainModal {
                id: 1,
                name: owned("reloaded-example.com"),
                provider_id: 1,
                status: owned("Active"),
                created_at: now,
                updated_at: Some(now),
            },
        );
        let mut records: Vec<DnsRecordModal> = Vec::new();
        records.push(
            DnsRecordModal {
                id: 1,
                domain_id: 1,
                record_type: owned("A"),
                name: owned("@"),
                value: owned("192.168.1.200"),
                ttl: 600,
                priority: None,
                enabled: true,
                created_at: now,
                updated_at: Some(now),
            },
        );
        let mut groups: Vec<(String, Vec<DnsRecordModal>)> = Vec::new();
        groups.push((owned("reloaded-example.com"), records));
        (domains, groups)
    }

    /// Tallies the outcomes of synchronising many domains, each the number
    /// of records it brought or the failure.
    pub fn tally(results: &Vec<Result<usize, String>>) -> (b: BatchSyncResult)
        requires
            record_total(results@) <= usize::MAX,
        ensures
            b.successful@.len() == success_count(results@),
            b.failed@.len() == results@.len() - success_count(results@),
            b.cancelled@.len() == 0,
            b.total_domains == results@.len(),
            b.total_records == record_total(results@),
    {
        let mut successful: Vec<SyncResult> = Vec::new();
        let mut failed: Vec<SyncResult> = Vec::new();
        let mut total: usize = 0;
        let mut i: usize = 0;
        while i < results.len()
            invariant
                i <= results@.len(),
                successful@.len() == success_count(results@.subrange(0, i as int)),
                failed@.len() == i - success_count(results@.subrange(0, i as int)),
                total == record_total(results@.subrange(0, i as int)),
                record_total(results@) <= usize::MAX,
                success_count(results@.subrange(0, i as int)) <= i,
            decreases results@.len() - i,
        {
            proof {
                assert(results@.subrange(0, i + 1).drop_last() =~= results@.subrange(0, i as int));
                lemma_record_total_prefix(results@, i + 1);
            }
            match &results[i] {
                Ok(n) => {
                    successful.push(SyncResult::Success);
                    total = total + *n;
                },
                Err(e) => {
                    failed.push(SyncResult::Failed(e.clone()));
                },
            }
            i = i + 1;
        }
        assert(results@.subrange(0, results@.len() as int) =~= results@);
        BatchSyncResult {
            successful,
            failed,
            cancelled: Vec::new(),
            total_domains: results.len(),
            total_records: total,
        }
    }

    /// The message the outcome of synchronising all domains is answered
    /// with: success when none failed, else how many failed.
    pub fn all_synced_message(result: &BatchSyncResult) -> (m: SyncMessage)
        ensures
            all_synced_answer(result.failed@.len(), m),
    {
        if result.failed.len() == 0 {
            SyncMessage::AllComplete(Ok(()))
        } else {
            let mut e = owned("同步失败: ");
            push_decimal(&mut e, result.failed.len() as u64);
            push_str(&mut e, " 个域名失败");
            SyncMessage::AllComplete(Err(e))
        }
    }

    /// Applies a finished batch: syncing stops, every domain is unmarked,
    /// the summary is shown as message and toast, and the data is marked
    /// changed when something succeeded.
    pub fn handle_all_sync_complete(&self, state: &mut AppState, result: BatchSyncResult) -> (r: HandlerResult)
        ensures
            r is StateUpdated,
            *final(state) == (AppState { ui: final(state).ui, data: final(state).data, ..*old(state) }),
            final(state).ui.message@ == batch_summary(
                result.successful@.len(),
                result.failed@.len(),
                result.cancelled@.len(),
                result.total_records as nat,
            ),
            toast_shown(
                UiState { is_syncing: false, message: final(state).ui.message, ..old(state).ui },
                final(state).ui,
                final(state).ui.message@,
            ),
            syncing_marked(
                DataState {
                    has_unsaved_changes: old(state).data.has_unsaved_changes || result.successful@.len() > 0,
                    ..old(state).data
                },
                final(state).data,
                domain_names(old(state).data.domain_list@),
                false,
            ),
    {
        state.ui.is_syncing = false;
        let names = names_of(&state.data.domain_list);
        mark_all(&mut state.data, &names, false);
        let mut summary = owned("批量同步完成: 成功 ");
        push_decimal(&mut summary, result.successful.len() as u64);
        push_str(&mut summary, " 个，失败 ");
        push_decimal(&mut summary, result.failed.len() as u64);
        push_str(&mut summary, " 个，取消 ");
        push_decimal(&mut summary, result.cancelled.len() as u64);
        push_str(&mut summary, " 个，共处理 ");
        push_decimal(&mut summary, result.total_records as u64);
        push_str(&mut summary, " 条记录");
        state.ui.message = summary.clone();
        state.ui.show_toast(summary);
        if result.successful.len() > 0 {
            state.data.mark_changed();
        }
        HandlerResult::StateUpdated
    }

    /// Stops synchronising one domain, or every domain, and reports it.
    pub fn handle_cancel_sync(&self, state: &mut AppState, domain: Option<String>) -> (r: HandlerResult)
        ensures
            r is StateUpdated,
            *final(state) == (AppState {
                ui: UiState { message: final(state).ui.message, ..old(state).ui },
                data: final(state).data,
                ..*old(state)
            }),
            match domain {
                Some(d) => syncing_marked(old(state).data, final(state).data, seq![d@], false)
                    && final(state).ui.message@ == "已取消域名 "@ + d@ + " 的同步"@,
                None => syncing_marked(old(state).data, final(state).data, domain_names(old(state).data.domain_list@), false)
                    && final(state).ui.message@ == "已取消所有域名的同步"@,
            },
    {
        match domain {
            Some(d) => {
                let ghost before = state.data;
                state.data.set_syncing(d.as_str(), false);
                proof {
                    lemma_to_set_push(Seq::empty(), d@);
                    assert(Seq::<Seq<char>>::empty().push(d@) =~= seq![d@]);
                    assert(Seq::<Seq<char>>::empty().to_set() =~= Set::<Seq<char>>::empty());
                    assert(name_texts(state.data.syncing@).to_set() =~= name_texts(before.syncing@).to_set().difference(seq![d@].to_set()));
                }
                let mut m = owned("已取消域名 ");
                push_str(&mut m, d.as_str());
                push_str(&mut m, " 的同步");
                state.ui.message = m;
            },
            None => {
                let names = names_of(&state.data.domain_list);
                mark_all(&mut state.data, &names, false);
                state.ui.message = owned("已取消所有域名的同步");
            },
        }
        HandlerResult::StateUpdated
    }

    /// The message a reload is answered with: the loaded domains, the
    /// records of every domain in the order given, two placeholder
    /// accounts and the total count; or a toast reporting the failure.
    pub fn reload_answer(result: Result<(Vec<DomainModal>, Vec<(String, Vec<DnsRecordModal>)>), String>) -> (m:
        MessageCategory)
        requires
            result matches Ok((domains, groups)) ==> domains@.len() + flatten_records(groups@).len() <= usize::MAX,
        ensures
            match result {
                Ok((domains, groups)) => m matches MessageCategory::Sync(SyncMessage::DataReloaded(model)) && model.domains@
                    == domains@ && model.records@ == flatten_records(groups@) && model.providers@.len() == 2
                    && placeholder_provider(model.providers@[0]) && placeholder_provider(model.providers@[1])
                    && model.total_count == domains@.len() + flatten_records(groups@).len()
                    && model.reload_types@.len() == 0 && model.message@.len() == 0,
                Err(e) => m matches MessageCategory::Notification(NotificationMessage::ShowToast(t)) && t@
                    == "重新加载数据失败: "@ + e@,
            },
    {
        match result {
            Ok((domains, groups)) => {
                let mut records: Vec<DnsRecordModal> = Vec::new();
                let mut rest = groups;
                let ghost src = rest@;
                let n = rest.len();
                let mut i: usize = 0;
                while i < n
                    invariant
                        n == src.len(),
                        i <= n,
                        rest@ == src.subrange(i as int, n as int),
                        records@ == flatten_records(src.subrange(0, i as int)),
                    decreases n - i,
                {
                    let (_, mut group) = rest.remove(0);
                    proof {
                        assert(src.subrange(0, i + 1).drop_last() =~= src.subrange(0, i as int));
                        assert(rest@ =~= src.subrange(i + 1, n as int));
                    }
                    records.append(&mut group);
                    i = i + 1;
                }
                assert(src.subrange(0, n as int) =~= src);
                let mut providers: Vec<DomainProvider> = Vec::new();
                providers.push(placeholder());
                providers.push(placeholder());
                let total_count = domains.len() + records.len();
                MessageCategory::Sync(SyncMessage::DataReloaded(ReloadModel::new_from(providers, domains, records, total_count)))
            },
            Err(e) => {
                let mut t = owned("重新加载数据失败: ");
                push_str(&mut t, e.as_str());
                MessageCategory::Notification(NotificationMessage::ShowToast(t))
            },
        }
    }

    fn handle_sync_all_domains(&self, state: &mut AppState) -> (r: HandlerResult)
        ensures
            sync_all_outcome(*old(state), *final(state), r),
    {
        let names = names_of(&state.data.domain_list);
        if names.len() == 0 {
            state.ui.show_toast(owned("没有域名需要同步"));
            return HandlerResult::StateUpdated;
        }
        state.ui.is_syncing = true;
        mark_all(&mut state.data, &names, true);
        let mut m = owned("正在同步 ");
        push_decimal(&mut m, names.len() as u64);
        push_str(&mut m, " 个域名...");
        state.ui.message = m;
        HandlerResult::StateUpdatedWithTask(Effect::SyncAllDomains { names })
    }

    fn handle_sync_complete(&self, state: &mut AppState, result: Result<Vec<DomainModal>, String>) -> (r: HandlerResult)
        ensures
            sync_outcome(*old(state), *final(state), SyncMessage::Complete(result), r),
    {
        match result {
            Ok(domains) => {
                let mut out: Vec<DomainModal> = Vec::new();
                let mut i: usize = 0;
                while i < domains.len()
                    invariant
                        i <= domains@.len(),
                        out@.len() == i,
                        forall|j: int| 0 <= j < i ==> synced_domain(#[trigger] domains@[j], out@[j]),
                    decreases domains@.len() - i,
                {
                    let src = &domains[i];
                    out.push(DomainModal {
                        id: src.id,
                        name: src.name.clone(),
                        status: owned("str"),
                        created_at: 0,
                        provider_id: 0,
                        updated_at: None,
                    });
                    i = i + 1;
                }
                state.data.domain_list = out;
                state.ui.message = owned("数据同步完成");
                state.data.mark_changed();
            },
            Err(e) => {
                let mut m = owned("同步失败: ");
                push_str(&mut m, e.as_str());
                state.ui.message = m;
            },
        }
        HandlerResult::StateUpdated
    }

    fn handle_all_complete(&self, state: &mut AppState, result: Result<(), String>) -> (r: HandlerResult)
        ensures
            sync_outcome(*old(state), *final(state), SyncMessage::AllComplete(result), r),
    {
        state.ui.is_syncing = false;
        let names = names_of(&state.data.domain_list);
        mark_all(&mut state.data, &names, false);
        match result {
            Ok(()) => {
                state.ui.message = owned("所有域名同步完成");
            },
            Err(e) => {
                state.ui.message = e.clone();
                state.ui.show_toast(e);
            },
        }
        HandlerResult::StateUpdated
    }

    /// Handles one synchronisation message, as `sync_outcome` says; a
    /// single-domain completion is not a message this handler takes.
    pub fn handle(&self, state: &mut AppState, event: SyncMessage) -> (r: HandlerResult)
        requires
            !(event is DomainSyncComplete),
        ensures
            sync_outcome(*old(state), *final(state), event, r),
    {
        match event {
            SyncMessage::Start => HandlerResult::NoChange,
            SyncMessage::StartAll => self.handle_sync_all_domains(state),
            SyncMessage::SyncAllDomains => self.handle_sync_all_domains(state),
            SyncMessage::Reload => {
                state.ui.message = owned("正在重新加载数据...");
                HandlerResult::StateUpdatedWithTask(Effect::ReloadData)
            },
            SyncMessage::Complete(result) => self.handle_sync_complete(state, result),
            SyncMessage::AllComplete(result) => self.handle_all_complete(state, result),
            SyncMessage::Cancel => HandlerResult::StateUpdated,
            SyncMessage::DataReloaded(model) => {
                state.data.domain_providers = model.providers;
                state.data.domain_list = model.domains;
                state.data.current_dns_records = model.records;
                state.ui.message = owned("数据加载完成");
                HandlerResult::StateUpdated
            },
            SyncMessage::DomainSyncComplete(_, _) => HandlerResult::Nothing,
        }
    }
}

} // verus!

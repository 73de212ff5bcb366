//! The steps of writing a stored DNS record through to its provider: which
//! client an account gets, which provider record a stored row stands for,
//! and the record sent for a row. Reading the store and calling the
//! provider is the application's part.

use crate::aliyun_client::AliyunDnsClient;
use crate::dns_record::{record_spec, type_code, type_from_code_or_a, Record, Status, Type};
use crate::gui_model::{AddDnsField, Credential, CredentialView, DnsProvider, DnsRecordModal, DomainName};
use crate::text::{owned, str_eq, uppercase};
use vstd::prelude::*;

verus! {

/// Why a provider record is looked up.
#[derive(Debug, Clone, Copy, PartialEq, Eq, Structural)]
pub enum CloudLookup {
    Update,
    Delete,
}

/// The message for a stored row that matches no provider record.
pub open spec fn not_found_in_cloud(purpose: CloudLookup) -> Seq<char> {
    match purpose {
        CloudLookup::Update => "在云端未找到匹配的DNS记录，无法更新"@,
        CloudLookup::Delete => "在云端未找到匹配的DNS记录"@,
    }
}

/// Provider record `r` has the host, type code and value of a stored row.
pub open spec fn same_record(r: Record, name: Seq<char>, record_type: Seq<char>, value: Seq<char>) -> bool {
    r.rr@ == name && type_code(r.record_type) == record_type && r.value@ == value
}

/// The client for an account's credentials: key-and-secret credentials
/// give an Aliyun client for them; other kinds are not supported.
pub fn api_client_for(credential: &Credential) -> (r: Result<AliyunDnsClient, String>)
    ensures
        match credential@ {
            CredentialView::ApiKey(k, s) => r matches Ok(c) && c.access_key_id@ == k && c.access_key_secret@ == s
                && c.region_id@ == "cn-qingdao"@,
            _ => r matches Err(e) && e@ == "不支持的凭据类型"@,
        },
{
    match credential {
        Credential::ApiKey(key) => Ok(AliyunDnsClient::new(key.api_key.clone(), key.api_secret.clone())),
        _ => Err(owned("不支持的凭据类型")),
    }
}

/// The position of the first provider record with host `name`, type code
/// `record_type` and value `value`.
pub fn find_cloud_record(records: &Vec<Record>, name: &str, record_type: &str, value: &str) -> (r: Option<usize>)
    ensures
        match r {
            Some(i) => i < records@.len() && same_record(records@[i as int], name@, record_type@, value@)
                && forall|j: int| 0 <= j < i ==> !same_record(#[trigger] records@[j], name@, record_type@, value@),
            None => forall|j: int|
                0 <= j < records@.len() ==> !same_record(#[trigger] records@[j], name@, record_type@, value@),
        },
{
    let mut i: usize = 0;
    while i < records.len()
        invariant
            i <= records@.len(),
            forall|j: int| 0 <= j < i ==> !same_record(#[trigger] records@[j], name@, record_type@, value@),
        decreases records@.len() - i,
    {
        let r = &records[i];
        if str_eq(r.rr.as_str(), name) && str_eq(r.record_type.get_value(), record_type) && str_eq(
            r.value.as_str(),
            value,
        ) {
            return Some(i);
        }
        i = i + 1;
    }
    None
}

/// The provider id of the record that stored row `row` stands for: that of
/// the first provider record with the row's host, type and value, or an
/// error saying that none matches.
pub fn cloud_record_id(records: &Vec<Record>, row: &DnsRecordModal, purpose: CloudLookup) -> (r: Result<
    String,
    String,
>)
    ensures
        match r {
            Ok(id) => exists|i: int|
                0 <= i < records@.len() && same_record(records@[i], row.name@, row.record_type@, row.value@)
                    && id@ == records@[i].record_id@ && forall|j: int|
                    0 <= j < i ==> !same_record(#[trigger] records@[j], row.name@, row.record_type@, row.value@),
            Err(e) => e@ == not_found_in_cloud(purpose) && forall|j: int|
                0 <= j < records@.len() ==> !same_record(
                    #[trigger] records@[j],
                    row.name@,
                    row.record_type@,
                    row.value@,
                ),
        },
{
    match find_cloud_record(records, row.name.as_str(), row.record_type.as_str(), row.value.as_str()) {
        Some(i) => Ok(records[i].record_id.clone()),
        None => match purpose {
            CloudLookup::Update => Err(owned("在云端未找到匹配的DNS记录，无法更新")),
            CloudLookup::Delete => Err(owned("在云端未找到匹配的DNS记录")),
        },
    }
}

/// The record sent to the provider for stored row `row`, under provider
/// id `record_id` (empty when the record is created): enabled, with the
/// row's host, value and TTL, and the type its code names in any letter
/// case (`A` for an unknown code).
pub fn provider_record(row: &DnsRecordModal, record_id: String) -> (r: Record)
    ensures
        record_spec(
            Status::Enable,
            row.name@,
            type_from_code_or_a(uppercase(row.record_type@)),
            row.value@,
            record_id@,
            row.ttl,
            r,
        ),
{
    let t = Type::from_code_any_case(row.record_type.as_str());
    Record::new(Status::Enable, row.name.clone(), t, row.value.clone(), record_id, row.ttl)
}

/// The domain a record operation addresses: `name`, hosted at Aliyun.
pub fn provider_domain(name: String) -> (r: DomainName)
    ensures
        r.name == name,
        r.provider == DnsProvider::Aliyun,
        r.dns_record@.len() == 0,
{
    DomainName { name, provider: DnsProvider::Aliyun, dns_record: Vec::new() }
}

/// The domain whose records are reloaded after a deletion: the one given,
/// or, when none is given (id 0), the domain of the deleted record.
pub fn reload_domain(domain_id: usize, record_domain: usize) -> (r: usize)
    ensures
        r == if domain_id == 0 {
            record_domain
        } else {
            domain_id
        },
{
    if domain_id == 0 {
        record_domain
    } else {
        domain_id
    }
}

/// The type code a record form gives a row: that of its type, `A` when
/// it has none.
pub open spec fn form_type_code(form: AddDnsField) -> Seq<char> {
    match form.record_type {
        Some(t) => type_code(t),
        None => "A"@,
    }
}

/// Row `row` holds what record form `form` says for domain `domain_id`:
/// its host, type, value and TTL, no priority, enabled.
pub open spec fn row_from_form(row: DnsRecordModal, form: AddDnsField, domain_id: usize) -> bool {
    &&& row.domain_id == domain_id as i64
    &&& row.record_type@ == form_type_code(form)
    &&& row.name@ == form.record_name@
    &&& row.value@ == form.value@
    &&& row.ttl == form.ttl
    &&& row.priority is None
    &&& row.enabled
}

fn form_type_text(form: &AddDnsField) -> (r: String)
    ensures
        r@ == form_type_code(*form),
{
    match form.record_type {
        Some(t) => owned(t.get_value()),
        None => owned("A"),
    }
}

/// The row a record form adds to domain `domain_id` at time `now`, before
/// the store gives it an id.
pub fn new_row_from_form(form: &AddDnsField, domain_id: usize, now: i64) -> (r: DnsRecordModal)
    ensures
        row_from_form(r, *form, domain_id),
        r.id == 0,
        r.created_at == now,
        r.updated_at is None,
{
    DnsRecordModal {
        id: 0,
        domain_id: domain_id as i64,
        record_type: form_type_text(form),
        name: form.record_name.clone(),
        value: form.value.clone(),
        ttl: form.ttl,
        priority: None,
        enabled: true,
        created_at: now,
        updated_at: None,
    }
}

/// The row a record form makes of stored row `old`, for domain
/// `domain_id`, changed at time `now`: the old row's id and creation time
/// are kept. This is the row an update is asked for; the store writes it
/// under a new id (see `RecordUpdate`).
pub fn updated_row_from_form(form: &AddDnsField, old: &DnsRecordModal, domain_id: usize, now: i64) -> (r:
    DnsRecordModal)
    ensures
        row_from_form(r, *form, domain_id),
        r.id == old.id,
        r.created_at == old.created_at,
        r.updated_at == Some(now),
{
    DnsRecordModal {
        id: old.id,
        domain_id: domain_id as i64,
        record_type: form_type_text(form),
        name: form.record_name.clone(),
        value: form.value.clone(),
        ttl: form.ttl,
        priority: None,
        enabled: true,
        created_at: old.created_at,
        updated_at: Some(now),
    }
}

/// A stored domain as an update reads it: its name and its account.
#[derive(Debug, Clone)]
pub struct StoredDomain {
    pub name: String,
    pub account_id: i64,
}

/// What the application reports back to a record update: the answer to
/// the action it was last given.
#[derive(Debug)]
pub enum RecordUpdateEvent {
    /// The stored domain of the old row, if any, or the store's error.
    DomainLoaded(Result<Option<StoredDomain>, String>),
    /// The credentials of the domain's account, if it exists, or the error
    /// of reading or decoding them.
    AccountLoaded(Result<Option<Credential>, String>),
    /// The provider records of the domain, or the provider's error.
    CloudListed(Result<Vec<Record>, String>),
    /// Whether the provider updated the record.
    CloudUpdated(Result<(), String>),
    /// Whether the store deleted the old row.
    RowDeleted(Result<(), String>),
    /// The id the store gave the new row, or its error.
    RowInserted(Result<i64, String>),
}

/// The next piece of outside work of a record update, or its result.
#[derive(Debug)]
pub enum RecordUpdateAction {
    FindDomain { domain_id: i64 },
    FindAccount { account_id: i64 },
    ListCloudRecords { client: AliyunDnsClient, domain_name: String },
    UpdateCloudRecord { client: AliyunDnsClient, domain: DomainName, record: Record },
    DeleteRow { row_id: i64 },
    InsertRow { domain_id: i64, name: String, record_type: String, value: String, ttl: i32 },
    Finish(Result<DnsRecordModal, String>),
}

/// Where a record update stands: the answer it waits for.
#[derive(Debug, Clone, Copy, PartialEq, Eq, Structural)]
pub enum RecordUpdateStage {
    FindingDomain,
    FindingAccount,
    ListingCloud,
    UpdatingCloud,
    DeletingRow,
    InsertingRow,
    Finished,
}

/// Writing an edited record through to its provider and the store: find
/// the domain and its account, find the provider record of the old row,
/// update it at the provider, then replace the stored row (delete, then
/// insert under a new id). Any failure ends the update with its message,
/// and no later step is taken.
#[derive(Debug)]
pub struct RecordUpdate {
    pub old_record: DnsRecordModal,
    pub new_record: DnsRecordModal,
    pub stage: RecordUpdateStage,
    pub client: Option<AliyunDnsClient>,
    pub domain_name: String,
}

/// A client is held from the moment the account's credentials are read.
pub open spec fn update_wf(u: RecordUpdate) -> bool {
    (u.stage == RecordUpdateStage::ListingCloud || u.stage == RecordUpdateStage::UpdatingCloud) ==> u.client is Some
}

/// Event `e` is the answer stage `s` waits for.
pub open spec fn answers(s: RecordUpdateStage, e: RecordUpdateEvent) -> bool {
    match s {
        RecordUpdateStage::FindingDomain => e is DomainLoaded,
        RecordUpdateStage::FindingAccount => e is AccountLoaded,
        RecordUpdateStage::ListingCloud => e is CloudListed,
        RecordUpdateStage::UpdatingCloud => e is CloudUpdated,
        RecordUpdateStage::DeletingRow => e is RowDeleted,
        RecordUpdateStage::InsertingRow => e is RowInserted,
        RecordUpdateStage::Finished => false,
    }
}

/// The update ends with error `m`: nothing else changes.
pub open spec fn ends_with_error(old: RecordUpdate, new: RecordUpdate, a: RecordUpdateAction, m: Seq<char>) -> bool {
    &&& new == (RecordUpdate { stage: RecordUpdateStage::Finished, ..old })
    &&& a matches RecordUpdateAction::Finish(Err(e)) && e@ == m
}

/// `i` is the first provider record matching the old row.
pub open spec fn first_match(records: Seq<Record>, row: DnsRecordModal, i: int) -> bool {
    &&& 0 <= i < records.len()
    &&& same_record(records[i], row.name@, row.record_type@, row.value@)
    &&& forall|j: int| 0 <= j < i ==> !same_record(#[trigger] records[j], row.name@, row.record_type@, row.value@)
}

/// One step of a record update, answering event `e` at time `now`.
pub open spec fn update_step(old: RecordUpdate, new: RecordUpdate, e: RecordUpdateEvent, now: i64, a: RecordUpdateAction) -> bool {
    match e {
        RecordUpdateEvent::DomainLoaded(r) => match r {
            Err(m) => ends_with_error(old, new, a, m@),
            Ok(None) => ends_with_error(old, new, a, "域名不存在"@),
            Ok(Some(d)) => {
                &&& new == (RecordUpdate { stage: RecordUpdateStage::FindingAccount, domain_name: d.name, ..old })
                &&& a == RecordUpdateAction::FindAccount { account_id: d.account_id }
            },
        },
        RecordUpdateEvent::AccountLoaded(r) => match r {
            Err(m) => ends_with_error(old, new, a, m@),
            Ok(None) => ends_with_error(old, new, a, "账户不存在"@),
            Ok(Some(c)) => match c@ {
                CredentialView::ApiKey(k, sec) => {
                    &&& new == (RecordUpdate { stage: RecordUpdateStage::ListingCloud, client: new.client, ..old })
                    &&& new.client matches Some(cl) && cl.access_key_id@ == k && cl.access_key_secret@ == sec
                        && cl.region_id@ == "cn-qingdao"@
                    &&& a == RecordUpdateAction::ListCloudRecords { client: new.client.unwrap(), domain_name: old.domain_name }
                },
                _ => ends_with_error(old, new, a, "不支持的凭据类型"@),
            },
        },
        RecordUpdateEvent::CloudListed(r) => match r {
            Err(m) => ends_with_error(old, new, a, m@),
            Ok(records) => if exists|i: int| first_match(records@, old.old_record, i) {
                &&& new == (RecordUpdate { stage: RecordUpdateStage::UpdatingCloud, ..old })
                &&& a matches RecordUpdateAction::UpdateCloudRecord { client, domain, record }
                &&& old.client == Some(client)
                &&& domain.name@ == old.domain_name@ && domain.provider == DnsProvider::Aliyun
                    && domain.dns_record@.len() == 0
                &&& exists|i: int| first_match(records@, old.old_record, i) && record_spec(
                    Status::Enable,
                    old.new_record.name@,
                    type_from_code_or_a(uppercase(old.new_record.record_type@)),
                    old.new_record.value@,
                    records@[i].record_id@,
                    old.new_record.ttl,
                    record,
                )
            } else {
                ends_with_error(old, new, a, not_found_in_cloud(CloudLookup::Update))
            },
        },
        RecordUpdateEvent::CloudUpdated(r) => match r {
            Err(m) => ends_with_error(old, new, a, m@),
            Ok(_) => {
                &&& new == (RecordUpdate { stage: RecordUpdateStage::DeletingRow, ..old })
                &&& a == RecordUpdateAction::DeleteRow { row_id: old.old_record.id }
            },
        },
        RecordUpdateEvent::RowDeleted(r) => match r {
            Err(m) => ends_with_error(old, new, a, m@),
            Ok(_) => {
                &&& new == (RecordUpdate { stage: RecordUpdateStage::InsertingRow, ..old })
                &&& a matches RecordUpdateAction::InsertRow { domain_id, name, record_type, value, ttl }
                &&& domain_id == old.new_record.domain_id
                &&& name@ == old.new_record.name@
                &&& record_type@ == old.new_record.record_type@
                &&& value@ == old.new_record.value@
                &&& ttl == old.new_record.ttl
            },
        },
        RecordUpdateEvent::RowInserted(r) => match r {
            Err(m) => ends_with_error(old, new, a, m@),
            Ok(id) => {
                &&& new == (RecordUpdate { stage: RecordUpdateStage::Finished, ..old })
                &&& a == RecordUpdateAction::Finish(
                    Ok(DnsRecordModal { id, updated_at: Some(now), ..old.new_record }),
                )
            },
        },
    }
}

fn copy_client(c: &AliyunDnsClient) -> (r: AliyunDnsClient)
    ensures
        r == *c,
{
    AliyunDnsClient {
        access_key_id: c.access_key_id.clone(),
        access_key_secret: c.access_key_secret.clone(),
        region_id: c.region_id.clone(),
    }
}

impl RecordUpdate {
    /// Starts updating stored row `old_record` to `new_record`: the domain
    /// of the old row is looked up first.
    pub fn start(old_record: DnsRecordModal, new_record: DnsRecordModal) -> (r: (RecordUpdate, RecordUpdateAction))
        ensures
            r.0.old_record == old_record,
            r.0.new_record == new_record,
            r.0.stage == RecordUpdateStage::FindingDomain,
            r.0.client is None,
            r.0.domain_name@.len() == 0,
            update_wf(r.0),
            r.1 == (RecordUpdateAction::FindDomain { domain_id: old_record.domain_id }),
    {
        let domain_id = old_record.domain_id;
        (
            RecordUpdate {
                old_record,
                new_record,
                stage: RecordUpdateStage::FindingDomain,
                client: None,
                domain_name: String::new(),
            },
            RecordUpdateAction::FindDomain { domain_id },
        )
    }

    fn fail(&mut self, m: String) -> (a: RecordUpdateAction)
        ensures
            ends_with_error(*old(self), *final(self), a, m@),
            update_wf(*final(self)),
    {
        self.stage = RecordUpdateStage::Finished;
        RecordUpdateAction::Finish(Err(m))
    }

    fn on_cloud_listed(&mut self, records: Vec<Record>) -> (a: RecordUpdateAction)
        requires
            old(self).stage == RecordUpdateStage::ListingCloud,
            update_wf(*old(self)),
        ensures
            update_step(*old(self), *final(self), RecordUpdateEvent::CloudListed(Ok(records)), 0, a),
            update_wf(*final(self)),
    {
        match cloud_record_id(&records, &self.old_record, CloudLookup::Update) {
                    Err(m) => {
                        proof {
                            if exists|i: int| first_match(records@, self.old_record, i) {
                                let i = choose|i: int| first_match(records@, self.old_record, i);
                                assert(same_record(records@[i], self.old_record.name@, self.old_record.record_type@, self.old_record.value@));
                            }
                        }
                        self.fail(m)
                    },
                    Ok(id) => {
                        proof {
                            let i = choose|i: int|
                                0 <= i < records@.len() && same_record(records@[i], self.old_record.name@, self.old_record.record_type@, self.old_record.value@)
                                    && id@ == records@[i].record_id@ && forall|j: int|
                                    0 <= j < i ==> !same_record(#[trigger] records@[j], self.old_record.name@, self.old_record.record_type@, self.old_record.value@);
                            assert(first_match(records@, self.old_record, i));
                        }
                        let client = match &self.client {
                            Some(c) => copy_client(c),
                            None => AliyunDnsClient { access_key_id: String::new(), access_key_secret: String::new(), region_id: String::new() },
                        };
                        let record = provider_record(&self.new_record, id);
                        let domain = provider_domain(self.domain_name.clone());
                        self.stage = RecordUpdateStage::UpdatingCloud;
                        RecordUpdateAction::UpdateCloudRecord { client, domain, record }
                    },
                }
    }

    /// Takes the answer `event` to the last action, at time `now`, and
    /// gives the next action, as `update_step` says.
    pub fn step(&mut self, event: RecordUpdateEvent, now: i64) -> (a: RecordUpdateAction)
        requires
            answers(old(self).stage, event),
            update_wf(*old(self)),
        ensures
            update_step(*old(self), *final(self), event, now, a),
            update_wf(*final(self)),
    {
        match event {
            RecordUpdateEvent::DomainLoaded(r) => match r {
                Err(m) => self.fail(m),
                Ok(None) => self.fail(owned("域名不存在")),
                Ok(Some(d)) => {
                    self.stage = RecordUpdateStage::FindingAccount;
                    self.domain_name = d.name;
                    RecordUpdateAction::FindAccount { account_id: d.account_id }
                },
            },
            RecordUpdateEvent::AccountLoaded(r) => match r {
                Err(m) => self.fail(m),
                Ok(None) => self.fail(owned("账户不存在")),
                Ok(Some(c)) => match api_client_for(&c) {
                    Err(m) => self.fail(m),
                    Ok(client) => {
                        let copy = copy_client(&client);
                        self.stage = RecordUpdateStage::ListingCloud;
                        self.client = Some(client);
                        RecordUpdateAction::ListCloudRecords { client: copy, domain_name: self.domain_name.clone() }
                    },
                },
            },
            RecordUpdateEvent::CloudListed(r) => match r {
                Err(m) => self.fail(m),
                Ok(records) => self.on_cloud_listed(records),
            },
            RecordUpdateEvent::CloudUpdated(r) => match r {
                Err(m) => self.fail(m),
                Ok(_) => {
                    self.stage = RecordUpdateStage::DeletingRow;
                    RecordUpdateAction::DeleteRow { row_id: self.old_record.id }
                },
            },
            RecordUpdateEvent::RowDeleted(r) => match r {
                Err(m) => self.fail(m),
                Ok(_) => {
                    self.stage = RecordUpdateStage::InsertingRow;
                    RecordUpdateAction::InsertRow {
                        domain_id: self.new_record.domain_id,
                        name: self.new_record.name.clone(),
                        record_type: self.new_record.record_type.clone(),
                        value: self.new_record.value.clone(),
                        ttl: self.new_record.ttl,
                    }
                },
            },
            RecordUpdateEvent::RowInserted(r) => match r {
                Err(m) => self.fail(m),
                Ok(id) => {
                    self.stage = RecordUpdateStage::Finished;
                    let mut row = self.new_record.duplicate();
                    row.id = id;
                    row.updated_at = Some(now);
                    RecordUpdateAction::Finish(Ok(row))
                },
            },
        }
    }
}

} // verus!

//! The domain manager: the application state with its message handler and
//! components, and the statistics it reports.

use crate::app_state::{is_start_state, AppState};
use crate::components::{DnsRecordsComponent, DomainListComponent};
use crate::dns_record::Type;
use crate::gui_model::{AddDnsField, DnsRecordModal, Domain, DomainModal, Page};
use crate::message_handler::MessageHandler;
use crate::text::str_eq;
use std::collections::HashMap;
use vstd::prelude::*;
use vstd::std_specs::hash::spec_values_iter;
use vstd::std_specs::iter::IteratorSpec;

verus! {

broadcast use vstd::std_specs::hash::group_hash_axioms;

/// One entry of the DNS operation log.
#[derive(Debug, Clone)]
pub struct DnsLogEntry {
    pub action: String,
    pub action_time: String,
    pub message: String,
}

impl Default for DnsLogEntry {
    fn default() -> (r: DnsLogEntry)
        ensures
            r.action@.len() == 0,
            r.action_time@.len() == 0,
            r.message@.len() == 0,
    {
        DnsLogEntry { action: String::new(), action_time: String::new(), message: String::new() }
    }
}

/// Figures about the managed domains; the last synchronisation time is in
/// seconds since the epoch.
#[derive(Debug, Clone, Copy)]
pub struct ManagerStatistics {
    pub total_domains: usize,
    pub total_dns_records: usize,
    pub active_domains: usize,
    pub last_sync_time: Option<i64>,
    pub is_syncing: bool,
    pub initialized: bool,
}

/// The number of records in a sequence of record lists.
pub open spec fn records_in(c: Seq<Vec<DnsRecordModal>>) -> nat
    decreases c.len(),
{
    if c.len() == 0 {
        0
    } else {
        records_in(c.drop_last()) + c.last()@.len()
    }
}

/// The number of domains whose status is `Active`.
pub open spec fn active_count(d: Seq<DomainModal>) -> nat
    decreases d.len(),
{
    if d.len() == 0 {
        0
    } else {
        active_count(d.drop_last()) + if d.last().status@ == "Active"@ {
            1nat
        } else {
            0nat
        }
    }
}

/// The active-domain count of the statistics is the number of listed
/// domains whose status is `Active`.
pub proof fn lemma_active_count_counts_active(d: Seq<DomainModal>)
    ensures
        active_count(d) == d.filter(|x: DomainModal| x.status@ == "Active"@).len(),
    decreases d.len(),
{
    reveal(Seq::filter);
    if d.len() > 0 {
        lemma_active_count_counts_active(d.drop_last());
    }
}

/// The statistics of a state, given the number of records it caches.
pub open spec fn statistics_of(state: AppState, cached: nat) -> ManagerStatistics {
    ManagerStatistics {
        total_domains: state.data.domain_list@.len() as usize,
        total_dns_records: cached as usize,
        active_domains: active_count(state.data.domain_list@) as usize,
        last_sync_time: state.data.last_sync_time,
        is_syncing: state.ui.is_syncing,
        initialized: state.initialized,
    }
}

/// The manager: the application state, the status message, the page left
/// last, the message handler and the two list components.
#[derive(Debug)]
pub struct DomainManagerV2 {
    pub state: AppState,
    pub message: String,
    pub last_page: Page,
    pub message_handler: MessageHandler,
    pub domain_list_component: DomainListComponent,
    pub dns_records_component: DnsRecordsComponent,
}

fn count_records(c: &HashMap<usize, Vec<DnsRecordModal>>) -> (n: usize)
    requires
        records_in(spec_values_iter(c).remaining().unref()) <= usize::MAX,
    ensures
        n == records_in(spec_values_iter(c).remaining().unref()),
{
    let ghost all = spec_values_iter(c).remaining().unref();
    let mut n: usize = 0;
    for v in it: c.values()
        invariant
            it.seq().unref() == all,
            n as nat == records_in(all.take(it.index() as int)),
            records_in(all) <= usize::MAX,
            it.index() <= all.len(),
            it.index() == all.len() ==> n as nat == records_in(all),
    {
        proof {
            let i = it.index() as int;
            assert(all.take(i + 1).drop_last() =~= all.take(i));
            lemma_records_prefix(all, i + 1);
            assert(all.take(all.len() as int) =~= all);
        }
        n = n + v.len();
    }
    n
}

/// A prefix of a sequence of lists holds no more records than the whole.
proof fn lemma_records_prefix(c: Seq<Vec<DnsRecordModal>>, k: int)
    requires
        0 <= k <= c.len(),
    ensures
        records_in(c.take(k)) <= records_in(c),
    decreases c.len() - k,
{
    if k < c.len() {
        lemma_records_prefix(c, k + 1);
        assert(c.take(k + 1).drop_last() =~= c.take(k));
    } else {
        assert(c.take(k) =~= c);
    }
}

fn count_active(d: &Vec<DomainModal>) -> (n: usize)
    ensures
        n == active_count(d@),
{
    let mut n: usize = 0;
    let mut i: usize = 0;
    while i < d.len()
        invariant
            i <= d@.len(),
            n == active_count(d@.subrange(0, i as int)),
            n <= i,
        decreases d@.len() - i,
    {
        assert(d@.subrange(0, i as int + 1).drop_last() =~= d@.subrange(0, i as int));
        if str_eq(d[i].status.as_str(), "Active") {
            n = n + 1;
        }
        i = i + 1;
    }
    assert(d@.subrange(0, d@.len() as int) =~= d@);
    n
}

impl DomainManagerV2 {
    /// A manager over the start-up state, on the domain page.
    pub fn new() -> (r: DomainManagerV2)
        ensures
            is_start_state(r.state),
            r.message@.len() == 0,
            r.last_page == Page::DomainPage,
    {
        DomainManagerV2 {
            state: AppState::new(),
            message: String::new(),
            last_page: Page::DomainPage,
            message_handler: MessageHandler::new(),
            domain_list_component: DomainListComponent::new(),
            dns_records_component: DnsRecordsComponent::new(),
        }
    }

    /// The domain list the GUI model shows; no domains are converted to it yet.
    pub fn domain_list(&self) -> (r: Vec<Domain>)
        ensures
            r@.len() == 0,
    {
        Vec::new()
    }

    /// The selected domain.
    pub fn current_domain_name(&self) -> (r: Option<&DomainModal>)
        ensures
            r == match self.state.data.selected_domain {
                Some(d) => Some(&d),
                None => None,
            },
    {
        match &self.state.data.selected_domain {
            Some(d) => Some(d),
            None => None,
        }
    }

    /// The records of the selected domain.
    pub fn dns_list(&self) -> (r: &Vec<DnsRecordModal>)
        ensures
            *r == self.state.data.current_dns_records,
    {
        &self.state.data.current_dns_records
    }

    /// A query is under way while the state is loading.
    pub fn in_query(&self) -> (r: bool)
        ensures
            r == self.state.ui.is_loading,
    {
        self.state.ui.is_loading
    }

    /// The DNS operation log; none is kept yet.
    pub fn dns_log_list(&self) -> (r: Vec<DnsLogEntry>)
        ensures
            r@.len() == 0,
    {
        Vec::new()
    }

    /// The record form: an empty form with a TTL of 600 and record type A.
    pub fn add_dns_form(&self) -> (r: AddDnsField)
        ensures
            r.record_id is None,
            r.record_name@.len() == 0,
            r.domain_name@.len() == 0,
            r.value@.len() == 0,
            r.ttl == 600,
            r.record_type == Some(Type::A),
    {
        AddDnsField::default()
    }

    /// The application state.
    pub fn get_state(&self) -> (r: &AppState)
        ensures
            *r == self.state,
    {
        &self.state
    }

    /// The application state, to change.
    pub fn get_state_mut(&mut self) -> (r: &mut AppState)
        ensures
            *r == old(self).state,
            *final(self) == (DomainManagerV2 { state: *final(r), ..*old(self) }),
    {
        &mut self.state
    }

    /// The manager has been initialised.
    pub fn is_initialized(&self) -> (r: bool)
        ensures
            r == self.state.initialized,
    {
        self.state.initialized
    }

    /// The statistics of the current state; the cached records are the
    /// lengths of the cached lists summed in the order the map hands them
    /// out.
    pub fn get_statistics(&self) -> (r: ManagerStatistics)
        requires
            records_in(spec_values_iter(&self.state.data.dns_records_cache).remaining().unref()) <= usize::MAX,
        ensures
            r == statistics_of(
                self.state,
                records_in(spec_values_iter(&self.state.data.dns_records_cache).remaining().unref()),
            ),
    {
        ManagerStatistics {
            total_domains: self.state.data.domain_list.len(),
            total_dns_records: count_records(&self.state.data.dns_records_cache),
            active_domains: count_active(&self.state.data.domain_list),
            last_sync_time: self.state.data.last_sync_time,
            is_syncing: self.state.ui.is_syncing,
            initialized: self.state.initialized,
        }
    }
}

impl Default for DomainManagerV2 {
    fn default() -> (r: DomainManagerV2)
        ensures
            is_start_state(r.state),
            r.message@.len() == 0,
            r.last_page == Page::DomainPage,
    {
        DomainManagerV2::new()
    }
}

} // verus!

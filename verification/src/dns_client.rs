//! The client that gathers the domains of every configured hosting
//! provider. Listing a provider's domains is a network call that the
//! application makes; this module decides which providers are asked and
//! what becomes of their answers.

use crate::gui_model::{DnsProvider, Domain, DomainName, DomainStatus};
use vstd::prelude::*;

verus! {

/// The keys, region and hosting providers the client works with.
#[derive(Debug, Clone)]
pub struct DnsClient {
    pub access_key_id: String,
    pub access_key_secret: String,
    pub region_id: String,
    pub dns_provider: Vec<DnsProvider>,
}

/// The domains gathered from the answers of the providers `p`: for each
/// Aliyun provider whose listing succeeded, a domain per listed name (with
/// the default id, provider, status and expiry); the answers of other
/// providers, and failed listings, add nothing.
pub open spec fn gathered(p: Seq<DnsProvider>, answers: Seq<Result<Vec<DomainName>, String>>) -> Seq<Seq<char>>
    decreases p.len(),
{
    if p.len() == 0 || answers.len() == 0 {
        Seq::empty()
    } else {
        let rest = gathered(p.drop_last(), answers.drop_last());
        match answers.last() {
            Ok(names) => if p.last() == DnsProvider::Aliyun {
                rest + names@.map_values(|n: DomainName| n.name@)
            } else {
                rest
            },
            Err(_) => rest,
        }
    }
}

impl DnsClient {
    /// A client with the given keys, region and providers.
    pub fn new(
        access_key_id: String,
        access_key_secret: String,
        region_id: String,
        dns_provider_vec: Vec<DnsProvider>,
    ) -> (r: DnsClient)
        ensures
            r.access_key_id == access_key_id,
            r.access_key_secret == access_key_secret,
            r.region_id == region_id,
            r.dns_provider == dns_provider_vec,
    {
        DnsClient { access_key_id, access_key_secret, region_id, dns_provider: dns_provider_vec }
    }

    /// The providers whose domains are listed: the Aliyun ones. Listing any
    /// other provider is not supported, and it is skipped.
    pub fn providers_to_list(&self) -> (r: Vec<bool>)
        ensures
            r@.len() == self.dns_provider@.len(),
            forall|i: int| 0 <= i < r@.len() ==> r@[i] == (self.dns_provider@[i] == DnsProvider::Aliyun),
    {
        let mut out: Vec<bool> = Vec::new();
        let mut i: usize = 0;
        while i < self.dns_provider.len()
            invariant
                i <= self.dns_provider@.len(),
                out@.len() == i,
                forall|j: int| 0 <= j < i ==> out@[j] == (self.dns_provider@[j] == DnsProvider::Aliyun),
            decreases self.dns_provider@.len() - i,
        {
            let is_aliyun = match self.dns_provider[i] {
                DnsProvider::Aliyun => true,
                _ => false,
            };
            out.push(is_aliyun);
            i = i + 1;
        }
        out
    }

    /// The domains of all providers, given `answers[i]`, the listing of
    /// provider `i` (what the application got for each provider that
    /// `providers_to_list` marks; an error for the others).
    pub fn get_all_domain_info(&self, answers: &Vec<Result<Vec<DomainName>, String>>) -> (r: Vec<Domain>)
        requires
            answers@.len() == self.dns_provider@.len(),
        ensures
            r@.len() == gathered(self.dns_provider@, answers@).len(),
            forall|i: int|
                0 <= i < r@.len() ==> {
                    &&& (#[trigger] r@[i]).name@ == gathered(self.dns_provider@, answers@)[i]
                    &&& r@[i].id == 0
                    &&& r@[i].provider == DnsProvider::Aliyun
                    &&& r@[i].status == DomainStatus::Active
                    &&& r@[i].expiry@.len() == 0
                },
    {
        let mut out: Vec<Domain> = Vec::new();
        let mut k: usize = 0;
        while k < answers.len()
            invariant
                k <= answers@.len(),
                answers@.len() == self.dns_provider@.len(),
                out@.len() == gathered(self.dns_provider@.subrange(0, k as int), answers@.subrange(0, k as int)).len(),
                forall|i: int|
                    0 <= i < out@.len() ==> {
                        &&& (#[trigger] out@[i]).name@ == gathered(
                            self.dns_provider@.subrange(0, k as int),
                            answers@.subrange(0, k as int),
                        )[i]
                        &&& out@[i].id == 0
                        &&& out@[i].provider == DnsProvider::Aliyun
                        &&& out@[i].status == DomainStatus::Active
                        &&& out@[i].expiry@.len() == 0
                    },
            decreases answers@.len() - k,
        {
            let ghost ps = self.dns_provider@.subrange(0, k as int + 1);
            let ghost ans = answers@.subrange(0, k as int + 1);
            assert(ps.drop_last() =~= self.dns_provider@.subrange(0, k as int));
            assert(ans.drop_last() =~= answers@.subrange(0, k as int));
            let is_aliyun = match self.dns_provider[k] {
                DnsProvider::Aliyun => true,
                _ => false,
            };
            if is_aliyun {
                if let Ok(names) = &answers[k] {
                    let ghost before = out@;
                    let ghost prev = gathered(self.dns_provider@.subrange(0, k as int), answers@.subrange(0, k as int));
                    assert(forall|i: int| 0 <= i < before.len() ==> (#[trigger] before[i]).name@ == prev[i]);
                    let mut j: usize = 0;
                    while j < names.len()
                        invariant
                            j <= names@.len(),
                            out@.len() == before.len() + j,
                            before.len() == prev.len(),
                            forall|i: int| 0 <= i < before.len() ==> out@[i] == before[i],
                            forall|i: int| 0 <= i < before.len() ==> (#[trigger] before[i]).name@ == prev[i],
                            forall|i: int| 0 <= i < before.len() ==> {
                                &&& (#[trigger] before[i]).id == 0
                                &&& before[i].provider == DnsProvider::Aliyun
                                &&& before[i].status == DomainStatus::Active
                                &&& before[i].expiry@.len() == 0
                            },
                            forall|i: int|
                                0 <= i < j ==> {
                                    &&& (#[trigger] out@[before.len() + i]).name@ == names@[i].name@
                                    &&& out@[before.len() + i].id == 0
                                    &&& out@[before.len() + i].provider == DnsProvider::Aliyun
                                    &&& out@[before.len() + i].status == DomainStatus::Active
                                    &&& out@[before.len() + i].expiry@.len() == 0
                                },
                        decreases names@.len() - j,
                    {
                        out.push(
                            Domain {
                                id: 0,
                                name: names[j].name.clone(),
                                provider: DnsProvider::Aliyun,
                                status: DomainStatus::Active,
                                expiry: String::new(),
                            },
                        );
                        j = j + 1;
                    }
                    proof {
                        let g = gathered(ps, ans);
                        let added = names@.map_values(|n: DomainName| n.name@);
                        assert(g =~= prev + added);
                        assert forall|i: int| 0 <= i < out@.len() implies {
                            &&& (#[trigger] out@[i]).name@ == g[i]
                            &&& out@[i].id == 0
                            &&& out@[i].provider == DnsProvider::Aliyun
                            &&& out@[i].status == DomainStatus::Active
                            &&& out@[i].expiry@.len() == 0
                        } by {
                            if i >= before.len() {
                                let t = i - before.len();
                                assert(out@[before.len() + t] == out@[i]);
                                assert(added[t] == names@[t].name@);
                                assert(g[i] == added[t]);
                            } else {
                                assert(out@[i] == before[i]);
                                assert(g[i] == prev[i]);
                            }
                        }
                    }
                } else {
                    assert(gathered(ps, ans) =~= gathered(ps.drop_last(), ans.drop_last()));
                }
            } else {
                assert(gathered(ps, ans) =~= gathered(ps.drop_last(), ans.drop_last()));
            }
            k = k + 1;
        }
        assert(self.dns_provider@.subrange(0, k as int) =~= self.dns_provider@);
        assert(answers@.subrange(0, k as int) =~= answers@);
        out
    }
}

impl Default for DnsClient {
    /// No keys, no region, and Aliyun as the only provider.
    fn default() -> (r: DnsClient)
        ensures
            r.access_key_id@.len() == 0,
            r.access_key_secret@.len() == 0,
            r.region_id@.len() == 0,
            r.dns_provider@ == seq![DnsProvider::Aliyun],
    {
        let mut p: Vec<DnsProvider> = Vec::new();
        p.push(DnsProvider::Aliyun);
        DnsClient { access_key_id: String::new(), access_key_secret: String::new(), region_id: String::new(), dns_provider: p }
    }
}

} // verus!

//! Agents that connect to the manager: their model, the registry that
//! tracks them and their sessions, and the service operations on top.

use crate::text::{decimal, lowercase, owned, push_decimal, push_str, seq_contains, str_contains, str_eq, to_lowercase};
use vstd::prelude::*;

verus! {

/// What an agent can do.
#[derive(Debug, Clone, Copy, PartialEq, Eq, Structural)]
pub enum Capability {
    DdnsClient,
    SslValidator,
    ShellExecutor,
    ScriptRunner,
    FileTransfer,
}

/// Connection state of an agent.
#[derive(Debug, Clone, Copy, PartialEq, Eq, Structural)]
pub enum AgentStatus {
    Online,
    Offline,
    Busy,
}

/// Every capability, in the order the manager lists them.
pub open spec fn all_capabilities() -> Seq<Capability> {
    seq![
        Capability::DdnsClient,
        Capability::SslValidator,
        Capability::ShellExecutor,
        Capability::ScriptRunner,
        Capability::FileTransfer,
    ]
}

/// The capability that a name stands for, once lower-cased.
pub open spec fn capability_from_lower(s: Seq<char>) -> Option<Capability> {
    if s == "ddns_client"@ || s == "ddns"@ {
        Some(Capability::DdnsClient)
    } else if s == "ssl_validator"@ || s == "ssl"@ {
        Some(Capability::SslValidator)
    } else if s == "shell_executor"@ || s == "shell"@ {
        Some(Capability::ShellExecutor)
    } else if s == "script_runner"@ || s == "script"@ {
        Some(Capability::ScriptRunner)
    } else if s == "file_transfer"@ || s == "file"@ {
        Some(Capability::FileTransfer)
    } else {
        None
    }
}

impl Capability {
    /// Every capability.
    pub fn all() -> (r: Vec<Capability>)
        ensures
            r@ == all_capabilities(),
    {
        let r = vec![
            Capability::DdnsClient,
            Capability::SslValidator,
            Capability::ShellExecutor,
            Capability::ScriptRunner,
            Capability::FileTransfer,
        ];
        assert(r@ =~= all_capabilities());
        r
    }

    /// The capability named by `s`, in any letter case, long or short form.
    pub fn from_str(s: &str) -> (r: Option<Capability>)
        ensures
            r == capability_from_lower(lowercase(s@)),
    {
        let lower = to_lowercase(s);
        Capability::from_lowercase(lower.as_str())
    }

    /// The capability that the lower-case name `l` stands for, long or short form.
    pub fn from_lowercase(l: &str) -> (r: Option<Capability>)
        ensures
            r == capability_from_lower(l@),
    {
        if str_eq(l, "ddns_client") || str_eq(l, "ddns") {
            Some(Capability::DdnsClient)
        } else if str_eq(l, "ssl_validator") || str_eq(l, "ssl") {
            Some(Capability::SslValidator)
        } else if str_eq(l, "shell_executor") || str_eq(l, "shell") {
            Some(Capability::ShellExecutor)
        } else if str_eq(l, "script_runner") || str_eq(l, "script") {
            Some(Capability::ScriptRunner)
        } else if str_eq(l, "file_transfer") || str_eq(l, "file") {
            Some(Capability::FileTransfer)
        } else {
            None
        }
    }
}

/// Mathematical view of an agent.
pub struct AgentView {
    pub id: u128,
    pub name: Seq<char>,
    pub endpoint: Seq<char>,
    pub enabled: bool,
    pub status: AgentStatus,
    pub capabilities: Seq<Capability>,
    pub tags: Seq<Seq<char>>,
    pub last_heartbeat: i64,
}

/// An agent known to the manager. Its id is the 128-bit value of its UUID.
#[derive(Debug)]
pub struct Agent {
    pub id: u128,
    pub name: String,
    pub endpoint: String,
    pub enabled: bool,
    pub status: AgentStatus,
    pub capabilities: Vec<Capability>,
    pub tags: Vec<String>,
    pub last_heartbeat: i64,
}

/// The texts of a list of strings.
pub open spec fn texts(v: Seq<String>) -> Seq<Seq<char>> {
    v.map_values(|s: String| s@)
}

impl View for Agent {
    type V = AgentView;

    open spec fn view(&self) -> AgentView {
        AgentView {
            id: self.id,
            name: self.name@,
            endpoint: self.endpoint@,
            enabled: self.enabled,
            status: self.status,
            capabilities: self.capabilities@,
            tags: texts(self.tags@),
            last_heartbeat: self.last_heartbeat,
        }
    }
}

fn copy_strings(v: &Vec<String>) -> (r: Vec<String>)
    ensures
        texts(r@) == texts(v@),
{
    let mut r: Vec<String> = Vec::new();
    let mut i: usize = 0;
    while i < v.len()
        invariant
            i <= v@.len(),
            r@.len() == i,
            forall|j: int| 0 <= j < i ==> r@[j]@ == v@[j]@,
        decreases v@.len() - i,
    {
        r.push(v[i].clone());
        i = i + 1;
    }
    assert(texts(r@) =~= texts(v@));
    r
}

fn copy_capabilities(v: &Vec<Capability>) -> (r: Vec<Capability>)
    ensures
        r@ == v@,
{
    let mut r: Vec<Capability> = Vec::new();
    let mut i: usize = 0;
    while i < v.len()
        invariant
            i <= v@.len(),
            r@ =~= v@.subrange(0, i as int),
        decreases v@.len() - i,
    {
        r.push(v[i]);
        i = i + 1;
    }
    assert(r@ =~= v@);
    r
}

/// `s` holds a string equal to `t`.
pub open spec fn contains_text(s: Seq<Seq<char>>, t: Seq<char>) -> bool {
    exists|i: int| 0 <= i < s.len() && s[i] == t
}

impl Agent {
    /// A new agent with the given id, name and endpoint: disabled, offline,
    /// without capabilities or tags and with no heartbeat yet.
    pub fn new(id: u128, name: String, endpoint: String) -> (r: Agent)
        ensures
            r@ == (AgentView {
                id,
                name: name@,
                endpoint: endpoint@,
                enabled: false,
                status: AgentStatus::Offline,
                capabilities: Seq::empty(),
                tags: Seq::empty(),
                last_heartbeat: 0,
            }),
    {
        let r = Agent {
            id,
            name,
            endpoint,
            enabled: false,
            status: AgentStatus::Offline,
            capabilities: Vec::new(),
            tags: Vec::new(),
            last_heartbeat: 0,
        };
        assert(texts(r.tags@) =~= Seq::empty());
        r
    }

    /// An independent copy of the agent.
    pub fn duplicate(&self) -> (r: Agent)
        ensures
            r@ == self@,
    {
        Agent {
            id: self.id,
            name: self.name.clone(),
            endpoint: self.endpoint.clone(),
            enabled: self.enabled,
            status: self.status,
            capabilities: copy_capabilities(&self.capabilities),
            tags: copy_strings(&self.tags),
            last_heartbeat: self.last_heartbeat,
        }
    }

    /// Sets the agent's status.
    pub fn update_status(&mut self, status: AgentStatus)
        ensures
            final(self)@ == (AgentView { status, ..old(self)@ }),
    {
        self.status = status;
    }

    /// Records a heartbeat received at time `now`.
    pub fn update_heartbeat(&mut self, now: i64)
        ensures
            final(self)@ == (AgentView { last_heartbeat: now, ..old(self)@ }),
    {
        self.last_heartbeat = now;
    }

    /// The agent has capability `c`.
    pub fn has_capability(&self, c: &Capability) -> (r: bool)
        ensures
            r == self@.capabilities.contains(*c),
    {
        let mut i: usize = 0;
        while i < self.capabilities.len()
            invariant
                i <= self.capabilities@.len(),
                forall|j: int| 0 <= j < i ==> self.capabilities@[j] != *c,
            decreases self.capabilities@.len() - i,
        {
            if self.capabilities[i] == *c {
                assert(self.capabilities@[i as int] == *c);
                return true;
            }
            i = i + 1;
        }
        false
    }

    /// The agent is online.
    pub fn is_online(&self) -> (r: bool)
        ensures
            r == (self@.status == AgentStatus::Online),
    {
        self.status == AgentStatus::Online
    }

    /// The agent carries a tag equal to `tag`.
    pub fn has_tag(&self, tag: &String) -> (r: bool)
        ensures
            r == contains_text(self@.tags, tag@),
    {
        let mut i: usize = 0;
        while i < self.tags.len()
            invariant
                i <= self.tags@.len(),
                forall|j: int| 0 <= j < i ==> texts(self.tags@)[j] != tag@,
            decreases self.tags@.len() - i,
        {
            if str_eq(self.tags[i].as_str(), tag.as_str()) {
                assert(texts(self.tags@)[i as int] == tag@);
                return true;
            }
            i = i + 1;
        }
        false
    }
}

/// Criteria to select agents; each criterion that is present must hold.
#[derive(Debug)]
pub struct AgentFilter {
    pub status: Option<AgentStatus>,
    pub capability: Option<Capability>,
    pub search: Option<String>,
    pub tags: Option<Vec<String>>,
}

/// Mathematical view of an agent filter.
pub struct AgentFilterView {
    pub status: Option<AgentStatus>,
    pub capability: Option<Capability>,
    pub search: Option<Seq<char>>,
    pub tags: Option<Seq<Seq<char>>>,
}

impl View for AgentFilter {
    type V = AgentFilterView;

    open spec fn view(&self) -> AgentFilterView {
        AgentFilterView {
            status: self.status,
            capability: self.capability,
            search: match self.search {
                Some(s) => Some(s@),
                None => None,
            },
            tags: match self.tags {
                Some(t) => Some(texts(t@)),
                None => None,
            },
        }
    }
}

/// An agent passes a filter: it has the required status and capability,
/// its lower-cased name contains the lower-cased search text, and it
/// carries at least one of the listed tags.
pub open spec fn filter_accepts(f: AgentFilterView, a: AgentView) -> bool {
    &&& (f.status matches Some(s) ==> a.status == s)
    &&& (f.capability matches Some(c) ==> a.capabilities.contains(c))
    &&& (f.search matches Some(q) ==> seq_contains(lowercase(a.name), lowercase(q)))
    &&& (f.tags matches Some(ts) ==> exists|i: int| 0 <= i < ts.len() && contains_text(a.tags, ts[i]))
}

/// A session of a registered agent, with the time it was last active.
#[derive(Debug, Clone, Copy)]
pub struct Session {
    pub agent_id: u128,
    pub last_active: i64,
}

impl Session {
    /// A session of agent `agent_id` opened at time `now`.
    pub fn new(agent_id: u128, now: i64) -> (r: Session)
        ensures
            r.agent_id == agent_id,
            r.last_active == now,
    {
        Session { agent_id, last_active: now }
    }

    /// Marks the session active at time `now`.
    pub fn touch(&mut self, now: i64)
        ensures
            final(self).agent_id == old(self).agent_id,
            final(self).last_active == now,
    {
        self.last_active = now;
    }
}

/// The agents, sessions and live connections known to the manager.
#[derive(Debug)]
pub struct AgentRegistry {
    agents: Vec<Agent>,
    sessions: Vec<Session>,
    connections: Vec<u128>,
}

/// Views of a list of agents.
pub open spec fn agent_views(v: Seq<Agent>) -> Seq<AgentView> {
    v.map_values(|a: Agent| a@)
}

/// The ids in a list of agent views.
pub open spec fn agent_ids(v: Seq<AgentView>) -> Seq<u128> {
    v.map_values(|a: AgentView| a.id)
}

/// The agents of `s` that `pred` accepts, in order.
pub open spec fn filter_views(s: Seq<AgentView>, f: AgentFilterView) -> Seq<AgentView>
    decreases s.len(),
{
    if s.len() == 0 {
        Seq::empty()
    } else if filter_accepts(f, s.last()) {
        filter_views(s.drop_last(), f).push(s.last())
    } else {
        filter_views(s.drop_last(), f)
    }
}

/// The filter with only a status criterion.
pub open spec fn status_filter(s: AgentStatus) -> AgentFilterView {
    AgentFilterView { status: Some(s), capability: None, search: None, tags: None }
}

/// The filter with only a capability criterion.
pub open spec fn capability_filter(c: Capability) -> AgentFilterView {
    AgentFilterView { status: None, capability: Some(c), search: None, tags: None }
}

/// The filter without criteria.
pub open spec fn empty_filter() -> AgentFilterView {
    AgentFilterView { status: None, capability: None, search: None, tags: None }
}

/// Mathematical view of the registry.
pub struct RegistryView {
    pub agents: Seq<AgentView>,
    pub sessions: Seq<Session>,
    pub connections: Seq<u128>,
}

/// The first position of `id` in `ids`.
pub open spec fn id_index(ids: Seq<u128>, id: u128) -> Option<int> {
    if exists|i: int| 0 <= i < ids.len() && ids[i] == id {
        Some(choose|i: int| 0 <= i < ids.len() && ids[i] == id)
    } else {
        None
    }
}

/// The agent ids of the sessions in `s`.
pub open spec fn session_ids(s: Seq<Session>) -> Seq<u128> {
    s.map_values(|x: Session| x.agent_id)
}

/// The position in `agents` of an agent with id `id`.
pub open spec fn index_of_agent(agents: Seq<AgentView>, id: u128) -> Option<int> {
    id_index(agent_ids(agents), id)
}

/// The agent with id `id`, if the registry holds one.
pub open spec fn find_agent(agents: Seq<AgentView>, id: u128) -> Option<AgentView> {
    match index_of_agent(agents, id) {
        Some(i) => Some(agents[i]),
        None => None,
    }
}

/// The session of agent `id`, if there is one.
pub open spec fn find_session(sessions: Seq<Session>, id: u128) -> Option<Session> {
    match id_index(session_ids(sessions), id) {
        Some(i) => Some(sessions[i]),
        None => None,
    }
}

/// No id occurs twice.
pub open spec fn unique_ids(ids: Seq<u128>) -> bool {
    forall|i: int, j: int| 0 <= i < ids.len() && 0 <= j < ids.len() && i != j ==> ids[i] != ids[j]
}

/// Every list of the registry is keyed by agent id without repetition.
pub open spec fn registry_wf(r: RegistryView) -> bool {
    &&& unique_ids(agent_ids(r.agents))
    &&& unique_ids(session_ids(r.sessions))
    &&& unique_ids(r.connections)
}

/// `s` without the agent whose id is `id`, if it holds one.
pub open spec fn without_agent(s: Seq<AgentView>, id: u128) -> Seq<AgentView> {
    match index_of_agent(s, id) {
        Some(i) => s.remove(i),
        None => s,
    }
}

/// `s` without the session of agent `id`, if it holds one.
pub open spec fn without_session(s: Seq<Session>, id: u128) -> Seq<Session> {
    match id_index(session_ids(s), id) {
        Some(i) => s.remove(i),
        None => s,
    }
}

/// `s` without `id`, if it holds it.
pub open spec fn without_id(s: Seq<u128>, id: u128) -> Seq<u128> {
    match id_index(s, id) {
        Some(i) => s.remove(i),
        None => s,
    }
}

/// In a list without repetition, the position of an id is the one it occurs at.
proof fn lemma_unique_index(ids: Seq<u128>, id: u128, i: int)
    requires
        unique_ids(ids),
        0 <= i < ids.len(),
        ids[i] == id,
    ensures
        id_index(ids, id) == Some(i),
{
    let w = choose|k: int| 0 <= k < ids.len() && ids[k] == id;
    if w != i {
        assert(ids[w] == ids[i]);
    }
}

/// An id that no agent carries has no position.
proof fn lemma_agent_absent(s: Seq<AgentView>, id: u128)
    requires
        forall|j: int| 0 <= j < s.len() ==> s[j].id != id,
    ensures
        index_of_agent(s, id) is None,
{
    let ids = agent_ids(s);
    if exists|k: int| 0 <= k < ids.len() && ids[k] == id {
        let k = choose|k: int| 0 <= k < ids.len() && ids[k] == id;
        assert(s[k].id == id);
    }
}

/// An agent id that no session carries has no position.
proof fn lemma_session_absent(s: Seq<Session>, id: u128)
    requires
        forall|j: int| 0 <= j < s.len() ==> s[j].agent_id != id,
    ensures
        id_index(session_ids(s), id) is None,
{
    let ids = session_ids(s);
    if exists|k: int| 0 <= k < ids.len() && ids[k] == id {
        let k = choose|k: int| 0 <= k < ids.len() && ids[k] == id;
        assert(s[k].agent_id == id);
    }
}

/// Removing an entry keeps a list without repetition, and the removed id is gone.
proof fn lemma_unique_remove(ids: Seq<u128>, i: int)
    requires
        unique_ids(ids),
        0 <= i < ids.len(),
    ensures
        unique_ids(ids.remove(i)),
        forall|j: int| 0 <= j < ids.remove(i).len() ==> ids.remove(i)[j] != ids[i],
{
    let r = ids.remove(i);
    assert forall|a: int, b: int| 0 <= a < r.len() && 0 <= b < r.len() && a != b implies r[a] != r[b] by {
        let a2 = if a < i { a } else { a + 1 };
        let b2 = if b < i { b } else { b + 1 };
        assert(r[a] == ids[a2]);
        assert(r[b] == ids[b2]);
    }
    assert forall|j: int| 0 <= j < r.len() implies r[j] != ids[i] by {
        let j2 = if j < i { j } else { j + 1 };
        assert(r[j] == ids[j2]);
    }
}

/// Numbers of agents by status, as the statistics report them.
pub open spec fn count_status(s: Seq<AgentView>, st: AgentStatus) -> nat {
    filter_views(s, status_filter(st)).len()
}

impl View for AgentRegistry {
    type V = RegistryView;

    closed spec fn view(&self) -> RegistryView {
        RegistryView {
            agents: agent_views(self.agents@),
            sessions: self.sessions@,
            connections: self.connections@,
        }
    }
}

proof fn lemma_filter_views_step(s: Seq<AgentView>, f: AgentFilterView, i: int)
    requires
        0 <= i < s.len(),
    ensures
        filter_views(s.subrange(0, i + 1), f) == (if filter_accepts(f, s[i]) {
            filter_views(s.subrange(0, i), f).push(s[i])
        } else {
            filter_views(s.subrange(0, i), f)
        }),
{
    assert(s.subrange(0, i + 1).drop_last() =~= s.subrange(0, i));
}

proof fn lemma_filter_views_len(s: Seq<AgentView>, f: AgentFilterView)
    ensures
        filter_views(s, f).len() <= s.len(),
    decreases s.len(),
{
    if s.len() > 0 {
        lemma_filter_views_len(s.drop_last(), f);
    }
}

/// Whether agent `a` meets every criterion of filter `f`, written out:
/// the required status, the required capability, the search text inside
/// its lower-cased name, and at least one of the listed tags.
pub open spec fn meets_criteria(f: AgentFilterView, a: AgentView) -> bool {
    &&& (f.status is None || f.status == Some(a.status))
    &&& (f.capability is None || a.capabilities.contains(f.capability.unwrap()))
    &&& (f.search is None || seq_contains(lowercase(a.name), lowercase(f.search.unwrap())))
    &&& (f.tags is None || exists|i: int|
        #![trigger f.tags.unwrap()[i]]
        0 <= i < f.tags.unwrap().len() && exists|j: int|
            #![trigger a.tags[j]]
            0 <= j < a.tags.len() && a.tags[j] == f.tags.unwrap()[i])
}

proof fn lemma_filter_views_is_filter(s: Seq<AgentView>, f: AgentFilterView)
    ensures
        filter_views(s, f) == s.filter(|a: AgentView| meets_criteria(f, a)),
    decreases s.len(),
{
    reveal(Seq::filter);
    if s.len() > 0 {
        lemma_filter_views_is_filter(s.drop_last(), f);
        let a = s.last();
        assert(filter_accepts(f, a) == meets_criteria(f, a)) by {
            if f.tags is Some {
                let ts = f.tags.unwrap();
                if filter_accepts(f, a) {
                    let i = choose|i: int| 0 <= i < ts.len() && contains_text(a.tags, ts[i]);
                    let j = choose|j: int| 0 <= j < a.tags.len() && a.tags[j] == ts[i];
                    assert(a.tags[j] == f.tags.unwrap()[i]);
                }
                if meets_criteria(f, a) {
                    let i = choose|i: int|
                        #![trigger ts[i]]
                        0 <= i < ts.len() && exists|j: int| #![trigger a.tags[j]] 0 <= j < a.tags.len() && a.tags[j] == ts[i];
                    let j = choose|j: int| #![trigger a.tags[j]] 0 <= j < a.tags.len() && a.tags[j] == ts[i];
                    assert(contains_text(a.tags, ts[i]));
                }
            }
        }
    }
}

/// Filtering the registry keeps exactly the registered agents that meet
/// every criterion of the filter, in registration order: an agent with the
/// required status and capability, whose name contains the search text and
/// that carries one of the listed tags, is kept, and no other is.
pub proof fn lemma_filter_keeps_matching_agents(agents: Seq<AgentView>, f: AgentFilterView, out: Seq<AgentView>)
    requires
        out == filter_views(agents, f),
    ensures
        out == agents.filter(|a: AgentView| meets_criteria(f, a)),
        forall|i: int| 0 <= i < agents.len() && meets_criteria(f, agents[i]) ==> #[trigger] out.contains(agents[i]),
        forall|i: int| 0 <= i < out.len() ==> meets_criteria(f, #[trigger] out[i]),
{
    let pred = |a: AgentView| meets_criteria(f, a);
    lemma_filter_views_is_filter(agents, f);
    assert forall|i: int| 0 <= i < agents.len() && meets_criteria(f, agents[i]) implies #[trigger] out.contains(agents[i]) by {
        agents.lemma_filter_contains(pred, i);
    }
    assert forall|i: int| 0 <= i < out.len() implies meets_criteria(f, #[trigger] out[i]) by {
        agents.lemma_filter_pred(pred, i);
    }
}

/// Without criteria, a filter keeps every agent.
pub proof fn lemma_empty_filter_keeps_all(s: Seq<AgentView>)
    ensures
        filter_views(s, empty_filter()) == s,
    decreases s.len(),
{
    if s.len() > 0 {
        lemma_empty_filter_keeps_all(s.drop_last());
        assert(s.drop_last().push(s.last()) =~= s);
    }
}

impl AgentRegistry {
    /// An empty registry.
    pub fn new() -> (r: AgentRegistry)
        ensures
            r@.agents == Seq::<AgentView>::empty(),
            r@.sessions == Seq::<Session>::empty(),
            r@.connections == Seq::<u128>::empty(),
            registry_wf(r@),
    {
        let r = AgentRegistry { agents: Vec::new(), sessions: Vec::new(), connections: Vec::new() };
        assert(agent_views(r.agents@) =~= Seq::<AgentView>::empty());
        r
    }

    fn position(&self, id: u128) -> (r: Option<usize>)
        ensures
            match r {
                Some(i) => i < self@.agents.len() && self@.agents[i as int].id == id,
                None => forall|j: int| 0 <= j < self@.agents.len() ==> self@.agents[j].id != id,
            },
    {
        let mut i: usize = 0;
        while i < self.agents.len()
            invariant
                i <= self.agents@.len(),
                forall|j: int| 0 <= j < i ==> self@.agents[j].id != id,
            decreases self.agents@.len() - i,
        {
            if self.agents[i].id == id {
                return Some(i);
            }
            i = i + 1;
        }
        None
    }

    fn session_position(&self, id: u128) -> (r: Option<usize>)
        ensures
            match r {
                Some(i) => i < self@.sessions.len() && self@.sessions[i as int].agent_id == id,
                None => forall|j: int| 0 <= j < self@.sessions.len() ==> self@.sessions[j].agent_id != id,
            },
    {
        let mut i: usize = 0;
        while i < self.sessions.len()
            invariant
                i <= self.sessions@.len(),
                forall|j: int| 0 <= j < i ==> self@.sessions[j].agent_id != id,
            decreases self.sessions@.len() - i,
        {
            if self.sessions[i].agent_id == id {
                return Some(i);
            }
            i = i + 1;
        }
        None
    }

    /// Registers `agent` as it is, with a session opened at `now`. An agent
    /// whose id is already registered is refused with `None`, and the
    /// registry is left as it was.
    pub fn register(&mut self, agent: Agent, now: i64) -> (r: Option<Session>)
        requires
            registry_wf(old(self)@),
        ensures
            registry_wf(final(self)@),
            find_agent(old(self)@.agents, agent.id) is Some ==> r is None && final(self)@ == old(self)@,
            find_agent(old(self)@.agents, agent.id) is None ==> {
                &&& r == Some(Session { agent_id: agent.id, last_active: now })
                &&& final(self)@.agents == old(self)@.agents.push(agent@)
                &&& final(self)@.sessions == without_session(old(self)@.sessions, agent.id).push(
                    Session { agent_id: agent.id, last_active: now },
                )
                &&& final(self)@.connections == old(self)@.connections
            },
    {
        if let Some(i) = self.position(agent.id) {
            proof {
                lemma_unique_index(agent_ids(self@.agents), agent.id, i as int);
            }
            return None;
        }
        proof {
            lemma_agent_absent(self@.agents, agent.id);
        }
        let id = agent.id;
        let ghost old_agents = self@.agents;
        let ghost a = agent@;
        self.agents.push(agent);
        assert(agent_views(self.agents@) =~= old_agents.push(a));
        let session = Session::new(id, now);
        self.insert_session(session);
        proof {
            assert forall|i: int, j: int|
                0 <= i < agent_ids(self@.agents).len() && 0 <= j < agent_ids(self@.agents).len()
                    && i != j implies agent_ids(self@.agents)[i] != agent_ids(self@.agents)[j] by {
                if i < old_agents.len() && j < old_agents.len() {
                    assert(agent_ids(old_agents)[i] == agent_ids(self@.agents)[i]);
                    assert(agent_ids(old_agents)[j] == agent_ids(self@.agents)[j]);
                }
            }
        }
        Some(session)
    }

    fn insert_session(&mut self, session: Session)
        requires
            unique_ids(session_ids(old(self)@.sessions)),
        ensures
            final(self)@.agents == old(self)@.agents,
            final(self)@.connections == old(self)@.connections,
            final(self)@.sessions == without_session(old(self)@.sessions, session.agent_id).push(
                session,
            ),
            unique_ids(session_ids(final(self)@.sessions)),
    {
        self.remove_session(session.agent_id);
        let ghost before = self@.sessions;
        self.sessions.push(session);
        proof {
            let ids = session_ids(self@.sessions);
            assert forall|i: int, j: int|
                0 <= i < ids.len() && 0 <= j < ids.len() && i != j implies ids[i] != ids[j] by {
                if i < before.len() && j < before.len() {
                    assert(session_ids(before)[i] == ids[i]);
                    assert(session_ids(before)[j] == ids[j]);
                } else if i < before.len() {
                    assert(before[i].agent_id != session.agent_id);
                } else if j < before.len() {
                    assert(before[j].agent_id != session.agent_id);
                }
            }
        }
    }

    fn remove_session(&mut self, id: u128)
        requires
            unique_ids(session_ids(old(self)@.sessions)),
        ensures
            final(self)@.agents == old(self)@.agents,
            final(self)@.connections == old(self)@.connections,
            final(self)@.sessions == without_session(old(self)@.sessions, id),
            unique_ids(session_ids(final(self)@.sessions)),
            forall|j: int| 0 <= j < final(self)@.sessions.len() ==> final(self)@.sessions[j].agent_id != id,
    {
        let ghost before = self@.sessions;
        match self.session_position(id) {
            Some(i) => {
                proof {
                    lemma_unique_index(session_ids(before), id, i as int);
                    lemma_unique_remove(session_ids(before), i as int);
                }
                self.sessions.remove(i);
                proof {
                    assert(session_ids(self@.sessions) =~= session_ids(before).remove(i as int));
                    assert forall|j: int| 0 <= j < self@.sessions.len() implies self@.sessions[j].agent_id != id by {
                        assert(session_ids(self@.sessions)[j] == self@.sessions[j].agent_id);
                    }
                }
            },
            None => {
                proof {
                    lemma_session_absent(before, id);
                }
            },
        }
    }

    /// Removes agent `agent_id` together with its session and connection,
    /// and hands back the agent that was registered under that id.
    pub fn unregister(&mut self, agent_id: u128) -> (r: Option<Agent>)
        requires
            registry_wf(old(self)@),
        ensures
            registry_wf(final(self)@),
            match r {
                Some(a) => find_agent(old(self)@.agents, agent_id) == Some(a@),
                None => find_agent(old(self)@.agents, agent_id) is None,
            },
            final(self)@.agents == without_agent(old(self)@.agents, agent_id),
            final(self)@.sessions == without_session(old(self)@.sessions, agent_id),
            final(self)@.connections == without_id(old(self)@.connections, agent_id),
    {
        self.remove_connection(agent_id);
        self.remove_session(agent_id);
        let ghost before = self@.agents;
        match self.position(agent_id) {
            Some(i) => {
                proof {
                    lemma_unique_index(agent_ids(before), agent_id, i as int);
                    lemma_unique_remove(agent_ids(before), i as int);
                }
                let a = self.agents.remove(i);
                proof {
                    assert(agent_views(self.agents@) =~= before.remove(i as int));
                    assert(agent_ids(self@.agents) =~= agent_ids(before).remove(i as int));
                }
                Some(a)
            },
            None => {
                proof {
                    lemma_agent_absent(before, agent_id);
                }
                None
            },
        }
    }

    fn remove_connection(&mut self, id: u128)
        requires
            unique_ids(old(self)@.connections),
        ensures
            final(self)@.agents == old(self)@.agents,
            final(self)@.sessions == old(self)@.sessions,
            final(self)@.connections == without_id(old(self)@.connections, id),
            unique_ids(final(self)@.connections),
    {
        let ghost before = self@.connections;
        let ghost start = self@;
        let mut i: usize = 0;
        while i < self.connections.len()
            invariant
                self@ == start,
                start == old(self)@,
                start.connections == before,
                unique_ids(before),
                i <= before.len(),
                forall|j: int| 0 <= j < i ==> before[j] != id,
            decreases before.len() - i,
        {
            if self.connections[i] == id {
                proof {
                    lemma_unique_index(before, id, i as int);
                    lemma_unique_remove(before, i as int);
                }
                self.connections.remove(i);
                assert(self@.agents == start.agents);
                assert(self@.sessions == start.sessions);
                return;
            }
            i = i + 1;
        }
        assert(id_index(before, id) is None);
    }

    /// The agent registered under `agent_id`.
    pub fn get(&self, agent_id: u128) -> (r: Option<Agent>)
        requires
            registry_wf(self@),
        ensures
            match r {
                Some(a) => find_agent(self@.agents, agent_id) == Some(a@),
                None => find_agent(self@.agents, agent_id) is None,
            },
    {
        match self.position(agent_id) {
            Some(i) => {
                proof {
                    lemma_unique_index(agent_ids(self@.agents), agent_id, i as int);
                }
                Some(self.agents[i].duplicate())
            },
            None => None,
        }
    }

    /// Every registered agent, in registration order.
    pub fn get_all(&self) -> (r: Vec<Agent>)
        ensures
            agent_views(r@) == self@.agents,
    {
        let mut out: Vec<Agent> = Vec::new();
        let mut i: usize = 0;
        while i < self.agents.len()
            invariant
                i <= self.agents@.len(),
                out@.len() == i,
                forall|j: int| 0 <= j < i ==> out@[j]@ == self@.agents[j],
            decreases self.agents@.len() - i,
        {
            let a = self.agents[i].duplicate();
            out.push(a);
            i = i + 1;
        }
        assert(agent_views(out@) =~= self@.agents);
        out
    }

    /// The registered agents that `filter` accepts, in registration order.
    pub fn filter(&self, filter: &AgentFilter) -> (r: Vec<Agent>)
        ensures
            agent_views(r@) == filter_views(self@.agents, filter@),
    {
        let mut out: Vec<Agent> = Vec::new();
        let mut i: usize = 0;
        while i < self.agents.len()
            invariant
                i <= self.agents@.len(),
                agent_views(out@) =~= filter_views(self@.agents.subrange(0, i as int), filter@),
            decreases self.agents@.len() - i,
        {
            let ok = accepts(filter, &self.agents[i]);
            proof {
                lemma_filter_views_step(self@.agents, filter@, i as int);
            }
            if ok {
                let a = self.agents[i].duplicate();
                out.push(a);
            }
            i = i + 1;
            assert(agent_views(out@) =~= filter_views(self@.agents.subrange(0, i as int), filter@));
        }
        assert(self@.agents.subrange(0, self@.agents.len() as int) =~= self@.agents);
        out
    }

    /// The online agents.
    pub fn get_online(&self) -> (r: Vec<Agent>)
        ensures
            agent_views(r@) == filter_views(self@.agents, status_filter(AgentStatus::Online)),
    {
        let f = AgentFilter { status: Some(AgentStatus::Online), capability: None, search: None, tags: None };
        self.filter(&f)
    }

    /// The agents available for work: those that are online.
    pub fn get_available(&self) -> (r: Vec<Agent>)
        ensures
            agent_views(r@) == filter_views(self@.agents, status_filter(AgentStatus::Online)),
    {
        self.get_online()
    }

    /// The agents that have capability `capability`.
    pub fn get_by_capability(&self, capability: &Capability) -> (r: Vec<Agent>)
        ensures
            agent_views(r@) == filter_views(self@.agents, capability_filter(*capability)),
    {
        let f = AgentFilter { status: None, capability: Some(*capability), search: None, tags: None };
        self.filter(&f)
    }

    /// Sets the status of agent `agent_id`; `false` when no such agent is registered.
    pub fn update_status(&mut self, agent_id: u128, status: AgentStatus) -> (r: bool)
        requires
            registry_wf(old(self)@),
        ensures
            registry_wf(final(self)@),
            r == (find_agent(old(self)@.agents, agent_id) is Some),
            final(self)@.sessions == old(self)@.sessions,
            final(self)@.connections == old(self)@.connections,
            final(self)@.agents.len() == old(self)@.agents.len(),
            forall|j: int|
                0 <= j < old(self)@.agents.len() ==> #[trigger] final(self)@.agents[j] == (if old(
                    self,
                )@.agents[j].id == agent_id {
                    AgentView { status, ..old(self)@.agents[j] }
                } else {
                    old(self)@.agents[j]
                }),
    {
        match self.position(agent_id) {
            Some(i) => {
                let ghost before = self@.agents;
                let mut a = self.agents.remove(i);
                a.update_status(status);
                self.agents.insert(i, a);
                proof {
                    lemma_unique_index(agent_ids(before), agent_id, i as int);
                    assert forall|j: int| 0 <= j < before.len() && j != i implies before[j].id != agent_id by {
                        assert(agent_ids(before)[j] != agent_ids(before)[i as int]);
                    }
                    assert(agent_views(self.agents@) =~= before.update(i as int, AgentView { status, ..before[i as int] }));
                    assert(agent_ids(self@.agents) =~= agent_ids(before));
                }
                true
            },
            None => {
                proof {
                    lemma_agent_absent(self@.agents, agent_id);
                }
                false
            },
        }
    }

    /// Records a heartbeat of agent `agent_id` at time `now`; `false` when no
    /// such agent is registered.
    pub fn update_heartbeat(&mut self, agent_id: u128, now: i64) -> (r: bool)
        requires
            registry_wf(old(self)@),
        ensures
            registry_wf(final(self)@),
            r == (find_agent(old(self)@.agents, agent_id) is Some),
            final(self)@.sessions == old(self)@.sessions,
            final(self)@.connections == old(self)@.connections,
            final(self)@.agents.len() == old(self)@.agents.len(),
            forall|j: int|
                0 <= j < old(self)@.agents.len() ==> #[trigger] final(self)@.agents[j] == (if old(
                    self,
                )@.agents[j].id == agent_id {
                    AgentView { last_heartbeat: now, ..old(self)@.agents[j] }
                } else {
                    old(self)@.agents[j]
                }),
    {
        match self.position(agent_id) {
            Some(i) => {
                let ghost before = self@.agents;
                let mut a = self.agents.remove(i);
                a.update_heartbeat(now);
                self.agents.insert(i, a);
                proof {
                    lemma_unique_index(agent_ids(before), agent_id, i as int);
                    assert forall|j: int| 0 <= j < before.len() && j != i implies before[j].id != agent_id by {
                        assert(agent_ids(before)[j] != agent_ids(before)[i as int]);
                    }
                    assert(agent_views(self.agents@) =~= before.update(i as int, AgentView { last_heartbeat: now, ..before[i as int] }));
                    assert(agent_ids(self@.agents) =~= agent_ids(before));
                }
                true
            },
            None => {
                proof {
                    lemma_agent_absent(self@.agents, agent_id);
                }
                false
            },
        }
    }

    /// The session of agent `agent_id`.
    pub fn get_session(&self, agent_id: u128) -> (r: Option<Session>)
        requires
            registry_wf(self@),
        ensures
            r == find_session(self@.sessions, agent_id),
    {
        match self.session_position(agent_id) {
            Some(i) => {
                proof {
                    lemma_unique_index(session_ids(self@.sessions), agent_id, i as int);
                }
                Some(self.sessions[i])
            },
            None => None,
        }
    }

    /// Marks the session of agent `agent_id` active at time `now`; `false`
    /// when the agent has no session.
    pub fn touch_session(&mut self, agent_id: u128, now: i64) -> (r: bool)
        requires
            registry_wf(old(self)@),
        ensures
            registry_wf(final(self)@),
            r == (find_session(old(self)@.sessions, agent_id) is Some),
            final(self)@.agents == old(self)@.agents,
            final(self)@.connections == old(self)@.connections,
            final(self)@.sessions.len() == old(self)@.sessions.len(),
            forall|j: int|
                0 <= j < old(self)@.sessions.len() ==> #[trigger] final(self)@.sessions[j] == (if old(
                    self,
                )@.sessions[j].agent_id == agent_id {
                    Session { agent_id, last_active: now }
                } else {
                    old(self)@.sessions[j]
                }),
    {
        match self.session_position(agent_id) {
            Some(i) => {
                let ghost before = self@.sessions;
                let mut s = self.sessions[i];
                s.touch(now);
                self.sessions.set(i, s);
                proof {
                    let ids = session_ids(before);
                    lemma_unique_index(ids, agent_id, i as int);
                    assert forall|j: int| 0 <= j < before.len() && j != i implies before[j].agent_id != agent_id by {
                        assert(ids[j] != ids[i as int]);
                    }
                    assert(session_ids(self@.sessions) =~= ids);
                }
                true
            },
            None => {
                proof {
                    lemma_session_absent(self@.sessions, agent_id);
                }
                false
            },
        }
    }

    /// Records that agent `agent_id` has a live connection.
    pub fn set_connection(&mut self, agent_id: u128)
        requires
            registry_wf(old(self)@),
        ensures
            registry_wf(final(self)@),
            final(self)@.agents == old(self)@.agents,
            final(self)@.sessions == old(self)@.sessions,
            final(self)@.connections == (if old(self)@.connections.contains(agent_id) {
                old(self)@.connections
            } else {
                old(self)@.connections.push(agent_id)
            }),
    {
        let ghost start = self@;
        let mut i: usize = 0;
        while i < self.connections.len()
            invariant
                self@ == start,
                registry_wf(start),
                i <= self.connections@.len(),
                forall|j: int| 0 <= j < i ==> self.connections@[j] != agent_id,
            decreases self.connections@.len() - i,
        {
            if self.connections[i] == agent_id {
                assert(self@.connections[i as int] == agent_id);
                return;
            }
            i = i + 1;
        }
        assert(!start.connections.contains(agent_id));
        self.connections.push(agent_id);
        proof {
            let c = self@.connections;
            assert forall|a: int, b: int| 0 <= a < c.len() && 0 <= b < c.len() && a != b implies c[a] != c[b] by {
                if a < start.connections.len() && b < start.connections.len() {
                    assert(c[a] == start.connections[a]);
                    assert(c[b] == start.connections[b]);
                }
            }
        }
    }

    /// Agent `agent_id` has a live connection.
    pub fn has_connection(&self, agent_id: u128) -> (r: bool)
        ensures
            r == self@.connections.contains(agent_id),
    {
        let mut i: usize = 0;
        while i < self.connections.len()
            invariant
                i <= self.connections@.len(),
                forall|j: int| 0 <= j < i ==> self.connections@[j] != agent_id,
            decreases self.connections@.len() - i,
        {
            if self.connections[i] == agent_id {
                assert(self@.connections[i as int] == agent_id);
                return true;
            }
            i = i + 1;
        }
        false
    }

    /// Number of live connections.
    pub fn connection_count(&self) -> (r: usize)
        ensures
            r == self@.connections.len(),
    {
        self.connections.len()
    }

    /// Number of online agents.
    pub fn online_count(&self) -> (r: usize)
        ensures
            r == count_status(self@.agents, AgentStatus::Online),
    {
        count_by_status(&self.agents, AgentStatus::Online)
    }
}

fn count_by_status(agents: &Vec<Agent>, st: AgentStatus) -> (r: usize)
    ensures
        r == count_status(agent_views(agents@), st),
{
    let ghost s = agent_views(agents@);
    let mut n: usize = 0;
    let mut i: usize = 0;
    while i < agents.len()
        invariant
            s == agent_views(agents@),
            i <= agents@.len(),
            n == count_status(s.subrange(0, i as int), st),
            n <= i,
        decreases agents@.len() - i,
    {
        proof {
            lemma_filter_views_step(s, status_filter(st), i as int);
        }
        if agents[i].status == st {
            n = n + 1;
        }
        i = i + 1;
    }
    assert(s.subrange(0, agents@.len() as int) =~= s);
    n
}

/// Agent `a` carries at least one of `tags`.
fn has_any_tag(a: &Agent, tags: &Vec<String>) -> (r: bool)
    ensures
        r == (exists|j: int| 0 <= j < texts(tags@).len() && contains_text(a@.tags, texts(tags@)[j])),
{
    let mut i: usize = 0;
    while i < tags.len()
        invariant
            i <= tags@.len(),
            forall|j: int| 0 <= j < i ==> !contains_text(a@.tags, #[trigger] texts(tags@)[j]),
        decreases tags@.len() - i,
    {
        if a.has_tag(&tags[i]) {
            assert(contains_text(a@.tags, texts(tags@)[i as int]));
            return true;
        }
        i = i + 1;
    }
    false
}

impl Default for AgentRegistry {
    fn default() -> (r: AgentRegistry)
        ensures
            r@.agents == Seq::<AgentView>::empty(),
            r@.sessions == Seq::<Session>::empty(),
            r@.connections == Seq::<u128>::empty(),
            registry_wf(r@),
    {
        AgentRegistry::new()
    }
}

/// Whether `filter` accepts agent `a`.
pub fn accepts(filter: &AgentFilter, a: &Agent) -> (r: bool)
    ensures
        r == filter_accepts(filter@, a@),
{
    if let Some(st) = &filter.status {
        if a.status != *st {
            return false;
        }
    }
    if let Some(c) = &filter.capability {
        if !a.has_capability(c) {
            return false;
        }
    }
    if let Some(q) = &filter.search {
        let name = to_lowercase(a.name.as_str());
        let query = to_lowercase(q.as_str());
        if !str_contains(name.as_str(), query.as_str()) {
            return false;
        }
    }
    if let Some(tags) = &filter.tags {
        if !has_any_tag(a, tags) {
            return false;
        }
    }
    true
}

/// Counts of registered agents by status.
#[derive(Debug, Clone, Copy)]
pub struct AgentStatistics {
    pub total: usize,
    pub online: usize,
    pub offline: usize,
    pub busy: usize,
    pub total_capabilities: usize,
}

/// The report text of agent statistics, one line per count.
pub open spec fn statistics_text(st: AgentStatistics) -> Seq<char> {
    "Agent Statistics:\n  Total: "@ + decimal(st.total as nat) + "\n  Online: "@ + decimal(st.online as nat)
        + "\n  Offline: "@ + decimal(st.offline as nat) + "\n  Busy: "@ + decimal(st.busy as nat)
        + "\n  Capabilities: "@ + decimal(st.total_capabilities as nat) + "\n"@
}

impl AgentStatistics {
    /// The statistics as a multi-line report.
    pub fn to_display_string(&self) -> (r: String)
        ensures
            r@ == statistics_text(*self),
    {
        let mut s = owned("Agent Statistics:\n  Total: ");
        push_decimal(&mut s, self.total as u64);
        push_str(&mut s, "\n  Online: ");
        push_decimal(&mut s, self.online as u64);
        push_str(&mut s, "\n  Offline: ");
        push_decimal(&mut s, self.offline as u64);
        push_str(&mut s, "\n  Busy: ");
        push_decimal(&mut s, self.busy as u64);
        push_str(&mut s, "\n  Capabilities: ");
        push_decimal(&mut s, self.total_capabilities as u64);
        push_str(&mut s, "\n");
        s
    }
}

/// Every agent is online, offline or busy, so the three counts add up to the total.
pub proof fn lemma_status_counts_cover(s: Seq<AgentView>)
    ensures
        count_status(s, AgentStatus::Online) + count_status(s, AgentStatus::Offline) + count_status(
            s,
            AgentStatus::Busy,
        ) == s.len(),
    decreases s.len(),
{
    if s.len() > 0 {
        lemma_status_counts_cover(s.drop_last());
    }
}

/// The text of a UUID given by its 128-bit value, hyphenated in lower-case
/// hex (8-4-4-4-12 digits).
pub open spec fn uuid_text_spec(id: u128) -> Seq<char> {
    let hex = Seq::new(32, |i: int| hex_digit(((id >> ((4 * (31 - i)) as u128)) & 0xf) as nat));
    hex.subrange(0, 8) + seq!['-'] + hex.subrange(8, 12) + seq!['-'] + hex.subrange(12, 16)
        + seq!['-'] + hex.subrange(16, 20) + seq!['-'] + hex.subrange(20, 32)
}

/// A lower-case hexadecimal digit.
pub open spec fn hex_digit(d: nat) -> char {
    if d < 10 {
        crate::text::digit_char(d)
    } else if d == 10 {
        'a'
    } else if d == 11 {
        'b'
    } else if d == 12 {
        'c'
    } else if d == 13 {
        'd'
    } else if d == 14 {
        'e'
    } else {
        'f'
    }
}

/// Formats an agent id with `uuid::Uuid::from_u128(id).to_string()`: the
/// UUID's Display writes the hyphenated lower-case hex form.
#[verifier::external_body]
pub(crate) fn uuid_text(id: u128) -> (r: String)
    ensures
        r@ == uuid_text_spec(id),
{
    uuid::Uuid::from_u128(id).to_string()
}

/// The message for an agent id that is not registered: `Agent <uuid> not found`.
pub open spec fn not_found_message(id: u128) -> Seq<char> {
    "Agent "@ + uuid_text_spec(id) + " not found"@
}

fn not_found(id: u128) -> (r: String)
    ensures
        r@ == not_found_message(id),
{
    let mut s = owned("Agent ");
    let t = uuid_text(id);
    push_str(&mut s, t.as_str());
    push_str(&mut s, " not found");
    s
}

/// Business operations on agents, on top of a registry.
pub struct AgentService {
    pub registry: AgentRegistry,
}

/// The agent a new agent request creates: enabled, otherwise as `Agent::new` makes it.
pub open spec fn created_agent(id: u128, name: Seq<char>, endpoint: Seq<char>) -> AgentView {
    AgentView {
        id,
        name,
        endpoint,
        enabled: true,
        status: AgentStatus::Offline,
        capabilities: Seq::empty(),
        tags: Seq::empty(),
        last_heartbeat: 0,
    }
}

impl AgentService {
    /// A service over `registry`.
    pub fn new(registry: AgentRegistry) -> (r: AgentService)
        ensures
            r.registry@ == registry@,
    {
        AgentService { registry }
    }

    /// Creates an enabled agent with id `id` and registers it (with a
    /// session opened at `now`); the agent as created is returned. When
    /// the id is taken the registry is left unchanged.
    pub fn create_agent(&mut self, id: u128, name: String, endpoint: String, now: i64) -> (r: Agent)
        requires
            registry_wf(old(self).registry@),
        ensures
            registry_wf(final(self).registry@),
            r@ == created_agent(id, name@, endpoint@),
            find_agent(old(self).registry@.agents, id) is Some ==> final(self).registry@ == old(self).registry@,
            find_agent(old(self).registry@.agents, id) is None ==> final(self).registry@.agents
                == old(self).registry@.agents.push(created_agent(id, name@, endpoint@)),
    {
        let mut agent = Agent::new(id, name, endpoint);
        agent.enabled = true;
        let copy = agent.duplicate();
        let _ = self.registry.register(copy, now);
        agent
    }

    /// The agent registered under `agent_id`.
    pub fn get_agent(&self, agent_id: u128) -> (r: Option<Agent>)
        requires
            registry_wf(self.registry@),
        ensures
            match r {
                Some(a) => find_agent(self.registry@.agents, agent_id) == Some(a@),
                None => find_agent(self.registry@.agents, agent_id) is None,
            },
    {
        self.registry.get(agent_id)
    }

    /// Every registered agent, in registration order.
    pub fn get_all_agents(&self) -> (r: Vec<Agent>)
        ensures
            agent_views(r@) == self.registry@.agents,
    {
        self.registry.get_all()
    }

    /// The online agents.
    pub fn get_online_agents(&self) -> (r: Vec<Agent>)
        ensures
            agent_views(r@) == filter_views(self.registry@.agents, status_filter(AgentStatus::Online)),
    {
        self.registry.get_online()
    }

    /// The agents available for work.
    pub fn get_available_agents(&self) -> (r: Vec<Agent>)
        ensures
            agent_views(r@) == filter_views(self.registry@.agents, status_filter(AgentStatus::Online)),
    {
        self.registry.get_available()
    }

    /// The agents that have capability `capability`.
    pub fn get_agents_by_capability(&self, capability: Capability) -> (r: Vec<Agent>)
        ensures
            agent_views(r@) == filter_views(self.registry@.agents, capability_filter(capability)),
    {
        self.registry.get_by_capability(&capability)
    }

    /// The agents that `filter` accepts.
    pub fn filter_agents(&self, filter: AgentFilter) -> (r: Vec<Agent>)
        ensures
            agent_views(r@) == filter_views(self.registry@.agents, filter@),
    {
        self.registry.filter(&filter)
    }

    /// Sets the status of agent `agent_id`, or reports that it is not registered.
    pub fn update_status(&mut self, agent_id: u128, status: AgentStatus) -> (r: Result<(), String>)
        requires
            registry_wf(old(self).registry@),
        ensures
            registry_wf(final(self).registry@),
            match r {
                Ok(()) => find_agent(old(self).registry@.agents, agent_id) is Some,
                Err(m) => find_agent(old(self).registry@.agents, agent_id) is None && m@
                    == not_found_message(agent_id),
            },
            forall|j: int|
                0 <= j < old(self).registry@.agents.len() ==> #[trigger] final(self).registry@.agents[j] == (
                if old(self).registry@.agents[j].id == agent_id {
                    AgentView { status, ..old(self).registry@.agents[j] }
                } else {
                    old(self).registry@.agents[j]
                }),
            final(self).registry@.agents.len() == old(self).registry@.agents.len(),
    {
        if self.registry.update_status(agent_id, status) {
            Ok(())
        } else {
            Err(not_found(agent_id))
        }
    }

    /// Marks agent `agent_id` online.
    pub fn agent_online(&mut self, agent_id: u128) -> (r: Result<(), String>)
        requires
            registry_wf(old(self).registry@),
        ensures
            registry_wf(final(self).registry@),
            r is Ok == (find_agent(old(self).registry@.agents, agent_id) is Some),
            forall|j: int|
                0 <= j < old(self).registry@.agents.len() ==> #[trigger] final(self).registry@.agents[j] == (
                if old(self).registry@.agents[j].id == agent_id {
                    AgentView { status: AgentStatus::Online, ..old(self).registry@.agents[j] }
                } else {
                    old(self).registry@.agents[j]
                }),
            final(self).registry@.agents.len() == old(self).registry@.agents.len(),
    {
        self.update_status(agent_id, AgentStatus::Online)
    }

    /// Marks agent `agent_id` offline.
    pub fn agent_offline(&mut self, agent_id: u128) -> (r: Result<(), String>)
        requires
            registry_wf(old(self).registry@),
        ensures
            registry_wf(final(self).registry@),
            r is Ok == (find_agent(old(self).registry@.agents, agent_id) is Some),
            forall|j: int|
                0 <= j < old(self).registry@.agents.len() ==> #[trigger] final(self).registry@.agents[j] == (
                if old(self).registry@.agents[j].id == agent_id {
                    AgentView { status: AgentStatus::Offline, ..old(self).registry@.agents[j] }
                } else {
                    old(self).registry@.agents[j]
                }),
            final(self).registry@.agents.len() == old(self).registry@.agents.len(),
    {
        self.update_status(agent_id, AgentStatus::Offline)
    }

    /// Marks agent `agent_id` busy.
    pub fn agent_busy(&mut self, agent_id: u128) -> (r: Result<(), String>)
        requires
            registry_wf(old(self).registry@),
        ensures
            registry_wf(final(self).registry@),
            r is Ok == (find_agent(old(self).registry@.agents, agent_id) is Some),
            forall|j: int|
                0 <= j < old(self).registry@.agents.len() ==> #[trigger] final(self).registry@.agents[j] == (
                if old(self).registry@.agents[j].id == agent_id {
                    AgentView { status: AgentStatus::Busy, ..old(self).registry@.agents[j] }
                } else {
                    old(self).registry@.agents[j]
                }),
            final(self).registry@.agents.len() == old(self).registry@.agents.len(),
    {
        self.update_status(agent_id, AgentStatus::Busy)
    }

    /// Records a heartbeat of agent `agent_id` at `now`, or reports that it
    /// is not registered.
    pub fn update_heartbeat(&mut self, agent_id: u128, now: i64) -> (r: Result<(), String>)
        requires
            registry_wf(old(self).registry@),
        ensures
            registry_wf(final(self).registry@),
            match r {
                Ok(()) => find_agent(old(self).registry@.agents, agent_id) is Some,
                Err(m) => find_agent(old(self).registry@.agents, agent_id) is None && m@
                    == not_found_message(agent_id),
            },
            forall|j: int|
                0 <= j < old(self).registry@.agents.len() ==> #[trigger] final(self).registry@.agents[j] == (
                if old(self).registry@.agents[j].id == agent_id {
                    AgentView { last_heartbeat: now, ..old(self).registry@.agents[j] }
                } else {
                    old(self).registry@.agents[j]
                }),
            final(self).registry@.agents.len() == old(self).registry@.agents.len(),
    {
        if self.registry.update_heartbeat(agent_id, now) {
            Ok(())
        } else {
            Err(not_found(agent_id))
        }
    }

    /// Removes agent `agent_id`, handing it back, or reports that it is not registered.
    pub fn delete_agent(&mut self, agent_id: u128) -> (r: Result<Agent, String>)
        requires
            registry_wf(old(self).registry@),
        ensures
            registry_wf(final(self).registry@),
            match r {
                Ok(a) => find_agent(old(self).registry@.agents, agent_id) == Some(a@),
                Err(m) => find_agent(old(self).registry@.agents, agent_id) is None && m@
                    == not_found_message(agent_id),
            },
            final(self).registry@.agents == without_agent(old(self).registry@.agents, agent_id),
    {
        match self.registry.unregister(agent_id) {
            Some(a) => Ok(a),
            None => Err(not_found(agent_id)),
        }
    }

    /// Counts of the registered agents by status, and the number of capabilities.
    pub fn get_statistics(&self) -> (r: AgentStatistics)
        ensures
            r.total == self.registry@.agents.len(),
            r.online == count_status(self.registry@.agents, AgentStatus::Online),
            r.offline == count_status(self.registry@.agents, AgentStatus::Offline),
            r.busy == count_status(self.registry@.agents, AgentStatus::Busy),
            r.total_capabilities == all_capabilities().len(),
    {
        let agents = self.registry.get_all();
        let online = count_by_status(&agents, AgentStatus::Online);
        let offline = count_by_status(&agents, AgentStatus::Offline);
        let busy = count_by_status(&agents, AgentStatus::Busy);
        AgentStatistics {
            total: agents.len(),
            online,
            offline,
            busy,
            total_capabilities: Capability::all().len(),
        }
    }

    /// Agent `agent_id` is registered and online.
    pub fn is_agent_online(&self, agent_id: u128) -> (r: bool)
        requires
            registry_wf(self.registry@),
        ensures
            r == (find_agent(self.registry@.agents, agent_id) matches Some(a) && a.status
                == AgentStatus::Online),
    {
        match self.registry.get(agent_id) {
            Some(a) => a.is_online(),
            None => false,
        }
    }

    /// Agent `agent_id` is registered and has capability `capability`.
    pub fn has_capability(&self, agent_id: u128, capability: &Capability) -> (r: bool)
        requires
            registry_wf(self.registry@),
        ensures
            r == (find_agent(self.registry@.agents, agent_id) matches Some(a)
                && a.capabilities.contains(*capability)),
    {
        match self.registry.get(agent_id) {
            Some(a) => a.has_capability(capability),
            None => false,
        }
    }
}

/// A registered agent can be found under its id, as it was registered.
pub proof fn lemma_register_then_find(before: RegistryView, after: RegistryView, a: AgentView)
    requires
        registry_wf(before),
        find_agent(before.agents, a.id) is None,
        after.agents == before.agents.push(a),
    ensures
        find_agent(after.agents, a.id) == Some(a),
{
    let n = before.agents.len() as int;
    let ids = agent_ids(after.agents);
    let old_ids = agent_ids(before.agents);
    assert forall|j: int| 0 <= j < n implies old_ids[j] != a.id by {
        if old_ids[j] == a.id {
            assert(exists|k: int| 0 <= k < old_ids.len() && old_ids[k] == a.id);
        }
    }
    assert forall|x: int, y: int| 0 <= x < ids.len() && 0 <= y < ids.len() && x != y implies ids[x] != ids[y] by {
        if x < n && y < n {
            assert(ids[x] == old_ids[x]);
            assert(ids[y] == old_ids[y]);
        } else if x < n {
            assert(ids[x] == old_ids[x]);
        } else {
            assert(ids[y] == old_ids[y]);
        }
    }
    lemma_unique_index(ids, a.id, n);
}

/// After an agent is unregistered, no agent with its id remains.
pub proof fn lemma_unregister_then_absent(before: RegistryView, after: RegistryView, id: u128)
    requires
        registry_wf(before),
        after.agents == without_agent(before.agents, id),
    ensures
        find_agent(after.agents, id) is None,
{
    let ids = agent_ids(before.agents);
    match index_of_agent(before.agents, id) {
        Some(i) => {
            let w = choose|k: int| 0 <= k < ids.len() && ids[k] == id;
            lemma_unique_remove(ids, i);
            assert(agent_ids(after.agents) =~= ids.remove(i));
        },
        None => {},
    }
    let a2 = agent_ids(after.agents);
    if exists|k: int| 0 <= k < a2.len() && a2[k] == id {
        let k = choose|k: int| 0 <= k < a2.len() && a2[k] == id;
        assert(a2[k] == id);
    }
}

/// After the status of a registered agent is set, the agent found under
/// its id has that status and is otherwise unchanged.
pub proof fn lemma_status_update_then_find(
    before: RegistryView,
    after: RegistryView,
    id: u128,
    status: AgentStatus,
)
    requires
        registry_wf(before),
        find_agent(before.agents, id) is Some,
        after.agents.len() == before.agents.len(),
        forall|j: int|
            0 <= j < before.agents.len() ==> #[trigger] after.agents[j] == (if before.agents[j].id == id {
                AgentView { status, ..before.agents[j] }
            } else {
                before.agents[j]
            }),
    ensures
        find_agent(after.agents, id) == Some(AgentView { status, ..find_agent(before.agents, id)->0 }),
{
    let ids = agent_ids(before.agents);
    let i = index_of_agent(before.agents, id)->0;
    let w = choose|k: int| 0 <= k < ids.len() && ids[k] == id;
    assert(ids[w] == id);
    assert(agent_ids(after.agents) =~= ids) by {
        assert forall|k: int| 0 <= k < ids.len() implies agent_ids(after.agents)[k] == ids[k] by {
            assert(after.agents[k].id == before.agents[k].id);
        }
    }
    lemma_unique_index(agent_ids(after.agents), id, i);
}

} // verus!

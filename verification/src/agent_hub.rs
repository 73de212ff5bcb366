//! The agent hub: the messages agents and the manager exchange over their
//! connections, what the manager does with each message an agent sends,
//! and the outcomes of receiving and sending. Accepting connections and
//! moving the frames is the application's part; the ids it draws at
//! random for a new registration are handed in.

use crate::agent::{
    find_agent, registry_wf, uuid_text_spec, without_agent, without_session, AgentRegistry, AgentStatus,
    AgentView, Capability,
};
use crate::agent::uuid_text;
use crate::text::{owned, push_str};
use vstd::prelude::*;

verus! {

/// A message between an agent and the manager.
#[derive(Debug, Clone)]
pub enum AgentMessage {
    /// An agent asks to register with its key.
    RegisterWithSecret {
        agent_name: String,
        agent_key: String,
        capabilities: Vec<Capability>,
        version: String,
        hostname: String,
    },
    /// The registration form of older agents.
    Register { agent_id: u128, name: String, endpoint: String, capabilities: Vec<Capability>, version: String },
    /// A registration is accepted.
    RegisterAccepted {
        agent_id: u128,
        session_id: String,
        server_time: i64,
        requires_approval: bool,
        message: Option<String>,
    },
    /// A registration is refused.
    RegisterRejected { reason: String, code: String },
    /// An agent reports that it is alive, with its status.
    Heartbeat { status: AgentStatus, timestamp: i64 },
    /// The manager acknowledges a heartbeat.
    HeartbeatAck { server_time: i64 },
    /// The outcome of a dynamic DNS update.
    DdnsUpdateResult {
        domain: String,
        success: bool,
        old_ip: Option<String>,
        new_ip: Option<String>,
        error: Option<String>,
    },
    /// The answer to a certificate challenge.
    SslChallengeResponse { domain: String, success: bool, error: Option<String> },
    /// The outcome of a task.
    TaskResult { task_id: String, success: bool, output: String, error: Option<String>, exit_code: Option<i32> },
}

/// A frame read from a connection.
#[derive(Debug, Clone)]
pub enum Frame {
    /// A text frame.
    Text(String),
    /// The peer closed the connection.
    Close,
    /// A frame of another kind.
    Other,
    /// Reading failed, for this reason.
    Failed(String),
    /// The stream ended.
    End,
}

/// One connection to an agent. An agent id of 0 stands for the nil id: no
/// agent has registered on the connection yet.
#[derive(Debug, Clone)]
pub struct AgentConnection {
    pub agent_id: u128,
    pub session_id: String,
    pub connected: bool,
}

/// The text a frame carries, or why there is none.
pub open spec fn received(connected: bool, frame: Frame) -> Result<Seq<char>, Seq<char>> {
    if !connected {
        Err("WebSocket 未连接"@)
    } else {
        match frame {
            Frame::Text(t) => Ok(t@),
            Frame::Close => Err("连接已关闭"@),
            Frame::Other => Err("不支持的消息类型"@),
            Frame::Failed(e) => Err("接收消息错误: "@ + e@),
            Frame::End => Err("流已结束"@),
        }
    }
}

impl AgentConnection {
    /// A connection for `agent_id` and `session_id`, with no stream yet.
    pub fn new(agent_id: u128, session_id: String) -> (r: AgentConnection)
        ensures
            r.agent_id == agent_id,
            r.session_id == session_id,
            !r.connected,
    {
        AgentConnection { agent_id, session_id, connected: false }
    }

    /// The text of the frame read from the connection, to be parsed as a
    /// message, or why there is none.
    pub fn receive(&self, frame: Frame) -> (r: Result<String, String>)
        ensures
            match (r, received(self.connected, frame)) {
                (Ok(t), Ok(u)) => t@ == u,
                (Err(e), Err(u)) => e@ == u,
                _ => false,
            },
    {
        if !self.connected {
            return Err(owned("WebSocket 未连接"));
        }
        match frame {
            Frame::Text(t) => Ok(t),
            Frame::Close => Err(owned("连接已关闭")),
            Frame::Other => Err(owned("不支持的消息类型")),
            Frame::Failed(e) => {
                let mut m = owned("接收消息错误: ");
                push_str(&mut m, e.as_str());
                Err(m)
            },
            Frame::End => Err(owned("流已结束")),
        }
    }

    /// Whether a message can be sent: only over a stream.
    pub fn can_send(&self) -> (r: Result<(), String>)
        ensures
            self.connected <==> r is Ok,
            r matches Err(e) ==> e@ == "WebSocket 未连接"@,
    {
        if self.connected {
            Ok(())
        } else {
            Err(owned("WebSocket 未连接"))
        }
    }
}

/// What the manager does after a message on a connection.
#[derive(Debug, Clone)]
pub enum ConnectionStep {
    /// Keep reading, after sending the reply if there is one.
    Continue(Option<AgentMessage>),
    /// Send the reply, then stop reading.
    Close(AgentMessage),
}

/// The hub: the registry of agents, the agents with an open connection and
/// the address it listens on.
#[derive(Debug)]
pub struct AgentHub {
    pub registry: AgentRegistry,
    pub connections: Vec<u128>,
    pub listen_addr: String,
    pub started: bool,
}

/// The message for an agent without a connection: `Agent <uuid> 未连接`.
pub open spec fn not_connected_message(id: u128) -> Seq<char> {
    "Agent "@ + uuid_text_spec(id) + " 未连接"@
}

/// The agents after a heartbeat of agent `id` at `now` with `status`.
pub open spec fn after_heartbeat(agents: Seq<AgentView>, id: u128, now: i64, status: AgentStatus) -> Seq<AgentView> {
    agents.map_values(
        |a: AgentView| if a.id == id {
            AgentView { last_heartbeat: now, status, ..a }
        } else {
            a
        },
    )
}

/// The ids of `s` other than `id`, in order.
pub open spec fn ids_without(s: Seq<u128>, id: u128) -> Seq<u128>
    decreases s.len(),
{
    if s.len() == 0 {
        Seq::empty()
    } else if s.last() != id {
        ids_without(s.drop_last(), id).push(s.last())
    } else {
        ids_without(s.drop_last(), id)
    }
}

/// An id other than `id`.
pub open spec fn other_than(id: u128) -> spec_fn(u128) -> bool {
    |x: u128| x != id
}

proof fn lemma_ids_without_is_filter(s: Seq<u128>, id: u128)
    ensures
        ids_without(s, id) == s.filter(other_than(id)),
    decreases s.len(),
{
    reveal(Seq::filter);
    if s.len() > 0 {
        lemma_ids_without_is_filter(s.drop_last(), id);
    }
}

/// Closing the connection of agent `id` leaves every other agent's
/// connection in place, in order, and only that agent loses its own: the
/// new list is the old one without `id`.
pub proof fn lemma_close_keeps_other_connections(hub: AgentHub, closed: AgentHub, conn: AgentConnection)
    requires
        conn.agent_id != 0,
        closed.connections@ == ids_without(hub.connections@, conn.agent_id),
    ensures
        closed.connections@ == hub.connections@.filter(other_than(conn.agent_id)),
        forall|x: u128| #[trigger] hub.connections@.contains(x) && x != conn.agent_id ==> closed.connections@.contains(x),
        !closed.connections@.contains(conn.agent_id),
{
    let s = hub.connections@;
    lemma_ids_without_is_filter(s, conn.agent_id);
    assert forall|x: u128| #[trigger] s.contains(x) && x != conn.agent_id implies closed.connections@.contains(x) by {
        let i = choose|i: int| 0 <= i < s.len() && s[i] == x;
        s.lemma_filter_contains(other_than(conn.agent_id), i);
    }
    if closed.connections@.contains(conn.agent_id) {
        let i = choose|i: int| 0 <= i < closed.connections@.len() && closed.connections@[i] == conn.agent_id;
        s.lemma_filter_pred(other_than(conn.agent_id), i);
    }
}

/// The error lines of a broadcast: `Agent <uuid>: <error>` for each
/// connection that failed, in order.
pub open spec fn broadcast_errors(results: Seq<(u128, Result<(), String>)>) -> Seq<Seq<char>>
    decreases results.len(),
{
    if results.len() == 0 {
        Seq::empty()
    } else {
        let rest = broadcast_errors(results.drop_last());
        match results.last().1 {
            Ok(()) => rest,
            Err(e) => rest.push("Agent "@ + uuid_text_spec(results.last().0) + ": "@ + e@),
        }
    }
}

/// The error line of a failed send to agent `id`.
pub open spec fn send_error_line(id: u128, e: String) -> Seq<char> {
    "Agent "@ + uuid_text_spec(id) + ": "@ + e@
}

/// A broadcast reports one line for each failed send, in the order of
/// the sends, naming the agent and its error; successful sends give no
/// line.
pub proof fn lemma_broadcast_errors_follow_failures(results: Seq<(u128, Result<(), String>)>)
    ensures
        broadcast_errors(results) == results.filter(|x: (u128, Result<(), String>)| x.1 is Err).map_values(
            |x: (u128, Result<(), String>)| send_error_line(x.0, x.1->Err_0),
        ),
    decreases results.len(),
{
    reveal(Seq::filter);
    if results.len() > 0 {
        lemma_broadcast_errors_follow_failures(results.drop_last());
        let f = results.drop_last().filter(|x: (u128, Result<(), String>)| x.1 is Err);
        let g = |x: (u128, Result<(), String>)| send_error_line(x.0, x.1->Err_0);
        if results.last().1 is Err {
            assert(f.push(results.last()).map_values(g) =~= f.map_values(g).push(g(results.last())));
        }
    }
}

/// Lines joined with `; `.
pub open spec fn joined(lines: Seq<Seq<char>>) -> Seq<char>
    decreases lines.len(),
{
    if lines.len() == 0 {
        Seq::empty()
    } else if lines.len() == 1 {
        lines[0]
    } else {
        joined(lines.drop_last()) + "; "@ + lines.last()
    }
}

fn remove_id(v: &mut Vec<u128>, id: u128)
    ensures
        final(v)@ == ids_without(old(v)@, id),
{
    let ghost before = v@;
    let mut kept: Vec<u128> = Vec::new();
    let mut i: usize = 0;
    while i < v.len()
        invariant
            v@ == before,
            i <= before.len(),
            kept@ == ids_without(before.subrange(0, i as int), id),
        decreases before.len() - i,
    {
        assert(before.subrange(0, i as int + 1).drop_last() =~= before.subrange(0, i as int));
        if v[i] != id {
            kept.push(v[i]);
        }
        i = i + 1;
    }
    assert(before.subrange(0, before.len() as int) =~= before);
    *v = kept;
}

impl AgentHub {
    /// A hub over `registry` that will listen on `listen_addr`, with no
    /// connection and not started.
    pub fn new(registry: AgentRegistry, listen_addr: &str) -> (r: AgentHub)
        ensures
            r.registry@ == registry@,
            r.connections@.len() == 0,
            r.listen_addr@ == listen_addr@,
            !r.started,
    {
        AgentHub { registry, connections: Vec::new(), listen_addr: owned(listen_addr), started: false }
    }

    /// Records that the listener is bound.
    pub fn start(&mut self)
        ensures
            final(self).started,
            final(self).registry@ == old(self).registry@,
            final(self).connections@ == old(self).connections@,
            final(self).listen_addr@ == old(self).listen_addr@,
    {
        self.started = true;
    }

    /// Whether the accept loop can run: only once the hub is started.
    pub fn can_run(&self) -> (r: Result<(), String>)
        ensures
            self.started <==> r is Ok,
            r matches Err(e) ==> e@ == "服务器未启动"@,
    {
        if self.started {
            Ok(())
        } else {
            Err(owned("服务器未启动"))
        }
    }

    /// The number of open connections.
    pub fn connection_count(&self) -> (r: usize)
        ensures
            r == self.connections@.len(),
    {
        self.connections.len()
    }

    /// Whether a message can be sent to agent `agent_id`: only over an open
    /// connection.
    pub fn can_send_to(&self, agent_id: u128) -> (r: Result<(), String>)
        ensures
            self.connections@.contains(agent_id) <==> r is Ok,
            r matches Err(e) ==> e@ == not_connected_message(agent_id),
    {
        let mut i: usize = 0;
        while i < self.connections.len()
            invariant
                i <= self.connections@.len(),
                forall|j: int| 0 <= j < i ==> self.connections@[j] != agent_id,
            decreases self.connections@.len() - i,
        {
            if self.connections[i] == agent_id {
                return Ok(());
            }
            i = i + 1;
        }
        let mut m = owned("Agent ");
        let t = uuid_text(agent_id);
        push_str(&mut m, t.as_str());
        push_str(&mut m, " 未连接");
        Err(m)
    }

    /// The outcome of sending one message to every connection, given how
    /// each send went: success when none failed, else the failures, each as
    /// `Agent <uuid>: <error>`, joined with `; `.
    pub fn broadcast_result(results: &Vec<(u128, Result<(), String>)>) -> (r: Result<(), String>)
        ensures
            broadcast_errors(results@).len() == 0 <==> r is Ok,
            r matches Err(e) ==> e@ == joined(broadcast_errors(results@)),
    {
        let mut errors: Vec<String> = Vec::new();
        let mut i: usize = 0;
        while i < results.len()
            invariant
                i <= results@.len(),
                errors@.len() == broadcast_errors(results@.subrange(0, i as int)).len(),
                forall|j: int|
                    0 <= j < errors@.len() ==> (#[trigger] errors@[j])@ == broadcast_errors(
                        results@.subrange(0, i as int),
                    )[j],
            decreases results@.len() - i,
        {
            assert(results@.subrange(0, i as int + 1).drop_last() =~= results@.subrange(0, i as int));
            let (id, outcome) = &results[i];
            if let Err(e) = outcome {
                let mut line = owned("Agent ");
                let t = uuid_text(*id);
                push_str(&mut line, t.as_str());
                push_str(&mut line, ": ");
                push_str(&mut line, e.as_str());
                errors.push(line);
            }
            i = i + 1;
        }
        assert(results@.subrange(0, results@.len() as int) =~= results@);
        if errors.len() == 0 {
            return Ok(());
        }
        let mut joined_text = errors[0].clone();
        let mut k: usize = 1;
        while k < errors.len()
            invariant
                1 <= k <= errors@.len(),
                joined_text@ == joined(errors@.subrange(0, k as int).map_values(|s: String| s@)),
            decreases errors@.len() - k,
        {
            proof {
                let s = errors@.subrange(0, k as int + 1).map_values(|s: String| s@);
                assert(s.drop_last() =~= errors@.subrange(0, k as int).map_values(|s: String| s@));
            }
            push_str(&mut joined_text, "; ");
            push_str(&mut joined_text, errors[k].as_str());
            k = k + 1;
        }
        proof {
            assert(errors@.subrange(0, 1).map_values(|s: String| s@) =~= seq![errors@[0]@]);
            assert(errors@.subrange(0, errors@.len() as int).map_values(|s: String| s@)
                =~= broadcast_errors(results@));
        }
        Err(joined_text)
    }

    /// Handles one message an agent sent on connection `conn`, at time
    /// `now`. A registration with a key is accepted under the fresh ids
    /// drawn for it, and the connection takes the new agent id; the older
    /// registration form is refused and the connection closed; a heartbeat
    /// of a registered agent records the time and the reported status and
    /// is acknowledged, while one on a connection without an agent is
    /// ignored; every other message is only read.
    pub fn handle_agent_message(
        &mut self,
        conn: &mut AgentConnection,
        message: AgentMessage,
        fresh_agent_id: u128,
        fresh_session_id: String,
        now: i64,
    ) -> (r: ConnectionStep)
        requires
            registry_wf(old(self).registry@),
        ensures
            registry_wf(final(self).registry@),
            final(self).connections@ == old(self).connections@,
            final(self).listen_addr@ == old(self).listen_addr@,
            final(self).started == old(self).started,
            final(conn).session_id == old(conn).session_id,
            final(conn).connected == old(conn).connected,
            final(self).registry@.sessions == old(self).registry@.sessions,
            final(self).registry@.connections == old(self).registry@.connections,
            match message {
                AgentMessage::RegisterWithSecret { .. } => {
                    &&& final(conn).agent_id == fresh_agent_id
                    &&& final(self).registry@ == old(self).registry@
                    &&& r matches ConnectionStep::Continue(Some(AgentMessage::RegisterAccepted {
                        agent_id,
                        session_id,
                        server_time,
                        requires_approval,
                        message: Some(m),
                    }))
                    &&& agent_id == fresh_agent_id && session_id == fresh_session_id && server_time == now
                        && !requires_approval && m@ == "注册已接受"@
                },
                AgentMessage::Register { .. } => {
                    &&& final(conn).agent_id == old(conn).agent_id
                    &&& final(self).registry@ == old(self).registry@
                    &&& r matches ConnectionStep::Close(AgentMessage::RegisterRejected { reason, code })
                    &&& reason@ == "Unsupported registration format"@ && code@ == "OLD_PROTOCOL"@
                },
                AgentMessage::Heartbeat { status, .. } => {
                    &&& final(conn).agent_id == old(conn).agent_id
                    &&& if old(conn).agent_id == 0 {
                        final(self).registry@ == old(self).registry@ && r matches ConnectionStep::Continue(None)
                    } else {
                        &&& final(self).registry@.agents == after_heartbeat(
                            old(self).registry@.agents,
                            old(conn).agent_id,
                            now,
                            status,
                        )
                        &&& r matches ConnectionStep::Continue(Some(AgentMessage::HeartbeatAck { server_time }))
                        &&& server_time == now
                    }
                },
                _ => {
                    &&& final(conn).agent_id == old(conn).agent_id
                    &&& final(self).registry@ == old(self).registry@
                    &&& r matches ConnectionStep::Continue(None)
                },
            },
    {
        match message {
            AgentMessage::RegisterWithSecret { .. } => {
                conn.agent_id = fresh_agent_id;
                ConnectionStep::Continue(
                    Some(
                        AgentMessage::RegisterAccepted {
                            agent_id: fresh_agent_id,
                            session_id: fresh_session_id,
                            server_time: now,
                            requires_approval: false,
                            message: Some(owned("注册已接受")),
                        },
                    ),
                )
            },
            AgentMessage::Register { .. } => ConnectionStep::Close(
                AgentMessage::RegisterRejected {
                    reason: owned("Unsupported registration format"),
                    code: owned("OLD_PROTOCOL"),
                },
            ),
            AgentMessage::Heartbeat { status, .. } => {
                if conn.agent_id == 0 {
                    return ConnectionStep::Continue(None);
                }
                let id = conn.agent_id;
                let ghost before = self.registry@.agents;
                let _ = self.registry.update_heartbeat(id, now);
                let _ = self.registry.update_status(id, status);
                assert(self.registry@.agents =~= after_heartbeat(before, id, now, status));
                ConnectionStep::Continue(Some(AgentMessage::HeartbeatAck { server_time: now }))
            },
            _ => ConnectionStep::Continue(None),
        }
    }

    /// Closes connection `conn`: an agent registered on it loses its
    /// connection and is removed from the registry.
    pub fn close_connection(&mut self, conn: &AgentConnection)
        requires
            registry_wf(old(self).registry@),
        ensures
            registry_wf(final(self).registry@),
            final(self).listen_addr@ == old(self).listen_addr@,
            final(self).started == old(self).started,
            conn.agent_id == 0 ==> final(self).registry@ == old(self).registry@ && final(self).connections@
                == old(self).connections@,
            conn.agent_id != 0 ==> {
                &&& final(self).connections@ == ids_without(old(self).connections@, conn.agent_id)
                &&& final(self).registry@.agents == without_agent(old(self).registry@.agents, conn.agent_id)
                &&& final(self).registry@.sessions == without_session(
                    old(self).registry@.sessions,
                    conn.agent_id,
                )
                &&& find_agent(final(self).registry@.agents, conn.agent_id) is None
            },
    {
        if conn.agent_id != 0 {
            remove_id(&mut self.connections, conn.agent_id);
            let _ = self.registry.unregister(conn.agent_id);
            proof {
                crate::agent::lemma_unregister_then_absent(
                    old(self).registry@,
                    self.registry@,
                    conn.agent_id,
                );
            }
        }
    }
}

} // verus!

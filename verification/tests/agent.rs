use domain_manager::agent::{
    accepts, Agent, AgentFilter, AgentRegistry, AgentService, AgentStatus, Capability,
};

fn agent(id: u128, name: &str, endpoint: &str) -> Agent {
    Agent::new(id, name.to_string(), endpoint.to_string())
}

#[test]
fn test_register_agent() {
    let mut registry = AgentRegistry::new();
    let a = agent(1, "Test Agent", "ws://localhost:8080");
    let id = a.id;

    let result = registry.register(a.duplicate(), 0);
    assert!(result.is_some());

    let retrieved = registry.get(id);
    assert!(retrieved.is_some());
    assert_eq!(retrieved.unwrap().name, "Test Agent");
}

#[test]
fn registry_test_get_online_agents() {
    let mut registry = AgentRegistry::new();

    let mut agent1 = agent(1, "Agent 1", "ws://localhost:8081");
    agent1.update_status(AgentStatus::Online);

    let agent2 = agent(2, "Agent 2", "ws://localhost:8082");

    registry.register(agent1, 0);
    registry.register(agent2, 0);

    let online = registry.get_online();
    assert_eq!(online.len(), 1);
    assert_eq!(online[0].name, "Agent 1");
}

#[test]
fn test_filter_by_capability() {
    let mut registry = AgentRegistry::new();

    let mut agent1 = agent(1, "Agent 1", "ws://localhost:8081");
    agent1.capabilities.push(Capability::ShellExecutor);

    let mut agent2 = agent(2, "Agent 2", "ws://localhost:8082");
    agent2.capabilities.push(Capability::DdnsClient);

    registry.register(agent1, 0);
    registry.register(agent2, 0);

    let shell_agents = registry.get_by_capability(&Capability::ShellExecutor);
    assert_eq!(shell_agents.len(), 1);
    assert_eq!(shell_agents[0].name, "Agent 1");
}

#[test]
fn test_create_agent() {
    let mut service = AgentService::new(AgentRegistry::new());

    let a = service.create_agent(7, "Test".to_string(), "ws://localhost".to_string(), 100);
    assert_eq!(a.name, "Test");
    assert_eq!(a.endpoint, "ws://localhost");
    assert!(a.enabled);
}

#[test]
fn service_test_get_online_agents() {
    let mut service = AgentService::new(AgentRegistry::new());

    let agent1 = service.create_agent(1, "Agent 1".to_string(), "ws://1".to_string(), 0);
    service.create_agent(2, "Agent 2".to_string(), "ws://2".to_string(), 0);

    service.agent_online(agent1.id).unwrap();

    let online = service.get_online_agents();
    assert_eq!(online.len(), 1);
    assert_eq!(online[0].name, "Agent 1");
}

#[test]
fn register_refuses_a_taken_id() {
    let mut registry = AgentRegistry::new();
    assert!(registry.register(agent(5, "first", "ws://a"), 10).is_some());
    assert!(registry.register(agent(5, "second", "ws://b"), 20).is_none());
    assert_eq!(registry.get_all().len(), 1);
    assert_eq!(registry.get(5).unwrap().name, "first");
    let session = registry.get_session(5).unwrap();
    assert_eq!(session.last_active, 10);
}

#[test]
fn unregister_removes_agent_session_and_connection() {
    let mut registry = AgentRegistry::new();
    registry.register(agent(3, "a", "ws://a"), 0);
    registry.set_connection(3);
    assert!(registry.has_connection(3));
    assert_eq!(registry.connection_count(), 1);

    let removed = registry.unregister(3);
    assert_eq!(removed.unwrap().id, 3);
    assert!(registry.get(3).is_none());
    assert!(registry.get_session(3).is_none());
    assert!(!registry.has_connection(3));
    assert!(registry.unregister(3).is_none());
}

#[test]
fn heartbeat_and_session_touch() {
    let mut registry = AgentRegistry::new();
    registry.register(agent(9, "a", "ws://a"), 1);
    assert!(registry.update_heartbeat(9, 50));
    assert_eq!(registry.get(9).unwrap().last_heartbeat, 50);
    assert!(registry.touch_session(9, 60));
    assert_eq!(registry.get_session(9).unwrap().last_active, 60);
    assert!(!registry.update_heartbeat(10, 50));
    assert!(!registry.touch_session(10, 60));
}

#[test]
fn filter_by_search_status_and_tags() {
    let mut registry = AgentRegistry::new();
    let mut a = agent(1, "Shanghai Edge", "ws://a");
    a.tags.push("prod".to_string());
    a.update_status(AgentStatus::Busy);
    let b = agent(2, "Beijing Core", "ws://b");
    registry.register(a, 0);
    registry.register(b, 0);

    let f = AgentFilter { status: None, capability: None, search: Some("EDGE".to_string()), tags: None };
    let found = registry.filter(&f);
    assert_eq!(found.len(), 1);
    assert_eq!(found[0].id, 1);

    let f = AgentFilter { status: Some(AgentStatus::Busy), capability: None, search: None, tags: None };
    assert_eq!(registry.filter(&f).len(), 1);

    let f = AgentFilter {
        status: None,
        capability: None,
        search: None,
        tags: Some(vec!["dev".to_string(), "prod".to_string()]),
    };
    let found = registry.filter(&f);
    assert_eq!(found.len(), 1);
    assert_eq!(found[0].name, "Shanghai Edge");

    let none = AgentFilter { status: None, capability: None, search: None, tags: None };
    assert_eq!(registry.filter(&none).len(), 2);
    assert!(accepts(&none, &registry.get(2).unwrap()));
}

#[test]
fn statistics_count_by_status() {
    let mut service = AgentService::new(AgentRegistry::new());
    service.create_agent(1, "a".to_string(), "ws://a".to_string(), 0);
    service.create_agent(2, "b".to_string(), "ws://b".to_string(), 0);
    service.create_agent(3, "c".to_string(), "ws://c".to_string(), 0);
    service.agent_online(1).unwrap();
    service.agent_busy(2).unwrap();

    let st = service.get_statistics();
    assert_eq!(st.total, 3);
    assert_eq!(st.online, 1);
    assert_eq!(st.busy, 1);
    assert_eq!(st.offline, 1);
    assert_eq!(st.online + st.offline + st.busy, st.total);
    assert_eq!(st.total_capabilities, 5);
    assert_eq!(
        st.to_display_string(),
        "Agent Statistics:\n  Total: 3\n  Online: 1\n  Offline: 1\n  Busy: 1\n  Capabilities: 5\n"
    );
    assert!(service.is_agent_online(1));
    assert!(!service.is_agent_online(2));
    assert!(!service.is_agent_online(99));
}

#[test]
fn unknown_agent_is_reported_with_its_uuid() {
    let mut service = AgentService::new(AgentRegistry::new());
    let err = service.agent_offline(42).unwrap_err();
    assert_eq!(err, "Agent 00000000-0000-0000-0000-00000000002a not found");
    let err = service.delete_agent(0x0123_4567_89ab_cdef_0011_2233_4455_6677).unwrap_err();
    assert_eq!(err, "Agent 01234567-89ab-cdef-0011-223344556677 not found");
    assert!(service.update_heartbeat(42, 5).is_err());
}

#[test]
fn delete_agent_hands_it_back() {
    let mut service = AgentService::new(AgentRegistry::new());
    service.create_agent(4, "d".to_string(), "ws://d".to_string(), 0);
    let removed = service.delete_agent(4).unwrap();
    assert_eq!(removed.name, "d");
    assert!(service.get_agent(4).is_none());
    assert_eq!(service.get_all_agents().len(), 0);
}

#[test]
fn capability_lookup() {
    let mut service = AgentService::new(AgentRegistry::new());
    let mut a = agent(1, "a", "ws://a");
    a.capabilities.push(Capability::FileTransfer);
    service.registry.register(a, 0);
    assert!(service.has_capability(1, &Capability::FileTransfer));
    assert!(!service.has_capability(1, &Capability::SslValidator));
    assert!(!service.has_capability(2, &Capability::FileTransfer));
    assert_eq!(service.get_agents_by_capability(Capability::FileTransfer).len(), 1);
    assert_eq!(service.get_available_agents().len(), 0);
}

#[test]
fn capability_names() {
    assert_eq!(Capability::all().len(), 5);
    assert_eq!(Capability::from_str("DDNS"), Some(Capability::DdnsClient));
    assert_eq!(Capability::from_str("ssl_validator"), Some(Capability::SslValidator));
    assert_eq!(Capability::from_str("Shell"), Some(Capability::ShellExecutor));
    assert_eq!(Capability::from_str("script_runner"), Some(Capability::ScriptRunner));
    assert_eq!(Capability::from_str("FILE"), Some(Capability::FileTransfer));
    assert_eq!(Capability::from_str("ftp"), None);
}


use domain_manager::agent_hub::{AgentConnection, AgentHub, AgentMessage, ConnectionStep, Frame};

#[test]
fn test_agent_connection_new() {
    let conn = AgentConnection::new(0, "test-session".to_string());
    assert_eq!(conn.agent_id, 0);
    assert_eq!(conn.session_id, "test-session");
    assert!(!conn.connected);
}

#[test]
fn frames_are_read_or_explained() {
    let mut conn = AgentConnection::new(0, String::new());
    assert_eq!(conn.receive(Frame::Text("{}".to_string())).unwrap_err(), "WebSocket 未连接");
    assert_eq!(conn.can_send().unwrap_err(), "WebSocket 未连接");
    conn.connected = true;
    assert_eq!(conn.receive(Frame::Text("{\"a\":1}".to_string())).unwrap(), "{\"a\":1}");
    assert_eq!(conn.receive(Frame::Close).unwrap_err(), "连接已关闭");
    assert_eq!(conn.receive(Frame::Other).unwrap_err(), "不支持的消息类型");
    assert_eq!(conn.receive(Frame::Failed("reset".to_string())).unwrap_err(), "接收消息错误: reset");
    assert_eq!(conn.receive(Frame::End).unwrap_err(), "流已结束");
    assert!(conn.can_send().is_ok());
}

#[test]
fn hub_sends_only_over_open_connections() {
    let mut hub = AgentHub::new(AgentRegistry::new(), "0.0.0.0:9000");
    assert_eq!(hub.can_run().unwrap_err(), "服务器未启动");
    hub.start();
    assert!(hub.can_run().is_ok());
    assert_eq!(hub.connection_count(), 0);
    assert_eq!(hub.can_send_to(42).unwrap_err(), "Agent 00000000-0000-0000-0000-00000000002a 未连接");
    hub.connections.push(42);
    assert!(hub.can_send_to(42).is_ok());
}

#[test]
fn broadcast_joins_the_failures() {
    let results = vec![(1u128, Ok(())), (2u128, Err("closed".to_string())), (3u128, Err("timeout".to_string()))];
    assert_eq!(
        AgentHub::broadcast_result(&results).unwrap_err(),
        "Agent 00000000-0000-0000-0000-000000000002: closed; Agent 00000000-0000-0000-0000-000000000003: timeout"
    );
    assert!(AgentHub::broadcast_result(&vec![(1u128, Ok(()))]).is_ok());
}

#[test]
fn connection_protocol() {
    let mut hub = AgentHub::new(AgentRegistry::new(), "127.0.0.1:9000");
    let mut conn = AgentConnection::new(0, String::new());
    conn.connected = true;

    let hb = AgentMessage::Heartbeat { status: AgentStatus::Busy, timestamp: 1 };
    assert!(matches!(hub.handle_agent_message(&mut conn, hb.clone(), 5, "s".to_string(), 100), ConnectionStep::Continue(None)));

    let reg = AgentMessage::RegisterWithSecret {
        agent_name: "edge".to_string(),
        agent_key: "k".to_string(),
        capabilities: vec![Capability::DdnsClient],
        version: "1".to_string(),
        hostname: "h".to_string(),
    };
    match hub.handle_agent_message(&mut conn, reg, 77, "session-1".to_string(), 100) {
        ConnectionStep::Continue(Some(AgentMessage::RegisterAccepted { agent_id, session_id, server_time, requires_approval, message })) => {
            assert_eq!(agent_id, 77);
            assert_eq!(session_id, "session-1");
            assert_eq!(server_time, 100);
            assert!(!requires_approval);
            assert_eq!(message, Some("注册已接受".to_string()));
        }
        other => panic!("unexpected {:?}", other),
    }
    assert_eq!(conn.agent_id, 77);

    hub.registry.register(agent(77, "edge", "ws://edge"), 0);
    match hub.handle_agent_message(&mut conn, hb, 0, String::new(), 200) {
        ConnectionStep::Continue(Some(AgentMessage::HeartbeatAck { server_time })) => assert_eq!(server_time, 200),
        other => panic!("unexpected {:?}", other),
    }
    let a = hub.registry.get(77).unwrap();
    assert_eq!(a.status, AgentStatus::Busy);
    assert_eq!(a.last_heartbeat, 200);

    let old = AgentMessage::Register {
        agent_id: 1,
        name: "n".to_string(),
        endpoint: "e".to_string(),
        capabilities: vec![],
        version: "0".to_string(),
    };
    match hub.handle_agent_message(&mut conn, old, 0, String::new(), 300) {
        ConnectionStep::Close(AgentMessage::RegisterRejected { reason, code }) => {
            assert_eq!(reason, "Unsupported registration format");
            assert_eq!(code, "OLD_PROTOCOL");
        }
        other => panic!("unexpected {:?}", other),
    }

    hub.close_connection(&conn);
    assert!(hub.registry.get(77).is_none());
}

#[test]
fn capability_from_lowercase_names() {
    assert_eq!(Capability::from_lowercase("shell_executor"), Some(Capability::ShellExecutor));
    assert_eq!(Capability::from_lowercase("SHELL"), None);
}

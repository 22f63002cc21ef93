use agent_control::agent::Telemetry;
use agent_control::entity::agents::Model;
use agent_control::{Agent, AgentError, AgentStatus, Payload, Registry};
use tokio::sync::mpsc::error::TryRecvError;
use tokio::sync::mpsc::{unbounded_channel, UnboundedReceiver};

fn online(id: u128, name: &str) -> (Agent, UnboundedReceiver<Payload>) {
    let (tx, rx) = unbounded_channel();
    let mut agent = Agent::new();
    agent.id = id;
    agent.name = String::from(name);
    assert!(agent.session.connect(tx));
    (agent, rx)
}

#[test]
fn new_registry_is_empty() {
    let registry = Registry::new();
    assert_eq!(registry.len(), 0);
    assert!(registry.list_ids().is_empty());
    assert!(registry.get(1).is_none());
    assert!(!registry.contains(1));
}

#[test]
fn upsert_files_the_agent_under_its_id() {
    let mut registry = Registry::new();
    let (agent, _rx) = online(10, "a");
    assert!(registry.upsert(agent).is_none());
    assert!(registry.contains(10));
    assert_eq!(registry.len(), 1);
    let found = registry.get(10).unwrap();
    assert_eq!(found.id, 10);
    assert_eq!(found.name, "a");
    assert_eq!(found.session.status(), AgentStatus::Online);
    assert!(registry.get(11).is_none());
}

#[test]
fn upsert_of_a_known_id_replaces_and_tears_down_the_old_session() {
    let mut registry = Registry::new();
    let (old, mut old_rx) = online(10, "old");
    let (new, mut new_rx) = online(10, "new");
    registry.upsert(old);
    let replaced = registry.upsert(new).unwrap();
    assert_eq!(replaced.name, "old");
    assert_eq!(replaced.session.status(), AgentStatus::Offline);
    assert_eq!(old_rx.try_recv(), Ok(Payload::Quit));
    assert_eq!(old_rx.try_recv(), Err(TryRecvError::Disconnected));
    assert_eq!(new_rx.try_recv(), Err(TryRecvError::Empty));
    assert_eq!(registry.len(), 1);
    assert_eq!(registry.list_ids(), vec![10]);
    assert_eq!(registry.get(10).unwrap().name, "new");
    assert_eq!(registry.get(10).unwrap().session.status(), AgentStatus::Online);
}

#[test]
fn upsert_of_a_known_id_forgets_the_old_operations() {
    let mut registry = Registry::new();
    let (old, _old_rx) = online(10, "old");
    let (new, _new_rx) = online(10, "new");
    registry.upsert(old);
    let issued = registry.issue_command(10, 5, "ls").unwrap();
    let replaced = registry.upsert(new).unwrap();
    assert_eq!(registry.get_command_output(10, issued).unwrap_err(), AgentError::NotFound);
    assert!(matches!(replaced.session.command_output(issued), Ok(None)));
}

#[test]
fn remove_returns_the_agent_torn_down() {
    let mut registry = Registry::new();
    let (agent, mut rx) = online(10, "a");
    registry.upsert(agent);
    let removed = registry.remove(10).unwrap();
    assert_eq!(removed.id, 10);
    assert_eq!(removed.name, "a");
    assert_eq!(removed.session.status(), AgentStatus::Offline);
    assert_eq!(rx.try_recv(), Ok(Payload::Quit));
    assert_eq!(rx.try_recv(), Err(TryRecvError::Disconnected));
    assert!(registry.get(10).is_none());
    assert!(!registry.contains(10));
    assert_eq!(registry.len(), 0);
}

#[test]
fn remove_of_an_unknown_id_is_none() {
    let mut registry = Registry::new();
    let (agent, mut rx) = online(10, "a");
    registry.upsert(agent);
    assert!(registry.remove(11).is_none());
    assert_eq!(registry.len(), 1);
    assert_eq!(rx.try_recv(), Err(TryRecvError::Empty));
}

#[test]
fn remove_twice_sends_one_quit() {
    let mut registry = Registry::new();
    let (agent, mut rx) = online(10, "a");
    registry.upsert(agent);
    assert!(registry.remove(10).is_some());
    assert!(registry.remove(10).is_none());
    assert_eq!(rx.try_recv(), Ok(Payload::Quit));
    assert_eq!(rx.try_recv(), Err(TryRecvError::Disconnected));
}

#[test]
fn list_ids_names_each_agent_once() {
    let mut registry = Registry::new();
    let mut receivers = Vec::new();
    for id in [3u128, 1, 2, 3, 1] {
        let (agent, rx) = online(id, "x");
        registry.upsert(agent);
        receivers.push(rx);
    }
    let mut ids = registry.list_ids();
    ids.sort();
    assert_eq!(ids, vec![1, 2, 3]);
    assert_eq!(registry.len(), 3);
    registry.remove(2);
    let mut ids = registry.list_ids();
    ids.sort();
    assert_eq!(ids, vec![1, 3]);
}

#[test]
fn run_command_on_an_unknown_agent_is_not_found() {
    let mut registry = Registry::new();
    assert_eq!(registry.run_command(10, "ls"), Err(AgentError::NotFound));
    assert_eq!(registry.issue_command(10, 1, "ls"), Err(AgentError::NotFound));
    assert_eq!(registry.send_file(10, "/x", b"abc"), Err(AgentError::NotFound));
    assert_eq!(registry.issue_file(10, 1, "/x", vec![1]), Err(AgentError::NotFound));
    assert_eq!(registry.kill_command(10, 1, true), Err(AgentError::NotFound));
    assert_eq!(registry.get_command_output(10, 1).unwrap_err(), AgentError::NotFound);
    assert_eq!(registry.get_file_result(10, 1).unwrap_err(), AgentError::NotFound);
    assert_eq!(registry.record_command(10, 1, Some(0), Vec::new()), Err(AgentError::NotFound));
    assert_eq!(registry.record_file(10, 1, 0, String::new()), Err(AgentError::NotFound));
    assert_eq!(registry.begin_update(10), Err(AgentError::NotFound));
    assert_eq!(registry.finish_update(10), Err(AgentError::NotFound));
}

#[test]
fn run_command_then_poll_is_pending_not_unknown() {
    let mut registry = Registry::new();
    let (agent, mut rx) = online(10, "a");
    registry.upsert(agent);
    let issued = registry.run_command(10, "ls").unwrap();
    assert!(matches!(registry.get_command_output(10, issued), Ok(None)));
    assert_eq!(rx.try_recv(), Ok(Payload::RunCommand { id: issued, command: String::from("ls") }));
}

#[test]
fn run_command_on_an_agent_without_a_channel_is_channel_closed() {
    let mut registry = Registry::new();
    let mut agent = Agent::new();
    agent.id = 10;
    registry.upsert(agent);
    assert_eq!(registry.run_command(10, "ls"), Err(AgentError::ChannelClosed));
    assert_eq!(registry.send_file(10, "/x", b"abc"), Err(AgentError::ChannelClosed));
    assert!(registry.contains(10));
}

#[test]
fn run_command_on_a_dead_channel_is_channel_closed_and_makes_no_slot() {
    let mut registry = Registry::new();
    let (agent, rx) = online(10, "a");
    registry.upsert(agent);
    drop(rx);
    assert_eq!(registry.issue_command(10, 1, "ls"), Err(AgentError::ChannelClosed));
    assert_eq!(registry.get_command_output(10, 1).unwrap_err(), AgentError::NotFound);
}

#[test]
fn completion_is_read_back_exactly_and_repeatedly() {
    let mut registry = Registry::new();
    let (agent, _rx) = online(10, "a");
    registry.upsert(agent);
    let c = registry.run_command(10, "echo ok").unwrap();
    assert_eq!(registry.record_command(10, c, Some(0), b"ok".to_vec()), Ok(()));
    for _ in 0..3 {
        let result = registry.get_command_output(10, c).unwrap().unwrap();
        assert_eq!(result.code, Some(0));
        assert_eq!(result.output, b"ok".to_vec());
    }
}

#[test]
fn kill_of_an_unknown_command_on_a_known_agent_is_not_found() {
    let mut registry = Registry::new();
    let (agent, mut rx) = online(10, "a");
    registry.upsert(agent);
    assert_eq!(registry.kill_command(10, 99, false), Err(AgentError::NotFound));
    assert_eq!(registry.kill_command(10, 99, true), Err(AgentError::NotFound));
    assert_eq!(rx.try_recv(), Err(TryRecvError::Empty));
}

#[test]
fn kill_of_a_known_command_succeeds_with_or_without_force() {
    let mut registry = Registry::new();
    let (agent, mut rx) = online(10, "a");
    registry.upsert(agent);
    let c = registry.run_command(10, "sleep 9").unwrap();
    rx.try_recv().unwrap();
    assert_eq!(registry.kill_command(10, c, false), Ok(()));
    assert_eq!(registry.kill_command(10, c, true), Ok(()));
    assert_eq!(rx.try_recv(), Ok(Payload::KillCommand { id: c, force: false }));
    assert_eq!(rx.try_recv(), Ok(Payload::KillCommand { id: c, force: true }));
    assert!(matches!(registry.get_command_output(10, c), Ok(None)));
}

#[test]
fn kill_of_a_finished_command_is_still_sent() {
    let mut registry = Registry::new();
    let (agent, mut rx) = online(10, "a");
    registry.upsert(agent);
    let c = registry.run_command(10, "true").unwrap();
    rx.try_recv().unwrap();
    registry.record_command(10, c, Some(0), Vec::new()).unwrap();
    assert_eq!(registry.kill_command(10, c, true), Ok(()));
    assert_eq!(rx.try_recv(), Ok(Payload::KillCommand { id: c, force: true }));
    assert_eq!(registry.get_command_output(10, c).unwrap().unwrap().code, Some(0));
}

#[test]
fn destroying_a_live_session_sends_one_quit_and_frees_the_id() {
    let mut registry = Registry::new();
    let (agent, mut rx) = online(10, "a");
    registry.upsert(agent);
    registry.run_command(10, "ls").unwrap();
    rx.try_recv().unwrap();
    registry.remove(10);
    assert_eq!(rx.try_recv(), Ok(Payload::Quit));
    assert_eq!(rx.try_recv(), Err(TryRecvError::Disconnected));
    assert!(registry.get(10).is_none());
}

#[test]
fn send_file_then_poll_then_settle() {
    let mut registry = Registry::new();
    let (agent, mut rx) = online(10, "a");
    registry.upsert(agent);
    let data = b"hello hello hello hello hello hello".to_vec();
    let f = registry.send_file(10, "/tmp/greeting", &data).unwrap();
    assert!(matches!(registry.get_file_result(10, f), Ok(None)));
    match rx.try_recv() {
        Ok(Payload::SendFile { id, path, data: packed }) => {
            assert_eq!(id, f);
            assert_eq!(path, "/tmp/greeting");
            assert_eq!(miniz_oxide::inflate::decompress_to_vec(&packed).unwrap(), data);
        }
        other => panic!("expected a file transfer, got {:?}", other),
    }
    assert_eq!(registry.record_file(10, f, 0, String::from("ok")), Ok(()));
    let outcome = registry.get_file_result(10, f).unwrap().unwrap();
    assert_eq!(outcome.code, 0);
    assert_eq!(outcome.message, "ok");
}

#[test]
fn issue_file_sends_the_bytes_as_given() {
    let mut registry = Registry::new();
    let (agent, mut rx) = online(10, "a");
    registry.upsert(agent);
    assert_eq!(registry.issue_file(10, 8, "/p", vec![7, 7]), Ok(8));
    assert_eq!(
        rx.try_recv(),
        Ok(Payload::SendFile { id: 8, path: String::from("/p"), data: vec![7, 7] })
    );
}

#[test]
fn update_steps_online_then_updating_then_online() {
    let mut registry = Registry::new();
    let (agent, _rx) = online(10, "a");
    registry.upsert(agent);
    assert_eq!(registry.finish_update(10), Ok(false));
    assert_eq!(registry.begin_update(10), Ok(true));
    assert_eq!(registry.get(10).unwrap().session.status(), AgentStatus::Updating);
    assert_eq!(registry.begin_update(10), Ok(false));
    assert_eq!(registry.finish_update(10), Ok(true));
    assert_eq!(registry.get(10).unwrap().session.status(), AgentStatus::Online);
}

#[test]
fn operations_on_one_agent_leave_the_others_alone() {
    let mut registry = Registry::new();
    let (a, mut a_rx) = online(1, "a");
    let (b, mut b_rx) = online(2, "b");
    registry.upsert(a);
    registry.upsert(b);
    let on_a = registry.issue_command(1, 50, "ls").unwrap();
    assert_eq!(registry.get_command_output(2, on_a).unwrap_err(), AgentError::NotFound);
    let on_b = registry.issue_command(2, 50, "ps").unwrap();
    assert_eq!(on_a, on_b);
    registry.record_command(2, on_b, Some(1), b"b".to_vec()).unwrap();
    assert!(matches!(registry.get_command_output(1, on_a), Ok(None)));
    assert_eq!(a_rx.try_recv(), Ok(Payload::RunCommand { id: 50, command: String::from("ls") }));
    assert_eq!(a_rx.try_recv(), Err(TryRecvError::Empty));
    assert_eq!(b_rx.try_recv(), Ok(Payload::RunCommand { id: 50, command: String::from("ps") }));
    registry.remove(1);
    assert_eq!(b_rx.try_recv(), Err(TryRecvError::Empty));
    assert_eq!(registry.get_command_output(2, on_b).unwrap().unwrap().code, Some(1));
}

#[test]
fn operations_for_one_agent_arrive_in_issue_order() {
    let mut registry = Registry::new();
    let (agent, mut rx) = online(10, "a");
    registry.upsert(agent);
    let mut issued = Vec::new();
    for n in 0..50u32 {
        let text = format!("echo {}", n);
        let id = registry.run_command(10, &text).unwrap();
        issued.push(Payload::RunCommand { id, command: text });
        if n % 7 == 0 {
            registry.kill_command(10, id, n % 2 == 0).unwrap();
            issued.push(Payload::KillCommand { id, force: n % 2 == 0 });
        }
    }
    for expected in issued {
        assert_eq!(rx.try_recv(), Ok(expected));
    }
    assert_eq!(rx.try_recv(), Err(TryRecvError::Empty));
}

#[test]
fn end_to_end_connect_run_reply_poll_disconnect() {
    let mut registry = Registry::new();
    let (a, mut rx) = online(0xA, "A");
    registry.upsert(a);
    let c1 = registry.run_command(0xA, "echo hi").unwrap();
    assert_eq!(rx.try_recv(), Ok(Payload::RunCommand { id: c1, command: String::from("echo hi") }));
    registry.record_command(0xA, c1, Some(0), b"hi\n".to_vec()).unwrap();
    let result = registry.get_command_output(0xA, c1).unwrap().unwrap();
    assert_eq!(result.code, Some(0));
    assert_eq!(result.output, b"hi\n".to_vec());
    registry.remove(0xA);
    assert_eq!(registry.get_command_output(0xA, c1).unwrap_err(), AgentError::NotFound);
}

#[test]
fn telemetry_of_a_registered_agent_keeps_the_last_known_values() {
    let mut registry = Registry::new();
    let (agent, mut rx) = online(10, "a");
    registry.upsert(agent);
    let mut report = Telemetry::default();
    report.cpu = Some(50.0f32.to_bits());
    report.memory = Some(4096);
    assert_eq!(registry.record_telemetry(10, report), Ok(()));
    let mut later = Telemetry::default();
    later.memory = Some(8192);
    assert_eq!(registry.record_telemetry(10, later), Ok(()));
    let found = registry.get(10).unwrap();
    assert_eq!(found.cpu.map(f32::from_bits), Some(50.0));
    assert_eq!(found.memory, Some(8192));
    assert_eq!(found.session.status(), AgentStatus::Online);
    assert_eq!(rx.try_recv(), Err(TryRecvError::Empty));
    assert_eq!(registry.record_telemetry(11, Telemetry::default()), Err(AgentError::NotFound));
}

#[test]
fn identity_of_a_registered_agent_is_refreshed_in_place() {
    let mut registry = Registry::new();
    let (agent, mut rx) = online(10, "before");
    registry.upsert(agent);
    let issued = registry.issue_command(10, 1, "ls").unwrap();
    let row = Model {
        id: 10,
        uid: String::from("u"),
        name: String::from("after"),
        os: None,
        hostname: Some(String::from("h")),
        ip: String::from("::1"),
        system: None,
        arch: None,
        last_login: 5,
        created_at: 1,
        updated_at: 2,
    };
    assert_eq!(registry.refresh_identity(row), Ok(()));
    let found = registry.get(10).unwrap();
    assert_eq!(found.name, "after");
    assert_eq!(found.uid, "u");
    assert_eq!(found.hostname.as_deref(), Some("h"));
    assert_eq!(found.last_login, 5);
    assert_eq!(found.session.status(), AgentStatus::Online);
    assert!(matches!(registry.get_command_output(10, issued), Ok(None)));
    assert_eq!(rx.try_recv(), Ok(Payload::RunCommand { id: issued, command: String::from("ls") }));
    assert_eq!(rx.try_recv(), Err(TryRecvError::Empty));
}

#[test]
fn identity_refresh_of_an_unknown_agent_is_not_found() {
    let mut registry = Registry::new();
    let row = Model {
        id: 10,
        uid: String::new(),
        name: String::new(),
        os: None,
        hostname: None,
        ip: String::new(),
        system: None,
        arch: None,
        last_login: 0,
        created_at: 0,
        updated_at: 0,
    };
    assert_eq!(registry.refresh_identity(row), Err(AgentError::NotFound));
    assert_eq!(registry.len(), 0);
}

#[test]
fn command_for_an_updating_agent_is_rejected_and_nothing_is_sent() {
    let mut registry = Registry::new();
    let (agent, mut rx) = online(10, "a");
    registry.upsert(agent);
    assert_eq!(registry.begin_update(10), Ok(true));
    assert_eq!(registry.run_command(10, "ls"), Err(AgentError::Updating));
    assert_eq!(registry.issue_command(10, 1, "ls"), Err(AgentError::Updating));
    assert_eq!(registry.get_command_output(10, 1).unwrap_err(), AgentError::NotFound);
    assert_eq!(rx.try_recv(), Err(TryRecvError::Empty));
    let f = registry.send_file(10, "/opt/agent.new", b"binary").unwrap();
    assert!(matches!(registry.get_file_result(10, f), Ok(None)));
    assert_eq!(registry.finish_update(10), Ok(true));
    let c = registry.run_command(10, "ls").unwrap();
    assert!(matches!(registry.get_command_output(10, c), Ok(None)));
}

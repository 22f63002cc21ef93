use agent_control::agent::{IpAddress, PeerAddress, Telemetry};
use agent_control::entity::agents::Model;
use agent_control::{Agent, AgentError, AgentStatus};

fn stored() -> Model {
    Model {
        id: 0x2eb2_e1a5_66b4_45f9_ad24_3c4f_05c8_58aa,
        uid: String::from("machine-7"),
        name: String::from("build box"),
        os: Some(String::from("linux")),
        hostname: Some(String::from("bb7")),
        ip: String::from("10.0.0.7"),
        system: None,
        arch: Some(String::from("x86_64")),
        last_login: 1_700_000_000,
        created_at: 1_600_000_000,
        updated_at: 1_650_000_000,
    }
}

#[test]
fn new_agent_is_blank_and_offline() {
    let agent = Agent::new();
    assert_eq!(agent.id, 0);
    assert_eq!(agent.uid, "");
    assert_eq!(agent.name, "");
    assert_eq!(agent.os, None);
    assert_eq!(agent.hostname, None);
    assert_eq!(agent.ip, "");
    assert_eq!(agent.system, None);
    assert_eq!(agent.arch, None);
    assert_eq!(agent.last_login, 0);
    assert_eq!(agent.report_rate, 0);
    assert!(!agent.disable_shell);
    assert_eq!(agent.address, None);
    assert_eq!(agent.endpoint, "");
    assert_eq!(agent.last_rsp, None);
    assert_eq!(agent.cpu, None);
    assert_eq!(agent.memory, None);
    assert_eq!(agent.total_memory, None);
    assert_eq!(agent.disk, None);
    assert_eq!(agent.total_disk, None);
    assert_eq!(agent.latency, None);
    assert_eq!(agent.net_up, None);
    assert_eq!(agent.net_down, None);
    assert_eq!(agent.band_up, None);
    assert_eq!(agent.band_down, None);
    assert_eq!(agent.session.status(), AgentStatus::Offline);
}

#[test]
fn default_agent_is_the_new_one() {
    let agent = Agent::default();
    assert_eq!(agent.id, 0);
    assert_eq!(agent.name, "");
    assert_eq!(agent.session.status(), AgentStatus::Offline);
}

#[test]
fn agent_from_a_stored_row_takes_the_identity() {
    let agent = Agent::from(stored());
    assert_eq!(agent.id, 0x2eb2_e1a5_66b4_45f9_ad24_3c4f_05c8_58aa);
    assert_eq!(agent.uid, "machine-7");
    assert_eq!(agent.name, "build box");
    assert_eq!(agent.os.as_deref(), Some("linux"));
    assert_eq!(agent.hostname.as_deref(), Some("bb7"));
    assert_eq!(agent.ip, "10.0.0.7");
    assert_eq!(agent.system, None);
    assert_eq!(agent.arch.as_deref(), Some("x86_64"));
    assert_eq!(agent.last_login, 1_700_000_000);
}

#[test]
fn agent_from_a_stored_row_is_not_connected() {
    let agent = Agent::from(stored());
    assert_eq!(agent.session.status(), AgentStatus::Offline);
    assert_eq!(agent.session.command_output(1).unwrap_err(), AgentError::NotFound);
    assert_eq!(agent.session.file_result(1).unwrap_err(), AgentError::NotFound);
    assert_eq!(agent.report_rate, 0);
    assert!(!agent.disable_shell);
    assert_eq!(agent.address, None);
    assert_eq!(agent.endpoint, "");
    assert_eq!(agent.last_rsp, None);
    assert_eq!(agent.cpu, None);
    assert_eq!(agent.latency, None);
}

#[test]
fn telemetry_keeps_the_last_value_written() {
    let mut agent = Agent::new();
    agent.cpu = Some(12.5f32.to_bits());
    agent.memory = Some(1 << 30);
    agent.address = Some(PeerAddress { ip: IpAddress::V4(0x0a00_0007), port: 4242 });
    assert_eq!(agent.cpu.map(f32::from_bits), Some(12.5));
    agent.cpu = Some(50.0f32.to_bits());
    assert_eq!(agent.cpu.map(f32::from_bits), Some(50.0));
    assert_eq!(agent.memory, Some(1 << 30));
    assert_eq!(agent.address.unwrap().port, 4242);
}

#[test]
fn default_telemetry_reports_nothing() {
    let report = Telemetry::default();
    assert_eq!(report.last_rsp, None);
    assert_eq!(report.cpu, None);
    assert_eq!(report.memory, None);
    assert_eq!(report.total_memory, None);
    assert_eq!(report.disk, None);
    assert_eq!(report.total_disk, None);
    assert_eq!(report.latency, None);
    assert_eq!(report.net_up, None);
    assert_eq!(report.net_down, None);
    assert_eq!(report.band_up, None);
    assert_eq!(report.band_down, None);
}

#[test]
fn telemetry_report_overwrites_what_it_holds_and_keeps_the_rest() {
    let mut agent = Agent::from(stored());
    let mut first = Telemetry::default();
    first.last_rsp = Some(10);
    first.cpu = Some(25.0f32.to_bits());
    first.memory = Some(100);
    first.total_memory = Some(1000);
    first.latency = Some(7);
    agent.record_telemetry(first);
    assert_eq!(agent.last_rsp, Some(10));
    assert_eq!(agent.cpu, Some(25.0f32.to_bits()));
    assert_eq!(agent.memory, Some(100));
    assert_eq!(agent.total_memory, Some(1000));
    assert_eq!(agent.latency, Some(7));
    assert_eq!(agent.disk, None);

    let mut second = Telemetry::default();
    second.last_rsp = Some(20);
    second.memory = Some(200);
    second.disk = Some(5);
    second.total_disk = Some(50);
    second.net_up = Some(1);
    second.net_down = Some(2);
    second.band_up = Some(3);
    second.band_down = Some(4);
    agent.record_telemetry(second);
    assert_eq!(agent.last_rsp, Some(20));
    assert_eq!(agent.cpu, Some(25.0f32.to_bits()));
    assert_eq!(agent.memory, Some(200));
    assert_eq!(agent.total_memory, Some(1000));
    assert_eq!(agent.latency, Some(7));
    assert_eq!(agent.disk, Some(5));
    assert_eq!(agent.total_disk, Some(50));
    assert_eq!(agent.net_up, Some(1));
    assert_eq!(agent.net_down, Some(2));
    assert_eq!(agent.band_up, Some(3));
    assert_eq!(agent.band_down, Some(4));
    assert_eq!(agent.name, "build box");
}

#[test]
fn empty_telemetry_report_changes_nothing() {
    let mut agent = Agent::new();
    agent.cpu = Some(1);
    agent.latency = Some(-3);
    agent.record_telemetry(Telemetry::default());
    assert_eq!(agent.cpu, Some(1));
    assert_eq!(agent.latency, Some(-3));
    assert_eq!(agent.last_rsp, None);
}

#[test]
fn identity_refresh_takes_the_row_and_keeps_the_rest() {
    let mut agent = Agent::from(stored());
    agent.cpu = Some(9);
    agent.endpoint = String::from("edge-1");
    let mut row = stored();
    row.name = String::from("renamed");
    row.os = None;
    row.system = Some(String::from("debian"));
    row.last_login = 1_800_000_000;
    assert!(agent.refresh_identity(row));
    assert_eq!(agent.id, 0x2eb2_e1a5_66b4_45f9_ad24_3c4f_05c8_58aa);
    assert_eq!(agent.name, "renamed");
    assert_eq!(agent.os, None);
    assert_eq!(agent.system.as_deref(), Some("debian"));
    assert_eq!(agent.uid, "machine-7");
    assert_eq!(agent.last_login, 1_800_000_000);
    assert_eq!(agent.cpu, Some(9));
    assert_eq!(agent.endpoint, "edge-1");
}

#[test]
fn identity_refresh_from_another_agents_row_is_refused() {
    let mut agent = Agent::from(stored());
    let mut row = stored();
    row.id = 1;
    row.name = String::from("intruder");
    assert!(!agent.refresh_identity(row));
    assert_eq!(agent.name, "build box");
    assert_eq!(agent.id, 0x2eb2_e1a5_66b4_45f9_ad24_3c4f_05c8_58aa);
}

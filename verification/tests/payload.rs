use agent_control::Payload;

#[test]
fn only_quit_is_the_last_message() {
    assert!(Payload::Quit.is_quit());
    assert!(!Payload::RunCommand { id: 1, command: String::from("quit") }.is_quit());
    assert!(!Payload::KillCommand { id: 1, force: true }.is_quit());
    assert!(!Payload::SendFile { id: 1, path: String::new(), data: Vec::new() }.is_quit());
}

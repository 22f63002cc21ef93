use agent_control::{AgentCommand, AgentFile};

#[test]
fn new_command_result_is_empty() {
    let result = AgentCommand::new();
    assert_eq!(result.code, None);
    assert!(result.output.is_empty());
    assert!(!result.is_finished());
}

#[test]
fn default_command_result_is_the_new_one() {
    let result = AgentCommand::default();
    assert_eq!(result.code, None);
    assert!(result.output.is_empty());
}

#[test]
fn command_result_with_a_code_is_finished() {
    let result = AgentCommand { code: Some(3), output: vec![1, 2] };
    assert!(result.is_finished());
}

#[test]
fn clone_of_a_command_result_has_the_same_fields() {
    let result = AgentCommand { code: Some(-1), output: b"abc".to_vec() };
    let copy = result.clone();
    assert_eq!(copy.code, Some(-1));
    assert_eq!(copy.output, b"abc".to_vec());
}

#[test]
fn new_file_outcome_is_code_zero_and_no_message() {
    let outcome = AgentFile::new();
    assert_eq!(outcome.code, 0);
    assert_eq!(outcome.message, "");
    let outcome = AgentFile::default();
    assert_eq!(outcome.code, 0);
    assert_eq!(outcome.message, "");
}

#[test]
fn clone_of_a_file_outcome_has_the_same_fields() {
    let outcome = AgentFile { code: 13, message: String::from("denied") };
    let copy = outcome.clone();
    assert_eq!(copy.code, 13);
    assert_eq!(copy.message, "denied");
}

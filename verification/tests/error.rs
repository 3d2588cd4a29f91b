use slovo::SlovoError;

#[test]
fn error_text_agent_connection() {
    let e = SlovoError::AgentConnection("connection refused".to_string());
    assert_eq!(e.to_string(), "Agent connection error: connection refused");
}

#[test]
fn error_text_agent_error() {
    let e = SlovoError::AgentError("overloaded".to_string());
    assert_eq!(e.to_string(), "Agent error: overloaded");
}

#[test]
fn error_text_voice() {
    let e = SlovoError::VoiceError("no microphone".to_string());
    assert_eq!(e.to_string(), "Voice processing error: no microphone");
}

#[test]
fn error_text_config() {
    let e = SlovoError::ConfigError("missing key".to_string());
    assert_eq!(e.to_string(), "Configuration error: missing key");
}

#[test]
fn error_text_io() {
    let e = SlovoError::IoError("broken pipe".to_string());
    assert_eq!(e.to_string(), "IO error: broken pipe");
}

#[test]
fn error_text_is_never_empty() {
    let errors = vec![
        SlovoError::AgentConnection(String::new()),
        SlovoError::AgentError(String::new()),
        SlovoError::VoiceError(String::new()),
        SlovoError::ConfigError(String::new()),
        SlovoError::IoError(String::new()),
    ];
    for e in errors {
        assert!(!e.to_string().is_empty());
    }
}

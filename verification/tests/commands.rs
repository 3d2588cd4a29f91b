use slovo::agent::{AgentClient, AgentHealth, ChatResponse};
use slovo::commands::{
    check_agent_status, hide_window, process_voice_input, send_message_to_agent, show_window,
    AgentStatusResponse, CommandResponse, MAIN_WINDOW,
};
use slovo::status::HttpStatus;
use slovo::transport::{RawResponse, TransportError};

fn answered<T>(code: u16, text: &str, decoded: Result<T, String>) -> Result<RawResponse<T>, TransportError> {
    Ok(RawResponse {
        status: HttpStatus::from_u16(code).unwrap(),
        text: text.to_string(),
        decoded,
    })
}

fn health(status: &str, version: &str) -> AgentHealth {
    AgentHealth { status: status.to_string(), version: version.to_string(), uptime_bits: 5.0f64.to_bits() }
}

fn echo(message: &str, conversation_id: &str) -> ChatResponse {
    ChatResponse {
        id: "r-1".to_string(),
        response: message.to_string(),
        conversation_id: conversation_id.to_string(),
        reasoning: None,
    }
}

fn assert_disconnected(response: CommandResponse<AgentStatusResponse>) {
    assert!(response.success);
    assert!(response.error.is_none());
    let data = response.data.expect("a payload");
    assert_eq!(data.status, "disconnected");
    assert_eq!(data.version, None);
}

#[test]
fn envelope_ok() {
    let response = CommandResponse::ok(7u32);
    assert!(response.success);
    assert_eq!(response.data, Some(7));
    assert_eq!(response.error, None);
}

#[test]
fn envelope_err() {
    let response: CommandResponse<u32> = CommandResponse::err("nope".to_string());
    assert!(!response.success);
    assert_eq!(response.data, None);
    assert_eq!(response.error, Some("nope".to_string()));
}

#[test]
fn voice_input_answers_with_the_placeholder() {
    assert_eq!(
        process_voice_input(vec![1, 2, 3]),
        Ok("Voice input processing not yet implemented".to_string())
    );
    assert_eq!(
        process_voice_input(Vec::new()),
        Ok("Voice input processing not yet implemented".to_string())
    );
}

#[test]
fn status_check_reports_the_agent() {
    let response = check_agent_status(answered(200, "", Ok(health("healthy", "1.0"))));
    assert!(response.success);
    assert!(response.error.is_none());
    let data = response.data.expect("a payload");
    assert_eq!(data.status, "healthy");
    assert_eq!(data.version, Some("1.0".to_string()));
}

#[test]
fn status_check_hands_on_any_status_token() {
    let response = check_agent_status(answered(200, "", Ok(health("starting", "2.3.1"))));
    let data = response.data.expect("a payload");
    assert_eq!(data.status, "starting");
    assert_eq!(data.version, Some("2.3.1".to_string()));
}

#[test]
fn status_check_connection_refused() {
    assert_disconnected(check_agent_status(Err(TransportError::Unreachable("connection refused".to_string()))));
}

#[test]
fn status_check_timeout() {
    assert_disconnected(check_agent_status(Err(TransportError::Unreachable("operation timed out".to_string()))));
}

#[test]
fn status_check_malformed_json() {
    assert_disconnected(check_agent_status(answered(200, "", Err("expected value".to_string()))));
}

#[test]
fn status_check_non_2xx() {
    assert_disconnected(check_agent_status(answered(500, "boom", Err(String::new()))));
    assert_disconnected(check_agent_status(answered(404, "", Ok(health("healthy", "1.0")))));
}

#[test]
fn chat_send_returns_the_reply() {
    let reply = ChatResponse {
        id: "m-9".to_string(),
        response: "hello there".to_string(),
        conversation_id: "c-3".to_string(),
        reasoning: Some("greeting".to_string()),
    };
    let response = send_message_to_agent(answered(200, "", Ok(reply)));
    assert!(response.success);
    assert!(response.error.is_none());
    let data = response.data.expect("a payload");
    assert_eq!(data.id, "m-9");
    assert_eq!(data.response, "hello there");
    assert_eq!(data.conversation_id, "c-3");
    assert_eq!(data.reasoning, Some("greeting".to_string()));
}

#[test]
fn chat_send_without_conversation_takes_the_agents() {
    let client = AgentClient::new();
    let request = client.chat_request("hi", None);
    assert!(request.conversation_id.is_none());
    let response = send_message_to_agent(answered(200, "", Ok(echo("hi", "assigned-by-agent"))));
    let data = response.data.expect("a payload");
    assert!(!data.conversation_id.is_empty());
    assert_eq!(data.conversation_id, "assigned-by-agent");
}

#[test]
fn chat_send_http_500() {
    let response = send_message_to_agent(answered(500, "overloaded", Err(String::new())));
    assert!(!response.success);
    assert!(response.data.is_none());
    assert_eq!(
        response.error,
        Some("Agent error: Chat request failed with status 500 Internal Server Error: overloaded".to_string())
    );
}

#[test]
fn chat_send_unreachable() {
    let response = send_message_to_agent(Err(TransportError::Unreachable("connection refused".to_string())));
    assert!(!response.success);
    assert!(response.data.is_none());
    assert_eq!(response.error, Some("Agent connection error: connection refused".to_string()));
}

#[test]
fn chat_send_malformed_body() {
    let response = send_message_to_agent(answered(200, "", Err("error decoding response body".to_string())));
    assert!(!response.success);
    assert!(response.data.is_none());
    assert_eq!(
        response.error,
        Some("Agent error: error decoding response body".to_string())
    );
}

#[test]
fn chat_send_failure_text_is_never_empty() {
    let failures = vec![
        Err(TransportError::Unreachable(String::new())),
        answered(200, "", Err(String::new())),
        answered(400, "", Err(String::new())),
    ];
    for exchange in failures {
        let response = send_message_to_agent(exchange);
        assert!(!response.success);
        assert!(response.data.is_none());
        assert!(!response.error.expect("an error").is_empty());
    }
}

#[test]
fn echo_round_trip_keeps_text() {
    let client = AgentClient::new();
    let cases = [
        ("", ""),
        (" ", " "),
        ("  leading and trailing  ", "conv 1"),
        ("line one\nline two\r\n\ttabbed", "c\u{a0}1"),
        ("сло́во 言葉 🗣", "разговор"),
    ];
    for (message, conversation) in cases {
        let request = client.chat_request(message, Some(conversation));
        let agent_reply = echo(&request.message, request.conversation_id.as_deref().unwrap());
        let response = send_message_to_agent(answered(200, "", Ok(agent_reply)));
        let data = response.data.expect("a payload");
        assert_eq!(data.response, message);
        assert_eq!(data.conversation_id, conversation);
    }
}

#[test]
fn window_commands_fail_without_a_window() {
    assert_eq!(MAIN_WINDOW, "main");
    assert_eq!(show_window(None), Err("Main window not found".to_string()));
    assert_eq!(hide_window(None), Err("Main window not found".to_string()));
}

#[test]
fn window_commands_hand_on_the_outcome() {
    assert_eq!(show_window(Some(Ok(()))), Ok(()));
    assert_eq!(hide_window(Some(Ok(()))), Ok(()));
    assert_eq!(show_window(Some(Err("no display".to_string()))), Err("no display".to_string()));
    assert_eq!(hide_window(Some(Err("no display".to_string()))), Err("no display".to_string()));
}

//! The command facade: what the UI layer calls.
//!
//! Callers at this boundary cannot consume rich error types. Every command
//! answers with a [`CommandResponse`], and errors cross as text. The two
//! agent commands differ on purpose: a status check always succeeds and
//! reports a lost agent as a status, while a chat send surfaces its failure.

use crate::agent::{
    chat_failure, health_failure, text_of, AgentClient, AgentHealth, ChatReplyModel, ChatRequest,
    ChatResponse,
};
use crate::error::lemma_rendered_nonempty;
use crate::monitor::ConnectivityState;
use crate::transport::{RawResponse, TransportError};
use vstd::prelude::*;

verus! {

/// Label of the window that the window commands address.
pub const MAIN_WINDOW: &'static str = "main";

/// The answer to a voice command until voice processing exists.
pub const VOICE_PLACEHOLDER: &'static str = "Voice input processing not yet implemented";

/// The error of a window command whose window does not exist.
pub const WINDOW_NOT_FOUND: &'static str = "Main window not found";

/// The uniform envelope returned across the UI boundary.
#[derive(Debug)]
pub struct CommandResponse<T> {
    pub success: bool,
    pub data: Option<T>,
    pub error: Option<String>,
}

/// Mathematical model of a [`CommandResponse`].
pub struct EnvelopeModel<V> {
    pub success: bool,
    pub data: Option<V>,
    pub error: Option<Seq<char>>,
}

impl<V> EnvelopeModel<V> {
    /// Exactly one of `data` and `error` is present, and `success` says
    /// which.
    pub open spec fn well_formed(self) -> bool {
        &&& self.success <==> self.data is Some
        &&& self.success <==> self.error is None
    }
}

impl<T: View> View for CommandResponse<T> {
    type V = EnvelopeModel<T::V>;

    open spec fn view(&self) -> EnvelopeModel<T::V> {
        EnvelopeModel {
            success: self.success,
            data: match self.data {
                Some(d) => Some(d@),
                None => None,
            },
            error: text_of(self.error),
        }
    }
}

impl<T> CommandResponse<T> {
    /// Exactly one of `data` and `error` is present, and `success` says
    /// which.
    pub open spec fn well_formed(&self) -> bool {
        &&& self.success <==> self.data is Some
        &&& self.success <==> self.error is None
    }

    /// A successful envelope around `data`.
    pub fn ok(data: T) -> (response: Self)
        ensures
            response.success,
            response.data == Some(data),
            response.error is None,
            response.well_formed(),
    {
        CommandResponse { success: true, data: Some(data), error: None }
    }

    /// A failed envelope that carries `error`.
    pub fn err(error: String) -> (response: Self)
        ensures
            !response.success,
            response.data is None,
            response.error == Some(error),
            response.well_formed(),
    {
        CommandResponse { success: false, data: None, error: Some(error) }
    }
}

/// Payload of a status check.
#[derive(Debug)]
pub struct AgentStatusResponse {
    pub status: String,
    pub version: Option<String>,
}

/// Mathematical model of an [`AgentStatusResponse`].
pub struct AgentStatusModel {
    pub status: Seq<char>,
    pub version: Option<Seq<char>>,
}

impl View for AgentStatusResponse {
    type V = AgentStatusModel;

    open spec fn view(&self) -> AgentStatusModel {
        AgentStatusModel { status: self.status@, version: text_of(self.version) }
    }
}

/// Payload of a chat send: the agent's reply, field for field.
#[derive(Debug)]
pub struct ChatMessageResponse {
    pub id: String,
    pub response: String,
    pub conversation_id: String,
    pub reasoning: Option<String>,
}

impl View for ChatMessageResponse {
    type V = ChatReplyModel;

    open spec fn view(&self) -> ChatReplyModel {
        ChatReplyModel {
            id: self.id@,
            response: self.response@,
            conversation_id: self.conversation_id@,
            reasoning: text_of(self.reasoning),
        }
    }
}

/// The envelope that answers a status check.
///
/// It is successful whatever the health query came to. A failed query shows
/// as the status `disconnected` without a version; a concluded one hands on
/// the agent's own status token and version.
pub open spec fn status_envelope(
    exchange: Result<RawResponse<AgentHealth>, TransportError>,
) -> EnvelopeModel<AgentStatusModel> {
    EnvelopeModel {
        success: true,
        data: Some(
            match health_failure(exchange) {
                Some(_) => AgentStatusModel {
                    status: ConnectivityState::Disconnected.token(),
                    version: None,
                },
                None => AgentStatusModel {
                    status: exchange->Ok_0.decoded->Ok_0.status@,
                    version: Some(exchange->Ok_0.decoded->Ok_0.version@),
                },
            },
        ),
        error: None,
    }
}

/// The envelope that answers a chat send: the agent's reply on success, the
/// rendered error on any failure.
pub open spec fn chat_envelope(
    exchange: Result<RawResponse<ChatResponse>, TransportError>,
) -> EnvelopeModel<ChatReplyModel> {
    match chat_failure(exchange) {
        Some(failure) => EnvelopeModel {
            success: false,
            data: None,
            error: Some(failure.rendered()),
        },
        None => EnvelopeModel {
            success: true,
            data: Some(exchange->Ok_0.decoded->Ok_0@),
            error: None,
        },
    }
}

/// Accepts recorded audio and answers with a fixed placeholder. The audio is
/// not decoded.
pub fn process_voice_input(audio_data: Vec<u8>) -> (result: Result<String, String>)
    ensures
        result matches Ok(text) && text@ == VOICE_PLACEHOLDER@,
{
    Ok(String::from_str(VOICE_PLACEHOLDER))
}

/// Answers a status check from what the transport reports of a health query.
/// The answer is always a successful envelope.
pub fn check_agent_status(exchange: Result<RawResponse<AgentHealth>, TransportError>) -> (response:
    CommandResponse<AgentStatusResponse>)
    ensures
        response@ == status_envelope(exchange),
        response.well_formed(),
{
    let client = AgentClient::new();
    match client.health_check(exchange) {
        Ok(health) => CommandResponse::ok(
            AgentStatusResponse { status: health.status, version: Some(health.version) },
        ),
        Err(_) => CommandResponse::ok(
            AgentStatusResponse {
                status: String::from_str(ConnectivityState::Disconnected.as_str()),
                version: None,
            },
        ),
    }
}

/// Answers a chat send from what the transport reports of the chat request.
/// Any failure becomes a failed envelope with the rendered error.
pub fn send_message_to_agent(exchange: Result<RawResponse<ChatResponse>, TransportError>) -> (response:
    CommandResponse<ChatMessageResponse>)
    ensures
        response@ == chat_envelope(exchange),
        response.well_formed(),
{
    let client = AgentClient::new();
    match client.send_message(exchange) {
        Ok(reply) => CommandResponse::ok(
            ChatMessageResponse {
                id: reply.id,
                response: reply.response,
                conversation_id: reply.conversation_id,
                reasoning: reply.reasoning,
            },
        ),
        Err(failure) => CommandResponse::err(failure.to_string()),
    }
}

/// Concludes a request to show the main window. `outcome` is `None` where no
/// window carries the label [`MAIN_WINDOW`], and otherwise what showing and
/// focusing it came to.
pub fn show_window(outcome: Option<Result<(), String>>) -> (result: Result<(), String>)
    ensures
        match outcome {
            Some(done) => result == done,
            None => result matches Err(text) && text@ == WINDOW_NOT_FOUND@,
        },
{
    match outcome {
        Some(done) => done,
        None => Err(String::from_str(WINDOW_NOT_FOUND)),
    }
}

/// Concludes a request to hide the main window. `outcome` is `None` where no
/// window carries the label [`MAIN_WINDOW`], and otherwise what hiding it came
/// to.
pub fn hide_window(outcome: Option<Result<(), String>>) -> (result: Result<(), String>)
    ensures
        match outcome {
            Some(done) => result == done,
            None => result matches Err(text) && text@ == WINDOW_NOT_FOUND@,
        },
{
    match outcome {
        Some(done) => done,
        None => Err(String::from_str(WINDOW_NOT_FOUND)),
    }
}

/// Both agent commands answer with a well-formed envelope: exactly one of
/// payload and error is present, and `success` says which.
pub proof fn lemma_envelopes_well_formed(
    health: Result<RawResponse<AgentHealth>, TransportError>,
    chat: Result<RawResponse<ChatResponse>, TransportError>,
)
    ensures
        status_envelope(health).well_formed(),
        chat_envelope(chat).well_formed(),
{
}

/// However a health query fails, the status check succeeds and reports the
/// status `disconnected` without a version.
pub proof fn lemma_status_check_absorbs_failure(
    exchange: Result<RawResponse<AgentHealth>, TransportError>,
)
    requires
        health_failure(exchange) is Some,
    ensures
        status_envelope(exchange).success,
        status_envelope(exchange).error is None,
        status_envelope(exchange).data == Some(
            AgentStatusModel { status: "disconnected"@, version: None },
        ),
{
}

/// However a chat exchange fails, the chat send fails with it: no payload,
/// and an error text that is not empty.
pub proof fn lemma_chat_send_surfaces_failure(
    exchange: Result<RawResponse<ChatResponse>, TransportError>,
)
    requires
        chat_failure(exchange) is Some,
    ensures
        !chat_envelope(exchange).success,
        chat_envelope(exchange).data is None,
        chat_envelope(exchange).error matches Some(text) && text.len() > 0,
{
    lemma_rendered_nonempty(chat_failure(exchange)->Some_0);
}

/// The conversation identifier of a successful chat send is the one in the
/// agent's reply, whatever the request named; where the agent's is not empty,
/// neither is the one handed out.
pub proof fn lemma_conversation_named_by_agent(
    exchange: Result<RawResponse<ChatResponse>, TransportError>,
)
    requires
        chat_failure(exchange) is None,
    ensures
        chat_envelope(exchange).success,
        chat_envelope(exchange).data matches Some(payload) && payload.conversation_id
            == exchange->Ok_0.decoded->Ok_0.conversation_id@,
        exchange->Ok_0.decoded->Ok_0.conversation_id@.len() > 0 ==> chat_envelope(
            exchange,
        ).data->Some_0.conversation_id.len() > 0,
{
}

/// Text survives the way out and back unchanged. Where the agent echoes a
/// request, its message as the response and its conversation as the
/// conversation, the payload of the chat send holds the very characters that
/// the request was made from, whatever they are: none, blanks, or any other
/// text.
pub proof fn lemma_echo_returns_request_text(
    message: Seq<char>,
    conversation: Seq<char>,
    request: ChatRequest,
    exchange: Result<RawResponse<ChatResponse>, TransportError>,
)
    requires
        request.message@ == message,
        text_of(request.conversation_id) == Some(conversation),
        chat_failure(exchange) is None,
        exchange->Ok_0.decoded->Ok_0.response@ == request.message@,
        Some(exchange->Ok_0.decoded->Ok_0.conversation_id@) == text_of(request.conversation_id),
    ensures
        chat_envelope(exchange).data matches Some(payload) && payload.response == message
            && payload.conversation_id == conversation,
{
}

} // verus!

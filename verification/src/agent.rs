//! The request/response contract with the agent.
//!
//! Two operations are layered on the transport: a health query and a chat
//! exchange. For each, the client says where the request goes and what it
//! carries, and turns what the transport reports into a typed result.

use crate::error::{ErrorModel, SlovoError};
use crate::monitor::{changes, transition, ConnectivityState, HealthMonitor, StatusChange};
use crate::status::{is_success_code, opens_with_code, status_line};
use crate::transport::{RawResponse, TransportError, AGENT_BASE_URL};
use vstd::prelude::*;

verus! {

/// Path of the health query, under the base address.
pub const HEALTH_PATH: &'static str = "/health";

/// Path of the chat exchange, under the base address.
pub const CHAT_PATH: &'static str = "/api/v1/chat";

/// The agent's report on itself.
#[derive(Debug, Clone)]
pub struct AgentHealth {
    /// Status token; `"healthy"` when all is well.
    pub status: String,
    pub version: String,
    /// Uptime in seconds, as the bits of the IEEE 754 double on the wire. The
    /// bridge carries the value through and never computes with it.
    pub uptime_bits: u64,
}

/// Body of a chat request.
#[derive(Debug)]
pub struct ChatRequest {
    pub message: String,
    /// Conversation to continue; `None` asks the agent to open one.
    pub conversation_id: Option<String>,
}

/// Body of the agent's reply to a chat request.
#[derive(Debug)]
pub struct ChatResponse {
    pub id: String,
    pub response: String,
    /// The conversation the reply belongs to, as the agent names it.
    pub conversation_id: String,
    pub reasoning: Option<String>,
}

/// Mathematical model of a chat reply: its fields as character sequences.
pub struct ChatReplyModel {
    pub id: Seq<char>,
    pub response: Seq<char>,
    pub conversation_id: Seq<char>,
    pub reasoning: Option<Seq<char>>,
}

impl View for ChatResponse {
    type V = ChatReplyModel;

    open spec fn view(&self) -> ChatReplyModel {
        ChatReplyModel {
            id: self.id@,
            response: self.response@,
            conversation_id: self.conversation_id@,
            reasoning: text_of(self.reasoning),
        }
    }
}

/// Characters of an optional string.
pub open spec fn text_of(s: Option<String>) -> Option<Seq<char>> {
    match s {
        Some(t) => Some(t@),
        None => None,
    }
}

/// Characters of an optional string slice.
pub open spec fn str_of(s: Option<&str>) -> Option<Seq<char>> {
    match s {
        Some(t) => Some(t@),
        None => None,
    }
}

/// Whether a response arrived and its status lies outside 2xx.
pub open spec fn refused<T>(exchange: Result<RawResponse<T>, TransportError>) -> bool {
    exchange matches Ok(response) && !is_success_code(response.status.code())
}

/// The detail of the error for a health query that the agent refused: the
/// printed status.
pub open spec fn health_rejection(code: u16) -> Seq<char> {
    "Health check failed with status: "@ + status_line(code)
}

/// The error, if any, that a health query ends in.
///
/// No response at all is a connection error, with the transport's words. A
/// status outside 2xx is an agent error that quotes the status, and a 2xx
/// body that does not decode is an agent error with the decoder's words. Only
/// a decoded 2xx body is a success.
pub open spec fn health_failure(
    exchange: Result<RawResponse<AgentHealth>, TransportError>,
) -> Option<ErrorModel> {
    match exchange {
        Err(e) => Some(ErrorModel::AgentConnection(e.detail())),
        Ok(response) => if !is_success_code(response.status.code()) {
            Some(ErrorModel::AgentError(health_rejection(response.status.code())))
        } else {
            match response.decoded {
                Ok(_) => None,
                Err(reason) => Some(ErrorModel::AgentError(reason@)),
            }
        },
    }
}

/// The detail of the error for a chat request that the agent refused: the
/// printed status and the response body, verbatim.
pub open spec fn chat_rejection(code: u16, body: Seq<char>) -> Seq<char> {
    "Chat request failed with status "@ + status_line(code) + ": "@ + body
}

/// The error, if any, that a chat exchange ends in.
///
/// No response at all is a connection error, with the transport's words. A
/// status outside 2xx is an agent error that quotes status and body, and a
/// 2xx body that does not decode is an agent error with the decoder's words:
/// the two are of one kind and differ in their detail only.
pub open spec fn chat_failure(
    exchange: Result<RawResponse<ChatResponse>, TransportError>,
) -> Option<ErrorModel> {
    match exchange {
        Err(e) => Some(ErrorModel::AgentConnection(e.detail())),
        Ok(response) => if !is_success_code(response.status.code()) {
            Some(ErrorModel::AgentError(chat_rejection(response.status.code(), response.text@)))
        } else {
            match response.decoded {
                Ok(_) => None,
                Err(reason) => Some(ErrorModel::AgentError(reason@)),
            }
        },
    }
}

/// Client for the agent's HTTP interface. It holds configuration only and is
/// never mutated after construction.
#[derive(Debug, Clone)]
pub struct AgentClient {
    base_url: String,
}

impl AgentClient {
    /// The address all requests of this client go to.
    pub closed spec fn base_url(&self) -> Seq<char> {
        self.base_url@
    }

    /// A client bound to the agent's fixed loopback address.
    pub fn new() -> (client: Self)
        ensures
            client.base_url() == AGENT_BASE_URL@,
    {
        AgentClient { base_url: String::from_str(AGENT_BASE_URL) }
    }

    /// Where a health query is sent, by GET.
    pub fn health_url(&self) -> (url: String)
        ensures
            url@ == self.base_url() + HEALTH_PATH@,
    {
        self.base_url.clone().concat(HEALTH_PATH)
    }

    /// Where a chat request is sent, by POST.
    pub fn chat_url(&self) -> (url: String)
        ensures
            url@ == self.base_url() + CHAT_PATH@,
    {
        self.base_url.clone().concat(CHAT_PATH)
    }

    /// The body of a chat request: message and conversation pass through
    /// unmodified, without trimming or validation.
    pub fn chat_request(&self, message: &str, conversation_id: Option<&str>) -> (request:
        ChatRequest)
        ensures
            request.message@ == message@,
            text_of(request.conversation_id) == str_of(conversation_id),
    {
        let conversation_id = match conversation_id {
            Some(id) => Some(String::from_str(id)),
            None => None,
        };
        ChatRequest { message: String::from_str(message), conversation_id }
    }

    /// Concludes a health query from what the transport reports of the GET to
    /// [`AgentClient::health_url`].
    pub fn health_check(&self, exchange: Result<RawResponse<AgentHealth>, TransportError>) -> (result:
        Result<AgentHealth, SlovoError>)
        ensures
            match health_failure(exchange) {
                Some(failure) => result matches Err(e) && e@ == failure,
                None => result == Ok::<AgentHealth, SlovoError>(exchange->Ok_0.decoded->Ok_0),
            },
            refused(exchange) ==> opens_with_code(
                status_line(exchange->Ok_0.status.code()),
                exchange->Ok_0.status.code(),
            ),
    {
        let response = match exchange {
            Ok(response) => response,
            Err(TransportError::Unreachable(detail)) => {
                return Err(SlovoError::AgentConnection(detail));
            },
        };
        if !response.status.is_success() {
            let line = response.status.to_string();
            return Err(
                SlovoError::AgentError(
                    String::from_str("Health check failed with status: ").concat(line.as_str()),
                ),
            );
        }
        match response.decoded {
            Ok(health) => Ok(health),
            Err(reason) => Err(SlovoError::AgentError(reason)),
        }
    }

    /// Concludes a chat exchange from what the transport reports of the POST
    /// of a [`ChatRequest`] to [`AgentClient::chat_url`].
    ///
    /// A reply is handed on as the agent sent it; in particular its
    /// conversation identifier is the agent's, whether or not the request
    /// named one. A refusal quotes the status line, which opens with the
    /// numeric code, and the response body.
    pub fn send_message(&self, exchange: Result<RawResponse<ChatResponse>, TransportError>) -> (result:
        Result<ChatResponse, SlovoError>)
        ensures
            match chat_failure(exchange) {
                Some(failure) => result matches Err(e) && e@ == failure,
                None => result == Ok::<ChatResponse, SlovoError>(exchange->Ok_0.decoded->Ok_0),
            },
            refused(exchange) ==> opens_with_code(
                status_line(exchange->Ok_0.status.code()),
                exchange->Ok_0.status.code(),
            ),
    {
        let response = match exchange {
            Ok(response) => response,
            Err(TransportError::Unreachable(detail)) => {
                return Err(SlovoError::AgentConnection(detail));
            },
        };
        if !response.status.is_success() {
            let line = response.status.to_string();
            let detail = String::from_str("Chat request failed with status ").concat(
                line.as_str(),
            ).concat(": ").concat(response.text.as_str());
            return Err(SlovoError::AgentError(detail));
        }
        match response.decoded {
            Ok(reply) => Ok(reply),
            Err(reason) => Err(SlovoError::AgentError(reason)),
        }
    }
}

impl Default for AgentClient {
    fn default() -> (client: Self)
        ensures
            client.base_url() == AGENT_BASE_URL@,
    {
        AgentClient::new()
    }
}

/// The status token by which the agent reports that all is well.
pub const HEALTHY: &'static str = "healthy";

/// The connectivity state that the outcome of a health query stands for:
/// connected when the agent calls itself healthy, degraded when it reports
/// any other status, disconnected when the query failed.
pub open spec fn classification(outcome: Result<AgentHealth, SlovoError>) -> ConnectivityState {
    match outcome {
        Ok(health) => if health.status@ == HEALTHY@ {
            ConnectivityState::Connected
        } else {
            ConnectivityState::Degraded
        },
        Err(_) => ConnectivityState::Disconnected,
    }
}

/// The connectivity state that a poll stands for, read off what the
/// transport reported.
pub open spec fn poll_target(
    exchange: Result<RawResponse<AgentHealth>, TransportError>,
) -> ConnectivityState {
    match health_failure(exchange) {
        Some(_) => ConnectivityState::Disconnected,
        None => if exchange->Ok_0.decoded->Ok_0.status@ == HEALTHY@ {
            ConnectivityState::Connected
        } else {
            ConnectivityState::Degraded
        },
    }
}

/// Classifies the outcome of a health query.
pub fn classify(outcome: &Result<AgentHealth, SlovoError>) -> (state: ConnectivityState)
    ensures
        state == classification(*outcome),
{
    match outcome {
        Ok(health) => {
            let healthy = String::from_str(HEALTHY);
            if health.status == healthy {
                ConnectivityState::Connected
            } else {
                ConnectivityState::Degraded
            }
        },
        Err(_) => ConnectivityState::Disconnected,
    }
}

/// What one poll of the health monitor asks of its surroundings.
#[derive(Debug)]
pub struct MonitorStep {
    /// The change to announce under [`crate::monitor::STATUS_EVENT`], if the
    /// state changed.
    pub change: Option<StatusChange>,
    /// The failure to log as a warning, if the agent was lost by this poll.
    pub warning: Option<SlovoError>,
}

/// One tick of the health monitor: concludes the health query from what the
/// transport reported, classifies it, and folds it into the monitor.
///
/// A failed poll is no error to anyone: it counts as `Disconnected`. The
/// step carries a change exactly when the state changed, and a warning
/// exactly when the poll failed while the agent was not yet known to be
/// lost, so that a lasting outage is announced and logged once.
pub fn monitor_agent_health(
    client: &AgentClient,
    monitor: &mut HealthMonitor,
    exchange: Result<RawResponse<AgentHealth>, TransportError>,
) -> (step: MonitorStep)
    ensures
        step.change == transition(old(monitor).state(), poll_target(exchange)),
        final(monitor).state() == poll_target(exchange),
        final(monitor).polls() == old(monitor).polls().push(poll_target(exchange)),
        final(monitor).reported() == match step.change {
            Some(c) => old(monitor).reported().push(c),
            None => old(monitor).reported(),
        },
        final(monitor).reported() == changes(
            ConnectivityState::Disconnected,
            final(monitor).polls(),
        ),
        match health_failure(exchange) {
            Some(failure) if old(monitor).state() != ConnectivityState::Disconnected => {
                step.warning matches Some(e) && e@ == failure
            },
            _ => step.warning is None,
        },
{
    let outcome = client.health_check(exchange);
    let target = classify(&outcome);
    let change = monitor.observe(target);
    let warning = match outcome {
        Err(failure) => match change {
            Some(_) => Some(failure),
            None => None,
        },
        Ok(_) => None,
    };
    MonitorStep { change, warning }
}

} // verus!

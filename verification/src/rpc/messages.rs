//! The requests and responses exchanged between a client and the download manager.
use vstd::prelude::*;
use vstd::string::StringExecFns;

use crate::download::{Download, DownloadInfo, DownloadRequestMessage};

verus! {

/// A request to the download manager.
#[derive(Debug)]
pub enum RpcRequest {
    Heartbeat,
    DownloadRequest(DownloadRequestMessage),
    SetDownloadInfo((i64, Result<DownloadInfo, String>)),
    GetDownload(String),
    GetDownloads(Vec<String>),
    PauseDownload(i64),
    PauseDownloads(Vec<String>),
    ResumeDownload(i64),
    ResumeDownloads(Vec<String>),
    Shutdown,
}

/// The download manager's answer to a request.
#[derive(Debug, Clone)]
pub enum RpcResponse {
    Heartbeat,
    DownloadStarted(String),
    Success,
    Recieved,
    RequestNotSupported,
    Error(String),
    Download(Download),
    Downloads(Vec<Download>),
}


/// A moment in UTC: whole seconds since the Unix epoch, and nanoseconds past them.
#[derive(Debug, Clone, Copy, PartialEq, Eq, Structural)]
pub struct UtcTime {
    pub seconds: i64,
    pub nanos: u32,
}

/// `chrono::Utc::now`, read as seconds and nanoseconds since the Unix epoch.
/// Nothing is stated of the time.
#[verifier::external_body]
fn utc_now() -> UtcTime {
    let now = chrono::Utc::now();
    UtcTime { seconds: now.timestamp(), nanos: now.timestamp_subsec_nanos() }
}

/// `rand::random::<i64>`: an id drawn at random. Nothing is stated of it.
#[verifier::external_body]
fn random_id() -> i64 {
    rand::random::<i64>()
}

/// What a message carries.
#[derive(Debug)]
pub enum Payload {
    Request(RpcRequest),
    Response(RpcResponse),
}

/// A message on the wire: the id of the request (present in both the request
/// and its response), the secret that authorises it, when it was made, and
/// what it carries.
#[derive(Debug)]
pub struct Message {
    pub request_id: i64,
    pub secret: String,
    pub timestamp: UtcTime,
    pub payload: Payload,
}

/// The bytes answered when a response cannot be encoded.
pub const MAGIC_RESPONSE: [u8; 10] = [7u8, 3u8, 5u8, 7u8, 9u8, 0u8, 2u8, 1u8, 6u8, 9u8];

impl Message {
    /// A new request, under a fresh random id, made now.
    pub fn request(request: RpcRequest, secret: String) -> (m: Self)
        ensures
            m.secret == secret,
            m.payload == Payload::Request(request),
    {
        Message {
            request_id: random_id(),
            secret,
            timestamp: utc_now(),
            payload: Payload::Request(request),
        }
    }

    /// The response to the request `request_id`, made now.
    pub fn response(request_id: i64, secret: String, response: RpcResponse) -> (m: Self)
        ensures
            m.request_id == request_id,
            m.secret == secret,
            m.payload == Payload::Response(response),
    {
        Message { request_id, secret, timestamp: utc_now(), payload: Payload::Response(response) }
    }

    /// A response that answers no known request, under a fresh random id, made now.
    pub fn new_response(secret: String, response: RpcResponse) -> (m: Self)
        ensures
            m.secret == secret,
            m.payload == Payload::Response(response),
    {
        Message {
            request_id: random_id(),
            secret,
            timestamp: utc_now(),
            payload: Payload::Response(response),
        }
    }
}

/// What the server does with an incoming call.
pub enum CallDecision {
    /// Answer at once with this message.
    Reply(Message),
    /// Hand this request, of this id, to the download manager.
    Forward(i64, RpcRequest),
}

/// The error texts the server answers with.
pub open spec fn malformed_text() -> Seq<char> {
    "Malformed Request"@
}

pub open spec fn invalid_secret_text() -> Seq<char> {
    "Invalid secret"@
}

pub open spec fn invalid_payload_text() -> Seq<char> {
    "Invalid payload"@
}

/// Whether `m` is an error response with this text, signed with `secret`.
pub open spec fn is_error_reply(m: Message, secret: Seq<char>, text: Seq<char>) -> bool {
    &&& m.secret@ == secret
    &&& m.payload matches Payload::Response(RpcResponse::Error(e)) && e@ == text
}

/// Screens an incoming call, given the message it decoded to (none when it did
/// not decode): a malformed call, a wrong secret or a response where a request
/// belongs is answered at once with an error; a good request is forwarded.
pub fn screen_call(decoded: Option<Message>, secret: &String) -> (d: CallDecision)
    ensures
        match decoded {
            None => d matches CallDecision::Reply(m) && is_error_reply(m, secret@, malformed_text()),
            Some(msg) => if msg.secret@ != secret@ {
                d matches CallDecision::Reply(m) && is_error_reply(m, secret@, invalid_secret_text())
                    && m.request_id == msg.request_id
            } else {
                match msg.payload {
                    Payload::Response(_) => d matches CallDecision::Reply(m) && is_error_reply(
                        m,
                        secret@,
                        invalid_payload_text(),
                    ) && m.request_id == msg.request_id,
                    Payload::Request(req) => d == CallDecision::Forward(msg.request_id, req),
                }
            },
        },
{
    match decoded {
        None => CallDecision::Reply(
            Message::new_response(
                secret.clone(),
                RpcResponse::Error(String::from_str("Malformed Request")),
            ),
        ),
        Some(msg) => {
            let request_id = msg.request_id;
            if !(msg.secret == *secret) {
                return CallDecision::Reply(
                    Message::response(
                        request_id,
                        secret.clone(),
                        RpcResponse::Error(String::from_str("Invalid secret")),
                    ),
                );
            }
            match msg.payload {
                Payload::Request(request) => CallDecision::Forward(request_id, request),
                Payload::Response(_) => CallDecision::Reply(
                    Message::response(
                        request_id,
                        secret.clone(),
                        RpcResponse::Error(String::from_str("Invalid payload")),
                    ),
                ),
            }
        },
    }
}

/// What came back from handing a request to the download manager.
pub enum ManagerReply {
    /// The manager answered.
    Answered(RpcResponse),
    /// The request could not be handed over (the manager has stopped); the error text.
    SendFailed(String),
    /// The manager dropped the request without answering; the error text.
    ReplyDropped(String),
}

/// The response message to a forwarded request.
pub fn reply_message(request_id: i64, secret: &String, reply: ManagerReply) -> (m: Message)
    ensures
        m.request_id == request_id,
        m.secret@ == secret@,
        match reply {
            ManagerReply::Answered(r) => m.payload == Payload::Response(r),
            ManagerReply::SendFailed(e) => m.payload matches Payload::Response(
                RpcResponse::Error(t),
            ) && t@ == "Download manager thread has terminated. Error: "@ + e@,
            ManagerReply::ReplyDropped(e) => m.payload matches Payload::Response(
                RpcResponse::Error(t),
            ) && t@ == "Download manager dropped the response channel. Error: "@ + e@,
        },
{
    match reply {
        ManagerReply::Answered(r) => Message::response(request_id, secret.clone(), r),
        ManagerReply::SendFailed(e) => {
            let mut t = String::from_str("Download manager thread has terminated. Error: ");
            t.append(e.as_str());
            Message::response(request_id, secret.clone(), RpcResponse::Error(t))
        },
        ManagerReply::ReplyDropped(e) => {
            let mut t = String::from_str("Download manager dropped the response channel. Error: ");
            t.append(e.as_str());
            Message::response(request_id, secret.clone(), RpcResponse::Error(t))
        },
    }
}

/// Why a client got no response.
#[derive(Debug)]
pub enum ClientError {
    /// The client has no connection.
    NotConnected,
    /// The server sent a request where a response belongs.
    InvalidPayload,
    /// Sending or receiving failed; the error text.
    Transport(String),
}

/// The response a client reads out of what the server sent back.
pub fn read_reply(reply: Result<Message, String>) -> (r: Result<RpcResponse, ClientError>)
    ensures
        match reply {
            Ok(m) => match m.payload {
                Payload::Response(p) => r == Ok::<RpcResponse, ClientError>(p),
                Payload::Request(_) => r matches Err(ClientError::InvalidPayload),
            },
            Err(e) => r matches Err(ClientError::Transport(t)) && t == e,
        },
{
    match reply {
        Ok(m) => match m.payload {
            Payload::Response(p) => Ok(p),
            Payload::Request(_) => Err(ClientError::InvalidPayload),
        },
        Err(e) => Err(ClientError::Transport(e)),
    }
}

impl ClientError {
    /// What the error says.
    pub fn message(&self) -> (s: String)
        ensures
            match *self {
                ClientError::NotConnected => s@ == "Client not connected"@,
                ClientError::InvalidPayload => s@ == "invalid payload payload received"@,
                ClientError::Transport(t) => s@ == t@,
            },
    {
        match self {
            ClientError::NotConnected => String::from_str("Client not connected"),
            ClientError::InvalidPayload => String::from_str("invalid payload payload received"),
            ClientError::Transport(t) => t.clone(),
        }
    }
}

} // verus!

//! The requests to the chat service, and what its replies mean.
use vstd::prelude::*;

use crate::bots::BotView;
use crate::text::concatenate;

verus! {

/// The address of the service.
pub const TELEGRAM_API_BASE_URL: &'static str = "https://api.telegram.org";

/// A bot that is in use.
#[derive(Debug, Clone, PartialEq, Eq)]
pub struct TelegramActiveBot {
    pub name: String,
    pub token: String,
    pub chat_id: String,
}

impl View for TelegramActiveBot {
    type V = BotView;

    open spec fn view(&self) -> BotView {
        BotView { name: self.name@, token: self.token@, chat_id: self.chat_id@ }
    }
}

/// The body of a request that sends a message.
#[derive(Debug, PartialEq, Eq)]
pub struct TelegramSendMessageRequest {
    pub chat_id: String,
    pub text: String,
    pub disable_web_page_preview: bool,
}

/// The body of a request for updates.
#[derive(Debug, PartialEq, Eq)]
pub struct TelegramGetUpdatesRequest {
    pub offset: Option<i64>,
    pub timeout: u64,
}

/// The reply to a request for updates.
#[derive(Debug, PartialEq, Eq)]
pub struct TelegramGetUpdatesResponse {
    pub ok: bool,
    pub result: Vec<TelegramUpdate>,
    pub description: Option<String>,
}

/// Something that happened in a chat.
#[derive(Debug, PartialEq, Eq)]
pub struct TelegramUpdate {
    pub update_id: i64,
    pub message: Option<TelegramMessage>,
}

/// A message in a chat.
#[derive(Debug, PartialEq, Eq)]
pub struct TelegramMessage {
    pub chat: TelegramChat,
    pub from: Option<TelegramUser>,
    pub text: Option<String>,
}

/// A chat.
#[derive(Debug, Clone, Copy, PartialEq, Eq, Structural)]
pub struct TelegramChat {
    pub id: i64,
}

/// A sender.
#[derive(Debug, Clone, Copy, PartialEq, Eq, Structural)]
pub struct TelegramUser {
    pub id: i64,
    pub is_bot: bool,
}

/// The reply to a request that sends a message.
#[derive(Debug, PartialEq, Eq)]
pub struct TelegramSendMessageResponse {
    pub ok: bool,
    pub description: Option<String>,
}

// ---------------------------------------------------------------------------
// Requests
// ---------------------------------------------------------------------------

/// The address of a method of the service, for a bot.
pub open spec fn endpoint(token: Seq<char>, method: Seq<char>) -> Seq<char> {
    TELEGRAM_API_BASE_URL@ + "/bot"@ + token + method
}

/// The address of a method of the service, for a bot.
fn method_endpoint(token: &str, method: &str) -> (r: String)
    ensures
        r@ == endpoint(token@, method@),
{
    let mut address = concatenate(TELEGRAM_API_BASE_URL, "/bot");
    address.append(token);
    address.append(method);
    address
}

/// A message on its way to the service.
#[derive(Debug, PartialEq, Eq)]
pub struct OutgoingMessage {
    pub bot_name: String,
    pub endpoint: String,
    pub request: TelegramSendMessageRequest,
}

/// The contents of an [`OutgoingMessage`].
#[verifier::ext_equal]
pub struct OutgoingView {
    pub bot_name: Seq<char>,
    pub endpoint: Seq<char>,
    pub chat_id: Seq<char>,
    pub text: Seq<char>,
    pub disable_web_page_preview: bool,
}

impl View for OutgoingMessage {
    type V = OutgoingView;

    open spec fn view(&self) -> OutgoingView {
        OutgoingView {
            bot_name: self.bot_name@,
            endpoint: self.endpoint@,
            chat_id: self.request.chat_id@,
            text: self.request.text@,
            disable_web_page_preview: self.request.disable_web_page_preview,
        }
    }
}

/// What is sent so that a text reaches the chat of a bot.
pub open spec fn outgoing(bot: BotView, text: Seq<char>) -> OutgoingView {
    OutgoingView {
        bot_name: bot.name,
        endpoint: endpoint(bot.token, "/sendMessage"@),
        chat_id: bot.chat_id,
        text,
        disable_web_page_preview: true,
    }
}

/// The message that brings a text to the chat of a bot.
pub fn outgoing_message(bot: &TelegramActiveBot, text: String) -> (r: OutgoingMessage)
    ensures
        r@ == outgoing(bot@, text@),
{
    OutgoingMessage {
        bot_name: bot.name.clone(),
        endpoint: method_endpoint(bot.token.as_str(), "/sendMessage"),
        request: TelegramSendMessageRequest {
            chat_id: bot.chat_id.clone(),
            text,
            disable_web_page_preview: true,
        },
    }
}

/// A request for updates.
#[derive(Debug, PartialEq, Eq)]
pub struct UpdatesRequest {
    pub endpoint: String,
    pub body: TelegramGetUpdatesRequest,
}

/// A request for the updates of a bot, from an offset on. The service may keep it waiting for
/// as many seconds as given.
pub fn updates_request(bot: &TelegramActiveBot, offset: Option<i64>, timeout_secs: u64) -> (r:
    UpdatesRequest)
    ensures
        r.endpoint@ == endpoint(bot@.token, "/getUpdates"@),
        r.body == (TelegramGetUpdatesRequest { offset, timeout: timeout_secs }),
{
    UpdatesRequest {
        endpoint: method_endpoint(bot.token.as_str(), "/getUpdates"),
        body: TelegramGetUpdatesRequest { offset, timeout: timeout_secs },
    }
}

// ---------------------------------------------------------------------------
// Replies
// ---------------------------------------------------------------------------

/// Whether an HTTP status code tells of success.
pub open spec fn is_success(code: u16) -> bool {
    200 <= code < 300
}

/// What happened to a message that was sent.
#[derive(Debug)]
pub enum SendEvent {
    Failed,
    Status { code: u16 },
    Undecodable,
    Payload { payload: TelegramSendMessageResponse },
}

/// What to do with a message that was sent.
#[derive(Debug, Clone, Copy, PartialEq, Eq, Structural)]
pub enum SendStep {
    /// Decode the body of the reply.
    Decode,
    /// The message counts as sent, or as not sent.
    Finish { sent: bool },
}

/// The next step with a message that was sent. It counts as sent only when the service replied
/// with a status of success and a body that says so; everything else ends as not sent.
pub open spec fn send_step(event: SendEvent) -> SendStep {
    match event {
        SendEvent::Failed => SendStep::Finish { sent: false },
        SendEvent::Status { code } => if is_success(code) {
            SendStep::Decode
        } else {
            SendStep::Finish { sent: false }
        },
        SendEvent::Undecodable => SendStep::Finish { sent: false },
        SendEvent::Payload { payload } => SendStep::Finish { sent: payload.ok },
    }
}

/// The next step with a message that was sent.
pub fn send_message_once(event: SendEvent) -> (r: SendStep)
    ensures
        r == send_step(event),
{
    match event {
        SendEvent::Failed => SendStep::Finish { sent: false },
        SendEvent::Status { code } => {
            if 200 <= code && code < 300 {
                SendStep::Decode
            } else {
                SendStep::Finish { sent: false }
            }
        },
        SendEvent::Undecodable => SendStep::Finish { sent: false },
        SendEvent::Payload { payload } => SendStep::Finish { sent: payload.ok },
    }
}

/// What happened to a request for updates.
#[derive(Debug)]
pub enum FetchEvent {
    Failed,
    Status { code: u16 },
    Undecodable,
    Payload { payload: TelegramGetUpdatesResponse },
}

/// What came of a request for updates.
#[derive(Debug)]
pub enum FetchResult {
    /// The request did not get through.
    Failed,
    /// The service did not reply with updates.
    Unsuccessful,
    /// The service replied with these updates.
    Updates { updates: Vec<TelegramUpdate> },
}

/// What to do with a request for updates.
#[derive(Debug)]
pub enum FetchStep {
    /// Decode the body of the reply.
    Decode,
    /// The request has come to its end.
    Finish { result: FetchResult },
}

/// The next step with a request for updates. There are updates only when the service replied
/// with a status of success and a body that says so.
pub open spec fn fetch_step(event: FetchEvent) -> FetchStep {
    match event {
        FetchEvent::Failed => FetchStep::Finish { result: FetchResult::Failed },
        FetchEvent::Status { code } => if is_success(code) {
            FetchStep::Decode
        } else {
            FetchStep::Finish { result: FetchResult::Unsuccessful }
        },
        FetchEvent::Undecodable => FetchStep::Finish { result: FetchResult::Unsuccessful },
        FetchEvent::Payload { payload } => if payload.ok {
            FetchStep::Finish { result: FetchResult::Updates { updates: payload.result } }
        } else {
            FetchStep::Finish { result: FetchResult::Unsuccessful }
        },
    }
}

/// The next step with a request for updates.
pub fn fetch_updates(event: FetchEvent) -> (r: FetchStep)
    ensures
        r == fetch_step(event),
{
    match event {
        FetchEvent::Failed => FetchStep::Finish { result: FetchResult::Failed },
        FetchEvent::Status { code } => {
            if 200 <= code && code < 300 {
                FetchStep::Decode
            } else {
                FetchStep::Finish { result: FetchResult::Unsuccessful }
            }
        },
        FetchEvent::Undecodable => FetchStep::Finish { result: FetchResult::Unsuccessful },
        FetchEvent::Payload { payload } => {
            if payload.ok {
                FetchStep::Finish { result: FetchResult::Updates { updates: payload.result } }
            } else {
                FetchStep::Finish { result: FetchResult::Unsuccessful }
            }
        },
    }
}

} // verus!

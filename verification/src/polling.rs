//! Polling for updates, and what they ask the application to do.
use vstd::prelude::*;

use crate::api::{
    endpoint, updates_request, FetchResult, TelegramActiveBot, TelegramGetUpdatesRequest,
    TelegramUpdate, UpdatesRequest,
};
use crate::bots::BotView;
use crate::commands::{choice_command, parse_choice_command, parse_prompt_command, prompt_command};
use crate::input::{
    DecisionInputView, ExternalDecisionInput, ExternalDecisionSource, ExternalPromptInput,
    PromptInputView,
};
use crate::text::{decimal_i64, same_text, signed_decimal};

verus! {

/// How long the poller waits after a failure.
pub const TELEGRAM_POLL_FAILURE_DELAY_SECS: u64 = 2;

/// How long the service may keep a request for updates waiting.
pub const POLL_TIMEOUT_SECS: u64 = 20;

/// What a message asks for.
#[derive(Debug, PartialEq, Eq)]
pub enum TelegramExternalInput {
    Decision(ExternalDecisionInput),
    Prompt(ExternalPromptInput),
}

/// The contents of a [`TelegramExternalInput`].
#[verifier::ext_equal]
pub enum ExternalInputView {
    Decision(DecisionInputView),
    Prompt(PromptInputView),
}

impl View for TelegramExternalInput {
    type V = ExternalInputView;

    open spec fn view(&self) -> ExternalInputView {
        match self {
            TelegramExternalInput::Decision(input) => ExternalInputView::Decision(input@),
            TelegramExternalInput::Prompt(input) => ExternalInputView::Prompt(input@),
        }
    }
}

/// What the text of a user asks for.
pub open spec fn requested_input(text: Seq<char>, user_id: i64) -> Option<ExternalInputView> {
    let source = ExternalDecisionSource::Telegram { user_id };
    match choice_command(text) {
        Some((token, choice)) => Some(
            ExternalInputView::Decision(
                DecisionInputView { decision_id: None, token, choice, source },
            ),
        ),
        None => match prompt_command(text) {
            Some((token, prompt)) => Some(
                ExternalInputView::Prompt(PromptInputView { token, text: prompt, source }),
            ),
            None => None,
        },
    }
}

/// What an update asks for: it must be a text, in the chat of the bot, from a user who is no bot,
/// and hold a command.
pub open spec fn external_input(bot: BotView, update: TelegramUpdate) -> Option<ExternalInputView> {
    match update.message {
        None => None,
        Some(message) => if signed_decimal(message.chat.id as int) != bot.chat_id {
            None
        } else {
            match (message.from, message.text) {
                (Some(from), Some(text)) => if from.is_bot {
                    None
                } else {
                    requested_input(text@, from.id)
                },
                _ => None,
            }
        },
    }
}

/// The contents of an optional input.
pub open spec fn opt_input(input: Option<TelegramExternalInput>) -> Option<ExternalInputView> {
    match input {
        Some(i) => Some(i@),
        None => None,
    }
}

/// The contents of a list of inputs.
pub open spec fn input_views(inputs: Seq<TelegramExternalInput>) -> Seq<ExternalInputView> {
    inputs.map_values(|input: TelegramExternalInput| input@)
}

/// What an update asks the application to do.
pub fn map_update_to_external_input(bot: &TelegramActiveBot, update: TelegramUpdate) -> (r: Option<
    TelegramExternalInput,
>)
    ensures
        opt_input(r) == external_input(bot@, update),
{
    let message = match update.message {
        Some(message) => message,
        None => {
            return None;
        },
    };
    if !same_text(decimal_i64(message.chat.id).as_str(), bot.chat_id.as_str()) {
        return None;
    }
    let from = match message.from {
        Some(from) => from,
        None => {
            return None;
        },
    };
    if from.is_bot {
        return None;
    }
    let text = match message.text {
        Some(text) => text,
        None => {
            return None;
        },
    };
    if let Some((token, choice)) = parse_choice_command(text.as_str()) {
        return Some(
            TelegramExternalInput::Decision(
                ExternalDecisionInput {
                    decision_id: None,
                    token,
                    choice,
                    source: ExternalDecisionSource::Telegram { user_id: from.id },
                },
            ),
        );
    }
    match parse_prompt_command(text.as_str()) {
        Some((token, prompt)) => Some(
            TelegramExternalInput::Prompt(
                ExternalPromptInput {
                    token,
                    text: prompt,
                    source: ExternalDecisionSource::Telegram { user_id: from.id },
                },
            ),
        ),
        None => None,
    }
}

// ---------------------------------------------------------------------------
// The poller
// ---------------------------------------------------------------------------

/// The offset behind an update, kept in the range of `i64`.
pub open spec fn offset_behind(update_id: i64) -> i64 {
    if update_id == i64::MAX {
        i64::MAX
    } else {
        (update_id + 1) as i64
    }
}

/// The offset behind the last of some updates, or the one before them where there are none.
pub open spec fn next_offset(offset: Option<i64>, updates: Seq<TelegramUpdate>) -> Option<i64> {
    if updates.len() == 0 {
        offset
    } else {
        Some(offset_behind(updates.last().update_id))
    }
}

/// The offset at which polling starts: behind everything that waits already.
pub open spec fn start_offset(result: FetchResult) -> Option<i64> {
    match result {
        FetchResult::Updates { updates } => next_offset(None, updates@),
        _ => None,
    }
}

/// The offset after a reply. Without updates it stays as it was.
pub open spec fn offset_after_reply(offset: Option<i64>, result: FetchResult) -> Option<i64> {
    match result {
        FetchResult::Updates { updates } => next_offset(offset, updates@),
        _ => offset,
    }
}

/// What some updates ask for, in their order.
pub open spec fn requested_inputs(bot: BotView, updates: Seq<TelegramUpdate>) -> Seq<
    ExternalInputView,
> {
    updates.filter_map(|update: TelegramUpdate| external_input(bot, update))
}

/// The offset behind an update.
fn offset_after(update_id: i64) -> (r: i64)
    ensures
        r == offset_behind(update_id),
{
    if update_id == i64::MAX {
        i64::MAX
    } else {
        update_id + 1
    }
}

/// The offset at which polling starts, from the reply to a request without an offset.
pub fn bootstrap_offset(result: &FetchResult) -> (r: Option<i64>)
    ensures
        r == start_offset(*result),
{
    match result {
        FetchResult::Updates { updates } => {
            if updates.len() == 0 {
                None
            } else {
                Some(offset_after(updates[updates.len() - 1].update_id))
            }
        },
        _ => None,
    }
}

/// The state of polling for one bot.
#[derive(Debug)]
pub struct ChoiceCommandPoller {
    pub bot: TelegramActiveBot,
    pub next_offset: Option<i64>,
}

/// What a round of polling makes the application do.
#[derive(Debug)]
pub enum PollAction {
    /// Wait for some seconds, then poll again.
    Wait { secs: u64 },
    /// Hand over these inputs, in order, then poll again.
    Deliver { inputs: Vec<TelegramExternalInput> },
}

/// The request that finds out where polling starts.
pub fn bootstrap_request(bot: &TelegramActiveBot) -> (r: UpdatesRequest)
    ensures
        r.endpoint@ == endpoint(bot@.token, "/getUpdates"@),
        r.body == (TelegramGetUpdatesRequest { offset: None, timeout: 0 }),
{
    updates_request(bot, None, 0)
}

/// Polling for a bot, from the reply to the first request on.
pub fn spawn_choice_command_poller(bot: TelegramActiveBot, bootstrap: &FetchResult) -> (r:
    ChoiceCommandPoller)
    ensures
        r.bot == bot,
        r.next_offset == start_offset(*bootstrap),
{
    ChoiceCommandPoller { bot, next_offset: bootstrap_offset(bootstrap) }
}

impl ChoiceCommandPoller {
    /// The next request.
    pub fn request(&self) -> (r: UpdatesRequest)
        ensures
            r.endpoint@ == endpoint(self.bot@.token, "/getUpdates"@),
            r.body == (TelegramGetUpdatesRequest {
                offset: self.next_offset,
                timeout: POLL_TIMEOUT_SECS,
            }),
    {
        updates_request(&self.bot, self.next_offset, POLL_TIMEOUT_SECS)
    }

    /// Takes the reply to a request. Without updates the poller waits and asks for the same ones
    /// again; with updates it moves on behind them and hands over what they ask for.
    pub fn step(&mut self, result: FetchResult) -> (r: PollAction)
        ensures
            final(self).bot == old(self).bot,
            final(self).next_offset == offset_after_reply(old(self).next_offset, result),
            match result {
                FetchResult::Updates { updates } => {
                    &&& r matches PollAction::Deliver { inputs }
                    &&& input_views(inputs@) == requested_inputs(old(self).bot@, updates@)
                },
                _ => r == (PollAction::Wait { secs: TELEGRAM_POLL_FAILURE_DELAY_SECS }),
            },
    {
        let updates = match result {
            FetchResult::Updates { updates } => updates,
            _ => {
                return PollAction::Wait { secs: TELEGRAM_POLL_FAILURE_DELAY_SECS };
            },
        };
        let ghost all = updates@;
        let ghost start = self.next_offset;
        let mut inputs: Vec<TelegramExternalInput> = Vec::new();
        assert(input_views(inputs@) =~= requested_inputs(self.bot@, all.take(0)));
        for update in it: updates
            invariant
                it.seq() == all,
                self.bot == old(self).bot,
                self.next_offset == next_offset(start, all.take(it.index() as int)),
                input_views(inputs@) == requested_inputs(self.bot@, all.take(it.index() as int)),
        {
            let ghost i = it.index() as int;
            assert(all.take(i + 1).drop_last() =~= all.take(i));
            assert(all.take(i + 1).last() == update);
            self.next_offset = Some(offset_after(update.update_id));
            let ghost before = input_views(inputs@);
            if let Some(input) = map_update_to_external_input(&self.bot, update) {
                inputs.push(input);
                assert(input_views(inputs@) =~= before + seq![input@]);
            }
        }
        assert(all.take(all.len() as int) =~= all);
        PollAction::Deliver { inputs }
    }
}

} // verus!

//! Messages that are sent through the bot of a session.
use std::time::Duration;

use vstd::prelude::*;

use crate::api::{
    endpoint, outgoing, outgoing_message, OutgoingMessage, OutgoingView, TelegramActiveBot,
    TelegramGetUpdatesRequest, UpdatesRequest,
};
use crate::bots::BotView;
use crate::notifier::TelegramNotifier;
use crate::polling::bootstrap_request;
use crate::text::texts;

verus! {

/// A message that is sent after a delay.
#[derive(Debug)]
pub struct DelayedMessage {
    pub delay: Duration,
    pub message: OutgoingMessage,
}

/// Messages that are sent in order: the first at once, and all others together, a while after
/// the first.
#[derive(Debug)]
pub struct OrderedMessages {
    pub first: OutgoingMessage,
    pub delay: Duration,
    pub followups: Vec<OutgoingMessage>,
}

/// What is to be done once the first of some messages was tried.
#[derive(Debug)]
pub enum OrderedStep {
    /// Wait, then send all these messages, and see with [`any_sent`] what came of it.
    SendFollowups { first_sent: bool, delay: Duration, followups: Vec<OutgoingMessage> },
    /// There is nothing left to send. The success is to be reported, or there was none.
    Finish { report: bool },
}

/// The contents of a list of messages.
pub open spec fn outgoing_views(messages: Seq<OutgoingMessage>) -> Seq<OutgoingView> {
    messages.map_values(|message: OutgoingMessage| message@)
}

/// What is sent so that some texts reach the chat of a bot.
pub open spec fn outgoing_all(bot: BotView, messages: Seq<Seq<char>>) -> Seq<OutgoingView> {
    messages.map_values(|text: Seq<char>| outgoing(bot, text))
}

impl<L> TelegramNotifier<L> {
    /// The message that brings a text to the chat, where a bot is in use.
    pub fn send_message(&self, text: String) -> (r: Option<OutgoingMessage>)
        ensures
            match (r, self@.active) {
                (Some(message), Some(bot)) => message@ == outgoing(bot, text@),
                (None, None) => true,
                _ => false,
            },
    {
        match self.active_bot() {
            Some(bot) => Some(outgoing_message(&bot, text)),
            None => None,
        }
    }

    /// The message that brings a text to the chat after a delay, where a bot is in use.
    pub fn send_message_after_delay(&self, text: String, delay: Duration) -> (r: Option<
        DelayedMessage,
    >)
        ensures
            match (r, self@.active) {
                (Some(delayed), Some(bot)) => {
                    &&& delayed.delay == delay
                    &&& delayed.message@ == outgoing(bot, text@)
                },
                (None, None) => true,
                _ => false,
            },
    {
        match self.send_message(text) {
            Some(message) => Some(DelayedMessage { delay, message }),
            None => None,
        }
    }

    /// The messages that bring some texts to the chat in order, where a bot is in use and there
    /// are any.
    pub fn send_messages_in_order(
        &self,
        messages: Vec<String>,
        delay_before_followup_messages: Duration,
    ) -> (r: Option<OrderedMessages>)
        ensures
            (r is Some) == (self@.active is Some && messages@.len() > 0),
            r matches Some(ordered) ==> {
                &&& ordered.delay == delay_before_followup_messages
                &&& seq![ordered.first@] + outgoing_views(ordered.followups@) == outgoing_all(
                    self@.active->0,
                    texts(messages@),
                )
            },
    {
        let bot = match self.active_bot() {
            Some(bot) => bot,
            None => {
                return None;
            },
        };
        if messages.len() == 0 {
            return None;
        }
        let ghost goal = outgoing_all(bot@, texts(messages@));
        let first = outgoing_message(&bot, messages[0].clone());
        let mut followups: Vec<OutgoingMessage> = Vec::new();
        let mut i: usize = 1;
        assert(seq![first@] + outgoing_views(followups@) =~= goal.take(1));
        while i < messages.len()
            invariant
                1 <= i <= messages@.len(),
                goal == outgoing_all(bot@, texts(messages@)),
                seq![first@] + outgoing_views(followups@) == goal.take(i as int),
            decreases messages@.len() - i,
        {
            let message = outgoing_message(&bot, messages[i].clone());
            let ghost before = outgoing_views(followups@);
            let ghost added = message@;
            followups.push(message);
            assert(outgoing_views(followups@) =~= before.push(added));
            assert(added == goal[i as int]);
            assert(seq![first@] + outgoing_views(followups@) =~= (seq![first@] + before).push(
                added,
            ));
            assert(goal.take(i as int + 1) =~= goal.take(i as int).push(added));
            i = i + 1;
        }
        assert(goal.take(goal.len() as int) =~= goal);
        Some(OrderedMessages { first, delay: delay_before_followup_messages, followups })
    }

    /// The bot in use and the request with which polling for it starts.
    pub fn spawn_choice_command_poller(&self) -> (r: Option<(TelegramActiveBot, UpdatesRequest)>)
        ensures
            match (r, self@.active) {
                (Some((bot, request)), Some(active)) => {
                    &&& bot@ == active
                    &&& request.endpoint@ == endpoint(active.token, "/getUpdates"@)
                    &&& request.body == (TelegramGetUpdatesRequest { offset: None, timeout: 0 })
                },
                (None, None) => true,
                _ => false,
            },
    {
        match self.active_bot() {
            Some(bot) => {
                let request = bootstrap_request(&bot);
                Some((bot, request))
            },
            None => None,
        }
    }
}

/// The next step once the first message was tried.
pub fn after_first(first_sent: bool, delay: Duration, followups: Vec<OutgoingMessage>) -> (r:
    OrderedStep)
    ensures
        r == if followups@.len() == 0 {
            OrderedStep::Finish { report: first_sent }
        } else {
            OrderedStep::SendFollowups { first_sent, delay, followups }
        },
{
    if followups.len() == 0 {
        OrderedStep::Finish { report: first_sent }
    } else {
        OrderedStep::SendFollowups { first_sent, delay, followups }
    }
}

/// Whether a success is reported: the first message was sent, or one of the others.
pub open spec fn reports_success(first_sent: bool, followups_sent: Seq<bool>) -> bool {
    first_sent || followups_sent.contains(true)
}

/// Whether a success is reported.
pub fn any_sent(first_sent: bool, followups_sent: &Vec<bool>) -> (r: bool)
    ensures
        r == reports_success(first_sent, followups_sent@),
{
    let mut any: bool = first_sent;
    for i in 0..followups_sent.len()
        invariant
            any == (first_sent || followups_sent@.take(i as int).contains(true)),
    {
        let ghost before = followups_sent@.take(i as int);
        let ghost now = followups_sent@.take(i as int + 1);
        assert(now =~= before.push(followups_sent@[i as int]));
        if followups_sent[i] {
            any = true;
            assert(now[i as int]);
        }
        assert(before.contains(true) ==> now.contains(true)) by {
            if before.contains(true) {
                let k = choose|k: int| 0 <= k < before.len() && before[k];
                assert(now[k]);
            }
        }
    }
    assert(followups_sent@.take(followups_sent@.len() as int) =~= followups_sent@);
    any
}

} // verus!

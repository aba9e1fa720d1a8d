//! What goes to the chat and what comes from it.
use std::time::Duration;

use vstd::prelude::*;

use super::{
    law_choice_line_is_accepted, law_commands_are_disjoint, law_prompt_line_is_accepted,
    lemma_same_prefix, lemma_same_suffix,
};
use crate::api::{
    fetch_updates, outgoing_message, send_message_once, updates_request, FetchEvent, FetchResult,
    FetchStep, OutgoingMessage, SendEvent, SendStep, TelegramActiveBot, TelegramUpdate,
    UpdatesRequest,
};
use crate::commands::{calls, parse_choice_command, parse_prompt_command};
use crate::input::ExternalDecisionSource;
use crate::notifier::TelegramNotifier;
use crate::polling::{
    bootstrap_offset, bootstrap_request, external_input, input_views, map_update_to_external_input,
    requested_inputs, spawn_choice_command_poller, ChoiceCommandPoller, PollAction,
    TelegramExternalInput,
};
use crate::sending::{
    after_first, any_sent, outgoing_all, outgoing_views, DelayedMessage, OrderedMessages,
    OrderedStep,
};
use crate::text::{is_hex, is_word, joined, lowered, signed_decimal, texts, words};

verus! {

// ---------------------------------------------------------------------------
// Commands
// ---------------------------------------------------------------------------

/// Whether a word is the name of a command in any case, alone or with a bot that it is meant for.
pub open spec fn names_command(word: Seq<char>, name: Seq<char>) -> bool {
    ||| lowered(word) == name
    ||| exists|addressee: Seq<char>| #[trigger] (name + "@"@ + addressee) == lowered(word)
}

/// Whether a word can be a token: from one to 64 hexadecimal digits in any case.
pub open spec fn can_be_token(word: Seq<char>) -> bool {
    &&& 1 <= word.len() <= 64
    &&& forall|i: int| 0 <= i < word.len() ==> is_hex(#[trigger] word[i])
}

proof fn lemma_calls(word: Seq<char>, name: Seq<char>)
    ensures
        calls(word, name) == names_command(word, name),
{
    let low = lowered(word);
    let start = name + "@"@;
    if start.is_prefix_of(low) {
        let addressee = low.skip(start.len() as int);
        assert(low =~= low.subrange(0, start.len() as int) + addressee);
        assert(name + "@"@ + addressee == low);
    }
    if exists|addressee: Seq<char>| #[trigger] (name + "@"@ + addressee) == low {
        let addressee = choose|addressee: Seq<char>| #[trigger] (name + "@"@ + addressee) == low;
        assert(low.subrange(0, start.len() as int) =~= start);
    }
}

/// A message is an answer exactly if it has three words: the command, a token and a choice. The
/// answer has the token and the choice in lower case.
pub proof fn law_answers_in_the_chat(
    text: &str,
    r: Option<(String, String)>,
    token: Seq<char>,
    choice: Seq<char>,
)
    requires
        call_ensures(parse_choice_command, (text,), r),
    ensures
        (r matches Some((t, c)) && t@ == token && c@ == choice) == {
            let parts = words(text@);
            &&& parts.len() == 3
            &&& names_command(parts[0], "/cx"@)
            &&& can_be_token(parts[1])
            &&& token == lowered(parts[1])
            &&& choice == lowered(parts[2])
        },
{
    lemma_calls(words(text@)[0], "/cx"@);
}

/// A message is a prompt exactly if it has the command, a token and at least one word more, and
/// the further words, with single spaces between them, have at most 2000 characters. They are the
/// prompt, with every letter as it was sent.
pub proof fn law_prompts_in_the_chat(
    text: &str,
    r: Option<(String, String)>,
    token: Seq<char>,
    prompt: Seq<char>,
)
    requires
        call_ensures(parse_prompt_command, (text,), r),
    ensures
        (r matches Some((t, p)) && t@ == token && p@ == prompt) == {
            let parts = words(text@);
            &&& parts.len() >= 3
            &&& names_command(parts[0], "/cxi"@)
            &&& can_be_token(parts[1])
            &&& token == lowered(parts[1])
            &&& prompt == joined(parts.skip(2), " "@)
            &&& prompt.len() <= 2000
        },
{
    lemma_calls(words(text@)[0], "/cxi"@);
}

// ---------------------------------------------------------------------------
// Updates
// ---------------------------------------------------------------------------

/// Whether an update is a text that a user, who is no bot, wrote in the chat of a bot.
pub open spec fn is_heard(bot: TelegramActiveBot, update: TelegramUpdate) -> bool {
    &&& update.message matches Some(message)
    &&& signed_decimal(message.chat.id as int) == bot.chat_id@
    &&& message.from matches Some(from)
    &&& !from.is_bot
    &&& message.text is Some
}

/// Whether an input is an answer of a user with this token and choice. It names no decision.
pub open spec fn is_answer(
    input: Option<TelegramExternalInput>,
    token: Seq<char>,
    choice: Seq<char>,
    user_id: i64,
) -> bool {
    &&& input matches Some(TelegramExternalInput::Decision(given))
    &&& given.decision_id is None
    &&& given.token@ == token
    &&& given.choice@ == choice
    &&& given.source == ExternalDecisionSource::Telegram { user_id }
}

/// Whether an input is a prompt of a user with this token and text.
pub open spec fn is_prompt(
    input: Option<TelegramExternalInput>,
    token: Seq<char>,
    text: Seq<char>,
    user_id: i64,
) -> bool {
    &&& input matches Some(TelegramExternalInput::Prompt(given))
    &&& given.token@ == token
    &&& given.text@ == text
    &&& given.source == ExternalDecisionSource::Telegram { user_id }
}

/// An update that is heard asks for what its text asks for, in the name of its sender and
/// unchanged: the answer that it holds, else the prompt that it holds, else nothing. Any other
/// update asks for nothing.
pub proof fn law_updates_ask_for_what_they_say(
    bot: TelegramActiveBot,
    update: TelegramUpdate,
    text: &str,
    answer: Option<(String, String)>,
    prompt: Option<(String, String)>,
    r: Option<TelegramExternalInput>,
)
    requires
        is_heard(bot, update) ==> text@ == update.message->0.text->0@,
        call_ensures(parse_choice_command, (text,), answer),
        call_ensures(parse_prompt_command, (text,), prompt),
        call_ensures(map_update_to_external_input, (&bot, update), r),
    ensures
        !is_heard(bot, update) ==> r is None,
        is_heard(bot, update) ==> {
            let user_id = update.message->0.from->0.id;
            match (answer, prompt) {
                (Some((token, choice)), _) => is_answer(r, token@, choice@, user_id),
                (None, Some((token, wanted))) => is_prompt(r, token@, wanted@, user_id),
                (None, None) => r is None,
            }
        },
{
}

/// A message made of the answer command, a token and a choice comes in as that answer of its
/// sender, with the token and the choice in lower case.
pub proof fn law_answer_messages_come_in(
    bot: TelegramActiveBot,
    update: TelegramUpdate,
    token: Seq<char>,
    choice: Seq<char>,
    r: Option<TelegramExternalInput>,
)
    requires
        is_heard(bot, update),
        update.message->0.text->0@ == "/cx "@ + token + " "@ + choice,
        can_be_token(token),
        is_word(choice),
        call_ensures(map_update_to_external_input, (&bot, update), r),
    ensures
        is_answer(r, lowered(token), lowered(choice), update.message->0.from->0.id),
{
    law_choice_line_is_accepted(token, choice);
}

/// A message made of the prompt command, a token and a text comes in as that prompt of its sender:
/// the token in lower case, and the words of the text, with every letter as it was sent and single
/// spaces between them.
pub proof fn law_prompt_messages_come_in(
    bot: TelegramActiveBot,
    update: TelegramUpdate,
    token: Seq<char>,
    text: Seq<char>,
    r: Option<TelegramExternalInput>,
)
    requires
        is_heard(bot, update),
        update.message->0.text->0@ == "/cxi "@ + token + " "@ + text,
        can_be_token(token),
        words(text).len() > 0,
        joined(words(text), " "@).len() <= 2000,
        call_ensures(map_update_to_external_input, (&bot, update), r),
    ensures
        is_prompt(r, lowered(token), joined(words(text), " "@), update.message->0.from->0.id),
{
    law_prompt_line_is_accepted(token, text);
    law_commands_are_disjoint(update.message->0.text->0@);
}

/// Whether two inputs are the same in all that can be seen of them.
pub open spec fn same_input(a: TelegramExternalInput, b: TelegramExternalInput) -> bool {
    match (a, b) {
        (TelegramExternalInput::Decision(x), TelegramExternalInput::Decision(y)) => {
            &&& match (x.decision_id, y.decision_id) {
                (Some(i), Some(j)) => i@ == j@,
                (None, None) => true,
                _ => false,
            }
            &&& x.token@ == y.token@
            &&& x.choice@ == y.choice@
            &&& x.source == y.source
        },
        (TelegramExternalInput::Prompt(x), TelegramExternalInput::Prompt(y)) => {
            &&& x.token@ == y.token@
            &&& x.text@ == y.text@
            &&& x.source == y.source
        },
        _ => false,
    }
}

proof fn lemma_picked(
    bot: TelegramActiveBot,
    updates: Seq<TelegramUpdate>,
    picked: Seq<Option<TelegramExternalInput>>,
)
    requires
        picked.len() == updates.len(),
        forall|i: int|
            0 <= i < updates.len() ==> call_ensures(
                map_update_to_external_input,
                (&bot, #[trigger] updates[i]),
                picked[i],
            ),
    ensures
        ({
            let kept = picked.filter(|p: Option<TelegramExternalInput>| p is Some);
            let asked = requested_inputs(bot@, updates);
            &&& asked.len() == kept.len()
            &&& forall|i: int| 0 <= i < kept.len() ==> (#[trigger] kept[i]) is Some
            &&& forall|i: int| 0 <= i < kept.len() ==> asked[i] == (#[trigger] kept[i])->0@
        }),
    decreases updates.len(),
{
    reveal(Seq::filter);
    let given = |p: Option<TelegramExternalInput>| p is Some;
    let f = |update: TelegramUpdate| external_input(bot@, update);
    if updates.len() > 0 {
        let fewer = updates.drop_last();
        let init = picked.drop_last();
        assert forall|i: int| 0 <= i < fewer.len() implies call_ensures(
            map_update_to_external_input,
            (&bot, #[trigger] fewer[i]),
            init[i],
        ) by {
            assert(fewer[i] == updates[i]);
        }
        lemma_picked(bot, fewer, init);
        let n = updates.len() - 1;
        assert(call_ensures(map_update_to_external_input, (&bot, updates[n]), picked[n]));
        assert(updates.last() == updates[n] && picked.last() == picked[n]);
        assert(updates.filter_map(f) == fewer.filter_map(f) + match f(updates.last()) {
            Some(input) => seq![input],
            None => Seq::empty(),
        });
    }
}

/// The poller hands over what the updates of a reply ask for: every input, once, unchanged and in
/// the order of the updates. It goes on behind the last of them. A reply without updates changes
/// nothing, and the next request waits for two seconds.
pub proof fn law_replies_are_worked_off(
    poller: &mut ChoiceCommandPoller,
    result: FetchResult,
    picked: Seq<Option<TelegramExternalInput>>,
    action: PollAction,
)
    requires
        call_ensures(ChoiceCommandPoller::step, (poller, result), action),
        result matches FetchResult::Updates { updates } ==> {
            &&& picked.len() == updates@.len()
            &&& forall|i: int|
                0 <= i < picked.len() ==> call_ensures(
                    map_update_to_external_input,
                    (&old(poller).bot, #[trigger] updates@[i]),
                    picked[i],
                )
        },
    ensures
        final(poller).bot == old(poller).bot,
        result !is Updates ==> {
            &&& action matches PollAction::Wait { secs }
            &&& secs == 2
            &&& final(poller).next_offset == old(poller).next_offset
        },
        result matches FetchResult::Updates { updates } ==> {
            let kept = picked.filter(|p: Option<TelegramExternalInput>| p is Some);
            &&& action matches PollAction::Deliver { inputs }
            &&& inputs@.len() == kept.len()
            &&& forall|i: int|
                0 <= i < inputs@.len() ==> same_input(#[trigger] inputs@[i], kept[i]->0)
            &&& updates@.len() == 0 ==> final(poller).next_offset == old(poller).next_offset
            &&& updates@.len() > 0 ==> is_behind(
                final(poller).next_offset,
                updates@[updates@.len() - 1].update_id,
            )
        },
{
    if let FetchResult::Updates { updates } = result {
        let bot = old(poller).bot;
        let kept = picked.filter(|p: Option<TelegramExternalInput>| p is Some);
        lemma_picked(bot, updates@, picked);
        if let PollAction::Deliver { inputs } = action {
            let views = input_views(inputs@);
            assert(views.len() == inputs@.len());
            assert forall|i: int| 0 <= i < inputs@.len() implies same_input(
                #[trigger] inputs@[i],
                kept[i]->0,
            ) by {
                assert(views[i] == inputs@[i]@);
                assert(kept[i] is Some);
            }
        }
    }
}

/// Whether an offset is the one behind an update: the next integer, as far as there is one.
pub open spec fn is_behind(offset: Option<i64>, update_id: i64) -> bool {
    offset matches Some(next) && next == if update_id == i64::MAX {
        update_id as int
    } else {
        update_id + 1
    }
}

/// Polling starts behind the last of the updates that wait already. Without any, and after a
/// failure, it starts with whatever comes first.
pub proof fn law_polling_starts_behind_what_waits(
    bot: TelegramActiveBot,
    result: FetchResult,
    offset: Option<i64>,
    poller: ChoiceCommandPoller,
)
    requires
        call_ensures(bootstrap_offset, (&result,), offset),
        call_ensures(spawn_choice_command_poller, (bot, &result), poller),
    ensures
        poller.bot == bot,
        poller.next_offset == offset,
        match result {
            FetchResult::Updates { updates } => if updates@.len() == 0 {
                offset is None
            } else {
                is_behind(offset, updates@[updates@.len() - 1].update_id)
            },
            _ => offset is None,
        },
{
}

// ---------------------------------------------------------------------------
// Requests
// ---------------------------------------------------------------------------

/// Whether an address is that of a method of the service for a token: the token stands in it
/// character by character, between the address of the service and the name of the method.
pub open spec fn is_address(address: Seq<char>, token: Seq<char>, method: Seq<char>) -> bool {
    address == "https://api.telegram.org"@ + "/bot"@ + token + method
}

/// The token can be read back from an address, so bots with different tokens have different
/// addresses.
pub proof fn law_addresses_hold_the_token(
    address: Seq<char>,
    token: Seq<char>,
    other: Seq<char>,
    method: Seq<char>,
)
    requires
        is_address(address, token, method),
    ensures
        address.subrange(28, address.len() - method.len()) == token,
        is_address(address, other, method) ==> other == token,
{
    reveal_strlit("https://api.telegram.org");
    reveal_strlit("/bot");
    let start = "https://api.telegram.org"@ + "/bot"@;
    assert(address.subrange(28, address.len() - method.len()) =~= token);
    lemma_same_suffix(start + token, start + other, method);
    lemma_same_prefix(start, token, other);
}

/// Whether a message brings a text to a chat in the name of a bot, without previews of links.
pub open spec fn brings(
    message: OutgoingMessage,
    name: Seq<char>,
    token: Seq<char>,
    chat_id: Seq<char>,
    text: Seq<char>,
) -> bool {
    &&& message.bot_name@ == name
    &&& is_address(message.endpoint@, token, "/sendMessage"@)
    &&& message.request.chat_id@ == chat_id
    &&& message.request.text@ == text
    &&& message.request.disable_web_page_preview
}

/// A message goes to the address of its bot and to the chat of its bot, with the text as it is.
pub proof fn law_messages_go_to_the_chat(bot: TelegramActiveBot, text: String, r: OutgoingMessage)
    requires
        call_ensures(outgoing_message, (&bot, text), r),
    ensures
        brings(r, bot.name@, bot.token@, bot.chat_id@, text@),
{
}

/// Updates are asked for at the address of the bot: at first without an offset and without
/// waiting, then from the offset of the poller on, for up to twenty seconds.
pub proof fn law_updates_are_asked_for(
    bot: TelegramActiveBot,
    offset: Option<i64>,
    timeout_secs: u64,
    request: UpdatesRequest,
    first: UpdatesRequest,
    poller: ChoiceCommandPoller,
    next: UpdatesRequest,
)
    requires
        call_ensures(updates_request, (&bot, offset, timeout_secs), request),
        call_ensures(bootstrap_request, (&bot,), first),
        call_ensures(ChoiceCommandPoller::request, (&poller,), next),
    ensures
        is_address(request.endpoint@, bot.token@, "/getUpdates"@),
        request.body.offset == offset,
        request.body.timeout == timeout_secs,
        is_address(first.endpoint@, bot.token@, "/getUpdates"@),
        first.body.offset is None,
        first.body.timeout == 0,
        is_address(next.endpoint@, poller.bot.token@, "/getUpdates"@),
        next.body.offset == poller.next_offset,
        next.body.timeout == 20,
{
}

// ---------------------------------------------------------------------------
// Messages of a session
// ---------------------------------------------------------------------------

/// Whether a message brings a text to the chat of the bot that a session uses.
pub open spec fn is_from<L>(
    message: OutgoingMessage,
    session: TelegramNotifier<L>,
    text: Seq<char>,
) -> bool {
    &&& session.active_lease matches Some(lease)
    &&& brings(message, lease.config.name@, lease.config.token@, lease.config.chat_id@, text)
}

/// A session that uses a bot sends through it, at once or after the delay that is asked for; one
/// that uses none sends nothing.
pub proof fn law_messages_go_through_the_bot_in_use<L>(
    session: TelegramNotifier<L>,
    text: String,
    delay: Duration,
    now: Option<OutgoingMessage>,
    later: Option<DelayedMessage>,
)
    requires
        call_ensures(TelegramNotifier::<L>::send_message, (&session, text), now),
        call_ensures(
            TelegramNotifier::<L>::send_message_after_delay,
            (&session, text, delay),
            later,
        ),
    ensures
        now is Some == session.active_lease is Some,
        later is Some == session.active_lease is Some,
        now matches Some(message) ==> is_from(message, session, text@),
        later matches Some(delayed) ==> delayed.delay == delay && is_from(
            delayed.message,
            session,
            text@,
        ),
{
}

/// Messages in order go through the bot in use, where there are any: the first one first, and each
/// of the others, in their order, after the delay that is asked for.
pub proof fn law_messages_keep_their_order<L>(
    session: TelegramNotifier<L>,
    messages: Vec<String>,
    delay: Duration,
    r: Option<OrderedMessages>,
)
    requires
        call_ensures(
            TelegramNotifier::<L>::send_messages_in_order,
            (&session, messages, delay),
            r,
        ),
    ensures
        r is Some == (session.active_lease is Some && messages@.len() > 0),
        r matches Some(ordered) ==> {
            &&& ordered.delay == delay
            &&& is_from(ordered.first, session, messages@[0]@)
            &&& ordered.followups@.len() == messages@.len() - 1
            &&& forall|i: int|
                0 <= i < ordered.followups@.len() ==> is_from(
                    #[trigger] ordered.followups@[i],
                    session,
                    messages@[i + 1]@,
                )
        },
{
    if let Some(ordered) = r {
        let bot = session@.active->0;
        let all = seq![ordered.first@] + outgoing_views(ordered.followups@);
        let wanted = outgoing_all(bot, texts(messages@));
        assert(wanted.len() == messages@.len());
        assert(all.len() == ordered.followups@.len() + 1);
        assert(all[0] == wanted[0]);
        assert(texts(messages@)[0] == messages@[0]@);
        assert forall|i: int| 0 <= i < ordered.followups@.len() implies is_from(
            #[trigger] ordered.followups@[i],
            session,
            messages@[i + 1]@,
        ) by {
            assert(all[i + 1] == wanted[i + 1]);
            assert(outgoing_views(ordered.followups@)[i] == ordered.followups@[i]@);
            assert(texts(messages@)[i + 1] == messages@[i + 1]@);
        }
    }
}

/// After the first message the others are sent, all of them and after the delay, whether the first
/// one was sent or not. A success is reported exactly if one of all was sent.
pub proof fn law_followups_are_sent_anyway(
    first_sent: bool,
    delay: Duration,
    followups: Vec<OutgoingMessage>,
    step: OrderedStep,
    sent: Vec<bool>,
    report: bool,
)
    requires
        call_ensures(after_first, (first_sent, delay, followups), step),
        call_ensures(any_sent, (first_sent, &sent), report),
    ensures
        followups@.len() == 0 ==> step == (OrderedStep::Finish { report: first_sent }),
        followups@.len() > 0 ==> step == (OrderedStep::SendFollowups {
            first_sent,
            delay,
            followups,
        }),
        report == (first_sent || exists|i: int| 0 <= i < sent@.len() && #[trigger] sent@[i]),
{
    if sent@.contains(true) {
        let i = choose|i: int| 0 <= i < sent@.len() && sent@[i] == true;
        assert(sent@[i]);
    }
    if exists|i: int| 0 <= i < sent@.len() && #[trigger] sent@[i] {
        let i = choose|i: int| 0 <= i < sent@.len() && #[trigger] sent@[i];
        assert(sent@[i] == true);
        assert(sent@.contains(true));
    }
}

/// A session that uses a bot polls for it, first for what waits already; one that uses none does
/// not poll.
pub proof fn law_sessions_poll_for_their_bot<L>(
    session: TelegramNotifier<L>,
    r: Option<(TelegramActiveBot, UpdatesRequest)>,
)
    requires
        call_ensures(TelegramNotifier::<L>::spawn_choice_command_poller, (&session,), r),
    ensures
        r is Some == session.active_lease is Some,
        r matches Some((bot, request)) ==> session.active_lease matches Some(lease) && {
            &&& bot.name@ == lease.config.name@
            &&& bot.token@ == lease.config.token@
            &&& bot.chat_id@ == lease.config.chat_id@
            &&& is_address(request.endpoint@, lease.config.token@, "/getUpdates"@)
            &&& request.body.offset is None
            &&& request.body.timeout == 0
        },
{
}

// ---------------------------------------------------------------------------
// Replies
// ---------------------------------------------------------------------------

/// A message counts as sent exactly if the reply has a status from 200 to 299 and a body that says
/// so.
pub proof fn law_sent_or_not(event: SendEvent, step: SendStep)
    requires
        call_ensures(send_message_once, (event,), step),
    ensures
        match event {
            SendEvent::Status { code } => if 200 <= code <= 299 {
                step == SendStep::Decode
            } else {
                step == (SendStep::Finish { sent: false })
            },
            SendEvent::Payload { payload } => step == (SendStep::Finish { sent: payload.ok }),
            SendEvent::Failed => step == (SendStep::Finish { sent: false }),
            SendEvent::Undecodable => step == (SendStep::Finish { sent: false }),
        },
{
}

/// There are updates exactly if the reply has a status from 200 to 299 and a body that says so.
/// Then they are all of those in the body.
pub proof fn law_updates_or_not(event: FetchEvent, step: FetchStep)
    requires
        call_ensures(fetch_updates, (event,), step),
    ensures
        match event {
            FetchEvent::Status { code } => if 200 <= code <= 299 {
                step == FetchStep::Decode
            } else {
                step == (FetchStep::Finish { result: FetchResult::Unsuccessful })
            },
            FetchEvent::Payload { payload } => if payload.ok {
                step == (FetchStep::Finish {
                    result: FetchResult::Updates { updates: payload.result },
                })
            } else {
                step == (FetchStep::Finish { result: FetchResult::Unsuccessful })
            },
            FetchEvent::Failed => step == (FetchStep::Finish { result: FetchResult::Failed }),
            FetchEvent::Undecodable => step == (FetchStep::Finish {
                result: FetchResult::Unsuccessful,
            }),
        },
{
}

} // verus!

//! Laws of the library as a whole, stated over the models that its functions are specified by.
use vstd::prelude::*;

use crate::api::{
    fetch_step, is_success, send_step, FetchEvent, FetchResult, FetchStep, SendEvent, SendStep,
    TelegramUpdate,
};
use crate::bots::{
    bot_views, config_error, entries_error, entry_error, first_named, is_duplicate, BotView,
    ConfigRead, TelegramBotConfig, TelegramErrorView,
};
use crate::commands::{
    calls, choice_command, is_token, lemma_token_case, prompt_command, MAX_PROMPT_CHARS,
    MAX_TOKEN_CHARS,
};
use crate::control_files::{
    choose_path, pending_file, pending_path, submission_step, submitted_input, temp_path,
    DecisionChoiceFile, RemoveOutcome, SubmissionAction, SubmissionEvent, SubmissionOutcome,
};
use crate::decision::{
    accepted_action, action_named, choice_names, chosen_action, elicitation_decision, exec_decision,
    patch_decision, resolved_choice, well_formed, DecisionKindView, PendingDecisionView,
};
use crate::input::{DecisionInputView, ExternalApprovalAction, RequestIdView};
use crate::notifier::{
    bots_path, configured_bot, lock_error, lock_name, lock_path, select_step, selection_error,
    LockOutcome, NotifierView, SelectEvent, SelectStepView, TelegramActivation,
};
use crate::paths::FilePathView;
use crate::polling::{
    external_input, next_offset, offset_after_reply, requested_inputs, ExternalInputView,
};
use crate::sending::reports_success;
use crate::snapshot::{
    next_probe, probed, OptionView, SnapshotStepView, SnapshotView, TelegramBotAvailability,
};
use crate::text::{
    decimal, digits_value, hex_char, hex_encoded, is_blank, is_digit, is_hex, is_lower_hex,
    is_white_space, is_word, joined, lemma_hex_encoded_injective, lemma_joined_ends,
    lemma_words_are_words, lemma_words_concat, lemma_words_joined, lemma_words_of_word,
    lowered, signed_decimal, trimmed, usize_value, without_plus, words,
};
use crate::token::is_control_token;

pub mod chat;
pub mod decisions;
pub mod files;
pub mod sessions;
pub mod text;

verus! {

// ---------------------------------------------------------------------------
// Commands
// ---------------------------------------------------------------------------

proof fn lemma_three_words(command: Seq<char>, token: Seq<char>, rest: Seq<char>)
    requires
        is_word(command),
        is_word(token),
    ensures
        words(command + " "@ + token + " "@ + rest) == seq![command, token] + words(rest),
{
    reveal_strlit(" ");
    let tail = " "@ + rest;
    let middle = " "@ + token + tail;
    assert(command + " "@ + token + " "@ + rest =~= command + middle);
    lemma_words_concat(command, middle);
    lemma_words_of_word(command);
    assert(middle.drop_first() =~= token + tail);
    lemma_words_concat(token, tail);
    lemma_words_of_word(token);
    assert(tail.drop_first() =~= rest);
    assert(words(command + middle) =~= seq![command, token] + words(rest));
}

proof fn lemma_token_is_word(token: Seq<char>)
    requires
        is_token(token),
    ensures
        is_word(token),
        is_token(lowered(token)),
{
    assert forall|i: int| 0 <= i < token.len() implies !is_white_space(#[trigger] token[i]) by {
        assert(is_hex(token[i]));
    }
    assert forall|i: int| 0 <= i < token.len() implies is_hex(
        #[trigger] lowered(token)[i],
    ) by {
        assert(is_hex(token[i]));
    }
}

/// A line made of the command, a token and a choice is taken as the answer that it spells, in
/// lower case.
pub proof fn law_choice_line_is_accepted(token: Seq<char>, choice: Seq<char>)
    requires
        is_token(token),
        is_word(choice),
    ensures
        choice_command("/cx "@ + token + " "@ + choice) == Some((lowered(token), lowered(choice))),
{
    reveal_strlit("/cx ");
    reveal_strlit("/cx");
    reveal_strlit(" ");
    lemma_token_is_word(token);
    assert("/cx "@ =~= "/cx"@ + " "@);
    lemma_three_words("/cx"@, token, choice);
    lemma_words_of_word(choice);
    let parts = words("/cx "@ + token + " "@ + choice);
    assert(parts =~= seq!["/cx"@, token, choice]);
    assert(lowered("/cx"@) =~= "/cx"@);
}

/// A line made of the command, a token and a text is taken as the prompt that the words of the
/// text spell, with single spaces between them.
pub proof fn law_prompt_line_is_accepted(token: Seq<char>, text: Seq<char>)
    requires
        is_token(token),
        words(text).len() > 0,
        joined(words(text), " "@).len() <= MAX_PROMPT_CHARS,
    ensures
        prompt_command("/cxi "@ + token + " "@ + text) == Some(
            (lowered(token), joined(words(text), " "@)),
        ),
{
    reveal_strlit("/cxi ");
    reveal_strlit("/cxi");
    reveal_strlit(" ");
    lemma_token_is_word(token);
    assert("/cxi "@ =~= "/cxi"@ + " "@);
    lemma_three_words("/cxi"@, token, text);
    let parts = words("/cxi "@ + token + " "@ + text);
    assert(parts.skip(2) =~= words(text));
    assert(lowered("/cxi"@) =~= "/cxi"@);
}

/// No message is both an answer and a prompt.
pub proof fn law_commands_are_disjoint(text: Seq<char>)
    ensures
        choice_command(text) is None || prompt_command(text) is None,
{
    reveal_strlit("/cx");
    reveal_strlit("/cxi");
    reveal_strlit("@");
    let word = words(text)[0];
    if calls(word, "/cx"@) && calls(word, "/cxi"@) {
        let low = lowered(word);
        assert(low.len() >= 4);
        if low != "/cxi"@ {
            assert(("/cxi"@ + "@"@)[3] == 'i');
            assert(low.subrange(0, 5)[3] == low[3]);
        }
        assert(low[3] == 'i');
        assert(("/cx"@ + "@"@)[3] == '@');
        assert(low.subrange(0, 4)[3] == low[3]);
        assert(false);
    }
}

/// An answer comes with a token of lower case hexadecimal digits and a choice that is one word in
/// lower case.
pub proof fn law_choices_are_normal(text: Seq<char>)
    ensures
        choice_command(text) matches Some((token, choice)) ==> {
            &&& 1 <= token.len() <= MAX_TOKEN_CHARS
            &&& forall|i: int| 0 <= i < token.len() ==> is_lower_hex(#[trigger] token[i])
            &&& is_word(choice)
            &&& lowered(choice) == choice
        },
{
    if let Some((token, choice)) = choice_command(text) {
        lemma_words_are_words(text);
        let parts = words(text);
        assert(is_word(parts[2]));
        assert forall|i: int| 0 <= i < token.len() implies is_lower_hex(#[trigger] token[i]) by {
            assert(is_hex(parts[1][i]));
        }
        assert forall|i: int| 0 <= i < choice.len() implies !is_white_space(
            #[trigger] choice[i],
        ) by {
            assert(!is_white_space(parts[2][i]));
        }
        assert(lowered(choice) =~= choice);
    }
}

/// A prompt comes with a token of lower case hexadecimal digits. It is not empty nor too long,
/// has no white space at its ends, and its words have single spaces between them.
pub proof fn law_prompts_are_normal(text: Seq<char>)
    ensures
        prompt_command(text) matches Some((token, prompt)) ==> {
            &&& 1 <= token.len() <= MAX_TOKEN_CHARS
            &&& forall|i: int| 0 <= i < token.len() ==> is_lower_hex(#[trigger] token[i])
            &&& 1 <= prompt.len() <= MAX_PROMPT_CHARS
            &&& trimmed(prompt) == prompt
            &&& joined(words(prompt), " "@) == prompt
        },
{
    if let Some((token, prompt)) = prompt_command(text) {
        lemma_words_are_words(text);
        let parts = words(text);
        assert forall|i: int| 0 <= i < token.len() implies is_lower_hex(#[trigger] token[i]) by {
            assert(is_hex(parts[1][i]));
        }
        let tail = parts.skip(2);
        assert forall|i: int| 0 <= i < tail.len() implies is_word(#[trigger] tail[i]) by {
            assert(tail[i] == parts[i + 2]);
        }
        lemma_joined_ends(tail);
        lemma_words_joined(tail);
    }
}

/// The white space between words and around them, and the case of the letters, do not matter to
/// an answer.
pub proof fn law_choices_depend_on_words(a: Seq<char>, b: Seq<char>)
    requires
        words(a).map_values(|w: Seq<char>| lowered(w)) == words(b).map_values(
            |w: Seq<char>| lowered(w),
        ),
    ensures
        choice_command(a) == choice_command(b),
{
    let f = |w: Seq<char>| lowered(w);
    let x = words(a);
    let y = words(b);
    assert(x.map_values(f).len() == y.map_values(f).len());
    if x.len() == 3 {
        assert(x.map_values(f)[0] == y.map_values(f)[0]);
        assert(x.map_values(f)[1] == y.map_values(f)[1]);
        assert(x.map_values(f)[2] == y.map_values(f)[2]);
        lemma_token_case(x[1]);
        lemma_token_case(y[1]);
    }
}

/// The white space between words and around them does not matter to a prompt.
pub proof fn law_prompts_depend_on_words(a: Seq<char>, b: Seq<char>)
    requires
        words(a) == words(b),
    ensures
        prompt_command(a) == prompt_command(b),
{
}

/// What asks for anything is a text in the chat of the bot, from a user who is no bot.
pub proof fn law_only_the_chat_is_heard(bot: BotView, update: TelegramUpdate)
    ensures
        external_input(bot, update) is Some ==> {
            &&& update.message matches Some(message)
            &&& signed_decimal(message.chat.id as int) == bot.chat_id
            &&& message.from matches Some(from)
            &&& !from.is_bot
            &&& message.text is Some
        },
{
}

// ---------------------------------------------------------------------------
// Decisions
// ---------------------------------------------------------------------------

/// A control token can stand in a command, and is one word in lower case already.
pub proof fn law_control_tokens_are_tokens(token: Seq<char>)
    requires
        is_control_token(token),
    ensures
        is_token(token),
        is_word(token),
        lowered(token) == token,
{
    assert forall|i: int| 0 <= i < token.len() implies is_hex(#[trigger] token[i]) by {
        assert(is_lower_hex(token[i]));
    }
    lemma_token_is_word(token);
    assert forall|i: int| 0 <= i < token.len() implies lowered(token)[i] == token[i] by {
        assert(is_lower_hex(token[i]));
    }
    assert(lowered(token) =~= token);
}

proof fn lemma_literal_actions()
    ensures
        action_named("approve"@) == Some(ExternalApprovalAction::Approve),
        action_named("approve_always"@) == Some(ExternalApprovalAction::ApproveAlways),
        action_named("approve_for_session"@) == Some(ExternalApprovalAction::ApproveForSession),
        action_named("deny"@) == Some(ExternalApprovalAction::Deny),
        action_named("accept"@) == Some(ExternalApprovalAction::Accept),
        action_named("decline"@) == Some(ExternalApprovalAction::Decline),
        action_named("cancel"@) == Some(ExternalApprovalAction::Cancel),
{
    reveal_strlit("approve");
    reveal_strlit("approve_always");
    reveal_strlit("approve_for_session");
    reveal_strlit("deny");
    reveal_strlit("accept");
    reveal_strlit("decline");
    reveal_strlit("cancel");
    assert("approve"@.len() == 7 && "approve"@[0] == 'a');
    assert("approve_always"@.len() == 14);
    assert("approve_for_session"@.len() == 19);
    assert("deny"@.len() == 4);
    assert("accept"@.len() == 6 && "accept"@[0] == 'a');
    assert("decline"@.len() == 7 && "decline"@[0] == 'd');
    assert("cancel"@.len() == 6 && "cancel"@[0] == 'c');
}

proof fn lemma_choice_literals()
    ensures
        forall|kind: DecisionKindView, i: int|
            #![trigger choice_names(kind)[i]]
            0 <= i < choice_names(kind).len() ==> {
                &&& is_word(choice_names(kind)[i])
                &&& lowered(choice_names(kind)[i]) == choice_names(kind)[i]
                &&& !is_digit(choice_names(kind)[i][0])
                &&& choice_names(kind)[i][0] != '+'
                &&& action_named(choice_names(kind)[i]) is Some
            },
{
    reveal_strlit("approve");
    reveal_strlit("approve_always");
    reveal_strlit("approve_for_session");
    reveal_strlit("deny");
    reveal_strlit("accept");
    reveal_strlit("decline");
    reveal_strlit("cancel");
    assert(lowered("approve"@) =~= "approve"@);
    assert(lowered("approve_always"@) =~= "approve_always"@);
    assert(lowered("approve_for_session"@) =~= "approve_for_session"@);
    assert(lowered("deny"@) =~= "deny"@);
    assert(lowered("accept"@) =~= "accept"@);
    assert(lowered("decline"@) =~= "decline"@);
    assert(lowered("cancel"@) =~= "cancel"@);
    assert forall|kind: DecisionKindView, i: int|
        #![trigger choice_names(kind)[i]]
        0 <= i < choice_names(kind).len() implies {
        &&& is_word(choice_names(kind)[i])
        &&& lowered(choice_names(kind)[i]) == choice_names(kind)[i]
        &&& !is_digit(choice_names(kind)[i][0])
        &&& choice_names(kind)[i][0] != '+'
        &&& action_named(choice_names(kind)[i]) is Some
    } by {
        assert(i == 0 || i == 1 || i == 2);
        match kind {
            DecisionKindView::Exec { allow_always, .. } => {},
            DecisionKindView::Patch { .. } => {},
            DecisionKindView::Elicitation { .. } => {},
        }
    }
}

proof fn lemma_word_is_trimmed(w: Seq<char>)
    requires
        is_word(w),
    ensures
        trimmed(w) == w,
{
    assert(!is_white_space(w[0]));
    assert(!is_white_space(w[w.len() - 1]));
}

/// Each choice that a decision offers selects its own action, by its name and by its number.
pub proof fn law_offered_choices_are_accepted(kind: DecisionKindView, i: int)
    requires
        0 <= i < choice_names(kind).len(),
    ensures
        action_named(choice_names(kind)[i]) is Some,
        chosen_action(kind, choice_names(kind)[i]) == action_named(choice_names(kind)[i]),
        chosen_action(kind, decimal((i + 1) as nat)) == action_named(choice_names(kind)[i]),
{
    lemma_choice_literals();
    let names = choice_names(kind);
    let name = names[i];
    lemma_word_is_trimmed(name);
    assert(without_plus(name) == name);
    assert(names.contains(name));
    assert(usize_value(name) is None) by {
        assert(!is_digit(name[0]));
    }
    let number = decimal((i + 1) as nat);
    assert(i == 0 || i == 1 || i == 2);
    assert(number =~= seq![hex_char(i + 1)]);
    assert(is_digit(number[0]));
    assert(is_word(number));
    lemma_word_is_trimmed(number);
    assert(lowered(number) =~= number);
    assert(without_plus(number) == number);
    assert(number.drop_last() =~= Seq::<char>::empty());
    assert(digits_value(number.drop_last()) == 0);
    assert(digits_value(number) == i + 1);
}

/// An answer is accepted exactly if it selects one of the choices that the decision offers, and
/// then it leads to the action of that choice.
pub proof fn law_only_offered_choices_are_accepted(kind: DecisionKindView, choice: Seq<char>)
    ensures
        (chosen_action(kind, choice) is Some) == (resolved_choice(
            choice,
            choice_names(kind),
        ) is Some),
        resolved_choice(choice, choice_names(kind)) matches Some(name) ==> choice_names(
            kind,
        ).contains(name) && chosen_action(kind, choice) == action_named(name),
{
    lemma_choice_literals();
    if let Some(name) = resolved_choice(choice, choice_names(kind)) {
        assert(choice_names(kind).contains(name));
        let i = choose|i: int| 0 <= i < choice_names(kind).len() && choice_names(kind)[i] == name;
        assert(action_named(choice_names(kind)[i]) is Some);
    }
}

/// Different choices of a decision lead to different actions.
pub proof fn law_choices_differ(kind: DecisionKindView, i: int, j: int)
    requires
        0 <= i < j < choice_names(kind).len(),
    ensures
        choice_names(kind)[i] != choice_names(kind)[j],
        action_named(choice_names(kind)[i]) != action_named(choice_names(kind)[j]),
{
    lemma_literal_actions();
}

/// White space around an answer and the case of its letters do not matter.
pub proof fn law_choice_spelling(kind: DecisionKindView, a: Seq<char>, b: Seq<char>)
    requires
        lowered(trimmed(a)) == lowered(trimmed(b)),
    ensures
        chosen_action(kind, a) == chosen_action(kind, b),
{
}

/// An action that outlives the decision is taken only where the decision offers it: a command is
/// approved for good only if that was allowed, and the other kinds keep to their own actions.
pub proof fn law_actions_stay_within_the_offer(kind: DecisionKindView, choice: Seq<char>)
    ensures
        chosen_action(kind, choice) matches Some(action) ==> match kind {
            DecisionKindView::Exec { allow_always, .. } => {
                ||| action == ExternalApprovalAction::Approve
                ||| action == ExternalApprovalAction::Deny
                ||| allow_always && action == ExternalApprovalAction::ApproveAlways
            },
            DecisionKindView::Patch { .. } => {
                ||| action == ExternalApprovalAction::Approve
                ||| action == ExternalApprovalAction::ApproveForSession
                ||| action == ExternalApprovalAction::Deny
            },
            DecisionKindView::Elicitation { .. } => {
                ||| action == ExternalApprovalAction::Accept
                ||| action == ExternalApprovalAction::Decline
                ||| action == ExternalApprovalAction::Cancel
            },
        },
{
    lemma_literal_actions();
    law_only_offered_choices_are_accepted(kind, choice);
    if let Some(name) = resolved_choice(choice, choice_names(kind)) {
        let i = choose|i: int| 0 <= i < choice_names(kind).len() && choice_names(kind)[i] == name;
        assert(i == 0 || i == 1 || i == 2);
    }
}

/// The line that offers a choice in the chat works when it is sent back as it is: it comes in as
/// an answer with the token of the decision, and the answer leads to the action of the choice.
pub proof fn law_offered_line_takes_effect(
    queue: Seq<PendingDecisionView>,
    i: int,
    bot: BotView,
    update: TelegramUpdate,
)
    requires
        queue.len() > 0,
        well_formed(queue),
        0 <= i < choice_names(queue[0].kind).len(),
        update.message matches Some(message) && {
            &&& signed_decimal(message.chat.id as int) == bot.chat_id
            &&& message.from matches Some(from)
            &&& !from.is_bot
            &&& message.text matches Some(text)
            &&& text@ == "/cx "@ + queue[0].token + " "@ + choice_names(queue[0].kind)[i]
        },
    ensures
        external_input(bot, update) matches Some(ExternalInputView::Decision(input)) && {
            &&& input.token == queue[0].token
            &&& input.choice == choice_names(queue[0].kind)[i]
            &&& action_named(choice_names(queue[0].kind)[i]) is Some
            &&& accepted_action(queue, input) == action_named(choice_names(queue[0].kind)[i])
        },
{
    lemma_choice_literals();
    law_control_tokens_are_tokens(queue[0].token);
    law_choice_line_is_accepted(queue[0].token, choice_names(queue[0].kind)[i]);
    law_offered_choices_are_accepted(queue[0].kind, i);
}

/// The file of a pending decision says how to answer it: its decision, its token and any of its
/// choices make an answer that leads to the action of that choice.
pub proof fn law_pending_file_can_be_answered(
    queue: Seq<PendingDecisionView>,
    session_id: Seq<char>,
    file: DecisionChoiceFile,
    i: int,
)
    requires
        queue.len() > 0,
        0 <= i < pending_file(session_id, queue[0]).choices.len(),
        file.decision_id@ == pending_file(session_id, queue[0]).decision_id,
        file.token@ == pending_file(session_id, queue[0]).token,
        file.choice@ == pending_file(session_id, queue[0]).choices[i],
    ensures
        action_named(file.choice@) is Some,
        accepted_action(queue, submitted_input(file)) == action_named(file.choice@),
{
    law_offered_choices_are_accepted(queue[0].kind, i);
}

/// Without a pending decision nothing is accepted.
pub proof fn law_nothing_pending_nothing_accepted(input: DecisionInputView)
    ensures
        accepted_action(Seq::empty(), input) is None,
{
}

/// Once the head has gone, what answered it is rejected: the first answer wins, and a later one is
/// stale. The next decision must have a token of its own.
pub proof fn law_stale_answers_are_rejected(
    queue: Seq<PendingDecisionView>,
    input: DecisionInputView,
)
    requires
        accepted_action(queue, input) is Some,
        queue.len() > 1 ==> queue[1].token != queue[0].token,
    ensures
        accepted_action(queue.drop_first(), input) is None,
{
}

/// A decision that comes in behind others does not change what is accepted.
pub proof fn law_later_decisions_wait(
    queue: Seq<PendingDecisionView>,
    later: PendingDecisionView,
    input: DecisionInputView,
)
    requires
        queue.len() > 0,
    ensures
        accepted_action(queue.push(later), input) == accepted_action(queue, input),
{
}

/// The identifier of a decision tells commands, patches and tool servers apart, and one command or
/// patch from another.
pub proof fn law_decision_ids(
    a: Seq<char>,
    b: Seq<char>,
    command: Seq<char>,
    allow_always: bool,
    num_files: nat,
    request_id: RequestIdView,
    token: Seq<char>,
)
    ensures
        exec_decision(a, command, allow_always, token).decision_id == exec_decision(
            b,
            command,
            allow_always,
            token,
        ).decision_id ==> a == b,
        patch_decision(a, num_files, token).decision_id == patch_decision(
            b,
            num_files,
            token,
        ).decision_id ==> a == b,
        exec_decision(a, command, allow_always, token).decision_id != patch_decision(
            b,
            num_files,
            token,
        ).decision_id,
        exec_decision(a, command, allow_always, token).decision_id != elicitation_decision(
            b,
            request_id,
            token,
        ).decision_id,
        patch_decision(a, num_files, token).decision_id != elicitation_decision(
            b,
            request_id,
            token,
        ).decision_id,
{
    reveal_strlit("exec:");
    reveal_strlit("patch:");
    reveal_strlit("elicitation:");
    let exec_a = "exec:"@ + a;
    let patch_a = "patch:"@ + a;
    let elicitation = "elicitation:"@ + b + ":"@ + request_id.shown();
    lemma_same_prefix("exec:"@, a, b);
    lemma_same_prefix("patch:"@, a, b);
    assert(exec_a[0] == 'e' && exec_a[1] == 'x');
    assert(patch_a[0] == 'p');
    assert(("patch:"@ + b)[0] == 'p');
    assert(elicitation[0] == 'e' && elicitation[1] == 'l');
}

proof fn lemma_same_prefix(prefix: Seq<char>, a: Seq<char>, b: Seq<char>)
    ensures
        prefix + a == prefix + b ==> a == b,
{
    assert((prefix + a).skip(prefix.len() as int) =~= a);
    assert((prefix + b).skip(prefix.len() as int) =~= b);
}

proof fn lemma_same_suffix(a: Seq<char>, b: Seq<char>, suffix: Seq<char>)
    ensures
        a + suffix == b + suffix ==> a == b,
{
    assert((a + suffix).take((a + suffix).len() - suffix.len()) =~= a);
    assert((b + suffix).take((b + suffix).len() - suffix.len()) =~= b);
}

// ---------------------------------------------------------------------------
// Files
// ---------------------------------------------------------------------------

/// The control files of different sessions have different paths. The path of a pending file is
/// never that of an answer, and neither is that of a temporary file. This speaks of paths as they
/// are written: an identifier with a separator in it may lead to one file by two paths.
pub proof fn law_control_files_are_apart(
    home: Seq<char>,
    a: Seq<char>,
    b: Seq<char>,
    unique: Seq<char>,
)
    ensures
        pending_path(home, a) == pending_path(home, b) ==> a == b,
        choose_path(home, a) == choose_path(home, b) ==> a == b,
        pending_path(home, a) != choose_path(home, b),
        temp_path(home, a, unique) != pending_path(home, b),
        temp_path(home, a, unique) != choose_path(home, b),
{
    reveal_strlit(".pending.json");
    reveal_strlit(".choose.json");
    reveal_strlit(".pending.");
    reveal_strlit(".tmp");
    lemma_same_suffix(a, b, ".pending.json"@);
    lemma_same_suffix(a, b, ".choose.json"@);
    let pending_a = a + ".pending.json"@;
    let pending_b = b + ".pending.json"@;
    let choose_a = a + ".choose.json"@;
    let choose_b = b + ".choose.json"@;
    let temp = a + ".pending."@ + unique + ".tmp"@;
    assert(pending_path(home, a).names.last() == pending_a);
    assert(pending_path(home, b).names.last() == pending_b);
    assert(choose_path(home, a).names.last() == choose_a);
    assert(choose_path(home, b).names.last() == choose_b);
    assert(temp_path(home, a, unique).names.last() == temp);
    assert(pending_a[pending_a.len() - 6] == 'g');
    assert(choose_b[choose_b.len() - 6] == 'e');
    assert(temp[temp.len() - 1] == 'p');
    assert(pending_b[pending_b.len() - 1] == 'n');
    assert(choose_b[choose_b.len() - 1] == 'n');
}

/// Bots of different names have different lock files, so a lock keeps other sessions from that
/// bot alone.
pub proof fn law_bots_have_their_own_locks(home: Seq<char>, a: Seq<char>, b: Seq<char>)
    requires
        lock_path(home, a) == lock_path(home, b),
    ensures
        a == b,
{
    assert(lock_path(home, a).names.last() == lock_name(a));
    assert(lock_path(home, b).names.last() == lock_name(b));
    let x = vstd::utf8::encode_utf8(a);
    let y = vstd::utf8::encode_utf8(b);
    lemma_same_suffix(hex_encoded(x), hex_encoded(y), ".lock"@);
    lemma_hex_encoded_injective(x, y);
    vstd::utf8::encode_utf8_decode_utf8(a);
    vstd::utf8::encode_utf8_decode_utf8(b);
}

/// The name of a lock file is made of hexadecimal digits and its ending, whatever the name of the
/// bot, so it stays in its directory.
pub proof fn law_lock_names_are_plain(name: Seq<char>)
    ensures
        forall|i: int|
            0 <= i < lock_name(name).len() ==> {
                ||| is_lower_hex(#[trigger] lock_name(name)[i])
                ||| i >= lock_name(name).len() - 5 && lock_name(name)[i] == ".lock"@[i - (lock_name(
                    name,
                ).len() - 5)]
            },
{
    reveal_strlit(".lock");
    let bytes = vstd::utf8::encode_utf8(name);
    assert forall|i: int| 0 <= i < lock_name(name).len() implies {
        ||| is_lower_hex(#[trigger] lock_name(name)[i])
        ||| i >= lock_name(name).len() - 5 && lock_name(name)[i] == ".lock"@[i - (lock_name(
            name,
        ).len() - 5)]
    } by {
        if i < hex_encoded(bytes).len() {
            assert(lock_name(name)[i] == hex_encoded(bytes)[i]);
            let byte = bytes[i / 2] as int;
            assert(0 <= byte / 16 < 16 && 0 <= byte % 16 < 16);
        }
    }
}

// ---------------------------------------------------------------------------
// Bots
// ---------------------------------------------------------------------------

proof fn lemma_entries_are_good(bots: Seq<BotView>, from: int, path: FilePathView)
    requires
        0 <= from,
        entries_error(bots, from, path) is None,
    ensures
        forall|i: int|
            from <= i < bots.len() ==> #[trigger] entry_error(bots, i, path) is None,
    decreases bots.len() - from,
{
    if from < bots.len() {
        lemma_entries_are_good(bots, from + 1, path);
    }
}

/// A configuration that is accepted has bots. None of them has a blank name, token or chat, and
/// no two have the same name.
pub proof fn law_accepted_configurations_are_good(read: ConfigRead, path: FilePathView)
    requires
        config_error(read, path) is None,
    ensures
        read matches ConfigRead::Parsed { file } && {
            let bots = bot_views(file.bots@);
            &&& bots.len() > 0
            &&& forall|i: int|
                0 <= i < bots.len() ==> {
                    &&& !is_blank((#[trigger] bots[i]).name)
                    &&& !is_blank(bots[i].token)
                    &&& !is_blank(bots[i].chat_id)
                }
            &&& forall|i: int, j: int|
                0 <= i < j < bots.len() ==> (#[trigger] bots[i]).name != (#[trigger] bots[j]).name
        },
{
    if let ConfigRead::Parsed { file } = read {
        let bots = bot_views(file.bots@);
        lemma_entries_are_good(bots, 0, path);
        assert forall|i: int| 0 <= i < bots.len() implies {
            &&& !is_blank((#[trigger] bots[i]).name)
            &&& !is_blank(bots[i].token)
            &&& !is_blank(bots[i].chat_id)
        } by {
            assert(entry_error(bots, i, path) is None);
        }
        assert forall|i: int, j: int| 0 <= i < j < bots.len() implies (#[trigger] bots[i]).name != (
        #[trigger] bots[j]).name by {
            assert(entry_error(bots, j, path) is None);
            assert(!is_duplicate(bots, j));
        }
    }
}

/// What is reported of a list of bots is wrong with its first bad entry.
pub proof fn law_first_bad_entry_is_reported(bots: Seq<BotView>, from: int, path: FilePathView)
    requires
        0 <= from,
        entries_error(bots, from, path) is Some,
    ensures
        exists|i: int|
            {
                &&& from <= i < bots.len()
                &&& #[trigger] entry_error(bots, i, path) == entries_error(bots, from, path)
                &&& forall|j: int|
                    from <= j < i ==> #[trigger] entry_error(bots, j, path) is None
            },
    decreases bots.len() - from,
{
    if entry_error(bots, from, path) is None {
        law_first_bad_entry_is_reported(bots, from + 1, path);
        let i = choose|i: int|
            {
                &&& from + 1 <= i < bots.len()
                &&& #[trigger] entry_error(bots, i, path) == entries_error(bots, from + 1, path)
                &&& forall|j: int|
                    from + 1 <= j < i ==> #[trigger] entry_error(bots, j, path) is None
            };
        assert(entry_error(bots, i, path) == entries_error(bots, from, path));
    } else {
        assert(entry_error(bots, from, path) == entries_error(bots, from, path));
    }
}

proof fn lemma_first_named(bots: Seq<BotView>, name: Seq<char>, from: int)
    requires
        0 <= from,
    ensures
        match first_named(bots, name, from) {
            Some(bot) => bot.name == name && exists|i: int|
                from <= i < bots.len() && #[trigger] bots[i] == bot,
            None => forall|i: int| from <= i < bots.len() ==> (#[trigger] bots[i]).name != name,
        },
    decreases bots.len() - from,
{
    if from < bots.len() {
        if bots[from].name != name {
            lemma_first_named(bots, name, from + 1);
        } else {
            assert(bots[from] == first_named(bots, name, from)->0);
        }
    }
}

/// The bot that is chosen by a name has that name, so that choosing it again finds it active.
pub proof fn law_chosen_bot_has_the_name(read: ConfigRead, name: Seq<char>)
    ensures
        configured_bot(read, name) matches Some(bot) ==> bot.name == name,
{
    if let ConfigRead::Parsed { file } = read {
        lemma_first_named(bot_views(file.bots@), name, 0);
    }
}

/// The choice of a bot by its name runs through three steps. With the lock, the bot of that name is
/// in use, and choosing it again finds it active. Without, the bot before stays in use.
pub proof fn law_bot_choice_runs_through<L>(
    state: NotifierView,
    name: Seq<char>,
    read: ConfigRead,
    bot: TelegramBotConfig,
    outcome: LockOutcome<L>,
)
    requires
        state.active_name() != Some(name),
        selection_error(read, bots_path(state.home), name) is None,
        select_step::<L>(state, name, SelectEvent::Config { read }).1
            matches SelectStepView::Lock { request } && request.bot == bot@,
    ensures
        select_step::<L>(state, name, SelectEvent::Start) == (
            state,
            SelectStepView::ReadConfig { path: bots_path(state.home) },
        ),
        configured_bot(read, name) == Some(bot@),
        bot@.name == name,
        ({
            let (after, step) = select_step(state, name, SelectEvent::Lock { bot, outcome });
            if outcome is Locked {
                &&& step == (SelectStepView::Finish { result: Ok(TelegramActivation::Activated) })
                &&& after.active == Some(bot@)
                &&& select_step::<L>(after, name, SelectEvent::Start) == (
                    after,
                    SelectStepView::Finish { result: Ok(TelegramActivation::AlreadyActive) },
                )
            } else {
                &&& after == state
                &&& step matches SelectStepView::Finish { result } && result is Err
            }
        }),
{
    law_chosen_bot_has_the_name(read, name);
}

/// Whether one of some sessions holds a lock file.
pub open spec fn is_held(sessions: Seq<NotifierView>, path: FilePathView) -> bool {
    exists|i: int| 0 <= i < sessions.len() && #[trigger] sessions[i].held_lock() == Some(path)
}

/// Whether a session among some uses the bot that a home directory has under a name.
pub open spec fn is_used(sessions: Seq<NotifierView>, home: Seq<char>, name: Seq<char>) -> bool {
    exists|i: int|
        0 <= i < sessions.len() && (#[trigger] sessions[i]).home == home
            && sessions[i].active_name() == Some(name)
}

/// Whether no two of some sessions hold the same lock file.
pub open spec fn locks_are_apart(sessions: Seq<NotifierView>) -> bool {
    forall|i: int, j: int|
        0 <= i < sessions.len() && 0 <= j < sessions.len() && i != j && (
        #[trigger] sessions[i]).held_lock() is Some ==> sessions[i].held_lock() != (
        #[trigger] sessions[j]).held_lock()
}

/// What the operating system answers to the request for a lock file that can be made and opened:
/// a lock that one of the sessions holds is refused, and any other is had.
pub open spec fn answered<L>(
    sessions: Seq<NotifierView>,
    path: FilePathView,
    outcome: LockOutcome<L>,
) -> bool {
    if is_held(sessions, path) {
        outcome is WouldBlock
    } else {
        outcome is Locked
    }
}

proof fn lemma_held_means_used(sessions: Seq<NotifierView>, home: Seq<char>, name: Seq<char>)
    ensures
        is_held(sessions, lock_path(home, name)) == is_used(sessions, home, name),
{
    let path = lock_path(home, name);
    if is_held(sessions, path) {
        let i = choose|i: int|
            0 <= i < sessions.len() && #[trigger] sessions[i].held_lock() == Some(path);
        let session = sessions[i];
        assert(session.home == home);
        law_bots_have_their_own_locks(home, session.active->0.name, name);
        assert(sessions[i].active_name() == Some(name));
    }
    if is_used(sessions, home, name) {
        let i = choose|i: int|
            0 <= i < sessions.len() && (#[trigger] sessions[i]).home == home
                && sessions[i].active_name() == Some(name);
        assert(sessions[i].held_lock() == Some(path));
    }
}

/// A bot is used by one session at a time. As long as some session uses it, another one that asks
/// for its lock learns that it is in use, and stays as it was. Without, the lock is had, and the
/// bot is in use in the session that asked.
pub proof fn law_bot_in_use_is_refused<L>(
    sessions: Seq<NotifierView>,
    k: int,
    bot: TelegramBotConfig,
    outcome: LockOutcome<L>,
)
    requires
        0 <= k < sessions.len(),
        answered(sessions, lock_path(sessions[k].home, bot@.name), outcome),
    ensures
        ({
            let session = sessions[k];
            let name = bot@.name;
            let in_use = TelegramErrorView::BotInUse { name };
            let (after, step) = select_step(session, name, SelectEvent::Lock { bot, outcome });
            if is_used(sessions, session.home, name) {
                &&& lock_error(outcome, session.home, name) == Some(in_use)
                &&& step == (SelectStepView::Finish { result: Err(in_use) })
                &&& after == session
            } else {
                &&& lock_error(outcome, session.home, name) is None
                &&& step == (SelectStepView::Finish { result: Ok(TelegramActivation::Activated) })
                &&& after == (NotifierView { home: session.home, active: Some(bot@) })
            }
        }),
{
    lemma_held_means_used(sessions, sessions[k].home, bot@.name);
}

/// Whatever sessions do, no two of them hold the same lock, so no two that share a home directory
/// use the same bot: not when one takes a step in the choice of a bot, gives up its bot, starts or
/// ends. It is enough that the operating system gives no lock that is held.
pub proof fn law_sessions_stay_apart<L>(
    sessions: Seq<NotifierView>,
    k: int,
    name: Seq<char>,
    event: SelectEvent<L>,
    home: Seq<char>,
)
    requires
        0 <= k < sessions.len(),
        locks_are_apart(sessions),
        event matches SelectEvent::Lock { bot, outcome: LockOutcome::Locked { .. } } ==> !is_held(
            sessions,
            lock_path(sessions[k].home, bot@.name),
        ),
    ensures
        locks_are_apart(sessions.update(k, select_step(sessions[k], name, event).0)),
        locks_are_apart(sessions.update(k, sessions[k].without_bot())),
        locks_are_apart(sessions.push(NotifierView { home, active: None })),
        locks_are_apart(sessions.remove(k)),
        forall|i: int, j: int|
            0 <= i < sessions.len() && 0 <= j < sessions.len() && i != j && (
            #[trigger] sessions[i]).home == (#[trigger] sessions[j]).home
                && sessions[i].active is Some ==> sessions[i].active_name()
                != sessions[j].active_name(),
{
    assert forall|i: int, j: int|
        0 <= i < sessions.len() && 0 <= j < sessions.len() && i != j && (
        #[trigger] sessions[i]).home == (#[trigger] sessions[j]).home
            && sessions[i].active is Some implies sessions[i].active_name()
        != sessions[j].active_name() by {
        assert(sessions[i].held_lock() != sessions[j].held_lock());
    }
}

/// A bot that one session uses is refused to another one with the same home directory. It can be
/// had as soon as the first session gives it up, uses another bot instead, or has ended.
pub proof fn law_bots_are_passed_on<L>(
    first: NotifierView,
    second: NotifierView,
    bot: TelegramBotConfig,
    other: TelegramBotConfig,
    lock: L,
    outcome: LockOutcome<L>,
)
    requires
        first.home == second.home,
        first.active_name() == Some(bot@.name),
        second.active_name() != Some(bot@.name),
        other@.name != bot@.name,
    ensures
        ({
            let name = bot@.name;
            let path = lock_path(second.home, name);
            let in_use = TelegramErrorView::BotInUse { name };
            let switched = select_step(
                first,
                other@.name,
                SelectEvent::Lock { bot: other, outcome: LockOutcome::Locked { lock } },
            ).0;
            let error = lock_error(outcome, second.home, name);
            let (after, step) = select_step(second, name, SelectEvent::Lock { bot, outcome });
            let refused = {
                &&& error == Some(in_use)
                &&& step == (SelectStepView::Finish { result: Err(in_use) })
                &&& after == second
            };
            let activated = {
                &&& error is None
                &&& step == (SelectStepView::Finish { result: Ok(TelegramActivation::Activated) })
                &&& after == (NotifierView { home: second.home, active: Some(bot@) })
            };
            &&& answered(seq![first, second], path, outcome) ==> refused
            &&& answered(seq![first.without_bot(), second], path, outcome) ==> activated
            &&& answered(seq![switched, second], path, outcome) ==> activated
            &&& answered(seq![second], path, outcome) ==> activated
        }),
{
    let name = bot@.name;
    let switched = NotifierView { home: first.home, active: Some(other@) };
    lemma_held_means_used(seq![first, second], second.home, name);
    lemma_held_means_used(seq![first.without_bot(), second], second.home, name);
    lemma_held_means_used(seq![switched, second], second.home, name);
    lemma_held_means_used(seq![second], second.home, name);
    assert(seq![first, second][0].active_name() == Some(name));
}

/// In an accepted configuration every bot can be chosen by its name.
pub proof fn law_every_bot_can_be_chosen(read: ConfigRead, path: FilePathView, i: int)
    requires
        config_error(read, path) is None,
        read matches ConfigRead::Parsed { file } && 0 <= i < file.bots@.len(),
    ensures
        read matches ConfigRead::Parsed { file } && selection_error(
            read,
            path,
            file.bots@[i].name@,
        ) is None && configured_bot(read, file.bots@[i].name@) == Some(file.bots@[i]@),
{
    if let ConfigRead::Parsed { file } = read {
        let bots = bot_views(file.bots@);
        law_accepted_configurations_are_good(read, path);
        lemma_first_named(bots, bots[i].name, 0);
        assert(bots[i] == file.bots@[i]@);
        let found = first_named(bots, bots[i].name, 0)->0;
        let k = choose|k: int| 0 <= k < bots.len() && #[trigger] bots[k] == found;
        assert(k == i);
    }
}

/// What came of trying the lock of a bot that is free or is not.
pub open spec fn tried(free: bool) -> LockOutcome<()> {
    if free {
        LockOutcome::Locked { lock: () }
    } else {
        LockOutcome::WouldBlock
    }
}

/// How many bots a step leaves to be listed.
pub open spec fn left_to_list(step: SnapshotStepView) -> nat {
    match step {
        SnapshotStepView::Probe { scan } => scan.rest.len() + 1,
        SnapshotStepView::Done { .. } => 0,
    }
}

/// A step towards the next bot leaves no more bots than there were.
pub proof fn lemma_next_probe_left(home: Seq<char>, listed: SnapshotView, rest: Seq<BotView>)
    ensures
        left_to_list(next_probe(home, listed, rest)) <= rest.len(),
    decreases rest.len(),
{
    if rest.len() > 0 && listed.active_name == Some(rest[0].name) {
        lemma_next_probe_left(
            home,
            listed.with(rest[0].name, TelegramBotAvailability::ActiveInThisSession),
            rest.drop_first(),
        );
    }
}

/// The list that comes of a step when every bot is tried in turn and `free` tells which of them
/// no other session uses.
pub open spec fn completed(step: SnapshotStepView, free: spec_fn(Seq<char>) -> bool) -> SnapshotView
    decreases left_to_list(step),
{
    match step {
        SnapshotStepView::Done { snapshot } => snapshot,
        SnapshotStepView::Probe { scan } => {
            proof {
                let listed = scan.listed;
                let name = scan.current.name;
                lemma_next_probe_left(
                    scan.home,
                    listed.with(name, TelegramBotAvailability::Available),
                    scan.rest,
                );
                lemma_next_probe_left(
                    scan.home,
                    listed.with(name, TelegramBotAvailability::InUseByAnotherSession),
                    scan.rest,
                );
            }
            completed(probed(scan, tried(free(scan.current.name)))->Ok_0, free)
        },
    }
}

/// How a bot has to be listed.
pub open spec fn listed_as(
    bot: BotView,
    active_name: Option<Seq<char>>,
    free: spec_fn(Seq<char>) -> bool,
) -> OptionView {
    OptionView {
        name: bot.name,
        availability: if active_name == Some(bot.name) {
            TelegramBotAvailability::ActiveInThisSession
        } else if free(bot.name) {
            TelegramBotAvailability::Available
        } else {
            TelegramBotAvailability::InUseByAnotherSession
        },
    }
}

/// The list holds every bot once, in the order of the configuration: the one of this session as
/// active, the others as available or as in use elsewhere, according to their locks.
pub proof fn law_snapshot_lists_every_bot(
    home: Seq<char>,
    listed: SnapshotView,
    rest: Seq<BotView>,
    free: spec_fn(Seq<char>) -> bool,
)
    ensures
        completed(next_probe(home, listed, rest), free) == (SnapshotView {
            options: listed.options + rest.map_values(
                |bot: BotView| listed_as(bot, listed.active_name, free),
            ),
            ..listed
        }),
    decreases rest.len(),
{
    let f = |bot: BotView| listed_as(bot, listed.active_name, free);
    if rest.len() == 0 {
        assert(listed.options + rest.map_values(f) =~= listed.options);
    } else {
        let more = listed.with(rest[0].name, f(rest[0]).availability);
        law_snapshot_lists_every_bot(home, more, rest.drop_first(), free);
        assert(more.options + rest.drop_first().map_values(f) =~= listed.options + rest.map_values(
            f,
        ));
        lemma_next_probe_left(home, more, rest.drop_first());
    }
}

/// Where the locks tell which bots the sessions use, a bot of another session is listed as in use,
/// and one that no session uses as available.
pub proof fn law_snapshot_shows_other_sessions(
    sessions: Seq<NotifierView>,
    home: Seq<char>,
    listed: SnapshotView,
    rest: Seq<BotView>,
    i: int,
)
    requires
        0 <= i < rest.len(),
        listed.active_name != Some(rest[i].name),
    ensures
        ({
            let free = |name: Seq<char>| !is_held(sessions, lock_path(home, name));
            let snapshot = completed(next_probe(home, listed, rest), free);
            snapshot.options[listed.options.len() + i] == OptionView {
                name: rest[i].name,
                availability: if is_used(sessions, home, rest[i].name) {
                    TelegramBotAvailability::InUseByAnotherSession
                } else {
                    TelegramBotAvailability::Available
                },
            }
        }),
{
    let free = |name: Seq<char>| !is_held(sessions, lock_path(home, name));
    law_snapshot_lists_every_bot(home, listed, rest, free);
    lemma_held_means_used(sessions, home, rest[i].name);
}

// ---------------------------------------------------------------------------
// The service
// ---------------------------------------------------------------------------

/// Whether a message counts as sent, from what became of the request and of its reply.
pub open spec fn counts_as_sent(request: SendEvent, reply: SendEvent) -> bool {
    match send_step(request) {
        SendStep::Finish { sent } => sent,
        SendStep::Decode => send_step(reply) == (SendStep::Finish { sent: true }),
    }
}

/// A message counts as sent exactly if the service acknowledged it: with a status of success and
/// with a body that says so.
pub proof fn law_sent_means_acknowledged(request: SendEvent, reply: SendEvent)
    requires
        request is Failed || request is Status,
    ensures
        counts_as_sent(request, reply) == {
            &&& request matches SendEvent::Status { code }
            &&& is_success(code)
            &&& reply matches SendEvent::Payload { payload }
            &&& payload.ok
        },
{
}

/// What comes of a request for updates, from what became of the request and of its reply.
pub open spec fn fetched(request: FetchEvent, reply: FetchEvent) -> FetchResult {
    match fetch_step(request) {
        FetchStep::Finish { result } => result,
        FetchStep::Decode => match fetch_step(reply) {
            FetchStep::Finish { result } => result,
            FetchStep::Decode => FetchResult::Unsuccessful,
        },
    }
}

/// There are updates exactly if the service gave them with a status of success and a body that
/// says so.
pub proof fn law_updates_mean_success(
    request: FetchEvent,
    reply: FetchEvent,
    updates: Vec<TelegramUpdate>,
)
    requires
        request is Failed || request is Status,
    ensures
        (fetched(request, reply) == FetchResult::Updates { updates }) == {
            &&& request matches FetchEvent::Status { code }
            &&& is_success(code)
            &&& reply matches FetchEvent::Payload { payload }
            &&& payload.ok
            &&& payload.result == updates
        },
{
}

/// A success is reported exactly if some message was sent.
pub proof fn law_success_is_reported(first_sent: bool, followups_sent: Seq<bool>)
    ensures
        reports_success(first_sent, followups_sent) == (seq![first_sent] + followups_sent).contains(
            true,
        ),
        reports_success(first_sent, Seq::empty()) == first_sent,
{
    let all = seq![first_sent] + followups_sent;
    if first_sent {
        assert(all[0]);
    }
    if followups_sent.contains(true) {
        let k = choose|k: int| 0 <= k < followups_sent.len() && followups_sent[k];
        assert(all[k + 1]);
    }
    if all.contains(true) {
        let k = choose|k: int| 0 <= k < all.len() && all[k];
        if k > 0 {
            assert(followups_sent[k - 1]);
        }
    }
}

/// What comes of a look for an answer on the command line, from what became of reading its file,
/// of removing it and of decoding it.
pub open spec fn taken(
    read: SubmissionEvent,
    removal: RemoveOutcome,
    decoding: SubmissionEvent,
) -> SubmissionOutcome {
    match submission_step(read) {
        SubmissionAction::Finish { outcome } => outcome,
        SubmissionAction::Decode => SubmissionOutcome::Failed,
        SubmissionAction::RemoveFile => match submission_step(
            SubmissionEvent::RemoveDone { outcome: removal },
        ) {
            SubmissionAction::Finish { outcome } => outcome,
            SubmissionAction::RemoveFile => SubmissionOutcome::Failed,
            SubmissionAction::Decode => match submission_step(decoding) {
                SubmissionAction::Finish { outcome } => outcome,
                _ => SubmissionOutcome::Failed,
            },
        },
    }
}

/// An answer on the command line is handed over exactly if its file was read, is gone and could be
/// decoded. Without the file, as in the next look after that, there is nothing to hand over, and
/// all else is a failure.
pub proof fn law_answers_are_taken_once(
    read: SubmissionEvent,
    removal: RemoveOutcome,
    decoding: SubmissionEvent,
    file: DecisionChoiceFile,
)
    requires
        read is Missing || read is ReadFailed || read is ReadDone,
        decoding is DecodeFailed || decoding is Decoded,
    ensures
        (taken(read, removal, decoding) == SubmissionOutcome::Submitted { file }) == {
            &&& read is ReadDone
            &&& removal != RemoveOutcome::Failed
            &&& decoding == SubmissionEvent::Decoded { file }
        },
        (taken(read, removal, decoding) is Nothing) == (read is Missing),
        (taken(read, removal, decoding) is Failed) == {
            ||| read is ReadFailed
            ||| read is ReadDone && removal == RemoveOutcome::Failed
            ||| read is ReadDone && decoding is DecodeFailed
        },
{
}

// ---------------------------------------------------------------------------
// Polling
// ---------------------------------------------------------------------------

/// A reply without updates changes nothing: what comes after it is taken as if it had not been.
pub proof fn law_failures_are_survived(
    offset: Option<i64>,
    failure: FetchResult,
    result: FetchResult,
)
    requires
        failure !is Updates,
    ensures
        offset_after_reply(offset, failure) == offset,
        offset_after_reply(offset_after_reply(offset, failure), result) == offset_after_reply(
            offset,
            result,
        ),
{
}

/// The offset after some updates lies behind each of them, where they come in rising order, so
/// none of them is asked for again. Behind the greatest identifier there is no offset.
pub proof fn law_updates_are_taken_once(
    offset: Option<i64>,
    updates: Seq<TelegramUpdate>,
    i: int,
)
    requires
        0 <= i < updates.len(),
        forall|j: int, k: int|
            0 <= j <= k < updates.len() ==> (#[trigger] updates[j]).update_id <= (
            #[trigger] updates[k]).update_id,
        updates.last().update_id < i64::MAX,
    ensures
        next_offset(offset, updates) matches Some(next) && updates[i].update_id < next,
{
    assert(updates[i].update_id <= updates[updates.len() - 1].update_id);
}

/// It does not matter in how many replies updates come.
pub proof fn law_batches_do_not_matter(
    bot: BotView,
    offset: Option<i64>,
    a: Seq<TelegramUpdate>,
    b: Seq<TelegramUpdate>,
)
    ensures
        next_offset(next_offset(offset, a), b) == next_offset(offset, a + b),
        requested_inputs(bot, a) + requested_inputs(bot, b) == requested_inputs(bot, a + b),
    decreases b.len(),
{
    if b.len() == 0 {
        assert(a + b =~= a);
        assert(requested_inputs(bot, a) + requested_inputs(bot, b) =~= requested_inputs(bot, a));
    } else {
        assert((a + b).drop_last() =~= a + b.drop_last());
        assert((a + b).last() == b.last());
        law_batches_do_not_matter(bot, offset, a, b.drop_last());
        assert(requested_inputs(bot, a) + requested_inputs(bot, b) =~= requested_inputs(
            bot,
            a + b,
        ));
    }
}

} // verus!

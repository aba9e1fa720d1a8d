use std::sync::atomic::{AtomicBool, Ordering};
use std::sync::Arc;
use std::time::Duration;

use codex_telegram::api::{
    fetch_updates, outgoing_message, send_message_once, FetchEvent, FetchResult, FetchStep,
    OutgoingMessage, SendEvent, SendStep, TelegramActiveBot, TelegramChat,
    TelegramGetUpdatesRequest, TelegramGetUpdatesResponse, TelegramMessage,
    TelegramSendMessageRequest, TelegramSendMessageResponse, TelegramUpdate, TelegramUser,
};
use codex_telegram::bots::{ConfigRead, TelegramBotConfig, TelegramBotsToml, TelegramError};
use codex_telegram::commands::{parse_choice_command, parse_prompt_command};
use codex_telegram::decision::DecisionQueue;
use codex_telegram::input::{
    ExternalApprovalAction, ExternalDecisionInput, ExternalDecisionSource, ExternalPromptInput,
};
use codex_telegram::notifier::{
    LockOutcome, SelectEvent, SelectStep, TelegramActivation, TelegramNotifier,
};
use codex_telegram::paths::FilePath;
use codex_telegram::polling::{
    bootstrap_offset, map_update_to_external_input, spawn_choice_command_poller, PollAction,
    TelegramExternalInput,
};
use codex_telegram::sending::{after_first, any_sent, OrderedStep};
use codex_telegram::snapshot::{
    SnapshotStep, TelegramBotAvailability, TelegramBotSelectionSnapshot,
};

const HOME: &str = "/home/me/.codex";

/// Reads a configuration as the application does.
fn parse(config: &str) -> ConfigRead {
    let table = match config.parse::<toml::Table>() {
        Ok(table) => table,
        Err(error) => return ConfigRead::Malformed { reason: error.to_string() },
    };
    let mut bots = Vec::new();
    if let Some(entries) = table.get("bots").and_then(|value| value.as_array()) {
        for entry in entries {
            let field = |name: &str| entry.get(name).and_then(|value| value.as_str());
            match (field("name"), field("token"), field("chat_id")) {
                (Some(name), Some(token), Some(chat_id)) => bots.push(TelegramBotConfig {
                    name: name.to_string(),
                    token: token.to_string(),
                    chat_id: chat_id.to_string(),
                }),
                _ => return ConfigRead::Malformed { reason: "missing field".to_string() },
            }
        }
    }
    ConfigRead::Parsed { file: TelegramBotsToml { bots } }
}

fn notifier() -> TelegramNotifier<u32> {
    TelegramNotifier::new(HOME.to_string())
}

/// Lists the bots; those in `busy` belong to another session.
fn snapshot(
    notifier: &TelegramNotifier<u32>,
    read: ConfigRead,
    busy: &[&str],
    tried: &mut Vec<String>,
) -> Result<TelegramBotSelectionSnapshot, TelegramError> {
    let mut step = notifier.selection_snapshot(read)?;
    loop {
        match step {
            SnapshotStep::Done { snapshot } => return Ok(snapshot),
            SnapshotStep::Probe { scan } => {
                let request = scan.lock_request();
                assert_eq!(request.path, notifier.lock_path_for_name(&request.bot.name));
                assert_eq!(request.dir, notifier.locks_dir());
                tried.push(request.bot.name.clone());
                let outcome = if request.bot.name == "broken" {
                    LockOutcome::LockFailed { reason: "no locks".to_string() }
                } else if busy.contains(&request.bot.name.as_str()) {
                    LockOutcome::WouldBlock
                } else {
                    LockOutcome::Locked { lock: 1u32 }
                };
                step = scan.resume(outcome)?;
            }
        }
    }
}

/// Chooses a bot whose lock is free.
fn select(
    notifier: &mut TelegramNotifier<u32>,
    name: &str,
    config: &str,
    lock: LockOutcome<u32>,
) -> Result<TelegramActivation, TelegramError> {
    match notifier.select_bot(name, SelectEvent::Start) {
        SelectStep::Finish { result } => return result,
        SelectStep::ReadConfig { path } => assert_eq!(path, notifier.config_path()),
        other => panic!("unexpected step: {other:?}"),
    }
    let request = match notifier.select_bot(name, SelectEvent::Config { read: parse(config) }) {
        SelectStep::Finish { result } => return result,
        SelectStep::Lock { request } => request,
        other => panic!("unexpected step: {other:?}"),
    };
    assert_eq!(request.path, notifier.lock_path_for_name(name));
    assert_eq!(request.mode, 0o600);
    match notifier.select_bot(name, SelectEvent::Lock { bot: request.bot, outcome: lock }) {
        SelectStep::Finish { result } => result,
        other => panic!("unexpected step: {other:?}"),
    }
}

const TWO_BOTS: &str = r#"
                [[bots]]
                name = "bot-a"
                token = "token-a"
                chat_id = "chat-a"

                [[bots]]
                name = "bot-b"
                token = "token-b"
                chat_id = "chat-b"
            "#;

const ONE_BOT: &str = r#"
                [[bots]]
                name = "bot-a"
                token = "token-a"
                chat_id = "chat-a"
            "#;

#[test]
fn selection_snapshot_lists_available_bots() {
    let notifier = notifier();
    let snapshot = snapshot(&notifier, parse(TWO_BOTS), &[], &mut Vec::new())
        .expect("load bot selection snapshot");
    let names: Vec<String> =
        snapshot.options.into_iter().map(|option| option.name).collect();
    assert_eq!(names, vec!["bot-a".to_string(), "bot-b".to_string()]);
}

#[test]
fn select_bot_is_ephemeral_and_can_be_disabled() {
    let mut notifier = notifier();

    let activation = select(&mut notifier, "bot-a", ONE_BOT, LockOutcome::Locked { lock: 7 })
        .expect("select bot");
    assert_eq!(activation, TelegramActivation::Activated);
    assert!(notifier.deactivate(), "expected active selection to be dropped");
    assert!(!notifier.deactivate(), "expected second deactivate call to be a no-op");
}

#[test]
fn duplicate_names_are_rejected() {
    let config = r#"
                [[bots]]
                name = "dup"
                token = "token-a"
                chat_id = "chat-a"

                [[bots]]
                name = "dup"
                token = "token-b"
                chat_id = "chat-b"
            "#;
    let err = snapshot(&notifier(), parse(config), &[], &mut Vec::new())
        .expect_err("expected duplicate names to fail");
    assert!(
        matches!(err, TelegramError::DuplicateName { .. }),
        "unexpected error type: {err:?}"
    );
}

#[test]
fn missing_config_has_actionable_error() {
    let err = snapshot(&notifier(), ConfigRead::Missing, &[], &mut Vec::new())
        .expect_err("expected missing config to fail");
    assert!(
        matches!(err, TelegramError::MissingConfig { .. }),
        "unexpected error type: {err:?}"
    );
    assert_eq!(err, TelegramError::MissingConfig { path: notifier().config_path() });
}

#[test]
fn send_message_without_active_bot_does_not_invoke_callback() {
    let notifier = notifier();
    assert!(notifier.load_bots(parse(ONE_BOT)).is_ok());
    let callback_called = Arc::new(AtomicBool::new(false));
    let sent = match notifier.send_message("hello".to_string()) {
        Some(_) => {
            callback_called.store(true, Ordering::Relaxed);
            true
        }
        None => false,
    };

    assert!(!sent);
    assert!(!callback_called.load(Ordering::Relaxed));
}

#[test]
fn send_messages_in_order_without_active_bot_does_not_invoke_callback() {
    let notifier = notifier();
    assert!(notifier.load_bots(parse(ONE_BOT)).is_ok());
    let callback_called = Arc::new(AtomicBool::new(false));
    let sent = match notifier.send_messages_in_order(
        vec!["hello".to_string(), "world".to_string()],
        Duration::from_secs(2),
    ) {
        Some(_) => {
            callback_called.store(true, Ordering::Relaxed);
            true
        }
        None => false,
    };

    assert!(!sent);
    assert!(!callback_called.load(Ordering::Relaxed));
}

#[test]
fn send_message_after_delay_without_active_bot_does_not_invoke_callback() {
    let notifier = notifier();
    assert!(notifier.load_bots(parse(ONE_BOT)).is_ok());
    let callback_called = Arc::new(AtomicBool::new(false));
    let sent =
        match notifier.send_message_after_delay("hello".to_string(), Duration::from_secs(2)) {
            Some(_) => {
                callback_called.store(true, Ordering::Relaxed);
                true
            }
            None => false,
        };

    assert!(!sent);
    assert!(!callback_called.load(Ordering::Relaxed));
}

#[test]
fn parse_choice_command_accepts_strict_format() {
    let parsed = parse_choice_command("/cx abcdef123456 approve");
    assert_eq!(parsed, Some(("abcdef123456".to_string(), "approve".to_string())));
}

#[test]
fn parse_choice_command_rejects_extra_tokens() {
    let parsed = parse_choice_command("/cx abcdef123456 approve now");
    assert_eq!(parsed, None);
}

#[test]
fn parse_prompt_command_accepts_text_payload() {
    let parsed = parse_prompt_command("/cxi abcdef123456 hello from telegram");
    assert_eq!(
        parsed,
        Some(("abcdef123456".to_string(), "hello from telegram".to_string()))
    );
}

#[test]
fn parse_prompt_command_rejects_missing_text() {
    let parsed = parse_prompt_command("/cxi abcdef123456");
    assert_eq!(parsed, None);
}

#[test]
fn parse_prompt_command_rejects_invalid_token() {
    let parsed = parse_prompt_command("/cxi token-not-hex hello");
    assert_eq!(parsed, None);
}

#[test]
fn choice_commands_in_other_shapes() {
    let pair = |a: &str, b: &str| Some((a.to_string(), b.to_string()));
    assert_eq!(parse_choice_command(" /CX@My_Bot\tABCdef \u{3000}APPROVE\n"), pair("abcdef", "approve"));
    assert_eq!(parse_choice_command("/cx@ 1 2"), pair("1", "2"));
    assert_eq!(parse_choice_command("/cxy 1 2"), None);
    assert_eq!(parse_choice_command("/cxi 1 2"), None);
    assert_eq!(parse_choice_command("cx 1 2"), None);
    assert_eq!(parse_choice_command("/cx 1"), None);
    assert_eq!(parse_choice_command("/cx"), None);
    assert_eq!(parse_choice_command(""), None);
    assert_eq!(parse_choice_command("/cx g1 approve"), None);
    let long = "a".repeat(64);
    assert_eq!(parse_choice_command(&format!("/cx {long} no")), pair(&long, "no"));
    assert_eq!(parse_choice_command(&format!("/cx {long}a no")), None);
}

#[test]
fn prompt_commands_in_other_shapes() {
    let pair = |a: &str, b: &str| Some((a.to_string(), b.to_string()));
    assert_eq!(
        parse_prompt_command("/CXI@bot ABC  Keep   The\n\nCase "),
        pair("abc", "Keep The Case")
    );
    assert_eq!(parse_prompt_command("/cx abc hello"), None);
    assert_eq!(parse_prompt_command("/cxi"), None);
    assert_eq!(parse_prompt_command("/cxi abc \u{a0}"), None);
    let long = "é".repeat(2000);
    assert_eq!(parse_prompt_command(&format!("/cxi 1 {long}")), pair("1", &long));
    assert_eq!(parse_prompt_command(&format!("/cxi 1 {long}é")), None);
}

#[test]
fn no_text_is_both_an_answer_and_a_prompt() {
    for text in ["/cx 1 2", "/cxi 1 2", "/cx@cxi 1 2", "/cxi@cx 1 2", "/cx@i 1 2"] {
        assert_ne!(parse_choice_command(text).is_some(), parse_prompt_command(text).is_some());
    }
}

fn active() -> TelegramActiveBot {
    TelegramActiveBot {
        name: "bot-a".to_string(),
        token: "token-a".to_string(),
        chat_id: "-42".to_string(),
    }
}

fn update(update_id: i64, chat: i64, user: Option<(i64, bool)>, text: Option<&str>) -> TelegramUpdate {
    TelegramUpdate {
        update_id,
        message: Some(TelegramMessage {
            chat: TelegramChat { id: chat },
            from: user.map(|(id, is_bot)| TelegramUser { id, is_bot }),
            text: text.map(str::to_string),
        }),
    }
}

#[test]
fn only_users_in_the_chat_are_heard() {
    let bot = active();
    let input = map_update_to_external_input(&bot, update(1, -42, Some((5, false)), Some("/cx AB Deny")));
    assert_eq!(
        input,
        Some(TelegramExternalInput::Decision(ExternalDecisionInput {
            decision_id: None,
            token: "ab".to_string(),
            choice: "deny".to_string(),
            source: ExternalDecisionSource::Telegram { user_id: 5 },
        }))
    );
    let input = map_update_to_external_input(&bot, update(1, -42, Some((6, false)), Some("/cxi ab go  on")));
    assert_eq!(
        input,
        Some(TelegramExternalInput::Prompt(ExternalPromptInput {
            token: "ab".to_string(),
            text: "go on".to_string(),
            source: ExternalDecisionSource::Telegram { user_id: 6 },
        }))
    );
    let rejected = vec![
        update(1, 42, Some((5, false)), Some("/cx ab deny")),
        update(1, -42, Some((5, true)), Some("/cx ab deny")),
        update(1, -42, None, Some("/cx ab deny")),
        update(1, -42, Some((5, false)), None),
        update(1, -42, Some((5, false)), Some("hello there")),
        TelegramUpdate { update_id: 1, message: None },
    ];
    for update in rejected {
        assert_eq!(map_update_to_external_input(&bot, update), None);
    }
}

#[test]
fn an_offered_line_takes_effect() {
    let mut queue = DecisionQueue::default();
    queue.enqueue_patch("p".to_string(), 2);
    let head = queue.head().expect("head decision");
    let mut actions = Vec::new();
    for choice in head.choices() {
        let line = format!("/cx {} {}", head.token, choice);
        match map_update_to_external_input(&active(), update(9, -42, Some((5, false)), Some(&line))) {
            Some(TelegramExternalInput::Decision(input)) => {
                actions.push(queue.validate_external_input(&input));
            }
            other => panic!("unexpected input: {other:?}"),
        }
    }
    assert_eq!(
        actions,
        vec![
            Some(ExternalApprovalAction::Approve),
            Some(ExternalApprovalAction::ApproveForSession),
            Some(ExternalApprovalAction::Deny)
        ]
    );
}

#[test]
fn polling_starts_behind_what_waits_and_goes_on() {
    let waiting = FetchResult::Updates {
        updates: vec![update(3, -42, Some((5, false)), Some("/cx ab deny")), update(8, 1, None, None)],
    };
    assert_eq!(bootstrap_offset(&waiting), Some(9));
    assert_eq!(bootstrap_offset(&FetchResult::Updates { updates: vec![] }), None);
    assert_eq!(bootstrap_offset(&FetchResult::Unsuccessful), None);
    assert_eq!(bootstrap_offset(&FetchResult::Failed), None);

    let mut poller = spawn_choice_command_poller(active(), &waiting);
    let request = poller.request();
    assert_eq!(request.endpoint, "https://api.telegram.org/bottoken-a/getUpdates");
    assert_eq!(request.body, TelegramGetUpdatesRequest { offset: Some(9), timeout: 20 });

    for result in [FetchResult::Failed, FetchResult::Unsuccessful] {
        assert!(matches!(poller.step(result), PollAction::Wait { secs: 2 }));
        assert_eq!(poller.next_offset, Some(9));
    }
    assert!(matches!(
        poller.step(FetchResult::Updates { updates: vec![] }),
        PollAction::Deliver { inputs } if inputs.is_empty()
    ));
    assert_eq!(poller.next_offset, Some(9));

    let step = poller.step(FetchResult::Updates {
        updates: vec![
            update(9, -42, Some((5, false)), Some("/cx ab deny")),
            update(10, 7, Some((5, false)), Some("/cx ab approve")),
            update(11, -42, Some((5, false)), Some("/cxi cd hi")),
            update(12, -42, Some((5, false)), Some("chatter")),
        ],
    });
    match step {
        PollAction::Deliver { inputs } => {
            assert_eq!(inputs.len(), 2);
            assert!(matches!(&inputs[0], TelegramExternalInput::Decision(input) if input.token == "ab"));
            assert!(matches!(&inputs[1], TelegramExternalInput::Prompt(input) if input.text == "hi"));
        }
        other => panic!("unexpected action: {other:?}"),
    }
    assert_eq!(poller.next_offset, Some(13));

    poller.step(FetchResult::Updates { updates: vec![update(i64::MAX, 1, None, None)] });
    assert_eq!(poller.next_offset, Some(i64::MAX));
}

#[test]
fn it_does_not_matter_in_how_many_replies_updates_come() {
    let updates = || {
        vec![
            update(1, -42, Some((5, false)), Some("/cx ab deny")),
            update(2, -42, Some((5, false)), Some("/cxi cd hi")),
        ]
    };
    let inputs = |action: PollAction| match action {
        PollAction::Deliver { inputs } => inputs,
        other => panic!("unexpected action: {other:?}"),
    };
    let mut whole = spawn_choice_command_poller(active(), &FetchResult::Failed);
    assert_eq!(whole.request().body.offset, None);
    let at_once = inputs(whole.step(FetchResult::Updates { updates: updates() }));

    let mut parts = spawn_choice_command_poller(active(), &FetchResult::Failed);
    let mut one_by_one = Vec::new();
    for update in updates() {
        one_by_one.extend(inputs(parts.step(FetchResult::Updates { updates: vec![update] })));
        assert!(matches!(parts.step(FetchResult::Unsuccessful), PollAction::Wait { .. }));
    }
    assert_eq!(at_once.len(), 2);
    assert_eq!(at_once, one_by_one);
    assert_eq!(whole.next_offset, parts.next_offset);
}

#[test]
fn every_configured_bot_can_be_chosen() {
    for name in ["bot-a", "bot-b"] {
        let mut notifier = notifier();
        let activation = select(&mut notifier, name, TWO_BOTS, LockOutcome::Locked { lock: 1 });
        assert_eq!(activation, Ok(TelegramActivation::Activated));
        assert_eq!(notifier.active_name(), Some(name));
        let token = name.replace("bot", "token");
        assert_eq!(notifier.active_bot().map(|bot| bot.token), Some(token));
    }
}

#[test]
fn a_message_counts_as_sent_only_when_acknowledged() {
    let reply = |ok: bool| SendEvent::Payload {
        payload: TelegramSendMessageResponse { ok, description: None },
    };
    assert_eq!(send_message_once(SendEvent::Failed), SendStep::Finish { sent: false });
    for code in [200, 204, 299] {
        assert_eq!(send_message_once(SendEvent::Status { code }), SendStep::Decode);
    }
    for code in [100, 199, 300, 404, 500, 999] {
        assert_eq!(send_message_once(SendEvent::Status { code }), SendStep::Finish { sent: false });
    }
    assert_eq!(send_message_once(SendEvent::Undecodable), SendStep::Finish { sent: false });
    assert_eq!(send_message_once(reply(true)), SendStep::Finish { sent: true });
    assert_eq!(send_message_once(reply(false)), SendStep::Finish { sent: false });
}

#[test]
fn updates_come_only_with_success() {
    let reply = |ok: bool| FetchEvent::Payload {
        payload: TelegramGetUpdatesResponse {
            ok,
            result: vec![update(1, 2, None, None)],
            description: Some("text".to_string()),
        },
    };
    let result = |step: FetchStep| match step {
        FetchStep::Finish { result } => result,
        FetchStep::Decode => panic!("expected an end"),
    };
    assert!(matches!(result(fetch_updates(FetchEvent::Failed)), FetchResult::Failed));
    assert!(matches!(fetch_updates(FetchEvent::Status { code: 200 }), FetchStep::Decode));
    assert!(matches!(
        result(fetch_updates(FetchEvent::Status { code: 409 })),
        FetchResult::Unsuccessful
    ));
    assert!(matches!(result(fetch_updates(FetchEvent::Undecodable)), FetchResult::Unsuccessful));
    assert!(matches!(result(fetch_updates(reply(false))), FetchResult::Unsuccessful));
    match result(fetch_updates(reply(true))) {
        FetchResult::Updates { updates } => assert_eq!(updates, vec![update(1, 2, None, None)]),
        other => panic!("unexpected result: {other:?}"),
    }
}

fn expected_message(text: &str) -> OutgoingMessage {
    OutgoingMessage {
        bot_name: "bot-a".to_string(),
        endpoint: "https://api.telegram.org/bottoken-a/sendMessage".to_string(),
        request: TelegramSendMessageRequest {
            chat_id: "chat-a".to_string(),
            text: text.to_string(),
            disable_web_page_preview: true,
        },
    }
}

#[test]
fn messages_go_to_the_active_bot() {
    let mut notifier = notifier();
    select(&mut notifier, "bot-a", TWO_BOTS, LockOutcome::Locked { lock: 7 }).expect("select bot");
    assert_eq!(notifier.send_message("hello".to_string()), Some(expected_message("hello")));
    let bot = notifier.active_bot().expect("active bot");
    assert_eq!(outgoing_message(&bot, "x".to_string()), expected_message("x"));

    let delay = Duration::from_millis(1500);
    let delayed =
        notifier.send_message_after_delay("later".to_string(), delay).expect("delayed message");
    assert_eq!(delayed.delay, delay);
    assert_eq!(delayed.message, expected_message("later"));

    let texts = vec!["one".to_string(), "two".to_string(), "three".to_string()];
    let ordered = notifier.send_messages_in_order(texts, delay).expect("ordered messages");
    assert_eq!(ordered.first, expected_message("one"));
    assert_eq!(ordered.followups, vec![expected_message("two"), expected_message("three")]);
    match after_first(false, ordered.delay, ordered.followups) {
        OrderedStep::SendFollowups { first_sent, delay: wait, followups } => {
            assert!(!first_sent);
            assert_eq!(wait, delay);
            assert_eq!(followups.len(), 2);
        }
        other => panic!("unexpected step: {other:?}"),
    }
    assert!(matches!(after_first(true, delay, vec![]), OrderedStep::Finish { report: true }));
    assert!(matches!(after_first(false, delay, vec![]), OrderedStep::Finish { report: false }));
    assert!(notifier.send_messages_in_order(vec![], delay).is_none());

    let (polled, request) = notifier.spawn_choice_command_poller().expect("poller");
    assert_eq!(polled, bot);
    assert_eq!(request.endpoint, "https://api.telegram.org/bottoken-a/getUpdates");
    assert_eq!(request.body, TelegramGetUpdatesRequest { offset: None, timeout: 0 });

    notifier.deactivate();
    assert!(notifier.send_message("hello".to_string()).is_none());
    assert!(notifier.spawn_choice_command_poller().is_none());
}

#[test]
fn success_is_reported_when_any_message_was_sent() {
    assert!(any_sent(true, &vec![]));
    assert!(any_sent(true, &vec![false, false]));
    assert!(any_sent(false, &vec![false, true]));
    assert!(!any_sent(false, &vec![false, false]));
    assert!(!any_sent(false, &vec![]));
}

#[test]
fn choosing_switches_and_failures_keep_the_bot() {
    let mut notifier = notifier();
    assert_eq!(notifier.active_name(), None);
    select(&mut notifier, "bot-a", TWO_BOTS, LockOutcome::Locked { lock: 7 }).expect("select bot");
    assert_eq!(notifier.active_name(), Some("bot-a"));
    assert_eq!(
        select(&mut notifier, "bot-a", "not read at all", LockOutcome::WouldBlock),
        Ok(TelegramActivation::AlreadyActive)
    );
    let failures = vec![
        (LockOutcome::WouldBlock, TelegramError::BotInUse { name: "bot-b".to_string() }),
        (
            LockOutcome::DirFailed { reason: "d".to_string() },
            TelegramError::CreateLockDir { path: notifier.locks_dir(), reason: "d".to_string() },
        ),
        (
            LockOutcome::OpenFailed { reason: "o".to_string() },
            TelegramError::OpenLockFile {
                path: notifier.lock_path_for_name("bot-b"),
                reason: "o".to_string(),
            },
        ),
        (
            LockOutcome::LockFailed { reason: "l".to_string() },
            TelegramError::LockBot { name: "bot-b".to_string(), reason: "l".to_string() },
        ),
    ];
    for (outcome, error) in failures {
        assert_eq!(select(&mut notifier, "bot-b", TWO_BOTS, outcome), Err(error));
        assert_eq!(notifier.active_name(), Some("bot-a"));
    }
    assert_eq!(
        select(&mut notifier, "bot-c", TWO_BOTS, LockOutcome::Locked { lock: 1 }),
        Err(TelegramError::BotNotFound {
            path: notifier.config_path(),
            name: "bot-c".to_string()
        })
    );
    assert_eq!(
        select(&mut notifier, "bot-b", TWO_BOTS, LockOutcome::Locked { lock: 8 }),
        Ok(TelegramActivation::Activated)
    );
    assert_eq!(notifier.active_name(), Some("bot-b"));
    assert_eq!(notifier.active_lease.as_ref().map(|lease| lease.lock), Some(8));
}

/// What a request for the lock of a bot comes to while some sessions run.
fn lock_among(sessions: &[&TelegramNotifier<u32>], name: &str) -> LockOutcome<u32> {
    if sessions.iter().any(|session| session.active_name() == Some(name)) {
        LockOutcome::WouldBlock
    } else {
        LockOutcome::Locked { lock: 3 }
    }
}

#[test]
fn a_bot_is_used_by_one_session_at_a_time() {
    let in_use = || TelegramError::BotInUse { name: "bot-a".to_string() };
    let mut first = notifier();
    let mut second = notifier();
    let outcome = lock_among(&[&first, &second], "bot-a");
    assert_eq!(
        select(&mut first, "bot-a", TWO_BOTS, outcome),
        Ok(TelegramActivation::Activated)
    );

    let bot = first.active_lease.as_ref().expect("a bot in use").config.clone();
    let outcome = lock_among(&[&first, &second], "bot-a");
    assert_eq!(second.try_lock_bot(&bot, outcome), Err(in_use()));
    let outcome = lock_among(&[&first, &second], "bot-a");
    assert_eq!(select(&mut second, "bot-a", TWO_BOTS, outcome), Err(in_use()));
    assert_eq!(second.active_name(), None);
    let listed = snapshot(&second, parse(TWO_BOTS), &["bot-a"], &mut Vec::new()).expect("list");
    assert_eq!(
        listed.options[0].availability,
        TelegramBotAvailability::InUseByAnotherSession
    );
    assert_eq!(listed.options[1].availability, TelegramBotAvailability::Available);

    // The first session switches to another bot.
    let outcome = lock_among(&[&first, &second], "bot-b");
    select(&mut first, "bot-b", TWO_BOTS, outcome).expect("switch");
    let outcome = lock_among(&[&first, &second], "bot-a");
    assert_eq!(
        select(&mut second, "bot-a", TWO_BOTS, outcome),
        Ok(TelegramActivation::Activated)
    );

    // The second session gives it up again.
    let outcome = lock_among(&[&first, &second], "bot-a");
    assert_eq!(first.try_lock_bot(&bot, outcome), Err(in_use()));
    assert!(second.deactivate());
    let outcome = lock_among(&[&first, &second], "bot-a");
    assert_eq!(first.try_lock_bot(&bot, outcome), Ok(3));

    // The first session ends.
    drop(first);
    let outcome = lock_among(&[&second], "bot-b");
    assert_eq!(
        select(&mut second, "bot-b", TWO_BOTS, outcome),
        Ok(TelegramActivation::Activated)
    );
}

#[test]
fn bad_configurations_are_reported() {
    let notifier = notifier();
    let path = || notifier.config_path();
    let load = |read: ConfigRead| notifier.load_bots(read).expect_err("expected an error");
    assert_eq!(
        load(ConfigRead::Unreadable { reason: "denied".to_string() }),
        TelegramError::ReadConfig { path: path(), reason: "denied".to_string() }
    );
    assert!(matches!(load(parse("[[bots")), TelegramError::ParseConfig { .. }));
    assert_eq!(load(parse("")), TelegramError::EmptyConfig { path: path() });
    let bots = |entries: &[(&str, &str, &str)]| ConfigRead::Parsed {
        file: TelegramBotsToml {
            bots: entries
                .iter()
                .map(|(name, token, chat_id)| TelegramBotConfig {
                    name: name.to_string(),
                    token: token.to_string(),
                    chat_id: chat_id.to_string(),
                })
                .collect(),
        },
    };
    assert_eq!(
        load(bots(&[("a", "t", "c"), ("\u{a0} ", "", "")])),
        TelegramError::EmptyField { index: 1, field: "name" }
    );
    assert_eq!(
        load(bots(&[("a", " ", "")])),
        TelegramError::EmptyField { index: 0, field: "token" }
    );
    assert_eq!(
        load(bots(&[("a", "t", "\n"), ("a", "t", "c")])),
        TelegramError::EmptyField { index: 0, field: "chat_id" }
    );
    assert_eq!(
        load(bots(&[("a", "t", "c"), ("b", "t", "c"), ("a", "u", "d"), ("", "", "")])),
        TelegramError::DuplicateName { path: path(), name: "a".to_string() }
    );
    let loaded = notifier.load_bots(bots(&[("a", "t", "c"), ("A", "t", "c")])).expect("bots");
    assert_eq!(loaded.len(), 2);
}

#[test]
fn the_snapshot_tells_who_uses_a_bot() {
    let config = r#"
        [[bots]]
        name = "free"
        token = "t"
        chat_id = "1"
        [[bots]]
        name = "mine"
        token = "t"
        chat_id = "1"
        [[bots]]
        name = "taken"
        token = "t"
        chat_id = "1"
    "#;
    let mut notifier = notifier();
    select(&mut notifier, "mine", config, LockOutcome::Locked { lock: 7 }).expect("select bot");
    let mut tried = Vec::new();
    let listed = snapshot(&notifier, parse(config), &["taken"], &mut tried).expect("snapshot");
    assert_eq!(listed.active_name, Some("mine".to_string()));
    assert_eq!(listed.config_path, notifier.config_path());
    let options: Vec<(String, TelegramBotAvailability)> =
        listed.options.into_iter().map(|option| (option.name, option.availability)).collect();
    assert_eq!(
        options,
        vec![
            ("free".to_string(), TelegramBotAvailability::Available),
            ("mine".to_string(), TelegramBotAvailability::ActiveInThisSession),
            ("taken".to_string(), TelegramBotAvailability::InUseByAnotherSession),
        ]
    );
    assert_eq!(tried, vec!["free".to_string(), "taken".to_string()]);
}

#[test]
fn a_broken_lock_ends_the_snapshot() {
    let config = r#"
        [[bots]]
        name = "broken"
        token = "t"
        chat_id = "1"
        [[bots]]
        name = "next"
        token = "t"
        chat_id = "1"
    "#;
    let mut tried = Vec::new();
    assert_eq!(
        snapshot(&notifier(), parse(config), &[], &mut tried),
        Err(TelegramError::LockBot {
            name: "broken".to_string(),
            reason: "no locks".to_string()
        })
    );
    assert_eq!(tried, vec!["broken".to_string()]);
}

#[test]
fn lock_files_are_named_by_the_bytes_of_the_name() {
    let notifier = notifier();
    let expected = |name: &str| FilePath {
        home: HOME.to_string(),
        names: vec!["telegram-bot-locks".to_string(), name.to_string()],
    };
    assert_eq!(notifier.lock_path_for_name("bot-a"), expected("626f742d61.lock"));
    assert_eq!(notifier.lock_path_for_name("../x"), expected("2e2e2f78.lock"));
    assert_eq!(notifier.config_path().names, vec!["telegram-bots.toml"]);
    assert_ne!(notifier.lock_path_for_name("a"), notifier.lock_path_for_name("A"));
}

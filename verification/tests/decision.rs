use codex_telegram::control_files::{
    choose_decision_path, clear_session_control_files, cli_choice_input, cli_choice_round,
    decision_control_dir, pending_decision_path, pending_temp_path, pending_temp_path_with,
    remove_if_exists, sync_pending_decision_file, take_choice_submission, ControlFilePlan,
    DecisionChoiceFile, PendingDecisionFile, RemoveOutcome, SubmissionAction, SubmissionEvent,
    SubmissionOutcome,
};
use codex_telegram::decision::{resolve_choice_alias, DecisionQueue, PendingDecision};
use codex_telegram::input::{
    ExternalApprovalAction, ExternalDecisionInput, ExternalDecisionSource, Op, RequestId,
};
use codex_telegram::token::{control_token_from, generate_control_token};

fn answer(decision_id: Option<&str>, token: &str, choice: &str) -> ExternalDecisionInput {
    ExternalDecisionInput {
        decision_id: decision_id.map(str::to_string),
        token: token.to_string(),
        choice: choice.to_string(),
        source: ExternalDecisionSource::CommandLine,
    }
}

#[test]
fn validate_external_input_rejects_mismatch_token() {
    let mut queue = DecisionQueue::default();
    queue.enqueue_exec("call-1".to_string(), "ls".to_string(), false);

    let action = queue.validate_external_input(&ExternalDecisionInput {
        decision_id: Some("exec:call-1".to_string()),
        token: "wrong".to_string(),
        choice: "approve".to_string(),
        source: ExternalDecisionSource::CommandLine,
    });
    assert_eq!(action, None);
}

#[test]
fn validate_external_input_accepts_head_choice() {
    let mut queue = DecisionQueue::default();
    queue.enqueue_exec("call-1".to_string(), "ls".to_string(), false);
    let head = queue.head().expect("head decision");

    let action = queue.validate_external_input(&ExternalDecisionInput {
        decision_id: Some(head.decision_id.clone()),
        token: head.token.clone(),
        choice: "approve".to_string(),
        source: ExternalDecisionSource::CommandLine,
    });
    assert_eq!(action, Some(ExternalApprovalAction::Approve));
}

#[test]
fn validate_external_input_accepts_execpolicy_choice_index() {
    let mut queue = DecisionQueue::default();
    queue.enqueue_exec("call-1".to_string(), "ls".to_string(), true);
    let head = queue.head().expect("head decision");

    let action = queue.validate_external_input(&ExternalDecisionInput {
        decision_id: Some(head.decision_id.clone()),
        token: head.token.clone(),
        choice: "2".to_string(),
        source: ExternalDecisionSource::CommandLine,
    });
    assert_eq!(action, Some(ExternalApprovalAction::ApproveAlways));
}

#[test]
fn an_answer_may_leave_the_decision_out_but_not_name_another() {
    let mut queue = DecisionQueue::default();
    queue.enqueue_exec("call-1".to_string(), "ls".to_string(), false);
    let token = queue.head().expect("head decision").token.clone();

    assert_eq!(
        queue.validate_external_input(&answer(None, &token, "deny")),
        Some(ExternalApprovalAction::Deny)
    );
    assert_eq!(
        queue.validate_external_input(&answer(Some("exec:call-2"), &token, "deny")),
        None
    );
    assert_eq!(queue.validate_external_input(&answer(None, &token, "approve_always")), None);
    assert_eq!(queue.validate_external_input(&answer(None, &token, "3")), None);
}

#[test]
fn decisions_carry_ids_and_summaries() {
    let exec = PendingDecision::new_exec("call-1".to_string(), "ls -l".to_string(), false);
    assert_eq!(exec.decision_id, "exec:call-1");
    assert_eq!(exec.summary, "Approval requested: ls -l");
    let one = PendingDecision::new_patch("p".to_string(), 1);
    assert_eq!(one.decision_id, "patch:p");
    assert_eq!(one.summary, "Codex wants to edit 1 file");
    assert_eq!(
        PendingDecision::new_patch("p".to_string(), 0).summary,
        "Codex wants to edit 0 files"
    );
    assert_eq!(
        PendingDecision::new_patch("p".to_string(), 12).summary,
        "Codex wants to edit 12 files"
    );
    let asked = PendingDecision::new_elicitation("srv".to_string(), RequestId::Integer(-7));
    assert_eq!(asked.decision_id, "elicitation:srv:-7");
    assert_eq!(asked.summary, "Approval requested by srv");
    let asked =
        PendingDecision::new_elicitation("srv".to_string(), RequestId::Text("r1".to_string()));
    assert_eq!(asked.decision_id, "elicitation:srv:r1");
    let patch = PendingDecision::new_patch("call-1".to_string(), 2);
    assert_ne!(patch.decision_id, exec.decision_id);
    let given =
        PendingDecision::exec_with_token("a".to_string(), "b".to_string(), true, "t".to_string());
    assert_eq!(given.token, "t");
}

#[test]
fn every_offered_choice_is_accepted_by_name_and_number() {
    let actions = |decision: &PendingDecision| -> Vec<Option<ExternalApprovalAction>> {
        decision.choices().into_iter().map(|choice| decision.action_for_choice(choice)).collect()
    };
    let exec = PendingDecision::new_exec("a".to_string(), "b".to_string(), false);
    let always = PendingDecision::new_exec("a".to_string(), "b".to_string(), true);
    let patch = PendingDecision::new_patch("a".to_string(), 2);
    let asked = PendingDecision::new_elicitation("s".to_string(), RequestId::Integer(1));
    assert_eq!(exec.choices(), vec!["approve", "deny"]);
    assert_eq!(always.choices(), vec!["approve", "approve_always", "deny"]);
    assert_eq!(patch.choices(), vec!["approve", "approve_for_session", "deny"]);
    assert_eq!(asked.choices(), vec!["accept", "decline", "cancel"]);
    assert_eq!(
        actions(&exec),
        vec![Some(ExternalApprovalAction::Approve), Some(ExternalApprovalAction::Deny)]
    );
    assert_eq!(
        actions(&always),
        vec![
            Some(ExternalApprovalAction::Approve),
            Some(ExternalApprovalAction::ApproveAlways),
            Some(ExternalApprovalAction::Deny)
        ]
    );
    assert_eq!(
        actions(&patch),
        vec![
            Some(ExternalApprovalAction::Approve),
            Some(ExternalApprovalAction::ApproveForSession),
            Some(ExternalApprovalAction::Deny)
        ]
    );
    assert_eq!(
        actions(&asked),
        vec![
            Some(ExternalApprovalAction::Accept),
            Some(ExternalApprovalAction::Decline),
            Some(ExternalApprovalAction::Cancel)
        ]
    );
    for decision in [&exec, &always, &patch, &asked] {
        let by_name = actions(decision);
        let by_number: Vec<Option<ExternalApprovalAction>> = (1..=by_name.len())
            .map(|number| decision.action_for_choice(&number.to_string()))
            .collect();
        assert_eq!(by_name, by_number);
    }
}

#[test]
fn choices_are_resolved() {
    let names = ["approve", "deny"];
    assert_eq!(resolve_choice_alias("  ApProve\n", &names), Some("approve"));
    assert_eq!(resolve_choice_alias("+2", &names), Some("deny"));
    assert_eq!(resolve_choice_alias("02", &names), Some("deny"));
    assert_eq!(resolve_choice_alias("0", &names), None);
    assert_eq!(resolve_choice_alias("3", &names), None);
    assert_eq!(resolve_choice_alias("-1", &names), None);
    assert_eq!(resolve_choice_alias("99999999999999999999999", &names), None);
    assert_eq!(resolve_choice_alias(" \u{3000} ", &names), None);
    assert_eq!(resolve_choice_alias("appr", &names), None);
    assert_eq!(resolve_choice_alias("1", &[]), None);
}

#[test]
fn operations_settle_the_head_alone() {
    let mut queue = DecisionQueue::default();
    queue.enqueue_exec("same".to_string(), "ls".to_string(), false);
    queue.enqueue_patch("same".to_string(), 3);
    queue.enqueue_elicitation("srv".to_string(), RequestId::Text("1".to_string()));

    let exec = Op::ExecApproval { id: "same".to_string() };
    let patch = Op::PatchApproval { id: "same".to_string() };
    let resolve = |request_id: RequestId| Op::ResolveElicitation {
        server_name: "srv".to_string(),
        request_id,
    };
    assert!(!queue.resolve_from_op(&patch));
    assert!(!queue.resolve_from_op(&Op::ExecApproval { id: "other".to_string() }));
    assert!(!queue.resolve_from_op(&Op::Other));
    assert!(queue.resolve_from_op(&exec));
    assert!(!queue.resolve_from_op(&exec));
    assert!(queue.resolve_from_op(&patch));
    assert!(!queue.resolve_from_op(&resolve(RequestId::Integer(1))));
    assert!(queue.resolve_from_op(&resolve(RequestId::Text("1".to_string()))));
    assert!(queue.head().is_none());
    assert!(!queue.resolve_from_op(&exec));
}

#[test]
fn stale_answers_are_rejected() {
    let mut queue = DecisionQueue::default();
    queue.enqueue_exec("a".to_string(), "ls".to_string(), false);
    queue.enqueue_exec("b".to_string(), "ls".to_string(), false);
    let token = queue.head().expect("head decision").token.clone();
    let input = answer(None, &token, "approve");

    assert_eq!(queue.validate_external_input(&input), Some(ExternalApprovalAction::Approve));
    let popped = queue.pop_head().expect("first decision");
    assert_eq!(popped.decision_id, "exec:a");
    assert_eq!(queue.validate_external_input(&input), None);
    assert_eq!(queue.pop_head().expect("second decision").decision_id, "exec:b");
    assert_eq!(queue.validate_external_input(&input), None);
    assert!(queue.pop_head().is_none());
}

#[test]
fn later_decisions_wait() {
    let mut queue = DecisionQueue::default();
    queue.enqueue_patch("a".to_string(), 1);
    let token = queue.head().expect("head decision").token.clone();
    queue.enqueue_exec("b".to_string(), "ls".to_string(), true);
    assert_eq!(queue.head().expect("head decision").decision_id, "patch:a");
    assert_eq!(
        queue.validate_external_input(&answer(None, &token, "approve_for_session")),
        Some(ExternalApprovalAction::ApproveForSession)
    );
}

#[test]
fn control_tokens_are_twelve_digits_and_fresh() {
    let first = generate_control_token();
    let second = generate_control_token();
    for token in [&first, &second] {
        assert_eq!(token.len(), 12);
        assert!(token.chars().all(|c| c.is_ascii_digit() || ('a'..='f').contains(&c)));
    }
    assert_ne!(first, second);
    assert_eq!(control_token_from("0123456789ab4def8123456789abcdef"), "0123456789ab");
}

#[test]
fn control_paths() {
    let dir = decision_control_dir("/home/me");
    assert_eq!(dir.home, "/home/me");
    assert_eq!(dir.names, vec!["decision-control"]);
    let pending = pending_decision_path("/home/me", "s1");
    assert_eq!(pending.names, vec!["decision-control", "s1.pending.json"]);
    let choose = choose_decision_path("/home/me", "s1");
    assert_eq!(choose.names, vec!["decision-control", "s1.choose.json"]);
    assert_ne!(pending, choose);
    assert_ne!(pending, pending_decision_path("/home/me", "s2"));
    assert_eq!(clear_session_control_files("/home/me", "s1"), vec![pending, choose]);
    let temp = pending_temp_path_with("/home/me", "s1", "u");
    assert_eq!(temp.names, vec!["decision-control", "s1.pending.u.tmp"]);
}

#[test]
fn temporary_files_are_fresh() {
    let first = pending_temp_path("/h", "s");
    let second = pending_temp_path("/h", "s");
    assert_ne!(first, second);
    let name = &first.names[1];
    assert!(name.starts_with("s.pending."));
    assert!(name.ends_with(".tmp"));
    let unique = &name["s.pending.".len()..name.len() - ".tmp".len()];
    assert_eq!(unique.len(), 32);
    assert!(unique.chars().all(|c| c.is_ascii_hexdigit() && !c.is_ascii_uppercase()));
    assert_eq!(&unique[12..13], "4");
}

#[test]
fn pending_decisions_are_shown_and_cleared() {
    let decision =
        PendingDecision::exec_with_token("c".to_string(), "ls".to_string(), true, "tok".to_string());
    match sync_pending_decision_file("/h", "s", Some(&decision)) {
        ControlFilePlan::Write { dir, dir_mode, temp_path, file_mode, path, payload } => {
            assert_eq!(dir, decision_control_dir("/h"));
            assert_eq!(dir_mode, 0o700);
            assert_eq!(file_mode, 0o600);
            assert_eq!(temp_path.names[0], "decision-control");
            assert_eq!(path, pending_decision_path("/h", "s"));
            assert_eq!(
                payload,
                PendingDecisionFile {
                    version: 1,
                    session_id: "s".to_string(),
                    decision_id: "exec:c".to_string(),
                    token: "tok".to_string(),
                    summary: "Approval requested: ls".to_string(),
                    choices: vec![
                        "approve".to_string(),
                        "approve_always".to_string(),
                        "deny".to_string()
                    ],
                }
            );
        }
        ControlFilePlan::Remove { .. } => panic!("expected a write"),
    }
    match sync_pending_decision_file("/h", "s", None) {
        ControlFilePlan::Remove { paths } => {
            assert_eq!(paths, clear_session_control_files("/h", "s"));
        }
        ControlFilePlan::Write { .. } => panic!("expected a removal"),
    }
}

#[test]
fn the_pending_file_can_be_answered() {
    let mut queue = DecisionQueue::default();
    queue.enqueue_elicitation("srv".to_string(), RequestId::Integer(3));
    let file =
        PendingDecisionFile::from_pending("s".to_string(), queue.head().expect("head decision"));
    let mut actions = Vec::new();
    for choice in &file.choices {
        let submission = DecisionChoiceFile {
            version: file.version,
            session_id: file.session_id.clone(),
            decision_id: file.decision_id.clone(),
            token: file.token.clone(),
            choice: choice.clone(),
        };
        let input = cli_choice_input(SubmissionOutcome::Submitted { file: submission })
            .expect("an answer");
        assert_eq!(input.source, ExternalDecisionSource::CommandLine);
        actions.push(queue.validate_external_input(&input));
    }
    assert_eq!(
        actions,
        vec![
            Some(ExternalApprovalAction::Accept),
            Some(ExternalApprovalAction::Decline),
            Some(ExternalApprovalAction::Cancel)
        ]
    );
}

#[test]
fn submissions_are_removed_before_they_are_decoded() {
    let finished = |action: SubmissionAction| match action {
        SubmissionAction::Finish { outcome } => outcome,
        other => panic!("unexpected action: {other:?}"),
    };
    assert!(matches!(
        finished(take_choice_submission(SubmissionEvent::Missing)),
        SubmissionOutcome::Nothing
    ));
    assert!(matches!(
        finished(take_choice_submission(SubmissionEvent::ReadFailed)),
        SubmissionOutcome::Failed
    ));
    assert!(matches!(
        take_choice_submission(SubmissionEvent::ReadDone),
        SubmissionAction::RemoveFile
    ));
    for outcome in [RemoveOutcome::Removed, RemoveOutcome::NotFound] {
        assert!(remove_if_exists(outcome));
        assert!(matches!(
            take_choice_submission(SubmissionEvent::RemoveDone { outcome }),
            SubmissionAction::Decode
        ));
    }
    assert!(!remove_if_exists(RemoveOutcome::Failed));
    assert!(matches!(
        finished(take_choice_submission(SubmissionEvent::RemoveDone {
            outcome: RemoveOutcome::Failed
        })),
        SubmissionOutcome::Failed
    ));
    assert!(matches!(
        finished(take_choice_submission(SubmissionEvent::DecodeFailed)),
        SubmissionOutcome::Failed
    ));
    let file = DecisionChoiceFile {
        version: 1,
        session_id: "s".to_string(),
        decision_id: "exec:c".to_string(),
        token: "t".to_string(),
        choice: "deny".to_string(),
    };
    match finished(take_choice_submission(SubmissionEvent::Decoded { file: file.clone() })) {
        SubmissionOutcome::Submitted { file: taken } => assert_eq!(taken, file),
        other => panic!("unexpected outcome: {other:?}"),
    }
    assert_eq!(cli_choice_input(SubmissionOutcome::Nothing), None);
    assert_eq!(cli_choice_input(SubmissionOutcome::Failed), None);
    assert_eq!(
        cli_choice_input(SubmissionOutcome::Submitted { file }),
        Some(answer(Some("exec:c"), "t", "deny"))
    );
}

#[test]
fn the_command_line_poller_always_waits_and_goes_on() {
    let file = DecisionChoiceFile {
        version: 1,
        session_id: "s".to_string(),
        decision_id: "patch:p".to_string(),
        token: "t".to_string(),
        choice: "approve".to_string(),
    };
    let rounds = vec![
        (SubmissionOutcome::Nothing, None),
        (SubmissionOutcome::Failed, None),
        (SubmissionOutcome::Submitted { file }, Some(answer(Some("patch:p"), "t", "approve"))),
    ];
    for (outcome, input) in rounds {
        let round = cli_choice_round(outcome);
        assert_eq!(round.input, input);
        assert_eq!(round.wait_millis, 500);
    }
}

//! What the control files of a session hold, where they are and how they are answered.
use vstd::prelude::*;

use super::decisions::{
    law_answers_pick_from_the_offer, law_offered_choices, lemma_offer, offer, picks,
};
use crate::control_files::{
    choose_decision_path, clear_session_control_files, cli_choice_input, cli_choice_round,
    decision_control_dir, path_views, pending_decision_path, pending_file, pending_temp_path,
    pending_temp_path_with, remove_if_exists, session_paths, sync_pending_decision_file,
    take_choice_submission, temp_path, CliChoiceRound, ControlFilePlan, DecisionChoiceFile,
    PendingDecisionFile, RemoveOutcome, SubmissionAction, SubmissionEvent, SubmissionOutcome,
};
use crate::decision::{action_named, PendingDecision};
use crate::input::{ExternalApprovalAction, ExternalDecisionInput, ExternalDecisionSource};
use crate::paths::{FilePath, FilePathView};
use crate::text::{is_lower_hex, texts};
use crate::token::is_simple_uuid;

verus! {

// ---------------------------------------------------------------------------
// Paths
// ---------------------------------------------------------------------------

/// Whether a path leads from a home directory through these names.
pub open spec fn leads(path: FilePath, home: Seq<char>, names: Seq<Seq<char>>) -> bool {
    &&& path.home@ == home
    &&& path.names@.len() == names.len()
    &&& forall|i: int| 0 <= i < names.len() ==> (#[trigger] path.names@[i])@ == names[i]
}

pub(super) proof fn lemma_leads(path: FilePath, home: Seq<char>, names: Seq<Seq<char>>)
    ensures
        (path@ == FilePathView { home, names }) == leads(path, home, names),
{
    assert(texts(path.names@).len() == path.names@.len());
    assert(forall|i: int|
        0 <= i < path.names@.len() ==> (#[trigger] path.names@[i])@ == texts(path.names@)[i]);
    if leads(path, home, names) {
        assert(texts(path.names@) =~= names);
    }
}

/// A path grows by the name that is joined to it, and by nothing else.
pub proof fn law_paths_grow_by_names(
    home: &str,
    start: FilePath,
    path: FilePath,
    name: &str,
    longer: FilePath,
)
    requires
        call_ensures(FilePath::home, (home,), start),
        call_ensures(FilePath::join, (path, name), longer),
    ensures
        leads(start, home@, Seq::empty()),
        leads(longer, path.home@, texts(path.names@).push(name@)),
{
    lemma_leads(start, home@, Seq::empty());
    lemma_leads(longer, path.home@, texts(path.names@).push(name@));
}

/// The control files of a session lie in one directory and are named by the session: one for the
/// pending decision, one for the answer, and temporary ones that a unique part tells apart.
pub proof fn law_control_paths(
    home: &str,
    session_id: &str,
    unique: &str,
    dir: FilePath,
    pending: FilePath,
    choose: FilePath,
    temp: FilePath,
)
    requires
        call_ensures(decision_control_dir, (home,), dir),
        call_ensures(pending_decision_path, (home, session_id), pending),
        call_ensures(choose_decision_path, (home, session_id), choose),
        call_ensures(pending_temp_path_with, (home, session_id, unique), temp),
    ensures
        leads(dir, home@, seq!["decision-control"@]),
        leads(pending, home@, seq!["decision-control"@, session_id@ + ".pending.json"@]),
        leads(choose, home@, seq!["decision-control"@, session_id@ + ".choose.json"@]),
        leads(
            temp,
            home@,
            seq!["decision-control"@, session_id@ + ".pending."@ + unique@ + ".tmp"@],
        ),
{
    lemma_leads(dir, home@, seq!["decision-control"@]);
    lemma_leads(pending, home@, seq!["decision-control"@, session_id@ + ".pending.json"@]);
    lemma_leads(choose, home@, seq!["decision-control"@, session_id@ + ".choose.json"@]);
    lemma_leads(
        temp,
        home@,
        seq!["decision-control"@, session_id@ + ".pending."@ + unique@ + ".tmp"@],
    );
    assert(dir@.names =~= seq!["decision-control"@]);
    assert(pending@.names =~= seq!["decision-control"@, session_id@ + ".pending.json"@]);
    assert(choose@.names =~= seq!["decision-control"@, session_id@ + ".choose.json"@]);
    assert(temp@.names =~= seq![
        "decision-control"@,
        session_id@ + ".pending."@ + unique@ + ".tmp"@,
    ]);
}

/// The name of a temporary file of a session.
pub open spec fn temporary_name(session_id: Seq<char>, unique: Seq<char>) -> Seq<char> {
    session_id + ".pending."@ + unique + ".tmp"@
}

/// Whether a path is that of a temporary file of a session: between its fixed parts stand 32
/// hexadecimal digits.
pub open spec fn is_temporary(path: FilePath, home: Seq<char>, session_id: Seq<char>) -> bool {
    exists|unique: Seq<char>|
        {
            &&& unique.len() == 32
            &&& forall|i: int| 0 <= i < 32 ==> is_lower_hex(#[trigger] unique[i])
            &&& leads(
                path,
                home,
                seq!["decision-control"@, #[trigger] temporary_name(session_id, unique)],
            )
        }
}

proof fn lemma_temporary(path: FilePath, home: Seq<char>, session_id: Seq<char>)
    requires
        exists|unique: Seq<char>| #[trigger]
            is_simple_uuid(unique) && path@ == temp_path(home, session_id, unique),
    ensures
        is_temporary(path, home, session_id),
{
    let unique = choose|unique: Seq<char>| #[trigger]
        is_simple_uuid(unique) && path@ == temp_path(home, session_id, unique);
    let names = seq!["decision-control"@, temporary_name(session_id, unique)];
    assert(path@.names =~= names);
    lemma_leads(path, home, names);
}

/// A fresh temporary file is one of the session that asks for it.
pub proof fn law_temporary_files(home: &str, session_id: &str, temp: FilePath)
    requires
        call_ensures(pending_temp_path, (home, session_id), temp),
    ensures
        is_temporary(temp, home@, session_id@),
{
    lemma_temporary(temp, home@, session_id@);
}

// ---------------------------------------------------------------------------
// The pending file
// ---------------------------------------------------------------------------

/// Whether a file shows a decision of a session: its version, the session, the decision, its
/// token and summary, and all that the decision offers, in the order of the offer.
pub open spec fn shows(
    file: PendingDecisionFile,
    session_id: Seq<char>,
    decision: PendingDecision,
) -> bool {
    &&& file.version == 1
    &&& file.session_id@ == session_id
    &&& file.decision_id@ == decision.decision_id@
    &&& file.token@ == decision.token@
    &&& file.summary@ == decision.summary@
    &&& file.choices@.len() == offer(decision.kind).len()
    &&& forall|i: int|
        0 <= i < file.choices@.len() ==> (#[trigger] file.choices@[i])@ == offer(decision.kind)[i].0
}

proof fn lemma_shows(file: PendingDecisionFile, session_id: Seq<char>, decision: PendingDecision)
    requires
        file@ == pending_file(session_id, decision@),
    ensures
        shows(file, session_id, decision),
{
    lemma_offer(decision.kind, 0);
    assert(texts(file.choices@).len() == file.choices@.len());
    assert forall|i: int| 0 <= i < file.choices@.len() implies (#[trigger] file.choices@[i])@
        == offer(decision.kind)[i].0 by {
        lemma_offer(decision.kind, i);
        assert(texts(file.choices@)[i] == file.choices@[i]@);
    }
}

/// The file of a pending decision shows the decision with every choice that it offers, in their
/// order, as many as [`PendingDecision::choices`] gives.
pub proof fn law_the_file_shows_the_decision(
    session_id: String,
    decision: PendingDecision,
    choices: Vec<&'static str>,
    file: PendingDecisionFile,
)
    requires
        call_ensures(PendingDecision::choices, (&decision,), choices),
        call_ensures(PendingDecisionFile::from_pending, (session_id, &decision), file),
    ensures
        shows(file, session_id@, decision),
        file.choices@.len() == choices@.len(),
        forall|i: int|
            0 <= i < choices@.len() ==> (#[trigger] file.choices@[i])@ == (#[trigger] choices@[i])@,
{
    lemma_shows(file, session_id@, decision);
    law_offered_choices(decision, choices);
}

/// Every action that an answer to a decision can lead to is the action of a choice that stands in
/// the file: by reading it, each of them can be had.
pub proof fn law_the_file_offers_every_action(
    session_id: String,
    decision: PendingDecision,
    file: PendingDecisionFile,
    answer: &str,
    action: ExternalApprovalAction,
)
    requires
        call_ensures(PendingDecisionFile::from_pending, (session_id, &decision), file),
        call_ensures(PendingDecision::action_for_choice, (&decision, answer), Some(action)),
    ensures
        exists|i: int|
            {
                &&& 0 <= i < file.choices@.len()
                &&& #[trigger] action_named(file.choices@[i]@) == Some(action)
            },
{
    lemma_shows(file, session_id@, decision);
    law_answers_pick_from_the_offer(decision, answer, Some(action), action);
    let i = choose|i: int| #[trigger]
        picks(decision.kind, answer@, i) && offer(decision.kind)[i].1 == action;
    lemma_offer(decision.kind, i);
    assert(action_named(file.choices@[i]@) == Some(action));
}

/// With a pending decision the plan is to show it: in the control directory, for its owner alone,
/// by way of a temporary file. Without, it is to remove both control files of the session, the one
/// that shows a decision and the one that answers it.
pub proof fn law_the_files_follow_the_queue(
    home: &str,
    session_id: &str,
    pending: Option<&PendingDecision>,
    plan: ControlFilePlan,
    cleared: Vec<FilePath>,
)
    requires
        call_ensures(sync_pending_decision_file, (home, session_id, pending), plan),
        call_ensures(clear_session_control_files, (home, session_id), cleared),
    ensures
        pending matches Some(decision) ==> {
            &&& plan matches ControlFilePlan::Write {
                dir,
                dir_mode,
                temp_path,
                file_mode,
                path,
                payload,
            }
            &&& leads(dir, home@, seq!["decision-control"@])
            &&& dir_mode == 0o700
            &&& is_temporary(temp_path, home@, session_id@)
            &&& file_mode == 0o600
            &&& leads(path, home@, seq!["decision-control"@, session_id@ + ".pending.json"@])
            &&& shows(payload, session_id@, *decision)
        },
        pending is None ==> {
            &&& plan matches ControlFilePlan::Remove { paths }
            &&& are_the_control_files(paths@, home@, session_id@)
        },
        are_the_control_files(cleared@, home@, session_id@),
{
    if let ControlFilePlan::Write { dir, temp_path, path, payload, .. } = plan {
        if let Some(decision) = pending {
            lemma_leads(dir, home@, seq!["decision-control"@]);
            assert(dir@.names =~= seq!["decision-control"@]);
            lemma_temporary(temp_path, home@, session_id@);
            let names = seq!["decision-control"@, session_id@ + ".pending.json"@];
            lemma_leads(path, home@, names);
            assert(path@.names =~= names);
            lemma_shows(payload, session_id@, *decision);
        }
    }
    if let ControlFilePlan::Remove { paths } = plan {
        if pending is None {
            lemma_control_files(paths@, home@, session_id@);
        }
    }
    lemma_control_files(cleared@, home@, session_id@);
}

/// Whether some paths are those of the pending file and of the answer of a session.
pub open spec fn are_the_control_files(
    paths: Seq<FilePath>,
    home: Seq<char>,
    session_id: Seq<char>,
) -> bool {
    &&& paths.len() == 2
    &&& leads(paths[0], home, seq!["decision-control"@, session_id + ".pending.json"@])
    &&& leads(paths[1], home, seq!["decision-control"@, session_id + ".choose.json"@])
}

proof fn lemma_control_files(paths: Seq<FilePath>, home: Seq<char>, session_id: Seq<char>)
    requires
        path_views(paths) == session_paths(home, session_id),
    ensures
        are_the_control_files(paths, home, session_id),
{
    let views = path_views(paths);
    assert(views.len() == paths.len());
    assert(views[0] == paths[0]@);
    assert(views[1] == paths[1]@);
    let pending = seq!["decision-control"@, session_id + ".pending.json"@];
    let choose = seq!["decision-control"@, session_id + ".choose.json"@];
    assert(paths[0]@.names =~= pending);
    assert(paths[1]@.names =~= choose);
    lemma_leads(paths[0], home, pending);
    lemma_leads(paths[1], home, choose);
}

// ---------------------------------------------------------------------------
// Answers
// ---------------------------------------------------------------------------

/// A file that is not there counts as removed; only a failure of another kind is one.
pub proof fn law_removed_or_never_there(outcome: RemoveOutcome, gone: bool)
    requires
        call_ensures(remove_if_exists, (outcome,), gone),
    ensures
        gone == (outcome is Removed || outcome is NotFound),
{
}

/// Whether an action ends the way to an answer with an outcome.
pub open spec fn ends(action: SubmissionAction, outcome: SubmissionOutcome) -> bool {
    action matches SubmissionAction::Finish { outcome: end } && end == outcome
}

/// A file that was read is removed, and one that is gone is decoded. What was decoded is handed
/// over as it is. Without a file there is nothing, and every failure ends the way.
pub proof fn law_the_way_to_an_answer(event: SubmissionEvent, action: SubmissionAction)
    requires
        call_ensures(take_choice_submission, (event,), action),
    ensures
        match event {
            SubmissionEvent::Missing => ends(action, SubmissionOutcome::Nothing),
            SubmissionEvent::ReadFailed => ends(action, SubmissionOutcome::Failed),
            SubmissionEvent::ReadDone => action is RemoveFile,
            SubmissionEvent::RemoveDone { outcome: RemoveOutcome::Failed } => ends(
                action,
                SubmissionOutcome::Failed,
            ),
            SubmissionEvent::RemoveDone { .. } => action is Decode,
            SubmissionEvent::DecodeFailed => ends(action, SubmissionOutcome::Failed),
            SubmissionEvent::Decoded { file } => ends(
                action,
                SubmissionOutcome::Submitted { file },
            ),
        },
{
}

/// Whether an input is the one that an answer on the command line stands for: its decision, its
/// token and its choice as they were written.
pub open spec fn carries(input: Option<ExternalDecisionInput>, file: DecisionChoiceFile) -> bool {
    &&& input matches Some(given)
    &&& given.decision_id matches Some(id)
    &&& id@ == file.decision_id@
    &&& given.token@ == file.token@
    &&& given.choice@ == file.choice@
    &&& given.source == ExternalDecisionSource::CommandLine
}

/// An answer on the command line comes in as it was written, and nothing else comes in. Whatever
/// came, the next look is half a second later.
pub proof fn law_answers_come_in_as_written(
    outcome: SubmissionOutcome,
    input: Option<ExternalDecisionInput>,
    round: CliChoiceRound,
)
    requires
        call_ensures(cli_choice_input, (outcome,), input),
        call_ensures(cli_choice_round, (outcome,), round),
    ensures
        outcome matches SubmissionOutcome::Submitted { file } ==> carries(input, file) && carries(
            round.input,
            file,
        ),
        outcome !is Submitted ==> input is None && round.input is None,
        round.wait_millis == 500,
{
}

} // verus!

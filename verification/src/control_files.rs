//! The files through which another process sees the pending decision of a session and answers
//! it.
use vstd::prelude::*;

use crate::decision::{choice_names, PendingDecision, PendingDecisionView};
use crate::input::{DecisionInputView, ExternalDecisionInput, ExternalDecisionSource};
use crate::paths::{home_dir, FilePath, FilePathView};
use crate::text::{concatenate, slices, texts};
use crate::token::{is_simple_uuid, random_simple_uuid};

verus! {

/// The version of the file format.
pub const FILE_FORMAT_VERSION: u32 = 1;

/// The permissions of the control directory: for its owner alone.
pub const CONTROL_DIR_MODE: u32 = 0o700;

/// The permissions of a control file: for its owner alone.
pub const CONTROL_FILE_MODE: u32 = 0o600;

/// How long the poller waits before it looks for the next answer.
pub const CHOICE_POLL_INTERVAL_MILLIS: u64 = 500;

/// What the file of a pending decision holds.
#[derive(Debug, Clone, PartialEq, Eq)]
pub struct PendingDecisionFile {
    pub version: u32,
    pub session_id: String,
    pub decision_id: String,
    pub token: String,
    pub summary: String,
    pub choices: Vec<String>,
}

/// The contents of a [`PendingDecisionFile`].
#[verifier::ext_equal]
pub struct PendingFileView {
    pub version: u32,
    pub session_id: Seq<char>,
    pub decision_id: Seq<char>,
    pub token: Seq<char>,
    pub summary: Seq<char>,
    pub choices: Seq<Seq<char>>,
}

impl View for PendingDecisionFile {
    type V = PendingFileView;

    open spec fn view(&self) -> PendingFileView {
        PendingFileView {
            version: self.version,
            session_id: self.session_id@,
            decision_id: self.decision_id@,
            token: self.token@,
            summary: self.summary@,
            choices: texts(self.choices@),
        }
    }
}

/// What the file of a pending decision has to hold.
pub open spec fn pending_file(
    session_id: Seq<char>,
    pending: PendingDecisionView,
) -> PendingFileView {
    PendingFileView {
        version: FILE_FORMAT_VERSION,
        session_id,
        decision_id: pending.decision_id,
        token: pending.token,
        summary: pending.summary,
        choices: choice_names(pending.kind),
    }
}

impl PendingDecisionFile {
    /// The file of a pending decision.
    pub fn from_pending(session_id: String, pending: &PendingDecision) -> (r: PendingDecisionFile)
        ensures
            r@ == pending_file(session_id@, pending@),
    {
        let names = pending.choices();
        let mut choices: Vec<String> = Vec::new();
        for i in 0..names.len()
            invariant
                texts(choices@) == slices(names@).take(i as int),
        {
            let ghost before = texts(choices@);
            choices.push(names[i].to_owned());
            assert(texts(choices@) =~= before.push(slices(names@)[i as int]));
            assert(texts(choices@) =~= slices(names@).take(i as int + 1));
        }
        assert(slices(names@).take(names@.len() as int) =~= slices(names@));
        PendingDecisionFile {
            version: FILE_FORMAT_VERSION,
            session_id,
            decision_id: pending.decision_id.clone(),
            token: pending.token.clone(),
            summary: pending.summary.clone(),
            choices,
        }
    }
}

/// What the file of an answer holds.
#[derive(Debug, Clone, PartialEq, Eq)]
pub struct DecisionChoiceFile {
    pub version: u32,
    pub session_id: String,
    pub decision_id: String,
    pub token: String,
    pub choice: String,
}

// ---------------------------------------------------------------------------
// Paths
// ---------------------------------------------------------------------------

/// The control directory.
pub open spec fn control_dir(home: Seq<char>) -> FilePathView {
    home_dir(home).join("decision-control"@)
}

/// The file that shows the pending decision of a session.
pub open spec fn pending_path(home: Seq<char>, session_id: Seq<char>) -> FilePathView {
    control_dir(home).join(session_id + ".pending.json"@)
}

/// The file that holds the answer for a session.
pub open spec fn choose_path(home: Seq<char>, session_id: Seq<char>) -> FilePathView {
    control_dir(home).join(session_id + ".choose.json"@)
}

/// The file in which a pending decision is written before it takes its place.
pub open spec fn temp_path(
    home: Seq<char>,
    session_id: Seq<char>,
    unique: Seq<char>,
) -> FilePathView {
    control_dir(home).join(session_id + ".pending."@ + unique + ".tmp"@)
}

/// The control directory.
pub fn decision_control_dir(codex_home: &str) -> (r: FilePath)
    ensures
        r@ == control_dir(codex_home@),
{
    FilePath::home(codex_home).join("decision-control")
}

/// The file that shows the pending decision of a session.
pub fn pending_decision_path(codex_home: &str, session_id: &str) -> (r: FilePath)
    ensures
        r@ == pending_path(codex_home@, session_id@),
{
    decision_control_dir(codex_home).join(concatenate(session_id, ".pending.json").as_str())
}

/// The file that holds the answer for a session.
pub fn choose_decision_path(codex_home: &str, session_id: &str) -> (r: FilePath)
    ensures
        r@ == choose_path(codex_home@, session_id@),
{
    decision_control_dir(codex_home).join(concatenate(session_id, ".choose.json").as_str())
}

/// The temporary file for a pending decision, under a given unique part. Its name is that of the
/// pending file with the last extension replaced.
pub fn pending_temp_path_with(codex_home: &str, session_id: &str, unique: &str) -> (r: FilePath)
    ensures
        r@ == temp_path(codex_home@, session_id@, unique@),
{
    let mut name = concatenate(session_id, ".pending.");
    name.append(unique);
    name.append(".tmp");
    decision_control_dir(codex_home).join(name.as_str())
}

/// A fresh temporary file for a pending decision.
pub fn pending_temp_path(codex_home: &str, session_id: &str) -> (r: FilePath)
    ensures
        exists|unique: Seq<char>| #[trigger]
            is_simple_uuid(unique) && r@ == temp_path(codex_home@, session_id@, unique),
{
    let unique = random_simple_uuid();
    pending_temp_path_with(codex_home, session_id, unique.as_str())
}

// ---------------------------------------------------------------------------
// Writing and removing
// ---------------------------------------------------------------------------

/// What has to be done so that the control files show the state of the queue.
#[derive(Debug)]
pub enum ControlFilePlan {
    /// Make the directory if it is not there and give it its permissions. Write the payload to
    /// the temporary file, which must be new, and move that to its place.
    Write {
        dir: FilePath,
        dir_mode: u32,
        temp_path: FilePath,
        file_mode: u32,
        path: FilePath,
        payload: PendingDecisionFile,
    },
    /// Remove these files, in order, up to the first that cannot be removed.
    Remove { paths: Vec<FilePath> },
}

/// The contents of a list of paths.
pub open spec fn path_views(paths: Seq<FilePath>) -> Seq<FilePathView> {
    paths.map_values(|path: FilePath| path@)
}

/// The control files of a session.
pub open spec fn session_paths(home: Seq<char>, session_id: Seq<char>) -> Seq<FilePathView> {
    seq![pending_path(home, session_id), choose_path(home, session_id)]
}

/// Whether a plan shows the pending decision of a session.
pub open spec fn shows_pending(
    plan: ControlFilePlan,
    home: Seq<char>,
    session_id: Seq<char>,
    pending: Option<PendingDecisionView>,
) -> bool {
    match pending {
        Some(decision) => {
            &&& plan matches ControlFilePlan::Write {
                dir,
                dir_mode,
                temp_path: temp,
                file_mode,
                path,
                payload,
            }
            &&& dir@ == control_dir(home)
            &&& dir_mode == CONTROL_DIR_MODE
            &&& exists|unique: Seq<char>| #[trigger]
                is_simple_uuid(unique) && temp@ == temp_path(home, session_id, unique)
            &&& file_mode == CONTROL_FILE_MODE
            &&& path@ == pending_path(home, session_id)
            &&& payload@ == pending_file(session_id, decision)
        },
        None => {
            &&& plan matches ControlFilePlan::Remove { paths }
            &&& path_views(paths@) == session_paths(home, session_id)
        },
    }
}

/// The control files of a session, all of which are to be removed, in this order, up to the
/// first that cannot be removed.
pub fn clear_session_control_files(codex_home: &str, session_id: &str) -> (r: Vec<FilePath>)
    ensures
        path_views(r@) == session_paths(codex_home@, session_id@),
{
    let mut paths: Vec<FilePath> = Vec::new();
    paths.push(pending_decision_path(codex_home, session_id));
    paths.push(choose_decision_path(codex_home, session_id));
    assert(path_views(paths@) =~= session_paths(codex_home@, session_id@));
    paths
}

/// The plan that makes the control files of a session show its pending decision, or that there
/// is none.
pub fn sync_pending_decision_file(
    codex_home: &str,
    session_id: &str,
    pending: Option<&PendingDecision>,
) -> (r: ControlFilePlan)
    ensures
        shows_pending(
            r,
            codex_home@,
            session_id@,
            match pending {
                Some(decision) => Some(decision@),
                None => None,
            },
        ),
{
    match pending {
        Some(decision) => ControlFilePlan::Write {
            dir: decision_control_dir(codex_home),
            dir_mode: CONTROL_DIR_MODE,
            temp_path: pending_temp_path(codex_home, session_id),
            file_mode: CONTROL_FILE_MODE,
            path: pending_decision_path(codex_home, session_id),
            payload: PendingDecisionFile::from_pending(session_id.to_owned(), decision),
        },
        None => ControlFilePlan::Remove {
            paths: clear_session_control_files(codex_home, session_id),
        },
    }
}

/// How an attempt to remove a file ended.
#[derive(Debug, Clone, Copy, PartialEq, Eq, Structural)]
pub enum RemoveOutcome {
    Removed,
    NotFound,
    Failed,
}

/// Whether the file is gone: it was removed, or was not there at all.
pub fn remove_if_exists(outcome: RemoveOutcome) -> (r: bool)
    ensures
        r == (outcome != RemoveOutcome::Failed),
{
    match outcome {
        RemoveOutcome::Removed => true,
        RemoveOutcome::NotFound => true,
        RemoveOutcome::Failed => false,
    }
}

// ---------------------------------------------------------------------------
// Answers
// ---------------------------------------------------------------------------

/// What happened on the way to an answer.
#[derive(Debug)]
pub enum SubmissionEvent {
    Missing,
    ReadFailed,
    ReadDone,
    RemoveDone { outcome: RemoveOutcome },
    DecodeFailed,
    Decoded { file: DecisionChoiceFile },
}

/// How the way to an answer ended.
#[derive(Debug)]
pub enum SubmissionOutcome {
    Nothing,
    Failed,
    Submitted { file: DecisionChoiceFile },
}

/// What is to be done next on the way to an answer.
#[derive(Debug)]
pub enum SubmissionAction {
    RemoveFile,
    Decode,
    Finish { outcome: SubmissionOutcome },
}

/// The next step on the way to an answer. The file is read, then removed, and only then decoded,
/// so that an answer is taken once and a malformed one does not come back.
pub open spec fn submission_step(event: SubmissionEvent) -> SubmissionAction {
    match event {
        SubmissionEvent::Missing => SubmissionAction::Finish {
            outcome: SubmissionOutcome::Nothing,
        },
        SubmissionEvent::ReadFailed => SubmissionAction::Finish {
            outcome: SubmissionOutcome::Failed,
        },
        SubmissionEvent::ReadDone => SubmissionAction::RemoveFile,
        SubmissionEvent::RemoveDone { outcome } => if outcome == RemoveOutcome::Failed {
            SubmissionAction::Finish { outcome: SubmissionOutcome::Failed }
        } else {
            SubmissionAction::Decode
        },
        SubmissionEvent::DecodeFailed => SubmissionAction::Finish {
            outcome: SubmissionOutcome::Failed,
        },
        SubmissionEvent::Decoded { file } => SubmissionAction::Finish {
            outcome: SubmissionOutcome::Submitted { file },
        },
    }
}

/// The next step on the way to an answer.
pub fn take_choice_submission(event: SubmissionEvent) -> (r: SubmissionAction)
    ensures
        r == submission_step(event),
{
    match event {
        SubmissionEvent::Missing => SubmissionAction::Finish {
            outcome: SubmissionOutcome::Nothing,
        },
        SubmissionEvent::ReadFailed => SubmissionAction::Finish {
            outcome: SubmissionOutcome::Failed,
        },
        SubmissionEvent::ReadDone => SubmissionAction::RemoveFile,
        SubmissionEvent::RemoveDone { outcome } => {
            if remove_if_exists(outcome) {
                SubmissionAction::Decode
            } else {
                SubmissionAction::Finish { outcome: SubmissionOutcome::Failed }
            }
        },
        SubmissionEvent::DecodeFailed => SubmissionAction::Finish {
            outcome: SubmissionOutcome::Failed,
        },
        SubmissionEvent::Decoded { file } => SubmissionAction::Finish {
            outcome: SubmissionOutcome::Submitted { file },
        },
    }
}

/// The input that an answer on the command line stands for.
pub open spec fn submitted_input(file: DecisionChoiceFile) -> DecisionInputView {
    DecisionInputView {
        decision_id: Some(file.decision_id@),
        token: file.token@,
        choice: file.choice@,
        source: ExternalDecisionSource::CommandLine,
    }
}

/// The input that an answer on the command line stands for, where there is one.
pub fn cli_choice_input(outcome: SubmissionOutcome) -> (r: Option<ExternalDecisionInput>)
    ensures
        match outcome {
            SubmissionOutcome::Submitted { file } => r is Some && r->0@ == submitted_input(file),
            _ => r is None,
        },
{
    match outcome {
        SubmissionOutcome::Submitted { file } => Some(
            ExternalDecisionInput {
                decision_id: Some(file.decision_id),
                token: file.token,
                choice: file.choice,
                source: ExternalDecisionSource::CommandLine,
            },
        ),
        _ => None,
    }
}

/// What a round of the command line poller makes the application do: hand over the input, where
/// there is one, then wait, then look for the next answer.
#[derive(Debug)]
pub struct CliChoiceRound {
    pub input: Option<ExternalDecisionInput>,
    pub wait_millis: u64,
}

/// Takes what came of a look for an answer. Whatever it was, the poller waits and goes on.
pub fn cli_choice_round(outcome: SubmissionOutcome) -> (r: CliChoiceRound)
    ensures
        match outcome {
            SubmissionOutcome::Submitted { file } => {
                r.input is Some && r.input->0@ == submitted_input(file)
            },
            _ => r.input is None,
        },
        r.wait_millis == CHOICE_POLL_INTERVAL_MILLIS,
{
    CliChoiceRound {
        input: cli_choice_input(outcome),
        wait_millis: CHOICE_POLL_INTERVAL_MILLIS,
    }
}

} // verus!

//! Pending decisions, the queue that holds them and the answers that settle them.
use std::collections::VecDeque;

use vstd::prelude::*;

use crate::input::{
    DecisionInputView, ExternalApprovalAction, ExternalDecisionInput, Op, RequestId, RequestIdView,
};
use crate::text::{
    concatenate, decimal, decimal_usize, lowered, parse_usize, same_text, slices,
    to_ascii_lowercase, trim, trimmed, usize_value,
};
use crate::token::{generate_control_token, is_control_token};

verus! {

/// What a pending decision is about.
#[derive(Debug, Clone)]
pub enum PendingDecisionKind {
    Exec { id: String, allow_always: bool },
    Patch { id: String },
    Elicitation { server_name: String, request_id: RequestId },
}

/// The contents of a [`PendingDecisionKind`].
#[verifier::ext_equal]
pub enum DecisionKindView {
    Exec { id: Seq<char>, allow_always: bool },
    Patch { id: Seq<char> },
    Elicitation { server_name: Seq<char>, request_id: RequestIdView },
}

impl View for PendingDecisionKind {
    type V = DecisionKindView;

    open spec fn view(&self) -> DecisionKindView {
        match self {
            PendingDecisionKind::Exec { id, allow_always } => DecisionKindView::Exec {
                id: id@,
                allow_always: *allow_always,
            },
            PendingDecisionKind::Patch { id } => DecisionKindView::Patch { id: id@ },
            PendingDecisionKind::Elicitation {
                server_name,
                request_id,
            } => DecisionKindView::Elicitation {
                server_name: server_name@,
                request_id: request_id@,
            },
        }
    }
}

/// A decision that waits for an answer.
#[derive(Debug, Clone)]
pub struct PendingDecision {
    pub decision_id: String,
    pub token: String,
    pub summary: String,
    pub kind: PendingDecisionKind,
}

/// The contents of a [`PendingDecision`].
#[verifier::ext_equal]
pub struct PendingDecisionView {
    pub decision_id: Seq<char>,
    pub token: Seq<char>,
    pub summary: Seq<char>,
    pub kind: DecisionKindView,
}

impl View for PendingDecision {
    type V = PendingDecisionView;

    open spec fn view(&self) -> PendingDecisionView {
        PendingDecisionView {
            decision_id: self.decision_id@,
            token: self.token@,
            summary: self.summary@,
            kind: self.kind@,
        }
    }
}

/// The decision whether a command may run.
pub open spec fn exec_decision(
    id: Seq<char>,
    command: Seq<char>,
    allow_always: bool,
    token: Seq<char>,
) -> PendingDecisionView {
    PendingDecisionView {
        decision_id: "exec:"@ + id,
        token,
        summary: "Approval requested: "@ + command,
        kind: DecisionKindView::Exec { id, allow_always },
    }
}

/// How many files a patch touches, in words.
pub open spec fn file_count(num_files: nat) -> Seq<char> {
    if num_files == 1 {
        "1 file"@
    } else {
        decimal(num_files) + " files"@
    }
}

/// The decision whether files may be edited.
pub open spec fn patch_decision(
    id: Seq<char>,
    num_files: nat,
    token: Seq<char>,
) -> PendingDecisionView {
    PendingDecisionView {
        decision_id: "patch:"@ + id,
        token,
        summary: "Codex wants to edit "@ + file_count(num_files),
        kind: DecisionKindView::Patch { id },
    }
}

/// The decision that a tool server asks for.
pub open spec fn elicitation_decision(
    server_name: Seq<char>,
    request_id: RequestIdView,
    token: Seq<char>,
) -> PendingDecisionView {
    PendingDecisionView {
        decision_id: "elicitation:"@ + server_name + ":"@ + request_id.shown(),
        token,
        summary: "Approval requested by "@ + server_name,
        kind: DecisionKindView::Elicitation { server_name, request_id },
    }
}

/// The choices that a decision offers, in the order in which they are numbered from one.
pub open spec fn choice_names(kind: DecisionKindView) -> Seq<Seq<char>> {
    match kind {
        DecisionKindView::Exec { allow_always, .. } => if allow_always {
            seq!["approve"@, "approve_always"@, "deny"@]
        } else {
            seq!["approve"@, "deny"@]
        },
        DecisionKindView::Patch { .. } => seq!["approve"@, "approve_for_session"@, "deny"@],
        DecisionKindView::Elicitation { .. } => seq!["accept"@, "decline"@, "cancel"@],
    }
}

/// The action that a choice stands for.
pub open spec fn action_named(name: Seq<char>) -> Option<ExternalApprovalAction> {
    if name == "approve"@ {
        Some(ExternalApprovalAction::Approve)
    } else if name == "approve_always"@ {
        Some(ExternalApprovalAction::ApproveAlways)
    } else if name == "approve_for_session"@ {
        Some(ExternalApprovalAction::ApproveForSession)
    } else if name == "deny"@ {
        Some(ExternalApprovalAction::Deny)
    } else if name == "accept"@ {
        Some(ExternalApprovalAction::Accept)
    } else if name == "decline"@ {
        Some(ExternalApprovalAction::Decline)
    } else if name == "cancel"@ {
        Some(ExternalApprovalAction::Cancel)
    } else {
        None
    }
}

/// The canonical choice that a text selects. White space around it and the case of its letters
/// do not matter. A number selects by position, counted from one; any other text selects the
/// choice of that name.
pub open spec fn resolved_choice(choice: Seq<char>, canonical: Seq<Seq<char>>) -> Option<
    Seq<char>,
> {
    let normalized = lowered(trimmed(choice));
    if normalized.len() == 0 {
        None
    } else {
        match usize_value(normalized) {
            Some(number) => if 1 <= number <= canonical.len() {
                Some(canonical[number - 1])
            } else {
                None
            },
            None => if canonical.contains(normalized) {
                Some(normalized)
            } else {
                None
            },
        }
    }
}

/// The action that an answer selects in a decision.
pub open spec fn chosen_action(kind: DecisionKindView, choice: Seq<char>) -> Option<
    ExternalApprovalAction,
> {
    match resolved_choice(choice, choice_names(kind)) {
        Some(name) => action_named(name),
        None => None,
    }
}

/// Whether an operation settles a decision.
pub open spec fn settles(kind: DecisionKindView, op: Op) -> bool {
    match (kind, op) {
        (DecisionKindView::Exec { id, .. }, Op::ExecApproval { id: op_id }) => op_id@ == id,
        (DecisionKindView::Patch { id }, Op::PatchApproval { id: op_id }) => op_id@ == id,
        (
            DecisionKindView::Elicitation { server_name, request_id },
            Op::ResolveElicitation { server_name: op_server_name, request_id: op_request_id },
        ) => op_server_name@ == server_name && op_request_id@ == request_id,
        _ => false,
    }
}

/// The canonical choice that a text selects.
pub fn resolve_choice_alias(choice: &str, canonical_choices: &[&'static str]) -> (r: Option<
    &'static str,
>)
    ensures
        match r {
            Some(name) => resolved_choice(choice@, slices(canonical_choices@)) == Some(name@),
            None => resolved_choice(choice@, slices(canonical_choices@)) is None,
        },
{
    let ghost names = slices(canonical_choices@);
    let normalized = to_ascii_lowercase(trim(choice).as_str());
    if normalized.as_str().is_empty() {
        return None;
    }
    if let Some(number) = parse_usize(normalized.as_str()) {
        if number == 0 || number > canonical_choices.len() {
            return None;
        }
        assert(names[number - 1] == canonical_choices@[number - 1]@);
        return Some(canonical_choices[number - 1]);
    }
    for i in 0..canonical_choices.len()
        invariant
            names == slices(canonical_choices@),
            normalized@ == lowered(trimmed(choice@)),
            normalized@.len() > 0,
            usize_value(normalized@) is None,
            forall|j: int| 0 <= j < i ==> #[trigger] names[j] != normalized@,
    {
        assert(names[i as int] == canonical_choices@[i as int]@);
        if same_text(canonical_choices[i], normalized.as_str()) {
            return Some(canonical_choices[i]);
        }
    }
    None
}

/// The action that a choice stands for.
fn action_of(name: &str) -> (r: Option<ExternalApprovalAction>)
    ensures
        r == action_named(name@),
{
    if same_text(name, "approve") {
        Some(ExternalApprovalAction::Approve)
    } else if same_text(name, "approve_always") {
        Some(ExternalApprovalAction::ApproveAlways)
    } else if same_text(name, "approve_for_session") {
        Some(ExternalApprovalAction::ApproveForSession)
    } else if same_text(name, "deny") {
        Some(ExternalApprovalAction::Deny)
    } else if same_text(name, "accept") {
        Some(ExternalApprovalAction::Accept)
    } else if same_text(name, "decline") {
        Some(ExternalApprovalAction::Decline)
    } else if same_text(name, "cancel") {
        Some(ExternalApprovalAction::Cancel)
    } else {
        None
    }
}

impl PendingDecision {
    /// A decision about a command, under a fresh token.
    pub fn new_exec(id: String, command: String, allow_always: bool) -> (r: PendingDecision)
        ensures
            is_control_token(r@.token),
            r@ == exec_decision(id@, command@, allow_always, r@.token),
    {
        PendingDecision::exec_with_token(id, command, allow_always, generate_control_token())
    }

    /// A decision about a command, under a given token.
    pub fn exec_with_token(id: String, command: String, allow_always: bool, token: String) -> (r:
        PendingDecision)
        ensures
            r@ == exec_decision(id@, command@, allow_always, token@),
    {
        PendingDecision {
            decision_id: concatenate("exec:", id.as_str()),
            token,
            summary: concatenate("Approval requested: ", command.as_str()),
            kind: PendingDecisionKind::Exec { id, allow_always },
        }
    }

    /// A decision about a patch, under a fresh token.
    pub fn new_patch(id: String, num_files: usize) -> (r: PendingDecision)
        ensures
            is_control_token(r@.token),
            r@ == patch_decision(id@, num_files as nat, r@.token),
    {
        PendingDecision::patch_with_token(id, num_files, generate_control_token())
    }

    /// A decision about a patch, under a given token.
    pub fn patch_with_token(id: String, num_files: usize, token: String) -> (r: PendingDecision)
        ensures
            r@ == patch_decision(id@, num_files as nat, token@),
    {
        let target = if num_files == 1 {
            "1 file".to_owned()
        } else {
            concatenate(decimal_usize(num_files).as_str(), " files")
        };
        PendingDecision {
            decision_id: concatenate("patch:", id.as_str()),
            token,
            summary: concatenate("Codex wants to edit ", target.as_str()),
            kind: PendingDecisionKind::Patch { id },
        }
    }

    /// A decision that a tool server asks for, under a fresh token.
    pub fn new_elicitation(server_name: String, request_id: RequestId) -> (r: PendingDecision)
        ensures
            is_control_token(r@.token),
            r@ == elicitation_decision(server_name@, request_id@, r@.token),
    {
        PendingDecision::elicitation_with_token(server_name, request_id, generate_control_token())
    }

    /// A decision that a tool server asks for, under a given token.
    pub fn elicitation_with_token(server_name: String, request_id: RequestId, token: String) -> (r:
        PendingDecision)
        ensures
            r@ == elicitation_decision(server_name@, request_id@, token@),
    {
        let mut decision_id = concatenate("elicitation:", server_name.as_str());
        decision_id.append(":");
        decision_id.append(request_id.to_text().as_str());
        PendingDecision {
            decision_id,
            token,
            summary: concatenate("Approval requested by ", server_name.as_str()),
            kind: PendingDecisionKind::Elicitation { server_name, request_id },
        }
    }

    /// The choices that the decision offers.
    pub fn choices(&self) -> (r: Vec<&'static str>)
        ensures
            slices(r@) == choice_names(self@.kind),
    {
        let r: Vec<&'static str> = match &self.kind {
            PendingDecisionKind::Exec { allow_always, .. } => {
                if *allow_always {
                    vec!["approve", "approve_always", "deny"]
                } else {
                    vec!["approve", "deny"]
                }
            },
            PendingDecisionKind::Patch { .. } => vec!["approve", "approve_for_session", "deny"],
            PendingDecisionKind::Elicitation { .. } => vec!["accept", "decline", "cancel"],
        };
        assert(slices(r@) =~= choice_names(self@.kind));
        r
    }

    /// Whether an operation settles the decision.
    pub fn matches_op(&self, op: &Op) -> (r: bool)
        ensures
            r == settles(self@.kind, *op),
    {
        match (&self.kind, op) {
            (PendingDecisionKind::Exec { id, .. }, Op::ExecApproval { id: op_id }) => same_text(
                op_id.as_str(),
                id.as_str(),
            ),
            (PendingDecisionKind::Patch { id }, Op::PatchApproval { id: op_id }) => same_text(
                op_id.as_str(),
                id.as_str(),
            ),
            (
                PendingDecisionKind::Elicitation { server_name, request_id },
                Op::ResolveElicitation { server_name: op_server_name, request_id: op_request_id },
            ) => same_text(op_server_name.as_str(), server_name.as_str()) && op_request_id.same(
                request_id,
            ),
            _ => false,
        }
    }

    /// The action that an answer selects.
    pub fn action_for_choice(&self, choice: &str) -> (r: Option<ExternalApprovalAction>)
        ensures
            r == chosen_action(self@.kind, choice@),
    {
        let allowed = self.choices();
        match resolve_choice_alias(choice, allowed.as_slice()) {
            Some(name) => action_of(name),
            None => None,
        }
    }
}

/// The decisions that wait for an answer, the oldest first. Only the head can be answered.
#[derive(Debug)]
pub struct DecisionQueue {
    pending: VecDeque<PendingDecision>,
}

impl View for DecisionQueue {
    type V = Seq<PendingDecisionView>;

    closed spec fn view(&self) -> Seq<PendingDecisionView> {
        self.pending@.map_values(|decision: PendingDecision| decision@)
    }
}

/// The identifier of a decision of some kind.
pub open spec fn decision_id_of(kind: DecisionKindView) -> Seq<char> {
    match kind {
        DecisionKindView::Exec { id, .. } => "exec:"@ + id,
        DecisionKindView::Patch { id } => "patch:"@ + id,
        DecisionKindView::Elicitation { server_name, request_id } => "elicitation:"@ + server_name
            + ":"@ + request_id.shown(),
    }
}

/// Whether every decision of a queue has a control token and the identifier of its kind. This
/// holds of the empty queue, and every operation on a queue keeps it.
pub open spec fn well_formed(queue: Seq<PendingDecisionView>) -> bool {
    forall|i: int|
        0 <= i < queue.len() ==> {
            &&& is_control_token((#[trigger] queue[i]).token)
            &&& queue[i].decision_id == decision_id_of(queue[i].kind)
        }
}

/// The action that an answer from outside leads to. It must carry the token of the head; where
/// it names a decision, that must be the head; its choice must be one that the head offers.
pub open spec fn accepted_action(
    queue: Seq<PendingDecisionView>,
    input: DecisionInputView,
) -> Option<ExternalApprovalAction> {
    if queue.len() == 0 || queue[0].token != input.token {
        None
    } else if input.decision_id is Some && input.decision_id != Some(queue[0].decision_id) {
        None
    } else {
        chosen_action(queue[0].kind, input.choice)
    }
}

impl Default for DecisionQueue {
    fn default() -> (r: DecisionQueue)
        ensures
            r@ == Seq::<PendingDecisionView>::empty(),
            well_formed(r@),
    {
        let r = DecisionQueue { pending: VecDeque::new() };
        assert(r@ =~= Seq::<PendingDecisionView>::empty());
        r
    }
}

impl DecisionQueue {
    /// The decision that can be answered now.
    pub fn head(&self) -> (r: Option<&PendingDecision>)
        ensures
            match r {
                Some(decision) => self@.len() > 0 && decision@ == self@[0],
                None => self@.len() == 0,
            },
    {
        if self.pending.len() == 0 {
            None
        } else {
            Some(&self.pending[0])
        }
    }

    /// Puts a decision at the end of the queue.
    fn enqueue(&mut self, decision: PendingDecision)
        ensures
            final(self)@ == old(self)@.push(decision@),
    {
        self.pending.push_back(decision);
        assert(self@ =~= old(self)@.push(decision@));
    }

    /// Puts a decision about a command at the end of the queue.
    pub fn enqueue_exec(&mut self, id: String, command: String, allow_always: bool)
        ensures
            final(self)@.len() == old(self)@.len() + 1,
            is_control_token(final(self)@.last().token),
            final(self)@ == old(self)@.push(
                exec_decision(id@, command@, allow_always, final(self)@.last().token),
            ),
            well_formed(old(self)@) ==> well_formed(final(self)@),
    {
        self.enqueue(PendingDecision::new_exec(id, command, allow_always));
    }

    /// Puts a decision about a patch at the end of the queue.
    pub fn enqueue_patch(&mut self, id: String, num_files: usize)
        ensures
            final(self)@.len() == old(self)@.len() + 1,
            is_control_token(final(self)@.last().token),
            final(self)@ == old(self)@.push(
                patch_decision(id@, num_files as nat, final(self)@.last().token),
            ),
            well_formed(old(self)@) ==> well_formed(final(self)@),
    {
        self.enqueue(PendingDecision::new_patch(id, num_files));
    }

    /// Puts a decision that a tool server asks for at the end of the queue.
    pub fn enqueue_elicitation(&mut self, server_name: String, request_id: RequestId)
        ensures
            final(self)@.len() == old(self)@.len() + 1,
            is_control_token(final(self)@.last().token),
            final(self)@ == old(self)@.push(
                elicitation_decision(server_name@, request_id@, final(self)@.last().token),
            ),
            well_formed(old(self)@) ==> well_formed(final(self)@),
    {
        self.enqueue(PendingDecision::new_elicitation(server_name, request_id));
    }

    /// Drops the head if an operation settles it, and says whether it did.
    pub fn resolve_from_op(&mut self, op: &Op) -> (r: bool)
        ensures
            r == (old(self)@.len() > 0 && settles(old(self)@[0].kind, *op)),
            final(self)@ == if r {
                old(self)@.drop_first()
            } else {
                old(self)@
            },
            well_formed(old(self)@) ==> well_formed(final(self)@),
    {
        let settled = match self.head() {
            Some(decision) => decision.matches_op(op),
            None => false,
        };
        if settled {
            self.pop_head();
        }
        settled
    }

    /// The action that an answer from outside leads to, if it is accepted.
    pub fn validate_external_input(&self, input: &ExternalDecisionInput) -> (r: Option<
        ExternalApprovalAction,
    >)
        ensures
            r == accepted_action(self@, input@),
    {
        let head = match self.head() {
            Some(decision) => decision,
            None => {
                return None;
            },
        };
        if !same_text(head.token.as_str(), input.token.as_str()) {
            return None;
        }
        if let Some(decision_id) = &input.decision_id {
            if !same_text(decision_id.as_str(), head.decision_id.as_str()) {
                return None;
            }
        }
        head.action_for_choice(input.choice.as_str())
    }

    /// Takes the head out of the queue.
    pub fn pop_head(&mut self) -> (r: Option<PendingDecision>)
        ensures
            match r {
                Some(decision) => {
                    &&& old(self)@.len() > 0
                    &&& decision@ == old(self)@[0]
                    &&& final(self)@ == old(self)@.drop_first()
                },
                None => old(self)@.len() == 0 && final(self)@ == old(self)@,
            },
            well_formed(old(self)@) ==> well_formed(final(self)@),
    {
        let r = self.pending.pop_front();
        assert(r is Some ==> self@ =~= old(self)@.drop_first());
        r
    }
}

} // verus!

//! What callers see of decisions, of the queue and of the answers to them.
use vstd::prelude::*;

use super::{lemma_choice_literals, lemma_literal_actions};
use crate::decision::{
    action_named, choice_names, chosen_action, resolve_choice_alias, DecisionKindView,
    DecisionQueue, PendingDecision, PendingDecisionKind, PendingDecisionView,
};
use crate::input::{ExternalApprovalAction, ExternalDecisionInput, Op, RequestId};
use crate::text::{
    decimal, is_digit, lowered, signed_decimal, slices, trimmed, usize_value, without_plus,
};
use crate::token::is_control_token;

verus! {

// ---------------------------------------------------------------------------
// Making decisions
// ---------------------------------------------------------------------------

/// The identifier of a request as it is shown.
pub open spec fn request_text(id: RequestId) -> Seq<char> {
    match id {
        RequestId::Text(text) => text@,
        RequestId::Integer(number) => signed_decimal(number as int),
    }
}

/// Whether two identifiers of requests are the same: both texts with the same characters, or both
/// the same integer.
pub open spec fn same_request(a: RequestId, b: RequestId) -> bool {
    match (a, b) {
        (RequestId::Text(x), RequestId::Text(y)) => x@ == y@,
        (RequestId::Integer(x), RequestId::Integer(y)) => x == y,
        _ => false,
    }
}

/// Whether two kinds of decisions are about the same thing.
pub open spec fn same_kind(a: PendingDecisionKind, b: PendingDecisionKind) -> bool {
    match (a, b) {
        (
            PendingDecisionKind::Exec { id: x, allow_always: p },
            PendingDecisionKind::Exec { id: y, allow_always: q },
        ) => x@ == y@ && p == q,
        (PendingDecisionKind::Patch { id: x }, PendingDecisionKind::Patch { id: y }) => x@ == y@,
        (
            PendingDecisionKind::Elicitation { server_name: s, request_id: x },
            PendingDecisionKind::Elicitation { server_name: t, request_id: y },
        ) => s@ == t@ && same_request(x, y),
        _ => false,
    }
}

/// Whether two decisions are the same in all that can be seen of them.
pub open spec fn same_decision(a: PendingDecision, b: PendingDecision) -> bool {
    &&& a.decision_id@ == b.decision_id@
    &&& a.token@ == b.token@
    &&& a.summary@ == b.summary@
    &&& same_kind(a.kind, b.kind)
}

/// Decisions have the same view exactly if they are the same in all that can be seen of them.
pub proof fn law_views_tell_decisions_apart(a: PendingDecision, b: PendingDecision)
    ensures
        (a@ == b@) == same_decision(a, b),
{
}

/// Whether a decision asks about a command.
pub open spec fn asks_about_command(
    decision: PendingDecision,
    id: String,
    command: String,
    allow_always: bool,
) -> bool {
    &&& decision.decision_id@ == "exec:"@ + id@
    &&& decision.summary@ == "Approval requested: "@ + command@
    &&& same_kind(decision.kind, PendingDecisionKind::Exec { id, allow_always })
}

/// Whether a decision asks about a patch.
pub open spec fn asks_about_patch(decision: PendingDecision, id: String, num_files: usize) -> bool {
    &&& decision.decision_id@ == "patch:"@ + id@
    &&& num_files == 1 ==> decision.summary@ == "Codex wants to edit "@ + "1 file"@
    &&& num_files != 1 ==> decision.summary@ == "Codex wants to edit "@ + (decimal(num_files as nat)
        + " files"@)
    &&& same_kind(decision.kind, PendingDecisionKind::Patch { id })
}

/// Whether a decision asks what a tool server wants to know.
pub open spec fn asks_for_server(
    decision: PendingDecision,
    server_name: String,
    request_id: RequestId,
) -> bool {
    &&& decision.decision_id@ == "elicitation:"@ + server_name@ + ":"@ + request_text(request_id)
    &&& decision.summary@ == "Approval requested by "@ + server_name@
    &&& same_kind(decision.kind, PendingDecisionKind::Elicitation { server_name, request_id })
}

/// A decision about a command carries its identifier, its command and whether it may be approved
/// for good, and the token that it was given or a fresh one.
pub proof fn law_command_decisions(
    id: String,
    command: String,
    allow_always: bool,
    token: String,
    made: PendingDecision,
    fresh: PendingDecision,
)
    requires
        call_ensures(PendingDecision::exec_with_token, (id, command, allow_always, token), made),
        call_ensures(PendingDecision::new_exec, (id, command, allow_always), fresh),
    ensures
        asks_about_command(made, id, command, allow_always),
        made.token@ == token@,
        asks_about_command(fresh, id, command, allow_always),
        is_control_token(fresh.token@),
{
}

/// A decision about a patch carries its identifier and how many files it touches, and the token
/// that it was given or a fresh one.
pub proof fn law_patch_decisions(
    id: String,
    num_files: usize,
    token: String,
    made: PendingDecision,
    fresh: PendingDecision,
)
    requires
        call_ensures(PendingDecision::patch_with_token, (id, num_files, token), made),
        call_ensures(PendingDecision::new_patch, (id, num_files), fresh),
    ensures
        asks_about_patch(made, id, num_files),
        made.token@ == token@,
        asks_about_patch(fresh, id, num_files),
        is_control_token(fresh.token@),
{
}

/// A decision that a tool server asks for carries the server and the request, and the token that
/// it was given or a fresh one.
pub proof fn law_server_decisions(
    server_name: String,
    request_id: RequestId,
    token: String,
    made: PendingDecision,
    fresh: PendingDecision,
)
    requires
        call_ensures(
            PendingDecision::elicitation_with_token,
            (server_name, request_id, token),
            made,
        ),
        call_ensures(PendingDecision::new_elicitation, (server_name, request_id), fresh),
    ensures
        asks_for_server(made, server_name, request_id),
        made.token@ == token@,
        asks_for_server(fresh, server_name, request_id),
        is_control_token(fresh.token@),
{
}

/// An identifier of a request is shown as it is, and two of them are the same only if they are of
/// one sort and equal.
pub proof fn law_request_identifiers(a: RequestId, b: RequestId, shown: String, same: bool)
    requires
        call_ensures(RequestId::to_text, (&a,), shown),
        call_ensures(RequestId::same, (&a, &b), same),
    ensures
        shown@ == request_text(a),
        same == same_request(a, b),
{
}

// ---------------------------------------------------------------------------
// Choices and answers
// ---------------------------------------------------------------------------

/// What a decision offers: the choices in their order, each with the action that it stands for.
pub open spec fn offer(kind: PendingDecisionKind) -> Seq<(Seq<char>, ExternalApprovalAction)> {
    match kind {
        PendingDecisionKind::Exec { allow_always: false, .. } => seq![
            ("approve"@, ExternalApprovalAction::Approve),
            ("deny"@, ExternalApprovalAction::Deny),
        ],
        PendingDecisionKind::Exec { allow_always: true, .. } => seq![
            ("approve"@, ExternalApprovalAction::Approve),
            ("approve_always"@, ExternalApprovalAction::ApproveAlways),
            ("deny"@, ExternalApprovalAction::Deny),
        ],
        PendingDecisionKind::Patch { .. } => seq![
            ("approve"@, ExternalApprovalAction::Approve),
            ("approve_for_session"@, ExternalApprovalAction::ApproveForSession),
            ("deny"@, ExternalApprovalAction::Deny),
        ],
        PendingDecisionKind::Elicitation { .. } => seq![
            ("accept"@, ExternalApprovalAction::Accept),
            ("decline"@, ExternalApprovalAction::Decline),
            ("cancel"@, ExternalApprovalAction::Cancel),
        ],
    }
}

/// Whether an answer picks the choice at an index of the offer: trimmed and in lower case it is
/// the name of that choice, or its number, counted from one.
pub open spec fn picks(kind: PendingDecisionKind, answer: Seq<char>, i: int) -> bool {
    let normal = lowered(trimmed(answer));
    &&& 0 <= i < offer(kind).len()
    &&& normal == offer(kind)[i].0 || usize_value(normal) == Some((i + 1) as nat)
}

pub(super) proof fn lemma_offer(kind: PendingDecisionKind, i: int)
    requires
        0 <= i < offer(kind).len(),
    ensures
        choice_names(kind@).len() == offer(kind).len(),
        choice_names(kind@)[i] == offer(kind)[i].0,
        action_named(offer(kind)[i].0) == Some(offer(kind)[i].1),
        offer(kind)[i].0.len() > 0,
        usize_value(offer(kind)[i].0) is None,
{
    lemma_literal_actions();
    lemma_choice_literals();
    assert(i == 0 || i == 1 || i == 2);
    let name = choice_names(kind@)[i];
    assert(without_plus(name) == name);
    assert(usize_value(name) is None) by {
        assert(!is_digit(name[0]));
    }
}

/// A decision offers exactly the choices of its kind, in their order.
pub proof fn law_offered_choices(decision: PendingDecision, r: Vec<&'static str>)
    requires
        call_ensures(PendingDecision::choices, (&decision,), r),
    ensures
        r@.len() == offer(decision.kind).len(),
        forall|i: int| 0 <= i < r@.len() ==> (#[trigger] r@[i])@ == offer(decision.kind)[i].0,
{
    lemma_offer(decision.kind, 0);
    assert(slices(r@).len() == r@.len());
    assert forall|i: int| 0 <= i < r@.len() implies (#[trigger] r@[i])@ == offer(
        decision.kind,
    )[i].0 by {
        lemma_offer(decision.kind, i);
        assert(slices(r@)[i] == r@[i]@);
    }
}

/// An answer leads to an action exactly if it picks a choice of the offer that stands for this
/// action, by its name or by its number. Every other answer leads to none.
pub proof fn law_answers_pick_from_the_offer(
    decision: PendingDecision,
    answer: &str,
    r: Option<ExternalApprovalAction>,
    action: ExternalApprovalAction,
)
    requires
        call_ensures(PendingDecision::action_for_choice, (&decision, answer), r),
    ensures
        (r == Some(action)) == exists|i: int| #[trigger]
            picks(decision.kind, answer@, i) && offer(decision.kind)[i].1 == action,
{
    let kind = decision.kind;
    let normal = lowered(trimmed(answer@));
    let names = choice_names(kind@);
    lemma_offer(kind, 0);
    assert forall|i: int| picks(kind, answer@, i) implies r == Some(offer(kind)[i].1) by {
        lemma_offer(kind, i);
        if usize_value(normal) is None {
            assert(names.contains(normal));
        } else {
            assert(normal.len() > 0) by {
                if normal.len() == 0 {
                    assert(without_plus(normal).len() == 0);
                }
            }
        }
    }
    if r is Some {
        match usize_value(normal) {
            Some(number) => {
                let i = number - 1;
                lemma_offer(kind, i);
                assert(picks(kind, answer@, i));
            },
            None => {
                let i = choose|i: int| 0 <= i < names.len() && names[i] == normal;
                lemma_offer(kind, i);
                assert(picks(kind, answer@, i));
            },
        }
    }
}

/// An answer that leads to an action is, trimmed and in lower case, the name of an offered choice
/// or the number of one, and the action is the one of that choice. Any other text leads to none.
pub proof fn law_answers_name_or_number_a_choice(kind: DecisionKindView, answer: Seq<char>)
    ensures
        ({
            let normal = lowered(trimmed(answer));
            let names = choice_names(kind);
            match usize_value(normal) {
                Some(n) => chosen_action(kind, answer) == if 1 <= n <= names.len() {
                    action_named(names[n - 1])
                } else {
                    None
                },
                None => chosen_action(kind, answer) == if names.contains(normal) {
                    action_named(normal)
                } else {
                    None
                },
            }
        }),
{
    lemma_choice_literals();
    let normal = lowered(trimmed(answer));
    if normal.len() == 0 {
        assert(without_plus(normal).len() == 0);
        let names = choice_names(kind);
        if names.contains(normal) {
            let i = choose|i: int| 0 <= i < names.len() && names[i] == normal;
            assert(names[i].len() > 0);
        }
    }
}

/// Of any list of choices, a text selects the one whose number it is, or the one that it names in
/// any case and between any white space. Nothing else is ever selected.
pub proof fn law_aliases(
    answer: &str,
    canonical: &[&'static str],
    r: Option<&'static str>,
    name: Seq<char>,
)
    requires
        call_ensures(resolve_choice_alias, (answer, canonical), r),
    ensures
        ({
            let normal = lowered(trimmed(answer@));
            (r matches Some(chosen) && chosen@ == name) == exists|i: int|
                {
                    &&& 0 <= i < canonical@.len()
                    &&& (#[trigger] canonical@[i])@ == name
                    &&& match usize_value(normal) {
                        Some(n) => n == i + 1,
                        None => normal == name && normal.len() > 0,
                    }
                }
        }),
{
    let normal = lowered(trimmed(answer@));
    let names = slices(canonical@);
    assert(names.len() == canonical@.len());
    assert(forall|i: int| 0 <= i < names.len() ==> #[trigger] names[i] == canonical@[i]@);
    if normal.len() == 0 {
        assert(without_plus(normal).len() == 0);
    }
    match usize_value(normal) {
        Some(n) => {
            if 1 <= n <= names.len() {
                assert(names[n - 1] == canonical@[n - 1]@);
            }
        },
        None => {
            if names.contains(normal) {
                let i = choose|i: int| 0 <= i < names.len() && names[i] == normal;
                assert(canonical@[i]@ == normal);
            }
            if exists|i: int|
                0 <= i < canonical@.len() && (#[trigger] canonical@[i])@ == normal {
                let i = choose|i: int|
                    0 <= i < canonical@.len() && (#[trigger] canonical@[i])@ == normal;
                assert(names[i] == normal);
            }
        },
    }
}

/// An answer from outside is accepted exactly if it has the token of the head and, where it names
/// a decision, names the head. Then it leads to what its choice leads to at the head.
pub proof fn law_answers_are_for_the_head(
    queue: DecisionQueue,
    input: ExternalDecisionInput,
    head: Option<&PendingDecision>,
    choice: &str,
    action: Option<ExternalApprovalAction>,
    r: Option<ExternalApprovalAction>,
)
    requires
        call_ensures(DecisionQueue::head, (&queue,), head),
        choice@ == input.choice@,
        head matches Some(decision) ==> call_ensures(
            PendingDecision::action_for_choice,
            (decision, choice),
            action,
        ),
        call_ensures(DecisionQueue::validate_external_input, (&queue, &input), r),
    ensures
        head is None ==> r is None,
        head matches Some(decision) ==> r == if input.token@ == decision.token@ && (
        input.decision_id matches Some(id) ==> id@ == decision.decision_id@) {
            action
        } else {
            None
        },
{
}

// ---------------------------------------------------------------------------
// The queue
// ---------------------------------------------------------------------------

/// A new queue is empty. The head is the first decision, and taking it out leaves the others in
/// their order.
pub proof fn law_the_oldest_comes_first(
    empty: DecisionQueue,
    queue: &mut DecisionQueue,
    head: Option<&PendingDecision>,
    taken: Option<PendingDecision>,
)
    requires
        call_ensures(<DecisionQueue as Default>::default, (), empty),
        call_ensures(DecisionQueue::head, (&*old(queue),), head),
        call_ensures(DecisionQueue::pop_head, (queue,), taken),
    ensures
        empty@.len() == 0,
        head is Some == (old(queue)@.len() > 0),
        taken is Some == (old(queue)@.len() > 0),
        head matches Some(decision) ==> decision@ == old(queue)@[0] && same_decision(
            *decision,
            taken->0,
        ),
        taken matches Some(decision) ==> {
            &&& decision@ == old(queue)@[0]
            &&& final(queue)@.len() == old(queue)@.len() - 1
            &&& forall|i: int|
                0 <= i < final(queue)@.len() ==> #[trigger] final(queue)@[i] == old(queue)@[i + 1]
        },
        taken is None ==> final(queue)@.len() == 0,
{
}

/// Whether one decision came in behind those that a queue had, which stay as they were.
pub open spec fn came_in(
    before: Seq<PendingDecisionView>,
    after: Seq<PendingDecisionView>,
    decision: PendingDecision,
) -> bool {
    &&& after.len() == before.len() + 1
    &&& forall|i: int| 0 <= i < before.len() ==> #[trigger] after[i] == before[i]
    &&& after[before.len() as int] == decision@
}

/// A command that needs approval comes in behind all other decisions, under a fresh token.
pub proof fn law_commands_come_in_last(
    queue: &mut DecisionQueue,
    id: String,
    command: String,
    allow_always: bool,
    added: PendingDecision,
)
    requires
        call_ensures(DecisionQueue::enqueue_exec, (queue, id, command, allow_always), ()),
        asks_about_command(added, id, command, allow_always),
        added.token@ == final(queue)@.last().token,
    ensures
        came_in(old(queue)@, final(queue)@, added),
        is_control_token(added.token@),
{
}

/// A patch that needs approval comes in behind all other decisions, under a fresh token.
pub proof fn law_patches_come_in_last(
    queue: &mut DecisionQueue,
    id: String,
    num_files: usize,
    added: PendingDecision,
)
    requires
        call_ensures(DecisionQueue::enqueue_patch, (queue, id, num_files), ()),
        asks_about_patch(added, id, num_files),
        added.token@ == final(queue)@.last().token,
    ensures
        came_in(old(queue)@, final(queue)@, added),
        is_control_token(added.token@),
{
}

/// What a tool server asks for comes in behind all other decisions, under a fresh token.
pub proof fn law_server_requests_come_in_last(
    queue: &mut DecisionQueue,
    server_name: String,
    request_id: RequestId,
    added: PendingDecision,
)
    requires
        call_ensures(DecisionQueue::enqueue_elicitation, (queue, server_name, request_id), ()),
        asks_for_server(added, server_name, request_id),
        added.token@ == final(queue)@.last().token,
    ensures
        came_in(old(queue)@, final(queue)@, added),
        is_control_token(added.token@),
{
}

/// Whether an operation is the one that answers a decision: of the same kind, and with the same
/// identifiers.
pub open spec fn answers(kind: PendingDecisionKind, op: Op) -> bool {
    match op {
        Op::ExecApproval { id: x } => kind matches PendingDecisionKind::Exec { id, .. } && x@
            == id@,
        Op::PatchApproval { id: x } => kind matches PendingDecisionKind::Patch { id } && x@ == id@,
        Op::ResolveElicitation { server_name: s, request_id: x } => {
            &&& kind matches PendingDecisionKind::Elicitation { server_name, request_id }
            &&& s@ == server_name@
            &&& same_request(x, request_id)
        },
        Op::Other => false,
    }
}

/// The operation that answers a decision settles it, and no other does, for every kind and for
/// text and integer identifiers alike. The queue loses its head exactly if the operation answers
/// the head, and says so.
pub proof fn law_operations_settle_what_they_answer(
    decision: PendingDecision,
    op: Op,
    matched: bool,
    queue: &mut DecisionQueue,
    settled: bool,
)
    requires
        call_ensures(PendingDecision::matches_op, (&decision, &op), matched),
        call_ensures(DecisionQueue::resolve_from_op, (queue, &op), settled),
        old(queue)@.len() > 0 ==> old(queue)@[0] == decision@,
    ensures
        matched == answers(decision.kind, op),
        settled == (old(queue)@.len() > 0 && answers(decision.kind, op)),
        settled ==> {
            &&& final(queue)@.len() == old(queue)@.len() - 1
            &&& forall|i: int|
                0 <= i < final(queue)@.len() ==> #[trigger] final(queue)@[i] == old(queue)@[i + 1]
        },
        !settled ==> final(queue)@ == old(queue)@,
{
}

/// A command that was just put into an empty queue is settled by the approval with its
/// identifier, which leaves the queue empty, and by no other operation.
pub proof fn law_commands_are_settled_in_the_terminal(
    queue: &mut DecisionQueue,
    later: &mut DecisionQueue,
    id: String,
    command: String,
    allow_always: bool,
    op: Op,
    settled: bool,
)
    requires
        old(queue)@.len() == 0,
        call_ensures(DecisionQueue::enqueue_exec, (queue, id, command, allow_always), ()),
        *old(later) == *final(queue),
        call_ensures(DecisionQueue::resolve_from_op, (later, &op), settled),
    ensures
        settled == (op matches Op::ExecApproval { id: x } && x@ == id@),
        final(later)@.len() == if settled {
            0int
        } else {
            1
        },
{
}

/// A patch that was just put into an empty queue is settled by the approval with its identifier,
/// which leaves the queue empty, and by no other operation.
pub proof fn law_patches_are_settled_in_the_terminal(
    queue: &mut DecisionQueue,
    later: &mut DecisionQueue,
    id: String,
    num_files: usize,
    op: Op,
    settled: bool,
)
    requires
        old(queue)@.len() == 0,
        call_ensures(DecisionQueue::enqueue_patch, (queue, id, num_files), ()),
        *old(later) == *final(queue),
        call_ensures(DecisionQueue::resolve_from_op, (later, &op), settled),
    ensures
        settled == (op matches Op::PatchApproval { id: x } && x@ == id@),
        final(later)@.len() == if settled {
            0int
        } else {
            1
        },
{
}

/// What a tool server asks for, just put into an empty queue, is settled by the answer to that
/// server and request, which leaves the queue empty, and by no other operation.
pub proof fn law_server_requests_are_settled_in_the_terminal(
    queue: &mut DecisionQueue,
    later: &mut DecisionQueue,
    server_name: String,
    request_id: RequestId,
    op: Op,
    settled: bool,
)
    requires
        old(queue)@.len() == 0,
        call_ensures(DecisionQueue::enqueue_elicitation, (queue, server_name, request_id), ()),
        *old(later) == *final(queue),
        call_ensures(DecisionQueue::resolve_from_op, (later, &op), settled),
    ensures
        settled == (op matches Op::ResolveElicitation { server_name: s, request_id: x } && s@
            == server_name@ && same_request(x, request_id)),
        op == (Op::ResolveElicitation { server_name, request_id }) ==> settled,
        final(later)@.len() == if settled {
            0int
        } else {
            1
        },
{
}

} // verus!

//! What the surrounding application exchanges with this library: answers from outside, the
//! operations that it performs and the actions that it takes.
use vstd::prelude::*;

use crate::text::{decimal_i64, same_text, signed_decimal};

verus! {

/// Where an answer from outside comes from.
#[derive(Debug, Clone, Copy, PartialEq, Eq, Structural)]
pub enum ExternalDecisionSource {
    CommandLine,
    Telegram { user_id: i64 },
}

/// An answer to a pending decision.
#[derive(Debug, Clone, PartialEq, Eq)]
pub struct ExternalDecisionInput {
    pub decision_id: Option<String>,
    pub token: String,
    pub choice: String,
    pub source: ExternalDecisionSource,
}

/// The contents of an [`ExternalDecisionInput`].
#[verifier::ext_equal]
pub struct DecisionInputView {
    pub decision_id: Option<Seq<char>>,
    pub token: Seq<char>,
    pub choice: Seq<char>,
    pub source: ExternalDecisionSource,
}

/// The contents of an optional string.
pub open spec fn opt_text(text: Option<String>) -> Option<Seq<char>> {
    match text {
        Some(t) => Some(t@),
        None => None,
    }
}

impl View for ExternalDecisionInput {
    type V = DecisionInputView;

    open spec fn view(&self) -> DecisionInputView {
        DecisionInputView {
            decision_id: opt_text(self.decision_id),
            token: self.token@,
            choice: self.choice@,
            source: self.source,
        }
    }
}

/// A prompt that was written outside the terminal.
#[derive(Debug, Clone, PartialEq, Eq)]
pub struct ExternalPromptInput {
    pub token: String,
    pub text: String,
    pub source: ExternalDecisionSource,
}

/// The contents of an [`ExternalPromptInput`].
#[verifier::ext_equal]
pub struct PromptInputView {
    pub token: Seq<char>,
    pub text: Seq<char>,
    pub source: ExternalDecisionSource,
}

impl View for ExternalPromptInput {
    type V = PromptInputView;

    open spec fn view(&self) -> PromptInputView {
        PromptInputView { token: self.token@, text: self.text@, source: self.source }
    }
}

/// What an accepted answer makes the application do.
#[derive(Debug, Clone, Copy, PartialEq, Eq, Structural)]
pub enum ExternalApprovalAction {
    Approve,
    ApproveAlways,
    ApproveForSession,
    Deny,
    Accept,
    Decline,
    Cancel,
}

/// The identifier of a request from a tool server.
#[derive(Debug, Clone, PartialEq, Eq)]
pub enum RequestId {
    Text(String),
    Integer(i64),
}

/// The contents of a [`RequestId`].
#[verifier::ext_equal]
pub enum RequestIdView {
    Text(Seq<char>),
    Integer(i64),
}

impl View for RequestId {
    type V = RequestIdView;

    open spec fn view(&self) -> RequestIdView {
        match self {
            RequestId::Text(text) => RequestIdView::Text(text@),
            RequestId::Integer(number) => RequestIdView::Integer(*number),
        }
    }
}

impl RequestIdView {
    /// The identifier as it is shown: the text itself, or the number in decimal.
    pub open spec fn shown(self) -> Seq<char> {
        match self {
            RequestIdView::Text(text) => text,
            RequestIdView::Integer(number) => signed_decimal(number as int),
        }
    }
}

impl RequestId {
    /// The identifier as text.
    pub fn to_text(&self) -> (r: String)
        ensures
            r@ == self@.shown(),
    {
        match self {
            RequestId::Text(text) => text.clone(),
            RequestId::Integer(number) => decimal_i64(*number),
        }
    }

    /// Whether two identifiers are the same.
    pub fn same(&self, other: &RequestId) -> (r: bool)
        ensures
            r == (self@ == other@),
    {
        match (self, other) {
            (RequestId::Text(a), RequestId::Text(b)) => same_text(a.as_str(), b.as_str()),
            (RequestId::Integer(a), RequestId::Integer(b)) => *a == *b,
            _ => false,
        }
    }
}

/// An operation that the application submits, as far as it settles a pending decision.
#[derive(Debug, Clone, PartialEq, Eq)]
pub enum Op {
    ExecApproval { id: String },
    PatchApproval { id: String },
    ResolveElicitation { server_name: String, request_id: RequestId },
    Other,
}

} // verus!

//! Which release events call for a deployment.
//!
//! The policy fails closed: an event deploys only if its action is one of the
//! two deploying ones and it is neither a draft nor a prerelease. Anything
//! else, known or not, is ignored with the reason.

use vstd::prelude::*;
use crate::payload::{ReleaseEvent, ReleaseEventView};
use crate::text::{contains_text, join, lemma_contains_suffix, same_text};

verus! {

/// Why an event does not deploy.
#[derive(Clone, Debug, PartialEq, Eq)]
pub enum IgnoreReason {
    /// The action, held here as it came, is not a deploying one.
    Action(String),
    /// The action deploys, but the release is a draft or a prerelease.
    DraftOrPrerelease,
}

/// The mathematical content of an [`IgnoreReason`].
pub enum IgnoreReasonView {
    Action(Seq<char>),
    DraftOrPrerelease,
}

impl View for IgnoreReason {
    type V = IgnoreReasonView;

    open spec fn view(&self) -> IgnoreReasonView {
        match self {
            IgnoreReason::Action(action) => IgnoreReasonView::Action(action@),
            IgnoreReason::DraftOrPrerelease => IgnoreReasonView::DraftOrPrerelease,
        }
    }
}

/// What the filter makes of an event.
#[derive(Clone, Debug, PartialEq, Eq)]
pub enum FilterDecision {
    Deploy,
    Ignore(IgnoreReason),
}

/// The mathematical content of a [`FilterDecision`].
pub enum FilterDecisionView {
    Deploy,
    Ignore(IgnoreReasonView),
}

impl View for FilterDecision {
    type V = FilterDecisionView;

    open spec fn view(&self) -> FilterDecisionView {
        match self {
            FilterDecision::Deploy => FilterDecisionView::Deploy,
            FilterDecision::Ignore(reason) => FilterDecisionView::Ignore(reason@),
        }
    }
}

/// The two actions that deploy, letter for letter.
pub open spec fn is_deploying_action(action: Seq<char>) -> bool {
    action == "published"@ || action == "released"@
}

/// The decision for an event. The action is looked at first, so an event
/// that fails on both counts is ignored for its action.
pub open spec fn decision_spec(event: ReleaseEventView) -> FilterDecisionView {
    if !is_deploying_action(event.action) {
        FilterDecisionView::Ignore(IgnoreReasonView::Action(event.action))
    } else if event.is_draft || event.is_prerelease {
        FilterDecisionView::Ignore(IgnoreReasonView::DraftOrPrerelease)
    } else {
        FilterDecisionView::Deploy
    }
}

/// The reason as one word: `action:` and the action, or
/// `draft-or-prerelease`.
pub open spec fn label_spec(reason: IgnoreReasonView) -> Seq<char> {
    match reason {
        IgnoreReasonView::Action(action) => "action:"@ + action,
        IgnoreReasonView::DraftOrPrerelease => "draft-or-prerelease"@,
    }
}

impl IgnoreReason {
    /// The reason as one word: `action:` and the action, or
    /// `draft-or-prerelease`.
    pub fn label(&self) -> (label: String)
        ensures
            label@ == label_spec(self@),
    {
        match self {
            IgnoreReason::Action(action) => join("action:", action.as_str()),
            IgnoreReason::DraftOrPrerelease => "draft-or-prerelease".to_owned(),
        }
    }
}

/// Decides whether an event deploys.
///
/// Every event gets exactly one decision. It is `Deploy` only for the actions
/// `published` and `released` on a release that is neither a draft nor a
/// prerelease. Any other action is ignored and named in the reason; a draft
/// or a prerelease is ignored whatever the action.
pub fn should_deploy(event: &ReleaseEvent) -> (decision: FilterDecision)
    ensures
        decision@ == decision_spec(event@),
        is_deploying_action(event.action@) && !event.is_draft && !event.is_prerelease
            ==> decision is Deploy,
        event.is_draft || event.is_prerelease ==> decision is Ignore,
        !is_deploying_action(event.action@) ==> decision is Ignore && contains_text(
            label_spec(decision->Ignore_0@),
            event.action@,
        ),
{
    let action = event.action.as_str();
    if !same_text(action, "published") && !same_text(action, "released") {
        proof {
            lemma_contains_suffix("action:"@, event.action@);
        }
        FilterDecision::Ignore(IgnoreReason::Action(event.action.clone()))
    } else if event.is_draft || event.is_prerelease {
        FilterDecision::Ignore(IgnoreReason::DraftOrPrerelease)
    } else {
        FilterDecision::Deploy
    }
}

} // verus!

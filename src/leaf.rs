use vstd::prelude::*;

use crate::entry::{ChangeRule, DeviceInviteAcceptance};
use crate::hash::Address;
use crate::outcome::{ActionContext, ActionKind, Reason, Resolved, ValidationOutcome, Verdict};

verus! {

/// The record found at a change rule's keyset leaf.
#[derive(Clone, Debug, PartialEq, Eq)]
pub struct LeafRecord {
    pub kind: ActionKind,
    /// Position of the record on its author's chain.
    pub seq: u32,
    /// The record's entry read as an invite acceptance.
    pub acceptance: Resolved<DeviceInviteAcceptance>,
}

/// Validation status that a chain-activity query reports for an author.
#[derive(Clone, Copy, Debug, PartialEq, Eq, Structural)]
pub enum ChainStatus {
    /// The chain is validated up to and including this position.
    Valid(u32),
    Empty,
    Forked,
    Invalid,
}

/// Answer to a query for the invite acceptances on an author's chain in a
/// half-open range of positions.
#[derive(Clone, Debug, PartialEq, Eq)]
pub struct ChainActivity {
    pub status: ChainStatus,
    /// Position and address of each acceptance found, in chain order.
    pub matches: Vec<(u32, Address)>,
}

/// What the leaf check needs next once the leaf record is known.
#[derive(Clone, Debug, PartialEq, Eq)]
pub enum LeafStep {
    Decided(ValidationOutcome),
    /// Ask for the author's invite acceptances at positions `start..end`.
    QueryActivity { start: u32, end: u32 },
}

/// The leaf check's verdict before the author's chain is consulted, if it
/// is decided by then.
pub open spec fn leaf_precheck(
    action: ActionContext,
    rule: ChangeRule,
    leaf: Option<LeafRecord>,
) -> Option<Verdict> {
    if action.prev_action is None {
        Some(Verdict::Invalid(Reason::MissingPrevAction))
    } else {
        match leaf {
            None => Some(Verdict::Deferred(seq![rule.keyset_leaf@])),
            Some(record) => if rule.keyset_root@ != rule.keyset_leaf@ {
                match DeviceInviteAcceptance::record_authority(record.kind, record.acceptance) {
                    Ok(authority) => if authority != rule.keyset_root@ {
                        Some(Verdict::Invalid(Reason::BadKeysetLeaf))
                    } else {
                        None
                    },
                    Err(_) => Some(Verdict::Invalid(Reason::BadKeysetLeaf)),
                }
            } else {
                None
            },
        }
    }
}

/// The leaf check's verdict from the author's chain activity between the
/// leaf and the action under validation.
pub open spec fn activity_verdict(
    seq: u32,
    prev_action: Seq<u8>,
    leaf: Seq<u8>,
    activity: ChainActivity,
) -> Verdict {
    match activity.status {
        ChainStatus::Empty => Verdict::Deferred(seq![prev_action]),
        ChainStatus::Forked => Verdict::Invalid(Reason::InvalidChain),
        ChainStatus::Invalid => Verdict::Invalid(Reason::InvalidChain),
        ChainStatus::Valid(top) => if (top as int) < (seq as int) - 1 {
            Verdict::Deferred(seq![prev_action])
        } else if activity.matches@.len() != 1 || activity.matches@[0].1@ != leaf {
            Verdict::Invalid(Reason::StaleKeysetLeaf)
        } else {
            Verdict::Valid
        },
    }
}

/// The full verdict of the keyset-leaf check.
pub open spec fn leaf_verdict(
    action: ActionContext,
    rule: ChangeRule,
    leaf: Option<LeafRecord>,
    activity: ChainActivity,
) -> Verdict {
    match leaf_precheck(action, rule, leaf) {
        Some(v) => v,
        None => activity_verdict(
            action.seq,
            action.prev_action->Some_0@,
            rule.keyset_leaf@,
            activity,
        ),
    }
}

/// First half of the leaf check: decides from the leaf record alone, or
/// names the range of the author's chain to query.
pub fn leaf_activity_query(action: &ActionContext, rule: &ChangeRule, leaf: &Option<LeafRecord>) -> (r:
    LeafStep)
    ensures
        match (r, leaf_precheck(*action, *rule, *leaf)) {
            (LeafStep::Decided(outcome), Some(v)) => outcome@ == v,
            (LeafStep::QueryActivity { start, end }, None) => leaf is Some && start
                == leaf->Some_0.seq && end == action.seq,
            _ => false,
        },
{
    if action.prev_action.is_none() {
        return LeafStep::Decided(ValidationOutcome::Invalid(Reason::MissingPrevAction));
    }
    let record = match leaf {
        None => return LeafStep::Decided(ValidationOutcome::waiting_on(&rule.keyset_leaf)),
        Some(record) => record,
    };
    // A leaf other than the root itself must be an acceptance under the same root.
    if !rule.keyset_root.same_as(&rule.keyset_leaf) {
        match DeviceInviteAcceptance::try_from_record(&record.kind, &record.acceptance) {
            Err(_) => return LeafStep::Decided(ValidationOutcome::Invalid(Reason::BadKeysetLeaf)),
            Ok(acceptance) => {
                if !rule.keyset_root.same_as(acceptance.as_keyset_root_authority_ref()) {
                    return LeafStep::Decided(ValidationOutcome::Invalid(Reason::BadKeysetLeaf));
                }
            },
        }
    }
    LeafStep::QueryActivity { start: record.seq, end: action.seq }
}

/// Second half of the leaf check: the leaf must be the one and only invite
/// acceptance on the author's chain from the leaf's position up to the
/// action under validation, on a chain validated far enough to tell.
pub fn check_leaf_activity(action: &ActionContext, rule: &ChangeRule, activity: &ChainActivity) -> (r:
    ValidationOutcome)
    requires
        action.prev_action is Some,
    ensures
        r@ == activity_verdict(
            action.seq,
            action.prev_action->Some_0@,
            rule.keyset_leaf@,
            *activity,
        ),
{
    let prev_action = match &action.prev_action {
        Some(prev_action) => prev_action,
        None => return ValidationOutcome::Invalid(Reason::MissingPrevAction),
    };
    let top = match activity.status {
        ChainStatus::Valid(top) => top,
        ChainStatus::Empty => return ValidationOutcome::waiting_on(prev_action),
        _ => return ValidationOutcome::Invalid(Reason::InvalidChain),
    };
    // The chain must be validated up to the action just before this one.
    if (top as u64) + 1 < action.seq as u64 {
        return ValidationOutcome::waiting_on(prev_action);
    }
    if activity.matches.len() != 1 {
        return ValidationOutcome::Invalid(Reason::StaleKeysetLeaf);
    }
    if !activity.matches[0].1.same_as(&rule.keyset_leaf) {
        return ValidationOutcome::Invalid(Reason::StaleKeysetLeaf);
    }
    ValidationOutcome::Valid
}

/// Checks that a change rule's keyset leaf is the current leaf of its
/// author: `activity` is the answer to the query that
/// [`leaf_activity_query`] names, and is not read where none is named.
pub fn validate_keyset_leaf(
    action: &ActionContext,
    rule: &ChangeRule,
    leaf: &Option<LeafRecord>,
    activity: &ChainActivity,
) -> (r: ValidationOutcome)
    ensures
        r@ == leaf_verdict(*action, *rule, *leaf, *activity),
{
    match leaf_activity_query(action, rule, leaf) {
        LeafStep::Decided(outcome) => outcome,
        LeafStep::QueryActivity { .. } => check_leaf_activity(action, rule, activity),
    }
}

} // verus!

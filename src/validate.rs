use vstd::prelude::*;

use crate::authorization::{
    create_authorization_verdict, spec_verdict, update_authorization_verdict,
    validate_create_authorization, validate_create_keyset_root, validate_spec,
    validate_update_authorization,
};
use crate::entry::{ChangeRule, KeysetRoot};
use crate::hash::{Address, AgentKey};
use crate::leaf::{leaf_verdict, validate_keyset_leaf, ChainActivity, LeafRecord};
use crate::outcome::{ActionContext, ActionKind, Reason, Resolved, ValidationOutcome, Verdict};

verus! {

/// The verdict of a chain of checks run in order: the first one that does
/// not accept decides.
pub open spec fn then(first: Verdict, rest: Verdict) -> Verdict {
    if first is Valid {
        rest
    } else {
        first
    }
}

/// Verdict for an entry that must decode as a change rule but does not.
pub open spec fn undecoded_verdict(proposed: Resolved<ChangeRule>) -> Verdict {
    match proposed {
        Resolved::Missing => Verdict::Invalid(Reason::EntryMissing),
        _ => Verdict::Invalid(Reason::Malformed),
    }
}

/// Verdict for a dependency at `address` that did not resolve as expected.
pub open spec fn unresolved_verdict<T>(found: Resolved<T>, address: Seq<u8>) -> Verdict {
    match found {
        Resolved::Missing => Verdict::Deferred(seq![address]),
        _ => Verdict::Invalid(Reason::Malformed),
    }
}

/// Verdict on a first change rule of a keyset.
pub open spec fn create_verdict(
    action: ActionContext,
    proposed: Resolved<ChangeRule>,
    keyset_root: Resolved<KeysetRoot>,
    leaf: Option<LeafRecord>,
    activity: ChainActivity,
    signature_valid: bool,
) -> Verdict {
    match proposed {
        Resolved::Found(rule) => match keyset_root {
            Resolved::Found(root) => then(
                leaf_verdict(action, rule, leaf, activity),
                then(
                    if root.first_deepkey_agent@ == action.author@ {
                        Verdict::Valid
                    } else {
                        Verdict::Invalid(Reason::AuthorNotFda)
                    },
                    then(
                        create_authorization_verdict(rule, signature_valid),
                        spec_verdict(rule.spec()),
                    ),
                ),
            ),
            _ => unresolved_verdict(keyset_root, rule.keyset_root@),
        },
        _ => undecoded_verdict(proposed),
    }
}

/// Returns the outcome of a dependency lookup that did not find its value.
fn unresolved_outcome<T>(found: &Resolved<T>, address: &Address) -> (r:
    ValidationOutcome)
    requires
        !(found is Found),
    ensures
        r@ == unresolved_verdict(*found, address@),
{
    match found {
        Resolved::Missing => ValidationOutcome::waiting_on(address),
        _ => ValidationOutcome::Invalid(Reason::Malformed),
    }
}

/// Returns the outcome for an entry that did not decode as a change rule.
fn undecoded_outcome(proposed: &Resolved<ChangeRule>) -> (r: ValidationOutcome)
    ensures
        r@ == undecoded_verdict(*proposed),
{
    match proposed {
        Resolved::Missing => ValidationOutcome::Invalid(Reason::EntryMissing),
        _ => ValidationOutcome::Invalid(Reason::Malformed),
    }
}

/// Validates the first change rule of a keyset. The arguments are what the
/// ledger holds: the entry under validation read as a change rule, the
/// keyset root it names, the record at its keyset leaf with the author's
/// activity that [`crate::leaf::leaf_activity_query`] asks for, and whether
/// the signature that [`crate::authorization::create_signature_request`]
/// names verifies.
pub fn validate_create_change_rule(
    action: &ActionContext,
    proposed: &Resolved<ChangeRule>,
    keyset_root: &Resolved<KeysetRoot>,
    leaf: &Option<LeafRecord>,
    activity: &ChainActivity,
    signature_valid: bool,
) -> (r: ValidationOutcome)
    ensures
        r@ == create_verdict(*action, *proposed, *keyset_root, *leaf, *activity, signature_valid),
{
    let rule = match proposed {
        Resolved::Found(rule) => rule,
        _ => return undecoded_outcome(proposed),
    };
    let root = match keyset_root {
        Resolved::Found(root) => root,
        _ => return unresolved_outcome(keyset_root, &rule.keyset_root),
    };
    let outcome = validate_keyset_leaf(action, rule, leaf, activity);
    if !outcome.is_valid() {
        return outcome;
    }
    let outcome = validate_create_keyset_root(action, root);
    if !outcome.is_valid() {
        return outcome;
    }
    let outcome = validate_create_authorization(rule, signature_valid);
    if !outcome.is_valid() {
        return outcome;
    }
    validate_spec(rule)
}

/// An update must keep the keyset root of the rule it updates.
pub open spec fn update_root_verdict(previous: ChangeRule, proposed: ChangeRule) -> Verdict {
    if proposed.keyset_root@ != previous.keyset_root@ {
        Verdict::Invalid(Reason::KeysetRootMismatch)
    } else {
        Verdict::Valid
    }
}

/// An update must change the spec.
pub open spec fn update_spec_verdict(previous: ChangeRule, proposed: ChangeRule) -> Verdict {
    if previous.spec() == proposed.spec() {
        Verdict::Invalid(Reason::IdenticalUpdate)
    } else {
        Verdict::Valid
    }
}

/// Checks that an update keeps the keyset root of the rule it updates.
pub fn validate_update_keyset_root(previous: &ChangeRule, proposed: &ChangeRule) -> (r:
    ValidationOutcome)
    ensures
        r@ == update_root_verdict(*previous, *proposed),
{
    if !proposed.keyset_root.same_as(&previous.keyset_root) {
        ValidationOutcome::Invalid(Reason::KeysetRootMismatch)
    } else {
        ValidationOutcome::Valid
    }
}

/// Checks that an update proposes another spec than the one in force.
pub fn validate_update_spec(previous: &ChangeRule, proposed: &ChangeRule) -> (r: ValidationOutcome)
    ensures
        r@ == update_spec_verdict(*previous, *proposed),
{
    if previous.spec_change.new_spec.same_as(&proposed.spec_change.new_spec) {
        ValidationOutcome::Invalid(Reason::IdenticalUpdate)
    } else {
        ValidationOutcome::Valid
    }
}

/// The position of the first `false` in `known` from `i` on, or its length.
pub open spec fn first_unknown(known: Seq<bool>, i: int) -> int
    decreases known.len() - i,
{
    if i < 0 || i >= known.len() {
        known.len() as int
    } else if !known[i] {
        i
    } else {
        first_unknown(known, i + 1)
    }
}

/// Verdict on a change rule that updates a previous one, once both rules,
/// the keyset root and every signer named are known.
pub open spec fn update_checks_verdict(
    action: ActionContext,
    previous: ChangeRule,
    rule: ChangeRule,
    leaf: Option<LeafRecord>,
    activity: ChainActivity,
    signatures_valid: Seq<bool>,
) -> Verdict {
    then(
        leaf_verdict(action, rule, leaf, activity),
        then(
            update_root_verdict(previous, rule),
            then(
                update_authorization_verdict(previous.spec(), rule.authorizations(), signatures_valid),
                then(update_spec_verdict(previous, rule), spec_verdict(rule.spec())),
            ),
        ),
    )
}

/// Verdict on a change rule that updates the rule first written by the
/// action that `action.kind` names.
pub open spec fn update_verdict(
    action: ActionContext,
    proposed: Resolved<ChangeRule>,
    keyset_root: Resolved<KeysetRoot>,
    previous: Resolved<ChangeRule>,
    signers_known: Seq<bool>,
    leaf: Option<LeafRecord>,
    activity: ChainActivity,
    signatures_valid: Seq<bool>,
) -> Verdict {
    match proposed {
        Resolved::Found(rule) => if !(keyset_root is Found) {
            unresolved_verdict(keyset_root, rule.keyset_root@)
        } else {
            match previous {
                Resolved::Found(prev) => {
                    let k = first_unknown(signers_known, 0);
                    if k < signers_known.len() {
                        Verdict::Deferred(seq![rule.spec().signers[k]])
                    } else {
                        update_checks_verdict(action, prev, rule, leaf, activity, signatures_valid)
                    }
                },
                _ => unresolved_verdict(previous, action.kind->original_action@),
            }
        },
        _ => undecoded_verdict(proposed),
    }
}

/// Validates a change rule that updates a previous one. Besides what
/// [`validate_create_change_rule`] takes: the rule it updates, whether each
/// signer the proposed spec lists is known to the ledger, and whether each
/// signature that [`crate::authorization::update_signature_requests`] names
/// verifies. An update validator only ever sees update actions.
pub fn validate_update_change_rule(
    action: &ActionContext,
    proposed: &Resolved<ChangeRule>,
    keyset_root: &Resolved<KeysetRoot>,
    previous: &Resolved<ChangeRule>,
    signers_known: &Vec<bool>,
    leaf: &Option<LeafRecord>,
    activity: &ChainActivity,
    signatures_valid: &Vec<bool>,
) -> (r: ValidationOutcome)
    requires
        action.kind is Update,
        proposed matches Resolved::Found(rule) ==> signers_known@.len() == rule.spec().signers.len()
            && signatures_valid@.len() == rule.authorizations().len(),
    ensures
        r@ == update_verdict(
            *action,
            *proposed,
            *keyset_root,
            *previous,
            signers_known@,
            *leaf,
            *activity,
            signatures_valid@,
        ),
{
    let rule = match proposed {
        Resolved::Found(rule) => rule,
        _ => return undecoded_outcome(proposed),
    };
    match keyset_root {
        Resolved::Found(_) => {},
        _ => return unresolved_outcome(keyset_root, &rule.keyset_root),
    }
    let original_action = match &action.kind {
        ActionKind::Update { original_action } => original_action,
        _ => return ValidationOutcome::Invalid(Reason::WrongHeader),
    };
    let prev = match previous {
        Resolved::Found(prev) => prev,
        _ => return unresolved_outcome(previous, original_action),
    };
    // Every signer the new spec lists must be known.
    let signers = &rule.spec_change.new_spec.authorized_signers;
    let mut i: usize = 0;
    while i < signers_known.len()
        invariant
            *proposed == Resolved::Found(*rule),
            *previous == Resolved::Found(*prev),
            keyset_root is Found,
            signers_known@.len() == signers@.len(),
            signers@.map_values(|k: AgentKey| k@) == rule.spec().signers,
            0 <= i <= signers_known@.len(),
            first_unknown(signers_known@, 0) == first_unknown(signers_known@, i as int),
        decreases signers_known.len() - i,
    {
        if !signers_known[i] {
            assert(first_unknown(signers_known@, i as int) == i as int);
            assert(rule.spec().signers[i as int] == signers@[i as int]@);
            return ValidationOutcome::waiting_on(&signers[i].to_address());
        }
        i = i + 1;
    }
    let outcome = validate_keyset_leaf(action, rule, leaf, activity);
    if !outcome.is_valid() {
        return outcome;
    }
    let outcome = validate_update_keyset_root(prev, rule);
    if !outcome.is_valid() {
        return outcome;
    }
    let outcome = validate_update_authorization(prev, rule, signatures_valid);
    if !outcome.is_valid() {
        return outcome;
    }
    let outcome = validate_update_spec(prev, rule);
    if !outcome.is_valid() {
        return outcome;
    }
    validate_spec(rule)
}

/// Validates the deletion of a change rule: the lineage is append-only, so
/// every deletion is rejected, whatever it names.
pub fn validate_delete_change_rule(_action: &ActionContext) -> (r: ValidationOutcome)
    ensures
        r@ == Verdict::Invalid(Reason::DeleteAttempted),
{
    ValidationOutcome::Invalid(Reason::DeleteAttempted)
}

} // verus!

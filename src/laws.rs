use vstd::prelude::*;

use crate::authorization::{
    create_authorization_verdict, first_authorization_failure, position_failure, spec_verdict,
    update_authorization_verdict,
};
use crate::entry::{Authorization, ChangeRule, DeviceInviteAcceptance, KeysetRoot, SpecModel};
use crate::leaf::{leaf_verdict, ChainActivity, LeafRecord};
use crate::outcome::{ActionContext, Reason, Resolved, Verdict};
use crate::validate::{create_verdict, update_root_verdict, update_spec_verdict, update_verdict};

verus! {

/// A threshold above the number of signers is rejected as not enough
/// signers; a threshold of zero as not enough signatures; any threshold
/// from one up to the number of signers is accepted.
pub proof fn threshold_law(spec: SpecModel)
    ensures
        spec.sigs_required as int > spec.signers.len() ==> spec_verdict(spec) == Verdict::Invalid(
            Reason::NotEnoughSigners,
        ),
        spec.sigs_required < 1 ==> spec_verdict(spec) == Verdict::Invalid(
            Reason::NotEnoughSignatures,
        ),
        1 <= spec.sigs_required && spec.sigs_required as int <= spec.signers.len() ==> spec_verdict(
            spec,
        ) == Verdict::Valid,
{
}

/// A first change rule with no authorization is rejected for want of a
/// signature, with two or more for carrying several, with one that does not
/// verify for a bad signature, and with one that verifies it is accepted.
pub proof fn create_authorization_law(rule: ChangeRule, signature_valid: bool)
    ensures
        rule.authorizations().len() == 0 ==> create_authorization_verdict(rule, signature_valid)
            == Verdict::Invalid(Reason::NoCreateSignature),
        rule.authorizations().len() >= 2 ==> create_authorization_verdict(rule, signature_valid)
            == Verdict::Invalid(Reason::MultipleCreateSignatures),
        rule.authorizations().len() == 1 ==> create_authorization_verdict(rule, signature_valid)
            == (if signature_valid {
            Verdict::Valid
        } else {
            Verdict::Invalid(Reason::BadCreateSignature)
        }),
{
}

/// Every authorization names a position below `count` and verifies.
pub open spec fn all_in_range_and_verified(
    count: int,
    auths: Seq<Authorization>,
    verified: Seq<bool>,
) -> bool {
    forall|j: int| 0 <= j < auths.len() ==> #[trigger] auths[j].0 < count && verified[j]
}

/// No two authorizations name the same position.
pub open spec fn distinct_positions(auths: Seq<Authorization>) -> bool {
    forall|j: int, k: int| 0 <= j < k < auths.len() ==> #[trigger] auths[j].0 != #[trigger] auths[k].0
}

proof fn all_good_authorizations_pass(
    count: int,
    auths: Seq<Authorization>,
    verified: Seq<bool>,
    i: int,
)
    requires
        0 <= i,
        verified.len() == auths.len(),
        all_in_range_and_verified(count, auths, verified),
        distinct_positions(auths),
    ensures
        first_authorization_failure(count, auths, verified, i) is None,
    decreases auths.len() - i,
{
    if i < auths.len() {
        assert(auths[i].0 < count && verified[i]);
        assert forall|j: int| 0 <= j < i implies auths[j].0 != auths[i].0 by {
            assert(auths[j].0 != auths[i].0);
        }
        assert(position_failure(count, auths, verified, i) is None);
        all_good_authorizations_pass(count, auths, verified, i + 1);
    }
}

proof fn bad_signature_fails(
    count: int,
    auths: Seq<Authorization>,
    verified: Seq<bool>,
    i: int,
    bad: int,
)
    requires
        0 <= i <= bad < auths.len(),
        verified.len() == auths.len(),
        !verified[bad],
    ensures
        first_authorization_failure(count, auths, verified, i) is Some,
    decreases bad - i,
{
    if position_failure(count, auths, verified, i) is None {
        bad_signature_fails(count, auths, verified, i + 1, bad);
    }
}

/// Under a previous spec requiring `k` signatures: one authorization fewer
/// or more is rejected whatever their validity; exactly `k` by distinct
/// signers of the previous spec, all verifying, are accepted; and among
/// exactly `k`, any one that does not verify has the update rejected.
pub proof fn update_authorization_law(
    previous: SpecModel,
    auths: Seq<Authorization>,
    verified: Seq<bool>,
)
    requires
        verified.len() == auths.len(),
    ensures
        auths.len() == previous.sigs_required as int - 1 || auths.len() == previous.sigs_required
            as int + 1 ==> update_authorization_verdict(previous, auths, verified)
            == Verdict::Invalid(Reason::WrongNumberOfSignatures),
        auths.len() == previous.sigs_required as int && all_in_range_and_verified(
            previous.signers.len() as int,
            auths,
            verified,
        ) && distinct_positions(auths) ==> update_authorization_verdict(previous, auths, verified) == Verdict::Valid,
        auths.len() == previous.sigs_required as int && (exists|j: int|
            0 <= j < auths.len() && !verified[j]) ==> update_authorization_verdict(
            previous,
            auths,
            verified,
        ) is Invalid,
{
    let count = previous.signers.len() as int;
    if auths.len() == previous.sigs_required as int {
        if all_in_range_and_verified(count, auths, verified) && distinct_positions(auths) {
            all_good_authorizations_pass(count, auths, verified, 0);
        }
        if exists|j: int| 0 <= j < auths.len() && !verified[j] {
            let bad = choose|j: int| 0 <= j < auths.len() && !verified[j];
            bad_signature_fails(count, auths, verified, 0, bad);
        }
    }
}

/// The keyset-leaf check, for an action with a previous action: a leaf
/// that does not resolve defers on the leaf; a delegated leaf that is not a
/// create, or holds no acceptance, or one that names another root, is
/// rejected as a bad leaf. Once the leaf passes, an author chain reported empty
/// defers on the previous action; a chain validated up to the previous action
/// accepts when its one acceptance in range is the leaf, and rejects the leaf
/// as stale when there is none or another one.
pub proof fn keyset_leaf_law(
    action: ActionContext,
    rule: ChangeRule,
    leaf: Option<LeafRecord>,
    activity: ChainActivity,
)
    requires
        action.prev_action is Some,
    ensures
        leaf is None ==> leaf_verdict(action, rule, leaf, activity) == Verdict::Deferred(
            seq![rule.keyset_leaf@],
        ),
        leaf matches Some(record) ==> rule.keyset_root@ != rule.keyset_leaf@ && !(record.kind is Create)
            ==> leaf_verdict(action, rule, leaf, activity) == Verdict::Invalid(
            Reason::BadKeysetLeaf,
        ),
        leaf matches Some(record) ==> rule.keyset_root@ != rule.keyset_leaf@ && record.kind is Create
            && record.acceptance is Found && record.acceptance->Found_0.spec_authority()@
            != rule.keyset_root@ ==> leaf_verdict(
            action,
            rule,
            leaf,
            activity,
        ) == Verdict::Invalid(Reason::BadKeysetLeaf),
        leaf matches Some(record) ==> !leaf_passes(rule, record) ==> leaf_verdict(
            action,
            rule,
            leaf,
            activity,
        ) == Verdict::Invalid(Reason::BadKeysetLeaf),
        leaf matches Some(record) ==> leaf_passes(rule, record) && activity.status is Empty
            ==> leaf_verdict(action, rule, leaf, activity) == Verdict::Deferred(
            seq![action.prev_action->Some_0@],
        ),
        leaf matches Some(record) ==> leaf_passes(rule, record)
            && activity.status is Valid && (activity.status->Valid_0 as int) + 1 >= action.seq
            ==> leaf_verdict(action, rule, leaf, activity) == if activity.matches@.len() == 1
            && activity.matches@[0].1@ == rule.keyset_leaf@ {
            Verdict::Valid
        } else {
            Verdict::Invalid(Reason::StaleKeysetLeaf)
        },
{
}

/// Whether a leaf record passes the check of the leaf itself: the leaf is
/// the root, or a create holding an acceptance under the rule's root.
pub open spec fn leaf_passes(rule: ChangeRule, record: LeafRecord) -> bool {
    rule.keyset_root@ == rule.keyset_leaf@ || DeviceInviteAcceptance::record_authority(
        record.kind,
        record.acceptance,
    ) == Ok::<Seq<u8>, Reason>(rule.keyset_root@)
}

/// An update that proposes the spec already in force is rejected as
/// identical; any difference in signers or threshold passes that check.
pub proof fn identical_update_law(previous: ChangeRule, proposed: ChangeRule)
    ensures
        update_spec_verdict(previous, proposed) == (if previous.spec() == proposed.spec() {
            Verdict::Invalid(Reason::IdenticalUpdate)
        } else {
            Verdict::Valid
        }),
        previous.spec().sigs_required != proposed.spec().sigs_required ==> update_spec_verdict(
            previous,
            proposed,
        ) == Verdict::Valid,
        previous.spec().signers != proposed.spec().signers ==> update_spec_verdict(
            previous,
            proposed,
        ) == Verdict::Valid,
{
}

/// An update naming another keyset root than the rule it updates is
/// rejected as a root mismatch; with the same root it passes that check.
pub proof fn update_root_law(previous: ChangeRule, proposed: ChangeRule)
    ensures
        update_root_verdict(previous, proposed) == (if previous.keyset_root@
            == proposed.keyset_root@ {
            Verdict::Valid
        } else {
            Verdict::Invalid(Reason::KeysetRootMismatch)
        }),
{
}

/// Validation is a function of the entry and the data it was given: run
/// twice on the same entry and the same ledger data, each validator reaches
/// the same verdict.
pub proof fn validation_is_repeatable(
    action: ActionContext,
    proposed: Resolved<ChangeRule>,
    keyset_root: Resolved<KeysetRoot>,
    previous: Resolved<ChangeRule>,
    signers_known: Seq<bool>,
    leaf: Option<LeafRecord>,
    activity: ChainActivity,
    signature_valid: bool,
    signatures_valid: Seq<bool>,
    again_action: ActionContext,
    again_proposed: Resolved<ChangeRule>,
    again_keyset_root: Resolved<KeysetRoot>,
    again_previous: Resolved<ChangeRule>,
    again_leaf: Option<LeafRecord>,
    again_activity: ChainActivity,
)
    requires
        again_action == action,
        again_proposed == proposed,
        again_keyset_root == keyset_root,
        again_previous == previous,
        again_leaf == leaf,
        again_activity == activity,
    ensures
        create_verdict(action, proposed, keyset_root, leaf, activity, signature_valid)
            == create_verdict(
            again_action,
            again_proposed,
            again_keyset_root,
            again_leaf,
            again_activity,
            signature_valid,
        ),
        update_verdict(
            action,
            proposed,
            keyset_root,
            previous,
            signers_known,
            leaf,
            activity,
            signatures_valid,
        ) == update_verdict(
            again_action,
            again_proposed,
            again_keyset_root,
            again_previous,
            signers_known,
            again_leaf,
            again_activity,
            signatures_valid,
        ),
        leaf_verdict(action, proposed->Found_0, leaf, activity) == leaf_verdict(
            again_action,
            again_proposed->Found_0,
            again_leaf,
            again_activity,
        ),
{
}

} // verus!

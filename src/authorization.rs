use vstd::prelude::*;

use crate::entry::{Authorization, ChangeRule, KeysetRoot, SpecModel};
use crate::hash::{AgentKey, Signature};
use crate::outcome::{ActionContext, Reason, ValidationOutcome, Verdict};

verus! {

/// A signature to verify: `signature` by `key` over the canonical bytes of
/// the proposed spec.
#[derive(Clone, Debug, PartialEq, Eq)]
pub struct SignatureCheck {
    pub key: AgentKey,
    pub signature: Signature,
}

/// A threshold must ask for at least one signature and no more than there
/// are signers.
pub open spec fn spec_verdict(spec: SpecModel) -> Verdict {
    if spec.sigs_required as int > spec.signers.len() {
        Verdict::Invalid(Reason::NotEnoughSigners)
    } else if spec.sigs_required < 1 {
        Verdict::Invalid(Reason::NotEnoughSignatures)
    } else {
        Verdict::Valid
    }
}

/// Checks that the threshold of a rule's proposed spec is achievable.
pub fn validate_spec(rule: &ChangeRule) -> (r: ValidationOutcome)
    ensures
        r@ == spec_verdict(rule.spec()),
{
    let spec = &rule.spec_change.new_spec;
    if spec.sigs_required as usize > spec.authorized_signers.len() {
        ValidationOutcome::Invalid(Reason::NotEnoughSigners)
    } else if spec.sigs_required < 1 {
        ValidationOutcome::Invalid(Reason::NotEnoughSignatures)
    } else {
        ValidationOutcome::Valid
    }
}

/// Checks that the author of a first change rule is the keyset's first agent.
pub fn validate_create_keyset_root(action: &ActionContext, keyset_root: &KeysetRoot) -> (r:
    ValidationOutcome)
    ensures
        r@ == (if keyset_root.first_deepkey_agent@ == action.author@ {
            Verdict::Valid
        } else {
            Verdict::Invalid(Reason::AuthorNotFda)
        }),
{
    if keyset_root.first_deepkey_agent.same_as(&action.author) {
        ValidationOutcome::Valid
    } else {
        ValidationOutcome::Invalid(Reason::AuthorNotFda)
    }
}

/// A first change rule carries exactly one authorization, by the keyset's
/// root key; `signature_valid` is whether that one verifies.
pub open spec fn create_authorization_verdict(rule: ChangeRule, signature_valid: bool) -> Verdict {
    if rule.authorizations().len() > 1 {
        Verdict::Invalid(Reason::MultipleCreateSignatures)
    } else if rule.authorizations().len() == 0 {
        Verdict::Invalid(Reason::NoCreateSignature)
    } else if signature_valid {
        Verdict::Valid
    } else {
        Verdict::Invalid(Reason::BadCreateSignature)
    }
}

/// The signature to verify for a first change rule: its one authorization,
/// against the keyset's root key. None where it does not carry exactly one.
pub fn create_signature_request(rule: &ChangeRule, keyset_root: &KeysetRoot) -> (r: Option<
    SignatureCheck,
>)
    ensures
        r is Some <==> rule.authorizations().len() == 1,
        r matches Some(check) ==> check.key@ == keyset_root.root_pub_key@ && check.signature@
            == rule.authorizations()[0].1@,
{
    let auths = &rule.spec_change.authorization_of_new_spec;
    if auths.len() != 1 {
        return None;
    }
    Some(
        SignatureCheck {
            key: keyset_root.root_pub_key.duplicate(),
            signature: auths[0].1.duplicate(),
        },
    )
}

/// Checks the authorization of a first change rule, given whether the
/// signature that [`create_signature_request`] names verifies.
pub fn validate_create_authorization(rule: &ChangeRule, signature_valid: bool) -> (r:
    ValidationOutcome)
    ensures
        r@ == create_authorization_verdict(*rule, signature_valid),
{
    let n = rule.spec_change.authorization_of_new_spec.len();
    if n > 1 {
        ValidationOutcome::Invalid(Reason::MultipleCreateSignatures)
    } else if n == 0 {
        ValidationOutcome::Invalid(Reason::NoCreateSignature)
    } else if signature_valid {
        ValidationOutcome::Valid
    } else {
        ValidationOutcome::Invalid(Reason::BadCreateSignature)
    }
}

/// What is wrong with the authorization at position `i`, if anything: its
/// signer position must lie in the signer list, differ from every earlier
/// one, and its signature must verify.
pub open spec fn position_failure(
    signer_count: int,
    auths: Seq<Authorization>,
    verified: Seq<bool>,
    i: int,
) -> Option<Reason> {
    if auths[i].0 as int >= signer_count {
        Some(Reason::AuthorizedPositionOutOfBounds)
    } else if exists|j: int| 0 <= j < i && auths[j].0 == auths[i].0 {
        Some(Reason::RepeatedSignerPosition)
    } else if !verified[i] {
        Some(Reason::BadUpdateSignature)
    } else {
        None
    }
}

/// The failure of the first authorization from position `i` on that fails.
pub open spec fn first_authorization_failure(
    signer_count: int,
    auths: Seq<Authorization>,
    verified: Seq<bool>,
    i: int,
) -> Option<Reason>
    decreases auths.len() - i,
{
    if i < 0 || i >= auths.len() {
        None
    } else {
        match position_failure(signer_count, auths, verified, i) {
            Some(reason) => Some(reason),
            None => first_authorization_failure(signer_count, auths, verified, i + 1),
        }
    }
}

/// An update must carry exactly as many authorizations as the previous spec
/// requires, each by a distinct signer of the previous spec, all verifying.
pub open spec fn update_authorization_verdict(
    previous: SpecModel,
    auths: Seq<Authorization>,
    verified: Seq<bool>,
) -> Verdict {
    if auths.len() != previous.sigs_required as int {
        Verdict::Invalid(Reason::WrongNumberOfSignatures)
    } else {
        match first_authorization_failure(previous.signers.len() as int, auths, verified, 0) {
            Some(reason) => Verdict::Invalid(reason),
            None => Verdict::Valid,
        }
    }
}

/// The signatures to verify for an update, one for each authorization: the
/// signer at its position in the previous spec, and its signature. None
/// where the position lies past the previous signer list.
pub fn update_signature_requests(previous: &ChangeRule, proposed: &ChangeRule) -> (r: Vec<
    Option<SignatureCheck>,
>)
    ensures
        r@.len() == proposed.authorizations().len(),
        forall|i: int|
            0 <= i < r@.len() ==> {
                &&& (r@[i] is Some <==> (proposed.authorizations()[i].0 as int)
                    < previous.spec().signers.len())
                &&& r@[i] matches Some(check) ==> check.key@ == previous.spec().signers[
                    proposed.authorizations()[i].0 as int] && check.signature@
                    == proposed.authorizations()[i].1@
            },
{
    let auths = &proposed.spec_change.authorization_of_new_spec;
    let signers = &previous.spec_change.new_spec.authorized_signers;
    let mut r: Vec<Option<SignatureCheck>> = Vec::new();
    let mut i: usize = 0;
    while i < auths.len()
        invariant
            auths@ == proposed.authorizations(),
            signers@.map_values(|k: AgentKey| k@) == previous.spec().signers,
            0 <= i <= auths.len(),
            r@.len() == i,
            forall|j: int|
                0 <= j < i ==> {
                    &&& (r@[j] is Some <==> (auths@[j].0 as int) < signers@.len())
                    &&& r@[j] matches Some(check) ==> check.key@ == signers@[auths@[j].0 as int]@
                        && check.signature@ == auths@[j].1@
                },
        decreases auths.len() - i,
    {
        let position = auths[i].0 as usize;
        if position < signers.len() {
            r.push(
                Some(
                    SignatureCheck {
                        key: signers[position].duplicate(),
                        signature: auths[i].1.duplicate(),
                    },
                ),
            );
        } else {
            r.push(None);
        }
        i = i + 1;
    }
    r
}

/// Checks the authorization of an update under the previous rule's spec;
/// `verified[i]` is whether the signature that
/// [`update_signature_requests`] names at `i` verifies.
pub fn validate_update_authorization(
    previous: &ChangeRule,
    proposed: &ChangeRule,
    verified: &Vec<bool>,
) -> (r: ValidationOutcome)
    requires
        verified@.len() == proposed.authorizations().len(),
    ensures
        r@ == update_authorization_verdict(previous.spec(), proposed.authorizations(), verified@),
{
    let auths = &proposed.spec_change.authorization_of_new_spec;
    let signer_count = previous.spec_change.new_spec.authorized_signers.len();
    let ghost count = previous.spec().signers.len() as int;
    assert(signer_count as int == count);
    if auths.len() != previous.spec_change.new_spec.sigs_required as usize {
        return ValidationOutcome::Invalid(Reason::WrongNumberOfSignatures);
    }
    let mut i: usize = 0;
    while i < auths.len()
        invariant
            auths@ == proposed.authorizations(),
            auths@.len() == previous.spec().sigs_required as int,
            verified@.len() == auths@.len(),
            signer_count as int == count,
            count == previous.spec().signers.len() as int,
            0 <= i <= auths.len(),
            first_authorization_failure(count, auths@, verified@, 0)
                == first_authorization_failure(count, auths@, verified@, i as int),
        decreases auths.len() - i,
    {
        let position = auths[i].0;
        if position as usize >= signer_count {
            assert(first_authorization_failure(count, auths@, verified@, i as int) == Some(
                Reason::AuthorizedPositionOutOfBounds,
            ));
            return ValidationOutcome::Invalid(Reason::AuthorizedPositionOutOfBounds);
        }
        let mut j: usize = 0;
        while j < i
            invariant
                auths@ == proposed.authorizations(),
                auths@.len() == previous.spec().sigs_required as int,
                verified@.len() == auths@.len(),
                signer_count as int == count,
            count == previous.spec().signers.len() as int,
                (position as int) < count,
                first_authorization_failure(count, auths@, verified@, 0)
                    == first_authorization_failure(count, auths@, verified@, i as int),
                0 <= j <= i < auths@.len(),
                position == auths@[i as int].0,
                forall|k: int| 0 <= k < j ==> auths@[k].0 != position,
            decreases i - j,
        {
            if auths[j].0 == position {
                assert(auths@[j as int].0 == auths@[i as int].0);
                assert(first_authorization_failure(count, auths@, verified@, i as int) == Some(
                    Reason::RepeatedSignerPosition,
                ));
                return ValidationOutcome::Invalid(Reason::RepeatedSignerPosition);
            }
            j = j + 1;
        }
        assert(!exists|k: int| 0 <= k < i && auths@[k].0 == auths@[i as int].0);
        if !verified[i] {
            assert(first_authorization_failure(count, auths@, verified@, i as int) == Some(
                Reason::BadUpdateSignature,
            ));
            return ValidationOutcome::Invalid(Reason::BadUpdateSignature);
        }
        assert(position_failure(count, auths@, verified@, i as int) is None);
        i = i + 1;
    }
    ValidationOutcome::Valid
}

} // verus!

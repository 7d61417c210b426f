use deepkey::authorization::{validate_spec, validate_update_authorization};
use deepkey::entry::{AuthoritySpec, ChangeRule, DeviceInviteAcceptance, KeysetRoot, SpecChange};
use deepkey::hash::{Address, AgentKey, Signature};
use deepkey::leaf::{
    check_leaf_activity, leaf_activity_query, validate_keyset_leaf, ChainActivity, ChainStatus,
    LeafRecord, LeafStep,
};
use deepkey::outcome::{ActionContext, ActionKind, Reason, Resolved, ValidationOutcome};
use deepkey::validate::{
    validate_create_change_rule, validate_delete_change_rule, validate_update_change_rule,
};

fn address(n: u8) -> Address {
    Address { bytes: vec![0x84, 0x29, 0x24, n, n, n, n] }
}

fn agent(n: u8) -> AgentKey {
    AgentKey { bytes: vec![0x84, 0x20, 0x24, n, n, n, n] }
}

fn signature(n: u8) -> Signature {
    Signature { bytes: vec![n; 64] }
}

fn rule_with(root: u8, leaf: u8, signers: Vec<AgentKey>, sigs_required: u8) -> ChangeRule {
    ChangeRule {
        keyset_root: address(root),
        keyset_leaf: address(leaf),
        spec_change: SpecChange {
            new_spec: AuthoritySpec { authorized_signers: signers, sigs_required },
            authorization_of_new_spec: vec![],
        },
    }
}

fn action(seq: u32, kind: ActionKind) -> ActionContext {
    ActionContext { author: agent(40), seq, prev_action: Some(address(51)), kind }
}

fn accepted_leaf(root: u8, seq: u32) -> Option<LeafRecord> {
    Some(LeafRecord {
        kind: ActionKind::Create,
        seq,
        acceptance: Resolved::Found(DeviceInviteAcceptance::new(address(root), address(61))),
    })
}

fn current_activity(leaf: u8) -> ChainActivity {
    ChainActivity { status: ChainStatus::Valid(49), matches: vec![(25, address(leaf))] }
}

fn keyset_root() -> KeysetRoot {
    KeysetRoot { first_deepkey_agent: agent(40), root_pub_key: agent(41) }
}

#[test]
fn threshold_edges() {
    let spec_of = |n: u8, k: u8| rule_with(1, 2, (0..n).map(agent).collect(), k);
    assert_eq!(validate_spec(&spec_of(0, 0)), ValidationOutcome::Invalid(Reason::NotEnoughSignatures));
    assert_eq!(validate_spec(&spec_of(0, 1)), ValidationOutcome::Invalid(Reason::NotEnoughSigners));
    assert_eq!(validate_spec(&spec_of(2, 3)), ValidationOutcome::Invalid(Reason::NotEnoughSigners));
    assert_eq!(validate_spec(&spec_of(2, 2)), ValidationOutcome::Valid);
    assert_eq!(validate_spec(&spec_of(3, 1)), ValidationOutcome::Valid);
    assert_eq!(validate_spec(&spec_of(255, 255)), ValidationOutcome::Valid);
}

#[test]
fn update_authorization_counts_and_positions() {
    let previous = rule_with(1, 2, vec![agent(20), agent(21), agent(22)], 3);
    let mut proposed = rule_with(1, 2, vec![agent(20)], 1);

    // Two or four signatures under a threshold of three fail, valid or not.
    proposed.spec_change.authorization_of_new_spec = vec![(0, signature(1)), (1, signature(2))];
    assert_eq!(
        validate_update_authorization(&previous, &proposed, &vec![true, true]),
        ValidationOutcome::Invalid(Reason::WrongNumberOfSignatures),
    );
    proposed.spec_change.authorization_of_new_spec =
        vec![(0, signature(1)), (1, signature(2)), (2, signature(3)), (0, signature(4))];
    assert_eq!(
        validate_update_authorization(&previous, &proposed, &vec![true, true, true, true]),
        ValidationOutcome::Invalid(Reason::WrongNumberOfSignatures),
    );

    proposed.spec_change.authorization_of_new_spec =
        vec![(2, signature(1)), (0, signature(2)), (1, signature(3))];
    assert_eq!(
        validate_update_authorization(&previous, &proposed, &vec![true, true, true]),
        ValidationOutcome::Valid,
    );
    assert_eq!(
        validate_update_authorization(&previous, &proposed, &vec![true, true, false]),
        ValidationOutcome::Invalid(Reason::BadUpdateSignature),
    );

    // A position past the signer list.
    proposed.spec_change.authorization_of_new_spec =
        vec![(0, signature(1)), (3, signature(2)), (1, signature(3))];
    assert_eq!(
        validate_update_authorization(&previous, &proposed, &vec![true, true, true]),
        ValidationOutcome::Invalid(Reason::AuthorizedPositionOutOfBounds),
    );

    // The same signer twice.
    proposed.spec_change.authorization_of_new_spec =
        vec![(0, signature(1)), (1, signature(2)), (0, signature(3))];
    assert_eq!(
        validate_update_authorization(&previous, &proposed, &vec![true, true, true]),
        ValidationOutcome::Invalid(Reason::RepeatedSignerPosition),
    );
}

#[test]
fn leaf_check_edges() {
    let rule = rule_with(1, 2, vec![agent(20)], 1);
    let act = action(50, ActionKind::Create);

    let mut no_prev = act.clone();
    no_prev.prev_action = None;
    assert_eq!(
        validate_keyset_leaf(&no_prev, &rule, &accepted_leaf(1, 25), &current_activity(2)),
        ValidationOutcome::Invalid(Reason::MissingPrevAction),
    );

    let mut record = accepted_leaf(1, 25).unwrap();
    record.acceptance = Resolved::Missing;
    assert_eq!(
        validate_keyset_leaf(&act, &rule, &Some(record.clone()), &current_activity(2)),
        ValidationOutcome::Invalid(Reason::BadKeysetLeaf),
    );
    record.acceptance = Resolved::WrongType;
    assert_eq!(
        validate_keyset_leaf(&act, &rule, &Some(record), &current_activity(2)),
        ValidationOutcome::Invalid(Reason::BadKeysetLeaf),
    );

    // The two halves of the check.
    assert_eq!(
        leaf_activity_query(&act, &rule, &accepted_leaf(1, 25)),
        LeafStep::QueryActivity { start: 25, end: 50 },
    );
    let mut activity = current_activity(2);
    assert_eq!(check_leaf_activity(&act, &rule, &activity), ValidationOutcome::Valid);
    activity.status = ChainStatus::Forked;
    assert_eq!(
        check_leaf_activity(&act, &rule, &activity),
        ValidationOutcome::Invalid(Reason::InvalidChain),
    );
    activity.status = ChainStatus::Invalid;
    assert_eq!(
        check_leaf_activity(&act, &rule, &activity),
        ValidationOutcome::Invalid(Reason::InvalidChain),
    );
    activity.status = ChainStatus::Valid(48);
    assert_eq!(
        check_leaf_activity(&act, &rule, &activity),
        ValidationOutcome::UnresolvedDependencies(vec![address(51)]),
    );
    activity.status = ChainStatus::Valid(49);
    activity.matches = vec![];
    assert_eq!(
        check_leaf_activity(&act, &rule, &activity),
        ValidationOutcome::Invalid(Reason::StaleKeysetLeaf),
    );

    // A rule led by the root itself needs no acceptance.
    let root_led = rule_with(1, 1, vec![agent(20)], 1);
    let root_record = Some(LeafRecord { kind: ActionKind::Create, seq: 0, acceptance: Resolved::WrongType });
    assert_eq!(
        validate_keyset_leaf(&act, &root_led, &root_record, &current_activity(1)),
        ValidationOutcome::Valid,
    );
}

#[test]
fn acceptance_accessors() {
    let acceptance = DeviceInviteAcceptance::new(address(1), address(2));
    assert_eq!(acceptance.as_keyset_root_authority_ref(), &address(1));
    assert_eq!(acceptance.as_invite_ref(), &address(2));
    assert_eq!(
        DeviceInviteAcceptance::try_from_record(
            &ActionKind::Delete,
            &Resolved::Found(acceptance.clone()),
        ),
        Err(Reason::WrongHeader),
    );
    assert_eq!(
        DeviceInviteAcceptance::try_from_record(&ActionKind::Create, &Resolved::Found(acceptance.clone())),
        Ok(acceptance),
    );
    assert_eq!(
        DeviceInviteAcceptance::try_from_record(&ActionKind::Create, &Resolved::Missing),
        Err(Reason::EntryMissing),
    );
    assert_eq!(
        DeviceInviteAcceptance::try_from_record(&ActionKind::Create, &Resolved::WrongType),
        Err(Reason::Malformed),
    );
}

fn signed_create() -> ChangeRule {
    let mut rule = rule_with(1, 2, vec![agent(20), agent(21)], 2);
    rule.spec_change.authorization_of_new_spec = vec![(0, signature(9))];
    rule
}

#[test]
fn create_accepts_a_sound_first_rule() {
    let act = action(50, ActionKind::Create);
    let proposed = Resolved::Found(signed_create());
    let root = Resolved::Found(keyset_root());
    let run = || {
        validate_create_change_rule(&act, &proposed, &root, &accepted_leaf(1, 25), &current_activity(2), true)
    };
    assert_eq!(run(), ValidationOutcome::Valid);
    // Running again on the same data gives the same outcome.
    assert_eq!(run(), run());

    assert_eq!(
        validate_create_change_rule(&act, &proposed, &root, &accepted_leaf(1, 25), &current_activity(2), false),
        ValidationOutcome::Invalid(Reason::BadCreateSignature),
    );
    assert_eq!(
        validate_create_change_rule(&act, &Resolved::WrongType, &root, &None, &current_activity(2), true),
        ValidationOutcome::Invalid(Reason::Malformed),
    );
    assert_eq!(
        validate_create_change_rule(&act, &proposed, &Resolved::WrongType, &None, &current_activity(2), true),
        ValidationOutcome::Invalid(Reason::Malformed),
    );

    let mut stranger = act.clone();
    stranger.author = agent(77);
    assert_eq!(
        validate_create_change_rule(&stranger, &proposed, &root, &accepted_leaf(1, 25), &current_activity(2), true),
        ValidationOutcome::Invalid(Reason::AuthorNotFda),
    );

    let mut unachievable = signed_create();
    unachievable.spec_change.new_spec.sigs_required = 3;
    assert_eq!(
        validate_create_change_rule(
            &act,
            &Resolved::Found(unachievable),
            &root,
            &accepted_leaf(1, 25),
            &current_activity(2),
            true,
        ),
        ValidationOutcome::Invalid(Reason::NotEnoughSigners),
    );
}

#[test]
fn update_runs_every_check_in_order() {
    let act = action(50, ActionKind::Update { original_action: address(52) });
    let previous_rule = rule_with(1, 2, vec![agent(20), agent(21)], 2);
    let mut proposed_rule = rule_with(1, 2, vec![agent(20), agent(21), agent(22)], 2);
    proposed_rule.spec_change.authorization_of_new_spec = vec![(1, signature(3)), (0, signature(4))];
    let root = Resolved::Found(keyset_root());
    let run = |proposed: &ChangeRule, verified: &Vec<bool>| {
        validate_update_change_rule(
            &act,
            &Resolved::Found(proposed.clone()),
            &root,
            &Resolved::Found(previous_rule.clone()),
            &vec![true, true, true],
            &accepted_leaf(1, 25),
            &current_activity(2),
            verified,
        )
    };
    assert_eq!(run(&proposed_rule, &vec![true, true]), ValidationOutcome::Valid);
    assert_eq!(run(&proposed_rule, &vec![true, true]), run(&proposed_rule, &vec![true, true]));
    assert_eq!(
        run(&proposed_rule, &vec![false, true]),
        ValidationOutcome::Invalid(Reason::BadUpdateSignature),
    );

    let mut moved = proposed_rule.clone();
    moved.keyset_root = address(9);
    moved.keyset_leaf = address(9);
    let moved_leaf = ChainActivity { status: ChainStatus::Valid(49), matches: vec![(25, address(9))] };
    assert_eq!(
        validate_update_change_rule(
            &act,
            &Resolved::Found(moved),
            &root,
            &Resolved::Found(previous_rule.clone()),
            &vec![true, true, true],
            &accepted_leaf(9, 25),
            &moved_leaf,
            &vec![true, true],
        ),
        ValidationOutcome::Invalid(Reason::KeysetRootMismatch),
    );

    let mut same = previous_rule.clone();
    same.spec_change.authorization_of_new_spec = vec![(1, signature(3)), (0, signature(4))];
    assert_eq!(
        validate_update_change_rule(
            &act,
            &Resolved::Found(same),
            &root,
            &Resolved::Found(previous_rule.clone()),
            &vec![true, true],
            &accepted_leaf(1, 25),
            &current_activity(2),
            &vec![true, true],
        ),
        ValidationOutcome::Invalid(Reason::IdenticalUpdate),
    );

    let mut zero = proposed_rule.clone();
    zero.spec_change.new_spec.sigs_required = 0;
    assert_eq!(run(&zero, &vec![true, true]), ValidationOutcome::Invalid(Reason::NotEnoughSignatures));

    let mut stale = current_activity(2);
    stale.matches.push((40, address(3)));
    assert_eq!(
        validate_update_change_rule(
            &act,
            &Resolved::Found(proposed_rule.clone()),
            &root,
            &Resolved::Found(previous_rule.clone()),
            &vec![true, true, true],
            &accepted_leaf(1, 25),
            &stale,
            &vec![true, true],
        ),
        ValidationOutcome::Invalid(Reason::StaleKeysetLeaf),
    );
    assert_eq!(
        validate_update_change_rule(
            &act,
            &Resolved::Found(proposed_rule),
            &root,
            &Resolved::WrongType,
            &vec![true, true, true],
            &None,
            &stale,
            &vec![true, true],
        ),
        ValidationOutcome::Invalid(Reason::Malformed),
    );
}

#[test]
fn delete_is_always_rejected() {
    for kind in [ActionKind::Create, ActionKind::Delete, ActionKind::Update { original_action: address(3) }] {
        assert_eq!(
            validate_delete_change_rule(&action(9, kind)),
            ValidationOutcome::Invalid(Reason::DeleteAttempted),
        );
    }
}

use vstd::prelude::*;

use crate::hash::{Address, AgentKey};

verus! {

/// Why an entry was rejected. Each reason is stable, so that peers that
/// disagree on an entry can be diagnosed.
#[derive(Clone, Copy, Debug, PartialEq, Eq, Structural)]
pub enum Reason {
    /// A record's action is not the kind its entry type allows.
    WrongHeader,
    /// A record carries no entry.
    EntryMissing,
    /// An entry does not decode as the type it is expected to be.
    Malformed,
    /// The action under validation has no previous action.
    MissingPrevAction,
    /// The keyset leaf is not an invite acceptance under the same keyset root.
    BadKeysetLeaf,
    /// The author's chain is reported forked or invalid.
    InvalidChain,
    /// A newer invite acceptance on the author's chain superseded the leaf.
    StaleKeysetLeaf,
    /// The threshold exceeds the number of authorized signers.
    NotEnoughSigners,
    /// The threshold asks for no signature at all.
    NotEnoughSignatures,
    /// The creator of the first change rule is not the keyset's first agent.
    AuthorNotFda,
    /// A first change rule carries more than one authorization.
    MultipleCreateSignatures,
    /// A first change rule carries no authorization.
    NoCreateSignature,
    /// The authorization of a first change rule does not verify.
    BadCreateSignature,
    /// An update names another keyset root than the rule it updates.
    KeysetRootMismatch,
    /// An update carries another number of authorizations than required.
    WrongNumberOfSignatures,
    /// An authorization names a signer position past the signer list.
    AuthorizedPositionOutOfBounds,
    /// Two authorizations name the same signer position.
    RepeatedSignerPosition,
    /// An authorization of an update does not verify.
    BadUpdateSignature,
    /// An update proposes the spec that is already in force.
    IdenticalUpdate,
    /// Change rules are never deleted.
    DeleteAttempted,
}

/// The result of validating one entry.
#[derive(Clone, Debug, PartialEq, Eq)]
pub enum ValidationOutcome {
    Valid,
    Invalid(Reason),
    /// Validation cannot be decided until these addresses resolve.
    UnresolvedDependencies(Vec<Address>),
}

/// Mathematical form of a [`ValidationOutcome`].
pub enum Verdict {
    Valid,
    Invalid(Reason),
    Deferred(Seq<Seq<u8>>),
}

impl View for ValidationOutcome {
    type V = Verdict;

    open spec fn view(&self) -> Verdict {
        match self {
            ValidationOutcome::Valid => Verdict::Valid,
            ValidationOutcome::Invalid(reason) => Verdict::Invalid(*reason),
            ValidationOutcome::UnresolvedDependencies(deps) => Verdict::Deferred(
                deps@.map_values(|a: Address| a@),
            ),
        }
    }
}

impl ValidationOutcome {
    /// The outcome that defers validation until `address` resolves.
    pub fn waiting_on(address: &Address) -> (r: ValidationOutcome)
        ensures
            r@ == Verdict::Deferred(seq![address@]),
    {
        let deps = vec![address.duplicate()];
        let r = ValidationOutcome::UnresolvedDependencies(deps);
        assert(deps@.map_values(|a: Address| a@) =~= seq![address@]);
        r
    }

    pub fn is_valid(&self) -> (r: bool)
        ensures
            r == (self@ is Valid),
    {
        match self {
            ValidationOutcome::Valid => true,
            _ => false,
        }
    }
}

/// What a lookup by address found.
#[derive(Clone, Debug, PartialEq, Eq)]
pub enum Resolved<T> {
    /// The entry was found and decodes as the expected type.
    Found(T),
    /// Nothing is held at the address yet.
    Missing,
    /// An entry was found but does not decode as the expected type.
    WrongType,
}

/// The kind of an action on an agent's chain.
#[derive(Clone, Debug, PartialEq, Eq)]
pub enum ActionKind {
    Create,
    /// An update of the entry first written by `original_action`.
    Update { original_action: Address },
    Delete,
}

/// The action under validation, as it stands on its author's chain.
#[derive(Clone, Debug, PartialEq, Eq)]
pub struct ActionContext {
    pub author: AgentKey,
    /// Position of the action on its author's chain.
    pub seq: u32,
    pub prev_action: Option<Address>,
    pub kind: ActionKind,
}

} // verus!

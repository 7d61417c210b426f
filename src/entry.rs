use vstd::prelude::*;

use crate::hash::{Address, AgentKey, Signature};
use crate::outcome::{ActionKind, Reason, Resolved};

verus! {

/// The root of trust of one identity's key lineage.
#[derive(Clone, Debug, PartialEq, Eq)]
pub struct KeysetRoot {
    /// The agent that must author the keyset root and the first change rule.
    pub first_deepkey_agent: AgentKey,
    /// Throwaway key that authorizes the very first change rule only.
    pub root_pub_key: AgentKey,
}

/// Proof that an agent accepted delegation under a keyset root.
#[derive(Clone, Debug, PartialEq, Eq)]
pub struct DeviceInviteAcceptance {
    /// The keyset root authority of the invite being accepted.
    keyset_root_authority: Address,
    invite: Address,
}

impl DeviceInviteAcceptance {
    /// The keyset root authority of the invite being accepted.
    pub closed spec fn spec_authority(&self) -> Address {
        self.keyset_root_authority
    }

    /// The invite that this acceptance accepts.
    pub closed spec fn spec_invite(&self) -> Address {
        self.invite
    }

    pub fn new(keyset_root_authority: Address, invite: Address) -> (r: Self)
        ensures
            r.spec_authority() == keyset_root_authority,
            r.spec_invite() == invite,
    {
        DeviceInviteAcceptance { keyset_root_authority, invite }
    }

    pub fn as_keyset_root_authority_ref(&self) -> (r: &Address)
        ensures
            *r == self.spec_authority(),
    {
        &self.keyset_root_authority
    }

    pub fn as_invite_ref(&self) -> (r: &Address)
        ensures
            *r == self.spec_invite(),
    {
        &self.invite
    }

    /// The keyset root authority that a record read as an acceptance gives,
    /// or why the record is no acceptance: only a create may carry one, and
    /// its entry must be present and decode.
    pub open spec fn record_authority(
        kind: ActionKind,
        entry: Resolved<DeviceInviteAcceptance>,
    ) -> Result<Seq<u8>, Reason> {
        if !(kind is Create) {
            Err(Reason::WrongHeader)
        } else {
            match entry {
                Resolved::Found(acceptance) => Ok(acceptance.spec_authority()@),
                Resolved::Missing => Err(Reason::EntryMissing),
                Resolved::WrongType => Err(Reason::Malformed),
            }
        }
    }

    /// Reads the acceptance that a record holds.
    pub fn try_from_record(kind: &ActionKind, entry: &Resolved<DeviceInviteAcceptance>) -> (r:
        Result<DeviceInviteAcceptance, Reason>)
        ensures
            match (r, Self::record_authority(*kind, *entry)) {
                (Ok(acceptance), Ok(authority)) => acceptance.spec_authority()@ == authority
                    && entry is Found && acceptance.spec_invite()@ == entry->Found_0.spec_invite()@,
                (Err(e), Err(f)) => e == f,
                _ => false,
            },
    {
        match kind {
            ActionKind::Create => {},
            _ => return Err(Reason::WrongHeader),
        }
        match entry {
            Resolved::Found(acceptance) => Ok(
                DeviceInviteAcceptance {
                    keyset_root_authority: acceptance.keyset_root_authority.duplicate(),
                    invite: acceptance.invite.duplicate(),
                },
            ),
            Resolved::Missing => Err(Reason::EntryMissing),
            Resolved::WrongType => Err(Reason::Malformed),
        }
    }
}

/// A threshold policy: who may sign, and how many signatures are needed.
#[derive(Clone, Debug, PartialEq, Eq)]
pub struct AuthoritySpec {
    pub authorized_signers: Vec<AgentKey>,
    pub sigs_required: u8,
}

/// Mathematical form of an [`AuthoritySpec`].
pub struct SpecModel {
    pub signers: Seq<Seq<u8>>,
    pub sigs_required: u8,
}

impl View for AuthoritySpec {
    type V = SpecModel;

    open spec fn view(&self) -> SpecModel {
        SpecModel {
            signers: self.authorized_signers@.map_values(|k: AgentKey| k@),
            sigs_required: self.sigs_required,
        }
    }
}

impl AuthoritySpec {
    /// Whether two specs list the same signers, in order, and the same threshold.
    pub fn same_as(&self, other: &AuthoritySpec) -> (r: bool)
        ensures
            r == (self@ == other@),
    {
        if self.sigs_required != other.sigs_required {
            return false;
        }
        let n = self.authorized_signers.len();
        if n != other.authorized_signers.len() {
            assert(self@.signers.len() != other@.signers.len());
            return false;
        }
        let mut i: usize = 0;
        while i < n
            invariant
                n == self.authorized_signers.len(),
                n == other.authorized_signers.len(),
                0 <= i <= n,
                forall|j: int| 0 <= j < i ==> self@.signers[j] == other@.signers[j],
            decreases n - i,
        {
            if !self.authorized_signers[i].same_as(&other.authorized_signers[i]) {
                assert(self@.signers[i as int] != other@.signers[i as int]);
                return false;
            }
            i = i + 1;
        }
        assert(self@.signers =~= other@.signers);
        true
    }
}

/// An authorization: a position in the authorizing spec's signer list, and
/// that signer's signature over the proposed spec.
pub type Authorization = (u8, Signature);

/// A proposed spec with the signatures that authorize adopting it.
#[derive(Clone, Debug, PartialEq, Eq)]
pub struct SpecChange {
    pub new_spec: AuthoritySpec,
    pub authorization_of_new_spec: Vec<Authorization>,
}

/// A policy entry: who may authorize the next change of a keyset's rules.
#[derive(Clone, Debug, PartialEq, Eq)]
pub struct ChangeRule {
    /// The keyset root this rule answers to.
    pub keyset_root: Address,
    /// The keyset root itself, or the invite acceptance that delegated to
    /// the proposing device.
    pub keyset_leaf: Address,
    pub spec_change: SpecChange,
}

impl ChangeRule {
    pub open spec fn spec(&self) -> SpecModel {
        self.spec_change.new_spec@
    }

    pub open spec fn authorizations(&self) -> Seq<Authorization> {
        self.spec_change.authorization_of_new_spec@
    }
}

} // verus!

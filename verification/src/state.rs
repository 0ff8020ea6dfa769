//! The records that are kept, and the lifecycle state machine.

use vstd::prelude::*;
use vstd::utf8::encode_utf8;

verus! {

/// The number of bytes that `text` takes when it is stored, which is the
/// length of its UTF-8 encoding.
pub open spec fn byte_len(text: Seq<char>) -> nat {
    encode_utf8(text).len()
}

/// The number of bytes that `text` takes when it is stored.
pub fn stored_len(text: &String) -> (n: usize)
    ensures
        n == byte_len(text@),
{
    text.as_str().as_bytes().len()
}

/// A party's identity: the 32 bytes of a public key. That a caller controls
/// the identity it presents is established before a request reaches this
/// library.
#[derive(Clone, Copy, Debug)]
pub struct Identity {
    /// The key's bytes.
    pub bytes: [u8; 32],
}

impl View for Identity {
    type V = Seq<u8>;

    open spec fn view(&self) -> Seq<u8> {
        self.bytes@
    }
}

impl PartialEq for Identity {
    /// Two identities are the same when all their bytes agree.
    fn eq(&self, other: &Identity) -> (same: bool) {
        let mut i: usize = 0;
        while i < 32
            invariant
                i <= 32,
                forall|j: int| 0 <= j < i ==> self.bytes[j] == other.bytes[j],
            decreases 32 - i,
        {
            if self.bytes[i] != other.bytes[i] {
                return false;
            }
            i += 1;
        }
        assert(self@ =~= other@);
        true
    }
}

impl Eq for Identity {

}

impl vstd::std_specs::cmp::PartialEqSpecImpl for Identity {
    open spec fn obeys_eq_spec() -> bool {
        true
    }

    open spec fn eq_spec(&self, other: &Identity) -> bool {
        self@ == other@
    }
}

/// Lifecycle state of a licensed agent: five live states, and `Revoked`,
/// which is terminal.
#[derive(Clone, Copy, PartialEq, Eq, Debug, Structural)]
pub enum PtasState {
    /// Idle, not yet activated.
    Dormant,
    /// On the way to `Active`.
    Activating,
    /// Ready to take a task.
    Active,
    /// Working on a task.
    Executing,
    /// Parked for a longer time.
    Hibernating,
    /// The license was withdrawn. Nothing leaves this state.
    Revoked,
}

/// The moves that the state machine allows, as pairs of a state and the
/// state that may follow it.
pub open spec fn legal_edges() -> Set<(PtasState, PtasState)> {
    set![
        (PtasState::Dormant, PtasState::Activating),
        (PtasState::Activating, PtasState::Active),
        (PtasState::Active, PtasState::Executing),
        (PtasState::Active, PtasState::Hibernating),
        (PtasState::Executing, PtasState::Active),
        (PtasState::Hibernating, PtasState::Activating),
    ]
}

impl PtasState {
    /// Whether the state machine may move from `self` to `new_state`.
    pub fn can_transition_to(&self, new_state: &PtasState) -> (ok: bool)
        ensures
            ok == legal_edges().contains((*self, *new_state)),
    {
        match (*self, *new_state) {
            (PtasState::Dormant, PtasState::Activating) => true,
            (PtasState::Activating, PtasState::Active) => true,
            (PtasState::Active, PtasState::Executing) => true,
            (PtasState::Active, PtasState::Hibernating) => true,
            (PtasState::Executing, PtasState::Active) => true,
            (PtasState::Hibernating, PtasState::Activating) => true,
            _ => false,
        }
    }
}

/// `Revoked` has no way out and no way in: no edge starts there, and none
/// ends there.
pub proof fn revoked_is_isolated(from: PtasState, to: PtasState)
    requires
        from == PtasState::Revoked || to == PtasState::Revoked,
    ensures
        !legal_edges().contains((from, to)),
{
}

/// The one record of a deployment: who may revoke any license, and how many
/// licenses were registered.
#[derive(Clone, Debug, PartialEq, Eq)]
pub struct ProgramConfig {
    /// The operator of the deployment. Set once.
    pub authority: Identity,
    /// The number of licenses registered so far. It only grows.
    pub total_licenses: u64,
    /// Part of the record's storage address.
    pub bump: u8,
}

/// A `ProgramConfig` as a mathematical value.
pub struct ProgramConfigView {
    pub authority: Seq<u8>,
    pub total_licenses: nat,
    pub bump: u8,
}

impl View for ProgramConfig {
    type V = ProgramConfigView;

    open spec fn view(&self) -> ProgramConfigView {
        ProgramConfigView {
            authority: self.authority@,
            total_licenses: self.total_licenses as nat,
            bump: self.bump,
        }
    }
}

impl ProgramConfig {
    /// Bytes that the stored record takes: its tag, then the fields.
    pub const SIZE: usize = 8 + 32 + 8 + 1;
}

/// The license of one agent.
#[derive(Clone, Debug, PartialEq, Eq)]
pub struct LicenseAccount {
    /// The agent's identifier, by which the record is found. At most 64 bytes.
    pub agent_id: String,
    /// Who controls the license.
    pub owner: Identity,
    /// The token, issued elsewhere, that this license stands for.
    pub nft_mint: Identity,
    /// Where the agent is in its lifecycle.
    pub ptas_state: PtasState,
    /// The kind of license. At most 64 bytes.
    pub license_type: String,
    /// What the agent may do by itself. At most 32 bytes.
    pub permission_level: String,
    /// Where the license holds. At most 64 bytes.
    pub jurisdiction: String,
    /// When the license was registered, in seconds since the Unix epoch.
    pub created_at: i64,
    /// Whether the license was withdrawn. Once set it stays set.
    pub revoked: bool,
    /// The number of audit entries written for this license.
    pub audit_count: u64,
    /// Part of the record's storage address.
    pub bump: u8,
}

/// A `LicenseAccount` as a mathematical value.
pub struct LicenseAccountView {
    pub agent_id: Seq<char>,
    pub owner: Seq<u8>,
    pub nft_mint: Seq<u8>,
    pub ptas_state: PtasState,
    pub license_type: Seq<char>,
    pub permission_level: Seq<char>,
    pub jurisdiction: Seq<char>,
    pub created_at: int,
    pub revoked: bool,
    pub audit_count: nat,
    pub bump: u8,
}

impl View for LicenseAccount {
    type V = LicenseAccountView;

    open spec fn view(&self) -> LicenseAccountView {
        LicenseAccountView {
            agent_id: self.agent_id@,
            owner: self.owner@,
            nft_mint: self.nft_mint@,
            ptas_state: self.ptas_state,
            license_type: self.license_type@,
            permission_level: self.permission_level@,
            jurisdiction: self.jurisdiction@,
            created_at: self.created_at as int,
            revoked: self.revoked,
            audit_count: self.audit_count as nat,
            bump: self.bump,
        }
    }
}

impl LicenseAccount {
    /// The most bytes that an agent identifier may take.
    pub const MAX_AGENT_ID_LEN: usize = 64;

    /// The most bytes that a license type may take.
    pub const MAX_LICENSE_TYPE_LEN: usize = 64;

    /// The most bytes that a permission level may take.
    pub const MAX_PERMISSION_LEVEL_LEN: usize = 32;

    /// The most bytes that a jurisdiction may take.
    pub const MAX_JURISDICTION_LEN: usize = 64;

    /// Bytes that the stored record takes: its tag, then the fields, each
    /// text with four bytes for its length.
    pub const SIZE: usize = 8 + 4 + Self::MAX_AGENT_ID_LEN + 32 + 32 + 1 + 4
        + Self::MAX_LICENSE_TYPE_LEN + 4 + Self::MAX_PERMISSION_LEVEL_LEN + 4
        + Self::MAX_JURISDICTION_LEN + 8 + 1 + 8 + 1;
}

impl LicenseAccountView {
    /// What holds of every license from its registration on: each text is
    /// within its bound, and the license is marked revoked exactly when its
    /// state is `Revoked`.
    pub open spec fn well_formed(self) -> bool {
        &&& byte_len(self.agent_id) <= LicenseAccount::MAX_AGENT_ID_LEN
        &&& byte_len(self.license_type) <= LicenseAccount::MAX_LICENSE_TYPE_LEN
        &&& byte_len(self.permission_level) <= LicenseAccount::MAX_PERMISSION_LEVEL_LEN
        &&& byte_len(self.jurisdiction) <= LicenseAccount::MAX_JURISDICTION_LEN
        &&& self.revoked <==> self.ptas_state == PtasState::Revoked
    }

    /// Whether `caller` may move the license and log against it: only the
    /// owner may.
    pub open spec fn owned_by(self, caller: Seq<u8>) -> bool {
        caller == self.owner
    }

    /// Whether `caller` may revoke the license in a deployment under
    /// `program_authority`: the owner may, and so may the authority,
    /// whatever the owner wants.
    pub open spec fn revocable_by(self, program_authority: Seq<u8>, caller: Seq<u8>) -> bool {
        caller == self.owner || caller == program_authority
    }
}

impl LicenseAccount {
    /// Whether `caller` is the license's owner.
    pub fn is_owner(&self, caller: &Identity) -> (ok: bool)
        ensures
            ok == self@.owned_by(caller@),
    {
        *caller == self.owner
    }

    /// Whether `caller` is the license's owner or the authority that
    /// `config` names.
    pub fn is_owner_or_authority(&self, config: &ProgramConfig, caller: &Identity) -> (ok: bool)
        ensures
            ok == self@.revocable_by(config@.authority, caller@),
    {
        *caller == self.owner || *caller == config.authority
    }
}

/// One logged action of an agent. Written once, never changed.
#[derive(Clone, Debug, PartialEq, Eq)]
pub struct AuditEntry {
    /// The address of the license that the action was logged against.
    pub license: Identity,
    /// The kind of action. At most 64 bytes.
    pub action: String,
    /// What was done. At most 256 bytes.
    pub details: String,
    /// When the action was logged, in seconds since the Unix epoch.
    pub timestamp: i64,
    /// Who did it. May differ from the license's owner.
    pub actor: Identity,
    /// Part of the record's storage address.
    pub bump: u8,
}

/// An `AuditEntry` as a mathematical value.
pub struct AuditEntryView {
    pub license: Seq<u8>,
    pub action: Seq<char>,
    pub details: Seq<char>,
    pub timestamp: int,
    pub actor: Seq<u8>,
    pub bump: u8,
}

impl View for AuditEntry {
    type V = AuditEntryView;

    open spec fn view(&self) -> AuditEntryView {
        AuditEntryView {
            license: self.license@,
            action: self.action@,
            details: self.details@,
            timestamp: self.timestamp as int,
            actor: self.actor@,
            bump: self.bump,
        }
    }
}

impl AuditEntry {
    /// The most bytes that an action may take.
    pub const MAX_ACTION_LEN: usize = 64;

    /// The most bytes that the details may take.
    pub const MAX_DETAILS_LEN: usize = 256;

    /// Bytes that the stored record takes: its tag, then the fields, each
    /// text with four bytes for its length.
    pub const SIZE: usize = 8 + 32 + 4 + Self::MAX_ACTION_LEN + 4 + Self::MAX_DETAILS_LEN + 8 + 32
        + 1;
}

impl AuditEntryView {
    /// Each text of the entry is within its bound.
    pub open spec fn well_formed(self) -> bool {
        &&& byte_len(self.action) <= AuditEntry::MAX_ACTION_LEN
        &&& byte_len(self.details) <= AuditEntry::MAX_DETAILS_LEN
    }
}

} // verus!

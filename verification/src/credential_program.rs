//! The on-chain credential program: soulbound experience credentials with
//! witness attestations and revocation.
//!
//! Each instruction is a function from the accounts' data to the new
//! account data and the event to emit, or an error that aborts the
//! transaction (leaving the accounts unchanged). The runtime supplies the
//! signers' keys, the credential account's key and bump, and the clock.
use vstd::prelude::*;

verus! {

/// Maximum number of witnesses that can corroborate a credential.
pub const MAX_WITNESSES: usize = 8;

/// Size of a credential account in bytes: discriminator, fields, and the
/// witness table.
pub const CREDENTIAL_SIZE: usize = 8 + 1 + 32 + 1 + 32 + 32 + 32 + 1 + 4 + 8 + 1 + (32 * 8) + 1;

/// Version written into new credentials.
pub const CREDENTIAL_VERSION: u8 = 2;

/// A soulbound credential account.
#[derive(Debug, Clone)]
pub struct ExperienceCredential {
    pub version: u8,
    pub agent_id: [u8; 32],
    pub claim_type: u8,
    pub proof_hash: [u8; 32],
    pub public_inputs_hash: [u8; 32],
    /// SHA-256 hash of the Pedersen commitments used in the range proof.
    pub commitments_hash: [u8; 32],
    pub witness_count: u8,
    /// Number of GPS points proven.
    pub count_proven: u32,
    pub issued_at: i64,
    pub revoked: bool,
    pub witnesses: [[u8; 32]; 8],
    pub bump: u8,
}

/// Errors of the credential program.
#[derive(Debug, Clone, Copy, PartialEq, Eq, Structural)]
pub enum ZkPoxError {
    /// Invalid claim type (must be 0-5).
    InvalidClaimType,
    /// Credential has been revoked.
    CredentialRevoked,
    /// Maximum number of witnesses reached.
    MaxWitnessesReached,
    /// This witness has already attested.
    AlreadyWitnessed,
    /// Only the credential owner can perform this action.
    Unauthorized,
    /// `count_proven` must be > 0.
    InvalidCountProven,
}

/// Event: a credential was submitted.
#[derive(Debug, Clone)]
pub struct CredentialSubmitted {
    pub agent: [u8; 32],
    pub credential_id: [u8; 32],
    pub claim_type: u8,
    pub proof_hash: [u8; 32],
    pub timestamp: i64,
}

/// Event: a witness attested to a credential.
#[derive(Debug, Clone)]
pub struct WitnessAdded {
    pub credential: [u8; 32],
    pub witness: [u8; 32],
    pub witness_count: u8,
}

/// Event: a credential was revoked.
#[derive(Debug, Clone)]
pub struct CredentialRevoked {
    pub credential: [u8; 32],
    pub agent: [u8; 32],
}

/// Accounts and runtime data of `submit_credential`: the signing agent,
/// the bump of the new credential account and the clock's time.
#[derive(Debug, Clone)]
pub struct SubmitCredential {
    pub agent: [u8; 32],
    pub credential_bump: u8,
    pub unix_timestamp: i64,
}

/// Accounts of `add_witness`: the signing witness and the credential
/// account's key.
#[derive(Debug, Clone)]
pub struct AddWitness {
    pub witness: [u8; 32],
    pub credential_key: [u8; 32],
}

/// Accounts of `revoke_credential`: the signing agent and the credential
/// account's key.
#[derive(Debug, Clone)]
pub struct RevokeCredential {
    pub agent: [u8; 32],
    pub credential_key: [u8; 32],
}

/// Whether a 32-byte key is all zeros (the filler of unused witness
/// slots).
pub open spec fn is_zero_key(k: [u8; 32]) -> bool {
    forall|b: int| 0 <= b < 32 ==> k@[b] == 0u8
}

/// Whether a credential's witness table is consistent: at most eight
/// witnesses, pairwise distinct, unused slots zero.
pub open spec fn credential_well_formed(c: ExperienceCredential) -> bool {
    &&& c.witness_count <= MAX_WITNESSES
    &&& forall|i: int, j: int|
        0 <= i < j < c.witness_count ==> #[trigger] c.witnesses@[i] != #[trigger] c.witnesses@[j]
    &&& forall|i: int| c.witness_count <= i < 8 ==> #[trigger] is_zero_key(c.witnesses@[i])
}

/// The witnesses recorded so far.
pub open spec fn witness_set(c: ExperienceCredential) -> Seq<[u8; 32]> {
    c.witnesses@.take(c.witness_count as int)
}

fn keys_equal(a: &[u8; 32], b: &[u8; 32]) -> (r: bool)
    ensures
        r == (*a == *b),
{
    let mut i: usize = 0;
    while i < 32
        invariant
            i <= 32,
            forall|k: int| 0 <= k < i ==> a@[k] == b@[k],
        decreases 32 - i,
    {
        if a[i] != b[i] {
            assert(a@[i as int] != b@[i as int]);
            return false;
        }
        i = i + 1;
    }
    assert(*a =~= *b);
    true
}

/// Submit a new experience credential.
///
/// The claim type must be a known code (0 to 5) and the proven count
/// positive. The credential records the agent, the hashes, the count and
/// the clock's time, with no witnesses and not revoked.
pub fn submit_credential(
    ctx: &SubmitCredential,
    credential_id: [u8; 32],
    claim_type: u8,
    proof_hash: [u8; 32],
    public_inputs_hash: [u8; 32],
    commitments_hash: [u8; 32],
    count_proven: u32,
) -> (r: Result<(ExperienceCredential, CredentialSubmitted), ZkPoxError>)
    ensures
        claim_type > 5 ==> r == Err::<(ExperienceCredential, CredentialSubmitted), ZkPoxError>(
            ZkPoxError::InvalidClaimType,
        ),
        claim_type <= 5 && count_proven == 0 ==> r == Err::<
            (ExperienceCredential, CredentialSubmitted),
            ZkPoxError,
        >(ZkPoxError::InvalidCountProven),
        claim_type <= 5 && count_proven > 0 ==> r is Ok,
        r matches Ok((c, ev)) ==> {
            &&& c.version == CREDENTIAL_VERSION
            &&& c.agent_id == ctx.agent
            &&& c.claim_type == claim_type
            &&& c.proof_hash == proof_hash
            &&& c.public_inputs_hash == public_inputs_hash
            &&& c.commitments_hash == commitments_hash
            &&& c.witness_count == 0
            &&& c.count_proven == count_proven
            &&& c.issued_at == ctx.unix_timestamp
            &&& !c.revoked
            &&& c.bump == ctx.credential_bump
            &&& credential_well_formed(c)
            &&& ev.agent == ctx.agent
            &&& ev.credential_id == credential_id
            &&& ev.claim_type == claim_type
            &&& ev.proof_hash == proof_hash
            &&& ev.timestamp == ctx.unix_timestamp
        },
{
    if claim_type > 5 {
        return Err(ZkPoxError::InvalidClaimType);
    }
    if count_proven == 0 {
        return Err(ZkPoxError::InvalidCountProven);
    }
    let credential = ExperienceCredential {
        version: CREDENTIAL_VERSION,
        agent_id: ctx.agent,
        claim_type,
        proof_hash,
        public_inputs_hash,
        commitments_hash,
        witness_count: 0,
        count_proven,
        issued_at: ctx.unix_timestamp,
        revoked: false,
        witnesses: [[0u8; 32]; 8],
        bump: ctx.credential_bump,
    };
    let event = CredentialSubmitted {
        agent: ctx.agent,
        credential_id,
        claim_type,
        proof_hash,
        timestamp: ctx.unix_timestamp,
    };
    Ok((credential, event))
}

/// Whether two credentials agree on everything but the witness table.
pub open spec fn same_record(a: ExperienceCredential, b: ExperienceCredential) -> bool {
    &&& a.version == b.version
    &&& a.agent_id == b.agent_id
    &&& a.claim_type == b.claim_type
    &&& a.proof_hash == b.proof_hash
    &&& a.public_inputs_hash == b.public_inputs_hash
    &&& a.commitments_hash == b.commitments_hash
    &&& a.count_proven == b.count_proven
    &&& a.issued_at == b.issued_at
    &&& a.revoked == b.revoked
    &&& a.bump == b.bump
}

/// Whether a key is among the recorded witnesses.
pub open spec fn has_witness(c: ExperienceCredential, key: [u8; 32]) -> bool {
    exists|i: int| 0 <= i < c.witness_count && c.witnesses@[i] == key
}

/// Add a witness attestation to a credential.
///
/// Refused on a revoked credential, on a full witness table, and for a
/// witness already recorded; otherwise the witness takes the next slot.
pub fn add_witness(ctx: &AddWitness, credential: &mut ExperienceCredential) -> (r: Result<WitnessAdded, ZkPoxError>)
    ensures
        old(credential).revoked ==> r == Err::<WitnessAdded, ZkPoxError>(ZkPoxError::CredentialRevoked),
        !old(credential).revoked && old(credential).witness_count >= MAX_WITNESSES ==> r == Err::<
            WitnessAdded,
            ZkPoxError,
        >(ZkPoxError::MaxWitnessesReached),
        !old(credential).revoked && old(credential).witness_count < MAX_WITNESSES && has_witness(
            *old(credential),
            ctx.witness,
        ) ==> r == Err::<WitnessAdded, ZkPoxError>(ZkPoxError::AlreadyWitnessed),
        !old(credential).revoked && old(credential).witness_count < MAX_WITNESSES && !has_witness(
            *old(credential),
            ctx.witness,
        ) ==> r is Ok,
        r is Err ==> *final(credential) == *old(credential),
        credential_well_formed(*old(credential)) ==> credential_well_formed(*final(credential)),
        r matches Ok(ev) ==> {
            &&& has_witness(*final(credential), ctx.witness)
            &&& same_record(*final(credential), *old(credential))
            &&& final(credential).witness_count == old(credential).witness_count + 1
            &&& final(credential).witnesses@ == old(credential).witnesses@.update(
                old(credential).witness_count as int,
                ctx.witness,
            )
            &&& ev.credential == ctx.credential_key
            &&& ev.witness == ctx.witness
            &&& ev.witness_count == final(credential).witness_count
        },
{
    if credential.revoked {
        return Err(ZkPoxError::CredentialRevoked);
    }
    if credential.witness_count as usize >= MAX_WITNESSES {
        return Err(ZkPoxError::MaxWitnessesReached);
    }
    let count = credential.witness_count as usize;
    let ghost orig = *credential;
    let mut i: usize = 0;
    while i < count
        invariant
            i <= count < 8,
            *credential == orig,
            !orig.revoked,
            count == credential.witness_count,
            forall|k: int| 0 <= k < i ==> credential.witnesses@[k] != ctx.witness,
        decreases count - i,
    {
        if keys_equal(&credential.witnesses[i], &ctx.witness) {
            return Err(ZkPoxError::AlreadyWitnessed);
        }
        i = i + 1;
    }
    credential.witnesses.set(count, ctx.witness);
    credential.witness_count = credential.witness_count + 1;
    proof {
        assert(credential.witnesses@[count as int] == ctx.witness);
        assert(!has_witness(orig, ctx.witness));
        if credential_well_formed(orig) {
            assert forall|a: int, b: int| 0 <= a < b < credential.witness_count implies #[trigger] credential.witnesses@[a]
                != #[trigger] credential.witnesses@[b] by {
                if b == count {
                    assert(credential.witnesses@[a] == orig.witnesses@[a]);
                } else {
                    assert(credential.witnesses@[a] == orig.witnesses@[a]);
                    assert(credential.witnesses@[b] == orig.witnesses@[b]);
                }
            }
            assert forall|a: int| credential.witness_count <= a < 8 implies is_zero_key(
                #[trigger] credential.witnesses@[a],
            ) by {
                assert(credential.witnesses@[a] == orig.witnesses@[a]);
            }
        }
    }
    Ok(WitnessAdded {
        credential: ctx.credential_key,
        witness: ctx.witness,
        witness_count: credential.witness_count,
    })
}

/// Revoke a credential. Only the agent that owns it can revoke it, and
/// only once.
pub fn revoke_credential(ctx: &RevokeCredential, credential: &mut ExperienceCredential) -> (r: Result<CredentialRevoked, ZkPoxError>)
    ensures
        old(credential).agent_id != ctx.agent ==> r == Err::<CredentialRevoked, ZkPoxError>(
            ZkPoxError::Unauthorized,
        ),
        old(credential).agent_id == ctx.agent && old(credential).revoked ==> r == Err::<
            CredentialRevoked,
            ZkPoxError,
        >(ZkPoxError::CredentialRevoked),
        old(credential).agent_id == ctx.agent && !old(credential).revoked ==> r is Ok,
        r is Err ==> *final(credential) == *old(credential),
        credential_well_formed(*old(credential)) ==> credential_well_formed(*final(credential)),
        old(credential).revoked ==> final(credential).revoked,
        r matches Ok(ev) ==> {
            &&& final(credential).revoked
            &&& *final(credential) == (ExperienceCredential { revoked: true, ..*old(credential) })
            &&& ev.credential == ctx.credential_key
            &&& ev.agent == ctx.agent
        },
{
    if !keys_equal(&credential.agent_id, &ctx.agent) {
        return Err(ZkPoxError::Unauthorized);
    }
    if credential.revoked {
        return Err(ZkPoxError::CredentialRevoked);
    }
    credential.revoked = true;
    Ok(CredentialRevoked { credential: ctx.credential_key, agent: ctx.agent })
}

/// In a well-formed credential the recorded witnesses are at most eight
/// and pairwise distinct.
pub proof fn lemma_well_formed_witnesses_distinct(c: ExperienceCredential)
    requires
        credential_well_formed(c),
    ensures
        witness_set(c).len() <= MAX_WITNESSES,
        witness_set(c).no_duplicates(),
{
    assert forall|i: int, j: int| 0 <= i < witness_set(c).len() && 0 <= j < witness_set(c).len() && i != j implies witness_set(c)[i] != witness_set(c)[j] by {
        if i < j {
            assert(c.witnesses@[i] != c.witnesses@[j]);
        } else {
            assert(c.witnesses@[j] != c.witnesses@[i]);
        }
    }
}

} // verus!

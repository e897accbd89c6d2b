//! A two-party, stake-based contest contract core.
//!
//! Two participants each authorize a wager of the same fungible-asset amount;
//! the contract escrows both stakes, picks a winner by a deterministic byte
//! comparison, and pays the winner double the stake.  The verified core is
//! the authorization and settlement logic: per-identity nonce-based replay
//! protection, verification that both parties signed mutually consistent
//! terms, and escrow-then-payout sequencing against an external asset ledger.
//!
//! The surrounding environment — durable storage, signature checking, and the
//! asset ledger itself — is an external collaborator.  Storage is modeled as
//! an explicit [`ContractState`] value, the call environment as a
//! [`CallContext`], and asset-ledger calls as [`session::TransferAction`]
//! values that the caller performs and reports back, so that the whole
//! decision logic is verified on plain values.

use vstd::prelude::*;

pub mod auth;
pub mod identity;
pub mod session;

use crate::auth::consume_accepted;
use crate::auth::consume_rejection;
use crate::auth::consumed_ledger;
use crate::auth::get_nonce;
use crate::auth::message_matches;
use crate::auth::nonce_of;
use crate::auth::resolve_identity;
use crate::auth::signed_payload;
use crate::auth::signer_of;
use crate::auth::verify_and_consume_nonce;
use crate::auth::AuthProof;
use crate::auth::AuthProofView;
use crate::auth::Error;
use crate::auth::MessageView;
use crate::auth::NonceLedger;
use crate::auth::BATTLE_LABEL;
use crate::identity::bytes_dup;
use crate::identity::Identity;
use crate::identity::IdentityView;
use crate::session::BattleSession;
use crate::session::Phase;

verus! {

/// The durable state of one contract instance: the write-once asset-ledger
/// address and the per-identity nonce counters.
pub struct ContractState {
    /// The external asset ledger's address; absent until initialization.
    pub token: Option<Vec<u8>>,
    /// The replay-protection counters.
    pub nonces: NonceLedger,
}

/// Mathematical value of a [`ContractState`].
pub struct StateView {
    pub token: Option<Seq<u8>>,
    pub nonces: Map<IdentityView, u64>,
}

impl View for ContractState {
    type V = StateView;

    open spec fn view(&self) -> StateView {
        StateView {
            token: match self.token {
                Option::None => Option::None,
                Option::Some(ref t) => Option::Some(t@),
            },
            nonces: self.nonces@,
        }
    }
}

impl ContractState {
    pub open spec fn wf(&self) -> bool {
        self.nonces.wf()
    }

    /// The state of a freshly deployed contract: no configuration, no
    /// recorded nonces.
    pub fn new() -> (r: ContractState)
        ensures
            r.wf(),
            r@.token is None,
            r@.nonces == Map::<IdentityView, u64>::empty(),
    {
        ContractState { token: Option::None, nonces: NonceLedger::new() }
    }
}

/// The facts the execution environment supplies about the current call.
pub struct CallContext {
    /// The identity of the direct caller, which implicit proofs resolve to.
    pub invoker: Identity,
    /// This contract's own 32-byte identifier, which takes custody of stakes.
    pub contract_id: Vec<u8>,
    /// The current ledger time.
    pub timestamp: u64,
}

/// Reads the stored asset-ledger address, or reports that the configuration
/// slot was never written.
pub fn get_token(state: &ContractState) -> (r: Result<Vec<u8>, Error>)
    ensures
        match r {
            Result::Ok(t) => state@.token matches Some(v) && t@ == v,
            Result::Err(e) => state@.token is None && e == Error::Uninitialized,
        },
{
    match &state.token {
        Option::Some(t) => Result::Ok(bytes_dup(t)),
        Option::None => Result::Err(Error::Uninitialized),
    }
}

/// The exact message a participant must have signed for one side of a
/// contest: the battle label over (signer, signer's nonce, counterpart,
/// amount).
pub open spec fn canonical_message(
    signer: IdentityView,
    nonce: u64,
    counterpart: IdentityView,
    amount: u128,
) -> MessageView {
    MessageView { label: BATTLE_LABEL, signer, nonce, counterpart, amount }
}

/// Whether a proof attests to message `m`: an implicit proof authorizes
/// whatever call its invoker makes, a signed proof attests exactly to the
/// message its signature covers.
pub open spec fn proof_attests(sig: AuthProofView, m: MessageView) -> bool {
    if sig is Invoker {
        true
    } else {
        signed_payload(sig) == m
    }
}

/// Checks one participant's proof against the canonical message for their
/// side of the contest.
pub fn verify_proof(
    sig: &AuthProof,
    signer: &Identity,
    nonce: u64,
    counterpart: &Identity,
    amount: u128,
) -> (r: Result<(), Error>)
    ensures
        r is Ok <==> proof_attests(sig@, canonical_message(signer@, nonce, counterpart@, amount)),
        r matches Err(e) ==> e == Error::InvalidAuthorization,
{
    match sig {
        AuthProof::Invoker => Result::Ok(()),
        AuthProof::Ed25519 { payload, .. } => {
            if message_matches(payload, BATTLE_LABEL, signer, nonce, counterpart, amount) {
                Result::Ok(())
            } else {
                Result::Err(Error::InvalidAuthorization)
            }
        },
        AuthProof::Account { payload, .. } => {
            if message_matches(payload, BATTLE_LABEL, signer, nonce, counterpart, amount) {
                Result::Ok(())
            } else {
                Result::Err(Error::InvalidAuthorization)
            }
        },
    }
}

/// Whether initialization succeeds: only on a never-written configuration.
pub open spec fn initialize_accepts(s: StateView) -> bool {
    s.token is None
}

/// The state after an initialization attempt: the address is stored if the
/// slot was empty, and nothing changes otherwise.
pub open spec fn initialized_state(s: StateView, addr: Seq<u8>) -> StateView {
    if s.token is None {
        StateView { token: Option::Some(addr), ..s }
    } else {
        s
    }
}

/// The result of a whole contest validation, in the order the checks run:
/// the first proof against its canonical message, its nonce consumption, the
/// second proof against its canonical message, its nonce consumption against
/// the counters the first consumption left, then the configuration read.
/// Both nonces are the stored counters as read before any consumption.
pub open spec fn battle_outcome(
    s: StateView,
    sig1: AuthProofView,
    sig2: AuthProofView,
    amount: u128,
    invoker: IdentityView,
) -> Result<(), Error> {
    let id1 = signer_of(sig1, invoker);
    let id2 = signer_of(sig2, invoker);
    let n1 = nonce_of(s.nonces, id1);
    let n2 = nonce_of(s.nonces, id2);
    if !proof_attests(sig1, canonical_message(id1, n1, id2, amount)) {
        Result::Err(Error::InvalidAuthorization)
    } else if !consume_accepted(s.nonces, sig1, n1) {
        Result::Err(consume_rejection(sig1))
    } else if !proof_attests(sig2, canonical_message(id2, n2, id1, amount)) {
        Result::Err(Error::InvalidAuthorization)
    } else if !consume_accepted(consumed_ledger(s.nonces, sig1, n1), sig2, n2) {
        Result::Err(consume_rejection(sig2))
    } else if s.token is None {
        Result::Err(Error::Uninitialized)
    } else {
        Result::Ok(())
    }
}

/// Whether a contest call is accepted at all.
pub open spec fn battle_accepts(
    s: StateView,
    sig1: AuthProofView,
    sig2: AuthProofView,
    amount: u128,
    invoker: IdentityView,
) -> bool {
    battle_outcome(s, sig1, sig2, amount, invoker) is Ok
}

/// The nonce counters after a settled contest: both consumptions applied in
/// order, each against the nonce read before either ran.
pub open spec fn settled_nonces(
    m: Map<IdentityView, u64>,
    sig1: AuthProofView,
    sig2: AuthProofView,
    invoker: IdentityView,
) -> Map<IdentityView, u64> {
    let n1 = nonce_of(m, signer_of(sig1, invoker));
    let n2 = nonce_of(m, signer_of(sig2, invoker));
    consumed_ledger(consumed_ledger(m, sig1, n1), sig2, n2)
}

/// The index of the byte compared for either participant: the ledger time
/// modulo 32, raised by 16 when the *first* participant is an account
/// reference.  The bias keeps the index inside the longer serialized form of
/// account identities; that both participants take it from the first
/// participant's variant is kept deliberately, as compatibility behavior.
/// Being derived from the public ledger time, the index is predictable and
/// is not a fairness mechanism.
pub open spec fn compare_index(timestamp: u64, first: IdentityView) -> u32 {
    (timestamp % 32 + if first is Account {
        16int
    } else {
        0int
    }) as u32
}

/// Machine limit: a consumed counter must be advanceable without wrapping.
pub open spec fn battle_nonce_limits_ok(
    s: StateView,
    sig1: AuthProofView,
    sig2: AuthProofView,
    invoker: IdentityView,
) -> bool {
    &&& !(sig1 is Invoker) ==> nonce_of(s.nonces, signer_of(sig1, invoker)) < u64::MAX
    &&& !(sig2 is Invoker) ==> nonce_of(s.nonces, signer_of(sig2, invoker)) < u64::MAX
}

/// Machine limit: on a contest that will be accepted, the compared byte must
/// exist in both serialized keys.
pub open spec fn battle_indices_ok(
    s: StateView,
    sig1: AuthProofView,
    sig2: AuthProofView,
    amount: u128,
    invoker: IdentityView,
    timestamp: u64,
) -> bool {
    battle_accepts(s, sig1, sig2, amount, invoker) ==> {
        let id1 = signer_of(sig1, invoker);
        let id2 = signer_of(sig2, invoker);
        let idx = compare_index(timestamp, id1);
        idx < id1.key_bytes().len() && idx < id2.key_bytes().len()
    }
}

/// The contract's public operations.
pub trait ByteBattleTraits {
    /// Stores the asset-ledger address, exactly once; a second call fails
    /// with [`Error::AlreadyInitialized`] and changes nothing.
    fn initialize(state: &mut ContractState, token_address: Vec<u8>) -> (r: Result<(), Error>)
        requires
            old(state).wf(),
        ensures
            final(state).wf(),
            final(state)@ == initialized_state(old(state)@, token_address@),
            r is Ok <==> initialize_accepts(old(state)@),
            r matches Err(e) ==> e == Error::AlreadyInitialized,
    ;

    /// Validates a contest between the signers of the two proofs and, when
    /// everything holds, opens its settlement session.  Validation alone
    /// never writes durable state: the consumed nonces are buffered in the
    /// session and committed only after a fully successful settlement.
    fn battle(
        state: &ContractState,
        ctx: &CallContext,
        sig1: &AuthProof,
        sig2: &AuthProof,
        amount: u128,
    ) -> (r: Result<BattleSession, Error>)
        requires
            state.wf(),
            amount <= u128::MAX / 2,
            battle_nonce_limits_ok(state@, sig1@, sig2@, ctx.invoker@),
            battle_indices_ok(state@, sig1@, sig2@, amount, ctx.invoker@, ctx.timestamp),
        ensures
            r is Ok <==> battle_accepts(state@, sig1@, sig2@, amount, ctx.invoker@),
            r matches Err(e) ==> Result::<(), Error>::Err(e) == battle_outcome(
                state@,
                sig1@,
                sig2@,
                amount,
                ctx.invoker@,
            ),
            r matches Ok(sess) ==> sess.wf(),
            r matches Ok(sess) ==> sess.phase is EscrowFirst,
            r matches Ok(sess) ==> sess.player1@ == signer_of(sig1@, ctx.invoker@),
            r matches Ok(sess) ==> sess.player2@ == signer_of(sig2@, ctx.invoker@),
            r matches Ok(sess) ==> sess.contract@ == IdentityView::Contract(ctx.contract_id@),
            r matches Ok(sess) ==> state@.token matches Some(t) && sess.token@ == t,
            r matches Ok(sess) ==> sess.amount == amount,
            r matches Ok(sess) ==> sess.index1 == compare_index(
                ctx.timestamp,
                signer_of(sig1@, ctx.invoker@),
            ) && sess.index2 == sess.index1,
            r matches Ok(sess) ==> sess.player1_wins == (signer_of(
                sig1@,
                ctx.invoker@,
            ).key_bytes()[sess.index1 as int] > signer_of(
                sig2@,
                ctx.invoker@,
            ).key_bytes()[sess.index2 as int]),
            r matches Ok(sess) ==> sess.staged@ == settled_nonces(
                state@.nonces,
                sig1@,
                sig2@,
                ctx.invoker@,
            ),
    ;

    /// Pass-through read of an identity's stored nonce.
    fn nonce(state: &ContractState, user: &Identity) -> (r: u64)
        requires
            state.wf(),
        ensures
            r == nonce_of(state@.nonces, user@),
    ;

    /// Returns the stored asset-ledger address.
    fn token(state: &ContractState) -> (r: Result<Vec<u8>, Error>)
        ensures
            match r {
                Result::Ok(t) => state@.token matches Some(v) && t@ == v,
                Result::Err(e) => state@.token is None && e == Error::Uninitialized,
            },
    ;
}

/// The contest orchestrator.
pub struct ByteBattle;

impl ByteBattleTraits for ByteBattle {
    fn initialize(state: &mut ContractState, token_address: Vec<u8>) -> (r: Result<(), Error>) {
        match &state.token {
            Option::Some(_) => {
                return Result::Err(Error::AlreadyInitialized);
            },
            Option::None => {},
        }
        state.token = Option::Some(token_address);
        Result::Ok(())
    }

    fn battle(
        state: &ContractState,
        ctx: &CallContext,
        sig1: &AuthProof,
        sig2: &AuthProof,
        amount: u128,
    ) -> (r: Result<BattleSession, Error>) {
        let id1 = resolve_identity(sig1, &ctx.invoker);
        let id2 = resolve_identity(sig2, &ctx.invoker);
        let n1 = get_nonce(&state.nonces, &id1);
        let n2 = get_nonce(&state.nonces, &id2);

        match verify_proof(sig1, &id1, n1, &id2, amount) {
            Result::Err(e) => {
                return Result::Err(e);
            },
            Result::Ok(()) => {},
        }
        let mut staged = state.nonces.duplicate();
        match verify_and_consume_nonce(&mut staged, sig1, n1) {
            Result::Err(e) => {
                return Result::Err(e);
            },
            Result::Ok(()) => {},
        }
        match verify_proof(sig2, &id2, n2, &id1, amount) {
            Result::Err(e) => {
                return Result::Err(e);
            },
            Result::Ok(()) => {},
        }
        match verify_and_consume_nonce(&mut staged, sig2, n2) {
            Result::Err(e) => {
                return Result::Err(e);
            },
            Result::Ok(()) => {},
        }

        let token = match &state.token {
            Option::Some(t) => bytes_dup(t),
            Option::None => {
                return Result::Err(Error::Uninitialized);
            },
        };

        let ts_index = (ctx.timestamp % 32) as u32;
        let index = if id1.is_account() {
            ts_index + 16
        } else {
            ts_index
        };
        let b1 = id1.key_byte(index as usize);
        let b2 = id2.key_byte(index as usize);

        Result::Ok(
            BattleSession {
                phase: Phase::EscrowFirst,
                player1: id1,
                player2: id2,
                contract: Identity::Contract(bytes_dup(&ctx.contract_id)),
                token,
                amount,
                index1: index,
                index2: index,
                player1_wins: b1 > b2,
                staged,
            },
        )
    }

    fn nonce(state: &ContractState, user: &Identity) -> (r: u64) {
        get_nonce(&state.nonces, user)
    }

    fn token(state: &ContractState) -> (r: Result<Vec<u8>, Error>) {
        get_token(state)
    }
}

/// Initialization is write-once: the first stored address survives any later
/// attempt, which is rejected.
pub proof fn lemma_initialize_write_once(s: StateView, a1: Seq<u8>, a2: Seq<u8>)
    requires
        initialize_accepts(s),
    ensures
        initialized_state(s, a1).token == Option::Some(a1),
        !initialize_accepts(initialized_state(s, a1)),
        initialized_state(initialized_state(s, a1), a2) == initialized_state(s, a1),
{
}

/// No replay: a pair of proofs that was accepted once is rejected when
/// presented again against the counters the settled contest left, as long as
/// at least one of the proofs is signed.
pub proof fn lemma_no_replay(
    s: StateView,
    sig1: AuthProofView,
    sig2: AuthProofView,
    amount: u128,
    invoker: IdentityView,
)
    requires
        battle_accepts(s, sig1, sig2, amount, invoker),
        !(sig1 is Invoker) || !(sig2 is Invoker),
        battle_nonce_limits_ok(s, sig1, sig2, invoker),
    ensures
        !battle_accepts(
            (StateView { nonces: settled_nonces(s.nonces, sig1, sig2, invoker), ..s }),
            sig1,
            sig2,
            amount,
            invoker,
        ),
{
    let id1 = signer_of(sig1, invoker);
    let id2 = signer_of(sig2, invoker);
    let n1 = nonce_of(s.nonces, id1);
    let n2 = nonce_of(s.nonces, id2);
    let m2 = settled_nonces(s.nonces, sig1, sig2, invoker);
    if !(sig1 is Invoker) {
        assert(signed_payload(sig1).nonce == n1);
        if !(sig2 is Invoker) && id1 == id2 {
            assert(!consume_accepted(consumed_ledger(s.nonces, sig1, n1), sig2, n2));
        }
        assert(nonce_of(m2, id1) == n1 + 1);
        assert(!proof_attests(sig1, canonical_message(id1, nonce_of(m2, id1), id2, amount)));
    } else {
        assert(n1 == 0);
        assert(signed_payload(sig2).nonce == n2);
        assert(m2 == s.nonces.insert(id2, (n2 + 1) as u64));
        if id1 == id2 {
            assert(nonce_of(m2, id1) == n2 + 1);
            assert(!consume_accepted(m2, sig1, nonce_of(m2, id1)));
        } else {
            assert(nonce_of(m2, id2) == n2 + 1);
            assert(!proof_attests(sig2, canonical_message(id2, nonce_of(m2, id2), id1, amount)));
        }
    }
}

/// Symmetry: swapping the two proofs does not change whether the contest is
/// accepted, for the same state, amount, and invoker.
pub proof fn lemma_symmetry(
    s: StateView,
    sig1: AuthProofView,
    sig2: AuthProofView,
    amount: u128,
    invoker: IdentityView,
)
    ensures
        battle_accepts(s, sig1, sig2, amount, invoker) == battle_accepts(
            s,
            sig2,
            sig1,
            amount,
            invoker,
        ),
{
    let id1 = signer_of(sig1, invoker);
    let id2 = signer_of(sig2, invoker);
    let n1 = nonce_of(s.nonces, id1);
    let n2 = nonce_of(s.nonces, id2);
    if id1 == id2 {
        assert(n1 == n2);
    }
    if !(sig1 is Invoker) && !(sig2 is Invoker) && id1 == id2 {
        assert(consume_accepted(consumed_ledger(s.nonces, sig1, n1), sig2, n2)
            == consume_accepted(consumed_ledger(s.nonces, sig2, n2), sig1, n1));
    }
}

/// Mismatched terms are rejected: two signed proofs whose payloads disagree
/// on the amount always fail with `InvalidAuthorization`, whatever amount
/// the call itself names — so no session opens and no funds move.
pub proof fn lemma_mismatched_terms(
    s: StateView,
    sig1: AuthProofView,
    sig2: AuthProofView,
    amount: u128,
    invoker: IdentityView,
)
    requires
        !(sig1 is Invoker),
        !(sig2 is Invoker),
        signed_payload(sig1).amount != signed_payload(sig2).amount,
    ensures
        battle_outcome(s, sig1, sig2, amount, invoker) == Result::<(), Error>::Err(
            Error::InvalidAuthorization,
        ),
{
}

} // verus!

//! Authorization proofs and the nonce ledger.
//!
//! The nonce ledger maps each identity to a monotonic 64-bit counter used to
//! prevent replay of previously authorized messages.  A proof is either
//! implicit (the direct caller authorized the call, no signature needed) or
//! signed.  A signed proof carries the message its signature covers: whether
//! the signature bytes actually verify against the signer's key or account
//! policy is decided by the surrounding host's account system, and a proof
//! value of this module stands for a signature that system has already
//! accepted.  What remains — and what is verified here — is that the attested
//! message matches the terms of the call and that its nonce is consumed
//! exactly once.

use vstd::prelude::*;

use crate::identity::bytes_dup;
use crate::identity::Identity;
use crate::identity::IdentityView;

verus! {

/// Every failure of the contract core; each aborts the current invocation.
#[derive(Clone, Copy, Debug, PartialEq, Eq, PartialOrd, Ord, Structural)]
pub enum Error {
    /// The configuration slot was written twice.
    AlreadyInitialized,
    /// An implicit proof declared a nonzero nonce.
    IncorrectNonceForInvoker,
    /// A signed proof's declared nonce does not match the stored counter.
    IncorrectNonce,
    /// A proof does not attest to the reconstructed canonical message.
    InvalidAuthorization,
    /// The external asset ledger rejected an escrow or payout transfer.
    StakeTransferFailed,
    /// The configuration slot was read before it was ever written.
    Uninitialized,
}

/// Domain-separation tag of contest messages: the ASCII bytes of "battle"
/// packed into one word, so a signature over a contest cannot be confused
/// with one intended for a different operation.
pub const BATTLE_LABEL: u64 = 0x62_61_74_74_6c_65;

/// The canonical message a participant signs: the operation label and the
/// 4-tuple of signer, the signer's declared nonce, counterpart, and amount.
pub struct Message {
    pub label: u64,
    pub signer: Identity,
    pub nonce: u64,
    pub counterpart: Identity,
    pub amount: u128,
}

/// Mathematical value of a [`Message`].
pub struct MessageView {
    pub label: u64,
    pub signer: IdentityView,
    pub nonce: u64,
    pub counterpart: IdentityView,
    pub amount: u128,
}

impl View for Message {
    type V = MessageView;

    open spec fn view(&self) -> MessageView {
        MessageView {
            label: self.label,
            signer: self.signer@,
            nonce: self.nonce,
            counterpart: self.counterpart@,
            amount: self.amount,
        }
    }
}

/// Compares a proof's attested payload against an expected message, field by
/// field.
pub fn message_matches(
    payload: &Message,
    label: u64,
    signer: &Identity,
    nonce: u64,
    counterpart: &Identity,
    amount: u128,
) -> (r: bool)
    ensures
        r == (payload@ == (MessageView {
            label,
            signer: signer@,
            nonce,
            counterpart: counterpart@,
            amount,
        })),
{
    payload.label == label && payload.signer.eq(signer) && payload.nonce == nonce
        && payload.counterpart.eq(counterpart) && payload.amount == amount
}

/// An assertion binding an identity to a message.
pub enum AuthProof {
    /// The direct caller authorized this call; valid only with nonce zero,
    /// and never bound to a stored counter.
    Invoker,
    /// A raw public key plus the message its signature covers.
    Ed25519 { public_key: Vec<u8>, payload: Message },
    /// An account reference plus the message its signatures cover; the
    /// account's signer policy is owned by the external account system.
    Account { account: Vec<u8>, payload: Message },
}

/// Mathematical value of an [`AuthProof`].
pub enum AuthProofView {
    Invoker,
    Ed25519 { public_key: Seq<u8>, payload: MessageView },
    Account { account: Seq<u8>, payload: MessageView },
}

impl View for AuthProof {
    type V = AuthProofView;

    open spec fn view(&self) -> AuthProofView {
        match self {
            AuthProof::Invoker => AuthProofView::Invoker,
            AuthProof::Ed25519 { public_key, payload } => AuthProofView::Ed25519 {
                public_key: public_key@,
                payload: payload@,
            },
            AuthProof::Account { account, payload } => AuthProofView::Account {
                account: account@,
                payload: payload@,
            },
        }
    }
}

/// The identity a signed proof claims as its signer.  Meaningful only for
/// signed proofs; an implicit proof's signer is the invoker, which the proof
/// itself does not carry.
pub open spec fn signed_signer(sig: AuthProofView) -> IdentityView
    recommends
        !(sig is Invoker),
{
    match sig {
        AuthProofView::Invoker => IdentityView::Ed25519(Seq::empty()),
        AuthProofView::Ed25519 { public_key, .. } => IdentityView::Ed25519(public_key),
        AuthProofView::Account { account, .. } => IdentityView::Account(account),
    }
}

/// The message a signed proof attests to.  Meaningful only for signed
/// proofs; an implicit proof attests to whatever call its invoker makes.
pub open spec fn signed_payload(sig: AuthProofView) -> MessageView
    recommends
        !(sig is Invoker),
{
    match sig {
        AuthProofView::Invoker => MessageView {
            label: 0,
            signer: IdentityView::Ed25519(Seq::empty()),
            nonce: 0,
            counterpart: IdentityView::Ed25519(Seq::empty()),
            amount: 0,
        },
        AuthProofView::Ed25519 { payload, .. } => payload,
        AuthProofView::Account { payload, .. } => payload,
    }
}

/// The identity a proof resolves to, given the call's invoker.
pub open spec fn signer_of(sig: AuthProofView, invoker: IdentityView) -> IdentityView {
    if sig is Invoker {
        invoker
    } else {
        signed_signer(sig)
    }
}

/// Resolves the signer identity of a proof.
pub fn resolve_identity(sig: &AuthProof, invoker: &Identity) -> (r: Identity)
    ensures
        r@ == signer_of(sig@, invoker@),
{
    match sig {
        AuthProof::Invoker => invoker.duplicate(),
        AuthProof::Ed25519 { public_key, .. } => Identity::Ed25519(bytes_dup(public_key)),
        AuthProof::Account { account, .. } => Identity::Account(bytes_dup(account)),
    }
}

/// The counter stored for an identity, or 0 if it was never recorded.
pub open spec fn nonce_of(m: Map<IdentityView, u64>, id: IdentityView) -> u64 {
    if m.contains_key(id) {
        m[id]
    } else {
        0
    }
}

/// Whether consuming `claimed` for `sig` succeeds against the counters `m`:
/// an implicit proof must declare exactly zero, a signed proof must declare
/// exactly the stored counter of its signer.
pub open spec fn consume_accepted(m: Map<IdentityView, u64>, sig: AuthProofView, claimed: u64) -> bool {
    if sig is Invoker {
        claimed == 0
    } else {
        claimed == nonce_of(m, signed_signer(sig))
    }
}

/// The error a failed consumption reports.
pub open spec fn consume_rejection(sig: AuthProofView) -> Error {
    if sig is Invoker {
        Error::IncorrectNonceForInvoker
    } else {
        Error::IncorrectNonce
    }
}

/// The counters after a consumption attempt: advanced by one for a
/// successful signed proof, unchanged otherwise.  An implicit proof never
/// writes — there is no stored state for implicit callers.
pub open spec fn consumed_ledger(
    m: Map<IdentityView, u64>,
    sig: AuthProofView,
    claimed: u64,
) -> Map<IdentityView, u64> {
    if consume_accepted(m, sig, claimed) && !(sig is Invoker) {
        m.insert(signed_signer(sig), (claimed + 1) as u64)
    } else {
        m
    }
}

/// The per-identity nonce counters, keyed by identity.
pub struct NonceLedger {
    entries: Vec<(Identity, u64)>,
}

/// No identity occurs twice among the entries.
spec fn entries_unique(s: Seq<(Identity, u64)>) -> bool {
    forall|i: int, j: int| 0 <= i < j < s.len() ==> s[i].0@ != s[j].0@
}

/// The mapping the entries denote.
spec fn entries_map(s: Seq<(Identity, u64)>) -> Map<IdentityView, u64>
    decreases s.len(),
{
    if s.len() == 0 {
        Map::empty()
    } else {
        entries_map(s.drop_last()).insert(s.last().0@, s.last().1)
    }
}

proof fn lemma_map_present(s: Seq<(Identity, u64)>, i: int)
    requires
        entries_unique(s),
        0 <= i < s.len(),
    ensures
        entries_map(s).contains_key(s[i].0@),
        entries_map(s)[s[i].0@] == s[i].1,
    decreases s.len(),
{
    if i < s.len() - 1 {
        lemma_map_present(s.drop_last(), i);
    }
}

proof fn lemma_map_absent(s: Seq<(Identity, u64)>, k: IdentityView)
    requires
        forall|i: int| 0 <= i < s.len() ==> s[i].0@ != k,
    ensures
        !entries_map(s).contains_key(k),
    decreases s.len(),
{
    if s.len() > 0 {
        lemma_map_absent(s.drop_last(), k);
    }
}

proof fn lemma_map_update(s: Seq<(Identity, u64)>, i: int, p: (Identity, u64))
    requires
        entries_unique(s),
        0 <= i < s.len(),
        p.0@ == s[i].0@,
    ensures
        entries_unique(s.update(i, p)),
        entries_map(s.update(i, p)) == entries_map(s).insert(p.0@, p.1),
    decreases s.len(),
{
    let s2 = s.update(i, p);
    assert(forall|j: int| 0 <= j < s.len() ==> s2[j].0@ == s[j].0@);
    if i == s.len() - 1 {
        assert(s2.drop_last() =~= s.drop_last());
        assert(entries_map(s2) =~= entries_map(s).insert(p.0@, p.1));
    } else {
        assert(s2.drop_last() =~= s.drop_last().update(i, p));
        lemma_map_update(s.drop_last(), i, p);
        assert(entries_map(s2) =~= entries_map(s).insert(p.0@, p.1));
    }
}

proof fn lemma_map_push(s: Seq<(Identity, u64)>, p: (Identity, u64))
    ensures
        entries_map(s.push(p)) == entries_map(s).insert(p.0@, p.1),
{
    assert(s.push(p).drop_last() =~= s);
    assert(s.push(p).last() == p);
}

proof fn lemma_map_congruent(s1: Seq<(Identity, u64)>, s2: Seq<(Identity, u64)>)
    requires
        s1.len() == s2.len(),
        forall|i: int| 0 <= i < s1.len() ==> s1[i].0@ == s2[i].0@ && s1[i].1 == s2[i].1,
    ensures
        entries_map(s1) == entries_map(s2),
    decreases s1.len(),
{
    if s1.len() > 0 {
        lemma_map_congruent(s1.drop_last(), s2.drop_last());
        assert(entries_map(s1) =~= entries_map(s2));
    } else {
        assert(entries_map(s1) =~= entries_map(s2));
    }
}

impl View for NonceLedger {
    type V = Map<IdentityView, u64>;

    closed spec fn view(&self) -> Map<IdentityView, u64> {
        entries_map(self.entries@)
    }
}

impl NonceLedger {
    /// Each identity has at most one entry.
    pub closed spec fn wf(&self) -> bool {
        entries_unique(self.entries@)
    }

    /// An empty ledger: every identity's counter reads as 0.
    pub fn new() -> (r: NonceLedger)
        ensures
            r.wf(),
            r@ == Map::<IdentityView, u64>::empty(),
    {
        NonceLedger { entries: Vec::new() }
    }

    fn find(&self, id: &Identity) -> (r: Option<usize>)
        ensures
            match r {
                Option::Some(i) => i < self.entries@.len() && self.entries@[i as int].0@ == id@,
                Option::None => forall|j: int|
                    0 <= j < self.entries@.len() ==> self.entries@[j].0@ != id@,
            },
    {
        let mut i: usize = 0;
        while i < self.entries.len()
            invariant
                i <= self.entries@.len(),
                forall|j: int| 0 <= j < i ==> self.entries@[j].0@ != id@,
            decreases self.entries@.len() - i,
        {
            if self.entries[i].0.eq(id) {
                return Option::Some(i);
            }
            i += 1;
        }
        Option::None
    }

    /// Copies the ledger; the copy denotes the same counters.
    pub fn duplicate(&self) -> (r: NonceLedger)
        ensures
            r@ == self@,
            self.wf() ==> r.wf(),
    {
        let mut entries: Vec<(Identity, u64)> = Vec::new();
        let mut i: usize = 0;
        while i < self.entries.len()
            invariant
                i <= self.entries@.len(),
                entries@.len() == i,
                forall|j: int|
                    0 <= j < i ==> entries@[j].0@ == self.entries@[j].0@ && entries@[j].1
                        == self.entries@[j].1,
            decreases self.entries@.len() - i,
        {
            let e = &self.entries[i];
            entries.push((e.0.duplicate(), e.1));
            i += 1;
        }
        let r = NonceLedger { entries };
        proof {
            lemma_map_congruent(r.entries@, self.entries@);
        }
        r
    }
}

/// Returns the stored nonce for `id`, or 0 if never recorded.  Pure read.
pub fn get_nonce(ledger: &NonceLedger, id: &Identity) -> (r: u64)
    requires
        ledger.wf(),
    ensures
        r == nonce_of(ledger@, id@),
{
    match ledger.find(id) {
        Option::Some(i) => {
            proof {
                lemma_map_present(ledger.entries@, i as int);
            }
            ledger.entries[i].1
        },
        Option::None => {
            proof {
                lemma_map_absent(ledger.entries@, id@);
            }
            0
        },
    }
}

/// Stores `nonce` for `id`, replacing any previous record.
pub fn set_nonce(ledger: &mut NonceLedger, id: &Identity, nonce: u64)
    requires
        old(ledger).wf(),
    ensures
        final(ledger).wf(),
        final(ledger)@ == old(ledger)@.insert(id@, nonce),
{
    match ledger.find(id) {
        Option::Some(i) => {
            let p = (id.duplicate(), nonce);
            proof {
                lemma_map_update(ledger.entries@, i as int, p);
            }
            ledger.entries[i] = p;
        },
        Option::None => {
            let p = (id.duplicate(), nonce);
            proof {
                lemma_map_push(ledger.entries@, p);
            }
            ledger.entries.push(p);
        },
    }
}

/// Validates a proof's declared nonce against the stored counters and, for a
/// successful signed proof, advances the signer's counter by one.  At most
/// one write happens, and only after validation succeeds; an implicit proof
/// never writes.
pub fn verify_and_consume_nonce(ledger: &mut NonceLedger, sig: &AuthProof, claimed_nonce: u64) -> (r:
    Result<(), Error>)
    requires
        old(ledger).wf(),
        !(sig@ is Invoker) && consume_accepted(old(ledger)@, sig@, claimed_nonce)
            ==> claimed_nonce < u64::MAX,
    ensures
        final(ledger).wf(),
        final(ledger)@ == consumed_ledger(old(ledger)@, sig@, claimed_nonce),
        r is Ok <==> consume_accepted(old(ledger)@, sig@, claimed_nonce),
        r matches Err(e) ==> e == consume_rejection(sig@),
{
    match sig {
        AuthProof::Invoker => {
            if claimed_nonce != 0 {
                return Result::Err(Error::IncorrectNonceForInvoker);
            }
            Result::Ok(())
        },
        AuthProof::Ed25519 { public_key, .. } => {
            let id = Identity::Ed25519(bytes_dup(public_key));
            let stored = get_nonce(ledger, &id);
            if claimed_nonce != stored {
                return Result::Err(Error::IncorrectNonce);
            }
            set_nonce(ledger, &id, claimed_nonce + 1);
            Result::Ok(())
        },
        AuthProof::Account { account, .. } => {
            let id = Identity::Account(bytes_dup(account));
            let stored = get_nonce(ledger, &id);
            if claimed_nonce != stored {
                return Result::Err(Error::IncorrectNonce);
            }
            set_nonce(ledger, &id, claimed_nonce + 1);
            Result::Ok(())
        },
    }
}

/// One successful signed consumption: the signer's counter advances by one.
pub open spec fn advance(m: Map<IdentityView, u64>, id: IdentityView) -> Map<IdentityView, u64> {
    m.insert(id, (nonce_of(m, id) + 1) as u64)
}

/// `n` successful signed consumptions in a row for the same identity.
pub open spec fn advance_n(m: Map<IdentityView, u64>, id: IdentityView, n: nat) -> Map<
    IdentityView,
    u64,
>
    decreases n,
{
    if n == 0 {
        m
    } else {
        advance(advance_n(m, id, (n - 1) as nat), id)
    }
}

/// A signed consumption that declares the signer's current counter succeeds,
/// and its effect on the counters is exactly one advance of that signer.
pub proof fn lemma_signed_consume_advances(m: Map<IdentityView, u64>, sig: AuthProofView, claimed: u64)
    requires
        !(sig is Invoker),
        claimed == nonce_of(m, signed_signer(sig)),
    ensures
        consume_accepted(m, sig, claimed),
        consumed_ledger(m, sig, claimed) == advance(m, signed_signer(sig)),
{
}

/// Nonce monotonicity: starting from a counter of 0, after `n` successful
/// signed consumptions an identity's counter reads exactly `n`, and a signed
/// proof of that identity is then accepted if and only if it declares `n`.
pub proof fn lemma_nonce_monotonicity(
    m: Map<IdentityView, u64>,
    id: IdentityView,
    n: nat,
    sig: AuthProofView,
    claimed: u64,
)
    requires
        nonce_of(m, id) == 0,
        n <= u64::MAX,
        !(sig is Invoker),
        signed_signer(sig) == id,
    ensures
        nonce_of(advance_n(m, id, n), id) == n,
        consume_accepted(advance_n(m, id, n), sig, claimed) <==> claimed == n,
    decreases n,
{
    if n > 0 {
        lemma_nonce_monotonicity(m, id, (n - 1) as nat, sig, claimed);
    }
}

/// Any run of implicit consumption attempts, whatever nonces they declare
/// and whether they succeed or fail.
pub open spec fn implicit_run(m: Map<IdentityView, u64>, claims: Seq<u64>) -> Map<IdentityView, u64>
    decreases claims.len(),
{
    if claims.len() == 0 {
        m
    } else {
        consumed_ledger(implicit_run(m, claims.drop_last()), AuthProofView::Invoker, claims.last())
    }
}

/// Implicit proofs never advance state: a run of any number of implicit
/// consumption attempts leaves every identity's counter unchanged.
pub proof fn lemma_implicit_never_advances(m: Map<IdentityView, u64>, claims: Seq<u64>)
    ensures
        implicit_run(m, claims) == m,
    decreases claims.len(),
{
    if claims.len() > 0 {
        lemma_implicit_never_advances(m, claims.drop_last());
    }
}

} // verus!

//! Settlement sessions: escrow-then-payout sequencing.
//!
//! The asset ledger is an external collaborator, so the contract core does
//! not move funds itself.  A validated contest yields a [`BattleSession`]
//! that tells its caller which transfer to perform next; the caller performs
//! it against the real asset ledger and reports whether it was accepted.
//! Storage writes are buffered in the session and committed only when the
//! whole settlement has succeeded, so a failed invocation leaves no state
//! mutation behind — the all-or-nothing semantics the surrounding
//! transaction boundary owes the caller.

use vstd::prelude::*;

use crate::auth::Error;
use crate::auth::NonceLedger;
use crate::identity::Identity;
use crate::identity::IdentityView;

verus! {

/// Where a settlement stands.
#[derive(Clone, Copy, Debug, PartialEq, Eq, Structural)]
pub enum Phase {
    /// Awaiting the escrow of the first player's stake.
    EscrowFirst,
    /// Awaiting the escrow of the second player's stake.
    EscrowSecond,
    /// Both stakes escrowed; awaiting the payout to the winner.
    Payout,
    /// Payout accepted; the buffered nonce writes may be committed.
    Done,
    /// A transfer was rejected; the invocation is abandoned unchanged.
    Aborted,
}

/// One transfer the caller must perform against the external asset ledger.
pub struct TransferAction {
    pub from: Identity,
    pub to: Identity,
    pub amount: u128,
}

/// The phase after one transfer result is recorded.
pub open spec fn phase_step(p: Phase, accepted: bool) -> Phase {
    match p {
        Phase::EscrowFirst => if accepted {
            Phase::EscrowSecond
        } else {
            Phase::Aborted
        },
        Phase::EscrowSecond => if accepted {
            Phase::Payout
        } else {
            Phase::Aborted
        },
        Phase::Payout => if accepted {
            Phase::Done
        } else {
            Phase::Aborted
        },
        Phase::Done => Phase::Done,
        Phase::Aborted => Phase::Aborted,
    }
}

/// The phase after a run of transfer results.
pub open spec fn phase_run(p: Phase, results: Seq<bool>) -> Phase
    decreases results.len(),
{
    if results.len() == 0 {
        p
    } else {
        phase_step(phase_run(p, results.drop_last()), results.last())
    }
}

/// Escrow before payout: a session only reaches the payout phase — and so
/// only ever asks for the payout transfer — after the run of recorded
/// results begins with both escrow transfers accepted, and it only completes
/// after the payout too was accepted.
pub proof fn lemma_escrow_before_payout(results: Seq<bool>)
    ensures
        phase_run(Phase::EscrowFirst, results) is EscrowFirst ==> results.len() == 0,
        phase_run(Phase::EscrowFirst, results) is EscrowSecond ==> results.len() == 1
            && results[0],
        phase_run(Phase::EscrowFirst, results) is Payout ==> results.len() == 2 && results[0]
            && results[1],
        phase_run(Phase::EscrowFirst, results) is Done ==> results.len() >= 3 && results[0]
            && results[1] && results[2],
    decreases results.len(),
{
    if results.len() > 0 {
        let prefix = results.drop_last();
        lemma_escrow_before_payout(prefix);
        assert(forall|k: int| 0 <= k < prefix.len() ==> prefix[k] == results[k]);
    }
}

/// A validated contest, ready to be settled.
///
/// Produced only by contest validation; the caller drives it by performing
/// each [`TransferAction`] and recording the asset ledger's verdict.
pub struct BattleSession {
    pub phase: Phase,
    /// The first participant, as resolved from the first proof.
    pub player1: Identity,
    /// The second participant.
    pub player2: Identity,
    /// The contract's own identity, which takes custody of the stakes.
    pub contract: Identity,
    /// The configured asset-ledger address all transfers go against.
    pub token: Vec<u8>,
    /// The stake each participant wagers.
    pub amount: u128,
    /// Index of the byte compared in the first player's key.
    pub index1: u32,
    /// Index of the byte compared in the second player's key.
    pub index2: u32,
    /// Whether the first player's key byte was strictly greater.
    pub player1_wins: bool,
    /// The nonce counters as they must read after settlement; buffered here
    /// and committed only once the payout has been accepted.
    pub staged: NonceLedger,
}

impl BattleSession {
    /// The doubled stake must be representable.
    pub open spec fn wf(&self) -> bool {
        self.amount <= u128::MAX / 2 && self.staged.wf()
    }

    /// The winning identity: the player whose own key byte at its own index
    /// is strictly greater; ties go to the second player.
    pub open spec fn winner_view(&self) -> IdentityView {
        if self.player1_wins {
            self.player1@
        } else {
            self.player2@
        }
    }

    /// Whether the session still awaits a transfer result.
    pub open spec fn in_flight(&self) -> bool {
        self.phase is EscrowFirst || self.phase is EscrowSecond || self.phase is Payout
    }

    /// The transfer the caller must perform next: each player's stake into
    /// the contract's custody, then double the stake to the winner; nothing
    /// once the session is done or abandoned.
    pub fn next_action(&self) -> (r: Option<TransferAction>)
        requires
            self.wf(),
        ensures
            match r {
                Option::Some(t) => {
                    &&& self.in_flight()
                    &&& self.phase is EscrowFirst ==> t.from@ == self.player1@ && t.to@
                        == self.contract@ && t.amount == self.amount
                    &&& self.phase is EscrowSecond ==> t.from@ == self.player2@ && t.to@
                        == self.contract@ && t.amount == self.amount
                    &&& self.phase is Payout ==> t.from@ == self.contract@ && t.to@
                        == self.winner_view() && t.amount == 2 * self.amount
                },
                Option::None => !self.in_flight(),
            },
    {
        match self.phase {
            Phase::EscrowFirst => Option::Some(
                TransferAction {
                    from: self.player1.duplicate(),
                    to: self.contract.duplicate(),
                    amount: self.amount,
                },
            ),
            Phase::EscrowSecond => Option::Some(
                TransferAction {
                    from: self.player2.duplicate(),
                    to: self.contract.duplicate(),
                    amount: self.amount,
                },
            ),
            Phase::Payout => Option::Some(
                TransferAction {
                    from: self.contract.duplicate(),
                    to: if self.player1_wins {
                        self.player1.duplicate()
                    } else {
                        self.player2.duplicate()
                    },
                    amount: 2 * self.amount,
                },
            ),
            Phase::Done => Option::None,
            Phase::Aborted => Option::None,
        }
    }

    /// Records the asset ledger's verdict on the pending transfer.  A
    /// rejected transfer abandons the whole settlement.
    pub fn record_result(&mut self, accepted: bool) -> (r: Result<(), Error>)
        requires
            old(self).in_flight(),
        ensures
            final(self).phase == phase_step(old(self).phase, accepted),
            final(self).player1 == old(self).player1,
            final(self).player2 == old(self).player2,
            final(self).contract == old(self).contract,
            final(self).token == old(self).token,
            final(self).amount == old(self).amount,
            final(self).index1 == old(self).index1,
            final(self).index2 == old(self).index2,
            final(self).player1_wins == old(self).player1_wins,
            final(self).staged == old(self).staged,
            r is Ok <==> accepted,
            r matches Err(e) ==> e == Error::StakeTransferFailed,
    {
        if accepted {
            self.phase = match self.phase {
                Phase::EscrowFirst => Phase::EscrowSecond,
                Phase::EscrowSecond => Phase::Payout,
                Phase::Payout => Phase::Done,
                Phase::Done => Phase::Done,
                Phase::Aborted => Phase::Aborted,
            };
            Result::Ok(())
        } else {
            self.phase = Phase::Aborted;
            Result::Err(Error::StakeTransferFailed)
        }
    }

    /// The observable outcome once settlement is done: both tiebreak keys
    /// and both compare indices.
    pub fn outcome(&self) -> (r: (Vec<u8>, Vec<u8>, u32, u32))
        requires
            self.phase is Done,
        ensures
            r.0@ == self.player1@.key_bytes(),
            r.1@ == self.player2@.key_bytes(),
            r.2 == self.index1,
            r.3 == self.index2,
    {
        (self.player1.serialized_bytes(), self.player2.serialized_bytes(), self.index1, self.index2)
    }

    /// Commits the buffered nonce writes to the durable counters.  Only a
    /// fully settled session may commit: an invocation that failed anywhere
    /// leaves the durable state exactly as it was.
    pub fn commit(self, nonces: &mut NonceLedger)
        requires
            self.phase is Done,
            self.staged.wf(),
        ensures
            final(nonces)@ == self.staged@,
            final(nonces).wf(),
    {
        *nonces = self.staged;
    }
}

} // verus!

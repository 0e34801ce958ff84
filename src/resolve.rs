//! Resolution of a transfer once the receiver's answer is known: keep the
//! transfer, or hand the token back if nothing has moved it since.
use vstd::prelude::*;
use crate::ledger::{Contract, ContractView, with_lender};
use crate::nft::{
    TransferEvent, event_is, single_token_event, transfer_error, transferred,
};
use crate::token_id::{lease_of, lease_token_id_to_lease_id};

verus! {

/// The settled outcome of the call to the receiver.
#[derive(Debug)]
pub enum ReceiverOutcome {
    /// The receiver returned this JSON payload.
    Successful(Vec<u8>),
    /// The receiver's call trapped, ran out of gas or was lost.
    Failed,
}

/// The boolean that a JSON text stands for, if it is one.
pub uninterp spec fn json_bool(bytes: Seq<u8>) -> Option<bool>;

/// Relies on serde_json::from_slice::<bool>, re-exported by near_sdk: the
/// result depends on the bytes alone, and the texts `true` and `false` give
/// their boolean.
#[verifier::external_body]
fn decode_bool(bytes: &[u8]) -> (r: Option<bool>)
    ensures
        r == json_bool(bytes@),
        bytes@ == seq![116u8, 114u8, 117u8, 101u8] ==> r == Some(true),
        bytes@ == seq![102u8, 97u8, 108u8, 115u8, 101u8] ==> r == Some(false),
{
    near_sdk::serde_json::from_slice::<bool>(bytes).ok()
}

/// Whether a decoded receiver answer asks for the token back: only a clear
/// `false` lets the transfer stand.
pub open spec fn revert_requested_spec(decoded: Option<bool>) -> bool {
    decoded != Some(false)
}

/// Whether the receiver outcome `o` calls for a revert. Failure and a payload
/// that is no boolean revert, as does `true`.
pub open spec fn outcome_reverts(o: ReceiverOutcome) -> bool {
    match o {
        ReceiverOutcome::Failed => true,
        ReceiverOutcome::Successful(v) => revert_requested_spec(json_bool(v@)),
    }
}

/// Whether a decoded receiver answer asks for the token back.
pub fn revert_requested(decoded: Option<bool>) -> (r: bool)
    ensures
        r == revert_requested_spec(decoded),
{
    match decoded {
        Some(b) => b,
        None => true,
    }
}

/// Whether the receiver outcome calls for a revert.
pub fn should_revert(outcome: &ReceiverOutcome) -> (r: bool)
    ensures
        r == outcome_reverts(*outcome),
{
    match outcome {
        ReceiverOutcome::Failed => true,
        ReceiverOutcome::Successful(v) => revert_requested(decode_bool(v.as_slice())),
    }
}

/// What the resolution of a transfer reports.
#[derive(Debug)]
pub struct Resolution {
    /// True where the token was to go back to the sender, whether or not it
    /// could be handed back.
    pub reverted: bool,
    /// The compensating transfer, where one was written.
    pub event: Option<TransferEvent>,
}

/// Whether the token `token_id` may be handed back: it is still live and
/// `receiver` still owns it.
pub open spec fn can_restore(c: ContractView, receiver: Seq<char>, token_id: Seq<char>) -> bool {
    lease_of(token_id) matches Some(l) && c.active.contains(l) && c.leases[l].lender_id == receiver
}

/// `r` and the move from `before` to `after` are the resolution of a transfer
/// of `token_id` from `previous_owner` to `receiver`, with decision `revert`.
pub open spec fn resolved(
    before: ContractView,
    after: ContractView,
    revert: bool,
    previous_owner: Seq<char>,
    receiver: Seq<char>,
    token_id: Seq<char>,
    memo: Option<String>,
    r: Resolution,
) -> bool {
    &&& r.reverted == revert
    &&& if revert && can_restore(before, receiver, token_id) {
        &&& transferred(before, after, previous_owner, token_id)
        &&& r.event matches Some(e) && event_is(e, receiver, previous_owner, token_id, memo)
    } else {
        &&& after == before
        &&& r.event is None
    }
}

impl Contract {
    /// Carries out the decision `revert` on a transfer of `token_id` from
    /// `previous_owner_id` to `receiver_id`. The token goes back only where
    /// the receiver still owns it.
    pub fn apply_resolution(
        &mut self,
        revert: bool,
        previous_owner_id: &String,
        receiver_id: &String,
        token_id: &String,
        memo: Option<String>,
    ) -> (r: Resolution)
        requires
            old(self).wf(),
        ensures
            final(self).wf(),
            resolved(
                old(self)@,
                final(self)@,
                revert,
                previous_owner_id@,
                receiver_id@,
                token_id@,
                memo,
                r,
            ),
    {
        if !revert {
            return Resolution { reverted: false, event: None };
        }
        let lease_id = match lease_token_id_to_lease_id(token_id) {
            Some(l) => l,
            None => return Resolution { reverted: true, event: None },
        };
        if !self.is_active(&lease_id) {
            return Resolution { reverted: true, event: None };
        }
        let lease = self.get_lease(&lease_id).unwrap();
        if lease.lender_id != *receiver_id {
            return Resolution { reverted: true, event: None };
        }
        self.set_lender(&lease_id, previous_owner_id.clone());
        let event = single_token_event(receiver_id.clone(), previous_owner_id.clone(), token_id, memo);
        Resolution { reverted: true, event: Some(event) }
    }

    /// Resolves a transfer of `token_id` from `previous_owner_id` to
    /// `receiver_id` once the receiver's outcome is settled.
    pub fn nft_resolve_transfer(
        &mut self,
        previous_owner_id: &String,
        receiver_id: &String,
        token_id: &String,
        memo: Option<String>,
        outcome: &ReceiverOutcome,
    ) -> (r: Resolution)
        requires
            old(self).wf(),
        ensures
            final(self).wf(),
            resolved(
                old(self)@,
                final(self)@,
                outcome_reverts(*outcome),
                previous_owner_id@,
                receiver_id@,
                token_id@,
                memo,
                r,
            ),
    {
        let revert = should_revert(outcome);
        self.apply_resolution(revert, previous_owner_id, receiver_id, token_id, memo)
    }
}

/// A receiver that accepts lets the transfer stand: the result is false and
/// the receiver keeps the token.
pub proof fn lemma_accepted_transfer_stands(
    start: ContractView,
    moved: ContractView,
    end: ContractView,
    sender: Seq<char>,
    receiver: Seq<char>,
    token_id: Seq<char>,
    memo: Option<String>,
    payload: Vec<u8>,
    r: Resolution,
)
    requires
        transfer_error(start, sender, token_id) is None,
        transferred(start, moved, receiver, token_id),
        json_bool(payload@) == Some(false),
        resolved(
            moved,
            end,
            outcome_reverts(ReceiverOutcome::Successful(payload)),
            sender,
            receiver,
            token_id,
            memo,
            r,
        ),
    ensures
        !r.reverted,
        end == moved,
        end.leases[lease_of(token_id)->0].lender_id == receiver,
{
}

/// A receiver that fails or answers with no boolean gets the token handed
/// back, where nothing moved it in between: the result is true, the sender
/// owns it again, and one compensating transfer is recorded.
pub proof fn lemma_failed_transfer_restored(
    start: ContractView,
    moved: ContractView,
    end: ContractView,
    sender: Seq<char>,
    receiver: Seq<char>,
    token_id: Seq<char>,
    memo: Option<String>,
    outcome: ReceiverOutcome,
    r: Resolution,
)
    requires
        start.active.subset_of(start.leases.dom()),
        transfer_error(start, sender, token_id) is None,
        transferred(start, moved, receiver, token_id),
        match outcome {
            ReceiverOutcome::Failed => true,
            ReceiverOutcome::Successful(v) => json_bool(v@) is None,
        },
        resolved(moved, end, outcome_reverts(outcome), sender, receiver, token_id, memo, r),
    ensures
        r.reverted,
        end.leases[lease_of(token_id)->0].lender_id == sender,
        end.leases == start.leases,
        end.active == start.active,
        r.event matches Some(e) && event_is(e, receiver, sender, token_id, memo),
{
    let l = lease_of(token_id)->0;
    assert(moved.leases[l].lender_id == receiver);
    assert(can_restore(moved, receiver, token_id));
    assert(start.leases.contains_key(l));
    assert(with_lender(moved.leases[l], sender) == start.leases[l]);
    assert(end.leases =~= start.leases);
}

/// Where the token has passed to a third party since the transfer, a revert
/// writes nothing, and still reports true.
pub proof fn lemma_third_party_keeps_token(
    before: ContractView,
    after: ContractView,
    previous_owner: Seq<char>,
    receiver: Seq<char>,
    token_id: Seq<char>,
    memo: Option<String>,
    outcome: ReceiverOutcome,
    r: Resolution,
)
    requires
        outcome_reverts(outcome),
        lease_of(token_id) matches Some(l) && before.leases[l].lender_id != receiver,
        resolved(before, after, outcome_reverts(outcome), previous_owner, receiver, token_id, memo, r),
    ensures
        r.reverted,
        after == before,
        r.event is None,
{
}

} // verus!

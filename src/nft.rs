//! Lease tokens: rendering a token from its lease record, and the optimistic
//! transfer of ownership.
use vstd::prelude::*;
use vstd::string::StringExecFns;
use crate::ledger::{Contract, ContractView, LeaseCondition, LeaseView, with_lender};
use crate::token_id::{lease_of, lease_token_id_to_lease_id, token_of};

verus! {

/// Descriptive metadata of a lease token, synthesized on every read.
#[derive(Debug)]
pub struct TokenMetadata {
    pub title: Option<String>,
    pub description: Option<String>,
}

/// The read-only view of a lease token.
#[derive(Debug)]
pub struct Token {
    pub token_id: String,
    pub owner_id: String,
    pub metadata: Option<TokenMetadata>,
}

/// The title of the token of lease `lease_id`.
pub open spec fn title_of(lease_id: Seq<char>) -> Seq<char> {
    "RentApp Lease Ownership Token: "@ + lease_id
}

/// The description of the token of lease `lease_id` on asset `token_id` of
/// contract `contract_addr`.
pub open spec fn description_of(
    lease_id: Seq<char>,
    contract_addr: Seq<char>,
    token_id: Seq<char>,
) -> Seq<char> {
    "This is a token representing the ownership of the NFT under the RentApp lease: "@ + lease_id
        + "\nLeasing NFT's contract: "@ + contract_addr + "\nLeasing NFT's token id: "@ + token_id
        + "\n"@
}

/// Whether `token_id` names a token in state `c`: it decodes to a lease id
/// that is live as a token.
pub open spec fn renderable(c: ContractView, token_id: Seq<char>) -> bool {
    lease_of(token_id) matches Some(l) && c.active.contains(l)
}

/// `t` is the token `token_id` of lease `lease_id` with record `v`.
pub open spec fn renders(t: Token, token_id: Seq<char>, lease_id: Seq<char>, v: LeaseView) -> bool {
    &&& t.token_id@ == token_id
    &&& t.owner_id@ == v.lender_id
    &&& t.metadata matches Some(m) && m.title matches Some(title) && m.description matches Some(
        description,
    ) && title@ == title_of(lease_id) && description@ == description_of(
        lease_id,
        v.contract_addr,
        v.token_id,
    )
}

/// A lease id is renderable as a token exactly when it is live, whatever the
/// state.
pub proof fn lemma_renderable_iff_active(c: ContractView, lease_id: Seq<char>)
    ensures
        renderable(c, token_of(lease_id)) <==> c.active.contains(lease_id),
{
    crate::token_id::lemma_token_id_round_trip(lease_id, token_of(lease_id));
}

/// The error of a transfer that does not happen.
#[derive(Clone, Copy, Debug, PartialEq, Eq, Structural)]
pub enum TransferError {
    /// The token id names no live lease.
    NotFound,
    /// The sender is not the owner of record.
    Unauthorized,
}

/// The record of one completed transfer of ownership.
#[derive(Debug)]
pub struct TransferEvent {
    pub old_owner_id: String,
    pub new_owner_id: String,
    pub token_ids: Vec<String>,
    pub memo: Option<String>,
}

/// `e` records the transfer of token `token_id` from `old_owner` to
/// `new_owner`.
pub open spec fn event_is(
    e: TransferEvent,
    old_owner: Seq<char>,
    new_owner: Seq<char>,
    token_id: Seq<char>,
    memo: Option<String>,
) -> bool {
    &&& e.old_owner_id@ == old_owner
    &&& e.new_owner_id@ == new_owner
    &&& e.token_ids@.len() == 1
    &&& e.token_ids@[0]@ == token_id
    &&& e.memo == memo
}

/// Why `sender` may not transfer `token_id` in state `c`, if it may not.
pub open spec fn transfer_error(c: ContractView, sender: Seq<char>, token_id: Seq<char>) -> Option<
    TransferError,
> {
    match lease_of(token_id) {
        None => Some(TransferError::NotFound),
        Some(l) => if !c.active.contains(l) {
            Some(TransferError::NotFound)
        } else if c.leases[l].lender_id != sender {
            Some(TransferError::Unauthorized)
        } else {
            None
        },
    }
}

/// `after` is `before` with the lease behind `token_id` owned by `receiver`.
pub open spec fn transferred(
    before: ContractView,
    after: ContractView,
    receiver: Seq<char>,
    token_id: Seq<char>,
) -> bool {
    let l = lease_of(token_id)->0;
    &&& after.leases == before.leases.insert(l, with_lender(before.leases[l], receiver))
    &&& after.active == before.active
}

/// What a completed transfer hands back.
#[derive(Debug)]
pub struct TransferReceipt {
    /// The lease record as it was before the transfer.
    pub previous: LeaseCondition,
    pub event: TransferEvent,
}

/// A transfer whose receiver is still to be notified.
#[derive(Debug)]
pub struct TransferCall {
    pub sender_id: String,
    pub previous_owner_id: String,
    pub receiver_id: String,
    pub token_id: String,
    pub msg: String,
    pub memo: Option<String>,
    pub event: TransferEvent,
}

pub(crate) fn clone_memo(memo: &Option<String>) -> (r: Option<String>)
    ensures
        r == *memo,
{
    match memo {
        Some(m) => Some(m.clone()),
        None => None,
    }
}

pub(crate) fn single_token_event(
    old_owner_id: String,
    new_owner_id: String,
    token_id: &String,
    memo: Option<String>,
) -> (r: TransferEvent)
    ensures
        event_is(r, old_owner_id@, new_owner_id@, token_id@, memo),
{
    let mut token_ids: Vec<String> = Vec::new();
    token_ids.push(token_id.clone());
    TransferEvent { old_owner_id, new_owner_id, token_ids, memo }
}

fn append_str(s: &mut String, t: &String)
    ensures
        final(s)@ == old(s)@ + t@,
{
    s.append(t.as_str());
}

impl Contract {
    /// The token `token_id`, assembled from its lease record; `None` where no
    /// live lease stands behind it.
    pub fn nft_token(&self, token_id: String) -> (r: Option<Token>)
        requires
            self.wf(),
        ensures
            r is Some <==> renderable(self@, token_id@),
            r matches Some(t) ==> renders(
                t,
                token_id@,
                lease_of(token_id@)->0,
                self@.leases[lease_of(token_id@)->0],
            ),
    {
        let lease_id = match lease_token_id_to_lease_id(&token_id) {
            Some(l) => l,
            None => return None,
        };
        if !self.is_active(&lease_id) {
            return None;
        }
        let lease = self.get_lease(&lease_id).unwrap();
        let mut title = String::from_str("RentApp Lease Ownership Token: ");
        append_str(&mut title, &lease_id);
        let mut description = String::from_str(
            "This is a token representing the ownership of the NFT under the RentApp lease: ",
        );
        append_str(&mut description, &lease_id);
        description.append("\nLeasing NFT's contract: ");
        append_str(&mut description, &lease.contract_addr);
        description.append("\nLeasing NFT's token id: ");
        append_str(&mut description, &lease.token_id);
        description.append("\n");
        let metadata = TokenMetadata { title: Some(title), description: Some(description) };
        Some(Token { token_id, owner_id: lease.lender_id, metadata: Some(metadata) })
    }

    /// Moves the token `token_id` from `sender_id`, its owner, to
    /// `receiver_id`. The change is committed at once.
    pub fn nft_transfer(
        &mut self,
        sender_id: &String,
        receiver_id: &String,
        token_id: &String,
        memo: Option<String>,
    ) -> (r: Result<TransferReceipt, TransferError>)
        requires
            old(self).wf(),
        ensures
            final(self).wf(),
            r is Ok <==> transfer_error(old(self)@, sender_id@, token_id@) is None,
            r matches Err(e) ==> transfer_error(old(self)@, sender_id@, token_id@) == Some(e)
                && final(self)@ == old(self)@,
            r matches Ok(receipt) ==> {
                let l = lease_of(token_id@)->0;
                &&& transferred(old(self)@, final(self)@, receiver_id@, token_id@)
                &&& final(self)@.leases[l].lender_id == receiver_id@
                &&& receipt.previous@ == old(self)@.leases[l]
                &&& event_is(receipt.event, sender_id@, receiver_id@, token_id@, memo)
            },
    {
        let lease_id = match lease_token_id_to_lease_id(token_id) {
            Some(l) => l,
            None => return Err(TransferError::NotFound),
        };
        if !self.is_active(&lease_id) {
            return Err(TransferError::NotFound);
        }
        let previous = self.get_lease(&lease_id).unwrap();
        if previous.lender_id != *sender_id {
            return Err(TransferError::Unauthorized);
        }
        self.set_lender(&lease_id, receiver_id.clone());
        let event = single_token_event(sender_id.clone(), receiver_id.clone(), token_id, memo);
        Ok(TransferReceipt { previous, event })
    }

    /// Moves the token as `nft_transfer` does, and hands back what the
    /// receiver is to be told and what its answer is to be resolved against.
    pub fn nft_transfer_call(
        &mut self,
        sender_id: &String,
        receiver_id: &String,
        token_id: &String,
        memo: Option<String>,
        msg: String,
    ) -> (r: Result<TransferCall, TransferError>)
        requires
            old(self).wf(),
        ensures
            final(self).wf(),
            r is Ok <==> transfer_error(old(self)@, sender_id@, token_id@) is None,
            r matches Err(e) ==> transfer_error(old(self)@, sender_id@, token_id@) == Some(e)
                && final(self)@ == old(self)@,
            r matches Ok(call) ==> {
                let l = lease_of(token_id@)->0;
                &&& transferred(old(self)@, final(self)@, receiver_id@, token_id@)
                &&& call.sender_id@ == sender_id@
                &&& call.previous_owner_id@ == old(self)@.leases[l].lender_id
                &&& call.receiver_id@ == receiver_id@
                &&& call.token_id@ == token_id@
                &&& call.msg == msg
                &&& call.memo == memo
                &&& event_is(call.event, sender_id@, receiver_id@, token_id@, memo)
            },
    {
        let receipt = self.nft_transfer(sender_id, receiver_id, token_id, clone_memo(&memo));
        match receipt {
            Ok(receipt) => Ok(
                TransferCall {
                    sender_id: sender_id.clone(),
                    previous_owner_id: receipt.previous.lender_id,
                    receiver_id: receiver_id.clone(),
                    token_id: token_id.clone(),
                    msg,
                    memo,
                    event: receipt.event,
                },
            ),
            Err(e) => Err(e),
        }
    }
}

} // verus!

//! The marketplace's intake of token approvals: an approval from a known
//! asset contract becomes a payout query, and the payout becomes a listing.
use vstd::prelude::*;
use crate::ledger::{contains_id, ids_set};

verus! {

/// The most payees a listing's payout may name.
pub const MAX_LEN_PAYOUT: u32 = 50;

/// The listing terms that an approval message carries.
#[derive(Debug)]
pub struct ListingJson {
    /// The fungible token in which rent is paid.
    pub ft_contract_id: String,
    pub price: u128,
    pub lease_start_ts_nano: u64,
    pub lease_end_ts_nano: u64,
}

/// Why an approval or a listing was turned down.
#[derive(Clone, Copy, Debug, PartialEq, Eq, Structural)]
pub enum ListingError {
    /// The marketplace called itself.
    SelfCall,
    /// The approving owner is not the signer of the transaction.
    SignerMismatch,
    /// The calling asset contract is not on the allow-list.
    NftContractNotAllowed,
    /// The token already has a listing.
    AlreadyListed,
    /// The approval message is not a valid listing.
    InvalidListingJson,
    /// The payment token is not on the allow-list.
    FtContractNotAllowed,
    /// The payout query failed, or its answer names too many payees.
    PayoutUnavailable,
}

/// A validated approval, carried forward until the payout is known.
#[derive(Debug)]
pub struct ListingRequest {
    pub owner_id: String,
    pub approval_id: u64,
    pub nft_contract_id: String,
    pub token_id: String,
    pub ft_contract_id: String,
    pub price: u128,
    pub lease_start_ts_nano: u64,
    pub lease_end_ts_nano: u64,
}

/// An offer to rent out the asset behind a token.
#[derive(Debug)]
pub struct Listing {
    pub owner_id: String,
    pub approval_id: u64,
    pub nft_contract_id: String,
    pub token_id: String,
    pub ft_contract_id: String,
    pub price: u128,
    pub lease_start_ts_nano: u64,
    pub lease_end_ts_nano: u64,
    /// Amount owed to each payee.
    pub payout: Vec<(String, u128)>,
}

/// The key of a listing: its asset contract and its token.
pub open spec fn listing_key(l: Listing) -> (Seq<char>, Seq<char>) {
    (l.nft_contract_id@, l.token_id@)
}

/// The map that a sequence of listings stands for; a later listing overrides
/// an earlier one with the same key.
pub open spec fn listings_map(s: Seq<Listing>) -> Map<(Seq<char>, Seq<char>), Listing>
    decreases s.len(),
{
    if s.len() == 0 {
        Map::empty()
    } else {
        listings_map(s.drop_last()).insert(listing_key(s.last()), s.last())
    }
}

proof fn lemma_listings_map_dom(s: Seq<Listing>, k: (Seq<char>, Seq<char>))
    ensures
        listings_map(s).contains_key(k) <==> exists|i: int|
            0 <= i < s.len() && listing_key(#[trigger] s[i]) == k,
    decreases s.len(),
{
    if s.len() > 0 {
        let t = s.drop_last();
        lemma_listings_map_dom(t, k);
        if listings_map(t).contains_key(k) {
            let i = choose|i: int| 0 <= i < t.len() && listing_key(#[trigger] t[i]) == k;
            assert(s[i] == t[i]);
        }
        if exists|i: int| 0 <= i < s.len() && listing_key(#[trigger] s[i]) == k {
            let i = choose|i: int| 0 <= i < s.len() && listing_key(#[trigger] s[i]) == k;
            if i < s.len() - 1 {
                assert(t[i] == s[i]);
            }
        }
    }
}

proof fn lemma_listings_map_latest(s: Seq<Listing>, i: int)
    requires
        0 <= i < s.len(),
        forall|j: int| i < j < s.len() ==> listing_key(#[trigger] s[j]) != listing_key(s[i]),
    ensures
        listings_map(s).contains_key(listing_key(s[i])),
        listings_map(s)[listing_key(s[i])] == s[i],
    decreases s.len(),
{
    if i < s.len() - 1 {
        let t = s.drop_last();
        assert(t[i] == s[i]);
        assert forall|j: int| i < j < t.len() implies listing_key(#[trigger] t[j]) != listing_key(
            t[i],
        ) by {
            assert(t[j] == s[j]);
        }
        lemma_listings_map_latest(t, i);
        assert(listing_key(s[s.len() - 1]) != listing_key(s[i]));
    }
}

/// The state of the marketplace.
pub struct Marketplace {
    allowed_nft_contract_ids: Vec<String>,
    allowed_ft_contract_ids: Vec<String>,
    listings: Vec<Listing>,
}

/// The mathematical value of the marketplace's state.
pub struct MarketplaceView {
    /// Asset contracts whose approvals are taken.
    pub allowed_nft: Set<Seq<char>>,
    /// Tokens in which rent may be paid.
    pub allowed_ft: Set<Seq<char>>,
    /// Listings by asset contract and token.
    pub listings: Map<(Seq<char>, Seq<char>), Listing>,
}

impl View for Marketplace {
    type V = MarketplaceView;

    closed spec fn view(&self) -> MarketplaceView {
        MarketplaceView {
            allowed_nft: ids_set(self.allowed_nft_contract_ids@),
            allowed_ft: ids_set(self.allowed_ft_contract_ids@),
            listings: listings_map(self.listings@),
        }
    }
}

/// Why the approval of `token_id` by `owner`, delivered by `caller` within a
/// transaction signed by `signer`, is turned down in state `m`, if it is.
/// `listing` is the decoded approval message, `None` where it did not decode.
pub open spec fn approval_error(
    m: MarketplaceView,
    marketplace: Seq<char>,
    caller: Seq<char>,
    signer: Seq<char>,
    token_id: Seq<char>,
    owner: Seq<char>,
    listing: Option<ListingJson>,
) -> Option<ListingError> {
    if caller == marketplace {
        Some(ListingError::SelfCall)
    } else if owner != signer {
        Some(ListingError::SignerMismatch)
    } else if !m.allowed_nft.contains(caller) {
        Some(ListingError::NftContractNotAllowed)
    } else if m.listings.contains_key((caller, token_id)) {
        Some(ListingError::AlreadyListed)
    } else {
        match listing {
            None => Some(ListingError::InvalidListingJson),
            Some(j) => if !m.allowed_ft.contains(j.ft_contract_id@) {
                Some(ListingError::FtContractNotAllowed)
            } else {
                None
            },
        }
    }
}

/// Why a listing for `request` with payout `payout` is not written in state
/// `m`, if it is not.
pub open spec fn creation_error(
    m: MarketplaceView,
    request: ListingRequest,
    payout: Option<Vec<(String, u128)>>,
) -> Option<ListingError> {
    match payout {
        None => Some(ListingError::PayoutUnavailable),
        Some(p) => if p@.len() > MAX_LEN_PAYOUT {
            Some(ListingError::PayoutUnavailable)
        } else if m.listings.contains_key((request.nft_contract_id@, request.token_id@)) {
            Some(ListingError::AlreadyListed)
        } else {
            None
        },
    }
}

/// The listing that `request` and `payout` make.
pub open spec fn listing_of(request: ListingRequest, payout: Vec<(String, u128)>) -> Listing {
    Listing {
        owner_id: request.owner_id,
        approval_id: request.approval_id,
        nft_contract_id: request.nft_contract_id,
        token_id: request.token_id,
        ft_contract_id: request.ft_contract_id,
        price: request.price,
        lease_start_ts_nano: request.lease_start_ts_nano,
        lease_end_ts_nano: request.lease_end_ts_nano,
        payout,
    }
}

impl Marketplace {
    pub fn new(allowed_nft_contract_ids: Vec<String>, allowed_ft_contract_ids: Vec<String>) -> (r:
        Marketplace)
        ensures
            r@.allowed_nft == ids_set(allowed_nft_contract_ids@),
            r@.allowed_ft == ids_set(allowed_ft_contract_ids@),
            r@.listings == Map::<(Seq<char>, Seq<char>), Listing>::empty(),
    {
        let r = Marketplace { allowed_nft_contract_ids, allowed_ft_contract_ids, listings: Vec::new() };
        assert(r@.listings =~= Map::<(Seq<char>, Seq<char>), Listing>::empty());
        r
    }

    /// The position of the latest listing of `token_id` of `nft_contract_id`.
    fn find_listing(&self, nft_contract_id: &String, token_id: &String) -> (r: Option<usize>)
        ensures
            r is None <==> !self@.listings.contains_key((nft_contract_id@, token_id@)),
            r matches Some(i) ==> i < self.listings@.len() && self@.listings[(
                nft_contract_id@,
                token_id@,
            )] == self.listings@[i as int],
    {
        let ghost k = (nft_contract_id@, token_id@);
        let mut i: usize = self.listings.len();
        while i > 0
            invariant
                i <= self.listings@.len(),
                k == (nft_contract_id@, token_id@),
                forall|j: int| i <= j < self.listings@.len() ==> listing_key(
                    #[trigger] self.listings@[j],
                ) != k,
            decreases i,
        {
            i = i - 1;
            let l = &self.listings[i];
            if l.nft_contract_id == *nft_contract_id && l.token_id == *token_id {
                proof {
                    lemma_listings_map_latest(self.listings@, i as int);
                }
                return Some(i);
            }
        }
        proof {
            lemma_listings_map_dom(self.listings@, k);
        }
        None
    }

    /// The listing of `token_id` of `nft_contract_id`, if there is one.
    pub fn get_listing(&self, nft_contract_id: &String, token_id: &String) -> (r: Option<&Listing>)
        ensures
            r is None <==> !self@.listings.contains_key((nft_contract_id@, token_id@)),
            r matches Some(l) ==> *l == self@.listings[(nft_contract_id@, token_id@)],
    {
        match self.find_listing(nft_contract_id, token_id) {
            Some(i) => Some(&self.listings[i]),
            None => None,
        }
    }

    /// Checks the approval of `token_id` by `owner_id`, delivered by
    /// `predecessor_id` within a transaction signed by `signer_id`, and hands
    /// back what the payout query and the listing it leads to need.
    /// `listing` is the decoded approval message.
    pub fn nft_on_approve(
        &self,
        current_account_id: &String,
        predecessor_id: &String,
        signer_id: &String,
        token_id: String,
        owner_id: String,
        approval_id: u64,
        listing: Option<ListingJson>,
    ) -> (r: Result<ListingRequest, ListingError>)
        ensures
            r is Ok <==> approval_error(
                self@,
                current_account_id@,
                predecessor_id@,
                signer_id@,
                token_id@,
                owner_id@,
                listing,
            ) is None,
            r matches Err(e) ==> approval_error(
                self@,
                current_account_id@,
                predecessor_id@,
                signer_id@,
                token_id@,
                owner_id@,
                listing,
            ) == Some(e),
            r matches Ok(q) ==> listing matches Some(j) && q.owner_id == owner_id && q.approval_id
                == approval_id && q.nft_contract_id@ == predecessor_id@ && q.token_id == token_id
                && q.ft_contract_id == j.ft_contract_id && q.price == j.price
                && q.lease_start_ts_nano == j.lease_start_ts_nano && q.lease_end_ts_nano
                == j.lease_end_ts_nano,
    {
        if *predecessor_id == *current_account_id {
            return Err(ListingError::SelfCall);
        }
        if owner_id != *signer_id {
            return Err(ListingError::SignerMismatch);
        }
        if !contains_id(&self.allowed_nft_contract_ids, predecessor_id) {
            return Err(ListingError::NftContractNotAllowed);
        }
        if self.find_listing(predecessor_id, &token_id).is_some() {
            return Err(ListingError::AlreadyListed);
        }
        let j = match listing {
            Some(j) => j,
            None => return Err(ListingError::InvalidListingJson),
        };
        if !contains_id(&self.allowed_ft_contract_ids, &j.ft_contract_id) {
            return Err(ListingError::FtContractNotAllowed);
        }
        Ok(
            ListingRequest {
                owner_id,
                approval_id,
                nft_contract_id: predecessor_id.clone(),
                token_id,
                ft_contract_id: j.ft_contract_id,
                price: j.price,
                lease_start_ts_nano: j.lease_start_ts_nano,
                lease_end_ts_nano: j.lease_end_ts_nano,
            },
        )
    }

    /// Writes the listing that `request` and the answered `payout` make;
    /// `payout` is `None` where the query failed or its answer did not decode.
    pub fn create_listing_with_payout(
        &mut self,
        request: ListingRequest,
        payout: Option<Vec<(String, u128)>>,
    ) -> (r: Result<(), ListingError>)
        ensures
            r is Ok <==> creation_error(old(self)@, request, payout) is None,
            r matches Err(e) ==> creation_error(old(self)@, request, payout) == Some(e)
                && final(self)@ == old(self)@,
            r is Ok ==> final(self)@.allowed_nft == old(self)@.allowed_nft
                && final(self)@.allowed_ft == old(self)@.allowed_ft && final(self)@.listings
                == old(self)@.listings.insert(
                (request.nft_contract_id@, request.token_id@),
                listing_of(request, payout->0),
            ),
    {
        let payout = match payout {
            Some(p) => p,
            None => return Err(ListingError::PayoutUnavailable),
        };
        if payout.len() > MAX_LEN_PAYOUT as usize {
            return Err(ListingError::PayoutUnavailable);
        }
        if self.find_listing(&request.nft_contract_id, &request.token_id).is_some() {
            return Err(ListingError::AlreadyListed);
        }
        let listing = Listing {
            owner_id: request.owner_id,
            approval_id: request.approval_id,
            nft_contract_id: request.nft_contract_id,
            token_id: request.token_id,
            ft_contract_id: request.ft_contract_id,
            price: request.price,
            lease_start_ts_nano: request.lease_start_ts_nano,
            lease_end_ts_nano: request.lease_end_ts_nano,
            payout,
        };
        self.listings.push(listing);
        assert(self.listings@.drop_last() =~= old(self).listings@);
        Ok(())
    }
}

/// An approval is turned down when the marketplace calls itself, when the
/// owner is not the signer, when the asset contract or the payment token is
/// not allowed, when the token is already listed, or when the message does
/// not decode; each alone is enough.
pub proof fn lemma_approval_rejections(
    m: MarketplaceView,
    marketplace: Seq<char>,
    caller: Seq<char>,
    signer: Seq<char>,
    token_id: Seq<char>,
    owner: Seq<char>,
    listing: Option<ListingJson>,
)
    ensures
        caller == marketplace ==> approval_error(
            m,
            marketplace,
            caller,
            signer,
            token_id,
            owner,
            listing,
        ) is Some,
        owner != signer ==> approval_error(m, marketplace, caller, signer, token_id, owner, listing) is Some,
        !m.allowed_nft.contains(caller) ==> approval_error(
            m,
            marketplace,
            caller,
            signer,
            token_id,
            owner,
            listing,
        ) is Some,
        m.listings.contains_key((caller, token_id)) ==> approval_error(
            m,
            marketplace,
            caller,
            signer,
            token_id,
            owner,
            listing,
        ) is Some,
        listing is None ==> approval_error(m, marketplace, caller, signer, token_id, owner, listing) is Some,
        listing matches Some(j) && !m.allowed_ft.contains(j.ft_contract_id@) ==> approval_error(
            m,
            marketplace,
            caller,
            signer,
            token_id,
            owner,
            listing,
        ) is Some,
{
}

/// Once a listing is written, a second approval of the same token from the
/// same asset contract is turned down as a duplicate, or earlier.
pub proof fn lemma_listed_token_not_relisted(
    before: MarketplaceView,
    after: MarketplaceView,
    request: ListingRequest,
    payout: Vec<(String, u128)>,
    marketplace: Seq<char>,
    signer: Seq<char>,
    owner: Seq<char>,
    listing: Option<ListingJson>,
)
    requires
        after.listings == before.listings.insert(
            (request.nft_contract_id@, request.token_id@),
            listing_of(request, payout),
        ),
    ensures
        approval_error(
            after,
            marketplace,
            request.nft_contract_id@,
            signer,
            request.token_id@,
            owner,
            listing,
        ) is Some,
        request.nft_contract_id@ != marketplace && owner == signer && after.allowed_nft.contains(
            request.nft_contract_id@,
        ) ==> approval_error(
            after,
            marketplace,
            request.nft_contract_id@,
            signer,
            request.token_id@,
            owner,
            listing,
        ) == Some(ListingError::AlreadyListed),
{
}

} // verus!

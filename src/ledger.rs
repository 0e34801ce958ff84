//! The lease store: lease records keyed by lease id, and the set of lease ids
//! that are live as tokens.
use vstd::prelude::*;

verus! {

/// Where a lease stands in its lifecycle.
#[derive(Clone, Copy, Debug, PartialEq, Eq, Structural)]
pub enum LeaseState {
    Pending,
    Active,
}

/// One leasing agreement; it is also the backing state of its token.
#[derive(Debug)]
pub struct LeaseCondition {
    /// Contract of the leased asset.
    pub contract_addr: String,
    /// Token id of the leased asset in that contract.
    pub token_id: String,
    /// Owner of record of the lease token.
    pub lender_id: String,
    pub state: LeaseState,
}

/// The mathematical value of a lease record.
pub struct LeaseView {
    pub contract_addr: Seq<char>,
    pub token_id: Seq<char>,
    pub lender_id: Seq<char>,
    pub state: LeaseState,
}

impl View for LeaseCondition {
    type V = LeaseView;

    open spec fn view(&self) -> LeaseView {
        LeaseView {
            contract_addr: self.contract_addr@,
            token_id: self.token_id@,
            lender_id: self.lender_id@,
            state: self.state,
        }
    }
}

impl LeaseCondition {
    pub fn new(contract_addr: String, token_id: String, lender_id: String, state: LeaseState) -> (r:
        LeaseCondition)
        ensures
            r.contract_addr == contract_addr,
            r.token_id == token_id,
            r.lender_id == lender_id,
            r.state == state,
    {
        LeaseCondition { contract_addr, token_id, lender_id, state }
    }

    /// A field-by-field copy.
    pub fn snapshot(&self) -> (r: LeaseCondition)
        ensures
            r@ == self@,
    {
        LeaseCondition {
            contract_addr: self.contract_addr.clone(),
            token_id: self.token_id.clone(),
            lender_id: self.lender_id.clone(),
            state: self.state,
        }
    }
}

/// `v` with `lender_id` as its lender of record.
pub open spec fn with_lender(v: LeaseView, lender_id: Seq<char>) -> LeaseView {
    LeaseView { lender_id, ..v }
}

/// A lease record under its lease id.
pub struct LeaseEntry {
    pub lease_id: String,
    pub condition: LeaseCondition,
}

/// The map that a sequence of entries stands for; a later entry overrides an
/// earlier one with the same id.
pub open spec fn leases_map(s: Seq<LeaseEntry>) -> Map<Seq<char>, LeaseView>
    decreases s.len(),
{
    if s.len() == 0 {
        Map::empty()
    } else {
        leases_map(s.drop_last()).insert(s.last().lease_id@, s.last().condition@)
    }
}

/// The set of ids that a sequence of strings holds.
pub open spec fn ids_set(s: Seq<String>) -> Set<Seq<char>> {
    Set::new(|k: Seq<char>| exists|i: int| 0 <= i < s.len() && (#[trigger] s[i])@ == k)
}

/// Whether `ids` holds `id`.
pub fn contains_id(ids: &Vec<String>, id: &String) -> (r: bool)
    ensures
        r == ids_set(ids@).contains(id@),
{
    let mut i: usize = 0;
    while i < ids.len()
        invariant
            i <= ids@.len(),
            forall|j: int| 0 <= j < i ==> (#[trigger] ids@[j])@ != id@,
        decreases ids@.len() - i,
    {
        if ids[i] == *id {
            assert(ids_set(ids@).contains(id@));
            return true;
        }
        i = i + 1;
    }
    false
}

pub open spec fn unique_ids(s: Seq<LeaseEntry>) -> bool {
    forall|i: int, j: int|
        0 <= i < s.len() && 0 <= j < s.len() && i != j ==> (#[trigger] s[i]).lease_id@ != (
        #[trigger] s[j]).lease_id@
}

proof fn lemma_leases_map_dom(s: Seq<LeaseEntry>, k: Seq<char>)
    ensures
        leases_map(s).contains_key(k) <==> exists|i: int|
            0 <= i < s.len() && (#[trigger] s[i]).lease_id@ == k,
    decreases s.len(),
{
    if s.len() > 0 {
        let t = s.drop_last();
        lemma_leases_map_dom(t, k);
        if leases_map(t).contains_key(k) {
            let i = choose|i: int| 0 <= i < t.len() && (#[trigger] t[i]).lease_id@ == k;
            assert(s[i] == t[i]);
        }
        if exists|i: int| 0 <= i < s.len() && (#[trigger] s[i]).lease_id@ == k {
            let i = choose|i: int| 0 <= i < s.len() && (#[trigger] s[i]).lease_id@ == k;
            if i < s.len() - 1 {
                assert(t[i] == s[i]);
            }
        }
    }
}

proof fn lemma_leases_map_at(s: Seq<LeaseEntry>, i: int)
    requires
        unique_ids(s),
        0 <= i < s.len(),
    ensures
        leases_map(s).contains_key(s[i].lease_id@),
        leases_map(s)[s[i].lease_id@] == s[i].condition@,
    decreases s.len(),
{
    if i < s.len() - 1 {
        let t = s.drop_last();
        assert(t[i] == s[i]);
        assert(unique_ids(t)) by {
            assert forall|a: int, b: int|
                0 <= a < t.len() && 0 <= b < t.len() && a != b implies (#[trigger] t[a]).lease_id@
                != (#[trigger] t[b]).lease_id@ by {
                assert(t[a] == s[a] && t[b] == s[b]);
            }
        }
        lemma_leases_map_at(t, i);
        assert(s[s.len() - 1].lease_id@ != s[i].lease_id@);
    }
}

proof fn lemma_leases_map_update(s: Seq<LeaseEntry>, i: int, e: LeaseEntry)
    requires
        unique_ids(s),
        0 <= i < s.len(),
        e.lease_id@ == s[i].lease_id@,
    ensures
        leases_map(s.update(i, e)) == leases_map(s).insert(e.lease_id@, e.condition@),
        unique_ids(s.update(i, e)),
    decreases s.len(),
{
    let u = s.update(i, e);
    let t = s.drop_last();
    assert(unique_ids(u)) by {
        assert forall|a: int, b: int|
            0 <= a < u.len() && 0 <= b < u.len() && a != b implies (#[trigger] u[a]).lease_id@
            != (#[trigger] u[b]).lease_id@ by {
            assert(s[a].lease_id@ != s[b].lease_id@);
        }
    }
    if i == s.len() - 1 {
        assert(u.drop_last() =~= t);
        assert(leases_map(u) =~= leases_map(s).insert(e.lease_id@, e.condition@));
    } else {
        assert(unique_ids(t)) by {
            assert forall|a: int, b: int|
                0 <= a < t.len() && 0 <= b < t.len() && a != b implies (#[trigger] t[a]).lease_id@
                != (#[trigger] t[b]).lease_id@ by {
                assert(t[a] == s[a] && t[b] == s[b]);
            }
        }
        assert(t[i] == s[i]);
        lemma_leases_map_update(t, i, e);
        assert(u.drop_last() =~= t.update(i, e));
        assert(s.last().lease_id@ != e.lease_id@);
        assert(leases_map(u) =~= leases_map(s).insert(e.lease_id@, e.condition@));
    }
}

/// The state of the lease contract.
pub struct Contract {
    leases: Vec<LeaseEntry>,
    active_lease_ids: Vec<String>,
}

/// The mathematical value of the lease contract's state.
pub struct ContractView {
    /// Lease records by lease id.
    pub leases: Map<Seq<char>, LeaseView>,
    /// Lease ids that are live as tokens.
    pub active: Set<Seq<char>>,
}

impl View for Contract {
    type V = ContractView;

    closed spec fn view(&self) -> ContractView {
        ContractView { leases: leases_map(self.leases@), active: ids_set(self.active_lease_ids@) }
    }
}

impl Contract {
    /// Lease ids are unique in the store, and every active id has a record.
    pub closed spec fn wf(&self) -> bool {
        &&& unique_ids(self.leases@)
        &&& self@.active.subset_of(self@.leases.dom())
    }

    /// Every live lease id has a record.
    pub proof fn lemma_active_stored(&self, lease_id: Seq<char>)
        requires
            self.wf(),
            self@.active.contains(lease_id),
        ensures
            self@.leases.contains_key(lease_id),
    {
    }

    pub fn new() -> (r: Contract)
        ensures
            r.wf(),
            r@.leases == Map::<Seq<char>, LeaseView>::empty(),
            r@.active == Set::<Seq<char>>::empty(),
    {
        let r = Contract { leases: Vec::new(), active_lease_ids: Vec::new() };
        assert(r@.leases =~= Map::<Seq<char>, LeaseView>::empty());
        assert(r@.active =~= Set::<Seq<char>>::empty());
        r
    }

    /// The position of the record of `lease_id` in the store.
    fn find_lease(&self, lease_id: &String) -> (r: Option<usize>)
        requires
            self.wf(),
        ensures
            r is None <==> !self@.leases.contains_key(lease_id@),
            r matches Some(i) ==> i < self.leases@.len() && self.leases@[i as int].lease_id@
                == lease_id@ && self@.leases[lease_id@] == self.leases@[i as int].condition@,
    {
        let mut i: usize = 0;
        while i < self.leases.len()
            invariant
                i <= self.leases@.len(),
                unique_ids(self.leases@),
                forall|j: int| 0 <= j < i ==> (#[trigger] self.leases@[j]).lease_id@ != lease_id@,
            decreases self.leases@.len() - i,
        {
            if self.leases[i].lease_id == *lease_id {
                proof {
                    lemma_leases_map_at(self.leases@, i as int);
                }
                return Some(i);
            }
            i = i + 1;
        }
        proof {
            lemma_leases_map_dom(self.leases@, lease_id@);
        }
        None
    }

    /// Whether `lease_id` is live as a token.
    pub fn is_active(&self, lease_id: &String) -> (r: bool)
        ensures
            r == self@.active.contains(lease_id@),
            r && self.wf() ==> self@.leases.contains_key(lease_id@),
    {
        contains_id(&self.active_lease_ids, lease_id)
    }

    /// A copy of the record of `lease_id`, where the store holds it.
    pub fn get_lease(&self, lease_id: &String) -> (r: Option<LeaseCondition>)
        requires
            self.wf(),
        ensures
            r is None <==> !self@.leases.contains_key(lease_id@),
            r matches Some(c) ==> c@ == self@.leases[lease_id@],
    {
        match self.find_lease(lease_id) {
            Some(i) => Some(self.leases[i].condition.snapshot()),
            None => None,
        }
    }

    /// Sets the lender of record of the stored lease `lease_id`.
    pub(crate) fn set_lender(&mut self, lease_id: &String, lender_id: String)
        requires
            old(self).wf(),
            old(self)@.leases.contains_key(lease_id@),
        ensures
            final(self).wf(),
            final(self)@.leases == old(self)@.leases.insert(
                lease_id@,
                with_lender(old(self)@.leases[lease_id@], lender_id@),
            ),
            final(self)@.active == old(self)@.active,
    {
        let i = self.find_lease(lease_id).unwrap();
        let c = &self.leases[i].condition;
        let condition = LeaseCondition {
            contract_addr: c.contract_addr.clone(),
            token_id: c.token_id.clone(),
            lender_id,
            state: c.state,
        };
        let entry = LeaseEntry { lease_id: lease_id.clone(), condition };
        proof {
            lemma_leases_map_update(self.leases@, i as int, entry);
        }
        self.leases.set(i, entry);
        assert(entry.condition@ == with_lender(old(self)@.leases[lease_id@], lender_id@));
        assert(ids_set(self.active_lease_ids@) =~= ids_set(old(self).active_lease_ids@));
    }

    /// Stores `condition` under `lease_id`, replacing any earlier record.
    pub fn insert_lease(&mut self, lease_id: String, condition: LeaseCondition)
        requires
            old(self).wf(),
        ensures
            final(self).wf(),
            final(self)@.leases == old(self)@.leases.insert(lease_id@, condition@),
            final(self)@.active == old(self)@.active,
    {
        let entry = LeaseEntry { lease_id, condition };
        match self.find_lease(&entry.lease_id) {
            Some(i) => {
                proof {
                    lemma_leases_map_update(self.leases@, i as int, entry);
                }
                self.leases.set(i, entry);
            },
            None => {
                proof {
                    lemma_leases_map_dom(self.leases@, entry.lease_id@);
                    assert(self.leases@.push(entry).drop_last() =~= self.leases@);
                }
                self.leases.push(entry);
                assert(unique_ids(self.leases@)) by {
                    assert forall|a: int, b: int|
                        0 <= a < self.leases@.len() && 0 <= b < self.leases@.len() && a != b implies (
                        #[trigger] self.leases@[a]).lease_id@ != (#[trigger] self.leases@[b]).lease_id@ by {
                        if a < old(self).leases@.len() && b < old(self).leases@.len() {
                            assert(old(self).leases@[a] == self.leases@[a]);
                            assert(old(self).leases@[b] == self.leases@[b]);
                        } else if a < old(self).leases@.len() {
                            assert(old(self).leases@[a] == self.leases@[a]);
                        } else if b < old(self).leases@.len() {
                            assert(old(self).leases@[b] == self.leases@[b]);
                        }
                    }
                }
            },
        }
        assert(ids_set(self.active_lease_ids@) =~= ids_set(old(self).active_lease_ids@));
    }

    /// Makes the stored lease `lease_id` live as a token. Returns false, and
    /// changes nothing, where the store holds no record of it.
    pub fn activate_lease(&mut self, lease_id: &String) -> (r: bool)
        requires
            old(self).wf(),
        ensures
            final(self).wf(),
            r == old(self)@.leases.contains_key(lease_id@),
            final(self)@.leases == old(self)@.leases,
            final(self)@.active == if r {
                old(self)@.active.insert(lease_id@)
            } else {
                old(self)@.active
            },
    {
        if self.find_lease(lease_id).is_none() {
            return false;
        }
        if !self.is_active(lease_id) {
            self.active_lease_ids.push(lease_id.clone());
        }
        assert(ids_set(self.active_lease_ids@) =~= ids_set(old(self).active_lease_ids@).insert(
            lease_id@,
        )) by {
            assert forall|k: Seq<char>| #[trigger]
                ids_set(self.active_lease_ids@).contains(k) implies ids_set(
                old(self).active_lease_ids@,
            ).insert(lease_id@).contains(k) by {
                let i = choose|i: int|
                    0 <= i < self.active_lease_ids@.len() && (#[trigger] self.active_lease_ids@[i])@
                        == k;
                if i < old(self).active_lease_ids@.len() {
                    assert(old(self).active_lease_ids@[i] == self.active_lease_ids@[i]);
                }
            }
            assert forall|k: Seq<char>| #[trigger]
                ids_set(old(self).active_lease_ids@).insert(lease_id@).contains(k) implies ids_set(
                self.active_lease_ids@,
            ).contains(k) by {
                if ids_set(old(self).active_lease_ids@).contains(k) {
                    let i = choose|i: int|
                        0 <= i < old(self).active_lease_ids@.len() && (
                        #[trigger] old(self).active_lease_ids@[i])@ == k;
                    assert(old(self).active_lease_ids@[i] == self.active_lease_ids@[i]);
                } else {
                    let last = self.active_lease_ids@.len() - 1;
                    assert(self.active_lease_ids@[last]@ == k);
                }
            }
        }
        true
    }
}

} // verus!

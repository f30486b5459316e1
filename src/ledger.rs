use std::collections::HashMap;
use vstd::prelude::*;

verus! {

broadcast use vstd::std_specs::hash::group_hash_axioms;

/// The state a bag is in; fixed when the bag is created.
#[derive(Clone, Copy, Debug, PartialEq, Eq, Structural)]
pub enum Condition {
    New,
    Good,
    Bad,
    Destroyed,
}

/// An account that holds bags, in the order it acquired them.
#[derive(Debug)]
pub struct Owner {
    pub id: u32,
    pub bags: Vec<u32>,
}

/// One asset record.
#[derive(Clone, Copy, Debug, PartialEq, Eq, Structural)]
pub struct Bag {
    pub id: u32,
    pub price: u32,
    pub owner_id: u32,
    pub num_transfers: u32,
    pub condition: Condition,
}

/// Why a ledger operation was refused. A refused operation changes nothing.
#[derive(Clone, Copy, Debug, PartialEq, Eq, Structural)]
pub enum LedgerError {
    AlreadyExists,
    NotFound,
}

/// The ledger: owners and bags, each keyed by its id.
pub struct Ledger {
    owners: HashMap<u32, Owner>,
    bags: HashMap<u32, Bag>,
}

/// The ledger as mathematics: each owner's list of bag ids, and each bag.
pub struct LedgerView {
    pub owners: Map<u32, Seq<u32>>,
    pub bags: Map<u32, Bag>,
}

impl LedgerView {
    /// The empty ledger.
    pub open spec fn empty() -> LedgerView {
        LedgerView { owners: Map::empty(), bags: Map::empty() }
    }

    /// Every bag is listed by its owner, every listed id is a bag of that
    /// owner, and no list repeats an id.
    pub open spec fn consistent(self) -> bool {
        &&& forall|b: u32| #[trigger]
            self.bags.contains_key(b) ==> self.bags[b].id == b && self.owners.contains_key(
                self.bags[b].owner_id,
            ) && self.owners[self.bags[b].owner_id].contains(b)
        &&& forall|o: u32, i: int|
            #![trigger self.owners[o][i]]
            self.owners.contains_key(o) && 0 <= i < self.owners[o].len() ==> self.bags.contains_key(
                self.owners[o][i],
            ) && self.bags[self.owners[o][i]].owner_id == o
        &&& forall|o: u32| #[trigger]
            self.owners.contains_key(o) ==> self.owners[o].no_duplicates()
    }

    /// A new owner with no bags.
    pub open spec fn create_owner(self, id: u32) -> LedgerView {
        LedgerView { owners: self.owners.insert(id, Seq::empty()), bags: self.bags }
    }

    /// A new bag, never transferred, at the end of its owner's list.
    pub open spec fn create_bag(
        self,
        id: u32,
        owner_id: u32,
        price: u32,
        condition: Condition,
    ) -> LedgerView {
        LedgerView {
            owners: self.owners.insert(owner_id, self.owners[owner_id].push(id)),
            bags: self.bags.insert(
                id,
                Bag { id, price, owner_id, num_transfers: 0, condition },
            ),
        }
    }

    /// A bag with a new price and all else as it was.
    pub open spec fn update_bag_price(self, id: u32, price: u32) -> LedgerView {
        LedgerView { owners: self.owners, bags: self.bags.insert(id, Bag { price, ..self.bags[id] }) }
    }

    /// The bag leaves its previous owner's list and goes to the end of the
    /// new owner's list; its transfer count is left as it was.
    pub open spec fn transfer_bag(self, bag_id: u32, owner_id: u32) -> LedgerView {
        let prev = self.bags[bag_id].owner_id;
        let owners = self.owners.insert(prev, self.owners[prev].remove(self.owners[prev].index_of(bag_id)));
        LedgerView {
            owners: owners.insert(owner_id, owners[owner_id].push(bag_id)),
            bags: self.bags.insert(bag_id, Bag { owner_id, ..self.bags[bag_id] }),
        }
    }
}

/// Appending a value that is absent keeps a sequence free of repeats.
proof fn lemma_push_no_duplicates(s: Seq<u32>, x: u32)
    requires
        s.no_duplicates(),
        !s.contains(x),
    ensures
        s.push(x).no_duplicates(),
{
    let t = s.push(x);
    assert forall|i: int, j: int| 0 <= i < t.len() && 0 <= j < t.len() && i != j implies t[i] != t[j] by {
        if i < s.len() && j == s.len() {
            assert(s[i] != x);
        }
        if j < s.len() && i == s.len() {
            assert(s[j] != x);
        }
    }
}

/// Removing one element keeps a sequence free of repeats, and removes the
/// only occurrence of that element.
proof fn lemma_remove_no_duplicates(s: Seq<u32>, i: int)
    requires
        s.no_duplicates(),
        0 <= i < s.len(),
    ensures
        s.remove(i).no_duplicates(),
        !s.remove(i).contains(s[i]),
{
    let t = s.remove(i);
    assert forall|a: int, b: int| 0 <= a < t.len() && 0 <= b < t.len() && a != b implies t[a] != t[b] by {
        let sa = if a < i { a } else { a + 1 };
        let sb = if b < i { b } else { b + 1 };
        assert(t[a] == s[sa]);
        assert(t[b] == s[sb]);
    }
    assert forall|a: int| 0 <= a < t.len() implies t[a] != s[i] by {
        let sa = if a < i { a } else { a + 1 };
        assert(t[a] == s[sa]);
    }
}

impl Ledger {
    /// Each owner's list of bags, and each bag.
    pub closed spec fn view(&self) -> LedgerView {
        LedgerView {
            owners: self.owners@.map_values(|o: Owner| o.bags@),
            bags: self.bags@,
        }
    }

    /// The representation invariant: every owner is stored under its own id,
    /// and the view is consistent.
    pub closed spec fn wf(&self) -> bool {
        &&& forall|k: u32| #[trigger]
            self.owners@.contains_key(k) ==> self.owners@[k].id == k
        &&& self@.consistent()
    }

    /// In a well-formed ledger, every bag's id stands exactly once in the
    /// list of the owner it names, and in no other owner's list.
    pub proof fn lemma_bag_listed_once(&self, b: u32, o: u32)
        requires
            self.wf(),
            self@.bags.contains_key(b),
            self@.owners.contains_key(o),
        ensures
            o == self@.bags[b].owner_id ==> self@.owners[o].contains(b) && forall|i: int, j: int|
                0 <= i < self@.owners[o].len() && 0 <= j < self@.owners[o].len()
                    && self@.owners[o][i] == b && self@.owners[o][j] == b ==> i == j,
            o != self@.bags[b].owner_id ==> !self@.owners[o].contains(b),
    {
        let v = self@;
        if o != v.bags[b].owner_id && v.owners[o].contains(b) {
            let k = choose|k: int| 0 <= k < v.owners[o].len() && v.owners[o][k] == b;
            assert(v.bags[v.owners[o][k]].owner_id == o);
        }
        assert(v.owners[o].no_duplicates());
    }

    pub fn new() -> (r: Ledger)
        ensures
            r.wf(),
            r@ == LedgerView::empty(),
    {
        let r = Ledger { owners: HashMap::new(), bags: HashMap::new() };
        assert(r@.owners =~= Map::empty());
        r
    }

    /// Adds an owner with no bags, unless one with this id exists.
    pub fn create_owner(&mut self, id: u32) -> (r: Result<(), LedgerError>)
        requires
            old(self).wf(),
        ensures
            final(self).wf(),
            old(self)@.owners.contains_key(id) ==> r == Err::<(), LedgerError>(
                LedgerError::AlreadyExists,
            ) && final(self)@ == old(self)@,
            !old(self)@.owners.contains_key(id) ==> r is Ok && final(self)@ == old(self)@.create_owner(id),
    {
        if self.owners.contains_key(&id) {
            return Err(LedgerError::AlreadyExists);
        }
        let ghost before = self@;
        self.owners.insert(id, Owner { id, bags: Vec::new() });
        assert(self@.owners =~= before.create_owner(id).owners);
        Ok(())
    }


    /// Adds a bag held by an existing owner, at the end of that owner's list.
    pub fn create_bag(&mut self, id: u32, owner_id: u32, price: u32, condition: Condition) -> (r:
        Result<(), LedgerError>)
        requires
            old(self).wf(),
        ensures
            final(self).wf(),
            old(self)@.bags.contains_key(id) ==> r == Err::<(), LedgerError>(
                LedgerError::AlreadyExists,
            ) && final(self)@ == old(self)@,
            !old(self)@.bags.contains_key(id) && !old(self)@.owners.contains_key(owner_id) ==> r
                == Err::<(), LedgerError>(LedgerError::NotFound) && final(self)@ == old(self)@,
            !old(self)@.bags.contains_key(id) && old(self)@.owners.contains_key(owner_id) ==> r is Ok
                && final(self)@ == old(self)@.create_bag(id, owner_id, price, condition),
    {
        if self.bags.contains_key(&id) {
            return Err(LedgerError::AlreadyExists);
        }
        if !self.owners.contains_key(&owner_id) {
            return Err(LedgerError::NotFound);
        }
        let ghost before = self@;
        let mut owner = self.owners.remove(&owner_id).unwrap();
        proof {
            assert(!before.owners[owner_id].contains(id));
        }
        owner.bags.push(id);
        self.owners.insert(owner_id, owner);
        self.bags.insert(id, Bag { id, price, owner_id, num_transfers: 0, condition });
        let ghost after = before.create_bag(id, owner_id, price, condition);
        assert(self@.owners =~= after.owners);
        assert(self@.bags =~= after.bags);
        proof {
            let v = self@;
            assert forall|b: u32| #[trigger] v.bags.contains_key(b) implies v.bags[b].id == b
                && v.owners.contains_key(v.bags[b].owner_id) && v.owners[v.bags[b].owner_id].contains(b) by {
                if b != id {
                    let o = before.bags[b].owner_id;
                    let k = choose|k: int| 0 <= k < before.owners[o].len() && before.owners[o][k] == b;
                    assert(v.owners[o][k] == b);
                } else {
                    assert(v.owners[owner_id][before.owners[owner_id].len() as int] == id);
                }
            }
            assert forall|o: u32| #[trigger] v.owners.contains_key(o) implies v.owners[o].no_duplicates() by {
                if o == owner_id {
                    lemma_push_no_duplicates(before.owners[o], id);
                }
            }
        }
        Ok(())
    }


    /// Moves a bag to an existing owner: it leaves the previous owner's list
    /// and is appended to the new owner's list, and its owner becomes the new
    /// owner.
    pub fn transfer_bag(&mut self, bag_id: u32, owner_id: u32) -> (r: Result<(), LedgerError>)
        requires
            old(self).wf(),
        ensures
            final(self).wf(),
            !(old(self)@.bags.contains_key(bag_id) && old(self)@.owners.contains_key(owner_id)) ==> r
                == Err::<(), LedgerError>(LedgerError::NotFound) && final(self)@ == old(self)@,
            old(self)@.bags.contains_key(bag_id) && old(self)@.owners.contains_key(owner_id) ==> r is Ok
                && final(self)@ == old(self)@.transfer_bag(bag_id, owner_id),
    {
        let bag = match self.bags.get(&bag_id) {
            None => return Err(LedgerError::NotFound),
            Some(b) => *b,
        };
        if !self.owners.contains_key(&owner_id) {
            return Err(LedgerError::NotFound);
        }
        let ghost before = self@;
        let prev = bag.owner_id;
        let mut prev_owner = self.owners.remove(&prev).unwrap();
        let mut i: usize = 0;
        while i < prev_owner.bags.len() && prev_owner.bags[i] != bag_id
            invariant
                i <= prev_owner.bags@.len(),
                before.owners.contains_key(prev),
                prev_owner.bags@ == before.owners[prev],
                before.owners[prev].contains(bag_id),
                forall|j: int| 0 <= j < i ==> prev_owner.bags@[j] != bag_id,
            decreases prev_owner.bags.len() - i,
        {
            i = i + 1;
        }
        proof {
            if i == prev_owner.bags.len() {
                let k = choose|k: int| 0 <= k < before.owners[prev].len() && before.owners[prev][k] == bag_id;
                assert(prev_owner.bags@[k] == bag_id);
            }
            let f = before.owners[prev].index_of(bag_id);
            assert(before.owners[prev][i as int] == bag_id);
            assert(f == i);
            lemma_remove_no_duplicates(before.owners[prev], i as int);
        }
        prev_owner.bags.remove(i);
        self.owners.insert(prev, prev_owner);
        let ghost mid = self@;
        let mut new_owner = self.owners.remove(&owner_id).unwrap();
        new_owner.bags.push(bag_id);
        self.owners.insert(owner_id, new_owner);
        self.bags.insert(bag_id, Bag { owner_id, ..bag });
        let ghost after = before.transfer_bag(bag_id, owner_id);
        assert(mid.owners =~= before.owners.insert(prev, before.owners[prev].remove(i as int)));
        assert(self@.owners =~= after.owners);
        assert(self@.bags =~= after.bags);
        proof {
            let v = self@;
            let removed = before.owners[prev].remove(i as int);
            assert(!removed.contains(bag_id));
            assert forall|b: u32| #[trigger] v.bags.contains_key(b) implies v.bags[b].id == b
                && v.owners.contains_key(v.bags[b].owner_id) && v.owners[v.bags[b].owner_id].contains(b) by {
                if b != bag_id {
                    let o = before.bags[b].owner_id;
                    let k = choose|k: int| 0 <= k < before.owners[o].len() && before.owners[o][k] == b;
                    if o == prev {
                        if k < i {
                            assert(removed[k] == b);
                        } else {
                            assert(removed[k - 1] == b);
                        }
                        if o == owner_id {
                            assert(k == 0 || v.owners[o][k - 1] == b || v.owners[o][k] == b);
                        }
                    } else if o == owner_id {
                        assert(v.owners[o][k] == b);
                    } else {
                        assert(v.owners[o][k] == b);
                    }
                } else {
                    assert(v.owners[owner_id][mid.owners[owner_id].len() as int] == bag_id);
                }
            }
            assert forall|o: u32, j: int|
                #![trigger v.owners[o][j]]
                v.owners.contains_key(o) && 0 <= j < v.owners[o].len() implies v.bags.contains_key(
                    v.owners[o][j],
                ) && v.bags[v.owners[o][j]].owner_id == o by {
                if o == owner_id && j == v.owners[o].len() - 1 {
                } else if o == prev {
                    if j < i {
                        assert(removed[j] == before.owners[prev][j]);
                    } else {
                        assert(removed[j] == before.owners[prev][j + 1]);
                    }
                    assert(removed[j] != bag_id);
                } else {
                    assert(v.owners[o][j] == before.owners[o][j]);
                }
            }
            assert forall|o: u32| #[trigger] v.owners.contains_key(o) implies v.owners[o].no_duplicates() by {
                if o == owner_id {
                    if o != prev {
                        assert(!before.owners[o].contains(bag_id));
                    }
                    lemma_push_no_duplicates(mid.owners[o], bag_id);
                }
            }
        }
        Ok(())
    }

    /// Sets the price of an existing bag.
    pub fn update_bag_price(&mut self, id: u32, price: u32) -> (r: Result<(), LedgerError>)
        requires
            old(self).wf(),
        ensures
            final(self).wf(),
            !old(self)@.bags.contains_key(id) ==> r == Err::<(), LedgerError>(
                LedgerError::NotFound,
            ) && final(self)@ == old(self)@,
            old(self)@.bags.contains_key(id) ==> r is Ok && final(self)@ == old(self)@.update_bag_price(id, price),
    {
        match self.bags.get(&id) {
            None => Err(LedgerError::NotFound),
            Some(b) => {
                let nb = Bag { price, ..*b };
                self.bags.insert(id, nb);
                Ok(())
            },
        }
    }

    /// A copy of the owner with this id.
    pub fn get_owner(&self, id: u32) -> (r: Result<Owner, LedgerError>)
        requires
            self.wf(),
        ensures
            !self@.owners.contains_key(id) ==> r == Err::<Owner, LedgerError>(LedgerError::NotFound),
            self@.owners.contains_key(id) ==> (r matches Ok(o) && o.id == id && o.bags@ == self@.owners[id]),
    {
        match self.owners.get(&id) {
            None => Err(LedgerError::NotFound),
            Some(o) => {
                let mut bags: Vec<u32> = Vec::new();
                let mut i: usize = 0;
                while i < o.bags.len()
                    invariant
                        i <= o.bags.len(),
                        bags@ == o.bags@.subrange(0, i as int),
                    decreases o.bags.len() - i,
                {
                    bags.push(o.bags[i]);
                    i = i + 1;
                }
                assert(bags@ =~= o.bags@);
                Ok(Owner { id: o.id, bags })
            },
        }
    }

    /// A copy of the bag with this id.
    pub fn get_bag(&self, id: u32) -> (r: Result<Bag, LedgerError>)
        requires
            self.wf(),
        ensures
            !self@.bags.contains_key(id) ==> r == Err::<Bag, LedgerError>(LedgerError::NotFound),
            self@.bags.contains_key(id) ==> r == Ok::<Bag, LedgerError>(self@.bags[id]),
    {
        match self.bags.get(&id) {
            None => Err(LedgerError::NotFound),
            Some(b) => Ok(*b),
        }
    }
}

} // verus!

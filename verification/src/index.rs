//! Lists of identifiers filed under addresses.
//!
//! The marketplace keeps, for each seller, the auctions that the seller
//! created and, for each owner, the tokens that the owner holds. Both are
//! lists of identifiers filed under an address. An address that nothing was
//! ever filed under has the empty list.

use vstd::prelude::*;
use crate::address::Address;

verus! {

/// The list filed under one address.
struct Shelf {
    owner: Address,
    ids: Vec<u64>,
}

/// Lists of identifiers, each filed under the address it belongs to.
pub struct AddressIndex {
    shelves: Vec<Shelf>,
}

/// The list that a map files under `who`; empty when it files none.
pub open spec fn filed_under(lists: Map<Seq<char>, Seq<u64>>, who: Seq<char>) -> Seq<u64> {
    if lists.dom().contains(who) {
        lists[who]
    } else {
        Seq::empty()
    }
}

/// Whether some shelf belongs to `who`.
spec fn shelved(shelves: Seq<Shelf>, who: Seq<char>) -> bool {
    exists|i: int| 0 <= i < shelves.len() && (#[trigger] shelves[i]).owner@ == who
}

/// The position of the shelf that belongs to `who`.
spec fn slot(shelves: Seq<Shelf>, who: Seq<char>) -> int {
    choose|i: int| 0 <= i < shelves.len() && (#[trigger] shelves[i]).owner@ == who
}

/// No two shelves belong to the same address.
spec fn distinct_owners(shelves: Seq<Shelf>) -> bool {
    forall|i: int, j: int|
        0 <= i < j < shelves.len() ==> (#[trigger] shelves[i]).owner@ != (
        #[trigger] shelves[j]).owner@
}

/// The lists of the shelves, each under the text of its address.
spec fn lists_of(shelves: Seq<Shelf>) -> Map<Seq<char>, Seq<u64>> {
    Map::new(
        |who: Seq<char>| shelved(shelves, who),
        |who: Seq<char>| shelves[slot(shelves, who)].ids@,
    )
}

/// With distinct owners, the shelf of an address is found at one position
/// only.
proof fn lemma_slot_is(shelves: Seq<Shelf>, who: Seq<char>, i: int)
    requires
        distinct_owners(shelves),
        0 <= i < shelves.len(),
        shelves[i].owner@ == who,
    ensures
        shelved(shelves, who),
        slot(shelves, who) == i,
        lists_of(shelves).dom().contains(who),
        lists_of(shelves)[who] == shelves[i].ids@,
{
    let j = slot(shelves, who);
    assert(0 <= j < shelves.len() && shelves[j].owner@ == who);
    if j < i {
        assert(shelves[j].owner@ != shelves[i].owner@);
    } else if i < j {
        assert(shelves[i].owner@ != shelves[j].owner@);
    }
}

/// Replacing the list on the shelf at position `i` changes what is filed
/// under that address and nothing else.
proof fn lemma_shelf_refilled(shelves: Seq<Shelf>, changed: Seq<Shelf>, i: int)
    requires
        distinct_owners(shelves),
        0 <= i < shelves.len(),
        changed.len() == shelves.len(),
        forall|j: int| 0 <= j < shelves.len() && j != i ==> changed[j] == shelves[j],
        changed[i].owner@ == shelves[i].owner@,
    ensures
        distinct_owners(changed),
        lists_of(changed) == lists_of(shelves).insert(shelves[i].owner@, changed[i].ids@),
{
    let who = shelves[i].owner@;
    assert forall|a: int, b: int| 0 <= a < b < changed.len() implies (#[trigger] changed[a]).owner@
        != (#[trigger] changed[b]).owner@ by {
        assert(shelves[a].owner@ != shelves[b].owner@);
    }
    let target = lists_of(shelves).insert(who, changed[i].ids@);
    assert forall|w: Seq<char>| #[trigger] lists_of(changed).dom().contains(w) implies {
        &&& target.dom().contains(w)
        &&& lists_of(changed)[w] == target[w]
    } by {
        let j = slot(changed, w);
        assert(0 <= j < changed.len() && changed[j].owner@ == w);
        assert(shelves[j].owner@ == w);
        lemma_slot_is(shelves, w, j);
    }
    assert forall|w: Seq<char>| #[trigger] target.dom().contains(w) implies lists_of(
        changed,
    ).dom().contains(w) by {
        if w == who {
            lemma_slot_is(changed, w, i);
        } else {
            let j = slot(shelves, w);
            assert(0 <= j < shelves.len() && shelves[j].owner@ == w);
            lemma_slot_is(changed, w, j);
        }
    }
    assert(lists_of(changed) =~= target);
}

/// Adding a shelf for an address that had none files the new list under
/// that address and changes nothing else.
proof fn lemma_shelf_added(shelves: Seq<Shelf>, shelf: Shelf)
    requires
        distinct_owners(shelves),
        !shelved(shelves, shelf.owner@),
    ensures
        distinct_owners(shelves.push(shelf)),
        lists_of(shelves.push(shelf)) == lists_of(shelves).insert(shelf.owner@, shelf.ids@),
{
    let who = shelf.owner@;
    let longer = shelves.push(shelf);
    assert forall|a: int, b: int| 0 <= a < b < longer.len() implies (#[trigger] longer[a]).owner@
        != (#[trigger] longer[b]).owner@ by {
        if b < shelves.len() {
            assert(shelves[a].owner@ != shelves[b].owner@);
        } else {
            assert(shelves[a].owner@ != who);
        }
    }
    let target = lists_of(shelves).insert(who, shelf.ids@);
    assert forall|w: Seq<char>| #[trigger] lists_of(longer).dom().contains(w) implies {
        &&& target.dom().contains(w)
        &&& lists_of(longer)[w] == target[w]
    } by {
        let j = slot(longer, w);
        assert(0 <= j < longer.len() && longer[j].owner@ == w);
        if j < shelves.len() {
            assert(shelves[j].owner@ == w);
            lemma_slot_is(shelves, w, j);
        }
    }
    assert forall|w: Seq<char>| #[trigger] target.dom().contains(w) implies lists_of(
        longer,
    ).dom().contains(w) by {
        if w == who {
            lemma_slot_is(longer, w, shelves.len() as int);
        } else {
            let j = slot(shelves, w);
            assert(0 <= j < shelves.len() && shelves[j].owner@ == w);
            lemma_slot_is(longer, w, j);
        }
    }
    assert(lists_of(longer) =~= target);
}

/// Copies a list of identifiers.
pub fn copy_ids(ids: &Vec<u64>) -> (copy: Vec<u64>)
    ensures
        copy@ == ids@,
{
    let mut copy: Vec<u64> = Vec::new();
    let mut k: usize = 0;
    while k < ids.len()
        invariant
            k <= ids@.len(),
            copy@ == ids@.take(k as int),
        decreases ids@.len() - k,
    {
        copy.push(ids[k]);
        assert(ids@.take(k + 1) == ids@.take(k as int).push(ids@[k as int]));
        k = k + 1;
    }
    assert(ids@.take(ids@.len() as int) == ids@);
    copy
}

/// Takes the first occurrence of `id` out of a list, if there is one.
pub fn remove_first(ids: &mut Vec<u64>, id: u64)
    ensures
        final(ids)@ == old(ids)@.remove_value(id),
{
    let mut k: usize = 0;
    while k < ids.len()
        invariant
            k <= ids@.len(),
            ids@ == old(ids)@,
            forall|j: int| 0 <= j < k ==> ids@[j] != id,
        decreases ids@.len() - k,
    {
        if ids[k] == id {
            proof {
                ids@.index_of_first_ensures(id);
                assert(ids@.contains(id));
                let first = ids@.index_of_first(id).unwrap();
                assert(first == k);
            }
            ids.remove(k);
            return ;
        }
        k = k + 1;
    }
    proof {
        ids@.index_of_first_ensures(id);
        assert(!ids@.contains(id));
    }
}

impl View for AddressIndex {
    type V = Map<Seq<char>, Seq<u64>>;

    closed spec fn view(&self) -> Map<Seq<char>, Seq<u64>> {
        lists_of(self.shelves@)
    }
}

impl AddressIndex {
    /// Each address has one list at most.
    pub closed spec fn wf(&self) -> bool {
        distinct_owners(self.shelves@)
    }

    /// An index that files nothing.
    pub fn new() -> (index: AddressIndex)
        ensures
            index.wf(),
            index@ == Map::<Seq<char>, Seq<u64>>::empty(),
    {
        let index = AddressIndex { shelves: Vec::new() };
        assert(index@ =~= Map::<Seq<char>, Seq<u64>>::empty());
        index
    }

    /// The position of the shelf that belongs to `who`, if there is one.
    fn find(&self, who: &Address) -> (found: Option<usize>)
        requires
            self.wf(),
        ensures
            match found {
                Some(i) => {
                    &&& i < self.shelves@.len()
                    &&& self.shelves@[i as int].owner@ == who@
                    &&& self@.dom().contains(who@)
                    &&& self@[who@] == self.shelves@[i as int].ids@
                },
                None => !shelved(self.shelves@, who@) && !self@.dom().contains(who@),
            },
    {
        let mut k: usize = 0;
        while k < self.shelves.len()
            invariant
                self.wf(),
                k <= self.shelves@.len(),
                forall|j: int| 0 <= j < k ==> (#[trigger] self.shelves@[j]).owner@ != who@,
            decreases self.shelves@.len() - k,
        {
            if self.shelves[k].owner.same_as(who) {
                proof {
                    lemma_slot_is(self.shelves@, who@, k as int);
                }
                return Some(k);
            }
            k = k + 1;
        }
        None
    }

    /// The list filed under `who`; empty when none is.
    pub fn ids_of(&self, who: &Address) -> (ids: Vec<u64>)
        requires
            self.wf(),
        ensures
            ids@ == filed_under(self@, who@),
    {
        match self.find(who) {
            Some(i) => copy_ids(&self.shelves[i].ids),
            None => Vec::new(),
        }
    }

    /// Files `ids` under `who`, in place of what was filed there.
    pub fn put(&mut self, who: &Address, ids: Vec<u64>)
        requires
            old(self).wf(),
        ensures
            final(self).wf(),
            final(self)@ == old(self)@.insert(who@, ids@),
    {
        let ghost before = self.shelves@;
        match self.find(who) {
            Some(i) => {
                self.shelves[i].ids = ids;
                proof {
                    lemma_shelf_refilled(before, self.shelves@, i as int);
                }
            },
            None => {
                let shelf = Shelf { owner: who.clone(), ids };
                proof {
                    lemma_shelf_added(before, shelf);
                }
                self.shelves.push(shelf);
            },
        }
    }

    /// Appends `id` to the list filed under `who`.
    pub fn append(&mut self, who: &Address, id: u64)
        requires
            old(self).wf(),
        ensures
            final(self).wf(),
            final(self)@ == old(self)@.insert(who@, filed_under(old(self)@, who@).push(id)),
    {
        let ghost before = self.shelves@;
        match self.find(who) {
            Some(i) => {
                self.shelves[i].ids.push(id);
                proof {
                    lemma_shelf_refilled(before, self.shelves@, i as int);
                }
            },
            None => {
                let mut ids: Vec<u64> = Vec::new();
                ids.push(id);
                let shelf = Shelf { owner: who.clone(), ids };
                proof {
                    lemma_shelf_added(before, shelf);
                    assert(shelf.ids@ == Seq::<u64>::empty().push(id));
                }
                self.shelves.push(shelf);
            },
        }
    }
}

} // verus!

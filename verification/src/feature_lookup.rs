//! The table that ties a device's feature ids to the feature indices by which
//! requests address them, in both directions.
use vstd::prelude::*;

verus! {

/// The number of index slots (indices 0 to 254).
pub const INDEX_SLOTS: usize = 0xFF;

/// The number of id slots (ids 0 to 65534).
pub const ID_SLOTS: usize = 0xFFFF;

/// `bytemuck::allocation::zeroed_vec::<u8>`: `len` zero bytes.
#[verifier::external_body]
fn zeroed_u8s(len: usize) -> (v: Vec<u8>)
    ensures
        v@ == Seq::new(len as nat, |i: int| 0u8),
{
    bytemuck::allocation::zeroed_vec::<u8>(len)
}

/// `bytemuck::allocation::zeroed_vec::<u16>`: `len` zero words.
#[verifier::external_body]
fn zeroed_u16s(len: usize) -> (v: Vec<u16>)
    ensures
        v@ == Seq::new(len as nat, |i: int| 0u16),
{
    bytemuck::allocation::zeroed_vec::<u16>(len)
}

/// For each feature id the index it was last stored with, and for each index
/// the id it was last stored with; zero marks an empty slot. Index 0 always
/// stands for id 0, the root feature.
pub struct FeatureLookup {
    by_id: Vec<u8>,
    by_index: Vec<u16>,
}

impl FeatureLookup {
    /// Both tables have their full size, and every stored index has a slot.
    pub closed spec fn wf(self) -> bool {
        &&& self.by_id@.len() == ID_SLOTS
        &&& self.by_index@.len() == INDEX_SLOTS
        &&& forall|k: int| 0 <= k < ID_SLOTS ==> #[trigger] self.by_id@[k] < INDEX_SLOTS
    }

    /// The index stored for `id`, zero for none.
    pub closed spec fn stored_index(self, id: int) -> u8 {
        self.by_id@[id]
    }

    /// The id stored for `index`, zero for none.
    pub closed spec fn stored_id(self, index: int) -> u16 {
        self.by_index@[index]
    }

    /// What `get_index` answers for `id`.
    pub open spec fn index_of(self, id: u16) -> Option<u8> {
        if id == 0 {
            Some(0u8)
        } else if self.stored_index(id as int) != 0 {
            Some(self.stored_index(id as int))
        } else {
            None
        }
    }

    /// What `get_id` answers for `index`.
    pub open spec fn id_of(self, index: u8) -> Option<u16> {
        if index == 0 {
            Some(0u16)
        } else if self.stored_id(index as int) != 0 {
            Some(self.stored_id(index as int))
        } else {
            None
        }
    }

    /// `self` is `before` with `id` stored at `index` and `index` stored at
    /// `id`, every other slot as it was.
    pub open spec fn is_insert_of(self, before: Self, index: u8, id: u16) -> bool {
        &&& forall|i: int| 0 <= i < INDEX_SLOTS ==> #[trigger] self.stored_id(i)
            == if i == index { id } else { before.stored_id(i) }
        &&& forall|k: int| 0 <= k < ID_SLOTS ==> #[trigger] self.stored_index(k)
            == if k == id { index } else { before.stored_index(k) }
    }

    /// An empty table: nothing stored.
    pub fn new() -> (r: Self)
        ensures
            r.wf(),
            forall|id: int| 0 <= id < ID_SLOTS ==> #[trigger] r.stored_index(id) == 0,
            forall|index: int| 0 <= index < INDEX_SLOTS ==> #[trigger] r.stored_id(index) == 0,
            forall|id: u16| (id as int) < ID_SLOTS ==> #[trigger] r.index_of(id)
                == (if id == 0 { Some(0u8) } else { None }),
            forall|index: u8| (index as int) < INDEX_SLOTS ==> #[trigger] r.id_of(index)
                == (if index == 0 { Some(0u16) } else { None }),
    {
        FeatureLookup { by_id: zeroed_u8s(ID_SLOTS), by_index: zeroed_u16s(INDEX_SLOTS) }
    }

    /// Records that the feature `id` answers at `index`. Index 255 and id
    /// 65535 have no slot.
    pub fn insert(&mut self, index: u8, id: u16)
        requires
            old(self).wf(),
            (index as int) < INDEX_SLOTS,
            (id as int) < ID_SLOTS,
        ensures
            final(self).wf(),
            final(self).is_insert_of(*old(self), index, id),
            final(self).id_of(index) == (if index == 0 { Some(0u16) } else if id == 0 { None } else { Some(id) }),
            final(self).index_of(id) == (if id == 0 { Some(0u8) } else if index == 0 { None } else { Some(index) }),
    {
        self.by_index[index as usize] = id;
        self.by_id[id as usize] = index;
    }

    /// The index at which the feature `id` answers, if it is known; id 0 is
    /// always at index 0.
    pub fn get_index(&self, id: u16) -> (r: Option<u8>)
        requires
            self.wf(),
            (id as int) < ID_SLOTS,
        ensures
            r == self.index_of(id),
            r matches Some(i) ==> i < INDEX_SLOTS,
    {
        if id == 0 {
            return Some(0);
        }
        let index = self.by_id[id as usize];
        if index != 0 {
            Some(index)
        } else {
            None
        }
    }

    /// The id of the feature that answers at `index`, if it is known; index 0
    /// always holds id 0.
    pub fn get_id(&self, index: u8) -> (r: Option<u16>)
        requires
            self.wf(),
            (index as int) < INDEX_SLOTS,
        ensures
            r == self.id_of(index),
    {
        if index == 0 {
            return Some(0);
        }
        let id = self.by_index[index as usize];
        if id != 0 {
            Some(id)
        } else {
            None
        }
    }

    /// The known `(index, id)` pairs among the first `n` indices, in
    /// ascending order of index.
    pub open spec fn entries_below(self, n: nat) -> Seq<(u8, u16)>
        decreases n,
    {
        if n == 0 {
            Seq::empty()
        } else {
            let i = (n - 1) as u8;
            let earlier = self.entries_below((n - 1) as nat);
            match self.id_of(i) {
                Some(id) => earlier.push((i, id)),
                None => earlier,
            }
        }
    }

    /// Every known `(index, id)` pair, in ascending order of index: index 0
    /// with id 0 first, then each index whose slot holds an id.
    pub fn iter(&self) -> (r: Vec<(u8, u16)>)
        requires
            self.wf(),
        ensures
            r@ == self.entries_below(INDEX_SLOTS as nat),
    {
        let mut r: Vec<(u8, u16)> = Vec::new();
        let mut index: usize = 0;
        while index < INDEX_SLOTS
            invariant
                self.wf(),
                index <= INDEX_SLOTS,
                r@ == self.entries_below(index as nat),
            decreases INDEX_SLOTS - index,
        {
            let i = index as u8;
            match self.get_id(i) {
                Some(id) => r.push((i, id)),
                None => {},
            }
            index = index + 1;
        }
        r
    }
}

/// Every pair that `iter` lists among the first `n` indices is one that
/// `get_id` gives, the indices strictly ascending; and every index below `n`
/// that `get_id` knows is listed.
pub proof fn lemma_entries_match_lookup(t: FeatureLookup, n: nat)
    requires
        n <= INDEX_SLOTS,
    ensures
        forall|k: int| 0 <= k < t.entries_below(n).len() ==> {
            let (i, id) = #[trigger] t.entries_below(n)[k];
            &&& (i as nat) < n
            &&& t.id_of(i) == Some(id)
        },
        forall|k: int, l: int| 0 <= k < l < t.entries_below(n).len() ==>
            (#[trigger] t.entries_below(n)[k]).0 < (#[trigger] t.entries_below(n)[l]).0,
        forall|i: u8| (i as nat) < n && #[trigger] t.id_of(i) is Some ==>
            t.entries_below(n).contains((i, t.id_of(i)->0)),
    decreases n,
{
    if n > 0 {
        let m = (n - 1) as nat;
        lemma_entries_match_lookup(t, m);
        let i = m as u8;
        let earlier = t.entries_below(m);
        assert forall|j: u8| (j as nat) < n && #[trigger] t.id_of(j) is Some implies
            t.entries_below(n).contains((j, t.id_of(j)->0)) by {
            if (j as nat) < m {
                let k = choose|k: int| 0 <= k < earlier.len() && earlier[k] == (j, t.id_of(j)->0);
                assert(t.entries_below(n)[k] == (j, t.id_of(j)->0));
            } else {
                assert(j == i);
                assert(t.entries_below(n)[earlier.len() as int] == (j, t.id_of(j)->0));
            }
        }
    }
}

impl Default for FeatureLookup {
    fn default() -> (r: Self)
        ensures
            r.wf(),
            forall|id: int| 0 <= id < ID_SLOTS ==> #[trigger] r.stored_index(id) == 0,
            forall|index: int| 0 <= index < INDEX_SLOTS ==> #[trigger] r.stored_id(index) == 0,
            forall|id: u16| (id as int) < ID_SLOTS ==> #[trigger] r.index_of(id)
                == (if id == 0 { Some(0u8) } else { None }),
            forall|index: u8| (index as int) < INDEX_SLOTS ==> #[trigger] r.id_of(index)
                == (if index == 0 { Some(0u16) } else { None }),
    {
        Self::new()
    }
}

} // verus!

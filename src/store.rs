//! The document store: documents keyed by identifier, each with an active flag.

use vstd::prelude::*;
use crate::did::{DIDDocument, DocumentView};
use crate::types::Error;

verus! {

/// What a store holds: for each identifier, its document and whether it is active.
pub type StoreView = Map<Seq<char>, (DocumentView, bool)>;

struct StoreEntry {
    did: String,
    document: DIDDocument,
    active: bool,
}

/// Documents keyed by identifier. Creation and update are each one
/// check-and-write on `&mut self`, so two creations of one identifier cannot
/// both succeed.
pub struct DocumentStore {
    entries: Vec<StoreEntry>,
}

/// The index of the entry for `did`, if any.
spec fn holds_did(entries: Seq<StoreEntry>, did: Seq<char>, i: int) -> bool {
    0 <= i < entries.len() && entries[i].did@ == did
}

impl View for DocumentStore {
    type V = StoreView;

    closed spec fn view(&self) -> StoreView {
        Map::new(
            |k: Seq<char>| exists|i: int| holds_did(self.entries@, k, i),
            |k: Seq<char>|
                {
                    let i = choose|i: int| holds_did(self.entries@, k, i);
                    (self.entries@[i].document@, self.entries@[i].active)
                },
        )
    }
}

impl DocumentStore {
    /// No identifier has two entries.
    pub closed spec fn well_formed(&self) -> bool {
        forall|i: int, j: int|
            0 <= i < self.entries@.len() && 0 <= j < self.entries@.len() && (
            #[trigger] self.entries@[i]).did@ == (#[trigger] self.entries@[j]).did@ ==> i == j
    }

    proof fn lemma_entry(&self, i: int)
        requires
            self.well_formed(),
            0 <= i < self.entries@.len(),
        ensures
            self@.contains_key(self.entries@[i].did@),
            self@[self.entries@[i].did@] == (self.entries@[i].document@, self.entries@[i].active),
    {
        let k = self.entries@[i].did@;
        assert(holds_did(self.entries@, k, i));
        let j = choose|j: int| holds_did(self.entries@, k, j);
        assert(self.entries@[i].did@ == self.entries@[j].did@);
    }

    /// An empty store.
    pub fn new() -> (s: Self)
        ensures
            s.well_formed(),
            s@ == StoreView::empty(),
    {
        let s = DocumentStore { entries: Vec::new() };
        assert(s@ =~= StoreView::empty());
        s
    }

    fn find(&self, did: &String) -> (r: Option<usize>)
        requires
            self.well_formed(),
        ensures
            r matches Some(i) ==> i < self.entries@.len() && self.entries@[i as int].did@ == did@,
            r is None <==> !self@.contains_key(did@),
    {
        let mut i: usize = 0;
        while i < self.entries.len()
            invariant
                self.well_formed(),
                i <= self.entries@.len(),
                forall|j: int| 0 <= j < i ==> (#[trigger] self.entries@[j]).did@ != did@,
            decreases self.entries@.len() - i,
        {
            if self.entries[i].did == *did {
                proof {
                    self.lemma_entry(i as int);
                }
                return Some(i);
            }
            i = i + 1;
        }
        None
    }

    /// Store a document. A creation (`is_update` false) fails with
    /// `InvalidInput` when the identifier is already stored, active or not; an
    /// update fails with `NotFound` when it is not. An update keeps the active flag.
    pub fn store_did_document(&mut self, did: &str, document: &DIDDocument, is_update: bool) -> (r:
        Result<(), Error>)
        requires
            old(self).well_formed(),
        ensures
            final(self).well_formed(),
            !is_update && old(self)@.contains_key(did@) ==> (r matches Err(Error::InvalidInput(_)))
                && final(self)@ == old(self)@,
            is_update && !old(self)@.contains_key(did@) ==> (r matches Err(Error::NotFound(_)))
                && final(self)@ == old(self)@,
            !is_update && !old(self)@.contains_key(did@) ==> r is Ok && final(self)@ == old(
                self,
            )@.insert(did@, (document@, true)),
            is_update && old(self)@.contains_key(did@) ==> r is Ok && final(self)@ == old(
                self,
            )@.insert(did@, (document@, old(self)@[did@].1)),
    {
        let key = did.to_owned();
        match self.find(&key) {
            Some(i) => {
                if !is_update {
                    return Err(Error::InvalidInput("DID already exists: ".to_owned().concat(did)));
                }
                let ghost before = *self;
                proof {
                    before.lemma_entry(i as int);
                }
                let active = self.entries[i].active;
                self.entries[i] = StoreEntry { did: key, document: document.clone(), active };
                proof {
                    assert forall|a: int, b: int|
                        0 <= a < self.entries@.len() && 0 <= b < self.entries@.len() && (
                        #[trigger] self.entries@[a]).did@ == (#[trigger] self.entries@[b]).did@ implies a == b by {
                        assert(self.entries@[a].did@ == before.entries@[a].did@);
                        assert(self.entries@[b].did@ == before.entries@[b].did@);
                    }
                    self.lemma_same_keys(&before, i as int);
                }
                Ok(())
            },
            None => {
                if is_update {
                    return Err(Error::NotFound("DID not found: ".to_owned().concat(did)));
                }
                let ghost before = *self;
                self.entries.push(StoreEntry { did: key, document: document.clone(), active: true });
                proof {
                    assert(self.entries@.drop_last() =~= before.entries@);
                    self.lemma_pushed(&before);
                }
                Ok(())
            },
        }
    }

    /// The document of an active identifier; nothing for one that is absent or
    /// deactivated.
    pub fn get_did_document(&self, did: &str) -> (r: Option<DIDDocument>)
        requires
            self.well_formed(),
        ensures
            (self@.contains_key(did@) && self@[did@].1) ==> r is Some && r->Some_0@ == self@[did@].0,
            !(self@.contains_key(did@) && self@[did@].1) ==> r is None,
    {
        let key = did.to_owned();
        match self.find(&key) {
            Some(i) => {
                proof {
                    self.lemma_entry(i as int);
                }
                if self.entries[i].active {
                    Some(self.entries[i].document.clone())
                } else {
                    None
                }
            },
            None => None,
        }
    }

    /// Clear the active flag of an identifier; `NotFound` when it is not stored.
    /// Deactivating twice leaves the store as the first time did.
    pub fn deactivate_did(&mut self, did: &str) -> (r: Result<(), Error>)
        requires
            old(self).well_formed(),
        ensures
            final(self).well_formed(),
            old(self)@.contains_key(did@) ==> r is Ok && final(self)@ == old(self)@.insert(
                did@,
                (old(self)@[did@].0, false),
            ),
            !old(self)@.contains_key(did@) ==> (r matches Err(Error::NotFound(_))) && final(self)@
                == old(self)@,
    {
        let key = did.to_owned();
        match self.find(&key) {
            Some(i) => {
                let ghost before = *self;
                proof {
                    before.lemma_entry(i as int);
                }
                self.entries[i].active = false;
                proof {
                    assert forall|a: int, b: int|
                        0 <= a < self.entries@.len() && 0 <= b < self.entries@.len() && (
                        #[trigger] self.entries@[a]).did@ == (#[trigger] self.entries@[b]).did@ implies a == b by {
                        assert(self.entries@[a].did@ == before.entries@[a].did@);
                        assert(self.entries@[b].did@ == before.entries@[b].did@);
                    }
                    self.lemma_same_keys(&before, i as int);
                }
                Ok(())
            },
            None => Err(Error::NotFound("DID not found: ".to_owned().concat(did))),
        }
    }

    proof fn lemma_same_keys(&self, before: &Self, i: int)
        requires
            before.well_formed(),
            self.well_formed(),
            0 <= i < before.entries@.len(),
            self.entries@.len() == before.entries@.len(),
            forall|j: int|
                0 <= j < self.entries@.len() && j != i ==> #[trigger] self.entries@[j]
                    == before.entries@[j],
            self.entries@[i].did@ == before.entries@[i].did@,
        ensures
            self@ == before@.insert(
                self.entries@[i].did@,
                (self.entries@[i].document@, self.entries@[i].active),
            ),
    {
        let k = self.entries@[i].did@;
        assert forall|key: Seq<char>| #[trigger] self@.contains_key(key) <==> before@.insert(
            k,
            (self.entries@[i].document@, self.entries@[i].active),
        ).contains_key(key) by {
            if self@.contains_key(key) {
                let j = choose|j: int| holds_did(self.entries@, key, j);
                if j != i {
                    assert(holds_did(before.entries@, key, j));
                }
            }
            if before@.contains_key(key) {
                let j = choose|j: int| holds_did(before.entries@, key, j);
                if j != i {
                    assert(holds_did(self.entries@, key, j));
                } else {
                    assert(holds_did(self.entries@, key, i));
                }
            }
            if key == k {
                assert(holds_did(self.entries@, key, i));
            }
        }
        assert forall|key: Seq<char>| #[trigger] self@.contains_key(key) implies self@[key]
            == before@.insert(k, (self.entries@[i].document@, self.entries@[i].active))[key] by {
            let j = choose|j: int| holds_did(self.entries@, key, j);
            self.lemma_entry(j);
            if j != i {
                before.lemma_entry(j);
            }
        }
        assert(self@ =~= before@.insert(k, (self.entries@[i].document@, self.entries@[i].active)));
    }

    proof fn lemma_pushed(&self, before: &Self)
        requires
            before.well_formed(),
            self.entries@.len() == before.entries@.len() + 1,
            !before@.contains_key(self.entries@.last().did@),
            self.entries@.drop_last() == before.entries@,
        ensures
            self.well_formed(),
            self@ == before@.insert(
                self.entries@.last().did@,
                (self.entries@.last().document@, self.entries@.last().active),
            ),
    {
        let n = before.entries@.len() as int;
        let e = self.entries@[n];
        assert forall|j: int| 0 <= j < n implies #[trigger] self.entries@[j] == before.entries@[j] by {
            assert(self.entries@.drop_last()[j] == self.entries@[j]);
        }
        assert forall|a: int, b: int|
            0 <= a < self.entries@.len() && 0 <= b < self.entries@.len() && (
            #[trigger] self.entries@[a]).did@ == (#[trigger] self.entries@[b]).did@ implies a == b by {
            if a < n && b == n {
                before.lemma_entry(a);
            }
            if b < n && a == n {
                before.lemma_entry(b);
            }
        }
        assert forall|key: Seq<char>| #[trigger] self@.contains_key(key) <==> before@.insert(
            e.did@,
            (e.document@, e.active),
        ).contains_key(key) by {
            if self@.contains_key(key) {
                let j = choose|j: int| holds_did(self.entries@, key, j);
                if j != n {
                    assert(holds_did(before.entries@, key, j));
                }
            }
            if before@.contains_key(key) {
                let j = choose|j: int| holds_did(before.entries@, key, j);
                assert(holds_did(self.entries@, key, j));
            }
            if key == e.did@ {
                assert(holds_did(self.entries@, key, n));
            }
        }
        assert forall|key: Seq<char>| #[trigger] self@.contains_key(key) implies self@[key]
            == before@.insert(e.did@, (e.document@, e.active))[key] by {
            let j = choose|j: int| holds_did(self.entries@, key, j);
            self.lemma_entry(j);
            if j != n {
                before.lemma_entry(j);
            }
        }
        assert(self@ =~= before@.insert(e.did@, (e.document@, e.active)));
    }
}

} // verus!

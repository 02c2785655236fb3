//! The identifier engine: creation, resolution, update and deactivation over a
//! document store, with control proven by signing-key material.

use vstd::prelude::*;
use crate::did::{
    decode_signing_key, document_consistent, has_key, holds_key, is_consistent, initial_document, new_document, prepare_update,
    public_key_base58, public_key_text, seed_of_key_text, updated_document, DIDDocument,
    DocumentView, ed25519_public_of,
};
use crate::store::{DocumentStore, StoreView};
use crate::types::{kind_of, Error, ErrorKind};
use crate::utils::{base58_of, current_timestamp};

verus! {

/// A document, or the kind of the error, of an operation's result.
pub open spec fn doc_outcome(r: Result<DIDDocument, Error>) -> Result<DocumentView, ErrorKind> {
    match r {
        Ok(d) => Ok(d@),
        Err(e) => Err(e.spec_kind()),
    }
}

/// Whether the identifier is stored and active.
pub open spec fn live(s: StoreView, did: Seq<char>) -> bool {
    s.contains_key(did) && s[did].1
}

/// Resolution: the document of a live identifier, else `NotFound`.
pub open spec fn resolve_step(s: StoreView, did: Seq<char>) -> Result<DocumentView, ErrorKind> {
    if live(s, did) {
        Ok(s[did].0)
    } else {
        Err(ErrorKind::NotFound)
    }
}

/// Resolution that also consults the ledger: a live identifier that the
/// ledger reports inactive fails with `InvalidState`.
pub open spec fn resolve_checked_step(s: StoreView, did: Seq<char>, ledger_active: bool) -> Result<
    DocumentView,
    ErrorKind,
> {
    if live(s, did) && !ledger_active {
        Err(ErrorKind::InvalidState)
    } else {
        resolve_step(s, did)
    }
}

/// Creation from Base58 key material at time `now`: the store after it, and
/// the created document or the kind of error.
pub open spec fn create_step(s: StoreView, key: Seq<char>, now: u64) -> (
    StoreView,
    Result<DocumentView, ErrorKind>,
) {
    match seed_of_key_text(key) {
        None => (s, Err(ErrorKind::InvalidInput)),
        Some(seed) => {
            let doc = initial_document(public_key_text(seed), now);
            if s.contains_key(doc.id) {
                (s, Err(ErrorKind::InvalidInput))
            } else {
                (s.insert(doc.id, (doc, true)), Ok(doc))
            }
        },
    }
}

/// Proof of control: the key material is valid, the identifier is live, and
/// its document lists the verifying key of the material (any listed key will do).
pub open spec fn ownership_step(s: StoreView, did: Seq<char>, key: Seq<char>) -> Result<
    (),
    ErrorKind,
> {
    match seed_of_key_text(key) {
        None => Err(ErrorKind::InvalidInput),
        Some(seed) => {
            if !live(s, did) {
                Err(ErrorKind::NotFound)
            } else if !has_key(s[did].0, public_key_text(seed)) {
                Err(ErrorKind::Unauthorized)
            } else {
                Ok(())
            }
        },
    }
}

/// Update: after proof of control, the ledger must report the identifier
/// active (else `InvalidState`), and the proposed document under the update
/// rules must be structurally consistent (else `InvalidInput`); then it is stored.
pub open spec fn update_step(
    s: StoreView,
    did: Seq<char>,
    key: Seq<char>,
    proposed: DocumentView,
    ledger_active: bool,
    now: u64,
) -> (StoreView, Result<DocumentView, ErrorKind>) {
    match ownership_step(s, did, key) {
        Err(e) => (s, Err(e)),
        Ok(_) => {
            let doc = updated_document(s[did].0, proposed, now);
            if !ledger_active {
                (s, Err(ErrorKind::InvalidState))
            } else if !document_consistent(doc) {
                (s, Err(ErrorKind::InvalidInput))
            } else {
                (s.insert(did, (doc, true)), Ok(doc))
            }
        },
    }
}

/// Deactivation: after proof of control, the identifier's active flag is cleared.
pub open spec fn deactivate_step(s: StoreView, did: Seq<char>, key: Seq<char>) -> (
    StoreView,
    Result<(), ErrorKind>,
) {
    match ownership_step(s, did, key) {
        Err(e) => (s, Err(e)),
        Ok(_) => (s.insert(did, (s[did].0, false)), Ok(())),
    }
}

/// Every stored document carries, as its id, the identifier it is stored under.
pub open spec fn ids_match(s: StoreView) -> bool {
    forall|k: Seq<char>| #[trigger] s.contains_key(k) ==> s[k].0.id == k
}

/// The engine over its document store.
pub struct Registry {
    store: DocumentStore,
}

impl View for Registry {
    type V = StoreView;

    closed spec fn view(&self) -> StoreView {
        self.store@
    }
}

impl Registry {
    pub closed spec fn well_formed(&self) -> bool {
        self.store.well_formed() && ids_match(self.store@)
    }

    /// A well-formed registry's documents carry the identifiers they are stored under.
    pub proof fn lemma_ids_match(&self)
        requires
            self.well_formed(),
        ensures
            ids_match(self@),
    {
    }

    /// A registry with no identifiers.
    pub fn new() -> (r: Self)
        ensures
            r.well_formed(),
            r@ == StoreView::empty(),
    {
        Registry { store: DocumentStore::new() }
    }

    /// A registry over documents already stored.
    pub fn from_store(store: DocumentStore) -> (r: Self)
        requires
            store.well_formed(),
            ids_match(store@),
        ensures
            r.well_formed(),
            r@ == store@,
    {
        Registry { store }
    }

    /// Create the document of the key material at time `now`.
    pub fn create_did_at(&mut self, signing_key: &str, now: u64) -> (r: Result<DIDDocument, Error>)
        requires
            old(self).well_formed(),
        ensures
            final(self).well_formed(),
            (final(self)@, doc_outcome(r)) == create_step(old(self)@, signing_key@, now),
    {
        let seed = match decode_signing_key(signing_key) {
            Ok(seed) => seed,
            Err(e) => return Err(e),
        };
        let public_key = public_key_base58(seed.as_slice());
        let doc = new_document(public_key.as_str(), now);
        match self.store.store_did_document(doc.id.as_str(), &doc, false) {
            Ok(()) => Ok(doc),
            Err(e) => Err(e),
        }
    }

    /// Create the document of the key material, stamped with the clock.
    pub fn create_did(&mut self, signing_key: &str) -> (r: Result<DIDDocument, Error>)
        requires
            old(self).well_formed(),
        ensures
            final(self).well_formed(),
            exists|now: u64|
                (final(self)@, doc_outcome(r)) == #[trigger] create_step(
                    old(self)@,
                    signing_key@,
                    now,
                ),
    {
        let now = current_timestamp();
        self.create_did_at(signing_key, now)
    }

    /// The document of a live identifier.
    pub fn resolve_did(&self, did: &str) -> (r: Result<DIDDocument, Error>)
        requires
            self.well_formed(),
        ensures
            doc_outcome(r) == resolve_step(self@, did@),
    {
        match self.store.get_did_document(did) {
            Some(doc) => Ok(doc),
            None => Err(Error::NotFound("DID not found: ".to_owned().concat(did))),
        }
    }

    /// The document of a live identifier, refused when the ledger reports it
    /// inactive; this closes the window in which a deactivation recorded on
    /// the ledger is not yet reflected locally.
    pub fn resolve_did_with_status(&self, did: &str, ledger_active: bool) -> (r: Result<
        DIDDocument,
        Error,
    >)
        requires
            self.well_formed(),
        ensures
            doc_outcome(r) == resolve_checked_step(self@, did@, ledger_active),
    {
        match self.resolve_did(did) {
            Ok(doc) => {
                if ledger_active {
                    Ok(doc)
                } else {
                    Err(Error::InvalidState("DID is deactivated".to_owned()))
                }
            },
            Err(e) => Err(e),
        }
    }

    /// Check that the key material controls the identifier.
    pub fn verify_did_ownership(&self, did: &str, signing_key: &str) -> (r: Result<(), Error>)
        requires
            self.well_formed(),
        ensures
            kind_of(r) == ownership_step(self@, did@, signing_key@),
    {
        let seed = match decode_signing_key(signing_key) {
            Ok(seed) => seed,
            Err(e) => return Err(e),
        };
        let doc = match self.store.get_did_document(did) {
            Some(doc) => doc,
            None => return Err(Error::NotFound("DID not found: ".to_owned().concat(did))),
        };
        let public_key = public_key_base58(seed.as_slice());
        if !holds_key(&doc, public_key.as_str()) {
            return Err(Error::Unauthorized("Invalid signing key".to_owned()));
        }
        Ok(())
    }

    /// Replace the document of an identifier at time `now`, given whether the
    /// ledger reports it active.
    pub fn update_did_at(
        &mut self,
        did: &str,
        signing_key: &str,
        document: DIDDocument,
        ledger_active: bool,
        now: u64,
    ) -> (r: Result<DIDDocument, Error>)
        requires
            old(self).well_formed(),
        ensures
            final(self).well_formed(),
            (final(self)@, doc_outcome(r)) == update_step(
                old(self)@,
                did@,
                signing_key@,
                document@,
                ledger_active,
                now,
            ),
            r matches Ok(d) ==> d@.id == did@,
    {
        match self.verify_did_ownership(did, signing_key) {
            Ok(()) => {},
            Err(e) => return Err(e),
        }
        if !ledger_active {
            return Err(Error::InvalidState("DID is deactivated".to_owned()));
        }
        let stored = match self.store.get_did_document(did) {
            Some(doc) => doc,
            None => return Err(Error::NotFound("DID not found: ".to_owned().concat(did))),
        };
        let doc = prepare_update(&stored, document, now);
        if !is_consistent(&doc) {
            return Err(Error::InvalidInput("Structurally invalid DID document".to_owned()));
        }
        match self.store.store_did_document(did, &doc, true) {
            Ok(()) => Ok(doc),
            Err(e) => Err(e),
        }
    }

    /// Replace the document of an identifier, stamped with the clock.
    pub fn update_did(&mut self, did: &str, signing_key: &str, document: DIDDocument, ledger_active: bool) -> (r:
        Result<DIDDocument, Error>)
        requires
            old(self).well_formed(),
        ensures
            final(self).well_formed(),
            exists|now: u64|
                (final(self)@, doc_outcome(r)) == #[trigger] update_step(
                    old(self)@,
                    did@,
                    signing_key@,
                    document@,
                    ledger_active,
                    now,
                ),
            r matches Ok(d) ==> d@.id == did@,
    {
        let now = current_timestamp();
        self.update_did_at(did, signing_key, document, ledger_active, now)
    }

    /// Deactivate an identifier that the key material controls, clearing its
    /// local active flag; recording the deactivation on the ledger is the
    /// caller's step, taken after `verify_did_ownership` and before this.
    pub fn deactivate_did(&mut self, did: &str, signing_key: &str) -> (r: Result<(), Error>)
        requires
            old(self).well_formed(),
        ensures
            final(self).well_formed(),
            (final(self)@, kind_of(r)) == deactivate_step(old(self)@, did@, signing_key@),
    {
        match self.verify_did_ownership(did, signing_key) {
            Ok(()) => {},
            Err(e) => return Err(e),
        }
        self.store.deactivate_did(did)
    }
}

/// Creating from valid key material and then resolving the new identifier
/// gives the created document; its identifier is `did:example:` followed by
/// the Base58 verifying key, which is also the Base58 text of its first key.
pub proof fn lemma_create_then_resolve(s: StoreView, key: Seq<char>, now: u64)
    requires
        create_step(s, key, now).1 is Ok,
    ensures
        ({
            let seed = seed_of_key_text(key)->Some_0;
            let doc = create_step(s, key, now).1->Ok_0;
            &&& resolve_step(create_step(s, key, now).0, doc.id) == Ok::<DocumentView, ErrorKind>(doc)
            &&& doc.id == "did:example:"@ + base58_of(ed25519_public_of(seed))
            &&& doc.public_keys[0].public_key_base58 == base58_of(ed25519_public_of(seed))
        }),
{
}

/// Creating twice from the same key material fails the second time with
/// `InvalidInput`, and leaves the store as the first creation left it.
pub proof fn lemma_create_twice(s: StoreView, key: Seq<char>, first: u64, second: u64)
    requires
        create_step(s, key, first).1 is Ok,
    ensures
        create_step(create_step(s, key, first).0, key, second) == (
            create_step(s, key, first).0,
            Err::<DocumentView, ErrorKind>(ErrorKind::InvalidInput),
        ),
{
}

/// Resolving an identifier that was never stored fails with `NotFound`.
pub proof fn lemma_resolve_unknown(s: StoreView, did: Seq<char>)
    requires
        !s.contains_key(did),
    ensures
        resolve_step(s, did) == Err::<DocumentView, ErrorKind>(ErrorKind::NotFound),
{
}

/// Updating with valid key material whose verifying key the live document does
/// not list fails with `Unauthorized` and leaves the store unchanged.
pub proof fn lemma_update_unauthorized(
    s: StoreView,
    did: Seq<char>,
    key: Seq<char>,
    proposed: DocumentView,
    ledger_active: bool,
    now: u64,
)
    requires
        seed_of_key_text(key) is Some,
        live(s, did),
        !has_key(s[did].0, public_key_text(seed_of_key_text(key)->Some_0)),
    ensures
        update_step(s, did, key, proposed, ledger_active, now) == (
            s,
            Err::<DocumentView, ErrorKind>(ErrorKind::Unauthorized),
        ),
{
}

/// A successful update stores and returns a consistent document whose update
/// time is no earlier than the one it replaced and whose creation time is
/// kept; where stored documents carry their identifiers, it carries `did`.
pub proof fn lemma_update_advances(
    s: StoreView,
    did: Seq<char>,
    key: Seq<char>,
    proposed: DocumentView,
    ledger_active: bool,
    now: u64,
)
    requires
        update_step(s, did, key, proposed, ledger_active, now).1 is Ok,
    ensures
        ({
            let (after, r) = update_step(s, did, key, proposed, ledger_active, now);
            &&& live(after, did)
            &&& r == Ok::<DocumentView, ErrorKind>(after[did].0)
            &&& after[did].0.updated >= s[did].0.updated
            &&& after[did].0.created == s[did].0.created
            &&& document_consistent(after[did].0)
            &&& ids_match(s) ==> after[did].0.id == did && ids_match(after)
        }),
{
}

/// An update by the owner, with the ledger reporting the identifier inactive,
/// fails with `InvalidState` and changes nothing, whatever document is proposed.
pub proof fn lemma_update_inactive_on_ledger(
    s: StoreView,
    did: Seq<char>,
    key: Seq<char>,
    proposed: DocumentView,
    now: u64,
)
    requires
        ownership_step(s, did, key) is Ok,
    ensures
        update_step(s, did, key, proposed, false, now) == (
            s,
            Err::<DocumentView, ErrorKind>(ErrorKind::InvalidState),
        ),
{
}

/// An update by the owner, with the ledger reporting the identifier active and
/// a proposed document that is consistent under the update rules, succeeds:
/// it keeps the creation time and does not move the update time back.
pub proof fn lemma_update_succeeds(
    s: StoreView,
    did: Seq<char>,
    key: Seq<char>,
    proposed: DocumentView,
    now: u64,
)
    requires
        ownership_step(s, did, key) is Ok,
        document_consistent(updated_document(s[did].0, proposed, now)),
    ensures
        ({
            let (after, r) = update_step(s, did, key, proposed, true, now);
            &&& r is Ok
            &&& live(after, did)
            &&& r == Ok::<DocumentView, ErrorKind>(after[did].0)
            &&& after[did].0.updated >= s[did].0.updated
            &&& after[did].0.updated >= now
            &&& after[did].0.created == s[did].0.created
        }),
{
}

/// An update whose resulting document would break the structural invariant
/// is refused with `InvalidInput`, after proof of control and with the ledger
/// reporting the identifier active, and changes nothing.
pub proof fn lemma_update_rejects_inconsistent(
    s: StoreView,
    did: Seq<char>,
    key: Seq<char>,
    proposed: DocumentView,
    ledger_active: bool,
    now: u64,
)
    requires
        ownership_step(s, did, key) is Ok,
        ledger_active,
        !document_consistent(updated_document(s[did].0, proposed, now)),
    ensures
        update_step(s, did, key, proposed, ledger_active, now) == (
            s,
            Err::<DocumentView, ErrorKind>(ErrorKind::InvalidInput),
        ),
{
}

/// After a deactivation the identifier no longer resolves, no update of it
/// succeeds or changes the store, and deactivating it again fails without
/// changing the store.
pub proof fn lemma_deactivate_final(
    s: StoreView,
    did: Seq<char>,
    key: Seq<char>,
    other_key: Seq<char>,
    proposed: DocumentView,
    ledger_active: bool,
    now: u64,
)
    requires
        deactivate_step(s, did, key).1 is Ok,
    ensures
        ({
            let after = deactivate_step(s, did, key).0;
            &&& resolve_step(after, did) == Err::<DocumentView, ErrorKind>(ErrorKind::NotFound)
            &&& update_step(after, did, other_key, proposed, ledger_active, now).0 == after
            &&& update_step(after, did, other_key, proposed, ledger_active, now).1 is Err
            &&& deactivate_step(after, did, other_key).0 == after
            &&& deactivate_step(after, did, other_key).1 is Err
        }),
{
}

/// No operation brings a deactivated identifier back: creation, update and
/// deactivation, with any inputs, leave it stored and inactive.
pub proof fn lemma_deactivated_stays(
    s: StoreView,
    did: Seq<char>,
    other: Seq<char>,
    key: Seq<char>,
    proposed: DocumentView,
    ledger_active: bool,
    now: u64,
)
    requires
        s.contains_key(did),
        !s[did].1,
    ensures
        create_step(s, key, now).0.contains_key(did),
        !create_step(s, key, now).0[did].1,
        update_step(s, other, key, proposed, ledger_active, now).0.contains_key(did),
        !update_step(s, other, key, proposed, ledger_active, now).0[did].1,
        deactivate_step(s, other, key).0.contains_key(did),
        !deactivate_step(s, other, key).0[did].1,
{
}

} // verus!

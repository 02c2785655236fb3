//! Identifier documents and the rules that build and change them.

use vstd::prelude::*;
use crate::types::Error;
use crate::utils::{base58_decoded, base58_of, decode_base58, encode_base58, is_base58};

verus! {

/// A public key listed in a document.
#[derive(Debug)]
pub struct PublicKeyInfo {
    pub id: String,
    pub type_: String,
    pub controller: String,
    pub public_key_base58: String,
}

/// A service endpoint listed in a document.
#[derive(Debug)]
pub struct Service {
    pub id: String,
    pub type_: String,
    pub endpoint: String,
}

/// An identity record.
#[derive(Debug)]
pub struct DIDDocument {
    pub id: String,
    pub public_keys: Vec<PublicKeyInfo>,
    pub authentication: Vec<String>,
    pub services: Vec<Service>,
    pub created: u64,
    pub updated: u64,
}

/// The content of a [`PublicKeyInfo`].
pub struct KeyView {
    pub id: Seq<char>,
    pub type_: Seq<char>,
    pub controller: Seq<char>,
    pub public_key_base58: Seq<char>,
}

/// The content of a [`Service`].
pub struct ServiceView {
    pub id: Seq<char>,
    pub type_: Seq<char>,
    pub endpoint: Seq<char>,
}

/// The content of a [`DIDDocument`].
pub struct DocumentView {
    pub id: Seq<char>,
    pub public_keys: Seq<KeyView>,
    pub authentication: Seq<Seq<char>>,
    pub services: Seq<ServiceView>,
    pub created: u64,
    pub updated: u64,
}

impl View for PublicKeyInfo {
    type V = KeyView;

    open spec fn view(&self) -> KeyView {
        KeyView {
            id: self.id@,
            type_: self.type_@,
            controller: self.controller@,
            public_key_base58: self.public_key_base58@,
        }
    }
}

impl View for Service {
    type V = ServiceView;

    open spec fn view(&self) -> ServiceView {
        ServiceView { id: self.id@, type_: self.type_@, endpoint: self.endpoint@ }
    }
}

impl View for DIDDocument {
    type V = DocumentView;

    open spec fn view(&self) -> DocumentView {
        DocumentView {
            id: self.id@,
            public_keys: self.public_keys@.map_values(|k: PublicKeyInfo| k@),
            authentication: self.authentication@.map_values(|a: String| a@),
            services: self.services@.map_values(|s: Service| s@),
            created: self.created,
            updated: self.updated,
        }
    }
}

impl Clone for PublicKeyInfo {
    fn clone(&self) -> (r: Self)
        ensures
            r@ == self@,
    {
        PublicKeyInfo {
            id: self.id.clone(),
            type_: self.type_.clone(),
            controller: self.controller.clone(),
            public_key_base58: self.public_key_base58.clone(),
        }
    }
}

impl Clone for Service {
    fn clone(&self) -> (r: Self)
        ensures
            r@ == self@,
    {
        Service { id: self.id.clone(), type_: self.type_.clone(), endpoint: self.endpoint.clone() }
    }
}

impl Clone for DIDDocument {
    fn clone(&self) -> (r: Self)
        ensures
            r@ == self@,
    {
        let mut public_keys: Vec<PublicKeyInfo> = Vec::new();
        let mut i: usize = 0;
        while i < self.public_keys.len()
            invariant
                i <= self.public_keys@.len(),
                public_keys@.len() == i,
                forall|j: int| 0 <= j < i ==> (#[trigger] public_keys@[j])@ == self.public_keys@[j]@,
            decreases self.public_keys@.len() - i,
        {
            public_keys.push(self.public_keys[i].clone());
            i = i + 1;
        }
        let mut authentication: Vec<String> = Vec::new();
        let mut i: usize = 0;
        while i < self.authentication.len()
            invariant
                i <= self.authentication@.len(),
                authentication@.len() == i,
                forall|j: int| 0 <= j < i ==> (#[trigger] authentication@[j])@ == self.authentication@[j]@,
            decreases self.authentication@.len() - i,
        {
            authentication.push(self.authentication[i].clone());
            i = i + 1;
        }
        let mut services: Vec<Service> = Vec::new();
        let mut i: usize = 0;
        while i < self.services.len()
            invariant
                i <= self.services@.len(),
                services@.len() == i,
                forall|j: int| 0 <= j < i ==> (#[trigger] services@[j])@ == self.services@[j]@,
            decreases self.services@.len() - i,
        {
            services.push(self.services[i].clone());
            i = i + 1;
        }
        assert(public_keys@.map_values(|k: PublicKeyInfo| k@) =~= self.public_keys@.map_values(|k: PublicKeyInfo| k@));
        assert(authentication@.map_values(|a: String| a@) =~= self.authentication@.map_values(|a: String| a@));
        assert(services@.map_values(|s: Service| s@) =~= self.services@.map_values(|s: Service| s@));
        DIDDocument {
            id: self.id.clone(),
            public_keys,
            authentication,
            services,
            created: self.created,
            updated: self.updated,
        }
    }
}

/// The Ed25519 verifying key, as 32 bytes, of a 32-byte secret seed.
pub uninterp spec fn ed25519_public_of(seed: Seq<u8>) -> Seq<u8>;

/// Relies on ed25519_dalek::SigningKey::from_bytes, its verifying_key and
/// VerifyingKey::to_bytes: the 32-byte verifying key of a 32-byte seed.
#[verifier::external_body]
fn ed25519_public_key(seed: &[u8]) -> (r: Vec<u8>)
    requires
        seed@.len() == 32,
    ensures
        r@ == ed25519_public_of(seed@),
        r@.len() == 32,
{
    let secret: [u8; 32] = seed.try_into().unwrap();
    ed25519_dalek::SigningKey::from_bytes(&secret).verifying_key().to_bytes().to_vec()
}

/// Length in bytes of the secret seed that signing-key material decodes to.
pub const SIGNING_KEY_LENGTH: usize = 32;

/// The seed that Base58 signing-key material stands for, when it is valid
/// Base58 of exactly 32 bytes.
pub open spec fn seed_of_key_text(key: Seq<char>) -> Option<Seq<u8>> {
    if is_base58(key) && base58_decoded(key).len() == 32 {
        Some(base58_decoded(key))
    } else {
        None
    }
}

/// Decode Base58 signing-key material into its 32-byte seed.
pub fn decode_signing_key(encoded: &str) -> (r: Result<Vec<u8>, Error>)
    ensures
        seed_of_key_text(encoded@) matches Some(seed) ==> r matches Ok(v) && v@ == seed,
        seed_of_key_text(encoded@) is None ==> r matches Err(Error::InvalidInput(_)),
        encoded@.len() < 32 ==> r matches Err(Error::InvalidInput(_)),
{
    match decode_base58(encoded) {
        Ok(bytes) => {
            if bytes.len() != SIGNING_KEY_LENGTH {
                Err(Error::InvalidInput("Signing key must be 32 bytes".to_owned()))
            } else {
                Ok(bytes)
            }
        },
        Err(_) => Err(Error::InvalidInput("Invalid Base58 signing key".to_owned())),
    }
}

/// The Base58 text of the verifying key of a seed.
pub open spec fn public_key_text(seed: Seq<u8>) -> Seq<char> {
    base58_of(ed25519_public_of(seed))
}

/// The verifying key of a 32-byte seed, as 32 bytes.
pub fn derive_public_key(seed: &[u8]) -> (r: Vec<u8>)
    requires
        seed@.len() == 32,
    ensures
        r@ == ed25519_public_of(seed@),
        r@.len() == 32,
{
    ed25519_public_key(seed)
}

/// The verifying key of a 32-byte seed, in Base58.
pub fn public_key_base58(seed: &[u8]) -> (r: String)
    requires
        seed@.len() == 32,
    ensures
        r@ == public_key_text(seed@),
{
    let public_key = derive_public_key(seed);
    encode_base58(public_key.as_slice())
}

/// The identifier bound to a Base58 public key.
pub open spec fn did_of(public_key_text: Seq<char>) -> Seq<char> {
    "did:example:"@ + public_key_text
}

/// The id of the first key of a document.
pub open spec fn first_key_id(did: Seq<char>) -> Seq<char> {
    did + "#keys-1"@
}

/// The document that creation builds for a Base58 public key at a time.
pub open spec fn initial_document(public_key_text: Seq<char>, now: u64) -> DocumentView {
    let did = did_of(public_key_text);
    DocumentView {
        id: did,
        public_keys: seq![
            KeyView {
                id: first_key_id(did),
                type_: "Ed25519VerificationKey2020"@,
                controller: did,
                public_key_base58: public_key_text,
            },
        ],
        authentication: seq![first_key_id(did)],
        services: Seq::empty(),
        created: now,
        updated: now,
    }
}

/// Whether one of the document's keys has this id.
pub open spec fn names_key(doc: DocumentView, key_id: Seq<char>) -> bool {
    exists|j: int| 0 <= j < doc.public_keys.len() && (#[trigger] doc.public_keys[j]).id == key_id
}

/// The structural invariant of a document: it lists at least one key, no two
/// keys share an id, each authentication entry names one of its keys, and each
/// key is controlled by the document's identifier.
pub open spec fn document_consistent(doc: DocumentView) -> bool {
    &&& doc.public_keys.len() > 0
    &&& forall|i: int, j: int|
        0 <= i < doc.public_keys.len() && 0 <= j < doc.public_keys.len() && i != j ==> (
        #[trigger] doc.public_keys[i]).id != (#[trigger] doc.public_keys[j]).id
    &&& forall|i: int|
        0 <= i < doc.authentication.len() ==> names_key(doc, #[trigger] doc.authentication[i])
    &&& forall|j: int|
        0 <= j < doc.public_keys.len() ==> (#[trigger] doc.public_keys[j]).controller == doc.id
}

/// Whether the document satisfies its structural invariant.
pub fn is_consistent(doc: &DIDDocument) -> (r: bool)
    ensures
        r == document_consistent(doc@),
{
    let ghost d = doc@;
    let n = doc.public_keys.len();
    if n == 0 {
        return false;
    }
    let mut i: usize = 0;
    while i < n
        invariant
            n == doc.public_keys@.len(),
            d == doc@,
            i <= n,
            forall|a: int| 0 <= a < i ==> (#[trigger] d.public_keys[a]).controller == d.id,
            forall|a: int, b: int|
                0 <= a < i && 0 <= b < n && a != b ==> (#[trigger] d.public_keys[a]).id != (
                #[trigger] d.public_keys[b]).id,
        decreases n - i,
    {
        assert(d.public_keys[i as int] == doc.public_keys@[i as int]@);
        if doc.public_keys[i].controller != doc.id {
            return false;
        }
        let mut j: usize = 0;
        while j < n
            invariant
                n == doc.public_keys@.len(),
                d == doc@,
                i < n,
                j <= n,
                forall|b: int|
                    0 <= b < j && b != i ==> d.public_keys[i as int].id != (
                    #[trigger] d.public_keys[b]).id,
            decreases n - j,
        {
            assert(d.public_keys[j as int] == doc.public_keys@[j as int]@);
            if j != i && doc.public_keys[i].id == doc.public_keys[j].id {
                assert(d.public_keys[i as int].id == d.public_keys[j as int].id);
                assert(d.public_keys[i as int] == doc.public_keys@[i as int]@);
                return false;
            }
            j = j + 1;
        }
        i = i + 1;
    }
    let m = doc.authentication.len();
    let mut k: usize = 0;
    while k < m
        invariant
            n == doc.public_keys@.len(),
            m == doc.authentication@.len(),
            d == doc@,
            k <= m,
            forall|a: int| 0 <= a < k ==> names_key(d, #[trigger] d.authentication[a]),
        decreases m - k,
    {
        assert(d.authentication[k as int] == doc.authentication@[k as int]@);
        let mut j: usize = 0;
        let mut found = false;
        while j < n
            invariant
                n == doc.public_keys@.len(),
                m == doc.authentication@.len(),
                d == doc@,
                k < m,
                j <= n,
                found ==> names_key(d, d.authentication[k as int]),
                !found ==> forall|b: int|
                    0 <= b < j ==> (#[trigger] d.public_keys[b]).id != d.authentication[k as int],
            decreases n - j,
        {
            assert(d.public_keys[j as int] == doc.public_keys@[j as int]@);
            if !found && doc.public_keys[j].id == doc.authentication[k] {
                found = true;
            }
            j = j + 1;
        }
        if !found {
            return false;
        }
        k = k + 1;
    }
    true
}

/// A created document is consistent, lists one key, and is created and
/// updated at the same time.
pub proof fn lemma_initial_document_consistent(public_key_text: Seq<char>, now: u64)
    ensures
        document_consistent(initial_document(public_key_text, now)),
        initial_document(public_key_text, now).public_keys.len() == 1,
        initial_document(public_key_text, now).created == initial_document(
            public_key_text,
            now,
        ).updated,
{
    let doc = initial_document(public_key_text, now);
    assert forall|i: int, j: int|
        0 <= i < doc.public_keys.len() && 0 <= j < doc.public_keys.len() && i != j implies (
        #[trigger] doc.public_keys[i]).id != (#[trigger] doc.public_keys[j]).id by {
        assert(i == 0 && j == 0);
    }
    assert forall|i: int| 0 <= i < doc.authentication.len() implies names_key(
        doc,
        #[trigger] doc.authentication[i],
    ) by {
        assert(i == 0);
        assert(doc.public_keys[0].id == doc.authentication[i]);
    }
    assert forall|j: int| 0 <= j < doc.public_keys.len() implies (
    #[trigger] doc.public_keys[j]).controller == doc.id by {
        assert(j == 0);
    }
}

/// The identifier bound to a Base58 public key.
pub fn did_for_key(public_key_base58: &str) -> (r: String)
    ensures
        r@ == did_of(public_key_base58@),
{
    "did:example:".to_owned().concat(public_key_base58)
}

/// A fresh document for a Base58 public key: one key, listed for
/// authentication, no services, created and updated at `timestamp`.
pub fn new_document(public_key_base58: &str, timestamp: u64) -> (r: DIDDocument)
    ensures
        r@ == initial_document(public_key_base58@, timestamp),
{
    let did = did_for_key(public_key_base58);
    let key_id = did.clone().concat("#keys-1");
    let info = PublicKeyInfo {
        id: key_id.clone(),
        type_: "Ed25519VerificationKey2020".to_owned(),
        controller: did.clone(),
        public_key_base58: public_key_base58.to_owned(),
    };
    let mut public_keys: Vec<PublicKeyInfo> = Vec::new();
    public_keys.push(info);
    let mut authentication: Vec<String> = Vec::new();
    authentication.push(key_id);
    let r = DIDDocument {
        id: did,
        public_keys,
        authentication,
        services: Vec::new(),
        created: timestamp,
        updated: timestamp,
    };
    assert(r@.public_keys =~= initial_document(public_key_base58@, timestamp).public_keys);
    assert(r@.authentication =~= initial_document(public_key_base58@, timestamp).authentication);
    assert(r@.services =~= Seq::<ServiceView>::empty());
    r
}

/// Whether a document lists a public key with this Base58 text.
pub open spec fn has_key(doc: DocumentView, public_key_text: Seq<char>) -> bool {
    exists|i: int|
        0 <= i < doc.public_keys.len() && (#[trigger] doc.public_keys[i]).public_key_base58
            == public_key_text
}

/// Whether the document lists a public key with this Base58 text.
pub fn holds_key(doc: &DIDDocument, public_key_base58: &str) -> (r: bool)
    ensures
        r == has_key(doc@, public_key_base58@),
{
    let wanted = public_key_base58.to_owned();
    let mut i: usize = 0;
    while i < doc.public_keys.len()
        invariant
            i <= doc.public_keys@.len(),
            wanted@ == public_key_base58@,
            forall|j: int|
                0 <= j < i ==> (#[trigger] doc.public_keys@[j]).public_key_base58@ != wanted@,
        decreases doc.public_keys@.len() - i,
    {
        if doc.public_keys[i].public_key_base58 == wanted {
            assert(doc@.public_keys[i as int].public_key_base58 == wanted@);
            return true;
        }
        i = i + 1;
    }
    assert forall|j: int| 0 <= j < doc@.public_keys.len() implies (
    #[trigger] doc@.public_keys[j]).public_key_base58 != public_key_base58@ by {
        assert(doc@.public_keys[j] == doc.public_keys@[j]@);
    }
    false
}

/// The later of two times.
pub open spec fn later(a: u64, b: u64) -> u64 {
    if a >= b {
        a
    } else {
        b
    }
}

/// What an update stores: the proposed content, under the stored id and
/// creation time, updated at `now` or at the stored update time if that is
/// later (so the update time never goes back).
pub open spec fn updated_document(stored: DocumentView, proposed: DocumentView, now: u64) -> DocumentView {
    DocumentView {
        id: stored.id,
        public_keys: proposed.public_keys,
        authentication: proposed.authentication,
        services: proposed.services,
        created: stored.created,
        updated: later(now, stored.updated),
    }
}

/// Apply an update's rules to a proposed document.
pub fn prepare_update(stored: &DIDDocument, proposed: DIDDocument, now: u64) -> (r: DIDDocument)
    ensures
        r@ == updated_document(stored@, proposed@, now),
{
    let mut doc = proposed;
    doc.id = stored.id.clone();
    doc.created = stored.created;
    doc.updated = if now >= stored.updated {
        now
    } else {
        stored.updated
    };
    doc
}

} // verus!

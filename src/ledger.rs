//! What the engine decides about the ledger: where requests go, what a
//! registration carries, and how a status answer is read.

use vstd::prelude::*;
use crate::types::Error;
use vstd::string::StringSliceAdditionalSpecFns;

verus! {

/// Where the ledger is reached and how an unreadable status answer is taken.
pub struct BlockchainConfig {
    /// Base URL of the ledger node's HTTP interface.
    pub node_url: String,
    /// Whether a status answer that cannot be parsed counts as active
    /// (availability over strictness) rather than as an error.
    pub fail_open_on_parse_error: bool,
}

impl Clone for BlockchainConfig {
    fn clone(&self) -> (r: Self)
        ensures
            r.node_url@ == self.node_url@,
            r.fail_open_on_parse_error == self.fail_open_on_parse_error,
    {
        BlockchainConfig {
            node_url: self.node_url.clone(),
            fail_open_on_parse_error: self.fail_open_on_parse_error,
        }
    }
}

impl BlockchainConfig {
    /// A configuration for a node URL, failing open on unreadable status answers.
    pub fn new(node_url: &str) -> (r: Self)
        ensures
            r.node_url@ == node_url@,
            r.fail_open_on_parse_error,
    {
        BlockchainConfig { node_url: node_url.to_owned(), fail_open_on_parse_error: true }
    }

    /// The URL of a transaction endpoint (`/did/register`, `/did/store`, `/did/deactivate`).
    pub fn endpoint_url(&self, endpoint: &str) -> (r: String)
        ensures
            r@ == self.node_url@ + endpoint@,
    {
        self.node_url.clone().concat(endpoint)
    }

    /// The URL at which the ledger serves an identifier's document.
    pub fn document_url(&self, did: &str) -> (r: String)
        ensures
            r@ == self.node_url@ + "/did/"@ + did@,
    {
        self.node_url.clone().concat("/did/").concat(did)
    }

    /// The URL at which the ledger answers an identifier's activity status.
    pub fn status_url(&self, did: &str) -> (r: String)
        ensures
            r@ == self.node_url@ + "/did/"@ + did@ + "/status"@,
    {
        self.node_url.clone().concat("/did/").concat(did).concat("/status")
    }

    /// Read the ledger's status answer: a failed request is a
    /// `BlockchainError`; a parsed answer gives its `active` value; an answer
    /// that could not be parsed counts as active when the configuration fails
    /// open, and is a `BlockchainError` otherwise.
    pub fn read_status(&self, request_succeeded: bool, parsed_active: Option<bool>) -> (r: Result<
        bool,
        Error,
    >)
        ensures
            !request_succeeded ==> r matches Err(Error::BlockchainError(_)),
            request_succeeded && parsed_active is Some ==> r == Ok::<bool, Error>(
                parsed_active->Some_0,
            ),
            request_succeeded && parsed_active is None && self.fail_open_on_parse_error ==> r
                == Ok::<bool, Error>(true),
            request_succeeded && parsed_active is None && !self.fail_open_on_parse_error ==> r
                matches Err(Error::BlockchainError(_)),
    {
        if !request_succeeded {
            return Err(Error::BlockchainError("Failed to get DID status".to_owned()));
        }
        match parsed_active {
            Some(active) => Ok(active),
            None => {
                if self.fail_open_on_parse_error {
                    Ok(true)
                } else {
                    Err(Error::BlockchainError("Failed to parse DID status".to_owned()))
                }
            },
        }
    }
}

/// The body of a registration: the identifier's UTF-8 bytes, then the public key.
pub fn register_payload(did: &str, public_key: &[u8]) -> (r: Vec<u8>)
    ensures
        r@ == did.spec_bytes() + public_key@,
{
    let head = did.as_bytes();
    let mut out: Vec<u8> = Vec::new();
    let mut i: usize = 0;
    while i < head.len()
        invariant
            i <= head@.len(),
            out@ == head@.subrange(0, i as int),
        decreases head@.len() - i,
    {
        out.push(head[i]);
        i = i + 1;
    }
    let mut j: usize = 0;
    while j < public_key.len()
        invariant
            j <= public_key@.len(),
            out@ == head@ + public_key@.subrange(0, j as int),
        decreases public_key@.len() - j,
    {
        out.push(public_key[j]);
        j = j + 1;
    }
    assert(public_key@.subrange(0, public_key@.len() as int) =~= public_key@);
    out
}

} // verus!

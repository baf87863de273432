//! Signed hashes: the checks made when a signed, possibly encrypted, hash is verified.
use crate::errors::{Error, Id, IsError, Level};
use crate::events::ModuleSource;
use crate::message::errors::{message_error_id, message_error_text, MessageError};
use vstd::prelude::*;

verus! {

/// The length of a hash digest (SHA-512).
pub const DIGEST_LEN: usize = 64;

/// A digitally signed hash.
#[derive(Debug, PartialEq, Eq, Hash)]
pub struct SignedHash(pub Vec<u8>);

/// An encrypted digitally signed hash, with the nonce it was encrypted with.
#[derive(Debug, PartialEq, Eq)]
pub struct EncryptedSignedHash(pub Vec<u8>, pub [u8; 24]);

fn here(line: u32) -> (m: ModuleSource)
    ensures
        m.path() == "oysterpack::message::signing"@,
        m.line_number() == line,
{
    ModuleSource::new("oysterpack::message::signing", line)
}

fn same_bytes(a: &[u8], b: &[u8]) -> (r: bool)
    ensures
        r == (a@ == b@),
{
    if a.len() != b.len() {
        return false;
    }
    let mut i: usize = 0;
    while i < a.len()
        invariant
            a@.len() == b@.len(),
            i <= a@.len(),
            forall|j: int| 0 <= j < i ==> a@[j] == b@[j],
        decreases a@.len() - i,
    {
        if a[i] != b[i] {
            return false;
        }
        i = i + 1;
    }
    assert(a@ =~= b@);
    true
}

/// What a message error of the given kind becomes as an error.
pub open spec fn is_message_error(e: Error, m: MessageError) -> bool {
    e.spec_id() == Id(message_error_id(m)) && e.spec_message() == message_error_text(m)
}

impl SignedHash {
    /// The signed bytes.
    pub fn bytes(&self) -> (r: &[u8])
        ensures
            r@ == self.0@,
    {
        self.0.as_slice()
    }

    /// Verifies the hash's signature against the signer's public key, and then the message
    /// integrity by its hash, given what checking the signature gave (the signed digest, or
    /// nothing for a bad signature) and the message's digest: a bad signature, a digest that
    /// is not 64 bytes long, or a digest that is not the message's, is an error.
    pub fn verify(&self, key: &[u8; 32], signed_digest: Option<Vec<u8>>, msg_digest: &[u8]) -> (r: Result<(), Error>)
        ensures
            r is Ok <==> (signed_digest matches Some(d) && d@.len() == DIGEST_LEN && d@ == msg_digest@),
            signed_digest is None ==> (r matches Err(e) && is_message_error(e, MessageError::InvalidSignature(*key))),
            signed_digest matches Some(d) ==> d@.len() != DIGEST_LEN ==> (r matches Err(e) && is_message_error(
                e,
                MessageError::InvalidDigestLength { from: *key, len: d@.len() as usize },
            )),
            signed_digest matches Some(d) ==> d@.len() == DIGEST_LEN && d@ != msg_digest@ ==> (r matches Err(e)
                && is_message_error(e, MessageError::ChecksumFailed(*key))),
    {
        match signed_digest {
            None => Err(MessageError::InvalidSignature(*key).to_error(here(82))),
            Some(digest) => {
                if digest.len() != DIGEST_LEN {
                    Err(MessageError::InvalidDigestLength { from: *key, len: digest.len() }.to_error(here(85)))
                } else if same_bytes(digest.as_slice(), msg_digest) {
                    Ok(())
                } else {
                    Err(MessageError::ChecksumFailed(*key).to_error(here(89)))
                }
            },
        }
    }
}

impl From<Vec<u8>> for SignedHash {
    fn from(bytes: Vec<u8>) -> (r: SignedHash) {
        SignedHash(bytes)
    }
}

impl vstd::std_specs::convert::FromSpecImpl<Vec<u8>> for SignedHash {
    open spec fn obeys_from_spec() -> bool {
        true
    }

    open spec fn from_spec(bytes: Vec<u8>) -> SignedHash {
        SignedHash(bytes)
    }
}

impl EncryptedSignedHash {
    /// return the nonce used to encrypt this signed hash
    pub fn nonce(&self) -> (r: &[u8; 24])
        ensures
            r@ == self.1@,
    {
        &self.1
    }

    /// Decrypts the signed hash and verifies the signature, given what decrypting gave
    /// (nothing when it failed) and, for the decrypted bytes, what checking the signature gave
    /// (the signed digest, or nothing for a bad signature): the digest, when it is 64 bytes
    /// long; otherwise the matching error.
    pub fn verify(&self, public_key: &[u8; 32], opened: Option<Option<Vec<u8>>>) -> (r: Result<Vec<u8>, Error>)
        ensures
            r is Ok <==> (opened matches Some(Some(d)) && d@.len() == DIGEST_LEN),
            r matches Ok(d) ==> opened == Some(Some(d)),
            opened is None ==> (r matches Err(e) && is_message_error(e, MessageError::DecryptionFailed(*public_key))),
            opened matches Some(None) ==> (r matches Err(e) && is_message_error(e, MessageError::InvalidSignature(*public_key))),
            opened matches Some(Some(d)) ==> d@.len() != DIGEST_LEN ==> (r matches Err(e) && is_message_error(
                e,
                MessageError::InvalidDigestLength { from: *public_key, len: d@.len() as usize },
            )),
    {
        match opened {
            None => Err(MessageError::DecryptionFailed(*public_key).to_error(here(137))),
            Some(None) => Err(MessageError::InvalidSignature(*public_key).to_error(here(138))),
            Some(Some(digest)) => {
                if digest.len() == DIGEST_LEN {
                    Ok(digest)
                } else {
                    let len = digest.len();
                    Err(MessageError::InvalidDigestLength { from: *public_key, len }.to_error(here(144)))
                }
            },
        }
    }
}

} // verus!

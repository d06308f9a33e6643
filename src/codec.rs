//! The secret message codec: an encrypted payload together with what its
//! recipient needs to derive the key, `nonce ‖ user_public_key ‖ msg`.
use vstd::prelude::*;
use crate::crypto::{siv_decrypt, siv_encrypt, siv_seal_of, AesKey};
use crate::output::EnclaveError;

verus! {

/// Length of the nonce and of the public key.
pub const FIELD_LEN: usize = 32;

/// A payload with the nonce and sender public key that its key derives from.
pub struct SecretMessage {
    pub nonce: [u8; 32],
    pub user_public_key: [u8; 32],
    pub msg: Vec<u8>,
}

/// The transport bytes of a secret message.
pub open spec fn secret_message_bytes(nonce: Seq<u8>, user_public_key: Seq<u8>, msg: Seq<u8>) -> Seq<u8> {
    nonce + user_public_key + msg
}

impl SecretMessage {
    /// The transport bytes: nonce, public key, then the payload.
    pub fn to_vec(&self) -> (r: Vec<u8>)
        ensures
            r@ == secret_message_bytes(self.nonce@, self.user_public_key@, self.msg@),
    {
        let mut out: Vec<u8> = Vec::new();
        crate::framing::append_bytes(&mut out, self.nonce.as_slice());
        crate::framing::append_bytes(&mut out, self.user_public_key.as_slice());
        crate::framing::append_bytes(&mut out, self.msg.as_slice());
        out
    }

    /// Reads transport bytes: fails when they are too short to hold the
    /// nonce and the public key.
    pub fn from_slice(bytes: &[u8]) -> (r: Result<SecretMessage, EnclaveError>)
        ensures
            r is Ok <==> bytes@.len() >= 2 * FIELD_LEN,
            r is Err ==> r == Err::<SecretMessage, EnclaveError>(EnclaveError::FailedToDeserialize),
            r is Ok ==> secret_message_bytes(r->Ok_0.nonce@, r->Ok_0.user_public_key@, r->Ok_0.msg@)
                == bytes@,
    {
        if bytes.len() < 2 * FIELD_LEN {
            return Err(EnclaveError::FailedToDeserialize);
        }
        let mut nonce = [0u8; 32];
        let mut key = [0u8; 32];
        let mut i: usize = 0;
        while i < FIELD_LEN
            invariant
                i <= FIELD_LEN,
                bytes@.len() >= 2 * FIELD_LEN,
                nonce@.len() == FIELD_LEN,
                key@.len() == FIELD_LEN,
                forall|j: int| 0 <= j < i ==> nonce@[j] == bytes@[j],
                forall|j: int| 0 <= j < i ==> key@[j] == bytes@[FIELD_LEN + j],
            decreases FIELD_LEN - i,
        {
            nonce[i] = bytes[i];
            key[i] = bytes[FIELD_LEN + i];
            i = i + 1;
        }
        let mut msg: Vec<u8> = Vec::new();
        let mut k: usize = 2 * FIELD_LEN;
        while k < bytes.len()
            invariant
                2 * FIELD_LEN <= k <= bytes@.len(),
                msg@ == bytes@.subrange(2 * FIELD_LEN, k as int),
            decreases bytes@.len() - k,
        {
            msg.push(bytes[k]);
            k = k + 1;
            assert(msg@ =~= bytes@.subrange(2 * FIELD_LEN, k as int));
        }
        assert(secret_message_bytes(nonce@, key@, msg@) =~= bytes@);
        Ok(SecretMessage { nonce, user_public_key: key, msg })
    }

    /// Encrypts the payload under `key`; nonce and public key are kept.
    pub fn encrypt_in_place(&mut self, key: &AesKey) -> (r: Result<(), EnclaveError>)
        ensures
            r is Ok,
            final(self).msg@ == siv_seal_of(key@, old(self).msg@),
            final(self).nonce == old(self).nonce,
            final(self).user_public_key == old(self).user_public_key,
    {
        match siv_encrypt(key, self.msg.as_slice()) {
            Some(c) => {
                self.msg = c;
                Ok(())
            },
            None => Err(EnclaveError::EncryptionError),
        }
    }

    /// Decrypts the payload under `key`. Succeeds exactly on a payload that
    /// is the encryption of some plaintext under that key, and returns that
    /// plaintext.
    pub fn decrypt(&self, key: &AesKey) -> (r: Result<Vec<u8>, EnclaveError>)
        ensures
            r is Ok ==> siv_seal_of(key@, r->Ok_0@) == self.msg@,
            forall|p: Seq<u8>|
                #[trigger] siv_seal_of(key@, p) == self.msg@ ==> (r is Ok && r->Ok_0@ == p),
            r is Err ==> r == Err::<Vec<u8>, EnclaveError>(EnclaveError::EncryptionError),
    {
        match siv_decrypt(key, self.msg.as_slice()) {
            Some(p) => Ok(p),
            None => Err(EnclaveError::EncryptionError),
        }
    }
}

} // verus!

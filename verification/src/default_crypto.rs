//! A crypto factory backed by the `aes` crate's AES-128 implementation.
use crate::keys::{aes128_encrypt, CryptoFactory, Encrypter, AES128};
use aes::cipher::{BlockEncrypt, KeyInit};
use vstd::prelude::*;

verus! {

/// The default crypto provider: software AES-128 from the `aes` crate.
#[derive(Debug, Clone, Copy)]
pub struct DefaultFactory;

/// An AES-128 block encrypter bound to one key.
pub struct DefaultEncrypter {
    key: [u8; 16],
}

/// Relies on `aes::Aes128` with `cipher::BlockEncrypt::encrypt_block`: one
/// AES-128 ECB encryption of a single 16-byte block, a pure function of the
/// key bytes and the block bytes.
#[verifier::external_body]
fn aes128_encrypt_block(key: &[u8; 16], block: &mut [u8; 16])
    ensures
        final(block)@ == aes128_encrypt(key@, old(block)@),
{
    let cipher = aes::Aes128::new(key.into());
    let mut b = aes::Block::clone_from_slice(block);
    cipher.encrypt_block(&mut b);
    block.copy_from_slice(b.as_slice());
}

impl Encrypter for DefaultEncrypter {
    closed spec fn key_spec(&self) -> Seq<u8> {
        self.key@
    }

    fn encrypt_block(&self, block: &mut [u8; 16]) {
        aes128_encrypt_block(&self.key, block);
    }
}

impl CryptoFactory for DefaultFactory {
    type E = DefaultEncrypter;

    fn new_enc(&self, key: &AES128) -> (enc: DefaultEncrypter) {
        DefaultEncrypter { key: key.0 }
    }
}

} // verus!

//! LoRaWAN key types, the abstract crypto capability, and the multicast key
//! derivation chain.
//!
//! Every derivation is one AES-128 encryption of a fixed-prefix, zero-padded
//! 16-byte plaintext under the parent key, so only the forward chain
//! `McRootKey -> McKEKey -> (per group) McKey -> {McAppSKey, McNetSKey}`
//! is possible.
use crate::parser::MulticastAddr;
use vstd::prelude::*;

verus! {

/// What one AES-128 block encryption returns for a given 128-bit key and
/// 16-byte block. The cipher itself is out of scope; the result is a pure
/// function of the key and block bytes, and both are 16 bytes long.
pub uninterp spec fn aes128_encrypt(key: Seq<u8>, block: Seq<u8>) -> Seq<u8>;

/// The all-zero 16-byte plaintext block used to derive `McKEKey`.
pub open spec fn zero_block() -> Seq<u8> {
    Seq::new(16, |i: int| 0u8)
}

/// The 16-byte plaintext block used to derive a session key: a one-byte
/// domain-separation tag, the 4-byte multicast address, and eleven zero bytes.
pub open spec fn derivation_block(tag: u8, addr: Seq<u8>) -> Seq<u8> {
    seq![tag, addr[0], addr[1], addr[2], addr[3], 0u8, 0u8, 0u8, 0u8, 0u8, 0u8, 0u8, 0u8, 0u8, 0u8, 0u8]
}

/// `McKEKey = aes128_encrypt(McRootKey, 0x00 | pad16)`.
pub open spec fn spec_derive_mc_ke_key(root_key: Seq<u8>) -> Seq<u8> {
    aes128_encrypt(root_key, zero_block())
}

/// `McAppSKey = aes128_encrypt(McKey, 0x01 | McAddr | pad16)`.
pub open spec fn spec_derive_mc_app_s_key(mc_key: Seq<u8>, addr: Seq<u8>) -> Seq<u8> {
    aes128_encrypt(mc_key, derivation_block(0x01, addr))
}

/// `McNetSKey = aes128_encrypt(McKey, 0x02 | McAddr | pad16)`.
pub open spec fn spec_derive_mc_net_s_key(mc_key: Seq<u8>, addr: Seq<u8>) -> Seq<u8> {
    aes128_encrypt(mc_key, derivation_block(0x02, addr))
}

/// Key derivation is deterministic: each derived key is a function of the
/// parent key bytes and the multicast address bytes alone, so repeated
/// derivations from identical inputs yield byte-identical keys, through the
/// whole chain `McRootKey -> McKEKey -> (per group) {McAppSKey, McNetSKey}`.
pub proof fn lemma_derivation_deterministic(k1: Seq<u8>, k2: Seq<u8>, a1: Seq<u8>, a2: Seq<u8>)
    requires
        k1 == k2,
        a1 == a2,
    ensures
        spec_derive_mc_ke_key(k1) == spec_derive_mc_ke_key(k2),
        spec_derive_mc_app_s_key(k1, a1) == spec_derive_mc_app_s_key(k2, a2),
        spec_derive_mc_net_s_key(k1, a1) == spec_derive_mc_net_s_key(k2, a2),
        spec_derive_mc_app_s_key(spec_derive_mc_ke_key(k1), a1)
            == spec_derive_mc_app_s_key(spec_derive_mc_ke_key(k2), a2),
        spec_derive_mc_net_s_key(spec_derive_mc_ke_key(k1), a1)
            == spec_derive_mc_net_s_key(spec_derive_mc_ke_key(k2), a2),
{
}

/// A 128-bit AES key value.
#[derive(Debug, Default, Clone, Copy, PartialEq, Eq)]
pub struct AES128(pub [u8; 16]);

impl View for AES128 {
    type V = Seq<u8>;

    open spec fn view(&self) -> Seq<u8> {
        self.0@
    }
}

impl From<[u8; 16]> for AES128 {
    fn from(v: [u8; 16]) -> (r: AES128) {
        AES128(v)
    }
}

impl vstd::std_specs::convert::FromSpecImpl<[u8; 16]> for AES128 {
    open spec fn obeys_from_spec() -> bool {
        true
    }

    open spec fn from_spec(v: [u8; 16]) -> AES128 {
        AES128(v)
    }
}

/// A LoRaWAN message integrity code (consumed by the surrounding MAC layer).
#[derive(Debug, Default, Clone, Copy, PartialEq, Eq)]
pub struct MIC(pub [u8; 4]);

impl View for MIC {
    type V = Seq<u8>;

    open spec fn view(&self) -> Seq<u8> {
        self.0@
    }
}

impl From<[u8; 4]> for MIC {
    fn from(v: [u8; 4]) -> (r: MIC) {
        MIC(v)
    }
}

impl vstd::std_specs::convert::FromSpecImpl<[u8; 4]> for MIC {
    open spec fn obeys_from_spec() -> bool {
        true
    }

    open spec fn from_spec(v: [u8; 4]) -> MIC {
        MIC(v)
    }
}

/// AES-128 block encryption bound to one key.
pub trait Encrypter {
    /// The key this encrypter was constructed with.
    spec fn key_spec(&self) -> Seq<u8>;

    /// Encrypts one 16-byte block in place.
    fn encrypt_block(&self, block: &mut [u8; 16])
        ensures
            final(block)@ == aes128_encrypt(self.key_spec(), old(block)@),
    ;
}

/// AES-128 block decryption bound to one key. The derivation chain never
/// decrypts; this capability exists for the surrounding MAC layer.
pub trait Decrypter {
    /// Decrypts one 16-byte block in place.
    fn decrypt_block(&self, block: &mut [u8; 16]);
}

/// CMAC computation. Consumed by the surrounding MAC layer for MIC checks,
/// which are out of scope here.
pub trait Mac {
    /// Feeds `data` into the MAC computation.
    fn input(&mut self, data: &[u8]);

    /// Resets the computation to its initial state.
    fn reset(&mut self);

    /// Finishes the computation and returns the MAC.
    fn result(self) -> [u8; 16];
}

/// An abstraction over crypto implementations: constructs a block encryptor
/// bound to a given 128-bit key. A fresh encrypter is constructed per
/// derivation, so no key material outlives one derivation call.
pub trait CryptoFactory {
    type E: Encrypter;

    /// Creates an encrypter bound to `key`.
    fn new_enc(&self, key: &AES128) -> (enc: Self::E)
        ensures
            enc.key_spec() == key@,
    ;
}

/// Per-group multicast root key, recovered from the group-setup request by
/// the device's `McKEKey`.
#[derive(Debug, Clone, Copy, PartialEq, Eq)]
pub struct McKey(pub AES128);

impl View for McKey {
    type V = Seq<u8>;

    open spec fn view(&self) -> Seq<u8> {
        self.0@
    }
}

impl From<[u8; 16]> for McKey {
    fn from(key: [u8; 16]) -> (r: McKey) {
        McKey(AES128(key))
    }
}

impl vstd::std_specs::convert::FromSpecImpl<[u8; 16]> for McKey {
    open spec fn obeys_from_spec() -> bool {
        true
    }

    open spec fn from_spec(key: [u8; 16]) -> McKey {
        McKey(AES128(key))
    }
}

impl McKey {
    /// The key width in bytes.
    pub fn byte_len() -> (r: usize)
        ensures
            r == 16,
    {
        16
    }

    /// The underlying AES-128 key value.
    pub fn inner(&self) -> (r: &AES128)
        ensures
            r == self.0,
    {
        &self.0
    }

    /// `McAppSKey = aes128_encrypt(McKey, 0x01 | McAddr | pad16)`
    pub fn derive_mc_app_s_key<F: CryptoFactory>(
        &self,
        crypto: &F,
        mc_addr: &MulticastAddr,
    ) -> (r: McAppSKey)
        ensures
            r@ == spec_derive_mc_app_s_key(self@, mc_addr@),
    {
        let aes_enc = crypto.new_enc(&self.0);
        let mut bytes: [u8; 16] = [
            0x01, mc_addr.0[0], mc_addr.0[1], mc_addr.0[2], mc_addr.0[3],
            0, 0, 0, 0, 0, 0, 0, 0, 0, 0, 0,
        ];
        proof {
            assert(bytes@ =~= derivation_block(0x01, mc_addr@));
        }
        aes_enc.encrypt_block(&mut bytes);
        McAppSKey(AES128(bytes))
    }

    /// `McNetSKey = aes128_encrypt(McKey, 0x02 | McAddr | pad16)`
    pub fn derive_mc_net_s_key<F: CryptoFactory>(
        &self,
        crypto: &F,
        mc_addr: &MulticastAddr,
    ) -> (r: McNetSKey)
        ensures
            r@ == spec_derive_mc_net_s_key(self@, mc_addr@),
    {
        let aes_enc = crypto.new_enc(&self.0);
        let mut bytes: [u8; 16] = [
            0x02, mc_addr.0[0], mc_addr.0[1], mc_addr.0[2], mc_addr.0[3],
            0, 0, 0, 0, 0, 0, 0, 0, 0, 0, 0,
        ];
        proof {
            assert(bytes@ =~= derivation_block(0x02, mc_addr@));
        }
        aes_enc.encrypt_block(&mut bytes);
        McNetSKey(AES128(bytes))
    }
}

/// Per-group multicast network session key: protects downlink MICs and frame
/// counters.
#[derive(Debug, Clone, Copy, PartialEq, Eq)]
pub struct McNetSKey(pub AES128);

impl View for McNetSKey {
    type V = Seq<u8>;

    open spec fn view(&self) -> Seq<u8> {
        self.0@
    }
}

impl From<[u8; 16]> for McNetSKey {
    fn from(key: [u8; 16]) -> (r: McNetSKey) {
        McNetSKey(AES128(key))
    }
}

impl vstd::std_specs::convert::FromSpecImpl<[u8; 16]> for McNetSKey {
    open spec fn obeys_from_spec() -> bool {
        true
    }

    open spec fn from_spec(key: [u8; 16]) -> McNetSKey {
        McNetSKey(AES128(key))
    }
}

/// Per-group multicast application session key: protects application
/// payloads.
#[derive(Debug, Clone, Copy, PartialEq, Eq)]
pub struct McAppSKey(pub AES128);

impl View for McAppSKey {
    type V = Seq<u8>;

    open spec fn view(&self) -> Seq<u8> {
        self.0@
    }
}

impl From<[u8; 16]> for McAppSKey {
    fn from(key: [u8; 16]) -> (r: McAppSKey) {
        McAppSKey(AES128(key))
    }
}

impl vstd::std_specs::convert::FromSpecImpl<[u8; 16]> for McAppSKey {
    open spec fn obeys_from_spec() -> bool {
        true
    }

    open spec fn from_spec(key: [u8; 16]) -> McAppSKey {
        McAppSKey(AES128(key))
    }
}

/// Per-device multicast root secret, provisioned out of band.
#[derive(Debug, Clone, Copy, PartialEq, Eq)]
pub struct McRootKey(pub AES128);

impl View for McRootKey {
    type V = Seq<u8>;

    open spec fn view(&self) -> Seq<u8> {
        self.0@
    }
}

impl From<[u8; 16]> for McRootKey {
    fn from(key: [u8; 16]) -> (r: McRootKey) {
        McRootKey(AES128(key))
    }
}

impl vstd::std_specs::convert::FromSpecImpl<[u8; 16]> for McRootKey {
    open spec fn obeys_from_spec() -> bool {
        true
    }

    open spec fn from_spec(key: [u8; 16]) -> McRootKey {
        McRootKey(AES128(key))
    }
}

/// Multicast key-encryption key, derived once per device from `McRootKey`;
/// used only to unwrap the per-group key sent by the network.
#[derive(Debug, Clone, Copy, PartialEq, Eq)]
pub struct McKEKey(pub AES128);

impl View for McKEKey {
    type V = Seq<u8>;

    open spec fn view(&self) -> Seq<u8> {
        self.0@
    }
}

impl From<[u8; 16]> for McKEKey {
    fn from(key: [u8; 16]) -> (r: McKEKey) {
        McKEKey(AES128(key))
    }
}

impl vstd::std_specs::convert::FromSpecImpl<[u8; 16]> for McKEKey {
    open spec fn obeys_from_spec() -> bool {
        true
    }

    open spec fn from_spec(key: [u8; 16]) -> McKEKey {
        McKEKey(AES128(key))
    }
}

impl McKEKey {
    /// `McKEKey = aes128_encrypt(McRootKey, 0x00 | pad16)`
    pub fn derive_from<F: CryptoFactory>(crypto: &F, root_key: &McRootKey) -> (r: McKEKey)
        ensures
            r@ == spec_derive_mc_ke_key(root_key@),
    {
        let aes_enc = crypto.new_enc(&root_key.0);
        let mut bytes: [u8; 16] = [0, 0, 0, 0, 0, 0, 0, 0, 0, 0, 0, 0, 0, 0, 0, 0];
        proof {
            assert(bytes@ =~= zero_block());
        }
        aes_enc.encrypt_block(&mut bytes);
        McKEKey(AES128(bytes))
    }
}

} // verus!

//! Decoding of the network server's group-setup request, and the multicast
//! session it yields.
//!
//! Wire layout of the request (multi-byte numeric fields little-endian):
//!
//! ```text
//! | McGroupIDHeader |  McAddr |   McKey_encrypted | minMcFCount | maxMcFCount |
//! |       1         |    4    |         16        |      4      |      4      |
//! ```
use crate::keys::{
    aes128_encrypt, spec_derive_mc_app_s_key, spec_derive_mc_net_s_key, CryptoFactory, Encrypter,
    McAppSKey, McKEKey, McKey, McNetSKey,
};
use crate::parser::MulticastAddr;
use vstd::bytes::{spec_u32_from_le_bytes, u32_from_le_bytes};
use vstd::prelude::*;
use vstd::slice::slice_subrange;

verus! {

/// One active multicast group membership: the group address, the two session
/// keys, the next accepted downlink frame counter, and its exclusive upper
/// bound (the group lifetime).
#[derive(Debug)]
pub struct Session {
    pub multicast_addr: MulticastAddr,
    pub mc_net_s_key: McNetSKey,
    pub mc_app_s_key: McAppSKey,
    pub fcnt_down: u32,
    pub max_fcnt_down: u32,
}

impl Session {
    /// Builds a session from its parts.
    pub fn new(
        multicast_addr: MulticastAddr,
        mc_net_s_key: McNetSKey,
        mc_app_s_key: McAppSKey,
        fcnt_down: u32,
        max_fcnt_down: u32,
    ) -> (r: Session)
        ensures
            r.multicast_addr == multicast_addr,
            r.mc_net_s_key == mc_net_s_key,
            r.mc_app_s_key == mc_app_s_key,
            r.fcnt_down == fcnt_down,
            r.max_fcnt_down == max_fcnt_down,
    {
        Session { multicast_addr, mc_net_s_key, mc_app_s_key, fcnt_down, max_fcnt_down }
    }

    /// The group address this session belongs to.
    pub fn multicast_addr(&self) -> (r: MulticastAddr)
        ensures
            r == self.multicast_addr,
    {
        self.multicast_addr
    }

    /// The network session key of this group.
    pub fn mc_net_s_key(&self) -> (r: McNetSKey)
        ensures
            r == self.mc_net_s_key,
    {
        self.mc_net_s_key
    }

    /// The application session key of this group.
    pub fn mc_app_s_key(&self) -> (r: McAppSKey)
        ensures
            r == self.mc_app_s_key,
    {
        self.mc_app_s_key
    }

    /// The next expected downlink frame counter.
    pub fn fcnt_down(&self) -> (r: u32)
        ensures
            r == self.fcnt_down,
    {
        self.fcnt_down
    }
}

/// A borrowed group-setup request buffer. The decoder never mutates it and
/// never keeps it past a call. Callers must hand in at least 29 bytes; any
/// trailing bytes are ignored.
pub struct McGroupSetupReqPayload<'a>(pub &'a [u8]);

/// The multicast address field: bytes 1 to 5 of the request.
pub open spec fn spec_mc_addr(buf: Seq<u8>) -> Seq<u8> {
    buf.subrange(1, 5)
}

/// The encrypted per-group key field: bytes 5 to 21 of the request.
pub open spec fn spec_mc_key_encrypted(buf: Seq<u8>) -> Seq<u8> {
    buf.subrange(5, 21)
}

/// The per-group key recovered from the request: the encrypted field pushed
/// through one AES-128 block operation under the key-encryption key.
pub open spec fn spec_mc_key(buf: Seq<u8>, kek: Seq<u8>) -> Seq<u8> {
    aes128_encrypt(kek, spec_mc_key_encrypted(buf))
}

/// The initial downlink frame counter: bytes 21 to 25, little-endian.
pub open spec fn spec_min_mc_fcount(buf: Seq<u8>) -> u32 {
    spec_u32_from_le_bytes(buf.subrange(21, 25))
}

/// The downlink frame counter ceiling: bytes 25 to 29, little-endian.
pub open spec fn spec_max_mc_fcount(buf: Seq<u8>) -> u32 {
    spec_u32_from_le_bytes(buf.subrange(25, 29))
}

impl McGroupSetupReqPayload<'_> {
    /// A request buffer is usable once it holds all five fixed fields.
    pub open spec fn wf(&self) -> bool {
        self.0@.len() >= 29
    }

    /// The group slot identifier the network server intends (byte 0).
    pub fn mc_group_id_header(&self) -> (r: u8)
        requires
            self.wf(),
        ensures
            r == self.0@[0],
    {
        self.0[0]
    }

    /// The multicast group address (bytes 1 to 5).
    pub fn mc_addr(&self) -> (r: MulticastAddr)
        requires
            self.wf(),
        ensures
            r@ == spec_mc_addr(self.0@),
    {
        let r = MulticastAddr([self.0[1], self.0[2], self.0[3], self.0[4]]);
        proof {
            assert(r@ =~= spec_mc_addr(self.0@));
        }
        r
    }

    /// The group key as sent by the network, still encrypted under the
    /// device's key-encryption key (bytes 5 to 21).
    pub fn mc_key_encrypted(&self) -> (r: &[u8])
        requires
            self.wf(),
        ensures
            r@ == spec_mc_key_encrypted(self.0@),
    {
        slice_subrange(self.0, 5, 21)
    }

    /// Recovers the per-group `McKey` from the encrypted field using the
    /// device's key-encryption key.
    pub fn mc_key_decrypted<F: CryptoFactory>(&self, crypto: &F, key: &McKEKey) -> (r: McKey)
        requires
            self.wf(),
        ensures
            r@ == spec_mc_key(self.0@, key@),
    {
        let aes_enc = crypto.new_enc(&key.0);
        let mut bytes: [u8; 16] = [
            self.0[5], self.0[6], self.0[7], self.0[8], self.0[9], self.0[10], self.0[11],
            self.0[12], self.0[13], self.0[14], self.0[15], self.0[16], self.0[17], self.0[18],
            self.0[19], self.0[20],
        ];
        proof {
            assert(bytes@ =~= spec_mc_key_encrypted(self.0@));
        }
        aes_enc.encrypt_block(&mut bytes);
        McKey::from(bytes)
    }

    /// Recovers `McKey` and derives both session keys for the decoded group
    /// address.
    pub fn derive_session_keys<F: CryptoFactory>(
        &self,
        crypto: &F,
        key: &McKEKey,
    ) -> (r: (McAppSKey, McNetSKey))
        requires
            self.wf(),
        ensures
            r.0@ == spec_derive_mc_app_s_key(spec_mc_key(self.0@, key@), spec_mc_addr(self.0@)),
            r.1@ == spec_derive_mc_net_s_key(spec_mc_key(self.0@, key@), spec_mc_addr(self.0@)),
    {
        let mc_key = self.mc_key_decrypted(crypto, key);
        let mc_addr = self.mc_addr();
        (mc_key.derive_mc_app_s_key(crypto, &mc_addr), mc_key.derive_mc_net_s_key(crypto, &mc_addr))
    }

    /// Derives the full multicast session and reports the group slot index
    /// the network requested. The index is not validated against the pool's
    /// capacity here; that is the pool's job.
    pub fn derive_session<F: CryptoFactory>(&self, crypto: &F, key: &McKEKey) -> (r: (
        usize,
        Session,
    ))
        requires
            self.wf(),
        ensures
            r.0 == self.0@[0] as usize,
            r.1.multicast_addr@ == spec_mc_addr(self.0@),
            r.1.mc_app_s_key@ == spec_derive_mc_app_s_key(
                spec_mc_key(self.0@, key@),
                spec_mc_addr(self.0@),
            ),
            r.1.mc_net_s_key@ == spec_derive_mc_net_s_key(
                spec_mc_key(self.0@, key@),
                spec_mc_addr(self.0@),
            ),
            r.1.fcnt_down == spec_min_mc_fcount(self.0@),
            r.1.max_fcnt_down == spec_max_mc_fcount(self.0@),
    {
        let (mc_app_s_key, mc_net_s_key) = self.derive_session_keys(crypto, key);
        (
            self.mc_group_id_header() as usize,
            Session {
                multicast_addr: self.mc_addr(),
                mc_net_s_key,
                mc_app_s_key,
                fcnt_down: self.min_mc_fcount(),
                max_fcnt_down: self.max_mc_fcount(),
            },
        )
    }

    /// `minMcFCount` is the next frame counter value of the multicast
    /// downlink to be sent by the server for this group (bytes 21 to 25,
    /// little-endian).
    pub fn min_mc_fcount(&self) -> (r: u32)
        requires
            self.wf(),
        ensures
            r == spec_min_mc_fcount(self.0@),
    {
        let bytes = slice_subrange(self.0, 21, 25);
        u32_from_le_bytes(bytes)
    }

    /// `maxMcFCount` specifies the lifetime of this multicast group expressed
    /// as a maximum number of frames: the device only accepts a downlink
    /// whose 32-bit frame counter lies in `minMcFCount <= McFCount <
    /// maxMcFCount` (bytes 25 to 29, little-endian).
    pub fn max_mc_fcount(&self) -> (r: u32)
        requires
            self.wf(),
        ensures
            r == spec_max_mc_fcount(self.0@),
    {
        let bytes = slice_subrange(self.0, 25, 29);
        u32_from_le_bytes(bytes)
    }
}

} // verus!

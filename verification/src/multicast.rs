//! The bounded pool of active multicast sessions.
//!
//! The pool owns up to four concurrently active sessions and one shared
//! downlink port. Allocation is first-fit over the slots in fixed order
//! (slot 0 first); lookup is a linear scan returning the first occupied slot
//! whose address matches. No eviction or expiry policy exists here: a
//! session occupies its slot until the pool is reinitialized.
use crate::group_setup::Session;
use crate::keys::{spec_derive_mc_ke_key, CryptoFactory, McAppSKey, McKEKey, McNetSKey, McRootKey};
use crate::parser::MulticastAddr;
use vstd::prelude::*;

verus! {

/// The downlink port shared by all multicast traffic until it is changed.
pub const DEFAULT_MC_PORT: u8 = 200;

/// Errors raised by the session pool.
#[derive(Debug)]
pub enum Error {
    /// All four slots are occupied; the caller must first evict a stale
    /// session (eviction is not provided here).
    NoAvailableSlotForSession,
}

/// True when `slot` holds a session whose group address is `addr`.
pub open spec fn slot_is_match(slot: Option<Session>, addr: Seq<u8>) -> bool {
    slot is Some && slot.unwrap().multicast_addr@ == addr
}

/// The first empty slot of `s` in scan order, if any.
pub open spec fn first_free_slot(s: Seq<Option<Session>>) -> Option<int>
    decreases s.len(),
{
    if s.len() == 0 {
        None
    } else if s[0] is None {
        Some(0)
    } else {
        match first_free_slot(s.drop_first()) {
            Some(i) => Some(i + 1),
            None => None,
        }
    }
}

/// The first slot of `s` holding a session for `addr`, if any.
pub open spec fn first_match(s: Seq<Option<Session>>, addr: Seq<u8>) -> Option<int>
    decreases s.len(),
{
    if s.len() == 0 {
        None
    } else if slot_is_match(s[0], addr) {
        Some(0)
    } else {
        match first_match(s.drop_first(), addr) {
            Some(i) => Some(i + 1),
            None => None,
        }
    }
}

/// How many slots of `s` are occupied.
pub open spec fn occupied_count(s: Seq<Option<Session>>) -> int
    decreases s.len(),
{
    if s.len() == 0 {
        0
    } else {
        (if s[0] is Some {
            1int
        } else {
            0int
        }) + occupied_count(s.drop_first())
    }
}

proof fn lemma_first_free_slot_at(s: Seq<Option<Session>>, i: int)
    requires
        0 <= i < s.len(),
        s[i] is None,
        forall|j: int| 0 <= j < i ==> s[j] is Some,
    ensures
        first_free_slot(s) == Some(i),
    decreases i,
{
    if i > 0 {
        assert(s[0] is Some);
        assert forall|j: int| 0 <= j < i - 1 implies s.drop_first()[j] is Some by {
            assert(s[j + 1] is Some);
        }
        lemma_first_free_slot_at(s.drop_first(), i - 1);
    }
}

proof fn lemma_first_free_slot_none(s: Seq<Option<Session>>)
    requires
        forall|j: int| 0 <= j < s.len() ==> s[j] is Some,
    ensures
        first_free_slot(s) is None,
    decreases s.len(),
{
    if s.len() > 0 {
        assert forall|j: int| 0 <= j < s.drop_first().len() implies s.drop_first()[j] is Some by {
            assert(s[j + 1] is Some);
        }
        lemma_first_free_slot_none(s.drop_first());
    }
}

proof fn lemma_first_free_slot_exists(s: Seq<Option<Session>>, j: int)
    requires
        0 <= j < s.len(),
        s[j] is None,
    ensures
        first_free_slot(s) is Some,
    decreases j,
{
    if !(s[0] is None) {
        assert(s.drop_first()[j - 1] is None);
        lemma_first_free_slot_exists(s.drop_first(), j - 1);
    }
}

proof fn lemma_first_match_at(s: Seq<Option<Session>>, addr: Seq<u8>, i: int)
    requires
        0 <= i < s.len(),
        slot_is_match(s[i], addr),
        forall|j: int| 0 <= j < i ==> !slot_is_match(s[j], addr),
    ensures
        first_match(s, addr) == Some(i),
    decreases i,
{
    if i > 0 {
        assert(!slot_is_match(s[0], addr));
        assert forall|j: int| 0 <= j < i - 1 implies !slot_is_match(
            s.drop_first()[j],
            addr,
        ) by {
            assert(!slot_is_match(s[j + 1], addr));
        }
        assert(s.drop_first()[i - 1] == s[i]);
        lemma_first_match_at(s.drop_first(), addr, i - 1);
    }
}

proof fn lemma_first_match_none(s: Seq<Option<Session>>, addr: Seq<u8>)
    requires
        forall|j: int| 0 <= j < s.len() ==> !slot_is_match(s[j], addr),
    ensures
        first_match(s, addr) is None,
    decreases s.len(),
{
    if s.len() > 0 {
        assert forall|j: int| 0 <= j < s.drop_first().len() implies !slot_is_match(
            s.drop_first()[j],
            addr,
        ) by {
            assert(!slot_is_match(s[j + 1], addr));
        }
        lemma_first_match_none(s.drop_first(), addr);
    }
}

/// Capacity law, first half: in a four-slot pool, every slot is occupied
/// exactly when the first-fit scan finds no free slot — so after four
/// successful installs a further `add_session` is refused — and while fewer
/// than four slots are occupied a free slot exists and an install succeeds.
pub proof fn lemma_pool_capacity(s: Seq<Option<Session>>)
    requires
        s.len() == 4,
    ensures
        occupied_count(s) == 4 <==> first_free_slot(s) is None,
        occupied_count(s) < 4 ==> first_free_slot(s) is Some,
        0 <= occupied_count(s) <= 4,
{
    lemma_occupied_count_full(s);
    if forall|j: int| 0 <= j < s.len() ==> s[j] is Some {
        lemma_first_free_slot_none(s);
    } else {
        let j = choose|j: int| 0 <= j < s.len() && !(s[j] is Some);
        lemma_first_free_slot_exists(s, j);
    }
}

proof fn lemma_occupied_count_full(s: Seq<Option<Session>>)
    ensures
        0 <= occupied_count(s) <= s.len(),
        occupied_count(s) == s.len() <==> (forall|j: int| 0 <= j < s.len() ==> s[j] is Some),
    decreases s.len(),
{
    if s.len() > 0 {
        lemma_occupied_count_full(s.drop_first());
        if occupied_count(s) == s.len() {
            assert forall|j: int| 0 <= j < s.len() implies s[j] is Some by {
                if j > 0 {
                    assert(s.drop_first()[j - 1] is Some);
                }
            }
        }
        if forall|j: int| 0 <= j < s.len() ==> s[j] is Some {
            assert forall|j: int| 0 <= j < s.drop_first().len() implies s.drop_first()[j]
                is Some by {
                assert(s[j + 1] is Some);
            }
        }
    }
}

/// Capacity law, continued: installing a session into the first free slot
/// raises the number of occupied slots by exactly one.
pub proof fn lemma_install_fills_one_slot(s: Seq<Option<Session>>, i: int, sess: Session)
    requires
        first_free_slot(s) == Some(i),
    ensures
        0 <= i < s.len(),
        s[i] is None,
        occupied_count(s.update(i, Some(sess))) == occupied_count(s) + 1,
    decreases s.len(),
{
    if s.len() > 0 {
        if s[0] is None {
            assert(s.update(0, Some(sess)).drop_first() =~= s.drop_first());
        } else {
            lemma_install_fills_one_slot(s.drop_first(), i - 1, sess);
            assert(s.update(i, Some(sess)).drop_first() =~= s.drop_first().update(
                i - 1,
                Some(sess),
            ));
        }
    }
}

/// Capacity law, last part: clearing any one slot of a pool reopens it — the
/// first-fit scan then finds a free slot, so a subsequent `add_session`
/// succeeds.
pub proof fn lemma_freed_slot_reopens(s: Seq<Option<Session>>, i: int)
    requires
        0 <= i < s.len(),
    ensures
        first_free_slot(s.update(i, None)) is Some,
{
    lemma_first_free_slot_exists(s.update(i, None), i);
}

/// Lookup law: when at most one occupied slot holds address `addr` — the
/// shape the pool has whenever every installed address is distinct, `i`
/// being the slot of the session most recently installed for `addr` — the
/// linear scan of `matching_session` finds exactly that slot.
pub proof fn lemma_lookup_unique(s: Seq<Option<Session>>, addr: Seq<u8>, i: int)
    requires
        0 <= i < s.len(),
        slot_is_match(s[i], addr),
        forall|j: int| 0 <= j < s.len() && j != i ==> !slot_is_match(s[j], addr),
    ensures
        first_match(s, addr) == Some(i),
{
    lemma_first_match_at(s, addr, i);
}

/// The multicast state of one end-device: the provisioned root key, the
/// key-encryption key derived from it, the shared downlink port, and the
/// four session slots.
pub struct Multicast {
    pub mc_root_key: McRootKey,
    pub mc_k_e_key: McKEKey,
    pub port: u8,
    pub sessions: Vec<Option<Session>>,
}

impl Multicast {
    /// The pool always holds exactly four (possibly empty) slots.
    pub open spec fn wf(&self) -> bool {
        self.sessions@.len() == 4
    }

    /// The configured downlink port.
    pub open spec fn spec_port(&self) -> u8 {
        self.port
    }

    /// Builds the multicast state for a device: stores the root key, derives
    /// the key-encryption key from it once, and starts with all four slots
    /// empty and the default port.
    pub fn new<F: CryptoFactory>(crypto: &F, mc_root_key: McRootKey) -> (r: Multicast)
        ensures
            r.wf(),
            r.mc_root_key == mc_root_key,
            r.mc_k_e_key@ == spec_derive_mc_ke_key(mc_root_key@),
            r.spec_port() == DEFAULT_MC_PORT,
            forall|i: int| 0 <= i < 4 ==> r.sessions@[i] is None,
    {
        let mc_k_e_key = McKEKey::derive_from(crypto, &mc_root_key);
        let mut sessions: Vec<Option<Session>> = Vec::new();
        sessions.push(None);
        sessions.push(None);
        sessions.push(None);
        sessions.push(None);
        Multicast { mc_root_key, mc_k_e_key, port: DEFAULT_MC_PORT, sessions }
    }

    /// Sets the shared downlink port; session slots and keys are untouched.
    pub fn set_port(&mut self, port: u8)
        ensures
            final(self).spec_port() == port,
            final(self).mc_root_key == old(self).mc_root_key,
            final(self).mc_k_e_key == old(self).mc_k_e_key,
            final(self).sessions == old(self).sessions,
    {
        self.port = port;
    }

    /// The shared downlink port (default 200).
    pub fn port(&self) -> (r: u8)
        ensures
            r == self.spec_port(),
    {
        self.port
    }

    /// True when slot `i` holds a session for `multicast_addr`.
    fn slot_matches(&self, i: usize, multicast_addr: &MulticastAddr) -> (r: bool)
        requires
            self.wf(),
            i < 4,
        ensures
            r == slot_is_match(self.sessions@[i as int], multicast_addr@),
    {
        match &self.sessions[i] {
            Some(s) => s.multicast_addr == *multicast_addr,
            None => false,
        }
    }

    /// The slot of the first session for `multicast_addr`, in scan order.
    fn find_matching_index(&self, multicast_addr: &MulticastAddr) -> (r: Option<usize>)
        requires
            self.wf(),
        ensures
            ({
                let m = first_match(self.sessions@, multicast_addr@);
                match m {
                    None => r is None,
                    Some(i) => r == Some(i as usize) && 0 <= i < 4 && slot_is_match(
                        self.sessions@[i],
                        multicast_addr@,
                    ),
                }
            }),
    {
        let mut i: usize = 0;
        while i < 4
            invariant
                self.wf(),
                i <= 4,
                forall|j: int| 0 <= j < i ==> !slot_is_match(self.sessions@[j], multicast_addr@),
            decreases 4 - i,
        {
            if self.slot_matches(i, multicast_addr) {
                proof {
                    lemma_first_match_at(self.sessions@, multicast_addr@, i as int);
                }
                return Some(i);
            }
            i = i + 1;
        }
        proof {
            lemma_first_match_none(self.sessions@, multicast_addr@);
        }
        None
    }

    /// Scans the slots in fixed order and hands out an exclusive borrow of
    /// the first session stored for `multicast_addr`, or nothing when no
    /// occupied slot matches. The caller may advance the session's
    /// `fcnt_down` through the borrow; occupancy, keys and port are left as
    /// they were.
    pub fn matching_session(&mut self, multicast_addr: &MulticastAddr) -> (r: Option<
        &mut Session,
    >)
        requires
            old(self).wf(),
        ensures
            final(self).wf(),
            forall|j: int|
                0 <= j < 4 ==> (final(self).sessions@[j] is Some <==> old(self).sessions@[j]
                    is Some),
            ({
                let m = first_match(old(self).sessions@, multicast_addr@);
                match m {
                    None => r is None && *final(self) == *old(self),
                    Some(i) => {
                        &&& r is Some
                        &&& *r.unwrap() == old(self).sessions@[i].unwrap()
                        &&& final(self).sessions@ == old(self).sessions@.update(
                            i,
                            Some(*final(r.unwrap())),
                        )
                        &&& final(self).mc_root_key == old(self).mc_root_key
                        &&& final(self).mc_k_e_key == old(self).mc_k_e_key
                        &&& final(self).spec_port() == old(self).spec_port()
                    },
                }
            }),
    {
        match self.find_matching_index(multicast_addr) {
            Some(i) => Option::as_mut(&mut self.sessions[i]),
            None => None,
        }
    }

    /// Installs a new session (frame counters starting at 0/0) in the first
    /// empty slot, scanning from slot 0; refuses when all four slots are
    /// occupied. An address already stored in another slot is not rejected.
    pub fn add_session(
        &mut self,
        multicast_addr: MulticastAddr,
        mc_net_skey: McNetSKey,
        mc_app_skey: McAppSKey,
    ) -> (r: Result<(), Error>)
        requires
            old(self).wf(),
        ensures
            final(self).wf(),
            final(self).mc_root_key == old(self).mc_root_key,
            final(self).mc_k_e_key == old(self).mc_k_e_key,
            final(self).spec_port() == old(self).spec_port(),
            ({
                let m = first_free_slot(old(self).sessions@);
                match m {
                    Some(i) => {
                        &&& r == Ok::<(), Error>(())
                        &&& final(self).sessions@ == old(self).sessions@.update(
                            i,
                            Some(
                                (Session {
                                    multicast_addr,
                                    mc_net_s_key: mc_net_skey,
                                    mc_app_s_key: mc_app_skey,
                                    fcnt_down: 0u32,
                                    max_fcnt_down: 0u32,
                                }),
                            ),
                        )
                    },
                    None => {
                        &&& r == Err::<(), Error>(Error::NoAvailableSlotForSession)
                        &&& *final(self) == *old(self)
                    },
                }
            }),
    {
        let mut i: usize = 0;
        while i < 4
            invariant
                self.wf(),
                i <= 4,
                *self == *old(self),
                forall|j: int| 0 <= j < i ==> self.sessions@[j] is Some,
            decreases 4 - i,
        {
            if self.sessions[i].is_none() {
                proof {
                    lemma_first_free_slot_at(old(self).sessions@, i as int);
                }
                self.sessions[i] = Some(
                    Session::new(multicast_addr, mc_net_skey, mc_app_skey, 0, 0),
                );
                return Ok(());
            }
            i = i + 1;
        }
        proof {
            lemma_first_free_slot_none(old(self).sessions@);
        }
        Err(Error::NoAvailableSlotForSession)
    }
}

} // verus!

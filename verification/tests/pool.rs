use lorawan_multicast::default_crypto::DefaultFactory;
use lorawan_multicast::group_setup::McGroupSetupReqPayload;
use lorawan_multicast::keys::{AES128, McAppSKey, McKEKey, McNetSKey, McRootKey};
use lorawan_multicast::multicast::{Error, Multicast, DEFAULT_MC_PORT};
use lorawan_multicast::parser::MulticastAddr;

const TEST_KEY: [u8; 16] = [4, 2, 3, 4, 5, 6, 7, 8, 9, 10, 11, 12, 13, 14, 15, 16];

fn net_key(tag: u8) -> McNetSKey {
    let mut bytes = TEST_KEY;
    bytes[15] = tag;
    McNetSKey::from(bytes)
}

fn app_key(tag: u8) -> McAppSKey {
    let mut bytes = TEST_KEY;
    bytes[14] = tag;
    McAppSKey::from(bytes)
}

#[test]
fn new_derives_kek_and_starts_empty() {
    let pool = Multicast::new(&DefaultFactory, McRootKey::from(TEST_KEY));
    assert_eq!(
        pool.mc_k_e_key,
        McKEKey(AES128([
            0x90, 0x83, 0xbe, 0xbf, 0x70, 0x42, 0x57, 0x88, 0x31, 0x60, 0xdb, 0xfc, 0xde, 0x33,
            0xad, 0x71
        ]))
    );
    assert_eq!(pool.mc_root_key, McRootKey::from(TEST_KEY));
    assert_eq!(pool.port(), 200);
    assert_eq!(DEFAULT_MC_PORT, 200);
    assert_eq!(pool.sessions.len(), 4);
    assert!(pool.sessions.iter().all(|s| s.is_none()));
}

#[test]
fn set_port_changes_shared_port() {
    let mut pool = Multicast::new(&DefaultFactory, McRootKey::from(TEST_KEY));
    pool.set_port(42);
    assert_eq!(pool.port(), 42);
}

#[test]
fn fifth_session_is_refused() {
    let mut pool = Multicast::new(&DefaultFactory, McRootKey::from(TEST_KEY));
    for i in 0..4u8 {
        let addr = MulticastAddr([i, 0, 0, 1]);
        assert!(pool.add_session(addr, net_key(i), app_key(i)).is_ok());
    }
    let r = pool.add_session(MulticastAddr([9, 9, 9, 9]), net_key(9), app_key(9));
    assert!(matches!(r, Err(Error::NoAvailableSlotForSession)));
}

#[test]
fn add_session_initializes_counters() {
    let mut pool = Multicast::new(&DefaultFactory, McRootKey::from(TEST_KEY));
    let addr = MulticastAddr([1, 1, 1, 1]);
    pool.add_session(addr, net_key(1), app_key(1)).unwrap();
    let session = pool.matching_session(&addr).unwrap();
    assert_eq!(session.fcnt_down(), 0);
    assert_eq!(session.max_fcnt_down, 0);
}

#[test]
fn lookup_by_address() {
    let mut pool = Multicast::new(&DefaultFactory, McRootKey::from(TEST_KEY));
    let a = MulticastAddr([1, 1, 1, 1]);
    let b = MulticastAddr([2, 2, 2, 2]);
    pool.add_session(a, net_key(1), app_key(1)).unwrap();
    pool.add_session(b, net_key(2), app_key(2)).unwrap();

    let found = pool.matching_session(&b).unwrap();
    assert_eq!(found.multicast_addr(), b);
    assert_eq!(found.mc_net_s_key(), net_key(2));

    let found = pool.matching_session(&a).unwrap();
    assert_eq!(found.multicast_addr(), a);
    assert_eq!(found.mc_net_s_key(), net_key(1));

    assert!(pool.matching_session(&MulticastAddr([3, 3, 3, 3])).is_none());
}

#[test]
fn consumer_advances_frame_counter_in_place() {
    let mut pool = Multicast::new(&DefaultFactory, McRootKey::from(TEST_KEY));
    let addr = MulticastAddr([5, 6, 7, 8]);
    pool.add_session(addr, net_key(3), app_key(3)).unwrap();

    let session = pool.matching_session(&addr).unwrap();
    session.fcnt_down += 1;
    assert_eq!(pool.matching_session(&addr).unwrap().fcnt_down(), 1);
    // Occupancy is untouched by lookups and in-place mutation.
    assert_eq!(pool.sessions.iter().filter(|s| s.is_some()).count(), 1);
}

#[test]
fn duplicate_addresses_are_not_rejected() {
    let mut pool = Multicast::new(&DefaultFactory, McRootKey::from(TEST_KEY));
    let addr = MulticastAddr([1, 1, 1, 1]);
    assert!(pool.add_session(addr, net_key(1), app_key(1)).is_ok());
    assert!(pool.add_session(addr, net_key(2), app_key(2)).is_ok());
    assert_eq!(pool.sessions.iter().filter(|s| s.is_some()).count(), 2);
}

#[test]
fn group_setup_flow_installs_matchable_session() {
    let root = McRootKey::from(TEST_KEY);
    let mut pool = Multicast::new(&DefaultFactory, root);

    let mut buf = [0u8; 29];
    buf[0] = 0;
    buf[1..5].copy_from_slice(&[0xaa, 0xbb, 0xcc, 0xdd]);
    buf[5..21].copy_from_slice(&TEST_KEY);
    buf[21..25].copy_from_slice(&7u32.to_le_bytes());
    buf[25..29].copy_from_slice(&4096u32.to_le_bytes());
    let payload = McGroupSetupReqPayload(&buf);

    let kek = pool.mc_k_e_key;
    let (_, session) = payload.derive_session(&DefaultFactory, &kek);
    let addr = session.multicast_addr();
    pool.add_session(addr, session.mc_net_s_key(), session.mc_app_s_key())
        .unwrap();

    let installed = pool.matching_session(&MulticastAddr([0xaa, 0xbb, 0xcc, 0xdd])).unwrap();
    assert_eq!(installed.mc_net_s_key(), session.mc_net_s_key());
    assert_eq!(installed.mc_app_s_key(), session.mc_app_s_key());
}

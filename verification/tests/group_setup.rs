use lorawan_multicast::default_crypto::DefaultFactory;
use lorawan_multicast::group_setup::{McGroupSetupReqPayload, Session};
use lorawan_multicast::keys::{AES128, McAppSKey, McKEKey, McKey, McNetSKey};
use lorawan_multicast::parser::MulticastAddr;

const TEST_KEY: [u8; 16] = [4, 2, 3, 4, 5, 6, 7, 8, 9, 10, 11, 12, 13, 14, 15, 16];

fn request_buffer() -> [u8; 29] {
    let mut buf = [0u8; 29];
    buf[0] = 2;
    buf[1..5].copy_from_slice(&[1, 2, 3, 4]);
    buf[5..21].copy_from_slice(&TEST_KEY);
    buf[21..25].copy_from_slice(&5u32.to_le_bytes());
    buf[25..29].copy_from_slice(&1000u32.to_le_bytes());
    buf
}

#[test]
fn decode_fixed_fields() {
    let buf = request_buffer();
    let payload = McGroupSetupReqPayload(&buf);
    assert_eq!(payload.mc_group_id_header(), 2);
    assert_eq!(payload.mc_addr(), MulticastAddr([1, 2, 3, 4]));
    assert_eq!(payload.mc_key_encrypted(), &TEST_KEY[..]);
    assert_eq!(payload.min_mc_fcount(), 5);
    assert_eq!(payload.max_mc_fcount(), 1000);
}

#[test]
fn decode_ignores_trailing_bytes() {
    let mut long_buf = [0xffu8; 33];
    long_buf[..29].copy_from_slice(&request_buffer());
    let payload = McGroupSetupReqPayload(&long_buf);
    assert_eq!(payload.mc_group_id_header(), 2);
    assert_eq!(payload.mc_addr(), MulticastAddr([1, 2, 3, 4]));
    assert_eq!(payload.min_mc_fcount(), 5);
    assert_eq!(payload.max_mc_fcount(), 1000);
}

#[test]
fn recover_mc_key_known_vector() {
    // The encrypted field is all zero, so recovering McKey performs the same
    // block operation as deriving McKEKey from TEST_KEY.
    let buf = [0u8; 29];
    let payload = McGroupSetupReqPayload(&buf);
    let kek = McKEKey::from(TEST_KEY);
    let mc_key = payload.mc_key_decrypted(&DefaultFactory, &kek);
    assert_eq!(
        mc_key,
        McKey(AES128([
            0x90, 0x83, 0xbe, 0xbf, 0x70, 0x42, 0x57, 0x88, 0x31, 0x60, 0xdb, 0xfc, 0xde, 0x33,
            0xad, 0x71
        ]))
    );
}

#[test]
fn derive_session_populates_all_fields() {
    let buf = request_buffer();
    let payload = McGroupSetupReqPayload(&buf);
    let kek = McKEKey::from(TEST_KEY);
    let (group_id, session) = payload.derive_session(&DefaultFactory, &kek);
    assert_eq!(group_id, 2);
    assert_eq!(session.multicast_addr(), MulticastAddr([1, 2, 3, 4]));
    assert_eq!(session.fcnt_down(), 5);
    assert_eq!(session.max_fcnt_down, 1000);

    let mc_key = payload.mc_key_decrypted(&DefaultFactory, &kek);
    let addr = payload.mc_addr();
    assert_eq!(
        session.mc_app_s_key(),
        mc_key.derive_mc_app_s_key(&DefaultFactory, &addr)
    );
    assert_eq!(
        session.mc_net_s_key(),
        mc_key.derive_mc_net_s_key(&DefaultFactory, &addr)
    );

    let (app, net) = payload.derive_session_keys(&DefaultFactory, &kek);
    assert_eq!(app, session.mc_app_s_key());
    assert_eq!(net, session.mc_net_s_key());
}

#[test]
fn session_accessors() {
    let session = Session::new(
        MulticastAddr([9, 8, 7, 6]),
        McNetSKey::from(TEST_KEY),
        McAppSKey::from(TEST_KEY),
        17,
        99,
    );
    assert_eq!(session.multicast_addr(), MulticastAddr([9, 8, 7, 6]));
    assert_eq!(session.mc_net_s_key(), McNetSKey::from(TEST_KEY));
    assert_eq!(session.mc_app_s_key(), McAppSKey::from(TEST_KEY));
    assert_eq!(session.fcnt_down(), 17);
    assert_eq!(session.max_fcnt_down, 99);
}

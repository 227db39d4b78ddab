use cryptobox::buffer::CBoxVec;
use cryptobox::handle::{
    cbox_session_get, cbox_session_init_from_message, cbox_session_init_from_prekey, into_buffer,
    session_id, status,
};
use cryptobox::identity::{
    bytes_eq, open_identity, reconcile_identity, record_to_write, CBoxIdentityMode, Identity, IdentityAction,
    OpenAction,
};
use cryptobox::prekeys::{PreKey, ReadOnlyPks, CBOX_LAST_PREKEY_ID};
use cryptobox::result::{CBoxResult, DecryptError, Failure};
use cryptobox::session::{CBoxSession, StoreOp};
use cryptobox::sid::{contains_nul, SID};

fn sid(s: &str) -> SID {
    SID::from_text(s).unwrap()
}

#[test]
fn codes_are_stable() {
    assert_eq!(CBoxResult::Success.code(), 0);
    assert_eq!(CBoxResult::StorageError.code(), 1);
    assert_eq!(CBoxResult::SessionNotFound.code(), 2);
    assert_eq!(CBoxResult::DuplicateMessage.code(), 7);
    assert_eq!(CBoxResult::NulError.code(), 11);
    assert_eq!(CBoxResult::PreKeyNotFound.code(), 14);
    for c in 0u32..15 {
        assert_eq!(CBoxResult::from_code(c).unwrap().code(), c);
    }
    assert!(CBoxResult::from_code(15).is_none());
}

#[test]
fn decrypt_errors_collapse() {
    assert_eq!(
        CBoxResult::from_decrypt_error(DecryptError::DuplicateMessage),
        CBoxResult::DuplicateMessage
    );
    assert_eq!(
        CBoxResult::from_decrypt_error(DecryptError::PreKeyNotFound(3)),
        CBoxResult::PreKeyNotFound
    );
    assert_eq!(
        CBoxResult::from_decrypt_error(DecryptError::PreKeyStoreError),
        CBoxResult::StorageError
    );
    assert_eq!(
        CBoxResult::from_decrypt_error(DecryptError::OutdatedMessage),
        CBoxResult::OutdatedMessage
    );
    assert_eq!(CBoxResult::from_failure(Failure::Encode), CBoxResult::EncodeError);
    assert_eq!(CBoxResult::from_failure(Failure::Utf8), CBoxResult::Utf8Error);
}

#[test]
fn duplicate_decrypt_gives_duplicate_outcome() {
    let first = into_buffer(Ok(vec![104, 105]));
    assert_eq!(first.unwrap().cbox_vec_data(), &[104u8, 105][..]);
    let again = into_buffer(Err(Failure::Decrypt(DecryptError::DuplicateMessage)));
    assert_eq!(again.err(), Some(CBoxResult::DuplicateMessage));
}

#[test]
fn sid_with_nul_is_refused() {
    assert_eq!(session_id(b"ab\0cd").err(), Some(CBoxResult::NulError));
    assert_eq!(SID::from_text("a\0").err(), Some(CBoxResult::NulError));
    // a nul byte is reported even where the rest is not UTF-8
    assert_eq!(session_id(&[0xff, 0]).err(), Some(CBoxResult::NulError));
    assert!(contains_nul(&[1, 0, 2]));
    assert!(!contains_nul(&[]));
}

#[test]
fn sid_not_utf8_is_refused() {
    assert_eq!(session_id(&[0xff, 0xfe]).err(), Some(CBoxResult::Utf8Error));
}

#[test]
fn sid_is_kept() {
    let s = session_id("alice-bob".as_bytes()).unwrap();
    assert_eq!(s.as_str(), "alice-bob");
    let h = cbox_session_init_from_prekey(s, 7u32);
    assert_eq!(h.cbox_session_id(), "alice-bob");
    assert_eq!(*h.sess(), 7);
    assert!(h.pstore().pending().is_empty());
}

#[test]
fn staged_prekey_is_masked() {
    let mut ps = ReadOnlyPks::new();
    let found = ps.prekey(4, Some(PreKey { id: 4, bytes: vec![9, 9] }));
    assert_eq!(found.unwrap().bytes, vec![9, 9]);
    ps.remove(4);
    assert!(ps.is_pending(4));
    assert!(!ps.is_pending(5));
    assert!(ps.prekey(4, Some(PreKey { id: 4, bytes: vec![9, 9] })).is_none());
    assert!(ps.prekey(5, Some(PreKey { id: 5, bytes: vec![1] })).is_some());
    let fresh = ReadOnlyPks::new();
    assert!(fresh.prekey(4, Some(PreKey { id: 4, bytes: vec![9, 9] })).is_some());
    assert_eq!(ps.take_pending(), vec![4]);
    assert!(ps.pending().is_empty());
}

#[test]
fn last_resort_id() {
    assert_eq!(CBOX_LAST_PREKEY_ID, u16::MAX);
}

#[test]
fn save_writes_session_first() {
    let mut h = cbox_session_init_from_prekey(sid("s"), 1u8);
    h.stage_removal(3);
    h.stage_removal(8);
    assert_eq!(
        h.save_plan(),
        vec![StoreOp::SaveSession, StoreOp::RemovePrekey(3), StoreOp::RemovePrekey(8)]
    );
    assert_eq!(h.cbox_session_save(Ok(())), CBoxResult::Success);
    assert!(h.pstore().pending().is_empty());
    assert_eq!(h.save_plan(), vec![StoreOp::SaveSession]);
    assert_eq!(h.cbox_session_save(Ok(())), CBoxResult::Success);
    assert_eq!(h.save_plan(), vec![StoreOp::SaveSession]);
}

#[test]
fn failed_save_keeps_pending() {
    let mut h = cbox_session_init_from_prekey(sid("s"), 1u8);
    h.stage_removal(2);
    assert_eq!(h.cbox_session_save(Err(Failure::Storage)), CBoxResult::StorageError);
    assert_eq!(h.pstore().pending(), &vec![2]);
    h.advance(5);
    assert_eq!(h.cbox_session_close(), 5);
}

#[test]
fn init_from_message_outcomes() {
    let mut ps = ReadOnlyPks::new();
    ps.remove(11);
    let (h, plain) = cbox_session_init_from_message(sid("m"), Ok((3u32, vec![1, 2, 3])), ps).unwrap();
    assert_eq!(plain.cbox_vec_len(), 3);
    assert_eq!(h.pstore().pending(), &vec![11]);
    let e = cbox_session_init_from_message::<u32>(
        sid("m"),
        Err(Failure::Decrypt(DecryptError::PreKeyNotFound(11))),
        ReadOnlyPks::new(),
    );
    assert_eq!(e.err(), Some(CBoxResult::PreKeyNotFound));
}

#[test]
fn get_outcomes() {
    let h = cbox_session_get(sid("g"), Ok(Some(9u16))).unwrap();
    assert_eq!(*h.sess(), 9);
    assert_eq!(cbox_session_get::<u16>(sid("g"), Ok(None)).err(), Some(CBoxResult::SessionNotFound));
    assert_eq!(
        cbox_session_get::<u16>(sid("g"), Err(Failure::Storage)).err(),
        Some(CBoxResult::StorageError)
    );
    assert_eq!(status(Ok(())), CBoxResult::Success);
    assert_eq!(status(Err(Failure::Decode)), CBoxResult::DecodeError);
}

#[test]
fn buffers() {
    let b = CBoxVec::from_vec(vec![5; 4096]);
    assert_eq!(b.cbox_vec_len(), 4096);
    assert_eq!(b.cbox_vec_free().len(), 4096);
    let empty = into_buffer(Ok(vec![])).unwrap();
    assert_eq!(empty.cbox_vec_len(), 0);
}

fn full(k: &[u8]) -> Identity {
    Identity::Sec(k.to_vec())
}

fn public(k: &[u8]) -> Identity {
    Identity::Pub(k.to_vec())
}

#[test]
fn open_without_external_identity() {
    assert_eq!(open_identity(&None), Ok(OpenAction::Generate));
    assert_eq!(open_identity(&Some(full(&[1]))), Ok(OpenAction::UseStored));
    assert_eq!(open_identity(&Some(public(&[1]))), Err(CBoxResult::IdentityError));
}

#[test]
fn bootstrap_table() {
    let (complete, public_only) = (CBoxIdentityMode::Complete, CBoxIdentityMode::Public);
    let k = [1u8, 2, 3];
    let other = [1u8, 2, 4];
    let ext = full(&k);
    assert_eq!(reconcile_identity(&None, &ext, complete), Ok(IdentityAction::SaveComplete));
    assert_eq!(reconcile_identity(&None, &ext, public_only), Ok(IdentityAction::SavePublic));
    assert_eq!(reconcile_identity(&Some(full(&k)), &ext, complete), Ok(IdentityAction::Keep));
    assert_eq!(reconcile_identity(&Some(full(&k)), &ext, public_only), Ok(IdentityAction::SavePublic));
    assert_eq!(reconcile_identity(&Some(full(&other)), &ext, complete), Err(CBoxResult::IdentityError));
    assert_eq!(reconcile_identity(&Some(full(&other)), &ext, public_only), Err(CBoxResult::IdentityError));
    assert_eq!(reconcile_identity(&Some(public(&k)), &ext, complete), Ok(IdentityAction::SaveComplete));
    assert_eq!(reconcile_identity(&Some(public(&k)), &ext, public_only), Ok(IdentityAction::Keep));
    assert_eq!(reconcile_identity(&Some(public(&other)), &ext, complete), Err(CBoxResult::IdentityError));
    assert_eq!(reconcile_identity(&Some(public(&other)), &ext, public_only), Err(CBoxResult::IdentityError));
    assert_eq!(reconcile_identity(&None, &public(&k), complete), Err(CBoxResult::IdentityError));
    assert!(bytes_eq(&k, &k));
    assert!(!bytes_eq(&k, &k[..2]));
}

#[test]
fn record_written_per_decision() {
    let k = vec![7u8, 8];
    assert!(record_to_write(&k, IdentityAction::Keep).is_none());
    assert!(matches!(record_to_write(&k, IdentityAction::SaveComplete), Some(Identity::Sec(ref v)) if *v == k));
    assert!(matches!(record_to_write(&k, IdentityAction::SavePublic), Some(Identity::Pub(ref v)) if *v == k));
}

use vstd::prelude::*;
use crate::buffer::CBoxVec;
use crate::prekeys::ReadOnlyPks;
use crate::result::{failure_outcome, CBoxResult, Failure};
use crate::session::CBoxSession;
use crate::sid::{sid_outcome, SID};

verus! {

/// Reads the identifier an operation on sessions was given; this comes before
/// any store access, so a refused identifier never reaches the store.
pub fn session_id(raw: &[u8]) -> (r: Result<SID, CBoxResult>)
    ensures
        sid_outcome(raw@) is Ok <==> r is Ok,
        r matches Ok(s) ==> sid_outcome(raw@) == Ok::<Seq<char>, CBoxResult>(s@),
        r matches Err(e) ==> sid_outcome(raw@) == Err::<Seq<char>, CBoxResult>(e),
{
    SID::from_raw(raw)
}

/// A handle for a session begun from a prekey bundle: the store is not
/// touched, and nothing is staged.
pub fn cbox_session_init_from_prekey<S>(sid: SID, sess: S) -> (r: CBoxSession<S>)
    ensures
        r.sid_view() == sid@,
        r.session() == sess,
        r.pending() == Seq::<u16>::empty(),
{
    CBoxSession::new(sid, sess, ReadOnlyPks::new())
}

/// A handle for a session that the ratchet library derived from an inbound
/// message through the facade `pstore`, with the decrypted plaintext; on a
/// failure only the outcome comes back.
pub fn cbox_session_init_from_message<S>(
    sid: SID,
    derived: Result<(S, Vec<u8>), Failure>,
    pstore: ReadOnlyPks,
) -> (r: Result<(CBoxSession<S>, CBoxVec), CBoxResult>)
    ensures
        derived is Ok <==> r is Ok,
        derived matches Err(f) ==> r matches Err(e) && e == failure_outcome(f),
        derived matches Ok(d) ==> r matches Ok(h) && h.0.sid_view() == sid@ && h.0.session()
            == d.0 && h.0.pending() == pstore@ && h.1@ == d.1@,
{
    match derived {
        Ok((sess, plain)) => Ok((CBoxSession::new(sid, sess, pstore), CBoxVec::from_vec(plain))),
        Err(f) => Err(CBoxResult::from_failure(f)),
    }
}

/// A handle for a session loaded from the store under `sid`: absent, it is
/// not found; a failed load reports the failure.
pub fn cbox_session_get<S>(sid: SID, loaded: Result<Option<S>, Failure>) -> (r: Result<
    CBoxSession<S>,
    CBoxResult,
>)
    ensures
        loaded matches Ok(Some(s)) ==> r matches Ok(h) && h.sid_view() == sid@ && h.session() == s
            && h.pending() == Seq::<u16>::empty(),
        loaded matches Ok(None) ==> r == Err::<CBoxSession<S>, CBoxResult>(
            CBoxResult::SessionNotFound,
        ),
        loaded matches Err(f) ==> r == Err::<CBoxSession<S>, CBoxResult>(failure_outcome(f)),
{
    match loaded {
        Ok(Some(s)) => Ok(CBoxSession::new(sid, s, ReadOnlyPks::new())),
        Ok(None) => Err(CBoxResult::SessionNotFound),
        Err(f) => Err(CBoxResult::from_failure(f)),
    }
}

/// Hands bytes that an operation produced back as a buffer, or its outcome
/// on failure (ciphertext of an encrypt, plaintext of a decrypt, a
/// serialised identity or prekey bundle).
pub fn into_buffer(produced: Result<Vec<u8>, Failure>) -> (r: Result<CBoxVec, CBoxResult>)
    ensures
        produced is Ok <==> r is Ok,
        produced matches Ok(v) ==> r matches Ok(b) && b@ == v@,
        produced matches Err(f) ==> r matches Err(e) && e == failure_outcome(f),
{
    match produced {
        Ok(v) => Ok(CBoxVec::from_vec(v)),
        Err(f) => Err(CBoxResult::from_failure(f)),
    }
}

/// The outcome of an operation that produces nothing (deleting a session,
/// persisting a prekey).
pub fn status(done: Result<(), Failure>) -> (r: CBoxResult)
    ensures
        done is Ok ==> r == CBoxResult::Success,
        done matches Err(f) ==> r == failure_outcome(f),
{
    match done {
        Ok(()) => CBoxResult::Success,
        Err(f) => CBoxResult::from_failure(f),
    }
}

} // verus!

use vstd::prelude::*;
use crate::identity::IdentityView;
use crate::prekeys::{commit_removals, deferred_lookup, ReadOnlyPks};
use crate::result::{failure_outcome, CBoxResult, Failure};
use crate::sid::SID;

verus! {

/// What the store holds: its identity record, saved sessions by identifier
/// and prekeys by identifier, each in serialised form.
pub struct StoreModel {
    pub identity: Option<IdentityView>,
    pub sessions: Map<Seq<char>, Seq<u8>>,
    pub prekeys: Map<u16, Seq<u8>>,
}

/// One write against the store.
#[derive(Clone, Copy, Debug, PartialEq, Eq, Structural)]
pub enum StoreOp {
    /// Persist the session's state under its identifier.
    SaveSession,
    /// Delete the prekey with this identifier.
    RemovePrekey(u16),
}

pub open spec fn apply_op(s: StoreModel, sid: Seq<char>, state: Seq<u8>, op: StoreOp) -> StoreModel {
    match op {
        StoreOp::SaveSession => StoreModel { sessions: s.sessions.insert(sid, state), ..s },
        StoreOp::RemovePrekey(k) => StoreModel { prekeys: s.prekeys.remove(k), ..s },
    }
}

/// The store after the writes `ops`, in order.
pub open spec fn apply_ops(s: StoreModel, sid: Seq<char>, state: Seq<u8>, ops: Seq<StoreOp>) -> StoreModel
    decreases ops.len(),
{
    if ops.len() == 0 {
        s
    } else {
        apply_op(apply_ops(s, sid, state, ops.drop_last()), sid, state, ops.last())
    }
}

/// The writes of a save: the session first, then each staged removal.
pub open spec fn save_ops(pending: Seq<u16>) -> Seq<StoreOp> {
    seq![StoreOp::SaveSession] + pending.map_values(|k: u16| StoreOp::RemovePrekey(k))
}

/// The store once a session with state `state` is saved under `sid` with the
/// removals `pending` committed.
pub open spec fn saved_store(s: StoreModel, sid: Seq<char>, state: Seq<u8>, pending: Seq<u16>) -> StoreModel {
    StoreModel {
        identity: s.identity,
        sessions: s.sessions.insert(sid, state),
        prekeys: commit_removals(s.prekeys, pending),
    }
}

/// The store after `NewPrekey(id)` persisted the prekey `pk`.
pub open spec fn add_prekey(s: StoreModel, id: u16, pk: Seq<u8>) -> StoreModel {
    StoreModel { prekeys: s.prekeys.insert(id, pk), ..s }
}

/// A session handle: the ratchet session, its identifier, and the facade
/// that stages its prekey removals until it is saved.
pub struct CBoxSession<S> {
    sess: S,
    sid: SID,
    pstore: ReadOnlyPks,
}

impl<S> CBoxSession<S> {
    pub closed spec fn sid_view(&self) -> Seq<char> {
        self.sid@
    }

    pub closed spec fn pending(&self) -> Seq<u16> {
        self.pstore@
    }

    pub closed spec fn session(&self) -> S {
        self.sess
    }

    /// Couples a ratchet session with its identifier and the facade it used.
    pub fn new(sid: SID, sess: S, pstore: ReadOnlyPks) -> (r: CBoxSession<S>)
        ensures
            r.sid_view() == sid@,
            r.session() == sess,
            r.pending() == pstore@,
    {
        CBoxSession { sess, sid, pstore }
    }

    /// The identifier, borrowed for the handle's lifetime.
    pub fn cbox_session_id(&self) -> (r: &str)
        ensures
            r@ == self.sid_view(),
    {
        self.sid.as_str()
    }

    /// The ratchet session.
    pub fn sess(&self) -> (r: &S)
        ensures
            *r == self.session(),
    {
        &self.sess
    }

    /// The prekey facade of this handle.
    pub fn pstore(&self) -> (r: &ReadOnlyPks)
        ensures
            r@ == self.pending(),
    {
        &self.pstore
    }

    /// Stages a prekey removal that the ratchet library asked for.
    pub fn stage_removal(&mut self, id: u16)
        ensures
            final(self).pending() == old(self).pending().push(id),
            final(self).sid_view() == old(self).sid_view(),
            final(self).session() == old(self).session(),
    {
        self.pstore.remove(id);
    }

    /// Replaces the ratchet session with the one that an encrypt or decrypt
    /// step advanced it to.
    pub fn advance(&mut self, sess: S)
        ensures
            final(self).session() == sess,
            final(self).pending() == old(self).pending(),
            final(self).sid_view() == old(self).sid_view(),
    {
        self.sess = sess;
    }

    /// The writes that saving this handle makes, in order: the session state
    /// first, so that no prekey is gone before the session is durable.
    pub fn save_plan(&self) -> (r: Vec<StoreOp>)
        ensures
            r@ == save_ops(self.pending()),
    {
        let mut ops: Vec<StoreOp> = Vec::new();
        ops.push(StoreOp::SaveSession);
        let pending = self.pstore.pending();
        let mut i: usize = 0;
        while i < pending.len()
            invariant
                pending@ == self.pending(),
                0 <= i <= pending@.len(),
                ops@ =~= seq![StoreOp::SaveSession] + pending@.subrange(0, i as int).map_values(
                    |k: u16| StoreOp::RemovePrekey(k),
                ),
            decreases pending@.len() - i,
        {
            ops.push(StoreOp::RemovePrekey(pending[i]));
            i = i + 1;
            assert(ops@ =~= seq![StoreOp::SaveSession] + pending@.subrange(0, i as int).map_values(
                |k: u16| StoreOp::RemovePrekey(k),
            ));
        }
        assert(pending@.subrange(0, pending@.len() as int) =~= pending@);
        ops
    }

    /// Records the end of a save: after every write succeeded the staged
    /// removals are committed and the list is cleared; after a failure the
    /// list stays, and the failure is reported.
    pub fn cbox_session_save(&mut self, writes: Result<(), Failure>) -> (r: CBoxResult)
        ensures
            final(self).sid_view() == old(self).sid_view(),
            final(self).session() == old(self).session(),
            writes is Ok ==> r == CBoxResult::Success && final(self).pending() == Seq::<u16>::empty(),
            writes matches Err(f) ==> r == failure_outcome(f) && final(self).pending() == old(
                self,
            ).pending(),
    {
        match writes {
            Ok(()) => {
                let _ = self.pstore.take_pending();
                CBoxResult::Success
            },
            Err(f) => CBoxResult::from_failure(f),
        }
    }

    /// Releases the handle, handing back the ratchet session.
    pub fn cbox_session_close(self) -> (r: S)
        ensures
            r == self.session(),
    {
        self.sess
    }
}

proof fn lemma_commit_push(m: Map<u16, Seq<u8>>, p: Seq<u16>, k: u16)
    ensures
        commit_removals(m, p.push(k)) == commit_removals(m, p).remove(k),
{
    assert(p.push(k).to_set() =~= p.to_set().insert(k)) by {
        assert forall|x: u16| p.push(k).to_set().contains(x) <==> p.to_set().insert(k).contains(x) by {
            if p.push(k).contains(x) {
                let i = choose|i: int| 0 <= i < p.push(k).len() && p.push(k)[i] == x;
                if i < p.len() {
                    assert(p[i] == x);
                }
            }
            if p.contains(x) {
                let i = choose|i: int| 0 <= i < p.len() && p[i] == x;
                assert(p.push(k)[i] == x);
            }
            if x == k {
                assert(p.push(k)[p.len() as int] == k);
            }
        }
    }
    assert(commit_removals(m, p.push(k)) =~= commit_removals(m, p).remove(k));
}

/// Applying the writes of a save yields the saved store: the session is
/// stored under its identifier and every staged prekey is gone.
pub proof fn lemma_save_ops_effect(s: StoreModel, sid: Seq<char>, state: Seq<u8>, pending: Seq<u16>)
    ensures
        apply_ops(s, sid, state, save_ops(pending)) == saved_store(s, sid, state, pending),
    decreases pending.len(),
{
    if pending.len() == 0 {
        assert(save_ops(pending) =~= seq![StoreOp::SaveSession]);
        assert(save_ops(pending).drop_last() =~= Seq::<StoreOp>::empty());
        assert(pending.to_set() =~= Set::<u16>::empty());
        assert(commit_removals(s.prekeys, pending) =~= s.prekeys);
        assert(apply_ops(s, sid, state, Seq::<StoreOp>::empty()) == s);
    } else {
        let p = pending.drop_last();
        let k = pending.last();
        assert(p.push(k) =~= pending);
        assert(save_ops(pending).drop_last() =~= save_ops(p));
        assert(save_ops(pending).last() == StoreOp::RemovePrekey(k));
        lemma_save_ops_effect(s, sid, state, p);
        lemma_commit_push(s.prekeys, p, k);
        assert(apply_ops(s, sid, state, save_ops(pending)) == apply_op(
            saved_store(s, sid, state, p),
            sid,
            state,
            StoreOp::RemovePrekey(k),
        ));
    }
}

/// Looking up a prekey just persisted through a fresh facade finds it; once
/// that facade stages its removal the facade no longer finds it, while the
/// store still holds it until a save commits the removal, after which it is
/// gone.
pub proof fn lemma_new_prekey_lookup(s: StoreModel, id: u16, pk: Seq<u8>, sid: Seq<char>, state: Seq<u8>)
    ensures
        ({
            let s1 = add_prekey(s, id, pk);
            let staged = Seq::<u16>::empty().push(id);
            &&& deferred_lookup(s1.prekeys, Seq::<u16>::empty(), id) == Some(pk)
            &&& deferred_lookup(s1.prekeys, staged, id) is None
            &&& s1.prekeys.contains_key(id) && s1.prekeys[id] == pk
            &&& !saved_store(s1, sid, state, staged).prekeys.contains_key(id)
        }),
{
    let staged = Seq::<u16>::empty().push(id);
    assert(staged[0] == id);
    lemma_commit_push(add_prekey(s, id, pk).prekeys, Seq::<u16>::empty(), id);
    assert(Seq::<u16>::empty().to_set() =~= Set::<u16>::empty());
}

/// A handle that stages removals but is never saved writes nothing to the
/// store, so a fresh facade over the store finds every prekey it finds now.
pub proof fn lemma_unsaved_handle_keeps_prekeys(s: StoreModel, staged: Seq<u16>, id: u16)
    requires
        s.prekeys.contains_key(id),
    ensures
        staged.contains(id) ==> deferred_lookup(s.prekeys, staged, id) is None,
        deferred_lookup(s.prekeys, Seq::<u16>::empty(), id) == Some(s.prekeys[id]),
{
}

/// Saving twice with nothing in between stores the same state both times and
/// leaves no staged removal: the second save has only the session to write.
pub proof fn lemma_save_idempotent(s: StoreModel, sid: Seq<char>, state: Seq<u8>, pending: Seq<u16>)
    ensures
        ({
            let once = apply_ops(s, sid, state, save_ops(pending));
            let twice = apply_ops(once, sid, state, save_ops(Seq::<u16>::empty()));
            twice == once
        }),
{
    lemma_save_ops_effect(s, sid, state, pending);
    let once = saved_store(s, sid, state, pending);
    lemma_save_ops_effect(once, sid, state, Seq::<u16>::empty());
    assert(once.sessions.insert(sid, state) =~= once.sessions);
    assert(Seq::<u16>::empty().to_set() =~= Set::<u16>::empty());
    assert(commit_removals(once.prekeys, Seq::<u16>::empty()) =~= once.prekeys);
}

} // verus!

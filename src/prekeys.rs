use vstd::prelude::*;

verus! {

/// The identifier reserved for the last-resort prekey, reusable without end.
pub const CBOX_LAST_PREKEY_ID: u16 = 0xffff;

/// A prekey as the store holds it: its identifier and its serialised form.
pub struct PreKey {
    pub id: u16,
    pub bytes: Vec<u8>,
}

/// What the store's `prekey(id)` finds once the deferred removals in
/// `pending` are masked: nothing for a pending identifier, else the stored
/// record.
pub open spec fn deferred_lookup(
    stored: Map<u16, Seq<u8>>,
    pending: Seq<u16>,
    id: u16,
) -> Option<Seq<u8>> {
    if pending.contains(id) {
        None
    } else if stored.contains_key(id) {
        Some(stored[id])
    } else {
        None
    }
}

/// The prekeys that remain once the pending removals are committed.
pub open spec fn commit_removals(stored: Map<u16, Seq<u8>>, pending: Seq<u16>) -> Map<u16, Seq<u8>> {
    stored.remove_keys(pending.to_set())
}

/// A facade over the store's prekeys that stages removals instead of
/// performing them, so that a prekey is gone only once a session is saved.
pub struct ReadOnlyPks {
    prekeys: Vec<u16>,
}

impl View for ReadOnlyPks {
    type V = Seq<u16>;

    /// The identifiers staged for removal, in the order they were staged.
    closed spec fn view(&self) -> Seq<u16> {
        self.prekeys@
    }
}

impl ReadOnlyPks {
    /// A facade with nothing staged.
    pub fn new() -> (r: ReadOnlyPks)
        ensures
            r@ == Seq::<u16>::empty(),
    {
        ReadOnlyPks { prekeys: Vec::new() }
    }

    /// Tells whether `id` has been staged for removal.
    pub fn is_pending(&self, id: u16) -> (r: bool)
        ensures
            r == self@.contains(id),
    {
        let mut i: usize = 0;
        while i < self.prekeys.len()
            invariant
                0 <= i <= self@.len(),
                forall|j: int| 0 <= j < i ==> self@[j] != id,
            decreases self@.len() - i,
        {
            if self.prekeys[i] == id {
                assert(self@[i as int] == id);
                return true;
            }
            i = i + 1;
        }
        false
    }

    /// Looks up a prekey: a staged identifier is not found, whatever the store
    /// holds; otherwise the store's answer `stored` is handed on.
    pub fn prekey(&self, id: u16, stored: Option<PreKey>) -> (r: Option<PreKey>)
        ensures
            self@.contains(id) ==> r is None,
            !self@.contains(id) ==> r == stored,
    {
        if self.is_pending(id) {
            None
        } else {
            stored
        }
    }

    /// Stages `id` for removal and succeeds at once; nothing is deleted.
    pub fn remove(&mut self, id: u16)
        ensures
            final(self)@ == old(self)@.push(id),
    {
        self.prekeys.push(id);
    }

    /// Hands out the staged identifiers, in order, and clears the list.
    pub fn take_pending(&mut self) -> (r: Vec<u16>)
        ensures
            r@ == old(self)@,
            final(self)@ == Seq::<u16>::empty(),
    {
        let mut out: Vec<u16> = Vec::new();
        std::mem::swap(&mut out, &mut self.prekeys);
        out
    }

    /// The staged identifiers, in order.
    pub fn pending(&self) -> (r: &Vec<u16>)
        ensures
            r@ == self@,
    {
        &self.prekeys
    }
}

} // verus!

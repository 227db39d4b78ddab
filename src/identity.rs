use vstd::prelude::*;
use crate::result::CBoxResult;

verus! {

/// Whether the store keeps the full key pair or the public key alone.
#[derive(Clone, Copy, Debug, PartialEq, Eq, Structural)]
pub enum CBoxIdentityMode {
    Complete,
    Public,
}

/// The kind of an identity record, by what it holds of the key pair; each
/// kind carries the public key's bytes.
pub enum Identity {
    Sec(Vec<u8>),
    Pub(Vec<u8>),
}

pub enum IdentityView {
    Sec(Seq<u8>),
    Pub(Seq<u8>),
}

impl View for Identity {
    type V = IdentityView;

    open spec fn view(&self) -> IdentityView {
        match self {
            Identity::Sec(k) => IdentityView::Sec(k@),
            Identity::Pub(k) => IdentityView::Pub(k@),
        }
    }
}

/// What the store must do with its identity record when a root handle opens.
#[derive(Clone, Copy, Debug, PartialEq, Eq, Structural)]
pub enum IdentityAction {
    /// Leave the record as it is.
    Keep,
    /// Write the full key pair.
    SaveComplete,
    /// Write the public key alone.
    SavePublic,
}

/// What opening without an external identity does, by the stored record.
#[derive(Clone, Copy, Debug, PartialEq, Eq, Structural)]
pub enum OpenAction {
    /// Use the stored key pair.
    UseStored,
    /// Generate a fresh key pair and persist it.
    Generate,
}

pub open spec fn open_outcome(stored: Option<IdentityView>) -> Result<OpenAction, CBoxResult> {
    match stored {
        None => Ok(OpenAction::Generate),
        Some(IdentityView::Sec(_)) => Ok(OpenAction::UseStored),
        Some(IdentityView::Pub(_)) => Err(CBoxResult::IdentityError),
    }
}

/// The reconciliation table, by stored record and mode, for an external full
/// key pair with public key `ext`.
pub open spec fn reconcile_outcome(
    stored: Option<IdentityView>,
    ext: Seq<u8>,
    mode: CBoxIdentityMode,
) -> Result<IdentityAction, CBoxResult> {
    match stored {
        None => match mode {
            CBoxIdentityMode::Complete => Ok(IdentityAction::SaveComplete),
            CBoxIdentityMode::Public => Ok(IdentityAction::SavePublic),
        },
        Some(IdentityView::Sec(k)) => if k != ext {
            Err(CBoxResult::IdentityError)
        } else {
            match mode {
                CBoxIdentityMode::Complete => Ok(IdentityAction::Keep),
                CBoxIdentityMode::Public => Ok(IdentityAction::SavePublic),
            }
        },
        Some(IdentityView::Pub(k)) => if k != ext {
            Err(CBoxResult::IdentityError)
        } else {
            match mode {
                CBoxIdentityMode::Complete => Ok(IdentityAction::SaveComplete),
                CBoxIdentityMode::Public => Ok(IdentityAction::Keep),
            }
        },
    }
}

/// Compares two byte sequences.
pub fn bytes_eq(a: &[u8], b: &[u8]) -> (r: bool)
    ensures
        r == (a@ == b@),
{
    if a.len() != b.len() {
        return false;
    }
    let mut i: usize = 0;
    while i < a.len()
        invariant
            a@.len() == b@.len(),
            0 <= i <= a@.len(),
            forall|j: int| 0 <= j < i ==> a@[j] == b@[j],
        decreases a@.len() - i,
    {
        if a[i] != b[i] {
            return false;
        }
        i = i + 1;
    }
    assert(a@ =~= b@);
    true
}

/// Decides how a root handle opened without an external identity obtains its
/// key pair: a public-only record cannot supply one.
pub fn open_identity(stored: &Option<Identity>) -> (r: Result<OpenAction, CBoxResult>)
    ensures
        r == open_outcome(match stored {
            Some(i) => Some(i@),
            None => None,
        }),
{
    match stored {
        None => Ok(OpenAction::Generate),
        Some(Identity::Sec(_)) => Ok(OpenAction::UseStored),
        Some(Identity::Pub(_)) => Err(CBoxResult::IdentityError),
    }
}

/// Reconciles an externally supplied identity with the stored record. The
/// external identity must be a full key pair; a public-only one is refused.
pub fn reconcile_identity(
    stored: &Option<Identity>,
    external: &Identity,
    mode: CBoxIdentityMode,
) -> (r: Result<IdentityAction, CBoxResult>)
    ensures
        external is Pub ==> r == Err::<IdentityAction, CBoxResult>(CBoxResult::IdentityError),
        external matches Identity::Sec(ext) ==> r == reconcile_outcome(
            match stored {
                Some(i) => Some(i@),
                None => None,
            },
            ext@,
            mode,
        ),
{
    let ext = match external {
        Identity::Sec(k) => k,
        Identity::Pub(_) => return Err(CBoxResult::IdentityError),
    };
    match stored {
        None => match mode {
            CBoxIdentityMode::Complete => Ok(IdentityAction::SaveComplete),
            CBoxIdentityMode::Public => Ok(IdentityAction::SavePublic),
        },
        Some(Identity::Sec(local)) => {
            if !bytes_eq(ext.as_slice(), local.as_slice()) {
                return Err(CBoxResult::IdentityError);
            }
            match mode {
                CBoxIdentityMode::Complete => Ok(IdentityAction::Keep),
                CBoxIdentityMode::Public => Ok(IdentityAction::SavePublic),
            }
        },
        Some(Identity::Pub(local)) => {
            if !bytes_eq(ext.as_slice(), local.as_slice()) {
                return Err(CBoxResult::IdentityError);
            }
            match mode {
                CBoxIdentityMode::Complete => Ok(IdentityAction::SaveComplete),
                CBoxIdentityMode::Public => Ok(IdentityAction::Keep),
            }
        },
    }
}

/// The record the store holds after a successful reconciliation.
pub open spec fn record_after(
    stored: Option<IdentityView>,
    ext: Seq<u8>,
    a: IdentityAction,
) -> Option<IdentityView> {
    match a {
        IdentityAction::Keep => stored,
        IdentityAction::SaveComplete => Some(IdentityView::Sec(ext)),
        IdentityAction::SavePublic => Some(IdentityView::Pub(ext)),
    }
}

/// The record to write for a reconciliation decision on the external public
/// key `ext`, if any: `Keep` writes nothing.
pub fn record_to_write(ext: &Vec<u8>, a: IdentityAction) -> (r: Option<Identity>)
    ensures
        a == IdentityAction::Keep <==> r is None,
        r matches Some(i) ==> record_after(None, ext@, a) == Some(i@),
{
    match a {
        IdentityAction::Keep => None,
        IdentityAction::SaveComplete => Some(Identity::Sec(ext.clone())),
        IdentityAction::SavePublic => Some(Identity::Pub(ext.clone())),
    }
}

/// The bootstrap table over all stored kinds and both modes: with no record
/// the external identity is persisted in the requested form; with a record of
/// the same public key the record ends up in the requested form; a record of
/// another public key fails with an identity error and is left alone.
pub proof fn lemma_bootstrap_table(stored: Option<IdentityView>, ext: Seq<u8>, mode: CBoxIdentityMode)
    ensures
        ({
            let r = reconcile_outcome(stored, ext, mode);
            let want = match mode {
                CBoxIdentityMode::Complete => IdentityView::Sec(ext),
                CBoxIdentityMode::Public => IdentityView::Pub(ext),
            };
            match stored {
                None => r is Ok && record_after(stored, ext, r->Ok_0) == Some(want),
                Some(IdentityView::Sec(k)) => if k == ext {
                    r is Ok && record_after(stored, ext, r->Ok_0) == Some(want)
                        && (mode == CBoxIdentityMode::Complete <==> r->Ok_0 == IdentityAction::Keep)
                } else {
                    r == Err::<IdentityAction, CBoxResult>(CBoxResult::IdentityError)
                },
                Some(IdentityView::Pub(k)) => if k == ext {
                    r is Ok && record_after(stored, ext, r->Ok_0) == Some(want)
                        && (mode == CBoxIdentityMode::Public <==> r->Ok_0 == IdentityAction::Keep)
                } else {
                    r == Err::<IdentityAction, CBoxResult>(CBoxResult::IdentityError)
                },
            }
        }),
{
}

} // verus!

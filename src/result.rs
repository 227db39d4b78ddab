use vstd::prelude::*;

verus! {

/// The stable outcome of every fallible operation at the boundary.
#[derive(Clone, Copy, Debug, PartialEq, Eq, Structural)]
pub enum CBoxResult {
    Success,
    StorageError,
    SessionNotFound,
    DecodeError,
    RemoteIdentityChanged,
    InvalidSignature,
    InvalidMessage,
    DuplicateMessage,
    TooDistantFuture,
    OutdatedMessage,
    Utf8Error,
    NulError,
    EncodeError,
    IdentityError,
    PreKeyNotFound,
}

/// The numeric value of each outcome; success is zero.
pub open spec fn code_of(r: CBoxResult) -> u32 {
    match r {
        CBoxResult::Success => 0,
        CBoxResult::StorageError => 1,
        CBoxResult::SessionNotFound => 2,
        CBoxResult::DecodeError => 3,
        CBoxResult::RemoteIdentityChanged => 4,
        CBoxResult::InvalidSignature => 5,
        CBoxResult::InvalidMessage => 6,
        CBoxResult::DuplicateMessage => 7,
        CBoxResult::TooDistantFuture => 8,
        CBoxResult::OutdatedMessage => 9,
        CBoxResult::Utf8Error => 10,
        CBoxResult::NulError => 11,
        CBoxResult::EncodeError => 12,
        CBoxResult::IdentityError => 13,
        CBoxResult::PreKeyNotFound => 14,
    }
}

impl CBoxResult {
    /// The numeric code handed across the boundary.
    pub fn code(self) -> (r: u32)
        ensures
            r == code_of(self),
    {
        match self {
            CBoxResult::Success => 0,
            CBoxResult::StorageError => 1,
            CBoxResult::SessionNotFound => 2,
            CBoxResult::DecodeError => 3,
            CBoxResult::RemoteIdentityChanged => 4,
            CBoxResult::InvalidSignature => 5,
            CBoxResult::InvalidMessage => 6,
            CBoxResult::DuplicateMessage => 7,
            CBoxResult::TooDistantFuture => 8,
            CBoxResult::OutdatedMessage => 9,
            CBoxResult::Utf8Error => 10,
            CBoxResult::NulError => 11,
            CBoxResult::EncodeError => 12,
            CBoxResult::IdentityError => 13,
            CBoxResult::PreKeyNotFound => 14,
        }
    }

    /// Reads a numeric code back; `None` for a number outside the closed set.
    pub fn from_code(c: u32) -> (r: Option<CBoxResult>)
        ensures
            c <= 14 <==> r.is_some(),
            r matches Some(x) ==> code_of(x) == c,
    {
        let all = [
            CBoxResult::Success,
            CBoxResult::StorageError,
            CBoxResult::SessionNotFound,
            CBoxResult::DecodeError,
            CBoxResult::RemoteIdentityChanged,
            CBoxResult::InvalidSignature,
            CBoxResult::InvalidMessage,
            CBoxResult::DuplicateMessage,
            CBoxResult::TooDistantFuture,
            CBoxResult::OutdatedMessage,
            CBoxResult::Utf8Error,
            CBoxResult::NulError,
            CBoxResult::EncodeError,
            CBoxResult::IdentityError,
            CBoxResult::PreKeyNotFound,
        ];
        if c <= 14 {
            let x = all[c as usize];
            assert(code_of(x) == c);
            Some(x)
        } else {
            None
        }
    }
}

/// The ways in which the ratchet library refuses to decrypt a message.
#[derive(Clone, Copy, Debug, PartialEq, Eq, Structural)]
pub enum DecryptError {
    RemoteIdentityChanged,
    InvalidSignature,
    InvalidMessage,
    DuplicateMessage,
    TooDistantFuture,
    OutdatedMessage,
    PreKeyNotFound(u16),
    PreKeyStoreError,
}

/// Every internal failure, by its source, before it crosses the boundary.
#[derive(Clone, Copy, Debug, PartialEq, Eq, Structural)]
pub enum Failure {
    Decrypt(DecryptError),
    Storage,
    Utf8,
    Decode,
    Encode,
    Nul,
}

pub open spec fn decrypt_outcome(e: DecryptError) -> CBoxResult {
    match e {
        DecryptError::RemoteIdentityChanged => CBoxResult::RemoteIdentityChanged,
        DecryptError::InvalidSignature => CBoxResult::InvalidSignature,
        DecryptError::InvalidMessage => CBoxResult::InvalidMessage,
        DecryptError::DuplicateMessage => CBoxResult::DuplicateMessage,
        DecryptError::TooDistantFuture => CBoxResult::TooDistantFuture,
        DecryptError::OutdatedMessage => CBoxResult::OutdatedMessage,
        DecryptError::PreKeyNotFound(_) => CBoxResult::PreKeyNotFound,
        DecryptError::PreKeyStoreError => CBoxResult::StorageError,
    }
}

pub open spec fn failure_outcome(f: Failure) -> CBoxResult {
    match f {
        Failure::Decrypt(e) => decrypt_outcome(e),
        Failure::Storage => CBoxResult::StorageError,
        Failure::Utf8 => CBoxResult::Utf8Error,
        Failure::Decode => CBoxResult::DecodeError,
        Failure::Encode => CBoxResult::EncodeError,
        Failure::Nul => CBoxResult::NulError,
    }
}

impl CBoxResult {
    /// Collapses a decryption failure into its outcome.
    pub fn from_decrypt_error(e: DecryptError) -> (r: CBoxResult)
        ensures
            r == decrypt_outcome(e),
    {
        match e {
            DecryptError::RemoteIdentityChanged => CBoxResult::RemoteIdentityChanged,
            DecryptError::InvalidSignature => CBoxResult::InvalidSignature,
            DecryptError::InvalidMessage => CBoxResult::InvalidMessage,
            DecryptError::DuplicateMessage => CBoxResult::DuplicateMessage,
            DecryptError::TooDistantFuture => CBoxResult::TooDistantFuture,
            DecryptError::OutdatedMessage => CBoxResult::OutdatedMessage,
            DecryptError::PreKeyNotFound(_) => CBoxResult::PreKeyNotFound,
            DecryptError::PreKeyStoreError => CBoxResult::StorageError,
        }
    }

    /// Collapses any internal failure into its outcome; never `Success`.
    pub fn from_failure(f: Failure) -> (r: CBoxResult)
        ensures
            r == failure_outcome(f),
            r != CBoxResult::Success,
    {
        match f {
            Failure::Decrypt(e) => CBoxResult::from_decrypt_error(e),
            Failure::Storage => CBoxResult::StorageError,
            Failure::Utf8 => CBoxResult::Utf8Error,
            Failure::Decode => CBoxResult::DecodeError,
            Failure::Encode => CBoxResult::EncodeError,
            Failure::Nul => CBoxResult::NulError,
        }
    }
}

/// The outcome of a fallible step, with nothing written out on failure.
pub fn outcome_of<T>(r: Result<T, Failure>) -> (o: Result<T, CBoxResult>)
    ensures
        r is Ok <==> o is Ok,
        r matches Ok(v) ==> o == Ok::<T, CBoxResult>(v),
        r matches Err(f) ==> o == Err::<T, CBoxResult>(failure_outcome(f)),
{
    match r {
        Ok(v) => Ok(v),
        Err(f) => Err(CBoxResult::from_failure(f)),
    }
}

} // verus!

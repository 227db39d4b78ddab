use vstd::prelude::*;
use crate::result::CBoxResult;

verus! {

/// What `std::str::from_utf8` makes of a byte sequence: its characters, or
/// `None` where the bytes are not UTF-8.
pub uninterp spec fn utf8_text(b: Seq<u8>) -> Option<Seq<char>>;

/// Relies on std::str::from_utf8: decodes the bytes, or refuses them when
/// they are not valid UTF-8; the outcome depends on the bytes alone.
#[verifier::external_body]
fn decode_utf8(b: &[u8]) -> (r: Option<String>)
    ensures
        r is Some <==> utf8_text(b@) is Some,
        r matches Some(s) ==> utf8_text(b@) == Some(s@),
{
    std::str::from_utf8(b).ok().map(String::from)
}

pub open spec fn has_nul(b: Seq<u8>) -> bool {
    exists|i: int| 0 <= i < b.len() && b[i] == 0u8
}

pub open spec fn has_nul_char(s: Seq<char>) -> bool {
    exists|i: int| 0 <= i < s.len() && s[i] == '\0'
}

/// The outcome of reading a session identifier from raw bytes.
pub open spec fn sid_outcome(b: Seq<u8>) -> Result<Seq<char>, CBoxResult> {
    if has_nul(b) {
        Err(CBoxResult::NulError)
    } else {
        match utf8_text(b) {
            Some(t) => Ok(t),
            None => Err(CBoxResult::Utf8Error),
        }
    }
}

/// A session identifier: text without an embedded terminator.
pub struct SID {
    string: String,
}

impl View for SID {
    type V = Seq<char>;

    closed spec fn view(&self) -> Seq<char> {
        self.string@
    }
}

/// Tells whether the bytes hold a zero byte.
pub fn contains_nul(b: &[u8]) -> (r: bool)
    ensures
        r == has_nul(b@),
{
    let mut i: usize = 0;
    while i < b.len()
        invariant
            0 <= i <= b@.len(),
            forall|j: int| 0 <= j < i ==> b@[j] != 0u8,
        decreases b@.len() - i,
    {
        if b[i] == 0 {
            return true;
        }
        i = i + 1;
    }
    false
}

impl SID {
    /// Reads an identifier from bytes: an embedded zero byte is refused
    /// before anything else, then bytes that are not UTF-8.
    pub fn from_raw(b: &[u8]) -> (r: Result<SID, CBoxResult>)
        ensures
            sid_outcome(b@) is Ok <==> r is Ok,
            r matches Ok(s) ==> sid_outcome(b@) == Ok::<Seq<char>, CBoxResult>(s@),
            r matches Err(e) ==> sid_outcome(b@) == Err::<Seq<char>, CBoxResult>(e),
    {
        if contains_nul(b) {
            return Err(CBoxResult::NulError);
        }
        match decode_utf8(b) {
            Some(s) => Ok(SID { string: s }),
            None => Err(CBoxResult::Utf8Error),
        }
    }

    /// Takes an identifier from text, refusing an embedded terminator.
    pub fn from_text(s: &str) -> (r: Result<SID, CBoxResult>)
        ensures
            has_nul_char(s@) <==> r is Err,
            r matches Err(e) ==> e == CBoxResult::NulError,
            r matches Ok(x) ==> x@ == s@,
    {
        let n = s.unicode_len();
        let mut i: usize = 0;
        while i < n
            invariant
                n == s@.len(),
                0 <= i <= n,
                forall|j: int| 0 <= j < i ==> s@[j] != '\0',
            decreases n - i,
        {
            if s.get_char(i) == '\0' {
                return Err(CBoxResult::NulError);
            }
            i = i + 1;
        }
        Ok(SID { string: s.to_string() })
    }

    /// The identifier, borrowed for as long as the handle lives.
    pub fn as_str(&self) -> (r: &str)
        ensures
            r@ == self@,
    {
        self.string.as_str()
    }
}

} // verus!

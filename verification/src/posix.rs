//! The POSIX half of the host-name query: byte buffers.
//!
//! `gethostname(2)` fills a caller-supplied byte buffer and does not promise a
//! terminating zero when the name fills the buffer exactly. The functions here
//! size that buffer from the system's reported maximum, zero-fill it, scan it
//! for the first zero byte, truncate at that point (or keep the whole buffer
//! when no zero is present), and turn the call's return code into either a
//! [`Hostname`] or an [`OsError`].

use vstd::prelude::*;

use crate::error::OsError;

verus! {

/// The length of the host name held in `s`: the index of the first zero byte,
/// or `s.len()` when no byte of `s` is zero.
pub open spec fn terminated_len(s: Seq<u8>) -> nat
    decreases s.len(),
{
    if s.len() == 0 {
        0
    } else if s[0] == 0 {
        0
    } else {
        (terminated_len(s.drop_first()) + 1) as nat
    }
}

/// The host name held in `s`: everything before the first zero byte, or all of
/// `s` when no byte is zero.
pub open spec fn extracted(s: Seq<u8>) -> Seq<u8> {
    s.take(terminated_len(s) as int)
}

/// `terminated_len(s)` lies within `s`, everything before it is non-zero, and
/// the byte at it (when inside `s`) is zero.
pub proof fn lemma_terminated_len_props(s: Seq<u8>)
    ensures
        terminated_len(s) <= s.len(),
        forall|i: int| 0 <= i < terminated_len(s) ==> s[i] != 0,
        terminated_len(s) < s.len() ==> s[terminated_len(s) as int] == 0,
    decreases s.len(),
{
    if s.len() == 0 {
    } else if s[0] == 0 {
    } else {
        let t = s.drop_first();
        lemma_terminated_len_props(t);
        assert forall|i: int| 0 <= i < terminated_len(s) implies s[i] != 0 by {
            if i > 0 {
                assert(t[i - 1] != 0);
                assert(s[i] == t[i - 1]);
            }
        }
        if terminated_len(s) < s.len() {
            assert(s[terminated_len(s) as int] == t[terminated_len(t) as int]);
        }
    }
}

/// Any index with those three properties is `terminated_len(s)`: the scan's
/// outcome is uniquely determined by the buffer's contents.
pub proof fn lemma_terminated_len_unique(s: Seq<u8>, n: int)
    requires
        0 <= n <= s.len(),
        forall|i: int| 0 <= i < n ==> s[i] != 0,
        n < s.len() ==> s[n] == 0,
    ensures
        n == terminated_len(s),
{
    lemma_terminated_len_props(s);
    let t = terminated_len(s) as int;
    if n < t {
        assert(s[n] != 0);
        assert(s[n] == 0);
    } else if t < n {
        assert(s[t] != 0);
        assert(s[t] == 0);
    }
}

/// Extraction is idempotent: scanning an already-extracted host name returns
/// it unchanged, so repeating the decoding step cannot alter a result.
pub proof fn lemma_extracted_idempotent(s: Seq<u8>)
    ensures
        extracted(extracted(s)) == extracted(s),
{
    lemma_terminated_len_props(s);
    let e = extracted(s);
    assert forall|i: int| 0 <= i < e.len() implies e[i] != 0 by {
        assert(e[i] == s[i]);
    }
    lemma_terminated_len_unique(e, e.len() as int);
    assert(extracted(e) =~= e);
}

/// Buffer safety: a host name of any exact length, written into a buffer and
/// followed by a zero (with arbitrary bytes after it), is recovered without
/// truncation or growth.
pub proof fn lemma_terminated_roundtrip(name: Seq<u8>, rest: Seq<u8>)
    requires
        forall|i: int| 0 <= i < name.len() ==> name[i] != 0,
        rest.len() > 0,
        rest[0] == 0,
    ensures
        extracted(name + rest) == name,
{
    let s = name + rest;
    assert(s[name.len() as int] == rest[0]);
    assert forall|i: int| 0 <= i < name.len() implies s[i] != 0 by {
        assert(s[i] == name[i]);
    }
    lemma_terminated_len_unique(s, name.len() as int);
    assert(extracted(s) =~= name);
}

/// The no-terminator edge case: when the operating system fills the whole
/// buffer without a zero byte, the entire buffer is the host name.
pub proof fn lemma_unterminated_full(s: Seq<u8>)
    requires
        forall|i: int| 0 <= i < s.len() ==> s[i] != 0,
    ensures
        extracted(s) == s,
{
    lemma_terminated_len_unique(s, s.len() as int);
    assert(extracted(s) =~= s);
}

/// The index of the first zero byte of `buffer`, or its length when none is
/// zero. Never reads past the buffer's end.
pub fn first_zero(buffer: &Vec<u8>) -> (n: usize)
    ensures
        n == terminated_len(buffer@),
{
    let len = buffer.len();
    let mut i: usize = 0;
    while i < len
        invariant
            i <= len,
            len == buffer@.len(),
            forall|j: int| 0 <= j < i ==> buffer@[j] != 0,
        decreases len - i,
    {
        if buffer[i] == 0 {
            proof {
                lemma_terminated_len_unique(buffer@, i as int);
            }
            return i;
        }
        i = i + 1;
    }
    proof {
        lemma_terminated_len_unique(buffer@, len as int);
    }
    i
}

/// A host name as the operating system reports it: raw bytes, not necessarily
/// valid text, preserved exactly.
pub struct Hostname {
    bytes: Vec<u8>,
}

impl View for Hostname {
    type V = Seq<u8>;

    closed spec fn view(&self) -> Seq<u8> {
        self.bytes@
    }
}

impl Hostname {
    /// Builds a host name from a buffer the system call filled: everything
    /// before the first zero byte, or the whole buffer when none is zero.
    pub fn from_terminated(buffer: Vec<u8>) -> (r: Hostname)
        ensures
            r@ == extracted(buffer@),
    {
        let ghost orig: Seq<u8> = buffer@;
        proof {
            lemma_terminated_len_props(orig);
        }
        let end = first_zero(&buffer);
        let mut bytes = buffer;
        bytes.truncate(end);
        proof {
            assert(bytes@ =~= extracted(orig));
        }
        Hostname { bytes }
    }

    /// The host name's bytes, exactly as extracted.
    pub fn as_bytes(&self) -> (r: &Vec<u8>)
        ensures
            r@ == self@,
    {
        &self.bytes
    }

    /// Consumes the host name, yielding its bytes.
    pub fn into_bytes(self) -> (r: Vec<u8>)
        ensures
            r@ == self@,
    {
        self.bytes
    }

    /// The host name's length in bytes.
    pub fn len(&self) -> (r: usize)
        ensures
            r == self@.len(),
    {
        self.bytes.len()
    }
}

/// The buffer length for a reported maximum host-name length: one more than
/// the maximum, so a terminating zero fits even when the name is as long as
/// allowed. `None` when the system's report is negative (the limits query
/// failed or gave no limit) or when the extra slot would not fit in memory.
pub fn buffer_len_for_max(max_len: i64) -> (r: Option<usize>)
    ensures
        r is Some <==> 0 <= max_len && max_len + 1 <= usize::MAX,
        r matches Some(n) ==> n == max_len + 1,
{
    if max_len < 0 {
        None
    } else {
        let needed = (max_len as u128) + 1;
        if needed <= (usize::MAX as u128) {
            Some(needed as usize)
        } else {
            None
        }
    }
}

/// A zero-filled byte buffer of the given length, so any byte the system call
/// leaves unwritten is already a terminator.
pub fn zeroed_buffer(len: usize) -> (r: Vec<u8>)
    ensures
        r@.len() == len,
        forall|i: int| 0 <= i < len ==> r@[i] == 0,
{
    let mut buffer: Vec<u8> = Vec::new();
    let mut i: usize = 0;
    while i < len
        invariant
            i <= len,
            buffer@.len() == i,
            forall|j: int| 0 <= j < i ==> buffer@[j] == 0,
        decreases len - i,
    {
        buffer.push(0);
        i = i + 1;
    }
    buffer
}

/// Interprets the outcome of `gethostname(2)`. A zero return code means
/// success: the host name is extracted from the buffer. Any other return code
/// means failure: the captured last-error code is surfaced unchanged.
///
/// `last_error` must be the error code captured immediately after the call.
pub fn resolve_gethostname(returncode: i32, last_error: i32, buffer: Vec<u8>) -> (r: Result<
    Hostname,
    OsError,
>)
    ensures
        returncode == 0 ==> (r matches Ok(h) && h@ == extracted(buffer@)),
        returncode != 0 ==> (r matches Err(e) && e.code == last_error),
{
    if returncode == 0 {
        Ok(Hostname::from_terminated(buffer))
    } else {
        Err(OsError { code: last_error })
    }
}

} // verus!

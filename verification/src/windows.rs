//! The Windows half of the host-name query: wide-character buffers.
//!
//! `GetComputerNameExW` reports the needed buffer size in UTF-16 code units
//! through a probe call, then fills a caller-supplied wide buffer. Its return
//! convention is inverted with respect to POSIX: zero means failure, non-zero
//! means success. The functions here zero-fill the wide buffer, scan it for
//! the first zero code unit, truncate there (or keep the whole buffer when no
//! zero is present), and turn the call's return code into either a
//! [`WideHostname`] or an [`OsError`] — respecting that orientation.

use vstd::prelude::*;

use crate::error::OsError;

verus! {

/// The length of the host name held in `s`: the index of the first zero code
/// unit, or `s.len()` when no unit of `s` is zero.
pub open spec fn terminated_len(s: Seq<u16>) -> nat
    decreases s.len(),
{
    if s.len() == 0 {
        0
    } else if s[0] == 0 {
        0
    } else {
        (terminated_len(s.drop_first()) + 1) as nat
    }
}

/// The host name held in `s`: everything before the first zero code unit, or
/// all of `s` when no unit is zero.
pub open spec fn extracted(s: Seq<u16>) -> Seq<u16> {
    s.take(terminated_len(s) as int)
}

/// `terminated_len(s)` lies within `s`, everything before it is non-zero, and
/// the code unit at it (when inside `s`) is zero.
pub proof fn lemma_terminated_len_props(s: Seq<u16>)
    ensures
        terminated_len(s) <= s.len(),
        forall|i: int| 0 <= i < terminated_len(s) ==> s[i] != 0,
        terminated_len(s) < s.len() ==> s[terminated_len(s) as int] == 0,
    decreases s.len(),
{
    if s.len() == 0 {
    } else if s[0] == 0 {
    } else {
        let t = s.drop_first();
        lemma_terminated_len_props(t);
        assert forall|i: int| 0 <= i < terminated_len(s) implies s[i] != 0 by {
            if i > 0 {
                assert(t[i - 1] != 0);
                assert(s[i] == t[i - 1]);
            }
        }
        if terminated_len(s) < s.len() {
            assert(s[terminated_len(s) as int] == t[terminated_len(t) as int]);
        }
    }
}

/// Any index with those three properties is `terminated_len(s)`: the scan's
/// outcome is uniquely determined by the buffer's contents.
pub proof fn lemma_terminated_len_unique(s: Seq<u16>, n: int)
    requires
        0 <= n <= s.len(),
        forall|i: int| 0 <= i < n ==> s[i] != 0,
        n < s.len() ==> s[n] == 0,
    ensures
        n == terminated_len(s),
{
    lemma_terminated_len_props(s);
    let t = terminated_len(s) as int;
    if n < t {
        assert(s[n] != 0);
        assert(s[n] == 0);
    } else if t < n {
        assert(s[t] != 0);
        assert(s[t] == 0);
    }
}

/// Extraction is idempotent: scanning an already-extracted host name returns
/// it unchanged, so repeating the decoding step cannot alter a result.
pub proof fn lemma_extracted_idempotent(s: Seq<u16>)
    ensures
        extracted(extracted(s)) == extracted(s),
{
    lemma_terminated_len_props(s);
    let e = extracted(s);
    assert forall|i: int| 0 <= i < e.len() implies e[i] != 0 by {
        assert(e[i] == s[i]);
    }
    lemma_terminated_len_unique(e, e.len() as int);
    assert(extracted(e) =~= e);
}

/// Buffer safety: a host name of any exact length, written into a buffer and
/// followed by a zero (with arbitrary units after it), is recovered without
/// truncation or growth.
pub proof fn lemma_terminated_roundtrip(name: Seq<u16>, rest: Seq<u16>)
    requires
        forall|i: int| 0 <= i < name.len() ==> name[i] != 0,
        rest.len() > 0,
        rest[0] == 0,
    ensures
        extracted(name + rest) == name,
{
    let s = name + rest;
    assert(s[name.len() as int] == rest[0]);
    assert forall|i: int| 0 <= i < name.len() implies s[i] != 0 by {
        assert(s[i] == name[i]);
    }
    lemma_terminated_len_unique(s, name.len() as int);
    assert(extracted(s) =~= name);
}

/// The no-terminator edge case: when the operating system fills the whole
/// buffer without a zero unit, the entire buffer is the host name.
pub proof fn lemma_unterminated_full(s: Seq<u16>)
    requires
        forall|i: int| 0 <= i < s.len() ==> s[i] != 0,
    ensures
        extracted(s) == s,
{
    lemma_terminated_len_unique(s, s.len() as int);
    assert(extracted(s) =~= s);
}

/// The index of the first zero code unit of `buffer`, or its length when none
/// is zero. Never reads past the buffer's end.
pub fn first_zero(buffer: &Vec<u16>) -> (n: usize)
    ensures
        n == terminated_len(buffer@),
{
    let len = buffer.len();
    let mut i: usize = 0;
    while i < len
        invariant
            i <= len,
            len == buffer@.len(),
            forall|j: int| 0 <= j < i ==> buffer@[j] != 0,
        decreases len - i,
    {
        if buffer[i] == 0 {
            proof {
                lemma_terminated_len_unique(buffer@, i as int);
            }
            return i;
        }
        i = i + 1;
    }
    proof {
        lemma_terminated_len_unique(buffer@, len as int);
    }
    i
}

/// A host name as Windows reports it: raw UTF-16 code units, not necessarily
/// valid text, preserved exactly. Decoding to a native string is left to the
/// unverified shell.
pub struct WideHostname {
    units: Vec<u16>,
}

impl View for WideHostname {
    type V = Seq<u16>;

    closed spec fn view(&self) -> Seq<u16> {
        self.units@
    }
}

impl WideHostname {
    /// Builds a host name from a wide buffer the system call filled:
    /// everything before the first zero unit, or the whole buffer when none
    /// is zero.
    pub fn from_terminated(buffer: Vec<u16>) -> (r: WideHostname)
        ensures
            r@ == extracted(buffer@),
    {
        let ghost orig: Seq<u16> = buffer@;
        proof {
            lemma_terminated_len_props(orig);
        }
        let end = first_zero(&buffer);
        let mut units = buffer;
        units.truncate(end);
        proof {
            assert(units@ =~= extracted(orig));
        }
        WideHostname { units }
    }

    /// The host name's code units, exactly as extracted.
    pub fn as_units(&self) -> (r: &Vec<u16>)
        ensures
            r@ == self@,
    {
        &self.units
    }

    /// Consumes the host name, yielding its code units.
    pub fn into_units(self) -> (r: Vec<u16>)
        ensures
            r@ == self@,
    {
        self.units
    }

    /// The host name's length in code units.
    pub fn len(&self) -> (r: usize)
        ensures
            r == self@.len(),
    {
        self.units.len()
    }
}

/// A zero-filled wide buffer of the given length, so any unit the system call
/// leaves unwritten is already a terminator.
pub fn zeroed_buffer(len: usize) -> (r: Vec<u16>)
    ensures
        r@.len() == len,
        forall|i: int| 0 <= i < len ==> r@[i] == 0,
{
    let mut buffer: Vec<u16> = Vec::new();
    let mut i: usize = 0;
    while i < len
        invariant
            i <= len,
            buffer@.len() == i,
            forall|j: int| 0 <= j < i ==> buffer@[j] == 0,
        decreases len - i,
    {
        buffer.push(0);
        i = i + 1;
    }
    buffer
}

/// Interprets the outcome of `GetComputerNameExW`, whose convention is the
/// inverse of the POSIX one: a non-zero return code means success, and the
/// host name is extracted from the buffer; a zero return code means failure,
/// and the captured last-error code is surfaced unchanged.
///
/// `last_error` must be the error code captured immediately after the call.
pub fn resolve_computer_name(returncode: i32, last_error: i32, buffer: Vec<u16>) -> (r: Result<
    WideHostname,
    OsError,
>)
    ensures
        returncode != 0 ==> (r matches Ok(h) && h@ == extracted(buffer@)),
        returncode == 0 ==> (r matches Err(e) && e.code == last_error),
{
    if returncode != 0 {
        Ok(WideHostname::from_terminated(buffer))
    } else {
        Err(OsError { code: last_error })
    }
}

} // verus!

//! The wire protocol to the peripheral: the literal challenge, its expected
//! acknowledgement, the info request, and the reply normalisation (trimming)
//! that every received line goes through.
//!
//! The protocol is newline-terminated ASCII over a fixed-baud serial line:
//! the host writes `connect` and the device acknowledges with `connected`;
//! the host writes `read` and the device answers with one line of
//! comma-separated fields.

use vstd::prelude::*;

verus! {

/// The serial line's fixed baud rate.
pub const BAUD_RATE: u32 = 9600;

/// Bound, in milliseconds, on every read from the device.
pub const READ_TIMEOUT_MS: u64 = 1000;

/// The challenge line of the handshake (sent without its terminating newline
/// here; the transport appends it).
pub open spec fn spec_challenge() -> Seq<char> {
    "connect"@
}

/// The exact acknowledgement the device must answer a challenge with.
pub open spec fn spec_ack() -> Seq<char> {
    "connected"@
}

/// The request line that asks the device for its info record.
pub open spec fn spec_info_request() -> Seq<char> {
    "read"@
}

/// The challenge line of the handshake.
pub fn challenge() -> (r: &'static str)
    ensures
        r@ == spec_challenge(),
{
    "connect"
}

/// The exact acknowledgement the device must answer a challenge with.
pub fn ack() -> (r: &'static str)
    ensures
        r@ == spec_ack(),
{
    "connected"
}

/// The request line that asks the device for its info record.
pub fn info_request() -> (r: &'static str)
    ensures
        r@ == spec_info_request(),
{
    "read"
}

/// Whether a character is line whitespace: the blank characters that can
/// surround the payload of a newline-terminated ASCII line.
pub open spec fn spec_is_space(c: char) -> bool {
    c == ' ' || c == '\t' || c == '\r' || c == '\n'
}

/// Whether a character is line whitespace.
pub fn is_space(c: char) -> (r: bool)
    ensures
        r == spec_is_space(c),
{
    c == ' ' || c == '\t' || c == '\r' || c == '\n'
}

/// `s` without its leading line whitespace.
pub open spec fn spec_trim_start(s: Seq<char>) -> Seq<char>
    decreases s.len(),
{
    if s.len() == 0 {
        s
    } else if spec_is_space(s[0]) {
        spec_trim_start(s.drop_first())
    } else {
        s
    }
}

/// `s` without its trailing line whitespace.
pub open spec fn spec_trim_end(s: Seq<char>) -> Seq<char>
    decreases s.len(),
{
    if s.len() == 0 {
        s
    } else if spec_is_space(s.last()) {
        spec_trim_end(s.drop_last())
    } else {
        s
    }
}

/// `s` without leading and trailing line whitespace.
pub open spec fn spec_trim(s: Seq<char>) -> Seq<char> {
    spec_trim_end(spec_trim_start(s))
}

proof fn lemma_trim_start_subrange(s: Seq<char>, i: int)
    requires
        0 <= i <= s.len(),
        forall|j: int| 0 <= j < i ==> spec_is_space(s[j]),
        i < s.len() ==> !spec_is_space(s[i]),
    ensures
        spec_trim_start(s) == s.subrange(i, s.len() as int),
    decreases i,
{
    if i == 0 {
        assert(s.subrange(0, s.len() as int) =~= s);
    } else {
        let t = s.drop_first();
        assert(t =~= s.subrange(1, s.len() as int));
        lemma_trim_start_subrange(t, i - 1);
        assert(t.subrange(i - 1, t.len() as int) =~= s.subrange(i, s.len() as int));
    }
}

proof fn lemma_trim_end_subrange(t: Seq<char>, e: int)
    requires
        0 <= e <= t.len(),
        forall|k: int| e <= k < t.len() ==> spec_is_space(t[k]),
        e > 0 ==> !spec_is_space(t[e - 1]),
    ensures
        spec_trim_end(t) == t.subrange(0, e),
    decreases t.len(),
{
    if t.len() == e {
        assert(t.subrange(0, e) =~= t);
    } else {
        let u = t.drop_last();
        assert(u =~= t.subrange(0, t.len() - 1));
        lemma_trim_end_subrange(u, e);
        assert(u.subrange(0, e) =~= t.subrange(0, e));
    }
}

/// `s` without leading and trailing line whitespace, as [`spec_trim`] says.
pub fn trim(s: &str) -> (r: &str)
    ensures
        r@ == spec_trim(s@),
{
    let len = s.unicode_len();
    let mut start: usize = 0;
    while start < len && is_space(s.get_char(start))
        invariant
            0 <= start <= len == s@.len(),
            forall|j: int| 0 <= j < start ==> spec_is_space(s@[j]),
        decreases len - start,
    {
        start = start + 1;
    }
    let mut end: usize = len;
    while end > start && is_space(s.get_char(end - 1))
        invariant
            start <= end <= len == s@.len(),
            forall|j: int| 0 <= j < start ==> spec_is_space(s@[j]),
            forall|k: int| end <= k < len ==> spec_is_space(s@[k]),
        decreases end,
    {
        end = end - 1;
    }
    proof {
        lemma_trim_start_subrange(s@, start as int);
        let t = s@.subrange(start as int, s@.len() as int);
        lemma_trim_end_subrange(t, end - start);
        assert(t.subrange(0, end - start) =~= s@.subrange(start as int, end as int));
    }
    s.substring_char(start, end)
}

/// Whether two string slices hold the same characters.
pub fn str_eq(a: &str, b: &str) -> (r: bool)
    ensures
        r == (a@ == b@),
{
    let a_len = a.unicode_len();
    let b_len = b.unicode_len();
    if a_len != b_len {
        return false;
    }
    let mut i: usize = 0;
    while i < a_len
        invariant
            0 <= i <= a_len == a@.len(),
            a@.len() == b@.len(),
            forall|j: int| 0 <= j < i ==> a@[j] == b@[j],
        decreases a_len - i,
    {
        if a.get_char(i) != b.get_char(i) {
            return false;
        }
        i = i + 1;
    }
    proof {
        assert(a@ =~= b@);
    }
    true
}

/// Whether a received line, once trimmed, is exactly the acknowledgement.
///
/// This is the success test of one handshake attempt and of one health-check
/// probe: anything but the exact acknowledgement counts as a rejection.
pub fn is_ack(reply: &str) -> (r: bool)
    ensures
        r == (spec_trim(reply@) == spec_ack()),
{
    str_eq(trim(reply), ack())
}

} // verus!

//! Byte patterns anchored at the start or at the end of a buffer.

use vstd::prelude::*;

verus! {

/// The mathematical model of a [`Check`]: a byte sequence and an offset
/// from the anchor.
#[verifier::ext_equal]
pub struct CheckModel {
    pub bytes: Seq<u8>,
    pub offset: int,
}

/// One byte-matching rule: a required byte sequence and an offset from the
/// anchor (the anchor itself — start or end — is chosen by the caller).
///
/// A `Check` with an empty byte sequence is the null pattern: it matches
/// every buffer, whatever the buffer's length or the check's offset.
pub struct Check {
    pub bytes: Vec<u8>,
    pub offset: usize,
}

impl View for Check {
    type V = CheckModel;

    open spec fn view(&self) -> CheckModel {
        CheckModel { bytes: self.bytes@, offset: self.offset as int }
    }
}

/// Whether `c`, anchored at the start of `buf`, matches: the bytes of `buf`
/// from `c.offset` on begin with `c.bytes`. A reach past the end of `buf`
/// never matches; the null pattern always does.
pub open spec fn check_matches_start(c: CheckModel, buf: Seq<u8>) -> bool {
    ||| c.bytes.len() == 0
    ||| (0 <= c.offset && c.offset + c.bytes.len() <= buf.len()
        && buf.subrange(c.offset, c.offset + c.bytes.len()) == c.bytes)
}

/// Whether `c`, anchored at the end of `buf`, matches: after trimming the
/// final `c.offset` bytes of `buf`, what remains ends with `c.bytes`. A
/// reach past the start of `buf` never matches; the null pattern always does.
pub open spec fn check_matches_end(c: CheckModel, buf: Seq<u8>) -> bool {
    ||| c.bytes.len() == 0
    ||| (0 <= c.offset && c.offset + c.bytes.len() <= buf.len()
        && buf.subrange(
            buf.len() - c.offset - c.bytes.len(),
            buf.len() - c.offset,
        ) == c.bytes)
}

/// A non-null pattern whose required span exceeds the buffer cannot match at
/// the start: a short buffer is a silent mismatch, never a fault.
pub proof fn lemma_short_buffer_no_start_match(c: CheckModel, buf: Seq<u8>)
    requires
        c.bytes.len() > 0,
        buf.len() < c.offset + c.bytes.len(),
    ensures
        !check_matches_start(c, buf),
{
}

/// A non-null pattern whose required span exceeds the buffer cannot match at
/// the end either: truncation below the required reach fails the match.
pub proof fn lemma_short_buffer_no_end_match(c: CheckModel, buf: Seq<u8>)
    requires
        c.bytes.len() > 0,
        buf.len() < c.offset + c.bytes.len(),
    ensures
        !check_matches_end(c, buf),
{
}

/// A pattern with at least one required byte never matches the empty
/// buffer, at either anchor.
pub proof fn lemma_nonempty_no_match_on_empty(c: CheckModel, buf: Seq<u8>)
    requires
        c.bytes.len() > 0,
        buf.len() == 0,
    ensures
        !check_matches_start(c, buf),
        !check_matches_end(c, buf),
{
}

impl Check {
    /// The null pattern: no bytes required, so it matches everywhere.
    pub fn default() -> (r: Check)
        ensures
            r@.bytes == Seq::<u8>::empty(),
            r@.offset == 0,
    {
        Check { bytes: Vec::new(), offset: 0 }
    }

    /// A pattern requiring `bytes` directly at the anchor.
    pub fn new(bytes: &[u8]) -> (r: Check)
        ensures
            r@.bytes == bytes@,
            r@.offset == 0,
    {
        Self::new_with_offset(0, bytes)
    }

    /// A pattern requiring `bytes` at distance `offset` from the anchor.
    pub fn new_with_offset(offset: usize, bytes: &[u8]) -> (r: Check)
        ensures
            r@.bytes == bytes@,
            r@.offset == offset as int,
    {
        Check { bytes: vstd::slice::slice_to_vec(bytes), offset }
    }

    /// Whether this pattern, anchored at the start of `buf`, matches.
    pub fn matches_start(&self, buf: &[u8]) -> (r: bool)
        ensures
            r == check_matches_start(self@, buf@),
    {
        let n = self.bytes.len();
        if n == 0 {
            return true;
        }
        let m = buf.len();
        if self.offset > m || n > m - self.offset {
            return false;
        }
        let mut i: usize = 0;
        while i < n
            invariant
                n == self@.bytes.len(),
                m == buf@.len(),
                self@.offset + n <= m,
                0 <= i <= n,
                forall|j: int| 0 <= j < i ==> buf@[self@.offset + j] == self@.bytes[j],
            decreases n - i,
        {
            if buf[self.offset + i] != self.bytes[i] {
                assert(buf@.subrange(self@.offset, self@.offset + n as int)[i as int]
                    != self@.bytes[i as int]);
                return false;
            }
            i += 1;
        }
        assert(buf@.subrange(self@.offset, self@.offset + n as int) =~= self@.bytes);
        true
    }

    /// Whether this pattern, anchored at the end of `buf`, matches.
    pub fn matches_end(&self, buf: &[u8]) -> (r: bool)
        ensures
            r == check_matches_end(self@, buf@),
    {
        let n = self.bytes.len();
        if n == 0 {
            return true;
        }
        let m = buf.len();
        if self.offset > m || n > m - self.offset {
            return false;
        }
        let base = m - self.offset - n;
        let mut i: usize = 0;
        while i < n
            invariant
                n == self@.bytes.len(),
                m == buf@.len(),
                self@.offset + n <= m,
                base == buf@.len() - self@.offset - n,
                0 <= i <= n,
                forall|j: int| 0 <= j < i ==> buf@[base + j] == self@.bytes[j],
            decreases n - i,
        {
            if buf[base + i] != self.bytes[i] {
                assert(buf@.subrange(base as int, base + n as int)[i as int]
                    != self@.bytes[i as int]);
                return false;
            }
            i += 1;
        }
        assert(buf@.subrange(base as int, base + n as int) =~= self@.bytes);
        true
    }
}

impl Default for Check {
    fn default() -> (r: Check)
        ensures
            r@.bytes == Seq::<u8>::empty(),
            r@.offset == 0,
    {
        Check::default()
    }
}

/// The mathematical model of a [`Magic`]: its two pattern models.
#[verifier::ext_equal]
pub struct MagicModel {
    pub start: CheckModel,
    pub end: CheckModel,
}

/// One rule of the table: a start-anchored and an end-anchored pattern.
/// Either may be the null pattern, which is vacuously true; the rule
/// matches a buffer iff both patterns do.
pub struct Magic {
    pub start: Check,
    pub end: Check,
}

impl View for Magic {
    type V = MagicModel;

    open spec fn view(&self) -> MagicModel {
        MagicModel { start: self.start@, end: self.end@ }
    }
}

/// Whether rule `m` matches `buf`: its start pattern matches at the start
/// and its end pattern matches at the end.
pub open spec fn magic_matches(m: MagicModel, buf: Seq<u8>) -> bool {
    check_matches_start(m.start, buf) && check_matches_end(m.end, buf)
}

/// Truncating a buffer below the span that a rule's start pattern requires
/// makes the whole rule fail its match — silently, never with a fault.
pub proof fn lemma_truncated_start_fails_rule(m: MagicModel, buf: Seq<u8>)
    requires
        m.start.bytes.len() > 0,
        buf.len() < m.start.offset + m.start.bytes.len(),
    ensures
        !magic_matches(m, buf),
{
    lemma_short_buffer_no_start_match(m.start, buf);
}

/// Truncating a buffer below the span that a rule's end pattern requires
/// makes the whole rule fail its match — silently, never with a fault.
pub proof fn lemma_truncated_end_fails_rule(m: MagicModel, buf: Seq<u8>)
    requires
        m.end.bytes.len() > 0,
        buf.len() < m.end.offset + m.end.bytes.len(),
    ensures
        !magic_matches(m, buf),
{
    lemma_short_buffer_no_end_match(m.end, buf);
}

impl Magic {
    /// A rule that only requires `bytes` at the very start of the buffer.
    pub fn starts_with(bytes: &[u8]) -> (r: Magic)
        ensures
            r@.start.bytes == bytes@,
            r@.start.offset == 0,
            r@.end.bytes == Seq::<u8>::empty(),
            r@.end.offset == 0,
    {
        Magic { start: Check::new(bytes), end: Check::default() }
    }

    /// A rule that only requires `bytes` at `offset` from the buffer's start.
    pub fn starts_with_offset(offset: usize, bytes: &[u8]) -> (r: Magic)
        ensures
            r@.start.bytes == bytes@,
            r@.start.offset == offset as int,
            r@.end.bytes == Seq::<u8>::empty(),
            r@.end.offset == 0,
    {
        Magic { start: Check::new_with_offset(offset, bytes), end: Check::default() }
    }

    /// A rule that only requires the buffer to end with `bytes`.
    pub fn ends_with(bytes: &[u8]) -> (r: Magic)
        ensures
            r@.start.bytes == Seq::<u8>::empty(),
            r@.start.offset == 0,
            r@.end.bytes == bytes@,
            r@.end.offset == 0,
    {
        Magic { start: Check::default(), end: Check { bytes: vstd::slice::slice_to_vec(bytes), offset: 0 } }
    }

    /// Whether this rule matches `buf`.
    pub fn matches(&self, buf: &[u8]) -> (r: bool)
        ensures
            r == magic_matches(self@, buf@),
    {
        self.start.matches_start(buf) && self.end.matches_end(buf)
    }
}

} // verus!

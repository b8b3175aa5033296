use vstd::prelude::*;
use vstd::string::StringSliceAdditionalSpecFns;

verus! {

/// The formatting error of `core::fmt`, which a refused write returns.
#[verifier::external_type_specification]
#[verifier::external_body]
pub struct ExFmtError(core::fmt::Error);

/// Builds the unit value `core::fmt::Error`; it carries no data, so nothing
/// is stated of it.
#[verifier::external_body]
fn fmt_error() -> (e: core::fmt::Error) {
    core::fmt::Error
}

/// The bytes of a buffer after `bytes` were copied into it at `pos`.
pub open spec fn spliced(buf: Seq<u8>, pos: int, bytes: Seq<u8>) -> Seq<u8> {
    buf.subrange(0, pos) + bytes + buf.subrange(pos + bytes.len(), buf.len() as int)
}

/// A buffer of `n` zero bytes.
pub open spec fn zeros(n: nat) -> Seq<u8> {
    Seq::new(n, |i: int| 0u8)
}

/// Two writes in a row store the same bytes as one write of both texts
/// joined, and neither touches what lies before the first.
pub proof fn lemma_writes_concatenate(buf: Seq<u8>, pos: int, first: Seq<u8>, second: Seq<u8>)
    requires
        0 <= pos,
        pos + first.len() + second.len() <= buf.len(),
    ensures
        spliced(spliced(buf, pos, first), pos + first.len(), second) == spliced(
            buf,
            pos,
            first + second,
        ),
        spliced(buf, pos, first + second).subrange(0, pos) == buf.subrange(0, pos),
{
    assert(spliced(spliced(buf, pos, first), pos + first.len(), second) =~= spliced(
        buf,
        pos,
        first + second,
    ));
    assert(spliced(buf, pos, first + second).subrange(0, pos) =~= buf.subrange(0, pos));
}

/// Text written into a cleared buffer is followed by a zero byte, so the
/// buffer holds it as a NUL-terminated string.
pub proof fn lemma_cleared_write_terminated(n: nat, text: Seq<u8>)
    requires
        text.len() < n,
    ensures
        spliced(zeros(n), 0, text).len() == n,
        spliced(zeros(n), 0, text).subrange(0, text.len() as int) == text,
        spliced(zeros(n), 0, text)[text.len() as int] == 0,
{
    assert(spliced(zeros(n), 0, text).subrange(0, text.len() as int) =~= text);
}

/// A write cursor over a caller-provided byte buffer.
///
/// Text is appended at the cursor position; a write is accepted only when it
/// leaves at least one byte of the buffer unused after it.
pub struct Cursor<'a> {
    pub buf: &'a mut [u8],
    pos: usize,
}

impl<'a> Cursor<'a> {
    /// Where the next write starts.
    pub closed spec fn spec_position(&self) -> nat {
        self.pos as nat
    }

    /// The contents of the underlying buffer.
    pub closed spec fn contents(&self) -> Seq<u8> {
        self.buf@
    }

    /// The position lies within the buffer.
    pub closed spec fn wf(&self) -> bool {
        self.pos <= self.buf@.len()
    }

    /// Where the next write starts.
    pub fn position(&self) -> (p: usize)
        ensures
            p == self.spec_position(),
    {
        self.pos
    }

    /// Wraps `buf`, with the position at its start.
    pub fn new(buf: &'a mut [u8]) -> (c: Cursor<'a>)
        ensures
            c.wf(),
            c.spec_position() == 0,
            c.contents() == old(buf)@,
    {
        Cursor { buf, pos: 0 }
    }

    /// Zeroes the whole buffer and moves the position back to its start.
    pub fn clear(&mut self)
        ensures
            final(self).wf(),
            final(self).spec_position() == 0,
            final(self).contents() == zeros(old(self).contents().len()),
    {
        let n = self.buf.len();
        let mut i: usize = 0;
        while i < n
            invariant
                n == self.buf@.len(),
                n == old(self).buf@.len(),
                i <= n,
                forall|j: int| 0 <= j < i ==> self.buf@[j] == 0u8,
            decreases n - i,
        {
            self.buf[i] = 0;
            i = i + 1;
        }
        self.pos = 0;
        assert(self.buf@ =~= Seq::new(n as nat, |i: int| 0u8));
    }

    /// Appends the UTF-8 bytes of `s` at the position.
    ///
    /// The write is accepted only when the bytes fit with at least one byte of
    /// the buffer left unused after them; otherwise nothing changes and the
    /// error is returned.
    pub fn write_str(&mut self, s: &str) -> (r: Result<(), core::fmt::Error>)
        requires
            old(self).wf(),
        ensures
            final(self).wf(),
            r.is_ok() <==> s.spec_bytes().len() < old(self).contents().len() - old(self).spec_position(),
            r.is_ok() ==> final(self).contents() == spliced(
                old(self).contents(),
                old(self).spec_position() as int,
                s.spec_bytes(),
            ),
            r.is_ok() ==> final(self).spec_position() == old(self).spec_position() + s.spec_bytes().len(),
            r.is_ok() ==> final(self).spec_position() < final(self).contents().len(),
            r.is_err() ==> final(self).contents() == old(self).contents(),
            r.is_err() ==> final(self).spec_position() == old(self).spec_position(),
    {
        let bytes = s.as_bytes();
        let len = bytes.len();
        if len < self.buf.len() - self.pos {
            let start = self.pos;
            let ghost before = self.buf@;
            let mut i: usize = 0;
            while i < len
                invariant
                    len == bytes@.len(),
                    start + len < self.buf@.len(),
                    self.buf@.len() == self.buf.len(),
                    self.buf@.len() == before.len(),
                    i <= len,
                    forall|j: int| 0 <= j < start ==> self.buf@[j] == before[j],
                    forall|j: int| start + len <= j < before.len() ==> self.buf@[j] == before[j],
                    forall|j: int| 0 <= j < i ==> self.buf@[start + j] == bytes@[j],
                    forall|j: int| start + i <= j < start + len ==> self.buf@[j] == before[j],
                decreases len - i,
            {
                self.buf[start + i] = bytes[i];
                i = i + 1;
            }
            self.pos = start + len;
            assert(self.buf@ =~= spliced(before, start as int, bytes@));
            Ok(())
        } else {
            Err(fmt_error())
        }
    }
}

} // verus!

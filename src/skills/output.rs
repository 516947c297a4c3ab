//! Bounded capture of a child process's output.

use std::time::Duration;
use vstd::prelude::*;

verus! {

/// Ceiling of bytes kept from one stream of an inline execution (10 MiB).
pub const MAX_OUTPUT_SIZE: usize = 10 * 1024 * 1024;

/// What a text ends with when its stream was cut at the ceiling.
pub const TRUNCATION_NOTICE: &'static str = "\n[Output truncated - exceeded 10MB limit]";

/// What `String::from_utf8_lossy` makes of a byte sequence.
pub uninterp spec fn lossy_text_of(bytes: Seq<u8>) -> Seq<char>;

/// Relies on `String::from_utf8_lossy`: decodes UTF-8, replacing each invalid
/// sequence with U+FFFD; the text depends on the bytes alone, and no bytes
/// give the empty text.
#[verifier::external_body]
fn lossy_text(bytes: &[u8]) -> (r: String)
    ensures
        r@ == lossy_text_of(bytes@),
        bytes@.len() == 0 ==> r@.len() == 0,
{
    String::from_utf8_lossy(bytes).into_owned()
}

/// Relies on `Duration`'s `Clone`, which copies (the type is `Copy`).
pub assume_specification[ <Duration as Clone>::clone ](d: &Duration) -> (r: Duration)
    ensures
        r == *d,
;

/// Captured result of an inline execution.
#[derive(Debug, Clone, PartialEq)]
pub struct SkillOutput {
    pub stdout: String,
    pub stderr: String,
    /// Absent when the process ended without an exit code (killed by a signal).
    pub exit_code: Option<i32>,
    pub truncated: bool,
    pub execution_time: Duration,
}

/// Byte accumulator with a fixed ceiling; bytes past the ceiling are dropped
/// and the truncation flag is raised.
#[derive(Debug, Clone)]
pub struct OutputBuffer {
    buffer: Vec<u8>,
    truncated: bool,
    size_limit: usize,
}

/// Bytes that `append` keeps: all of `data` if it fits under `limit`, else
/// the prefix that fills the buffer up to `limit`.
pub open spec fn appended(old_bytes: Seq<u8>, data: Seq<u8>, limit: nat) -> Seq<u8> {
    if old_bytes.len() >= limit {
        old_bytes
    } else if data.len() <= limit - old_bytes.len() {
        old_bytes + data
    } else {
        old_bytes + data.take(limit - old_bytes.len())
    }
}

impl OutputBuffer {
    /// The bytes held.
    pub closed spec fn bytes(&self) -> Seq<u8> {
        self.buffer@
    }

    /// Whether bytes have been dropped.
    pub closed spec fn was_truncated(&self) -> bool {
        self.truncated
    }

    /// The ceiling the buffer was made with.
    pub closed spec fn limit(&self) -> nat {
        self.size_limit as nat
    }

    /// The buffer never holds more than its ceiling.
    pub closed spec fn wf(&self) -> bool {
        self.buffer@.len() <= self.size_limit
    }

    /// A buffer with the default ceiling of `MAX_OUTPUT_SIZE` bytes.
    pub fn new() -> (r: Self)
        ensures
            r.wf(),
            r.bytes() == Seq::<u8>::empty(),
            !r.was_truncated(),
            r.limit() == MAX_OUTPUT_SIZE,
    {
        Self::with_limit(MAX_OUTPUT_SIZE)
    }

    /// A buffer with the given ceiling.
    pub fn with_limit(size_limit: usize) -> (r: Self)
        ensures
            r.wf(),
            r.bytes() == Seq::<u8>::empty(),
            !r.was_truncated(),
            r.limit() == size_limit,
    {
        OutputBuffer { buffer: Vec::new(), truncated: false, size_limit }
    }

    /// Appends what fits of `data`; raises the truncation flag when bytes are
    /// dropped, or when the buffer was already full.
    pub fn append(&mut self, data: &[u8])
        requires
            old(self).wf(),
        ensures
            final(self).wf(),
            final(self).limit() == old(self).limit(),
            final(self).bytes() == appended(old(self).bytes(), data@, old(self).limit()),
            final(self).was_truncated() == (old(self).was_truncated() || old(self).bytes().len()
                >= old(self).limit() || data@.len() > old(self).limit() - old(self).bytes().len()),
    {
        if self.buffer.len() >= self.size_limit {
            self.truncated = true;
            return;
        }
        let remaining: usize = self.size_limit - self.buffer.len();
        let take: usize = if data.len() <= remaining {
            data.len()
        } else {
            remaining
        };
        let ghost start = self.buffer@;
        let mut i: usize = 0;
        while i < take
            invariant
                i <= take <= data@.len(),
                take <= remaining,
                remaining == self.size_limit - start.len(),
                self.buffer@ == start + data@.take(i as int),
                self.truncated == old(self).truncated,
                self.size_limit == old(self).size_limit,
            decreases take - i,
        {
            self.buffer.push(data[i]);
            i = i + 1;
            assert(self.buffer@ =~= start + data@.take(i as int));
        }
        if data.len() > remaining {
            self.truncated = true;
        } else {
            assert(data@.take(take as int) =~= data@);
        }
    }

    /// The bytes as text, invalid UTF-8 replaced by U+FFFD.
    pub fn to_string(&self) -> (r: String)
        ensures
            r@ == lossy_text_of(self.bytes()),
    {
        lossy_text(self.buffer.as_slice())
    }

    pub fn is_truncated(&self) -> (r: bool)
        ensures
            r == self.was_truncated(),
    {
        self.truncated
    }

    pub fn is_empty(&self) -> (r: bool)
        ensures
            r == (self.bytes().len() == 0),
    {
        self.buffer.len() == 0
    }

    pub fn len(&self) -> (r: usize)
        ensures
            r == self.bytes().len(),
    {
        self.buffer.len()
    }
}

impl Default for OutputBuffer {
    fn default() -> (r: Self)
        ensures
            r.wf(),
            r.bytes() == Seq::<u8>::empty(),
            !r.was_truncated(),
            r.limit() == MAX_OUTPUT_SIZE,
    {
        Self::new()
    }
}

/// Captured text of one stream: its bytes as text, with the truncation
/// notice after it when bytes were dropped.
pub open spec fn captured_text(bytes: Seq<u8>, truncated: bool) -> Seq<char> {
    if truncated {
        lossy_text_of(bytes) + TRUNCATION_NOTICE@
    } else {
        lossy_text_of(bytes)
    }
}

/// The text of one drained stream, with the notice appended if it was cut.
fn stream_text(buffer: &OutputBuffer) -> (r: String)
    ensures
        r@ == captured_text(buffer.bytes(), buffer.was_truncated()),
{
    let mut text = buffer.to_string();
    if buffer.is_truncated() {
        text.append(TRUNCATION_NOTICE);
    }
    text
}

impl SkillOutput {
    /// The result of an inline execution whose two streams were drained into
    /// `stdout` and `stderr`.
    pub fn from_capture(
        stdout: &OutputBuffer,
        stderr: &OutputBuffer,
        exit_code: Option<i32>,
        execution_time: Duration,
    ) -> (r: SkillOutput)
        ensures
            r.stdout@ == captured_text(stdout.bytes(), stdout.was_truncated()),
            r.stderr@ == captured_text(stderr.bytes(), stderr.was_truncated()),
            r.exit_code == exit_code,
            r.truncated == (stdout.was_truncated() || stderr.was_truncated()),
            r.execution_time == execution_time,
    {
        SkillOutput {
            stdout: stream_text(stdout),
            stderr: stream_text(stderr),
            exit_code,
            truncated: stdout.is_truncated() || stderr.is_truncated(),
            execution_time,
        }
    }
}

/// Once a buffer holds its ceiling, appending leaves its bytes as they are.
pub proof fn lemma_full_buffer_keeps_bytes(held: Seq<u8>, data: Seq<u8>, limit: nat)
    requires
        held.len() >= limit,
    ensures
        appended(held, data, limit) == held,
{
}

/// Appending never takes the buffer past its ceiling.
pub proof fn lemma_appended_within_limit(held: Seq<u8>, data: Seq<u8>, limit: nat)
    requires
        held.len() <= limit,
    ensures
        appended(held, data, limit).len() <= limit,
{
}

} // verus!

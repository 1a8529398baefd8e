//! Decoded audio payloads and their pull cursors.
//!
//! An [`AmbisonicSample`] owns a finite run of decoded mono samples, stored
//! as the bit patterns of 32-bit floating-point values, together with the
//! format metadata of the source it was decoded from.  Reading happens
//! through the built-in cursor: `next` returns one sample per call, either
//! until the buffer is exhausted or, for a repeating buffer, forever.

use vstd::arithmetic::div_mod::lemma_add_mod_noop;
use vstd::arithmetic::div_mod::lemma_add_mod_noop_right;
use vstd::arithmetic::div_mod::lemma_small_mod;
use vstd::prelude::*;

verus! {

/// Upper bound on how many samples one decode consumes from its source.
pub const SAMPLE_CAP: usize = 65535;

/// Format metadata handed over by a decoded source: copied through
/// unchanged into the buffer, never interpreted here.
#[derive(Clone, Copy)]
pub struct SourceFormat {
    /// Number of samples left in the source's current frame, if known.
    pub current_frame_len: Option<usize>,
    /// Samples per second.
    pub sample_rate: u32,
    /// Total playing time of the source in microseconds, if known.
    pub total_duration_micros: Option<u64>,
}

/// A pull sequence of raw samples, as the decoder adapter consumes it:
/// either a finite run or an endless periodic waveform.
pub enum SampleStream<T> {
    /// Yields the items once, in order, then ends.
    Finite(Vec<T>),
    /// Cycles through the items forever; empty items yield nothing.
    Periodic(Vec<T>),
}

impl<T> SampleStream<T> {
    /// The underlying items of the stream.
    pub open spec fn items(self) -> Seq<T> {
        match self {
            SampleStream::Finite(v) => v@,
            SampleStream::Periodic(v) => v@,
        }
    }

    /// Whether the stream still yields an `i`-th sample (counting from 0).
    pub open spec fn has_nth(self, i: int) -> bool {
        match self {
            SampleStream::Finite(v) => 0 <= i < v@.len(),
            SampleStream::Periodic(v) => 0 <= i && v@.len() > 0,
        }
    }

    /// The `i`-th sample the stream yields.
    pub open spec fn nth(self, i: int) -> T
        recommends
            self.has_nth(i),
    {
        match self {
            SampleStream::Finite(v) => v@[i],
            SampleStream::Periodic(v) => v@[i % (v@.len() as int)],
        }
    }

    /// How many samples a bounded drain of at most `cap` samples yields.
    pub open spec fn drained_len(self, cap: nat) -> nat {
        match self {
            SampleStream::Finite(v) => if v@.len() <= cap {
                v@.len()
            } else {
                cap
            },
            SampleStream::Periodic(v) => if v@.len() == 0 {
                0
            } else {
                cap
            },
        }
    }
}

/// Bit pattern of a 16-bit sample normalized to floating range: the
/// sample divided by the maximum representable 16-bit magnitude, so the
/// result never exceeds one in magnitude.
pub uninterp spec fn norm_bits_of(x: i16) -> u32;

/// Relies on core's IEEE floating-point division: the quotient of a
/// 16-bit sample by the maximum representable 16-bit magnitude depends on
/// the sample alone.  The two-lane vector only carries the operands
/// converted to floating point; the division itself is the scalar one.
#[verifier::external_body]
fn normalize_i16(x: i16) -> (r: u32)
    ensures
        r == norm_bits_of(x),
{
    let v = glam::Vec2::new(x.into(), 32768u16.into());
    (v.x / v.y).to_bits()
}

/// Drain at most `SAMPLE_CAP` samples out of a stream, in order.
fn collect_capped<T: Copy>(stream: &SampleStream<T>) -> (out: Vec<T>)
    ensures
        out@.len() == stream.drained_len(SAMPLE_CAP as nat),
        forall|i: int| 0 <= i < out@.len() ==> out@[i] == stream.nth(i),
{
    let n: usize = match stream {
        SampleStream::Finite(v) => if v.len() <= SAMPLE_CAP {
            v.len()
        } else {
            SAMPLE_CAP
        },
        SampleStream::Periodic(v) => if v.len() > 0 {
            SAMPLE_CAP
        } else {
            0
        },
    };
    let mut out: Vec<T> = Vec::new();
    let mut i: usize = 0;
    while i < n
        invariant
            i <= n,
            n == stream.drained_len(SAMPLE_CAP as nat),
            out@.len() == i,
            forall|j: int| 0 <= j < i ==> out@[j] == stream.nth(j),
            forall|j: int| 0 <= j < n ==> stream.has_nth(j),
        decreases n - i,
    {
        let s = stream.sample_at(i);
        out.push(s.unwrap());
        i = i + 1;
    }
    out
}

impl<T: Copy> SampleStream<T> {
    /// The `i`-th sample, if the stream still yields one.
    fn sample_at(&self, i: usize) -> (r: Option<T>)
        ensures
            r == if self.has_nth(i as int) {
                Some(self.nth(i as int))
            } else {
                None::<T>
            },
    {
        match self {
            SampleStream::Finite(v) => if i < v.len() {
                Some(v[i])
            } else {
                None
            },
            SampleStream::Periodic(v) => if v.len() > 0 {
                Some(v[i % v.len()])
            } else {
                None
            },
        }
    }
}

/// Law: a decode never produces more than `SAMPLE_CAP` samples, and a
/// source that still yields samples beyond the cap — an endless periodic
/// waveform in particular — fills the buffer to exactly the cap.
pub proof fn lemma_decode_caps<T>(stream: SampleStream<T>)
    ensures
        stream.drained_len(SAMPLE_CAP as nat) <= SAMPLE_CAP,
        stream.has_nth(SAMPLE_CAP as int) ==> stream.drained_len(SAMPLE_CAP as nat)
            == SAMPLE_CAP,
{
}

/// A decoded, immutable run of mono samples with a built-in read cursor.
///
/// `data` holds the bit patterns of the decoded 32-bit floating-point
/// samples and is never changed after construction; only `current_index`
/// moves as the cursor reads.  A clone is an independent cursor over the
/// same payload; live voices never share one.
#[derive(Clone)]
pub struct AmbisonicSample {
    data: Vec<u32>,
    current_frame_len: Option<usize>,
    sample_rate: u32,
    total_duration_micros: Option<u64>,
    repeat: bool,
    current_index: usize,
}

/// The value one `next` call returns on a cursor over samples `data`
/// (with repeat flag `repeat`) standing at position `pos`.
pub open spec fn read_at(data: Seq<u32>, repeat: bool, pos: nat) -> Option<u32> {
    let len = data.len() as int;
    if repeat {
        if len == 0 {
            None
        } else if pos >= len {
            Some(data[0])
        } else {
            Some(data[pos as int])
        }
    } else {
        if pos < len {
            Some(data[pos as int])
        } else {
            None
        }
    }
}

/// The cursor position after one `next` call at position `pos`.
pub open spec fn index_after(data: Seq<u32>, repeat: bool, pos: nat) -> nat {
    let len = data.len();
    if repeat {
        if len == 0 {
            0
        } else if pos >= len {
            1
        } else {
            pos + 1
        }
    } else {
        if pos < len {
            pos + 1
        } else {
            pos
        }
    }
}

/// The value the `k`-th of a run of `next` calls returns, for a cursor
/// starting at position `pos` (`k` counts from 0).
pub open spec fn nth_read(data: Seq<u32>, repeat: bool, pos: nat, k: nat) -> Option<u32>
    decreases k,
{
    if k == 0 {
        read_at(data, repeat, pos)
    } else {
        nth_read(data, repeat, index_after(data, repeat, pos), (k - 1) as nat)
    }
}

impl AmbisonicSample {
    /// The decoded samples, as floating-point bit patterns.
    pub closed spec fn samples(self) -> Seq<u32> {
        self.data@
    }

    /// Whether the cursor restarts from the beginning on reaching the end.
    pub closed spec fn spec_repeat(self) -> bool {
        self.repeat
    }

    /// Current cursor position.
    pub closed spec fn spec_index(self) -> nat {
        self.current_index as nat
    }

    /// Frame-length hint copied from the source.
    pub closed spec fn spec_current_frame_len(self) -> Option<usize> {
        self.current_frame_len
    }

    /// Sample rate copied from the source.
    pub closed spec fn spec_sample_rate(self) -> u32 {
        self.sample_rate
    }

    /// Total duration copied from the source, in microseconds.
    pub closed spec fn spec_total_duration_micros(self) -> Option<u64> {
        self.total_duration_micros
    }

    /// Everything but the cursor position agrees between `self` and `other`.
    pub open spec fn same_payload(self, other: AmbisonicSample) -> bool {
        &&& self.samples() == other.samples()
        &&& self.spec_repeat() == other.spec_repeat()
        &&& self.spec_current_frame_len() == other.spec_current_frame_len()
        &&& self.spec_sample_rate() == other.spec_sample_rate()
        &&& self.spec_total_duration_micros() == other.spec_total_duration_micros()
    }

    /// Pull one sample.  A repeating buffer wraps to the start on reaching
    /// the end and so never runs dry; a non-repeating one is exhausted for
    /// good once the cursor has passed the last sample.
    pub fn next(&mut self) -> (r: Option<u32>)
        ensures
            r == read_at(old(self).samples(), old(self).spec_repeat(), old(self).spec_index()),
            final(self).same_payload(*old(self)),
            final(self).spec_index() == index_after(
                old(self).samples(),
                old(self).spec_repeat(),
                old(self).spec_index(),
            ),
    {
        if self.repeat && self.current_index >= self.data.len() {
            self.current_index = 0;
        }
        if self.current_index >= self.data.len() {
            None
        } else {
            let result = self.data[self.current_index];
            self.current_index = self.current_index + 1;
            Some(result)
        }
    }

    /// Decode a stream of floating-point samples, given as bit patterns:
    /// drains at most `SAMPLE_CAP` samples eagerly, copies the format
    /// metadata through unchanged, and leaves the cursor at the start.
    pub fn from_source_f32(stream: SampleStream<u32>, format: SourceFormat, repeat: bool) -> (s:
        Self)
        ensures
            s.samples().len() == stream.drained_len(SAMPLE_CAP as nat),
            forall|i: int| 0 <= i < s.samples().len() ==> s.samples()[i] == stream.nth(i),
            s.spec_repeat() == repeat,
            s.spec_index() == 0,
            s.spec_current_frame_len() == format.current_frame_len,
            s.spec_sample_rate() == format.sample_rate,
            s.spec_total_duration_micros() == format.total_duration_micros,
    {
        let data = collect_capped(&stream);
        AmbisonicSample {
            data,
            current_frame_len: format.current_frame_len,
            sample_rate: format.sample_rate,
            total_duration_micros: format.total_duration_micros,
            repeat,
            current_index: 0,
        }
    }

    /// Decode a stream of 16-bit integer samples: as `from_source_f32`,
    /// with every sample first normalized to floating range by division
    /// by the maximum representable 16-bit magnitude.
    pub fn from_source_i16(stream: SampleStream<i16>, format: SourceFormat, repeat: bool) -> (s:
        Self)
        ensures
            s.samples().len() == stream.drained_len(SAMPLE_CAP as nat),
            forall|i: int| 0 <= i < s.samples().len() ==> s.samples()[i] == norm_bits_of(
                stream.nth(i),
            ),
            s.spec_repeat() == repeat,
            s.spec_index() == 0,
            s.spec_current_frame_len() == format.current_frame_len,
            s.spec_sample_rate() == format.sample_rate,
            s.spec_total_duration_micros() == format.total_duration_micros,
    {
        let raw = collect_capped(&stream);
        let mut data: Vec<u32> = Vec::new();
        let mut i: usize = 0;
        while i < raw.len()
            invariant
                i <= raw@.len(),
                data@.len() == i,
                forall|j: int| 0 <= j < i ==> data@[j] == norm_bits_of(raw@[j]),
            decreases raw@.len() - i,
        {
            data.push(normalize_i16(raw[i]));
            i = i + 1;
        }
        AmbisonicSample {
            data,
            current_frame_len: format.current_frame_len,
            sample_rate: format.sample_rate,
            total_duration_micros: format.total_duration_micros,
            repeat,
            current_index: 0,
        }
    }

    /// Number of decoded samples.
    pub fn len(&self) -> (n: usize)
        ensures
            n == self.samples().len(),
    {
        self.data.len()
    }

    /// Frame-length hint of the source this buffer was decoded from.
    pub fn current_frame_len(&self) -> (r: Option<usize>)
        ensures
            r == self.spec_current_frame_len(),
    {
        self.current_frame_len
    }

    /// Channel count of the decoded payload: always mono.
    pub fn channels(&self) -> (r: u16)
        ensures
            r == 1u16,
    {
        1
    }

    /// Sample rate of the decoded payload, in samples per second.
    pub fn sample_rate(&self) -> (r: u32)
        ensures
            r == self.spec_sample_rate(),
    {
        self.sample_rate
    }

    /// Total duration copied from the source, in microseconds, if known.
    pub fn total_duration_micros(&self) -> (r: Option<u64>)
        ensures
            r == self.spec_total_duration_micros(),
    {
        self.total_duration_micros
    }
}

/// Law: a cursor over a non-repeating buffer of `n` samples, started at
/// position 0, yields exactly those `n` samples in order, and every later
/// call reports exhaustion again.
pub proof fn lemma_nonrepeating_cursor(data: Seq<u32>, k: nat)
    ensures
        nth_read(data, false, 0, k) == if k < data.len() {
            Some(data[k as int])
        } else {
            None::<u32>
        },
{
    lemma_nonrepeating_cursor_from(data, 0, k);
}

proof fn lemma_nonrepeating_cursor_from(data: Seq<u32>, pos: nat, k: nat)
    ensures
        nth_read(data, false, pos, k) == if pos + k < data.len() {
            Some(data[(pos + k) as int])
        } else {
            None::<u32>
        },
    decreases k,
{
    if k > 0 {
        lemma_nonrepeating_cursor_from(data, index_after(data, false, pos), (k - 1) as nat);
    }
}

/// Law: a cursor over a non-empty repeating buffer never runs dry; its
/// `k`-th call (counting from 0, for a cursor started at position 0)
/// yields the sample at index `k` modulo the buffer length.
pub proof fn lemma_repeating_cursor(data: Seq<u32>, k: nat)
    requires
        data.len() > 0,
    ensures
        nth_read(data, true, 0, k) == Some(data[(k as int) % (data.len() as int)]),
{
    lemma_repeating_cursor_from(data, 0, k);
}

proof fn lemma_repeating_cursor_from(data: Seq<u32>, pos: nat, k: nat)
    requires
        data.len() > 0,
    ensures
        nth_read(data, true, pos, k) == ({
            let len = data.len() as int;
            let eff: int = if pos >= len {
                0
            } else {
                pos as int
            };
            Some(data[(eff + k) % len])
        }),
    decreases k,
{
    let len = data.len() as int;
    let eff: int = if pos >= len {
        0
    } else {
        pos as int
    };
    if k == 0 {
        lemma_small_mod(eff as nat, data.len());
    } else {
        let pos2 = index_after(data, true, pos);
        lemma_repeating_cursor_from(data, pos2, (k - 1) as nat);
        let eff2: int = if pos2 >= len {
            0
        } else {
            pos2 as int
        };
        if eff + 1 == len {
            assert(eff2 == (eff + 1) % len) by {
                vstd::arithmetic::div_mod::lemma_mod_self_0(len);
            }
        } else {
            lemma_small_mod((eff + 1) as nat, data.len());
        }
        assert((eff2 + (k - 1)) % len == (eff + k) % len) by {
            lemma_add_mod_noop(eff + 1, k - 1, len);
            lemma_add_mod_noop_right(eff2, k - 1, len);
        }
    }
}

} // verus!

//! Audio-source logic on the PCM bus (mono at 16 kHz): errors, capture
//! targets, chunked delivery of decoded files and the push queue fed by
//! external callbacks. Sources are generic over the sample type.

use vstd::prelude::*;
use std::collections::VecDeque;
use crate::text::copy_str;

verus! {

/// Sample rate of the PCM bus.
pub const PCM_SAMPLE_RATE: u32 = 16_000;

/// Channel count of the PCM bus.
pub const PCM_CHANNELS: u16 = 1;

/// Default chunk of a push source: 100 ms at 16 kHz.
pub const DEFAULT_CHUNK_SAMPLES: usize = 1600;

/// Failure of an audio source.
#[derive(Debug)]
pub enum AudioError {
    PipeWire(String),
    Closed,
    Other(String),
}

/// Capture target of a PipeWire source.
#[derive(Debug, Clone, Copy, PartialEq, Eq, Structural)]
pub enum SourceKind {
    /// Default input (microphone).
    Mic,
    /// Default sink monitor (system mix).
    Monitor,
}

impl SourceKind {
    pub open spec fn key(self) -> Seq<char> {
        match self {
            SourceKind::Mic => "mic"@,
            SourceKind::Monitor => "monitor"@,
        }
    }

    pub fn as_str(self) -> (r: &'static str)
        ensures
            r@ == self.key(),
    {
        match self {
            SourceKind::Mic => "mic",
            SourceKind::Monitor => "monitor",
        }
    }
}

/// A decoded audio file delivered in chunks of at most `chunk_samples`.
pub struct WavFileSource<S> {
    name: String,
    samples: Vec<S>,
    pos: usize,
    chunk_samples: usize,
}

/// The chunk a pull delivers from position `pos`.
pub open spec fn chunk_at<S>(samples: Seq<S>, pos: nat, chunk: nat) -> Seq<S> {
    if pos >= samples.len() {
        Seq::empty()
    } else if pos + chunk <= samples.len() {
        samples.subrange(pos as int, (pos + chunk) as int)
    } else {
        samples.subrange(pos as int, samples.len() as int)
    }
}

/// Everything that repeated pulls deliver from position `pos` on.
pub open spec fn delivered_from<S>(samples: Seq<S>, pos: nat, chunk: nat) -> Seq<S>
    decreases samples.len() - pos,
{
    if pos >= samples.len() || chunk == 0 {
        Seq::empty()
    } else if pos + chunk < samples.len() {
        chunk_at(samples, pos, chunk) + delivered_from(samples, pos + chunk, chunk)
    } else {
        chunk_at(samples, pos, chunk)
    }
}


impl<S: Copy> WavFileSource<S> {
    pub closed spec fn spec_samples(&self) -> Seq<S> {
        self.samples@
    }

    pub closed spec fn spec_pos(&self) -> nat {
        self.pos as nat
    }

    pub closed spec fn spec_chunk(&self) -> nat {
        self.chunk_samples as nat
    }

    pub closed spec fn spec_name(&self) -> Seq<char> {
        self.name@
    }

    pub closed spec fn wf(&self) -> bool {
        self.chunk_samples >= 1 && self.pos <= self.samples@.len()
    }

    /// A source over decoded bus samples of the file at `path`, delivering
    /// the whole file in one pull unless a chunk size is set.
    pub fn from_samples(path: &str, samples: Vec<S>) -> (r: Self)
        ensures
            r.wf(),
            r.spec_name() == "file:"@ + path@,
            r.spec_samples() == samples@,
            r.spec_pos() == 0,
            r.spec_chunk() == if samples@.len() > 0 { samples@.len() } else { 1 },
    {
        let n = if samples.len() > 0 { samples.len() } else { 1 };
        let mut name = String::from_str("file:");
        name.append(path);
        WavFileSource { name, samples, pos: 0, chunk_samples: n }
    }

    /// Limits each pull to at most `n` samples (at least one).
    pub fn with_chunk_samples(self, n: usize) -> (r: Self)
        requires
            self.wf(),
        ensures
            r.wf(),
            r.spec_chunk() == if n > 0 { n as nat } else { 1 },
            r.spec_samples() == self.spec_samples(),
            r.spec_pos() == self.spec_pos(),
            r.spec_name() == self.spec_name(),
    {
        let mut s = self;
        s.chunk_samples = if n > 0 { n } else { 1 };
        s
    }

    /// The path as given.
    pub fn path_name(path: &str) -> (r: String)
        ensures
            r@ == path@,
    {
        copy_str(path)
    }

    pub fn len_samples(&self) -> (r: usize)
        ensures
            r == self.spec_samples().len(),
    {
        self.samples.len()
    }

    pub fn name(&self) -> (r: &str)
        ensures
            r@ == self.spec_name(),
    {
        self.name.as_str()
    }

    /// The next chunk; empty once the file is exhausted.
    pub fn pull(&mut self) -> (r: Result<Vec<S>, AudioError>)
        requires
            old(self).wf(),
        ensures
            final(self).wf(),
            r matches Ok(c) && c@ == chunk_at(old(self).spec_samples(), old(self).spec_pos(), old(self).spec_chunk()),
            final(self).spec_pos() == if old(self).spec_pos() + old(self).spec_chunk() <= old(self).spec_samples().len() {
                old(self).spec_pos() + old(self).spec_chunk()
            } else {
                old(self).spec_samples().len()
            },
            final(self).spec_samples() == old(self).spec_samples(),
            final(self).spec_chunk() == old(self).spec_chunk(),
            final(self).spec_name() == old(self).spec_name(),
    {
        if self.pos >= self.samples.len() {
            return Ok(Vec::new());
        }
        let end = if self.chunk_samples <= self.samples.len() - self.pos {
            self.pos + self.chunk_samples
        } else {
            self.samples.len()
        };
        let mut out: Vec<S> = Vec::new();
        let mut i = self.pos;
        while i < end
            invariant
                self.pos <= i <= end <= self.samples.len(),
                out@ == self.samples@.subrange(self.pos as int, i as int),
            decreases end - i,
        {
            out.push(self.samples[i]);
            i += 1;
            assert(out@ =~= self.samples@.subrange(self.pos as int, i as int));
        }
        self.pos = end;
        Ok(out)
    }
}

/// Pulling until the source is exhausted delivers every remaining sample
/// once, in order.
pub proof fn lemma_pulls_deliver_all<S>(samples: Seq<S>, pos: nat, chunk: nat)
    requires
        chunk >= 1,
        pos <= samples.len(),
    ensures
        delivered_from(samples, pos, chunk) == samples.skip(pos as int),
    decreases samples.len() - pos,
{
    if pos >= samples.len() {
        assert(samples.skip(pos as int) =~= Seq::<S>::empty());
    } else if pos + chunk < samples.len() {
        lemma_pulls_deliver_all(samples, pos + chunk, chunk);
        assert(samples.subrange(pos as int, (pos + chunk) as int) + samples.skip((pos + chunk) as int)
            =~= samples.skip(pos as int));
    } else {
        assert(chunk_at(samples, pos, chunk) =~= samples.skip(pos as int));
    }
}

/// What a pull of a push source does, given the queue's state.
#[derive(Debug, Clone, Copy, PartialEq, Eq, Structural)]
pub enum PullStep {
    /// Hand out this many queued samples.
    Take(usize),
    /// The stream has ended.
    EndOfStream,
    /// Hand out this many samples of silence.
    Silence(usize),
    /// Wait for more samples (or a timeout) and decide again.
    Wait,
}

/// The step of a pull before waiting: a full chunk when one is queued;
/// once closed, what is left (or the end); otherwise wait.
pub open spec fn pull_step_spec(queued: nat, chunk: nat, closed: bool) -> PullStep {
    if queued >= chunk {
        PullStep::Take(chunk as usize)
    } else if closed {
        if queued == 0 { PullStep::EndOfStream } else { PullStep::Take(queued as usize) }
    } else {
        PullStep::Wait
    }
}

/// The step of a pull after a wait timed out: what is queued (up to a
/// chunk), else the end when closed, else a chunk of silence.
pub open spec fn timeout_step_spec(queued: nat, chunk: nat, closed: bool) -> PullStep {
    if queued == 0 {
        if closed { PullStep::EndOfStream } else { PullStep::Silence(chunk as usize) }
    } else if queued < chunk {
        PullStep::Take(queued as usize)
    } else {
        PullStep::Take(chunk as usize)
    }
}

/// The queue behind a push source: samples pushed by callbacks and handed
/// out in chunks, first in first out.
pub struct SampleQueue<S> {
    queue: VecDeque<S>,
    chunk_samples: usize,
    closed: bool,
}

impl<S: Copy> View for SampleQueue<S> {
    type V = Seq<S>;

    closed spec fn view(&self) -> Seq<S> {
        self.queue@
    }
}

impl<S: Copy> SampleQueue<S> {
    pub closed spec fn spec_chunk(&self) -> nat {
        self.chunk_samples as nat
    }

    pub closed spec fn spec_closed(&self) -> bool {
        self.closed
    }

    pub closed spec fn wf(&self) -> bool {
        self.chunk_samples >= 1
    }

    /// An open, empty queue handing out chunks of `chunk_samples` (at least one).
    pub fn with_chunk_samples(chunk_samples: usize) -> (r: Self)
        ensures
            r.wf(),
            r@.len() == 0,
            !r.spec_closed(),
            r.spec_chunk() == if chunk_samples > 0 { chunk_samples as nat } else { 1 },
    {
        SampleQueue {
            queue: VecDeque::new(),
            chunk_samples: if chunk_samples > 0 { chunk_samples } else { 1 },
            closed: false,
        }
    }

    /// Appends samples at the back.
    pub fn push(&mut self, samples: &[S])
        ensures
            final(self)@ == old(self)@ + samples@,
            final(self).spec_chunk() == old(self).spec_chunk(),
            final(self).spec_closed() == old(self).spec_closed(),
            final(self).wf() == old(self).wf(),
    {
        let ghost start = self.queue@;
        let mut i: usize = 0;
        while i < samples.len()
            invariant
                0 <= i <= samples.len(),
                self.queue@ == start + samples@.take(i as int),
                self.chunk_samples == old(self).chunk_samples,
                self.closed == old(self).closed,
            decreases samples.len() - i,
        {
            self.queue.push_back(samples[i]);
            i += 1;
            assert(self.queue@ =~= start + samples@.take(i as int));
        }
        assert(samples@.take(samples.len() as int) =~= samples@);
    }

    /// Marks the end of the stream.
    pub fn close(&mut self)
        ensures
            final(self).spec_closed(),
            final(self)@ == old(self)@,
            final(self).spec_chunk() == old(self).spec_chunk(),
            final(self).wf() == old(self).wf(),
    {
        self.closed = true;
    }

    pub fn is_closed(&self) -> (r: bool)
        ensures
            r == self.spec_closed(),
    {
        self.closed
    }

    pub fn len(&self) -> (r: usize)
        ensures
            r == self@.len(),
    {
        self.queue.len()
    }

    pub fn chunk_samples(&self) -> (r: usize)
        ensures
            r == self.spec_chunk(),
    {
        self.chunk_samples
    }

    /// Removes the first `n` samples.
    fn take_front(&mut self, n: usize) -> (r: Vec<S>)
        requires
            n <= old(self)@.len(),
        ensures
            r@ == old(self)@.take(n as int),
            final(self)@ == old(self)@.skip(n as int),
            final(self).spec_chunk() == old(self).spec_chunk(),
            final(self).spec_closed() == old(self).spec_closed(),
            final(self).wf() == old(self).wf(),
    {
        let mut out: Vec<S> = Vec::new();
        let mut i: usize = 0;
        let ghost start = self.queue@;
        while i < n
            invariant
                0 <= i <= n <= start.len(),
                out@ == start.take(i as int),
                self.queue@ == start.skip(i as int),
                self.chunk_samples == old(self).chunk_samples,
                self.closed == old(self).closed,
            decreases n - i,
        {
            assert(self.queue@.len() > 0);
            let s = self.queue.pop_front().unwrap();
            assert(s == start[i as int]);
            out.push(s);
            i += 1;
            assert(out@ =~= start.take(i as int));
            assert(self.queue@ =~= start.skip(i as int));
        }
        out
    }

    /// The step a pull takes before any wait.
    pub fn pull_step(&self) -> (r: PullStep)
        ensures
            r == pull_step_spec(self@.len(), self.spec_chunk(), self.spec_closed()),
    {
        let queued = self.queue.len();
        if queued >= self.chunk_samples {
            PullStep::Take(self.chunk_samples)
        } else if self.closed {
            if queued == 0 { PullStep::EndOfStream } else { PullStep::Take(queued) }
        } else {
            PullStep::Wait
        }
    }

    /// The step a pull takes after a wait timed out.
    pub fn timeout_step(&self) -> (r: PullStep)
        ensures
            r == timeout_step_spec(self@.len(), self.spec_chunk(), self.spec_closed()),
    {
        let queued = self.queue.len();
        if queued == 0 {
            if self.closed { PullStep::EndOfStream } else { PullStep::Silence(self.chunk_samples) }
        } else if queued < self.chunk_samples {
            PullStep::Take(queued)
        } else {
            PullStep::Take(self.chunk_samples)
        }
    }

    /// Carries out a step: the samples it hands out (none for the end of
    /// the stream or a wait, `silence` repeated for silence).
    pub fn apply(&mut self, step: PullStep, silence: S) -> (r: Vec<S>)
        requires
            step matches PullStep::Take(n) ==> n <= old(self)@.len(),
        ensures
            step matches PullStep::Take(n) ==> r@ == old(self)@.take(n as int) && final(self)@ == old(self)@.skip(n as int),
            step matches PullStep::Silence(n) ==> r@ == Seq::new(n as nat, |i: int| silence) && final(self)@ == old(self)@,
            (step is EndOfStream || step is Wait) ==> r@.len() == 0 && final(self)@ == old(self)@,
            final(self).spec_chunk() == old(self).spec_chunk(),
            final(self).spec_closed() == old(self).spec_closed(),
            final(self).wf() == old(self).wf(),
    {
        match step {
            PullStep::Take(n) => self.take_front(n),
            PullStep::Silence(n) => {
                let mut out: Vec<S> = Vec::new();
                let mut i: usize = 0;
                while i < n
                    invariant
                        0 <= i <= n,
                        out@ == Seq::new(i as nat, |k: int| silence),
                    decreases n - i,
                {
                    out.push(silence);
                    i += 1;
                    assert(out@ =~= Seq::new(i as nat, |k: int| silence));
                }
                out
            },
            _ => Vec::new(),
        }
    }
}

/// A pull never hands out more than a chunk, and hands out queued samples
/// in the order they were pushed.
pub proof fn lemma_pull_step_bounds(queued: nat, chunk: nat, closed: bool)
    requires
        chunk >= 1,
        chunk <= usize::MAX,
        queued <= usize::MAX,
    ensures
        pull_step_spec(queued, chunk, closed) matches PullStep::Take(n) ==> 1 <= n <= chunk && n <= queued,
        timeout_step_spec(queued, chunk, closed) matches PullStep::Take(n) ==> 1 <= n <= chunk && n <= queued,
        timeout_step_spec(queued, chunk, closed) matches PullStep::Silence(n) ==> n == chunk && queued == 0 && !closed,
        pull_step_spec(queued, chunk, closed) is EndOfStream ==> closed && queued == 0,
        timeout_step_spec(queued, chunk, closed) is EndOfStream ==> closed && queued == 0,
{
}

/// Queued samples leave before samples pushed after them: taking `n`
/// samples from a queue holding `queued` to which `pushed` was appended
/// yields the queued ones first, then the start of the pushed ones.
pub proof fn lemma_queue_fifo<S>(queued: Seq<S>, pushed: Seq<S>, n: int)
    requires
        0 <= n <= queued.len() + pushed.len(),
    ensures
        n <= queued.len() ==> (queued + pushed).take(n) == queued.take(n),
        n > queued.len() ==> (queued + pushed).take(n) == queued + pushed.take(n - queued.len()),
        (queued + pushed).skip(n).len() == queued.len() + pushed.len() - n,
{
    if n <= queued.len() {
        assert((queued + pushed).take(n) =~= queued.take(n));
    } else {
        assert((queued + pushed).take(n) =~= queued + pushed.take(n - queued.len()));
    }
}

/// Full-scale value of integer samples of a bit depth, by which they are
/// divided to reach [-1, 1]; none for an unsupported depth.
pub open spec fn int_sample_max_spec(bits: u16) -> Option<i64> {
    if bits == 8 {
        Some(127)
    } else if bits == 16 {
        Some(32767)
    } else if bits == 24 {
        Some(8388607)
    } else if bits == 32 {
        Some(2147483647)
    } else {
        None
    }
}

pub fn int_sample_max(bits: u16) -> (r: Option<i64>)
    ensures
        r == int_sample_max_spec(bits),
{
    match bits {
        8 => Some(127),
        16 => Some(32767),
        24 => Some(8388607),
        32 => Some(2147483647),
        _ => None,
    }
}

/// The standard integer depths (8, 16, 24 and 32 bits) are the supported
/// ones, each divided by its full-scale value 2^(bits-1) - 1; every other
/// depth is refused.
pub proof fn lemma_int_sample_max_full_scale(bits: u16)
    ensures
        (bits == 8 || bits == 16 || bits == 24 || bits == 32)
            ==> int_sample_max_spec(bits) == Some((vstd::arithmetic::power2::pow2((bits - 1) as nat) - 1) as i64),
        !(bits == 8 || bits == 16 || bits == 24 || bits == 32) ==> int_sample_max_spec(bits) is None,
{
    vstd::arithmetic::power2::lemma2_to64();
}

/// Chunks of a finite synthetic source of `total_samples` samples: whole
/// chunks, at least one.
pub fn fake_chunk_count(total_samples: usize, chunk: usize) -> (r: usize)
    requires
        chunk > 0,
    ensures
        r == if total_samples / chunk > 0 { total_samples / chunk } else { 1 },
{
    let n = total_samples / chunk;
    if n > 0 { n } else { 1 }
}

/// Name of a synthetic source.
pub open spec fn fake_name_spec(silent: bool, forever: bool) -> Seq<char> {
    if silent {
        "fake:silence"@
    } else if forever {
        "fake:sine-forever"@
    } else {
        "fake:sine"@
    }
}

pub fn fake_source_name(silent: bool, forever: bool) -> (r: &'static str)
    ensures
        r@ == fake_name_spec(silent, forever),
{
    if silent {
        "fake:silence"
    } else if forever {
        "fake:sine-forever"
    } else {
        "fake:sine"
    }
}

/// How many more chunks a synthetic source yields (none: endless).
pub struct ChunkBudget {
    remaining: Option<usize>,
}

impl ChunkBudget {
    pub closed spec fn spec_remaining(&self) -> Option<usize> {
        self.remaining
    }

    pub fn new(remaining: Option<usize>) -> (r: Self)
        ensures
            r.spec_remaining() == remaining,
    {
        ChunkBudget { remaining }
    }

    pub fn is_endless(&self) -> (r: bool)
        ensures
            r == self.spec_remaining() is None,
    {
        self.remaining.is_none()
    }

    /// Spends one chunk: false once the budget is exhausted.
    pub fn take_chunk(&mut self) -> (r: bool)
        ensures
            old(self).spec_remaining() is None ==> r && final(self).spec_remaining() is None,
            old(self).spec_remaining() == Some(0usize) ==> !r && final(self).spec_remaining() == Some(0usize),
            old(self).spec_remaining() matches Some(n) ==> (n > 0 ==> r && final(self).spec_remaining() == Some((n - 1) as usize)),
    {
        match self.remaining {
            None => true,
            Some(0) => false,
            Some(n) => {
                self.remaining = Some(n - 1);
                true
            },
        }
    }
}

} // verus!

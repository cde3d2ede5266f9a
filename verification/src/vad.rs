//! Voice-activity detection: accumulates captured audio chunks while speech
//! goes on and hands back a speech segment when speech ends or grows too long.
//!
//! Whether a chunk holds speech is decided by its energy against a threshold;
//! the caller supplies that decision with each chunk. The detector is generic
//! over the sample type: it only moves samples, in order, between its buffers.

use vstd::prelude::*;

verus! {

/// Tuning of the detector's state machine.
#[derive(Clone, Copy)]
pub struct VadConfig {
    /// Number of consecutive silent chunks that ends a speech segment.
    pub silence_chunks_to_end: usize,
    /// Minimum number of speech chunks for a segment to be kept.
    pub min_speech_chunks: usize,
    /// Longest segment, in milliseconds of source audio, before it is flushed.
    pub max_duration_ms: u32,
}

impl Default for VadConfig {
    /// Four silent chunks end a segment (about 400 ms at 100 ms chunks), two
    /// speech chunks are the minimum, and segments are flushed after 8 s.
    fn default() -> (c: Self)
        ensures
            c.silence_chunks_to_end == 4,
            c.min_speech_chunks == 2,
            c.max_duration_ms == 8000,
    {
        VadConfig { silence_chunks_to_end: 4, min_speech_chunks: 2, max_duration_ms: 8000 }
    }
}

/// A chunk of interleaved samples as captured from the output device.
pub struct AudioChunk<S> {
    pub samples: Vec<S>,
    pub sample_rate: u32,
    pub channels: u16,
}

/// The interleaved samples of a finished speech segment, in the source format.
pub struct CapturedSpeech<S> {
    pub samples: Vec<S>,
    pub sample_rate: u32,
    pub channels: u16,
}

/// The detector's state as a mathematical value.
pub struct VadState<S> {
    pub config: VadConfig,
    /// Samples of the segment so far.
    pub speech: Seq<S>,
    /// Silent samples heard since the last speech chunk, kept in case speech resumes.
    pub trailing: Seq<S>,
    /// Consecutive silent chunks since the last speech chunk.
    pub silent: nat,
    /// Speech chunks in the segment so far.
    pub speech_chunks: nat,
    pub speaking: bool,
    pub rate: u32,
    pub channels: u16,
}

/// Number of interleaved samples in `max_ms` milliseconds of audio at the given format.
pub open spec fn samples_max(max_ms: u32, rate: u32, channels: u16) -> nat {
    ((max_ms as nat) * (rate as nat) * (channels as nat) / 1000) as nat
}

/// The state with no segment in progress.
pub open spec fn idle_state<S>(config: VadConfig, rate: u32, channels: u16) -> VadState<S> {
    VadState {
        config,
        speech: Seq::empty(),
        trailing: Seq::empty(),
        silent: 0,
        speech_chunks: 0,
        speaking: false,
        rate,
        channels,
    }
}

/// What a flush hands back: nothing for an empty buffer.
pub open spec fn flushed<S>(samples: Seq<S>) -> Option<Seq<S>> {
    if samples.len() == 0 {
        None
    } else {
        Some(samples)
    }
}

/// One step of the detector on a chunk in the given format: the next state,
/// and the segment that the step completes, if any.
pub open spec fn vad_step<S>(
    st: VadState<S>,
    chunk: Seq<S>,
    rate: u32,
    channels: u16,
    is_speech: bool,
) -> (VadState<S>, Option<Seq<S>>) {
    let cfg = st.config;
    if is_speech {
        let speech = st.speech + st.trailing + chunk;
        if speech.len() >= samples_max(cfg.max_duration_ms, rate, channels) {
            (idle_state(cfg, rate, channels), flushed(speech))
        } else {
            (
                VadState {
                    config: cfg,
                    speech,
                    trailing: Seq::empty(),
                    silent: 0,
                    speech_chunks: st.speech_chunks + 1,
                    speaking: true,
                    rate,
                    channels,
                },
                None,
            )
        }
    } else if st.speaking {
        if st.silent + 1 >= cfg.silence_chunks_to_end {
            if st.speech_chunks >= cfg.min_speech_chunks {
                (idle_state(cfg, rate, channels), flushed(st.speech))
            } else {
                (idle_state(cfg, rate, channels), None)
            }
        } else {
            (
                VadState {
                    config: cfg,
                    speech: st.speech,
                    trailing: st.trailing + chunk,
                    silent: st.silent + 1,
                    speech_chunks: st.speech_chunks,
                    speaking: true,
                    rate,
                    channels,
                },
                None,
            )
        }
    } else {
        (VadState { rate, channels, ..st }, None)
    }
}

/// Consistency of the detector's counters and buffers.
pub open spec fn vad_wf<S>(st: VadState<S>) -> bool {
    &&& !st.speaking ==> st.speech.len() == 0 && st.trailing.len() == 0 && st.silent == 0
        && st.speech_chunks == 0
    &&& st.speaking ==> st.speech_chunks >= 1
    &&& st.speaking && st.silent > 0 ==> st.silent < st.config.silence_chunks_to_end
    &&& st.silent == 0 ==> st.trailing.len() == 0
}

/// Energy-gated speech detector.
pub struct Vad<S> {
    config: VadConfig,
    speech_buffer: Vec<S>,
    silent_chunk_count: usize,
    speech_chunk_count: usize,
    is_speaking: bool,
    source_sample_rate: u32,
    source_channels: u16,
    trailing_buffer: Vec<S>,
}

impl<S> View for Vad<S> {
    type V = VadState<S>;

    closed spec fn view(&self) -> VadState<S> {
        VadState {
            config: self.config,
            speech: self.speech_buffer@,
            trailing: self.trailing_buffer@,
            silent: self.silent_chunk_count as nat,
            speech_chunks: self.speech_chunk_count as nat,
            speaking: self.is_speaking,
            rate: self.source_sample_rate,
            channels: self.source_channels,
        }
    }
}

impl<S> Vad<S> {
    #[verifier::type_invariant]
    closed spec fn inv(self) -> bool {
        vad_wf(self@)
    }
}

impl<S: Copy> Vad<S> {
    /// A detector with no segment in progress; the source format starts as
    /// 48 kHz stereo until the first chunk says otherwise.
    pub fn new(config: VadConfig) -> (v: Self)
        ensures
            v@ == idle_state::<S>(config, 48000, 2),
    {
        Vad {
            config,
            speech_buffer: Vec::new(),
            silent_chunk_count: 0,
            speech_chunk_count: 0,
            is_speaking: false,
            source_sample_rate: 48000,
            source_channels: 2,
            trailing_buffer: Vec::new(),
        }
    }

    /// Number of speech chunks in the segment in progress.
    pub fn speech_chunk_count(&self) -> (n: usize)
        ensures
            n == self@.speech_chunks,
    {
        self.speech_chunk_count
    }

    /// Whether a segment is in progress.
    pub fn is_speaking(&self) -> (b: bool)
        ensures
            b == self@.speaking,
    {
        self.is_speaking
    }

    /// Feeds one chunk, with the caller's verdict on whether it holds speech.
    /// Returns the finished segment, if this chunk completes one.
    pub fn process_chunk(&mut self, chunk: AudioChunk<S>, is_speech: bool) -> (out: Option<
        CapturedSpeech<S>,
    >)
        requires
            old(self)@.speech_chunks < usize::MAX,
        ensures
            final(self)@ == vad_step(
                old(self)@,
                chunk.samples@,
                chunk.sample_rate,
                chunk.channels,
                is_speech,
            ).0,
            vad_step(old(self)@, chunk.samples@, chunk.sample_rate, chunk.channels, is_speech).1
                == match out {
                Some(c) => Some(c.samples@),
                None => None::<Seq<S>>,
            },
            out matches Some(c) ==> c.sample_rate == chunk.sample_rate && c.channels
                == chunk.channels,
            vad_wf(old(self)@),
            vad_wf(final(self)@),
    {
        proof {
            use_type_invariant(&*self);
        }
        let rate = chunk.sample_rate;
        let channels = chunk.channels;
        let config = self.config;
        let mut speech: Vec<S> = Vec::new();
        std::mem::swap(&mut speech, &mut self.speech_buffer);
        let mut trailing: Vec<S> = Vec::new();
        std::mem::swap(&mut trailing, &mut self.trailing_buffer);
        let samples = chunk.samples;
        if is_speech {
            append_all(&mut speech, &trailing);
            append_all(&mut speech, &samples);
            let max = max_samples(config.max_duration_ms, rate, channels);
            if speech.len() as u128 >= max {
                *self = Vad::new_idle(config, rate, channels);
                flush(speech, rate, channels)
            } else {
                *self = Vad {
                    config,
                    speech_buffer: speech,
                    silent_chunk_count: 0,
                    speech_chunk_count: self.speech_chunk_count + 1,
                    is_speaking: true,
                    source_sample_rate: rate,
                    source_channels: channels,
                    trailing_buffer: Vec::new(),
                };
                None
            }
        } else if self.is_speaking {
            let silent = self.silent_chunk_count + 1;
            if silent >= config.silence_chunks_to_end {
                let enough = self.speech_chunk_count >= config.min_speech_chunks;
                *self = Vad::new_idle(config, rate, channels);
                if enough {
                    flush(speech, rate, channels)
                } else {
                    None
                }
            } else {
                append_all(&mut trailing, &samples);
                *self = Vad {
                    config,
                    speech_buffer: speech,
                    silent_chunk_count: silent,
                    speech_chunk_count: self.speech_chunk_count,
                    is_speaking: true,
                    source_sample_rate: rate,
                    source_channels: channels,
                    trailing_buffer: trailing,
                };
                None
            }
        } else {
            self.source_sample_rate = rate;
            self.source_channels = channels;
            assert(self.speech_buffer@ =~= old(self)@.speech);
            assert(self.trailing_buffer@ =~= old(self)@.trailing);
            None
        }
    }

    fn new_idle(config: VadConfig, rate: u32, channels: u16) -> (v: Self)
        ensures
            v@ == idle_state::<S>(config, rate, channels),
    {
        Vad {
            config,
            speech_buffer: Vec::new(),
            silent_chunk_count: 0,
            speech_chunk_count: 0,
            is_speaking: false,
            source_sample_rate: rate,
            source_channels: channels,
            trailing_buffer: Vec::new(),
        }
    }
}

/// Appends a copy of every sample of `src`, in order.
fn append_all<S: Copy>(dst: &mut Vec<S>, src: &Vec<S>)
    ensures
        final(dst)@ == old(dst)@ + src@,
{
    let n = src.len();
    let mut i: usize = 0;
    while i < n
        invariant
            n == src@.len(),
            i <= n,
            dst@ == old(dst)@ + src@.take(i as int),
        decreases n - i,
    {
        dst.push(src[i]);
        assert(src@.take(i as int + 1) =~= src@.take(i as int).push(src@[i as int]));
        i = i + 1;
    }
    assert(src@.take(n as int) =~= src@);
}

/// The sample budget of a segment, in interleaved samples.
fn max_samples(max_ms: u32, rate: u32, channels: u16) -> (m: u128)
    ensures
        m == samples_max(max_ms, rate, channels),
{
    let a = max_ms as u128;
    let b = rate as u128;
    let c = channels as u128;
    assert(a * b <= 0xffff_ffff * 0xffff_ffffu128) by (nonlinear_arith)
        requires
            a <= 0xffff_ffff,
            b <= 0xffff_ffff,
    ;
    assert(a * b * c <= 0xffff_ffff * 0xffff_ffff * 0xffffu128) by (nonlinear_arith)
        requires
            a * b <= 0xffff_ffff * 0xffff_ffffu128,
            c <= 0xffff,
    ;
    a * b * c / 1000
}

fn flush<S>(samples: Vec<S>, rate: u32, channels: u16) -> (out: Option<CapturedSpeech<S>>)
    ensures
        flushed(samples@) == match out {
            Some(c) => Some(c.samples@),
            None => None::<Seq<S>>,
        },
        out matches Some(c) ==> c.sample_rate == rate && c.channels == channels,
{
    if samples.len() == 0 {
        None
    } else {
        Some(CapturedSpeech { samples, sample_rate: rate, channels })
    }
}

/// Every step keeps the detector's counters and buffers consistent.
pub proof fn lemma_step_preserves_wf<S>(
    st: VadState<S>,
    chunk: Seq<S>,
    rate: u32,
    channels: u16,
    is_speech: bool,
)
    requires
        vad_wf(st),
    ensures
        vad_wf(vad_step(st, chunk, rate, channels, is_speech).0),
{
}

/// Silence while no segment is in progress changes nothing but the recorded
/// source format, and completes nothing.
pub proof fn lemma_idle_silence_ignored<S>(
    st: VadState<S>,
    chunk: Seq<S>,
    rate: u32,
    channels: u16,
)
    requires
        !st.speaking,
    ensures
        vad_step(st, chunk, rate, channels, false) == (
            VadState { rate, channels, ..st },
            None::<Seq<S>>,
        ),
{
}

/// While a segment is in progress, no sample is dropped or reordered: the
/// kept speech followed by the kept trailing silence is what was kept before,
/// followed by the new chunk.
pub proof fn lemma_segment_keeps_every_sample<S>(
    st: VadState<S>,
    chunk: Seq<S>,
    rate: u32,
    channels: u16,
    is_speech: bool,
)
    requires
        vad_wf(st),
        vad_step(st, chunk, rate, channels, is_speech).0.speaking,
    ensures
        vad_step(st, chunk, rate, channels, is_speech).0.speech + vad_step(
            st,
            chunk,
            rate,
            channels,
            is_speech,
        ).0.trailing == st.speech + st.trailing + chunk,
{
    let next = vad_step(st, chunk, rate, channels, is_speech).0;
    if is_speech {
        assert(next.speech + next.trailing =~= st.speech + st.trailing + chunk);
    } else {
        assert(next.speech + next.trailing =~= st.speech + (st.trailing + chunk));
        assert(st.speech + (st.trailing + chunk) =~= st.speech + st.trailing + chunk);
    }
}

/// A segment completed by a speech chunk holds all buffered audio (speech
/// and the silence between) followed by that chunk, and has reached the
/// length budget.
pub proof fn lemma_long_segment_flushed<S>(
    st: VadState<S>,
    chunk: Seq<S>,
    rate: u32,
    channels: u16,
    seg: Seq<S>,
)
    requires
        vad_step(st, chunk, rate, channels, true).1 == Some(seg),
    ensures
        seg == st.speech + st.trailing + chunk,
        seg.len() >= samples_max(st.config.max_duration_ms, rate, channels),
        seg.len() > 0,
{
}

/// A segment completed by silence is the speech heard before the silence,
/// without the trailing silent chunks, and only once enough silent chunks and
/// enough speech chunks were heard.
pub proof fn lemma_segment_ended_by_silence<S>(
    st: VadState<S>,
    chunk: Seq<S>,
    rate: u32,
    channels: u16,
    seg: Seq<S>,
)
    requires
        vad_step(st, chunk, rate, channels, false).1 == Some(seg),
    ensures
        seg == st.speech,
        seg.len() > 0,
        st.speaking,
        st.silent + 1 >= st.config.silence_chunks_to_end,
        st.speech_chunks >= st.config.min_speech_chunks,
{
}

/// Speech with fewer chunks than the minimum is discarded when the silence
/// that ends it is long enough.
pub proof fn lemma_short_speech_discarded<S>(
    st: VadState<S>,
    chunk: Seq<S>,
    rate: u32,
    channels: u16,
)
    requires
        st.speaking,
        st.silent + 1 >= st.config.silence_chunks_to_end,
        st.speech_chunks < st.config.min_speech_chunks,
    ensures
        vad_step(st, chunk, rate, channels, false) == (
            idle_state::<S>(st.config, rate, channels),
            None::<Seq<S>>,
        ),
{
}

/// Whenever a segment is handed back, the detector starts over idle.
pub proof fn lemma_idle_after_segment<S>(
    st: VadState<S>,
    chunk: Seq<S>,
    rate: u32,
    channels: u16,
    is_speech: bool,
)
    requires
        vad_step(st, chunk, rate, channels, is_speech).1 is Some,
    ensures
        vad_step(st, chunk, rate, channels, is_speech).0 == idle_state::<S>(
            st.config,
            rate,
            channels,
        ),
{
}

/// A segment is handed back for exactly two reasons: a speech chunk brought
/// the buffered audio (speech, the silence between, and the chunk) to the
/// length budget; or a silent chunk was the `silence_chunks_to_end`-th
/// consecutive one (the first, when that setting is zero) after at least
/// `min_speech_chunks` speech chunks.
pub proof fn lemma_why_a_segment<S>(
    st: VadState<S>,
    chunk: Seq<S>,
    rate: u32,
    channels: u16,
    is_speech: bool,
)
    requires
        vad_wf(st),
        vad_step(st, chunk, rate, channels, is_speech).1 is Some,
    ensures
        is_speech ==> st.speech.len() + st.trailing.len() + chunk.len() >= samples_max(
            st.config.max_duration_ms,
            rate,
            channels,
        ),
        !is_speech ==> {
            &&& st.speaking
            &&& st.speech_chunks >= st.config.min_speech_chunks
            &&& if st.config.silence_chunks_to_end >= 1 {
                st.silent + 1 == st.config.silence_chunks_to_end
            } else {
                st.silent == 0
            }
        },
{
}

/// A silent chunk that does not end the segment in progress is only held
/// back: the speech so far is left as it was, the chunk is added after the
/// silence already held, and nothing is handed back.
pub proof fn lemma_silence_held_back<S>(
    st: VadState<S>,
    chunk: Seq<S>,
    rate: u32,
    channels: u16,
)
    requires
        st.speaking,
        st.silent + 1 < st.config.silence_chunks_to_end,
    ensures
        vad_step(st, chunk, rate, channels, false).0.speech == st.speech,
        vad_step(st, chunk, rate, channels, false).0.trailing == st.trailing + chunk,
        vad_step(st, chunk, rate, channels, false).0.silent == st.silent + 1,
        vad_step(st, chunk, rate, channels, false).0.speaking,
        vad_step(st, chunk, rate, channels, false).1 is None,
{
}

/// Runs the detector over a sequence of chunks, each with its format and
/// speech decision: the final state and what each step gave back.
pub open spec fn vad_run<S>(st: VadState<S>, chunks: Seq<(Seq<S>, u32, u16, bool)>) -> (
    VadState<S>,
    Seq<Option<Seq<S>>>,
)
    decreases chunks.len(),
{
    if chunks.len() == 0 {
        (st, Seq::empty())
    } else {
        let c = chunks[0];
        let step = vad_step(st, c.0, c.1, c.2, c.3);
        let rest = vad_run(step.0, chunks.drop_first());
        (rest.0, seq![step.1] + rest.1)
    }
}

/// Two idle detectors with the same configuration behave the same on every
/// sequence of chunks, whatever source format each last recorded: the
/// recorded format never decides a step.
pub proof fn lemma_idle_detectors_agree<S>(
    config: VadConfig,
    rate1: u32,
    channels1: u16,
    rate2: u32,
    channels2: u16,
    chunks: Seq<(Seq<S>, u32, u16, bool)>,
)
    ensures
        vad_run(idle_state::<S>(config, rate1, channels1), chunks).1 == vad_run(
            idle_state::<S>(config, rate2, channels2),
            chunks,
        ).1,
        chunks.len() > 0 ==> vad_run(idle_state::<S>(config, rate1, channels1), chunks).0
            == vad_run(idle_state::<S>(config, rate2, channels2), chunks).0,
{
    if chunks.len() > 0 {
        let c = chunks[0];
        let a = idle_state::<S>(config, rate1, channels1);
        let b = idle_state::<S>(config, rate2, channels2);
        assert(vad_step(a, c.0, c.1, c.2, c.3) == vad_step(b, c.0, c.1, c.2, c.3));
    }
}

/// After a segment is handed back, or a burst of speech too short to keep is
/// discarded, the detector behaves on every later sequence of chunks exactly
/// as a fresh `Vad::new` with the same configuration: no samples, trailing
/// silence or counters carry over.
pub proof fn lemma_fresh_after_segment<S>(
    st: VadState<S>,
    chunk: Seq<S>,
    rate: u32,
    channels: u16,
    is_speech: bool,
    later: Seq<(Seq<S>, u32, u16, bool)>,
)
    requires
        vad_step(st, chunk, rate, channels, is_speech).1 is Some || (st.speaking && !is_speech
            && st.silent + 1 >= st.config.silence_chunks_to_end && st.speech_chunks
            < st.config.min_speech_chunks),
    ensures
        vad_run(vad_step(st, chunk, rate, channels, is_speech).0, later).1 == vad_run(
            idle_state::<S>(st.config, 48000, 2),
            later,
        ).1,
{
    assert(vad_step(st, chunk, rate, channels, is_speech).0 == idle_state::<S>(
        st.config,
        rate,
        channels,
    ));
    lemma_idle_detectors_agree::<S>(st.config, rate, channels, 48000, 2, later);
}

/// Once speech has been heard, a run of silent chunks long enough to end the
/// segment hands back exactly the speech heard before the silence, from its
/// first speech chunk up to and including its last, without any of the
/// silence; nothing is handed back before the last of those silent chunks,
/// and the detector is then idle.
pub proof fn lemma_silence_ends_segment_with_speech_only<S>(
    st: VadState<S>,
    silences: Seq<(Seq<S>, u32, u16, bool)>,
)
    requires
        vad_wf(st),
        st.speaking,
        st.speech_chunks >= st.config.min_speech_chunks,
        silences.len() >= 1,
        st.silent + silences.len() == st.config.silence_chunks_to_end,
        forall|i: int| 0 <= i < silences.len() ==> !(#[trigger] silences[i]).3,
    ensures
        vad_run(st, silences).1.len() == silences.len(),
        vad_run(st, silences).1.last() == (if st.speech.len() > 0 {
            Some(st.speech)
        } else {
            None
        }),
        forall|i: int| 0 <= i < silences.len() - 1 ==> (#[trigger] vad_run(st, silences).1[i]) is None,
        !vad_run(st, silences).0.speaking,
        vad_run(st, silences).0.speech.len() == 0,
    decreases silences.len(),
{
    let c = silences[0];
    assert(!c.3);
    let step = vad_step(st, c.0, c.1, c.2, c.3);
    let rest = silences.drop_first();
    let run = vad_run(st, silences);
    assert(run.1 == seq![step.1] + vad_run(step.0, rest).1);
    if silences.len() == 1 {
        assert(rest.len() == 0);
        assert(vad_run(step.0, rest).1 =~= Seq::<Option<Seq<S>>>::empty());
        assert(run.1 =~= seq![step.1]);
    } else {
        lemma_silence_held_back(st, c.0, c.1, c.2);
        lemma_step_preserves_wf(st, c.0, c.1, c.2, c.3);
        assert forall|i: int| 0 <= i < rest.len() implies !(#[trigger] rest[i]).3 by {
            assert(rest[i] == silences[i + 1]);
        }
        lemma_silence_ends_segment_with_speech_only(step.0, rest);
        let r1 = vad_run(step.0, rest).1;
        assert(run.1.last() == r1.last());
        assert forall|i: int| 0 <= i < silences.len() - 1 implies (#[trigger] run.1[i]) is None by {
            if i > 0 {
                assert(run.1[i] == r1[i - 1]);
            }
        }
    }
}

} // verus!

//! Recorded audio: the sample buffer (collect everything, or drain fixed-size chunks for
//! streaming), and the state and errors of microphone capture.
use vstd::prelude::*;

verus! {

/// Sample rate that transcription expects (16 kHz).
pub const TARGET_SAMPLE_RATE: u32 = 16000;

/// Default chunk size for streaming (half a second of audio).
pub const DEFAULT_CHUNK_SIZE: usize = 8000;

/// The mathematical content of an `AudioBuffer`: the buffered samples, oldest first, and
/// the chunk size for streaming.
pub struct BufferView<S> {
    pub samples: Seq<S>,
    pub chunk_size: nat,
}

/// A buffer of audio samples of type `S`.
pub struct AudioBuffer<S> {
    samples: Vec<S>,
    chunk_size: usize,
}

impl<S> View for AudioBuffer<S> {
    type V = BufferView<S>;

    closed spec fn view(&self) -> BufferView<S> {
        BufferView { samples: self.samples@, chunk_size: self.chunk_size as nat }
    }
}

impl<S: Copy> AudioBuffer<S> {
    /// An empty buffer with the default chunk size.
    pub fn new() -> (b: Self)
        ensures
            b@.samples == Seq::<S>::empty(),
            b@.chunk_size == DEFAULT_CHUNK_SIZE,
    {
        Self::with_chunk_size(DEFAULT_CHUNK_SIZE)
    }

    /// An empty buffer that streams in chunks of `chunk_size` samples.
    pub fn with_chunk_size(chunk_size: usize) -> (b: Self)
        ensures
            b@.samples == Seq::<S>::empty(),
            b@.chunk_size == chunk_size,
    {
        AudioBuffer { samples: Vec::with_capacity(480000), chunk_size }
    }

    /// Appends `samples` to the buffer.
    pub fn push_samples(&mut self, samples: &[S])
        ensures
            final(self)@.samples == old(self)@.samples + samples@,
            final(self)@.chunk_size == old(self)@.chunk_size,
    {
        let mut i: usize = 0;
        while i < samples.len()
            invariant
                i <= samples@.len(),
                self@.samples == old(self)@.samples + samples@.take(i as int),
                self@.chunk_size == old(self)@.chunk_size,
            decreases samples@.len() - i,
        {
            self.samples.push(samples[i]);
            assert(samples@.take(i + 1) =~= samples@.take(i as int).push(samples@[i as int]));
            i = i + 1;
        }
        assert(samples@.take(samples@.len() as int) =~= samples@);
    }

    /// A copy of all buffered samples; the buffer keeps them.
    pub fn get_samples(&self) -> (r: Vec<S>)
        ensures
            r@ == self@.samples,
    {
        let mut r: Vec<S> = Vec::new();
        let mut i: usize = 0;
        while i < self.samples.len()
            invariant
                i <= self.samples@.len(),
                r@ == self.samples@.take(i as int),
            decreases self.samples@.len() - i,
        {
            r.push(self.samples[i]);
            assert(self.samples@.take(i + 1) =~= self.samples@.take(i as int).push(
                self.samples@[i as int],
            ));
            i = i + 1;
        }
        assert(self.samples@.take(self.samples@.len() as int) =~= self.samples@);
        r
    }

    /// Takes all buffered samples, leaving the buffer empty.
    pub fn take_samples(&mut self) -> (r: Vec<S>)
        ensures
            r@ == old(self)@.samples,
            final(self)@.samples == Seq::<S>::empty(),
            final(self)@.chunk_size == old(self)@.chunk_size,
    {
        let mut taken: Vec<S> = Vec::new();
        std::mem::swap(&mut taken, &mut self.samples);
        taken
    }

    /// Takes the oldest `chunk_size` samples when that many are buffered (for streaming);
    /// otherwise takes nothing.
    pub fn take_chunk(&mut self) -> (r: Option<Vec<S>>)
        ensures
            final(self)@.chunk_size == old(self)@.chunk_size,
            old(self)@.samples.len() >= old(self)@.chunk_size ==> (r matches Some(c) && c@
                == old(self)@.samples.take(old(self)@.chunk_size as int)),
            old(self)@.samples.len() >= old(self)@.chunk_size ==> final(self)@.samples
                == old(self)@.samples.skip(old(self)@.chunk_size as int),
            old(self)@.samples.len() < old(self)@.chunk_size ==> r is None && final(self)@.samples
                == old(self)@.samples,
    {
        let chunk_size = self.chunk_size;
        if self.samples.len() >= chunk_size {
            let rest = self.samples.split_off(chunk_size);
            let mut chunk = rest;
            std::mem::swap(&mut chunk, &mut self.samples);
            assert(old(self)@.samples.take(chunk_size as int) =~= old(self)@.samples.subrange(
                0,
                chunk_size as int,
            ));
            assert(old(self)@.samples.skip(chunk_size as int) =~= old(self)@.samples.subrange(
                chunk_size as int,
                old(self)@.samples.len() as int,
            ));
            Some(chunk)
        } else {
            None
        }
    }

    /// Takes all buffered samples, even fewer than a chunk (at the end of a recording).
    pub fn flush(&mut self) -> (r: Vec<S>)
        ensures
            r@ == old(self)@.samples,
            final(self)@.samples == Seq::<S>::empty(),
            final(self)@.chunk_size == old(self)@.chunk_size,
    {
        self.take_samples()
    }

    /// Drops all buffered samples.
    pub fn clear(&mut self)
        ensures
            final(self)@.samples == Seq::<S>::empty(),
            final(self)@.chunk_size == old(self)@.chunk_size,
    {
        self.samples.clear();
    }

    /// The number of buffered samples.
    pub fn len(&self) -> (n: usize)
        ensures
            n == self@.samples.len(),
    {
        self.samples.len()
    }

    /// Whether no sample is buffered.
    pub fn is_empty(&self) -> (b: bool)
        ensures
            b == (self@.samples.len() == 0),
    {
        self.len() == 0
    }

    /// Whether a full chunk is buffered.
    pub fn has_chunk(&self) -> (b: bool)
        ensures
            b == (self@.samples.len() >= self@.chunk_size),
    {
        self.samples.len() >= self.chunk_size
    }

    /// Sets the chunk size for streaming.
    pub fn set_chunk_size(&mut self, chunk_size: usize)
        ensures
            final(self)@.chunk_size == chunk_size,
            final(self)@.samples == old(self)@.samples,
    {
        self.chunk_size = chunk_size;
    }
}

impl<S: Copy> Default for AudioBuffer<S> {
    fn default() -> (b: Self)
        ensures
            b@.samples == Seq::<S>::empty(),
            b@.chunk_size == DEFAULT_CHUNK_SIZE,
    {
        Self::new()
    }
}

/// Taking a chunk loses no sample and keeps their order: the chunk followed by what stays
/// in the buffer is what the buffer held.
pub proof fn law_chunk_then_rest_is_everything<S>(samples: Seq<S>, chunk_size: nat)
    requires
        samples.len() >= chunk_size,
    ensures
        samples.take(chunk_size as int) + samples.skip(chunk_size as int) == samples,
{
    assert(samples.take(chunk_size as int) + samples.skip(chunk_size as int) =~= samples);
}

/// After a push, the samples buffered before it come out first and the pushed ones after
/// them, unchanged.
pub proof fn law_pushed_samples_come_back<S>(before: Seq<S>, pushed: Seq<S>)
    ensures
        (before + pushed).take(before.len() as int) == before,
        (before + pushed).skip(before.len() as int) == pushed,
{
    assert((before + pushed).take(before.len() as int) =~= before);
    assert((before + pushed).skip(before.len() as int) =~= pushed);
}

/// Errors of microphone capture.
#[derive(Debug)]
pub enum AudioError {
    /// No audio input device was found.
    NoInputDevice,
    /// The device's default input configuration could not be read.
    ConfigError(String),
    /// The input stream could not be built.
    StreamBuildError(String),
    /// The input stream could not be started.
    StreamStartError(String),
    /// Recording is not active.
    NotRecording,
    /// Recording is already active.
    AlreadyRecording,
}

impl AudioError {
    /// The description of the error.
    pub fn message(&self) -> (m: String)
        ensures
            m@ == match *self {
                AudioError::NoInputDevice => "No audio input device found"@,
                AudioError::ConfigError(d) => "Failed to get default input config: "@ + d@,
                AudioError::StreamBuildError(d) => "Failed to build audio stream: "@ + d@,
                AudioError::StreamStartError(d) => "Failed to start audio stream: "@ + d@,
                AudioError::NotRecording => "Recording is not active"@,
                AudioError::AlreadyRecording => "Recording is already active"@,
            },
    {
        match self {
            AudioError::NoInputDevice => "No audio input device found".to_owned(),
            AudioError::ConfigError(d) => {
                let mut m = "Failed to get default input config: ".to_owned();
                m.append(d.as_str());
                m
            },
            AudioError::StreamBuildError(d) => {
                let mut m = "Failed to build audio stream: ".to_owned();
                m.append(d.as_str());
                m
            },
            AudioError::StreamStartError(d) => {
                let mut m = "Failed to start audio stream: ".to_owned();
                m.append(d.as_str());
                m
            },
            AudioError::NotRecording => "Recording is not active".to_owned(),
            AudioError::AlreadyRecording => "Recording is already active".to_owned(),
        }
    }
}

/// Audio capture state.
#[derive(Debug, Clone, Copy, PartialEq, Eq, Structural)]
pub enum CaptureState {
    Idle,
    Recording,
}

/// The capture state of a microphone that is (or is not) recording.
pub fn capture_state(is_recording: bool) -> (s: CaptureState)
    ensures
        s == if is_recording { CaptureState::Recording } else { CaptureState::Idle },
{
    if is_recording {
        CaptureState::Recording
    } else {
        CaptureState::Idle
    }
}

/// Capture may start only when not already recording.
pub fn check_can_start(is_recording: bool) -> (r: Result<(), AudioError>)
    ensures
        r is Ok <==> !is_recording,
        r matches Err(e) ==> e is AlreadyRecording,
{
    if is_recording {
        Err(AudioError::AlreadyRecording)
    } else {
        Ok(())
    }
}

/// Capture may stop only while recording.
pub fn check_can_stop(is_recording: bool) -> (r: Result<(), AudioError>)
    ensures
        r is Ok <==> is_recording,
        r matches Err(e) ==> e is NotRecording,
{
    if !is_recording {
        Err(AudioError::NotRecording)
    } else {
        Ok(())
    }
}

/// Audio capture configuration.
#[derive(Debug, Clone, Copy, PartialEq, Eq, Structural)]
pub struct CaptureConfig {
    /// Chunk size for streaming (samples).
    pub chunk_size: usize,
}

impl Default for CaptureConfig {
    fn default() -> (c: Self)
        ensures
            c.chunk_size == DEFAULT_CHUNK_SIZE,
    {
        CaptureConfig { chunk_size: DEFAULT_CHUNK_SIZE }
    }
}

} // verus!

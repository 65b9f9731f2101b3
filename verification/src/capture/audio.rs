//! Sample buffers, the capture controllers that feed them, and the encoding
//! of a drained buffer as a WAVE clip.

use vstd::prelude::*;
use vstd::string::*;
use crate::capture::sample::{decode_samples, decoded, pcm_of, Sample};

verus! {

/// Why an audio operation was turned down.
#[derive(Debug, PartialEq, Eq)]
pub enum AudioError {
    /// The source is capturing already.
    AlreadyCapturing,
    /// The source is not capturing.
    NotCapturing,
    /// The platform has not granted the right to capture.
    PermissionDenied,
    /// The buffer holds no samples.
    EmptyBuffer,
    /// The samples could not be encoded; the detail says why.
    EncodingError(String),
}

/// The sample rate of a buffer before any capture has set one.
pub const DEFAULT_SAMPLE_RATE: u32 = 44100;

/// The number of channels of an encoded clip.
pub const CLIP_CHANNELS: u16 = 1;

/// The number of bits of each sample of an encoded clip.
pub const CLIP_BITS: u16 = 16;

/// The bytes of a 16-bit number, low byte first.
pub open spec fn le16(v: int) -> Seq<u8> {
    seq![(v % 0x100) as u8, ((v / 0x100) % 0x100) as u8]
}

/// The bytes of a 32-bit number, low byte first.
pub open spec fn le32(v: int) -> Seq<u8> {
    seq![
        (v % 0x100) as u8,
        ((v / 0x100) % 0x100) as u8,
        ((v / 0x1_0000) % 0x100) as u8,
        ((v / 0x100_0000) % 0x100) as u8,
    ]
}

/// The bytes of the samples, each as 16 bits in two's complement, low byte
/// first.
pub open spec fn sample_bytes(samples: Seq<i16>) -> Seq<u8>
    decreases samples.len(),
{
    if samples.len() == 0 {
        Seq::empty()
    } else {
        sample_bytes(samples.drop_last()) + le16(
            if samples.last() < 0 {
                samples.last() + 0x1_0000
            } else {
                samples.last() as int
            },
        )
    }
}

/// A WAVE file with one channel of 16-bit integer samples: the RIFF header
/// with the size of what follows it, the sixteen-byte PCM format chunk, and
/// the data chunk with the samples.
pub open spec fn wav_clip(sample_rate: u32, samples: Seq<i16>) -> Seq<u8> {
    seq![0x52u8, 0x49, 0x46, 0x46] + le32(36 + 2 * samples.len() as int) + seq![
        0x57u8,
        0x41,
        0x56,
        0x45,
        0x66,
        0x6d,
        0x74,
        0x20,
    ] + le32(16) + le16(1) + le16(1) + le32(sample_rate as int) + le32(2 * sample_rate) + le16(2)
        + le16(16) + seq![0x64u8, 0x61, 0x74, 0x61] + le32(2 * samples.len() as int) + sample_bytes(
        samples,
    )
}

/// Whether a clip of `count` samples at `sample_rate` fits the WAVE format:
/// the rate is not zero, and neither the byte rate nor the size of the file
/// exceeds 32 bits.
pub open spec fn encodable(sample_rate: u32, count: nat) -> bool {
    &&& 0 < sample_rate <= 0x7fff_ffff
    &&& 2 * count + 36 <= 0xffff_ffff
}

/// `hound::Error`, carried from the writer to `describe_wav_error` unopened.
#[verifier::external_type_specification]
#[verifier::external_body]
pub struct ExHoundError(hound::Error);

/// Writes samples through `hound::WavWriter` into memory: `new` with the
/// given format, `write_sample` for each sample in order, `finalize`.
///
/// Claims, for one channel of 16-bit integer samples, that hound succeeds
/// and that what it wrote is `wav_clip`: its 44-byte header followed by the
/// samples. Success rests on hound's source: sixteen bits is a depth it
/// writes, a 16-bit sample always fits it, one channel leaves no sample
/// unfinished, and writing into memory raises no I/O error. Left out by
/// `requires` are a rate of zero, by which hound divides, and rates and
/// counts whose byte rate or file size overflow hound's 32-bit arithmetic.
#[verifier::external_body]
fn write_wav(channels: u16, sample_rate: u32, bits_per_sample: u16, samples: &Vec<i16>) -> (r: Result<
    Vec<u8>,
    hound::Error,
>)
    requires
        channels == 1,
        bits_per_sample == 16,
        encodable(sample_rate, samples@.len()),
    ensures
        r is Ok,
        r matches Ok(bytes) ==> bytes@ == wav_clip(sample_rate, samples@),
{
    let format = hound::WavSpec {
        channels,
        sample_rate,
        bits_per_sample,
        sample_format: hound::SampleFormat::Int,
    };
    let mut cursor = std::io::Cursor::new(Vec::new());
    let mut writer = hound::WavWriter::new(&mut cursor, format)?;
    for sample in samples {
        writer.write_sample(*sample)?;
    }
    writer.finalize()?;
    Ok(cursor.into_inner())
}

/// Writes out a `hound::Error` as `Display` shows it. Nothing is claimed of
/// the text.
#[verifier::external_body]
fn describe_wav_error(error: &hound::Error) -> String {
    format!("{}", error)
}

/// The PCM values of samples, in order.
pub open spec fn pcm_values(samples: Seq<Sample>) -> Seq<i16> {
    Seq::new(samples.len(), |i: int| pcm_of(samples[i].bits) as i16)
}

/// Whether `result` is the answer owed to encoding `samples` at
/// `sample_rate`: the clip of their PCM values where the clip fits the
/// format, and an encoding error where it does not.
pub open spec fn is_clip_of(
    result: Result<Vec<u8>, AudioError>,
    sample_rate: u32,
    samples: Seq<Sample>,
) -> bool {
    if encodable(sample_rate, samples.len()) {
        result matches Ok(bytes) && bytes@ == wav_clip(sample_rate, pcm_values(samples))
    } else {
        result matches Err(e) && e is EncodingError
    }
}

/// Turns what the WAVE writer answered into the answer of the library.
pub fn clip_from(written: Result<Vec<u8>, hound::Error>) -> (r: Result<Vec<u8>, AudioError>)
    ensures
        match written {
            Ok(bytes) => r == Ok::<Vec<u8>, AudioError>(bytes),
            Err(_) => r is Err && r->Err_0 is EncodingError,
        },
{
    match written {
        Ok(bytes) => Ok(bytes),
        Err(e) => {
            let mut detail = "WAV error: ".to_owned();
            detail.append(describe_wav_error(&e).as_str());
            Err(AudioError::EncodingError(detail))
        },
    }
}

/// Encodes samples as a WAVE clip with one channel of 16-bit integers.
/// The clip is owed whenever it fits the format; samples that do not fit
/// it give an encoding error.
pub fn encode_clip(sample_rate: u32, samples: &Vec<Sample>) -> (r: Result<Vec<u8>, AudioError>)
    ensures
        is_clip_of(r, sample_rate, samples@),
{
    if sample_rate == 0 || sample_rate > 0x7fff_ffff {
        return Err(AudioError::EncodingError("WAV error: sample rate out of range".to_owned()));
    }
    if samples.len() > 0x7fff_ffed {
        return Err(AudioError::EncodingError("WAV error: too many samples".to_owned()));
    }
    let mut pcm: Vec<i16> = Vec::new();
    let mut i: usize = 0;
    while i < samples.len()
        invariant
            i <= samples.len(),
            pcm.len() == i,
            forall|j: int| 0 <= j < i ==> pcm@[j] == pcm_values(samples@)[j],
        decreases samples.len() - i,
    {
        pcm.push(samples[i].to_pcm());
        i += 1;
    }
    assert(pcm@ =~= pcm_values(samples@));
    clip_from(write_wav(CLIP_CHANNELS, sample_rate, CLIP_BITS, &pcm))
}

/// A growing sequence of samples with the rate at which they were taken.
pub struct AudioBuffer {
    samples: Vec<Sample>,
    sample_rate: u32,
}

/// What an `AudioBuffer` holds.
pub struct AudioBufferView {
    pub samples: Seq<Sample>,
    pub sample_rate: u32,
}

impl View for AudioBuffer {
    type V = AudioBufferView;

    closed spec fn view(&self) -> AudioBufferView {
        AudioBufferView { samples: self.samples@, sample_rate: self.sample_rate }
    }
}

/// A buffer after more samples have arrived.
pub open spec fn appended(buffer: AudioBufferView, more: Seq<Sample>) -> AudioBufferView {
    AudioBufferView { samples: buffer.samples + more, ..buffer }
}

/// A buffer after a run of arrivals, one after the other.
pub open spec fn appended_all(buffer: AudioBufferView, arrivals: Seq<Seq<Sample>>) -> AudioBufferView
    decreases arrivals.len(),
{
    if arrivals.len() == 0 {
        buffer
    } else {
        appended(appended_all(buffer, arrivals.drop_last()), arrivals.last())
    }
}

/// A buffer after a drain: empty, at the same rate.
pub open spec fn drained(buffer: AudioBufferView) -> AudioBufferView {
    AudioBufferView { samples: Seq::empty(), ..buffer }
}

/// An empty buffer at the given rate.
pub open spec fn empty_buffer(sample_rate: u32) -> AudioBufferView {
    AudioBufferView { samples: Seq::empty(), sample_rate }
}

/// All the samples of a run of arrivals, in order.
pub open spec fn all_samples(arrivals: Seq<Seq<Sample>>) -> Seq<Sample>
    decreases arrivals.len(),
{
    if arrivals.len() == 0 {
        Seq::empty()
    } else {
        all_samples(arrivals.drop_last()) + arrivals.last()
    }
}

impl AudioBuffer {
    /// An empty buffer at the default rate.
    pub fn new() -> (r: Self)
        ensures
            r@ == empty_buffer(DEFAULT_SAMPLE_RATE),
    {
        AudioBuffer { samples: Vec::new(), sample_rate: DEFAULT_SAMPLE_RATE }
    }

    /// Empties the buffer and sets the rate of what will arrive.
    pub fn reset(&mut self, sample_rate: u32)
        ensures
            final(self)@ == empty_buffer(sample_rate),
    {
        self.samples = Vec::new();
        self.sample_rate = sample_rate;
    }

    /// Empties the buffer and keeps its rate.
    pub fn clear(&mut self)
        ensures
            final(self)@ == drained(old(self)@),
    {
        self.samples = Vec::new();
    }

    /// Adds samples behind those already held.
    pub fn append(&mut self, more: &[Sample])
        ensures
            final(self)@ == appended(old(self)@, more@),
    {
        self.samples.extend_from_slice(more);
        assert(self.samples@ =~= old(self).samples@ + more@);
    }

    /// The number of samples held.
    pub fn len(&self) -> (r: usize)
        ensures
            r == self@.samples.len(),
    {
        self.samples.len()
    }

    /// Whether no sample is held.
    pub fn is_empty(&self) -> (r: bool)
        ensures
            r == (self@.samples.len() == 0),
    {
        self.samples.len() == 0
    }

    /// The rate at which the samples were taken.
    pub fn sample_rate(&self) -> (r: u32)
        ensures
            r == self@.sample_rate,
    {
        self.sample_rate
    }

    /// A copy of the samples held; the buffer keeps them.
    pub fn snapshot(&self) -> (r: Vec<Sample>)
        ensures
            r@ == self@.samples,
    {
        let mut out: Vec<Sample> = Vec::new();
        out.extend_from_slice(self.samples.as_slice());
        assert(out@ =~= self.samples@);
        out
    }

    /// Takes every sample out of the buffer in one step: what is handed out
    /// is all that was held, in order, and the buffer is empty afterwards.
    pub fn drain(&mut self) -> (r: Vec<Sample>)
        ensures
            r@ == old(self)@.samples,
            final(self)@ == drained(old(self)@),
    {
        let mut taken: Vec<Sample> = Vec::new();
        std::mem::swap(&mut self.samples, &mut taken);
        taken
    }

    /// Takes every sample out of the buffer and encodes them as a clip.
    /// An empty buffer is refused with `EmptyBuffer` and left as it is. A
    /// buffer that holds samples is emptied and gives their clip, or an
    /// encoding error where the clip does not fit the format: the samples
    /// count as consumed also then.
    pub fn drain_to_encoded_clip(&mut self) -> (r: Result<Vec<u8>, AudioError>)
        ensures
            old(self)@.samples.len() == 0 ==> r == Err::<Vec<u8>, AudioError>(
                AudioError::EmptyBuffer,
            ) && final(self)@ == old(self)@,
            old(self)@.samples.len() > 0 ==> final(self)@ == drained(old(self)@) && is_clip_of(
                r,
                old(self)@.sample_rate,
                old(self)@.samples,
            ),
    {
        if self.samples.len() == 0 {
            return Err(AudioError::EmptyBuffer);
        }
        let taken = self.drain();
        encode_clip(self.sample_rate, &taken)
    }

    /// Encodes the samples held as a clip; the buffer keeps them. An empty
    /// buffer is refused with `EmptyBuffer`; any other gives what a drain
    /// would give.
    pub fn encoded_clip(&self) -> (r: Result<Vec<u8>, AudioError>)
        ensures
            self@.samples.len() == 0 ==> r == Err::<Vec<u8>, AudioError>(AudioError::EmptyBuffer),
            self@.samples.len() > 0 ==> is_clip_of(r, self@.sample_rate, self@.samples),
    {
        if self.samples.len() == 0 {
            return Err(AudioError::EmptyBuffer);
        }
        encode_clip(self.sample_rate, &self.samples)
    }
}


/// One frame pulled from the platform's capture source.
#[derive(Debug, PartialEq, Eq)]
pub enum CapturedFrame {
    /// Audio data; `float_format` says whether it holds 32-bit float samples.
    Audio { float_format: bool, data: Vec<u8> },
    /// A frame that is not audio.
    Other,
    /// The source failed to hand out a frame.
    Failed,
}

/// The lifecycle of one audio source together with its buffer.
pub struct CaptureController {
    capturing: bool,
    buffer: AudioBuffer,
}

/// What a `CaptureController` holds.
pub struct ControllerView {
    pub capturing: bool,
    pub buffer: AudioBufferView,
}

impl View for CaptureController {
    type V = ControllerView;

    closed spec fn view(&self) -> ControllerView {
        ControllerView { capturing: self.capturing, buffer: self.buffer@ }
    }
}

/// A controller after samples have arrived: they are kept while it
/// captures and dropped while it is idle.
pub open spec fn pushed(controller: ControllerView, more: Seq<Sample>) -> ControllerView {
    if controller.capturing {
        ControllerView { buffer: appended(controller.buffer, more), ..controller }
    } else {
        controller
    }
}

/// A controller after a frame from the platform: float audio is decoded
/// and kept, anything else changes nothing.
pub open spec fn framed(controller: ControllerView, frame: CapturedFrame, little_endian: bool) -> ControllerView {
    match frame {
        CapturedFrame::Audio { float_format, data } => if float_format {
            pushed(controller, decoded(data@, little_endian))
        } else {
            controller
        },
        _ => controller,
    }
}

impl CaptureController {
    /// An idle controller with an empty buffer.
    pub fn new() -> (r: Self)
        ensures
            r@ == (ControllerView { capturing: false, buffer: empty_buffer(DEFAULT_SAMPLE_RATE) }),
    {
        CaptureController { capturing: false, buffer: AudioBuffer::new() }
    }

    /// Whether the source is capturing.
    pub fn is_capturing(&self) -> (r: bool)
        ensures
            r == self@.capturing,
    {
        self.capturing
    }

    /// The number of samples buffered.
    pub fn buffered(&self) -> (r: usize)
        ensures
            r == self@.buffer.samples.len(),
    {
        self.buffer.len()
    }

    /// The rate of the buffered samples.
    pub fn sample_rate(&self) -> (r: u32)
        ensures
            r == self@.buffer.sample_rate,
    {
        self.buffer.sample_rate()
    }

    /// Starts capturing at the given rate with an empty buffer. Refused with
    /// `AlreadyCapturing` while capturing.
    pub fn start(&mut self, sample_rate: u32) -> (r: Result<(), AudioError>)
        ensures
            old(self)@.capturing ==> r == Err::<(), AudioError>(AudioError::AlreadyCapturing)
                && final(self)@ == old(self)@,
            !old(self)@.capturing ==> r is Ok && final(self)@ == (ControllerView {
                capturing: true,
                buffer: empty_buffer(sample_rate),
            }),
    {
        if self.capturing {
            return Err(AudioError::AlreadyCapturing);
        }
        self.buffer.reset(sample_rate);
        self.capturing = true;
        Ok(())
    }

    /// Starts capturing system audio with an empty buffer at the rate it
    /// had. Refused with `AlreadyCapturing` while capturing, else with
    /// `PermissionDenied` where the platform has not granted the right.
    pub fn start_system(&mut self, permission_granted: bool) -> (r: Result<(), AudioError>)
        ensures
            old(self)@.capturing ==> r == Err::<(), AudioError>(AudioError::AlreadyCapturing)
                && final(self)@ == old(self)@,
            !old(self)@.capturing && !permission_granted ==> r == Err::<(), AudioError>(
                AudioError::PermissionDenied,
            ) && final(self)@ == old(self)@,
            !old(self)@.capturing && permission_granted ==> r is Ok && final(self)@ == (
            ControllerView { capturing: true, buffer: drained(old(self)@.buffer) }),
    {
        if self.capturing {
            return Err(AudioError::AlreadyCapturing);
        }
        if !permission_granted {
            return Err(AudioError::PermissionDenied);
        }
        self.buffer.clear();
        self.capturing = true;
        Ok(())
    }

    /// Takes back a start whose source could not be opened: the controller
    /// is idle again, its buffer untouched.
    pub fn cancel(&mut self)
        ensures
            final(self)@ == (ControllerView { capturing: false, ..old(self)@ }),
    {
        self.capturing = false;
    }

    /// Takes samples from the source. They are added behind those held
    /// while capturing, and dropped while idle: nothing is written once a
    /// stop has returned.
    pub fn push(&mut self, more: &[Sample])
        ensures
            final(self)@ == pushed(old(self)@, more@),
    {
        if self.capturing {
            self.buffer.append(more);
        }
    }

    /// Takes one frame from the platform's capture source and says whether
    /// to go on pulling frames: a failed pull ends the capture loop, and
    /// leaves what was captured in the buffer.
    pub fn accept_frame(&mut self, frame: &CapturedFrame, little_endian: bool) -> (go_on: bool)
        ensures
            final(self)@ == framed(old(self)@, *frame, little_endian),
            go_on == !(frame is Failed),
    {
        match frame {
            CapturedFrame::Audio { float_format, data } => {
                if *float_format {
                    let samples = decode_samples(data.as_slice(), little_endian);
                    self.push(samples.as_slice());
                }
                true
            },
            CapturedFrame::Other => true,
            CapturedFrame::Failed => false,
        }
    }

    /// Stops capturing and hands out a copy of everything buffered; the
    /// buffer keeps it. Refused with `NotCapturing` while idle.
    pub fn stop(&mut self) -> (r: Result<Vec<Sample>, AudioError>)
        ensures
            !old(self)@.capturing ==> r == Err::<Vec<Sample>, AudioError>(
                AudioError::NotCapturing,
            ) && final(self)@ == old(self)@,
            old(self)@.capturing ==> r is Ok && r->Ok_0@ == old(self)@.buffer.samples,
            old(self)@.capturing ==> final(self)@ == (ControllerView {
                capturing: false,
                ..old(self)@
            }),
    {
        if !self.capturing {
            return Err(AudioError::NotCapturing);
        }
        self.capturing = false;
        Ok(self.buffer.snapshot())
    }

    /// Drains the buffer into an encoded clip; see
    /// `AudioBuffer::drain_to_encoded_clip`.
    pub fn drain_to_encoded_clip(&mut self) -> (r: Result<Vec<u8>, AudioError>)
        ensures
            old(self)@.buffer.samples.len() == 0 ==> r == Err::<Vec<u8>, AudioError>(
                AudioError::EmptyBuffer,
            ) && final(self)@ == old(self)@,
            old(self)@.buffer.samples.len() > 0 ==> final(self)@ == (ControllerView {
                buffer: drained(old(self)@.buffer),
                ..old(self)@
            }) && is_clip_of(r, old(self)@.buffer.sample_rate, old(self)@.buffer.samples),
    {
        self.buffer.drain_to_encoded_clip()
    }

    /// Encodes what is buffered as a clip without taking it out.
    pub fn encoded_clip(&self) -> (r: Result<Vec<u8>, AudioError>)
        ensures
            self@.buffer.samples.len() == 0 ==> r == Err::<Vec<u8>, AudioError>(
                AudioError::EmptyBuffer,
            ),
            self@.buffer.samples.len() > 0 ==> is_clip_of(
                r,
                self@.buffer.sample_rate,
                self@.buffer.samples,
            ),
    {
        self.buffer.encoded_clip()
    }
}

impl AudioError {
    /// The message shown for this error.
    pub fn message(&self) -> (r: String)
        ensures
            r@ == match *self {
                AudioError::AlreadyCapturing => "Already recording"@,
                AudioError::NotCapturing => "Not recording"@,
                AudioError::PermissionDenied => "System audio capture permission not granted"@,
                AudioError::EmptyBuffer => "No audio data"@,
                AudioError::EncodingError(detail) => detail@,
            },
    {
        match self {
            AudioError::AlreadyCapturing => "Already recording".to_owned(),
            AudioError::NotCapturing => "Not recording".to_owned(),
            AudioError::PermissionDenied => "System audio capture permission not granted".to_owned(),
            AudioError::EmptyBuffer => "No audio data".to_owned(),
            AudioError::EncodingError(detail) => detail.clone(),
        }
    }
}

/// Encoding goes sample by sample: a clip holds one PCM value for each
/// sample, in order, so the values of two clips drained one after the other
/// are, put together, the values of all the samples that the two drains
/// took.
pub proof fn law_encoding_is_elementwise(first: Seq<Sample>, second: Seq<Sample>)
    ensures
        pcm_values(first).len() == first.len(),
        forall|i: int| 0 <= i < first.len() ==> pcm_values(first)[i] == pcm_of(first[i].bits),
        pcm_values(first) + pcm_values(second) == pcm_values(first + second),
{
    assert forall|i: int| 0 <= i < first.len() implies pcm_values(first)[i] == pcm_of(
        first[i].bits,
    ) by {
        crate::capture::sample::law_pcm_is_clamped(first[i].bits);
    }
    assert(pcm_values(first) + pcm_values(second) =~= pcm_values(first + second));
}

/// Nothing is written once a stop has returned: an idle controller drops
/// the samples and frames that still reach it, and keeps what it holds.
pub proof fn law_idle_controller_takes_nothing(
    controller: ControllerView,
    more: Seq<Sample>,
    frame: CapturedFrame,
    little_endian: bool,
)
    requires
        !controller.capturing,
    ensures
        pushed(controller, more) == controller,
        framed(controller, frame, little_endian) == controller,
{
}

proof fn lemma_appended_all(buffer: AudioBufferView, arrivals: Seq<Seq<Sample>>)
    ensures
        appended_all(buffer, arrivals).samples == buffer.samples + all_samples(arrivals),
        appended_all(buffer, arrivals).sample_rate == buffer.sample_rate,
    decreases arrivals.len(),
{
    if arrivals.len() == 0 {
        assert(buffer.samples + all_samples(arrivals) =~= buffer.samples);
    } else {
        lemma_appended_all(buffer, arrivals.drop_last());
        assert((buffer.samples + all_samples(arrivals.drop_last())) + arrivals.last()
            =~= buffer.samples + all_samples(arrivals));
    }
}

proof fn lemma_all_samples_add(first: Seq<Seq<Sample>>, second: Seq<Seq<Sample>>)
    ensures
        all_samples(first + second) == all_samples(first) + all_samples(second),
    decreases second.len(),
{
    if second.len() == 0 {
        assert(first + second =~= first);
        assert(all_samples(first) + all_samples(second) =~= all_samples(first));
    } else {
        lemma_all_samples_add(first, second.drop_last());
        assert((first + second).drop_last() =~= first + second.drop_last());
        assert((all_samples(first) + all_samples(second.drop_last())) + second.last()
            =~= all_samples(first) + all_samples(second));
    }
}

/// A drain is one step, which the exclusive borrow of the buffer keeps free
/// of arrivals in its midst. So every sample that arrived before it is
/// handed out by it, once and in order, and every sample that arrives after
/// it is in the buffer and in no drain yet: none is lost, none is handed
/// out twice.
pub proof fn law_drain_is_atomic(
    buffer: AudioBufferView,
    before: Seq<Seq<Sample>>,
    after: Seq<Seq<Sample>>,
)
    ensures
        appended_all(buffer, before).samples == buffer.samples + all_samples(before),
        appended_all(drained(appended_all(buffer, before)), after).samples == all_samples(after),
        appended_all(buffer, before).samples + appended_all(
            drained(appended_all(buffer, before)),
            after,
        ).samples == appended_all(buffer, before + after).samples,
{
    lemma_appended_all(buffer, before);
    lemma_appended_all(drained(appended_all(buffer, before)), after);
    lemma_appended_all(buffer, before + after);
    lemma_all_samples_add(before, after);
    assert(Seq::<Sample>::empty() + all_samples(after) =~= all_samples(after));
    assert((buffer.samples + all_samples(before)) + all_samples(after) =~= buffer.samples + (
    all_samples(before) + all_samples(after)));
}

/// Two drains one after the other share no sample, and together hand out
/// everything that arrived since the buffer was reset: the first what
/// arrived before it, the second what arrived between the two, in the order
/// of arrival. The buffer is empty after each.
pub proof fn law_consecutive_drains(
    sample_rate: u32,
    first: Seq<Seq<Sample>>,
    second: Seq<Seq<Sample>>,
)
    ensures
        ({
            let at_first = appended_all(empty_buffer(sample_rate), first);
            let at_second = appended_all(drained(at_first), second);
            let all = all_samples(first + second);
            &&& at_first.samples + at_second.samples == all
            &&& at_first.samples == all.take(at_first.samples.len() as int)
            &&& at_second.samples == all.skip(at_first.samples.len() as int)
            &&& drained(at_second).samples.len() == 0
        }),
{
    let at_first = appended_all(empty_buffer(sample_rate), first);
    let at_second = appended_all(drained(at_first), second);
    lemma_appended_all(empty_buffer(sample_rate), first);
    lemma_appended_all(drained(at_first), second);
    lemma_all_samples_add(first, second);
    assert(at_first.samples =~= all_samples(first));
    assert(at_second.samples =~= all_samples(second));
    let all = all_samples(first + second);
    assert(at_first.samples =~= all.take(at_first.samples.len() as int));
    assert(at_second.samples =~= all.skip(at_first.samples.len() as int));
}

} // verus!

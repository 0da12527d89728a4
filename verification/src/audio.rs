//! The recorder: which input device is selected, the samples captured since
//! the last start, and the sound file made of them. Samples are signed 16-bit
//! numbers, one channel.

use crate::text::{decimal, push_decimal};
use vstd::prelude::*;
use vstd::string::StringExecFns;

verus! {

/// The sample rate of a recorder that has not been started.
pub const DEFAULT_SAMPLE_RATE: u32 = 44100;

/// How long to wait, in milliseconds, after a stream was closed before the
/// samples are touched.
pub const SETTLE_MS: u64 = 50;

/// `hound::Error`, carried through as it is.
#[verifier::external_type_specification]
#[verifier::external_body]
pub struct ExHoundError(hound::Error);

/// How a sample is stored.
#[derive(Clone, Copy, PartialEq, Eq, Structural, Debug)]
pub enum SampleKind {
    /// As a whole number.
    Int,
    /// As a floating-point number.
    Float,
}

/// The properties of the sound that a file holds.
#[derive(Clone, Copy, PartialEq, Eq, Structural, Debug)]
pub struct WavFormat {
    pub channels: u16,
    pub sample_rate: u32,
    pub bits_per_sample: u16,
    pub sample_kind: SampleKind,
}

/// The formats and lengths for which the file's header can be computed: one
/// or two channels of whole numbers of 16 bits, a byte rate and a file size
/// that fit in 32 bits.
pub open spec fn encodable(format: WavFormat, samples: int) -> bool {
    &&& 1 <= format.channels <= 2
    &&& format.bits_per_sample == 16
    &&& format.sample_kind == SampleKind::Int
    &&& 0 < format.sample_rate
    &&& format.sample_rate * 2 * format.channels <= u32::MAX
    &&& 2 * samples + 36 <= u32::MAX
}

/// The two bytes of `v`, the low one first.
pub open spec fn le16(v: int) -> Seq<u8> {
    seq![(v % 256) as u8, (v / 256 % 256) as u8]
}

/// The four bytes of `v`, the lowest first.
pub open spec fn le32(v: int) -> Seq<u8> {
    seq![
        (v % 256) as u8,
        (v / 256 % 256) as u8,
        (v / 65536 % 256) as u8,
        (v / 16777216 % 256) as u8,
    ]
}

/// The bytes of the samples: two for each, the low one first, a negative
/// sample in two's complement.
pub open spec fn sample_bytes(samples: Seq<i16>) -> Seq<u8>
    decreases samples.len(),
{
    if samples.len() == 0 {
        Seq::empty()
    } else {
        let last = samples.last();
        sample_bytes(samples.drop_last()) + le16(
            if last < 0 {
                last + 65536
            } else {
                last as int
            },
        )
    }
}

/// The 44 bytes before the samples of a WAVE file of whole numbers of 16
/// bits that holds `data_len` bytes of samples: the RIFF chunk with the
/// length of what follows it, the 16-byte `fmt ` chunk of uncompressed PCM
/// (tag 1) with channels, rate, bytes per second, bytes per frame and bits,
/// and the head of the `data` chunk.
pub open spec fn wav_header(format: WavFormat, data_len: int) -> Seq<u8> {
    seq![0x52u8, 0x49u8, 0x46u8, 0x46u8] + le32(36 + data_len) + seq![
        0x57u8,
        0x41u8,
        0x56u8,
        0x45u8,
    ] + seq![0x66u8, 0x6du8, 0x74u8, 0x20u8] + le32(16) + le16(1) + le16(format.channels as int)
        + le32(format.sample_rate as int) + le32(format.sample_rate * 2 * format.channels) + le16(
        2 * format.channels,
    ) + le16(16) + seq![0x64u8, 0x61u8, 0x74u8, 0x61u8] + le32(data_len)
}

/// The content of the WAVE file that holds `samples`, the channels
/// interleaved, in a format that is `encodable`.
pub open spec fn wav_file(format: WavFormat, samples: Seq<i16>) -> Seq<u8> {
    wav_header(format, 2 * (samples.len() as int)) + sample_bytes(samples)
}

/// A file is 44 bytes longer than its samples.
pub proof fn wav_file_len(format: WavFormat, samples: Seq<i16>)
    ensures
        wav_file(format, samples).len() == 44 + 2 * samples.len(),
{
    sample_bytes_len(samples);
}

proof fn sample_bytes_len(samples: Seq<i16>)
    ensures
        sample_bytes(samples).len() == 2 * samples.len(),
    decreases samples.len(),
{
    if samples.len() > 0 {
        sample_bytes_len(samples.drop_last());
    }
}

/// Runs `hound::WavWriter` over a buffer in memory: `WavWriter::new` with
/// `format`, `write_sample` for each of `samples` in order, `finalize`, and
/// hands out the buffer. What is claimed, for a format that is `encodable`:
/// the writer writes the 16-byte PCM form of the `fmt ` chunk and each sample
/// as two bytes, so that the bytes are `wav_file`; and nothing fails when the
/// samples fill whole frames, since the writer's own errors are for other bit
/// depths and unfinished frames and a buffer in memory takes every write. The
/// precondition keeps away the inputs on which the writer's arithmetic on the
/// header fields overflows or divides by zero, and the floating-point kind,
/// which the writer refuses at 16 bits.
#[verifier::external_body]
fn write_wav(format: WavFormat, samples: &Vec<i16>) -> (written: Result<Vec<u8>, hound::Error>)
    requires
        encodable(format, samples@.len() as int),
    ensures
        written matches Ok(bytes) ==> bytes@ == wav_file(format, samples@),
        (samples@.len() as int) % (format.channels as int) == 0 ==> written is Ok,
{
    let sample_format = match format.sample_kind {
        SampleKind::Int => hound::SampleFormat::Int,
        SampleKind::Float => hound::SampleFormat::Float,
    };
    let (channels, sample_rate, bits_per_sample) = (format.channels, format.sample_rate, format.bits_per_sample);
    let spec = hound::WavSpec { channels, sample_rate, bits_per_sample, sample_format };
    let mut buffer = std::io::Cursor::new(Vec::new());
    let mut writer = hound::WavWriter::new(&mut buffer, spec)?;
    for sample in samples.iter() {
        writer.write_sample(*sample)?;
    }
    writer.finalize()?;
    Ok(buffer.into_inner())
}

/// The text that `hound::Error` shows for `error` (its `Display`). Nothing is
/// claimed of it.
#[verifier::external_body]
fn error_text(error: &hound::Error) -> (text: String) {
    error.to_string()
}

/// Why the recorder cannot go on.
#[derive(Clone, PartialEq, Eq, Debug)]
pub enum AudioError {
    /// No input device has been selected.
    NoDevice,
    /// There are fewer input devices than this index asks for.
    DeviceNotFound(usize),
    /// The sound file could not be written; the text says why.
    Encode(String),
}

impl AudioError {
    /// What the error says.
    pub open spec fn text(&self) -> Seq<char> {
        match self {
            AudioError::NoDevice => "No input device selected"@,
            AudioError::DeviceNotFound(index) => "Device index "@ + decimal(*index as nat)
                + " not found"@,
            AudioError::Encode(reason) => reason@,
        }
    }

    /// What the error says.
    pub fn message(&self) -> (text: String)
        ensures
            text@ == self.text(),
    {
        match self {
            AudioError::NoDevice => String::from_str("No input device selected"),
            AudioError::DeviceNotFound(index) => {
                let mut text = String::from_str("Device index ");
                push_decimal(&mut text, *index as u64);
                text.append(" not found");
                text
            },
            AudioError::Encode(reason) => reason.clone(),
        }
    }
}

/// The names of the input devices whose name can be read, in order.
pub open spec fn readable_names(devices: Seq<Option<String>>) -> Seq<Seq<char>>
    decreases devices.len(),
{
    if devices.len() == 0 {
        seq![]
    } else {
        let before = readable_names(devices.drop_last());
        match devices.last() {
            Some(name) => before.push(name@),
            None => before,
        }
    }
}

/// The text of each of `names`, in order.
pub open spec fn texts(names: Seq<String>) -> Seq<Seq<char>> {
    Seq::new(names.len(), |i: int| names[i]@)
}

/// The list of input devices to choose from: `devices` holds, for each input
/// device in the host's order, its name, or `None` where the name cannot be
/// read. Such a device is left out.
pub fn list_input_devices(devices: Vec<Option<String>>) -> (names: Vec<String>)
    ensures
        texts(names@) == readable_names(devices@),
{
    let mut names: Vec<String> = Vec::new();
    let mut i: usize = 0;
    assert(devices@.take(0).len() == 0);
    while i < devices.len()
        invariant
            i <= devices.len(),
            texts(names@) == readable_names(devices@.take(i as int)),
        decreases devices.len() - i,
    {
        assert(devices@.take(i + 1).drop_last() == devices@.take(i as int));
        let ghost before = names@;
        match &devices[i] {
            Some(name) => {
                names.push(name.clone());
                assert(texts(names@) == texts(before).push(name@));
            },
            None => {},
        }
        i += 1;
    }
    assert(devices@.take(devices.len() as int) == devices@);
    names
}

/// The place of the device to open in the host's order of `available` input
/// devices: `index` itself, if there are that many.
pub fn get_device_by_index(index: usize, available: usize) -> (place: Result<usize, AudioError>)
    ensures
        index < available ==> place == Ok::<usize, AudioError>(index),
        index >= available ==> place == Err::<usize, AudioError>(
            AudioError::DeviceNotFound(index),
        ),
{
    if index < available {
        Ok(index)
    } else {
        Err(AudioError::DeviceNotFound(index))
    }
}

/// What `AudioRecorder::start` asks for.
#[derive(PartialEq, Eq, Debug)]
pub struct StartPlan {
    /// Whether a stream is open: it is to be closed, and `SETTLE_MS` waited,
    /// before anything else.
    pub close_first: bool,
    /// The device to open a stream on, or why none can be opened.
    pub open: Result<usize, AudioError>,
}

/// Records from one input device into a buffer.
pub struct AudioRecorder {
    device: Option<usize>,
    sample_rate: u32,
    streaming: bool,
    buffer: Vec<i16>,
}

impl AudioRecorder {
    /// The selected input device.
    pub closed spec fn device(&self) -> Option<usize> {
        self.device
    }

    /// The rate of the samples in the buffer.
    pub closed spec fn rate(&self) -> u32 {
        self.sample_rate
    }

    /// Whether a stream is open.
    pub closed spec fn streaming(&self) -> bool {
        self.streaming
    }

    /// The samples captured and not yet handed out.
    pub closed spec fn buffered(&self) -> Seq<i16> {
        self.buffer@
    }

    /// The format of the files that this recorder writes: one channel of
    /// whole numbers of 16 bits at the recorder's rate.
    pub open spec fn format(&self) -> WavFormat {
        WavFormat {
            channels: 1,
            sample_rate: self.rate(),
            bits_per_sample: 16,
            sample_kind: SampleKind::Int,
        }
    }

    /// A recorder without device, stream or samples.
    pub fn new() -> (recorder: AudioRecorder)
        ensures
            recorder.device() is None,
            recorder.rate() == DEFAULT_SAMPLE_RATE,
            !recorder.streaming(),
            recorder.buffered().len() == 0,
    {
        AudioRecorder {
            device: None,
            sample_rate: DEFAULT_SAMPLE_RATE,
            streaming: false,
            buffer: Vec::new(),
        }
    }

    /// Selects the input device `index`.
    pub fn set_device(&mut self, index: usize)
        ensures
            final(self).device() == Some(index),
            final(self).rate() == old(self).rate(),
            final(self).streaming() == old(self).streaming(),
            final(self).buffered() == old(self).buffered(),
    {
        self.device = Some(index);
    }

    /// The rate of the samples in the buffer.
    pub fn sample_rate(&self) -> (rate: u32)
        ensures
            rate == self.rate(),
    {
        self.sample_rate
    }

    /// Tells whether a stream is open.
    pub fn is_streaming(&self) -> (streaming: bool)
        ensures
            streaming == self.streaming(),
    {
        self.streaming
    }

    /// Begins a recording: any open stream counts as closed from now on, and
    /// the plan names the device to open. The caller opens it, reports its
    /// rate with `device_ready`, builds and starts the stream, and reports
    /// that with `stream_started`.
    pub fn start(&mut self) -> (plan: StartPlan)
        ensures
            !final(self).streaming(),
            final(self).device() == old(self).device(),
            final(self).rate() == old(self).rate(),
            final(self).buffered() == old(self).buffered(),
            plan.close_first == old(self).streaming(),
            plan.open == match old(self).device() {
                Some(index) => Ok::<usize, AudioError>(index),
                None => Err::<usize, AudioError>(AudioError::NoDevice),
            },
    {
        let close_first = self.streaming;
        self.streaming = false;
        StartPlan {
            close_first,
            open: match self.device {
                Some(index) => Ok(index),
                None => Err(AudioError::NoDevice),
            },
        }
    }

    /// Takes the rate that the device delivers and empties the buffer.
    pub fn device_ready(&mut self, sample_rate: u32)
        ensures
            final(self).rate() == sample_rate,
            final(self).buffered().len() == 0,
            final(self).device() == old(self).device(),
            final(self).streaming() == old(self).streaming(),
    {
        self.sample_rate = sample_rate;
        self.buffer.clear();
    }

    /// Notes that the stream is open and delivers.
    pub fn stream_started(&mut self)
        ensures
            final(self).streaming(),
            final(self).device() == old(self).device(),
            final(self).rate() == old(self).rate(),
            final(self).buffered() == old(self).buffered(),
    {
        self.streaming = true;
    }

    /// Appends what the stream delivered.
    pub fn capture(&mut self, samples: &[i16])
        ensures
            final(self).buffered() == old(self).buffered() + samples@,
            final(self).device() == old(self).device(),
            final(self).rate() == old(self).rate(),
            final(self).streaming() == old(self).streaming(),
    {
        let ghost before = self.buffer@;
        self.buffer.extend_from_slice(samples);
        assert(self.buffer@ == before + samples@);
    }

    /// Ends the recording and hands out what was captured. The caller has
    /// closed the stream and waited `SETTLE_MS` before.
    pub fn stop(&mut self) -> (samples: Vec<i16>)
        ensures
            samples@ == old(self).buffered(),
            final(self).buffered().len() == 0,
            !final(self).streaming(),
            final(self).device() == old(self).device(),
            final(self).rate() == old(self).rate(),
    {
        self.streaming = false;
        let mut samples: Vec<i16> = Vec::new();
        std::mem::swap(&mut self.buffer, &mut samples);
        samples
    }

    /// Tells whether a file of `samples` samples can be written at this
    /// recorder's rate.
    pub fn can_save(&self, samples: usize) -> (ok: bool)
        ensures
            ok == encodable(self.format(), samples as int),
    {
        0 < self.sample_rate && self.sample_rate <= 0x7fff_ffff && samples <= 0x7fff_ffed
    }

    /// The content of the sound file that holds `audio_data` at this
    /// recorder's rate.
    pub fn save_to_file(&self, audio_data: &Vec<i16>) -> (saved: Result<Vec<u8>, AudioError>)
        requires
            encodable(self.format(), audio_data@.len() as int),
        ensures
            saved matches Ok(bytes) && bytes@ == wav_file(self.format(), audio_data@),
    {
        let format = WavFormat {
            channels: 1,
            sample_rate: self.sample_rate,
            bits_per_sample: 16,
            sample_kind: SampleKind::Int,
        };
        match write_wav(format, audio_data) {
            Ok(bytes) => Ok(bytes),
            Err(error) => Err(AudioError::Encode(error_text(&error))),
        }
    }
}

} // verus!

//! The speech engine's rules: the model files it needs, the silence trim,
//! the worker's wire format, the transcript clean-up, and when a loaded
//! worker is kept or released.
use vstd::prelude::*;

use crate::paths::{bytes_of, copy_bytes, display_path, join_path, path_join, utf8_lossy};
use crate::text::{normalize_transcript, normalized, strings_view, words};

verus! {

/// Sample rate the speech engine expects, in Hz.
pub const SAMPLE_RATE: usize = 16_000;

/// Shortest speech, after trimming, that is transcribed: a quarter second.
pub const MIN_AUDIO_SAMPLES: usize = 4_000;

/// Length of the windows whose loudness the silence trim measures.
pub const TRIM_WINDOW_SAMPLES: usize = 160;

/// Silence kept on each side of the speech: a quarter second.
pub const TRIM_PADDING_SAMPLES: usize = 4_000;

/// Longest recording the worker accepts: five minutes.
pub const MAX_WORKER_SAMPLES: usize = 4_800_000;

/// Inactivity after which a loaded worker is released: ten minutes.
pub const MODEL_IDLE_TIMEOUT_SECONDS: u64 = 600;

// ---------------------------------------------------------------------------
// Errors
// ---------------------------------------------------------------------------

/// Why a transcription did not produce text.
pub enum TranscribeError {
    NoSpeech,
    TooShort,
    RecordingTooLong,
    Worker(String),
    NotReady,
    MissingTranscript,
    EmptyTranscript,
    WavFormat,
}

impl TranscribeError {
    pub open spec fn spec_message(&self) -> Seq<char> {
        match self {
            TranscribeError::NoSpeech => "no speech was detected"@,
            TranscribeError::TooShort => "the recording is too short"@,
            TranscribeError::RecordingTooLong => "recording exceeds five minutes"@,
            TranscribeError::Worker(e) => "Photon: "@ + e@,
            TranscribeError::NotReady => "Photon did not signal readiness"@,
            TranscribeError::MissingTranscript => "missing Photon transcript"@,
            TranscribeError::EmptyTranscript => "Parakeet produced no text"@,
            TranscribeError::WavFormat => "WAV input must be mono 16 kHz"@,
        }
    }

    pub fn message(&self) -> (s: String)
        ensures
            s@ == self.spec_message(),
    {
        match self {
            TranscribeError::NoSpeech => String::from_str("no speech was detected"),
            TranscribeError::TooShort => String::from_str("the recording is too short"),
            TranscribeError::RecordingTooLong => String::from_str("recording exceeds five minutes"),
            TranscribeError::Worker(e) => String::from_str("Photon: ").concat(e.as_str()),
            TranscribeError::NotReady => String::from_str("Photon did not signal readiness"),
            TranscribeError::MissingTranscript => String::from_str("missing Photon transcript"),
            TranscribeError::EmptyTranscript => String::from_str("Parakeet produced no text"),
            TranscribeError::WavFormat => String::from_str("WAV input must be mono 16 kHz"),
        }
    }
}

// ---------------------------------------------------------------------------
// Model files
// ---------------------------------------------------------------------------

/// The files a model directory must hold: those of the Parakeet Redux
/// model that the Photon worker loads, namely its weights, configuration,
/// tokenizer and ternary quantisation table. The files of Parakeet's ONNX
/// export (`encoder-model.int8.onnx`, `decoder_joint-model.int8.onnx`,
/// `nemo128.onnx`, `vocab.txt`) are not what the worker loads, so a
/// directory that holds only those is incomplete.
pub open spec fn required_model_files() -> Seq<Seq<char>> {
    seq!["model.safetensors"@, "config.json"@, "tokenizer.json"@, "ternary.json"@]
}

pub fn required_model_file_names() -> (v: [&'static str; 4])
    ensures
        v@.map_values(|s: &str| s@) == required_model_files(),
{
    let v: [&'static str; 4] = ["model.safetensors", "config.json", "tokenizer.json", "ternary.json"];
    assert(v@.map_values(|s: &str| s@) =~= required_model_files());
    v
}

/// The paths of the required files under a model directory, in the order
/// of `required_model_files`.
pub fn model_file_paths(dir: &[u8]) -> (v: Vec<Vec<u8>>)
    ensures
        v@.len() == 4,
        forall|k: int|
            0 <= k < 4 ==> (#[trigger] v@[k])@ == path_join(
                dir@,
                bytes_of(required_model_files()[k]),
            ),
{
    let names = required_model_file_names();
    let mut v: Vec<Vec<u8>> = Vec::new();
    let mut i: usize = 0;
    while i < 4
        invariant
            i <= 4,
            v@.len() == i,
            names@.len() == 4,
            names@.map_values(|s: &str| s@) == required_model_files(),
            forall|k: int|
                0 <= k < i ==> (#[trigger] v@[k])@ == path_join(
                    dir@,
                    bytes_of(required_model_files()[k]),
                ),
        decreases 4 - i,
    {
        assert(names@[i as int]@ == required_model_files()[i as int]);
        v.push(join_path(dir, names[i].as_bytes()));
        i = i + 1;
    }
    v
}

/// Whether every required file is there; `present[k]` tells whether the
/// `k`-th path of `model_file_paths` is a file.
pub fn model_files_present(present: &[bool; 4]) -> (r: bool)
    ensures
        r == (forall|k: int| 0 <= k < 4 ==> present@[k]),
{
    present[0] && present[1] && present[2] && present[3]
}

/// The names of the required files that are not there, in order.
pub open spec fn missing_files(present: Seq<bool>, n: int) -> Seq<Seq<char>>
    decreases n,
{
    if n <= 0 {
        Seq::empty()
    } else if present[n - 1] {
        missing_files(present, n - 1)
    } else {
        missing_files(present, n - 1).push(required_model_files()[n - 1])
    }
}

/// `list` joined by `sep`.
pub open spec fn join_with(list: Seq<Seq<char>>, sep: Seq<char>) -> Seq<char>
    decreases list.len(),
{
    if list.len() == 0 {
        Seq::empty()
    } else if list.len() == 1 {
        list[0]
    } else {
        join_with(list.drop_last(), sep) + sep + list.last()
    }
}


/// A model directory that lacks required files.
pub struct ModelError {
    pub path: Vec<u8>,
    pub missing: Vec<String>,
}

fn join_strings(list: &Vec<String>, sep: &str) -> (r: String)
    ensures
        r@ == join_with(strings_view(list@), sep@),
{
    let mut r = String::new();
    let mut i: usize = 0;
    while i < list.len()
        invariant
            i <= list@.len(),
            r@ == join_with(strings_view(list@.take(i as int)), sep@),
        decreases list@.len() - i,
    {
        let ghost before = list@.take(i as int);
        assert(strings_view(list@.take(i + 1)).drop_last() =~= strings_view(before));
        assert(strings_view(list@.take(i + 1)).last() == list@[i as int]@);
        if i == 0 {
            r = list[i].clone();
            assert(strings_view(list@.take(1)) =~= seq![list@[0]@]);
        } else {
            r = r.concat(sep);
            r = r.concat(list[i].as_str());
        }
        i = i + 1;
    }
    assert(list@.take(list@.len() as int) =~= list@);
    r
}

impl ModelError {
    pub open spec fn spec_message(&self) -> Seq<char> {
        "incomplete Parakeet model at "@ + utf8_lossy(self.path@) + " (missing files: "@
            + join_with(strings_view(self.missing@), ", "@) + ")"@
    }

    pub fn message(&self) -> (s: String)
        ensures
            s@ == self.spec_message(),
    {
        let shown = display_path(self.path.as_slice());
        let listed = join_strings(&self.missing, ", ");
        String::from_str("incomplete Parakeet model at ").concat(shown.as_str()).concat(
            " (missing files: ",
        ).concat(listed.as_str()).concat(")")
    }
}

/// Accepts a model directory that holds every required file, and otherwise
/// names the files that are missing.
pub fn validate_model_directory(path: &[u8], present: &[bool; 4]) -> (r: Result<(), ModelError>)
    ensures
        r is Ok <==> (forall|k: int| 0 <= k < 4 ==> present@[k]),
        r matches Err(e) ==> e.path@ == path@ && strings_view(e.missing@) == missing_files(
            present@,
            4,
        ),
{
    let names = required_model_file_names();
    let mut missing: Vec<String> = Vec::new();
    let mut i: usize = 0;
    while i < 4
        invariant
            i <= 4,
            names@.len() == 4,
            names@.map_values(|s: &str| s@) == required_model_files(),
            strings_view(missing@) == missing_files(present@, i as int),
            (missing@.len() == 0) == (forall|k: int| 0 <= k < i ==> present@[k]),
        decreases 4 - i,
    {
        assert(names@[i as int]@ == required_model_files()[i as int]);
        if !present[i] {
            let ghost before = missing@;
            missing.push(String::from_str(names[i]));
            assert(strings_view(missing@) =~= strings_view(before).push(names@[i as int]@));
        }
        i = i + 1;
    }
    if missing.len() == 0 {
        Ok(())
    } else {
        Err(ModelError { path: copy_bytes(path), missing })
    }
}

// ---------------------------------------------------------------------------
// Silence trim
// ---------------------------------------------------------------------------

/// Number of trim windows over `len` samples.
pub open spec fn window_count(len: int) -> int {
    (len + 159) / 160
}

pub open spec fn min(a: int, b: int) -> int {
    if a < b {
        a
    } else {
        b
    }
}

/// `first` and `last` are the first and last active windows.
pub open spec fn active_span(active: Seq<bool>, first: int, last: int) -> bool {
    &&& 0 <= first <= last < active.len()
    &&& active[first]
    &&& active[last]
    &&& forall|k: int| 0 <= k < first ==> !#[trigger] active[k]
    &&& forall|k: int| last < k < active.len() ==> !#[trigger] active[k]
}

/// The samples kept around the speech from the first to the last active
/// window: a quarter second of padding on each side, within the recording.
pub open spec fn trimmed_bounds(first: int, last: int, len: int) -> (int, int) {
    let lo = first * 160;
    let hi = min((last + 1) * 160, len);
    (if lo >= 4000 {
        lo - 4000
    } else {
        0
    }, min(hi + 4000, len))
}

/// Where the speech of a recording of `len` samples lies; `active[k]` tells
/// whether window `k` (samples `160 k` up to `160 (k + 1)`) is loud enough.
/// None when no window is.
pub fn trim_silence(active: &[bool], len: usize) -> (r: Option<(usize, usize)>)
    requires
        active@.len() == window_count(len as int),
    ensures
        r is None <==> (forall|k: int| 0 <= k < active@.len() ==> !active@[k]),
        r matches Some(b) ==> exists|first: int, last: int|
            active_span(active@, first, last) && trimmed_bounds(first, last, len as int) == (
                b.0 as int,
                b.1 as int,
            ),
        r matches Some(b) ==> b.0 <= b.1 <= len,
{
    let mut first: Option<usize> = None;
    let mut last: usize = 0;
    let mut k: usize = 0;
    while k < active.len()
        invariant
            k <= active@.len(),
            active@.len() == window_count(len as int),
            first is None <==> (forall|j: int| 0 <= j < k ==> !active@[j]),
            first matches Some(f) ==> (f <= last < k && active@[f as int] && active@[last as int]
                && (forall|j: int| 0 <= j < f ==> !#[trigger] active@[j]) && (forall|j: int|
                last < j < k ==> !#[trigger] active@[j])),
        decreases active@.len() - k,
    {
        if active[k] {
            if first.is_none() {
                first = Some(k);
            }
            last = k;
        }
        k = k + 1;
    }
    match first {
        None => None,
        Some(f) => {
            assert(active_span(active@, f as int, last as int));
            assert(last < window_count(len as int));
            assert(last * 160 < len) by (nonlinear_arith)
                requires
                    last < (len + 159) / 160,
            ;
            assert(f * 160 <= last * 160) by (nonlinear_arith)
                requires
                    f <= last,
            ;
            let lo = f * 160;
            let last_lo = last * 160;
            let hi = if len - last_lo > 160 {
                last_lo + 160
            } else {
                len
            };
            let start = if lo >= 4000 {
                lo - 4000
            } else {
                0
            };
            let end = if len - hi >= 4000 {
                hi + 4000
            } else {
                len
            };
            assert(trimmed_bounds(f as int, last as int, len as int) == (start as int, end as int));
            Some((start, end))
        },
    }
}

/// The kept samples cover every active window, with a quarter second of
/// silence before the first and after the last where the recording has it.
pub proof fn law_trim_keeps_speech(active: Seq<bool>, first: int, last: int, len: int, k: int)
    requires
        len >= 0,
        active.len() == window_count(len),
        active_span(active, first, last),
        0 <= k < active.len(),
        active[k],
    ensures
        ({
            let (s, e) = trimmed_bounds(first, last, len);
            &&& s <= k * 160
            &&& min((k + 1) * 160, len) <= e
            &&& first * 160 - s == min(4000, first * 160)
            &&& e - min((last + 1) * 160, len) == min(4000, len - min((last + 1) * 160, len))
        }),
{
    assert(first <= k <= last);
    assert(first * 160 <= k * 160) by (nonlinear_arith)
        requires
            first <= k,
    ;
    assert((k + 1) * 160 <= (last + 1) * 160) by (nonlinear_arith)
        requires
            k <= last,
    ;
}

/// The part of a recording that is transcribed, or why none is: no active
/// window, or less than a quarter second once trimmed.
pub fn select_speech(active: &[bool], len: usize) -> (r: Result<(usize, usize), TranscribeError>)
    requires
        active@.len() == window_count(len as int),
    ensures
        (forall|k: int| 0 <= k < active@.len() ==> !active@[k]) ==> r matches Err(
            TranscribeError::NoSpeech,
        ),
        (exists|k: int| 0 <= k < active@.len() && active@[k]) ==> exists|first: int, last: int|
            active_span(active@, first, last) && {
                let (s, e) = trimmed_bounds(first, last, len as int);
                if e - s < 4000 {
                    r matches Err(TranscribeError::TooShort)
                } else {
                    r == Ok::<(usize, usize), TranscribeError>((s as usize, e as usize))
                }
            },
{
    match trim_silence(active, len) {
        None => Err(TranscribeError::NoSpeech),
        Some((start, end)) => {
            if end - start < MIN_AUDIO_SAMPLES {
                Err(TranscribeError::TooShort)
            } else {
                Ok((start, end))
            }
        },
    }
}

// ---------------------------------------------------------------------------
// The worker's wire format
// ---------------------------------------------------------------------------

/// A 32-bit word as little-endian bytes.
pub open spec fn le32(x: u32) -> Seq<u8> {
    seq![(x % 256) as u8, ((x / 256) % 256) as u8, ((x / 65536) % 256) as u8, (x / 16777216) as u8]
}

pub open spec fn le32_all(xs: Seq<u32>) -> Seq<u8>
    decreases xs.len(),
{
    if xs.len() == 0 {
        Seq::empty()
    } else {
        le32_all(xs.drop_last()) + le32(xs.last())
    }
}

/// A transcription request: the byte length of the audio as a
/// little-endian 32-bit word, then each sample's bits, little-endian.
pub open spec fn audio_request(bits: Seq<u32>) -> Seq<u8> {
    le32((bits.len() * 4) as u32) + le32_all(bits)
}

/// A transcription request is a four-byte header that holds the payload's
/// length, followed by four bytes per sample.
pub proof fn law_audio_request_layout(bits: Seq<u32>)
    requires
        bits.len() <= MAX_WORKER_SAMPLES,
    ensures
        audio_request(bits).len() == 4 + 4 * bits.len(),
        audio_request(bits).take(4) == le32((4 * bits.len()) as u32),
        audio_request(bits).skip(4) == le32_all(bits),
        le32_all(bits).len() == 4 * bits.len(),
        (4 * bits.len()) as u32 == 4 * bits.len(),
{
    lemma_le32_all_len(bits);
    let r = audio_request(bits);
    assert(r.take(4) =~= le32((bits.len() * 4) as u32));
    assert(r.skip(4) =~= le32_all(bits));
}

proof fn lemma_le32_all_len(bits: Seq<u32>)
    ensures
        le32_all(bits).len() == 4 * bits.len(),
    decreases bits.len(),
{
    if bits.len() > 0 {
        lemma_le32_all_len(bits.drop_last());
    }
}

fn push_le32(out: &mut Vec<u8>, x: u32)
    ensures
        final(out)@ == old(out)@ + le32(x),
{
    out.push((x % 256) as u8);
    out.push(((x / 256) % 256) as u8);
    out.push(((x / 65536) % 256) as u8);
    out.push((x / 16777216) as u8);
    assert(final(out)@ =~= old(out)@ + le32(x));
}

/// Frames samples, given by their IEEE-754 bits, for the worker; a
/// recording over five minutes is refused.
pub fn encode_audio_request(sample_bits: &[u32]) -> (r: Result<Vec<u8>, TranscribeError>)
    ensures
        sample_bits@.len() > MAX_WORKER_SAMPLES ==> r matches Err(
            TranscribeError::RecordingTooLong,
        ),
        sample_bits@.len() <= MAX_WORKER_SAMPLES ==> (r matches Ok(v) && v@ == audio_request(
            sample_bits@,
        )),
{
    if sample_bits.len() > MAX_WORKER_SAMPLES {
        return Err(TranscribeError::RecordingTooLong);
    }
    let n = sample_bits.len();
    let mut out: Vec<u8> = Vec::new();
    push_le32(&mut out, (n * 4) as u32);
    let mut i: usize = 0;
    while i < n
        invariant
            n == sample_bits@.len(),
            n <= MAX_WORKER_SAMPLES,
            i <= n,
            out@ == le32((n * 4) as u32) + le32_all(sample_bits@.take(i as int)),
        decreases n - i,
    {
        let ghost before = out@;
        push_le32(&mut out, sample_bits[i]);
        assert(sample_bits@.take(i + 1).drop_last() =~= sample_bits@.take(i as int));
        assert(out@ =~= le32((n * 4) as u32) + le32_all(sample_bits@.take(i + 1)));
        i = i + 1;
    }
    assert(sample_bits@.take(n as int) =~= sample_bits@);
    Ok(out)
}

/// What a worker reply line holds, where the fields have the expected type.
pub struct WorkerReply {
    pub error: Option<String>,
    pub ready: Option<bool>,
    pub text: Option<String>,
}

/// A reply that reports an error is a failure carrying its text.
pub fn check_worker_reply(reply: WorkerReply) -> (r: Result<WorkerReply, TranscribeError>)
    ensures
        match reply.error {
            Some(e) => r matches Err(TranscribeError::Worker(m)) && m@ == e@,
            None => r matches Ok(v) && v == reply,
        },
{
    match reply.error {
        Some(e) => Err(TranscribeError::Worker(e)),
        None => Ok(reply),
    }
}

/// The worker's first reply must report readiness.
pub fn worker_ready(reply: WorkerReply) -> (r: Result<(), TranscribeError>)
    ensures
        reply.error is None && reply.ready == Some(true) ==> r is Ok,
        reply.error is None && reply.ready != Some(true) ==> r matches Err(
            TranscribeError::NotReady,
        ),
        (reply.error matches Some(e) ==> (r matches Err(TranscribeError::Worker(m)) && m@ == e@)),
{
    let reply = check_worker_reply(reply)?;
    match reply.ready {
        Some(true) => Ok(()),
        _ => Err(TranscribeError::NotReady),
    }
}

/// The raw transcript of a worker reply.
pub fn worker_transcript(reply: WorkerReply) -> (r: Result<String, TranscribeError>)
    ensures
        reply.error is None ==> match reply.text {
            Some(t) => r matches Ok(s) && s@ == t@,
            None => r matches Err(TranscribeError::MissingTranscript),
        },
        (reply.error matches Some(e) ==> (r matches Err(TranscribeError::Worker(m)) && m@ == e@)),
{
    let reply = check_worker_reply(reply)?;
    match reply.text {
        Some(t) => Ok(t),
        None => Err(TranscribeError::MissingTranscript),
    }
}

/// The transcript with its whitespace normalised; a transcript without a
/// word is an error.
pub fn finish_transcript(raw: &str) -> (r: Result<String, TranscribeError>)
    ensures
        words(raw@).len() == 0 ==> r matches Err(TranscribeError::EmptyTranscript),
        words(raw@).len() > 0 ==> (r matches Ok(s) && s@ == normalized(raw@)),
{
    let text = normalize_transcript(raw);
    proof {
        crate::text::law_normalized_empty(raw@);
    }
    if text.as_str().is_empty() {
        Err(TranscribeError::EmptyTranscript)
    } else {
        Ok(text)
    }
}

/// A WAV file is transcribed only when it is mono at 16 kHz.
pub fn check_wav_format(channels: u16, sample_rate: u32) -> (r: Result<(), TranscribeError>)
    ensures
        r is Ok <==> (channels == 1 && sample_rate == 16000),
        r matches Err(e) ==> e is WavFormat,
{
    if channels != 1 || sample_rate != 16000 {
        Err(TranscribeError::WavFormat)
    } else {
        Ok(())
    }
}

// ---------------------------------------------------------------------------
// Worker lifecycle
// ---------------------------------------------------------------------------

/// Time elapsed from `then` to `now`, zero if `now` is earlier, as
/// `Instant::elapsed` measures it.
pub open spec fn elapsed(then: u128, now: u128) -> int {
    if now >= then {
        now - then
    } else {
        0
    }
}

/// The model state after an idle check: whether a worker stays loaded, when
/// it was last used, and whether the check released one.
pub open spec fn unload_step(
    loaded: bool,
    last_used: Option<u128>,
    now: u128,
    idle_timeout: u128,
) -> (bool, Option<u128>, bool) {
    match last_used {
        None => (loaded, last_used, false),
        Some(t) => if elapsed(t, now) < idle_timeout {
            (loaded, last_used, false)
        } else {
            (false, None, loaded)
        },
    }
}

/// The loaded speech worker, if any, and when it was last used (in
/// nanoseconds on a monotonic clock).
pub struct TranscriberState<W> {
    model: Option<W>,
    last_used: Option<u128>,
}

impl<W> TranscriberState<W> {
    /// Whether a worker is loaded: there is one.
    pub open spec fn loaded(&self) -> bool {
        self.spec_model() is Some
    }

    pub closed spec fn spec_last_used(&self) -> Option<u128> {
        self.last_used
    }

    /// The loaded worker, if any.
    pub closed spec fn spec_model(&self) -> Option<W> {
        self.model
    }

    /// No worker, never used.
    pub fn new() -> (s: Self)
        ensures
            !s.loaded(),
            s.spec_last_used() is None,
    {
        TranscriberState { model: None, last_used: None }
    }

    pub fn is_loaded(&self) -> (b: bool)
        ensures
            b == self.loaded(),
    {
        self.model.is_some()
    }

    pub fn last_used(&self) -> (t: Option<u128>)
        ensures
            t == self.spec_last_used(),
    {
        self.last_used
    }

    /// Keeps a freshly started worker.
    pub fn install(&mut self, worker: W)
        ensures
            final(self).loaded(),
            final(self).spec_model() == Some(worker),
            final(self).spec_last_used() == old(self).spec_last_used(),
    {
        self.model = Some(worker);
    }

    /// Lends out the loaded worker for one transcription.
    pub fn take_model(&mut self) -> (w: Option<W>)
        ensures
            w is Some == old(self).loaded(),
            w == old(self).spec_model(),
            !final(self).loaded(),
            final(self).spec_last_used() == old(self).spec_last_used(),
    {
        self.model.take()
    }

    /// Records a use at `now`; the worker is kept when the transcription
    /// succeeded and dropped, to be started afresh next time, when it failed.
    pub fn finish_use(&mut self, worker: W, succeeded: bool, now: u128)
        ensures
            final(self).loaded() == succeeded,
            succeeded ==> final(self).spec_model() == Some(worker),
            final(self).spec_last_used() == Some(now),
    {
        self.last_used = Some(now);
        if succeeded {
            self.model = Some(worker);
        } else {
            self.model = None;
        }
    }

    /// Records a use at `now` without touching the worker.
    pub fn mark_used(&mut self, now: u128)
        ensures
            final(self).loaded() == old(self).loaded(),
            final(self).spec_model() == old(self).spec_model(),
            final(self).spec_last_used() == Some(now),
    {
        self.last_used = Some(now);
    }

    /// Releases the worker when it has not been used for `idle_timeout`;
    /// tells whether a worker was released.
    pub fn unload_if_idle(&mut self, now: u128, idle_timeout: u128) -> (unloaded: bool)
        ensures
            (final(self).loaded(), final(self).spec_last_used(), unloaded) == unload_step(
                old(self).loaded(),
                old(self).spec_last_used(),
                now,
                idle_timeout,
            ),
            final(self).loaded() ==> final(self).spec_model() == old(self).spec_model(),
    {
        let last = match self.last_used {
            None => {
                return false;
            },
            Some(t) => t,
        };
        let idle = if now >= last {
            now - last
        } else {
            0
        };
        if idle < idle_timeout {
            return false;
        }
        let unloaded = self.model.take().is_some();
        self.last_used = None;
        unloaded
    }
}

/// A worker used within the idle timeout stays loaded; once released, a
/// worker is not released again until it is used anew; a zero timeout
/// releases a used worker at once.
pub proof fn law_idle_unload(loaded: bool, t: u128, now: u128, idle_timeout: u128)
    ensures
        elapsed(t, now) < idle_timeout ==> unload_step(loaded, Some(t), now, idle_timeout) == (
            loaded,
            Some(t),
            false,
        ),
        ({
            let (l, u, _) = unload_step(loaded, Some(t), now, idle_timeout);
            unload_step(l, u, now, idle_timeout).2 == false
        }),
        unload_step(loaded, Some(t), now, 0) == (false, None::<u128>, loaded),
{
}

/// A loaded worker last used at `t` is released once at least
/// `idle_timeout` has passed, that is when `now - t >= idle_timeout`; it is
/// kept while less has passed; a clock that went back counts as no time
/// passed.
pub proof fn law_idle_release_after_timeout(loaded: bool, t: u128, now: u128, idle_timeout: u128)
    ensures
        now >= t && now - t >= idle_timeout ==> unload_step(loaded, Some(t), now, idle_timeout)
            == (false, None::<u128>, loaded),
        now >= t && now - t < idle_timeout ==> unload_step(loaded, Some(t), now, idle_timeout)
            == (loaded, Some(t), false),
        now < t && idle_timeout > 0 ==> unload_step(loaded, Some(t), now, idle_timeout) == (
            loaded,
            Some(t),
            false,
        ),
        now >= t ==> elapsed(t, now) == now - t,
        unload_step(true, Some(0), 700_000_000_000, 600_000_000_000) == (false, None::<u128>, true),
{
}


} // verus!

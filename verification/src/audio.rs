//! The recorder's rules: one recording at a time, a bounded capture
//! buffer, the input-device listing, and the shape of the 16 kHz
//! resampling. Samples themselves are a type parameter: nothing here
//! computes on them.
use vstd::prelude::*;

use crate::text::str_eq;

verus! {

/// Sample rate the speech engine takes, in Hz.
pub const TARGET_SAMPLE_RATE: u32 = 16_000;

/// Longest capture, in seconds: five minutes.
pub const MAX_RECORDING_SECONDS: usize = 300;

/// Frames the resampler takes per block.
pub const RESAMPLER_CHUNK_SIZE: usize = 1024;

/// Why the recorder refused or failed.
#[derive(Clone, Copy, Debug, PartialEq, Eq, Structural)]
pub enum AudioError {
    AlreadyRecording,
    NotRecording,
    TooLong,
    NoSamples,
}

impl AudioError {
    pub open spec fn spec_message(self) -> Seq<char> {
        match self {
            AudioError::AlreadyRecording => "a recording is already in progress"@,
            AudioError::NotRecording => "no recording is in progress"@,
            AudioError::TooLong => "the recording exceeds the five-minute limit"@,
            AudioError::NoSamples => "no microphone samples were received"@,
        }
    }

    pub fn message(&self) -> (s: String)
        ensures
            s@ == self.spec_message(),
    {
        match self {
            AudioError::AlreadyRecording => String::from_str("a recording is already in progress"),
            AudioError::NotRecording => String::from_str("no recording is in progress"),
            AudioError::TooLong => String::from_str("the recording exceeds the five-minute limit"),
            AudioError::NoSamples => String::from_str("no microphone samples were received"),
        }
    }
}

/// An input device as listed to the user.
pub struct InputDeviceInfo {
    pub name: String,
    pub is_default: bool,
}

/// Lists the devices whose names are known, marking the default one.
pub fn list_input_devices(names: Vec<String>, default_name: Option<String>) -> (v: Vec<
    InputDeviceInfo,
>)
    ensures
        v@.len() == names@.len(),
        forall|k: int|
            0 <= k < names@.len() ==> (#[trigger] v@[k]).name@ == names@[k]@ && v@[k].is_default
                == (default_name matches Some(d) && d@ == names@[k]@),
{
    let mut v: Vec<InputDeviceInfo> = Vec::new();
    let mut i: usize = 0;
    while i < names.len()
        invariant
            i <= names@.len(),
            v@.len() == i,
            forall|k: int|
                0 <= k < i ==> (#[trigger] v@[k]).name@ == names@[k]@ && v@[k].is_default == (
                default_name matches Some(d) && d@ == names@[k]@),
        decreases names@.len() - i,
    {
        let name = names[i].clone();
        let is_default = match &default_name {
            Some(d) => *d == name,
            None => false,
        };
        v.push(InputDeviceInfo { name, is_default });
        i = i + 1;
    }
    v
}

/// The first device whose name is `preferred`.
pub fn select_input_device(names: &Vec<Option<String>>, preferred: &str) -> (r: Option<usize>)
    ensures
        r matches Some(i) ==> i < names@.len() && (names@[i as int] matches Some(n) && n@
            == preferred@),
        r matches Some(i) ==> forall|j: int|
            0 <= j < i ==> !(#[trigger] names@[j] matches Some(n) && n@ == preferred@),
        r is None ==> forall|j: int|
            0 <= j < names@.len() ==> !(#[trigger] names@[j] matches Some(n) && n@
                == preferred@),
{
    let mut i: usize = 0;
    while i < names.len()
        invariant
            i <= names@.len(),
            forall|j: int|
                0 <= j < i ==> !(#[trigger] names@[j] matches Some(n) && n@ == preferred@),
        decreases names@.len() - i,
    {
        match &names[i] {
            Some(n) => {
                if str_eq(n.as_str(), preferred) {
                    return Some(i);
                }
            },
            None => {},
        }
        i = i + 1;
    }
    None
}

/// Why a configured device cannot be used.
pub fn device_not_found_message(preferred: &str) -> (s: String)
    ensures
        s@ == "configured input device not found: "@ + preferred@,
{
    String::from_str("configured input device not found: ").concat(preferred)
}

/// A device's name, or `Microphone` when it has none to give.
pub fn device_display_name(name: Option<String>) -> (s: String)
    ensures
        s@ == (match name {
            Some(n) => n@,
            None => "Microphone"@,
        }),
{
    match name {
        Some(n) => n,
        None => String::from_str("Microphone"),
    }
}

/// Most mono samples a capture at `sample_rate` may hold: five minutes.
pub fn max_capture_samples(sample_rate: u32) -> (n: usize)
    requires
        sample_rate as int * 300 <= usize::MAX,
    ensures
        n == sample_rate as int * 300,
{
    sample_rate as usize * MAX_RECORDING_SECONDS
}

/// Capacity reserved for a new capture: thirty seconds.
pub fn initial_capture_capacity(sample_rate: u32) -> (n: usize)
    requires
        sample_rate as int * 30 <= usize::MAX,
    ensures
        n == sample_rate as int * 30,
{
    sample_rate as usize * 30
}

/// Mono samples captured so far, never more than the limit; once a batch
/// would pass the limit the capture is marked overflowed and takes no more.
pub struct CaptureBuffer<S> {
    samples: Vec<S>,
    overflowed: bool,
    max_samples: usize,
}

impl<S> CaptureBuffer<S> {
    #[verifier::type_invariant]
    closed spec fn wf(&self) -> bool {
        self.samples@.len() <= self.max_samples
    }

    pub closed spec fn spec_samples(&self) -> Seq<S> {
        self.samples@
    }

    pub closed spec fn spec_overflowed(&self) -> bool {
        self.overflowed
    }

    pub closed spec fn spec_max(&self) -> usize {
        self.max_samples
    }

    /// An empty capture limited to `max_samples`.
    pub fn new(max_samples: usize, capacity: usize) -> (b: Self)
        ensures
            b.spec_samples().len() == 0,
            !b.spec_overflowed(),
            b.spec_max() == max_samples,
    {
        CaptureBuffer { samples: Vec::with_capacity(capacity), overflowed: false, max_samples }
    }

    pub fn is_overflowed(&self) -> (b: bool)
        ensures
            b == self.spec_overflowed(),
    {
        self.overflowed
    }

    pub fn len(&self) -> (n: usize)
        ensures
            n == self.spec_samples().len(),
            n <= self.spec_max(),
    {
        proof {
            use_type_invariant(self);
        }
        self.samples.len()
    }

    /// Appends a batch of mono frames unless the capture overflowed or the
    /// batch would take it past its limit, which marks it overflowed; tells
    /// whether the batch was kept.
    pub fn push_frames(&mut self, frames: Vec<S>) -> (kept: bool)
        ensures
            final(self).spec_samples().len() <= final(self).spec_max(),
            final(self).spec_max() == old(self).spec_max(),
            kept == (!old(self).spec_overflowed() && old(self).spec_samples().len()
                + frames@.len() <= old(self).spec_max()),
            kept ==> final(self).spec_samples() == old(self).spec_samples() + frames@,
            !kept ==> final(self).spec_samples() == old(self).spec_samples(),
            final(self).spec_overflowed() == (old(self).spec_overflowed() || !kept),
    {
        proof {
            use_type_invariant(&*self);
        }
        if self.overflowed {
            return false;
        }
        if frames.len() > self.max_samples - self.samples.len() {
            self.overflowed = true;
            return false;
        }
        let mut frames = frames;
        let mut held: Vec<S> = Vec::new();
        std::mem::swap(&mut held, &mut self.samples);
        held.append(&mut frames);
        self.samples = held;
        true
    }

    /// Takes the captured samples when the capture stayed within its limit
    /// and received something.
    pub fn take_samples(&mut self) -> (r: Result<Vec<S>, AudioError>)
        ensures
            old(self).spec_overflowed() ==> r == Err::<Vec<S>, AudioError>(AudioError::TooLong),
            !old(self).spec_overflowed() && old(self).spec_samples().len() == 0 ==> r == Err::<
                Vec<S>,
                AudioError,
            >(AudioError::NoSamples),
            !old(self).spec_overflowed() && old(self).spec_samples().len() > 0 ==> (r matches Ok(
                v,
            ) && v@ == old(self).spec_samples()),
            !old(self).spec_overflowed() ==> final(self).spec_samples().len() == 0,
            old(self).spec_overflowed() ==> final(self).spec_samples() == old(self).spec_samples(),
            final(self).spec_overflowed() == old(self).spec_overflowed(),
            final(self).spec_max() == old(self).spec_max(),
    {
        if self.overflowed {
            return Err(AudioError::TooLong);
        }
        let mut raw: Vec<S> = Vec::new();
        std::mem::swap(&mut raw, &mut self.samples);
        if raw.len() == 0 {
            Err(AudioError::NoSamples)
        } else {
            Ok(raw)
        }
    }
}

/// The recorder's slot: at most one active recording, and the device the
/// user asked for.
pub struct AudioRecorder<A> {
    active: Option<A>,
    preferred_device: Option<String>,
}

impl<A> AudioRecorder<A> {
    /// Whether a recording is in progress: there is an active one.
    pub open spec fn recording(&self) -> bool {
        self.spec_active() is Some
    }

    /// The recording in progress, if any.
    pub closed spec fn spec_active(&self) -> Option<A> {
        self.active
    }

    pub closed spec fn spec_preferred_device(&self) -> Option<Seq<char>> {
        match self.preferred_device {
            Some(d) => Some(d@),
            None => None,
        }
    }

    /// An idle recorder that will open `preferred_device`, or the default
    /// input when none is given.
    pub fn new(preferred_device: Option<String>) -> (r: Self)
        ensures
            !r.recording(),
            r.spec_preferred_device() == (match preferred_device {
                Some(d) => Some(d@),
                None => None,
            }),
    {
        AudioRecorder { active: None, preferred_device }
    }

    pub fn is_recording(&self) -> (b: bool)
        ensures
            b == self.recording(),
    {
        self.active.is_some()
    }

    pub fn preferred_device(&self) -> (d: Option<String>)
        ensures
            (match d {
                Some(s) => Some(s@),
                None => None,
            }) == self.spec_preferred_device(),
    {
        match &self.preferred_device {
            Some(s) => Some(s.clone()),
            None => None,
        }
    }

    /// A recording may start only when none is in progress.
    pub fn check_can_start(&self) -> (r: Result<(), AudioError>)
        ensures
            r is Ok <==> !self.recording(),
            r matches Err(e) ==> e == AudioError::AlreadyRecording,
    {
        if self.active.is_some() {
            Err(AudioError::AlreadyRecording)
        } else {
            Ok(())
        }
    }

    /// Keeps a recording that started; refused while one is in progress, and
    /// the new one is handed back.
    pub fn activate(&mut self, recording: A) -> (r: Result<(), A>)
        ensures
            final(self).recording(),
            r is Ok <==> !old(self).recording(),
            r is Ok ==> final(self).spec_active() == Some(recording),
            r matches Err(back) ==> back == recording && final(self).spec_active() == old(
                self,
            ).spec_active(),
            final(self).spec_preferred_device() == old(self).spec_preferred_device(),
    {
        if self.active.is_some() {
            Err(recording)
        } else {
            self.active = Some(recording);
            Ok(())
        }
    }

    /// Ends the recording in progress and hands it over.
    pub fn deactivate(&mut self) -> (r: Result<A, AudioError>)
        ensures
            !final(self).recording(),
            r is Ok <==> old(self).recording(),
            r matches Ok(a) ==> old(self).spec_active() == Some(a),
            r matches Err(e) ==> e == AudioError::NotRecording,
            final(self).spec_preferred_device() == old(self).spec_preferred_device(),
    {
        match self.active.take() {
            Some(a) => Ok(a),
            None => Err(AudioError::NotRecording),
        }
    }

    /// Drops any recording in progress.
    pub fn cancel(&mut self)
        ensures
            !final(self).recording(),
            final(self).spec_preferred_device() == old(self).spec_preferred_device(),
    {
        self.active = None;
    }
}

/// How a capture reaches 16 kHz.
#[derive(Clone, Copy, Debug, PartialEq, Eq, Structural)]
pub enum ResamplePlan {
    /// The capture is already at 16 kHz and is used as it is.
    Passthrough,
    /// The capture is resampled to exactly `expected_len` samples.
    Resample { expected_len: usize },
}

/// The plan for `input_len` samples at `input_rate`: passthrough at 16 kHz,
/// else `input_len * 16000 / input_rate` samples (rounded down).
pub fn resample_plan(input_len: usize, input_rate: u32) -> (p: ResamplePlan)
    requires
        input_rate > 0,
        input_len as int * 16000 <= u64::MAX,
        input_len as int * 16000 / input_rate as int <= usize::MAX,
    ensures
        input_rate == TARGET_SAMPLE_RATE ==> p == ResamplePlan::Passthrough,
        input_rate != TARGET_SAMPLE_RATE ==> p == (ResamplePlan::Resample {
            expected_len: (input_len as int * 16000 / input_rate as int) as usize,
        }),
{
    if input_rate == TARGET_SAMPLE_RATE {
        return ResamplePlan::Passthrough;
    }
    let scaled: u64 = input_len as u64 * 16000;
    let expected = scaled / (input_rate as u64);
    ResamplePlan::Resample { expected_len: expected as usize }
}

/// Whether the resampler must be flushed further to expose its delayed
/// tail.
pub fn resample_needs_flush(output_len: usize, expected_len: usize, output_delay: usize) -> (b: bool)
    requires
        expected_len + output_delay <= usize::MAX,
    ensures
        b == (output_len < expected_len + output_delay),
{
    output_len < expected_len + output_delay
}

/// The part of the resampler's output that is kept: from its delay, for at
/// most `expected_len` samples, within what it produced. The kept part is
/// then padded with silence to `expected_len`.
pub fn resample_window(output_delay: usize, output_len: usize, expected_len: usize) -> (w: (
    usize,
    usize,
))
    ensures
        w.0 == (if output_delay < output_len {
            output_delay
        } else {
            output_len
        }),
        w.1 == (if w.0 + expected_len < output_len {
            w.0 + expected_len
        } else {
            output_len as int
        }),
        w.0 <= w.1 <= output_len,
{
    let start = if output_delay < output_len {
        output_delay
    } else {
        output_len
    };
    let end = if expected_len < output_len - start {
        start + expected_len
    } else {
        output_len
    };
    (start, end)
}

} // verus!

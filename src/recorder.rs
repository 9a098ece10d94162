//! The recording session controller: one capture session at a time, a
//! sample buffer shared between the capture callback and the stopping
//! caller, and the decision of what a finished session produces.
//!
//! The controller holds no threads or devices. The host runs the capture
//! loop and reports to it: the device's format, each chunk of samples, a
//! setup failure, the end of capture. It asks the controller what to do
//! next and performs that action.
use vstd::prelude::*;
use crate::wav::{
    AudioFormat, MAX_SAMPLES, encode_wav, duration_ms, spec_duration_ms, wav_file, fits_samples,
};

verus! {

/// How long `stop` waits for the capture thread: this many polls...
pub const STOP_POLL_LIMIT: u32 = 100;

/// ...spaced this many milliseconds apart.
pub const STOP_POLL_INTERVAL_MS: u64 = 50;

/// Interval between progress reports while recording, in milliseconds.
pub const PROGRESS_INTERVAL_MS: u64 = 200;

/// Sample rate assumed until the input device reports its own.
pub const DEFAULT_SAMPLE_RATE: u32 = 44100;

/// Channel count assumed until the input device reports its own.
pub const DEFAULT_CHANNELS: u16 = 1;

/// Lifecycle of the single capture session.
#[derive(Clone, Copy, Debug, PartialEq, Eq, Structural)]
pub enum SessionState {
    /// No session; the buffer holds what the last session captured.
    Idle,
    /// A capture thread is running and filling the buffer.
    Recording,
    /// Stop has been asked for; the capture thread has not finished yet.
    Stopping,
}

/// Failure of a controller call.
#[derive(Clone, Copy, Debug, PartialEq, Eq, Structural)]
pub enum RecorderError {
    /// `stop` was called with no session recording.
    NotRecording,
}

impl RecorderError {
    /// The message shown to the caller.
    pub fn message(&self) -> (r: String)
        ensures
            r@ == "Not recording"@,
    {
        String::from_str("Not recording")
    }
}

/// What `start` did.
#[derive(Clone, Copy, Debug, PartialEq, Eq, Structural)]
pub enum StartOutcome {
    /// A new session began: the host must spawn the capture thread.
    Started,
    /// A session was already active; nothing changed.
    AlreadyRecording,
}

impl StartOutcome {
    /// The status message returned to the caller.
    pub fn message(&self) -> (r: String)
        ensures
            *self == StartOutcome::Started ==> r@ == "Recording started"@,
            *self == StartOutcome::AlreadyRecording ==> r@ == "Already recording"@,
    {
        match self {
            StartOutcome::Started => String::from_str("Recording started"),
            StartOutcome::AlreadyRecording => String::from_str("Already recording"),
        }
    }
}

/// Periodic progress report while a session is active.
#[derive(Clone, Copy, Debug, PartialEq, Eq, Structural)]
pub struct RecordingStatus {
    pub recording: bool,
    pub duration_ms: u64,
}

impl RecordingStatus {
    /// The report for a session that has run for `elapsed_ms` of wall-clock time.
    pub fn progress(elapsed_ms: u64) -> (r: RecordingStatus)
        ensures
            r.recording,
            r.duration_ms == elapsed_ms,
    {
        RecordingStatus { recording: true, duration_ms: elapsed_ms }
    }
}

/// Outcome of one finished session, returned by `stop` and published.
#[derive(Clone, Debug)]
pub struct RecordingSaved {
    pub path: String,
    pub filename: String,
    pub duration_ms: u64,
    pub success: bool,
    pub error: Option<String>,
}

/// The controller's abstract state.
pub struct RecorderModel {
    pub state: SessionState,
    pub format: AudioFormat,
    pub samples: Seq<i16>,
}

/// `s` with `chunk` appended, cut off at the capacity of a WAV file.
pub open spec fn append_capped(s: Seq<i16>, chunk: Seq<i16>) -> Seq<i16> {
    let all = s + chunk;
    if all.len() <= MAX_SAMPLES {
        all
    } else {
        all.subrange(0, MAX_SAMPLES as int)
    }
}

/// The state after `start`.
pub open spec fn start_next(m: RecorderModel) -> RecorderModel {
    if m.state == SessionState::Idle {
        RecorderModel { state: SessionState::Recording, format: m.format, samples: seq![] }
    } else {
        m
    }
}

/// What `start` reports.
pub open spec fn start_outcome(m: RecorderModel) -> StartOutcome {
    if m.state == SessionState::Idle {
        StartOutcome::Started
    } else {
        StartOutcome::AlreadyRecording
    }
}

/// The state after the capture thread learns the device's format.
pub open spec fn format_next(m: RecorderModel, f: AudioFormat) -> RecorderModel {
    if m.state == SessionState::Idle {
        m
    } else {
        RecorderModel { format: f, ..m }
    }
}

/// The state after the capture callback delivers `chunk`.
pub open spec fn append_next(m: RecorderModel, chunk: Seq<i16>) -> RecorderModel {
    if m.state == SessionState::Idle {
        m
    } else {
        RecorderModel { samples: append_capped(m.samples, chunk), ..m }
    }
}

/// The state after a call of `request_stop`.
pub open spec fn stop_next(m: RecorderModel) -> RecorderModel {
    if m.state == SessionState::Recording {
        RecorderModel { state: SessionState::Stopping, ..m }
    } else {
        m
    }
}

/// The state after the capture thread ends, by a stop or by a setup failure.
pub open spec fn finished_next(m: RecorderModel) -> RecorderModel {
    RecorderModel { state: SessionState::Idle, ..m }
}

/// Starting while a session is active changes nothing: the buffer keeps
/// its samples and no second capture thread is asked for.
pub proof fn lemma_start_while_active(m: RecorderModel)
    requires
        m.state != SessionState::Idle,
    ensures
        start_next(m) == m,
        start_outcome(m) == StartOutcome::AlreadyRecording,
{
}

/// Asking to stop while idle changes nothing, the buffer included.
pub proof fn lemma_stop_while_idle(m: RecorderModel)
    requires
        m.state == SessionState::Idle,
    ensures
        stop_next(m) == m,
{
}

/// Two consecutive sessions do not share samples: whatever the first one
/// captured, the second one's buffer holds exactly what it captured itself.
pub proof fn lemma_sessions_independent(m: RecorderModel, first: Seq<i16>, second: Seq<i16>)
    requires
        m.state == SessionState::Idle,
        second.len() <= MAX_SAMPLES,
    ensures
        ({
            let m1 = append_next(start_next(m), first);
            let m2 = finished_next(stop_next(m1));
            let m3 = append_next(start_next(m2), second);
            m2.state == SessionState::Idle && m3.state == SessionState::Recording && m3.samples
                == second
        }),
{
    let m1 = append_next(start_next(m), first);
    let m2 = finished_next(stop_next(m1));
    assert(seq![] + second =~= second);
}

/// The single capture session and its sample buffer.
pub struct RecordingController {
    state: SessionState,
    format: AudioFormat,
    samples: Vec<i16>,
}

impl View for RecordingController {
    type V = RecorderModel;

    closed spec fn view(&self) -> RecorderModel {
        RecorderModel { state: self.state, format: self.format, samples: self.samples@ }
    }
}

/// A copy of the buffer and its format, taken at one moment.
pub struct Snapshot {
    pub samples: Vec<i16>,
    pub format: AudioFormat,
}

impl RecordingController {
    /// The buffer never holds more than a WAV file can describe.
    pub open spec fn wf(&self) -> bool {
        self@.samples.len() <= MAX_SAMPLES
    }

    /// An idle controller with an empty buffer and the default format.
    pub fn new() -> (r: RecordingController)
        ensures
            r.wf(),
            r@.state == SessionState::Idle,
            r@.samples.len() == 0,
            r@.format.sample_rate == DEFAULT_SAMPLE_RATE,
            r@.format.channels == DEFAULT_CHANNELS,
    {
        RecordingController {
            state: SessionState::Idle,
            format: AudioFormat::new(DEFAULT_SAMPLE_RATE, DEFAULT_CHANNELS),
            samples: Vec::new(),
        }
    }

    /// Whether a session is active (recording, or stopping but not yet finished).
    pub fn is_recording(&self) -> (r: bool)
        ensures
            r == (self@.state != SessionState::Idle),
    {
        self.state != SessionState::Idle
    }

    /// The session state.
    pub fn state(&self) -> (r: SessionState)
        ensures
            r == self@.state,
    {
        self.state
    }

    /// Begins a session unless one is active. On `Started` the buffer is
    /// emptied and the host must spawn the capture thread; on
    /// `AlreadyRecording` nothing changes.
    pub fn start(&mut self) -> (r: StartOutcome)
        requires
            old(self).wf(),
        ensures
            final(self).wf(),
            final(self)@ == start_next(old(self)@),
            r == start_outcome(old(self)@),
    {
        if self.state != SessionState::Idle {
            return StartOutcome::AlreadyRecording;
        }
        self.samples.clear();
        self.state = SessionState::Recording;
        StartOutcome::Started
    }

    /// Records the format that the input device captures at.
    pub fn set_format(&mut self, format: AudioFormat)
        requires
            old(self).wf(),
        ensures
            final(self).wf(),
            final(self)@ == format_next(old(self)@, format),
    {
        if self.state != SessionState::Idle {
            self.format = format;
        }
    }

    /// Appends a chunk delivered by the capture callback, while a session is
    /// active. Samples past the capacity of a WAV file are dropped.
    pub fn append(&mut self, chunk: &[i16])
        requires
            old(self).wf(),
        ensures
            final(self).wf(),
            final(self)@ == append_next(old(self)@, chunk@),
    {
        if self.state == SessionState::Idle {
            return;
        }
        let ghost start = self.samples@;
        let ghost state = self.state;
        let ghost format = self.format;
        let mut i: usize = 0;
        while i < chunk.len() && self.samples.len() < MAX_SAMPLES
            invariant
                self.state == state,
                self.format == format,
                i <= chunk@.len(),
                self.samples@ == start + chunk@.subrange(0, i as int),
                start.len() <= MAX_SAMPLES,
                self.samples@.len() <= MAX_SAMPLES,
            decreases chunk@.len() - i,
        {
            self.samples.push(chunk[i]);
            i += 1;
            assert(self.samples@ =~= start + chunk@.subrange(0, i as int));
        }
        proof {
            let all = start + chunk@;
            if all.len() <= MAX_SAMPLES {
                assert(i == chunk@.len());
                assert(chunk@.subrange(0, i as int) =~= chunk@);
            } else {
                assert(self.samples@.len() == MAX_SAMPLES);
                assert(self.samples@ =~= all.subrange(0, MAX_SAMPLES as int));
            }
            assert(self@ == append_next(old(self)@, chunk@));
        }
    }

    /// Asks the active session to stop. Fails with `NotRecording`, changing
    /// nothing, unless a session is recording.
    pub fn request_stop(&mut self) -> (r: Result<(), RecorderError>)
        requires
            old(self).wf(),
        ensures
            final(self).wf(),
            final(self)@ == stop_next(old(self)@),
            r is Ok <==> old(self)@.state == SessionState::Recording,
            r is Err ==> r == Err::<(), RecorderError>(RecorderError::NotRecording),
    {
        if self.state != SessionState::Recording {
            return Err(RecorderError::NotRecording);
        }
        self.state = SessionState::Stopping;
        Ok(())
    }

    /// Whether the capture thread has been asked to stop.
    pub fn stop_requested(&self) -> (r: bool)
        ensures
            r == (self@.state == SessionState::Stopping),
    {
        self.state == SessionState::Stopping
    }

    /// The capture thread has ended, after a stop or a failed device setup.
    pub fn finish_capture(&mut self)
        requires
            old(self).wf(),
        ensures
            final(self).wf(),
            final(self)@ == finished_next(old(self)@),
    {
        self.state = SessionState::Idle;
    }

    /// A copy of the buffer and its format. Leaves the controller unchanged.
    pub fn snapshot(&self) -> (r: Snapshot)
        requires
            self.wf(),
        ensures
            r.samples@ == self@.samples,
            r.format == self@.format,
    {
        let mut copy: Vec<i16> = Vec::new();
        let mut i: usize = 0;
        while i < self.samples.len()
            invariant
                i <= self.samples@.len(),
                copy@ == self.samples@.subrange(0, i as int),
            decreases self.samples@.len() - i,
        {
            copy.push(self.samples[i]);
            i += 1;
            assert(copy@ =~= self.samples@.subrange(0, i as int));
        }
        assert(copy@ =~= self.samples@);
        Snapshot { samples: copy, format: self.format }
    }
}

/// The error of a session that captured nothing.
pub open spec fn no_data_message() -> Seq<char> {
    "no audio data recorded"@
}

/// The error of a session whose format a WAV header cannot describe.
pub open spec fn bad_format_message() -> Seq<char> {
    "unsupported audio format"@
}

/// `s` reports a failed session: no file, the given duration and error.
pub open spec fn failed_result(s: RecordingSaved, duration: u64, error: Seq<char>) -> bool {
    &&& s.path@.len() == 0
    &&& s.filename@.len() == 0
    &&& s.duration_ms == duration
    &&& !s.success
    &&& s.error is Some
    &&& s.error->Some_0@ == error
}

/// What the host does once capture has ended.
pub enum SavePlan {
    /// Nothing is written; this is the session's result.
    Report(RecordingSaved),
    /// Write `bytes` to a new file and pass the outcome to `saved_result`.
    Write { bytes: Vec<u8>, duration_ms: u64 },
}

fn failure(duration_ms: u64, error: &str) -> (r: RecordingSaved)
    ensures
        failed_result(r, duration_ms, error@),
{
    RecordingSaved {
        path: String::new(),
        filename: String::new(),
        duration_ms,
        success: false,
        error: Some(String::from_str(error)),
    }
}

/// Decides what a stopped session produces from a snapshot of its buffer:
/// a failed result when nothing was captured or the format cannot be
/// written (with the duration it holds, where the format is valid), else
/// the WAV bytes to write and the duration they hold.
pub fn plan_save(snapshot: &Snapshot) -> (r: SavePlan)
    requires
        fits_samples(snapshot.samples@.len()),
    ensures
        snapshot.samples@.len() == 0 ==> r is Report && failed_result(
            r->Report_0,
            0,
            no_data_message(),
        ),
        snapshot.samples@.len() > 0 && !snapshot.format.valid() ==> r is Report && failed_result(
            r->Report_0,
            0,
            bad_format_message(),
        ),
        snapshot.samples@.len() > 0 && snapshot.format.valid() && !snapshot.format.fits_header()
            ==> r is Report && failed_result(
            r->Report_0,
            spec_duration_ms(snapshot.samples@.len(), snapshot.format) as u64,
            bad_format_message(),
        ),
        snapshot.samples@.len() > 0 && snapshot.format.valid() && snapshot.format.fits_header()
            ==> r is Write && r->bytes@ == wav_file(snapshot.format, snapshot.samples@)
            && r->duration_ms as int == spec_duration_ms(
            snapshot.samples@.len(),
            snapshot.format,
        ),
{
    if snapshot.samples.len() == 0 {
        return SavePlan::Report(failure(0, "no audio data recorded"));
    }
    let format = snapshot.format;
    if !format.is_valid() {
        return SavePlan::Report(failure(0, "unsupported audio format"));
    }
    let duration_ms = duration_ms(snapshot.samples.len(), format);
    if !format.is_writable() {
        return SavePlan::Report(failure(duration_ms, "unsupported audio format"));
    }
    let bytes = encode_wav(&snapshot.samples, format);
    SavePlan::Write { bytes, duration_ms }
}

/// The result of a session whose file write ended with `outcome`: on
/// `Ok((path, filename))` a success naming the file, on `Err(message)` a
/// failure carrying the message. The duration is reported either way.
pub fn saved_result(duration_ms: u64, outcome: Result<(String, String), String>) -> (r:
    RecordingSaved)
    ensures
        outcome is Ok ==> r.success && r.error is None && r.path@ == outcome->Ok_0.0@
            && r.filename@ == outcome->Ok_0.1@ && r.duration_ms == duration_ms,
        outcome is Err ==> failed_result(r, duration_ms, outcome->Err_0@),
{
    match outcome {
        Ok((path, filename)) => RecordingSaved {
            path,
            filename,
            duration_ms,
            success: true,
            error: None,
        },
        Err(e) => RecordingSaved {
            path: String::new(),
            filename: String::new(),
            duration_ms,
            success: false,
            error: Some(e),
        },
    }
}

/// Whether `stop` should keep waiting for the capture thread: it still runs
/// and fewer than the allowed number of polls have passed.
pub fn keep_waiting(still_active: bool, polls: u32) -> (r: bool)
    ensures
        r == (still_active && polls < STOP_POLL_LIMIT),
{
    still_active && polls < STOP_POLL_LIMIT
}

} // verus!

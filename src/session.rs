use vstd::prelude::*;
use vstd::string::*;

use crate::config::Config;
use crate::errors::ApiError;
use crate::merge::MergeInputs;
use crate::naming::{
    audio_path, combined_path, make_audio_path, make_combined_path, make_session_basename,
    make_video_path, session_basename, video_path,
};

verus! {

/// Milliseconds between two checks of a stopping session for drained workers.
pub const STOP_POLL_MILLIS: u64 = 50;

/// Milliseconds between two checks by a capture worker of its stop signal.
pub const WORKER_POLL_MILLIS: u64 = 100;

/// The two capture subsystems of a session.
#[derive(Clone, Copy, PartialEq, Eq, Structural)]
pub enum Worker {
    Screen,
    Audio,
}

/// The abstract state of a recording session.
pub struct SessionModel {
    /// A session was started and no stop has been requested since.
    pub requested: bool,
    /// The screen worker has not yet finished its own shutdown.
    pub screen_active: bool,
    /// The audio worker has not yet finished its own shutdown.
    pub audio_active: bool,
    /// Time, in seconds, of the latest liveness signal.
    pub last_keep_alive: u64,
    /// Path prefix of the current session's files.
    pub basename: Seq<char>,
}

impl SessionModel {
    /// A session is active until it is no longer requested and both workers drained.
    pub open spec fn active(self) -> bool {
        self.requested || self.screen_active || self.audio_active
    }

    pub open spec fn drained(self) -> bool {
        !self.screen_active && !self.audio_active
    }

    /// The keep-alive time is left alone: it is refreshed only once both
    /// workers were launched.
    pub open spec fn started(self, basename: Seq<char>) -> SessionModel {
        SessionModel { requested: true, basename, ..self }
    }

    pub open spec fn stopped(self) -> SessionModel {
        SessionModel { requested: false, ..self }
    }

    pub open spec fn pinged(self, now: u64) -> SessionModel {
        SessionModel { last_keep_alive: now, ..self }
    }

    pub open spec fn with_worker(self, worker: Worker, running: bool) -> SessionModel {
        match worker {
            Worker::Screen => SessionModel { screen_active: running, ..self },
            Worker::Audio => SessionModel { audio_active: running, ..self },
        }
    }

    /// A worker that ends its capture also ends the session it belonged to.
    pub open spec fn worker_finished(self, worker: Worker) -> SessionModel {
        self.stopped().with_worker(worker, false)
    }

    /// One start request: refused while active, otherwise the session is
    /// requested under the new basename. The flag tells whether it was admitted.
    pub open spec fn start_attempt(self, basename: Seq<char>) -> (SessionModel, bool) {
        if self.active() {
            (self, false)
        } else {
            (self.started(basename), true)
        }
    }
}

/// Applies start requests one after the other; gives the final state and the
/// number of requests that were admitted.
pub open spec fn run_starts(m: SessionModel, attempts: Seq<Seq<char>>) -> (SessionModel, nat)
    decreases attempts.len(),
{
    if attempts.len() == 0 {
        (m, 0)
    } else {
        let (next, admitted) = m.start_attempt(attempts[0]);
        let (last, count) = run_starts(next, attempts.drop_first());
        (last, count + if admitted { 1nat } else { 0nat })
    }
}

/// Once one start is admitted, no later start in the same sequence is admitted:
/// at most one request of any sequence of starts succeeds, and none while a
/// session is still active, which is then left as it was.
pub proof fn lemma_start_admitted_at_most_once(m: SessionModel, attempts: Seq<Seq<char>>)
    ensures
        run_starts(m, attempts).1 <= 1,
        m.active() ==> run_starts(m, attempts) == (m, 0nat),
    decreases attempts.len(),
{
    if attempts.len() > 0 {
        let (next, admitted) = m.start_attempt(attempts[0]);
        lemma_start_admitted_at_most_once(next, attempts.drop_first());
        assert(next.active());
    }
}

/// A start that is admitted and then taken back, because a worker could not be
/// launched, leaves an idle session with its keep-alive time as it was, as long
/// as no worker marked itself running in between.
pub proof fn lemma_failed_start_reverts(m: SessionModel, basename: Seq<char>)
    requires
        !m.active(),
    ensures
        !m.start_attempt(basename).0.stopped().active(),
        m.start_attempt(basename).0.stopped().last_keep_alive == m.last_keep_alive,
{
}

/// A session whose stop was requested and whose two workers then finished, in
/// either order, is idle.
pub proof fn lemma_stopped_and_drained_is_idle(m: SessionModel, first: Worker, second: Worker)
    requires
        first != second,
    ensures
        !m.stopped().worker_finished(first).worker_finished(second).active(),
        m.stopped().worker_finished(first).worker_finished(second).drained(),
{
}

/// What every session timestamp satisfies: at least 19 characters, none a slash,
/// so that a session's files stay directly inside the recordings folder.
pub open spec fn is_session_stamp(stamp: Seq<char>) -> bool {
    stamp.len() >= 19 && forall|i: int| 0 <= i < stamp.len() ==> stamp[i] != '/'
}

/// The shared record of the recording session, with the configuration it runs under.
pub struct AppState {
    pub requested: bool,
    pub screen_active: bool,
    pub audio_active: bool,
    pub last_keep_alive: u64,
    pub output_basename: String,
    pub config: Config,
}

/// What the status operation reports.
pub struct Status {
    pub message: String,
    pub recording: bool,
    pub last_keep_alive: u64,
}

impl View for AppState {
    type V = SessionModel;

    open spec fn view(&self) -> SessionModel {
        SessionModel {
            requested: self.requested,
            screen_active: self.screen_active,
            audio_active: self.audio_active,
            last_keep_alive: self.last_keep_alive,
            basename: self.output_basename@,
        }
    }
}

/// Relies on chrono::Local::now and chrono's `format`: the local time written as
/// day.month.year-hour_minute_second. Which time it is depends on the clock;
/// chrono writes day, month, hour, minute and second with two digits each and
/// the year with at least four, so the text has at least 19 characters, and
/// none of its fields or separators is a slash.
#[verifier::external_body]
fn local_timestamp() -> (r: String)
    ensures
        is_session_stamp(r@),
{
    chrono::Local::now().format("%d.%m.%Y-%H_%M_%S").to_string()
}

impl AppState {
    /// An idle session record.
    pub fn new(config: Config) -> (r: AppState)
        ensures
            r@ == (SessionModel {
                requested: false,
                screen_active: false,
                audio_active: false,
                last_keep_alive: 0,
                basename: "None"@,
            }),
            r.config == config,
    {
        AppState {
            requested: false,
            screen_active: false,
            audio_active: false,
            last_keep_alive: 0,
            output_basename: String::from_str("None"),
            config,
        }
    }

    pub fn is_active(&self) -> (r: bool)
        ensures
            r == self@.active(),
    {
        self.requested || self.screen_active || self.audio_active
    }

    /// Whether both workers have finished their shutdown.
    pub fn workers_drained(&self) -> (r: bool)
        ensures
            r == self@.drained(),
    {
        !self.screen_active && !self.audio_active
    }

    /// Admits a session whose files are named after `stamp`, unless one is
    /// active; returns the session's basename. The keep-alive time is not
    /// touched: the caller refreshes it once both workers were launched.
    pub fn try_start(&mut self, stamp: &str) -> (r: Result<String, ApiError>)
        ensures
            final(self).config == old(self).config,
            (final(self)@, r is Ok) == old(self)@.start_attempt(
                session_basename(old(self).config.recordings_folder@, stamp@),
            ),
            old(self)@.active() ==> r == Err::<String, ApiError>(ApiError::CaptureAlreadyInProgress),
            old(self)@.active() ==> final(self)@ == old(self)@,
            !old(self)@.active() ==> (r matches Ok(basename)
                && basename@ == session_basename(old(self).config.recordings_folder@, stamp@)
                && final(self)@ == old(self)@.started(basename@)),
    {
        if self.is_active() {
            return Err(ApiError::CaptureAlreadyInProgress);
        }
        let basename = make_session_basename(self.config.recordings_folder.as_str(), stamp);
        self.output_basename = basename.clone();
        self.requested = true;
        Ok(basename)
    }

    /// Admits a session named after the local time, unless one is active;
    /// returns the session's basename.
    pub fn start_session(&mut self) -> (r: Result<String, ApiError>)
        ensures
            final(self).config == old(self).config,
            old(self)@.active() ==> r == Err::<String, ApiError>(ApiError::CaptureAlreadyInProgress),
            old(self)@.active() ==> final(self)@ == old(self)@,
            !old(self)@.active() ==> (r matches Ok(basename)
                && (exists|stamp: Seq<char>| is_session_stamp(stamp)
                    && basename@ == session_basename(old(self).config.recordings_folder@, stamp))
                && final(self)@ == old(self)@.started(basename@)),
    {
        let stamp = local_timestamp();
        let r = self.try_start(stamp.as_str());
        proof {
            if !old(self)@.active() {
                assert(r is Ok);
                let b = r->Ok_0;
                assert(b@ == session_basename(old(self).config.recordings_folder@, stamp@));
            }
        }
        r
    }

    /// Takes back an admitted start whose workers could not all be launched:
    /// the stop signal tells a worker already running to finish.
    pub fn abort_start(&mut self, reason: String) -> (r: ApiError)
        ensures
            final(self).config == old(self).config,
            final(self)@ == old(self)@.stopped(),
            r == ApiError::InternalServerError(reason),
    {
        self.requested = false;
        ApiError::InternalServerError(reason)
    }

    /// Asks the workers of the active session to stop; refused, with nothing
    /// changed, when no session is active.
    pub fn request_stop(&mut self) -> (r: Result<(), ApiError>)
        ensures
            final(self).config == old(self).config,
            !old(self)@.active() ==> r == Err::<(), ApiError>(ApiError::NoCaptureIsRunning),
            !old(self)@.active() ==> final(self)@ == old(self)@,
            old(self)@.active() ==> r is Ok && final(self)@ == old(self)@.stopped(),
    {
        if !self.is_active() {
            return Err(ApiError::NoCaptureIsRunning);
        }
        self.requested = false;
        Ok(())
    }

    /// The files to merge, handed out only once both workers have finished,
    /// so that no file is read before it is closed.
    pub fn merge_inputs(&self) -> (r: Option<MergeInputs>)
        ensures
            r is Some <==> self@.drained(),
            r matches Some(inputs) ==> inputs.video@ == video_path(self@.basename)
                && inputs.audio@ == audio_path(self@.basename)
                && inputs.output@ == combined_path(self@.basename),
    {
        if !self.workers_drained() {
            return None;
        }
        let basename = self.output_basename.as_str();
        Some(MergeInputs {
            video: make_video_path(basename),
            audio: make_audio_path(basename),
            output: make_combined_path(basename),
        })
    }

    /// Records a liveness signal at `now`.
    pub fn refresh_keep_alive(&mut self, now: u64)
        ensures
            final(self).config == old(self).config,
            final(self)@ == old(self)@.pinged(now),
    {
        self.last_keep_alive = now;
    }

    /// Marks `worker` as running.
    pub fn worker_started(&mut self, worker: Worker)
        ensures
            final(self).config == old(self).config,
            final(self)@ == old(self)@.with_worker(worker, true),
    {
        match worker {
            Worker::Screen => self.screen_active = true,
            Worker::Audio => self.audio_active = true,
        }
    }

    /// Called by `worker` once it has released its device and closed its file;
    /// the session is no longer requested after that.
    pub fn worker_finished(&mut self, worker: Worker)
        ensures
            final(self).config == old(self).config,
            final(self)@ == old(self)@.worker_finished(worker),
    {
        self.requested = false;
        match worker {
            Worker::Screen => self.screen_active = false,
            Worker::Audio => self.audio_active = false,
        }
    }

    /// Whether a worker leaves its capture loop: when the session is no longer
    /// requested, or when its capture ended by itself.
    pub fn worker_should_stop(&self, capture_finished: bool) -> (r: bool)
        ensures
            r == (!self.requested || capture_finished),
    {
        !self.requested || capture_finished
    }

    pub fn status(&self) -> (r: Status)
        ensures
            r.message@ == "Recorder is ok!"@,
            r.recording == self@.active(),
            r.last_keep_alive == self.last_keep_alive,
    {
        Status {
            message: String::from_str("Recorder is ok!"),
            recording: self.is_active(),
            last_keep_alive: self.last_keep_alive,
        }
    }
}

} // verus!

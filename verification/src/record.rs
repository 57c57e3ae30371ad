//! Session capture orchestrator: the lifecycle state machine that composes
//! the screen capture process manager, the platform input capture adapter
//! and the session event log, under a single-active-session invariant.
//!
//! The caller serializes `start`/`stop` with one exclusive lock and performs
//! the outside work — launching the capture tool, probing it, the
//! graceful-stop dance — between the `begin_*` and `finish_*` halves; every
//! decision is made here.

use vstd::prelude::*;
use vstd::string::*;
use crate::eventlog::{publish_status, seal_status, status_record, EventLog};
use crate::ffmpeg::{
    ffmpeg_start_spec, ffmpeg_stop_spec, native_start_spec, native_stop_spec, FFmpegRecorder,
    NativeRecorder, SpawnOutcome, StartError, StartErrorModel, StopOutcome,
};
use crate::input::{start_input_listener, stop_input_listener, worker_count, InputListener};

verus! {

/// The host platform, resolved once per session and never changed
/// mid-session; it selects the capture strategy and the recorder variant.
#[derive(Clone, Copy, PartialEq, Eq, Structural, Debug)]
pub enum Platform {
    Windows,
    Linux,
    MacOs,
    Unsupported,
}

/// The lifecycle of the single process-wide recording session.
/// Legal cycle: Idle -> Active -> Stopping -> Idle.
#[derive(Clone, Copy, PartialEq, Eq, Structural, Debug)]
pub enum SessionState {
    Idle,
    Active,
    Stopping,
}

/// Per-session progress counters, reset when a session starts.
#[derive(Debug)]
pub struct QuestState {
    pub objectives_completed: i32,
}

impl Default for QuestState {
    fn default() -> (r: Self)
        ensures
            r.objectives_completed == 0,
    {
        QuestState { objectives_completed: 0 }
    }
}

/// One display's geometry, as the display-metadata collaborator reports it.
#[derive(Clone, Copy, PartialEq, Eq, Structural, Debug)]
pub struct DisplayGeometry {
    pub width: u32,
    pub height: u32,
    pub is_primary: bool,
}

/// The first display marked primary, if any.
pub open spec fn first_primary(ds: Seq<DisplayGeometry>) -> Option<DisplayGeometry>
    decreases ds.len(),
{
    if ds.len() == 0 {
        None
    } else if ds[0].is_primary {
        Some(ds[0])
    } else {
        first_primary(ds.drop_first())
    }
}

/// The display a session records: the primary display, or the first
/// available one.
pub open spec fn picked_display(ds: Seq<DisplayGeometry>) -> Option<DisplayGeometry> {
    match first_primary(ds) {
        Some(d) => Some(d),
        None => if ds.len() > 0 {
            Some(ds[0])
        } else {
            None
        },
    }
}

proof fn lemma_first_primary_found(ds: Seq<DisplayGeometry>, i: int)
    requires
        0 <= i < ds.len(),
        ds[i].is_primary,
        forall|k: int| 0 <= k < i ==> !ds[k].is_primary,
    ensures
        first_primary(ds) == Some(ds[i]),
    decreases i,
{
    if i > 0 {
        assert forall|k: int| 0 <= k < i - 1 implies !ds.drop_first()[k].is_primary by {
            assert(ds.drop_first()[k] == ds[k + 1]);
        }
        lemma_first_primary_found(ds.drop_first(), i - 1);
        assert(ds.drop_first()[i - 1] == ds[i]);
    }
}

proof fn lemma_first_primary_none(ds: Seq<DisplayGeometry>)
    requires
        forall|k: int| 0 <= k < ds.len() ==> !ds[k].is_primary,
    ensures
        first_primary(ds) is None,
    decreases ds.len(),
{
    if ds.len() > 0 {
        assert forall|k: int| 0 <= k < ds.drop_first().len() implies !ds.drop_first()[k].is_primary by {
            assert(ds.drop_first()[k] == ds[k + 1]);
        }
        lemma_first_primary_none(ds.drop_first());
    }
}

/// Choose the display to record: the primary display, else the first.
pub fn pick_display(displays: &Vec<DisplayGeometry>) -> (r: Option<DisplayGeometry>)
    ensures
        r == picked_display(displays@),
{
    let mut i: usize = 0;
    while i < displays.len()
        invariant
            0 <= i <= displays@.len(),
            forall|k: int| 0 <= k < i ==> !displays@[k].is_primary,
        decreases displays@.len() - i,
    {
        if displays[i].is_primary {
            proof {
                lemma_first_primary_found(displays@, i as int);
            }
            return Some(displays[i]);
        }
        i = i + 1;
    }
    proof {
        lemma_first_primary_none(displays@);
    }
    if displays.len() > 0 {
        Some(displays[0])
    } else {
        None
    }
}

/// The session artifact's path: `<dir>/recording_<stamp>.mp4`.
pub open spec fn video_path_spec(dir: Seq<char>, stamp: Seq<char>) -> Seq<char> {
    dir + "/recording_"@ + stamp + ".mp4"@
}

/// Compute the video artifact's path from the recordings directory and the
/// session timestamp.
pub fn session_video_path(dir: &str, stamp: &str) -> (r: String)
    ensures
        r@ == video_path_spec(dir@, stamp@),
{
    let mut p = String::from_str(dir);
    p.append("/recording_");
    p.append(stamp);
    p.append(".mp4");
    p
}

/// The screen recorder bound to one session: the external capture
/// subprocess, or the native capture API one platform substitutes. The
/// variant is resolved once per session and never changed mid-session.
#[derive(Debug, Clone, PartialEq)]
pub enum Recorder {
    FFmpeg(FFmpegRecorder),
    Native(NativeRecorder),
}

/// Whether a capture handle is retained.
pub open spec fn recorder_running(r: Recorder) -> bool {
    match r {
        Recorder::FFmpeg(f) => f.running,
        Recorder::Native(n) => n.running,
    }
}

/// The start decision, dispatched to the bound variant.
pub open spec fn recorder_start_spec(r: Recorder, o: SpawnOutcome) -> (Recorder, Option<
    StartErrorModel,
>) {
    match r {
        Recorder::FFmpeg(f) => (
            Recorder::FFmpeg(ffmpeg_start_spec(f, o).0),
            ffmpeg_start_spec(f, o).1,
        ),
        Recorder::Native(n) => (
            Recorder::Native(native_start_spec(n, o).0),
            native_start_spec(n, o).1,
        ),
    }
}

/// The stop decision, dispatched to the bound variant.
pub open spec fn recorder_stop_spec(r: Recorder, o: StopOutcome) -> (Recorder, Option<Seq<char>>) {
    match r {
        Recorder::FFmpeg(f) => (Recorder::FFmpeg(ffmpeg_stop_spec(f, o).0), ffmpeg_stop_spec(f, o).1),
        Recorder::Native(n) => (Recorder::Native(native_stop_spec(n, o).0), native_stop_spec(n, o).1),
    }
}

impl Recorder {
    /// Start the bound variant on the observed probe outcome; both variants
    /// satisfy the identical contract.
    pub fn start(&mut self, outcome: &SpawnOutcome) -> (r: Result<(), StartError>)
        ensures
            *final(self) == recorder_start_spec(*old(self), *outcome).0,
            (match r {
                Ok(()) => recorder_start_spec(*old(self), *outcome).1 is None,
                Err(e) => (recorder_start_spec(*old(self), *outcome).1 matches Some(m) && e@ == m),
            }),
            r is Ok ==> recorder_running(*final(self)),
    {
        match self {
            Recorder::FFmpeg(f) => f.start(outcome),
            Recorder::Native(n) => n.start(outcome),
        }
    }

    /// Stop the bound variant on the observed stop outcome: idempotent with
    /// no handle retained, and a success stands for a non-empty artifact.
    pub fn stop(&mut self, outcome: &StopOutcome) -> (r: Result<(), String>)
        ensures
            *final(self) == recorder_stop_spec(*old(self), *outcome).0,
            (match r {
                Ok(()) => recorder_stop_spec(*old(self), *outcome).1 is None,
                Err(m) => (recorder_stop_spec(*old(self), *outcome).1 matches Some(s) && m@ == s),
            }),
            !recorder_running(*old(self)) ==> *final(self) == *old(self) && r is Ok,
            r is Ok && recorder_running(*old(self)) ==> outcome.artifact_exists
                && outcome.artifact_size > 0,
            !recorder_running(*final(self)),
    {
        match self {
            Recorder::FFmpeg(f) => f.stop(outcome),
            Recorder::Native(n) => n.stop(outcome),
        }
    }
}

/// What a start needs from the outside collaborators, gathered before the
/// session lock decides: whether the capture engine resolved, the display
/// list, the recordings directory, the session timestamp and the host
/// platform.
#[derive(Debug, Clone, PartialEq)]
pub struct StartEnv {
    pub engine_available: bool,
    pub displays: Vec<DisplayGeometry>,
    pub recordings_dir: String,
    pub stamp: String,
    pub platform: Platform,
}

/// The admitted start, handed back for the caller to launch: the recorder
/// bound for this session, the capture invocation to spawn (empty for the
/// native variant), the artifact path, and the clock reading at which the
/// start was admitted and its `"recording"` status published — the reading
/// the session's log record of that status carries.
#[derive(Debug, Clone, PartialEq)]
pub struct CapturePlan {
    pub recorder: Recorder,
    pub args: Vec<String>,
    pub output_path: String,
    pub started_at: i64,
}

/// A start may be admitted only from a settled idle orchestrator.
pub open spec fn start_admissible(o: Orchestrator) -> bool {
    o.state is Idle && !o.starting
}

/// The precondition error a start environment is refused with, if any:
/// capture engine unresolved, no display, or an unsupported platform.
pub open spec fn start_env_error(env: StartEnv) -> Option<Seq<char>> {
    if !env.engine_available {
        Some("capture engine unavailable"@)
    } else if picked_display(env.displays@) is None {
        Some("No display found"@)
    } else if env.platform is Unsupported {
        Some("Unsupported platform"@)
    } else {
        None
    }
}

/// The recorder a plan binds when the environment is acceptable: the native
/// variant on its platform, else the external process with the platform's
/// grabber and device, the picked display's geometry and 30 frames per
/// second.
pub open spec fn planned_recorder_ok(
    rec: Recorder,
    env: StartEnv,
    d: DisplayGeometry,
    path: Seq<char>,
) -> bool {
    match env.platform {
        Platform::MacOs => (rec matches Recorder::Native(n) && n.output_path@ == path
            && !n.running),
        Platform::Windows => (rec matches Recorder::FFmpeg(f) && f.width == d.width && f.height
            == d.height && f.fps == 30 && f.output_path@ == path && !f.running && f.platform
            is Windows && (f.input_format matches Some(s) && s@ == "gdigrab"@) && (
        f.input_device matches Some(dv) && dv@ == "desktop"@)),
        Platform::Linux => (rec matches Recorder::FFmpeg(f) && f.width == d.width && f.height
            == d.height && f.fps == 30 && f.output_path@ == path && !f.running && f.platform
            is Linux && (f.input_format matches Some(s) && s@ == "x11grab"@) && (
        f.input_device matches Some(dv) && dv@ == ":0.0"@)),
        Platform::Unsupported => false,
    }
}

/// The session capture orchestrator: the single owned session-state object.
/// Callers reach the session only through `begin_start`/`finish_start` and
/// `begin_stop`/`finish_stop`, serialized under one exclusive lock.
pub struct Orchestrator {
    pub state: SessionState,
    pub starting: bool,
    pub log: EventLog,
    pub recorder: Option<Recorder>,
    pub listener: Option<InputListener>,
    pub quest: QuestState,
}

impl Orchestrator {
    /// The structural invariant: exactly one recorder and one listener set
    /// while a session is active and none otherwise, the log accepts records
    /// only while active, and a start may be underway only from idle.
    pub open spec fn wf(&self) -> bool {
        &&& (self.state is Active <==> self.recorder is Some)
        &&& (self.state is Active <==> self.listener is Some)
        &&& (self.log@.is_open ==> self.state is Active)
        &&& (self.starting ==> self.state is Idle)
    }

    /// A fresh orchestrator: idle, nothing retained, the log closed and
    /// empty.
    pub fn new() -> (r: Orchestrator)
        ensures
            r.wf(),
            r.state is Idle,
            !r.starting,
            !r.log@.is_open,
            r.log@.entries =~= Seq::empty(),
            r.recorder is None,
            r.listener is None,
            r.quest.objectives_completed == 0,
    {
        Orchestrator {
            state: SessionState::Idle,
            starting: false,
            log: EventLog::new(),
            recorder: None,
            listener: None,
            quest: QuestState { objectives_completed: 0 },
        }
    }

    /// The current lifecycle state.
    pub fn current_state(&self) -> (r: SessionState)
        ensures
            r == self.state,
    {
        self.state
    }

    /// Admit or refuse a start. A settled idle orchestrator with an
    /// acceptable environment is admitted: the per-session counters reset,
    /// the `"recording"` status is published (on the host bus by the caller;
    /// the session's own log does not exist yet, so the plan carries the
    /// reading for the record `finish_start` writes into it), and the plan
    /// to launch is handed back — the session stays idle until
    /// `finish_start` confirms the capture tool. Any other orchestrator is
    /// refused with "already recording" and left untouched; an unacceptable
    /// environment is refused with its precondition error, with no side
    /// effects.
    pub fn begin_start(&mut self, env: &StartEnv, now: i64) -> (r: Result<CapturePlan, String>)
        requires
            old(self).wf(),
        ensures
            final(self).wf(),
            r is Ok <==> (start_admissible(*old(self)) && start_env_error(*env) is None),
            !start_admissible(*old(self)) ==> *final(self) == *old(self) && (r matches Err(m)
                && m@ == "Recording already in progress"@),
            start_env_error(*env) matches Some(msg) ==> (start_admissible(*old(self))
                ==> (*final(self) == *old(self) && (r matches Err(m) && m@ == msg))),
            r matches Ok(plan) ==> ({
                &&& final(self).state is Idle
                &&& final(self).starting
                &&& final(self).quest.objectives_completed == 0
                &&& final(self).log == old(self).log
                &&& final(self).recorder is None
                &&& final(self).listener is None
                &&& (picked_display(env.displays@) matches Some(d) && planned_recorder_ok(
                    plan.recorder,
                    *env,
                    d,
                    video_path_spec(env.recordings_dir@, env.stamp@),
                ))
                &&& plan.output_path@ == video_path_spec(env.recordings_dir@, env.stamp@)
                &&& (plan.recorder matches Recorder::FFmpeg(f) ==> plan.args@.map_values(
                    |s: String| s@,
                ) =~= crate::ffmpeg::command_args_spec(f))
                &&& (plan.recorder matches Recorder::Native(_) ==> plan.args@.len() == 0)
                &&& plan.started_at == now
            }),
    {
        if !(matches!(self.state, SessionState::Idle)) || self.starting {
            return Err(String::from_str("Recording already in progress"));
        }
        if !env.engine_available {
            return Err(String::from_str("capture engine unavailable"));
        }
        let path = session_video_path(env.recordings_dir.as_str(), env.stamp.as_str());
        let display = match pick_display(&env.displays) {
            Some(d) => d,
            None => {
                return Err(String::from_str("No display found"));
            },
        };
        if matches!(env.platform, Platform::Unsupported) {
            return Err(String::from_str("Unsupported platform"));
        }
        let (recorder, args) = if matches!(env.platform, Platform::MacOs) {
            (Recorder::Native(NativeRecorder::new(path.clone())), Vec::new())
        } else {
            let format = if matches!(env.platform, Platform::Windows) {
                "gdigrab"
            } else {
                "x11grab"
            };
            let device = if matches!(env.platform, Platform::Windows) {
                "desktop"
            } else {
                ":0.0"
            };
            let fr = FFmpegRecorder::new_with_input(
                display.width,
                display.height,
                30,
                path.clone(),
                String::from_str(format),
                String::from_str(device),
                env.platform,
            );
            let args = fr.command_args();
            (Recorder::FFmpeg(fr), args)
        };
        self.quest.objectives_completed = 0;
        self.starting = true;
        Ok(CapturePlan { recorder, args, output_path: path, started_at: now })
    }

    /// Confirm or abort an admitted start from the probe outcome the caller
    /// observed. A confirmed running capture tool turns the session active:
    /// the recorder handle is retained, the event log opens fresh for the
    /// session — holding as its first record the `"recording"` status at
    /// the reading the start was admitted with — and the input listeners
    /// start (the caller spawns the threads, and starts the accessibility
    /// poll driver). Any failure aborts the whole start with the recorder's
    /// diagnosis — the state stays idle and the error says whether a
    /// partial artifact must be removed.
    pub fn finish_start(&mut self, plan: CapturePlan, outcome: &SpawnOutcome) -> (r: Result<
        (),
        StartError,
    >)
        requires
            old(self).wf(),
            old(self).starting,
        ensures
            final(self).wf(),
            !final(self).starting,
            final(self).quest == old(self).quest,
            r is Ok <==> recorder_start_spec(plan.recorder, *outcome).1 is None,
            r matches Err(e) ==> ({
                &&& recorder_start_spec(plan.recorder, *outcome).1 matches Some(m) && e@ == m
                &&& final(self).state is Idle
                &&& final(self).recorder is None
                &&& final(self).listener is None
                &&& final(self).log == old(self).log
            }),
            r is Ok ==> ({
                &&& final(self).state is Active
                &&& final(self).recorder == Some(recorder_start_spec(plan.recorder, *outcome).0)
                &&& recorder_running(recorder_start_spec(plan.recorder, *outcome).0)
                &&& (final(self).listener matches Some(l) && l.running && l.workers
                    == worker_count(plan_platform(plan.recorder)))
                &&& final(self).log@.is_open
                &&& final(self).log@.entries =~= seq![
                    status_record("recording"@, plan.started_at as int),
                ]
            }),
    {
        let mut rec = plan.recorder;
        let platform = match &rec {
            Recorder::FFmpeg(f) => f.platform,
            Recorder::Native(_) => Platform::MacOs,
        };
        match rec.start(outcome) {
            Ok(()) => {
                self.recorder = Some(rec);
                self.log.open_for_session();
                publish_status(&mut self.log, "recording", plan.started_at);
                let _ = start_input_listener(&mut self.listener, platform);
                self.state = SessionState::Active;
                self.starting = false;
                Ok(())
            },
            Err(e) => {
                self.starting = false;
                Err(e)
            },
        }
    }

    /// Begin the stop, in the order that tolerates a hung capture tool:
    /// publish the `"stopping"` status (the last record a session's log
    /// accepts), close the log so late events are dropped rather than
    /// queued, flip the listeners' running flag without joining them, and
    /// hand the recorder out to be stopped last. Stopping while idle is
    /// idempotent: nothing is returned and no state changes.
    pub fn begin_stop(&mut self, now: i64) -> (r: Option<Recorder>)
        requires
            old(self).wf(),
            !old(self).starting,
        ensures
            final(self).wf(),
            r == old(self).recorder,
            final(self).recorder is None,
            final(self).listener is None,
            !final(self).log@.is_open,
            !final(self).starting,
            final(self).quest == old(self).quest,
            final(self).state == (if old(self).state is Active {
                SessionState::Stopping
            } else {
                old(self).state
            }),
            old(self).log@.is_open ==> final(self).log@.entries =~= old(
                self,
            ).log@.entries.push(status_record("stopping"@, now as int)),
            !old(self).log@.is_open ==> final(self).log == old(self).log,
            old(self).log@.entries.is_prefix_of(final(self).log@.entries),
            old(self).state is Idle ==> *final(self) == *old(self) && r is None,
    {
        publish_status(&mut self.log, "stopping", now);
        self.log.close();
        let _ = stop_input_listener(&mut self.listener);
        if matches!(self.state, SessionState::Active) {
            self.state = SessionState::Stopping;
        }
        self.recorder.take()
    }

    /// Finish the stop after the caller stopped the recorder it was handed
    /// (or immediately, when there was none): publish the `"stopped"`
    /// status — sealing the session's log with it, past the closure that
    /// already drops late producer events — and return to idle
    /// unconditionally: the recorder's error, if any, is passed back to the
    /// caller but never leaves the session stuck. Finishing while idle
    /// changes nothing.
    pub fn finish_stop(&mut self, recorder_result: Result<(), String>, now: i64) -> (r: Result<
        (),
        String,
    >)
        requires
            old(self).wf(),
            !old(self).starting,
            !(old(self).state is Active),
        ensures
            final(self).wf(),
            final(self).state is Idle,
            r == recorder_result,
            old(self).state is Stopping ==> final(self).log@.entries =~= old(
                self,
            ).log@.entries.push(status_record("stopped"@, now as int)),
            !final(self).log@.is_open,
            old(self).log@.entries.is_prefix_of(final(self).log@.entries),
            final(self).recorder == old(self).recorder,
            final(self).listener == old(self).listener,
            final(self).quest == old(self).quest,
            !final(self).starting,
            old(self).state is Idle ==> *final(self) == *old(self),
    {
        if matches!(self.state, SessionState::Stopping) {
            seal_status(&mut self.log, "stopped", now);
            self.state = SessionState::Idle;
        }
        recorder_result
    }
}

/// The platform a planned recorder was bound for.
pub open spec fn plan_platform(rec: Recorder) -> Platform {
    match rec {
        Recorder::FFmpeg(f) => f.platform,
        Recorder::Native(_) => Platform::MacOs,
    }
}

/// One complete serialized start attempt, as the begin/finish contracts pin
/// it down when the environment is acceptable and the capture tool comes up
/// live: a caller that finds the orchestrator settled and idle is admitted
/// and reaches the active state; any other caller is refused without
/// effect.
pub open spec fn start_attempt(pre: Orchestrator, post: Orchestrator, succeeded: bool) -> bool {
    if start_admissible(pre) {
        succeeded && post.state is Active && !post.starting
    } else {
        !succeeded && post == pre
    }
}

proof fn lemma_start_excluded(states: Seq<Orchestrator>, succeeded: Seq<bool>, i: int)
    requires
        states.len() == succeeded.len() + 1,
        forall|k: int| 0 <= k < succeeded.len() ==> start_attempt(
            states[k],
            states[k + 1],
            succeeded[k],
        ),
        0 <= i < succeeded.len(),
        !start_admissible(states[i]),
    ensures
        forall|k: int| i <= k < succeeded.len() ==> !succeeded[k],
    decreases succeeded.len() - i,
{
    assert(start_attempt(states[i], states[i + 1], succeeded[i]));
    if i + 1 < succeeded.len() {
        lemma_start_excluded(states, succeeded, i + 1);
    }
}

/// Mutual exclusion: serialize any number of concurrent start calls by the
/// session lock, each one a complete start attempt on the state the
/// previous call left. From a settled idle orchestrator, exactly the first
/// call transitions to the active state; every later call is refused with
/// "already recording" and changes nothing.
pub proof fn lemma_mutual_exclusion(states: Seq<Orchestrator>, succeeded: Seq<bool>)
    requires
        states.len() == succeeded.len() + 1,
        succeeded.len() >= 1,
        start_admissible(states[0]),
        forall|k: int| 0 <= k < succeeded.len() ==> start_attempt(
            states[k],
            states[k + 1],
            succeeded[k],
        ),
    ensures
        succeeded[0],
        forall|k: int| 1 <= k < succeeded.len() ==> !succeeded[k],
{
    assert(start_attempt(states[0], states[1], succeeded[0]));
    if succeeded.len() > 1 {
        lemma_start_excluded(states, succeeded, 1);
    }
}

} // verus!

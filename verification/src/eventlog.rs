//! Session event log: the append-only structured sink that correlates
//! timestamped records with the active session. With no session active the
//! sink is closed and logging calls are silent no-ops, so producers racing
//! teardown never fail and nothing is appended after closure.

use vstd::prelude::*;
use vstd::seq_lib::*;
use vstd::string::*;
use crate::clock::current_epoch_millis;
use crate::input::{Payload, PayloadModel};

verus! {

/// One structured record: `{kind, payload, time}` with the time in epoch
/// milliseconds.
#[derive(Debug, Clone, PartialEq)]
pub struct LogRecord {
    pub kind: String,
    pub payload: RecordPayload,
    pub time: i64,
}

/// What a record carries: a decoded input primitive, a recording-status
/// change, or one diagnostic line from the capture tool's output streams.
#[derive(Debug, Clone, PartialEq)]
pub enum RecordPayload {
    Input(Payload),
    Status(String),
    Diagnostic { line: String, stderr: bool },
}

/// Mathematical model of a record payload.
pub ghost enum RecordPayloadModel {
    Input(PayloadModel),
    Status(Seq<char>),
    Diagnostic { line: Seq<char>, stderr: bool },
}

/// Mathematical model of a record.
pub ghost struct RecordModel {
    pub kind: Seq<char>,
    pub payload: RecordPayloadModel,
    pub time: int,
}

impl View for RecordPayload {
    type V = RecordPayloadModel;

    open spec fn view(&self) -> RecordPayloadModel {
        match self {
            RecordPayload::Input(p) => RecordPayloadModel::Input(p@),
            RecordPayload::Status(s) => RecordPayloadModel::Status(s@),
            RecordPayload::Diagnostic { line, stderr } => RecordPayloadModel::Diagnostic {
                line: line@,
                stderr: *stderr,
            },
        }
    }
}

impl View for LogRecord {
    type V = RecordModel;

    open spec fn view(&self) -> RecordModel {
        RecordModel { kind: self.kind@, payload: self.payload@, time: self.time as int }
    }
}

/// Mathematical model of the log: whether the sink is accepting records, and
/// the records appended so far.
pub ghost struct LogModel {
    pub is_open: bool,
    pub entries: Seq<RecordModel>,
}

/// One operation on the sink, for stating session-level laws: a producer
/// append, closing the sink to producers, or the owner's one sealing write
/// past closure.
pub ghost enum LogStep {
    Append(RecordModel),
    Close,
    Seal(RecordModel),
}

/// How one operation changes the log: an append lands only while the sink is
/// accepting; closing keeps every record already appended; the sealing write
/// lands regardless and leaves the sink closed.
pub open spec fn apply_step(l: LogModel, s: LogStep) -> LogModel {
    match s {
        LogStep::Append(r) => if l.is_open {
            LogModel { is_open: true, entries: l.entries.push(r) }
        } else {
            l
        },
        LogStep::Close => LogModel { is_open: false, entries: l.entries },
        LogStep::Seal(r) => LogModel { is_open: false, entries: l.entries.push(r) },
    }
}

/// Whether a step's record, if it carries one, is stamped inside the window.
pub open spec fn step_time_in(s: LogStep, t_start: int, t_stop: int) -> bool {
    match s {
        LogStep::Append(r) => t_start <= r.time <= t_stop,
        LogStep::Close => true,
        LogStep::Seal(r) => t_start <= r.time <= t_stop,
    }
}

/// A run of operations, first to last.
pub open spec fn apply_steps(l: LogModel, ss: Seq<LogStep>) -> LogModel
    decreases ss.len(),
{
    if ss.len() == 0 {
        l
    } else {
        apply_steps(apply_step(l, ss[0]), ss.drop_first())
    }
}

/// The session-scoped append-only sink.
#[derive(Debug, Clone, PartialEq)]
pub struct EventLog {
    pub is_open: bool,
    pub records: Vec<LogRecord>,
}

impl View for EventLog {
    type V = LogModel;

    open spec fn view(&self) -> LogModel {
        LogModel {
            is_open: self.is_open,
            entries: self.records@.map_values(|r: LogRecord| r@),
        }
    }
}

impl EventLog {
    /// A sink with no session bound to it: closed and empty.
    pub fn new() -> (l: EventLog)
        ensures
            !l@.is_open,
            l@.entries =~= Seq::<RecordModel>::empty(),
    {
        EventLog { is_open: false, records: Vec::new() }
    }

    /// Bind the sink to a fresh session: it starts empty and accepts records.
    pub fn open_for_session(&mut self)
        ensures
            final(self)@.is_open,
            final(self)@.entries =~= Seq::<RecordModel>::empty(),
    {
        self.is_open = true;
        self.records = Vec::new();
    }

    /// Release the sink: later logging calls are dropped, every record
    /// appended so far stays readable.
    pub fn close(&mut self)
        ensures
            final(self)@ == apply_step(old(self)@, LogStep::Close),
            final(self)@.entries == old(self)@.entries,
            !final(self)@.is_open,
            !old(self)@.is_open ==> *final(self) == *old(self),
    {
        if self.is_open {
            self.is_open = false;
        }
    }

    /// Append one record; a silent no-op once the sink is closed.
    pub fn append(&mut self, rec: LogRecord)
        ensures
            final(self)@ == apply_step(old(self)@, LogStep::Append(rec@)),
            final(self)@.is_open == old(self)@.is_open,
            old(self)@.entries.is_prefix_of(final(self)@.entries),
            !old(self)@.is_open ==> *final(self) == *old(self),
    {
        if self.is_open {
            let ghost prev = self@.entries;
            self.records.push(rec);
            proof {
                assert(self@.entries =~= prev.push(rec@));
                assert(prev.is_prefix_of(self@.entries));
            }
        }
    }

    /// The owner's one write past producer closure: append the session's
    /// final record even though the sink no longer accepts producer records,
    /// and leave it closed. Input and diagnostic producers never reach this;
    /// only the orchestrator's closing status does.
    pub fn seal(&mut self, rec: LogRecord)
        ensures
            final(self)@ == apply_step(old(self)@, LogStep::Seal(rec@)),
            final(self)@.entries =~= old(self)@.entries.push(rec@),
            !final(self)@.is_open,
            old(self)@.entries.is_prefix_of(final(self)@.entries),
    {
        let ghost prev = self@.entries;
        self.records.push(rec);
        self.is_open = false;
        proof {
            assert(self@.entries =~= prev.push(rec@));
            assert(prev.is_prefix_of(self@.entries));
        }
    }

    /// How many records the session has logged.
    pub fn len(&self) -> (n: usize)
        ensures
            n == self@.entries.len(),
    {
        self.records.len()
    }
}

/// Append one already-built input record; never fails, and with no active
/// session it is a silent no-op.
pub fn log_input(log: &mut EventLog, entry: LogRecord) -> (r: Result<(), String>)
    ensures
        r is Ok,
        final(log)@ == apply_step(old(log)@, LogStep::Append(entry@)),
        old(log)@.entries.is_prefix_of(final(log)@.entries),
        !old(log)@.is_open ==> *final(log) == *old(log),
{
    log.append(entry);
    Ok(())
}

/// Append one diagnostic line from the capture tool's output streams, stamped
/// with the current clock; never fails, and with no active session it is a
/// silent no-op.
pub fn log_ffmpeg(log: &mut EventLog, output: &str, is_stderr: bool) -> (r: Result<(), String>)
    ensures
        r is Ok,
        final(log)@.is_open == old(log)@.is_open,
        old(log)@.entries.is_prefix_of(final(log)@.entries),
        !old(log)@.is_open ==> *final(log) == *old(log),
        old(log)@.is_open ==> final(log)@.entries.len() == old(log)@.entries.len() + 1
            && final(log)@.entries.last().kind == "ffmpeg"@
            && final(log)@.entries.last().payload == (RecordPayloadModel::Diagnostic {
                line: output@,
                stderr: is_stderr,
            })
            && final(log)@.entries =~= old(log)@.entries.push(final(log)@.entries.last()),
{
    let rec = LogRecord {
        kind: String::from_str("ffmpeg"),
        payload: RecordPayload::Diagnostic { line: output.to_owned(), stderr: is_stderr },
        time: current_epoch_millis(),
    };
    log.append(rec);
    Ok(())
}

/// Append a recording-status record (`"recording"`, `"stopping"` or
/// `"stopped"`) stamped with the given clock reading; a no-op while no
/// session holds the sink.
pub fn publish_status(log: &mut EventLog, state: &str, now: i64)
    ensures
        final(log)@.is_open == old(log)@.is_open,
        old(log)@.entries.is_prefix_of(final(log)@.entries),
        !old(log)@.is_open ==> *final(log) == *old(log),
        old(log)@.is_open ==> final(log)@.entries =~= old(log)@.entries.push(status_record(
            state@,
            now as int,
        )),
{
    let rec = LogRecord {
        kind: String::from_str("status"),
        payload: RecordPayload::Status(state.to_owned()),
        time: now,
    };
    log.append(rec);
}

/// The model of a recording-status record.
pub open spec fn status_record(state: Seq<char>, t: int) -> RecordModel {
    RecordModel { kind: "status"@, payload: RecordPayloadModel::Status(state), time: t }
}

/// Seal the session's log with its closing status record (`"stopped"`),
/// stamped with the given clock reading: the record lands even though the
/// sink already refuses producer records, and the sink stays closed.
pub fn seal_status(log: &mut EventLog, state: &str, now: i64)
    ensures
        final(log)@ == apply_step(old(log)@, LogStep::Seal(status_record(state@, now as int))),
        final(log)@.entries =~= old(log)@.entries.push(status_record(state@, now as int)),
        !final(log)@.is_open,
        old(log)@.entries.is_prefix_of(final(log)@.entries),
{
    let rec = LogRecord {
        kind: String::from_str("status"),
        payload: RecordPayload::Status(state.to_owned()),
        time: now,
    };
    log.seal(rec);
}

/// Lifecycle ordering: a session's log is built by appends on a sink that is
/// opened when the session starts, refuses producer records once closed
/// during stop, and is sealed with the closing status. When every record
/// written during the run carries a timestamp between the session's start
/// reading and its stop reading — the clock was not adjusted mid-session —
/// every record the final log holds lies in that window, whatever order the
/// writes and the close arrive in.
pub proof fn lemma_lifecycle_ordering(
    l0: LogModel,
    steps: Seq<LogStep>,
    t_start: int,
    t_stop: int,
)
    requires
        forall|j: int|
            0 <= j < l0.entries.len() ==> t_start <= #[trigger] l0.entries[j].time <= t_stop,
        forall|k: int| 0 <= k < steps.len() ==> step_time_in(#[trigger] steps[k], t_start, t_stop),
    ensures
        forall|j: int|
            0 <= j < apply_steps(l0, steps).entries.len() ==> t_start <= #[trigger] apply_steps(
                l0,
                steps,
            ).entries[j].time <= t_stop,
    decreases steps.len(),
{
    if steps.len() > 0 {
        let l1 = apply_step(l0, steps[0]);
        assert(step_time_in(steps[0], t_start, t_stop));
        assert(forall|j: int|
            0 <= j < l1.entries.len() ==> t_start <= #[trigger] l1.entries[j].time <= t_stop);
        lemma_lifecycle_ordering(l1, steps.drop_first(), t_start, t_stop);
    }
}

} // verus!

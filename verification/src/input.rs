//! Platform input capture adapter: normalizes OS-specific raw input into a
//! uniform event stream and funnels each decoded primitive into the session
//! event log. Two platform strategies exist: a unified blocking hook that
//! yields every primitive with absolute mouse position, and a split strategy
//! that drains a raw-device queue (relative deltas, keys, buttons, joystick)
//! beside a restricted hook used only for absolute mouse position.

use vstd::prelude::*;
use vstd::string::*;
use crate::clock::current_epoch_millis;
use crate::eventlog::{
    EventLog, LogRecord, RecordModel, RecordPayload, RecordPayloadModel, log_input,
};
use crate::record::Platform;

verus! {

/// One event from the unified blocking hook: every primitive, with absolute
/// mouse position.
#[derive(Debug, Clone, PartialEq)]
pub enum HookEvent {
    KeyPress { key: String },
    KeyRelease { key: String },
    ButtonPress { button: String },
    ButtonRelease { button: String },
    MouseMove { x: i64, y: i64 },
    Wheel { delta: i64 },
}

/// One event drained from the raw-device queue of the split strategy: keys,
/// buttons, relative mouse deltas, wheel and joystick, but no absolute
/// position. `Other` stands for device events the adapter does not decode.
#[allow(inconsistent_fields)]
#[derive(Debug, Clone, PartialEq)]
pub enum DeviceEvent {
    Key { key: String, pressed: bool },
    Delta { x: i64, y: i64 },
    Button { button: String, pressed: bool },
    Wheel { delta: i64 },
    JoystickButton { id: usize, button: usize, pressed: bool },
    JoystickAxis { id: usize, axis: String, value: i64 },
    Other,
}

/// The payload of one decoded input primitive.
#[allow(inconsistent_fields)]
#[derive(Debug, Clone, PartialEq)]
pub enum Payload {
    Key { key: String },
    Button { button: String },
    Position { x: i64, y: i64 },
    Wheel { delta: i64 },
    JoystickButton { id: usize, button: usize },
    JoystickAxis { id: usize, axis: String, value: i64 },
}

/// Mathematical model of a payload.
#[allow(inconsistent_fields)]
pub ghost enum PayloadModel {
    Key { key: Seq<char> },
    Button { button: Seq<char> },
    Position { x: int, y: int },
    Wheel { delta: int },
    JoystickButton { id: int, button: int },
    JoystickAxis { id: int, axis: Seq<char>, value: int },
}

impl View for Payload {
    type V = PayloadModel;

    open spec fn view(&self) -> PayloadModel {
        match self {
            Payload::Key { key } => PayloadModel::Key { key: key@ },
            Payload::Button { button } => PayloadModel::Button { button: button@ },
            Payload::Position { x, y } => PayloadModel::Position { x: *x as int, y: *y as int },
            Payload::Wheel { delta } => PayloadModel::Wheel { delta: *delta as int },
            Payload::JoystickButton { id, button } => PayloadModel::JoystickButton {
                id: *id as int,
                button: *button as int,
            },
            Payload::JoystickAxis { id, axis, value } => PayloadModel::JoystickAxis {
                id: *id as int,
                axis: axis@,
                value: *value as int,
            },
        }
    }
}

/// One decoded input primitive: a tag such as `"keydown"` and its payload.
/// Immutable once built; appended to the log, never mutated.
#[derive(Debug, Clone, PartialEq)]
pub struct InputEvent {
    pub event: String,
    pub data: Payload,
}

/// Mathematical model of a decoded input primitive.
pub ghost struct EventModel {
    pub event: Seq<char>,
    pub data: PayloadModel,
}

impl View for InputEvent {
    type V = EventModel;

    open spec fn view(&self) -> EventModel {
        EventModel { event: self.event@, data: self.data@ }
    }
}

fn clone_payload(p: &Payload) -> (r: Payload)
    ensures
        r == *p,
{
    match p {
        Payload::Key { key } => Payload::Key { key: key.clone() },
        Payload::Button { button } => Payload::Button { button: button.clone() },
        Payload::Position { x, y } => Payload::Position { x: *x, y: *y },
        Payload::Wheel { delta } => Payload::Wheel { delta: *delta },
        Payload::JoystickButton { id, button } => Payload::JoystickButton {
            id: *id,
            button: *button,
        },
        Payload::JoystickAxis { id, axis, value } => Payload::JoystickAxis {
            id: *id,
            axis: axis.clone(),
            value: *value,
        },
    }
}

impl InputEvent {
    /// Build one immutable event from its tag and payload.
    pub fn new(event: &str, data: Payload) -> (r: Self)
        ensures
            r@.event == event@,
            r@.data == data@,
    {
        InputEvent { event: event.to_owned(), data }
    }

    /// The log record for this event, stamped with the current clock: the
    /// record's kind is the event's tag and its payload is the event's data.
    pub fn to_log_entry(&self) -> (r: LogRecord)
        ensures
            r@.kind == self@.event,
            r@.payload == RecordPayloadModel::Input(self@.data),
    {
        LogRecord {
            kind: self.event.clone(),
            payload: RecordPayload::Input(clone_payload(&self.data)),
            time: current_epoch_millis(),
        }
    }

    /// The log record for this event with the given clock reading.
    pub fn to_log_entry_at(&self, now: i64) -> (r: LogRecord)
        ensures
            r@ == input_record(self@, now as int),
    {
        LogRecord {
            kind: self.event.clone(),
            payload: RecordPayload::Input(clone_payload(&self.data)),
            time: now,
        }
    }
}

/// The model of the log record a decoded event produces at clock reading `t`.
pub open spec fn input_record(ev: EventModel, t: int) -> RecordModel {
    RecordModel { kind: ev.event, payload: RecordPayloadModel::Input(ev.data), time: t }
}

/// What the unified hook strategy decodes each raw event to: a 1:1
/// translation of every primitive.
pub open spec fn hook_event_model(e: HookEvent) -> EventModel {
    match e {
        HookEvent::KeyPress { key } => EventModel {
            event: "keydown"@,
            data: PayloadModel::Key { key: key@ },
        },
        HookEvent::KeyRelease { key } => EventModel {
            event: "keyup"@,
            data: PayloadModel::Key { key: key@ },
        },
        HookEvent::ButtonPress { button } => EventModel {
            event: "mousedown"@,
            data: PayloadModel::Button { button: button@ },
        },
        HookEvent::ButtonRelease { button } => EventModel {
            event: "mouseup"@,
            data: PayloadModel::Button { button: button@ },
        },
        HookEvent::MouseMove { x, y } => EventModel {
            event: "mousemove"@,
            data: PayloadModel::Position { x: x as int, y: y as int },
        },
        HookEvent::Wheel { delta } => EventModel {
            event: "mousewheel"@,
            data: PayloadModel::Wheel { delta: delta as int },
        },
    }
}

/// Decode one unified-hook event; every primitive translates 1:1.
pub fn decode_hook_event(e: &HookEvent) -> (r: InputEvent)
    ensures
        r@ == hook_event_model(*e),
{
    match e {
        HookEvent::KeyPress { key } => InputEvent::new(
            "keydown",
            Payload::Key { key: key.clone() },
        ),
        HookEvent::KeyRelease { key } => InputEvent::new("keyup", Payload::Key { key: key.clone() }),
        HookEvent::ButtonPress { button } => InputEvent::new(
            "mousedown",
            Payload::Button { button: button.clone() },
        ),
        HookEvent::ButtonRelease { button } => InputEvent::new(
            "mouseup",
            Payload::Button { button: button.clone() },
        ),
        HookEvent::MouseMove { x, y } => InputEvent::new(
            "mousemove",
            Payload::Position { x: *x, y: *y },
        ),
        HookEvent::Wheel { delta } => InputEvent::new(
            "mousewheel",
            Payload::Wheel { delta: *delta },
        ),
    }
}

/// What the restricted hook of the split strategy decodes: only absolute
/// mouse position; every other primitive is left to the raw-device queue.
pub open spec fn position_event_model(e: HookEvent) -> Option<EventModel> {
    match e {
        HookEvent::MouseMove { x, y } => Some(
            EventModel {
                event: "mousemove"@,
                data: PayloadModel::Position { x: x as int, y: y as int },
            },
        ),
        _ => None,
    }
}

/// Decode one event of the restricted hook used beside the raw-device queue:
/// only absolute mouse moves are taken.
pub fn decode_position_event(e: &HookEvent) -> (r: Option<InputEvent>)
    ensures
        r matches Some(ev) ==> position_event_model(*e) matches Some(m) && ev@ == m,
        r is None <==> position_event_model(*e) is None,
{
    match e {
        HookEvent::MouseMove { x, y } => Some(
            InputEvent::new("mousemove", Payload::Position { x: *x, y: *y }),
        ),
        _ => None,
    }
}

/// What the split strategy decodes each raw-device event to; the queue yields
/// relative deltas, so moves become `"mousedelta"`, and undecoded device
/// events yield nothing.
pub open spec fn device_event_model(e: DeviceEvent) -> Option<EventModel> {
    match e {
        DeviceEvent::Key { key, pressed } => Some(
            EventModel {
                event: if pressed {
                    "keydown"@
                } else {
                    "keyup"@
                },
                data: PayloadModel::Key { key: key@ },
            },
        ),
        DeviceEvent::Delta { x, y } => Some(
            EventModel {
                event: "mousedelta"@,
                data: PayloadModel::Position { x: x as int, y: y as int },
            },
        ),
        DeviceEvent::Button { button, pressed } => Some(
            EventModel {
                event: if pressed {
                    "mousedown"@
                } else {
                    "mouseup"@
                },
                data: PayloadModel::Button { button: button@ },
            },
        ),
        DeviceEvent::Wheel { delta } => Some(
            EventModel {
                event: "mousewheel"@,
                data: PayloadModel::Wheel { delta: delta as int },
            },
        ),
        DeviceEvent::JoystickButton { id, button, pressed } => Some(
            EventModel {
                event: if pressed {
                    "joystickdown"@
                } else {
                    "joystickup"@
                },
                data: PayloadModel::JoystickButton { id: id as int, button: button as int },
            },
        ),
        DeviceEvent::JoystickAxis { id, axis, value } => Some(
            EventModel {
                event: "joystickaxis"@,
                data: PayloadModel::JoystickAxis {
                    id: id as int,
                    axis: axis@,
                    value: value as int,
                },
            },
        ),
        DeviceEvent::Other => None,
    }
}

/// Decode one raw-device event of the split strategy.
pub fn decode_device_event(e: &DeviceEvent) -> (r: Option<InputEvent>)
    ensures
        r matches Some(ev) ==> device_event_model(*e) matches Some(m) && ev@ == m,
        r is None <==> device_event_model(*e) is None,
{
    match e {
        DeviceEvent::Key { key, pressed } => Some(
            InputEvent::new(
                if *pressed {
                    "keydown"
                } else {
                    "keyup"
                },
                Payload::Key { key: key.clone() },
            ),
        ),
        DeviceEvent::Delta { x, y } => Some(
            InputEvent::new("mousedelta", Payload::Position { x: *x, y: *y }),
        ),
        DeviceEvent::Button { button, pressed } => Some(
            InputEvent::new(
                if *pressed {
                    "mousedown"
                } else {
                    "mouseup"
                },
                Payload::Button { button: button.clone() },
            ),
        ),
        DeviceEvent::Wheel { delta } => Some(
            InputEvent::new("mousewheel", Payload::Wheel { delta: *delta }),
        ),
        DeviceEvent::JoystickButton { id, button, pressed } => Some(
            InputEvent::new(
                if *pressed {
                    "joystickdown"
                } else {
                    "joystickup"
                },
                Payload::JoystickButton { id: *id, button: *button },
            ),
        ),
        DeviceEvent::JoystickAxis { id, axis, value } => Some(
            InputEvent::new(
                "joystickaxis",
                Payload::JoystickAxis { id: *id, axis: axis.clone(), value: *value },
            ),
        ),
        DeviceEvent::Other => None,
    }
}

/// Decode one unified-hook event, append it to the session event log stamped
/// with the current clock, and hand the decoded event back for best-effort
/// publication. With no active session the append is a silent no-op.
pub fn handle_hook_event(log: &mut EventLog, e: &HookEvent) -> (ev: InputEvent)
    ensures
        ev@ == hook_event_model(*e),
        final(log)@.is_open == old(log)@.is_open,
        old(log)@.entries.is_prefix_of(final(log)@.entries),
        !old(log)@.is_open ==> *final(log) == *old(log),
        old(log)@.is_open ==> final(log)@.entries.len() == old(log)@.entries.len() + 1
            && final(log)@.entries.last().kind == ev@.event
            && final(log)@.entries.last().payload == RecordPayloadModel::Input(ev@.data),
{
    let ev = decode_hook_event(e);
    let entry = ev.to_log_entry();
    let _ = log_input(log, entry);
    ev
}

/// The records a run of unified-hook events appends, all at clock reading `t`.
pub open spec fn hook_records(evs: Seq<HookEvent>, t: int) -> Seq<RecordModel> {
    evs.map_values(|e: HookEvent| input_record(hook_event_model(e), t))
}

/// Feed a batch of unified-hook events through the adapter at one clock
/// reading: while a session is active, each event appends exactly one log
/// record preserving its tag and payload, in order; the decoded events are
/// returned for publication.
pub fn handle_hook_events(log: &mut EventLog, events: &Vec<HookEvent>, now: i64) -> (out: Vec<
    InputEvent,
>)
    ensures
        out@.len() == events@.len(),
        forall|i: int| 0 <= i < events@.len() ==> #[trigger] out@[i]@ == hook_event_model(
            events@[i],
        ),
        final(log)@.is_open == old(log)@.is_open,
        old(log)@.entries.is_prefix_of(final(log)@.entries),
        !old(log)@.is_open ==> *final(log) == *old(log),
        old(log)@.is_open ==> final(log)@.entries =~= old(log)@.entries + hook_records(
            events@,
            now as int,
        ),
{
    let ghost entries0 = log@.entries;
    let mut out: Vec<InputEvent> = Vec::new();
    let mut i: usize = 0;
    while i < events.len()
        invariant
            0 <= i <= events@.len(),
            out@.len() == i,
            forall|k: int| 0 <= k < i ==> #[trigger] out@[k]@ == hook_event_model(events@[k]),
            log@.is_open == old(log)@.is_open,
            entries0 == old(log)@.entries,
            !old(log)@.is_open ==> *log == *old(log),
            old(log)@.is_open ==> log@.entries =~= entries0 + hook_records(
                events@.take(i as int),
                now as int,
            ),
        decreases events@.len() - i,
    {
        let ev = decode_hook_event(&events[i]);
        let entry = ev.to_log_entry_at(now);
        let _ = log_input(log, entry);
        proof {
            if old(log)@.is_open {
                assert(events@.take(i + 1).drop_last() =~= events@.take(i as int));
                assert(log@.entries =~= entries0 + hook_records(events@.take(i + 1), now as int));
            }
        }
        out.push(ev);
        i = i + 1;
    }
    proof {
        assert(events@.take(events@.len() as int) =~= events@);
    }
    out
}

/// The records a drained batch of raw-device events appends, all at clock
/// reading `t`: one per decoded event, none for the rest.
pub open spec fn device_records(evs: Seq<DeviceEvent>, t: int) -> Seq<RecordModel>
    decreases evs.len(),
{
    if evs.len() == 0 {
        Seq::empty()
    } else {
        device_records(evs.drop_last(), t) + match device_event_model(evs.last()) {
            Some(m) => seq![input_record(m, t)],
            None => Seq::empty(),
        }
    }
}

/// The events a drained batch decodes to, in order.
pub open spec fn device_emitted(evs: Seq<DeviceEvent>) -> Seq<EventModel>
    decreases evs.len(),
{
    if evs.len() == 0 {
        Seq::empty()
    } else {
        device_emitted(evs.drop_last()) + match device_event_model(evs.last()) {
            Some(m) => seq![m],
            None => Seq::empty(),
        }
    }
}

/// Drain a batch from the raw-device queue of the split strategy at one
/// clock reading: each decoded event appends exactly one log record
/// preserving its tag and payload, in order; undecoded events are skipped.
pub fn drain_device_queue(log: &mut EventLog, events: &Vec<DeviceEvent>, now: i64) -> (out: Vec<
    InputEvent,
>)
    ensures
        out@.map_values(|ev: InputEvent| ev@) =~= device_emitted(events@),
        final(log)@.is_open == old(log)@.is_open,
        old(log)@.entries.is_prefix_of(final(log)@.entries),
        !old(log)@.is_open ==> *final(log) == *old(log),
        old(log)@.is_open ==> final(log)@.entries =~= old(log)@.entries + device_records(
            events@,
            now as int,
        ),
{
    let ghost entries0 = log@.entries;
    let mut out: Vec<InputEvent> = Vec::new();
    let mut i: usize = 0;
    while i < events.len()
        invariant
            0 <= i <= events@.len(),
            out@.map_values(|ev: InputEvent| ev@) =~= device_emitted(events@.take(i as int)),
            log@.is_open == old(log)@.is_open,
            entries0 == old(log)@.entries,
            !old(log)@.is_open ==> *log == *old(log),
            old(log)@.is_open ==> log@.entries =~= entries0 + device_records(
                events@.take(i as int),
                now as int,
            ),
        decreases events@.len() - i,
    {
        proof {
            assert(events@.take(i + 1).drop_last() =~= events@.take(i as int));
            assert(events@.take(i + 1).last() == events@[i as int]);
        }
        if let Some(ev) = decode_device_event(&events[i]) {
            let entry = ev.to_log_entry_at(now);
            let _ = log_input(log, entry);
            out.push(ev);
        }
        i = i + 1;
    }
    proof {
        assert(events@.take(events@.len() as int) =~= events@);
    }
    out
}

/// The cooperative-shutdown state of the background input listeners: a shared
/// running flag the listener loops sample between events, and the count of
/// listener threads spawned for the session. Threads are never joined — they
/// may be blocked inside uninterruptible OS hook calls — so stop only flips
/// the flag and abandons them.
#[derive(Debug, Clone, PartialEq)]
pub struct InputListener {
    pub running: bool,
    pub workers: usize,
}

impl InputListener {
    /// A listener set whose loops are told to keep running.
    pub fn new() -> (r: Self)
        ensures
            r.running,
            r.workers == 0,
    {
        InputListener { running: true, workers: 0 }
    }

    /// Record one spawned listener thread.
    pub fn attach_worker(&mut self)
        requires
            old(self).workers < usize::MAX,
        ensures
            final(self).running == old(self).running,
            final(self).workers == old(self).workers + 1,
    {
        self.workers = self.workers + 1;
    }

    /// Request cooperative shutdown: clear the running flag and abandon the
    /// threads, which cannot be joined while blocked in an OS hook call.
    pub fn stop(&mut self)
        ensures
            !final(self).running,
            final(self).workers == 0,
    {
        self.running = false;
        self.workers = 0;
    }
}

/// How many listener threads the platform strategy spawns: the split
/// strategy pairs a raw-device poller with a restricted position hook, the
/// unified strategy needs one blocking hook.
pub open spec fn worker_count(p: Platform) -> int {
    if p is Windows {
        2
    } else {
        1
    }
}

/// Start the platform input listeners on the owned listener cell: a no-op if
/// already listening, else a fresh listener set with the running flag raised
/// and one worker recorded per listener thread the strategy spawns.
pub fn start_input_listener(state: &mut Option<InputListener>, platform: Platform) -> (r: Result<
    (),
    String,
>)
    ensures
        r is Ok,
        (*old(state)) matches Some(_) ==> *final(state) == *old(state),
        (*old(state)) is None ==> ((*final(state)) matches Some(l) && l.running && l.workers
            == worker_count(platform)),
{
    if state.is_some() {
        return Ok(());
    }
    let mut listener = InputListener::new();
    listener.attach_worker();
    if let Platform::Windows = platform {
        listener.attach_worker();
    }
    *state = Some(listener);
    Ok(())
}

/// Stop the input listeners on the owned listener cell: flip the running
/// flag so every listener loop winds down at its next sample, and release
/// the listener without joining its threads. A no-op when nothing listens.
pub fn stop_input_listener(state: &mut Option<InputListener>) -> (r: Result<(), String>)
    ensures
        r is Ok,
        (*final(state)) is None,
{
    if let Some(listener) = state {
        listener.stop();
    }
    *state = None;
    Ok(())
}

} // verus!

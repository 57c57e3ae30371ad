use session_capture::eventlog::{EventLog, RecordPayload};
use session_capture::input::{
    decode_device_event, decode_hook_event, decode_position_event, drain_device_queue,
    handle_hook_events, start_input_listener, stop_input_listener, DeviceEvent, HookEvent,
    InputEvent, InputListener, Payload,
};
use session_capture::record::Platform;

#[test]
fn hook_events_decode_one_to_one() {
    let cases = vec![
        (HookEvent::KeyPress { key: String::from("KeyA") }, "keydown"),
        (HookEvent::KeyRelease { key: String::from("KeyA") }, "keyup"),
        (HookEvent::ButtonPress { button: String::from("Left") }, "mousedown"),
        (HookEvent::ButtonRelease { button: String::from("Left") }, "mouseup"),
        (HookEvent::MouseMove { x: 12, y: 34 }, "mousemove"),
        (HookEvent::Wheel { delta: -3 }, "mousewheel"),
    ];
    for (raw, tag) in cases {
        let ev = decode_hook_event(&raw);
        assert_eq!(ev.event, tag);
    }
    let ev = decode_hook_event(&HookEvent::MouseMove { x: 12, y: 34 });
    assert_eq!(ev.data, Payload::Position { x: 12, y: 34 });
    let ev = decode_hook_event(&HookEvent::KeyPress { key: String::from("KeyA") });
    assert_eq!(ev.data, Payload::Key { key: String::from("KeyA") });
}

#[test]
fn device_events_decode_including_joystick() {
    let ev = decode_device_event(&DeviceEvent::Key { key: String::from("W"), pressed: true });
    assert_eq!(ev.unwrap().event, "keydown");
    let ev = decode_device_event(&DeviceEvent::Key { key: String::from("W"), pressed: false });
    assert_eq!(ev.unwrap().event, "keyup");
    let ev = decode_device_event(&DeviceEvent::Delta { x: -5, y: 9 });
    let ev = ev.unwrap();
    assert_eq!(ev.event, "mousedelta");
    assert_eq!(ev.data, Payload::Position { x: -5, y: 9 });
    let ev = decode_device_event(&DeviceEvent::Button { button: String::from("Right"), pressed: true });
    assert_eq!(ev.unwrap().event, "mousedown");
    let ev = decode_device_event(&DeviceEvent::Wheel { delta: 2 });
    assert_eq!(ev.unwrap().event, "mousewheel");
    let ev = decode_device_event(&DeviceEvent::JoystickButton { id: 1, button: 4, pressed: true });
    let ev = ev.unwrap();
    assert_eq!(ev.event, "joystickdown");
    assert_eq!(ev.data, Payload::JoystickButton { id: 1, button: 4 });
    let ev = decode_device_event(&DeviceEvent::JoystickButton { id: 1, button: 4, pressed: false });
    assert_eq!(ev.unwrap().event, "joystickup");
    let ev = decode_device_event(&DeviceEvent::JoystickAxis {
        id: 0,
        axis: String::from("X"),
        value: -32768,
    });
    let ev = ev.unwrap();
    assert_eq!(ev.event, "joystickaxis");
    assert_eq!(ev.data, Payload::JoystickAxis { id: 0, axis: String::from("X"), value: -32768 });
    assert!(decode_device_event(&DeviceEvent::Other).is_none());
}

#[test]
fn restricted_hook_takes_only_absolute_position() {
    let ev = decode_position_event(&HookEvent::MouseMove { x: 100, y: 200 });
    let ev = ev.unwrap();
    assert_eq!(ev.event, "mousemove");
    assert_eq!(ev.data, Payload::Position { x: 100, y: 200 });
    assert!(decode_position_event(&HookEvent::KeyPress { key: String::from("A") }).is_none());
    assert!(decode_position_event(&HookEvent::Wheel { delta: 1 }).is_none());
}

#[test]
fn one_log_entry_per_event_of_each_kind() {
    let mut log = EventLog::new();
    log.open_for_session();
    let events = vec![
        HookEvent::KeyPress { key: String::from("KeyQ") },
        HookEvent::KeyRelease { key: String::from("KeyQ") },
        HookEvent::ButtonPress { button: String::from("Left") },
        HookEvent::ButtonRelease { button: String::from("Left") },
        HookEvent::MouseMove { x: 1, y: 2 },
        HookEvent::Wheel { delta: 7 },
    ];
    let emitted = handle_hook_events(&mut log, &events, 42);
    assert_eq!(emitted.len(), events.len());
    assert_eq!(log.records.len(), events.len());
    for (i, record) in log.records.iter().enumerate() {
        let ev: &InputEvent = &emitted[i];
        assert_eq!(record.kind, ev.event);
        assert_eq!(record.payload, RecordPayload::Input(ev.data.clone()));
        assert_eq!(record.time, 42);
    }
}

#[test]
fn drained_queue_logs_decoded_events_and_skips_the_rest() {
    let mut log = EventLog::new();
    log.open_for_session();
    let events = vec![
        DeviceEvent::Key { key: String::from("E"), pressed: true },
        DeviceEvent::Other,
        DeviceEvent::Delta { x: 3, y: -4 },
        DeviceEvent::Wheel { delta: 1 },
        DeviceEvent::Other,
        DeviceEvent::JoystickAxis { id: 2, axis: String::from("Y"), value: 128 },
    ];
    let emitted = drain_device_queue(&mut log, &events, 9);
    assert_eq!(emitted.len(), 4);
    assert_eq!(log.records.len(), 4);
    assert_eq!(log.records[0].kind, "keydown");
    assert_eq!(log.records[1].kind, "mousedelta");
    assert_eq!(log.records[2].kind, "mousewheel");
    assert_eq!(log.records[3].kind, "joystickaxis");
}

#[test]
fn closed_log_drops_adapter_events() {
    let mut log = EventLog::new();
    let events = vec![HookEvent::KeyPress { key: String::from("A") }];
    let emitted = handle_hook_events(&mut log, &events, 5);
    assert_eq!(emitted.len(), 1);
    assert_eq!(log.records.len(), 0);
}

#[test]
fn input_event_log_entry_preserves_kind_and_payload() {
    let ev = InputEvent::new("mousewheel", Payload::Wheel { delta: -2 });
    let entry = ev.to_log_entry();
    assert_eq!(entry.kind, "mousewheel");
    assert_eq!(entry.payload, RecordPayload::Input(Payload::Wheel { delta: -2 }));
    let stamped = ev.to_log_entry_at(77);
    assert_eq!(stamped.time, 77);
    assert_eq!(stamped.kind, "mousewheel");
}

#[test]
fn listener_stop_flips_flag_and_abandons_threads() {
    let mut l = InputListener::new();
    assert!(l.running);
    l.attach_worker();
    l.attach_worker();
    assert_eq!(l.workers, 2);
    l.stop();
    assert!(!l.running);
    assert_eq!(l.workers, 0);
}

#[test]
fn listener_cell_start_is_idempotent_and_stop_clears() {
    let mut cell: Option<InputListener> = None;
    start_input_listener(&mut cell, Platform::Windows).unwrap();
    assert_eq!(cell.as_ref().unwrap().workers, 2); // split strategy: poller + position hook
    start_input_listener(&mut cell, Platform::Windows).unwrap();
    assert_eq!(cell.as_ref().unwrap().workers, 2);
    stop_input_listener(&mut cell).unwrap();
    assert!(cell.is_none());
    stop_input_listener(&mut cell).unwrap();
    assert!(cell.is_none());

    let mut unified: Option<InputListener> = None;
    start_input_listener(&mut unified, Platform::Linux).unwrap();
    assert_eq!(unified.as_ref().unwrap().workers, 1);
}

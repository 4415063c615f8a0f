use jove::dispatch::{classify, handler_name, HandlerKind, HostEvent, LoopPhase, ScriptArg};

#[test]
fn a_key_press_invokes_keydown_with_the_key_name() {
    let invocation = classify(HostEvent::Key { pressed: true, name: "A".to_string() })
        .expect("a key press dispatches");
    assert_eq!(invocation.handler, HandlerKind::Keydown);
    match invocation.arg {
        Some(ScriptArg::Text(name)) => assert_eq!(name, "A"),
        _ => panic!("keydown takes the key name"),
    }
}

#[test]
fn a_key_release_invokes_keyup() {
    let invocation = classify(HostEvent::Key { pressed: false, name: "Escape".to_string() })
        .expect("a key release dispatches");
    assert_eq!(invocation.handler, HandlerKind::Keyup);
    match invocation.arg {
        Some(ScriptArg::Text(name)) => assert_eq!(name, "Escape"),
        _ => panic!("keyup takes the key name"),
    }
}

#[test]
fn mouse_transitions_invoke_mousedown_and_mouseup() {
    let down = classify(HostEvent::Mouse { pressed: true, name: "Left".to_string() }).unwrap();
    assert_eq!(down.handler, HandlerKind::Mousedown);
    let up = classify(HostEvent::Mouse { pressed: false, name: "Left".to_string() }).unwrap();
    assert_eq!(up.handler, HandlerKind::Mouseup);
}

#[test]
fn ticks_invoke_idle_and_update_with_elapsed_seconds() {
    let dt = 0.016f64.to_bits();
    let idle = classify(HostEvent::Idle { seconds: dt }).unwrap();
    assert_eq!(idle.handler, HandlerKind::Idle);
    assert!(matches!(idle.arg, Some(ScriptArg::Number(n)) if n == dt));
    let update = classify(HostEvent::Update { seconds: dt }).unwrap();
    assert_eq!(update.handler, HandlerKind::Update);
    assert!(matches!(update.arg, Some(ScriptArg::Number(n)) if n == dt));
}

#[test]
fn other_host_events_dispatch_nothing() {
    assert!(classify(HostEvent::Other).is_none());
}

#[test]
fn handler_names_match_the_script_visible_globals() {
    assert_eq!(handler_name(HandlerKind::Keydown), "keydown");
    assert_eq!(handler_name(HandlerKind::Keyup), "keyup");
    assert_eq!(handler_name(HandlerKind::Mousedown), "mousedown");
    assert_eq!(handler_name(HandlerKind::Mouseup), "mouseup");
    assert_eq!(handler_name(HandlerKind::Idle), "idle");
    assert_eq!(handler_name(HandlerKind::Update), "update");
    assert_eq!(handler_name(HandlerKind::Render), "render");
}

#[test]
fn n_key_presses_dispatch_keydown_n_times_in_arrival_order() {
    let keys = ["A", "B", "C", "D", "E"];
    let mut seen = Vec::new();
    for key in keys {
        let event = HostEvent::Key { pressed: true, name: key.to_string() };
        if let Some(invocation) = classify(event) {
            assert_eq!(invocation.handler, HandlerKind::Keydown);
            match invocation.arg {
                Some(ScriptArg::Text(name)) => seen.push(name),
                _ => panic!("keydown takes the key name"),
            }
        }
    }
    assert_eq!(seen, ["A", "B", "C", "D", "E"]);
}

#[test]
fn the_loop_walks_its_phases_and_stops_when_the_source_is_exhausted() {
    let phase = LoopPhase::Idle;
    let phase = phase.on_poll(true);
    assert_eq!(phase, LoopPhase::Dispatching);
    let phase = phase.on_dispatched();
    assert_eq!(phase, LoopPhase::Drawing);
    let phase = phase.on_drawn();
    assert_eq!(phase, LoopPhase::Idle);
    let phase = phase.on_poll(false);
    assert_eq!(phase, LoopPhase::Stopped);
}

//! The event dispatch loop's logic: how one host event maps to one
//! handler invocation, how a frame orders dispatch before draw, and the
//! phases the loop moves through.
//!
//! Per iteration the loop pulls one event from the frame source, invokes
//! at most one matching handler, and then always runs the draw phase —
//! the `render` invocation inside the frame bridge's lending window —
//! whether or not the event dispatched anything.  When the frame source
//! is exhausted the loop stops.  What a handler does when it runs belongs
//! to the script; which handler runs, with which argument, and in which
//! order, is decided and proved here.

use vstd::prelude::*;
use crate::host::{spec_error_lines, InvokeOutcome};

verus! {

/// One host-originated occurrence, reduced to plain values: key and mouse
/// transitions carry the symbolic name of the key or button; idle and
/// update ticks carry the elapsed seconds in the engine's 64-bit numeric
/// encoding; any other occurrence dispatches nothing.
#[derive(Debug)]
pub enum HostEvent {
    Key { pressed: bool, name: String },
    Mouse { pressed: bool, name: String },
    Idle { seconds: u64 },
    Update { seconds: u64 },
    Other,
}

/// The handlers a script may define as global functions.
#[derive(Clone, Copy, Debug, PartialEq, Eq, Structural)]
pub enum HandlerKind {
    Keydown,
    Keyup,
    Mousedown,
    Mouseup,
    Idle,
    Update,
    Render,
}

/// One positional argument marshaled into a handler call.
#[derive(Debug)]
pub enum ScriptArg {
    Text(String),
    Number(u64),
}

/// One handler invocation the loop performs: which handler, with which
/// argument (the event handlers take exactly one; `render` takes none).
#[derive(Debug)]
pub struct Invocation {
    pub handler: HandlerKind,
    pub arg: Option<ScriptArg>,
}

/// The global name under which a handler is looked up.
pub open spec fn spec_handler_name(h: HandlerKind) -> Seq<char> {
    match h {
        HandlerKind::Keydown => "keydown"@,
        HandlerKind::Keyup => "keyup"@,
        HandlerKind::Mousedown => "mousedown"@,
        HandlerKind::Mouseup => "mouseup"@,
        HandlerKind::Idle => "idle"@,
        HandlerKind::Update => "update"@,
        HandlerKind::Render => "render"@,
    }
}

/// The global name under which a handler is looked up, as
/// [`spec_handler_name`] says.
pub fn handler_name(h: HandlerKind) -> (s: &'static str)
    ensures
        s@ == spec_handler_name(h),
{
    match h {
        HandlerKind::Keydown => "keydown",
        HandlerKind::Keyup => "keyup",
        HandlerKind::Mousedown => "mousedown",
        HandlerKind::Mouseup => "mouseup",
        HandlerKind::Idle => "idle",
        HandlerKind::Update => "update",
        HandlerKind::Render => "render",
    }
}

/// The invocation one host event calls for: a key transition invokes
/// `keydown`/`keyup` with the key's name, a mouse transition
/// `mousedown`/`mouseup` with the button's name, a tick `idle`/`update`
/// with its elapsed seconds; any other event invokes nothing.
pub open spec fn spec_classify(e: HostEvent) -> Option<Invocation> {
    match e {
        HostEvent::Key { pressed, name } => Option::Some(
            Invocation {
                handler: if pressed {
                    HandlerKind::Keydown
                } else {
                    HandlerKind::Keyup
                },
                arg: Option::Some(ScriptArg::Text(name)),
            },
        ),
        HostEvent::Mouse { pressed, name } => Option::Some(
            Invocation {
                handler: if pressed {
                    HandlerKind::Mousedown
                } else {
                    HandlerKind::Mouseup
                },
                arg: Option::Some(ScriptArg::Text(name)),
            },
        ),
        HostEvent::Idle { seconds } => Option::Some(
            Invocation {
                handler: HandlerKind::Idle,
                arg: Option::Some(ScriptArg::Number(seconds)),
            },
        ),
        HostEvent::Update { seconds } => Option::Some(
            Invocation {
                handler: HandlerKind::Update,
                arg: Option::Some(ScriptArg::Number(seconds)),
            },
        ),
        HostEvent::Other => Option::None,
    }
}

/// Map one host event to the handler invocation it calls for, as
/// [`spec_classify`] says.
pub fn classify(e: HostEvent) -> (r: Option<Invocation>)
    ensures
        r == spec_classify(e),
{
    match e {
        HostEvent::Key { pressed, name } => Option::Some(
            Invocation {
                handler: if pressed {
                    HandlerKind::Keydown
                } else {
                    HandlerKind::Keyup
                },
                arg: Option::Some(ScriptArg::Text(name)),
            },
        ),
        HostEvent::Mouse { pressed, name } => Option::Some(
            Invocation {
                handler: if pressed {
                    HandlerKind::Mousedown
                } else {
                    HandlerKind::Mouseup
                },
                arg: Option::Some(ScriptArg::Text(name)),
            },
        ),
        HostEvent::Idle { seconds } => Option::Some(
            Invocation {
                handler: HandlerKind::Idle,
                arg: Option::Some(ScriptArg::Number(seconds)),
            },
        ),
        HostEvent::Update { seconds } => Option::Some(
            Invocation {
                handler: HandlerKind::Update,
                arg: Option::Some(ScriptArg::Number(seconds)),
            },
        ),
        HostEvent::Other => Option::None,
    }
}

/// The dispatches a run of events calls for, one frame after the next:
/// at most one invocation per event, in arrival order, with no
/// reordering or batching across frames.
pub open spec fn spec_run_dispatches(events: Seq<HostEvent>) -> Seq<Invocation>
    decreases events.len(),
{
    if events.len() == 0 {
        Seq::<Invocation>::empty()
    } else {
        spec_run_dispatches(events.drop_last()) + (match spec_classify(events.last()) {
            Option::Some(inv) => seq![inv],
            Option::None => Seq::<Invocation>::empty(),
        })
    }
}

/// Whether an event is a key press.
pub open spec fn spec_is_key_press(e: HostEvent) -> bool {
    e matches HostEvent::Key { pressed: true, .. }
}

/// The `keydown` invocation a key press calls for.
pub open spec fn spec_key_press_invocation(e: HostEvent) -> Invocation
    recommends
        spec_is_key_press(e),
{
    match e {
        HostEvent::Key { name, .. } => Invocation {
            handler: HandlerKind::Keydown,
            arg: Option::Some(ScriptArg::Text(name)),
        },
        _ => arbitrary(),
    }
}

/// A run of key presses dispatches `keydown` exactly once per event, in
/// arrival order, each with that event's key name.
pub proof fn lemma_key_presses_dispatch_each(events: Seq<HostEvent>)
    requires
        forall|i: int| 0 <= i < events.len() ==> spec_is_key_press(#[trigger] events[i]),
    ensures
        spec_run_dispatches(events).len() == events.len(),
        forall|i: int| 0 <= i < events.len() ==> spec_run_dispatches(events)[i]
            == spec_key_press_invocation(#[trigger] events[i]),
    decreases events.len(),
{
    if events.len() > 0 {
        let prefix = events.drop_last();
        lemma_key_presses_dispatch_each(prefix);
        assert(spec_is_key_press(events.last()));
        assert(spec_run_dispatches(events) == spec_run_dispatches(prefix) + seq![
            spec_key_press_invocation(events.last()),
        ]);
        assert forall|i: int| 0 <= i < events.len() implies spec_run_dispatches(events)[i]
            == spec_key_press_invocation(#[trigger] events[i]) by {
            if i < prefix.len() {
                assert(prefix[i] == events[i]);
                assert(spec_run_dispatches(prefix)[i] == spec_key_press_invocation(prefix[i]));
                assert(spec_run_dispatches(events)[i] == spec_run_dispatches(prefix)[i]);
            } else {
                assert(events[i] == events.last());
                assert(spec_run_dispatches(events)[i] == spec_key_press_invocation(events.last()));
            }
        }
    }
}

/// The handler invocations one frame performs, given which handlers the
/// script's namespace currently defines as callable: the event's own
/// dispatch, if its handler is defined, followed by the draw phase's
/// `render` invocation, if `render` is defined.  The draw phase always
/// comes after the event dispatch of the same frame, and does not depend
/// on how any earlier invocation ended.
pub open spec fn spec_frame_invocations(defined: Set<HandlerKind>, e: HostEvent) -> Seq<
    Invocation,
> {
    (match spec_classify(e) {
        Option::Some(inv) => if defined.contains(inv.handler) {
            seq![inv]
        } else {
            Seq::<Invocation>::empty()
        },
        Option::None => Seq::<Invocation>::empty(),
    }) + (if defined.contains(HandlerKind::Render) {
        seq![Invocation { handler: HandlerKind::Render, arg: Option::None::<ScriptArg> }]
    } else {
        Seq::<Invocation>::empty()
    })
}

/// The handler invocations a whole run performs.  Handler lookup is
/// fresh at every dispatch, so each frame carries the set of handlers
/// defined at that moment.
pub open spec fn spec_run_invocations(
    defined_at: Seq<Set<HandlerKind>>,
    events: Seq<HostEvent>,
) -> Seq<Invocation>
    recommends
        defined_at.len() == events.len(),
    decreases events.len(),
{
    if events.len() == 0 {
        Seq::<Invocation>::empty()
    } else {
        spec_run_invocations(defined_at.drop_last(), events.drop_last())
            + spec_frame_invocations(defined_at.last(), events.last())
    }
}

/// A script that never defines a handler is never entered: the run
/// invokes nothing at all — in particular no handler ever runs that
/// could make a native drawing call.
pub proof fn lemma_no_handlers_nothing_invoked(
    defined_at: Seq<Set<HandlerKind>>,
    events: Seq<HostEvent>,
)
    requires
        defined_at.len() == events.len(),
        forall|i: int, h: HandlerKind| 0 <= i < defined_at.len() ==> !(#[trigger] defined_at[i].contains(
            h,
        )),
    ensures
        spec_run_invocations(defined_at, events).len() == 0,
    decreases events.len(),
{
    if events.len() > 0 {
        lemma_no_handlers_nothing_invoked(defined_at.drop_last(), events.drop_last());
        assert(spec_frame_invocations(defined_at.last(), events.last()).len() == 0);
    }
}

/// A script that never defines a handler also reports no error: with one
/// outcome per invocation performed, a run that invokes nothing has no
/// outcomes and prints no error line.
pub proof fn lemma_no_handlers_no_errors(
    defined_at: Seq<Set<HandlerKind>>,
    events: Seq<HostEvent>,
    outcomes: Seq<InvokeOutcome>,
)
    requires
        defined_at.len() == events.len(),
        forall|i: int, h: HandlerKind| 0 <= i < defined_at.len() ==> !(#[trigger] defined_at[i].contains(
            h,
        )),
        outcomes.len() == spec_run_invocations(defined_at, events).len(),
    ensures
        spec_run_invocations(defined_at, events).len() == 0,
        spec_error_lines(outcomes).len() == 0,
{
    lemma_no_handlers_nothing_invoked(defined_at, events);
}

/// While `render` is defined, every frame's invocation list ends with
/// the draw phase's `render` invocation.  The frame plan is a function
/// of the event and the namespace alone, so this holds no matter how any
/// earlier invocation ended — a throwing handler does not take the next
/// frame's `render` off schedule.
pub proof fn lemma_render_always_scheduled(defined: Set<HandlerKind>, e: HostEvent)
    requires
        defined.contains(HandlerKind::Render),
    ensures
        spec_frame_invocations(defined, e).len() >= 1,
        spec_frame_invocations(defined, e).last() == (Invocation {
            handler: HandlerKind::Render,
            arg: Option::None::<ScriptArg>,
        }),
{
}

/// The phases of one dispatch-loop iteration: waiting for the next host
/// event, dispatching it to its handler, then the draw phase inside the
/// lending window, and back to waiting — or stopped for good once the
/// frame source is exhausted.
#[derive(Clone, Copy, Debug, PartialEq, Eq, Structural)]
pub enum LoopPhase {
    Idle,
    Dispatching,
    Drawing,
    Stopped,
}

impl LoopPhase {
    /// The loop asked the frame source for an event: with one in hand it
    /// dispatches; with none the loop stops, and stays stopped.
    pub fn on_poll(self, event_present: bool) -> (next: LoopPhase)
        requires
            self is Idle,
        ensures
            next == (if event_present {
                LoopPhase::Dispatching
            } else {
                LoopPhase::Stopped
            }),
    {
        if event_present {
            LoopPhase::Dispatching
        } else {
            LoopPhase::Stopped
        }
    }

    /// The event's dispatch finished (or it had no handler): the draw
    /// phase of the same iteration always follows.
    pub fn on_dispatched(self) -> (next: LoopPhase)
        requires
            self is Dispatching,
        ensures
            (next is Drawing),
    {
        LoopPhase::Drawing
    }

    /// The draw phase finished and the lending window closed: the loop
    /// waits for the next event.
    pub fn on_drawn(self) -> (next: LoopPhase)
        requires
            self is Drawing,
        ensures
            (next is Idle),
    {
        LoopPhase::Idle
    }
}

} // verus!

//! What the render loop does with each window event.

use vstd::prelude::*;

verus! {

/// SDL's key code of the Q key.
pub const KEY_Q: i32 = 113;

/// A window event, as far as the render loop looks at it.
#[derive(Debug, PartialEq, Eq)]
pub enum InputEvent {
    /// The window is being closed.
    Quit,
    /// A key went down; `keycode` is `None` for a key SDL has no code for.
    KeyDown { keycode: Option<i32>, timestamp: u32 },
    /// Any other event.
    Other,
}

/// What the render loop does about an event.
#[derive(Debug, PartialEq, Eq)]
pub enum EventResponse {
    /// Stop after this frame.
    Stop,
    /// Report the key that went down and when.
    ReportKey { keycode: i32, timestamp: u32 },
    /// Report an event the loop does not handle.
    ReportUnknown,
}

/// The response to `event`: closing the window or pressing Q stops the loop,
/// another key with a code is reported, anything else is reported as unknown.
pub open spec fn response_to(event: InputEvent) -> EventResponse {
    match event {
        InputEvent::Quit => EventResponse::Stop,
        InputEvent::KeyDown { keycode: Some(k), timestamp } => if k == KEY_Q {
            EventResponse::Stop
        } else {
            EventResponse::ReportKey { keycode: k, timestamp }
        },
        _ => EventResponse::ReportUnknown,
    }
}

/// Decides what the render loop does about `event`.
pub fn respond(event: &InputEvent) -> (res: EventResponse)
    ensures
        res == response_to(*event),
        (res is Stop) <==> (*event is Quit || (*event is KeyDown && event->keycode == Some(
            KEY_Q,
        ))),
        *event is KeyDown && event->keycode is Some && event->keycode->0 != KEY_Q ==> res
            == (EventResponse::ReportKey {
            keycode: event->keycode->0,
            timestamp: event->timestamp,
        }),
        res is ReportKey ==> *event == (InputEvent::KeyDown {
            keycode: Some(res->ReportKey_keycode),
            timestamp: res->ReportKey_timestamp,
        }),
{
    match event {
        InputEvent::Quit => EventResponse::Stop,
        InputEvent::KeyDown { keycode: Some(k), timestamp } => {
            if *k == KEY_Q {
                EventResponse::Stop
            } else {
                EventResponse::ReportKey { keycode: *k, timestamp: *timestamp }
            }
        },
        _ => EventResponse::ReportUnknown,
    }
}

} // verus!

verus! {

/// The loop stops only when the window is closed or Q is pressed: every other
/// key that has a code is reported with that code and the time it went down,
/// a key without a code and any other event are reported as unknown, and a
/// report names exactly the key and time of the event.
pub proof fn only_quit_and_q_stop(event: InputEvent)
    ensures
        (response_to(event) is Stop) <==> (event is Quit || event == (InputEvent::KeyDown {
            keycode: Some(KEY_Q),
            timestamp: event->timestamp,
        })),
        forall|k: i32, t: u32|
            k != KEY_Q ==> #[trigger] response_to(InputEvent::KeyDown { keycode: Some(k), timestamp: t })
                == (EventResponse::ReportKey { keycode: k, timestamp: t }),
        forall|t: u32| #[trigger] response_to(InputEvent::KeyDown { keycode: None, timestamp: t })
            == EventResponse::ReportUnknown,
        response_to(InputEvent::Other) == EventResponse::ReportUnknown,
        response_to(event) is ReportKey ==> event == (InputEvent::KeyDown {
            keycode: Some(response_to(event)->ReportKey_keycode),
            timestamp: response_to(event)->ReportKey_timestamp,
        }),
{
}

} // verus!

use vstd::prelude::*;

verus! {

/// The `file://` URI under which the player opens the sound file at `path`.
pub fn file_uri(path: &str) -> (uri: String)
    ensures
        uri@ == "file://"@ + path@,
{
    let mut s = String::from_str("file://");
    s.append(path);
    s
}

/// The kinds of message that a playing sound posts on its bus.
#[derive(Debug, Clone, Copy, PartialEq, Eq, Structural)]
pub enum BusMessage {
    EndOfStream,
    Error,
    Other,
}

/// Whether a one-shot meow keeps playing after a bus message: it stops (and its
/// player is shut down) at the end of the stream or on an error.
pub fn keep_playing(msg: BusMessage) -> (keep: bool)
    ensures
        keep == (msg == BusMessage::Other),
{
    match msg {
        BusMessage::Other => true,
        _ => false,
    }
}

/// What the Purr menu entry does once the purr has (or has not) started.
#[derive(Debug, Clone, Copy, PartialEq, Eq, Structural)]
pub struct PurrPlan {
    /// Show the "UwU" dialog; the purr stops when it is answered.
    pub show_dialog: bool,
    /// Stop the purr at once.
    pub stop_now: bool,
}

/// How many times a purr is stopped under a plan: at once, or when the dialog
/// is answered.
pub open spec fn purr_stops(started: bool, plan: PurrPlan) -> nat {
    (if plan.stop_now {
        1nat
    } else {
        0nat
    }) + (if plan.show_dialog && started {
        1nat
    } else {
        0nat
    })
}

/// The purr plan: with the window still there, show the dialog and stop the
/// purr when it is answered; without it, stop a started purr at once.
pub open spec fn purr_plan_for(started: bool, window_alive: bool) -> PurrPlan {
    PurrPlan { show_dialog: window_alive, stop_now: started && !window_alive }
}

/// The purr plan for a purr that did or did not start, with or without the window.
pub fn purr_plan(started: bool, window_alive: bool) -> (plan: PurrPlan)
    ensures
        plan == purr_plan_for(started, window_alive),
{
    PurrPlan { show_dialog: window_alive, stop_now: started && !window_alive }
}

/// Whether answering the dialog stops a purr: exactly when one was started.
pub fn stop_when_answered(started: bool) -> (stop: bool)
    ensures
        stop == started,
{
    started
}

/// A purr that started is stopped exactly once, and one that did not start is
/// never stopped, whether or not the window is still there.
pub proof fn purr_stops_once(started: bool, window_alive: bool)
    ensures
        purr_stops(started, purr_plan_for(started, window_alive)) == (if started {
            1nat
        } else {
            0nat
        }),
{
}

/// The dialog is shown exactly when the window is still there, and a purr is
/// stopped at once exactly when it started and there is no window to ask.
pub proof fn purr_plan_follows_window(started: bool, window_alive: bool)
    ensures
        purr_plan_for(started, window_alive).show_dialog == window_alive,
        purr_plan_for(started, window_alive).stop_now == (started && !window_alive),
{
}

} // verus!

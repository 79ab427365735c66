//! The windowed presentation loop's decisions.
//!
//! After the single render pass, windowed mode re-presents the finished
//! buffer on a short interval and watches for a close signal.  The loop
//! itself is platform work; what each event makes it do is decided here.

use vstd::prelude::*;

verus! {

/// What the platform's event loop reports.
#[derive(Clone, Copy, Debug, PartialEq, Eq, Structural)]
pub enum PresentEvent {
    /// The window was asked to close.
    CloseRequested,
    /// The loop just started; nothing has been rendered yet.
    Started,
    /// The presentation interval elapsed, or anything else happened.
    Tick,
}

/// What the loop does with one event.
#[derive(Clone, Copy, Debug, PartialEq, Eq, Structural)]
pub enum PresentAction {
    /// Leave the loop without presenting again.
    Exit,
    /// Run the one render pass, then present the buffer.
    RenderThenPresent,
    /// Present the already-rendered buffer again.
    Present,
}

/// The single render pass happens on the first event; every later event
/// only re-presents, and a close request ends the loop.  No rendering
/// work happens after the first pass.
pub open spec fn present_step_spec(e: PresentEvent) -> PresentAction {
    match e {
        PresentEvent::CloseRequested => PresentAction::Exit,
        PresentEvent::Started => PresentAction::RenderThenPresent,
        PresentEvent::Tick => PresentAction::Present,
    }
}

/// Decide what one event of the presentation loop does.
pub fn present_step(e: PresentEvent) -> (a: PresentAction)
    ensures
        a == present_step_spec(e),
{
    match e {
        PresentEvent::CloseRequested => PresentAction::Exit,
        PresentEvent::Started => PresentAction::RenderThenPresent,
        PresentEvent::Tick => PresentAction::Present,
    }
}

} // verus!

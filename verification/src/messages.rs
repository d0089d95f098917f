use vstd::prelude::*;

use crate::geometry::Ellipse;

verus! {

/// Message identifier of the creation event, with the numeric value the
/// windowing system gives it.
pub const WM_CREATE: u32 = 0x0001;

/// Message identifier of the destruction event.
pub const WM_DESTROY: u32 = 0x0002;

/// Message identifier of the size-change event.
pub const WM_SIZE: u32 = 0x0005;

/// Message identifier of the paint event.
pub const WM_PAINT: u32 = 0x000F;

/// Outcome of the platform steps that build the render target, the brush and
/// the initial geometry for a paint event: the steps were not needed this
/// cycle, or they produced a target of the queried client-area size, or one
/// of them failed.
#[derive(Clone, Copy, PartialEq, Eq, Structural, Debug)]
pub enum CreationOutcome {
    NotAttempted,
    Created { width: u32, height: u32 },
    Failed,
}

/// Outcome of the platform step that resizes the render target to the newly
/// queried client-area size.
#[derive(Clone, Copy, PartialEq, Eq, Structural, Debug)]
pub enum ResizeOutcome {
    NotAttempted,
    Resized { width: u32, height: u32 },
    Failed,
}

/// The message-specific payload a window handler receives: the outcome of
/// the platform work the application performed for the event. It plays the
/// role of the message-dependent parameters of the original callback.
#[derive(Clone, Copy, PartialEq, Eq, Structural, Debug)]
pub enum EventData {
    FactoryResult { ok: bool },
    PaintContext { outcome: CreationOutcome },
    SizeContext { outcome: ResizeOutcome },
    NoData,
}

/// What the application must do after an event was handled.
#[derive(Clone, Copy, PartialEq, Eq, Structural, Debug)]
pub enum Effect {
    Nothing,
    Draw { ellipse: Ellipse },
    RequestRepaint,
    Quit,
}

/// The reply to one delivered message: either the handler produced a result
/// code and an effect, or the event is left to the platform's default
/// handler.
#[derive(Clone, Copy, PartialEq, Eq, Structural, Debug)]
pub enum MessageResult {
    Handled { code: i64, effect: Effect },
    RunDefault,
}

/// What the instance-less demo callback does with a message: signal quit
/// when the window is destroyed, fill the invalid rectangle when it must
/// paint, and leave everything else to the platform's default handler.
#[derive(Clone, Copy, PartialEq, Eq, Structural, Debug)]
pub enum PlainResponse {
    Quit,
    FillPaintRect,
    RunDefault,
}

/// The decision of the instance-less callback for each message.
pub open spec fn plain_response_for(message: u32) -> PlainResponse {
    if message == WM_DESTROY {
        PlainResponse::Quit
    } else if message == WM_PAINT {
        PlainResponse::FillPaintRect
    } else {
        PlainResponse::RunDefault
    }
}

/// Decides what the plain window callback, the one without per-instance
/// state, does for a delivered message.
pub fn wnd_proc_response(message: u32) -> (r: PlainResponse)
    ensures
        r == plain_response_for(message),
{
    if message == WM_DESTROY {
        PlainResponse::Quit
    } else if message == WM_PAINT {
        PlainResponse::FillPaintRect
    } else {
        PlainResponse::RunDefault
    }
}

} // verus!

use vstd::prelude::*;

use crate::base_window::BaseWindow;
use crate::geometry::{compute_layout, ellipse_for, min_u32, Ellipse};
use crate::messages::{
    CreationOutcome, Effect, EventData, MessageResult, ResizeOutcome, WM_CREATE, WM_DESTROY,
    WM_PAINT, WM_SIZE,
};

verus! {

/// The class identifier under which the circle window registers itself.
pub const CIRCLE_WINDOW_CLASS: u64 = 1;

/// The graphics bundle the paint handler needs: the render target (recorded
/// by its current size), the solid-color brush, and the circle geometry. The
/// bundle is built atomically, so a half-constructed set of resources is
/// never observable.
#[derive(Clone, Copy, PartialEq, Eq, Structural, Debug)]
pub struct RenderResources {
    pub width: u32,
    pub height: u32,
    pub ellipse: Ellipse,
}

/// The bundle built for one queried client-area size: a target of that size
/// and the circle inscribed in it.
pub open spec fn resources_for(width: u32, height: u32) -> RenderResources {
    RenderResources { width, height, ellipse: ellipse_for(width, height) }
}

/// One window's state: the handle of the platform window it is bound to,
/// whether the graphics factory has been acquired, and the lazily created
/// rendering resources.
pub struct MainWindow {
    pub hwnd: u64,
    pub has_factory: bool,
    pub resources: Option<RenderResources>,
}

impl MainWindow {
    /// Well-formedness: resources exist only after the factory was acquired,
    /// and when they exist the circle is the one computed for the target's
    /// size, so the geometry is always consistent with the current size.
    pub open spec fn wf(self) -> bool {
        self.resources matches Some(r) ==> {
            &&& self.has_factory
            &&& r.ellipse == ellipse_for(r.width, r.height)
        }
    }

    /// What the paint handler requires of the payload: resources can only
    /// have been created through the acquired factory.
    pub open spec fn paint_pre(self, outcome: CreationOutcome) -> bool {
        outcome is Created ==> self.has_factory
    }

    /// What the size handler requires of the payload: when a render target
    /// exists, the resize step must actually have been attempted.
    pub open spec fn size_pre(self, outcome: ResizeOutcome) -> bool {
        self.resources is Some ==> !(outcome is NotAttempted)
    }

    /// The transition of the lazy resource-creation step, and whether the
    /// step ended with a usable bundle.
    pub open spec fn spec_create_resources(self, outcome: CreationOutcome) -> (MainWindow, bool) {
        if self.resources is Some {
            (self, true)
        } else {
            match outcome {
                CreationOutcome::Created { width, height } => (
                    MainWindow { resources: Some(resources_for(width, height)), ..self },
                    true,
                ),
                _ => (self, false),
            }
        }
    }

    /// The transition of the size handler, and whether a repaint must be
    /// requested.
    pub open spec fn spec_resize(self, outcome: ResizeOutcome) -> (MainWindow, bool) {
        if self.resources is None {
            (self, false)
        } else {
            match outcome {
                ResizeOutcome::Resized { width, height } => (
                    MainWindow { resources: Some(resources_for(width, height)), ..self },
                    true,
                ),
                ResizeOutcome::Failed => (MainWindow { resources: None, ..self }, false),
                ResizeOutcome::NotAttempted => (self, false),
            }
        }
    }

    /// The transition of the paint handler, and the circle to draw, if any.
    pub open spec fn spec_on_paint(self, outcome: CreationOutcome) -> (MainWindow, Option<
        Ellipse,
    >) {
        let step = self.spec_create_resources(outcome);
        if step.1 {
            match step.0.resources {
                Some(r) => (step.0, Some(r.ellipse)),
                None => (step.0, None),
            }
        } else {
            (step.0, None)
        }
    }

    /// The transition of the whole message handler, and its reply.
    pub open spec fn spec_handle_message(self, window: u64, message: u32, data: EventData) -> (
        MainWindow,
        MessageResult,
    ) {
        if message == WM_CREATE {
            match data {
                EventData::FactoryResult { ok } => if ok {
                    (
                        MainWindow { has_factory: true, ..self },
                        MessageResult::Handled { code: 0, effect: Effect::Nothing },
                    )
                } else {
                    (self, MessageResult::Handled { code: -1i64, effect: Effect::Nothing })
                },
                _ => (self, MessageResult::RunDefault),
            }
        } else if message == WM_DESTROY {
            (self, MessageResult::Handled { code: 0, effect: Effect::Quit })
        } else if message == WM_PAINT {
            match data {
                EventData::PaintContext { outcome } => {
                    let step = self.spec_on_paint(outcome);
                    let effect = match step.1 {
                        Some(ellipse) => Effect::Draw { ellipse },
                        None => Effect::Nothing,
                    };
                    (step.0, MessageResult::Handled { code: 0, effect })
                },
                _ => (self, MessageResult::RunDefault),
            }
        } else if message == WM_SIZE {
            match data {
                EventData::SizeContext { outcome } => {
                    let step = self.spec_resize(outcome);
                    let effect = if step.1 {
                        Effect::RequestRepaint
                    } else {
                        Effect::Nothing
                    };
                    (step.0, MessageResult::Handled { code: 0, effect })
                },
                _ => (self, MessageResult::RunDefault),
            }
        } else {
            (self, MessageResult::RunDefault)
        }
    }

    /// Creates a window instance with no handle, no factory and no
    /// rendering resources.
    pub fn new() -> (w: MainWindow)
        ensures
            w.hwnd == 0,
            !w.has_factory,
            w.resources is None,
            w.wf(),
    {
        MainWindow { hwnd: 0, has_factory: false, resources: None }
    }

    /// Recomputes the circle from the render target's current size, as the
    /// demo does after the target is created or resized. Without a target
    /// there is no size to lay out against and nothing changes.
    pub fn calculate_layout(&mut self)
        ensures
            final(self).hwnd == old(self).hwnd,
            final(self).has_factory == old(self).has_factory,
            old(self).resources is None ==> *final(self) == *old(self),
            old(self).resources matches Some(r) ==> final(self).resources == Some(
                resources_for(r.width, r.height),
            ),
            old(self).wf() ==> final(self).wf(),
    {
        let current = self.resources;
        match current {
            Some(r) => {
                let ellipse = compute_layout(r.width, r.height);
                self.resources = Some(RenderResources { width: r.width, height: r.height, ellipse });
            },
            None => {},
        }
    }

    /// The lazy resource-creation step. When the bundle already exists the
    /// step succeeds without touching it; otherwise it installs the bundle
    /// built for the queried client-area size, or reports failure, in which
    /// case nothing changes and creation is retried on the next paint event.
    pub fn create_graphics_resources(&mut self, outcome: CreationOutcome) -> (ok: bool)
        requires
            old(self).wf(),
            old(self).paint_pre(outcome),
        ensures
            *final(self) == old(self).spec_create_resources(outcome).0,
            ok == old(self).spec_create_resources(outcome).1,
            final(self).wf(),
            old(self).resources is Some ==> *final(self) == *old(self) && ok,
            ok <==> final(self).resources is Some,
            final(self).hwnd == old(self).hwnd,
            final(self).has_factory == old(self).has_factory,
    {
        if self.resources.is_some() {
            true
        } else {
            match outcome {
                CreationOutcome::Created { width, height } => {
                    let ellipse = compute_layout(width, height);
                    self.resources = Some(RenderResources { width, height, ellipse });
                    true
                },
                _ => false,
            }
        }
    }

    /// The size handler. With no render target there is nothing to resize.
    /// When the platform resized the target to the newly queried client-area
    /// size, the recorded size and the circle follow it and a repaint is
    /// requested; when the resize failed, the whole bundle is torn down so a
    /// stale target can never be painted with, and the next paint event
    /// rebuilds it.
    pub fn resize(&mut self, outcome: ResizeOutcome) -> (repaint: bool)
        requires
            old(self).wf(),
            old(self).size_pre(outcome),
        ensures
            *final(self) == old(self).spec_resize(outcome).0,
            repaint == old(self).spec_resize(outcome).1,
            final(self).wf(),
            old(self).resources is None ==> *final(self) == *old(self) && !repaint,
            old(self).resources is Some ==> (outcome matches ResizeOutcome::Resized {
                width,
                height,
            } ==> final(self).resources == Some(resources_for(width, height)) && repaint),
            old(self).resources is Some && outcome is Failed
                ==> final(self).resources is None && !repaint,
            final(self).hwnd == old(self).hwnd,
            final(self).has_factory == old(self).has_factory,
    {
        if self.resources.is_some() {
            match outcome {
                ResizeOutcome::Resized { width, height } => {
                    let ellipse = compute_layout(width, height);
                    self.resources = Some(RenderResources { width, height, ellipse });
                    true
                },
                _ => {
                    self.resources = None;
                    false
                },
            }
        } else {
            false
        }
    }

    /// The paint handler: runs the lazy creation step, and when the full
    /// bundle exists returns the circle to draw. When creation failed the
    /// cycle draws nothing, the state is untouched, and the next paint event
    /// retries.
    pub fn on_paint(&mut self, outcome: CreationOutcome) -> (draw: Option<Ellipse>)
        requires
            old(self).wf(),
            old(self).paint_pre(outcome),
        ensures
            *final(self) == old(self).spec_on_paint(outcome).0,
            draw == old(self).spec_on_paint(outcome).1,
            final(self).wf(),
            draw is Some <==> final(self).resources is Some,
            final(self).resources matches Some(r) ==> draw == Some(r.ellipse),
            final(self).hwnd == old(self).hwnd,
            final(self).has_factory == old(self).has_factory,
    {
        let ok = self.create_graphics_resources(outcome);
        if ok {
            match self.resources {
                Some(r) => Some(r.ellipse),
                None => None,
            }
        } else {
            None
        }
    }
}

impl BaseWindow for MainWindow {
    open spec fn class_name_spec() -> u64 {
        CIRCLE_WINDOW_CLASS
    }

    open spec fn hwnd_spec(self) -> u64 {
        self.hwnd
    }

    open spec fn with_hwnd(self, hwnd: u64) -> MainWindow {
        MainWindow { hwnd, ..self }
    }

    open spec fn msg_pre(self, message: u32, data: EventData) -> bool {
        &&& self.wf()
        &&& message == WM_CREATE ==> data is FactoryResult
        &&& message == WM_PAINT ==> (data matches EventData::PaintContext { outcome }
            && self.paint_pre(outcome))
        &&& message == WM_SIZE ==> (data matches EventData::SizeContext { outcome }
            && self.size_pre(outcome))
    }

    open spec fn next(self, window: u64, message: u32, data: EventData) -> MainWindow {
        self.spec_handle_message(window, message, data).0
    }

    open spec fn response(self, window: u64, message: u32, data: EventData) -> MessageResult {
        self.spec_handle_message(window, message, data).1
    }

    fn get_class_name() -> (name: u64) {
        CIRCLE_WINDOW_CLASS
    }

    /// The event state machine of the window: acquire the factory on
    /// creation (failing creation with a negative code when the platform
    /// could not provide one), draw on paint, follow the client area on
    /// size changes, signal quit on destruction, and leave every other
    /// message to the platform's default handler.
    fn handle_message(&mut self, window: u64, message: u32, data: EventData) -> (r: MessageResult)
    {
        if message == WM_CREATE {
            match data {
                EventData::FactoryResult { ok } => {
                    if ok {
                        self.has_factory = true;
                        MessageResult::Handled { code: 0, effect: Effect::Nothing }
                    } else {
                        MessageResult::Handled { code: -1, effect: Effect::Nothing }
                    }
                },
                _ => MessageResult::RunDefault,
            }
        } else if message == WM_DESTROY {
            MessageResult::Handled { code: 0, effect: Effect::Quit }
        } else if message == WM_PAINT {
            match data {
                EventData::PaintContext { outcome } => {
                    let draw = self.on_paint(outcome);
                    match draw {
                        Some(ellipse) => MessageResult::Handled {
                            code: 0,
                            effect: Effect::Draw { ellipse },
                        },
                        None => MessageResult::Handled { code: 0, effect: Effect::Nothing },
                    }
                },
                _ => MessageResult::RunDefault,
            }
        } else if message == WM_SIZE {
            match data {
                EventData::SizeContext { outcome } => {
                    let repaint = self.resize(outcome);
                    let effect = if repaint {
                        Effect::RequestRepaint
                    } else {
                        Effect::Nothing
                    };
                    MessageResult::Handled { code: 0, effect }
                },
                _ => MessageResult::RunDefault,
            }
        } else {
            MessageResult::RunDefault
        }
    }

    fn set_hwnd(&mut self, hwnd: u64) {
        self.hwnd = hwnd;
    }

    fn get_hwnd(&self) -> (hwnd: u64) {
        self.hwnd
    }
}

/// Resource idempotence: running the lazy resource-creation step while the
/// bundle already exists reports success and leaves the window exactly as it
/// was, whatever the payload says.
pub proof fn lemma_resource_creation_idempotent(w: MainWindow, outcome: CreationOutcome)
    requires
        w.resources is Some,
    ensures
        w.spec_create_resources(outcome).0 == w,
        w.spec_create_resources(outcome).1,
{
}

/// Resize invariant: after a size event whose resize step succeeded, the
/// render target's recorded size is exactly the newly queried client-area
/// size, and the circle is recomputed for it: centered, with radius the
/// smaller half-dimension.
pub proof fn lemma_resize_tracks_client_area(w: MainWindow, width: u32, height: u32)
    requires
        w.resources is Some,
    ensures
        w.spec_resize(ResizeOutcome::Resized { width, height }).0.resources == Some(
            resources_for(width, height),
        ),
        w.spec_resize(ResizeOutcome::Resized { width, height }).1,
        resources_for(width, height).width == width,
        resources_for(width, height).height == height,
        resources_for(width, height).ellipse == ellipse_for(width, height),
        ellipse_for(width, height).radius == min_u32(width / 2, height / 2),
{
}

} // verus!

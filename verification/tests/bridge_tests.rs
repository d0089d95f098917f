use circle_window::bridge::Bridge;
use circle_window::geometry::Ellipse;
use circle_window::main_window::{MainWindow, CIRCLE_WINDOW_CLASS};
use circle_window::messages::{
    CreationOutcome, Effect, EventData, MessageResult, ResizeOutcome, WM_CREATE, WM_DESTROY,
    WM_PAINT, WM_SIZE,
};

const H1: u64 = 0x1001;
const H2: u64 = 0x2002;

#[test]
fn class_registers_once_then_fails() {
    let mut b = Bridge::<MainWindow>::new();
    assert!(b.register_class(CIRCLE_WINDOW_CLASS));
    // a second registration of the same class is rejected: fatal at startup
    assert!(!b.register_class(CIRCLE_WINDOW_CLASS));
    // another class identifier is independent
    assert!(b.register_class(CIRCLE_WINDOW_CLASS + 1));
}

#[test]
fn events_before_create_fall_through_and_mutate_nothing() {
    let mut b = Bridge::<MainWindow>::new();
    let r = b.dispatch(H1, WM_PAINT, EventData::PaintContext {
        outcome: CreationOutcome::NotAttempted,
    });
    assert_eq!(r, MessageResult::RunDefault);
    let r2 = b.dispatch(H1, WM_SIZE, EventData::SizeContext {
        outcome: ResizeOutcome::NotAttempted,
    });
    assert_eq!(r2, MessageResult::RunDefault);
    assert!(b.lookup(H1).is_none());
}

#[test]
fn create_without_staged_instance_falls_through() {
    let mut b = Bridge::<MainWindow>::new();
    let r = b.dispatch(H1, WM_CREATE, EventData::FactoryResult { ok: true });
    assert_eq!(r, MessageResult::RunDefault);
    assert!(b.lookup(H1).is_none());
}

#[test]
fn cancelled_creation_leaves_channel_empty() {
    let mut b = Bridge::<MainWindow>::new();
    b.begin_create(MainWindow::new());
    b.cancel_create();
    let r = b.dispatch(H1, WM_CREATE, EventData::FactoryResult { ok: true });
    assert_eq!(r, MessageResult::RunDefault);
    assert!(b.lookup(H1).is_none());
}

#[test]
fn create_associates_and_delivers_handle() {
    let mut b = Bridge::<MainWindow>::new();
    b.begin_create(MainWindow::new());
    let r = b.dispatch(H1, WM_CREATE, EventData::FactoryResult { ok: true });
    assert_eq!(r, MessageResult::Handled { code: 0, effect: Effect::Nothing });
    let inst = b.lookup(H1).expect("the creation event must associate the instance");
    assert_eq!(inst.hwnd, H1);
    assert!(inst.has_factory);
    assert!(inst.resources.is_none());
}

#[test]
fn events_after_create_resolve_to_the_created_instance() {
    let mut b = Bridge::<MainWindow>::new();
    b.begin_create(MainWindow::new());
    b.dispatch(H1, WM_CREATE, EventData::FactoryResult { ok: true });
    b.dispatch(H1, WM_PAINT, EventData::PaintContext {
        outcome: CreationOutcome::Created { width: 800, height: 600 },
    });
    // the state set by earlier events is observed by later ones: same instance
    let inst = b.lookup(H1).unwrap();
    assert_eq!(inst.hwnd, H1);
    assert_eq!(inst.resources.unwrap().width, 800);
    let r = b.dispatch(H1, WM_PAINT, EventData::PaintContext {
        outcome: CreationOutcome::NotAttempted,
    });
    let expected = Ellipse { center_x: 400, center_y: 300, radius: 300 };
    assert_eq!(r, MessageResult::Handled { code: 0, effect: Effect::Draw { ellipse: expected } });
}

#[test]
fn two_windows_are_dispatched_independently() {
    let mut b = Bridge::<MainWindow>::new();
    b.begin_create(MainWindow::new());
    b.dispatch(H1, WM_CREATE, EventData::FactoryResult { ok: true });
    b.begin_create(MainWindow::new());
    b.dispatch(H2, WM_CREATE, EventData::FactoryResult { ok: true });
    b.dispatch(H1, WM_PAINT, EventData::PaintContext {
        outcome: CreationOutcome::Created { width: 800, height: 600 },
    });
    b.dispatch(H2, WM_PAINT, EventData::PaintContext {
        outcome: CreationOutcome::Created { width: 100, height: 50 },
    });
    assert_eq!(b.lookup(H1).unwrap().resources.unwrap().width, 800);
    assert_eq!(b.lookup(H2).unwrap().resources.unwrap().width, 100);
    b.dispatch(H1, WM_DESTROY, EventData::NoData);
    assert!(b.lookup(H1).is_none());
    // destroying one window leaves the other association untouched
    assert_eq!(b.lookup(H2).unwrap().hwnd, H2);
}

#[test]
fn full_window_lifetime_scenario() {
    let mut b = Bridge::<MainWindow>::new();
    assert!(b.register_class(CIRCLE_WINDOW_CLASS));

    // CREATE: instance staged at creation, then associated with the handle
    b.begin_create(MainWindow::new());
    let created = b.dispatch(H1, WM_CREATE, EventData::FactoryResult { ok: true });
    assert_eq!(created, MessageResult::Handled { code: 0, effect: Effect::Nothing });
    assert!(b.lookup(H1).is_some());

    // PAINT: resources built for the 800x600 client area, circle of radius 300
    let painted = b.dispatch(H1, WM_PAINT, EventData::PaintContext {
        outcome: CreationOutcome::Created { width: 800, height: 600 },
    });
    assert_eq!(
        painted,
        MessageResult::Handled {
            code: 0,
            effect: Effect::Draw {
                ellipse: Ellipse { center_x: 400, center_y: 300, radius: 300 },
            },
        }
    );

    // SIZE: target resized to 400x300, radius recomputed to 150
    let resized = b.dispatch(H1, WM_SIZE, EventData::SizeContext {
        outcome: ResizeOutcome::Resized { width: 400, height: 300 },
    });
    assert_eq!(resized, MessageResult::Handled { code: 0, effect: Effect::RequestRepaint });
    let inst = b.lookup(H1).unwrap();
    assert_eq!(inst.resources.unwrap().width, 400);
    assert_eq!(inst.resources.unwrap().height, 300);
    assert_eq!(inst.resources.unwrap().ellipse.radius, 150);

    // DESTROY: quit signalled, association removed
    let destroyed = b.dispatch(H1, WM_DESTROY, EventData::NoData);
    assert_eq!(destroyed, MessageResult::Handled { code: 0, effect: Effect::Quit });
    assert!(b.lookup(H1).is_none());
    let after = b.dispatch(H1, WM_PAINT, EventData::PaintContext {
        outcome: CreationOutcome::NotAttempted,
    });
    assert_eq!(after, MessageResult::RunDefault);
}

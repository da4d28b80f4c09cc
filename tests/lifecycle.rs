use glutin_android::context::{
    Context, ContextError, CreationError, PlatformSpecificWindowBuilderAttributes, SurfaceAction,
};
use glutin_android::headless::{HeadlessContext, PlatformSpecificHeadlessBuilderAttributes};
use glutin_android::registry::{ContextArena, Dispatched, Event, Registry, WindowId, WindowProxy};
use std::cell::Cell;

fn active(handle: u64) -> Context {
    let attrs = PlatformSpecificWindowBuilderAttributes::default();
    Context::new(0x1000, None, |_, _| Ok(handle), &attrs).unwrap()
}

fn setup(window: u64, handle: u64) -> (Registry, ContextArena, usize) {
    let mut arena = ContextArena::new();
    let key = arena.insert(active(handle));
    let mut reg = Registry::new();
    reg.register(WindowId(window), key);
    (reg, arena, key)
}

#[test]
fn new_context_is_active() {
    let c = active(9);
    assert!(!c.is_stopped());
    assert_eq!(c.handle(), 9);
}

#[test]
fn null_native_window_is_platform_error() {
    let called = Cell::new(false);
    let attrs = PlatformSpecificWindowBuilderAttributes;
    let r = Context::new(
        0,
        None,
        |_, _| {
            called.set(true);
            Ok(1)
        },
        &attrs,
    );
    assert_eq!(r.err(), Some(CreationError::PlatformError));
    assert!(!called.get());
}

#[test]
fn creation_failure_is_passed_on() {
    let attrs = PlatformSpecificWindowBuilderAttributes;
    let r = Context::new(0x20, None, |_, _| Err(CreationError::NoAvailablePixelFormat), &attrs);
    assert_eq!(r.err(), Some(CreationError::NoAvailablePixelFormat));
    let r = Context::new(0x20, None, |_, _| Err(CreationError::OpenGlVersionNotSupported), &attrs);
    assert_eq!(r.err(), Some(CreationError::OpenGlVersionNotSupported));
}

#[test]
fn creation_hands_window_and_sharing_handle_to_primitive() {
    let attrs = PlatformSpecificWindowBuilderAttributes;
    let first = active(41);
    let seen = Cell::new((0usize, None));
    let second = Context::new(
        0x77,
        Some(&first),
        |w, s| {
            seen.set((w, s));
            Ok(42)
        },
        &attrs,
    )
    .unwrap();
    assert_eq!(seen.get(), (0x77, Some(41)));
    assert_eq!(second.handle(), 42);
}

#[test]
fn suspended_context_refuses_rendering() {
    let mut c = active(1);
    assert_eq!(c.on_suspend(), SurfaceAction::ReleaseSurface);
    let touched = Cell::new(0u32);
    let r = c.make_current(|| {
        touched.set(touched.get() + 1);
        Ok(())
    });
    assert_eq!(r, Err(ContextError::ContextLost));
    let r = c.swap_buffers(|| {
        touched.set(touched.get() + 1);
        Ok(())
    });
    assert_eq!(r, Err(ContextError::ContextLost));
    assert!(!c.is_current(|| {
        touched.set(touched.get() + 1);
        true
    }));
    assert_eq!(touched.get(), 0);
}

#[test]
fn active_context_delegates_rendering() {
    let c = active(1);
    assert_eq!(c.make_current(|| Ok(())), Ok(()));
    assert_eq!(c.swap_buffers(|| Ok(())), Ok(()));
    assert!(c.is_current(|| true));
    assert!(!c.is_current(|| false));
    assert_eq!(c.make_current(|| Err(ContextError::IoError)), Err(ContextError::IoError));
    assert_eq!(c.swap_buffers(|| Err(ContextError::ContextLost)), Err(ContextError::ContextLost));
}

#[test]
fn repeated_suspend_is_single_suspend() {
    let mut c = active(3);
    assert_eq!(c.on_suspend(), SurfaceAction::ReleaseSurface);
    for _ in 0..5 {
        assert_eq!(c.on_suspend(), SurfaceAction::Keep);
        assert!(c.is_stopped());
        assert_eq!(c.handle(), 3);
    }
}

#[test]
fn repeated_resume_is_single_resume() {
    let mut c = active(3);
    assert_eq!(c.on_resume(), SurfaceAction::Keep);
    c.on_suspend();
    assert_eq!(c.on_resume(), SurfaceAction::RebindSurface);
    for _ in 0..5 {
        assert_eq!(c.on_resume(), SurfaceAction::Keep);
        assert!(!c.is_stopped());
    }
}

#[test]
fn set_suspended_follows_target_value() {
    let mut c = active(3);
    assert_eq!(c.set_suspended(false), SurfaceAction::Keep);
    assert_eq!(c.set_suspended(true), SurfaceAction::ReleaseSurface);
    assert_eq!(c.set_suspended(true), SurfaceAction::Keep);
    assert_eq!(c.set_suspended(false), SurfaceAction::RebindSurface);
}

#[test]
fn suspend_resume_round_trip_through_dispatch() {
    let (reg, mut arena, key) = setup(1, 10);
    let ev = Event::Suspended(WindowId(1), true);
    let d = reg.dispatch(&mut arena, ev);
    assert_eq!(d, Dispatched { event: ev, target: Some(key), action: SurfaceAction::ReleaseSurface });
    let c = arena.get(key).unwrap();
    assert!(!c.is_current(|| true));
    assert_eq!(c.make_current(|| Ok(())), Err(ContextError::ContextLost));
    let ev = Event::Suspended(WindowId(1), false);
    let d = reg.dispatch(&mut arena, ev);
    assert_eq!(d, Dispatched { event: ev, target: Some(key), action: SurfaceAction::RebindSurface });
    let c = arena.get(key).unwrap();
    assert_eq!(c.make_current(|| Ok(())), Ok(()));
}

#[test]
fn unregistered_window_notification_is_dropped() {
    let (reg, mut arena, key) = setup(1, 10);
    let ev = Event::Suspended(WindowId(2), true);
    let d = reg.dispatch(&mut arena, ev);
    assert_eq!(d, Dispatched { event: ev, target: None, action: SurfaceAction::Keep });
    assert!(!arena.get(key).unwrap().is_stopped());
}

#[test]
fn destroyed_context_notification_is_dropped() {
    let (reg, mut arena, key) = setup(1, 10);
    let gone = arena.destroy(key).unwrap();
    assert_eq!(gone.handle(), 10);
    assert_eq!(reg.resolve(&arena, WindowId(1)), None);
    let ev = Event::Suspended(WindowId(1), true);
    let d = reg.dispatch(&mut arena, ev);
    assert_eq!(d, Dispatched { event: ev, target: None, action: SurfaceAction::Keep });
    assert!(arena.get(key).is_none());
    assert!(arena.destroy(key).is_none());
}

#[test]
fn other_events_pass_through() {
    let (reg, mut arena, key) = setup(1, 10);
    let ev = Event::Other(77);
    let d = reg.dispatch(&mut arena, ev);
    assert_eq!(d, Dispatched { event: ev, target: None, action: SurfaceAction::Keep });
    assert!(!arena.get(key).unwrap().is_stopped());
}

#[test]
fn second_registration_replaces_first() {
    let mut arena = ContextArena::new();
    let first = arena.insert(active(1));
    let second = arena.insert(active(2));
    let mut reg = Registry::new();
    reg.register(WindowId(5), first);
    reg.register(WindowId(5), second);
    assert_eq!(reg.resolve(&arena, WindowId(5)), Some(second));
    let d = reg.dispatch(&mut arena, Event::Suspended(WindowId(5), true));
    assert_eq!(d.target, Some(second));
    assert!(arena.get(second).unwrap().is_stopped());
    assert!(!arena.get(first).unwrap().is_stopped());
}

#[test]
fn unregister_forgets_window() {
    let (mut reg, mut arena, key) = setup(1, 10);
    reg.unregister(WindowId(1));
    assert_eq!(reg.resolve(&arena, WindowId(1)), None);
    reg.dispatch(&mut arena, Event::Suspended(WindowId(1), true));
    assert!(!arena.get(key).unwrap().is_stopped());
}

#[test]
fn out_of_range_key_does_not_resolve() {
    let mut arena = ContextArena::new();
    let mut reg = Registry::new();
    reg.register(WindowId(1), 3);
    assert_eq!(reg.resolve(&arena, WindowId(1)), None);
    assert!(arena.get(3).is_none());
    assert_eq!(arena.len(), 0);
    let d = reg.dispatch(&mut arena, Event::Suspended(WindowId(1), true));
    assert_eq!(d.target, None);
}

#[test]
fn dispatch_all_applies_events_in_order() {
    let mut arena = ContextArena::new();
    let a = arena.insert(active(1));
    let b = arena.insert(active(2));
    let mut reg = Registry::new();
    reg.register(WindowId(1), a);
    reg.register(WindowId(2), b);
    let events = vec![
        Event::Suspended(WindowId(1), true),
        Event::Other(4),
        Event::Suspended(WindowId(1), true),
        Event::Suspended(WindowId(3), true),
        Event::Suspended(WindowId(2), false),
        Event::Suspended(WindowId(1), false),
    ];
    let out = reg.dispatch_all(&mut arena, &events);
    let actions: Vec<SurfaceAction> = out.iter().map(|d| d.action).collect();
    assert_eq!(
        actions,
        vec![
            SurfaceAction::ReleaseSurface,
            SurfaceAction::Keep,
            SurfaceAction::Keep,
            SurfaceAction::Keep,
            SurfaceAction::Keep,
            SurfaceAction::RebindSurface,
        ]
    );
    let targets: Vec<Option<usize>> = out.iter().map(|d| d.target).collect();
    assert_eq!(targets, vec![Some(a), None, Some(a), None, Some(b), Some(a)]);
    let forwarded: Vec<Event> = out.iter().map(|d| d.event).collect();
    assert_eq!(forwarded, events);
    assert!(!arena.get(a).unwrap().is_stopped());
    assert!(!arena.get(b).unwrap().is_stopped());
}

#[test]
fn dispatch_all_of_nothing() {
    let (reg, mut arena, _) = setup(1, 10);
    let out = reg.dispatch_all(&mut arena, &Vec::new());
    assert!(out.is_empty());
}

#[test]
fn headless_context_is_always_active() {
    let attrs = PlatformSpecificHeadlessBuilderAttributes::default();
    let seen = Cell::new(((0u32, 0u32), None));
    let h = HeadlessContext::new(
        (640, 480),
        None,
        |d, s| {
            seen.set((d, s));
            Ok(8)
        },
        &attrs,
    )
    .unwrap();
    assert_eq!(seen.get(), ((640, 480), None));
    assert_eq!(h.handle(), 8);
    assert_eq!(h.make_current(|| Ok(())), Ok(()));
    assert_eq!(h.swap_buffers(|| Err(ContextError::IoError)), Err(ContextError::IoError));
    assert!(h.is_current(|| true));
    let shared = HeadlessContext::new((1, 1), Some(&h), |_, s| Ok(s.unwrap() + 1), &attrs).unwrap();
    assert_eq!(shared.handle(), 9);
    let r = HeadlessContext::new((1, 1), None, |_, _| Err(CreationError::OsError), &attrs);
    assert_eq!(r.err(), Some(CreationError::OsError));
}

#[test]
fn window_proxy_is_plain_value() {
    let p = WindowProxy::default();
    assert_eq!(p, WindowProxy);
}

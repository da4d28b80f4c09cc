//! Routes suspend/resume notifications to the context of the affected window.
//!
//! Contexts live in a [`ContextArena`], which owns them; a [`Registry`] maps
//! window ids to arena keys and owns nothing. A key resolves only while its
//! slot still holds a context, so a notification for a window whose context
//! was destroyed finds nothing and is dropped.
use vstd::prelude::*;
use crate::context::{
    transition_action, transition_state, Context, ContextView, SurfaceAction,
};
use std::collections::HashMap;

verus! {

broadcast use vstd::std_specs::hash::group_hash_axioms;

/// Identifies a native window for the lifetime of that window.
#[derive(Clone, Copy, Debug, PartialEq, Eq, Hash, Structural)]
pub struct WindowId(pub u64);

/// A handle that other threads use to wake the event loop.
#[derive(Clone, Copy, Debug, Default, PartialEq, Eq, Structural)]
pub struct WindowProxy;

/// An event of the windowing layer, as far as this library reads it.
#[derive(Clone, Copy, Debug, PartialEq, Eq, Structural)]
pub enum Event {
    /// The native surface of `window` was taken away (`true`) or given back.
    Suspended(WindowId, bool),
    /// Any other event, carried through with an opaque tag.
    Other(u64),
}

/// An event after dispatch: the event itself, unchanged, the arena key of
/// the context it reached, if any, and what that context's surface needs.
#[derive(Clone, Copy, Debug, PartialEq, Eq, Structural)]
pub struct Dispatched {
    pub event: Event,
    pub target: Option<usize>,
    pub action: SurfaceAction,
}

/// The view of one arena slot.
pub open spec fn slot_view(slot: Option<Context>) -> Option<ContextView> {
    match slot {
        Some(c) => Some(c@),
        None => None,
    }
}

/// The key that `window` resolves to: registered, and its context alive.
pub open spec fn resolve_key(reg: Map<u64, usize>, arena: Seq<Option<ContextView>>, window: u64) -> Option<usize> {
    if reg.contains_key(window) && reg[window] < arena.len() && arena[reg[window] as int] is Some {
        Some(reg[window])
    } else {
        None
    }
}

/// The context that `event` reaches, if any.
pub open spec fn dispatch_target(reg: Map<u64, usize>, arena: Seq<Option<ContextView>>, event: Event) -> Option<usize> {
    match event {
        Event::Suspended(w, _) => resolve_key(reg, arena, w.0),
        Event::Other(_) => None,
    }
}

/// The arena after `event` is dispatched.
pub open spec fn dispatch_arena(reg: Map<u64, usize>, arena: Seq<Option<ContextView>>, event: Event) -> Seq<Option<ContextView>> {
    match (event, dispatch_target(reg, arena, event)) {
        (Event::Suspended(_, s), Some(k)) => arena.update(k as int, Some(transition_state(arena[k as int]->Some_0, s))),
        _ => arena,
    }
}

/// What the surface needs after `event` is dispatched.
pub open spec fn dispatch_action(reg: Map<u64, usize>, arena: Seq<Option<ContextView>>, event: Event) -> SurfaceAction {
    match (event, dispatch_target(reg, arena, event)) {
        (Event::Suspended(_, s), Some(k)) => transition_action(arena[k as int]->Some_0, s),
        _ => SurfaceAction::Keep,
    }
}

/// The arena after each of `events` is dispatched in turn.
pub open spec fn dispatch_all_arena(reg: Map<u64, usize>, arena: Seq<Option<ContextView>>, events: Seq<Event>) -> Seq<Option<ContextView>>
    decreases events.len(),
{
    if events.len() == 0 {
        arena
    } else {
        dispatch_arena(reg, dispatch_all_arena(reg, arena, events.drop_last()), events.last())
    }
}

/// Owns the contexts; a key names a slot, which is never reused.
pub struct ContextArena {
    slots: Vec<Option<Context>>,
}

impl View for ContextArena {
    type V = Seq<Option<ContextView>>;

    closed spec fn view(&self) -> Seq<Option<ContextView>> {
        self.slots@.map_values(|s: Option<Context>| slot_view(s))
    }
}

impl ContextArena {
    /// An arena that holds nothing.
    pub fn new() -> (r: ContextArena)
        ensures
            r@ == Seq::<Option<ContextView>>::empty(),
    {
        let r = ContextArena { slots: Vec::new() };
        assert(r@ =~= Seq::<Option<ContextView>>::empty());
        r
    }

    /// The number of slots handed out so far.
    pub fn len(&self) -> (r: usize)
        ensures
            r == self@.len(),
    {
        self.slots.len()
    }

    /// Takes ownership of `context` and returns its key.
    pub fn insert(&mut self, context: Context) -> (r: usize)
        requires
            old(self)@.len() < usize::MAX,
        ensures
            r == old(self)@.len(),
            final(self)@ == old(self)@.push(Some(context@)),
    {
        let r = self.slots.len();
        self.slots.push(Some(context));
        assert(self@ =~= old(self)@.push(Some(context@)));
        r
    }

    /// The context under `key`, if it is still alive.
    pub fn get(&self, key: usize) -> (r: Option<&Context>)
        ensures
            match r {
                Some(c) => key < self@.len() && self@[key as int] == Some(c@),
                None => key >= self@.len() || self@[key as int] is None,
            },
    {
        if key < self.slots.len() {
            match &self.slots[key] {
                Some(c) => Some(c),
                None => None,
            }
        } else {
            None
        }
    }

    /// Destroys the context under `key` and hands it back so that its native
    /// resources can be released; every id registered to `key` stops
    /// resolving.
    pub fn destroy(&mut self, key: usize) -> (r: Option<Context>)
        ensures
            match r {
                Some(c) => key < old(self)@.len() && old(self)@[key as int] == Some(c@)
                    && final(self)@ == old(self)@.update(key as int, None),
                None => (key >= old(self)@.len() || old(self)@[key as int] is None)
                    && final(self)@ == old(self)@,
            },
    {
        if key < self.slots.len() {
            let r = self.slots[key].take();
            proof {
                assert(self@ =~= old(self)@.update(key as int, None));
            }
            assert(slot_view(r) == old(self)@[key as int]);
            if r.is_none() {
                assert(self@ =~= old(self)@);
            }
            r
        } else {
            None
        }
    }

    /// Applies a notification whose target value is `suspended` to the live
    /// context under `key`.
    fn transition(&mut self, key: usize, suspended: bool) -> (r: SurfaceAction)
        requires
            key < old(self)@.len(),
            old(self)@[key as int] is Some,
        ensures
            final(self)@ == old(self)@.update(key as int, Some(transition_state(old(self)@[key as int]->Some_0, suspended))),
            r == transition_action(old(self)@[key as int]->Some_0, suspended),
    {
        let taken = self.slots[key].take();
        match taken {
            Some(mut c) => {
                let r = c.set_suspended(suspended);
                self.slots.set(key, Some(c));
                assert(self@ =~= old(self)@.update(key as int, Some(transition_state(old(self)@[key as int]->Some_0, suspended))));
                r
            },
            None => {
                assert(false);
                SurfaceAction::Keep
            },
        }
    }
}

/// Maps window ids to arena keys; owns no context.
pub struct Registry {
    entries: HashMap<u64, usize>,
}

impl View for Registry {
    type V = Map<u64, usize>;

    closed spec fn view(&self) -> Map<u64, usize> {
        self.entries@
    }
}

impl Registry {
    /// A registry that knows no window.
    pub fn new() -> (r: Registry)
        ensures
            r@ == Map::<u64, usize>::empty(),
    {
        Registry { entries: HashMap::new() }
    }

    /// Maps `window` to `key`, replacing what it was mapped to before.
    pub fn register(&mut self, window: WindowId, key: usize)
        ensures
            final(self)@ == old(self)@.insert(window.0, key),
    {
        self.entries.insert(window.0, key);
    }

    /// Forgets `window`.
    pub fn unregister(&mut self, window: WindowId)
        ensures
            final(self)@ == old(self)@.remove(window.0),
    {
        self.entries.remove(&window.0);
    }

    /// The key of the live context registered for `window`, if any.
    pub fn resolve(&self, arena: &ContextArena, window: WindowId) -> (r: Option<usize>)
        ensures
            r == resolve_key(self@, arena@, window.0),
    {
        match self.entries.get(&window.0) {
            Some(k) => {
                let k = *k;
                match arena.get(k) {
                    Some(_) => Some(k),
                    None => None,
                }
            },
            None => None,
        }
    }

    /// Looks at `event`; a suspend/resume notification for a window whose
    /// context is alive drives that context's transition. The event itself
    /// is handed back unchanged, whatever it was.
    pub fn dispatch(&self, arena: &mut ContextArena, event: Event) -> (r: Dispatched)
        ensures
            r.event == event,
            r.target == dispatch_target(self@, old(arena)@, event),
            r.action == dispatch_action(self@, old(arena)@, event),
            final(arena)@ == dispatch_arena(self@, old(arena)@, event),
    {
        match event {
            Event::Suspended(window, suspended) => {
                match self.resolve(arena, window) {
                    Some(k) => {
                        let action = arena.transition(k, suspended);
                        Dispatched { event, target: Some(k), action }
                    },
                    None => Dispatched { event, target: None, action: SurfaceAction::Keep },
                }
            },
            Event::Other(_) => Dispatched { event, target: None, action: SurfaceAction::Keep },
        }
    }

    /// Dispatches each of `events` in order, as draining the queue of pending
    /// events does, and returns them with what each one did.
    pub fn dispatch_all(&self, arena: &mut ContextArena, events: &Vec<Event>) -> (r: Vec<Dispatched>)
        ensures
            r@.len() == events@.len(),
            final(arena)@ == dispatch_all_arena(self@, old(arena)@, events@),
            forall|i: int|
                0 <= i < events@.len() ==> r@[i] == (Dispatched {
                    event: events@[i],
                    target: dispatch_target(self@, dispatch_all_arena(self@, old(arena)@, events@.take(i)), events@[i]),
                    action: dispatch_action(self@, dispatch_all_arena(self@, old(arena)@, events@.take(i)), events@[i]),
                }),
    {
        let mut out: Vec<Dispatched> = Vec::new();
        let mut i: usize = 0;
        assert(events@.take(0) =~= Seq::<Event>::empty());
        while i < events.len()
            invariant
                i <= events@.len(),
                out@.len() == i,
                arena@ == dispatch_all_arena(self@, old(arena)@, events@.take(i as int)),
                forall|j: int|
                    0 <= j < i ==> out@[j] == (Dispatched {
                        event: events@[j],
                        target: dispatch_target(self@, dispatch_all_arena(self@, old(arena)@, events@.take(j)), events@[j]),
                        action: dispatch_action(self@, dispatch_all_arena(self@, old(arena)@, events@.take(j)), events@[j]),
                    }),
            decreases events@.len() - i,
        {
            let d = self.dispatch(arena, events[i]);
            out.push(d);
            assert(events@.take(i + 1).drop_last() =~= events@.take(i as int));
            assert(events@.take(i + 1).last() == events@[i as int]);
            i = i + 1;
        }
        assert(events@.take(events@.len() as int) =~= events@);
        out
    }
}

/// A suspend/resume notification for a window that resolves to no live
/// context (never registered, or its context destroyed) changes no context,
/// reaches none and asks nothing of any surface; `dispatch` still hands the
/// event back.
pub proof fn lemma_unresolved_notification_dropped(
    reg: Map<u64, usize>,
    arena: Seq<Option<ContextView>>,
    window: WindowId,
    suspended: bool,
)
    requires
        resolve_key(reg, arena, window.0) is None,
    ensures
        dispatch_arena(reg, arena, Event::Suspended(window, suspended)) == arena,
        dispatch_target(reg, arena, Event::Suspended(window, suspended)) is None,
        dispatch_action(reg, arena, Event::Suspended(window, suspended)) == SurfaceAction::Keep,
{
}

/// Once the context under a window's key is destroyed, the window resolves
/// to nothing.
pub proof fn lemma_destroyed_context_unresolvable(
    reg: Map<u64, usize>,
    arena: Seq<Option<ContextView>>,
    window: WindowId,
)
    requires
        reg.contains_key(window.0),
        reg[window.0] < arena.len(),
    ensures
        resolve_key(reg, arena.update(reg[window.0] as int, None), window.0) is None,
{
}

/// After two keys are registered in turn under one window id, only the
/// second is reached through that id, and a notification for it changes no
/// slot but the second one.
pub proof fn lemma_register_replaces(
    reg: Map<u64, usize>,
    arena: Seq<Option<ContextView>>,
    window: WindowId,
    first: usize,
    second: usize,
    suspended: bool,
)
    requires
        second < arena.len(),
        arena[second as int] is Some,
    ensures
        resolve_key(reg.insert(window.0, first).insert(window.0, second), arena, window.0) == Some(second),
        dispatch_target(reg.insert(window.0, first).insert(window.0, second), arena, Event::Suspended(window, suspended))
            == Some(second),
        forall|i: int|
            0 <= i < arena.len() && i != second ==> dispatch_arena(
                reg.insert(window.0, first).insert(window.0, second),
                arena,
                Event::Suspended(window, suspended),
            )[i] == arena[i],
{
}

} // verus!

use vstd::prelude::*;

use std::collections::HashMap;

use crate::base_window::BaseWindow;
use crate::messages::{EventData, MessageResult, WM_CREATE, WM_DESTROY};

verus! {

broadcast use vstd::std_specs::hash::group_hash_axioms;

/// The mathematical state of the bridge: the association from live window
/// handles to their instances, and the creation-parameters channel that
/// carries an instance from its creation call to its creation event.
pub struct BridgeModel<T> {
    pub assoc: Map<u64, T>,
    pub pending: Option<T>,
}

/// One event as the platform delivers it: the target window's handle, the
/// message, and the payload gathered for it.
pub struct EventRec {
    pub handle: u64,
    pub message: u32,
    pub data: EventData,
}

/// The transition of the bridge for one delivered event. A creation event
/// consumes the staged instance, delivers the handle to it, lets it handle
/// the event, and associates the handle with it; any other event evolves the
/// associated instance, the destruction event additionally dropping the
/// association. An event that resolves no instance changes nothing.
pub open spec fn step<T: BaseWindow>(
    m: BridgeModel<T>,
    handle: u64,
    message: u32,
    data: EventData,
) -> BridgeModel<T> {
    if message == WM_CREATE {
        match m.pending {
            Some(p) => BridgeModel {
                assoc: m.assoc.insert(handle, p.with_hwnd(handle).next(handle, message, data)),
                pending: None,
            },
            None => m,
        }
    } else if m.assoc.dom().contains(handle) {
        if message == WM_DESTROY {
            BridgeModel { assoc: m.assoc.remove(handle), pending: m.pending }
        } else {
            BridgeModel {
                assoc: m.assoc.insert(handle, m.assoc[handle].next(handle, message, data)),
                pending: m.pending,
            }
        }
    } else {
        m
    }
}

/// The reply of the bridge for one delivered event: the reply of the
/// instance the event resolves to, or a fall-through to the platform's
/// default handler when none does.
pub open spec fn step_result<T: BaseWindow>(
    m: BridgeModel<T>,
    handle: u64,
    message: u32,
    data: EventData,
) -> MessageResult {
    if message == WM_CREATE {
        match m.pending {
            Some(p) => p.with_hwnd(handle).response(handle, message, data),
            None => MessageResult::RunDefault,
        }
    } else if m.assoc.dom().contains(handle) {
        m.assoc[handle].response(handle, message, data)
    } else {
        MessageResult::RunDefault
    }
}

/// The bridge state after a sequence of delivered events.
pub open spec fn run<T: BaseWindow>(m: BridgeModel<T>, events: Seq<EventRec>) -> BridgeModel<T>
    decreases events.len(),
{
    if events.len() == 0 {
        m
    } else {
        let e = events.last();
        step(run(m, events.drop_last()), e.handle, e.message, e.data)
    }
}

/// An instance after it has handled, in delivery order, the events of a
/// sequence that are addressed to its handle.
pub open spec fn evolve<T: BaseWindow>(inst: T, handle: u64, events: Seq<EventRec>) -> T
    decreases events.len(),
{
    if events.len() == 0 {
        inst
    } else {
        let prev = evolve(inst, handle, events.drop_last());
        let e = events.last();
        if e.handle == handle {
            prev.next(e.handle, e.message, e.data)
        } else {
            prev
        }
    }
}

/// The instance-dispatch bridge: it routes the fixed-signature window
/// callback to per-instance handlers. It owns the handle-to-instance
/// association that the platform's per-window slot held in the original
/// pattern, the creation-parameters channel, and the record of registered
/// window classes.
pub struct Bridge<T: BaseWindow> {
    assoc: HashMap<u64, T>,
    pending: Option<T>,
    classes: Vec<u64>,
}

impl<T: BaseWindow> Bridge<T> {
    /// The association and the channel, as one mathematical state.
    pub closed spec fn model(self) -> BridgeModel<T> {
        BridgeModel { assoc: self.assoc@, pending: self.pending }
    }

    /// The identifiers of the window classes registered so far.
    pub closed spec fn classes_spec(self) -> Seq<u64> {
        self.classes@
    }

    /// Whether a window class identifier has already been registered.
    pub open spec fn is_registered(self, class_name: u64) -> bool {
        self.classes_spec().contains(class_name)
    }

    /// Whether a handle is associated with an instance.
    pub open spec fn has_assoc(self, handle: u64) -> bool {
        self.model().assoc.dom().contains(handle)
    }

    /// Creates a bridge with no associations, nothing staged for creation,
    /// and no registered classes.
    pub fn new() -> (b: Bridge<T>)
        ensures
            b.model().assoc == Map::<u64, T>::empty(),
            b.model().pending is None,
            b.classes_spec() == Seq::<u64>::empty(),
    {
        Bridge { assoc: HashMap::new(), pending: None, classes: Vec::new() }
    }

    /// Registers a window class. A class identifier can be registered only
    /// once per process; a second registration of the same identifier
    /// reports failure, which a caller must treat as fatal at startup.
    pub fn register_class(&mut self, class_name: u64) -> (ok: bool)
        ensures
            ok <==> !old(self).is_registered(class_name),
            final(self).is_registered(class_name),
            ok ==> final(self).classes_spec() == old(self).classes_spec().push(class_name),
            !ok ==> final(self).classes_spec() == old(self).classes_spec(),
            final(self).model() == old(self).model(),
    {
        let mut i: usize = 0;
        while i < self.classes.len()
            invariant
                i <= self.classes.len(),
                forall|j: int| 0 <= j < i ==> self.classes@[j] != class_name,
                *self == *old(self),
            decreases self.classes.len() - i,
        {
            if self.classes[i] == class_name {
                proof {
                    assert(self.classes_spec()[i as int] == class_name);
                }
                return false;
            }
            i += 1;
        }
        proof {
            assert(!old(self).is_registered(class_name));
        }
        self.classes.push(class_name);
        proof {
            assert(self.classes_spec()[self.classes_spec().len() - 1] == class_name);
        }
        true
    }

    /// Stages an instance in the creation-parameters channel, as the
    /// creation call does just before asking the platform to create the
    /// window. The creation event takes the instance out again.
    pub fn begin_create(&mut self, instance: T)
        requires
            old(self).model().pending is None,
        ensures
            final(self).model().pending == Some(instance),
            final(self).model().assoc == old(self).model().assoc,
            final(self).classes_spec() == old(self).classes_spec(),
    {
        self.pending = Some(instance);
    }

    /// Clears the creation-parameters channel when the platform failed to
    /// create the window, so that the creation event never arrived to
    /// consume the staged instance.
    pub fn cancel_create(&mut self)
        ensures
            final(self).model().pending is None,
            final(self).model().assoc == old(self).model().assoc,
            final(self).classes_spec() == old(self).classes_spec(),
    {
        self.pending = None;
    }

    /// Whether an instance is currently staged in the creation-parameters
    /// channel.
    pub fn has_pending(&self) -> (r: bool)
        ensures
            r == (self.model().pending is Some),
    {
        self.pending.is_some()
    }

    /// The instance a handle is associated with, if any.
    pub fn lookup(&self, handle: u64) -> (r: Option<&T>)
        ensures
            match r {
                Some(inst) => self.has_assoc(handle) && *inst == self.model().assoc[handle],
                None => !self.has_assoc(handle),
            },
    {
        self.assoc.get(&handle)
    }

    /// The fixed window callback. For a creation event it takes the staged
    /// instance out of the channel, delivers the handle to it, associates
    /// the handle with it — before the event returns, so every later event
    /// for the handle resolves to it — and forwards the event. Any other
    /// event is forwarded to the associated instance; the destruction event
    /// also removes the association. An event that resolves no instance (a
    /// creation event with an empty channel, or any event before the
    /// handle's creation event) is left to the platform's default handler
    /// and changes nothing.
    pub fn dispatch(&mut self, handle: u64, message: u32, data: EventData) -> (r: MessageResult)
        requires
            message == WM_CREATE ==> !old(self).has_assoc(handle),
            message == WM_CREATE ==> (old(self).model().pending matches Some(p)
                ==> p.with_hwnd(handle).msg_pre(message, data)),
            message != WM_CREATE && old(self).has_assoc(handle)
                ==> old(self).model().assoc[handle].msg_pre(message, data),
        ensures
            final(self).model() == step(old(self).model(), handle, message, data),
            r == step_result(old(self).model(), handle, message, data),
            final(self).classes_spec() == old(self).classes_spec(),
            message != WM_CREATE && !old(self).has_assoc(handle)
                ==> final(self).model() == old(self).model() && r == MessageResult::RunDefault,
    {
        if message == WM_CREATE {
            let taken = self.pending.take();
            match taken {
                Some(mut instance) => {
                    instance.set_hwnd(handle);
                    let r = instance.handle_message(handle, message, data);
                    self.assoc.insert(handle, instance);
                    r
                },
                None => MessageResult::RunDefault,
            }
        } else {
            let found = self.assoc.remove(&handle);
            match found {
                Some(mut instance) => {
                    let r = instance.handle_message(handle, message, data);
                    if message != WM_DESTROY {
                        self.assoc.insert(handle, instance);
                        proof {
                            assert(self.assoc@ =~= old(self).assoc@.insert(
                                handle,
                                old(self).assoc@[handle].next(handle, message, data),
                            ));
                        }
                    }
                    r
                },
                None => {
                    proof {
                        assert(self.assoc@ =~= old(self).assoc@);
                    }
                    MessageResult::RunDefault
                },
            }
        }
    }
}

/// A creation event with a staged instance associates the handle, before the
/// event returns, with exactly that instance: the handle is delivered to it,
/// it handles the creation message, and the channel is emptied.
pub proof fn lemma_create_associates<T: BaseWindow>(
    m: BridgeModel<T>,
    handle: u64,
    data: EventData,
    p: T,
)
    requires
        m.pending == Some(p),
    ensures
        step(m, handle, WM_CREATE, data).assoc.dom().contains(handle),
        step(m, handle, WM_CREATE, data).assoc[handle] == p.with_hwnd(handle).next(
            handle,
            WM_CREATE,
            data,
        ),
        step(m, handle, WM_CREATE, data).pending is None,
        step_result(m, handle, WM_CREATE, data) == p.with_hwnd(handle).response(
            handle,
            WM_CREATE,
            data,
        ),
{
}

/// An event, other than a creation event, for a handle that no association
/// resolves is left to the platform's default handler and mutates nothing.
pub proof fn lemma_unassociated_event_defaults<T: BaseWindow>(
    m: BridgeModel<T>,
    handle: u64,
    message: u32,
    data: EventData,
)
    requires
        !m.assoc.dom().contains(handle),
        message != WM_CREATE,
    ensures
        step(m, handle, message, data) == m,
        step_result(m, handle, message, data) == MessageResult::RunDefault,
{
}

/// Dispatch determinism: once a handle is associated with an instance, any
/// sequence of events that neither re-creates nor destroys that handle
/// leaves the association in place, and the instance the handle resolves to
/// is exactly the associated one evolved by the events addressed to the
/// handle — no event rebinds the handle to another instance.
pub proof fn lemma_dispatch_determinism<T: BaseWindow>(
    m: BridgeModel<T>,
    events: Seq<EventRec>,
    handle: u64,
)
    requires
        m.assoc.dom().contains(handle),
        forall|i: int|
            0 <= i < events.len() && (#[trigger] events[i]).handle == handle ==> events[i].message
                != WM_CREATE && events[i].message != WM_DESTROY,
    ensures
        run(m, events).assoc.dom().contains(handle),
        run(m, events).assoc[handle] == evolve(m.assoc[handle], handle, events),
    decreases events.len(),
{
    if events.len() == 0 {
    } else {
        let prefix = events.drop_last();
        assert(forall|i: int| 0 <= i < prefix.len() ==> prefix[i] == events[i]);
        lemma_dispatch_determinism(m, prefix, handle);
        let e = events.last();
        assert(e == events[events.len() - 1]);
    }
}

/// All events after the creation event of a handle resolve to the instance
/// that was staged for that creation: across any following events that
/// neither re-create nor destroy the handle, the handle stays associated,
/// and the instance it resolves to is the staged one — with the handle
/// delivered and the creation message handled — evolved by exactly the
/// events addressed to the handle.
pub proof fn lemma_same_instance_after_create<T: BaseWindow>(
    m: BridgeModel<T>,
    handle: u64,
    data: EventData,
    p: T,
    events: Seq<EventRec>,
)
    requires
        m.pending == Some(p),
        forall|i: int|
            0 <= i < events.len() && (#[trigger] events[i]).handle == handle ==> events[i].message
                != WM_CREATE && events[i].message != WM_DESTROY,
    ensures
        run(step(m, handle, WM_CREATE, data), events).assoc.dom().contains(handle),
        run(step(m, handle, WM_CREATE, data), events).assoc[handle] == evolve(
            p.with_hwnd(handle).next(handle, WM_CREATE, data),
            handle,
            events,
        ),
{
    lemma_create_associates(m, handle, data, p);
    lemma_dispatch_determinism(step(m, handle, WM_CREATE, data), events, handle);
}

/// No association exists for a handle before its creation event: while the
/// events delivered for a handle include no creation event, each of them is
/// left to the platform's default handler, the bridge state is not mutated
/// at all, and the handle stays unassociated.
pub proof fn lemma_no_association_before_create<T: BaseWindow>(
    m: BridgeModel<T>,
    events: Seq<EventRec>,
    handle: u64,
)
    requires
        !m.assoc.dom().contains(handle),
        forall|i: int|
            0 <= i < events.len() ==> (#[trigger] events[i]).handle == handle && events[i].message
                != WM_CREATE,
    ensures
        run(m, events) == m,
        !run(m, events).assoc.dom().contains(handle),
        forall|i: int|
            0 <= i < events.len() ==> #[trigger] step_result(
                run(m, events.take(i)),
                events[i].handle,
                events[i].message,
                events[i].data,
            ) == MessageResult::RunDefault,
    decreases events.len(),
{
    if events.len() == 0 {
    } else {
        let prefix = events.drop_last();
        assert(forall|i: int| 0 <= i < prefix.len() ==> prefix[i] == events[i]);
        lemma_no_association_before_create(m, prefix, handle);
        let e = events.last();
        assert(e == events[events.len() - 1]);
        assert forall|i: int| 0 <= i < events.len() implies #[trigger] step_result(
            run(m, events.take(i)),
            events[i].handle,
            events[i].message,
            events[i].data,
        ) == MessageResult::RunDefault by {
            assert(events.take(i) =~= prefix.take(i));
            if i < events.len() - 1 {
                assert(step_result(
                    run(m, prefix.take(i)),
                    prefix[i].handle,
                    prefix[i].message,
                    prefix[i].data,
                ) == MessageResult::RunDefault);
            } else {
                assert(events.take(i) =~= prefix);
            }
        }
    }
}

} // verus!

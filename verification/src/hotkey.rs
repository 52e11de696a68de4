//! Hotkeys: a key combination, its handlers, and its edge-triggered state.
//!
//! A hotkey is built with the configuration methods, registered into an
//! [`InputState`], and from then on evaluated once per physical key event.
//! Each evaluation first drains the hotkey's mutation queue — the path by
//! which any thread may request enable, disable or toggle — then detects
//! press/release transitions of the full-subset match and fires the
//! handlers.

use vstd::prelude::*;

use circular_buffer::FixedCircularBuffer;

use crate::key::Key;
use crate::key_hook::InputState;
use crate::key_pattern::{xor_fold_keys, KeyPattern};
use crate::queue::{queue_after_push, queue_new, queue_push, queue_requests, queue_take_all};

verus! {

/// Request code asking a hotkey to become enabled.
pub const REQUEST_ENABLE: u8 = 1;

/// Request code asking a hotkey to become disabled.
pub const REQUEST_DISABLE: u8 = 2;

/// Request code asking a hotkey to flip its enabled state.
pub const REQUEST_TOGGLE: u8 = 3;

/// What one queued request does to the enabled state; unknown request codes
/// do nothing.
pub open spec fn apply_request(enabled: bool, request: u8) -> bool {
    if request == REQUEST_ENABLE {
        true
    } else if request == REQUEST_DISABLE {
        false
    } else if request == REQUEST_TOGGLE {
        !enabled
    } else {
        enabled
    }
}

/// The enabled state after applying queued requests front to back.
pub open spec fn apply_requests(enabled: bool, requests: Seq<u8>) -> bool
    decreases requests.len(),
{
    if requests.len() == 0 {
        enabled
    } else {
        apply_requests(apply_request(enabled, requests[0]), requests.drop_first())
    }
}

/// A request appended at the back is applied last.
pub proof fn lemma_apply_requests_push(enabled: bool, requests: Seq<u8>, request: u8)
    ensures
        apply_requests(enabled, requests.push(request)) == apply_request(
            apply_requests(enabled, requests),
            request,
        ),
    decreases requests.len(),
{
    if requests.len() == 0 {
        assert(requests.push(request)[0] == request);
        assert(requests.push(request).drop_first() =~= Seq::<u8>::empty());
        assert(apply_requests(enabled, requests.push(request)) == apply_requests(
            apply_request(enabled, request),
            Seq::<u8>::empty(),
        ));
    } else {
        assert(requests.push(request)[0] == requests[0]);
        assert(requests.push(request).drop_first() =~= requests.drop_first().push(request));
        lemma_apply_requests_push(
            apply_request(enabled, requests[0]),
            requests.drop_first(),
            request,
        );
    }
}

/// A user callback attached to a hotkey. It runs synchronously on the
/// dispatch path, once per press or release transition, so it must return
/// promptly; handing heavier work off is the callback's own business.
pub trait HotkeyHandler {
    /// React to the transition the handler is registered for.
    fn invoke(&self);
}

/// A key combination with press/release handlers and an edge-triggered
/// match state. Built with the configuration methods, then consumed by
/// [`Hotkey::register`], which files it in the input state's registry for
/// the rest of the process lifetime. Registration is the intended end of
/// every construction: a hotkey that is built but never registered does
/// nothing and is dropped silently, without a diagnostic — verified code
/// cannot log.
pub struct Hotkey<H> {
    /// Registry identifier; 0 until the hotkey is registered.
    pub id: u64,
    /// The combination: the XOR-fold of the constituent keys' patterns. A
    /// key listed twice cancels itself out.
    pub key_pattern: KeyPattern,
    /// Runs when the combination becomes fully pressed.
    pub on_press: Option<H>,
    /// Runs when the combination stops being fully pressed.
    pub on_release: Option<H>,
    /// Whether a fired transition suppresses the physical event.
    pub blocking: bool,
    /// Whether the combination was fully pressed at the last evaluation.
    pub state: bool,
    /// Whether the hotkey currently reacts to events.
    pub enabled: bool,
    /// Whether the hotkey has been registered.
    pub registered: bool,
    /// Queued enable/disable/toggle requests, drained at each evaluation.
    pub modifications_queue: FixedCircularBuffer<u8, 64>,
}

/// Whether a transition between match states fires a handler that is there.
pub open spec fn handler_fired(
    old_state: bool,
    new_state: bool,
    has_press: bool,
    has_release: bool,
) -> bool {
    new_state != old_state && (if new_state {
        has_press
    } else {
        has_release
    })
}

/// The fields of a hotkey that an evaluation never changes.
pub open spec fn same_hotkey_configuration<H>(old_h: Hotkey<H>, new_h: Hotkey<H>) -> bool {
    &&& new_h.id == old_h.id
    &&& new_h.key_pattern == old_h.key_pattern
    &&& new_h.on_press == old_h.on_press
    &&& new_h.on_release == old_h.on_release
    &&& new_h.blocking == old_h.blocking
    &&& new_h.registered == old_h.registered
}

/// How one evaluation changes a hotkey: the queue is drained into the
/// enabled state, and the match state follows the pressed keys while the
/// hotkey is enabled. A disabled hotkey keeps its last match state, so that
/// re-enabling does not spuriously refire on an unchanged combination.
pub open spec fn hotkey_evolution<H>(old_h: Hotkey<H>, new_h: Hotkey<H>, states: KeyPattern) -> bool {
    &&& same_hotkey_configuration(old_h, new_h)
    &&& new_h.enabled == apply_requests(old_h.enabled, queue_requests(old_h.modifications_queue))
    &&& queue_requests(new_h.modifications_queue) == Seq::<u8>::empty()
    &&& new_h.state == (if new_h.enabled {
        old_h.key_pattern.is_subset_of(states)
    } else {
        old_h.state
    })
}

/// Whether an evaluation makes the hotkey suppress the event: it ended up
/// enabled and blocking, and a transition fired a handler that is present.
pub open spec fn hotkey_blocks<H>(old_h: Hotkey<H>, new_h: Hotkey<H>) -> bool {
    new_h.enabled && new_h.blocking && handler_fired(
        old_h.state,
        new_h.state,
        new_h.on_press is Some,
        new_h.on_release is Some,
    )
}

/// How queuing a control request changes a hotkey: only the queue moves.
pub open spec fn hotkey_requested<H>(old_h: Hotkey<H>, new_h: Hotkey<H>, request: u8) -> bool {
    &&& same_hotkey_configuration(old_h, new_h)
    &&& new_h.enabled == old_h.enabled
    &&& new_h.state == old_h.state
    &&& queue_requests(new_h.modifications_queue) == queue_after_push(
        queue_requests(old_h.modifications_queue),
        request,
    )
}

impl<H: HotkeyHandler> Hotkey<H> {
    /// Create a new hotkey on the given keys: enabled, not blocking, with no
    /// handlers. The combination pattern is the XOR-fold of the keys'
    /// patterns, so a key listed twice cancels itself out.
    pub fn new(keys: &[Key]) -> (r: Hotkey<H>)
        ensures
            r.id == 0,
            r.key_pattern == xor_fold_keys(keys@),
            r.on_press is None,
            r.on_release is None,
            !r.blocking,
            !r.state,
            r.enabled,
            !r.registered,
            queue_requests(r.modifications_queue) == Seq::<u8>::empty(),
    {
        let mut pattern = KeyPattern::zero();
        let mut i: usize = 0;
        while i < keys.len()
            invariant
                i <= keys@.len(),
                pattern == xor_fold_keys(keys@.take(i as int)),
            decreases keys@.len() - i,
        {
            let one = keys[i].as_pattern();
            pattern = KeyPattern { high: pattern.high ^ one.high, low: pattern.low ^ one.low };
            proof {
                assert(keys@.take(i + 1).drop_last() =~= keys@.take(i as int));
            }
            i = i + 1;
        }
        proof {
            assert(keys@.take(keys@.len() as int) =~= keys@);
        }
        Hotkey {
            id: 0,
            key_pattern: pattern,
            on_press: None,
            on_release: None,
            blocking: false,
            state: false,
            enabled: true,
            registered: false,
            modifications_queue: queue_new(),
        }
    }

    /// Return self with a handler that fires when the combination becomes
    /// fully pressed.
    pub fn on_press(self, handler: H) -> (r: Hotkey<H>)
        ensures
            r == (Hotkey { on_press: Some(handler), ..self }),
    {
        Hotkey { on_press: Some(handler), ..self }
    }

    /// Return self with a handler that fires when the combination stops
    /// being fully pressed.
    pub fn on_release(self, handler: H) -> (r: Hotkey<H>)
        ensures
            r == (Hotkey { on_release: Some(handler), ..self }),
    {
        Hotkey { on_release: Some(handler), ..self }
    }

    /// Return self with blocking set: a fired transition then suppresses the
    /// physical event for the rest of the system.
    pub fn blocking(self) -> (r: Hotkey<H>)
        ensures
            r == (Hotkey { blocking: true, ..self }),
    {
        Hotkey { blocking: true, ..self }
    }

    /// Return self disabled; it can be enabled later through its handle.
    pub fn disabled(self) -> (r: Hotkey<H>)
        ensures
            r == (Hotkey { enabled: false, ..self }),
    {
        Hotkey { enabled: false, ..self }
    }

    /// Register the hotkey: assign it a fresh id, file it in the registry,
    /// and hand back a handle that any thread may use to control it. A fresh
    /// id is never already present — every registered id sits below the
    /// generator — so registration always appends.
    pub fn register(self, state: &mut InputState<H>) -> (handle: HotkeyHandle)
        requires
            old(state).wf(),
            old(state).next_id < u64::MAX,
        ensures
            final(state).wf(),
            handle.id == old(state).next_id,
            final(state).next_id == old(state).next_id + 1,
            final(state).physical_states == old(state).physical_states,
            final(state).virtual_states == old(state).virtual_states,
            final(state).hotkeys@ == old(state).hotkeys@.push(
                (Hotkey { id: old(state).next_id, registered: true, ..self }),
            ),
    {
        let mut hotkey = self;
        hotkey.id = state.next_id;
        hotkey.registered = true;
        state.next_id = state.next_id + 1;
        let handle = HotkeyHandle { id: hotkey.id };
        state.hotkeys.push(hotkey);
        proof {
            assert forall|i: int, j: int|
                0 <= i < j < state.hotkeys@.len() implies state.hotkeys@[i].id
                != state.hotkeys@[j].id by {
                assert(state.hotkeys@[j].id >= old(state).next_id || state.hotkeys@[i].id < old(
                    state,
                ).next_id);
            }
        }
        handle
    }

    /// Whether the hotkey is enabled.
    pub fn enabled(&self) -> (r: bool)
        ensures
            r == self.enabled,
    {
        self.enabled
    }

    /// Queue a control request on this hotkey; it takes effect at the next
    /// evaluation.
    fn push_request(&mut self, request: u8)
        ensures
            hotkey_requested(*old(self), *final(self), request),
    {
        queue_push(&mut self.modifications_queue, request);
    }

    /// Request that the hotkey become enabled at its next evaluation.
    pub fn enable(&mut self)
        ensures
            hotkey_requested(*old(self), *final(self), REQUEST_ENABLE),
    {
        self.push_request(REQUEST_ENABLE);
    }

    /// Request that the hotkey become disabled at its next evaluation.
    pub fn disable(&mut self)
        ensures
            hotkey_requested(*old(self), *final(self), REQUEST_DISABLE),
    {
        self.push_request(REQUEST_DISABLE);
    }

    /// Request that the hotkey flip its enabled state at its next
    /// evaluation.
    pub fn toggle(&mut self)
        ensures
            hotkey_requested(*old(self), *final(self), REQUEST_TOGGLE),
    {
        self.push_request(REQUEST_TOGGLE);
    }

    /// Evaluate the hotkey against the currently pressed keys: drain the
    /// queued control requests in order, then detect a transition of the
    /// full-subset match and fire the matching handler. Returns whether the
    /// event should be suppressed.
    #[verifier::loop_isolation(false)]
    pub fn update_state(&mut self, active_pattern: &KeyPattern) -> (blocked: bool)
        ensures
            hotkey_evolution(*old(self), *final(self), *active_pattern),
            blocked == hotkey_blocks(*old(self), *final(self)),
    {
        // Apply the queued enable/disable/toggle requests in FIFO order.
        let requests = queue_take_all(&mut self.modifications_queue);
        let mut i: usize = 0;
        while i < requests.len()
            invariant
                i <= requests@.len(),
                self.enabled == apply_requests(old(self).enabled, requests@.take(i as int)),
                same_hotkey_configuration(*old(self), *self),
                self.state == old(self).state,
                queue_requests(self.modifications_queue) == Seq::<u8>::empty(),
            decreases requests@.len() - i,
        {
            let request = requests[i];
            if request == REQUEST_ENABLE {
                self.enabled = true;
            } else if request == REQUEST_DISABLE {
                self.enabled = false;
            } else if request == REQUEST_TOGGLE {
                self.enabled = !self.enabled;
            }
            proof {
                assert(requests@.take(i + 1) =~= requests@.take(i as int).push(
                    requests@[i as int],
                ));
                lemma_apply_requests_push(
                    old(self).enabled,
                    requests@.take(i as int),
                    requests@[i as int],
                );
            }
            i = i + 1;
        }
        proof {
            assert(requests@.take(requests@.len() as int) =~= requests@);
        }
        // A disabled hotkey neither matches nor blocks, and keeps its last
        // match state.
        if !self.enabled {
            return false;
        }
        // Full-subset match: extra unrelated keys held at the same time do
        // not prevent a match.
        let new_state = self.key_pattern.all_pressed(active_pattern);
        let mut executed_any = false;
        if new_state != self.state {
            if new_state {
                if let Some(handler) = &self.on_press {
                    handler.invoke();
                    executed_any = true;
                }
            } else {
                if let Some(handler) = &self.on_release {
                    handler.invoke();
                    executed_any = true;
                }
            }
        }
        self.state = new_state;
        executed_any && self.blocking
    }
}

/// A light handle onto a registered hotkey: it holds only the id, so any
/// thread may queue control requests without touching the registry entry.
/// Requests on an id that is not registered are silent no-ops.
pub struct HotkeyHandle {
    /// The id that [`Hotkey::register`] assigned.
    pub id: u64,
}

impl HotkeyHandle {
    /// Queue a control request on the hotkey this handle points to; a stale
    /// handle changes nothing.
    #[verifier::loop_isolation(false)]
    fn request<H: HotkeyHandler>(&self, state: &mut InputState<H>, request: u8)
        requires
            old(state).wf(),
        ensures
            final(state).wf(),
            final(state).physical_states == old(state).physical_states,
            final(state).virtual_states == old(state).virtual_states,
            final(state).next_id == old(state).next_id,
            final(state).hotkeys@.len() == old(state).hotkeys@.len(),
            forall|i: int|
                0 <= i < final(state).hotkeys@.len() ==> (if old(state).hotkeys@[i].id == self.id {
                    hotkey_requested(old(state).hotkeys@[i], #[trigger] final(state).hotkeys@[i], request)
                } else {
                    final(state).hotkeys@[i] == old(state).hotkeys@[i]
                }),
    {
        let n = state.hotkeys.len();
        let mut i: usize = 0;
        while i < n
            invariant
                i <= n,
                state.hotkeys@.len() == old(state).hotkeys@.len(),
                state.physical_states == old(state).physical_states,
                state.virtual_states == old(state).virtual_states,
                state.next_id == old(state).next_id,
                forall|j: int|
                    0 <= j < i ==> (if old(state).hotkeys@[j].id == self.id {
                        hotkey_requested(
                            old(state).hotkeys@[j],
                            #[trigger] state.hotkeys@[j],
                            request,
                        )
                    } else {
                        state.hotkeys@[j] == old(state).hotkeys@[j]
                    }),
                forall|j: int| i <= j < n ==> state.hotkeys@[j] == old(state).hotkeys@[j],
            decreases n - i,
        {
            if state.hotkeys[i].id == self.id {
                state.hotkeys[i].push_request(request);
            }
            i = i + 1;
        }
    }

    /// Request that the hotkey become enabled at its next evaluation.
    pub fn enable<H: HotkeyHandler>(&self, state: &mut InputState<H>)
        requires
            old(state).wf(),
        ensures
            final(state).wf(),
            final(state).physical_states == old(state).physical_states,
            final(state).virtual_states == old(state).virtual_states,
            final(state).next_id == old(state).next_id,
            final(state).hotkeys@.len() == old(state).hotkeys@.len(),
            forall|i: int|
                0 <= i < final(state).hotkeys@.len() ==> (if old(state).hotkeys@[i].id == self.id {
                    hotkey_requested(
                        old(state).hotkeys@[i],
                        #[trigger] final(state).hotkeys@[i],
                        REQUEST_ENABLE,
                    )
                } else {
                    final(state).hotkeys@[i] == old(state).hotkeys@[i]
                }),
    {
        self.request(state, REQUEST_ENABLE);
    }

    /// Request that the hotkey become disabled at its next evaluation.
    pub fn disable<H: HotkeyHandler>(&self, state: &mut InputState<H>)
        requires
            old(state).wf(),
        ensures
            final(state).wf(),
            final(state).physical_states == old(state).physical_states,
            final(state).virtual_states == old(state).virtual_states,
            final(state).next_id == old(state).next_id,
            final(state).hotkeys@.len() == old(state).hotkeys@.len(),
            forall|i: int|
                0 <= i < final(state).hotkeys@.len() ==> (if old(state).hotkeys@[i].id == self.id {
                    hotkey_requested(
                        old(state).hotkeys@[i],
                        #[trigger] final(state).hotkeys@[i],
                        REQUEST_DISABLE,
                    )
                } else {
                    final(state).hotkeys@[i] == old(state).hotkeys@[i]
                }),
    {
        self.request(state, REQUEST_DISABLE);
    }

    /// Request that the hotkey flip its enabled state at its next
    /// evaluation.
    pub fn toggle<H: HotkeyHandler>(&self, state: &mut InputState<H>)
        requires
            old(state).wf(),
        ensures
            final(state).wf(),
            final(state).physical_states == old(state).physical_states,
            final(state).virtual_states == old(state).virtual_states,
            final(state).next_id == old(state).next_id,
            final(state).hotkeys@.len() == old(state).hotkeys@.len(),
            forall|i: int|
                0 <= i < final(state).hotkeys@.len() ==> (if old(state).hotkeys@[i].id == self.id {
                    hotkey_requested(
                        old(state).hotkeys@[i],
                        #[trigger] final(state).hotkeys@[i],
                        REQUEST_TOGGLE,
                    )
                } else {
                    final(state).hotkeys@[i] == old(state).hotkeys@[i]
                }),
    {
        self.request(state, REQUEST_TOGGLE);
    }
}

} // verus!

//! Touch and keyboard event handling.

use vstd::prelude::*;
use crate::clock::unix_time_ms;
use crate::media::error::MediaError;
use crate::protocol::{KeyEvent, KeyEventType, TouchEvent};

verus! {

/// An input event.
#[derive(Debug, Clone)]
pub enum InputEvent {
    Touch(TouchEvent),
    Key(KeyEvent),
}

/// Handles incoming input events; implement it to receive them.
pub trait InputHandler: Sized {
    /// Whether the handler can take another event (for example, that its
    /// counters have room).
    spec fn can_handle(&self) -> bool;

    /// What handling a touch event does: the handler goes from `before` to
    /// `after` and answers `r`.
    spec fn touch_handled(before: Self, event: TouchEvent, after: Self, r: Result<(), MediaError>) -> bool;

    /// What handling a key event does: the handler goes from `before` to
    /// `after` and answers `r`.
    spec fn key_handled(before: Self, event: KeyEvent, after: Self, r: Result<(), MediaError>) -> bool;

    fn handle_touch(&mut self, event: &TouchEvent) -> (r: Result<(), MediaError>)
        requires
            old(self).can_handle(),
        ensures
            Self::touch_handled(*old(self), *event, *final(self), r),
    ;

    fn handle_key(&mut self, event: &KeyEvent) -> (r: Result<(), MediaError>)
        requires
            old(self).can_handle(),
        ensures
            Self::key_handled(*old(self), *event, *final(self), r),
    ;
}

/// Input handler that counts the events it receives.
#[derive(Debug, Default)]
pub struct DefaultInputHandler {
    touch_count: u64,
    key_count: u64,
}

impl DefaultInputHandler {
    pub closed spec fn spec_touch_count(&self) -> u64 {
        self.touch_count
    }

    pub closed spec fn spec_key_count(&self) -> u64 {
        self.key_count
    }

    pub fn new() -> (r: Self)
        ensures
            r.spec_touch_count() == 0,
            r.spec_key_count() == 0,
    {
        DefaultInputHandler { touch_count: 0, key_count: 0 }
    }

    pub fn touch_count(&self) -> (r: u64)
        ensures
            r == self.spec_touch_count(),
    {
        self.touch_count
    }

    pub fn key_count(&self) -> (r: u64)
        ensures
            r == self.spec_key_count(),
    {
        self.key_count
    }
}

impl InputHandler for DefaultInputHandler {
    open spec fn can_handle(&self) -> bool {
        self.spec_touch_count() < u64::MAX && self.spec_key_count() < u64::MAX
    }

    /// A touch adds one to the touch count and is accepted.
    open spec fn touch_handled(before: Self, event: TouchEvent, after: Self, r: Result<(), MediaError>) -> bool {
        &&& r is Ok
        &&& after.spec_touch_count() == before.spec_touch_count() + 1
        &&& after.spec_key_count() == before.spec_key_count()
    }

    /// A key event adds one to the key count and is accepted.
    open spec fn key_handled(before: Self, event: KeyEvent, after: Self, r: Result<(), MediaError>) -> bool {
        &&& r is Ok
        &&& after.spec_key_count() == before.spec_key_count() + 1
        &&& after.spec_touch_count() == before.spec_touch_count()
    }

    /// Counts a touch event.
    fn handle_touch(&mut self, event: &TouchEvent) -> (r: Result<(), MediaError>)
        ensures
            r is Ok,
            final(self).spec_touch_count() == old(self).spec_touch_count() + 1,
            final(self).spec_key_count() == old(self).spec_key_count(),
    {
        self.touch_count = self.touch_count + 1;
        Ok(())
    }

    /// Counts a key event.
    fn handle_key(&mut self, event: &KeyEvent) -> (r: Result<(), MediaError>)
        ensures
            r is Ok,
            final(self).spec_key_count() == old(self).spec_key_count() + 1,
            final(self).spec_touch_count() == old(self).spec_touch_count(),
    {
        self.key_count = self.key_count + 1;
        Ok(())
    }
}

/// One dispatch took the dispatcher from `before` to `after`: it counted
/// one more event.
pub open spec fn dispatched(before: InputDispatcher, after: InputDispatcher) -> bool {
    after.spec_event_count() == before.spec_event_count() + 1
}

/// The event count is the number of dispatches: along any run of calls in
/// which each step is one `dispatch` or one `dispatch_to_handler` (in any
/// order and mix, whatever their answers; making events with
/// `create_touch_event` or `create_key_event` takes the dispatcher by
/// shared reference and is no step), the count grows by exactly the number
/// of steps. A dispatcher made by `new` (count 0) that went through `k`
/// dispatches has counted `k` events.
pub proof fn lemma_event_count_is_dispatches(run: Seq<InputDispatcher>)
    requires
        run.len() >= 1,
        forall|i: int| 0 <= i < run.len() - 1 ==> dispatched(#[trigger] run[i], run[i + 1]),
    ensures
        run.last().spec_event_count() == run[0].spec_event_count() + (run.len() - 1),
        run[0].spec_event_count() == 0 ==> run.last().spec_event_count() == run.len() - 1,
    decreases run.len(),
{
    if run.len() > 1 {
        let prefix = run.drop_last();
        assert forall|i: int| 0 <= i < prefix.len() - 1 implies dispatched(#[trigger] prefix[i], prefix[i + 1]) by {
            assert(dispatched(run[i], run[i + 1]));
        }
        lemma_event_count_is_dispatches(prefix);
        assert(dispatched(run[run.len() - 2], run[run.len() - 1]));
    }
}

/// Dispatches incoming input events to handlers.
#[derive(Debug)]
pub struct InputDispatcher {
    event_count: u64,
}

impl InputDispatcher {
    pub closed spec fn spec_event_count(&self) -> u64 {
        self.event_count
    }

    pub fn new() -> (r: Self)
        ensures
            r.spec_event_count() == 0,
    {
        InputDispatcher { event_count: 0 }
    }

    /// Counts the event and hands it to the handler, once, by the method for
    /// its kind, returning the handler's answer (the event is counted
    /// whatever the answer).
    pub fn dispatch_to_handler<H: InputHandler>(&mut self, event: &InputEvent, handler: &mut H) -> (r:
        Result<(), MediaError>)
        requires
            old(self).spec_event_count() < u64::MAX,
            old(handler).can_handle(),
        ensures
            dispatched(*old(self), *final(self)),
            match *event {
                InputEvent::Touch(t) => H::touch_handled(*old(handler), t, *final(handler), r),
                InputEvent::Key(k) => H::key_handled(*old(handler), k, *final(handler), r),
            },
    {
        self.event_count = self.event_count + 1;
        match event {
            InputEvent::Touch(touch) => handler.handle_touch(touch),
            InputEvent::Key(key) => handler.handle_key(key),
        }
    }

    /// Counts the event without handling it.
    pub fn dispatch(&mut self, event: &InputEvent) -> (r: Result<(), MediaError>)
        requires
            old(self).spec_event_count() < u64::MAX,
        ensures
            r is Ok,
            dispatched(*old(self), *final(self)),
    {
        self.event_count = self.event_count + 1;
        Ok(())
    }

    pub fn event_count(&self) -> (r: u64)
        ensures
            r == self.spec_event_count(),
    {
        self.event_count
    }

    /// A key event stamped with the current time.
    pub fn create_key_event(
        &self,
        sequence_id: u64,
        key_type: KeyEventType,
        key_code: i32,
        text: Option<String>,
    ) -> (r: KeyEvent)
        ensures
            r.sequence_id == sequence_id,
            r.key_type == key_type,
            r.key_code == key_code,
            r.text == text,
    {
        KeyEvent { sequence_id, timestamp_ms: unix_time_ms(), key_type, key_code, text }
    }

    /// A touch event at the given position (as `f32` bit patterns), stamped
    /// with the current time, with full pressure and unit contact size for
    /// pointer 0.
    pub fn create_touch_event(
        &self,
        sequence_id: u64,
        touch_type: crate::protocol::TouchType,
        x_bits: u32,
        y_bits: u32,
    ) -> (r: TouchEvent)
        ensures
            r.sequence_id == sequence_id,
            r.touch_type == touch_type,
            r.x_bits == x_bits,
            r.y_bits == y_bits,
            r.pressure_bits == F32_ONE_BITS,
            r.touch_major_bits == F32_ONE_BITS,
            r.pointer_id == 0,
    {
        TouchEvent {
            sequence_id,
            timestamp_ms: unix_time_ms(),
            touch_type,
            x_bits,
            y_bits,
            pressure_bits: F32_ONE_BITS,
            touch_major_bits: F32_ONE_BITS,
            pointer_id: 0,
        }
    }
}

/// The IEEE-754 bit pattern of the `f32` value 1.0.
pub const F32_ONE_BITS: u32 = 0x3F80_0000;

/// Builds a touch event step by step; coordinates and pressure are `f32`
/// bit patterns.
#[derive(Debug, Clone, Copy)]
pub struct TouchEventBuilder {
    pub sequence_id: u64,
    pub touch_type: crate::protocol::TouchType,
    pub x_bits: u32,
    pub y_bits: u32,
    pub pressure_bits: u32,
}

impl TouchEventBuilder {
    /// A builder for a touch-down at the origin with full pressure.
    pub fn new() -> (r: Self)
        ensures
            r.sequence_id == 0,
            r.touch_type == crate::protocol::TouchType::Down,
            r.x_bits == 0,
            r.y_bits == 0,
            r.pressure_bits == F32_ONE_BITS,
    {
        TouchEventBuilder {
            sequence_id: 0,
            touch_type: crate::protocol::TouchType::Down,
            x_bits: 0,
            y_bits: 0,
            pressure_bits: F32_ONE_BITS,
        }
    }

    pub fn sequence_id(self, id: u64) -> (r: Self)
        ensures
            r == (Self { sequence_id: id, ..self }),
    {
        Self { sequence_id: id, ..self }
    }

    pub fn touch_type(self, t: crate::protocol::TouchType) -> (r: Self)
        ensures
            r == (Self { touch_type: t, ..self }),
    {
        Self { touch_type: t, ..self }
    }

    pub fn position(self, x_bits: u32, y_bits: u32) -> (r: Self)
        ensures
            r == (Self { x_bits, y_bits, ..self }),
    {
        Self { x_bits, y_bits, ..self }
    }

    pub fn pressure(self, pressure_bits: u32) -> (r: Self)
        ensures
            r == (Self { pressure_bits, ..self }),
    {
        Self { pressure_bits, ..self }
    }

    /// The event, stamped with the current time, with unit contact size for
    /// pointer 0.
    pub fn build(self) -> (r: TouchEvent)
        ensures
            r.sequence_id == self.sequence_id,
            r.touch_type == self.touch_type,
            r.x_bits == self.x_bits,
            r.y_bits == self.y_bits,
            r.pressure_bits == self.pressure_bits,
            r.touch_major_bits == F32_ONE_BITS,
            r.pointer_id == 0,
    {
        TouchEvent {
            sequence_id: self.sequence_id,
            timestamp_ms: unix_time_ms(),
            touch_type: self.touch_type,
            x_bits: self.x_bits,
            y_bits: self.y_bits,
            pressure_bits: self.pressure_bits,
            touch_major_bits: F32_ONE_BITS,
            pointer_id: 0,
        }
    }
}

impl Default for TouchEventBuilder {
    fn default() -> (r: Self)
        ensures
            r.sequence_id == 0,
            r.touch_type == crate::protocol::TouchType::Down,
            r.x_bits == 0,
            r.y_bits == 0,
            r.pressure_bits == F32_ONE_BITS,
    {
        Self::new()
    }
}

impl Default for InputDispatcher {
    fn default() -> (r: Self)
        ensures
            r.spec_event_count() == 0,
    {
        Self::new()
    }
}

} // verus!

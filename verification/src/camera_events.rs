//! The input aggregator and the frame driver: raw input events become a
//! snapshot of what the user is doing, and each tick the snapshot becomes
//! movement intents for the camera.

use vstd::prelude::*;
use crate::camera::{Camera, CameraMovement};
use crate::fixed::{add_saturating, clamp64};

verus! {

/// The pointer button that grabs the view.
pub const PRIMARY_BUTTON: u32 = 1;

/// A key, as far as the camera cares.
#[derive(Clone, Copy, Debug, PartialEq, Eq, Structural)]
pub enum Key {
    /// Move forward.
    W,
    /// Move backward.
    S,
    /// Strafe left.
    A,
    /// Strafe right.
    D,
    /// Descend.
    LShift,
    /// Ascend.
    Space,
    /// Let go of the cursor.
    Escape,
    /// Any other key.
    Other,
}

/// A raw input event.
#[derive(Clone, Copy, Debug, PartialEq, Eq, Structural)]
pub enum InputEvent {
    /// A key went down (`true`) or up (`false`).
    KeyChanged(Key, bool),
    /// The pointer travelled by `(dx, dy)`.
    PointerMoved(i64, i64),
    /// A pointer button went down (`true`) or up (`false`).
    PointerButtonChanged(u32, bool),
    /// The cursor came into the window.
    CursorEntered,
    /// The cursor left the window.
    CursorLeft,
    /// The user asked to have the cursor back.
    CursorCaptureReleaseRequested,
}

/// What the windowing system is to do with the cursor after an event.
#[derive(Clone, Copy, Debug, PartialEq, Eq, Structural)]
pub enum CursorRequest {
    /// Leave the cursor as it is.
    Unchanged,
    /// Confine and hide the cursor.
    Capture,
    /// Free and show the cursor.
    Release,
}

/// What the user is doing at one tick.
#[derive(Clone, Copy, Debug, PartialEq, Eq, Structural)]
pub struct InputSnapshot {
    /// Whether the cursor is captured.
    pub captured: bool,
    /// Whether the control for moving forward is held.
    pub forward: bool,
    /// Whether the control for moving backward is held.
    pub backward: bool,
    /// Whether the control for strafing left is held.
    pub left: bool,
    /// Whether the control for strafing right is held.
    pub right: bool,
    /// Whether the control for descending is held.
    pub descend: bool,
    /// Whether the control for ascending is held.
    pub ascend: bool,
    /// Pointer travel since the last tick, across.
    pub dx: i64,
    /// Pointer travel since the last tick, down.
    pub dy: i64,
}

/// `movement` if `wanted`, else nothing.
pub open spec fn intent_if(wanted: bool, movement: CameraMovement) -> Seq<CameraMovement> {
    if wanted {
        seq![movement]
    } else {
        Seq::empty()
    }
}

impl InputSnapshot {
    /// Whether the pointer travelled at all.
    pub open spec fn pointer_moved(self) -> bool {
        self.dx != 0 || self.dy != 0
    }

    /// The movement intents of the tick, in the order in which they are
    /// applied: none unless the cursor is captured; then one for each held
    /// control, forward, backward, left, right, down, up; then one rotation
    /// if the pointer travelled.
    pub open spec fn spec_intents(self) -> Seq<CameraMovement> {
        if !self.captured {
            Seq::empty()
        } else {
            intent_if(self.forward, CameraMovement::Forward) + intent_if(
                self.backward,
                CameraMovement::Backward,
            ) + intent_if(self.left, CameraMovement::Left) + intent_if(
                self.right,
                CameraMovement::Right,
            ) + intent_if(self.descend, CameraMovement::Down) + intent_if(
                self.ascend,
                CameraMovement::Up,
            ) + intent_if(self.pointer_moved(), CameraMovement::Rotate(self.dx, self.dy))
        }
    }

    /// The movement intents of the tick, in the order in which they are
    /// applied.
    pub fn intents(&self) -> (list: Vec<CameraMovement>)
        ensures
            list@ == self.spec_intents(),
            !self.captured ==> list@.len() == 0,
    {
        let mut list: Vec<CameraMovement> = Vec::new();
        if !self.captured {
            return list;
        }
        push_if(&mut list, self.forward, CameraMovement::Forward);
        assert(list@ == intent_if(self.forward, CameraMovement::Forward));
        push_if(&mut list, self.backward, CameraMovement::Backward);
        push_if(&mut list, self.left, CameraMovement::Left);
        push_if(&mut list, self.right, CameraMovement::Right);
        push_if(&mut list, self.descend, CameraMovement::Down);
        push_if(&mut list, self.ascend, CameraMovement::Up);
        push_if(
            &mut list,
            self.dx != 0 || self.dy != 0,
            CameraMovement::Rotate(self.dx, self.dy),
        );
        list
    }
}

/// Appends `movement` to `list` if it is wanted.
fn push_if(list: &mut Vec<CameraMovement>, wanted: bool, movement: CameraMovement)
    ensures
        final(list)@ == old(list)@ + intent_if(wanted, movement),
{
    if wanted {
        list.push(movement);
    }
}

/// The mathematical value of the input aggregator.
pub struct HandlerView {
    /// Whether the cursor is inside the window.
    pub cursor_in: bool,
    /// Whether the cursor is captured.
    pub captured: bool,
    /// Whether the control for moving forward is held.
    pub forward: bool,
    /// Whether the control for moving backward is held.
    pub backward: bool,
    /// Whether the control for strafing left is held.
    pub left: bool,
    /// Whether the control for strafing right is held.
    pub right: bool,
    /// Whether the control for descending is held.
    pub descend: bool,
    /// Whether the control for ascending is held.
    pub ascend: bool,
    /// Pointer travel that no tick has consumed yet, across.
    pub dx: i64,
    /// Pointer travel that no tick has consumed yet, down.
    pub dy: i64,
}

impl HandlerView {
    /// Whether `event` grabs the view: the primary button goes down while
    /// the cursor is inside the window and not captured yet.
    pub open spec fn captures(self, event: InputEvent) -> bool {
        event matches InputEvent::PointerButtonChanged(button, pressed) && button == PRIMARY_BUTTON
            && pressed && self.cursor_in && !self.captured
    }

    /// Whether `event` lets go of the view: a release is asked for, by its
    /// own event or by the escape key going down, while the cursor is
    /// captured.
    pub open spec fn releases(self, event: InputEvent) -> bool {
        self.captured && (event is CursorCaptureReleaseRequested || event
            == InputEvent::KeyChanged(Key::Escape, true))
    }

    /// What the windowing system is asked to do after `event`.
    pub open spec fn request(self, event: InputEvent) -> CursorRequest {
        if self.captures(event) {
            CursorRequest::Capture
        } else if self.releases(event) {
            CursorRequest::Release
        } else {
            CursorRequest::Unchanged
        }
    }

    /// Whether the cursor is captured after `event`: the state changes
    /// where the event captures or releases, and nowhere else.
    pub open spec fn captured_after(self, event: InputEvent) -> bool {
        if self.captures(event) {
            true
        } else if self.releases(event) {
            false
        } else {
            self.captured
        }
    }

    /// The aggregator after `event`: a key sets the flag of its control,
    /// pointer travel adds up, the cursor's coming and going is noted, and
    /// the capture state is as [`HandlerView::captured_after`] says.
    pub open spec fn after(self, event: InputEvent) -> HandlerView {
        let next = HandlerView { captured: self.captured_after(event), ..self };
        match event {
            InputEvent::KeyChanged(key, pressed) => match key {
                Key::W => HandlerView { forward: pressed, ..next },
                Key::S => HandlerView { backward: pressed, ..next },
                Key::A => HandlerView { left: pressed, ..next },
                Key::D => HandlerView { right: pressed, ..next },
                Key::LShift => HandlerView { descend: pressed, ..next },
                Key::Space => HandlerView { ascend: pressed, ..next },
                Key::Escape => next,
                Key::Other => next,
            },
            InputEvent::PointerMoved(dx, dy) => HandlerView {
                dx: clamp64(self.dx + dx) as i64,
                dy: clamp64(self.dy + dy) as i64,
                ..next
            },
            InputEvent::PointerButtonChanged(_, _) => next,
            InputEvent::CursorEntered => HandlerView { cursor_in: true, ..next },
            InputEvent::CursorLeft => HandlerView { cursor_in: false, ..next },
            InputEvent::CursorCaptureReleaseRequested => next,
        }
    }

    /// What the user is doing: the capture state, the flags and the
    /// pointer travel.
    pub open spec fn snapshot(self) -> InputSnapshot {
        InputSnapshot {
            captured: self.captured,
            forward: self.forward,
            backward: self.backward,
            left: self.left,
            right: self.right,
            descend: self.descend,
            ascend: self.ascend,
            dx: self.dx,
            dy: self.dy,
        }
    }

    /// The movement intents of the next tick.
    pub open spec fn intents(self) -> Seq<CameraMovement> {
        self.snapshot().spec_intents()
    }

    /// The aggregator with the cursor released.
    pub open spec fn released(self) -> HandlerView {
        HandlerView { captured: false, ..self }
    }

    /// The aggregator with the pointer travel consumed.
    pub open spec fn drained(self) -> HandlerView {
        HandlerView { dx: 0, dy: 0, ..self }
    }
}

/// Aggregates input events into what the user is currently doing.
pub struct CameraHandler {
    cursor_in: bool,
    cursor_grabbed: bool,
    w_pressed: bool,
    s_pressed: bool,
    a_pressed: bool,
    d_pressed: bool,
    lshift_pressed: bool,
    space_pressed: bool,
    mouse_delta: (i64, i64),
}

impl View for CameraHandler {
    type V = HandlerView;

    closed spec fn view(&self) -> HandlerView {
        HandlerView {
            cursor_in: self.cursor_in,
            captured: self.cursor_grabbed,
            forward: self.w_pressed,
            backward: self.s_pressed,
            left: self.a_pressed,
            right: self.d_pressed,
            descend: self.lshift_pressed,
            ascend: self.space_pressed,
            dx: self.mouse_delta.0,
            dy: self.mouse_delta.1,
        }
    }
}

impl CameraHandler {
    /// An aggregator with nothing held, the cursor outside the window and
    /// not captured, and no pointer travel.
    pub fn new() -> (handler: Self)
        ensures
            handler@ == (HandlerView {
                cursor_in: false,
                captured: false,
                forward: false,
                backward: false,
                left: false,
                right: false,
                descend: false,
                ascend: false,
                dx: 0,
                dy: 0,
            }),
    {
        Self {
            cursor_in: false,
            cursor_grabbed: false,
            w_pressed: false,
            s_pressed: false,
            a_pressed: false,
            d_pressed: false,
            lshift_pressed: false,
            space_pressed: false,
            mouse_delta: (0, 0),
        }
    }

    /// Whether the cursor is captured.
    pub fn is_captured(&self) -> (captured: bool)
        ensures
            captured == self@.captured,
    {
        self.cursor_grabbed
    }

    /// Takes one input event in, and says what the windowing system is to
    /// do with the cursor.
    ///
    /// A key sets the flag of its control to whether it is down. Pointer
    /// travel adds to the travel that no tick has consumed yet. The primary
    /// button going down inside the window captures a free cursor. A
    /// request for release, or the escape key going down, frees a captured
    /// cursor. The cursor entering or leaving the window is noted. Every
    /// other event changes nothing.
    pub fn handle_event(&mut self, event: InputEvent) -> (request: CursorRequest)
        ensures
            final(self)@ == old(self)@.after(event),
            request == old(self)@.request(event),
            final(self)@.captured == old(self)@.captured_after(event),
            final(self)@.captured != old(self)@.captured <==> request != CursorRequest::Unchanged,
    {
        let captured: bool = self.cursor_grabbed;
        match event {
            InputEvent::KeyChanged(key, pressed) => match key {
                Key::W => {
                    self.w_pressed = pressed;
                },
                Key::S => {
                    self.s_pressed = pressed;
                },
                Key::A => {
                    self.a_pressed = pressed;
                },
                Key::D => {
                    self.d_pressed = pressed;
                },
                Key::LShift => {
                    self.lshift_pressed = pressed;
                },
                Key::Space => {
                    self.space_pressed = pressed;
                },
                Key::Escape => {
                    if pressed {
                        self.cursor_grabbed = false;
                    }
                },
                Key::Other => {},
            },
            InputEvent::PointerMoved(dx, dy) => {
                self.mouse_delta = (
                    add_saturating(self.mouse_delta.0, dx),
                    add_saturating(self.mouse_delta.1, dy),
                );
            },
            InputEvent::PointerButtonChanged(button, pressed) => {
                if button == PRIMARY_BUTTON && pressed && self.cursor_in && !self.cursor_grabbed {
                    self.cursor_grabbed = true;
                }
            },
            InputEvent::CursorEntered => {
                self.cursor_in = true;
            },
            InputEvent::CursorLeft => {
                self.cursor_in = false;
            },
            InputEvent::CursorCaptureReleaseRequested => {
                self.cursor_grabbed = false;
            },
        }
        if self.cursor_grabbed && !captured {
            CursorRequest::Capture
        } else if captured && !self.cursor_grabbed {
            CursorRequest::Release
        } else {
            CursorRequest::Unchanged
        }
    }

    /// Takes back a capture that the windowing system refused: the cursor
    /// counts as released again.
    pub fn capture_failed(&mut self)
        ensures
            final(self)@ == old(self)@.released(),
    {
        self.cursor_grabbed = false;
    }

    /// Hands out what the user is doing and consumes the pointer travel.
    /// The flags stay as they are until their keys come up.
    pub fn drain_and_reset(&mut self) -> (snapshot: InputSnapshot)
        ensures
            snapshot == old(self)@.snapshot(),
            final(self)@ == old(self)@.drained(),
    {
        let snapshot = InputSnapshot {
            captured: self.cursor_grabbed,
            forward: self.w_pressed,
            backward: self.s_pressed,
            left: self.a_pressed,
            right: self.d_pressed,
            descend: self.lshift_pressed,
            ascend: self.space_pressed,
            dx: self.mouse_delta.0,
            dy: self.mouse_delta.1,
        };
        self.mouse_delta = (0, 0);
        snapshot
    }

    /// One tick of the frame driver: consumes the pointer travel and, if
    /// the cursor is captured, applies the movement intents of the tick to
    /// `camera`, each for `delta_time` nanoseconds. Says whether the camera
    /// was rotated, which is when its viewing direction is to be renewed.
    pub fn update_camera(&mut self, camera: &mut Camera, delta_time: u64) -> (turned: bool)
        ensures
            final(self)@ == old(self)@.drained(),
            final(camera)@ == old(camera)@.moved_each(delta_time as int, old(self)@.intents()),
            !old(self)@.captured ==> final(camera)@ == old(camera)@,
            turned == (old(self)@.captured && old(self)@.snapshot().pointer_moved()),
            final(camera)@.wf(),
    {
        let snapshot = self.drain_and_reset();
        let intents = snapshot.intents();
        camera.update_each(delta_time, &intents);
        snapshot.captured && (snapshot.dx != 0 || snapshot.dy != 0)
    }
}

} // verus!

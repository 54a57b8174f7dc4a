//! The session: the state of one run of the viewer, and what each frame does
//! to it: reduce the input, advance the camera, list the squares to draw.

use crate::camera::{spec_advance, spec_zoom_step, Camera, Direction, ZOOM_DEFAULT};
use crate::clock::{spec_tick, FrameClock, FALLBACK_DELTA_NS};
use crate::fixed::Point;
use crate::grid::Grid;
use crate::input::{spec_key_direction, InputEvent, InputState, Pixel};
use crate::mapper::{
    ndc_to_board, pixel_to_ndc, spec_ndc_to_board, spec_ndc_x, spec_ndc_y, AspectCorrection,
};
use crate::render::{frame_primitives, spec_frame, Primitive};
use crate::Action;
use vstd::prelude::*;

verus! {

/// The codes of the four keys that move the camera.
#[derive(Clone, Copy, Debug, PartialEq, Eq, Structural)]
pub struct KeyBindings {
    pub right: u16,
    pub left: u16,
    pub up: u16,
    pub down: u16,
}

/// What the input events act on: the held keys, the pointer and the zoom
/// level.
pub struct Snapshot {
    pub held: Set<usize>,
    pub pointer: Option<Pixel>,
    pub zoom: int,
}

/// The snapshot after one event.
pub open spec fn spec_apply(snapshot: Snapshot, event: InputEvent) -> Snapshot {
    match event {
        InputEvent::KeyDown(code) => Snapshot {
            held: snapshot.held.insert(code as usize),
            ..snapshot
        },
        InputEvent::KeyUp(code) => Snapshot { held: snapshot.held.remove(code as usize), ..snapshot },
        InputEvent::PointerMoved(x, y) => Snapshot { pointer: Some(Pixel { x, y }), ..snapshot },
        InputEvent::Scroll(lines) => Snapshot {
            zoom: spec_zoom_step(snapshot.zoom, lines as int),
            ..snapshot
        },
        InputEvent::Closed => snapshot,
    }
}

/// The snapshot after a batch of events, applied in order.
pub open spec fn spec_reduce(snapshot: Snapshot, events: Seq<InputEvent>) -> Snapshot
    decreases events.len(),
{
    if events.len() == 0 {
        snapshot
    } else {
        spec_apply(spec_reduce(snapshot, events.drop_last()), events.last())
    }
}

/// A key that goes down and comes up within one batch is not held after it.
pub proof fn lemma_press_then_release(snapshot: Snapshot, code: u16)
    ensures
        spec_reduce(snapshot, seq![InputEvent::KeyDown(code), InputEvent::KeyUp(code)])
            == (Snapshot { held: snapshot.held.remove(code as usize), ..snapshot }),
{
    let events = seq![InputEvent::KeyDown(code), InputEvent::KeyUp(code)];
    let first = events.drop_last();
    assert(first =~= seq![InputEvent::KeyDown(code)]);
    assert(first.drop_last() =~= Seq::<InputEvent>::empty());
    reveal_with_fuel(spec_reduce, 3);
    assert(spec_reduce(snapshot, first) == spec_apply(snapshot, InputEvent::KeyDown(code)));
    assert(snapshot.held.insert(code as usize).remove(code as usize) =~= snapshot.held.remove(
        code as usize,
    ));
}

/// A key that goes down twice is held once, and one that comes up twice is
/// as little held as after the first time.
pub proof fn lemma_key_events_idempotent(snapshot: Snapshot, code: u16)
    ensures
        spec_apply(spec_apply(snapshot, InputEvent::KeyDown(code)), InputEvent::KeyDown(code))
            == spec_apply(snapshot, InputEvent::KeyDown(code)),
        spec_apply(spec_apply(snapshot, InputEvent::KeyUp(code)), InputEvent::KeyUp(code))
            == spec_apply(snapshot, InputEvent::KeyUp(code)),
{
    let c = code as usize;
    assert(snapshot.held.insert(c).insert(c) =~= snapshot.held.insert(c));
    assert(snapshot.held.remove(c).remove(c) =~= snapshot.held.remove(c));
}

/// Where the held keys point, given the codes of the four arrow keys.
pub open spec fn spec_direction(held: Set<usize>, bindings: KeyBindings) -> Direction {
    Direction {
        x: spec_key_direction(
            held.contains(bindings.right as usize),
            held.contains(bindings.left as usize),
        ),
        y: spec_key_direction(
            held.contains(bindings.up as usize),
            held.contains(bindings.down as usize),
        ),
    }
}

/// The board point under the pointer: none while the pointer has not been
/// seen or the viewport is empty.
pub open spec fn spec_pointer_board(
    pointer: Option<Pixel>,
    viewport_w: u32,
    viewport_h: u32,
    camera: Camera,
) -> Option<Point> {
    match pointer {
        None => None,
        Some(pixel) => if viewport_w == 0 || viewport_h == 0 {
            None
        } else {
            Some(
                spec_ndc_to_board(
                    Point {
                        x: spec_ndc_x(pixel.x as int, viewport_w as int) as i64,
                        y: spec_ndc_y(pixel.y as int, viewport_h as int) as i64,
                    },
                    camera,
                    AspectCorrection { num: viewport_h, den: viewport_w },
                ),
            )
        },
    }
}

/// The state of one run of the viewer.
pub struct GameState {
    pub camera: Camera,
    pub input: InputState,
    pub clock: FrameClock,
    pub grid: Grid,
    pub viewport_w: u32,
    pub viewport_h: u32,
    pub bindings: KeyBindings,
}

impl GameState {
    /// The camera and the grid are well-formed.
    pub open spec fn wf(self) -> bool {
        self.camera.wf() && self.grid.wf()
    }

    /// What the input events act on.
    pub open spec fn snapshot(self) -> Snapshot {
        Snapshot {
            held: self.input.held(),
            pointer: self.input.pointer,
            zoom: self.camera.zoom as int,
        }
    }

    /// A session over `grid`: the camera at the origin with the default
    /// zoom, no key held, the pointer not seen, the clock not started.
    pub fn new(grid: Grid, bindings: KeyBindings, viewport_w: u32, viewport_h: u32) -> (state:
        GameState)
        requires
            grid.wf(),
        ensures
            state.wf(),
            state.camera == (Camera { center: Point { x: 0, y: 0 }, zoom: ZOOM_DEFAULT }),
            state.input.held() == Set::<usize>::empty(),
            state.input.pointer.is_none(),
            state.clock.last.is_none(),
            state.clock.delta_ns == FALLBACK_DELTA_NS,
            state.grid == grid,
            state.viewport_w == viewport_w,
            state.viewport_h == viewport_h,
            state.bindings == bindings,
    {
        GameState {
            camera: Camera::new(Point { x: 0, y: 0 }, ZOOM_DEFAULT),
            input: InputState::new(),
            clock: FrameClock::new(),
            grid,
            viewport_w,
            viewport_h,
            bindings,
        }
    }

    /// The viewport now is `viewport_w` by `viewport_h` pixels.
    pub fn resize(&mut self, viewport_w: u32, viewport_h: u32)
        ensures
            *final(self) == (GameState { viewport_w, viewport_h, ..*old(self) }),
    {
        self.viewport_w = viewport_w;
        self.viewport_h = viewport_h;
    }

    /// Applies one event: a key enters or leaves the held set, the pointer
    /// moves, the zoom level takes a step. The result is `Stop` for `Closed`
    /// and for nothing else.
    pub fn apply_event(&mut self, event: InputEvent) -> (action: Action)
        requires
            old(self).wf(),
        ensures
            final(self).wf(),
            final(self).snapshot() == spec_apply(old(self).snapshot(), event),
            action == Action::Stop <==> event == InputEvent::Closed,
            action == Action::Continue <==> event != InputEvent::Closed,
            final(self).camera.center == old(self).camera.center,
            final(self).clock == old(self).clock,
            final(self).grid == old(self).grid,
            final(self).viewport_w == old(self).viewport_w,
            final(self).viewport_h == old(self).viewport_h,
            final(self).bindings == old(self).bindings,
    {
        match event {
            InputEvent::KeyDown(code) => {
                self.input.press(code);
                Action::Continue
            },
            InputEvent::KeyUp(code) => {
                self.input.release(code);
                Action::Continue
            },
            InputEvent::PointerMoved(x, y) => {
                self.input.move_pointer(x, y);
                Action::Continue
            },
            InputEvent::Scroll(lines) => {
                self.camera.zoom_step(lines);
                Action::Continue
            },
            InputEvent::Closed => Action::Stop,
        }
    }

    /// Reduces a batch of events, all of them and in order. The result is
    /// `Stop` if the window was closed among them.
    pub fn handle_input(&mut self, events: &Vec<InputEvent>) -> (action: Action)
        requires
            old(self).wf(),
        ensures
            final(self).wf(),
            final(self).snapshot() == spec_reduce(old(self).snapshot(), events@),
            action == Action::Stop <==> events@.contains(InputEvent::Closed),
            action == Action::Continue <==> !events@.contains(InputEvent::Closed),
            final(self).camera.center == old(self).camera.center,
            final(self).clock == old(self).clock,
            final(self).grid == old(self).grid,
            final(self).viewport_w == old(self).viewport_w,
            final(self).viewport_h == old(self).viewport_h,
            final(self).bindings == old(self).bindings,
    {
        let ghost before = *self;
        let mut action: Action = Action::Continue;
        let mut i: usize = 0;
        proof {
            assert(events@.take(0) =~= Seq::<InputEvent>::empty());
        }
        while i < events.len()
            invariant
                i <= events.len(),
                self.wf(),
                self.snapshot() == spec_reduce(before.snapshot(), events@.take(i as int)),
                action == Action::Stop <==> events@.take(i as int).contains(InputEvent::Closed),
                action == Action::Continue <==> !events@.take(i as int).contains(
                    InputEvent::Closed,
                ),
                self.camera.center == before.camera.center,
                self.clock == before.clock,
                self.grid == before.grid,
                self.viewport_w == before.viewport_w,
                self.viewport_h == before.viewport_h,
                self.bindings == before.bindings,
            decreases events.len() - i,
        {
            let event: InputEvent = events[i];
            proof {
                let next = events@.take(i + 1);
                assert(next.drop_last() =~= events@.take(i as int));
                assert(next.last() == event);
                if events@.take(i as int).contains(InputEvent::Closed) {
                    let j = choose|j: int|
                        0 <= j < i && events@.take(i as int)[j] == InputEvent::Closed;
                    assert(next[j] == InputEvent::Closed);
                }
                if event == InputEvent::Closed {
                    assert(next[i as int] == InputEvent::Closed);
                }
                if next.contains(InputEvent::Closed) {
                    let j = choose|j: int| 0 <= j < i + 1 && next[j] == InputEvent::Closed;
                    if j < i {
                        assert(events@.take(i as int)[j] == InputEvent::Closed);
                    }
                }
            }
            match self.apply_event(event) {
                Action::Stop => {
                    action = Action::Stop;
                },
                Action::Continue => {},
            }
            i = i + 1;
        }
        proof {
            assert(events@.take(i as int) =~= events@);
        }
        action
    }

    /// Where the held arrow keys point: opposite keys cancel.
    pub fn direction(&self) -> (direction: Direction)
        ensures
            direction == spec_direction(self.input.held(), self.bindings),
            direction.wf(),
    {
        Direction {
            x: self.input.get_key_direction(self.bindings.right, self.bindings.left),
            y: self.input.get_key_direction(self.bindings.up, self.bindings.down),
        }
    }

    /// The frame that starts at the time `now_ns`: ticks the clock, then
    /// moves the camera for the time the tick reported, the way the held
    /// arrow keys point.
    pub fn update_at(&mut self, now_ns: u64)
        requires
            old(self).wf(),
        ensures
            final(self).wf(),
            final(self).clock.last == Some(now_ns),
            final(self).clock.delta_ns == spec_tick(old(self).clock.last, now_ns),
            final(self).camera.center == spec_advance(
                old(self).camera.center,
                spec_direction(old(self).input.held(), old(self).bindings),
                spec_tick(old(self).clock.last, now_ns) as int,
            ),
            final(self).camera.zoom == old(self).camera.zoom,
            final(self).input == old(self).input,
            final(self).grid == old(self).grid,
            final(self).viewport_w == old(self).viewport_w,
            final(self).viewport_h == old(self).viewport_h,
            final(self).bindings == old(self).bindings,
    {
        let delta_ns: u64 = self.clock.tick_at(now_ns);
        let direction: Direction = self.direction();
        self.camera.advance(direction, delta_ns);
    }

    /// The frame that starts now, by the machine's high-resolution counter:
    /// as `update_at` does for the time that the counter shows.
    pub fn update(&mut self)
        requires
            old(self).wf(),
        ensures
            final(self).wf(),
            final(self).clock.last.is_some(),
            final(self).clock.delta_ns == spec_tick(
                old(self).clock.last,
                final(self).clock.last.unwrap(),
            ),
            final(self).camera.center == spec_advance(
                old(self).camera.center,
                spec_direction(old(self).input.held(), old(self).bindings),
                final(self).clock.delta_ns as int,
            ),
            final(self).camera.zoom == old(self).camera.zoom,
            final(self).input == old(self).input,
            final(self).grid == old(self).grid,
            final(self).viewport_w == old(self).viewport_w,
            final(self).viewport_h == old(self).viewport_h,
            final(self).bindings == old(self).bindings,
    {
        let delta_ns: u64 = self.clock.tick();
        let direction: Direction = self.direction();
        self.camera.advance(direction, delta_ns);
    }

    /// The board point under the pointer, from the camera as it is now.
    pub fn pointer_board(&self) -> (at: Option<Point>)
        requires
            self.wf(),
        ensures
            at == spec_pointer_board(
                self.input.pointer,
                self.viewport_w,
                self.viewport_h,
                self.camera,
            ),
    {
        match self.input.pointer {
            None => None,
            Some(pixel) => {
                match AspectCorrection::from_viewport(self.viewport_w, self.viewport_h) {
                    None => None,
                    Some(aspect) => {
                        match pixel_to_ndc(pixel.x, pixel.y, self.viewport_w, self.viewport_h) {
                            None => None,
                            Some(ndc) => Some(ndc_to_board(ndc, &self.camera, aspect)),
                        }
                    },
                }
            },
        }
    }

    /// The squares of this frame, in the order in which to draw them: one for
    /// each occupied cell, dimmed under the pointer, then the marker at the
    /// camera's centre. Nothing on an empty viewport.
    pub fn render(&self) -> (out: Vec<Primitive>)
        requires
            self.wf(),
        ensures
            self.viewport_w == 0 || self.viewport_h == 0 ==> out@.len() == 0,
            self.viewport_w > 0 && self.viewport_h > 0 ==> out@ == spec_frame(
                self.grid,
                self.camera,
                AspectCorrection { num: self.viewport_h, den: self.viewport_w },
                spec_pointer_board(
                    self.input.pointer,
                    self.viewport_w,
                    self.viewport_h,
                    self.camera,
                ),
            ),
    {
        match AspectCorrection::from_viewport(self.viewport_w, self.viewport_h) {
            None => Vec::new(),
            Some(aspect) => {
                let pointer: Option<Point> = self.pointer_board();
                frame_primitives(&self.grid, &self.camera, aspect, pointer)
            },
        }
    }
}

} // verus!

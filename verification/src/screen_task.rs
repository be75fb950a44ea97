//! The render task: a loop that looks at the store without ever waiting for
//! it and draws a frame no more often than the frame interval allows.
//!
//! The inertial reading is looked at and left in place. The pending touch
//! reading is taken: whoever reads it, the overlay or a pointer input
//! device, gets each event once and leaves the slot empty.

use crate::gyroscope_task::Orientation;
use crate::screen_draw::{overlay, DrawContext, DrawEngine, DrawOp};
use crate::shared_state::{after_take, SharedSlot};
use crate::touch_task::{KeyEvent, Touch, DISPLAY_WIDTH};
use vstd::prelude::*;

verus! {

/// The target interval between two frames, in milliseconds.
pub const TARGET_FRAME_INTERVAL_MS: u64 = 20;

/// The frame-rate gate: lets a flush through only when at least `interval`
/// has passed on the monotonic clock since the flush before.
#[derive(Clone, Copy, Debug, PartialEq, Eq)]
pub struct FrameGate {
    /// The least time from one flush to the next, in clock units.
    pub interval: u64,
    /// The clock at the last flush, if there has been one.
    pub last_flush: Option<u64>,
}

impl FrameGate {
    /// Whether a flush is due at `now`: always for the first frame, and
    /// afterwards once `interval` has passed since the last flush.
    pub open spec fn due(self, now: u64) -> bool {
        match self.last_flush {
            Some(last) => now >= last + self.interval,
            None => true,
        }
    }

    /// The frame gate after it was asked at `now`.
    pub open spec fn asked(self, now: u64) -> Self {
        if self.due(now) {
            FrameGate { interval: self.interval, last_flush: Some(now) }
        } else {
            self
        }
    }

    /// The frame gate after it was asked at each of `times` in turn.
    pub open spec fn asked_all(self, times: Seq<u64>) -> Self
        decreases times.len(),
    {
        if times.len() == 0 {
            self
        } else {
            self.asked_all(times.drop_last()).asked(times.last())
        }
    }

    /// Whether the frame gate, asked at each of `times` in turn, lets a
    /// flush through at the time with this position.
    pub open spec fn flushes_at(self, times: Seq<u64>, position: int) -> bool {
        self.asked_all(times.take(position)).due(times[position])
    }

    /// A gate that has let nothing through yet.
    pub fn new(interval: u64) -> (gate: Self)
        ensures
            gate == (FrameGate { interval, last_flush: None }),
    {
        FrameGate { interval, last_flush: None }
    }

    /// Asks the frame gate at `now`. Where it answers `true` the caller flushes,
    /// and the frame gate takes `now` as the time of that flush.
    pub fn poll(&mut self, now: u64) -> (flush: bool)
        ensures
            flush == old(self).due(now),
            *final(self) == old(self).asked(now),
    {
        let due = match self.last_flush {
            Some(last) => now >= last && now - last >= self.interval,
            None => true,
        };
        if due {
            self.last_flush = Some(now);
        }
        due
    }
}

/// Once a flush went through at some time, the frame gate remembers that
/// time or a later one, and keeps its interval.
pub proof fn last_flush_only_moves_on(gate: FrameGate, times: Seq<u64>, first: int, later: int)
    requires
        0 <= first < later <= times.len(),
        gate.flushes_at(times, first),
    ensures
        gate.asked_all(times.take(later)).interval == gate.interval,
        gate.asked_all(times.take(later)).last_flush matches Some(last) && last >= times[first],
    decreases later,
{
    let before = times.take(later).drop_last();
    assert(before == times.take(later - 1));
    assert(times.take(later).last() == times[later - 1]);
    if later - 1 > first {
        last_flush_only_moves_on(gate, times, first, later - 1);
    } else {
        interval_stays(gate, times.take(first));
    }
}

/// Asking never changes the interval.
pub proof fn interval_stays(gate: FrameGate, times: Seq<u64>)
    ensures
        gate.asked_all(times).interval == gate.interval,
    decreases times.len(),
{
    if times.len() > 0 {
        interval_stays(gate, times.drop_last());
    }
}

/// However often and at whatever times the frame gate is asked, any two
/// flushes that it lets through are at least `interval` apart.
pub proof fn flushes_keep_their_distance(gate: FrameGate, times: Seq<u64>, first: int, second: int)
    requires
        0 <= first < second < times.len(),
        gate.flushes_at(times, first),
        gate.flushes_at(times, second),
    ensures
        times[second] - times[first] >= gate.interval,
{
    last_flush_only_moves_on(gate, times, first, second);
}

/// What the render task asks its driver loop to do after an iteration.
#[derive(Clone, Copy, Debug, PartialEq, Eq, Structural)]
pub enum RenderAction {
    /// Clear the frame buffer, carry out the frame's operations and push
    /// the buffer to the display.
    Flush,
    /// Draw nothing; wait a moment and come again.
    Skip,
}

/// The render task as a value.
pub struct RenderState {
    pub context: DrawContext,
    pub gate: FrameGate,
    /// The last frame composed, in drawing order.
    pub frame: Seq<DrawOp>,
}

/// The task after an iteration at `now` in which the snapshot attempt on
/// the inertial reading and the take on the pending touch reading came back
/// as given. The context takes both in and counts the iteration; a new
/// frame is composed only when the frame gate lets it through.
pub open spec fn render_step(
    state: RenderState,
    orientation: Option<Orientation>,
    cursor: Option<Option<KeyEvent>>,
    now: u64,
) -> RenderState {
    let context = state.context.observed(orientation, cursor);
    RenderState {
        context,
        gate: state.gate.asked(now),
        frame: if state.gate.due(now) {
            overlay(DISPLAY_WIDTH, context)
        } else {
            state.frame
        },
    }
}

/// What one iteration of the render loop is given: the outcome of its
/// snapshot attempt, that of its take, and the clock.
pub struct RenderInput {
    pub orientation: Option<Orientation>,
    pub cursor: Option<Option<KeyEvent>>,
    pub now: u64,
}

/// The task after one iteration for each of `inputs`, in turn.
pub open spec fn rendered(state: RenderState, inputs: Seq<RenderInput>) -> RenderState
    decreases inputs.len(),
{
    if inputs.len() == 0 {
        state
    } else {
        let last = inputs.last();
        render_step(rendered(state, inputs.drop_last()), last.orientation, last.cursor, last.now)
    }
}

/// The clock at each of `inputs`.
pub open spec fn clock_of(inputs: Seq<RenderInput>) -> Seq<u64> {
    Seq::new(inputs.len(), |position: int| inputs[position].now)
}

/// Whether the iteration with this position flushes.
pub open spec fn flushes_in(state: RenderState, inputs: Seq<RenderInput>, position: int) -> bool {
    rendered(state, inputs.take(position)).gate.due(inputs[position].now)
}

/// The render loop asks its frame gate once per iteration, at the
/// iteration's clock, and nothing else touches the frame gate.
pub proof fn render_loop_asks_once_per_iteration(state: RenderState, inputs: Seq<RenderInput>)
    ensures
        rendered(state, inputs).gate == state.gate.asked_all(clock_of(inputs)),
    decreases inputs.len(),
{
    if inputs.len() > 0 {
        render_loop_asks_once_per_iteration(state, inputs.drop_last());
        assert(clock_of(inputs).drop_last() == clock_of(inputs.drop_last()));
    }
}

/// The render loop never flushes more often than its frame interval
/// allows: whatever the store shows and the clock says, any two iterations
/// that flush are at least the interval apart.
pub proof fn render_loop_keeps_the_frame_interval(
    state: RenderState,
    inputs: Seq<RenderInput>,
    first: int,
    second: int,
)
    requires
        0 <= first < second < inputs.len(),
        flushes_in(state, inputs, first),
        flushes_in(state, inputs, second),
    ensures
        inputs[second].now - inputs[first].now >= state.gate.interval,
{
    let times = clock_of(inputs);
    render_loop_asks_once_per_iteration(state, inputs.take(first));
    render_loop_asks_once_per_iteration(state, inputs.take(second));
    assert(clock_of(inputs.take(first)) == times.take(first));
    assert(clock_of(inputs.take(second)) == times.take(second));
    flushes_keep_their_distance(state.gate, times, first, second);
}

/// The part of the render task that reaches no slot: its picture of the
/// store, the frame gate and the frame composer.
pub struct Renderer {
    context: DrawContext,
    gate: FrameGate,
    engine: DrawEngine,
}

impl View for Renderer {
    type V = RenderState;

    closed spec fn view(&self) -> RenderState {
        RenderState { context: self.context, gate: self.gate, frame: self.engine@ }
    }
}

impl Renderer {
    /// A renderer that has drawn nothing, with the frame interval it is to
    /// keep.
    pub fn new(frame_interval: u64) -> (renderer: Self)
        ensures
            renderer@.context == DrawContext::initial(),
            renderer@.gate == (FrameGate { interval: frame_interval, last_flush: None }),
            renderer@.frame == Seq::<DrawOp>::empty(),
    {
        Renderer {
            context: DrawContext::default(),
            gate: FrameGate::new(frame_interval),
            engine: DrawEngine::new(),
        }
    }

    pub fn context(&self) -> (context: DrawContext)
        ensures
            context == self@.context,
    {
        self.context
    }

    /// The operations of the last frame composed, in drawing order.
    pub fn frame(&self) -> (list: &Vec<DrawOp>)
        ensures
            list@ == self@.frame,
    {
        self.engine.ops()
    }

    /// One iteration of the render loop, given what the snapshot attempt on
    /// the inertial reading and the take on the pending touch reading
    /// returned, and what the clock shows. Both have been made by the
    /// caller; the renderer has no handle on the store.
    pub fn render(
        &mut self,
        orientation: Option<Orientation>,
        cursor: Option<Option<KeyEvent>>,
        now: u64,
    ) -> (action: RenderAction)
        ensures
            final(self)@ == render_step(old(self)@, orientation, cursor, now),
            action == if old(self)@.gate.due(now) {
                RenderAction::Flush
            } else {
                RenderAction::Skip
            },
    {
        self.context.observe(orientation, cursor);
        if self.gate.poll(now) {
            self.engine.draw(DISPLAY_WIDTH, &self.context);
            RenderAction::Flush
        } else {
            RenderAction::Skip
        }
    }
}

/// What the render task owns: its handles on the two slots and its
/// renderer.
pub struct ThreadDisplayData {
    shared_orientation: SharedSlot<Orientation>,
    shared_cursor: SharedSlot<Option<KeyEvent>>,
    renderer: Renderer,
}

impl View for ThreadDisplayData {
    type V = RenderState;

    closed spec fn view(&self) -> RenderState {
        self.renderer@
    }
}

impl ThreadDisplayData {
    /// The lock of the reading's slot.
    pub closed spec fn orientation_lock(&self) -> std::sync::Mutex<Orientation> {
        self.shared_orientation.lock()
    }

    /// The lock of the pending touch reading's slot.
    pub closed spec fn cursor_lock(&self) -> std::sync::Mutex<Option<KeyEvent>> {
        self.shared_cursor.lock()
    }

    /// What the task has written to the reading's slot through its handle.
    pub closed spec fn orientation_writes(&self) -> Seq<Orientation> {
        self.shared_orientation.writes()
    }

    /// What the task has written to the pending touch reading's slot.
    pub closed spec fn cursor_writes(&self) -> Seq<Option<KeyEvent>> {
        self.shared_cursor.writes()
    }

    /// A task that has drawn nothing, with its handles on the two slots
    /// and the frame interval it is to keep.
    pub fn new(
        shared_orientation: SharedSlot<Orientation>,
        shared_cursor: SharedSlot<Option<KeyEvent>>,
        frame_interval: u64,
    ) -> (data: Self)
        ensures
            data@.context == DrawContext::initial(),
            data@.gate == (FrameGate { interval: frame_interval, last_flush: None }),
            data@.frame == Seq::<DrawOp>::empty(),
            data.orientation_writes() == shared_orientation.writes(),
            data.cursor_writes() == shared_cursor.writes(),
            data.orientation_lock() == shared_orientation.lock(),
            data.cursor_lock() == shared_cursor.lock(),
    {
        ThreadDisplayData {
            shared_orientation,
            shared_cursor,
            renderer: Renderer::new(frame_interval),
        }
    }

    /// Another handle on the pending touch reading's slot, for a pointer
    /// input device that reads the slot on its own.
    pub fn share_cursor(&self) -> (handle: SharedSlot<Option<KeyEvent>>)
        ensures
            handle.lock() == self.cursor_lock(),
            handle.writes() == Seq::<Option<KeyEvent>>::empty(),
    {
        self.shared_cursor.share()
    }

    pub fn context(&self) -> (context: DrawContext)
        ensures
            context == self@.context,
    {
        self.renderer.context()
    }

    /// The operations of the last frame composed, in drawing order.
    pub fn frame(&self) -> (list: &Vec<DrawOp>)
        ensures
            list@ == self@.frame,
    {
        self.renderer.frame()
    }
}

/// One iteration of the render loop at `now` on the monotonic clock.
///
/// It tries both slots once, without waiting: the inertial reading is
/// copied and left in place; the pending touch reading is taken, which
/// leaves the slot empty where it held an event. It then goes on as
/// [`Renderer::render`] says for what the two attempts returned. The task
/// writes nothing else to the store, and its handles stay on their slots.
pub fn thread_display(data: &mut ThreadDisplayData, now: u64) -> (action: RenderAction)
    ensures
        exists|orientation: Option<Orientation>, cursor: Option<Option<KeyEvent>>|
            {
                &&& final(data)@ == #[trigger] render_step(old(data)@, orientation, cursor, now)
                &&& final(data).cursor_writes() == after_take(old(data).cursor_writes(), cursor)
            },
        action == if old(data)@.gate.due(now) {
            RenderAction::Flush
        } else {
            RenderAction::Skip
        },
        final(data).orientation_writes() == old(data).orientation_writes(),
        final(data).orientation_lock() == old(data).orientation_lock(),
        final(data).cursor_lock() == old(data).cursor_lock(),
{
    let orientation = data.shared_orientation.read_snapshot();
    let cursor = data.shared_cursor.take_snapshot();
    data.renderer.render(orientation, cursor, now)
}

/// The state of a pointer input device.
#[derive(Clone, Copy, Debug, PartialEq, Eq, Structural)]
pub struct PointerInput {
    pub pressed: bool,
    pub x: i32,
    pub y: i32,
}

/// The pointer that a take on the pending touch reading stands for:
/// pressed at the event's pixel where it got an event with the finger down
/// or in contact, released at the origin in every other case.
pub open spec fn pointer_of(taken: Option<Option<KeyEvent>>) -> PointerInput {
    match taken {
        Some(Some(key)) if key.touch_type != Touch::Up => PointerInput {
            pressed: true,
            x: key.x as i32,
            y: key.y as i32,
        },
        _ => PointerInput { pressed: false, x: 0, y: 0 },
    }
}

/// Turns what a take on the pending touch reading returned into the state
/// of a pointer input device.
pub fn pointer_input(taken: Option<Option<KeyEvent>>) -> (pointer: PointerInput)
    ensures
        pointer == pointer_of(taken),
{
    match taken {
        Some(Some(key)) => match key.touch_type {
            Touch::Up => PointerInput { pressed: false, x: 0, y: 0 },
            Touch::Down | Touch::Contact => PointerInput {
                pressed: true,
                x: key.x as i32,
                y: key.y as i32,
            },
        },
        _ => PointerInput { pressed: false, x: 0, y: 0 },
    }
}

/// One reading of a pointer input device: takes the pending touch reading,
/// as the render loop does, and answers with the pointer that it stands
/// for. An event is reported once; the next reading finds the slot empty
/// and reports the pointer released, unless a new event has come.
pub fn read_pointer(cursor: &mut SharedSlot<Option<KeyEvent>>) -> (pointer: PointerInput)
    ensures
        exists|taken: Option<Option<KeyEvent>>|
            {
                &&& pointer == #[trigger] pointer_of(taken)
                &&& final(cursor).writes() == after_take(old(cursor).writes(), taken)
            },
        final(cursor).lock() == old(cursor).lock(),
{
    let taken = cursor.take_snapshot();
    pointer_input(taken)
}

} // verus!

//! The touch acquisition task: reset, mandatory configuration, then a loop
//! that turns every decodable touch event into the pending touch reading.
//!
//! The pending reading is an edge, not a level: whoever reads it takes the
//! event and leaves the slot empty, in one critical section, so an event is
//! seen once. An event that nobody has taken yet is overwritten by the next.
//! The task itself writes the slot only when it has decoded an event.

use crate::fault::SetupError;
use crate::shared_state::SharedSlot;
use vstd::prelude::*;

verus! {

/// Width of the display, and of the touch panel that covers it, in pixels.
pub const DISPLAY_WIDTH: u16 = 240;

/// Height of the display and of the touch panel, in pixels.
pub const DISPLAY_HEIGHT: u16 = 240;

/// What the finger did.
#[derive(Clone, Copy, Debug, PartialEq, Eq, Structural)]
pub enum Touch {
    Down,
    Up,
    Contact,
}

/// One event as the controller reports it: panel coordinates and the
/// controller's action code.
#[derive(Clone, Copy, Debug, PartialEq, Eq, Structural)]
pub struct TouchEvent {
    pub x: i32,
    pub y: i32,
    pub action: u8,
}

/// One event on the display: what the finger did, and at which pixel.
#[derive(Clone, Copy, Debug, PartialEq, Eq, Structural)]
pub struct KeyEvent {
    pub touch_type: Touch,
    pub x: u16,
    pub y: u16,
}

/// The pixel in `[0, extent)` nearest to `raw`.
pub open spec fn clamped(raw: int, extent: int) -> int
    recommends
        extent > 0,
{
    if raw < 0 {
        0
    } else if raw >= extent {
        extent - 1
    } else {
        raw
    }
}

/// The meaning of the controller's action code, where it has one.
pub open spec fn decoded_action(action: u8) -> Option<Touch> {
    if action == 0 {
        Some(Touch::Down)
    } else if action == 1 {
        Some(Touch::Up)
    } else if action == 2 {
        Some(Touch::Contact)
    } else {
        None
    }
}

/// Maps a panel coordinate onto a display of `extent` pixels: unchanged
/// where it is on the display, else the nearest edge pixel.
pub fn clamp_axis(raw: i32, extent: u16) -> (pixel: u16)
    requires
        extent > 0,
    ensures
        pixel == clamped(raw as int, extent as int),
        pixel < extent,
{
    if raw < 0 {
        0
    } else if raw >= extent as i32 {
        extent - 1
    } else {
        raw as u16
    }
}

impl TouchEvent {
    /// The key event that this raw event stands for on a display of
    /// `width` by `height` pixels.
    pub open spec fn key(self, width: u16, height: u16) -> Option<KeyEvent> {
        if width == 0 || height == 0 {
            None
        } else {
            match decoded_action(self.action) {
                Some(touch_type) => Some(
                    KeyEvent {
                        touch_type,
                        x: clamped(self.x as int, width as int) as u16,
                        y: clamped(self.y as int, height as int) as u16,
                    },
                ),
                None => None,
            }
        }
    }

    /// Decodes the event. `None` where the action code has no meaning or
    /// the display has no pixels; in every other case a key event whose
    /// coordinates lie on the display.
    pub fn report_key(&self, width: u16, height: u16) -> (key: Option<KeyEvent>)
        ensures
            key == self.key(width, height),
            key matches Some(k) ==> k.x < width && k.y < height,
    {
        if width == 0 || height == 0 {
            return None;
        }
        let touch_type = if self.action == 0 {
            Touch::Down
        } else if self.action == 1 {
            Touch::Up
        } else if self.action == 2 {
            Touch::Contact
        } else {
            return None;
        };
        Some(KeyEvent { touch_type, x: clamp_axis(self.x, width), y: clamp_axis(self.y, height) })
    }
}

/// One configuration write to the touch controller, as the values to
/// program.
#[derive(Clone, Copy, Debug, PartialEq, Eq, Structural)]
pub enum TouchSetting {
    /// The interrupt sources.
    IrqCtl { en_test: bool, en_touch: bool, en_change: bool, en_motion: bool, en_once_wlp: bool },
    /// The gestures that the controller detects.
    MotionMask {
        en_double_click: bool,
        en_continuous_left_right: bool,
        en_continuous_up_down: bool,
    },
    LpScanIdac(u8),
    LpScanFreq(u8),
    LpScanWin(u8),
    LpScanTh(u8),
    MotionS1Angle(u8),
    LongPressTime(u8),
    AutoReset(u8),
}

/// The configuration of the touch controller, in the order it is written.
pub open spec fn touch_plan() -> Seq<TouchSetting> {
    seq![
        TouchSetting::IrqCtl {
            en_test: false,
            en_touch: true,
            en_change: true,
            en_motion: true,
            en_once_wlp: true,
        },
        TouchSetting::MotionMask {
            en_double_click: true,
            en_continuous_left_right: true,
            en_continuous_up_down: true,
        },
        TouchSetting::LpScanIdac(1),
        TouchSetting::LpScanFreq(7),
        TouchSetting::LpScanWin(3),
        TouchSetting::LpScanTh(48),
        TouchSetting::MotionS1Angle(0),
        TouchSetting::LongPressTime(10),
        TouchSetting::AutoReset(5),
    ]
}

/// Builds the configuration of the touch controller. Every write of it is
/// mandatory: the first that fails ends the task.
pub fn setup_touch() -> (plan: Vec<TouchSetting>)
    ensures
        plan@ == touch_plan(),
{
    let mut plan: Vec<TouchSetting> = Vec::new();
    plan.push(
        TouchSetting::IrqCtl {
            en_test: false,
            en_touch: true,
            en_change: true,
            en_motion: true,
            en_once_wlp: true,
        },
    );
    plan.push(
        TouchSetting::MotionMask {
            en_double_click: true,
            en_continuous_left_right: true,
            en_continuous_up_down: true,
        },
    );
    plan.push(TouchSetting::LpScanIdac(1));
    plan.push(TouchSetting::LpScanFreq(7));
    plan.push(TouchSetting::LpScanWin(3));
    plan.push(TouchSetting::LpScanTh(48));
    plan.push(TouchSetting::MotionS1Angle(0));
    plan.push(TouchSetting::LongPressTime(10));
    plan.push(TouchSetting::AutoReset(5));
    proof {
        assert(plan@ =~= touch_plan());
    }
    plan
}

/// Where the task stands, named by what it is waiting for.
///
/// `Uninitialized`, `Reset` and `Configuring` are passed through once, in
/// that order, and each of them can end in `Stopped`. `AwaitingInterrupt`
/// and `Reading` are the two halves of the streaming loop, which the task
/// never leaves.
#[derive(Clone, Copy, Debug, PartialEq, Eq, Structural)]
pub enum TouchPhase {
    /// Waiting for the interrupt and reset pins to be claimed.
    Uninitialized,
    /// Waiting for the end of the reset pulse sequence.
    Reset,
    /// Waiting for the outcome of the write of the setting at this position.
    Configuring(usize),
    /// Streaming: waiting for a rising edge on the interrupt pin.
    AwaitingInterrupt,
    /// Streaming: waiting for the event read.
    Reading,
    /// Ended by a setup error.
    Stopped(SetupError),
}

/// What the task asks its driver loop to do next.
#[derive(Clone, Copy, Debug, PartialEq, Eq, Structural)]
pub enum TouchAction {
    /// Claim the interrupt pin as an input and the reset pin as an output.
    ClaimPins,
    /// Drive the reset line through its pulse sequence.
    ResetController,
    /// Write one setting to the controller.
    Configure(TouchSetting),
    /// Suspend until the interrupt pin sees a rising edge. No timeout.
    AwaitInterrupt,
    /// Read one event from the controller.
    ReadEvent,
    /// Leave the task with this error.
    Stop(SetupError),
}

/// What the driver loop reports back.
#[derive(Clone, Copy, Debug, PartialEq, Eq)]
pub enum TouchTaskEvent {
    PinsClaimed { interrupt_ok: bool, reset_ok: bool },
    ResetDone { ok: bool },
    Configured { ok: bool },
    /// The wait has ended, with or without an error.
    InterruptEdge { ok: bool },
    /// The outcome of the event read: `None` where the read failed,
    /// `Some(None)` where the controller had nothing to report.
    EventRead { event: Option<Option<TouchEvent>> },
}

/// The task as a value: its phase and all it has written to the store.
pub struct TouchState {
    pub phase: TouchPhase,
    pub writes: Seq<Option<KeyEvent>>,
}

/// The request that a task in `phase` has outstanding.
pub open spec fn touch_pending(phase: TouchPhase) -> TouchAction {
    match phase {
        TouchPhase::Uninitialized => TouchAction::ClaimPins,
        TouchPhase::Reset => TouchAction::ResetController,
        TouchPhase::Configuring(position) => if position < touch_plan().len() {
            TouchAction::Configure(touch_plan()[position as int])
        } else {
            TouchAction::AwaitInterrupt
        },
        TouchPhase::AwaitingInterrupt => TouchAction::AwaitInterrupt,
        TouchPhase::Reading => TouchAction::ReadEvent,
        TouchPhase::Stopped(error) => TouchAction::Stop(error),
    }
}

/// The key event that an event read yields on this display, if any.
pub open spec fn decoded(event: Option<Option<TouchEvent>>) -> Option<KeyEvent> {
    match event {
        Some(Some(raw)) => raw.key(DISPLAY_WIDTH, DISPLAY_HEIGHT),
        _ => None,
    }
}

/// The task after `event`.
///
/// A pin that cannot be claimed, a failed reset and a failed configuration
/// write each stop the task. Once streaming, the event is read after every
/// wait, failed or not. A read that yields a key event writes it to the
/// store; any other read writes nothing. An event that does not answer the
/// outstanding request is ignored.
pub open spec fn touch_step(state: TouchState, event: TouchTaskEvent) -> TouchState {
    match (state.phase, event) {
        (TouchPhase::Uninitialized, TouchTaskEvent::PinsClaimed { interrupt_ok, reset_ok }) => {
            TouchState {
                phase: if !interrupt_ok {
                    TouchPhase::Stopped(SetupError::InterruptPin)
                } else if !reset_ok {
                    TouchPhase::Stopped(SetupError::ResetPin)
                } else {
                    TouchPhase::Reset
                },
                ..state
            }
        },
        (TouchPhase::Reset, TouchTaskEvent::ResetDone { ok }) => TouchState {
            phase: if ok {
                TouchPhase::Configuring(0)
            } else {
                TouchPhase::Stopped(SetupError::Reset)
            },
            ..state
        },
        (TouchPhase::Configuring(position), TouchTaskEvent::Configured { ok }) => TouchState {
            phase: if !ok {
                TouchPhase::Stopped(SetupError::Configuration(position))
            } else if position + 1 < touch_plan().len() {
                TouchPhase::Configuring((position + 1) as usize)
            } else {
                TouchPhase::AwaitingInterrupt
            },
            ..state
        },
        (TouchPhase::AwaitingInterrupt, TouchTaskEvent::InterruptEdge { ok }) => TouchState {
            phase: TouchPhase::Reading,
            ..state
        },
        (TouchPhase::Reading, TouchTaskEvent::EventRead { event }) => TouchState {
            phase: TouchPhase::AwaitingInterrupt,
            writes: match decoded(event) {
                Some(key) => state.writes.push(Some(key)),
                None => state.writes,
            },
        },
        _ => state,
    }
}

/// What the touch task owns: its handle on the pending reading's slot and
/// its own progress.
pub struct TouchTaskData {
    shared_cursor: SharedSlot<Option<KeyEvent>>,
    phase: TouchPhase,
}

impl View for TouchTaskData {
    type V = TouchState;

    closed spec fn view(&self) -> TouchState {
        TouchState { phase: self.phase, writes: self.shared_cursor.writes() }
    }
}

impl TouchTaskData {
    /// The lock of the slot that the task writes.
    pub closed spec fn lock(&self) -> std::sync::Mutex<Option<KeyEvent>> {
        self.shared_cursor.lock()
    }

    /// A task that has not started, with its handle on the pending
    /// reading's slot.
    pub fn new(shared_cursor: SharedSlot<Option<KeyEvent>>) -> (data: Self)
        ensures
            data@.phase == TouchPhase::Uninitialized,
            data@.writes == shared_cursor.writes(),
            data.lock() == shared_cursor.lock(),
    {
        TouchTaskData { shared_cursor, phase: TouchPhase::Uninitialized }
    }

    pub fn phase(&self) -> (phase: TouchPhase)
        ensures
            phase == self@.phase,
    {
        self.phase
    }

    /// The request that is outstanding: the first one for a new task, and
    /// afterwards the one that the last call of [`touch_task`] returned.
    pub fn pending(&self) -> (action: TouchAction)
        ensures
            action == touch_pending(self@.phase),
    {
        match self.phase {
            TouchPhase::Uninitialized => TouchAction::ClaimPins,
            TouchPhase::Reset => TouchAction::ResetController,
            TouchPhase::Configuring(position) => {
                let plan = setup_touch();
                if position < plan.len() {
                    TouchAction::Configure(plan[position])
                } else {
                    TouchAction::AwaitInterrupt
                }
            },
            TouchPhase::AwaitingInterrupt => TouchAction::AwaitInterrupt,
            TouchPhase::Reading => TouchAction::ReadEvent,
            TouchPhase::Stopped(error) => TouchAction::Stop(error),
        }
    }
}

/// One turn of the touch task: takes in what the driver loop reports and
/// answers with the next request.
pub fn touch_task(data: &mut TouchTaskData, event: TouchTaskEvent) -> (action: TouchAction)
    ensures
        final(data)@ == touch_step(old(data)@, event),
        action == touch_pending(final(data)@.phase),
        final(data).lock() == old(data).lock(),
{
    match (data.phase, event) {
        (TouchPhase::Uninitialized, TouchTaskEvent::PinsClaimed { interrupt_ok, reset_ok }) => {
            if !interrupt_ok {
                data.phase = TouchPhase::Stopped(SetupError::InterruptPin);
            } else if !reset_ok {
                data.phase = TouchPhase::Stopped(SetupError::ResetPin);
            } else {
                data.phase = TouchPhase::Reset;
            }
        },
        (TouchPhase::Reset, TouchTaskEvent::ResetDone { ok }) => {
            if ok {
                data.phase = TouchPhase::Configuring(0);
            } else {
                data.phase = TouchPhase::Stopped(SetupError::Reset);
            }
        },
        (TouchPhase::Configuring(position), TouchTaskEvent::Configured { ok }) => {
            let plan = setup_touch();
            if !ok {
                data.phase = TouchPhase::Stopped(SetupError::Configuration(position));
            } else if position < plan.len() - 1 {
                data.phase = TouchPhase::Configuring(position + 1);
            } else {
                data.phase = TouchPhase::AwaitingInterrupt;
            }
        },
        (TouchPhase::AwaitingInterrupt, TouchTaskEvent::InterruptEdge { ok: _ }) => {
            data.phase = TouchPhase::Reading;
        },
        (TouchPhase::Reading, TouchTaskEvent::EventRead { event: read }) => {
            if let Some(Some(raw)) = read {
                if let Some(key) = raw.report_key(DISPLAY_WIDTH, DISPLAY_HEIGHT) {
                    data.shared_cursor.replace(Some(key));
                }
            }
            data.phase = TouchPhase::AwaitingInterrupt;
        },
        _ => {},
    }
    data.pending()
}

/// A coordinate off the display lands on the nearest edge pixel and never
/// wraps round: the pixel is no further from the raw coordinate than any
/// other pixel of the display is.
pub proof fn clamp_is_nearest(raw: int, extent: int, pixel: int)
    requires
        extent > 0,
        0 <= pixel < extent,
    ensures
        0 <= clamped(raw, extent) < extent,
        0 <= raw < extent ==> clamped(raw, extent) == raw,
        vstd::math::abs(raw - clamped(raw, extent)) <= vstd::math::abs(raw - pixel),
{
}

/// A read that decodes to no key event leaves the pending reading as it
/// was: the task writes nothing to the store.
pub proof fn no_event_writes_nothing(state: TouchState, event: Option<Option<TouchEvent>>)
    requires
        decoded(event) is None,
    ensures
        touch_step(state, TouchTaskEvent::EventRead { event }).writes == state.writes,
{
}

} // verus!

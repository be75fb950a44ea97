//! The debug overlay: what the render task draws for one frame, as a list of
//! drawing operations for the display driver to carry out.

use crate::gyroscope_task::Orientation;
use crate::touch_task::KeyEvent;
use arrayvec::ArrayString;
use core::fmt::Write;
use vstd::prelude::*;
use vstd::utf8::is_ascii_chars;

verus! {

/// Left edge of the overlay's left column, in pixels.
pub const LEFT_COLUMN: i32 = 10;

/// Baseline of the first angular-rate line.
pub const GYRO_TOP: i32 = 20;

/// Baseline of the first acceleration line.
pub const ACC_TOP: i32 = 65;

/// Distance between the baselines of two lines.
pub const LINE_PITCH: i32 = 20;

/// Diameter of the touch marker, and its offset up and left of the touch.
pub const MARKER_SIZE: u32 = 5;

/// What a line of the overlay shows.
#[derive(Clone, Copy, Debug, PartialEq, Eq, Structural)]
pub enum Readout {
    GyroX,
    GyroY,
    GyroZ,
    AccX,
    AccY,
    AccZ,
    Index,
    CounterLock,
    Counter,
    GyroscopeAlive,
    AccelerometerAlive,
    CursorX,
    CursorY,
}

/// The value on a line of the overlay.
#[derive(Clone, Copy, Debug, PartialEq, Eq, Structural)]
pub enum Value {
    /// One axis, as the bit pattern that the reading holds. It is printed
    /// with two decimals.
    Axis(u32),
    Number(u32),
    Flag(bool),
}

/// One drawing operation.
#[derive(Clone, Copy, Debug, PartialEq, Eq, Structural)]
pub enum DrawOp {
    /// The label of `readout` followed by `value`, with its baseline
    /// starting at `(x, y)`.
    Text { readout: Readout, value: Value, x: i32, y: i32 },
    /// A filled circle whose bounding box has its top left corner at
    /// `(x, y)`.
    Marker { x: i32, y: i32, diameter: u32 },
}

impl Readout {
    /// The text that precedes the value.
    pub open spec fn label_text(self) -> Seq<char> {
        match self {
            Readout::GyroX => "Gyro.x:"@,
            Readout::GyroY => "Gyro.y:"@,
            Readout::GyroZ => "Gyro.z:"@,
            Readout::AccX => "Acc.x:"@,
            Readout::AccY => "Acc.y:"@,
            Readout::AccZ => "Acc.z:"@,
            Readout::Index => "idx:"@,
            Readout::CounterLock => "counter_lock:"@,
            Readout::Counter => "counter:"@,
            Readout::GyroscopeAlive => "act:"@,
            Readout::AccelerometerAlive => "act:"@,
            Readout::CursorX => "x:"@,
            Readout::CursorY => "y:"@,
        }
    }

    /// The text that precedes the value.
    pub fn label(&self) -> (text: &'static str)
        ensures
            text@ == self.label_text(),
    {
        match self {
            Readout::GyroX => "Gyro.x:",
            Readout::GyroY => "Gyro.y:",
            Readout::GyroZ => "Gyro.z:",
            Readout::AccX => "Acc.x:",
            Readout::AccY => "Acc.y:",
            Readout::AccZ => "Acc.z:",
            Readout::Index => "idx:",
            Readout::CounterLock => "counter_lock:",
            Readout::Counter => "counter:",
            Readout::GyroscopeAlive => "act:",
            Readout::AccelerometerAlive => "act:",
            Readout::CursorX => "x:",
            Readout::CursorY => "y:",
        }
    }
}

/// Every label is plain ASCII of at most thirteen characters.
pub proof fn labels_are_short(readout: Readout)
    ensures
        is_ascii_chars(readout.label_text()),
        readout.label_text().len() <= 13,
{
    reveal_strlit("Gyro.x:");
    reveal_strlit("Gyro.y:");
    reveal_strlit("Gyro.z:");
    reveal_strlit("Acc.x:");
    reveal_strlit("Acc.y:");
    reveal_strlit("Acc.z:");
    reveal_strlit("idx:");
    reveal_strlit("counter_lock:");
    reveal_strlit("counter:");
    reveal_strlit("act:");
    reveal_strlit("x:");
    reveal_strlit("y:");
}

/// Bytes that one line of text can take.
pub const LINE_CAPACITY: usize = 32;

/// `arrayvec::ArrayString`, carried as an opaque value.
#[verifier::external_type_specification]
#[verifier::external_body]
pub struct ExArrayString<const CAP: usize>(ArrayString<CAP>);

/// The text that a line buffer holds.
pub uninterp spec fn line_text(buffer: ArrayString<32>) -> Seq<char>;

/// `ArrayString::new`: an empty buffer.
#[verifier::external_body]
fn empty_line() -> (buffer: ArrayString<32>)
    ensures
        line_text(buffer) == Seq::<char>::empty(),
{
    ArrayString::new()
}

/// `ArrayString::clear`: the buffer is empty afterwards.
#[verifier::external_body]
fn clear_line(buffer: &mut ArrayString<32>)
    ensures
        line_text(*final(buffer)) == Seq::<char>::empty(),
{
    buffer.clear()
}

/// `ArrayString::push_str`: appends `text`. The buffer counts bytes and
/// panics when they do not fit; with ASCII on both sides a character is a
/// byte, and the text is required to fit.
#[verifier::external_body]
fn push_text(buffer: &mut ArrayString<32>, text: &str)
    requires
        is_ascii_chars(line_text(*old(buffer))),
        is_ascii_chars(text@),
        line_text(*old(buffer)).len() + text@.len() <= LINE_CAPACITY,
    ensures
        line_text(*final(buffer)) == line_text(*old(buffer)) + text@,
{
    buffer.push_str(text)
}

/// `write!` of an unsigned number into an `ArrayString`: appends its
/// decimal digits, which are ten at most and are required to fit.
#[verifier::external_body]
fn push_number(buffer: &mut ArrayString<32>, number: u32)
    requires
        is_ascii_chars(line_text(*old(buffer))),
        line_text(*old(buffer)).len() + 10 <= LINE_CAPACITY,
    ensures
        line_text(*final(buffer)) == line_text(*old(buffer)) + decimal_text(number as nat),
{
    let _ = write!(buffer, "{}", number);
}

/// The character of one decimal digit.
pub open spec fn digit(d: nat) -> char
    recommends
        d < 10,
{
    if d == 0 {
        '0'
    } else if d == 1 {
        '1'
    } else if d == 2 {
        '2'
    } else if d == 3 {
        '3'
    } else if d == 4 {
        '4'
    } else if d == 5 {
        '5'
    } else if d == 6 {
        '6'
    } else if d == 7 {
        '7'
    } else if d == 8 {
        '8'
    } else {
        '9'
    }
}

/// A number in decimal, without sign or leading zeros.
pub open spec fn decimal_text(n: nat) -> Seq<char>
    decreases n,
{
    if n < 10 {
        seq![digit(n)]
    } else {
        decimal_text(n / 10).push(digit(n % 10))
    }
}

/// The value as it stands on a line. An axis is printed by whoever draws
/// the line, so it adds nothing here.
pub open spec fn value_text(value: Value) -> Seq<char> {
    match value {
        Value::Axis(_) => Seq::empty(),
        Value::Number(number) => decimal_text(number as nat),
        Value::Flag(flag) => if flag {
            "true"@
        } else {
            "false"@
        },
    }
}

/// The text of a line as far as the library composes it: the label, and
/// after it the value unless that is an axis.
pub open spec fn composed(readout: Readout, value: Value) -> Seq<char> {
    readout.label_text() + value_text(value)
}

/// Decimal text is ASCII and, for a 32-bit number, ten digits at most.
pub proof fn decimal_text_is_short(n: nat)
    ensures
        is_ascii_chars(decimal_text(n)),
        decimal_text(n).len() >= 1,
        n < 10 ==> decimal_text(n).len() == 1,
        n < 100 ==> decimal_text(n).len() <= 2,
        n < 1_000 ==> decimal_text(n).len() <= 3,
        n < 10_000 ==> decimal_text(n).len() <= 4,
        n < 100_000 ==> decimal_text(n).len() <= 5,
        n < 1_000_000 ==> decimal_text(n).len() <= 6,
        n < 10_000_000 ==> decimal_text(n).len() <= 7,
        n < 100_000_000 ==> decimal_text(n).len() <= 8,
        n < 1_000_000_000 ==> decimal_text(n).len() <= 9,
        n < 10_000_000_000 ==> decimal_text(n).len() <= 10,
    decreases n,
{
    if n >= 10 {
        decimal_text_is_short(n / 10);
    }
}

/// The buffer in which the text of one line is composed before it is
/// drawn. It is reused from line to line.
pub struct LineBuffer {
    pub text: ArrayString<32>,
}

impl View for LineBuffer {
    type V = Seq<char>;

    open spec fn view(&self) -> Seq<char> {
        line_text(self.text)
    }
}

impl LineBuffer {
    pub fn new() -> (line: Self)
        ensures
            line@ == Seq::<char>::empty(),
    {
        LineBuffer { text: empty_line() }
    }

    /// Replaces the buffer's text with that of one line. Label and value
    /// always fit. Where the value is an axis, only the label is written
    /// and `false` comes back: the caller appends the axis.
    pub fn compose(&mut self, readout: Readout, value: Value) -> (complete: bool)
        ensures
            final(self)@ == composed(readout, value),
            final(self)@.len() <= 23,
            is_ascii_chars(final(self)@),
            complete == !(value is Axis),
    {
        proof {
            labels_are_short(readout);
            reveal_strlit("true");
            reveal_strlit("false");
        }
        clear_line(&mut self.text);
        push_text(&mut self.text, readout.label());
        match value {
            Value::Axis(_) => false,
            Value::Number(number) => {
                proof {
                    decimal_text_is_short(number as nat);
                }
                push_number(&mut self.text, number);
                true
            },
            Value::Flag(flag) => {
                push_text(
                    &mut self.text,
                    if flag {
                        "true"
                    } else {
                        "false"
                    },
                );
                true
            },
        }
    }
}

/// What the render task knows when it draws: what it last saw of the two
/// slots and its two diagnostic counters.
#[derive(Clone, Copy, Debug, PartialEq, Eq)]
pub struct DrawContext {
    pub orientation: Orientation,
    /// The touch event that the last take of the pending touch reading
    /// got, if it got one.
    pub cursor: Option<KeyEvent>,
    /// Iterations of the render loop so far. Wraps round at 32 bits.
    pub counter: u32,
    /// Snapshot attempts that found the lock held. Wraps round at 32 bits.
    pub counter_lock: u32,
}

/// `n + 1` in 32 bits.
pub open spec fn next_count(n: u32) -> u32 {
    if n == u32::MAX {
        0
    } else {
        (n + 1) as u32
    }
}

impl DrawContext {
    /// The context before the first frame.
    pub open spec fn initial() -> Self {
        DrawContext { orientation: Orientation::initial(), cursor: None, counter: 0, counter_lock: 0 }
    }

    /// The context after one iteration of the render loop in which the
    /// snapshot attempt on the inertial reading and the take on the pending
    /// touch reading came back as given. What was to be had replaces what
    /// the context held; an attempt that found the lock held leaves the
    /// context's value in place and counts as one contention.
    pub open spec fn observed(
        self,
        orientation: Option<Orientation>,
        cursor: Option<Option<KeyEvent>>,
    ) -> Self {
        let missed_first = if orientation is None {
            next_count(self.counter_lock)
        } else {
            self.counter_lock
        };
        DrawContext {
            orientation: match orientation {
                Some(reading) => reading,
                None => self.orientation,
            },
            cursor: match cursor {
                Some(pending) => pending,
                None => self.cursor,
            },
            counter: next_count(self.counter),
            counter_lock: if cursor is None {
                next_count(missed_first)
            } else {
                missed_first
            },
        }
    }

    /// Takes in the outcome of the two attempts of one iteration and counts
    /// the iteration.
    pub fn observe(&mut self, orientation: Option<Orientation>, cursor: Option<Option<KeyEvent>>)
        ensures
            *final(self) == old(self).observed(orientation, cursor),
    {
        match orientation {
            Some(reading) => {
                self.orientation = reading;
            },
            None => {
                self.counter_lock = self.counter_lock.wrapping_add(1);
            },
        }
        match cursor {
            Some(pending) => {
                self.cursor = pending;
            },
            None => {
                self.counter_lock = self.counter_lock.wrapping_add(1);
            },
        }
        self.counter = self.counter.wrapping_add(1);
    }
}

impl Default for DrawContext {
    fn default() -> (context: Self)
        ensures
            context == DrawContext::initial(),
    {
        DrawContext { orientation: Orientation::default(), cursor: None, counter: 0, counter_lock: 0 }
    }
}

/// The lines that every frame shows, for a display `width` pixels wide:
/// the six axes and the sample index in a column that starts at the middle
/// of the display, the counters and the liveness flags in the left column.
pub open spec fn readouts(width: u16, context: DrawContext) -> Seq<DrawOp> {
    let middle = (width / 2) as i32;
    let reading = context.orientation;
    seq![
        DrawOp::Text {
            readout: Readout::GyroX,
            value: Value::Axis(reading.angular_rate.x),
            x: middle,
            y: GYRO_TOP,
        },
        DrawOp::Text {
            readout: Readout::GyroY,
            value: Value::Axis(reading.angular_rate.y),
            x: middle,
            y: (GYRO_TOP + LINE_PITCH) as i32,
        },
        DrawOp::Text {
            readout: Readout::GyroZ,
            value: Value::Axis(reading.angular_rate.z),
            x: middle,
            y: (GYRO_TOP + 2 * LINE_PITCH) as i32,
        },
        DrawOp::Text {
            readout: Readout::AccX,
            value: Value::Axis(reading.acceleration.x),
            x: middle,
            y: ACC_TOP,
        },
        DrawOp::Text {
            readout: Readout::AccY,
            value: Value::Axis(reading.acceleration.y),
            x: middle,
            y: (ACC_TOP + LINE_PITCH) as i32,
        },
        DrawOp::Text {
            readout: Readout::AccZ,
            value: Value::Axis(reading.acceleration.z),
            x: middle,
            y: (ACC_TOP + 2 * LINE_PITCH) as i32,
        },
        DrawOp::Text {
            readout: Readout::Index,
            value: Value::Number(reading.sample_index as u32),
            x: middle,
            y: (ACC_TOP + 3 * LINE_PITCH) as i32,
        },
        DrawOp::Text {
            readout: Readout::CounterLock,
            value: Value::Number(context.counter_lock),
            x: LEFT_COLUMN,
            y: (ACC_TOP + LINE_PITCH) as i32,
        },
        DrawOp::Text {
            readout: Readout::Counter,
            value: Value::Number(context.counter),
            x: LEFT_COLUMN,
            y: (ACC_TOP + 2 * LINE_PITCH) as i32,
        },
        DrawOp::Text {
            readout: Readout::GyroscopeAlive,
            value: Value::Flag(reading.gyroscope_alive),
            x: LEFT_COLUMN,
            y: (ACC_TOP + 3 * LINE_PITCH) as i32,
        },
        DrawOp::Text {
            readout: Readout::AccelerometerAlive,
            value: Value::Flag(reading.accelerometer_alive),
            x: LEFT_COLUMN,
            y: (ACC_TOP + 4 * LINE_PITCH) as i32,
        },
    ]
}

/// What a touch event adds to the frame: its two coordinates in the left
/// column and a marker up and left of the touch. Without an event, nothing.
pub open spec fn cursor_ops(cursor: Option<KeyEvent>) -> Seq<DrawOp> {
    match cursor {
        Some(key) => seq![
            DrawOp::Text {
                readout: Readout::CursorX,
                value: Value::Number(key.x as u32),
                x: LEFT_COLUMN,
                y: (ACC_TOP + 5 * LINE_PITCH) as i32,
            },
            DrawOp::Text {
                readout: Readout::CursorY,
                value: Value::Number(key.y as u32),
                x: LEFT_COLUMN,
                y: (ACC_TOP + 6 * LINE_PITCH) as i32,
            },
            DrawOp::Marker {
                x: (key.x - MARKER_SIZE) as i32,
                y: (key.y - MARKER_SIZE) as i32,
                diameter: MARKER_SIZE,
            },
        ],
        None => Seq::empty(),
    }
}

/// The whole frame, in drawing order.
pub open spec fn overlay(width: u16, context: DrawContext) -> Seq<DrawOp> {
    readouts(width, context) + cursor_ops(context.cursor)
}

/// Composes frames. It keeps the list of the last frame it composed and
/// reuses its storage for the next.
pub struct DrawEngine {
    list: Vec<DrawOp>,
}

impl View for DrawEngine {
    type V = Seq<DrawOp>;

    closed spec fn view(&self) -> Seq<DrawOp> {
        self.list@
    }
}

impl DrawEngine {
    /// An engine that has composed nothing yet.
    pub fn new() -> (engine: Self)
        ensures
            engine@ == Seq::<DrawOp>::empty(),
    {
        DrawEngine { list: Vec::new() }
    }

    /// The operations of the last frame composed, in drawing order.
    pub fn ops(&self) -> (list: &Vec<DrawOp>)
        ensures
            list@ == self@,
    {
        &self.list
    }

    fn text(&mut self, readout: Readout, value: Value, x: i32, y: i32)
        ensures
            final(self)@ == old(self)@.push(DrawOp::Text { readout, value, x, y }),
    {
        self.list.push(DrawOp::Text { readout, value, x, y });
    }

    /// Composes the frame for `context` on a display `width` pixels wide.
    pub fn draw(&mut self, width: u16, context: &DrawContext)
        ensures
            final(self)@ == overlay(width, *context),
    {
        let middle: i32 = (width / 2) as i32;
        let reading = context.orientation;
        self.list.clear();
        self.text(Readout::GyroX, Value::Axis(reading.angular_rate.x), middle, GYRO_TOP);
        self.text(Readout::GyroY, Value::Axis(reading.angular_rate.y), middle, GYRO_TOP + LINE_PITCH);
        self.text(
            Readout::GyroZ,
            Value::Axis(reading.angular_rate.z),
            middle,
            GYRO_TOP + 2 * LINE_PITCH,
        );
        self.text(Readout::AccX, Value::Axis(reading.acceleration.x), middle, ACC_TOP);
        self.text(Readout::AccY, Value::Axis(reading.acceleration.y), middle, ACC_TOP + LINE_PITCH);
        self.text(
            Readout::AccZ,
            Value::Axis(reading.acceleration.z),
            middle,
            ACC_TOP + 2 * LINE_PITCH,
        );
        self.text(
            Readout::Index,
            Value::Number(reading.sample_index as u32),
            middle,
            ACC_TOP + 3 * LINE_PITCH,
        );
        self.text(
            Readout::CounterLock,
            Value::Number(context.counter_lock),
            LEFT_COLUMN,
            ACC_TOP + LINE_PITCH,
        );
        self.text(
            Readout::Counter,
            Value::Number(context.counter),
            LEFT_COLUMN,
            ACC_TOP + 2 * LINE_PITCH,
        );
        self.text(
            Readout::GyroscopeAlive,
            Value::Flag(reading.gyroscope_alive),
            LEFT_COLUMN,
            ACC_TOP + 3 * LINE_PITCH,
        );
        self.text(
            Readout::AccelerometerAlive,
            Value::Flag(reading.accelerometer_alive),
            LEFT_COLUMN,
            ACC_TOP + 4 * LINE_PITCH,
        );
        proof {
            assert(self@ =~= readouts(width, *context));
        }
        if let Some(key) = context.cursor {
            self.text(
                Readout::CursorX,
                Value::Number(key.x as u32),
                LEFT_COLUMN,
                ACC_TOP + 5 * LINE_PITCH,
            );
            self.text(
                Readout::CursorY,
                Value::Number(key.y as u32),
                LEFT_COLUMN,
                ACC_TOP + 6 * LINE_PITCH,
            );
            self.list.push(
                DrawOp::Marker {
                    x: key.x as i32 - MARKER_SIZE as i32,
                    y: key.y as i32 - MARKER_SIZE as i32,
                    diameter: MARKER_SIZE,
                },
            );
        }
        proof {
            assert(self@ =~= overlay(width, *context));
        }
    }
}

} // verus!

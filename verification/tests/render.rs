use round_display::gyroscope_task::{Acceleration, AngularRate, Orientation};
use round_display::screen_draw::{
    DrawContext, DrawEngine, DrawOp, LineBuffer, Readout, Value, ACC_TOP, GYRO_TOP, LEFT_COLUMN,
    LINE_CAPACITY, LINE_PITCH, MARKER_SIZE,
};
use round_display::screen_task::{
    pointer_input, read_pointer, thread_display, FrameGate, PointerInput, RenderAction, Renderer,
    ThreadDisplayData, TARGET_FRAME_INTERVAL_MS,
};
use round_display::shared_state::SharedSlot;
use round_display::touch_task::{KeyEvent, Touch};

fn reading() -> Orientation {
    Orientation {
        gyroscope_alive: true,
        accelerometer_alive: false,
        sample_index: 77,
        angular_rate: AngularRate {
            x: 1.25f32.to_bits(),
            y: 2.5f32.to_bits(),
            z: (-3.75f32).to_bits(),
        },
        acceleration: Acceleration {
            x: 0.5f32.to_bits(),
            y: (-0.25f32).to_bits(),
            z: 9.81f32.to_bits(),
        },
    }
}

fn text(readout: Readout, value: Value, x: i32, y: i32) -> DrawOp {
    DrawOp::Text { readout, value, x, y }
}

fn readouts(context: &DrawContext, middle: i32) -> Vec<DrawOp> {
    let r = context.orientation;
    vec![
        text(Readout::GyroX, Value::Axis(r.angular_rate.x), middle, 20),
        text(Readout::GyroY, Value::Axis(r.angular_rate.y), middle, 40),
        text(Readout::GyroZ, Value::Axis(r.angular_rate.z), middle, 60),
        text(Readout::AccX, Value::Axis(r.acceleration.x), middle, 65),
        text(Readout::AccY, Value::Axis(r.acceleration.y), middle, 85),
        text(Readout::AccZ, Value::Axis(r.acceleration.z), middle, 105),
        text(Readout::Index, Value::Number(u32::from(r.sample_index)), middle, 125),
        text(Readout::CounterLock, Value::Number(context.counter_lock), 10, 85),
        text(Readout::Counter, Value::Number(context.counter), 10, 105),
        text(Readout::GyroscopeAlive, Value::Flag(r.gyroscope_alive), 10, 125),
        text(Readout::AccelerometerAlive, Value::Flag(r.accelerometer_alive), 10, 145),
    ]
}

#[test]
fn layout_constants() {
    assert_eq!(LEFT_COLUMN, 10);
    assert_eq!(GYRO_TOP, 20);
    assert_eq!(ACC_TOP, 65);
    assert_eq!(LINE_PITCH, 20);
    assert_eq!(MARKER_SIZE, 5);
    assert_eq!(TARGET_FRAME_INTERVAL_MS, 20);
}

#[test]
fn labels() {
    assert_eq!(Readout::GyroX.label(), "Gyro.x:");
    assert_eq!(Readout::GyroY.label(), "Gyro.y:");
    assert_eq!(Readout::GyroZ.label(), "Gyro.z:");
    assert_eq!(Readout::AccX.label(), "Acc.x:");
    assert_eq!(Readout::AccY.label(), "Acc.y:");
    assert_eq!(Readout::AccZ.label(), "Acc.z:");
    assert_eq!(Readout::Index.label(), "idx:");
    assert_eq!(Readout::CounterLock.label(), "counter_lock:");
    assert_eq!(Readout::Counter.label(), "counter:");
    assert_eq!(Readout::GyroscopeAlive.label(), "act:");
    assert_eq!(Readout::AccelerometerAlive.label(), "act:");
    assert_eq!(Readout::CursorX.label(), "x:");
    assert_eq!(Readout::CursorY.label(), "y:");
}

#[test]
fn new_engine_has_no_frame() {
    assert!(DrawEngine::new().ops().is_empty());
}

#[test]
fn frame_without_a_pending_touch() {
    let context = DrawContext { orientation: reading(), cursor: None, counter: 3, counter_lock: 1 };
    let mut engine = DrawEngine::new();
    engine.draw(240, &context);
    assert_eq!(engine.ops(), &readouts(&context, 120));
}

#[test]
fn frame_with_a_pending_touch_has_a_marker() {
    let key = KeyEvent { touch_type: Touch::Contact, x: 100, y: 3 };
    let context =
        DrawContext { orientation: reading(), cursor: Some(key), counter: 9, counter_lock: 0 };
    let mut engine = DrawEngine::new();
    engine.draw(240, &context);
    let mut expected = readouts(&context, 120);
    expected.push(text(Readout::CursorX, Value::Number(100), 10, 165));
    expected.push(text(Readout::CursorY, Value::Number(3), 10, 185));
    expected.push(DrawOp::Marker { x: 95, y: -2, diameter: 5 });
    assert_eq!(engine.ops(), &expected);
}

#[test]
fn frame_replaces_the_one_before() {
    let key = KeyEvent { touch_type: Touch::Down, x: 0, y: 239 };
    let mut context =
        DrawContext { orientation: reading(), cursor: Some(key), counter: 0, counter_lock: 0 };
    let mut engine = DrawEngine::new();
    engine.draw(240, &context);
    assert_eq!(engine.ops().len(), 14);
    assert_eq!(engine.ops()[13], DrawOp::Marker { x: -5, y: 234, diameter: 5 });
    context.cursor = None;
    engine.draw(101, &context);
    assert_eq!(engine.ops(), &readouts(&context, 50));
}

#[test]
fn context_starts_empty() {
    let context = DrawContext::default();
    assert_eq!(context.orientation, Orientation::default());
    assert_eq!(context.cursor, None);
    assert_eq!(context.counter, 0);
    assert_eq!(context.counter_lock, 0);
}

#[test]
fn observe_takes_snapshots_in() {
    let key = KeyEvent { touch_type: Touch::Down, x: 1, y: 2 };
    let mut context = DrawContext::default();
    context.observe(Some(reading()), Some(Some(key)));
    assert_eq!(
        context,
        DrawContext { orientation: reading(), cursor: Some(key), counter: 1, counter_lock: 0 }
    );
    context.observe(Some(reading()), Some(None));
    assert_eq!(context.cursor, None);
    assert_eq!(context.counter, 2);
}

#[test]
fn observe_keeps_the_previous_snapshot_on_contention() {
    let key = KeyEvent { touch_type: Touch::Up, x: 5, y: 6 };
    let mut context =
        DrawContext { orientation: reading(), cursor: Some(key), counter: 10, counter_lock: 4 };
    context.observe(None, Some(Some(key)));
    assert_eq!(context.orientation, reading());
    assert_eq!(context.counter_lock, 5);
    context.observe(Some(Orientation::default()), None);
    assert_eq!(context.orientation, Orientation::default());
    assert_eq!(context.cursor, Some(key));
    assert_eq!(context.counter_lock, 6);
    context.observe(None, None);
    assert_eq!(context.cursor, Some(key));
    assert_eq!(context.counter_lock, 8);
    assert_eq!(context.counter, 13);
}

#[test]
fn counters_wrap_round() {
    let mut context = DrawContext {
        orientation: Orientation::default(),
        cursor: None,
        counter: u32::MAX,
        counter_lock: u32::MAX,
    };
    context.observe(None, None);
    assert_eq!(context.counter, 0);
    assert_eq!(context.counter_lock, 1);
}

#[test]
fn first_frame_is_always_due() {
    let mut gate = FrameGate::new(20);
    assert_eq!(gate, FrameGate { interval: 20, last_flush: None });
    assert!(gate.poll(0));
    assert_eq!(gate.last_flush, Some(0));
}

#[test]
fn flushes_are_at_least_an_interval_apart() {
    let mut gate = FrameGate::new(20);
    let mut flushed = Vec::new();
    for now in [5u64, 6, 24, 25, 26, 44, 45, 45, 100, 119, 120, 3, 139, 140] {
        if gate.poll(now) {
            flushed.push(now);
        }
    }
    assert_eq!(flushed, vec![5, 25, 45, 100, 120, 140]);
    for pair in flushed.windows(2) {
        assert!(pair[1] - pair[0] >= 20);
    }
}

#[test]
fn gate_does_not_overflow_at_the_end_of_the_clock() {
    let mut gate = FrameGate { interval: u64::MAX, last_flush: Some(1) };
    assert!(!gate.poll(u64::MAX - 1));
    assert!(!gate.poll(0));
    assert_eq!(gate.last_flush, Some(1));
    let mut gate = FrameGate { interval: 10, last_flush: Some(u64::MAX - 3) };
    assert!(!gate.poll(u64::MAX));
    let mut gate = FrameGate { interval: 0, last_flush: Some(9) };
    assert!(gate.poll(9));
    assert!(!gate.poll(8));
}

#[test]
fn render_draws_only_when_due() {
    let mut task = Renderer::new(20);
    assert!(task.frame().is_empty());
    assert_eq!(task.context(), DrawContext::default());
    assert_eq!(task.render(Some(reading()), Some(None), 1000), RenderAction::Flush);
    let first = task.context();
    assert_eq!(first.counter, 1);
    assert_eq!(task.frame(), &readouts(&first, 120));
    let key = KeyEvent { touch_type: Touch::Down, x: 9, y: 9 };
    assert_eq!(task.render(None, Some(Some(key)), 1019), RenderAction::Skip);
    assert_eq!(task.context().counter, 2);
    assert_eq!(task.context().counter_lock, 1);
    assert_eq!(task.context().cursor, Some(key));
    assert_eq!(task.frame(), &readouts(&first, 120));
    assert_eq!(task.render(None, None, 1020), RenderAction::Flush);
    assert_eq!(task.context().counter_lock, 3);
    assert_eq!(task.frame().len(), 14);
    assert_eq!(task.frame()[8], text(Readout::Counter, Value::Number(3), 10, 105));
}

#[test]
fn thread_display_copies_the_reading_and_takes_the_touch() {
    let mut orientation = SharedSlot::new(Orientation::default());
    let mut cursor = SharedSlot::new(None);
    let mut task =
        ThreadDisplayData::new(orientation.share(), cursor.share(), TARGET_FRAME_INTERVAL_MS);
    assert_eq!(thread_display(&mut task, 0), RenderAction::Flush);
    assert_eq!(task.context(), DrawContext { counter: 1, ..DrawContext::default() });
    assert_eq!(task.frame().len(), 11);
    let key = KeyEvent { touch_type: Touch::Contact, x: 120, y: 120 };
    orientation.replace(reading());
    cursor.replace(Some(key));
    assert_eq!(thread_display(&mut task, 20), RenderAction::Flush);
    assert_eq!(task.context().orientation, reading());
    assert_eq!(task.context().cursor, Some(key));
    assert_eq!(task.frame().len(), 14);
    assert_eq!(task.frame()[13], DrawOp::Marker { x: 115, y: 115, diameter: 5 });
    assert_eq!(task.context().counter_lock, 0);
    assert_eq!(orientation.read_snapshot(), Some(reading()));
    assert_eq!(cursor.take_snapshot(), Some(None));
}

#[test]
fn taken_event_is_seen_once() {
    let orientation = SharedSlot::new(Orientation::default());
    let mut cursor = SharedSlot::new(None);
    let mut task = ThreadDisplayData::new(orientation.share(), cursor.share(), 1);
    let key = KeyEvent { touch_type: Touch::Down, x: 30, y: 40 };
    cursor.replace(Some(key));
    assert_eq!(thread_display(&mut task, 0), RenderAction::Flush);
    assert_eq!(task.context().cursor, Some(key));
    assert_eq!(task.frame()[13], DrawOp::Marker { x: 25, y: 35, diameter: 5 });
    for now in 1..4u64 {
        assert_eq!(thread_display(&mut task, now), RenderAction::Flush);
        assert_eq!(task.context().cursor, None);
        assert_eq!(task.frame().len(), 11);
    }
    let moved = KeyEvent { touch_type: Touch::Contact, x: 31, y: 41 };
    cursor.replace(Some(moved));
    thread_display(&mut task, 4);
    assert_eq!(task.frame()[13], DrawOp::Marker { x: 26, y: 36, diameter: 5 });
    thread_display(&mut task, 5);
    assert_eq!(task.frame().len(), 11);
}

#[test]
fn iteration_that_skips_takes_the_event_too() {
    let orientation = SharedSlot::new(Orientation::default());
    let mut cursor = SharedSlot::new(None);
    let mut task = ThreadDisplayData::new(orientation.share(), cursor.share(), 20);
    assert_eq!(thread_display(&mut task, 0), RenderAction::Flush);
    let key = KeyEvent { touch_type: Touch::Down, x: 30, y: 40 };
    cursor.replace(Some(key));
    assert_eq!(thread_display(&mut task, 10), RenderAction::Skip);
    assert_eq!(task.context().cursor, Some(key));
    assert_eq!(cursor.take_snapshot(), Some(None));
    assert_eq!(thread_display(&mut task, 20), RenderAction::Flush);
    assert_eq!(task.context().cursor, None);
    assert_eq!(task.frame().len(), 11);
}

#[test]
fn pointer_reports_an_event_once() {
    let mut producer = SharedSlot::new(None);
    let mut pointer = producer.share();
    let released = PointerInput { pressed: false, x: 0, y: 0 };
    assert_eq!(read_pointer(&mut pointer), released);
    producer.replace(Some(KeyEvent { touch_type: Touch::Down, x: 17, y: 230 }));
    assert_eq!(read_pointer(&mut pointer), PointerInput { pressed: true, x: 17, y: 230 });
    assert_eq!(read_pointer(&mut pointer), released);
    assert_eq!(producer.take_snapshot(), Some(None));
    producer.replace(Some(KeyEvent { touch_type: Touch::Contact, x: 18, y: 229 }));
    assert_eq!(read_pointer(&mut pointer), PointerInput { pressed: true, x: 18, y: 229 });
    producer.replace(Some(KeyEvent { touch_type: Touch::Up, x: 18, y: 229 }));
    assert_eq!(read_pointer(&mut pointer), released);
    assert_eq!(producer.take_snapshot(), Some(None));
}

#[test]
fn overlay_and_pointer_share_one_discipline() {
    let orientation = SharedSlot::new(Orientation::default());
    let mut producer = SharedSlot::new(None);
    let mut task = ThreadDisplayData::new(orientation.share(), producer.share(), 1);
    let mut pointer = task.share_cursor();
    let key = KeyEvent { touch_type: Touch::Down, x: 5, y: 6 };
    producer.replace(Some(key));
    assert_eq!(read_pointer(&mut pointer), PointerInput { pressed: true, x: 5, y: 6 });
    thread_display(&mut task, 0);
    assert_eq!(task.context().cursor, None);
    producer.replace(Some(key));
    thread_display(&mut task, 1);
    assert_eq!(task.context().cursor, Some(key));
    assert_eq!(read_pointer(&mut pointer), PointerInput { pressed: false, x: 0, y: 0 });
}

#[test]
fn pointer_follows_what_was_taken() {
    let released = PointerInput { pressed: false, x: 0, y: 0 };
    assert_eq!(pointer_input(None), released);
    assert_eq!(pointer_input(Some(None)), released);
    let at = |touch_type| pointer_input(Some(Some(KeyEvent { touch_type, x: 17, y: 230 })));
    assert_eq!(at(Touch::Up), released);
    assert_eq!(at(Touch::Down), PointerInput { pressed: true, x: 17, y: 230 });
    assert_eq!(at(Touch::Contact), PointerInput { pressed: true, x: 17, y: 230 });
}

#[test]
fn new_line_buffer_is_empty() {
    let line = LineBuffer::new();
    assert_eq!(line.text.as_str(), "");
    assert_eq!(line.text.capacity(), LINE_CAPACITY);
    assert_eq!(LINE_CAPACITY, 32);
}

#[test]
fn composed_number_lines() {
    let mut line = LineBuffer::new();
    assert!(line.compose(Readout::Counter, Value::Number(3)));
    assert_eq!(line.text.as_str(), "counter:3");
    assert!(line.compose(Readout::Index, Value::Number(65535)));
    assert_eq!(line.text.as_str(), "idx:65535");
    assert!(line.compose(Readout::CursorX, Value::Number(0)));
    assert_eq!(line.text.as_str(), "x:0");
    assert!(line.compose(Readout::CursorY, Value::Number(239)));
    assert_eq!(line.text.as_str(), "y:239");
    assert!(line.compose(Readout::Counter, Value::Number(1000)));
    assert_eq!(line.text.as_str(), "counter:1000");
}

#[test]
fn longest_line_fits() {
    let mut line = LineBuffer::new();
    assert!(line.compose(Readout::CounterLock, Value::Number(u32::MAX)));
    assert_eq!(line.text.as_str(), "counter_lock:4294967295");
    assert_eq!(line.text.len(), 23);
}

#[test]
fn composed_flag_lines() {
    let mut line = LineBuffer::new();
    assert!(line.compose(Readout::GyroscopeAlive, Value::Flag(true)));
    assert_eq!(line.text.as_str(), "act:true");
    assert!(line.compose(Readout::AccelerometerAlive, Value::Flag(false)));
    assert_eq!(line.text.as_str(), "act:false");
}

#[test]
fn axis_line_is_left_to_the_caller() {
    let mut line = LineBuffer::new();
    line.compose(Readout::Counter, Value::Number(77));
    assert!(!line.compose(Readout::GyroX, Value::Axis(1.5f32.to_bits())));
    assert_eq!(line.text.as_str(), "Gyro.x:");
    assert!(!line.compose(Readout::AccZ, Value::Axis(0)));
    assert_eq!(line.text.as_str(), "Acc.z:");
}

#[test]
fn compose_starts_from_an_empty_buffer_each_time() {
    let mut line = LineBuffer::new();
    line.text.push_str("0123456789012345678901234567890");
    assert!(line.compose(Readout::Counter, Value::Number(12)));
    assert_eq!(line.text.as_str(), "counter:12");
}

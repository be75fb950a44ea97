//! The inertial acquisition task: self-test, best-effort configuration, then
//! a loop that reduces every drained FIFO batch into the shared reading.

use crate::fault::SetupError;
use crate::shared_state::SharedSlot;
use vstd::prelude::*;

verus! {

/// One angular-rate sample. Each axis is the IEEE 754 binary32 bit pattern
/// that the sensor driver delivered; zero bits are the value zero.
#[derive(Clone, Copy, Debug, PartialEq, Eq, Structural)]
pub struct AngularRate {
    pub x: u32,
    pub y: u32,
    pub z: u32,
}

/// One acceleration sample, encoded like [`AngularRate`].
#[derive(Clone, Copy, Debug, PartialEq, Eq, Structural)]
pub struct Acceleration {
    pub x: u32,
    pub y: u32,
    pub z: u32,
}

impl AngularRate {
    pub open spec fn zero() -> Self {
        AngularRate { x: 0, y: 0, z: 0 }
    }
}

impl Acceleration {
    pub open spec fn zero() -> Self {
        Acceleration { x: 0, y: 0, z: 0 }
    }
}

/// One entry of a drained FIFO: the sensor's sample counter and whichever of
/// the two sub-sensors had data in that entry.
#[derive(Clone, Copy, Debug, PartialEq, Eq)]
pub struct FifoSample {
    pub index: u16,
    pub acceleration: Option<Acceleration>,
    pub angular_rate: Option<AngularRate>,
}

/// The latest inertial reading, as the render task sees it.
///
/// The liveness flags come from the start-up self-test and are never
/// re-evaluated. The other fields are those of the most recent FIFO entry.
#[derive(Clone, Copy, Debug, PartialEq, Eq, Structural)]
pub struct Orientation {
    pub gyroscope_alive: bool,
    pub accelerometer_alive: bool,
    pub sample_index: u16,
    pub angular_rate: AngularRate,
    pub acceleration: Acceleration,
}

impl Orientation {
    /// The reading before any sample: index zero, all axes zero, both
    /// sub-sensors not yet known to be alive.
    pub open spec fn initial() -> Self {
        Orientation {
            gyroscope_alive: false,
            accelerometer_alive: false,
            sample_index: 0,
            angular_rate: AngularRate::zero(),
            acceleration: Acceleration::zero(),
        }
    }

    /// This reading with the values of one FIFO entry in place of its own.
    /// A sub-sensor that is absent from the entry reads zero. The liveness
    /// flags stay.
    pub open spec fn updated(
        self,
        idx: u16,
        angular_rate: Option<AngularRate>,
        acc: Option<Acceleration>,
    ) -> Self {
        Orientation {
            gyroscope_alive: self.gyroscope_alive,
            accelerometer_alive: self.accelerometer_alive,
            sample_index: idx,
            angular_rate: match angular_rate {
                Some(rate) => rate,
                None => AngularRate::zero(),
            },
            acceleration: match acc {
                Some(a) => a,
                None => Acceleration::zero(),
            },
        }
    }

    /// This reading with the self-test's verdicts as its liveness flags.
    pub open spec fn with_liveness(self, gyroscope_ok: bool, accelerometer_ok: bool) -> Self {
        Orientation { gyroscope_alive: gyroscope_ok, accelerometer_alive: accelerometer_ok, ..self }
    }

    /// This reading after one FIFO entry.
    pub open spec fn after_sample(self, sample: FifoSample) -> Self {
        self.updated(sample.index, sample.angular_rate, sample.acceleration)
    }

    /// This reading after a whole batch: that of the batch's last entry, or
    /// this reading itself where the batch is empty.
    pub open spec fn after_batch(self, batch: Seq<FifoSample>) -> Self {
        if batch.len() == 0 {
            self
        } else {
            self.after_sample(batch.last())
        }
    }

    /// This reading after several batches, drained one after the other.
    pub open spec fn after_batches(self, batches: Seq<Seq<FifoSample>>) -> Self
        decreases batches.len(),
    {
        if batches.len() == 0 {
            self
        } else {
            self.after_batches(batches.drop_last()).after_batch(batches.last())
        }
    }

    /// The successive values that a batch puts into the slot, one per entry.
    pub open spec fn batch_writes(self, batch: Seq<FifoSample>) -> Seq<Orientation> {
        Seq::new(batch.len(), |i: int| self.after_sample(batch[i]))
    }

    /// Overwrites the sample fields with those of one FIFO entry.
    pub fn update(
        &mut self,
        idx: u16,
        angular_rate: Option<AngularRate>,
        acc: Option<Acceleration>,
    )
        ensures
            *final(self) == old(self).updated(idx, angular_rate, acc),
    {
        self.sample_index = idx;
        self.angular_rate = match angular_rate {
            Some(rate) => rate,
            None => AngularRate { x: 0, y: 0, z: 0 },
        };
        self.acceleration = match acc {
            Some(a) => a,
            None => Acceleration { x: 0, y: 0, z: 0 },
        };
    }
}

impl Default for Orientation {
    fn default() -> (reading: Self)
        ensures
            reading == Orientation::initial(),
    {
        Orientation {
            gyroscope_alive: false,
            accelerometer_alive: false,
            sample_index: 0,
            angular_rate: AngularRate { x: 0, y: 0, z: 0 },
            acceleration: Acceleration { x: 0, y: 0, z: 0 },
        }
    }
}

/// One of the sensor's two interrupt lines.
#[derive(Clone, Copy, Debug, PartialEq, Eq, Structural)]
pub enum InterruptLine {
    Int1,
    Int2,
}

/// Full-scale range of the accelerometer, in g.
#[derive(Clone, Copy, Debug, PartialEq, Eq, Structural)]
pub enum AccelerometerRange {
    G2,
    G4,
    G8,
    G16,
}

/// Full-scale range of the gyroscope, in degrees per second.
#[derive(Clone, Copy, Debug, PartialEq, Eq, Structural)]
pub enum GyroscopeRange {
    Dps16,
    Dps32,
    Dps64,
    Dps128,
    Dps256,
    Dps512,
    Dps1024,
    Dps2048,
}

/// One configuration write to the inertial sensor, as the values to program.
/// How they are laid out in the sensor's registers is the driver's business.
#[allow(inconsistent_fields)]
#[derive(Clone, Copy, Debug, PartialEq, Eq, Structural)]
pub enum SensorSetting {
    /// Interrupt outputs and the byte order of the data registers.
    Interrupts { int1_enable: bool, int2_enable: bool, big_endian: bool },
    /// Accelerometer range and the position of its output data rate in the
    /// sensor's normal-mode rate table.
    Accelerometer { range: AccelerometerRange, rate: u8, self_test: bool },
    /// Gyroscope range and rate, like the accelerometer's.
    Gyroscope { range: GyroscopeRange, rate: u8, self_test: bool },
    /// Which sub-sensors run, and how their samples are presented.
    Enable { gyroscope: bool, accelerometer: bool, sync_sample: bool, data_ready_disable: bool },
    /// The handshake type of the sensor's command register.
    Handshake { ctrl9_handshake_type: bool },
    /// Ring-buffer FIFO of `size` samples that raises `interrupt` once
    /// `watermark` samples are buffered.
    Fifo { size: u16, watermark: u8, interrupt: InterruptLine },
}

/// Capacity of the sensor's FIFO, in samples.
pub const FIFO_SIZE: u16 = 128;

/// Fill level of the FIFO at which the sensor raises its interrupt.
pub const FIFO_WATERMARK: u8 = 64;

/// Position of the output data rate of both sub-sensors in the rate table.
pub const OUTPUT_RATE: u8 = 8;

/// The configuration of the inertial sensor, in the order it is written.
pub open spec fn sensor_plan() -> Seq<SensorSetting> {
    seq![
        SensorSetting::Interrupts { int1_enable: true, int2_enable: true, big_endian: true },
        SensorSetting::Accelerometer {
            range: AccelerometerRange::G2,
            rate: OUTPUT_RATE,
            self_test: false,
        },
        SensorSetting::Gyroscope { range: GyroscopeRange::Dps256, rate: OUTPUT_RATE, self_test: false },
        SensorSetting::Enable {
            gyroscope: true,
            accelerometer: true,
            sync_sample: false,
            data_ready_disable: true,
        },
        SensorSetting::Handshake { ctrl9_handshake_type: true },
        SensorSetting::Fifo {
            size: FIFO_SIZE,
            watermark: FIFO_WATERMARK,
            interrupt: InterruptLine::Int2,
        },
    ]
}

/// Builds the configuration of the inertial sensor. The task writes the
/// settings in this order and goes on to the next whether or not a write
/// succeeded.
pub fn sensors_setup() -> (plan: Vec<SensorSetting>)
    ensures
        plan@ == sensor_plan(),
{
    let mut plan: Vec<SensorSetting> = Vec::new();
    plan.push(SensorSetting::Interrupts { int1_enable: true, int2_enable: true, big_endian: true });
    plan.push(
        SensorSetting::Accelerometer {
            range: AccelerometerRange::G2,
            rate: OUTPUT_RATE,
            self_test: false,
        },
    );
    plan.push(
        SensorSetting::Gyroscope { range: GyroscopeRange::Dps256, rate: OUTPUT_RATE, self_test: false },
    );
    plan.push(
        SensorSetting::Enable {
            gyroscope: true,
            accelerometer: true,
            sync_sample: false,
            data_ready_disable: true,
        },
    );
    plan.push(SensorSetting::Handshake { ctrl9_handshake_type: true });
    plan.push(
        SensorSetting::Fifo {
            size: FIFO_SIZE,
            watermark: FIFO_WATERMARK,
            interrupt: InterruptLine::Int2,
        },
    );
    proof {
        assert(plan@ =~= sensor_plan());
    }
    plan
}

/// Where the task stands, named by what it is waiting for.
///
/// `Uninitialized`, `SelfTest` and `Configuring` are passed through once, in
/// that order. `AwaitingInterrupt` and `Draining` are the two halves of the
/// streaming loop, which the task never leaves. `Stopped` is reached only
/// from `Uninitialized`.
#[derive(Clone, Copy, Debug, PartialEq, Eq, Structural)]
pub enum SensorsPhase {
    /// Waiting for the interrupt pin to be claimed.
    Uninitialized,
    /// Waiting for the verdicts of the two self-tests.
    SelfTest,
    /// Waiting for the outcome of the write of the setting at this position.
    Configuring(usize),
    /// Streaming: waiting for a rising edge on the interrupt pin.
    AwaitingInterrupt,
    /// Streaming: waiting for the drained FIFO.
    Draining,
    /// Ended by a setup error.
    Stopped(SetupError),
}

/// What the task asks its driver loop to do next.
#[derive(Clone, Copy, Debug, PartialEq, Eq, Structural)]
pub enum SensorsAction {
    /// Claim the interrupt pin as an input.
    ClaimInterruptPin,
    /// Read the device identity and revision, then run the gyroscope and
    /// the accelerometer self-test.
    RunSelfTest,
    /// Write one setting to the sensor.
    Configure(SensorSetting),
    /// Suspend until the interrupt pin sees a rising edge. No timeout.
    AwaitInterrupt,
    /// Read every buffered FIFO entry.
    DrainFifo,
    /// Leave the task with this error.
    Stop(SetupError),
}

/// What the driver loop reports back.
#[derive(Debug, PartialEq, Eq)]
pub enum SensorsEvent {
    InterruptPinClaimed { ok: bool },
    /// A self-test that failed or could not be run reports `false`.
    SelfTested { gyroscope_ok: bool, accelerometer_ok: bool },
    Configured { ok: bool },
    InterruptEdge { ok: bool },
    /// The entries read from the FIFO, oldest first. `ok` is false where the
    /// read broke off; `samples` then holds what had been read until then.
    Drained { samples: Vec<FifoSample>, ok: bool },
}

/// The task as a value: its phase, the reading it last computed and all it
/// has written to the store.
pub struct SensorsState {
    pub phase: SensorsPhase,
    pub reading: Orientation,
    pub writes: Seq<Orientation>,
}

/// The request that a task in `phase` has outstanding.
pub open spec fn sensors_pending(phase: SensorsPhase) -> SensorsAction {
    match phase {
        SensorsPhase::Uninitialized => SensorsAction::ClaimInterruptPin,
        SensorsPhase::SelfTest => SensorsAction::RunSelfTest,
        SensorsPhase::Configuring(position) => if position < sensor_plan().len() {
            SensorsAction::Configure(sensor_plan()[position as int])
        } else {
            SensorsAction::AwaitInterrupt
        },
        SensorsPhase::AwaitingInterrupt => SensorsAction::AwaitInterrupt,
        SensorsPhase::Draining => SensorsAction::DrainFifo,
        SensorsPhase::Stopped(error) => SensorsAction::Stop(error),
    }
}

/// The task after `event`.
///
/// A failed claim of the interrupt pin stops the task. The self-test's
/// verdicts are written to the store whatever they are, and configuration
/// follows in any case. A failed configuration write changes nothing: the
/// next setting is written. A failed interrupt wait or FIFO read sends the
/// task back to waiting; what had been read is kept. An event that does not
/// answer the outstanding request is ignored.
pub open spec fn sensors_step(state: SensorsState, event: SensorsEvent) -> SensorsState {
    match (state.phase, event) {
        (SensorsPhase::Uninitialized, SensorsEvent::InterruptPinClaimed { ok }) => SensorsState {
            phase: if ok {
                SensorsPhase::SelfTest
            } else {
                SensorsPhase::Stopped(SetupError::InterruptPin)
            },
            ..state
        },
        (SensorsPhase::SelfTest, SensorsEvent::SelfTested { gyroscope_ok, accelerometer_ok }) => {
            let reading = state.reading.with_liveness(gyroscope_ok, accelerometer_ok);
            SensorsState {
                phase: SensorsPhase::Configuring(0),
                reading,
                writes: state.writes.push(reading),
            }
        },
        (SensorsPhase::Configuring(position), SensorsEvent::Configured { ok }) => SensorsState {
            phase: if position + 1 < sensor_plan().len() {
                SensorsPhase::Configuring((position + 1) as usize)
            } else {
                SensorsPhase::AwaitingInterrupt
            },
            ..state
        },
        (SensorsPhase::AwaitingInterrupt, SensorsEvent::InterruptEdge { ok }) => SensorsState {
            phase: if ok {
                SensorsPhase::Draining
            } else {
                SensorsPhase::AwaitingInterrupt
            },
            ..state
        },
        (SensorsPhase::Draining, SensorsEvent::Drained { samples, ok }) => SensorsState {
            phase: SensorsPhase::AwaitingInterrupt,
            reading: state.reading.after_batch(samples@),
            writes: state.writes + state.reading.batch_writes(samples@),
        },
        _ => state,
    }
}

/// What the inertial task owns: its handle on the reading's slot and its
/// own progress.
pub struct SensorsTaskData {
    shared_orientation: SharedSlot<Orientation>,
    phase: SensorsPhase,
    reading: Orientation,
}

impl View for SensorsTaskData {
    type V = SensorsState;

    closed spec fn view(&self) -> SensorsState {
        SensorsState {
            phase: self.phase,
            reading: self.reading,
            writes: self.shared_orientation.writes(),
        }
    }
}

impl SensorsTaskData {
    /// The lock of the slot that the task writes.
    pub closed spec fn lock(&self) -> std::sync::Mutex<Orientation> {
        self.shared_orientation.lock()
    }

    /// A task that has not started, with its handle on the reading's slot.
    pub fn new(shared_orientation: SharedSlot<Orientation>) -> (data: Self)
        ensures
            data@.phase == SensorsPhase::Uninitialized,
            data@.reading == Orientation::initial(),
            data@.writes == shared_orientation.writes(),
            data.lock() == shared_orientation.lock(),
    {
        SensorsTaskData {
            shared_orientation,
            phase: SensorsPhase::Uninitialized,
            reading: Orientation::default(),
        }
    }

    pub fn phase(&self) -> (phase: SensorsPhase)
        ensures
            phase == self@.phase,
    {
        self.phase
    }

    /// The reading that the task last computed.
    pub fn reading(&self) -> (reading: Orientation)
        ensures
            reading == self@.reading,
    {
        self.reading
    }

    /// The request that is outstanding: the first one for a new task, and
    /// afterwards the one that the last call of [`gyroscope_task`] returned.
    pub fn pending(&self) -> (action: SensorsAction)
        ensures
            action == sensors_pending(self@.phase),
    {
        match self.phase {
            SensorsPhase::Uninitialized => SensorsAction::ClaimInterruptPin,
            SensorsPhase::SelfTest => SensorsAction::RunSelfTest,
            SensorsPhase::Configuring(position) => {
                let plan = sensors_setup();
                if position < plan.len() {
                    SensorsAction::Configure(plan[position])
                } else {
                    SensorsAction::AwaitInterrupt
                }
            },
            SensorsPhase::AwaitingInterrupt => SensorsAction::AwaitInterrupt,
            SensorsPhase::Draining => SensorsAction::DrainFifo,
            SensorsPhase::Stopped(error) => SensorsAction::Stop(error),
        }
    }

    /// Puts every entry of a drained batch into the slot, oldest first.
    fn drain(&mut self, samples: &Vec<FifoSample>)
        ensures
            final(self).phase == old(self).phase,
            final(self).reading == old(self).reading.after_batch(samples@),
            final(self).shared_orientation.writes() == old(self).shared_orientation.writes()
                + old(self).reading.batch_writes(samples@),
            final(self).lock() == old(self).lock(),
    {
        let ghost before = self.reading;
        let ghost written = self.shared_orientation.writes();
        let mut done: usize = 0;
        while done < samples.len()
            invariant
                done <= samples.len(),
                self.phase == old(self).phase,
                self.lock() == old(self).lock(),
                self.reading.gyroscope_alive == before.gyroscope_alive,
                self.reading.accelerometer_alive == before.accelerometer_alive,
                self.reading == before.after_batch(samples@.take(done as int)),
                self.shared_orientation.writes() == written + before.batch_writes(
                    samples@.take(done as int),
                ),
            decreases samples.len() - done,
        {
            let sample = samples[done];
            let mut reading = self.reading;
            reading.update(sample.index, sample.angular_rate, sample.acceleration);
            proof {
                assert(reading == before.after_sample(sample));
                assert(samples@.take(done + 1).last() == sample);
                assert(before.batch_writes(samples@.take(done + 1)) =~= before.batch_writes(
                    samples@.take(done as int),
                ).push(reading));
            }
            self.reading = reading;
            self.shared_orientation.replace(reading);
            done = done + 1;
        }
        proof {
            assert(samples@.take(done as int) == samples@);
        }
    }
}

/// One turn of the inertial task: takes in what the driver loop reports and
/// answers with the next request.
pub fn gyroscope_task(data: &mut SensorsTaskData, event: SensorsEvent) -> (action: SensorsAction)
    ensures
        final(data)@ == sensors_step(old(data)@, event),
        action == sensors_pending(final(data)@.phase),
        final(data).lock() == old(data).lock(),
{
    match (data.phase, &event) {
        (SensorsPhase::Uninitialized, SensorsEvent::InterruptPinClaimed { ok }) => {
            if *ok {
                data.phase = SensorsPhase::SelfTest;
            } else {
                data.phase = SensorsPhase::Stopped(SetupError::InterruptPin);
            }
        },
        (SensorsPhase::SelfTest, SensorsEvent::SelfTested { gyroscope_ok, accelerometer_ok }) => {
            let mut reading = data.reading;
            reading.gyroscope_alive = *gyroscope_ok;
            reading.accelerometer_alive = *accelerometer_ok;
            data.reading = reading;
            data.shared_orientation.replace(reading);
            data.phase = SensorsPhase::Configuring(0);
        },
        (SensorsPhase::Configuring(position), SensorsEvent::Configured { ok: _ }) => {
            let plan = sensors_setup();
            if position < plan.len() - 1 {
                data.phase = SensorsPhase::Configuring(position + 1);
            } else {
                data.phase = SensorsPhase::AwaitingInterrupt;
            }
        },
        (SensorsPhase::AwaitingInterrupt, SensorsEvent::InterruptEdge { ok }) => {
            if *ok {
                data.phase = SensorsPhase::Draining;
            }
        },
        (SensorsPhase::Draining, SensorsEvent::Drained { samples, ok: _ }) => {
            data.drain(samples);
            data.phase = SensorsPhase::AwaitingInterrupt;
        },
        _ => {},
    }
    data.pending()
}

/// A drained batch that holds anything leaves the task's reading, and the
/// slot, at the batch's last entry.
pub proof fn drain_ends_on_last_entry(state: SensorsState, samples: Vec<FifoSample>, ok: bool)
    requires
        state.phase == SensorsPhase::Draining,
        samples@.len() > 0,
    ensures
        ({
            let after = sensors_step(state, SensorsEvent::Drained { samples, ok });
            &&& after.reading == state.reading.after_sample(samples@.last())
            &&& after.writes.last() == after.reading
            &&& after.writes.len() == state.writes.len() + samples@.len()
        }),
{
}

/// Batches never touch the liveness flags.
pub proof fn batches_keep_liveness(before: Orientation, batches: Seq<Seq<FifoSample>>)
    ensures
        before.after_batches(batches).gyroscope_alive == before.gyroscope_alive,
        before.after_batches(batches).accelerometer_alive == before.accelerometer_alive,
    decreases batches.len(),
{
    if batches.len() > 0 {
        batches_keep_liveness(before, batches.drop_last());
    }
}

/// Last write wins: after any number of batches the reading is that of the
/// last entry of the last batch, with the liveness flags it had before. It
/// is no aggregate: nothing of an earlier entry or batch is left in it, and
/// it is the value that the last write put into the slot.
pub proof fn last_entry_wins(before: Orientation, batches: Seq<Seq<FifoSample>>)
    requires
        batches.len() > 0,
        batches.last().len() > 0,
    ensures
        before.after_batches(batches) == before.after_sample(batches.last().last()),
        before.after_batches(batches) == before.after_batches(batches.drop_last()).batch_writes(
            batches.last(),
        ).last(),
{
    batches_keep_liveness(before, batches.drop_last());
}

} // verus!

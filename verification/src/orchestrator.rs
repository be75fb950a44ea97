//! The orchestrator: creates the store, places the three tasks on cores and
//! priorities, and keeps account of the tasks that have ended.

use crate::fault::SetupError;
use crate::gyroscope_task::{Orientation, SensorsPhase, SensorsTaskData};
use crate::screen_draw::{DrawContext, DrawOp};
use crate::screen_task::{FrameGate, ThreadDisplayData, TARGET_FRAME_INTERVAL_MS};
use crate::shared_state::SharedSlot;
use crate::touch_task::{KeyEvent, TouchPhase, TouchTaskData};
use vstd::prelude::*;

verus! {

/// The three tasks.
#[derive(Clone, Copy, Debug, PartialEq, Eq, Structural)]
pub enum Task {
    Display,
    Gyroscope,
    Touch,
}

/// The two processor cores.
#[derive(Clone, Copy, Debug, PartialEq, Eq, Structural)]
pub enum Core {
    Core0,
    Core1,
}

/// Stack that every task needs for itself, in bytes.
pub const COMMON_STACK: usize = 7000;

/// Size of the display driver's frame buffer: 240 by 240 pixels of two
/// bytes each.
pub const FRAME_BUFFER_BYTES: usize = 240 * 240 * 2;

/// Size of the twelve-row drawing buffer.
pub const ROW_BUFFER_BYTES: usize = 240 * 12;

/// Priority of the render task.
pub const DISPLAY_PRIORITY: u8 = 15;

/// Priority of the two acquisition tasks.
pub const ACQUISITION_PRIORITY: u8 = 10;

/// Where and how a task runs.
#[derive(Clone, Copy, Debug, PartialEq, Eq, Structural)]
pub struct TaskConfig {
    pub core_affinity: Core,
    pub priority: u8,
    pub stack_size: usize,
}

/// The placement of each task. The render task also holds the frame buffer
/// and the row buffer on its stack.
pub open spec fn placement(task: Task) -> TaskConfig {
    match task {
        Task::Display => TaskConfig {
            core_affinity: Core::Core1,
            priority: DISPLAY_PRIORITY,
            stack_size: (COMMON_STACK + FRAME_BUFFER_BYTES + ROW_BUFFER_BYTES) as usize,
        },
        Task::Gyroscope => TaskConfig {
            core_affinity: Core::Core0,
            priority: ACQUISITION_PRIORITY,
            stack_size: COMMON_STACK,
        },
        Task::Touch => TaskConfig {
            core_affinity: Core::Core0,
            priority: ACQUISITION_PRIORITY,
            stack_size: COMMON_STACK,
        },
    }
}

/// The core, priority and stack size that `task` is started with.
pub fn task_config(task: Task) -> (config: TaskConfig)
    ensures
        config == placement(task),
{
    match task {
        Task::Display => TaskConfig {
            core_affinity: Core::Core1,
            priority: DISPLAY_PRIORITY,
            stack_size: COMMON_STACK + FRAME_BUFFER_BYTES + ROW_BUFFER_BYTES,
        },
        Task::Gyroscope => TaskConfig {
            core_affinity: Core::Core0,
            priority: ACQUISITION_PRIORITY,
            stack_size: COMMON_STACK,
        },
        Task::Touch => TaskConfig {
            core_affinity: Core::Core0,
            priority: ACQUISITION_PRIORITY,
            stack_size: COMMON_STACK,
        },
    }
}

/// The render task has a core to itself and the highest priority; the two
/// acquisition tasks share the other core at one priority.
pub proof fn render_task_is_isolated(task: Task)
    requires
        task != Task::Display,
    ensures
        placement(task).core_affinity != placement(Task::Display).core_affinity,
        placement(task).priority < placement(Task::Display).priority,
        placement(task).core_affinity == placement(Task::Gyroscope).core_affinity,
        placement(task).priority == placement(Task::Gyroscope).priority,
{
}

/// Whether a task still runs, and how it ended if it does not.
#[derive(Clone, Copy, Debug, PartialEq, Eq, Structural)]
pub enum TaskStatus {
    Running,
    /// Returned without an error.
    Finished,
    /// Ended by a setup error.
    Failed(SetupError),
}

/// The orchestrator's account of the three tasks.
#[derive(Clone, Copy, Debug, PartialEq, Eq, Structural)]
pub struct Supervisor {
    pub display: TaskStatus,
    pub gyroscope: TaskStatus,
    pub touch: TaskStatus,
}

impl Supervisor {
    /// The account at start: all three tasks run.
    pub open spec fn started() -> Self {
        Supervisor {
            display: TaskStatus::Running,
            gyroscope: TaskStatus::Running,
            touch: TaskStatus::Running,
        }
    }

    pub open spec fn status_of(self, task: Task) -> TaskStatus {
        match task {
            Task::Display => self.display,
            Task::Gyroscope => self.gyroscope,
            Task::Touch => self.touch,
        }
    }

    /// The status that an exit with `outcome` leaves.
    pub open spec fn ended(outcome: Option<SetupError>) -> TaskStatus {
        match outcome {
            Some(error) => TaskStatus::Failed(error),
            None => TaskStatus::Finished,
        }
    }

    /// The account after `task` ended with `outcome`: its status changes,
    /// that of the two others stays.
    pub open spec fn after_exit(self, task: Task, outcome: Option<SetupError>) -> Self {
        match task {
            Task::Display => Supervisor { display: Self::ended(outcome), ..self },
            Task::Gyroscope => Supervisor { gyroscope: Self::ended(outcome), ..self },
            Task::Touch => Supervisor { touch: Self::ended(outcome), ..self },
        }
    }

    pub fn new() -> (supervisor: Self)
        ensures
            supervisor == Self::started(),
    {
        Supervisor {
            display: TaskStatus::Running,
            gyroscope: TaskStatus::Running,
            touch: TaskStatus::Running,
        }
    }

    pub fn status(&self, task: Task) -> (status: TaskStatus)
        ensures
            status == self.status_of(task),
    {
        match task {
            Task::Display => self.display,
            Task::Gyroscope => self.gyroscope,
            Task::Touch => self.touch,
        }
    }

    /// Records that `task` has ended, with the setup error that ended it
    /// if there was one. The error is handed back for the log; the other
    /// tasks are left to run.
    pub fn task_exited(&mut self, task: Task, outcome: Option<SetupError>) -> (report: Option<
        (Task, SetupError),
    >)
        ensures
            *final(self) == old(self).after_exit(task, outcome),
            report == match outcome {
                Some(error) => Some((task, error)),
                None => None,
            },
    {
        let status = match outcome {
            Some(error) => TaskStatus::Failed(error),
            None => TaskStatus::Finished,
        };
        match task {
            Task::Display => {
                self.display = status;
            },
            Task::Gyroscope => {
                self.gyroscope = status;
            },
            Task::Touch => {
                self.touch = status;
            },
        }
        match outcome {
            Some(error) => Some((task, error)),
            None => None,
        }
    }

    /// Whether no task runs any more, so that the process may end.
    pub fn all_exited(&self) -> (done: bool)
        ensures
            done == forall|task: Task| self.status_of(task) != TaskStatus::Running,
    {
        let done = !matches!(self.display, TaskStatus::Running) && !matches!(
            self.gyroscope,
            TaskStatus::Running
        ) && !matches!(self.touch, TaskStatus::Running);
        proof {
            if done {
                assert forall|task: Task| self.status_of(task) != TaskStatus::Running by {}
            } else {
                assert(self.status_of(Task::Display) == TaskStatus::Running || self.status_of(
                    Task::Gyroscope,
                ) == TaskStatus::Running || self.status_of(Task::Touch) == TaskStatus::Running);
            }
        }
        done
    }
}

/// All that the orchestrator hands to the three tasks when it starts them.
pub struct Launch {
    pub display: ThreadDisplayData,
    pub gyroscope: SensorsTaskData,
    pub touch: TouchTaskData,
    pub supervisor: Supervisor,
}

/// Creates the store and the three tasks.
///
/// The store has two slots, one for the inertial reading and one for the
/// pending touch reading, each with its initial value. The acquisition
/// tasks get the handle that made their slot, the render task a second
/// handle on each. No task has started.
pub fn app_main() -> (launch: Launch)
    ensures
        launch.gyroscope@.phase == SensorsPhase::Uninitialized,
        launch.gyroscope@.reading == Orientation::initial(),
        launch.gyroscope@.writes == seq![Orientation::initial()],
        launch.touch@.phase == TouchPhase::Uninitialized,
        launch.touch@.writes == seq![None::<KeyEvent>],
        launch.display@.context == DrawContext::initial(),
        launch.display@.gate == (FrameGate {
            interval: TARGET_FRAME_INTERVAL_MS,
            last_flush: None,
        }),
        launch.display@.frame == Seq::<DrawOp>::empty(),
        launch.display.orientation_writes() == Seq::<Orientation>::empty(),
        launch.display.cursor_writes() == Seq::<Option<KeyEvent>>::empty(),
        launch.display.orientation_lock() == launch.gyroscope.lock(),
        launch.display.cursor_lock() == launch.touch.lock(),
        launch.supervisor == Supervisor::started(),
{
    let shared_orientation: SharedSlot<Orientation> = SharedSlot::new(Orientation::default());
    let shared_cursor: SharedSlot<Option<KeyEvent>> = SharedSlot::new(None);
    let display = ThreadDisplayData::new(
        shared_orientation.share(),
        shared_cursor.share(),
        TARGET_FRAME_INTERVAL_MS,
    );
    Launch {
        display,
        gyroscope: SensorsTaskData::new(shared_orientation),
        touch: TouchTaskData::new(shared_cursor),
        supervisor: Supervisor::new(),
    }
}

} // verus!

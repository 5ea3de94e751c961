//! Tasks: the kernel's scheduling and task-local-storage state, typed task
//! handles, and the task builder.
//!
//! The kernel owns every task's scheduling state and its small fixed array
//! of task-local storage slots. [`Kernel`] is that state, held as plain
//! data so that everything this layer decides about it — slot bookkeeping,
//! task creation, notification counts — is verified; the calls that let a
//! real kernel carry the decisions out live outside the library and hand
//! values in and out.

use vstd::prelude::*;

verus! {

/// How many task-local storage slots the kernel provides per task. Slot 0
/// is reserved by this layer to anchor the task's next-free-slot counter.
pub const TLS_SLOT_COUNT: usize = 8;

/// Code the kernel reports for a running task.
pub const TASK_STATE_RUNNING: u32 = 0;

/// Code the kernel reports for a ready task.
pub const TASK_STATE_READY: u32 = 1;

/// Code the kernel reports for a blocked task.
pub const TASK_STATE_BLOCKED: u32 = 2;

/// Code the kernel reports for a suspended task.
pub const TASK_STATE_SUSPENDED: u32 = 3;

/// Code the kernel reports for a deleted task.
pub const TASK_STATE_DELETED: u32 = 4;

/// The priority given to tasks that do not choose one.
pub const DEFAULT_TASK_PRIORITY: u32 = 8;

/// The stack size given to tasks that do not choose one.
pub const DEFAULT_STACK_DEPTH: u32 = 8192;

/// The small stack size for tasks with little state.
pub const LOW_STACK_DEPTH: u32 = 512;

/// Represents the current state of a task.
#[derive(Clone, Copy, Debug, PartialEq, Eq, Structural)]
pub enum TaskState {
    /// The task is currently utilizing the processor.
    Running,
    /// The task is currently yielding but may run in the future.
    Ready,
    /// The task is blocked, for example sleeping or waiting on a mutex.
    Blocked,
    /// The task is suspended and will not run until it is unpaused.
    Suspended,
    /// The task has been deleted.
    Deleted,
    /// The task's state is invalid somehow.
    Invalid,
}

/// The task state a kernel state code stands for.
pub open spec fn task_state_from_code(value: u32) -> TaskState {
    if value == TASK_STATE_RUNNING {
        TaskState::Running
    } else if value == TASK_STATE_READY {
        TaskState::Ready
    } else if value == TASK_STATE_BLOCKED {
        TaskState::Blocked
    } else if value == TASK_STATE_SUSPENDED {
        TaskState::Suspended
    } else if value == TASK_STATE_DELETED {
        TaskState::Deleted
    } else {
        TaskState::Invalid
    }
}

impl From<u32> for TaskState {
    /// Translate a kernel state code; unknown codes are invalid states.
    fn from(value: u32) -> (r: Self) {
        if value == TASK_STATE_RUNNING {
            TaskState::Running
        } else if value == TASK_STATE_READY {
            TaskState::Ready
        } else if value == TASK_STATE_BLOCKED {
            TaskState::Blocked
        } else if value == TASK_STATE_SUSPENDED {
            TaskState::Suspended
        } else if value == TASK_STATE_DELETED {
            TaskState::Deleted
        } else {
            TaskState::Invalid
        }
    }
}

impl vstd::std_specs::convert::FromSpecImpl<u32> for TaskState {
    open spec fn obeys_from_spec() -> bool {
        true
    }

    open spec fn from_spec(value: u32) -> Self {
        task_state_from_code(value)
    }
}

/// How much processor time the scheduler gives a task.
#[derive(Clone, Copy, Debug, PartialEq, Eq, Structural)]
pub enum TaskPriority {
    /// Most of the available time.
    High,
    /// The ordinary share.
    Default,
    /// Only what is left over.
    Low,
}

impl TaskPriority {
    /// The numeric priority the kernel understands.
    pub open spec fn spec_value(self) -> u32 {
        match self {
            TaskPriority::High => 16,
            TaskPriority::Default => DEFAULT_TASK_PRIORITY,
            TaskPriority::Low => 1,
        }
    }

    /// The numeric priority the kernel understands.
    pub fn as_u32(self) -> (r: u32)
        ensures
            r == self.spec_value(),
    {
        match self {
            TaskPriority::High => 16,
            TaskPriority::Default => DEFAULT_TASK_PRIORITY,
            TaskPriority::Low => 1,
        }
    }
}

impl Default for TaskPriority {
    /// The ordinary priority.
    fn default() -> (r: Self)
        ensures
            r == TaskPriority::Default,
    {
        TaskPriority::Default
    }
}

/// How large a stack a task gets.
#[derive(Clone, Copy, Debug, PartialEq, Eq, Structural)]
pub enum TaskStackDepth {
    /// Room enough for ordinary tasks.
    Default,
    /// A small stack, for tasks with few variables and no deep calls.
    Low,
}

impl TaskStackDepth {
    /// The stack size in words, as the kernel takes it.
    pub open spec fn spec_value(self) -> u32 {
        match self {
            TaskStackDepth::Default => DEFAULT_STACK_DEPTH,
            TaskStackDepth::Low => LOW_STACK_DEPTH,
        }
    }

    /// The stack size in words, as the kernel takes it.
    pub fn as_u32(self) -> (r: u32)
        ensures
            r == self.spec_value(),
    {
        match self {
            TaskStackDepth::Default => DEFAULT_STACK_DEPTH,
            TaskStackDepth::Low => LOW_STACK_DEPTH,
        }
    }
}

impl Default for TaskStackDepth {
    /// The ordinary stack size.
    fn default() -> (r: Self)
        ensures
            r == TaskStackDepth::Default,
    {
        TaskStackDepth::Default
    }
}

/// Errors that can occur when spawning a task.
#[derive(Clone, Copy, Debug, PartialEq, Eq, Structural)]
pub enum SpawnError {
    /// The stack cannot be used as the task control block was not created.
    TCBNotCreated,
}

/// The mathematical value of one task's kernel record.
#[verifier::ext_equal]
pub struct TaskModel<V> {
    /// The task-local storage slots; slot 0 is the reserved anchor of the
    /// next-free-slot counter and holds no value.
    pub slots: Seq<Option<V>>,
    /// The task's next unused storage slot.
    pub next_free: int,
    /// The task's name.
    pub name: Seq<char>,
    /// The task's numeric scheduling priority.
    pub priority: u32,
    /// The stack size the task was created with.
    pub stack_depth: u32,
    /// The task's scheduling state.
    pub state: TaskState,
    /// How many notifications are pending for the task.
    pub pending: int,
}

impl<V> TaskModel<V> {
    /// A record is well formed when its slot array has the kernel's fixed
    /// size, slot 0 is reserved, and the slots below the next-free counter
    /// — and only those — are occupied.
    pub open spec fn wf(self) -> bool {
        &&& self.slots.len() == TLS_SLOT_COUNT
        &&& 1 <= self.next_free <= TLS_SLOT_COUNT
        &&& self.slots[0] is None
        &&& forall|i: int| 1 <= i < self.next_free ==> self.slots[i] is Some
        &&& forall|i: int| self.next_free <= i < TLS_SLOT_COUNT ==> self.slots[i] is None
        &&& 0 <= self.pending <= u32::MAX
    }

    /// The record of a task as it is created: storage empty, slot 0
    /// reserved (the next free slot is therefore 1), ready to run.
    pub open spec fn fresh(name: Seq<char>, priority: u32, stack_depth: u32) -> Self {
        TaskModel {
            slots: Seq::new(TLS_SLOT_COUNT as nat, |i: int| Option::<V>::None),
            next_free: 1,
            name: name,
            priority: priority,
            stack_depth: stack_depth,
            state: TaskState::Ready,
            pending: 0,
        }
    }
}

/// The mathematical value of the kernel's task state.
#[verifier::ext_equal]
pub struct KernelModel<V> {
    /// Every task the kernel knows, in creation order; a task's identity
    /// is its position here.
    pub tasks: Seq<TaskModel<V>>,
    /// The identity of the task now holding the processor.
    pub running: int,
    /// How many task control blocks the kernel has memory for.
    pub capacity: int,
    /// The kernel's millisecond tick count.
    pub now_ms: int,
}

impl<V> KernelModel<V> {
    /// The kernel state is well formed when some task is running, the task
    /// count is within the kernel's memory, and every record is well
    /// formed.
    pub open spec fn wf(self) -> bool {
        &&& 1 <= self.tasks.len() <= self.capacity
        &&& 0 <= self.running < self.tasks.len()
        &&& forall|t: int| 0 <= t < self.tasks.len() ==> self.tasks[t].wf()
        &&& 0 <= self.now_ms <= u64::MAX
    }

    /// Whether `t` names a task.
    pub open spec fn valid_task(self, t: int) -> bool {
        0 <= t < self.tasks.len()
    }

    /// The record of the running task.
    pub open spec fn running_task(self) -> TaskModel<V> {
        self.tasks[self.running]
    }

    /// The kernel after one task's record is replaced.
    pub open spec fn with_task(self, t: int, record: TaskModel<V>) -> Self {
        KernelModel { tasks: self.tasks.update(t, record), ..self }
    }

    /// The kernel after task `t` moves to scheduling state `s`.
    pub open spec fn with_state(self, t: int, s: TaskState) -> Self {
        self.with_task(t, TaskModel { state: s, ..self.tasks[t] })
    }

    /// The kernel after one more task is created.
    pub open spec fn spawned(self, name: Seq<char>, priority: u32, stack_depth: u32) -> Self {
        KernelModel { tasks: self.tasks.push(TaskModel::fresh(name, priority, stack_depth)), ..self }
    }

    /// The value in storage slot `s` of task `t`.
    pub open spec fn stored(self, t: int, s: int) -> V {
        self.tasks[t].slots[s]->Some_0
    }

    /// The kernel after the value in an already-occupied slot is replaced.
    pub open spec fn with_stored(self, t: int, s: int, v: V) -> Self {
        self.with_task(t, TaskModel { slots: self.tasks[t].slots.update(s, Some(v)), ..self.tasks[t] })
    }

    /// The kernel after a first touch of task `t`: the value goes into the
    /// task's next free slot and the slot counter moves past it.
    pub open spec fn first_touched(self, t: int, v: V) -> Self {
        self.with_task(
            t,
            TaskModel {
                slots: self.tasks[t].slots.update(self.tasks[t].next_free, Some(v)),
                next_free: self.tasks[t].next_free + 1,
                ..self.tasks[t]
            },
        )
    }
}

/// The kernel's task state: every task's record, the running task, and
/// the tick count.
pub struct Kernel<V> {
    /// Every task the kernel knows, indexed by task identity.
    pub tasks: Vec<TaskControl<V>>,
    /// The identity of the task now holding the processor.
    pub running: usize,
    /// How many task control blocks the kernel has memory for.
    pub capacity: usize,
    /// The kernel's millisecond tick count.
    pub now_ms: u64,
}

/// One task's kernel record: its task-local storage slots, the next-free
/// counter anchored in slot 0, and its scheduling state.
pub struct TaskControl<V> {
    /// The task-local storage slots; slot 0 is the reserved counter
    /// anchor and holds no value.
    pub slots: Vec<Option<V>>,
    /// The task's next unused storage slot.
    pub next_free: usize,
    /// The task's name.
    pub name: String,
    /// The task's numeric scheduling priority.
    pub priority: u32,
    /// The stack size the task was created with.
    pub stack_depth: u32,
    /// The task's scheduling state.
    pub state: TaskState,
    /// How many notifications are pending for the task.
    pub pending: u32,
}

impl<V> View for TaskControl<V> {
    type V = TaskModel<V>;

    open spec fn view(&self) -> TaskModel<V> {
        TaskModel {
            slots: self.slots@,
            next_free: self.next_free as int,
            name: self.name@,
            priority: self.priority,
            stack_depth: self.stack_depth,
            state: self.state,
            pending: self.pending as int,
        }
    }
}

impl<V> View for Kernel<V> {
    type V = KernelModel<V>;

    open spec fn view(&self) -> KernelModel<V> {
        KernelModel {
            tasks: Seq::new(self.tasks@.len(), |t: int| self.tasks@[t]@),
            running: self.running as int,
            capacity: self.capacity as int,
            now_ms: self.now_ms as int,
        }
    }
}

/// A task record with empty storage and slot 0 reserved, so that storage
/// access by the new task finds its counter bootstrapped.
fn bootstrap_task<V>(name: String, priority: u32, stack_depth: u32) -> (r: TaskControl<V>)
    ensures
        r@ == TaskModel::<V>::fresh(name@, priority, stack_depth),
{
    let mut slots: Vec<Option<V>> = Vec::new();
    while slots.len() < TLS_SLOT_COUNT
        invariant
            slots.len() <= TLS_SLOT_COUNT,
            forall|i: int| 0 <= i < slots.len() ==> slots[i] is None,
        decreases TLS_SLOT_COUNT - slots.len(),
    {
        slots.push(None);
    }
    let r = TaskControl {
        slots,
        next_free: 1,
        name,
        priority,
        stack_depth,
        state: TaskState::Ready,
        pending: 0,
    };
    proof {
        assert(r@.slots =~= TaskModel::<V>::fresh(name@, priority, stack_depth).slots);
        assert(r@ =~= TaskModel::<V>::fresh(name@, priority, stack_depth));
    }
    r
}

impl<V> Kernel<V> {
    /// A kernel as it hands control to this layer: memory for `capacity`
    /// task control blocks, and the initialization task — storage
    /// bootstrapped — already running.
    pub fn new(capacity: usize) -> (r: Self)
        requires
            capacity >= 1,
        ensures
            r@.wf(),
            r@.tasks.len() == 1,
            r@.tasks[0] == (TaskModel {
                state: TaskState::Running,
                ..TaskModel::<V>::fresh("main"@, DEFAULT_TASK_PRIORITY, DEFAULT_STACK_DEPTH)
            }),
            r@.running == 0,
            r@.capacity == capacity,
            r@.now_ms == 0,
    {
        let mut main_task = bootstrap_task("main".to_owned(), DEFAULT_TASK_PRIORITY, DEFAULT_STACK_DEPTH);
        main_task.state = TaskState::Running;
        let mut tasks: Vec<TaskControl<V>> = Vec::new();
        tasks.push(main_task);
        let r = Kernel { tasks, running: 0, capacity, now_ms: 0 };
        proof {
            assert(r@.tasks[0] =~= (TaskModel {
                state: TaskState::Running,
                ..TaskModel::<V>::fresh("main"@, DEFAULT_TASK_PRIORITY, DEFAULT_STACK_DEPTH)
            }));
        }
        r
    }

    /// Hand the processor to another task: the model's stand-in for the
    /// kernel's context switch, so that sequences of actions by different
    /// tasks can be expressed.
    pub fn switch_to(&mut self, handle: &TaskHandle)
        requires
            old(self)@.wf(),
            old(self)@.valid_task(handle.task as int),
        ensures
            final(self)@ == (KernelModel { running: handle.task as int, ..old(self)@ }),
            final(self)@.wf(),
    {
        self.running = handle.task;
        proof {
            assert(final(self)@ =~= (KernelModel { running: handle.task as int, ..old(self)@ }));
        }
    }
}

/// Returns the task the function was called from.
pub fn current<V>(kernel: &Kernel<V>) -> (r: TaskHandle)
    requires
        kernel@.wf(),
    ensures
        r.task == kernel@.running,
{
    TaskHandle { task: kernel.running }
}

/// Sleeps the current task for the given number of milliseconds, giving
/// other tasks a chance to run.
pub fn sleep<V>(kernel: &mut Kernel<V>, millis: u32)
    requires
        old(kernel)@.wf(),
        old(kernel)@.now_ms + millis <= u64::MAX,
    ensures
        final(kernel)@ == (KernelModel { now_ms: old(kernel)@.now_ms + millis, ..old(kernel)@ }),
        final(kernel)@.wf(),
{
    kernel.now_ms = kernel.now_ms + millis as u64;
    proof {
        assert(final(kernel)@ =~= (KernelModel {
            now_ms: old(kernel)@.now_ms + millis,
            ..old(kernel)@
        }));
    }
}

/// Takes the first notification pending for the current task and returns
/// its count. The kernel call blocks until a notification arrives; here
/// one must already be pending.
pub fn get_notification<V>(kernel: &mut Kernel<V>) -> (r: u32)
    requires
        old(kernel)@.wf(),
        old(kernel)@.running_task().pending > 0,
    ensures
        r == old(kernel)@.running_task().pending,
        final(kernel)@ == old(kernel)@.with_task(
            old(kernel)@.running,
            TaskModel { pending: old(kernel)@.running_task().pending - 1, ..old(kernel)@.running_task() },
        ),
        final(kernel)@.wf(),
{
    let t = kernel.running;
    let pending = kernel.tasks[t].pending;
    kernel.tasks[t].pending = pending - 1;
    proof {
        assert(final(kernel)@.tasks =~= old(kernel)@.with_task(
            old(kernel)@.running,
            TaskModel {
                pending: old(kernel)@.running_task().pending - 1,
                ..old(kernel)@.running_task()
            },
        ).tasks);
        assert(final(kernel)@ =~= old(kernel)@.with_task(
            old(kernel)@.running,
            TaskModel {
                pending: old(kernel)@.running_task().pending - 1,
                ..old(kernel)@.running_task()
            },
        ));
    }
    pending
}

/// An owned permission to perform actions on a task. The handle carries
/// the task's kernel identity; equality is that identity alone.
#[derive(Clone, Copy, Debug, PartialEq, Eq, Hash, Structural)]
pub struct TaskHandle {
    /// The kernel's identity for the task.
    pub task: usize,
}

impl TaskHandle {
    /// Whether this handle names a task of `k`.
    pub open spec fn valid<V>(self, k: KernelModel<V>) -> bool {
        k.valid_task(self.task as int)
    }

    /// Pause execution of the task. This can have unintended consequences
    /// if you are not careful: a paused task holding a mutex keeps it
    /// until the task is unpaused.
    pub fn pause<V>(&self, kernel: &mut Kernel<V>)
        requires
            old(kernel)@.wf(),
            self.valid(old(kernel)@),
        ensures
            final(kernel)@ == old(kernel)@.with_state(self.task as int, TaskState::Suspended),
            final(kernel)@.wf(),
    {
        let t = self.task;
        kernel.tasks[t].state = TaskState::Suspended;
        proof {
            assert(final(kernel)@.tasks =~= old(kernel)@.with_state(
                self.task as int,
                TaskState::Suspended,
            ).tasks);
            assert(final(kernel)@ =~= old(kernel)@.with_state(
                self.task as int,
                TaskState::Suspended,
            ));
        }
    }

    /// Resumes execution of the task.
    pub fn unpause<V>(&self, kernel: &mut Kernel<V>)
        requires
            old(kernel)@.wf(),
            self.valid(old(kernel)@),
        ensures
            final(kernel)@ == old(kernel)@.with_state(self.task as int, TaskState::Ready),
            final(kernel)@.wf(),
    {
        let t = self.task;
        kernel.tasks[t].state = TaskState::Ready;
        proof {
            assert(final(kernel)@.tasks =~= old(kernel)@.with_state(
                self.task as int,
                TaskState::Ready,
            ).tasks);
            assert(final(kernel)@ =~= old(kernel)@.with_state(self.task as int, TaskState::Ready));
        }
    }

    /// Sets the task's priority, allowing you to control how much
    /// processor time is allocated to it.
    pub fn set_priority<V>(&self, kernel: &mut Kernel<V>, priority: u32)
        requires
            old(kernel)@.wf(),
            self.valid(old(kernel)@),
        ensures
            final(kernel)@ == old(kernel)@.with_task(
                self.task as int,
                TaskModel { priority: priority, ..old(kernel)@.tasks[self.task as int] },
            ),
            final(kernel)@.wf(),
    {
        let t = self.task;
        kernel.tasks[t].priority = priority;
        proof {
            assert(final(kernel)@.tasks =~= old(kernel)@.with_task(
                self.task as int,
                TaskModel { priority: priority, ..old(kernel)@.tasks[self.task as int] },
            ).tasks);
            assert(final(kernel)@ =~= old(kernel)@.with_task(
                self.task as int,
                TaskModel { priority: priority, ..old(kernel)@.tasks[self.task as int] },
            ));
        }
    }

    /// Get the state of the task.
    pub fn state<V>(&self, kernel: &Kernel<V>) -> (r: TaskState)
        requires
            kernel@.wf(),
            self.valid(kernel@),
        ensures
            r == kernel@.tasks[self.task as int].state,
    {
        kernel.tasks[self.task].state
    }

    /// Send a notification to the task.
    pub fn notify<V>(&self, kernel: &mut Kernel<V>)
        requires
            old(kernel)@.wf(),
            self.valid(old(kernel)@),
            old(kernel)@.tasks[self.task as int].pending < u32::MAX,
        ensures
            final(kernel)@ == old(kernel)@.with_task(
                self.task as int,
                TaskModel {
                    pending: old(kernel)@.tasks[self.task as int].pending + 1,
                    ..old(kernel)@.tasks[self.task as int]
                },
            ),
            final(kernel)@.wf(),
    {
        let t = self.task;
        let pending = kernel.tasks[t].pending;
        kernel.tasks[t].pending = pending + 1;
        proof {
            assert(final(kernel)@.tasks =~= old(kernel)@.with_task(
                self.task as int,
                TaskModel {
                    pending: old(kernel)@.tasks[self.task as int].pending + 1,
                    ..old(kernel)@.tasks[self.task as int]
                },
            ).tasks);
            assert(final(kernel)@ =~= old(kernel)@.with_task(
                self.task as int,
                TaskModel {
                    pending: old(kernel)@.tasks[self.task as int].pending + 1,
                    ..old(kernel)@.tasks[self.task as int]
                },
            ));
        }
    }

    /// Waits for the task to finish, and then deletes it.
    pub fn join<V>(self, kernel: &mut Kernel<V>)
        requires
            old(kernel)@.wf(),
            self.valid(old(kernel)@),
        ensures
            final(kernel)@ == old(kernel)@.with_state(self.task as int, TaskState::Deleted),
            final(kernel)@.wf(),
    {
        let t = self.task;
        kernel.tasks[t].state = TaskState::Deleted;
        proof {
            assert(final(kernel)@.tasks =~= old(kernel)@.with_state(
                self.task as int,
                TaskState::Deleted,
            ).tasks);
            assert(final(kernel)@ =~= old(kernel)@.with_state(
                self.task as int,
                TaskState::Deleted,
            ));
        }
    }

    /// Aborts the task and consumes it. Memory allocated by the task will
    /// not be freed.
    pub fn abort<V>(self, kernel: &mut Kernel<V>)
        requires
            old(kernel)@.wf(),
            self.valid(old(kernel)@),
        ensures
            final(kernel)@ == old(kernel)@.with_state(self.task as int, TaskState::Deleted),
            final(kernel)@.wf(),
    {
        let t = self.task;
        kernel.tasks[t].state = TaskState::Deleted;
        proof {
            assert(final(kernel)@.tasks =~= old(kernel)@.with_state(
                self.task as int,
                TaskState::Deleted,
            ).tasks);
            assert(final(kernel)@ =~= old(kernel)@.with_state(
                self.task as int,
                TaskState::Deleted,
            ));
        }
    }
}

/// An ergonomic builder for tasks. Alternatively you can use [`spawn`].
pub struct Builder<'a> {
    /// The name the task will get, if one was chosen.
    pub name: Option<&'a str>,
    /// The priority the task will get, if one was chosen.
    pub priority: Option<TaskPriority>,
    /// The stack size the task will get, if one was chosen.
    pub stack_depth: Option<TaskStackDepth>,
}

impl<'a> Builder<'a> {
    /// The name the built task will carry.
    pub open spec fn chosen_name(self) -> Seq<char> {
        match self.name {
            Some(n) => n@,
            None => "<unnamed>"@,
        }
    }

    /// The numeric priority the built task will get.
    pub open spec fn chosen_priority(self) -> u32 {
        match self.priority {
            Some(p) => p.spec_value(),
            None => DEFAULT_TASK_PRIORITY,
        }
    }

    /// The stack size the built task will get.
    pub open spec fn chosen_stack_depth(self) -> u32 {
        match self.stack_depth {
            Some(d) => d.spec_value(),
            None => DEFAULT_STACK_DEPTH,
        }
    }

    /// Creates a task builder.
    pub fn new() -> (r: Self)
        ensures
            r == (Builder { name: None, priority: None, stack_depth: None }),
    {
        Builder { name: None, priority: None, stack_depth: None }
    }

    /// Sets the name of the task, this is useful for debugging.
    pub fn name(self, name: &'a str) -> (r: Self)
        ensures
            r == (Builder { name: Some(name), ..self }),
    {
        Builder { name: Some(name), ..self }
    }

    /// Sets the priority of the task (how much time the scheduler gives
    /// to it).
    pub fn priority(self, priority: TaskPriority) -> (r: Self)
        ensures
            r == (Builder { priority: Some(priority), ..self }),
    {
        Builder { priority: Some(priority), ..self }
    }

    /// Sets how large the stack for the task is. This can usually be left
    /// at the default.
    pub fn stack_depth(self, stack_depth: TaskStackDepth) -> (r: Self)
        ensures
            r == (Builder { stack_depth: Some(stack_depth), ..self }),
    {
        Builder { stack_depth: Some(stack_depth), ..self }
    }

    /// Builds and spawns the task.
    pub fn spawn<V>(self, kernel: &mut Kernel<V>) -> (r: Result<TaskHandle, SpawnError>)
        requires
            old(kernel)@.wf(),
        ensures
            final(kernel)@.wf(),
            old(kernel)@.tasks.len() == old(kernel)@.capacity ==> (r == Result::<
                TaskHandle,
                SpawnError,
            >::Err(SpawnError::TCBNotCreated) && *final(kernel) == *old(kernel)),
            old(kernel)@.tasks.len() < old(kernel)@.capacity ==> (r == Result::<
                TaskHandle,
                SpawnError,
            >::Ok(TaskHandle { task: old(kernel)@.tasks.len() as usize }) && final(kernel)@ == old(
                kernel,
            )@.spawned(self.chosen_name(), self.chosen_priority(), self.chosen_stack_depth())),
    {
        let priority = match self.priority {
            Some(p) => p,
            None => TaskPriority::default(),
        };
        let stack_depth = match self.stack_depth {
            Some(d) => d,
            None => TaskStackDepth::default(),
        };
        spawn_inner(kernel, priority, stack_depth, self.name)
    }
}

impl<'a> Default for Builder<'a> {
    /// A builder with nothing chosen.
    fn default() -> (r: Self)
        ensures
            r == (Builder { name: None, priority: None, stack_depth: None }),
    {
        Builder::new()
    }
}

/// Ask the kernel for a task: bootstrap its record (storage empty, the
/// next-free-slot counter anchored in slot 0) and hand back its handle,
/// or report that the kernel is out of memory for task control blocks.
fn spawn_inner<'a, V>(
    kernel: &mut Kernel<V>,
    priority: TaskPriority,
    stack_depth: TaskStackDepth,
    name: Option<&'a str>,
) -> (r: Result<TaskHandle, SpawnError>)
    requires
        old(kernel)@.wf(),
    ensures
        final(kernel)@.wf(),
        old(kernel)@.tasks.len() == old(kernel)@.capacity ==> (r == Result::<
            TaskHandle,
            SpawnError,
        >::Err(SpawnError::TCBNotCreated) && *final(kernel) == *old(kernel)),
        old(kernel)@.tasks.len() < old(kernel)@.capacity ==> (r == Result::<
            TaskHandle,
            SpawnError,
        >::Ok(TaskHandle { task: old(kernel)@.tasks.len() as usize }) && final(kernel)@ == old(
            kernel,
        )@.spawned(
            match name {
                Some(n) => n@,
                None => "<unnamed>"@,
            },
            priority.spec_value(),
            stack_depth.spec_value(),
        )),
{
    if kernel.tasks.len() == kernel.capacity {
        return Err(SpawnError::TCBNotCreated);
    }
    let task_name: String = match name {
        Some(n) => n.to_owned(),
        None => "<unnamed>".to_owned(),
    };
    let record = bootstrap_task(task_name, priority.as_u32(), stack_depth.as_u32());
    let id = kernel.tasks.len();
    kernel.tasks.push(record);
    proof {
        let spawned = old(kernel)@.spawned(
            match name {
                Some(n) => n@,
                None => "<unnamed>"@,
            },
            priority.spec_value(),
            stack_depth.spec_value(),
        );
        assert(final(kernel)@.tasks =~= spawned.tasks);
        assert(final(kernel)@ =~= spawned);
    }
    Ok(TaskHandle { task: id })
}

/// Creates a task to be run concurrently by the kernel's scheduler. Tasks
/// should be long-living; starting many tasks can be slow and is usually
/// not necessary.
pub fn spawn<V>(kernel: &mut Kernel<V>) -> (r: TaskHandle)
    requires
        old(kernel)@.wf(),
        old(kernel)@.tasks.len() < old(kernel)@.capacity,
    ensures
        final(kernel)@.wf(),
        r == (TaskHandle { task: old(kernel)@.tasks.len() as usize }),
        final(kernel)@ == old(kernel)@.spawned(
            "<unnamed>"@,
            DEFAULT_TASK_PRIORITY,
            DEFAULT_STACK_DEPTH,
        ),
{
    match Builder::new().spawn(kernel) {
        Ok(handle) => handle,
        Err(_) => vstd::pervasive::unreached(),
    }
}

} // verus!

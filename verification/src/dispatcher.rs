//! The priority-ceiling dispatcher.
//!
//! One number, the threshold, says which priority a trigger needs to preempt
//! what is running. Dispatching a task raises it to the task's priority,
//! entering a critical section raises it to the resource's ceiling, and
//! leaving either puts back the value that was found. The dispatcher keeps
//! the values to put back on a stack of frames, one per task that is active
//! and one per section that is open.
//!
//! `State` is the mathematical model; every operation of `Dispatcher` is
//! stated as a step of the model, and the laws at the end of the file are
//! proved of the model.

use crate::error::{ConfigurationError, DriverError, FaultCondition};
use crate::registry::{accesses, lemma_max_priority, Peripheral, Registry, RESOURCE_SLOTS};
use vstd::prelude::*;

verus! {

/// The threshold during initialisation: nothing preempts.
pub const THRESHOLD_MAX: u8 = 255;

/// The threshold of the idle loop: everything preempts.
pub const THRESHOLD_IDLE: u8 = 0;

/// The handle of a resource: what initialisation produces for each declared
/// resource and what a critical section lends to its body.
#[derive(Clone, Copy, Debug, PartialEq, Eq, Structural)]
pub struct ResourceHandle {
    pub id: u8,
    pub kind: Peripheral,
}

/// One entry of the dispatcher's stack.
#[derive(Clone, Copy, Debug)]
pub struct Frame {
    /// The task that runs while this frame is on top.
    pub task: usize,
    /// `None` for the activation of `task`; the resource for a section.
    pub resource: Option<u8>,
    /// The threshold to put back when the frame ends.
    pub saved: u8,
    /// The threshold while this frame is on top.
    pub level: u8,
}

/// What the dispatcher answers to a trigger.
#[derive(Clone, Copy, Debug, PartialEq, Eq, Structural)]
pub enum TriggerOutcome {
    /// The task outranks the threshold and is to be dispatched now.
    Dispatch { task: usize },
    /// The task stays pending until the threshold falls below its priority.
    Deferred { task: usize },
}

/// The larger of the current threshold and a ceiling.
pub open spec fn raised(level: u8, ceiling: u8) -> u8 {
    if ceiling > level {
        ceiling
    } else {
        level
    }
}

/// The threshold that a stack of frames stands for.
pub open spec fn top_level(frames: Seq<Frame>) -> u8 {
    if frames.len() == 0 {
        THRESHOLD_IDLE
    } else {
        frames.last().level
    }
}

/// Frame `i` continues the stack below it.
pub open spec fn frame_ok(reg: Registry, frames: Seq<Frame>, i: int) -> bool {
    let f = frames[i];
    &&& f.task < reg.tasks().len()
    &&& f.saved == (if i == 0 {
        THRESHOLD_IDLE
    } else {
        frames[i - 1].level
    })
    &&& match f.resource {
        None => f.level == reg.tasks()[f.task as int].priority && f.level > f.saved,
        Some(r) => {
            &&& i > 0
            &&& frames[i - 1].task == f.task
            &&& accesses(reg.tasks()[f.task as int], r)
            &&& f.level == raised(f.saved, reg.ceiling_of(r))
        },
    }
}

pub open spec fn frames_ok(reg: Registry, frames: Seq<Frame>) -> bool {
    forall|i: int| 0 <= i < frames.len() ==> #[trigger] frame_ok(reg, frames, i)
}

/// The dispatcher as a value: what `Dispatcher` holds, seen as mathematics.
#[verifier::ext_equal]
pub struct State {
    /// Initialisation is over and triggers may be served.
    pub started: bool,
    /// The threshold.
    pub level: u8,
    /// For each task, whether its trigger is pending.
    pub pending: Seq<bool>,
    /// Active tasks and open sections, innermost last.
    pub frames: Seq<Frame>,
    /// For each resource identifier, whether its handle was bound.
    pub bound: Seq<bool>,
}

impl State {
    /// The state of a dispatcher that was just created.
    pub open spec fn initial(reg: Registry) -> State {
        State {
            started: false,
            level: THRESHOLD_MAX,
            pending: Seq::new(reg.tasks().len(), |t: int| false),
            frames: Seq::empty(),
            bound: Seq::new(RESOURCE_SLOTS as nat, |i: int| false),
        }
    }

    /// The state is one a dispatcher over `reg` can be in.
    pub open spec fn wf(self, reg: Registry) -> bool {
        &&& self.pending.len() == reg.tasks().len()
        &&& self.bound.len() == RESOURCE_SLOTS
        &&& forall|id: u8| #[trigger] self.bound[id as int] ==> reg.kind_of(id) is Some
        &&& !self.started ==> self.level == THRESHOLD_MAX && self.frames.len() == 0
        &&& self.started ==> {
            &&& forall|id: u8| (#[trigger] reg.kind_of(id)) is Some ==> self.bound[id as int]
            &&& self.level == top_level(self.frames)
            &&& frames_ok(reg, self.frames)
        }
    }

    /// The preemption rule: the task is pending and outranks the threshold.
    pub open spec fn dispatchable(self, reg: Registry, task: int) -> bool {
        &&& self.started
        &&& 0 <= task < reg.tasks().len()
        &&& self.pending[task]
        &&& reg.tasks()[task].priority > self.level
    }

    /// The task that is running declares the resource.
    pub open spec fn may_access(self, reg: Registry, resource: u8) -> bool {
        &&& self.started
        &&& self.frames.len() > 0
        &&& accesses(reg.tasks()[self.frames.last().task as int], resource)
    }

    /// Some open section is for the resource.
    pub open spec fn holds(self, resource: u8) -> bool {
        exists|i: int| 0 <= i < self.frames.len() && (#[trigger] self.frames[i]).resource == Some(resource)
    }

    /// The task has been dispatched and has not returned.
    pub open spec fn active(self, task: int) -> bool {
        exists|i: int|
            0 <= i < self.frames.len() && (#[trigger] self.frames[i]).task == task
    }

    /// The trigger of `task` fired.
    pub open spec fn trigger(self, task: int) -> State {
        State { pending: self.pending.update(task, true), ..self }
    }

    /// `task` starts to run: its trigger is served, the threshold becomes its
    /// priority, and the threshold found is kept to be put back.
    pub open spec fn activate(self, reg: Registry, task: usize) -> State {
        let priority = reg.tasks()[task as int].priority;
        State {
            level: priority,
            pending: self.pending.update(task as int, false),
            frames: self.frames.push(
                Frame { task, resource: None, saved: self.level, level: priority },
            ),
            ..self
        }
    }

    /// The running task opens a section for `resource`: the threshold becomes
    /// at least the ceiling, and the threshold found is kept to be put back.
    pub open spec fn enter(self, reg: Registry, resource: u8) -> State {
        let level = raised(self.level, reg.ceiling_of(resource));
        State {
            level,
            frames: self.frames.push(
                Frame {
                    task: self.frames.last().task,
                    resource: Some(resource),
                    saved: self.level,
                    level,
                },
            ),
            ..self
        }
    }

    /// The innermost frame ends: the threshold it kept is put back.
    pub open spec fn leave(self) -> State {
        State { level: self.frames.last().saved, frames: self.frames.drop_last(), ..self }
    }

    /// `r` is what is dispatched next: the pending task of highest priority
    /// that outranks the threshold, the first in the table among equals.
    pub open spec fn is_next(self, reg: Registry, r: Option<usize>) -> bool {
        match r {
            Some(t) => {
                &&& self.dispatchable(reg, t as int)
                &&& forall|u: int| #[trigger]
                    self.dispatchable(reg, u) ==> reg.tasks()[u].priority < reg.tasks()[t as int].priority
                        || (reg.tasks()[u].priority == reg.tasks()[t as int].priority && t <= u)
            },
            None => forall|u: int| !#[trigger] self.dispatchable(reg, u),
        }
    }

    /// The first declared resource without a handle, if there is one.
    pub open spec fn first_unbound(self, reg: Registry, id: u8) -> bool {
        &&& reg.kind_of(id) is Some
        &&& !self.bound[id as int]
        &&& forall|other: u8| other < id && (#[trigger] reg.kind_of(other)) is Some ==> self.bound[other as int]
    }

    /// Opens a section for each resource of `resources`, in order.
    pub open spec fn nest(self, reg: Registry, resources: Seq<u8>) -> State
        decreases resources.len(),
    {
        if resources.len() == 0 {
            self
        } else {
            self.nest(reg, resources.drop_last()).enter(reg, resources.last())
        }
    }

    /// Ends the `count` innermost frames.
    pub open spec fn unwind(self, count: nat) -> State
        decreases count,
    {
        if count == 0 {
            self
        } else {
            self.leave().unwind((count - 1) as nat)
        }
    }
}

/// What a task's handler hands on when it fails: a fault that names the task.
pub open spec fn task_result<R>(trigger: u16, res: Result<R, DriverError>) -> Result<
    R,
    FaultCondition,
> {
    match res {
        Ok(value) => Ok(value),
        Err(error) => Err(FaultCondition::TaskFailure { trigger, error }),
    }
}

/// The dispatcher.
pub struct Dispatcher {
    registry: Registry,
    started: bool,
    threshold: u8,
    pending: Vec<bool>,
    frames: Vec<Frame>,
    bound: Vec<bool>,
}

impl View for Dispatcher {
    type V = State;

    closed spec fn view(&self) -> State {
        State {
            started: self.started,
            level: self.threshold,
            pending: self.pending@,
            frames: self.frames@,
            bound: self.bound@,
        }
    }
}

impl Dispatcher {
    /// The registry the dispatcher was created over.
    pub closed spec fn registry(&self) -> Registry {
        self.registry
    }

    /// The dispatcher is in a state its operations can leave it in.
    pub open spec fn wf(&self) -> bool {
        self.registry().wf() && self@.wf(self.registry())
    }

    /// A dispatcher in its initialisation phase: the threshold is at its
    /// maximum, no trigger is pending and no handle is bound.
    pub fn new(registry: Registry) -> (d: Dispatcher)
        requires
            registry.wf(),
        ensures
            d.wf(),
            d.registry() == registry,
            d@ == State::initial(registry),
    {
        let mut pending: Vec<bool> = Vec::new();
        let count = registry.task_count();
        let mut t: usize = 0;
        while t < count
            invariant
                t <= count,
                pending@.len() == t,
                forall|i: int| 0 <= i < t ==> !pending@[i],
            decreases count - t,
        {
            pending.push(false);
            t = t + 1;
        }
        let mut bound: Vec<bool> = Vec::new();
        let mut n: usize = 0;
        while n < RESOURCE_SLOTS
            invariant
                n <= RESOURCE_SLOTS,
                bound@.len() == n,
                forall|i: int| 0 <= i < n ==> !bound@[i],
            decreases RESOURCE_SLOTS - n,
        {
            bound.push(false);
            n = n + 1;
        }
        let d = Dispatcher {
            registry,
            started: false,
            threshold: THRESHOLD_MAX,
            pending,
            frames: Vec::new(),
            bound,
        };
        assert(d@ =~= State::initial(registry));
        d
    }

    /// The registry the dispatcher was created over.
    pub fn config(&self) -> (r: &Registry)
        ensures
            *r == self.registry(),
    {
        &self.registry
    }

    /// The threshold.
    pub fn threshold(&self) -> (t: u8)
        ensures
            t == self@.level,
    {
        self.threshold
    }

    /// Whether initialisation is over.
    pub fn is_started(&self) -> (b: bool)
        ensures
            b == self@.started,
    {
        self.started
    }

    /// Whether the trigger of a task is pending.
    pub fn is_pending(&self, task: usize) -> (b: bool)
        requires
            self.wf(),
        ensures
            b == (task < self.registry().tasks().len() && self@.pending[task as int]),
    {
        task < self.pending.len() && self.pending[task]
    }

    /// The task that is running; `None` in the idle loop and during
    /// initialisation.
    pub fn running(&self) -> (r: Option<usize>)
        ensures
            r == (if self@.frames.len() > 0 {
                Some(self@.frames.last().task)
            } else {
                None
            }),
    {
        if self.frames.len() > 0 {
            Some(self.frames[self.frames.len() - 1].task)
        } else {
            None
        }
    }

    /// Number of frames on the stack.
    pub fn depth(&self) -> (n: usize)
        ensures
            n == self@.frames.len(),
    {
        self.frames.len()
    }

    /// Takes the handle of a resource during initialisation.
    ///
    /// A handle is refused, and nothing changes, when initialisation is over,
    /// when the resource is not declared, when it is declared for another
    /// peripheral, or when it already has a handle; the checks are made in
    /// that order.
    pub fn bind(&mut self, handle: ResourceHandle) -> (r: Result<(), ConfigurationError>)
        requires
            old(self).wf(),
        ensures
            final(self).wf(),
            final(self).registry() == old(self).registry(),
            r == (if old(self)@.started {
                Err::<(), ConfigurationError>(ConfigurationError::InitializationComplete)
            } else if old(self).registry().kind_of(handle.id) is None {
                Err(ConfigurationError::UnknownHandle { id: handle.id })
            } else if old(self).registry().kind_of(handle.id) != Some(handle.kind) {
                Err(ConfigurationError::MismatchedHandle { id: handle.id })
            } else if old(self)@.bound[handle.id as int] {
                Err(ConfigurationError::HandleAlreadyBound { id: handle.id })
            } else {
                Ok(())
            }),
            r is Err ==> final(self)@ == old(self)@,
            r is Ok ==> final(self)@ == (State {
                bound: old(self)@.bound.update(handle.id as int, true),
                ..old(self)@
            }),
    {
        if self.started {
            return Err(ConfigurationError::InitializationComplete);
        }
        match self.registry.kind(handle.id) {
            None => {
                return Err(ConfigurationError::UnknownHandle { id: handle.id });
            },
            Some(kind) => {
                if kind != handle.kind {
                    return Err(ConfigurationError::MismatchedHandle { id: handle.id });
                }
            },
        }
        if self.bound[handle.id as usize] {
            return Err(ConfigurationError::HandleAlreadyBound { id: handle.id });
        }
        self.bound.set(handle.id as usize, true);
        assert(self@ =~= (State {
            bound: old(self)@.bound.update(handle.id as int, true),
            ..old(self)@
        }));
        Ok(())
    }

    /// Ends initialisation: from here on triggers are served.
    ///
    /// Succeeds when every declared resource has a handle; the threshold then
    /// falls to that of the idle loop. Otherwise the first resource without
    /// a handle is reported and nothing changes.
    pub fn start(&mut self) -> (r: Result<(), ConfigurationError>)
        requires
            old(self).wf(),
        ensures
            final(self).wf(),
            final(self).registry() == old(self).registry(),
            r is Err ==> final(self)@ == old(self)@,
            r is Ok ==> final(self)@ == (State {
                started: true,
                level: THRESHOLD_IDLE,
                ..old(self)@
            }),
            r is Ok <==> !old(self)@.started && forall|id: u8|
                (#[trigger] old(self).registry().kind_of(id)) is Some ==> old(self)@.bound[id as int],
            r matches Err(e) ==> (if old(self)@.started {
                e == ConfigurationError::InitializationComplete
            } else {
                e matches ConfigurationError::UnboundResource { id } && old(self)@.first_unbound(
                    old(self).registry(),
                    id,
                )
            }),
    {
        if self.started {
            return Err(ConfigurationError::InitializationComplete);
        }
        let mut n: usize = 0;
        while n < RESOURCE_SLOTS
            invariant
                n <= RESOURCE_SLOTS,
                self.wf(),
                *self == *old(self),
                forall|other: u8|
                    other < n && (#[trigger] self.registry().kind_of(other)) is Some
                        ==> self@.bound[other as int],
            decreases RESOURCE_SLOTS - n,
        {
            let id = n as u8;
            if self.registry.kind(id).is_some() && !self.bound[n] {
                return Err(ConfigurationError::UnboundResource { id });
            }
            n = n + 1;
        }
        self.started = true;
        self.threshold = THRESHOLD_IDLE;
        assert(self@ =~= (State { started: true, level: THRESHOLD_IDLE, ..old(self)@ }));
        Ok(())
    }

    /// A trigger fired.
    ///
    /// The task bound to it becomes pending. It is to be dispatched now when
    /// its priority is above the threshold and deferred otherwise. A trigger
    /// that no task is bound to is a fault, and nothing changes.
    pub fn on_trigger(&mut self, trigger: u16) -> (r: Result<TriggerOutcome, FaultCondition>)
        requires
            old(self).wf(),
        ensures
            final(self).wf(),
            final(self).registry() == old(self).registry(),
            r is Err <==> forall|t: int|
                0 <= t < old(self).registry().tasks().len() ==> (#[trigger] old(
                    self,
                ).registry().tasks()[t]).trigger != trigger,
            r matches Err(e) ==> e == (FaultCondition::UnhandledTrigger { trigger }) && final(self)@
                == old(self)@,
            r matches Ok(outcome) ==> {
                let task = match outcome {
                    TriggerOutcome::Dispatch { task } => task,
                    TriggerOutcome::Deferred { task } => task,
                };
                &&& task < old(self).registry().tasks().len()
                &&& old(self).registry().tasks()[task as int].trigger == trigger
                &&& final(self)@ == old(self)@.trigger(task as int)
                &&& outcome is Dispatch <==> final(self)@.dispatchable(
                    old(self).registry(),
                    task as int,
                )
            },
    {
        match self.registry.task_for_trigger(trigger) {
            None => Err(FaultCondition::UnhandledTrigger { trigger }),
            Some(task) => {
                self.pending.set(task, true);
                assert(self@ =~= old(self)@.trigger(task as int));
                if self.started && self.registry.priority(task) > self.threshold {
                    Ok(TriggerOutcome::Dispatch { task })
                } else {
                    Ok(TriggerOutcome::Deferred { task })
                }
            },
        }
    }

    /// Whether a task may be dispatched now.
    pub fn can_dispatch(&self, task: usize) -> (b: bool)
        requires
            self.wf(),
        ensures
            b == self@.dispatchable(self.registry(), task as int),
    {
        self.started && task < self.pending.len() && self.pending[task] && self.registry.priority(
            task,
        ) > self.threshold
    }

    /// The task to dispatch next, if any may be dispatched.
    pub fn next_ready(&self) -> (r: Option<usize>)
        requires
            self.wf(),
        ensures
            self@.is_next(self.registry(), r),
    {
        if !self.started {
            return None;
        }
        let count = self.pending.len();
        let mut best: Option<usize> = None;
        let mut u: usize = 0;
        while u < count
            invariant
                u <= count,
                count == self.registry().tasks().len(),
                self.wf(),
                self@.started,
                match best {
                    Some(t) => {
                        &&& t < u
                        &&& self@.dispatchable(self.registry(), t as int)
                        &&& forall|v: int|
                            0 <= v < u && #[trigger] self@.dispatchable(self.registry(), v)
                                ==> self.registry().tasks()[v].priority
                                < self.registry().tasks()[t as int].priority || (
                            self.registry().tasks()[v].priority
                                == self.registry().tasks()[t as int].priority && t <= v)
                    },
                    None => forall|v: int|
                        0 <= v < u ==> !#[trigger] self@.dispatchable(self.registry(), v),
                },
            decreases count - u,
        {
            if self.pending[u] && self.registry.priority(u) > self.threshold {
                match best {
                    Some(t) => {
                        if self.registry.priority(u) > self.registry.priority(t) {
                            best = Some(u);
                        }
                    },
                    None => {
                        best = Some(u);
                    },
                }
            }
            u = u + 1;
        }
        best
    }

    /// Whether the running task declares a resource, that is, whether it may
    /// open a section for it.
    pub fn may_access(&self, resource: u8) -> (b: bool)
        requires
            self.wf(),
        ensures
            b == self@.may_access(self.registry(), resource),
    {
        if !self.started || self.frames.len() == 0 {
            return false;
        }
        let top = self.frames[self.frames.len() - 1];
        assert(frame_ok(self.registry(), self@.frames, self@.frames.len() - 1));
        self.registry.declares(top.task, resource)
    }

    /// Runs a task.
    ///
    /// The threshold becomes the task's priority, `entry` runs, and the
    /// threshold that was found is put back, whatever `entry` returned. A
    /// handler that fails is a fault that names the task's trigger.
    ///
    /// `entry` is lent the dispatcher and hands it back: with the stack as it
    /// received it, over the same registry, and well formed.
    pub fn dispatch<R, F>(self, task: usize, entry: F) -> (out: (
        Dispatcher,
        Result<R, FaultCondition>,
    )) where F: FnOnce(Dispatcher) -> (Dispatcher, Result<R, DriverError>)
        requires
            self.wf(),
            self@.dispatchable(self.registry(), task as int),
            forall|d: Dispatcher|
                d.registry() == self.registry() && d@ == self@.activate(self.registry(), task)
                    ==> #[trigger] entry.requires((d,)),
            forall|d: Dispatcher, mid: Dispatcher, res: Result<R, DriverError>|
                d.registry() == self.registry() && d@ == self@.activate(self.registry(), task)
                    && #[trigger] entry.ensures((d,), (mid, res)) ==> mid.wf() && mid.registry()
                    == d.registry() && mid@.started && mid@.frames == d@.frames,
        ensures
            out.0.wf(),
            out.0.registry() == self.registry(),
            out.0@.level == self@.level,
            out.0@.frames == self@.frames,
            exists|d: Dispatcher, mid: Dispatcher, res: Result<R, DriverError>|
                {
                    &&& d.registry() == self.registry()
                    &&& d@ == self@.activate(self.registry(), task)
                    &&& #[trigger] entry.ensures((d,), (mid, res))
                    &&& out.0@ == mid@.leave()
                    &&& out.1 == task_result(self.registry().tasks()[task as int].trigger, res)
                },
    {
        let ghost before = self@;
        let ghost reg = self.registry();
        let found = self.threshold;
        let trigger = self.registry.trigger(task);
        let priority = self.registry.priority(task);
        let mut inner = self;
        inner.pending.set(task, false);
        inner.frames.push(Frame { task, resource: None, saved: found, level: priority });
        inner.threshold = priority;
        proof {
            assert(inner@ =~= before.activate(reg, task));
            lemma_activate(before, reg, task);
        }
        let ghost lent = inner;
        let (mut mid, res) = entry(inner);
        let ghost handed = mid;
        mid.frames.pop();
        mid.threshold = found;
        proof {
            assert(mid@ =~= handed@.leave());
            lemma_leave(handed@, reg);
            assert(mid@.frames =~= before.frames);
        }
        let result = match res {
            Ok(value) => Ok(value),
            Err(error) => Err(FaultCondition::TaskFailure { trigger, error }),
        };
        assert(lent.registry() == reg && lent@ == before.activate(reg, task) && entry.ensures(
            (lent,),
            (handed, res),
        ));
        (mid, result)
    }

    /// Runs `body` with exclusive access to a resource.
    ///
    /// The threshold becomes the larger of what it was and the ceiling of the
    /// resource, `body` runs with the resource's handle, and the threshold
    /// that was found is put back, whatever `body` returned. The result of
    /// `body` is handed on as it is.
    ///
    /// `body` is lent the dispatcher and hands it back: with the stack as it
    /// received it, over the same registry, and well formed.
    pub fn with_resource<R, F>(self, resource: u8, body: F) -> (out: (
        Dispatcher,
        Result<R, DriverError>,
    )) where F: FnOnce(Dispatcher, ResourceHandle) -> (Dispatcher, Result<R, DriverError>)
        requires
            self.wf(),
            self@.may_access(self.registry(), resource),
            forall|d: Dispatcher, handle: ResourceHandle|
                d.registry() == self.registry() && d@ == self@.enter(self.registry(), resource)
                    && handle.id == resource && Some(handle.kind) == self.registry().kind_of(
                    resource,
                ) ==> #[trigger] body.requires((d, handle)),
            forall|
                d: Dispatcher,
                handle: ResourceHandle,
                mid: Dispatcher,
                res: Result<R, DriverError>,
            |
                d.registry() == self.registry() && d@ == self@.enter(self.registry(), resource)
                    && #[trigger] body.ensures((d, handle), (mid, res)) ==> mid.wf()
                    && mid.registry() == d.registry() && mid@.started && mid@.frames == d@.frames,
        ensures
            out.0.wf(),
            out.0.registry() == self.registry(),
            out.0@.level == self@.level,
            out.0@.frames == self@.frames,
            exists|
                d: Dispatcher,
                handle: ResourceHandle,
                mid: Dispatcher,
                res: Result<R, DriverError>,
            |
                {
                    &&& d.registry() == self.registry()
                    &&& d@ == self@.enter(self.registry(), resource)
                    &&& handle.id == resource
                    &&& Some(handle.kind) == self.registry().kind_of(resource)
                    &&& #[trigger] body.ensures((d, handle), (mid, res))
                    &&& out.0@ == mid@.leave()
                    &&& out.1 == res
                },
    {
        let ghost before = self@;
        let ghost reg = self.registry();
        let found = self.threshold;
        let top = self.frames[self.frames.len() - 1];
        proof {
            assert(frame_ok(reg, before.frames, before.frames.len() - 1));
            lemma_declared_resources(reg, top.task as int, resource);
        }
        let kind = self.registry.kind(resource).unwrap();
        let ceiling = self.registry.ceiling(resource).unwrap();
        let level = if ceiling > found {
            ceiling
        } else {
            found
        };
        let mut inner = self;
        inner.frames.push(Frame { task: top.task, resource: Some(resource), saved: found, level });
        inner.threshold = level;
        let handle = ResourceHandle { id: resource, kind };
        proof {
            assert(inner@ =~= before.enter(reg, resource));
            lemma_enter(before, reg, resource);
        }
        let ghost lent = inner;
        let (mut mid, res) = body(inner, handle);
        let ghost handed = mid;
        mid.frames.pop();
        mid.threshold = found;
        proof {
            assert(mid@ =~= handed@.leave());
            lemma_leave(handed@, reg);
            assert(mid@.frames =~= before.frames);
        }
        assert(lent.registry() == reg && lent@ == before.enter(reg, resource) && body.ensures(
            (lent, handle),
            (handed, res),
        ));
        (mid, res)
    }
}

/// Every resource that a task lists is declared.
pub proof fn lemma_declared_resources(reg: Registry, task: int, resource: u8)
    requires
        reg.wf(),
        0 <= task < reg.tasks().len(),
        accesses(reg.tasks()[task], resource),
    ensures
        reg.kind_of(resource) is Some,
        reg.tasks()[task].priority <= reg.ceiling_of(resource),
        reg.ceiling_of(resource) >= 1,
{
    let list = reg.tasks()[task].resources@;
    let k = choose|k: int| 0 <= k < list.len() && list[k] == resource;
    assert(reg.kind_of(reg.tasks()[task].resources@[k]) is Some);
    lemma_max_priority(reg.tasks(), resource);
}

/// Thresholds never fall from one frame to the next above it.
pub proof fn lemma_levels_rise(reg: Registry, frames: Seq<Frame>, low: int, high: int)
    requires
        frames_ok(reg, frames),
        0 <= low <= high < frames.len(),
    ensures
        frames[low].level <= frames[high].level,
        frames[low].saved <= frames[low].level,
    decreases high - low,
{
    assert(frame_ok(reg, frames, low));
    if low < high {
        assert(frame_ok(reg, frames, high));
        lemma_levels_rise(reg, frames, low, high - 1);
    }
}

/// Dispatching a task that may be dispatched keeps the state well formed.
pub proof fn lemma_activate(s: State, reg: Registry, task: usize)
    requires
        reg.wf(),
        s.wf(reg),
        s.dispatchable(reg, task as int),
    ensures
        s.activate(reg, task).wf(reg),
        s.activate(reg, task).level > s.level,
        s.activate(reg, task).leave() == (State {
            pending: s.pending.update(task as int, false),
            ..s
        }),
{
    let next = s.activate(reg, task);
    assert forall|i: int| 0 <= i < next.frames.len() implies #[trigger] frame_ok(
        reg,
        next.frames,
        i,
    ) by {
        if i < s.frames.len() {
            assert(frame_ok(reg, s.frames, i));
        }
    }
    assert(next.leave().frames =~= s.frames);
}

/// Opening a section that may be opened keeps the state well formed and does
/// not lower the threshold; closing it again gives the state back.
pub proof fn lemma_enter(s: State, reg: Registry, resource: u8)
    requires
        reg.wf(),
        s.wf(reg),
        s.may_access(reg, resource),
    ensures
        s.enter(reg, resource).wf(reg),
        s.enter(reg, resource).level >= s.level,
        s.enter(reg, resource).level >= reg.ceiling_of(resource),
        s.enter(reg, resource).leave() == s,
        s.enter(reg, resource).frames.last().task == s.frames.last().task,
{
    let next = s.enter(reg, resource);
    assert(frame_ok(reg, s.frames, s.frames.len() - 1));
    assert forall|i: int| 0 <= i < next.frames.len() implies #[trigger] frame_ok(
        reg,
        next.frames,
        i,
    ) by {
        if i < s.frames.len() {
            assert(frame_ok(reg, s.frames, i));
        }
    }
    assert(next.leave().frames =~= s.frames);
    assert(next.leave() =~= s);
}

/// Ending the innermost frame keeps the state well formed.
pub proof fn lemma_leave(s: State, reg: Registry)
    requires
        s.wf(reg),
        s.started,
        s.frames.len() > 0,
    ensures
        s.leave().wf(reg),
        s.leave().level <= s.level,
{
    let next = s.leave();
    let last = s.frames.len() - 1;
    assert(frame_ok(reg, s.frames, last));
    lemma_levels_rise(reg, s.frames, last, last);
    assert forall|i: int| 0 <= i < next.frames.len() implies #[trigger] frame_ok(
        reg,
        next.frames,
        i,
    ) by {
        assert(frame_ok(reg, s.frames, i));
    }
}

/// Threshold restoration: after any sequence of nested sections has been
/// opened and each has been closed again, the state is the one before the
/// first was opened; and on the way in the threshold never falls.
pub proof fn lemma_nested_sections_restore(s: State, reg: Registry, resources: Seq<u8>)
    requires
        reg.wf(),
        s.wf(reg),
        s.started,
        s.frames.len() > 0,
        forall|k: int|
            0 <= k < resources.len() ==> accesses(
                reg.tasks()[s.frames.last().task as int],
                #[trigger] resources[k],
            ),
    ensures
        s.nest(reg, resources).wf(reg),
        s.nest(reg, resources).started,
        s.nest(reg, resources).frames.len() == s.frames.len() + resources.len(),
        s.nest(reg, resources).frames.last().task == s.frames.last().task,
        s.nest(reg, resources).level >= s.level,
        forall|k: int|
            0 <= k < resources.len() ==> s.nest(reg, resources).level >= reg.ceiling_of(
                #[trigger] resources[k],
            ),
        s.nest(reg, resources).unwind(resources.len()) == s,
    decreases resources.len(),
{
    if resources.len() > 0 {
        let front = resources.drop_last();
        let inner = s.nest(reg, front);
        lemma_nested_sections_restore(s, reg, front);
        assert(accesses(reg.tasks()[s.frames.last().task as int], resources[resources.len() - 1]));
        lemma_enter(inner, reg, resources.last());
        assert forall|k: int| 0 <= k < resources.len() implies s.nest(reg, resources).level
            >= reg.ceiling_of(#[trigger] resources[k]) by {
            if k < front.len() {
                assert(front[k] == resources[k]);
            }
        }
    }
}

/// Mutual exclusion: while a section for a resource is open, no task that
/// accesses the resource can be dispatched.
pub proof fn lemma_mutual_exclusion(s: State, reg: Registry, resource: u8, other: int)
    requires
        reg.wf(),
        s.wf(reg),
        s.holds(resource),
        0 <= other < reg.tasks().len(),
        accesses(reg.tasks()[other], resource),
    ensures
        s.started,
        s.level >= reg.ceiling_of(resource),
        reg.tasks()[other].priority <= s.level,
        !s.dispatchable(reg, other),
{
    let i = choose|i: int| 0 <= i < s.frames.len() && (#[trigger] s.frames[i]).resource == Some(resource);
    lemma_levels_rise(reg, s.frames, i, s.frames.len() - 1);
    assert(frame_ok(reg, s.frames, i));
    lemma_declared_resources(reg, other, resource);
}

/// Mutual exclusion, seen from the stack: all sections that are open for a
/// resource are open on behalf of one task.
pub proof fn lemma_single_holder(s: State, reg: Registry, low: int, high: int)
    requires
        reg.wf(),
        s.wf(reg),
        s.started,
        0 <= low <= high < s.frames.len(),
        s.frames[low].resource is Some,
        s.frames[high].resource == s.frames[low].resource,
    ensures
        s.frames[high].task == s.frames[low].task,
{
    let resource = s.frames[low].resource->0;
    lemma_above_a_section(s, reg, low, high);
    assert(frame_ok(reg, s.frames, high));
    lemma_declared_resources(reg, s.frames[high].task as int, resource);
}

/// Every frame above an open section runs for the task that opened it or
/// for a task that outranks the ceiling of the section's resource.
proof fn lemma_above_a_section(s: State, reg: Registry, low: int, high: int)
    requires
        s.wf(reg),
        s.started,
        0 <= low <= high < s.frames.len(),
        s.frames[low].resource is Some,
    ensures
        s.frames[high].task < reg.tasks().len(),
        s.frames[high].task == s.frames[low].task || reg.tasks()[s.frames[high].task as int].priority
            > reg.ceiling_of(s.frames[low].resource->0),
    decreases high - low,
{
    assert(frame_ok(reg, s.frames, high));
    if low < high {
        lemma_above_a_section(s, reg, low, high - 1);
        assert(frame_ok(reg, s.frames, low));
        lemma_levels_rise(reg, s.frames, low, high - 1);
    }
}

/// A section for a resource is only ever open on behalf of a task that
/// declares the resource.
pub proof fn lemma_sections_belong_to_accessors(s: State, reg: Registry, i: int)
    requires
        s.wf(reg),
        s.started,
        0 <= i < s.frames.len(),
        s.frames[i].resource is Some,
    ensures
        s.frames[i].task < reg.tasks().len(),
        accesses(reg.tasks()[s.frames[i].task as int], s.frames[i].resource->0),
{
    assert(frame_ok(reg, s.frames, i));
}

/// Dispatch ordering, first half: of two tasks whose triggers are pending,
/// the one of lower priority is not the one dispatched next.
pub proof fn lemma_highest_first(
    s: State,
    reg: Registry,
    next: Option<usize>,
    high: usize,
    low: usize,
)
    requires
        s.is_next(reg, next),
        high < reg.tasks().len(),
        low < reg.tasks().len(),
        s.pending[high as int],
        s.pending[low as int],
        reg.tasks()[high as int].priority > reg.tasks()[low as int].priority,
    ensures
        next != Some(low),
        s.dispatchable(reg, high as int) ==> next is Some && reg.tasks()[next->0 as int].priority
            >= reg.tasks()[high as int].priority,
{
    if next == Some(low) {
        assert(s.dispatchable(reg, high as int));
    }
}

/// Dispatch ordering, second half: while a task is active, no task of the
/// same or a lower priority can be dispatched.
pub proof fn lemma_runs_to_completion(s: State, reg: Registry, running: int, low: int)
    requires
        s.wf(reg),
        s.active(running),
        0 <= low < reg.tasks().len(),
        0 <= running < reg.tasks().len() ==> reg.tasks()[low].priority
            <= reg.tasks()[running].priority,
    ensures
        0 <= running < reg.tasks().len(),
        reg.tasks()[running].priority <= s.level,
        !s.dispatchable(reg, low),
{
    let i = choose|i: int| 0 <= i < s.frames.len() && (#[trigger] s.frames[i]).task == running;
    lemma_task_frame_below(s, reg, i);
    let base = choose|b: int|
        0 <= b <= i && (#[trigger] s.frames[b]).task == running && s.frames[b].resource is None;
    assert(frame_ok(reg, s.frames, base));
    lemma_levels_rise(reg, s.frames, base, s.frames.len() - 1);
}

/// Below every frame lies the activation of the task the frame runs for.
proof fn lemma_task_frame_below(s: State, reg: Registry, i: int)
    requires
        s.wf(reg),
        0 <= i < s.frames.len(),
    ensures
        exists|b: int|
            0 <= b <= i && (#[trigger] s.frames[b]).task == s.frames[i].task
                && s.frames[b].resource is None,
    decreases i,
{
    assert(frame_ok(reg, s.frames, i));
    if s.frames[i].resource is Some {
        lemma_task_frame_below(s, reg, i - 1);
        let b = choose|b: int|
            0 <= b <= i - 1 && (#[trigger] s.frames[b]).task == s.frames[i - 1].task
                && s.frames[b].resource is None;
        assert(s.frames[b].task == s.frames[i].task);
    } else {
        assert(s.frames[i].task == s.frames[i].task);
    }
}

} // verus!

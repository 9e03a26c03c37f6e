//! The resource registry: which tasks access which shared peripheral, and
//! from that the priority ceiling of each.
//!
//! A registry is built once from the full task table and never changes. The
//! ceiling of a resource is the highest priority among the tasks that declare
//! it; `max_priority` says so, and `lemma_max_priority` says what "highest"
//! means.

use crate::error::ConfigurationError;
use vstd::prelude::*;

verus! {

/// Number of resource identifiers. Identifiers are the numbers below it.
pub const RESOURCE_SLOTS: usize = 256;

/// The peripheral blocks a resource can stand for.
#[derive(Clone, Copy, Debug, PartialEq, Eq, Structural)]
pub enum Peripheral {
    Syscon,
    Iocon,
    GpioPort,
    GpioPinInt,
    Adc,
    Ct16b0,
    Ct16b1,
    Ct32b0,
    Ct32b1,
    Wwdt,
    Pmu,
    Scb,
    Nvic,
    Usart,
    Ritimer,
}

/// A shared resource as the configuration declares it.
#[derive(Clone, Copy, Debug, PartialEq, Eq, Structural)]
pub struct ResourceDecl {
    pub id: u8,
    pub kind: Peripheral,
}

/// One row of the task table.
#[derive(Clone, Debug)]
pub struct TaskSpec {
    /// The trigger source the task is bound to.
    pub trigger: u16,
    /// Higher is more urgent; 0 is reserved for idle.
    pub priority: u8,
    /// The resources the task may access.
    pub resources: Vec<u8>,
}

/// The task lists the resource.
pub open spec fn accesses(task: TaskSpec, id: u8) -> bool {
    task.resources@.contains(id)
}

/// The highest priority among the tasks that access `id`; 0 where none does.
pub open spec fn max_priority(tasks: Seq<TaskSpec>, id: u8) -> nat
    decreases tasks.len(),
{
    if tasks.len() == 0 {
        0
    } else {
        let rest = max_priority(tasks.drop_last(), id);
        let last = tasks.last();
        if accesses(last, id) && last.priority > rest {
            last.priority as nat
        } else {
            rest
        }
    }
}

/// Some declaration names the identifier.
pub open spec fn declared(decls: Seq<ResourceDecl>, id: u8) -> bool {
    exists|j: int| 0 <= j < decls.len() && (#[trigger] decls[j]).id == id
}

/// Declaration `j` repeats an earlier identifier for another peripheral.
pub open spec fn conflict_at(decls: Seq<ResourceDecl>, j: int) -> bool {
    exists|i: int|
        0 <= i < j && (#[trigger] decls[i]).id == decls[j].id && decls[i].kind != decls[j].kind
}

/// Task `t` is bound to the trigger of an earlier task.
pub open spec fn duplicate_trigger_at(tasks: Seq<TaskSpec>, t: int) -> bool {
    exists|s: int| 0 <= s < t && (#[trigger] tasks[s]).trigger == tasks[t].trigger
}

/// Entry `k` of the resource list of task `t` is not declared.
pub open spec fn undeclared_at(
    decls: Seq<ResourceDecl>,
    tasks: Seq<TaskSpec>,
    t: int,
    k: int,
) -> bool {
    !declared(decls, tasks[t].resources@[k])
}

/// Task `t` lists a resource that is not declared.
pub open spec fn has_undeclared(decls: Seq<ResourceDecl>, tasks: Seq<TaskSpec>, t: int) -> bool {
    exists|k: int| 0 <= k < tasks[t].resources@.len() && #[trigger] undeclared_at(decls, tasks, t, k)
}

/// No task accesses the resource of declaration `j`.
pub open spec fn dead_at(decls: Seq<ResourceDecl>, tasks: Seq<TaskSpec>, j: int) -> bool {
    forall|t: int| 0 <= t < tasks.len() ==> !accesses(#[trigger] tasks[t], decls[j].id)
}

pub open spec fn no_conflicts(decls: Seq<ResourceDecl>) -> bool {
    forall|j: int| 0 <= j < decls.len() ==> !#[trigger] conflict_at(decls, j)
}

pub open spec fn priorities_positive(tasks: Seq<TaskSpec>) -> bool {
    forall|t: int| 0 <= t < tasks.len() ==> (#[trigger] tasks[t]).priority >= 1
}

pub open spec fn triggers_distinct(tasks: Seq<TaskSpec>) -> bool {
    forall|t: int| 0 <= t < tasks.len() ==> !#[trigger] duplicate_trigger_at(tasks, t)
}

pub open spec fn all_declared(decls: Seq<ResourceDecl>, tasks: Seq<TaskSpec>) -> bool {
    forall|t: int| 0 <= t < tasks.len() ==> !#[trigger] has_undeclared(decls, tasks, t)
}

pub open spec fn none_dead(decls: Seq<ResourceDecl>, tasks: Seq<TaskSpec>) -> bool {
    forall|j: int| 0 <= j < decls.len() ==> !#[trigger] dead_at(decls, tasks, j)
}

/// The configuration can be scheduled.
pub open spec fn valid_config(decls: Seq<ResourceDecl>, tasks: Seq<TaskSpec>) -> bool {
    &&& no_conflicts(decls)
    &&& priorities_positive(tasks)
    &&& triggers_distinct(tasks)
    &&& all_declared(decls, tasks)
    &&& none_dead(decls, tasks)
}

/// `e` is the error that building from this configuration reports.
///
/// The checks run in the order of the variants, each over its list from the
/// front, and the first finding is reported: conflicting declarations, then
/// reserved priorities, then duplicate triggers, then undeclared resources,
/// then dead declarations.
pub open spec fn reported(decls: Seq<ResourceDecl>, tasks: Seq<TaskSpec>, e: ConfigurationError) -> bool {
    match e {
        ConfigurationError::ConflictingResource { id } => {
            exists|j: int|
                0 <= j < decls.len() && #[trigger] conflict_at(decls, j) && decls[j].id == id
                    && forall|i: int| 0 <= i < j ==> !#[trigger] conflict_at(decls, i)
        },
        ConfigurationError::ReservedPriority { task } => {
            &&& no_conflicts(decls)
            &&& task < tasks.len()
            &&& tasks[task as int].priority == 0
            &&& forall|t: int| 0 <= t < task ==> (#[trigger] tasks[t]).priority >= 1
        },
        ConfigurationError::DuplicateTrigger { task } => {
            &&& no_conflicts(decls)
            &&& priorities_positive(tasks)
            &&& task < tasks.len()
            &&& duplicate_trigger_at(tasks, task as int)
            &&& forall|t: int| 0 <= t < task ==> !#[trigger] duplicate_trigger_at(tasks, t)
        },
        ConfigurationError::UndeclaredResource { task, resource } => {
            &&& no_conflicts(decls)
            &&& priorities_positive(tasks)
            &&& triggers_distinct(tasks)
            &&& task < tasks.len()
            &&& forall|t: int| 0 <= t < task ==> !#[trigger] has_undeclared(decls, tasks, t)
            &&& exists|k: int|
                0 <= k < tasks[task as int].resources@.len() && #[trigger] undeclared_at(
                    decls,
                    tasks,
                    task as int,
                    k,
                ) && tasks[task as int].resources@[k] == resource && forall|i: int|
                    0 <= i < k ==> !#[trigger] undeclared_at(decls, tasks, task as int, i)
        },
        ConfigurationError::DeadResource { id } => {
            &&& no_conflicts(decls)
            &&& priorities_positive(tasks)
            &&& triggers_distinct(tasks)
            &&& all_declared(decls, tasks)
            &&& exists|j: int|
                0 <= j < decls.len() && #[trigger] dead_at(decls, tasks, j) && decls[j].id == id
                    && forall|i: int| 0 <= i < j ==> !#[trigger] dead_at(decls, tasks, i)
        },
        _ => false,
    }
}

/// A configuration for which an error is reported is not valid, and no two
/// different errors are reported for the same configuration.
pub proof fn lemma_reported_is_decided(
    decls: Seq<ResourceDecl>,
    tasks: Seq<TaskSpec>,
    first: ConfigurationError,
    second: ConfigurationError,
)
    requires
        reported(decls, tasks, first),
    ensures
        !valid_config(decls, tasks),
        reported(decls, tasks, second) ==> first == second,
{
    // A task that is reported for an undeclared resource has one.
    match first {
        ConfigurationError::UndeclaredResource { task, resource } => {
            assert(has_undeclared(decls, tasks, task as int));
        },
        _ => {},
    }
    if reported(decls, tasks, second) {
        match second {
            ConfigurationError::UndeclaredResource { task, resource } => {
                assert(has_undeclared(decls, tasks, task as int));
            },
            _ => {},
        }
    }
}

/// The ceiling is an upper bound on the priority of every task that accesses
/// the resource, and where it is not 0 some such task has exactly that
/// priority.
pub proof fn lemma_max_priority(tasks: Seq<TaskSpec>, id: u8)
    ensures
        max_priority(tasks, id) <= 255,
        forall|t: int|
            0 <= t < tasks.len() && accesses(#[trigger] tasks[t], id) ==> tasks[t].priority
                <= max_priority(tasks, id),
        max_priority(tasks, id) > 0 ==> exists|t: int|
            0 <= t < tasks.len() && accesses(#[trigger] tasks[t], id) && tasks[t].priority
                == max_priority(tasks, id),
    decreases tasks.len(),
{
    if tasks.len() > 0 {
        let front = tasks.drop_last();
        lemma_max_priority(front, id);
        assert forall|t: int| 0 <= t < tasks.len() && accesses(#[trigger] tasks[t], id) implies
            tasks[t].priority <= max_priority(tasks, id) by {
            if t < front.len() {
                assert(front[t] == tasks[t]);
            }
        }
        if max_priority(tasks, id) > 0 {
            let last = tasks.last();
            if accesses(last, id) && last.priority > max_priority(front, id) {
                assert(tasks[tasks.len() - 1] == last);
            } else {
                let t = choose|t: int|
                    0 <= t < front.len() && accesses(#[trigger] front[t], id) && front[t].priority
                        == max_priority(front, id);
                assert(tasks[t] == front[t]);
            }
        }
    }
}

/// Adding a task raises the ceiling of what it accesses to at least its
/// priority and leaves every other ceiling alone.
pub proof fn lemma_max_priority_push(tasks: Seq<TaskSpec>, task: TaskSpec, id: u8)
    ensures
        max_priority(tasks.push(task), id) == (if accesses(task, id) && task.priority
            > max_priority(tasks, id) {
            task.priority as nat
        } else {
            max_priority(tasks, id)
        }),
{
    assert(tasks.push(task).drop_last() =~= tasks);
}

/// The registry: the task table, and for each resource identifier the
/// peripheral it stands for and its ceiling.
pub struct Registry {
    tasks: Vec<TaskSpec>,
    kinds: Vec<Option<Peripheral>>,
    ceilings: Vec<u8>,
}

impl Registry {
    /// The task table, in the order it was given.
    pub closed spec fn tasks(&self) -> Seq<TaskSpec> {
        self.tasks@
    }

    /// The peripheral the identifier is declared for, if it is declared.
    pub closed spec fn kind_of(&self, id: u8) -> Option<Peripheral> {
        self.kinds@[id as int]
    }

    /// The ceiling recorded for the identifier.
    pub closed spec fn ceiling_of(&self, id: u8) -> u8 {
        self.ceilings@[id as int]
    }

    /// Both tables have a slot for every identifier.
    pub closed spec fn shaped(&self) -> bool {
        self.kinds@.len() == RESOURCE_SLOTS && self.ceilings@.len() == RESOURCE_SLOTS
    }

    /// The registry is one that `build` returns.
    pub open spec fn wf(&self) -> bool {
        &&& self.shaped()
        &&& priorities_positive(self.tasks())
        &&& triggers_distinct(self.tasks())
        &&& forall|id: u8| self.ceiling_of(id) == #[trigger] max_priority(self.tasks(), id)
        &&& forall|id: u8| (#[trigger] self.kind_of(id)) is Some ==> self.ceiling_of(id) >= 1
        &&& forall|t: int, k: int|
            0 <= t < self.tasks().len() && 0 <= k < self.tasks()[t].resources@.len() ==> self.kind_of(
                #[trigger] self.tasks()[t].resources@[k],
            ) is Some
    }

    /// Builds the registry, or says why the configuration cannot be scheduled.
    pub fn build(decls: &Vec<ResourceDecl>, tasks: Vec<TaskSpec>) -> (r: Result<
        Registry,
        ConfigurationError,
    >)
        ensures
            r is Ok <==> valid_config(decls@, tasks@),
            r matches Ok(reg) ==> {
                &&& reg.wf()
                &&& reg.tasks() == tasks@
                &&& forall|id: u8| declared(decls@, id) <==> (#[trigger] reg.kind_of(id)) is Some
                &&& forall|j: int|
                    0 <= j < decls@.len() ==> reg.kind_of((#[trigger] decls@[j]).id) == Some(
                        decls@[j].kind,
                    )
                &&& forall|id: u8| reg.ceiling_of(id) == #[trigger] max_priority(tasks@, id)
                &&& forall|t: int, k: int|
                    0 <= t < tasks@.len() && 0 <= k < tasks@[t].resources@.len()
                        ==> tasks@[t].priority <= reg.ceiling_of(
                        #[trigger] tasks@[t].resources@[k],
                    )
            },
            r matches Err(e) ==> reported(decls@, tasks@, e),
    {
        let kinds = match declare_all(decls) {
            Ok(kinds) => kinds,
            Err(e) => {
                return Err(e);
            },
        };
        match check_priorities(&tasks) {
            Ok(()) => {},
            Err(e) => {
                return Err(e);
            },
        }
        match check_triggers(&tasks) {
            Ok(()) => {},
            Err(e) => {
                return Err(e);
            },
        }
        let ceilings = match raise_ceilings(&kinds, &tasks, Ghost(decls@)) {
            Ok(ceilings) => ceilings,
            Err(e) => {
                return Err(e);
            },
        };
        match check_dead(decls, &ceilings, Ghost(tasks@)) {
            Ok(()) => {},
            Err(e) => {
                return Err(e);
            },
        }
        let reg = Registry { tasks, kinds, ceilings };
        proof {
            assert forall|t: int, k: int|
                0 <= t < tasks@.len() && 0 <= k < tasks@[t].resources@.len() implies reg.kind_of(
                #[trigger] tasks@[t].resources@[k],
            ) is Some && tasks@[t].priority <= reg.ceiling_of(tasks@[t].resources@[k]) by {
                let id = tasks@[t].resources@[k];
                assert(!has_undeclared(decls@, tasks@, t));
                assert(!undeclared_at(decls@, tasks@, t, k));
                lemma_max_priority(tasks@, id);
                assert(accesses(tasks@[t], id));
            }
            assert forall|id: u8| (#[trigger] reg.kind_of(id)) is Some implies reg.ceiling_of(id)
                >= 1 by {
                let j = choose|j: int| 0 <= j < decls@.len() && (#[trigger] decls@[j]).id == id;
                assert(!dead_at(decls@, tasks@, j));
                let t = choose|t: int|
                    0 <= t < tasks@.len() && accesses(#[trigger] tasks@[t], decls@[j].id);
                lemma_max_priority(tasks@, id);
            }
        }
        Ok(reg)
    }

    /// Number of tasks.
    pub fn task_count(&self) -> (n: usize)
        ensures
            n == self.tasks().len(),
    {
        self.tasks.len()
    }

    /// The priority of a task.
    pub fn priority(&self, task: usize) -> (p: u8)
        requires
            task < self.tasks().len(),
        ensures
            p == self.tasks()[task as int].priority,
    {
        self.tasks[task].priority
    }

    /// The trigger a task is bound to.
    pub fn trigger(&self, task: usize) -> (t: u16)
        requires
            task < self.tasks().len(),
        ensures
            t == self.tasks()[task as int].trigger,
    {
        self.tasks[task].trigger
    }

    /// The first task of the table that is bound to a trigger, if there is
    /// one.
    pub fn task_for_trigger(&self, trigger: u16) -> (r: Option<usize>)
        ensures
            r matches Some(t) ==> t < self.tasks().len() && self.tasks()[t as int].trigger
                == trigger && forall|s: int|
                0 <= s < t ==> (#[trigger] self.tasks()[s]).trigger != trigger,
            r is None ==> forall|t: int|
                0 <= t < self.tasks().len() ==> (#[trigger] self.tasks()[t]).trigger != trigger,
    {
        let mut t: usize = 0;
        while t < self.tasks.len()
            invariant
                t <= self.tasks@.len(),
                forall|s: int| 0 <= s < t ==> (#[trigger] self.tasks@[s]).trigger != trigger,
            decreases self.tasks@.len() - t,
        {
            if self.tasks[t].trigger == trigger {
                return Some(t);
            }
            t = t + 1;
        }
        None
    }

    /// Whether a task lists a resource.
    pub fn declares(&self, task: usize, id: u8) -> (b: bool)
        requires
            task < self.tasks().len(),
        ensures
            b == accesses(self.tasks()[task as int], id),
    {
        let list = &self.tasks[task].resources;
        let mut k: usize = 0;
        while k < list.len()
            invariant
                k <= list@.len(),
                task < self.tasks@.len(),
                list@ == self.tasks@[task as int].resources@,
                forall|i: int| 0 <= i < k ==> list@[i] != id,
            decreases list@.len() - k,
        {
            if list[k] == id {
                assert(list@[k as int] == id);
                return true;
            }
            k = k + 1;
        }
        false
    }

    /// The peripheral a resource stands for; `None` where it is not declared.
    pub fn kind(&self, id: u8) -> (k: Option<Peripheral>)
        requires
            self.shaped(),
        ensures
            k == self.kind_of(id),
    {
        self.kinds[id as usize]
    }

    /// The ceiling of a resource; `None` where it is not declared.
    pub fn ceiling(&self, id: u8) -> (c: Option<u8>)
        requires
            self.shaped(),
        ensures
            c == (if self.kind_of(id) is Some {
                Some(self.ceiling_of(id))
            } else {
                None
            }),
    {
        match self.kinds[id as usize] {
            Some(_) => Some(self.ceilings[id as usize]),
            None => None,
        }
    }
}

/// First check: no identifier is declared for two peripherals. Returns the
/// peripheral of each declared identifier.
fn declare_all(decls: &Vec<ResourceDecl>) -> (r: Result<Vec<Option<Peripheral>>, ConfigurationError>)
    ensures
        r is Ok <==> no_conflicts(decls@),
        r matches Ok(kinds) ==> {
            &&& kinds@.len() == RESOURCE_SLOTS
            &&& forall|id: u8| declared(decls@, id) <==> (#[trigger] kinds@[id as int]) is Some
            &&& forall|j: int|
                0 <= j < decls@.len() ==> kinds@[(#[trigger] decls@[j]).id as int] == Some(
                    decls@[j].kind,
                )
        },
        r matches Err(e) ==> reported(decls@, Seq::empty(), e) && e is ConflictingResource,
{
    let mut kinds: Vec<Option<Peripheral>> = Vec::new();
    let mut n: usize = 0;
    while n < RESOURCE_SLOTS
        invariant
            n <= RESOURCE_SLOTS,
            kinds@.len() == n,
            forall|i: int| 0 <= i < n ==> kinds@[i] is None,
        decreases RESOURCE_SLOTS - n,
    {
        kinds.push(None);
        n = n + 1;
    }
    let mut j: usize = 0;
    while j < decls.len()
        invariant
            j <= decls@.len(),
            kinds@.len() == RESOURCE_SLOTS,
            forall|i: int| 0 <= i < j ==> kinds@[(#[trigger] decls@[i]).id as int] == Some(decls@[i].kind),
            forall|id: u8| (#[trigger] kinds@[id as int]) is Some ==> exists|i: int|
                0 <= i < j && (#[trigger] decls@[i]).id == id,
            forall|i: int| 0 <= i < j ==> !#[trigger] conflict_at(decls@, i),
        decreases decls@.len() - j,
    {
        let d = decls[j];
        let slot = d.id as usize;
        match kinds[slot] {
            Some(k) => {
                if k != d.kind {
                    proof {
                        let i = choose|i: int| 0 <= i < j && (#[trigger] decls@[i]).id == d.id;
                        assert(decls@[i].kind == k);
                        assert(conflict_at(decls@, j as int));
                    }
                    return Err(ConfigurationError::ConflictingResource { id: d.id });
                }
                assert(!conflict_at(decls@, j as int)) by {
                    if conflict_at(decls@, j as int) {
                        let i = choose|i: int|
                            0 <= i < j && (#[trigger] decls@[i]).id == decls@[j as int].id
                                && decls@[i].kind != decls@[j as int].kind;
                        assert(kinds@[decls@[i].id as int] == Some(decls@[i].kind));
                    }
                }
            },
            None => {
                assert(!conflict_at(decls@, j as int)) by {
                    if conflict_at(decls@, j as int) {
                        let i = choose|i: int|
                            0 <= i < j && (#[trigger] decls@[i]).id == decls@[j as int].id
                                && decls@[i].kind != decls@[j as int].kind;
                        assert(kinds@[decls@[i].id as int] == Some(decls@[i].kind));
                    }
                }
                let ghost before = kinds@;
                kinds.set(slot, Some(d.kind));
                assert forall|id: u8| (#[trigger] kinds@[id as int]) is Some implies exists|i: int|
                    0 <= i < j + 1 && (#[trigger] decls@[i]).id == id by {
                    if id == d.id {
                        assert(decls@[j as int].id == id);
                    } else {
                        assert(before[id as int] is Some);
                        let i = choose|i: int| 0 <= i < j && (#[trigger] decls@[i]).id == id;
                        assert(decls@[i].id == id);
                    }
                }
            },
        }
        j = j + 1;
    }
    proof {
        assert forall|id: u8| declared(decls@, id) implies (#[trigger] kinds@[id as int]) is Some by {
            let i = choose|i: int| 0 <= i < decls@.len() && (#[trigger] decls@[i]).id == id;
            assert(kinds@[decls@[i].id as int] == Some(decls@[i].kind));
        }
    }
    Ok(kinds)
}

/// Second check: every task has a priority of at least 1.
fn check_priorities(tasks: &Vec<TaskSpec>) -> (r: Result<(), ConfigurationError>)
    ensures
        r is Ok <==> priorities_positive(tasks@),
        r matches Err(e) ==> e matches ConfigurationError::ReservedPriority { task } && task
            < tasks@.len() && tasks@[task as int].priority == 0 && forall|t: int|
            0 <= t < task ==> (#[trigger] tasks@[t]).priority >= 1,
{
    let mut t: usize = 0;
    while t < tasks.len()
        invariant
            t <= tasks@.len(),
            forall|s: int| 0 <= s < t ==> (#[trigger] tasks@[s]).priority >= 1,
        decreases tasks@.len() - t,
    {
        if tasks[t].priority == 0 {
            return Err(ConfigurationError::ReservedPriority { task: t });
        }
        t = t + 1;
    }
    Ok(())
}

/// Third check: no two tasks share a trigger.
fn check_triggers(tasks: &Vec<TaskSpec>) -> (r: Result<(), ConfigurationError>)
    ensures
        r is Ok <==> triggers_distinct(tasks@),
        r matches Err(e) ==> e matches ConfigurationError::DuplicateTrigger { task } && task
            < tasks@.len() && duplicate_trigger_at(tasks@, task as int) && forall|t: int|
            0 <= t < task ==> !#[trigger] duplicate_trigger_at(tasks@, t),
{
    let mut t: usize = 0;
    while t < tasks.len()
        invariant
            t <= tasks@.len(),
            forall|s: int| 0 <= s < t ==> !#[trigger] duplicate_trigger_at(tasks@, s),
        decreases tasks@.len() - t,
    {
        let mut s: usize = 0;
        while s < t
            invariant
                s <= t,
                t < tasks@.len(),
                forall|i: int| 0 <= i < t ==> !#[trigger] duplicate_trigger_at(tasks@, i),
                forall|i: int| 0 <= i < s ==> (#[trigger] tasks@[i]).trigger != tasks@[t as int].trigger,
            decreases t - s,
        {
            if tasks[s].trigger == tasks[t].trigger {
                assert(tasks@[s as int].trigger == tasks@[t as int].trigger);
                assert(duplicate_trigger_at(tasks@, t as int));
                return Err(ConfigurationError::DuplicateTrigger { task: t });
            }
            s = s + 1;
        }
        t = t + 1;
    }
    Ok(())
}

/// Fourth check: every listed resource is declared. Returns the ceilings.
fn raise_ceilings(
    kinds: &Vec<Option<Peripheral>>,
    tasks: &Vec<TaskSpec>,
    Ghost(decls): Ghost<Seq<ResourceDecl>>,
) -> (r: Result<Vec<u8>, ConfigurationError>)
    requires
        kinds@.len() == RESOURCE_SLOTS,
        forall|id: u8| declared(decls, id) <==> (#[trigger] kinds@[id as int]) is Some,
    ensures
        r is Ok <==> all_declared(decls, tasks@),
        r matches Ok(ceilings) ==> {
            &&& ceilings@.len() == RESOURCE_SLOTS
            &&& forall|id: u8| ceilings@[id as int] == #[trigger] max_priority(tasks@, id)
        },
        r matches Err(e) ==> e matches ConfigurationError::UndeclaredResource { task, resource }
            && {
            &&& task < tasks@.len()
            &&& forall|t: int| 0 <= t < task ==> !#[trigger] has_undeclared(decls, tasks@, t)
            &&& exists|k: int|
                0 <= k < tasks@[task as int].resources@.len() && #[trigger] undeclared_at(
                    decls,
                    tasks@,
                    task as int,
                    k,
                ) && tasks@[task as int].resources@[k] == resource && forall|i: int|
                    0 <= i < k ==> !#[trigger] undeclared_at(decls, tasks@, task as int, i)
        },
{
    let mut ceilings: Vec<u8> = Vec::new();
    let mut n: usize = 0;
    while n < RESOURCE_SLOTS
        invariant
            n <= RESOURCE_SLOTS,
            ceilings@.len() == n,
            forall|i: int| 0 <= i < n ==> ceilings@[i] == 0,
        decreases RESOURCE_SLOTS - n,
    {
        ceilings.push(0);
        n = n + 1;
    }
    assert(tasks@.take(0) =~= Seq::<TaskSpec>::empty());
    let mut t: usize = 0;
    while t < tasks.len()
        invariant
            t <= tasks@.len(),
            kinds@.len() == RESOURCE_SLOTS,
            ceilings@.len() == RESOURCE_SLOTS,
            forall|id: u8| declared(decls, id) <==> (#[trigger] kinds@[id as int]) is Some,
            forall|s: int| 0 <= s < t ==> !#[trigger] has_undeclared(decls, tasks@, s),
            forall|id: u8| ceilings@[id as int] == #[trigger] max_priority(tasks@.take(t as int), id),
        decreases tasks@.len() - t,
    {
        let list = &tasks[t].resources;
        let priority = tasks[t].priority;
        let ghost front = tasks@.take(t as int);
        let mut k: usize = 0;
        while k < list.len()
            invariant
                k <= list@.len(),
                t < tasks@.len(),
                list@ == tasks@[t as int].resources@,
                priority == tasks@[t as int].priority,
                front == tasks@.take(t as int),
                kinds@.len() == RESOURCE_SLOTS,
                ceilings@.len() == RESOURCE_SLOTS,
                forall|id: u8| declared(decls, id) <==> (#[trigger] kinds@[id as int]) is Some,
                forall|s: int| 0 <= s < t ==> !#[trigger] has_undeclared(decls, tasks@, s),
                forall|i: int| 0 <= i < k ==> !#[trigger] undeclared_at(decls, tasks@, t as int, i),
                forall|id: u8|
                    ceilings@[id as int] == (if list@.take(k as int).contains(id) && priority
                        > #[trigger] max_priority(front, id) {
                        priority as nat
                    } else {
                        max_priority(front, id)
                    }),
            decreases list@.len() - k,
        {
            let id = list[k];
            let slot = id as usize;
            if kinds[slot].is_none() {
                assert(undeclared_at(decls, tasks@, t as int, k as int));
                assert(has_undeclared(decls, tasks@, t as int));
                return Err(ConfigurationError::UndeclaredResource { task: t, resource: id });
            }
            assert(!undeclared_at(decls, tasks@, t as int, k as int));
            let ghost before = ceilings@;
            if ceilings[slot] < priority {
                ceilings.set(slot, priority);
            }
            proof {
                let shorter = list@.take(k as int);
                let longer = list@.take(k as int + 1);
                assert(longer =~= shorter.push(id));
                assert forall|other: u8|
                    ceilings@[other as int] == (if longer.contains(other) && priority
                        > #[trigger] max_priority(front, other) {
                        priority as nat
                    } else {
                        max_priority(front, other)
                    }) by {
                    lemma_max_priority(front, other);
                    if other == id {
                        assert(longer[k as int] == id);
                    } else {
                        if longer.contains(other) {
                            let i = choose|i: int| 0 <= i < longer.len() && longer[i] == other;
                            assert(shorter[i] == other);
                        }
                        if shorter.contains(other) {
                            let i = choose|i: int| 0 <= i < shorter.len() && shorter[i] == other;
                            assert(longer[i] == other);
                        }
                    }
                }
            }
            k = k + 1;
        }
        proof {
            assert(list@.take(k as int) =~= list@);
            assert(tasks@.take(t as int + 1) =~= front.push(tasks@[t as int]));
            assert forall|id: u8|
                ceilings@[id as int] == #[trigger] max_priority(tasks@.take(t as int + 1), id) by {
                lemma_max_priority_push(front, tasks@[t as int], id);
            }
            assert(!has_undeclared(decls, tasks@, t as int));
        }
        t = t + 1;
    }
    assert(tasks@.take(t as int) =~= tasks@);
    Ok(ceilings)
}

/// Fifth check: every declared resource has a task that accesses it.
fn check_dead(decls: &Vec<ResourceDecl>, ceilings: &Vec<u8>, Ghost(tasks): Ghost<Seq<TaskSpec>>) -> (r:
    Result<(), ConfigurationError>)
    requires
        ceilings@.len() == RESOURCE_SLOTS,
        priorities_positive(tasks),
        forall|id: u8| ceilings@[id as int] == #[trigger] max_priority(tasks, id),
    ensures
        r is Ok <==> none_dead(decls@, tasks),
        r matches Err(e) ==> e matches ConfigurationError::DeadResource { id } && exists|j: int|
            0 <= j < decls@.len() && #[trigger] dead_at(decls@, tasks, j) && decls@[j].id == id
                && forall|i: int| 0 <= i < j ==> !#[trigger] dead_at(decls@, tasks, i),
{
    let mut j: usize = 0;
    while j < decls.len()
        invariant
            j <= decls@.len(),
            ceilings@.len() == RESOURCE_SLOTS,
            priorities_positive(tasks),
            forall|id: u8| ceilings@[id as int] == #[trigger] max_priority(tasks, id),
            forall|i: int| 0 <= i < j ==> !#[trigger] dead_at(decls@, tasks, i),
        decreases decls@.len() - j,
    {
        let id = decls[j].id;
        proof {
            lemma_max_priority(tasks, id);
            assert(ceilings@[id as int] == max_priority(tasks, id));
        }
        if ceilings[id as usize] == 0 {
            assert(dead_at(decls@, tasks, j as int));
            return Err(ConfigurationError::DeadResource { id });
        }
        assert(!dead_at(decls@, tasks, j as int)) by {
            let t = choose|t: int|
                0 <= t < tasks.len() && accesses(#[trigger] tasks[t], id) && tasks[t].priority
                    == max_priority(tasks, id);
            assert(accesses(tasks[t], decls@[j as int].id));
        }
        j = j + 1;
    }
    Ok(())
}

} // verus!

use lpc1347_rtfm3::clock::{wwdt_configure, wwdt_feed, Wwdt};
use lpc1347_rtfm3::dispatcher::{Dispatcher, ResourceHandle, TriggerOutcome};
use lpc1347_rtfm3::error::{ConfigurationError, DriverError, FaultCondition};
use lpc1347_rtfm3::gpio::{get_pin_value, toggle_pin_value, GpioPort, Port};
use lpc1347_rtfm3::registry::{Peripheral, Registry, ResourceDecl, TaskSpec};
use std::cell::Cell;

const GPIO: u8 = 0;
const WATCHDOG: u8 = 1;
const SHARED: u8 = 2;
const OTHER: u8 = 3;

fn started(decls: Vec<ResourceDecl>, tasks: Vec<TaskSpec>) -> Dispatcher {
    let reg = Registry::build(&decls, tasks).unwrap();
    let mut d = Dispatcher::new(reg);
    for decl in &decls {
        d.bind(ResourceHandle { id: decl.id, kind: decl.kind }).unwrap();
    }
    d.start().unwrap();
    d
}

fn two_tasks_one_resource() -> Dispatcher {
    started(
        vec![ResourceDecl { id: SHARED, kind: Peripheral::GpioPort }],
        vec![
            TaskSpec { trigger: 16, priority: 2, resources: vec![SHARED] },
            TaskSpec { trigger: 25, priority: 1, resources: vec![] },
        ],
    )
}

#[test]
fn new_dispatcher_is_initialising_at_the_highest_threshold() {
    let reg = Registry::build(&vec![], vec![TaskSpec { trigger: 1, priority: 9, resources: vec![] }])
        .unwrap();
    let d = Dispatcher::new(reg);
    assert!(!d.is_started());
    assert_eq!(d.threshold(), 255);
    assert_eq!(d.running(), None);
    assert_eq!(d.depth(), 0);
    assert!(!d.is_pending(0));
    assert_eq!(d.next_ready(), None);
}

#[test]
fn trigger_during_initialisation_is_deferred_until_start() {
    let reg = Registry::build(&vec![], vec![TaskSpec { trigger: 1, priority: 255, resources: vec![] }])
        .unwrap();
    let mut d = Dispatcher::new(reg);
    assert_eq!(d.on_trigger(1), Ok(TriggerOutcome::Deferred { task: 0 }));
    assert!(d.is_pending(0));
    assert!(!d.can_dispatch(0));
    assert_eq!(d.next_ready(), None);
    assert_eq!(d.start(), Ok(()));
    assert_eq!(d.threshold(), 0);
    assert!(d.can_dispatch(0));
    assert_eq!(d.next_ready(), Some(0));
}

#[test]
fn start_needs_a_handle_for_every_declared_resource() {
    let decls = vec![
        ResourceDecl { id: 9, kind: Peripheral::Adc },
        ResourceDecl { id: 4, kind: Peripheral::Pmu },
    ];
    let tasks = vec![TaskSpec { trigger: 1, priority: 1, resources: vec![4, 9] }];
    let mut d = Dispatcher::new(Registry::build(&decls, tasks).unwrap());
    assert_eq!(d.start(), Err(ConfigurationError::UnboundResource { id: 4 }));
    assert!(!d.is_started());
    assert_eq!(d.threshold(), 255);
    assert_eq!(d.bind(ResourceHandle { id: 4, kind: Peripheral::Pmu }), Ok(()));
    assert_eq!(d.start(), Err(ConfigurationError::UnboundResource { id: 9 }));
    assert_eq!(d.bind(ResourceHandle { id: 9, kind: Peripheral::Adc }), Ok(()));
    assert_eq!(d.start(), Ok(()));
    assert!(d.is_started());
    assert_eq!(d.start(), Err(ConfigurationError::InitializationComplete));
    assert!(d.is_started());
    assert_eq!(d.threshold(), 0);
}

#[test]
fn handles_are_checked_when_they_are_bound() {
    let decls = vec![ResourceDecl { id: 4, kind: Peripheral::Pmu }];
    let tasks = vec![TaskSpec { trigger: 1, priority: 1, resources: vec![4] }];
    let mut d = Dispatcher::new(Registry::build(&decls, tasks).unwrap());
    assert_eq!(
        d.bind(ResourceHandle { id: 5, kind: Peripheral::Pmu }),
        Err(ConfigurationError::UnknownHandle { id: 5 })
    );
    assert_eq!(
        d.bind(ResourceHandle { id: 4, kind: Peripheral::Scb }),
        Err(ConfigurationError::MismatchedHandle { id: 4 })
    );
    assert_eq!(d.bind(ResourceHandle { id: 4, kind: Peripheral::Pmu }), Ok(()));
    assert_eq!(
        d.bind(ResourceHandle { id: 4, kind: Peripheral::Pmu }),
        Err(ConfigurationError::HandleAlreadyBound { id: 4 })
    );
    assert_eq!(d.start(), Ok(()));
    assert_eq!(
        d.bind(ResourceHandle { id: 4, kind: Peripheral::Pmu }),
        Err(ConfigurationError::InitializationComplete)
    );
}

#[test]
fn trigger_without_a_task_is_a_fault() {
    let mut d = two_tasks_one_resource();
    assert_eq!(d.on_trigger(99), Err(FaultCondition::UnhandledTrigger { trigger: 99 }));
    assert!(!d.is_pending(0));
    assert!(!d.is_pending(1));
    assert_eq!(d.threshold(), 0);
    assert_eq!(d.next_ready(), None);
}

#[test]
fn lower_priority_trigger_waits_for_running_task() {
    // A (priority 2, accesses a resource of ceiling 2) runs; the trigger of
    // B (priority 1) fires meanwhile.
    let mut d = two_tasks_one_resource();
    assert_eq!(d.on_trigger(16), Ok(TriggerOutcome::Dispatch { task: 0 }));
    let b_ran_during_a = Cell::new(false);
    let (d, r) = d.dispatch(0, |mut d: Dispatcher| {
        assert_eq!(d.threshold(), 2);
        assert_eq!(d.running(), Some(0));
        assert_eq!(d.on_trigger(25), Ok(TriggerOutcome::Deferred { task: 1 }));
        assert!(d.is_pending(1));
        if d.can_dispatch(1) || d.next_ready().is_some() {
            b_ran_during_a.set(true);
        }
        (d, Ok::<u8, DriverError>(7))
    });
    assert_eq!(r, Ok(7));
    assert!(!b_ran_during_a.get());
    assert_eq!(d.threshold(), 0);
    assert_eq!(d.running(), None);
    assert!(!d.is_pending(0));
    assert_eq!(d.next_ready(), Some(1));
    let (d, r) = d.dispatch(1, |d: Dispatcher| {
        assert_eq!(d.threshold(), 1);
        (d, Ok::<(), DriverError>(()))
    });
    assert_eq!(r, Ok(()));
    assert_eq!(d.next_ready(), None);
}

#[test]
fn blink_toggles_the_pin_on_every_trigger() {
    let mut d = started(
        vec![ResourceDecl { id: GPIO, kind: Peripheral::GpioPort }],
        vec![TaskSpec { trigger: 16, priority: 1, resources: vec![GPIO] }],
    );
    assert_eq!(d.config().ceiling(GPIO), Some(1));
    let mut port = GpioPort::new();
    port.set[0] = 0b1010_0000;
    let mut seen = Vec::new();
    for _ in 0..2 {
        assert_eq!(d.on_trigger(16), Ok(TriggerOutcome::Dispatch { task: 0 }));
        let port_ref = &mut port;
        let (after, r) = d.dispatch(0, |d: Dispatcher| {
            d.with_resource(GPIO, |d: Dispatcher, handle: ResourceHandle| {
                assert_eq!(handle, ResourceHandle { id: GPIO, kind: Peripheral::GpioPort });
                assert_eq!(d.threshold(), 1);
                toggle_pin_value(port_ref, Port::Port0, 3);
                (d, Ok::<(), DriverError>(()))
            })
        });
        assert_eq!(r, Ok(()));
        d = after;
        seen.push((port.set[0], get_pin_value(&port, Port::Port0, 3)));
    }
    assert_eq!(seen, vec![(0b1010_1000, true), (0b1010_0000, false)]);
    assert_eq!(d.threshold(), 0);
}

#[test]
fn refused_watchdog_configuration_is_fatal_and_writes_nothing() {
    let mut d = started(
        vec![ResourceDecl { id: WATCHDOG, kind: Peripheral::Wwdt }],
        vec![TaskSpec { trigger: 25, priority: 1, resources: vec![WATCHDOG] }],
    );
    let mut wwdt = Wwdt::new();
    wwdt.mod_ = 0x10;
    wwdt.tc = 0xFF;
    wwdt.warnint = 0x7;
    wwdt_feed(&mut wwdt);
    let before = wwdt.clone();
    assert_eq!(d.on_trigger(25), Ok(TriggerOutcome::Dispatch { task: 0 }));
    let wwdt_ref = &mut wwdt;
    let (d, r) = d.dispatch(0, |d: Dispatcher| {
        d.with_resource(WATCHDOG, |d: Dispatcher, _handle: ResourceHandle| {
            let r = wwdt_configure(wwdt_ref, true, true, true, 0x1000000, 0xF);
            (d, r)
        })
    });
    assert_eq!(
        r,
        Err(FaultCondition::TaskFailure { trigger: 25, error: DriverError::InvalidTimerConstant })
    );
    assert_eq!(wwdt, before);
    assert_eq!(d.threshold(), 0);
    assert_eq!(d.depth(), 0);
}

fn nested_setup() -> Dispatcher {
    // Task 0 (priority 1) accesses SHARED (ceiling 3) and OTHER (ceiling 2);
    // task 1 (priority 2) accesses OTHER; task 2 (priority 3) accesses SHARED.
    started(
        vec![
            ResourceDecl { id: SHARED, kind: Peripheral::GpioPort },
            ResourceDecl { id: OTHER, kind: Peripheral::Adc },
        ],
        vec![
            TaskSpec { trigger: 10, priority: 1, resources: vec![SHARED, OTHER] },
            TaskSpec { trigger: 11, priority: 2, resources: vec![OTHER] },
            TaskSpec { trigger: 12, priority: 3, resources: vec![SHARED] },
        ],
    )
}

#[test]
fn threshold_is_restored_after_nested_sections() {
    let mut d = nested_setup();
    d.on_trigger(10).unwrap();
    let levels = Cell::new((0u8, 0u8, 0u8, 0u8, 0u8));
    let (d, r) = d.dispatch(0, |d: Dispatcher| {
        let at_entry = d.threshold();
        let (d, r) = d.with_resource(OTHER, |d: Dispatcher, _h: ResourceHandle| {
            let outer = d.threshold();
            let (d, r) = d.with_resource(SHARED, |d: Dispatcher, _h: ResourceHandle| {
                let inner = d.threshold();
                // A ceiling below the threshold leaves the threshold alone.
                let (d, r) = d.with_resource(OTHER, |d: Dispatcher, _h: ResourceHandle| {
                    let innermost = d.threshold();
                    levels.set((at_entry, outer, inner, innermost, 0));
                    (d, Ok::<u8, DriverError>(1))
                });
                assert_eq!(d.threshold(), inner);
                (d, r)
            });
            assert_eq!(d.threshold(), outer);
            (d, r)
        });
        let mut seen = levels.get();
        seen.4 = d.threshold();
        levels.set(seen);
        (d, r)
    });
    assert_eq!(r, Ok(1));
    assert_eq!(levels.get(), (1, 2, 3, 3, 1));
    assert_eq!(d.threshold(), 0);
    assert_eq!(d.depth(), 0);
}

#[test]
fn threshold_is_restored_when_a_section_ends_early_or_fails() {
    let mut d = nested_setup();
    d.on_trigger(10).unwrap();
    let (d, r) = d.dispatch(0, |d: Dispatcher| {
        let (d, r) = d.with_resource(SHARED, |d: Dispatcher, _h: ResourceHandle| {
            assert_eq!(d.threshold(), 3);
            let (d, r): (Dispatcher, Result<u8, DriverError>) =
                d.with_resource(OTHER, |d: Dispatcher, _h: ResourceHandle| {
                    if d.threshold() == 3 {
                        // Early exit with a failure.
                        return (d, Err(DriverError::NotReady));
                    }
                    (d, Ok(0))
                });
            assert_eq!(r, Err(DriverError::NotReady));
            assert_eq!(d.threshold(), 3);
            (d, r)
        });
        assert_eq!(d.threshold(), 1);
        assert_eq!(d.depth(), 1);
        (d, r)
    });
    assert_eq!(r, Err(FaultCondition::TaskFailure { trigger: 10, error: DriverError::NotReady }));
    assert_eq!(d.threshold(), 0);
    assert_eq!(d.depth(), 0);
}

#[test]
fn section_is_open_only_to_the_task_that_declares_the_resource() {
    let mut d = nested_setup();
    assert!(!d.may_access(SHARED));
    d.on_trigger(11).unwrap();
    let (d, _) = d.dispatch(1, |d: Dispatcher| {
        assert!(d.may_access(OTHER));
        assert!(!d.may_access(SHARED));
        assert!(!d.may_access(200));
        (d, Ok::<(), DriverError>(()))
    });
    assert!(!d.may_access(OTHER));
}

#[test]
fn accessors_of_a_resource_never_overlap_in_their_sections() {
    // Task 0 (priority 1) and task 2 (priority 3) both access SHARED.
    let mut d = nested_setup();
    let inside = Cell::new(0u32);
    let overlaps = Cell::new(0u32);
    let high_ran = Cell::new(0u32);
    d.on_trigger(10).unwrap();
    let (d, r) = d.dispatch(0, |d: Dispatcher| {
        let (d, r) = d.with_resource(SHARED, |mut d: Dispatcher, _h: ResourceHandle| {
            inside.set(inside.get() + 1);
            // The trigger of the other accessor fires inside the section.
            assert_eq!(d.on_trigger(12), Ok(TriggerOutcome::Deferred { task: 2 }));
            assert!(!d.can_dispatch(2));
            assert_eq!(d.next_ready(), None);
            inside.set(inside.get() - 1);
            (d, Ok::<(), DriverError>(()))
        });
        // The section is closed: the pending accessor preempts now.
        assert_eq!(d.next_ready(), Some(2));
        assert!(d.can_dispatch(2));
        let (d, high) = d.dispatch(2, |d: Dispatcher| {
            d.with_resource(SHARED, |d: Dispatcher, _h: ResourceHandle| {
                if inside.get() != 0 {
                    overlaps.set(overlaps.get() + 1);
                }
                high_ran.set(high_ran.get() + 1);
                (d, Ok::<(), DriverError>(()))
            })
        });
        assert_eq!(high, Ok(()));
        assert_eq!(d.threshold(), 1);
        assert_eq!(d.running(), Some(0));
        (d, r)
    });
    assert_eq!(r, Ok(()));
    assert_eq!(high_ran.get(), 1);
    assert_eq!(overlaps.get(), 0);
    assert_eq!(d.threshold(), 0);
}

#[test]
fn higher_priority_of_two_pending_tasks_runs_first_and_to_completion() {
    let mut d = nested_setup();
    let order = std::cell::RefCell::new(Vec::new());
    // Both triggers are pending before either task starts.
    assert_eq!(d.on_trigger(10), Ok(TriggerOutcome::Dispatch { task: 0 }));
    assert_eq!(d.on_trigger(11), Ok(TriggerOutcome::Dispatch { task: 1 }));
    assert_eq!(d.next_ready(), Some(1));
    let (d, _) = d.dispatch(1, |d: Dispatcher| {
        order.borrow_mut().push("high starts");
        assert!(!d.can_dispatch(0));
        assert_eq!(d.next_ready(), None);
        order.borrow_mut().push("high ends");
        (d, Ok::<(), DriverError>(()))
    });
    assert_eq!(d.next_ready(), Some(0));
    let (d, _) = d.dispatch(0, |d: Dispatcher| {
        order.borrow_mut().push("low starts");
        (d, Ok::<(), DriverError>(()))
    });
    assert_eq!(*order.borrow(), vec!["high starts", "high ends", "low starts"]);
    assert_eq!(d.next_ready(), None);
}

#[test]
fn preempting_task_returns_to_the_priority_it_preempted() {
    let mut d = nested_setup();
    d.on_trigger(10).unwrap();
    let (d, _) = d.dispatch(0, |mut d: Dispatcher| {
        assert_eq!(d.threshold(), 1);
        assert_eq!(d.on_trigger(12), Ok(TriggerOutcome::Dispatch { task: 2 }));
        let (d, _) = d.dispatch(2, |mut d: Dispatcher| {
            assert_eq!(d.threshold(), 3);
            assert_eq!(d.depth(), 2);
            // An even lower trigger than the running one stays pending.
            assert_eq!(d.on_trigger(11), Ok(TriggerOutcome::Deferred { task: 1 }));
            (d, Ok::<(), DriverError>(()))
        });
        // Back in the preempted task: its priority, not the idle one.
        assert_eq!(d.threshold(), 1);
        assert_eq!(d.running(), Some(0));
        assert_eq!(d.next_ready(), Some(1));
        let (d, _) = d.dispatch(1, |d: Dispatcher| {
            assert_eq!(d.threshold(), 2);
            (d, Ok::<(), DriverError>(()))
        });
        (d, Ok::<(), DriverError>(()))
    });
    assert_eq!(d.threshold(), 0);
    assert_eq!(d.running(), None);
}

#[test]
fn tasks_of_equal_priority_are_dispatched_in_table_order() {
    let mut d = started(
        vec![],
        vec![
            TaskSpec { trigger: 30, priority: 2, resources: vec![] },
            TaskSpec { trigger: 20, priority: 2, resources: vec![] },
            TaskSpec { trigger: 10, priority: 1, resources: vec![] },
        ],
    );
    d.on_trigger(10).unwrap();
    d.on_trigger(20).unwrap();
    d.on_trigger(30).unwrap();
    assert_eq!(d.next_ready(), Some(0));
    let (d, _) = d.dispatch(0, |d: Dispatcher| {
        // A task of the same priority does not preempt.
        assert!(!d.can_dispatch(1));
        (d, Ok::<(), DriverError>(()))
    });
    assert_eq!(d.next_ready(), Some(1));
    let (d, _) = d.dispatch(1, |d: Dispatcher| (d, Ok::<(), DriverError>(())));
    assert_eq!(d.next_ready(), Some(2));
}

use runice::config::RuniceClassConfig;
use runice::enforcer::{
    parse_io_status, plan_ionice, plan_renice, plan_schedtool, ClassPolicy, IoStatus, IoniceChange,
    SchedChange, SchedStatus,
};
use runice::repr::{IoSchedClass, SchedPolicy};

fn bg_class() -> RuniceClassConfig {
    RuniceClassConfig {
        niceness: Some(10),
        sched_policy: None,
        sched_priority: None,
        iosched_class: Some("idle".to_string()),
        iosched_priority: Some(7),
        oom_score_adj: None,
        cgroup: None,
        affinity: None,
    }
}

#[test]
fn renice_only_on_difference() {
    assert_eq!(plan_renice(10, 10), None);
    assert_eq!(plan_renice(0, 10), Some(10));
    assert_eq!(plan_renice(-20, 19), Some(19));
}

#[test]
fn ionice_priority_only() {
    let current = IoStatus { class: IoSchedClass::BestEffort, priority: 4 };
    assert_eq!(
        plan_ionice(current, Some(IoSchedClass::BestEffort), Some(7)),
        Some(IoniceChange { class: None, priority: Some(7) })
    );
}

#[test]
fn ionice_class_only_and_both_and_neither() {
    let current = IoStatus { class: IoSchedClass::BestEffort, priority: 4 };
    assert_eq!(
        plan_ionice(current, Some(IoSchedClass::Idle), Some(4)),
        Some(IoniceChange { class: Some(IoSchedClass::Idle), priority: None })
    );
    assert_eq!(
        plan_ionice(current, Some(IoSchedClass::Idle), Some(7)),
        Some(IoniceChange { class: Some(IoSchedClass::Idle), priority: Some(7) })
    );
    assert_eq!(plan_ionice(current, Some(IoSchedClass::BestEffort), Some(4)), None);
    assert_eq!(plan_ionice(current, None, None), None);
}

#[test]
fn schedtool_plans() {
    let current = SchedStatus { policy: SchedPolicy::Normal, priority: 0 };
    assert_eq!(plan_schedtool(current, Some(SchedPolicy::Normal), Some(0)), None);
    assert_eq!(
        plan_schedtool(current, Some(SchedPolicy::Fifo), Some(10)),
        Some(SchedChange { policy: Some(SchedPolicy::Fifo), priority: Some(10) })
    );
    assert_eq!(
        plan_schedtool(current, Some(SchedPolicy::Normal), Some(5)),
        Some(SchedChange { policy: None, priority: Some(5) })
    );
}

#[test]
fn class_resolution() {
    let policy = ClassPolicy::resolve(&bg_class()).unwrap();
    assert_eq!(policy.niceness, Some(10));
    assert_eq!(policy.iosched_class, Some(IoSchedClass::Idle));
    assert_eq!(policy.iosched_priority, Some(7));
    assert!(policy.wants_io());
    assert!(!policy.wants_sched());
    let mut bad = bg_class();
    bad.sched_policy = Some("realtime".to_string());
    assert!(ClassPolicy::resolve(&bad).is_err());
    let mut sched = bg_class();
    sched.sched_policy = Some("rr".to_string());
    let p = ClassPolicy::resolve(&sched).unwrap();
    assert_eq!(p.sched_policy, Some(SchedPolicy::RoundRobin));
    assert!(p.wants_sched());
}

#[test]
fn empty_class_plans_nothing() {
    let empty = RuniceClassConfig {
        niceness: None,
        sched_policy: None,
        sched_priority: None,
        iosched_class: None,
        iosched_priority: None,
        oom_score_adj: None,
        cgroup: None,
        affinity: None,
    };
    let p = ClassPolicy::resolve(&empty).unwrap();
    assert_eq!(p.plan_niceness(3), None);
    assert!(!p.wants_io());
    assert!(!p.wants_sched());
}

#[test]
fn io_status_lines() {
    assert_eq!(
        parse_io_status("best-effort: prio 4\n"),
        Some(IoStatus { class: IoSchedClass::BestEffort, priority: 4 })
    );
    assert_eq!(parse_io_status("  idle  "), Some(IoStatus { class: IoSchedClass::Idle, priority: 0 }));
    assert_eq!(
        parse_io_status("realtime: prio 0"),
        Some(IoStatus { class: IoSchedClass::Realtime, priority: 0 })
    );
    assert_eq!(parse_io_status("none: prio 12"), Some(IoStatus { class: IoSchedClass::Unset, priority: 12 }));
    assert_eq!(parse_io_status("none: prio 300"), None);
    assert_eq!(parse_io_status("unknown: prio 4"), None);
    assert_eq!(parse_io_status("best_effort: prio 4"), None);
    assert_eq!(parse_io_status("besteffort"), None);
    assert_eq!(parse_io_status("idle: prio "), None);
    assert_eq!(parse_io_status(""), None);
}

#[test]
fn class_level_plans() {
    let p = ClassPolicy::resolve(&bg_class()).unwrap();
    assert_eq!(p.plan_niceness(0), Some(10));
    assert_eq!(p.plan_niceness(10), None);
    assert_eq!(
        p.plan_io(IoStatus { class: IoSchedClass::BestEffort, priority: 4 }),
        Some(IoniceChange { class: Some(IoSchedClass::Idle), priority: Some(7) })
    );
    assert_eq!(p.plan_io(IoStatus { class: IoSchedClass::Idle, priority: 7 }), None);
    assert_eq!(p.plan_sched(SchedStatus { policy: SchedPolicy::Batch, priority: 0 }), None);
}

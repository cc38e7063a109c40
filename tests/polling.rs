use runice::config::{ClassesMapping, RuniceClassConfig, RuniceRuleConfig, RulesMapping};
use runice::enforcer::{parse_io_status, ClassPolicy, IoniceChange};
use runice::matcher::{match_process, ProcessInfo};
use runice::repr::IoSchedClass;
use runice::scheduler::PollingScheduler;

#[test]
fn pid_is_handled_once() {
    let mut s = PollingScheduler::new();
    assert_eq!(s.new_pids(&vec![1, 2, 3]), vec![1, 2, 3]);
    assert!(s.has_seen(2));
    assert!(!s.has_seen(4));
    assert_eq!(s.new_pids(&vec![3, 4, 2, 4, 5]), vec![4, 5]);
    assert_eq!(s.new_pids(&vec![1, 2, 3, 4, 5]), Vec::<i32>::new());
}

#[test]
fn duplicates_in_one_enumeration_count_once() {
    let mut s = PollingScheduler::new();
    assert_eq!(s.new_pids(&vec![7, 7, 8, 7]), vec![7, 8]);
    assert!(!s.observe(8));
    assert!(s.observe(9));
    assert!(!s.observe(9));
}

#[test]
fn changed_process_is_not_reenforced() {
    let rules: RulesMapping = vec![(
        "r".to_string(),
        RuniceRuleConfig { class: "bg".to_string(), name: Some("late".to_string()), exe: None, cmdline: None, user: None },
    )];
    let classes: ClassesMapping = vec![(
        "bg".to_string(),
        RuniceClassConfig {
            niceness: Some(5),
            sched_policy: None,
            sched_priority: None,
            iosched_class: None,
            iosched_priority: None,
            oom_score_adj: None,
            cgroup: None,
            affinity: None,
        },
    )];
    let mut s = PollingScheduler::new();
    let first = ProcessInfo::new(11, "early".to_string(), None, None);
    assert_eq!(s.new_pids(&vec![first.pid]), vec![11]);
    assert!(match_process(&first, &rules, &classes).is_none());
    // The process has since renamed itself into one that a rule selects.
    let second = ProcessInfo::new(11, "late".to_string(), None, None);
    assert!(match_process(&second, &rules, &classes).is_some());
    assert_eq!(s.new_pids(&vec![second.pid]), Vec::<i32>::new());
}

#[test]
fn end_to_end_foo_in_background() {
    let rules: RulesMapping = vec![(
        "foo".to_string(),
        RuniceRuleConfig { class: "bg".to_string(), name: Some("foo".to_string()), exe: None, cmdline: None, user: None },
    )];
    let classes: ClassesMapping = vec![(
        "bg".to_string(),
        RuniceClassConfig {
            niceness: Some(10),
            sched_policy: None,
            sched_priority: None,
            iosched_class: Some("idle".to_string()),
            iosched_priority: Some(7),
            oom_score_adj: None,
            cgroup: None,
            affinity: None,
        },
    )];
    let mut s = PollingScheduler::new();
    let p = ProcessInfo::new(100, "foo".to_string(), Some("/usr/bin/foo".to_string()), Some(vec!["foo".to_string()]));

    let mut renices = Vec::new();
    let mut ionices = Vec::new();
    for _cycle in 0..2 {
        for pid in s.new_pids(&vec![p.pid]) {
            assert_eq!(pid, 100);
            let class = match_process(&p, &rules, &classes).unwrap();
            let policy = ClassPolicy::resolve(class).unwrap();
            if let Some(n) = policy.plan_niceness(0) {
                renices.push(n);
            }
            if policy.wants_io() {
                let current = parse_io_status("best-effort: prio 4").unwrap();
                if let Some(change) = policy.plan_io(current) {
                    ionices.push(change);
                }
            }
            assert!(!policy.wants_sched());
        }
    }
    assert_eq!(renices, vec![10]);
    assert_eq!(ionices, vec![IoniceChange { class: Some(IoSchedClass::Idle), priority: Some(7) }]);
}

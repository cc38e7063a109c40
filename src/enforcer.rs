//! Decides, attribute by attribute, which scheduling changes a process
//! needs: a change is planned only where the declared value differs from
//! the observed one.
use vstd::prelude::*;
use crate::config::RuniceClassConfig;
use crate::repr::{
    io_class_of_symbol, io_class_symbol, policy_of_symbol, IoSchedClass, SchedPolicy,
    UnknownRepresentation,
};
use crate::text::{all_digits, digits_value, parse_small_decimal, str_eq, trim_str, trimmed};

verus! {

/// The scheduling treatment of a class with its symbolic values resolved.
#[derive(Clone, Copy, Debug, PartialEq, Eq, Structural)]
pub struct ClassPolicy {
    pub niceness: Option<i8>,
    pub sched_policy: Option<SchedPolicy>,
    pub sched_priority: Option<u32>,
    pub iosched_class: Option<IoSchedClass>,
    pub iosched_priority: Option<i8>,
}

/// The I/O scheduling class and priority observed on a process.
#[derive(Clone, Copy, Debug, PartialEq, Eq, Structural)]
pub struct IoStatus {
    pub class: IoSchedClass,
    pub priority: i8,
}

/// The CPU scheduling policy and real-time priority observed on a process.
#[derive(Clone, Copy, Debug, PartialEq, Eq, Structural)]
pub struct SchedStatus {
    pub policy: SchedPolicy,
    pub priority: u32,
}

/// The arguments of one I/O scheduling change; an absent part is left as is.
#[derive(Clone, Copy, Debug, PartialEq, Eq, Structural)]
pub struct IoniceChange {
    pub class: Option<IoSchedClass>,
    pub priority: Option<i8>,
}

/// The arguments of one scheduling-policy change; an absent part is left as is.
#[derive(Clone, Copy, Debug, PartialEq, Eq, Structural)]
pub struct SchedChange {
    pub policy: Option<SchedPolicy>,
    pub priority: Option<u32>,
}

/// The declared value where it differs from the current one.
pub open spec fn changed<T>(declared: Option<T>, current: T) -> Option<T> {
    match declared {
        Some(d) => if d != current {
            Some(d)
        } else {
            None
        },
        None => None,
    }
}

pub open spec fn spec_plan_ionice(current: IoStatus, class: Option<IoSchedClass>, priority: Option<i8>) -> Option<IoniceChange> {
    let c = changed(class, current.class);
    let p = changed(priority, current.priority);
    if c is None && p is None {
        None
    } else {
        Some(IoniceChange { class: c, priority: p })
    }
}

pub open spec fn spec_plan_schedtool(current: SchedStatus, policy: Option<SchedPolicy>, priority: Option<u32>) -> Option<SchedChange> {
    let c = changed(policy, current.policy);
    let p = changed(priority, current.priority);
    if c is None && p is None {
        None
    } else {
        Some(SchedChange { policy: c, priority: p })
    }
}

/// The resolved form of a declared symbol, or `None` where a declared symbol
/// is unknown.
pub open spec fn resolve_symbol<T>(declared: Option<String>, table: spec_fn(Seq<char>) -> Option<T>) -> Option<Option<T>> {
    match declared {
        Some(s) => match table(s@) {
            Some(v) => Some(Some(v)),
            None => None,
        },
        None => Some(None),
    }
}

/// The policy a class declares, or `None` where one of its symbols is unknown.
pub open spec fn class_policy(class: RuniceClassConfig) -> Option<ClassPolicy> {
    let io = resolve_symbol(class.iosched_class, |s: Seq<char>| io_class_of_symbol(s));
    let sp = resolve_symbol(class.sched_policy, |s: Seq<char>| policy_of_symbol(s));
    if io is Some && sp is Some {
        Some(ClassPolicy {
            niceness: class.niceness,
            sched_policy: sp->0,
            sched_priority: class.sched_priority,
            iosched_class: io->0,
            iosched_priority: class.iosched_priority,
        })
    } else {
        None
    }
}

impl ClassPolicy {
    /// Resolves the symbolic values of a class through the representation
    /// tables; an unknown symbol is an error.
    pub fn resolve(class: &RuniceClassConfig) -> (r: Result<ClassPolicy, UnknownRepresentation>)
        ensures
            match class_policy(*class) {
                Some(p) => r == Ok::<ClassPolicy, UnknownRepresentation>(p),
                None => r is Err,
            },
    {
        let iosched_class = match &class.iosched_class {
            Some(s) => match IoSchedClass::from_symbol(s.as_str()) {
                Ok(c) => Some(c),
                Err(e) => return Err(e),
            },
            None => None,
        };
        let sched_policy = match &class.sched_policy {
            Some(s) => match SchedPolicy::from_symbol(s.as_str()) {
                Ok(p) => Some(p),
                Err(e) => return Err(e),
            },
            None => None,
        };
        Ok(ClassPolicy {
            niceness: class.niceness,
            sched_policy,
            sched_priority: class.sched_priority,
            iosched_class,
            iosched_priority: class.iosched_priority,
        })
    }

    /// Whether the class declares anything about I/O scheduling, so that the
    /// current I/O status has to be read.
    pub fn wants_io(&self) -> (r: bool)
        ensures
            r == (self.iosched_class is Some || self.iosched_priority is Some),
    {
        self.iosched_class.is_some() || self.iosched_priority.is_some()
    }

    /// Whether the class declares anything about the scheduling policy, so
    /// that the current policy has to be read.
    pub fn wants_sched(&self) -> (r: bool)
        ensures
            r == (self.sched_policy is Some || self.sched_priority is Some),
    {
        self.sched_policy.is_some() || self.sched_priority.is_some()
    }

    /// The niceness to set on a process whose niceness is `current`.
    pub fn plan_niceness(&self, current: i8) -> (r: Option<i8>)
        ensures
            r == changed(self.niceness, current),
    {
        match self.niceness {
            Some(n) => plan_renice(current, n),
            None => None,
        }
    }

    /// The I/O scheduling change for a process in state `current`.
    pub fn plan_io(&self, current: IoStatus) -> (r: Option<IoniceChange>)
        ensures
            r == spec_plan_ionice(current, self.iosched_class, self.iosched_priority),
    {
        plan_ionice(current, self.iosched_class, self.iosched_priority)
    }

    /// The scheduling-policy change for a process in state `current`.
    pub fn plan_sched(&self, current: SchedStatus) -> (r: Option<SchedChange>)
        ensures
            r == spec_plan_schedtool(current, self.sched_policy, self.sched_priority),
    {
        plan_schedtool(current, self.sched_policy, self.sched_priority)
    }
}

/// The niceness to set: `niceness` where it differs from `current`,
/// nothing where they are equal.
pub fn plan_renice(current: i8, niceness: i8) -> (r: Option<i8>)
    ensures
        r == (if current == niceness {
            None
        } else {
            Some(niceness)
        }),
{
    if current == niceness {
        None
    } else {
        Some(niceness)
    }
}

/// The I/O scheduling change: the class where its code differs from the
/// current one, the priority where it differs, nothing where neither does.
pub fn plan_ionice(current: IoStatus, class: Option<IoSchedClass>, priority: Option<i8>) -> (r: Option<IoniceChange>)
    ensures
        r == spec_plan_ionice(current, class, priority),
{
    let current_code = current.class.code();
    let new_class = match class {
        Some(c) => if c.code() != current_code {
            Some(c)
        } else {
            None
        },
        None => None,
    };
    let new_priority = match priority {
        Some(p) => if p != current.priority {
            Some(p)
        } else {
            None
        },
        None => None,
    };
    if new_class.is_none() && new_priority.is_none() {
        None
    } else {
        Some(IoniceChange { class: new_class, priority: new_priority })
    }
}

/// The scheduling-policy change: the policy where its code differs from the
/// current one, the real-time priority where it differs, nothing where
/// neither does.
pub fn plan_schedtool(current: SchedStatus, policy: Option<SchedPolicy>, priority: Option<u32>) -> (r: Option<SchedChange>)
    ensures
        r == spec_plan_schedtool(current, policy, priority),
{
    let current_code = current.policy.code();
    let new_policy = match policy {
        Some(p) => if p.code() != current_code {
            Some(p)
        } else {
            None
        },
        None => None,
    };
    let new_priority = match priority {
        Some(p) => if p != current.priority {
            Some(p)
        } else {
            None
        },
        None => None,
    };
    if new_policy.is_none() && new_priority.is_none() {
        None
    } else {
        Some(SchedChange { policy: new_policy, priority: new_priority })
    }
}

/// The text that the I/O scheduling tool prints for a class with a priority.
pub open spec fn io_prio_prefix(c: IoSchedClass) -> Seq<char> {
    io_class_symbol(c) + ": prio "@
}

/// Whether the (trimmed) text `t` reports status `st`: the class symbol
/// alone, read as priority 0, or the class symbol, `: prio ` and the
/// priority in decimal.
pub open spec fn describes_io_status(t: Seq<char>, st: IoStatus) -> bool {
    let pre = io_prio_prefix(st.class);
    (t == io_class_symbol(st.class) && st.priority == 0) || (t.len() > pre.len() && t.subrange(0, pre.len() as int) == pre
        && all_digits(t.subrange(pre.len() as int, t.len() as int)) && digits_value(t.subrange(pre.len() as int, t.len() as int))
        == st.priority as int)
}

/// Reads the priority of a status line for class `c`.
fn parse_io_status_for(t: &str, c: IoSchedClass) -> (r: Option<i8>)
    ensures
        match r {
            Some(p) => describes_io_status(t@, IoStatus { class: c, priority: p }),
            None => forall|p: i8| !describes_io_status(t@, IoStatus { class: c, priority: p }),
        },
{
    let sym = c.symbol();
    if str_eq(t, sym) {
        return Some(0);
    }
    let mut pre = String::new();
    pre.append(sym);
    pre.append(": prio ");
    assert(pre@ == io_prio_prefix(c));
    let n = pre.unicode_len();
    let len = t.unicode_len();
    if len <= n {
        return None;
    }
    let head = t.substring_char(0, n);
    if !str_eq(head, pre.as_str()) {
        return None;
    }
    let rest = t.substring_char(n, len);
    parse_small_decimal(rest)
}

/// Reads the output of the I/O scheduling tool, such as `best-effort: prio 4`
/// or `idle`, after trimming white space.
pub fn parse_io_status(out: &str) -> (r: Option<IoStatus>)
    ensures
        match r {
            Some(st) => describes_io_status(trimmed(out@), st),
            None => forall|st: IoStatus| !describes_io_status(trimmed(out@), st),
        },
{
    let t = trim_str(out);
    let classes = [IoSchedClass::Unset, IoSchedClass::Realtime, IoSchedClass::BestEffort, IoSchedClass::Idle];
    let mut i: usize = 0;
    while i < 4
        invariant
            0 <= i <= 4,
            t@ == trimmed(out@),
            classes@ == seq![IoSchedClass::Unset, IoSchedClass::Realtime, IoSchedClass::BestEffort, IoSchedClass::Idle],
            forall|k: int, p: i8| 0 <= k < i ==> !#[trigger] describes_io_status(t@, IoStatus { class: classes@[k], priority: p }),
        decreases 4 - i,
    {
        let c = classes[i];
        match parse_io_status_for(t, c) {
            Some(p) => return Some(IoStatus { class: c, priority: p }),
            None => {},
        }
        i = i + 1;
    }
    assert forall|st: IoStatus| !describes_io_status(t@, st) by {
        let k: int = match st.class {
            IoSchedClass::Unset => 0,
            IoSchedClass::Realtime => 1,
            IoSchedClass::BestEffort => 2,
            IoSchedClass::Idle => 3,
        };
        assert(classes@[k] == st.class);
        assert(!describes_io_status(t@, IoStatus { class: classes@[k], priority: st.priority }));
        assert(IoStatus { class: classes@[k], priority: st.priority } == st);
    }
    None
}

/// A class that is already in place is left alone while a differing priority
/// is changed: the change carries the priority alone.
pub proof fn lemma_priority_only_change(current: IoStatus, priority: i8)
    requires
        priority != current.priority,
    ensures
        spec_plan_ionice(current, Some(current.class), Some(priority))
            == Some(IoniceChange { class: None, priority: Some(priority) }),
{
}

/// Planning is idempotent on niceness: a process already at the declared
/// niceness gets no change, and one elsewhere gets exactly the declared value.
pub proof fn lemma_niceness_plan(current: i8, declared: i8)
    ensures
        changed(Some(declared), current) == (if current == declared {
            None
        } else {
            Some(declared)
        }),
{
}

/// No class symbol holds a colon.
pub proof fn lemma_symbol_has_no_colon(c: IoSchedClass)
    ensures
        forall|j: int| 0 <= j < io_class_symbol(c).len() ==> io_class_symbol(c)[j] != ':',
{
    reveal_strlit("none");
    reveal_strlit("realtime");
    reveal_strlit("best-effort");
    reveal_strlit("idle");
}

/// A status line: a class name, followed where `with_priority` holds by
/// `: prio ` and the priority text `ds`.
pub open spec fn status_line(name: Seq<char>, ds: Seq<char>, with_priority: bool) -> Seq<char> {
    if with_priority {
        name + ": prio "@ + ds
    } else {
        name
    }
}

/// A status line whose class name is not in the I/O table reports no
/// status, whether or not it carries a priority: parsing it fails.
pub proof fn lemma_unknown_io_class_unparsed(name: Seq<char>, ds: Seq<char>, with_priority: bool)
    requires
        io_class_of_symbol(name) is None,
        forall|j: int| 0 <= j < name.len() ==> name[j] != ':',
    ensures
        forall|st: IoStatus| !#[trigger] describes_io_status(status_line(name, ds, with_priority), st),
{
    reveal_strlit(": prio ");
    let t = status_line(name, ds, with_priority);
    assert forall|st: IoStatus| !#[trigger] describes_io_status(t, st) by {
        let c = st.class;
        let sym = io_class_symbol(c);
        let pre = io_prio_prefix(c);
        lemma_symbol_has_no_colon(c);
        assert(io_class_of_symbol(sym) == Some(c)) by {
            reveal_strlit("none");
            reveal_strlit("realtime");
            reveal_strlit("best-effort");
            reveal_strlit("idle");
            assert("idle"@[0] != "none"@[0]);
        }
        if with_priority {
            assert(t[name.len() as int] == ':');
            if t == sym {
                assert(sym[name.len() as int] == ':');
            }
            if t.len() > pre.len() && t.subrange(0, pre.len() as int) == pre {
                if name.len() < sym.len() {
                    assert(t.subrange(0, pre.len() as int)[name.len() as int] == sym[name.len() as int]);
                } else if name.len() > sym.len() {
                    assert(t.subrange(0, pre.len() as int)[sym.len() as int] == ':');
                    assert(t[sym.len() as int] == name[sym.len() as int]);
                } else {
                    assert(name =~= sym) by {
                        assert forall|j: int| 0 <= j < name.len() implies name[j] == sym[j] by {
                            assert(t[j] == name[j]);
                            assert(t.subrange(0, pre.len() as int)[j] == pre[j]);
                        }
                    }
                }
            }
        } else {
            if t.len() > pre.len() && t.subrange(0, pre.len() as int) == pre {
                assert(t.subrange(0, pre.len() as int)[sym.len() as int] == ':');
                assert(name[sym.len() as int] == ':');
            }
        }
    }
}

} // verus!

//! Checks a loaded configuration once, at start, so that matching and
//! enforcement never meet a repeated name, a dangling class name, an empty
//! rule field, a pattern that does not compile, an unknown symbolic value or
//! a value outside its range.
use vstd::prelude::*;
use crate::config::{class_index, ClassesMapping, RuniceClassConfig, RuniceRuleConfig, RulesMapping};
use crate::enforcer::{class_policy, ClassPolicy};
use crate::matcher::{regex_compiles, regex_search};
use crate::repr::SchedPolicy;

verus! {

/// The lowest niceness the kernel accepts.
pub const MIN_NICENESS: i8 = -20;

/// The highest niceness the kernel accepts.
pub const MAX_NICENESS: i8 = 19;

/// The highest I/O scheduling priority; the lowest is 0.
pub const MAX_IO_PRIORITY: i8 = 7;

/// What is wrong with a rule.
#[derive(Clone, Copy, Debug, PartialEq, Eq, Structural)]
pub enum RuleFault {
    /// An earlier rule has the same name.
    DuplicateName,
    /// A `name`, `exe`, `cmdline` or `user` field holds the empty string.
    EmptyField,
    /// `class` names no class.
    UnknownClass,
    /// `cmdline` is not a valid regular expression.
    InvalidPattern,
}

/// What is wrong with a class.
#[derive(Clone, Copy, Debug, PartialEq, Eq, Structural)]
pub enum ClassFault {
    /// An earlier class has the same name.
    DuplicateName,
    /// A declared scheduling policy or I/O class is not in its table.
    UnknownRepresentation,
    /// The declared policy is `other`, which only stands for kernel values
    /// that the table does not name and cannot be set.
    ReservedPolicy,
    /// The niceness lies outside -20..=19.
    NicenessOutOfRange,
    /// The I/O priority lies outside 0..=7.
    IoPriorityOutOfRange,
}

/// Why a configuration was refused; `index` is the position of the rule or
/// class at fault.
#[derive(Clone, Copy, Debug, PartialEq, Eq, Structural)]
pub enum ConfigError {
    Rule { index: usize, fault: RuleFault },
    Class { index: usize, fault: ClassFault },
}

/// Whether an entry before position `i` has the same name as entry `i`.
pub open spec fn name_repeated<T>(entries: Seq<(String, T)>, i: int) -> bool {
    exists|j: int| 0 <= j < i && entries[j].0@ == entries[i].0@
}

/// No two entries share a name.
pub open spec fn names_unique<T>(entries: Seq<(String, T)>) -> bool {
    forall|i: int, j: int| 0 <= i < j < entries.len() ==> entries[i].0@ != entries[j].0@
}

pub open spec fn nonempty_field(f: Option<String>) -> bool {
    f matches Some(v) ==> v@.len() > 0
}

pub open spec fn niceness_in_range(n: Option<i8>) -> bool {
    n matches Some(v) ==> MIN_NICENESS <= v <= MAX_NICENESS
}

pub open spec fn io_priority_in_range(n: Option<i8>) -> bool {
    n matches Some(v) ==> 0 <= v <= MAX_IO_PRIORITY
}

/// The first fault of rule `i`, checked in the order name, empty fields,
/// class reference, pattern.
pub open spec fn rule_fault(
    rules: Seq<(String, RuniceRuleConfig)>,
    i: int,
    classes: Seq<(String, RuniceClassConfig)>,
) -> Option<RuleFault> {
    let rule = rules[i].1;
    if name_repeated(rules, i) {
        Some(RuleFault::DuplicateName)
    } else if !(nonempty_field(rule.name) && nonempty_field(rule.exe) && nonempty_field(rule.cmdline)
        && nonempty_field(rule.user)) {
        Some(RuleFault::EmptyField)
    } else if class_index(classes, rule.class@) is None {
        Some(RuleFault::UnknownClass)
    } else if rule.cmdline matches Some(p) && !regex_compiles(p@) {
        Some(RuleFault::InvalidPattern)
    } else {
        None
    }
}

/// The first fault of class `k`, checked in the order name, symbols,
/// reserved policy, niceness, I/O priority.
pub open spec fn class_fault(classes: Seq<(String, RuniceClassConfig)>, k: int) -> Option<ClassFault> {
    let class = classes[k].1;
    if name_repeated(classes, k) {
        Some(ClassFault::DuplicateName)
    } else if class_policy(class) is None {
        Some(ClassFault::UnknownRepresentation)
    } else if class.sched_policy is Some && class_policy(class)->0.sched_policy == Some(SchedPolicy::Other) {
        Some(ClassFault::ReservedPolicy)
    } else if !niceness_in_range(class.niceness) {
        Some(ClassFault::NicenessOutOfRange)
    } else if !io_priority_in_range(class.iosched_priority) {
        Some(ClassFault::IoPriorityOutOfRange)
    } else {
        None
    }
}

/// Every rule is sound, and rule names are unique.
pub open spec fn rules_valid(rules: Seq<(String, RuniceRuleConfig)>, classes: Seq<(String, RuniceClassConfig)>) -> bool {
    &&& forall|i: int| 0 <= i < rules.len() ==> rule_fault(rules, i, classes) is None
    &&& names_unique(rules)
}

/// Every class is sound: names are unique, symbols resolve to settable
/// values, niceness lies in -20..=19 and I/O priority in 0..=7.
pub open spec fn classes_valid(classes: Seq<(String, RuniceClassConfig)>) -> bool {
    &&& forall|k: int| 0 <= k < classes.len() ==> class_fault(classes, k) is None
    &&& names_unique(classes)
    &&& forall|k: int| 0 <= k < classes.len() ==> class_policy(#[trigger] classes[k].1) is Some
    &&& forall|k: int|
        0 <= k < classes.len() ==> niceness_in_range(#[trigger] classes[k].1.niceness)
            && io_priority_in_range(classes[k].1.iosched_priority)
}

/// Entries without a repeated name have unique names.
pub proof fn lemma_names_unique<T>(entries: Seq<(String, T)>)
    requires
        forall|i: int| 0 <= i < entries.len() ==> !name_repeated(entries, i),
    ensures
        names_unique(entries),
{
    assert forall|i: int, j: int| 0 <= i < j < entries.len() implies entries[i].0@ != entries[j].0@ by {
        if entries[i].0@ == entries[j].0@ {
            assert(name_repeated(entries, j));
        }
    }
}

fn nonempty(f: &Option<String>) -> (r: bool)
    ensures
        r == nonempty_field(*f),
{
    match f {
        Some(v) => v.as_str().unicode_len() > 0,
        None => true,
    }
}

/// Whether an entry before position `i` has the same name as entry `i`.
pub fn has_repeated_name<T>(entries: &Vec<(String, T)>, i: usize) -> (r: bool)
    requires
        i < entries@.len(),
    ensures
        r == name_repeated(entries@, i as int),
{
    let mut j: usize = 0;
    while j < i
        invariant
            0 <= j <= i < entries@.len(),
            forall|m: int| 0 <= m < j ==> entries@[m].0@ != entries@[i as int].0@,
        decreases i - j,
    {
        if entries[j].0 == entries[i].0 {
            return true;
        }
        j = j + 1;
    }
    false
}

/// Finds the first fault of rule `i`.
pub fn check_rule(rules: &RulesMapping, i: usize, classes: &ClassesMapping) -> (r: Option<RuleFault>)
    requires
        i < rules@.len(),
    ensures
        r == rule_fault(rules@, i as int, classes@),
{
    if has_repeated_name(rules, i) {
        return Some(RuleFault::DuplicateName);
    }
    let rule = &rules[i].1;
    if !(nonempty(&rule.name) && nonempty(&rule.exe) && nonempty(&rule.cmdline) && nonempty(&rule.user)) {
        return Some(RuleFault::EmptyField);
    }
    if crate::config::find_class(classes, &rule.class).is_none() {
        return Some(RuleFault::UnknownClass);
    }
    if let Some(p) = &rule.cmdline {
        if regex_search(p.as_str(), "").is_none() {
            return Some(RuleFault::InvalidPattern);
        }
    }
    None
}

/// Finds the first fault of class `k`.
pub fn check_class(classes: &ClassesMapping, k: usize) -> (r: Option<ClassFault>)
    requires
        k < classes@.len(),
    ensures
        r == class_fault(classes@, k as int),
{
    if has_repeated_name(classes, k) {
        return Some(ClassFault::DuplicateName);
    }
    let class = &classes[k].1;
    let policy = match ClassPolicy::resolve(class) {
        Ok(p) => p,
        Err(_) => return Some(ClassFault::UnknownRepresentation),
    };
    if let Some(SchedPolicy::Other) = policy.sched_policy {
        return Some(ClassFault::ReservedPolicy);
    }
    if let Some(n) = class.niceness {
        if n < MIN_NICENESS || n > MAX_NICENESS {
            return Some(ClassFault::NicenessOutOfRange);
        }
    }
    if let Some(p) = class.iosched_priority {
        if p < 0 || p > MAX_IO_PRIORITY {
            return Some(ClassFault::IoPriorityOutOfRange);
        }
    }
    None
}

/// Checks every rule, in order, then every class, in order, and reports the
/// first fault found.
pub fn validate_config(rules: &RulesMapping, classes: &ClassesMapping) -> (r: Result<(), ConfigError>)
    ensures
        match r {
            Ok(()) => rules_valid(rules@, classes@) && classes_valid(classes@),
            Err(ConfigError::Rule { index, fault }) => {
                &&& index < rules@.len()
                &&& rule_fault(rules@, index as int, classes@) == Some(fault)
                &&& forall|j: int| 0 <= j < index ==> rule_fault(rules@, j, classes@) is None
            },
            Err(ConfigError::Class { index, fault }) => {
                &&& rules_valid(rules@, classes@)
                &&& index < classes@.len()
                &&& class_fault(classes@, index as int) == Some(fault)
                &&& forall|k: int| 0 <= k < index ==> class_fault(classes@, k) is None
            },
        },
{
    let mut i: usize = 0;
    while i < rules.len()
        invariant
            0 <= i <= rules@.len(),
            forall|j: int| 0 <= j < i ==> rule_fault(rules@, j, classes@) is None,
        decreases rules@.len() - i,
    {
        if let Some(fault) = check_rule(rules, i, classes) {
            return Err(ConfigError::Rule { index: i, fault });
        }
        i = i + 1;
    }
    proof {
        assert forall|j: int| 0 <= j < rules@.len() implies !name_repeated(rules@, j) by {
            assert(rule_fault(rules@, j, classes@) is None);
        }
        lemma_names_unique(rules@);
    }
    let mut k: usize = 0;
    while k < classes.len()
        invariant
            0 <= k <= classes@.len(),
            rules_valid(rules@, classes@),
            forall|j: int| 0 <= j < k ==> class_fault(classes@, j) is None,
        decreases classes@.len() - k,
    {
        if let Some(fault) = check_class(classes, k) {
            return Err(ConfigError::Class { index: k, fault });
        }
        k = k + 1;
    }
    proof {
        assert forall|j: int| 0 <= j < classes@.len() implies !name_repeated(classes@, j) by {
            assert(class_fault(classes@, j) is None);
        }
        lemma_names_unique(classes@);
        assert forall|j: int| 0 <= j < classes@.len() implies class_policy(#[trigger] classes@[j].1) is Some
            && niceness_in_range(classes@[j].1.niceness) && io_priority_in_range(classes@[j].1.iosched_priority) by {
            assert(class_fault(classes@, j) is None);
        }
    }
    Ok(())
}

} // verus!

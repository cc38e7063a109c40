//! The configuration model: rules, classes, resource groups, and the
//! records of the legacy rule format that can be imported.
use vstd::prelude::*;

verus! {

/// A record of a legacy `.rules` file: a process name and the type it gets.
#[derive(Clone, Debug, Default)]
pub struct AnanicyRuleConfig {
    pub name: String,
    pub type_field: String,
}

/// A record of a legacy `.types` file: a named bundle of scheduling values.
#[derive(Clone, Debug, Default)]
pub struct AnanicyTypeConfig {
    pub type_field: String,
    pub nice: Option<i8>,
    pub ioclass: Option<String>,
    pub ionice: Option<i8>,
    pub cgroup: Option<String>,
    pub sched: Option<String>,
    pub oom_score_adj: Option<i16>,
}

/// A record of a legacy `.cgroups` file.
#[derive(Clone, Debug, Default)]
pub struct AnanicyCgroupConfig {
    pub cgroup: String,
    pub cpu_quota: String,
}

/// Selects the processes that belong to `class`. A rule matches a process
/// when any one of `name`, `exe` or `cmdline` matches it. `user` is carried
/// but never evaluated.
#[derive(Clone, Debug)]
pub struct RuniceRuleConfig {
    pub class: String,
    pub name: Option<String>,
    pub exe: Option<String>,
    pub cmdline: Option<String>,
    pub user: Option<String>,
}

/// The scheduling treatment of a class, as declared. Symbolic values are
/// checked against the representation tables when the class is resolved.
#[derive(Clone, Debug)]
pub struct RuniceClassConfig {
    pub niceness: Option<i8>,
    pub sched_policy: Option<String>,
    pub sched_priority: Option<u32>,
    pub iosched_class: Option<String>,
    pub iosched_priority: Option<i8>,
    pub oom_score_adj: Option<i16>,
    pub cgroup: Option<String>,
    pub affinity: Option<String>,
}

/// Resource-group limits; part of the model, not enforced.
#[derive(Clone, Debug)]
pub struct RuniceCgroupConfig {
    pub cpu_quota: Option<i8>,
    pub memory_limit: Option<String>,
}

/// Rules in declaration order; the first matching rule wins.
pub type RulesMapping = Vec<(String, RuniceRuleConfig)>;

/// Classes by name; a name resolves to its first entry.
pub type ClassesMapping = Vec<(String, RuniceClassConfig)>;

pub type CgroupsMapping = Vec<(String, RuniceCgroupConfig)>;

/// A whole configuration as read from disk.
#[derive(Clone, Debug)]
pub struct RuniceConfig {
    pub rules: Option<RulesMapping>,
    pub classes: Option<ClassesMapping>,
    pub cgroups: Option<CgroupsMapping>,
}

pub open spec fn or_empty(f: Option<String>) -> Seq<char> {
    match f {
        Some(v) => v@,
        None => Seq::empty(),
    }
}

/// The one-line description of a rule; an absent field reads as empty.
pub open spec fn rule_description(r: RuniceRuleConfig) -> Seq<char> {
    "class="@ + r.class@ + ", name="@ + or_empty(r.name) + ", exe="@ + or_empty(r.exe) + ", cmdline="@
        + or_empty(r.cmdline) + ", user="@ + or_empty(r.user) + "\n"@
}

fn append_field(out: &mut String, f: &Option<String>)
    ensures
        final(out)@ == old(out)@ + or_empty(*f),
{
    match f {
        Some(v) => out.append(v.as_str()),
        None => {
            assert(old(out)@ + Seq::<char>::empty() =~= old(out)@);
        },
    }
}

impl RuniceRuleConfig {
    /// Describes the rule as `class=.., name=.., exe=.., cmdline=.., user=..`
    /// followed by a line break.
    pub fn describe(&self) -> (r: String)
        ensures
            r@ == rule_description(*self),
    {
        let mut out = String::new();
        out.append("class=");
        out.append(self.class.as_str());
        out.append(", name=");
        append_field(&mut out, &self.name);
        out.append(", exe=");
        append_field(&mut out, &self.exe);
        out.append(", cmdline=");
        append_field(&mut out, &self.cmdline);
        out.append(", user=");
        append_field(&mut out, &self.user);
        out.append("\n");
        out
    }
}

/// The index of the first class named `name`.
pub open spec fn class_index(classes: Seq<(String, RuniceClassConfig)>, name: Seq<char>) -> Option<int>
    decreases classes.len(),
{
    if classes.len() == 0 {
        None
    } else {
        match class_index(classes.drop_last(), name) {
            Some(i) => Some(i),
            None => if classes.last().0@ == name {
                Some(classes.len() - 1)
            } else {
                None
            },
        }
    }
}

/// The class that `name` resolves to.
pub open spec fn class_named(classes: Seq<(String, RuniceClassConfig)>, name: Seq<char>) -> Option<RuniceClassConfig> {
    match class_index(classes, name) {
        Some(i) => Some(classes[i].1),
        None => None,
    }
}

pub proof fn lemma_class_index_bounds(classes: Seq<(String, RuniceClassConfig)>, name: Seq<char>)
    ensures
        class_index(classes, name) matches Some(i) ==> 0 <= i < classes.len() && classes[i].0@ == name,
        class_index(classes, name) is None ==> forall|j: int| 0 <= j < classes.len() ==> classes[j].0@ != name,
    decreases classes.len(),
{
    if classes.len() > 0 {
        lemma_class_index_bounds(classes.drop_last(), name);
        if class_index(classes, name) is None {
            assert forall|j: int| 0 <= j < classes.len() implies classes[j].0@ != name by {
                if j < classes.len() - 1 {
                    assert(classes.drop_last()[j] == classes[j]);
                }
            }
        }
    }
}

/// Finds the class that `name` resolves to.
pub fn find_class<'a>(classes: &'a ClassesMapping, name: &String) -> (r: Option<&'a RuniceClassConfig>)
    ensures
        match class_index(classes@, name@) {
            Some(i) => r == Some(&classes@[i].1),
            None => r is None,
        },
{
    let mut i: usize = 0;
    while i < classes.len()
        invariant
            0 <= i <= classes.len(),
            class_index(classes@.subrange(0, i as int), name@) is None,
        decreases classes.len() - i,
    {
        assert(classes@.subrange(0, i + 1).drop_last() =~= classes@.subrange(0, i as int));
        if classes[i].0 == *name {
            proof {
                lemma_class_index_prefix(classes@, name@, i as int + 1);
            }
            return Some(&classes[i].1);
        }
        i = i + 1;
    }
    assert(classes@.subrange(0, i as int) =~= classes@);
    None
}

/// A first match found in a prefix is the first match of the whole.
pub proof fn lemma_class_index_prefix(classes: Seq<(String, RuniceClassConfig)>, name: Seq<char>, n: int)
    requires
        0 <= n <= classes.len(),
        class_index(classes.subrange(0, n), name) is Some,
    ensures
        class_index(classes, name) == class_index(classes.subrange(0, n), name),
    decreases classes.len() - n,
{
    if n < classes.len() {
        assert(classes.subrange(0, n + 1).drop_last() =~= classes.subrange(0, n));
        lemma_class_index_prefix(classes, name, n + 1);
    } else {
        assert(classes.subrange(0, n) =~= classes);
    }
}

} // verus!

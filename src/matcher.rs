//! Selects the rule, and through it the class, that applies to a process.
use vstd::prelude::*;
use crate::config::{
    class_index, class_named, find_class, lemma_class_index_bounds, ClassesMapping,
    RuniceClassConfig, RuniceRuleConfig, RulesMapping,
};

verus! {

/// Whether the regular-expression engine accepts `pattern`.
pub uninterp spec fn regex_compiles(pattern: Seq<char>) -> bool;

/// Whether `pattern` matches somewhere in `text`.
pub uninterp spec fn regex_finds(pattern: Seq<char>, text: Seq<char>) -> bool;

/// Relies on `regex::Regex::new`, which accepts or refuses the pattern, and
/// on `regex::Regex::is_match`, which tells whether it matches anywhere in
/// the text. Both depend on their arguments alone.
#[verifier::external_body]
pub(crate) fn regex_search(pattern: &str, text: &str) -> (r: Option<bool>)
    ensures
        r == (if regex_compiles(pattern@) {
            Some(regex_finds(pattern@, text@))
        } else {
            None
        }),
{
    match regex::Regex::new(pattern) {
        Ok(re) => Some(re.is_match(text)),
        Err(_) => None,
    }
}

/// What the matcher reads of a live process. A field that could not be read
/// is empty.
#[derive(Clone, Debug)]
pub struct ProcessInfo {
    pub pid: i32,
    pub name: String,
    pub exe: String,
    pub cmdline: String,
}

/// The arguments joined with single spaces.
pub open spec fn joined(args: Seq<Seq<char>>) -> Seq<char>
    decreases args.len(),
{
    if args.len() == 0 {
        Seq::empty()
    } else if args.len() == 1 {
        args[0]
    } else {
        joined(args.drop_last()) + " "@ + args.last()
    }
}

pub open spec fn text_or_empty(s: Option<String>) -> Seq<char> {
    match s {
        Some(v) => v@,
        None => Seq::empty(),
    }
}

pub open spec fn args_view(args: Seq<String>) -> Seq<Seq<char>> {
    args.map_values(|a: String| a@)
}

impl ProcessInfo {
    /// Builds the view of a process from what could be read of it: a missing
    /// executable path or argument vector becomes an empty string, and the
    /// arguments are joined with single spaces.
    pub fn new(pid: i32, name: String, exe: Option<String>, args: Option<Vec<String>>) -> (r: ProcessInfo)
        ensures
            r.pid == pid,
            r.name@ == name@,
            r.exe@ == text_or_empty(exe),
            r.cmdline@ == (match args {
                Some(a) => joined(args_view(a@)),
                None => Seq::empty(),
            }),
    {
        let exe = match exe {
            Some(e) => e,
            None => String::new(),
        };
        let cmdline = match args {
            Some(a) => join_args(&a),
            None => String::new(),
        };
        ProcessInfo { pid, name, exe, cmdline }
    }
}

/// Joins the arguments with single spaces.
pub fn join_args(args: &Vec<String>) -> (r: String)
    ensures
        r@ == joined(args_view(args@)),
{
    let mut out = String::new();
    let mut i: usize = 0;
    while i < args.len()
        invariant
            0 <= i <= args.len(),
            out@ == joined(args_view(args@.subrange(0, i as int))),
        decreases args.len() - i,
    {
        proof {
            assert(args_view(args@.subrange(0, i + 1)).drop_last() =~= args_view(args@.subrange(0, i as int)));
            assert(args_view(args@.subrange(0, i + 1)).last() == args@[i as int]@);
        }
        if i > 0 {
            out.append(" ");
        }
        out.append(args[i].as_str());
        i = i + 1;
    }
    proof {
        assert(args@.subrange(0, i as int) =~= args@);
    }
    out
}

pub open spec fn field_equals(field: Option<String>, value: Seq<char>) -> bool {
    field matches Some(f) && f@ == value
}

/// Whether `rule` matches `p`, given whether its command-line pattern was
/// found in the command line of `p`.
pub open spec fn rule_matches_with(rule: RuniceRuleConfig, p: ProcessInfo, found: bool) -> bool {
    field_equals(rule.name, p.name@) || field_equals(rule.exe, p.exe@) || (rule.cmdline is Some && found)
}

/// Whether the command-line pattern of `rule` is found in that of `p`; a
/// pattern that does not compile is found nowhere.
pub open spec fn cmdline_found(rule: RuniceRuleConfig, p: ProcessInfo) -> bool {
    rule.cmdline matches Some(pat) && regex_compiles(pat@) && regex_finds(pat@, p.cmdline@)
}

pub open spec fn rule_matches(rule: RuniceRuleConfig, p: ProcessInfo) -> bool {
    rule_matches_with(rule, p, cmdline_found(rule, p))
}

/// The index of the first rule that matches, given what each rule's
/// command-line pattern found.
pub open spec fn first_match_with(rules: Seq<(String, RuniceRuleConfig)>, p: ProcessInfo, found: Seq<bool>) -> Option<int>
    decreases rules.len(),
{
    if rules.len() == 0 {
        None
    } else {
        match first_match_with(rules.drop_last(), p, found) {
            Some(i) => Some(i),
            None => if rule_matches_with(rules.last().1, p, found[rules.len() - 1]) {
                Some(rules.len() - 1)
            } else {
                None
            },
        }
    }
}

/// What each rule's command-line pattern finds in the command line of `p`.
pub open spec fn cmdline_hits(rules: Seq<(String, RuniceRuleConfig)>, p: ProcessInfo) -> Seq<bool> {
    Seq::new(rules.len(), |i: int| cmdline_found(rules[i].1, p))
}

/// The index of the first rule that matches `p`.
pub open spec fn first_match(rules: Seq<(String, RuniceRuleConfig)>, p: ProcessInfo) -> Option<int> {
    first_match_with(rules, p, cmdline_hits(rules, p))
}

/// The class that `p` gets under `rules` and `classes`.
pub open spec fn class_for(
    rules: Seq<(String, RuniceRuleConfig)>,
    classes: Seq<(String, RuniceClassConfig)>,
    p: ProcessInfo,
) -> Option<RuniceClassConfig> {
    match first_match(rules, p) {
        Some(i) => class_named(classes, rules[i].1.class@),
        None => None,
    }
}

/// Decides whether `rule` matches `process`, given whether the rule's
/// command-line pattern was found in the process's command line. Name
/// equality is tried first, then executable path equality, then the pattern.
pub fn rule_matches_process(rule: &RuniceRuleConfig, process: &ProcessInfo, cmdline_found: bool) -> (r: bool)
    ensures
        r == rule_matches_with(*rule, *process, cmdline_found),
{
    if let Some(name) = &rule.name {
        if *name == process.name {
            return true;
        }
    }
    if let Some(exe) = &rule.exe {
        if *exe == process.exe {
            return true;
        }
    }
    rule.cmdline.is_some() && cmdline_found
}

/// Searches the command line of `process` for the rule's pattern.
pub fn cmdline_pattern_found(rule: &RuniceRuleConfig, process: &ProcessInfo) -> (r: bool)
    ensures
        r == cmdline_found(*rule, *process),
{
    match &rule.cmdline {
        Some(pattern) => match regex_search(pattern.as_str(), process.cmdline.as_str()) {
            Some(found) => found,
            None => false,
        },
        None => false,
    }
}

/// Finds the first rule that matches `process`, given for each rule whether
/// its command-line pattern was found.
pub fn select_rule(rules: &RulesMapping, process: &ProcessInfo, found: &Vec<bool>) -> (r: Option<usize>)
    requires
        found@.len() == rules@.len(),
    ensures
        match r {
            Some(i) => first_match_with(rules@, *process, found@) == Some(i as int),
            None => first_match_with(rules@, *process, found@) is None,
        },
{
    let mut i: usize = 0;
    while i < rules.len()
        invariant
            0 <= i <= rules.len(),
            found@.len() == rules@.len(),
            first_match_with(rules@.subrange(0, i as int), *process, found@) is None,
        decreases rules.len() - i,
    {
        assert(rules@.subrange(0, i + 1).drop_last() =~= rules@.subrange(0, i as int));
        if rule_matches_process(&rules[i].1, process, found[i]) {
            proof {
                lemma_first_match_prefix(rules@, *process, found@, i as int + 1);
            }
            return Some(i);
        }
        i = i + 1;
    }
    assert(rules@.subrange(0, i as int) =~= rules@);
    None
}

/// A first match found in a prefix is the first match of the whole.
pub proof fn lemma_first_match_prefix(rules: Seq<(String, RuniceRuleConfig)>, p: ProcessInfo, found: Seq<bool>, n: int)
    requires
        0 <= n <= rules.len(),
        first_match_with(rules.subrange(0, n), p, found) is Some,
    ensures
        first_match_with(rules, p, found) == first_match_with(rules.subrange(0, n), p, found),
    decreases rules.len() - n,
{
    if n < rules.len() {
        assert(rules.subrange(0, n + 1).drop_last() =~= rules.subrange(0, n));
        lemma_first_match_prefix(rules, p, found, n + 1);
    } else {
        assert(rules.subrange(0, n) =~= rules);
    }
}

/// What the first match is: a matching rule with no matching rule before
/// it, or nothing when no rule matches.
pub proof fn lemma_first_match_with(rules: Seq<(String, RuniceRuleConfig)>, p: ProcessInfo, found: Seq<bool>)
    requires
        found.len() == rules.len(),
    ensures
        first_match_with(rules, p, found) matches Some(i) ==> {
            &&& 0 <= i < rules.len()
            &&& rule_matches_with(rules[i].1, p, found[i])
            &&& forall|j: int| 0 <= j < i ==> !rule_matches_with(#[trigger] rules[j].1, p, found[j])
        },
        first_match_with(rules, p, found) is None ==> forall|j: int|
            0 <= j < rules.len() ==> !rule_matches_with(#[trigger] rules[j].1, p, found[j]),
    decreases rules.len(),
{
    if rules.len() > 0 {
        let front = rules.drop_last();
        lemma_first_match_with(front, p, found.drop_last());
        assert forall|k: int| 0 <= k < front.len() implies front[k] == rules[k] && found.drop_last()[k] == found[k] by {}
        assert(first_match_with(front, p, found) == first_match_with(front, p, found.drop_last())) by {
            lemma_first_match_found_prefix(front, p, found, found.drop_last());
        }
    }
}

/// The first match reads `found` only where there are rules.
pub proof fn lemma_first_match_found_prefix(rules: Seq<(String, RuniceRuleConfig)>, p: ProcessInfo, a: Seq<bool>, b: Seq<bool>)
    requires
        a.len() >= rules.len(),
        b.len() >= rules.len(),
        forall|k: int| 0 <= k < rules.len() ==> a[k] == b[k],
    ensures
        first_match_with(rules, p, a) == first_match_with(rules, p, b),
    decreases rules.len(),
{
    if rules.len() > 0 {
        lemma_first_match_found_prefix(rules.drop_last(), p, a, b);
    }
}

/// Finds the first rule that matches `process`.
pub fn match_rule(process: &ProcessInfo, rules: &RulesMapping) -> (r: Option<usize>)
    ensures
        match r {
            Some(i) => first_match(rules@, *process) == Some(i as int),
            None => first_match(rules@, *process) is None,
        },
{
    let mut found: Vec<bool> = Vec::new();
    let mut i: usize = 0;
    while i < rules.len()
        invariant
            0 <= i <= rules.len(),
            found@ == cmdline_hits(rules@, *process).subrange(0, i as int),
        decreases rules.len() - i,
    {
        let hit = cmdline_pattern_found(&rules[i].1, process);
        found.push(hit);
        i = i + 1;
        assert(found@ =~= cmdline_hits(rules@, *process).subrange(0, i as int));
    }
    assert(found@ =~= cmdline_hits(rules@, *process));
    select_rule(rules, process, &found)
}

/// Selects the class for `process`: the class named by the first rule that
/// matches it, or nothing where no rule matches or the class is missing.
pub fn match_process<'a>(process: &ProcessInfo, rules: &RulesMapping, classes: &'a ClassesMapping) -> (r: Option<&'a RuniceClassConfig>)
    ensures
        match class_for(rules@, classes@, *process) {
            Some(c) => r == Some(&c),
            None => r is None,
        },
{
    match match_rule(process, rules) {
        Some(i) => {
            proof {
                lemma_first_match_with(rules@, *process, cmdline_hits(rules@, *process));
                lemma_class_index_bounds(classes@, rules@[i as int].1.class@);
            }
            find_class(classes, &rules[i].1.class)
        },
        None => None,
    }
}

/// A process that no rule matches gets no class.
pub proof fn lemma_no_match_no_class(
    rules: Seq<(String, RuniceRuleConfig)>,
    classes: Seq<(String, RuniceClassConfig)>,
    p: ProcessInfo,
)
    requires
        forall|i: int| 0 <= i < rules.len() ==> !rule_matches(#[trigger] rules[i].1, p),
    ensures
        first_match(rules, p) is None,
        class_for(rules, classes, p) is None,
{
    lemma_first_match_with(rules, p, cmdline_hits(rules, p));
    if first_match(rules, p) is Some {
        let k = first_match(rules, p)->0;
        assert(rule_matches(rules[k].1, p));
    }
}

/// Of two matching rules the earlier one is chosen over the later one: the
/// chosen rule stands no later than the earlier of the two, and where no
/// rule before it matches, it is that rule and its class is the result.
pub proof fn lemma_first_match_wins(
    rules: Seq<(String, RuniceRuleConfig)>,
    classes: Seq<(String, RuniceClassConfig)>,
    p: ProcessInfo,
    earlier: int,
    later: int,
)
    requires
        0 <= earlier < later < rules.len(),
        rule_matches(rules[earlier].1, p),
        rule_matches(rules[later].1, p),
    ensures
        first_match(rules, p) matches Some(k) && k <= earlier && k != later,
        (forall|j: int| 0 <= j < earlier ==> !rule_matches(#[trigger] rules[j].1, p)) ==> {
            &&& first_match(rules, p) == Some(earlier)
            &&& class_for(rules, classes, p) == class_named(classes, rules[earlier].1.class@)
        },
{
    let found = cmdline_hits(rules, p);
    lemma_first_match_with(rules, p, found);
    assert(rule_matches_with(rules[earlier].1, p, found[earlier]));
}

/// Each kind of predicate matches on its own: a rule with only a name
/// matches exactly the processes of that name, a rule with only an
/// executable path exactly those with that path, and a rule with only a
/// command-line pattern exactly those whose command line the pattern is
/// found in.
pub proof fn lemma_single_predicate(rule: RuniceRuleConfig, p: ProcessInfo)
    ensures
        rule.exe is None && rule.cmdline is None ==> (rule.name matches Some(n) ==> rule_matches(rule, p)
            == (n@ == p.name@)),
        rule.name is None && rule.cmdline is None ==> (rule.exe matches Some(e) ==> rule_matches(rule, p)
            == (e@ == p.exe@)),
        rule.name is None && rule.exe is None ==> (rule.cmdline matches Some(c) ==> rule_matches(rule, p)
            == (regex_compiles(c@) && regex_finds(c@, p.cmdline@))),
{
}

/// A process whose executable path could not be read has an empty path,
/// and no rule without empty fields matches it by path: such a rule matches
/// it exactly when it would by name or by command line.
pub proof fn lemma_unreadable_exe(rule: RuniceRuleConfig, p: ProcessInfo)
    requires
        p.exe@.len() == 0,
        rule.exe matches Some(e) ==> e@.len() > 0,
    ensures
        !field_equals(rule.exe, p.exe@),
        rule_matches(rule, p) == (field_equals(rule.name, p.name@) || cmdline_found(rule, p)),
{
}

} // verus!

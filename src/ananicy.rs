//! Conversion of the legacy rule format: its files hold one JSON object per
//! line, with comments and blank lines, and each record becomes a rule or a
//! class of the native model.
use vstd::prelude::*;
use crate::config::{AnanicyRuleConfig, AnanicyTypeConfig, RuniceClassConfig, RuniceRuleConfig};
use crate::text::str_eq;

verus! {

/// Relies on `String::push`, which appends one character.
#[verifier::external_body]
fn push_char(s: &mut String, c: char)
    ensures
        final(s)@ == old(s)@.push(c),
{
    s.push(c)
}

/// The characters with the Unicode `White_Space` property.
pub open spec fn is_white_space(c: char) -> bool {
    ('\u{9}' <= c && c <= '\u{d}') || c == ' ' || c == '\u{85}' || c == '\u{a0}' || c == '\u{1680}'
        || ('\u{2000}' <= c && c <= '\u{200a}') || c == '\u{2028}' || c == '\u{2029}' || c == '\u{202f}'
        || c == '\u{205f}' || c == '\u{3000}'
}

pub fn white_space(c: char) -> (r: bool)
    ensures
        r == is_white_space(c),
{
    ('\u{9}' <= c && c <= '\u{d}') || c == ' ' || c == '\u{85}' || c == '\u{a0}' || c == '\u{1680}'
        || ('\u{2000}' <= c && c <= '\u{200a}') || c == '\u{2028}' || c == '\u{2029}' || c == '\u{202f}'
        || c == '\u{205f}' || c == '\u{3000}'
}

/// Whether a line, with its white space removed, holds a record: it is not
/// empty and is no comment.
pub open spec fn is_record(line: Seq<char>) -> bool {
    line.len() > 0 && line[0] != '#'
}

/// The records found so far after reading `s`, and the white-space-free
/// text of the line still open.
pub open spec fn scan_records(s: Seq<char>) -> (Seq<Seq<char>>, Seq<char>)
    decreases s.len(),
{
    if s.len() == 0 {
        (Seq::empty(), Seq::empty())
    } else {
        let (done, open) = scan_records(s.drop_last());
        let c = s.last();
        if c == '\n' {
            (if is_record(open) { done.push(open) } else { done }, Seq::empty())
        } else if is_white_space(c) {
            (done, open)
        } else {
            (done, open.push(c))
        }
    }
}

/// The records of a file: each line with all white space taken out, where
/// what is left is not empty and does not start with `#`.
pub open spec fn records_of(s: Seq<char>) -> Seq<Seq<char>> {
    let (done, open) = scan_records(s);
    if is_record(open) {
        done.push(open)
    } else {
        done
    }
}

pub open spec fn views(v: Seq<String>) -> Seq<Seq<char>> {
    v.map_values(|x: String| x@)
}

/// Splits the text of a legacy file into its records.
pub fn config_records(text: &str) -> (r: Vec<String>)
    ensures
        views(r@) == records_of(text@),
{
    let n = text.unicode_len();
    let mut done: Vec<String> = Vec::new();
    let mut open = String::new();
    let mut i: usize = 0;
    while i < n
        invariant
            n == text@.len(),
            0 <= i <= n,
            (views(done@), open@) == scan_records(text@.subrange(0, i as int)),
        decreases n - i,
    {
        let c = text.get_char(i);
        proof {
            assert(text@.subrange(0, i + 1).drop_last() =~= text@.subrange(0, i as int));
        }
        if c == '\n' {
            let line = open;
            open = String::new();
            if record_line(&line) {
                done.push(line);
                proof {
                    assert(views(done@) =~= views(done@.drop_last()).push(line@));
                }
            }
        } else if !white_space(c) {
            push_char(&mut open, c);
        }
        i = i + 1;
    }
    proof {
        assert(text@.subrange(0, n as int) =~= text@);
    }
    if record_line(&open) {
        done.push(open);
        proof {
            assert(views(done@) =~= views(done@.drop_last()).push(done@.last()@));
        }
    }
    done
}

fn record_line(line: &String) -> (r: bool)
    ensures
        r == is_record(line@),
{
    let s = line.as_str();
    s.unicode_len() > 0 && s.get_char(0) != '#'
}

/// The rule that a legacy rule record stands for, under the record's name:
/// it matches by process name and selects the record's type as its class.
pub fn rule_from_ananicy(item: AnanicyRuleConfig) -> (r: (String, RuniceRuleConfig))
    ensures
        r.0@ == item.name@,
        r.1.class@ == item.type_field@,
        r.1.name matches Some(n) && n@ == item.name@,
        r.1.exe is None,
        r.1.cmdline is None,
        r.1.user is None,
{
    let key = item.name.clone();
    (key, RuniceRuleConfig { class: item.type_field, name: Some(item.name), exe: None, cmdline: None, user: None })
}

/// The class that a legacy type record stands for, under the type's name.
pub fn class_from_ananicy(item: AnanicyTypeConfig) -> (r: (String, RuniceClassConfig))
    ensures
        r.0 == item.type_field,
        r.1 == (RuniceClassConfig {
            niceness: item.nice,
            sched_policy: item.sched,
            sched_priority: None,
            iosched_class: item.ioclass,
            iosched_priority: item.ionice,
            oom_score_adj: item.oom_score_adj,
            cgroup: item.cgroup,
            affinity: None,
        }),
{
    (item.type_field, RuniceClassConfig {
        niceness: item.nice,
        sched_policy: item.sched,
        sched_priority: None,
        iosched_class: item.ioclass,
        iosched_priority: item.ionice,
        oom_score_adj: item.oom_score_adj,
        cgroup: item.cgroup,
        affinity: None,
    })
}

/// The index of the first entry with key `key`.
pub open spec fn key_index<T>(entries: Seq<(String, T)>, key: Seq<char>) -> Option<int> {
    if exists|i: int| 0 <= i < entries.len() && entries[i].0@ == key {
        Some(choose|i: int| 0 <= i < entries.len() && entries[i].0@ == key && forall|j: int| 0 <= j < i ==> entries[j].0@ != key)
    } else {
        None
    }
}

/// Stores `value` under `key`: it replaces the entry of that key where there
/// is one, and is added at the end where there is none.
pub fn upsert<T>(entries: &mut Vec<(String, T)>, key: String, value: T)
    ensures
        match key_index(old(entries)@, key@) {
            Some(i) => final(entries)@ == old(entries)@.update(i, (key, value)),
            None => final(entries)@ == old(entries)@.push((key, value)),
        },
{
    let mut i: usize = 0;
    while i < entries.len()
        invariant
            0 <= i <= entries@.len(),
            entries@ == old(entries)@,
            forall|j: int| 0 <= j < i ==> entries@[j].0@ != key@,
        decreases entries@.len() - i,
    {
        if str_eq(entries[i].0.as_str(), key.as_str()) {
            proof {
                let w = choose|w: int| 0 <= w < entries@.len() && entries@[w].0@ == key@ && forall|j: int| 0 <= j < w ==> entries@[j].0@ != key@;
                assert(w == i);
            }
            entries.set(i, (key, value));
            return;
        }
        i = i + 1;
    }
    entries.push((key, value));
}

/// The kind of a legacy file, told by its extension.
#[derive(Clone, Copy, Debug, PartialEq, Eq, Structural)]
pub enum AnanicyFileKind {
    Rules,
    Types,
    Cgroups,
}

/// The position of the first `c` in `s` at or after `from`, or the length
/// of `s` where there is none.
pub open spec fn find_from(s: Seq<char>, c: char, from: int) -> int
    decreases s.len() - from,
{
    if from >= s.len() {
        s.len() as int
    } else if s[from] == c {
        from
    } else {
        find_from(s, c, from + 1)
    }
}

pub open spec fn kind_of_extension(ext: Seq<char>) -> Option<AnanicyFileKind> {
    if ext == "rules"@ {
        Some(AnanicyFileKind::Rules)
    } else if ext == "types"@ {
        Some(AnanicyFileKind::Types)
    } else if ext == "cgroups"@ {
        Some(AnanicyFileKind::Cgroups)
    } else {
        None
    }
}

fn find_char(s: &str, c: char, from: usize) -> (r: usize)
    requires
        from <= s@.len(),
    ensures
        r as int == find_from(s@, c, from as int),
{
    let n = s.unicode_len();
    let mut i = from;
    while i < n && s.get_char(i) != c
        invariant
            n == s@.len(),
            from <= i <= n,
            find_from(s@, c, from as int) == find_from(s@, c, i as int),
        decreases n - i,
    {
        i = i + 1;
    }
    i
}

/// Splits a legacy file name into its stem (up to the first dot) and its
/// kind, given by the text between the first and the second dot. A name
/// without a dot, or with an unknown extension, yields nothing.
pub fn ananicy_file_kind(file_name: &str) -> (r: Option<(String, AnanicyFileKind)>)
    ensures
        ({
            let s = file_name@;
            let d = find_from(s, '.', 0);
            let e = find_from(s, '.', d + 1);
            match r {
                Some((stem, kind)) => d < s.len() && stem@ == s.subrange(0, d)
                    && kind_of_extension(s.subrange(d + 1, e)) == Some(kind),
                None => d >= s.len() || kind_of_extension(s.subrange(d + 1, e)) is None,
            }
        }),
{
    let n = file_name.unicode_len();
    let d = find_char(file_name, '.', 0);
    if d >= n {
        return None;
    }
    let e = find_char(file_name, '.', d + 1);
    proof {
        lemma_find_from_bounds(file_name@, '.', d + 1);
    }
    let ext = file_name.substring_char(d + 1, e);
    let kind = if str_eq(ext, "rules") {
        AnanicyFileKind::Rules
    } else if str_eq(ext, "types") {
        AnanicyFileKind::Types
    } else if str_eq(ext, "cgroups") {
        AnanicyFileKind::Cgroups
    } else {
        return None;
    };
    let stem = file_name.substring_char(0, d).to_owned();
    Some((stem, kind))
}

pub proof fn lemma_find_from_bounds(s: Seq<char>, c: char, from: int)
    requires
        0 <= from <= s.len(),
    ensures
        from <= find_from(s, c, from) <= s.len(),
    decreases s.len() - from,
{
    if from < s.len() {
        lemma_find_from_bounds(s, c, from + 1);
    }
}

} // verus!

//! Symbolic names and kernel codes of I/O scheduling classes and CPU
//! scheduling policies, with the lookups between them.
use vstd::prelude::*;
use crate::text::str_eq;

verus! {

/// An I/O scheduling class as understood by the kernel's I/O scheduler.
#[derive(Clone, Copy, Debug, PartialEq, Eq, Structural)]
pub enum IoSchedClass {
    /// Symbol `none`, code 0.
    Unset,
    /// Symbol `realtime`, code 1.
    Realtime,
    /// Symbol `best-effort`, code 2.
    BestEffort,
    /// Symbol `idle`, code 3.
    Idle,
}

/// A CPU scheduling policy.
#[derive(Clone, Copy, Debug, PartialEq, Eq, Structural)]
pub enum SchedPolicy {
    /// Symbol `normal`, code 0.
    Normal,
    /// Symbol `fifo`, code 1.
    Fifo,
    /// Symbol `rr`, code 2.
    RoundRobin,
    /// Symbol `batch`, code 3.
    Batch,
    /// Symbol `iso`, code 4.
    Iso,
    /// Symbol `idle`, code 5.
    Idle,
    /// Symbol `deadline`, code 6.
    Deadline,
    /// Symbol `other`, code 99: a kernel value that no other entry names.
    Other,
}

/// Which of the two representation tables a lookup consults.
#[derive(Clone, Copy, Debug, PartialEq, Eq, Structural)]
pub enum ReprTable {
    IoSchedClass,
    SchedPolicy,
}

/// A lookup found no entry for the key it was given.
#[derive(Clone, Copy, Debug, PartialEq, Eq, Structural)]
pub struct UnknownRepresentation;

/// Code used for scheduling policies that the kernel reports but the table
/// does not name.
pub const OTHER_POLICY_CODE: u32 = 99;

pub open spec fn io_class_symbol(c: IoSchedClass) -> Seq<char> {
    match c {
        IoSchedClass::Unset => "none"@,
        IoSchedClass::Realtime => "realtime"@,
        IoSchedClass::BestEffort => "best-effort"@,
        IoSchedClass::Idle => "idle"@,
    }
}

pub open spec fn io_class_code(c: IoSchedClass) -> u32 {
    match c {
        IoSchedClass::Unset => 0,
        IoSchedClass::Realtime => 1,
        IoSchedClass::BestEffort => 2,
        IoSchedClass::Idle => 3,
    }
}

pub open spec fn policy_symbol(p: SchedPolicy) -> Seq<char> {
    match p {
        SchedPolicy::Normal => "normal"@,
        SchedPolicy::Fifo => "fifo"@,
        SchedPolicy::RoundRobin => "rr"@,
        SchedPolicy::Batch => "batch"@,
        SchedPolicy::Iso => "iso"@,
        SchedPolicy::Idle => "idle"@,
        SchedPolicy::Deadline => "deadline"@,
        SchedPolicy::Other => "other"@,
    }
}

pub open spec fn policy_code(p: SchedPolicy) -> u32 {
    match p {
        SchedPolicy::Normal => 0,
        SchedPolicy::Fifo => 1,
        SchedPolicy::RoundRobin => 2,
        SchedPolicy::Batch => 3,
        SchedPolicy::Iso => 4,
        SchedPolicy::Idle => 5,
        SchedPolicy::Deadline => 6,
        SchedPolicy::Other => 99,
    }
}

/// The I/O class whose symbol is `s`, if any.
pub open spec fn io_class_of_symbol(s: Seq<char>) -> Option<IoSchedClass> {
    if s == "none"@ {
        Some(IoSchedClass::Unset)
    } else if s == "realtime"@ {
        Some(IoSchedClass::Realtime)
    } else if s == "best-effort"@ {
        Some(IoSchedClass::BestEffort)
    } else if s == "idle"@ {
        Some(IoSchedClass::Idle)
    } else {
        None
    }
}

/// The I/O class whose code is `code`, if any.
pub open spec fn io_class_of_code(code: u32) -> Option<IoSchedClass> {
    if code == 0 {
        Some(IoSchedClass::Unset)
    } else if code == 1 {
        Some(IoSchedClass::Realtime)
    } else if code == 2 {
        Some(IoSchedClass::BestEffort)
    } else if code == 3 {
        Some(IoSchedClass::Idle)
    } else {
        None
    }
}

/// The scheduling policy whose symbol is `s`, if any.
pub open spec fn policy_of_symbol(s: Seq<char>) -> Option<SchedPolicy> {
    if s == "normal"@ {
        Some(SchedPolicy::Normal)
    } else if s == "fifo"@ {
        Some(SchedPolicy::Fifo)
    } else if s == "rr"@ {
        Some(SchedPolicy::RoundRobin)
    } else if s == "batch"@ {
        Some(SchedPolicy::Batch)
    } else if s == "iso"@ {
        Some(SchedPolicy::Iso)
    } else if s == "idle"@ {
        Some(SchedPolicy::Idle)
    } else if s == "deadline"@ {
        Some(SchedPolicy::Deadline)
    } else if s == "other"@ {
        Some(SchedPolicy::Other)
    } else {
        None
    }
}

/// The scheduling policy whose code is `code`, if any.
pub open spec fn policy_of_code(code: u32) -> Option<SchedPolicy> {
    if code == 0 {
        Some(SchedPolicy::Normal)
    } else if code == 1 {
        Some(SchedPolicy::Fifo)
    } else if code == 2 {
        Some(SchedPolicy::RoundRobin)
    } else if code == 3 {
        Some(SchedPolicy::Batch)
    } else if code == 4 {
        Some(SchedPolicy::Iso)
    } else if code == 5 {
        Some(SchedPolicy::Idle)
    } else if code == 6 {
        Some(SchedPolicy::Deadline)
    } else if code == 99 {
        Some(SchedPolicy::Other)
    } else {
        None
    }
}

/// The code that `table` gives to symbol `s`, if it holds the symbol.
pub open spec fn spec_symbol_to_code(table: ReprTable, s: Seq<char>) -> Option<u32> {
    match table {
        ReprTable::IoSchedClass => match io_class_of_symbol(s) {
            Some(c) => Some(io_class_code(c)),
            None => None,
        },
        ReprTable::SchedPolicy => match policy_of_symbol(s) {
            Some(p) => Some(policy_code(p)),
            None => None,
        },
    }
}

/// The symbol that `table` gives to `code`, if it holds the code.
pub open spec fn spec_code_to_symbol(table: ReprTable, code: u32) -> Option<Seq<char>> {
    match table {
        ReprTable::IoSchedClass => match io_class_of_code(code) {
            Some(c) => Some(io_class_symbol(c)),
            None => None,
        },
        ReprTable::SchedPolicy => match policy_of_code(code) {
            Some(p) => Some(policy_symbol(p)),
            None => None,
        },
    }
}

impl IoSchedClass {
    /// Parses the symbolic name of an I/O class.
    pub fn from_symbol(s: &str) -> (r: Result<IoSchedClass, UnknownRepresentation>)
        ensures
            r == (match io_class_of_symbol(s@) {
                Some(c) => Ok(c),
                None => Err(UnknownRepresentation),
            }),
    {
        if str_eq(s, "none") {
            Ok(IoSchedClass::Unset)
        } else if str_eq(s, "realtime") {
            Ok(IoSchedClass::Realtime)
        } else if str_eq(s, "best-effort") {
            Ok(IoSchedClass::BestEffort)
        } else if str_eq(s, "idle") {
            Ok(IoSchedClass::Idle)
        } else {
            Err(UnknownRepresentation)
        }
    }

    /// The I/O class with the given kernel code.
    pub fn from_code(code: u32) -> (r: Result<IoSchedClass, UnknownRepresentation>)
        ensures
            r == (match io_class_of_code(code) {
                Some(c) => Ok(c),
                None => Err(UnknownRepresentation),
            }),
    {
        match code {
            0 => Ok(IoSchedClass::Unset),
            1 => Ok(IoSchedClass::Realtime),
            2 => Ok(IoSchedClass::BestEffort),
            3 => Ok(IoSchedClass::Idle),
            _ => Err(UnknownRepresentation),
        }
    }

    pub fn symbol(&self) -> (r: &'static str)
        ensures
            r@ == io_class_symbol(*self),
    {
        match self {
            IoSchedClass::Unset => "none",
            IoSchedClass::Realtime => "realtime",
            IoSchedClass::BestEffort => "best-effort",
            IoSchedClass::Idle => "idle",
        }
    }

    pub fn code(&self) -> (r: u32)
        ensures
            r == io_class_code(*self),
    {
        match self {
            IoSchedClass::Unset => 0,
            IoSchedClass::Realtime => 1,
            IoSchedClass::BestEffort => 2,
            IoSchedClass::Idle => 3,
        }
    }
}

impl SchedPolicy {
    /// Parses the symbolic name of a scheduling policy.
    pub fn from_symbol(s: &str) -> (r: Result<SchedPolicy, UnknownRepresentation>)
        ensures
            r == (match policy_of_symbol(s@) {
                Some(p) => Ok(p),
                None => Err(UnknownRepresentation),
            }),
    {
        if str_eq(s, "normal") {
            Ok(SchedPolicy::Normal)
        } else if str_eq(s, "fifo") {
            Ok(SchedPolicy::Fifo)
        } else if str_eq(s, "rr") {
            Ok(SchedPolicy::RoundRobin)
        } else if str_eq(s, "batch") {
            Ok(SchedPolicy::Batch)
        } else if str_eq(s, "iso") {
            Ok(SchedPolicy::Iso)
        } else if str_eq(s, "idle") {
            Ok(SchedPolicy::Idle)
        } else if str_eq(s, "deadline") {
            Ok(SchedPolicy::Deadline)
        } else if str_eq(s, "other") {
            Ok(SchedPolicy::Other)
        } else {
            Err(UnknownRepresentation)
        }
    }

    /// The scheduling policy with the given kernel code.
    pub fn from_code(code: u32) -> (r: Result<SchedPolicy, UnknownRepresentation>)
        ensures
            r == (match policy_of_code(code) {
                Some(p) => Ok(p),
                None => Err(UnknownRepresentation),
            }),
    {
        match code {
            0 => Ok(SchedPolicy::Normal),
            1 => Ok(SchedPolicy::Fifo),
            2 => Ok(SchedPolicy::RoundRobin),
            3 => Ok(SchedPolicy::Batch),
            4 => Ok(SchedPolicy::Iso),
            5 => Ok(SchedPolicy::Idle),
            6 => Ok(SchedPolicy::Deadline),
            99 => Ok(SchedPolicy::Other),
            _ => Err(UnknownRepresentation),
        }
    }

    /// The policy that a kernel-reported code stands for; codes that the
    /// table does not name are `Other`.
    pub fn observed(code: u32) -> (r: SchedPolicy)
        ensures
            r == (match policy_of_code(code) {
                Some(p) => p,
                None => SchedPolicy::Other,
            }),
    {
        match SchedPolicy::from_code(code) {
            Ok(p) => p,
            Err(_) => SchedPolicy::Other,
        }
    }

    pub fn symbol(&self) -> (r: &'static str)
        ensures
            r@ == policy_symbol(*self),
    {
        match self {
            SchedPolicy::Normal => "normal",
            SchedPolicy::Fifo => "fifo",
            SchedPolicy::RoundRobin => "rr",
            SchedPolicy::Batch => "batch",
            SchedPolicy::Iso => "iso",
            SchedPolicy::Idle => "idle",
            SchedPolicy::Deadline => "deadline",
            SchedPolicy::Other => "other",
        }
    }

    pub fn code(&self) -> (r: u32)
        ensures
            r == policy_code(*self),
    {
        match self {
            SchedPolicy::Normal => 0,
            SchedPolicy::Fifo => 1,
            SchedPolicy::RoundRobin => 2,
            SchedPolicy::Batch => 3,
            SchedPolicy::Iso => 4,
            SchedPolicy::Idle => 5,
            SchedPolicy::Deadline => 6,
            SchedPolicy::Other => OTHER_POLICY_CODE,
        }
    }
}

/// Looks up the code of a symbolic name in `table`.
pub fn symbol_to_code(table: ReprTable, symbol: &str) -> (r: Result<u32, UnknownRepresentation>)
    ensures
        r == (match spec_symbol_to_code(table, symbol@) {
            Some(c) => Ok(c),
            None => Err(UnknownRepresentation),
        }),
{
    match table {
        ReprTable::IoSchedClass => match IoSchedClass::from_symbol(symbol) {
            Ok(c) => Ok(c.code()),
            Err(e) => Err(e),
        },
        ReprTable::SchedPolicy => match SchedPolicy::from_symbol(symbol) {
            Ok(p) => Ok(p.code()),
            Err(e) => Err(e),
        },
    }
}

/// Looks up the symbolic name of a code in `table`.
pub fn code_to_symbol(table: ReprTable, code: u32) -> (r: Result<&'static str, UnknownRepresentation>)
    ensures
        match spec_code_to_symbol(table, code) {
            Some(s) => r matches Ok(t) && t@ == s,
            None => r == Err::<&'static str, UnknownRepresentation>(UnknownRepresentation),
        },
{
    match table {
        ReprTable::IoSchedClass => match IoSchedClass::from_code(code) {
            Ok(c) => Ok(c.symbol()),
            Err(e) => Err(e),
        },
        ReprTable::SchedPolicy => match SchedPolicy::from_code(code) {
            Ok(p) => Ok(p.symbol()),
            Err(e) => Err(e),
        },
    }
}

/// Every symbol of a table maps to a code that maps back to the same symbol.
pub proof fn lemma_symbol_round_trip(table: ReprTable, s: Seq<char>)
    ensures
        spec_symbol_to_code(table, s) matches Some(c) ==> spec_code_to_symbol(table, c) == Some(s),
{
}

/// Every code of a table maps to a symbol that maps back to the same code.
pub proof fn lemma_code_round_trip(table: ReprTable, code: u32)
    ensures
        spec_code_to_symbol(table, code) matches Some(s) ==> spec_symbol_to_code(table, s) == Some(code),
{
    reveal_strlit("none");
    reveal_strlit("realtime");
    reveal_strlit("best-effort");
    reveal_strlit("idle");
    reveal_strlit("normal");
    reveal_strlit("fifo");
    reveal_strlit("rr");
    reveal_strlit("batch");
    reveal_strlit("iso");
    reveal_strlit("deadline");
    reveal_strlit("other");
    assert("none"@.len() == 4);
    assert("realtime"@.len() == 8);
    assert("best-effort"@.len() == 11);
    assert("idle"@.len() == 4);
    assert("normal"@.len() == 6);
    assert("fifo"@.len() == 4);
    assert("rr"@.len() == 2);
    assert("batch"@.len() == 5);
    assert("iso"@.len() == 3);
    assert("deadline"@.len() == 8);
    assert("other"@.len() == 5);
    assert("idle"@[0] != "none"@[0]);
    assert("idle"@[0] != "fifo"@[0]);
    assert("other"@[0] != "batch"@[0]);
    assert("deadline"@[0] != "realtime"@[0]);
}

} // verus!

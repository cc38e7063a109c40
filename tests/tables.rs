use runice::repr::{code_to_symbol, symbol_to_code, IoSchedClass, ReprTable, SchedPolicy, UnknownRepresentation};

const IO: [(&str, u32); 4] = [("none", 0), ("realtime", 1), ("best-effort", 2), ("idle", 3)];
const POLICY: [(&str, u32); 8] = [
    ("normal", 0),
    ("fifo", 1),
    ("rr", 2),
    ("batch", 3),
    ("iso", 4),
    ("idle", 5),
    ("deadline", 6),
    ("other", 99),
];

#[test]
fn io_table_round_trips() {
    for (sym, code) in IO {
        assert_eq!(symbol_to_code(ReprTable::IoSchedClass, sym), Ok(code));
        assert_eq!(code_to_symbol(ReprTable::IoSchedClass, code), Ok(sym));
    }
}

#[test]
fn policy_table_round_trips() {
    for (sym, code) in POLICY {
        assert_eq!(symbol_to_code(ReprTable::SchedPolicy, sym), Ok(code));
        assert_eq!(code_to_symbol(ReprTable::SchedPolicy, code), Ok(sym));
    }
}

#[test]
fn unknown_keys_fail() {
    assert_eq!(symbol_to_code(ReprTable::IoSchedClass, "fifo"), Err(UnknownRepresentation));
    assert_eq!(symbol_to_code(ReprTable::SchedPolicy, "best-effort"), Err(UnknownRepresentation));
    assert_eq!(symbol_to_code(ReprTable::SchedPolicy, ""), Err(UnknownRepresentation));
    assert_eq!(code_to_symbol(ReprTable::IoSchedClass, 4), Err(UnknownRepresentation));
    assert_eq!(code_to_symbol(ReprTable::SchedPolicy, 7), Err(UnknownRepresentation));
}

#[test]
fn observed_policy_codes() {
    assert_eq!(SchedPolicy::observed(1), SchedPolicy::Fifo);
    assert_eq!(SchedPolicy::observed(42), SchedPolicy::Other);
    assert_eq!(SchedPolicy::Other.code(), 99);
    assert_eq!(IoSchedClass::from_code(2), Ok(IoSchedClass::BestEffort));
    assert_eq!(IoSchedClass::from_symbol("idle").unwrap().symbol(), "idle");
}

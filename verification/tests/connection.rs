use sqlite3dyn::code::SQLITE_RESULT;
use sqlite3dyn::conn::{callback_status, connect_next, decode_all, exec_end, ConnectStep, Connection, RowStep};
use sqlite3dyn::loader::{load_next, symbol_name_at, LoadStep, SymbolTable, SYMBOL_COUNT};

fn full() -> SymbolTable {
    SymbolTable { has_open_v2: true, has_close: true, has_exec: true, has_free: true }
}

#[test]
fn load_looks_up_the_four_symbols_in_order() {
    let names: Vec<&str> = (0..SYMBOL_COUNT).map(symbol_name_at).collect();
    assert_eq!(names, vec!["sqlite3_open_v2", "sqlite3_close", "sqlite3_exec", "sqlite3_free"]);
    assert!(matches!(load_next(false, &vec![]), LoadStep::Failed));
    assert!(matches!(load_next(true, &vec![]), LoadStep::LookUp(0)));
    assert!(matches!(load_next(true, &vec![true]), LoadStep::LookUp(1)));
    assert!(matches!(load_next(true, &vec![true, true, true]), LoadStep::LookUp(3)));
    assert!(matches!(load_next(true, &vec![true, false]), LoadStep::Failed));
    assert!(matches!(load_next(true, &vec![true; 4]), LoadStep::Loaded));
    let t = SymbolTable::from_lookups(&vec![true, true, true, true]);
    assert!(t.has_open_v2 && t.has_close && t.has_exec && t.has_free);
    let p = SymbolTable::from_lookups(&vec![true, false]);
    assert!(p.has_open_v2 && !p.has_close && !p.has_exec && !p.has_free);
}

#[test]
fn connect_reports_the_first_missing_symbol() {
    let mut t = full();
    t.has_exec = false;
    t.has_free = false;
    match connect_next(&t, "test.db", &vec![]) {
        ConnectStep::Fail(m) => assert_eq!(m, "not init sqlite3_exec yet"),
        _ => panic!("expected a failure"),
    }
    let t2 = SymbolTable { has_open_v2: false, has_close: false, has_exec: false, has_free: false };
    match connect_next(&t2, "test.db", &vec![]) {
        ConnectStep::Fail(m) => assert_eq!(m, "not init sqlite3_open_v2 yet"),
        _ => panic!("expected a failure"),
    }
    let mut t3 = full();
    t3.has_free = false;
    match connect_next(&t3, "x", &vec![]) {
        ConnectStep::Fail(m) => assert_eq!(m, "not init sqlite3_free yet"),
        _ => panic!("expected a failure"),
    }
}

#[test]
fn connect_opens_create_then_retries_read_write() {
    let t = full();
    match connect_next(&t, "./test.db", &vec![]) {
        ConnectStep::Open { path, flags } => {
            assert_eq!(path, "./test.db\0");
            assert_eq!(flags, 6);
        }
        _ => panic!("expected an open"),
    }
    assert!(matches!(connect_next(&t, "./test.db", &vec![SQLITE_RESULT(0)]), ConnectStep::Connected));
    match connect_next(&t, "./test.db", &vec![SQLITE_RESULT(14)]) {
        ConnectStep::Open { path, flags } => {
            assert_eq!(path, "./test.db\0");
            assert_eq!(flags, 2);
        }
        _ => panic!("expected a retry"),
    }
    assert!(matches!(
        connect_next(&t, "./test.db", &vec![SQLITE_RESULT(14), SQLITE_RESULT(0)]),
        ConnectStep::Connected
    ));
    match connect_next(&t, "./test.db", &vec![SQLITE_RESULT(14), SQLITE_RESULT(14)]) {
        ConnectStep::Fail(m) => assert_eq!(m, "connect ./test.db error 14"),
        _ => panic!("expected a failure"),
    }
}

#[test]
fn exec_outcomes() {
    let e = exec_end("select 1;", &SQLITE_RESULT(0), None);
    assert!(e.result.is_ok());
    assert!(!e.free_errmsg);
    let e = exec_end("select 1;", &SQLITE_RESULT(1), None);
    assert_eq!(e.result.unwrap_err(), "exec select 1;\nerror 1");
    assert!(!e.free_errmsg);
    let e = exec_end("bad", &SQLITE_RESULT(1), Some(b"no such table: cctable"));
    assert_eq!(e.result.unwrap_err(), "exec bad\nstr no such table: cctable");
    assert!(e.free_errmsg);
    let e = exec_end("bad", &SQLITE_RESULT(1), Some(&[0xc3, 0x28]));
    assert_eq!(e.result.unwrap_err(), "exec bad\nerror 1");
    assert!(e.free_errmsg);
    let e = exec_end("odd", &SQLITE_RESULT(0), Some(b"warning"));
    assert_eq!(e.result.unwrap_err(), "exec odd\nstr warning");
}

#[test]
fn connection_lifecycle() {
    let mut c = Connection::new();
    assert!(!c.is_open());
    assert_eq!(c.begin_exec("select 1;", true), Err("not opened yet".to_string()));
    assert!(!c.has_callback());
    assert!(!c.close());
    c.record_open(true);
    assert!(c.is_open());
    assert_eq!(c.begin_exec("select 1;", true), Ok("select 1;\0".to_string()));
    assert!(c.has_callback());
    assert_eq!(c.begin_exec("select 2;", false), Ok("select 2;\0".to_string()));
    assert!(!c.has_callback());
    c.begin_exec("select 3;", true).unwrap();
    assert!(c.close());
    assert!(!c.close());
    assert!(c.has_callback());
    assert_eq!(c.begin_exec("select 1;", true), Err("not opened yet".to_string()));
    c.record_open(true);
    assert!(c.release());
    assert!(!c.is_open());
    assert!(!c.has_callback());
    assert!(!c.release());
}

#[test]
fn rows_are_decoded_or_refused() {
    let mut c = Connection::new();
    let vals = vec![b"1".to_vec(), "naïve".as_bytes().to_vec()];
    let cols = vec![b"id".to_vec(), b"name".to_vec()];
    assert!(matches!(c.begin_row(&vals, &cols), RowStep::Skip));
    c.record_open(true);
    c.begin_exec("select * from cctable;", true).unwrap();
    match c.begin_row(&vals, &cols) {
        RowStep::Deliver(v, k) => {
            assert_eq!(v, vec!["1".to_string(), "naïve".to_string()]);
            assert_eq!(k, vec!["id".to_string(), "name".to_string()]);
        }
        _ => panic!("expected a delivery"),
    }
    let bad = vec![b"id".to_vec(), vec![0x80]];
    assert!(matches!(c.begin_row(&vals, &bad), RowStep::Reject));
    assert!(matches!(c.begin_row(&bad, &cols), RowStep::Reject));
    assert_eq!(RowStep::Reject.early_status(), Some(-1));
    assert_eq!(RowStep::Skip.early_status(), Some(0));
    assert_eq!(RowStep::Deliver(vec![], vec![]).early_status(), None);
    assert_eq!(callback_status(true), 0);
    assert_eq!(callback_status(false), -1);
    assert_eq!(decode_all(&vec![]), Some(vec![]));
}

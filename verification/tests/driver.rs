use sqlite3dyn::harness::{column_width, commandline_for, sqlexec_config, sqlexec_plan};

fn strings(v: &[&str]) -> Vec<String> {
    v.iter().map(|s| s.to_string()).collect()
}

#[test]
fn sqlexec_needs_a_database_and_statements() {
    assert_eq!(sqlexec_plan(&strings(&[])), Err("need dbfile sqls...".to_string()));
    assert_eq!(sqlexec_plan(&strings(&["a.db"])), Err("need dbfile sqls...".to_string()));
    let (db, sqls) = sqlexec_plan(&strings(&["a.db", "select 1;"])).unwrap();
    assert_eq!(db, "a.db");
    assert_eq!(sqls, strings(&["select 1;"]));
    let (db, sqls) = sqlexec_plan(&strings(&["a.db", "create table t(x);", "select * from t;"])).unwrap();
    assert_eq!(db, "a.db");
    assert_eq!(sqls, strings(&["create table t(x);", "select * from t;"]));
}

#[test]
fn commandline_doubles_backslashes() {
    let c = sqlexec_config().unwrap();
    let expected = "{\n\t\t\"sqldll\" : \".\\\\sqlite3.dll\"\n\t\t\"sqlexec<sqlexec_handler>##dbfile sqlstr ... to execute sql##\" : {\n\t\t\t\"$\" : \"+\"\n\t\t}\n\t}";
    assert_eq!(c, expected);
    assert_eq!(commandline_for("x"), expected.replace(".\\\\sqlite3.dll", "x"));
}

#[test]
fn example_column_width() {
    assert_eq!(column_width(&vec![], &vec![]), 1);
    assert_eq!(column_width(&strings(&[""]), &strings(&[""])), 1);
    assert_eq!(column_width(&strings(&["1", "hello"]), &strings(&["id", "name"])), 6);
    assert_eq!(column_width(&strings(&["1"]), &strings(&["identifier"])), 11);
    assert_eq!(column_width(&strings(&["é"]), &vec![]), 3);
}

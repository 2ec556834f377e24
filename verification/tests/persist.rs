use hop::persist::{
    join_records, load_shortcuts, save_shortcuts, store_from_rows, StoreFile,
};
use hop::store::Store;

fn persist_store(entries: &[(&str, &str)]) -> Store {
    let mut store = Store::new();
    for (name, path) in entries {
        store.set(String::from(*name), String::from(*path));
    }
    store
}

fn persist_load(bytes: &[u8]) -> Store {
    match load_shortcuts(StoreFile::Contents(bytes.to_vec())) {
        Ok(store) => store,
        Err(error) => panic!("load failed: {}", error.cause),
    }
}

fn persist_cause(bytes: &[u8]) -> String {
    match load_shortcuts(StoreFile::Contents(bytes.to_vec())) {
        Ok(_) => panic!("load succeeded"),
        Err(error) => error.cause,
    }
}

#[test]
fn a_missing_file_is_the_empty_store() {
    assert_eq!(load_shortcuts(StoreFile::Missing), Ok(Store::new()));
}

#[test]
fn an_unreadable_file_is_an_error_with_its_cause() {
    match load_shortcuts(StoreFile::Unreadable(String::from("Permission denied (os error 13)"))) {
        Ok(_) => panic!("load succeeded"),
        Err(error) => assert_eq!(error.cause, "Permission denied (os error 13)"),
    }
}

#[test]
fn empty_contents_are_the_empty_store() {
    assert_eq!(persist_load(b""), Store::new());
    assert_eq!(persist_load(b"\n\n"), Store::new());
}

#[test]
fn load_reads_one_shortcut_from_each_row() {
    let store = persist_load(b"proj,~/code/proj\nwork,/srv/work\n");
    assert_eq!(store, persist_store(&[("proj", "~/code/proj"), ("work", "/srv/work")]));
}

#[test]
fn load_has_no_header_row() {
    let store = persist_load(b"name,path\n");
    assert_eq!(store.get("name"), Some(&String::from("path")));
}

#[test]
fn load_reads_the_last_row_without_a_line_feed() {
    assert_eq!(persist_load(b"proj,~/code/proj"), persist_store(&[("proj", "~/code/proj")]));
}

#[test]
fn load_undoes_quoting() {
    let store = persist_load(b"\"a,b\",\"say \"\"hi\"\"\"\n\"two\nlines\",/x\n");
    assert_eq!(store.len(), 2);
    assert_eq!(store.get("a,b"), Some(&String::from("say \"hi\"")));
    assert_eq!(store.get("two\nlines"), Some(&String::from("/x")));
}

#[test]
fn load_keeps_whitespace_and_empty_fields() {
    let store = persist_load(b" a , /x \n,\n");
    assert_eq!(store.get(" a "), Some(&String::from(" /x ")));
    assert_eq!(store.get(""), Some(&String::from("")));
}

#[test]
fn load_lets_the_later_of_two_rows_with_one_name_count() {
    let store = persist_load(b"proj,/first\nwork,/w\nproj,/second\n");
    assert_eq!(store, persist_store(&[("proj", "/second"), ("work", "/w")]));
}

#[test]
fn load_ignores_fields_beyond_the_second() {
    let store = persist_load(b"proj,/p,extra\nwork,/w,more\n");
    assert_eq!(store, persist_store(&[("proj", "/p"), ("work", "/w")]));
}

#[test]
fn load_rejects_a_row_with_one_field() {
    assert_eq!(persist_cause(b"proj\n"), "row 1: found 1 of 2 fields");
    assert_eq!(persist_cause(b"\"\"\n"), "row 1: found 1 of 2 fields");
}

#[test]
fn load_rejects_rows_of_unequal_length() {
    assert!(!persist_cause(b"proj,/p\nwork\n").is_empty());
    assert!(!persist_cause(b"proj,/p\nwork,/w,extra\n").is_empty());
}

#[test]
fn load_rejects_what_is_not_utf8() {
    assert!(!persist_cause(b"proj,/p\xff\n").is_empty());
}

#[test]
fn store_from_rows_takes_the_first_two_fields() {
    let rows = vec![
        vec![String::from("b"), String::from("/b")],
        vec![String::from("a"), String::from("/a"), String::from("x")],
    ];
    assert_eq!(store_from_rows(&rows), Ok(persist_store(&[("a", "/a"), ("b", "/b")])));
    assert_eq!(store_from_rows(&Vec::new()), Ok(Store::new()));
}

#[test]
fn store_from_rows_reports_the_first_short_row() {
    let rows = vec![
        vec![String::from("a"), String::from("/a")],
        vec![],
        vec![String::from("c")],
    ];
    match store_from_rows(&rows) {
        Ok(_) => panic!("rows accepted"),
        Err(error) => assert_eq!(error.cause, "row 2: found 0 of 2 fields"),
    }
    let mut many: Vec<Vec<String>> = Vec::new();
    for i in 0..11 {
        many.push(vec![format!("n{}", i), String::from("/p")]);
    }
    many.push(vec![String::from("short")]);
    match store_from_rows(&many) {
        Ok(_) => panic!("rows accepted"),
        Err(error) => assert_eq!(error.cause, "row 12: found 1 of 2 fields"),
    }
}

#[test]
fn join_records_puts_the_records_one_after_the_other() {
    let records = vec![b"a,b\n".to_vec(), Vec::new(), b"c,d\n".to_vec()];
    assert_eq!(join_records(&records), b"a,b\nc,d\n".to_vec());
    assert_eq!(join_records(&Vec::new()), Vec::<u8>::new());
}

#[test]
fn save_writes_one_record_for_each_shortcut_in_the_order_of_the_names() {
    let store = persist_store(&[("work", "/srv/work"), ("proj", "~/code/proj")]);
    match save_shortcuts(&store) {
        Ok(bytes) => assert_eq!(bytes, b"proj,~/code/proj\nwork,/srv/work\n".to_vec()),
        Err(error) => panic!("save failed: {}", error.cause),
    }
}

#[test]
fn save_of_the_empty_store_is_empty() {
    assert_eq!(save_shortcuts(&Store::new()), Ok(Vec::new()));
}

#[test]
fn save_quotes_what_needs_it() {
    let store = persist_store(&[("a,b", "say \"hi\"")]);
    match save_shortcuts(&store) {
        Ok(bytes) => assert_eq!(bytes, b"\"a,b\",\"say \"\"hi\"\"\"\n".to_vec()),
        Err(error) => panic!("save failed: {}", error.cause),
    }
}

#[test]
fn save_then_load_gives_the_store_back() {
    let store = persist_store(&[
        ("proj", "~/code/proj"),
        ("work", "/srv/work"),
        ("with,comma", "/a,b"),
        ("with\"quote", "/say \"hi\""),
        ("two\nlines", "/x\r\ny"),
        (" spaced ", " /p "),
        ("ünïcödé", "~/日本語"),
        ("#hash", "/#"),
        ("empty-path", ""),
        ("", "/empty-name"),
    ]);
    let bytes = match save_shortcuts(&store) {
        Ok(bytes) => bytes,
        Err(error) => panic!("save failed: {}", error.cause),
    };
    assert_eq!(load_shortcuts(StoreFile::Contents(bytes)), Ok(store));
}

#[test]
fn save_then_load_gives_the_store_of_one_empty_shortcut_back() {
    let store = persist_store(&[("", "")]);
    let bytes = match save_shortcuts(&store) {
        Ok(bytes) => bytes,
        Err(error) => panic!("save failed: {}", error.cause),
    };
    assert_eq!(load_shortcuts(StoreFile::Contents(bytes)), Ok(store));
}

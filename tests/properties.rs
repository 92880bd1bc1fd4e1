use amandine::db::{
    check_create, check_data, check_exists, check_rename, io_result, ConnectStep, PathStatus,
    EMPTY_COLLECTION,
};
use amandine::naming::{collection_file_name, collection_names, collection_stem, json_file_name};
use amandine::records::{
    delete_record, find_index, insert_record, keyed, keyed_all, query_record, update_record,
    values_of,
};
use amandine::{DBError, Data, Database, Entry, ErrorKind};

#[derive(Debug, Clone, PartialEq)]
struct User {
    id: String,
    age: u8,
}

impl Data for User {
    fn uuid(&self) -> String {
        self.id.clone()
    }
}

fn user(id: &str, age: u8) -> User {
    User {
        id: id.to_string(),
        age,
    }
}

fn copy(c: &[Entry<User>]) -> Vec<Entry<User>> {
    c.iter()
        .map(|e| Entry {
            id: e.id.clone(),
            value: e.value.clone(),
        })
        .collect()
}

#[test]
fn file_name_is_lowercased() {
    assert_eq!(collection_file_name("Users"), "users.json");
    assert_eq!(collection_file_name("USERS"), collection_file_name("users"));
    assert_eq!(json_file_name("Mixed"), "Mixed.json");
}

#[test]
fn stem_needs_json_extension_and_a_stem() {
    assert_eq!(collection_stem("users.json"), Some("users".to_string()));
    assert_eq!(collection_stem("a.b.json"), Some("a.b".to_string()));
    assert_eq!(collection_stem("..json"), Some(".".to_string()));
    assert_eq!(collection_stem(".json"), None);
    assert_eq!(collection_stem("users.JSON"), None);
    assert_eq!(collection_stem("notes.txt"), None);
    assert_eq!(collection_stem("json"), None);
    assert_eq!(collection_stem(""), None);
}

#[test]
fn listing_keeps_collection_files_in_order() {
    let files = vec![
        "users.json".to_string(),
        "notes.txt".to_string(),
        ".json".to_string(),
        "b.json".to_string(),
    ];
    assert_eq!(
        collection_names(&files),
        vec!["users".to_string(), "b".to_string()]
    );
    assert!(collection_names(&Vec::new()).is_empty());
}

#[test]
fn listed_once_after_create_and_absent_after_delete() {
    let mut files = vec!["other.json".to_string()];
    files.push(collection_file_name("Users"));
    let names = collection_names(&files);
    assert_eq!(names.iter().filter(|n| n.as_str() == "users").count(), 1);
    files.retain(|f| f != "users.json");
    assert!(!collection_names(&files).contains(&"users".to_string()));
}

#[test]
fn insert_then_query_returns_the_record() {
    let mut c: Vec<Entry<User>> = Vec::new();
    let r = user("u1", 42);
    assert!(insert_record(&mut c, keyed(r.clone())).is_ok());
    assert_eq!(query_record(c, "u1"), Ok(r));
}

#[test]
fn second_insert_with_same_id_is_refused() {
    let mut c: Vec<Entry<User>> = Vec::new();
    assert!(insert_record(&mut c, keyed(user("u1", 42))).is_ok());
    assert_eq!(
        insert_record(&mut c, keyed(user("u1", 7))),
        Err(DBError(ErrorKind::DuplicateKey))
    );
    assert_eq!(c.len(), 1);
    assert_eq!(c[0].value.age, 42);
}

#[test]
fn update_of_missing_id_changes_nothing() {
    let mut c = keyed_all(vec![user("u1", 42), user("u2", 24)]);
    assert_eq!(
        update_record(&mut c, keyed(user("u9", 1))),
        Err(DBError(ErrorKind::NotFound))
    );
    assert_eq!(values_of(c), vec![user("u1", 42), user("u2", 24)]);
}

#[test]
fn delete_keeps_the_rest_in_order() {
    let mut c = keyed_all(vec![user("a", 1), user("b", 2), user("c", 3), user("d", 4)]);
    assert!(delete_record(&mut c, "b").is_ok());
    assert_eq!(
        query_record(copy(&c), "b"),
        Err(DBError(ErrorKind::NotFound))
    );
    assert_eq!(
        values_of(c),
        vec![user("a", 1), user("c", 3), user("d", 4)]
    );
}

#[test]
fn delete_of_missing_id_is_not_found() {
    let mut c = keyed_all(vec![user("a", 1)]);
    assert_eq!(delete_record(&mut c, "z"), Err(DBError(ErrorKind::NotFound)));
    assert_eq!(c.len(), 1);
}

#[test]
fn query_of_empty_collection_is_not_found() {
    let c: Vec<Entry<User>> = Vec::new();
    assert_eq!(query_record(c, "u1"), Err(DBError(ErrorKind::NotFound)));
}

#[test]
fn first_match_wins_when_ids_repeat() {
    let c = vec![
        Entry {
            id: "x".to_string(),
            value: user("x", 1),
        },
        Entry {
            id: "x".to_string(),
            value: user("x", 2),
        },
    ];
    assert_eq!(find_index(&c, "x"), Some(0));
    assert_eq!(find_index(&c, "y"), None);
    assert_eq!(query_record(c, "x"), Ok(user("x", 1)));
}

#[test]
fn rename_decisions() {
    assert_eq!(check_rename(true, false), Ok(()));
    assert_eq!(
        check_rename(true, true),
        Err(DBError(ErrorKind::AlreadyExists))
    );
    assert_eq!(check_rename(false, true), Err(DBError(ErrorKind::NotFound)));
    assert_eq!(check_rename(false, false), Err(DBError(ErrorKind::NotFound)));
}

#[test]
fn users_scenario() {
    let mut c: Vec<Entry<User>> = Vec::new();
    assert!(insert_record(&mut c, keyed(user("u1", 42))).is_ok());
    assert!(insert_record(&mut c, keyed(user("u2", 24))).is_ok());
    assert!(insert_record(&mut c, keyed(user("u3", 36))).is_ok());
    assert_eq!(
        values_of(copy(&c)),
        vec![user("u1", 42), user("u2", 24), user("u3", 36)]
    );
    assert!(update_record(&mut c, keyed(user("u2", 43))).is_ok());
    assert_eq!(query_record(copy(&c), "u2"), Ok(user("u2", 43)));
    assert!(delete_record(&mut c, "u1").is_ok());
    assert!(delete_record(&mut c, "u2").is_ok());
    assert_eq!(values_of(copy(&c)), vec![user("u3", 36)]);
    assert_eq!(query_record(copy(&c), "u1"), Err(DBError(ErrorKind::NotFound)));
    assert_eq!(query_record(copy(&c), "u2"), Err(DBError(ErrorKind::NotFound)));
}

#[test]
fn keyed_all_takes_ids_from_records() {
    let c = keyed_all(vec![user("a", 1), user("b", 2)]);
    assert_eq!(c.len(), 2);
    assert_eq!(c[0].id, "a");
    assert_eq!(c[1].id, "b");
    assert_eq!(c[1].value, user("b", 2));
}

#[test]
fn connect_decisions() {
    assert_eq!(
        Database::connect_step(PathStatus::NotDirectory),
        ConnectStep::Refuse(DBError(ErrorKind::InvalidPath))
    );
    assert_eq!(
        Database::connect_step(PathStatus::Missing),
        ConnectStep::CreateDirectory
    );
    let mut db = Database::new();
    assert!(db.finish_connect(std::path::PathBuf::from("first"), true).is_ok());
    assert_eq!(
        db.finish_connect(std::path::PathBuf::from("second"), false),
        Err(DBError(ErrorKind::IOError))
    );
    assert_eq!(db.path(), &std::path::PathBuf::from("first"));
}

#[test]
fn each_error_kind_has_an_input() {
    assert_eq!(io_result(false), Err(DBError(ErrorKind::IOError)));
    assert_eq!(io_result(true), Ok(()));
    assert_eq!(check_data(false), Err(DBError(ErrorKind::CorruptData)));
    assert_eq!(check_data(true), Ok(()));
    assert_eq!(check_create(true), Err(DBError(ErrorKind::AlreadyExists)));
    assert_eq!(check_exists(false), Err(DBError(ErrorKind::NotFound)));
    assert_eq!(DBError(ErrorKind::NotFound).kind(), ErrorKind::NotFound);
    assert_eq!(
        DBError(ErrorKind::DuplicateKey).message(),
        "DBError: Data already exists"
    );
}

#[test]
fn empty_collection_is_an_empty_array() {
    assert_eq!(EMPTY_COLLECTION, "[]");
}

use specbase::SpecBase;
use specbase::SpecError;
use specbase::Specfile;
use specbase::search::contains_ci;

#[test]
fn test_specbase_crud_operations() {
    let mut spec_db = SpecBase::init(":memory:").unwrap();

    let test_spec = Specfile {
        id: None,
        name: "Test Spec".to_string(),
        description: "Test Description".to_string(),
        content: "Test Content".to_string(),
    };

    let id = spec_db.create_specfile(&test_spec).unwrap();
    assert!(id > 0);

    let retrieved_spec = spec_db.read_specfile(id).unwrap();
    assert_eq!(retrieved_spec.name, test_spec.name);
    assert_eq!(retrieved_spec.description, test_spec.description);
    assert_eq!(retrieved_spec.content, test_spec.content);

    let updated_spec = Specfile {
        id: Some(id),
        name: "Updated Name".to_string(),
        description: "Updated Description".to_string(),
        content: "Updated Content".to_string(),
    };

    spec_db.update_specfile(id, &updated_spec).unwrap();
    let retrieved_updated = spec_db.read_specfile(id).unwrap();
    assert_eq!(retrieved_updated.name, updated_spec.name);

    let specs = spec_db.list_specfiles().unwrap();
    assert_eq!(specs.len(), 1);

    let query_results = spec_db.query_specfiles("Updated").unwrap();
    assert_eq!(query_results.len(), 1);
    assert_eq!(query_results[0].name, updated_spec.name);

    spec_db.delete_specfile(id).unwrap();
    assert!(spec_db.read_specfile(id).is_err());
}

#[test]
fn test_specfile_not_found() {
    let mut spec_db = SpecBase::init(":memory:").unwrap();
    assert!(spec_db.read_specfile(999).is_err());
    assert!(spec_db.delete_specfile(999).is_err());
}

#[test]
fn create_then_read_returns_identical_fields() {
    let mut db = SpecBase::init(":memory:").unwrap();
    let spec = Specfile {
        id: None,
        name: "a name".to_string(),
        description: "a description".to_string(),
        content: "some content".to_string(),
    };
    let id = db.create_specfile(&spec).unwrap();
    let got = db.read_specfile(id).unwrap();
    assert_eq!(got.id, Some(id));
    assert_eq!(got.name, spec.name);
    assert_eq!(got.description, spec.description);
    assert_eq!(got.content, spec.content);
}

#[test]
fn missing_id_fails_with_not_found() {
    let mut db = SpecBase::init(":memory:").unwrap();
    let spec = Specfile {
        id: None,
        name: "n".to_string(),
        description: "d".to_string(),
        content: "c".to_string(),
    };
    match db.read_specfile(7) {
        Err(SpecError::SpecfileNotFound(j)) => assert_eq!(j, 7),
        other => panic!("expected SpecfileNotFound, got {:?}", other),
    }
    match db.update_specfile(7, &spec) {
        Err(SpecError::SpecfileNotFound(j)) => assert_eq!(j, 7),
        other => panic!("expected SpecfileNotFound, got {:?}", other),
    }
    match db.delete_specfile(7) {
        Err(SpecError::SpecfileNotFound(j)) => assert_eq!(j, 7),
        other => panic!("expected SpecfileNotFound, got {:?}", other),
    }
}

#[test]
fn delete_removes_the_record() {
    let mut db = SpecBase::init(":memory:").unwrap();
    let spec = Specfile {
        id: None,
        name: "gone".to_string(),
        description: "soon".to_string(),
        content: "bye".to_string(),
    };
    let id = db.create_specfile(&spec).unwrap();
    db.delete_specfile(id).unwrap();
    assert!(matches!(db.read_specfile(id), Err(SpecError::SpecfileNotFound(_))));
    let all = db.list_specfiles().unwrap();
    assert!(all.iter().all(|s| s.id != Some(id)));
    assert_eq!(all.len(), 0);
}

#[test]
fn update_replaces_all_fields_and_keeps_id() {
    let mut db = SpecBase::init(":memory:").unwrap();
    let before = Specfile {
        id: None,
        name: "old name".to_string(),
        description: "old description".to_string(),
        content: "old content".to_string(),
    };
    let id = db.create_specfile(&before).unwrap();
    let after = Specfile {
        id: None,
        name: "new name".to_string(),
        description: "new description".to_string(),
        content: "new content".to_string(),
    };
    db.update_specfile(id, &after).unwrap();
    let got = db.read_specfile(id).unwrap();
    assert_eq!(got.id, Some(id));
    assert_eq!(got.name, "new name");
    assert_eq!(got.description, "new description");
    assert_eq!(got.content, "new content");
}

#[test]
fn search_is_case_insensitive_over_all_fields() {
    let mut db = SpecBase::init(":memory:").unwrap();
    let by_name = Specfile {
        id: None,
        name: "Alpha Report".to_string(),
        description: "plain".to_string(),
        content: "plain".to_string(),
    };
    let by_description = Specfile {
        id: None,
        name: "plain".to_string(),
        description: "the ALPHA summary".to_string(),
        content: "plain".to_string(),
    };
    let by_content = Specfile {
        id: None,
        name: "plain".to_string(),
        description: "plain".to_string(),
        content: "contains alpha inside".to_string(),
    };
    let neither = Specfile {
        id: None,
        name: "plain".to_string(),
        description: "plain".to_string(),
        content: "plain".to_string(),
    };
    let id1 = db.create_specfile(&by_name).unwrap();
    let id2 = db.create_specfile(&by_description).unwrap();
    let id3 = db.create_specfile(&by_content).unwrap();
    let id4 = db.create_specfile(&neither).unwrap();
    let hits = db.query_specfiles("aLpHa").unwrap();
    let mut ids: Vec<i64> = hits.iter().map(|s| s.id.unwrap()).collect();
    ids.sort();
    assert_eq!(ids, vec![id1, id2, id3]);
    assert!(!ids.contains(&id4));
}

#[test]
fn search_matches_plain_substrings() {
    let mut db = SpecBase::init(":memory:").unwrap();
    let a = Specfile {
        id: None,
        name: "content".to_string(),
        description: "x".to_string(),
        content: "x".to_string(),
    };
    let b = Specfile {
        id: None,
        name: "confirmed".to_string(),
        description: "x".to_string(),
        content: "x".to_string(),
    };
    db.create_specfile(&a).unwrap();
    db.create_specfile(&b).unwrap();
    let hits = db.query_specfiles("con").unwrap();
    assert_eq!(hits.len(), 2);
    let hits = db.query_specfiles("tent").unwrap();
    assert_eq!(hits.len(), 1);
    assert_eq!(hits[0].name, "content");
    let hits = db.query_specfiles("absent").unwrap();
    assert_eq!(hits.len(), 0);
}

#[test]
fn empty_query_returns_everything() {
    let mut db = SpecBase::init(":memory:").unwrap();
    for i in 0..3 {
        let spec = Specfile {
            id: None,
            name: format!("name {}", i),
            description: format!("description {}", i),
            content: format!("content {}", i),
        };
        db.create_specfile(&spec).unwrap();
    }
    let listed = db.list_specfiles().unwrap();
    let searched = db.query_specfiles("").unwrap();
    let mut listed_ids: Vec<i64> = listed.iter().map(|s| s.id.unwrap()).collect();
    let mut searched_ids: Vec<i64> = searched.iter().map(|s| s.id.unwrap()).collect();
    listed_ids.sort();
    searched_ids.sort();
    assert_eq!(listed_ids, searched_ids);
    assert_eq!(listed_ids.len(), 3);
}

#[test]
fn scenario_two_records() {
    let mut db = SpecBase::init(":memory:").unwrap();
    let a = Specfile {
        id: None,
        name: "A".to_string(),
        description: "d1".to_string(),
        content: "hello world".to_string(),
    };
    let id1 = db.create_specfile(&a).unwrap();
    assert_eq!(id1, 1);
    let b = Specfile {
        id: None,
        name: "B".to_string(),
        description: "d2".to_string(),
        content: "goodbye world".to_string(),
    };
    let id2 = db.create_specfile(&b).unwrap();
    assert_eq!(id2, 2);

    let hello = db.query_specfiles("hello").unwrap();
    assert_eq!(hello.len(), 1);
    assert_eq!(hello[0].id, Some(1));

    let world = db.query_specfiles("world").unwrap();
    assert_eq!(world.len(), 2);

    let a2 = Specfile {
        id: Some(1),
        name: "A2".to_string(),
        description: "d1".to_string(),
        content: "hi".to_string(),
    };
    db.update_specfile(1, &a2).unwrap();
    let hello = db.query_specfiles("hello").unwrap();
    assert_eq!(hello.len(), 0);

    db.delete_specfile(2).unwrap();
    let all = db.list_specfiles().unwrap();
    assert_eq!(all.len(), 1);
    assert_eq!(all[0].id, Some(1));
}

#[test]
fn init_is_idempotent_for_existing_records() {
    let path = "/tmp/specbase_idempotent_init.db";
    let mut first = SpecBase::init(path).unwrap();
    let spec = Specfile {
        id: None,
        name: "persisted".to_string(),
        description: "survives re-init".to_string(),
        content: "still here".to_string(),
    };
    let id = first.create_specfile(&spec).unwrap();
    drop(first);

    let second = SpecBase::init(path).unwrap();
    let got = second.read_specfile(id).unwrap();
    assert_eq!(got.name, spec.name);
    assert_eq!(got.description, spec.description);
    assert_eq!(got.content, spec.content);
    drop(second);

    let mut third = SpecBase::init(path).unwrap();
    third.delete_specfile(id).unwrap();
    assert!(third.read_specfile(id).is_err());
}

#[test]
fn init_fails_with_database_error_on_bad_path() {
    let result = SpecBase::init("/tmp/specbase_no_such_directory/specbase.db");
    assert!(matches!(result, Err(SpecError::DatabaseError(_))));
}

#[test]
fn create_ignores_caller_supplied_id() {
    let mut db = SpecBase::init(":memory:").unwrap();
    let spec = Specfile {
        id: Some(42),
        name: "n".to_string(),
        description: "d".to_string(),
        content: "c".to_string(),
    };
    let id = db.create_specfile(&spec).unwrap();
    assert_eq!(id, 1);
    assert!(db.read_specfile(42).is_err());
}

#[test]
fn contains_ci_finds_folded_substrings() {
    assert!(contains_ci("Hello World", "WORLD"));
    assert!(contains_ci("hello world", ""));
    assert!(contains_ci("", ""));
    assert!(!contains_ci("", "a"));
    assert!(!contains_ci("short", "much longer needle"));
    assert!(contains_ci("abcdef", "CDE"));
    assert!(!contains_ci("abcdef", "CEE"));
}

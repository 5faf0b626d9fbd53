use sanhuoai::db::{
    adopt_created_project, create_project_sql, index_of_id, list_projects_sql, schema_sql,
    Database, Project,
};

fn sample(id: &str) -> Project {
    Project {
        id: String::from(id),
        name: String::from("n"),
        genre: String::from("g"),
        description: None,
        status: String::from("draft"),
        model_main: String::from(""),
        model_secondary: String::from(""),
        temperature: String::from("1.0"),
        embedding_dim: 1024,
        word_target: 0,
    }
}

#[test]
fn index_of_id_finds_first_match() {
    let projects = vec![sample("a"), sample("b"), sample("b"), sample("c")];
    assert_eq!(index_of_id(&projects, &String::from("b")), Some(1));
    assert_eq!(index_of_id(&projects, &String::from("a")), Some(0));
    assert_eq!(index_of_id(&projects, &String::from("missing")), None);
    assert_eq!(index_of_id(&vec![], &String::from("a")), None);
}

#[test]
fn adoption_fixes_every_outcome() {
    let listing = vec![sample("a"), sample("b")];
    // the generated id is found and the record matches the request
    let p = adopt_created_project(listing.clone(), &String::from("b"), "n", "g")
        .expect("matching record is adopted");
    assert_eq!(p.id, "b");
    // the id is absent from the listing
    let e = adopt_created_project(listing.clone(), &String::from("z"), "n", "g").unwrap_err();
    assert_eq!(e.message, "created project missing from listing");
    // the record disagrees with the request
    let e = adopt_created_project(listing.clone(), &String::from("a"), "other", "g").unwrap_err();
    assert_eq!(e.message, "created project disagrees with the request");
    // an empty generated id is refused
    let e =
        adopt_created_project(vec![sample("")], &String::from(""), "n", "g").unwrap_err();
    assert_eq!(e.message, "created project has an empty id");
}

#[test]
fn sql_texts_are_pinned() {
    assert!(list_projects_sql().starts_with("SELECT id, name, genre"));
    assert!(list_projects_sql().ends_with("ORDER BY updated_at DESC, rowid DESC"));
    assert!(create_project_sql().ends_with("RETURNING id"));
    assert!(schema_sql().starts_with("CREATE TABLE IF NOT EXISTS projects"));
}

#[test]
fn created_project_has_generated_id_and_defaults() {
    let db = Database::in_memory().expect("open database");
    let p = db.create_project("Novel A", "Fantasy").expect("create");
    assert!(!p.id.is_empty());
    assert_eq!(p.name, "Novel A");
    assert_eq!(p.genre, "Fantasy");
    assert_eq!(p.status, "draft");
    assert_eq!(p.description, None);
    assert_eq!(p.embedding_dim, 1024);
    assert_eq!(p.word_target, 0);
    assert!(!p.temperature.is_empty());
}

#[test]
fn created_project_appears_first_in_listing() {
    let db = Database::in_memory().expect("open database");
    let first = db.create_project("Novel A", "Fantasy").expect("create");
    let listed = db.list_projects().expect("list");
    assert_eq!(listed.len(), 1);
    assert_eq!(listed[0].id, first.id);
    // a later creation outranks the earlier one
    let second = db.create_project("Novel B", "Mystery").expect("create");
    let listed = db.list_projects().expect("list");
    assert_eq!(listed.len(), 2);
    assert_eq!(listed[0].id, second.id);
    assert_eq!(listed[1].id, first.id);
    assert_ne!(first.id, second.id);
}

#[test]
fn in_memory_databases_are_independent() {
    let a = Database::in_memory().expect("open database");
    let b = Database::in_memory().expect("open database");
    a.create_project("Novel A", "Fantasy").expect("create");
    assert_eq!(b.list_projects().expect("list").len(), 0);
}

#[test]
fn missing_data_dir_reports_an_error() {
    // the database file cannot be created inside a directory that does not
    // exist, and the failure carries a message
    let r = Database::new("/surely-absent-sanhuoai-dir");
    match r {
        Ok(_) => panic!("opening under a missing directory must fail"),
        Err(e) => assert!(!e.message.is_empty()),
    }
}

#[test]
fn file_database_opens_under_data_dir() {
    let db = Database::new("/tmp").expect("open database file");
    let before = db.list_projects().expect("list").len();
    db.create_project("Novel F", "Fantasy").expect("create");
    let after = db.list_projects().expect("list").len();
    assert_eq!(after, before + 1);
}

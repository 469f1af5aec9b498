use bazaar::Package;
use bazaar::PackageKind;
use bazaar::Storage;

fn app(name: &str, summary: Option<&str>) -> Package {
    Package::new(
        name.to_string(),
        Some(format!("{} pretty", name)),
        None,
        summary.map(|s| s.to_string()),
        None,
        PackageKind::App,
    )
}

fn with_kind(name: &str, kind: PackageKind) -> Package {
    Package::new(name.to_string(), None, None, None, None, kind)
}

#[test]
fn fresh_store_lists_nothing() {
    let mut db = Storage::in_memory().unwrap();
    db.create_table().unwrap();
    assert_eq!(db.all_names().unwrap(), Vec::<String>::new());
}

#[test]
fn insert_reports_one_changed_row() {
    let mut db = Storage::in_memory().unwrap();
    db.create_table().unwrap();
    assert_eq!(db.insert(&app("org.example.Foo", None)).unwrap(), 1);
}

#[test]
fn create_table_is_idempotent() {
    let mut db = Storage::in_memory().unwrap();
    db.create_table().unwrap();
    db.insert(&app("org.example.Foo", None)).unwrap();
    db.create_table().unwrap();
    assert_eq!(db.all_names().unwrap(), vec!["org.example.Foo".to_string()]);
}

#[test]
fn insert_batch_commits_every_row() {
    let mut db = Storage::in_memory().unwrap();
    db.create_table().unwrap();
    let batch = vec![app("org.example.Foo", None), app("org.example.Bar", None)];
    db.insert_batch(&batch).unwrap();
    let mut names = db.all_names().unwrap();
    names.sort();
    assert_eq!(
        names,
        vec!["org.example.Bar".to_string(), "org.example.Foo".to_string()]
    );
}

#[test]
fn failed_batch_leaves_no_rows_behind() {
    // Without the table every insert fails mid-batch; atomicity demands that
    // the store holds none of the batch's rows afterwards.
    let mut db = Storage::in_memory().unwrap();
    let batch = vec![app("org.example.Foo", None), app("org.example.Bar", None)];
    assert!(db.insert_batch(&batch).is_err());
    db.create_table().unwrap();
    assert_eq!(db.all_names().unwrap(), Vec::<String>::new());
    // The store stays usable: a later batch commits normally.
    db.insert_batch(&batch).unwrap();
    assert_eq!(db.all_names().unwrap().len(), 2);
}

#[test]
fn lookup_by_name_is_exact() {
    let mut db = Storage::in_memory().unwrap();
    db.create_table().unwrap();
    db.insert(&app("org.example.Foo", Some("a foo"))).unwrap();
    db.insert(&app("org.example.Foobar", Some("a foobar"))).unwrap();
    let found = db.lookup_by_name(&"org.example.Foo".to_string()).unwrap();
    assert_eq!(found.len(), 1);
    assert_eq!(found[0].name, "org.example.Foo");
    assert_eq!(found[0].summary, Some("a foo".to_string()));
}

#[test]
fn lookup_by_name_never_returns_runtimes_or_extensions() {
    let mut db = Storage::in_memory().unwrap();
    db.create_table().unwrap();
    db.insert(&with_kind("org.example.Foo", PackageKind::App)).unwrap();
    db.insert(&with_kind("org.example.Foo", PackageKind::Runtime)).unwrap();
    db.insert(&with_kind("org.example.Foo", PackageKind::Extension)).unwrap();
    let found = db.lookup_by_name(&"org.example.Foo".to_string()).unwrap();
    assert_eq!(found.len(), 1);
    assert_eq!(found[0].kind, PackageKind::App);
}

#[test]
fn duplicate_rows_are_all_returned() {
    let mut db = Storage::in_memory().unwrap();
    db.create_table().unwrap();
    db.insert(&app("org.example.Foo", Some("from remote a"))).unwrap();
    db.insert(&app("org.example.Foo", Some("from remote b"))).unwrap();
    let found = db.lookup_by_name(&"org.example.Foo".to_string()).unwrap();
    assert_eq!(found.len(), 2);
    assert!(found.iter().all(|p| p.name == "org.example.Foo"));
    assert!(found.iter().all(|p| p.kind == PackageKind::App));
}

#[test]
fn stored_fields_round_trip() {
    let mut db = Storage::in_memory().unwrap();
    db.create_table().unwrap();
    let p = Package::new(
        "org.example.Foo".to_string(),
        Some("Foo".to_string()),
        Some("a longer description".to_string()),
        Some("a foo".to_string()),
        Some("/tmp/icons/foo.png".to_string()),
        PackageKind::App,
    );
    db.insert(&p).unwrap();
    let found = db.lookup_by_name(&"org.example.Foo".to_string()).unwrap();
    assert_eq!(found.len(), 1);
    assert_eq!(found[0].pretty_name, Some("Foo".to_string()));
    assert_eq!(found[0].description, Some("a longer description".to_string()));
    assert_eq!(found[0].summary, Some("a foo".to_string()));
    assert_eq!(found[0].icon_path, Some("/tmp/icons/foo.png".to_string()));
    assert_eq!(found[0].kind, PackageKind::App);
}

#[test]
fn builders_replace_optional_fields() {
    let p = Package::new(
        "org.example.Foo".to_string(),
        None,
        None,
        None,
        None,
        PackageKind::App,
    )
    .with_description(Some("described".to_string()))
    .with_summary(Some("summarized".to_string()));
    assert_eq!(p.description, Some("described".to_string()));
    assert_eq!(p.summary, Some("summarized".to_string()));
    assert_eq!(p.name, "org.example.Foo");
}

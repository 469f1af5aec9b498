use bazaar::Bundle;
use bazaar::Component;
use bazaar::InstalledRef;
use bazaar::Package;
use bazaar::PackageKind;
use bazaar::RefKind;
use bazaar::RemoteRef;
use bazaar::Storage;
use bazaar::build_remote_packages;
use bazaar::find_ref_by_name;
use bazaar::find_uninstall_target;
use bazaar::installed_apps;
use bazaar::sync_remote;

fn remote_ref(name: &str, arch: &str, kind: RefKind) -> RemoteRef {
    RemoteRef {
        name: name.to_string(),
        remote_name: "flathub".to_string(),
        arch: arch.to_string(),
        kind,
        format_ref: format!("app/{}/{}/stable", name, arch),
    }
}

fn foo_component() -> Component {
    Component {
        id: "org.example.Foo".to_string(),
        name: Some("Foo".to_string()),
        summary: Some("A sample app".to_string()),
        description: Some("A longer text about Foo".to_string()),
        bundles: vec![Bundle::Flatpak {
            reference: "app/org.example.Foo/x86_64/stable".to_string(),
        }],
    }
}

#[test]
fn synced_ref_with_metadata_carries_its_summary() {
    // Scenario: one remote exposing one application ref with matching
    // metadata; after the sync exactly one package is stored, carrying the
    // component's summary.
    let mut db = Storage::in_memory().unwrap();
    db.create_table().unwrap();
    let refs = vec![remote_ref("org.example.Foo", "x86_64", RefKind::App)];
    let collection = vec![foo_component()];
    let existing: Vec<String> = vec![];
    sync_remote(&mut db, &refs, Some(&collection), "x86_64", "/home/me", &existing).unwrap();
    let found = db.lookup_by_name(&"org.example.Foo".to_string()).unwrap();
    assert_eq!(found.len(), 1);
    assert_eq!(found[0].summary, Some("A sample app".to_string()));
    assert_eq!(found[0].kind, PackageKind::App);
    assert_eq!(found[0].pretty_name, Some("Foo".to_string()));
    assert_eq!(found[0].description, Some("A longer text about Foo".to_string()));
}

#[test]
fn cross_architecture_refs_are_never_stored() {
    // Scenario: the remote's ref is built for another architecture; the sync
    // skips it entirely.
    let mut db = Storage::in_memory().unwrap();
    db.create_table().unwrap();
    let refs = vec![remote_ref("org.example.Foo", "aarch64", RefKind::App)];
    let existing: Vec<String> = vec![];
    sync_remote(&mut db, &refs, None, "x86_64", "/home/me", &existing).unwrap();
    assert!(!db.all_names().unwrap().contains(&"org.example.Foo".to_string()));
    assert_eq!(db.all_names().unwrap().len(), 0);
}

#[test]
fn unmatched_refs_fall_back_to_their_own_name() {
    let mut db = Storage::in_memory().unwrap();
    db.create_table().unwrap();
    let refs = vec![remote_ref("org.example.Bar", "x86_64", RefKind::App)];
    let collection = vec![foo_component()];
    let existing: Vec<String> = vec![];
    sync_remote(&mut db, &refs, Some(&collection), "x86_64", "/home/me", &existing).unwrap();
    let found = db.lookup_by_name(&"org.example.Bar".to_string()).unwrap();
    assert_eq!(found.len(), 1);
    assert_eq!(found[0].pretty_name, Some("org.example.Bar".to_string()));
    assert_eq!(found[0].summary, None);
    assert_eq!(found[0].description, None);
}

#[test]
fn runtime_refs_are_stored_but_not_surfaced() {
    let mut db = Storage::in_memory().unwrap();
    db.create_table().unwrap();
    let refs = vec![
        remote_ref("org.example.Foo", "x86_64", RefKind::App),
        remote_ref("org.example.Platform", "x86_64", RefKind::Runtime),
    ];
    let existing: Vec<String> = vec![];
    sync_remote(&mut db, &refs, None, "x86_64", "/home/me", &existing).unwrap();
    // Both rows are stored.
    assert_eq!(db.all_names().unwrap().len(), 2);
    // Only the application row is surfaced.
    assert_eq!(
        db.lookup_by_name(&"org.example.Platform".to_string()).unwrap().len(),
        0
    );
}

#[test]
fn metadata_match_is_scoped_to_the_exact_ref() {
    // A component whose bundle reference names another architecture's ref
    // must not lend its metadata to this ref.
    let mut db = Storage::in_memory().unwrap();
    db.create_table().unwrap();
    let refs = vec![remote_ref("org.example.Foo", "x86_64", RefKind::App)];
    let mut other = foo_component();
    other.bundles = vec![Bundle::Flatpak {
        reference: "app/org.example.Foo/aarch64/stable".to_string(),
    }];
    let collection = vec![other];
    let existing: Vec<String> = vec![];
    sync_remote(&mut db, &refs, Some(&collection), "x86_64", "/home/me", &existing).unwrap();
    let found = db.lookup_by_name(&"org.example.Foo".to_string()).unwrap();
    assert_eq!(found.len(), 1);
    // No exact match: the builder fell back to the ref's own data.
    assert_eq!(found[0].summary, None);
    assert_eq!(found[0].pretty_name, Some("org.example.Foo".to_string()));
}

#[test]
fn built_packages_resolve_icons_per_ref() {
    let refs = vec![remote_ref("org.example.Foo", "x86_64", RefKind::App)];
    let icon =
        "/home/me/.local/share/flatpak/appstream/flathub/x86_64/active/icons/64x64/org.example.Foo.png";
    let existing = vec![icon.to_string()];
    let built = build_remote_packages(&refs, None, "x86_64", "/home/me", &existing);
    assert_eq!(built.len(), 1);
    assert_eq!(built[0].icon_path, Some(icon.to_string()));
}

fn installed(name: &str, kind: RefKind) -> InstalledRef {
    InstalledRef {
        name: name.to_string(),
        origin: "flathub".to_string(),
        arch: "x86_64".to_string(),
        kind,
        appdata_name: Some(format!("{} display", name)),
        appdata_summary: Some(format!("{} summary", name)),
        format_ref: format!("app/{}/x86_64/stable", name),
    }
}

#[test]
fn installed_listing_keeps_only_applications() {
    let refs = vec![
        installed("org.example.Foo", RefKind::App),
        installed("org.example.Platform", RefKind::Runtime),
        installed("org.example.Extra", RefKind::Unknown),
    ];
    let existing: Vec<String> = vec![];
    let apps = installed_apps(&refs, "/home/me", &existing);
    assert_eq!(apps.len(), 1);
    assert_eq!(apps[0].name, "org.example.Foo");
    assert_eq!(apps[0].pretty_name, Some("org.example.Foo display".to_string()));
    assert_eq!(apps[0].summary, Some("org.example.Foo summary".to_string()));
    assert_eq!(apps[0].description, None);
    assert_eq!(apps[0].kind, PackageKind::App);
}

#[test]
fn uninstall_targets_the_named_application() {
    let refs = vec![
        installed("org.example.Platform", RefKind::Runtime),
        installed("org.example.Foo", RefKind::App),
    ];
    assert_eq!(
        find_uninstall_target(&refs, "org.example.Foo"),
        Some("app/org.example.Foo/x86_64/stable".to_string())
    );
    assert_eq!(find_uninstall_target(&refs, "org.example.Missing"), None);
    // A runtime bearing the name is never an uninstall target.
    assert_eq!(find_uninstall_target(&refs, "org.example.Platform"), None);
}

#[test]
fn remote_refs_are_found_by_name() {
    let refs = vec![
        remote_ref("org.example.Bar", "x86_64", RefKind::App),
        remote_ref("org.example.Foo", "x86_64", RefKind::App),
    ];
    assert_eq!(find_ref_by_name(&refs, "org.example.Foo"), Some(1));
    assert_eq!(find_ref_by_name(&refs, "org.example.Missing"), None);
}

#[test]
fn a_package_survives_the_full_path_to_search() {
    // End to end: sync, load the name cache, search, inspect the record.
    let mut db = Storage::in_memory().unwrap();
    db.create_table().unwrap();
    let refs = vec![remote_ref("org.example.Foo", "x86_64", RefKind::App)];
    let collection = vec![foo_component()];
    let existing: Vec<String> = vec![];
    sync_remote(&mut db, &refs, Some(&collection), "x86_64", "/home/me", &existing).unwrap();
    db.all_packages = Some(db.all_names().unwrap());
    let found = bazaar::search(&db, "org.example.Foo").unwrap();
    assert_eq!(found.len(), 1);
    assert_eq!(found[0].summary, Some("A sample app".to_string()));
}

#[test]
fn failed_sync_stores_nothing() {
    // Without the table the batch insert fails; the sync must leave the
    // store exactly as it was.
    let mut db = Storage::in_memory().unwrap();
    let refs = vec![remote_ref("org.example.Foo", "x86_64", RefKind::App)];
    let existing: Vec<String> = vec![];
    assert!(sync_remote(&mut db, &refs, None, "x86_64", "/home/me", &existing).is_err());
    db.create_table().unwrap();
    assert_eq!(db.all_names().unwrap().len(), 0);
}

#[test]
fn updatable_apps_are_the_empty_set_for_now() {
    assert_eq!(bazaar::get_updatable_apps().len(), 0);
}

#[test]
fn package_new_keeps_every_field() {
    let p = Package::new(
        "org.example.Foo".to_string(),
        Some("Foo".to_string()),
        Some("description".to_string()),
        Some("summary".to_string()),
        Some("/tmp/foo.png".to_string()),
        PackageKind::Runtime,
    );
    assert_eq!(p.name, "org.example.Foo");
    assert_eq!(p.pretty_name, Some("Foo".to_string()));
    assert_eq!(p.description, Some("description".to_string()));
    assert_eq!(p.summary, Some("summary".to_string()));
    assert_eq!(p.icon_path, Some("/tmp/foo.png".to_string()));
    assert_eq!(p.kind, PackageKind::Runtime);
}

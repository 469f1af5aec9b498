use bazaar::Bundle;
use bazaar::Component;
use bazaar::find_component;
use bazaar::get_ref_name;

fn component(id: &str, reference: Option<&str>, summary: Option<&str>) -> Component {
    Component {
        id: id.to_string(),
        name: Some(format!("{} name", id)),
        summary: summary.map(|s| s.to_string()),
        description: None,
        bundles: match reference {
            Some(r) => vec![Bundle::Flatpak { reference: r.to_string() }],
            None => vec![],
        },
    }
}

#[test]
fn ref_name_is_first_flatpak_bundle() {
    let c = Component {
        id: "org.example.Foo".to_string(),
        name: None,
        summary: None,
        description: None,
        bundles: vec![
            Bundle::Other,
            Bundle::Flatpak { reference: "app/org.example.Foo/x86_64/stable".to_string() },
            Bundle::Flatpak { reference: "app/org.example.Foo/x86_64/beta".to_string() },
        ],
    };
    assert_eq!(get_ref_name(&c), "app/org.example.Foo/x86_64/stable");
}

#[test]
fn ref_name_defaults_to_empty_without_flatpak_bundle() {
    let c = component("org.example.Foo", None, None);
    assert_eq!(get_ref_name(&c), "");
}

#[test]
fn matching_is_exact_reference_scoped() {
    // Two components share the identifier; only the reference string differs.
    let other = component("org.example.Foo", Some("app/org.example.Foo/aarch64/stable"), None);
    let exact = component("org.example.Foo", Some("app/org.example.Foo/x86_64/stable"), None);
    let components = vec![other, exact];
    let id = "org.example.Foo".to_string();
    let wanted = "app/org.example.Foo/x86_64/stable".to_string();
    assert_eq!(find_component(&components, &id, &wanted), Some(1));

    // With only the mismatching component present, nothing matches.
    let only_other = vec![component(
        "org.example.Foo",
        Some("app/org.example.Foo/aarch64/stable"),
        None,
    )];
    assert_eq!(find_component(&only_other, &id, &wanted), None);
}

#[test]
fn matching_requires_the_identifier() {
    let c = component("org.example.Bar", Some("app/org.example.Foo/x86_64/stable"), None);
    let components = vec![c];
    let id = "org.example.Foo".to_string();
    let wanted = "app/org.example.Foo/x86_64/stable".to_string();
    assert_eq!(find_component(&components, &id, &wanted), None);
}

#[test]
fn first_matching_component_wins() {
    let a = component("org.example.Foo", Some("app/org.example.Foo/x86_64/stable"), Some("first"));
    let b = component("org.example.Foo", Some("app/org.example.Foo/x86_64/stable"), Some("second"));
    let components = vec![a, b];
    let id = "org.example.Foo".to_string();
    let wanted = "app/org.example.Foo/x86_64/stable".to_string();
    assert_eq!(find_component(&components, &id, &wanted), Some(0));
}

use bazaar::get_icon_path;
use bazaar::icon_candidate_paths;

#[test]
fn no_existing_candidate_yields_no_icon() {
    let existing: Vec<String> = vec![];
    let r = get_icon_path("org.example.Foo", "flathub", "x86_64", "/home/me", &existing);
    assert!(r.is_none());
}

#[test]
fn unrelated_files_yield_no_icon() {
    let existing = vec![
        "/home/me/unrelated.png".to_string(),
        "/home/me/.local/share/flatpak/appstream/other/x86_64/active/icons/64x64/org.example.Bar.png"
            .to_string(),
    ];
    let r = get_icon_path("org.example.Foo", "flathub", "x86_64", "/home/me", &existing);
    assert!(r.is_none());
}

#[test]
fn candidate_list_is_ordered_appstream_before_export() {
    let cands = icon_candidate_paths("/home/me", "flathub", "x86_64", "org.example.Foo");
    assert_eq!(cands.len(), 11);
    assert_eq!(
        cands[0],
        "/home/me/.local/share/flatpak/appstream/flathub/x86_64/active/icons/64x64/org.example.Foo.png"
    );
    assert_eq!(
        cands[4],
        "/home/me/.local/share/flatpak/appstream/flathub/x86_64/active/icons/16x16/org.example.Foo.png"
    );
    assert_eq!(
        cands[5],
        "/home/me/.local/share/flatpak/app/org.example.Foo/current/active/export/share/icons/hicolor/64x64/apps/org.example.Foo.png"
    );
    assert_eq!(
        cands[10],
        "/home/me/.local/share/flatpak/app/org.example.Foo/current/active/export/share/icons/hicolor/scalablexscalable/apps/org.example.Foo.svg"
    );
}

#[test]
fn first_existing_candidate_wins() {
    let cands = icon_candidate_paths("/home/me", "flathub", "x86_64", "org.example.Foo");
    // Both the 128px and the 64px appstream icons exist: 64px is probed first.
    let existing = vec![cands[1].clone(), cands[0].clone()];
    let r = get_icon_path("org.example.Foo", "flathub", "x86_64", "/home/me", &existing);
    assert_eq!(r, Some(cands[0].clone()));
}

#[test]
fn export_tier_is_reached_when_appstream_tier_is_empty() {
    let cands = icon_candidate_paths("/home/me", "flathub", "x86_64", "org.example.Foo");
    let existing = vec![cands[10].clone()];
    let r = get_icon_path("org.example.Foo", "flathub", "x86_64", "/home/me", &existing);
    assert_eq!(r, Some(cands[10].clone()));
}

#[test]
fn resolved_icon_is_an_existing_file() {
    let cands = icon_candidate_paths("/home/me", "flathub", "x86_64", "org.example.Foo");
    let existing = vec![cands[7].clone()];
    let r = get_icon_path("org.example.Foo", "flathub", "x86_64", "/home/me", &existing);
    assert!(existing.contains(&r.unwrap()));
}

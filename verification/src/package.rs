//! The canonical package entity, its kind classification, and the builders
//! that normalize installed-ref and remote-ref records into packages.

use crate::icon::get_icon_path;
use crate::icon::resolved_icon;
use crate::metadata::Component;
use vstd::prelude::*;

verus! {

/// The closed classification of a ref: ordinary applications, runtimes, and
/// everything else (extensions and unrecognized kinds).
#[derive(Debug, Default, Clone, Copy, PartialEq, Eq, Structural)]
pub enum PackageKind {
    #[default]
    App,
    Runtime,
    Extension,
}

/// The kind a ref reports about itself; anything outside the known set is
/// carried as `Unknown` and classified as an extension.
#[derive(Debug, Clone, Copy, PartialEq, Eq, Structural)]
pub enum RefKind {
    App,
    Runtime,
    Unknown,
}

/// The textual form a kind takes in a catalog row.
pub open spec fn kind_text(k: PackageKind) -> Seq<char> {
    match k {
        PackageKind::App => "App"@,
        PackageKind::Runtime => "Runtime"@,
        PackageKind::Extension => "Extension"@,
    }
}

/// The total mapping from stored text back to a kind: unrecognized text is an
/// extension rather than a failure.
pub open spec fn kind_of_text(s: Seq<char>) -> PackageKind {
    if s == "App"@ {
        PackageKind::App
    } else if s == "Runtime"@ {
        PackageKind::Runtime
    } else {
        PackageKind::Extension
    }
}

/// The total mapping from a ref's reported kind to a package kind.
pub open spec fn kind_of_ref(k: RefKind) -> PackageKind {
    match k {
        RefKind::App => PackageKind::App,
        RefKind::Runtime => PackageKind::Runtime,
        RefKind::Unknown => PackageKind::Extension,
    }
}

impl PackageKind {
    /// Serializes the kind for storage in a catalog row.
    pub fn to_string(&self) -> (r: String)
        ensures
            r@ == kind_text(*self),
    {
        match self {
            PackageKind::App => String::from_str("App"),
            PackageKind::Runtime => String::from_str("Runtime"),
            PackageKind::Extension => String::from_str("Extension"),
        }
    }

    /// Deserializes a stored kind; any unrecognized text maps to `Extension`.
    pub fn from_text(value: &String) -> (r: PackageKind)
        ensures
            r == kind_of_text(value@),
    {
        let app = String::from_str("App");
        let runtime = String::from_str("Runtime");
        if *value == app {
            PackageKind::App
        } else if *value == runtime {
            PackageKind::Runtime
        } else {
            PackageKind::Extension
        }
    }

    /// Classifies a ref's reported kind; anything outside the known set is an
    /// extension.
    pub fn from_ref_kind(value: RefKind) -> (r: PackageKind)
        ensures
            r == kind_of_ref(value),
    {
        match value {
            RefKind::App => PackageKind::App,
            RefKind::Runtime => PackageKind::Runtime,
            RefKind::Unknown => PackageKind::Extension,
        }
    }
}

/// Kind serialization is total and exact: every kind reads back from its own
/// text, so round-tripping through the store never loses or aborts.
pub proof fn lemma_kind_text_round_trips(k: PackageKind)
    ensures
        kind_of_text(kind_text(k)) == k,
{
    reveal_strlit("App");
    reveal_strlit("Runtime");
    reveal_strlit("Extension");
    assert("App"@.len() == 3);
    assert("Runtime"@.len() == 7);
    assert("Extension"@.len() == 9);
}

/// The view of an optional string.
pub open spec fn opt_view(o: Option<String>) -> Option<Seq<char>> {
    match o {
        Some(s) => Some(s@),
        None => None,
    }
}

/// The canonical package entity. Everything except the stable name and the
/// kind is optional: catalogs are inherently incomplete, and partial data is
/// always representable. A package is immutable once constructed; updates
/// happen by re-deriving and re-inserting.
#[derive(Debug)]
pub struct Package {
    pub name: String,
    pub pretty_name: Option<String>,
    pub description: Option<String>,
    pub summary: Option<String>,
    pub icon_path: Option<String>,
    pub kind: PackageKind,
}

/// An installed-ref record, as the package manager reports it: identity,
/// origin remote, architecture, kind, the optional bundled presentation data,
/// and the formatted reference string.
#[derive(Debug)]
pub struct InstalledRef {
    pub name: String,
    pub origin: String,
    pub arch: String,
    pub kind: RefKind,
    pub appdata_name: Option<String>,
    pub appdata_summary: Option<String>,
    pub format_ref: String,
}

/// A remote-ref record, as a configured remote lists it.
#[derive(Debug)]
pub struct RemoteRef {
    pub name: String,
    pub remote_name: String,
    pub arch: String,
    pub kind: RefKind,
    pub format_ref: String,
}

fn clone_opt_string(o: &Option<String>) -> (r: Option<String>)
    ensures
        r == *o,
{
    match o {
        Some(s) => Some(s.clone()),
        None => None,
    }
}

impl Package {
    /// Assembles a package from its parts.
    pub fn new(
        name: String,
        pretty_name: Option<String>,
        description: Option<String>,
        summary: Option<String>,
        icon_path: Option<String>,
        kind: PackageKind,
    ) -> (p: Self)
        ensures
            p == (Package { name, pretty_name, description, summary, icon_path, kind }),
    {
        Self { name, pretty_name, description, summary, icon_path, kind }
    }

    /// Replaces the long-form description.
    pub fn with_description(self, desc: Option<String>) -> (p: Self)
        ensures
            p == (Package { description: desc, ..self }),
    {
        Package { description: desc, ..self }
    }

    /// Replaces the one-line summary.
    pub fn with_summary(self, summary: Option<String>) -> (p: Self)
        ensures
            p == (Package { summary, ..self }),
    {
        Package { summary, ..self }
    }
}

/// How a package built from an installed ref relates to its source record:
/// identity, kind and bundled presentation data carry over, the description
/// is never set on this path, and the icon is resolved against the ref's
/// origin remote.
pub open spec fn built_from_installed(
    p: Package,
    r: InstalledRef,
    home: Seq<char>,
    existing: Seq<Seq<char>>,
) -> bool {
    &&& p.name == r.name
    &&& p.pretty_name == r.appdata_name
    &&& p.summary == r.appdata_summary
    &&& p.description is None
    &&& p.kind == kind_of_ref(r.kind)
    &&& opt_view(p.icon_path) == resolved_icon(
        home,
        r.origin@,
        r.arch@,
        r.name@,
        existing,
    )
}

/// How a package built from a remote ref relates to its source record and the
/// optionally matched metadata component: with a component, all presentation
/// fields come from it; without one, the display name falls back to the ref's
/// own name and the rest stays unset. The icon is resolved against the
/// remote's identifier either way.
pub open spec fn built_from_remote(
    p: Package,
    r: RemoteRef,
    c: Option<Component>,
    home: Seq<char>,
    existing: Seq<Seq<char>>,
) -> bool {
    &&& p.name == r.name
    &&& p.kind == kind_of_ref(r.kind)
    &&& opt_view(p.icon_path) == resolved_icon(
        home,
        r.remote_name@,
        r.arch@,
        r.name@,
        existing,
    )
    &&& match c {
        Some(c) => {
            &&& p.pretty_name == c.name
            &&& p.summary == c.summary
            &&& p.description == c.description
        },
        None => {
            &&& p.pretty_name == Some(r.name)
            &&& p.summary is None
            &&& p.description is None
        },
    }
}

impl Package {
    /// Builds a package from an installed ref: presentation data comes from
    /// the ref's bundled app data, and the icon is resolved against the ref's
    /// origin remote.
    pub fn from_installed(r: &InstalledRef, home: &str, existing: &Vec<String>) -> (p: Package)
        ensures
            built_from_installed(p, *r, home@, crate::string_views(existing@)),
    {
        let icon_path = get_icon_path(r.name.as_str(), r.origin.as_str(), r.arch.as_str(), home, existing);
        Package {
            name: r.name.clone(),
            pretty_name: clone_opt_string(&r.appdata_name),
            description: None,
            summary: clone_opt_string(&r.appdata_summary),
            icon_path,
            kind: PackageKind::from_ref_kind(r.kind),
        }
    }

    /// Builds a package from a remote ref and, when metadata matched, the
    /// component carrying its presentation data; without a match the display
    /// name falls back to the ref's own name.
    pub fn from_remote(
        r: &RemoteRef,
        component: Option<&Component>,
        home: &str,
        existing: &Vec<String>,
    ) -> (p: Package)
        ensures
            built_from_remote(
                p,
                *r,
                match component {
                    Some(c) => Some(*c),
                    None => None,
                },
                home@,
                crate::string_views(existing@),
            ),
    {
        let icon_path = get_icon_path(
            r.name.as_str(),
            r.remote_name.as_str(),
            r.arch.as_str(),
            home,
            existing,
        );
        match component {
            Some(c) => Package {
                name: r.name.clone(),
                pretty_name: clone_opt_string(&c.name),
                description: clone_opt_string(&c.description),
                summary: clone_opt_string(&c.summary),
                icon_path,
                kind: PackageKind::from_ref_kind(r.kind),
            },
            None => Package {
                name: r.name.clone(),
                pretty_name: Some(r.name.clone()),
                description: None,
                summary: None,
                icon_path,
                kind: PackageKind::from_ref_kind(r.kind),
            },
        }
    }
}

/// Whether an installed ref is surfaced to listing consumers: only
/// application refs are.
pub open spec fn is_app_ref(r: InstalledRef) -> bool {
    r.kind == RefKind::App
}

/// The application refs of an enumeration, in order.
pub open spec fn app_refs(refs: Seq<InstalledRef>) -> Seq<InstalledRef> {
    refs.filter(|x: InstalledRef| is_app_ref(x))
}

/// Appending a ref extends the application refs exactly when it is one.
pub proof fn lemma_app_refs_push(s: Seq<InstalledRef>, x: InstalledRef)
    ensures
        app_refs(s.push(x)) == if is_app_ref(x) {
            app_refs(s).push(x)
        } else {
            app_refs(s)
        },
{
    reveal(Seq::filter);
    assert(s.push(x).drop_last() =~= s);
    assert(s.push(x).last() == x);
}

/// Builds the packages for the application refs of an installation, in the
/// order the refs were enumerated; runtime and other refs are skipped.
pub fn installed_apps(refs: &Vec<InstalledRef>, home: &str, existing: &Vec<String>) -> (r: Vec<
    Package,
>)
    ensures
        r@.len() == app_refs(refs@).len(),
        forall|i: int|
            0 <= i < r@.len() ==> built_from_installed(
                r@[i],
                app_refs(refs@)[i],
                home@,
                crate::string_views(existing@),
            ),
{
    let mut out: Vec<Package> = Vec::new();
    let mut i: usize = 0;
    while i < refs.len()
        invariant
            i <= refs@.len(),
            out@.len() == app_refs(refs@.take(i as int)).len(),
            forall|j: int|
                0 <= j < out@.len() ==> built_from_installed(
                    out@[j],
                    app_refs(refs@.take(i as int))[j],
                    home@,
                    crate::string_views(existing@),
                ),
        decreases refs@.len() - i,
    {
        proof {
            lemma_app_refs_push(refs@.take(i as int), refs@[i as int]);
            assert(refs@.take(i + 1 as int) =~= refs@.take(i as int).push(refs@[i as int]));
        }
        if refs[i].kind == RefKind::App {
            out.push(Package::from_installed(&refs[i], home, existing));
        }
        i += 1;
    }
    proof {
        assert(refs@.take(refs@.len() as int) =~= refs@);
    }
    out
}

/// The updatable applications. What counts as updatable is an external
/// capability still to be designed; until then the list is the empty set,
/// which is the answer the update listing is owed.
pub fn get_updatable_apps() -> (r: Vec<Package>)
    ensures
        r@.len() == 0,
{
    Vec::new()
}

/// The formatted reference string of the first installed application ref
/// bearing the given name, at index `i` or later.
pub open spec fn uninstall_target_from(
    refs: Seq<InstalledRef>,
    name: Seq<char>,
    i: int,
) -> Option<Seq<char>>
    decreases refs.len() - i when 0 <= i <= refs.len()
{
    if i >= refs.len() {
        None
    } else if refs[i].kind == RefKind::App && refs[i].name@ == name {
        Some(refs[i].format_ref@)
    } else {
        uninstall_target_from(refs, name, i + 1)
    }
}

/// The formatted reference string to uninstall for a package name: that of
/// the first installed application ref bearing the name, or nothing when the
/// name is not installed as an application.
pub open spec fn uninstall_target(refs: Seq<InstalledRef>, name: Seq<char>) -> Option<Seq<char>> {
    uninstall_target_from(refs, name, 0)
}

/// Picks the formatted reference string to uninstall for a package name: the
/// first installed application ref bearing the name.
pub fn find_uninstall_target(refs: &Vec<InstalledRef>, name: &str) -> (r: Option<String>)
    ensures
        opt_view(r) == uninstall_target(refs@, name@),
{
    let wanted = String::from_str(name);
    let mut i: usize = 0;
    while i < refs.len()
        invariant
            i <= refs@.len(),
            wanted@ == name@,
            uninstall_target(refs@, name@) == uninstall_target_from(refs@, name@, i as int),
        decreases refs@.len() - i,
    {
        if refs[i].kind == RefKind::App && refs[i].name == wanted {
            return Some(refs[i].format_ref.clone());
        }
        i += 1;
    }
    None
}

/// The index of the first remote ref bearing the given name, at `i` or later.
pub open spec fn first_ref_named_from(refs: Seq<RemoteRef>, name: Seq<char>, i: int) -> Option<
    int,
>
    decreases refs.len() - i when 0 <= i <= refs.len()
{
    if i >= refs.len() {
        None
    } else if refs[i].name@ == name {
        Some(i)
    } else {
        first_ref_named_from(refs, name, i + 1)
    }
}

/// The index of the first remote ref bearing the given name.
pub open spec fn first_ref_named(refs: Seq<RemoteRef>, name: Seq<char>) -> Option<int> {
    first_ref_named_from(refs, name, 0)
}

/// Finds the first remote ref bearing the given name, scanning the refs in
/// enumeration order.
pub fn find_ref_by_name(refs: &Vec<RemoteRef>, name: &str) -> (r: Option<usize>)
    ensures
        (match r {
            Some(i) => Some(i as int),
            None => None,
        }) == first_ref_named(refs@, name@),
{
    let wanted = String::from_str(name);
    let mut i: usize = 0;
    while i < refs.len()
        invariant
            i <= refs@.len(),
            wanted@ == name@,
            first_ref_named(refs@, name@) == first_ref_named_from(refs@, name@, i as int),
        decreases refs@.len() - i,
    {
        if refs[i].name == wanted {
            return Some(i);
        }
        i += 1;
    }
    None
}

} // verus!

//! Icon resolution: probing an ordered list of candidate paths.
//!
//! The resolver itself is pure: callers pass the list of candidate files that
//! actually exist on disk, and the resolver returns the first candidate, in
//! preference order, that is on that list. Absence is an expected outcome,
//! not an error.

use vstd::prelude::*;

verus! {

/// Candidate path in the remote-scoped appstream icon cache for one size.
pub open spec fn appstream_candidate(
    home: Seq<char>,
    remote: Seq<char>,
    arch: Seq<char>,
    name: Seq<char>,
    size: Seq<char>,
) -> Seq<char> {
    home + "/.local/share/flatpak/appstream/"@ + remote + "/"@ + arch + "/active/icons/"@ + size
        + "x"@ + size + "/"@ + name + ".png"@
}

/// Candidate path in the per-app exported icon theme for one size and format.
pub open spec fn export_candidate(
    home: Seq<char>,
    name: Seq<char>,
    size: Seq<char>,
    ext: Seq<char>,
) -> Seq<char> {
    home + "/.local/share/flatpak/app/"@ + name + "/current/active/export/share/icons/hicolor/"@
        + size + "x"@ + size + "/apps/"@ + name + "."@ + ext
}

/// The full ordered candidate list. The appstream cache tier is preferred
/// over the per-app export tier, and within each tier mid resolutions come
/// first; the export tier ends with a scalable vector fallback. The order is
/// a deliberate heuristic and is part of the contract.
pub open spec fn icon_candidates(
    home: Seq<char>,
    remote: Seq<char>,
    arch: Seq<char>,
    name: Seq<char>,
) -> Seq<Seq<char>> {
    seq![
        appstream_candidate(home, remote, arch, name, "64"@),
        appstream_candidate(home, remote, arch, name, "128"@),
        appstream_candidate(home, remote, arch, name, "32"@),
        appstream_candidate(home, remote, arch, name, "256"@),
        appstream_candidate(home, remote, arch, name, "16"@),
        export_candidate(home, name, "64"@, "png"@),
        export_candidate(home, name, "128"@, "png"@),
        export_candidate(home, name, "32"@, "png"@),
        export_candidate(home, name, "256"@, "png"@),
        export_candidate(home, name, "16"@, "png"@),
        export_candidate(home, name, "scalable"@, "svg"@),
    ]
}

/// The first candidate at index `i` or later that is on the existing list.
pub open spec fn first_existing_from(
    cands: Seq<Seq<char>>,
    existing: Seq<Seq<char>>,
    i: int,
) -> Option<Seq<char>>
    decreases cands.len() - i when 0 <= i <= cands.len()
{
    if i >= cands.len() {
        None
    } else if existing.contains(cands[i]) {
        Some(cands[i])
    } else {
        first_existing_from(cands, existing, i + 1)
    }
}

/// The first candidate, in order, that is on the existing list.
pub open spec fn first_existing(cands: Seq<Seq<char>>, existing: Seq<Seq<char>>) -> Option<
    Seq<char>,
> {
    first_existing_from(cands, existing, 0)
}

/// What icon resolution yields for a package: the first candidate path
/// present among the existing files, or nothing.
pub open spec fn resolved_icon(
    home: Seq<char>,
    remote: Seq<char>,
    arch: Seq<char>,
    name: Seq<char>,
    existing: Seq<Seq<char>>,
) -> Option<Seq<char>> {
    first_existing(icon_candidates(home, remote, arch, name), existing)
}

/// A resolved path always comes from the existing list: resolution never
/// yields a path to a file that was not seen to exist.
pub proof fn lemma_resolved_is_existing(
    cands: Seq<Seq<char>>,
    existing: Seq<Seq<char>>,
    i: int,
)
    requires
        0 <= i <= cands.len(),
    ensures
        first_existing_from(cands, existing, i) matches Some(p) ==> existing.contains(p),
    decreases cands.len() - i,
{
    if i < cands.len() && !existing.contains(cands[i]) {
        lemma_resolved_is_existing(cands, existing, i + 1);
    }
}

/// A resolved icon is always one of the files that existed at resolution
/// time: resolution never yields a path to a nonexistent file.
pub proof fn lemma_resolved_icon_exists(
    home: Seq<char>,
    remote: Seq<char>,
    arch: Seq<char>,
    name: Seq<char>,
    existing: Seq<Seq<char>>,
)
    ensures
        resolved_icon(home, remote, arch, name, existing) matches Some(p) ==> existing.contains(p),
{
    lemma_resolved_is_existing(icon_candidates(home, remote, arch, name), existing, 0);
}

/// When no candidate of either tier is an existing file, resolution yields
/// nothing.
pub proof fn lemma_no_candidate_no_icon(
    home: Seq<char>,
    remote: Seq<char>,
    arch: Seq<char>,
    name: Seq<char>,
    existing: Seq<Seq<char>>,
)
    requires
        forall|j: int|
            0 <= j < icon_candidates(home, remote, arch, name).len() ==> !existing.contains(
                #[trigger] icon_candidates(home, remote, arch, name)[j],
            ),
    ensures
        resolved_icon(home, remote, arch, name, existing) is None,
{
    lemma_all_absent_none(icon_candidates(home, remote, arch, name), existing, 0);
}

proof fn lemma_all_absent_none(cands: Seq<Seq<char>>, existing: Seq<Seq<char>>, i: int)
    requires
        0 <= i <= cands.len(),
        forall|j: int| 0 <= j < cands.len() ==> !existing.contains(#[trigger] cands[j]),
    ensures
        first_existing_from(cands, existing, i) is None,
    decreases cands.len() - i,
{
    if i < cands.len() {
        lemma_all_absent_none(cands, existing, i + 1);
    }
}

fn build_appstream_candidate(
    home: &str,
    remote: &str,
    arch: &str,
    name: &str,
    size: &str,
) -> (r: String)
    ensures
        r@ == appstream_candidate(home@, remote@, arch@, name@, size@),
{
    let mut s = String::new();
    s.append(home);
    s.append("/.local/share/flatpak/appstream/");
    s.append(remote);
    s.append("/");
    s.append(arch);
    s.append("/active/icons/");
    s.append(size);
    s.append("x");
    s.append(size);
    s.append("/");
    s.append(name);
    s.append(".png");
    proof {
        assert(s@ =~= appstream_candidate(home@, remote@, arch@, name@, size@));
    }
    s
}

fn build_export_candidate(home: &str, name: &str, size: &str, ext: &str) -> (r: String)
    ensures
        r@ == export_candidate(home@, name@, size@, ext@),
{
    let mut s = String::new();
    s.append(home);
    s.append("/.local/share/flatpak/app/");
    s.append(name);
    s.append("/current/active/export/share/icons/hicolor/");
    s.append(size);
    s.append("x");
    s.append(size);
    s.append("/apps/");
    s.append(name);
    s.append(".");
    s.append(ext);
    proof {
        assert(s@ =~= export_candidate(home@, name@, size@, ext@));
    }
    s
}

/// Builds the ordered candidate list as real paths, so that a caller can
/// probe the filesystem for exactly these files.
pub fn icon_candidate_paths(home: &str, remote: &str, arch: &str, name: &str) -> (r: Vec<String>)
    ensures
        crate::string_views(r@) == icon_candidates(home@, remote@, arch@, name@),
{
    let mut v: Vec<String> = Vec::new();
    v.push(build_appstream_candidate(home, remote, arch, name, "64"));
    v.push(build_appstream_candidate(home, remote, arch, name, "128"));
    v.push(build_appstream_candidate(home, remote, arch, name, "32"));
    v.push(build_appstream_candidate(home, remote, arch, name, "256"));
    v.push(build_appstream_candidate(home, remote, arch, name, "16"));
    v.push(build_export_candidate(home, name, "64", "png"));
    v.push(build_export_candidate(home, name, "128", "png"));
    v.push(build_export_candidate(home, name, "32", "png"));
    v.push(build_export_candidate(home, name, "256", "png"));
    v.push(build_export_candidate(home, name, "16", "png"));
    v.push(build_export_candidate(home, name, "scalable", "svg"));
    proof {
        assert(crate::string_views(v@) =~= icon_candidates(home@, remote@, arch@, name@));
    }
    v
}

fn contains_string(v: &Vec<String>, s: &String) -> (r: bool)
    ensures
        r == v@.map_values(|x: String| x@).contains(s@),
{
    let ghost views = v@.map_values(|x: String| x@);
    let mut i: usize = 0;
    while i < v.len()
        invariant
            i <= v@.len(),
            views == v@.map_values(|x: String| x@),
            forall|j: int| 0 <= j < i ==> views[j] != s@,
        decreases v@.len() - i,
    {
        if v[i] == *s {
            proof {
                assert(views[i as int] == s@);
            }
            return true;
        }
        i += 1;
    }
    false
}

/// Resolves the icon for a package: the first candidate path, in preference
/// order, that is on the list of existing files. Returns nothing when no
/// candidate exists, which callers treat as a normal outcome.
pub fn get_icon_path(
    name: &str,
    remote: &str,
    arch: &str,
    home: &str,
    existing: &Vec<String>,
) -> (r: Option<String>)
    ensures
        (match r {
            Some(p) => Some(p@),
            None => None,
        }) == resolved_icon(home@, remote@, arch@, name@, crate::string_views(existing@)),
{
    let ghost cand_views = icon_candidates(home@, remote@, arch@, name@);
    let ghost existing_views = crate::string_views(existing@);
    let cands = icon_candidate_paths(home, remote, arch, name);
    let mut i: usize = 0;
    while i < cands.len()
        invariant
            i <= cands@.len(),
            crate::string_views(cands@) == cand_views,
            cand_views == icon_candidates(home@, remote@, arch@, name@),
            existing_views == crate::string_views(existing@),
            first_existing(cand_views, existing_views) == first_existing_from(
                cand_views,
                existing_views,
                i as int,
            ),
        decreases cands@.len() - i,
    {
        if contains_string(existing, &cands[i]) {
            proof {
                assert(cand_views[i as int] == cands@[i as int]@);
            }
            let p = cands[i].clone();
            return Some(p);
        }
        proof {
            assert(cand_views[i as int] == cands@[i as int]@);
        }
        i += 1;
    }
    None
}

} // verus!

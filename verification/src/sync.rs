//! The sync pass for one remote: building canonical packages from the
//! remote's refs and its metadata collection, and committing them in batch.
//!
//! Only refs whose architecture matches the running system's are stored;
//! cross-architecture refs are skipped. A missing or unparsable metadata
//! collection degrades to building every package from its ref alone.

use crate::icon::resolved_icon;
use crate::metadata::Component;
use crate::metadata::find_component;
use crate::metadata::first_match;
use crate::package::Package;
use crate::package::RemoteRef;
use crate::package::kind_of_ref;
use crate::package::kind_text;
use crate::package::opt_view;
use crate::store::RowData;
use crate::store::Storage;
use crate::store::StoreError;
use crate::store::package_rows;
use crate::store::row_of;
use vstd::prelude::*;

verus! {

/// The component a ref's metadata lookup yields from an optionally loaded
/// collection: the first component matching the ref's identifier and
/// formatted reference string, or nothing when the collection is absent or
/// holds no exact match.
pub open spec fn matched_component(
    collection: Option<Seq<Component>>,
    id: Seq<char>,
    ref_name: Seq<char>,
) -> Option<Component> {
    match collection {
        Some(cs) => match first_match(cs, id, ref_name) {
            Some(i) => Some(cs[i]),
            None => None,
        },
        None => None,
    }
}

/// The catalog row a remote ref is stored as: presentation fields from the
/// matched component when metadata matched, the ref's own name as display
/// name otherwise; the icon is resolved against the remote's identifier.
pub open spec fn remote_row(
    r: RemoteRef,
    collection: Option<Seq<Component>>,
    home: Seq<char>,
    existing: Seq<Seq<char>>,
) -> RowData {
    let icon = resolved_icon(home, r.remote_name@, r.arch@, r.name@, existing);
    match matched_component(collection, r.name@, r.format_ref@) {
        Some(c) => (
            r.name@,
            opt_view(c.name),
            opt_view(c.summary),
            icon,
            opt_view(c.description),
            kind_text(kind_of_ref(r.kind)),
        ),
        None => (r.name@, Some(r.name@), None, icon, None, kind_text(kind_of_ref(r.kind))),
    }
}

/// Selects the refs of the running system's architecture.
pub open spec fn arch_pred(arch: Seq<char>) -> spec_fn(RemoteRef) -> bool {
    |r: RemoteRef| r.arch@ == arch
}

/// The rows one remote's sync pass commits: one per ref of the matching
/// architecture, in enumeration order.
pub open spec fn sync_rows(
    refs: Seq<RemoteRef>,
    collection: Option<Seq<Component>>,
    arch: Seq<char>,
    home: Seq<char>,
    existing: Seq<Seq<char>>,
) -> Seq<RowData> {
    refs.filter(arch_pred(arch)).map_values(
        |r: RemoteRef| remote_row(r, collection, home, existing),
    )
}

/// Appending a ref extends the sync rows exactly when its architecture
/// matches.
proof fn lemma_sync_rows_push(
    s: Seq<RemoteRef>,
    x: RemoteRef,
    collection: Option<Seq<Component>>,
    arch: Seq<char>,
    home: Seq<char>,
    existing: Seq<Seq<char>>,
)
    ensures
        sync_rows(s.push(x), collection, arch, home, existing) == if x.arch@ == arch {
            sync_rows(s, collection, arch, home, existing).push(
                remote_row(x, collection, home, existing),
            )
        } else {
            sync_rows(s, collection, arch, home, existing)
        },
{
    reveal(Seq::filter);
    assert(s.push(x).drop_last() =~= s);
    assert(s.push(x).last() == x);
    let f = |r: RemoteRef| remote_row(r, collection, home, existing);
    if x.arch@ == arch {
        assert(s.push(x).filter(arch_pred(arch)) == s.filter(arch_pred(arch)).push(x));
        assert(s.filter(arch_pred(arch)).push(x).map_values(f) =~= s.filter(
            arch_pred(arch),
        ).map_values(f).push(f(x)));
    }
}

proof fn lemma_filter_all_false<A>(s: Seq<A>, p: spec_fn(A) -> bool)
    requires
        forall|j: int| 0 <= j < s.len() ==> !p(#[trigger] s[j]),
    ensures
        s.filter(p) == Seq::<A>::empty(),
    decreases s.len(),
{
    reveal(Seq::filter);
    if s.len() > 0 {
        lemma_filter_all_false(s.drop_last(), p);
        assert(!p(s.last()));
    }
    assert(s.filter(p) =~= Seq::<A>::empty());
}

/// Cross-architecture refs are never stored: a remote whose refs all carry a
/// foreign architecture contributes no rows to a sync pass.
pub proof fn lemma_foreign_arch_syncs_nothing(
    refs: Seq<RemoteRef>,
    collection: Option<Seq<Component>>,
    arch: Seq<char>,
    home: Seq<char>,
    existing: Seq<Seq<char>>,
)
    requires
        forall|j: int| 0 <= j < refs.len() ==> (#[trigger] refs[j]).arch@ != arch,
    ensures
        sync_rows(refs, collection, arch, home, existing) == Seq::<RowData>::empty(),
{
    lemma_filter_all_false(refs, arch_pred(arch));
    assert(Seq::<RemoteRef>::empty().map_values(
        |r: RemoteRef| remote_row(r, collection, home, existing),
    ) =~= Seq::<RowData>::empty());
}

/// The view of an optionally borrowed metadata collection.
pub open spec fn collection_view(collection: Option<&Vec<Component>>) -> Option<Seq<Component>> {
    match collection {
        Some(v) => Some(v@),
        None => None,
    }
}

/// Builds the packages one remote's refs yield: one per ref of the matching
/// architecture, in enumeration order, each with its metadata component
/// matched by identifier and exact reference string when the collection
/// offers one.
pub fn build_remote_packages(
    refs: &Vec<RemoteRef>,
    collection: Option<&Vec<Component>>,
    arch: &str,
    home: &str,
    existing: &Vec<String>,
) -> (r: Vec<Package>)
    ensures
        package_rows(r@) == sync_rows(
            refs@,
            collection_view(collection),
            arch@,
            home@,
            crate::string_views(existing@),
        ),
{
    let ghost coll = collection_view(collection);
    let ghost ex = crate::string_views(existing@);
    let arch_s = String::from_str(arch);
    let mut out: Vec<Package> = Vec::new();
    proof {
        reveal(Seq::filter);
        assert(refs@.take(0).filter(arch_pred(arch@)) =~= Seq::<RemoteRef>::empty());
        assert(package_rows(out@) =~= sync_rows(refs@.take(0), coll, arch@, home@, ex));
    }
    let mut i: usize = 0;
    while i < refs.len()
        invariant
            i <= refs@.len(),
            arch_s@ == arch@,
            coll == collection_view(collection),
            ex == crate::string_views(existing@),
            package_rows(out@) == sync_rows(refs@.take(i as int), coll, arch@, home@, ex),
        decreases refs@.len() - i,
    {
        proof {
            lemma_sync_rows_push(refs@.take(i as int), refs@[i as int], coll, arch@, home@, ex);
            assert(refs@.take(i + 1 as int) =~= refs@.take(i as int).push(refs@[i as int]));
        }
        let rref = &refs[i];
        if rref.arch == arch_s {
            let comp: Option<&Component> = match collection {
                Some(cs) => {
                    match find_component(cs, &rref.name, &rref.format_ref) {
                        Some(j) => Some(&cs[j]),
                        None => None,
                    }
                },
                None => None,
            };
            let p = Package::from_remote(rref, comp, home, existing);
            proof {
                assert(row_of(p) == remote_row(refs@[i as int], coll, home@, ex));
                assert(package_rows(out@.push(p)) =~= package_rows(out@).push(row_of(p)));
            }
            out.push(p);
        }
        i += 1;
    }
    proof {
        assert(refs@.take(refs@.len() as int) =~= refs@);
    }
    out
}

/// Commits one remote's sync pass: builds a package per ref of the matching
/// architecture and batch-inserts them in a single transaction, so either the
/// remote's whole contribution is stored or, on a storage-engine failure,
/// none of it is.
pub fn sync_remote(
    storage: &mut Storage,
    refs: &Vec<RemoteRef>,
    collection: Option<&Vec<Component>>,
    arch: &str,
    home: &str,
    existing: &Vec<String>,
) -> (r: Result<(), StoreError>)
    requires
        old(storage).wf(),
    ensures
        final(storage).wf(),
        final(storage).all_packages == old(storage).all_packages,
        r is Ok ==> final(storage).rows() == old(storage).rows() + sync_rows(
            refs@,
            collection_view(collection),
            arch@,
            home@,
            crate::string_views(existing@),
        ),
        r is Err ==> final(storage).rows() == old(storage).rows(),
{
    let packages = build_remote_packages(refs, collection, arch, home, existing);
    storage.insert_batch(&packages)
}

} // verus!

//! The search index: fuzzy ranking over the cached package names, resolved
//! to full catalog records, and the curated staff-picks listing.

use crate::package::Package;
use crate::package::PackageKind;
use crate::store::RowData;
use crate::store::Storage;
use crate::store::StoreError;
use crate::store::app_named_pred;
use crate::store::package_rows;
use crate::store::row_of;
use vstd::multiset::Multiset;
use vstd::prelude::*;

verus! {

/// The names the fuzzy ranker selects for a query from a corpus, best first,
/// at most `limit` of them. The ranking is a pure function of the query and
/// the corpus, so the selection is named here; its scores are floating point
/// and are not modeled.
pub uninterp spec fn fuzzy_best(query: Seq<char>, corpus: Seq<Seq<char>>, limit: int) -> Seq<
    Seq<char>,
>;

/// Relies on rust_fuzzy_search's `fuzzy_search_best_n`: every corpus entry is
/// scored against the query by trigram similarity, the scored list is sorted
/// by descending score, and the first `limit` entries are kept. The result is
/// a pure function of the arguments, named `fuzzy_best`; the count and
/// corpus-membership facts below are read off the crate's source, which
/// scores the corpus entries themselves and truncates to `limit`.
#[verifier::external_body]
fn fuzzy_best_names(query: &str, corpus: &Vec<String>, limit: usize) -> (r: Vec<String>)
    ensures
        crate::string_views(r@) == fuzzy_best(query@, crate::string_views(corpus@), limit as int),
        limit <= corpus@.len() ==> r@.len() == limit,
        corpus@.len() < limit ==> r@.len() == corpus@.len(),
        forall|i: int|
            0 <= i < r@.len() ==> crate::string_views(corpus@).contains(
                #[trigger] crate::string_views(r@)[i],
            ),
{
    let list: Vec<&str> = corpus.iter().map(|s| s.as_str()).collect();
    let found = rust_fuzzy_search::fuzzy_search_best_n(query, &list, limit);
    found.into_iter().map(|(name, _score)| name.to_string()).collect()
}

/// The application rows of a catalog bearing one exact name.
pub open spec fn app_rows_named(rows: Seq<RowData>, name: Seq<char>) -> Multiset<RowData> {
    rows.to_multiset().filter(app_named_pred(name))
}

/// The rows a list of name lookups gathers: for each name, in order, every
/// application row bearing it.
pub open spec fn gathered_rows(rows: Seq<RowData>, names: Seq<Seq<char>>) -> Multiset<RowData>
    decreases names.len(),
{
    if names.len() == 0 {
        Multiset::empty()
    } else {
        gathered_rows(rows, names.drop_last()).add(app_rows_named(rows, names.last()))
    }
}

/// The rows stand as one block per looked-up name, blocks in list order: the
/// last block holds exactly the application rows bearing the last name, in
/// an order the engine chose, and what precedes it is grouped by the earlier
/// names in the same way. Each block's length is the number of rows its name
/// gathers, so the split points are determined.
pub open spec fn grouped_by_names(
    v: Seq<RowData>,
    rows: Seq<RowData>,
    names: Seq<Seq<char>>,
) -> bool
    decreases names.len(),
{
    if names.len() == 0 {
        v.len() == 0
    } else {
        let block = app_rows_named(rows, names.last());
        &&& block.len() <= v.len()
        &&& v.skip(v.len() - block.len()).to_multiset() == block
        &&& grouped_by_names(v.take(v.len() - block.len()), rows, names.drop_last())
    }
}

/// Every gathered row bears one of the looked-up names.
pub proof fn lemma_gathered_name_is_looked_up(
    rows: Seq<RowData>,
    names: Seq<Seq<char>>,
    t: RowData,
)
    requires
        gathered_rows(rows, names).count(t) > 0,
    ensures
        names.contains(t.0),
    decreases names.len(),
{
    broadcast use vstd::multiset::axiom_filter_count;

    if names.len() > 0 {
        if gathered_rows(rows, names.drop_last()).count(t) > 0 {
            lemma_gathered_name_is_looked_up(rows, names.drop_last(), t);
            let j = choose|j: int| 0 <= j < names.drop_last().len() && names.drop_last()[j] == t.0;
            assert(names[j] == t.0);
        } else {
            assert(app_rows_named(rows, names.last()).count(t) > 0);
            assert(names[names.len() - 1] == t.0);
        }
    }
}

/// An empty sequence holds the empty multiset.
pub proof fn lemma_empty_to_multiset<A>()
    ensures
        Seq::<A>::empty().to_multiset() == Multiset::<A>::empty(),
{
    broadcast use vstd::seq_lib::group_to_multiset_ensures;

    assert forall|v: A| Seq::<A>::empty().to_multiset().count(v) == Multiset::<A>::empty().count(
        v,
    ) by {
        assert(!Seq::<A>::empty().contains(v));
    }
    assert(Seq::<A>::empty().to_multiset() =~= Multiset::<A>::empty());
}

/// A name no stored row bears gathers nothing: appending it to a lookup list
/// leaves the gathered rows unchanged.
pub proof fn lemma_absent_name_adds_nothing(
    rows: Seq<RowData>,
    names: Seq<Seq<char>>,
    name: Seq<char>,
)
    requires
        forall|j: int| 0 <= j < rows.len() ==> (#[trigger] rows[j]).0 != name,
    ensures
        gathered_rows(rows, names.push(name)) == gathered_rows(rows, names),
{
    broadcast use vstd::seq_lib::group_to_multiset_ensures;
    broadcast use vstd::multiset::axiom_filter_count;

    assert(names.push(name).drop_last() =~= names);
    assert(names.push(name).last() == name);
    assert(app_rows_named(rows, name) =~= Multiset::<RowData>::empty()) by {
        assert forall|v: RowData| app_rows_named(rows, name).count(v) == 0 by {
            if v.0 == name {
                assert(!rows.contains(v));
                assert(rows.to_multiset().count(v) == 0);
            }
        }
    }
    assert(gathered_rows(rows, names).add(Multiset::<RowData>::empty()) =~= gathered_rows(
        rows,
        names,
    ));
}

/// Resolves a list of names to catalog records: for each name, in list
/// order, one block holding every stored application row bearing it,
/// duplicates across remotes included; names absent from the catalog are
/// simply omitted. An empty list always succeeds with the empty result; a
/// storage-engine failure aborts the whole resolution.
pub fn lookup_all(db: &Storage, names: &Vec<String>) -> (r: Result<Vec<Package>, StoreError>)
    requires
        db.wf(),
    ensures
        names@.len() == 0 ==> r is Ok,
        r matches Ok(v) ==> package_rows(v@).to_multiset() == gathered_rows(
            db.rows(),
            crate::string_views(names@),
        ),
        r matches Ok(v) ==> grouped_by_names(
            package_rows(v@),
            db.rows(),
            crate::string_views(names@),
        ),
        r matches Ok(v) ==> forall|i: int|
            0 <= i < v@.len() ==> (#[trigger] v@[i]).kind == PackageKind::App,
        r matches Ok(v) ==> forall|i: int|
            0 <= i < v@.len() ==> crate::string_views(names@).contains((#[trigger] v@[i]).name@),
{
    let ghost nv = crate::string_views(names@);
    let mut out: Vec<Package> = Vec::new();
    proof {
        lemma_empty_to_multiset::<RowData>();
        assert(package_rows(out@) =~= Seq::<RowData>::empty());
        assert(nv.take(0) =~= Seq::<Seq<char>>::empty());
    }
    let mut i: usize = 0;
    while i < names.len()
        invariant
            db.wf(),
            i <= names@.len(),
            nv == crate::string_views(names@),
            package_rows(out@).to_multiset() == gathered_rows(db.rows(), nv.take(i as int)),
            grouped_by_names(package_rows(out@), db.rows(), nv.take(i as int)),
            forall|j: int| 0 <= j < out@.len() ==> (#[trigger] out@[j]).kind == PackageKind::App,
        decreases names@.len() - i,
    {
        let mut part = match db.lookup_by_name(&names[i]) {
            Ok(v) => v,
            Err(e) => {
                return Err(e);
            },
        };
        let ghost prev = out@;
        let ghost prev_part = part@;
        proof {
            assert(nv[i as int] == names@[i as int]@);
            assert(nv.take(i + 1 as int).drop_last() =~= nv.take(i as int));
            assert(nv.take(i + 1 as int).last() == nv[i as int]);
            assert(package_rows(out@ + part@) =~= package_rows(out@) + package_rows(part@));
            vstd::seq_lib::lemma_multiset_commutative(package_rows(out@), package_rows(part@));
        }
        out.append(&mut part);
        proof {
            broadcast use vstd::seq_lib::group_to_multiset_ensures;

            let all = package_rows(out@);
            let k = package_rows(prev).len() as int;
            assert(all =~= package_rows(prev) + package_rows(prev_part));
            assert(all.take(k) =~= package_rows(prev));
            assert(all.skip(k) =~= package_rows(prev_part));
            let names1 = nv.take(i + 1 as int);
            let block = app_rows_named(db.rows(), names1.last());
            assert(all.skip(k).to_multiset() == block);
            assert(block.len() == package_rows(prev_part).len()) by {
                assert(package_rows(prev_part).to_multiset().len() == package_rows(
                    prev_part,
                ).len());
            }
            assert(k == all.len() - block.len());
            assert(grouped_by_names(all.take(k), db.rows(), names1.drop_last()));
            assert(grouped_by_names(all, db.rows(), names1));
        }
        i += 1;
    }
    proof {
        broadcast use vstd::seq_lib::group_to_multiset_ensures;

        assert(nv.take(names@.len() as int) =~= nv);
        assert forall|j: int| 0 <= j < out@.len() implies nv.contains(
            (#[trigger] out@[j]).name@,
        ) by {
            assert(package_rows(out@)[j] == row_of(out@[j]));
            assert(package_rows(out@).contains(row_of(out@[j])));
            assert(package_rows(out@).to_multiset().count(row_of(out@[j])) > 0);
            lemma_gathered_name_is_looked_up(db.rows(), nv, row_of(out@[j]));
        }
    }
    Ok(out)
}

/// The names a search query selects: nothing for a query shorter than three
/// characters or an unloaded name cache, the fuzzy ranker's ten best
/// candidates otherwise.
pub open spec fn search_names(db: Storage, query: Seq<char>) -> Seq<Seq<char>> {
    if query.len() < 3 {
        Seq::empty()
    } else {
        match db.all_packages {
            Some(corpus) => fuzzy_best(query, crate::string_views(corpus@), 10),
            None => Seq::empty(),
        }
    }
}

/// Serves a search query: the fuzzy ranker selects at most ten candidate
/// names from the cached corpus, best first, and each candidate resolves, in
/// rank order, to one block holding every stored application row bearing it,
/// so the result can exceed ten records. Queries shorter than three
/// characters yield the empty result, as do a store whose name cache was
/// never loaded and an empty corpus. A storage-engine failure aborts the
/// search.
pub fn search(db: &Storage, st: &str) -> (r: Result<Vec<Package>, StoreError>)
    requires
        db.wf(),
    ensures
        r matches Ok(v) ==> package_rows(v@).to_multiset() == gathered_rows(
            db.rows(),
            search_names(*db, st@),
        ),
        r matches Ok(v) ==> grouped_by_names(package_rows(v@), db.rows(), search_names(*db, st@)),
        r matches Ok(v) ==> forall|i: int|
            0 <= i < v@.len() ==> (#[trigger] v@[i]).kind == PackageKind::App,
        r matches Ok(v) ==> forall|i: int|
            0 <= i < v@.len() ==> search_names(*db, st@).contains((#[trigger] v@[i]).name@),
        search_names(*db, st@).len() <= 10,
        db.all_packages matches Some(corpus) ==> forall|i: int|
            0 <= i < search_names(*db, st@).len() ==> crate::string_views(corpus@).contains(
                #[trigger] search_names(*db, st@)[i],
            ),
        st@.len() < 3 ==> (r matches Ok(v) && v@.len() == 0),
        db.all_packages is None ==> (r matches Ok(v) && v@.len() == 0),
        (db.all_packages matches Some(corpus) && corpus@.len() == 0) ==> r is Ok,
{
    proof {
        lemma_empty_to_multiset::<RowData>();
        assert(package_rows(Seq::<Package>::empty()) =~= Seq::<RowData>::empty());
    }
    if st.unicode_len() < 3 {
        let empty: Vec<Package> = Vec::new();
        return Ok(empty);
    }
    let names = match &db.all_packages {
        Some(corpus) => fuzzy_best_names(st, corpus, 10),
        None => {
            let empty: Vec<Package> = Vec::new();
            return Ok(empty);
        },
    };
    lookup_all(db, &names)
}

/// The fixed, hand-curated list of featured package names.
pub open spec fn staff_pick_names() -> Seq<Seq<char>> {
    seq![
        "org.blender.Blender"@,
        "com.logseq.Logseq"@,
        "com.mattermost.Desktop"@,
        "im.riot.Riot"@,
        "com.github.wwmm.easyeffects"@,
    ]
}

fn staff_picks_list() -> (r: Vec<String>)
    ensures
        crate::string_views(r@) == staff_pick_names(),
{
    let mut v: Vec<String> = Vec::new();
    v.push(String::from_str("org.blender.Blender"));
    v.push(String::from_str("com.logseq.Logseq"));
    v.push(String::from_str("com.mattermost.Desktop"));
    v.push(String::from_str("im.riot.Riot"));
    v.push(String::from_str("com.github.wwmm.easyeffects"));
    proof {
        assert(crate::string_views(v@) =~= staff_pick_names());
    }
    v
}

/// Serves the staff picks: one block per curated name, blocks in curated
/// order, each holding every stored application row bearing that name; names
/// absent from the catalog are simply omitted. A storage-engine failure
/// aborts the request.
pub fn get_staff_picks(db: &Storage) -> (r: Result<Vec<Package>, StoreError>)
    requires
        db.wf(),
    ensures
        r matches Ok(v) ==> package_rows(v@).to_multiset() == gathered_rows(
            db.rows(),
            staff_pick_names(),
        ),
        r matches Ok(v) ==> grouped_by_names(package_rows(v@), db.rows(), staff_pick_names()),
        r matches Ok(v) ==> forall|i: int|
            0 <= i < v@.len() ==> (#[trigger] v@[i]).kind == PackageKind::App,
        r matches Ok(v) ==> forall|i: int|
            0 <= i < v@.len() ==> staff_pick_names().contains((#[trigger] v@[i]).name@),
{
    let names = staff_picks_list();
    lookup_all(db, &names)
}

} // verus!

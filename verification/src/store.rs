//! The catalog store: a relational persistence layer holding one row per
//! (remote, package) pair observed during a sync pass.
//!
//! The store is modeled by the sequence of committed rows, in insertion
//! order, together with the rows staged inside an open transaction. The
//! engine is reached only through the trusted items below; everything said
//! about them assumes the store handle is the sole user of its database, the
//! discipline the surrounding application enforces by serializing all access
//! behind one exclusive owner.

use crate::package::Package;
use crate::package::PackageKind;
use crate::package::kind_of_text;
use crate::package::kind_text;
use crate::package::opt_view;
use vstd::multiset::Multiset;
use vstd::prelude::*;

verus! {

/// The abstract content of one catalog row, in schema column order:
/// name, pretty name, summary, icon path, description, kind text.
pub type RowData = (
    Seq<char>,
    Option<Seq<char>>,
    Option<Seq<char>>,
    Option<Seq<char>>,
    Option<Seq<char>>,
    Seq<char>,
);

#[verifier::external_type_specification]
#[verifier::external_body]
pub struct ExConnection(rusqlite::Connection);

#[verifier::external_type_specification]
#[verifier::external_body]
pub struct ExSqlError(rusqlite::Error);

/// The committed rows of the `packages` table, in insertion (rowid) order;
/// the empty sequence while the table does not exist. Rows whose columns do
/// not fit the modeled shapes (non-text values where text is expected) are
/// outside the model: reading them surfaces an engine error.
pub uninterp spec fn db_rows(c: rusqlite::Connection) -> Seq<RowData>;

/// The rows staged by the connection's open transaction, in insertion order;
/// empty outside a transaction.
pub uninterp spec fn db_staged(c: rusqlite::Connection) -> Seq<RowData>;

/// Whether the connection has an explicit transaction open.
pub uninterp spec fn db_in_txn(c: rusqlite::Connection) -> bool;

/// Whether the `packages` table exists.
pub uninterp spec fn db_has_table(c: rusqlite::Connection) -> bool;

/// Every row the connection itself can read: the committed rows followed by
/// the rows its own open transaction has staged.
pub open spec fn db_visible(c: rusqlite::Connection) -> Seq<RowData> {
    db_rows(c) + db_staged(c)
}

/// The store's failure class: an unrecoverable storage-engine error,
/// propagated to the operation that triggered it and never retried.
#[derive(Debug)]
pub struct StoreError {
    pub inner: rusqlite::Error,
}

/// One catalog row in executable form, kind still as stored text.
pub struct CatalogRow {
    pub name: String,
    pub pretty_name: Option<String>,
    pub summary: Option<String>,
    pub icon_path: Option<String>,
    pub description: Option<String>,
    pub kind: String,
}

impl View for CatalogRow {
    type V = RowData;

    open spec fn view(&self) -> RowData {
        (
            self.name@,
            opt_view(self.pretty_name),
            opt_view(self.summary),
            opt_view(self.icon_path),
            opt_view(self.description),
            self.kind@,
        )
    }
}

/// The row a package is stored as.
pub open spec fn row_of(p: Package) -> RowData {
    (
        p.name@,
        opt_view(p.pretty_name),
        opt_view(p.summary),
        opt_view(p.icon_path),
        opt_view(p.description),
        kind_text(p.kind),
    )
}

/// Whether a stored row is surfaced to search and listing consumers: only
/// rows whose kind text reads back as an application are.
pub open spec fn is_app_row(t: RowData) -> bool {
    kind_of_text(t.5) == PackageKind::App
}

/// The views of a sequence of catalog rows.
pub open spec fn row_views(v: Seq<CatalogRow>) -> Seq<RowData> {
    v.map_values(|r: CatalogRow| r@)
}

/// The rows of a sequence of packages.
pub open spec fn package_rows(v: Seq<Package>) -> Seq<RowData> {
    v.map_values(|p: Package| row_of(p))
}

/// The names of a sequence of rows.
pub open spec fn row_names(v: Seq<RowData>) -> Seq<Seq<char>> {
    v.map_values(|t: RowData| t.0)
}

/// Selects the rows bearing one exact name.
pub open spec fn named_row_pred(name: Seq<char>) -> spec_fn(RowData) -> bool {
    |t: RowData| t.0 == name
}

/// Selects the application rows bearing one exact name.
pub open spec fn app_named_pred(name: Seq<char>) -> spec_fn(RowData) -> bool {
    |t: RowData| t.0 == name && is_app_row(t)
}

/// Relies on rusqlite's `Connection::open`: opens (creating it if absent) the
/// database file at the given path. Nothing is known about the file's
/// contents; the fresh connection is in autocommit mode with nothing staged.
#[verifier::external_body]
fn open_connection(path: &str) -> (r: Result<rusqlite::Connection, rusqlite::Error>)
    ensures
        r matches Ok(c) ==> !db_in_txn(c) && db_staged(c) == Seq::<RowData>::empty(),
{
    rusqlite::Connection::open(path)
}

/// Relies on rusqlite's `Connection::open_in_memory`: a fresh private
/// database with no tables, no rows, and no open transaction.
#[verifier::external_body]
fn open_memory_connection() -> (r: Result<rusqlite::Connection, rusqlite::Error>)
    ensures
        r matches Ok(c) ==> !db_in_txn(c) && db_staged(c) == Seq::<RowData>::empty() && db_rows(c)
            == Seq::<RowData>::empty() && !db_has_table(c),
{
    rusqlite::Connection::open_in_memory()
}

/// Relies on rusqlite's `Connection::execute` running `CREATE TABLE IF NOT
/// EXISTS` for the `packages` table: idempotent, adds no rows, and on failure
/// creates nothing. Outside a transaction the statement is its own
/// transaction, so the connection stays in autocommit mode either way.
#[verifier::external_body]
fn exec_create_table(c: &mut rusqlite::Connection) -> (r: Result<usize, rusqlite::Error>)
    requires
        !db_in_txn(*old(c)),
    ensures
        !db_in_txn(*final(c)),
        db_staged(*final(c)) == db_staged(*old(c)),
        db_rows(*final(c)) == db_rows(*old(c)),
        r is Ok ==> db_has_table(*final(c)),
        r is Err ==> db_has_table(*final(c)) == db_has_table(*old(c)),
{
    c.execute(
        "CREATE TABLE if not exists packages (id INTEGER PRIMARY KEY, name TEXT NOT NULL,
         prettyname TEXT, summary TEXT, iconpath TEXT, desc TEXT, kind TEXT)",
        (),
    )
}

/// Relies on rusqlite's `Connection::execute` running `BEGIN`: on success a
/// transaction is open with nothing staged yet; a failed `BEGIN` (only
/// possible inside an already-open transaction) changes nothing.
#[verifier::external_body]
fn exec_begin(c: &mut rusqlite::Connection) -> (r: Result<usize, rusqlite::Error>)
    ensures
        r is Ok ==> db_in_txn(*final(c)) && db_staged(*final(c)) == Seq::<RowData>::empty()
            && db_rows(*final(c)) == db_rows(*old(c)) && db_has_table(*final(c)) == db_has_table(
            *old(c),
        ),
        r is Err ==> db_rows(*final(c)) == db_rows(*old(c)) && db_staged(*final(c)) == db_staged(
            *old(c),
        ) && db_in_txn(*final(c)) == db_in_txn(*old(c)) && db_has_table(*final(c)) == db_has_table(
            *old(c),
        ),
{
    c.execute("begin", ())
}

/// Relies on rusqlite's `Connection::execute` running a parameterized INSERT
/// of one catalog row; `execute` returns the engine's count of changed rows,
/// which for a single-row INSERT is one. A successful insert appends the row:
/// to the committed rows in autocommit mode, to the staged rows inside a
/// transaction. A failed statement never commits anything by itself; in
/// autocommit mode it changes nothing at all, while inside a transaction
/// certain engine errors may also roll the whole transaction back, so only
/// the committed rows are then known.
#[verifier::external_body]
fn exec_insert_row(c: &mut rusqlite::Connection, row: &CatalogRow) -> (r: Result<
    usize,
    rusqlite::Error,
>)
    ensures
        r matches Ok(n) ==> n == 1,
        r is Ok ==> db_in_txn(*final(c)) == db_in_txn(*old(c)) && db_has_table(*final(c))
            == db_has_table(*old(c)),
        r is Ok && !db_in_txn(*old(c)) ==> db_rows(*final(c)) == db_rows(*old(c)).push(row@)
            && db_staged(*final(c)) == db_staged(*old(c)),
        r is Ok && db_in_txn(*old(c)) ==> db_staged(*final(c)) == db_staged(*old(c)).push(row@)
            && db_rows(*final(c)) == db_rows(*old(c)),
        r is Err ==> db_rows(*final(c)) == db_rows(*old(c)),
        r is Err && !db_in_txn(*old(c)) ==> !db_in_txn(*final(c)) && db_staged(*final(c))
            == db_staged(*old(c)) && db_has_table(*final(c)) == db_has_table(*old(c)),
{
    c.execute(
        "INSERT INTO packages (name, prettyname, summary, iconpath, desc, kind) VALUES (?1, ?2, ?3, ?4, ?5, ?6)",
        (
            &row.name,
            &row.pretty_name,
            &row.summary,
            &row.icon_path,
            &row.description,
            &row.kind,
        ),
    )
}

/// Relies on rusqlite's `Connection::execute` running `COMMIT`: on success
/// the staged rows are appended to the committed rows and the transaction is
/// closed; a failed commit commits nothing.
#[verifier::external_body]
fn exec_commit(c: &mut rusqlite::Connection) -> (r: Result<usize, rusqlite::Error>)
    ensures
        r is Ok ==> db_rows(*final(c)) == db_rows(*old(c)) + db_staged(*old(c)) && db_staged(
            *final(c),
        ) == Seq::<RowData>::empty() && !db_in_txn(*final(c)) && db_has_table(*final(c))
            == db_has_table(*old(c)),
        r is Err ==> db_rows(*final(c)) == db_rows(*old(c)),
{
    c.execute("end", ())
}

/// Relies on rusqlite's `Connection::execute` running `ROLLBACK`, ignoring
/// its result: with a transaction open and no statement running (exclusive
/// access guarantees the latter) the rollback succeeds and discards every
/// staged row; without one the statement fails and changes nothing. Either
/// way the connection ends in autocommit mode with nothing staged and the
/// committed rows untouched.
#[verifier::external_body]
fn exec_rollback(c: &mut rusqlite::Connection)
    ensures
        db_rows(*final(c)) == db_rows(*old(c)),
        !db_in_txn(*final(c)),
        db_staged(*final(c)) == Seq::<RowData>::empty(),
{
    let _ = c.execute("rollback", ());
}

/// Relies on rusqlite's `Connection::prepare`, `Statement::query`,
/// `Rows::next` and `Row::get`: a parameterized SELECT of the catalog columns
/// for one exact name. The engine promises no row order, so only the
/// multiset of returned rows is stated.
#[verifier::external_body]
fn select_rows_named(c: &rusqlite::Connection, name: &String) -> (r: Result<
    Vec<CatalogRow>,
    rusqlite::Error,
>)
    ensures
        r matches Ok(v) ==> row_views(v@).to_multiset() == db_visible(*c).filter(
            named_row_pred(name@),
        ).to_multiset(),
{
    let sql = "SELECT name, prettyname, summary, iconpath, desc, kind FROM packages WHERE name = ?1";
    let mut stmt = c.prepare(sql)?;
    let mut rows = stmt.query([name.as_str()])?;
    let mut out: Vec<CatalogRow> = Vec::new();
    while let Some(row) = rows.next()? {
        out.push(CatalogRow {
            name: row.get(0)?, pretty_name: row.get(1)?, summary: row.get(2)?,
            icon_path: row.get(3)?, description: row.get(4)?, kind: row.get(5)?,
        });
    }
    Ok(out)
}

/// Relies on rusqlite's `Connection::prepare`, `Statement::query`,
/// `Rows::next` and `Row::get`: SELECT of every stored name. The engine
/// promises no row order, so only the multiset of returned names is stated.
#[verifier::external_body]
fn select_all_names(c: &rusqlite::Connection) -> (r: Result<Vec<String>, rusqlite::Error>)
    ensures
        r matches Ok(v) ==> crate::string_views(v@).to_multiset() == row_names(
            db_visible(*c),
        ).to_multiset(),
{
    let mut stmt = c.prepare("SELECT name FROM packages")?;
    let mut rows = stmt.query([])?;
    let mut out: Vec<String> = Vec::new();
    while let Some(row) = rows.next()? {
        out.push(row.get(0)?);
    }
    Ok(out)
}

/// Turns a package into the row it is stored as.
fn to_row(p: &Package) -> (r: CatalogRow)
    ensures
        r@ == row_of(*p),
{
    let r = CatalogRow {
        name: p.name.clone(),
        pretty_name: clone_opt_string(&p.pretty_name),
        summary: clone_opt_string(&p.summary),
        icon_path: clone_opt_string(&p.icon_path),
        description: clone_opt_string(&p.description),
        kind: p.kind.to_string(),
    };
    r
}

fn clone_opt_string(o: &Option<String>) -> (r: Option<String>)
    ensures
        r == *o,
{
    match o {
        Some(s) => Some(s.clone()),
        None => None,
    }
}

/// Materializes a stored row back into a package; the kind text reads back
/// through the total mapping, so unrecognized text yields an extension.
fn from_row(r: CatalogRow) -> (p: Package)
    ensures
        p.name == r.name,
        p.pretty_name == r.pretty_name,
        p.summary == r.summary,
        p.icon_path == r.icon_path,
        p.description == r.description,
        p.kind == kind_of_text(r.kind@),
{
    let kind = PackageKind::from_text(&r.kind);
    Package {
        name: r.name,
        pretty_name: r.pretty_name,
        description: r.description,
        summary: r.summary,
        icon_path: r.icon_path,
        kind,
    }
}

/// A demonstration record of the underlying engine's row shape; kept for
/// compatibility, unused by the catalog itself.
#[derive(Debug)]
pub struct Person {
    pub id: i32,
    pub name: String,
    pub data: Option<Vec<u8>>,
}

/// The durable holder of catalog data: a database connection together with
/// the cached list of all stored names that feeds the search index.
#[derive(Debug)]
pub struct Storage {
    pub conn: rusqlite::Connection,
    pub all_packages: Option<Vec<String>>,
}

impl Storage {
    /// The committed catalog rows, in insertion order.
    pub open spec fn rows(self) -> Seq<RowData> {
        db_rows(self.conn)
    }

    /// Whether the `packages` table exists.
    pub open spec fn has_table(self) -> bool {
        db_has_table(self.conn)
    }

    /// A quiescent store: no transaction open, nothing staged. Constructors
    /// establish this and every method preserves it.
    pub open spec fn wf(self) -> bool {
        &&& !db_in_txn(self.conn)
        &&& db_staged(self.conn) == Seq::<RowData>::empty()
    }

    /// Opens the store at its well-known on-disk location. The file may
    /// already hold catalog rows from an earlier run.
    pub fn new() -> (r: Result<Self, StoreError>)
        ensures
            r matches Ok(s) ==> s.wf() && s.all_packages is None,
    {
        match open_connection("./apps.db3") {
            Ok(conn) => Ok(Self { conn, all_packages: None }),
            Err(e) => Err(StoreError { inner: e }),
        }
    }

    /// Opens a fresh private in-memory store: no table, no rows.
    pub fn in_memory() -> (r: Result<Self, StoreError>)
        ensures
            r matches Ok(s) ==> s.wf() && s.all_packages is None && s.rows() == Seq::<
                RowData,
            >::empty() && !s.has_table(),
    {
        match open_memory_connection() {
            Ok(conn) => Ok(Self { conn, all_packages: None }),
            Err(e) => Err(StoreError { inner: e }),
        }
    }

    /// Creates the catalog table if it is absent; idempotent, and never
    /// touches existing rows. A failure here is unrecoverable for the store.
    pub fn create_table(&mut self) -> (r: Result<usize, StoreError>)
        requires
            old(self).wf(),
        ensures
            final(self).wf(),
            final(self).rows() == old(self).rows(),
            final(self).all_packages == old(self).all_packages,
            r is Ok ==> final(self).has_table(),
            r is Err ==> final(self).has_table() == old(self).has_table(),
    {
        match exec_create_table(&mut self.conn) {
            Ok(n) => Ok(n),
            Err(e) => Err(StoreError { inner: e }),
        }
    }

    /// Appends one package to the catalog and returns the engine's change
    /// count, which is one; on failure the catalog is unchanged.
    pub fn insert(&mut self, package: &Package) -> (r: Result<usize, StoreError>)
        requires
            old(self).wf(),
        ensures
            final(self).wf(),
            final(self).all_packages == old(self).all_packages,
            r matches Ok(n) ==> n == 1,
            r is Ok ==> final(self).rows() == old(self).rows().push(row_of(*package)),
            r is Err ==> final(self).rows() == old(self).rows(),
    {
        let row = to_row(package);
        match exec_insert_row(&mut self.conn, &row) {
            Ok(n) => Ok(n),
            Err(e) => Err(StoreError { inner: e }),
        }
    }

    /// Appends a batch of packages to the catalog inside a single
    /// transaction: either every row is committed, in order, or none is.
    pub fn insert_batch(&mut self, packages: &Vec<Package>) -> (r: Result<(), StoreError>)
        requires
            old(self).wf(),
        ensures
            final(self).wf(),
            final(self).all_packages == old(self).all_packages,
            r is Ok ==> final(self).rows() == old(self).rows() + package_rows(packages@),
            r is Err ==> final(self).rows() == old(self).rows(),
    {
        match exec_begin(&mut self.conn) {
            Ok(_) => {},
            Err(e) => {
                return Err(StoreError { inner: e });
            },
        }
        let mut i: usize = 0;
        while i < packages.len()
            invariant
                i <= packages@.len(),
                db_in_txn(self.conn),
                db_rows(self.conn) == db_rows(old(self).conn),
                db_staged(self.conn) == package_rows(packages@.take(i as int)),
                self.all_packages == old(self).all_packages,
            decreases packages@.len() - i,
        {
            let row = to_row(&packages[i]);
            match exec_insert_row(&mut self.conn, &row) {
                Ok(_) => {},
                Err(e) => {
                    exec_rollback(&mut self.conn);
                    return Err(StoreError { inner: e });
                },
            }
            proof {
                assert(packages@.take(i + 1 as int) =~= packages@.take(i as int).push(
                    packages@[i as int],
                ));
                assert(package_rows(packages@.take(i + 1 as int)) =~= package_rows(
                    packages@.take(i as int),
                ).push(row_of(packages@[i as int])));
            }
            i += 1;
        }
        proof {
            assert(packages@.take(packages@.len() as int) =~= packages@);
        }
        match exec_commit(&mut self.conn) {
            Ok(_) => Ok(()),
            Err(e) => {
                exec_rollback(&mut self.conn);
                Err(StoreError { inner: e })
            },
        }
    }

    /// Every stored package name, duplicates included; the order the engine
    /// hands them back in is not part of the contract.
    pub fn all_names(&self) -> (r: Result<Vec<String>, StoreError>)
        requires
            self.wf(),
        ensures
            r matches Ok(v) ==> crate::string_views(v@).to_multiset() == row_names(
                self.rows(),
            ).to_multiset(),
    {
        proof {
            assert(db_visible(self.conn) =~= self.rows());
        }
        match select_all_names(&self.conn) {
            Ok(v) => Ok(v),
            Err(e) => Err(StoreError { inner: e }),
        }
    }

    /// Exact-name retrieval, filtered to application rows: every stored
    /// application row bearing the name is returned, duplicates across
    /// remotes included, and nothing else; runtime and extension rows are
    /// never returned.
    pub fn lookup_by_name(&self, name: &String) -> (r: Result<Vec<Package>, StoreError>)
        requires
            self.wf(),
        ensures
            r matches Ok(v) ==> package_rows(v@).to_multiset() == self.rows().to_multiset().filter(
                app_named_pred(name@),
            ),
            r matches Ok(v) ==> forall|i: int|
                0 <= i < v@.len() ==> (#[trigger] v@[i]).kind == PackageKind::App,
    {
        proof {
            assert(db_visible(self.conn) =~= self.rows());
        }
        let mut fetched = match select_rows_named(&self.conn, name) {
            Ok(v) => v,
            Err(e) => {
                return Err(StoreError { inner: e });
            },
        };
        let ghost fseq = row_views(fetched@);
        let mut out: Vec<Package> = Vec::new();
        proof {
            assert(fseq.take(fseq.len() as int) =~= fseq);
            assert(fseq.skip(fseq.len() as int) =~= Seq::<RowData>::empty());
            reveal(Seq::filter);
            assert(Seq::<RowData>::empty().filter(|t: RowData| is_app_row(t)) =~= Seq::<
                RowData,
            >::empty());
            assert(package_rows(out@) =~= Seq::<RowData>::empty());
        }
        while fetched.len() > 0
            invariant
                row_views(fetched@) == fseq.take(fetched@.len() as int),
                fetched@.len() <= fseq.len(),
                package_rows(out@).to_multiset() == fseq.skip(fetched@.len() as int).filter(
                    |t: RowData| is_app_row(t),
                ).to_multiset(),
                forall|i: int| 0 <= i < out@.len() ==> (#[trigger] out@[i]).kind
                    == PackageKind::App,
                fseq.to_multiset() == self.rows().filter(named_row_pred(name@)).to_multiset(),
            decreases fetched@.len(),
        {
            let ghost k = fetched@.len() as int;
            let ghost pre = fetched@;
            let row = fetched.pop().unwrap();
            proof {
                lemma_skip_filter_step(fseq, k - 1, |t: RowData| is_app_row(t));
                assert(fetched@ =~= pre.drop_last());
                assert(row == pre.last());
                assert(row@ == fseq[k - 1]) by {
                    assert(row_views(pre)[k - 1] == pre[k - 1]@);
                }
                assert(row_views(fetched@) =~= fseq.take(k - 1)) by {
                    assert forall|j: int| 0 <= j < k - 1 implies row_views(fetched@)[j] == fseq[j]
                        by {
                        assert(row_views(pre)[j] == pre[j]@);
                        assert(row_views(fetched@)[j] == fetched@[j]@);
                    }
                }
            }
            let kind = PackageKind::from_text(&row.kind);
            if kind == PackageKind::App {
                proof {
                    assert(row.kind@ == "App"@);
                }
                let p = from_row(row);
                proof {
                    assert(row_of(p) == fseq[k - 1]);
                    assert(package_rows(out@.push(p)) =~= package_rows(out@).push(row_of(p)));
                    vstd::seq_lib::to_multiset_build(package_rows(out@), row_of(p));
                }
                out.push(p);
            }
        }
        proof {
            assert(fseq.skip(0) =~= fseq);
            lemma_filter_to_multiset(fseq, |t: RowData| is_app_row(t));
            lemma_filter_to_multiset(self.rows().filter(named_row_pred(name@)), |t: RowData| is_app_row(t));
            lemma_filter_to_multiset(self.rows(), named_row_pred(name@));
            assert(self.rows().to_multiset().filter(named_row_pred(name@)).filter(
                |t: RowData| is_app_row(t),
            ) =~= self.rows().to_multiset().filter(app_named_pred(name@))) by {
                broadcast use vstd::multiset::axiom_filter_count;
            }
        }
        Ok(out)
    }
}

/// Filtering commutes with forgetting order: the multiset of a filtered
/// sequence is the filtered multiset of the sequence.
pub proof fn lemma_filter_to_multiset<A>(s: Seq<A>, p: spec_fn(A) -> bool)
    ensures
        s.filter(p).to_multiset() == s.to_multiset().filter(p),
    decreases s.len(),
{
    broadcast use vstd::seq_lib::group_to_multiset_ensures;
    broadcast use vstd::multiset::axiom_filter_count;

    reveal(Seq::filter);
    if s.len() == 0 {
        assert(s.filter(p) =~= s);
        assert forall|v: A| s.to_multiset().filter(p).count(v) == s.filter(p).to_multiset().count(
            v,
        ) by {
            assert(!s.contains(v));
            assert(s.to_multiset().count(v) == 0);
        }
        assert(s.filter(p).to_multiset() =~= s.to_multiset().filter(p));
    } else {
        let s0 = s.drop_last();
        let x = s.last();
        lemma_filter_to_multiset(s0, p);
        assert(s =~= s0.push(x));
        assert(s.to_multiset() == s0.push(x).to_multiset());
        assert(s0.push(x).to_multiset() =~= s0.to_multiset().insert(x));
        if p(x) {
            assert(s.filter(p) == s0.filter(p).push(x));
            assert(s0.filter(p).push(x).to_multiset() =~= s0.filter(p).to_multiset().insert(x));
            assert(s.filter(p).to_multiset() =~= s.to_multiset().filter(p)) by {
                assert forall|v: A|
                    s0.to_multiset().filter(p).insert(x).count(v) == s0.to_multiset().insert(
                        x,
                    ).filter(p).count(v) by {}
            }
        } else {
            assert(s.filter(p) == s0.filter(p));
            assert(s.filter(p).to_multiset() =~= s.to_multiset().filter(p)) by {
                assert forall|v: A|
                    s0.to_multiset().filter(p).count(v) == s0.to_multiset().insert(x).filter(
                        p,
                    ).count(v) by {}
            }
        }
    }
}

/// One step of consuming a sequence from the back: the filtered multiset of
/// the suffix from `k` grows by the element at `k` exactly when it passes.
proof fn lemma_skip_filter_step<A>(s: Seq<A>, k: int, p: spec_fn(A) -> bool)
    requires
        0 <= k < s.len(),
    ensures
        p(s[k]) ==> s.skip(k).filter(p).to_multiset() == s.skip(k + 1).filter(p).to_multiset().insert(
            s[k],
        ),
        !p(s[k]) ==> s.skip(k).filter(p).to_multiset() == s.skip(k + 1).filter(p).to_multiset(),
{
    broadcast use vstd::seq_lib::group_to_multiset_ensures;
    broadcast use vstd::multiset::axiom_filter_count;

    assert(s.skip(k) =~= seq![s[k]] + s.skip(k + 1));
    Seq::filter_distributes_over_add(seq![s[k]], s.skip(k + 1), p);
    reveal(Seq::filter);
    assert(seq![s[k]].drop_last() =~= Seq::<A>::empty());
    assert(Seq::<A>::empty().filter(p) =~= Seq::<A>::empty());
    if p(s[k]) {
        assert(seq![s[k]].filter(p) =~= seq![s[k]]);
        vstd::seq_lib::lemma_multiset_commutative(seq![s[k]], s.skip(k + 1).filter(p));
        assert(seq![s[k]].to_multiset() =~= Multiset::<A>::empty().insert(s[k]));
        assert(s.skip(k).filter(p).to_multiset() =~= s.skip(k + 1).filter(p).to_multiset().insert(
            s[k],
        ));
    } else {
        assert(seq![s[k]].filter(p) =~= Seq::<A>::empty());
        assert(s.skip(k).filter(p) =~= s.skip(k + 1).filter(p));
    }
}

} // verus!

//! The in-memory registry of track-table definitions and its queue of
//! pending operations.
//!
//! `add`/`update`/`remove` are pure in-memory bookkeeping: they validate,
//! deduplicate by the derived tracking-table name, and enqueue an
//! [`Operation`]. No database work happens here; the surrounding application
//! drains the queue front to back, running [`Operation::statements`] inside
//! one transaction per operation and acknowledging each success with
//! [`Workspace::operation_applied`]. An operation whose transaction fails is
//! never acknowledged, so it and everything behind it stay queued.

use vstd::prelude::*;

use crate::error::Error;
use crate::error::ErrorKind;
use crate::queries::spec_drop_tracking_table_sql;
use crate::queries::spec_tracking_table_sql;
use crate::queries::spec_trigger_function_sql;
use crate::queries::spec_trigger_sql;
use crate::queries;
use crate::tracktable::Col;
use crate::tracktable::ColView;
use crate::tracktable::MAX_NAME_LEN;
use crate::tracktable::On;
use crate::tracktable::TrackTable;
use crate::tracktable::TrackTableView;
use crate::utils::is_valid_identifier;

verus! {

/// A pending change to the registry: create, reshape or retire the tracked
/// objects of one definition. Immutable once enqueued; consumed exactly once
/// when the queue is drained.
#[derive(Debug)]
pub enum Operation {
    Create(TrackTable),
    Update(TrackTable),
    Delete(TrackTable),
}

/// The mathematical content of an [`Operation`].
#[verifier::ext_equal]
pub enum OperationView {
    Create(TrackTableView),
    Update(TrackTableView),
    Delete(TrackTableView),
}

impl View for Operation {
    type V = OperationView;

    open spec fn view(&self) -> OperationView {
        match self {
            Operation::Create(t) => OperationView::Create(t@),
            Operation::Update(t) => OperationView::Update(t@),
            Operation::Delete(t) => OperationView::Delete(t@),
        }
    }
}

/// The SQL texts an operation runs inside its transaction, in order. Create
/// and Update both tear the generated objects down idempotently and recreate
/// them (shapes are never altered in place); Delete only tears down.
pub open spec fn spec_op_statements(op: OperationView) -> Seq<Seq<char>> {
    match op {
        OperationView::Create(t) => seq![
            spec_drop_tracking_table_sql(t),
            spec_tracking_table_sql(t),
            spec_trigger_function_sql(t),
            spec_trigger_sql(t),
        ],
        OperationView::Update(t) => seq![
            spec_drop_tracking_table_sql(t),
            spec_tracking_table_sql(t),
            spec_trigger_function_sql(t),
            spec_trigger_sql(t),
        ],
        OperationView::Delete(t) => seq![spec_drop_tracking_table_sql(t)],
    }
}

impl Operation {
    /// Synthesizes the statements of this operation's transaction.
    pub fn statements(&self) -> (r: Vec<String>)
        ensures
            r@.map_values(|s: String| s@) == spec_op_statements(self@),
    {
        match self {
            Operation::Create(t) | Operation::Update(t) => {
                let mut v: Vec<String> = Vec::new();
                v.push(queries::drop_tracking_table_sql(t));
                v.push(queries::create_tracking_table_sql(t));
                v.push(queries::create_trigger_function_sql(t));
                v.push(queries::create_trigger_sql(t));
                proof {
                    assert(v@.map_values(|s: String| s@) =~= spec_op_statements(self@));
                }
                v
            },
            Operation::Delete(t) => {
                let mut v: Vec<String> = Vec::new();
                v.push(queries::drop_tracking_table_sql(t));
                proof {
                    assert(v@.map_values(|s: String| s@) =~= spec_op_statements(self@));
                }
                v
            },
        }
    }
}

/// One persisted catalog row, already reduced to plain values by the caller
/// that read it from the database.
#[derive(Debug)]
pub struct CatalogRow {
    pub id: String,
    pub name: String,
    pub on: String,
    pub table: String,
    pub track: Vec<Col>,
    pub old: bool,
    pub new: bool,
    pub p_id: Option<Col>,
    pub created_at: i64,
    pub updated_at: i64,
}

/// The mathematical content of a [`CatalogRow`].
#[verifier::ext_equal]
pub struct CatalogRowView {
    pub id: Seq<char>,
    pub name: Seq<char>,
    pub on: Seq<char>,
    pub table: Seq<char>,
    pub track: Seq<ColView>,
    pub old: bool,
    pub new: bool,
    pub p_id: Option<ColView>,
    pub created_at: i64,
    pub updated_at: i64,
}

impl View for CatalogRow {
    type V = CatalogRowView;

    open spec fn view(&self) -> CatalogRowView {
        CatalogRowView {
            id: self.id@,
            name: self.name@,
            on: self.on@,
            table: self.table@,
            track: self.track@.map_values(|c: Col| c@),
            old: self.old,
            new: self.new,
            p_id: match self.p_id {
                Some(c) => Some(c@),
                None => None,
            },
            created_at: self.created_at,
            updated_at: self.updated_at,
        }
    }
}

/// What `uuid::Uuid::parse_str` makes of a piece of text: `Some` of the
/// 128-bit value when the text is one of the UUID spellings it accepts,
/// `None` otherwise. The outcome depends on the characters alone.
pub uninterp spec fn uuid_of(s: Seq<char>) -> Option<u128>;

/// Relies on `uuid::Uuid::parse_str` to read UUID text, and on
/// `uuid::Uuid::as_u128` to view the parsed value as its 128-bit integer;
/// both are pure functions of the input text.
#[verifier::external_body]
fn parse_uuid(s: &str) -> (r: Option<u128>)
    ensures
        r == uuid_of(s@),
{
    match uuid::Uuid::parse_str(s) {
        Ok(u) => Some(u.as_u128()),
        Err(_) => None,
    }
}

/// The views of a sequence of catalog rows.
pub open spec fn rows_view(rows: Seq<CatalogRow>) -> Seq<CatalogRowView> {
    rows.map_values(|r: CatalogRow| r@)
}

/// Whether a catalog row's machine-written fields parse back: its id is UUID
/// text and its `track_op` tag is one of the three statement kinds.
pub open spec fn row_ok(r: CatalogRowView) -> bool {
    &&& uuid_of(r.id) is Some
    &&& On::spec_from_str(r.on) is Some
}

/// The definition a parsable catalog row reconstructs to.
pub open spec fn row_table(r: CatalogRowView) -> TrackTableView {
    TrackTableView {
        id: uuid_of(r.id).unwrap(),
        name: r.name,
        on: On::spec_from_str(r.on).unwrap(),
        p_id: r.p_id,
        table: r.table,
        track: r.track,
        old: r.old,
        new: r.new,
        created_at: r.created_at,
        updated_at: r.updated_at,
    }
}

/// The registry of all track-table definitions for one database, mirroring
/// the persisted catalog, together with the queue of pending operations.
#[derive(Debug)]
pub struct Workspace {
    track_tables: Vec<TrackTable>,
    operations: Vec<Operation>,
}

impl Workspace {
    /// The registered definitions, in registration order.
    pub closed spec fn tables(self) -> Seq<TrackTableView> {
        self.track_tables@.map_values(|t: TrackTable| t@)
    }

    /// The pending operations, front (applied first) to back.
    pub closed spec fn queue(self) -> Seq<OperationView> {
        self.operations@.map_values(|o: Operation| o@)
    }

    /// Whether some registered definition has this tracking name (and so the
    /// same derived tracking-table name).
    pub open spec fn has_name(self, name: Seq<char>) -> bool {
        exists|i: int| 0 <= i < self.tables().len() && (#[trigger] self.tables()[i]).name == name
    }

    /// The registry invariant: every registered definition is well-formed
    /// (so every derived object name passes the identifier validator and the
    /// 63-character limit), and no two definitions share a derived
    /// tracking-table name.
    pub open spec fn inv(self) -> bool {
        &&& forall|i: int| 0 <= i < self.tables().len() ==> (#[trigger] self.tables()[i]).wf()
        &&& forall|i: int, j: int|
            0 <= i < j < self.tables().len() ==> self.tables()[i].name != self.tables()[j].name
    }

    /// An empty workspace: nothing registered, nothing pending.
    pub fn new() -> (w: Workspace)
        ensures
            w.tables() == Seq::<TrackTableView>::empty(),
            w.queue() == Seq::<OperationView>::empty(),
            w.inv(),
    {
        let w = Workspace { track_tables: Vec::new(), operations: Vec::new() };
        proof {
            assert(w.tables() =~= Seq::<TrackTableView>::empty());
            assert(w.queue() =~= Seq::<OperationView>::empty());
        }
        w
    }

    /// Validates every name a definition would interpolate into DDL text.
    fn validate(track_table: &TrackTable) -> (r: Result<(), Error>)
        ensures
            r is Ok <==> track_table@.wf(),
            r is Err ==> r->Err_0.kind == ErrorKind::InvalidIdentifier,
    {
        match is_valid_identifier(track_table.name.as_str(), "Validating tracking name") {
            Err(e) => {
                return Err(e);
            },
            Ok(()) => {},
        }
        if track_table.name.as_str().unicode_len() > MAX_NAME_LEN {
            return Err(Error::new("Validating tracking name", ErrorKind::InvalidIdentifier));
        }
        match is_valid_identifier(track_table.table.as_str(), "Validating source table name") {
            Err(e) => {
                return Err(e);
            },
            Ok(()) => {},
        }
        let mut i: usize = 0;
        while i < track_table.track.len()
            invariant
                i <= track_table@.track.len(),
                forall|j: int|
                    0 <= j < i ==> crate::utils::is_identifier(
                        (#[trigger] track_table@.track[j]).name,
                    ),
            decreases track_table@.track.len() - i,
        {
            proof {
                assert(track_table@.track[i as int] == track_table.track@[i as int]@);
            }
            match is_valid_identifier(
                track_table.track[i].name.as_str(),
                "Validating tracked column name",
            ) {
                Err(e) => {
                    proof {
                        assert(!crate::utils::is_identifier(track_table.track@[i as int].name@));
                        assert(!crate::utils::is_identifier(track_table@.track[i as int].name));
                        assert(!track_table@.wf());
                    }
                    return Err(e);
                },
                Ok(()) => {},
            }
            i += 1;
        }
        if let Some(c) = &track_table.p_id {
            match is_valid_identifier(c.name.as_str(), "Validating parent id column name") {
                Err(e) => {
                    return Err(e);
                },
                Ok(()) => {},
            }
        }
        Ok(())
    }

    /// The position of the registered definition with this tracking name.
    fn find_index(&self, name: &String) -> (r: Option<usize>)
        ensures
            match r {
                Some(i) => 0 <= i < self.tables().len() && self.tables()[i as int].name == name@,
                None => !self.has_name(name@),
            },
    {
        let mut i: usize = 0;
        while i < self.track_tables.len()
            invariant
                i <= self.tables().len(),
                forall|j: int| 0 <= j < i ==> (#[trigger] self.tables()[j]).name != name@,
            decreases self.tables().len() - i,
        {
            if crate::utils::str_eq(self.track_tables[i].name.as_str(), name.as_str()) {
                return Some(i);
            }
            i += 1;
        }
        None
    }

    /// Registers a new definition and enqueues its Create operation. Fails
    /// with `InvalidIdentifier` when a name does not validate, and with
    /// `DuplicateTrackTable` when a definition with the same derived
    /// tracking-table name is already registered; on failure the workspace
    /// is unchanged. Never touches the database.
    pub fn add_track_table(&mut self, track_table: TrackTable) -> (r: Result<(), Error>)
        requires
            old(self).inv(),
        ensures
            final(self).inv(),
            r is Ok <==> track_table@.wf() && !old(self).has_name(track_table@.name),
            r is Ok ==> final(self).tables() == old(self).tables().push(track_table@)
                && final(self).queue() == old(self).queue().push(
                OperationView::Create(track_table@),
            ),
            r is Err ==> final(self).tables() == old(self).tables() && final(self).queue() == old(
                self,
            ).queue(),
            r is Err ==> (r->Err_0.kind == ErrorKind::InvalidIdentifier <==> !track_table@.wf()),
            r is Err ==> (r->Err_0.kind == ErrorKind::DuplicateTrackTable <==> track_table@.wf()
                && old(self).has_name(track_table@.name)),
    {
        match Self::validate(&track_table) {
            Err(e) => {
                return Err(e);
            },
            Ok(()) => {},
        }
        if self.find_index(&track_table.name).is_some() {
            return Err(Error::new("Adding new track table", ErrorKind::DuplicateTrackTable));
        }
        let queued = track_table.clone();
        self.track_tables.push(track_table);
        self.operations.push(Operation::Create(queued));
        proof {
            assert(self.tables() =~= old(self).tables().push(track_table@));
            assert(self.queue() =~= old(self).queue().push(OperationView::Create(track_table@)));
        }
        Ok(())
    }

    /// Replaces the registered definition with the same derived
    /// tracking-table name and enqueues an Update operation. Fails with
    /// `InvalidIdentifier` when a name does not validate, and with `NotFound`
    /// when no definition shares the derived name; on failure the workspace
    /// is unchanged. Never touches the database.
    pub fn update_track_table(&mut self, track_table: TrackTable) -> (r: Result<(), Error>)
        requires
            old(self).inv(),
        ensures
            final(self).inv(),
            r is Ok <==> track_table@.wf() && old(self).has_name(track_table@.name),
            r is Ok ==> exists|i: int|
                0 <= i < old(self).tables().len() && (#[trigger] old(self).tables()[i]).name
                    == track_table@.name && final(self).tables() == old(self).tables().update(
                    i,
                    track_table@,
                ),
            r is Ok ==> final(self).queue() == old(self).queue().push(
                OperationView::Update(track_table@),
            ),
            r is Err ==> final(self).tables() == old(self).tables() && final(self).queue() == old(
                self,
            ).queue(),
            r is Err ==> (r->Err_0.kind == ErrorKind::InvalidIdentifier <==> !track_table@.wf()),
            r is Err ==> (r->Err_0.kind == ErrorKind::NotFound <==> track_table@.wf() && !old(
                self,
            ).has_name(track_table@.name)),
    {
        match Self::validate(&track_table) {
            Err(e) => {
                return Err(e);
            },
            Ok(()) => {},
        }
        match self.find_index(&track_table.name) {
            Some(i) => {
                let queued = track_table.clone();
                self.track_tables.set(i, track_table);
                self.operations.push(Operation::Update(queued));
                proof {
                    assert(self.tables() =~= old(self).tables().update(i as int, track_table@));
                    assert(self.queue() =~= old(self).queue().push(
                        OperationView::Update(track_table@),
                    ));
                    assert forall|a: int, b: int|
                        0 <= a < b < self.tables().len() implies self.tables()[a].name
                        != self.tables()[b].name by {
                        assert(old(self).tables()[a].name != old(self).tables()[b].name);
                        assert(old(self).tables()[i as int].name == track_table@.name);
                    }
                }
                Ok(())
            },
            None => Err(Error::new("Updating track table", ErrorKind::NotFound)),
        }
    }

    /// Unregisters the definition with the same derived tracking-table name
    /// and enqueues a Delete operation carrying the registered definition.
    /// Fails with `NotFound` when no definition shares the derived name; on
    /// failure the workspace is unchanged. Never touches the database.
    pub fn remove_track_table(&mut self, track_table: &TrackTable) -> (r: Result<(), Error>)
        requires
            old(self).inv(),
        ensures
            final(self).inv(),
            r is Ok <==> old(self).has_name(track_table@.name),
            r is Ok ==> exists|i: int|
                0 <= i < old(self).tables().len() && (#[trigger] old(self).tables()[i]).name
                    == track_table@.name && final(self).tables() == old(self).tables().remove(i)
                    && final(self).queue() == old(self).queue().push(
                    OperationView::Delete(old(self).tables()[i]),
                ),
            r is Err ==> final(self).tables() == old(self).tables() && final(self).queue() == old(
                self,
            ).queue(),
            r is Err ==> r->Err_0.kind == ErrorKind::NotFound,
    {
        match self.find_index(&track_table.name) {
            Some(i) => {
                let removed = self.track_tables.remove(i);
                self.operations.push(Operation::Delete(removed));
                proof {
                    assert(self.tables() =~= old(self).tables().remove(i as int));
                    assert(self.queue() =~= old(self).queue().push(
                        OperationView::Delete(old(self).tables()[i as int]),
                    ));
                }
                Ok(())
            },
            None => Err(Error::new("Removing track table", ErrorKind::NotFound)),
        }
    }

    /// How many operations are still queued.
    pub fn pending_operations(&self) -> (n: usize)
        ensures
            n == self.queue().len(),
    {
        self.operations.len()
    }

    /// How many definitions are registered.
    pub fn track_table_count(&self) -> (n: usize)
        ensures
            n == self.tables().len(),
    {
        self.track_tables.len()
    }

    /// The registered definition at a position, for introspection.
    pub fn track_table_at(&self, i: usize) -> (r: Option<&TrackTable>)
        ensures
            i < self.tables().len() ==> (r matches Some(t) && t@ == self.tables()[i as int]),
            i >= self.tables().len() ==> r is None,
    {
        if i < self.track_tables.len() {
            Some(&self.track_tables[i])
        } else {
            None
        }
    }

    /// The statements of the operation at the front of the queue — the next
    /// transaction to run — or `None` when the queue is drained.
    pub fn next_statements(&self) -> (r: Option<Vec<String>>)
        ensures
            r is None <==> self.queue().len() == 0,
            r matches Some(v) ==> self.queue().len() > 0 && v@.map_values(|s: String| s@)
                == spec_op_statements(self.queue()[0]),
    {
        if self.operations.len() == 0 {
            None
        } else {
            Some(self.operations[0].statements())
        }
    }

    /// Acknowledges that the front operation's transaction committed: the
    /// operation leaves the queue and everything behind it moves up. A failed
    /// transaction is never acknowledged, so the failed operation and all
    /// later ones stay queued, in order, for a later drain.
    pub fn operation_applied(&mut self)
        requires
            old(self).inv(),
            old(self).queue().len() > 0,
        ensures
            final(self).inv(),
            final(self).tables() == old(self).tables(),
            final(self).queue() == old(self).queue().drop_first(),
    {
        self.operations.remove(0);
        proof {
            assert(self.tables() =~= old(self).tables());
            assert(self.queue() =~= old(self).queue().drop_first());
        }
    }

    /// Rebuilds a workspace from the persisted catalog rows. Succeeds exactly
    /// when every row parses back (`row_ok`), reconstructs to a well-formed
    /// definition, and no two rows share a tracking name; any failure is
    /// `CatalogCorrupt` and no partial workspace is returned. The queue of a
    /// loaded workspace is empty.
    #[verifier::loop_isolation(false)]
    pub fn from_rows(rows: Vec<CatalogRow>) -> (r: Result<Workspace, Error>)
        ensures
            r matches Ok(w) ==> {
                &&& w.inv()
                &&& w.queue() == Seq::<OperationView>::empty()
                &&& w.tables().len() == rows@.len()
                &&& forall|i: int|
                    0 <= i < rows@.len() ==> row_ok(#[trigger] rows_view(rows@)[i]) && w.tables()[i]
                        == row_table(rows_view(rows@)[i])
            },
            r is Err ==> r->Err_0.kind == ErrorKind::CatalogCorrupt,
            ((forall|i: int|
                0 <= i < rows@.len() ==> row_ok(#[trigger] rows_view(rows@)[i]) && row_table(
                    rows_view(rows@)[i],
                ).wf()) && (forall|i: int, j: int|
                0 <= i < j < rows@.len() ==> rows_view(rows@)[i].name != rows_view(rows@)[j].name))
                ==> r is Ok,
    {
        let ghost orig: Seq<CatalogRowView> = rows_view(rows@);
        let mut ws = Workspace { track_tables: Vec::new(), operations: Vec::new() };
        let mut rest = rows;
        proof {
            assert(ws.tables() =~= Seq::<TrackTableView>::empty());
            assert(ws.queue() =~= Seq::<OperationView>::empty());
            assert(rows_view(rest@) =~= orig.skip(0));
        }
        while rest.len() > 0
            invariant
                rest@.len() <= orig.len(),
                rows_view(rest@) == orig.skip(orig.len() - rest@.len()),
                ws.tables().len() == orig.len() - rest@.len(),
                ws.queue() == Seq::<OperationView>::empty(),
                ws.inv(),
                forall|i: int|
                    0 <= i < ws.tables().len() ==> row_ok(#[trigger] orig[i]) && ws.tables()[i]
                        == row_table(orig[i]),
            decreases rest@.len(),
        {
            let ghost k = orig.len() - rest@.len();
            let ghost pre_rest = rest@;
            let ghost pre_tables = ws.tables();
            let row = rest.remove(0);
            let ghost rv = row@;
            proof {
                assert(rows_view(rows@).len() == rows@.len());
                assert(orig.len() == rows@.len());
                assert(0 <= k < orig.len());
                assert(rows_view(pre_rest)[0] == pre_rest[0]@);
                assert(rv == orig[k as int]);
                assert forall|i: int| 0 <= i < rest@.len() implies rows_view(rest@)[i] == orig.skip(
                    k + 1,
                )[i] by {
                    assert(rest@[i] == pre_rest[i + 1]);
                    assert(rows_view(pre_rest)[i + 1] == pre_rest[i + 1]@);
                    assert(rows_view(pre_rest)[i + 1] == orig.skip(k as int)[i + 1]);
                }
                assert(rows_view(rest@) =~= orig.skip(k + 1));
            }
            let id = match parse_uuid(row.id.as_str()) {
                Some(v) => v,
                None => {
                    proof {
                        assert(!row_ok(rows_view(rows@)[k as int]));
                    }
                    return Err(Error::new("Loading workspace catalog", ErrorKind::CatalogCorrupt));
                },
            };
            let on = match On::from_str(row.on.as_str()) {
                Some(o) => o,
                None => {
                    proof {
                        assert(!row_ok(rows_view(rows@)[k as int]));
                    }
                    return Err(Error::new("Loading workspace catalog", ErrorKind::CatalogCorrupt));
                },
            };
            let t = TrackTable::new(
                id,
                row.name,
                on,
                row.p_id,
                row.table,
                row.track,
                row.old,
                row.new,
                row.created_at,
                row.updated_at,
            );
            proof {
                assert(t@ =~= row_table(rv));
            }
            match Self::validate(&t) {
                Err(_) => {
                    proof {
                        assert(!row_table(rows_view(rows@)[k as int]).wf());
                    }
                    return Err(Error::new("Loading workspace catalog", ErrorKind::CatalogCorrupt));
                },
                Ok(()) => {},
            }
            let dup = ws.find_index(&t.name);
            if dup.is_some() {
                proof {
                    let idx = dup.unwrap() as int;
                    assert(ws.tables()[idx] == row_table(orig[idx]));
                    assert(rows_view(rows@)[idx].name == rows_view(rows@)[k as int].name);
                }
                return Err(Error::new("Loading workspace catalog", ErrorKind::CatalogCorrupt));
            }
            ws.track_tables.push(t);
            proof {
                assert(ws.tables() =~= pre_tables.push(row_table(orig[k as int])));
            }
        }
        proof {
            assert(rows_view(rest@).len() == 0);
        }
        Ok(ws)
    }
}

} // verus!

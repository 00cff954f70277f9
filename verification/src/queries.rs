//! DDL synthesis for tracking tables, trigger functions and triggers.
//!
//! Every function here is pure text generation over a track-table definition;
//! each is specified against a spec-level rendering of the exact SQL text it
//! produces. Identifier safety is the validator's concern and is established
//! before a definition enters the registry; the synthesizers themselves are
//! total.

use vstd::prelude::*;

use crate::tracktable::ColView;
use crate::tracktable::On;
use crate::tracktable::TrackTable;
use crate::tracktable::TrackTableView;
use crate::tracktable::spec_func_name;
use crate::tracktable::spec_table_name;
use crate::tracktable::spec_trigger_name;

verus! {

/// The `old_`/`new_` column definitions contributed by one tracked column to
/// the tracking table, each preceded by the list separator.
pub open spec fn spec_col_def(c: ColView, old: bool, new: bool) -> Seq<char> {
    (if old {
        ", old_"@ + c.name + " "@ + c.data_type
    } else {
        Seq::empty()
    }) + (if new {
        ", new_"@ + c.name + " "@ + c.data_type
    } else {
        Seq::empty()
    })
}

/// The column definitions contributed by all tracked columns, in order.
pub open spec fn spec_col_defs(track: Seq<ColView>, old: bool, new: bool) -> Seq<char>
    decreases track.len(),
{
    if track.len() == 0 {
        Seq::empty()
    } else {
        spec_col_defs(track.drop_last(), old, new) + spec_col_def(track.last(), old, new)
    }
}

/// The optional parent-id column definition.
pub open spec fn spec_p_id_def(p_id: Option<ColView>) -> Seq<char> {
    match p_id {
        Some(c) => ", p_id "@ + c.data_type + " DEFAULT NULL"@,
        None => Seq::empty(),
    }
}

/// The tracking-table creation statement: an idempotent `CREATE TABLE IF NOT
/// EXISTS` holding a generated primary key, a capture timestamp, the optional
/// parent-id column, and one `old_`/`new_` column per tracked column
/// according to the capture flags, in tracked-column order.
pub open spec fn spec_tracking_table_sql(t: TrackTableView) -> Seq<char> {
    "CREATE TABLE IF NOT EXISTS \""@ + spec_table_name(t.name)
        + "\" (id UUID PRIMARY KEY DEFAULT gen_random_uuid(), timestamp TIMESTAMP DEFAULT NOW()"@
        + spec_p_id_def(t.p_id) + spec_col_defs(t.track, t.old, t.new) + ")"@
}

/// Creates a tracking table with dynamic fields based on the columns being
/// tracked.
pub fn create_tracking_table_sql(track_table: &TrackTable) -> (r: String)
    ensures
        r@ == spec_tracking_table_sql(track_table@),
{
    let mut s = String::from_str("CREATE TABLE IF NOT EXISTS \"");
    let tn = track_table.table_name();
    s.append(tn.as_str());
    s.append("\" (id UUID PRIMARY KEY DEFAULT gen_random_uuid(), timestamp TIMESTAMP DEFAULT NOW()");
    if let Some(c) = &track_table.p_id {
        s.append(", p_id ");
        s.append(c.data_type.as_str());
        s.append(" DEFAULT NULL");
    }
    let ghost pre: Seq<char> = s@;
    let old_flag = track_table.old;
    let new_flag = track_table.new;
    let mut i: usize = 0;
    proof {
        assert(track_table@.track.take(0) =~= Seq::<ColView>::empty());
        assert(s@ =~= pre + spec_col_defs(track_table@.track.take(0), old_flag, new_flag));
    }
    while i < track_table.track.len()
        invariant
            i <= track_table.track@.len(),
            old_flag == track_table@.old,
            new_flag == track_table@.new,
            s@ == pre + spec_col_defs(track_table@.track.take(i as int), old_flag, new_flag),
        decreases track_table.track@.len() - i,
    {
        let c = &track_table.track[i];
        if old_flag {
            s.append(", old_");
            s.append(c.name.as_str());
            s.append(" ");
            s.append(c.data_type.as_str());
        }
        if new_flag {
            s.append(", new_");
            s.append(c.name.as_str());
            s.append(" ");
            s.append(c.data_type.as_str());
        }
        proof {
            let tr = track_table@.track;
            assert(tr.take(i + 1).drop_last() =~= tr.take(i as int));
            assert(tr.take(i + 1).last() == tr[i as int]);
            assert(s@ =~= pre + spec_col_defs(tr.take(i + 1), old_flag, new_flag));
        }
        i += 1;
    }
    proof {
        assert(track_table@.track.take(track_table.track@.len() as int) =~= track_table@.track);
    }
    s.append(")");
    s
}

/// The column-list entries contributed by one tracked column to the capture
/// `INSERT`, after the leading `timestamp` column.
pub open spec fn spec_ins_col(c: ColView, old: bool, new: bool) -> Seq<char> {
    (if old {
        ", old_"@ + c.name
    } else {
        Seq::empty()
    }) + (if new {
        ", new_"@ + c.name
    } else {
        Seq::empty()
    })
}

/// The column-list entries contributed by all tracked columns, in order.
pub open spec fn spec_ins_cols(track: Seq<ColView>, old: bool, new: bool) -> Seq<char>
    decreases track.len(),
{
    if track.len() == 0 {
        Seq::empty()
    } else {
        spec_ins_cols(track.drop_last(), old, new) + spec_ins_col(track.last(), old, new)
    }
}

/// The value-list entries contributed by one tracked column to the capture
/// `INSERT`: the row images the trigger reads the snapshot from.
pub open spec fn spec_ins_val(c: ColView, old: bool, new: bool) -> Seq<char> {
    (if old {
        ", OLD."@ + c.name
    } else {
        Seq::empty()
    }) + (if new {
        ", NEW."@ + c.name
    } else {
        Seq::empty()
    })
}

/// The value-list entries contributed by all tracked columns, in order.
pub open spec fn spec_ins_vals(track: Seq<ColView>, old: bool, new: bool) -> Seq<char>
    decreases track.len(),
{
    if track.len() == 0 {
        Seq::empty()
    } else {
        spec_ins_vals(track.drop_last(), old, new) + spec_ins_val(track.last(), old, new)
    }
}

/// The optional parent-id entry of the capture column list.
pub open spec fn spec_p_id_col(p_id: Option<ColView>) -> Seq<char> {
    match p_id {
        Some(c) => ", p_id"@,
        None => Seq::empty(),
    }
}

/// The optional parent-id entry of the capture value list: copied verbatim
/// from the NEW row image.
pub open spec fn spec_p_id_val(p_id: Option<ColView>) -> Seq<char> {
    match p_id {
        Some(c) => ", NEW."@ + c.name,
        None => Seq::empty(),
    }
}

/// What the trigger function returns: `OLD` for a delete trigger (the row no
/// longer exists in NEW), `NEW` otherwise.
pub open spec fn spec_return_stmt(on: On) -> Seq<char> {
    if on is Delete {
        "RETURN OLD;"@
    } else {
        "RETURN NEW;"@
    }
}

/// The trigger-function statement: an idempotent `CREATE OR REPLACE FUNCTION`
/// whose body inserts the capture timestamp, the optional parent id taken
/// from NEW, and the OLD/NEW snapshots of every tracked column into the
/// tracking table.
pub open spec fn spec_trigger_function_sql(t: TrackTableView) -> Seq<char> {
    "CREATE OR REPLACE FUNCTION \""@ + spec_func_name(t.name)
        + "\"()\nRETURNS TRIGGER AS $$\nBEGIN\n    INSERT INTO \""@ + spec_table_name(t.name)
        + "\" ("@ + "timestamp"@ + spec_p_id_col(t.p_id) + spec_ins_cols(t.track, t.old, t.new)
        + ")\n    VALUES ("@ + "NOW()"@ + spec_p_id_val(t.p_id) + spec_ins_vals(
        t.track,
        t.old,
        t.new,
    ) + ");\n    "@ + spec_return_stmt(t.on) + "\nEND;\n$$ LANGUAGE plpgsql;"@
}

/// Creates a trigger function that captures changes and stores them in the
/// tracking table.
#[verifier::rlimit(60)]
pub fn create_trigger_function_sql(track_table: &TrackTable) -> (r: String)
    ensures
        r@ == spec_trigger_function_sql(track_table@),
{
    let mut cols = String::from_str("timestamp");
    let mut vals = String::from_str("NOW()");
    if let Some(c) = &track_table.p_id {
        cols.append(", p_id");
        vals.append(", NEW.");
        vals.append(c.name.as_str());
    }
    let ghost cols_pre: Seq<char> = cols@;
    let ghost vals_pre: Seq<char> = vals@;
    let old_flag = track_table.old;
    let new_flag = track_table.new;
    let mut i: usize = 0;
    proof {
        assert(track_table@.track.take(0) =~= Seq::<ColView>::empty());
        assert(cols@ =~= cols_pre + spec_ins_cols(track_table@.track.take(0), old_flag, new_flag));
        assert(vals@ =~= vals_pre + spec_ins_vals(track_table@.track.take(0), old_flag, new_flag));
    }
    while i < track_table.track.len()
        invariant
            i <= track_table.track@.len(),
            old_flag == track_table@.old,
            new_flag == track_table@.new,
            cols@ == cols_pre + spec_ins_cols(track_table@.track.take(i as int), old_flag, new_flag),
            vals@ == vals_pre + spec_ins_vals(track_table@.track.take(i as int), old_flag, new_flag),
        decreases track_table.track@.len() - i,
    {
        let c = &track_table.track[i];
        if old_flag {
            cols.append(", old_");
            cols.append(c.name.as_str());
            vals.append(", OLD.");
            vals.append(c.name.as_str());
        }
        if new_flag {
            cols.append(", new_");
            cols.append(c.name.as_str());
            vals.append(", NEW.");
            vals.append(c.name.as_str());
        }
        proof {
            let tr = track_table@.track;
            assert(tr.take(i + 1).drop_last() =~= tr.take(i as int));
            assert(tr.take(i + 1).last() == tr[i as int]);
            assert(cols@ =~= cols_pre + spec_ins_cols(tr.take(i + 1), old_flag, new_flag));
            assert(vals@ =~= vals_pre + spec_ins_vals(tr.take(i + 1), old_flag, new_flag));
        }
        i += 1;
    }
    proof {
        assert(track_table@.track.take(track_table.track@.len() as int) =~= track_table@.track);
    }
    let mut s = String::from_str("CREATE OR REPLACE FUNCTION \"");
    let fname = track_table.func_name();
    s.append(fname.as_str());
    s.append("\"()\nRETURNS TRIGGER AS $$\nBEGIN\n    INSERT INTO \"");
    let tname = track_table.table_name();
    s.append(tname.as_str());
    s.append("\" (");
    s.append(cols.as_str());
    s.append(")\n    VALUES (");
    s.append(vals.as_str());
    s.append(");\n    ");
    match track_table.on {
        On::Delete => s.append("RETURN OLD;"),
        _ => s.append("RETURN NEW;"),
    }
    s.append("\nEND;\n$$ LANGUAGE plpgsql;");
    proof {
        assert(s@ =~= spec_trigger_function_sql(track_table@));
    }
    s
}

/// The trigger statement pair: an idempotent drop of any previous trigger,
/// then an `AFTER` row trigger on the source table that executes the capture
/// function. `AFTER` guarantees the row images exist at capture time.
pub open spec fn spec_trigger_sql(t: TrackTableView) -> Seq<char> {
    "DROP TRIGGER IF EXISTS \""@ + spec_trigger_name(t.name) + "\" ON \""@ + t.table
        + "\";\nCREATE TRIGGER \""@ + spec_trigger_name(t.name) + "\"\n    AFTER "@
        + t.on.spec_keyword() + " ON \""@ + t.table
        + "\"\n    FOR EACH ROW\n    EXECUTE FUNCTION \""@ + spec_func_name(t.name) + "\"();"@
}

/// Creates the actual trigger that calls the trigger function.
pub fn create_trigger_sql(track_table: &TrackTable) -> (r: String)
    ensures
        r@ == spec_trigger_sql(track_table@),
{
    let tname = track_table.trigger_name();
    let fname = track_table.func_name();
    let mut s = String::from_str("DROP TRIGGER IF EXISTS \"");
    s.append(tname.as_str());
    s.append("\" ON \"");
    s.append(track_table.table.as_str());
    s.append("\";\nCREATE TRIGGER \"");
    s.append(tname.as_str());
    s.append("\"\n    AFTER ");
    s.append(track_table.on.keyword());
    s.append(" ON \"");
    s.append(track_table.table.as_str());
    s.append("\"\n    FOR EACH ROW\n    EXECUTE FUNCTION \"");
    s.append(fname.as_str());
    s.append("\"();");
    s
}

/// The teardown statement batch: drops the tracking table, the trigger
/// function and the trigger, each guarded by `IF EXISTS`, so the batch is
/// safe to run whether or not any of the objects exist.
pub open spec fn spec_drop_tracking_table_sql(t: TrackTableView) -> Seq<char> {
    "DROP TABLE IF EXISTS \""@ + spec_table_name(t.name) + "\";\nDROP FUNCTION IF EXISTS \""@
        + spec_func_name(t.name) + "\";\nDROP TRIGGER IF EXISTS \""@ + spec_trigger_name(t.name)
        + "\" ON \""@ + t.table + "\";"@
}

/// Drops every generated object of a track table, idempotently.
pub fn drop_tracking_table_sql(track_table: &TrackTable) -> (r: String)
    ensures
        r@ == spec_drop_tracking_table_sql(track_table@),
{
    let mut s = String::from_str("DROP TABLE IF EXISTS \"");
    let tn = track_table.table_name();
    s.append(tn.as_str());
    s.append("\";\nDROP FUNCTION IF EXISTS \"");
    let fname = track_table.func_name();
    s.append(fname.as_str());
    s.append("\";\nDROP TRIGGER IF EXISTS \"");
    let trname = track_table.trigger_name();
    s.append(trname.as_str());
    s.append("\" ON \"");
    s.append(track_table.table.as_str());
    s.append("\";");
    s
}

/// The fixed statement that creates the persisted catalog table backing a
/// workspace.
pub open spec fn spec_create_workspace_table_sql() -> Seq<char> {
    "CREATE TABLE IF NOT EXISTS liveo_workspace (id UUID PRIMARY KEY DEFAULT gen_random_uuid(), name TEXT NOT NULL, p_id liveo_col, table_name TEXT NOT NULL, track_op TEXT NOT NULL, track_col TEXT[] NOT NULL, old_values BOOLEAN NOT NULL, new_values BOOLEAN NOT NULL, created_at TIMESTAMP DEFAULT NOW(), updated_at TIMESTAMP DEFAULT NOW());"@
}

/// Creates the catalog table that persists the workspace's registry.
pub fn create_workspace_table_sql() -> (r: String)
    ensures
        r@ == spec_create_workspace_table_sql(),
{
    String::from_str(
        "CREATE TABLE IF NOT EXISTS liveo_workspace (id UUID PRIMARY KEY DEFAULT gen_random_uuid(), name TEXT NOT NULL, p_id liveo_col, table_name TEXT NOT NULL, track_op TEXT NOT NULL, track_col TEXT[] NOT NULL, old_values BOOLEAN NOT NULL, new_values BOOLEAN NOT NULL, created_at TIMESTAMP DEFAULT NOW(), updated_at TIMESTAMP DEFAULT NOW());",
    )
}

/// The fixed statement that reads every persisted catalog row.
pub open spec fn spec_fetch_track_tables_sql() -> Seq<char> {
    "SELECT * FROM liveo_workspace;"@
}

/// Fetches the existing track tables from the catalog.
pub fn fetch_track_tables_sql() -> (r: String)
    ensures
        r@ == spec_fetch_track_tables_sql(),
{
    String::from_str("SELECT * FROM liveo_workspace;")
}

/// The fixed statement that creates the composite column type used to
/// persist the optional parent-id column.
pub open spec fn spec_create_col_type() -> Seq<char> {
    "CREATE TYPE liveo_col AS (name TEXT, data_type TEXT);"@
}

/// Creates the composite type that catalog rows store a parent-id column in.
pub fn create_col_type() -> (r: String)
    ensures
        r@ == spec_create_col_type(),
{
    String::from_str("CREATE TYPE liveo_col AS (name TEXT, data_type TEXT);")
}

} // verus!
